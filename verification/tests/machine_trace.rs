use prover::builder::ConstraintBuilder;
use prover::comparator::SignedComparatorGadget;
use prover::machine::{check_step_transitions, declared_transition, gadget_for, GadgetId};
use prover::step::{check_rw_log, ExecStep, ExecutionState, RwEntry, Transition};
use prover::word::Word;

fn step(state: ExecutionState, rw: u64, pc: u64, sp: u64) -> ExecStep {
    ExecStep {
        execution_state: state,
        opcode: 0,
        program_counter: pc,
        stack_pointer: sp,
        rw_counter: rw,
        call_id: 1,
        rw_indices: Vec::new(),
    }
}

#[test]
fn configure_declares_stack_effects() {
    // Two pops and one push imply a read/write delta of 3; the declared
    // transition states exactly that, with the program counter and the
    // stack pointer each moving by one.
    let mut cb = ConstraintBuilder::new();
    let g = SignedComparatorGadget::configure(&mut cb);
    assert_eq!(cb.stack_pops, 2);
    assert_eq!(cb.stack_pushes, 1);
    assert_eq!(g.transition, declared_transition(ExecutionState::Scmp));
    assert_eq!(g.transition.rw_counter, Transition::Delta(cb.stack_pops + cb.stack_pushes));
    assert_eq!(g.transition.program_counter, Transition::Delta(1));
    assert_eq!(g.transition.stack_pointer, Transition::Delta(1));
}

#[test]
fn gadget_dispatch_is_total_and_injective() {
    let states =
        [ExecutionState::BeginTx, ExecutionState::Scmp, ExecutionState::EndBlock];
    let mut seen = Vec::new();
    for s in states {
        let g = gadget_for(s);
        assert!(!seen.contains(&g));
        seen.push(g);
    }
    assert_eq!(gadget_for(ExecutionState::Scmp), GadgetId::ScmpGadget);
}

#[test]
fn trace_transitions_accepted() {
    // BeginTx advances the read/write counter by 1, the comparator by 3
    // with program counter and stack pointer moving by 1, EndBlock holds
    // everything still.
    let steps = vec![
        step(ExecutionState::BeginTx, 0, 0, 0),
        step(ExecutionState::Scmp, 1, 0, 100),
        step(ExecutionState::EndBlock, 4, 1, 101),
        step(ExecutionState::EndBlock, 4, 1, 101),
    ];
    assert!(check_step_transitions(&steps));
}

#[test]
fn trace_transition_delta_mismatch_rejected() {
    // The comparator's gadget declares a read/write delta of exactly 3;
    // an actual delta of 2 does not chain.
    let steps = vec![
        step(ExecutionState::Scmp, 1, 0, 100),
        step(ExecutionState::EndBlock, 3, 1, 101),
    ];
    assert!(!check_step_transitions(&steps));
}

#[test]
fn trace_rw_counter_never_decreases() {
    // A decreasing read/write counter can never chain, whatever the
    // states, because every declared transition is a non-negative delta.
    let steps = vec![
        step(ExecutionState::BeginTx, 5, 0, 0),
        step(ExecutionState::Scmp, 4, 0, 100),
    ];
    assert!(!check_step_transitions(&steps));
}

#[test]
fn rw_log_counters_strictly_increase() {
    let entry = |c: u64| RwEntry {
        counter: c,
        is_write: false,
        key: 0,
        value: Word::from_le_bytes(vec![0u8; 32]),
    };
    assert!(check_rw_log(&vec![]));
    assert!(check_rw_log(&vec![entry(1), entry(2), entry(5)]));
    assert!(!check_rw_log(&vec![entry(1), entry(1)]));
    assert!(!check_rw_log(&vec![entry(3), entry(2)]));
}

#[test]
fn opcode_step_keeps_call_context() {
    let mut steps = vec![
        step(ExecutionState::Scmp, 1, 0, 100),
        step(ExecutionState::Scmp, 4, 1, 101),
    ];
    assert!(check_step_transitions(&steps));
    steps[1].call_id = 2;
    assert!(!check_step_transitions(&steps));
}
