//! Step-transition state machine.
//!
//! The states are the closed set of execution states; transitions are
//! driven by the trace, never chosen freely. Each step's gadget declares
//! the transition the next step must exhibit, and a context-continuity
//! check layered under every opcode gadget keeps the call context stable
//! unless a control state changes it. The state-to-gadget mapping is
//! total and injective; a constraint violation anywhere in the chain
//! makes the whole table unsatisfiable, so assignment fails globally
//! rather than row-locally.

use vstd::prelude::*;

use crate::builder::ConstraintBuilder;
use crate::comparator::{
    scmp_constraints_hold, scmp_operand_a, scmp_operand_b, scmp_step_shape, spec_scmp_result,
    ScmpAssignment, SignedComparatorGadget,
};
use crate::error::ProverError;
use crate::step::{
    check_transition, transition_matches, Block, ExecStep, ExecutionState, StepStateTransition,
    Transition,
};

verus! {

/// Identifier of the gadget serving one execution state.
#[derive(Debug, Clone, Copy, PartialEq, Eq, Structural)]
pub enum GadgetId {
    /// The begin-transaction control gadget.
    BeginTxGadget,
    /// The signed-comparator gadget.
    ScmpGadget,
    /// The end-block control gadget.
    EndBlockGadget,
}

/// The state-to-gadget dispatch, total over the closed state set.
pub open spec fn spec_gadget_for(s: ExecutionState) -> GadgetId {
    match s {
        ExecutionState::BeginTx => GadgetId::BeginTxGadget,
        ExecutionState::Scmp => GadgetId::ScmpGadget,
        ExecutionState::EndBlock => GadgetId::EndBlockGadget,
    }
}

/// Law: the state-to-gadget mapping is injective; together with its
/// totality by construction, every reachable execution state has exactly
/// one gadget and a gadget serves exactly one state.
pub proof fn lemma_gadget_map_injective(s1: ExecutionState, s2: ExecutionState)
    ensures
        spec_gadget_for(s1) == spec_gadget_for(s2) ==> s1 == s2,
{
}

/// Dispatch one execution state to its gadget.
pub fn gadget_for(s: ExecutionState) -> (g: GadgetId)
    ensures
        g == spec_gadget_for(s),
{
    match s {
        ExecutionState::BeginTx => GadgetId::BeginTxGadget,
        ExecutionState::Scmp => GadgetId::ScmpGadget,
        ExecutionState::EndBlock => GadgetId::EndBlockGadget,
    }
}

/// The step-state transition each state's gadget declares. The
/// comparator advances the read/write counter by 3 (two reads, one
/// write), the program counter by 1 and the stack pointer by 1; the
/// control states constrain what they own and leave the rest free.
pub open spec fn spec_declared_transition(s: ExecutionState) -> StepStateTransition {
    match s {
        ExecutionState::BeginTx => StepStateTransition {
            rw_counter: Transition::Delta(1),
            program_counter: Transition::Any,
            stack_pointer: Transition::Any,
        },
        ExecutionState::Scmp => StepStateTransition {
            rw_counter: Transition::Delta(3),
            program_counter: Transition::Delta(1),
            stack_pointer: Transition::Delta(1),
        },
        ExecutionState::EndBlock => StepStateTransition {
            rw_counter: Transition::Delta(0),
            program_counter: Transition::Same,
            stack_pointer: Transition::Same,
        },
    }
}

/// Look up the transition a state's gadget declares.
pub fn declared_transition(s: ExecutionState) -> (t: StepStateTransition)
    ensures
        t == spec_declared_transition(s),
{
    match s {
        ExecutionState::BeginTx => StepStateTransition {
            rw_counter: Transition::Delta(1),
            program_counter: Transition::Any,
            stack_pointer: Transition::Any,
        },
        ExecutionState::Scmp => StepStateTransition {
            rw_counter: Transition::Delta(3),
            program_counter: Transition::Delta(1),
            stack_pointer: Transition::Delta(1),
        },
        ExecutionState::EndBlock => StepStateTransition {
            rw_counter: Transition::Delta(0),
            program_counter: Transition::Same,
            stack_pointer: Transition::Same,
        },
    }
}

/// A step and its successor exhibit exactly the transition the step's
/// gadget declares, and an opcode step keeps its call context.
pub open spec fn step_follows(cur: ExecStep, next: ExecStep) -> bool {
    let t = spec_declared_transition(cur.execution_state);
    &&& transition_matches(t.rw_counter, cur.rw_counter, next.rw_counter)
    &&& transition_matches(t.program_counter, cur.program_counter, next.program_counter)
    &&& transition_matches(t.stack_pointer, cur.stack_pointer, next.stack_pointer)
    &&& (cur.execution_state == ExecutionState::Scmp ==> next.call_id == cur.call_id)
}

/// The whole trace chains correctly: every step's actual counter deltas
/// equal its gadget's declared deltas.
pub open spec fn trace_wf(steps: Seq<ExecStep>) -> bool {
    forall|i: int| 0 <= i && i + 1 < steps.len() ==> step_follows(#[trigger] steps[i], steps[i + 1])
}

/// Decide whether one consecutive pair of steps exhibits the declared
/// transition.
pub fn check_step_follows(cur: &ExecStep, next: &ExecStep) -> (r: bool)
    ensures
        r == step_follows(*cur, *next),
{
    let t = declared_transition(cur.execution_state);
    check_transition(&t.rw_counter, cur.rw_counter, next.rw_counter) && check_transition(
        &t.program_counter,
        cur.program_counter,
        next.program_counter,
    ) && check_transition(&t.stack_pointer, cur.stack_pointer, next.stack_pointer) && (!(
    cur.execution_state == ExecutionState::Scmp) || next.call_id == cur.call_id)
}

/// Decide whether a whole trace chains correctly.
pub fn check_step_transitions(steps: &Vec<ExecStep>) -> (r: bool)
    ensures
        r == trace_wf(steps@),
{
    let n = steps.len();
    if n == 0 {
        return true;
    }
    let mut i: usize = 0;
    while i < n - 1
        invariant
            n == steps@.len(),
            1 <= n,
            i <= n - 1,
            forall|j: int|
                0 <= j && j + 1 < steps@.len() && j < i ==> step_follows(
                    steps@[j],
                    #[trigger] steps@[j + 1],
                ),
        decreases n - i,
    {
        if !check_step_follows(&steps[i], &steps[i + 1]) {
            return false;
        }
        i = i + 1;
    }
    true
}


/// Law: global trace property. In a well-formed trace the read/write
/// counter never decreases: any later step's counter is at least any
/// earlier step's, because every declared read/write transition is a
/// non-negative delta.
pub proof fn lemma_rw_counter_monotonic(steps: Seq<ExecStep>, i: int, j: int)
    requires
        trace_wf(steps),
        0 <= i <= j < steps.len(),
    ensures
        steps[i].rw_counter <= steps[j].rw_counter,
    decreases j - i,
{
    if i < j {
        lemma_rw_counter_monotonic(steps, i, j - 1);
        assert(step_follows(steps[j - 1], steps[j]));
        match steps[j - 1].execution_state {
            ExecutionState::BeginTx => {},
            ExecutionState::Scmp => {},
            ExecutionState::EndBlock => {},
        }
    }
}

/// Law: stack effect of the comparator. Wherever a well-formed trace
/// continues past a comparator step, the read/write counter advances by
/// exactly 3 (two reads, one write), the program counter by 1 and the
/// stack pointer by 1, matching the declared step-state transition
/// exactly, and the call context is kept.
pub proof fn lemma_scmp_stack_effects(steps: Seq<ExecStep>, i: int)
    requires
        trace_wf(steps),
        0 <= i,
        i + 1 < steps.len(),
        steps[i].execution_state == ExecutionState::Scmp,
    ensures
        steps[i + 1].rw_counter == steps[i].rw_counter + 3,
        steps[i + 1].program_counter == steps[i].program_counter + 1,
        steps[i + 1].stack_pointer == steps[i].stack_pointer + 1,
        steps[i + 1].call_id == steps[i].call_id,
{
    assert(step_follows(steps[i], steps[i + 1]));
}

/// One assigned row of the witness table.
#[derive(Debug)]
pub enum AssignedStep {
    /// Row of the begin-transaction control state.
    BeginTx,
    /// Row of the signed-comparator gadget, with its full witness.
    Scmp(ScmpAssignment),
    /// Row of the end-block control state.
    EndBlock,
}

/// The stack write a comparator step records matches the boolean its
/// gadget computes from the recorded reads; a mismatch makes the row
/// unsatisfiable.
pub open spec fn scmp_push_matches(block: Block, step: ExecStep) -> bool {
    block.rws@[step.rw_indices@[2] as int].value.value() == (if spec_scmp_result(
        step.opcode,
        scmp_operand_a(block, step),
        scmp_operand_b(block, step),
    ) {
        1nat
    } else {
        0nat
    })
}

/// A step can be assigned into a satisfiable row: control steps always,
/// comparator steps when they meet the gadget's shape and their recorded
/// push is consistent.
pub open spec fn step_ok(block: Block, step: ExecStep) -> bool {
    match step.execution_state {
        ExecutionState::Scmp => scmp_step_shape(block, step) && scmp_push_matches(block, step),
        ExecutionState::BeginTx => true,
        ExecutionState::EndBlock => true,
    }
}

/// The whole trace can be assigned into a satisfiable table: it chains
/// correctly and every step can be assigned.
pub open spec fn block_assignable(block: Block) -> bool {
    &&& trace_wf(block.steps@)
    &&& forall|i: int| 0 <= i < block.steps@.len() ==> step_ok(block, #[trigger] block.steps@[i])
}

/// The row assigned for a step carries the right gadget's witness and,
/// for the comparator, the correct signed-comparison bit.
pub open spec fn row_ok(block: Block, step: ExecStep, row: AssignedStep) -> bool {
    match step.execution_state {
        ExecutionState::Scmp => row matches AssignedStep::Scmp(asn) && scmp_constraints_hold(
            step.opcode,
            asn,
        ) && asn.result == (if spec_scmp_result(
            step.opcode,
            scmp_operand_a(block, step),
            scmp_operand_b(block, step),
        ) {
            1int
        } else {
            0int
        }),
        ExecutionState::BeginTx => row matches AssignedStep::BeginTx,
        ExecutionState::EndBlock => row matches AssignedStep::EndBlock,
    }
}

/// Build one gadget row per trace step, in order. Gadgets are configured
/// once, before any assignment, and the builder is discarded; assignment
/// then runs over the recorded events alone. Returns the assigned rows,
/// or the first defect: a trace or step that no gadget can serve is a
/// circuit-build defect, while a shape-correct comparator step whose
/// recorded push disagrees with the computed bit makes the constraint
/// system unsatisfiable and surfaces as a proof-generation failure.
pub fn assign_block(block: &Block) -> (r: Result<Vec<AssignedStep>, ProverError>)
    ensures
        (r matches Ok(rows)) <==> block_assignable(*block),
        r matches Ok(rows) ==> rows@.len() == block.steps@.len() && (forall|i: int|
            0 <= i < rows@.len() ==> row_ok(*block, block.steps@[i], #[trigger] rows@[i])),
        r matches Err(e) ==> (e == ProverError::CircuitBuild || e == ProverError::ProofGeneration),
        r matches Err(e) ==> (e == ProverError::CircuitBuild ==> (!trace_wf(block.steps@)
            || exists|i: int|
                0 <= i < block.steps@.len() && (#[trigger] block.steps@[i]).execution_state
                    == ExecutionState::Scmp && !scmp_step_shape(*block, block.steps@[i]))),
        r matches Err(e) ==> (e == ProverError::ProofGeneration ==> (exists|i: int|
            0 <= i < block.steps@.len() && (#[trigger] block.steps@[i]).execution_state
                == ExecutionState::Scmp && scmp_step_shape(*block, block.steps@[i])
                && !scmp_push_matches(*block, block.steps@[i]))),
{
    let mut cb = ConstraintBuilder::new();
    let scmp_gadget = SignedComparatorGadget::configure(&mut cb);
    proof {
        // the configured transition agrees with the machine's table
        assert(scmp_gadget.transition == spec_declared_transition(ExecutionState::Scmp));
    }
    if !check_step_transitions(&block.steps) {
        return Err(ProverError::CircuitBuild);
    }
    let mut rows: Vec<AssignedStep> = Vec::new();
    let mut i: usize = 0;
    while i < block.steps.len()
        invariant
            i <= block.steps@.len(),
            rows@.len() == i,
            trace_wf(block.steps@),
            forall|j: int| 0 <= j < i ==> step_ok(*block, #[trigger] block.steps@[j]),
            forall|j: int| 0 <= j < i ==> row_ok(*block, block.steps@[j], #[trigger] rows@[j]),
        decreases block.steps@.len() - i,
    {
        let step = &block.steps[i];
        match gadget_for(step.execution_state) {
            GadgetId::ScmpGadget => {
                match scmp_gadget.assign_exec_step(block, step) {
                    Ok(asn) => {
                        let idx2 = step.rw_indices[2];
                        if !block.rws[idx2].value.is_small_value(asn.result) {
                            proof {
                                assert(block.steps@[i as int].execution_state
                                    == ExecutionState::Scmp && scmp_step_shape(
                                    *block,
                                    block.steps@[i as int],
                                ) && !scmp_push_matches(*block, block.steps@[i as int]));
                            }
                            return Err(ProverError::ProofGeneration);
                        }
                        rows.push(AssignedStep::Scmp(asn));
                    },
                    Err(e) => {
                        proof {
                            assert(block.steps@[i as int].execution_state == ExecutionState::Scmp
                                && !scmp_step_shape(*block, block.steps@[i as int]));
                        }
                        return Err(e);
                    },
                }
            },
            GadgetId::BeginTxGadget => {
                rows.push(AssignedStep::BeginTx);
            },
            GadgetId::EndBlockGadget => {
                rows.push(AssignedStep::EndBlock);
            },
        }
        i = i + 1;
    }
    Ok(rows)
}

} // verus!
