use prover::machine::{assign_block, AssignedStep};
use prover::pipeline::build_circuit;
use prover::select_circuit_params;
use prover::step::{Block, ExecStep, ExecutionState, RwEntry};
use prover::word::Word;

const SLT: u8 = 0x12;
const SGT: u8 = 0x13;

/// Independent oracle: signed less-than over big-endian two's-complement
/// 256-bit words.
fn slt_oracle(a: &[u8; 32], b: &[u8; 32]) -> bool {
    let a_neg = a[0] >= 128;
    let b_neg = b[0] >= 128;
    if a_neg != b_neg {
        return a_neg;
    }
    for i in 0..32 {
        if a[i] != b[i] {
            return a[i] < b[i];
        }
    }
    false
}

fn word_from_be(bytes: &[u8; 32]) -> Word {
    Word::from_be_bytes(&bytes.to_vec())
}

fn make_block(opcode: u8, a: &[u8; 32], b: &[u8; 32], pushed: u8) -> Block {
    let mut result_cells = vec![0u8; 32];
    result_cells[0] = pushed;
    let rws = vec![
        RwEntry { counter: 1, is_write: false, key: 0, value: word_from_be(a) },
        RwEntry { counter: 2, is_write: false, key: 1, value: word_from_be(b) },
        RwEntry { counter: 3, is_write: true, key: 0, value: Word::from_le_bytes(result_cells) },
    ];
    let step = ExecStep {
        execution_state: ExecutionState::Scmp,
        opcode,
        program_counter: 0,
        stack_pointer: 100,
        rw_counter: 1,
        call_id: 1,
        rw_indices: vec![0, 1, 2],
    };
    Block {
        chain_id: 1,
        randomness: 1,
        gas_limit: 100000,
        txs: Vec::new(),
        rws,
        steps: vec![step],
        bytecodes: Vec::new(),
    }
}

/// Mirrors the original per-case driver: assigning the comparator step
/// over a consistent witness must succeed, with the expected bit, and
/// the whole circuit must instantiate.
fn test_ok(opcode: u8, a: [u8; 32], b: [u8; 32]) {
    let expected = if opcode == SGT { slt_oracle(&b, &a) } else { slt_oracle(&a, &b) };
    let block = make_block(opcode, &a, &b, expected as u8);
    let rows = assign_block(&block).expect("assignment must succeed");
    assert_eq!(rows.len(), 1);
    match &rows[0] {
        AssignedStep::Scmp(asn) => assert_eq!(asn.result, expected as u8),
        _ => panic!("wrong gadget dispatched"),
    }
    let params = select_circuit_params(0).expect("bucket exists");
    let circuit = build_circuit(params.min_k, &params, &block).expect("circuit must build");
    assert_eq!(circuit.rows.len(), 1);
    assert_eq!(circuit.num_rows, 1u64 << 20);
    assert_eq!(circuit.rows.len() as u64 + circuit.padding_rows, circuit.usable_rows);
}

#[test]
fn signed_comparator_gadget_a_b_neg() {
    let minus_1 = [255u8; 32];
    let minus_2 = {
        let mut bytes = [255u8; 32];
        bytes[31] = 254u8;
        bytes
    };
    test_ok(SLT, minus_2, minus_1);
    test_ok(SGT, minus_2, minus_1);
    test_ok(SLT, minus_1, minus_2);
    test_ok(SGT, minus_1, minus_2);
}

#[test]
fn signed_comparator_gadget_a_b_pos() {
    let plus_1 = {
        let mut bytes = [0u8; 32];
        bytes[31] = 1u8;
        bytes
    };
    let plus_2 = {
        let mut bytes = [0u8; 32];
        bytes[31] = 2u8;
        bytes
    };
    test_ok(SLT, plus_1, plus_2);
    test_ok(SGT, plus_1, plus_2);
    test_ok(SLT, plus_2, plus_1);
    test_ok(SGT, plus_2, plus_1);
}

#[test]
fn signed_comparator_gadget_a_b_eq_hi_pos() {
    let mut a = [2u8; 32];
    let mut b = [3u8; 32];
    for i in 0..16 {
        a[i] = 1u8;
        b[i] = 1u8;
    }
    test_ok(SLT, a, b);
    test_ok(SGT, a, b);
    test_ok(SLT, b, a);
    test_ok(SGT, b, a);
}

#[test]
fn signed_comparator_gadget_a_b_eq_hi_neg() {
    let mut a = [2u8; 32];
    let mut b = [3u8; 32];
    for i in 0..16 {
        a[i] = 129u8;
        b[i] = 129u8;
    }
    test_ok(SLT, a, b);
    test_ok(SGT, a, b);
    test_ok(SLT, b, a);
    test_ok(SGT, b, a);
}

#[test]
fn signed_comparator_gadget_a_eq_b() {
    let a = rand_word();
    test_ok(SLT, a, a);
    test_ok(SGT, a, a);
}

#[test]
fn signed_comparator_gadget_rand() {
    let a = rand_word();
    let b = rand_word();
    test_ok(SLT, a, b);
    test_ok(SGT, a, b);
    test_ok(SLT, b, a);
    test_ok(SGT, b, a);
}

fn rand_word() -> [u8; 32] {
    let mut bytes = [0u8; 32];
    for i in 0..32 {
        bytes[i] = rand::random::<u8>();
    }
    bytes
}

#[test]
fn signed_comparator_rejects_inconsistent_push() {
    // SLT(1, 2) is true, but the recorded push claims 0: the row is
    // unsatisfiable and assignment reports a proof-generation failure.
    let plus_1 = {
        let mut bytes = [0u8; 32];
        bytes[31] = 1u8;
        bytes
    };
    let plus_2 = {
        let mut bytes = [0u8; 32];
        bytes[31] = 2u8;
        bytes
    };
    let block = make_block(SLT, &plus_1, &plus_2, 0);
    assert_eq!(assign_block(&block).unwrap_err(), prover::ProverError::ProofGeneration);
}

#[test]
fn signed_comparator_rejects_malformed_step() {
    // A comparator step with a missing write event is a build defect.
    let plus_1 = {
        let mut bytes = [0u8; 32];
        bytes[31] = 1u8;
        bytes
    };
    let mut block = make_block(SLT, &plus_1, &plus_1, 0);
    block.steps[0].rw_indices = vec![0, 1];
    assert_eq!(assign_block(&block).unwrap_err(), prover::ProverError::CircuitBuild);
}

#[test]
fn signed_comparator_tie_broken_by_low_half() {
    // Equal high halves, low halves 0x02.. vs 0x03..: the tie on the
    // high half is broken by the low half, so SLT(a, b) pushes 1.
    let mut a = [2u8; 32];
    let mut b = [3u8; 32];
    for i in 0..16 {
        a[i] = 1u8;
        b[i] = 1u8;
    }
    let expected = slt_oracle(&a, &b);
    assert!(expected);
    let block = make_block(SLT, &a, &b, 1);
    let rows = assign_block(&block).expect("assignment must succeed");
    match &rows[0] {
        AssignedStep::Scmp(asn) => assert_eq!(asn.result, 1),
        _ => panic!("wrong gadget dispatched"),
    }
}
