use prover::pipeline::{
    build_circuit, package_proofs, plan_circuit, static_block, NUM_BLINDING_ROWS,
};
use prover::rpc::ProofRequestOptions;
use prover::step::{Block, ExecStep, ExecutionState, Transaction};
use prover::{select_circuit_params, ProverError};

fn empty_block() -> Block {
    Block {
        chain_id: 1,
        randomness: 1,
        gas_limit: 100000,
        txs: Vec::new(),
        rws: Vec::new(),
        steps: Vec::new(),
        bytecodes: Vec::new(),
    }
}

fn tx_with_calldata(len: usize) -> Transaction {
    Transaction { from: vec![0u8; 20], to: vec![0u8; 20], call_data: vec![0u8; len], gas: 21000 }
}

#[test]
fn plan_uses_selector_minimum_k() {
    let options = ProofRequestOptions { k: None };
    let (params, k) = plan_circuit(150000, &options).expect("bucket exists");
    assert_eq!(params.block_gas_limit, 200000);
    assert_eq!(k, 21);
}

#[test]
fn plan_honours_k_override() {
    let options = ProofRequestOptions { k: Some(11) };
    let (params, k) = plan_circuit(150000, &options).expect("bucket exists");
    assert_eq!(params.min_k, 21);
    assert_eq!(k, 11);
}

#[test]
fn plan_rejects_oversized_gas() {
    let options = ProofRequestOptions { k: None };
    assert_eq!(plan_circuit(1000001, &options).unwrap_err(), ProverError::Capacity);
}

#[test]
fn build_pads_to_usable_rows() {
    let params = select_circuit_params(0).unwrap();
    let c = build_circuit(4, &params, &empty_block()).expect("empty block fits");
    assert_eq!(c.num_rows, 16);
    assert_eq!(c.usable_rows, 16 - NUM_BLINDING_ROWS);
    assert_eq!(c.rows.len(), 0);
    assert_eq!(c.padding_rows, c.usable_rows);
}

#[test]
fn build_rejects_too_many_transactions() {
    let params = select_circuit_params(0).unwrap();
    let mut block = empty_block();
    for _ in 0..5 {
        block.txs.push(tx_with_calldata(0));
    }
    assert_eq!(build_circuit(20, &params, &block).unwrap_err(), ProverError::Capacity);
}

#[test]
fn build_rejects_oversized_calldata() {
    let params = select_circuit_params(0).unwrap();
    let mut block = empty_block();
    block.txs.push(tx_with_calldata(19751));
    assert_eq!(build_circuit(20, &params, &block).unwrap_err(), ProverError::Capacity);
}

#[test]
fn build_rejects_oversized_bytecode() {
    let params = select_circuit_params(0).unwrap();
    let mut block = empty_block();
    block.bytecodes.push(vec![0u8; 26334]);
    assert_eq!(build_circuit(20, &params, &block).unwrap_err(), ProverError::Capacity);
}

#[test]
fn build_rejects_trace_beyond_usable_rows() {
    let params = select_circuit_params(0).unwrap();
    let mut block = empty_block();
    for _ in 0..3 {
        block.steps.push(ExecStep {
            execution_state: ExecutionState::EndBlock,
            opcode: 0,
            program_counter: 0,
            stack_pointer: 0,
            rw_counter: 0,
            call_id: 1,
            rw_indices: Vec::new(),
        });
    }
    // k = 3 gives 8 rows, 2 of them usable: a 3-step trace cannot fit.
    assert_eq!(build_circuit(3, &params, &block).unwrap_err(), ProverError::Capacity);
}

#[test]
fn static_block_is_fixed() {
    let b = static_block();
    assert_eq!(b.chain_id, 99);
    assert_eq!(b.gas_limit, 2000000);
    assert!(b.txs.is_empty());
    assert!(b.steps.is_empty());
}

#[test]
fn proofs_envelope_reserves_state_proof() {
    let p = package_proofs(vec![1, 2, 3], 250);
    assert_eq!(p.evm_proof, vec![1, 2, 3]);
    assert!(p.state_proof.is_empty());
    assert_eq!(p.duration, 250);
}

#[test]
fn error_descriptions_are_stable() {
    assert_eq!(ProverError::Capacity.describe(), "block does not fit the circuit capacity");
    assert_eq!(ProverError::WitnessRetrieval.describe(), "witness retrieval failed");
    assert_eq!(ProverError::CircuitBuild.describe(), "circuit build failed");
    assert_eq!(ProverError::KeyGeneration.describe(), "key generation failed");
    assert_eq!(ProverError::ProofGeneration.describe(), "proof generation failed");
}

#[test]
fn default_options_have_no_override() {
    let options = ProofRequestOptions::default();
    assert_eq!(options.k, None);
}
