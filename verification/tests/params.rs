use prover::{select_circuit_params, CircuitParameters, ProverError};

fn bucket(gas: u64) -> CircuitParameters {
    select_circuit_params(gas).expect("bucket must exist")
}

fn check(p: CircuitParameters, limit: u64, txs: u64, calldata: u64, bytecode: u64, k: u32) {
    assert_eq!(p.block_gas_limit, limit);
    assert_eq!(p.max_txs, txs);
    assert_eq!(p.max_calldata, calldata);
    assert_eq!(p.max_bytecode, bytecode);
    assert_eq!(p.min_k, k);
}

#[test]
fn parameter_selector_first_bucket() {
    check(bucket(0), 100000, 4, 19750, 26333, 20);
    check(bucket(100000), 100000, 4, 19750, 26333, 20);
}

#[test]
fn parameter_selector_second_bucket() {
    check(bucket(100001), 200000, 9, 44750, 59666, 21);
    check(bucket(200000), 200000, 9, 44750, 59666, 21);
}

#[test]
fn parameter_selector_third_bucket() {
    check(bucket(200001), 500000, 23, 119750, 159666, 22);
    check(bucket(500000), 500000, 23, 119750, 159666, 22);
}

#[test]
fn parameter_selector_fourth_bucket() {
    check(bucket(500001), 1000000, 47, 244750, 326333, 23);
    check(bucket(1000000), 1000000, 47, 244750, 326333, 23);
}

#[test]
fn parameter_selector_over_capacity() {
    assert_eq!(select_circuit_params(1000001).unwrap_err(), ProverError::Capacity);
    assert_eq!(select_circuit_params(u64::MAX).unwrap_err(), ProverError::Capacity);
}
