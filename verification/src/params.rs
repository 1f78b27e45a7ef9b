//! Circuit-parameter sizing policy.
//!
//! A fixed ascending table maps an estimated gas usage for a block to the
//! smallest predefined capacity bucket whose gas limit covers it. Above
//! the largest bucket there is no answer: the selector reports a capacity
//! error and the caller must supply an alternate handling path.

use vstd::prelude::*;

use crate::error::ProverError;

verus! {

/// One capacity bucket: the fixed table dimensions a circuit is built with.
#[derive(Debug, Clone, Copy, PartialEq, Eq, Structural)]
pub struct CircuitParameters {
    /// Upper bound of the gas range this bucket covers.
    pub block_gas_limit: u64,
    /// Largest number of transactions the table can hold.
    pub max_txs: u64,
    /// Largest total calldata size, in bytes.
    pub max_calldata: u64,
    /// Largest total bytecode size, in bytes.
    pub max_bytecode: u64,
    /// log2 of the number of table rows.
    pub min_k: u32,
}

/// Largest gas estimate any bucket covers; above it selection fails.
pub const MAX_BUCKET_GAS: u64 = 1000000;

/// The bucket the table assigns to `gas_used`, if any.
///
/// Bucket boundaries are closed intervals, non-overlapping and totally
/// ordered, so for any `gas_used` up to the largest limit exactly one
/// bucket applies.
pub open spec fn spec_bucket(gas_used: u64) -> Option<CircuitParameters> {
    if gas_used <= 100000 {
        Some(CircuitParameters {
            block_gas_limit: 100000,
            max_txs: 4,
            max_calldata: 19750,
            max_bytecode: 26333,
            min_k: 20,
        })
    } else if gas_used <= 200000 {
        Some(CircuitParameters {
            block_gas_limit: 200000,
            max_txs: 9,
            max_calldata: 44750,
            max_bytecode: 59666,
            min_k: 21,
        })
    } else if gas_used <= 500000 {
        Some(CircuitParameters {
            block_gas_limit: 500000,
            max_txs: 23,
            max_calldata: 119750,
            max_bytecode: 159666,
            min_k: 22,
        })
    } else if gas_used <= 1000000 {
        Some(CircuitParameters {
            block_gas_limit: 1000000,
            max_txs: 47,
            max_calldata: 244750,
            max_bytecode: 326333,
            min_k: 23,
        })
    } else {
        None
    }
}

/// Return the smallest bucket whose `block_gas_limit` is at least
/// `gas_used`, or a capacity error when the estimate is above the largest
/// bucket.
pub fn select_circuit_params(gas_used: u64) -> (r: Result<CircuitParameters, ProverError>)
    ensures
        gas_used <= MAX_BUCKET_GAS ==> r == Ok::<CircuitParameters, ProverError>(
            spec_bucket(gas_used).unwrap(),
        ),
        gas_used > MAX_BUCKET_GAS ==> r == Err::<CircuitParameters, ProverError>(
            ProverError::Capacity,
        ),
        r matches Ok(p) ==> gas_used <= p.block_gas_limit,
{
    if gas_used <= 100000 {
        Ok(CircuitParameters {
            block_gas_limit: 100000,
            max_txs: 4,
            max_calldata: 19750,
            max_bytecode: 26333,
            min_k: 20,
        })
    } else if gas_used <= 200000 {
        Ok(CircuitParameters {
            block_gas_limit: 200000,
            max_txs: 9,
            max_calldata: 44750,
            max_bytecode: 59666,
            min_k: 21,
        })
    } else if gas_used <= 500000 {
        Ok(CircuitParameters {
            block_gas_limit: 500000,
            max_txs: 23,
            max_calldata: 119750,
            max_bytecode: 159666,
            min_k: 22,
        })
    } else if gas_used <= 1000000 {
        Ok(CircuitParameters {
            block_gas_limit: 1000000,
            max_txs: 47,
            max_calldata: 244750,
            max_bytecode: 326333,
            min_k: 23,
        })
    } else {
        Err(ProverError::Capacity)
    }
}

} // verus!
