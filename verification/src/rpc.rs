//! Transport-facing value types.
//!
//! The core never constructs a transport envelope itself: it returns
//! these plain values, and the surrounding application wraps them for
//! the wire.

use vstd::prelude::*;

use crate::word::Word;

verus! {

/// The proof result envelope.
#[derive(Debug)]
pub struct Proofs {
    /// Reserved: currently always empty bytes.
    pub state_proof: Vec<u8>,
    /// The produced proof bytes.
    pub evm_proof: Vec<u8>,
    /// Wall-clock duration of proof generation, in milliseconds.
    pub duration: u64,
}

/// An error payload with a stable code and message.
#[derive(Debug)]
pub struct JsonRpcError {
    /// Stable numeric error code.
    pub code: i32,
    /// Human-readable message.
    pub message: String,
}

/// Witness data handed back to a caller: the randomness scalar and the
/// encoded input bytes.
#[derive(Debug)]
pub struct Witness {
    /// The randomness/challenge scalar.
    pub randomness: Word,
    /// The encoded witness input bytes.
    pub input: Vec<u8>,
}

/// Options a proof request may carry.
#[derive(Debug, Clone, Copy, PartialEq, Eq)]
pub struct ProofRequestOptions {
    /// Optional override for k, the log2 of the table row count; when
    /// present it takes precedence over the selector's value.
    pub k: Option<u32>,
}

impl Default for ProofRequestOptions {
    /// No override: the selector's minimum k is used.
    fn default() -> (r: Self)
        ensures
            r.k is None,
    {
        ProofRequestOptions { k: None }
    }
}

} // verus!
