//! Error taxonomy for the proof pipeline.
//!
//! Every stage fails fast: an error aborts the whole pipeline and is
//! returned to the caller as a tagged value, with no partial proof and no
//! retry at this layer.

use vstd::prelude::*;

verus! {

/// The failure modes of the proof pipeline, one tag per stage.
#[derive(Debug, Clone, Copy, PartialEq, Eq, Structural)]
pub enum ProverError {
    /// No parameter bucket matches the gas estimate, or the trace exceeds
    /// the chosen bucket's capacity limits.
    Capacity,
    /// The external trace/state fetch failed.
    WitnessRetrieval,
    /// A gadget's declared and assigned transitions disagree, or a step
    /// reached a state with no matching gadget.
    CircuitBuild,
    /// Deriving the proving/verifying keys failed.
    KeyGeneration,
    /// The constraint system was unsatisfiable or the underlying proving
    /// computation failed.
    ProofGeneration,
}

impl ProverError {
    /// A short stable description, suitable for a transport-level error
    /// envelope.
    pub fn describe(&self) -> (r: String)
        ensures
            r@.len() > 0,
    {
        let s = match self {
            ProverError::Capacity => "block does not fit the circuit capacity",
            ProverError::WitnessRetrieval => "witness retrieval failed",
            ProverError::CircuitBuild => "circuit build failed",
            ProverError::KeyGeneration => "key generation failed",
            ProverError::ProofGeneration => "proof generation failed",
        };
        proof {
            reveal_strlit("block does not fit the circuit capacity");
            reveal_strlit("witness retrieval failed");
            reveal_strlit("circuit build failed");
            reveal_strlit("key generation failed");
            reveal_strlit("proof generation failed");
        }
        s.to_string()
    }
}

} // verus!
