//! Witness-level model and proof pipeline for an EVM circuit prover.
//!
//! The library covers the circuit-parameter sizing policy, the word/cell
//! model with range-checked byte decomposition, the primitive comparison
//! gadgets, the signed-comparator execution gadget, the step-transition
//! state machine, and the proof-generation pipeline up to the fully
//! assigned witness table. Key generation and proof creation over that
//! table are performed by the surrounding application through a proving
//! backend.

pub mod builder;
pub mod comparator;
pub mod error;
pub mod gadgets;
pub mod machine;
pub mod params;
pub mod pipeline;
pub mod rpc;
pub mod step;
pub mod word;

pub use error::ProverError;
pub use params::{select_circuit_params, CircuitParameters};
