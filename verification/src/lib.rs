//! Two-body mission analysis: the vocabulary of a propagation request, the
//! rules that decide whether a request can be flown, and the checks on what an
//! integrator hands back.
//!
//! Every number is a binary64 value carried by its bit pattern, so each rule
//! is decided with integer arithmetic alone and its contract is stated over
//! the exact value the pattern denotes.

pub mod scalar;
pub mod error;
pub mod text;
pub mod bodies;
pub mod orbit;
pub mod propagator;
pub mod mission;
pub mod dynamics;
