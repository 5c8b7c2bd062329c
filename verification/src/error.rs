//! The ways in which a request can fail.

use vstd::prelude::*;

verus! {

/// Why a request was refused or a propagation abandoned.
#[derive(Clone, Copy, Debug, PartialEq, Eq, Structural)]
pub enum Error {
    /// The elements and the gravitational parameter describe no orbit.
    InvalidOrbitGeometry,
    /// The spacecraft sits at the centre of the attracting body.
    SingularState,
    /// The integrator gave up, or produced a number that is not finite.
    IntegrationFailure,
    /// No body of that name is tabulated.
    UnknownBody,
    /// The chosen solver cannot hold a step to the tolerances.
    UnsupportedSolver,
    /// The text names no value of the type asked for.
    ParseError,
}

} // verus!
