//! The state of a spacecraft and the shape of its two-body rate of change.

use vstd::prelude::*;
use crate::error::Error;
use crate::scalar::Scalar;

verus! {

/// Three Cartesian components in the inertial frame.
#[derive(Clone, Copy, Debug)]
pub struct Vector3 {
    pub x: Scalar,
    pub y: Scalar,
    pub z: Scalar,
}

impl Vector3 {
    /// Every component is a finite number.
    pub open spec fn finite(self) -> bool {
        self.x.finite() && self.y.finite() && self.z.finite()
    }

    /// The vector has no length: its components are finite and the sum of
    /// their squares is zero.
    pub open spec fn at_origin(self) -> bool {
        let x = self.x.units();
        let y = self.y.units();
        let z = self.z.units();
        self.finite() && x * x + y * y + z * z == 0
    }

    /// Whether every component is a finite number.
    pub fn is_finite(&self) -> (r: bool)
        ensures
            r == self.finite(),
    {
        self.x.is_finite() && self.y.is_finite() && self.z.is_finite()
    }

    /// Whether the vector has no length.
    pub fn is_at_origin(&self) -> (r: bool)
        ensures
            r == self.at_origin(),
    {
        proof {
            lemma_squares_vanish(self.x.units(), self.y.units(), self.z.units());
        }
        self.x.is_zero() && self.y.is_zero() && self.z.is_zero()
    }
}

/// A sum of three squares is zero only if each number is.
pub proof fn lemma_squares_vanish(x: int, y: int, z: int)
    ensures
        x * x + y * y + z * z == 0 <==> x == 0 && y == 0 && z == 0,
{
    assert(x * x >= 0 && (x * x == 0 <==> x == 0)) by (nonlinear_arith);
    assert(y * y >= 0 && (y * y == 0 <==> y == 0)) by (nonlinear_arith);
    assert(z * z >= 0 && (z * z == 0 <==> z == 0)) by (nonlinear_arith);
}

/// The position of a spacecraft, in metres, and its velocity, in metres per
/// second, both relative to the central body.
#[derive(Clone, Copy, Debug)]
pub struct StateVector {
    pub position: Vector3,
    pub velocity: Vector3,
}

impl StateVector {
    /// All six components are finite numbers.
    pub open spec fn finite(self) -> bool {
        self.position.finite() && self.velocity.finite()
    }

    /// The rate of change of the state under an acceleration: the position
    /// changes at the velocity and the velocity at the acceleration. There is
    /// none at the centre of the body, where the attraction is unbounded, and
    /// none that is not finite.
    pub open spec fn rate_under(self, acceleration: Vector3) -> Result<StateVector, Error> {
        if self.position.at_origin() {
            Err(Error::SingularState)
        } else if !self.velocity.finite() || !acceleration.finite() {
            Err(Error::IntegrationFailure)
        } else {
            Ok(StateVector { position: self.velocity, velocity: acceleration })
        }
    }

    /// Whether all six components are finite numbers.
    pub fn is_finite(&self) -> (r: bool)
        ensures
            r == self.finite(),
    {
        self.position.is_finite() && self.velocity.is_finite()
    }

    /// The rate of change of the state under the acceleration that the
    /// central body exerts at its position.
    pub fn rate(&self, acceleration: Vector3) -> (r: Result<StateVector, Error>)
        ensures
            r == self.rate_under(acceleration),
    {
        if self.position.is_at_origin() {
            Err(Error::SingularState)
        } else if !self.velocity.is_finite() || !acceleration.is_finite() {
            Err(Error::IntegrationFailure)
        } else {
            Ok(StateVector { position: self.velocity, velocity: acceleration })
        }
    }
}

} // verus!
