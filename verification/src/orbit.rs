//! Orbits: the Kepler elements, the frame they are given in, and the rule
//! that tells an orbit from a degenerate set of numbers.

use vstd::prelude::*;
use vstd::arithmetic::power2::{lemma2_to64, lemma2_to64_rest, lemma_pow2_adds, lemma_pow2_pos, pow2};
use vstd::std_specs::cmp::PartialEqSpecImpl;
use crate::bodies::CentralBody;
use crate::dynamics::StateVector;
use crate::error::Error;
use crate::propagator::OdeSolver;
use crate::scalar::{magnitude_units, unit_one, Scalar, FRACTION_SPAN};
use crate::text::same_text;

verus! {

/// The pattern of `1000.0`.
pub const THOUSAND_BITS: u64 = 0x408f_4000_0000_0000;

/// The frame in which positions and velocities are expressed.
#[derive(Clone, Copy, Debug, PartialEq, Eq, Structural)]
pub enum CoordinateSystem {
    EarthCenteredInertial,
    EarthCenteredEarthFixed,
}

impl CoordinateSystem {
    /// The name of the frame.
    pub open spec fn name(self) -> Seq<char> {
        match self {
            CoordinateSystem::EarthCenteredInertial => "EarthCenteredInertial"@,
            CoordinateSystem::EarthCenteredEarthFixed => "EarthCenteredEarthFixed"@,
        }
    }

    /// The frame that a text names, if any.
    pub open spec fn named(text: Seq<char>) -> Option<CoordinateSystem> {
        if text == "EarthCenteredInertial"@ {
            Some(CoordinateSystem::EarthCenteredInertial)
        } else if text == "EarthCenteredEarthFixed"@ {
            Some(CoordinateSystem::EarthCenteredEarthFixed)
        } else {
            None
        }
    }

    /// The name of the frame, as text.
    pub fn to_string(&self) -> (r: String)
        ensures
            r@ == self.name(),
    {
        match self {
            CoordinateSystem::EarthCenteredInertial => "EarthCenteredInertial".to_owned(),
            CoordinateSystem::EarthCenteredEarthFixed => "EarthCenteredEarthFixed".to_owned(),
        }
    }

    /// Reads the name of a frame.
    pub fn from_str(input: &str) -> (r: Result<CoordinateSystem, Error>)
        ensures
            r == match CoordinateSystem::named(input@) {
                Some(frame) => Ok::<CoordinateSystem, Error>(frame),
                None => Err(Error::ParseError),
            },
    {
        if same_text(input, "EarthCenteredInertial") {
            Ok(CoordinateSystem::EarthCenteredInertial)
        } else if same_text(input, "EarthCenteredEarthFixed") {
            Ok(CoordinateSystem::EarthCenteredEarthFixed)
        } else {
            Err(Error::ParseError)
        }
    }
}

/// Every frame reads back from its own name, and from no other text.
pub proof fn lemma_coordinate_system_round_trip(frame: CoordinateSystem, text: Seq<char>)
    ensures
        CoordinateSystem::named(frame.name()) == Some(frame),
        CoordinateSystem::named(text) == Some(frame) <==> text == frame.name(),
{
    reveal_strlit("EarthCenteredInertial");
    reveal_strlit("EarthCenteredEarthFixed");
    assert("EarthCenteredInertial"@.len() == 21);
    assert("EarthCenteredEarthFixed"@.len() == 23);
}

/// The classical elements of an orbit at an epoch.
#[derive(Clone, Copy, Debug)]
pub struct KeplerElements {
    /// Half the long axis of the conic, in metres.
    pub semi_major_axis: Scalar,
    /// The eccentricity of the conic.
    pub eccentricity: Scalar,
    /// The tilt of the orbital plane, in radians.
    pub inclination: Scalar,
    /// The angle from the reference direction to the ascending node, in radians.
    pub longitude_of_ascending_node: Scalar,
    /// The angle from the ascending node to periapsis, in radians.
    pub argument_of_periapsis: Scalar,
    /// The angle from periapsis to the spacecraft, in radians.
    pub true_anomaly: Scalar,
}

/// The pattern of `1000.0` denotes one thousand.
pub proof fn lemma_thousand()
    ensures
        (Scalar { bits: THOUSAND_BITS }).is_whole(1000),
{
    let s = FRACTION_SPAN as int;
    let m = THOUSAND_BITS as int;
    assert(m / s == 1032);
    assert(m % s == 0xf_4000_0000_0000);
    lemma2_to64();
    lemma2_to64_rest();
    lemma_pow2_adds(43, 1031);
    assert(s + m % s == 1000 * pow2(43));
    assert(magnitude_units(m) == (1000 * pow2(43)) * pow2(1031));
    assert((1000 * pow2(43)) * pow2(1031) == 1000 * (pow2(43) * pow2(1031))) by (nonlinear_arith);
}

impl KeplerElements {
    /// Every element is a finite number.
    pub open spec fn all_finite(self) -> bool {
        &&& self.semi_major_axis.finite()
        &&& self.eccentricity.finite()
        &&& self.inclination.finite()
        &&& self.longitude_of_ascending_node.finite()
        &&& self.argument_of_periapsis.finite()
        &&& self.true_anomaly.finite()
    }

    /// The semi-latus rectum `a (1 - e^2)` is above zero.
    ///
    /// With `a` and `e` counted in units of `2^-1074` and `one` the units of
    /// `1.0`, the sign of `a (1 - e^2)` is the sign of `a (one^2 - e^2)`.
    pub open spec fn semi_latus_rectum_positive(self) -> bool {
        let a = self.semi_major_axis.units();
        let e = self.eccentricity.units();
        a * (unit_one() * unit_one() - e * e) > 0
    }

    /// The elements describe an orbit: all are finite and the semi-latus
    /// rectum is above zero.
    pub open spec fn well_formed(self) -> bool {
        self.all_finite() && self.semi_latus_rectum_positive()
    }

    /// The elements describe an orbit about a body of gravitational parameter
    /// `mu`: they are well formed and `mu` is a finite number above zero.
    pub open spec fn orbits(self, mu: Scalar) -> bool {
        mu.finite() && mu.units() > 0 && self.well_formed()
    }

    /// A circular equatorial orbit of radius one thousand metres, seen at
    /// periapsis.
    pub open spec fn standard() -> KeplerElements {
        KeplerElements {
            semi_major_axis: Scalar { bits: THOUSAND_BITS },
            eccentricity: Scalar { bits: 0 },
            inclination: Scalar { bits: 0 },
            longitude_of_ascending_node: Scalar { bits: 0 },
            argument_of_periapsis: Scalar { bits: 0 },
            true_anomaly: Scalar { bits: 0 },
        }
    }

    /// What becomes of the state that the transform computed from the
    /// elements: it stands if the elements describe an orbit about the body
    /// and all its components are finite.
    pub open spec fn accepted(self, mu: Scalar, computed: StateVector) -> Result<
        StateVector,
        Error,
    > {
        if self.orbits(mu) && computed.finite() {
            Ok(computed)
        } else {
            Err(Error::InvalidOrbitGeometry)
        }
    }

    /// Whether every element is a finite number.
    pub fn is_all_finite(&self) -> (r: bool)
        ensures
            r == self.all_finite(),
    {
        self.semi_major_axis.is_finite() && self.eccentricity.is_finite()
            && self.inclination.is_finite() && self.longitude_of_ascending_node.is_finite()
            && self.argument_of_periapsis.is_finite() && self.true_anomaly.is_finite()
    }

    /// Whether the elements describe an orbit.
    pub fn is_well_formed(&self) -> (r: bool)
        ensures
            r == self.well_formed(),
    {
        if !self.is_all_finite() {
            return false;
        }
        let a = &self.semi_major_axis;
        let e = &self.eccentricity;
        proof {
            lemma_semi_latus_rectum_sign(a.units(), e.units(), unit_one());
        }
        (a.is_positive() && e.is_within_one()) || (a.is_negative() && e.is_beyond_one())
    }

    /// Accepts the elements for conversion to a position and a velocity about
    /// a body of gravitational parameter `mu`.
    pub fn validate(&self, mu: &Scalar) -> (r: Result<(), Error>)
        ensures
            r == if self.orbits(*mu) {
                Ok::<(), Error>(())
            } else {
                Err(Error::InvalidOrbitGeometry)
            },
    {
        if mu.is_positive() && self.is_well_formed() {
            Ok(())
        } else {
            Err(Error::InvalidOrbitGeometry)
        }
    }

    /// Accepts a state computed from the elements: it stands if the elements
    /// describe an orbit about the body and all its components are finite.
    pub fn accept(&self, mu: Scalar, computed: StateVector) -> (r: Result<StateVector, Error>)
        ensures
            r == self.accepted(mu, computed),
    {
        if mu.is_positive() && self.is_well_formed() && computed.is_finite() {
            Ok(computed)
        } else {
            Err(Error::InvalidOrbitGeometry)
        }
    }

    /// The position and velocity at the epoch of the elements, about a body
    /// of gravitational parameter `mu`, by the transform given by the caller.
    ///
    /// Elements that describe no orbit about the body are refused before the
    /// transform is run; a state that is not finite is refused after it.
    pub fn to_state_vector<F: FnOnce(KeplerElements, Scalar) -> StateVector>(
        &self,
        mu: Scalar,
        transform: F,
    ) -> (r: Result<StateVector, Error>)
        requires
            self.orbits(mu) ==> call_requires(transform, (*self, mu)),
        ensures
            !self.orbits(mu) ==> r == Err::<StateVector, Error>(Error::InvalidOrbitGeometry),
            self.orbits(mu) ==> exists|computed: StateVector| #[trigger]
                call_ensures(transform, (*self, mu), computed) && r == self.accepted(
                    mu,
                    computed,
                ),
    {
        match self.validate(&mu) {
            Err(e) => Err(e),
            Ok(()) => {
                let computed = transform(*self, mu);
                self.accept(mu, computed)
            },
        }
    }
}

/// `a (one^2 - e^2)` is above zero exactly for an ellipse traversed with
/// positive `a` and for a hyperbola given with negative `a`.
pub proof fn lemma_semi_latus_rectum_sign(a: int, e: int, one: int)
    requires
        one == unit_one(),
    ensures
        a * (one * one - e * e) > 0 <==> (a > 0 && -one < e < one) || (a < 0 && (e < -one || one
            < e)),
{
    lemma_pow2_pos(1074);
    let d = one * one - e * e;
    assert(d > 0 <==> -one < e < one) by (nonlinear_arith)
        requires
            one > 0,
            d == one * one - e * e,
    ;
    assert(d < 0 <==> (e < -one || one < e)) by (nonlinear_arith)
        requires
            one > 0,
            d == one * one - e * e,
    ;
    assert(a * d > 0 <==> (a > 0 && d > 0) || (a < 0 && d < 0)) by (nonlinear_arith);
}

impl Default for KeplerElements {
    /// The standard elements: a semi-major axis of one thousand metres and
    /// every other element zero.
    fn default() -> (r: KeplerElements)
        ensures
            r == KeplerElements::standard(),
            r.semi_major_axis.is_whole(1000),
    {
        proof {
            lemma_thousand();
        }
        KeplerElements {
            semi_major_axis: Scalar::from_bits(THOUSAND_BITS),
            eccentricity: Scalar::from_bits(0),
            inclination: Scalar::from_bits(0),
            longitude_of_ascending_node: Scalar::from_bits(0),
            argument_of_periapsis: Scalar::from_bits(0),
            true_anomaly: Scalar::from_bits(0),
        }
    }
}

impl PartialEq for KeplerElements {
    /// Element by element, as numbers.
    fn eq(&self, other: &KeplerElements) -> (r: bool) {
        self.semi_major_axis == other.semi_major_axis && self.eccentricity == other.eccentricity
            && self.inclination == other.inclination && self.longitude_of_ascending_node
            == other.longitude_of_ascending_node && self.argument_of_periapsis
            == other.argument_of_periapsis && self.true_anomaly == other.true_anomaly
    }
}

impl PartialEqSpecImpl for KeplerElements {
    open spec fn obeys_eq_spec() -> bool {
        true
    }

    open spec fn eq_spec(&self, other: &KeplerElements) -> bool {
        self.same_elements(*other)
    }
}

impl KeplerElements {
    /// Element by element, the two denote the same numbers.
    pub open spec fn same_elements(self, other: KeplerElements) -> bool {
        &&& self.semi_major_axis.same_number(other.semi_major_axis)
        &&& self.eccentricity.same_number(other.eccentricity)
        &&& self.inclination.same_number(other.inclination)
        &&& self.longitude_of_ascending_node.same_number(other.longitude_of_ascending_node)
        &&& self.argument_of_periapsis.same_number(other.argument_of_periapsis)
        &&& self.true_anomaly.same_number(other.true_anomaly)
    }
}

/// An orbit, the body it is flown about, the frame it is given in and the
/// solver chosen to propagate it.
#[derive(Clone, Copy, Debug)]
pub struct Orbit {
    pub kepler_elements: KeplerElements,
    pub central_body: CentralBody,
    pub coordinate_system: CoordinateSystem,
    pub ode_solver: OdeSolver,
}

impl Orbit {
    /// The standard elements about Earth, in the inertial frame, with the
    /// fixed-step solver chosen.
    pub open spec fn standard() -> Orbit {
        Orbit {
            kepler_elements: KeplerElements::standard(),
            central_body: CentralBody::EARTH,
            coordinate_system: CoordinateSystem::EarthCenteredInertial,
            ode_solver: OdeSolver::RungeKutta4,
        }
    }

    /// The two orbits hold the same elements, body, frame and solver.
    pub open spec fn same_orbit(self, other: Orbit) -> bool {
        &&& self.kepler_elements.same_elements(other.kepler_elements)
        &&& self.central_body == other.central_body
        &&& self.coordinate_system == other.coordinate_system
        &&& self.ode_solver == other.ode_solver
    }
}

impl Default for Orbit {
    /// The standard orbit.
    fn default() -> (r: Orbit)
        ensures
            r == Orbit::standard(),
    {
        Orbit {
            kepler_elements: KeplerElements::default(),
            central_body: CentralBody::EARTH,
            coordinate_system: CoordinateSystem::EarthCenteredInertial,
            ode_solver: OdeSolver::RungeKutta4,
        }
    }
}

impl PartialEq for Orbit {
    /// Field by field, the elements as numbers.
    fn eq(&self, other: &Orbit) -> (r: bool) {
        self.kepler_elements == other.kepler_elements && self.central_body == other.central_body
            && self.coordinate_system == other.coordinate_system && self.ode_solver
            == other.ode_solver
    }
}

impl PartialEqSpecImpl for Orbit {
    open spec fn obeys_eq_spec() -> bool {
        true
    }

    open spec fn eq_spec(&self, other: &Orbit) -> bool {
        self.same_orbit(*other)
    }
}

} // verus!
