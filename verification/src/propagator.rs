//! Propagation of a mission: the choice of solver, the plan handed to the
//! integrator and the judgement of what it hands back.

use vstd::prelude::*;
use vstd::arithmetic::power2::{lemma2_to64, lemma2_to64_rest, lemma_pow2_adds, pow2};
use crate::bodies::{get_body, Body};
use crate::dynamics::StateVector;
use crate::error::Error;
use crate::mission::Mission;
use crate::orbit::KeplerElements;
use crate::scalar::{magnitude_units, Scalar, FRACTION_SPAN};
use crate::text::same_text;

verus! {

/// The integration scheme asked for.
#[derive(Clone, Copy, Debug, PartialEq, Eq, Structural)]
pub enum OdeSolver {
    RungeKutta4,
    DormandPrince5,
    DormandPrince853,
}

impl OdeSolver {
    /// The name of the scheme.
    pub open spec fn name(self) -> Seq<char> {
        match self {
            OdeSolver::RungeKutta4 => "RungeKutta4"@,
            OdeSolver::DormandPrince5 => "DormandPrince5"@,
            OdeSolver::DormandPrince853 => "DormandPrince853"@,
        }
    }

    /// The scheme that a text names, if any.
    pub open spec fn named(text: Seq<char>) -> Option<OdeSolver> {
        if text == "RungeKutta4"@ {
            Some(OdeSolver::RungeKutta4)
        } else if text == "DormandPrince5"@ {
            Some(OdeSolver::DormandPrince5)
        } else if text == "DormandPrince853"@ {
            Some(OdeSolver::DormandPrince853)
        } else {
            None
        }
    }

    /// The scheme estimates the error of each step, and so can hold a step
    /// to a tolerance.
    pub open spec fn embedded(self) -> bool {
        self == OdeSolver::DormandPrince5 || self == OdeSolver::DormandPrince853
    }

    /// Whether the scheme can hold a step to a tolerance.
    pub fn is_embedded(&self) -> (r: bool)
        ensures
            r == self.embedded(),
    {
        match self {
            OdeSolver::RungeKutta4 => false,
            OdeSolver::DormandPrince5 => true,
            OdeSolver::DormandPrince853 => true,
        }
    }

    /// The name of the scheme, as text.
    pub fn to_string(&self) -> (r: String)
        ensures
            r@ == self.name(),
    {
        match self {
            OdeSolver::RungeKutta4 => "RungeKutta4".to_owned(),
            OdeSolver::DormandPrince5 => "DormandPrince5".to_owned(),
            OdeSolver::DormandPrince853 => "DormandPrince853".to_owned(),
        }
    }

    /// Reads the name of a scheme.
    pub fn from_str(input: &str) -> (r: Result<OdeSolver, Error>)
        ensures
            r == match OdeSolver::named(input@) {
                Some(solver) => Ok::<OdeSolver, Error>(solver),
                None => Err(Error::ParseError),
            },
    {
        if same_text(input, "RungeKutta4") {
            Ok(OdeSolver::RungeKutta4)
        } else if same_text(input, "DormandPrince5") {
            Ok(OdeSolver::DormandPrince5)
        } else if same_text(input, "DormandPrince853") {
            Ok(OdeSolver::DormandPrince853)
        } else {
            Err(Error::ParseError)
        }
    }
}

/// Every scheme reads back from its own name, and from no other text.
pub proof fn lemma_ode_solver_round_trip(solver: OdeSolver, text: Seq<char>)
    ensures
        OdeSolver::named(solver.name()) == Some(solver),
        OdeSolver::named(text) == Some(solver) <==> text == solver.name(),
{
    reveal_strlit("RungeKutta4");
    reveal_strlit("DormandPrince5");
    reveal_strlit("DormandPrince853");
    assert("RungeKutta4"@.len() == 11);
    assert("DormandPrince5"@.len() == 14);
    assert("DormandPrince853"@.len() == 16);
}

/// The pattern of the relative tolerance, `1e-6` as a binary64 number.
pub const RELATIVE_TOLERANCE_BITS: u64 = 0x3eb0_c6f7_a0b5_ed8d;

/// The pattern of the absolute tolerance, `1e-8` as a binary64 number.
pub const ABSOLUTE_TOLERANCE_BITS: u64 = 0x3e45_798e_e230_8c3a;

/// The pattern of the first step tried, `10.0` seconds.
pub const INITIAL_STEP_BITS: u64 = 0x4024_0000_0000_0000;

/// What an integrator is asked to do.
#[derive(Clone, Copy, Debug)]
pub struct Plan {
    /// The state at the epoch.
    pub initial: StateVector,
    /// The gravitational parameter of the central body.
    pub mu: Scalar,
    /// The scheme to integrate with.
    pub solver: OdeSolver,
    /// The time at which the initial state holds, in seconds.
    pub epoch: Scalar,
    /// The time to integrate for, in seconds.
    pub duration: Scalar,
    /// The error allowed in a step, relative to the size of the state.
    pub relative_tolerance: Scalar,
    /// The error allowed in a step whatever the size of the state.
    pub absolute_tolerance: Scalar,
    /// The first step to try, in seconds.
    pub initial_step: Scalar,
}

/// What an integrator hands back.
#[derive(Debug)]
pub enum Run {
    /// The end of the span was reached; the state after every accepted step,
    /// in the order of the steps.
    Completed(Vec<StateVector>),
    /// The dynamics were asked for the attraction at the centre of the body.
    Singular,
    /// The integrator stopped before the end of the span.
    GaveUp,
}

/// The plan for a mission from the state at its epoch: none for a solver
/// that cannot hold a step to a tolerance; else the mission's own numbers
/// with the fixed tolerances and first step.
pub open spec fn plan_of(mission: Mission, mu: Scalar, initial: StateVector) -> Result<
    Plan,
    Error,
> {
    if !mission.orbit.ode_solver.embedded() {
        Err(Error::UnsupportedSolver)
    } else {
        Ok(
            Plan {
                initial,
                mu,
                solver: mission.orbit.ode_solver,
                epoch: mission.epoch,
                duration: mission.duration,
                relative_tolerance: Scalar { bits: RELATIVE_TOLERANCE_BITS },
                absolute_tolerance: Scalar { bits: ABSOLUTE_TOLERANCE_BITS },
                initial_step: Scalar { bits: INITIAL_STEP_BITS },
            },
        )
    }
}

/// Every sample is made of finite numbers.
pub open spec fn all_finite(samples: Seq<StateVector>) -> bool {
    forall|i: int| 0 <= i < samples.len() ==> (#[trigger] samples[i]).finite()
}

/// What becomes of a run: the whole trajectory or none of it. A completed
/// run yields its samples if every one of them is finite.
pub open spec fn verdict(run: Run) -> Result<Seq<StateVector>, Error> {
    match run {
        Run::Completed(samples) => if all_finite(samples@) {
            Ok(samples@)
        } else {
            Err(Error::IntegrationFailure)
        },
        Run::Singular => Err(Error::SingularState),
        Run::GaveUp => Err(Error::IntegrationFailure),
    }
}

/// A result that carries the trajectory, or the error, of a verdict.
pub open spec fn carries(
    r: Result<Vec<StateVector>, Error>,
    v: Result<Seq<StateVector>, Error>,
) -> bool {
    match v {
        Ok(samples) => r is Ok && r->Ok_0@ == samples,
        Err(e) => r == Err::<Vec<StateVector>, Error>(e),
    }
}

/// The plan made once the transform has computed the state at the epoch:
/// none unless the state is accepted, then as [`plan_of`] has it.
pub open spec fn staged(mission: Mission, mu: Scalar, computed: StateVector) -> Result<
    Plan,
    Error,
> {
    match mission.orbit.kepler_elements.accepted(mu, computed) {
        Err(e) => Err(e),
        Ok(initial) => plan_of(mission, mu, initial),
    }
}

/// `r` is what the integrator makes of a staged plan: the error for which
/// there is no plan, or the verdict on a run of the integrator on the plan.
pub open spec fn integrated<I: FnOnce(Plan) -> Run>(
    integrate: I,
    stage: Result<Plan, Error>,
    r: Result<Vec<StateVector>, Error>,
) -> bool {
    match stage {
        Err(e) => r == Err::<Vec<StateVector>, Error>(e),
        Ok(p) => exists|run: Run| #[trigger]
            call_ensures(integrate, (p,), run) && carries(r, verdict(run)),
    }
}

/// `r` is what a propagation about a body of gravitational parameter `mu`
/// returns: the refusal of elements that describe no orbit about it, or what
/// the integrator makes of the plan staged from a state that the transform
/// computed.
pub open spec fn propagated<T: FnOnce(KeplerElements, Scalar) -> StateVector, I: FnOnce(
    Plan,
) -> Run>(
    mission: Mission,
    mu: Scalar,
    transform: T,
    integrate: I,
    r: Result<Vec<StateVector>, Error>,
) -> bool {
    if !mission.orbit.kepler_elements.orbits(mu) {
        r == Err::<Vec<StateVector>, Error>(Error::InvalidOrbitGeometry)
    } else {
        exists|computed: StateVector| #[trigger]
            call_ensures(transform, (mission.orbit.kepler_elements, mu), computed) && integrated(
                integrate,
                staged(mission, mu, computed),
                r,
            )
    }
}

/// The tolerances and the first step are the numbers they are meant to be.
pub proof fn lemma_settings()
    ensures
        (Scalar { bits: RELATIVE_TOLERANCE_BITS }).approximates(1, 1_000_000),
        (Scalar { bits: ABSOLUTE_TOLERANCE_BITS }).approximates(1, 100_000_000),
        (Scalar { bits: INITIAL_STEP_BITS }).is_whole(10),
{
    let s = FRACTION_SPAN as int;
    lemma2_to64();
    lemma2_to64_rest();
    let r = RELATIVE_TOLERANCE_BITS as int;
    assert(r / s == 1003 && r % s == 0xc6f7_a0b5_ed8d);
    lemma_pow2_adds(72, 1002);
    lemma_pow2_adds(64, 8);
    let p = pow2(1002) as int;
    assert(pow2(72) == 0x1_00_0000_0000_0000_0000);
    assert(magnitude_units(r) == 0x10_c6f7_a0b5_ed8d * p);
    assert(2 * ((0x10_c6f7_a0b5_ed8d * p) * 1_000_000 - 1 * (0x1_00_0000_0000_0000_0000 * p))
        == -427392 * p) by (nonlinear_arith);
    assert(-(1_000_000 * p) <= -427392 * p <= 1_000_000 * p) by (nonlinear_arith)
        requires
            p >= 0,
    ;
    let a = ABSOLUTE_TOLERANCE_BITS as int;
    assert(a / s == 996 && a % s == 0x5_798e_e230_8c3a);
    lemma_pow2_adds(79, 995);
    lemma_pow2_adds(64, 15);
    let q = pow2(995) as int;
    assert(pow2(79) == 0x8000_0000_0000_0000_0000);
    assert(magnitude_units(a) == 0x15_798e_e230_8c3a * q);
    assert(2 * ((0x15_798e_e230_8c3a * q) * 100_000_000 - 1 * (0x8000_0000_0000_0000_0000 * q))
        == 25293824 * q) by (nonlinear_arith);
    assert(-(100_000_000 * q) <= 25293824 * q <= 100_000_000 * q) by (nonlinear_arith)
        requires
            q >= 0,
    ;
    let h = INITIAL_STEP_BITS as int;
    assert(h / s == 1026 && h % s == 0x4_0000_0000_0000);
    lemma_pow2_adds(49, 1025);
    assert(s + h % s == 10 * pow2(49));
    assert(magnitude_units(h) == (10 * pow2(49)) * pow2(1025));
    assert((10 * pow2(49)) * pow2(1025) == 10 * (pow2(49) * pow2(1025))) by (nonlinear_arith);
}

/// Plans the integration of a mission from the state at its epoch.
///
/// Every plan asks for a relative tolerance of `1e-6`, an absolute tolerance
/// of `1e-8` and a first step of ten seconds.
pub fn plan(mission: &Mission, mu: Scalar, initial: StateVector) -> (r: Result<Plan, Error>)
    ensures
        r == plan_of(*mission, mu, initial),
        r matches Ok(p) ==> {
            &&& p.relative_tolerance.approximates(1, 1_000_000)
            &&& p.absolute_tolerance.approximates(1, 100_000_000)
            &&& p.initial_step.is_whole(10)
        },
{
    proof {
        lemma_settings();
    }
    if mission.orbit.ode_solver.is_embedded() {
        Ok(
            Plan {
                initial,
                mu,
                solver: mission.orbit.ode_solver,
                epoch: mission.epoch,
                duration: mission.duration,
                relative_tolerance: Scalar::from_bits(RELATIVE_TOLERANCE_BITS),
                absolute_tolerance: Scalar::from_bits(ABSOLUTE_TOLERANCE_BITS),
                initial_step: Scalar::from_bits(INITIAL_STEP_BITS),
            },
        )
    } else {
        Err(Error::UnsupportedSolver)
    }
}

/// Judges a run: the whole trajectory, or the reason there is none.
pub fn conclude(run: Run) -> (r: Result<Vec<StateVector>, Error>)
    ensures
        carries(r, verdict(run)),
{
    match run {
        Run::Completed(samples) => {
            let mut i: usize = 0;
            while i < samples.len()
                invariant
                    i <= samples.len(),
                    run == Run::Completed(samples),
                    forall|j: int| 0 <= j < i ==> (#[trigger] samples@[j]).finite(),
                decreases samples.len() - i,
            {
                if !samples[i].is_finite() {
                    assert(!samples@[i as int].finite());
                    return Err(Error::IntegrationFailure);
                }
                i += 1;
            }
            Ok(samples)
        },
        Run::Singular => Err(Error::SingularState),
        Run::GaveUp => Err(Error::IntegrationFailure),
    }
}

/// Propagates a mission about a body given by the caller, with the
/// transform and the integrator given by the caller.
///
/// The transform is run only on elements that describe an orbit about the
/// body, and the integrator only on the plan made from a finite state: a
/// mission that cannot be flown is refused before any step is taken. What the
/// integrator hands back is returned whole or not at all.
pub fn propagate_about<T, I>(mission: Mission, body: Body, transform: T, integrate: I) -> (r:
    Result<Vec<StateVector>, Error>) where
    T: FnOnce(KeplerElements, Scalar) -> StateVector,
    I: FnOnce(Plan) -> Run,

    requires
        mission.orbit.kepler_elements.orbits(body.mu) ==> call_requires(
            transform,
            (mission.orbit.kepler_elements, body.mu),
        ),
        forall|initial: StateVector| #[trigger]
            plan_of(mission, body.mu, initial) is Ok ==> call_requires(
                integrate,
                (plan_of(mission, body.mu, initial)->Ok_0,),
            ),
    ensures
        !mission.orbit.kepler_elements.orbits(body.mu) ==> r == Err::<Vec<StateVector>, Error>(
            Error::InvalidOrbitGeometry,
        ),
        propagated(mission, body.mu, transform, integrate, r),
{
    match mission.orbit.kepler_elements.to_state_vector(body.mu, transform) {
        Err(e) => Err(e),
        Ok(initial) => match plan(&mission, body.mu, initial) {
            Err(e) => Err(e),
            Ok(p) => {
                let run = integrate(p);
                conclude(run)
            },
        },
    }
}

/// Propagates a mission about its tabulated central body, with the
/// transform and the integrator given by the caller.
pub fn propagate<T, I>(mission: Mission, transform: T, integrate: I) -> (r: Result<
    Vec<StateVector>,
    Error,
>) where T: FnOnce(KeplerElements, Scalar) -> StateVector, I: FnOnce(Plan) -> Run
    requires
        mission.orbit.kepler_elements.well_formed() ==> call_requires(
            transform,
            (mission.orbit.kepler_elements, mission.orbit.central_body.body().mu),
        ),
        forall|initial: StateVector| #[trigger]
            plan_of(mission, mission.orbit.central_body.body().mu, initial) is Ok
                ==> call_requires(
                integrate,
                (plan_of(mission, mission.orbit.central_body.body().mu, initial)->Ok_0,),
            ),
    ensures
        !mission.orbit.kepler_elements.well_formed() ==> r == Err::<Vec<StateVector>, Error>(
            Error::InvalidOrbitGeometry,
        ),
        propagated(mission, mission.orbit.central_body.body().mu, transform, integrate, r),
{
    let body = get_body(&mission.orbit.central_body);
    propagate_about(mission, body, transform, integrate)
}

} // verus!
