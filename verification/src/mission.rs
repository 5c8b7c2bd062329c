//! A propagation request.

use vstd::prelude::*;
use vstd::std_specs::cmp::PartialEqSpecImpl;
use crate::orbit::Orbit;
use crate::scalar::Scalar;

verus! {

/// An orbit, the time at which its elements hold and the time to propagate it
/// for, both in seconds.
#[derive(Clone, Copy, Debug)]
pub struct Mission {
    pub orbit: Orbit,
    pub epoch: Scalar,
    pub duration: Scalar,
}

impl Mission {
    /// The standard orbit at epoch zero, propagated for no time.
    pub open spec fn standard() -> Mission {
        Mission { orbit: Orbit::standard(), epoch: Scalar { bits: 0 }, duration: Scalar { bits: 0 } }
    }

    /// The two missions hold the same orbit, epoch and duration.
    pub open spec fn same_mission(self, other: Mission) -> bool {
        &&& self.orbit.same_orbit(other.orbit)
        &&& self.epoch.same_number(other.epoch)
        &&& self.duration.same_number(other.duration)
    }
}

impl Default for Mission {
    /// The standard mission.
    fn default() -> (r: Mission)
        ensures
            r == Mission::standard(),
    {
        Mission { orbit: Orbit::default(), epoch: Scalar::from_bits(0), duration: Scalar::from_bits(0) }
    }
}

impl PartialEq for Mission {
    /// Field by field, the numbers as numbers.
    fn eq(&self, other: &Mission) -> (r: bool) {
        self.orbit == other.orbit && self.epoch == other.epoch && self.duration == other.duration
    }
}

impl PartialEqSpecImpl for Mission {
    open spec fn obeys_eq_spec() -> bool {
        true
    }

    open spec fn eq_spec(&self, other: &Mission) -> bool {
        self.same_mission(*other)
    }
}

} // verus!
