//! The limits of the online trajectory generator.
use crate::double::Double;
use crate::double;
use vstd::prelude::*;

verus! {

/// How fast an axis of the generator may move, speed up and change its acceleration.
#[derive(Clone, Copy, PartialEq, Eq, Structural, Debug)]
pub struct OtgLimits {
    pub max_velocity: Double,
    pub max_acceleration: Double,
    pub max_jerk: Double,
}

impl OtgLimits {
    /// Whether a generator can run under the limits: every one finite and positive.
    pub open spec fn usable(self) -> bool {
        self.max_velocity.positive() && self.max_acceleration.positive() && self.max_jerk.positive()
    }

    /// Whether a generator can run under the limits.
    pub fn is_usable(&self) -> (b: bool)
        ensures
            b == self.usable(),
    {
        self.max_velocity.is_positive() && self.max_acceleration.is_positive()
            && self.max_jerk.is_positive()
    }
}

/// A generator can run exactly under limits that are each finite and above zero.
pub proof fn law_limits_are_usable(limits: OtgLimits)
    ensures
        limits.usable() <==> {
            &&& limits.max_velocity.finite() && limits.max_velocity.value() > 0
            &&& limits.max_acceleration.finite() && limits.max_acceleration.value() > 0
            &&& limits.max_jerk.finite() && limits.max_jerk.value() > 0
        },
{
    double::law_signs(limits.max_velocity);
    double::law_signs(limits.max_acceleration);
    double::law_signs(limits.max_jerk);
}

} // verus!
