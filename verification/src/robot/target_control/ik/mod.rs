//! Differential inverse kinematics of the Cartesian torque backend.
use crate::double::Double;
use crate::robot::target_control::fault;
use crate::robot::target_control::fault::OptionFault;
use crate::double;
use vstd::prelude::*;

pub mod active_set;
pub mod cycle;
pub mod stall;

verus! {

/// The most, rad/s, the posture bias moves any joint: 0.5, as a bit pattern.
pub const MAX_POSTURE_RATE: u64 = 0x3fe0_0000_0000_0000;

/// Options of the Cartesian backend's differential inverse kinematics: every cycle, from the
/// previous joint goal, up to `iterations` damped-least-squares steps toward the pose inside the
/// cycle's joint box, with a posture bias through the nullspace.
#[derive(Clone, Copy, PartialEq, Eq, Structural, Debug)]
pub struct IkOptions {
    /// The damping of the least squares on the weighted Jacobian, its rotation rows scaled by
    /// `rotation_weight`.
    pub damping: Double,
    /// Gain, 1/s, of the nullspace pull toward the posture; the pull moves no joint faster than
    /// [`MAX_POSTURE_RATE`] whatever the gain and the distance.
    pub nullspace_gain: Double,
    /// Steps per cycle.
    pub iterations: u32,
    /// Weighted residual below which a cycle stops iterating.
    pub tolerance: Double,
    /// m per rad: the orientation error's weight against the position error's in the task, the
    /// residual and `tolerance`. Within (0, 1].
    pub rotation_weight: Double,
}

impl IkOptions {
    /// A damping of 0.05, a gain of 1, three steps to a millionth, and a weight of 0.1.
    pub open spec fn usual() -> IkOptions {
        IkOptions {
            damping: Double { bits: 0x3fa9_9999_9999_999a },
            nullspace_gain: Double { bits: 0x3ff0_0000_0000_0000 },
            iterations: 3,
            tolerance: Double { bits: 0x3eb0_c6f7_a0b5_ed8d },
            rotation_weight: Double { bits: 0x3fb9_9999_9999_999a },
        }
    }

    /// What is wrong with the options: anything but a finite, positive damping, finite and
    /// non-negative nullspace gain and tolerance, a rotation weight within (0, 1], and at least one
    /// iteration.
    pub open spec fn fault(self) -> Option<OptionFault> {
        if self.damping.positive() && self.nullspace_gain.non_negative()
            && self.tolerance.non_negative() && (Double { bits: 0 }).lt(self.rotation_weight)
            && self.rotation_weight.le(Double { bits: 0x3ff0_0000_0000_0000 }) && self.iterations > 0 {
            None
        } else {
            Some(OptionFault::Ik)
        }
    }

    /// Checks the options.
    pub fn validate(&self) -> (r: Result<(), OptionFault>)
        ensures
            r == fault::verdict(self.fault()),
    {
        if self.damping.is_positive() && self.nullspace_gain.is_non_negative()
            && self.tolerance.is_non_negative() && (Double { bits: 0 }).less(self.rotation_weight)
            && self.rotation_weight.less_or_equal(Double { bits: 0x3ff0_0000_0000_0000 })
            && self.iterations > 0 {
            Ok(())
        } else {
            Err(OptionFault::Ik)
        }
    }
}

impl Default for IkOptions {
    /// A damping of 0.05, a gain of 1, three steps to a millionth, and a weight of 0.1.
    fn default() -> (options: IkOptions)
        ensures
            options == IkOptions::usual(),
    {
        IkOptions {
            damping: Double { bits: 0x3fa9_9999_9999_999a },
            nullspace_gain: Double { bits: 0x3ff0_0000_0000_0000 },
            iterations: 3,
            tolerance: Double { bits: 0x3eb0_c6f7_a0b5_ed8d },
            rotation_weight: Double { bits: 0x3fb9_9999_9999_999a },
        }
    }
}

/// The inverse kinematics can run exactly with a finite damping above zero, a finite gain and
/// tolerance that are not negative, a rotation weight above zero and at most one, and an iteration.
pub proof fn law_ik_options_are_accepted(options: IkOptions)
    ensures
        options.fault() is None <==> {
            &&& options.damping.finite() && options.damping.value() > 0
            &&& options.nullspace_gain.finite() && options.nullspace_gain.value() >= 0
            &&& options.tolerance.finite() && options.tolerance.value() >= 0
            &&& !options.rotation_weight.nan() && options.rotation_weight.value() > 0
                && options.rotation_weight.value() <= (Double {
                bits: 0x3ff0_0000_0000_0000,
            }).value()
            &&& options.iterations >= 1
        },
        options.fault() is Some ==> options.fault() == Some(OptionFault::Ik),
{
    broadcast use double::group_order;

    double::law_signs(options.damping);
    double::law_signs(options.nullspace_gain);
    double::law_signs(options.tolerance);
    assert((Double { bits: 0 }).value() == 0);
}

} // verus!
