//! What can be wrong with the options of target control.
use crate::error::{ErrorView, FrankaError};
use crate::text;
use crate::text::{decimal_text, signed_text};
use vstd::prelude::*;

verus! {

/// The option that was refused.
#[derive(Clone, Copy, PartialEq, Eq, Structural, Debug)]
pub enum OptionFault {
    /// A gain of the impedance law is not finite or negative.
    Gains,
    /// A torque limit is not positive or above the rated torque.
    TorqueLimits,
    /// The cutoff frequency is not finite and positive.
    CutoffFrequency,
    /// A leash is not finite and positive.
    Leash,
    /// The posture is not finite.
    Posture,
    /// The inverse kinematics cannot run with these.
    Ik,
    /// A limit of the generator is not finite and positive.
    Limits,
    /// A rotational limit of the generator is not finite and positive.
    RotationLimits,
    /// The guard on the orientation is not finite and positive.
    MaxAngularDeviation,
    /// The guard on the position is not finite and positive.
    MaxDeviation,
    /// The settle tolerance is not finite and positive, or the window is empty.
    Settle,
    /// The priority is none of `SCHED_FIFO`'s.
    RealtimePriority { priority: i32 },
    /// The core is beyond what a set of cores holds.
    Cpu { below: u64, cpu: u64 },
}

impl OptionFault {
    /// What the message says before the value that was refused.
    pub open spec fn opening(self) -> Seq<char> {
        match self {
            OptionFault::Gains => "target control: impedance gains must be finite and non-negative, got "@,
            OptionFault::TorqueLimits => "target control: torque_limits must be positive and at most the rated [87.0, 87.0, 87.0, 87.0, 12.0, 12.0, 12.0] Nm, got "@,
            OptionFault::CutoffFrequency => "target control: cutoff_frequency must be finite and positive, got "@,
            OptionFault::Leash => "target control: leash must be finite and positive, got "@,
            OptionFault::Posture => "target control: posture must be finite, got "@,
            OptionFault::Ik => "target control: ik needs a finite, positive damping, finite and non-negative nullspace_gain and tolerance, a rotation_weight within (0, 1], and at least one iteration, got "@,
            OptionFault::Limits => "otg: limits must be finite and positive, got "@,
            OptionFault::RotationLimits => "target control: rotation_limits must be finite and positive, got "@,
            OptionFault::MaxAngularDeviation => "target control: max_angular_deviation must be finite and positive, got "@,
            OptionFault::MaxDeviation => "target control: max_deviation must be finite and positive, got "@,
            OptionFault::Settle => "target control: settle needs a finite, positive tolerance and at least one cycle, got "@,
            OptionFault::RealtimePriority { .. } => "target control: realtime_priority must be within 1..=99, got "@,
            OptionFault::Cpu { below, .. } => "target control: cpu must be below "@ + text::decimal(
                below as nat,
            ) + ", got "@,
        }
    }

    /// The whole message, where `shown` is the text of the value that was refused. A priority and
    /// a core speak for themselves.
    pub open spec fn text(self, shown: Seq<char>) -> Seq<char> {
        self.opening() + match self {
            OptionFault::RealtimePriority { priority } => text::signed(priority as int),
            OptionFault::Cpu { cpu, .. } => text::decimal(cpu as nat),
            _ => shown,
        }
    }

    /// The error of refusing a value whose text is `shown`.
    pub fn error(&self, shown: &str) -> (e: FrankaError)
        ensures
            e@ == ErrorView::InvalidArgument(self.text(shown@)),
    {
        let opening = match self {
            OptionFault::Gains => "target control: impedance gains must be finite and non-negative, got ",
            OptionFault::TorqueLimits => "target control: torque_limits must be positive and at most the rated [87.0, 87.0, 87.0, 87.0, 12.0, 12.0, 12.0] Nm, got ",
            OptionFault::CutoffFrequency => "target control: cutoff_frequency must be finite and positive, got ",
            OptionFault::Leash => "target control: leash must be finite and positive, got ",
            OptionFault::Posture => "target control: posture must be finite, got ",
            OptionFault::Ik => "target control: ik needs a finite, positive damping, finite and non-negative nullspace_gain and tolerance, a rotation_weight within (0, 1], and at least one iteration, got ",
            OptionFault::Limits => "otg: limits must be finite and positive, got ",
            OptionFault::RotationLimits => "target control: rotation_limits must be finite and positive, got ",
            OptionFault::MaxAngularDeviation => "target control: max_angular_deviation must be finite and positive, got ",
            OptionFault::MaxDeviation => "target control: max_deviation must be finite and positive, got ",
            OptionFault::Settle => "target control: settle needs a finite, positive tolerance and at least one cycle, got ",
            OptionFault::RealtimePriority { .. } => "target control: realtime_priority must be within 1..=99, got ",
            OptionFault::Cpu { .. } => "target control: cpu must be below ",
        };
        let mut message = String::from_str(opening);
        match self {
            OptionFault::RealtimePriority { priority } => {
                message.append(signed_text(*priority).as_str());
            },
            OptionFault::Cpu { below, cpu } => {
                message.append(decimal_text(*below).as_str());
                message.append(", got ");
                message.append(decimal_text(*cpu).as_str());
            },
            _ => {
                message.append(shown);
            },
        }
        assert(message@ =~= self.text(shown@));
        FrankaError::InvalidArgument(message)
    }
}

/// A check that found this fault, or none.
pub open spec fn verdict(fault: Option<OptionFault>) -> Result<(), OptionFault> {
    match fault {
        Some(fault) => Err(fault),
        None => Ok(()),
    }
}

/// The message about an option ends with the value that was refused: that of a priority or a core
/// itself, and the text that was given of every other one.
pub proof fn law_message_ends_with_the_value(fault: OptionFault, shown: Seq<char>)
    ensures
        ({
            let value = match fault {
                OptionFault::RealtimePriority { priority } => text::signed(priority as int),
                OptionFault::Cpu { cpu, .. } => text::decimal(cpu as nat),
                _ => shown,
            };
            let message = fault.text(shown);
            &&& message.len() >= value.len()
            &&& message.subrange(message.len() - value.len(), message.len() as int) == value
        }),
        fault matches OptionFault::Cpu { below, .. } ==> text::mentions(
            fault.text(shown),
            text::decimal(below as nat),
        ),
{
    let value = match fault {
        OptionFault::RealtimePriority { priority } => text::signed(priority as int),
        OptionFault::Cpu { cpu, .. } => text::decimal(cpu as nat),
        _ => shown,
    };
    let message = fault.text(shown);
    assert(message.subrange(message.len() - value.len(), message.len() as int) =~= value);
    if let OptionFault::Cpu { below, .. } = fault {
        let at = "target control: cpu must be below "@.len() as int;
        let limit = text::decimal(below as nat);
        assert(message.subrange(at, at + limit.len()) =~= limit);
    }
}

/// A check fails with the fault that it found, and passes when it found none.
pub proof fn law_verdicts(fault: Option<OptionFault>)
    ensures
        verdict(fault) is Ok <==> fault is None,
        verdict(fault) matches Err(found) ==> fault == Some(found),
{
}

} // verus!
