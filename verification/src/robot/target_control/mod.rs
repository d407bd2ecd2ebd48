//! Target control: a loop on its own thread that follows the latest target it was given.
//!
//! The user side publishes targets in a mailbox ([`slot`], [`session`]); the loop reads the latest one
//! every cycle and runs a trajectory generator toward it ([`runner`]), re-anchored on what the robot
//! last echoed. A stop lands, holds the echo for the settle window and finishes on one more of it; a
//! measured state that strays too far from the start freezes the target where the command was. The
//! joint and the pose stream ([`joint`], [`cartesian`]) turn the generator's steps into commands under
//! the rate limiter; the torque backend follows the pose with differential inverse kinematics
//! ([`ik`]) inside the box of [`position`].
//!
//! Arithmetic on floating point numbers stands outside: a loop asks for it by an action and decides
//! on the numbers that come back.
use crate::double::Double;
use crate::error;
use crate::error::{ErrorView, FrankaError};
use crate::rate_limiting;
use crate::rate_limiting::fer;
use crate::robot::control_loop;
use crate::robot::control_loop::seven;
use crate::text;
use crate::text::decimal_text;
use crate::wire::codec::FciVersion;
use fault::OptionFault;
use impedance::Backend;
use crate::double;
use vstd::prelude::*;

pub mod cartesian;
pub mod fault;
pub mod ik;
pub mod impedance;
pub mod joint;
pub mod options;
pub mod position;
pub mod rotation;
pub mod runner;
pub mod session;
pub mod slot;

verus! {

/// Cycles a stop waits for the generator to land before holding and finishing from wherever the
/// command is: five seconds.
pub const STOP_TIMEOUT_CYCLES: u32 = 5000;

/// The message of the control error that the loop ends with after the deviation guard froze the
/// target.
pub const DEVIATION_MESSAGE: &'static str = "franka target control: the measured pose strayed further than max_deviation (or max_angular_deviation) from the start; the target was frozen where the command was and the motion finished from rest.";

/// How a stop ends: once the generator is within `tolerance` of the target on every axis and at
/// rest, the last command is held for `cycles` cycles and the motion finished on the next one.
#[derive(Clone, Copy, PartialEq, Eq, Structural, Debug)]
pub struct Settle {
    /// Per-axis tolerance, in the interface's unit: m for a position, rad for a joint or for the
    /// orientation error of a pose.
    pub tolerance: Double,
    /// Cycles the landed command is held, identical, before the motion is finished.
    pub cycles: u32,
}

impl Settle {
    /// A thousandth, for 250 cycles.
    pub open spec fn usual() -> Settle {
        Settle { tolerance: Double { bits: 0x3f50_624d_d2f1_a9fc }, cycles: 250 }
    }
}

impl Default for Settle {
    /// A thousandth, for 250 cycles.
    fn default() -> (settle: Settle)
        ensures
            settle == Settle::usual(),
    {
        Settle { tolerance: Double { bits: 0x3f50_624d_d2f1_a9fc }, cycles: 250 }
    }
}

/// How the loop thread is scheduled: its `SCHED_FIFO` priority (`None`: the highest) and the core it
/// is pinned to, if any.
#[derive(Clone, Copy, PartialEq, Debug)]
pub struct Scheduling {
    pub priority: Option<i32>,
    pub cpu: Option<usize>,
}

/// The fewest cores that a set of cores holds on any platform.
pub const FEWEST_CORES: u64 = 32;

/// The most cores that a set of cores holds on any platform.
pub const MOST_CORES: u64 = 1024;

/// How many cores a set of cores holds: `libc::CPU_SETSIZE`. Each platform fixes the number for
/// itself, 1024 on most, 32 on the smallest; which one it is is left open.
#[verifier::external_body]
fn cpu_set_size() -> (cores: u64)
    ensures
        FEWEST_CORES <= cores <= MOST_CORES,
{
    libc::CPU_SETSIZE as u64
}

/// What is wrong with the options that both interfaces share, where sets of cores hold `cores`: the
/// impedance law's, the deviation guard, the settle criterion, the priority, the core.
pub open spec fn common_fault(
    max_deviation: Double,
    settle: Settle,
    scheduling: Scheduling,
    backend: Backend,
    cores: u64,
) -> Option<OptionFault> {
    let law = match backend {
        Backend::Impedance(impedance) => impedance.fault(),
        Backend::RobotController => None,
    };
    if law is Some {
        law
    } else if !max_deviation.positive() {
        Some(OptionFault::MaxDeviation)
    } else if !settle.tolerance.positive() || settle.cycles == 0 {
        Some(OptionFault::Settle)
    } else if scheduling.priority matches Some(priority) && !(1 <= priority <= 99) {
        Some(OptionFault::RealtimePriority { priority: scheduling.priority->0 })
    } else if scheduling.cpu matches Some(cpu) && cpu >= cores {
        Some(OptionFault::Cpu { below: cores, cpu: scheduling.cpu->0 as u64 })
    } else {
        None
    }
}

/// Checks the options that both interfaces share, where sets of cores hold `cores`.
pub fn validate_common_within(
    max_deviation: Double,
    settle: Settle,
    scheduling: Scheduling,
    backend: &Backend,
    cores: u64,
) -> (r: Result<(), OptionFault>)
    ensures
        r == fault::verdict(common_fault(max_deviation, settle, scheduling, *backend, cores)),
{
    if let Backend::Impedance(impedance) = backend {
        match impedance.validate() {
            Ok(()) => {},
            Err(fault) => {
                return Err(fault);
            },
        }
    }
    if !max_deviation.is_positive() {
        return Err(OptionFault::MaxDeviation);
    }
    if !settle.tolerance.is_positive() || settle.cycles == 0 {
        return Err(OptionFault::Settle);
    }
    if let Some(priority) = scheduling.priority {
        if priority < 1 || priority > 99 {
            return Err(OptionFault::RealtimePriority { priority });
        }
    }
    if let Some(cpu) = scheduling.cpu {
        if cpu as u64 >= cores {
            return Err(OptionFault::Cpu { below: cores, cpu: cpu as u64 });
        }
    }
    Ok(())
}

/// Checks the options that both interfaces share. How many cores a set of cores holds is the
/// platform's.
pub fn validate_common(
    max_deviation: Double,
    settle: Settle,
    scheduling: Scheduling,
    backend: &Backend,
) -> (r: Result<(), OptionFault>)
    ensures
        exists|cores: u64|
            FEWEST_CORES <= cores <= MOST_CORES && r == fault::verdict(
                #[trigger] common_fault(max_deviation, settle, scheduling, *backend, cores),
            ),
        scheduling.cpu is None ==> forall|cores: u64|
            r == fault::verdict(
                #[trigger] common_fault(max_deviation, settle, scheduling, *backend, cores),
            ),
{
    validate_common_within(max_deviation, settle, scheduling, backend, cpu_set_size())
}

/// The joint position limits (lower, upper), rad, of the arm speaking `version`.
pub open spec fn position_limits_of(version: FciVersion) -> ([Double; 7], [Double; 7]) {
    match version {
        FciVersion::V5 => (
            control_loop::seven_of(fer::JOINT_POSITION_LIMITS.0),
            control_loop::seven_of(fer::JOINT_POSITION_LIMITS.1),
        ),
        FciVersion::V10 => (
            control_loop::seven_of(rate_limiting::JOINT_POSITION_LIMITS.0),
            control_loop::seven_of(rate_limiting::JOINT_POSITION_LIMITS.1),
        ),
    }
}

/// The joint position limits (lower, upper), rad, of the arm speaking `version`.
pub fn joint_position_limits(version: FciVersion) -> (limits: ([Double; 7], [Double; 7]))
    ensures
        limits == position_limits_of(version),
{
    match version {
        FciVersion::V5 => (seven(fer::JOINT_POSITION_LIMITS.0), seven(fer::JOINT_POSITION_LIMITS.1)),
        FciVersion::V10 => (
            seven(rate_limiting::JOINT_POSITION_LIMITS.0),
            seven(rate_limiting::JOINT_POSITION_LIMITS.1),
        ),
    }
}

/// The FR3's joint velocity caps, rad/s, as bit patterns: 2.62 on joints 1 to 4, 5.26, 4.18, 5.26.
/// Nominal, where the FER's limits are already less what rounding and lost packets may cost.
pub const FR3_MAX_JOINT_VELOCITY: [u64; 7] = [
    0x4004_f5c2_8f5c_28f6,
    0x4004_f5c2_8f5c_28f6,
    0x4004_f5c2_8f5c_28f6,
    0x4004_f5c2_8f5c_28f6,
    0x4015_0a3d_70a3_d70a,
    0x4010_b851_eb85_1eb8,
    0x4015_0a3d_70a3_d70a,
];

/// The joint velocity limits, rad/s, of the arm speaking `version` away from its joint position
/// limits.
pub open spec fn velocity_limits_of(version: FciVersion) -> [Double; 7] {
    match version {
        FciVersion::V5 => control_loop::seven_of(fer::MAX_JOINT_VELOCITY),
        FciVersion::V10 => control_loop::seven_of(FR3_MAX_JOINT_VELOCITY),
    }
}

/// The joint velocity limits, rad/s, of the arm speaking `version` away from its joint position
/// limits.
pub fn max_joint_velocity(version: FciVersion) -> (limits: [Double; 7])
    ensures
        limits == velocity_limits_of(version),
{
    match version {
        FciVersion::V5 => seven(fer::MAX_JOINT_VELOCITY),
        FciVersion::V10 => seven(FR3_MAX_JOINT_VELOCITY),
    }
}

/// How far, rad, inside the joint position limits a joint target and an impedance posture must lie:
/// 0.02, as a bit pattern. [`Backend::Impedance`] refuses one inside its own margin where that is
/// larger.
pub const JOINT_LIMIT_INSET: u64 = 0x3f94_7ae1_47ae_147b;

/// The inset, rad, that targets and postures of a backend are refused inside.
pub open spec fn inset_of(backend: Backend) -> Double {
    match backend {
        Backend::Impedance(impedance) => (Double { bits: JOINT_LIMIT_INSET }).larger(
            impedance.joint_position_margin,
        ),
        Backend::RobotController => Double { bits: JOINT_LIMIT_INSET },
    }
}

/// The inset, rad, that targets and postures of a backend are refused inside.
pub fn joint_limit_inset(backend: &Backend) -> (inset: Double)
    ensures
        inset == inset_of(*backend),
{
    match backend {
        Backend::Impedance(impedance) => (Double { bits: JOINT_LIMIT_INSET }).max(
            impedance.joint_position_margin,
        ),
        Backend::RobotController => Double { bits: JOINT_LIMIT_INSET },
    }
}

/// Whether a joint lies within its bounds.
pub open spec fn within(q: Seq<Double>, bounds: ([Double; 7], [Double; 7]), i: int) -> bool {
    bounds.0@[i].le(q[i]) && q[i].le(bounds.1@[i])
}

/// Whether `joint` is the first of a configuration outside its bounds.
pub open spec fn first_outside(q: Seq<Double>, bounds: ([Double; 7], [Double; 7]), joint: int) -> bool {
    0 <= joint < 7 && !within(q, bounds, joint) && forall|i: int|
        0 <= i < joint ==> #[trigger] within(q, bounds, i)
}

/// Refuses a configuration outside the bounds, which are the arm's limits less the inset, naming
/// the first joint that is (counted from zero).
pub fn check_joint_limits(q: &[Double; 7], bounds: &([Double; 7], [Double; 7])) -> (r: Result<
    (),
    usize,
>)
    ensures
        r is Ok == forall|i: int| 0 <= i < 7 ==> #[trigger] within(q@, *bounds, i),
        r matches Err(joint) ==> first_outside(q@, *bounds, joint as int),
{
    let mut i: usize = 0;
    while i < 7
        invariant
            i <= 7,
            forall|j: int| 0 <= j < i ==> #[trigger] within(q@, *bounds, j),
        decreases 7 - i,
    {
        if !(bounds.0[i].less_or_equal(q[i]) && q[i].less_or_equal(bounds.1[i])) {
            assert(!within(q@, *bounds, i as int));
            return Err(i);
        }
        i = i + 1;
    }
    Ok(())
}

/// What the refusal of a configuration says.
pub open spec fn joint_limit_text(
    what: Seq<char>,
    joint: nat,
    value: Seq<char>,
    lower: Seq<char>,
    upper: Seq<char>,
    inset: Seq<char>,
) -> Seq<char> {
    "target control: the "@ + what + " puts joint "@ + text::decimal(joint + 1) + " at "@ + value
        + " rad, outside ["@ + lower + ", "@ + upper + "] ("@ + inset
        + " rad inside the arm's limits)"@
}

/// The error of refusing a configuration (`what` it is) because of a joint, counted from zero, with
/// the texts of its value, its bounds and the inset.
pub fn joint_limit_error(
    what: &str,
    joint: usize,
    value: &str,
    lower: &str,
    upper: &str,
    inset: &str,
) -> (e: FrankaError)
    requires
        joint < 7,
    ensures
        e@ == ErrorView::InvalidArgument(
            joint_limit_text(what@, joint as nat, value@, lower@, upper@, inset@),
        ),
{
    let mut message = String::from_str("target control: the ");
    message.append(what);
    message.append(" puts joint ");
    message.append(decimal_text(joint as u64 + 1).as_str());
    message.append(" at ");
    message.append(value);
    message.append(" rad, outside [");
    message.append(lower);
    message.append(", ");
    message.append(upper);
    message.append("] (");
    message.append(inset);
    message.append(" rad inside the arm's limits)");
    FrankaError::InvalidArgument(message)
}

/// The posture of an impedance backend, checked against the bounds when a session starts.
pub fn check_posture(backend: &Backend, bounds: &([Double; 7], [Double; 7])) -> (r: Result<(), usize>)
    ensures
        match backend {
            Backend::Impedance(impedance) => match impedance.posture {
                Some(posture) => {
                    &&& r is Ok == forall|i: int| 0 <= i < 7 ==> #[trigger] within(posture@, *bounds, i)
                    &&& r matches Err(joint) ==> first_outside(posture@, *bounds, joint as int)
                },
                None => r is Ok,
            },
            Backend::RobotController => r is Ok,
        },
{
    match backend {
        Backend::Impedance(impedance) => match impedance.posture {
            Some(posture) => check_joint_limits(&posture, bounds),
            None => Ok(()),
        },
        Backend::RobotController => Ok(()),
    }
}

/// A configuration is taken exactly where every joint lies between its two bounds, on the order of
/// the numbers; a refusal names the first joint that is below its lower or above its upper bound, or
/// is none of a number.
pub proof fn law_joint_limits_hold_on_both_sides(
    q: [Double; 7],
    bounds: ([Double; 7], [Double; 7]),
    joint: int,
)
    requires
        0 <= joint < 7,
    ensures
        within(q@, bounds, joint) <==> !q@[joint].nan() && !bounds.0@[joint].nan()
            && !bounds.1@[joint].nan() && bounds.0@[joint].value() <= q@[joint].value()
            <= bounds.1@[joint].value(),
        first_outside(q@, bounds, joint) && q@[joint].finite() && bounds.0@[joint].finite()
            && bounds.1@[joint].finite() ==> q@[joint].value() < bounds.0@[joint].value()
            || q@[joint].value() > bounds.1@[joint].value(),
        first_outside(q@, bounds, joint) ==> forall|i: int|
            0 <= i < joint ==> bounds.0@[i].value() <= (#[trigger] q@[i]).value()
                <= bounds.1@[i].value(),
{
    broadcast use double::group_order;

    if first_outside(q@, bounds, joint) {
        assert forall|i: int| 0 <= i < joint implies bounds.0@[i].value() <= (
        #[trigger] q@[i]).value() <= bounds.1@[i].value() by {
            assert(within(q@, bounds, i));
        }
    }
}

/// The inset is a fiftieth of a radian or the backend's own margin, whichever is larger, so that what
/// keeps the inset keeps both.
pub proof fn law_inset_keeps_both_margins(backend: Backend)
    ensures
        inset_of(backend).value() >= (Double { bits: 0x3f94_7ae1_47ae_147b }).value(),
        backend matches Backend::Impedance(law) ==> (!law.joint_position_margin.nan() ==> {
            &&& inset_of(backend).value() >= law.joint_position_margin.value()
            &&& inset_of(backend) == (Double { bits: 0x3f94_7ae1_47ae_147b }) || inset_of(backend)
                == law.joint_position_margin
        }),
        backend is RobotController ==> inset_of(backend) == (Double { bits: 0x3f94_7ae1_47ae_147b }),
{
    if let Backend::Impedance(impedance) = backend {
        double::law_extremes(Double { bits: JOINT_LIMIT_INSET }, impedance.joint_position_margin);
    }
}

/// The options that both interfaces share are accepted exactly where the impedance law's are, the
/// guard and the tolerance are finite and above zero, the settle window is not empty, the priority is
/// one of 1 to 99 and the core is one of the set.
pub proof fn law_common_options_are_accepted(
    max_deviation: Double,
    settle: Settle,
    scheduling: Scheduling,
    backend: Backend,
    cores: u64,
)
    ensures
        common_fault(max_deviation, settle, scheduling, backend, cores) is None <==> {
            &&& backend matches Backend::Impedance(impedance) ==> impedance.fault() is None
            &&& max_deviation.finite() && max_deviation.value() > 0
            &&& settle.tolerance.finite() && settle.tolerance.value() > 0
            &&& settle.cycles >= 1
            &&& scheduling.priority matches Some(priority) ==> 1 <= priority && priority <= 99
            &&& scheduling.cpu matches Some(cpu) ==> cpu < cores
        },
{
    double::law_signs(max_deviation);
    double::law_signs(settle.tolerance);
}

/// Each fault of the shared options names an option that is at fault: it is refused only where that
/// option is not as it must be.
pub proof fn law_common_fault_names_its_option(
    max_deviation: Double,
    settle: Settle,
    scheduling: Scheduling,
    backend: Backend,
    cores: u64,
)
    ensures
        match common_fault(max_deviation, settle, scheduling, backend, cores) {
            Some(OptionFault::MaxDeviation) => !(max_deviation.finite() && max_deviation.value() > 0),
            Some(OptionFault::Settle) => !(settle.tolerance.finite() && settle.tolerance.value() > 0
                && settle.cycles > 0),
            Some(OptionFault::RealtimePriority { priority }) => scheduling.priority == Some(priority)
                && (priority < 1 || priority > 99),
            Some(OptionFault::Cpu { below, cpu }) => below == cores && (scheduling.cpu matches Some(
                core,
            ) && core == cpu) && cpu >= cores,
            Some(fault) => backend matches Backend::Impedance(impedance) && impedance.fault()
                == Some(fault),
            None => true,
        },
{
    double::law_signs(max_deviation);
    double::law_signs(settle.tolerance);
    if let Backend::Impedance(impedance) = backend {
        impedance::law_impedance_fault_names_its_option(impedance);
    }
}

/// The limits of a version are those of its arm, joint by joint, and leave each joint room to move.
pub proof fn law_limits_are_of_the_version(version: FciVersion, i: int)
    requires
        0 <= i < 7,
    ensures
        version is V5 ==> position_limits_of(version).0@[i].bits == fer::JOINT_POSITION_LIMITS.0@[i]
            && position_limits_of(version).1@[i].bits == fer::JOINT_POSITION_LIMITS.1@[i]
            && velocity_limits_of(version)@[i].bits == fer::MAX_JOINT_VELOCITY@[i],
        version is V10 ==> position_limits_of(version).0@[i].bits
            == rate_limiting::JOINT_POSITION_LIMITS.0@[i] && position_limits_of(version).1@[i].bits
            == rate_limiting::JOINT_POSITION_LIMITS.1@[i] && velocity_limits_of(version)@[i].bits
            == FR3_MAX_JOINT_VELOCITY@[i],
{
    control_loop::law_seven_of(fer::JOINT_POSITION_LIMITS.0, i);
    control_loop::law_seven_of(fer::JOINT_POSITION_LIMITS.1, i);
    control_loop::law_seven_of(fer::MAX_JOINT_VELOCITY, i);
    control_loop::law_seven_of(rate_limiting::JOINT_POSITION_LIMITS.0, i);
    control_loop::law_seven_of(rate_limiting::JOINT_POSITION_LIMITS.1, i);
    control_loop::law_seven_of(FR3_MAX_JOINT_VELOCITY, i);
}

/// The message about a joint names what puts it there, the joint counted from one, where it is, and
/// the bounds on both sides.
pub proof fn law_joint_limit_message(
    what: Seq<char>,
    joint: nat,
    value: Seq<char>,
    lower: Seq<char>,
    upper: Seq<char>,
    inset: Seq<char>,
)
    ensures
        ({
            let message = joint_limit_text(what, joint, value, lower, upper, inset);
            &&& text::mentions(message, what)
            &&& text::mentions(message, " joint "@ + text::decimal(joint + 1) + " at "@ + value)
            &&& text::mentions(message, "["@ + lower + ", "@ + upper + "]"@)
            &&& text::mentions(message, inset)
        }),
{
    reveal_strlit(" joint ");
    reveal_strlit(" puts joint ");
    reveal_strlit(" rad, outside [");
    reveal_strlit("[");
    reveal_strlit("] (");
    reveal_strlit("]");
    let message = joint_limit_text(what, joint, value, lower, upper, inset);
    let head = "target control: the "@;
    let at = head.len() as int;
    assert(message.subrange(at, at + what.len()) =~= what);
    let place = " joint "@ + text::decimal(joint + 1) + " at "@ + value;
    let there = at + what.len() + 5;
    assert(message.subrange(there, there + place.len()) =~= place);
    let range = "["@ + lower + ", "@ + upper + "]"@;
    let from = there + place.len() + 14;
    assert(message.subrange(from, from + range.len()) =~= range);
    let end = from + range.len() + 2;
    assert(message.subrange(end, end + inset.len()) =~= inset);
}

} // verus!
