//! The control loop: call the callbacks once per cycle, shape what they return, send it, and finish
//! or abort the motion at the end.
use crate::control_types;
use crate::control_types::{Finishable, MotionGeneratorKind, MAX_CUTOFF_FREQUENCY};
use crate::double::Double;
use crate::error;
use crate::error::{ErrorView, FrankaError};
use crate::rate_limiting;
use crate::rate_limiting::fer;
use crate::robot_state::RobotState;
use crate::wire::codec::{FciVersion, MotionGeneratorCommand};
use crate::wire::modes::MoveMotionGeneratorMode;
use vstd::prelude::*;

pub mod motion;
pub mod runner;
pub mod torque;

verus! {

/// The limits that commands are shaped to under one version.
#[derive(Clone, Copy, PartialEq, Debug)]
pub struct RateLimits {
    /// Highest joint accelerations.
    pub max_joint_acceleration: [Double; 7],
    /// Highest joint jerks.
    pub max_joint_jerk: [Double; 7],
    /// Highest translational velocity.
    pub max_translational_velocity: Double,
    /// Highest translational acceleration.
    pub max_translational_acceleration: Double,
    /// Highest translational jerk.
    pub max_translational_jerk: Double,
    /// Highest rotational velocity.
    pub max_rotational_velocity: Double,
    /// Highest rotational acceleration.
    pub max_rotational_acceleration: Double,
    /// Highest rotational jerk.
    pub max_rotational_jerk: Double,
    /// Highest elbow velocity.
    pub max_elbow_velocity: Double,
    /// Lowest elbow velocity.
    pub min_elbow_velocity: Double,
    /// Highest elbow acceleration.
    pub max_elbow_acceleration: Double,
    /// Highest elbow jerk.
    pub max_elbow_jerk: Double,
    /// Highest torque rates.
    pub max_torque_rate: [Double; 7],
    /// Whether the torque rate gives up what the single precision of the reported torques may cost.
    /// Version 10 reports them so; version 5 reports them in full.
    pub torque_f32_margin: bool,
}

/// Seven numbers from their bit patterns.
pub open spec fn seven_of(bits: [u64; 7]) -> [Double; 7] {
    [
        Double { bits: bits[0] },
        Double { bits: bits[1] },
        Double { bits: bits[2] },
        Double { bits: bits[3] },
        Double { bits: bits[4] },
        Double { bits: bits[5] },
        Double { bits: bits[6] },
    ]
}

/// Seven numbers from their bit patterns.
pub fn seven(bits: [u64; 7]) -> (r: [Double; 7])
    ensures
        r == seven_of(bits),
{
    [
        Double { bits: bits[0] },
        Double { bits: bits[1] },
        Double { bits: bits[2] },
        Double { bits: bits[3] },
        Double { bits: bits[4] },
        Double { bits: bits[5] },
        Double { bits: bits[6] },
    ]
}

/// The limits of a version.
pub open spec fn limits_of(version: FciVersion) -> RateLimits {
    match version {
        FciVersion::V5 => RateLimits {
            max_joint_acceleration: seven_of(fer::MAX_JOINT_ACCELERATION),
            max_joint_jerk: seven_of(fer::MAX_JOINT_JERK),
            max_translational_velocity: Double { bits: fer::MAX_TRANSLATIONAL_VELOCITY },
            max_translational_acceleration: Double { bits: fer::MAX_TRANSLATIONAL_ACCELERATION },
            max_translational_jerk: Double { bits: fer::MAX_TRANSLATIONAL_JERK },
            max_rotational_velocity: Double { bits: fer::MAX_ROTATIONAL_VELOCITY },
            max_rotational_acceleration: Double { bits: fer::MAX_ROTATIONAL_ACCELERATION },
            max_rotational_jerk: Double { bits: fer::MAX_ROTATIONAL_JERK },
            max_elbow_velocity: Double { bits: fer::MAX_ELBOW_VELOCITY },
            min_elbow_velocity: Double { bits: fer::MIN_ELBOW_VELOCITY },
            max_elbow_acceleration: Double { bits: fer::MAX_ELBOW_ACCELERATION },
            max_elbow_jerk: Double { bits: fer::MAX_ELBOW_JERK },
            max_torque_rate: seven_of(fer::MAX_TORQUE_RATE),
            torque_f32_margin: false,
        },
        FciVersion::V10 => RateLimits {
            max_joint_acceleration: seven_of(rate_limiting::MAX_JOINT_ACCELERATION),
            max_joint_jerk: seven_of(rate_limiting::MAX_JOINT_JERK),
            max_translational_velocity: Double { bits: rate_limiting::MAX_TRANSLATIONAL_VELOCITY },
            max_translational_acceleration: Double { bits: rate_limiting::MAX_TRANSLATIONAL_ACCELERATION },
            max_translational_jerk: Double { bits: rate_limiting::MAX_TRANSLATIONAL_JERK },
            max_rotational_velocity: Double { bits: rate_limiting::MAX_ROTATIONAL_VELOCITY },
            max_rotational_acceleration: Double { bits: rate_limiting::MAX_ROTATIONAL_ACCELERATION },
            max_rotational_jerk: Double { bits: rate_limiting::MAX_ROTATIONAL_JERK },
            max_elbow_velocity: Double { bits: rate_limiting::MAX_ELBOW_VELOCITY },
            min_elbow_velocity: Double { bits: rate_limiting::MIN_ELBOW_VELOCITY },
            max_elbow_acceleration: Double { bits: rate_limiting::MAX_ELBOW_ACCELERATION },
            max_elbow_jerk: Double { bits: rate_limiting::MAX_ELBOW_JERK },
            max_torque_rate: seven_of(rate_limiting::MAX_TORQUE_RATE),
            torque_f32_margin: true,
        },
    }
}

/// The limits of a version.
pub fn rate_limits(version: FciVersion) -> (r: RateLimits)
    ensures
        r == limits_of(version),
{
    match version {
        FciVersion::V5 => RateLimits {
            max_joint_acceleration: seven(fer::MAX_JOINT_ACCELERATION),
            max_joint_jerk: seven(fer::MAX_JOINT_JERK),
            max_translational_velocity: Double { bits: fer::MAX_TRANSLATIONAL_VELOCITY },
            max_translational_acceleration: Double { bits: fer::MAX_TRANSLATIONAL_ACCELERATION },
            max_translational_jerk: Double { bits: fer::MAX_TRANSLATIONAL_JERK },
            max_rotational_velocity: Double { bits: fer::MAX_ROTATIONAL_VELOCITY },
            max_rotational_acceleration: Double { bits: fer::MAX_ROTATIONAL_ACCELERATION },
            max_rotational_jerk: Double { bits: fer::MAX_ROTATIONAL_JERK },
            max_elbow_velocity: Double { bits: fer::MAX_ELBOW_VELOCITY },
            min_elbow_velocity: Double { bits: fer::MIN_ELBOW_VELOCITY },
            max_elbow_acceleration: Double { bits: fer::MAX_ELBOW_ACCELERATION },
            max_elbow_jerk: Double { bits: fer::MAX_ELBOW_JERK },
            max_torque_rate: seven(fer::MAX_TORQUE_RATE),
            torque_f32_margin: false,
        },
        FciVersion::V10 => RateLimits {
            max_joint_acceleration: seven(rate_limiting::MAX_JOINT_ACCELERATION),
            max_joint_jerk: seven(rate_limiting::MAX_JOINT_JERK),
            max_translational_velocity: Double { bits: rate_limiting::MAX_TRANSLATIONAL_VELOCITY },
            max_translational_acceleration: Double { bits: rate_limiting::MAX_TRANSLATIONAL_ACCELERATION },
            max_translational_jerk: Double { bits: rate_limiting::MAX_TRANSLATIONAL_JERK },
            max_rotational_velocity: Double { bits: rate_limiting::MAX_ROTATIONAL_VELOCITY },
            max_rotational_acceleration: Double { bits: rate_limiting::MAX_ROTATIONAL_ACCELERATION },
            max_rotational_jerk: Double { bits: rate_limiting::MAX_ROTATIONAL_JERK },
            max_elbow_velocity: Double { bits: rate_limiting::MAX_ELBOW_VELOCITY },
            min_elbow_velocity: Double { bits: rate_limiting::MIN_ELBOW_VELOCITY },
            max_elbow_acceleration: Double { bits: rate_limiting::MAX_ELBOW_ACCELERATION },
            max_elbow_jerk: Double { bits: rate_limiting::MAX_ELBOW_JERK },
            max_torque_rate: seven(rate_limiting::MAX_TORQUE_RATE),
            torque_f32_margin: true,
        },
    }
}

/// What shaping a command depends on, besides the state and the command.
#[derive(Clone, Copy, PartialEq, Debug)]
pub struct ConvertContext {
    /// The limits of the version.
    pub rate: RateLimits,
    /// Whether the rate limiter is on.
    pub limit_rate: bool,
    /// Cut-off of the low-pass filter.
    pub cutoff_frequency: Double,
    /// Whether a command of the motion has been converted.
    pub initialized_filter: bool,
    /// Whether the first command of a motion is its own reference. It is under version 10, where it
    /// passes unchanged; under version 5 it is held against the robot's own state like every other.
    pub first_command_is_its_own_reference: bool,
}

impl ConvertContext {
    /// Whether the low-pass filter is on.
    pub open spec fn filters(self) -> bool {
        self.cutoff_frequency.lt(Double { bits: MAX_CUTOFF_FREQUENCY })
    }

    /// Whether the low-pass filter is on.
    pub fn filtering(&self) -> (b: bool)
        ensures
            b == self.filters(),
    {
        self.cutoff_frequency.less(Double { bits: MAX_CUTOFF_FREQUENCY })
    }

    /// Whether the command at hand is its own reference.
    pub open spec fn own_reference(self) -> bool {
        !self.initialized_filter && self.first_command_is_its_own_reference
    }
}

/// An elbow to be filtered and rate limited.
#[derive(Clone, Copy, PartialEq, Eq, Structural, Debug)]
pub struct ElbowShaping {
    /// The commanded position.
    pub value: Double,
    /// The position that it is held against.
    pub reference: Double,
    /// The velocity that it moves with.
    pub velocity: Double,
    /// The acceleration that it moves with.
    pub acceleration: Double,
}

/// What the rate limiter holds the derivatives of a command against.
#[derive(Clone, Copy, PartialEq, Debug)]
pub enum Derivatives {
    /// Of joint motion, under the robot's own velocity limits where the joints are `at`.
    Joints { at: [Double; 7], velocity: [Double; 7], acceleration: [Double; 7] },
    /// Of Cartesian motion.
    Cartesian { twist: [Double; 6], twist_acceleration: [Double; 6] },
    /// Of torques, which have no more than their reference.
    Torques,
}

/// A command to be filtered and rate limited.
#[derive(Clone, Copy, PartialEq, Debug)]
pub struct Shaping<V> {
    /// The commanded numbers.
    pub values: V,
    /// The numbers that they are held against.
    pub reference: V,
    /// What their derivatives are held against.
    pub derivatives: Derivatives,
    /// The elbow, where it is commanded.
    pub elbow: Option<ElbowShaping>,
    /// Whether they are filtered.
    pub filter: bool,
    /// Cut-off of the filter.
    pub cutoff_frequency: Double,
    /// Whether they are rate limited, after that.
    pub limit: bool,
    /// The limits.
    pub rate: RateLimits,
}

/// A command that was filtered and rate limited.
#[derive(Debug)]
pub struct Shaped<V> {
    /// The numbers, or why they could not be had.
    pub values: Result<V, FrankaError>,
    /// Whether the numbers are a homogeneous transformation, where they are to be one.
    pub homogeneous: bool,
    /// The position of the elbow, or why it could not be had; not looked at when none is commanded.
    pub elbow: Result<Double, FrankaError>,
}

/// A command that a control loop can turn into a setpoint.
pub trait ControlLoopMotion: Finishable + Copy {
    /// Its numbers.
    type Values: Copy;

    /// The motion generator that it asks for.
    spec fn mode() -> MoveMotionGeneratorMode;

    /// Whether converting one makes the next a later command of the motion.
    spec fn initializes() -> bool;

    /// What is to be filtered and rate limited.
    spec fn shaping(self, context: ConvertContext, state: RobotState) -> Shaping<Self::Values>;

    /// The command as it is, when it is neither filtered nor rate limited.
    spec fn unchanged(self) -> Shaped<Self::Values>;

    /// The setpoint after shaping, or what is wrong with it.
    spec fn written(self, shaped: Shaped<Self::Values>, command: MotionGeneratorCommand) -> (
        MotionGeneratorCommand,
        Result<(), ErrorView>,
    );

    /// The motion generator that it asks for.
    fn move_mode() -> (r: MoveMotionGeneratorMode)
        ensures
            r == Self::mode(),
    ;

    /// What is to be filtered and rate limited. The first command of a motion is converted with
    /// this call.
    fn plan(&self, context: &mut ConvertContext, state: &RobotState) -> (r: Shaping<Self::Values>)
        ensures
            r == self.shaping(*old(context), *state),
            *final(context) == (ConvertContext {
                initialized_filter: old(context).initialized_filter || Self::initializes(),
                ..*old(context)
            }),
    ;

    /// The command as it is, when it is neither filtered nor rate limited.
    fn pass(&self) -> (r: Shaped<Self::Values>)
        ensures
            r == self.unchanged(),
    ;

    /// Checks what came of shaping and writes it into the setpoint.
    fn write(&self, shaped: Shaped<Self::Values>, command: &mut MotionGeneratorCommand) -> (r:
        Result<(), FrankaError>)
        ensures
            (*final(command), error::seen(r)) == self.written(shaped, *old(command)),
    ;
}

/// The motion generator that a kind of setpoint asks for.
pub open spec fn mode_of(kind: MotionGeneratorKind) -> MoveMotionGeneratorMode {
    match kind {
        MotionGeneratorKind::JointPosition => MoveMotionGeneratorMode::JointPosition,
        MotionGeneratorKind::JointVelocity => MoveMotionGeneratorMode::JointVelocity,
        MotionGeneratorKind::CartesianPosition => MoveMotionGeneratorMode::CartesianPosition,
        MotionGeneratorKind::CartesianVelocity => MoveMotionGeneratorMode::CartesianVelocity,
    }
}

/// The motion generator that a kind of setpoint asks for.
pub fn move_mode(kind: MotionGeneratorKind) -> (r: MoveMotionGeneratorMode)
    ensures
        r == mode_of(kind),
{
    match kind {
        MotionGeneratorKind::JointPosition => MoveMotionGeneratorMode::JointPosition,
        MotionGeneratorKind::JointVelocity => MoveMotionGeneratorMode::JointVelocity,
        MotionGeneratorKind::CartesianPosition => MoveMotionGeneratorMode::CartesianPosition,
        MotionGeneratorKind::CartesianVelocity => MoveMotionGeneratorMode::CartesianVelocity,
    }
}

/// The numbers of seven bit patterns have these patterns, in their order.
pub proof fn law_seven_of(bits: [u64; 7], i: int)
    requires
        0 <= i < 7,
    ensures
        seven_of(bits)@[i].bits == bits@[i],
{
}

/// Commands are filtered exactly when the cut-off is a number below 1000 Hz. A command is its own
/// reference exactly when it is the first of its motion and the version wants that.
pub proof fn law_filter_is_below_the_cutoff(context: ConvertContext)
    ensures
        context.filters() <==> crate::double::above(
            Double { bits: 0x408f_4000_0000_0000 },
            context.cutoff_frequency,
        ),
        context.cutoff_frequency.nan() ==> !context.filters(),
        context.own_reference() ==> !context.initialized_filter,
        context.own_reference() ==> context.first_command_is_its_own_reference,
        !context.initialized_filter && context.first_command_is_its_own_reference
            ==> context.own_reference(),
{
    broadcast use crate::double::group_order;

}

/// Every kind of setpoint has a motion generator of its own, which a state reports under the same
/// name.
pub proof fn law_setpoints_and_generators(a: MotionGeneratorKind, b: MotionGeneratorKind)
    ensures
        mode_of(a) == mode_of(b) ==> a == b,
        mode_of(a).reported().generating(),
        mode_of(a) is JointPosition <==> a is JointPosition,
        mode_of(a) is JointVelocity <==> a is JointVelocity,
        mode_of(a) is CartesianPosition <==> a is CartesianPosition,
        mode_of(a) is CartesianVelocity <==> a is CartesianVelocity,
{
}

/// The rate limits of a version are those of its arm, each under its own name.
pub proof fn law_rate_limits_are_of_the_version(version: FciVersion, i: int)
    requires
        0 <= i < 7,
    ensures
        ({
            let limits = limits_of(version);
            &&& version is V5 ==> {
                &&& limits.max_joint_acceleration@[i].bits == fer::MAX_JOINT_ACCELERATION@[i]
                &&& limits.max_joint_jerk@[i].bits == fer::MAX_JOINT_JERK@[i]
                &&& limits.max_torque_rate@[i].bits == fer::MAX_TORQUE_RATE@[i]
                &&& limits.max_translational_velocity.bits == fer::MAX_TRANSLATIONAL_VELOCITY
                &&& limits.max_translational_acceleration.bits
                    == fer::MAX_TRANSLATIONAL_ACCELERATION
                &&& limits.max_translational_jerk.bits == fer::MAX_TRANSLATIONAL_JERK
                &&& limits.max_rotational_velocity.bits == fer::MAX_ROTATIONAL_VELOCITY
                &&& limits.max_rotational_acceleration.bits == fer::MAX_ROTATIONAL_ACCELERATION
                &&& limits.max_rotational_jerk.bits == fer::MAX_ROTATIONAL_JERK
                &&& limits.max_elbow_velocity.bits == fer::MAX_ELBOW_VELOCITY
                &&& limits.max_elbow_acceleration.bits == fer::MAX_ELBOW_ACCELERATION
                &&& limits.max_elbow_jerk.bits == fer::MAX_ELBOW_JERK
            }
            &&& version is V10 ==> {
                &&& limits.max_joint_acceleration@[i].bits
                    == rate_limiting::MAX_JOINT_ACCELERATION@[i]
                &&& limits.max_joint_jerk@[i].bits == rate_limiting::MAX_JOINT_JERK@[i]
                &&& limits.max_torque_rate@[i].bits == rate_limiting::MAX_TORQUE_RATE@[i]
                &&& limits.max_translational_velocity.bits
                    == rate_limiting::MAX_TRANSLATIONAL_VELOCITY
                &&& limits.max_translational_acceleration.bits
                    == rate_limiting::MAX_TRANSLATIONAL_ACCELERATION
                &&& limits.max_translational_jerk.bits == rate_limiting::MAX_TRANSLATIONAL_JERK
                &&& limits.max_rotational_velocity.bits == rate_limiting::MAX_ROTATIONAL_VELOCITY
                &&& limits.max_rotational_acceleration.bits
                    == rate_limiting::MAX_ROTATIONAL_ACCELERATION
                &&& limits.max_rotational_jerk.bits == rate_limiting::MAX_ROTATIONAL_JERK
                &&& limits.max_elbow_velocity.bits == rate_limiting::MAX_ELBOW_VELOCITY
                &&& limits.max_elbow_acceleration.bits == rate_limiting::MAX_ELBOW_ACCELERATION
                &&& limits.max_elbow_jerk.bits == rate_limiting::MAX_ELBOW_JERK
            }
            &&& limits.torque_f32_margin <==> version is V10
            &&& limits.min_elbow_velocity == limits.max_elbow_velocity.opposite()
        }),
{
    law_seven_of(fer::MAX_JOINT_ACCELERATION, i);
    law_seven_of(fer::MAX_JOINT_JERK, i);
    law_seven_of(fer::MAX_TORQUE_RATE, i);
    law_seven_of(rate_limiting::MAX_JOINT_ACCELERATION, i);
    law_seven_of(rate_limiting::MAX_JOINT_JERK, i);
    law_seven_of(rate_limiting::MAX_TORQUE_RATE, i);
}

} // verus!
