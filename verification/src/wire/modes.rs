//! The modes that a robot state reports and that a `Move` request asks for.
use vstd::prelude::*;

verus! {

/// What the robot is doing.
#[derive(Clone, Copy, PartialEq, Eq, Structural, Debug, Hash)]
pub enum RobotMode {
    Other,
    Idle,
    Move,
    Guiding,
    Reflex,
    UserStopped,
    AutomaticErrorRecovery,
}

/// The motion generator that a state reports.
#[derive(Clone, Copy, PartialEq, Eq, Structural, Debug, Hash)]
pub enum MotionGeneratorMode {
    Idle,
    JointPosition,
    JointVelocity,
    CartesianPosition,
    CartesianVelocity,
    NoGenerator,
}

/// The controller that a state reports.
#[derive(Clone, Copy, PartialEq, Eq, Structural, Debug, Hash)]
pub enum ControllerMode {
    JointImpedance,
    CartesianImpedance,
    ExternalController,
    Other,
}

/// The controller that a `Move` request asks for.
#[derive(Clone, Copy, PartialEq, Eq, Structural, Debug, Hash)]
pub enum MoveControllerMode {
    JointImpedance,
    CartesianImpedance,
    ExternalController,
}

/// The motion generator that a `Move` request asks for.
#[derive(Clone, Copy, PartialEq, Eq, Structural, Debug, Hash)]
pub enum MoveMotionGeneratorMode {
    JointPosition,
    JointVelocity,
    CartesianPosition,
    CartesianVelocity,
    NoGenerator,
}

impl RobotMode {
    /// The byte that stands for this mode.
    pub open spec fn code(self) -> u8 {
        match self {
            RobotMode::Other => 0,
            RobotMode::Idle => 1,
            RobotMode::Move => 2,
            RobotMode::Guiding => 3,
            RobotMode::Reflex => 4,
            RobotMode::UserStopped => 5,
            RobotMode::AutomaticErrorRecovery => 6,
        }
    }

    /// The byte that stands for this mode.
    pub fn to_u8(self) -> (b: u8)
        ensures
            b == self.code(),
    {
        match self {
            RobotMode::Other => 0,
            RobotMode::Idle => 1,
            RobotMode::Move => 2,
            RobotMode::Guiding => 3,
            RobotMode::Reflex => 4,
            RobotMode::UserStopped => 5,
            RobotMode::AutomaticErrorRecovery => 6,
        }
    }

    /// The mode that `byte` stands for.
    pub fn from_u8(byte: u8) -> (mode: Option<RobotMode>)
        ensures
            mode is Some <==> byte <= 6,
            mode matches Some(m) ==> m.code() == byte,
    {
        match byte {
            0 => Some(RobotMode::Other),
            1 => Some(RobotMode::Idle),
            2 => Some(RobotMode::Move),
            3 => Some(RobotMode::Guiding),
            4 => Some(RobotMode::Reflex),
            5 => Some(RobotMode::UserStopped),
            6 => Some(RobotMode::AutomaticErrorRecovery),
            _ => None,
        }
    }

    /// The mode that `byte` stands for, `Other` for a byte that stands for none.
    pub open spec fn of(byte: u8) -> RobotMode {
        match byte {
            1 => RobotMode::Idle,
            2 => RobotMode::Move,
            3 => RobotMode::Guiding,
            4 => RobotMode::Reflex,
            5 => RobotMode::UserStopped,
            6 => RobotMode::AutomaticErrorRecovery,
            _ => RobotMode::Other,
        }
    }

    /// The mode as text.
    pub open spec fn shown(self) -> Seq<char> {
        match self {
            RobotMode::Other => "Other"@,
            RobotMode::Idle => "Idle"@,
            RobotMode::Move => "Move"@,
            RobotMode::Guiding => "Guiding"@,
            RobotMode::Reflex => "Reflex"@,
            RobotMode::UserStopped => "User stopped"@,
            RobotMode::AutomaticErrorRecovery => "Automatic error recovery"@,
        }
    }

    /// The mode as text.
    pub fn as_str(self) -> (s: &'static str)
        ensures
            s@ == self.shown(),
    {
        match self {
            RobotMode::Other => "Other",
            RobotMode::Idle => "Idle",
            RobotMode::Move => "Move",
            RobotMode::Guiding => "Guiding",
            RobotMode::Reflex => "Reflex",
            RobotMode::UserStopped => "User stopped",
            RobotMode::AutomaticErrorRecovery => "Automatic error recovery",
        }
    }
}

impl MotionGeneratorMode {
    /// The byte that stands for this mode.
    pub open spec fn code(self) -> u8 {
        match self {
            MotionGeneratorMode::Idle => 0,
            MotionGeneratorMode::JointPosition => 1,
            MotionGeneratorMode::JointVelocity => 2,
            MotionGeneratorMode::CartesianPosition => 3,
            MotionGeneratorMode::CartesianVelocity => 4,
            MotionGeneratorMode::NoGenerator => 5,
        }
    }

    /// The byte that stands for this mode.
    pub fn to_u8(self) -> (b: u8)
        ensures
            b == self.code(),
    {
        match self {
            MotionGeneratorMode::Idle => 0,
            MotionGeneratorMode::JointPosition => 1,
            MotionGeneratorMode::JointVelocity => 2,
            MotionGeneratorMode::CartesianPosition => 3,
            MotionGeneratorMode::CartesianVelocity => 4,
            MotionGeneratorMode::NoGenerator => 5,
        }
    }

    /// The mode that `byte` stands for.
    pub fn from_u8(byte: u8) -> (mode: Option<MotionGeneratorMode>)
        ensures
            mode is Some <==> byte <= 5,
            mode matches Some(m) ==> m.code() == byte,
    {
        match byte {
            0 => Some(MotionGeneratorMode::Idle),
            1 => Some(MotionGeneratorMode::JointPosition),
            2 => Some(MotionGeneratorMode::JointVelocity),
            3 => Some(MotionGeneratorMode::CartesianPosition),
            4 => Some(MotionGeneratorMode::CartesianVelocity),
            5 => Some(MotionGeneratorMode::NoGenerator),
            _ => None,
        }
    }

    /// The mode that `byte` stands for, `Idle` for a byte that stands for none.
    pub open spec fn of(byte: u8) -> MotionGeneratorMode {
        match byte {
            1 => MotionGeneratorMode::JointPosition,
            2 => MotionGeneratorMode::JointVelocity,
            3 => MotionGeneratorMode::CartesianPosition,
            4 => MotionGeneratorMode::CartesianVelocity,
            5 => MotionGeneratorMode::NoGenerator,
            _ => MotionGeneratorMode::Idle,
        }
    }

    /// Whether a motion generator is at work in this mode.
    pub open spec fn generating(self) -> bool {
        self != MotionGeneratorMode::Idle && self != MotionGeneratorMode::NoGenerator
    }
}

impl ControllerMode {
    /// The byte that stands for this mode.
    pub open spec fn code(self) -> u8 {
        match self {
            ControllerMode::JointImpedance => 0,
            ControllerMode::CartesianImpedance => 1,
            ControllerMode::ExternalController => 2,
            ControllerMode::Other => 3,
        }
    }

    /// The byte that stands for this mode.
    pub fn to_u8(self) -> (b: u8)
        ensures
            b == self.code(),
    {
        match self {
            ControllerMode::JointImpedance => 0,
            ControllerMode::CartesianImpedance => 1,
            ControllerMode::ExternalController => 2,
            ControllerMode::Other => 3,
        }
    }

    /// The mode that `byte` stands for.
    pub fn from_u8(byte: u8) -> (mode: Option<ControllerMode>)
        ensures
            mode is Some <==> byte <= 3,
            mode matches Some(m) ==> m.code() == byte,
    {
        match byte {
            0 => Some(ControllerMode::JointImpedance),
            1 => Some(ControllerMode::CartesianImpedance),
            2 => Some(ControllerMode::ExternalController),
            3 => Some(ControllerMode::Other),
            _ => None,
        }
    }

    /// The mode that `byte` stands for, `Other` for a byte that stands for none.
    pub open spec fn of(byte: u8) -> ControllerMode {
        match byte {
            0 => ControllerMode::JointImpedance,
            1 => ControllerMode::CartesianImpedance,
            2 => ControllerMode::ExternalController,
            _ => ControllerMode::Other,
        }
    }
}

impl MoveControllerMode {
    /// The number that stands for this mode in a `Move` request.
    pub open spec fn code(self) -> u32 {
        match self {
            MoveControllerMode::JointImpedance => 0,
            MoveControllerMode::CartesianImpedance => 1,
            MoveControllerMode::ExternalController => 2,
        }
    }

    /// The number that stands for this mode in a `Move` request.
    pub fn to_u32(self) -> (n: u32)
        ensures
            n == self.code(),
    {
        match self {
            MoveControllerMode::JointImpedance => 0,
            MoveControllerMode::CartesianImpedance => 1,
            MoveControllerMode::ExternalController => 2,
        }
    }

    /// The mode that a state reports while this one runs.
    pub open spec fn reported(self) -> ControllerMode {
        match self {
            MoveControllerMode::JointImpedance => ControllerMode::JointImpedance,
            MoveControllerMode::CartesianImpedance => ControllerMode::CartesianImpedance,
            MoveControllerMode::ExternalController => ControllerMode::ExternalController,
        }
    }

    /// The mode that a state reports while this one runs.
    pub fn to_state_mode(self) -> (m: ControllerMode)
        ensures
            m == self.reported(),
    {
        match self {
            MoveControllerMode::JointImpedance => ControllerMode::JointImpedance,
            MoveControllerMode::CartesianImpedance => ControllerMode::CartesianImpedance,
            MoveControllerMode::ExternalController => ControllerMode::ExternalController,
        }
    }
}

impl MoveMotionGeneratorMode {
    /// The number that stands for this mode in a `Move` request.
    pub open spec fn code(self) -> u32 {
        match self {
            MoveMotionGeneratorMode::JointPosition => 0,
            MoveMotionGeneratorMode::JointVelocity => 1,
            MoveMotionGeneratorMode::CartesianPosition => 2,
            MoveMotionGeneratorMode::CartesianVelocity => 3,
            MoveMotionGeneratorMode::NoGenerator => 4,
        }
    }

    /// The number that stands for this mode in a `Move` request.
    pub fn to_u32(self) -> (n: u32)
        ensures
            n == self.code(),
    {
        match self {
            MoveMotionGeneratorMode::JointPosition => 0,
            MoveMotionGeneratorMode::JointVelocity => 1,
            MoveMotionGeneratorMode::CartesianPosition => 2,
            MoveMotionGeneratorMode::CartesianVelocity => 3,
            MoveMotionGeneratorMode::NoGenerator => 4,
        }
    }

    /// The mode that a state reports while this one runs.
    pub open spec fn reported(self) -> MotionGeneratorMode {
        match self {
            MoveMotionGeneratorMode::JointPosition => MotionGeneratorMode::JointPosition,
            MoveMotionGeneratorMode::JointVelocity => MotionGeneratorMode::JointVelocity,
            MoveMotionGeneratorMode::CartesianPosition => MotionGeneratorMode::CartesianPosition,
            MoveMotionGeneratorMode::CartesianVelocity => MotionGeneratorMode::CartesianVelocity,
            MoveMotionGeneratorMode::NoGenerator => MotionGeneratorMode::NoGenerator,
        }
    }

    /// The mode that a state reports while this one runs.
    pub fn to_state_mode(self) -> (m: MotionGeneratorMode)
        ensures
            m == self.reported(),
    {
        match self {
            MoveMotionGeneratorMode::JointPosition => MotionGeneratorMode::JointPosition,
            MoveMotionGeneratorMode::JointVelocity => MotionGeneratorMode::JointVelocity,
            MoveMotionGeneratorMode::CartesianPosition => MotionGeneratorMode::CartesianPosition,
            MoveMotionGeneratorMode::CartesianVelocity => MotionGeneratorMode::CartesianVelocity,
            MoveMotionGeneratorMode::NoGenerator => MotionGeneratorMode::NoGenerator,
        }
    }
}

/// The bookkeeping part of a robot state: which state it is, and the bytes of its modes.
#[derive(Clone, Copy, PartialEq, Eq, Structural, Debug, Hash)]
pub struct StateModes {
    /// Number of the state; the robot counts up.
    pub message_id: u64,
    /// Byte of the robot mode.
    pub robot_mode: u8,
    /// Byte of the motion generator mode.
    pub motion_generator_mode: u8,
    /// Byte of the controller mode.
    pub controller_mode: u8,
}

/// Every mode is read back from the byte that stands for it.
pub proof fn law_modes_read_back(
    robot: RobotMode,
    motion: MotionGeneratorMode,
    controller: ControllerMode,
)
    ensures
        RobotMode::of(robot.code()) == robot,
        MotionGeneratorMode::of(motion.code()) == motion,
        ControllerMode::of(controller.code()) == controller,
{
}

/// A `Move` asks for a controller under the number that states report it by, and for a motion
/// generator under one less, since states count an idle one too.
pub proof fn law_requested_and_reported(
    controller: MoveControllerMode,
    generator: MoveMotionGeneratorMode,
)
    ensures
        controller.code() == controller.reported().code(),
        generator.code() + 1 == generator.reported().code(),
        controller.code() < 3,
        generator.code() < 5,
        controller.reported() is ExternalController <==> controller is ExternalController,
        controller.reported() is JointImpedance <==> controller is JointImpedance,
        controller.reported() is CartesianImpedance <==> controller is CartesianImpedance,
        generator.reported() is JointPosition <==> generator is JointPosition,
        generator.reported() is JointVelocity <==> generator is JointVelocity,
        generator.reported() is CartesianPosition <==> generator is CartesianPosition,
        generator.reported() is CartesianVelocity <==> generator is CartesianVelocity,
        generator.reported().generating() <==> !(generator is NoGenerator),
{
}

/// A robot is idle at 1, moving at 2, guided at 3, in a reflex at 4, stopped by its user at 5 and
/// recovering at 6; every other byte tells of none of these.
pub proof fn law_robot_modes(byte: u8)
    ensures
        RobotMode::of(byte) is Idle <==> byte == 1,
        RobotMode::of(byte) is Move <==> byte == 2,
        RobotMode::of(byte) is Guiding <==> byte == 3,
        RobotMode::of(byte) is Reflex <==> byte == 4,
        RobotMode::of(byte) is UserStopped <==> byte == 5,
        RobotMode::of(byte) is AutomaticErrorRecovery <==> byte == 6,
        RobotMode::of(byte) is Other <==> byte == 0 || byte > 6,
        byte <= 6 ==> RobotMode::of(byte).code() == byte,
{
}

/// A motion generator is at work at 1 to 4 and nowhere else: joint positions and velocities, then
/// Cartesian ones. An external controller is at work at 2.
pub proof fn law_generator_and_controller_modes(byte: u8)
    ensures
        MotionGeneratorMode::of(byte).generating() <==> 1 <= byte <= 4,
        MotionGeneratorMode::of(byte) is JointPosition <==> byte == 1,
        MotionGeneratorMode::of(byte) is JointVelocity <==> byte == 2,
        MotionGeneratorMode::of(byte) is CartesianPosition <==> byte == 3,
        MotionGeneratorMode::of(byte) is CartesianVelocity <==> byte == 4,
        MotionGeneratorMode::of(byte) is NoGenerator <==> byte == 5,
        ControllerMode::of(byte) is JointImpedance <==> byte == 0,
        ControllerMode::of(byte) is CartesianImpedance <==> byte == 1,
        ControllerMode::of(byte) is ExternalController <==> byte == 2,
        ControllerMode::of(byte) is Other <==> byte > 2,
        byte <= 5 ==> MotionGeneratorMode::of(byte).code() == byte,
        byte <= 3 ==> ControllerMode::of(byte).code() == byte,
{
}

/// The text of a mode is its own: no two modes share one.
pub proof fn law_modes_are_told_apart(a: RobotMode, b: RobotMode)
    ensures
        a.shown() == b.shown() ==> a == b,
{
    reveal_strlit("Other");
    reveal_strlit("Idle");
    reveal_strlit("Move");
    reveal_strlit("Guiding");
    reveal_strlit("Reflex");
    reveal_strlit("User stopped");
    reveal_strlit("Automatic error recovery");
    assert(a.shown()[0] == b.shown()[0] || a.shown() != b.shown());
}

} // verus!
