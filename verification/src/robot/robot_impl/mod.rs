//! The session itself: its bookkeeping and its state stream.
use crate::double::Double;
use crate::error;
use crate::error::{control_error, incorrect_object_size, ErrorView, FrankaError};
use crate::rate_limiting::fer;
use crate::realtime::RealtimeConfig;
use crate::robot::control_loop;
use crate::robot::commands::CommandName;
use crate::robot::logger::RobotStateLogger;
use crate::robot_state::{Record, RobotState};
use crate::wire::codec;
use crate::wire::codec::{CommandKind, Deviation, FciVersion};
use crate::wire::modes::{ControllerMode, MotionGeneratorMode, RobotMode, StateModes};
use vstd::prelude::*;

pub mod calls;
pub mod connect;
pub mod exception;
pub mod laws;
pub mod motion;
pub mod operation;
pub mod receive;

verus! {

/// Number of joints.
pub const NUM_JOINTS: usize = 7;

/// Deviations that every motion is started with: 10 m, 3.12 rad and a full turn, as bit patterns.
pub const DEFAULT_DEVIATION: (u64, u64, u64) = (
    0x4024_0000_0000_0000,
    0x4008_f5c2_8f5c_28f6,
    0x4019_21fb_5444_2d18,
);

/// The deviation that every motion is started with.
pub open spec fn default_deviation_of() -> Deviation {
    Deviation {
        translation: Double { bits: DEFAULT_DEVIATION.0 },
        rotation: Double { bits: DEFAULT_DEVIATION.1 },
        elbow: Double { bits: DEFAULT_DEVIATION.2 },
    }
}

/// The deviation that every motion is started with.
pub fn default_deviation() -> (r: Deviation)
    ensures
        r == default_deviation_of(),
{
    Deviation::new(
        Double { bits: DEFAULT_DEVIATION.0 },
        Double { bits: DEFAULT_DEVIATION.1 },
        Double { bits: DEFAULT_DEVIATION.2 },
    )
}

/// What the session remembers of the newest state, and of the motion that was asked for.
#[derive(Clone, Copy, PartialEq, Eq, Structural, Debug)]
pub struct State {
    /// Number of the newest accepted state.
    pub message_id: u64,
    /// Robot mode of the newest accepted state.
    pub robot_mode: RobotMode,
    /// Motion generator mode of the newest accepted state.
    pub motion_generator_mode: MotionGeneratorMode,
    /// Controller mode of the newest accepted state.
    pub controller_mode: ControllerMode,
    /// Motion generator mode that the running `Move` asked for.
    pub current_move_motion_generator_mode: MotionGeneratorMode,
    /// Controller mode that the running `Move` asked for.
    pub current_move_controller_mode: ControllerMode,
}

impl State {
    /// Before the first state.
    pub open spec fn initial() -> State {
        State {
            message_id: 0,
            robot_mode: RobotMode::Other,
            motion_generator_mode: MotionGeneratorMode::Idle,
            controller_mode: ControllerMode::Other,
            current_move_motion_generator_mode: MotionGeneratorMode::Idle,
            current_move_controller_mode: ControllerMode::Other,
        }
    }

    /// A motion generator is at work according to the newest state.
    pub open spec fn generating(self) -> bool {
        self.motion_generator_mode.generating()
    }

    /// An external controller is at work according to the newest state.
    pub open spec fn controlling(self) -> bool {
        self.controller_mode == ControllerMode::ExternalController
    }

    /// Something moves the robot according to the newest state.
    pub open spec fn running(self) -> bool {
        self.generating() || self.controlling()
    }

    /// The newest state reports both modes that the `Move` asked for.
    pub open spec fn active(self) -> bool {
        self.motion_generator_mode == self.current_move_motion_generator_mode
            && self.controller_mode == self.current_move_controller_mode
    }

    /// After a newer state with these modes was accepted.
    pub open spec fn updated(self, modes: StateModes) -> State {
        State {
            message_id: modes.message_id,
            robot_mode: RobotMode::of(modes.robot_mode),
            motion_generator_mode: MotionGeneratorMode::of(modes.motion_generator_mode),
            controller_mode: ControllerMode::of(modes.controller_mode),
            ..self
        }
    }

    /// After the `Move` is over.
    pub open spec fn released(self) -> State {
        State {
            current_move_motion_generator_mode: MotionGeneratorMode::Idle,
            current_move_controller_mode: ControllerMode::Other,
            ..self
        }
    }

    /// Whether a motion generator is at work.
    pub fn motion_generator_running(&self) -> (b: bool)
        ensures
            b == self.generating(),
    {
        self.motion_generator_mode != MotionGeneratorMode::Idle && self.motion_generator_mode
            != MotionGeneratorMode::NoGenerator
    }

    /// Whether an external controller is at work.
    pub fn controller_running(&self) -> (b: bool)
        ensures
            b == self.controlling(),
    {
        self.controller_mode == ControllerMode::ExternalController
    }

    /// Whether the newest state reports both modes that the `Move` asked for.
    pub fn move_active(&self) -> (b: bool)
        ensures
            b == self.active(),
    {
        self.motion_generator_mode == self.current_move_motion_generator_mode
            && self.controller_mode == self.current_move_controller_mode
    }

    /// Forgets the `Move`.
    pub fn release(&mut self)
        ensures
            *final(self) == old(self).released(),
    {
        self.current_move_motion_generator_mode = MotionGeneratorMode::Idle;
        self.current_move_controller_mode = ControllerMode::Other;
    }
}

/// The joint velocity envelope that a robot description gives, joint by joint.
#[derive(Clone, Copy, PartialEq, Debug)]
pub struct JointVelocityLimitsConfig {
    /// Lowest joint positions.
    pub lower: [Double; 7],
    /// Highest joint positions.
    pub upper: [Double; 7],
    /// Highest joint velocities.
    pub velocity: [Double; 7],
    /// Deceleration towards the ends of the range.
    pub deceleration: [Double; 7],
    /// Velocity left at the ends of the range.
    pub offset: [Double; 7],
}

/// The session and everything it keeps.
pub struct RobotImpl {
    logger: RobotStateLogger,
    realtime_config: RealtimeConfig,
    version: FciVersion,
    ri_version: u16,
    state: State,
    joint_velocity_limits: Option<JointVelocityLimitsConfig>,
    robot_model_urdf: String,
}

/// A session in terms of its records and texts.
#[verifier::ext_equal]
pub struct RobotView {
    /// The version that is spoken.
    pub version: FciVersion,
    /// The version that the robot reported.
    pub ri_version: u16,
    /// Whether realtime priority is insisted on.
    pub realtime_config: RealtimeConfig,
    /// What is remembered of states and motion.
    pub state: State,
    /// The log, oldest line first.
    pub log: Seq<Record>,
    /// How many lines the log keeps.
    pub log_size: nat,
    /// The joint velocity envelope of the robot description, where there is one.
    pub joint_velocity_limits: Option<JointVelocityLimitsConfig>,
    /// The robot description.
    pub urdf: Seq<char>,
}

impl View for RobotImpl {
    type V = RobotView;

    closed spec fn view(&self) -> RobotView {
        RobotView {
            version: self.version,
            ri_version: self.ri_version,
            realtime_config: self.realtime_config,
            state: self.state,
            log: self.logger@,
            log_size: self.logger.size(),
            joint_velocity_limits: self.joint_velocity_limits,
            urdf: self.robot_model_urdf@,
        }
    }
}

impl RobotView {
    /// The same session with other bookkeeping.
    pub open spec fn with_state(self, state: State) -> RobotView {
        RobotView { state, ..self }
    }

    /// The same session with another log.
    pub open spec fn with_log(self, log: Seq<Record>) -> RobotView {
        RobotView { log, ..self }
    }

    /// The number of a command, or the error that this version does not have it.
    pub open spec fn numbered(self, kind: CommandKind) -> Result<u32, ErrorView> {
        match codec::id_of(self.version, kind) {
            Some(id) => Ok(id),
            None => Err(
                ErrorView::InvalidOperation(
                    "libfranka: "@ + kind.shown() + " is not available on FCI version "@
                        + crate::text::decimal(self.version.spoken() as nat) + "."@,
                ),
            ),
        }
    }
}

impl RobotImpl {
    /// The log is in order.
    pub closed spec fn wf(&self) -> bool {
        self.logger.wf()
    }

    /// A session of which no state is known yet.
    pub fn fresh(
        realtime_config: RealtimeConfig,
        version: FciVersion,
        ri_version: u16,
        log_size: usize,
    ) -> (r: RobotImpl)
        ensures
            r.wf(),
            r@ == (RobotView {
                version,
                ri_version,
                realtime_config,
                state: State::initial(),
                log: Seq::empty(),
                log_size: log_size as nat,
                joint_velocity_limits: None,
                urdf: Seq::empty(),
            }),
    {
        RobotImpl {
            logger: RobotStateLogger::new(log_size),
            realtime_config,
            version,
            ri_version,
            state: State {
                message_id: 0,
                robot_mode: RobotMode::Other,
                motion_generator_mode: MotionGeneratorMode::Idle,
                controller_mode: ControllerMode::Other,
                current_move_motion_generator_mode: MotionGeneratorMode::Idle,
                current_move_controller_mode: ControllerMode::Other,
            },
            joint_velocity_limits: None,
            robot_model_urdf: String::new(),
        }
    }

    /// The version that this session speaks.
    pub fn version(&self) -> (r: FciVersion)
        ensures
            r == self@.version,
    {
        self.version
    }

    /// The version that the robot reported.
    pub fn server_version(&self) -> (r: u16)
        ensures
            r == self@.ri_version,
    {
        self.ri_version
    }

    /// The realtime policy of this session.
    pub fn realtime_config(&self) -> (r: RealtimeConfig)
        ensures
            r == self@.realtime_config,
    {
        self.realtime_config
    }

    /// The robot description; empty under version 5, which has none.
    pub fn robot_model_urdf(&self) -> (r: &str)
        ensures
            r@ == self@.urdf,
    {
        self.robot_model_urdf.as_str()
    }

    /// The bookkeeping of this session.
    pub fn state(&self) -> (r: State)
        ensures
            r == self@.state,
    {
        self.state
    }

    /// Whether a motion generator is active according to the last state.
    pub fn motion_generator_running(&self) -> (b: bool)
        ensures
            b == self@.state.generating(),
    {
        self.state.motion_generator_running()
    }

    /// Whether an external controller is active according to the last state.
    pub fn controller_running(&self) -> (b: bool)
        ensures
            b == self@.state.controlling(),
    {
        self.state.controller_running()
    }

    /// The robot mode of the last state.
    pub fn robot_mode(&self) -> (r: RobotMode)
        ensures
            r == self@.state.robot_mode,
    {
        self.state.robot_mode
    }

    /// The number of a command under the version of this session.
    ///
    /// Fails for a command that this version does not have.
    pub fn command_id(&self, name: CommandName) -> (r: Result<u32, FrankaError>)
        ensures
            error::seen(r) == self@.numbered(name.of()),
    {
        self.kind_id(name.kind())
    }

    /// The number of a command under the version of this session.
    pub(crate) fn kind_id(&self, kind: CommandKind) -> (r: Result<u32, FrankaError>)
        ensures
            error::seen(r) == self@.numbered(kind),
    {
        match codec::command_id(self.version, kind) {
            Some(id) => Ok(id),
            None => {
                let mut text = String::from_str("libfranka: ");
                text.append(kind.name());
                text.append(" is not available on FCI version ");
                let number = crate::text::decimal_text(self.version.number() as u64);
                text.append(number.as_str());
                text.append(".");
                Err(FrankaError::InvalidOperation(text))
            },
        }
    }

    /// Upper joint velocity limits: flat under version 5; under version 10 those that the envelope
    /// of the robot description gives at a configuration, which are handed in.
    pub fn upper_joint_velocity_limits(&self, envelope: &[Double; 7]) -> (r: [Double; 7])
        ensures
            r == (match self@.version {
                FciVersion::V5 => control_loop::seven_of(fer::MAX_JOINT_VELOCITY),
                FciVersion::V10 => *envelope,
            }),
            self@.version is V10 ==> r == *envelope,
            self@.version is V5 ==> forall|i: int|
                0 <= i < 7 ==> (#[trigger] r@[i]).bits == fer::MAX_JOINT_VELOCITY@[i],
    {
        proof {
            assert forall|i: int| 0 <= i < 7 implies (#[trigger] control_loop::seven_of(
                fer::MAX_JOINT_VELOCITY,
            )@[i]).bits == fer::MAX_JOINT_VELOCITY@[i] by {
                control_loop::law_seven_of(fer::MAX_JOINT_VELOCITY, i);
            }
        }
        match self.version {
            FciVersion::V5 => control_loop::seven(fer::MAX_JOINT_VELOCITY),
            FciVersion::V10 => *envelope,
        }
    }

    /// Lower joint velocity limits, likewise.
    pub fn lower_joint_velocity_limits(&self, envelope: &[Double; 7]) -> (r: [Double; 7])
        ensures
            r == (match self@.version {
                FciVersion::V5 => control_loop::seven_of(fer::MIN_JOINT_VELOCITY),
                FciVersion::V10 => *envelope,
            }),
            self@.version is V10 ==> r == *envelope,
            self@.version is V5 ==> forall|i: int|
                0 <= i < 7 ==> (#[trigger] r@[i]).bits == fer::MIN_JOINT_VELOCITY@[i],
    {
        proof {
            assert forall|i: int| 0 <= i < 7 implies (#[trigger] control_loop::seven_of(
                fer::MIN_JOINT_VELOCITY,
            )@[i]).bits == fer::MIN_JOINT_VELOCITY@[i] by {
                control_loop::law_seven_of(fer::MIN_JOINT_VELOCITY, i);
            }
        }
        match self.version {
            FciVersion::V5 => control_loop::seven(fer::MIN_JOINT_VELOCITY),
            FciVersion::V10 => *envelope,
        }
    }

    /// The joint velocity envelope of the robot description, where there is one.
    pub fn joint_velocity_limits(&self) -> (r: Option<JointVelocityLimitsConfig>)
        ensures
            r == self@.joint_velocity_limits,
    {
        self.joint_velocity_limits
    }

    /// Takes over the bookkeeping of a newer state.
    pub fn update_state(&mut self, modes: &StateModes)
        requires
            old(self).wf(),
        ensures
            final(self).wf(),
            final(self)@ == old(self)@.with_state(old(self)@.state.updated(*modes)),
    {
        self.state.robot_mode = match RobotMode::from_u8(modes.robot_mode) {
            Some(mode) => mode,
            None => RobotMode::Other,
        };
        self.state.motion_generator_mode =
        match MotionGeneratorMode::from_u8(modes.motion_generator_mode) {
            Some(mode) => mode,
            None => MotionGeneratorMode::Idle,
        };
        self.state.controller_mode = match ControllerMode::from_u8(modes.controller_mode) {
            Some(mode) => mode,
            None => ControllerMode::Other,
        };
        self.state.message_id = modes.message_id;
    }
}

/// Something moves the robot exactly when the newest state reports one of the four motion
/// generators at work or an external controller.
pub proof fn law_running_modes(state: State)
    ensures
        state.generating() <==> {
            ||| state.motion_generator_mode is JointPosition
            ||| state.motion_generator_mode is JointVelocity
            ||| state.motion_generator_mode is CartesianPosition
            ||| state.motion_generator_mode is CartesianVelocity
        },
        state.controlling() <==> state.controller_mode is ExternalController,
        state.running() <==> state.generating() || state.controlling(),
{
}

/// A newer state brings its number and its modes and leaves alone what the `Move` asked for. A byte
/// that stands for a mode is that mode; one that stands for none is taken for a robot in another
/// mode, for an idle motion generator and for another controller.
pub proof fn law_newer_state_is_taken_over(
    state: State,
    modes: StateModes,
    robot_mode: RobotMode,
    motion_generator_mode: MotionGeneratorMode,
    controller_mode: ControllerMode,
)
    ensures
        ({
            let after = state.updated(modes);
            &&& after.message_id == modes.message_id
            &&& after.current_move_motion_generator_mode == state.current_move_motion_generator_mode
            &&& after.current_move_controller_mode == state.current_move_controller_mode
            &&& modes.robot_mode == robot_mode.code() ==> after.robot_mode == robot_mode
            &&& modes.robot_mode > 6 ==> after.robot_mode is Other
            &&& modes.motion_generator_mode == motion_generator_mode.code()
                ==> after.motion_generator_mode == motion_generator_mode
            &&& modes.motion_generator_mode > 5 ==> after.motion_generator_mode is Idle
            &&& modes.controller_mode == controller_mode.code() ==> after.controller_mode
                == controller_mode
            &&& modes.controller_mode > 3 ==> after.controller_mode is Other
        }),
{
}

/// A state shows the motion that was asked for exactly when it reports both of its modes. Forgetting
/// the motion changes nothing else, and then no state with a motion generator at work and no state
/// with one of the three known controllers shows it.
pub proof fn law_forgotten_motion(state: State)
    ensures
        state.active() <==> {
            &&& state.motion_generator_mode.code()
                == state.current_move_motion_generator_mode.code()
            &&& state.controller_mode.code() == state.current_move_controller_mode.code()
        },
        ({
            let after = state.released();
            &&& after.message_id == state.message_id
            &&& after.robot_mode == state.robot_mode
            &&& after.motion_generator_mode == state.motion_generator_mode
            &&& after.controller_mode == state.controller_mode
            &&& after.active() ==> !state.generating() && !state.controlling()
            &&& after.active() <==> state.motion_generator_mode is Idle && state.controller_mode
                is Other
        }),
        !State::initial().running(),
        State::initial().message_id == 0,
{
}

/// Every command has a number, except the robot description under version 5, and virtual walls and
/// filters under version 10. A command that is missing is an invalid operation.
pub proof fn law_missing_commands(robot: RobotView, kind: CommandKind)
    ensures
        robot.numbered(kind) is Err <==> {
            ||| robot.version is V5 && kind is GetRobotModel
            ||| robot.version is V10 && kind is GetCartesianLimit
            ||| robot.version is V10 && kind is SetFilters
        },
        robot.numbered(kind) matches Err(e) ==> (e matches ErrorView::InvalidOperation(text)
            && crate::text::mentions(text, kind.shown())),
{
    if codec::id_of(robot.version, kind) is None {
        let head = "libfranka: "@;
        let name = kind.shown();
        let text = head + name + " is not available on FCI version "@ + crate::text::decimal(
            robot.version.spoken() as nat,
        ) + "."@;
        assert(text.subrange(head.len() as int, (head.len() + name.len()) as int) =~= name);
    }
}

} // verus!
