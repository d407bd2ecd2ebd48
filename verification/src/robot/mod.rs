//! The robot: one session, and the lock that lets one control or read operation run at a time.
use crate::control_types::{
    CartesianPose, CartesianVelocities, ControllerMode, JointPositions, JointVelocities,
};
use crate::double::Double;
use crate::error;
use crate::error::{ErrorView, FrankaError};
use crate::realtime::RealtimeConfig;
use crate::robot::active_control::{
    ActiveMotionGenerator, ActiveMotionInput, ActiveTorqueControl, ControlLock,
};
use crate::robot::control_loop::runner;
use crate::robot::control_loop::runner::{ControlLoop, LoopSetup, TorqueLoop};
use crate::robot::control_loop::ControlLoopMotion;
use crate::robot::options::{RobotOptions, VersionPolicy};
use crate::robot::robot_impl::calls::{CommandCall, LibraryCall, ModelCall, WallCall};
use crate::robot::robot_impl::connect::{Setup, Stage};
use crate::robot::robot_impl::motion::{MotionUpdate, StartMotion};
use crate::robot::robot_impl::operation::Operation;
use crate::robot::robot_impl::receive::StateReception;
use crate::robot::robot_impl::{RobotImpl, RobotView};
use crate::robot_state::RobotState;
use crate::step::{Action, Event, Progress};
use crate::wire::codec::FciVersion;
use crate::wire::modes::{MoveControllerMode, MoveMotionGeneratorMode};
use vstd::pervasive::unreached;
use vstd::prelude::*;

pub mod active_control;
pub mod commands;
pub mod control_loop;
pub mod locked;
pub mod logger;
pub mod options;
pub mod robot_impl;
pub mod target_control;

verus! {

/// Why a second control or read operation is refused.
pub const CONTROL_LOCK_MESSAGE: &'static str = "libfranka robot: Cannot perform this operation while another control or read operation is running.";

/// A robot.
pub struct Robot {
    /// The session.
    pub robot: RobotImpl,
    /// Whether the control lock is out.
    pub control_locked: bool,
}

/// Where the model of a robot comes from.
#[derive(Debug)]
pub enum ModelSource {
    /// The model of an FER that needs nothing from the robot.
    NativeFer,
    /// The robot description, once it has been fetched.
    Description(ModelCall),
    /// The library that the robot serves, once it has been fetched.
    Library(LibraryCall),
}

/// A control lock and what it was taken for.
#[derive(Debug)]
pub struct Locked<T> {
    /// The lock; it goes back with [`Robot::release_control_lock`].
    pub lock: ControlLock,
    /// What it was taken for.
    pub operation: T,
}

/// The robot with its lock out or in.
pub open spec fn with_lock(robot: Robot, session: RobotView, locked: bool) -> bool {
    robot.robot@ == session && robot.control_locked == locked
}

/// The error of a second control or read operation.
pub open spec fn lock_error() -> ErrorView {
    ErrorView::InvalidOperation(CONTROL_LOCK_MESSAGE@)
}

/// How an operation that needs the lock begins: refused while the lock is out; otherwise it takes
/// the lock, and gives it back at once if it cannot begin.
pub open spec fn begun_locked<T>(
    before: Robot,
    begun: (RobotView, Result<T, ErrorView>),
    after: Robot,
    r: Result<Locked<T>, FrankaError>,
) -> bool {
    if before.control_locked {
        &&& with_lock(after, before.robot@, true)
        &&& r matches Err(e) && e@ == lock_error()
    } else {
        match begun.1 {
            Ok(operation) => {
                &&& with_lock(after, begun.0, true)
                &&& r matches Ok(locked) && locked.operation == operation
            },
            Err(e) => {
                &&& with_lock(after, begun.0, false)
                &&& r matches Err(got) && got@ == e
            },
        }
    }
}

/// Only one control or read operation runs at a time: once one has begun, the next is refused and
/// changes nothing, until the lock is given back.
pub proof fn law_one_operation_at_a_time<T, U>(
    before: Robot,
    first: (RobotView, Result<T, ErrorView>),
    running: Robot,
    one: Result<Locked<T>, FrankaError>,
    second: (RobotView, Result<U, ErrorView>),
    after: Robot,
    other: Result<Locked<U>, FrankaError>,
)
    requires
        begun_locked(before, first, running, one),
        one is Ok,
        begun_locked(running, second, after, other),
    ensures
        other matches Err(e) && e@ == lock_error(),
        with_lock(after, running.robot@, true),
{
}

impl Robot {
    /// The session is in order.
    pub open spec fn wf(&self) -> bool {
        self.robot.wf()
    }

    /// Begins to connect, with the default log size.
    pub fn new(realtime_config: RealtimeConfig) -> (r: Setup)
        ensures
            r == (Setup {
                realtime_config,
                log_size: options::DEFAULT_LOG_SIZE,
                policy: VersionPolicy::Auto,
                stage: Stage::Prioritising,
            }),
            r.wf(),
    {
        Robot::new_with_log_size(realtime_config, options::DEFAULT_LOG_SIZE)
    }

    /// Begins to connect.
    pub fn new_with_log_size(realtime_config: RealtimeConfig, log_size: usize) -> (r: Setup)
        ensures
            r == (Setup {
                realtime_config,
                log_size,
                policy: VersionPolicy::Auto,
                stage: Stage::Prioritising,
            }),
            r.wf(),
    {
        Robot::with_options(RobotOptions::new(realtime_config).with_log_size(log_size))
    }

    /// Begins to connect.
    pub fn with_options(options: RobotOptions) -> (r: Setup)
        ensures
            r == (Setup {
                realtime_config: options.realtime_config,
                log_size: options.log_size,
                policy: options.version,
                stage: Stage::Prioritising,
            }),
            r.wf(),
    {
        RobotImpl::new_with_policy(options.realtime_config, options.log_size, options.version)
    }

    /// The robot of a session that was just connected.
    pub fn connected(robot: RobotImpl) -> (r: Robot)
        requires
            robot.wf(),
        ensures
            r.wf(),
            with_lock(r, robot@, false),
    {
        Robot { robot, control_locked: false }
    }

    /// The version that the robot reported.
    pub fn server_version(&self) -> (r: u16)
        ensures
            r == self.robot@.ri_version,
    {
        self.robot.server_version()
    }

    /// The version that is spoken.
    pub fn fci_version(&self) -> (r: FciVersion)
        ensures
            r == self.robot@.version,
    {
        self.robot.version()
    }

    /// Begins to wait for the next state.
    pub fn read_once(&self) -> (r: StateReception)
        ensures
            r == StateReception::begun(self.robot@.state.message_id),
            r.wf(),
    {
        self.robot.read_once()
    }

    /// Begins to hand states to a callback until it has had enough.
    pub fn read(&mut self) -> (r: Result<Locked<ReadLoop>, FrankaError>)
        requires
            old(self).wf(),
        ensures
            final(self).wf(),
            begun_locked(
                *old(self),
                (
                    old(self).robot@,
                    Ok(
                        ReadLoop::Updating {
                            update: MotionUpdate::Checking { motion: None, control: None },
                        },
                    ),
                ),
                *final(self),
                r,
            ),
            r matches Ok(locked) ==> locked.operation.wf(),
    {
        let lock = match self.acquire_control_lock() {
            Ok(lock) => lock,
            Err(e) => {
                return Err(e);
            },
        };
        let operation = ReadLoop::Updating { update: self.robot.update_motion(None, None) };
        Ok(Locked { lock, operation })
    }

    /// Asks for the robot description.
    pub fn robot_model(&self) -> (r: Result<ModelCall, FrankaError>)
        ensures
            error::seen(r) == self.describing(),
    {
        self.robot.get_robot_model()
    }

    /// How the robot description is asked for.
    pub open spec fn describing(self) -> Result<ModelCall, ErrorView> {
        match robot_impl::calls::begun(
            self.robot@,
            crate::wire::request::Request::GetRobotModel,
        ) {
            Ok(exchange) => Ok(ModelCall { exchange }),
            Err(e) => Err(e),
        }
    }

    /// Where the model of this robot comes from: an FER's is built in, an FR3's is made of the robot
    /// description.
    pub fn load_model(&self) -> (r: Result<ModelSource, FrankaError>)
        ensures
            error::seen(r) == (match self.robot@.version {
                FciVersion::V5 => Ok(ModelSource::NativeFer),
                FciVersion::V10 => match self.describing() {
                    Ok(call) => Ok(ModelSource::Description(call)),
                    Err(e) => Err(e),
                },
            }),
    {
        match self.fci_version() {
            FciVersion::V5 => Ok(ModelSource::NativeFer),
            FciVersion::V10 => match self.robot_model() {
                Ok(call) => Ok(ModelSource::Description(call)),
                Err(e) => Err(e),
            },
        }
    }

    /// Where the model of this robot comes from when the robot is to supply it: an FER serves a
    /// library for a processor architecture and an operating system, an FR3 its description.
    pub fn load_model_from_robot(&self, architecture: u8, system: u8) -> (r: Result<
        ModelSource,
        FrankaError,
    >)
        ensures
            error::seen(r) == (match self.robot@.version {
                FciVersion::V5 => match robot_impl::calls::begun(
                    self.robot@,
                    crate::wire::request::Request::LoadModelLibrary { architecture, system },
                ) {
                    Ok(exchange) => Ok(ModelSource::Library(LibraryCall { exchange })),
                    Err(e) => Err(e),
                },
                FciVersion::V10 => match self.describing() {
                    Ok(call) => Ok(ModelSource::Description(call)),
                    Err(e) => Err(e),
                },
            }),
    {
        match self.fci_version() {
            FciVersion::V5 => match self.robot.load_model_v5(architecture, system) {
                Ok(call) => Ok(ModelSource::Library(call)),
                Err(e) => Err(e),
            },
            FciVersion::V10 => match self.robot_model() {
                Ok(call) => Ok(ModelSource::Description(call)),
                Err(e) => Err(e),
            },
        }
    }

    /// Takes the control lock, unless it is out.
    pub fn acquire_control_lock(&mut self) -> (r: Result<ControlLock, FrankaError>)
        requires
            old(self).wf(),
        ensures
            final(self).wf(),
            with_lock(*final(self), old(self).robot@, true),
            old(self).control_locked ==> (r matches Err(e) && e@ == lock_error()),
            !old(self).control_locked ==> r is Ok,
    {
        if self.control_locked {
            return Err(FrankaError::InvalidOperation(String::from_str(CONTROL_LOCK_MESSAGE)));
        }
        self.control_locked = true;
        Ok(ControlLock { token: () })
    }

    /// Gives the control lock back.
    pub fn release_control_lock(&mut self, lock: ControlLock)
        requires
            old(self).wf(),
        ensures
            final(self).wf(),
            with_lock(*final(self), old(self).robot@, false),
    {
        let _ = lock;
        self.control_locked = false;
    }

    // -- Control that the caller drives -----------------------------------------------------

    /// Begins to start torque control that the caller drives. The number that the start ends with
    /// and the lock make an [`ActiveTorqueControl`].
    pub fn start_torque_control(&mut self) -> (r: Result<Locked<StartMotion>, FrankaError>)
        requires
            old(self).wf(),
        ensures
            final(self).wf(),
            begun_locked(
                *old(self),
                old(self).robot@.starting(
                    MoveControllerMode::ExternalController,
                    match old(self).robot@.version {
                        FciVersion::V5 => MoveMotionGeneratorMode::JointVelocity,
                        FciVersion::V10 => MoveMotionGeneratorMode::NoGenerator,
                    },
                    robot_impl::default_deviation_of(),
                    robot_impl::default_deviation_of(),
                ),
                *final(self),
                r,
            ),
            r matches Ok(locked) ==> locked.operation.wf(),
    {
        let mode = self.robot.torque_only_motion_mode();
        self.start_active_motion(MoveControllerMode::ExternalController, mode)
    }

    /// Begins to start joint position control that the caller drives.
    pub fn start_joint_position_control(&mut self, controller_mode: MoveControllerMode) -> (r:
        Result<Locked<StartMotion>, FrankaError>)
        requires
            old(self).wf(),
        ensures
            final(self).wf(),
            begun_locked(
                *old(self),
                old(self).robot@.starting(
                    controller_mode,
                    MoveMotionGeneratorMode::JointPosition,
                    robot_impl::default_deviation_of(),
                    robot_impl::default_deviation_of(),
                ),
                *final(self),
                r,
            ),
            r matches Ok(locked) ==> locked.operation.wf(),
    {
        self.start_active_motion(controller_mode, MoveMotionGeneratorMode::JointPosition)
    }

    /// Begins to start joint velocity control that the caller drives.
    pub fn start_joint_velocity_control(&mut self, controller_mode: MoveControllerMode) -> (r:
        Result<Locked<StartMotion>, FrankaError>)
        requires
            old(self).wf(),
        ensures
            final(self).wf(),
            begun_locked(
                *old(self),
                old(self).robot@.starting(
                    controller_mode,
                    MoveMotionGeneratorMode::JointVelocity,
                    robot_impl::default_deviation_of(),
                    robot_impl::default_deviation_of(),
                ),
                *final(self),
                r,
            ),
            r matches Ok(locked) ==> locked.operation.wf(),
    {
        self.start_active_motion(controller_mode, MoveMotionGeneratorMode::JointVelocity)
    }

    /// Begins to start Cartesian pose control that the caller drives.
    pub fn start_cartesian_pose_control(&mut self, controller_mode: MoveControllerMode) -> (r:
        Result<Locked<StartMotion>, FrankaError>)
        requires
            old(self).wf(),
        ensures
            final(self).wf(),
            begun_locked(
                *old(self),
                old(self).robot@.starting(
                    controller_mode,
                    MoveMotionGeneratorMode::CartesianPosition,
                    robot_impl::default_deviation_of(),
                    robot_impl::default_deviation_of(),
                ),
                *final(self),
                r,
            ),
            r matches Ok(locked) ==> locked.operation.wf(),
    {
        self.start_active_motion(controller_mode, MoveMotionGeneratorMode::CartesianPosition)
    }

    /// Begins to start Cartesian velocity control that the caller drives.
    pub fn start_cartesian_velocity_control(&mut self, controller_mode: MoveControllerMode) -> (r:
        Result<Locked<StartMotion>, FrankaError>)
        requires
            old(self).wf(),
        ensures
            final(self).wf(),
            begun_locked(
                *old(self),
                old(self).robot@.starting(
                    controller_mode,
                    MoveMotionGeneratorMode::CartesianVelocity,
                    robot_impl::default_deviation_of(),
                    robot_impl::default_deviation_of(),
                ),
                *final(self),
                r,
            ),
            r matches Ok(locked) ==> locked.operation.wf(),
    {
        self.start_active_motion(controller_mode, MoveMotionGeneratorMode::CartesianVelocity)
    }

    /// Takes the lock and begins to start a motion.
    fn start_active_motion(
        &mut self,
        controller_mode: MoveControllerMode,
        motion_generator_mode: MoveMotionGeneratorMode,
    ) -> (r: Result<Locked<StartMotion>, FrankaError>)
        requires
            old(self).wf(),
        ensures
            final(self).wf(),
            begun_locked(
                *old(self),
                old(self).robot@.starting(
                    controller_mode,
                    motion_generator_mode,
                    robot_impl::default_deviation_of(),
                    robot_impl::default_deviation_of(),
                ),
                *final(self),
                r,
            ),
            r matches Ok(locked) ==> locked.operation.wf(),
    {
        let lock = match self.acquire_control_lock() {
            Ok(lock) => lock,
            Err(e) => {
                return Err(e);
            },
        };
        match self.start_motion(controller_mode, motion_generator_mode) {
            Ok(operation) => Ok(Locked { lock, operation }),
            Err(e) => {
                self.control_locked = false;
                Err(e)
            },
        }
    }

    /// Begins to start a motion with the default deviations.
    fn start_motion(
        &mut self,
        controller_mode: MoveControllerMode,
        motion_generator_mode: MoveMotionGeneratorMode,
    ) -> (r: Result<StartMotion, FrankaError>)
        requires
            old(self).wf(),
        ensures
            final(self).wf(),
            final(self).control_locked == old(self).control_locked,
            (final(self).robot@, error::seen(r)) == old(self).robot@.starting(
                controller_mode,
                motion_generator_mode,
                robot_impl::default_deviation_of(),
                robot_impl::default_deviation_of(),
            ),
            r matches Ok(start) ==> start.wf(),
    {
        runner::start_motion(&mut self.robot, controller_mode, motion_generator_mode)
    }

    // -- Control loops ----------------------------------------------------------------------

    /// Begins a loop with a control callback alone.
    pub fn control_torques(&mut self, limit_rate: bool, cutoff_frequency: Double) -> (r: Result<
        Locked<TorqueLoop>,
        FrankaError,
    >)
        requires
            old(self).wf(),
        ensures
            final(self).wf(),
            begun_locked(
                *old(self),
                runner::torques_begun(old(self).robot@, limit_rate, cutoff_frequency),
                *final(self),
                r,
            ),
    {
        let lock = match self.acquire_control_lock() {
            Ok(lock) => lock,
            Err(e) => {
                return Err(e);
            },
        };
        match runner::control_torques(&mut self.robot, limit_rate, cutoff_frequency) {
            Ok(operation) => Ok(Locked { lock, operation }),
            Err(e) => {
                self.control_locked = false;
                Err(e)
            },
        }
    }

    /// Takes the lock and begins a loop with a control and a motion callback.
    fn control_with_torques<M: ControlLoopMotion>(
        &mut self,
        limit_rate: bool,
        cutoff_frequency: Double,
    ) -> (r: Result<Locked<ControlLoop<M>>, FrankaError>)
        requires
            old(self).wf(),
        ensures
            final(self).wf(),
            begun_locked(
                *old(self),
                with_torques::<M>(old(self).robot@, limit_rate, cutoff_frequency),
                *final(self),
                r,
            ),
            r matches Ok(locked) ==> locked.operation.wf(),
    {
        let lock = match self.acquire_control_lock() {
            Ok(lock) => lock,
            Err(e) => {
                return Err(e);
            },
        };
        match ControlLoop::<M>::new_with_control_and_motion(
            &mut self.robot,
            limit_rate,
            cutoff_frequency,
        ) {
            Ok(operation) => Ok(Locked { lock, operation }),
            Err(e) => {
                self.control_locked = false;
                Err(e)
            },
        }
    }

    /// Takes the lock and begins a loop with a motion callback and one of the robot's own
    /// controllers.
    fn control_with_mode<M: ControlLoopMotion>(
        &mut self,
        controller_mode: ControllerMode,
        limit_rate: bool,
        cutoff_frequency: Double,
    ) -> (r: Result<Locked<ControlLoop<M>>, FrankaError>)
        requires
            old(self).wf(),
        ensures
            final(self).wf(),
            begun_locked(
                *old(self),
                with_mode::<M>(old(self).robot@, controller_mode, limit_rate, cutoff_frequency),
                *final(self),
                r,
            ),
            r matches Ok(locked) ==> locked.operation.wf(),
    {
        let lock = match self.acquire_control_lock() {
            Ok(lock) => lock,
            Err(e) => {
                return Err(e);
            },
        };
        match ControlLoop::<M>::new_with_motion(
            &mut self.robot,
            controller_mode,
            limit_rate,
            cutoff_frequency,
        ) {
            Ok(operation) => Ok(Locked { lock, operation }),
            Err(e) => {
                self.control_locked = false;
                Err(e)
            },
        }
    }

    /// Begins a loop with torques and joint positions.
    pub fn control_torques_and_joint_positions(&mut self, limit_rate: bool, cutoff_frequency: Double) -> (r:
        Result<Locked<ControlLoop<JointPositions>>, FrankaError>)
        requires
            old(self).wf(),
        ensures
            final(self).wf(),
            begun_locked(
                *old(self),
                with_torques::<JointPositions>(old(self).robot@, limit_rate, cutoff_frequency),
                *final(self),
                r,
            ),
            r matches Ok(locked) ==> locked.operation.wf(),
    {
        self.control_with_torques(limit_rate, cutoff_frequency)
    }

    /// Begins a loop with joint positions and one of the robot's own controllers.
    pub fn control_joint_positions(
        &mut self,
        controller_mode: ControllerMode,
        limit_rate: bool,
        cutoff_frequency: Double,
    ) -> (r: Result<Locked<ControlLoop<JointPositions>>, FrankaError>)
        requires
            old(self).wf(),
        ensures
            final(self).wf(),
            begun_locked(
                *old(self),
                with_mode::<JointPositions>(
                    old(self).robot@,
                    controller_mode,
                    limit_rate,
                    cutoff_frequency,
                ),
                *final(self),
                r,
            ),
            r matches Ok(locked) ==> locked.operation.wf(),
    {
        self.control_with_mode(controller_mode, limit_rate, cutoff_frequency)
    }

    /// Begins a loop with torques and joint velocities.
    pub fn control_torques_and_joint_velocities(&mut self, limit_rate: bool, cutoff_frequency: Double) -> (r:
        Result<Locked<ControlLoop<JointVelocities>>, FrankaError>)
        requires
            old(self).wf(),
        ensures
            final(self).wf(),
            begun_locked(
                *old(self),
                with_torques::<JointVelocities>(old(self).robot@, limit_rate, cutoff_frequency),
                *final(self),
                r,
            ),
            r matches Ok(locked) ==> locked.operation.wf(),
    {
        self.control_with_torques(limit_rate, cutoff_frequency)
    }

    /// Begins a loop with joint velocities and one of the robot's own controllers.
    pub fn control_joint_velocities(
        &mut self,
        controller_mode: ControllerMode,
        limit_rate: bool,
        cutoff_frequency: Double,
    ) -> (r: Result<Locked<ControlLoop<JointVelocities>>, FrankaError>)
        requires
            old(self).wf(),
        ensures
            final(self).wf(),
            begun_locked(
                *old(self),
                with_mode::<JointVelocities>(
                    old(self).robot@,
                    controller_mode,
                    limit_rate,
                    cutoff_frequency,
                ),
                *final(self),
                r,
            ),
            r matches Ok(locked) ==> locked.operation.wf(),
    {
        self.control_with_mode(controller_mode, limit_rate, cutoff_frequency)
    }

    /// Begins a loop with torques and Cartesian poses.
    pub fn control_torques_and_cartesian_pose(&mut self, limit_rate: bool, cutoff_frequency: Double) -> (r:
        Result<Locked<ControlLoop<CartesianPose>>, FrankaError>)
        requires
            old(self).wf(),
        ensures
            final(self).wf(),
            begun_locked(
                *old(self),
                with_torques::<CartesianPose>(old(self).robot@, limit_rate, cutoff_frequency),
                *final(self),
                r,
            ),
            r matches Ok(locked) ==> locked.operation.wf(),
    {
        self.control_with_torques(limit_rate, cutoff_frequency)
    }

    /// Begins a loop with Cartesian poses and one of the robot's own controllers.
    pub fn control_cartesian_pose(
        &mut self,
        controller_mode: ControllerMode,
        limit_rate: bool,
        cutoff_frequency: Double,
    ) -> (r: Result<Locked<ControlLoop<CartesianPose>>, FrankaError>)
        requires
            old(self).wf(),
        ensures
            final(self).wf(),
            begun_locked(
                *old(self),
                with_mode::<CartesianPose>(
                    old(self).robot@,
                    controller_mode,
                    limit_rate,
                    cutoff_frequency,
                ),
                *final(self),
                r,
            ),
            r matches Ok(locked) ==> locked.operation.wf(),
    {
        self.control_with_mode(controller_mode, limit_rate, cutoff_frequency)
    }

    /// Begins a loop with torques and Cartesian velocities.
    pub fn control_torques_and_cartesian_velocities(&mut self, limit_rate: bool, cutoff_frequency: Double) -> (r:
        Result<Locked<ControlLoop<CartesianVelocities>>, FrankaError>)
        requires
            old(self).wf(),
        ensures
            final(self).wf(),
            begun_locked(
                *old(self),
                with_torques::<CartesianVelocities>(old(self).robot@, limit_rate, cutoff_frequency),
                *final(self),
                r,
            ),
            r matches Ok(locked) ==> locked.operation.wf(),
    {
        self.control_with_torques(limit_rate, cutoff_frequency)
    }

    /// Begins a loop with Cartesian velocities and one of the robot's own controllers.
    pub fn control_cartesian_velocities(
        &mut self,
        controller_mode: ControllerMode,
        limit_rate: bool,
        cutoff_frequency: Double,
    ) -> (r: Result<Locked<ControlLoop<CartesianVelocities>>, FrankaError>)
        requires
            old(self).wf(),
        ensures
            final(self).wf(),
            begun_locked(
                *old(self),
                with_mode::<CartesianVelocities>(
                    old(self).robot@,
                    controller_mode,
                    limit_rate,
                    cutoff_frequency,
                ),
                *final(self),
                r,
            ),
            r matches Ok(locked) ==> locked.operation.wf(),
    {
        self.control_with_mode(controller_mode, limit_rate, cutoff_frequency)
    }

    // -- Commands ---------------------------------------------------------------------------

    /// Sets the cut-off frequencies of the robot's own filters. Version 5 only.
    pub fn set_filters(
        &self,
        joint_position_filter_frequency: Double,
        joint_velocity_filter_frequency: Double,
        cartesian_position_filter_frequency: Double,
        cartesian_velocity_filter_frequency: Double,
        controller_filter_frequency: Double,
    ) -> (r: Result<CommandCall, FrankaError>)
        ensures
            error::seen(r) == self.robot.commanded(
                commands::CommandName::SetFilters,
                crate::wire::request::Request::SetFilters {
                    frequencies: [
                        joint_position_filter_frequency,
                        joint_velocity_filter_frequency,
                        cartesian_position_filter_frequency,
                        cartesian_velocity_filter_frequency,
                        controller_filter_frequency,
                    ],
                },
            ),
    {
        self.robot.set_filters(
            joint_position_filter_frequency,
            joint_velocity_filter_frequency,
            cartesian_position_filter_frequency,
            cartesian_velocity_filter_frequency,
            controller_filter_frequency,
        )
    }

    /// Stops the running motion; may be called while a control loop is running.
    pub fn stop(
        &self,
    ) -> (r: Result<CommandCall, FrankaError>)
        ensures
            error::seen(r) == self.robot.commanded(
                commands::CommandName::StopMove,
                crate::wire::request::Request::StopMove,
            ),
    {
        self.robot.stop()
    }

    /// Clears a reflex and enables motion again.
    pub fn automatic_error_recovery(
        &self,
    ) -> (r: Result<CommandCall, FrankaError>)
        ensures
            error::seen(r) == self.robot.commanded(
                commands::CommandName::AutomaticErrorRecovery,
                crate::wire::request::Request::AutomaticErrorRecovery,
            ),
    {
        self.robot.automatic_error_recovery()
    }

    /// Sets the contact and collision thresholds, for acceleration phases and for the rest.
    pub fn set_collision_behavior(
        &self,
        lower_torque_thresholds_acceleration: [Double; 7],
        upper_torque_thresholds_acceleration: [Double; 7],
        lower_torque_thresholds_nominal: [Double; 7],
        upper_torque_thresholds_nominal: [Double; 7],
        lower_force_thresholds_acceleration: [Double; 6],
        upper_force_thresholds_acceleration: [Double; 6],
        lower_force_thresholds_nominal: [Double; 6],
        upper_force_thresholds_nominal: [Double; 6],
    ) -> (r: Result<CommandCall, FrankaError>)
        ensures
            error::seen(r) == self.robot.commanded(
                commands::CommandName::SetCollisionBehavior,
                crate::wire::request::Request::SetCollisionBehavior {
                    lower_torque_thresholds_acceleration,
                    upper_torque_thresholds_acceleration,
                    lower_torque_thresholds_nominal,
                    upper_torque_thresholds_nominal,
                    lower_force_thresholds_acceleration,
                    upper_force_thresholds_acceleration,
                    lower_force_thresholds_nominal,
                    upper_force_thresholds_nominal,
                },
            ),
    {
        self.robot.set_collision_behavior(
            &lower_torque_thresholds_acceleration,
            &upper_torque_thresholds_acceleration,
            &lower_torque_thresholds_nominal,
            &upper_torque_thresholds_nominal,
            &lower_force_thresholds_acceleration,
            &upper_force_thresholds_acceleration,
            &lower_force_thresholds_nominal,
            &upper_force_thresholds_nominal,
        )
    }

    /// Sets the contact and collision thresholds, the same for all phases.
    pub fn set_collision_behavior_simple(
        &self,
        lower_torque_thresholds: [Double; 7],
        upper_torque_thresholds: [Double; 7],
        lower_force_thresholds: [Double; 6],
        upper_force_thresholds: [Double; 6],
    ) -> (r: Result<CommandCall, FrankaError>)
        ensures
            error::seen(r) == self.robot.commanded(
                commands::CommandName::SetCollisionBehavior,
                crate::wire::request::Request::SetCollisionBehavior {
                    lower_torque_thresholds_acceleration: lower_torque_thresholds,
                    upper_torque_thresholds_acceleration: upper_torque_thresholds,
                    lower_torque_thresholds_nominal: lower_torque_thresholds,
                    upper_torque_thresholds_nominal: upper_torque_thresholds,
                    lower_force_thresholds_acceleration: lower_force_thresholds,
                    upper_force_thresholds_acceleration: upper_force_thresholds,
                    lower_force_thresholds_nominal: lower_force_thresholds,
                    upper_force_thresholds_nominal: upper_force_thresholds,
                },
            ),
    {
        self.robot.set_collision_behavior(
            &lower_torque_thresholds,
            &upper_torque_thresholds,
            &lower_torque_thresholds,
            &upper_torque_thresholds,
            &lower_force_thresholds,
            &upper_force_thresholds,
            &lower_force_thresholds,
            &upper_force_thresholds,
        )
    }

    /// Sets the joint stiffness.
    pub fn set_joint_impedance(
        &self,
        K_theta: [Double; 7],
    ) -> (r: Result<CommandCall, FrankaError>)
        ensures
            error::seen(r) == self.robot.commanded(
                commands::CommandName::SetJointImpedance,
                crate::wire::request::Request::SetJointImpedance { K_theta },
            ),
    {
        self.robot.set_joint_impedance(&K_theta)
    }

    /// Sets the Cartesian stiffness.
    pub fn set_cartesian_impedance(
        &self,
        K_x: [Double; 6],
    ) -> (r: Result<CommandCall, FrankaError>)
        ensures
            error::seen(r) == self.robot.commanded(
                commands::CommandName::SetCartesianImpedance,
                crate::wire::request::Request::SetCartesianImpedance { K_x },
            ),
    {
        self.robot.set_cartesian_impedance(&K_x)
    }

    /// Locks or unlocks guiding along each axis and of the elbow.
    pub fn set_guiding_mode(
        &self,
        guiding_mode: [bool; 6],
        elbow: bool,
    ) -> (r: Result<CommandCall, FrankaError>)
        ensures
            error::seen(r) == self.robot.commanded(
                commands::CommandName::SetGuidingMode,
                crate::wire::request::Request::SetGuidingMode { guiding_mode, elbow },
            ),
    {
        self.robot.set_guiding_mode(&guiding_mode, elbow)
    }

    /// Sets the stiffness frame.
    pub fn set_k(
        &self,
        EE_T_K: [Double; 16],
    ) -> (r: Result<CommandCall, FrankaError>)
        ensures
            error::seen(r) == self.robot.commanded(
                commands::CommandName::SetEEToK,
                crate::wire::request::Request::SetEEToK { EE_T_K },
            ),
    {
        self.robot.set_k(&EE_T_K)
    }

    /// Sets the end effector frame.
    pub fn set_ee(
        &self,
        NE_T_EE: [Double; 16],
    ) -> (r: Result<CommandCall, FrankaError>)
        ensures
            error::seen(r) == self.robot.commanded(
                commands::CommandName::SetNEToEE,
                crate::wire::request::Request::SetNEToEE { NE_T_EE },
            ),
    {
        self.robot.set_ee(&NE_T_EE)
    }

    /// Sets the load.
    pub fn set_load(
        &self,
        load_mass: Double,
        F_x_Cload: [Double; 3],
        load_inertia: [Double; 9],
    ) -> (r: Result<CommandCall, FrankaError>)
        ensures
            error::seen(r) == self.robot.commanded(
                commands::CommandName::SetLoad,
                crate::wire::request::Request::SetLoad { load_mass, F_x_Cload, load_inertia },
            ),
    {
        self.robot.set_load(load_mass, &F_x_Cload, &load_inertia)
    }

    /// Asks for a virtual wall. Version 5 only.
    pub fn virtual_wall(&self, id: i32) -> (r: Result<WallCall, FrankaError>)
        ensures
            error::seen(r) == (match robot_impl::calls::begun(
                self.robot@,
                crate::wire::request::Request::GetCartesianLimit { id },
            ) {
                Ok(exchange) => Ok(WallCall { id, exchange }),
                Err(e) => Err(e),
            }),
    {
        self.robot.virtual_wall(id)
    }

    /// Upper joint velocity limits; see [`RobotImpl::upper_joint_velocity_limits`].
    pub fn upper_joint_velocity_limits(&self, envelope: &[Double; 7]) -> (r: [Double; 7])
        ensures
            r == (match self.robot@.version {
                FciVersion::V5 => control_loop::seven_of(
                    crate::rate_limiting::fer::MAX_JOINT_VELOCITY,
                ),
                FciVersion::V10 => *envelope,
            }),
    {
        self.robot.upper_joint_velocity_limits(envelope)
    }

    /// Lower joint velocity limits; see [`RobotImpl::lower_joint_velocity_limits`].
    pub fn lower_joint_velocity_limits(&self, envelope: &[Double; 7]) -> (r: [Double; 7])
        ensures
            r == (match self.robot@.version {
                FciVersion::V5 => control_loop::seven_of(
                    crate::rate_limiting::fer::MIN_JOINT_VELOCITY,
                ),
                FciVersion::V10 => *envelope,
            }),
    {
        self.robot.lower_joint_velocity_limits(envelope)
    }
}

/// How a loop with torques and a motion generator begins.
pub open spec fn with_torques<M: ControlLoopMotion>(
    robot: RobotView,
    limit_rate: bool,
    cutoff_frequency: Double,
) -> (RobotView, Result<ControlLoop<M>, ErrorView>) {
    LoopSetup::of(robot.version, true, true, limit_rate, cutoff_frequency).begun::<M>(
        robot,
        MoveControllerMode::ExternalController,
        M::mode(),
    )
}

/// How a loop with a motion generator and one of the robot's own controllers begins.
pub open spec fn with_mode<M: ControlLoopMotion>(
    robot: RobotView,
    controller_mode: ControllerMode,
    limit_rate: bool,
    cutoff_frequency: Double,
) -> (RobotView, Result<ControlLoop<M>, ErrorView>) {
    LoopSetup::of(robot.version, true, false, limit_rate, cutoff_frequency).begun::<M>(
        robot,
        runner::controller_of(controller_mode),
        M::mode(),
    )
}

/// Handing states to a callback.
#[derive(Debug)]
pub enum ReadLoop {
    /// The next state is being received.
    Updating { update: MotionUpdate },
    /// The callback has its turn.
    Calling { state: RobotState },
}

/// What a read loop wants done next.
#[derive(Clone, Copy, PartialEq, Debug)]
pub enum ReadAction {
    /// Perform an action on the connection; answered by [`ReadEvent::Performed`].
    Perform(Action),
    /// Call the callback; answered by [`ReadEvent::Returned`].
    Call { state: RobotState },
}

/// What came of it.
#[derive(Debug)]
pub enum ReadEvent {
    /// What came of an action on the connection.
    Performed(Event),
    /// Whether the callback wants another state.
    Returned(bool),
}

impl ReadAction {
    /// Whether an event is an answer to this action.
    pub open spec fn answered(self, event: ReadEvent) -> bool {
        match self {
            ReadAction::Perform(action) => event matches ReadEvent::Performed(e)
                && action.answered(e),
            ReadAction::Call { .. } => event is Returned,
        }
    }

    /// Whether an event is an answer to this action.
    pub fn answered_by(&self, event: &ReadEvent) -> (b: bool)
        ensures
            b == self.answered(*event),
    {
        match self {
            ReadAction::Perform(action) => match event {
                ReadEvent::Performed(e) => action.answered_by(e),
                ReadEvent::Returned(_) => false,
            },
            ReadAction::Call { .. } => matches!(event, ReadEvent::Returned(_)),
        }
    }
}

/// How a read loop goes on.
pub type ReadProgress<E> = Progress<ReadLoop, ReadAction, Result<(), E>>;

/// Progress with its error in terms of texts and records.
pub open spec fn seen_read(p: ReadProgress<FrankaError>) -> ReadProgress<ErrorView> {
    match p {
        Progress::Continue(l, action) => Progress::Continue(l, action),
        Progress::Done(result) => Progress::Done(error::seen(result)),
    }
}

impl ReadLoop {
    /// The parts are in order.
    pub open spec fn wf(self) -> bool {
        self matches ReadLoop::Updating { update } ==> update.wf()
    }

    /// What is wanted next.
    pub open spec fn awaiting(self) -> ReadAction {
        match self {
            ReadLoop::Updating { update } => ReadAction::Perform(update.awaiting()),
            ReadLoop::Calling { state } => ReadAction::Call { state },
        }
    }

    /// What is wanted next.
    pub fn action(&self) -> (a: ReadAction)
        ensures
            a == self.awaiting(),
    {
        match self {
            ReadLoop::Updating { update } => ReadAction::Perform(update.action()),
            ReadLoop::Calling { state } => ReadAction::Call { state: *state },
        }
    }

    /// How the loop goes on after an event: every state goes to the callback, until it wants no
    /// other.
    pub open spec fn next(self, robot: RobotView, event: ReadEvent) -> (
        RobotView,
        ReadProgress<ErrorView>,
    ) {
        match self {
            ReadLoop::Updating { update } => match update.next(robot, event->Performed_0) {
                (after, Progress::Continue(update, action)) => (
                    after,
                    Progress::Continue(
                        ReadLoop::Updating { update },
                        ReadAction::Perform(action),
                    ),
                ),
                (after, Progress::Done(Ok(state))) => (
                    after,
                    Progress::Continue(ReadLoop::Calling { state }, ReadAction::Call { state }),
                ),
                (after, Progress::Done(Err(e))) => (after, Progress::Done(Err(e))),
            },
            ReadLoop::Calling { .. } => if event->Returned_0 {
                let update = MotionUpdate::Checking { motion: None, control: None };
                (
                    robot,
                    Progress::Continue(
                        ReadLoop::Updating { update },
                        ReadAction::Perform(update.awaiting()),
                    ),
                )
            } else {
                (robot, Progress::Done(Ok(())))
            },
        }
    }

    /// Goes on after an event.
    pub fn resume(self, robot: &mut RobotImpl, event: ReadEvent) -> (r: ReadProgress<FrankaError>)
        requires
            self.wf(),
            self.awaiting().answered(event),
            old(robot).wf(),
        ensures
            final(robot).wf(),
            (final(robot)@, seen_read(r)) == self.next(old(robot)@, event),
            r matches Progress::Continue(next, action) ==> next.wf() && action == next.awaiting(),
    {
        match self {
            ReadLoop::Updating { update } => {
                let event = match event {
                    ReadEvent::Performed(event) => event,
                    ReadEvent::Returned(_) => unreached(),
                };
                match update.resume(robot, event) {
                    Progress::Continue(update, action) => Progress::Continue(
                        ReadLoop::Updating { update },
                        ReadAction::Perform(action),
                    ),
                    Progress::Done(Ok(state)) => Progress::Continue(
                        ReadLoop::Calling { state },
                        ReadAction::Call { state },
                    ),
                    Progress::Done(Err(e)) => Progress::Done(Err(e)),
                }
            },
            ReadLoop::Calling { .. } => {
                let again = match event {
                    ReadEvent::Returned(again) => again,
                    ReadEvent::Performed(_) => unreached(),
                };
                if again {
                    Progress::Continue(
                        ReadLoop::Updating { update: robot.update_motion(None, None) },
                        ReadAction::Perform(Action::CheckConnection),
                    )
                } else {
                    Progress::Done(Ok(()))
                }
            },
        }
    }
}

/// A read loop hands every state that it received to its callback, goes on with the next one exactly
/// when the callback wants more, and ends well exactly when it does not. It never commands anything.
pub proof fn law_reading_goes_on_while_wanted(
    update: MotionUpdate,
    robot: RobotView,
    event: Event,
    state: RobotState,
    again: bool,
)
    ensures
        ({
            let (after, p) = (ReadLoop::Updating { update }).next(robot, ReadEvent::Performed(event));
            &&& after == update.next(robot, event).0
            &&& update.next(robot, event).1 matches Progress::Done(Ok(got)) ==> (
            p matches Progress::Continue(_, action) && action == (ReadAction::Call { state: got }))
            &&& update.next(robot, event).1 matches Progress::Done(Err(e)) ==> p == (
            Progress::Done::<ReadLoop, ReadAction, Result<(), ErrorView>>(Err(e)))
        }),
        ({
            let (after, p) = (ReadLoop::Calling { state }).next(robot, ReadEvent::Returned(again));
            &&& after == robot
            &&& !again ==> p == (Progress::Done::<ReadLoop, ReadAction, Result<(), ErrorView>>(
                Ok(()),
            ))
            &&& again ==> (p matches Progress::Continue(
                ReadLoop::Updating { update: next },
                action,
            ) && next == (MotionUpdate::Checking { motion: None, control: None }) && action == (
            ReadAction::Perform(Action::CheckConnection)))
        }),
{
}

/// An operation that needs the lock begins exactly when the lock is in and the operation itself can
/// begin; the lock is out afterwards exactly when it was out or the operation has begun.
pub proof fn law_lock_is_out_while_something_runs<T>(
    before: Robot,
    begun: (RobotView, Result<T, ErrorView>),
    after: Robot,
    r: Result<Locked<T>, FrankaError>,
)
    requires
        begun_locked(before, begun, after, r),
    ensures
        r is Ok <==> !before.control_locked && begun.1 is Ok,
        after.control_locked <==> before.control_locked || r is Ok,
        before.control_locked ==> after.robot@ == before.robot@,
        !before.control_locked ==> after.robot@ == begun.0,
        r matches Ok(locked) ==> begun.1 == Ok::<T, ErrorView>(locked.operation),
        before.control_locked ==> (r matches Err(e) && e@ is InvalidOperation),
{
}

/// A loop with torques asks for an external controller, one without for the robot's own; both ask
/// for the motion generator of their commands.
pub proof fn law_loops_ask_for_their_modes<M: ControlLoopMotion>(
    robot: RobotView,
    controller_mode: ControllerMode,
    limit_rate: bool,
    cutoff_frequency: Double,
)
    ensures
        ({
            let (after, r) = with_torques::<M>(robot, limit_rate, cutoff_frequency);
            &&& r is Err ==> after == robot
            &&& robot.state.running() ==> r is Err
            &&& r matches Ok(l) ==> {
                &&& after.state.current_move_controller_mode is ExternalController
                &&& after.state.current_move_motion_generator_mode == M::mode().reported()
                &&& l.setup.has_motion && l.setup.has_control
                &&& l.setup.version == robot.version
                &&& l.setup.context.limit_rate == limit_rate
                &&& l.setup.context.cutoff_frequency == cutoff_frequency
            }
        }),
        ({
            let (after, r) = with_mode::<M>(robot, controller_mode, limit_rate, cutoff_frequency);
            &&& r is Err ==> after == robot
            &&& robot.state.running() ==> r is Err
            &&& r matches Ok(l) ==> {
                &&& after.state.current_move_controller_mode is JointImpedance
                    <==> controller_mode is JointImpedance
                &&& after.state.current_move_controller_mode is CartesianImpedance
                    <==> controller_mode is CartesianImpedance
                &&& after.state.current_move_motion_generator_mode == M::mode().reported()
                &&& l.setup.has_motion && !l.setup.has_control
                &&& l.setup.version == robot.version
                &&& l.setup.context.limit_rate == limit_rate
                &&& l.setup.context.cutoff_frequency == cutoff_frequency
            }
        }),
{
}

} // verus!
