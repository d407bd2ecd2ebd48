//! Whole operations against a scripted robot.
use std::collections::{HashMap, VecDeque};

use franka::control_types::{
    motion_finished, ControllerMode as BuiltInController, JointPositions, JointVelocities, Torques,
    MAX_CUTOFF_FREQUENCY,
};
use franka::double::Double;
use franka::duration::Duration;
use franka::error::{FrankaError, MoveStatus};
use franka::errors::Errors;
use franka::rate_limiting::fer;
use franka::realtime::RealtimeConfig;
use franka::robot::active_control::{
    ActiveControl, ActiveMotionGenerator, ActiveTorqueControl, Writing,
};
use franka::robot::commands::CommandName;
use franka::robot::control_loop::runner::{
    control_torques, ControlLoop, LoopAction, LoopEnd, LoopEvent, TorqueLoop,
};
use franka::robot::control_loop::{seven, ControlLoopMotion, Shaped};
use franka::robot::locked::{Closing, LoopOver, WriteProgress};
use franka::robot::options::{VersionPolicy, VirtualWallCuboid};
use franka::robot::robot_impl::connect::{SetupAction, SetupEvent};
use franka::robot::robot_impl::exception;
use franka::robot::robot_impl::motion::{CancelMotion, StartMotion};
use franka::robot::robot_impl::operation::Operation;
use franka::robot::robot_impl::{JointVelocityLimitsConfig, RobotImpl};
use franka::robot::{Locked, ModelSource, ReadAction, ReadEvent, Robot, CONTROL_LOCK_MESSAGE};
use franka::robot_state::RobotState;
use franka::step::{Action, Event, Progress, StateDatagram};
use franka::wire::codec::{
    command_id, encode_header, robot_command, state_size, CommandKind, ControllerCommand, Deviation,
    FciVersion, MotionGeneratorCommand,
};
use franka::wire::modes::{
    ControllerMode, MotionGeneratorMode, MoveControllerMode, MoveMotionGeneratorMode, RobotMode,
    StateModes,
};

const TEST_URDF: &str = "<robot name=\"fr3\"/>";

fn d(value: f64) -> Double {
    Double { bits: value.to_bits() }
}

fn ds<const N: usize>(values: [f64; N]) -> [Double; N] {
    values.map(d)
}

fn fs<const N: usize>(values: [Double; N]) -> [f64; N] {
    values.map(|v| f64::from_bits(v.bits))
}

/// `%g` with six significant digits.
fn format_default_float(value: f64) -> String {
    exception::format_default_float(d(value), &format!("{value:.5e}")).unwrap()
}

fn datagram(version: FciVersion, modes: StateModes, state: RobotState) -> StateDatagram {
    StateDatagram {
        size: state_size(version),
        modes: Ok(modes),
        state: Ok(RobotState {
            time: Duration::from_millis(modes.message_id),
            robot_mode: RobotMode::from_u8(modes.robot_mode).unwrap_or(RobotMode::Other),
            ..state
        }),
    }
}

fn modes_of(
    message_id: u64,
    robot: RobotMode,
    motion: MotionGeneratorMode,
    controller: ControllerMode,
) -> StateModes {
    StateModes {
        message_id,
        robot_mode: robot.to_u8(),
        motion_generator_mode: motion.to_u8(),
        controller_mode: controller.to_u8(),
    }
}

/// A robot that answers from queues.
struct Mock {
    version: FciVersion,
    connect_answers: VecDeque<(u8, u16)>,
    /// Responses that are given when they are waited for, per command number.
    responses: HashMap<u32, VecDeque<Vec<u8>>>,
    /// Responses that have already arrived when they are asked for, per command number.
    early: HashMap<u32, VecDeque<Vec<u8>>>,
    /// Datagrams that have already arrived.
    arrived: VecDeque<StateDatagram>,
    /// Datagrams that arrive when they are waited for.
    coming: VecDeque<StateDatagram>,
    requests: Vec<(u32, Vec<u8>)>,
    commands: Vec<Vec<u8>>,
    ids: HashMap<u32, u32>,
    next_command_id: u32,
    next_message_id: u64,
    connection_events: Vec<&'static str>,
    alive: bool,
}

impl Mock {
    fn new(version: FciVersion) -> Mock {
        Mock {
            version,
            connect_answers: VecDeque::new(),
            responses: HashMap::new(),
            early: HashMap::new(),
            arrived: VecDeque::new(),
            coming: VecDeque::new(),
            requests: Vec::new(),
            commands: Vec::new(),
            ids: HashMap::new(),
            next_command_id: 1,
            next_message_id: 1,
            connection_events: Vec::new(),
            alive: true,
        }
    }

    fn id(&self, kind: CommandKind) -> u32 {
        command_id(self.version, kind).expect("command exists in this version")
    }

    fn respond(&mut self, kind: CommandKind, payload: &[u8]) {
        let id = self.id(kind);
        self.responses.entry(id).or_default().push_back(payload.to_vec());
    }

    fn respond_early(&mut self, kind: CommandKind, payload: &[u8]) {
        let id = self.id(kind);
        self.early.entry(id).or_default().push_back(payload.to_vec());
    }

    fn count(&self, number: u32) -> usize {
        self.requests.iter().filter(|(command, _)| *command == number).count()
    }

    fn payloads(&self, number: u32) -> Vec<Vec<u8>> {
        self.requests
            .iter()
            .filter(|(command, _)| *command == number)
            .map(|(_, payload)| payload.clone())
            .collect()
    }

    fn state(&mut self, robot: RobotMode, motion: MotionGeneratorMode, controller: ControllerMode) {
        let id = self.next_message_id;
        self.next_message_id += 1;
        let datagram = datagram(
            self.version,
            modes_of(id, robot, motion, controller),
            RobotState::default(),
        );
        self.coming.push_back(datagram);
    }

    fn idle(&mut self) {
        self.state(RobotMode::Idle, MotionGeneratorMode::Idle, ControllerMode::JointImpedance);
    }

    fn moving(&mut self, motion: MotionGeneratorMode, controller: ControllerMode) {
        self.state(RobotMode::Move, motion, controller);
    }

    fn message(&self, command: u32, command_id: u32, payload: &[u8]) -> Vec<u8> {
        let mut message = encode_header(command, command_id, payload.len() as u32);
        message.extend_from_slice(payload);
        message
    }

    fn perform(&mut self, action: Action, success_rate: String) -> Event {
        match action {
            Action::CheckConnection => Event::Connected,
            Action::CheckAlive => Event::Alive(self.alive),
            Action::Send { command, request } => {
                let payload = request.payload(self.version);
                self.requests.push((command, payload));
                let id = self.next_command_id;
                self.next_command_id += 1;
                self.ids.insert(id, command);
                Event::Sent(id)
            }
            Action::AwaitResponse { command_id } | Action::AwaitMoveEnd { command_id } => {
                let command = self.ids[&command_id];
                let payload = self.responses.get_mut(&command).and_then(|queue| queue.pop_front());
                match payload {
                    None => Event::Failed(FrankaError::Network(
                        "libfranka: TCP receive: Timeout".to_string(),
                    )),
                    Some(payload) => {
                        let message = self.message(command, command_id, &payload);
                        if let Action::AwaitMoveEnd { .. } = action {
                            Event::MoveEnd { message, success_rate }
                        } else {
                            Event::Response(message)
                        }
                    }
                }
            }
            Action::PollResponse { command_id } => {
                let command = self.ids[&command_id];
                match self.early.get_mut(&command).and_then(|queue| queue.pop_front()) {
                    None => Event::NoResponse,
                    Some(payload) => Event::Response(self.message(command, command_id, &payload)),
                }
            }
            Action::PollState => match self.arrived.pop_front() {
                None => Event::NoState,
                Some(datagram) => Event::State(datagram),
            },
            Action::AwaitState => match self.coming.pop_front() {
                None => Event::Failed(FrankaError::Network(
                    "libfranka: UDP receive: Timeout".to_string(),
                )),
                Some(datagram) => Event::State(datagram),
            },
            Action::SendCommand { data } => {
                self.commands.push(robot_command(self.version, &data));
                Event::CommandSent
            }
        }
    }

    fn rate_text(robot: &RobotImpl) -> String {
        match robot.success_rate() {
            None => String::new(),
            Some(estimate) => {
                let rate = f64::from_bits(estimate.rate.bits);
                format_default_float(rate * (1.0 - estimate.lost_packets as f64 / 100.0))
            }
        }
    }

    fn drive<O: Operation>(&mut self, robot: &mut RobotImpl, operation: O) -> Result<O::Output, FrankaError> {
        let mut operation = operation;
        loop {
            let action = operation.action();
            let event = self.perform(action, Mock::rate_text(robot));
            assert!(action.answered_by(&event));
            match operation.resume(robot, event) {
                Progress::Continue(next, _) => operation = next,
                Progress::Done(result) => return result,
            }
        }
    }

    fn drive_on<O: Operation>(
        &mut self,
        robot: &mut RobotImpl,
        progress: Progress<O, Action, Result<O::Output, FrankaError>>,
    ) -> Result<O::Output, FrankaError> {
        match progress {
            Progress::Continue(operation, _) => self.drive(robot, operation),
            Progress::Done(result) => result,
        }
    }

    /// Performs a write of a control to its end.
    fn write(
        &mut self,
        robot: &mut Robot,
        control: &mut ActiveControl,
        progress: WriteProgress<FrankaError>,
    ) -> Result<(), FrankaError> {
        let mut progress = progress;
        loop {
            match progress {
                Progress::Continue(write, action) => {
                    assert_eq!(write.action(), action);
                    let event = self.perform(action, Mock::rate_text(&robot.robot));
                    progress = robot.resume_write(control, write, event);
                }
                Progress::Done(result) => return result,
            }
        }
    }

    /// Starts torque control that the caller drives.
    fn start_torque_control(&mut self, robot: &mut Robot) -> Result<ActiveTorqueControl, FrankaError> {
        let mut locked = robot.start_torque_control()?;
        loop {
            assert!(robot.control_locked);
            let event = self.perform(locked.operation.action(), Mock::rate_text(&robot.robot));
            match robot.resume_torque_control(locked, event) {
                Progress::Continue(next, _) => locked = next,
                Progress::Done(result) => return result,
            }
        }
    }

    /// Aborts a motion that holds the lock.
    fn abort(&mut self, robot: &mut Robot, abort: Locked<CancelMotion>) {
        let mut locked = abort;
        loop {
            assert!(robot.control_locked);
            let event = self.perform(locked.operation.action(), Mock::rate_text(&robot.robot));
            match robot.resume_abort(locked, event) {
                Progress::Continue(next, _) => locked = next,
                Progress::Done(result) => return result.unwrap(),
            }
        }
    }

    fn connect_with_policy(&mut self, log_size: usize, policy: VersionPolicy) -> Result<RobotImpl, FrankaError> {
        self.connect_as(RealtimeConfig::Ignore, log_size, policy, Ok(()), true)
    }

    fn connect_as(
        &mut self,
        realtime_config: RealtimeConfig,
        log_size: usize,
        policy: VersionPolicy,
        priority: Result<(), String>,
        kernel: bool,
    ) -> Result<RobotImpl, FrankaError> {
        let mut setup = RobotImpl::new_with_policy(realtime_config, log_size, policy);
        loop {
            let action = setup.action();
            let event = match action {
                SetupAction::RaisePriority => match &priority {
                    Ok(()) => SetupEvent::Raised,
                    Err(reason) => SetupEvent::NotRaised(reason.clone()),
                },
                SetupAction::CheckKernel => SetupEvent::Kernel(kernel),
                SetupAction::Open => {
                    self.connection_events.push("accept");
                    SetupEvent::Opened { udp_port: 4711 }
                }
                SetupAction::Close => {
                    self.connection_events.push("close");
                    SetupEvent::Closed
                }
                SetupAction::Perform(action) => {
                    if let Action::Send { command: 0, .. } = action {
                        let (status, version) = self
                            .connect_answers
                            .pop_front()
                            .unwrap_or((0, self.version.number()));
                        let mut payload = vec![status];
                        payload.extend_from_slice(&version.to_le_bytes());
                        self.responses.entry(0).or_default().push_back(payload);
                    }
                    if let Action::Send { command, .. } = action {
                        if self.version == FciVersion::V10
                            && command == self.id(CommandKind::GetRobotModel)
                        {
                            let mut payload = vec![0u8];
                            payload.extend_from_slice(TEST_URDF.as_bytes());
                            self.respond(CommandKind::GetRobotModel, &payload);
                        }
                    }
                    if let Action::AwaitState = action {
                        self.idle();
                    }
                    SetupEvent::Performed(self.perform(action, String::new()))
                }
                SetupAction::ReadLimits => {
                    assert_eq!(setup.description().as_deref(), Some(TEST_URDF));
                    let zero = d(0.0);
                    SetupEvent::Limits(JointVelocityLimitsConfig {
                        lower: [zero; 7],
                        upper: [zero; 7],
                        velocity: [zero; 7],
                        deceleration: [zero; 7],
                        offset: [zero; 7],
                    })
                }
            };
            assert!(action.answered_by(&event));
            match setup.resume(event) {
                Progress::Continue(next, _) => setup = next,
                Progress::Done(result) => return result,
            }
        }
    }

    fn connect(&mut self, log_size: usize) -> RobotImpl {
        self.connect_with_policy(log_size, VersionPolicy::Exact(self.version))
            .expect("connect failed")
    }

    fn start(
        &mut self,
        robot: &mut RobotImpl,
        controller: MoveControllerMode,
        motion: MoveMotionGeneratorMode,
    ) -> Result<u32, FrankaError> {
        let start = robot.start_motion(controller, motion, deviation(), deviation())?;
        self.drive(robot, start)
    }

    fn update(
        &mut self,
        robot: &mut RobotImpl,
        motion: Option<MotionGeneratorCommand>,
        control: Option<ControllerCommand>,
    ) -> Result<RobotState, FrankaError> {
        let update = robot.update_motion(motion, control);
        self.drive(robot, update)
    }

    fn finish(
        &mut self,
        robot: &mut RobotImpl,
        motion_id: u32,
        motion: Option<MotionGeneratorCommand>,
        control: Option<ControllerCommand>,
    ) -> Result<(), FrankaError> {
        let progress = robot.finish_motion(motion_id, motion, control);
        self.drive_on(robot, progress)
    }

    fn cancel(&mut self, robot: &mut RobotImpl, motion_id: u32) -> Result<(), FrankaError> {
        let cancel = robot.cancel_motion(motion_id);
        self.drive(robot, cancel)
    }

    /// Runs a loop whose commands are not shaped.
    fn run_loop<M: ControlLoopMotion>(
        &mut self,
        robot: &mut RobotImpl,
        control_loop: ControlLoop<M>,
        motion: &mut dyn FnMut(&RobotState, Duration) -> M,
        control: &mut dyn FnMut(&RobotState, Duration) -> Torques,
        shape: &mut dyn FnMut(franka::robot::control_loop::Shaping<M::Values>) -> M::Values,
    ) -> LoopEnd<FrankaError> {
        let mut control_loop = control_loop;
        loop {
            let event = match control_loop.action() {
                LoopAction::Perform(action) => {
                    LoopEvent::Performed(self.perform(action, Mock::rate_text(robot)))
                }
                LoopAction::CallMotion { state, period } => LoopEvent::Motion(motion(&state, period)),
                LoopAction::CallControl { state, period } => {
                    LoopEvent::Control(control(&state, period))
                }
                LoopAction::ShapeMotion { shaping, .. } => LoopEvent::ShapedMotion(Shaped {
                    values: Ok(shape(shaping)),
                    homogeneous: true,
                    elbow: Ok(d(0.0)),
                }),
                LoopAction::ShapeTorques { torques, .. } => {
                    LoopEvent::ShapedTorques(Ok(torques.values))
                }
            };
            assert!(control_loop.action().answered_by(&event));
            match control_loop.resume(robot, event) {
                Progress::Continue(next, _) => control_loop = next,
                Progress::Done(end) => return end,
            }
        }
    }
}

/// The deviations that the motions of these tests are started with.
fn deviation() -> Deviation {
    Deviation::new(d(0.0), d(1.0), d(2.0))
}

/// The numbers in a command datagram.
struct Sent {
    q_c: [f64; 7],
    dq_c: [f64; 7],
    motion_generation_finished: u8,
    tau_J_d: [f64; 7],
}

fn sent(bytes: &[u8]) -> Sent {
    let number = |offset: usize| {
        f64::from_le_bytes(bytes[offset..offset + 8].try_into().expect("eight bytes"))
    };
    Sent {
        q_c: std::array::from_fn(|i| number(8 + 8 * i)),
        dq_c: std::array::from_fn(|i| number(64 + 8 * i)),
        motion_generation_finished: bytes[313],
        tau_J_d: std::array::from_fn(|i| number(314 + 8 * i)),
    }
}

// -- The state stream and the life of a motion ----------------------------------------------

#[test]
fn can_receive_reordered_robot_states_correctly() {
    let mut mock = Mock::new(FciVersion::V10);
    let mut robot = mock.connect(0);

    let idle = |id| {
        datagram(
            FciVersion::V10,
            modes_of(id, RobotMode::Idle, MotionGeneratorMode::Idle, ControllerMode::JointImpedance),
            RobotState::default(),
        )
    };
    mock.arrived.push_back(idle(2));
    let state = mock.update(&mut robot, None, None).unwrap();
    assert_eq!(state.time.as_millis(), 2);

    for id in [1u64, 4, 2, 3] {
        mock.arrived.push_back(idle(id));
    }
    let state = mock.update(&mut robot, None, None).unwrap();
    assert_eq!(state.time.as_millis(), 4);
    assert_eq!(robot.state().message_id, 4);
}

#[test]
fn throws_timeout_if_no_robot_state_arrives() {
    let mut mock = Mock::new(FciVersion::V10);
    let mut robot = mock.connect(0);
    match mock.update(&mut robot, None, None) {
        Err(FrankaError::Network(message)) => {
            assert!(message.contains("Timeout"), "unexpected message {message}")
        }
        other => panic!("expected a network timeout, got {other:?}"),
    }
}

#[test]
fn can_not_start_multiple_motions() {
    let mut mock = Mock::new(FciVersion::V10);
    let mut robot = mock.connect(0);

    mock.respond(CommandKind::Move, &[1]);
    mock.moving(MotionGeneratorMode::JointVelocity, ControllerMode::JointImpedance);
    mock.start(&mut robot, MoveControllerMode::JointImpedance, MoveMotionGeneratorMode::JointVelocity)
        .expect("first motion should start");

    for (controller, motion) in [
        (MoveControllerMode::CartesianImpedance, MoveMotionGeneratorMode::JointPosition),
        (MoveControllerMode::ExternalController, MoveMotionGeneratorMode::JointVelocity),
    ] {
        match mock.start(&mut robot, controller, motion) {
            Err(FrankaError::Control(exception)) => assert_eq!(
                exception.message,
                "libfranka robot: Attempted to start multiple motions!"
            ),
            other => panic!("expected a ControlException, got {other:?}"),
        }
    }
}

#[test]
fn can_receive_motion_rejected() {
    let mut mock = Mock::new(FciVersion::V10);
    let mut robot = mock.connect(0);

    mock.respond(CommandKind::Move, &[1]);
    // The rejection has arrived while the state still reports an idle robot.
    mock.respond_early(CommandKind::Move, &[5]);
    for _ in 0..3 {
        mock.idle();
    }
    match mock.start(
        &mut robot,
        MoveControllerMode::CartesianImpedance,
        MoveMotionGeneratorMode::CartesianVelocity,
    ) {
        Err(FrankaError::Control(exception)) => assert_eq!(
            exception.message,
            "libfranka: Move command rejected: command not possible in the current mode \
             (\"Idle\")!"
        ),
        other => panic!("expected a ControlException, got {other:?}"),
    }
    assert!(!robot.motion_generator_running());
}

#[test]
fn a_motion_that_becomes_active_later_starts_then() {
    let mut mock = Mock::new(FciVersion::V10);
    let mut robot = mock.connect(5);

    mock.respond(CommandKind::Move, &[1]);
    mock.idle();
    mock.idle();
    mock.moving(MotionGeneratorMode::JointVelocity, ControllerMode::JointImpedance);
    mock.start(&mut robot, MoveControllerMode::JointImpedance, MoveMotionGeneratorMode::JointVelocity)
        .expect("motion should start");
    assert!(mock.coming.is_empty());
    // The cycles before the start are not in the log of the motion.
    assert!(robot.success_rate().is_none());
}

fn started_cartesian(mock: &mut Mock, robot: &mut RobotImpl) -> u32 {
    mock.respond(CommandKind::Move, &[1]);
    mock.moving(MotionGeneratorMode::CartesianVelocity, ControllerMode::CartesianImpedance);
    mock.start(
        robot,
        MoveControllerMode::CartesianImpedance,
        MoveMotionGeneratorMode::CartesianVelocity,
    )
    .expect("motion should start")
}

#[test]
fn can_stop_motion() {
    let mut mock = Mock::new(FciVersion::V10);
    let mut robot = mock.connect(0);
    let motion_id = started_cartesian(&mut mock, &mut robot);
    assert!(robot.motion_generator_running());

    let motion_command = MotionGeneratorCommand::default();
    mock.moving(MotionGeneratorMode::CartesianVelocity, ControllerMode::CartesianImpedance);
    mock.update(&mut robot, Some(motion_command), None).unwrap();

    // The state goes idle, then the Move reply arrives.
    mock.state(RobotMode::Idle, MotionGeneratorMode::Idle, ControllerMode::CartesianImpedance);
    mock.respond(CommandKind::Move, &[0]);
    mock.finish(&mut robot, motion_id, Some(motion_command), None)
        .expect("motion should finish");
    assert!(!robot.motion_generator_running());

    let finished = mock.commands.iter().any(|bytes| sent(bytes).motion_generation_finished == 1);
    assert!(finished, "the last command must carry the finished flag");
    assert_eq!(robot.state().current_move_motion_generator_mode, MotionGeneratorMode::Idle);
    assert_eq!(robot.state().current_move_controller_mode, ControllerMode::Other);
}

#[test]
fn a_second_motion_started_reply_finishing_a_motion_is_a_protocol_error() {
    let mut mock = Mock::new(FciVersion::V10);
    let mut robot = mock.connect(0);
    let motion_id = started_cartesian(&mut mock, &mut robot);

    let motion_command = MotionGeneratorCommand::default();
    mock.state(RobotMode::Idle, MotionGeneratorMode::Idle, ControllerMode::CartesianImpedance);
    mock.respond(CommandKind::Move, &[1]);
    match mock.finish(&mut robot, motion_id, Some(motion_command), None) {
        Err(FrankaError::Protocol(message)) => assert_eq!(
            message,
            "libfranka: Move received unexpected motion started message."
        ),
        other => panic!("expected a ProtocolException, got {other:?}"),
    }
}

#[test]
fn stop_motion_error_throws_control_exception() {
    let mut mock = Mock::new(FciVersion::V10);
    let mut robot = mock.connect(0);
    let motion_id = started_cartesian(&mut mock, &mut robot);

    mock.state(RobotMode::Idle, MotionGeneratorMode::Idle, ControllerMode::CartesianImpedance);
    mock.respond(CommandKind::Move, &[9]);
    let motion_command = MotionGeneratorCommand::default();
    match mock.finish(&mut robot, motion_id, Some(motion_command), None) {
        Err(FrankaError::Control(exception)) => assert_eq!(
            exception.message,
            "libfranka: Move command aborted: User Stop pressed!"
        ),
        other => panic!("expected a ControlException, got {other:?}"),
    }
    assert!(!robot.motion_generator_running());
}

#[test]
fn a_reflex_at_the_end_of_a_motion_names_the_robot_still_moving() {
    let mut mock = Mock::new(FciVersion::V10);
    let mut robot = mock.connect(0);
    let motion_id = started_cartesian(&mut mock, &mut robot);
    mock.state(RobotMode::Reflex, MotionGeneratorMode::Idle, ControllerMode::CartesianImpedance);
    mock.respond(CommandKind::Move, &[8]);
    match mock.finish(&mut robot, motion_id, Some(MotionGeneratorCommand::default()), None) {
        Err(FrankaError::Control(exception)) => {
            assert_eq!(
                exception.message,
                "Motion finished commanded, but the robot is still moving! []"
            );
            assert_eq!(exception.move_status, Some(MoveStatus::ReflexAborted));
        }
        other => panic!("expected a ControlException, got {other:?}"),
    }
}

#[test]
fn finishing_without_a_command_is_refused_while_a_motion_runs() {
    for (version, expected) in [
        (FciVersion::V5, "libfranka robot: No motion generator command given!"),
        (FciVersion::V10, "libfranka robot: No motion generator or control command given!"),
    ] {
        let mut mock = Mock::new(version);
        let mut robot = mock.connect(0);
        // Nothing is running yet: there is nothing to finish.
        mock.finish(&mut robot, 1, None, None).expect("nothing to finish");
        let motion_id = started_cartesian(&mut mock, &mut robot);
        match mock.finish(&mut robot, motion_id, None, None) {
            Err(FrankaError::Control(exception)) => assert_eq!(exception.message, expected),
            other => panic!("expected a ControlException, got {other:?}"),
        }
    }
}

#[test]
fn can_cancel_motion() {
    let mut mock = Mock::new(FciVersion::V10);
    let mut robot = mock.connect(0);
    let motion_id = started_cartesian(&mut mock, &mut robot);
    assert!(robot.motion_generator_running());

    mock.respond(CommandKind::StopMove, &[0]);
    mock.moving(MotionGeneratorMode::CartesianVelocity, ControllerMode::CartesianImpedance);
    mock.state(RobotMode::Idle, MotionGeneratorMode::Idle, ControllerMode::CartesianImpedance);
    mock.respond_early(CommandKind::Move, &[2]);
    mock.cancel(&mut robot, motion_id).expect("cancel should succeed");
    assert!(!robot.motion_generator_running());
    assert!(!robot.controller_running());
    assert_eq!(mock.count(2), 1, "exactly one StopMove");
    assert!(mock.early[&1].is_empty(), "the Move reply is dropped");
    assert_eq!(robot.state().current_move_motion_generator_mode, MotionGeneratorMode::Idle);
}

#[test]
fn cancelling_over_a_closed_connection_does_nothing() {
    let mut mock = Mock::new(FciVersion::V10);
    let mut robot = mock.connect(0);
    let motion_id = started_cartesian(&mut mock, &mut robot);
    mock.alive = false;
    mock.cancel(&mut robot, motion_id).expect("nothing to do");
    assert_eq!(mock.count(2), 0);
}

#[test]
fn cancel_motion_error_throws_control_exception() {
    let mut mock = Mock::new(FciVersion::V10);
    let mut robot = mock.connect(0);
    let motion_id = started_cartesian(&mut mock, &mut robot);

    mock.respond(CommandKind::StopMove, &[1]);
    match mock.cancel(&mut robot, motion_id) {
        Err(FrankaError::Control(exception)) => assert_eq!(
            exception.message,
            "libfranka: Stop Move command rejected: command not possible in the current mode \
             (\"Move\")!"
        ),
        other => panic!("expected a ControlException, got {other:?}"),
    }
}

#[test]
fn throws_during_motion_if_error_received() {
    let mut mock = Mock::new(FciVersion::V10);
    let mut robot = mock.connect(50);

    mock.respond(CommandKind::Move, &[1]);
    mock.moving(MotionGeneratorMode::JointPosition, ControllerMode::JointImpedance);
    let motion_id = mock
        .start(&mut robot, MoveControllerMode::JointImpedance, MoveMotionGeneratorMode::JointPosition)
        .unwrap();
    assert!(robot.motion_generator_running());

    let mut flags = [false; 41];
    flags[0] = true;
    let id = mock.next_message_id;
    mock.coming.push_back(datagram(
        FciVersion::V10,
        modes_of(id, RobotMode::Reflex, MotionGeneratorMode::Idle, ControllerMode::JointImpedance),
        RobotState { last_motion_errors: Errors(flags), ..RobotState::default() },
    ));
    mock.respond(CommandKind::Move, &[8]);

    let motion_command = MotionGeneratorCommand::default();
    let robot_state = mock.update(&mut robot, Some(motion_command), None).unwrap();
    let check = robot
        .throw_on_motion_error(&robot_state, motion_id)
        .expect("the motion is over");
    match mock.drive(&mut robot, check) {
        Err(FrankaError::Control(exception)) => {
            assert!(
                exception
                    .message
                    .starts_with("libfranka: Move command aborted: motion aborted by reflex!"),
                "unexpected message {}",
                exception.message
            );
            assert!(exception.message.contains("joint_position_limits_violation"));
            assert_eq!(exception.move_status, Some(MoveStatus::ReflexAborted));
            assert!(exception.last_motion_errors.get("joint_position_limits_violation"));
            assert!(!exception.log.is_empty());
        }
        other => panic!("expected a ControlException, got {other:?}"),
    }
    assert!(!robot.motion_generator_running());
}

#[test]
fn a_successful_end_that_nobody_asked_for_is_a_protocol_error() {
    let mut mock = Mock::new(FciVersion::V10);
    let mut robot = mock.connect(0);
    let motion_id = started_cartesian(&mut mock, &mut robot);
    mock.idle();
    let state = mock.update(&mut robot, None, None).unwrap();
    let check = robot.throw_on_motion_error(&state, motion_id).expect("the motion is over");
    mock.respond(CommandKind::Move, &[0]);
    match mock.drive(&mut robot, check) {
        Err(FrankaError::Protocol(message)) => {
            assert_eq!(message, "Unexpected reply to a Move command")
        }
        other => panic!("expected a ProtocolException, got {other:?}"),
    }
}

#[test]
fn send_robot_command_preconditions() {
    let mut mock = Mock::new(FciVersion::V10);
    let mut robot = mock.connect(0);

    let motion_command = MotionGeneratorCommand::default();
    let control_command = ControllerCommand::default();

    match robot.write_once_motion(&motion_command) {
        Err(FrankaError::Control(exception)) => assert_eq!(
            exception.message,
            "libfranka robot: Trying to send motion command, but no motion generator running!"
        ),
        other => panic!("expected a ControlException, got {other:?}"),
    }
    match robot.write_once_control(&control_command) {
        Err(FrankaError::Control(exception)) => assert_eq!(
            exception.message,
            "libfranka robot: Trying to send control command, but no controller running!"
        ),
        other => panic!("expected a ControlException, got {other:?}"),
    }

    // A motion with an external controller needs both halves.
    mock.respond(CommandKind::Move, &[1]);
    mock.moving(MotionGeneratorMode::JointVelocity, ControllerMode::ExternalController);
    mock.start(&mut robot, MoveControllerMode::ExternalController, MoveMotionGeneratorMode::JointVelocity)
        .unwrap();
    match robot.write_once_motion(&motion_command) {
        Err(FrankaError::Control(exception)) => assert_eq!(
            exception.message,
            "libfranka robot: Trying to send partial robot command!"
        ),
        other => panic!("expected a ControlException, got {other:?}"),
    }
    let write = robot.write_once_motion_and_control(&motion_command, &control_command).unwrap();
    mock.drive(&mut robot, write).unwrap();
    assert_eq!(mock.commands.len(), 1);
    assert_eq!(mock.commands[0].len(), 371);
    // The command answers the newest state.
    assert_eq!(mock.commands[0][..8], robot.state().message_id.to_le_bytes());
}

// -- Torques alone, and motions that must be aborted ----------------------------------------

fn start_torque_motion(mock: &mut Mock, robot: &mut RobotImpl) -> u32 {
    mock.respond(CommandKind::Move, &[1]);
    mock.moving(MotionGeneratorMode::NoGenerator, ControllerMode::ExternalController);
    mock.start(robot, MoveControllerMode::ExternalController, MoveMotionGeneratorMode::NoGenerator)
        .expect("torque motion should start")
}

/// Every control, read and start is refused.
fn assert_locked(robot: &mut Robot) {
    let cutoff = Double { bits: MAX_CUTOFF_FREQUENCY };
    let impedance = MoveControllerMode::JointImpedance;
    for refused in [
        robot.read().map(drop),
        robot.start_torque_control().map(drop),
        robot.start_joint_position_control(impedance).map(drop),
        robot.control_torques(false, cutoff).map(drop),
        robot.control_joint_positions(BuiltInController::JointImpedance, false, cutoff).map(drop),
    ] {
        match refused {
            Err(FrankaError::InvalidOperation(message)) => assert_eq!(message, CONTROL_LOCK_MESSAGE),
            other => panic!("expected InvalidOperation, got {other:?}"),
        }
        assert!(robot.control_locked);
    }
}

#[test]
fn a_failed_finish_still_cancels_the_motion_on_drop() {
    let mut mock = Mock::new(FciVersion::V10);
    let robot = mock.connect(0);
    let mut facade = Robot::connected(robot);
    mock.respond(CommandKind::Move, &[1]);
    mock.moving(MotionGeneratorMode::NoGenerator, ControllerMode::ExternalController);
    let mut control = mock
        .start_torque_control(&mut facade)
        .expect("torque motion should start");
    for _ in 0..5 {
        mock.moving(MotionGeneratorMode::NoGenerator, ControllerMode::ExternalController);
        let read = control.read_once(&facade.robot);
        let result = mock.drive(&mut facade.robot, read);
        control.inner.apply_read(result).expect("read_once failed");
        let write = facade.write_torques(&mut control, &Torques::new(ds([0.0; 7])));
        mock.write(&mut facade, &mut control.inner, write).expect("write_once failed");
        assert_locked(&mut facade);
    }

    // The terminal Move reply is an abort, so finishing fails.
    mock.idle();
    mock.respond(CommandKind::Move, &[11]);
    let last = motion_finished(Torques::new(ds([0.0; 7])));
    let write = facade.write_torques(&mut control, &last);
    match mock.write(&mut facade, &mut control.inner, write) {
        Err(FrankaError::Control(exception)) => {
            assert_eq!(exception.message, "libfranka: Move command aborted!")
        }
        other => panic!("expected the finish to fail, got {other:?}"),
    }
    assert!(!facade.control_locked, "the lock is handed back");
    assert_eq!(mock.count(2), 0, "write_once must not cancel by itself");

    let cancel = match facade.close_control(control.inner) {
        Closing::AbortingUnlocked(cancel) => cancel,
        other => panic!("an unfinished control is aborted, got {other:?}"),
    };
    mock.respond(CommandKind::StopMove, &[0]);
    mock.idle();
    mock.drive(&mut facade.robot, cancel).unwrap();
    assert_eq!(
        mock.count(2),
        1,
        "dropping an unfinished active control must send exactly one StopMove"
    );
    assert!(!facade.robot.controller_running());
}

#[test]
fn a_control_that_is_given_up_keeps_the_lock_until_its_motion_is_aborted() {
    let mut mock = Mock::new(FciVersion::V10);
    let robot = mock.connect(0);
    let mut facade = Robot::connected(robot);
    mock.respond(CommandKind::Move, &[1]);
    mock.moving(MotionGeneratorMode::NoGenerator, ControllerMode::ExternalController);
    let control = mock.start_torque_control(&mut facade).unwrap();
    let abort = match facade.close_control(control.inner) {
        Closing::Aborting(abort) => abort,
        other => panic!("expected an abort, got {other:?}"),
    };
    assert_locked(&mut facade);
    mock.respond(CommandKind::StopMove, &[0]);
    mock.idle();
    mock.abort(&mut facade, abort);
    assert!(!facade.control_locked);
    assert_eq!(mock.count(2), 1);
}

#[test]
fn a_start_that_is_refused_after_the_move_frees_the_lock() {
    let mut mock = Mock::new(FciVersion::V10);
    let robot = mock.connect(0);
    let mut facade = Robot::connected(robot);
    mock.respond(CommandKind::Move, &[2]);
    assert!(mock.start_torque_control(&mut facade).is_err());
    assert_eq!(mock.count(1), 1, "the Move was sent");
    assert!(!facade.control_locked);
    assert!(facade.read().is_ok());
}

#[test]
fn a_finished_control_refuses_writes_and_cancels_nothing() {
    let mut mock = Mock::new(FciVersion::V10);
    let robot = mock.connect(0);
    let mut facade = Robot::connected(robot);
    mock.respond(CommandKind::Move, &[1]);
    mock.moving(MotionGeneratorMode::NoGenerator, ControllerMode::ExternalController);
    let mut control = mock
        .start_torque_control(&mut facade)
        .expect("torque control should start");
    assert_eq!(mock.count(1), 1, "one Move");
    assert_eq!(
        moved(&mock),
        (
            MoveControllerMode::ExternalController.to_u32(),
            MoveMotionGeneratorMode::NoGenerator.to_u32()
        )
    );
    assert_locked(&mut facade);

    mock.idle();
    mock.respond(CommandKind::Move, &[0]);
    let last = motion_finished(Torques::new(ds([0.5; 7])));
    let write = facade.write_torques(&mut control, &last);
    mock.write(&mut facade, &mut control.inner, write)
        .expect("the motion ends well");
    assert!(!facade.control_locked);
    // Version 10 ends a torque-only motion with the flag of the torques.
    assert_eq!(mock.commands.last().unwrap()[370], 1);
    assert_eq!(sent(mock.commands.last().unwrap()).tau_J_d, [0.5; 7]);

    // Another operation may take the lock; a late write is refused and leaves it alone.
    let lock = facade.acquire_control_lock().unwrap();
    let sent_before = mock.commands.len();
    let write = facade.write_torques(&mut control, &Torques::new(ds([0.0; 7])));
    match mock.write(&mut facade, &mut control.inner, write) {
        Err(FrankaError::Control(exception)) => assert_eq!(
            exception.message,
            "writeOnce must not be called after the motion has finished."
        ),
        other => panic!("expected a ControlException, got {other:?}"),
    }
    assert_eq!(mock.commands.len(), sent_before, "nothing is sent");
    assert!(facade.control_locked);
    facade.release_control_lock(lock);
    assert!(matches!(facade.close_control(control.inner), Closing::Closed));
    assert!(facade.acquire_control_lock().is_ok());
}

#[test]
fn an_ended_motion_generator_refuses_writes() {
    let mut mock = Mock::new(FciVersion::V10);
    let robot = mock.connect(0);
    let mut facade = Robot::connected(robot);
    let impedance = MoveControllerMode::JointImpedance;
    mock.respond(CommandKind::Move, &[1]);
    mock.moving(MotionGeneratorMode::JointPosition, ControllerMode::JointImpedance);
    let mut locked = facade.start_joint_position_control(impedance).unwrap();
    let mut control: ActiveMotionGenerator<JointPositions> = loop {
        let event = mock.perform(locked.operation.action(), String::new());
        match facade.resume_motion_control(locked, event, impedance) {
            Progress::Continue(next, _) => locked = next,
            Progress::Done(result) => break result.unwrap(),
        }
    };
    assert_locked(&mut facade);
    mock.idle();
    mock.respond(CommandKind::Move, &[0]);
    let last = motion_finished(JointPositions::new(ds([0.0; 7])));
    let write = facade.write_motion(&mut control, &last, None);
    mock.write(&mut facade, &mut control.inner, write).unwrap();
    assert!(!facade.control_locked);
    let sent_before = mock.commands.len();
    let write = facade.write_motion(&mut control, &last, None);
    match mock.write(&mut facade, &mut control.inner, write) {
        Err(FrankaError::Control(exception)) => assert_eq!(
            exception.message,
            "writeOnce must not be called after the motion has finished."
        ),
        other => panic!("expected a ControlException, got {other:?}"),
    }
    assert_eq!(mock.commands.len(), sent_before);
    assert!(!facade.control_locked);
}

#[test]
fn reads_report_the_time_since_the_read_before() {
    let mut mock = Mock::new(FciVersion::V10);
    let mut robot = mock.connect(0);
    let motion_id = start_torque_motion(&mut mock, &mut robot);
    let mut facade = Robot::connected(robot);
    let lock = facade.acquire_control_lock().unwrap();
    let mut control = ActiveTorqueControl::new(motion_id, lock);
    let mut periods = Vec::new();
    for skip in [0u64, 1, 4] {
        mock.next_message_id += skip;
        mock.moving(MotionGeneratorMode::NoGenerator, ControllerMode::ExternalController);
        let read = control.read_once(&facade.robot);
        let result = mock.drive(&mut facade.robot, read);
        let (_, period) = control.inner.apply_read(result).unwrap();
        periods.push(period.as_millis());
    }
    assert_eq!(periods, vec![0, 2, 5]);
}

#[test]
fn an_active_motion_generator_takes_torques_only_with_an_external_controller() {
    let mut mock = Mock::new(FciVersion::V10);
    let mut robot = mock.connect(0);
    let motion_id = started_cartesian(&mut mock, &mut robot);
    let mut facade = Robot::connected(robot);
    let lock = facade.acquire_control_lock().unwrap();
    let motion = JointPositions::new(ds([0.0; 7]));
    let torques = Torques::new(ds([0.0; 7]));
    let mut control: ActiveMotionGenerator<JointPositions> =
        ActiveMotionGenerator::new(motion_id, lock, MoveControllerMode::JointImpedance);
    match control.write_once(&mut facade.robot, &motion, Some(&torques)) {
        Err(FrankaError::Control(exception)) => assert_eq!(
            exception.message,
            "Torques can only be commanded in kExternalController mode."
        ),
        other => panic!("expected a ControlException, got {other:?}"),
    }
    control.controller_type = MoveControllerMode::ExternalController;
    match control.write_once(&mut facade.robot, &motion, None) {
        Err(FrankaError::Control(exception)) => assert_eq!(
            exception.message,
            "Torque command missing, please use writeOnce(const MotionGeneratorType& \
             motion_generator_input, const Torques& control_input) for external controllers."
        ),
        other => panic!("expected a ControlException, got {other:?}"),
    }
    let nan = JointPositions::new(ds([f64::NAN; 7]));
    match control.write_once(&mut facade.robot, &nan, Some(&torques)) {
        Err(FrankaError::InvalidArgument(message)) => {
            assert_eq!(message, "Commanding value is infinite or NaN.")
        }
        other => panic!("expected InvalidArgument, got {other:?}"),
    }
    // Torques that are marked as the last ones end the motion as a setpoint would.
    match control.write_once(&mut facade.robot, &motion, Some(&motion_finished(torques))) {
        Ok(Writing::Final(Progress::Continue(_, _))) => {}
        other => panic!("expected the last write, got {other:?}"),
    }
}

#[test]
fn a_panicking_control_callback_cancels_the_motion() {
    let mut mock = Mock::new(FciVersion::V10);
    let mut robot = mock.connect(0);

    mock.respond(CommandKind::Move, &[1]);
    for _ in 0..6 {
        mock.moving(MotionGeneratorMode::NoGenerator, ControllerMode::ExternalController);
    }
    let mut control_loop =
        match control_torques(&mut robot, true, Double { bits: MAX_CUTOFF_FREQUENCY }) {
            Ok(TorqueLoop::Bare(control_loop)) => control_loop,
            other => panic!("expected a loop without a motion generator, got {other:?}"),
        };
    let mut cycles = 0;
    let cancel = loop {
        let event = match control_loop.action() {
            LoopAction::Perform(action) => LoopEvent::Performed(mock.perform(action, String::new())),
            LoopAction::CallControl { .. } => {
                cycles += 1;
                if cycles == 3 {
                    // The callback panics here.
                    break control_loop.abandon();
                }
                LoopEvent::Control(Torques::new(ds([0.0; 7])))
            }
            LoopAction::ShapeTorques { torques, .. } => LoopEvent::ShapedTorques(Ok(torques.values)),
            other => panic!("unexpected action {other:?}"),
        };
        match control_loop.resume(&mut robot, event) {
            Progress::Continue(next, _) => control_loop = next,
            Progress::Done(end) => panic!("the loop ended with {end:?}"),
        }
    };
    mock.coming.clear();
    mock.respond(CommandKind::StopMove, &[0]);
    mock.idle();
    mock.drive(&mut robot, cancel.expect("the motion is on")).unwrap();
    assert_eq!(mock.count(2), 1, "a panicking callback must cancel the motion exactly once");
    assert!(!robot.controller_running());
}

#[test]
fn a_loop_holds_the_lock_until_its_motion_is_aborted() {
    for panics in [false, true] {
        let mut mock = Mock::new(FciVersion::V10);
        let robot = mock.connect(0);
        let mut facade = Robot::connected(robot);
        mock.respond(CommandKind::Move, &[1]);
        for _ in 0..3 {
            mock.moving(MotionGeneratorMode::JointPosition, ControllerMode::JointImpedance);
        }
        let cutoff = Double { bits: MAX_CUTOFF_FREQUENCY };
        let mode = BuiltInController::JointImpedance;
        let mut locked = facade.control_joint_positions(mode, false, cutoff).unwrap();
        let abort = loop {
            assert!(facade.control_locked);
            let event = match locked.operation.action() {
                LoopAction::Perform(action) => {
                    LoopEvent::Performed(mock.perform(action, String::new()))
                }
                LoopAction::CallMotion { .. } if panics => {
                    break facade.abandon_loop(locked).expect("the motion is on");
                }
                LoopAction::CallMotion { .. } => {
                    LoopEvent::Motion(JointPositions::new(ds([f64::NAN; 7])))
                }
                other => panic!("unexpected action {other:?}"),
            };
            match facade.resume_loop(locked, event) {
                Progress::Continue(next, _) => locked = next,
                Progress::Done(LoopOver::Aborting { abort, result }) => {
                    assert!(result.is_err());
                    break abort;
                }
                Progress::Done(other) => panic!("expected an abort, got {other:?}"),
            }
        };
        assert_locked(&mut facade);
        mock.coming.clear();
        mock.respond(CommandKind::StopMove, &[0]);
        mock.idle();
        mock.abort(&mut facade, abort);
        assert!(!facade.control_locked);
        assert_eq!(mock.count(2), 1);
    }
}

#[test]
fn a_loop_that_ends_well_frees_the_lock() {
    for version in [FciVersion::V5, FciVersion::V10] {
        let mut mock = Mock::new(version);
        let robot = mock.connect(0);
        let mut facade = Robot::connected(robot);
        let generator = match version {
            FciVersion::V5 => MotionGeneratorMode::JointVelocity,
            FciVersion::V10 => MotionGeneratorMode::NoGenerator,
        };
        mock.respond(CommandKind::Move, &[1]);
        for _ in 0..2 {
            mock.moving(generator, ControllerMode::ExternalController);
        }
        mock.idle();
        mock.respond(CommandKind::Move, &[0]);
        let cutoff = Double { bits: MAX_CUTOFF_FREQUENCY };
        let last = motion_finished(Torques::new(ds([0.0; 7])));
        let Locked { lock, operation } = facade.control_torques(false, cutoff).unwrap();
        let result = match operation {
            TorqueLoop::Holding(operation) => {
                let mut locked = Locked { lock, operation };
                loop {
                    assert!(facade.control_locked);
                    let event = match locked.operation.action() {
                        LoopAction::Perform(action) => {
                            LoopEvent::Performed(mock.perform(action, String::new()))
                        }
                        LoopAction::CallControl { .. } => LoopEvent::Control(last),
                        other => panic!("unexpected action {other:?}"),
                    };
                    match facade.resume_holding(locked, event) {
                        Progress::Continue(next, _) => locked = next,
                        Progress::Done(LoopOver::Ended(result)) => break result,
                        Progress::Done(other) => panic!("unexpected end {other:?}"),
                    }
                }
            }
            TorqueLoop::Bare(operation) => {
                let mut locked = Locked { lock, operation };
                loop {
                    assert!(facade.control_locked);
                    let event = match locked.operation.action() {
                        LoopAction::Perform(action) => {
                            LoopEvent::Performed(mock.perform(action, String::new()))
                        }
                        LoopAction::CallControl { .. } => LoopEvent::Control(last),
                        other => panic!("unexpected action {other:?}"),
                    };
                    match facade.resume_loop(locked, event) {
                        Progress::Continue(next, _) => locked = next,
                        Progress::Done(LoopOver::Ended(result)) => break result,
                        Progress::Done(other) => panic!("unexpected end {other:?}"),
                    }
                }
            }
        };
        result.expect("the loop ends well");
        assert!(!facade.control_locked);
    }
}

#[test]
fn an_error_in_a_loop_leaves_the_motion_to_be_cancelled() {
    let mut mock = Mock::new(FciVersion::V10);
    let mut robot = mock.connect(0);
    mock.respond(CommandKind::Move, &[1]);
    for _ in 0..3 {
        mock.moving(MotionGeneratorMode::JointPosition, ControllerMode::JointImpedance);
    }
    let control_loop = ControlLoop::<JointPositions>::new_with_motion(
        &mut robot,
        BuiltInController::JointImpedance,
        false,
        Double { bits: MAX_CUTOFF_FREQUENCY },
    )
    .unwrap();
    let mut cycles = 0;
    let end = mock.run_loop(
        &mut robot,
        control_loop,
        &mut |_, _| {
            cycles += 1;
            JointPositions::new(ds([if cycles < 2 { 0.0 } else { f64::INFINITY }; 7]))
        },
        &mut |_, _| unreachable!(),
        &mut |_| unreachable!(),
    );
    match end.result {
        Err(FrankaError::InvalidArgument(message)) => {
            assert_eq!(message, "Commanding value is infinite or NaN.")
        }
        other => panic!("expected InvalidArgument, got {other:?}"),
    }
    assert!(end.cancel.is_some());
}

#[test]
fn the_order_of_the_callbacks_depends_on_the_version() {
    for (version, expected) in [(FciVersion::V5, vec!["motion"]), (FciVersion::V10, vec!["control"])] {
        let mut mock = Mock::new(version);
        let mut robot = mock.connect(0);
        mock.respond(CommandKind::Move, &[1]);
        for _ in 0..2 {
            mock.moving(MotionGeneratorMode::JointVelocity, ControllerMode::ExternalController);
        }
        mock.idle();
        mock.respond(CommandKind::Move, &[0]);
        let control_loop = ControlLoop::<JointVelocities>::new_with_control_and_motion(
            &mut robot,
            false,
            Double { bits: MAX_CUTOFF_FREQUENCY },
        )
        .unwrap();
        // Both callbacks are done at once: the second one is not called.
        let calls = std::cell::RefCell::new(Vec::new());
        let end = mock.run_loop(
            &mut robot,
            control_loop,
            &mut |_, _| {
                calls.borrow_mut().push("motion");
                motion_finished(JointVelocities::new(ds([0.0; 7])))
            },
            &mut |_, _| {
                calls.borrow_mut().push("control");
                motion_finished(Torques::new(ds([0.0; 7])))
            },
            &mut |_| unreachable!(),
        );
        end.result.expect("the loop ends well");
        assert!(end.cancel.is_none());
        assert_eq!(calls.into_inner(), expected);
    }
}

#[test]
fn a_read_loop_ends_when_the_callback_has_had_enough() {
    let mut mock = Mock::new(FciVersion::V10);
    let robot = mock.connect(0);
    let mut facade = Robot::connected(robot);
    for _ in 0..3 {
        mock.idle();
    }
    let mut locked = facade.read().unwrap();
    let mut seen = Vec::new();
    loop {
        assert!(facade.control_locked);
        let event = match locked.operation.action() {
            ReadAction::Perform(action) => ReadEvent::Performed(mock.perform(action, String::new())),
            ReadAction::Call { state } => {
                seen.push(state.time.as_millis());
                ReadEvent::Returned(seen.len() < 3)
            }
        };
        match facade.resume_read(locked, event) {
            Progress::Continue(next, _) => locked = next,
            Progress::Done(result) => {
                result.unwrap();
                break;
            }
        }
    }
    assert_eq!(seen, vec![2, 3, 4]);
    assert!(!facade.control_locked, "the lock is free again");
    // A connection that fails frees it too, and so does a callback that panics.
    let mut locked = facade.read().unwrap();
    assert_locked(&mut facade);
    let gone = FrankaError::Network("gone".to_string());
    match facade.resume_read(locked, ReadEvent::Performed(Event::Failed(gone))) {
        Progress::Done(Err(FrankaError::Network(message))) => assert_eq!(message, "gone"),
        other => panic!("expected the failure, got {other:?}"),
    }
    assert!(!facade.control_locked);
    locked = facade.read().unwrap();
    facade.abandon(locked);
    assert!(!facade.control_locked);
}

// -- Version 5 ------------------------------------------------------------------------------

const INCOMPATIBLE: u8 = 1;

#[test]
fn v5_handshake_reports_version_5_and_parses_2373_byte_states() {
    let mut mock = Mock::new(FciVersion::V5);
    let mut robot = mock.connect(0);

    assert_eq!(robot.version(), FciVersion::V5);
    assert_eq!(robot.server_version(), 5);
    assert_eq!(state_size(FciVersion::V5), 2373);

    // Connecting consumed one state; a second one must be read just as well.
    let q = [0.1, 0.2, 0.3, 0.4, 0.5, 0.6, 0.7];
    let id = mock.next_message_id;
    mock.coming.push_back(datagram(
        FciVersion::V5,
        modes_of(id, RobotMode::Idle, MotionGeneratorMode::Idle, ControllerMode::JointImpedance),
        RobotState { q: ds(q), ..RobotState::default() },
    ));
    let reception = robot.read_once();
    let read = mock.drive(&mut robot, reception).expect("read_once failed");
    assert_eq!(read.robot_mode, RobotMode::Idle);
    assert_eq!(fs(read.q), q);

    // Version 5 has no robot description.
    match robot.get_robot_model() {
        Err(FrankaError::InvalidOperation(message)) => assert_eq!(
            message,
            "libfranka: Get Robot Model is not available on FCI version 5."
        ),
        other => panic!("expected InvalidOperation, got {other:?}"),
    }
}

#[test]
fn auto_policy_reconnects_as_v5_after_an_incompatible_v10_handshake() {
    let mut mock = Mock::new(FciVersion::V5);
    mock.connect_answers.push_back((INCOMPATIBLE, 5));
    let robot = mock
        .connect_with_policy(0, VersionPolicy::Auto)
        .expect("the Auto policy must fall back to FCI v5");

    assert_eq!(robot.version(), FciVersion::V5);
    assert_eq!(robot.server_version(), 5);
    assert_eq!(mock.count(0), 2);

    // The first TCP connection was closed before the second was opened.
    assert_eq!(mock.connection_events, vec!["accept", "close", "accept"]);

    // The rejected handshake announced 10, the accepted one 5.
    let versions: Vec<u16> = mock
        .payloads(0)
        .iter()
        .map(|payload| u16::from_le_bytes([payload[0], payload[1]]))
        .collect();
    assert_eq!(versions, vec![10, 5]);
    let ports: Vec<u16> = mock
        .payloads(0)
        .iter()
        .map(|payload| u16::from_le_bytes([payload[2], payload[3]]))
        .collect();
    assert_eq!(ports, vec![4711, 4711]);
}

#[test]
fn a_success_handshake_reporting_version_5_is_treated_as_an_fer() {
    {
        let mut mock = Mock::new(FciVersion::V5);
        mock.connect_answers.extend([(0, 5), (0, 5)]);
        let robot = mock
            .connect_with_policy(0, VersionPolicy::Auto)
            .expect("Auto must fall back on a success handshake reporting version 5");
        assert_eq!(robot.version(), FciVersion::V5);
        assert_eq!(mock.count(0), 2);
        assert_eq!(mock.connection_events, vec!["accept", "close", "accept"]);
    }

    let mut mock = Mock::new(FciVersion::V5);
    mock.connect_answers.extend([(0, 5), (0, 5)]);
    match mock.connect_with_policy(0, VersionPolicy::Exact(FciVersion::V10)) {
        Err(FrankaError::IncompatibleVersion { server_version: 5, library_version: 10 }) => {}
        Ok(_) => panic!("expected IncompatibleVersion {{5, 10}}"),
        Err(other) => panic!("expected IncompatibleVersion {{5, 10}}, got {other:?}"),
    }
}

#[test]
fn exact_v10_against_a_v5_server_is_an_incompatible_version_error() {
    let mut mock = Mock::new(FciVersion::V5);
    mock.connect_answers.extend([(INCOMPATIBLE, 5), (INCOMPATIBLE, 5)]);
    match mock.connect_with_policy(0, VersionPolicy::Exact(FciVersion::V10)) {
        Err(FrankaError::IncompatibleVersion { server_version: 5, library_version: 10 }) => {}
        Ok(_) => panic!("expected IncompatibleVersion {{5, 10}}"),
        Err(other) => panic!("expected IncompatibleVersion {{5, 10}}, got {other:?}"),
    }
    assert_eq!(mock.count(0), 1, "Exact must not retry");
}

#[test]
fn an_exact_version_is_the_one_that_is_spoken() {
    for version in [FciVersion::V5, FciVersion::V10] {
        let mut mock = Mock::new(version);
        let number = match version {
            FciVersion::V5 => 5,
            FciVersion::V10 => 10,
        };
        let robot = mock.connect_with_policy(0, VersionPolicy::Exact(version)).unwrap();
        assert_eq!(robot.version(), version);
        assert_eq!(robot.server_version(), number);
        assert_eq!(mock.count(0), 1);
    }
}

#[test]
fn connecting_fetches_the_description_under_version_10() {
    let mut mock = Mock::new(FciVersion::V10);
    let robot = mock.connect(7);
    assert_eq!(robot.robot_model_urdf(), TEST_URDF);
    assert_eq!(robot.server_version(), 10);
    assert!(robot.joint_velocity_limits().is_some());
    assert_eq!(robot.realtime_config(), RealtimeConfig::Ignore);
}

#[test]
fn any_other_version_is_reported_as_it_is() {
    let mut mock = Mock::new(FciVersion::V10);
    mock.connect_answers.push_back((INCOMPATIBLE, 7));
    match mock.connect_with_policy(0, VersionPolicy::Auto) {
        Err(FrankaError::IncompatibleVersion { server_version: 7, library_version: 10 }) => {}
        _ => panic!("expected IncompatibleVersion {{7, 10}}"),
    }
    assert_eq!(mock.connection_events, vec!["accept"]);
}

#[test]
fn realtime_is_fatal_only_where_it_is_insisted_on() {
    let refused = Err("no permission".to_string());
    let auto = VersionPolicy::Auto;
    let mut mock = Mock::new(FciVersion::V10);
    match mock.connect_as(RealtimeConfig::Enforce, 0, auto, refused.clone(), true) {
        Err(FrankaError::Realtime(message)) => assert_eq!(message, "no permission"),
        _ => panic!("expected a realtime error"),
    }
    match mock.connect_as(RealtimeConfig::Enforce, 0, auto, Ok(()), false) {
        Err(FrankaError::Realtime(message)) => assert_eq!(
            message,
            "libfranka: Running kernel does not have realtime capabilities."
        ),
        _ => panic!("expected a realtime error"),
    }
    assert!(mock.connection_events.is_empty(), "nothing was opened");
    assert!(mock.connect_as(RealtimeConfig::Ignore, 0, auto, refused, false).is_ok());
    assert!(Mock::new(FciVersion::V10)
        .connect_as(RealtimeConfig::Enforce, 0, auto, Ok(()), true)
        .is_ok());
}

#[test]
fn move_request_on_v5_is_56_bytes() {
    let mut mock = Mock::new(FciVersion::V5);
    let mut robot = mock.connect(0);

    mock.respond(CommandKind::Move, &[1]);
    mock.moving(MotionGeneratorMode::JointVelocity, ControllerMode::JointImpedance);
    mock.start(&mut robot, MoveControllerMode::JointImpedance, MoveMotionGeneratorMode::JointVelocity)
        .expect("motion should start");

    let payloads = mock.payloads(1);
    assert_eq!(payloads.len(), 1);
    assert_eq!(payloads[0].len(), 56, "v5 Move::Request is 56 bytes");
    assert_eq!(&payloads[0][0..4], &0u32.to_le_bytes()); // JointImpedance
    assert_eq!(&payloads[0][4..8], &1u32.to_le_bytes()); // JointVelocity
    assert_eq!(&payloads[0][16..24], &1.0f64.to_le_bytes());

    // Version 5 has no torque-only motion.
    match robot.start_motion(
        MoveControllerMode::ExternalController,
        MoveMotionGeneratorMode::NoGenerator,
        deviation(),
        deviation(),
    ) {
        Err(FrankaError::InvalidArgument(_)) => {}
        other => panic!("expected InvalidArgument, got {other:?}"),
    }
}

#[test]
fn torque_only_control_on_v5_sends_zero_joint_velocities_and_finishes_the_motion() {
    let mut mock = Mock::new(FciVersion::V5);
    let mut robot = mock.connect(0);

    mock.respond(CommandKind::Move, &[1]);
    for _ in 0..5 {
        mock.moving(MotionGeneratorMode::JointVelocity, ControllerMode::ExternalController);
    }
    mock.idle();
    mock.respond(CommandKind::Move, &[0]);

    let mut control_loop =
        match control_torques(&mut robot, false, Double { bits: MAX_CUTOFF_FREQUENCY }) {
            Ok(TorqueLoop::Holding(control_loop)) => control_loop,
            other => panic!("expected a loop with a motion generator, got {other:?}"),
        };
    let mut cycles = 0;
    let end = loop {
        let event = match control_loop.action() {
            LoopAction::Perform(action) => LoopEvent::Performed(mock.perform(action, String::new())),
            LoopAction::CallControl { .. } => {
                cycles += 1;
                let torques = Torques::new(ds([0.25; 7]));
                LoopEvent::Control(if cycles >= 3 { motion_finished(torques) } else { torques })
            }
            other => panic!("unexpected action {other:?}"),
        };
        match control_loop.resume_holding(&mut robot, event) {
            Progress::Continue(next, _) => control_loop = next,
            Progress::Done(end) => break end,
        }
    };
    end.result.expect("torque control should finish regularly");

    // The motion was started as JointVelocity + ExternalController.
    let payloads = mock.payloads(1);
    assert_eq!(payloads[0].len(), 56);
    assert_eq!(&payloads[0][0..4], &2u32.to_le_bytes()); // ExternalController
    assert_eq!(&payloads[0][4..8], &1u32.to_le_bytes()); // JointVelocity

    for datagram in &mock.commands {
        assert_eq!(datagram.len(), 370, "a v5 RobotCommand is 370 bytes");
    }
    let commands: Vec<Sent> = mock.commands.iter().map(|bytes| sent(bytes)).collect();
    let commanded: Vec<&Sent> = commands.iter().filter(|command| command.tau_J_d[0] != 0.0).collect();
    assert!(!commanded.is_empty(), "no torque command reached the mock");
    for command in &commanded {
        assert_eq!(command.tau_J_d, [0.25; 7]);
        assert_eq!(
            command.dq_c, [0.0; 7],
            "the joint velocity generator must command zero velocities"
        );
    }
    let last = commands.last().expect("at least one command");
    assert_eq!(
        last.motion_generation_finished, 1,
        "a v5 motion ends with motion_generation_finished"
    );
}

#[test]
fn setters_use_the_v5_command_numbering() {
    let mut mock = Mock::new(FciVersion::V5);
    let mut robot = mock.connect(0);

    mock.responses.entry(4).or_default().push_back(vec![0]);
    let call = robot
        .set_collision_behavior(
            &ds([1.0; 7]),
            &ds([2.0; 7]),
            &ds([1.0; 7]),
            &ds([2.0; 7]),
            &ds([1.0; 6]),
            &ds([2.0; 6]),
            &ds([1.0; 6]),
            &ds([2.0; 6]),
        )
        .unwrap();
    mock.drive(&mut robot, call).expect("set_collision_behavior should succeed");

    assert_eq!(mock.count(4), 1, "v5 SetCollisionBehavior is 4");
    assert_eq!(mock.count(3), 0, "3 is GetCartesianLimit on v5");
    assert_eq!(mock.payloads(4)[0].len(), 416);
    assert_eq!(CommandName::SetCollisionBehavior.command(FciVersion::V10), Some(3));
}

#[test]
fn set_filters_is_a_v5_command() {
    // On FCI v10 it is rejected before anything is sent.
    {
        let mut mock = Mock::new(FciVersion::V10);
        let robot = mock.connect(0);
        let before = mock.requests.len();
        match robot.set_filters(d(10.0), d(10.0), d(10.0), d(10.0), d(10.0)) {
            Err(FrankaError::InvalidOperation(message)) => assert_eq!(
                message,
                "libfranka: Set Filters is not available on FCI version 10."
            ),
            other => panic!("expected InvalidOperation, got {other:?}"),
        }
        assert_eq!(mock.requests.len(), before);
    }

    // On FCI v5 it goes out as command 11 with a 40-byte payload.
    let mut mock = Mock::new(FciVersion::V5);
    let mut robot = mock.connect(0);
    mock.responses.entry(11).or_default().push_back(vec![0]);
    let call = robot.set_filters(d(100.0), d(100.0), d(100.0), d(100.0), d(100.0)).unwrap();
    mock.drive(&mut robot, call).expect("set_filters should succeed");
    assert_eq!(mock.count(11), 1);
    let payload = &mock.payloads(11)[0];
    assert_eq!(payload.len(), 40);
    assert_eq!(&payload[0..8], &100.0f64.to_le_bytes());
}

#[test]
fn virtual_wall_parses_the_154_byte_response() {
    {
        let mut mock = Mock::new(FciVersion::V10);
        let robot = mock.connect(0);
        match robot.virtual_wall(1) {
            Err(FrankaError::InvalidOperation(message)) => assert_eq!(
                message,
                "libfranka: Get Cartesian Limit is not available on FCI version 10."
            ),
            other => panic!("expected InvalidOperation, got {other:?}"),
        }
    }

    let mut mock = Mock::new(FciVersion::V5);
    let mut robot = mock.connect(0);

    let mut response = vec![0u8];
    for value in [1.0f64, 2.0, 3.0] {
        response.extend_from_slice(&value.to_le_bytes());
    }
    for index in 0..16 {
        response.extend_from_slice(&(index as f64).to_le_bytes());
    }
    response.push(1);
    assert_eq!(response.len(), 154);
    mock.responses.entry(3).or_default().push_back(response.clone());
    // One byte short, and a refusal.
    mock.responses.entry(3).or_default().push_back(response[..153].to_vec());
    let mut refused = response;
    refused[0] = 2;
    mock.responses.entry(3).or_default().push_back(refused);

    let call = robot.virtual_wall(7).unwrap();
    let wall: VirtualWallCuboid =
        mock.drive(&mut robot, call).expect("virtual_wall should succeed");
    assert_eq!(wall.id, 7);
    assert_eq!(fs(wall.object_world_size), [1.0, 2.0, 3.0]);
    assert_eq!(fs(wall.p_frame), std::array::from_fn(|i| i as f64));
    assert!(wall.active);

    // The request carries the id as a little-endian i32.
    let payload = &mock.payloads(3)[0];
    assert_eq!(payload.len(), 4);
    assert_eq!(payload.as_slice(), &7i32.to_le_bytes());

    let call = robot.virtual_wall(-2).unwrap();
    match mock.drive(&mut robot, call) {
        Err(FrankaError::Protocol(message)) => {
            assert_eq!(message, "libfranka: Incorrect TCP message size.")
        }
        other => panic!("expected a ProtocolException, got {other:?}"),
    }
    assert_eq!(mock.payloads(3)[1].as_slice(), &(-2i32).to_le_bytes());
    let call = robot.virtual_wall(7).unwrap();
    match mock.drive(&mut robot, call) {
        Err(FrankaError::Command(message)) => assert_eq!(
            message,
            "libfranka: Get Cartesian Limit command rejected: invalid argument!"
        ),
        other => panic!("expected a CommandException, got {other:?}"),
    }
}

#[test]
fn an_unknown_status_byte_is_a_protocol_error_naming_the_command() {
    let mut mock = Mock::new(FciVersion::V5);
    let mut robot = mock.connect(0);

    mock.responses.entry(5).or_default().push_back(vec![3]);
    let call = robot.set_joint_impedance(&ds([3000.0; 7])).unwrap();
    match mock.drive(&mut robot, call) {
        Err(FrankaError::Protocol(message)) => assert_eq!(
            message,
            "libfranka: Unexpected response while handling Set Joint Impedance command!"
        ),
        other => panic!("expected a ProtocolException, got {other:?}"),
    }
}

#[test]
fn every_setter_has_its_own_payload() {
    let mut mock = Mock::new(FciVersion::V10);
    let mut robot = mock.connect(0);
    let calls = [
        (robot.set_joint_impedance(&ds([1.0; 7])).unwrap(), 4, 56),
        (robot.set_cartesian_impedance(&ds([1.0; 6])).unwrap(), 5, 48),
        (robot.set_guiding_mode(&[true, false, true, false, true, false], true).unwrap(), 6, 7),
        (robot.set_k(&ds([1.0; 16])).unwrap(), 7, 128),
        (robot.set_ee(&ds([1.0; 16])).unwrap(), 8, 128),
        (robot.set_load(d(1.0), &ds([1.0; 3]), &ds([1.0; 9])).unwrap(), 9, 104),
        (robot.stop().unwrap(), 2, 0),
        (robot.automatic_error_recovery().unwrap(), 10, 0),
    ];
    for (call, number, size) in calls {
        mock.responses.entry(number).or_default().push_back(vec![0]);
        mock.drive(&mut robot, call).expect("the command should succeed");
        assert_eq!(mock.payloads(number)[0].len(), size);
    }
    assert_eq!(mock.payloads(6)[0], vec![1, 0, 1, 0, 1, 0, 1]);
}

#[test]
fn refusals_name_the_command_and_the_mode() {
    let mut mock = Mock::new(FciVersion::V10);
    let mut robot = mock.connect(0);
    let expect = |mock: &mut Mock, robot: &mut RobotImpl, call, number: u32, byte: u8, text: &str| {
        mock.responses.entry(number).or_default().push_back(vec![byte]);
        match mock.drive(robot, call) {
            Err(FrankaError::Command(message)) => assert_eq!(message, text),
            other => panic!("expected a CommandException, got {other:?}"),
        }
    };
    let call = robot.set_k(&ds([1.0; 16])).unwrap();
    expect(
        &mut mock,
        &mut robot,
        call,
        7,
        3,
        "libfranka: Set EE To K command rejected due to activated safety function! Please disable \
         all safety functions. ",
    );
    let call = robot.stop().unwrap();
    expect(
        &mut mock,
        &mut robot,
        call,
        2,
        5,
        "libfranka: Stop Move command rejected: command not possible in the current mode \
         (\"Idle\")!",
    );
    let call = robot.stop().unwrap();
    expect(
        &mut mock,
        &mut robot,
        call,
        2,
        2,
        "libfranka: Move command rejected due to activated safety function! Please disable all \
         safety functions.",
    );
    let call = robot.automatic_error_recovery().unwrap();
    expect(
        &mut mock,
        &mut robot,
        call,
        10,
        3,
        "libfranka: Automatic Error Recovery command rejected: manual error recovery required!",
    );
    // An unknown mode counts as "Other", and asks about the brakes.
    mock.state(RobotMode::Other, MotionGeneratorMode::Idle, ControllerMode::Other);
    let reception = robot.read_once();
    mock.drive(&mut robot, reception).unwrap();
    let call = robot.set_k(&ds([1.0; 16])).unwrap();
    expect(
        &mut mock,
        &mut robot,
        call,
        7,
        1,
        "libfranka: Set EE To K command rejected: command not possible in the current mode \
         (\"Other\")! Did you open the brakes?",
    );
    // A response that ends with its header.
    mock.responses.entry(7).or_default().push_back(vec![]);
    let call = robot.set_k(&ds([1.0; 16])).unwrap();
    match mock.drive(&mut robot, call) {
        Err(FrankaError::Protocol(message)) => {
            assert_eq!(message, "libfranka: Incorrect TCP message size.")
        }
        other => panic!("expected a ProtocolException, got {other:?}"),
    }
}

#[test]
fn the_robot_model_is_what_follows_the_status_byte() {
    let mut mock = Mock::new(FciVersion::V10);
    let mut robot = mock.connect(0);
    let mut payload = vec![0u8];
    payload.extend_from_slice("<robot>\u{e4}</robot>".as_bytes());
    payload.push(0xff);
    mock.respond(CommandKind::GetRobotModel, &payload);
    let call = robot.get_robot_model().unwrap();
    assert_eq!(mock.drive(&mut robot, call).unwrap(), "<robot>\u{e4}</robot>\u{fffd}");
}

#[test]
fn v5_joint_velocity_limits_are_the_flat_fer_constants() {
    let mut mock = Mock::new(FciVersion::V5);
    let robot = mock.connect(0);
    for q in [[0.0; 7], [1.0, -0.5, 0.3, -2.0, 0.1, 1.5, 0.7]] {
        assert_eq!(robot.upper_joint_velocity_limits(&ds(q)), seven(fer::MAX_JOINT_VELOCITY));
        assert_eq!(robot.lower_joint_velocity_limits(&ds(q)), seven(fer::MIN_JOINT_VELOCITY));
    }
    assert!((fs(seven(fer::MAX_JOINT_VELOCITY))[0] - 2.174).abs() < 1e-12);
    let mut mock = Mock::new(FciVersion::V10);
    let robot = mock.connect(0);
    assert_eq!(fs(robot.upper_joint_velocity_limits(&ds([0.5; 7]))), [0.5; 7]);
}

#[test]
fn a_state_of_the_wrong_version_is_an_incorrect_object_size_error() {
    let mut mock = Mock::new(FciVersion::V10);
    let mut robot = mock.connect(0);
    let id = mock.next_message_id;
    mock.coming.push_back(datagram(
        FciVersion::V5,
        modes_of(id, RobotMode::Idle, MotionGeneratorMode::Idle, ControllerMode::JointImpedance),
        RobotState::default(),
    ));
    let reception = robot.read_once();
    match mock.drive(&mut robot, reception) {
        Err(FrankaError::Protocol(message)) => {
            assert_eq!(message, "libfranka: incorrect object size")
        }
        other => panic!("expected a ProtocolException, got {other:?}"),
    }
}

#[test]
fn the_first_v5_joint_position_command_is_rate_limited_against_q_d() {
    const TARGET: [f64; 7] = [1.0; 7];
    for (version, reference) in [(FciVersion::V5, [0.0; 7]), (FciVersion::V10, TARGET)] {
        let mut mock = Mock::new(version);
        let mut robot = mock.connect(0);
        mock.respond(CommandKind::Move, &[1]);
        for _ in 0..4 {
            mock.moving(MotionGeneratorMode::JointPosition, ControllerMode::JointImpedance);
        }
        mock.idle();
        mock.respond(CommandKind::Move, &[0]);

        let control_loop = ControlLoop::<JointPositions>::new_with_motion(
            &mut robot,
            BuiltInController::JointImpedance,
            true,
            Double { bits: MAX_CUTOFF_FREQUENCY },
        )
        .expect("motion should start");
        let mut cycles = 0;
        let mut references = Vec::new();
        let end = mock.run_loop(
            &mut robot,
            control_loop,
            &mut |_, _| {
                cycles += 1;
                let output = JointPositions::new(ds(TARGET));
                if cycles >= 3 {
                    motion_finished(output)
                } else {
                    output
                }
            },
            &mut |_, _| unreachable!(),
            &mut |shaping| {
                assert!(shaping.limit && !shaping.filter);
                references.push(fs(shaping.reference));
                // One step from the reference, as a limiter would take.
                ds(fs(shaping.reference).map(|q| q + 1e-4))
            },
        );
        end.result.expect("motion should finish");
        assert_eq!(references, vec![reference, [0.0; 7], [0.0; 7]]);
        let first = sent(mock.commands.first().expect("no command reached the mock"));
        assert_eq!(first.q_c, reference.map(|q| q + 1e-4));
    }
}

// -- The model library ----------------------------------------------------------------------

#[test]
fn load_model_library_reports_a_server_error_and_encodes_this_platform() {
    let mut mock = Mock::new(FciVersion::V5);
    let mut robot = mock.connect(0);
    mock.respond(CommandKind::LoadModelLibrary, &[1]);
    let call = robot.load_model_v5(0, 0).unwrap();
    match mock.drive(&mut robot, call) {
        Err(FrankaError::Model(message)) => assert_eq!(
            message,
            "libfranka: Server reports error when loading model library."
        ),
        other => panic!("expected a Model error, got {other:?}"),
    }
    assert_eq!(mock.count(13), 1, "v5 LoadModelLibrary is 13");
    let payload = &mock.payloads(13)[0];
    assert_eq!(payload.len(), 2, "LoadModelLibrary::Request is 2 bytes");
    assert_eq!(payload.as_slice(), &[0, 0], "the x86-64 Linux library was asked for");
}

#[test]
fn load_model_library_strips_exactly_the_status_byte() {
    let mut mock = Mock::new(FciVersion::V5);
    let mut robot = mock.connect(0);

    // Success, no tail: nothing to load.
    mock.respond(CommandKind::LoadModelLibrary, &[0]);
    let call = robot.load_model_v5(0, 0).unwrap();
    match mock.drive(&mut robot, call) {
        Err(FrankaError::Protocol(message)) => {
            assert_eq!(message, "libfranka: Incorrect TCP message size.")
        }
        other => panic!("expected a Protocol error for an empty library, got {other:?}"),
    }

    // Success with a tail: the tail is the library.
    let mut payload = vec![0u8];
    payload.extend_from_slice(b"\x7fELF this is not a shared object");
    mock.respond(CommandKind::LoadModelLibrary, &payload);
    let call = robot.load_model_v5(0, 0).unwrap();
    assert_eq!(mock.drive(&mut robot, call).unwrap(), payload[1..].to_vec());
    assert_eq!(mock.count(13), 2);
}

// -- Numbers in messages --------------------------------------------------------------------

#[test]
fn ostream_style_float_formatting() {
    assert_eq!(format_default_float(0.0), "0");
    assert_eq!(format_default_float(1.0), "1");
    assert_eq!(format_default_float(0.5), "0.5");
    assert_eq!(format_default_float(0.987654321), "0.987654");
    assert_eq!(format_default_float(123456.0), "123456");
    assert_eq!(format_default_float(1234567.0), "1.23457e+06");
    assert_eq!(format_default_float(-0.25), "-0.25");
    assert_eq!(format_default_float(1.5e-7), "1.5e-07");
    assert_eq!(format_default_float(-2.0e120), "-2e+120");
    assert_eq!(format_default_float(f64::NAN), "nan");
    assert_eq!(format_default_float(f64::INFINITY), "inf");
    assert_eq!(format_default_float(f64::NEG_INFINITY), "-inf");
    assert_eq!(format_default_float(-0.0), "0");
    // The style follows the exponent after rounding.
    assert_eq!(format_default_float(999999.7), "1e+06");
    assert_eq!(format_default_float(999999.4), "999999");
    assert_eq!(format_default_float(99999.96), "100000");
    assert_eq!(format_default_float(-999999.7), "-1e+06");
    assert_eq!(format_default_float(0.00009999996), "0.0001");
    assert_eq!(format_default_float(0.0000999994), "9.99994e-05");
    assert_eq!(format_default_float(0.0012345), "0.0012345");
    assert_eq!(format_default_float(12345.6), "12345.6");
    // Digits that are no scientific notation have no text.
    let one = d(1.0);
    for digits in ["", "1", "1.00000", "1.0000e0", "1.00000e", "1.00000e-", "1.00000e1234", "x.00000e0"] {
        assert_eq!(exception::format_default_float(one, digits), None, "{digits}");
    }
}

#[test]
fn the_success_rate_text_goes_into_the_exception() {
    let mut mock = Mock::new(FciVersion::V10);
    let mut robot = mock.connect(5);
    let motion_id = started_cartesian(&mut mock, &mut robot);
    let moving = |id: u64, mode, motion, rate: f64| {
        datagram(
            FciVersion::V10,
            modes_of(id, mode, motion, ControllerMode::CartesianImpedance),
            RobotState { control_command_success_rate: d(rate), ..RobotState::default() },
        )
    };
    mock.coming.push_back(moving(10, RobotMode::Move, MotionGeneratorMode::CartesianVelocity, 0.5));
    mock.coming.push_back(moving(13, RobotMode::Reflex, MotionGeneratorMode::Idle, 0.0));
    mock.update(&mut robot, None, None).unwrap();
    let state = mock.update(&mut robot, None, None).unwrap();
    mock.respond(CommandKind::Move, &[8]);
    let check = robot.throw_on_motion_error(&state, motion_id).unwrap();
    match mock.drive(&mut robot, check) {
        Err(FrankaError::Control(exception)) => {
            assert_eq!(
                exception.message,
                "libfranka: Move command aborted: motion aborted by reflex! []\n\
                 control_command_success_rate: 0.49 packets lost in a row in the last sample: 2"
            );
            let times: Vec<u64> = exception.log.iter().map(|r| r.state.time.as_millis()).collect();
            assert_eq!(times, vec![10, 13]);
        }
        other => panic!("expected a ControlException, got {other:?}"),
    }
    // The log went with the exception.
    assert!(robot.success_rate().is_none());
}

#[test]
fn a_started_motion_is_described_by_its_start() {
    let mut mock = Mock::new(FciVersion::V10);
    let mut robot = mock.connect(0);
    let start = robot
        .start_motion(
            MoveControllerMode::JointImpedance,
            MoveMotionGeneratorMode::JointPosition,
            deviation(),
            deviation(),
        )
        .unwrap();
    match start {
        StartMotion::Asking { .. } => {}
        other => panic!("expected a request, got {other:?}"),
    }
    assert_eq!(
        robot.state().current_move_motion_generator_mode,
        MotionGeneratorMode::JointPosition
    );
    match start.action() {
        Action::Send { command: 1, request } => {
            assert_eq!(request.payload(FciVersion::V10).len(), 113)
        }
        other => panic!("expected a Move, got {other:?}"),
    }
}

/// The controller and the motion generator that the last `Move` asked for.
fn moved(mock: &Mock) -> (u32, u32) {
    let payload = mock.payloads(1).pop().expect("a Move was sent");
    let word = |at: usize| u32::from_le_bytes([payload[at], payload[at + 1], payload[at + 2], payload[at + 3]]);
    (word(0), word(4))
}

#[test]
fn every_control_asks_for_its_controller_and_generator() {
    let impedance = MoveControllerMode::JointImpedance;
    let asked = |mode: MoveMotionGeneratorMode| (impedance.to_u32(), mode.to_u32());
    for mode in [
        MoveMotionGeneratorMode::JointPosition,
        MoveMotionGeneratorMode::JointVelocity,
        MoveMotionGeneratorMode::CartesianPosition,
        MoveMotionGeneratorMode::CartesianVelocity,
    ] {
        let mut mock = Mock::new(FciVersion::V10);
        let robot = mock.connect(0);
        let mut facade = Robot::connected(robot);
        mock.respond(CommandKind::Move, &[1]);
        mock.moving(mode.to_state_mode(), ControllerMode::JointImpedance);
        let locked = match mode {
            MoveMotionGeneratorMode::JointPosition => facade.start_joint_position_control(impedance),
            MoveMotionGeneratorMode::JointVelocity => facade.start_joint_velocity_control(impedance),
            MoveMotionGeneratorMode::CartesianPosition => {
                facade.start_cartesian_pose_control(impedance)
            }
            _ => facade.start_cartesian_velocity_control(impedance),
        };
        let locked = locked.expect("the control should start");
        assert!(facade.acquire_control_lock().is_err());
        mock.drive(&mut facade.robot, locked.operation).unwrap();
        assert_eq!(moved(&mock), asked(mode));
        facade.release_control_lock(locked.lock);
        assert!(facade.acquire_control_lock().is_ok());
    }
}

#[test]
fn every_loop_asks_for_its_controller_and_generator() {
    let off = Double { bits: MAX_CUTOFF_FREQUENCY };
    let own = BuiltInController::CartesianImpedance;
    fn first<V: Copy>(action: LoopAction<V>) -> Action {
        match action {
            LoopAction::Perform(action) => action,
            _ => panic!("a loop begins on the connection"),
        }
    }
    let begin = |which: usize, facade: &mut Robot| match which {
        0 => first(facade.control_joint_positions(own, true, off).unwrap().operation.action()),
        1 => first(facade.control_joint_velocities(own, true, off).unwrap().operation.action()),
        2 => first(facade.control_cartesian_pose(own, true, off).unwrap().operation.action()),
        3 => first(facade.control_cartesian_velocities(own, true, off).unwrap().operation.action()),
        4 => first(facade.control_torques_and_joint_positions(true, off).unwrap().operation.action()),
        5 => first(facade.control_torques_and_joint_velocities(true, off).unwrap().operation.action()),
        6 => first(facade.control_torques_and_cartesian_pose(true, off).unwrap().operation.action()),
        _ => first(
            facade.control_torques_and_cartesian_velocities(true, off).unwrap().operation.action(),
        ),
    };
    let modes = [
        MoveMotionGeneratorMode::JointPosition,
        MoveMotionGeneratorMode::JointVelocity,
        MoveMotionGeneratorMode::CartesianPosition,
        MoveMotionGeneratorMode::CartesianVelocity,
    ];
    for which in 0..8 {
        let mut mock = Mock::new(FciVersion::V10);
        let robot = mock.connect(0);
        let mut facade = Robot::connected(robot);
        let controller = if which < 4 {
            MoveControllerMode::CartesianImpedance
        } else {
            MoveControllerMode::ExternalController
        };
        let action = begin(which, &mut facade);
        // The lock stays taken until the loop hands it back.
        assert!(facade.acquire_control_lock().is_err());
        mock.perform(action, String::new());
        assert_eq!(moved(&mock), (controller.to_u32(), modes[which % 4].to_u32()));
    }
}

#[test]
fn the_model_comes_from_where_the_version_has_it() {
    let mut mock = Mock::new(FciVersion::V5);
    let fer = Robot::connected(mock.connect(0));
    assert!(matches!(fer.load_model(), Ok(ModelSource::NativeFer)));
    match fer.load_model_from_robot(1, 2) {
        Ok(ModelSource::Library(_)) => {}
        other => panic!("expected the library, got {other:?}"),
    }
    let mut mock = Mock::new(FciVersion::V10);
    let mut fr3 = Robot::connected(mock.connect(0));
    let call = match fr3.load_model() {
        Ok(ModelSource::Description(call)) => call,
        other => panic!("expected the description, got {other:?}"),
    };
    let mut payload = vec![0u8];
    payload.extend_from_slice(b"<robot/>");
    mock.respond(CommandKind::GetRobotModel, &payload);
    assert_eq!(mock.drive(&mut fr3.robot, call).unwrap(), "<robot/>");
    assert!(matches!(fr3.load_model_from_robot(1, 2), Ok(ModelSource::Description(_))));
}

#[test]
fn simple_collision_thresholds_count_for_all_phases() {
    let mut mock = Mock::new(FciVersion::V10);
    let mut robot = Robot::connected(mock.connect(0));
    mock.respond(CommandKind::SetCollisionBehavior, &[0]);
    let call = robot
        .set_collision_behavior_simple(ds([1.0; 7]), ds([2.0; 7]), ds([3.0; 6]), ds([4.0; 6]))
        .unwrap();
    mock.drive(&mut robot.robot, call).unwrap();
    let payload = mock.payloads(3).pop().unwrap();
    let mut expected = Vec::new();
    for (value, count) in [(1.0f64, 7), (2.0, 7), (1.0, 7), (2.0, 7), (3.0, 6), (4.0, 6), (3.0, 6), (4.0, 6)] {
        for _ in 0..count {
            expected.extend_from_slice(&value.to_le_bytes());
        }
    }
    assert_eq!(payload, expected);
}
