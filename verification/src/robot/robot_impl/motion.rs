//! The life of a motion: starting it, one control cycle, finding out that it failed, ending it
//! regularly and stopping it.
use crate::double::Double;
use crate::error;
use crate::error::{
    control_error, protocol_error, ControlException, ErrorView, FrankaError, MoveStatus,
};
use crate::errors::Errors;
use crate::robot::commands;
use crate::robot::commands::{
    handle_move_response, handle_stop_move_response, handle_terminal_move_response, CommandName,
};
use crate::robot::robot_impl::calls::Exchange;
use crate::robot::robot_impl::exception::{create_control_exception, success_rate_of, SuccessRate};
use crate::robot::robot_impl::operation;
use crate::robot::robot_impl::operation::Operation;
use crate::robot::robot_impl::receive::StateReception;
use crate::robot::robot_impl::{RobotImpl, RobotView, State};
use crate::robot_state::RobotState;
use crate::step::{Action, Event, Progress};
use crate::wire::codec;
use crate::wire::codec::{
    command_log, status_byte, CommandKind, ControllerCommand, Deviation, FciVersion,
    MotionGeneratorCommand, RobotCommandData,
};
use crate::wire::modes::{
    ControllerMode, MotionGeneratorMode, MoveControllerMode, MoveMotionGeneratorMode, RobotMode,
};
use crate::wire::request::Request;
use vstd::pervasive::unreached;
use vstd::prelude::*;

verus! {

// -- One command ----------------------------------------------------------------------------

impl State {
    /// The command that goes out for a motion command and a control command, or why it does not.
    /// Nothing goes out for neither. Each half needs what the running `Move` asked for, and a
    /// motion with an external controller needs both.
    pub open spec fn composed(
        self,
        motion: Option<MotionGeneratorCommand>,
        control: Option<ControllerCommand>,
    ) -> Result<RobotCommandData, ErrorView> {
        let generating = self.current_move_motion_generator_mode.generating();
        let external = self.current_move_controller_mode == ControllerMode::ExternalController;
        if motion is None && control is None {
            Ok(RobotCommandData::blank())
        } else if motion is Some && !generating {
            Err(
                error::bare_control(
                    "libfranka robot: Trying to send motion command, but no motion generator running!"@,
                ),
            )
        } else if control is Some && !external {
            Err(
                error::bare_control(
                    "libfranka robot: Trying to send control command, but no controller running!"@,
                ),
            )
        } else if generating && external && (motion is None || control is None) {
            Err(error::bare_control("libfranka robot: Trying to send partial robot command!"@))
        } else {
            Ok(
                RobotCommandData {
                    message_id: self.message_id,
                    motion: match motion {
                        Some(motion) => motion,
                        None => MotionGeneratorCommand::blank(),
                    },
                    control: match control {
                        Some(control) => control,
                        None => ControllerCommand::blank(),
                    },
                },
            )
        }
    }
}

/// A motion with an external controller never goes without torques, nor without a setpoint of its
/// motion generator where it has one.
pub proof fn law_no_partial_command(
    state: State,
    motion: Option<MotionGeneratorCommand>,
    control: Option<ControllerCommand>,
)
    requires
        state.current_move_controller_mode == ControllerMode::ExternalController,
        state.current_move_motion_generator_mode.generating(),
        motion is Some || control is Some,
    ensures
        state.composed(motion, control) is Ok <==> motion is Some && control is Some,
{
}

/// Sending one command outside a control loop.
#[derive(Clone, Copy, PartialEq, Debug)]
pub struct CommandWrite {
    /// The command.
    pub data: RobotCommandData,
}

impl Operation for CommandWrite {
    type Output = ();

    /// Nothing is asked of its parts.
    open spec fn wf(self) -> bool {
        true
    }

    /// What is wanted next.
    open spec fn awaiting(self) -> Action {
        Action::SendCommand { data: self.data }
    }

    /// What is wanted next.
    fn action(&self) -> (a: Action) {
        Action::SendCommand { data: self.data }
    }

    /// It ends when the command is sent.
    open spec fn next(self, robot: RobotView, event: Event) -> (
        RobotView,
        Progress<CommandWrite, Action, Result<(), ErrorView>>,
    ) {
        match event {
            Event::Failed(e) => (robot, Progress::Done(Err(e@))),
            _ => (robot, Progress::Done(Ok(()))),
        }
    }

    /// Goes on after an event.
    fn resume(self, robot: &mut RobotImpl, event: Event) -> (r: Progress<
        CommandWrite,
        Action,
        Result<(), FrankaError>,
    >) {
        match event {
            Event::Failed(e) => Progress::Done(Err(e)),
            _ => Progress::Done(Ok(())),
        }
    }
}

// -- One cycle ------------------------------------------------------------------------------

/// One control cycle: send the command, wait for the next state, log both.
#[derive(Debug)]
pub enum MotionUpdate {
    /// The connection is to be checked.
    Checking { motion: Option<MotionGeneratorCommand>, control: Option<ControllerCommand> },
    /// The command is to be sent.
    Sending { data: RobotCommandData },
    /// The next state is to be received.
    Receiving { data: RobotCommandData, reception: StateReception },
}

/// How a cycle goes on.
pub type UpdateProgress<E> = Progress<MotionUpdate, Action, Result<RobotState, E>>;

impl MotionUpdate {
    /// Waiting for the state that follows a command.
    pub open spec fn receiving(robot: RobotView, data: RobotCommandData) -> (
        RobotView,
        UpdateProgress<ErrorView>,
    ) {
        let reception = StateReception::begun(robot.state.message_id);
        (
            robot,
            Progress::Continue(MotionUpdate::Receiving { data, reception }, reception.awaiting()),
        )
    }

    /// Starts waiting for the state that follows a command.
    fn receive(robot: &RobotImpl, data: RobotCommandData) -> (r: UpdateProgress<FrankaError>)
        ensures
            (robot@, operation::seen(r)) == MotionUpdate::receiving(robot@, data),
            r matches Progress::Continue(next, action) && next.wf() && action == next.awaiting(),
    {
        let reception = StateReception::new(robot.state().message_id);
        Progress::Continue(MotionUpdate::Receiving { data, reception }, Action::PollState)
    }
}

impl Operation for MotionUpdate {
    type Output = RobotState;

    /// The parts are in order.
    open spec fn wf(self) -> bool {
        self matches MotionUpdate::Receiving { reception, .. } ==> reception.wf()
    }

    /// What is wanted next.
    open spec fn awaiting(self) -> Action {
        match self {
            MotionUpdate::Checking { .. } => Action::CheckConnection,
            MotionUpdate::Sending { data } => Action::SendCommand { data },
            MotionUpdate::Receiving { reception, .. } => reception.awaiting(),
        }
    }

    /// What is wanted next.
    fn action(&self) -> (a: Action) {
        match self {
            MotionUpdate::Checking { .. } => Action::CheckConnection,
            MotionUpdate::Sending { data } => Action::SendCommand { data: *data },
            MotionUpdate::Receiving { reception, .. } => reception.action(),
        }
    }

    /// How the cycle goes on after an event.
    open spec fn next(self, robot: RobotView, event: Event) -> (
        RobotView,
        UpdateProgress<ErrorView>,
    ) {
        match event {
            Event::Failed(e) => (robot, Progress::Done(Err(e@))),
            _ => match self {
                MotionUpdate::Checking { motion, control } => match robot.state.composed(
                    motion,
                    control,
                ) {
                    Err(e) => (robot, Progress::Done(Err(e))),
                    Ok(data) => if motion is None && control is None {
                        MotionUpdate::receiving(robot, data)
                    } else {
                        (
                            robot,
                            Progress::Continue(
                                MotionUpdate::Sending { data },
                                Action::SendCommand { data },
                            ),
                        )
                    },
                },
                MotionUpdate::Sending { data } => MotionUpdate::receiving(robot, data),
                MotionUpdate::Receiving { data, reception } => match reception.next(robot, event) {
                    (after, Progress::Continue(reception, action)) => (
                        after,
                        Progress::Continue(MotionUpdate::Receiving { data, reception }, action),
                    ),
                    (after, Progress::Done(Err(e))) => (after, Progress::Done(Err(e))),
                    (after, Progress::Done(Ok(state))) => (
                        after.logged(state, data),
                        Progress::Done(Ok(state)),
                    ),
                },
            },
        }
    }

    /// Goes on after an event.
    fn resume(self, robot: &mut RobotImpl, event: Event) -> (r: UpdateProgress<FrankaError>)
    {
        match self {
            MotionUpdate::Checking { motion, control } => {
                if let Event::Failed(e) = event {
                    return Progress::Done(Err(e));
                }
                match robot.send_robot_command(motion, control) {
                    Err(e) => Progress::Done(Err(e)),
                    Ok(data) => if motion.is_none() && control.is_none() {
                        MotionUpdate::receive(robot, data)
                    } else {
                        Progress::Continue(
                            MotionUpdate::Sending { data },
                            Action::SendCommand { data },
                        )
                    },
                }
            },
            MotionUpdate::Sending { data } => {
                if let Event::Failed(e) = event {
                    return Progress::Done(Err(e));
                }
                MotionUpdate::receive(robot, data)
            },
            MotionUpdate::Receiving { data, reception } => match reception.resume(robot, event) {
                Progress::Continue(reception, action) => Progress::Continue(
                    MotionUpdate::Receiving { data, reception },
                    action,
                ),
                Progress::Done(Err(e)) => Progress::Done(Err(e)),
                Progress::Done(Ok(state)) => {
                    robot.log_cycle(&state, &data);
                    Progress::Done(Ok(state))
                },
            },
        }
    }
}


impl RobotView {
    /// The session after one cycle was logged.
    pub open spec fn logged(self, state: RobotState, data: RobotCommandData) -> RobotView {
        self.with_log(
            crate::robot::logger::newest(
                self.log.push(
                    crate::robot_state::Record { state, command: Some(data.logged()) },
                ),
                self.log_size,
            ),
        )
    }
}

// -- Statuses -------------------------------------------------------------------------------

/// The status that a response to a `Move` carries.
pub open spec fn move_status_in(version: FciVersion, message: Seq<u8>) -> Result<
    MoveStatus,
    ErrorView,
> {
    match codec::status_of(message) {
        Err(e) => Err(e),
        Ok(byte) => codec::known(
            codec::move_status_of(version, byte),
            CommandKind::Move.shown(),
        ),
    }
}

/// The status that a response to a `StopMove` carries.
pub open spec fn stop_move_status_in(version: FciVersion, message: Seq<u8>) -> Result<
    codec::StopMoveStatus,
    ErrorView,
> {
    match codec::status_of(message) {
        Err(e) => Err(e),
        Ok(byte) => codec::known(
            codec::stop_move_status_of(version, byte),
            CommandKind::StopMove.shown(),
        ),
    }
}

/// A refused command as the exception of a motion; other errors stay what they are.
pub open spec fn as_exception(result: Result<(), ErrorView>) -> Result<(), ErrorView> {
    match result {
        Err(ErrorView::Command(text)) => Err(error::bare_control(text)),
        other => other,
    }
}

/// A refused command as the exception of a motion; other errors stay what they are.
fn into_exception(result: Result<(), FrankaError>) -> (r: Result<(), FrankaError>)
    ensures
        error::seen(r) == as_exception(error::seen(result)),
{
    match result {
        Ok(()) => Ok(()),
        Err(FrankaError::Command(text)) => Err(FrankaError::Control(ControlException::new(text))),
        Err(other) => Err(other),
    }
}

impl RobotView {
    /// What an abnormal end of a motion comes to: the exception takes the log with it, unless the
    /// robot broke the protocol.
    pub open spec fn ended_by(
        self,
        error: ErrorView,
        status: MoveStatus,
        errors: Errors,
        success_rate: Seq<char>,
    ) -> (RobotView, ErrorView) {
        match error {
            ErrorView::Command(text) => {
                let (after, exception) = self.excepted(text, status, errors, success_rate);
                (after, ErrorView::Control(exception))
            },
            other => (self, other),
        }
    }
}

// -- Errors during a motion -----------------------------------------------------------------

/// Finding out why a motion is over that should be running.
#[derive(Clone, Copy, PartialEq, Debug)]
pub struct MotionErrorCheck {
    /// Number of the `Move`.
    pub motion_id: u32,
    /// The errors that the state reported.
    pub errors: Errors,
}

impl Operation for MotionErrorCheck {
    type Output = ();

    /// Nothing is asked of its parts.
    open spec fn wf(self) -> bool {
        true
    }

    /// What is wanted next.
    open spec fn awaiting(self) -> Action {
        Action::AwaitMoveEnd { command_id: self.motion_id }
    }

    /// What is wanted next.
    fn action(&self) -> (a: Action) {
        Action::AwaitMoveEnd { command_id: self.motion_id }
    }

    /// It ends with the reason why the motion is over, by its terminal response.
    open spec fn next(self, robot: RobotView, event: Event) -> (
        RobotView,
        Progress<MotionErrorCheck, Action, Result<(), ErrorView>>,
    ) {
        let (after, error) = match event {
            Event::MoveEnd { message, success_rate } => match move_status_in(
                robot.version,
                message@,
            ) {
                Err(e) => (robot, e),
                Ok(status) => match commands::move_reply(status, true, robot.state.robot_mode) {
                    Err(e) => robot.ended_by(e, status, self.errors, success_rate@),
                    Ok(_) => (robot, ErrorView::Protocol("Unexpected reply to a Move command"@)),
                },
            },
            Event::Failed(e) => (robot, e@),
            _ => (robot, ErrorView::Protocol("Unexpected reply to a Move command"@)),
        };
        (after, Progress::Done(Err(error)))
    }

    /// Goes on after an event.
    fn resume(self, robot: &mut RobotImpl, event: Event) -> (r: Progress<
        MotionErrorCheck,
        Action,
        Result<(), FrankaError>,
    >) {
        match event {
            Event::MoveEnd { message, success_rate } => {
                let status = match robot.move_status(message.as_slice()) {
                    Ok(status) => status,
                    Err(e) => {
                        return Progress::Done(Err(e));
                    },
                };
                match handle_terminal_move_response(robot, status) {
                    Err(e) => Progress::Done(
                        Err(robot.end_by(e, status, self.errors, success_rate.as_str())),
                    ),
                    Ok(()) => Progress::Done(
                        Err(protocol_error("Unexpected reply to a Move command")),
                    ),
                }
            },
            Event::Failed(e) => Progress::Done(Err(e)),
            _ => unreached(),
        }
    }
}

// -- Starting -------------------------------------------------------------------------------

/// Starting a motion: send `Move`, wait until it is accepted, then cycle until the state reports
/// the modes that were asked for.
#[derive(Debug)]
pub enum StartMotion {
    /// The `Move` is on its way.
    Asking { exchange: Exchange },
    /// The motion was accepted and is not active yet; an early end is looked for.
    Polling { motion_id: u32 },
    /// The motion was accepted and is not active yet; the next state is received.
    Updating { motion_id: u32, update: MotionUpdate },
}

/// How a start goes on.
pub type StartProgress<E> = Progress<StartMotion, Action, Result<u32, E>>;

impl StartMotion {
    /// The motion has started: the log is emptied for it.
    pub open spec fn started(robot: RobotView, motion_id: u32) -> (
        RobotView,
        StartProgress<ErrorView>,
    ) {
        (robot.with_log(Seq::empty()), Progress::Done(Ok(motion_id)))
    }

    /// After the motion was accepted: it has started once the state says so.
    pub open spec fn accepted(robot: RobotView, motion_id: u32) -> (
        RobotView,
        StartProgress<ErrorView>,
    ) {
        if robot.state.active() {
            StartMotion::started(robot, motion_id)
        } else {
            let polling = StartMotion::Polling { motion_id };
            (robot, Progress::Continue(polling, polling.awaiting()))
        }
    }

    /// Ends the start, or looks on, after the motion was accepted.
    fn accept(robot: &mut RobotImpl, motion_id: u32) -> (r: StartProgress<FrankaError>)
        requires
            old(robot).wf(),
        ensures
            final(robot).wf(),
            (final(robot)@, operation::seen(r)) == StartMotion::accepted(old(robot)@, motion_id),
            r matches Progress::Continue(next, action) ==> next.wf() && action == next.awaiting(),
    {
        if robot.state().move_active() {
            robot.clear_log();
            Progress::Done(Ok(motion_id))
        } else {
            Progress::Continue(
                StartMotion::Polling { motion_id },
                Action::PollResponse { command_id: motion_id },
            )
        }
    }
}

impl Operation for StartMotion {
    type Output = u32;

    /// The parts are in order.
    open spec fn wf(self) -> bool {
        self matches StartMotion::Updating { update, .. } ==> update.wf()
    }

    /// What is wanted next.
    open spec fn awaiting(self) -> Action {
        match self {
            StartMotion::Asking { exchange } => exchange.awaiting(),
            StartMotion::Polling { motion_id } => Action::PollResponse { command_id: motion_id },
            StartMotion::Updating { update, .. } => update.awaiting(),
        }
    }

    /// What is wanted next.
    fn action(&self) -> (a: Action) {
        match self {
            StartMotion::Asking { exchange } => exchange.action(),
            StartMotion::Polling { motion_id } => Action::PollResponse { command_id: *motion_id },
            StartMotion::Updating { update, .. } => update.action(),
        }
    }

    /// How the start goes on after an event.
    open spec fn next(self, robot: RobotView, event: Event) -> (
        RobotView,
        StartProgress<ErrorView>,
    ) {
        match event {
            Event::Failed(e) => (robot, Progress::Done(Err(e@))),
            _ => match self {
                StartMotion::Asking { exchange } => match exchange.next(event) {
                    Progress::Continue(exchange, action) => (
                        robot,
                        Progress::Continue(StartMotion::Asking { exchange }, action),
                    ),
                    Progress::Done(Err(e)) => (robot, Progress::Done(Err(e@))),
                    Progress::Done(Ok(message)) => match move_status_in(robot.version, message@) {
                        Err(e) => (robot, Progress::Done(Err(e))),
                        Ok(status) => match commands::move_reply(
                            status,
                            robot.state.generating(),
                            robot.state.robot_mode,
                        ) {
                            Err(e) => (robot, Progress::Done(Err(e))),
                            Ok(_) => StartMotion::accepted(
                                robot,
                                exchange->Receiving_command_id,
                            ),
                        },
                    },
                },
                StartMotion::Polling { motion_id } => match event {
                    Event::Response(message) => match move_status_in(robot.version, message@) {
                        Err(e) => (robot, Progress::Done(Err(e))),
                        Ok(status) => match as_exception(
                            commands::move_reply(
                                status,
                                robot.state.generating(),
                                robot.state.robot_mode,
                            ),
                        ) {
                            Err(e) => (robot, Progress::Done(Err(e))),
                            Ok(_) => StartMotion::started(robot, motion_id),
                        },
                    },
                    _ => {
                        let update = MotionUpdate::Checking { motion: None, control: None };
                        (
                            robot,
                            Progress::Continue(
                                StartMotion::Updating { motion_id, update },
                                update.awaiting(),
                            ),
                        )
                    },
                },
                StartMotion::Updating { motion_id, update } => match update.next(robot, event) {
                    (after, Progress::Continue(update, action)) => (
                        after,
                        Progress::Continue(StartMotion::Updating { motion_id, update }, action),
                    ),
                    (after, Progress::Done(Err(e))) => (after, Progress::Done(Err(e))),
                    (after, Progress::Done(Ok(_))) => StartMotion::accepted(after, motion_id),
                },
            },
        }
    }

    /// Goes on after an event.
    fn resume(self, robot: &mut RobotImpl, event: Event) -> (r: StartProgress<FrankaError>)
    {
        match self {
            StartMotion::Asking { exchange } => match exchange.resume(event) {
                Progress::Continue(exchange, action) => Progress::Continue(
                    StartMotion::Asking { exchange },
                    action,
                ),
                Progress::Done(Err(e)) => Progress::Done(Err(e)),
                Progress::Done(Ok(message)) => {
                    let motion_id: u32 = match exchange {
                        Exchange::Receiving { command_id } => command_id,
                        Exchange::Sending { .. } => unreached(),
                    };
                    let status = match robot.move_status(message.as_slice()) {
                        Ok(status) => status,
                        Err(e) => {
                            return Progress::Done(Err(e));
                        },
                    };
                    match handle_move_response(robot, status) {
                        Ok(()) => StartMotion::accept(robot, motion_id),
                        Err(e) => Progress::Done(Err(e)),
                    }
                },
            },
            StartMotion::Polling { motion_id } => match event {
                Event::Failed(e) => Progress::Done(Err(e)),
                Event::Response(message) => {
                    let status = match robot.move_status(message.as_slice()) {
                        Ok(status) => status,
                        Err(e) => {
                            return Progress::Done(Err(e));
                        },
                    };
                    match into_exception(handle_move_response(robot, status)) {
                        Ok(()) => {
                            robot.clear_log();
                            Progress::Done(Ok(motion_id))
                        },
                        Err(e) => Progress::Done(Err(e)),
                    }
                },
                _ => Progress::Continue(
                    StartMotion::Updating {
                        motion_id,
                        update: MotionUpdate::Checking { motion: None, control: None },
                    },
                    Action::CheckConnection,
                ),
            },
            StartMotion::Updating { motion_id, update } => match update.resume(robot, event) {
                Progress::Continue(update, action) => Progress::Continue(
                    StartMotion::Updating { motion_id, update },
                    action,
                ),
                Progress::Done(Err(e)) => Progress::Done(Err(e)),
                Progress::Done(Ok(_)) => StartMotion::accept(robot, motion_id),
            },
        }
    }
}


// -- Ending ---------------------------------------------------------------------------------

/// Ending a motion regularly: repeat the last command with its finished flag until the robot has
/// left the motion, then claim the terminal response.
///
/// The response may arrive while the state still reports the motion, or afterwards; it is looked at
/// only afterwards.
#[derive(Debug)]
pub enum FinishMotion {
    /// The last command is being repeated.
    Repeating {
        motion_id: u32,
        motion: Option<MotionGeneratorCommand>,
        control: Option<ControllerCommand>,
        update: MotionUpdate,
    },
    /// The robot has left the motion.
    Claiming { motion_id: u32, errors: Errors },
}

/// How an end goes on.
pub type FinishProgress<E> = Progress<FinishMotion, Action, Result<(), E>>;

impl FinishMotion {
    /// Repeating the last command once more.
    pub open spec fn repeating(
        motion_id: u32,
        motion: Option<MotionGeneratorCommand>,
        control: Option<ControllerCommand>,
    ) -> FinishProgress<ErrorView> {
        let update = MotionUpdate::Checking { motion, control };
        Progress::Continue(
            FinishMotion::Repeating { motion_id, motion, control, update },
            update.awaiting(),
        )
    }

    /// What the terminal status of the motion comes to. Only success ends it well, and then the
    /// session forgets the motion.
    pub open spec fn judged(
        robot: RobotView,
        status: MoveStatus,
        errors: Errors,
        success_rate: Seq<char>,
    ) -> (RobotView, FinishProgress<ErrorView>) {
        if status == MoveStatus::ReflexAborted {
            let (after, exception) = robot.excepted(
                "Motion finished commanded, but the robot is still moving!"@,
                status,
                errors,
                success_rate,
            );
            (after, Progress::Done(Err(ErrorView::Control(exception))))
        } else {
            match commands::move_reply(status, true, robot.state.robot_mode) {
                Ok(_) => (robot.with_state(robot.state.released()), Progress::Done(Ok(()))),
                Err(e) => {
                    let (after, e) = robot.ended_by(e, status, errors, success_rate);
                    (after, Progress::Done(Err(e)))
                },
            }
        }
    }

    /// Repeats the last command once more.
    fn repeat(
        motion_id: u32,
        motion: Option<MotionGeneratorCommand>,
        control: Option<ControllerCommand>,
    ) -> (r: FinishProgress<FrankaError>)
        ensures
            operation::seen(r) == FinishMotion::repeating(motion_id, motion, control),
            r matches Progress::Continue(next, action) ==> next.wf() && action == next.awaiting(),
    {
        Progress::Continue(
            FinishMotion::Repeating {
                motion_id,
                motion,
                control,
                update: MotionUpdate::Checking { motion, control },
            },
            Action::CheckConnection,
        )
    }

    /// Decides how the motion ended.
    fn judge(robot: &mut RobotImpl, status: MoveStatus, errors: Errors, success_rate: &str) -> (r:
        FinishProgress<FrankaError>)
        requires
            old(robot).wf(),
        ensures
            final(robot).wf(),
            (final(robot)@, operation::seen(r)) == FinishMotion::judged(
                old(robot)@,
                status,
                errors,
                success_rate@,
            ),
            r is Done,
    {
        if status == MoveStatus::ReflexAborted {
            return Progress::Done(
                Err(
                    robot.create_control_exception(
                        "Motion finished commanded, but the robot is still moving!",
                        status,
                        errors,
                        success_rate,
                    ),
                ),
            );
        }
        match handle_terminal_move_response(robot, status) {
            Ok(()) => {
                robot.release_motion();
                Progress::Done(Ok(()))
            },
            Err(e) => Progress::Done(Err(robot.end_by(e, status, errors, success_rate))),
        }
    }
}

impl Operation for FinishMotion {
    type Output = ();

    /// The parts are in order.
    open spec fn wf(self) -> bool {
        self matches FinishMotion::Repeating { update, .. } ==> update.wf()
    }

    /// What is wanted next.
    open spec fn awaiting(self) -> Action {
        match self {
            FinishMotion::Repeating { update, .. } => update.awaiting(),
            FinishMotion::Claiming { motion_id, .. } => Action::AwaitMoveEnd {
                command_id: motion_id,
            },
        }
    }

    /// What is wanted next.
    fn action(&self) -> (a: Action) {
        match self {
            FinishMotion::Repeating { update, .. } => update.action(),
            FinishMotion::Claiming { motion_id, .. } => Action::AwaitMoveEnd {
                command_id: *motion_id,
            },
        }
    }

    /// How the end goes on after an event.
    open spec fn next(self, robot: RobotView, event: Event) -> (
        RobotView,
        FinishProgress<ErrorView>,
    ) {
        match self {
            FinishMotion::Repeating { motion_id, motion, control, update } => match update.next(
                robot,
                event,
            ) {
                (after, Progress::Continue(update, action)) => (
                    after,
                    Progress::Continue(
                        FinishMotion::Repeating { motion_id, motion, control, update },
                        action,
                    ),
                ),
                (after, Progress::Done(Err(e))) => (after, Progress::Done(Err(e))),
                (after, Progress::Done(Ok(state))) => if after.state.running() {
                    (after, FinishMotion::repeating(motion_id, motion, control))
                } else {
                    let claiming = FinishMotion::Claiming {
                        motion_id,
                        errors: state.last_motion_errors,
                    };
                    (after, Progress::Continue(claiming, claiming.awaiting()))
                },
            },
            FinishMotion::Claiming { errors, .. } => match event {
                Event::MoveEnd { message, success_rate } => match move_status_in(
                    robot.version,
                    message@,
                ) {
                    Err(e) => (robot, Progress::Done(Err(e))),
                    Ok(status) => FinishMotion::judged(robot, status, errors, success_rate@),
                },
                Event::Failed(e) => (robot, Progress::Done(Err(e@))),
                _ => (robot, Progress::Continue(self, self.awaiting())),
            },
        }
    }

    /// Goes on after an event.
    fn resume(self, robot: &mut RobotImpl, event: Event) -> (r: FinishProgress<FrankaError>)
    {
        match self {
            FinishMotion::Repeating { motion_id, motion, control, update } => match update.resume(
                robot,
                event,
            ) {
                Progress::Continue(update, action) => Progress::Continue(
                    FinishMotion::Repeating { motion_id, motion, control, update },
                    action,
                ),
                Progress::Done(Err(e)) => Progress::Done(Err(e)),
                Progress::Done(Ok(state)) => {
                    if robot.motion_generator_running() || robot.controller_running() {
                        FinishMotion::repeat(motion_id, motion, control)
                    } else {
                        Progress::Continue(
                            FinishMotion::Claiming { motion_id, errors: state.last_motion_errors },
                            Action::AwaitMoveEnd { command_id: motion_id },
                        )
                    }
                },
            },
            FinishMotion::Claiming { motion_id, errors } => match event {
                Event::MoveEnd { message, success_rate } => match robot.move_status(
                    message.as_slice(),
                ) {
                    Ok(status) => FinishMotion::judge(robot, status, errors, success_rate.as_str()),
                    Err(e) => Progress::Done(Err(e)),
                },
                Event::Failed(e) => Progress::Done(Err(e)),
                _ => unreached(),
            },
        }
    }
}


// -- Stopping -------------------------------------------------------------------------------

/// Aborting a motion: send one `StopMove`, wait until the robot is idle again, and drop the
/// response to the `Move` if it has arrived.
#[derive(Debug)]
pub enum CancelMotion {
    /// The connection is to be looked at.
    Looking { motion_id: u32 },
    /// The `StopMove` is on its way.
    Stopping { motion_id: u32, exchange: Exchange },
    /// The robot comes to rest.
    Settling { motion_id: u32, reception: StateReception },
    /// The response to the `Move` is dropped.
    Dropping { motion_id: u32 },
}

/// How an abort goes on.
pub type CancelProgress<E> = Progress<CancelMotion, Action, Result<(), E>>;

impl CancelMotion {
    /// Waiting for the next state.
    pub open spec fn settling(robot: RobotView, motion_id: u32) -> CancelProgress<ErrorView> {
        let reception = StateReception::begun(robot.state.message_id);
        Progress::Continue(CancelMotion::Settling { motion_id, reception }, reception.awaiting())
    }

    /// Waits for the next state.
    fn settle(robot: &RobotImpl, motion_id: u32) -> (r: CancelProgress<FrankaError>)
        ensures
            operation::seen(r) == CancelMotion::settling(robot@, motion_id),
            r matches Progress::Continue(next, action) ==> next.wf() && action == next.awaiting(),
    {
        let reception = StateReception::new(robot.state().message_id);
        Progress::Continue(CancelMotion::Settling { motion_id, reception }, Action::PollState)
    }
}

impl Operation for CancelMotion {
    type Output = ();

    /// The parts are in order.
    open spec fn wf(self) -> bool {
        self matches CancelMotion::Settling { reception, .. } ==> reception.wf()
    }

    /// What is wanted next.
    open spec fn awaiting(self) -> Action {
        match self {
            CancelMotion::Looking { .. } => Action::CheckAlive,
            CancelMotion::Stopping { exchange, .. } => exchange.awaiting(),
            CancelMotion::Settling { reception, .. } => reception.awaiting(),
            CancelMotion::Dropping { motion_id } => Action::PollResponse { command_id: motion_id },
        }
    }

    /// What is wanted next.
    fn action(&self) -> (a: Action) {
        match self {
            CancelMotion::Looking { .. } => Action::CheckAlive,
            CancelMotion::Stopping { exchange, .. } => exchange.action(),
            CancelMotion::Settling { reception, .. } => reception.action(),
            CancelMotion::Dropping { motion_id } => Action::PollResponse { command_id: *motion_id },
        }
    }

    /// How the abort goes on after an event.
    open spec fn next(self, robot: RobotView, event: Event) -> (
        RobotView,
        CancelProgress<ErrorView>,
    ) {
        match event {
            Event::Failed(e) => (robot, Progress::Done(Err(e@))),
            _ => match self {
                CancelMotion::Looking { motion_id } => match event {
                    Event::Alive(true) => match robot.numbered(CommandKind::StopMove) {
                        Err(e) => (robot, Progress::Done(Err(e))),
                        Ok(command) => {
                            let exchange = Exchange::Sending { command, request: Request::StopMove };
                            (
                                robot,
                                Progress::Continue(
                                    CancelMotion::Stopping { motion_id, exchange },
                                    exchange.awaiting(),
                                ),
                            )
                        },
                    },
                    _ => (robot, Progress::Done(Ok(()))),
                },
                CancelMotion::Stopping { motion_id, exchange } => match exchange.next(event) {
                    Progress::Continue(exchange, action) => (
                        robot,
                        Progress::Continue(CancelMotion::Stopping { motion_id, exchange }, action),
                    ),
                    Progress::Done(Err(e)) => (robot, Progress::Done(Err(e@))),
                    Progress::Done(Ok(message)) => match stop_move_status_in(
                        robot.version,
                        message@,
                    ) {
                        Err(e) => (robot, Progress::Done(Err(e))),
                        Ok(status) => match as_exception(
                            commands::stop_move_reply(status, robot.state.robot_mode),
                        ) {
                            Err(e) => (robot, Progress::Done(Err(e))),
                            Ok(_) => (robot, CancelMotion::settling(robot, motion_id)),
                        },
                    },
                },
                CancelMotion::Settling { motion_id, reception } => match reception.next(
                    robot,
                    event,
                ) {
                    (after, Progress::Continue(reception, action)) => (
                        after,
                        Progress::Continue(CancelMotion::Settling { motion_id, reception }, action),
                    ),
                    (after, Progress::Done(Err(e))) => (after, Progress::Done(Err(e))),
                    (after, Progress::Done(Ok(_))) => if after.state.running() {
                        (after, CancelMotion::settling(after, motion_id))
                    } else {
                        let dropping = CancelMotion::Dropping { motion_id };
                        (after, Progress::Continue(dropping, dropping.awaiting()))
                    },
                },
                CancelMotion::Dropping { .. } => (
                    robot.with_state(robot.state.released()),
                    Progress::Done(Ok(())),
                ),
            },
        }
    }

    /// Goes on after an event.
    fn resume(self, robot: &mut RobotImpl, event: Event) -> (r: CancelProgress<FrankaError>)
    {
        match self {
            CancelMotion::Looking { motion_id } => match event {
                Event::Failed(e) => Progress::Done(Err(e)),
                Event::Alive(alive) => {
                    if !alive {
                        return Progress::Done(Ok(()));
                    }
                    match robot.command_id(CommandName::StopMove) {
                        Err(e) => Progress::Done(Err(e)),
                        Ok(command) => Progress::Continue(
                            CancelMotion::Stopping {
                                motion_id,
                                exchange: Exchange::Sending { command, request: Request::StopMove },
                            },
                            Action::Send { command, request: Request::StopMove },
                        ),
                    }
                },
                _ => unreached(),
            },
            CancelMotion::Stopping { motion_id, exchange } => match exchange.resume(event) {
                Progress::Continue(exchange, action) => Progress::Continue(
                    CancelMotion::Stopping { motion_id, exchange },
                    action,
                ),
                Progress::Done(Err(e)) => Progress::Done(Err(e)),
                Progress::Done(Ok(message)) => {
                    let status = match robot.stop_move_status(message.as_slice()) {
                        Ok(status) => status,
                        Err(e) => {
                            return Progress::Done(Err(e));
                        },
                    };
                    match into_exception(handle_stop_move_response(robot, status)) {
                        Ok(()) => CancelMotion::settle(robot, motion_id),
                        Err(e) => Progress::Done(Err(e)),
                    }
                },
            },
            CancelMotion::Settling { motion_id, reception } => match reception.resume(
                robot,
                event,
            ) {
                Progress::Continue(reception, action) => Progress::Continue(
                    CancelMotion::Settling { motion_id, reception },
                    action,
                ),
                Progress::Done(Err(e)) => Progress::Done(Err(e)),
                Progress::Done(Ok(_)) => {
                    if robot.motion_generator_running() || robot.controller_running() {
                        CancelMotion::settle(robot, motion_id)
                    } else {
                        Progress::Continue(
                            CancelMotion::Dropping { motion_id },
                            Action::PollResponse { command_id: motion_id },
                        )
                    }
                },
            },
            CancelMotion::Dropping { motion_id } => {
                if let Event::Failed(e) = event {
                    return Progress::Done(Err(e));
                }
                robot.release_motion();
                Progress::Done(Ok(()))
            },
        }
    }
}


// -- The session ----------------------------------------------------------------------------

impl RobotView {
    /// How a motion is started: refused when the version has no such motion or one is running;
    /// otherwise the session remembers what was asked for, and asks.
    pub open spec fn starting(
        self,
        controller_mode: MoveControllerMode,
        motion_generator_mode: MoveMotionGeneratorMode,
        maximum_path_deviation: Deviation,
        maximum_goal_pose_deviation: Deviation,
    ) -> (RobotView, Result<StartMotion, ErrorView>) {
        let request = Request::Move {
            controller_mode,
            motion_generator_mode,
            maximum_path_deviation,
            maximum_goal_pose_deviation,
        };
        if self.version == FciVersion::V5 && motion_generator_mode
            == MoveMotionGeneratorMode::NoGenerator {
            (
                self,
                Err(
                    ErrorView::InvalidArgument(
                        "libfranka: FCI version 5 has no torque-only motion generator mode."@,
                    ),
                ),
            )
        } else {
            match self.numbered(CommandKind::Move) {
                Err(e) => (self, Err(e)),
                Ok(command) => if self.state.running() {
                    (
                        self,
                        Err(
                            error::bare_control(
                                "libfranka robot: Attempted to start multiple motions!"@,
                            ),
                        ),
                    )
                } else {
                    (
                        self.with_state(
                            State {
                                current_move_motion_generator_mode: motion_generator_mode.reported(),
                                current_move_controller_mode: controller_mode.reported(),
                                ..self.state
                            },
                        ),
                        Ok(
                            StartMotion::Asking { exchange: Exchange::Sending { command, request } },
                        ),
                    )
                },
            }
        }
    }

    /// How a motion is ended: at once when none is running; otherwise its last command is repeated
    /// with the finished flag of the motion generator or, under version 10 without one, of the
    /// torques.
    pub open spec fn finishing(
        self,
        motion_id: u32,
        motion: Option<MotionGeneratorCommand>,
        control: Option<ControllerCommand>,
    ) -> (RobotView, FinishProgress<ErrorView>) {
        if !self.state.running() {
            (self.with_state(self.state.released()), Progress::Done(Ok(())))
        } else {
            match motion {
                Some(motion) => (
                    self,
                    FinishMotion::repeating(
                        motion_id,
                        Some(
                            MotionGeneratorCommand { motion_generation_finished: true, ..motion },
                        ),
                        control,
                    ),
                ),
                None => if self.version == FciVersion::V5 {
                    (
                        self,
                        Progress::Done(
                            Err(
                                error::bare_control(
                                    "libfranka robot: No motion generator command given!"@,
                                ),
                            ),
                        ),
                    )
                } else {
                    match control {
                        Some(control) => (
                            self,
                            FinishMotion::repeating(
                                motion_id,
                                None,
                                Some(ControllerCommand { torque_command_finished: true, ..control }),
                            ),
                        ),
                        None => (
                            self,
                            Progress::Done(
                                Err(
                                    error::bare_control(
                                        "libfranka robot: No motion generator or control command given!"@,
                                    ),
                                ),
                            ),
                        ),
                    }
                },
            }
        }
    }

    /// Whether a state shows that a motion is over that should be running.
    pub open spec fn failing(self, robot_state: RobotState) -> bool {
        robot_state.robot_mode != RobotMode::Move || !self.state.active()
    }
}

impl RobotImpl {
    /// The command that goes out for a motion command and a control command.
    pub fn send_robot_command(
        &self,
        motion_command: Option<MotionGeneratorCommand>,
        control_command: Option<ControllerCommand>,
    ) -> (r: Result<RobotCommandData, FrankaError>)
        ensures
            error::seen(r) == self@.state.composed(motion_command, control_command),
    {
        let mut data = RobotCommandData::default();
        if motion_command.is_none() && control_command.is_none() {
            return Ok(data);
        }
        let state = self.state();
        let generating = state.current_move_motion_generator_mode != MotionGeneratorMode::Idle
            && state.current_move_motion_generator_mode != MotionGeneratorMode::NoGenerator;
        let external = state.current_move_controller_mode == ControllerMode::ExternalController;
        data.message_id = state.message_id;
        if let Some(motion) = motion_command {
            if !generating {
                return Err(
                    control_error(
                        "libfranka robot: Trying to send motion command, but no motion generator running!",
                    ),
                );
            }
            data.motion = motion;
        }
        if let Some(control) = control_command {
            if !external {
                return Err(
                    control_error(
                        "libfranka robot: Trying to send control command, but no controller running!",
                    ),
                );
            }
            data.control = control;
        }
        if generating && external && (motion_command.is_none() || control_command.is_none()) {
            return Err(control_error("libfranka robot: Trying to send partial robot command!"));
        }
        Ok(data)
    }

    /// Begins one control cycle.
    pub fn update_motion(
        &self,
        motion_command: Option<MotionGeneratorCommand>,
        control_command: Option<ControllerCommand>,
    ) -> (r: MotionUpdate)
        ensures
            r == (MotionUpdate::Checking { motion: motion_command, control: control_command }),
            r.wf(),
    {
        MotionUpdate::Checking { motion: motion_command, control: control_command }
    }

    /// Begins to wait for the next state, without sending a command.
    pub fn read_once(&self) -> (r: StateReception)
        ensures
            r == StateReception::begun(self@.state.message_id),
            r.wf(),
    {
        StateReception::new(self.state().message_id)
    }

    /// Looks for a motion that is over though it should be running. There is nothing to do when the
    /// state shows it running.
    pub fn throw_on_motion_error(&self, robot_state: &RobotState, motion_id: u32) -> (r: Option<
        MotionErrorCheck,
    >)
        ensures
            r == (if self@.failing(*robot_state) {
                Some(MotionErrorCheck { motion_id, errors: robot_state.last_motion_errors })
            } else {
                None
            }),
            r is None <==> robot_state.robot_mode is Move && self@.state.motion_generator_mode
                == self@.state.current_move_motion_generator_mode && self@.state.controller_mode
                == self@.state.current_move_controller_mode,
    {
        if robot_state.robot_mode != RobotMode::Move || !self.state().move_active() {
            Some(MotionErrorCheck { motion_id, errors: robot_state.last_motion_errors })
        } else {
            None
        }
    }

    /// Begins to start a motion.
    ///
    /// Refused when version 5 is asked for a torque-only motion, which it does not have, and when a
    /// motion is running.
    pub fn start_motion(
        &mut self,
        controller_mode: MoveControllerMode,
        motion_generator_mode: MoveMotionGeneratorMode,
        maximum_path_deviation: Deviation,
        maximum_goal_pose_deviation: Deviation,
    ) -> (r: Result<StartMotion, FrankaError>)
        requires
            old(self).wf(),
        ensures
            final(self).wf(),
            (final(self)@, error::seen(r)) == old(self)@.starting(
                controller_mode,
                motion_generator_mode,
                maximum_path_deviation,
                maximum_goal_pose_deviation,
            ),
            r matches Ok(start) ==> start.wf(),
    {
        if self.version == FciVersion::V5 && motion_generator_mode
            == MoveMotionGeneratorMode::NoGenerator {
            return Err(
                FrankaError::InvalidArgument(
                    String::from_str(
                        "libfranka: FCI version 5 has no torque-only motion generator mode.",
                    ),
                ),
            );
        }
        let command: u32 = match self.command_id(CommandName::Move) {
            Ok(command) => command,
            Err(e) => {
                return Err(e);
            },
        };
        if self.state.motion_generator_running() || self.state.controller_running() {
            return Err(control_error("libfranka robot: Attempted to start multiple motions!"));
        }
        self.state.current_move_motion_generator_mode = motion_generator_mode.to_state_mode();
        self.state.current_move_controller_mode = controller_mode.to_state_mode();
        Ok(
            StartMotion::Asking {
                exchange: Exchange::Sending {
                    command,
                    request: Request::Move {
                        controller_mode,
                        motion_generator_mode,
                        maximum_path_deviation,
                        maximum_goal_pose_deviation,
                    },
                },
            },
        )
    }

    /// The motion generator that a torque-only motion runs with: none under version 10; version 5
    /// has no such mode, and runs one that commands zero joint velocities.
    pub fn torque_only_motion_mode(&self) -> (r: MoveMotionGeneratorMode)
        ensures
            r == (match self@.version {
                FciVersion::V5 => MoveMotionGeneratorMode::JointVelocity,
                FciVersion::V10 => MoveMotionGeneratorMode::NoGenerator,
            }),
            r is NoGenerator <==> self@.version is V10,
            r is JointVelocity <==> self@.version is V5,
    {
        match self.version {
            FciVersion::V5 => MoveMotionGeneratorMode::JointVelocity,
            FciVersion::V10 => MoveMotionGeneratorMode::NoGenerator,
        }
    }

    /// The command that goes out for the torques of a torque-only motion.
    pub fn write_once_torque_only(&self, control: &ControllerCommand) -> (r: Result<
        CommandWrite,
        FrankaError,
    >)
        ensures
            error::seen(r) == self@.writing(
                match self@.version {
                    FciVersion::V5 => Some(MotionGeneratorCommand::blank()),
                    FciVersion::V10 => None,
                },
                Some(*control),
            ),
    {
        match self.version {
            FciVersion::V5 => {
                let motion = MotionGeneratorCommand::default();
                self.write_once_motion_and_control(&motion, control)
            },
            FciVersion::V10 => self.write_once_control(control),
        }
    }

    /// Begins to end a torque-only motion.
    pub fn finish_torque_only(&mut self, motion_id: u32, control: &ControllerCommand) -> (r:
        FinishProgress<FrankaError>)
        requires
            old(self).wf(),
        ensures
            final(self).wf(),
            (final(self)@, operation::seen(r)) == old(self)@.finishing(
                motion_id,
                match old(self)@.version {
                    FciVersion::V5 => Some(MotionGeneratorCommand::blank()),
                    FciVersion::V10 => None,
                },
                Some(*control),
            ),
            r matches Progress::Continue(next, action) ==> next.wf() && action == next.awaiting(),
    {
        match self.version {
            FciVersion::V5 => {
                let motion = MotionGeneratorCommand::default();
                self.finish_motion(motion_id, Some(motion), Some(*control))
            },
            FciVersion::V10 => self.finish_motion(motion_id, None, Some(*control)),
        }
    }

    /// Begins to end a motion regularly.
    pub fn finish_motion(
        &mut self,
        motion_id: u32,
        motion_command: Option<MotionGeneratorCommand>,
        control_command: Option<ControllerCommand>,
    ) -> (r: FinishProgress<FrankaError>)
        requires
            old(self).wf(),
        ensures
            final(self).wf(),
            (final(self)@, operation::seen(r)) == old(self)@.finishing(
                motion_id,
                motion_command,
                control_command,
            ),
            r matches Progress::Continue(next, action) ==> next.wf() && action == next.awaiting(),
    {
        if !self.state.motion_generator_running() && !self.state.controller_running() {
            self.state.release();
            return Progress::Done(Ok(()));
        }
        match motion_command {
            Some(motion) => {
                let mut motion = motion;
                motion.motion_generation_finished = true;
                FinishMotion::repeat(motion_id, Some(motion), control_command)
            },
            None => {
                if self.version == FciVersion::V5 {
                    return Progress::Done(
                        Err(control_error("libfranka robot: No motion generator command given!")),
                    );
                }
                match control_command {
                    Some(control) => {
                        let mut control = control;
                        control.torque_command_finished = true;
                        FinishMotion::repeat(motion_id, None, Some(control))
                    },
                    None => Progress::Done(
                        Err(
                            control_error(
                                "libfranka robot: No motion generator or control command given!",
                            ),
                        ),
                    ),
                }
            },
        }
    }

    /// Begins to abort a motion.
    pub fn cancel_motion(&self, motion_id: u32) -> (r: CancelMotion)
        ensures
            r == (CancelMotion::Looking { motion_id }),
            r.wf(),
    {
        CancelMotion::Looking { motion_id }
    }

    /// The command that goes out for torques alone.
    pub fn write_once_control(&self, control: &ControllerCommand) -> (r: Result<
        CommandWrite,
        FrankaError,
    >)
        ensures
            error::seen(r) == self@.writing(None, Some(*control)),
    {
        match self.send_robot_command(None, Some(*control)) {
            Ok(data) => Ok(CommandWrite { data }),
            Err(e) => Err(e),
        }
    }

    /// The command that goes out for a setpoint alone.
    pub fn write_once_motion(&self, motion: &MotionGeneratorCommand) -> (r: Result<
        CommandWrite,
        FrankaError,
    >)
        ensures
            error::seen(r) == self@.writing(Some(*motion), None),
    {
        match self.send_robot_command(Some(*motion), None) {
            Ok(data) => Ok(CommandWrite { data }),
            Err(e) => Err(e),
        }
    }

    /// The command that goes out for a setpoint and torques.
    pub fn write_once_motion_and_control(
        &self,
        motion: &MotionGeneratorCommand,
        control: &ControllerCommand,
    ) -> (r: Result<CommandWrite, FrankaError>)
        ensures
            error::seen(r) == self@.writing(Some(*motion), Some(*control)),
    {
        match self.send_robot_command(Some(*motion), Some(*control)) {
            Ok(data) => Ok(CommandWrite { data }),
            Err(e) => Err(e),
        }
    }

    /// The status that a response to a `Move` carries.
    pub fn move_status(&self, message: &[u8]) -> (r: Result<MoveStatus, FrankaError>)
        ensures
            error::seen(r) == move_status_in(self@.version, message@),
    {
        match status_byte(message) {
            Ok(byte) => codec::parse_move_status(self.version, byte, CommandKind::Move.name()),
            Err(e) => Err(e),
        }
    }

    /// The status that a response to a `StopMove` carries.
    pub fn stop_move_status(&self, message: &[u8]) -> (r: Result<codec::StopMoveStatus, FrankaError>)
        ensures
            error::seen(r) == stop_move_status_in(self@.version, message@),
    {
        match status_byte(message) {
            Ok(byte) => codec::parse_stop_move_status(
                self.version,
                byte,
                CommandKind::StopMove.name(),
            ),
            Err(e) => Err(e),
        }
    }

    /// What the log says of the connection; its text goes with [`Event::MoveEnd`].
    pub fn success_rate(&self) -> (r: Option<SuccessRate>)
        requires
            self.wf(),
        ensures
            r == crate::robot::robot_impl::exception::rate_of(self@.log),
    {
        match self.logger.last_two() {
            Some((before, last)) => Some(
                crate::robot::robot_impl::exception::rate_between(&before, &last),
            ),
            None => None,
        }
    }

    /// Builds the exception of a motion that ended abnormally. The log goes with it.
    fn create_control_exception(
        &mut self,
        message: &str,
        move_status: MoveStatus,
        reflex_errors: Errors,
        success_rate: &str,
    ) -> (r: FrankaError)
        requires
            old(self).wf(),
        ensures
            final(self).wf(),
            (final(self)@, r@) == ({
                let (after, exception) = old(self)@.excepted(
                    message@,
                    move_status,
                    reflex_errors,
                    success_rate@,
                );
                (after, ErrorView::Control(exception))
            }),
    {
        let log = self.logger.flush();
        FrankaError::Control(
            create_control_exception(message, move_status, reflex_errors, log, success_rate),
        )
    }

    /// What an abnormal end of a motion comes to.
    fn end_by(
        &mut self,
        error: FrankaError,
        status: MoveStatus,
        errors: Errors,
        success_rate: &str,
    ) -> (r: FrankaError)
        requires
            old(self).wf(),
        ensures
            final(self).wf(),
            (final(self)@, r@) == old(self)@.ended_by(error@, status, errors, success_rate@),
    {
        match error {
            FrankaError::Command(text) => self.create_control_exception(
                text.as_str(),
                status,
                errors,
                success_rate,
            ),
            other => other,
        }
    }

    /// Adds a cycle to the log.
    fn log_cycle(&mut self, state: &RobotState, data: &RobotCommandData)
        requires
            old(self).wf(),
        ensures
            final(self).wf(),
            final(self)@ == old(self)@.logged(*state, *data),
    {
        let command = command_log(data);
        self.logger.log(state, &command);
    }

    /// Empties the log.
    fn clear_log(&mut self)
        requires
            old(self).wf(),
        ensures
            final(self).wf(),
            final(self)@ == old(self)@.with_log(Seq::empty()),
    {
        let _ = self.logger.flush();
    }

    /// Forgets the motion.
    fn release_motion(&mut self)
        requires
            old(self).wf(),
        ensures
            final(self).wf(),
            final(self)@ == old(self)@.with_state(old(self)@.state.released()),
    {
        self.state.release();
    }
}

impl RobotView {
    /// The command that goes out outside a control loop, or why it does not.
    pub open spec fn writing(
        self,
        motion: Option<MotionGeneratorCommand>,
        control: Option<ControllerCommand>,
    ) -> Result<CommandWrite, ErrorView> {
        match self.state.composed(motion, control) {
            Ok(data) => Ok(CommandWrite { data }),
            Err(e) => Err(e),
        }
    }
}

} // verus!
