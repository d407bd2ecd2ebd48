//! What holds of whole operations, whatever the robot answers.
use crate::error::{ErrorView, MoveStatus};
use crate::robot::robot_impl::calls::Exchange;
use crate::robot::robot_impl::motion;
use crate::robot::robot_impl::motion::{CancelMotion, FinishMotion, MotionUpdate, StartMotion};
use crate::robot::robot_impl::operation;
use crate::robot::robot_impl::operation::Operation;
use crate::robot::robot_impl::receive::StateReception;
use crate::robot::robot_impl::{RobotView, State};
use crate::robot_state::RobotState;
use crate::step::{Action, Event, Progress};
use crate::wire::codec::{ControllerCommand, MotionGeneratorCommand};
use crate::wire::modes::{ControllerMode, MotionGeneratorMode};
use crate::wire::request::Request;
use crate::robot::commands;
use crate::robot::robot_impl::motion::MotionErrorCheck;
use crate::wire::codec;
use crate::wire::codec::{Deviation, RobotCommandData};
use crate::wire::modes::{MoveControllerMode, MoveMotionGeneratorMode};
use crate::errors::Errors;
use crate::error::FrankaError;
use vstd::prelude::*;

verus! {

/// What a session is connected to does not change.
pub open spec fn same_session(a: RobotView, b: RobotView) -> bool {
    &&& a.version == b.version
    &&& a.ri_version == b.ri_version
    &&& a.realtime_config == b.realtime_config
    &&& a.log_size == b.log_size
    &&& a.joint_velocity_limits == b.joint_velocity_limits
    &&& a.urdf == b.urdf
}

/// The motion that was asked for is the same.
pub open spec fn same_request(a: State, b: State) -> bool {
    &&& a.current_move_motion_generator_mode == b.current_move_motion_generator_mode
    &&& a.current_move_controller_mode == b.current_move_controller_mode
}

/// Receiving states changes neither the connection nor the motion that was asked for, and the
/// number of the newest state does not go back.
pub proof fn law_reception_keeps(reception: StateReception, robot: RobotView, event: Event)
    requires
        reception.wf(),
        reception.last_message_id >= robot.state.message_id,
    ensures
        ({
            let after = reception.next(robot, event).0;
            &&& same_session(after, robot)
            &&& same_request(after.state, robot.state)
            &&& after.log == robot.log
            &&& after.state.message_id >= robot.state.message_id
        }),
{
}

/// A control cycle changes neither the connection nor the motion that was asked for.
pub proof fn law_update_keeps(update: MotionUpdate, robot: RobotView, event: Event)
    ensures
        ({
            let after = update.next(robot, event).0;
            &&& same_session(after, robot)
            &&& same_request(after.state, robot.state)
        }),
{
}

/// A cycle that ends well has received the state that it ends with, and has logged it with the
/// command that was sent.
pub proof fn law_update_logs_its_state(
    update: MotionUpdate,
    robot: RobotView,
    event: Event,
    state: RobotState,
)
    requires
        update.next(robot, event).1 == (Progress::Done::<
            MotionUpdate,
            Action,
            Result<RobotState, ErrorView>,
        >(Ok(state))),
        robot.log_size > 0,
    ensures
        update is Receiving,
        ({
            let after = update.next(robot, event).0;
            &&& after.log.len() > 0
            &&& after.log.last() == (crate::robot_state::Record {
                state,
                command: Some(update->Receiving_data.logged()),
            })
        }),
{
}

/// While the terminal response of a finished motion is waited for, nothing moves the robot.
proof fn lemma_finish_runs(
    finish: FinishMotion,
    robot: RobotView,
    events: Seq<Event>,
)
    requires
        finish is Repeating,
    ensures
        same_session(operation::run(finish, robot, events).0, robot),
        operation::run(finish, robot, events).1 matches Progress::Continue(now, _) ==> (
        now is Claiming ==> !operation::run(finish, robot, events).0.state.running()),
    decreases events.len(),
{
    if events.len() > 0 {
        lemma_finish_runs(finish, robot, events.drop_last());
        let (between, p) = operation::run(finish, robot, events.drop_last());
        if let Progress::Continue(now, _) = p {
            if let FinishMotion::Repeating { update, .. } = now {
                law_update_keeps(update, between, events.last());
            }
        }
    }
}

/// Ending a running motion ends well only when the terminal status of the `Move` was success. Then
/// nothing moves the robot, and the session has forgotten the motion.
pub proof fn law_finish_ends_well_only_on_success(
    robot: RobotView,
    motion_id: u32,
    motion: Option<MotionGeneratorCommand>,
    control: Option<ControllerCommand>,
    events: Seq<Event>,
)
    requires
        robot.state.running(),
        robot.finishing(motion_id, motion, control).1 is Continue,
        operation::fits(robot.finishing(motion_id, motion, control).1->Continue_0, robot, events),
        operation::run(
            robot.finishing(motion_id, motion, control).1->Continue_0,
            robot,
            events,
        ).1 == (Progress::Done::<FinishMotion, Action, Result<(), ErrorView>>(Ok(()))),
    ensures
        events.last() matches Event::MoveEnd { message, .. } && motion::move_status_in(
            robot.version,
            message@,
        ) == Ok::<MoveStatus, ErrorView>(MoveStatus::Success),
        ({
            let after = operation::run(
                robot.finishing(motion_id, motion, control).1->Continue_0,
                robot,
                events,
            ).0;
            &&& !after.state.running()
            &&& after.state == after.state.released()
        }),
{
    let finish = robot.finishing(motion_id, motion, control).1->Continue_0;
    assert(events.len() > 0);
    lemma_finish_runs(finish, robot, events.drop_last());
}

/// How many `StopMove` requests an abort has handed out.
pub open spec fn stops_sent(cancel: CancelMotion, robot: RobotView, events: Seq<Event>) -> nat
    decreases events.len(),
{
    if events.len() == 0 {
        0
    } else {
        let before = stops_sent(cancel, robot, events.drop_last());
        match operation::run(cancel, robot, events).1 {
            Progress::Continue(_, Action::Send { request: Request::StopMove, .. }) => before + 1,
            _ => before,
        }
    }
}

/// How many `StopMove` requests an abort has handed out, by where it stands.
proof fn lemma_cancel_runs(cancel: CancelMotion, robot: RobotView, events: Seq<Event>)
    requires
        cancel is Looking,
        operation::fits(cancel, robot, events),
    ensures
        match operation::run(cancel, robot, events).1 {
            Progress::Continue(now, _) => match now {
                CancelMotion::Looking { .. } => events.len() == 0 && stops_sent(
                    cancel,
                    robot,
                    events,
                ) == 0,
                CancelMotion::Stopping { exchange, .. } => stops_sent(cancel, robot, events) == 1
                    && (exchange matches Exchange::Sending { request, .. } ==> request
                    == Request::StopMove) && events[0] == Event::Alive(true),
                CancelMotion::Settling { .. } => stops_sent(cancel, robot, events) == 1
                    && events[0] == Event::Alive(true),
                CancelMotion::Dropping { .. } => stops_sent(cancel, robot, events) == 1
                    && events[0] == Event::Alive(true) && !operation::run(
                    cancel,
                    robot,
                    events,
                ).0.state.running(),
            },
            Progress::Done(_) => stops_sent(cancel, robot, events) <= 1,
        },
    decreases events.len(),
{
    if events.len() > 0 {
        lemma_cancel_runs(cancel, robot, events.drop_last());
    }
}

/// An abort sends `StopMove` at most once. When it ends well it sent exactly one and the robot is
/// at rest with the motion forgotten, unless the connection was gone to begin with.
pub proof fn law_cancel_stops_once(motion_id: u32, robot: RobotView, events: Seq<Event>)
    requires
        operation::fits(CancelMotion::Looking { motion_id }, robot, events),
    ensures
        stops_sent(CancelMotion::Looking { motion_id }, robot, events) <= 1,
        operation::run(CancelMotion::Looking { motion_id }, robot, events).1 == (Progress::Done::<
            CancelMotion,
            Action,
            Result<(), ErrorView>,
        >(Ok(()))) && events[0] != Event::Alive(false) ==> {
            let after = operation::run(CancelMotion::Looking { motion_id }, robot, events).0;
            &&& stops_sent(CancelMotion::Looking { motion_id }, robot, events) == 1
            &&& !after.state.running()
            &&& after.state == after.state.released()
        },
{
    let cancel = CancelMotion::Looking { motion_id };
    lemma_cancel_runs(cancel, robot, events);
    if events.len() > 0 {
        lemma_cancel_runs(cancel, robot, events.drop_last());
        if events.len() > 1 {
            assert(events.drop_last()[0] == events[0]);
        }
    }
}

/// A motion that cannot be started leaves the session as it was, and nothing is sent.
pub proof fn law_refused_start_changes_nothing(
    robot: RobotView,
    controller_mode: crate::wire::modes::MoveControllerMode,
    motion_generator_mode: crate::wire::modes::MoveMotionGeneratorMode,
    path: crate::wire::codec::Deviation,
    goal: crate::wire::codec::Deviation,
)
    ensures
        ({
            let (after, r) = robot.starting(controller_mode, motion_generator_mode, path, goal);
            &&& r is Err ==> after == robot
            &&& robot.state.running() ==> r is Err
            &&& r matches Ok(start) ==> after.state == (State {
                current_move_motion_generator_mode: motion_generator_mode.reported(),
                current_move_controller_mode: controller_mode.reported(),
                ..robot.state
            }) && start.awaiting() is Send
        }),
{
}

/// A started motion begins with an empty log.
pub proof fn law_start_empties_the_log(
    start: StartMotion,
    robot: RobotView,
    event: Event,
    motion_id: u32,
)
    requires
        start.next(robot, event).1 == (Progress::Done::<
            StartMotion,
            Action,
            Result<u32, ErrorView>,
        >(Ok(motion_id))),
    ensures
        start.next(robot, event).0.log == Seq::<crate::robot_state::Record>::empty(),
{
}

/// A command goes out exactly when each half that is given has something in the running `Move` to go
/// to, and no half is missing that a motion with an external controller needs. It carries the halves
/// that were given as they are, zeros for one that was not, and the number of the newest state.
pub proof fn law_command_carries_its_halves(
    state: State,
    motion: Option<MotionGeneratorCommand>,
    control: Option<ControllerCommand>,
)
    ensures
        ({
            let generator = state.current_move_motion_generator_mode;
            let generating = generator is JointPosition || generator is JointVelocity
                || generator is CartesianPosition || generator is CartesianVelocity;
            let external = state.current_move_controller_mode is ExternalController;
            let r = state.composed(motion, control);
            &&& r is Ok <==> {
                ||| motion is None && control is None
                ||| {
                    &&& motion is Some ==> generating
                    &&& control is Some ==> external
                    &&& generating && external ==> motion is Some && control is Some
                }
            }
            &&& r matches Err(e) ==> e is Control
            &&& r matches Ok(data) ==> {
                &&& motion is Some || control is Some ==> data.message_id == state.message_id
                &&& motion matches Some(m) ==> data.motion == m
                &&& motion is None ==> data.motion == MotionGeneratorCommand::blank()
                &&& control matches Some(c) ==> data.control == c
                &&& control is None ==> data.control == ControllerCommand::blank()
            }
        }),
{
}

/// A control cycle with nothing to command sends nothing and receives at once. Otherwise it sends
/// the command with what was given, and only then receives a state newer than the one before.
pub proof fn law_cycle_sends_before_it_receives(
    robot: RobotView,
    motion: Option<MotionGeneratorCommand>,
    control: Option<ControllerCommand>,
    data: RobotCommandData,
)
    ensures
        (MotionUpdate::Checking { motion, control }).awaiting() is CheckConnection,
        ({
            let (after, p) = (MotionUpdate::Checking { motion, control }).next(
                robot,
                Event::Connected,
            );
            &&& after == robot
            &&& motion is None && control is None ==> (p matches Progress::Continue(_, action)
                && action is PollState)
            &&& motion is Some || control is Some ==> (p is Done <==> state_refuses(
                robot,
                motion,
                control,
            ))
            &&& motion is Some || control is Some ==> (p matches Progress::Continue(next, action)
                ==> {
                &&& action matches Action::SendCommand { data: sent }
                &&& next == MotionUpdate::Sending { data: sent }
                &&& sent.message_id == robot.state.message_id
                &&& motion matches Some(m) ==> sent.motion == m
                &&& control matches Some(c) ==> sent.control == c
            })
        }),
        ({
            let (after, p) = (MotionUpdate::Sending { data }).next(robot, Event::CommandSent);
            &&& after == robot
            &&& p matches Progress::Continue(MotionUpdate::Receiving { data: kept, reception }, action)
            &&& kept == data
            &&& reception.last_message_id == robot.state.message_id
            &&& reception.latest is None
            &&& action is PollState
        }),
{
}

/// The session has nothing for these commands to go to.
pub open spec fn state_refuses(
    robot: RobotView,
    motion: Option<MotionGeneratorCommand>,
    control: Option<ControllerCommand>,
) -> bool {
    robot.state.composed(motion, control) is Err
}

/// A start ends well only when the state shows the motion that was asked for, or when the response
/// to the `Move` says that it succeeded or has started. What is handed on is the number of the
/// `Move`, and nothing of the session changes but the log and what a received state brings.
pub proof fn law_start_ends_well_only_when_started(
    start: StartMotion,
    robot: RobotView,
    event: Event,
    motion_id: u32,
)
    requires
        start.wf(),
        start.awaiting().answered(event),
        start.next(robot, event).1 == (Progress::Done::<
            StartMotion,
            Action,
            Result<u32, ErrorView>,
        >(Ok(motion_id))),
    ensures
        ({
            let after = start.next(robot, event).0;
            let shown = after.state.motion_generator_mode
                == after.state.current_move_motion_generator_mode && after.state.controller_mode
                == after.state.current_move_controller_mode;
            let told = event matches Event::Response(message) && (motion::move_status_in(
                robot.version,
                message@,
            ) == Ok::<MoveStatus, ErrorView>(MoveStatus::Success) || motion::move_status_in(
                robot.version,
                message@,
            ) == Ok::<MoveStatus, ErrorView>(MoveStatus::MotionStarted));
            &&& shown || told
            &&& start is Asking ==> shown && told
            &&& start is Polling ==> told
            &&& start is Updating ==> shown
            &&& match start {
                StartMotion::Asking { exchange } => exchange == (Exchange::Receiving {
                    command_id: motion_id,
                }),
                StartMotion::Polling { motion_id: id } => id == motion_id,
                StartMotion::Updating { motion_id: id, .. } => id == motion_id,
            }
            &&& same_session(after, robot)
            &&& same_request(after.state, robot.state)
        }),
{
    if let StartMotion::Updating { update, .. } = start {
        law_update_keeps(update, robot, event);
    }
}

/// A start that is told of neither keeps polling for the response of its `Move` and receiving states,
/// in turns, and commands nothing meanwhile.
pub proof fn law_start_polls_and_receives(robot: RobotView, motion_id: u32)
    ensures
        (StartMotion::Polling { motion_id }).awaiting() == (Action::PollResponse {
            command_id: motion_id,
        }),
        ({
            let (after, p) = (StartMotion::Polling { motion_id }).next(robot, Event::NoResponse);
            &&& after == robot
            &&& p matches Progress::Continue(StartMotion::Updating { motion_id: id, update }, _)
            &&& id == motion_id
            &&& update == MotionUpdate::Checking { motion: None, control: None }
        }),
        ({
            let (after, p) = StartMotion::accepted(robot, motion_id);
            &&& p is Continue ==> after == robot && p->Continue_1 == (Action::PollResponse {
                command_id: motion_id,
            })
            &&& p is Done <==> robot.state.motion_generator_mode
                == robot.state.current_move_motion_generator_mode && robot.state.controller_mode
                == robot.state.current_move_controller_mode
        }),
{
}

/// A refused or aborted `Move` that was waited for with polling is a control exception; other errors
/// and successes stay what they are.
pub proof fn law_refusals_become_exceptions(result: Result<(), ErrorView>)
    ensures
        motion::as_exception(result) is Ok <==> result is Ok,
        result matches Err(e) ==> (motion::as_exception(result) matches Err(got) && (e is Command
            ==> got is Control) && (!(e is Command) ==> got == e)),
        result matches Err(ErrorView::Command(text)) ==> (motion::as_exception(result) matches Err(
            ErrorView::Control(exception),
        ) && exception.message == text && exception.move_status is None && exception.log.len() == 0),
{
}

/// Starting a motion is refused exactly when something moves the robot already or a robot of version
/// 5 is asked for torques alone. Otherwise a `Move` with the modes and deviations that were given is
/// sent, and the session expects the modes that a state reports for them.
pub proof fn law_move_asks_for_what_was_given(
    robot: RobotView,
    controller_mode: MoveControllerMode,
    motion_generator_mode: MoveMotionGeneratorMode,
    path: Deviation,
    goal: Deviation,
)
    ensures
        ({
            let (after, r) = robot.starting(controller_mode, motion_generator_mode, path, goal);
            &&& r is Err <==> {
                ||| robot.state.running()
                ||| robot.version is V5 && motion_generator_mode is NoGenerator
            }
            &&& r matches Err(e) ==> e is Control || e is InvalidArgument
            &&& r matches Ok(start) ==> {
                &&& start.awaiting() matches Action::Send { command, request }
                &&& command == 1
                &&& request matches Request::Move {
                    controller_mode: c,
                    motion_generator_mode: m,
                    maximum_path_deviation: p,
                    maximum_goal_pose_deviation: g,
                }
                &&& c == controller_mode && m == motion_generator_mode && p == path && g == goal
                &&& after.state.current_move_motion_generator_mode
                    == motion_generator_mode.reported()
                &&& after.state.current_move_controller_mode == controller_mode.reported()
                &&& after.state.message_id == robot.state.message_id
                &&& after.log == robot.log
                &&& same_session(after, robot)
            }
        }),
{
}

/// A state shows that a motion is over exactly when the robot is not moving or one of the two modes
/// is not the one that was asked for.
pub proof fn law_failing_states(robot: RobotView, state: RobotState)
    ensures
        robot.failing(state) <==> {
            ||| !(state.robot_mode is Move)
            ||| robot.state.motion_generator_mode != robot.state.current_move_motion_generator_mode
            ||| robot.state.controller_mode != robot.state.current_move_controller_mode
        },
{
}

/// A motion that nothing runs any more ends well at once. One that runs is ended with its last
/// command, marked as the last one and otherwise as it was; without one it cannot be ended.
pub proof fn law_finish_marks_the_last_command(
    robot: RobotView,
    motion_id: u32,
    motion: Option<MotionGeneratorCommand>,
    control: Option<ControllerCommand>,
)
    ensures
        ({
            let (after, p) = robot.finishing(motion_id, motion, control);
            &&& !robot.state.running() ==> p == (Progress::Done::<
                FinishMotion,
                Action,
                Result<(), ErrorView>,
            >(Ok(()))) && after == robot.with_state(robot.state.released())
            &&& robot.state.running() ==> after == robot
            &&& robot.state.running() ==> (p is Continue <==> motion is Some || (robot.version is V10
                && control is Some))
            &&& robot.state.running() && p is Done ==> (p->Done_0 matches Err(e) && e is Control)
            &&& p matches Progress::Continue(
                FinishMotion::Repeating { motion_id: id, motion: m, control: c, update },
                action,
            ) ==> {
                &&& id == motion_id
                &&& update == MotionUpdate::Checking { motion: m, control: c }
                &&& action is CheckConnection
                &&& m is Some <==> motion is Some
                &&& c is Some <==> control is Some
                &&& m matches Some(last) ==> last.motion_generation_finished && last
                    == (MotionGeneratorCommand {
                    motion_generation_finished: last.motion_generation_finished,
                    ..motion->Some_0
                })
                &&& motion is Some ==> c == control
                &&& motion is None ==> (c matches Some(last) ==> last.torque_command_finished
                    && last.tau_J_d == control->Some_0.tau_J_d)
            }
            &&& p is Continue ==> p->Continue_0 is Repeating
        }),
{
}

/// The last command is repeated, the same one each time, for as long as the states show something
/// moving the robot; then the terminal response of the `Move` is waited for, with the errors of the
/// state that showed it at rest.
pub proof fn law_finish_repeats_until_at_rest(
    robot: RobotView,
    event: Event,
    motion_id: u32,
    motion: Option<MotionGeneratorCommand>,
    control: Option<ControllerCommand>,
    update: MotionUpdate,
    state: RobotState,
)
    requires
        update.next(robot, event).1 == (Progress::Done::<
            MotionUpdate,
            Action,
            Result<RobotState, ErrorView>,
        >(Ok(state))),
    ensures
        ({
            let finish = FinishMotion::Repeating { motion_id, motion, control, update };
            let (after, p) = finish.next(robot, event);
            &&& after == update.next(robot, event).0
            &&& after.state.running() ==> (p matches Progress::Continue(
                FinishMotion::Repeating { motion_id: id, motion: m, control: c, update: again },
                _,
            ) && id == motion_id && m == motion && c == control && again == (
            MotionUpdate::Checking { motion, control }))
            &&& !after.state.running() ==> (p matches Progress::Continue(
                FinishMotion::Claiming { motion_id: id, errors },
                action,
            ) && id == motion_id && errors == state.last_motion_errors && action == (
            Action::AwaitMoveEnd { command_id: motion_id }))
        }),
{
}

/// A motion is judged to have ended well exactly when the terminal status is success; the session
/// has forgotten it then and is otherwise as it was. Every other status is an error, and a control
/// exception that carries it unless the status is none of an end.
pub proof fn law_only_success_is_a_good_end(
    robot: RobotView,
    status: MoveStatus,
    errors: Errors,
    success_rate: Seq<char>,
)
    ensures
        ({
            let (after, p) = FinishMotion::judged(robot, status, errors, success_rate);
            &&& p is Done
            &&& p->Done_0 is Ok <==> status == MoveStatus::Success
            &&& status == MoveStatus::Success ==> after == robot.with_state(
                robot.state.released(),
            )
            &&& status == MoveStatus::MotionStarted ==> p->Done_0->Err_0 is Protocol && after == robot
            &&& status != MoveStatus::Success && status != MoveStatus::MotionStarted ==> {
                &&& p->Done_0->Err_0 matches ErrorView::Control(exception)
                &&& exception.move_status == Some(status)
                &&& exception.last_motion_errors == errors
                &&& exception.log == robot.log
                &&& after.log.len() == 0
                &&& after.state == robot.state
            }
        }),
{
    commands::law_accepted_moves(status, true, robot.state.robot_mode);
}

/// A motion that was found to be over never ends well: a refused or aborted `Move` is a control
/// exception with its status and the errors of the state that showed it.
pub proof fn law_failed_motion_is_an_error(check: MotionErrorCheck, robot: RobotView, event: Event)
    ensures
        check.awaiting() == (Action::AwaitMoveEnd { command_id: check.motion_id }),
        check.next(robot, event).1 matches Progress::Done(Err(e)),
        event matches Event::MoveEnd { message, success_rate } ==> (motion::move_status_in(
            robot.version,
            message@,
        ) matches Ok(status) ==> (status != MoveStatus::Success && status
            != MoveStatus::MotionStarted ==> {
            &&& check.next(robot, event).1->Done_0->Err_0 matches ErrorView::Control(exception)
            &&& exception.move_status == Some(status)
            &&& exception.last_motion_errors == check.errors
            &&& exception.log == robot.log
        })),
        event matches Event::MoveEnd { message, success_rate } ==> (motion::move_status_in(
            robot.version,
            message@,
        ) matches Ok(status) ==> {
            let e = check.next(robot, event).1->Done_0->Err_0;
            &&& status == MoveStatus::MotionStarted ==> e == ErrorView::Protocol(
                "libfranka: Move received unexpected motion started message."@,
            )
            &&& status == MoveStatus::Success ==> e == ErrorView::Protocol(
                "Unexpected reply to a Move command"@,
            )
        }),
{
    if let Event::MoveEnd { message, success_rate } = event {
        if let Ok(status) = motion::move_status_in(robot.version, message@) {
            commands::law_accepted_moves(status, true, robot.state.robot_mode);
        }
    }
}

/// An abort looks whether the connection is open. If it is not, nothing is done; if it is, `StopMove`
/// is sent.
pub proof fn law_cancel_looks_first(robot: RobotView, motion_id: u32)
    ensures
        (CancelMotion::Looking { motion_id }).awaiting() is CheckAlive,
        ({
            let (after, p) = (CancelMotion::Looking { motion_id }).next(robot, Event::Alive(false));
            &&& after == robot
            &&& p == (Progress::Done::<CancelMotion, Action, Result<(), ErrorView>>(Ok(())))
        }),
        ({
            let (after, p) = (CancelMotion::Looking { motion_id }).next(robot, Event::Alive(true));
            &&& after == robot
            &&& p matches Progress::Continue(CancelMotion::Stopping { motion_id: id, .. }, action)
            &&& id == motion_id
            &&& action == (Action::Send { command: 2, request: Request::StopMove })
        }),
{
}

/// An abort goes on after `StopMove` exactly when that was answered with success; then it receives
/// states for as long as they show something moving the robot, and drops the response of the `Move`
/// in the end.
pub proof fn law_cancel_waits_for_rest(
    robot: RobotView,
    motion_id: u32,
    command_id: u32,
    message: Vec<u8>,
    reception: StateReception,
    event: Event,
    state: RobotState,
)
    requires
        reception.next(robot, event).1 == (Progress::Done::<
            StateReception,
            Action,
            Result<RobotState, ErrorView>,
        >(Ok(state))),
        !(event is Failed),
    ensures
        ({
            let exchange = Exchange::Receiving { command_id };
            let (after, p) = (CancelMotion::Stopping { motion_id, exchange }).next(
                robot,
                Event::Response(message),
            );
            &&& after == robot
            &&& p is Continue <==> motion::stop_move_status_in(robot.version, message@) == Ok::<
                codec::StopMoveStatus,
                ErrorView,
            >(codec::StopMoveStatus::Success)
            &&& p is Done ==> p->Done_0 is Err
            &&& p matches Progress::Continue(next, action) ==> next is Settling && action is PollState
        }),
        ({
            let (after, p) = (CancelMotion::Settling { motion_id, reception }).next(robot, event);
            &&& p is Continue
            &&& p->Continue_0 is Settling <==> after.state.running()
            &&& !after.state.running() ==> p->Continue_0 == (CancelMotion::Dropping { motion_id })
                && p->Continue_1 == (Action::PollResponse { command_id: motion_id })
        }),
        ({
            let (after, p) = (CancelMotion::Dropping { motion_id }).next(robot, Event::NoResponse);
            &&& p == (Progress::Done::<CancelMotion, Action, Result<(), ErrorView>>(Ok(())))
            &&& after.state.current_move_motion_generator_mode is Idle
            &&& after.state.current_move_controller_mode is Other
            &&& after.log == robot.log
            &&& same_session(after, robot)
        }),
{
}

/// A failed action ends every operation with its error.
pub proof fn law_failures_end_operations(
    robot: RobotView,
    e: FrankaError,
    update: MotionUpdate,
    start: StartMotion,
    cancel: CancelMotion,
    reception: StateReception,
)
    ensures
        update.next(robot, Event::Failed(e)) == (robot, Progress::Done::<
            MotionUpdate,
            Action,
            Result<RobotState, ErrorView>,
        >(Err(e@))),
        start.next(robot, Event::Failed(e)) == (robot, Progress::Done::<
            StartMotion,
            Action,
            Result<u32, ErrorView>,
        >(Err(e@))),
        cancel.next(robot, Event::Failed(e)) == (robot, Progress::Done::<
            CancelMotion,
            Action,
            Result<(), ErrorView>,
        >(Err(e@))),
        reception.next(robot, Event::Failed(e)) == (robot, Progress::Done::<
            StateReception,
            Action,
            Result<RobotState, ErrorView>,
        >(Err(e@))),
{
}

} // verus!
