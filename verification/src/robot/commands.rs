//! The commands of the robot and what its answers mean.
use crate::error;
use crate::error::{protocol_error, ErrorView, FrankaError, MoveStatus};
use crate::robot::robot_impl::RobotImpl;
use crate::wire::codec;
use crate::wire::codec::{
    AutomaticErrorRecoveryStatus, CommandKind, CommandStatus, FciVersion, GetterSetterStatus,
    StopMoveStatus,
};
use crate::wire::modes::RobotMode;
use crate::text;
use vstd::prelude::*;

verus! {

/// The commands, as messages name them.
#[derive(Clone, Copy, PartialEq, Eq, Structural, Debug, Hash)]
pub enum CommandName {
    /// Fetches the robot description. Version 10 only.
    GetRobotModel,
    /// Starts a motion.
    Move,
    /// Stops the running motion.
    StopMove,
    /// Reads a virtual wall. Version 5 only.
    GetCartesianLimit,
    /// Sets the contact and collision thresholds.
    SetCollisionBehavior,
    /// Sets the joint stiffness.
    SetJointImpedance,
    /// Sets the Cartesian stiffness.
    SetCartesianImpedance,
    /// Locks or unlocks guiding.
    SetGuidingMode,
    /// Sets the stiffness frame.
    SetEEToK,
    /// Sets the end effector frame.
    SetNEToEE,
    /// Sets the load.
    SetLoad,
    /// Sets the robot's own filters. Version 5 only.
    SetFilters,
    /// Clears a reflex and enables motion again.
    AutomaticErrorRecovery,
}

impl CommandName {
    /// The command of this name.
    pub open spec fn of(self) -> CommandKind {
        match self {
            CommandName::GetRobotModel => CommandKind::GetRobotModel,
            CommandName::Move => CommandKind::Move,
            CommandName::StopMove => CommandKind::StopMove,
            CommandName::GetCartesianLimit => CommandKind::GetCartesianLimit,
            CommandName::SetCollisionBehavior => CommandKind::SetCollisionBehavior,
            CommandName::SetJointImpedance => CommandKind::SetJointImpedance,
            CommandName::SetCartesianImpedance => CommandKind::SetCartesianImpedance,
            CommandName::SetGuidingMode => CommandKind::SetGuidingMode,
            CommandName::SetEEToK => CommandKind::SetEEToK,
            CommandName::SetNEToEE => CommandKind::SetNEToEE,
            CommandName::SetLoad => CommandKind::SetLoad,
            CommandName::SetFilters => CommandKind::SetFilters,
            CommandName::AutomaticErrorRecovery => CommandKind::AutomaticErrorRecovery,
        }
    }

    /// The command of this name.
    pub fn kind(self) -> (r: CommandKind)
        ensures
            r == self.of(),
    {
        match self {
            CommandName::GetRobotModel => CommandKind::GetRobotModel,
            CommandName::Move => CommandKind::Move,
            CommandName::StopMove => CommandKind::StopMove,
            CommandName::GetCartesianLimit => CommandKind::GetCartesianLimit,
            CommandName::SetCollisionBehavior => CommandKind::SetCollisionBehavior,
            CommandName::SetJointImpedance => CommandKind::SetJointImpedance,
            CommandName::SetCartesianImpedance => CommandKind::SetCartesianImpedance,
            CommandName::SetGuidingMode => CommandKind::SetGuidingMode,
            CommandName::SetEEToK => CommandKind::SetEEToK,
            CommandName::SetNEToEE => CommandKind::SetNEToEE,
            CommandName::SetLoad => CommandKind::SetLoad,
            CommandName::SetFilters => CommandKind::SetFilters,
            CommandName::AutomaticErrorRecovery => CommandKind::AutomaticErrorRecovery,
        }
    }

    /// The name in messages.
    pub fn as_str(self) -> (s: &'static str)
        ensures
            s@ == self.of().shown(),
    {
        self.kind().name()
    }

    /// The number of the command under a version, where that version has it.
    pub fn command(self, version: FciVersion) -> (r: Option<u32>)
        ensures
            r == codec::id_of(version, self.of()),
    {
        codec::command_id(version, self.kind())
    }
}

/// The text of a command that is not possible in a robot mode.
pub open spec fn not_possible(mode: RobotMode) -> Seq<char> {
    " command rejected: command not possible in the current mode (\""@ + mode.shown() + "\")!"@ + (
    if mode == RobotMode::Other {
        " Did you open the brakes?"@
    } else {
        Seq::empty()
    })
}

/// The error of a command that was refused or aborted.
pub open spec fn refusal(name: CommandName, detail: Seq<char>) -> ErrorView {
    ErrorView::Command("libfranka: "@ + name.of().shown() + detail)
}

/// The text of a command that is not possible in the robot's mode.
fn command_not_possible_message(robot: &RobotImpl) -> (s: String)
    ensures
        s@ == not_possible(robot@.state.robot_mode),
{
    let mode = robot.robot_mode();
    let mut message = String::from_str(
        " command rejected: command not possible in the current mode (\"",
    );
    message.append(mode.as_str());
    message.append("\")!");
    if mode == RobotMode::Other {
        message.append(" Did you open the brakes?");
    }
    assert(message@ =~= not_possible(robot@.state.robot_mode));
    message
}

/// The error of a command that was refused or aborted.
fn command_error(name: CommandName, detail: &str) -> (r: FrankaError)
    ensures
        r@ == refusal(name, detail@),
{
    let mut text = String::from_str("libfranka: ");
    text.append(name.as_str());
    text.append(detail);
    FrankaError::Command(text)
}

/// The error of a command that is not possible in the robot's mode.
fn command_not_possible_error(name: CommandName, robot: &RobotImpl) -> (r: FrankaError)
    ensures
        r@ == refusal(name, not_possible(robot@.state.robot_mode)),
{
    let detail = command_not_possible_message(robot);
    command_error(name, detail.as_str())
}

/// What the status of a plain command means in a robot mode.
pub open spec fn command_reply(name: CommandName, status: CommandStatus, mode: RobotMode) -> Result<(), ErrorView> {
    match status {
        CommandStatus::Success => Ok(()),
        CommandStatus::CommandNotPossibleRejected => Err(refusal(name, not_possible(mode))),
        CommandStatus::CommandRejectedDueToActivatedSafetyFunctions => Err(refusal(name, " command rejected due to activated safety function! Please disable all safety functions."@)),
    }
}

/// Turns the status of a plain command into a result.
pub fn handle_command_response(
    robot: &RobotImpl,
    name: CommandName,
    status: CommandStatus,
) -> (r: Result<(), FrankaError>)
    ensures
        error::seen(r) == command_reply(name, status, robot@.state.robot_mode),
{
    match status {
        CommandStatus::Success => Ok(()),
        CommandStatus::CommandNotPossibleRejected => Err(command_not_possible_error(name, robot)),
        CommandStatus::CommandRejectedDueToActivatedSafetyFunctions => Err(command_error(name, " command rejected due to activated safety function! Please disable all safety functions.")),
    }
}

/// What the status of a getter or setter means in a robot mode.
pub open spec fn getter_setter_reply(name: CommandName, status: GetterSetterStatus, mode: RobotMode) -> Result<(), ErrorView> {
    match status {
        GetterSetterStatus::Success => Ok(()),
        GetterSetterStatus::CommandNotPossibleRejected => Err(refusal(name, not_possible(mode))),
        GetterSetterStatus::InvalidArgumentRejected => Err(refusal(name, " command rejected: invalid argument!"@)),
        GetterSetterStatus::CommandRejectedDueToActivatedSafetyFunctions => Err(refusal(name, " command rejected due to activated safety function! Please disable all safety functions. "@)),
    }
}

/// Turns the status of a getter or setter into a result.
pub fn handle_getter_setter_response(
    robot: &RobotImpl,
    name: CommandName,
    status: GetterSetterStatus,
) -> (r: Result<(), FrankaError>)
    ensures
        error::seen(r) == getter_setter_reply(name, status, robot@.state.robot_mode),
{
    match status {
        GetterSetterStatus::Success => Ok(()),
        GetterSetterStatus::CommandNotPossibleRejected => Err(command_not_possible_error(name, robot)),
        GetterSetterStatus::InvalidArgumentRejected => Err(command_error(name, " command rejected: invalid argument!")),
        GetterSetterStatus::CommandRejectedDueToActivatedSafetyFunctions => Err(command_error(name, " command rejected due to activated safety function! Please disable all safety functions. ")),
    }
}

/// What the status of a `StopMove` means in a robot mode.
pub open spec fn stop_move_reply(status: StopMoveStatus, mode: RobotMode) -> Result<(), ErrorView> {
    match status {
        StopMoveStatus::Success => Ok(()),
        StopMoveStatus::CommandNotPossibleRejected => Err(refusal(CommandName::StopMove, not_possible(mode))),
        StopMoveStatus::Aborted => Err(refusal(CommandName::StopMove, not_possible(mode))),
        StopMoveStatus::EmergencyAborted => Err(refusal(CommandName::StopMove, " command aborted: User Stop pressed!"@)),
        StopMoveStatus::ReflexAborted => Err(refusal(CommandName::StopMove, " command aborted: motion aborted by reflex!"@)),
        StopMoveStatus::CommandRejectedDueToActivatedSafetyFunctions => Err(refusal(CommandName::Move, " command rejected due to activated safety function! Please disable all safety functions."@)),
    }
}

/// Turns the status of a `StopMove` into a result.
pub fn handle_stop_move_response(robot: &RobotImpl, status: StopMoveStatus) -> (r: Result<(), FrankaError>)
    ensures
        error::seen(r) == stop_move_reply(status, robot@.state.robot_mode),
{
    match status {
        StopMoveStatus::Success => Ok(()),
        StopMoveStatus::CommandNotPossibleRejected => Err(command_not_possible_error(CommandName::StopMove, robot)),
        StopMoveStatus::Aborted => Err(command_not_possible_error(CommandName::StopMove, robot)),
        StopMoveStatus::EmergencyAborted => Err(command_error(CommandName::StopMove, " command aborted: User Stop pressed!")),
        StopMoveStatus::ReflexAborted => Err(command_error(CommandName::StopMove, " command aborted: motion aborted by reflex!")),
        StopMoveStatus::CommandRejectedDueToActivatedSafetyFunctions => Err(command_error(CommandName::Move, " command rejected due to activated safety function! Please disable all safety functions.")),
    }
}

/// What the status of an error recovery means in a robot mode.
pub open spec fn automatic_error_recovery_reply(status: AutomaticErrorRecoveryStatus, mode: RobotMode) -> Result<(), ErrorView> {
    match status {
        AutomaticErrorRecoveryStatus::Success => Ok(()),
        AutomaticErrorRecoveryStatus::EmergencyAborted => Err(refusal(CommandName::AutomaticErrorRecovery, " command aborted: User Stop pressed!"@)),
        AutomaticErrorRecoveryStatus::ReflexAborted => Err(refusal(CommandName::AutomaticErrorRecovery, " command aborted: motion aborted by reflex!"@)),
        AutomaticErrorRecoveryStatus::CommandNotPossibleRejected => Err(
            refusal(CommandName::AutomaticErrorRecovery, not_possible(mode)),
        ),
        AutomaticErrorRecoveryStatus::ManualErrorRecoveryRequiredRejected => Err(refusal(CommandName::AutomaticErrorRecovery, " command rejected: manual error recovery required!"@)),
        AutomaticErrorRecoveryStatus::Aborted => Err(refusal(CommandName::AutomaticErrorRecovery, " command aborted!"@)),
        AutomaticErrorRecoveryStatus::CommandRejectedDueToActivatedSafetyFunctions => Err(refusal(CommandName::Move, " command rejected due to activated safety function! Please disable all safety functions."@)),
    }
}

/// Turns the status of an error recovery into a result.
pub fn handle_automatic_error_recovery_response(robot: &RobotImpl, status: AutomaticErrorRecoveryStatus) -> (r: Result<(), FrankaError>)
    ensures
        error::seen(r) == automatic_error_recovery_reply(status, robot@.state.robot_mode),
{
    match status {
        AutomaticErrorRecoveryStatus::Success => Ok(()),
        AutomaticErrorRecoveryStatus::EmergencyAborted => Err(command_error(CommandName::AutomaticErrorRecovery, " command aborted: User Stop pressed!")),
        AutomaticErrorRecoveryStatus::ReflexAborted => Err(command_error(CommandName::AutomaticErrorRecovery, " command aborted: motion aborted by reflex!")),
        AutomaticErrorRecoveryStatus::CommandNotPossibleRejected => Err(
            command_not_possible_error(CommandName::AutomaticErrorRecovery, robot),
        ),
        AutomaticErrorRecoveryStatus::ManualErrorRecoveryRequiredRejected => Err(command_error(CommandName::AutomaticErrorRecovery, " command rejected: manual error recovery required!")),
        AutomaticErrorRecoveryStatus::Aborted => Err(command_error(CommandName::AutomaticErrorRecovery, " command aborted!")),
        AutomaticErrorRecoveryStatus::CommandRejectedDueToActivatedSafetyFunctions => Err(command_error(CommandName::Move, " command rejected due to activated safety function! Please disable all safety functions.")),
    }
}

/// What the status of a `Move` means: a started motion is none of an end, and while one runs it
/// cannot start.
pub open spec fn move_reply(status: MoveStatus, motion_running: bool, mode: RobotMode) -> Result<
    (),
    ErrorView,
> {
    match status {
        MoveStatus::Success => Ok(()),
        MoveStatus::MotionStarted => if motion_running {
            Err(
                ErrorView::Protocol(
                    "libfranka: Move received unexpected motion started message."@,
                ),
            )
        } else {
            Ok(())
        },
        MoveStatus::EmergencyAborted => Err(refusal(CommandName::Move, " command aborted: User Stop pressed!"@)),
        MoveStatus::ReflexAborted => Err(refusal(CommandName::Move, " command aborted: motion aborted by reflex!"@)),
        MoveStatus::InputErrorAborted => Err(refusal(CommandName::Move, " command aborted: invalid input provided!"@)),
        MoveStatus::CommandNotPossibleRejected => Err(refusal(CommandName::Move, not_possible(mode))),
        MoveStatus::StartAtSingularPoseRejected => Err(refusal(CommandName::Move, " command rejected: cannot start at singular pose!"@)),
        MoveStatus::InvalidArgumentRejected => Err(refusal(CommandName::Move, " command rejected: maximum path deviation out of range!"@)),
        MoveStatus::Preempted => Err(refusal(CommandName::Move, " command preempted!"@)),
        MoveStatus::Aborted => Err(refusal(CommandName::Move, " command aborted!"@)),
        MoveStatus::PreemptedDueToActivatedSafetyFunctions => Err(refusal(CommandName::Move, " command preempted due to activated safety function! Please disable all safety functions."@)),
        MoveStatus::CommandRejectedDueToActivatedSafetyFunctions => Err(refusal(CommandName::Move, " command rejected due to activated safety function! Please disable all safety functions."@)),
    }
}

/// Turns the status of a `Move` into a result.
fn handle_move_status(status: MoveStatus, motion_running: bool, robot: &RobotImpl) -> (r: Result<
    (),
    FrankaError,
>)
    ensures
        error::seen(r) == move_reply(status, motion_running, robot@.state.robot_mode),
{
    match status {
        MoveStatus::Success => Ok(()),
        MoveStatus::MotionStarted => {
            if motion_running {
                return Err(
                    protocol_error("libfranka: Move received unexpected motion started message."),
                );
            }
            Ok(())
        },
        MoveStatus::EmergencyAborted => Err(command_error(CommandName::Move, " command aborted: User Stop pressed!")),
        MoveStatus::ReflexAborted => Err(command_error(CommandName::Move, " command aborted: motion aborted by reflex!")),
        MoveStatus::InputErrorAborted => Err(command_error(CommandName::Move, " command aborted: invalid input provided!")),
        MoveStatus::CommandNotPossibleRejected => Err(command_not_possible_error(CommandName::Move, robot)),
        MoveStatus::StartAtSingularPoseRejected => Err(command_error(CommandName::Move, " command rejected: cannot start at singular pose!")),
        MoveStatus::InvalidArgumentRejected => Err(command_error(CommandName::Move, " command rejected: maximum path deviation out of range!")),
        MoveStatus::Preempted => Err(command_error(CommandName::Move, " command preempted!")),
        MoveStatus::Aborted => Err(command_error(CommandName::Move, " command aborted!")),
        MoveStatus::PreemptedDueToActivatedSafetyFunctions => Err(command_error(CommandName::Move, " command preempted due to activated safety function! Please disable all safety functions.")),
        MoveStatus::CommandRejectedDueToActivatedSafetyFunctions => Err(command_error(CommandName::Move, " command rejected due to activated safety function! Please disable all safety functions.")),
    }
}

/// Turns the status of a `Move` that was just sent into a result. That the motion has started is
/// accepted only while no motion generator is running.
pub fn handle_move_response(robot: &RobotImpl, status: MoveStatus) -> (r: Result<(), FrankaError>)
    ensures
        error::seen(r) == move_reply(status, robot@.state.generating(), robot@.state.robot_mode),
{
    handle_move_status(status, robot.motion_generator_running(), robot)
}

/// Turns the terminal status of a `Move` into a result. The motion was started before, whatever the
/// last state reports, so it cannot start again: the only good end is success.
pub fn handle_terminal_move_response(robot: &RobotImpl, status: MoveStatus) -> (r: Result<
    (),
    FrankaError,
>)
    ensures
        error::seen(r) == move_reply(status, true, robot@.state.robot_mode),
{
    handle_move_status(status, true, robot)
}

/// A terminal `Move` status is accepted exactly when it is success.
pub proof fn law_terminal_reply_is_success(status: MoveStatus, mode: RobotMode)
    ensures
        (move_reply(status, true, mode) is Ok) == (status == MoveStatus::Success),
{
}

/// While no motion runs, the status of a `Move` is accepted exactly when it is success or tells that
/// the motion has started; while one runs, exactly when it is success. That it has started then is
/// against the protocol, and every other status is a refused or aborted command.
pub proof fn law_accepted_moves(status: MoveStatus, motion_running: bool, mode: RobotMode)
    ensures
        move_reply(status, false, mode) is Ok <==> status == MoveStatus::Success || status
            == MoveStatus::MotionStarted,
        move_reply(status, true, mode) is Ok <==> status == MoveStatus::Success,
        move_reply(status, motion_running, mode) matches Err(e) ==> (e is Protocol <==> status
            == MoveStatus::MotionStarted),
        move_reply(status, motion_running, mode) matches Err(e) ==> (e is Command <==> status
            != MoveStatus::MotionStarted),
        status != MoveStatus::MotionStarted ==> move_reply(status, true, mode) == move_reply(
            status,
            false,
            mode,
        ),
{
}

/// A command is accepted exactly when its status is success, and every other status is a refused or
/// aborted command, whatever mode the robot is in.
pub proof fn law_accepted_commands(
    name: CommandName,
    command: CommandStatus,
    setter: GetterSetterStatus,
    stop: StopMoveStatus,
    recovery: AutomaticErrorRecoveryStatus,
    mode: RobotMode,
)
    ensures
        command_reply(name, command, mode) is Ok <==> command == CommandStatus::Success,
        getter_setter_reply(name, setter, mode) is Ok <==> setter == GetterSetterStatus::Success,
        stop_move_reply(stop, mode) is Ok <==> stop == StopMoveStatus::Success,
        automatic_error_recovery_reply(recovery, mode) is Ok <==> recovery
            == AutomaticErrorRecoveryStatus::Success,
        command_reply(name, command, mode) matches Err(e) ==> e is Command,
        getter_setter_reply(name, setter, mode) matches Err(e) ==> e is Command,
        stop_move_reply(stop, mode) matches Err(e) ==> e is Command,
        automatic_error_recovery_reply(recovery, mode) matches Err(e) ==> e is Command,
{
}

/// The text of a refusal names the command, and that of a command that is not possible names the
/// robot's mode as well, at the end of which stands the question about the brakes exactly when the
/// mode is none of the known ones.
pub proof fn law_refusals_name_their_cause(name: CommandName, detail: Seq<char>, mode: RobotMode)
    ensures
        refusal(name, detail) matches ErrorView::Command(text) && text::mentions(text, name.of().shown())
            && text::mentions(text, detail),
        text::mentions(not_possible(mode), mode.shown()),
        mode == RobotMode::Other ==> text::mentions(not_possible(mode), " Did you open the brakes?"@),
        not_possible(mode).last() == '?' <==> mode == RobotMode::Other,
{
    reveal_strlit("\")!");
    reveal_strlit(" Did you open the brakes?");

    let text = "libfranka: "@ + name.of().shown() + detail;
    let start = "libfranka: "@.len() as int;
    let part = name.of().shown();
    assert(text.subrange(start, start + part.len()) =~= part);
    let end = start + part.len();
    assert(text.subrange(end, end + detail.len()) =~= detail);
    let head = " command rejected: command not possible in the current mode (\""@;
    let whole = not_possible(mode);
    let at = head.len() as int;
    assert(whole.subrange(at, at + mode.shown().len()) =~= mode.shown());
    let brakes = " Did you open the brakes?"@;
    if mode == RobotMode::Other {
        let begin = whole.len() - brakes.len();
        assert(whole.subrange(begin, begin + brakes.len()) =~= brakes);
    }
}

} // verus!
