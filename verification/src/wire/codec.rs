//! Both versions of the protocol: command numbers, statuses, requests and commands as bytes.
use crate::double::Double;
use crate::error;
use crate::error::{incorrect_message_size, ErrorView, FrankaError, MoveStatus};
use crate::robot_state;
use crate::robot_state::RobotCommandLog;
use crate::wire::bytes;
use crate::wire::bytes::{put_bool, put_bools, put_doubles, put_u16, put_u32, put_u64, read_u32};
use crate::wire::modes::{MoveControllerMode, MoveMotionGeneratorMode};
use vstd::prelude::*;

verus! {

/// The versions of the protocol.
#[derive(Clone, Copy, PartialEq, Eq, Structural, Debug, Hash)]
pub enum FciVersion {
    /// Version 5, spoken by the FER.
    V5,
    /// Version 10, spoken by the FR3.
    V10,
}

impl FciVersion {
    /// The number that is announced for this version.
    pub open spec fn spoken(self) -> u16 {
        match self {
            FciVersion::V5 => 5,
            FciVersion::V10 => 10,
        }
    }

    /// The number that is announced for this version.
    pub fn number(self) -> (n: u16)
        ensures
            n == self.spoken(),
    {
        match self {
            FciVersion::V5 => 5,
            FciVersion::V10 => 10,
        }
    }
}

/// The commands of both versions.
#[derive(Clone, Copy, PartialEq, Eq, Structural, Debug, Hash)]
pub enum CommandKind {
    Connect,
    Move,
    StopMove,
    GetCartesianLimit,
    SetCollisionBehavior,
    SetJointImpedance,
    SetCartesianImpedance,
    SetGuidingMode,
    SetEEToK,
    SetNEToEE,
    SetLoad,
    SetFilters,
    AutomaticErrorRecovery,
    LoadModelLibrary,
    GetRobotModel,
}

impl CommandKind {
    /// The name of the command in messages.
    pub open spec fn shown(self) -> Seq<char> {
        match self {
            CommandKind::Connect => "Connect"@,
            CommandKind::Move => "Move"@,
            CommandKind::StopMove => "Stop Move"@,
            CommandKind::GetCartesianLimit => "Get Cartesian Limit"@,
            CommandKind::SetCollisionBehavior => "Set Collision Behavior"@,
            CommandKind::SetJointImpedance => "Set Joint Impedance"@,
            CommandKind::SetCartesianImpedance => "Set Cartesian Impedance"@,
            CommandKind::SetGuidingMode => "Set Guiding Mode"@,
            CommandKind::SetEEToK => "Set EE To K"@,
            CommandKind::SetNEToEE => "Set NE To EE"@,
            CommandKind::SetLoad => "Set Load"@,
            CommandKind::SetFilters => "Set Filters"@,
            CommandKind::AutomaticErrorRecovery => "Automatic Error Recovery"@,
            CommandKind::LoadModelLibrary => "Load Model Library"@,
            CommandKind::GetRobotModel => "Get Robot Model"@,
        }
    }

    /// The name of the command in messages.
    pub fn name(self) -> (s: &'static str)
        ensures
            s@ == self.shown(),
    {
        match self {
            CommandKind::Connect => "Connect",
            CommandKind::Move => "Move",
            CommandKind::StopMove => "Stop Move",
            CommandKind::GetCartesianLimit => "Get Cartesian Limit",
            CommandKind::SetCollisionBehavior => "Set Collision Behavior",
            CommandKind::SetJointImpedance => "Set Joint Impedance",
            CommandKind::SetCartesianImpedance => "Set Cartesian Impedance",
            CommandKind::SetGuidingMode => "Set Guiding Mode",
            CommandKind::SetEEToK => "Set EE To K",
            CommandKind::SetNEToEE => "Set NE To EE",
            CommandKind::SetLoad => "Set Load",
            CommandKind::SetFilters => "Set Filters",
            CommandKind::AutomaticErrorRecovery => "Automatic Error Recovery",
            CommandKind::LoadModelLibrary => "Load Model Library",
            CommandKind::GetRobotModel => "Get Robot Model",
        }
    }
}

/// The number of a command under a version, where that version has it.
pub open spec fn id_of(version: FciVersion, kind: CommandKind) -> Option<u32> {
    match version {
        FciVersion::V5 => match kind {
            CommandKind::Connect => Some(0u32),
            CommandKind::Move => Some(1u32),
            CommandKind::StopMove => Some(2u32),
            CommandKind::GetCartesianLimit => Some(3u32),
            CommandKind::SetCollisionBehavior => Some(4u32),
            CommandKind::SetJointImpedance => Some(5u32),
            CommandKind::SetCartesianImpedance => Some(6u32),
            CommandKind::SetGuidingMode => Some(7u32),
            CommandKind::SetEEToK => Some(8u32),
            CommandKind::SetNEToEE => Some(9u32),
            CommandKind::SetLoad => Some(10u32),
            CommandKind::SetFilters => Some(11u32),
            CommandKind::AutomaticErrorRecovery => Some(12u32),
            CommandKind::LoadModelLibrary => Some(13u32),
            CommandKind::GetRobotModel => None,
        },
        FciVersion::V10 => match kind {
            CommandKind::Connect => Some(0u32),
            CommandKind::Move => Some(1u32),
            CommandKind::StopMove => Some(2u32),
            CommandKind::GetCartesianLimit => None,
            CommandKind::SetCollisionBehavior => Some(3u32),
            CommandKind::SetJointImpedance => Some(4u32),
            CommandKind::SetCartesianImpedance => Some(5u32),
            CommandKind::SetGuidingMode => Some(6u32),
            CommandKind::SetEEToK => Some(7u32),
            CommandKind::SetNEToEE => Some(8u32),
            CommandKind::SetLoad => Some(9u32),
            CommandKind::SetFilters => None,
            CommandKind::AutomaticErrorRecovery => Some(10u32),
            CommandKind::LoadModelLibrary => Some(11u32),
            CommandKind::GetRobotModel => Some(12u32),
        },
    }
}

/// The number of a command under a version, where that version has it.
pub fn command_id(version: FciVersion, kind: CommandKind) -> (r: Option<u32>)
    ensures
        r == id_of(version, kind),
{
    match version {
        FciVersion::V5 => match kind {
            CommandKind::Connect => Some(0u32),
            CommandKind::Move => Some(1u32),
            CommandKind::StopMove => Some(2u32),
            CommandKind::GetCartesianLimit => Some(3u32),
            CommandKind::SetCollisionBehavior => Some(4u32),
            CommandKind::SetJointImpedance => Some(5u32),
            CommandKind::SetCartesianImpedance => Some(6u32),
            CommandKind::SetGuidingMode => Some(7u32),
            CommandKind::SetEEToK => Some(8u32),
            CommandKind::SetNEToEE => Some(9u32),
            CommandKind::SetLoad => Some(10u32),
            CommandKind::SetFilters => Some(11u32),
            CommandKind::AutomaticErrorRecovery => Some(12u32),
            CommandKind::LoadModelLibrary => Some(13u32),
            CommandKind::GetRobotModel => None,
        },
        FciVersion::V10 => match kind {
            CommandKind::Connect => Some(0u32),
            CommandKind::Move => Some(1u32),
            CommandKind::StopMove => Some(2u32),
            CommandKind::GetCartesianLimit => None,
            CommandKind::SetCollisionBehavior => Some(3u32),
            CommandKind::SetJointImpedance => Some(4u32),
            CommandKind::SetCartesianImpedance => Some(5u32),
            CommandKind::SetGuidingMode => Some(6u32),
            CommandKind::SetEEToK => Some(7u32),
            CommandKind::SetNEToEE => Some(8u32),
            CommandKind::SetLoad => Some(9u32),
            CommandKind::SetFilters => None,
            CommandKind::AutomaticErrorRecovery => Some(10u32),
            CommandKind::LoadModelLibrary => Some(11u32),
            CommandKind::GetRobotModel => Some(12u32),
        },
    }
}

/// No two commands share a number under one version, and both versions call `Connect` zero.
pub proof fn law_command_ids(version: FciVersion, a: CommandKind, b: CommandKind)
    ensures
        id_of(version, a) is Some && id_of(version, a) == id_of(version, b) ==> a == b,
        id_of(version, CommandKind::Connect) == Some(0u32),
{
}

/// The size of a state datagram.
pub open spec fn state_len(version: FciVersion) -> usize {
    match version {
        FciVersion::V5 => 2373,
        FciVersion::V10 => 1377,
    }
}

/// The size of a state datagram.
pub fn state_size(version: FciVersion) -> (n: usize)
    ensures
        n == state_len(version),
{
    match version {
        FciVersion::V5 => 2373,
        FciVersion::V10 => 1377,
    }
}

/// What a status is read as: itself, or the protocol error that names the command.
pub open spec fn known<T>(status: Option<T>, name: Seq<char>) -> Result<T, ErrorView> {
    match status {
        Some(status) => Ok(status),
        None => Err(
            ErrorView::Protocol(
                "libfranka: Unexpected response while handling "@ + name + " command!"@,
            ),
        ),
    }
}

/// The error of a status byte that stands for nothing.
pub fn unexpected_response(name: &str) -> (r: FrankaError)
    ensures
        r@ == ErrorView::Protocol(
            "libfranka: Unexpected response while handling "@ + name@ + " command!"@,
        ),
{
    let mut text = String::from_str("libfranka: Unexpected response while handling ");
    text.append(name);
    text.append(" command!");
    FrankaError::Protocol(text)
}

/// The status of a `Move` that `byte` stands for under `version`, where there is one.
pub open spec fn move_status_of(version: FciVersion, byte: u8) -> Option<MoveStatus> {
    match version {
        FciVersion::V5 => match byte {
            0 => Some(MoveStatus::Success),
            1 => Some(MoveStatus::MotionStarted),
            2 => Some(MoveStatus::Preempted),
            3 => Some(MoveStatus::CommandNotPossibleRejected),
            4 => Some(MoveStatus::StartAtSingularPoseRejected),
            5 => Some(MoveStatus::InvalidArgumentRejected),
            6 => Some(MoveStatus::ReflexAborted),
            7 => Some(MoveStatus::EmergencyAborted),
            8 => Some(MoveStatus::InputErrorAborted),
            9 => Some(MoveStatus::Aborted),
            _ => None,
        },
        FciVersion::V10 => match byte {
            0 => Some(MoveStatus::Success),
            1 => Some(MoveStatus::MotionStarted),
            2 => Some(MoveStatus::Preempted),
            3 => Some(MoveStatus::PreemptedDueToActivatedSafetyFunctions),
            4 => Some(MoveStatus::CommandRejectedDueToActivatedSafetyFunctions),
            5 => Some(MoveStatus::CommandNotPossibleRejected),
            6 => Some(MoveStatus::StartAtSingularPoseRejected),
            7 => Some(MoveStatus::InvalidArgumentRejected),
            8 => Some(MoveStatus::ReflexAborted),
            9 => Some(MoveStatus::EmergencyAborted),
            10 => Some(MoveStatus::InputErrorAborted),
            11 => Some(MoveStatus::Aborted),
            _ => None,
        },
    }
}

/// Reads the status of a `Move`; a byte that stands for none is a protocol error that names the
/// command.
pub fn parse_move_status(version: FciVersion, byte: u8, name: &str) -> (r: Result<MoveStatus, FrankaError>)
    ensures
        error::seen(r) == known(move_status_of(version, byte), name@),
{
    let status = match version {
        FciVersion::V5 => match byte {
            0 => Some(MoveStatus::Success),
            1 => Some(MoveStatus::MotionStarted),
            2 => Some(MoveStatus::Preempted),
            3 => Some(MoveStatus::CommandNotPossibleRejected),
            4 => Some(MoveStatus::StartAtSingularPoseRejected),
            5 => Some(MoveStatus::InvalidArgumentRejected),
            6 => Some(MoveStatus::ReflexAborted),
            7 => Some(MoveStatus::EmergencyAborted),
            8 => Some(MoveStatus::InputErrorAborted),
            9 => Some(MoveStatus::Aborted),
            _ => None,
        },
        FciVersion::V10 => match byte {
            0 => Some(MoveStatus::Success),
            1 => Some(MoveStatus::MotionStarted),
            2 => Some(MoveStatus::Preempted),
            3 => Some(MoveStatus::PreemptedDueToActivatedSafetyFunctions),
            4 => Some(MoveStatus::CommandRejectedDueToActivatedSafetyFunctions),
            5 => Some(MoveStatus::CommandNotPossibleRejected),
            6 => Some(MoveStatus::StartAtSingularPoseRejected),
            7 => Some(MoveStatus::InvalidArgumentRejected),
            8 => Some(MoveStatus::ReflexAborted),
            9 => Some(MoveStatus::EmergencyAborted),
            10 => Some(MoveStatus::InputErrorAborted),
            11 => Some(MoveStatus::Aborted),
            _ => None,
        },
    };
    match status {
        Some(status) => Ok(status),
        None => Err(unexpected_response(name)),
    }
}

/// How a `StopMove` was answered.
#[derive(Clone, Copy, PartialEq, Eq, Structural, Debug, Hash)]
pub enum StopMoveStatus {
    Success,
    CommandNotPossibleRejected,
    CommandRejectedDueToActivatedSafetyFunctions,
    EmergencyAborted,
    ReflexAborted,
    Aborted,
}

/// The status of a `StopMove` that `byte` stands for under `version`, where there is one.
pub open spec fn stop_move_status_of(version: FciVersion, byte: u8) -> Option<StopMoveStatus> {
    match version {
        FciVersion::V5 => match byte {
            0 => Some(StopMoveStatus::Success),
            1 => Some(StopMoveStatus::CommandNotPossibleRejected),
            2 => Some(StopMoveStatus::EmergencyAborted),
            3 => Some(StopMoveStatus::ReflexAborted),
            4 => Some(StopMoveStatus::Aborted),
            _ => None,
        },
        FciVersion::V10 => match byte {
            0 => Some(StopMoveStatus::Success),
            1 => Some(StopMoveStatus::CommandNotPossibleRejected),
            2 => Some(StopMoveStatus::CommandRejectedDueToActivatedSafetyFunctions),
            3 => Some(StopMoveStatus::EmergencyAborted),
            4 => Some(StopMoveStatus::ReflexAborted),
            5 => Some(StopMoveStatus::Aborted),
            _ => None,
        },
    }
}

/// Reads the status of a `StopMove`; a byte that stands for none is a protocol error that names the
/// command.
pub fn parse_stop_move_status(version: FciVersion, byte: u8, name: &str) -> (r: Result<StopMoveStatus, FrankaError>)
    ensures
        error::seen(r) == known(stop_move_status_of(version, byte), name@),
{
    let status = match version {
        FciVersion::V5 => match byte {
            0 => Some(StopMoveStatus::Success),
            1 => Some(StopMoveStatus::CommandNotPossibleRejected),
            2 => Some(StopMoveStatus::EmergencyAborted),
            3 => Some(StopMoveStatus::ReflexAborted),
            4 => Some(StopMoveStatus::Aborted),
            _ => None,
        },
        FciVersion::V10 => match byte {
            0 => Some(StopMoveStatus::Success),
            1 => Some(StopMoveStatus::CommandNotPossibleRejected),
            2 => Some(StopMoveStatus::CommandRejectedDueToActivatedSafetyFunctions),
            3 => Some(StopMoveStatus::EmergencyAborted),
            4 => Some(StopMoveStatus::ReflexAborted),
            5 => Some(StopMoveStatus::Aborted),
            _ => None,
        },
    };
    match status {
        Some(status) => Ok(status),
        None => Err(unexpected_response(name)),
    }
}

/// How a getter or setter was answered.
#[derive(Clone, Copy, PartialEq, Eq, Structural, Debug, Hash)]
pub enum GetterSetterStatus {
    Success,
    CommandNotPossibleRejected,
    InvalidArgumentRejected,
    CommandRejectedDueToActivatedSafetyFunctions,
}

/// The status of a getter or setter that `byte` stands for under `version`, where there is one.
pub open spec fn getter_setter_status_of(version: FciVersion, byte: u8) -> Option<GetterSetterStatus> {
    match version {
        FciVersion::V5 => match byte {
            0 => Some(GetterSetterStatus::Success),
            1 => Some(GetterSetterStatus::CommandNotPossibleRejected),
            2 => Some(GetterSetterStatus::InvalidArgumentRejected),
            _ => None,
        },
        FciVersion::V10 => match byte {
            0 => Some(GetterSetterStatus::Success),
            1 => Some(GetterSetterStatus::CommandNotPossibleRejected),
            2 => Some(GetterSetterStatus::InvalidArgumentRejected),
            3 => Some(GetterSetterStatus::CommandRejectedDueToActivatedSafetyFunctions),
            _ => None,
        },
    }
}

/// Reads the status of a getter or setter; a byte that stands for none is a protocol error that names the
/// command.
pub fn parse_getter_setter_status(version: FciVersion, byte: u8, name: &str) -> (r: Result<GetterSetterStatus, FrankaError>)
    ensures
        error::seen(r) == known(getter_setter_status_of(version, byte), name@),
{
    let status = match version {
        FciVersion::V5 => match byte {
            0 => Some(GetterSetterStatus::Success),
            1 => Some(GetterSetterStatus::CommandNotPossibleRejected),
            2 => Some(GetterSetterStatus::InvalidArgumentRejected),
            _ => None,
        },
        FciVersion::V10 => match byte {
            0 => Some(GetterSetterStatus::Success),
            1 => Some(GetterSetterStatus::CommandNotPossibleRejected),
            2 => Some(GetterSetterStatus::InvalidArgumentRejected),
            3 => Some(GetterSetterStatus::CommandRejectedDueToActivatedSafetyFunctions),
            _ => None,
        },
    };
    match status {
        Some(status) => Ok(status),
        None => Err(unexpected_response(name)),
    }
}

/// How a plain command was answered.
#[derive(Clone, Copy, PartialEq, Eq, Structural, Debug, Hash)]
pub enum CommandStatus {
    Success,
    CommandNotPossibleRejected,
    CommandRejectedDueToActivatedSafetyFunctions,
}

/// The status of a plain command that `byte` stands for under `version`, where there is one.
pub open spec fn command_status_of(version: FciVersion, byte: u8) -> Option<CommandStatus> {
    match version {
        FciVersion::V5 => match byte {
            0 => Some(CommandStatus::Success),
            1 => Some(CommandStatus::CommandNotPossibleRejected),
            _ => None,
        },
        FciVersion::V10 => match byte {
            0 => Some(CommandStatus::Success),
            1 => Some(CommandStatus::CommandNotPossibleRejected),
            2 => Some(CommandStatus::CommandRejectedDueToActivatedSafetyFunctions),
            _ => None,
        },
    }
}

/// Reads the status of a plain command; a byte that stands for none is a protocol error that names the
/// command.
pub fn parse_command_status(version: FciVersion, byte: u8, name: &str) -> (r: Result<CommandStatus, FrankaError>)
    ensures
        error::seen(r) == known(command_status_of(version, byte), name@),
{
    let status = match version {
        FciVersion::V5 => match byte {
            0 => Some(CommandStatus::Success),
            1 => Some(CommandStatus::CommandNotPossibleRejected),
            _ => None,
        },
        FciVersion::V10 => match byte {
            0 => Some(CommandStatus::Success),
            1 => Some(CommandStatus::CommandNotPossibleRejected),
            2 => Some(CommandStatus::CommandRejectedDueToActivatedSafetyFunctions),
            _ => None,
        },
    };
    match status {
        Some(status) => Ok(status),
        None => Err(unexpected_response(name)),
    }
}

/// How an error recovery was answered.
#[derive(Clone, Copy, PartialEq, Eq, Structural, Debug, Hash)]
pub enum AutomaticErrorRecoveryStatus {
    Success,
    CommandNotPossibleRejected,
    CommandRejectedDueToActivatedSafetyFunctions,
    ManualErrorRecoveryRequiredRejected,
    ReflexAborted,
    EmergencyAborted,
    Aborted,
}

/// The status of an error recovery that `byte` stands for under `version`, where there is one.
pub open spec fn automatic_error_recovery_status_of(version: FciVersion, byte: u8) -> Option<AutomaticErrorRecoveryStatus> {
    match version {
        FciVersion::V5 => match byte {
            0 => Some(AutomaticErrorRecoveryStatus::Success),
            1 => Some(AutomaticErrorRecoveryStatus::CommandNotPossibleRejected),
            2 => Some(AutomaticErrorRecoveryStatus::ManualErrorRecoveryRequiredRejected),
            3 => Some(AutomaticErrorRecoveryStatus::ReflexAborted),
            4 => Some(AutomaticErrorRecoveryStatus::EmergencyAborted),
            5 => Some(AutomaticErrorRecoveryStatus::Aborted),
            _ => None,
        },
        FciVersion::V10 => match byte {
            0 => Some(AutomaticErrorRecoveryStatus::Success),
            1 => Some(AutomaticErrorRecoveryStatus::CommandNotPossibleRejected),
            2 => Some(AutomaticErrorRecoveryStatus::CommandRejectedDueToActivatedSafetyFunctions),
            3 => Some(AutomaticErrorRecoveryStatus::ManualErrorRecoveryRequiredRejected),
            4 => Some(AutomaticErrorRecoveryStatus::ReflexAborted),
            5 => Some(AutomaticErrorRecoveryStatus::EmergencyAborted),
            6 => Some(AutomaticErrorRecoveryStatus::Aborted),
            _ => None,
        },
    }
}

/// Reads the status of an error recovery; a byte that stands for none is a protocol error that names the
/// command.
pub fn parse_automatic_error_recovery_status(version: FciVersion, byte: u8, name: &str) -> (r: Result<AutomaticErrorRecoveryStatus, FrankaError>)
    ensures
        error::seen(r) == known(automatic_error_recovery_status_of(version, byte), name@),
{
    let status = match version {
        FciVersion::V5 => match byte {
            0 => Some(AutomaticErrorRecoveryStatus::Success),
            1 => Some(AutomaticErrorRecoveryStatus::CommandNotPossibleRejected),
            2 => Some(AutomaticErrorRecoveryStatus::ManualErrorRecoveryRequiredRejected),
            3 => Some(AutomaticErrorRecoveryStatus::ReflexAborted),
            4 => Some(AutomaticErrorRecoveryStatus::EmergencyAborted),
            5 => Some(AutomaticErrorRecoveryStatus::Aborted),
            _ => None,
        },
        FciVersion::V10 => match byte {
            0 => Some(AutomaticErrorRecoveryStatus::Success),
            1 => Some(AutomaticErrorRecoveryStatus::CommandNotPossibleRejected),
            2 => Some(AutomaticErrorRecoveryStatus::CommandRejectedDueToActivatedSafetyFunctions),
            3 => Some(AutomaticErrorRecoveryStatus::ManualErrorRecoveryRequiredRejected),
            4 => Some(AutomaticErrorRecoveryStatus::ReflexAborted),
            5 => Some(AutomaticErrorRecoveryStatus::EmergencyAborted),
            6 => Some(AutomaticErrorRecoveryStatus::Aborted),
            _ => None,
        },
    };
    match status {
        Some(status) => Ok(status),
        None => Err(unexpected_response(name)),
    }
}

/// The size of the header before every message: command, number of the request and size of the
/// whole message, four bytes each.
pub const HEADER_SIZE: usize = 12;

/// What follows the header of a message.
pub open spec fn payload_of(message: Seq<u8>) -> Seq<u8> {
    if message.len() >= HEADER_SIZE {
        message.skip(HEADER_SIZE as int)
    } else {
        Seq::empty()
    }
}

/// What follows the header of a message.
pub fn message_payload(message: &[u8]) -> (payload: &[u8])
    ensures
        payload@ == payload_of(message@),
{
    let length: usize = message.len();
    if length >= HEADER_SIZE {
        vstd::slice::slice_subrange(message, HEADER_SIZE, length)
    } else {
        vstd::slice::slice_subrange(message, 0, 0)
    }
}

/// The header of a message with `size` bytes after it.
pub open spec fn header(command: u32, command_id: u32, size: nat) -> Seq<u8> {
    bytes::le(command as nat, 4) + bytes::le(command_id as nat, 4) + bytes::le(
        (HEADER_SIZE + size) as nat,
        4,
    )
}

/// The header of a message with `size` bytes after it.
pub fn encode_header(command: u32, command_id: u32, size: u32) -> (out: Vec<u8>)
    requires
        HEADER_SIZE + size <= u32::MAX,
    ensures
        out@ == header(command, command_id, size as nat),
{
    let mut out: Vec<u8> = Vec::new();
    put_u32(&mut out, command);
    put_u32(&mut out, command_id);
    put_u32(&mut out, 12 + size);
    out
}

/// Command, number of the request and size of the whole message, out of a header.
pub fn decode_header(bytes: &[u8]) -> (r: Option<(u32, u32, u32)>)
    ensures
        r is Some <==> bytes@.len() == HEADER_SIZE,
        r matches Some(h) ==> {
            &&& h.0 == bytes::from_le(bytes@.subrange(0, 4))
            &&& h.1 == bytes::from_le(bytes@.subrange(4, 8))
            &&& h.2 == bytes::from_le(bytes@.subrange(8, 12))
        },
{
    if bytes.len() != HEADER_SIZE {
        return None;
    }
    Some((read_u32(bytes, 0), read_u32(bytes, 4), read_u32(bytes, 8)))
}

/// Decoding a header gives back what it was made of.
pub proof fn law_header_reads_back(command: u32, command_id: u32, size: nat)
    requires
        HEADER_SIZE + size <= u32::MAX,
    ensures
        header(command, command_id, size).len() == HEADER_SIZE,
        bytes::from_le(header(command, command_id, size).subrange(0, 4)) == command,
        bytes::from_le(header(command, command_id, size).subrange(4, 8)) == command_id,
        bytes::from_le(header(command, command_id, size).subrange(8, 12)) == HEADER_SIZE + size,
{
    let total = (HEADER_SIZE + size) as nat;
    reveal_with_fuel(bytes::capacity, 5);
    bytes::lemma_le_len(command as nat, 4);
    bytes::lemma_le_len(command_id as nat, 4);
    bytes::lemma_le_len(total, 4);
    bytes::law_read_of_write(command as nat, 4);
    bytes::law_read_of_write(command_id as nat, 4);
    bytes::law_read_of_write(total, 4);
    let h = header(command, command_id, size);
    assert(h.subrange(0, 4) =~= bytes::le(command as nat, 4));
    assert(h.subrange(4, 8) =~= bytes::le(command_id as nat, 4));
    assert(h.subrange(8, 12) =~= bytes::le(total, 4));
}

/// The first byte after the header, or the error of a message that ends there.
pub open spec fn status_of(message: Seq<u8>) -> Result<u8, ErrorView> {
    if payload_of(message).len() > 0 {
        Ok(payload_of(message)[0])
    } else {
        Err(ErrorView::Protocol("libfranka: Incorrect TCP message size."@))
    }
}

/// The first byte after the header of a response.
pub fn status_byte(message: &[u8]) -> (r: Result<u8, FrankaError>)
    ensures
        error::seen(r) == status_of(message@),
{
    let payload = message_payload(message);
    if payload.len() > 0 {
        Ok(payload[0])
    } else {
        Err(incorrect_message_size())
    }
}

/// How far a motion may stray before the robot stops it.
#[derive(Clone, Copy, PartialEq, Eq, Structural, Debug, Hash)]
pub struct Deviation {
    /// In metres.
    pub translation: Double,
    /// In radians.
    pub rotation: Double,
    /// In radians.
    pub elbow: Double,
}

impl Deviation {
    /// A deviation of so much.
    pub fn new(translation: Double, rotation: Double, elbow: Double) -> (r: Deviation)
        ensures
            r == (Deviation { translation, rotation, elbow }),
    {
        Deviation { translation, rotation, elbow }
    }

    /// The three numbers in order.
    pub open spec fn numbers(self) -> Seq<Double> {
        seq![self.translation, self.rotation, self.elbow]
    }
}

/// What a motion generator commands in one cycle.
#[derive(Clone, Copy, PartialEq, Debug)]
pub struct MotionGeneratorCommand {
    /// Joint positions.
    pub q_c: [Double; 7],
    /// Joint velocities.
    pub dq_c: [Double; 7],
    /// End effector pose, column-major.
    pub O_T_EE_c: [Double; 16],
    /// End effector twist.
    pub O_dP_EE_c: [Double; 6],
    /// Elbow.
    pub elbow_c: [Double; 2],
    /// Whether the elbow is commanded.
    pub valid_elbow: bool,
    /// Whether this is the last command of the motion.
    pub motion_generation_finished: bool,
}

/// What an external controller commands in one cycle.
#[derive(Clone, Copy, PartialEq, Debug)]
pub struct ControllerCommand {
    /// Joint torques.
    pub tau_J_d: [Double; 7],
    /// Whether this is the last command of a torque-only motion.
    pub torque_command_finished: bool,
}

/// One command datagram before it is written down.
#[derive(Clone, Copy, PartialEq, Debug)]
pub struct RobotCommandData {
    /// Number of the state that is answered.
    pub message_id: u64,
    /// The motion generator's part.
    pub motion: MotionGeneratorCommand,
    /// The controller's part.
    pub control: ControllerCommand,
}

impl MotionGeneratorCommand {
    /// Everything zero.
    pub open spec fn blank() -> MotionGeneratorCommand {
        MotionGeneratorCommand {
            q_c: robot_state::zeros(),
            dq_c: robot_state::zeros(),
            O_T_EE_c: robot_state::zeros(),
            O_dP_EE_c: robot_state::zeros(),
            elbow_c: robot_state::zeros(),
            valid_elbow: false,
            motion_generation_finished: false,
        }
    }
}

impl Default for MotionGeneratorCommand {
    /// Everything zero.
    fn default() -> (r: MotionGeneratorCommand)
        ensures
            r == MotionGeneratorCommand::blank(),
    {
        let zero = Double { bits: 0 };
        MotionGeneratorCommand {
            q_c: [zero; 7],
            dq_c: [zero; 7],
            O_T_EE_c: [zero; 16],
            O_dP_EE_c: [zero; 6],
            elbow_c: [zero; 2],
            valid_elbow: false,
            motion_generation_finished: false,
        }
    }
}

impl ControllerCommand {
    /// Everything zero.
    pub open spec fn blank() -> ControllerCommand {
        ControllerCommand { tau_J_d: robot_state::zeros(), torque_command_finished: false }
    }
}

impl Default for ControllerCommand {
    /// Everything zero.
    fn default() -> (r: ControllerCommand)
        ensures
            r == ControllerCommand::blank(),
    {
        let zero = Double { bits: 0 };
        ControllerCommand { tau_J_d: [zero; 7], torque_command_finished: false }
    }
}

impl RobotCommandData {
    /// Everything zero.
    pub open spec fn blank() -> RobotCommandData {
        RobotCommandData {
            message_id: 0,
            motion: MotionGeneratorCommand::blank(),
            control: ControllerCommand::blank(),
        }
    }

    /// What the log keeps of a command.
    pub open spec fn logged(self) -> RobotCommandLog {
        RobotCommandLog {
            q_c: self.motion.q_c,
            dq_c: self.motion.dq_c,
            O_T_EE_c: self.motion.O_T_EE_c,
            O_dP_EE_c: self.motion.O_dP_EE_c,
            elbow_c: self.motion.elbow_c,
            tau_J_d: self.control.tau_J_d,
        }
    }

    /// The datagram of a command.
    pub open spec fn encoded(self, version: FciVersion) -> Seq<u8> {
        let motion = bytes::doubles(self.motion.q_c@) + bytes::doubles(self.motion.dq_c@)
            + bytes::doubles(self.motion.O_T_EE_c@) + bytes::doubles(self.motion.O_dP_EE_c@)
            + bytes::doubles(self.motion.elbow_c@) + bytes::flag(self.motion.valid_elbow)
            + bytes::flag(self.motion.motion_generation_finished);
        let control = bytes::doubles(self.control.tau_J_d@);
        let finished = match version {
            FciVersion::V5 => Seq::empty(),
            FciVersion::V10 => bytes::flag(self.control.torque_command_finished),
        };
        bytes::le(self.message_id as nat, 8) + motion + control + finished
    }
}

impl Default for RobotCommandData {
    /// Everything zero.
    fn default() -> (r: RobotCommandData)
        ensures
            r == RobotCommandData::blank(),
    {
        RobotCommandData {
            message_id: 0,
            motion: MotionGeneratorCommand::default(),
            control: ControllerCommand::default(),
        }
    }
}

/// What the log keeps of a command.
pub fn command_log(command: &RobotCommandData) -> (r: RobotCommandLog)
    ensures
        r == command.logged(),
{
    RobotCommandLog {
        q_c: command.motion.q_c,
        dq_c: command.motion.dq_c,
        O_T_EE_c: command.motion.O_T_EE_c,
        O_dP_EE_c: command.motion.O_dP_EE_c,
        elbow_c: command.motion.elbow_c,
        tau_J_d: command.control.tau_J_d,
    }
}

/// The size of a command datagram.
pub fn command_size(version: FciVersion) -> (n: usize)
    ensures
        n == (match version {
            FciVersion::V5 => 370usize,
            FciVersion::V10 => 371usize,
        }),
        forall|data: RobotCommandData| #[trigger] data.encoded(version).len() == n,
{
    proof {
        assert forall|data: RobotCommandData| #[trigger] data.encoded(version).len() == (
        match version {
            FciVersion::V5 => 370nat,
            FciVersion::V10 => 371nat,
        }) by {
            law_command_size(version, data);
        }
    }
    match version {
        FciVersion::V5 => 370,
        FciVersion::V10 => 371,
    }
}

/// A command datagram has 370 bytes under version 5 and 371 under version 10.
pub proof fn law_command_size(version: FciVersion, data: RobotCommandData)
    ensures
        data.encoded(version).len() == (match version {
            FciVersion::V5 => 370nat,
            FciVersion::V10 => 371nat,
        }),
{
    bytes::lemma_le_len(data.message_id as nat, 8);
    bytes::lemma_doubles_len(data.motion.q_c@);
    bytes::lemma_doubles_len(data.motion.dq_c@);
    bytes::lemma_doubles_len(data.motion.O_T_EE_c@);
    bytes::lemma_doubles_len(data.motion.O_dP_EE_c@);
    bytes::lemma_doubles_len(data.motion.elbow_c@);
    bytes::lemma_doubles_len(data.control.tau_J_d@);
}

/// Writes down a command datagram.
pub fn robot_command(version: FciVersion, data: &RobotCommandData) -> (out: Vec<u8>)
    ensures
        out@ == data.encoded(version),
{
    let mut out: Vec<u8> = Vec::new();
    put_u64(&mut out, data.message_id);
    put_doubles(&mut out, &data.motion.q_c);
    put_doubles(&mut out, &data.motion.dq_c);
    put_doubles(&mut out, &data.motion.O_T_EE_c);
    put_doubles(&mut out, &data.motion.O_dP_EE_c);
    put_doubles(&mut out, &data.motion.elbow_c);
    put_bool(&mut out, data.motion.valid_elbow);
    put_bool(&mut out, data.motion.motion_generation_finished);
    put_doubles(&mut out, &data.control.tau_J_d);
    match version {
        FciVersion::V5 => {},
        FciVersion::V10 => {
            put_bool(&mut out, data.control.torque_command_finished);
        },
    }
    assert(out@ =~= data.encoded(version));
    out
}

/// Version 5 numbers the commands from zero on. Version 10 numbers those that it has in the same
/// order without a gap, and the robot description, which is its own, after them.
pub proof fn law_numbering(a: CommandKind, b: CommandKind)
    ensures
        ({
            let five = |kind: CommandKind| id_of(FciVersion::V5, kind);
            let ten = |kind: CommandKind| id_of(FciVersion::V10, kind);
            &&& five(a) matches Some(id) ==> id < 14
            &&& ten(a) matches Some(id) ==> id < 13
            &&& five(a) is None <==> a is GetRobotModel
            &&& ten(a) is None <==> a is GetCartesianLimit || a is SetFilters
            &&& ten(a) == Some(12u32) <==> a is GetRobotModel
            &&& five(a) is Some && five(b) is Some && ten(a) is Some && ten(b) is Some ==> (
            five(a)->Some_0 < five(b)->Some_0 <==> ten(a)->Some_0 < ten(b)->Some_0)
            &&& five(a) == Some(0u32) <==> a is Connect
            &&& five(a) == Some(1u32) <==> a is Move
            &&& five(a) == Some(2u32) <==> a is StopMove
            &&& five(a) == Some(3u32) <==> a is GetCartesianLimit
            &&& five(a) == Some(4u32) <==> a is SetCollisionBehavior
            &&& five(a) == Some(5u32) <==> a is SetJointImpedance
            &&& five(a) == Some(6u32) <==> a is SetCartesianImpedance
            &&& five(a) == Some(7u32) <==> a is SetGuidingMode
            &&& five(a) == Some(8u32) <==> a is SetEEToK
            &&& five(a) == Some(9u32) <==> a is SetNEToEE
            &&& five(a) == Some(10u32) <==> a is SetLoad
            &&& five(a) == Some(11u32) <==> a is SetFilters
            &&& five(a) == Some(12u32) <==> a is AutomaticErrorRecovery
            &&& five(a) == Some(13u32) <==> a is LoadModelLibrary
        }),
{
}

/// Zero stands for success under both versions, whatever was asked for.
pub proof fn law_zero_is_success(version: FciVersion, byte: u8)
    ensures
        move_status_of(version, byte) == Some(MoveStatus::Success) <==> byte == 0,
        stop_move_status_of(version, byte) == Some(StopMoveStatus::Success) <==> byte == 0,
        getter_setter_status_of(version, byte) == Some(GetterSetterStatus::Success) <==> byte == 0,
        command_status_of(version, byte) == Some(CommandStatus::Success) <==> byte == 0,
        automatic_error_recovery_status_of(version, byte) == Some(
            AutomaticErrorRecoveryStatus::Success,
        ) <==> byte == 0,
{
}

/// Version 10 tells a `Move` all that version 5 does, and of its safety functions after the third
/// status: it keeps the first three bytes, takes the two after them for these, and moves the rest up
/// by two.
pub proof fn law_move_statuses(version: FciVersion, byte: u8)
    ensures
        ({
            let five = |byte: int| move_status_of(FciVersion::V5, byte as u8);
            let ten = |byte: int| move_status_of(FciVersion::V10, byte as u8);
            let at = |byte: int, status: MoveStatus| five(byte) == Some(status);
            &&& five(byte as int) is Some <==> byte < 10
            &&& ten(byte as int) is Some <==> byte < 12
            &&& byte < 3 ==> ten(byte as int) == five(byte as int)
            &&& 3 <= byte < 10 ==> ten(byte + 2) == five(byte as int)
            &&& ten(byte as int) == Some(MoveStatus::PreemptedDueToActivatedSafetyFunctions) <==> byte
                == 3
            &&& ten(byte as int) == Some(MoveStatus::CommandRejectedDueToActivatedSafetyFunctions)
                <==> byte == 4
            &&& at(byte as int, MoveStatus::MotionStarted) <==> byte == 1
            &&& at(byte as int, MoveStatus::Preempted) <==> byte == 2
            &&& at(byte as int, MoveStatus::CommandNotPossibleRejected) <==> byte == 3
            &&& at(byte as int, MoveStatus::StartAtSingularPoseRejected) <==> byte == 4
            &&& at(byte as int, MoveStatus::InvalidArgumentRejected) <==> byte == 5
            &&& at(byte as int, MoveStatus::ReflexAborted) <==> byte == 6
            &&& at(byte as int, MoveStatus::EmergencyAborted) <==> byte == 7
            &&& at(byte as int, MoveStatus::InputErrorAborted) <==> byte == 8
            &&& at(byte as int, MoveStatus::Aborted) <==> byte == 9
        }),
{
}

/// The other statuses likewise: version 10 takes one byte for its safety functions and moves those
/// after it up by one.
pub proof fn law_other_statuses(byte: u8)
    ensures
        ({
            let stop5 = |byte: int| stop_move_status_of(FciVersion::V5, byte as u8);
            let stop10 = |byte: int| stop_move_status_of(FciVersion::V10, byte as u8);
            &&& stop5(byte as int) is Some <==> byte < 5
            &&& stop10(byte as int) is Some <==> byte < 6
            &&& byte < 2 ==> stop10(byte as int) == stop5(byte as int)
            &&& 2 <= byte < 5 ==> stop10(byte + 1) == stop5(byte as int)
            &&& stop10(byte as int) == Some(
                StopMoveStatus::CommandRejectedDueToActivatedSafetyFunctions,
            ) <==> byte == 2
            &&& stop5(byte as int) == Some(StopMoveStatus::CommandNotPossibleRejected) <==> byte == 1
            &&& stop5(byte as int) == Some(StopMoveStatus::EmergencyAborted) <==> byte == 2
            &&& stop5(byte as int) == Some(StopMoveStatus::ReflexAborted) <==> byte == 3
            &&& stop5(byte as int) == Some(StopMoveStatus::Aborted) <==> byte == 4
        }),
        ({
            let set5 = getter_setter_status_of(FciVersion::V5, byte);
            let set10 = getter_setter_status_of(FciVersion::V10, byte);
            &&& set5 is Some <==> byte < 3
            &&& set10 is Some <==> byte < 4
            &&& byte < 3 ==> set5 == set10
            &&& set10 == Some(GetterSetterStatus::CommandNotPossibleRejected) <==> byte == 1
            &&& set10 == Some(GetterSetterStatus::InvalidArgumentRejected) <==> byte == 2
            &&& set10 == Some(GetterSetterStatus::CommandRejectedDueToActivatedSafetyFunctions)
                <==> byte == 3
        }),
        ({
            let plain5 = command_status_of(FciVersion::V5, byte);
            let plain10 = command_status_of(FciVersion::V10, byte);
            &&& plain5 is Some <==> byte < 2
            &&& plain10 is Some <==> byte < 3
            &&& byte < 2 ==> plain5 == plain10
            &&& plain10 == Some(CommandStatus::CommandNotPossibleRejected) <==> byte == 1
            &&& plain10 == Some(CommandStatus::CommandRejectedDueToActivatedSafetyFunctions) <==> byte
                == 2
        }),
        ({
            let recovery5 = |byte: int| automatic_error_recovery_status_of(FciVersion::V5, byte as u8);
            let recovery10 = |byte: int|
                automatic_error_recovery_status_of(FciVersion::V10, byte as u8);
            let at = |byte: int, status: AutomaticErrorRecoveryStatus|
                recovery5(byte) == Some(status);
            &&& recovery5(byte as int) is Some <==> byte < 6
            &&& recovery10(byte as int) is Some <==> byte < 7
            &&& byte < 2 ==> recovery10(byte as int) == recovery5(byte as int)
            &&& 2 <= byte < 6 ==> recovery10(byte + 1) == recovery5(byte as int)
            &&& recovery10(byte as int) == Some(
                AutomaticErrorRecoveryStatus::CommandRejectedDueToActivatedSafetyFunctions,
            ) <==> byte == 2
            &&& at(byte as int, AutomaticErrorRecoveryStatus::CommandNotPossibleRejected) <==> byte
                == 1
            &&& at(byte as int, AutomaticErrorRecoveryStatus::ManualErrorRecoveryRequiredRejected)
                <==> byte == 2
            &&& at(byte as int, AutomaticErrorRecoveryStatus::ReflexAborted) <==> byte == 3
            &&& at(byte as int, AutomaticErrorRecoveryStatus::EmergencyAborted) <==> byte == 4
            &&& at(byte as int, AutomaticErrorRecoveryStatus::Aborted) <==> byte == 5
        }),
{
}

/// A status that stands for something is taken for that; any other is against the protocol, and the
/// error names the command.
pub proof fn law_unknown_statuses<T>(status: Option<T>, name: Seq<char>)
    ensures
        known(status, name) is Ok <==> status is Some,
        known(status, name) matches Ok(value) ==> status == Some(value),
        known(status, name) matches Err(e) ==> (e matches ErrorView::Protocol(text)
            && crate::text::mentions(text, name)),
{
    if status is None {
        let head = "libfranka: Unexpected response while handling "@;
        let text = head + name + " command!"@;
        let at = head.len() as int;
        assert(text.subrange(at, at + name.len()) =~= name);
    }
}

/// What follows the twelve bytes of a header is the payload, and its first byte the status; a message
/// without one is against the protocol.
pub proof fn law_payload_and_status(message: Seq<u8>, i: int)
    ensures
        payload_of(message).len() == if message.len() > 12 {
            message.len() - 12
        } else {
            0
        },
        0 <= i < payload_of(message).len() ==> payload_of(message)[i] == message[12 + i],
        status_of(message) is Ok <==> message.len() > 12,
        status_of(message) matches Ok(byte) ==> byte == message[12],
        status_of(message) matches Err(e) ==> e is Protocol,
{
}

/// Where the parts of a command datagram lie.
pub open spec fn command_fields(data: RobotCommandData, datagram: Seq<u8>, i: int) -> bool {
    &&& bytes::from_le(datagram.subrange(0, 8)) == data.message_id
    &&& 0 <= i < 7 ==> bytes::double_at(datagram, 8 + 8 * i) == data.motion.q_c[i]
    &&& 0 <= i < 7 ==> bytes::double_at(datagram, 64 + 8 * i) == data.motion.dq_c[i]
    &&& 0 <= i < 16 ==> bytes::double_at(datagram, 120 + 8 * i) == data.motion.O_T_EE_c[i]
    &&& 0 <= i < 6 ==> bytes::double_at(datagram, 248 + 8 * i) == data.motion.O_dP_EE_c[i]
    &&& 0 <= i < 2 ==> bytes::double_at(datagram, 296 + 8 * i) == data.motion.elbow_c[i]
    &&& datagram[312] == 1 <==> data.motion.valid_elbow
    &&& datagram[313] == 1 <==> data.motion.motion_generation_finished
    &&& 0 <= i < 7 ==> bytes::double_at(datagram, 314 + 8 * i) == data.control.tau_J_d[i]
}

/// The bytes of a motion command within a command datagram.
spec fn motion_bytes(motion: MotionGeneratorCommand) -> Seq<u8> {
    bytes::doubles(motion.q_c@) + bytes::doubles(motion.dq_c@) + bytes::doubles(motion.O_T_EE_c@)
        + bytes::doubles(motion.O_dP_EE_c@) + bytes::doubles(motion.elbow_c@) + bytes::flag(
        motion.valid_elbow,
    ) + bytes::flag(motion.motion_generation_finished)
}

/// Where the parts of a motion command lie.
proof fn lemma_motion_reads_back(motion: MotionGeneratorCommand, i: int)
    ensures
        motion_bytes(motion).len() == 306,
        0 <= i < 7 ==> bytes::double_at(motion_bytes(motion), 8 * i) == motion.q_c[i],
        0 <= i < 7 ==> bytes::double_at(motion_bytes(motion), 56 + 8 * i) == motion.dq_c[i],
        0 <= i < 16 ==> bytes::double_at(motion_bytes(motion), 112 + 8 * i) == motion.O_T_EE_c[i],
        0 <= i < 6 ==> bytes::double_at(motion_bytes(motion), 240 + 8 * i) == motion.O_dP_EE_c[i],
        0 <= i < 2 ==> bytes::double_at(motion_bytes(motion), 288 + 8 * i) == motion.elbow_c[i],
        motion_bytes(motion)[304] == 1 <==> motion.valid_elbow,
        motion_bytes(motion)[305] == 1 <==> motion.motion_generation_finished,
{
    let q = bytes::doubles(motion.q_c@);
    let dq = bytes::doubles(motion.dq_c@);
    let pose = bytes::doubles(motion.O_T_EE_c@);
    let twist = bytes::doubles(motion.O_dP_EE_c@);
    let elbow = bytes::doubles(motion.elbow_c@);
    let valid = bytes::flag(motion.valid_elbow);
    let finished = bytes::flag(motion.motion_generation_finished);
    bytes::lemma_doubles_len(motion.q_c@);
    bytes::lemma_doubles_len(motion.dq_c@);
    bytes::lemma_doubles_len(motion.O_T_EE_c@);
    bytes::lemma_doubles_len(motion.O_dP_EE_c@);
    bytes::lemma_doubles_len(motion.elbow_c@);
    let m2 = q + dq;
    let m3 = m2 + pose;
    let m4 = m3 + twist;
    let m5 = m4 + elbow;
    let m6 = m5 + valid;
    if 0 <= i < 7 {
        bytes::lemma_double_of(motion.q_c@, i);
        bytes::lemma_double_of(motion.dq_c@, i);
        bytes::lemma_double_at_start(q, dq, 8 * i);
        bytes::lemma_double_at_end(q, dq, 8 * i);
        bytes::lemma_double_at_start(m2, pose, 8 * i);
        bytes::lemma_double_at_start(m2, pose, 56 + 8 * i);
        bytes::lemma_double_at_start(m3, twist, 8 * i);
        bytes::lemma_double_at_start(m3, twist, 56 + 8 * i);
        bytes::lemma_double_at_start(m4, elbow, 8 * i);
        bytes::lemma_double_at_start(m4, elbow, 56 + 8 * i);
        bytes::lemma_double_at_start(m5, valid, 8 * i);
        bytes::lemma_double_at_start(m5, valid, 56 + 8 * i);
        bytes::lemma_double_at_start(m6, finished, 8 * i);
        bytes::lemma_double_at_start(m6, finished, 56 + 8 * i);
    }
    if 0 <= i < 16 {
        bytes::lemma_double_of(motion.O_T_EE_c@, i);
        bytes::lemma_double_at_end(m2, pose, 8 * i);
        bytes::lemma_double_at_start(m3, twist, 112 + 8 * i);
        bytes::lemma_double_at_start(m4, elbow, 112 + 8 * i);
        bytes::lemma_double_at_start(m5, valid, 112 + 8 * i);
        bytes::lemma_double_at_start(m6, finished, 112 + 8 * i);
    }
    if 0 <= i < 6 {
        bytes::lemma_double_of(motion.O_dP_EE_c@, i);
        bytes::lemma_double_at_end(m3, twist, 8 * i);
        bytes::lemma_double_at_start(m4, elbow, 240 + 8 * i);
        bytes::lemma_double_at_start(m5, valid, 240 + 8 * i);
        bytes::lemma_double_at_start(m6, finished, 240 + 8 * i);
    }
    if 0 <= i < 2 {
        bytes::lemma_double_of(motion.elbow_c@, i);
        bytes::lemma_double_at_end(m4, elbow, 8 * i);
        bytes::lemma_double_at_start(m5, valid, 288 + 8 * i);
        bytes::lemma_double_at_start(m6, finished, 288 + 8 * i);
    }
}

/// Every part of a command datagram is read back from its place: the number of the state, the joint
/// positions and velocities, the pose, the twist, the elbow, the two flags and the torques, and under
/// version 10 the flag of the last torques.
pub proof fn law_command_reads_back(version: FciVersion, data: RobotCommandData, i: int)
    ensures
        command_fields(data, data.encoded(version), i),
        version is V10 ==> (data.encoded(version)[370] == 1 <==> data.control.torque_command_finished),
{
    let id = bytes::le(data.message_id as nat, 8);
    let motion = motion_bytes(data.motion);
    let control = bytes::doubles(data.control.tau_J_d@);
    let tail = match version {
        FciVersion::V5 => Seq::empty(),
        FciVersion::V10 => bytes::flag(data.control.torque_command_finished),
    };
    let front = id + motion;
    let body = front + control;
    let whole = body + tail;
    assert(whole == data.encoded(version));
    bytes::lemma_le_len(data.message_id as nat, 8);
    bytes::lemma_doubles_len(data.control.tau_J_d@);
    lemma_motion_reads_back(data.motion, i);
    assert(bytes::capacity(8) == 0x1_0000_0000_0000_0000) by {
        reveal_with_fuel(bytes::capacity, 9);
    }
    bytes::law_read_of_write(data.message_id as nat, 8);
    assert(whole.subrange(0, 8) =~= id);
    assert forall|at: int| 0 <= at <= 298 implies #[trigger] bytes::double_at(whole, 8 + at)
        == bytes::double_at(motion, at) by {
        bytes::lemma_double_at_end(id, motion, at);
        bytes::lemma_double_at_start(front, control, 8 + at);
        bytes::lemma_double_at_start(body, tail, 8 + at);
    }
    if 0 <= i < 7 {
        assert(bytes::double_at(whole, 8 + 8 * i) == bytes::double_at(motion, 8 * i));
        assert(bytes::double_at(whole, 8 + (56 + 8 * i)) == bytes::double_at(motion, 56 + 8 * i));
        bytes::lemma_double_of(data.control.tau_J_d@, i);
        bytes::lemma_double_at_end(front, control, 8 * i);
        bytes::lemma_double_at_start(body, tail, 314 + 8 * i);
    }
    assert(0 <= i < 16 ==> bytes::double_at(whole, 8 + (112 + 8 * i)) == bytes::double_at(
        motion,
        112 + 8 * i,
    ));
    assert(0 <= i < 6 ==> bytes::double_at(whole, 8 + (240 + 8 * i)) == bytes::double_at(
        motion,
        240 + 8 * i,
    ));
    assert(0 <= i < 2 ==> bytes::double_at(whole, 8 + (288 + 8 * i)) == bytes::double_at(
        motion,
        288 + 8 * i,
    ));
    assert(whole[312] == motion[304] && whole[313] == motion[305]);
}

/// The log keeps of a command what it commanded, each part under its own name.
pub proof fn law_log_of_a_command(data: RobotCommandData)
    ensures
        data.logged().q_c == data.motion.q_c,
        data.logged().dq_c == data.motion.dq_c,
        data.logged().O_T_EE_c == data.motion.O_T_EE_c,
        data.logged().O_dP_EE_c == data.motion.O_dP_EE_c,
        data.logged().elbow_c == data.motion.elbow_c,
        data.logged().tau_J_d == data.control.tau_J_d,
{
}

/// A header tells the command, the number of the request and the size of the whole message, in four
/// bytes each.
pub proof fn law_header_layout(command: u32, command_id: u32, size: nat)
    requires
        12 + size <= u32::MAX,
    ensures
        header(command, command_id, size).len() == 12,
        bytes::from_le(header(command, command_id, size).take(4)) == command,
        bytes::from_le(header(command, command_id, size).subrange(4, 8)) == command_id,
        bytes::from_le(header(command, command_id, size).skip(8)) == 12 + size,
{
    law_header_reads_back(command, command_id, size);
    let h = header(command, command_id, size);
    assert(h.take(4) =~= h.subrange(0, 4));
    assert(h.skip(8) =~= h.subrange(8, 12));
}

/// A state of version 5 has 2373 bytes and one of version 10 has 1377; the versions announce
/// themselves as 5 and 10.
pub proof fn law_versions_by_number(version: FciVersion)
    ensures
        version.spoken() == 5 <==> version is V5,
        version.spoken() == 10 <==> version is V10,
        state_len(version) == 2373 <==> version is V5,
        state_len(version) == 1377 <==> version is V10,
{
}

} // verus!
