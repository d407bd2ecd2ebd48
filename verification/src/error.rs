//! The errors of this crate.
use crate::errors::Errors;
use crate::robot_state::Record;
use vstd::prelude::*;

verus! {

/// How a `Move` ended, or why it did not start.
#[derive(Clone, Copy, PartialEq, Eq, Structural, Debug, Hash)]
pub enum MoveStatus {
    Success,
    MotionStarted,
    Preempted,
    PreemptedDueToActivatedSafetyFunctions,
    CommandRejectedDueToActivatedSafetyFunctions,
    CommandNotPossibleRejected,
    StartAtSingularPoseRejected,
    InvalidArgumentRejected,
    ReflexAborted,
    EmergencyAborted,
    InputErrorAborted,
    Aborted,
}

/// A motion that did not end regularly.
#[derive(Debug)]
pub struct ControlException {
    /// What happened.
    pub message: String,
    /// The terminal status of the `Move`, where one was received.
    pub move_status: Option<MoveStatus>,
    /// The errors that the robot reported.
    pub last_motion_errors: Errors,
    /// The last cycles before the end, oldest first.
    pub log: Vec<Record>,
}

/// What can go wrong.
#[derive(Debug)]
pub enum FrankaError {
    /// The robot refused or aborted a command.
    Command(String),
    /// A motion did not end regularly.
    Control(ControlException),
    /// The robot sent something that the protocol does not provide for.
    Protocol(String),
    /// The connection failed.
    Network(String),
    /// The operation does not exist, or not now.
    InvalidOperation(String),
    /// An argument is out of range.
    InvalidArgument(String),
    /// Realtime priority could not be had.
    Realtime(String),
    /// The model library could not be loaded.
    Model(String),
    /// The robot speaks another version of the protocol.
    IncompatibleVersion {
        /// The version that the robot speaks.
        server_version: u16,
        /// The version that was announced to it.
        library_version: u16,
    },
}

/// A [`ControlException`] in terms of its texts and records.
#[verifier::ext_equal]
pub struct ControlView {
    pub message: Seq<char>,
    pub move_status: Option<MoveStatus>,
    pub last_motion_errors: Errors,
    pub log: Seq<Record>,
}

/// A [`FrankaError`] in terms of its texts and records.
#[verifier::ext_equal]
pub enum ErrorView {
    Command(Seq<char>),
    Control(ControlView),
    Protocol(Seq<char>),
    Network(Seq<char>),
    InvalidOperation(Seq<char>),
    InvalidArgument(Seq<char>),
    Realtime(Seq<char>),
    Model(Seq<char>),
    IncompatibleVersion { server_version: u16, library_version: u16 },
}

impl View for ControlException {
    type V = ControlView;

    open spec fn view(&self) -> ControlView {
        ControlView {
            message: self.message@,
            move_status: self.move_status,
            last_motion_errors: self.last_motion_errors,
            log: self.log@,
        }
    }
}

impl View for FrankaError {
    type V = ErrorView;

    open spec fn view(&self) -> ErrorView {
        match self {
            FrankaError::Command(text) => ErrorView::Command(text@),
            FrankaError::Control(exception) => ErrorView::Control(exception@),
            FrankaError::Protocol(text) => ErrorView::Protocol(text@),
            FrankaError::Network(text) => ErrorView::Network(text@),
            FrankaError::InvalidOperation(text) => ErrorView::InvalidOperation(text@),
            FrankaError::InvalidArgument(text) => ErrorView::InvalidArgument(text@),
            FrankaError::Realtime(text) => ErrorView::Realtime(text@),
            FrankaError::Model(text) => ErrorView::Model(text@),
            FrankaError::IncompatibleVersion { server_version, library_version } => {
                ErrorView::IncompatibleVersion {
                    server_version: *server_version,
                    library_version: *library_version,
                }
            },
        }
    }
}

/// The result of an operation, its error in terms of texts and records.
pub open spec fn seen<T>(result: Result<T, FrankaError>) -> Result<T, ErrorView> {
    match result {
        Ok(value) => Ok(value),
        Err(error) => Err(error@),
    }
}

impl ControlException {
    /// An exception with a message alone.
    pub fn new(message: String) -> (r: ControlException)
        ensures
            r@ == (ControlView {
                message: message@,
                move_status: None,
                last_motion_errors: Errors::none(),
                log: Seq::empty(),
            }),
    {
        ControlException {
            message,
            move_status: None,
            last_motion_errors: Errors::default(),
            log: Vec::new(),
        }
    }
}

/// The error of an exception with a message alone.
pub open spec fn bare_control(message: Seq<char>) -> ErrorView {
    ErrorView::Control(
        ControlView {
            message,
            move_status: None,
            last_motion_errors: Errors::none(),
            log: Seq::empty(),
        },
    )
}

/// The error of an exception with a message alone.
pub fn control_error(message: &str) -> (r: FrankaError)
    ensures
        r@ == bare_control(message@),
{
    FrankaError::Control(ControlException::new(String::from_str(message)))
}

/// A protocol error.
pub fn protocol_error(message: &str) -> (r: FrankaError)
    ensures
        r@ == ErrorView::Protocol(message@),
{
    FrankaError::Protocol(String::from_str(message))
}

/// A state datagram does not have the size of a state.
pub fn incorrect_object_size() -> (r: FrankaError)
    ensures
        r@ == ErrorView::Protocol("libfranka: incorrect object size"@),
{
    protocol_error("libfranka: incorrect object size")
}

/// A response does not have the size of a response.
pub fn incorrect_message_size() -> (r: FrankaError)
    ensures
        r@ == ErrorView::Protocol("libfranka: Incorrect TCP message size."@),
{
    protocol_error("libfranka: Incorrect TCP message size.")
}

} // verus!
