//! How operations and the outside world take turns.
//!
//! An operation hands out an [`Action`]; whoever drives it performs the action and hands back the
//! [`Event`] that came of it; the operation goes on from there, until it ends with a result.
use crate::error::FrankaError;
use crate::robot_state::RobotState;
use crate::wire::codec::RobotCommandData;
use crate::wire::modes::StateModes;
use crate::wire::request::Request;
use vstd::prelude::*;

verus! {

/// What an operation wants done next.
#[derive(Clone, Copy, PartialEq, Debug)]
pub enum Action {
    /// Fail if the TCP connection is closed; answered by [`Event::Connected`].
    CheckConnection,
    /// Say whether the TCP connection is open; answered by [`Event::Alive`].
    CheckAlive,
    /// Send a request under the command number; answered by [`Event::Sent`].
    Send { command: u32, request: Request },
    /// Wait for the response to a request; answered by [`Event::Response`].
    AwaitResponse { command_id: u32 },
    /// Wait for the terminal response to a `Move`; answered by [`Event::MoveEnd`].
    AwaitMoveEnd { command_id: u32 },
    /// Take the response to a request if it has arrived; answered by [`Event::Response`] or
    /// [`Event::NoResponse`].
    PollResponse { command_id: u32 },
    /// Take a state datagram if one has arrived; answered by [`Event::State`] or
    /// [`Event::NoState`].
    PollState,
    /// Wait for a state datagram; answered by [`Event::State`].
    AwaitState,
    /// Send a command datagram; answered by [`Event::CommandSent`].
    SendCommand { data: RobotCommandData },
}

/// A datagram of the state stream, decoded.
#[derive(Debug)]
pub struct StateDatagram {
    /// How many bytes arrived.
    pub size: usize,
    /// What the bytes say of the modes.
    pub modes: Result<StateModes, FrankaError>,
    /// What the bytes say of the whole state.
    pub state: Result<RobotState, FrankaError>,
}

/// What came of an action.
#[derive(Debug)]
pub enum Event {
    /// The action failed. Every operation ends with this error.
    Failed(FrankaError),
    /// The connection is open.
    Connected,
    /// Whether the connection is open.
    Alive(bool),
    /// The request was sent; this number will be on its responses.
    Sent(u32),
    /// A response, header included.
    Response(Vec<u8>),
    /// No response has arrived.
    NoResponse,
    /// The terminal response to a `Move`, header included, and the success rate of the log at that
    /// time as text.
    MoveEnd {
        message: Vec<u8>,
        /// `control_command_success_rate` of the line before the last, less what the lost packets
        /// cost, as an output stream would print it.
        success_rate: String,
    },
    /// A state datagram.
    State(StateDatagram),
    /// No state datagram has arrived.
    NoState,
    /// The command was sent.
    CommandSent,
}

/// Where an operation stands: it goes on with an action, or it is over.
#[derive(Debug)]
pub enum Progress<O, A, R> {
    /// The operation goes on once the action is performed.
    Continue(O, A),
    /// The operation ended.
    Done(R),
}

impl Action {
    /// Whether an event is an answer to this action.
    pub open spec fn answered(self, event: Event) -> bool {
        event is Failed || match self {
            Action::CheckConnection => event is Connected,
            Action::CheckAlive => event is Alive,
            Action::Send { .. } => event is Sent,
            Action::AwaitResponse { .. } => event is Response,
            Action::AwaitMoveEnd { .. } => event is MoveEnd,
            Action::PollResponse { .. } => event is Response || event is NoResponse,
            Action::PollState => event is State || event is NoState,
            Action::AwaitState => event is State,
            Action::SendCommand { .. } => event is CommandSent,
        }
    }

    /// Whether an event is an answer to this action.
    pub fn answered_by(&self, event: &Event) -> (b: bool)
        ensures
            b == self.answered(*event),
    {
        match event {
            Event::Failed(_) => true,
            Event::Connected => matches!(self, Action::CheckConnection),
            Event::Alive(_) => matches!(self, Action::CheckAlive),
            Event::Sent(_) => matches!(self, Action::Send { .. }),
            Event::Response(_) => matches!(self, Action::AwaitResponse { .. } | Action::PollResponse { .. }),
            Event::NoResponse => matches!(self, Action::PollResponse { .. }),
            Event::MoveEnd { .. } => matches!(self, Action::AwaitMoveEnd { .. }),
            Event::State(_) => matches!(self, Action::PollState | Action::AwaitState),
            Event::NoState => matches!(self, Action::PollState),
            Event::CommandSent => matches!(self, Action::SendCommand { .. }),
        }
    }
}

/// A failure answers every action. Beyond that an action is answered by what it asks for and by
/// nothing else; only polling may also be told that nothing is there.
pub proof fn law_answers(action: Action, event: Event)
    ensures
        event is Failed ==> action.answered(event),
        event is Connected ==> (action.answered(event) <==> action is CheckConnection),
        event is Alive ==> (action.answered(event) <==> action is CheckAlive),
        event is Sent ==> (action.answered(event) <==> action is Send),
        event is Response ==> (action.answered(event) <==> action is AwaitResponse || action
            is PollResponse),
        event is NoResponse ==> (action.answered(event) <==> action is PollResponse),
        event is MoveEnd ==> (action.answered(event) <==> action is AwaitMoveEnd),
        event is State ==> (action.answered(event) <==> action is PollState || action is AwaitState),
        event is NoState ==> (action.answered(event) <==> action is PollState),
        event is CommandSent ==> (action.answered(event) <==> action is SendCommand),
{
}

} // verus!
