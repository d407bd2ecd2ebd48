//! Receiving the newest robot state.
use crate::error;
use crate::error::{incorrect_object_size, ErrorView, FrankaError};
use crate::robot::robot_impl::operation;
use crate::robot::robot_impl::operation::Operation;
use crate::robot::robot_impl::{RobotImpl, RobotView};
use crate::robot_state::RobotState;
use crate::step::{Action, Event, Progress, StateDatagram};
use crate::wire::codec;
use crate::wire::modes::StateModes;
use vstd::prelude::*;

verus! {

/// A state that was received: its bookkeeping, and what became of decoding the rest.
#[derive(Debug)]
pub struct Received {
    /// The bookkeeping.
    pub modes: StateModes,
    /// The state.
    pub state: Result<RobotState, FrankaError>,
}

/// Waits for a state that is newer than the last accepted one.
///
/// Everything that has already arrived is looked at first and only the newest of it is kept. If
/// nothing newer was there, the next datagrams are waited for until one is.
#[derive(Debug)]
pub struct StateReception {
    /// Number of the last accepted state.
    pub last_message_id: u64,
    /// The newest state so far, if it is newer than that.
    pub latest: Option<Received>,
    /// Whether the datagrams that have already arrived are still being looked at.
    pub draining: bool,
}

/// How a reception goes on.
pub type ReceptionProgress<E> = Progress<StateReception, Action, Result<RobotState, E>>;

impl StateReception {
    /// The number of the newest state so far.
    pub open spec fn newest_id(self) -> u64 {
        match self.latest {
            Some(received) => received.modes.message_id,
            None => self.last_message_id,
        }
    }

    /// After a datagram with these modes was looked at.
    pub open spec fn noted(self, modes: StateModes, state: Result<RobotState, FrankaError>) -> StateReception {
        if modes.message_id > self.newest_id() {
            StateReception { latest: Some(Received { modes, state }), ..self }
        } else {
            self
        }
    }

    /// How the reception goes on when it may end with what it has.
    pub open spec fn concluded(self, robot: RobotView) -> (RobotView, ReceptionProgress<ErrorView>) {
        match self.latest {
            Some(received) => (
                robot.with_state(robot.state.updated(received.modes)),
                Progress::Done(error::seen(received.state)),
            ),
            None => {
                let waiting = StateReception { draining: false, ..self };
                (robot, Progress::Continue(waiting, waiting.awaiting()))
            },
        }
    }

    /// Starts a reception.
    pub fn new(last_message_id: u64) -> (r: StateReception)
        ensures
            r == StateReception::begun(last_message_id),
            r.wf(),
    {
        StateReception { last_message_id, latest: None, draining: true }
    }

    /// A reception that has just started.
    pub open spec fn begun(last_message_id: u64) -> StateReception {
        StateReception { last_message_id, latest: None, draining: true }
    }

    /// Ends with the newest state, or goes on waiting.
    fn conclude(self, robot: &mut RobotImpl) -> (r: ReceptionProgress<FrankaError>)
        requires
            self.wf(),
            old(robot).wf(),
        ensures
            final(robot).wf(),
            (final(robot)@, operation::seen(r)) == self.concluded(old(robot)@),
            r matches Progress::Continue(next, action) ==> next.wf() && action == next.awaiting(),
    {
        match self.latest {
            Some(received) => {
                robot.update_state(&received.modes);
                Progress::Done(received.state)
            },
            None => {
                let waiting = StateReception {
                    last_message_id: self.last_message_id,
                    latest: None,
                    draining: false,
                };
                Progress::Continue(waiting, Action::AwaitState)
            },
        }
    }
}

impl Operation for StateReception {
    type Output = RobotState;

    /// What is kept is newer than what was accepted.
    open spec fn wf(self) -> bool {
        self.latest matches Some(received) ==> received.modes.message_id > self.last_message_id
    }

    /// What is wanted next.
    open spec fn awaiting(self) -> Action {
        if self.draining {
            Action::PollState
        } else {
            Action::AwaitState
        }
    }

    /// What is wanted next.
    fn action(&self) -> (a: Action) {
        if self.draining {
            Action::PollState
        } else {
            Action::AwaitState
        }
    }

    /// How the reception goes on after an event.
    open spec fn next(self, robot: RobotView, event: Event) -> (RobotView, ReceptionProgress<ErrorView>) {
        match event {
            Event::State(datagram) => {
                if datagram.size != codec::state_len(robot.version) {
                    (robot, Progress::Done(Err(ErrorView::Protocol("libfranka: incorrect object size"@))))
                } else {
                    match datagram.modes {
                        Err(e) => (robot, Progress::Done(Err(e@))),
                        Ok(modes) => {
                            let noted = self.noted(modes, datagram.state);
                            if self.draining {
                                (robot, Progress::Continue(noted, Action::PollState))
                            } else {
                                noted.concluded(robot)
                            }
                        },
                    }
                }
            },
            Event::Failed(e) => (robot, Progress::Done(Err(e@))),
            _ => self.concluded(robot),
        }
    }

    /// Goes on after an event.
    fn resume(self, robot: &mut RobotImpl, event: Event) -> (r: ReceptionProgress<FrankaError>)
    {
        match event {
            Event::State(datagram) => {
                if datagram.size != codec::state_size(robot.version()) {
                    return Progress::Done(Err(incorrect_object_size()));
                }
                let modes = match datagram.modes {
                    Ok(modes) => modes,
                    Err(e) => {
                        return Progress::Done(Err(e));
                    },
                };
                let newest_id: u64 = match &self.latest {
                    Some(received) => received.modes.message_id,
                    None => self.last_message_id,
                };
                let draining = self.draining;
                let noted = if modes.message_id > newest_id {
                    StateReception {
                        last_message_id: self.last_message_id,
                        latest: Some(Received { modes, state: datagram.state }),
                        draining,
                    }
                } else {
                    self
                };
                if draining {
                    Progress::Continue(noted, Action::PollState)
                } else {
                    noted.conclude(robot)
                }
            },
            Event::Failed(e) => Progress::Done(Err(e)),
            _ => self.conclude(robot),
        }
    }
}


/// The event is a datagram with these modes.
pub open spec fn carries(event: Event, modes: StateModes) -> bool {
    event matches Event::State(datagram) && datagram.modes == Ok::<StateModes, FrankaError>(modes)
}

/// While a reception goes on, it holds the newest of what it was offered.
proof fn lemma_reception_holds_the_newest(robot: RobotView, events: Seq<Event>)
    requires
        operation::run(StateReception::begun(robot.state.message_id), robot, events).1 is Continue,
    ensures
        ({
            let (after, p) = operation::run(StateReception::begun(robot.state.message_id), robot, events);
            let reception = p->Continue_0;
            &&& after == robot
            &&& reception.wf()
            &&& reception.last_message_id == robot.state.message_id
            &&& forall|i: int, modes: StateModes|
                0 <= i < events.len() && #[trigger] carries(events[i], modes)
                    ==> modes.message_id <= reception.newest_id()
            &&& reception.latest matches Some(received) ==> exists|i: int|
                0 <= i < events.len() && #[trigger] carries(events[i], received.modes)
                    && events[i]->State_0.state == received.state
        }),
    decreases events.len(),
{
    let begun = StateReception::begun(robot.state.message_id);
    if events.len() > 0 {
        let before = events.drop_last();
        lemma_reception_holds_the_newest(robot, before);
        let held = operation::run(begun, robot, before).1->Continue_0;
        let reception = operation::run(begun, robot, events).1->Continue_0;
        assert forall|i: int, modes: StateModes|
            0 <= i < events.len() && #[trigger] carries(
                events[i],
                modes,
            ) implies modes.message_id <= reception.newest_id() by {
            if i < events.len() - 1 {
                assert(carries(before[i], modes));
            }
        }
        if let Some(received) = reception.latest {
            if held.latest == reception.latest {
                let i = choose|i: int|
                    0 <= i < before.len() && #[trigger] carries(before[i], received.modes)
                        && before[i]->State_0.state == received.state;
                assert(carries(events[i], received.modes));
            } else {
                assert(carries(events[events.len() - 1], received.modes));
            }
        }
    }
}

/// The state that a reception ends with is newer than the last accepted one, it is one of those
/// that arrived, and none of those that arrived is newer. The order in which they arrive does not
/// matter.
pub proof fn law_reception_ends_with_the_newest(
    robot: RobotView,
    events: Seq<Event>,
    state: RobotState,
)
    requires
        events.len() > 0,
        operation::run(
            StateReception::begun(robot.state.message_id),
            robot,
            events.drop_last(),
        ).1 is Continue,
        operation::run(StateReception::begun(robot.state.message_id), robot, events).1 == (Progress::Done::<
            StateReception,
            Action,
            Result<RobotState, ErrorView>,
        >(Ok(state))),
    ensures
        ({
            let after = operation::run(StateReception::begun(robot.state.message_id), robot, events).0;
            &&& after.state.message_id > robot.state.message_id
            &&& forall|i: int, modes: StateModes|
                0 <= i < events.len() && #[trigger] carries(events[i], modes)
                    ==> modes.message_id <= after.state.message_id
            &&& exists|i: int, modes: StateModes|
                0 <= i < events.len() && #[trigger] carries(events[i], modes)
                    && after == robot.with_state(robot.state.updated(modes))
                    && events[i]->State_0.state == Ok::<RobotState, FrankaError>(state)
        }),
{
    let before = events.drop_last();
    let begun = StateReception::begun(robot.state.message_id);
    lemma_reception_holds_the_newest(robot, before);
    let held = operation::run(begun, robot, before).1->Continue_0;
    let after = operation::run(begun, robot, events).0;
    let last = events.last();
    let kept = match last {
        Event::State(datagram) => held.noted(datagram.modes->Ok_0, datagram.state),
        _ => held,
    };
    let received = kept.latest->Some_0;
    assert(after == robot.with_state(robot.state.updated(received.modes)));
    assert forall|i: int, modes: StateModes|
        0 <= i < events.len() && #[trigger] carries(
            events[i],
            modes,
        ) implies modes.message_id <= after.state.message_id by {
        if i < events.len() - 1 {
            assert(carries(before[i], modes));
        }
    }
    if held.latest == kept.latest {
        let i = choose|i: int|
            0 <= i < before.len() && #[trigger] carries(before[i], received.modes)
                && before[i]->State_0.state == received.state;
        assert(carries(events[i], received.modes));
    } else {
        assert(carries(events[events.len() - 1], received.modes));
    }
}

/// While datagrams that have already arrived are looked at, no state is handed out. A state is kept
/// exactly when it is newer than everything before it; when nothing newer was there, the next
/// datagram is waited for.
pub proof fn law_newer_states_are_kept(
    reception: StateReception,
    robot: RobotView,
    datagram: StateDatagram,
    modes: StateModes,
)
    requires
        datagram.size == codec::state_len(robot.version),
        datagram.modes == Ok::<StateModes, FrankaError>(modes),
        reception.wf(),
    ensures
        ({
            let newest = match reception.latest {
                Some(received) => received.modes.message_id,
                None => reception.last_message_id,
            };
            let (after, p) = reception.next(robot, Event::State(datagram));
            &&& reception.draining ==> {
                &&& after == robot
                &&& p matches Progress::Continue(next, action)
                &&& action is PollState
                &&& next.last_message_id == reception.last_message_id
                &&& modes.message_id > newest ==> next.latest == Some(
                    Received { modes, state: datagram.state },
                )
                &&& modes.message_id <= newest ==> next.latest == reception.latest
            }
            &&& !reception.draining && reception.latest is None ==> {
                &&& p is Done <==> modes.message_id > reception.last_message_id
                &&& p is Done ==> p->Done_0 == error::seen(datagram.state)
                    && after.state.message_id == modes.message_id
                &&& p matches Progress::Continue(_, action) ==> action is AwaitState && after
                    == robot
            }
        }),
{
}

/// When no more datagrams are there, a reception ends with what it kept, or waits.
pub proof fn law_reception_waits_for_a_newer_state(reception: StateReception, robot: RobotView)
    ensures
        ({
            let (after, p) = reception.next(robot, Event::NoState);
            &&& p is Done <==> reception.latest is Some
            &&& reception.latest matches Some(received) ==> p->Done_0 == error::seen(
                received.state,
            ) && after.state.message_id == received.modes.message_id
            &&& p matches Progress::Continue(next, action) ==> action is AwaitState && after == robot
                && next.last_message_id == reception.last_message_id
        }),
{
}

/// A datagram of another size than a state of the version ends a reception with a protocol error.
pub proof fn law_states_have_one_size(
    reception: StateReception,
    robot: RobotView,
    datagram: StateDatagram,
)
    requires
        datagram.size != (match robot.version {
            crate::wire::codec::FciVersion::V5 => 2373usize,
            crate::wire::codec::FciVersion::V10 => 1377usize,
        }),
    ensures
        ({
            let (after, p) = reception.next(robot, Event::State(datagram));
            &&& after == robot
            &&& p matches Progress::Done(Err(e))
            &&& e is Protocol
        }),
{
}

} // verus!
