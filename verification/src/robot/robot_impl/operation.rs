//! What all operations of a session have in common.
use crate::error::{ErrorView, FrankaError};
use crate::robot::robot_impl::{RobotImpl, RobotView};
use crate::step::{Action, Event, Progress};
use vstd::prelude::*;

verus! {

/// Progress with its result in terms of views.
pub open spec fn seen<O, T: View>(p: Progress<O, Action, Result<T, FrankaError>>) -> Progress<
    O,
    Action,
    Result<T::V, ErrorView>,
> {
    match p {
        Progress::Continue(operation, action) => Progress::Continue(operation, action),
        Progress::Done(Ok(value)) => Progress::Done(Ok(value@)),
        Progress::Done(Err(e)) => Progress::Done(Err(e@)),
    }
}

/// Something that a session does in several steps.
pub trait Operation: Sized {
    /// What it ends with when it ends well.
    type Output: View;

    /// Its parts are in order.
    spec fn wf(self) -> bool;

    /// What it wants done next.
    spec fn awaiting(self) -> Action;

    /// What it wants done next.
    fn action(&self) -> (a: Action)
        ensures
            a == self.awaiting(),
    ;

    /// What becomes of the session, and how the operation goes on, after an event.
    spec fn next(self, robot: RobotView, event: Event) -> (
        RobotView,
        Progress<Self, Action, Result<<Self::Output as View>::V, ErrorView>>,
    );

    /// Goes on after an event.
    fn resume(self, robot: &mut RobotImpl, event: Event) -> (r: Progress<
        Self,
        Action,
        Result<Self::Output, FrankaError>,
    >)
        requires
            self.wf(),
            self.awaiting().answered(event),
            old(robot).wf(),
        ensures
            final(robot).wf(),
            (final(robot)@, seen(r)) == self.next(old(robot)@, event),
            r matches Progress::Continue(next, action) ==> next.wf() && action == next.awaiting(),
    ;
}

/// Where an operation stands, and the session with it, after a sequence of events.
pub open spec fn run<O: Operation>(operation: O, robot: RobotView, events: Seq<Event>) -> (
    RobotView,
    Progress<O, Action, Result<<O::Output as View>::V, ErrorView>>,
)
    decreases events.len(),
{
    if events.len() == 0 {
        (robot, Progress::Continue(operation, operation.awaiting()))
    } else {
        match run(operation, robot, events.drop_last()) {
            (between, Progress::Continue(operation, _)) => operation.next(between, events.last()),
            ended => ended,
        }
    }
}

/// Every event answers what the operation wanted, and the operation does not end before the last.
pub open spec fn fits<O: Operation>(operation: O, robot: RobotView, events: Seq<Event>) -> bool
    decreases events.len(),
{
    events.len() > 0 ==> {
        &&& fits(operation, robot, events.drop_last())
        &&& run(operation, robot, events.drop_last()).1 matches Progress::Continue(now, _)
        &&& now.awaiting().answered(events.last())
    }
}

} // verus!
