//! Operations that hold the control lock, performed on the robot that they took it from: while one
//! goes on the lock is out, and it goes back with the step that ends it.
use crate::control_types::{JointVelocities, Torques};
use crate::double::Double;
use crate::error;
use crate::error::{ErrorView, FrankaError};
use crate::robot;
use crate::robot::active_control;
use crate::robot::active_control::{
    ActiveControl, ActiveControlView, ActiveMotionGenerator, ActiveMotionInput,
    ActiveTorqueControl, ActiveWrite, ControlLock, Writing,
};
use crate::robot::control_loop::runner;
use crate::robot::control_loop::runner::{ControlLoop, LoopAction, LoopEnd, LoopEvent, LoopProgress};
use crate::robot::control_loop::ControlLoopMotion;
use crate::robot::robot_impl;
use crate::robot::robot_impl::motion::{CancelMotion, FinishMotion, MotionUpdate, StartMotion};
use crate::robot::robot_impl::operation;
use crate::robot::robot_impl::operation::Operation;
use crate::robot::robot_impl::RobotView;
use crate::robot::{Locked, ReadAction, ReadEvent, ReadLoop, ReadProgress, Robot};
use crate::step::{Action, Event, Progress};
use crate::wire::codec::FciVersion;
use crate::wire::modes::{MoveControllerMode, MoveMotionGeneratorMode};
use crate::wire::request::Request;
use vstd::prelude::*;

verus! {

/// A [`Robot`] as its callers see it.
pub struct LockView {
    /// The session.
    pub session: RobotView,
    /// Whether the control lock is out.
    pub locked: bool,
}

impl View for Robot {
    type V = LockView;

    open spec fn view(&self) -> LockView {
        LockView { session: self.robot@, locked: self.control_locked }
    }
}

/// Progress without the lock that the operation holds.
pub open spec fn bare<O, A, R>(p: Progress<Locked<O>, A, R>) -> Progress<O, A, R> {
    match p {
        Progress::Continue(locked, action) => Progress::Continue(locked.operation, action),
        Progress::Done(result) => Progress::Done(result),
    }
}

// -- Any operation --------------------------------------------------------------------------

/// What a step of an operation that holds the lock leaves: the lock stays out while the operation
/// goes on, and beyond a good end where that `keeps` it.
pub open spec fn stepped<O: Operation>(operation: O, robot: LockView, event: Event, keeps: bool) -> (
    LockView,
    Progress<O, Action, Result<<O::Output as View>::V, ErrorView>>,
) {
    let (session, p) = operation.next(robot.session, event);
    (LockView { session, locked: robot.locked && (p is Continue || keeps && p->Done_0 is Ok) }, p)
}

/// Where an operation that holds the lock stands after a sequence of events.
pub open spec fn run<O: Operation>(operation: O, robot: LockView, events: Seq<Event>, keeps: bool) -> (
    LockView,
    Progress<O, Action, Result<<O::Output as View>::V, ErrorView>>,
)
    decreases events.len(),
{
    if events.len() == 0 {
        (robot, Progress::Continue(operation, operation.awaiting()))
    } else {
        match run(operation, robot, events.drop_last(), keeps) {
            (between, Progress::Continue(now, _)) => stepped(now, between, events.last(), keeps),
            ended => ended,
        }
    }
}

/// The lock is out while the operation goes on, and beyond a good end where that keeps it.
proof fn lemma_run<O: Operation>(operation: O, robot: LockView, events: Seq<Event>, keeps: bool)
    ensures
        ({
            let (after, p) = run(operation, robot, events, keeps);
            &&& (after.session, p) == operation::run(operation, robot.session, events)
            &&& after.locked == (robot.locked && (p is Continue || keeps && p->Done_0 is Ok))
        }),
    decreases events.len(),
{
    if events.len() > 0 {
        lemma_run(operation, robot, events.drop_last(), keeps);
    }
}

// -- Reading --------------------------------------------------------------------------------

/// What a step of a read loop leaves.
pub open spec fn stepped_read(operation: ReadLoop, robot: LockView, event: ReadEvent) -> (
    LockView,
    ReadProgress<ErrorView>,
) {
    let (session, p) = operation.next(robot.session, event);
    (LockView { session, locked: robot.locked && p is Continue }, p)
}

/// Where a read loop stands after a sequence of events.
pub open spec fn run_read(operation: ReadLoop, robot: LockView, events: Seq<ReadEvent>) -> (
    LockView,
    ReadProgress<ErrorView>,
)
    decreases events.len(),
{
    if events.len() == 0 {
        (robot, Progress::Continue(operation, operation.awaiting()))
    } else {
        match run_read(operation, robot, events.drop_last()) {
            (between, Progress::Continue(now, _)) => stepped_read(now, between, events.last()),
            ended => ended,
        }
    }
}

/// Every event answers what the read loop wanted, and it does not end before the last.
pub open spec fn fits_read(operation: ReadLoop, robot: LockView, events: Seq<ReadEvent>) -> bool
    decreases events.len(),
{
    events.len() > 0 ==> {
        &&& fits_read(operation, robot, events.drop_last())
        &&& run_read(operation, robot, events.drop_last()).1 matches Progress::Continue(now, _)
        &&& now.awaiting().answered(events.last())
    }
}

// -- Control loops --------------------------------------------------------------------------

/// How a control loop is over.
#[derive(Debug)]
pub enum LoopOver<E> {
    /// Nothing is left to do.
    Ended(Result<(), E>),
    /// The motion is to be aborted first; what comes of that is not looked at.
    Aborting {
        /// The abort, which holds the lock now.
        abort: Locked<CancelMotion>,
        /// How the loop ended.
        result: Result<(), E>,
    },
}

/// How a loop that holds the lock goes on.
pub type LockedLoop<M, E> = Progress<
    Locked<ControlLoop<M>>,
    LoopAction<<M as ControlLoopMotion>::Values>,
    LoopOver<E>,
>;

/// A loop's progress without the lock.
pub open spec fn bare_loop<M: ControlLoopMotion>(p: LockedLoop<M, FrankaError>) -> LoopProgress<
    M,
    ErrorView,
> {
    match p {
        Progress::Continue(locked, action) => Progress::Continue(locked.operation, action),
        Progress::Done(LoopOver::Ended(result)) => Progress::Done(
            LoopEnd { result: error::seen(result), cancel: None },
        ),
        Progress::Done(LoopOver::Aborting { abort, result }) => Progress::Done(
            LoopEnd { result: error::seen(result), cancel: Some(abort.operation) },
        ),
    }
}

/// Whether a loop still holds the lock, for itself or for its abort.
pub open spec fn holds<M: ControlLoopMotion>(p: LoopProgress<M, ErrorView>) -> bool {
    p matches Progress::Done(end) ==> end.cancel is Some
}

/// What a step of a loop leaves: the lock stays out until the loop has ended and nothing is left to
/// abort.
pub open spec fn after_loop<M: ControlLoopMotion>(
    robot: LockView,
    next: (RobotView, LoopProgress<M, ErrorView>),
) -> (LockView, LoopProgress<M, ErrorView>) {
    (LockView { session: next.0, locked: robot.locked && holds(next.1) }, next.1)
}

/// Where a loop stands after a sequence of events.
pub open spec fn run_loop<M: ControlLoopMotion>(
    operation: ControlLoop<M>,
    robot: LockView,
    events: Seq<LoopEvent<M, M::Values>>,
) -> (LockView, LoopProgress<M, ErrorView>)
    decreases events.len(),
{
    if events.len() == 0 {
        (robot, Progress::Continue(operation, operation.awaiting()))
    } else {
        match run_loop(operation, robot, events.drop_last()) {
            (between, Progress::Continue(now, _)) => after_loop(
                between,
                now.next(between.session, events.last()),
            ),
            ended => ended,
        }
    }
}

/// Where a loop whose motion callback returns zero velocities stands after a sequence of events.
pub open spec fn run_holding(
    operation: ControlLoop<JointVelocities>,
    robot: LockView,
    events: Seq<LoopEvent<JointVelocities, [Double; 7]>>,
) -> (LockView, LoopProgress<JointVelocities, ErrorView>)
    decreases events.len(),
{
    if events.len() == 0 {
        (robot, Progress::Continue(operation, operation.awaiting()))
    } else {
        match run_holding(operation, robot, events.drop_last()) {
            (between, Progress::Continue(now, _)) => after_loop(
                between,
                now.next_holding(between.session, events.last()),
            ),
            ended => ended,
        }
    }
}

// -- Control that the caller drives ---------------------------------------------------------

/// A write of a control that the caller drives.
#[derive(Debug)]
pub enum ControlWrite {
    /// One more command is being sent.
    Plain(ActiveWrite),
    /// The motion is being ended.
    Final(FinishMotion),
}

/// How a write goes on.
pub type WriteProgress<E> = Progress<ControlWrite, Action, Result<(), E>>;

/// Progress with its error in terms of texts and records.
pub open spec fn seen_write(p: WriteProgress<FrankaError>) -> WriteProgress<ErrorView> {
    match p {
        Progress::Continue(write, action) => Progress::Continue(write, action),
        Progress::Done(result) => Progress::Done(error::seen(result)),
    }
}

/// A robot and a control that the caller drives.
pub struct Driven {
    pub robot: LockView,
    pub control: ActiveControlView,
}

impl Driven {
    /// After the end of the motion: the control lock goes back where the control holds it, and the
    /// control is over where it went well.
    pub open spec fn ended(self, ended_well: bool) -> Driven {
        Driven {
            robot: LockView { locked: self.robot.locked && !self.control.locked, ..self.robot },
            control: self.control.applied(ended_well),
        }
    }

    /// With another session.
    pub open spec fn with_session(self, session: RobotView) -> Driven {
        Driven { robot: LockView { session, ..self.robot }, ..self }
    }

    /// How a write goes on once it has begun.
    pub open spec fn wrote(self, begun: (RobotView, Result<Writing<ErrorView>, ErrorView>)) -> (
        Driven,
        WriteProgress<ErrorView>,
    ) {
        let after = self.with_session(begun.0);
        match begun.1 {
            Err(e) => (after, Progress::Done(Err(e))),
            Ok(Writing::Plain(write)) => (
                after,
                Progress::Continue(ControlWrite::Plain(write), write.awaiting()),
            ),
            Ok(Writing::Final(Progress::Continue(finish, action))) => (
                after,
                Progress::Continue(ControlWrite::Final(finish), action),
            ),
            Ok(Writing::Final(Progress::Done(result))) => (
                after.ended(result is Ok),
                Progress::Done(result),
            ),
        }
    }

    /// How a write goes on after an event.
    pub open spec fn stepped(self, write: ControlWrite, event: Event) -> (
        Driven,
        WriteProgress<ErrorView>,
    ) {
        match write {
            ControlWrite::Plain(write) => {
                let (session, p) = write.next(self.robot.session, event);
                (
                    self.with_session(session),
                    match p {
                        Progress::Continue(write, action) => Progress::Continue(
                            ControlWrite::Plain(write),
                            action,
                        ),
                        Progress::Done(result) => Progress::Done(result),
                    },
                )
            },
            ControlWrite::Final(finish) => {
                let (session, p) = finish.next(self.robot.session, event);
                let after = self.with_session(session);
                match p {
                    Progress::Continue(finish, action) => (
                        after,
                        Progress::Continue(ControlWrite::Final(finish), action),
                    ),
                    Progress::Done(result) => (after.ended(result is Ok), Progress::Done(result)),
                }
            },
        }
    }

    /// Where a write stands after a sequence of events.
    pub open spec fn run(self, write: ControlWrite, events: Seq<Event>) -> (
        Driven,
        WriteProgress<ErrorView>,
    )
        decreases events.len(),
    {
        if events.len() == 0 {
            (self, Progress::Continue(write, write.awaiting()))
        } else {
            match self.run(write, events.drop_last()) {
                (between, Progress::Continue(now, _)) => between.stepped(now, events.last()),
                ended => ended,
            }
        }
    }

    /// Where a whole write stands after a sequence of events.
    pub open spec fn write(
        self,
        begun: (RobotView, Result<Writing<ErrorView>, ErrorView>),
        events: Seq<Event>,
    ) -> (Driven, WriteProgress<ErrorView>) {
        match self.wrote(begun) {
            (after, Progress::Continue(write, _)) => after.run(write, events),
            ended => ended,
        }
    }
}

/// Whether a write is to end the motion.
pub open spec fn is_last(begun: (RobotView, Result<Writing<ErrorView>, ErrorView>)) -> bool {
    begun.1 matches Ok(Writing::Final(_))
}

impl ControlWrite {
    /// The parts are in order.
    pub open spec fn wf(self) -> bool {
        match self {
            ControlWrite::Plain(write) => write.wf(),
            ControlWrite::Final(finish) => finish.wf(),
        }
    }

    /// What is wanted next.
    pub open spec fn awaiting(self) -> Action {
        match self {
            ControlWrite::Plain(write) => write.awaiting(),
            ControlWrite::Final(finish) => finish.awaiting(),
        }
    }

    /// What is wanted next.
    pub fn action(&self) -> (a: Action)
        ensures
            a == self.awaiting(),
    {
        match self {
            ControlWrite::Plain(write) => write.action(),
            ControlWrite::Final(finish) => finish.action(),
        }
    }
}

/// What giving up a control takes.
#[derive(Debug)]
pub enum Closing {
    /// Nothing: its motion has ended.
    Closed,
    /// Aborting its motion, after which the lock goes back.
    Aborting(Locked<CancelMotion>),
    /// Aborting its motion; the lock has gone back already.
    AbortingUnlocked(CancelMotion),
}

impl Robot {
    /// Goes on with an operation that does not touch the lock.
    pub fn resume<O: Operation>(&mut self, operation: O, event: Event) -> (r: Progress<
        O,
        Action,
        Result<O::Output, FrankaError>,
    >)
        requires
            old(self).wf(),
            operation.wf(),
            operation.awaiting().answered(event),
        ensures
            final(self).wf(),
            final(self)@.locked == old(self)@.locked,
            (final(self)@.session, operation::seen(r)) == operation.next(old(self)@.session, event),
            r matches Progress::Continue(next, action) ==> next.wf() && action == next.awaiting(),
    {
        operation.resume(&mut self.robot, event)
    }

    /// Goes on with a read loop. The lock goes back when it ends, whatever it ends with.
    pub fn resume_read(&mut self, locked: Locked<ReadLoop>, event: ReadEvent) -> (r: Progress<
        Locked<ReadLoop>,
        ReadAction,
        Result<(), FrankaError>,
    >)
        requires
            old(self).wf(),
            locked.operation.wf(),
            locked.operation.awaiting().answered(event),
        ensures
            final(self).wf(),
            (final(self)@, robot::seen_read(bare(r))) == stepped_read(
                locked.operation,
                old(self)@,
                event,
            ),
            r is Done ==> !final(self)@.locked,
            r matches Progress::Continue(next, action) ==> next.operation.wf() && action
                == next.operation.awaiting(),
    {
        let Locked { lock, operation } = locked;
        match operation.resume(&mut self.robot, event) {
            Progress::Continue(operation, action) => Progress::Continue(
                Locked { lock, operation },
                action,
            ),
            Progress::Done(result) => {
                self.release_control_lock(lock);
                Progress::Done(result)
            },
        }
    }

    /// Gives up an operation that has nothing to abort, as when the callback of a read loop panics:
    /// the lock goes back.
    pub fn abandon<T>(&mut self, locked: Locked<T>)
        requires
            old(self).wf(),
        ensures
            final(self).wf(),
            final(self)@ == (LockView { locked: false, ..old(self)@ }),
    {
        let Locked { lock, operation } = locked;
        let _ = operation;
        self.release_control_lock(lock);
    }

    /// Goes on with a start. The lock goes back when it fails, and into the hands of the control
    /// when it ends well.
    fn resume_start(&mut self, locked: Locked<StartMotion>, event: Event) -> (r: Progress<
        Locked<StartMotion>,
        Action,
        Result<(u32, ControlLock), FrankaError>,
    >)
        requires
            old(self).wf(),
            locked.operation.wf(),
            locked.operation.awaiting().answered(event),
        ensures
            final(self).wf(),
            final(self)@ == stepped(locked.operation, old(self)@, event, true).0,
            match stepped(locked.operation, old(self)@, event, true).1 {
                Progress::Continue(operation, action) => r matches Progress::Continue(l, a)
                    && l.operation == operation && a == action && operation.wf() && action
                    == operation.awaiting(),
                Progress::Done(Ok(motion_id)) => r matches Progress::Done(Ok(started)) && started.0
                    == motion_id,
                Progress::Done(Err(e)) => r matches Progress::Done(Err(got)) && got@ == e,
            },
            r matches Progress::Done(Err(_)) ==> !final(self)@.locked,
    {
        let Locked { lock, operation } = locked;
        match operation.resume(&mut self.robot, event) {
            Progress::Continue(operation, action) => Progress::Continue(
                Locked { lock, operation },
                action,
            ),
            Progress::Done(Ok(motion_id)) => Progress::Done(Ok((motion_id, lock))),
            Progress::Done(Err(e)) => {
                self.release_control_lock(lock);
                Progress::Done(Err(e))
            },
        }
    }

    /// Goes on with the start of torque control. It ends with the control, which then holds the
    /// lock, or with an error, and then the lock has gone back.
    pub fn resume_torque_control(&mut self, locked: Locked<StartMotion>, event: Event) -> (r:
        Progress<Locked<StartMotion>, Action, Result<ActiveTorqueControl, FrankaError>>)
        requires
            old(self).wf(),
            locked.operation.wf(),
            locked.operation.awaiting().answered(event),
        ensures
            final(self).wf(),
            final(self)@ == stepped(locked.operation, old(self)@, event, true).0,
            match stepped(locked.operation, old(self)@, event, true).1 {
                Progress::Continue(operation, action) => r matches Progress::Continue(l, a)
                    && l.operation == operation && a == action && operation.wf() && action
                    == operation.awaiting(),
                Progress::Done(Ok(motion_id)) => r matches Progress::Done(Ok(control))
                    && control.inner@ == ActiveControlView::started(motion_id),
                Progress::Done(Err(e)) => r matches Progress::Done(Err(got)) && got@ == e,
            },
            r matches Progress::Done(Err(_)) ==> !final(self)@.locked,
    {
        match self.resume_start(locked, event) {
            Progress::Continue(locked, action) => Progress::Continue(locked, action),
            Progress::Done(Ok((motion_id, lock))) => Progress::Done(
                Ok(ActiveTorqueControl::new(motion_id, lock)),
            ),
            Progress::Done(Err(e)) => Progress::Done(Err(e)),
        }
    }

    /// Goes on with the start of motion control with a controller. It ends with the control, which
    /// then holds the lock, or with an error, and then the lock has gone back.
    pub fn resume_motion_control<T: ActiveMotionInput>(
        &mut self,
        locked: Locked<StartMotion>,
        event: Event,
        controller_mode: MoveControllerMode,
    ) -> (r: Progress<Locked<StartMotion>, Action, Result<ActiveMotionGenerator<T>, FrankaError>>)
        requires
            old(self).wf(),
            locked.operation.wf(),
            locked.operation.awaiting().answered(event),
        ensures
            final(self).wf(),
            final(self)@ == stepped(locked.operation, old(self)@, event, true).0,
            match stepped(locked.operation, old(self)@, event, true).1 {
                Progress::Continue(operation, action) => r matches Progress::Continue(l, a)
                    && l.operation == operation && a == action && operation.wf() && action
                    == operation.awaiting(),
                Progress::Done(Ok(motion_id)) => r matches Progress::Done(Ok(control))
                    && control.inner@ == ActiveControlView::started(motion_id)
                    && control.controller_type == controller_mode,
                Progress::Done(Err(e)) => r matches Progress::Done(Err(got)) && got@ == e,
            },
            r matches Progress::Done(Err(_)) ==> !final(self)@.locked,
    {
        match self.resume_start(locked, event) {
            Progress::Continue(locked, action) => Progress::Continue(locked, action),
            Progress::Done(Ok((motion_id, lock))) => Progress::Done(
                Ok(ActiveMotionGenerator::new(motion_id, lock, controller_mode)),
            ),
            Progress::Done(Err(e)) => Progress::Done(Err(e)),
        }
    }

    /// Keeps the lock of a loop that goes on or has something to abort, and takes it back
    /// otherwise.
    fn keep_loop<M: ControlLoopMotion>(
        &mut self,
        lock: ControlLock,
        progress: LoopProgress<M, FrankaError>,
    ) -> (r: LockedLoop<M, FrankaError>)
        requires
            old(self).wf(),
        ensures
            final(self).wf(),
            bare_loop(r) == runner::seen_loop(progress),
            final(self)@ == (LockView {
                locked: old(self)@.locked && holds(bare_loop(r)),
                ..old(self)@
            }),
            r matches Progress::Done(LoopOver::Ended(_)) ==> !final(self)@.locked,
    {
        match progress {
            Progress::Continue(operation, action) => Progress::Continue(
                Locked { lock, operation },
                action,
            ),
            Progress::Done(LoopEnd { result, cancel: Some(operation) }) => Progress::Done(
                LoopOver::Aborting { abort: Locked { lock, operation }, result },
            ),
            Progress::Done(LoopEnd { result, cancel: None }) => {
                self.release_control_lock(lock);
                Progress::Done(LoopOver::Ended(result))
            },
        }
    }

    /// Goes on with a control loop. The lock goes back when it ends; where the motion is to be
    /// aborted first, the abort holds it.
    pub fn resume_loop<M: ControlLoopMotion>(
        &mut self,
        locked: Locked<ControlLoop<M>>,
        event: LoopEvent<M, M::Values>,
    ) -> (r: LockedLoop<M, FrankaError>)
        requires
            old(self).wf(),
            locked.operation.wf(),
            locked.operation.awaiting().answered(event),
        ensures
            final(self).wf(),
            (final(self)@, bare_loop(r)) == after_loop(
                old(self)@,
                locked.operation.next(old(self)@.session, event),
            ),
            r matches Progress::Done(LoopOver::Ended(_)) ==> !final(self)@.locked,
            r matches Progress::Continue(next, action) ==> next.operation.wf() && action
                == next.operation.awaiting(),
    {
        let Locked { lock, operation } = locked;
        let progress = operation.resume(&mut self.robot, event);
        self.keep_loop(lock, progress)
    }

    /// Goes on with a control loop whose motion callback returns zero velocities.
    pub fn resume_holding(
        &mut self,
        locked: Locked<ControlLoop<JointVelocities>>,
        event: LoopEvent<JointVelocities, [Double; 7]>,
    ) -> (r: LockedLoop<JointVelocities, FrankaError>)
        requires
            old(self).wf(),
            locked.operation.wf(),
            locked.operation.awaiting().answered(event),
        ensures
            final(self).wf(),
            (final(self)@, bare_loop(r)) == after_loop(
                old(self)@,
                locked.operation.next_holding(old(self)@.session, event),
            ),
            r matches Progress::Done(LoopOver::Ended(_)) ==> !final(self)@.locked,
            r matches Progress::Continue(next, action) ==> next.operation.wf() && action
                == next.operation.awaiting(),
    {
        let Locked { lock, operation } = locked;
        let progress = operation.resume_holding(&mut self.robot, event);
        self.keep_loop(lock, progress)
    }

    /// Gives up a control loop, as when a callback panics: a motion that is on is to be aborted, by
    /// an abort that holds the lock; otherwise the lock goes back.
    pub fn abandon_loop<M: ControlLoopMotion>(&mut self, locked: Locked<ControlLoop<M>>) -> (r:
        Option<Locked<CancelMotion>>)
        requires
            old(self).wf(),
        ensures
            final(self).wf(),
            match locked.operation.motion_on() {
                Some(motion_id) => {
                    &&& r matches Some(abort) && abort.operation == (CancelMotion::Looking {
                        motion_id,
                    })
                    &&& final(self)@ == old(self)@
                },
                None => r is None && final(self)@ == (LockView { locked: false, ..old(self)@ }),
            },
            r matches Some(abort) ==> abort.operation.wf(),
    {
        let Locked { lock, operation } = locked;
        match operation.abandon() {
            Some(operation) => Some(Locked { lock, operation }),
            None => {
                self.release_control_lock(lock);
                None
            },
        }
    }

    /// Goes on with an abort. The lock goes back when it ends, whatever it ends with.
    pub fn resume_abort(&mut self, locked: Locked<CancelMotion>, event: Event) -> (r: Progress<
        Locked<CancelMotion>,
        Action,
        Result<(), FrankaError>,
    >)
        requires
            old(self).wf(),
            locked.operation.wf(),
            locked.operation.awaiting().answered(event),
        ensures
            final(self).wf(),
            (final(self)@, operation::seen(bare(r))) == stepped(
                locked.operation,
                old(self)@,
                event,
                false,
            ),
            r is Done ==> !final(self)@.locked,
            r matches Progress::Continue(next, action) ==> next.operation.wf() && action
                == next.operation.awaiting(),
    {
        let Locked { lock, operation } = locked;
        match operation.resume(&mut self.robot, event) {
            Progress::Continue(operation, action) => Progress::Continue(
                Locked { lock, operation },
                action,
            ),
            Progress::Done(result) => {
                self.release_control_lock(lock);
                Progress::Done(result)
            },
        }
    }

    /// Takes note of how the end of a motion went: the lock goes back where the control holds it.
    pub fn end_control(&mut self, control: &mut ActiveControl, result: Result<(), FrankaError>) -> (r:
        Result<(), FrankaError>)
        requires
            old(self).wf(),
        ensures
            final(self).wf(),
            r == result,
            (Driven { robot: final(self)@, control: final(control)@ }) == (Driven {
                robot: old(self)@,
                control: old(control)@,
            }).ended(result is Ok),
            old(control)@.locked ==> !final(self)@.locked,
    {
        let (lock, result) = control.apply_finish(result);
        if let Some(lock) = lock {
            self.release_control_lock(lock);
        }
        result
    }

    /// Goes on with a write that was begun.
    fn begin_write(
        &mut self,
        control: &mut ActiveControl,
        begun: Result<Writing<FrankaError>, FrankaError>,
    ) -> (r: WriteProgress<FrankaError>)
        requires
            old(self).wf(),
            begun matches Ok(Writing::Final(Progress::Continue(next, action))) ==> next.wf()
                && action == next.awaiting(),
        ensures
            final(self).wf(),
            (Driven { robot: final(self)@, control: final(control)@ }, seen_write(r)) == (Driven {
                robot: old(self)@,
                control: old(control)@,
            }).wrote((old(self)@.session, active_control::seen_writing(begun))),
            r matches Progress::Continue(next, action) ==> next.wf() && action == next.awaiting(),
    {
        match begun {
            Err(e) => Progress::Done(Err(e)),
            Ok(Writing::Plain(write)) => {
                let action = write.action();
                Progress::Continue(ControlWrite::Plain(write), action)
            },
            Ok(Writing::Final(Progress::Continue(finish, action))) => Progress::Continue(
                ControlWrite::Final(finish),
                action,
            ),
            Ok(Writing::Final(Progress::Done(result))) => Progress::Done(
                self.end_control(control, result),
            ),
        }
    }

    /// Begins to send torques of a control. Torques that are marked as the last ones end the motion,
    /// and the lock goes back when it has ended.
    pub fn write_torques(&mut self, control: &mut ActiveTorqueControl, control_input: &Torques) -> (r:
        WriteProgress<FrankaError>)
        requires
            old(self).wf(),
        ensures
            final(self).wf(),
            (Driven { robot: final(self)@, control: final(control).inner@ }, seen_write(r)) == (
            Driven { robot: old(self)@, control: old(control).inner@ }).wrote(
                old(control).wrote(old(self)@.session, *control_input),
            ),
            r matches Progress::Continue(next, action) ==> next.wf() && action == next.awaiting(),
    {
        let begun = control.write_once(&mut self.robot, control_input);
        self.begin_write(&mut control.inner, begun)
    }

    /// Begins to send a setpoint of a control, and torques where the motion runs with an external
    /// controller. Either of them marked as the last one ends the motion, and the lock goes back
    /// when it has ended.
    pub fn write_motion<T: ActiveMotionInput>(
        &mut self,
        control: &mut ActiveMotionGenerator<T>,
        motion_input: &T,
        control_input: Option<&Torques>,
    ) -> (r: WriteProgress<FrankaError>)
        requires
            old(self).wf(),
        ensures
            final(self).wf(),
            final(control).controller_type == old(control).controller_type,
            (Driven { robot: final(self)@, control: final(control).inner@ }, seen_write(r)) == (
            Driven { robot: old(self)@, control: old(control).inner@ }).wrote(
                old(control).wrote(
                    old(self)@.session,
                    *motion_input,
                    match control_input {
                        Some(torques) => Some(*torques),
                        None => None,
                    },
                ),
            ),
            r matches Progress::Continue(next, action) ==> next.wf() && action == next.awaiting(),
    {
        let begun = control.write_once(&mut self.robot, motion_input, control_input);
        self.begin_write(&mut control.inner, begun)
    }

    /// Goes on with a write of a control. When it ends the motion, well or not, the lock goes back.
    pub fn resume_write(&mut self, control: &mut ActiveControl, write: ControlWrite, event: Event) -> (r:
        WriteProgress<FrankaError>)
        requires
            old(self).wf(),
            write.wf(),
            write.awaiting().answered(event),
        ensures
            final(self).wf(),
            (Driven { robot: final(self)@, control: final(control)@ }, seen_write(r)) == (Driven {
                robot: old(self)@,
                control: old(control)@,
            }).stepped(write, event),
            r matches Progress::Continue(next, action) ==> next.wf() && action == next.awaiting(),
    {
        match write {
            ControlWrite::Plain(write) => match write.resume(&mut self.robot, event) {
                Progress::Continue(write, action) => Progress::Continue(
                    ControlWrite::Plain(write),
                    action,
                ),
                Progress::Done(result) => Progress::Done(result),
            },
            ControlWrite::Final(finish) => match finish.resume(&mut self.robot, event) {
                Progress::Continue(finish, action) => Progress::Continue(
                    ControlWrite::Final(finish),
                    action,
                ),
                Progress::Done(result) => Progress::Done(self.end_control(control, result)),
            },
        }
    }

    /// Gives up a control: a motion that is not finished is to be aborted, by an abort that holds
    /// the lock where the control did; a finished one leaves no lock behind.
    pub fn close_control(&mut self, control: ActiveControl) -> (r: Closing)
        requires
            old(self).wf(),
        ensures
            final(self).wf(),
            match control@.closing() {
                None => r is Closed && final(self)@ == (LockView {
                    locked: old(self)@.locked && !control@.locked,
                    ..old(self)@
                }),
                Some(cancel) => {
                    &&& final(self)@ == old(self)@
                    &&& if control@.locked {
                        r matches Closing::Aborting(abort) && abort.operation == cancel
                    } else {
                        r == Closing::AbortingUnlocked(cancel)
                    }
                    &&& cancel.wf()
                },
            },
    {
        let (cancel, lock) = control.close();
        match cancel {
            None => {
                if let Some(lock) = lock {
                    self.release_control_lock(lock);
                }
                Closing::Closed
            },
            Some(operation) => match lock {
                Some(lock) => Closing::Aborting(Locked { lock, operation }),
                None => Closing::AbortingUnlocked(operation),
            },
        }
    }
}

// -- Laws -----------------------------------------------------------------------------------

/// The lock alone decides who may begin: while it is out every control, read and start is refused
/// and changes nothing; while it is in none is refused for it.
pub proof fn law_lock_decides<T>(
    robot: Robot,
    begun: (RobotView, Result<T, ErrorView>),
    after: Robot,
    r: Result<Locked<T>, FrankaError>,
)
    requires
        robot::begun_locked(robot, begun, after, r),
    ensures
        robot@.locked ==> (r matches Err(e) && e@ == robot::lock_error()) && after@ == robot@,
        !robot@.locked && begun.1 is Ok ==> r is Ok && after@.locked,
        !robot@.locked && begun.1 is Err ==> (r matches Err(e) && e@ == begun.1->Err_0)
            && !after@.locked,
{
}

/// What a read loop waits for sends nothing.
spec fn only_reads(operation: ReadLoop) -> bool {
    operation matches ReadLoop::Updating { update } ==> match update {
        MotionUpdate::Checking { motion, control } => motion is None && control is None,
        MotionUpdate::Sending { .. } => false,
        MotionUpdate::Receiving { reception, .. } => reception.wf(),
    }
}

/// A read loop reads and holds the lock.
proof fn lemma_read_runs(operation: ReadLoop, robot: LockView, events: Seq<ReadEvent>)
    requires
        robot.locked,
        operation.wf(),
        only_reads(operation),
        fits_read(operation, robot, events),
    ensures
        ({
            let (after, p) = run_read(operation, robot, events);
            &&& after.locked == p is Continue
            &&& p matches Progress::Continue(now, action) ==> {
                &&& now.wf()
                &&& only_reads(now)
                &&& action == now.awaiting()
            }
            &&& (p matches Progress::Done(Ok(_))) <==> events.len() > 0 && events.last() == (
            ReadEvent::Returned(false))
        }),
    decreases events.len(),
{
    if events.len() > 0 {
        lemma_read_runs(operation, robot, events.drop_last());
    }
}

/// Reading holds the lock from its beginning until it ends, and only until then: when it is over
/// the lock is free again, whether the callback had enough or an error ended it. It ends well exactly
/// when the callback has had enough, and it never sends anything.
pub proof fn law_read_gives_the_lock_back(
    before: Robot,
    running: Robot,
    r: Result<Locked<ReadLoop>, FrankaError>,
    events: Seq<ReadEvent>,
)
    requires
        robot::begun_locked(
            before,
            (
                before.robot@,
                Ok(
                    ReadLoop::Updating {
                        update: MotionUpdate::Checking { motion: None, control: None },
                    },
                ),
            ),
            running,
            r,
        ),
        r is Ok,
        fits_read(r->Ok_0.operation, running@, events),
    ensures
        !before@.locked,
        ({
            let (after, p) = run_read(r->Ok_0.operation, running@, events);
            &&& after.locked <==> p is Continue
            &&& (p matches Progress::Done(Ok(_))) <==> events.len() > 0 && events.last() == (
            ReadEvent::Returned(false))
            &&& p matches Progress::Continue(_, ReadAction::Perform(action)) ==> !(action is Send)
                && !(action is SendCommand)
        }),
{
    lemma_read_runs(r->Ok_0.operation, running@, events);
}

/// After its first event a start has sent its request.
proof fn lemma_start_sends_once(start: StartMotion, robot: RobotView, events: Seq<Event>)
    requires
        start matches StartMotion::Asking { exchange } && exchange is Sending,
        operation::fits(start, robot, events),
        events.len() > 0,
    ensures
        operation::run(start, robot, events).1 matches Progress::Continue(now, action) ==> {
            &&& action == now.awaiting()
            &&& !(action is Send)
            &&& now.wf()
        },
    decreases events.len(),
{
    if events.len() > 1 {
        lemma_start_sends_once(start, robot, events.drop_last());
    } else {
        assert(operation::run(start, robot, events.drop_last()).1 == Progress::Continue::<
            StartMotion,
            Action,
            Result<u32, ErrorView>,
        >(start, start.awaiting()));
    }
}

/// Starting a motion sends one request, the `Move` with the modes that were asked for, and holds the
/// lock while it goes on. When it fails, be it after the `Move` was sent, the lock is free again;
/// when it ends well the lock stays out for the control.
pub proof fn law_start_holds_the_lock(
    before: Robot,
    controller_mode: MoveControllerMode,
    motion_generator_mode: MoveMotionGeneratorMode,
    running: Robot,
    r: Result<Locked<StartMotion>, FrankaError>,
    events: Seq<Event>,
)
    requires
        robot::begun_locked(
            before,
            before.robot@.starting(
                controller_mode,
                motion_generator_mode,
                robot_impl::default_deviation_of(),
                robot_impl::default_deviation_of(),
            ),
            running,
            r,
        ),
        r is Ok,
        operation::fits(r->Ok_0.operation, running.robot@, events),
    ensures
        !before@.locked,
        r->Ok_0.operation.awaiting() matches Action::Send { request, .. } && request == (
        Request::Move {
            controller_mode,
            motion_generator_mode,
            maximum_path_deviation: robot_impl::default_deviation_of(),
            maximum_goal_pose_deviation: robot_impl::default_deviation_of(),
        }),
        ({
            let (after, p) = run(r->Ok_0.operation, running@, events, true);
            &&& after.locked <==> !(p matches Progress::Done(Err(_)))
            &&& events.len() > 0 && p is Continue ==> !(p->Continue_1 is Send)
        }),
{
    lemma_run(r->Ok_0.operation, running@, events, true);
    if events.len() > 0 {
        lemma_start_sends_once(r->Ok_0.operation, running.robot@, events);
    }
}

/// Torque control that the caller drives is refused while the lock is out. Otherwise its start sends
/// one `Move`, for an external controller: without a motion generator on version 10, with a joint
/// velocity generator on version 5. Any error leaves the lock free, and a good end leaves it with
/// the control.
pub proof fn law_torque_control_starts(
    before: Robot,
    running: Robot,
    r: Result<Locked<StartMotion>, FrankaError>,
    events: Seq<Event>,
)
    requires
        robot::begun_locked(
            before,
            before.robot@.starting(
                MoveControllerMode::ExternalController,
                match before.robot@.version {
                    FciVersion::V5 => MoveMotionGeneratorMode::JointVelocity,
                    FciVersion::V10 => MoveMotionGeneratorMode::NoGenerator,
                },
                robot_impl::default_deviation_of(),
                robot_impl::default_deviation_of(),
            ),
            running,
            r,
        ),
        r matches Ok(locked) ==> operation::fits(locked.operation, running.robot@, events),
    ensures
        before@.locked ==> (r matches Err(e) && e@ == robot::lock_error()) && running@ == before@,
        !before@.locked && r is Err ==> !running@.locked,
        r matches Ok(locked) ==> {
            let (after, p) = run(locked.operation, running@, events, true);
            &&& locked.operation.awaiting() matches Action::Send { request, .. } && request == (
            Request::Move {
                controller_mode: MoveControllerMode::ExternalController,
                motion_generator_mode: match before.robot@.version {
                    FciVersion::V5 => MoveMotionGeneratorMode::JointVelocity,
                    FciVersion::V10 => MoveMotionGeneratorMode::NoGenerator,
                },
                maximum_path_deviation: robot_impl::default_deviation_of(),
                maximum_goal_pose_deviation: robot_impl::default_deviation_of(),
            })
            &&& events.len() > 0 && p is Continue ==> !(p->Continue_1 is Send)
            &&& after.locked <==> !(p matches Progress::Done(Err(_)))
        },
{
    if r is Ok {
        law_start_holds_the_lock(
            before,
            MoveControllerMode::ExternalController,
            match before.robot@.version {
                FciVersion::V5 => MoveMotionGeneratorMode::JointVelocity,
                FciVersion::V10 => MoveMotionGeneratorMode::NoGenerator,
            },
            running,
            r,
            events,
        );
    }
}

/// A control loop holds the lock until it has ended and nothing is left to abort; then it is free.
pub proof fn law_loop_gives_the_lock_back<M: ControlLoopMotion>(
    operation: ControlLoop<M>,
    robot: LockView,
    events: Seq<LoopEvent<M, M::Values>>,
)
    requires
        robot.locked,
    ensures
        ({
            let (after, p) = run_loop(operation, robot, events);
            after.locked <==> holds(p)
        }),
    decreases events.len(),
{
    if events.len() > 0 {
        law_loop_gives_the_lock_back(operation, robot, events.drop_last());
    }
}

/// A torque loop of version 5 holds the lock until it has ended and nothing is left to abort; then
/// it is free.
pub proof fn law_holding_gives_the_lock_back(
    operation: ControlLoop<JointVelocities>,
    robot: LockView,
    events: Seq<LoopEvent<JointVelocities, [Double; 7]>>,
)
    requires
        robot.locked,
    ensures
        ({
            let (after, p) = run_holding(operation, robot, events);
            after.locked <==> holds(p)
        }),
    decreases events.len(),
{
    if events.len() > 0 {
        law_holding_gives_the_lock_back(operation, robot, events.drop_last());
    }
}

/// An abort holds the lock until it ends, well or not; then it is free.
pub proof fn law_abort_gives_the_lock_back(
    operation: CancelMotion,
    robot: LockView,
    events: Seq<Event>,
)
    requires
        robot.locked,
    ensures
        ({
            let (after, p) = run(operation, robot, events, false);
            after.locked <==> p is Continue
        }),
{
    lemma_run(operation, robot, events, false);
}

/// A write that has begun changes the lock and the control only when it ends the motion.
proof fn lemma_write_runs(driven: Driven, write: ControlWrite, events: Seq<Event>)
    requires
        driven.robot.locked,
        driven.control.locked,
        !driven.control.control_finished,
    ensures
        ({
            let (after, p) = driven.run(write, events);
            match p {
                Progress::Continue(now, _) => {
                    &&& after == driven.with_session(after.robot.session)
                    &&& now is Final == write is Final
                },
                Progress::Done(result) => after == (if write is Final {
                    driven.with_session(after.robot.session).ended(result is Ok)
                } else {
                    driven.with_session(after.robot.session)
                }),
            }
        }),
    decreases events.len(),
{
    if events.len() > 0 {
        lemma_write_runs(driven, write, events.drop_last());
    }
}

/// A control holds the lock from its start until a write ends the motion: other writes leave it out,
/// whatever comes of them, and the write that ends the motion gives it back as it ends, well or not.
/// After a good end the control is finished; after a failed one it is not, and giving it up aborts
/// the motion without the lock.
pub proof fn law_control_holds_the_lock(
    driven: Driven,
    begun: (RobotView, Result<Writing<ErrorView>, ErrorView>),
    events: Seq<Event>,
)
    requires
        driven.robot.locked,
        driven.control.locked,
        !driven.control.control_finished,
    ensures
        ({
            let (after, p) = driven.write(begun, events);
            let over = is_last(begun) && p is Done;
            &&& after.robot.locked <==> !over
            &&& after.control.locked <==> !over
            &&& after.control.motion_id == driven.control.motion_id
            &&& over && p->Done_0 is Ok ==> after.control.control_finished
                && after.control.closing() is None
            &&& over && p->Done_0 is Err ==> !after.control.control_finished
                && after.control.closing() == Some(
                CancelMotion::Looking { motion_id: driven.control.motion_id },
            )
            &&& !over ==> after.control == driven.control
        }),
{
    if let (after, Progress::Continue(write, _)) = driven.wrote(begun) {
        lemma_write_runs(after, write, events);
    }
}

/// The error of a write that comes too late.
pub open spec fn late_write() -> WriteProgress<ErrorView> {
    Progress::Done(
        Err(error::bare_control("writeOnce must not be called after the motion has finished."@)),
    )
}

/// Once the last torques of a control have ended the motion well, every later write of it, whatever
/// it holds, is refused with the same error, wants nothing done and changes neither the session nor
/// the lock. The lock has been free since that end, so another operation may hold it meanwhile.
pub proof fn law_ended_torque_control_refuses(
    robot: LockView,
    control: ActiveTorqueControl,
    last: Torques,
    events: Seq<Event>,
    ended: ActiveTorqueControl,
    later: LockView,
    control_input: Torques,
)
    requires
        robot.locked,
        control.inner@.locked,
        last.motion_finished,
        ({
            let driven = Driven { robot, control: control.inner@ };
            let (after, p) = driven.write(control.wrote(robot.session, last), events);
            p matches Progress::Done(Ok(_)) && ended.inner@ == after.control
        }),
    ensures
        ({
            let driven = Driven { robot, control: control.inner@ };
            let (after, _) = driven.write(control.wrote(robot.session, last), events);
            let now = Driven { robot: later, control: ended.inner@ };
            &&& !after.robot.locked
            &&& now.wrote(ended.wrote(later.session, control_input)) == (now, late_write())
        }),
{
    let driven = Driven { robot, control: control.inner@ };
    law_control_holds_the_lock(driven, control.wrote(robot.session, last), events);
}

/// Once the last setpoint of a control, or the last torques with it, have ended the motion well,
/// every later write of it, whatever it holds, is refused with the same error, wants nothing done
/// and changes neither the session nor the lock. The lock has been free since that end, so another
/// operation may hold it meanwhile.
pub proof fn law_ended_motion_control_refuses<T: ActiveMotionInput>(
    robot: LockView,
    control: ActiveMotionGenerator<T>,
    last: T,
    last_torques: Option<Torques>,
    events: Seq<Event>,
    ended: ActiveMotionGenerator<T>,
    later: LockView,
    motion_input: T,
    control_input: Option<Torques>,
)
    requires
        robot.locked,
        control.inner@.locked,
        last.finished() || (last_torques matches Some(torques) && torques.motion_finished),
        ({
            let driven = Driven { robot, control: control.inner@ };
            let (after, p) = driven.write(
                control.wrote(robot.session, last, last_torques),
                events,
            );
            p matches Progress::Done(Ok(_)) && ended.inner@ == after.control
        }),
    ensures
        ({
            let driven = Driven { robot, control: control.inner@ };
            let (after, _) = driven.write(
                control.wrote(robot.session, last, last_torques),
                events,
            );
            let now = Driven { robot: later, control: ended.inner@ };
            &&& !after.robot.locked
            &&& now.wrote(ended.wrote(later.session, motion_input, control_input)) == (
                now,
                late_write(),
            )
        }),
{
    let driven = Driven { robot, control: control.inner@ };
    law_control_holds_the_lock(driven, control.wrote(robot.session, last, last_torques), events);
}

} // verus!
