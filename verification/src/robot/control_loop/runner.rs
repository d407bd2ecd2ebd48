//! The loop itself.
use crate::control_types::{ControllerMode, Finishable, JointPositions, JointVelocities, Torques};
use crate::double::Double;
use crate::duration::Duration;
use crate::error;
use crate::error::{ErrorView, FrankaError};
use crate::robot::control_loop;
use crate::robot::control_loop::torque;
use crate::robot::control_loop::torque::{convert_torques, plan_torques};
use crate::robot::control_loop::{
    rate_limits, ControlLoopMotion, ConvertContext, RateLimits, Shaped, Shaping,
};
use crate::robot::robot_impl::motion::{
    CancelMotion, FinishMotion, FinishProgress, MotionErrorCheck, MotionUpdate, StartMotion,
};
use crate::robot::robot_impl::operation;
use crate::robot::robot_impl::operation::Operation;
use crate::robot::robot_impl;
use crate::robot::robot_impl::{default_deviation, RobotImpl, RobotView};
use crate::robot_state;
use crate::robot_state::RobotState;
use crate::step::{Action, Event, Progress};
use crate::wire::codec::{ControllerCommand, Deviation, FciVersion, MotionGeneratorCommand};
use crate::wire::modes::{MoveControllerMode, MoveMotionGeneratorMode};
use vstd::pervasive::unreached;
use vstd::prelude::*;

verus! {

/// What a loop wants done next.
#[derive(Clone, Copy, PartialEq, Debug)]
pub enum LoopAction<V> {
    /// Perform an action on the connection; answered by [`LoopEvent::Performed`].
    Perform(Action),
    /// Call the motion callback; answered by [`LoopEvent::Motion`].
    CallMotion { state: RobotState, period: Duration },
    /// Call the control callback; answered by [`LoopEvent::Control`].
    CallControl { state: RobotState, period: Duration },
    /// Filter and rate limit a motion command; answered by [`LoopEvent::ShapedMotion`].
    ShapeMotion { shaping: Shaping<V> },
    /// Filter and rate limit torques; answered by [`LoopEvent::ShapedTorques`].
    ShapeTorques { torques: Shaping<[Double; 7]> },
}

/// What came of it.
#[derive(Debug)]
pub enum LoopEvent<M, V> {
    /// What came of an action on the connection.
    Performed(Event),
    /// What the motion callback returned.
    Motion(M),
    /// What the control callback returned.
    Control(Torques),
    /// A motion command after shaping.
    ShapedMotion(Shaped<V>),
    /// Torques after shaping.
    ShapedTorques(Result<[Double; 7], FrankaError>),
}

impl<V> LoopAction<V> {
    /// Whether an event is an answer to this action.
    pub open spec fn answered<M>(self, event: LoopEvent<M, V>) -> bool {
        match self {
            LoopAction::Perform(action) => event matches LoopEvent::Performed(e)
                && action.answered(e),
            LoopAction::CallMotion { .. } => event is Motion,
            LoopAction::CallControl { .. } => event is Control,
            LoopAction::ShapeMotion { .. } => event is ShapedMotion,
            LoopAction::ShapeTorques { .. } => event is ShapedTorques,
        }
    }

    /// Whether an event is an answer to this action.
    pub fn answered_by<M>(&self, event: &LoopEvent<M, V>) -> (b: bool)
        ensures
            b == self.answered(*event),
    {
        match self {
            LoopAction::Perform(action) => match event {
                LoopEvent::Performed(e) => action.answered_by(e),
                _ => false,
            },
            LoopAction::CallMotion { .. } => matches!(event, LoopEvent::Motion(_)),
            LoopAction::CallControl { .. } => matches!(event, LoopEvent::Control(_)),
            LoopAction::ShapeMotion { .. } => matches!(event, LoopEvent::ShapedMotion(_)),
            LoopAction::ShapeTorques { .. } => matches!(event, LoopEvent::ShapedTorques(_)),
        }
    }
}

/// One turn of the callbacks.
#[derive(Clone, Copy, PartialEq, Debug)]
pub struct Cycle {
    /// Number of the `Move`.
    pub motion_id: u32,
    /// The state that the callbacks are given.
    pub state: RobotState,
    /// The time since the state before it.
    pub period: Duration,
    /// The setpoint, where there is a motion callback.
    pub motion: Option<MotionGeneratorCommand>,
    /// The torques, where there is a control callback.
    pub control: Option<ControllerCommand>,
}

/// How far a loop has come.
#[derive(Debug)]
pub enum LoopPhase<M, V> {
    /// The motion is being started.
    Starting { start: StartMotion },
    /// The commands are being sent and the next state received.
    Updating {
        motion_id: u32,
        motion: Option<MotionGeneratorCommand>,
        control: Option<ControllerCommand>,
        previous: Option<Duration>,
        update: MotionUpdate,
    },
    /// The motion is over though it should be running.
    Failing { check: MotionErrorCheck },
    /// The motion callback has its turn.
    Moving { cycle: Cycle },
    /// What the motion callback returned is being shaped.
    ShapingMotion { cycle: Cycle, output: M, shaping: Shaping<V> },
    /// The control callback has its turn.
    Controlling { cycle: Cycle },
    /// What the control callback returned is being shaped.
    ShapingTorques { cycle: Cycle, torques: Torques },
    /// The motion is being ended.
    Finishing { motion_id: u32, finish: FinishMotion },
}

/// How a loop ended, and what is left to do.
#[derive(Debug)]
pub struct LoopEnd<E> {
    /// How it ended.
    pub result: Result<(), E>,
    /// The motion is to be aborted; what comes of that is not looked at.
    pub cancel: Option<CancelMotion>,
}

/// What a loop was set up with.
#[derive(Clone, Copy, PartialEq, Debug)]
pub struct LoopSetup {
    /// Whether there is a motion callback.
    pub has_motion: bool,
    /// Whether there is a control callback.
    pub has_control: bool,
    /// The version of the session, which decides on the order of the callbacks.
    pub version: FciVersion,
    /// What shaping depends on.
    pub context: ConvertContext,
}

/// A running control loop.
#[derive(Debug)]
pub struct ControlLoop<M: ControlLoopMotion> {
    /// What it was set up with.
    pub setup: LoopSetup,
    /// How far it has come.
    pub phase: LoopPhase<M, M::Values>,
}

/// How a loop goes on.
pub type LoopProgress<M, E> = Progress<
    ControlLoop<M>,
    LoopAction<<M as ControlLoopMotion>::Values>,
    LoopEnd<E>,
>;

/// Progress with its end in terms of views.
pub open spec fn seen_loop<M: ControlLoopMotion>(p: LoopProgress<M, FrankaError>) -> LoopProgress<
    M,
    ErrorView,
> {
    match p {
        Progress::Continue(l, action) => Progress::Continue(l, action),
        Progress::Done(end) => Progress::Done(
            LoopEnd { result: error::seen(end.result), cancel: end.cancel },
        ),
    }
}

/// A loop that ended regularly.
pub open spec fn ended<M: ControlLoopMotion>() -> LoopProgress<M, ErrorView> {
    Progress::Done(LoopEnd { result: Ok(()), cancel: None })
}

/// A loop that failed while its motion was on: the motion is to be aborted.
pub open spec fn failed<M: ControlLoopMotion>(motion_id: u32, e: ErrorView) -> LoopProgress<
    M,
    ErrorView,
> {
    Progress::Done(
        LoopEnd { result: Err(e), cancel: Some(CancelMotion::Looking { motion_id }) },
    )
}

/// Ends a loop that failed while its motion was on.
fn fail<M: ControlLoopMotion>(motion_id: u32, e: FrankaError) -> (r: LoopProgress<M, FrankaError>)
    ensures
        seen_loop(r) == failed::<M>(motion_id, e@),
        r is Done,
{
    Progress::Done(LoopEnd { result: Err(e), cancel: Some(CancelMotion::Looking { motion_id }) })
}

impl LoopSetup {
    /// A turn has a command for each callback that there is.
    pub open spec fn fits(self, cycle: Cycle) -> bool {
        cycle.motion is Some == self.has_motion && cycle.control is Some == self.has_control
    }

    /// Going on in a phase.
    pub open spec fn at<M: ControlLoopMotion>(self, phase: LoopPhase<M, M::Values>) -> LoopProgress<M, ErrorView> {
        let next = ControlLoop { setup: self, phase };
        Progress::Continue(next, next.awaiting())
    }

    /// The motion callback has its turn first under version 5, the control callback under version
    /// 10.
    pub open spec fn first_turn<M: ControlLoopMotion>(self, cycle: Cycle) -> LoopProgress<M, ErrorView> {
        match self.version {
            FciVersion::V5 => if self.has_motion {
                self.at::<M>(LoopPhase::Moving { cycle })
            } else {
                self.second_turn::<M>(cycle)
            },
            FciVersion::V10 => if self.has_control {
                self.at::<M>(LoopPhase::Controlling { cycle })
            } else {
                self.second_turn::<M>(cycle)
            },
        }
    }

    /// The other callback has its turn, where there is one.
    pub open spec fn second_turn<M: ControlLoopMotion>(self, cycle: Cycle) -> LoopProgress<M, ErrorView> {
        match self.version {
            FciVersion::V5 => if self.has_control {
                self.at::<M>(LoopPhase::Controlling { cycle })
            } else {
                self.sent::<M>(cycle)
            },
            FciVersion::V10 => if self.has_motion {
                self.at::<M>(LoopPhase::Moving { cycle })
            } else {
                self.sent::<M>(cycle)
            },
        }
    }

    /// The commands of a turn are sent.
    pub open spec fn sent<M: ControlLoopMotion>(self, cycle: Cycle) -> LoopProgress<M, ErrorView> {
        self.at::<M>(
            LoopPhase::Updating {
                motion_id: cycle.motion_id,
                motion: cycle.motion,
                control: cycle.control,
                previous: Some(cycle.state.time),
                update: MotionUpdate::Checking { motion: cycle.motion, control: cycle.control },
            },
        )
    }

    /// The motion is ended with the commands of a turn.
    pub open spec fn finished<M: ControlLoopMotion>(self, robot: RobotView, cycle: Cycle) -> (
        RobotView,
        LoopProgress<M, ErrorView>,
    ) {
        let (after, p) = robot.finishing(cycle.motion_id, cycle.motion, cycle.control);
        (after, self.finish_goes_on::<M>(cycle.motion_id, p))
    }

    /// How the end of the motion goes on.
    pub open spec fn finish_goes_on<M: ControlLoopMotion>(self, motion_id: u32, p: FinishProgress<ErrorView>) -> LoopProgress<
        M,
        ErrorView,
    > {
        match p {
            Progress::Continue(finish, _) => self.at::<M>(LoopPhase::Finishing { motion_id, finish }),
            Progress::Done(Ok(_)) => ended(),
            Progress::Done(Err(e)) => failed(motion_id, e),
        }
    }

    /// After a callback had its turn: a last command ends the motion, and the callback whose turn
    /// is later is not called any more.
    pub open spec fn turned<M: ControlLoopMotion>(self, robot: RobotView, cycle: Cycle, first: bool, last: bool) -> (
        RobotView,
        LoopProgress<M, ErrorView>,
    ) {
        if last {
            self.finished::<M>(robot, cycle)
        } else if first {
            (robot, self.second_turn::<M>(cycle))
        } else {
            (robot, self.sent::<M>(cycle))
        }
    }

    /// After a motion command was shaped.
    pub open spec fn moved<M: ControlLoopMotion>(
        self,
        robot: RobotView,
        cycle: Cycle,
        output: M,
        shaped: Shaped<M::Values>,
    ) -> (RobotView, LoopProgress<M, ErrorView>) {
        match output.written(shaped, cycle.motion->Some_0) {
            (_, Err(e)) => (robot, failed(cycle.motion_id, e)),
            (motion, Ok(_)) => self.turned::<M>(
                robot,
                Cycle { motion: Some(motion), ..cycle },
                self.version == FciVersion::V5,
                output.finished(),
            ),
        }
    }

    /// After torques were shaped.
    pub open spec fn controlled<M: ControlLoopMotion>(
        self,
        robot: RobotView,
        cycle: Cycle,
        output: Torques,
        shaped: Result<[Double; 7], FrankaError>,
    ) -> (RobotView, LoopProgress<M, ErrorView>) {
        match torque::torques_written(shaped, cycle.control->Some_0) {
            (_, Err(e)) => (robot, failed(cycle.motion_id, e)),
            (control, Ok(_)) => self.turned::<M>(
                robot,
                Cycle { control: Some(control), ..cycle },
                self.version == FciVersion::V10,
                output.motion_finished,
            ),
        }
    }

    /// After a state was received: the callbacks have their turns, unless it shows that the motion
    /// is over.
    pub open spec fn received<M: ControlLoopMotion>(
        self,
        robot: RobotView,
        motion_id: u32,
        motion: Option<MotionGeneratorCommand>,
        control: Option<ControllerCommand>,
        previous: Option<Duration>,
        state: RobotState,
    ) -> (RobotView, LoopProgress<M, ErrorView>) {
        if robot.failing(state) {
            (
                robot,
                self.at::<M>(
                    LoopPhase::Failing {
                        check: MotionErrorCheck { motion_id, errors: state.last_motion_errors },
                    },
                ),
            )
        } else {
            (
                robot,
                self.first_turn::<M>(
                    Cycle {
                        motion_id,
                        state,
                        period: crate::duration::elapsed(previous, state.time),
                        motion: self.motion_or_blank(motion),
                        control: self.control_or_blank(control),
                    },
                ),
            )
        }
    }

    /// The setpoint to go on from, where there is a motion callback.
    pub open spec fn motion_or_blank(self, motion: Option<MotionGeneratorCommand>) -> Option<
        MotionGeneratorCommand,
    > {
        if self.has_motion {
            match motion {
                Some(motion) => Some(motion),
                None => Some(MotionGeneratorCommand::blank()),
            }
        } else {
            None
        }
    }

    /// The torques to go on from, where there is a control callback.
    pub open spec fn control_or_blank(self, control: Option<ControllerCommand>) -> Option<
        ControllerCommand,
    > {
        if self.has_control {
            match control {
                Some(control) => Some(control),
                None => Some(ControllerCommand::blank()),
            }
        } else {
            None
        }
    }

    /// Goes on in a phase.
    fn go<M: ControlLoopMotion>(self, phase: LoopPhase<M, M::Values>, action: LoopAction<M::Values>) -> (r: LoopProgress<
        M,
        FrankaError,
    >)
        requires
            (ControlLoop { setup: self, phase }).wf(),
            action == (ControlLoop { setup: self, phase }).awaiting(),
        ensures
            seen_loop(r) == self.at::<M>(phase),
            r matches Progress::Continue(next, action) ==> next.wf() && action == next.awaiting(),
    {
        Progress::Continue(
            ControlLoop { setup: self, phase },
            action,
        )
    }

    /// Sends the commands of a turn.
    fn send<M: ControlLoopMotion>(self, cycle: Cycle) -> (r: LoopProgress<M, FrankaError>)
        requires
            self.fits(cycle),
        ensures
            seen_loop(r) == self.sent::<M>(cycle),
            r matches Progress::Continue(next, action) ==> next.wf() && action == next.awaiting(),
    {
        self.go::<M>(
            LoopPhase::Updating {
                motion_id: cycle.motion_id,
                motion: cycle.motion,
                control: cycle.control,
                previous: Some(cycle.state.time),
                update: MotionUpdate::Checking { motion: cycle.motion, control: cycle.control },
            },
            LoopAction::Perform(Action::CheckConnection),
        )
    }

    /// Gives the motion callback its turn.
    fn call_motion<M: ControlLoopMotion>(self, cycle: Cycle) -> (r: LoopProgress<M, FrankaError>)
        requires
            self.fits(cycle),
            self.has_motion,
        ensures
            seen_loop(r) == self.at::<M>(LoopPhase::Moving { cycle }),
            r matches Progress::Continue(next, action) ==> next.wf() && action == next.awaiting(),
    {
        self.go::<M>(
            LoopPhase::Moving { cycle },
            LoopAction::CallMotion { state: cycle.state, period: cycle.period },
        )
    }

    /// Gives the control callback its turn.
    fn call_control<M: ControlLoopMotion>(self, cycle: Cycle) -> (r: LoopProgress<M, FrankaError>)
        requires
            self.fits(cycle),
            self.has_control,
        ensures
            seen_loop(r) == self.at::<M>(LoopPhase::Controlling { cycle }),
            r matches Progress::Continue(next, action) ==> next.wf() && action == next.awaiting(),
    {
        self.go::<M>(
            LoopPhase::Controlling { cycle },
            LoopAction::CallControl { state: cycle.state, period: cycle.period },
        )
    }

    /// Gives the second callback its turn.
    fn turn_second<M: ControlLoopMotion>(self, cycle: Cycle) -> (r: LoopProgress<M, FrankaError>)
        requires
            self.fits(cycle),
        ensures
            seen_loop(r) == self.second_turn::<M>(cycle),
            r matches Progress::Continue(next, action) ==> next.wf() && action == next.awaiting(),
    {
        match self.version {
            FciVersion::V5 => if self.has_control {
                self.call_control::<M>(cycle)
            } else {
                self.send::<M>(cycle)
            },
            FciVersion::V10 => if self.has_motion {
                self.call_motion::<M>(cycle)
            } else {
                self.send::<M>(cycle)
            },
        }
    }

    /// Gives the first callback its turn.
    fn turn_first<M: ControlLoopMotion>(self, cycle: Cycle) -> (r: LoopProgress<M, FrankaError>)
        requires
            self.fits(cycle),
        ensures
            seen_loop(r) == self.first_turn::<M>(cycle),
            r matches Progress::Continue(next, action) ==> next.wf() && action == next.awaiting(),
    {
        match self.version {
            FciVersion::V5 => if self.has_motion {
                self.call_motion::<M>(cycle)
            } else {
                self.turn_second::<M>(cycle)
            },
            FciVersion::V10 => if self.has_control {
                self.call_control::<M>(cycle)
            } else {
                self.turn_second::<M>(cycle)
            },
        }
    }

    /// Goes on with the end of the motion.
    fn go_on_finishing<M: ControlLoopMotion>(
        self,
        motion_id: u32,
        p: FinishProgress<FrankaError>,
    ) -> (r: LoopProgress<M, FrankaError>)
        requires
            p matches Progress::Continue(next, action) ==> next.wf() && action == next.awaiting(),
        ensures
            seen_loop(r) == self.finish_goes_on::<M>(motion_id, operation::seen(p)),
            r matches Progress::Continue(next, action) ==> next.wf() && action == next.awaiting(),
    {
        match p {
            Progress::Continue(finish, action) => self.go::<M>(
                LoopPhase::Finishing { motion_id, finish },
                LoopAction::Perform(action),
            ),
            Progress::Done(Ok(())) => Progress::Done(LoopEnd { result: Ok(()), cancel: None }),
            Progress::Done(Err(e)) => fail(motion_id, e),
        }
    }

    /// Goes on after a callback had its turn.
    fn turn<M: ControlLoopMotion>(self, robot: &mut RobotImpl, cycle: Cycle, first: bool, last: bool) -> (r: LoopProgress<
        M,
        FrankaError,
    >)
        requires
            self.fits(cycle),
            old(robot).wf(),
        ensures
            final(robot).wf(),
            (final(robot)@, seen_loop(r)) == self.turned::<M>(old(robot)@, cycle, first, last),
            r matches Progress::Continue(next, action) ==> next.wf() && action == next.awaiting(),
    {
        if last {
            let p = robot.finish_motion(cycle.motion_id, cycle.motion, cycle.control);
            self.go_on_finishing::<M>(cycle.motion_id, p)
        } else if first {
            self.turn_second::<M>(cycle)
        } else {
            self.send::<M>(cycle)
        }
    }

    /// Goes on after a motion command was shaped.
    fn spin_motion<M: ControlLoopMotion>(
        self,
        robot: &mut RobotImpl,
        cycle: Cycle,
        output: M,
        shaped: Shaped<M::Values>,
    ) -> (r: LoopProgress<M, FrankaError>)
        requires
            self.fits(cycle),
            self.has_motion,
            old(robot).wf(),
        ensures
            final(robot).wf(),
            (final(robot)@, seen_loop(r)) == self.moved::<M>(old(robot)@, cycle, output, shaped),
            r matches Progress::Continue(next, action) ==> next.wf() && action == next.awaiting(),
    {
        let mut motion = match cycle.motion {
            Some(motion) => motion,
            None => unreached(),
        };
        match output.write(shaped, &mut motion) {
            Err(e) => fail(cycle.motion_id, e),
            Ok(()) => {
                let first = self.version == FciVersion::V5;
                let last = output.is_finished();
                let cycle = Cycle {
                    motion_id: cycle.motion_id,
                    state: cycle.state,
                    period: cycle.period,
                    motion: Some(motion),
                    control: cycle.control,
                };
                self.turn::<M>(robot, cycle, first, last)
            },
        }
    }

    /// Goes on after torques were shaped.
    fn spin_control<M: ControlLoopMotion>(
        self,
        robot: &mut RobotImpl,
        cycle: Cycle,
        output: Torques,
        shaped: Result<[Double; 7], FrankaError>,
    ) -> (r: LoopProgress<M, FrankaError>)
        requires
            self.fits(cycle),
            self.has_control,
            old(robot).wf(),
        ensures
            final(robot).wf(),
            (final(robot)@, seen_loop(r)) == self.controlled::<M>(old(robot)@, cycle, output, shaped),
            r matches Progress::Continue(next, action) ==> next.wf() && action == next.awaiting(),
    {
        let mut control = match cycle.control {
            Some(control) => control,
            None => unreached(),
        };
        match convert_torques(shaped, &mut control) {
            Err(e) => fail(cycle.motion_id, e),
            Ok(()) => {
                let first = self.version == FciVersion::V10;
                let last = output.is_finished();
                let cycle = Cycle {
                    motion_id: cycle.motion_id,
                    state: cycle.state,
                    period: cycle.period,
                    motion: cycle.motion,
                    control: Some(control),
                };
                self.turn::<M>(robot, cycle, first, last)
            },
        }
    }

    /// Goes on after a state was received.
    fn receive<M: ControlLoopMotion>(
        self,
        robot: &RobotImpl,
        motion_id: u32,
        motion: Option<MotionGeneratorCommand>,
        control: Option<ControllerCommand>,
        previous: Option<Duration>,
        state: RobotState,
    ) -> (r: LoopProgress<M, FrankaError>)
        ensures
            (robot@, seen_loop(r)) == self.received::<M>(
                robot@,
                motion_id,
                motion,
                control,
                previous,
                state,
            ),
            r matches Progress::Continue(next, action) ==> next.wf() && action == next.awaiting(),
    {
        match robot.throw_on_motion_error(&state, motion_id) {
            Some(check) => self.go::<M>(
                LoopPhase::Failing { check },
                LoopAction::Perform(Action::AwaitMoveEnd { command_id: motion_id }),
            ),
            None => {
                let motion = if self.has_motion {
                    match motion {
                        Some(motion) => Some(motion),
                        None => Some(MotionGeneratorCommand::default()),
                    }
                } else {
                    None
                };
                let control = if self.has_control {
                    match control {
                        Some(control) => Some(control),
                        None => Some(ControllerCommand::default()),
                    }
                } else {
                    None
                };
                let period = crate::duration::time_since(previous, state.time);
                self.turn_first::<M>(Cycle { motion_id, state, period, motion, control })
            },
        }
    }
}

impl<M: ControlLoopMotion> ControlLoop<M> {
    /// The parts are in order.
    pub open spec fn wf(self) -> bool {
        match self.phase {
            LoopPhase::Starting { start } => start.wf(),
            LoopPhase::Updating { update, motion, control, .. } => {
                &&& update.wf()
                &&& motion is Some ==> self.setup.has_motion
                &&& control is Some ==> self.setup.has_control
            },
            LoopPhase::Moving { cycle } => self.setup.fits(cycle) && self.setup.has_motion,
            LoopPhase::ShapingMotion { cycle, .. } => self.setup.fits(cycle) && self.setup.has_motion,
            LoopPhase::Controlling { cycle } => self.setup.fits(cycle) && self.setup.has_control,
            LoopPhase::ShapingTorques { cycle, .. } => self.setup.fits(cycle) && self.setup.has_control,
            LoopPhase::Finishing { finish, .. } => finish.wf(),
            LoopPhase::Failing { .. } => true,
        }
    }

    /// What is wanted next.
    pub open spec fn awaiting(self) -> LoopAction<M::Values> {
        match self.phase {
            LoopPhase::Starting { start } => LoopAction::Perform(start.awaiting()),
            LoopPhase::Updating { update, .. } => LoopAction::Perform(update.awaiting()),
            LoopPhase::Failing { check } => LoopAction::Perform(check.awaiting()),
            LoopPhase::Moving { cycle } => LoopAction::CallMotion {
                state: cycle.state,
                period: cycle.period,
            },
            LoopPhase::ShapingMotion { shaping, .. } => LoopAction::ShapeMotion { shaping },
            LoopPhase::Controlling { cycle } => LoopAction::CallControl {
                state: cycle.state,
                period: cycle.period,
            },
            LoopPhase::ShapingTorques { cycle, torques } => LoopAction::ShapeTorques {
                torques: torque::torque_shaping(torques, self.setup.context, cycle.state),
            },
            LoopPhase::Finishing { finish, .. } => LoopAction::Perform(finish.awaiting()),
        }
    }

    /// What is wanted next.
    pub fn action(&self) -> (a: LoopAction<M::Values>)
        ensures
            a == self.awaiting(),
    {
        match &self.phase {
            LoopPhase::Starting { start } => LoopAction::Perform(start.action()),
            LoopPhase::Updating { update, .. } => LoopAction::Perform(update.action()),
            LoopPhase::Failing { check } => LoopAction::Perform(check.action()),
            LoopPhase::Moving { cycle } => LoopAction::CallMotion {
                state: cycle.state,
                period: cycle.period,
            },
            LoopPhase::ShapingMotion { shaping, .. } => LoopAction::ShapeMotion { shaping: *shaping },
            LoopPhase::Controlling { cycle } => LoopAction::CallControl {
                state: cycle.state,
                period: cycle.period,
            },
            LoopPhase::ShapingTorques { cycle, torques } => LoopAction::ShapeTorques {
                torques: plan_torques(torques, &self.setup.context, &cycle.state),
            },
            LoopPhase::Finishing { finish, .. } => LoopAction::Perform(finish.action()),
        }
    }

    /// How the loop goes on after an event.
    pub open spec fn next(self, robot: RobotView, event: LoopEvent<M, M::Values>) -> (
        RobotView,
        LoopProgress<M, ErrorView>,
    ) {
        match self.phase {
            LoopPhase::Starting { start } => match start.next(robot, event->Performed_0) {
                (after, Progress::Continue(start, _)) => (
                    after,
                    self.setup.at::<M>(LoopPhase::Starting { start }),
                ),
                (after, Progress::Done(Err(e))) => (
                    after,
                    Progress::Done(LoopEnd { result: Err(e), cancel: None }),
                ),
                (after, Progress::Done(Ok(motion_id))) => (
                    after,
                    self.setup.at::<M>(
                        LoopPhase::Updating {
                            motion_id,
                            motion: None,
                            control: None,
                            previous: None,
                            update: MotionUpdate::Checking { motion: None, control: None },
                        },
                    ),
                ),
            },
            LoopPhase::Updating { motion_id, motion, control, previous, update } => match update.next(
                robot,
                event->Performed_0,
            ) {
                (after, Progress::Continue(update, _)) => (
                    after,
                    self.setup.at::<M>(LoopPhase::Updating { motion_id, motion, control, previous, update }),
                ),
                (after, Progress::Done(Err(e))) => (after, failed(motion_id, e)),
                (after, Progress::Done(Ok(state))) => self.setup.received::<M>(
                    after,
                    motion_id,
                    motion,
                    control,
                    previous,
                    state,
                ),
            },
            LoopPhase::Failing { check } => match check.next(robot, event->Performed_0) {
                (after, Progress::Done(Err(e))) => (after, failed(check.motion_id, e)),
                (after, _) => (after, self.setup.at::<M>(self.phase)),
            },
            LoopPhase::Moving { cycle } => {
                let output = event->Motion_0;
                let shaping = output.shaping(self.setup.context, cycle.state);
                let begun = LoopSetup {
                    context: ConvertContext {
                        initialized_filter: self.setup.context.initialized_filter || M::initializes(),
                        ..self.setup.context
                    },
                    ..self.setup
                };
                if shaping.filter || shaping.limit {
                    (robot, begun.at::<M>(LoopPhase::ShapingMotion { cycle, output, shaping }))
                } else {
                    begun.moved::<M>(robot, cycle, output, output.unchanged())
                }
            },
            LoopPhase::ShapingMotion { cycle, output, .. } => self.setup.moved::<M>(
                robot,
                cycle,
                output,
                event->ShapedMotion_0,
            ),
            LoopPhase::Controlling { cycle } => {
                let output = event->Control_0;
                if self.setup.context.filters() || self.setup.context.limit_rate {
                    (robot, self.setup.at::<M>(LoopPhase::ShapingTorques { cycle, torques: output }))
                } else {
                    self.setup.controlled::<M>(robot, cycle, output, Ok(output.tau_J))
                }
            },
            LoopPhase::ShapingTorques { cycle, torques: output } => self.setup.controlled::<M>(
                robot,
                cycle,
                output,
                event->ShapedTorques_0,
            ),
            LoopPhase::Finishing { motion_id, finish } => {
                let (after, p) = finish.next(robot, event->Performed_0);
                (after, self.setup.finish_goes_on::<M>(motion_id, p))
            },
        }
    }

    /// Whether the motion is on, as far as the loop is concerned, and its number.
    pub open spec fn motion_on(self) -> Option<u32> {
        match self.phase {
            LoopPhase::Starting { .. } => None,
            LoopPhase::Updating { motion_id, .. } => Some(motion_id),
            LoopPhase::Failing { check } => Some(check.motion_id),
            LoopPhase::Moving { cycle } => Some(cycle.motion_id),
            LoopPhase::ShapingMotion { cycle, .. } => Some(cycle.motion_id),
            LoopPhase::Controlling { cycle } => Some(cycle.motion_id),
            LoopPhase::ShapingTorques { cycle, .. } => Some(cycle.motion_id),
            LoopPhase::Finishing { motion_id, .. } => Some(motion_id),
        }
    }

    /// Gives up the loop, as when a callback panics: a motion that is on is to be aborted.
    pub fn abandon(self) -> (r: Option<CancelMotion>)
        ensures
            r == (match self.motion_on() {
                Some(motion_id) => Some(CancelMotion::Looking { motion_id }),
                None => None,
            }),
    {
        let motion_id: u32 = match self.phase {
            LoopPhase::Starting { .. } => {
                return None;
            },
            LoopPhase::Updating { motion_id, .. } => motion_id,
            LoopPhase::Failing { check } => check.motion_id,
            LoopPhase::Moving { cycle } => cycle.motion_id,
            LoopPhase::ShapingMotion { cycle, .. } => cycle.motion_id,
            LoopPhase::Controlling { cycle } => cycle.motion_id,
            LoopPhase::ShapingTorques { cycle, .. } => cycle.motion_id,
            LoopPhase::Finishing { motion_id, .. } => motion_id,
        };
        Some(CancelMotion::Looking { motion_id })
    }

    /// Goes on after an event.
    pub fn resume(self, robot: &mut RobotImpl, event: LoopEvent<M, M::Values>) -> (r: LoopProgress<
        M,
        FrankaError,
    >)
        requires
            self.wf(),
            self.awaiting().answered(event),
            old(robot).wf(),
        ensures
            final(robot).wf(),
            (final(robot)@, seen_loop(r)) == self.next(old(robot)@, event),
            r matches Progress::Continue(next, action) ==> next.wf() && action == next.awaiting(),
    {
        let ControlLoop { setup, phase } = self;
        match phase {
            LoopPhase::Starting { start } => {
                let event = match event {
                    LoopEvent::Performed(event) => event,
                    _ => unreached(),
                };
                match start.resume(robot, event) {
                    Progress::Continue(start, action) => setup.go::<M>(LoopPhase::Starting { start }, LoopAction::Perform(action)),
                    Progress::Done(Err(e)) => Progress::Done(
                        LoopEnd { result: Err(e), cancel: None },
                    ),
                    Progress::Done(Ok(motion_id)) => setup.go::<M>(
                        LoopPhase::Updating {
                            motion_id,
                            motion: None,
                            control: None,
                            previous: None,
                            update: MotionUpdate::Checking { motion: None, control: None },
                        },
                        LoopAction::Perform(Action::CheckConnection),
                    ),
                }
            },
            LoopPhase::Updating { motion_id, motion, control, previous, update } => {
                let event = match event {
                    LoopEvent::Performed(event) => event,
                    _ => unreached(),
                };
                match update.resume(robot, event) {
                    Progress::Continue(update, action) => setup.go::<M>(
                        LoopPhase::Updating { motion_id, motion, control, previous, update },
                        LoopAction::Perform(action),
                    ),
                    Progress::Done(Err(e)) => fail(motion_id, e),
                    Progress::Done(Ok(state)) => setup.receive::<M>(
                        robot,
                        motion_id,
                        motion,
                        control,
                        previous,
                        state,
                    ),
                }
            },
            LoopPhase::Failing { check } => {
                let event = match event {
                    LoopEvent::Performed(event) => event,
                    _ => unreached(),
                };
                match check.resume(robot, event) {
                    Progress::Done(Err(e)) => fail(check.motion_id, e),
                    _ => unreached(),
                }
            },
            LoopPhase::Moving { cycle } => {
                let output = match event {
                    LoopEvent::Motion(output) => output,
                    _ => unreached(),
                };
                let mut setup = setup;
                let shaping = output.plan(&mut setup.context, &cycle.state);
                if shaping.filter || shaping.limit {
                    setup.go::<M>(
                        LoopPhase::ShapingMotion { cycle, output, shaping },
                        LoopAction::ShapeMotion { shaping },
                    )
                } else {
                    let shaped = output.pass();
                    setup.spin_motion::<M>(robot, cycle, output, shaped)
                }
            },
            LoopPhase::ShapingMotion { cycle, output, .. } => {
                let shaped = match event {
                    LoopEvent::ShapedMotion(shaped) => shaped,
                    _ => unreached(),
                };
                setup.spin_motion::<M>(
                    robot,
                    cycle,
                    output,
                    shaped,
                )
            },
            LoopPhase::Controlling { cycle } => {
                let output = match event {
                    LoopEvent::Control(output) => output,
                    _ => unreached(),
                };
                let shaping = plan_torques(&output, &setup.context, &cycle.state);
                if shaping.filter || shaping.limit {
                    setup.go::<M>(
                        LoopPhase::ShapingTorques { cycle, torques: output },
                        LoopAction::ShapeTorques { torques: shaping },
                    )
                } else {
                    setup.spin_control::<M>(robot, cycle, output, Ok(output.tau_J))
                }
            },
            LoopPhase::ShapingTorques { cycle, torques: output } => {
                let shaped = match event {
                    LoopEvent::ShapedTorques(shaped) => shaped,
                    _ => unreached(),
                };
                setup.spin_control::<M>(
                    robot,
                    cycle,
                    output,
                    shaped,
                )
            },
            LoopPhase::Finishing { motion_id, finish } => {
                let event = match event {
                    LoopEvent::Performed(event) => event,
                    _ => unreached(),
                };
                let p = finish.resume(robot, event);
                setup.go_on_finishing::<M>(motion_id, p)
            },
        }
    }
}


// -- Starting -------------------------------------------------------------------------------

/// Begins to start a motion with the default deviations.
pub fn start_motion(
    robot: &mut RobotImpl,
    controller_mode: MoveControllerMode,
    motion_generator_mode: MoveMotionGeneratorMode,
) -> (r: Result<StartMotion, FrankaError>)
    requires
        old(robot).wf(),
    ensures
        final(robot).wf(),
        (final(robot)@, error::seen(r)) == old(robot)@.starting(
            controller_mode,
            motion_generator_mode,
            robot_impl::default_deviation_of(),
            robot_impl::default_deviation_of(),
        ),
        r matches Ok(start) ==> start.wf(),
{
    let deviation = default_deviation();
    robot.start_motion(controller_mode, motion_generator_mode, deviation, deviation)
}

impl LoopSetup {
    /// What a loop of a session is set up with.
    pub open spec fn of(
        version: FciVersion,
        has_motion: bool,
        has_control: bool,
        limit_rate: bool,
        cutoff_frequency: Double,
    ) -> LoopSetup {
        LoopSetup {
            has_motion,
            has_control,
            version,
            context: ConvertContext {
                rate: control_loop::limits_of(version),
                limit_rate,
                cutoff_frequency,
                initialized_filter: false,
                first_command_is_its_own_reference: version == FciVersion::V10,
            },
        }
    }

    /// What a loop of a session is set up with.
    fn new(
        version: FciVersion,
        has_motion: bool,
        has_control: bool,
        limit_rate: bool,
        cutoff_frequency: Double,
    ) -> (r: LoopSetup)
        ensures
            r == LoopSetup::of(version, has_motion, has_control, limit_rate, cutoff_frequency),
    {
        LoopSetup {
            has_motion,
            has_control,
            version,
            context: ConvertContext {
                rate: rate_limits(version),
                limit_rate,
                cutoff_frequency,
                initialized_filter: false,
                first_command_is_its_own_reference: version == FciVersion::V10,
            },
        }
    }

    /// How a loop begins: with the start of its motion, unless that is refused.
    pub open spec fn begun<M: ControlLoopMotion>(
        self,
        robot: RobotView,
        controller_mode: MoveControllerMode,
        motion_generator_mode: MoveMotionGeneratorMode,
    ) -> (RobotView, Result<ControlLoop<M>, ErrorView>) {
        match robot.starting(
            controller_mode,
            motion_generator_mode,
            robot_impl::default_deviation_of(),
            robot_impl::default_deviation_of(),
        ) {
            (after, Ok(start)) => (
                after,
                Ok(ControlLoop { setup: self, phase: LoopPhase::Starting { start } }),
            ),
            (after, Err(e)) => (after, Err(e)),
        }
    }

    /// Begins a loop.
    fn begin<M: ControlLoopMotion>(
        self,
        robot: &mut RobotImpl,
        controller_mode: MoveControllerMode,
        motion_generator_mode: MoveMotionGeneratorMode,
    ) -> (r: Result<ControlLoop<M>, FrankaError>)
        requires
            old(robot).wf(),
        ensures
            final(robot).wf(),
            (final(robot)@, error::seen(r)) == self.begun::<M>(
                old(robot)@,
                controller_mode,
                motion_generator_mode,
            ),
            r matches Ok(l) ==> l.wf(),
    {
        match start_motion(robot, controller_mode, motion_generator_mode) {
            Ok(start) => Ok(ControlLoop { setup: self, phase: LoopPhase::Starting { start } }),
            Err(e) => Err(e),
        }
    }
}

/// The controller that a `Move` asks for.
pub open spec fn controller_of(mode: ControllerMode) -> MoveControllerMode {
    match mode {
        ControllerMode::JointImpedance => MoveControllerMode::JointImpedance,
        ControllerMode::CartesianImpedance => MoveControllerMode::CartesianImpedance,
    }
}

impl<M: ControlLoopMotion> ControlLoop<M> {
    /// Begins a loop with an external controller and a motion generator.
    pub fn new_with_control_and_motion(
        robot: &mut RobotImpl,
        limit_rate: bool,
        cutoff_frequency: Double,
    ) -> (r: Result<ControlLoop<M>, FrankaError>)
        requires
            old(robot).wf(),
        ensures
            final(robot).wf(),
            (final(robot)@, error::seen(r)) == LoopSetup::of(
                old(robot)@.version,
                true,
                true,
                limit_rate,
                cutoff_frequency,
            ).begun::<M>(old(robot)@, MoveControllerMode::ExternalController, M::mode()),
            r matches Ok(l) ==> l.wf(),
    {
        let setup = LoopSetup::new(robot.version(), true, true, limit_rate, cutoff_frequency);
        setup.begin::<M>(robot, MoveControllerMode::ExternalController, M::move_mode())
    }

    /// Begins a loop with a motion generator and one of the robot's own controllers.
    pub fn new_with_motion(
        robot: &mut RobotImpl,
        controller_mode: ControllerMode,
        limit_rate: bool,
        cutoff_frequency: Double,
    ) -> (r: Result<ControlLoop<M>, FrankaError>)
        requires
            old(robot).wf(),
        ensures
            final(robot).wf(),
            (final(robot)@, error::seen(r)) == LoopSetup::of(
                old(robot)@.version,
                true,
                false,
                limit_rate,
                cutoff_frequency,
            ).begun::<M>(old(robot)@, controller_of(controller_mode), M::mode()),
            r matches Ok(l) ==> l.wf(),
    {
        let mode = match controller_mode {
            ControllerMode::JointImpedance => MoveControllerMode::JointImpedance,
            ControllerMode::CartesianImpedance => MoveControllerMode::CartesianImpedance,
        };
        let setup = LoopSetup::new(robot.version(), true, false, limit_rate, cutoff_frequency);
        setup.begin::<M>(robot, mode, M::move_mode())
    }

    /// Begins a loop with an external controller alone. Version 5 has no such motion, and
    /// [`control_torques`] does not ask it for one.
    pub fn new_with_control(
        robot: &mut RobotImpl,
        limit_rate: bool,
        cutoff_frequency: Double,
    ) -> (r: Result<ControlLoop<M>, FrankaError>)
        requires
            old(robot).wf(),
        ensures
            final(robot).wf(),
            (final(robot)@, error::seen(r)) == LoopSetup::of(
                old(robot)@.version,
                false,
                true,
                limit_rate,
                cutoff_frequency,
            ).begun::<M>(
                old(robot)@,
                MoveControllerMode::ExternalController,
                MoveMotionGeneratorMode::NoGenerator,
            ),
            r matches Ok(l) ==> l.wf(),
    {
        let setup = LoopSetup::new(robot.version(), false, true, limit_rate, cutoff_frequency);
        setup.begin::<M>(
            robot,
            MoveControllerMode::ExternalController,
            MoveMotionGeneratorMode::NoGenerator,
        )
    }
}

// -- Torques alone --------------------------------------------------------------------------

/// A loop with torques alone. Version 5 has no such motion, and runs a joint velocity generator
/// that commands zero alongside.
#[derive(Debug)]
pub enum TorqueLoop {
    /// With a joint velocity generator.
    Holding(ControlLoop<JointVelocities>),
    /// Without a motion generator.
    Bare(ControlLoop<JointPositions>),
}

/// Zero velocities.
pub open spec fn standstill() -> JointVelocities {
    JointVelocities { dq: robot_state::zeros(), motion_finished: false }
}

impl ControlLoop<JointVelocities> {
    /// How a loop goes on whose motion callback returns zero velocities.
    pub open spec fn next_holding(self, robot: RobotView, event: LoopEvent<JointVelocities, [Double; 7]>) -> (
        RobotView,
        LoopProgress<JointVelocities, ErrorView>,
    ) {
        match self.next(robot, event) {
            (after, Progress::Continue(l, LoopAction::CallMotion { .. })) => l.next(
                after,
                LoopEvent::Motion(standstill()),
            ),
            other => other,
        }
    }

    /// Goes on after an event; the motion callback returns zero velocities.
    pub fn resume_holding(
        self,
        robot: &mut RobotImpl,
        event: LoopEvent<JointVelocities, [Double; 7]>,
    ) -> (r: LoopProgress<JointVelocities, FrankaError>)
        requires
            self.wf(),
            self.awaiting().answered(event),
            old(robot).wf(),
        ensures
            final(robot).wf(),
            (final(robot)@, seen_loop(r)) == self.next_holding(old(robot)@, event),
            r matches Progress::Continue(next, action) ==> next.wf() && action == next.awaiting(),
    {
        match self.resume(robot, event) {
            Progress::Continue(l, LoopAction::CallMotion { .. }) => {
                let zero = Double { bits: 0 };
                l.resume(robot, LoopEvent::Motion(JointVelocities::new([zero; 7])))
            },
            other => other,
        }
    }
}

/// How a loop with torques alone begins.
pub open spec fn torques_begun(robot: RobotView, limit_rate: bool, cutoff_frequency: Double) -> (
    RobotView,
    Result<TorqueLoop, ErrorView>,
) {
    match robot.version {
        FciVersion::V5 => match LoopSetup::of(
            robot.version,
            true,
            true,
            limit_rate,
            cutoff_frequency,
        ).begun::<JointVelocities>(
            robot,
            MoveControllerMode::ExternalController,
            MoveMotionGeneratorMode::JointVelocity,
        ) {
            (after, Ok(l)) => (after, Ok(TorqueLoop::Holding(l))),
            (after, Err(e)) => (after, Err(e)),
        },
        FciVersion::V10 => match LoopSetup::of(
            robot.version,
            false,
            true,
            limit_rate,
            cutoff_frequency,
        ).begun::<JointPositions>(
            robot,
            MoveControllerMode::ExternalController,
            MoveMotionGeneratorMode::NoGenerator,
        ) {
            (after, Ok(l)) => (after, Ok(TorqueLoop::Bare(l))),
            (after, Err(e)) => (after, Err(e)),
        },
    }
}

/// Begins a loop with torques alone.
pub fn control_torques(robot: &mut RobotImpl, limit_rate: bool, cutoff_frequency: Double) -> (r:
    Result<TorqueLoop, FrankaError>)
    requires
        old(robot).wf(),
    ensures
        final(robot).wf(),
        (final(robot)@, error::seen(r)) == torques_begun(old(robot)@, limit_rate, cutoff_frequency),
        r matches Ok(TorqueLoop::Holding(l)) ==> l.wf(),
        r matches Ok(TorqueLoop::Bare(l)) ==> l.wf(),
{
    match robot.version() {
        FciVersion::V5 => match ControlLoop::<JointVelocities>::new_with_control_and_motion(
            robot,
            limit_rate,
            cutoff_frequency,
        ) {
            Ok(l) => Ok(TorqueLoop::Holding(l)),
            Err(e) => Err(e),
        },
        FciVersion::V10 => match ControlLoop::<JointPositions>::new_with_control(
            robot,
            limit_rate,
            cutoff_frequency,
        ) {
            Ok(l) => Ok(TorqueLoop::Bare(l)),
            Err(e) => Err(e),
        },
    }
}

// -- Laws -----------------------------------------------------------------------------------

/// A loop that ends other than well leaves its motion to be aborted, if the motion was on; one that
/// ends well leaves nothing to do.
pub proof fn law_failed_loop_aborts<M: ControlLoopMotion>(
    l: ControlLoop<M>,
    robot: RobotView,
    event: LoopEvent<M, M::Values>,
)
    requires
        l.next(robot, event).1 is Done,
    ensures
        ({
            let end = l.next(robot, event).1->Done_0;
            end.cancel == (if end.result is Ok {
                None
            } else {
                match l.motion_on() {
                    Some(motion_id) => Some(CancelMotion::Looking { motion_id }),
                    None => None,
                }
            })
        }),
{
}

/// A loop ends well only when the terminal status of its `Move` was success, or when the robot had
/// already left the motion as its last command was to be sent.
pub proof fn law_loop_ends_well_only_on_success<M: ControlLoopMotion>(
    l: ControlLoop<M>,
    robot: RobotView,
    event: LoopEvent<M, M::Values>,
)
    requires
        l.wf(),
        l.awaiting().answered(event),
        l.next(robot, event).1 is Done,
        l.next(robot, event).1->Done_0.result is Ok,
    ensures
        match l.phase {
            LoopPhase::Finishing { .. } => event matches LoopEvent::Performed(
                Event::MoveEnd { message, .. },
            ) && crate::robot::robot_impl::motion::move_status_in(robot.version, message@) == Ok::<
                crate::error::MoveStatus,
                ErrorView,
            >(crate::error::MoveStatus::Success),
            _ => !robot.state.running(),
        },
{
    if let LoopPhase::Finishing { finish, .. } = l.phase {
        if let FinishMotion::Repeating { update, .. } = finish {
            let _ = update.next(robot, event->Performed_0);
        }
    }
}

/// Under version 5 the motion callback has the first turn, under version 10 the control callback;
/// whichever is second is not called in the cycle in which the first one says that it is done.
pub proof fn law_order_of_the_callbacks<M: ControlLoopMotion>(
    setup: LoopSetup,
    robot: RobotView,
    cycle: Cycle,
)
    requires
        setup.has_motion,
        setup.has_control,
    ensures
        setup.version == FciVersion::V5 ==> {
            &&& setup.first_turn::<M>(cycle)->Continue_1 is CallMotion
            &&& setup.second_turn::<M>(cycle)->Continue_1 is CallControl
        },
        setup.version == FciVersion::V10 ==> {
            &&& setup.first_turn::<M>(cycle)->Continue_1 is CallControl
            &&& setup.second_turn::<M>(cycle)->Continue_1 is CallMotion
        },
        setup.turned::<M>(robot, cycle, true, true) == setup.finished::<M>(robot, cycle),
        setup.turned::<M>(robot, cycle, true, false) == (robot, setup.second_turn::<M>(cycle)),
{
}

/// The callbacks are handed the state that was received and the time since the one before it, none
/// for the first. They are not called for a state that shows the motion over: the end of the `Move`
/// is waited for then.
pub proof fn law_callbacks_get_the_received_state<M: ControlLoopMotion>(
    setup: LoopSetup,
    robot: RobotView,
    motion_id: u32,
    motion: Option<MotionGeneratorCommand>,
    control: Option<ControllerCommand>,
    previous: Option<Duration>,
    state: RobotState,
)
    requires
        setup.has_motion || setup.has_control,
    ensures
        ({
            let (after, p) = setup.received::<M>(robot, motion_id, motion, control, previous, state);
            let over = !(state.robot_mode is Move) || robot.state.motion_generator_mode
                != robot.state.current_move_motion_generator_mode || robot.state.controller_mode
                != robot.state.current_move_controller_mode;
            &&& after == robot
            &&& p matches Progress::Continue(next, action)
            &&& next.motion_on() == Some(motion_id)
            &&& over <==> action == LoopAction::<M::Values>::Perform(
                Action::AwaitMoveEnd { command_id: motion_id },
            )
            &&& over ==> (next.phase matches LoopPhase::Failing { check } && check.errors
                == state.last_motion_errors)
            &&& !over ==> {
                let period = Duration {
                    milliseconds: match previous {
                        Some(before) => if state.time.milliseconds > before.milliseconds {
                            (state.time.milliseconds - before.milliseconds) as u64
                        } else {
                            0
                        },
                        None => 0,
                    },
                };
                ||| action == LoopAction::<M::Values>::CallMotion { state, period } && setup.has_motion
                ||| action == LoopAction::<M::Values>::CallControl { state, period }
                    && setup.has_control
            }
        }),
{
}

/// A callback goes on from the commands of the turn before, or from zeros in the first turn; a half
/// without a callback is never commanded.
pub proof fn law_turn_goes_on_from_the_last<M: ControlLoopMotion>(
    setup: LoopSetup,
    motion: Option<MotionGeneratorCommand>,
    control: Option<ControllerCommand>,
)
    ensures
        setup.motion_or_blank(motion) is Some <==> setup.has_motion,
        setup.control_or_blank(control) is Some <==> setup.has_control,
        setup.has_motion && motion is Some ==> setup.motion_or_blank(motion) == motion,
        setup.has_control && control is Some ==> setup.control_or_blank(control) == control,
        setup.has_motion && motion is None ==> {
            let blank = setup.motion_or_blank(motion)->Some_0;
            &&& forall|i: int| 0 <= i < 7 ==> (#[trigger] blank.q_c[i]).bits == 0
            &&& forall|i: int| 0 <= i < 7 ==> (#[trigger] blank.dq_c[i]).bits == 0
            &&& forall|i: int| 0 <= i < 16 ==> (#[trigger] blank.O_T_EE_c[i]).bits == 0
            &&& forall|i: int| 0 <= i < 6 ==> (#[trigger] blank.O_dP_EE_c[i]).bits == 0
            &&& !blank.valid_elbow && !blank.motion_generation_finished
        },
        setup.has_control && control is None ==> {
            let blank = setup.control_or_blank(control)->Some_0;
            &&& forall|i: int| 0 <= i < 7 ==> (#[trigger] blank.tau_J_d[i]).bits == 0
            &&& !blank.torque_command_finished
        },
{
    robot_state::law_zeros::<7>();
    robot_state::law_zeros::<16>();
    robot_state::law_zeros::<6>();
}

/// A motion command that the callback did not mark as its last one goes on to the other callback or
/// into the next cycle, as it was written; one that was marked ends the motion with it, and no
/// callback is called for it any more. One that cannot be written fails the loop.
pub proof fn law_motion_command_of_the_turn<M: ControlLoopMotion>(
    setup: LoopSetup,
    robot: RobotView,
    cycle: Cycle,
    output: M,
    shaped: Shaped<M::Values>,
)
    requires
        cycle.motion is Some,
    ensures
        ({
            let (motion, written) = output.written(shaped, cycle.motion->Some_0);
            let (after, p) = setup.moved::<M>(robot, cycle, output, shaped);
            &&& written matches Err(e) ==> after == robot && (p matches Progress::Done(end)
                && end.result == Err::<(), ErrorView>(e) && end.cancel == Some(
                CancelMotion::Looking { motion_id: cycle.motion_id },
            ))
            &&& written is Ok && output.finished() ==> {
                &&& p matches Progress::Continue(next, action) ==> action is Perform && (
                next.phase matches LoopPhase::Finishing {
                    motion_id,
                    finish: FinishMotion::Repeating { motion: last, control, .. },
                } && motion_id == cycle.motion_id && control == cycle.control && last == Some(
                    MotionGeneratorCommand { motion_generation_finished: true, ..motion },
                ))
                &&& p is Continue <==> robot.state.running()
                &&& p matches Progress::Done(end) ==> end.result is Ok && end.cancel is None
            }
            &&& written is Ok && !output.finished() ==> {
                &&& after == robot
                &&& p matches Progress::Continue(next, action)
                &&& action is CallControl <==> setup.version is V5 && setup.has_control
                &&& action is CallControl || action == LoopAction::<M::Values>::Perform(
                    Action::CheckConnection,
                )
                &&& next.phase matches LoopPhase::Controlling { cycle: going } ==> going.motion
                    == Some(motion) && going.control == cycle.control && going.state == cycle.state
                    && going.period == cycle.period
                &&& next.phase matches LoopPhase::Updating {
                    motion: sent,
                    control,
                    previous,
                    update,
                    ..
                } ==> sent == Some(motion) && control == cycle.control && previous == Some(
                    cycle.state.time,
                ) && update == (MotionUpdate::Checking { motion: sent, control })
            }
        }),
{
}

/// Torques likewise.
pub proof fn law_torques_of_the_turn<M: ControlLoopMotion>(
    setup: LoopSetup,
    robot: RobotView,
    cycle: Cycle,
    output: Torques,
    shaped: Result<[Double; 7], FrankaError>,
)
    requires
        cycle.control is Some,
        setup.has_motion == cycle.motion is Some,
        setup.has_motion || setup.version is V10,
    ensures
        ({
            let (control, written) = torque::torques_written(shaped, cycle.control->Some_0);
            let (after, p) = setup.controlled::<M>(robot, cycle, output, shaped);
            &&& written matches Err(e) ==> after == robot && (p matches Progress::Done(end)
                && end.result == Err::<(), ErrorView>(e) && end.cancel == Some(
                CancelMotion::Looking { motion_id: cycle.motion_id },
            ))
            &&& written is Ok && output.motion_finished ==> {
                &&& p matches Progress::Continue(next, action) ==> action is Perform && (
                next.phase matches LoopPhase::Finishing {
                    motion_id,
                    finish: FinishMotion::Repeating { motion: last, control: given, .. },
                } && motion_id == cycle.motion_id && (given matches Some(given) && given.tau_J_d
                    == control.tau_J_d) && (last matches Some(last)
                    ==> last.motion_generation_finished) && last is Some == cycle.motion is Some)
            }
            &&& written is Ok && !output.motion_finished ==> {
                &&& after == robot
                &&& p matches Progress::Continue(next, action)
                &&& action is CallMotion <==> setup.version is V10 && setup.has_motion
                &&& action is CallMotion || action == LoopAction::<M::Values>::Perform(
                    Action::CheckConnection,
                )
                &&& next.phase matches LoopPhase::Moving { cycle: going } ==> going.control
                    == Some(control) && going.motion == cycle.motion && going.state == cycle.state
                    && going.period == cycle.period
                &&& next.phase matches LoopPhase::Updating {
                    motion: given,
                    control: sent,
                    previous,
                    update,
                    ..
                } ==> sent == Some(control) && given == cycle.motion && previous == Some(
                    cycle.state.time,
                ) && update == (MotionUpdate::Checking { motion: given, control: sent })
            }
        }),
{
}

/// What a motion callback returns is filtered and rate limited exactly when the cut-off or the loop
/// asks for it, and otherwise taken as it is; either way it counts as converted from then on. Nothing
/// else of the set-up changes.
pub proof fn law_motion_output_is_shaped<M: ControlLoopMotion>(
    setup: LoopSetup,
    robot: RobotView,
    cycle: Cycle,
    output: M,
)
    ensures
        ({
            let l = ControlLoop::<M> { setup, phase: LoopPhase::Moving { cycle } };
            let shaping = output.shaping(setup.context, cycle.state);
            let (after, p) = l.next(robot, LoopEvent::Motion(output));
            &&& shaping.filter || shaping.limit ==> {
                &&& after == robot
                &&& p matches Progress::Continue(next, action)
                &&& action == LoopAction::ShapeMotion { shaping }
                &&& next.phase matches LoopPhase::ShapingMotion { cycle: c, output: o, .. }
                &&& c == cycle && o == output
            }
            &&& !(shaping.filter || shaping.limit) ==> (p matches Progress::Continue(_, action) ==> !(
            action is ShapeMotion))
            &&& p matches Progress::Continue(next, _) ==> {
                &&& next.setup.context.initialized_filter == (setup.context.initialized_filter
                    || M::initializes())
                &&& next.setup.context.rate == setup.context.rate
                &&& next.setup.context.limit_rate == setup.context.limit_rate
                &&& next.setup.context.cutoff_frequency == setup.context.cutoff_frequency
                &&& next.setup.context.first_command_is_its_own_reference
                    == setup.context.first_command_is_its_own_reference
                &&& next.setup.version == setup.version
                &&& next.setup.has_motion == setup.has_motion
                &&& next.setup.has_control == setup.has_control
            }
        }),
{
}

/// What a control callback returns is filtered and rate limited exactly when the cut-off is a number
/// below 1000 Hz or the loop was asked to limit rates.
pub proof fn law_torque_output_is_shaped<M: ControlLoopMotion>(
    setup: LoopSetup,
    robot: RobotView,
    cycle: Cycle,
    output: Torques,
)
    ensures
        ({
            let l = ControlLoop::<M> { setup, phase: LoopPhase::Controlling { cycle } };
            let (after, p) = l.next(robot, LoopEvent::Control(output));
            let asked = crate::double::above(
                Double { bits: 0x408f_4000_0000_0000 },
                setup.context.cutoff_frequency,
            ) || setup.context.limit_rate;
            &&& asked ==> {
                &&& after == robot
                &&& p matches Progress::Continue(next, action)
                &&& action matches LoopAction::ShapeTorques { torques }
                &&& torques.values == output.tau_J
                &&& torques.reference == cycle.state.tau_J_d
                &&& next.setup == setup
            }
            &&& !asked ==> {
                &&& p matches Progress::Continue(_, action) ==> !(action is ShapeTorques)
                &&& (after, p) == (ControlLoop::<M> {
                    setup,
                    phase: LoopPhase::ShapingTorques { cycle, torques: output },
                }).next(robot, LoopEvent::ShapedTorques(Ok(output.tau_J)))
            }
        }),
{
    broadcast use crate::double::group_order;

}

/// A loop keeps its motion: while it goes on, the number of its `Move` and its set-up stay the same,
/// but for the note that a command has been converted.
pub proof fn law_loop_keeps_its_motion<M: ControlLoopMotion>(
    l: ControlLoop<M>,
    robot: RobotView,
    event: LoopEvent<M, M::Values>,
)
    requires
        l.motion_on() is Some,
    ensures
        l.next(robot, event).1 matches Progress::Continue(next, action) ==> {
            &&& next.motion_on() == l.motion_on()
            &&& next.setup.version == l.setup.version
            &&& next.setup.has_motion == l.setup.has_motion
            &&& next.setup.has_control == l.setup.has_control
            &&& next.setup.context == (ConvertContext {
                initialized_filter: next.setup.context.initialized_filter,
                ..l.setup.context
            })
            &&& l.setup.context.initialized_filter ==> next.setup.context.initialized_filter
        },
{
}

/// A loop receives a state before it commands anything; the number that its start ended with is that
/// of its motion, and a start that failed leaves nothing to abort.
pub proof fn law_loop_receives_first<M: ControlLoopMotion>(
    setup: LoopSetup,
    start: StartMotion,
    robot: RobotView,
    event: Event,
)
    ensures
        ({
            let l = ControlLoop::<M> { setup, phase: LoopPhase::Starting { start } };
            let (after, p) = l.next(robot, LoopEvent::Performed(event));
            &&& after == start.next(robot, event).0
            &&& start.next(robot, event).1 matches Progress::Done(Ok(motion_id)) ==> {
                &&& p matches Progress::Continue(next, _)
                &&& next.motion_on() == Some(motion_id)
                &&& next.phase matches LoopPhase::Updating { motion, control, previous, update, .. }
                &&& motion is None && control is None && previous is None
                &&& update == (MotionUpdate::Checking { motion: None, control: None })
            }
            &&& start.next(robot, event).1 matches Progress::Done(Err(e)) ==> (
            p matches Progress::Done(end) && end.result == Err::<(), ErrorView>(e)
                && end.cancel is None)
        }),
{
}

/// A loop is set up with the version of the session and what was asked for; its first command is its
/// own reference under version 10 alone, and counts as not converted yet.
pub proof fn law_loop_setup(
    version: FciVersion,
    has_motion: bool,
    has_control: bool,
    limit_rate: bool,
    cutoff_frequency: Double,
)
    ensures
        ({
            let setup = LoopSetup::of(version, has_motion, has_control, limit_rate, cutoff_frequency);
            &&& setup.version == version
            &&& setup.has_motion == has_motion && setup.has_control == has_control
            &&& setup.context.limit_rate == limit_rate
            &&& setup.context.cutoff_frequency == cutoff_frequency
            &&& !setup.context.initialized_filter
            &&& setup.context.first_command_is_its_own_reference <==> version is V10
            &&& setup.context.rate.torque_f32_margin <==> version is V10
        }),
{
}

/// A loop with torques alone asks for an external controller. Under version 10 it asks for no motion
/// generator and has no motion callback; version 5 knows no such motion, and gets a joint velocity
/// generator that is told to stand still.
pub proof fn law_torques_alone(robot: RobotView, limit_rate: bool, cutoff_frequency: Double)
    ensures
        ({
            let (after, r) = torques_begun(robot, limit_rate, cutoff_frequency);
            &&& r is Ok <==> !robot.state.running()
            &&& r is Err ==> after == robot
            &&& r is Ok ==> after.state.current_move_controller_mode is ExternalController
            &&& r is Ok ==> (after.state.current_move_motion_generator_mode is NoGenerator
                <==> robot.version is V10)
            &&& r is Ok ==> (after.state.current_move_motion_generator_mode is JointVelocity
                <==> robot.version is V5)
            &&& r matches Ok(TorqueLoop::Bare(l)) ==> robot.version is V10 && !l.setup.has_motion
                && l.setup.has_control
            &&& r matches Ok(TorqueLoop::Holding(l)) ==> robot.version is V5 && l.setup.has_motion
                && l.setup.has_control
        }),
        forall|i: int| 0 <= i < 7 ==> (#[trigger] standstill().dq[i]).bits == 0,
        !standstill().motion_finished,
{
    robot_state::law_zeros::<7>();
}

/// The action of a loop that goes on is the one that it awaits.
proof fn lemma_action_is_awaited<M: ControlLoopMotion>(
    l: ControlLoop<M>,
    robot: RobotView,
    event: LoopEvent<M, M::Values>,
)
    ensures
        l.next(robot, event).1 matches Progress::Continue(next, action) ==> action
            == next.awaiting(),
{
}

/// The motion callback is not called again right after it returned.
proof fn lemma_motion_is_called_once<M: ControlLoopMotion>(
    l: ControlLoop<M>,
    robot: RobotView,
    event: LoopEvent<M, M::Values>,
)
    requires
        l.phase is Moving,
    ensures
        l.next(robot, event).1 matches Progress::Continue(_, action) ==> !(action is CallMotion),
{
}

/// A held loop never calls a motion callback: it answers with standing still by itself.
pub proof fn law_held_loop_stands_still(
    l: ControlLoop<JointVelocities>,
    robot: RobotView,
    event: LoopEvent<JointVelocities, [Double; 7]>,
)
    ensures
        l.next_holding(robot, event).1 matches Progress::Continue(_, action) ==> !(
        action is CallMotion),
{
    lemma_action_is_awaited(l, robot, event);
    let (after, p) = l.next(robot, event);
    if let Progress::Continue(next, action) = p {
        if action is CallMotion {
            assert(next.phase is Moving);
            lemma_motion_is_called_once(next, after, LoopEvent::Motion(standstill()));
        }
    }
}

/// The robot's own controllers are asked for by their names.
pub proof fn law_own_controllers(mode: ControllerMode)
    ensures
        controller_of(mode) is JointImpedance <==> mode is JointImpedance,
        controller_of(mode) is CartesianImpedance <==> mode is CartesianImpedance,
        !(controller_of(mode) is ExternalController),
{
}

/// A loop is answered by what it asked for: the connection by its events, each callback by what it
/// returns, and each shaping by its result.
pub proof fn law_loop_answers<M: ControlLoopMotion>(
    action: LoopAction<M::Values>,
    event: LoopEvent<M, M::Values>,
)
    ensures
        event is Motion ==> (action.answered(event) <==> action is CallMotion),
        event is Control ==> (action.answered(event) <==> action is CallControl),
        event is ShapedMotion ==> (action.answered(event) <==> action is ShapeMotion),
        event is ShapedTorques ==> (action.answered(event) <==> action is ShapeTorques),
        event matches LoopEvent::Performed(e) ==> (action.answered(event) <==> (
        action matches LoopAction::Perform(wanted) && wanted.answered(e))),
{
}

} // verus!
