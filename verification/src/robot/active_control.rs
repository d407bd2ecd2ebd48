//! Control that the caller drives: read a state, write a command, instead of a callback loop.
//!
//! Neither rate limiting nor filtering is applied here; the caller sends smooth setpoints.
use crate::control_types;
use crate::control_types::{
    CartesianPose, CartesianVelocities, Finishable, JointPositions, JointVelocities, Torques,
};
use crate::double::Double;
use crate::duration;
use crate::duration::{time_since, Duration};
use crate::error;
use crate::error::{control_error, ErrorView, FrankaError};
use crate::robot::robot_impl::motion::{
    CancelMotion, CommandWrite, FinishMotion, FinishProgress, MotionErrorCheck,
};
use crate::robot::robot_impl::operation;
use crate::robot::robot_impl::operation::Operation;
use crate::robot::robot_impl::receive::StateReception;
use crate::robot::robot_impl::{RobotImpl, RobotView};
use crate::robot_state;
use crate::robot_state::RobotState;
use crate::step::{Action, Event, Progress};
use crate::wire::codec::{ControllerCommand, FciVersion, MotionGeneratorCommand};
use crate::wire::modes::MoveControllerMode;
use std::marker::PhantomData;
use vstd::prelude::*;

verus! {

/// Motion commands that can drive an [`ActiveMotionGenerator`].
pub trait ActiveMotionInput: Finishable {
    /// The setpoint of this command, or what is wrong with it.
    spec fn commanded(self) -> Result<MotionGeneratorCommand, ErrorView>;

    /// Checks the command and turns it into a setpoint.
    fn create_motion_command(&self) -> (r: Result<MotionGeneratorCommand, FrankaError>)
        ensures
            error::seen(r) == self.commanded(),
    ;
}

impl ActiveMotionInput for JointPositions {
    open spec fn commanded(self) -> Result<MotionGeneratorCommand, ErrorView> {
        match control_types::finite_fault(self.q@) {
            Some(e) => Err(e),
            None => Ok(MotionGeneratorCommand { q_c: self.q, ..MotionGeneratorCommand::blank() }),
        }
    }

    fn create_motion_command(&self) -> (r: Result<MotionGeneratorCommand, FrankaError>) {
        match self.validate() {
            Ok(()) => {
                let mut command = MotionGeneratorCommand::default();
                command.q_c = self.q;
                Ok(command)
            },
            Err(e) => Err(e),
        }
    }
}

impl ActiveMotionInput for JointVelocities {
    open spec fn commanded(self) -> Result<MotionGeneratorCommand, ErrorView> {
        match control_types::finite_fault(self.dq@) {
            Some(e) => Err(e),
            None => Ok(MotionGeneratorCommand { dq_c: self.dq, ..MotionGeneratorCommand::blank() }),
        }
    }

    fn create_motion_command(&self) -> (r: Result<MotionGeneratorCommand, FrankaError>) {
        match self.validate() {
            Ok(()) => {
                let mut command = MotionGeneratorCommand::default();
                command.dq_c = self.dq;
                Ok(command)
            },
            Err(e) => Err(e),
        }
    }
}

/// The elbow of a setpoint: zero when it is not commanded.
pub open spec fn commanded_elbow(has_elbow: bool, elbow: [Double; 2]) -> [Double; 2] {
    if has_elbow {
        elbow
    } else {
        robot_state::zeros()
    }
}

impl ActiveMotionInput for CartesianPose {
    open spec fn commanded(self) -> Result<MotionGeneratorCommand, ErrorView> {
        match self.fault() {
            Some(e) => Err(e),
            None => Ok(
                MotionGeneratorCommand {
                    O_T_EE_c: self.O_T_EE,
                    valid_elbow: self.has_elbow,
                    elbow_c: commanded_elbow(self.has_elbow, self.elbow),
                    ..MotionGeneratorCommand::blank()
                },
            ),
        }
    }

    fn create_motion_command(&self) -> (r: Result<MotionGeneratorCommand, FrankaError>) {
        match self.validate() {
            Ok(()) => {
                let mut command = MotionGeneratorCommand::default();
                command.O_T_EE_c = self.O_T_EE;
                command.valid_elbow = self.has_elbow;
                if self.has_elbow {
                    command.elbow_c = self.elbow;
                }
                Ok(command)
            },
            Err(e) => Err(e),
        }
    }
}

impl ActiveMotionInput for CartesianVelocities {
    open spec fn commanded(self) -> Result<MotionGeneratorCommand, ErrorView> {
        match self.fault() {
            Some(e) => Err(e),
            None => Ok(
                MotionGeneratorCommand {
                    O_dP_EE_c: self.O_dP_EE,
                    valid_elbow: self.has_elbow,
                    elbow_c: commanded_elbow(self.has_elbow, self.elbow),
                    ..MotionGeneratorCommand::blank()
                },
            ),
        }
    }

    fn create_motion_command(&self) -> (r: Result<MotionGeneratorCommand, FrankaError>) {
        match self.validate() {
            Ok(()) => {
                let mut command = MotionGeneratorCommand::default();
                command.O_dP_EE_c = self.O_dP_EE;
                command.valid_elbow = self.has_elbow;
                if self.has_elbow {
                    command.elbow_c = self.elbow;
                }
                Ok(command)
            },
            Err(e) => Err(e),
        }
    }
}

/// The command of torques, or what is wrong with them.
pub open spec fn controlled(torques: Torques) -> Result<ControllerCommand, ErrorView> {
    match control_types::finite_fault(torques.tau_J@) {
        Some(e) => Err(e),
        None => Ok(ControllerCommand { tau_J_d: torques.tau_J, torque_command_finished: false }),
    }
}

/// Checks torques and turns them into a command.
pub fn create_controller_command(control_input: &Torques) -> (r: Result<
    ControllerCommand,
    FrankaError,
>)
    ensures
        error::seen(r) == controlled(*control_input),
{
    match control_input.validate() {
        Ok(()) => Ok(
            ControllerCommand { tau_J_d: control_input.tau_J, torque_command_finished: false },
        ),
        Err(e) => Err(e),
    }
}

/// The right to run the one control or read operation of a robot.
#[derive(Debug)]
pub struct ControlLock {
    pub(crate) token: (),
}

// -- Reading --------------------------------------------------------------------------------

/// Waiting for the next state of a running motion.
#[derive(Debug)]
pub enum ActiveRead {
    /// The state is to be received.
    Receiving { motion_id: u32, reception: StateReception },
    /// The state shows that the motion is over.
    Checking { check: MotionErrorCheck },
}

impl Operation for ActiveRead {
    type Output = RobotState;

    /// Its parts are in order.
    open spec fn wf(self) -> bool {
        self matches ActiveRead::Receiving { reception, .. } ==> reception.wf()
    }

    /// What is wanted next.
    open spec fn awaiting(self) -> Action {
        match self {
            ActiveRead::Receiving { reception, .. } => reception.awaiting(),
            ActiveRead::Checking { check } => check.awaiting(),
        }
    }

    /// What is wanted next.
    fn action(&self) -> (a: Action) {
        match self {
            ActiveRead::Receiving { reception, .. } => reception.action(),
            ActiveRead::Checking { check } => check.action(),
        }
    }

    /// It ends with the state, or with the reason why the motion is over.
    open spec fn next(self, robot: RobotView, event: Event) -> (
        RobotView,
        Progress<ActiveRead, Action, Result<RobotState, ErrorView>>,
    ) {
        match self {
            ActiveRead::Receiving { motion_id, reception } => match reception.next(robot, event) {
                (after, Progress::Continue(reception, action)) => (
                    after,
                    Progress::Continue(ActiveRead::Receiving { motion_id, reception }, action),
                ),
                (after, Progress::Done(Err(e))) => (after, Progress::Done(Err(e))),
                (after, Progress::Done(Ok(state))) => if after.failing(state) {
                    let check = MotionErrorCheck { motion_id, errors: state.last_motion_errors };
                    (after, Progress::Continue(ActiveRead::Checking { check }, check.awaiting()))
                } else {
                    (after, Progress::Done(Ok(state)))
                },
            },
            ActiveRead::Checking { check } => match check.next(robot, event) {
                (after, Progress::Done(Err(e))) => (after, Progress::Done(Err(e))),
                (after, _) => (after, Progress::Continue(self, self.awaiting())),
            },
        }
    }

    /// Goes on after an event.
    fn resume(self, robot: &mut RobotImpl, event: Event) -> (r: Progress<
        ActiveRead,
        Action,
        Result<RobotState, FrankaError>,
    >) {
        match self {
            ActiveRead::Receiving { motion_id, reception } => match reception.resume(robot, event) {
                Progress::Continue(reception, action) => Progress::Continue(
                    ActiveRead::Receiving { motion_id, reception },
                    action,
                ),
                Progress::Done(Err(e)) => Progress::Done(Err(e)),
                Progress::Done(Ok(state)) => match robot.throw_on_motion_error(&state, motion_id) {
                    Some(check) => Progress::Continue(
                        ActiveRead::Checking { check },
                        Action::AwaitMoveEnd { command_id: motion_id },
                    ),
                    None => Progress::Done(Ok(state)),
                },
            },
            ActiveRead::Checking { check } => match check.resume(robot, event) {
                Progress::Continue(check, action) => Progress::Continue(
                    ActiveRead::Checking { check },
                    action,
                ),
                Progress::Done(Err(e)) => Progress::Done(Err(e)),
                Progress::Done(Ok(())) => vstd::pervasive::unreached(),
            },
        }
    }
}

// -- Writing --------------------------------------------------------------------------------

/// Sending one command of a running motion.
#[derive(Clone, Copy, PartialEq, Debug)]
pub enum ActiveWrite {
    /// The connection is to be checked.
    Checking { motion: Option<MotionGeneratorCommand>, control: Option<ControllerCommand> },
    /// The command is to be sent.
    Sending { write: CommandWrite },
}

impl Operation for ActiveWrite {
    type Output = ();

    /// Nothing is asked of its parts.
    open spec fn wf(self) -> bool {
        true
    }

    /// What is wanted next.
    open spec fn awaiting(self) -> Action {
        match self {
            ActiveWrite::Checking { .. } => Action::CheckConnection,
            ActiveWrite::Sending { write } => write.awaiting(),
        }
    }

    /// What is wanted next.
    fn action(&self) -> (a: Action) {
        match self {
            ActiveWrite::Checking { .. } => Action::CheckConnection,
            ActiveWrite::Sending { write } => write.action(),
        }
    }

    /// It ends when the command is sent.
    open spec fn next(self, robot: RobotView, event: Event) -> (
        RobotView,
        Progress<ActiveWrite, Action, Result<(), ErrorView>>,
    ) {
        match event {
            Event::Failed(e) => (robot, Progress::Done(Err(e@))),
            _ => match self {
                ActiveWrite::Checking { motion, control } => match robot.writing(motion, control) {
                    Ok(write) => (
                        robot,
                        Progress::Continue(ActiveWrite::Sending { write }, write.awaiting()),
                    ),
                    Err(e) => (robot, Progress::Done(Err(e))),
                },
                ActiveWrite::Sending { .. } => (robot, Progress::Done(Ok(()))),
            },
        }
    }

    /// Goes on after an event.
    fn resume(self, robot: &mut RobotImpl, event: Event) -> (r: Progress<
        ActiveWrite,
        Action,
        Result<(), FrankaError>,
    >) {
        if let Event::Failed(e) = event {
            return Progress::Done(Err(e));
        }
        match self {
            ActiveWrite::Checking { motion, control } => match robot.send_robot_command(
                motion,
                control,
            ) {
                Ok(data) => Progress::Continue(
                    ActiveWrite::Sending { write: CommandWrite { data } },
                    Action::SendCommand { data },
                ),
                Err(e) => Progress::Done(Err(e)),
            },
            ActiveWrite::Sending { .. } => Progress::Done(Ok(())),
        }
    }
}

/// How a write begins: with a command, or with the end of the motion.
#[derive(Debug)]
pub enum Writing<E> {
    /// One more command.
    Plain(ActiveWrite),
    /// The last command; what comes of it goes to `apply_finish`.
    Final(FinishProgress<E>),
}

/// How a write begins, in terms of views.
pub open spec fn seen_writing(r: Result<Writing<FrankaError>, FrankaError>) -> Result<
    Writing<ErrorView>,
    ErrorView,
> {
    match r {
        Ok(Writing::Plain(write)) => Ok(Writing::Plain(write)),
        Ok(Writing::Final(p)) => Ok(Writing::Final(operation::seen(p))),
        Err(e) => Err(e@),
    }
}

// -- Both kinds -----------------------------------------------------------------------------

/// What both kinds of active control keep.
#[derive(Debug)]
pub struct ActiveControl {
    motion_id: u32,
    lock: Option<ControlLock>,
    control_finished: bool,
    last_read_access: Option<Duration>,
}

/// An [`ActiveControl`] as its callers see it.
pub struct ActiveControlView {
    /// Number of the `Move`.
    pub motion_id: u32,
    /// Whether it holds the control lock.
    pub locked: bool,
    /// Whether the motion has ended regularly.
    pub control_finished: bool,
    /// Time of the last state that was read.
    pub last_read_access: Option<Duration>,
}

impl ActiveControlView {
    /// The control of a motion that has just started.
    pub open spec fn started(motion_id: u32) -> ActiveControlView {
        ActiveControlView {
            motion_id,
            locked: true,
            control_finished: false,
            last_read_access: None,
        }
    }

    /// After an end of the motion that went well or failed.
    pub open spec fn applied(self, ended_well: bool) -> ActiveControlView {
        ActiveControlView {
            control_finished: self.control_finished || ended_well,
            locked: false,
            ..self
        }
    }

    /// What giving up the control takes.
    pub open spec fn closing(self) -> Option<CancelMotion> {
        if self.control_finished {
            None
        } else {
            Some(CancelMotion::Looking { motion_id: self.motion_id })
        }
    }

    /// What is wrong with a write.
    pub open spec fn open_fault(self) -> Option<ErrorView> {
        if self.control_finished {
            Some(
                error::bare_control(
                    "writeOnce must not be called after the motion has finished."@,
                ),
            )
        } else {
            None
        }
    }
}

impl View for ActiveControl {
    type V = ActiveControlView;

    closed spec fn view(&self) -> ActiveControlView {
        ActiveControlView {
            motion_id: self.motion_id,
            locked: self.lock is Some,
            control_finished: self.control_finished,
            last_read_access: self.last_read_access,
        }
    }
}

impl ActiveControl {
    /// The control of a motion that has started.
    pub fn new(motion_id: u32, lock: ControlLock) -> (r: ActiveControl)
        ensures
            r@ == ActiveControlView::started(motion_id),
    {
        ActiveControl {
            motion_id,
            lock: Some(lock),
            control_finished: false,
            last_read_access: None,
        }
    }

    /// Begins to wait for the next state.
    pub fn read_once(&self, robot: &RobotImpl) -> (r: ActiveRead)
        ensures
            r == (ActiveRead::Receiving {
                motion_id: self@.motion_id,
                reception: StateReception::begun(robot@.state.message_id),
            }),
            r.wf(),
    {
        ActiveRead::Receiving { motion_id: self.motion_id, reception: robot.read_once() }
    }

    /// Takes note of the state that was read, and says how long ago the one before it was; zero on
    /// the first read.
    pub fn apply_read(&mut self, result: Result<RobotState, FrankaError>) -> (r: Result<
        (RobotState, Duration),
        FrankaError,
    >)
        ensures
            match result {
                Ok(state) => {
                    &&& r == Ok::<(RobotState, Duration), FrankaError>(
                        (state, duration::elapsed(old(self)@.last_read_access, state.time)),
                    )
                    &&& final(self)@ == (ActiveControlView {
                        last_read_access: Some(state.time),
                        ..old(self)@
                    })
                },
                Err(e) => r == Err::<(RobotState, Duration), FrankaError>(e) && final(self)@ == old(
                    self,
                )@,
            },
            r is Ok <==> result is Ok,
            r matches Ok((state, since)) ==> (match old(self)@.last_read_access {
                Some(before) => if before.milliseconds <= state.time.milliseconds {
                    before.milliseconds + since.milliseconds == state.time.milliseconds
                } else {
                    since.milliseconds == 0
                },
                None => since.milliseconds == 0,
            }),
            final(self)@.locked == old(self)@.locked,
            final(self)@.control_finished == old(self)@.control_finished,
    {
        match result {
            Ok(state) => {
                let time_since_last_read = time_since(self.last_read_access, state.time);
                self.last_read_access = Some(state.time);
                Ok((state, time_since_last_read))
            },
            Err(e) => Err(e),
        }
    }

    /// Marks the control as finished and hands back the control lock.
    pub fn finish(&mut self) -> (lock: Option<ControlLock>)
        ensures
            final(self)@ == (ActiveControlView { control_finished: true, locked: false, ..old(self)@
            }),
            lock is Some == old(self)@.locked,
    {
        self.control_finished = true;
        self.lock.take()
    }

    /// Hands back the control lock without marking the control as finished, so that closing it
    /// still aborts the motion.
    pub fn release_lock(&mut self) -> (lock: Option<ControlLock>)
        ensures
            final(self)@ == (ActiveControlView { locked: false, ..old(self)@ }),
            lock is Some == old(self)@.locked,
    {
        self.lock.take()
    }

    /// Takes note of how the end of the motion went. On success the control is over; on failure the
    /// motion counts as running, and closing the control aborts it. Either way the control lock is
    /// handed back.
    pub fn apply_finish(&mut self, result: Result<(), FrankaError>) -> (r: (
        Option<ControlLock>,
        Result<(), FrankaError>,
    ))
        ensures
            r.1 == result,
            r.0 is Some == old(self)@.locked,
            final(self)@ == old(self)@.applied(result is Ok),
    {
        let lock = if result.is_ok() {
            self.finish()
        } else {
            self.release_lock()
        };
        (lock, result)
    }

    /// Fails once the control is finished.
    pub fn check_not_finished(&self) -> (r: Result<(), FrankaError>)
        ensures
            error::seen(r) == control_types::verdict(self@.open_fault()),
    {
        if self.control_finished {
            return Err(
                control_error("writeOnce must not be called after the motion has finished."),
            );
        }
        Ok(())
    }

    /// Gives up the control: a motion that is not finished is to be aborted, and the control lock
    /// goes back.
    pub fn close(self) -> (r: (Option<CancelMotion>, Option<ControlLock>))
        ensures
            r.0 == self@.closing(),
            r.1 is Some == self@.locked,
    {
        let cancel = if self.control_finished {
            None
        } else {
            Some(CancelMotion::Looking { motion_id: self.motion_id })
        };
        (cancel, self.lock)
    }
}

/// An external torque controller that the caller drives.
///
/// Version 5 has no torque-only motion: there a joint velocity generator runs alongside, every
/// write sends zero velocities with the torques, and the motion ends with the finished flag of the
/// motion generator.
#[derive(Debug)]
pub struct ActiveTorqueControl {
    /// What both kinds of active control keep.
    pub inner: ActiveControl,
}

impl ActiveTorqueControl {
    /// The control of a motion that has started.
    pub fn new(motion_id: u32, lock: ControlLock) -> (r: ActiveTorqueControl)
        ensures
            r.inner@ == ActiveControlView::started(motion_id),
    {
        ActiveTorqueControl { inner: ActiveControl::new(motion_id, lock) }
    }

    /// Begins to wait for the next state; its result goes to `apply_read`.
    pub fn read_once(&self, robot: &RobotImpl) -> (r: ActiveRead)
        ensures
            r == (ActiveRead::Receiving {
                motion_id: self.inner@.motion_id,
                reception: StateReception::begun(robot@.state.message_id),
            }),
            r.wf(),
    {
        self.inner.read_once(robot)
    }

    /// How a write of torques begins.
    pub open spec fn wrote(self, robot: RobotView, control_input: Torques) -> (
        RobotView,
        Result<Writing<ErrorView>, ErrorView>,
    ) {
        let motion = match robot.version {
            FciVersion::V5 => Some(MotionGeneratorCommand::blank()),
            FciVersion::V10 => None,
        };
        match self.inner@.open_fault() {
            Some(e) => (robot, Err(e)),
            None => match controlled(control_input) {
                Err(e) => (robot, Err(e)),
                Ok(control) => if control_input.motion_finished {
                    let (after, p) = robot.finishing(self.inner@.motion_id, motion, Some(control));
                    (after, Ok(Writing::Final(p)))
                } else {
                    (
                        robot,
                        Ok(
                            Writing::Plain(
                                ActiveWrite::Checking { motion, control: Some(control) },
                            ),
                        ),
                    )
                },
            },
        }
    }

    /// Begins to send torques. Torques that are marked as the last ones end the motion.
    pub fn write_once(&self, robot: &mut RobotImpl, control_input: &Torques) -> (r: Result<
        Writing<FrankaError>,
        FrankaError,
    >)
        requires
            old(robot).wf(),
        ensures
            final(robot).wf(),
            (final(robot)@, seen_writing(r)) == self.wrote(old(robot)@, *control_input),
            r matches Ok(Writing::Final(Progress::Continue(next, action))) ==> next.wf() && action
                == next.awaiting(),
    {
        match self.inner.check_not_finished() {
            Ok(()) => {},
            Err(e) => {
                return Err(e);
            },
        }
        let control = match create_controller_command(control_input) {
            Ok(control) => control,
            Err(e) => {
                return Err(e);
            },
        };
        if control_input.is_finished() {
            return Ok(Writing::Final(robot.finish_torque_only(self.inner.motion_id, &control)));
        }
        let motion = match robot.version() {
            FciVersion::V5 => Some(MotionGeneratorCommand::default()),
            FciVersion::V10 => None,
        };
        Ok(Writing::Plain(ActiveWrite::Checking { motion, control: Some(control) }))
    }
}

/// A motion generator that the caller drives.
#[derive(Debug)]
pub struct ActiveMotionGenerator<T: ActiveMotionInput> {
    /// What both kinds of active control keep.
    pub inner: ActiveControl,
    /// The controller that the motion runs with.
    pub controller_type: MoveControllerMode,
    /// The kind of setpoint.
    pub marker: PhantomData<T>,
}

impl<T: ActiveMotionInput> ActiveMotionGenerator<T> {
    /// The control of a motion that has started.
    pub fn new(motion_id: u32, lock: ControlLock, controller_type: MoveControllerMode) -> (r:
        ActiveMotionGenerator<T>)
        ensures
            r.inner@ == ActiveControlView::started(motion_id),
            r.controller_type == controller_type,
    {
        ActiveMotionGenerator {
            inner: ActiveControl::new(motion_id, lock),
            controller_type,
            marker: PhantomData,
        }
    }

    /// Begins to wait for the next state; its result goes to `apply_read`.
    pub fn read_once(&self, robot: &RobotImpl) -> (r: ActiveRead)
        ensures
            r == (ActiveRead::Receiving {
                motion_id: self.inner@.motion_id,
                reception: StateReception::begun(robot@.state.message_id),
            }),
            r.wf(),
    {
        self.inner.read_once(robot)
    }

    /// What is wrong with giving these torques, or none, to a controller: an external one needs
    /// them and no other takes them.
    pub open spec fn torque_fault(controller_type: MoveControllerMode, given: bool) -> Option<
        ErrorView,
    > {
        let external = controller_type == MoveControllerMode::ExternalController;
        if given && !external {
            Some(
                error::bare_control("Torques can only be commanded in kExternalController mode."@),
            )
        } else if !given && external {
            Some(
                error::bare_control(
                    "Torque command missing, please use writeOnce(const MotionGeneratorType& motion_generator_input, const Torques& control_input) for external controllers."@,
                ),
            )
        } else {
            None
        }
    }

    /// The commands of a write, or what is wrong with them.
    pub open spec fn commands(motion_input: T, control_input: Option<Torques>) -> Result<
        (MotionGeneratorCommand, Option<ControllerCommand>),
        ErrorView,
    > {
        match motion_input.commanded() {
            Err(e) => Err(e),
            Ok(motion) => match control_input {
                None => Ok((motion, None)),
                Some(torques) => match controlled(torques) {
                    Err(e) => Err(e),
                    Ok(control) => Ok((motion, Some(control))),
                },
            },
        }
    }

    /// How a write begins.
    pub open spec fn wrote(
        self,
        robot: RobotView,
        motion_input: T,
        control_input: Option<Torques>,
    ) -> (RobotView, Result<Writing<ErrorView>, ErrorView>) {
        match control_types::either_fault(
            self.inner@.open_fault(),
            Self::torque_fault(self.controller_type, control_input is Some),
        ) {
            Some(e) => (robot, Err(e)),
            None => match Self::commands(motion_input, control_input) {
                Err(e) => (robot, Err(e)),
                Ok((motion, control)) => {
                    let last = motion_input.finished() || (control_input matches Some(torques)
                        && torques.motion_finished);
                    if last {
                        let (after, p) = robot.finishing(
                            self.inner@.motion_id,
                            Some(motion),
                            control,
                        );
                        (after, Ok(Writing::Final(p)))
                    } else {
                        (
                            robot,
                            Ok(
                                Writing::Plain(
                                    ActiveWrite::Checking { motion: Some(motion), control },
                                ),
                            ),
                        )
                    }
                },
            },
        }
    }

    /// Begins to send a setpoint, and torques where the motion runs with an external controller.
    /// Either of them marked as the last one ends the motion.
    pub fn write_once(
        &self,
        robot: &mut RobotImpl,
        motion_input: &T,
        control_input: Option<&Torques>,
    ) -> (r: Result<Writing<FrankaError>, FrankaError>)
        requires
            old(robot).wf(),
        ensures
            final(robot).wf(),
            (final(robot)@, seen_writing(r)) == self.wrote(
                old(robot)@,
                *motion_input,
                match control_input {
                    Some(torques) => Some(*torques),
                    None => None,
                },
            ),
            r matches Ok(Writing::Final(Progress::Continue(next, action))) ==> next.wf() && action
                == next.awaiting(),
    {
        match self.inner.check_not_finished() {
            Ok(()) => {},
            Err(e) => {
                return Err(e);
            },
        }
        let external = self.controller_type == MoveControllerMode::ExternalController;
        if control_input.is_some() && !external {
            return Err(control_error("Torques can only be commanded in kExternalController mode."));
        }
        if control_input.is_none() && external {
            return Err(
                control_error(
                    "Torque command missing, please use writeOnce(const MotionGeneratorType& motion_generator_input, const Torques& control_input) for external controllers.",
                ),
            );
        }
        let torque_finished = match control_input {
            Some(torques) => torques.is_finished(),
            None => false,
        };
        let motion = match motion_input.create_motion_command() {
            Ok(motion) => motion,
            Err(e) => {
                return Err(e);
            },
        };
        let control = match control_input {
            None => None,
            Some(torques) => match create_controller_command(torques) {
                Ok(control) => Some(control),
                Err(e) => {
                    return Err(e);
                },
            },
        };
        if motion_input.is_finished() || torque_finished {
            return Ok(
                Writing::Final(robot.finish_motion(self.inner.motion_id, Some(motion), control)),
            );
        }
        Ok(Writing::Plain(ActiveWrite::Checking { motion: Some(motion), control }))
    }
}

/// Only a good end closes a control. After a failed one, writes are not refused for being late and
/// giving up the control aborts the motion; after a good one, writes are refused and nothing is
/// aborted. The control lock is handed back either way.
pub proof fn law_only_a_good_end_closes(control: ActiveControlView, ended_well: bool)
    requires
        !control.control_finished,
    ensures
        control.applied(ended_well).closing() == (if ended_well {
            None
        } else {
            Some(CancelMotion::Looking { motion_id: control.motion_id })
        }),
        control.applied(ended_well).open_fault() is Some == ended_well,
        !control.applied(ended_well).locked,
{
}

/// What goes out for a motion command is what was commanded, with nothing else set: every field that
/// the command does not speak of is zero and the motion is not marked as over. It goes out exactly
/// when it can be sent.
pub proof fn law_motion_inputs_are_commanded(
    positions: JointPositions,
    velocities: JointVelocities,
    pose: CartesianPose,
    twists: CartesianVelocities,
)
    ensures
        positions.commanded() is Ok <==> control_types::all_finite(positions.q@),
        velocities.commanded() is Ok <==> control_types::all_finite(velocities.dq@),
        pose.commanded() is Ok <==> pose.fault() is None,
        twists.commanded() is Ok <==> twists.fault() is None,
        positions.commanded() matches Ok(c) ==> c.q_c == positions.q && c == (
        MotionGeneratorCommand { q_c: c.q_c, ..MotionGeneratorCommand::blank() }),
        velocities.commanded() matches Ok(c) ==> c.dq_c == velocities.dq && c == (
        MotionGeneratorCommand { dq_c: c.dq_c, ..MotionGeneratorCommand::blank() }),
        pose.commanded() matches Ok(c) ==> {
            &&& c.O_T_EE_c == pose.O_T_EE
            &&& c.valid_elbow == pose.has_elbow
            &&& pose.has_elbow ==> c.elbow_c == pose.elbow
            &&& !pose.has_elbow ==> c.elbow_c[0].bits == 0 && c.elbow_c[1].bits == 0
            &&& c == (MotionGeneratorCommand {
                O_T_EE_c: c.O_T_EE_c,
                valid_elbow: c.valid_elbow,
                elbow_c: c.elbow_c,
                ..MotionGeneratorCommand::blank()
            })
        },
        twists.commanded() matches Ok(c) ==> {
            &&& c.O_dP_EE_c == twists.O_dP_EE
            &&& c.valid_elbow == twists.has_elbow
            &&& twists.has_elbow ==> c.elbow_c == twists.elbow
            &&& !twists.has_elbow ==> c.elbow_c[0].bits == 0 && c.elbow_c[1].bits == 0
            &&& c == (MotionGeneratorCommand {
                O_dP_EE_c: c.O_dP_EE_c,
                valid_elbow: c.valid_elbow,
                elbow_c: c.elbow_c,
                ..MotionGeneratorCommand::blank()
            })
        },
{
    robot_state::law_zeros::<2>();
}

/// What goes out for torques is what was commanded, exactly when all of it is finite; it does not
/// end the motion.
pub proof fn law_torque_inputs_are_commanded(torques: Torques)
    ensures
        controlled(torques) is Ok <==> control_types::all_finite(torques.tau_J@),
        controlled(torques) matches Ok(c) ==> c.tau_J_d == torques.tau_J
            && !c.torque_command_finished,
        controlled(torques) matches Err(e) ==> e is InvalidArgument,
{
}

/// Torques are taken exactly where an external controller runs: there they must be given, and
/// nowhere else may they be.
pub proof fn law_torques_go_to_an_external_controller<T: ActiveMotionInput>(
    controller_type: MoveControllerMode,
    given: bool,
)
    ensures
        ActiveMotionGenerator::<T>::torque_fault(controller_type, given) is None <==> (given
            <==> controller_type is ExternalController),
        ActiveMotionGenerator::<T>::torque_fault(controller_type, given) matches Some(e) ==> e
            is Control,
{
}

/// A write to a control that is over is refused, and so is one that cannot be sent; neither changes
/// the session. Torques that are not marked as the last ones are sent as they are, under version 5
/// with a motion command that is all zero and under version 10 alone; the last ones end the motion.
pub proof fn law_torques_are_sent(
    control: ActiveTorqueControl,
    robot: RobotView,
    torques: Torques,
)
    ensures
        ({
            let (after, r) = control.wrote(robot, torques);
            &&& r is Ok <==> !control.inner@.control_finished && control_types::all_finite(
                torques.tau_J@,
            )
            &&& r is Err ==> after == robot
            &&& control.inner@.control_finished ==> (r matches Err(e) && e is Control)
            &&& r matches Ok(writing) ==> (writing is Final <==> torques.motion_finished)
            &&& r matches Ok(Writing::Plain(write)) ==> {
                &&& after == robot
                &&& write matches ActiveWrite::Checking { motion, control: Some(sent) }
                &&& sent.tau_J_d == torques.tau_J
                &&& motion is Some <==> robot.version is V5
                &&& motion matches Some(motion) ==> motion == MotionGeneratorCommand::blank()
            }
            &&& r matches Ok(Writing::Final(p)) ==> (p is Continue <==> robot.state.running())
            &&& r matches Ok(Writing::Final(Progress::Continue(FinishMotion::Repeating {
                motion_id,
                motion,
                control: Some(sent),
                ..
            }, _))) ==> {
                &&& motion_id == control.inner@.motion_id
                &&& sent.tau_J_d == torques.tau_J
                &&& motion is Some <==> robot.version is V5
                &&& motion matches Some(last) ==> last.motion_generation_finished
                &&& motion is None ==> sent.torque_command_finished
            }
        }),
{
}

/// A write of a setpoint, and of torques beside it, likewise; either of them marked as the last one
/// ends the motion.
pub proof fn law_setpoints_are_sent<T: ActiveMotionInput>(
    control: ActiveMotionGenerator<T>,
    robot: RobotView,
    input: T,
    torques: Option<Torques>,
)
    ensures
        ({
            let (after, r) = control.wrote(robot, input, torques);
            &&& r is Ok <==> {
                &&& !control.inner@.control_finished
                &&& torques is Some <==> control.controller_type is ExternalController
                &&& input.commanded() is Ok
                &&& torques matches Some(t) ==> control_types::all_finite(t.tau_J@)
            }
            &&& r is Err ==> after == robot
            &&& control.inner@.control_finished ==> (r matches Err(e) && e is Control)
            &&& r matches Ok(writing) ==> (writing is Final <==> input.finished() || (torques matches Some(
                t,
            ) && t.motion_finished))
            &&& r matches Ok(Writing::Plain(write)) ==> {
                &&& after == robot
                &&& write matches ActiveWrite::Checking { motion: Some(sent), control: also }
                &&& Ok::<MotionGeneratorCommand, ErrorView>(sent) == input.commanded()
                &&& also is Some <==> torques is Some
                &&& also matches Some(also) ==> also.tau_J_d == torques->Some_0.tau_J
            }
            &&& r matches Ok(Writing::Final(p)) ==> (p is Continue <==> robot.state.running())
            &&& r matches Ok(Writing::Final(Progress::Continue(FinishMotion::Repeating {
                motion_id,
                motion: Some(last),
                control: also,
                ..
            }, _))) ==> {
                &&& motion_id == control.inner@.motion_id
                &&& last.motion_generation_finished
                &&& Ok::<MotionGeneratorCommand, ErrorView>(
                    MotionGeneratorCommand {
                        motion_generation_finished: input.commanded()->Ok_0.motion_generation_finished,
                        ..last
                    },
                ) == input.commanded()
                &&& also is Some <==> torques is Some
            }
        }),
{
}

/// A read hands out the state that was received, unless it shows the motion over: then the end of the
/// `Move` is waited for, and the read never ends well.
pub proof fn law_read_of_a_motion_that_is_over(
    motion_id: u32,
    reception: StateReception,
    robot: RobotView,
    event: Event,
    state: RobotState,
)
    requires
        reception.next(robot, event).1 == (Progress::Done::<
            StateReception,
            Action,
            Result<RobotState, ErrorView>,
        >(Ok(state))),
    ensures
        ({
            let (after, p) = (ActiveRead::Receiving { motion_id, reception }).next(robot, event);
            let over = !(state.robot_mode is Move) || after.state.motion_generator_mode
                != after.state.current_move_motion_generator_mode || after.state.controller_mode
                != after.state.current_move_controller_mode;
            &&& after == reception.next(robot, event).0
            &&& over ==> (p matches Progress::Continue(ActiveRead::Checking { check }, action)
                && check.motion_id == motion_id && check.errors == state.last_motion_errors && action
                == (Action::AwaitMoveEnd { command_id: motion_id }))
            &&& !over ==> p == (Progress::Done::<ActiveRead, Action, Result<RobotState, ErrorView>>(
                Ok(state),
            ))
        }),
        forall|check: MotionErrorCheck|
            !((#[trigger] (ActiveRead::Checking { check }).next(robot, event)).1 matches Progress::Done(
                Ok(_),
            )),
{
}

/// A write checks the connection first, then sends what was composed, and ends well when that is
/// sent.
pub proof fn law_write_sends_what_was_composed(
    robot: RobotView,
    motion: Option<MotionGeneratorCommand>,
    control: Option<ControllerCommand>,
)
    ensures
        (ActiveWrite::Checking { motion, control }).awaiting() is CheckConnection,
        ({
            let (after, p) = (ActiveWrite::Checking { motion, control }).next(
                robot,
                Event::Connected,
            );
            &&& after == robot
            &&& robot.state.composed(motion, control) matches Ok(data) ==> (
            p matches Progress::Continue(next, action) && action == (Action::SendCommand { data })
                && next.next(robot, Event::CommandSent) == (robot, Progress::Done::<
                ActiveWrite,
                Action,
                Result<(), ErrorView>,
            >(Ok(()))))
            &&& robot.state.composed(motion, control) matches Err(e) ==> p == (Progress::Done::<
                ActiveWrite,
                Action,
                Result<(), ErrorView>,
            >(Err(e)))
        }),
{
}

/// A control that has started holds the lock, takes writes, and aborts its motion when it is given
/// up; it has read nothing yet.
pub proof fn law_started_control(motion_id: u32)
    ensures
        ({
            let control = ActiveControlView::started(motion_id);
            &&& control.motion_id == motion_id
            &&& control.locked
            &&& control.open_fault() is None
            &&& control.closing() == Some(CancelMotion::Looking { motion_id })
            &&& control.last_read_access is None
        }),
{
}

} // verus!
