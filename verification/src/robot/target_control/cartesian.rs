//! The Cartesian interface of target control: a pose target in the base frame, streamed to the
//! robot's own controller with the rate limiter as the backstop. The mailbox holds the position and
//! a unit quaternion `[x, y, z, w]`; one synchronised six-axis generator runs on the position and
//! on the base-frame rotation vector of the orientation error.
use crate::control_types::CartesianPose;
use crate::double::Double;
use crate::otg::OtgLimits;
use crate::robot::target_control::runner;
use crate::robot::target_control::runner::{
    Generated, Phase, Runner, RunnerAction, RunnerCycle, RunnerEvent, Step,
};
use crate::robot::target_control::Settle;
use crate::robot_state;
use crate::step::Progress;
use crate::double;
use vstd::prelude::*;

verus! {

/// A target without its orientation and its orientation.
pub open spec fn parts(slot: [Double; 7]) -> ([Double; 3], [Double; 4]) {
    ([slot[0], slot[1], slot[2]], [slot[3], slot[4], slot[5], slot[6]])
}

/// A position and an orientation as a target.
pub open spec fn whole(position: [Double; 3], orientation: [Double; 4]) -> [Double; 7] {
    [
        position[0],
        position[1],
        position[2],
        orientation[0],
        orientation[1],
        orientation[2],
        orientation[3],
    ]
}

/// A position and an orientation as a target.
pub fn join(position: &[Double; 3], orientation: &[Double; 4]) -> (slot: [Double; 7])
    ensures
        slot == whole(*position, *orientation),
{
    [
        position[0],
        position[1],
        position[2],
        orientation[0],
        orientation[1],
        orientation[2],
        orientation[3],
    ]
}

/// The position and the orientation of a target.
pub fn split(slot: &[Double; 7]) -> (r: ([Double; 3], [Double; 4]))
    ensures
        r == parts(*slot),
{
    ([slot[0], slot[1], slot[2]], [slot[3], slot[4], slot[5], slot[6]])
}

/// A target is its position and its orientation: splitting undoes joining, and joining undoes
/// splitting.
pub proof fn law_split_undoes_join(
    slot: [Double; 7],
    position: [Double; 3],
    orientation: [Double; 4],
)
    ensures
        parts(whole(position, orientation)).0@ == position@,
        parts(whole(position, orientation)).1@ == orientation@,
        whole(parts(slot).0, parts(slot).1)@ == slot@,
{
    assert(parts(whole(position, orientation)).0@ =~= position@);
    assert(parts(whole(position, orientation)).1@ =~= orientation@);
    assert(whole(parts(slot).0, parts(slot).1)@ =~= slot@);
}

/// The target with another position; the orientation stays what it is.
pub fn set_position(target: &[Double; 7], position: &[Double; 3]) -> (r: [Double; 7])
    ensures
        r == whole(*position, parts(*target).1),
{
    join(position, &split(target).1)
}

/// The target with another orientation; the position stays what it is.
pub fn set_orientation(target: &[Double; 7], orientation: &[Double; 4]) -> (r: [Double; 7])
    ensures
        r == whole(parts(*target).0, *orientation),
{
    join(&split(target).0, orientation)
}

/// The generator's coordinates of a command: its position, and no turn away from its orientation.
pub open spec fn anchor_of(slot: [Double; 7]) -> [Double; 6] {
    let zero = Double { bits: 0 };
    [slot[0], slot[1], slot[2], zero, zero, zero]
}

/// The generator's coordinates of a command: its position, and no turn away from its orientation.
pub fn anchor(slot: &[Double; 7]) -> (r: [Double; 6])
    ensures
        r == anchor_of(*slot),
{
    let zero = Double { bits: 0 };
    [slot[0], slot[1], slot[2], zero, zero, zero]
}

/// The limits of the six generator axes: three translational ones, three rotational ones.
pub fn axis_limits(translational: OtgLimits, rotational: OtgLimits) -> (r: [OtgLimits; 6])
    ensures
        forall|i: int|
            0 <= i < 6 ==> #[trigger] r@[i] == if i < 3 {
                translational
            } else {
                rotational
            },
{
    [translational, translational, translational, rotational, rotational, rotational]
}

/// What one cycle sent, for the observer.
#[derive(Clone, Copy, PartialEq, Debug)]
pub struct CartesianSent {
    /// The pose that went to the robot, after the backstop; column-major.
    pub pose: [Double; 16],
    /// The orientation of `pose` as a unit quaternion, `[x, y, z, w]`.
    pub orientation: [Double; 4],
    /// The target position the generator was planning towards, base frame, m.
    pub target: [Double; 3],
    /// The target orientation the generator was planning towards, `[x, y, z, w]`.
    pub target_orientation: [Double; 4],
    /// The generator's velocity at the end of the cycle, m/s.
    pub velocity: [Double; 3],
    /// The generator's acceleration at the end of the cycle, m/s^2.
    pub acceleration: [Double; 3],
    /// The generator's angular velocity at the end of the cycle, base frame, rad/s.
    pub angular_velocity: [Double; 3],
    /// The generator's angular acceleration at the end of the cycle, base frame, rad/s^2.
    pub angular_acceleration: [Double; 3],
    /// How far the backstop moved the generator's position, m.
    pub backstop_alteration: Double,
    /// How far the backstop turned the generator's orientation, rad.
    pub backstop_angular_alteration: Double,
    /// The joint target of the impedance law, rad.
    pub q_goal: [Double; 7],
    /// The torques sent, Nm.
    pub tau: [Double; 7],
    /// The residual of the inverse kinematics toward `pose`.
    pub ik_error: Double,
    /// How far, m, the leash pulled the generator's anchor back.
    pub leash_alteration: Double,
    /// The same for the orientation, rad.
    pub leash_angular_alteration: Double,
}

/// The record of a step with `pose` as sent, whose orientation is `orientation`; the backend's own
/// fields are zero.
pub open spec fn recorded(step: Step<6, 7>, pose: [Double; 16], orientation: [Double; 4]) -> CartesianSent {
    let v = step.velocity;
    let a = step.acceleration;
    CartesianSent {
        pose,
        orientation,
        target: parts(step.target).0,
        target_orientation: parts(step.target).1,
        velocity: [v[0], v[1], v[2]],
        acceleration: [a[0], a[1], a[2]],
        angular_velocity: [v[3], v[4], v[5]],
        angular_acceleration: [a[3], a[4], a[5]],
        backstop_alteration: Double { bits: 0 },
        backstop_angular_alteration: Double { bits: 0 },
        q_goal: robot_state::zeros(),
        tau: robot_state::zeros(),
        ik_error: Double { bits: 0 },
        leash_alteration: Double { bits: 0 },
        leash_angular_alteration: Double { bits: 0 },
    }
}

/// The record of a step with `pose` as sent, whose orientation is `orientation`; the backend's own
/// fields are zero.
pub fn sent(step: &Step<6, 7>, pose: [Double; 16], orientation: [Double; 4]) -> (record: CartesianSent)
    ensures
        record == recorded(*step, pose, orientation),
{
    let v = step.velocity;
    let a = step.acceleration;
    let (target, target_orientation) = split(&step.target);
    CartesianSent {
        pose,
        orientation,
        target,
        target_orientation,
        velocity: [v[0], v[1], v[2]],
        acceleration: [a[0], a[1], a[2]],
        angular_velocity: [v[3], v[4], v[5]],
        angular_acceleration: [a[3], a[4], a[5]],
        backstop_alteration: Double { bits: 0 },
        backstop_angular_alteration: Double { bits: 0 },
        q_goal: [Double { bits: 0 }; 7],
        tau: [Double { bits: 0 }; 7],
        ik_error: Double { bits: 0 },
        leash_alteration: Double { bits: 0 },
        leash_angular_alteration: Double { bits: 0 },
    }
}

/// A position and a rotation, column-major.
#[derive(Clone, Copy, PartialEq, Debug)]
pub struct Placement {
    pub position: [Double; 3],
    pub rotation: [Double; 9],
}

/// The state of a pose stream.
#[derive(Clone, Copy, PartialEq, Debug)]
pub struct PoseLoop {
    pub runner: Runner<6, 7>,
    /// The placement commanded in the first cycle.
    pub start: Option<Placement>,
    /// The command that a stop holds.
    pub held: Option<[Double; 16]>,
    pub max_deviation: Double,
    pub max_angular_deviation: Double,
    pub limit_rate: bool,
}

/// What a cycle of the stream wants.
#[derive(Clone, Copy, PartialEq, Debug)]
pub enum PoseAction {
    /// How far the measured pose is from the start, in m and in rad; answered by
    /// [`PoseEvent::Measured`].
    Measure { start: Placement },
    /// What the runner wants; answered by [`PoseEvent::Ran`].
    Run(RunnerAction<7>),
    /// The pose of a step: its position, and its rotational step composed onto the echo's rotation;
    /// answered by [`PoseEvent::Composed`].
    Compose { position: [Double; 6], echo: Placement },
    /// The rate limiter on a pose; answered by [`PoseEvent::Limited`].
    Limit { pose: [Double; 16] },
}

/// What came of an action.
#[derive(Clone, Copy, PartialEq, Debug)]
pub enum PoseEvent {
    Measured { distance: Double, angle: Double },
    Ran(RunnerEvent<6, 7>),
    Composed([Double; 16]),
    /// The limited pose; `None` where the limiter failed, which it does only on numbers that are
    /// not finite.
    Limited(Option<[Double; 16]>),
}

/// Which answer a cycle waits for.
#[derive(Clone, Copy, PartialEq, Debug)]
pub enum PoseStage {
    Measuring,
    Running { cycle: RunnerCycle<6, 7> },
    Composing { step: Step<6, 7> },
    Limiting { step: Step<6, 7>, pose: [Double; 16] },
}

/// The robot's echo of the last command.
#[derive(Clone, Copy, PartialEq, Debug)]
pub struct Echo {
    /// As the robot reports it, column-major.
    pub pose: [Double; 16],
    /// Its translation and its rotation, orthonormalised.
    pub placement: Placement,
    /// The words of a target that stands there.
    pub slot: [Double; 7],
}

/// A cycle of the stream that waits for an answer.
#[derive(Clone, Copy, PartialEq, Debug)]
pub struct PoseCycle {
    pub control: PoseLoop,
    pub echo: Echo,
    /// Whether a stop was asked for.
    pub stop: bool,
    pub stage: PoseStage,
}

/// What a cycle of the stream ends with.
#[derive(Clone, Copy, PartialEq, Debug)]
pub struct PoseOutput {
    /// The pose to send.
    pub pose: [Double; 16],
    pub step: Step<6, 7>,
    /// The generator's pose, where the backstop was put on it.
    pub limited_from: Option<[Double; 16]>,
}

impl PoseOutput {
    /// The command of the cycle, where `homogeneous` is whether the pose is a homogeneous
    /// transformation: the pose, no elbow, finished where the step is.
    pub open spec fn commanded(self, homogeneous: bool) -> CartesianPose {
        CartesianPose {
            O_T_EE: self.pose,
            homogeneous,
            elbow: robot_state::zeros(),
            has_elbow: false,
            motion_finished: self.step.finished,
        }
    }

    /// The record of the cycle for the observer, where `orientation` is that of the pose, and
    /// `moved` and `turned` are how far the backstop moved and turned it from `limited_from`; both
    /// zero where it was not put on the pose.
    pub open spec fn observed(
        self,
        orientation: [Double; 4],
        moved: Double,
        turned: Double,
    ) -> CartesianSent {
        let limited = self.limited_from is Some;
        CartesianSent {
            backstop_alteration: if limited {
                moved
            } else {
                Double { bits: 0 }
            },
            backstop_angular_alteration: if limited {
                turned
            } else {
                Double { bits: 0 }
            },
            ..recorded(self.step, self.pose, orientation)
        }
    }

    /// The command of the cycle, where `homogeneous` is whether the pose is a homogeneous
    /// transformation.
    pub fn command(&self, homogeneous: bool) -> (command: CartesianPose)
        ensures
            command == self.commanded(homogeneous),
            command.O_T_EE == self.pose,
            command.motion_finished == self.step.finished,
    {
        let mut command = CartesianPose::new(self.pose, homogeneous);
        command.motion_finished = self.step.finished;
        command
    }

    /// The record of the cycle for the observer, where `orientation` is that of the pose, and
    /// `moved` and `turned` are how far the backstop moved and turned it from `limited_from`.
    pub fn record(&self, orientation: [Double; 4], moved: Double, turned: Double) -> (record:
        CartesianSent)
        ensures
            record == self.observed(orientation, moved, turned),
            record.pose == self.pose,
    {
        let mut record = sent(&self.step, self.pose, orientation);
        if self.limited_from.is_some() {
            record.backstop_alteration = moved;
            record.backstop_angular_alteration = turned;
        }
        record
    }
}

/// Whether the measured pose is further from the start than either guard allows.
pub open spec fn astray(distance: Double, angle: Double, max_deviation: Double, max_angular: Double) -> bool {
    max_deviation.lt(distance) || max_angular.lt(angle)
}

/// Whether the measured pose is further from the start than either guard allows.
pub fn strayed(distance: Double, angle: Double, max_deviation: Double, max_angular: Double) -> (b: bool)
    ensures
        b == astray(distance, angle, max_deviation, max_angular),
{
    max_deviation.less(distance) || max_angular.less(angle)
}

impl PoseLoop {
    /// A stream that has not run.
    pub fn new(settle: Settle, max_deviation: Double, max_angular_deviation: Double, limit_rate: bool) -> (r:
        PoseLoop)
        ensures
            r == (PoseLoop {
                runner: Runner::<6, 7>::fresh(settle),
                start: None,
                held: None,
                max_deviation,
                max_angular_deviation,
                limit_rate,
            }),
            r.wf(),
    {
        PoseLoop {
            runner: Runner::new(settle),
            start: None,
            held: None,
            max_deviation,
            max_angular_deviation,
            limit_rate,
        }
    }

    /// A cycle about to measure how far the arm has strayed. The first one takes the echo as the
    /// start.
    pub open spec fn begun(self, echo: Echo, stop: bool) -> PoseCycle {
        let start = match self.start {
            Some(start) => start,
            None => echo.placement,
        };
        PoseCycle {
            control: PoseLoop { start: Some(start), ..self },
            echo,
            stop,
            stage: PoseStage::Measuring,
        }
    }

    /// Begins a cycle with the robot's echo of the last command and whether a stop was asked for.
    pub fn cycle(self, echo: Echo, stop: bool) -> (r: PoseCycle)
        ensures
            r == self.begun(echo, stop),
            r.wf(),
    {
        let start = match self.start {
            Some(start) => start,
            None => echo.placement,
        };
        let mut control = self;
        control.start = Some(start);
        PoseCycle { control, echo, stop, stage: PoseStage::Measuring }
    }
}

impl PoseCycle {
    /// Whether the start is known.
    pub open spec fn wf(self) -> bool {
        self.control.start is Some
    }

    /// What the cycle waits for.
    pub open spec fn awaiting(self) -> PoseAction {
        match self.stage {
            PoseStage::Measuring => PoseAction::Measure { start: self.control.start->0 },
            PoseStage::Running { cycle } => PoseAction::Run(cycle.awaiting()),
            PoseStage::Composing { step } => PoseAction::Compose {
                position: step.position,
                echo: self.echo.placement,
            },
            PoseStage::Limiting { pose, .. } => PoseAction::Limit { pose },
        }
    }

    /// What the cycle waits for.
    pub fn action(&self) -> (action: PoseAction)
        requires
            self.wf(),
        ensures
            action == self.awaiting(),
    {
        match self.stage {
            PoseStage::Measuring => {
                let start = match self.control.start {
                    Some(start) => start,
                    None => self.echo.placement,
                };
                PoseAction::Measure { start }
            },
            PoseStage::Running { cycle } => PoseAction::Run(cycle.action()),
            PoseStage::Composing { step } => PoseAction::Compose {
                position: step.position,
                echo: self.echo.placement,
            },
            PoseStage::Limiting { pose, .. } => PoseAction::Limit { pose },
        }
    }

    /// Whether an event is an answer to what the cycle waits for.
    pub open spec fn answered(self, event: PoseEvent) -> bool {
        match self.stage {
            PoseStage::Measuring => event is Measured,
            PoseStage::Running { cycle } => event matches PoseEvent::Ran(event) && cycle.answered(event),
            PoseStage::Composing { .. } => event is Composed,
            PoseStage::Limiting { .. } => event is Limited,
        }
    }

    /// Whether an event is an answer to what the cycle waits for.
    pub fn answered_by(&self, event: &PoseEvent) -> (b: bool)
        ensures
            b == self.answered(*event),
    {
        match self.stage {
            PoseStage::Measuring => matches!(event, PoseEvent::Measured { .. }),
            PoseStage::Running { cycle } => match event {
                PoseEvent::Ran(event) => cycle.answered_by(event),
                _ => false,
            },
            PoseStage::Composing { .. } => matches!(event, PoseEvent::Composed(_)),
            PoseStage::Limiting { .. } => matches!(event, PoseEvent::Limited(_)),
        }
    }

    /// Where the cycle stands once the runner does. While a stop holds, the robot's echo of the
    /// last command before the hold goes out, bit for bit, for the whole hold.
    pub open spec fn ran(
        self,
        progress: Progress<RunnerCycle<6, 7>, RunnerAction<7>, (Runner<6, 7>, Step<6, 7>)>,
    ) -> Progress<PoseCycle, PoseAction, (PoseLoop, PoseOutput)> {
        match progress {
            Progress::Continue(cycle, _) => {
                let next = PoseCycle { stage: PoseStage::Running { cycle }, ..self };
                Progress::Continue(next, next.awaiting())
            },
            Progress::Done((runner, step)) => {
                if step.hold {
                    let pose = match self.control.held {
                        Some(pose) => pose,
                        None => self.echo.pose,
                    };
                    Progress::Done(
                        (
                            PoseLoop { runner, held: Some(pose), ..self.control },
                            PoseOutput { pose, step, limited_from: None },
                        ),
                    )
                } else {
                    let next = PoseCycle {
                        control: PoseLoop { runner, ..self.control },
                        stage: PoseStage::Composing { step },
                        ..self
                    };
                    Progress::Continue(next, next.awaiting())
                }
            },
        }
    }

    /// Where the cycle stands after an event.
    pub open spec fn next(self, event: PoseEvent) -> Progress<
        PoseCycle,
        PoseAction,
        (PoseLoop, PoseOutput),
    > {
        match (self.stage, event) {
            (PoseStage::Measuring, PoseEvent::Measured { distance, angle }) => self.ran(
                self.control.runner.begun(
                    self.echo.slot,
                    anchor_of(self.echo.slot),
                    astray(
                        distance,
                        angle,
                        self.control.max_deviation,
                        self.control.max_angular_deviation,
                    ),
                    self.stop,
                ),
            ),
            (PoseStage::Running { cycle }, PoseEvent::Ran(event)) => self.ran(cycle.next(event)),
            (PoseStage::Composing { step }, PoseEvent::Composed(pose)) => {
                if self.control.limit_rate {
                    let next = PoseCycle { stage: PoseStage::Limiting { step, pose }, ..self };
                    Progress::Continue(next, next.awaiting())
                } else {
                    Progress::Done((self.control, PoseOutput { pose, step, limited_from: None }))
                }
            },
            (PoseStage::Limiting { step, pose }, PoseEvent::Limited(limited)) => {
                let safe = match limited {
                    Some(limited) => limited,
                    None => self.echo.pose,
                };
                Progress::Done(
                    (self.control, PoseOutput { pose: safe, step, limited_from: Some(pose) }),
                )
            },
            _ => Progress::Continue(self, self.awaiting()),
        }
    }

    /// Goes on once the runner has.
    fn run(
        self,
        progress: Progress<RunnerCycle<6, 7>, RunnerAction<7>, (Runner<6, 7>, Step<6, 7>)>,
    ) -> (r: Progress<PoseCycle, PoseAction, (PoseLoop, PoseOutput)>)
        requires
            self.wf(),
        ensures
            r == self.ran(progress),
    {
        let mut next = self;
        match progress {
            Progress::Continue(cycle, _) => {
                next.stage = PoseStage::Running { cycle };
            },
            Progress::Done((runner, step)) => {
                next.control.runner = runner;
                if step.hold {
                    let pose = match self.control.held {
                        Some(pose) => pose,
                        None => self.echo.pose,
                    };
                    next.control.held = Some(pose);
                    return Progress::Done(
                        (next.control, PoseOutput { pose, step, limited_from: None }),
                    );
                }
                next.stage = PoseStage::Composing { step };
            },
        }
        Progress::Continue(next, next.action())
    }

    /// Goes on with the answer to what the cycle waits for.
    pub fn resume(self, event: PoseEvent) -> (r: Progress<PoseCycle, PoseAction, (PoseLoop, PoseOutput)>)
        requires
            self.wf(),
            self.answered(event),
        ensures
            r == self.next(event),
            r matches Progress::Continue(cycle, _) ==> cycle.wf(),
    {
        match self.stage {
            PoseStage::Measuring => match event {
                PoseEvent::Measured { distance, angle } => {
                    let astray = strayed(
                        distance,
                        angle,
                        self.control.max_deviation,
                        self.control.max_angular_deviation,
                    );
                    let slot = self.echo.slot;
                    self.run(self.control.runner.cycle(slot, anchor(&slot), astray, self.stop))
                },
                _ => vstd::pervasive::unreached(),
            },
            PoseStage::Running { cycle } => match event {
                PoseEvent::Ran(event) => self.run(cycle.resume(event)),
                _ => vstd::pervasive::unreached(),
            },
            PoseStage::Composing { step } => match event {
                PoseEvent::Composed(pose) => {
                    if self.control.limit_rate {
                        let mut next = self;
                        next.stage = PoseStage::Limiting { step, pose };
                        Progress::Continue(next, next.action())
                    } else {
                        Progress::Done((self.control, PoseOutput { pose, step, limited_from: None }))
                    }
                },
                _ => vstd::pervasive::unreached(),
            },
            PoseStage::Limiting { step, pose } => match event {
                PoseEvent::Limited(limited) => {
                    let safe = match limited {
                        Some(limited) => limited,
                        None => self.echo.pose,
                    };
                    Progress::Done(
                        (self.control, PoseOutput { pose: safe, step, limited_from: Some(pose) }),
                    )
                },
                _ => vstd::pervasive::unreached(),
            },
        }
    }
}

/// The whole hold is one pose: the echo that was held first goes out in every cycle of it, bit for
/// bit and past the backstop, whatever the robot echoes meanwhile.
pub proof fn law_hold_is_one_pose(cycle: PoseCycle, runner: Runner<6, 7>, step: Step<6, 7>)
    requires
        step.hold,
    ensures
        cycle.ran(Progress::Done((runner, step))) matches Progress::Done((control, output))
            && control.held == Some(output.pose) && output.limited_from is None && (
        cycle.control.held matches Some(held) ==> output.pose == held) && (cycle.control.held is None
            ==> output.pose == cycle.echo.pose),
{
}

/// What a stream meets in one cycle.
pub struct PoseEncounter {
    /// The robot's echo of the last command.
    pub echo: Echo,
    /// Whether a stop was asked for.
    pub stop: bool,
    /// How far the measured pose is from the start, in m and in rad.
    pub distance: Double,
    pub angle: Double,
    /// The target that the mailbox gave, where it gave one. A stop waits until it does.
    pub loaded: Option<[Double; 7]>,
    /// What the generator said.
    pub generated: Generated<6>,
    /// The pose of the generator's step.
    pub composed: [Double; 16],
    /// What the limiter made of the pose.
    pub limited: Option<[Double; 16]>,
}

impl PoseEncounter {
    /// Whether the cycle can end with what it meets.
    pub open spec fn complete(self) -> bool {
        self.stop ==> self.loaded is Some
    }
}

impl PoseLoop {
    /// Whether a command is held where the runner holds.
    pub open spec fn wf(self) -> bool {
        self.held is Some <==> self.runner.hold is Some
    }

    /// What a whole cycle ends with.
    pub open spec fn outcome(self, e: PoseEncounter) -> Option<(PoseLoop, PoseOutput)> {
        let measured = self.begun(e.echo, e.stop).next(
            PoseEvent::Measured { distance: e.distance, angle: e.angle },
        );
        let ready = match measured {
            Progress::Continue(cycle, _) => match cycle.stage {
                PoseStage::Running { cycle: run } => match run.phase {
                    Phase::Anchoring => cycle.next(PoseEvent::Ran(RunnerEvent::Anchored)),
                    Phase::Loading => cycle.next(PoseEvent::Ran(RunnerEvent::Loaded(e.loaded))),
                    Phase::Generating => measured,
                },
                _ => measured,
            },
            Progress::Done(_) => measured,
        };
        let generated = match ready {
            Progress::Continue(cycle, _) => cycle.next(
                PoseEvent::Ran(RunnerEvent::Generated(e.generated)),
            ),
            Progress::Done(_) => ready,
        };
        let composed = match generated {
            Progress::Continue(cycle, _) => cycle.next(PoseEvent::Composed(e.composed)),
            Progress::Done(_) => generated,
        };
        let limited = match composed {
            Progress::Continue(cycle, _) => cycle.next(PoseEvent::Limited(e.limited)),
            Progress::Done(_) => composed,
        };
        match limited {
            Progress::Done(end) => Some(end),
            Progress::Continue(_, _) => None,
        }
    }

    /// The stream after many cycles.
    pub open spec fn after(self, encounters: Seq<PoseEncounter>) -> PoseLoop
        decreases encounters.len(),
    {
        if encounters.len() == 0 {
            self
        } else {
            let before = self.after(encounters.drop_last());
            match before.outcome(encounters.last()) {
                Some((control, _)) => control,
                None => before,
            }
        }
    }

    /// What the cycle number `k` of many sends.
    pub open spec fn output(self, encounters: Seq<PoseEncounter>, k: int) -> Option<PoseOutput> {
        match self.after(encounters.take(k)).outcome(encounters[k]) {
            Some((_, output)) => Some(output),
            None => None,
        }
    }
}

/// What one cycle of a stream comes to.
proof fn lemma_outcome(control: PoseLoop, e: PoseEncounter)
    requires
        control.wf(),
        e.complete(),
    ensures
        control.outcome(e) matches Some((after, output)) && {
            &&& after.wf()
            &&& after.runner.settle == control.runner.settle
            &&& after.limit_rate == control.limit_rate
            &&& !control.limit_rate ==> output.limited_from is None
            &&& match (control.runner.hold, after.runner.hold) {
                (Some(before), Some(hold)) => after.held == control.held && hold.sent
                    == runner::counted(before.sent) && Some(output.pose) == control.held
                    && output.limited_from is None && output.step.finished == (hold.sent
                    > control.runner.settle.cycles),
                (Some(_), None) => false,
                (None, Some(hold)) => after.held == Some(e.echo.pose) && hold.sent == 1
                    && output.pose == e.echo.pose && output.limited_from is None
                    && !output.step.finished,
                (None, None) => !output.step.finished,
            }
        },
{
}

/// The settings of a stream stay.
proof fn lemma_settings_stay(control: PoseLoop, encounters: Seq<PoseEncounter>)
    requires
        control.wf(),
        forall|k: int| 0 <= k < encounters.len() ==> (#[trigger] encounters[k]).complete(),
    ensures
        control.after(encounters).wf(),
        control.after(encounters).runner.settle == control.runner.settle,
        control.after(encounters).limit_rate == control.limit_rate,
    decreases encounters.len(),
{
    if encounters.len() > 0 {
        let earlier = encounters.drop_last();
        assert forall|k: int| 0 <= k < earlier.len() implies (#[trigger] earlier[k]).complete() by {
            assert(encounters[k].complete());
        }
        lemma_settings_stay(control, earlier);
        assert(encounters.last().complete());
        lemma_outcome(control.after(earlier), encounters.last());
    }
}

/// How far a hold has come.
proof fn lemma_hold_progresses(control: PoseLoop, encounters: Seq<PoseEncounter>, first: int)
    requires
        control.wf(),
        forall|k: int| 0 <= k < encounters.len() ==> (#[trigger] encounters[k]).complete(),
        0 <= first < encounters.len(),
        control.after(encounters.take(first)).runner.hold is None,
        control.after(encounters.take(first + 1)).runner.hold is Some,
    ensures
        control.after(encounters).held == Some(encounters[first].echo.pose),
        control.after(encounters).runner.hold matches Some(hold) && hold.sent
            == runner::held_cycles(encounters.len() - first),
    decreases encounters.len(),
{
    let earlier = encounters.drop_last();
    assert forall|k: int| 0 <= k < earlier.len() implies (#[trigger] earlier[k]).complete() by {
        assert(encounters[k].complete());
    }
    assert(encounters.last().complete());
    lemma_settings_stay(control, earlier);
    lemma_outcome(control.after(earlier), encounters.last());
    if first == encounters.len() - 1 {
        assert(encounters.take(first) =~= earlier);
        assert(encounters.take(first + 1) =~= encounters);
    } else {
        assert(encounters.take(first) =~= earlier.take(first));
        assert(encounters.take(first + 1) =~= earlier.take(first + 1));
        lemma_hold_progresses(control, earlier, first);
    }
}

/// From the first held cycle of a stop on, every command is bit for bit the pose that the robot
/// echoed in that cycle, past the backstop, and the motion is finished once more of them have gone
/// out than the settle window has cycles, though never with the first. The observer is told what
/// went out, and of no alteration.
pub proof fn law_hold_is_the_echo(
    control: PoseLoop,
    encounters: Seq<PoseEncounter>,
    first: int,
    k: int,
)
    requires
        control.wf(),
        forall|i: int| 0 <= i < encounters.len() ==> (#[trigger] encounters[i]).complete(),
        0 <= first <= k < encounters.len(),
        control.after(encounters.take(first)).runner.hold is None,
        control.after(encounters.take(first + 1)).runner.hold is Some,
    ensures
        control.output(encounters, k) matches Some(output) && {
            &&& forall|homogeneous: bool|
                (#[trigger] output.commanded(homogeneous)).O_T_EE == encounters[first].echo.pose
                    && output.commanded(homogeneous).motion_finished == (k > first
                    && runner::held_cycles(k - first + 1) > control.runner.settle.cycles)
            &&& forall|orientation: [Double; 4], moved: Double, turned: Double|
                {
                    let record = #[trigger] output.observed(orientation, moved, turned);
                    record.pose == encounters[first].echo.pose && record.backstop_alteration == (
                    Double { bits: 0 }) && record.backstop_angular_alteration == (Double {
                        bits: 0,
                    })
                }
        },
{
    let earlier = encounters.take(k);
    assert forall|i: int| 0 <= i < earlier.len() implies (#[trigger] earlier[i]).complete() by {
        assert(encounters[i].complete());
    }
    assert(encounters[k].complete());
    lemma_settings_stay(control, earlier);
    lemma_outcome(control.after(earlier), encounters[k]);
    if first == k {
        let upto = encounters.take(first + 1);
        assert(upto.drop_last() =~= earlier);
        assert(upto.last() == encounters[k]);
    } else {
        assert(earlier.take(first) =~= encounters.take(first));
        assert(earlier.take(first + 1) =~= encounters.take(first + 1));
        lemma_hold_progresses(control, earlier, first);
    }
}

/// In every cycle of a stream the observer is told the pose that goes out, the command is the last
/// one where the step is finished, and without the rate limiter no alteration is told. While nothing
/// is held the motion is not finished.
pub proof fn law_observer_sees_the_command(
    control: PoseLoop,
    encounters: Seq<PoseEncounter>,
    k: int,
    homogeneous: bool,
    orientation: [Double; 4],
    moved: Double,
    turned: Double,
)
    requires
        control.wf(),
        forall|i: int| 0 <= i < encounters.len() ==> (#[trigger] encounters[i]).complete(),
        0 <= k < encounters.len(),
    ensures
        control.output(encounters, k) matches Some(output) && {
            let command = output.commanded(homogeneous);
            let record = output.observed(orientation, moved, turned);
            &&& record.pose == command.O_T_EE
            &&& command.motion_finished == output.step.finished
            &&& !control.limit_rate || output.step.hold ==> output.limited_from is None
                && record.backstop_alteration == (Double { bits: 0 })
                && record.backstop_angular_alteration == (Double { bits: 0 })
            &&& control.after(encounters.take(k + 1)).runner.hold is None
                ==> !command.motion_finished
        },
{
    let earlier = encounters.take(k);
    assert forall|i: int| 0 <= i < earlier.len() implies (#[trigger] earlier[i]).complete() by {
        assert(encounters[i].complete());
    }
    assert(encounters[k].complete());
    lemma_settings_stay(control, earlier);
    lemma_outcome(control.after(earlier), encounters[k]);
    let upto = encounters.take(k + 1);
    assert(upto.drop_last() =~= earlier);
    assert(upto.last() == encounters[k]);
}

/// Either guard alone fires: after measuring, an anchored stream that holds nothing has deviated
/// where the distance is above what is allowed, whatever the angle, and where the angle is above what
/// is allowed, whatever the distance; otherwise only if it had before. A guard that fires freezes the
/// target where the command is, and the mailbox is not looked at any more.
pub proof fn law_either_guard_fires(cycle: PoseCycle, distance: Double, angle: Double)
    requires
        cycle.wf(),
        cycle.stage is Measuring,
        cycle.control.runner.anchored,
        cycle.control.runner.hold is None,
    ensures
        ({
            let before = cycle.control.runner;
            let far = double::above(distance, cycle.control.max_deviation);
            let turned = double::above(angle, cycle.control.max_angular_deviation);
            &&& cycle.next(PoseEvent::Measured { distance, angle }) matches Progress::Continue(
                next,
                action,
            )
            &&& next.stage matches PoseStage::Running { cycle: run }
            &&& far ==> run.runner.deviated
            &&& turned ==> run.runner.deviated
            &&& !far && !turned ==> run.runner.deviated == before.deviated
            &&& (far || turned) && !before.deviated ==> action == PoseAction::Run(
                RunnerAction::Generate { target: cycle.echo.slot, commanded: cycle.echo.slot },
            )
            &&& before.deviated ==> action == PoseAction::Run(
                RunnerAction::Generate { target: before.target, commanded: cycle.echo.slot },
            )
            &&& !far && !turned && !before.deviated ==> action == PoseAction::Run(
                RunnerAction::Load,
            )
        }),
{
    broadcast use double::group_order;

}

/// Straying is a matter of the numbers: it needs a distance or an angle above its guard, and any such
/// is enough.
pub proof fn law_straying(distance: Double, angle: Double, max_deviation: Double, max_angular: Double)
    ensures
        double::above(distance, max_deviation) ==> astray(
            distance,
            angle,
            max_deviation,
            max_angular,
        ),
        double::above(angle, max_angular) ==> astray(distance, angle, max_deviation, max_angular),
        !double::above(distance, max_deviation) && !double::above(angle, max_angular) ==> !astray(
            distance,
            angle,
            max_deviation,
            max_angular,
        ),
{
    broadcast use double::group_order;

}

/// The distance and the angle are measured from where the first cycle's command was, in every cycle.
pub proof fn law_start_is_the_first_echo(control: PoseLoop, echo: Echo, stop: bool)
    ensures
        ({
            let cycle = control.begun(echo, stop);
            &&& control.start is None ==> cycle.awaiting() == (PoseAction::Measure {
                start: echo.placement,
            }) && cycle.control.start == Some(echo.placement)
            &&& control.start matches Some(start) ==> cycle.awaiting() == (PoseAction::Measure {
                start,
            }) && cycle.control.start == Some(start)
            &&& cycle.echo == echo
            &&& cycle.stop == stop
        }),
{
}

/// What goes out while nothing is held is the pose of the generator's step, or, where the rate
/// limiter runs, what the limiter makes of that pose; where that fails, the robot's own echo.
pub proof fn law_moving_pose(control: PoseLoop, e: PoseEncounter)
    requires
        control.wf(),
        e.complete(),
        control.outcome(e) matches Some((after, _)) && after.runner.hold is None,
    ensures
        ({
            let (after, output) = control.outcome(e)->0;
            &&& !control.limit_rate ==> output.pose == e.composed
            &&& control.limit_rate && e.limited is Some ==> Some(output.pose) == e.limited
            &&& control.limit_rate && e.limited is None ==> output.pose == e.echo.pose
            &&& output.limited_from == if control.limit_rate {
                Some(e.composed)
            } else {
                None
            }
            &&& output.step.position == e.generated.position
            &&& output.step.velocity == e.generated.velocity
            &&& output.step.acceleration == e.generated.acceleration
            &&& output.step.target == after.runner.target
            &&& after.held is None
        }),
{
}

/// The pose of a step is composed of the generator's step and of where the robot's last command was,
/// and it is that pose which is limited.
pub proof fn law_pose_is_composed_on_the_echo(cycle: PoseCycle, step: Step<6, 7>, pose: [Double; 16])
    requires
        cycle.stage == (PoseStage::Composing { step }),
    ensures
        cycle.awaiting() == (PoseAction::Compose {
            position: step.position,
            echo: cycle.echo.placement,
        }),
        cycle.control.limit_rate ==> (cycle.next(PoseEvent::Composed(pose)) matches Progress::Continue(
            next,
            action,
        ) && action == PoseAction::Limit { pose }),
{
}

/// The observer is told the target that the generator plans towards, its position and orientation
/// apart, and the generator's motion, its translation and its rotation apart.
pub proof fn law_record_tells_the_step(
    output: PoseOutput,
    orientation: [Double; 4],
    moved: Double,
    turned: Double,
    i: int,
)
    requires
        0 <= i < 3,
    ensures
        ({
            let record = output.observed(orientation, moved, turned);
            let step = output.step;
            &&& record.orientation == orientation
            &&& record.target@[i] == step.target@[i]
            &&& record.target_orientation@[i] == step.target@[3 + i]
            &&& record.target_orientation@[3] == step.target@[6]
            &&& record.velocity@[i] == step.velocity@[i]
            &&& record.angular_velocity@[i] == step.velocity@[3 + i]
            &&& record.acceleration@[i] == step.acceleration@[i]
            &&& record.angular_acceleration@[i] == step.acceleration@[3 + i]
            &&& output.limited_from is Some ==> record.backstop_alteration == moved
                && record.backstop_angular_alteration == turned
        }),
{
}

/// A generator that stands on a command has the command's position, and has not turned.
pub proof fn law_anchor_stands_on_the_command(slot: [Double; 7], i: int)
    requires
        0 <= i < 3,
    ensures
        anchor_of(slot)@[i] == slot@[i],
        anchor_of(slot)@[3 + i].value() == 0,
        anchor_of(slot)@[3 + i].finite(),
{
}

/// Setting the position of a target leaves its orientation, and setting its orientation leaves its
/// position.
pub proof fn law_setting_one_part_leaves_the_other(
    target: [Double; 7],
    position: [Double; 3],
    orientation: [Double; 4],
)
    ensures
        parts(whole(position, parts(target).1)).0@ == position@,
        parts(whole(position, parts(target).1)).1@ == parts(target).1@,
        parts(whole(parts(target).0, orientation)).0@ == parts(target).0@,
        parts(whole(parts(target).0, orientation)).1@ == orientation@,
        forall|i: int| 0 <= i < 3 ==> #[trigger] parts(target).0@[i] == target@[i],
        forall|i: int| 0 <= i < 4 ==> #[trigger] parts(target).1@[i] == target@[3 + i],
{
    law_split_undoes_join(target, position, parts(target).1);
    law_split_undoes_join(target, parts(target).0, orientation);
}

/// What is commanded of a pose is the pose, without an elbow; whether it is a homogeneous
/// transformation is as it was found, and the command is the last one exactly when the step is.
pub proof fn law_pose_is_commanded_without_an_elbow(
    output: PoseOutput,
    homogeneous: bool,
    orientation: [Double; 4],
    moved: Double,
    turned: Double,
    i: int,
)
    ensures
        ({
            let command = output.commanded(homogeneous);
            &&& command.O_T_EE == output.pose
            &&& command.homogeneous == homogeneous
            &&& !command.has_elbow
            &&& command.motion_finished == output.step.finished
        }),
        ({
            let record = output.observed(orientation, moved, turned);
            &&& record.pose == output.pose
            &&& output.limited_from is None ==> record.backstop_alteration.bits == 0
                && record.backstop_angular_alteration.bits == 0
            &&& record.ik_error.bits == 0
            &&& record.leash_alteration.bits == 0
            &&& record.leash_angular_alteration.bits == 0
            &&& 0 <= i < 7 ==> record.q_goal@[i].bits == 0 && record.tau@[i].bits == 0
        }),
{
    robot_state::law_zeros::<7>();
}

} // verus!
