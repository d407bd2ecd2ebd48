//! The joint interface of target control: seven joint position targets, streamed to the robot's
//! own controller with the rate limiter as the backstop.
use crate::control_types;
use crate::control_types::JointPositions;
use crate::double::Double;
use crate::otg::OtgLimits;
use crate::robot::target_control;
use crate::robot::target_control::check_joint_limits;
use crate::robot::target_control::runner::{
    Generated, Phase, Runner, RunnerAction, RunnerCycle, RunnerEvent, Step,
};
use crate::robot::target_control::runner;
use crate::robot::target_control::session;
use crate::robot::target_control::session::{modify_target, Refusal};
use crate::robot::target_control::Settle;
use crate::robot_state;
use crate::step::Progress;
use crate::double;
use vstd::prelude::*;

verus! {

/// What one cycle sent, for the observer.
#[derive(Clone, Copy, PartialEq, Debug)]
pub struct JointSent {
    /// The joint positions that went to the robot, after the backstop, rad.
    pub q: [Double; 7],
    /// The target the generator was planning towards, rad.
    pub target: [Double; 7],
    /// The generator's velocity at the end of the cycle, rad/s.
    pub velocity: [Double; 7],
    /// The generator's acceleration at the end of the cycle, rad/s^2.
    pub acceleration: [Double; 7],
    /// The most the backstop moved any joint of the generator's position, rad.
    pub backstop_alteration: Double,
    /// The joint target of the impedance law, rad.
    pub q_goal: [Double; 7],
    /// The torques sent, Nm.
    pub tau: [Double; 7],
    /// The most, rad, the leash pulled any joint of the generator's anchor back.
    pub leash_alteration: Double,
}

/// The record of a step with `q` as sent; the backend's own fields are zero.
pub open spec fn recorded(step: Step<7, 7>, q: [Double; 7]) -> JointSent {
    JointSent {
        q,
        target: step.target,
        velocity: step.velocity,
        acceleration: step.acceleration,
        backstop_alteration: Double { bits: 0 },
        q_goal: robot_state::zeros(),
        tau: robot_state::zeros(),
        leash_alteration: Double { bits: 0 },
    }
}

/// The record of a step with `q` as sent; the backend's own fields are zero.
pub fn sent(step: &Step<7, 7>, q: [Double; 7]) -> (record: JointSent)
    ensures
        record == recorded(*step, q),
{
    JointSent {
        q,
        target: step.target,
        velocity: step.velocity,
        acceleration: step.acceleration,
        backstop_alteration: Double { bits: 0 },
        q_goal: [Double { bits: 0 }; 7],
        tau: [Double { bits: 0 }; 7],
        leash_alteration: Double { bits: 0 },
    }
}

/// Why joint positions were refused as a target.
#[derive(Clone, Copy, PartialEq, Eq, Structural, Debug)]
pub enum JointRefusal {
    /// A joint, counted from zero, is outside the arm's limits less the inset.
    Limit(usize),
    /// As any other target.
    Target(Refusal),
}

/// Whether joint positions that the user sets came out so.
pub open spec fn joints_set(
    running: bool,
    q: [Double; 7],
    bounds: ([Double; 7], [Double; 7]),
    r: Result<[Double; 7], JointRefusal>,
) -> bool {
    let inside = forall|i: int| 0 <= i < 7 ==> #[trigger] target_control::within(q@, bounds, i);
    match r {
        Err(JointRefusal::Limit(joint)) => control_types::all_finite(q@)
            && target_control::first_outside(q@, bounds, joint as int),
        _ => {
            &&& control_types::all_finite(q@) ==> inside
            &&& r == match session::admitted(running, q) {
                Ok(target) => Ok::<[Double; 7], JointRefusal>(target),
                Err(refusal) => Err(JointRefusal::Target(refusal)),
            }
        },
    }
}

/// The target to publish of joint positions that the user sets. The limits are looked at first,
/// of positions that are finite, then whether the loop runs and whether the positions are finite.
pub fn set_joints(running: bool, q: [Double; 7], bounds: &([Double; 7], [Double; 7])) -> (r: Result<
    [Double; 7],
    JointRefusal,
>)
    ensures
        joints_set(running, q, *bounds, r),
        r matches Err(JointRefusal::Limit(joint)) ==> control_types::all_finite(q@)
            && target_control::first_outside(q@, *bounds, joint as int),
        (r matches Err(JointRefusal::Limit(_))) == (control_types::all_finite(q@) && !(forall|i: int|
            0 <= i < 7 ==> #[trigger] target_control::within(q@, *bounds, i))),
        !(r matches Err(JointRefusal::Limit(_))) ==> r == match session::admitted(running, q) {
            Ok(target) => Ok::<[Double; 7], JointRefusal>(target),
            Err(refusal) => Err(JointRefusal::Target(refusal)),
        },
{
    let finite = match modify_target(true, q) {
        Ok(_) => true,
        Err(_) => false,
    };
    if finite {
        if let Err(joint) = check_joint_limits(&q, bounds) {
            return Err(JointRefusal::Limit(joint));
        }
    }
    match modify_target(running, q) {
        Ok(target) => Ok(target),
        Err(refusal) => Err(JointRefusal::Target(refusal)),
    }
}

/// The state of a position stream.
#[derive(Clone, Copy, PartialEq, Debug)]
pub struct PositionLoop {
    pub runner: Runner<7, 7>,
    /// The commanded positions of the first cycle.
    pub start: Option<[Double; 7]>,
    pub max_deviation: Double,
    pub limit_rate: bool,
    /// The generator's highest velocities.
    pub velocity: [Double; 7],
}

/// What a cycle of the stream wants.
#[derive(Clone, Copy, PartialEq, Debug)]
pub enum JointAction {
    /// The largest distance of a measured joint from the start; answered by
    /// [`JointEvent::Measured`].
    Measure { start: [Double; 7] },
    /// What the runner wants; answered by [`JointEvent::Ran`].
    Run(RunnerAction<7>),
    /// The rate limiter on a position, under these velocities; answered by
    /// [`JointEvent::Limited`].
    Limit { position: [Double; 7], upper: [Double; 7], lower: [Double; 7] },
}

/// What came of an action.
#[derive(Clone, Copy, PartialEq, Debug)]
pub enum JointEvent {
    Measured(Double),
    Ran(RunnerEvent<7, 7>),
    /// The limited position; `None` where the limiter failed, which it does only on numbers that
    /// are not finite.
    Limited(Option<[Double; 7]>),
}

/// Which answer a cycle waits for.
#[derive(Clone, Copy, PartialEq, Debug)]
pub enum JointStage {
    Measuring,
    Running { cycle: RunnerCycle<7, 7> },
    Limiting { step: Step<7, 7> },
}

/// A cycle of the stream that waits for an answer.
#[derive(Clone, Copy, PartialEq, Debug)]
pub struct JointCycle {
    pub control: PositionLoop,
    /// The robot's echo of the last command.
    pub echo: [Double; 7],
    /// Whether a stop was asked for.
    pub stop: bool,
    /// The robot's own velocity limits where the arm is.
    pub upper: [Double; 7],
    pub lower: [Double; 7],
    pub stage: JointStage,
}

/// What a cycle of the stream ends with.
#[derive(Clone, Copy, PartialEq, Debug)]
pub struct JointOutput {
    pub output: JointPositions,
    pub sent: JointSent,
    /// The generator's position, where the backstop was put on it.
    pub limited_from: Option<[Double; 7]>,
}

impl JointOutput {
    /// The record of the cycle for the observer, where `moved` is how far the backstop moved any
    /// joint from `limited_from`; zero where it was not put on the command.
    pub open spec fn observed(self, moved: Double) -> JointSent {
        JointSent {
            backstop_alteration: if self.limited_from is Some {
                moved
            } else {
                Double { bits: 0 }
            },
            ..self.sent
        }
    }

    /// The record of the cycle for the observer, where `moved` is how far the backstop moved any
    /// joint from `limited_from`; zero where it was not put on the command.
    pub fn record(&self, moved: Double) -> (record: JointSent)
        ensures
            record == self.observed(moved),
    {
        let mut record = self.sent;
        record.backstop_alteration = if self.limited_from.is_some() {
            moved
        } else {
            Double { bits: 0 }
        };
        record
    }
}

/// The smaller of each of seven pairs.
pub open spec fn each_smaller(a: [Double; 7], b: [Double; 7]) -> [Double; 7] {
    [
        a[0].smaller(b[0]),
        a[1].smaller(b[1]),
        a[2].smaller(b[2]),
        a[3].smaller(b[3]),
        a[4].smaller(b[4]),
        a[5].smaller(b[5]),
        a[6].smaller(b[6]),
    ]
}

/// The larger of each number and the opposite of its partner.
pub open spec fn each_larger_than_opposite(a: [Double; 7], b: [Double; 7]) -> [Double; 7] {
    [
        a[0].larger(b[0].opposite()),
        a[1].larger(b[1].opposite()),
        a[2].larger(b[2].opposite()),
        a[3].larger(b[3].opposite()),
        a[4].larger(b[4].opposite()),
        a[5].larger(b[5].opposite()),
        a[6].larger(b[6].opposite()),
    ]
}

impl PositionLoop {
    /// A stream that has not run.
    pub fn new(settle: Settle, max_deviation: Double, limit_rate: bool, limits: &[OtgLimits; 7]) -> (r:
        PositionLoop)
        ensures
            r.runner == Runner::<7, 7>::fresh(settle),
            r.start is None,
            r.max_deviation == max_deviation,
            r.limit_rate == limit_rate,
            forall|i: int| 0 <= i < 7 ==> r.velocity@[i] == limits@[i].max_velocity,
    {
        PositionLoop {
            runner: Runner::new(settle),
            start: None,
            max_deviation,
            limit_rate,
            velocity: [
                limits[0].max_velocity,
                limits[1].max_velocity,
                limits[2].max_velocity,
                limits[3].max_velocity,
                limits[4].max_velocity,
                limits[5].max_velocity,
                limits[6].max_velocity,
            ],
        }
    }

    /// A cycle about to measure how far the arm has strayed. The first one takes the echo as the
    /// start.
    pub open spec fn begun(
        self,
        echo: [Double; 7],
        stop: bool,
        upper: [Double; 7],
        lower: [Double; 7],
    ) -> JointCycle {
        let start = match self.start {
            Some(start) => start,
            None => echo,
        };
        JointCycle {
            control: PositionLoop { start: Some(start), ..self },
            echo,
            stop,
            upper,
            lower,
            stage: JointStage::Measuring,
        }
    }

    /// Begins a cycle with the robot's echo of the last command, whether a stop was asked for, and
    /// the robot's own velocity limits where the arm is.
    pub fn cycle(self, echo: [Double; 7], stop: bool, upper: [Double; 7], lower: [Double; 7]) -> (r:
        JointCycle)
        ensures
            r == self.begun(echo, stop, upper, lower),
    {
        let start = match self.start {
            Some(start) => start,
            None => echo,
        };
        let mut control = self;
        control.start = Some(start);
        JointCycle { control, echo, stop, upper, lower, stage: JointStage::Measuring }
    }
}

impl JointCycle {
    /// Whether the runner's cycle has begun only after the start was known.
    pub open spec fn wf(self) -> bool {
        self.control.start is Some
    }

    /// What the cycle waits for.
    pub open spec fn awaiting(self) -> JointAction {
        match self.stage {
            JointStage::Measuring => JointAction::Measure { start: self.control.start->0 },
            JointStage::Running { cycle } => JointAction::Run(cycle.awaiting()),
            JointStage::Limiting { step } => JointAction::Limit {
                position: step.position,
                upper: each_smaller(self.upper, self.control.velocity),
                lower: each_larger_than_opposite(self.lower, self.control.velocity),
            },
        }
    }

    /// What the cycle waits for. The limiter's velocities are the generator's, tightened to the
    /// robot's own.
    pub fn action(&self) -> (action: JointAction)
        requires
            self.wf(),
        ensures
            action == self.awaiting(),
    {
        match self.stage {
            JointStage::Measuring => {
                let start = match self.control.start {
                    Some(start) => start,
                    None => self.echo,
                };
                JointAction::Measure { start }
            },
            JointStage::Running { cycle } => JointAction::Run(cycle.action()),
            JointStage::Limiting { step } => {
                let v = self.control.velocity;
                let upper = [
                    self.upper[0].min(v[0]),
                    self.upper[1].min(v[1]),
                    self.upper[2].min(v[2]),
                    self.upper[3].min(v[3]),
                    self.upper[4].min(v[4]),
                    self.upper[5].min(v[5]),
                    self.upper[6].min(v[6]),
                ];
                let lower = [
                    self.lower[0].max(v[0].negated()),
                    self.lower[1].max(v[1].negated()),
                    self.lower[2].max(v[2].negated()),
                    self.lower[3].max(v[3].negated()),
                    self.lower[4].max(v[4].negated()),
                    self.lower[5].max(v[5].negated()),
                    self.lower[6].max(v[6].negated()),
                ];
                JointAction::Limit { position: step.position, upper, lower }
            },
        }
    }

    /// Whether an event is an answer to what the cycle waits for.
    pub open spec fn answered(self, event: JointEvent) -> bool {
        match self.stage {
            JointStage::Measuring => event is Measured,
            JointStage::Running { cycle } => event matches JointEvent::Ran(event) && cycle.answered(
                event,
            ),
            JointStage::Limiting { .. } => event is Limited,
        }
    }

    /// Whether an event is an answer to what the cycle waits for.
    pub fn answered_by(&self, event: &JointEvent) -> (b: bool)
        ensures
            b == self.answered(*event),
    {
        match self.stage {
            JointStage::Measuring => matches!(event, JointEvent::Measured(_)),
            JointStage::Running { cycle } => match event {
                JointEvent::Ran(event) => cycle.answered_by(event),
                _ => false,
            },
            JointStage::Limiting { .. } => matches!(event, JointEvent::Limited(_)),
        }
    }

    /// Where the cycle stands once the runner does.
    pub open spec fn ran(
        self,
        progress: Progress<RunnerCycle<7, 7>, RunnerAction<7>, (Runner<7, 7>, Step<7, 7>)>,
    ) -> Progress<JointCycle, JointAction, (PositionLoop, JointOutput)> {
        match progress {
            Progress::Continue(cycle, _) => {
                let next = JointCycle { stage: JointStage::Running { cycle }, ..self };
                Progress::Continue(next, next.awaiting())
            },
            Progress::Done((runner, step)) => {
                let control = PositionLoop { runner, ..self.control };
                if control.limit_rate && !step.hold {
                    let next = JointCycle { control, stage: JointStage::Limiting { step }, ..self };
                    Progress::Continue(next, next.awaiting())
                } else {
                    Progress::Done(
                        (
                            control,
                            JointOutput {
                                output: JointPositions {
                                    q: step.position,
                                    motion_finished: step.finished,
                                },
                                sent: recorded(step, step.position),
                                limited_from: None,
                            },
                        ),
                    )
                }
            },
        }
    }

    /// Where the cycle stands after an event.
    pub open spec fn next(self, event: JointEvent) -> Progress<
        JointCycle,
        JointAction,
        (PositionLoop, JointOutput),
    > {
        match (self.stage, event) {
            (JointStage::Measuring, JointEvent::Measured(distance)) => self.ran(
                self.control.runner.begun(
                    self.echo,
                    self.echo,
                    self.control.max_deviation.lt(distance),
                    self.stop,
                ),
            ),
            (JointStage::Running { cycle }, JointEvent::Ran(event)) => self.ran(cycle.next(event)),
            (JointStage::Limiting { step }, JointEvent::Limited(limited)) => {
                let q = match limited {
                    Some(q) => q,
                    None => self.echo,
                };
                Progress::Done(
                    (
                        self.control,
                        JointOutput {
                            output: JointPositions { q, motion_finished: step.finished },
                            sent: recorded(step, q),
                            limited_from: Some(step.position),
                        },
                    ),
                )
            },
            _ => Progress::Continue(self, self.awaiting()),
        }
    }

    /// Goes on once the runner has.
    fn run(
        self,
        progress: Progress<RunnerCycle<7, 7>, RunnerAction<7>, (Runner<7, 7>, Step<7, 7>)>,
    ) -> (r: Progress<JointCycle, JointAction, (PositionLoop, JointOutput)>)
        requires
            self.wf(),
        ensures
            r == self.ran(progress),
    {
        let mut next = self;
        match progress {
            Progress::Continue(cycle, _) => {
                next.stage = JointStage::Running { cycle };
            },
            Progress::Done((runner, step)) => {
                next.control.runner = runner;
                if self.control.limit_rate && !step.hold {
                    next.stage = JointStage::Limiting { step };
                } else {
                    let output = JointOutput {
                        output: JointPositions { q: step.position, motion_finished: step.finished },
                        sent: sent(&step, step.position),
                        limited_from: None,
                    };
                    return Progress::Done((next.control, output));
                }
            },
        }
        Progress::Continue(next, next.action())
    }

    /// Goes on with the answer to what the cycle waits for.
    pub fn resume(self, event: JointEvent) -> (r: Progress<
        JointCycle,
        JointAction,
        (PositionLoop, JointOutput),
    >)
        requires
            self.wf(),
            self.answered(event),
        ensures
            r == self.next(event),
            r matches Progress::Continue(cycle, _) ==> cycle.wf(),
    {
        match self.stage {
            JointStage::Measuring => match event {
                JointEvent::Measured(distance) => {
                    let strayed = self.control.max_deviation.less(distance);
                    self.run(self.control.runner.cycle(self.echo, self.echo, strayed, self.stop))
                },
                _ => vstd::pervasive::unreached(),
            },
            JointStage::Running { cycle } => match event {
                JointEvent::Ran(event) => self.run(cycle.resume(event)),
                _ => vstd::pervasive::unreached(),
            },
            JointStage::Limiting { step } => match event {
                JointEvent::Limited(limited) => {
                    let q = match limited {
                        Some(q) => q,
                        None => self.echo,
                    };
                    let output = JointOutput {
                        output: JointPositions { q, motion_finished: step.finished },
                        sent: sent(&step, q),
                        limited_from: Some(step.position),
                    };
                    Progress::Done((self.control, output))
                },
                _ => vstd::pervasive::unreached(),
            },
        }
    }
}

/// While a stop holds, the command goes out bit for bit as held: the backstop is not put on it.
pub proof fn law_hold_passes_the_backstop(cycle: JointCycle, runner: Runner<7, 7>, step: Step<7, 7>)
    requires
        step.hold,
    ensures
        cycle.ran(Progress::Done((runner, step))) matches Progress::Done((_, output))
            && output.output.q == step.position && output.limited_from is None,
{
}

/// A limiter that fails leaves the robot where it is: the echo of the last command goes out.
pub proof fn law_failed_limiter_holds_the_echo(cycle: JointCycle, step: Step<7, 7>)
    requires
        cycle.stage == (JointStage::Limiting { step }),
    ensures
        cycle.next(JointEvent::Limited(None)) matches Progress::Done((_, output)) && output.output.q
            == cycle.echo,
{
}

/// What a stream meets in one cycle.
pub struct JointEncounter {
    /// The robot's echo of the last command.
    pub echo: [Double; 7],
    /// Whether a stop was asked for.
    pub stop: bool,
    /// The robot's own velocity limits where the arm is.
    pub upper: [Double; 7],
    pub lower: [Double; 7],
    /// The largest distance of a measured joint from the start.
    pub distance: Double,
    /// The target that the mailbox gave, where it gave one. A stop waits until it does.
    pub loaded: Option<[Double; 7]>,
    /// What the generator said.
    pub generated: Generated<7>,
    /// What the limiter made of the position.
    pub limited: Option<[Double; 7]>,
}

impl JointEncounter {
    /// Whether the cycle can end with what it meets.
    pub open spec fn complete(self) -> bool {
        self.stop ==> self.loaded is Some
    }
}

impl PositionLoop {
    /// What a whole cycle ends with.
    pub open spec fn outcome(self, e: JointEncounter) -> Option<(PositionLoop, JointOutput)> {
        let measured = self.begun(e.echo, e.stop, e.upper, e.lower).next(
            JointEvent::Measured(e.distance),
        );
        let ready = match measured {
            Progress::Continue(cycle, _) => match cycle.stage {
                JointStage::Running { cycle: run } => match run.phase {
                    Phase::Anchoring => cycle.next(JointEvent::Ran(RunnerEvent::Anchored)),
                    Phase::Loading => cycle.next(JointEvent::Ran(RunnerEvent::Loaded(e.loaded))),
                    Phase::Generating => measured,
                },
                _ => measured,
            },
            Progress::Done(_) => measured,
        };
        let generated = match ready {
            Progress::Continue(cycle, _) => cycle.next(
                JointEvent::Ran(RunnerEvent::Generated(e.generated)),
            ),
            Progress::Done(_) => ready,
        };
        let limited = match generated {
            Progress::Continue(cycle, _) => cycle.next(JointEvent::Limited(e.limited)),
            Progress::Done(_) => generated,
        };
        match limited {
            Progress::Done(end) => Some(end),
            Progress::Continue(_, _) => None,
        }
    }

    /// The stream after many cycles.
    pub open spec fn after(self, encounters: Seq<JointEncounter>) -> PositionLoop
        decreases encounters.len(),
    {
        if encounters.len() == 0 {
            self
        } else {
            let before = self.after(encounters.drop_last());
            match before.outcome(encounters.last()) {
                Some((control, _)) => control,
                None => before,
            }
        }
    }

    /// What the cycle number `k` of many sends.
    pub open spec fn output(self, encounters: Seq<JointEncounter>, k: int) -> Option<JointOutput> {
        match self.after(encounters.take(k)).outcome(encounters[k]) {
            Some((_, output)) => Some(output),
            None => None,
        }
    }
}

/// What one cycle of a stream comes to.
proof fn lemma_outcome(control: PositionLoop, e: JointEncounter)
    requires
        e.complete(),
    ensures
        control.outcome(e) matches Some((after, output)) && {
            &&& after.runner.settle == control.runner.settle
            &&& after.limit_rate == control.limit_rate
            &&& output.sent.q == output.output.q
            &&& output.sent.backstop_alteration == (Double { bits: 0 })
            &&& !control.limit_rate ==> output.limited_from is None
            &&& match (control.runner.hold, after.runner.hold) {
                (Some(before), Some(hold)) => hold.position == before.position && hold.sent
                    == runner::counted(before.sent) && output.output.q == before.position
                    && output.limited_from is None && output.output.motion_finished == (hold.sent
                    > control.runner.settle.cycles),
                (Some(_), None) => false,
                (None, Some(hold)) => hold.position == e.echo && hold.sent == 1 && output.output.q
                    == e.echo && output.limited_from is None && !output.output.motion_finished,
                (None, None) => !output.output.motion_finished,
            }
        },
{
}

/// How far a hold has come.
proof fn lemma_hold_progresses(
    control: PositionLoop,
    encounters: Seq<JointEncounter>,
    first: int,
)
    requires
        forall|k: int| 0 <= k < encounters.len() ==> (#[trigger] encounters[k]).complete(),
        0 <= first < encounters.len(),
        control.after(encounters.take(first)).runner.hold is None,
        control.after(encounters.take(first + 1)).runner.hold is Some,
    ensures
        control.after(encounters).runner.settle == control.runner.settle,
        control.after(encounters).runner.hold matches Some(hold) && hold.position
            == encounters[first].echo && hold.sent == runner::held_cycles(
            encounters.len() - first,
        ),
    decreases encounters.len(),
{
    let earlier = encounters.drop_last();
    let before = control.after(earlier);
    assert(encounters.last().complete());
    lemma_outcome(before, encounters.last());
    lemma_settings_stay(control, earlier);
    if first == encounters.len() - 1 {
        assert(encounters.take(first) =~= earlier);
        assert(encounters.take(first + 1) =~= encounters);
    } else {
        assert(encounters.take(first) =~= earlier.take(first));
        assert(encounters.take(first + 1) =~= earlier.take(first + 1));
        assert forall|k: int| 0 <= k < earlier.len() implies (#[trigger] earlier[k]).complete() by {
            assert(encounters[k].complete());
        }
        lemma_hold_progresses(control, earlier, first);
    }
}

/// The settings of a stream stay.
proof fn lemma_settings_stay(control: PositionLoop, encounters: Seq<JointEncounter>)
    requires
        forall|k: int| 0 <= k < encounters.len() ==> (#[trigger] encounters[k]).complete(),
    ensures
        control.after(encounters).runner.settle == control.runner.settle,
        control.after(encounters).limit_rate == control.limit_rate,
    decreases encounters.len(),
{
    if encounters.len() > 0 {
        let earlier = encounters.drop_last();
        assert forall|k: int| 0 <= k < earlier.len() implies (#[trigger] earlier[k]).complete() by {
            assert(encounters[k].complete());
        }
        lemma_settings_stay(control, earlier);
        assert(encounters.last().complete());
        lemma_outcome(control.after(earlier), encounters.last());
    }
}

/// From the first held cycle of a stop on, every command is bit for bit the robot's echo of that
/// cycle, past the backstop, and the motion is finished once more of them have gone out than the
/// settle window has cycles, though never with the first. The observer is told what went out, and
/// of no alteration.
pub proof fn law_hold_is_the_echo(
    control: PositionLoop,
    encounters: Seq<JointEncounter>,
    first: int,
    k: int,
)
    requires
        forall|i: int| 0 <= i < encounters.len() ==> (#[trigger] encounters[i]).complete(),
        0 <= first <= k < encounters.len(),
        control.after(encounters.take(first)).runner.hold is None,
        control.after(encounters.take(first + 1)).runner.hold is Some,
    ensures
        control.output(encounters, k) matches Some(output) && {
            &&& output.output.q == encounters[first].echo
            &&& output.limited_from is None
            &&& output.output.motion_finished == (k > first && runner::held_cycles(k - first + 1)
                > control.runner.settle.cycles)
            &&& forall|moved: Double|
                (#[trigger] output.observed(moved)).q == output.output.q && output.observed(
                    moved,
                ).backstop_alteration == (Double { bits: 0 })
        },
{
    let earlier = encounters.take(k);
    assert forall|i: int| 0 <= i < earlier.len() implies (#[trigger] earlier[i]).complete() by {
        assert(encounters[i].complete());
    }
    assert(encounters[k].complete());
    lemma_outcome(control.after(earlier), encounters[k]);
    lemma_settings_stay(control, earlier);
    if first == k {
        let upto = encounters.take(first + 1);
        assert(upto.drop_last() =~= earlier);
        assert(upto.last() == encounters[k]);
    } else {
        assert(earlier.take(first) =~= encounters.take(first));
        assert(earlier.take(first + 1) =~= encounters.take(first + 1));
        lemma_hold_progresses(control, earlier, first);
    }
}

/// While nothing is held the motion is not finished, and without the rate limiter the backstop is
/// never put on a command; what goes out is what the observer is told.
pub proof fn law_moving_stream(control: PositionLoop, e: JointEncounter)
    requires
        e.complete(),
    ensures
        control.outcome(e) matches Some((after, output)) && {
            &&& after.runner.hold is None ==> !output.output.motion_finished
            &&& !control.limit_rate ==> output.limited_from is None
            &&& output.sent.q == output.output.q
        },
{
    lemma_outcome(control, e);
}

/// Every joint target that is taken is the one that was set, is finite, and lies between the bounds
/// on both sides, joint by joint. A finite target with a joint below its lower or above its upper
/// bound is refused with the first such joint, whether or not the loop runs; a target that is not
/// finite is never taken, and neither is any once the loop has ended.
pub proof fn law_joint_targets_stay_between_the_bounds(
    running: bool,
    q: [Double; 7],
    bounds: ([Double; 7], [Double; 7]),
    r: Result<[Double; 7], JointRefusal>,
    joint: int,
)
    requires
        joints_set(running, q, bounds, r),
        0 <= joint < 7,
    ensures
        r matches Ok(target) ==> {
            &&& target == q
            &&& running
            &&& q@[joint].finite()
            &&& bounds.0@[joint].value() <= target@[joint].value()
            &&& target@[joint].value() <= bounds.1@[joint].value()
        },
        (forall|i: int| 0 <= i < 7 ==> (#[trigger] q@[i]).finite()) && (q@[joint].value()
            < bounds.0@[joint].value() || q@[joint].value() > bounds.1@[joint].value())
            ==> (r matches Err(JointRefusal::Limit(first)) && first <= joint),
        r matches Err(JointRefusal::Limit(first)) ==> first < 7 && !(!bounds.0@[first as int].nan()
            && !bounds.1@[first as int].nan() && bounds.0@[first as int].value()
            <= q@[first as int].value() <= bounds.1@[first as int].value()),
        !q@[joint].finite() ==> r is Err && !(r matches Err(JointRefusal::Limit(_))),
        !running ==> r is Err,
        r matches Err(JointRefusal::Target(Refusal::Ended)) ==> !running,
        r matches Err(JointRefusal::Target(Refusal::NotFinite)) ==> running && exists|i: int|
            0 <= i < 7 && !(#[trigger] q@[i]).finite(),
{
    broadcast use double::group_order;

    if r is Ok {
        assert(target_control::within(q@, bounds, joint));
        assert(q@[joint].finite());
    }
    if let Err(JointRefusal::Limit(first)) = r {
        assert(q@[first as int].finite());
        assert(!target_control::within(q@, bounds, first as int));
        if first as int > joint {
            assert(target_control::within(q@, bounds, joint));
        }
    } else if control_types::all_finite(q@) {
        assert(target_control::within(q@, bounds, joint));
    }
}

/// The guard of a joint stream fires exactly where the largest distance from the start is above what
/// is allowed: then the target is frozen where the command is. Otherwise the runner has deviated only
/// if it had before.
pub proof fn law_guard_fires_beyond_the_deviation(cycle: JointCycle, distance: Double)
    requires
        cycle.wf(),
        cycle.stage is Measuring,
        cycle.control.runner.anchored,
        cycle.control.runner.hold is None,
    ensures
        ({
            let before = cycle.control.runner;
            let far = double::above(distance, cycle.control.max_deviation);
            &&& cycle.next(JointEvent::Measured(distance)) matches Progress::Continue(next, action)
            &&& next.stage matches JointStage::Running { cycle: run }
            &&& run.runner.deviated <==> before.deviated || far
            &&& far && !before.deviated ==> action == JointAction::Run(
                RunnerAction::Generate { target: cycle.echo, commanded: cycle.echo },
            )
            &&& before.deviated ==> action == JointAction::Run(
                RunnerAction::Generate { target: before.target, commanded: cycle.echo },
            )
            &&& !far && !before.deviated ==> action == JointAction::Run(RunnerAction::Load)
        }),
{
    broadcast use double::group_order;

}

/// The distance is measured from where the first cycle's command was, in every cycle.
pub proof fn law_start_is_the_first_echo(
    control: PositionLoop,
    echo: [Double; 7],
    stop: bool,
    upper: [Double; 7],
    lower: [Double; 7],
)
    ensures
        ({
            let cycle = control.begun(echo, stop, upper, lower);
            &&& control.start is None ==> cycle.awaiting() == (JointAction::Measure { start: echo })
                && cycle.control.start == Some(echo)
            &&& control.start matches Some(start) ==> cycle.awaiting() == (JointAction::Measure {
                start,
            }) && cycle.control.start == Some(start)
            &&& cycle.echo == echo
            &&& cycle.stop == stop
        }),
{
}

/// What goes out while nothing is held is the generator's position, or, where the rate limiter runs,
/// what the limiter makes of it; where that fails, the robot's echo, which moves nothing. The
/// observer is told the generator's target, velocity and acceleration and what went out.
pub proof fn law_moving_command(control: PositionLoop, e: JointEncounter)
    requires
        e.complete(),
        control.outcome(e) matches Some((after, _)) && after.runner.hold is None,
    ensures
        ({
            let (after, output) = control.outcome(e)->0;
            &&& !control.limit_rate ==> output.output.q == e.generated.position
            &&& control.limit_rate && e.limited is Some ==> Some(output.output.q) == e.limited
            &&& control.limit_rate && e.limited is None ==> output.output.q == e.echo
            &&& output.limited_from == if control.limit_rate {
                Some(e.generated.position)
            } else {
                None
            }
            &&& output.sent.q == output.output.q
            &&& output.sent.target == after.runner.target
            &&& output.sent.velocity == e.generated.velocity
            &&& output.sent.acceleration == e.generated.acceleration
            &&& after.start == Some(
                match control.start {
                    Some(start) => start,
                    None => e.echo,
                },
            )
        }),
{
}

/// The velocities that the limiter keeps a command under are within the robot's own and within the
/// generator's, on both sides, and are the widest that are.
pub proof fn law_limiter_keeps_both_velocity_limits(cycle: JointCycle, step: Step<7, 7>, i: int)
    requires
        cycle.stage == (JointStage::Limiting { step }),
        0 <= i < 7,
        !cycle.upper@[i].nan(),
        !cycle.lower@[i].nan(),
        !cycle.control.velocity@[i].nan(),
    ensures
        cycle.awaiting() matches JointAction::Limit { position, upper, lower } && {
            let v = cycle.control.velocity@[i].value();
            &&& position == step.position
            &&& upper@[i].value() <= cycle.upper@[i].value()
            &&& upper@[i].value() <= v
            &&& upper@[i].value() == cycle.upper@[i].value() || upper@[i].value() == v
            &&& lower@[i].value() >= cycle.lower@[i].value()
            &&& lower@[i].value() >= -v
            &&& lower@[i].value() == cycle.lower@[i].value() || lower@[i].value() == -v
        },
{
    let v = cycle.control.velocity@[i];
    double::law_signs(v);
    double::law_classes(v);
    double::law_extremes(cycle.upper@[i], v);
    double::law_extremes(cycle.lower@[i], v.opposite());
    assert(each_smaller(cycle.upper, cycle.control.velocity)@[i] == cycle.upper@[i].smaller(v));
    assert(each_larger_than_opposite(cycle.lower, cycle.control.velocity)@[i]
        == cycle.lower@[i].larger(v.opposite()));
}

/// What the observer sees of a joint command is the command, the target and the derivatives of the
/// step, how far the limiter moved it where it did, and nothing of a controller that did not run.
pub proof fn law_record_tells_the_step(step: Step<7, 7>, q: [Double; 7], output: JointOutput, moved: Double, i: int)
    requires
        0 <= i < 7,
    ensures
        ({
            let record = recorded(step, q);
            &&& record.q == q
            &&& record.target == step.target
            &&& record.velocity == step.velocity
            &&& record.acceleration == step.acceleration
            &&& record.backstop_alteration.bits == 0
            &&& record.leash_alteration.bits == 0
            &&& record.q_goal@[i].bits == 0
            &&& record.tau@[i].bits == 0
        }),
        output.observed(moved).backstop_alteration == if output.limited_from is Some {
            moved
        } else {
            Double { bits: 0 }
        },
        output.observed(moved) == (JointSent {
            backstop_alteration: output.observed(moved).backstop_alteration,
            ..output.sent
        }),
{
    robot_state::law_zeros::<7>();
}

} // verus!
