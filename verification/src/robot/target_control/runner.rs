//! The realtime side of target control, whatever the interface: anchoring, the mailbox, the
//! generator, the deviation guard, and the stop: land, hold the echo of the last command for the
//! settle window, finish on one more of it.
//!
//! The generator and the mailbox stand outside. A cycle asks for what it needs of them, one
//! [`RunnerAction`] after the other, and ends with the [`Step`] to send.
use crate::double::Double;
use crate::error;
use crate::error::{control_error, ErrorView, FrankaError};
use crate::robot::target_control::{Settle, DEVIATION_MESSAGE, STOP_TIMEOUT_CYCLES};
use crate::robot_state;
use crate::step::Progress;
use crate::double;
use vstd::prelude::*;

verus! {

/// A generator within the settle tolerance of its target and moving slower than this, per axis,
/// counts as landed: 1e-4 m/s or rad/s, as a bit pattern.
pub const REST_VELOCITY: u64 = 0x3f1a_36e2_eb1c_432d;

/// ... and accelerating less than this: 0.05 m/s^2 or rad/s^2, as a bit pattern.
pub const REST_ACCELERATION: u64 = 0x3fa9_9999_9999_999a;

/// An arm whose every joint moves slower than this is at rest: 0.01 rad/s, as a bit pattern.
pub const REST_JOINT_VELOCITY: u64 = 0x3f84_7ae1_47ae_147b;

/// What one cycle produced.
#[derive(Clone, Copy, PartialEq, Debug)]
pub struct Step<const N: usize, const S: usize> {
    pub position: [Double; N],
    pub velocity: [Double; N],
    pub acceleration: [Double; N],
    /// The target the generator was planning towards.
    pub target: [Double; S],
    /// The command is being held bit-identical; the backstop must not touch it.
    pub hold: bool,
    pub finished: bool,
}

/// The stop's final phase: the same position, sent `sent` times so far.
#[derive(Clone, Copy, PartialEq, Debug)]
pub struct Hold<const N: usize> {
    pub position: [Double; N],
    pub sent: u32,
}

/// What the generator says after its step.
#[derive(Clone, Copy, PartialEq, Debug)]
pub struct Generated<const N: usize> {
    pub position: [Double; N],
    pub velocity: [Double; N],
    pub acceleration: [Double; N],
    /// How far each axis is from its target.
    pub distance: [Double; N],
}

/// Whether an axis is within `tolerance` of its target and at rest.
pub open spec fn axis_landed(
    distance: Double,
    velocity: Double,
    acceleration: Double,
    tolerance: Double,
) -> bool {
    distance.lt(tolerance) && velocity.absolute().lt(Double { bits: REST_VELOCITY })
        && acceleration.absolute().lt(Double { bits: REST_ACCELERATION })
}

/// Whether every axis is within `tolerance` of its target and at rest.
pub open spec fn landed<const N: usize>(generated: Generated<N>, tolerance: Double) -> bool {
    forall|i: int|
        0 <= i < N ==> axis_landed(
            #[trigger] generated.distance@[i],
            generated.velocity@[i],
            generated.acceleration@[i],
            tolerance,
        )
}

impl<const N: usize> Generated<N> {
    /// Whether every axis is within `tolerance` of its target and at rest.
    pub fn has_landed(&self, tolerance: Double) -> (b: bool)
        ensures
            b == landed(*self, tolerance),
    {
        let mut i: usize = 0;
        while i < N
            invariant
                i <= N,
                forall|j: int|
                    0 <= j < i ==> axis_landed(
                        #[trigger] self.distance@[j],
                        self.velocity@[j],
                        self.acceleration@[j],
                        tolerance,
                    ),
            decreases N - i,
        {
            if !(self.distance[i].less(tolerance) && self.velocity[i].abs().less(
                Double { bits: REST_VELOCITY },
            ) && self.acceleration[i].abs().less(Double { bits: REST_ACCELERATION })) {
                return false;
            }
            i = i + 1;
        }
        true
    }
}

/// What a cycle wants of the generator and the mailbox.
#[derive(Clone, Copy, PartialEq, Debug)]
pub enum RunnerAction<const S: usize> {
    /// Put the generator at rest on the robot's echo, publish the echo as the first target, and
    /// tell whoever waits for the start that the loop runs; answered by
    /// [`RunnerEvent::Anchored`].
    Anchor { commanded: [Double; S] },
    /// Load the latest target; answered by [`RunnerEvent::Loaded`].
    Load,
    /// Anchor the generator on the echo, aim it at the target and step it one nominal cycle;
    /// answered by [`RunnerEvent::Generated`].
    Generate { target: [Double; S], commanded: [Double; S] },
}

/// What came of an action.
#[derive(Clone, Copy, PartialEq, Debug)]
pub enum RunnerEvent<const N: usize, const S: usize> {
    Anchored,
    /// The target, or `None` where the read was torn.
    Loaded(Option<[Double; S]>),
    Generated(Generated<N>),
}

/// Which answer a cycle waits for.
#[derive(Clone, Copy, PartialEq, Eq, Structural, Debug)]
pub enum Phase {
    Anchoring,
    Loading,
    Generating,
}

/// The state that a runner keeps from cycle to cycle.
#[derive(Clone, Copy, PartialEq, Debug)]
pub struct Runner<const N: usize, const S: usize> {
    pub settle: Settle,
    pub target: [Double; S],
    pub anchored: bool,
    pub deviated: bool,
    /// Cycles since the stop began.
    pub stop_cycles: u32,
    pub hold: Option<Hold<N>>,
}

/// A cycle that waits for an answer.
#[derive(Clone, Copy, PartialEq, Debug)]
pub struct RunnerCycle<const N: usize, const S: usize> {
    pub runner: Runner<N, S>,
    pub commanded: [Double; S],
    /// The coordinates of the generator that stands on `commanded`.
    pub anchor: [Double; N],
    /// Whether a stop was on when the cycle began.
    pub stopping: bool,
    pub phase: Phase,
}

/// The anchor and the goal of an interface whose mailbox and generator share their coordinates.
pub fn identity<const N: usize>(target: &[Double; N], commanded: &[Double; N]) -> (r: (
    [Double; N],
    [Double; N],
))
    ensures
        r == (*commanded, *target),
{
    (*commanded, *target)
}

/// One more, but never past the last number.
pub open spec fn counted(n: u32) -> u32 {
    if n == u32::MAX {
        n
    } else {
        (n + 1) as u32
    }
}

/// What the count of held commands says after `n` of them.
pub open spec fn held_cycles(n: int) -> int {
    if n < u32::MAX {
        n
    } else {
        u32::MAX as int
    }
}

impl<const N: usize, const S: usize> Runner<N, S> {
    /// A runner that has not run.
    pub open spec fn fresh(settle: Settle) -> Self {
        Runner {
            settle,
            target: robot_state::zeros(),
            anchored: false,
            deviated: false,
            stop_cycles: 0,
            hold: None,
        }
    }

    /// A runner that has not run.
    pub fn new(settle: Settle) -> (runner: Self)
        ensures
            runner == Self::fresh(settle),
    {
        Runner {
            settle,
            target: [Double { bits: 0 }; S],
            anchored: false,
            deviated: false,
            stop_cycles: 0,
            hold: None,
        }
    }

    /// One more of the held command.
    pub open spec fn holding(self, hold: Hold<N>) -> (Self, Step<N, S>) {
        let sent = counted(hold.sent);
        (
            Runner { hold: Some(Hold { sent, ..hold }), ..self },
            Step {
                position: hold.position,
                velocity: robot_state::zeros(),
                acceleration: robot_state::zeros(),
                target: self.target,
                hold: true,
                finished: sent > self.settle.cycles,
            },
        )
    }

    /// How a cycle begins, with the robot's echo of the last command, the generator's coordinates of
    /// it, whether the deviation guard's threshold is crossed, and whether a stop was asked for.
    pub open spec fn begun(
        self,
        commanded: [Double; S],
        anchor: [Double; N],
        strayed: bool,
        stop: bool,
    ) -> Progress<RunnerCycle<N, S>, RunnerAction<S>, (Self, Step<N, S>)> {
        let stopping = self.deviated || stop;
        match self.hold {
            Some(hold) => Progress::Done(self.holding(hold)),
            None => {
                let cycle = if !self.anchored {
                    RunnerCycle {
                        runner: Runner { anchored: true, target: commanded, ..self },
                        commanded,
                        anchor,
                        stopping,
                        phase: Phase::Anchoring,
                    }
                } else if self.deviated {
                    RunnerCycle { runner: self, commanded, anchor, stopping, phase: Phase::Generating }
                } else if strayed {
                    RunnerCycle {
                        runner: Runner { deviated: true, target: commanded, ..self },
                        commanded,
                        anchor,
                        stopping,
                        phase: Phase::Generating,
                    }
                } else {
                    RunnerCycle { runner: self, commanded, anchor, stopping, phase: Phase::Loading }
                };
                Progress::Continue(cycle, cycle.awaiting())
            },
        }
    }

    /// Begins a cycle: `commanded` is the robot's echo of the last command, `anchor` the generator's
    /// coordinates of it, `strayed` whether the deviation guard's threshold is crossed and `stop`
    /// whether a stop was asked for, which is to be read before the mailbox so that a target
    /// published before the stop is never missed.
    pub fn cycle(self, commanded: [Double; S], anchor: [Double; N], strayed: bool, stop: bool) -> (
    progress: Progress<RunnerCycle<N, S>, RunnerAction<S>, (Self, Step<N, S>)>)
        ensures
            progress == self.begun(commanded, anchor, strayed, stop),
    {
        let stopping = self.deviated || stop;
        let mut runner = self;
        match self.hold {
            Some(hold) => {
                let sent: u32 = hold.sent.saturating_add(1);
                runner.hold = Some(Hold { sent, ..hold });
                let step = Step {
                    position: hold.position,
                    velocity: [Double { bits: 0 }; N],
                    acceleration: [Double { bits: 0 }; N],
                    target: self.target,
                    hold: true,
                    finished: sent > self.settle.cycles,
                };
                Progress::Done((runner, step))
            },
            None => {
                let phase = if !self.anchored {
                    runner.anchored = true;
                    runner.target = commanded;
                    Phase::Anchoring
                } else if self.deviated {
                    Phase::Generating
                } else if strayed {
                    runner.deviated = true;
                    runner.target = commanded;
                    Phase::Generating
                } else {
                    Phase::Loading
                };
                let cycle = RunnerCycle { runner, commanded, anchor, stopping, phase };
                Progress::Continue(cycle, cycle.action())
            },
        }
    }

    /// How a cycle ends once the generator has stepped: a stop that has landed, or is out of
    /// patience, holds the robot's echo of the last command.
    pub open spec fn stepped(
        self,
        stopping: bool,
        anchor: [Double; N],
        generated: Generated<N>,
    ) -> (Self, Step<N, S>) {
        let moving = Step {
            position: generated.position,
            velocity: generated.velocity,
            acceleration: generated.acceleration,
            target: self.target,
            hold: false,
            finished: false,
        };
        if stopping || self.deviated {
            let stop_cycles = counted(self.stop_cycles);
            if landed(generated, self.settle.tolerance) || stop_cycles >= STOP_TIMEOUT_CYCLES {
                (
                    Runner {
                        stop_cycles,
                        hold: Some(Hold { position: anchor, sent: 1 }),
                        ..self
                    },
                    Step {
                        position: anchor,
                        velocity: robot_state::zeros(),
                        acceleration: robot_state::zeros(),
                        target: self.target,
                        hold: true,
                        finished: false,
                    },
                )
            } else {
                (Runner { stop_cycles, ..self }, moving)
            }
        } else {
            (self, moving)
        }
    }

    /// The loop's result: a regular end after the deviation guard fired is the error it is.
    pub open spec fn concluded(self, result: Result<(), ErrorView>) -> Result<(), ErrorView> {
        if result is Ok && self.deviated {
            Err(error::bare_control(DEVIATION_MESSAGE@))
        } else {
            result
        }
    }

    /// The loop's result: a regular end after the deviation guard fired is the error it is.
    pub fn finish(&self, result: Result<(), FrankaError>) -> (r: Result<(), FrankaError>)
        ensures
            error::seen(r) == self.concluded(error::seen(result)),
    {
        if result.is_ok() && self.deviated {
            Err(control_error(DEVIATION_MESSAGE))
        } else {
            result
        }
    }
}

impl<const N: usize, const S: usize> RunnerCycle<N, S> {
    /// What the cycle waits for.
    pub open spec fn awaiting(self) -> RunnerAction<S> {
        match self.phase {
            Phase::Anchoring => RunnerAction::Anchor { commanded: self.commanded },
            Phase::Loading => RunnerAction::Load,
            Phase::Generating => RunnerAction::Generate {
                target: self.runner.target,
                commanded: self.commanded,
            },
        }
    }

    /// What the cycle waits for.
    pub fn action(&self) -> (action: RunnerAction<S>)
        ensures
            action == self.awaiting(),
    {
        match self.phase {
            Phase::Anchoring => RunnerAction::Anchor { commanded: self.commanded },
            Phase::Loading => RunnerAction::Load,
            Phase::Generating => RunnerAction::Generate {
                target: self.runner.target,
                commanded: self.commanded,
            },
        }
    }

    /// Whether an event is an answer to what the cycle waits for.
    pub open spec fn answered(self, event: RunnerEvent<N, S>) -> bool {
        match self.phase {
            Phase::Anchoring => event is Anchored,
            Phase::Loading => event is Loaded,
            Phase::Generating => event is Generated,
        }
    }

    /// Whether an event is an answer to what the cycle waits for.
    pub fn answered_by(&self, event: &RunnerEvent<N, S>) -> (b: bool)
        ensures
            b == self.answered(*event),
    {
        match event {
            RunnerEvent::Anchored => matches!(self.phase, Phase::Anchoring),
            RunnerEvent::Loaded(_) => matches!(self.phase, Phase::Loading),
            RunnerEvent::Generated(_) => matches!(self.phase, Phase::Generating),
        }
    }

    /// Where the cycle stands after an event. A torn read keeps the previous target for this one
    /// cycle; a stop, which no publish can follow, waits for the final one.
    pub open spec fn next(self, event: RunnerEvent<N, S>) -> Progress<
        RunnerCycle<N, S>,
        RunnerAction<S>,
        (Runner<N, S>, Step<N, S>),
    > {
        let on = |cycle: RunnerCycle<N, S>| Progress::Continue(cycle, cycle.awaiting());
        match event {
            RunnerEvent::Anchored => on(RunnerCycle { phase: Phase::Generating, ..self }),
            RunnerEvent::Loaded(Some(target)) => on(
                RunnerCycle {
                    runner: Runner { target, ..self.runner },
                    phase: Phase::Generating,
                    ..self
                },
            ),
            RunnerEvent::Loaded(None) => if self.stopping {
                on(self)
            } else {
                on(RunnerCycle { phase: Phase::Generating, ..self })
            },
            RunnerEvent::Generated(generated) => Progress::Done(
                self.runner.stepped(self.stopping, self.anchor, generated),
            ),
        }
    }

    /// Goes on with the answer to what the cycle waits for.
    pub fn resume(self, event: RunnerEvent<N, S>) -> (progress: Progress<
        RunnerCycle<N, S>,
        RunnerAction<S>,
        (Runner<N, S>, Step<N, S>),
    >)
        requires
            self.answered(event),
        ensures
            progress == self.next(event),
    {
        let mut cycle = self;
        match event {
            RunnerEvent::Anchored => {
                cycle.phase = Phase::Generating;
            },
            RunnerEvent::Loaded(Some(target)) => {
                cycle.runner.target = target;
                cycle.phase = Phase::Generating;
            },
            RunnerEvent::Loaded(None) => {
                if !self.stopping {
                    cycle.phase = Phase::Generating;
                }
            },
            RunnerEvent::Generated(generated) => {
                return Progress::Done(cycle.generated(generated));
            },
        }
        Progress::Continue(cycle, cycle.action())
    }

    /// Ends the cycle with what the generator says.
    fn generated(self, generated: Generated<N>) -> (r: (Runner<N, S>, Step<N, S>))
        ensures
            r == self.runner.stepped(self.stopping, self.anchor, generated),
    {
        let mut runner = self.runner;
        if self.stopping || runner.deviated {
            runner.stop_cycles = runner.stop_cycles.saturating_add(1);
            if generated.has_landed(runner.settle.tolerance) || runner.stop_cycles
                >= STOP_TIMEOUT_CYCLES {
                runner.hold = Some(Hold { position: self.anchor, sent: 1 });
                let step = Step {
                    position: self.anchor,
                    velocity: [Double { bits: 0 }; N],
                    acceleration: [Double { bits: 0 }; N],
                    target: runner.target,
                    hold: true,
                    finished: false,
                };
                return (runner, step);
            }
        }
        let step = Step {
            position: generated.position,
            velocity: generated.velocity,
            acceleration: generated.acceleration,
            target: runner.target,
            hold: false,
            finished: false,
        };
        (runner, step)
    }
}

/// What a runner meets in one cycle.
pub struct Encounter<const N: usize, const S: usize> {
    /// The robot's echo of the last command.
    pub commanded: [Double; S],
    /// The generator's coordinates of it.
    pub anchor: [Double; N],
    /// Whether the deviation guard's threshold is crossed.
    pub strayed: bool,
    /// Whether a stop was asked for.
    pub stop: bool,
    /// The target that the mailbox gave, where it gave one.
    pub loaded: Option<[Double; S]>,
    /// What the generator said.
    pub generated: Generated<N>,
}

impl<const N: usize, const S: usize> Runner<N, S> {
    /// What a whole cycle leads to.
    pub open spec fn cycled(self, encounter: Encounter<N, S>) -> (Self, Step<N, S>) {
        match self.begun(
            encounter.commanded,
            encounter.anchor,
            encounter.strayed,
            encounter.stop,
        ) {
            Progress::Done(end) => end,
            Progress::Continue(cycle, _) => {
                let generating = match cycle.phase {
                    Phase::Anchoring => cycle.next(RunnerEvent::Anchored),
                    Phase::Loading => cycle.next(RunnerEvent::Loaded(encounter.loaded)),
                    Phase::Generating => Progress::Continue(cycle, cycle.awaiting()),
                };
                match generating {
                    Progress::Continue(cycle, _) => match cycle.next(
                        RunnerEvent::Generated(encounter.generated),
                    ) {
                        Progress::Done(end) => end,
                        Progress::Continue(cycle, _) => cycle.runner.stepped(
                            cycle.stopping,
                            cycle.anchor,
                            encounter.generated,
                        ),
                    },
                    Progress::Done(end) => end,
                }
            },
        }
    }

    /// The runner after many cycles.
    pub open spec fn after(self, encounters: Seq<Encounter<N, S>>) -> Self
        decreases encounters.len(),
    {
        if encounters.len() == 0 {
            self
        } else {
            self.after(encounters.drop_last()).cycled(encounters.last()).0
        }
    }

    /// The step of the cycle number `k` of many.
    pub open spec fn step(self, encounters: Seq<Encounter<N, S>>, k: int) -> Step<N, S> {
        self.after(encounters.take(k)).cycled(encounters[k]).1
    }
}

/// Once the deviation guard has fired, the target stays frozen, whatever the mailbox holds.
pub proof fn law_deviation_freezes_the_target<const N: usize, const S: usize>(
    runner: Runner<N, S>,
    encounters: Seq<Encounter<N, S>>,
)
    requires
        runner.anchored,
        runner.deviated,
    ensures
        runner.after(encounters).anchored,
        runner.after(encounters).deviated,
        runner.after(encounters).target == runner.target,
    decreases encounters.len(),
{
    if encounters.len() > 0 {
        law_deviation_freezes_the_target(runner, encounters.drop_last());
    }
}

/// The first cycle anchors on the robot's echo: the target is the echo and nothing is held.
pub proof fn law_first_cycle_anchors<const N: usize, const S: usize>(
    settle: Settle,
    encounter: Encounter<N, S>,
)
    ensures
        Runner::<N, S>::fresh(settle).cycled(encounter).0.anchored,
        Runner::<N, S>::fresh(settle).cycled(encounter).0.target == encounter.commanded,
        Runner::<N, S>::fresh(settle).cycled(encounter).1.target == encounter.commanded,
        Runner::<N, S>::fresh(settle).begun(
            encounter.commanded,
            encounter.anchor,
            encounter.strayed,
            encounter.stop,
        ) matches Progress::Continue(cycle, action) && action == (RunnerAction::Anchor {
            commanded: encounter.commanded,
        }),
{
}

/// How a runner and its last steps belong together: what is held now is what the last steps were.
proof fn lemma_hold_is_what_was_sent<const N: usize, const S: usize>(
    settle: Settle,
    encounters: Seq<Encounter<N, S>>,
)
    ensures
        ({
            let start = Runner::<N, S>::fresh(settle);
            let now = start.after(encounters);
            &&& now.settle == settle
            &&& now.hold matches Some(hold) ==> {
                &&& 1 <= hold.sent
                &&& hold.sent <= encounters.len()
                &&& forall|k: int|
                    0 <= k < encounters.len() && encounters.len() - hold.sent <= k ==> {
                        let step = #[trigger] start.step(encounters, k);
                        step.hold && step.position == hold.position && step.velocity
                            == robot_state::zeros::<N>() && step.acceleration
                            == robot_state::zeros::<N>() && step.target == now.target
                    }
            }
        }),
    decreases encounters.len(),
{
    if encounters.len() > 0 {
        let start = Runner::<N, S>::fresh(settle);
        let earlier = encounters.drop_last();
        lemma_hold_is_what_was_sent(settle, earlier);
        let before = start.after(earlier);
        let now = start.after(encounters);
        assert(encounters.take(encounters.len() - 1) =~= earlier);
        assert(start.step(encounters, encounters.len() - 1) == before.cycled(encounters.last()).1);
        assert forall|k: int| 0 <= k < earlier.len() implies start.step(encounters, k) == start.step(
            earlier,
            k,
        ) by {
            assert(encounters.take(k) =~= earlier.take(k));
        }
        if now.hold is Some && before.hold is Some {
            let hold = now.hold->0;
            assert forall|k: int|
                0 <= k < encounters.len() && encounters.len() - hold.sent <= k implies ({
                let step = #[trigger] start.step(encounters, k);
                step.hold && step.position == hold.position && step.velocity == robot_state::zeros::<
                    N,
                >() && step.acceleration == robot_state::zeros::<N>() && step.target == now.target
            }) by {
                if k < earlier.len() {
                    assert(start.step(encounters, k) == start.step(earlier, k));
                }
            }
        }
    }
}

/// A stop never finishes on a moving command: the step that finishes the motion and the
/// `settle.cycles` before it are one and the same command, at rest, bit for bit.
pub proof fn law_finish_is_at_rest<const N: usize, const S: usize>(
    settle: Settle,
    encounters: Seq<Encounter<N, S>>,
)
    requires
        encounters.len() > 0,
        Runner::<N, S>::fresh(settle).step(encounters, encounters.len() - 1).finished,
    ensures
        encounters.len() > settle.cycles,
        forall|k: int|
            encounters.len() - settle.cycles - 1 <= k < encounters.len() ==> {
                let step = #[trigger] Runner::<N, S>::fresh(settle).step(encounters, k);
                let last = Runner::<N, S>::fresh(settle).step(encounters, encounters.len() - 1);
                step.hold && step.position == last.position && step.target == last.target
                    && step.velocity == robot_state::zeros::<N>() && step.acceleration
                    == robot_state::zeros::<N>()
            },
{
    let start = Runner::<N, S>::fresh(settle);
    lemma_hold_is_what_was_sent(settle, encounters);
    lemma_hold_is_what_was_sent(settle, encounters.drop_last());
    assert(encounters.take(encounters.len() - 1) =~= encounters.drop_last());
    let last = start.step(encounters, encounters.len() - 1);
    let hold = start.after(encounters).hold->0;
    assert(start.after(encounters).hold is Some);
    assert(hold.sent > settle.cycles);
}

/// Whether a stop is on in every one of many cycles: it was asked for and the mailbox gives what it
/// holds, or the deviation guard has fired, or fires in the first of them.
pub open spec fn stopping<const N: usize, const S: usize>(
    runner: Runner<N, S>,
    encounters: Seq<Encounter<N, S>>,
) -> bool {
    ||| forall|k: int|
        0 <= k < encounters.len() ==> (#[trigger] encounters[k]).stop && encounters[k].loaded is Some
    ||| runner.anchored && (runner.deviated || (encounters.len() > 0 && encounters[0].strayed))
}

/// How far a stop has come after so many cycles of it.
proof fn lemma_stop_progresses<const N: usize, const S: usize>(
    runner: Runner<N, S>,
    encounters: Seq<Encounter<N, S>>,
)
    requires
        runner.hold is None,
        stopping(runner, encounters) || encounters.len() == 0,
        encounters.len() < u32::MAX,
    ensures
        runner.after(encounters).settle == runner.settle,
        runner.anchored ==> runner.after(encounters).anchored,
        runner.anchored && (runner.deviated || (encounters.len() > 0 && encounters[0].strayed))
            ==> encounters.len() == 0 || runner.after(encounters).deviated,
        runner.after(encounters).hold matches Some(hold) ==> hold.sent >= 1 && hold.sent
            + STOP_TIMEOUT_CYCLES > encounters.len(),
        runner.after(encounters).hold is None ==> runner.after(encounters).stop_cycles
            >= encounters.len() && encounters.len() < STOP_TIMEOUT_CYCLES,
    decreases encounters.len(),
{
    if encounters.len() > 0 {
        let earlier = encounters.drop_last();
        if forall|k: int|
            0 <= k < encounters.len() ==> (#[trigger] encounters[k]).stop && encounters[k].loaded
                is Some {
            assert(encounters.last().stop && encounters.last().loaded is Some);
            assert forall|k: int| 0 <= k < earlier.len() implies (#[trigger] earlier[k]).stop
                && earlier[k].loaded is Some by {
                assert(encounters[k].stop);
            }
        }
        if earlier.len() > 0 {
            assert(earlier[0] == encounters[0]);
        }
        lemma_stop_progresses(runner, earlier);
    }
}

/// A stop always ends: whatever the generator does, the motion is finished after at most
/// [`STOP_TIMEOUT_CYCLES`] cycles of landing and the cycles of the settle window.
pub proof fn law_stop_ends<const N: usize, const S: usize>(
    runner: Runner<N, S>,
    encounters: Seq<Encounter<N, S>>,
)
    requires
        runner.hold is None,
        stopping(runner, encounters),
        encounters.len() == STOP_TIMEOUT_CYCLES + runner.settle.cycles,
        encounters.len() < u32::MAX,
        runner.settle.cycles > 0,
    ensures
        runner.step(encounters, encounters.len() - 1).finished,
{
    let earlier = encounters.drop_last();
    assert(encounters.take(encounters.len() - 1) =~= earlier);
    if forall|k: int|
        0 <= k < encounters.len() ==> (#[trigger] encounters[k]).stop && encounters[k].loaded
            is Some {
        assert forall|k: int| 0 <= k < earlier.len() implies (#[trigger] earlier[k]).stop
            && earlier[k].loaded is Some by {
            assert(encounters[k].stop);
        }
    } else {
        assert(earlier[0] == encounters[0]);
    }
    lemma_stop_progresses(runner, earlier);
}

/// The deviation guard ends the motion by itself: from the cycle in which it fires, and without a
/// stop ever being asked for, the motion is brought to rest, held and finished within the time of
/// any stop, and the loop's regular end is the guard's error.
pub proof fn law_deviation_ends<const N: usize, const S: usize>(
    runner: Runner<N, S>,
    encounters: Seq<Encounter<N, S>>,
)
    requires
        runner.anchored,
        runner.hold is None,
        encounters.len() > 0,
        runner.deviated || encounters[0].strayed,
        encounters.len() == STOP_TIMEOUT_CYCLES + runner.settle.cycles,
        encounters.len() < u32::MAX,
        runner.settle.cycles > 0,
    ensures
        runner.step(encounters, encounters.len() - 1).finished,
        runner.step(encounters, encounters.len() - 1).hold,
        runner.after(encounters).deviated,
        !runner.deviated ==> runner.after(encounters).target == encounters[0].commanded,
        runner.deviated ==> runner.after(encounters).target == runner.target,
        runner.after(encounters).concluded(Ok(())) == Err::<(), ErrorView>(
            error::bare_control(DEVIATION_MESSAGE@),
        ),
{
    law_stop_ends(runner, encounters);
    lemma_stop_progresses(runner, encounters);
    if runner.deviated {
        law_deviation_freezes_the_target(runner, encounters);
    } else {
        let first = encounters.take(1);
        assert(first.drop_last() =~= Seq::empty());
        assert(runner.after(first.drop_last()) == runner);
        assert(first.last() == encounters[0]);
        let fired = runner.after(first);
        assert(fired.deviated && fired.anchored && fired.target == encounters[0].commanded);
        law_deviation_freezes_the_target(fired, encounters.skip(1));
        lemma_after_concatenates(runner, first, encounters.skip(1));
        assert(first + encounters.skip(1) =~= encounters);
    }
}

/// Many cycles and then many others are all of them in a row.
proof fn lemma_after_concatenates<const N: usize, const S: usize>(
    runner: Runner<N, S>,
    a: Seq<Encounter<N, S>>,
    b: Seq<Encounter<N, S>>,
)
    ensures
        runner.after(a + b) == runner.after(a).after(b),
    decreases b.len(),
{
    if b.len() > 0 {
        lemma_after_concatenates(runner, a, b.drop_last());
        assert((a + b).drop_last() =~= a + b.drop_last());
        assert((a + b).last() == b.last());
    } else {
        assert(a + b =~= a);
    }
}

/// A cycle that runs on takes the target that the mailbox gave and plans toward it from the robot's
/// echo; where the read was torn it keeps the one it had. A stop does not plan before it has read the
/// last target.
pub proof fn law_cycle_follows_the_mailbox<const N: usize, const S: usize>(
    runner: Runner<N, S>,
    e: Encounter<N, S>,
)
    requires
        runner.anchored,
        runner.hold is None,
        !runner.deviated,
        !e.strayed,
    ensures
        runner.begun(e.commanded, e.anchor, e.strayed, e.stop) matches Progress::Continue(cycle, action)
            && action is Load && {
            let next = cycle.next(RunnerEvent::Loaded(e.loaded));
            &&& e.loaded matches Some(target) ==> next matches Progress::Continue(planning, wanted)
                && wanted == (RunnerAction::Generate { target, commanded: e.commanded })
                && planning.runner.target == target
            &&& e.loaded is None && !e.stop ==> (next matches Progress::Continue(planning, wanted)
                && wanted == RunnerAction::Generate {
                target: runner.target,
                commanded: e.commanded,
            })
            &&& e.loaded is None && e.stop ==> (next matches Progress::Continue(_, wanted)
                && wanted is Load)
        },
        e.loaded matches Some(target) ==> runner.cycled(e).0.target == target && runner.cycled(
            e,
        ).1.target == target,
        e.loaded is None ==> runner.cycled(e).0.target == runner.target,
{
}

/// Without a stop and inside the guard a runner never holds and never finishes: what goes out is what
/// the generator says, and nothing counts toward a stop.
pub proof fn law_running_moves_with_the_generator<const N: usize, const S: usize>(
    runner: Runner<N, S>,
    e: Encounter<N, S>,
)
    requires
        runner.hold is None,
        !e.stop,
        !runner.deviated,
        !(runner.anchored && e.strayed),
    ensures
        ({
            let (after, step) = runner.cycled(e);
            &&& !step.hold
            &&& !step.finished
            &&& step.position == e.generated.position
            &&& step.velocity == e.generated.velocity
            &&& step.acceleration == e.generated.acceleration
            &&& after.hold is None
            &&& after.stop_cycles == runner.stop_cycles
            &&& !after.deviated
        }),
{
}

/// Whether every axis of the generator is nearer its target than the tolerance and all but at rest:
/// slower than 1e-4 and accelerating less than 0.05.
pub open spec fn at_rest_on_target<const N: usize>(generated: Generated<N>, tolerance: Double) -> bool {
    forall|i: int|
        0 <= i < N ==> {
            &&& double::above(tolerance, #[trigger] generated.distance@[i])
            &&& double::above(Double { bits: 0x3f1a_36e2_eb1c_432d }, generated.velocity@[i].absolute())
            &&& double::above(
                Double { bits: 0x3fa9_9999_9999_999a },
                generated.acceleration@[i].absolute(),
            )
        }
}

/// Landed is every axis within the tolerance, slow and barely accelerating, on the order of the
/// numbers: one axis that is not keeps the whole from having landed.
pub proof fn law_landed_is_every_axis<const N: usize>(generated: Generated<N>, tolerance: Double)
    ensures
        landed(generated, tolerance) == at_rest_on_target(generated, tolerance),
{
    broadcast use double::group_order;

    if landed(generated, tolerance) {
        assert forall|i: int| 0 <= i < N implies double::above(
            tolerance,
            #[trigger] generated.distance@[i],
        ) && double::above(Double { bits: REST_VELOCITY }, generated.velocity@[i].absolute())
            && double::above(
            Double { bits: REST_ACCELERATION },
            generated.acceleration@[i].absolute(),
        ) by {
            assert(axis_landed(
                generated.distance@[i],
                generated.velocity@[i],
                generated.acceleration@[i],
                tolerance,
            ));
        }
    }
    if at_rest_on_target(generated, tolerance) {
        assert forall|i: int| 0 <= i < N implies axis_landed(
            #[trigger] generated.distance@[i],
            generated.velocity@[i],
            generated.acceleration@[i],
            tolerance,
        ) by {
            assert(double::above(tolerance, generated.distance@[i]));
        }
    }
}

/// A stop begins to hold exactly when the generator has landed, or in the cycle number 5000 of the
/// stop if it never does. Until then the generator's steps go out, each of which counts; what is held
/// is the robot's echo.
pub proof fn law_stop_holds_when_landed<const N: usize, const S: usize>(
    runner: Runner<N, S>,
    e: Encounter<N, S>,
)
    requires
        runner.hold is None,
        e.stop || runner.deviated || (runner.anchored && e.strayed),
        !runner.anchored || runner.deviated || e.strayed || e.loaded is Some,
        runner.stop_cycles < u32::MAX,
    ensures
        ({
            let (after, step) = runner.cycled(e);
            let holds = at_rest_on_target(e.generated, runner.settle.tolerance)
                || runner.stop_cycles + 1 >= 5000;
            &&& step.hold <==> holds
            &&& after.hold is Some <==> holds
            &&& holds ==> step.position == e.anchor && after.hold == Some(
                Hold { position: e.anchor, sent: 1 },
            )
            &&& !holds ==> step.position == e.generated.position && step.velocity
                == e.generated.velocity
            &&& !step.finished
            &&& after.stop_cycles == runner.stop_cycles + 1
        }),
{
    law_landed_is_every_axis(e.generated, runner.settle.tolerance);
}

/// A hold sends the same command again, at rest, and asks for nothing; it finishes the motion once it
/// has been sent more often than the settle window has cycles.
pub proof fn law_hold_repeats_the_command<const N: usize, const S: usize>(
    runner: Runner<N, S>,
    e: Encounter<N, S>,
)
    requires
        runner.hold is Some,
        runner.hold->0.sent < u32::MAX,
    ensures
        ({
            let (after, step) = runner.cycled(e);
            let hold = runner.hold->0;
            &&& step.hold
            &&& step.position == hold.position
            &&& step.finished <==> hold.sent + 1 > runner.settle.cycles
            &&& after.hold == Some(Hold { position: hold.position, sent: (hold.sent + 1) as u32 })
            &&& after.target == runner.target
            &&& runner.begun(e.commanded, e.anchor, e.strayed, e.stop) is Done
            &&& forall|i: int|
                0 <= i < N ==> (#[trigger] step.velocity@[i]).value() == 0 && step.acceleration@[i].value()
                    == 0
        }),
{
    robot_state::law_zeros::<N>();
}

/// The deviation guard fires for good: it freezes the target where the command is, and the loop's
/// regular end is then its error, while an error of the loop stays what it is.
pub proof fn law_guard_is_for_good<const N: usize, const S: usize>(
    runner: Runner<N, S>,
    e: Encounter<N, S>,
    failure: ErrorView,
)
    requires
        runner.anchored,
        runner.hold is None,
        e.strayed || runner.deviated,
    ensures
        ({
            let after = runner.cycled(e).0;
            &&& after.deviated
            &&& !runner.deviated ==> after.target == e.commanded
            &&& runner.deviated ==> after.target == runner.target
            &&& after.concluded(Ok(())) is Err
            &&& after.concluded(Err(failure)) == Err::<(), ErrorView>(failure)
        }),
        !runner.deviated ==> runner.concluded(Ok(())) is Ok,
{
}

} // verus!
