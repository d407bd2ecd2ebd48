//! One cycle of the inverse kinematics: a few solves toward the pose inside the cycle's box, the
//! backstop, the pins and the stall flag.
//!
//! The first solve always runs and carries the posture bias; the remaining ones refine the pose
//! until the residual is below the tolerance. While a limit stalls the goal each iteration solves
//! twice, the translation first. A solve that is not finite undoes the whole cycle. The linear
//! algebra and the arm's kinematics stand outside.
use crate::double::Double;
use crate::robot::target_control::ik::active_set::Found;
use crate::robot::target_control::ik::stall;
use crate::robot::target_control::ik::stall::{Block, Stall, WALL_FLOOR};
use crate::robot::target_control::ik::IkOptions;
use crate::robot::target_control::position::CycleBox;
use crate::step::Progress;
use crate::double;
use vstd::prelude::*;

verus! {

/// One, as a bit pattern.
pub const ONE: u64 = 0x3ff0_0000_0000_0000;

/// The backstop's scale below which it is a real cut and not rounding: a billionth under one, as a
/// bit pattern.
pub const REAL_CUT: u64 = 0x3fef_ffff_ff76_8fa1;

/// The state that the inverse kinematics keep from cycle to cycle.
#[derive(Clone, Copy, PartialEq, Debug)]
pub struct Ik {
    pub options: IkOptions,
    /// The solution of the last cycle, where the next one starts.
    pub q: [Double; 7],
    /// The active set of the weighted solve.
    pub act: [i8; 7],
    /// The active set of the position stage, warm across its solves.
    pub position_act: [i8; 7],
    /// The pins of the last cycle: zero free, one on a position bound, two on a velocity bound.
    pub pinned: [i8; 7],
    pub stall: Stall,
    /// Active-set passes of the last cycle, over its iterations.
    pub passes: u32,
    /// The largest raw step over the cycle's solves, and what that same solve's clip took off.
    pub step_norm: Double,
    pub clipped_norm: Double,
    /// The scale the backstop cut the last cycle by; one when it did not.
    pub cap_scale: Double,
}

/// Which task is solved.
#[derive(Clone, Copy, PartialEq, Eq, Structural, Debug)]
pub enum Task {
    /// The whole task, weighted.
    Weighted,
    /// The translation alone.
    Position,
    /// The whole task with the translation held.
    Held,
}

/// What came of a solve.
#[derive(Clone, Copy, PartialEq, Debug)]
pub struct Solution {
    pub found: Found,
    /// Norm of the step before the box clip.
    pub step: Double,
    /// Norm of what the box clip took off it.
    pub clipped: Double,
}

/// What a cycle wants.
#[derive(Clone, Copy, PartialEq, Debug)]
pub enum IkAction {
    /// A step from `q` on a task inside what is left of the box, from an active set; with the
    /// posture bias in the first iteration. Answered by [`IkEvent::Solved`].
    Solve { task: Task, q: [Double; 7], act: [i8; 7], first: bool },
    /// Where the iteration's steps lead from `q`; answered by [`IkEvent::Moved`].
    Move { q: [Double; 7] },
    /// The weighted residual at `q`; answered by [`IkEvent::Measured`].
    Measure { q: [Double; 7] },
    /// The goal's step scaled under the velocity limit; answered by [`IkEvent::Scaled`].
    Backstop { goal: [Double; 7] },
    /// How the residual at `goal` pushes the pins; answered by [`IkEvent::Pressed`].
    Press { goal: [Double; 7], pinned: [i8; 7] },
}

/// What came of an action.
#[derive(Clone, Copy, PartialEq, Debug)]
pub enum IkEvent {
    Solved(Solution),
    Moved([Double; 7]),
    Measured(Double),
    Scaled { cut: [Double; 7], scale: Double },
    Pressed { whole: [Double; 7], part: [Double; 7], pushed: Double, blocks: [Option<Block>; 2] },
}

/// Which answer a cycle waits for.
#[derive(Clone, Copy, PartialEq, Eq, Structural, Debug)]
pub enum IkStage {
    Solving { task: Task },
    Moving,
    /// The residual between two iterations.
    Refining,
    /// The residual of the goal that is kept after a solve failed.
    Undoing,
    Backstopping,
    /// The residual of the goal.
    Closing,
    Pressing,
}

/// A cycle that waits for an answer.
#[derive(Clone, Copy, PartialEq, Debug)]
pub struct IkCycle {
    pub ik: Ik,
    /// The active sets to go back to when a solve fails.
    pub saved_act: [i8; 7],
    pub saved_position_act: [i8; 7],
    pub bounds: CycleBox,
    /// Whether position comes first, in part or in whole.
    pub blended: bool,
    pub iteration: u32,
    /// Where the iterations stand, then the goal.
    pub goal: [Double; 7],
    /// The residual at `goal`, where it is known.
    pub residual: Option<Double>,
    pub stage: IkStage,
}

impl Ik {
    /// The inverse kinematics before their first cycle.
    pub fn new(options: IkOptions, q: [Double; 7]) -> (ik: Ik)
        ensures
            ik.options == options,
            ik.q == q,
            forall|i: int| 0 <= i < 7 ==> ik.act@[i] == 0 && ik.position_act@[i] == 0 && ik.pinned@[i] == 0,
            ik.stall == Stall::none(),
            ik.passes == 0,
            ik.step_norm.bits == 0,
            ik.clipped_norm.bits == 0,
            ik.cap_scale.bits == ONE,
    {
        Ik {
            options,
            q,
            act: [0i8; 7],
            position_act: [0i8; 7],
            pinned: [0i8; 7],
            stall: Stall::default(),
            passes: 0,
            step_norm: Double { bits: 0 },
            clipped_norm: Double { bits: 0 },
            cap_scale: Double { bits: ONE },
        }
    }

    /// The state with nothing counted of the cycle.
    pub open spec fn uncounted(self) -> Ik {
        Ik { passes: 0, step_norm: Double { bits: 0 }, clipped_norm: Double { bits: 0 }, ..self }
    }

    /// How a cycle begins.
    pub open spec fn begun(self, bounds: CycleBox, blended: bool) -> IkCycle {
        IkCycle {
            ik: self.uncounted(),
            saved_act: self.act,
            saved_position_act: self.position_act,
            bounds,
            blended,
            iteration: 0,
            goal: self.q,
            residual: None,
            stage: if self.options.iterations == 0 {
                IkStage::Backstopping
            } else if blended {
                IkStage::Solving { task: Task::Position }
            } else {
                IkStage::Solving { task: Task::Weighted }
            },
        }
    }

    /// Begins a cycle in a box, with position first in part or in whole, or not at all.
    pub fn step(self, bounds: CycleBox, blended: bool) -> (cycle: IkCycle)
        ensures
            cycle == self.begun(bounds, blended),
            cycle.wf(),
    {
        let mut ik = self;
        ik.passes = 0;
        ik.step_norm = Double { bits: 0 };
        ik.clipped_norm = Double { bits: 0 };
        let stage = if self.options.iterations == 0 {
            IkStage::Backstopping
        } else if blended {
            IkStage::Solving { task: Task::Position }
        } else {
            IkStage::Solving { task: Task::Weighted }
        };
        IkCycle {
            ik,
            saved_act: self.act,
            saved_position_act: self.position_act,
            bounds,
            blended,
            iteration: 0,
            goal: self.q,
            residual: None,
            stage,
        }
    }

    /// The state once a solve that succeeded is counted.
    pub open spec fn counted(self, passes: u32, step: Double, clipped: Double) -> Ik {
        let total = self.passes + passes;
        let ik = Ik {
            passes: if total > u32::MAX {
                u32::MAX
            } else {
                total as u32
            },
            ..self
        };
        if self.step_norm.lt(step) {
            Ik { step_norm: step, clipped_norm: clipped, ..ik }
        } else {
            ik
        }
    }

    /// The state once a solve has run: the set that it leaves, and, where it succeeded, its passes
    /// and its step if that is the largest.
    pub open spec fn solved(self, task: Task, solution: Solution) -> Ik {
        let act = solution.found.act;
        let ik = match task {
            // The position stage starts from the weighted solve's pins when the blend sets in.
            Task::Weighted => Ik { act, position_act: act, ..self },
            Task::Position => Ik { position_act: act, ..self },
            Task::Held => Ik { act, ..self },
        };
        match solution.found.outcome {
            Some((passes, _)) => ik.counted(passes, solution.step, solution.clipped),
            None => ik,
        }
    }

    /// Counts a solve.
    fn count(self, task: Task, solution: &Solution) -> (ik: Ik)
        ensures
            ik == self.solved(task, *solution),
    {
        let mut ik = self;
        match task {
            Task::Weighted => {
                ik.act = solution.found.act;
                ik.position_act = solution.found.act;
            },
            Task::Position => {
                ik.position_act = solution.found.act;
            },
            Task::Held => {
                ik.act = solution.found.act;
            },
        }
        if let Some((passes, _)) = solution.found.outcome {
            ik.passes = ik.passes.saturating_add(passes);
            if self.step_norm.less(solution.step) {
                ik.step_norm = solution.step;
                ik.clipped_norm = solution.clipped;
            }
        }
        ik
    }
}

/// The pins of an active set on a box.
pub open spec fn pins(bounds: CycleBox, act: [i8; 7]) -> [i8; 7] {
    [
        bounds.pinned(0, act[0]) as i8,
        bounds.pinned(1, act[1]) as i8,
        bounds.pinned(2, act[2]) as i8,
        bounds.pinned(3, act[3]) as i8,
        bounds.pinned(4, act[4]) as i8,
        bounds.pinned(5, act[5]) as i8,
        bounds.pinned(6, act[6]) as i8,
    ]
}

impl IkCycle {
    /// Whether the iterations are counted within their number, and the residual is known where the
    /// cycle is past it.
    pub open spec fn wf(self) -> bool {
        &&& (self.stage is Solving || self.stage is Moving || self.stage is Refining)
            ==> self.iteration < self.ik.options.iterations
        &&& self.stage is Pressing ==> self.residual is Some
    }

    /// What the cycle waits for.
    pub open spec fn awaiting(self) -> IkAction {
        match self.stage {
            IkStage::Solving { task } => IkAction::Solve {
                task,
                q: self.goal,
                act: if task is Position {
                    self.ik.position_act
                } else {
                    self.ik.act
                },
                first: self.iteration == 0,
            },
            IkStage::Moving => IkAction::Move { q: self.goal },
            IkStage::Refining | IkStage::Undoing | IkStage::Closing => IkAction::Measure {
                q: self.goal,
            },
            IkStage::Backstopping => IkAction::Backstop { goal: self.goal },
            IkStage::Pressing => IkAction::Press { goal: self.goal, pinned: self.ik.pinned },
        }
    }

    /// What the cycle waits for.
    pub fn action(&self) -> (action: IkAction)
        ensures
            action == self.awaiting(),
    {
        match self.stage {
            IkStage::Solving { task } => {
                let act = match task {
                    Task::Position => self.ik.position_act,
                    _ => self.ik.act,
                };
                IkAction::Solve { task, q: self.goal, act, first: self.iteration == 0 }
            },
            IkStage::Moving => IkAction::Move { q: self.goal },
            IkStage::Refining | IkStage::Undoing | IkStage::Closing => IkAction::Measure {
                q: self.goal,
            },
            IkStage::Backstopping => IkAction::Backstop { goal: self.goal },
            IkStage::Pressing => IkAction::Press { goal: self.goal, pinned: self.ik.pinned },
        }
    }

    /// Whether an event is an answer to what the cycle waits for.
    pub open spec fn answered(self, event: IkEvent) -> bool {
        match self.stage {
            IkStage::Solving { .. } => event is Solved,
            IkStage::Moving => event is Moved,
            IkStage::Refining | IkStage::Undoing | IkStage::Closing => event is Measured,
            IkStage::Backstopping => event is Scaled,
            IkStage::Pressing => event is Pressed,
        }
    }

    /// Whether an event is an answer to what the cycle waits for.
    pub fn answered_by(&self, event: &IkEvent) -> (b: bool)
        ensures
            b == self.answered(*event),
    {
        match self.stage {
            IkStage::Solving { .. } => matches!(event, IkEvent::Solved(_)),
            IkStage::Moving => matches!(event, IkEvent::Moved(_)),
            IkStage::Refining | IkStage::Undoing | IkStage::Closing => matches!(
                event,
                IkEvent::Measured(_)
            ),
            IkStage::Backstopping => matches!(event, IkEvent::Scaled { .. }),
            IkStage::Pressing => matches!(event, IkEvent::Pressed { .. }),
        }
    }

    /// The stage that an iteration begins with.
    pub open spec fn first_solve(self) -> IkStage {
        if self.blended {
            IkStage::Solving { task: Task::Position }
        } else {
            IkStage::Solving { task: Task::Weighted }
        }
    }

    /// The cycle with every solve of it undone: the goal is where the cycle began, and both active
    /// sets and all that was counted are as before.
    pub open spec fn undone(self) -> IkCycle {
        IkCycle {
            ik: Ik {
                act: self.saved_act,
                position_act: self.saved_position_act,
                ..self.ik.uncounted()
            },
            goal: self.ik.q,
            stage: IkStage::Undoing,
            ..self
        }
    }

    /// The cycle with its goal final and its residual known.
    pub open spec fn closing(self, residual: Double) -> IkCycle {
        IkCycle {
            ik: Ik { q: self.goal, pinned: pins(self.bounds, self.ik.act), ..self.ik },
            residual: Some(residual),
            stage: IkStage::Pressing,
            ..self
        }
    }

    /// Where the cycle stands after an event that is not the last one.
    pub open spec fn next(self, event: IkEvent) -> IkCycle {
        match (self.stage, event) {
            (IkStage::Solving { task }, IkEvent::Solved(solution)) => {
                let solved = IkCycle { ik: self.ik.solved(task, solution), ..self };
                if solution.found.outcome is None {
                    solved.undone()
                } else if task is Position {
                    IkCycle { stage: IkStage::Solving { task: Task::Held }, ..solved }
                } else {
                    IkCycle { stage: IkStage::Moving, ..solved }
                }
            },
            (IkStage::Moving, IkEvent::Moved(q)) => if self.iteration + 1 < self.ik.options.iterations {
                IkCycle {
                    goal: q,
                    iteration: (self.iteration + 1) as u32,
                    stage: IkStage::Refining,
                    ..self
                }
            } else {
                IkCycle { goal: q, stage: IkStage::Backstopping, ..self }
            },
            (IkStage::Refining, IkEvent::Measured(residual)) => if residual.lt(
                self.ik.options.tolerance,
            ) {
                IkCycle { residual: Some(residual), stage: IkStage::Backstopping, ..self }
            } else {
                IkCycle { stage: self.first_solve(), ..self }
            },
            (IkStage::Undoing, IkEvent::Measured(residual)) => IkCycle {
                residual: Some(residual),
                stage: IkStage::Backstopping,
                ..self
            },
            (IkStage::Backstopping, IkEvent::Scaled { cut, scale }) => {
                let cuts = scale.lt(Double { bits: REAL_CUT });
                let limited = IkCycle {
                    ik: Ik {
                        cap_scale: if cuts {
                            scale
                        } else {
                            Double { bits: ONE }
                        },
                        ..self.ik
                    },
                    goal: if cuts {
                        cut
                    } else {
                        self.goal
                    },
                    ..self
                };
                if self.residual is Some && !cuts {
                    limited.closing(self.residual->0)
                } else {
                    IkCycle { stage: IkStage::Closing, ..limited }
                }
            },
            (IkStage::Closing, IkEvent::Measured(residual)) => self.closing(residual),
            _ => self,
        }
    }

    /// Whether a cycle ends so: with the flag and the walls of how the residual pushes the pins.
    pub open spec fn ended(self, event: IkEvent, ik: Ik) -> bool {
        event matches IkEvent::Pressed { whole, part, pushed, blocks } && {
            let before = Stall { withheld: ik.stall.withheld, ..self.ik.stall };
            &&& ik == Ik { stall: ik.stall, ..self.ik }
            &&& ik.stall == before.recorded(
                stall::position_pressure(self.ik.pinned@, whole@, part@, 7),
                stall::velocity_pressure(self.ik.pinned@, whole@, part@, 7),
            )
            &&& if (Double { bits: WALL_FLOOR }).lt(pushed) {
                stall::walled(self.ik.pinned@, blocks@[0], ik.stall.withheld@[0]) && stall::walled(
                    self.ik.pinned@,
                    blocks@[1],
                    ik.stall.withheld@[1],
                )
            } else {
                ik.stall.withheld@[0] is None && ik.stall.withheld@[1] is None
            }
        }
    }

    /// The cycle with its goal final and its residual known.
    fn close(self, residual: Double) -> (cycle: IkCycle)
        ensures
            cycle == self.closing(residual),
    {
        let mut cycle = self;
        let b = &self.bounds;
        let act = self.ik.act;
        cycle.ik.q = self.goal;
        cycle.ik.pinned = [
            b.pin(0, act[0]),
            b.pin(1, act[1]),
            b.pin(2, act[2]),
            b.pin(3, act[3]),
            b.pin(4, act[4]),
            b.pin(5, act[5]),
            b.pin(6, act[6]),
        ];
        cycle.residual = Some(residual);
        cycle.stage = IkStage::Pressing;
        cycle
    }

    /// The stage that an iteration begins with.
    fn begin_iteration(&self) -> (stage: IkStage)
        ensures
            stage == self.first_solve(),
    {
        if self.blended {
            IkStage::Solving { task: Task::Position }
        } else {
            IkStage::Solving { task: Task::Weighted }
        }
    }

    /// Goes on with the answer to what the cycle waits for. A cycle ends with the state to keep, whose
    /// `q` is the goal, and its weighted residual.
    pub fn resume(self, event: IkEvent) -> (r: Progress<IkCycle, IkAction, (Ik, Double)>)
        requires
            self.wf(),
            self.answered(event),
        ensures
            match r {
                Progress::Continue(cycle, action) => !(self.stage is Pressing) && cycle == self.next(
                    event,
                ) && action == cycle.awaiting() && cycle.wf(),
                Progress::Done((ik, residual)) => self.stage is Pressing && self.ended(event, ik)
                    && Some(residual) == self.residual,
            },
    {
        let mut next = self;
        match event {
            IkEvent::Solved(solution) => {
                let task = match self.stage {
                    IkStage::Solving { task } => task,
                    _ => vstd::pervasive::unreached(),
                };
                next.ik = self.ik.count(task, &solution);
                if solution.found.outcome.is_none() {
                    next.ik.act = self.saved_act;
                    next.ik.position_act = self.saved_position_act;
                    next.ik.passes = 0;
                    next.ik.step_norm = Double { bits: 0 };
                    next.ik.clipped_norm = Double { bits: 0 };
                    next.goal = self.ik.q;
                    next.stage = IkStage::Undoing;
                } else {
                    next.stage = match task {
                        Task::Position => IkStage::Solving { task: Task::Held },
                        _ => IkStage::Moving,
                    };
                }
            },
            IkEvent::Moved(q) => {
                next.goal = q;
                if self.iteration + 1 < self.ik.options.iterations {
                    next.iteration = self.iteration + 1;
                    next.stage = IkStage::Refining;
                } else {
                    next.stage = IkStage::Backstopping;
                }
            },
            IkEvent::Measured(residual) => match self.stage {
                IkStage::Refining => {
                    if residual.less(self.ik.options.tolerance) {
                        next.residual = Some(residual);
                        next.stage = IkStage::Backstopping;
                    } else {
                        next.stage = self.begin_iteration();
                    }
                },
                IkStage::Undoing => {
                    next.residual = Some(residual);
                    next.stage = IkStage::Backstopping;
                },
                _ => {
                    next = self.close(residual);
                },
            },
            IkEvent::Scaled { cut, scale } => {
                let cuts = scale.less(Double { bits: REAL_CUT });
                if cuts {
                    next.goal = cut;
                    next.ik.cap_scale = scale;
                } else {
                    next.ik.cap_scale = Double { bits: ONE };
                }
                next = match self.residual {
                    Some(residual) if !cuts => next.close(residual),
                    _ => {
                        next.stage = IkStage::Closing;
                        next
                    },
                };
            },
            IkEvent::Pressed { whole, part, pushed, blocks } => {
                let pinned = next.ik.pinned;
                next.ik.stall.update(&pinned, &whole, &part, pushed, &blocks);
                let residual = match self.residual {
                    Some(residual) => residual,
                    None => vstd::pervasive::unreached(),
                };
                return Progress::Done((next.ik, residual));
            },
        }
        let action = next.action();
        Progress::Continue(next, action)
    }
}

/// A solve that is not finite undoes the cycle whole: the goal, both active sets, and the passes
/// and step norms they cost are those of before the cycle.
pub proof fn law_failed_solve_undoes_the_cycle(ik: Ik, cycle: IkCycle, solution: Solution)
    requires
        cycle.stage is Solving,
        cycle.saved_act == ik.act,
        cycle.saved_position_act == ik.position_act,
        cycle.ik.q == ik.q,
        solution.found.outcome is None,
    ensures
        ({
            let next = cycle.next(IkEvent::Solved(solution));
            next.goal == ik.q && next.ik.act == ik.act && next.ik.position_act == ik.position_act
                && next.ik.passes == 0 && next.ik.step_norm == (Double { bits: 0 })
                && next.ik.clipped_norm == (Double { bits: 0 }) && next.stage is Undoing
        }),
{
}

/// What a cycle keeps until its goal is final: where it began and the sets to go back to.
pub proof fn law_cycle_remembers_its_start(cycle: IkCycle, event: IkEvent)
    requires
        cycle.answered(event),
        !(cycle.stage is Pressing),
        cycle.wf(),
    ensures
        cycle.next(event).saved_act == cycle.saved_act,
        cycle.next(event).saved_position_act == cycle.saved_position_act,
        cycle.next(event).ik.options == cycle.ik.options,
        cycle.next(event).ik.stall == cycle.ik.stall,
        cycle.next(event).stage is Pressing || cycle.next(event).ik.q == cycle.ik.q,
        cycle.next(event).iteration <= cycle.iteration + 1,
{
}

/// The end effector and stiffness frames that the kinematics are taken at, column-major.
#[derive(Clone, Copy, PartialEq, Debug)]
pub struct Frames {
    pub f_t_ee: [Double; 16],
    pub ee_t_k: [Double; 16],
}

/// Whether two frames are the same, bit for bit.
fn same_frame(a: &[Double; 16], b: &[Double; 16]) -> (r: bool)
    ensures
        r == (a@ == b@),
{
    let mut i: usize = 0;
    while i < 16
        invariant
            i <= 16,
            forall|j: int| 0 <= j < i ==> a@[j] == b@[j],
        decreases 16 - i,
    {
        if a[i] != b[i] {
            return false;
        }
        i = i + 1;
    }
    assert(a@ =~= b@);
    true
}

impl Frames {
    /// Takes the frames as they may have been changed during a session; the `f_t_ee` it had when
    /// they changed, `None` when they did not.
    pub fn set_frames(&mut self, f_t_ee: &[Double; 16], ee_t_k: &[Double; 16]) -> (old_frame: Option<
        [Double; 16],
    >)
        ensures
            old_frame is None == (old(self).f_t_ee@ == f_t_ee@ && old(self).ee_t_k@ == ee_t_k@),
            old_frame matches Some(frame) ==> frame == old(self).f_t_ee,
            final(self).f_t_ee@ == f_t_ee@,
            final(self).ee_t_k@ == ee_t_k@,
    {
        if same_frame(&self.f_t_ee, f_t_ee) && same_frame(&self.ee_t_k, ee_t_k) {
            return None;
        }
        let before = self.f_t_ee;
        self.f_t_ee = *f_t_ee;
        self.ee_t_k = *ee_t_k;
        Some(before)
    }
}

/// An iteration solves the whole task once, or the translation first and then the whole task with
/// the translation held, where position comes first. Each solve starts from where the iterations
/// stand and from the set of its own stage, and only the first iteration carries the posture bias.
pub proof fn law_iteration_solves(cycle: IkCycle, solution: Solution)
    requires
        cycle.wf(),
        cycle.stage is Solving,
        solution.found.outcome is Some,
    ensures
        ({
            let task = cycle.stage->task;
            let next = cycle.next(IkEvent::Solved(solution));
            &&& task is Position ==> next.awaiting() == (IkAction::Solve {
                task: Task::Held,
                q: cycle.goal,
                act: cycle.ik.act,
                first: cycle.iteration == 0,
            })
            &&& !(task is Position) ==> next.awaiting() == (IkAction::Move { q: cycle.goal })
            &&& cycle.awaiting() == (IkAction::Solve {
                task,
                q: cycle.goal,
                act: match task {
                    Task::Weighted | Task::Held => cycle.ik.act,
                    Task::Position => cycle.ik.position_act,
                },
                first: cycle.iteration == 0,
            })
            &&& next.goal == cycle.goal
            &&& next.iteration == cycle.iteration
        }),
{
}

/// A solve keeps the set that it found: as that of the whole task, of the translation stage, or of
/// both where there is but one stage. Its passes are added, and its step is kept where it is the
/// largest of the cycle so far, with what the box took off that same step.
pub proof fn law_solve_is_counted(ik: Ik, task: Task, solution: Solution)
    ensures
        ({
            let after = ik.solved(task, solution);
            let found = solution.found.act;
            &&& task is Weighted ==> after.act == found && after.position_act == found
            &&& task is Position ==> after.act == ik.act && after.position_act == found
            &&& task is Held ==> after.act == found && after.position_act == ik.position_act
            &&& solution.found.outcome is None ==> after.passes == ik.passes && after.step_norm
                == ik.step_norm && after.clipped_norm == ik.clipped_norm
            &&& solution.found.outcome matches Some((passes, _)) ==> {
                &&& ik.passes + passes <= u32::MAX ==> after.passes == ik.passes + passes
                &&& double::above(solution.step, ik.step_norm) ==> after.step_norm == solution.step
                    && after.clipped_norm == solution.clipped
                &&& !double::above(solution.step, ik.step_norm) ==> after.step_norm == ik.step_norm
                    && after.clipped_norm == ik.clipped_norm
            }
            &&& after.q == ik.q
            &&& after.options == ik.options
            &&& after.stall == ik.stall
            &&& after.pinned == ik.pinned
            &&& after.cap_scale == ik.cap_scale
        }),
{
    broadcast use double::group_order;

}

/// A cycle begins where the last one ended, with nothing counted, and with the sets of the last one;
/// it solves at least once where there is an iteration to run.
pub proof fn law_cycle_begins_at_the_last_goal(ik: Ik, bounds: CycleBox, blended: bool)
    ensures
        ({
            let cycle = ik.begun(bounds, blended);
            &&& cycle.goal == ik.q
            &&& cycle.ik.q == ik.q
            &&& cycle.saved_act == ik.act
            &&& cycle.saved_position_act == ik.position_act
            &&& cycle.bounds == bounds
            &&& cycle.residual is None
            &&& cycle.ik.passes == 0
            &&& cycle.iteration == 0
            &&& ik.options.iterations > 0 ==> cycle.awaiting() == (IkAction::Solve {
                task: if blended {
                    Task::Position
                } else {
                    Task::Weighted
                },
                q: ik.q,
                act: if blended {
                    ik.position_act
                } else {
                    ik.act
                },
                first: true,
            })
        }),
{
}

/// The iterations go on from where the last one moved to, until the residual there is below the
/// tolerance or the iterations are used up; the goal is then what the last one moved to.
pub proof fn law_iterations_refine(cycle: IkCycle, q: [Double; 7], residual: Double)
    requires
        cycle.wf(),
    ensures
        cycle.stage is Moving ==> {
            let next = cycle.next(IkEvent::Moved(q));
            &&& next.goal == q
            &&& cycle.iteration + 1 < cycle.ik.options.iterations ==> next.awaiting() == (
            IkAction::Measure { q }) && next.stage is Refining && next.iteration == cycle.iteration
                + 1
            &&& cycle.iteration + 1 == cycle.ik.options.iterations ==> next.awaiting() == (
            IkAction::Backstop { goal: q })
        },
        cycle.stage is Refining ==> {
            let next = cycle.next(IkEvent::Measured(residual));
            let close = double::above(cycle.ik.options.tolerance, residual);
            &&& next.goal == cycle.goal
            &&& next.stage is Backstopping <==> close
            &&& next.stage is Solving <==> !close
            &&& close ==> next.residual == Some(residual)
            &&& !close && cycle.blended ==> next.stage->task is Position
            &&& !close && !cycle.blended ==> next.stage->task is Weighted
        },
{
    broadcast use double::group_order;

}

/// The backstop takes the goal only where it really cuts, its scale more than a billionth under one,
/// and then says by how much; otherwise the
/// goal stays and the scale is one. A residual that was measured is kept only while its goal is: a
/// goal that was cut is measured again.
pub proof fn law_backstop_takes_a_real_cut(cycle: IkCycle, cut: [Double; 7], scale: Double)
    requires
        cycle.wf(),
        cycle.stage is Backstopping,
    ensures
        ({
            let next = cycle.next(IkEvent::Scaled { cut, scale });
            let cuts = double::above(Double { bits: 0x3fef_ffff_ff76_8fa1 }, scale);
            &&& cuts ==> next.goal == cut && next.ik.cap_scale == scale && next.awaiting() == (
            IkAction::Measure { q: cut })
            &&& !cuts ==> next.goal == cycle.goal && next.ik.cap_scale.bits == 0x3ff0_0000_0000_0000
            &&& !cuts && cycle.residual is Some ==> next.stage is Pressing && next.residual
                == cycle.residual
            &&& !cuts && cycle.residual is None ==> next.awaiting() == (IkAction::Measure {
                q: cycle.goal,
            })
        }),
{
    broadcast use double::group_order;

}

/// A cycle closes on its goal: that is where the next one begins, its residual is the one that was
/// measured there, and the pins that the residual pushes are those of the set of the whole task, each
/// on the side and the kind of bound that it is on.
pub proof fn law_cycle_closes_on_its_goal(cycle: IkCycle, residual: Double, i: int)
    requires
        cycle.stage is Closing,
        0 <= i < 7,
    ensures
        ({
            let next = cycle.next(IkEvent::Measured(residual));
            &&& next.ik.q == cycle.goal
            &&& next.residual == Some(residual)
            &&& next.awaiting() == (IkAction::Press { goal: cycle.goal, pinned: next.ik.pinned })
            &&& next.ik.act == cycle.ik.act
            &&& next.ik.pinned@[i] == 0 <==> cycle.ik.act@[i] == 0
            &&& next.ik.pinned@[i] < 0 <==> cycle.ik.act@[i] < 0
            &&& next.ik.pinned@[i] == -1 <==> cycle.ik.act@[i] < 0 && cycle.bounds.position_lower@[i]
            &&& next.ik.pinned@[i] == 1 <==> cycle.ik.act@[i] > 0 && cycle.bounds.position_upper@[i]
        }),
{
}

/// A cycle ends with the pressures that it was told of: that on the position bounds and that on the
/// velocity bounds are no less than any push there, and are one of these pushes unless they are zero.
/// A pressure on the position bounds above 2e-5 sets the stall flag, and nothing but the stall
/// changes. Walls are told exactly where the push is above the floor, 1e-12, and the block of the
/// direction is larger than its least.
pub proof fn law_cycle_ends_with_its_pressures(
    cycle: IkCycle,
    whole: [Double; 7],
    part: [Double; 7],
    pushed: Double,
    blocks: [Option<Block>; 2],
    ik: Ik,
    i: int,
)
    requires
        cycle.ended(IkEvent::Pressed { whole, part, pushed, blocks }, ik),
        forall|k: int| 0 <= k < 7 ==> !(#[trigger] whole@[k]).nan() && !part@[k].nan(),
        0 <= i < 7,
    ensures
        ik.q == cycle.ik.q,
        ik.act == cycle.ik.act,
        ik.position_act == cycle.ik.position_act,
        ik.pinned == cycle.ik.pinned,
        ik.options == cycle.ik.options,
        ik.passes == cycle.ik.passes,
        ik.stall.position.value() >= 0,
        ik.stall.velocity.value() >= 0,
        cycle.ik.pinned@[i] == 1 || cycle.ik.pinned@[i] == -1 ==> {
            &&& whole@[i].value() <= ik.stall.position.value()
            &&& part@[i].value() <= ik.stall.position.value()
        },
        cycle.ik.pinned@[i] >= 2 || cycle.ik.pinned@[i] <= -2 ==> {
            &&& whole@[i].value() <= ik.stall.velocity.value()
            &&& part@[i].value() <= ik.stall.velocity.value()
        },
        ik.stall.position.value() > 0 ==> exists|k: int|
            0 <= k < 7 && (cycle.ik.pinned@[k] == 1 || cycle.ik.pinned@[k] == -1) && (
            ik.stall.position == #[trigger] whole@[k] || ik.stall.position == part@[k]),
        double::above(ik.stall.position, Double { bits: 0x3ef4_f8b5_88e3_68f1 })
            ==> ik.stall.stalled,
        !double::above(ik.stall.position, Double { bits: 0x3ef4_f8b5_88e3_68f1 })
            && !cycle.ik.stall.stalled ==> !ik.stall.stalled,
        ({
            let hard = double::above(pushed, Double { bits: 0x3d71_9799_812d_ea11 });
            &&& ik.stall.withheld@[0] is Some <==> hard && (blocks@[0] matches Some(block)
                && double::above(block.size, block.least))
            &&& ik.stall.withheld@[1] is Some <==> hard && (blocks@[1] matches Some(block)
                && double::above(block.size, block.least))
        }),
{
    broadcast use double::group_order;

    stall::law_position_pressure_is_the_hardest(cycle.ik.pinned@, whole@, part@, 7);
    stall::law_velocity_pressure_is_the_hardest(cycle.ik.pinned@, whole@, part@, 7);
    assert(!whole@[i].nan());
    let position = stall::position_pressure(cycle.ik.pinned@, whole@, part@, 7);
    assert(ik.stall.position == position);
}

/// The residual of a goal that is kept after a failed solve goes with it into the backstop. A cycle
/// without iterations goes there at once, with the goal of the last one.
pub proof fn law_kept_goal_is_measured(
    ik: Ik,
    cycle: IkCycle,
    residual: Double,
    bounds: CycleBox,
    blended: bool,
)
    ensures
        cycle.stage is Undoing ==> {
            let next = cycle.next(IkEvent::Measured(residual));
            &&& cycle.awaiting() == (IkAction::Measure { q: cycle.goal })
            &&& next.residual == Some(residual)
            &&& next.awaiting() == (IkAction::Backstop { goal: cycle.goal })
            &&& next.ik == cycle.ik
        },
        ik.options.iterations == 0 ==> ik.begun(bounds, blended).awaiting() == (
        IkAction::Backstop { goal: ik.q }),
{
}

} // verus!
