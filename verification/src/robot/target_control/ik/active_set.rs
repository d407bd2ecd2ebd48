//! One damped-least-squares step inside a box, by a primal active set warm-started from the last
//! solve. Each pass pins the free joint that violates its bound most, or else releases the pinned
//! joint whose multiplier points inward most, and the free joints are solved again with the pinned
//! ones on their bounds.
//!
//! The linear algebra stands outside: the search asks for a solve on its set and goes on with what
//! the solve says of each joint.
use crate::double;
use crate::double::Double;
use crate::step::Progress;
use vstd::prelude::*;

verus! {

/// Passes per solve before the step is clipped into the box and counted as not converged.
pub const MAX_ACTIVE_SET_PASSES: u32 = 12;

/// How far a free joint may be outside its bounds: 1e-12, as a bit pattern.
pub const VIOLATION_TOLERANCE: u64 = 0x3d71_9799_812d_ea11;

/// How far inward a pinned joint's multiplier may point: 1e-9, as a bit pattern.
pub const MULTIPLIER_TOLERANCE: u64 = 0x3e11_2e0b_e826_d695;

/// What a solve on a set says of the joints.
#[derive(Clone, Copy, PartialEq, Debug)]
pub struct Measures {
    /// How far each joint is outside its bounds, on the side where it is further.
    pub violation: [Double; 7],
    /// Whether each joint is below its lower bound.
    pub below: [bool; 7],
    /// The multiplier of each joint.
    pub multiplier: [Double; 7],
}

/// What came of asking for a solve.
#[derive(Clone, Copy, PartialEq, Debug)]
pub enum SolveEvent {
    Solved(Measures),
    /// The factor or the step is not finite.
    Failed,
}

/// The joint, of the first `n`, that is free and violates its bound most; the first of equals, and
/// `None` where none violates it at all.
pub open spec fn most_violating(act: Seq<i8>, violation: Seq<Double>, n: nat) -> Option<int>
    decreases n,
{
    if n == 0 {
        None
    } else {
        let i = n - 1;
        let before = most_violating(act, violation, i as nat);
        let more = match before {
            None => (Double { bits: 0 }).lt(violation[i]),
            Some(b) => violation[b].lt(violation[i]),
        };
        if act[i] == 0 && more {
            Some(i)
        } else {
            before
        }
    }
}

/// Whether a joint is pinned and its multiplier points inward.
pub open spec fn inward(act: Seq<i8>, multiplier: Seq<Double>, i: int) -> bool {
    let tolerance = Double { bits: MULTIPLIER_TOLERANCE };
    (act[i] < 0 && multiplier[i].lt(tolerance.opposite())) || (act[i] > 0 && tolerance.lt(
        multiplier[i],
    ))
}

/// The pinned joint, of the first `n`, whose multiplier points inward most; the last of equals.
pub open spec fn most_inward(act: Seq<i8>, multiplier: Seq<Double>, n: nat) -> Option<int>
    decreases n,
{
    if n == 0 {
        None
    } else {
        let i = n - 1;
        let before = most_inward(act, multiplier, i as nat);
        let no_less = match before {
            None => true,
            Some(b) => !multiplier[i].absolute().lt(multiplier[b].absolute()),
        };
        if inward(act, multiplier, i) && no_less {
            Some(i)
        } else {
            before
        }
    }
}

/// What a pass changes: the joint and its new side, below zero on the lower bound, above zero on
/// the upper one, zero free. `None` where the set is that of the solution.
pub open spec fn change(act: Seq<i8>, measures: Measures) -> Option<(int, int)> {
    let worst = most_violating(act, measures.violation@, 7);
    if worst matches Some(i) && (Double { bits: VIOLATION_TOLERANCE }).lt(measures.violation@[i]) {
        Some(
            (
                worst->0,
                if measures.below@[worst->0] {
                    -1int
                } else {
                    1int
                },
            ),
        )
    } else {
        match most_inward(act, measures.multiplier@, 7) {
            Some(i) => Some((i, 0int)),
            None => None,
        }
    }
}

/// The search for the set of the solution.
#[derive(Clone, Copy, PartialEq, Debug)]
pub struct Search {
    /// Below zero on the lower bound, above zero on the upper one, zero free.
    pub act: [i8; 7],
    /// The set to go back to when a solve fails.
    pub saved: [i8; 7],
    pub passes: u32,
    pub max_passes: u32,
}

/// What a search ends with.
#[derive(Clone, Copy, PartialEq, Debug)]
pub struct Found {
    /// The set of the last solve, or the one that the search began with where it failed.
    pub act: [i8; 7],
    /// The set that the search began with.
    pub saved: [i8; 7],
    /// The passes run and whether the set is that of the solution; `None` where a solve failed.
    pub outcome: Option<(u32, bool)>,
}

impl Search {
    /// Whether there are passes left, or the last one was not solved on.
    pub open spec fn wf(self) -> bool {
        self.passes <= self.max_passes
    }

    /// A search from a set, with at most so many passes; none for the unconstrained step.
    pub fn new(act: [i8; 7], max_passes: u32) -> (search: Search)
        ensures
            search == (Search { act, saved: act, passes: 0, max_passes }),
            search.wf(),
    {
        Search { act, saved: act, passes: 0, max_passes }
    }

    /// Whether a search goes on with a set, its last pass counted.
    pub open spec fn goes_on(self, set: Seq<i8>, passes: int, next: Search) -> bool {
        next.act@ == set && next.saved == self.saved && next.passes == passes && next.max_passes
            == self.max_passes
    }

    /// Where the search stands once its set has been solved, or could not be. The last pass's
    /// change is never solved on: the pins stay those of the step returned.
    pub open spec fn led_to(self, event: SolveEvent, progress: Progress<Search, (), Found>) -> bool {
        match event {
            SolveEvent::Failed => progress == Progress::<Search, (), Found>::Done(
                Found { act: self.saved, saved: self.saved, outcome: None },
            ),
            SolveEvent::Solved(measures) => {
                let ended = |passes: u32, converged: bool|
                    progress == Progress::<Search, (), Found>::Done(
                        Found {
                            act: self.act,
                            saved: self.saved,
                            outcome: Some((passes, converged)),
                        },
                    );
                let passes = (self.passes + 1) as u32;
                if self.passes == self.max_passes {
                    ended(self.passes, self.max_passes == 0)
                } else {
                    match change(self.act@, measures) {
                        None => ended(passes, true),
                        Some((joint, side)) => if passes < self.max_passes {
                            progress matches Progress::Continue(next, _) && self.goes_on(
                                self.act@.update(joint, side as i8),
                                passes as int,
                                next,
                            )
                        } else {
                            ended(passes, false)
                        },
                    }
                }
            },
        }
    }

    /// The joint that is free and violates its bound most.
    fn worst(&self, violation: &[Double; 7]) -> (r: Option<usize>)
        ensures
            match r {
                Some(i) => i < 7 && most_violating(self.act@, violation@, 7) == Some(i as int),
                None => most_violating(self.act@, violation@, 7) is None,
            },
    {
        let mut r: Option<usize> = None;
        let mut i: usize = 0;
        while i < 7
            invariant
                i <= 7,
                match r {
                    Some(k) => k < i && most_violating(self.act@, violation@, i as nat) == Some(
                        k as int,
                    ),
                    None => most_violating(self.act@, violation@, i as nat) is None,
                },
            decreases 7 - i,
        {
            let more = match r {
                None => (Double { bits: 0 }).less(violation[i]),
                Some(k) => violation[k].less(violation[i]),
            };
            if self.act[i] == 0 && more {
                r = Some(i);
            }
            i = i + 1;
        }
        r
    }

    /// The pinned joint whose multiplier points inward most.
    fn release(&self, multiplier: &[Double; 7]) -> (r: Option<usize>)
        ensures
            match r {
                Some(i) => i < 7 && most_inward(self.act@, multiplier@, 7) == Some(i as int),
                None => most_inward(self.act@, multiplier@, 7) is None,
            },
    {
        let tolerance = Double { bits: MULTIPLIER_TOLERANCE };
        let mut r: Option<usize> = None;
        let mut i: usize = 0;
        while i < 7
            invariant
                i <= 7,
                tolerance == (Double { bits: MULTIPLIER_TOLERANCE }),
                match r {
                    Some(k) => k < i && most_inward(self.act@, multiplier@, i as nat) == Some(
                        k as int,
                    ),
                    None => most_inward(self.act@, multiplier@, i as nat) is None,
                },
            decreases 7 - i,
        {
            let points_inward = (self.act[i] < 0 && multiplier[i].less(tolerance.negated())) || (
            self.act[i] > 0 && tolerance.less(multiplier[i]));
            let no_less = match r {
                None => true,
                Some(k) => !multiplier[i].abs().less(multiplier[k].abs()),
            };
            if points_inward && no_less {
                r = Some(i);
            }
            i = i + 1;
        }
        r
    }

    /// What a pass changes.
    fn pass(&self, measures: &Measures) -> (r: Option<(usize, i8)>)
        ensures
            match r {
                Some((i, side)) => i < 7 && change(self.act@, *measures) == Some((i as int, side as int)),
                None => change(self.act@, *measures) is None,
            },
    {
        if let Some(i) = self.worst(&measures.violation) {
            if (Double { bits: VIOLATION_TOLERANCE }).less(measures.violation[i]) {
                let side: i8 = if measures.below[i] {
                    -1
                } else {
                    1
                };
                return Some((i, side));
            }
        }
        match self.release(&measures.multiplier) {
            Some(i) => Some((i, 0)),
            None => None,
        }
    }

    /// Goes on once the set has been solved, or could not be.
    pub fn resume(self, event: SolveEvent) -> (progress: Progress<Search, (), Found>)
        requires
            self.wf(),
        ensures
            self.led_to(event, progress),
            progress matches Progress::Continue(next, _) ==> next.wf() && next.passes
                == self.passes + 1 && next.passes < next.max_passes,
    {
        let measures = match event {
            SolveEvent::Failed => {
                return Progress::Done(Found { act: self.saved, saved: self.saved, outcome: None });
            },
            SolveEvent::Solved(measures) => measures,
        };
        if self.passes == self.max_passes {
            let outcome = Some((self.passes, self.max_passes == 0));
            return Progress::Done(Found { act: self.act, saved: self.saved, outcome });
        }
        let passes: u32 = self.passes + 1;
        match self.pass(&measures) {
            None => Progress::Done(
                Found { act: self.act, saved: self.saved, outcome: Some((passes, true)) },
            ),
            Some((joint, side)) => {
                if passes < self.max_passes {
                    let mut next = self;
                    next.act[joint] = side;
                    next.passes = passes;
                    Progress::Continue(next, ())
                } else {
                    Progress::Done(
                        Found { act: self.act, saved: self.saved, outcome: Some((passes, false)) },
                    )
                }
            },
        }
    }
}

impl Found {
    /// What is left of a search whose step, the bias added, is finite or is not: a step that is not
    /// finite counts as a failure, and the set is the one that the search began with.
    pub fn concluded(self, finite: bool) -> (r: Found)
        ensures
            r == if finite {
                self
            } else {
                Found { act: self.saved, saved: self.saved, outcome: None }
            },
            r.outcome is Some ==> finite && r == self,
            !finite ==> r.act == self.saved,
            r.saved == self.saved,
    {
        if finite {
            self
        } else {
            Found { act: self.saved, saved: self.saved, outcome: None }
        }
    }
}

/// A joint's step clipped into its bounds.
pub open spec fn clipped(d: Double, lo: Double, hi: Double) -> Double {
    d.larger(lo).smaller(hi)
}

/// The step clipped into the box.
pub fn clip(d: &[Double; 7], lo: &[Double; 7], hi: &[Double; 7]) -> (r: [Double; 7])
    ensures
        forall|i: int| 0 <= i < 7 ==> #[trigger] r@[i] == clipped(d@[i], lo@[i], hi@[i]),
{
    let mut r = *d;
    let mut i: usize = 0;
    while i < 7
        invariant
            i <= 7,
            forall|j: int| 0 <= j < i ==> #[trigger] r@[j] == clipped(d@[j], lo@[j], hi@[j]),
        decreases 7 - i,
    {
        r[i] = d[i].max(lo[i]).min(hi[i]);
        i = i + 1;
    }
    r
}

/// A clipped step lies in the box, and a step that lies in the box is left alone.
pub proof fn law_clip_stays_in_the_box(d: Double, lo: Double, hi: Double)
    requires
        !d.nan(),
        lo.le(hi),
    ensures
        lo.le(clipped(d, lo, hi)),
        clipped(d, lo, hi).le(hi),
        lo.le(d) && d.le(hi) ==> clipped(d, lo, hi) == d,
{
}

/// The joint that is pinned is free, violates its bound, and no free joint violates its own more.
pub proof fn law_most_violating(act: Seq<i8>, violation: Seq<Double>, n: nat)
    ensures
        most_violating(act, violation, n) matches Some(i) ==> 0 <= i < n && act[i] == 0
            && !violation[i].nan() && (Double { bits: 0 }).lt(violation[i]) && forall|j: int|
            0 <= j < n && act[j] == 0 ==> !violation[i].lt(#[trigger] violation[j]),
        most_violating(act, violation, n) is None ==> forall|j: int|
            0 <= j < n && act[j] == 0 ==> !(Double { bits: 0 }).lt(#[trigger] violation[j]),
    decreases n,
{
    if n > 0 {
        law_most_violating(act, violation, (n - 1) as nat);
    }
}

/// The joint that is released is pinned with its multiplier inward, and no other points inward more.
pub proof fn law_most_inward(act: Seq<i8>, multiplier: Seq<Double>, n: nat)
    ensures
        most_inward(act, multiplier, n) matches Some(i) ==> 0 <= i < n && inward(act, multiplier, i)
            && forall|j: int|
            0 <= j < n && inward(act, multiplier, j) ==> !multiplier[i].absolute().lt(
                (#[trigger] multiplier[j]).absolute(),
            ),
        most_inward(act, multiplier, n) is None ==> forall|j: int|
            0 <= j < n ==> !#[trigger] inward(act, multiplier, j),
    decreases n,
{
    if n > 0 {
        law_most_inward(act, multiplier, (n - 1) as nat);
    }
}

/// A search that converges has found the solution's set: no free joint violates its bounds beyond
/// the tolerance, and no pinned joint's multiplier points inward beyond its own.
pub proof fn law_converged_set(search: Search, measures: Measures, progress: Progress<Search, (), Found>)
    requires
        search.wf(),
        search.max_passes > 0,
        search.led_to(SolveEvent::Solved(measures), progress),
        progress matches Progress::Done(found) && found.outcome matches Some((_, true)),
    ensures
        forall|j: int|
            0 <= j < 7 && search.act@[j] == 0 ==> !(Double { bits: VIOLATION_TOLERANCE }).lt(
                #[trigger] measures.violation@[j],
            ),
        forall|j: int| 0 <= j < 7 ==> !#[trigger] inward(search.act@, measures.multiplier@, j),
{
    law_most_violating(search.act@, measures.violation@, 7);
    law_most_inward(search.act@, measures.multiplier@, 7);
}

/// A search that fails, at whatever pass, leaves the set as it was before the search.
pub proof fn law_failed_search_changes_nothing(
    search: Search,
    event: SolveEvent,
    progress: Progress<Search, (), Found>,
)
    requires
        search.led_to(event, progress),
    ensures
        progress matches Progress::Done(found) ==> found.saved == search.saved && (found.outcome is None
            ==> found.act == search.saved),
        progress matches Progress::Continue(next, _) ==> next.saved == search.saved,
        event is Failed ==> (progress matches Progress::Done(found) && found.outcome is None),
{
}

/// Whether a free joint is outside its bounds by more than the tolerance, 1e-12.
pub open spec fn outside(search: Search, measures: Measures, i: int) -> bool {
    search.act@[i] == 0 && double::above(
        measures.violation@[i],
        Double { bits: 0x3d71_9799_812d_ea11 },
    )
}

/// Whether the multiplier of a pinned joint pulls it off its bound: below zero on the lower bound,
/// above zero on the upper one, by more than the tolerance, 1e-9.
pub open spec fn pulled_off(search: Search, measures: Measures, i: int) -> bool {
    let tolerance = (Double { bits: 0x3e11_2e0b_e826_d695 }).value();
    let multiplier = measures.multiplier@[i];
    !multiplier.nan() && (search.act@[i] < 0 && multiplier.value() < -tolerance || search.act@[i] > 0
        && multiplier.value() > tolerance)
}

/// Whether a joint keeps the set from being that of the solution.
pub open spec fn unsettled(search: Search, measures: Measures, i: int) -> bool {
    outside(search, measures, i) || pulled_off(search, measures, i)
}

/// The set changes by one joint in a pass: a free joint is pinned on the bound that it violates, or
/// a pinned joint is set free. When a pass pins a free joint, the side is the lower bound exactly
/// where the joint is below it and the upper bound exactly where it is not.
pub proof fn law_pass_pins_the_violated_bound(
    search: Search,
    measures: Measures,
    progress: Progress<Search, (), Found>,
    joint: int,
)
    requires
        search.wf(),
        search.led_to(SolveEvent::Solved(measures), progress),
        progress is Continue,
        0 <= joint < 7,
        progress->Continue_0.act@[joint] != search.act@[joint],
    ensures
        ({
            let next = progress->Continue_0;
            &&& search.act@[joint] == 0 ==> {
                &&& next.act@[joint] < 0 <==> measures.below@[joint]
                &&& next.act@[joint] > 0 <==> !measures.below@[joint]
                &&& double::above(measures.violation@[joint], Double { bits: 0x3d71_9799_812d_ea11 })
                &&& forall|other: int|
                    0 <= other < 7 && search.act@[other] == 0 ==> !double::above(
                        #[trigger] measures.violation@[other],
                        measures.violation@[joint],
                    )
            }
            &&& search.act@[joint] != 0 ==> {
                &&& next.act@[joint] == 0
                &&& search.act@[joint] < 0 ==> double::above(
                    (Double { bits: 0x3e11_2e0b_e826_d695 }).opposite(),
                    measures.multiplier@[joint],
                )
                &&& search.act@[joint] > 0 ==> double::above(
                    measures.multiplier@[joint],
                    Double { bits: 0x3e11_2e0b_e826_d695 },
                )
                &&& forall|other: int|
                    0 <= other < 7 && search.act@[other] == 0 ==> !double::above(
                        #[trigger] measures.violation@[other],
                        Double { bits: 0x3d71_9799_812d_ea11 },
                    )
            }
            &&& forall|other: int|
                0 <= other < 7 && other != joint ==> #[trigger] next.act@[other]
                    == search.act@[other]
        }),
{
    broadcast use double::group_order;

    law_most_violating(search.act@, measures.violation@, 7);
    law_most_inward(search.act@, measures.multiplier@, 7);
}

/// Of several pinned joints that could be set free it is one that is pulled hardest.
pub proof fn law_pass_releases_the_hardest_pull(
    search: Search,
    measures: Measures,
    progress: Progress<Search, (), Found>,
    joint: int,
    other: int,
)
    requires
        search.wf(),
        search.led_to(SolveEvent::Solved(measures), progress),
        progress is Continue,
        0 <= joint < 7,
        0 <= other < 7,
        search.act@[joint] != 0,
        progress->Continue_0.act@[joint] == 0,
        pulled_off(search, measures, other),
    ensures
        !double::above(measures.multiplier@[other].absolute(), measures.multiplier@[joint].absolute()),
{
    broadcast use double::group_order;

    law_most_violating(search.act@, measures.violation@, 7);
    law_most_inward(search.act@, measures.multiplier@, 7);
    double::law_signs(Double { bits: MULTIPLIER_TOLERANCE });
    double::law_classes(Double { bits: MULTIPLIER_TOLERANCE });
    let (act, multiplier) = (search.act@, measures.multiplier@);
    assert(inward(act, multiplier, other));
    let (changed, side) = change(act, measures)->0;
    assert(progress->Continue_0.act@[joint] == act.update(changed, side as i8)[joint]);
    assert(changed == joint);
    assert(most_inward(act, multiplier, 7) == Some(joint));
    assert(!multiplier[joint].absolute().lt(multiplier[other].absolute()));
}

/// A search with passes left goes on exactly while a free joint is outside its bounds or a pinned
/// one is pulled off its own, and a pass is left to solve the changed set with. It has converged
/// exactly where neither is so. The set that it ends with is the one that was solved last, and every
/// pass counts as one.
pub proof fn law_search_ends_when_nothing_pulls(
    search: Search,
    measures: Measures,
    progress: Progress<Search, (), Found>,
)
    requires
        search.wf(),
        search.passes < search.max_passes,
        search.led_to(SolveEvent::Solved(measures), progress),
    ensures
        ({
            let open = exists|i: int| 0 <= i < 7 && #[trigger] unsettled(search, measures, i);
            &&& progress is Continue <==> open && search.passes + 1 < search.max_passes
            &&& progress matches Progress::Done(found) ==> {
                &&& found.act == search.act
                &&& found.outcome == Some(((search.passes + 1) as u32, !open))
            }
            &&& progress matches Progress::Continue(next, _) ==> next.passes == search.passes + 1
                && next.max_passes == search.max_passes && next.act@ != search.act@
        }),
{
    broadcast use double::group_order;

    law_most_violating(search.act@, measures.violation@, 7);
    law_most_inward(search.act@, measures.multiplier@, 7);
    let tolerance = Double { bits: MULTIPLIER_TOLERANCE };
    double::law_signs(tolerance);
    double::law_classes(tolerance);
    assert forall|i: int| 0 <= i < 7 implies #[trigger] pulled_off(search, measures, i) == inward(
        search.act@,
        measures.multiplier@,
        i,
    ) by {
        double::law_less_is_of_values(measures.multiplier@[i], tolerance.opposite());
        double::law_less_is_of_values(tolerance, measures.multiplier@[i]);
    }
    let open = exists|i: int| 0 <= i < 7 && #[trigger] unsettled(search, measures, i);
    match change(search.act@, measures) {
        Some((joint, side)) => {
            assert(0 <= joint < 7);
            assert(unsettled(search, measures, joint));
            assert(search.act@.update(joint, side as i8)[joint] == side as i8);
            assert(side as i8 != search.act@[joint]);
            assert(open);
            assert(progress is Continue <==> search.passes + 1 < search.max_passes);
            if let Progress::Continue(next, _) = progress {
                assert(next.act@[joint] != search.act@[joint]);
            }
        },
        None => {
            assert forall|i: int| 0 <= i < 7 implies !#[trigger] unsettled(search, measures, i) by {
                let worst = most_violating(search.act@, measures.violation@, 7);
                if outside(search, measures, i) {
                    let v = measures.violation@[i];
                    assert((Double { bits: 0 }).value() == 0);
                    double::lemma_scaled_increases(0, VIOLATION_TOLERANCE as nat);
                    assert((Double { bits: 0 }).lt(v));
                    assert(!measures.violation@[worst->0].lt(v));
                }
                assert(!inward(search.act@, measures.multiplier@, i));
            }
            assert(!open);
        },
    }
}

/// Without a pass the step is the unconstrained one on the set that was given, and that is what was
/// asked for; a search that has used up its passes has not converged.
pub proof fn law_search_without_passes(
    search: Search,
    measures: Measures,
    progress: Progress<Search, (), Found>,
)
    requires
        search.passes == search.max_passes,
        search.led_to(SolveEvent::Solved(measures), progress),
    ensures
        progress matches Progress::Done(found) && found.act == search.act && found.outcome == Some(
            (search.passes, search.passes == 0),
        ),
{
}

/// A step below its box is clipped to the lower bound and one above it to the upper bound.
pub proof fn law_clip_goes_to_the_nearer_bound(d: Double, lo: Double, hi: Double)
    requires
        !d.nan(),
        !lo.nan(),
        !hi.nan(),
        lo.value() <= hi.value(),
    ensures
        d.value() < lo.value() ==> clipped(d, lo, hi).value() == lo.value(),
        d.value() > hi.value() ==> clipped(d, lo, hi).value() == hi.value(),
        lo.value() <= d.value() <= hi.value() ==> clipped(d, lo, hi) == d,
{
    broadcast use double::group_order;

}

} // verus!
