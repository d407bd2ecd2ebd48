//! The box that a cycle's joint goal step is kept in, under the arm's velocity limit and the
//! braking profile toward the joint position limits.
use crate::double::Double;
use crate::double;
use vstd::prelude::*;

verus! {

/// What a cycle knows of one side of a joint.
#[derive(Clone, Copy, PartialEq, Eq, Structural, Debug)]
pub struct Side {
    /// How far the limit on this side is, less the margin.
    pub distance: Double,
    /// How far the velocity limit lets the joint move this cycle.
    pub velocity: Double,
    /// How far the braking profile lets it move.
    pub braking: Double,
    /// What the braking profile must be under to count as the bound: the velocity limit's way less
    /// a rounding.
    pub least: Double,
}

/// A cycle's bounds on the step, with zero between them.
#[derive(Clone, Copy, PartialEq, Debug)]
pub struct CycleBox {
    pub lower: [Double; 7],
    pub upper: [Double; 7],
    /// Per side, whether the bound is the braking envelope's rather than the velocity limit's.
    pub position_lower: [bool; 7],
    pub position_upper: [bool; 7],
    /// The velocity limit's bounds alone: the backstop's.
    pub velocity_lower: [Double; 7],
    pub velocity_upper: [Double; 7],
}

impl Side {
    /// The most that a step may move toward this side.
    pub open spec fn bound(self) -> Double {
        self.velocity.smaller(self.distance.smaller(self.braking).larger(Double { bits: 0 }))
    }

    /// The most that a step may move toward this side.
    pub fn bounded(&self) -> (bound: Double)
        ensures
            bound == self.bound(),
    {
        self.velocity.min(self.distance.min(self.braking).max(Double { bits: 0 }))
    }
}

/// A step toward a side never moves away from it, never exceeds the velocity limit, and never
/// passes the margin: beyond the margin it does not move at all.
pub proof fn law_step_stays_short_of_the_margin(side: Side)
    requires
        (Double { bits: 0 }).le(side.velocity),
        !side.distance.nan(),
        !side.braking.nan(),
    ensures
        (Double { bits: 0 }).le(side.bound()),
        side.bound().le(side.velocity),
        (Double { bits: 0 }).le(side.distance) ==> side.bound().le(side.distance),
        side.distance.lt(Double { bits: 0 }) ==> side.bound().same(Double { bits: 0 }),
        (Double { bits: 0 }).le(side.braking) ==> side.bound().le(side.braking),
{
}

impl CycleBox {
    /// Whether the bounds of a joint are those of its two sides.
    pub open spec fn bounds(self, i: int, lower: Side, upper: Side) -> bool {
        &&& self.lower@[i] == lower.bound().opposite()
        &&& self.velocity_lower@[i] == lower.velocity.opposite()
        &&& self.position_lower@[i] == lower.braking.lt(lower.least)
        &&& self.upper@[i] == upper.bound()
        &&& self.velocity_upper@[i] == upper.velocity
        &&& self.position_upper@[i] == upper.braking.lt(upper.least)
    }

    /// The box of seven joints.
    pub fn of(lower: &[Side; 7], upper: &[Side; 7]) -> (r: CycleBox)
        ensures
            forall|i: int| 0 <= i < 7 ==> #[trigger] r.bounds(i, lower@[i], upper@[i]),
    {
        let zero = Double { bits: 0 };
        let mut r = CycleBox {
            lower: [zero; 7],
            upper: [zero; 7],
            position_lower: [false; 7],
            position_upper: [false; 7],
            velocity_lower: [zero; 7],
            velocity_upper: [zero; 7],
        };
        let mut i: usize = 0;
        while i < 7
            invariant
                i <= 7,
                forall|j: int| 0 <= j < i ==> #[trigger] r.bounds(j, lower@[j], upper@[j]),
            decreases 7 - i,
        {
            let ghost before = r;
            r.lower[i] = lower[i].bounded().negated();
            r.velocity_lower[i] = lower[i].velocity.negated();
            r.position_lower[i] = lower[i].braking.less(lower[i].least);
            r.upper[i] = upper[i].bounded();
            r.velocity_upper[i] = upper[i].velocity;
            r.position_upper[i] = upper[i].braking.less(upper[i].least);
            assert forall|j: int| 0 <= j <= i implies #[trigger] r.bounds(j, lower@[j], upper@[j]) by {
                if j < i {
                    assert(before.bounds(j, lower@[j], upper@[j]));
                }
            }
            i = i + 1;
        }
        r
    }

    /// The pin of a joint on a side (below zero lower, zero free, above zero upper): zero free, one
    /// on a position bound, two on a velocity bound, with the sign of the side.
    pub open spec fn pinned(self, i: int, side: i8) -> int {
        if side < 0 {
            if self.position_lower@[i] {
                -1
            } else {
                -2
            }
        } else if side > 0 {
            if self.position_upper@[i] {
                1
            } else {
                2
            }
        } else {
            0
        }
    }

    /// The pin of a joint on a side (below zero lower, zero free, above zero upper): zero free, one
    /// on a position bound, two on a velocity bound, with the sign of the side.
    pub fn pin(&self, i: usize, side: i8) -> (pin: i8)
        requires
            i < 7,
        ensures
            pin == self.pinned(i as int, side),
    {
        if side < 0 {
            if self.position_lower[i] {
                -1
            } else {
                -2
            }
        } else if side > 0 {
            if self.position_upper[i] {
                1
            } else {
                2
            }
        } else {
            0
        }
    }
}

/// The most that a step may move toward a side is the least of the way that the velocity limit
/// allows, the way to the margin and the way that the braking profile allows, and none where the
/// margin is passed or there is nothing left to brake on.
pub proof fn law_bound_is_the_tightest(side: Side)
    requires
        !side.velocity.nan(),
        side.velocity.value() >= 0,
        !side.distance.nan(),
        !side.braking.nan(),
    ensures
        !side.bound().nan(),
        side.distance.value() <= 0 || side.braking.value() <= 0 ==> side.bound().value() == 0,
        side.distance.value() > 0 && side.braking.value() > 0 ==> {
            let bound = side.bound().value();
            &&& bound <= side.velocity.value()
            &&& bound <= side.distance.value()
            &&& bound <= side.braking.value()
            &&& bound == side.velocity.value() || bound == side.distance.value() || bound
                == side.braking.value()
        },
{
    let zero = Double { bits: 0 };
    assert(zero.value() == 0);
    let inner = side.distance.smaller(side.braking);
    double::law_extremes(side.distance, side.braking);
    double::law_extremes(inner, zero);
    double::law_extremes(side.velocity, inner.larger(zero));
}

/// The box of a cycle holds no step at all on either side, and a step inside it stays within the
/// bound of the side that it moves toward. The backstop's bounds are the velocity limit's alone, and
/// a bound is the braking profile's exactly where that is the tighter one.
pub proof fn law_box_is_of_its_sides(cycle: CycleBox, i: int, lower: Side, upper: Side, step: Double)
    requires
        0 <= i < 7,
        cycle.bounds(i, lower, upper),
        !lower.velocity.nan() && lower.velocity.value() >= 0,
        !upper.velocity.nan() && upper.velocity.value() >= 0,
        !lower.distance.nan() && !lower.braking.nan(),
        !upper.distance.nan() && !upper.braking.nan(),
    ensures
        cycle.lower@[i].value() <= 0 <= cycle.upper@[i].value(),
        double::at_most(cycle.lower@[i], step) && double::at_most(step, cycle.upper@[i]) ==> {
            &&& step.value() > 0 ==> step.value() <= upper.velocity.value() && step.value()
                <= upper.distance.value() && step.value() <= upper.braking.value()
            &&& step.value() < 0 ==> -step.value() <= lower.velocity.value() && -step.value()
                <= lower.distance.value() && -step.value() <= lower.braking.value()
        },
        cycle.lower@[i].value() == -lower.bound().value(),
        cycle.upper@[i].value() == upper.bound().value(),
        cycle.velocity_lower@[i].value() == -lower.velocity.value(),
        cycle.velocity_upper@[i].value() == upper.velocity.value(),
        cycle.position_lower@[i] <==> double::above(lower.least, lower.braking),
        cycle.position_upper@[i] <==> double::above(upper.least, upper.braking),
{
    broadcast use double::group_order;

    law_bound_is_the_tightest(lower);
    law_bound_is_the_tightest(upper);
    double::law_signs(lower.bound());
    double::law_signs(lower.velocity);
}

/// A pin has the side of the joint's bound, and tells the two kinds of bound apart: one on a
/// position bound, two on a velocity bound, none on a free joint.
pub proof fn law_pin_tells_the_bound(cycle: CycleBox, i: int, side: i8)
    requires
        0 <= i < 7,
    ensures
        cycle.pinned(i, side) < 0 <==> side < 0,
        cycle.pinned(i, side) > 0 <==> side > 0,
        side < 0 && cycle.position_lower@[i] || side > 0 && cycle.position_upper@[i]
            <==> cycle.pinned(i, side) == 1 || cycle.pinned(i, side) == -1,
        -2 <= cycle.pinned(i, side) <= 2,
{
}

} // verus!
