//! The stall flag: how hard the residual pushes the pinned joints into their bounds, a hysteresis
//! on the position pins' pressure that says the goal is held at a position limit, and the walls of
//! the motion that those pins withhold.
//!
//! A pin's pressure is the residual along its unit column of the weighted Jacobian, counted into
//! its bound and taken over the whole task or its translation rows alone, whichever pushes harder.
//! The projections are measured outside.
use crate::double::Double;
use crate::double;
use vstd::prelude::*;

verus! {

/// Position pressure, weighted m per cycle, above which the flag is set at once: 2e-5, as a bit
/// pattern.
pub const STALL_ON: u64 = 0x3ef4_f8b5_88e3_68f1;

/// Quiet cycles that clear the flag.
pub const STALL_QUIET_CYCLES: u32 = 20;

/// Cycles the quiet ones are counted over.
pub const STALL_QUIET_WINDOW: u32 = 40;

/// Weighted m: withheld motion, or a pin's push, under this is rounding: 1e-12, as a bit pattern.
pub const WALL_FLOOR: u64 = 0x3d71_9799_812d_ea11;

/// A block's wall: the direction of the motion withheld, and the pins withholding it.
#[derive(Clone, Copy, PartialEq, Debug)]
pub struct Wall {
    pub normal: [Double; 3],
    pub joints: [i8; 7],
}

/// The stall flag and what it is made from.
#[derive(Clone, Copy, PartialEq, Debug)]
pub struct Stall {
    /// The largest pressure into a position bound this cycle.
    pub position: Double,
    /// The largest pressure into a velocity bound this cycle.
    pub velocity: Double,
    pub stalled: bool,
    /// Per block (translation, rotation), the wall of the motion withheld.
    pub withheld: [Option<Wall>; 2],
    /// One bit per cycle, newest last: whether it was quiet.
    pub quiet: u64,
}

/// Bit `i` of the record of quiet cycles: whether the cycle `i` cycles ago was one.
pub open spec fn was_quiet(quiet: u64, i: u64) -> bool {
    (quiet >> i) & 1 == 1
}

/// How many of the last `n` cycles were quiet.
pub open spec fn quiet_of(quiet: u64, n: nat) -> nat
    decreases n,
{
    if n == 0 {
        0
    } else {
        quiet_of(quiet, (n - 1) as nat) + if was_quiet(quiet, (n - 1) as u64) {
            1nat
        } else {
            0nat
        }
    }
}

/// The record with one more cycle.
pub open spec fn noted(quiet: u64, now: bool) -> u64 {
    (quiet << 1) | if now {
        1u64
    } else {
        0u64
    }
}

/// A new cycle is the newest, and every other is one cycle older than it was.
pub proof fn law_noted(quiet: u64, now: bool, i: u64)
    requires
        i < 63,
    ensures
        was_quiet(noted(quiet, now), 0) == now,
        was_quiet(noted(quiet, now), (i + 1) as u64) == was_quiet(quiet, i),
{
    let bit = if now {
        1u64
    } else {
        0u64
    };
    assert((((quiet << 1) | bit) >> 0) & 1 == bit) by (bit_vector)
        requires
            bit == 0 || bit == 1,
    ;
    let next = (i + 1) as u64;
    assert((((quiet << 1) | bit) >> next) & 1 == (quiet >> i) & 1) by (bit_vector)
        requires
            bit == 0 || bit == 1,
            i < 63,
            next == i + 1,
    ;
}

/// The quiet cycles among the last `n + 1` are those among the `n` before and the newest.
proof fn lemma_quiet_of_noted(quiet: u64, now: bool, n: nat)
    requires
        n < 63,
    ensures
        quiet_of(noted(quiet, now), n + 1) == quiet_of(quiet, n) + if now {
            1nat
        } else {
            0nat
        },
    decreases n,
{
    law_noted(quiet, now, n as u64);
    if n > 0 {
        lemma_quiet_of_noted(quiet, now, (n - 1) as nat);
        law_noted(quiet, now, (n - 1) as u64);
        assert(((n - 1) as u64 + 1) as u64 == n as u64);
    } else {
        assert(quiet_of(noted(quiet, now), 0) == 0);
    }
}

/// Of more cycles no fewer were quiet.
proof fn lemma_quiet_of_grows(quiet: u64, n: nat, m: nat)
    requires
        n <= m,
    ensures
        quiet_of(quiet, n) <= quiet_of(quiet, m) <= quiet_of(quiet, n) + (m - n),
    decreases m,
{
    if n < m {
        lemma_quiet_of_grows(quiet, n, (m - 1) as nat);
    }
}

/// What a pin does this cycle.
#[derive(Clone, Copy, PartialEq, Eq, Structural, Debug)]
pub enum Push {
    /// The joint is free.
    Free,
    /// It is on a position bound and pushes into it over the whole task.
    Whole,
    /// It is on a position bound and pushes into it harder over the translation alone.
    Part,
    /// It is on a velocity bound, or does not push.
    Idle,
}

/// The pressure of a joint: over the whole task or over the translation alone, whichever is harder.
pub open spec fn pressure(whole: Double, part: Double) -> Double {
    if whole.lt(part) {
        part
    } else {
        whole
    }
}

/// What a pin does, from its pressures.
pub open spec fn push_of(pin: i8, whole: Double, part: Double) -> Push {
    if pin == 0 {
        Push::Free
    } else if (pin == 1 || pin == -1) && (Double { bits: 0 }).lt(pressure(whole, part)) {
        if whole.lt(part) {
            Push::Part
        } else {
            Push::Whole
        }
    } else {
        Push::Idle
    }
}

/// The largest pressure into a position bound of the first `n` joints, zero where there is none.
pub open spec fn position_pressure(pinned: Seq<i8>, whole: Seq<Double>, part: Seq<Double>, n: nat) -> Double
    decreases n,
{
    if n == 0 {
        Double { bits: 0 }
    } else {
        let i = n - 1;
        let before = position_pressure(pinned, whole, part, i as nat);
        let push = push_of(pinned[i], whole[i], part[i]);
        if push is Whole || push is Part {
            before.larger(pressure(whole[i], part[i]))
        } else {
            before
        }
    }
}

/// The largest pressure into a velocity bound of the first `n` joints, zero where there is none.
pub open spec fn velocity_pressure(pinned: Seq<i8>, whole: Seq<Double>, part: Seq<Double>, n: nat) -> Double
    decreases n,
{
    if n == 0 {
        Double { bits: 0 }
    } else {
        let i = n - 1;
        let before = velocity_pressure(pinned, whole, part, i as nat);
        if pinned[i] > 1 || pinned[i] < -1 {
            before.larger(pressure(whole[i], part[i]).larger(Double { bits: 0 }))
        } else {
            before
        }
    }
}

/// What the pins do in a cycle.
#[derive(Clone, Copy, PartialEq, Debug)]
pub struct Pressures {
    /// The largest pressure into a position bound.
    pub position: Double,
    /// The largest pressure into a velocity bound.
    pub velocity: Double,
    pub pushes: [Push; 7],
}

/// What the pins do in a cycle, from the pressures of each joint over the whole task and over the
/// translation alone.
pub fn pressures(pinned: &[i8; 7], whole: &[Double; 7], part: &[Double; 7]) -> (r: Pressures)
    ensures
        r.position == position_pressure(pinned@, whole@, part@, 7),
        r.velocity == velocity_pressure(pinned@, whole@, part@, 7),
        forall|i: int|
            0 <= i < 7 ==> #[trigger] r.pushes@[i] == push_of(pinned@[i], whole@[i], part@[i]),
{
    let zero = Double { bits: 0 };
    let mut position = zero;
    let mut velocity = zero;
    let mut pushes = [Push::Free; 7];
    let mut i: usize = 0;
    while i < 7
        invariant
            i <= 7,
            zero == (Double { bits: 0 }),
            position == position_pressure(pinned@, whole@, part@, i as nat),
            velocity == velocity_pressure(pinned@, whole@, part@, i as nat),
            forall|j: int|
                0 <= j < i ==> #[trigger] pushes@[j] == push_of(pinned@[j], whole@[j], part@[j]),
        decreases 7 - i,
    {
        let harder = whole[i].less(part[i]);
        let pressure = if harder {
            part[i]
        } else {
            whole[i]
        };
        let pin: i8 = pinned[i];
        if pin == 0 {
            pushes[i] = Push::Free;
        } else if pin == 1 || pin == -1 {
            if zero.less(pressure) {
                position = position.max(pressure);
                pushes[i] = if harder {
                    Push::Part
                } else {
                    Push::Whole
                };
            } else {
                pushes[i] = Push::Idle;
            }
        } else {
            velocity = velocity.max(pressure.max(zero));
            pushes[i] = Push::Idle;
        }
        i = i + 1;
    }
    Pressures { position, velocity, pushes }
}

/// What is measured of a block's withheld motion.
#[derive(Clone, Copy, PartialEq, Debug)]
pub struct Block {
    /// How much is withheld.
    pub size: Double,
    /// The share of what the pins withhold in all that it must exceed.
    pub least: Double,
    /// Its direction.
    pub normal: [Double; 3],
    /// Each pin's share along it.
    pub along: [Double; 7],
    /// The share that makes a pin one of the wall's.
    pub least_along: Double,
}

/// The sign of a pin.
pub open spec fn sign(pin: i8) -> int {
    if pin < 0 {
        -1
    } else if pin > 0 {
        1
    } else {
        0
    }
}

/// Whether a wall is that of a block.
pub open spec fn walled(pinned: Seq<i8>, block: Option<Block>, wall: Option<Wall>) -> bool {
    match block {
        Some(block) => if block.least.lt(block.size) {
            wall matches Some(wall) && wall.normal == block.normal && forall|i: int|
                0 <= i < 7 ==> #[trigger] wall.joints@[i] == if block.least_along.lt(block.along@[i]) {
                    sign(pinned[i])
                } else {
                    0
                }
        } else {
            wall is None
        },
        None => wall is None,
    }
}

/// The wall of a block, if it withholds enough.
fn wall_of(pinned: &[i8; 7], block: &Option<Block>) -> (wall: Option<Wall>)
    ensures
        walled(pinned@, *block, wall),
{
    match block {
        None => None,
        Some(block) => {
            if !block.least.less(block.size) {
                return None;
            }
            let mut joints = [0i8; 7];
            let mut i: usize = 0;
            while i < 7
                invariant
                    i <= 7,
                    forall|j: int|
                        0 <= j < i ==> #[trigger] joints@[j] == if block.least_along.lt(
                            block.along@[j],
                        ) {
                            sign(pinned@[j])
                        } else {
                            0
                        },
                decreases 7 - i,
            {
                if block.least_along.less(block.along[i]) {
                    joints[i] = if pinned[i] < 0 {
                        -1
                    } else if pinned[i] > 0 {
                        1
                    } else {
                        0
                    };
                } else {
                    joints[i] = 0;
                }
                i = i + 1;
            }
            Some(Wall { normal: block.normal, joints })
        },
    }
}

impl Stall {
    /// Nothing pushes, nothing is withheld.
    pub open spec fn none() -> Stall {
        Stall {
            position: Double { bits: 0 },
            velocity: Double { bits: 0 },
            stalled: false,
            withheld: [None, None],
            quiet: 0,
        }
    }

    /// The flag after a cycle with these pressures. A cycle whose position pressure is at or below
    /// [`WALL_FLOOR`] is quiet: any push at all counts. The flag clears on [`STALL_QUIET_CYCLES`]
    /// quiet cycles within the last [`STALL_QUIET_WINDOW`].
    pub open spec fn recorded(self, position: Double, velocity: Double) -> Stall {
        if (Double { bits: STALL_ON }).lt(position) {
            Stall { position, velocity, quiet: 0, stalled: true, ..self }
        } else {
            let quiet = noted(self.quiet, position.le(Double { bits: WALL_FLOOR }));
            Stall {
                position,
                velocity,
                quiet,
                stalled: self.stalled && quiet_of(quiet, STALL_QUIET_WINDOW as nat)
                    < STALL_QUIET_CYCLES,
                ..self
            }
        }
    }

    /// How many of the cycles of the window were quiet.
    fn quiet_cycles(&self) -> (n: u32)
        ensures
            n == quiet_of(self.quiet, STALL_QUIET_WINDOW as nat),
    {
        let mut n: u32 = 0;
        let mut i: u32 = 0;
        while i < STALL_QUIET_WINDOW
            invariant
                i <= STALL_QUIET_WINDOW,
                n == quiet_of(self.quiet, i as nat),
                n <= i,
            decreases STALL_QUIET_WINDOW - i,
        {
            if (self.quiet >> (i as u64)) & 1 == 1 {
                n = n + 1;
            }
            i = i + 1;
        }
        n
    }

    /// The hysteresis on the pressures of a cycle.
    pub fn record(&mut self, position: Double, velocity: Double)
        ensures
            *final(self) == old(self).recorded(position, velocity),
    {
        if (Double { bits: STALL_ON }).less(position) {
            self.quiet = 0;
            self.stalled = true;
        } else {
            let now: u64 = if position.less_or_equal(Double { bits: WALL_FLOOR }) {
                1
            } else {
                0
            };
            self.quiet = (self.quiet << 1) | now;
            self.stalled = self.stalled && self.quiet_cycles() < STALL_QUIET_CYCLES;
        }
        self.position = position;
        self.velocity = velocity;
    }

    /// Updates the flag and the walls on a cycle's pins: the pressures of each joint over the whole
    /// task and over the translation alone, how much the pins withhold together, and what is
    /// measured of the two blocks, `None` where the free joints' factor failed.
    pub fn update(
        &mut self,
        pinned: &[i8; 7],
        whole: &[Double; 7],
        part: &[Double; 7],
        pushed: Double,
        blocks: &[Option<Block>; 2],
    )
        ensures
            ({
                let before = Stall { withheld: final(self).withheld, ..*old(self) };
                *final(self) == before.recorded(
                    position_pressure(pinned@, whole@, part@, 7),
                    velocity_pressure(pinned@, whole@, part@, 7),
                )
            }),
            (Double { bits: WALL_FLOOR }).lt(pushed) ==> walled(
                pinned@,
                blocks@[0],
                final(self).withheld@[0],
            ) && walled(pinned@, blocks@[1], final(self).withheld@[1]),
            !(Double { bits: WALL_FLOOR }).lt(pushed) ==> final(self).withheld@[0] is None
                && final(self).withheld@[1] is None,
    {
        if (Double { bits: WALL_FLOOR }).less(pushed) {
            self.withheld = [wall_of(pinned, &blocks[0]), wall_of(pinned, &blocks[1])];
        } else {
            self.withheld = [None, None];
        }
        let pressures = pressures(pinned, whole, part);
        self.record(pressures.position, pressures.velocity);
    }

    /// The flag after many cycles, given the position pressure of each.
    pub open spec fn after(self, pressures: Seq<Double>) -> Stall
        decreases pressures.len(),
    {
        if pressures.len() == 0 {
            self
        } else {
            self.after(pressures.drop_last()).recorded(pressures.last(), Double { bits: 0 })
        }
    }
}

impl Default for Stall {
    /// Nothing pushes, nothing is withheld.
    fn default() -> (stall: Stall)
        ensures
            stall == Stall::none(),
    {
        Stall {
            position: Double { bits: 0 },
            velocity: Double { bits: 0 },
            stalled: false,
            withheld: [None, None],
            quiet: 0,
        }
    }
}

/// A push above the threshold sets the flag at once.
pub proof fn law_flag_is_set_at_once(stall: Stall, position: Double, velocity: Double)
    requires
        (Double { bits: STALL_ON }).lt(position),
    ensures
        stall.recorded(position, velocity).stalled,
{
}

/// How many of the cycles since the flag was set were quiet, at most.
proof fn lemma_quiet_since(stall: Stall, pressures: Seq<Double>)
    requires
        stall.stalled,
        stall.quiet == 0,
    ensures
        quiet_of(stall.after(pressures).quiet, STALL_QUIET_WINDOW as nat) <= pressures.len(),
    decreases pressures.len(),
{
    let window = STALL_QUIET_WINDOW as nat;
    if pressures.len() > 0 {
        lemma_quiet_since(stall, pressures.drop_last());
        let before = stall.after(pressures.drop_last());
        let quiet = pressures.last().le(Double { bits: WALL_FLOOR });
        lemma_quiet_of_noted(before.quiet, quiet, (window - 1) as nat);
        lemma_quiet_of_grows(before.quiet, (window - 1) as nat, window);
        lemma_no_quiet(window);
    } else {
        lemma_no_quiet(window);
    }
}

/// An empty record holds no quiet cycle.
proof fn lemma_no_quiet(n: nat)
    ensures
        n <= 64 ==> quiet_of(0, n) == 0,
    decreases n,
{
    if n > 0 && n <= 64 {
        lemma_no_quiet((n - 1) as nat);
        let i = (n - 1) as u64;
        assert((0u64 >> i) & 1 == 0) by (bit_vector)
            requires
                i < 64,
        ;
    }
}

/// The flag stays for at least as many cycles as it takes quiet ones to clear it, whatever they are.
pub proof fn law_flag_outlives_a_short_quiet(stall: Stall, pressures: Seq<Double>)
    requires
        stall.stalled,
        stall.quiet == 0,
        pressures.len() < STALL_QUIET_CYCLES,
    ensures
        stall.after(pressures).stalled,
    decreases pressures.len(),
{
    if pressures.len() > 0 {
        law_flag_outlives_a_short_quiet(stall, pressures.drop_last());
        lemma_quiet_since(stall, pressures);
    }
}

/// A pin that is pushed in every cycle, however lightly, holds the flag for ever.
pub proof fn law_pushed_pin_holds_the_flag(stall: Stall, pressures: Seq<Double>)
    requires
        stall.stalled,
        stall.quiet == 0,
        forall|i: int|
            0 <= i < pressures.len() ==> !(#[trigger] pressures[i]).le(Double { bits: WALL_FLOOR }),
    ensures
        stall.after(pressures).stalled,
        quiet_of(stall.after(pressures).quiet, STALL_QUIET_WINDOW as nat) == 0,
    decreases pressures.len(),
{
    let window = STALL_QUIET_WINDOW as nat;
    lemma_no_quiet(window);
    if pressures.len() > 0 {
        let earlier = pressures.drop_last();
        assert forall|i: int| 0 <= i < earlier.len() implies !(#[trigger] earlier[i]).le(
            Double { bits: WALL_FLOOR },
        ) by {
            assert(!pressures[i].le(Double { bits: WALL_FLOOR }));
        }
        law_pushed_pin_holds_the_flag(stall, earlier);
        let before = stall.after(earlier);
        lemma_quiet_of_noted(before.quiet, false, (window - 1) as nat);
        lemma_quiet_of_grows(before.quiet, (window - 1) as nat, window);
    }
}

/// How many of the newest cycles are quiet after a run of quiet ones.
proof fn lemma_quiet_run(stall: Stall, pressures: Seq<Double>)
    requires
        pressures.len() <= STALL_QUIET_WINDOW,
        forall|i: int|
            0 <= i < pressures.len() ==> (#[trigger] pressures[i]).le(Double { bits: WALL_FLOOR }),
    ensures
        quiet_of(stall.after(pressures).quiet, pressures.len()) == pressures.len(),
    decreases pressures.len(),
{
    if pressures.len() > 0 {
        let earlier = pressures.drop_last();
        assert forall|i: int| 0 <= i < earlier.len() implies (#[trigger] earlier[i]).le(
            Double { bits: WALL_FLOOR },
        ) by {
            assert(pressures[i].le(Double { bits: WALL_FLOOR }));
        }
        lemma_quiet_run(stall, earlier);
        let last = pressures.last();
        assert(pressures[pressures.len() - 1].le(Double { bits: WALL_FLOOR }));
        lemma_floor_is_below_the_threshold(last);
        lemma_quiet_of_noted(stall.after(earlier).quiet, true, earlier.len());
    }
}

/// A quiet cycle does not set the flag.
proof fn lemma_floor_is_below_the_threshold(position: Double)
    requires
        position.le(Double { bits: WALL_FLOOR }),
    ensures
        !(Double { bits: STALL_ON }).lt(position),
{
    let floor = Double { bits: WALL_FLOOR };
    let on = Double { bits: STALL_ON };
    assert(floor.magnitude() == WALL_FLOOR && on.magnitude() == STALL_ON);
    crate::double::lemma_scaled_increases(WALL_FLOOR as nat, STALL_ON as nat);
}

/// A run of [`STALL_QUIET_CYCLES`] quiet cycles clears the flag.
pub proof fn law_quiet_run_clears_the_flag(stall: Stall, pressures: Seq<Double>)
    requires
        pressures.len() == STALL_QUIET_CYCLES,
        forall|i: int|
            0 <= i < pressures.len() ==> (#[trigger] pressures[i]).le(Double { bits: WALL_FLOOR }),
    ensures
        !stall.after(pressures).stalled,
{
    lemma_quiet_run(stall, pressures);
    let quiet = stall.after(pressures).quiet;
    lemma_quiet_of_grows(quiet, STALL_QUIET_CYCLES as nat, STALL_QUIET_WINDOW as nat);
    assert(pressures[pressures.len() - 1].le(Double { bits: WALL_FLOOR }));
    lemma_floor_is_below_the_threshold(pressures.last());
}

/// The pressure of a joint is the harder of the two pushes.
pub proof fn law_pressure_is_the_harder_push(whole: Double, part: Double)
    requires
        !whole.nan(),
        !part.nan(),
    ensures
        pressure(whole, part) == whole || pressure(whole, part) == part,
        double::at_most(whole, pressure(whole, part)),
        double::at_most(part, pressure(whole, part)),
        whole.value() == part.value() ==> pressure(whole, part) == whole,
{
    broadcast use double::group_order;

}

/// A joint pushes into a position bound exactly where it is pinned on one and either push of it is
/// above zero; it is the translation's push exactly where that is the harder one. A joint that is
/// not pinned is free.
pub proof fn law_push(pin: i8, whole: Double, part: Double)
    requires
        !whole.nan(),
        !part.nan(),
    ensures
        push_of(pin, whole, part) is Free <==> pin == 0,
        push_of(pin, whole, part) is Whole || push_of(pin, whole, part) is Part <==> (pin == 1 || pin
            == -1) && (whole.value() > 0 || part.value() > 0),
        push_of(pin, whole, part) is Part ==> part.value() > whole.value(),
        push_of(pin, whole, part) is Whole ==> whole.value() >= part.value(),
{
    broadcast use double::group_order;

    assert((Double { bits: 0 }).value() == 0);
}

/// The pressure into the position bounds is that of the joint that is pushed hardest into one: no
/// push of a joint on a position bound is above it, it is never below zero, and where it is above
/// zero it is such a push.
pub proof fn law_position_pressure_is_the_hardest(
    pinned: Seq<i8>,
    whole: Seq<Double>,
    part: Seq<Double>,
    n: nat,
)
    requires
        forall|i: int| 0 <= i < n ==> !(#[trigger] whole[i]).nan() && !part[i].nan(),
    ensures
        ({
            let hardest = position_pressure(pinned, whole, part, n);
            &&& !hardest.nan()
            &&& hardest.value() >= 0
            &&& forall|i: int|
                0 <= i < n && (pinned[i] == 1 || pinned[i] == -1) ==> double::at_most(
                    #[trigger] whole[i],
                    hardest,
                ) && double::at_most(part[i], hardest)
            &&& hardest.value() > 0 ==> exists|i: int|
                0 <= i < n && (pinned[i] == 1 || pinned[i] == -1) && (hardest == #[trigger] whole[i]
                    || hardest == part[i])
        }),
    decreases n,
{
    broadcast use double::group_order;

    assert((Double { bits: 0 }).value() == 0);
    if n > 0 {
        let i = n - 1;
        law_position_pressure_is_the_hardest(pinned, whole, part, i as nat);
        let before = position_pressure(pinned, whole, part, i as nat);
        let (w, p) = (whole[i], part[i]);
        law_push(pinned[i], w, p);
        law_pressure_is_the_harder_push(w, p);
        double::law_extremes(before, pressure(w, p));
        let hardest = position_pressure(pinned, whole, part, n);
        if hardest.value() > 0 {
            if hardest == before {
                let k = choose|k: int|
                    0 <= k < i && (pinned[k] == 1 || pinned[k] == -1) && (before == #[trigger] whole[k]
                        || before == part[k]);
                assert(hardest == whole[k] || hardest == part[k]);
            } else {
                assert(hardest == whole[i] || hardest == part[i]);
            }
        }
    }
}

/// The pressure into the velocity bounds is that of the joint that is pushed hardest into one, and
/// zero where none is.
pub proof fn law_velocity_pressure_is_the_hardest(
    pinned: Seq<i8>,
    whole: Seq<Double>,
    part: Seq<Double>,
    n: nat,
)
    requires
        forall|i: int| 0 <= i < n ==> !(#[trigger] whole[i]).nan() && !part[i].nan(),
    ensures
        ({
            let hardest = velocity_pressure(pinned, whole, part, n);
            &&& !hardest.nan()
            &&& hardest.value() >= 0
            &&& forall|i: int|
                0 <= i < n && (pinned[i] >= 2 || pinned[i] <= -2) ==> double::at_most(
                    #[trigger] whole[i],
                    hardest,
                ) && double::at_most(part[i], hardest)
            &&& hardest.value() > 0 ==> exists|i: int|
                0 <= i < n && (pinned[i] >= 2 || pinned[i] <= -2) && (hardest == #[trigger] whole[i]
                    || hardest == part[i])
        }),
    decreases n,
{
    broadcast use double::group_order;

    let zero = Double { bits: 0 };
    assert(zero.value() == 0);
    if n > 0 {
        let i = n - 1;
        law_velocity_pressure_is_the_hardest(pinned, whole, part, i as nat);
        let before = velocity_pressure(pinned, whole, part, i as nat);
        let (w, p) = (whole[i], part[i]);
        law_pressure_is_the_harder_push(w, p);
        double::law_extremes(pressure(w, p), zero);
        double::law_extremes(before, pressure(w, p).larger(zero));
        let hardest = velocity_pressure(pinned, whole, part, n);
        if hardest.value() > 0 {
            if hardest == before {
                let k = choose|k: int|
                    0 <= k < i && (pinned[k] >= 2 || pinned[k] <= -2) && (before == #[trigger] whole[k]
                        || before == part[k]);
                assert(hardest == whole[k] || hardest == part[k]);
            } else {
                assert(hardest == whole[i] || hardest == part[i]);
            }
        }
    }
}

/// Whether the pressure of a cycle counts as none: whether it is at most 1e-12.
pub open spec fn is_quiet(pressure: Double) -> bool {
    double::at_most(pressure, Double { bits: 0x3d71_9799_812d_ea11 })
}

/// How many of the last `window` cycles pushed nothing.
pub open spec fn quiet_among(pressures: Seq<Double>, window: nat) -> nat
    decreases pressures.len(),
{
    if pressures.len() == 0 || window == 0 {
        0
    } else {
        quiet_among(pressures.drop_last(), (window - 1) as nat) + if is_quiet(pressures.last()) {
            1nat
        } else {
            0nat
        }
    }
}

/// The record holds the quiet cycles since it was emptied.
proof fn lemma_record_is_of_the_pressures(stall: Stall, pressures: Seq<Double>, window: nat)
    requires
        stall.quiet == 0,
        window <= 40,
        forall|i: int|
            0 <= i < pressures.len() ==> !double::above(
                #[trigger] pressures[i],
                Double { bits: STALL_ON },
            ),
    ensures
        quiet_of(stall.after(pressures).quiet, window) == quiet_among(pressures, window),
    decreases pressures.len(),
{
    broadcast use double::group_order;

    lemma_no_quiet(window);
    if pressures.len() > 0 && window > 0 {
        let earlier = pressures.drop_last();
        assert forall|i: int| 0 <= i < earlier.len() implies !double::above(
            #[trigger] earlier[i],
            Double { bits: STALL_ON },
        ) by {
            assert(earlier[i] == pressures[i]);
        }
        lemma_record_is_of_the_pressures(stall, earlier, (window - 1) as nat);
        let last = pressures.last();
        assert(last == pressures[pressures.len() - 1]);
        assert(!(Double { bits: STALL_ON }).lt(last));
        lemma_quiet_of_noted(
            stall.after(earlier).quiet,
            last.le(Double { bits: WALL_FLOOR }),
            (window - 1) as nat,
        );
    }
}

/// The flag clears on twenty quiet cycles within forty, in whatever order they come: while nothing
/// pushes hard enough to set it anew, it is set exactly as long as no forty cycles in a row since it
/// was set had twenty quiet ones.
pub proof fn law_flag_clears_on_twenty_of_forty(stall: Stall, pressures: Seq<Double>)
    requires
        stall.stalled,
        stall.quiet == 0,
        forall|i: int|
            0 <= i < pressures.len() ==> !double::above(
                #[trigger] pressures[i],
                Double { bits: 0x3ef4_f8b5_88e3_68f1 },
            ),
    ensures
        stall.after(pressures).stalled <==> forall|k: int|
            0 <= k <= pressures.len() ==> quiet_among(#[trigger] pressures.take(k), 40) < 20,
    decreases pressures.len(),
{
    broadcast use double::group_order;

    if pressures.len() > 0 {
        let earlier = pressures.drop_last();
        assert forall|i: int| 0 <= i < earlier.len() implies !double::above(
            #[trigger] earlier[i],
            Double { bits: STALL_ON },
        ) by {
            assert(earlier[i] == pressures[i]);
        }
        law_flag_clears_on_twenty_of_forty(stall, earlier);
        lemma_record_is_of_the_pressures(stall, pressures, 40);
        assert(pressures.last() == pressures[pressures.len() - 1]);
        assert(!(Double { bits: STALL_ON }).lt(pressures.last()));
        assert(pressures.take(pressures.len() as int) =~= pressures);
        assert forall|k: int| 0 <= k <= earlier.len() implies #[trigger] earlier.take(k)
            == pressures.take(k) by {
            assert(earlier.take(k) =~= pressures.take(k));
        }
        if stall.after(pressures).stalled {
            assert forall|k: int| 0 <= k <= pressures.len() implies quiet_among(
                #[trigger] pressures.take(k),
                40,
            ) < 20 by {
                if k < pressures.len() {
                    assert(earlier.take(k) == pressures.take(k));
                }
            }
        } else if forall|k: int|
            0 <= k <= pressures.len() ==> quiet_among(#[trigger] pressures.take(k), 40) < 20 {
            assert forall|k: int| 0 <= k <= earlier.len() implies quiet_among(
                #[trigger] earlier.take(k),
                40,
            ) < 20 by {
                assert(earlier.take(k) == pressures.take(k));
            }
            assert(quiet_among(pressures.take(pressures.len() as int), 40) < 20);
        }
    } else {
        assert(pressures.take(0) =~= pressures);
    }
}

/// Only a push above the threshold, 2e-5, sets the flag; it then also forgets the quiet cycles before it.
/// The pressures that are kept are those of the cycle, and the walls are not touched.
pub proof fn law_only_a_push_sets_the_flag(stall: Stall, position: Double, velocity: Double)
    ensures
        ({
            let after = stall.recorded(position, velocity);
            let pushed = double::above(position, Double { bits: 0x3ef4_f8b5_88e3_68f1 });
            &&& pushed ==> after.stalled && after.quiet == 0
            &&& !pushed && !stall.stalled ==> !after.stalled
            &&& after.position == position
            &&& after.velocity == velocity
            &&& after.withheld == stall.withheld
        }),
{
    broadcast use double::group_order;

}

/// A block has a wall exactly where more is withheld than the share that counts. The wall faces the
/// motion that is withheld, and a joint belongs to it exactly where it is pinned and withholds more
/// than its own share, with the side that it is pinned on.
pub proof fn law_wall(pinned: Seq<i8>, block: Block, wall: Option<Wall>, i: int)
    requires
        walled(pinned, Some(block), wall),
        0 <= i < 7,
    ensures
        wall is Some <==> double::above(block.size, block.least),
        wall matches Some(wall) ==> {
            &&& wall.normal == block.normal
            &&& wall.joints@[i] != 0 <==> pinned[i] != 0 && double::above(
                block.along@[i],
                block.least_along,
            )
            &&& wall.joints@[i] < 0 ==> pinned[i] < 0
            &&& wall.joints@[i] > 0 ==> pinned[i] > 0
            &&& -1 <= wall.joints@[i] <= 1
        },
{
    broadcast use double::group_order;

}

/// There is no wall without a block.
pub proof fn law_no_block_no_wall(pinned: Seq<i8>, wall: Option<Wall>)
    requires
        walled(pinned, None, wall),
    ensures
        wall is None,
{
}

} // verus!
