//! IEEE 754 binary64 numbers, held as their bit patterns.
//!
//! A robot command is a block of doubles, and every decision this crate takes about one (is it
//! finite, is it within a limit, is it the elbow sign `-1`) depends on its class and its place in
//! the order of the numbers. Both are properties of the bit pattern.
use vstd::arithmetic::power2::*;
use vstd::prelude::*;

verus! {

/// The pattern of positive infinity: every exponent bit set, every fraction bit clear.
pub const INFINITY_BITS: u64 = 0x7ff0_0000_0000_0000;

/// The sign bit.
pub const SIGN_BIT: u64 = 0x8000_0000_0000_0000;

/// One more than the largest fraction.
pub const FRACTION_LIMIT: u64 = 0x10_0000_0000_0000;

/// A binary64 number.
///
/// `==` compares bit patterns; [`Double::equals`] and [`Double::less`] compare numbers.
#[derive(Clone, Copy, PartialEq, Eq, Structural, Debug, Hash)]
pub struct Double {
    /// The bit pattern, as `f64::to_bits` gives it.
    pub bits: u64,
}

/// The distance from zero of a number whose bits without the sign are `magnitude`, in units of
/// the smallest subnormal number.
pub open spec fn scaled(magnitude: nat) -> nat {
    let exponent = magnitude / FRACTION_LIMIT as nat;
    let fraction = magnitude % FRACTION_LIMIT as nat;
    if exponent == 0 {
        fraction
    } else {
        (FRACTION_LIMIT + fraction) as nat * pow2((exponent - 1) as nat)
    }
}

/// A larger bit pattern stands for a larger distance from zero.
pub proof fn lemma_scaled_increases(a: nat, b: nat)
    requires
        a < b,
    ensures
        scaled(a) < scaled(b),
{
    let limit = FRACTION_LIMIT as nat;
    let ea = a / limit;
    let eb = b / limit;
    let fa = a % limit;
    let fb = b % limit;
    assert(a == ea * limit + fa && b == eb * limit + fb && fa < limit && fb < limit) by (nonlinear_arith)
        requires
            limit == 0x10_0000_0000_0000nat,
            ea == a / limit,
            eb == b / limit,
            fa == a % limit,
            fb == b % limit,
    ;
    assert(ea <= eb) by (nonlinear_arith)
        requires
            a < b,
            limit == 0x10_0000_0000_0000nat,
            ea == a / limit,
            eb == b / limit,
    ;
    if ea == eb {
        assert(fa < fb);
        if ea > 0 {
            let p = pow2((ea - 1) as nat);
            lemma_pow2_pos((ea - 1) as nat);
            assert((limit + fa) * p < (limit + fb) * p) by (nonlinear_arith)
                requires
                    fa < fb,
                    p > 0,
            ;
        }
    } else {
        let p = pow2((eb - 1) as nat);
        lemma_pow2_pos((eb - 1) as nat);
        assert((limit + fb) * p >= limit * p) by (nonlinear_arith)
            requires
                p > 0,
        ;
        if ea == 0 {
            assert(limit * p >= limit) by (nonlinear_arith)
                requires
                    p > 0,
            ;
        } else {
            let q = pow2((ea - 1) as nat);
            lemma_pow2_pos((ea - 1) as nat);
            lemma_pow2_unfold(ea);
            if ea < eb - 1 {
                lemma_pow2_strictly_increases(ea, (eb - 1) as nat);
            }
            assert((limit + fa) * q < limit * p) by (nonlinear_arith)
                requires
                    fa < limit,
                    q > 0,
                    p >= 2 * q,
            ;
        }
    }
}

impl Double {
    /// The bits without the sign.
    pub open spec fn magnitude(self) -> nat {
        if self.bits >= SIGN_BIT {
            (self.bits - SIGN_BIT) as nat
        } else {
            self.bits as nat
        }
    }

    /// Whether the pattern is none of a number.
    pub open spec fn nan(self) -> bool {
        self.magnitude() > INFINITY_BITS
    }

    /// Whether the pattern is of a number other than the two infinities.
    pub open spec fn finite(self) -> bool {
        self.magnitude() < INFINITY_BITS
    }

    /// The number, in units of the smallest subnormal one. The infinities stand beyond every
    /// finite number, and the two zeros are one.
    pub open spec fn value(self) -> int {
        if self.bits >= SIGN_BIT {
            -(scaled(self.magnitude()) as int)
        } else {
            scaled(self.magnitude()) as int
        }
    }

    /// The place of the number among all of them, counted from zero: the bits without the sign,
    /// downwards where the sign is set. The two zeros share theirs.
    pub open spec fn rank(self) -> int {
        if self.bits >= SIGN_BIT {
            -(self.magnitude() as int)
        } else {
            self.magnitude() as int
        }
    }

    /// `self < other` of two numbers; false when either is none.
    pub open spec fn lt(self, other: Double) -> bool {
        !self.nan() && !other.nan() && self.rank() < other.rank()
    }

    /// `self <= other` of two numbers; false when either is none.
    pub open spec fn le(self, other: Double) -> bool {
        !self.nan() && !other.nan() && self.rank() <= other.rank()
    }

    /// `self == other` of two numbers; false when either is none.
    pub open spec fn same(self, other: Double) -> bool {
        !self.nan() && !other.nan() && self.rank() == other.rank()
    }

    /// Numbers are ordered by their values: the order of the patterns is that of what they stand
    /// for.
    pub proof fn law_order_is_of_values(a: Double, b: Double)
        ensures
            (a.rank() < b.rank()) == (a.value() < b.value()),
            (a.rank() == b.rank()) == (a.value() == b.value()),
            !a.nan() && !b.nan() ==> {
                &&& a.lt(b) == (a.value() < b.value())
                &&& a.le(b) == (a.value() <= b.value())
                &&& a.same(b) == (a.value() == b.value())
            },
    {
        let ma = a.magnitude();
        let mb = b.magnitude();
        if ma < mb {
            lemma_scaled_increases(ma, mb);
        } else if mb < ma {
            lemma_scaled_increases(mb, ma);
        }
        if ma > 0 {
            lemma_scaled_increases(0, ma);
        }
        if mb > 0 {
            lemma_scaled_increases(0, mb);
        }
        assert(scaled(0) == 0);
    }

    /// The bits without the sign.
    fn magnitude_bits(self) -> (m: u64)
        ensures
            m == self.magnitude(),
    {
        if self.bits >= SIGN_BIT {
            self.bits - SIGN_BIT
        } else {
            self.bits
        }
    }

    /// Whether this is neither an infinity nor none of a number (`f64::is_finite`).
    pub fn is_finite(self) -> (b: bool)
        ensures
            b == self.finite(),
    {
        self.magnitude_bits() < INFINITY_BITS
    }

    /// Whether this is none of a number (`f64::is_nan`).
    pub fn is_nan(self) -> (b: bool)
        ensures
            b == self.nan(),
    {
        self.magnitude_bits() > INFINITY_BITS
    }

    /// `self < other`, false when either is none of a number.
    pub fn less(self, other: Double) -> (b: bool)
        ensures
            b == self.lt(other),
    {
        if self.is_nan() || other.is_nan() {
            return false;
        }
        let a: u64 = self.magnitude_bits();
        let b: u64 = other.magnitude_bits();
        if self.bits >= SIGN_BIT {
            if other.bits >= SIGN_BIT {
                b < a
            } else {
                a > 0 || b > 0
            }
        } else if other.bits >= SIGN_BIT {
            false
        } else {
            a < b
        }
    }

    /// `self == other` of two numbers, false when either is none.
    pub fn equals(self, other: Double) -> (b: bool)
        ensures
            b == self.same(other),
    {
        if self.is_nan() || other.is_nan() {
            return false;
        }
        let a: u64 = self.magnitude_bits();
        let b: u64 = other.magnitude_bits();
        a == b && ((self.bits >= SIGN_BIT) == (other.bits >= SIGN_BIT) || a == 0)
    }

    /// `self <= other`, false when either is none of a number.
    pub fn less_or_equal(self, other: Double) -> (b: bool)
        ensures
            b == self.le(other),
    {
        self.less(other) || self.equals(other)
    }

    /// The number without its sign (`f64::abs`).
    pub fn abs(self) -> (r: Double)
        ensures
            r == self.absolute(),
            self.nan() == r.nan(),
            self.finite() == r.finite(),
            r.value() == if self.value() < 0 { -self.value() } else { self.value() },
    {
        Double { bits: self.magnitude_bits() }
    }

    /// The pattern with the sign bit clear.
    pub open spec fn absolute(self) -> Double {
        Double { bits: self.magnitude() as u64 }
    }

    /// The pattern with the other sign.
    pub open spec fn opposite(self) -> Double {
        if self.bits >= SIGN_BIT {
            Double { bits: (self.bits - SIGN_BIT) as u64 }
        } else {
            Double { bits: (self.bits + SIGN_BIT) as u64 }
        }
    }

    /// The number with the other sign (`-x`).
    pub fn negated(self) -> (r: Double)
        ensures
            r == self.opposite(),
            self.nan() == r.nan(),
            self.finite() == r.finite(),
            r.value() == -self.value(),
    {
        if self.bits >= SIGN_BIT {
            Double { bits: self.bits - SIGN_BIT }
        } else {
            Double { bits: self.bits + SIGN_BIT }
        }
    }

    /// The larger of two numbers; the other one when one is none.
    pub open spec fn larger(self, other: Double) -> Double {
        if self.nan() || self.lt(other) {
            other
        } else {
            self
        }
    }

    /// The larger of two numbers; the other one when one is none (`f64::max`).
    pub fn max(self, other: Double) -> (r: Double)
        ensures
            r == self.larger(other),
    {
        if self.is_nan() || self.less(other) {
            other
        } else {
            self
        }
    }

    /// The smaller of two numbers; the other one when one is none.
    pub open spec fn smaller(self, other: Double) -> Double {
        if self.nan() || other.lt(self) {
            other
        } else {
            self
        }
    }

    /// The smaller of two numbers; the other one when one is none (`f64::min`).
    pub fn min(self, other: Double) -> (r: Double)
        ensures
            r == self.smaller(other),
    {
        if self.is_nan() || other.less(self) {
            other
        } else {
            self
        }
    }

    /// A finite number above zero.
    pub open spec fn positive(self) -> bool {
        self.finite() && (Double { bits: 0 }).lt(self)
    }

    /// Whether this is a finite number above zero.
    pub fn is_positive(self) -> (b: bool)
        ensures
            b == self.positive(),
    {
        self.is_finite() && (Double { bits: 0 }).less(self)
    }

    /// A finite number that is not below zero.
    pub open spec fn non_negative(self) -> bool {
        self.finite() && (Double { bits: 0 }).le(self)
    }

    /// Whether this is a finite number that is not below zero.
    pub fn is_non_negative(self) -> (b: bool)
        ensures
            b == self.non_negative(),
    {
        self.is_finite() && (Double { bits: 0 }).less_or_equal(self)
    }
}

/// The order of the numbers is total: of two, one is less, or they are the same, and never two of
/// these at once.
pub proof fn law_order_is_total(a: Double, b: Double)
    requires
        !a.nan(),
        !b.nan(),
    ensures
        a.lt(b) || b.lt(a) || a.same(b),
        !(a.lt(b) && b.lt(a)),
        !(a.lt(b) && a.same(b)),
        a.le(b) == (a.lt(b) || a.same(b)),
{
}

/// The larger and the smaller of two numbers are those two numbers, in order.
pub proof fn law_larger_and_smaller(a: Double, b: Double)
    requires
        !a.nan(),
        !b.nan(),
    ensures
        a.smaller(b).le(a.larger(b)),
        a.le(a.larger(b)) && b.le(a.larger(b)),
        a.smaller(b).le(a) && a.smaller(b).le(b),
        a.larger(b) == a || a.larger(b) == b,
        a.smaller(b) == a || a.smaller(b) == b,
{
}

/// The two zeros are the same number, and every finite number lies strictly between the
/// infinities.
pub proof fn law_zero_and_infinities(a: Double)
    ensures
        (Double { bits: 0 }).same(Double { bits: SIGN_BIT }),
        a.finite() == ((Double { bits: (SIGN_BIT + INFINITY_BITS) as u64 }).lt(a) && a.lt(
            Double { bits: INFINITY_BITS },
        )),
{
}

/// Whether both are numbers and the first is above the second.
pub open spec fn above(a: Double, b: Double) -> bool {
    !a.nan() && !b.nan() && a.value() > b.value()
}

/// Whether both are numbers and the first is not above the second.
pub open spec fn at_most(a: Double, b: Double) -> bool {
    !a.nan() && !b.nan() && a.value() <= b.value()
}

/// One number is less than another exactly when both are numbers and its value is the smaller one.
pub broadcast proof fn law_less_is_of_values(a: Double, b: Double)
    ensures
        #[trigger] a.lt(b) == above(b, a),
{
    Double::law_order_is_of_values(a, b);
}

/// One number is at most another exactly when both are numbers and its value is no larger.
pub broadcast proof fn law_at_most_is_of_values(a: Double, b: Double)
    ensures
        #[trigger] a.le(b) == at_most(a, b),
{
    Double::law_order_is_of_values(a, b);
}

/// Two numbers are the same exactly when both are numbers of one value.
pub broadcast proof fn law_same_is_of_values(a: Double, b: Double)
    ensures
        #[trigger] a.same(b) == (!a.nan() && !b.nan() && a.value() == b.value()),
{
    Double::law_order_is_of_values(a, b);
}

/// The order of the values, wherever two numbers are compared.
pub broadcast group group_order {
    law_less_is_of_values,
    law_at_most_is_of_values,
    law_same_is_of_values,
}

/// Every pattern is of a finite number, of one of the two infinities, or of none, and never of two of
/// these. Taking the other sign leads from the one to the other infinity and changes nothing else
/// of this.
pub proof fn law_classes(a: Double)
    ensures
        ({
            let infinite = a == (Double { bits: INFINITY_BITS }) || a == (Double {
                bits: (SIGN_BIT + INFINITY_BITS) as u64,
            });
            &&& a.finite() || infinite || a.nan()
            &&& !(a.finite() && a.nan())
            &&& infinite ==> !a.finite() && !a.nan()
            &&& a.opposite().finite() == a.finite()
            &&& a.opposite().nan() == a.nan()
            &&& a.opposite().opposite() == a
            &&& a.opposite() != a
        }),
{
}

/// Positive is what is finite with a value above zero; not negative is what is finite with a value of
/// zero or above. The number without its sign has the distance from zero as its value.
pub proof fn law_signs(a: Double)
    ensures
        a.positive() == (a.finite() && a.value() > 0),
        a.non_negative() == (a.finite() && a.value() >= 0),
        a.opposite().value() == -a.value(),
        a.absolute().value() == if a.value() < 0 {
            -a.value()
        } else {
            a.value()
        },
        a.absolute().nan() == a.nan(),
{
    let zero = Double { bits: 0 };
    assert(zero.value() == 0);
    Double::law_order_is_of_values(zero, a);
}

/// The larger of two is the one that is a number where only one is, and otherwise has the larger
/// value of the two; the smaller likewise.
pub proof fn law_extremes(a: Double, b: Double)
    ensures
        a.nan() && !b.nan() ==> a.larger(b) == b && a.smaller(b) == b,
        !a.nan() && b.nan() ==> a.larger(b) == a && a.smaller(b) == a,
        !a.nan() && !b.nan() ==> {
            &&& a.larger(b).value() == if a.value() < b.value() {
                b.value()
            } else {
                a.value()
            }
            &&& a.smaller(b).value() == if a.value() < b.value() {
                a.value()
            } else {
                b.value()
            }
            &&& !a.larger(b).nan()
            &&& !a.smaller(b).nan()
        },
{
    Double::law_order_is_of_values(a, b);
    Double::law_order_is_of_values(b, a);
}

/// Not negative is what is finite with a value of zero or above.
pub broadcast proof fn law_non_negative_is_of_values(a: Double)
    ensures
        #[trigger] a.non_negative() == (a.finite() && a.value() >= 0),
{
    law_signs(a);
}

} // verus!
