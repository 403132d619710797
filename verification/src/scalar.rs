//! Real-valued levels, carried as the bits of IEEE-754 doubles.
//!
//! The library compares, bounds and moves levels; it never adds or multiplies
//! them. Comparing two doubles is comparing two integers (their ranks), so this
//! is exact, and a sum that a rule needs is handed in by the caller.

use vstd::prelude::*;

verus! {

/// A double, by its bits.
#[derive(Debug, Clone, Copy, PartialEq, Eq, Structural)]
pub struct Scalar {
    pub bits: u64,
}

/// The weight of the sign bit.
pub const SIGN: u64 = 0x8000_0000_0000_0000;

/// The magnitude bits of an infinity; a greater magnitude is no number.
pub const INFINITE: u64 = 0x7FF0_0000_0000_0000;

impl Scalar {
    /// The bits without the sign.
    pub open spec fn magnitude(self) -> int {
        if self.bits >= SIGN {
            self.bits - SIGN
        } else {
            self.bits as int
        }
    }

    /// The value is "not a number".
    pub open spec fn nan(self) -> bool {
        self.magnitude() > INFINITE
    }

    /// An integer that orders numbers as their values do; both zeros have rank 0.
    pub open spec fn rank(self) -> int {
        if self.bits >= SIGN {
            -self.magnitude()
        } else {
            self.magnitude()
        }
    }

    /// `self < other`, as doubles compare: never where one is not a number.
    pub open spec fn below(self, other: Scalar) -> bool {
        !self.nan() && !other.nan() && self.rank() < other.rank()
    }

    /// The value bounded to `[lo, hi]`.
    pub open spec fn bounded(self, lo: Scalar, hi: Scalar) -> Scalar {
        if self.below(lo) {
            lo
        } else if hi.below(self) {
            hi
        } else {
            self
        }
    }

    /// The greater of two values; the other one where one is not a number.
    pub open spec fn greater(self, other: Scalar) -> Scalar {
        if self.nan() || self.below(other) {
            other
        } else {
            self
        }
    }

    /// The lesser of two values; the other one where one is not a number.
    pub open spec fn lesser(self, other: Scalar) -> Scalar {
        if self.nan() || other.below(self) {
            other
        } else {
            self
        }
    }

    /// A double from its bits.
    pub fn from_bits(bits: u64) -> (r: Scalar)
        ensures
            r.bits == bits,
    {
        Scalar { bits }
    }

    fn signed_rank(self) -> (r: i128)
        ensures
            r == self.rank(),
    {
        if self.bits >= SIGN {
            -((self.bits - SIGN) as i128)
        } else {
            self.bits as i128
        }
    }

    /// Tells whether the value is "not a number".
    pub fn is_nan(self) -> (r: bool)
        ensures
            r == self.nan(),
    {
        if self.bits >= SIGN {
            self.bits - SIGN > INFINITE
        } else {
            self.bits > INFINITE
        }
    }

    /// The value is neither an infinity nor "not a number".
    pub open spec fn finite(self) -> bool {
        self.magnitude() < INFINITE
    }

    /// Tells whether the value is neither an infinity nor "not a number".
    pub fn is_finite(self) -> (r: bool)
        ensures
            r == self.finite(),
    {
        if self.bits >= SIGN {
            self.bits - SIGN < INFINITE
        } else {
            self.bits < INFINITE
        }
    }

    /// Tells whether `self < other`.
    pub fn less_than(self, other: Scalar) -> (r: bool)
        ensures
            r == self.below(other),
    {
        !self.is_nan() && !other.is_nan() && self.signed_rank() < other.signed_rank()
    }

    /// Bounds the value to `[lo, hi]`.
    pub fn clamp(self, lo: Scalar, hi: Scalar) -> (r: Scalar)
        ensures
            r == self.bounded(lo, hi),
    {
        if self.less_than(lo) {
            lo
        } else if hi.less_than(self) {
            hi
        } else {
            self
        }
    }

    /// The greater of two values.
    pub fn max(self, other: Scalar) -> (r: Scalar)
        ensures
            r == self.greater(other),
    {
        if self.is_nan() || self.less_than(other) {
            other
        } else {
            self
        }
    }

    /// The lesser of two values.
    pub fn min(self, other: Scalar) -> (r: Scalar)
        ensures
            r == self.lesser(other),
    {
        if self.is_nan() || other.less_than(self) {
            other
        } else {
            self
        }
    }
}

/// The bits of 0.0, and below those of the other numbers that the rules name.
pub const ZERO: u64 = 0;

/// -0.01
pub const MINUS_HUNDREDTH: u64 = 0xBF84_7AE1_47AE_147B;

/// 0.005
pub const HALF_HUNDREDTH: u64 = 0x3F74_7AE1_47AE_147B;

/// 0.01
pub const HUNDREDTH: u64 = 0x3F84_7AE1_47AE_147B;

/// 0.02
pub const TWO_HUNDREDTHS: u64 = 0x3F94_7AE1_47AE_147B;

/// 0.03
pub const THREE_HUNDREDTHS: u64 = 0x3F9E_B851_EB85_1EB8;

/// 0.1
pub const TENTH: u64 = 0x3FB9_9999_9999_999A;

/// 0.2
pub const FIFTH: u64 = 0x3FC9_9999_9999_999A;

/// 0.25
pub const QUARTER: u64 = 0x3FD0_0000_0000_0000;

/// 0.3
pub const THREE_TENTHS: u64 = 0x3FD3_3333_3333_3333;

/// 0.4
pub const FOUR_TENTHS: u64 = 0x3FD9_9999_9999_999A;

/// 0.5
pub const HALF: u64 = 0x3FE0_0000_0000_0000;

/// 0.6
pub const SIX_TENTHS: u64 = 0x3FE3_3333_3333_3333;

/// 0.6000000000000001, the sum of 0.4 and 0.2
pub const SIX_TENTHS_SUM: u64 = 0x3FE3_3333_3333_3334;

/// 0.7
pub const SEVEN_TENTHS: u64 = 0x3FE6_6666_6666_6666;

/// 0.7000000000000001, the sum of 0.4, 0.2 and 0.1
pub const SEVEN_TENTHS_SUM: u64 = 0x3FE6_6666_6666_6667;

/// 0.8
pub const EIGHT_TENTHS: u64 = 0x3FE9_9999_9999_999A;

/// 0.9
pub const NINE_TENTHS: u64 = 0x3FEC_CCCC_CCCC_CCCD;

/// 1.0
pub const ONE: u64 = 0x3FF0_0000_0000_0000;

/// 2.0
pub const TWO: u64 = 0x4000_0000_0000_0000;

/// 10.0
pub const TEN: u64 = 0x4024_0000_0000_0000;

/// 30.0
pub const THIRTY: u64 = 0x403E_0000_0000_0000;

/// 40.0
pub const FORTY: u64 = 0x4044_0000_0000_0000;

/// 50.0
pub const FIFTY: u64 = 0x4049_0000_0000_0000;

/// 60.0
pub const SIXTY: u64 = 0x404E_0000_0000_0000;

/// 70.0
pub const SEVENTY: u64 = 0x4051_8000_0000_0000;

/// 72.0
pub const SEVENTY_TWO: u64 = 0x4052_0000_0000_0000;

/// 100.0
pub const HUNDRED: u64 = 0x4059_0000_0000_0000;

/// The value lies in `[lo, hi]`.
pub open spec fn within(x: Scalar, lo: Scalar, hi: Scalar) -> bool {
    !x.nan() && lo.rank() <= x.rank() <= hi.rank()
}

/// Bounding puts every number into the interval, leaves a value that is there
/// already as it is, and changes nothing when done twice.
pub proof fn bounding_is_a_projection(x: Scalar, lo: Scalar, hi: Scalar)
    requires
        !lo.nan(),
        !hi.nan(),
        lo.rank() <= hi.rank(),
    ensures
        !x.nan() ==> within(x.bounded(lo, hi), lo, hi),
        within(x, lo, hi) ==> x.bounded(lo, hi) == x,
        x.bounded(lo, hi).bounded(lo, hi) == x.bounded(lo, hi),
{
}

/// Positive numbers stand in the order of their bits, negative ones in the reverse,
/// a negative one stands before a positive one, and the two zeros are equal.
pub proof fn numbers_stand_in_order(a: Scalar, b: Scalar)
    requires
        !a.nan(),
        !b.nan(),
    ensures
        a.bits < 0x8000_0000_0000_0000 && b.bits < 0x8000_0000_0000_0000 ==> (a.below(b) <==> a.bits
            < b.bits),
        a.bits >= 0x8000_0000_0000_0000 && b.bits >= 0x8000_0000_0000_0000 ==> (a.below(b)
            <==> a.bits > b.bits),
        a.bits > 0x8000_0000_0000_0000 && b.bits < 0x8000_0000_0000_0000 ==> a.below(b)
            && !b.below(a),
        a.bits == 0x8000_0000_0000_0000 && b.bits == 0 ==> !a.below(b) && !b.below(a),
        a.bits == 0x8000_0000_0000_0000 && 0 < b.bits < 0x8000_0000_0000_0000 ==> a.below(b),
{
}

/// No number is a magnitude beyond the infinite one's, and it stands in no order; to
/// be finite is to be less than infinite.
pub proof fn what_is_no_number(x: Scalar, y: Scalar)
    ensures
        x.nan() <==> (0x7FF0_0000_0000_0000 < x.bits < 0x8000_0000_0000_0000 || x.bits
            > 0xFFF0_0000_0000_0000),
        x.nan() ==> !x.below(y) && !y.below(x),
        x.finite() <==> !x.nan() && x.bits != 0x7FF0_0000_0000_0000 && x.bits
            != 0xFFF0_0000_0000_0000,
{
}

/// The greater and the lesser of two numbers are the two, in order; where one is no
/// number both are the other.
pub proof fn greater_and_lesser(a: Scalar, b: Scalar)
    ensures
        !a.nan() && !b.nan() ==> {
            &&& (a.greater(b) == a || a.greater(b) == b)
            &&& (a.lesser(b) == a || a.lesser(b) == b)
            &&& !a.greater(b).below(a) && !a.greater(b).below(b)
            &&& !a.below(a.lesser(b)) && !b.below(a.lesser(b))
        },
        a.nan() ==> a.greater(b) == b && a.lesser(b) == b,
        b.nan() && !a.nan() ==> a.greater(b) == a && a.lesser(b) == a,
{
}

/// Bounding moves a number to the nearer end where it lies beyond it.
pub proof fn bounding_moves_to_the_nearer_end(x: Scalar, lo: Scalar, hi: Scalar)
    requires
        !lo.nan(),
        !hi.nan(),
        !hi.below(lo),
    ensures
        x.below(lo) ==> x.bounded(lo, hi) == lo,
        hi.below(x) ==> x.bounded(lo, hi) == hi,
        !x.below(lo) && !hi.below(x) ==> x.bounded(lo, hi) == x,
{
}

} // verus!
