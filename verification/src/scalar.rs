//! Real-valued quantities, held as IEEE 754 binary64 bit patterns.
//!
//! Control code compares, clamps, negates and passes on measured numbers far
//! more often than it adds them up. Those operations depend on the bit pattern
//! alone, so a [`Scalar`] keeps the pattern and orders it by an integer key.

use vstd::prelude::*;

verus! {

/// The sign bit.
pub const SIGN: u64 = 0x8000_0000_0000_0000;

/// The pattern of positive infinity. Larger magnitudes are not numbers.
pub const INFINITE: u64 = 0x7ff0_0000_0000_0000;

/// A binary64 number.
///
/// `==` on this type compares patterns. [`Scalar::same_value`] is the numeric
/// comparison, under which zero has one value and a NaN equals nothing.
#[derive(Clone, Copy, Debug, PartialEq, Eq, Structural)]
pub struct Scalar {
    pub bits: u64,
}

impl Scalar {
    pub open spec fn negative(self) -> bool {
        self.bits >= SIGN
    }

    /// The pattern without its sign.
    pub open spec fn magnitude(self) -> int {
        if self.bits >= SIGN {
            self.bits - SIGN
        } else {
            self.bits as int
        }
    }

    pub open spec fn nan(self) -> bool {
        self.magnitude() > INFINITE
    }

    pub open spec fn finite(self) -> bool {
        self.magnitude() < INFINITE
    }

    /// Position on the number line: numbers compare as their keys do.
    pub open spec fn key(self) -> int {
        if self.negative() {
            -self.magnitude()
        } else {
            self.magnitude()
        }
    }

    /// `self == other` as numbers.
    pub open spec fn eq_num(self, other: Scalar) -> bool {
        !self.nan() && !other.nan() && self.key() == other.key()
    }

    /// `self < other` as numbers.
    pub open spec fn lt_num(self, other: Scalar) -> bool {
        !self.nan() && !other.nan() && self.key() < other.key()
    }

    /// `self <= other` as numbers.
    pub open spec fn le_num(self, other: Scalar) -> bool {
        !self.nan() && !other.nan() && self.key() <= other.key()
    }

    pub open spec fn zero_spec() -> Scalar {
        Scalar { bits: 0 }
    }

    /// Greater than zero.
    pub open spec fn positive(self) -> bool {
        Self::zero_spec().lt_num(self)
    }

    /// Equal to zero, of either sign.
    pub open spec fn is_zero_num(self) -> bool {
        self.magnitude() == 0
    }

    /// The number without its sign.
    pub open spec fn abs_spec(self) -> Scalar {
        if self.bits >= SIGN {
            Scalar { bits: (self.bits - SIGN) as u64 }
        } else {
            self
        }
    }

    /// The number with its sign flipped.
    pub open spec fn neg_spec(self) -> Scalar {
        if self.bits >= SIGN {
            Scalar { bits: (self.bits - SIGN) as u64 }
        } else {
            Scalar { bits: (self.bits + SIGN) as u64 }
        }
    }

    /// The nearest number inside `lo..=hi`. A NaN stays as it is.
    pub open spec fn clamp_spec(self, lo: Scalar, hi: Scalar) -> Scalar {
        if self.lt_num(lo) {
            lo
        } else if hi.lt_num(self) {
            hi
        } else {
            self
        }
    }

    pub fn from_bits(bits: u64) -> (r: Scalar)
        ensures
            r.bits == bits,
    {
        Scalar { bits }
    }

    pub fn to_bits(self) -> (r: u64)
        ensures
            r == self.bits,
    {
        self.bits
    }

    pub fn zero() -> (r: Scalar)
        ensures
            r == Self::zero_spec(),
    {
        Scalar { bits: 0 }
    }

    pub fn is_nan(self) -> (r: bool)
        ensures
            r == self.nan(),
    {
        if self.bits >= SIGN {
            self.bits - SIGN > INFINITE
        } else {
            self.bits > INFINITE
        }
    }

    pub fn is_finite(self) -> (r: bool)
        ensures
            r == self.finite(),
    {
        if self.bits >= SIGN {
            self.bits - SIGN < INFINITE
        } else {
            self.bits < INFINITE
        }
    }

    pub fn is_zero(self) -> (r: bool)
        ensures
            r == self.is_zero_num(),
            r == self.eq_num(Self::zero_spec()),
    {
        self.bits == 0 || self.bits == SIGN
    }

    /// The numeric `<`.
    pub fn less(self, other: Scalar) -> (r: bool)
        ensures
            r == self.lt_num(other),
    {
        if self.is_nan() || other.is_nan() {
            return false;
        }
        if self.bits >= SIGN {
            if other.bits >= SIGN {
                self.bits > other.bits
            } else {
                self.bits > SIGN || other.bits > 0
            }
        } else {
            other.bits < SIGN && self.bits < other.bits
        }
    }

    /// The numeric `<=`.
    pub fn at_most(self, other: Scalar) -> (r: bool)
        ensures
            r == self.le_num(other),
    {
        self.less(other) || self.same_value(other)
    }

    /// The numeric `==`.
    pub fn same_value(self, other: Scalar) -> (r: bool)
        ensures
            r == self.eq_num(other),
    {
        if self.is_nan() || other.is_nan() {
            return false;
        }
        self.bits == other.bits || (self.is_zero() && other.is_zero())
    }

    pub fn is_positive(self) -> (r: bool)
        ensures
            r == self.positive(),
    {
        Self::zero().less(self)
    }

    pub fn abs(self) -> (r: Scalar)
        ensures
            r == self.abs_spec(),
    {
        if self.bits >= SIGN {
            Scalar { bits: self.bits - SIGN }
        } else {
            self
        }
    }

    pub fn neg(self) -> (r: Scalar)
        ensures
            r == self.neg_spec(),
    {
        if self.bits >= SIGN {
            Scalar { bits: self.bits - SIGN }
        } else {
            Scalar { bits: self.bits + SIGN }
        }
    }

    pub fn clamp(self, lo: Scalar, hi: Scalar) -> (r: Scalar)
        requires
            lo.le_num(hi),
        ensures
            r == self.clamp_spec(lo, hi),
    {
        if self.less(lo) {
            lo
        } else if hi.less(self) {
            hi
        } else {
            self
        }
    }
}

impl Default for Scalar {
    fn default() -> (r: Scalar)
        ensures
            r == Scalar::zero_spec(),
    {
        Scalar { bits: 0 }
    }
}

/// Clamping lands inside the range, keeps what already was inside, and
/// clamping again changes nothing.
pub proof fn clamping_lands_inside(x: Scalar, lo: Scalar, hi: Scalar)
    requires
        lo.le_num(hi),
    ensures
        !x.nan() ==> lo.le_num(x.clamp_spec(lo, hi)) && x.clamp_spec(lo, hi).le_num(hi),
        lo.le_num(x) && x.le_num(hi) ==> x.clamp_spec(lo, hi) == x,
        x.clamp_spec(lo, hi).clamp_spec(lo, hi) == x.clamp_spec(lo, hi),
{
}

/// The numeric order is total on numbers: exactly one of `<`, `==` and `>` holds.
pub proof fn numbers_are_totally_ordered(a: Scalar, b: Scalar)
    requires
        !a.nan(),
        !b.nan(),
    ensures
        a.lt_num(b) || a.eq_num(b) || b.lt_num(a),
        !(a.lt_num(b) && b.lt_num(a)),
        a.eq_num(b) ==> !a.lt_num(b) && !b.lt_num(a),
{
}

/// Flipping the sign mirrors the number line, twice is back, and a NaN stays
/// one.
pub proof fn negation_mirrors_the_number_line(a: Scalar, b: Scalar)
    ensures
        a.neg_spec() != a,
        a.neg_spec().neg_spec() == a,
        a.neg_spec().nan() == a.nan(),
        a.neg_spec().lt_num(b.neg_spec()) <==> b.lt_num(a),
        a.positive() ==> a.neg_spec().lt_num(Scalar::zero_spec()),
{
}

/// Without its sign a number is never below zero, and is the number itself or
/// its mirror image.
pub proof fn without_a_sign_nothing_is_negative(a: Scalar)
    ensures
        !a.abs_spec().negative(),
        !a.abs_spec().lt_num(Scalar::zero_spec()),
        a.abs_spec() == a || a.abs_spec() == a.neg_spec(),
        a.lt_num(Scalar::zero_spec()) ==> a.abs_spec() == a.neg_spec(),
        a.positive() ==> a.abs_spec() == a,
        a.abs_spec().nan() == a.nan(),
        a.neg_spec().abs_spec() == a.abs_spec(),
{
}

/// Zero has one value under either sign; no other number shares it.
pub proof fn zero_has_one_value(a: Scalar)
    ensures
        a.is_zero_num() <==> a.eq_num(Scalar::zero_spec()),
        a.is_zero_num() <==> a.bits == 0 || a.bits == 0x8000_0000_0000_0000,
        Scalar::zero_spec().eq_num(Scalar::zero_spec().neg_spec()),
        a.is_zero_num() ==> !a.positive(),
        !a.nan() && !a.is_zero_num() ==> (a.positive() <==> a.bits < 0x8000_0000_0000_0000),
{
}

/// A NaN is neither below, above nor equal to anything, and is not finite. The
/// infinities are not finite either, and lie beyond every finite number.
pub proof fn nans_compare_with_nothing(a: Scalar, b: Scalar)
    ensures
        a.nan() ==> !a.lt_num(b) && !b.lt_num(a) && !a.le_num(b) && !b.le_num(a) && !a.eq_num(b),
        a.nan() ==> !a.finite() && !a.positive(),
        a.bits == 0x7ff0_0000_0000_0000 ==> !a.nan() && !a.finite() && a.positive(),
        a.bits == 0x7ff0_0000_0000_0000 && b.finite() ==> b.lt_num(a) && a.neg_spec().lt_num(b),
        a.le_num(b) <==> a.lt_num(b) || a.eq_num(b),
        a.finite() <==> !a.nan() && a.abs_spec().bits != 0x7ff0_0000_0000_0000,
{
}

/// Clamping gives the lower end below the range, the upper end above it, and
/// everything else, a NaN too, as it is.
pub proof fn clamping_moves_to_the_nearest_end(x: Scalar, lo: Scalar, hi: Scalar)
    requires
        lo.le_num(hi),
    ensures
        x.lt_num(lo) ==> x.clamp_spec(lo, hi) == lo,
        hi.lt_num(x) ==> x.clamp_spec(lo, hi) == hi,
        lo.le_num(x) && x.le_num(hi) ==> x.clamp_spec(lo, hi) == x,
        x.nan() ==> x.clamp_spec(lo, hi) == x,
{
}

} // verus!
