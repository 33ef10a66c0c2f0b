//! Physical values: watts, degrees, percent.

use vstd::prelude::*;

verus! {

/// A physical value to the thousandth, or one of the three values that are no number at all.
///
/// Values of this kind arrive from applications and from peers, so that a value which is not
/// finite has to be recognised and refused rather than computed with.
#[derive(Clone, Copy, Debug, PartialEq, Eq, Structural, Hash)]
pub enum Number {
    /// A finite value, in thousandths.
    Finite(i64),
    /// Not a number; neither above nor below anything.
    NotANumber,
    /// Above every finite value.
    PositiveInfinity,
    /// Below every finite value.
    NegativeInfinity,
}

impl Number {
    /// Whether this is an ordinary value.
    pub open spec fn finite(self) -> bool {
        self is Finite
    }

    /// Strictly smaller; never true where either side is not a number.
    pub open spec fn below(self, other: Number) -> bool {
        match (self, other) {
            (Number::Finite(a), Number::Finite(b)) => a < b,
            (Number::NegativeInfinity, Number::Finite(_)) => true,
            (Number::NegativeInfinity, Number::PositiveInfinity) => true,
            (Number::Finite(_), Number::PositiveInfinity) => true,
            _ => false,
        }
    }

    /// Smaller or equal; never true where either side is not a number.
    pub open spec fn at_most(self, other: Number) -> bool {
        self.below(other) || (self == other && !(self is NotANumber))
    }

    /// Below zero.
    pub open spec fn negative(self) -> bool {
        self.below(Number::Finite(0))
    }

    /// The smaller of two values; a side that is not a number gives way to the other.
    pub open spec fn smaller(self, other: Number) -> Number {
        if self is NotANumber {
            other
        } else if other is NotANumber {
            self
        } else if other.below(self) {
            other
        } else {
            self
        }
    }

    /// `value` forced into `low..=high`; what is not a number stays as it is.
    pub open spec fn clamped(self, low: Number, high: Number) -> Number {
        if self.below(low) {
            low
        } else if high.below(self) {
            high
        } else {
            self
        }
    }

    /// So many thousandths, as far as the range goes.
    pub open spec fn saturated(thousandths: int) -> Number {
        Number::Finite(
            if thousandths > i64::MAX {
                i64::MAX
            } else if thousandths < i64::MIN {
                i64::MIN
            } else {
                thousandths as i64
            },
        )
    }

    /// So many thousandths, as far as the range goes.
    pub fn saturating(thousandths: i128) -> (r: Number)
        ensures
            r == Number::saturated(thousandths as int),
    {
        if thousandths > 0x7fff_ffff_ffff_ffff {
            Number::Finite(i64::MAX)
        } else if thousandths < -0x8000_0000_0000_0000 {
            Number::Finite(i64::MIN)
        } else {
            Number::Finite(thousandths as i64)
        }
    }

    /// A finite value given in thousandths.
    pub fn from_thousandths(thousandths: i64) -> (r: Number)
        ensures
            r == Number::Finite(thousandths),
    {
        Number::Finite(thousandths)
    }

    /// A whole number.
    pub fn whole(value: i32) -> (r: Number)
        ensures
            r == Number::Finite((value * 1000) as i64),
    {
        Number::Finite((value as i64) * 1000)
    }

    /// How many there are, as far as the range goes.
    pub open spec fn counted(count: nat) -> Number {
        Number::Finite(
            if count * 1000 <= i64::MAX {
                (count * 1000) as i64
            } else {
                i64::MAX
            },
        )
    }

    /// How many there are, as far as the range goes.
    pub fn count(count: usize) -> (r: Number)
        ensures
            r == Number::counted(count as nat),
    {
        if (count as u64) <= 9_223_372_036_854_775u64 {
            Number::Finite((count as i64) * 1000)
        } else {
            Number::Finite(i64::MAX)
        }
    }

    /// Whether this is an ordinary value.
    pub fn is_finite(self) -> (r: bool)
        ensures
            r == self.finite(),
    {
        match self {
            Number::Finite(_) => true,
            _ => false,
        }
    }

    /// Whether `self` is strictly smaller than `other`.
    pub fn is_below(self, other: Number) -> (r: bool)
        ensures
            r == self.below(other),
    {
        match (self, other) {
            (Number::Finite(a), Number::Finite(b)) => a < b,
            (Number::NegativeInfinity, Number::Finite(_)) => true,
            (Number::NegativeInfinity, Number::PositiveInfinity) => true,
            (Number::Finite(_), Number::PositiveInfinity) => true,
            _ => false,
        }
    }

    /// Whether `self` is smaller than or equal to `other`.
    pub fn is_at_most(self, other: Number) -> (r: bool)
        ensures
            r == self.at_most(other),
    {
        self.is_below(other) || (self == other && self != Number::NotANumber)
    }

    /// Whether `self` is below zero.
    pub fn is_negative(self) -> (r: bool)
        ensures
            r == self.negative(),
    {
        self.is_below(Number::Finite(0))
    }

    /// The smaller of two values; a side that is not a number gives way to the other.
    pub fn min(self, other: Number) -> (r: Number)
        ensures
            r == self.smaller(other),
    {
        if self == Number::NotANumber {
            other
        } else if other == Number::NotANumber {
            self
        } else if other.is_below(self) {
            other
        } else {
            self
        }
    }

    /// `self` forced into `low..=high`; what is not a number stays as it is.
    pub fn clamp(self, low: Number, high: Number) -> (r: Number)
        ensures
            r == self.clamped(low, high),
    {
        if self.is_below(low) {
            low
        } else if high.is_below(self) {
            high
        } else {
            self
        }
    }
}

} // verus!
