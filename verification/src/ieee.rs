//! IEEE 754 numbers as bit patterns, with the order the standard gives them.

use vstd::prelude::*;

verus! {

/// The sign bit of a binary64 pattern.
pub const SIGN: u64 = 0x8000_0000_0000_0000;

/// Positive zero.
pub const ZERO: u64 = 0;

/// One.
pub const ONE: u64 = 0x3ff0_0000_0000_0000;

/// One half.
pub const HALF: u64 = 0x3fe0_0000_0000_0000;

/// Minus one half.
pub const NEG_HALF: u64 = 0xbfe0_0000_0000_0000;

/// The greatest finite number.
pub const MAX: u64 = 0x7fef_ffff_ffff_ffff;

/// The least finite number.
pub const MIN: u64 = 0xffef_ffff_ffff_ffff;

/// Positive infinity; every greater magnitude is a NaN.
pub const INFINITY: u64 = 0x7ff0_0000_0000_0000;

/// Negative infinity.
pub const NEG_INFINITY: u64 = 0xfff0_0000_0000_0000;

/// The canonical quiet NaN.
pub const NAN: u64 = 0x7ff8_0000_0000_0000;

/// The sign bit of a binary32 pattern.
pub const SINGLE_SIGN: u32 = 0x8000_0000;

/// Positive infinity in binary32.
pub const SINGLE_INFINITY: u32 = 0x7f80_0000;

/// One in binary32.
pub const SINGLE_ONE: u32 = 0x3f80_0000;

/// An IEEE 754 binary64 number, held as its bit pattern.
///
/// `==` on this type compares patterns; the numeric relations are `le`, `lt`,
/// `ge`, `gt` and `same`, under which both zeros are equal and a NaN is
/// related to nothing.
#[derive(Clone, Copy, Debug, PartialEq, Eq, Structural)]
pub struct Double {
    pub bits: u64,
}

impl Double {
    /// Whether the sign bit is set.
    pub open spec fn negative(self) -> bool {
        self.bits >= SIGN
    }

    /// The pattern without its sign bit.
    pub open spec fn magnitude(self) -> int {
        if self.bits >= SIGN {
            self.bits - SIGN
        } else {
            self.bits as int
        }
    }

    /// Whether the pattern is a NaN.
    pub open spec fn nan(self) -> bool {
        self.magnitude() > INFINITY
    }

    /// An integer that orders the numbers as their values do: of two numbers
    /// that are not NaN, the lesser has the lesser key, and the two zeros
    /// share the key 0.
    pub open spec fn key(self) -> int {
        if self.negative() {
            -self.magnitude()
        } else {
            self.magnitude()
        }
    }

    pub open spec fn le_spec(self, other: Double) -> bool {
        !self.nan() && !other.nan() && self.key() <= other.key()
    }

    pub open spec fn lt_spec(self, other: Double) -> bool {
        !self.nan() && !other.nan() && self.key() < other.key()
    }

    pub open spec fn ge_spec(self, other: Double) -> bool {
        other.le_spec(self)
    }

    pub open spec fn gt_spec(self, other: Double) -> bool {
        other.lt_spec(self)
    }

    pub open spec fn same_spec(self, other: Double) -> bool {
        !self.nan() && !other.nan() && self.key() == other.key()
    }

    /// The lesser of two numbers; a NaN gives way to the other operand, and of
    /// two equal numbers the first is taken.
    pub open spec fn min_spec(self, other: Double) -> Double {
        if self.nan() {
            other
        } else if other.nan() {
            self
        } else if self.key() <= other.key() {
            self
        } else {
            other
        }
    }

    /// The greater of two numbers; a NaN gives way to the other operand, and
    /// of two equal numbers the first is taken.
    pub open spec fn max_spec(self, other: Double) -> Double {
        if self.nan() {
            other
        } else if other.nan() {
            self
        } else if self.key() >= other.key() {
            self
        } else {
            other
        }
    }

    pub fn from_bits(bits: u64) -> (r: Double)
        ensures
            r.bits == bits,
    {
        Double { bits }
    }

    pub fn to_bits(self) -> (bits: u64)
        ensures
            bits == self.bits,
    {
        self.bits
    }

    pub fn is_nan(self) -> (r: bool)
        ensures
            r == self.nan(),
    {
        if self.bits >= SIGN {
            self.bits - SIGN > INFINITY
        } else {
            self.bits > INFINITY
        }
    }

    /// Whether the number is zero, of either sign.
    pub fn is_zero(self) -> (r: bool)
        ensures
            r == (self.magnitude() == 0),
            r == self.same_spec(Double { bits: ZERO }),
    {
        self.bits == 0 || self.bits == SIGN
    }

    /// `self <= other` as numbers.
    #[verifier::when_used_as_spec(le_spec)]
    pub fn le(self, other: Double) -> (r: bool)
        ensures
            r == self.le_spec(other),
    {
        if self.is_nan() || other.is_nan() {
            false
        } else if self.bits >= SIGN {
            if other.bits >= SIGN {
                self.bits >= other.bits
            } else {
                true
            }
        } else {
            if other.bits >= SIGN {
                self.bits == 0 && other.bits == SIGN
            } else {
                self.bits <= other.bits
            }
        }
    }

    /// `self < other` as numbers.
    #[verifier::when_used_as_spec(lt_spec)]
    pub fn lt(self, other: Double) -> (r: bool)
        ensures
            r == self.lt_spec(other),
    {
        if self.is_nan() || other.is_nan() {
            false
        } else {
            !other.le(self)
        }
    }

    /// `self >= other` as numbers.
    #[verifier::when_used_as_spec(ge_spec)]
    pub fn ge(self, other: Double) -> (r: bool)
        ensures
            r == self.ge_spec(other),
    {
        other.le(self)
    }

    /// `self > other` as numbers.
    #[verifier::when_used_as_spec(gt_spec)]
    pub fn gt(self, other: Double) -> (r: bool)
        ensures
            r == self.gt_spec(other),
    {
        other.lt(self)
    }

    /// `self == other` as numbers.
    #[verifier::when_used_as_spec(same_spec)]
    pub fn same(self, other: Double) -> (r: bool)
        ensures
            r == self.same_spec(other),
    {
        self.le(other) && other.le(self)
    }

    #[verifier::when_used_as_spec(min_spec)]
    pub fn min(self, other: Double) -> (r: Double)
        ensures
            r == self.min_spec(other),
    {
        if self.is_nan() {
            other
        } else if other.is_nan() {
            self
        } else if self.le(other) {
            self
        } else {
            other
        }
    }

    #[verifier::when_used_as_spec(max_spec)]
    pub fn max(self, other: Double) -> (r: Double)
        ensures
            r == self.max_spec(other),
    {
        if self.is_nan() {
            other
        } else if other.is_nan() {
            self
        } else if other.le(self) {
            self
        } else {
            other
        }
    }
}

/// An IEEE 754 binary32 number, held as its bit pattern.
#[derive(Clone, Copy, Debug, PartialEq, Eq, Structural)]
pub struct Single {
    pub bits: u32,
}

impl Single {
    pub open spec fn negative(self) -> bool {
        self.bits >= SINGLE_SIGN
    }

    pub open spec fn magnitude(self) -> int {
        if self.bits >= SINGLE_SIGN {
            self.bits - SINGLE_SIGN
        } else {
            self.bits as int
        }
    }

    pub open spec fn nan(self) -> bool {
        self.magnitude() > SINGLE_INFINITY
    }

    /// An integer that orders the numbers as their values do.
    pub open spec fn key(self) -> int {
        if self.negative() {
            -self.magnitude()
        } else {
            self.magnitude()
        }
    }

    pub open spec fn gt_spec(self, other: Single) -> bool {
        !self.nan() && !other.nan() && self.key() > other.key()
    }

    pub fn from_bits(bits: u32) -> (r: Single)
        ensures
            r.bits == bits,
    {
        Single { bits }
    }

    pub fn to_bits(self) -> (bits: u32)
        ensures
            bits == self.bits,
    {
        self.bits
    }

    pub fn is_nan(self) -> (r: bool)
        ensures
            r == self.nan(),
    {
        if self.bits >= SINGLE_SIGN {
            self.bits - SINGLE_SIGN > SINGLE_INFINITY
        } else {
            self.bits > SINGLE_INFINITY
        }
    }

    /// `self > other` as numbers.
    #[verifier::when_used_as_spec(gt_spec)]
    pub fn gt(self, other: Single) -> (r: bool)
        ensures
            r == self.gt_spec(other),
    {
        if self.is_nan() || other.is_nan() {
            false
        } else if self.bits >= SINGLE_SIGN {
            if other.bits >= SINGLE_SIGN {
                self.bits < other.bits
            } else {
                false
            }
        } else {
            if other.bits >= SINGLE_SIGN {
                !(self.bits == 0 && other.bits == SINGLE_SIGN)
            } else {
                self.bits > other.bits
            }
        }
    }
}

} // verus!
