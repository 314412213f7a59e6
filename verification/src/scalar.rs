//! Single-precision numbers carried as their bit patterns.
//!
//! The simulator works in IEEE-754 single precision. Every record in this
//! crate stores such a number as its 32-bit pattern, so that a value crosses
//! the library unchanged whatever it encodes: a signalling NaN keeps its
//! payload and a negative zero keeps its sign.

use vstd::prelude::*;

verus! {

/// Pattern of positive zero.
pub const ZERO_BITS: u32 = 0;

/// Pattern of one.
pub const ONE_BITS: u32 = 0x3F80_0000;

/// Pattern of one half.
pub const HALF_BITS: u32 = 0x3F00_0000;

/// Pattern of positive infinity: all exponent bits set, fraction clear.
pub const INFINITY_BITS: u32 = 0x7F80_0000;

/// Every bit but the sign.
pub const MAGNITUDE_MASK: u32 = 0x7FFF_FFFF;

/// One single-precision number, held as its bit pattern.
///
/// `==` on this type compares patterns. Numeric comparison, under which a NaN
/// differs from everything and the two zeros agree, is [`Scalar::num_eq`].
#[derive(Clone, Copy, Debug, PartialEq, Eq, Structural)]
pub struct Scalar {
    pub bits: u32,
}

impl Scalar {
    /// The number whose pattern is `bits`.
    pub fn from_bits(bits: u32) -> (r: Scalar)
        ensures
            r.bits == bits,
    {
        Scalar { bits }
    }

    /// The pattern of this number.
    pub fn to_bits(self) -> (r: u32)
        ensures
            r == self.bits,
    {
        self.bits
    }

    pub open spec fn zero_spec() -> Scalar {
        Scalar { bits: ZERO_BITS }
    }

    pub open spec fn one_spec() -> Scalar {
        Scalar { bits: ONE_BITS }
    }

    pub open spec fn half_spec() -> Scalar {
        Scalar { bits: HALF_BITS }
    }

    /// Positive zero.
    pub fn zero() -> (r: Scalar)
        ensures
            r == Scalar::zero_spec(),
    {
        Scalar { bits: ZERO_BITS }
    }

    /// One.
    pub fn one() -> (r: Scalar)
        ensures
            r == Scalar::one_spec(),
    {
        Scalar { bits: ONE_BITS }
    }

    /// One half.
    pub fn half() -> (r: Scalar)
        ensures
            r == Scalar::half_spec(),
    {
        Scalar { bits: HALF_BITS }
    }

    /// The pattern with the sign bit cleared.
    pub open spec fn magnitude(self) -> u32 {
        self.bits & MAGNITUDE_MASK
    }

    /// A NaN has every exponent bit set and a fraction that is not zero.
    pub open spec fn is_nan_spec(self) -> bool {
        self.magnitude() > INFINITY_BITS
    }

    /// Either zero: every bit clear but perhaps the sign.
    pub open spec fn is_zero_spec(self) -> bool {
        self.magnitude() == 0
    }

    /// Numeric equality of two single-precision numbers: a NaN equals
    /// nothing, the two zeros equal each other, and any other two numbers are
    /// equal exactly when their patterns are.
    pub open spec fn num_eq_spec(self, other: Scalar) -> bool {
        &&& !self.is_nan_spec()
        &&& !other.is_nan_spec()
        &&& (self.bits == other.bits || (self.is_zero_spec() && other.is_zero_spec()))
    }

    /// Whether this pattern encodes a NaN.
    pub fn is_nan(self) -> (r: bool)
        ensures
            r == self.is_nan_spec(),
    {
        (self.bits & MAGNITUDE_MASK) > INFINITY_BITS
    }

    /// Whether this pattern encodes positive or negative zero.
    pub fn is_zero(self) -> (r: bool)
        ensures
            r == self.is_zero_spec(),
    {
        (self.bits & MAGNITUDE_MASK) == 0
    }

    /// Whether the two patterns encode numbers that compare equal.
    pub fn num_eq(self, other: Scalar) -> (r: bool)
        ensures
            r == self.num_eq_spec(other),
    {
        if self.is_nan() || other.is_nan() {
            false
        } else {
            self.bits == other.bits || (self.is_zero() && other.is_zero())
        }
    }
}

impl Default for Scalar {
    /// Positive zero.
    fn default() -> (r: Scalar)
        ensures
            r == Scalar::zero_spec(),
    {
        Scalar { bits: ZERO_BITS }
    }
}

} // verus!
