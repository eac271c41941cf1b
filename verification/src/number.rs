//! Real numbers, carried by their bit patterns.

use vstd::prelude::*;

verus! {

/// Bit pattern of the number one.
pub const ONE_BITS: u64 = 0x3FF0_0000_0000_0000;

/// Bit pattern of one half.
pub const HALF_BITS: u64 = 0x3FE0_0000_0000_0000;

/// Bit pattern of 255, the largest sample.
pub const SAMPLE_MAX_BITS: u64 = 0x406F_E000_0000_0000;

/// Mask of every bit of a pattern but the sign.
pub const MAGNITUDE_MASK: u64 = 0x7FFF_FFFF_FFFF_FFFF;

/// A real number in the 64-bit binary interchange format, carried by its bit
/// pattern.
///
/// The library stores such numbers, hands them on and tells whether one of
/// them is zero or one. Every other operation on them is that of an
/// [`Arithmetic`](crate::arithmetic::Arithmetic).
#[derive(Clone, Copy, Debug, PartialEq, Eq, Structural)]
pub struct Number {
    pub bits: u64,
}

impl Number {
    /// The number whose bit pattern is `bits`.
    pub fn from_bits(bits: u64) -> (r: Number)
        ensures
            r.bits == bits,
    {
        Number { bits }
    }

    /// The bit pattern of the number.
    pub fn to_bits(self) -> (bits: u64)
        ensures
            bits == self.bits,
    {
        self.bits
    }

    /// The number zero.
    pub fn zero() -> (r: Number)
        ensures
            r.bits == 0,
    {
        Number { bits: 0 }
    }

    /// The number one.
    pub fn one() -> (r: Number)
        ensures
            r.bits == ONE_BITS,
    {
        Number { bits: ONE_BITS }
    }

    /// One half.
    pub fn half() -> (r: Number)
        ensures
            r.bits == HALF_BITS,
    {
        Number { bits: HALF_BITS }
    }

    /// The number 255, the largest sample.
    pub fn sample_max() -> (r: Number)
        ensures
            r.bits == SAMPLE_MAX_BITS,
    {
        Number { bits: SAMPLE_MAX_BITS }
    }

    /// Whether the number compares equal to zero. Zero has two bit patterns,
    /// which differ in the sign.
    pub open spec fn spec_is_zero(self) -> bool {
        self.bits & MAGNITUDE_MASK == 0
    }

    #[verifier::when_used_as_spec(spec_is_zero)]
    pub fn is_zero(self) -> (zero: bool)
        ensures
            zero == self.spec_is_zero(),
    {
        self.bits & MAGNITUDE_MASK == 0
    }

    /// Whether the number compares equal to one. One has a single bit
    /// pattern, so this is a comparison of patterns.
    pub open spec fn spec_is_one(self) -> bool {
        self.bits == ONE_BITS
    }

    #[verifier::when_used_as_spec(spec_is_one)]
    pub fn is_one(self) -> (one: bool)
        ensures
            one == self.spec_is_one(),
    {
        self.bits == ONE_BITS
    }
}

} // verus!
