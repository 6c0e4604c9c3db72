//! Small value types shared by commands and events.

use vstd::prelude::*;

verus! {

/// A width and a height, in physical pixels.
pub type Size = [u32; 2];

/// A pair of signed coordinates, in physical pixels.
pub type IVector2 = [i32; 2];

/// A pair of single-precision numbers.
pub type Vector2 = [Float32; 2];

/// A single-precision number, held as its IEEE-754 bit pattern.
///
/// The core never computes with such a number: it carries it from a
/// notification to an event, and at one place tells whether it lies above one
/// half. The bit pattern is what crosses the boundary unchanged.
#[derive(Debug, Clone, Copy, PartialEq, Eq, Structural)]
pub struct Float32 {
    pub bits: u32,
}

/// A double-precision number, held as its IEEE-754 bit pattern.
#[derive(Debug, Clone, Copy, PartialEq, Eq, Structural)]
pub struct Float64 {
    pub bits: u64,
}

/// Bit pattern of the single-precision number one half.
pub const HALF_BITS: u32 = 0x3F00_0000;

/// Bit pattern of the single-precision number one.
pub const ONE_BITS: u32 = 0x3F80_0000;

/// Bit pattern of single-precision positive infinity.
pub const INFINITY_BITS: u32 = 0x7F80_0000;

impl Float32 {
    /// The number zero.
    pub open spec fn zero() -> Float32 {
        Float32 { bits: 0 }
    }

    /// The number one.
    pub open spec fn one() -> Float32 {
        Float32 { bits: ONE_BITS }
    }

    /// Whether the number is greater than one half.
    ///
    /// A pattern with the sign bit clear orders as its number does, up to and
    /// including positive infinity. Patterns beyond that are not numbers, and
    /// patterns with the sign bit set are negative or minus zero: none of these
    /// is greater than one half.
    pub open spec fn above_half(self) -> bool {
        HALF_BITS < self.bits <= INFINITY_BITS
    }

    /// Makes a number from its bit pattern.
    pub fn from_bits(bits: u32) -> (r: Float32)
        ensures
            r.bits == bits,
    {
        Float32 { bits }
    }

    /// The bit pattern of the number.
    pub fn to_bits(self) -> (bits: u32)
        ensures
            bits == self.bits,
    {
        self.bits
    }

    /// Tells whether the number is greater than one half.
    pub fn is_above_half(self) -> (b: bool)
        ensures
            b == self.above_half(),
    {
        HALF_BITS < self.bits && self.bits <= INFINITY_BITS
    }
}

impl Float64 {
    /// Makes a number from its bit pattern.
    pub fn from_bits(bits: u64) -> (r: Float64)
        ensures
            r.bits == bits,
    {
        Float64 { bits }
    }

    /// The bit pattern of the number.
    pub fn to_bits(self) -> (bits: u64)
        ensures
            bits == self.bits,
    {
        self.bits
    }
}

} // verus!
