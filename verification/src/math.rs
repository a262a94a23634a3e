//! The numbers and vectors that a rigid body stores.

use vstd::prelude::*;

verus! {

/// A single-precision number, held as its IEEE 754 bit pattern.
///
/// A rigid body node stores such numbers and hands them on; it never computes
/// with them, so the pattern is all it needs. Two values are equal exactly when
/// their patterns are: `0.0` and `-0.0` differ, and a NaN equals itself.
#[derive(Clone, Copy, Debug, PartialEq, Eq, Structural)]
pub struct Real {
    pub bits: u32,
}

/// The bit pattern of `0.0`.
pub const ZERO_BITS: u32 = 0x0000_0000;

/// The bit pattern of `1.0`: sign 0, biased exponent 127, mantissa 0.
pub const ONE_BITS: u32 = 0x3F80_0000;

impl Real {
    /// The number with the given bit pattern.
    pub fn from_bits(bits: u32) -> (r: Self)
        ensures
            r.bits == bits,
    {
        Real { bits }
    }

    /// The bit pattern of this number.
    pub fn to_bits(self) -> (bits: u32)
        ensures
            bits == self.bits,
    {
        self.bits
    }

    /// The number `0.0`.
    pub fn zero() -> (r: Self)
        ensures
            r.bits == ZERO_BITS,
    {
        Real { bits: ZERO_BITS }
    }

    /// The number `1.0`.
    pub fn one() -> (r: Self)
        ensures
            r.bits == ONE_BITS,
    {
        Real { bits: ONE_BITS }
    }
}

/// A vector in the plane.
#[derive(Clone, Copy, Debug, PartialEq, Eq, Structural)]
pub struct Vector2 {
    pub x: Real,
    pub y: Real,
}

impl Vector2 {
    /// The vector with the given coordinates.
    pub fn new(x: Real, y: Real) -> (v: Self)
        ensures
            v.x == x,
            v.y == y,
    {
        Vector2 { x, y }
    }

    /// The vector whose two coordinates are `0.0`.
    pub fn zero() -> (v: Self)
        ensures
            v.x.bits == ZERO_BITS,
            v.y.bits == ZERO_BITS,
    {
        Vector2 { x: Real::zero(), y: Real::zero() }
    }
}

} // verus!
