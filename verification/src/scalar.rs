//! Single-precision numbers and three-component vectors as plain bit patterns.
//!
//! The playback engine never computes with the numbers it is given: volumes,
//! speeds and positions are handed on to the audio backend, which does the
//! arithmetic. Here a number is therefore its IEEE 754 binary32 bit pattern,
//! sign in the top bit, eight bits of exponent below it, then twenty-three bits
//! of fraction. What the engine does need are a few comparisons against
//! constants, and those are exact on the bits.

use vstd::prelude::*;

verus! {

/// Bit pattern of `0.0`.
pub const ZERO: u32 = 0x0000_0000;

/// Bit pattern of `-0.0`.
pub const NEG_ZERO: u32 = 0x8000_0000;

/// Bit pattern of `1.0`.
pub const ONE: u32 = 0x3f80_0000;

/// Bit pattern of `2.0`.
pub const TWO: u32 = 0x4000_0000;

/// Bit pattern of `-2.0`.
pub const NEG_TWO: u32 = 0xc000_0000;

/// Bit pattern of `50.0`.
pub const FIFTY: u32 = 0x4248_0000;

/// Bit pattern of `100.0`.
pub const HUNDRED: u32 = 0x42c8_0000;

/// Bit pattern of positive infinity; every pattern whose magnitude is larger is a NaN.
pub const INFINITY: u32 = 0x7f80_0000;

/// A single-precision number, held by its bit pattern.
///
/// Two scalars are equal when their bits are: `0.0` and `-0.0` are different
/// scalars, and a NaN equals itself.
#[derive(Clone, Copy, Debug, PartialEq, Eq, Structural)]
pub struct Scalar {
    pub bits: u32,
}

impl Scalar {
    /// The bits below the sign bit.
    pub open spec fn magnitude(self) -> int {
        if self.bits >= NEG_ZERO {
            self.bits - NEG_ZERO
        } else {
            self.bits as int
        }
    }

    /// The sign bit is set; true of `-0.0` and of half of the NaNs too.
    pub open spec fn sign_negative(self) -> bool {
        self.bits >= NEG_ZERO
    }

    /// The number is a NaN: it compares false with everything.
    pub open spec fn nan(self) -> bool {
        self.magnitude() > INFINITY
    }

    /// The number is `0.0` or `-0.0`.
    pub open spec fn zero(self) -> bool {
        self.magnitude() == 0
    }

    /// `self >= 0.0` as IEEE 754 compares: no NaN, and zero or of positive sign.
    pub open spec fn non_negative(self) -> bool {
        !self.nan() && (self.zero() || !self.sign_negative())
    }

    /// `self > 0.0` as IEEE 754 compares.
    pub open spec fn positive(self) -> bool {
        !self.nan() && !self.zero() && !self.sign_negative()
    }

    /// `self <= 1.0` as IEEE 754 compares: no NaN, and zero, negative, or of a
    /// magnitude that does not exceed that of `1.0`.
    pub open spec fn at_most_one(self) -> bool {
        !self.nan() && (self.zero() || self.sign_negative() || self.magnitude() <= ONE)
    }

    /// `0.0 <= self && self <= 1.0`.
    pub open spec fn in_unit_interval(self) -> bool {
        self.non_negative() && self.at_most_one()
    }

    /// The scalar with the given bits.
    pub fn from_bits(bits: u32) -> (scalar: Scalar)
        ensures
            scalar.bits == bits,
    {
        Scalar { bits }
    }

    /// The bits of the scalar.
    pub fn to_bits(self) -> (bits: u32)
        ensures
            bits == self.bits,
    {
        self.bits
    }

    /// Whether the number is a NaN.
    pub fn is_nan(self) -> (r: bool)
        ensures
            r == self.nan(),
    {
        (INFINITY < self.bits && self.bits < NEG_ZERO) || self.bits > 0xff80_0000
    }

    /// Whether `self >= 0.0`.
    pub fn is_non_negative(self) -> (r: bool)
        ensures
            r == self.non_negative(),
    {
        self.bits <= INFINITY || self.bits == NEG_ZERO
    }

    /// Whether `self > 0.0`.
    pub fn is_positive(self) -> (r: bool)
        ensures
            r == self.positive(),
    {
        ZERO < self.bits && self.bits <= INFINITY
    }

    /// Whether `0.0 <= self && self <= 1.0`.
    pub fn is_in_unit_interval(self) -> (r: bool)
        ensures
            r == self.in_unit_interval(),
    {
        self.bits <= ONE || self.bits == NEG_ZERO
    }
}

/// A vector of three scalars.
#[derive(Clone, Copy, Debug, PartialEq, Eq, Structural)]
pub struct Vec3 {
    pub x: Scalar,
    pub y: Scalar,
    pub z: Scalar,
}

impl Vec3 {
    /// The vector `(x, y, z)`.
    pub fn new(x: Scalar, y: Scalar, z: Scalar) -> (v: Vec3)
        ensures
            v == (Vec3 { x, y, z }),
    {
        Vec3 { x, y, z }
    }

    /// The vector whose three components are all `value`.
    pub fn splat(value: Scalar) -> (v: Vec3)
        ensures
            v == (Vec3 { x: value, y: value, z: value }),
    {
        Vec3 { x: value, y: value, z: value }
    }

    /// The origin, `(0.0, 0.0, 0.0)`.
    pub open spec fn origin() -> Vec3 {
        Vec3 { x: Scalar { bits: ZERO }, y: Scalar { bits: ZERO }, z: Scalar { bits: ZERO } }
    }

    /// The vector `(1.0, 1.0, 1.0)`, which as a scale changes nothing.
    pub open spec fn ones() -> Vec3 {
        Vec3 { x: Scalar { bits: ONE }, y: Scalar { bits: ONE }, z: Scalar { bits: ONE } }
    }
}

} // verus!
