//! Scalar values destined for the GPU, carried as IEEE-754 single-precision
//! bit patterns.
//!
//! The verifier does not reason about floating-point arithmetic, so the
//! library stores every `f32` quantity as its bit pattern (`u32`) and treats
//! it as an opaque word. The generators below only ever need a handful of
//! exact constants, which are fixed bit patterns.

use vstd::prelude::*;

verus! {

/// Bit pattern of `0.0f32`.
pub const F32_ZERO: u32 = 0x0000_0000;
/// Bit pattern of `1.0f32`.
pub const F32_ONE: u32 = 0x3F80_0000;
/// Bit pattern of `-1.0f32`.
pub const F32_NEG_ONE: u32 = 0xBF80_0000;
/// Bit pattern of `3.0f32`.
pub const F32_THREE: u32 = 0x4040_0000;
/// Bit pattern of `4.0f32`.
pub const F32_FOUR: u32 = 0x4080_0000;
/// Bit pattern of `0.125f32`.
pub const F32_ONE_EIGHTH: u32 = 0x3E00_0000;
/// Bit pattern of `0.25f32`.
pub const F32_QUARTER: u32 = 0x3E80_0000;
/// Bit pattern of `0.375f32`.
pub const F32_THREE_EIGHTHS: u32 = 0x3EC0_0000;
/// Bit pattern of `0.5f32`.
pub const F32_HALF: u32 = 0x3F00_0000;
/// Bit pattern of `0.625f32`.
pub const F32_FIVE_EIGHTHS: u32 = 0x3F20_0000;
/// Bit pattern of `0.75f32`.
pub const F32_THREE_QUARTERS: u32 = 0x3F40_0000;
/// Bit pattern of `0.875f32`.
pub const F32_SEVEN_EIGHTHS: u32 = 0x3F60_0000;

/// A three-component `f32` vector, stored as bit patterns.
#[derive(Clone, Copy, PartialEq, Eq, Structural, Debug)]
pub struct Vec3Bits {
    pub x: u32,
    pub y: u32,
    pub z: u32,
}

/// A four-component `f32` vector, stored as bit patterns.
#[derive(Clone, Copy, PartialEq, Eq, Structural, Debug)]
pub struct Vec4Bits {
    pub x: u32,
    pub y: u32,
    pub z: u32,
    pub w: u32,
}

/// A column-major 4×4 `f32` matrix, stored as bit patterns.
#[derive(Clone, Copy, PartialEq, Eq, Structural, Debug)]
pub struct Mat4Bits {
    pub c0: Vec4Bits,
    pub c1: Vec4Bits,
    pub c2: Vec4Bits,
    pub c3: Vec4Bits,
}

/// An `f32` quaternion, stored as bit patterns.
#[derive(Clone, Copy, PartialEq, Eq, Structural, Debug)]
pub struct QuatBits {
    pub x: u32,
    pub y: u32,
    pub z: u32,
    pub w: u32,
}

impl Vec3Bits {
    /// The zero vector.
    pub fn zero() -> (r: Vec3Bits)
        ensures
            r == (Vec3Bits { x: F32_ZERO, y: F32_ZERO, z: F32_ZERO }),
    {
        Vec3Bits { x: F32_ZERO, y: F32_ZERO, z: F32_ZERO }
    }
}

impl QuatBits {
    /// The identity rotation.
    pub fn identity() -> (r: QuatBits)
        ensures
            r == (QuatBits { x: F32_ZERO, y: F32_ZERO, z: F32_ZERO, w: F32_ONE }),
    {
        QuatBits { x: F32_ZERO, y: F32_ZERO, z: F32_ZERO, w: F32_ONE }
    }
}

} // verus!
