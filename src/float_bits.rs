//! IEEE 754 values carried by their bit patterns.
//!
//! The element compares its floating-point fields with IEEE equality; this
//! module states and computes that equality on the raw bits, so callers hand
//! in `f64::to_bits` / `f32::to_bits` values.
use vstd::prelude::*;

verus! {

/// Every bit of a double but its sign.
pub const F64_ABS_MASK: u64 = 0x7fff_ffff_ffff_ffff;

/// Exponent field of a double.
pub const F64_EXP_MASK: u64 = 0x7ff0_0000_0000_0000;

/// Fraction field of a double.
pub const F64_FRAC_MASK: u64 = 0x000f_ffff_ffff_ffff;

/// Exponent field of a single.
pub const F32_EXP_MASK: u32 = 0x7f80_0000;

/// Fraction field of a single.
pub const F32_FRAC_MASK: u32 = 0x007f_ffff;

/// Bit pattern of the single-precision value `1.0`.
pub const F32_ONE: u32 = 0x3f80_0000;

/// The double with bits `b` is a NaN.
pub open spec fn f64_is_nan(b: u64) -> bool {
    (b & 0x7ff0_0000_0000_0000u64) == 0x7ff0_0000_0000_0000u64 && (b & 0x000f_ffff_ffff_ffffu64) != 0
}

/// The double with bits `b` is `+0.0` or `-0.0`.
pub open spec fn f64_is_zero(b: u64) -> bool {
    (b & 0x7fff_ffff_ffff_ffffu64) == 0
}

/// IEEE equality of two doubles given by their bits: no NaN equals anything,
/// the two zeros are equal, and otherwise equal values have equal bits.
pub open spec fn f64_eq(a: u64, b: u64) -> bool {
    !f64_is_nan(a) && !f64_is_nan(b) && (a == b || (f64_is_zero(a) && f64_is_zero(b)))
}

/// The single with bits `b` is a NaN.
pub open spec fn f32_is_nan(b: u32) -> bool {
    (b & 0x7f80_0000u32) == 0x7f80_0000u32 && (b & 0x007f_ffffu32) != 0
}

/// The single with bits `b` is `+0.0` or `-0.0`.
pub open spec fn f32_is_zero(b: u32) -> bool {
    (b & 0x7fff_ffffu32) == 0
}

/// IEEE equality of two singles given by their bits.
pub open spec fn f32_eq(a: u32, b: u32) -> bool {
    !f32_is_nan(a) && !f32_is_nan(b) && (a == b || (f32_is_zero(a) && f32_is_zero(b)))
}

/// Whether the double with bits `b` is a NaN.
pub fn f64_bits_is_nan(b: u64) -> (r: bool)
    ensures
        r == f64_is_nan(b),
{
    (b & F64_EXP_MASK) == F64_EXP_MASK && (b & F64_FRAC_MASK) != 0
}

/// Whether the double with bits `b` is a zero of either sign.
pub fn f64_bits_is_zero(b: u64) -> (r: bool)
    ensures
        r == f64_is_zero(b),
{
    (b & F64_ABS_MASK) == 0
}

/// IEEE `==` on two doubles given by their bits.
pub fn f64_bits_eq(a: u64, b: u64) -> (r: bool)
    ensures
        r == f64_eq(a, b),
{
    !f64_bits_is_nan(a) && !f64_bits_is_nan(b) && (a == b || (f64_bits_is_zero(a)
        && f64_bits_is_zero(b)))
}

/// Whether the single with bits `b` is a NaN.
pub fn f32_bits_is_nan(b: u32) -> (r: bool)
    ensures
        r == f32_is_nan(b),
{
    (b & F32_EXP_MASK) == F32_EXP_MASK && (b & F32_FRAC_MASK) != 0
}

/// Whether the single with bits `b` is a zero of either sign.
pub fn f32_bits_is_zero(b: u32) -> (r: bool)
    ensures
        r == f32_is_zero(b),
{
    (b & 0x7fff_ffffu32) == 0
}

/// IEEE `==` on two singles given by their bits.
pub fn f32_bits_eq(a: u32, b: u32) -> (r: bool)
    ensures
        r == f32_eq(a, b),
{
    !f32_bits_is_nan(a) && !f32_bits_is_nan(b) && (a == b || (f32_bits_is_zero(a)
        && f32_bits_is_zero(b)))
}

} // verus!
