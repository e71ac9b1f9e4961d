//! Trusted layer over the outside fixed-point CORDIC library.
//!
//! Each function takes and returns Q32.32 bits. The results of the outside
//! routines depend on the argument bits alone, so each is given a name that
//! the rest of the library reasons with. The domain bounds keep every
//! argument far inside the range where the outside routines neither
//! overflow nor panic.

use vstd::prelude::*;

verus! {

/// Bits of the sine of a Q32.32 angle, as cordic::sin computes it.
pub uninterp spec fn sin_fix(x: int) -> int;

/// Bits of the cosine of a Q32.32 angle, as cordic::cos computes it.
pub uninterp spec fn cos_fix(x: int) -> int;

/// Bits of the arc-tangent of a Q32.32 value, as cordic::atan computes it.
pub uninterp spec fn atan_fix(x: int) -> int;

/// Bits of the square root of a Q32.32 value, as cordic::sqrt computes it.
pub uninterp spec fn sqrt_fix(x: int) -> int;

/// Safe angle range for the sine/cosine routines (64.0 in Q32.32).
pub const TRIG_DOM: i64 = 274877906944;

/// Safe argument range for the arc-tangent routine (2^20 in Q32.32).
pub const ATAN_DOM: i64 = 4503599627370496;

/// Safe argument range for the square-root routine (2^28 in Q32.32).
pub const SQRT_DOM: i64 = 1152921504606846976;

/// Relies on cordic::sin over fixed::types::I32F32; the result is a function
/// of the angle bits alone.
#[verifier::external_body]
pub fn sin_fx(x: i64) -> (r: i64)
    requires
        -TRIG_DOM <= x <= TRIG_DOM,
    ensures
        r as int == sin_fix(x as int),
{
    cordic::sin(fixed::types::I32F32::from_bits(x)).to_bits()
}

/// Relies on cordic::cos over fixed::types::I32F32; the result is a function
/// of the angle bits alone.
#[verifier::external_body]
pub fn cos_fx(x: i64) -> (r: i64)
    requires
        -TRIG_DOM <= x <= TRIG_DOM,
    ensures
        r as int == cos_fix(x as int),
{
    cordic::cos(fixed::types::I32F32::from_bits(x)).to_bits()
}

/// Relies on cordic::atan over fixed::types::I32F32; the result is a function
/// of the argument bits alone.
#[verifier::external_body]
pub fn atan_fx(x: i64) -> (r: i64)
    requires
        -ATAN_DOM <= x <= ATAN_DOM,
    ensures
        r as int == atan_fix(x as int),
{
    cordic::atan(fixed::types::I32F32::from_bits(x)).to_bits()
}

/// Relies on cordic::sqrt over fixed::types::I32F32; the result is a function
/// of the argument bits alone, and the source builds it from nonnegative
/// powers of two, so it is nonnegative.
#[verifier::external_body]
pub fn sqrt_fx(x: i64) -> (r: i64)
    requires
        0 <= x <= SQRT_DOM,
    ensures
        r as int == sqrt_fix(x as int),
        r >= 0,
{
    cordic::sqrt(fixed::types::I32F32::from_bits(x)).to_bits()
}

} // verus!
