//! Signed Q32.32 fixed-point scalars stored as `i64` bit patterns.
//!
//! A value `x` stands for the real number `x / 2^32`. Every operation
//! saturates to the symmetric range `[-MAX_FIX, MAX_FIX]`, so no operation
//! panics and every result is pinned down exactly by its spec function.

use vstd::prelude::*;

verus! {

/// Number of fixed-point fraction bits' scale: 2^32.
pub const SCALE: i64 = 4294967296;

/// The fixed-point representation of 1.0.
pub const ONE: i64 = 4294967296;

/// Largest scalar the representation carries (2^63 - 1 bits).
pub const MAX_FIX: i64 = 9223372036854775807;

/// pi in Q32.32 (floor(pi * 2^32)).
pub const PI_FIX: i64 = 13493037704;

/// pi/2 in Q32.32 (floor(pi/2 * 2^32)).
pub const HALF_PI_FIX: i64 = 6746518852;

/// 2*pi in Q32.32.
pub const TAU_FIX: i64 = 26986075408;

/// Saturation to the symmetric representable range.
pub open spec fn sat(x: int) -> int {
    if x > MAX_FIX as int {
        MAX_FIX as int
    } else if x < -(MAX_FIX as int) {
        -(MAX_FIX as int)
    } else {
        x
    }
}

/// Mathematical absolute value.
pub open spec fn abs_i(x: int) -> int {
    if x < 0 {
        -x
    } else {
        x
    }
}

/// Division that rounds toward zero, defined through magnitudes.
pub open spec fn tz_div(n: int, d: int) -> int
    recommends
        d != 0,
{
    if (n < 0) == (d < 0) {
        abs_i(n) / abs_i(d)
    } else {
        -(abs_i(n) / abs_i(d))
    }
}

/// Saturating fixed-point addition.
pub open spec fn fadd(a: int, b: int) -> int {
    sat(a + b)
}

/// Saturating fixed-point subtraction.
pub open spec fn fsub(a: int, b: int) -> int {
    sat(a - b)
}

/// Saturating fixed-point negation.
pub open spec fn fneg(a: int) -> int {
    sat(-a)
}

/// Saturating fixed-point absolute value.
pub open spec fn fabs(a: int) -> int {
    sat(abs_i(a))
}

/// Saturating fixed-point product: (a * b) / 2^32, rounded toward zero.
pub open spec fn fmul(a: int, b: int) -> int {
    sat(tz_div(a * b, SCALE as int))
}

/// Saturating fixed-point quotient: (a * 2^32) / b, rounded toward zero.
pub open spec fn fdiv(a: int, b: int) -> int
    recommends
        b != 0,
{
    sat(tz_div(a * (SCALE as int), b))
}

/// Clamp into `[lo, hi]`.
pub open spec fn fclamp(x: int, lo: int, hi: int) -> int
    recommends
        lo <= hi,
{
    if x < lo {
        lo
    } else if x > hi {
        hi
    } else {
        x
    }
}

/// Magnitude of a scalar as an unsigned quantity.
pub fn mag(a: i64) -> (m: u64)
    ensures
        m as int == abs_i(a as int),
{
    let w: i128 = a as i128;
    let m: i128 = if w < 0 {
        -w
    } else {
        w
    };
    m as u64
}

/// Saturating addition.
pub fn add_fx(a: i64, b: i64) -> (r: i64)
    ensures
        r as int == fadd(a as int, b as int),
{
    let s: i128 = a as i128 + b as i128;
    if s > MAX_FIX as i128 {
        MAX_FIX
    } else if s < -(MAX_FIX as i128) {
        -MAX_FIX
    } else {
        s as i64
    }
}

/// Saturating subtraction.
pub fn sub_fx(a: i64, b: i64) -> (r: i64)
    ensures
        r as int == fsub(a as int, b as int),
{
    let s: i128 = a as i128 - b as i128;
    if s > MAX_FIX as i128 {
        MAX_FIX
    } else if s < -(MAX_FIX as i128) {
        -MAX_FIX
    } else {
        s as i64
    }
}

/// Saturating negation.
pub fn neg_fx(a: i64) -> (r: i64)
    ensures
        r as int == fneg(a as int),
{
    if a == i64::MIN {
        MAX_FIX
    } else {
        -a
    }
}

/// Saturating absolute value.
pub fn abs_fx(a: i64) -> (r: i64)
    ensures
        r as int == fabs(a as int),
{
    if a < 0 {
        neg_fx(a)
    } else {
        a
    }
}

/// Clamp into `[lo, hi]`.
pub fn clamp_fx(x: i64, lo: i64, hi: i64) -> (r: i64)
    requires
        lo <= hi,
    ensures
        r as int == fclamp(x as int, lo as int, hi as int),
{
    if x < lo {
        lo
    } else if x > hi {
        hi
    } else {
        x
    }
}

/// Rebuild a signed saturated scalar from a magnitude and a sign.
fn sat_from_mag(q: u128, neg: bool) -> (r: i64)
    ensures
        r as int == sat(if neg { -(q as int) } else { q as int }),
{
    if neg {
        if q >= MAX_FIX as u128 {
            -MAX_FIX
        } else {
            -(q as i64)
        }
    } else {
        if q >= MAX_FIX as u128 {
            MAX_FIX
        } else {
            q as i64
        }
    }
}

/// Saturating fixed-point multiplication.
pub fn mul_fx(a: i64, b: i64) -> (r: i64)
    ensures
        r as int == fmul(a as int, b as int),
{
    let ma: u128 = mag(a) as u128;
    let mb: u128 = mag(b) as u128;
    proof {
        assert(ma * mb <= 0x8000000000000000u128 * 0x8000000000000000u128) by (nonlinear_arith)
            requires
                ma <= 0x8000000000000000u128,
                mb <= 0x8000000000000000u128,
        ;
    }
    let p: u128 = ma * mb;
    let q: u128 = p / (SCALE as u128);
    let neg: bool = (a < 0) != (b < 0);
    proof {
        assert(ma * mb == abs_i((a as int) * (b as int))) by (nonlinear_arith)
            requires
                ma as int == abs_i(a as int),
                mb as int == abs_i(b as int),
        ;
        assert(((a as int) * (b as int) < 0) ==> ((a < 0) != (b < 0))) by (nonlinear_arith);
        assert(((a as int) * (b as int) > 0) ==> ((a < 0) == (b < 0))) by (nonlinear_arith);
    }
    sat_from_mag(q, neg)
}

/// Saturating fixed-point division.
pub fn div_fx(a: i64, b: i64) -> (r: i64)
    requires
        b != 0,
    ensures
        r as int == fdiv(a as int, b as int),
{
    let ma: u128 = mag(a) as u128;
    let mb: u128 = mag(b) as u128;
    proof {
        assert(ma * (SCALE as u128) <= 0x8000000000000000u128 * (SCALE as u128))
            by (nonlinear_arith)
            requires
                ma <= 0x8000000000000000u128,
        ;
    }
    let p: u128 = ma * (SCALE as u128);
    let q: u128 = p / mb;
    let neg: bool = (a < 0) != (b < 0);
    proof {
        assert(ma * (SCALE as u128) == abs_i((a as int) * (SCALE as int))) by (nonlinear_arith)
            requires
                ma as int == abs_i(a as int),
        ;
        assert(((a as int) * (SCALE as int) < 0) ==> a < 0) by (nonlinear_arith);
        assert(((a as int) * (SCALE as int) > 0) ==> a > 0) by (nonlinear_arith);
        assert((a as int) * (SCALE as int) == 0 ==> a == 0) by (nonlinear_arith);
    }
    sat_from_mag(q, neg)
}

} // verus!
