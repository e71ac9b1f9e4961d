//! Gimbal-lock-aware Euler XYZ decomposition of rotation matrices.
//!
//! A rotation built as `Rz(z) * Ry(y) * Rx(x)` on column vectors is taken
//! apart into the angle triple closest to a reference triple from the
//! previous iteration, among the nine mathematically equivalent triples.

use vstd::prelude::*;
use crate::fix::{
    abs_i, fadd, fsub, fneg, fabs, fmul, fdiv, fclamp, ONE, PI_FIX, HALF_PI_FIX, TAU_FIX, add_fx,
    sub_fx, neg_fx, abs_fx, mul_fx, div_fx, clamp_fx,
};
use crate::trig::{
    sin_fix, cos_fix, atan_fix, sqrt_fix, sin_fx, cos_fx, atan_fx, sqrt_fx, TRIG_DOM, ATAN_DOM,
    SQRT_DOM,
};
use crate::vec3::Vec3;
use crate::mat3::Mat3;

verus! {

/// Gimbal-lock threshold on `1 - |sin y|` (about 1e-6).
pub const E_GIMBAL: i64 = 4295;

/// An angle folded into `[0, 2*pi)`.
pub open spec fn s_nrm(a: int) -> int {
    a % (TAU_FIX as int)
}

/// Wrapped difference of two angles, in `[-pi, pi]`.
#[verifier::opaque]
pub open spec fn s_diff(a: int, b: int) -> int {
    let d = s_nrm(a) - s_nrm(b);
    if d > PI_FIX as int {
        d - TAU_FIX as int
    } else if d < -(PI_FIX as int) {
        d + TAU_FIX as int
    } else {
        d
    }
}

/// Total wrapped angular distance between two triples.
#[verifier::opaque]
pub open spec fn s_err3(t: Vec3, before: Vec3) -> int {
    abs_i(s_diff(t.x as int, before.x as int)) + abs_i(s_diff(t.y as int, before.y as int))
        + abs_i(s_diff(t.z as int, before.z as int))
}

/// Arc-sine over clamped input, through the arc-tangent of `x / sqrt(1-x^2)`.
#[verifier::opaque]
pub open spec fn s_asin(v: int) -> int {
    let x = fclamp(v, -(ONE as int), ONE as int);
    let den = sqrt_fix(fclamp(fsub(ONE as int, fmul(x, x)), 0, SQRT_DOM as int));
    if den <= 0 {
        if x >= 0 {
            HALF_PI_FIX as int
        } else {
            -(HALF_PI_FIX as int)
        }
    } else {
        atan_fix(fclamp(fdiv(x, den), -(ATAN_DOM as int), ATAN_DOM as int))
    }
}

/// Arc-cosine over clamped input.
#[verifier::opaque]
pub open spec fn s_acos(v: int) -> int {
    fsub(HALF_PI_FIX as int, s_asin(v))
}

/// Quadrant-corrected arc-tangent of `y / x`.
#[verifier::opaque]
pub open spec fn s_atan2(y: int, x: int) -> int {
    if x == 0 {
        if y < 0 {
            -(HALF_PI_FIX as int)
        } else {
            HALF_PI_FIX as int
        }
    } else if y == 0 {
        if x >= 0 {
            0
        } else {
            PI_FIX as int
        }
    } else {
        let q = atan_fix(fclamp(fdiv(y, x), -(ATAN_DOM as int), ATAN_DOM as int));
        if x > 0 {
            q
        } else if y > 0 {
            fadd(q, PI_FIX as int)
        } else {
            fsub(q, PI_FIX as int)
        }
    }
}

/// Fold an angle into `[0, 2*pi)`.
pub fn normalize_angle(angle: i64) -> (r: i64)
    ensures
        r as int == s_nrm(angle as int),
        0 <= r < TAU_FIX,
{
    let mut ret: i64 = angle;
    while ret >= TAU_FIX
        invariant
            ret as int % (TAU_FIX as int) == (angle as int) % (TAU_FIX as int),
        decreases ret,
    {
        proof {
            vstd::arithmetic::div_mod::lemma_mod_sub_multiples_vanish(
                ret as int,
                TAU_FIX as int,
            );
        }
        ret = ret - TAU_FIX;
    }
    while ret < 0
        invariant
            ret < TAU_FIX,
            ret as int % (TAU_FIX as int) == (angle as int) % (TAU_FIX as int),
        decreases TAU_FIX - ret,
    {
        proof {
            vstd::arithmetic::div_mod::lemma_mod_add_multiples_vanish(
                ret as int,
                TAU_FIX as int,
            );
        }
        ret = ret + TAU_FIX;
    }
    proof {
        vstd::arithmetic::div_mod::lemma_small_mod(ret as nat, TAU_FIX as nat);
    }
    ret
}

/// Wrapped difference of two angles, in `[-pi, pi]`.
pub fn diff_angle(a: i64, b: i64) -> (r: i64)
    ensures
        r as int == s_diff(a as int, b as int),
        -(PI_FIX as int) <= r as int <= PI_FIX as int,
{
    proof {
        reveal(s_diff);
    }
    let d: i64 = normalize_angle(a) - normalize_angle(b);
    if d > PI_FIX {
        d - TAU_FIX
    } else if d < -PI_FIX {
        d + TAU_FIX
    } else {
        d
    }
}

/// Total wrapped angular distance between two triples.
pub fn err3(t: &Vec3, before: &Vec3) -> (r: i64)
    ensures
        r as int == s_err3(*t, *before),
{
    proof {
        reveal(s_err3);
    }
    let dx: i64 = diff_angle(t.x, before.x);
    let dy: i64 = diff_angle(t.y, before.y);
    let dz: i64 = diff_angle(t.z, before.z);
    let ax: i64 = if dx < 0 { -dx } else { dx };
    let ay: i64 = if dy < 0 { -dy } else { dy };
    let az: i64 = if dz < 0 { -dz } else { dz };
    ax + ay + az
}

/// Arc-sine over clamped input.
pub fn asin_impl(v: i64) -> (r: i64)
    ensures
        r as int == s_asin(v as int),
{
    proof {
        reveal(s_asin);
    }
    let x: i64 = clamp_fx(v, -ONE, ONE);
    let xx: i64 = mul_fx(x, x);
    let den: i64 = sqrt_fx(clamp_fx(sub_fx(ONE, xx), 0, SQRT_DOM));
    if den <= 0 {
        if x >= 0 {
            HALF_PI_FIX
        } else {
            -HALF_PI_FIX
        }
    } else {
        atan_fx(clamp_fx(div_fx(x, den), -ATAN_DOM, ATAN_DOM))
    }
}

/// Arc-cosine over clamped input.
pub fn acos_impl(v: i64) -> (r: i64)
    ensures
        r as int == s_acos(v as int),
{
    proof {
        reveal(s_acos);
        reveal(s_asin);
    }
    sub_fx(HALF_PI_FIX, asin_impl(v))
}

/// Quadrant-corrected arc-tangent of `y / x`.
pub fn atan2_impl(y: i64, x: i64) -> (r: i64)
    ensures
        r as int == s_atan2(y as int, x as int),
{
    proof {
        reveal(s_atan2);
    }
    if x == 0 {
        if y < 0 {
            -HALF_PI_FIX
        } else {
            HALF_PI_FIX
        }
    } else if y == 0 {
        if x >= 0 {
            0
        } else {
            PI_FIX
        }
    } else {
        let q: i64 = atan_fx(clamp_fx(div_fx(y, x), -ATAN_DOM, ATAN_DOM));
        if x > 0 {
            q
        } else if y > 0 {
            add_fx(q, PI_FIX)
        } else {
            sub_fx(q, PI_FIX)
        }
    }
}

/// The primary triple extracted from the matrix, with the gimbal-lock branch
/// resolved by the reference triple's sine and cosine signs.
#[verifier::opaque]
pub open spec fn primary_euler(m: Mat3, before: Vec3) -> Vec3 {
    let sy = fneg(m.c0.z as int);
    if fsub(ONE as int, fabs(sy)) < E_GIMBAL as int {
        let ry = s_asin(sy) as i64;
        if fabs(sin_fix(before.x as int)) < fabs(sin_fix(before.z as int)) {
            if cos_fix(before.x as int) > 0 {
                Vec3 { x: 0, y: ry, z: s_asin(fneg(m.c1.x as int)) as i64 }
            } else {
                Vec3 { x: PI_FIX, y: ry, z: s_asin(m.c1.x as int) as i64 }
            }
        } else {
            if cos_fix(before.z as int) > 0 {
                Vec3 { x: s_asin(fneg(m.c2.y as int)) as i64, y: ry, z: 0 }
            } else {
                Vec3 { x: s_asin(m.c2.y as int) as i64, y: ry, z: PI_FIX }
            }
        }
    } else {
        Vec3 {
            x: s_atan2(m.c1.z as int, m.c2.z as int) as i64,
            y: s_asin(fneg(m.c0.z as int)) as i64,
            z: s_atan2(m.c0.y as int, m.c0.x as int) as i64,
        }
    }
}

/// One of the eight equivalent triples reachable from `p` by the standard
/// `pi - angle` and `angle +- pi` substitutions.
#[verifier::opaque]
pub open spec fn s_alt(p: Vec3, xp: bool, yp: bool, zp: bool) -> Vec3 {
    Vec3 {
        x: (if xp {
            fadd(p.x as int, PI_FIX as int)
        } else {
            fsub(p.x as int, PI_FIX as int)
        }) as i64,
        y: (if yp {
            fsub(PI_FIX as int, p.y as int)
        } else {
            fsub(-(PI_FIX as int), p.y as int)
        }) as i64,
        z: (if zp {
            fadd(p.z as int, PI_FIX as int)
        } else {
            fsub(p.z as int, PI_FIX as int)
        }) as i64,
    }
}

/// Of two triples, the one closer to the reference; ties keep the current one.
#[verifier::opaque]
pub open spec fn pick_best(cur: Vec3, cand: Vec3, before: Vec3) -> Vec3 {
    if s_err3(cand, before) < s_err3(cur, before) {
        cand
    } else {
        cur
    }
}

/// The triple closest to `before` among the primary extraction and its eight
/// alternatives, earliest first on ties.
#[verifier::opaque]
pub open spec fn best_euler(m: Mat3, before: Vec3) -> Vec3 {
    let p = primary_euler(m, before);
    let r1 = pick_best(p, s_alt(p, true, true, true), before);
    let r2 = pick_best(r1, s_alt(p, true, true, false), before);
    let r3 = pick_best(r2, s_alt(p, true, false, true), before);
    let r4 = pick_best(r3, s_alt(p, true, false, false), before);
    let r5 = pick_best(r4, s_alt(p, false, true, true), before);
    let r6 = pick_best(r5, s_alt(p, false, true, false), before);
    let r7 = pick_best(r6, s_alt(p, false, false, true), before);
    pick_best(r7, s_alt(p, false, false, false), before)
}

/// One of the eight alternative triples.
fn alt(p: &Vec3, xp: bool, yp: bool, zp: bool) -> (r: Vec3)
    ensures
        r == s_alt(*p, xp, yp, zp),
{
    proof {
        reveal(s_alt);
    }
    Vec3 {
        x: if xp {
            add_fx(p.x, PI_FIX)
        } else {
            sub_fx(p.x, PI_FIX)
        },
        y: if yp {
            sub_fx(PI_FIX, p.y)
        } else {
            sub_fx(-PI_FIX, p.y)
        },
        z: if zp {
            add_fx(p.z, PI_FIX)
        } else {
            sub_fx(p.z, PI_FIX)
        },
    }
}

/// Of two triples, the one closer to the reference; ties keep the current one.
fn pick(cur: Vec3, cand: Vec3, before: &Vec3) -> (r: Vec3)
    ensures
        r == pick_best(cur, cand, *before),
{
    proof {
        reveal(pick_best);
    }
    if err3(&cand, before) < err3(&cur, before) {
        cand
    } else {
        cur
    }
}

/// Decompose a rotation matrix into the Euler XYZ triple closest to `before`.
///
/// The result is exactly the best triple among the primary extraction and its
/// eight alternatives, so its distance to the reference never exceeds the
/// primary's: the decomposition is continuity-preserving.
pub fn decompose(m: &Mat3, before: &Vec3) -> (r: Vec3)
    requires
        -(TRIG_DOM as int) <= before.x as int <= TRIG_DOM as int,
        -(TRIG_DOM as int) <= before.z as int <= TRIG_DOM as int,
    ensures
        r == best_euler(*m, *before),
        s_err3(r, *before) <= s_err3(primary_euler(*m, *before), *before),
{
    proof {
        reveal(best_euler);
        reveal(primary_euler);
        reveal(pick_best);
    }
    let sy: i64 = neg_fx(m.c0.z);
    let p: Vec3 = if sub_fx(ONE, abs_fx(sy)) < E_GIMBAL {
        let ry: i64 = asin_impl(sy);
        let sx: i64 = sin_fx(before.x);
        let sz: i64 = sin_fx(before.z);
        if abs_fx(sx) < abs_fx(sz) {
            let cx: i64 = cos_fx(before.x);
            if cx > 0 {
                Vec3 { x: 0, y: ry, z: asin_impl(neg_fx(m.c1.x)) }
            } else {
                Vec3 { x: PI_FIX, y: ry, z: asin_impl(m.c1.x) }
            }
        } else {
            let cz: i64 = cos_fx(before.z);
            if cz > 0 {
                Vec3 { x: asin_impl(neg_fx(m.c2.y)), y: ry, z: 0 }
            } else {
                Vec3 { x: asin_impl(m.c2.y), y: ry, z: PI_FIX }
            }
        }
    } else {
        Vec3 {
            x: atan2_impl(m.c1.z, m.c2.z),
            y: asin_impl(neg_fx(m.c0.z)),
            z: atan2_impl(m.c0.y, m.c0.x),
        }
    };
    let mut best: Vec3 = p;
    best = pick(best, alt(&p, true, true, true), before);
    best = pick(best, alt(&p, true, true, false), before);
    best = pick(best, alt(&p, true, false, true), before);
    best = pick(best, alt(&p, true, false, false), before);
    best = pick(best, alt(&p, false, true, true), before);
    best = pick(best, alt(&p, false, true, false), before);
    best = pick(best, alt(&p, false, false, true), before);
    best = pick(best, alt(&p, false, false, false), before);
    best
}

/// The decomposition never strays farther from the reference triple than the
/// naive primary extraction does: choosing among the alternative triples can
/// only move the result closer to the previous iteration's angles.
pub proof fn lemma_decompose_continuity(m: Mat3, before: Vec3)
    ensures
        s_err3(best_euler(m, before), before) <= s_err3(primary_euler(m, before), before),
{
    reveal(best_euler);
    reveal(pick_best);
}

} // verus!
