//! Quaternions of Q32.32 scalars.
//!
//! A quaternion `q` acts on column vectors: composing `a.mul(&b)` first
//! applies `b`, then `a`.

use vstd::prelude::*;
use crate::fix::{fadd, fsub, fneg, fmul, tz_div, ONE, add_fx, sub_fx, neg_fx, mul_fx, mag};
use crate::trig::{sin_fix, cos_fix, sin_fx, cos_fx, TRIG_DOM};
use crate::vec3::Vec3;

verus! {

/// A quaternion of four Q32.32 scalars.
#[derive(Clone, Copy, Debug, PartialEq, Eq, Structural)]
pub struct Quat {
    pub x: i64,
    pub y: i64,
    pub z: i64,
    pub w: i64,
}

/// The identity rotation.
pub open spec fn q_identity() -> Quat {
    Quat { x: 0, y: 0, z: 0, w: ONE }
}

/// Hamilton product `a * b` (apply `b`, then `a`).
#[verifier::opaque]
pub open spec fn q_mul(a: Quat, b: Quat) -> Quat {
    Quat {
        x: fadd(
            fadd(fmul(a.w as int, b.x as int), fmul(a.x as int, b.w as int)),
            fsub(fmul(a.y as int, b.z as int), fmul(a.z as int, b.y as int)),
        ) as i64,
        y: fadd(
            fsub(fmul(a.w as int, b.y as int), fmul(a.x as int, b.z as int)),
            fadd(fmul(a.y as int, b.w as int), fmul(a.z as int, b.x as int)),
        ) as i64,
        z: fadd(
            fadd(fmul(a.w as int, b.z as int), fmul(a.x as int, b.y as int)),
            fsub(fmul(a.z as int, b.w as int), fmul(a.y as int, b.x as int)),
        ) as i64,
        w: fsub(
            fsub(
                fsub(fmul(a.w as int, b.w as int), fmul(a.x as int, b.x as int)),
                fmul(a.y as int, b.y as int),
            ),
            fmul(a.z as int, b.z as int),
        ) as i64,
    }
}

/// Conjugate: the inverse of a unit rotation.
#[verifier::opaque]
pub open spec fn q_conj(a: Quat) -> Quat {
    Quat {
        x: fneg(a.x as int) as i64,
        y: fneg(a.y as int) as i64,
        z: fneg(a.z as int) as i64,
        w: a.w,
    }
}

/// Half of an angle, rounded toward zero.
pub open spec fn fhalf(a: int) -> int {
    tz_div(a, 2)
}

/// Rotation of `angle` radians about `axis` (expected to be unit length).
#[verifier::opaque]
pub open spec fn q_from_axis_angle(axis: Vec3, angle: int) -> Quat {
    let s = sin_fix(fhalf(angle));
    Quat {
        x: fmul(axis.x as int, s) as i64,
        y: fmul(axis.y as int, s) as i64,
        z: fmul(axis.z as int, s) as i64,
        w: cos_fix(fhalf(angle)) as i64,
    }
}

/// Rotation by Euler XYZ angles: about X first, then Y, then Z, so the
/// matrix form is `Rz * Ry * Rx` on column vectors.
#[verifier::opaque]
pub open spec fn q_from_euler(e: Vec3) -> Quat {
    q_mul(
        q_mul(
            q_from_axis_angle(Vec3 { x: 0, y: 0, z: ONE }, e.z as int),
            q_from_axis_angle(Vec3 { x: 0, y: ONE, z: 0 }, e.y as int),
        ),
        q_from_axis_angle(Vec3 { x: ONE, y: 0, z: 0 }, e.x as int),
    )
}

/// Half of a scalar, rounded toward zero.
pub fn half_fx(a: i64) -> (r: i64)
    ensures
        r as int == fhalf(a as int),
{
    let m: u64 = mag(a) / 2;
    if a < 0 {
        -(m as i64)
    } else {
        m as i64
    }
}

impl Quat {
    /// The identity rotation.
    pub fn identity() -> (r: Quat)
        ensures
            r == q_identity(),
    {
        Quat { x: 0, y: 0, z: 0, w: ONE }
    }

    /// Hamilton product `self * o` (apply `o`, then `self`).
    pub fn mul(&self, o: &Quat) -> (r: Quat)
        ensures
            r == q_mul(*self, *o),
    {
        proof {
            reveal(q_mul);
        }
        Quat {
            x: add_fx(
                add_fx(mul_fx(self.w, o.x), mul_fx(self.x, o.w)),
                sub_fx(mul_fx(self.y, o.z), mul_fx(self.z, o.y)),
            ),
            y: add_fx(
                sub_fx(mul_fx(self.w, o.y), mul_fx(self.x, o.z)),
                add_fx(mul_fx(self.y, o.w), mul_fx(self.z, o.x)),
            ),
            z: add_fx(
                add_fx(mul_fx(self.w, o.z), mul_fx(self.x, o.y)),
                sub_fx(mul_fx(self.z, o.w), mul_fx(self.y, o.x)),
            ),
            w: sub_fx(
                sub_fx(sub_fx(mul_fx(self.w, o.w), mul_fx(self.x, o.x)), mul_fx(self.y, o.y)),
                mul_fx(self.z, o.z),
            ),
        }
    }

    /// Conjugate: the inverse of a unit rotation.
    pub fn conj(&self) -> (r: Quat)
        ensures
            r == q_conj(*self),
    {
        proof {
            reveal(q_conj);
        }
        Quat { x: neg_fx(self.x), y: neg_fx(self.y), z: neg_fx(self.z), w: self.w }
    }

    /// Rotation of `angle` radians about `axis` (expected to be unit length).
    pub fn from_axis_angle(axis: &Vec3, angle: i64) -> (r: Quat)
        requires
            -2 * (TRIG_DOM as int) <= angle <= 2 * (TRIG_DOM as int),
        ensures
            r == q_from_axis_angle(*axis, angle as int),
    {
        proof {
            reveal(q_from_axis_angle);
        }
        let h: i64 = half_fx(angle);
        proof {
            assert(crate::fix::abs_i(angle as int) / 2 <= TRIG_DOM as int) by (nonlinear_arith)
                requires
                    crate::fix::abs_i(angle as int) <= 2 * (TRIG_DOM as int),
            ;
        }
        let s: i64 = sin_fx(h);
        let c: i64 = cos_fx(h);
        Quat { x: mul_fx(axis.x, s), y: mul_fx(axis.y, s), z: mul_fx(axis.z, s), w: c }
    }

    /// Rotation by Euler XYZ angles: about X first, then Y, then Z.
    pub fn from_euler(e: &Vec3) -> (r: Quat)
        requires
            -2 * (TRIG_DOM as int) <= e.x as int <= 2 * (TRIG_DOM as int),
            -2 * (TRIG_DOM as int) <= e.y as int <= 2 * (TRIG_DOM as int),
            -2 * (TRIG_DOM as int) <= e.z as int <= 2 * (TRIG_DOM as int),
        ensures
            r == q_from_euler(*e),
    {
        proof {
            reveal(q_from_euler);
        }
        let qx: Quat = Quat::from_axis_angle(&Vec3 { x: ONE, y: 0, z: 0 }, e.x);
        let qy: Quat = Quat::from_axis_angle(&Vec3 { x: 0, y: ONE, z: 0 }, e.y);
        let qz: Quat = Quat::from_axis_angle(&Vec3 { x: 0, y: 0, z: ONE }, e.z);
        qz.mul(&qy).mul(&qx)
    }
}

} // verus!
