//! Column-major 3x3 matrices of Q32.32 scalars.

use vstd::prelude::*;
use crate::fix::{fadd, fsub, fmul, ONE, add_fx, sub_fx, mul_fx};
use crate::vec3::{Vec3, v_add, v_scale};
use crate::quat::Quat;

verus! {

/// A 3x3 matrix held as three columns.
#[derive(Clone, Copy, Debug, PartialEq, Eq, Structural)]
pub struct Mat3 {
    pub c0: Vec3,
    pub c1: Vec3,
    pub c2: Vec3,
}

/// The identity matrix.
pub open spec fn m_identity() -> Mat3 {
    Mat3 {
        c0: Vec3 { x: ONE, y: 0, z: 0 },
        c1: Vec3 { x: 0, y: ONE, z: 0 },
        c2: Vec3 { x: 0, y: 0, z: ONE },
    }
}

/// Matrix applied to a column vector.
#[verifier::opaque]
pub open spec fn m_mul_vec(m: Mat3, v: Vec3) -> Vec3 {
    v_add(v_add(v_scale(m.c0, v.x as int), v_scale(m.c1, v.y as int)), v_scale(m.c2, v.z as int))
}

/// Matrix product `a * b`.
#[verifier::opaque]
pub open spec fn m_mul(a: Mat3, b: Mat3) -> Mat3 {
    Mat3 { c0: m_mul_vec(a, b.c0), c1: m_mul_vec(a, b.c1), c2: m_mul_vec(a, b.c2) }
}

/// Transpose.
#[verifier::opaque]
pub open spec fn m_transpose(m: Mat3) -> Mat3 {
    Mat3 {
        c0: Vec3 { x: m.c0.x, y: m.c1.x, z: m.c2.x },
        c1: Vec3 { x: m.c0.y, y: m.c1.y, z: m.c2.y },
        c2: Vec3 { x: m.c0.z, y: m.c1.z, z: m.c2.z },
    }
}

/// Rotation matrix of a unit quaternion, acting on column vectors.
#[verifier::opaque]
pub open spec fn m_from_quat(q: Quat) -> Mat3 {
    let xx = fmul(q.x as int, q.x as int);
    let yy = fmul(q.y as int, q.y as int);
    let zz = fmul(q.z as int, q.z as int);
    let xy = fmul(q.x as int, q.y as int);
    let xz = fmul(q.x as int, q.z as int);
    let yz = fmul(q.y as int, q.z as int);
    let wx = fmul(q.w as int, q.x as int);
    let wy = fmul(q.w as int, q.y as int);
    let wz = fmul(q.w as int, q.z as int);
    Mat3 {
        c0: Vec3 {
            x: fsub(ONE as int, fadd(fadd(yy, zz), fadd(yy, zz))) as i64,
            y: fadd(fadd(xy, wz), fadd(xy, wz)) as i64,
            z: fsub(fadd(xz, xz), fadd(wy, wy)) as i64,
        },
        c1: Vec3 {
            x: fsub(fadd(xy, xy), fadd(wz, wz)) as i64,
            y: fsub(ONE as int, fadd(fadd(xx, zz), fadd(xx, zz))) as i64,
            z: fadd(fadd(yz, wx), fadd(yz, wx)) as i64,
        },
        c2: Vec3 {
            x: fadd(fadd(xz, wy), fadd(xz, wy)) as i64,
            y: fsub(fadd(yz, yz), fadd(wx, wx)) as i64,
            z: fsub(ONE as int, fadd(fadd(xx, yy), fadd(xx, yy))) as i64,
        },
    }
}

impl Mat3 {
    /// The identity matrix.
    pub fn identity() -> (r: Mat3)
        ensures
            r == m_identity(),
    {
        Mat3 {
            c0: Vec3 { x: ONE, y: 0, z: 0 },
            c1: Vec3 { x: 0, y: ONE, z: 0 },
            c2: Vec3 { x: 0, y: 0, z: ONE },
        }
    }

    /// Matrix applied to a column vector.
    pub fn mul_vec(&self, v: &Vec3) -> (r: Vec3)
        ensures
            r == m_mul_vec(*self, *v),
    {
        proof {
            reveal(m_mul_vec);
        }
        self.c0.scale(v.x).add(&self.c1.scale(v.y)).add(&self.c2.scale(v.z))
    }

    /// Matrix product `self * o`.
    pub fn mul(&self, o: &Mat3) -> (r: Mat3)
        ensures
            r == m_mul(*self, *o),
    {
        proof {
            reveal(m_mul);
        }
        Mat3 { c0: self.mul_vec(&o.c0), c1: self.mul_vec(&o.c1), c2: self.mul_vec(&o.c2) }
    }

    /// Transpose.
    pub fn transpose(&self) -> (r: Mat3)
        ensures
            r == m_transpose(*self),
    {
        proof {
            reveal(m_transpose);
        }
        Mat3 {
            c0: Vec3 { x: self.c0.x, y: self.c1.x, z: self.c2.x },
            c1: Vec3 { x: self.c0.y, y: self.c1.y, z: self.c2.y },
            c2: Vec3 { x: self.c0.z, y: self.c1.z, z: self.c2.z },
        }
    }

    /// Rotation matrix of a unit quaternion.
    pub fn from_quat(q: &Quat) -> (r: Mat3)
        ensures
            r == m_from_quat(*q),
    {
        proof {
            reveal(m_from_quat);
        }
        let xx: i64 = mul_fx(q.x, q.x);
        let yy: i64 = mul_fx(q.y, q.y);
        let zz: i64 = mul_fx(q.z, q.z);
        let xy: i64 = mul_fx(q.x, q.y);
        let xz: i64 = mul_fx(q.x, q.z);
        let yz: i64 = mul_fx(q.y, q.z);
        let wx: i64 = mul_fx(q.w, q.x);
        let wy: i64 = mul_fx(q.w, q.y);
        let wz: i64 = mul_fx(q.w, q.z);
        Mat3 {
            c0: Vec3 {
                x: sub_fx(ONE, add_fx(add_fx(yy, zz), add_fx(yy, zz))),
                y: add_fx(add_fx(xy, wz), add_fx(xy, wz)),
                z: sub_fx(add_fx(xz, xz), add_fx(wy, wy)),
            },
            c1: Vec3 {
                x: sub_fx(add_fx(xy, xy), add_fx(wz, wz)),
                y: sub_fx(ONE, add_fx(add_fx(xx, zz), add_fx(xx, zz))),
                z: add_fx(add_fx(yz, wx), add_fx(yz, wx)),
            },
            c2: Vec3 {
                x: add_fx(add_fx(xz, wy), add_fx(xz, wy)),
                y: sub_fx(add_fx(yz, yz), add_fx(wx, wx)),
                z: sub_fx(ONE, add_fx(add_fx(xx, yy), add_fx(xx, yy))),
            },
        }
    }
}

/// Vector rotated by a quaternion, through its rotation matrix.
#[verifier::opaque]
pub open spec fn v_rotate(q: Quat, v: Vec3) -> Vec3 {
    m_mul_vec(m_from_quat(q), v)
}

/// Vector rotated by a quaternion, through its rotation matrix.
pub fn rotate_vec(q: &Quat, v: &Vec3) -> (r: Vec3)
    ensures
        r == v_rotate(*q, *v),
{
    proof {
        reveal(v_rotate);
    }
    Mat3::from_quat(q).mul_vec(v)
}

} // verus!
