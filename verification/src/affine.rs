//! Affine transforms: a 3x3 linear part and a translation.

use vstd::prelude::*;
use crate::vec3::{Vec3, v_add, v_neg, v_zero};
use crate::mat3::{Mat3, m_identity, m_mul, m_mul_vec, m_transpose};

verus! {

/// An affine transform `p -> m * p + t`.
#[derive(Clone, Copy, Debug, PartialEq, Eq, Structural)]
pub struct Affine {
    pub m: Mat3,
    pub t: Vec3,
}

/// The identity transform.
pub open spec fn a_identity() -> Affine {
    Affine { m: m_identity(), t: v_zero() }
}

/// Composition `a * b`: apply `b`, then `a`.
#[verifier::opaque]
pub open spec fn a_mul(a: Affine, b: Affine) -> Affine {
    Affine { m: m_mul(a.m, b.m), t: v_add(m_mul_vec(a.m, b.t), a.t) }
}

/// Transform applied to a point.
#[verifier::opaque]
pub open spec fn a_transform_point(a: Affine, p: Vec3) -> Vec3 {
    v_add(m_mul_vec(a.m, p), a.t)
}

/// Inverse of a rotation-plus-translation transform: the transposed linear
/// part and the back-rotated, negated translation.
#[verifier::opaque]
pub open spec fn a_inverse_rt(a: Affine) -> Affine {
    let mt = m_transpose(a.m);
    Affine { m: mt, t: v_neg(m_mul_vec(mt, a.t)) }
}

impl Affine {
    /// The identity transform.
    pub fn identity() -> (r: Affine)
        ensures
            r == a_identity(),
    {
        Affine { m: Mat3::identity(), t: Vec3::zero() }
    }

    /// Composition `self * o`: apply `o`, then `self`.
    pub fn mul(&self, o: &Affine) -> (r: Affine)
        ensures
            r == a_mul(*self, *o),
    {
        proof {
            reveal(a_mul);
        }
        Affine { m: self.m.mul(&o.m), t: self.m.mul_vec(&o.t).add(&self.t) }
    }

    /// Transform applied to a point.
    pub fn transform_point(&self, p: &Vec3) -> (r: Vec3)
        ensures
            r == a_transform_point(*self, *p),
    {
        proof {
            reveal(a_transform_point);
        }
        self.m.mul_vec(p).add(&self.t)
    }

    /// Inverse of a rotation-plus-translation transform.
    pub fn inverse_rt(&self) -> (r: Affine)
        ensures
            r == a_inverse_rt(*self),
    {
        proof {
            reveal(a_inverse_rt);
        }
        let mt: Mat3 = self.m.transpose();
        let bt: Vec3 = mt.mul_vec(&self.t).neg();
        Affine { m: mt, t: bt }
    }
}

} // verus!
