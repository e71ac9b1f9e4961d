//! Three-component vectors of Q32.32 scalars.

use vstd::prelude::*;
use crate::fix::{
    fadd, fsub, fneg, fmul, fdiv, fclamp, add_fx, sub_fx, neg_fx, mul_fx, div_fx, clamp_fx,
};
use crate::trig::{sqrt_fix, sqrt_fx, SQRT_DOM};

verus! {

/// A vector of three Q32.32 scalars.
#[derive(Clone, Copy, Debug, PartialEq, Eq, Structural)]
pub struct Vec3 {
    pub x: i64,
    pub y: i64,
    pub z: i64,
}

/// The zero vector.
pub open spec fn v_zero() -> Vec3 {
    Vec3 { x: 0, y: 0, z: 0 }
}

/// Component-wise saturating sum.
#[verifier::opaque]
pub open spec fn v_add(a: Vec3, b: Vec3) -> Vec3 {
    Vec3 {
        x: fadd(a.x as int, b.x as int) as i64,
        y: fadd(a.y as int, b.y as int) as i64,
        z: fadd(a.z as int, b.z as int) as i64,
    }
}

/// Component-wise saturating difference.
#[verifier::opaque]
pub open spec fn v_sub(a: Vec3, b: Vec3) -> Vec3 {
    Vec3 {
        x: fsub(a.x as int, b.x as int) as i64,
        y: fsub(a.y as int, b.y as int) as i64,
        z: fsub(a.z as int, b.z as int) as i64,
    }
}

/// Component-wise saturating negation.
#[verifier::opaque]
pub open spec fn v_neg(a: Vec3) -> Vec3 {
    Vec3 {
        x: fneg(a.x as int) as i64,
        y: fneg(a.y as int) as i64,
        z: fneg(a.z as int) as i64,
    }
}

/// Vector scaled by a scalar.
#[verifier::opaque]
pub open spec fn v_scale(a: Vec3, s: int) -> Vec3 {
    Vec3 {
        x: fmul(a.x as int, s) as i64,
        y: fmul(a.y as int, s) as i64,
        z: fmul(a.z as int, s) as i64,
    }
}

/// Dot product.
#[verifier::opaque]
pub open spec fn s_dot(a: Vec3, b: Vec3) -> int {
    fadd(
        fadd(fmul(a.x as int, b.x as int), fmul(a.y as int, b.y as int)),
        fmul(a.z as int, b.z as int),
    )
}

/// Cross product.
#[verifier::opaque]
pub open spec fn v_cross(a: Vec3, b: Vec3) -> Vec3 {
    Vec3 {
        x: fsub(fmul(a.y as int, b.z as int), fmul(a.z as int, b.y as int)) as i64,
        y: fsub(fmul(a.z as int, b.x as int), fmul(a.x as int, b.z as int)) as i64,
        z: fsub(fmul(a.x as int, b.y as int), fmul(a.y as int, b.x as int)) as i64,
    }
}

/// Squared length.
#[verifier::opaque]
pub open spec fn s_len_sq(a: Vec3) -> int {
    s_dot(a, a)
}

/// Length: square root of the squared length, clamped into the root's domain.
#[verifier::opaque]
pub open spec fn s_length(a: Vec3) -> int {
    sqrt_fix(fclamp(s_len_sq(a), 0, SQRT_DOM as int))
}

/// Unit vector in the direction of `a`, or zero when the length is not positive.
#[verifier::opaque]
pub open spec fn v_normalize_or_zero(a: Vec3) -> Vec3 {
    let l = s_length(a);
    if l <= 0 {
        v_zero()
    } else {
        Vec3 {
            x: fdiv(a.x as int, l) as i64,
            y: fdiv(a.y as int, l) as i64,
            z: fdiv(a.z as int, l) as i64,
        }
    }
}

impl Vec3 {
    /// The zero vector.
    pub fn zero() -> (r: Vec3)
        ensures
            r == v_zero(),
    {
        Vec3 { x: 0, y: 0, z: 0 }
    }

    /// Component-wise saturating sum.
    pub fn add(&self, o: &Vec3) -> (r: Vec3)
        ensures
            r == v_add(*self, *o),
    {
        proof {
            reveal(v_add);
        }
        Vec3 { x: add_fx(self.x, o.x), y: add_fx(self.y, o.y), z: add_fx(self.z, o.z) }
    }

    /// Component-wise saturating difference.
    pub fn sub(&self, o: &Vec3) -> (r: Vec3)
        ensures
            r == v_sub(*self, *o),
    {
        proof {
            reveal(v_sub);
        }
        Vec3 { x: sub_fx(self.x, o.x), y: sub_fx(self.y, o.y), z: sub_fx(self.z, o.z) }
    }

    /// Component-wise saturating negation.
    pub fn neg(&self) -> (r: Vec3)
        ensures
            r == v_neg(*self),
    {
        proof {
            reveal(v_neg);
        }
        Vec3 { x: neg_fx(self.x), y: neg_fx(self.y), z: neg_fx(self.z) }
    }

    /// Vector scaled by a scalar.
    pub fn scale(&self, s: i64) -> (r: Vec3)
        ensures
            r == v_scale(*self, s as int),
    {
        proof {
            reveal(v_scale);
        }
        Vec3 { x: mul_fx(self.x, s), y: mul_fx(self.y, s), z: mul_fx(self.z, s) }
    }

    /// Dot product.
    pub fn dot(&self, o: &Vec3) -> (r: i64)
        ensures
            r as int == s_dot(*self, *o),
    {
        proof {
            reveal(s_dot);
        }
        add_fx(add_fx(mul_fx(self.x, o.x), mul_fx(self.y, o.y)), mul_fx(self.z, o.z))
    }

    /// Cross product.
    pub fn cross(&self, o: &Vec3) -> (r: Vec3)
        ensures
            r == v_cross(*self, *o),
    {
        proof {
            reveal(v_cross);
        }
        Vec3 {
            x: sub_fx(mul_fx(self.y, o.z), mul_fx(self.z, o.y)),
            y: sub_fx(mul_fx(self.z, o.x), mul_fx(self.x, o.z)),
            z: sub_fx(mul_fx(self.x, o.y), mul_fx(self.y, o.x)),
        }
    }

    /// Squared length.
    pub fn length_squared(&self) -> (r: i64)
        ensures
            r as int == s_len_sq(*self),
    {
        proof {
            reveal(s_len_sq);
        }
        self.dot(self)
    }

    /// Length.
    pub fn length(&self) -> (r: i64)
        ensures
            r as int == s_length(*self),
            r >= 0,
    {
        proof {
            reveal(s_length);
        }
        let d: i64 = self.length_squared();
        sqrt_fx(clamp_fx(d, 0, SQRT_DOM))
    }

    /// Unit vector in this direction, or zero when the length is not positive.
    pub fn normalize_or_zero(&self) -> (r: Vec3)
        ensures
            r == v_normalize_or_zero(*self),
    {
        proof {
            reveal(v_normalize_or_zero);
        }
        let l: i64 = self.length();
        if l <= 0 {
            Vec3::zero()
        } else {
            Vec3 { x: div_fx(self.x, l), y: div_fx(self.y, l), z: div_fx(self.z, l) }
        }
    }
}

} // verus!
