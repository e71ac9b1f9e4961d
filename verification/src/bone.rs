//! Bones of a flat, parent-indexed rig.

use vstd::prelude::*;
use crate::vec3::Vec3;
use crate::quat::{Quat, q_identity, q_mul};
use crate::affine::{Affine, a_identity};
use crate::mat3::m_from_quat;

verus! {

/// One bone of the rig. `parent_index` is negative for a root; a rig is
/// well formed when every parent index is smaller than the bone's own index.
#[derive(Clone, Copy, Debug, PartialEq, Eq, Structural)]
pub struct Bone {
    pub parent_index: i32,
    pub translation: Vec3,
    pub animation_rotate: Quat,
    pub ik_rotate: Quat,
    pub enable_ik: bool,
    pub local_transform: Affine,
    pub global_transform: Affine,
}

/// The local transform a bone's rotations and rest translation call for:
/// the matrix of `ik_rotate * animation_rotate`, translated by `translation`.
#[verifier::opaque]
pub open spec fn local_of(b: Bone) -> Affine {
    Affine { m: m_from_quat(q_mul(b.ik_rotate, b.animation_rotate)), t: b.translation }
}

/// Every parent index is strictly below its bone's index (roots are
/// negative). Flat rig formats store bones parent-first, and this order is
/// what bounds the propagation's walk over the parent links.
pub open spec fn wf_parents(s: Seq<Bone>) -> bool {
    forall|j: int| 0 <= j < s.len() ==> ((#[trigger] s[j]).parent_index as int) < j
}

/// `b` agrees with `a` on everything but the two transform fields.
pub open spec fn same_skeleton(a: Bone, b: Bone) -> bool {
    a.parent_index == b.parent_index && a.translation == b.translation
        && a.animation_rotate == b.animation_rotate && a.ik_rotate == b.ik_rotate
        && a.enable_ik == b.enable_ik
}

impl Bone {
    /// A root bone at rest: identity rotations and transforms.
    pub fn new(parent_index: i32, translation: Vec3) -> (r: Bone)
        ensures
            r.parent_index == parent_index,
            r.translation == translation,
            r.animation_rotate == q_identity(),
            r.ik_rotate == q_identity(),
            r.enable_ik == false,
            r.local_transform == a_identity(),
            r.global_transform == a_identity(),
    {
        Bone {
            parent_index,
            translation,
            animation_rotate: Quat::identity(),
            ik_rotate: Quat::identity(),
            enable_ik: false,
            local_transform: Affine::identity(),
            global_transform: Affine::identity(),
        }
    }

    /// Recompute the local transform from the current rotations.
    pub fn update_local_transform(&mut self)
        ensures
            final(self).local_transform == local_of(*old(self)),
            same_skeleton(*old(self), *final(self)),
            final(self).global_transform == old(self).global_transform,
    {
        proof {
            reveal(local_of);
        }
        let rot: Quat = self.ik_rotate.mul(&self.animation_rotate);
        self.local_transform = Affine { m: crate::mat3::Mat3::from_quat(&rot), t: self.translation };
    }
}

} // verus!
