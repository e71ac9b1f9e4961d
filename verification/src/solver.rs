//! The iterative IK solver: chain iteration with best-result rollback, the
//! general three-axis and single-axis ("plane") link strategies, and the
//! subtree transform propagation they rely on.

use vstd::prelude::*;
use crate::fix::{abs_i, fadd, fsub, fneg, fabs, fclamp, ONE, TAU_FIX, MAX_FIX, add_fx, sub_fx, clamp_fx};
use crate::vec3::{Vec3, v_sub, v_cross, v_normalize_or_zero, s_len_sq, s_dot, s_length};
use crate::quat::{Quat, q_identity, q_mul, q_conj, q_from_axis_angle, q_from_euler, fhalf};
use crate::mat3::{Mat3, m_from_quat, v_rotate};
use crate::affine::{Affine, a_mul, a_inverse_rt, a_transform_point};
use crate::bone::{Bone, wf_parents, local_of};
use crate::euler::{decompose, acos_impl, best_euler, s_acos};

verus! {

/// Squared-length threshold below which a local-space vector is degenerate.
pub const EPS_LEN_SQ: i64 = 4295;

/// Angle threshold (about one thousandth of a degree) below which a link is
/// already aligned and contributes nothing.
pub const ANGLE_EPS: i64 = 74961;

/// One link of the chain: a bone index, a limits flag and per-axis bounds.
#[derive(Clone, Copy, Debug, PartialEq, Eq, Structural)]
pub struct IkLink {
    pub bone_index: u32,
    pub has_limits: bool,
    pub limit_min: Vec3,
    pub limit_max: Vec3,
}

/// Solver configuration: the effector bone, the iteration budget, the
/// per-iteration step cap (radians) and the ordered chain of links.
#[derive(Clone, Debug)]
pub struct IkConfig {
    pub target_bone: u32,
    pub iterations: u32,
    pub limit_angle: i64,
    pub links: Vec<IkLink>,
}

/// The axis a single-axis link rotates about.
#[derive(Clone, Copy, Debug, PartialEq, Eq, Structural)]
pub enum SolveAxis {
    X,
    Y,
    Z,
}

/// One effector/goal/chain triple.
#[derive(Clone, Debug)]
pub struct IkSolver {
    pub bone_index: usize,
    pub config: IkConfig,
    pub enabled: bool,
}

/// Transient per-link state, scoped to one `solve` call: the previous
/// iteration's reference angles, the accumulated plane-mode angle, and the
/// rollback snapshot of the link's best-known IK rotation.
#[derive(Clone, Copy, Debug)]
pub struct IkChainState {
    pub prev_angle: Vec3,
    pub plane_mode_angle: i64,
    pub save_ik_rot: Quat,
}

/// Per-axis limit bounds are ordered and within one turn of zero.
pub open spec fn axis_limits_wf(min: i64, max: i64) -> bool {
    -(TAU_FIX as int) <= min as int <= max as int <= TAU_FIX as int
}

/// All three axes of a link carry well-formed bounds.
pub open spec fn link_wf(l: IkLink) -> bool {
    axis_limits_wf(l.limit_min.x, l.limit_max.x) && axis_limits_wf(l.limit_min.y, l.limit_max.y)
        && axis_limits_wf(l.limit_min.z, l.limit_max.z)
}

/// The configuration's step cap is a nonnegative angle within one turn and
/// every link's bounds are well formed. The one-turn bound is what the
/// fixed-point trigonometric layer's argument domains admit; rig formats
/// state joint limits within a single turn, and a reversed bound or a
/// negative cap is what made the floating-point clamp of such solvers
/// panic.
pub open spec fn config_wf(c: IkConfig) -> bool {
    0 <= c.limit_angle as int <= TAU_FIX as int && forall|i: int|
        0 <= i < c.links@.len() ==> link_wf(#[trigger] c.links@[i])
}

/// An axis is active when either of its bounds is non-zero.
pub open spec fn axis_active(min: i64, max: i64) -> bool {
    min != 0 || max != 0
}

/// The single-axis mode a link qualifies for: exactly one axis active.
pub open spec fn plane_axis_of(l: IkLink) -> Option<SolveAxis> {
    let xa = axis_active(l.limit_min.x, l.limit_max.x);
    let ya = axis_active(l.limit_min.y, l.limit_max.y);
    let za = axis_active(l.limit_min.z, l.limit_max.z);
    if xa && !ya && !za {
        Option::Some(SolveAxis::X)
    } else if ya && !xa && !za {
        Option::Some(SolveAxis::Y)
    } else if za && !xa && !ya {
        Option::Some(SolveAxis::Z)
    } else {
        Option::None
    }
}

/// The unit vector of a solve axis.
pub open spec fn axis_vec(a: SolveAxis) -> Vec3 {
    match a {
        SolveAxis::X => Vec3 { x: ONE, y: 0, z: 0 },
        SolveAxis::Y => Vec3 { x: 0, y: ONE, z: 0 },
        SolveAxis::Z => Vec3 { x: 0, y: 0, z: ONE },
    }
}

/// The lower bound of a link on one axis.
pub open spec fn axis_min(l: IkLink, a: SolveAxis) -> i64 {
    match a {
        SolveAxis::X => l.limit_min.x,
        SolveAxis::Y => l.limit_min.y,
        SolveAxis::Z => l.limit_min.z,
    }
}

/// The upper bound of a link on one axis.
pub open spec fn axis_max(l: IkLink, a: SolveAxis) -> i64 {
    match a {
        SolveAxis::X => l.limit_max.x,
        SolveAxis::Y => l.limit_max.y,
        SolveAxis::Z => l.limit_max.z,
    }
}

/// Each axis's bounds admit the zero angle.
pub open spec fn straddles_zero(l: IkLink) -> bool {
    l.limit_min.x as int <= 0 <= l.limit_max.x as int && l.limit_min.y as int <= 0
        <= l.limit_max.y as int && l.limit_min.z as int <= 0 <= l.limit_max.z as int
}

/// A triple of angles lies within a link's per-axis bounds.
pub open spec fn within_limits(e: Vec3, l: IkLink) -> bool {
    l.limit_min.x <= e.x <= l.limit_max.x && l.limit_min.y <= e.y <= l.limit_max.y
        && l.limit_min.z <= e.z <= l.limit_max.z
}

/// A single-axis link's IK rotation is either untouched (identity) or built
/// from an angle within the active axis's bounds, with the animation
/// contribution stripped.
pub open spec fn plane_rot_ok(l: IkLink, a: SolveAxis, ikr: Quat, anim: Quat) -> bool {
    ikr == q_identity() || exists|ang: i64|
        axis_min(l, a) <= ang <= axis_max(l, a) && ikr == q_mul(
            #[trigger] q_from_axis_angle(axis_vec(a), ang as int),
            q_conj(anim),
        )
}

/// A limited general-mode link's IK rotation is either untouched (identity)
/// or rebuilt from an Euler XYZ triple within the link's bounds, with the
/// animation contribution stripped.
pub open spec fn euler_rot_ok(l: IkLink, ikr: Quat, anim: Quat) -> bool {
    ikr == q_identity() || exists|e: Vec3|
        #[trigger] within_limits(e, l) && ikr == q_mul(q_from_euler(e), q_conj(anim))
}

/// The limit claim a single rotation value owes a limited link.
pub open spec fn rot_respects_limits(l: IkLink, ikr: Quat, anim: Quat) -> bool {
    match plane_axis_of(l) {
        Option::Some(a) => plane_rot_ok(l, a, ikr, anim),
        Option::None => straddles_zero(l) ==> euler_rot_ok(l, ikr, anim),
    }
}

/// No two links drive the same bone.
pub open spec fn links_distinct(links: Seq<IkLink>) -> bool {
    forall|i: int, j: int|
        0 <= i < j < links.len() ==> (#[trigger] links[i]).bone_index != (
        #[trigger] links[j]).bone_index
}

/// Limit enforcement: when no two links share a bone, every limited link's
/// bone holds an IK rotation that respects that link's bounds.
pub open spec fn limits_ok_all(links: Seq<IkLink>, bones: Seq<Bone>) -> bool {
    links_distinct(links) ==> forall|i: int|
        0 <= i < links.len() && (#[trigger] links[i]).has_limits && links[i].bone_index < bones.len()
            ==> rot_respects_limits(
            links[i],
            bones[links[i].bone_index as int].ik_rotate,
            bones[links[i].bone_index as int].animation_rotate,
        )
}

/// Bone `j` with its global transform recomputed from its parent's current
/// one (or from its own local transform at a root).
pub open spec fn recompute_global(s: Seq<Bone>, j: int) -> Seq<Bone> {
    let b = s[j];
    let g = if b.parent_index < 0 {
        b.local_transform
    } else {
        a_mul(s[b.parent_index as int].global_transform, b.local_transform)
    };
    s.update(j, Bone { global_transform: g, ..b })
}

/// Transform propagation over indices `j` and above, in index order: every
/// bone of `idx`'s subtree is recomputed from its (already updated) parent.
#[verifier::opaque]
pub open spec fn propagate_from(s: Seq<Bone>, idx: int, j: int) -> Seq<Bone>
    decreases s.len() - j,
{
    if j < 0 || j >= s.len() {
        s
    } else {
        let s2 = if in_chain(s, j, idx) {
            recompute_global(s, j)
        } else {
            s
        };
        propagate_from(s2, idx, j + 1)
    }
}

/// The full propagation from bone `idx`: the bone itself, then its subtree.
#[verifier::opaque]
pub open spec fn propagate_spec(s: Seq<Bone>, idx: int) -> Seq<Bone> {
    propagate_from(recompute_global(s, idx), idx, idx + 1)
}

/// The single-axis link solve as a function of the incoming state: the new
/// bone array and chain state after one plane-mode update of link
/// `chain_idx` about `axis`, or the state unchanged on degenerate geometry.
#[verifier::opaque]
pub open spec fn solve_plane_spec(
    s: Seq<Bone>,
    cs: Seq<IkChainState>,
    goal_idx: int,
    target_idx: int,
    iteration: u32,
    chain_idx: int,
    axis: SolveAxis,
    link: IkLink,
    cap: i64,
) -> (Seq<Bone>, Seq<IkChainState>) {
    let link_idx = link.bone_index as int;
    let lo = axis_min(link, axis);
    let hi = axis_max(link, axis);
    let inv_chain = a_inverse_rt(s[link_idx].global_transform);
    let chain_ik_vec = v_normalize_or_zero(
        a_transform_point(inv_chain, s[goal_idx].global_transform.t),
    );
    let chain_target_vec = v_normalize_or_zero(
        a_transform_point(inv_chain, s[target_idx].global_transform.t),
    );
    if s_len_sq(chain_ik_vec) < EPS_LEN_SQ as int || s_len_sq(chain_target_vec) < EPS_LEN_SQ as int {
        (s, cs)
    } else {
        let dot = fclamp(s_dot(chain_target_vec, chain_ik_vec), -(ONE as int), ONE as int);
        let angle = fclamp(s_acos(dot), -(cap as int), cap as int) as i64;
        let dot1 = s_dot(
            v_rotate(q_from_axis_angle(axis_vec(axis), angle as int), chain_target_vec),
            chain_ik_vec,
        );
        let dot2 = s_dot(
            v_rotate(q_from_axis_angle(axis_vec(axis), fneg(angle as int)), chain_target_vec),
            chain_ik_vec,
        );
        let acc0 = cs[chain_idx].plane_mode_angle;
        let acc1 = (if dot1 > dot2 {
            fadd(acc0 as int, angle as int)
        } else {
            fsub(acc0 as int, angle as int)
        }) as i64;
        let acc2 = if iteration == 0 && (acc1 < lo || acc1 > hi) {
            let negated = fneg(acc1 as int) as i64;
            if negated > lo && negated < hi {
                negated
            } else {
                let half_rad = fhalf(fadd(lo as int, hi as int)) as i64;
                if fabs(fsub(half_rad as int, acc1 as int)) > fabs(
                    fadd(half_rad as int, acc1 as int),
                ) {
                    fneg(acc1 as int) as i64
                } else {
                    acc1
                }
            }
        } else {
            acc1
        };
        let new_angle = fclamp(acc2 as int, lo as int, hi as int) as i64;
        let cs1 = cs.update(
            chain_idx,
            IkChainState { plane_mode_angle: new_angle, ..cs[chain_idx] },
        );
        let anim = s[link_idx].animation_rotate;
        let ik_rot = q_mul(q_from_axis_angle(axis_vec(axis), new_angle as int), q_conj(anim));
        let b1 = Bone { ik_rotate: ik_rot, ..s[link_idx] };
        let b2 = Bone { local_transform: local_of(b1), ..b1 };
        (propagate_spec(s.update(link_idx, b2), link_idx), cs1)
    }
}

/// The general three-axis link solve as a function of the incoming state:
/// the new bone array and chain state after one update of link `chain_idx`,
/// or the state unchanged on any of the three skip conditions.
#[verifier::opaque]
pub open spec fn solve_general_spec(
    s: Seq<Bone>,
    cs: Seq<IkChainState>,
    target_idx: int,
    chain_idx: int,
    link: IkLink,
    cap: i64,
    ik_pos: Vec3,
) -> (Seq<Bone>, Seq<IkChainState>) {
    let link_idx = link.bone_index as int;
    let inv_chain = a_inverse_rt(s[link_idx].global_transform);
    let chain_ik_vec = v_normalize_or_zero(a_transform_point(inv_chain, ik_pos));
    let chain_target_vec = v_normalize_or_zero(
        a_transform_point(inv_chain, s[target_idx].global_transform.t),
    );
    if s_len_sq(chain_ik_vec) < EPS_LEN_SQ as int || s_len_sq(chain_target_vec) < EPS_LEN_SQ as int {
        (s, cs)
    } else {
        let dot = fclamp(s_dot(chain_target_vec, chain_ik_vec), -(ONE as int), ONE as int);
        let angle0 = s_acos(dot);
        if angle0 < ANGLE_EPS as int {
            (s, cs)
        } else {
            let angle = fclamp(angle0, -(cap as int), cap as int) as i64;
            let cross = v_normalize_or_zero(v_cross(chain_target_vec, chain_ik_vec));
            if s_len_sq(cross) < EPS_LEN_SQ as int {
                (s, cs)
            } else {
                let rot = q_from_axis_angle(cross, angle as int);
                let anim = s[link_idx].animation_rotate;
                let chain_rot = q_mul(q_mul(s[link_idx].ik_rotate, anim), rot);
                if link.has_limits {
                    let prev = cs[chain_idx].prev_angle;
                    let rot_xyz = best_euler(m_from_quat(chain_rot), prev);
                    let cx = fclamp(rot_xyz.x as int, link.limit_min.x as int, link.limit_max.x as int);
                    let cy = fclamp(rot_xyz.y as int, link.limit_min.y as int, link.limit_max.y as int);
                    let cz = fclamp(rot_xyz.z as int, link.limit_min.z as int, link.limit_max.z as int);
                    let ne = Vec3 {
                        x: fadd(fclamp(fsub(cx, prev.x as int), -(cap as int), cap as int), prev.x as int) as i64,
                        y: fadd(fclamp(fsub(cy, prev.y as int), -(cap as int), cap as int), prev.y as int) as i64,
                        z: fadd(fclamp(fsub(cz, prev.z as int), -(cap as int), cap as int), prev.z as int) as i64,
                    };
                    let cs1 = cs.update(chain_idx, IkChainState { prev_angle: ne, ..cs[chain_idx] });
                    let ik_rot = q_mul(q_from_euler(ne), q_conj(anim));
                    let b1 = Bone { ik_rotate: ik_rot, ..s[link_idx] };
                    let b2 = Bone { local_transform: local_of(b1), ..b1 };
                    (propagate_spec(s.update(link_idx, b2), link_idx), cs1)
                } else {
                    let ik_rot = q_mul(chain_rot, q_conj(anim));
                    let b1 = Bone { ik_rotate: ik_rot, ..s[link_idx] };
                    let b2 = Bone { local_transform: local_of(b1), ..b1 };
                    (propagate_spec(s.update(link_idx, b2), link_idx), cs)
                }
            }
        }
    }
}

/// The remainder of one chain pass, from link `ci` on: each link in order,
/// skipped when its bone is out of range or coincides with the effector,
/// solved about its single active axis when it has limits and qualifies for
/// plane mode, and by the general three-axis strategy otherwise.
#[verifier::opaque]
pub open spec fn solve_core_from(
    links: Seq<IkLink>,
    cap: i64,
    goal_idx: int,
    target_idx: int,
    iteration: u32,
    s: Seq<Bone>,
    cs: Seq<IkChainState>,
    ik_pos: Vec3,
    ci: int,
) -> (Seq<Bone>, Seq<IkChainState>)
    decreases links.len() - ci,
{
    if ci < 0 || ci >= links.len() {
        (s, cs)
    } else {
        let link = links[ci];
        let r = if (link.bone_index as int) < s.len() && link.bone_index as int != target_idx {
            if link.has_limits {
                match plane_axis_of(link) {
                    Option::Some(a) => solve_plane_spec(
                        s,
                        cs,
                        goal_idx,
                        target_idx,
                        iteration,
                        ci,
                        a,
                        link,
                        cap,
                    ),
                    Option::None => solve_general_spec(s, cs, target_idx, ci, link, cap, ik_pos),
                }
            } else {
                solve_general_spec(s, cs, target_idx, ci, link, cap, ik_pos)
            }
        } else {
            (s, cs)
        };
        solve_core_from(links, cap, goal_idx, target_idx, iteration, r.0, r.1, ik_pos, ci + 1)
    }
}

/// One full chain pass: every link in order, against the effector position
/// read once at the start of the pass.
#[verifier::opaque]
pub open spec fn solve_core_spec(
    links: Seq<IkLink>,
    cap: i64,
    goal_idx: int,
    target_idx: int,
    iteration: u32,
    s: Seq<Bone>,
    cs: Seq<IkChainState>,
) -> (Seq<Bone>, Seq<IkChainState>) {
    solve_core_from(
        links,
        cap,
        goal_idx,
        target_idx,
        iteration,
        s,
        cs,
        s[goal_idx].global_transform.t,
        0,
    )
}

/// Fresh chain state: zero reference angles, zero plane accumulator, an
/// identity rollback snapshot for every link.
pub open spec fn chain_init_spec(n: int) -> Seq<IkChainState> {
    Seq::new(
        n as nat,
        |i: int| IkChainState {
            prev_angle: Vec3 { x: 0, y: 0, z: 0 },
            plane_mode_angle: 0,
            save_ik_rot: q_identity(),
        },
    )
}

/// The reset step for links `i` and beyond: every in-range link bone gets an
/// identity IK rotation and its IK flag set, its local transform is rebuilt
/// and its subtree repropagated, so the solve starts from the pure animation
/// pose.
#[verifier::opaque]
pub open spec fn reset_links_from(links: Seq<IkLink>, s: Seq<Bone>, i: int) -> Seq<Bone>
    decreases links.len() - i,
{
    if i < 0 || i >= links.len() {
        s
    } else {
        let li = links[i].bone_index as int;
        let s2 = if li < s.len() {
            let b1 = Bone { ik_rotate: q_identity(), enable_ik: true, ..s[li] };
            let b2 = Bone { local_transform: local_of(b1), ..b1 };
            propagate_spec(s.update(li, b2), li)
        } else {
            s
        };
        reset_links_from(links, s2, i + 1)
    }
}

/// The rollback snapshot for links `k` and beyond: each in-range link's
/// current IK rotation is recorded as its best-known state.
#[verifier::opaque]
pub open spec fn snapshot_from(
    links: Seq<IkLink>,
    s: Seq<Bone>,
    cs: Seq<IkChainState>,
    k: int,
) -> Seq<IkChainState>
    decreases links.len() - k,
{
    if k < 0 || k >= links.len() {
        cs
    } else {
        let li = links[k].bone_index as int;
        let cs2 = if li < s.len() {
            cs.update(k, IkChainState { save_ik_rot: s[li].ik_rotate, ..cs[k] })
        } else {
            cs
        };
        snapshot_from(links, s, cs2, k + 1)
    }
}

/// The rollback for links `k` and beyond: each in-range link's IK rotation
/// is restored from its snapshot, its local transform rebuilt and its
/// subtree repropagated.
#[verifier::opaque]
pub open spec fn restore_from(
    links: Seq<IkLink>,
    s: Seq<Bone>,
    cs: Seq<IkChainState>,
    k: int,
) -> Seq<Bone>
    decreases links.len() - k,
{
    if k < 0 || k >= links.len() {
        s
    } else {
        let li = links[k].bone_index as int;
        let s2 = if li < s.len() {
            let b1 = Bone { ik_rotate: cs[k].save_ik_rot, ..s[li] };
            let b2 = Bone { local_transform: local_of(b1), ..b1 };
            propagate_spec(s.update(li, b2), li)
        } else {
            s
        };
        restore_from(links, s2, cs, k + 1)
    }
}

/// The iteration loop from pass `it` on: one chain pass, then the
/// effector-goal distance; a strict improvement is recorded as the new best
/// and every link snapshotted, while the first non-improving pass restores
/// every link from its snapshot and ends the solve.
#[verifier::opaque]
pub open spec fn solve_iters(
    links: Seq<IkLink>,
    cap: i64,
    goal_idx: int,
    target_idx: int,
    iters: u32,
    s: Seq<Bone>,
    cs: Seq<IkChainState>,
    it: u32,
    max_dist: i64,
) -> Seq<Bone>
    decreases iters - it,
{
    if it >= iters {
        s
    } else {
        let r = solve_core_spec(links, cap, goal_idx, target_idx, it, s, cs);
        let d = s_length(
            v_sub(r.0[target_idx].global_transform.t, r.0[goal_idx].global_transform.t),
        );
        if d < max_dist as int {
            solve_iters(
                links,
                cap,
                goal_idx,
                target_idx,
                iters,
                r.0,
                snapshot_from(links, r.0, r.1, 0),
                (it + 1) as u32,
                d as i64,
            )
        } else {
            restore_from(links, r.0, r.1, 0)
        }
    }
}

/// The whole solve as a function of the incoming bone array: a no-op when
/// disabled or when the goal or effector index is out of range; otherwise
/// the reset of every link to the animation pose, then the bounded,
/// rollback-terminated iteration over chain passes.
pub open spec fn solve_spec(slf: IkSolver, s: Seq<Bone>) -> Seq<Bone> {
    if !slf.enabled || (slf.config.target_bone as int) >= s.len() || (slf.bone_index as int)
        >= s.len() {
        s
    } else {
        let links = slf.config.links@;
        let s0 = reset_links_from(links, s, 0);
        solve_iters(
            links,
            slf.config.limit_angle,
            slf.bone_index as int,
            slf.config.target_bone as int,
            slf.config.iterations,
            s0,
            chain_init_spec(links.len() as int),
            0,
            MAX_FIX,
        )
    }
}

/// Propagation rewrites global transforms only.
pub proof fn lemma_propagate_from_same_but_global(s: Seq<Bone>, idx: int, j: int)
    ensures
        propagate_from(s, idx, j).len() == s.len(),
        forall|m: int|
            0 <= m < s.len() ==> same_but_global(s[m], #[trigger] propagate_from(s, idx, j)[m]),
    decreases s.len() - j,
{
    reveal(propagate_from);
    if j < 0 || j >= s.len() {
    } else {
        let s2 = if in_chain(s, j, idx) {
            recompute_global(s, j)
        } else {
            s
        };
        lemma_propagate_from_same_but_global(s2, idx, j + 1);
    }
}

/// The full propagation rewrites global transforms only.
pub proof fn lemma_propagate_spec_same_but_global(s: Seq<Bone>, idx: int)
    requires
        0 <= idx < s.len(),
    ensures
        propagate_spec(s, idx).len() == s.len(),
        forall|m: int|
            0 <= m < s.len() ==> same_but_global(s[m], #[trigger] propagate_spec(s, idx)[m]),
{
    reveal(propagate_spec);
    lemma_propagate_from_same_but_global(recompute_global(s, idx), idx, idx + 1);
}

/// The reset fold never clears an identity IK rotation or an IK flag once a
/// bone holds them.
pub proof fn lemma_reset_preserves_identity(links: Seq<IkLink>, s: Seq<Bone>, i: int, bi: int)
    requires
        0 <= bi < s.len(),
        s[bi].ik_rotate == q_identity(),
        s[bi].enable_ik,
    ensures
        reset_links_from(links, s, i).len() == s.len(),
        reset_links_from(links, s, i)[bi].ik_rotate == q_identity(),
        reset_links_from(links, s, i)[bi].enable_ik,
    decreases links.len() - i,
{
    reveal(reset_links_from);
    if i < 0 || i >= links.len() {
    } else {
        let li = links[i].bone_index as int;
        let s2 = if li < s.len() {
            let b1 = Bone { ik_rotate: q_identity(), enable_ik: true, ..s[li] };
            let b2 = Bone { local_transform: local_of(b1), ..b1 };
            propagate_spec(s.update(li, b2), li)
        } else {
            s
        };
        if li < s.len() {
            let b1 = Bone { ik_rotate: q_identity(), enable_ik: true, ..s[li] };
            let b2 = Bone { local_transform: local_of(b1), ..b1 };
            lemma_propagate_spec_same_but_global(s.update(li, b2), li);
        }
        lemma_reset_preserves_identity(links, s2, i + 1, bi);
    }
}

/// The reset step leaves every in-range link bone with an identity IK
/// rotation and its IK flag set: the solve starts from the animation-only
/// pose, and with an iteration budget of zero that is also where it ends.
pub proof fn lemma_reset_sets_identity(links: Seq<IkLink>, s: Seq<Bone>, i: int, k: int)
    requires
        0 <= i <= k < links.len(),
        (links[k].bone_index as int) < s.len(),
    ensures
        reset_links_from(links, s, i).len() == s.len(),
        reset_links_from(links, s, i)[links[k].bone_index as int].ik_rotate == q_identity(),
        reset_links_from(links, s, i)[links[k].bone_index as int].enable_ik,
    decreases links.len() - i,
{
    reveal(reset_links_from);
    let li = links[i].bone_index as int;
    let s2 = if li < s.len() {
        let b1 = Bone { ik_rotate: q_identity(), enable_ik: true, ..s[li] };
        let b2 = Bone { local_transform: local_of(b1), ..b1 };
        propagate_spec(s.update(li, b2), li)
    } else {
        s
    };
    if li < s.len() {
        let b1 = Bone { ik_rotate: q_identity(), enable_ik: true, ..s[li] };
        let b2 = Bone { local_transform: local_of(b1), ..b1 };
        lemma_propagate_spec_same_but_global(s.update(li, b2), li);
    }
    if i == k {
        lemma_reset_preserves_identity(links, s2, i + 1, li);
    } else {
        lemma_reset_sets_identity(links, s2, i + 1, k);
    }
}

/// With an iteration budget of zero, the solve is exactly the reset: every
/// in-range link bone ends IK-enabled with an identity IK rotation.
pub proof fn lemma_solve_zero_iterations_resets(slf: IkSolver, s: Seq<Bone>, k: int)
    requires
        slf.enabled,
        (slf.config.target_bone as int) < s.len(),
        (slf.bone_index as int) < s.len(),
        slf.config.iterations == 0,
        0 <= k < slf.config.links@.len(),
        (slf.config.links@[k].bone_index as int) < s.len(),
    ensures
        solve_spec(slf, s) == reset_links_from(slf.config.links@, s, 0),
        solve_spec(slf, s)[slf.config.links@[k].bone_index as int].ik_rotate == q_identity(),
        solve_spec(slf, s)[slf.config.links@[k].bone_index as int].enable_ik,
{
    reveal(solve_iters);
    lemma_reset_sets_identity(slf.config.links@, s, 0, k);
}

/// `m` lies in no link's subtree: no chain of parent links connects it to
/// any link bone.
pub open spec fn outside_links(links: Seq<IkLink>, s: Seq<Bone>, m: int) -> bool {
    forall|i: int|
        0 <= i < links.len() ==> !in_chain(s, m, (#[trigger] links[i]).bone_index as int)
}

/// Per-iteration step bound for an unlimited link, and for the angle either
/// mode derives from the arc-cosine: clamping to the step cap bounds the
/// magnitude of the incremental rotation applied in one pass by the cap.
pub proof fn lemma_clamp_bound(x: int, cap: int)
    requires
        0 <= cap <= TAU_FIX as int,
    ensures
        abs_i(fclamp(x, -cap, cap)) <= cap,
{
}

/// Per-iteration step bound for a limited general-mode link: clamping the
/// change from the previous iteration's angles to the step cap, then adding
/// the previous angles back, moves no axis by more than the cap in one pass.
pub proof fn lemma_step_bound_general(prev: int, c: int, cap: int)
    requires
        0 <= cap <= TAU_FIX as int,
        -(TAU_FIX as int) <= prev <= TAU_FIX as int,
        -(TAU_FIX as int) <= c <= TAU_FIX as int,
    ensures
        abs_i(fadd(fclamp(fsub(c, prev), -cap, cap), prev) - prev) <= cap,
{
}

/// Per-iteration step bound for a plane-mode link: once the accumulated
/// angle lies within the limit bounds, adding or subtracting a capped angle
/// and clamping back into the bounds moves the accumulator by at most the
/// cap in one pass.
pub proof fn lemma_step_bound_plane(acc: int, ang: int, lo: int, hi: int, cap: int)
    requires
        lo <= acc <= hi,
        abs_i(ang) <= cap,
        -(TAU_FIX as int) <= lo <= hi <= TAU_FIX as int,
        0 <= cap <= TAU_FIX as int,
    ensures
        abs_i(fclamp(fadd(acc, ang), lo, hi) - acc) <= cap,
        abs_i(fclamp(fsub(acc, ang), lo, hi) - acc) <= cap,
{
}

/// `j` is `idx` itself or a descendant of it through the parent links.
pub open spec fn in_chain(s: Seq<Bone>, j: int, idx: int) -> bool
    decreases j,
{
    if j == idx {
        true
    } else if j <= idx || j < 0 || j >= s.len() {
        false
    } else {
        let p = s[j].parent_index as int;
        if p < 0 || p >= j {
            false
        } else {
            in_chain(s, p, idx)
        }
    }
}

/// Membership of the subtree only reads parent indices, so it is stable
/// under updates that keep them.
pub proof fn lemma_in_chain_same(s1: Seq<Bone>, s2: Seq<Bone>, j: int, idx: int)
    requires
        s1.len() == s2.len(),
        forall|m: int| 0 <= m < s1.len() ==> (#[trigger] s1[m]).parent_index == s2[m].parent_index,
    ensures
        in_chain(s1, j, idx) == in_chain(s2, j, idx),
    decreases j,
{
    if j == idx || j <= idx || j < 0 || j >= s1.len() {
    } else {
        let p = s1[j].parent_index as int;
        if 0 <= p < j {
            lemma_in_chain_same(s1, s2, p, idx);
        }
    }
}

/// The rig invariant at one bone: its global transform is its parent's
/// current global transform times its own local transform (or the local
/// transform alone at a root).
pub open spec fn global_consistent_at(s: Seq<Bone>, j: int) -> bool {
    s[j].global_transform == (if s[j].parent_index < 0 {
        s[j].local_transform
    } else {
        a_mul(s[s[j].parent_index as int].global_transform, s[j].local_transform)
    })
}

/// `b` equals `a` in every field but the global transform.
pub open spec fn same_but_global(a: Bone, b: Bone) -> bool {
    b == Bone { global_transform: b.global_transform, ..a }
}

/// `b` keeps `a`'s static skeleton data: parent, rest translation and the
/// animation layer's rotation.
pub open spec fn same_rig(a: Bone, b: Bone) -> bool {
    a.parent_index == b.parent_index && a.translation == b.translation && a.animation_rotate
        == b.animation_rotate
}

/// Whether some link of the chain drives bone `j`.
pub open spec fn is_link_bone(links: Seq<IkLink>, j: int) -> bool {
    exists|i: int| 0 <= i < links.len() && (#[trigger] links[i]).bone_index as int == j
}

/// The per-link chain-state invariant: reference angles stay within one turn
/// of zero, and, for a limited general-mode link whose bounds admit zero,
/// within the link's own bounds.
spec fn prev_ok(c: IkChainState, l: IkLink) -> bool {
    &&& -(TAU_FIX as int) <= c.prev_angle.x as int <= TAU_FIX as int
    &&& -(TAU_FIX as int) <= c.prev_angle.y as int <= TAU_FIX as int
    &&& -(TAU_FIX as int) <= c.prev_angle.z as int <= TAU_FIX as int
    &&& (l.has_limits && plane_axis_of(l) is None && straddles_zero(l) ==> within_limits(
        c.prev_angle,
        l,
    ))
}

/// The chain-state invariant over the whole chain.
spec fn chain_prev_ok(cs: Seq<IkChainState>, links: Seq<IkLink>) -> bool {
    cs.len() == links.len() && forall|i: int|
        0 <= i < cs.len() ==> prev_ok(#[trigger] cs[i], links[i])
}

/// Every rollback snapshot respects its link's limits, like the live
/// rotations do.
spec fn snap_ok(cs: Seq<IkChainState>, links: Seq<IkLink>, bones: Seq<Bone>) -> bool {
    links_distinct(links) ==> forall|i: int|
        0 <= i < links.len() && (#[trigger] links[i]).has_limits && links[i].bone_index
            < bones.len() ==> rot_respects_limits(
            links[i],
            cs[i].save_ik_rot,
            bones[links[i].bone_index as int].animation_rotate,
        )
}

/// Walk the parent links from `j` down; report whether they reach `idx`.
fn in_subtree(bones: &Vec<Bone>, j: usize, idx: usize) -> (r: bool)
    requires
        wf_parents(bones@),
        j < bones@.len(),
        idx < bones@.len(),
    ensures
        r == in_chain(bones@, j as int, idx as int),
{
    let mut k: usize = j;
    while k > idx
        invariant
            wf_parents(bones@),
            k <= j < bones@.len(),
            idx < bones@.len(),
            in_chain(bones@, j as int, idx as int) == in_chain(bones@, k as int, idx as int),
        decreases k,
    {
        let p: i32 = bones[k].parent_index;
        if p < 0 {
            return false;
        }
        k = p as usize;
    }
    k == idx
}

impl IkSolver {
    /// A solver for one effector/goal/chain triple, enabled from the start.
    pub fn new(bone_index: usize, config: IkConfig) -> (r: IkSolver)
        ensures
            r.bone_index == bone_index,
            r.config == config,
            r.enabled == true,
    {
        IkSolver { bone_index, config, enabled: true }
    }

    /// The single-axis mode a link qualifies for: the one axis whose bounds
    /// are not both zero, when the other two axes' bounds all are.
    pub fn get_plane_solve_axis(link: &IkLink) -> (r: Option<SolveAxis>)
        ensures
            r == plane_axis_of(*link),
    {
        let x_active: bool = link.limit_min.x != 0 || link.limit_max.x != 0;
        let y_active: bool = link.limit_min.y != 0 || link.limit_max.y != 0;
        let z_active: bool = link.limit_min.z != 0 || link.limit_max.z != 0;
        if x_active && !y_active && !z_active {
            Option::Some(SolveAxis::X)
        } else if y_active && !x_active && !z_active {
            Option::Some(SolveAxis::Y)
        } else if z_active && !x_active && !y_active {
            Option::Some(SolveAxis::Z)
        } else {
            Option::None
        }
    }

    /// Recompute bone `idx`'s global transform from its parent's, then do the
    /// same, in index order, for every bone in its subtree, so that a change
    /// of `idx`'s rotation is visible to all downstream geometry.
    pub fn update_global_transform_recursive(bones: &mut Vec<Bone>, idx: usize)
        requires
            wf_parents(old(bones)@),
            idx < old(bones)@.len(),
        ensures
            final(bones)@.len() == old(bones)@.len(),
            forall|m: int|
                0 <= m < old(bones)@.len() ==> same_but_global(
                    old(bones)@[m],
                    #[trigger] final(bones)@[m],
                ),
            forall|m: int|
                0 <= m < old(bones)@.len() && !in_chain(old(bones)@, m, idx as int)
                    ==> final(bones)@[m] == old(bones)@[m],
            forall|m: int|
                0 <= m < old(bones)@.len() && in_chain(old(bones)@, m, idx as int)
                    ==> global_consistent_at(final(bones)@, m),
            final(bones)@ == propagate_spec(old(bones)@, idx as int),
    {
        let ghost orig = bones@;
        let len: usize = bones.len();
        let p0: i32 = bones[idx].parent_index;
        let mut b0: Bone = bones[idx];
        if p0 >= 0 {
            b0.global_transform = bones[p0 as usize].global_transform.mul(&b0.local_transform);
        } else {
            b0.global_transform = b0.local_transform;
        }
        bones[idx] = b0;
        proof {
            reveal(propagate_spec);
            assert(bones@ == recompute_global(orig, idx as int));
            assert(propagate_from(bones@, idx as int, idx as int + 1) == propagate_spec(
                orig,
                idx as int,
            ));
        }
        let mut j: usize = idx + 1;
        while j < len
            invariant
                propagate_from(bones@, idx as int, j as int) == propagate_spec(
                    orig,
                    idx as int,
                ),
                bones@.len() == orig.len(),
                len == orig.len(),
                idx < j,
                j <= len,
                wf_parents(bones@),
                forall|m: int|
                    0 <= m < orig.len() ==> same_but_global(orig[m], #[trigger] bones@[m]),
                forall|m: int|
                    0 <= m < orig.len() && !in_chain(orig, m, idx as int) ==> bones@[m] == orig[m],
                forall|m: int| j <= m < orig.len() && m != idx ==> bones@[m] == orig[m],
                forall|m: int|
                    0 <= m < j && in_chain(orig, m, idx as int) ==> global_consistent_at(
                        bones@,
                        m,
                    ),
            decreases len - j,
        {
            proof {
                lemma_in_chain_same(bones@, orig, j as int, idx as int);
            }
            proof {
                reveal(propagate_from);
            }
            let ghost pre = bones@;
            if in_subtree(bones, j, idx) {
                let pj: i32 = bones[j].parent_index;
                let mut bj: Bone = bones[j];
                if pj >= 0 {
                    bj.global_transform = bones[pj as usize].global_transform.mul(
                        &bj.local_transform,
                    );
                } else {
                    bj.global_transform = bj.local_transform;
                }
                bones[j] = bj;
                proof {
                    assert(bones@ == recompute_global(pre, j as int));
                }
            }
            proof {
                reveal(propagate_from);
                assert(propagate_from(pre, idx as int, j as int) == propagate_from(
                    bones@,
                    idx as int,
                    j as int + 1,
                ));
            }
            j = j + 1;
        }
        proof {
            reveal(propagate_from);
            assert(propagate_from(bones@, idx as int, len as int) == bones@);
        }
    }

    /// Single-axis ("plane") link solve: rotate the link about its one active
    /// axis by the accumulated, sign-disambiguated, limit-clamped angle.
    #[verifier::rlimit(100)]
    fn solve_plane(
        &self,
        bones: &mut Vec<Bone>,
        target_idx: usize,
        iteration: u32,
        chain_idx: usize,
        axis: SolveAxis,
        chain: &mut Vec<IkChainState>,
    )
        requires
            wf_parents(old(bones)@),
            config_wf(self.config),
            self.bone_index < old(bones)@.len(),
            target_idx < old(bones)@.len(),
            chain_idx < self.config.links@.len(),
            old(chain)@.len() == self.config.links@.len(),
            self.config.links@[chain_idx as int].bone_index < old(bones)@.len(),
            plane_axis_of(self.config.links@[chain_idx as int]) == Option::Some(axis),
            limits_ok_all(self.config.links@, old(bones)@),
            chain_prev_ok(old(chain)@, self.config.links@),
        ensures
            final(bones)@.len() == old(bones)@.len(),
            wf_parents(final(bones)@),
            forall|m: int|
                0 <= m < old(bones)@.len() ==> same_rig(old(bones)@[m], #[trigger] final(bones)@[m]) && final(bones)@[m].enable_ik == old(bones)@[m].enable_ik,
            forall|m: int|
                0 <= m < old(bones)@.len() && m != self.config.links@[chain_idx as int].bone_index
                    as int ==> (#[trigger] final(bones)@[m]).ik_rotate == old(bones)@[m].ik_rotate
                    && final(bones)@[m].local_transform == old(bones)@[m].local_transform,
            limits_ok_all(self.config.links@, final(bones)@),
            final(chain)@.len() == old(chain)@.len(),
            forall|i: int|
                0 <= i < old(chain)@.len() && i != chain_idx as int ==> #[trigger] final(chain)@[i] == old(chain)@[i],
            final(chain)@[chain_idx as int].save_ik_rot == old(chain)@[chain_idx as int].save_ik_rot,
            final(chain)@[chain_idx as int].prev_angle == old(chain)@[chain_idx as int].prev_angle,
            chain_prev_ok(final(chain)@, self.config.links@),
            forall|m: int|
                0 <= m < old(bones)@.len() && m != self.config.links@[chain_idx as int].bone_index
                    as int && !in_chain(
                    old(bones)@,
                    m,
                    self.config.links@[chain_idx as int].bone_index as int,
                ) ==> #[trigger] final(bones)@[m] == old(bones)@[m],
            final(bones)@ == solve_plane_spec(
                old(bones)@,
                old(chain)@,
                self.bone_index as int,
                target_idx as int,
                iteration,
                chain_idx as int,
                axis,
                self.config.links@[chain_idx as int],
                self.config.limit_angle,
            ).0,
            final(chain)@ == solve_plane_spec(
                old(bones)@,
                old(chain)@,
                self.bone_index as int,
                target_idx as int,
                iteration,
                chain_idx as int,
                axis,
                self.config.links@[chain_idx as int],
                self.config.limit_angle,
            ).1,
    {
        let link: IkLink = self.config.links[chain_idx];
        let link_idx: usize = link.bone_index as usize;
        let rotate_axis: Vec3 = match axis {
            SolveAxis::X => Vec3 { x: ONE, y: 0, z: 0 },
            SolveAxis::Y => Vec3 { x: 0, y: ONE, z: 0 },
            SolveAxis::Z => Vec3 { x: 0, y: 0, z: ONE },
        };
        let limit_min: i64 = match axis {
            SolveAxis::X => link.limit_min.x,
            SolveAxis::Y => link.limit_min.y,
            SolveAxis::Z => link.limit_min.z,
        };
        let limit_max: i64 = match axis {
            SolveAxis::X => link.limit_max.x,
            SolveAxis::Y => link.limit_max.y,
            SolveAxis::Z => link.limit_max.z,
        };
        proof {
            assert(link_wf(self.config.links@[chain_idx as int]));
        }
        let ik_pos: Vec3 = bones[self.bone_index].global_transform.t;
        let target_pos: Vec3 = bones[target_idx].global_transform.t;
        let inv_chain: Affine = bones[link_idx].global_transform.inverse_rt();
        let chain_ik_vec: Vec3 = inv_chain.transform_point(&ik_pos).normalize_or_zero();
        let chain_target_vec: Vec3 = inv_chain.transform_point(&target_pos).normalize_or_zero();
        if chain_ik_vec.length_squared() < EPS_LEN_SQ || chain_target_vec.length_squared()
            < EPS_LEN_SQ {
            proof {
                reveal(solve_plane_spec);
            }
            return ;
        }
        let cap: i64 = self.config.limit_angle;
        let dot: i64 = clamp_fx(chain_target_vec.dot(&chain_ik_vec), -ONE, ONE);
        let angle: i64 = clamp_fx(acos_impl(dot), -cap, cap);
        let rot1: Quat = Quat::from_axis_angle(&rotate_axis, angle);
        let dot1: i64 = crate::mat3::rotate_vec(&rot1, &chain_target_vec).dot(&chain_ik_vec);
        let rot2: Quat = Quat::from_axis_angle(&rotate_axis, -angle);
        let dot2: i64 = crate::mat3::rotate_vec(&rot2, &chain_target_vec).dot(&chain_ik_vec);
        let mut new_angle: i64 = chain[chain_idx].plane_mode_angle;
        if dot1 > dot2 {
            new_angle = add_fx(new_angle, angle);
        } else {
            new_angle = sub_fx(new_angle, angle);
        }
        if iteration == 0 {
            if new_angle < limit_min || new_angle > limit_max {
                let negated: i64 = crate::fix::neg_fx(new_angle);
                if negated > limit_min && negated < limit_max {
                    new_angle = negated;
                } else {
                    let half_rad: i64 = crate::quat::half_fx(add_fx(limit_min, limit_max));
                    if crate::fix::abs_fx(sub_fx(half_rad, new_angle)) > crate::fix::abs_fx(
                        add_fx(half_rad, new_angle),
                    ) {
                        new_angle = crate::fix::neg_fx(new_angle);
                    }
                }
            }
        }
        new_angle = clamp_fx(new_angle, limit_min, limit_max);
        let mut cs: IkChainState = chain[chain_idx];
        cs.plane_mode_angle = new_angle;
        chain[chain_idx] = cs;
        let anim: Quat = bones[link_idx].animation_rotate;
        let ik_rot: Quat = Quat::from_axis_angle(&rotate_axis, new_angle).mul(&anim.conj());
        let mut b: Bone = bones[link_idx];
        b.ik_rotate = ik_rot;
        proof {
            assert(b == (Bone { ik_rotate: ik_rot, ..old(bones)@[link_idx as int] }));
        }
        b.update_local_transform();
        bones[link_idx] = b;
        proof {
            let b1g = Bone { ik_rotate: ik_rot, ..old(bones)@[link_idx as int] };
            assert(b == (Bone { local_transform: local_of(b1g), ..b1g }));
            assert(wf_parents(bones@));
        }
        let ghost midg: Seq<Bone> = bones@;
        Self::update_global_transform_recursive(bones, link_idx);
        proof {
            let li = link.bone_index as int;
            assert forall|m: int|
                0 <= m < old(bones)@.len() && m != li && !in_chain(old(bones)@, m, li)
                    implies #[trigger] bones@[m] == old(bones)@[m] by {
                lemma_in_chain_same(midg, old(bones)@, m, li);
            }
            reveal(solve_plane_spec);
            assert(bones@ == solve_plane_spec(
                old(bones)@,
                old(chain)@,
                self.bone_index as int,
                target_idx as int,
                iteration,
                chain_idx as int,
                axis,
                link,
                cap,
            ).0);
        }
        proof {
            let links = self.config.links@;
            let l = links[chain_idx as int];
            assert(rotate_axis == axis_vec(axis));
            assert(axis_min(l, axis) <= new_angle <= axis_max(l, axis));
            assert(ik_rot == q_mul(
                q_from_axis_angle(axis_vec(axis), new_angle as int),
                q_conj(anim),
            ));
            assert(plane_rot_ok(l, axis, ik_rot, anim));
            if links_distinct(links) {
                assert forall|i: int|
                    0 <= i < links.len() && (#[trigger] links[i]).has_limits
                        && links[i].bone_index < bones@.len() implies rot_respects_limits(
                    links[i],
                    bones@[links[i].bone_index as int].ik_rotate,
                    bones@[links[i].bone_index as int].animation_rotate,
                ) by {
                    let bi = links[i].bone_index as int;
                    if i == chain_idx as int {
                        assert(bones@[bi].ik_rotate == ik_rot);
                        assert(bones@[bi].animation_rotate == anim);
                    } else {
                        assert(links[i].bone_index != l.bone_index);
                        assert(bones@[bi].ik_rotate == old(bones)@[bi].ik_rotate);
                        assert(bones@[bi].animation_rotate == old(bones)@[bi].animation_rotate);
                    }
                }
            }
        }
    }

    /// General three-axis link solve: rotate the link's local effector vector
    /// onto the goal vector, clamped to the step cap and, for a limited link,
    /// decomposed, limit-clamped and rebuilt as an Euler XYZ rotation.
    #[verifier::rlimit(100)]
    fn solve_general(
        &self,
        bones: &mut Vec<Bone>,
        target_idx: usize,
        chain_idx: usize,
        chain: &mut Vec<IkChainState>,
        ik_pos: Vec3,
    )
        requires
            wf_parents(old(bones)@),
            config_wf(self.config),
            self.bone_index < old(bones)@.len(),
            target_idx < old(bones)@.len(),
            chain_idx < self.config.links@.len(),
            old(chain)@.len() == self.config.links@.len(),
            self.config.links@[chain_idx as int].bone_index < old(bones)@.len(),
            self.config.links@[chain_idx as int].has_limits ==> plane_axis_of(
                self.config.links@[chain_idx as int],
            ) is None,
            limits_ok_all(self.config.links@, old(bones)@),
            chain_prev_ok(old(chain)@, self.config.links@),
        ensures
            final(bones)@.len() == old(bones)@.len(),
            wf_parents(final(bones)@),
            forall|m: int|
                0 <= m < old(bones)@.len() ==> same_rig(old(bones)@[m], #[trigger] final(bones)@[m]) && final(bones)@[m].enable_ik == old(bones)@[m].enable_ik,
            forall|m: int|
                0 <= m < old(bones)@.len() && m != self.config.links@[chain_idx as int].bone_index
                    as int ==> (#[trigger] final(bones)@[m]).ik_rotate == old(bones)@[m].ik_rotate
                    && final(bones)@[m].local_transform == old(bones)@[m].local_transform,
            limits_ok_all(self.config.links@, final(bones)@),
            final(chain)@.len() == old(chain)@.len(),
            forall|i: int|
                0 <= i < old(chain)@.len() && i != chain_idx as int ==> #[trigger] final(chain)@[i] == old(chain)@[i],
            final(chain)@[chain_idx as int].save_ik_rot == old(chain)@[chain_idx as int].save_ik_rot,
            chain_prev_ok(final(chain)@, self.config.links@),
            forall|m: int|
                0 <= m < old(bones)@.len() && m != self.config.links@[chain_idx as int].bone_index
                    as int && !in_chain(
                    old(bones)@,
                    m,
                    self.config.links@[chain_idx as int].bone_index as int,
                ) ==> #[trigger] final(bones)@[m] == old(bones)@[m],
            final(bones)@ == solve_general_spec(
                old(bones)@,
                old(chain)@,
                target_idx as int,
                chain_idx as int,
                self.config.links@[chain_idx as int],
                self.config.limit_angle,
                ik_pos,
            ).0,
            final(chain)@ == solve_general_spec(
                old(bones)@,
                old(chain)@,
                target_idx as int,
                chain_idx as int,
                self.config.links@[chain_idx as int],
                self.config.limit_angle,
                ik_pos,
            ).1,
    {
        let link: IkLink = self.config.links[chain_idx];
        let link_idx: usize = link.bone_index as usize;
        proof {
            assert(link_wf(self.config.links@[chain_idx as int]));
        }
        let target_pos: Vec3 = bones[target_idx].global_transform.t;
        let inv_chain: Affine = bones[link_idx].global_transform.inverse_rt();
        let chain_ik_vec: Vec3 = inv_chain.transform_point(&ik_pos).normalize_or_zero();
        let chain_target_vec: Vec3 = inv_chain.transform_point(&target_pos).normalize_or_zero();
        if chain_ik_vec.length_squared() < EPS_LEN_SQ || chain_target_vec.length_squared()
            < EPS_LEN_SQ {
            proof {
                reveal(solve_general_spec);
            }
            return ;
        }
        let dot: i64 = clamp_fx(chain_target_vec.dot(&chain_ik_vec), -ONE, ONE);
        let angle0: i64 = acos_impl(dot);
        if angle0 < ANGLE_EPS {
            proof {
                reveal(solve_general_spec);
            }
            return ;
        }
        let cap: i64 = self.config.limit_angle;
        let angle: i64 = clamp_fx(angle0, -cap, cap);
        let cross: Vec3 = chain_target_vec.cross(&chain_ik_vec).normalize_or_zero();
        if cross.length_squared() < EPS_LEN_SQ {
            proof {
                reveal(solve_general_spec);
            }
            return ;
        }
        let rot: Quat = Quat::from_axis_angle(&cross, angle);
        let anim: Quat = bones[link_idx].animation_rotate;
        let chain_rot: Quat = bones[link_idx].ik_rotate.mul(&anim).mul(&rot);
        let new_rot: Quat;
        let ghost mut witness: Vec3 = Vec3 { x: 0, y: 0, z: 0 };
        if link.has_limits {
            let mat: Mat3 = Mat3::from_quat(&chain_rot);
            let prev: Vec3 = chain[chain_idx].prev_angle;
            let rot_xyz: Vec3 = decompose(&mat, &prev);
            let cx: i64 = clamp_fx(rot_xyz.x, link.limit_min.x, link.limit_max.x);
            let cy: i64 = clamp_fx(rot_xyz.y, link.limit_min.y, link.limit_max.y);
            let cz: i64 = clamp_fx(rot_xyz.z, link.limit_min.z, link.limit_max.z);
            let nx: i64 = add_fx(clamp_fx(sub_fx(cx, prev.x), -cap, cap), prev.x);
            let ny: i64 = add_fx(clamp_fx(sub_fx(cy, prev.y), -cap, cap), prev.y);
            let nz: i64 = add_fx(clamp_fx(sub_fx(cz, prev.z), -cap, cap), prev.z);
            let ne: Vec3 = Vec3 { x: nx, y: ny, z: nz };
            let mut cs: IkChainState = chain[chain_idx];
            cs.prev_angle = ne;
            chain[chain_idx] = cs;
            proof {
                witness = ne;
            }
            new_rot = Quat::from_euler(&ne);
        } else {
            new_rot = chain_rot;
        }
        let ik_rot: Quat = new_rot.mul(&anim.conj());
        let mut b: Bone = bones[link_idx];
        b.ik_rotate = ik_rot;
        proof {
            assert(b == (Bone { ik_rotate: ik_rot, ..old(bones)@[link_idx as int] }));
        }
        b.update_local_transform();
        bones[link_idx] = b;
        proof {
            let b1g = Bone { ik_rotate: ik_rot, ..old(bones)@[link_idx as int] };
            assert(b == (Bone { local_transform: local_of(b1g), ..b1g }));
            assert(wf_parents(bones@));
        }
        let ghost midg: Seq<Bone> = bones@;
        Self::update_global_transform_recursive(bones, link_idx);
        proof {
            let li = link.bone_index as int;
            assert forall|m: int|
                0 <= m < old(bones)@.len() && m != li && !in_chain(old(bones)@, m, li)
                    implies #[trigger] bones@[m] == old(bones)@[m] by {
                lemma_in_chain_same(midg, old(bones)@, m, li);
            }
            reveal(solve_general_spec);
            assert(bones@ == solve_general_spec(
                old(bones)@,
                old(chain)@,
                target_idx as int,
                chain_idx as int,
                link,
                cap,
                ik_pos,
            ).0);
            assert(chain@ == solve_general_spec(
                old(bones)@,
                old(chain)@,
                target_idx as int,
                chain_idx as int,
                link,
                cap,
                ik_pos,
            ).1);
        }
        proof {
            let links = self.config.links@;
            let l = links[chain_idx as int];
            if l.has_limits && straddles_zero(l) {
                assert(within_limits(witness, l));
                assert(ik_rot == q_mul(q_from_euler(witness), q_conj(anim)));
                assert(euler_rot_ok(l, ik_rot, anim));
            }
            if links_distinct(links) {
                assert forall|i: int|
                    0 <= i < links.len() && (#[trigger] links[i]).has_limits
                        && links[i].bone_index < bones@.len() implies rot_respects_limits(
                    links[i],
                    bones@[links[i].bone_index as int].ik_rotate,
                    bones@[links[i].bone_index as int].animation_rotate,
                ) by {
                    let bi = links[i].bone_index as int;
                    if i == chain_idx as int {
                        assert(bones@[bi].ik_rotate == ik_rot);
                        assert(bones@[bi].animation_rotate == anim);
                    } else {
                        assert(links[i].bone_index != l.bone_index);
                        assert(bones@[bi].ik_rotate == old(bones)@[bi].ik_rotate);
                        assert(bones@[bi].animation_rotate == old(bones)@[bi].animation_rotate);
                    }
                }
            }
        }
    }

    /// One full pass over the chain: solve every link in order, each link's
    /// update immediately propagated so later links see the new geometry.
    fn solve_core(
        &self,
        bones: &mut Vec<Bone>,
        target_idx: usize,
        iteration: u32,
        chain: &mut Vec<IkChainState>,
    )
        requires
            wf_parents(old(bones)@),
            config_wf(self.config),
            self.bone_index < old(bones)@.len(),
            target_idx < old(bones)@.len(),
            old(chain)@.len() == self.config.links@.len(),
            limits_ok_all(self.config.links@, old(bones)@),
            chain_prev_ok(old(chain)@, self.config.links@),
        ensures
            final(bones)@.len() == old(bones)@.len(),
            wf_parents(final(bones)@),
            forall|m: int|
                0 <= m < old(bones)@.len() ==> same_rig(old(bones)@[m], #[trigger] final(bones)@[m])
                    && final(bones)@[m].enable_ik == old(bones)@[m].enable_ik,
            forall|m: int|
                0 <= m < old(bones)@.len() && !is_link_bone(self.config.links@, m) ==> (
                #[trigger] final(bones)@[m]).ik_rotate == old(bones)@[m].ik_rotate && final(bones)@[m].local_transform == old(bones)@[m].local_transform,
            limits_ok_all(self.config.links@, final(bones)@),
            final(chain)@.len() == old(chain)@.len(),
            forall|i: int|
                0 <= i < old(chain)@.len() ==> (#[trigger] final(chain)@[i]).save_ik_rot == old(chain)@[i].save_ik_rot,
            chain_prev_ok(final(chain)@, self.config.links@),
            forall|m: int|
                0 <= m < old(bones)@.len() && outside_links(self.config.links@, old(bones)@, m)
                    ==> #[trigger] final(bones)@[m] == old(bones)@[m],
            final(bones)@ == solve_core_spec(
                self.config.links@,
                self.config.limit_angle,
                self.bone_index as int,
                target_idx as int,
                iteration,
                old(bones)@,
                old(chain)@,
            ).0,
            final(chain)@ == solve_core_spec(
                self.config.links@,
                self.config.limit_angle,
                self.bone_index as int,
                target_idx as int,
                iteration,
                old(bones)@,
                old(chain)@,
            ).1,
    {
        let ik_pos: Vec3 = bones[self.bone_index].global_transform.t;
        let n: usize = self.config.links.len();
        let mut ci: usize = 0;
        proof {
            reveal(solve_core_spec);
        }
        while ci < n
            invariant
                solve_core_from(
                    self.config.links@,
                    self.config.limit_angle,
                    self.bone_index as int,
                    target_idx as int,
                    iteration,
                    bones@,
                    chain@,
                    ik_pos,
                    ci as int,
                ) == solve_core_spec(
                    self.config.links@,
                    self.config.limit_angle,
                    self.bone_index as int,
                    target_idx as int,
                    iteration,
                    old(bones)@,
                    old(chain)@,
                ),
                forall|m: int|
                    0 <= m < old(bones)@.len() && outside_links(
                        self.config.links@,
                        old(bones)@,
                        m,
                    ) ==> #[trigger] bones@[m] == old(bones)@[m],
                ci <= n,
                n == self.config.links@.len(),
                config_wf(self.config),
                self.bone_index < bones@.len(),
                target_idx < bones@.len(),
                bones@.len() == old(bones)@.len(),
                wf_parents(bones@),
                chain@.len() == old(chain)@.len(),
                old(chain)@.len() == n,
                limits_ok_all(self.config.links@, bones@),
                chain_prev_ok(chain@, self.config.links@),
                forall|m: int|
                    0 <= m < old(bones)@.len() ==> same_rig(old(bones)@[m], #[trigger] bones@[m])
                        && bones@[m].enable_ik == old(bones)@[m].enable_ik,
                forall|m: int|
                    0 <= m < old(bones)@.len() && !is_link_bone(self.config.links@, m) ==> (
                    #[trigger] bones@[m]).ik_rotate == old(bones)@[m].ik_rotate
                        && bones@[m].local_transform == old(bones)@[m].local_transform,
                forall|i: int|
                    0 <= i < old(chain)@.len() ==> (#[trigger] chain@[i]).save_ik_rot == old(chain)@[i].save_ik_rot,
            decreases n - ci,
        {
            proof {
                reveal(solve_core_from);
            }
            let ghost pre_b: Seq<Bone> = bones@;
            let ghost pre_c: Seq<IkChainState> = chain@;
            let link: IkLink = self.config.links[ci];
            let link_idx: usize = link.bone_index as usize;
            if link_idx < bones.len() && link_idx != target_idx {
                proof {
                    assert(is_link_bone(self.config.links@, link.bone_index as int));
                }
                if link.has_limits {
                    match Self::get_plane_solve_axis(&link) {
                        Option::Some(axis) => {
                            self.solve_plane(bones, target_idx, iteration, ci, axis, chain);
                        },
                        Option::None => {
                            self.solve_general(bones, target_idx, ci, chain, ik_pos);
                        },
                    }
                } else {
                    self.solve_general(bones, target_idx, ci, chain, ik_pos);
                }
                proof {
                    let li = link.bone_index as int;
                    assert forall|m: int|
                        0 <= m < old(bones)@.len() && outside_links(
                            self.config.links@,
                            old(bones)@,
                            m,
                        ) implies #[trigger] bones@[m] == pre_b[m] by {
                        lemma_in_chain_same(pre_b, old(bones)@, m, li);
                        assert(!in_chain(old(bones)@, m, li));
                        assert(m != li);
                    }
                }
            }
            ci = ci + 1;
        }
        proof {
            reveal(solve_core_from);
        }
    }

    /// Solve the chain toward the goal bone's current position.
    ///
    /// A disabled solver, or a goal or effector index beyond the bone array,
    /// leaves every bone untouched. Otherwise each link starts from the pure
    /// animation pose, up to `iterations` passes run, and the first pass that
    /// does not strictly improve the effector-goal distance rolls every link
    /// back to the best state seen and stops. Afterwards, when no two links
    /// share a bone, every limited link's IK rotation respects that link's
    /// per-axis bounds.
    pub fn solve(&self, bones: &mut Vec<Bone>)
        requires
            wf_parents(old(bones)@),
            config_wf(self.config),
        ensures
            final(bones)@.len() == old(bones)@.len(),
            wf_parents(final(bones)@),
            !self.enabled ==> final(bones)@ == old(bones)@,
            (self.config.target_bone as int) >= old(bones)@.len() || (self.bone_index as int)
                >= old(bones)@.len() ==> final(bones)@ == old(bones)@,
            forall|m: int|
                0 <= m < old(bones)@.len() ==> same_rig(old(bones)@[m], #[trigger] final(bones)@[m]),
            forall|m: int|
                0 <= m < old(bones)@.len() && !is_link_bone(self.config.links@, m) ==> (
                #[trigger] final(bones)@[m]).ik_rotate == old(bones)@[m].ik_rotate && final(bones)@[m].enable_ik == old(bones)@[m].enable_ik && final(bones)@[m].local_transform
                    == old(bones)@[m].local_transform,
            (self.enabled && (self.config.target_bone as int) < old(bones)@.len() && (
            self.bone_index as int) < old(bones)@.len()) ==> limits_ok_all(
                self.config.links@,
                final(bones)@,
            ) && (forall|i: int|
                0 <= i < self.config.links@.len() && ((#[trigger] self.config.links@[i]).bone_index
                    as int) < old(bones)@.len() ==> final(bones)@[self.config.links@[i].bone_index
                    as int].enable_ik),
            forall|m: int|
                0 <= m < old(bones)@.len() && outside_links(self.config.links@, old(bones)@, m)
                    ==> #[trigger] final(bones)@[m] == old(bones)@[m],
            final(bones)@ == solve_spec(*self, old(bones)@),
    {
        if !self.enabled {
            return ;
        }
        let len: usize = bones.len();
        let target_idx: usize = self.config.target_bone as usize;
        if target_idx >= len || self.bone_index >= len {
            return ;
        }
        let n: usize = self.config.links.len();
        let mut chain: Vec<IkChainState> = Vec::new();
        let mut i: usize = 0;
        while i < n
            invariant
                i <= n,
                chain@.len() == i as int,
                forall|k: int|
                    0 <= k < i ==> (#[trigger] chain@[k]).prev_angle == (Vec3 {
                        x: 0i64,
                        y: 0i64,
                        z: 0i64,
                    }) && chain@[k].plane_mode_angle == 0i64 && chain@[k].save_ik_rot
                        == q_identity(),
            decreases n - i,
        {
            chain.push(
                IkChainState {
                    prev_angle: Vec3::zero(),
                    plane_mode_angle: 0,
                    save_ik_rot: Quat::identity(),
                },
            );
            i = i + 1;
        }
        let mut i: usize = 0;
        while i < n
            invariant
                reset_links_from(self.config.links@, bones@, i as int) == reset_links_from(
                    self.config.links@,
                    old(bones)@,
                    0,
                ),
                forall|m: int|
                    0 <= m < old(bones)@.len() && outside_links(
                        self.config.links@,
                        old(bones)@,
                        m,
                    ) ==> #[trigger] bones@[m] == old(bones)@[m],
                i <= n,
                n == self.config.links@.len(),
                len == bones@.len(),
                bones@.len() == old(bones)@.len(),
                wf_parents(bones@),
                forall|m: int|
                    0 <= m < old(bones)@.len() ==> same_rig(old(bones)@[m], #[trigger] bones@[m]),
                forall|m: int|
                    0 <= m < old(bones)@.len() && !is_link_bone(self.config.links@, m) ==> (
                    #[trigger] bones@[m]).ik_rotate == old(bones)@[m].ik_rotate
                        && bones@[m].enable_ik == old(bones)@[m].enable_ik
                        && bones@[m].local_transform == old(bones)@[m].local_transform,
                forall|k: int|
                    0 <= k < i && ((#[trigger] self.config.links@[k]).bone_index as int) < len
                        ==> bones@[self.config.links@[k].bone_index as int].ik_rotate
                        == q_identity() && bones@[self.config.links@[k].bone_index as int].enable_ik,
            decreases n - i,
        {
            let ghost pre: Seq<Bone> = bones@;
            let link: IkLink = self.config.links[i];
            let li: usize = link.bone_index as usize;
            if li < len {
                proof {
                    assert(is_link_bone(self.config.links@, link.bone_index as int));
                }
                let mut b: Bone = bones[li];
                b.ik_rotate = Quat::identity();
                b.enable_ik = true;
                proof {
                    assert(b == (Bone {
                        ik_rotate: q_identity(),
                        enable_ik: true,
                        ..pre[li as int]
                    }));
                }
                b.update_local_transform();
                bones[li] = b;
                proof {
                    let b1g = Bone { ik_rotate: q_identity(), enable_ik: true, ..pre[li as int] };
                    assert(b == (Bone { local_transform: local_of(b1g), ..b1g }));
                    assert(wf_parents(bones@));
                }
                let ghost midg: Seq<Bone> = bones@;
                Self::update_global_transform_recursive(bones, li);
                proof {
                    assert forall|m: int|
                        0 <= m < old(bones)@.len() && outside_links(
                            self.config.links@,
                            old(bones)@,
                            m,
                        ) implies #[trigger] bones@[m] == pre[m] by {
                        lemma_in_chain_same(midg, old(bones)@, m, link.bone_index as int);
                        assert(!in_chain(old(bones)@, m, link.bone_index as int));
                        assert(m != link.bone_index as int);
                    }
                }
            }
            proof {
                reveal(reset_links_from);
                assert(reset_links_from(self.config.links@, pre, i as int) == reset_links_from(
                    self.config.links@,
                    bones@,
                    i as int + 1,
                ));
            }
            i = i + 1;
        }
        proof {
            reveal(reset_links_from);
            assert(reset_links_from(self.config.links@, bones@, n as int) == bones@);
            assert(chain@ =~= chain_init_spec(n as int));
        }
        proof {
            assert forall|k: int|
                0 <= k < self.config.links@.len() && (#[trigger] self.config.links@[k]).has_limits
                    && self.config.links@[k].bone_index < bones@.len() implies rot_respects_limits(
                self.config.links@[k],
                bones@[self.config.links@[k].bone_index as int].ik_rotate,
                bones@[self.config.links@[k].bone_index as int].animation_rotate,
            ) by {
                assert(bones@[self.config.links@[k].bone_index as int].ik_rotate == q_identity());
            }
            assert(limits_ok_all(self.config.links@, bones@));
            assert(chain_prev_ok(chain@, self.config.links@));
            assert(snap_ok(chain@, self.config.links@, bones@));
        }
        let mut max_dist: i64 = crate::fix::MAX_FIX;
        let mut it: u32 = 0;
        let mut broke: bool = false;
        proof {
            assert(solve_iters(
                self.config.links@,
                self.config.limit_angle,
                self.bone_index as int,
                target_idx as int,
                self.config.iterations,
                bones@,
                chain@,
                0,
                MAX_FIX,
            ) == solve_spec(*self, old(bones)@));
        }
        while it < self.config.iterations && !broke
            invariant
                !broke ==> solve_iters(
                    self.config.links@,
                    self.config.limit_angle,
                    self.bone_index as int,
                    target_idx as int,
                    self.config.iterations,
                    bones@,
                    chain@,
                    it,
                    max_dist,
                ) == solve_spec(*self, old(bones)@),
                broke ==> bones@ == solve_spec(*self, old(bones)@),
                forall|m: int|
                    0 <= m < old(bones)@.len() && outside_links(
                        self.config.links@,
                        old(bones)@,
                        m,
                    ) ==> #[trigger] bones@[m] == old(bones)@[m],
                n == self.config.links@.len(),
                config_wf(self.config),
                len == bones@.len(),
                bones@.len() == old(bones)@.len(),
                self.bone_index < len,
                target_idx < len,
                wf_parents(bones@),
                chain@.len() == n,
                limits_ok_all(self.config.links@, bones@),
                chain_prev_ok(chain@, self.config.links@),
                snap_ok(chain@, self.config.links@, bones@),
                forall|m: int|
                    0 <= m < old(bones)@.len() ==> same_rig(old(bones)@[m], #[trigger] bones@[m]),
                forall|m: int|
                    0 <= m < old(bones)@.len() && !is_link_bone(self.config.links@, m) ==> (
                    #[trigger] bones@[m]).ik_rotate == old(bones)@[m].ik_rotate
                        && bones@[m].enable_ik == old(bones)@[m].enable_ik
                        && bones@[m].local_transform == old(bones)@[m].local_transform,
                forall|k: int|
                    0 <= k < n && ((#[trigger] self.config.links@[k]).bone_index as int) < len
                        ==> bones@[self.config.links@[k].bone_index as int].enable_ik,
            decreases self.config.iterations - it,
        {
            let ghost pre_b: Seq<Bone> = bones@;
            let ghost pre_c: Seq<IkChainState> = chain@;
            let ghost md0: i64 = max_dist;
            self.solve_core(bones, target_idx, it, &mut chain);
            proof {
                assert forall|m: int|
                    0 <= m < old(bones)@.len() && outside_links(
                        self.config.links@,
                        old(bones)@,
                        m,
                    ) implies #[trigger] bones@[m] == pre_b[m] by {
                    assert forall|i2: int|
                        0 <= i2 < self.config.links@.len() implies !in_chain(
                        pre_b,
                        m,
                        (#[trigger] self.config.links@[i2]).bone_index as int,
                    ) by {
                        lemma_in_chain_same(
                            pre_b,
                            old(bones)@,
                            m,
                            self.config.links@[i2].bone_index as int,
                        );
                    }
                    assert(outside_links(self.config.links@, pre_b, m));
                }
            }
            let ghost core_b: Seq<Bone> = bones@;
            let ghost core_c: Seq<IkChainState> = chain@;
            let target_pos: Vec3 = bones[target_idx].global_transform.t;
            let eff_pos: Vec3 = bones[self.bone_index].global_transform.t;
            let dist: i64 = target_pos.sub(&eff_pos).length();
            if dist < max_dist {
                max_dist = dist;
                let mut k: usize = 0;
                while k < n
                    invariant
                        bones@ == core_b,
                        snapshot_from(self.config.links@, core_b, chain@, k as int)
                            == snapshot_from(self.config.links@, core_b, core_c, 0),
                        k <= n,
                        n == self.config.links@.len(),
                        config_wf(self.config),
                        len == bones@.len(),
                        chain@.len() == n,
                        limits_ok_all(self.config.links@, bones@),
                        chain_prev_ok(chain@, self.config.links@),
                        snap_ok(chain@, self.config.links@, bones@),
                    decreases n - k,
                {
                    let ghost prec: Seq<IkChainState> = chain@;
                    let link: IkLink = self.config.links[k];
                    let li: usize = link.bone_index as usize;
                    if li < len {
                        let mut cs: IkChainState = chain[k];
                        cs.save_ik_rot = bones[li].ik_rotate;
                        chain[k] = cs;
                    }
                    proof {
                        reveal(snapshot_from);
                        assert(snapshot_from(self.config.links@, core_b, prec, k as int)
                            == snapshot_from(self.config.links@, core_b, chain@, k as int + 1));
                    }
                    k = k + 1;
                }
                proof {
                    reveal(snapshot_from);
                    assert(snapshot_from(self.config.links@, core_b, chain@, n as int) == chain@);
                    reveal(solve_iters);
                    assert(solve_iters(
                        self.config.links@,
                        self.config.limit_angle,
                        self.bone_index as int,
                        target_idx as int,
                        self.config.iterations,
                        pre_b,
                        pre_c,
                        it,
                        md0,
                    ) == solve_iters(
                        self.config.links@,
                        self.config.limit_angle,
                        self.bone_index as int,
                        target_idx as int,
                        self.config.iterations,
                        bones@,
                        chain@,
                        (it + 1) as u32,
                        dist,
                    ));
                }
            } else {
                let mut k: usize = 0;
                while k < n
                    invariant
                        chain@ == core_c,
                        restore_from(self.config.links@, bones@, core_c, k as int)
                            == restore_from(self.config.links@, core_b, core_c, 0),
                        forall|m: int|
                            0 <= m < old(bones)@.len() && outside_links(
                                self.config.links@,
                                old(bones)@,
                                m,
                            ) ==> #[trigger] bones@[m] == old(bones)@[m],
                        k <= n,
                        n == self.config.links@.len(),
                        config_wf(self.config),
                        len == bones@.len(),
                        bones@.len() == old(bones)@.len(),
                        wf_parents(bones@),
                        chain@.len() == n,
                        limits_ok_all(self.config.links@, bones@),
                        chain_prev_ok(chain@, self.config.links@),
                        snap_ok(chain@, self.config.links@, bones@),
                        forall|m: int|
                            0 <= m < old(bones)@.len() ==> same_rig(
                                old(bones)@[m],
                                #[trigger] bones@[m],
                            ),
                        forall|m: int|
                            0 <= m < old(bones)@.len() && !is_link_bone(self.config.links@, m)
                                ==> (#[trigger] bones@[m]).ik_rotate == old(bones)@[m].ik_rotate
                                && bones@[m].enable_ik == old(bones)@[m].enable_ik
                                && bones@[m].local_transform == old(bones)@[m].local_transform,
                        forall|j: int|
                            0 <= j < n && ((#[trigger] self.config.links@[j]).bone_index as int)
                                < len ==> bones@[self.config.links@[j].bone_index as int].enable_ik,
                    decreases n - k,
                {
                    let ghost pre: Seq<Bone> = bones@;
                    let link: IkLink = self.config.links[k];
                    let li: usize = link.bone_index as usize;
                    if li < len {
                        proof {
                            assert(is_link_bone(self.config.links@, link.bone_index as int));
                        }
                        let mut b: Bone = bones[li];
                        b.ik_rotate = chain[k].save_ik_rot;
                        proof {
                            assert(b == (Bone {
                                ik_rotate: core_c[k as int].save_ik_rot,
                                ..pre[li as int]
                            }));
                        }
                        b.update_local_transform();
                        bones[li] = b;
                        proof {
                            let b1g = Bone {
                                ik_rotate: core_c[k as int].save_ik_rot,
                                ..pre[li as int]
                            };
                            assert(b == (Bone { local_transform: local_of(b1g), ..b1g }));
                            assert(wf_parents(bones@));
                        }
                        let ghost midg: Seq<Bone> = bones@;
                        Self::update_global_transform_recursive(bones, li);
                        proof {
                            assert forall|m: int|
                                0 <= m < old(bones)@.len() && outside_links(
                                    self.config.links@,
                                    old(bones)@,
                                    m,
                                ) implies #[trigger] bones@[m] == pre[m] by {
                                lemma_in_chain_same(
                                    midg,
                                    old(bones)@,
                                    m,
                                    link.bone_index as int,
                                );
                                assert(!in_chain(old(bones)@, m, link.bone_index as int));
                                assert(m != link.bone_index as int);
                            }
                        }
                    }
                    proof {
                        reveal(restore_from);
                        assert(restore_from(self.config.links@, pre, core_c, k as int)
                            == restore_from(self.config.links@, bones@, core_c, k as int + 1));
                    }
                    k = k + 1;
                }
                proof {
                    reveal(restore_from);
                    assert(restore_from(self.config.links@, bones@, core_c, n as int) == bones@);
                    reveal(solve_iters);
                    assert(solve_iters(
                        self.config.links@,
                        self.config.limit_angle,
                        self.bone_index as int,
                        target_idx as int,
                        self.config.iterations,
                        pre_b,
                        pre_c,
                        it,
                        md0,
                    ) == bones@);
                }
                broke = true;
            }
            it = it + 1;
        }
        proof {
            reveal(solve_iters);
        }
    }
}

} // verus!
