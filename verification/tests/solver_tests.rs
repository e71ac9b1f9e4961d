use ik_solver::affine::Affine;
use ik_solver::bone::Bone;
use ik_solver::euler::{asin_impl, atan2_impl, decompose, normalize_angle};
use ik_solver::fix::{div_fx, mul_fx, ONE, TAU_FIX};
use ik_solver::mat3::Mat3;
use ik_solver::quat::Quat;
use ik_solver::solver::{IkConfig, IkLink, IkSolver, SolveAxis};
use ik_solver::vec3::Vec3;

fn fx(v: f64) -> i64 {
    (v * 4294967296.0).round() as i64
}

fn fl(b: i64) -> f64 {
    b as f64 / 4294967296.0
}

fn vfx(x: f64, y: f64, z: f64) -> Vec3 {
    Vec3 { x: fx(x), y: fx(y), z: fx(z) }
}

fn vfl(v: Vec3) -> (f64, f64, f64) {
    (fl(v.x), fl(v.y), fl(v.z))
}

fn dist(a: Vec3, b: Vec3) -> f64 {
    let (ax, ay, az) = vfl(a);
    let (bx, by, bz) = vfl(b);
    ((ax - bx).powi(2) + (ay - by).powi(2) + (az - bz).powi(2)).sqrt()
}

fn x_axis() -> Vec3 {
    Vec3 { x: ONE, y: 0, z: 0 }
}

fn refresh(bones: &mut Vec<Bone>) {
    for i in 0..bones.len() {
        let mut b = bones[i];
        b.update_local_transform();
        bones[i] = b;
    }
    for i in 0..bones.len() {
        if bones[i].parent_index < 0 {
            IkSolver::update_global_transform_recursive(bones, i);
        }
    }
}

/// A leg rig: hip (root, at (0,1,0)), knee, ankle, and a goal root bone.
/// The knee is pre-bent by the animation layer so the goal is reachable.
fn make_leg(goal: Vec3) -> Vec<Bone> {
    let mut bones = vec![
        Bone::new(-1, vfx(0.0, 1.0, 0.0)),
        Bone::new(0, vfx(0.0, -0.5, 0.0)),
        Bone::new(1, vfx(0.0, -0.5, 0.0)),
        Bone::new(-1, vfx(0.0, 0.0, 0.0)),
    ];
    bones[1].animation_rotate = Quat::from_axis_angle(&x_axis(), fx(0.6435011));
    bones[3].translation = goal;
    refresh(&mut bones);
    bones
}

fn leg_solver(limited: bool) -> IkSolver {
    let knee = IkLink {
        bone_index: 1,
        has_limits: limited,
        limit_min: vfx(0.0, 0.0, 0.0),
        limit_max: if limited { vfx(2.5, 0.0, 0.0) } else { vfx(0.0, 0.0, 0.0) },
    };
    let hip = IkLink {
        bone_index: 0,
        has_limits: false,
        limit_min: vfx(0.0, 0.0, 0.0),
        limit_max: vfx(0.0, 0.0, 0.0),
    };
    let config = IkConfig { target_bone: 2, iterations: 20, limit_angle: fx(1.0), links: vec![knee, hip] };
    IkSolver::new(3, config)
}

#[test]
fn two_link_chain_converges_within_limits() {
    // Straight resting leg, ankle at the origin; the goal sits 0.1 units
    // forward of it, on the arc the X-limited knee can reach.
    let goal = vfx(0.0, 0.01, -0.09948);
    let mut bones = vec![
        Bone::new(-1, vfx(0.0, 1.0, 0.0)),
        Bone::new(0, vfx(0.0, -0.5, 0.0)),
        Bone::new(1, vfx(0.0, -0.5, 0.0)),
        Bone::new(-1, vfx(0.0, 0.0, 0.0)),
    ];
    bones[3].translation = goal;
    refresh(&mut bones);
    let solver = leg_solver(true);
    solver.solve(&mut bones);
    let ankle = bones[2].global_transform.t;
    assert!(dist(ankle, goal) < 1.0e-3, "ankle {:?} too far from goal", vfl(ankle));
    // The knee's total rotation stays a pure X rotation within [0, 2.5].
    let total = bones[1].ik_rotate.mul(&bones[1].animation_rotate);
    let angle = 2.0 * fl(total.x).atan2(fl(total.w));
    assert!(fl(total.y).abs() < 1.0e-3 && fl(total.z).abs() < 1.0e-3);
    assert!(angle >= -1.0e-6 && angle <= 2.5 + 1.0e-6, "knee angle {} out of bounds", angle);
}

#[test]
fn solve_does_not_regress_distance() {
    let goal = vfx(0.0, 0.1, -0.2);
    let mut bones = make_leg(goal);
    let before = dist(bones[2].global_transform.t, goal);
    let solver = leg_solver(true);
    solver.solve(&mut bones);
    let after = dist(bones[2].global_transform.t, goal);
    assert!(after <= before + 1.0e-9, "distance grew from {} to {}", before, after);
}

#[test]
fn solve_on_reached_goal_keeps_rotations_identity() {
    // Straight leg, no pre-bend, unlimited links, goal exactly at the ankle.
    let mut bones = vec![
        Bone::new(-1, vfx(0.0, 1.0, 0.0)),
        Bone::new(0, vfx(0.0, -0.5, 0.0)),
        Bone::new(1, vfx(0.0, -0.5, 0.0)),
        Bone::new(-1, vfx(0.0, 0.0, 0.0)),
    ];
    refresh(&mut bones);
    let solver = leg_solver(false);
    solver.solve(&mut bones);
    let id = Quat { x: 0, y: 0, z: 0, w: ONE };
    assert_eq!(bones[0].ik_rotate, id);
    assert_eq!(bones[1].ik_rotate, id);
    let ankle = bones[2].global_transform.t;
    assert!(dist(ankle, vfx(0.0, 0.0, 0.0)) < 1.0e-9);
}

#[test]
fn out_of_range_goal_or_effector_mutates_nothing() {
    let goal = vfx(0.0, 0.1, -0.2);
    let bones0 = make_leg(goal);

    let mut bones = bones0.clone();
    let mut solver = leg_solver(true);
    solver.config.target_bone = 99;
    solver.solve(&mut bones);
    assert_eq!(bones, bones0);

    let mut bones = bones0.clone();
    let mut solver = leg_solver(true);
    solver.bone_index = 99;
    solver.solve(&mut bones);
    assert_eq!(bones, bones0);

    let mut bones = bones0.clone();
    let mut solver = leg_solver(true);
    solver.enabled = false;
    solver.solve(&mut bones);
    assert_eq!(bones, bones0);
}

#[test]
fn plane_axis_selection() {
    let mut link = IkLink {
        bone_index: 0,
        has_limits: true,
        limit_min: vfx(0.0, 0.0, 0.0),
        limit_max: vfx(1.0, 0.0, 0.0),
    };
    assert_eq!(IkSolver::get_plane_solve_axis(&link), Some(SolveAxis::X));
    link.limit_max = vfx(0.0, 1.0, 0.0);
    assert_eq!(IkSolver::get_plane_solve_axis(&link), Some(SolveAxis::Y));
    link.limit_max = vfx(0.0, 0.0, 1.0);
    assert_eq!(IkSolver::get_plane_solve_axis(&link), Some(SolveAxis::Z));
    link.limit_max = vfx(1.0, 1.0, 0.0);
    assert_eq!(IkSolver::get_plane_solve_axis(&link), None);
    link.limit_max = vfx(1.0, 1.0, 1.0);
    assert_eq!(IkSolver::get_plane_solve_axis(&link), None);
    link.limit_max = vfx(0.0, 0.0, 0.0);
    assert_eq!(IkSolver::get_plane_solve_axis(&link), None);
}

#[test]
fn decomposition_round_trip() {
    let e = vfx(0.3, 0.4, 0.5);
    let q = Quat::from_euler(&e);
    let m = Mat3::from_quat(&q);
    let d = decompose(&m, &vfx(0.29, 0.41, 0.49));
    let q2 = Quat::from_euler(&d);
    let m2 = Mat3::from_quat(&q2);
    for (a, b) in [
        (m.c0, m2.c0),
        (m.c1, m2.c1),
        (m.c2, m2.c2),
    ] {
        assert!(dist(a, b) < 1.0e-4, "round trip drifted: {:?} vs {:?}", vfl(a), vfl(b));
    }
}

#[test]
fn decomposition_prefers_triple_near_reference() {
    // A rotation whose naive extraction flips X and Z to pi; the reference
    // triple near (0, 1.6, 0) must pull the result back to the same branch.
    let e = vfx(0.0, 1.6, 0.0);
    let m = Mat3::from_quat(&Quat::from_euler(&e));
    let before = vfx(0.0, 1.55, 0.0);
    let d = decompose(&m, &before);
    // Naive primary solution, computed in floating point from the matrix.
    let nx = fl(m.c1.z).atan2(fl(m.c2.z));
    let ny = (-fl(m.c0.z)).clamp(-1.0, 1.0).asin();
    let nz = fl(m.c0.y).atan2(fl(m.c0.x));
    let wrap = |a: f64, b: f64| {
        let mut d = (a - b) % (2.0 * std::f64::consts::PI);
        if d > std::f64::consts::PI {
            d -= 2.0 * std::f64::consts::PI;
        }
        if d < -std::f64::consts::PI {
            d += 2.0 * std::f64::consts::PI;
        }
        d.abs()
    };
    let err_d = wrap(fl(d.x), 0.0) + wrap(fl(d.y), 1.55) + wrap(fl(d.z), 0.0);
    let err_naive = wrap(nx, 0.0) + wrap(ny, 1.55) + wrap(nz, 0.0);
    assert!(err_d <= err_naive + 1.0e-6, "picked {} vs naive {}", err_d, err_naive);
    assert!(wrap(fl(d.x), 0.0) < 5.0e-3);
    assert!(wrap(fl(d.y), 1.6) < 5.0e-3);
    assert!(wrap(fl(d.z), 0.0) < 5.0e-3);
}

#[test]
fn axis_angle_uses_real_sine_and_cosine() {
    let q = Quat::from_axis_angle(&x_axis(), fx(std::f64::consts::PI));
    assert!(fl(q.w).abs() < 1.0e-2, "cos(pi/2) should be near zero, got {}", fl(q.w));
    assert!(fl(q.x) > 0.99, "sin(pi/2) should be near one, got {}", fl(q.x));
}

#[test]
fn length_uses_real_square_root() {
    let v = vfx(4.0, 0.0, 0.0);
    assert!((fl(v.length()) - 4.0).abs() < 1.0e-6);
    let w = vfx(3.0, 4.0, 0.0);
    assert!((fl(w.length()) - 5.0).abs() < 1.0e-6);
}

#[test]
fn arc_functions_use_real_arc_tangent() {
    let a = atan2_impl(fx(1.0), fx(1.0));
    assert!((fl(a) - std::f64::consts::FRAC_PI_4).abs() < 1.0e-6, "atan2(1,1) = {}", fl(a));
    let s = asin_impl(fx(0.5));
    assert!((fl(s) - 0.5235988).abs() < 1.0e-5, "asin(0.5) = {}", fl(s));
}

#[test]
fn fixed_point_products_and_quotients_are_exact() {
    assert_eq!(mul_fx(fx(2.0), fx(3.0)), fx(6.0));
    assert_eq!(mul_fx(fx(-2.0), fx(3.0)), fx(-6.0));
    assert_eq!(div_fx(fx(1.0), fx(4.0)), fx(0.25));
    assert_eq!(div_fx(ONE, 3 * ONE), 1431655765);
}

#[test]
fn angle_normalization_is_exact() {
    let a = fx(-1.0);
    assert_eq!(normalize_angle(a), a + TAU_FIX);
    let b = fx(1.0) + 2 * TAU_FIX;
    assert_eq!(normalize_angle(b), fx(1.0));
    assert_eq!(normalize_angle(0), 0);
}

#[test]
fn rigid_inverse_undoes_a_transform() {
    let q = Quat::from_euler(&vfx(0.2, -0.3, 0.4));
    let a = Affine { m: Mat3::from_quat(&q), t: vfx(1.0, 2.0, 3.0) };
    let p = vfx(0.5, -0.25, 0.75);
    let back = a.inverse_rt().transform_point(&a.transform_point(&p));
    assert!(dist(back, p) < 1.0e-6);
}
