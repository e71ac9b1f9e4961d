//! An inverse-kinematics solver for flat, parent-indexed skeletal rigs.
//!
//! Rotations, vectors and transforms are held in a signed Q32.32 fixed-point
//! representation, so that every arithmetic step of the solver has an exact
//! integer meaning. The transcendental functions come from an outside
//! fixed-point library through a small trusted layer.

pub mod fix;
pub mod trig;
pub mod vec3;
pub mod quat;
pub mod mat3;
pub mod affine;
pub mod bone;
pub mod euler;
pub mod solver;
