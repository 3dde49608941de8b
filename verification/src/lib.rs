//! Exact integer model of a free-look scene controller.
//!
//! The library models the control logic of a small 3D demo: a player pose
//! (translation plus orientation quaternion), per-frame keyboard movement,
//! keyboard yaw, mouse look, debug-gizmo geometry, and the fixed scene and
//! window configuration. All quantities are integers: a vector or quaternion
//! component is a plain `i64`, and every operation is stated exactly over
//! mathematical integers, so the per-frame update rules carry full
//! functional contracts.

pub mod gizmo;
pub mod motion;
pub mod quat;
pub mod scene;
pub mod vec3;
