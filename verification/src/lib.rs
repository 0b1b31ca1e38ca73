//! A minimal 3D rotation kernel: quaternions and 3-component vectors with
//! construction, algebra, normalization, interpolation and rotation.
//!
//! Scalars are IEEE-754 binary32 values carried as their `u32` bit
//! patterns; see the `ieee` and `scalar` modules.

pub mod ieee;
pub mod quat;
pub mod scalar;
pub mod vec3;

pub use crate::quat::Quaternion;
pub use crate::vec3::Vector3;
