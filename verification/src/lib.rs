//! An offline ray-tracing renderer core.
//!
//! Every quantity is carried as a fixed-point [`scalar::Scalar`], so the
//! geometry, the intersection engine, the Phong shading model and the camera
//! are all ordinary integer arithmetic with exact contracts.

pub mod base_types;
pub mod matrices;
pub mod scalar;
pub mod visuals;
pub mod utils;
pub mod world;
