//! Verified core of a real-time avatar visualizer.
//!
//! The library owns the avatar-module rendering pipeline: procedural mesh
//! generation, vertex coloring, instance planning, module compilation,
//! atomic avatar reload, and the per-frame draw plan. Scalar quantities that
//! the GPU consumes as `f32` are carried as IEEE-754 bit patterns (`u32`),
//! since the verifier reasons about them only as opaque words; the host shell
//! performs the floating-point arithmetic and hands the results in.

pub mod bits;
pub mod camera;
pub mod coloring;
pub mod frame;
pub mod instancing;
pub mod layout;
pub mod mesh_file;
pub mod avatar;
pub mod avatar_generator;
pub mod model;
pub mod renderer;
