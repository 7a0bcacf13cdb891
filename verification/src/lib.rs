//! A verified model of a small instanced-scene renderer.
//!
//! The library describes everything the renderer decides ahead of the GPU:
//! the camera's parameters and their validity, the instance grid, the
//! orbiting light, bind-group and vertex-buffer layouts, pipeline and
//! surface configuration, and the per-frame command stream. All of it is
//! stated over exact integer coordinates (thousandths of a scene unit) and
//! plain enums, and proved. An embedding layer outside this crate maps the
//! model onto a real GPU API and does the floating-point evaluation.

pub mod camera;
pub mod controller;
pub mod frame;
pub mod geom;
pub mod gpu;
pub mod instance;
pub mod layout;
pub mod light;
pub mod model;
pub mod pipeline;
pub mod state;
pub mod surface;

use vstd::prelude::*;

verus! {

/// Number of integer coordinate steps that make up one scene unit.
///
/// All lengths and matrix entries in this crate are carried as `i64`
/// multiples of one thousandth of a unit, so `1000` denotes `1.0`.
pub const UNIT: i64 = 1000;

} // verus!
