//! Exact-arithmetic model of an adaptive tessellation, displacement and
//! distance-fog shading pipeline.
//!
//! Every quantity is an exact fraction of integers, so each stage's result is
//! stated and proved as a closed formula over its inputs.

pub mod ratio;
pub mod tessellation;
pub mod interpolation;
pub mod normal;
pub mod shading;
pub mod displacement;
