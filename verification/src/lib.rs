//! Core logic of a LUT-extraction tool: it recovers the parameters of a
//! composite linear + logarithmic transfer function from a sampled lookup
//! table, and emits pseudo-code for the fitted curve.
//!
//! This crate holds the verified, discrete part of that tool: the layout of
//! the calibration test image, the interval-narrowing decision of the
//! unimodal optimizer, the validation and slope-window selection applied to
//! an input table, the subsampling index set used by the fitting objective,
//! and the assembly of the generated pseudo-code text. The floating-point
//! evaluation of the curve itself is left to the surrounding application,
//! which drives these functions.

pub mod codegen;
pub mod optimizer;
pub mod table;
pub mod test_image;
