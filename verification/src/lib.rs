//! Procedural noise over grids of one to four dimensions: simplex noise,
//! cellular noise and fractal sums of octaves, with every contract stated
//! over the binary32 encodings of the samples.
//!
//! - [`binary32`]: single-precision values and their arithmetic.
//! - [`tables`], [`hash`]: the constant lattice tables and the lattice hashes.
//! - [`simplex`], [`cellular`], [`fractal`]: the kernels.
//! - [`generate`], [`scale`]: buffers of samples over a grid, and their
//!   rescaling into a target range.
//! - [`dispatch`]: the choice of a vector backend for a processor.
pub mod binary32;
pub mod cellular;
pub mod dispatch;
pub mod fractal;
pub mod generate;
pub mod hash;
pub mod scale;
pub mod simplex;
pub mod tables;
