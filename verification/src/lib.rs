//! Geometric bookkeeping for a fisheye-undistortion raster pipeline.
//!
//! The floating-point projection math and the GPU device plumbing live
//! outside this crate; what is verified here is the integer and byte-level
//! skeleton both raster engines share: frame-layout validation and buffer
//! sizing, staging-row padding, parameter-buffer row selection, fixed-point
//! sub-pixel phases with the edge policies, the bilinear coefficient bank,
//! and the byte layout of pixel records.

pub mod fixed;
pub mod kernel;
pub mod layout;
pub mod padding;
pub mod params;
pub mod pixel;
pub mod sample;
