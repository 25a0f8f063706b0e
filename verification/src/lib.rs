//! A generative-art engine: a raster image is synthesized by repeatedly
//! copying circular regions of a canvas onto other circular regions with a
//! rotation and a color shift, and the accumulated real-valued canvas is then
//! tone-mapped to 8-bit output through a histogram-derived normalization
//! constant.
//!
//! This crate holds the verified integer core of the pipeline: the geometric
//! transformations and their placement invariants, the disk traversal, the
//! canvas grid, and the magnitude histogram with its half-mass walk. The
//! real-valued resampling, the random real draws and the final image encoding
//! are left to the driver around the library.

pub mod canvas;
pub mod disk;
pub mod geometry;
pub mod histogram;
pub mod rng;
