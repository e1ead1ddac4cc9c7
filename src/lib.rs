//! A boundary-representation kernel: stitching of cycles, sweeping of
//! sketches into solids, and approximation of curves with a memoizing cache

pub mod approx;
pub mod geometry;
pub mod input;
pub mod isosurface;
pub mod join;
pub mod objects;
pub mod sampling;
pub mod sketch;
pub mod storage;
pub mod sweep;
