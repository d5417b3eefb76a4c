//! Procedural terrain content: the structure of a tileable gradient-noise lattice
//! and its octave schedule, rejection-sampled cluster centers for a resource field,
//! the sides and nearest-point candidates of a Bezier river, and the row-major RGBA
//! buffers that the fields are rasterized into.
use vstd::prelude::*;

pub mod draw;
pub mod error;
pub mod lattice;
pub mod mesh;
pub mod noise;
pub mod raster;
pub mod resource;
pub mod river;

verus! {

} // verus!
