//! Isosurface mesh extraction (marching cubes) over a chunked 3D scalar
//! density field, with a spherical sculpting brush that edits the field.
//!
//! Geometry is carried in fixed-point integer coordinates: one grid cell is
//! `SCALE` units wide, and every interpolated vertex coordinate is an exact
//! integer in those units. Density samples are plain signed integers in the
//! caller's own unit of choice.

use vstd::prelude::*;

pub mod brush;
pub mod field;
pub mod mesh;
pub mod table;

verus! {

/// Fixed-point scale: the side of one grid cell in coordinate units.
pub const SCALE: i64 = 256;

/// Largest magnitude a density sample (and the threshold) may have.
pub const DENSITY_BOUND: i64 = 1_000_000_000_000;

/// Largest extent of a field along any one axis, in samples.
pub const MAX_DIM: usize = 1024;

/// Largest total number of samples in a field.
pub const MAX_VOLUME: usize = 16_777_216;

} // verus!
