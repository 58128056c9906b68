//! Environment light and measured material of a physically based renderer:
//! the integer side of both, with contracts.
//!
//! - `half_bits`: exact decoding of half-precision bit patterns.
//! - `texel_grid`: row-ordered texel storage with repeat-wrap point queries.
//! - `infinite`: construction of the environment light from decoded images,
//!   with its fallback to a constant environment, and its importance grid.
//! - `fourier`: measured materials, their single-lobe reflectance model and
//!   the per-path table cache that lets materials share one table.
use vstd::prelude::*;

pub mod half_bits;
pub mod texel_grid;
pub mod infinite;
pub mod fourier;

verus! {

} // verus!
