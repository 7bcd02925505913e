//! Voxel terrain: block kinds and 16³ chunks.
use vstd::prelude::*;


pub mod chunk;
pub mod materials;

verus! {
} // verus!
