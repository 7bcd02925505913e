//! The art packs the game draws from: the adventurer characters and the
//! albedo material library.
use vstd::prelude::*;

pub mod catalog;
pub mod material;
pub mod texture;

verus! {

/// Loads models from the asset packs; the loading itself is done by the
/// window layer, which holds the file system.
#[derive(Debug)]
pub struct AssetManager;

impl AssetManager {
    pub fn new() -> (m: AssetManager)
        ensures
            m == AssetManager,
    {
        AssetManager
    }
}

impl Default for AssetManager {
    fn default() -> (m: Self)
        ensures
            m == AssetManager,
    {
        AssetManager
    }
}

} // verus!
