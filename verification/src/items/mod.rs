//! Inventory stacks, the item catalog, recipes, stations and slot logic.
use vstd::prelude::*;

pub mod catalog;
pub mod stack;
pub mod recipe;
pub mod station;
pub mod logic;
pub mod laws;
pub mod codec;

verus! {
} // verus!
