//! The rules of a small voxel adventure game: inventories, crafting and
//! furnaces, the world's item store and its server reducers, the voxel
//! terrain, the settings file, input edges, animation choice and the
//! bookkeeping between the item view and the scene.
use vstd::prelude::*;

pub mod items;
pub mod server;
pub mod server_laws;
pub mod store;
pub mod store_laws;
pub mod rpg;
pub mod voxel;
pub mod settings;
pub mod settings_text;
pub mod pause;
pub mod pause_view;
pub mod ui;
pub mod hud;
pub mod item_input;
pub mod input;
pub mod assets;
pub mod anim;
pub mod scene;
pub mod meshes;
pub mod world_sync;

verus! {
} // verus!
