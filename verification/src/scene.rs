//! Identities of what is placed in the world and of the models that draw it.
use vstd::prelude::*;

verus! {

/// A scene node, by the id the scene gave it.
#[derive(Clone, Copy, Debug, PartialEq, Eq, Hash, Structural)]
pub struct ObjectId(pub u32);

/// What a scene node is.
#[derive(Clone, Copy, Debug, PartialEq, Eq, Structural)]
pub enum ObjectKind {
    Character,
    Prop,
    Chest,
    Station,
    Loot,
    Weapon,
    Trigger,
}

/// A model uploaded to the renderer, by its slot there.
#[derive(Clone, Copy, Debug, PartialEq, Eq, Hash, Structural)]
pub struct ModelHandle(pub u32);

/// The models of a world station: its body, the chest's lid and the
/// furnace's ember glow.
#[derive(Clone, Copy, Debug, PartialEq, Eq, Structural)]
pub struct StationMeshes {
    pub body: ModelHandle,
    pub lid: Option<ModelHandle>,
    pub ember: Option<ModelHandle>,
}

/// A model carried at a named socket of a character's rig.
#[derive(Debug)]
pub struct AttachedItem {
    pub handle: ModelHandle,
    pub socket: String,
}

} // verus!
