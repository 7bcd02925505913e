//! The playable adventurer classes and where their files live.
use vstd::prelude::*;

verus! {

pub const CHARACTERS_DIR: &'static str = "assets/kaykit/characters";
pub const WEAPONS_DIR: &'static str = "assets/kaykit/weapons";

#[derive(Clone, Copy, Debug, PartialEq, Eq, Structural)]
pub enum AdventurerClass {
    Knight,
    Mage,
    Ranger,
    Rogue,
    RogueHooded,
    Barbarian,
}

pub open spec fn spec_file_name(c: AdventurerClass) -> &'static str {
    match c {
        AdventurerClass::Knight => "Knight.glb",
        AdventurerClass::Mage => "Mage.glb",
        AdventurerClass::Ranger => "Ranger.glb",
        AdventurerClass::Rogue => "Rogue.glb",
        AdventurerClass::RogueHooded => "Rogue_Hooded.glb",
        AdventurerClass::Barbarian => "Barbarian.glb",
    }
}

pub open spec fn spec_display_name(c: AdventurerClass) -> &'static str {
    match c {
        AdventurerClass::Knight => "Knight",
        AdventurerClass::Mage => "Mage",
        AdventurerClass::Ranger => "Ranger",
        AdventurerClass::Rogue => "Rogue",
        AdventurerClass::RogueHooded => "Hooded Rogue",
        AdventurerClass::Barbarian => "Barbarian",
    }
}

/// The weapon file each class starts with (rogues share the dagger).
pub open spec fn spec_weapon_file(c: AdventurerClass) -> &'static str {
    match c {
        AdventurerClass::Knight => "sword_1handed.gltf",
        AdventurerClass::Mage => "staff.gltf",
        AdventurerClass::Ranger => "bow.gltf",
        AdventurerClass::Rogue => "dagger.gltf",
        AdventurerClass::RogueHooded => "dagger.gltf",
        AdventurerClass::Barbarian => "axe_1handed.gltf",
    }
}

/// `dir/file` as text.
pub open spec fn joined(dir: &'static str, file: &'static str) -> Seq<char> {
    dir@ + "/"@ + file@
}

impl AdventurerClass {
    /// Every class, in menu order.
    pub fn all() -> (r: Vec<AdventurerClass>)
        ensures
            r@ == seq![
                AdventurerClass::Knight,
                AdventurerClass::Mage,
                AdventurerClass::Ranger,
                AdventurerClass::Rogue,
                AdventurerClass::RogueHooded,
                AdventurerClass::Barbarian,
            ],
    {
        vec![
            AdventurerClass::Knight,
            AdventurerClass::Mage,
            AdventurerClass::Ranger,
            AdventurerClass::Rogue,
            AdventurerClass::RogueHooded,
            AdventurerClass::Barbarian,
        ]
    }

    pub fn file_name(self) -> (s: &'static str)
        ensures
            s == spec_file_name(self),
    {
        match self {
            AdventurerClass::Knight => "Knight.glb",
            AdventurerClass::Mage => "Mage.glb",
            AdventurerClass::Ranger => "Ranger.glb",
            AdventurerClass::Rogue => "Rogue.glb",
            AdventurerClass::RogueHooded => "Rogue_Hooded.glb",
            AdventurerClass::Barbarian => "Barbarian.glb",
        }
    }

    /// The character model's path, under the characters directory.
    pub fn glb_path(self) -> (p: String)
        ensures
            p@ == joined(CHARACTERS_DIR, spec_file_name(self)),
    {
        let mut p = String::from_str(CHARACTERS_DIR);
        p.append("/");
        p.append(self.file_name());
        p
    }

    pub fn display_name(self) -> (s: &'static str)
        ensures
            s == spec_display_name(self),
    {
        match self {
            AdventurerClass::Knight => "Knight",
            AdventurerClass::Mage => "Mage",
            AdventurerClass::Ranger => "Ranger",
            AdventurerClass::Rogue => "Rogue",
            AdventurerClass::RogueHooded => "Hooded Rogue",
            AdventurerClass::Barbarian => "Barbarian",
        }
    }

    /// The starting weapon's path, under the weapons directory.
    pub fn default_weapon(self) -> (p: String)
        ensures
            p@ == joined(WEAPONS_DIR, spec_weapon_file(self)),
    {
        let file = match self {
            AdventurerClass::Knight => "sword_1handed.gltf",
            AdventurerClass::Mage => "staff.gltf",
            AdventurerClass::Ranger => "bow.gltf",
            AdventurerClass::Rogue | AdventurerClass::RogueHooded => "dagger.gltf",
            AdventurerClass::Barbarian => "axe_1handed.gltf",
        };
        let mut p = String::from_str(WEAPONS_DIR);
        p.append("/");
        p.append(file);
        p
    }
}

} // verus!
