//! Stable wire ids (`u16`) and the catalog row of each item.
//!
//! Ids are persisted by the server; they are never renumbered. The catalog
//! says how many of an item fit in one slot, how much furnace fuel it gives,
//! and which world mesh shows a stack of a given size.
use vstd::prelude::*;

verus! {

pub const EMPTY: u16 = 0;
pub const WOOD: u16 = 1;
pub const STONE: u16 = 2;
pub const ORE: u16 = 3;
pub const COAL: u16 = 4;
pub const IRON: u16 = 5;
pub const STICK: u16 = 6;
pub const RAW_MEAT: u16 = 7;
pub const COOKED_MEAT: u16 = 8;
pub const COPPER_NUGGET: u16 = 9;
pub const COPPER_BAR: u16 = 10;
pub const SILVER_NUGGET: u16 = 11;
pub const SILVER_BAR: u16 = 12;
pub const GOLD_NUGGET: u16 = 13;
pub const GOLD_BAR: u16 = 14;
pub const STONE_BRICK: u16 = 15;
pub const WOOD_PLANK: u16 = 16;
pub const COG: u16 = 17;
pub const TEXTILE: u16 = 18;
pub const FUEL_CAN: u16 = 19;
pub const PICKAXE: u16 = 20;
pub const AXE: u16 = 21;
pub const SWORD: u16 = 22;

pub const BAG_SLOTS: usize = 36;
pub const HOTBAR: usize = 9;
pub const CHEST_SLOTS: usize = 18;
pub const FURNACE_SLOTS: usize = 3;

pub const RESOURCE_BITS_DIR: &'static str = "assets/kaykit/resource_bits";

/// Stable wire id of an item. `ItemId(0)` is the empty item.
#[derive(Clone, Copy, Debug, PartialEq, Eq, Hash, Default, Structural)]
pub struct ItemId(pub u16);

/// One catalog row. `tiers` are `(min_count, gltf_stem)` pairs sorted by rising
/// `min_count`; the last tier whose threshold a stack reaches picks its mesh.
#[derive(Clone, Copy, Debug)]
pub struct ItemDef {
    pub id: ItemId,
    pub name: &'static str,
    /// How many of the item fit in one slot.
    pub stack: u16,
    pub tool: bool,
    /// Furnace fuel units granted when the item is burnt. 0 = not fuel.
    pub fuel: u32,
    /// Default mesh (a stack of one). Empty string = a colored gem.
    pub mesh: &'static str,
    pub tiers: &'static [(u16, &'static str)],
}

/// The catalog, one row per known id; any other id reads as the empty row.
pub open spec fn spec_def(id: ItemId) -> ItemDef {
    let n = id.0;
    if n == WOOD {
        ItemDef { id, name: "Wood", stack: 64, tool: false, fuel: 40, mesh: "Wood_Log_A",
            tiers: &[(1, "Wood_Log_A"), (4, "Wood_Log_B"), (12, "Wood_Log_Stack")] }
    } else if n == STONE {
        ItemDef { id, name: "Stone", stack: 64, tool: false, fuel: 0, mesh: "Stone_Chunks_Small",
            tiers: &[(1, "Stone_Chunks_Small"), (8, "Stone_Chunks_Large")] }
    } else if n == ORE {
        ItemDef { id, name: "Iron ore", stack: 64, tool: false, fuel: 0, mesh: "Iron_Nugget_Small",
            tiers: &[(1, "Iron_Nugget_Small"), (4, "Iron_Nugget_Medium"), (10, "Iron_Nuggets")] }
    } else if n == COAL {
        ItemDef { id, name: "Coal", stack: 64, tool: false, fuel: 160, mesh: "Fuel_C_Jerrycan",
            tiers: &[(1, "Fuel_C_Jerrycan"), (8, "Fuel_C_Barrel")] }
    } else if n == IRON {
        ItemDef { id, name: "Iron ingot", stack: 64, tool: false, fuel: 0, mesh: "Iron_Bar",
            tiers: &[(1, "Iron_Bar"), (4, "Iron_Bars"), (8, "Iron_Bars_Stack_Small"),
                (16, "Iron_Bars_Stack_Medium"), (32, "Iron_Bars_Stack_Large")] }
    } else if n == STICK {
        ItemDef { id, name: "Stick", stack: 64, tool: false, fuel: 20, mesh: "Wood_Plank_C",
            tiers: &[(1, "Wood_Plank_C")] }
    } else if n == RAW_MEAT {
        ItemDef { id, name: "Raw meat", stack: 16, tool: false, fuel: 0, mesh: "", tiers: &[] }
    } else if n == COOKED_MEAT {
        ItemDef { id, name: "Cooked meat", stack: 16, tool: false, fuel: 0, mesh: "", tiers: &[] }
    } else if n == COPPER_NUGGET {
        ItemDef { id, name: "Copper nugget", stack: 64, tool: false, fuel: 0,
            mesh: "Copper_Nugget_Small",
            tiers: &[(1, "Copper_Nugget_Small"), (4, "Copper_Nugget_Medium"), (10, "Copper_Nuggets")] }
    } else if n == COPPER_BAR {
        ItemDef { id, name: "Copper bar", stack: 64, tool: false, fuel: 0, mesh: "Copper_Bar",
            tiers: &[(1, "Copper_Bar"), (4, "Copper_Bars"), (8, "Copper_Bars_Stack_Small"),
                (16, "Copper_Bars_Stack_Medium"), (32, "Copper_Bars_Stack_Large")] }
    } else if n == SILVER_NUGGET {
        ItemDef { id, name: "Silver nugget", stack: 64, tool: false, fuel: 0,
            mesh: "Silver_Nugget_Small",
            tiers: &[(1, "Silver_Nugget_Small"), (4, "Silver_Nugget_Medium"), (10, "Silver_Nuggets")] }
    } else if n == SILVER_BAR {
        ItemDef { id, name: "Silver bar", stack: 64, tool: false, fuel: 0, mesh: "Silver_Bar",
            tiers: &[(1, "Silver_Bar"), (4, "Silver_Bars"), (8, "Silver_Bars_Stack_Small"),
                (16, "Silver_Bars_Stack_Medium"), (32, "Silver_Bars_Stack_Large")] }
    } else if n == GOLD_NUGGET {
        ItemDef { id, name: "Gold nugget", stack: 64, tool: false, fuel: 0, mesh: "Gold_Nugget_Small",
            tiers: &[(1, "Gold_Nugget_Small"), (4, "Gold_Nugget_Medium"), (10, "Gold_Nuggets")] }
    } else if n == GOLD_BAR {
        ItemDef { id, name: "Gold bar", stack: 64, tool: false, fuel: 0, mesh: "Gold_Bar",
            tiers: &[(1, "Gold_Bar"), (4, "Gold_Bars"), (8, "Gold_Bars_Stack_Small"),
                (16, "Gold_Bars_Stack_Medium"), (32, "Gold_Bars_Stack_Large")] }
    } else if n == STONE_BRICK {
        ItemDef { id, name: "Stone brick", stack: 64, tool: false, fuel: 0, mesh: "Stone_Brick",
            tiers: &[(1, "Stone_Brick"), (6, "Stone_Bricks_Stack_Small"),
                (16, "Stone_Bricks_Stack_Medium"), (32, "Stone_Bricks_Stack_Large")] }
    } else if n == WOOD_PLANK {
        ItemDef { id, name: "Wood plank", stack: 64, tool: false, fuel: 30, mesh: "Wood_Plank_A",
            tiers: &[(1, "Wood_Plank_A"), (6, "Wood_Planks_Stack_Small"),
                (16, "Wood_Planks_Stack_Medium"), (32, "Wood_Planks_Stack_Large")] }
    } else if n == COG {
        ItemDef { id, name: "Cog", stack: 64, tool: false, fuel: 0, mesh: "Parts_Cog",
            tiers: &[(1, "Parts_Cog"), (6, "Parts_Pile_Small"), (16, "Parts_Pile_Medium"),
                (32, "Parts_Pile_Large")] }
    } else if n == TEXTILE {
        ItemDef { id, name: "Textile", stack: 64, tool: false, fuel: 10, mesh: "Textiles_A",
            tiers: &[(1, "Textiles_A"), (8, "Textiles_Stack_Small"), (24, "Textiles_Stack_Large")] }
    } else if n == FUEL_CAN {
        ItemDef { id, name: "Fuel can", stack: 16, tool: false, fuel: 240, mesh: "Fuel_A_Jerrycan",
            tiers: &[(1, "Fuel_A_Jerrycan"), (8, "Fuel_A_Barrel")] }
    } else if n == PICKAXE {
        ItemDef { id, name: "Pickaxe", stack: 1, tool: true, fuel: 0, mesh: "", tiers: &[] }
    } else if n == AXE {
        ItemDef { id, name: "Axe", stack: 1, tool: true, fuel: 0, mesh: "", tiers: &[] }
    } else if n == SWORD {
        ItemDef { id, name: "Sword", stack: 1, tool: true, fuel: 0, mesh: "", tiers: &[] }
    } else {
        ItemDef { id: ItemId(EMPTY), name: "empty", stack: 1, tool: false, fuel: 0, mesh: "",
            tiers: &[] }
    }
}

/// Slot capacity of an item.
pub open spec fn stack_limit(id: ItemId) -> u16 {
    spec_def(id).stack
}

/// The mesh of the last tier whose threshold `count` reaches, else `fallback`.
pub open spec fn pick_tier(tiers: Seq<(u16, &'static str)>, fallback: &'static str, count: u16)
    -> &'static str
    decreases tiers.len(),
{
    if tiers.len() == 0 {
        fallback
    } else if count >= tiers.last().0 {
        tiers.last().1
    } else {
        pick_tier(tiers.drop_last(), fallback, count)
    }
}

impl ItemId {
    /// True for the empty item id.
    pub fn is_empty(self) -> (r: bool)
        ensures
            r == (self.0 == EMPTY),
    {
        self.0 == EMPTY
    }

    /// The catalog row of this id (the empty row for unknown ids).
    pub fn def(self) -> (d: ItemDef)
        ensures
            d == spec_def(self),
    {
        let n = self.0;
        if n == WOOD {
            ItemDef { id: self, name: "Wood", stack: 64, tool: false, fuel: 40, mesh: "Wood_Log_A",
                tiers: &[(1, "Wood_Log_A"), (4, "Wood_Log_B"), (12, "Wood_Log_Stack")] }
        } else if n == STONE {
            ItemDef { id: self, name: "Stone", stack: 64, tool: false, fuel: 0,
                mesh: "Stone_Chunks_Small",
                tiers: &[(1, "Stone_Chunks_Small"), (8, "Stone_Chunks_Large")] }
        } else if n == ORE {
            ItemDef { id: self, name: "Iron ore", stack: 64, tool: false, fuel: 0,
                mesh: "Iron_Nugget_Small",
                tiers: &[(1, "Iron_Nugget_Small"), (4, "Iron_Nugget_Medium"), (10, "Iron_Nuggets")] }
        } else if n == COAL {
            ItemDef { id: self, name: "Coal", stack: 64, tool: false, fuel: 160,
                mesh: "Fuel_C_Jerrycan", tiers: &[(1, "Fuel_C_Jerrycan"), (8, "Fuel_C_Barrel")] }
        } else if n == IRON {
            ItemDef { id: self, name: "Iron ingot", stack: 64, tool: false, fuel: 0, mesh: "Iron_Bar",
                tiers: &[(1, "Iron_Bar"), (4, "Iron_Bars"), (8, "Iron_Bars_Stack_Small"),
                    (16, "Iron_Bars_Stack_Medium"), (32, "Iron_Bars_Stack_Large")] }
        } else if n == STICK {
            ItemDef { id: self, name: "Stick", stack: 64, tool: false, fuel: 20, mesh: "Wood_Plank_C",
                tiers: &[(1, "Wood_Plank_C")] }
        } else if n == RAW_MEAT {
            ItemDef { id: self, name: "Raw meat", stack: 16, tool: false, fuel: 0, mesh: "",
                tiers: &[] }
        } else if n == COOKED_MEAT {
            ItemDef { id: self, name: "Cooked meat", stack: 16, tool: false, fuel: 0, mesh: "",
                tiers: &[] }
        } else if n == COPPER_NUGGET {
            ItemDef { id: self, name: "Copper nugget", stack: 64, tool: false, fuel: 0,
                mesh: "Copper_Nugget_Small",
                tiers: &[(1, "Copper_Nugget_Small"), (4, "Copper_Nugget_Medium"),
                    (10, "Copper_Nuggets")] }
        } else if n == COPPER_BAR {
            ItemDef { id: self, name: "Copper bar", stack: 64, tool: false, fuel: 0,
                mesh: "Copper_Bar",
                tiers: &[(1, "Copper_Bar"), (4, "Copper_Bars"), (8, "Copper_Bars_Stack_Small"),
                    (16, "Copper_Bars_Stack_Medium"), (32, "Copper_Bars_Stack_Large")] }
        } else if n == SILVER_NUGGET {
            ItemDef { id: self, name: "Silver nugget", stack: 64, tool: false, fuel: 0,
                mesh: "Silver_Nugget_Small",
                tiers: &[(1, "Silver_Nugget_Small"), (4, "Silver_Nugget_Medium"),
                    (10, "Silver_Nuggets")] }
        } else if n == SILVER_BAR {
            ItemDef { id: self, name: "Silver bar", stack: 64, tool: false, fuel: 0,
                mesh: "Silver_Bar",
                tiers: &[(1, "Silver_Bar"), (4, "Silver_Bars"), (8, "Silver_Bars_Stack_Small"),
                    (16, "Silver_Bars_Stack_Medium"), (32, "Silver_Bars_Stack_Large")] }
        } else if n == GOLD_NUGGET {
            ItemDef { id: self, name: "Gold nugget", stack: 64, tool: false, fuel: 0,
                mesh: "Gold_Nugget_Small",
                tiers: &[(1, "Gold_Nugget_Small"), (4, "Gold_Nugget_Medium"), (10, "Gold_Nuggets")] }
        } else if n == GOLD_BAR {
            ItemDef { id: self, name: "Gold bar", stack: 64, tool: false, fuel: 0, mesh: "Gold_Bar",
                tiers: &[(1, "Gold_Bar"), (4, "Gold_Bars"), (8, "Gold_Bars_Stack_Small"),
                    (16, "Gold_Bars_Stack_Medium"), (32, "Gold_Bars_Stack_Large")] }
        } else if n == STONE_BRICK {
            ItemDef { id: self, name: "Stone brick", stack: 64, tool: false, fuel: 0,
                mesh: "Stone_Brick",
                tiers: &[(1, "Stone_Brick"), (6, "Stone_Bricks_Stack_Small"),
                    (16, "Stone_Bricks_Stack_Medium"), (32, "Stone_Bricks_Stack_Large")] }
        } else if n == WOOD_PLANK {
            ItemDef { id: self, name: "Wood plank", stack: 64, tool: false, fuel: 30,
                mesh: "Wood_Plank_A",
                tiers: &[(1, "Wood_Plank_A"), (6, "Wood_Planks_Stack_Small"),
                    (16, "Wood_Planks_Stack_Medium"), (32, "Wood_Planks_Stack_Large")] }
        } else if n == COG {
            ItemDef { id: self, name: "Cog", stack: 64, tool: false, fuel: 0, mesh: "Parts_Cog",
                tiers: &[(1, "Parts_Cog"), (6, "Parts_Pile_Small"), (16, "Parts_Pile_Medium"),
                    (32, "Parts_Pile_Large")] }
        } else if n == TEXTILE {
            ItemDef { id: self, name: "Textile", stack: 64, tool: false, fuel: 10,
                mesh: "Textiles_A",
                tiers: &[(1, "Textiles_A"), (8, "Textiles_Stack_Small"),
                    (24, "Textiles_Stack_Large")] }
        } else if n == FUEL_CAN {
            ItemDef { id: self, name: "Fuel can", stack: 16, tool: false, fuel: 240,
                mesh: "Fuel_A_Jerrycan", tiers: &[(1, "Fuel_A_Jerrycan"), (8, "Fuel_A_Barrel")] }
        } else if n == PICKAXE {
            ItemDef { id: self, name: "Pickaxe", stack: 1, tool: true, fuel: 0, mesh: "",
                tiers: &[] }
        } else if n == AXE {
            ItemDef { id: self, name: "Axe", stack: 1, tool: true, fuel: 0, mesh: "", tiers: &[] }
        } else if n == SWORD {
            ItemDef { id: self, name: "Sword", stack: 1, tool: true, fuel: 0, mesh: "", tiers: &[] }
        } else {
            ItemDef { id: ItemId(EMPTY), name: "empty", stack: 1, tool: false, fuel: 0, mesh: "",
                tiers: &[] }
        }
    }

    /// Mesh stem for a stack of `count`: the last tier whose threshold `count`
    /// reaches, else the default mesh.
    pub fn visual_mesh(self, count: u16) -> (r: &'static str)
        ensures
            r == pick_tier(spec_def(self).tiers@, spec_def(self).mesh, count),
    {
        let def = self.def();
        let tiers = def.tiers;
        let mut best = def.mesh;
        let mut i: usize = 0;
        while i < tiers.len()
            invariant
                i <= tiers@.len(),
                tiers@ == spec_def(self).tiers@,
                def.mesh == spec_def(self).mesh,
                best == pick_tier(tiers@.take(i as int), def.mesh, count),
            decreases tiers@.len() - i,
        {
            let (min, stem) = tiers[i];
            assert(tiers@.take(i + 1).drop_last() =~= tiers@.take(i as int));
            if count >= min {
                best = stem;
            }
            i += 1;
        }
        assert(tiers@.take(i as int) =~= tiers@);
        best
    }
}

} // verus!
