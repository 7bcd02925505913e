//! Block kinds of the voxel world and what mining them yields.
use vstd::prelude::*;

use crate::items::catalog::{ItemId, COPPER_NUGGET, GOLD_NUGGET, ORE, STONE, STONE_BRICK, WOOD, WOOD_PLANK};

verus! {

pub const ATLAS_PATH: &'static str = "assets/kaykit/resource_bits/resource_bits_texture.png";
pub const ATLAS_SIZE: u32 = 1024;
pub const ATLAS_CELLS: u32 = 8;
pub const CELL_PX: u32 = 128;

/// A voxel. Its wire value is the block id (`Air` = 0 … `Tiles` = 13).
#[derive(Clone, Copy, Debug, PartialEq, Eq, Structural)]
pub enum Block {
    Air,
    Grass,
    Dirt,
    Stone,
    Wood,
    Iron,
    Copper,
    Gold,
    Water,
    Brick,
    Cobble,
    Plank,
    Gravel,
    Tiles,
}

pub open spec fn spec_block_from_u8(v: u8) -> Block {
    if v == 1 { Block::Grass } else if v == 2 { Block::Dirt } else if v == 3 { Block::Stone }
    else if v == 4 { Block::Wood } else if v == 5 { Block::Iron } else if v == 6 { Block::Copper }
    else if v == 7 { Block::Gold } else if v == 8 { Block::Water } else if v == 9 { Block::Brick }
    else if v == 10 { Block::Cobble } else if v == 11 { Block::Plank } else if v == 12 { Block::Gravel }
    else if v == 13 { Block::Tiles } else { Block::Air }
}

pub open spec fn spec_block_id(b: Block) -> u8 {
    match b {
        Block::Air => 0,
        Block::Grass => 1,
        Block::Dirt => 2,
        Block::Stone => 3,
        Block::Wood => 4,
        Block::Iron => 5,
        Block::Copper => 6,
        Block::Gold => 7,
        Block::Water => 8,
        Block::Brick => 9,
        Block::Cobble => 10,
        Block::Plank => 11,
        Block::Gravel => 12,
        Block::Tiles => 13,
    }
}

pub open spec fn spec_is_solid(b: Block) -> bool {
    !(b == Block::Air || b == Block::Water)
}

pub open spec fn spec_drops(b: Block) -> Option<(ItemId, u16)> {
    match b {
        Block::Air | Block::Water => None,
        Block::Grass | Block::Dirt | Block::Stone | Block::Cobble | Block::Gravel => Some((ItemId(STONE), 1u16)),
        Block::Wood => Some((ItemId(WOOD), 1u16)),
        Block::Plank => Some((ItemId(WOOD_PLANK), 1u16)),
        Block::Iron => Some((ItemId(ORE), 1u16)),
        Block::Copper => Some((ItemId(COPPER_NUGGET), 1u16)),
        Block::Gold => Some((ItemId(GOLD_NUGGET), 1u16)),
        Block::Brick | Block::Tiles => Some((ItemId(STONE_BRICK), 1u16)),
    }
}

impl Block {
    /// Decode a block id; unknown ids read as air.
    pub fn from_u8(v: u8) -> (b: Block)
        ensures
            b == spec_block_from_u8(v),
    {
        match v {
            1 => Block::Grass,
            2 => Block::Dirt,
            3 => Block::Stone,
            4 => Block::Wood,
            5 => Block::Iron,
            6 => Block::Copper,
            7 => Block::Gold,
            8 => Block::Water,
            9 => Block::Brick,
            10 => Block::Cobble,
            11 => Block::Plank,
            12 => Block::Gravel,
            13 => Block::Tiles,
            _ => Block::Air,
        }
    }

    /// The block id.
    pub fn as_u8(self) -> (v: u8)
        ensures
            v == spec_block_id(self),
    {
        match self {
            Block::Air => 0,
            Block::Grass => 1,
            Block::Dirt => 2,
            Block::Stone => 3,
            Block::Wood => 4,
            Block::Iron => 5,
            Block::Copper => 6,
            Block::Gold => 7,
            Block::Water => 8,
            Block::Brick => 9,
            Block::Cobble => 10,
            Block::Plank => 11,
            Block::Gravel => 12,
            Block::Tiles => 13,
        }
    }

    /// Everything but air and water is solid.
    pub fn is_solid(self) -> (r: bool)
        ensures
            r == spec_is_solid(self),
    {
        !matches!(self, Block::Air | Block::Water)
    }

    /// What the player receives when this block is mined (`None`: air or water).
    pub fn drops(self) -> (r: Option<(ItemId, u16)>)
        ensures
            r == spec_drops(self),
    {
        match self {
            Block::Air | Block::Water => None,
            Block::Grass | Block::Dirt => Some((ItemId(STONE), 1)),
            Block::Stone | Block::Cobble | Block::Gravel => Some((ItemId(STONE), 1)),
            Block::Wood => Some((ItemId(WOOD), 1)),
            Block::Plank => Some((ItemId(WOOD_PLANK), 1)),
            Block::Iron => Some((ItemId(ORE), 1)),
            Block::Copper => Some((ItemId(COPPER_NUGGET), 1)),
            Block::Gold => Some((ItemId(GOLD_NUGGET), 1)),
            Block::Brick | Block::Tiles => Some((ItemId(STONE_BRICK), 1)),
        }
    }

    /// The block a placed id builds; `None` for 0 and for ids that read as air.
    pub fn from_place_id(id: u8) -> (r: Option<Block>)
        ensures
            r == (if id == 0 || spec_block_from_u8(id) == Block::Air { None } else { Some(spec_block_from_u8(id)) }),
    {
        if id == 0 {
            None
        } else {
            let b = Block::from_u8(id);
            if matches!(b, Block::Air) { None } else { Some(b) }
        }
    }

    /// The thirteen placeable blocks, in id order.
    pub fn all() -> (r: Vec<Block>)
        ensures
            r@.len() == 13,
            forall|i: int| 0 <= i < 13 ==> #[trigger] r@[i] == spec_block_from_u8((i + 1) as u8),
    {
        let mut r: Vec<Block> = Vec::new();
        let mut i: u8 = 1;
        while i <= 13
            invariant
                1 <= i <= 14,
                r@.len() == i - 1,
                forall|k: int| 0 <= k < i - 1 ==> #[trigger] r@[k] == spec_block_from_u8((k + 1) as u8),
            decreases 14 - i,
        {
            r.push(Block::from_u8(i));
            i += 1;
        }
        r
    }

    /// Atlas cell `(column, row)` of the block's fallback texture.
    pub fn atlas_cell(self) -> (c: (u32, u32))
        ensures
            c.0 < ATLAS_CELLS && c.1 < ATLAS_CELLS,
            c == spec_atlas_cell(self),
    {
        match self {
            Block::Air => (0, 0),
            Block::Grass => (1, 5),
            Block::Dirt => (2, 3),
            Block::Stone => (0, 0),
            Block::Wood => (5, 2),
            Block::Iron => (6, 1),
            Block::Copper => (4, 2),
            Block::Gold => (3, 1),
            Block::Water => (0, 6),
            Block::Brick => (2, 1),
            Block::Cobble => (0, 1),
            Block::Plank => (5, 3),
            Block::Gravel => (1, 2),
            Block::Tiles => (3, 4),
        }
    }

    /// The material name of the block.
    pub fn material_name(self) -> (s: &'static str)
        ensures
            s == spec_material_name(self),
    {
        match self {
            Block::Air => "air",
            Block::Grass => "grass",
            Block::Dirt => "dirt",
            Block::Stone => "stone",
            Block::Wood => "wood",
            Block::Iron => "iron",
            Block::Copper => "copper",
            Block::Gold => "gold",
            Block::Water => "water",
            Block::Brick => "brick",
            Block::Cobble => "cobble",
            Block::Plank => "plank",
            Block::Gravel => "gravel",
            Block::Tiles => "tiles",
        }
    }
}

pub open spec fn spec_atlas_cell(b: Block) -> (u32, u32) {
    match b {
        Block::Air => (0, 0),
        Block::Grass => (1, 5),
        Block::Dirt => (2, 3),
        Block::Stone => (0, 0),
        Block::Wood => (5, 2),
        Block::Iron => (6, 1),
        Block::Copper => (4, 2),
        Block::Gold => (3, 1),
        Block::Water => (0, 6),
        Block::Brick => (2, 1),
        Block::Cobble => (0, 1),
        Block::Plank => (5, 3),
        Block::Gravel => (1, 2),
        Block::Tiles => (3, 4),
    }
}

pub open spec fn spec_material_name(b: Block) -> &'static str {
    match b {
        Block::Air => "air",
        Block::Grass => "grass",
        Block::Dirt => "dirt",
        Block::Stone => "stone",
        Block::Wood => "wood",
        Block::Iron => "iron",
        Block::Copper => "copper",
        Block::Gold => "gold",
        Block::Water => "water",
        Block::Brick => "brick",
        Block::Cobble => "cobble",
        Block::Plank => "plank",
        Block::Gravel => "gravel",
        Block::Tiles => "tiles",
    }
}

/// A stored block id reads back as the same block.
pub proof fn law_block_id_roundtrip(b: Block)
    ensures
        spec_block_from_u8(spec_block_id(b)) == b,
{
}

/// Placing a block by id and mining it agree: every placeable block except
/// water drops an item, and nothing placeable is air.
pub proof fn law_placeable_blocks_drop(id: u8)
    requires
        1 <= id <= 13,
        id != 8,
    ensures
        spec_is_solid(spec_block_from_u8(id)),
        spec_drops(spec_block_from_u8(id)) is Some,
{
}

} // verus!
