//! A 16³ chunk of block ids.
use vstd::prelude::*;

use super::materials::{spec_block_from_u8, spec_block_id, spec_is_solid, Block};

verus! {

pub const CHUNK_SIZE: i32 = 16;
pub const WORLD_SEED: u64 = 42;
/// Voxels in a chunk.
pub const CHUNK_VOLUME: usize = 4096;

/// Chunk coordinates (in chunks, not voxels).
#[derive(Clone, Copy, Debug, PartialEq, Eq, Structural)]
pub struct ChunkCoord {
    pub x: i32,
    pub y: i32,
    pub z: i32,
}

/// Index of local voxel `(x, y, z)`, layer by layer (`y`), then rows (`z`).
pub open spec fn voxel_index(x: int, y: int, z: int) -> Option<int> {
    if 0 <= x < 16 && 0 <= y < 16 && 0 <= z < 16 {
        Some(y * 256 + z * 16 + x)
    } else {
        None
    }
}

/// The block a heightfield column holds at world height `wy` over a surface
/// at `h`: air above, grass on top, three layers of dirt, then stone
/// (or iron where an ore vein runs).
pub open spec fn spec_terrain_block(wy: int, h: int, ore: bool) -> Block {
    if wy > h {
        Block::Air
    } else if wy == h {
        Block::Grass
    } else if wy > h - 3 {
        Block::Dirt
    } else if ore {
        Block::Iron
    } else {
        Block::Stone
    }
}

/// Offsets of the six face neighbours: +y, -y, +z, -z, +x, -x.
pub open spec fn face_offset(face: int) -> (int, int, int) {
    if face == 0 {
        (0, 1, 0)
    } else if face == 1 {
        (0, -1, 0)
    } else if face == 2 {
        (0, 0, 1)
    } else if face == 3 {
        (0, 0, -1)
    } else if face == 4 {
        (1, 0, 0)
    } else {
        (-1, 0, 0)
    }
}

#[derive(Debug)]
pub struct Chunk {
    origin: ChunkCoord,
    blocks: Vec<u8>,
}

/// The block at a local voxel; outside the chunk reads as air.
pub open spec fn block_at(blocks: Seq<u8>, x: int, y: int, z: int) -> Block {
    match voxel_index(x, y, z) {
        Some(i) => spec_block_from_u8(blocks[i]),
        None => Block::Air,
    }
}

impl Chunk {
    #[verifier::type_invariant]
    spec fn full_size(self) -> bool {
        self.blocks@.len() == CHUNK_VOLUME
    }

    /// The raw block ids, layer by layer.
    pub closed spec fn ids(self) -> Seq<u8> {
        self.blocks@
    }

    /// Which chunk of the world this is.
    pub closed spec fn coord(self) -> ChunkCoord {
        self.origin
    }

    pub fn origin(&self) -> (o: ChunkCoord)
        ensures
            o == self.coord(),
    {
        self.origin
    }

    /// An all-air chunk.
    pub fn empty(origin: ChunkCoord) -> (c: Chunk)
        ensures
            c.coord() == origin,
            c.ids() == Seq::new(CHUNK_VOLUME as nat, |i: int| 0u8),
    {
        let mut blocks: Vec<u8> = Vec::new();
        let mut i: usize = 0;
        while i < CHUNK_VOLUME
            invariant
                i <= CHUNK_VOLUME,
                blocks@ == Seq::new(i as nat, |k: int| 0u8),
            decreases CHUNK_VOLUME - i,
        {
            blocks.push(0);
            i += 1;
        }
        Chunk { origin, blocks }
    }

    fn idx(x: i32, y: i32, z: i32) -> (r: Option<usize>)
        ensures
            match r {
                Some(i) => voxel_index(x as int, y as int, z as int) == Some(i as int) && i < CHUNK_VOLUME,
                None => voxel_index(x as int, y as int, z as int) is None,
            },
    {
        if 0 <= x && x < CHUNK_SIZE && 0 <= y && y < CHUNK_SIZE && 0 <= z && z < CHUNK_SIZE {
            Some((y * CHUNK_SIZE * CHUNK_SIZE + z * CHUNK_SIZE + x) as usize)
        } else {
            None
        }
    }

    /// The block at a local voxel; outside the chunk reads as air.
    pub fn get(&self, x: i32, y: i32, z: i32) -> (b: Block)
        ensures
            b == block_at(self.ids(), x as int, y as int, z as int),
    {
        proof { use_type_invariant(self); }
        match Chunk::idx(x, y, z) {
            Some(i) => Block::from_u8(self.blocks[i]),
            None => Block::Air,
        }
    }

    /// Set a local voxel; writes outside the chunk are ignored.
    pub fn set(&mut self, x: i32, y: i32, z: i32, b: Block)
        ensures
            final(self).coord() == old(self).coord(),
            final(self).ids() == (match voxel_index(x as int, y as int, z as int) {
                Some(i) => old(self).ids().update(i, spec_block_id(b)),
                None => old(self).ids(),
            }),
    {
        proof { use_type_invariant(&*self); }
        if let Some(i) = Chunk::idx(x, y, z) {
            self.blocks[i] = b.as_u8();
        }
    }

    /// Fill local column `(x, z)` of a heightfield whose surface is at world
    /// height `h`; `ore[y]` marks an ore vein at local height `y`.
    pub fn fill_column(&mut self, x: i32, z: i32, h: i32, ore: &[bool])
        requires
            0 <= x < 16,
            0 <= z < 16,
            ore@.len() == 16,
            i32::MIN <= old(self).coord().y * 16,
            old(self).coord().y * 16 + 15 <= i32::MAX,
        ensures
            final(self).coord() == old(self).coord(),
            forall|y: int|
                0 <= y < 16 ==> #[trigger] block_at(final(self).ids(), x as int, y, z as int) == spec_terrain_block(
                    old(self).coord().y * 16 + y,
                    h as int,
                    ore@[y],
                ),
            forall|xx: int, yy: int, zz: int|
                !(xx == x && zz == z) ==> #[trigger] block_at(final(self).ids(), xx, yy, zz) == block_at(
                    old(self).ids(),
                    xx,
                    yy,
                    zz,
                ),
    {
        let base: i32 = self.origin.y * CHUNK_SIZE;
        let mut y: i32 = 0;
        while y < CHUNK_SIZE
            invariant
                0 <= y <= 16,
                0 <= x < 16,
                0 <= z < 16,
                ore@.len() == 16,
                base == self.coord().y * 16,
                base + 15 <= i32::MAX,
                self.coord() == old(self).coord(),
                forall|k: int|
                    0 <= k < y ==> #[trigger] block_at(self.ids(), x as int, k, z as int) == spec_terrain_block(
                        base + k,
                        h as int,
                        ore@[k],
                    ),
                forall|xx: int, yy: int, zz: int|
                    !(xx == x && zz == z && 0 <= yy < y) ==> #[trigger] block_at(self.ids(), xx, yy, zz)
                        == block_at(old(self).ids(), xx, yy, zz),
            decreases 16 - y,
        {
            let wy = base + y;
            let b = terrain_block(wy, h, ore[y as usize]);
            let ghost before = self.ids();
            proof {
                use_type_invariant(&*self);
            }
            self.set(x, y, z, b);
            proof {
                use_type_invariant(&*self);
                assert forall|xx: int, yy: int, zz: int|
                    !(xx == x && zz == z && 0 <= yy < y + 1) implies #[trigger] block_at(self.ids(), xx, yy, zz)
                        == block_at(old(self).ids(), xx, yy, zz) by {
                    if let Some(i) = voxel_index(xx, yy, zz) {
                        if i == y * 256 + z * 16 + x {
                            lemma_voxel_index_injective(xx, yy, zz, x as int, y as int, z as int);
                        }
                        assert(self.ids()[i] == before[i]);
                    }
                    assert(block_at(self.ids(), xx, yy, zz) == block_at(before, xx, yy, zz));
                }
                assert(block_at(self.ids(), x as int, y as int, z as int) == b);
                assert forall|k: int| 0 <= k < y + 1 implies #[trigger] block_at(self.ids(), x as int, k, z as int)
                    == spec_terrain_block(base + k, h as int, ore@[k]) by {
                    if k < y {
                        assert(block_at(before, x as int, k, z as int) == spec_terrain_block(base + k, h as int, ore@[k]));
                    }
                }
            }
            y += 1;
        }
    }

    /// Face `face` (`0..6`: +y, -y, +z, -z, +x, -x) of the solid voxel at
    /// `(x, y, z)` is drawn: its neighbour is not solid.
    pub fn face_exposed(&self, x: i32, y: i32, z: i32, face: usize) -> (r: bool)
        requires
            0 <= x < 16 && 0 <= y < 16 && 0 <= z < 16,
            face < 6,
        ensures
            r == (spec_is_solid(block_at(self.ids(), x as int, y as int, z as int)) && !spec_is_solid(
                block_at(
                    self.ids(),
                    x + face_offset(face as int).0,
                    y + face_offset(face as int).1,
                    z + face_offset(face as int).2,
                ),
            )),
    {
        if !self.get(x, y, z).is_solid() {
            return false;
        }
        let (dx, dy, dz): (i32, i32, i32) = if face == 0 {
            (0, 1, 0)
        } else if face == 1 {
            (0, -1, 0)
        } else if face == 2 {
            (0, 0, 1)
        } else if face == 3 {
            (0, 0, -1)
        } else if face == 4 {
            (1, 0, 0)
        } else {
            (-1, 0, 0)
        };
        !self.get(x + dx, y + dy, z + dz).is_solid()
    }
}

proof fn lemma_voxel_index_injective(x1: int, y1: int, z1: int, x2: int, y2: int, z2: int)
    requires
        0 <= x1 < 16 && 0 <= y1 < 16 && 0 <= z1 < 16,
        0 <= x2 < 16 && 0 <= y2 < 16 && 0 <= z2 < 16,
        y1 * 256 + z1 * 16 + x1 == y2 * 256 + z2 * 16 + x2,
    ensures
        x1 == x2 && y1 == y2 && z1 == z2,
{
    assert(y1 == y2) by (nonlinear_arith)
        requires
            0 <= x1 < 16 && 0 <= z1 < 16 && 0 <= x2 < 16 && 0 <= z2 < 16,
            y1 * 256 + z1 * 16 + x1 == y2 * 256 + z2 * 16 + x2,
    ;
    assert(z1 == z2) by (nonlinear_arith)
        requires
            0 <= x1 < 16 && 0 <= x2 < 16,
            z1 * 16 + x1 == z2 * 16 + x2,
    ;
}

/// The block a heightfield column holds at world height `wy`.
pub fn terrain_block(wy: i32, h: i32, ore: bool) -> (b: Block)
    ensures
        b == spec_terrain_block(wy as int, h as int, ore),
{
    if wy > h {
        Block::Air
    } else if wy == h {
        Block::Grass
    } else if (wy as i64) > (h as i64) - 3 {
        Block::Dirt
    } else if ore {
        Block::Iron
    } else {
        Block::Stone
    }
}

/// A chunk reads back what was written: after setting a voxel inside the
/// chunk it holds the block written, and every other voxel is unchanged.
pub proof fn law_chunk_read_after_write(ids: Seq<u8>, x: int, y: int, z: int, b: Block, x2: int, y2: int, z2: int)
    requires
        ids.len() == CHUNK_VOLUME,
        0 <= x < 16 && 0 <= y < 16 && 0 <= z < 16,
    ensures
        ({
            let after = ids.update(voxel_index(x, y, z)->0, spec_block_id(b));
            &&& block_at(after, x, y, z) == b
            &&& (x2, y2, z2) != (x, y, z) ==> block_at(after, x2, y2, z2) == block_at(ids, x2, y2, z2)
        }),
{
    crate::voxel::materials::law_block_id_roundtrip(b);
    if (x2, y2, z2) != (x, y, z) && voxel_index(x2, y2, z2) is Some {
        if y2 * 256 + z2 * 16 + x2 == y * 256 + z * 16 + x {
            lemma_voxel_index_injective(x2, y2, z2, x, y, z);
        }
    }
}

} // verus!
