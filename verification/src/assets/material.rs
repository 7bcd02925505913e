//! The albedo material library: named base-color maps, which block uses
//! which, and the cache of the maps that loaded.
use vstd::prelude::*;

use crate::settings::same_str;
use crate::voxel::materials::Block;

verus! {

pub const ROOT: &'static str = "assets/Material-LIB";
/// Maps larger than this on either side are scaled down on load.
pub const MAX_DIM: u32 = 512;
pub const MATERIAL_COUNT: usize = 18;

/// A named albedo map; the path is relative to the crate.
#[derive(Clone, Copy, Debug)]
pub struct MatDef {
    pub name: &'static str,
    pub path: &'static str,
}

/// The materials of the library, in load order.
#[derive(Clone, Copy, Debug, PartialEq, Eq, Structural)]
pub enum Material {
    Grass,
    Dirt,
    Stone,
    Rock,
    Wood,
    Planks,
    Iron,
    Copper,
    Gold,
    Water,
    Brick,
    Cobble,
    Gravel,
    Tiles,
    Medieval,
    Fabric,
    Moss,
    Sand,
}

pub open spec fn spec_mat_def(m: Material) -> MatDef {
    match m {
        Material::Grass => MatDef { name: "grass", path: "assets/Material-LIB/Nature/FoliageGrass/FoliageGrass-B.png" },
        Material::Dirt => MatDef { name: "dirt", path: "assets/Material-LIB/Nature/SurfaceSoil/SurfaceSoil-B.png" },
        Material::Stone => MatDef { name: "stone", path: "assets/Material-LIB/Nature/SurfaceStone/SurfaceStone-B.png" },
        Material::Rock => MatDef { name: "rock", path: "assets/Material-LIB/Nature/SurfaceRock/SurfaceRock-B.png" },
        Material::Wood => MatDef { name: "wood", path: "assets/Material-LIB/Nature/Bark/Bark1-B.png" },
        Material::Planks => MatDef { name: "planks", path: "assets/Material-LIB/Thatch/Thatch-B.png" },
        Material::Iron => MatDef { name: "iron", path: "assets/Material-LIB/Metal/Metal[Silver]-B.png" },
        Material::Copper => MatDef { name: "copper", path: "assets/Material-LIB/Metal/Metal[Bronze]-B.png" },
        Material::Gold => MatDef { name: "gold", path: "assets/Material-LIB/Metal/Metal[Gold]-B.png" },
        Material::Water => MatDef { name: "water", path: "assets/Material-LIB/Nature/Water/Water-B.png" },
        Material::Brick => MatDef { name: "brick", path: "assets/Material-LIB/BrickWall/BrickWall[Red]-B.png" },
        Material::Cobble => MatDef { name: "cobble", path: "assets/Material-LIB/Cobblestone/Cobblestone-B.png" },
        Material::Gravel => MatDef { name: "gravel", path: "assets/Material-LIB/Gravel/Gravel-B.png" },
        Material::Tiles => MatDef { name: "tiles", path: "assets/Material-LIB/FloorTiles/FloorTiles-B.png" },
        Material::Medieval => MatDef { name: "medieval", path: "assets/Material-LIB/MedievalTiles/MedievalTiles[Grey]-B.png" },
        Material::Fabric => MatDef { name: "fabric", path: "assets/Material-LIB/Fabric/Fabric[White]-B.png" },
        Material::Moss => MatDef { name: "moss", path: "assets/Material-LIB/Nature/Moss/Moss-B.png" },
        Material::Sand => MatDef { name: "sand", path: "assets/Material-LIB/Nature/Sand/Sand-B.png" },
    }
}

pub open spec fn spec_material_index(m: Material) -> int {
    match m {
        Material::Grass => 0,
        Material::Dirt => 1,
        Material::Stone => 2,
        Material::Rock => 3,
        Material::Wood => 4,
        Material::Planks => 5,
        Material::Iron => 6,
        Material::Copper => 7,
        Material::Gold => 8,
        Material::Water => 9,
        Material::Brick => 10,
        Material::Cobble => 11,
        Material::Gravel => 12,
        Material::Tiles => 13,
        Material::Medieval => 14,
        Material::Fabric => 15,
        Material::Moss => 16,
        Material::Sand => 17,
    }
}

pub open spec fn spec_material_at(i: int) -> Material {
    if i == 0 {
        Material::Grass
    } else if i == 1 {
        Material::Dirt
    } else if i == 2 {
        Material::Stone
    } else if i == 3 {
        Material::Rock
    } else if i == 4 {
        Material::Wood
    } else if i == 5 {
        Material::Planks
    } else if i == 6 {
        Material::Iron
    } else if i == 7 {
        Material::Copper
    } else if i == 8 {
        Material::Gold
    } else if i == 9 {
        Material::Water
    } else if i == 10 {
        Material::Brick
    } else if i == 11 {
        Material::Cobble
    } else if i == 12 {
        Material::Gravel
    } else if i == 13 {
        Material::Tiles
    } else if i == 14 {
        Material::Medieval
    } else if i == 15 {
        Material::Fabric
    } else if i == 16 {
        Material::Moss
    } else {
        Material::Sand
    }
}

/// The material a block is textured with (`Air` has none).
pub open spec fn spec_block_material(b: Block) -> Option<Material> {
    match b {
        Block::Air => None,
        Block::Grass => Some(Material::Grass),
        Block::Dirt => Some(Material::Dirt),
        Block::Stone => Some(Material::Stone),
        Block::Wood => Some(Material::Wood),
        Block::Iron => Some(Material::Iron),
        Block::Copper => Some(Material::Copper),
        Block::Gold => Some(Material::Gold),
        Block::Water => Some(Material::Water),
        Block::Brick => Some(Material::Brick),
        Block::Cobble => Some(Material::Cobble),
        Block::Plank => Some(Material::Planks),
        Block::Gravel => Some(Material::Gravel),
        Block::Tiles => Some(Material::Tiles),
    }
}

impl Material {
    pub fn def(self) -> (d: MatDef)
        ensures
            d == spec_mat_def(self),
    {
        match self {
            Material::Grass => MatDef { name: "grass", path: "assets/Material-LIB/Nature/FoliageGrass/FoliageGrass-B.png" },
            Material::Dirt => MatDef { name: "dirt", path: "assets/Material-LIB/Nature/SurfaceSoil/SurfaceSoil-B.png" },
            Material::Stone => MatDef { name: "stone", path: "assets/Material-LIB/Nature/SurfaceStone/SurfaceStone-B.png" },
            Material::Rock => MatDef { name: "rock", path: "assets/Material-LIB/Nature/SurfaceRock/SurfaceRock-B.png" },
            Material::Wood => MatDef { name: "wood", path: "assets/Material-LIB/Nature/Bark/Bark1-B.png" },
            Material::Planks => MatDef { name: "planks", path: "assets/Material-LIB/Thatch/Thatch-B.png" },
            Material::Iron => MatDef { name: "iron", path: "assets/Material-LIB/Metal/Metal[Silver]-B.png" },
            Material::Copper => MatDef { name: "copper", path: "assets/Material-LIB/Metal/Metal[Bronze]-B.png" },
            Material::Gold => MatDef { name: "gold", path: "assets/Material-LIB/Metal/Metal[Gold]-B.png" },
            Material::Water => MatDef { name: "water", path: "assets/Material-LIB/Nature/Water/Water-B.png" },
            Material::Brick => MatDef { name: "brick", path: "assets/Material-LIB/BrickWall/BrickWall[Red]-B.png" },
            Material::Cobble => MatDef { name: "cobble", path: "assets/Material-LIB/Cobblestone/Cobblestone-B.png" },
            Material::Gravel => MatDef { name: "gravel", path: "assets/Material-LIB/Gravel/Gravel-B.png" },
            Material::Tiles => MatDef { name: "tiles", path: "assets/Material-LIB/FloorTiles/FloorTiles-B.png" },
            Material::Medieval => MatDef { name: "medieval", path: "assets/Material-LIB/MedievalTiles/MedievalTiles[Grey]-B.png" },
            Material::Fabric => MatDef { name: "fabric", path: "assets/Material-LIB/Fabric/Fabric[White]-B.png" },
            Material::Moss => MatDef { name: "moss", path: "assets/Material-LIB/Nature/Moss/Moss-B.png" },
            Material::Sand => MatDef { name: "sand", path: "assets/Material-LIB/Nature/Sand/Sand-B.png" },
        }
    }

    /// Its place in load order.
    pub fn index(self) -> (i: usize)
        ensures
            i == spec_material_index(self),
            i < MATERIAL_COUNT,
            spec_material_at(i as int) == self,
    {
        match self {
            Material::Grass => 0,
            Material::Dirt => 1,
            Material::Stone => 2,
            Material::Rock => 3,
            Material::Wood => 4,
            Material::Planks => 5,
            Material::Iron => 6,
            Material::Copper => 7,
            Material::Gold => 8,
            Material::Water => 9,
            Material::Brick => 10,
            Material::Cobble => 11,
            Material::Gravel => 12,
            Material::Tiles => 13,
            Material::Medieval => 14,
            Material::Fabric => 15,
            Material::Moss => 16,
            Material::Sand => 17,
        }
    }

    /// The material at place `i` of the load order.
    pub fn at(i: usize) -> (m: Material)
        requires
            i < MATERIAL_COUNT,
        ensures
            m == spec_material_at(i as int),
            spec_material_index(m) == i,
    {
        if i == 0 {
            Material::Grass
        } else if i == 1 {
            Material::Dirt
        } else if i == 2 {
            Material::Stone
        } else if i == 3 {
            Material::Rock
        } else if i == 4 {
            Material::Wood
        } else if i == 5 {
            Material::Planks
        } else if i == 6 {
            Material::Iron
        } else if i == 7 {
            Material::Copper
        } else if i == 8 {
            Material::Gold
        } else if i == 9 {
            Material::Water
        } else if i == 10 {
            Material::Brick
        } else if i == 11 {
            Material::Cobble
        } else if i == 12 {
            Material::Gravel
        } else if i == 13 {
            Material::Tiles
        } else if i == 14 {
            Material::Medieval
        } else if i == 15 {
            Material::Fabric
        } else if i == 16 {
            Material::Moss
        } else {
            Material::Sand
        }
    }
}

/// Every material definition, in load order.
pub fn all_materials() -> (r: Vec<MatDef>)
    ensures
        r@.len() == MATERIAL_COUNT,
        forall|i: int| 0 <= i < MATERIAL_COUNT ==> #[trigger] r@[i] == spec_mat_def(spec_material_at(i)),
{
    let mut r: Vec<MatDef> = Vec::new();
    let mut i: usize = 0;
    while i < MATERIAL_COUNT
        invariant
            i <= MATERIAL_COUNT,
            r@.len() == i,
            forall|k: int| 0 <= k < i ==> #[trigger] r@[k] == spec_mat_def(spec_material_at(k)),
        decreases MATERIAL_COUNT - i,
    {
        r.push(Material::at(i).def());
        i += 1;
    }
    r
}

/// The material a block is textured with; `Air` has none.
pub fn block_material(block: Block) -> (r: Option<MatDef>)
    ensures
        r == (match spec_block_material(block) {
            Some(m) => Some(spec_mat_def(m)),
            None => None,
        }),
{
    match block_material_of(block) {
        Some(m) => Some(m.def()),
        None => None,
    }
}

fn block_material_of(block: Block) -> (r: Option<Material>)
    ensures
        r == spec_block_material(block),
{
    match block {
        Block::Air => None,
        Block::Grass => Some(Material::Grass),
        Block::Dirt => Some(Material::Dirt),
        Block::Stone => Some(Material::Stone),
        Block::Wood => Some(Material::Wood),
        Block::Iron => Some(Material::Iron),
        Block::Copper => Some(Material::Copper),
        Block::Gold => Some(Material::Gold),
        Block::Water => Some(Material::Water),
        Block::Brick => Some(Material::Brick),
        Block::Cobble => Some(Material::Cobble),
        Block::Plank => Some(Material::Planks),
        Block::Gravel => Some(Material::Gravel),
        Block::Tiles => Some(Material::Tiles),
    }
}

/// The first material, in load order, named `name`.
pub open spec fn name_slot_from(name: Seq<char>, i: int) -> Option<int>
    decreases MATERIAL_COUNT - i,
{
    if i < 0 || i >= MATERIAL_COUNT {
        None
    } else if spec_mat_def(spec_material_at(i)).name@ == name {
        Some(i)
    } else {
        name_slot_from(name, i + 1)
    }
}

pub open spec fn name_slot(name: Seq<char>) -> Option<int> {
    name_slot_from(name, 0)
}

/// The albedo maps that loaded, by material: `(width, height, rgba bytes)`.
pub struct MatCache {
    maps: Vec<Option<(u32, u32, Vec<u8>)>>,
}

impl MatCache {
    #[verifier::type_invariant]
    spec fn one_per_material(self) -> bool {
        self.maps@.len() == MATERIAL_COUNT
    }

    /// The map of each material, in load order (`None`: it did not load).
    pub closed spec fn maps(self) -> Seq<Option<(u32, u32, Vec<u8>)>> {
        self.maps@
    }

    /// The map cached under `name`.
    pub open spec fn cached(self, name: Seq<char>) -> Option<(u32, u32, Vec<u8>)> {
        match name_slot(name) {
            Some(i) => self.maps()[i],
            None => None,
        }
    }

    /// The map a block is drawn with.
    pub open spec fn block_map(self, b: Block) -> Option<(u32, u32, Vec<u8>)> {
        match spec_block_material(b) {
            Some(m) => self.maps()[spec_material_index(m)],
            None => None,
        }
    }

    /// Build the cache from the result of loading each material in load
    /// order; a missing entry counts as a map that did not load.
    pub fn load(loaded: Vec<Option<(u32, u32, Vec<u8>)>>) -> (c: MatCache)
        ensures
            c.maps().len() == MATERIAL_COUNT,
            forall|i: int|
                0 <= i < MATERIAL_COUNT ==> #[trigger] c.maps()[i] == (if i < loaded@.len() {
                    loaded@[i]
                } else {
                    None
                }),
    {
        let mut loaded = loaded;
        let ghost given = loaded@;
        if loaded.len() > MATERIAL_COUNT {
            loaded.truncate(MATERIAL_COUNT);
        }
        while loaded.len() < MATERIAL_COUNT
            invariant
                loaded@.len() <= MATERIAL_COUNT,
                loaded@.len() < MATERIAL_COUNT ==> loaded@.len() >= given.len(),
                forall|i: int|
                    0 <= i < loaded@.len() ==> #[trigger] loaded@[i] == (if i < given.len() {
                        given[i]
                    } else {
                        None
                    }),
            decreases MATERIAL_COUNT - loaded@.len(),
        {
            loaded.push(None);
        }
        MatCache { maps: loaded }
    }

    /// The map of `block`'s material, if it loaded.
    pub fn block(&self, b: Block) -> (r: Option<&(u32, u32, Vec<u8>)>)
        ensures
            r is Some <==> self.block_map(b) is Some,
            r is Some ==> Some(*r->0) == self.block_map(b),
    {
        proof {
            use_type_invariant(self);
        }
        match block_material_of(b) {
            Some(m) => self.maps[m.index()].as_ref(),
            None => None,
        }
    }

    /// The map named `name`, if it loaded.
    pub fn named(&self, name: &str) -> (r: Option<&(u32, u32, Vec<u8>)>)
        ensures
            r is Some <==> self.cached(name@) is Some,
            r is Some ==> Some(*r->0) == self.cached(name@),
    {
        proof {
            use_type_invariant(self);
        }
        let mut i: usize = 0;
        while i < MATERIAL_COUNT
            invariant
                i <= MATERIAL_COUNT,
                name_slot(name@) == name_slot_from(name@, i as int),
                self.maps@.len() == MATERIAL_COUNT,
            decreases MATERIAL_COUNT - i,
        {
            if same_str(Material::at(i).def().name, name) {
                return self.maps[i].as_ref();
            }
            i += 1;
        }
        None
    }

    /// The map named `name`, or a one-pixel map of `color`.
    pub fn or_solid(&self, name: &str, color: [u8; 4]) -> (r: (u32, u32, Vec<u8>))
        ensures
            match self.cached(name@) {
                Some(p) => r.0 == p.0 && r.1 == p.1 && r.2@ == p.2@,
                None => r.0 == 1 && r.1 == 1 && r.2@ == color@,
            },
    {
        match self.named(name) {
            Some(p) => {
                let px = p.2.clone();
                assert(px@ =~= p.2@);
                (p.0, p.1, px)
            },
            None => {
                let mut px: Vec<u8> = Vec::new();
                px.push(color[0]);
                px.push(color[1]);
                px.push(color[2]);
                px.push(color[3]);
                assert(px@ =~= color@);
                (1, 1, px)
            },
        }
    }
}

/// The search for a name stops at the first material that has it.
proof fn lemma_slot_from(name: Seq<char>, i: int, k: int)
    requires
        0 <= i <= k < MATERIAL_COUNT,
        spec_mat_def(spec_material_at(k)).name@ == name,
        forall|j: int| i <= j < k ==> spec_mat_def(spec_material_at(j)).name@ != name,
    ensures
        name_slot_from(name, i) == Some(k),
    decreases k - i,
{
    if i < k {
        lemma_slot_from(name, i + 1, k);
    }
}

/// Every material's name leads back to that material: the names of the
/// library are distinct.
proof fn lemma_name_slot(m: Material)
    ensures
        name_slot(spec_mat_def(m).name@) == Some(spec_material_index(m)),
{
    reveal_strlit("grass");
    reveal_strlit("dirt");
    reveal_strlit("stone");
    reveal_strlit("rock");
    reveal_strlit("wood");
    reveal_strlit("planks");
    reveal_strlit("iron");
    reveal_strlit("copper");
    reveal_strlit("gold");
    reveal_strlit("water");
    reveal_strlit("brick");
    reveal_strlit("cobble");
    reveal_strlit("gravel");
    reveal_strlit("tiles");
    reveal_strlit("medieval");
    reveal_strlit("fabric");
    reveal_strlit("moss");
    reveal_strlit("sand");
    let k = spec_material_index(m);
    let name = spec_mat_def(m).name@;
    assert forall|j: int| 0 <= j < k implies spec_mat_def(spec_material_at(j)).name@ != name by {
        if spec_mat_def(spec_material_at(j)).name@ == name {
            assert(spec_mat_def(spec_material_at(j)).name@[0] == name[0]);
            assert(spec_mat_def(spec_material_at(j)).name@.len() == name.len());
            assert(spec_mat_def(spec_material_at(j)).name@[1] == name[1]);
            assert(spec_mat_def(spec_material_at(j)).name@[2] == name[2]);
            assert(spec_mat_def(spec_material_at(j)).name@[3] == name[3]);
        }
    }
    lemma_slot_from(name, 0, k);
}

/// The map a block is drawn with is the map cached under the name of its
/// material, and `Air` has none: looking a block up by material and by
/// name agree for every block.
pub proof fn law_block_agrees_with_named(c: MatCache, b: Block)
    ensures
        c.block_map(b) == (match spec_block_material(b) {
            Some(m) => c.cached(spec_mat_def(m).name@),
            None => None,
        }),
{
    if let Some(m) = spec_block_material(b) {
        lemma_name_slot(m);
    }
}

/// What decoding an image file gives: its width, height and RGBA bytes, or
/// nothing when the bytes are no image the decoder reads.
pub uninterp spec fn decoded_rgba(file: Seq<u8>) -> Option<(u32, u32, Seq<u8>)>;

/// What resampling a `w`×`h` RGBA map to `nw`×`nh` with the triangle filter
/// gives.
pub uninterp spec fn resized_rgba(w: u32, h: u32, px: Seq<u8>, nw: u32, nh: u32) -> Seq<u8>;

/// `image::load_from_memory` followed by `to_rgba8`: the image's size and
/// its pixels as RGBA bytes, four per pixel, row by row; `None` where the
/// decoder refuses the bytes. The contract names the result and states the
/// buffer length that an RGBA image buffer of that size has.
#[verifier::external_body]
fn decode_rgba(file: &[u8]) -> (r: Option<(u32, u32, Vec<u8>)>)
    ensures
        match r {
            Some((w, h, px)) => decoded_rgba(file@) == Some((w, h, px@)) && px@.len() == 4 * w * h,
            None => decoded_rgba(file@) is None,
        },
{
    match image::load_from_memory(file) {
        Ok(img) => {
            let rgba = img.to_rgba8();
            let (w, h) = rgba.dimensions();
            Some((w, h, rgba.into_raw()))
        },
        Err(_) => None,
    }
}

/// `image::imageops::resize` with the triangle filter on the RGBA map
/// `px` of `w`×`h`: the `nw`×`nh` map, four bytes per pixel. The buffer is
/// built with `RgbaImage::from_raw`, which accepts `px` since it holds
/// exactly `4 * w * h` bytes. The resampler allocates a `w`×`nh` map of
/// four `f32` channels and the `nw`×`nh` result, and panics where their
/// size overflows, so both are bounded.
#[verifier::external_body]
fn resize_rgba(w: u32, h: u32, px: Vec<u8>, nw: u32, nh: u32) -> (r: Vec<u8>)
    requires
        px@.len() == 4 * w * h,
        nw >= 1,
        nh >= 1,
        16 * w * nh <= isize::MAX,
        4 * nw * nh <= isize::MAX,
    ensures
        r@ == resized_rgba(w, h, px@, nw, nh),
        r@.len() == 4 * nw * nh,
{
    let img = image::RgbaImage::from_raw(w, h, px).expect("buffer holds the whole map");
    image::imageops::resize(&img, nw, nh, image::imageops::FilterType::Triangle).into_raw()
}

/// Decode a base-color map from the bytes of its file.
pub fn decode_albedo(file: &[u8]) -> (r: Option<(u32, u32, Vec<u8>)>)
    ensures
        match r {
            Some((w, h, px)) => decoded_rgba(file@) == Some((w, h, px@)) && px@.len() == 4 * w * h,
            None => decoded_rgba(file@) is None,
        },
{
    decode_rgba(file)
}

/// Keep a decoded map within `MAX_DIM` a side: a map that fits is kept as
/// it is, a larger one is resampled to `nw`×`nh` (the size the caller
/// scaled it to).
pub fn fit_albedo(w: u32, h: u32, px: Vec<u8>, nw: u32, nh: u32) -> (r: (u32, u32, Vec<u8>))
    requires
        px@.len() == 4 * w * h,
        nw >= 1,
        nh >= 1,
        16 * w * nh <= isize::MAX,
        4 * nw * nh <= isize::MAX,
    ensures
        w <= MAX_DIM && h <= MAX_DIM ==> r.0 == w && r.1 == h && r.2@ == px@,
        !(w <= MAX_DIM && h <= MAX_DIM) ==> r.0 == nw && r.1 == nh && r.2@ == resized_rgba(w, h, px@, nw, nh)
            && r.2@.len() == 4 * nw * nh,
{
    if w <= MAX_DIM && h <= MAX_DIM {
        return (w, h, px);
    }
    let out = resize_rgba(w, h, px, nw, nh);
    (nw, nh, out)
}

} // verus!
