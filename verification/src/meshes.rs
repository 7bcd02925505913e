//! Which uploaded model draws an item, a placed block or a station.
use std::collections::HashMap;
use vstd::prelude::*;

use crate::items::catalog::{pick_tier, spec_def, ItemId};
use crate::items::station::StationKind;
use crate::scene::ModelHandle;
use crate::settings::same_str;

verus! {

broadcast use vstd::std_specs::hash::group_hash_axioms;

/// The first model stored under `stem`.
pub open spec fn mesh_lookup(entries: Seq<(String, ModelHandle)>, stem: Seq<char>) -> Option<ModelHandle>
    decreases entries.len(),
{
    if entries.len() == 0 {
        None
    } else if entries[0].0@ == stem {
        Some(entries[0].1)
    } else {
        mesh_lookup(entries.drop_first(), stem)
    }
}

/// The item models: an icon per item id, a model per mesh stem, the block
/// models of placeable items, and the station bodies.
pub struct ItemMeshes {
    pub by_item: HashMap<u16, ModelHandle>,
    pub by_mesh: Vec<(String, ModelHandle)>,
    pub chest_body: ModelHandle,
    pub chest_lid: ModelHandle,
    pub furnace: ModelHandle,
    pub ember: ModelHandle,
    pub workbench: ModelHandle,
    pub block_by_item: HashMap<u16, ModelHandle>,
}

/// The icon model stored for `id`.
pub open spec fn icon_of(m: &ItemMeshes, id: ItemId) -> Option<ModelHandle> {
    if m.by_item@.contains_key(id.0) {
        Some(m.by_item@[id.0])
    } else {
        None
    }
}

/// The model a stack of `count` of `id` is drawn with: the mesh of its
/// stack-size tier when one was loaded, else its icon.
pub open spec fn visual_of(m: &ItemMeshes, id: ItemId, count: u16) -> Option<ModelHandle> {
    let stem = pick_tier(spec_def(id).tiers@, spec_def(id).mesh, count)@;
    if stem.len() > 0 && mesh_lookup(m.by_mesh@, stem) is Some {
        mesh_lookup(m.by_mesh@, stem)
    } else {
        icon_of(m, id)
    }
}

pub open spec fn spec_station_body(m: &ItemMeshes, kind: StationKind) -> ModelHandle {
    match kind {
        StationKind::Chest => m.chest_body,
        StationKind::Furnace => m.furnace,
        StationKind::Workbench => m.workbench,
    }
}

impl ItemMeshes {
    /// No item models yet; the station models given.
    pub fn new(
        chest_body: ModelHandle,
        chest_lid: ModelHandle,
        furnace: ModelHandle,
        ember: ModelHandle,
        workbench: ModelHandle,
    ) -> (m: ItemMeshes)
        ensures
            m.by_item@ == Map::<u16, ModelHandle>::empty(),
            m.by_mesh@ == Seq::<(String, ModelHandle)>::empty(),
            m.block_by_item@ == Map::<u16, ModelHandle>::empty(),
            m.chest_body == chest_body && m.chest_lid == chest_lid && m.furnace == furnace,
            m.ember == ember && m.workbench == workbench,
    {
        ItemMeshes {
            by_item: HashMap::new(),
            by_mesh: Vec::new(),
            chest_body,
            chest_lid,
            furnace,
            ember,
            workbench,
            block_by_item: HashMap::new(),
        }
    }

    /// The model stored under mesh stem `stem`.
    pub fn mesh(&self, stem: &str) -> (r: Option<ModelHandle>)
        ensures
            r == mesh_lookup(self.by_mesh@, stem@),
    {
        let mut i: usize = 0;
        assert(self.by_mesh@.skip(0) =~= self.by_mesh@);
        while i < self.by_mesh.len()
            invariant
                i <= self.by_mesh@.len(),
                mesh_lookup(self.by_mesh@, stem@) == mesh_lookup(self.by_mesh@.skip(i as int), stem@),
            decreases self.by_mesh@.len() - i,
        {
            assert(self.by_mesh@.skip(i as int).drop_first() =~= self.by_mesh@.skip(i + 1));
            if same_str(self.by_mesh[i].0.as_str(), stem) {
                return Some(self.by_mesh[i].1);
            }
            i += 1;
        }
        None
    }

    /// Store `h` under mesh stem `stem` unless the stem already has a model.
    pub fn add_mesh(&mut self, stem: &str, h: ModelHandle)
        ensures
            mesh_lookup(old(self).by_mesh@, stem@) is Some ==> final(self).by_mesh@ == old(self).by_mesh@,
            mesh_lookup(old(self).by_mesh@, stem@) is None ==> final(self).by_mesh@.len() == old(self).by_mesh@.len() + 1
                && final(self).by_mesh@.drop_last() == old(self).by_mesh@ && final(self).by_mesh@.last().0@ == stem@
                && final(self).by_mesh@.last().1 == h,
            final(self).by_item@ == old(self).by_item@,
            final(self).block_by_item@ == old(self).block_by_item@,
    {
        if self.mesh(stem).is_none() {
            self.by_mesh.push((String::from_str(stem), h));
        }
    }

    /// The model of a stack of `count` of `id`.
    pub fn visual(&self, id: ItemId, count: u16) -> (r: Option<ModelHandle>)
        ensures
            r == visual_of(self, id, count),
    {
        let stem = id.visual_mesh(count);
        proof {
            reveal_strlit("");
        }
        if !same_str(stem, "") {
            assert(stem@.len() > 0) by {
                if stem@.len() == 0 {
                    assert(stem@ =~= ""@);
                }
            }
            if let Some(h) = self.mesh(stem) {
                return Some(h);
            }
        }
        match self.by_item.get(&id.0) {
            Some(h) => Some(*h),
            None => None,
        }
    }

    /// The model of one `id`.
    pub fn item(&self, id: ItemId) -> (r: Option<ModelHandle>)
        ensures
            r == visual_of(self, id, 1),
    {
        self.visual(id, 1)
    }

    /// The block model of a placeable `id`, else the model of one `id`.
    pub fn block_of(&self, id: ItemId) -> (r: Option<ModelHandle>)
        ensures
            r == (if self.block_by_item@.contains_key(id.0) {
                Some(self.block_by_item@[id.0])
            } else {
                visual_of(self, id, 1)
            }),
    {
        match self.block_by_item.get(&id.0) {
            Some(h) => Some(*h),
            None => self.visual(id, 1),
        }
    }

    pub fn station_body(&self, kind: StationKind) -> (h: ModelHandle)
        ensures
            h == spec_station_body(self, kind),
    {
        match kind {
            StationKind::Chest => self.chest_body,
            StationKind::Furnace => self.furnace,
            StationKind::Workbench => self.workbench,
        }
    }
}

} // verus!
