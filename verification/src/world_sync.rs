//! Keeps the scene's loot and station nodes in step with the item view:
//! which node stands for which loot drop or station.
use std::collections::HashMap;
use vstd::prelude::*;

use crate::items::station::StationKind;
use crate::meshes::{spec_station_body, ItemMeshes};
use crate::scene::{ObjectId, StationMeshes};

verus! {

broadcast use vstd::std_specs::hash::group_hash_axioms;

/// The scene node of each loot drop and station shown, by its id.
pub struct WorldSync {
    loot: HashMap<u64, ObjectId>,
    stations: HashMap<u64, ObjectId>,
}

/// Whether `id` is among `live`.
pub open spec fn is_live(live: Seq<u64>, id: u64) -> bool {
    exists|i: int| 0 <= i < live.len() && live[i] == id
}

/// The meshes a station of `kind` is drawn with: its body, the lid for a
/// chest and the ember glow for a furnace.
pub open spec fn spec_station_meshes(m: &ItemMeshes, kind: StationKind) -> StationMeshes {
    StationMeshes {
        body: spec_station_body(m, kind),
        lid: if kind == StationKind::Chest { Some(m.chest_lid) } else { None },
        ember: if kind == StationKind::Furnace { Some(m.ember) } else { None },
    }
}

pub fn station_meshes(m: &ItemMeshes, kind: StationKind) -> (r: StationMeshes)
    ensures
        r == spec_station_meshes(m, kind),
{
    StationMeshes {
        body: m.station_body(kind),
        lid: if kind == StationKind::Chest { Some(m.chest_lid) } else { None },
        ember: if kind == StationKind::Furnace { Some(m.ember) } else { None },
    }
}

fn contains_id(live: &[u64], id: u64) -> (r: bool)
    ensures
        r == is_live(live@, id),
{
    let mut i: usize = 0;
    while i < live.len()
        invariant
            i <= live@.len(),
            forall|k: int| 0 <= k < i ==> live@[k] != id,
        decreases live@.len() - i,
    {
        if live[i] == id {
            return true;
        }
        i += 1;
    }
    false
}

impl WorldSync {
    /// The node of each loot drop shown.
    pub closed spec fn loot_nodes(&self) -> Map<u64, ObjectId> {
        self.loot@
    }

    /// The node of each station shown.
    pub closed spec fn station_nodes(&self) -> Map<u64, ObjectId> {
        self.stations@
    }

    /// Nothing shown yet.
    pub fn new() -> (s: WorldSync)
        ensures
            s.loot_nodes() == Map::<u64, ObjectId>::empty(),
            s.station_nodes() == Map::<u64, ObjectId>::empty(),
    {
        WorldSync { loot: HashMap::new(), stations: HashMap::new() }
    }

    /// Forget every loot drop that is no longer live and hand back its id and
    /// node (in no particular order), so that the node leaves the scene.
    pub fn prune_loot(&mut self, live: &[u64]) -> (gone: Vec<(u64, ObjectId)>)
        ensures
            final(self).loot_nodes() == old(self).loot_nodes().restrict(
                old(self).loot_nodes().dom().filter(|id: u64| is_live(live@, id)),
            ),
            final(self).station_nodes() == old(self).station_nodes(),
            forall|i: int|
                0 <= i < gone@.len() ==> {
                    &&& old(self).loot_nodes().contains_key(#[trigger] gone@[i].0)
                    &&& !is_live(live@, gone@[i].0)
                    &&& old(self).loot_nodes()[gone@[i].0] == gone@[i].1
                },
            forall|id: u64|
                old(self).loot_nodes().contains_key(id) && !is_live(live@, id) ==> exists|i: int|
                    0 <= i < gone@.len() && #[trigger] gone@[i].0 == id,
            forall|i: int, j: int| 0 <= i < j < gone@.len() ==> gone@[i].0 != gone@[j].0,
    {
        let ghost old_map = self.loot@;
        let mut gone: Vec<(u64, ObjectId)> = Vec::new();
        let ghost mut at_seq: Seq<int> = Seq::empty();
        for k in iter: self.loot.keys()
            invariant
                self.loot@ == old_map,
                iter.seq().unref().to_set() == old_map.dom(),
                iter.seq().no_duplicates(),
                forall|i: int|
                    0 <= i < gone@.len() ==> {
                        &&& old_map.contains_key(#[trigger] gone@[i].0)
                        &&& !is_live(live@, gone@[i].0)
                        &&& old_map[gone@[i].0] == gone@[i].1
                    },
                at_seq.len() == gone@.len(),
                forall|i: int|
                    0 <= i < gone@.len() ==> 0 <= #[trigger] at_seq[i] < iter.index() && gone@[i].0
                        == *iter.seq()[at_seq[i]],
                forall|j: int|
                    0 <= j < iter.index() && !is_live(live@, *iter.seq()[j]) ==> exists|i: int|
                        0 <= i < gone@.len() && #[trigger] gone@[i].0 == *iter.seq()[j],
                forall|i: int, j: int| 0 <= i < j < gone@.len() ==> gone@[i].0 != gone@[j].0,
        {
            let id = *k;
            let ghost at = iter.index();
            assert(id == *iter.seq()[at]);
            let ghost before = gone@;
            if !contains_id(live, id) {
                let node = match self.loot.get(&id) {
                    Some(n) => *n,
                    None => ObjectId(0),
                };
                proof {
                    assert forall|i: int| 0 <= i < before.len() implies before[i].0 != id by {
                        assert(iter.seq()[at_seq[i]] != iter.seq()[at]);
                    }
                }
                gone.push((id, node));
                proof {
                    at_seq = at_seq.push(at);
                }
                assert(gone@[before.len() as int].0 == *iter.seq()[at]);
            }
            assert(forall|i: int| 0 <= i < before.len() ==> gone@[i] == before[i]);
        }
        let mut i: usize = 0;
        while i < gone.len()
            invariant
                i <= gone@.len(),
                self.loot@ == old_map.remove_keys(Set::new(|id: u64| exists|j: int| 0 <= j < i && gone@[j].0 == id)),
                self.stations@ == old(self).stations@,
            decreases gone@.len() - i,
        {
            self.loot.remove(&gone[i].0);
            i += 1;
        }
        gone
    }

    /// The node showing loot drop `id`.
    pub fn loot_node(&self, id: u64) -> (r: Option<ObjectId>)
        ensures
            r == (if self.loot_nodes().contains_key(id) {
                Some(self.loot_nodes()[id])
            } else {
                None
            }),
    {
        match self.loot.get(&id) {
            Some(n) => Some(*n),
            None => None,
        }
    }

    /// Remember that `node` shows loot drop `id`.
    pub fn track_loot(&mut self, id: u64, node: ObjectId)
        ensures
            final(self).loot_nodes() == old(self).loot_nodes().insert(id, node),
            final(self).station_nodes() == old(self).station_nodes(),
    {
        self.loot.insert(id, node);
    }

    /// Whether station `id` is shown.
    pub fn shows_station(&self, id: u64) -> (r: bool)
        ensures
            r == self.station_nodes().contains_key(id),
    {
        self.stations.contains_key(&id)
    }

    /// Remember that `node` shows station `id`.
    pub fn track_station(&mut self, id: u64, node: ObjectId)
        ensures
            final(self).station_nodes() == old(self).station_nodes().insert(id, node),
            final(self).loot_nodes() == old(self).loot_nodes(),
    {
        self.stations.insert(id, node);
    }
}

impl Default for WorldSync {
    fn default() -> (s: Self)
        ensures
            s.loot_nodes() == Map::<u64, ObjectId>::empty(),
            s.station_nodes() == Map::<u64, ObjectId>::empty(),
    {
        WorldSync::new()
    }
}

} // verus!
