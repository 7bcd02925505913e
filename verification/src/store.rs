//! Single-player item store: the bag, world loot piles and stations, with the
//! same rules the server applies. Positions and timing stay with the caller:
//! loot and stations are identified by id, and the caller keeps where each id is.
use vstd::prelude::*;

use crate::items::catalog::{spec_def, ItemId, BAG_SLOTS};
use crate::items::codec::{dec_chars, encode_chars, encode_slots, push_decimal};
use crate::items::logic::{
    counts_fit, first_compatible, first_nonempty, first_where, furnace_cooks, furnace_step, has_inputs,
    insert_of, insert_stack, minus_one, pay_of, step_furnace, take_inputs, take_one,
};
use crate::items::recipe::{
    recipe_by_id, recipe_table, recipes_for, spec_recipe_by_id, CraftStation, Recipe,
};
use crate::items::stack::{
    absorb_of, empty_bag, empty_slots, empty_stack, is_empty_stack, new_stack, space_of, Stack,
};
use crate::items::station::{
    spec_accepts, spec_craft_station, spec_kind_slots, spec_slot_role, SlotRole, StationKind,
};
use crate::server::{default_loot, default_loot_kit, default_station_kinds, default_stations,
    insert_all, starter_kit, starter_kit_items};

verus! {

/// A loot pile on the ground (its position is kept by the caller).
#[derive(Clone, Copy, Debug)]
pub struct LootView {
    pub id: u64,
    pub stack: Stack,
}

/// A placed station (its position and rotation are kept by the caller).
#[derive(Debug)]
pub struct StationView {
    pub id: u64,
    pub kind: StationKind,
    pub slots: Vec<Stack>,
    pub fuel: u32,
    pub cook: u32,
}

/// The plain content of a station.
pub struct StationModel {
    pub id: u64,
    pub kind: StationKind,
    pub slots: Seq<Stack>,
    pub fuel: u32,
    pub cook: u32,
}

impl View for StationView {
    type V = StationModel;

    open spec fn view(&self) -> StationModel {
        StationModel { id: self.id, kind: self.kind, slots: self.slots@, fuel: self.fuel, cook: self.cook }
    }
}

impl StationView {
    /// An independent copy.
    pub fn duplicate(&self) -> (r: StationView)
        ensures
            r@ == self@,
    {
        let mut slots: Vec<Stack> = Vec::new();
        let mut i: usize = 0;
        while i < self.slots.len()
            invariant
                i <= self.slots@.len(),
                slots@ == self.slots@.take(i as int),
            decreases self.slots@.len() - i,
        {
            slots.push(self.slots[i]);
            i += 1;
        }
        assert(slots@ =~= self.slots@);
        StationView { id: self.id, kind: self.kind, slots, fuel: self.fuel, cook: self.cook }
    }
}

pub open spec fn station_models(s: Seq<StationView>) -> Seq<StationModel> {
    s.map_values(|v: StationView| v@)
}

/// A snapshot of everything the HUD shows.
#[derive(Debug)]
pub struct ItemView {
    pub bag: Vec<Stack>,
    pub selected: usize,
    pub loot: Vec<LootView>,
    pub stations: Vec<StationView>,
    pub open_station: Option<u64>,
    pub recipe_cursor: usize,
    pub last_log: String,
}

/// Address of one inventory cell: bag and station slots share one code path.
#[derive(Clone, Copy, Debug, PartialEq, Eq, Structural)]
pub enum SlotRef {
    /// Player bag / hotbar index.
    Bag(usize),
    /// Slot of the open station.
    Station(usize),
}

pub open spec fn spec_role(slot: SlotRef, station: Option<StationKind>) -> SlotRole {
    match slot {
        SlotRef::Bag(_) => SlotRole::Any,
        SlotRef::Station(i) => match station {
            Some(k) => spec_slot_role(k, i),
            None => SlotRole::Any,
        },
    }
}

impl SlotRef {
    /// What the cell accepts, given the open station's kind.
    pub fn role(self, station: Option<StationKind>) -> (r: SlotRole)
        ensures
            r == spec_role(self, station),
    {
        match self {
            SlotRef::Bag(_) => SlotRole::Any,
            SlotRef::Station(i) => match station {
                Some(k) => k.slot_role(i),
                None => SlotRole::Any,
            },
        }
    }
}

/// Position of the station with `id`, if any.
pub open spec fn station_pos(s: Seq<StationModel>, id: u64) -> Option<int>
    decreases s.len(),
{
    if s.len() == 0 {
        None
    } else if s[0].id == id {
        Some(0)
    } else {
        match station_pos(s.drop_first(), id) {
            Some(k) => Some(k + 1),
            None => None,
        }
    }
}

/// Position of the loot pile with `id`, if any.
pub open spec fn loot_index(s: Seq<LootView>, id: u64) -> Option<int>
    decreases s.len(),
{
    if s.len() == 0 {
        None
    } else if s[0].id == id {
        Some(0)
    } else {
        match loot_index(s.drop_first(), id) {
            Some(k) => Some(k + 1),
            None => None,
        }
    }
}

proof fn lemma_station_index(s: Seq<StationModel>, id: u64, i: int)
    requires
        0 <= i < s.len(),
        s[i].id == id,
        forall|k: int| 0 <= k < i ==> (#[trigger] s[k]).id != id,
    ensures
        station_pos(s, id) == Some(i),
    decreases i,
{
    if i > 0 {
        lemma_station_index(s.drop_first(), id, i - 1);
    }
}

proof fn lemma_station_index_none(s: Seq<StationModel>, id: u64)
    requires
        forall|k: int| 0 <= k < s.len() ==> (#[trigger] s[k]).id != id,
    ensures
        station_pos(s, id) == None::<int>,
    decreases s.len(),
{
    if s.len() > 0 {
        lemma_station_index_none(s.drop_first(), id);
    }
}

/// Where `station_pos` points: at a station with that id.
pub proof fn lemma_station_index_bound(s: Seq<StationModel>, id: u64)
    ensures
        station_pos(s, id) matches Some(k) ==> 0 <= k < s.len() && s[k].id == id,
    decreases s.len(),
{
    if s.len() > 0 {
        lemma_station_index_bound(s.drop_first(), id);
    }
}

proof fn lemma_loot_index(s: Seq<LootView>, id: u64, i: int)
    requires
        0 <= i < s.len(),
        s[i].id == id,
        forall|k: int| 0 <= k < i ==> (#[trigger] s[k]).id != id,
    ensures
        loot_index(s, id) == Some(i),
    decreases i,
{
    if i > 0 {
        lemma_loot_index(s.drop_first(), id, i - 1);
    }
}

/// Where `loot_index` points: at a pile with that id.
pub proof fn lemma_loot_index_bounds(s: Seq<LootView>, id: u64)
    ensures
        loot_index(s, id) matches Some(k) ==> 0 <= k < s.len() && s[k].id == id,
    decreases s.len(),
{
    if s.len() > 0 {
        lemma_loot_index_bounds(s.drop_first(), id);
    }
}

proof fn lemma_loot_index_none(s: Seq<LootView>, id: u64)
    requires
        forall|k: int| 0 <= k < s.len() ==> (#[trigger] s[k]).id != id,
    ensures
        loot_index(s, id) == None::<int>,
    decreases s.len(),
{
    if s.len() > 0 {
        lemma_loot_index_none(s.drop_first(), id);
    }
}

/// First station with `id` (its index).
pub(crate) fn find_station(stations: &Vec<StationView>, id: u64) -> (r: Option<usize>)
    ensures
        match r {
            Some(k) => station_pos(station_models(stations@), id) == Some(k as int) && k < stations@.len()
                && stations@[k as int].id == id,
            None => station_pos(station_models(stations@), id) is None,
        },
{
    let mut i: usize = 0;
    while i < stations.len()
        invariant
            i <= stations@.len(),
            forall|k: int| 0 <= k < i ==> (#[trigger] stations@[k]).id != id,
        decreases stations@.len() - i,
    {
        if stations[i].id == id {
            proof {
                let ms = station_models(stations@);
                assert forall|k: int| 0 <= k < i implies (#[trigger] ms[k]).id != id by {
                    assert(ms[k].id == stations@[k].id);
                }
                lemma_station_index(ms, id, i as int);
            }
            return Some(i);
        }
        i += 1;
    }
    proof {
        let ms = station_models(stations@);
        assert forall|k: int| 0 <= k < ms.len() implies (#[trigger] ms[k]).id != id by {
            assert(ms[k].id == stations@[k].id);
        }
        lemma_station_index_none(ms, id);
    }
    None
}

/// Crafting station at hand: the open station's, else bare hands.
pub open spec fn station_at(stations: Seq<StationModel>, open: Option<u64>) -> CraftStation {
    match open {
        Some(id) => match station_pos(stations, id) {
            Some(k) => match spec_craft_station(stations[k].kind) {
                Some(c) => c,
                None => CraftStation::Hand,
            },
            None => CraftStation::Hand,
        },
        None => CraftStation::Hand,
    }
}

/// Kind of the open station, if one is open and exists.
pub open spec fn open_kind_of(stations: Seq<StationModel>, open: Option<u64>) -> Option<StationKind> {
    match open {
        Some(id) => match station_pos(stations, id) {
            Some(k) => Some(stations[k].kind),
            None => None,
        },
        None => None,
    }
}

pub open spec fn recipes_at(at: CraftStation) -> Seq<Recipe> {
    recipe_table().filter(|x: Recipe| x.station == at)
}

impl ItemView {
    /// The stack in the selected slot (empty when out of range).
    pub fn selected_stack(&self) -> (s: Stack)
        ensures
            s == (if self.selected < self.bag@.len() { self.bag@[self.selected as int] } else { empty_stack() }),
    {
        if self.selected < self.bag.len() {
            self.bag[self.selected]
        } else {
            Stack::empty()
        }
    }

    /// The open station, if any.
    pub fn open_station_view(&self) -> (r: Option<StationView>)
        ensures
            match self.open_station {
                None => r is None,
                Some(id) => match station_pos(station_models(self.stations@), id) {
                    None => r is None,
                    Some(k) => r matches Some(v) && v@ == self.stations@[k]@,
                },
            },
    {
        let id = match self.open_station {
            Some(id) => id,
            None => return None,
        };
        match find_station(&self.stations, id) {
            Some(k) => Some(self.stations[k].duplicate()),
            None => None,
        }
    }

    /// The bag in wire form.
    pub fn packed_bag(&self) -> (r: String)
        ensures
            r@ == encode_chars(self.bag@),
    {
        encode_slots(self.bag.as_slice())
    }
}

/// The recipe under the HUD cursor, among those available at the open station.
pub fn selected_recipe(view: &ItemView) -> (r: Option<Recipe>)
    ensures
        ({
            let list = recipes_at(station_at(station_models(view.stations@), view.open_station));
            if list.len() == 0 {
                r is None
            } else {
                r == Some(list[(view.recipe_cursor as int) % (list.len() as int)])
            }
        }),
{
    let at = current_station(&view.stations, view.open_station);
    let list = recipes_for(at);
    if list.len() == 0 {
        return None;
    }
    Some(list[view.recipe_cursor % list.len()])
}

pub(crate) fn current_station(stations: &Vec<StationView>, open: Option<u64>) -> (c: CraftStation)
    ensures
        c == station_at(station_models(stations@), open),
{
    match open {
        Some(id) => match find_station(stations, id) {
            Some(k) => match stations[k].kind.craft_station() {
                Some(c) => c,
                None => CraftStation::Hand,
            },
            None => CraftStation::Hand,
        },
        None => CraftStation::Hand,
    }
}

/// The single-player store. `next_id` numbers new loot piles and stations.
#[derive(Debug)]
pub struct LocalStore {
    pub next_id: u64,
    pub bag: Vec<Stack>,
    pub selected: usize,
    pub loot: Vec<LootView>,
    pub stations: Vec<StationView>,
    pub open_station: Option<u64>,
    pub recipe_cursor: usize,
    pub last_log: String,
}

/// The plain content of a store.
pub struct StoreModel {
    pub next_id: u64,
    pub bag: Seq<Stack>,
    pub selected: usize,
    pub loot: Seq<LootView>,
    pub stations: Seq<StationModel>,
    pub open_station: Option<u64>,
    pub recipe_cursor: usize,
    pub last_log: Seq<char>,
}

impl LocalStore {
    pub open spec fn model(&self) -> StoreModel {
        StoreModel {
            next_id: self.next_id,
            bag: self.bag@,
            selected: self.selected,
            loot: self.loot@,
            stations: station_models(self.stations@),
            open_station: self.open_station,
            recipe_cursor: self.recipe_cursor,
            last_log: self.last_log@,
        }
    }

    /// Every loot pile and station has its own id, below `next_id`.
    pub open spec fn ids_fresh(&self) -> bool {
        &&& forall|i: int| 0 <= i < self.loot@.len() ==> (#[trigger] self.loot@[i]).id < self.next_id
        &&& forall|i: int| 0 <= i < self.stations@.len() ==> (#[trigger] self.stations@[i]).id < self.next_id
        &&& forall|i: int, j: int|
            0 <= i < j < self.loot@.len() ==> (#[trigger] self.loot@[i]).id != (#[trigger] self.loot@[j]).id
        &&& forall|i: int, j: int|
            0 <= i < j < self.stations@.len() ==> (#[trigger] self.stations@[i]).id != (
            #[trigger] self.stations@[j]).id
        &&& forall|i: int, j: int|
            0 <= i < self.loot@.len() && 0 <= j < self.stations@.len() ==> (#[trigger] self.loot@[i]).id != (
            #[trigger] self.stations@[j]).id
    }

    /// A well-formed store: a full-size bag, a recipe cursor inside the book,
    /// and fresh ids.
    pub open spec fn wf(&self) -> bool {
        &&& self.bag@.len() == BAG_SLOTS
        &&& self.recipe_cursor < 16
        &&& self.ids_fresh()
    }

    /// An empty store: an empty bag, no loot, no stations.
    pub fn new() -> (s: LocalStore)
        ensures
            s.next_id == 1,
            s.bag@ == Seq::new(BAG_SLOTS as nat, |i: int| empty_stack()),
            s.selected == 0,
            s.loot@.len() == 0,
            s.stations@.len() == 0,
            s.open_station is None,
            s.recipe_cursor == 0,
            s.last_log@ == Seq::<char>::empty(),
            s.wf(),
    {
        LocalStore {
            next_id: 1,
            bag: empty_bag(),
            selected: 0,
            loot: Vec::new(),
            stations: Vec::new(),
            open_station: None,
            recipe_cursor: 0,
            last_log: String::new(),
        }
    }

    fn take_id(&mut self) -> (id: u64)
        requires
            old(self).next_id < u64::MAX,
        ensures
            id == old(self).next_id,
            final(self).next_id == old(self).next_id + 1,
            final(self).bag == old(self).bag,
            final(self).selected == old(self).selected,
            final(self).loot == old(self).loot,
            final(self).stations == old(self).stations,
            final(self).open_station == old(self).open_station,
            final(self).recipe_cursor == old(self).recipe_cursor,
            final(self).last_log == old(self).last_log,
    {
        let id = self.next_id;
        self.next_id = self.next_id + 1;
        id
    }

    /// Place a station of `kind` with empty slots; returns its id.
    pub fn spawn_station(&mut self, kind: StationKind) -> (id: u64)
        requires
            old(self).next_id < u64::MAX,
        ensures
            id == old(self).next_id,
            final(self).model() == (StoreModel {
                next_id: (old(self).next_id + 1) as u64,
                stations: old(self).model().stations.push(StationModel {
                    id,
                    kind,
                    slots: Seq::new(spec_kind_slots(kind) as nat, |i: int| empty_stack()),
                    fuel: 0,
                    cook: 0,
                }),
                ..old(self).model()
            }),
            old(self).ids_fresh() ==> final(self).ids_fresh(),
    {
        let id = self.take_id();
        let st = StationView { id, kind, slots: empty_slots(kind.slots()), fuel: 0, cook: 0 };
        let ghost before = self.stations@;
        self.stations.push(st);
        assert(station_models(self.stations@) =~= station_models(before).push(st@));
        id
    }

    /// Put a loot pile in the world; returns its id.
    pub fn spawn_loot(&mut self, stack: Stack) -> (id: u64)
        requires
            old(self).next_id < u64::MAX,
        ensures
            id == old(self).next_id,
            final(self).model() == (StoreModel {
                next_id: (old(self).next_id + 1) as u64,
                loot: old(self).loot@.push(LootView { id, stack }),
                ..old(self).model()
            }),
            old(self).ids_fresh() ==> final(self).ids_fresh(),
    {
        let id = self.take_id();
        self.loot.push(LootView { id, stack });
        id
    }

    /// Put items straight into the bag; returns how many did not fit.
    pub fn give(&mut self, item: ItemId, count: u16) -> (left: u16)
        ensures
            ({
                let r = insert_of(old(self).bag@, new_stack(item, count as int));
                final(self).model() == (StoreModel { bag: r.0, ..old(self).model() }) && left == r.1.count
            }),
    {
        let left = insert_stack(self.bag.as_mut_slice(), Stack::new(item, count));
        left.count
    }

    /// Select a bag slot; out-of-range slots are ignored.
    pub fn select(&mut self, slot: usize)
        ensures
            final(self).model() == (StoreModel {
                selected: if slot < BAG_SLOTS { slot } else { old(self).selected },
                ..old(self).model()
            }),
    {
        if slot < BAG_SLOTS {
            self.selected = slot;
        }
    }

    /// Swap two bag slots; out-of-range slots are ignored.
    pub fn swap(&mut self, a: usize, b: usize)
        ensures
            final(self).model() == (StoreModel {
                bag: if a < old(self).bag@.len() && b < old(self).bag@.len() {
                    old(self).bag@.update(a as int, old(self).bag@[b as int]).update(b as int, old(self).bag@[a as int])
                } else {
                    old(self).bag@
                },
                ..old(self).model()
            }),
    {
        if a < self.bag.len() && b < self.bag.len() {
            let x = self.bag[a];
            let y = self.bag[b];
            self.bag.set(a, y);
            self.bag.set(b, x);
        }
    }

    /// Close the open station.
    pub fn close_station(&mut self)
        ensures
            final(self).model() == (StoreModel { open_station: None, ..old(self).model() }),
    {
        self.open_station = None;
    }

    /// A snapshot for the HUD.
    pub fn view(&self) -> (v: ItemView)
        ensures
            v.bag@ == self.bag@,
            v.selected == self.selected,
            v.loot@ == self.loot@,
            station_models(v.stations@) == station_models(self.stations@),
            v.open_station == self.open_station,
            v.recipe_cursor == self.recipe_cursor,
            v.last_log@ == self.last_log@,
    {
        let mut stations: Vec<StationView> = Vec::new();
        let mut i: usize = 0;
        while i < self.stations.len()
            invariant
                i <= self.stations@.len(),
                station_models(stations@) == station_models(self.stations@.take(i as int)),
            decreases self.stations@.len() - i,
        {
            let ghost before = stations@;
            let d = self.stations[i].duplicate();
            stations.push(d);
            proof {
                let t = self.stations@.take(i as int);
                assert(self.stations@.take(i + 1) =~= t.push(self.stations@[i as int]));
                assert(station_models(t.push(self.stations@[i as int])) =~= station_models(t).push(
                    self.stations@[i as int]@,
                ));
                assert(station_models(before.push(d)) =~= station_models(before).push(d@));
            }
            i += 1;
        }
        assert(self.stations@.take(i as int) =~= self.stations@);
        let mut loot: Vec<LootView> = Vec::new();
        let mut j: usize = 0;
        while j < self.loot.len()
            invariant
                j <= self.loot@.len(),
                loot@ == self.loot@.take(j as int),
            decreases self.loot@.len() - j,
        {
            loot.push(self.loot[j]);
            j += 1;
        }
        assert(loot@ =~= self.loot@);
        let mut bag: Vec<Stack> = Vec::new();
        let mut k: usize = 0;
        while k < self.bag.len()
            invariant
                k <= self.bag@.len(),
                bag@ == self.bag@.take(k as int),
            decreases self.bag@.len() - k,
        {
            bag.push(self.bag[k]);
            k += 1;
        }
        assert(bag@ =~= self.bag@);
        ItemView {
            bag,
            selected: self.selected,
            loot,
            stations,
            open_station: self.open_station,
            recipe_cursor: self.recipe_cursor,
            last_log: self.last_log.clone(),
        }
    }
}

fn note(text: &str) -> (r: String)
    ensures
        r@ == text@,
{
    String::from_str(text)
}

fn note2(a: &str, b: &str) -> (r: String)
    ensures
        r@ == a@ + b@,
{
    let mut r = String::from_str(a);
    r.append(b);
    r
}

fn find_loot(loot: &Vec<LootView>, id: u64) -> (r: Option<usize>)
    ensures
        match r {
            Some(k) => loot_index(loot@, id) == Some(k as int) && k < loot@.len() && loot@[k as int].id == id,
            None => loot_index(loot@, id) is None,
        },
{
    let mut i: usize = 0;
    while i < loot.len()
        invariant
            i <= loot@.len(),
            forall|k: int| 0 <= k < i ==> (#[trigger] loot@[k]).id != id,
        decreases loot@.len() - i,
    {
        if loot[i].id == id {
            proof { lemma_loot_index(loot@, id, i as int); }
            return Some(i);
        }
        i += 1;
    }
    proof { lemma_loot_index_none(loot@, id); }
    None
}

/// The message after picking up a whole pile.
pub open spec fn picked_up_note(s: Stack) -> Seq<char> {
    "picked up "@ + spec_def(s.item).name@ + " x"@ + dec_chars(s.count as nat)
}

/// Picking up pile `id`: the model after, and whether everything fitted.
pub open spec fn pickup_of(m: StoreModel, id: u64) -> (StoreModel, bool) {
    match loot_index(m.loot, id) {
        None => (m, false),
        Some(k) => {
            let pile = m.loot[k];
            let r = insert_of(m.bag, pile.stack);
            if is_empty_stack(r.1) {
                (StoreModel { bag: r.0, loot: m.loot.remove(k), last_log: picked_up_note(pile.stack), ..m }, true)
            } else {
                (StoreModel {
                    bag: r.0,
                    loot: m.loot.remove(k).push(LootView { id: pile.id, stack: r.1 }),
                    last_log: "inventory full"@,
                    ..m
                }, false)
            }
        },
    }
}

impl LocalStore {
    /// Pick up loot pile `loot_id` into the bag. What does not fit stays on
    /// the ground under the same id. True when the whole pile was taken.
    pub fn pickup(&mut self, loot_id: u64) -> (ok: bool)
        ensures
            (final(self).model(), ok) == pickup_of(old(self).model(), loot_id),
            old(self).ids_fresh() ==> final(self).ids_fresh(),
    {
        let idx = match find_loot(&self.loot, loot_id) {
            Some(k) => k,
            None => return false,
        };
        let ghost before = self.loot@;
        let pile = self.loot.remove(idx);
        let left = insert_stack(self.bag.as_mut_slice(), pile.stack);
        if !left.is_empty() {
            self.loot.push(LootView { id: pile.id, stack: left });
            self.last_log = note("inventory full");
            proof {
                assert forall|i: int| 0 <= i < self.loot@.len() implies exists|j: int|
                    0 <= j < before.len() && (#[trigger] self.loot@[i]).id == before[j].id by {
                    if i < idx {
                        assert(self.loot@[i] == before[i]);
                    } else if i < before.len() - 1 {
                        assert(self.loot@[i] == before[i + 1]);
                    } else {
                        assert(self.loot@[i].id == before[idx as int].id);
                    }
                }
            }
            return false;
        }
        let mut msg = note2("picked up ", pile.stack.item.def().name);
        msg.append(" x");
        push_decimal(&mut msg, pile.stack.count as u32);
        self.last_log = msg;
        true
    }
}

/// Dropping one item of the selected slot: the model after and the new pile's id.
pub open spec fn drop_of(m: StoreModel) -> (StoreModel, Option<u64>) {
    let slot = if m.selected < BAG_SLOTS { m.selected as int } else { BAG_SLOTS - 1 };
    if slot >= m.bag.len() || is_empty_stack(m.bag[slot]) {
        (m, None)
    } else {
        let one = new_stack(m.bag[slot].item, 1);
        (StoreModel {
            next_id: (m.next_id + 1) as u64,
            bag: m.bag.update(slot, minus_one(m.bag[slot])),
            loot: m.loot.push(LootView { id: m.next_id, stack: one }),
            last_log: "dropped "@ + spec_def(one.item).name@,
            ..m
        }, Some(m.next_id))
    }
}

/// Opening or closing station `id`.
pub open spec fn toggle_of(m: StoreModel, id: u64) -> (StoreModel, bool) {
    if m.open_station == Some(id) {
        (StoreModel { open_station: None, ..m }, true)
    } else {
        match station_pos(m.stations, id) {
            Some(k) => (StoreModel {
                open_station: Some(id),
                last_log: "opened "@ + (match m.stations[k].kind {
                    StationKind::Chest => "Chest",
                    StationKind::Furnace => "Furnace",
                    StationKind::Workbench => "Workbench",
                })@,
                ..m
            }, true),
            None => (m, false),
        }
    }
}

proof fn lemma_wrap(cur: int, m: int)
    requires
        m > 0,
    ensures
        cur >= 0 ==> cur % m == cur % m,
        cur < 0 ==> m - 1 - ((-(cur + 1)) % m) == cur % m,
        0 <= cur % m < m,
{
    if cur < 0 {
        let q = (-(cur + 1)) % m;
        let d = (-(cur + 1)) / m;
        assert(-(cur + 1) == d * m + q && 0 <= q < m) by (nonlinear_arith)
            requires
                m > 0,
                q == (-(cur + 1)) % m,
                d == (-(cur + 1)) / m,
        ;
        assert(cur == (-d - 1) * m + (m - 1 - q)) by (nonlinear_arith)
            requires
                -(cur + 1) == d * m + q,
        ;
        vstd::arithmetic::div_mod::lemma_fundamental_div_mod_converse(cur, m, -d - 1, m - 1 - q);
    }
}

impl LocalStore {
    /// Drop one item of the selected slot as a new loot pile; returns the
    /// pile's id (the caller places it in front of the player).
    pub fn drop_selected(&mut self) -> (id: Option<u64>)
        requires
            old(self).next_id < u64::MAX,
        ensures
            (final(self).model(), id) == drop_of(old(self).model()),
            old(self).ids_fresh() ==> final(self).ids_fresh(),
    {
        let slot = if self.selected < BAG_SLOTS { self.selected } else { BAG_SLOTS - 1 };
        let one = match take_one(self.bag.as_mut_slice(), slot) {
            Some(s) => s,
            None => return None,
        };
        let id = self.spawn_loot(one);
        self.last_log = note2("dropped ", one.item.def().name);
        Some(id)
    }

    /// Open station `id`, or close it when it is the open one. False when no
    /// such station exists.
    pub fn toggle_station(&mut self, id: u64) -> (ok: bool)
        ensures
            (final(self).model(), ok) == toggle_of(old(self).model(), id),
            final(self).stations@ == old(self).stations@,
    {
        if self.open_station == Some(id) {
            self.open_station = None;
            return true;
        }
        match find_station(&self.stations, id) {
            Some(k) => {
                self.open_station = Some(id);
                self.last_log = note2("opened ", self.stations[k].kind.name());
                true
            },
            None => false,
        }
    }

    /// The recipes available where the player stands.
    pub fn available_recipes(&self) -> (r: Vec<Recipe>)
        ensures
            r@ == recipes_at(station_at(station_models(self.stations@), self.open_station)),
    {
        recipes_for(current_station(&self.stations, self.open_station))
    }

    /// Move the recipe cursor by `dir`, wrapping around the available recipes.
    pub fn cycle_recipe(&mut self, dir: i32)
        requires
            old(self).recipe_cursor < 16,
            old(self).recipe_cursor + dir <= i32::MAX,
        ensures
            ({
                let n = recipes_at(station_at(old(self).model().stations, old(self).open_station)).len();
                final(self).model() == (StoreModel {
                    recipe_cursor: if n == 0 {
                        old(self).recipe_cursor
                    } else {
                        ((old(self).recipe_cursor + dir) % (n as int)) as usize
                    },
                    ..old(self).model()
                })
            }),
            final(self).recipe_cursor < 16,
    {
        let n = self.available_recipes().len();
        if n == 0 {
            return;
        }
        assert(n <= recipe_table().len()) by {
            recipe_table().lemma_filter_len(|x: Recipe| x.station == station_at(station_models(self.stations@), self.open_station));
        }
        let cur: i32 = self.recipe_cursor as i32 + dir;
        let m = n as i32;
        let r: i32 = if cur >= 0 { cur % m } else { let q = (-(cur + 1)) % m; m - 1 - q };
        proof {
            lemma_wrap(cur as int, m as int);
        }
        self.recipe_cursor = r as usize;
    }
}

/// A station model with slot `i` replaced.
pub open spec fn with_slot(st: StationModel, i: int, x: Stack) -> StationModel {
    StationModel { slots: st.slots.update(i, x), ..st }
}

/// Moving a stack between bag slot `b` and slot `i` of the open station.
pub open spec fn transfer_of(m: StoreModel, b: usize, i: usize, to_station: bool) -> (StoreModel, bool) {
    match m.open_station {
        None => (m, false),
        Some(id) => match station_pos(m.stations, id) {
            None => (m, false),
            Some(k) => {
                let st = m.stations[k];
                if b >= m.bag.len() || i >= st.slots.len() {
                    (m, false)
                } else if to_station {
                    let r = absorb_of(st.slots[i as int], m.bag[b as int]);
                    (StoreModel {
                        bag: m.bag.update(b as int, r.1),
                        stations: m.stations.update(k, with_slot(st, i as int, r.0)),
                        ..m
                    }, true)
                } else {
                    let r = absorb_of(m.bag[b as int], st.slots[i as int]);
                    (StoreModel {
                        bag: m.bag.update(b as int, r.0),
                        stations: m.stations.update(k, with_slot(st, i as int, r.1)),
                        ..m
                    }, true)
                }
            },
        },
    }
}

/// An index, or 0 when there is none.
pub open spec fn index_or_zero(p: Option<int>) -> usize {
    match p {
        Some(k) => k as usize,
        None => 0,
    }
}

/// `transfer_selected`: the selected bag slot to the first station slot that
/// takes it, or the first non-empty station slot back to the bag.
pub open spec fn transfer_selected_of(m: StoreModel, to_station: bool) -> (StoreModel, bool) {
    match m.open_station {
        None => (StoreModel { last_log: "open a chest or furnace first"@, ..m }, false),
        Some(id) => match station_pos(m.stations, id) {
            None => (m, false),
            Some(k) => {
                let slots = m.stations[k].slots;
                if slots.len() == 0 {
                    (StoreModel { last_log: "this station has no slots"@, ..m }, false)
                } else {
                    let b = if m.selected < BAG_SLOTS { m.selected } else { (BAG_SLOTS - 1) as usize };
                    let stack = m.bag[b as int];
                    let i = if to_station {
                        if is_empty_stack(stack) {
                            0
                        } else {
                            match first_where(slots, |s: Stack| s.item == stack.item && space_of(s) > 0) {
                                Some(x) => x as usize,
                                None => index_or_zero(first_where(slots, |s: Stack| is_empty_stack(s))),
                            }
                        }
                    } else {
                        index_or_zero(first_where(slots, |s: Stack| !is_empty_stack(s)))
                    };
                    transfer_of(m, b, i, to_station)
                }
            },
        },
    }
}

impl LocalStore {
    /// Swap contents between bag slot `bag_slot` and slot `st_slot` of the open
    /// station, merging into the destination. False (and no change) without an
    /// open station or with an out-of-range slot.
    pub fn transfer_station(&mut self, bag_slot: usize, st_slot: usize, to_station: bool) -> (ok: bool)
        ensures
            (final(self).model(), ok) == transfer_of(old(self).model(), bag_slot, st_slot, to_station),
            old(self).ids_fresh() ==> final(self).ids_fresh(),
    {
        let id = match self.open_station {
            Some(id) => id,
            None => return false,
        };
        let k = match find_station(&self.stations, id) {
            Some(k) => k,
            None => return false,
        };
        if bag_slot >= self.bag.len() || st_slot >= self.stations[k].slots.len() {
            return false;
        }
        let ghost before = self.stations@;
        let mut st = self.stations.remove(k);
        if to_station {
            let mut d = st.slots[st_slot];
            let left = d.absorb(self.bag[bag_slot]);
            st.slots.set(st_slot, d);
            self.bag.set(bag_slot, left);
        } else {
            let mut d = self.bag[bag_slot];
            let left = d.absorb(st.slots[st_slot]);
            self.bag.set(bag_slot, d);
            st.slots.set(st_slot, left);
        }
        self.stations.insert(k, st);
        proof {
            assert(self.stations@ =~= before.update(k as int, st));
            assert(station_models(self.stations@) =~= station_models(before).update(k as int, st@));
            assert forall|i: int| 0 <= i < self.stations@.len() implies (#[trigger] self.stations@[i]).id == before[i].id by {
                if i != k {
                    assert(self.stations@[i] == before[i]);
                }
            }
        }
        true
    }

    /// Move the selected bag stack into the open station (to the first slot
    /// that can take it), or take the first non-empty station slot back.
    pub fn transfer_selected(&mut self, to_station: bool) -> (ok: bool)
        requires
            old(self).bag@.len() == BAG_SLOTS,
        ensures
            (final(self).model(), ok) == transfer_selected_of(old(self).model(), to_station),
            old(self).ids_fresh() ==> final(self).ids_fresh(),
    {
        let id = match self.open_station {
            Some(id) => id,
            None => {
                self.last_log = note("open a chest or furnace first");
                return false;
            },
        };
        let k = match find_station(&self.stations, id) {
            Some(k) => k,
            None => return false,
        };
        if self.stations[k].slots.len() == 0 {
            self.last_log = note("this station has no slots");
            return false;
        }
        let bag_slot = if self.selected < BAG_SLOTS { self.selected } else { BAG_SLOTS - 1 };
        let st_slot = if to_station {
            match first_compatible(self.stations[k].slots.as_slice(), self.bag[bag_slot]) {
                Some(x) => x,
                None => 0,
            }
        } else {
            match first_nonempty(self.stations[k].slots.as_slice()) {
                Some(x) => x,
                None => 0,
            }
        };
        self.transfer_station(bag_slot, st_slot, to_station)
    }
}

/// Whether crafting recipe `r` gets as far as paying its inputs.
pub open spec fn craft_pays(m: StoreModel, r: Recipe) -> bool {
    let at = station_at(m.stations, m.open_station);
    &&& r.station != CraftStation::Furnace
    &&& (r.station == CraftStation::Hand || r.station == at)
    &&& !(r.station == CraftStation::Workbench && open_kind_of(m.stations, m.open_station) != Some(
        StationKind::Workbench,
    ))
}

/// Crafting recipe `recipe_id` by hand or at the open station.
pub open spec fn craft_of(m: StoreModel, recipe_id: u16) -> (StoreModel, bool) {
    match spec_recipe_by_id(recipe_id) {
        None => (m, false),
        Some(r) => {
            let at = station_at(m.stations, m.open_station);
            if r.station == CraftStation::Furnace {
                (StoreModel { last_log: "put ore in the furnace instead"@, ..m }, false)
            } else if r.station != CraftStation::Hand && r.station != at {
                (StoreModel { last_log: "wrong station for that recipe"@, ..m }, false)
            } else if r.station == CraftStation::Workbench && open_kind_of(m.stations, m.open_station) != Some(
                StationKind::Workbench,
            ) {
                (StoreModel { last_log: "stand at a workbench"@, ..m }, false)
            } else if !has_inputs(m.bag, r.inputs@) {
                (StoreModel { last_log: "missing ingredients"@, ..m }, false)
            } else {
                let ins = insert_of(pay_of(m.bag, r.inputs@), new_stack(r.output.item, r.output.count as int));
                if !is_empty_stack(ins.1) {
                    (StoreModel { bag: ins.0, last_log: "no space for craft result"@, ..m }, false)
                } else {
                    (StoreModel { bag: ins.0, last_log: "crafted "@ + r.name@, ..m }, true)
                }
            }
        },
    }
}

/// One furnace tick of a station (other kinds are left alone).
pub open spec fn tick_station(st: StationModel) -> StationModel {
    if st.kind == StationKind::Furnace {
        let r = furnace_step(st.slots, st.fuel, st.cook);
        StationModel { slots: r.0, fuel: r.1, cook: r.2, ..st }
    } else {
        st
    }
}

/// No furnace tick would push a cook counter past `u32::MAX`.
pub open spec fn furnaces_fit(stations: Seq<StationModel>) -> bool {
    forall|k: int|
        0 <= k < stations.len() ==> (#[trigger] stations[k]).kind == StationKind::Furnace ==> !(
        furnace_cooks(stations[k].slots, stations[k].fuel) && stations[k].cook == u32::MAX)
}

impl LocalStore {
    /// Craft a recipe into the bag. Furnace recipes are refused (the furnace
    /// smelts by itself); workbench recipes need an open workbench.
    pub fn craft(&mut self, recipe_id: u16) -> (ok: bool)
        requires
            spec_recipe_by_id(recipe_id) matches Some(r) ==> (craft_pays(old(self).model(), r) ==> counts_fit(
                old(self).bag@,
                r.inputs@,
            )),
        ensures
            (final(self).model(), ok) == craft_of(old(self).model(), recipe_id),
            old(self).ids_fresh() ==> final(self).ids_fresh(),
    {
        let recipe = match recipe_by_id(recipe_id) {
            Some(r) => r,
            None => return false,
        };
        let at = current_station(&self.stations, self.open_station);
        if recipe.station == CraftStation::Furnace {
            self.last_log = note("put ore in the furnace instead");
            return false;
        }
        if recipe.station != CraftStation::Hand && recipe.station != at {
            self.last_log = note("wrong station for that recipe");
            return false;
        }
        if recipe.station == CraftStation::Workbench {
            let at_bench = match self.open_station {
                Some(id) => match find_station(&self.stations, id) {
                    Some(k) => self.stations[k].kind == StationKind::Workbench,
                    None => false,
                },
                None => false,
            };
            if !at_bench {
                self.last_log = note("stand at a workbench");
                return false;
            }
        }
        if !take_inputs(self.bag.as_mut_slice(), &recipe) {
            self.last_log = note("missing ingredients");
            return false;
        }
        let left = insert_stack(self.bag.as_mut_slice(), recipe.output.to_stack());
        if !left.is_empty() {
            self.last_log = note("no space for craft result");
            return false;
        }
        self.last_log = note2("crafted ", recipe.name);
        true
    }

    /// One 50 ms tick of every furnace.
    pub fn step_furnaces(&mut self)
        requires
            furnaces_fit(old(self).model().stations),
        ensures
            final(self).model() == (StoreModel {
                stations: old(self).model().stations.map_values(|st: StationModel| tick_station(st)),
                ..old(self).model()
            }),
            old(self).ids_fresh() ==> final(self).ids_fresh(),
    {
        let ghost start = self.stations@;
        let n = self.stations.len();
        let mut k: usize = 0;
        while k < n
            invariant
                k <= n,
                n == self.stations@.len(),
                start.len() == n,
                start == old(self).stations@,
                self.next_id == old(self).next_id,
                self.bag@ == old(self).bag@,
                self.selected == old(self).selected,
                self.loot@ == old(self).loot@,
                self.open_station == old(self).open_station,
                self.recipe_cursor == old(self).recipe_cursor,
                self.last_log@ == old(self).last_log@,
                furnaces_fit(station_models(start)),
                forall|i: int| 0 <= i < n ==> (#[trigger] self.stations@[i]).id == start[i].id,
                forall|i: int| 0 <= i < k ==> (#[trigger] self.stations@[i])@ == tick_station(start[i]@),
                forall|i: int| k <= i < n ==> (#[trigger] self.stations@[i]) == start[i],
            decreases n - k,
        {
            let ghost before = self.stations@;
            let st = self.stations.remove(k);
            let StationView { id, kind, mut slots, mut fuel, mut cook } = st;
            if kind == StationKind::Furnace {
                assert(station_models(start)[k as int] == start[k as int]@);
                step_furnace(slots.as_mut_slice(), &mut fuel, &mut cook);
            }
            let next = StationView { id, kind, slots, fuel, cook };
            self.stations.insert(k, next);
            assert(self.stations@ =~= before.update(k as int, next));
            k += 1;
        }
        assert(station_models(self.stations@) =~= station_models(start).map_values(
            |st: StationModel| tick_station(st),
        ));
    }
}

/// The stack in a cell (empty when the cell does not exist).
pub open spec fn get_of(m: StoreModel, slot: SlotRef) -> Stack {
    match slot {
        SlotRef::Bag(i) => if i < m.bag.len() { m.bag[i as int] } else { empty_stack() },
        SlotRef::Station(i) => match m.open_station {
            Some(id) => match station_pos(m.stations, id) {
                Some(k) => if i < m.stations[k].slots.len() { m.stations[k].slots[i as int] } else { empty_stack() },
                None => empty_stack(),
            },
            None => empty_stack(),
        },
    }
}

/// The store with a cell overwritten (unchanged when the cell does not exist).
pub open spec fn set_of(m: StoreModel, slot: SlotRef, x: Stack) -> StoreModel {
    match slot {
        SlotRef::Bag(i) => if i < m.bag.len() { StoreModel { bag: m.bag.update(i as int, x), ..m } } else { m },
        SlotRef::Station(i) => match m.open_station {
            Some(id) => match station_pos(m.stations, id) {
                Some(k) => if i < m.stations[k].slots.len() {
                    StoreModel { stations: m.stations.update(k, with_slot(m.stations[k], i as int, x)), ..m }
                } else {
                    m
                },
                None => m,
            },
            None => m,
        },
    }
}

/// Whether cell `slot` exists: a bag index inside the bag, or a slot of the
/// open station.
pub open spec fn cell_exists(m: StoreModel, slot: SlotRef) -> bool {
    match slot {
        SlotRef::Bag(i) => i < m.bag.len(),
        SlotRef::Station(i) => match m.open_station {
            Some(id) => match station_pos(m.stations, id) {
                Some(k) => i < m.stations[k].slots.len(),
                None => false,
            },
            None => false,
        },
    }
}

/// Moving the stack of `from` (or one item of it) onto `to`. A move onto a
/// cell that does not exist is refused; one item that the destination
/// cannot take stays where it was.
pub open spec fn move_of(m: StoreModel, from: SlotRef, to: SlotRef, one: bool) -> (StoreModel, bool) {
    let src = get_of(m, from);
    let moving = if one { new_stack(src.item, 1) } else { src };
    let kind = open_kind_of(m.stations, m.open_station);
    let dest = get_of(m, to);
    if from == to {
        (m, true)
    } else if is_empty_stack(src) {
        (m, false)
    } else if !cell_exists(m, to) {
        (m, false)
    } else if !spec_accepts(spec_role(to, kind), moving) {
        (StoreModel { last_log: "that slot does not accept this item"@, ..m }, false)
    } else if is_empty_stack(dest) || dest.item == moving.item {
        let r = absorb_of(dest, moving);
        let rest = if one {
            if is_empty_stack(r.1) { minus_one(src) } else { src }
        } else if is_empty_stack(r.1) {
            empty_stack()
        } else {
            r.1
        };
        (set_of(set_of(m, to, r.0), from, rest), true)
    } else if !one && spec_accepts(spec_role(from, kind), dest) {
        (set_of(set_of(m, from, dest), to, moving), true)
    } else {
        (StoreModel { last_log: "cannot swap into that slot"@, ..m }, false)
    }
}

impl LocalStore {
    fn slot_get(&self, slot: SlotRef) -> (s: Stack)
        ensures
            s == get_of(self.model(), slot),
    {
        match slot {
            SlotRef::Bag(i) => if i < self.bag.len() { self.bag[i] } else { Stack::empty() },
            SlotRef::Station(i) => match self.open_station {
                Some(id) => match find_station(&self.stations, id) {
                    Some(k) => if i < self.stations[k].slots.len() { self.stations[k].slots[i] } else { Stack::empty() },
                    None => Stack::empty(),
                },
                None => Stack::empty(),
            },
        }
    }

    fn slot_exists(&self, slot: SlotRef) -> (r: bool)
        ensures
            r == cell_exists(self.model(), slot),
    {
        match slot {
            SlotRef::Bag(i) => i < self.bag.len(),
            SlotRef::Station(i) => match self.open_station {
                Some(id) => match find_station(&self.stations, id) {
                    Some(k) => i < self.stations[k].slots.len(),
                    None => false,
                },
                None => false,
            },
        }
    }

    fn slot_set(&mut self, slot: SlotRef, x: Stack)
        ensures
            final(self).model() == set_of(old(self).model(), slot, x),
            forall|i: int| 0 <= i < final(self).stations@.len() ==> (#[trigger] final(self).stations@[i]).id
                == old(self).stations@[i].id,
            final(self).stations@.len() == old(self).stations@.len(),
            final(self).loot == old(self).loot,
    {
        match slot {
            SlotRef::Bag(i) => {
                if i < self.bag.len() {
                    self.bag.set(i, x);
                }
            },
            SlotRef::Station(i) => {
                let id = match self.open_station {
                    Some(id) => id,
                    None => return,
                };
                let k = match find_station(&self.stations, id) {
                    Some(k) => k,
                    None => return,
                };
                if i < self.stations[k].slots.len() {
                    let ghost before = self.stations@;
                    let mut st = self.stations.remove(k);
                    st.slots.set(i, x);
                    self.stations.insert(k, st);
                    proof {
                        assert(self.stations@ =~= before.update(k as int, st));
                        assert(station_models(self.stations@) =~= station_models(before).update(k as int, st@));
                    }
                }
            },
        }
    }

    fn open_kind(&self) -> (k: Option<StationKind>)
        ensures
            k == open_kind_of(self.model().stations, self.open_station),
    {
        match self.open_station {
            Some(id) => match find_station(&self.stations, id) {
                Some(k) => Some(self.stations[k].kind),
                None => None,
            },
            None => None,
        }
    }

    /// Move the stack in `from` (or one item of it, with `one`) onto `to`:
    /// merge into an empty or same-item cell, else swap the two whole stacks.
    /// Refused when the destination's role does not accept the payload
    /// (e.g. stone in the furnace fuel slot).
    pub fn move_between(&mut self, from: SlotRef, to: SlotRef, one: bool) -> (ok: bool)
        ensures
            (final(self).model(), ok) == move_of(old(self).model(), from, to, one),
            old(self).ids_fresh() ==> final(self).ids_fresh(),
    {
        if from == to {
            return true;
        }
        let src = self.slot_get(from);
        if src.is_empty() {
            return false;
        }
        if !self.slot_exists(to) {
            return false;
        }
        let moving = if one { Stack::new(src.item, 1) } else { src };
        let kind = self.open_kind();
        if !to.role(kind).accepts(moving) {
            self.last_log = note("that slot does not accept this item");
            return false;
        }
        let mut dest = self.slot_get(to);
        if dest.is_empty() || dest.item == moving.item {
            let leftover = dest.absorb(moving);
            let rest = if one {
                if leftover.is_empty() {
                    let c = src.count - 1;
                    if c == 0 { Stack::empty() } else { Stack { item: src.item, count: c } }
                } else {
                    src
                }
            } else if leftover.is_empty() {
                Stack::empty()
            } else {
                leftover
            };
            self.slot_set(to, dest);
            self.slot_set(from, rest);
            true
        } else if !one && from.role(kind).accepts(dest) {
            self.slot_set(from, dest);
            self.slot_set(to, moving);
            true
        } else {
            self.last_log = note("cannot swap into that slot");
            false
        }
    }
}

/// Piles `a` and `b` lie within merging range of each other; `near` lists
/// such pairs of pile ids (in either order).
pub open spec fn is_near(near: Seq<(u64, u64)>, a: u64, b: u64) -> bool {
    exists|k: int| 0 <= k < near.len() && (#[trigger] near[k] == (a, b) || near[k] == (b, a))
}

/// Pile `i` absorbing the same-item piles near it from position `j` on.
pub open spec fn merge_into(l: Seq<LootView>, i: int, j: int, near: Seq<(u64, u64)>) -> Seq<LootView>
    decreases l.len() - j,
{
    if j < 0 || i < 0 || i >= l.len() || j >= l.len() {
        l
    } else {
        let a = l[i];
        let b = l[j];
        if a.stack.item == b.stack.item && !is_empty_stack(a.stack) && is_near(near, a.id, b.id) {
            let r = absorb_of(a.stack, b.stack);
            let l1 = l.update(i, LootView { id: a.id, stack: r.0 });
            if is_empty_stack(r.1) {
                merge_into(l1.remove(j), i, j, near)
            } else {
                merge_into(l1.update(j, LootView { id: b.id, stack: r.1 }), i, j + 1, near)
            }
        } else {
            merge_into(l, i, j + 1, near)
        }
    }
}

/// Every pile from position `i` on absorbing the piles after it, in order.
pub open spec fn merge_from(l: Seq<LootView>, i: int, near: Seq<(u64, u64)>, steps: nat) -> Seq<LootView>
    decreases steps,
{
    if steps == 0 || i < 0 || i >= l.len() {
        l
    } else {
        merge_from(merge_into(l, i, i + 1, near), i + 1, near, (steps - 1) as nat)
    }
}

/// Collapsing nearby piles of the same item.
pub open spec fn merge_of(l: Seq<LootView>, near: Seq<(u64, u64)>) -> Seq<LootView> {
    merge_from(l, 0, near, l.len())
}

proof fn lemma_merge_into_shape(l: Seq<LootView>, i: int, j: int, near: Seq<(u64, u64)>)
    requires
        0 <= i < j,
    ensures
        merge_into(l, i, j, near).len() <= l.len(),
        i < l.len() ==> i < merge_into(l, i, j, near).len(),
    decreases l.len() - j,
{
    if i < l.len() && j < l.len() {
        let a = l[i];
        let b = l[j];
        if a.stack.item == b.stack.item && !is_empty_stack(a.stack) && is_near(near, a.id, b.id) {
            let r = absorb_of(a.stack, b.stack);
            let l1 = l.update(i, LootView { id: a.id, stack: r.0 });
            if is_empty_stack(r.1) {
                lemma_merge_into_shape(l1.remove(j), i, j, near);
            } else {
                lemma_merge_into_shape(l1.update(j, LootView { id: b.id, stack: r.1 }), i, j + 1, near);
            }
        } else {
            lemma_merge_into_shape(l, i, j + 1, near);
        }
    }
}

impl LocalStore {
    /// Collapse same-item loot piles that lie next to each other (`near`
    /// lists the id pairs within merging range). The surviving pile grows
    /// and the absorbed one shrinks or disappears.
    pub fn merge_nearby_loot(&mut self, near: &[(u64, u64)])
        ensures
            final(self).model() == (StoreModel { loot: merge_of(old(self).loot@, near@), ..old(self).model() }),
            old(self).ids_fresh() ==> final(self).ids_fresh(),
    {
        let ghost n0 = self.loot@.len();
        let mut i: usize = 0;
        while i < self.loot.len()
            invariant
                self.loot@.len() <= n0,
                i <= self.loot@.len(),
                merge_from(self.loot@, i as int, near@, (n0 - i) as nat) == merge_of(old(self).loot@, near@),
                self.next_id == old(self).next_id,
                self.bag@ == old(self).bag@,
                self.selected == old(self).selected,
                self.stations@ == old(self).stations@,
                self.open_station == old(self).open_station,
                self.recipe_cursor == old(self).recipe_cursor,
                self.last_log@ == old(self).last_log@,
                old(self).ids_fresh() ==> self.ids_fresh(),
            decreases self.loot@.len() - i,
        {
            let ghost at_i = self.loot@;
            proof { lemma_merge_into_shape(at_i, i as int, i + 1, near@); }
            let mut j: usize = i + 1;
            while j < self.loot.len()
                invariant
                    i < j,
                    i < self.loot@.len(),
                    self.loot@.len() <= at_i.len(),
                    merge_into(self.loot@, i as int, j as int, near@) == merge_into(at_i, i as int, i + 1, near@),
                    self.next_id == old(self).next_id,
                    self.bag@ == old(self).bag@,
                    self.selected == old(self).selected,
                    self.stations@ == old(self).stations@,
                    self.open_station == old(self).open_station,
                    self.recipe_cursor == old(self).recipe_cursor,
                    self.last_log@ == old(self).last_log@,
                    old(self).ids_fresh() ==> self.ids_fresh(),
                decreases self.loot@.len() - j,
            {
                let a = self.loot[i];
                let b = self.loot[j];
                let same = a.stack.item == b.stack.item && !a.stack.is_empty();
                let close = near_pair(near, a.id, b.id);
                if same && close {
                    let mut keep = a.stack;
                    let leftover = keep.absorb(b.stack);
                    let ghost l0 = self.loot@;
                    self.loot.set(i, LootView { id: a.id, stack: keep });
                    assert(forall|k: int| 0 <= k < self.loot@.len() ==> (#[trigger] self.loot@[k]).id == l0[k].id);
                    if leftover.is_empty() {
                        let ghost before = self.loot@;
                        self.loot.remove(j);
                        assert(forall|k: int| 0 <= k < j ==> (#[trigger] self.loot@[k]).id == before[k].id);
                        assert(forall|k: int| j <= k < self.loot@.len() ==> (#[trigger] self.loot@[k]).id == before[k + 1].id);
                        continue;
                    }
                    let ghost l1 = self.loot@;
                    self.loot.set(j, LootView { id: b.id, stack: leftover });
                    assert(forall|k: int| 0 <= k < self.loot@.len() ==> (#[trigger] self.loot@[k]).id == l1[k].id);
                }
                j += 1;
            }
            proof {
                assert(merge_into(self.loot@, i as int, j as int, near@) == self.loot@);
                assert(merge_from(at_i, i as int, near@, (n0 - i) as nat) == merge_from(
                    self.loot@,
                    i + 1,
                    near@,
                    (n0 - i - 1) as nat,
                ));
            }
            i += 1;
        }
        proof {
            assert(merge_from(self.loot@, i as int, near@, (n0 - i) as nat) == self.loot@);
        }
    }
}

/// Whether `near` lists the pair `(a, b)` in either order.
fn near_pair(near: &[(u64, u64)], a: u64, b: u64) -> (r: bool)
    ensures
        r == is_near(near@, a, b),
{
    let mut k: usize = 0;
    while k < near.len()
        invariant
            k <= near@.len(),
            forall|x: int| 0 <= x < k ==> !(#[trigger] near@[x] == (a, b) || near@[x] == (b, a)),
        decreases near@.len() - k,
    {
        let (p, q) = near[k];
        if (p == a && q == b) || (p == b && q == a) {
            assert(near@[k as int] == (a, b) || near@[k as int] == (b, a));
            return true;
        }
        k += 1;
    }
    false
}

impl LocalStore {
    /// The starter kit and the default yard: chest, furnace and workbench
    /// (ids 1 to 3) and the default ground loot (ids 4 to 8). The caller
    /// places them at the default layout's positions.
    pub fn with_default_world() -> (s: LocalStore)
        ensures
            s.wf(),
            s.next_id == 9,
            s.bag@ == insert_all(Seq::new(BAG_SLOTS as nat, |i: int| empty_stack()), starter_kit()),
            s.selected == 0,
            station_models(s.stations@) == Seq::new(
                3,
                |i: int| StationModel {
                    id: (i + 1) as u64,
                    kind: default_station_kinds()[i],
                    slots: Seq::new(spec_kind_slots(default_station_kinds()[i]) as nat, |k: int| empty_stack()),
                    fuel: 0,
                    cook: 0,
                },
            ),
            s.loot@ == Seq::new(
                5,
                |i: int| LootView {
                    id: (i + 4) as u64,
                    stack: new_stack(ItemId(default_loot()[i].0), default_loot()[i].1 as int),
                },
            ),
            s.open_station is None,
            s.recipe_cursor == 0,
            s.last_log@ == Seq::<char>::empty(),
    {
        let mut s = LocalStore::new();
        let kit = starter_kit_items();
        let ghost start = s.bag@;
        let mut i: usize = 0;
        assert(kit@.skip(0) =~= kit@);
        while i < kit.len()
            invariant
                kit@ == starter_kit(),
                i <= kit@.len(),
                start == Seq::new(BAG_SLOTS as nat, |k: int| empty_stack()),
                insert_all(start, kit@) == insert_all(s.bag@, kit@.skip(i as int)),
                s.next_id == 1,
                s.bag@.len() == BAG_SLOTS,
                s.selected == 0,
                s.loot@.len() == 0,
                s.stations@.len() == 0,
                s.open_station is None,
                s.recipe_cursor == 0,
                s.last_log@ == Seq::<char>::empty(),
            decreases kit@.len() - i,
        {
            let (id, n) = kit[i];
            assert(kit@.skip(i as int).drop_first() =~= kit@.skip(i + 1));
            let ghost bag0 = s.bag@;
            let ghost st0 = s.stations@;
            proof {
                crate::items::laws::law_insert_conserves_len(bag0, new_stack(ItemId(id), n as int));
            }
            let _ = s.give(ItemId(id), n);
            assert(station_models(s.stations@).len() == s.stations@.len());
            assert(station_models(st0).len() == st0.len());
            i += 1;
        }
        assert(kit@.skip(i as int) =~= Seq::<(u16, u16)>::empty());
        let kinds = default_stations();
        let mut k: usize = 0;
        while k < kinds.len()
            invariant
                kinds@ == default_station_kinds(),
                k <= 3,
                s.next_id == k + 1,
                s.bag@ == insert_all(start, kit@),
                s.bag@.len() == BAG_SLOTS,
                s.selected == 0,
                s.loot@.len() == 0,
                station_models(s.stations@) == Seq::new(
                    k as nat,
                    |i: int| StationModel {
                        id: (i + 1) as u64,
                        kind: default_station_kinds()[i],
                        slots: Seq::new(spec_kind_slots(default_station_kinds()[i]) as nat, |x: int| empty_stack()),
                        fuel: 0,
                        cook: 0,
                    },
                ),
                s.open_station is None,
                s.recipe_cursor == 0,
                s.last_log@ == Seq::<char>::empty(),
                s.ids_fresh(),
            decreases 3 - k,
        {
            let _ = s.spawn_station(kinds[k]);
            k += 1;
            assert(station_models(s.stations@) =~= Seq::new(
                k as nat,
                |i: int| StationModel {
                    id: (i + 1) as u64,
                    kind: default_station_kinds()[i],
                    slots: Seq::new(spec_kind_slots(default_station_kinds()[i]) as nat, |x: int| empty_stack()),
                    fuel: 0,
                    cook: 0,
                },
            ));
        }
        let piles = default_loot_kit();
        let mut j: usize = 0;
        while j < piles.len()
            invariant
                piles@ == default_loot(),
                j <= 5,
                s.next_id == j + 4,
                s.bag@ == insert_all(start, kit@),
                s.bag@.len() == BAG_SLOTS,
                s.selected == 0,
                s.loot@ == Seq::new(
                    j as nat,
                    |i: int| LootView {
                        id: (i + 4) as u64,
                        stack: new_stack(ItemId(default_loot()[i].0), default_loot()[i].1 as int),
                    },
                ),
                station_models(s.stations@) == Seq::new(
                    3,
                    |i: int| StationModel {
                        id: (i + 1) as u64,
                        kind: default_station_kinds()[i],
                        slots: Seq::new(spec_kind_slots(default_station_kinds()[i]) as nat, |x: int| empty_stack()),
                        fuel: 0,
                        cook: 0,
                    },
                ),
                s.open_station is None,
                s.recipe_cursor == 0,
                s.last_log@ == Seq::<char>::empty(),
                s.ids_fresh(),
            decreases 5 - j,
        {
            let (item, count) = piles[j];
            let _ = s.spawn_loot(Stack::new(ItemId(item), count));
            j += 1;
            assert(s.loot@ =~= Seq::new(
                j as nat,
                |i: int| LootView {
                    id: (i + 4) as u64,
                    stack: new_stack(ItemId(default_loot()[i].0), default_loot()[i].1 as int),
                },
            ));
        }
        s
    }
}

/// A station's slots in wire form.
pub fn pack_station(st: &StationView) -> (r: String)
    ensures
        r@ == encode_chars(st.slots@),
{
    encode_slots(st.slots.as_slice())
}

/// A station row's slots read for its kind.
pub fn unpack_station(kind: StationKind, packed: &str) -> (r: Vec<Stack>)
    ensures
        r@ == crate::server::unpacked(packed@, spec_kind_slots(kind) as nat),
{
    crate::items::codec::decode_slots(packed, kind.slots())
}

impl Default for LocalStore {
    fn default() -> (s: Self)
        ensures
            s.next_id == 1,
            s.bag@ == Seq::new(BAG_SLOTS as nat, |i: int| empty_stack()),
            s.selected == 0,
            s.loot@.len() == 0,
            s.stations@.len() == 0,
            s.open_station is None,
            s.recipe_cursor == 0,
            s.last_log@ == Seq::<char>::empty(),
            s.wf(),
    {
        LocalStore::new()
    }
}

} // verus!
