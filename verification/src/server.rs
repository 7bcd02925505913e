//! Authoritative multiplayer rules: what each server reducer does to the
//! inventory and station rows. The database, identities, positions and the
//! range checks stay with the host; these functions take the rows' plain
//! values and return the rows to write back.
use vstd::prelude::*;
use vstd::string::StringSliceAdditionalSpecFns;
use vstd::utf8::{encode_utf8, is_char_boundary};

use crate::items::catalog::{ItemId, BAG_SLOTS, COAL, ORE, RAW_MEAT, STICK, STONE, WOOD};
use crate::items::codec::{decode_of, decode_slots, encode_chars, encode_slots};
use crate::items::logic::{
    counts_fit, furnace_cooks, furnace_step, has_inputs, insert_of, insert_stack, minus_one, pay_of,
    step_furnace, take_inputs, take_one,
};
use crate::items::recipe::{recipe_by_id, spec_recipe_by_id, CraftStation, Recipe};
use crate::items::stack::{empty_slots, empty_stack, is_empty_stack, new_stack, Stack};
use crate::items::station::{spec_craft_station, spec_kind_as_u8, spec_kind_from_u8, spec_kind_slots, StationKind};

verus! {

/// The slots packed in a row's text, read as `len` slots.
pub open spec fn unpacked(packed: Seq<char>, len: nat) -> Seq<Stack> {
    decode_of(encode_utf8(packed), len)
}

/// A player's inventory row (the owner key stays with the host).
#[derive(Debug)]
pub struct InventoryRow {
    pub slots: String,
    pub selected: u8,
}

/// A station row without its placement.
#[derive(Debug)]
pub struct StationRow {
    pub id: u64,
    pub kind: u8,
    pub slots: String,
    pub fuel: u32,
    pub cook: u32,
    /// Microseconds since the Unix epoch of the last furnace catch-up.
    pub last_tick: i64,
}

/// A world drop without its position.
#[derive(Clone, Copy, Debug)]
pub struct LootRow {
    pub id: u64,
    pub item_id: u16,
    pub count: u16,
}

/// A row to insert when the world is first seeded: the `index`-th entry of
/// the default layout (whose placement the host knows).
#[derive(Debug)]
pub struct StationSeed {
    pub index: usize,
    pub kind: u8,
    pub slots: String,
    pub fuel: u32,
    pub cook: u32,
}

#[derive(Clone, Copy, Debug)]
pub struct LootSeed {
    pub index: usize,
    pub item_id: u16,
    pub count: u16,
}

#[derive(Debug)]
pub struct WorldSeed {
    pub stations: Vec<StationSeed>,
    pub loot: Vec<LootSeed>,
}

/// Default yard: chest, furnace, workbench (in this order).
pub open spec fn default_station_kinds() -> Seq<StationKind> {
    seq![StationKind::Chest, StationKind::Furnace, StationKind::Workbench]
}

/// Default ground loot as `(item, count)`.
pub open spec fn default_loot() -> Seq<(u16, u16)> {
    seq![(WOOD, 6u16), (STONE, 4u16), (ORE, 3u16), (COAL, 4u16), (RAW_MEAT, 2u16)]
}

/// What every new player starts with, as `(item, count)`.
pub open spec fn starter_kit() -> Seq<(u16, u16)> {
    seq![(WOOD, 12u16), (STONE, 8u16), (COAL, 6u16), (ORE, 4u16), (RAW_MEAT, 2u16), (STICK, 4u16)]
}

/// The kinds of the default stations, in layout order.
pub fn default_stations() -> (r: Vec<StationKind>)
    ensures
        r@ == default_station_kinds(),
{
    let r = vec![StationKind::Chest, StationKind::Furnace, StationKind::Workbench];
    assert(r@ =~= default_station_kinds());
    r
}

/// The default ground loot, in layout order.
pub fn default_loot_kit() -> (r: Vec<(u16, u16)>)
    ensures
        r@ == default_loot(),
{
    let r = vec![(WOOD, 6u16), (STONE, 4u16), (ORE, 3u16), (COAL, 4u16), (RAW_MEAT, 2u16)];
    assert(r@ =~= default_loot());
    r
}

/// The starter kit.
pub fn starter_kit_items() -> (r: Vec<(u16, u16)>)
    ensures
        r@ == starter_kit(),
{
    let r = vec![(WOOD, 12u16), (STONE, 8u16), (COAL, 6u16), (ORE, 4u16), (RAW_MEAT, 2u16), (STICK, 4u16)];
    assert(r@ =~= starter_kit());
    r
}

/// Inserting each `(item, count)` in order.
pub open spec fn insert_all(s: Seq<Stack>, kit: Seq<(u16, u16)>) -> Seq<Stack>
    decreases kit.len(),
{
    if kit.len() == 0 {
        s
    } else {
        insert_all(insert_of(s, new_stack(ItemId(kit[0].0), kit[0].1 as int)).0, kit.drop_first())
    }
}

/// The bag every new player is given.
pub open spec fn starter_bag() -> Seq<Stack> {
    insert_all(Seq::new(BAG_SLOTS as nat, |i: int| empty_stack()), starter_kit())
}

/// Pack a bag into its row text.
pub fn pack_bag(slots: &[Stack]) -> (r: String)
    ensures
        r@ == encode_chars(slots@),
{
    encode_slots(slots)
}

/// Read a bag row as `BAG_SLOTS` slots.
pub fn unpack_bag(s: &str) -> (r: Vec<Stack>)
    ensures
        r@ == unpacked(s@, BAG_SLOTS as nat),
{
    decode_slots(s, BAG_SLOTS)
}

/// Read a station row as the kind's number of slots.
pub fn unpack_station(kind: StationKind, s: &str) -> (r: Vec<Stack>)
    ensures
        r@ == unpacked(s@, spec_kind_slots(kind) as nat),
{
    decode_slots(s, kind.slots())
}

/// The default layout: three stations with empty slots, five loot piles.
pub open spec fn is_default_seed(w: WorldSeed) -> bool {
    &&& w.stations@.len() == 3
    &&& w.loot@.len() == 5
    &&& forall|i: int|
        0 <= i < 3 ==> {
            let st = #[trigger] w.stations@[i];
            &&& st.index == i
            &&& st.kind == spec_kind_as_u8(default_station_kinds()[i])
            &&& st.fuel == 0 && st.cook == 0
            &&& st.slots@ == encode_chars(
                Seq::new(spec_kind_slots(default_station_kinds()[i]) as nat, |k: int| empty_stack()),
            )
        }
    &&& forall|i: int|
        0 <= i < 5 ==> {
            let l = #[trigger] w.loot@[i];
            &&& l.index == i
            &&& l.item_id == default_loot()[i].0
            &&& l.count == default_loot()[i].1
        }
}

/// Seeding the world: only when no station exists yet, the default stations
/// (with empty slots) and the default loot.
pub fn seed_world(any_station: bool) -> (r: Option<WorldSeed>)
    ensures
        any_station ==> r is None,
        !any_station ==> (r matches Some(w) && is_default_seed(w)),
{
    if any_station {
        return None;
    }
    let kinds = default_stations();
    let mut stations: Vec<StationSeed> = Vec::new();
    let mut i: usize = 0;
    while i < kinds.len()
        invariant
            kinds@ == default_station_kinds(),
            i <= 3,
            stations@.len() == i,
            forall|j: int|
                0 <= j < i ==> {
                    let st = #[trigger] stations@[j];
                    &&& st.index == j
                    &&& st.kind == spec_kind_as_u8(default_station_kinds()[j])
                    &&& st.fuel == 0 && st.cook == 0
                    &&& st.slots@ == encode_chars(
                        Seq::new(spec_kind_slots(default_station_kinds()[j]) as nat, |k: int| empty_stack()),
                    )
                },
        decreases 3 - i,
    {
        let kind = kinds[i];
        let slots = empty_slots(kind.slots());
        stations.push(StationSeed { index: i, kind: kind.as_u8(), slots: encode_slots(slots.as_slice()), fuel: 0, cook: 0 });
        i += 1;
    }
    let items = default_loot_kit();
    let mut loot: Vec<LootSeed> = Vec::new();
    let mut j: usize = 0;
    while j < items.len()
        invariant
            items@ == default_loot(),
            j <= 5,
            loot@.len() == j,
            forall|k: int|
                0 <= k < j ==> {
                    let l = #[trigger] loot@[k];
                    &&& l.index == k
                    &&& l.item_id == default_loot()[k].0
                    &&& l.count == default_loot()[k].1
                },
        decreases 5 - j,
    {
        let (item, count) = items[j];
        loot.push(LootSeed { index: j, item_id: item, count });
        j += 1;
    }
    Some(WorldSeed { stations, loot })
}

/// The inventory row a connecting player gets if they have none yet.
pub fn give_starter(has_inventory: bool) -> (r: Option<InventoryRow>)
    ensures
        has_inventory ==> r is None,
        !has_inventory ==> (r matches Some(inv) && inv.selected == 0 && inv.slots@ == encode_chars(
            starter_bag(),
        )),
{
    if has_inventory {
        return None;
    }
    let mut bag = empty_slots(BAG_SLOTS);
    let kit = starter_kit_items();
    let mut i: usize = 0;
    let ghost start = bag@;
    assert(kit@.skip(0) =~= kit@);
    while i < kit.len()
        invariant
            kit@ == starter_kit(),
            i <= kit@.len(),
            start == Seq::new(BAG_SLOTS as nat, |k: int| empty_stack()),
            insert_all(start, kit@) == insert_all(bag@, kit@.skip(i as int)),
        decreases kit@.len() - i,
    {
        let (id, n) = kit[i];
        assert(kit@.skip(i as int).drop_first() =~= kit@.skip(i + 1));
        let _ = insert_stack(bag.as_mut_slice(), Stack::new(ItemId(id), n));
        i += 1;
    }
    assert(kit@.skip(i as int) =~= Seq::<(u16, u16)>::empty());
    Some(InventoryRow { slots: pack_bag(bag.as_slice()), selected: 0 })
}

/// A loot pile picked up into the bag; returns what did not fit (the host
/// deletes the pile when nothing is left, else keeps the rest on the ground).
pub fn pickup_loot(inv: &mut InventoryRow, loot: LootRow) -> (left: Stack)
    ensures
        ({
            let r = insert_of(
                unpacked(old(inv).slots@, BAG_SLOTS as nat),
                new_stack(ItemId(loot.item_id), loot.count as int),
            );
            final(inv).slots@ == encode_chars(r.0) && left == r.1
        }),
        final(inv).selected == old(inv).selected,
{
    let mut bag = unpack_bag(inv.slots.as_str());
    let left = insert_stack(bag.as_mut_slice(), Stack::new(ItemId(loot.item_id), loot.count));
    inv.slots = pack_bag(bag.as_slice());
    left
}

/// The selected bag slot (clamped to the bag) as an index.
pub open spec fn selected_index(selected: u8) -> int {
    if (selected as int) < BAG_SLOTS as int { selected as int } else { BAG_SLOTS - 1 }
}

/// One item of the selected slot dropped into the world. Nothing changes when
/// that slot is empty.
pub fn drop_selected(inv: &mut InventoryRow) -> (one: Option<Stack>)
    ensures
        ({
            let bag = unpacked(old(inv).slots@, BAG_SLOTS as nat);
            let i = selected_index(old(inv).selected);
            if is_empty_stack(bag[i]) {
                one is None && final(inv).slots@ == old(inv).slots@
            } else {
                one == Some(new_stack(bag[i].item, 1)) && final(inv).slots@ == encode_chars(
                    bag.update(i, minus_one(bag[i])),
                )
            }
        }),
        final(inv).selected == old(inv).selected,
{
    let mut bag = unpack_bag(inv.slots.as_str());
    let i: usize = if (inv.selected as usize) < BAG_SLOTS { inv.selected as usize } else { BAG_SLOTS - 1 };
    let one = take_one(bag.as_mut_slice(), i);
    match one {
        None => None,
        Some(s) => {
            inv.slots = pack_bag(bag.as_slice());
            Some(s)
        },
    }
}

/// Select a bag slot, clamped to the bag.
pub fn select_slot(inv: &mut InventoryRow, slot: u8)
    ensures
        final(inv).selected as int == selected_index(slot),
        final(inv).slots == old(inv).slots,
{
    inv.selected = if (slot as usize) < BAG_SLOTS { slot } else { (BAG_SLOTS - 1) as u8 };
}

/// The bag row after swapping slots `a` and `b`; out-of-range slots leave it as it is.
pub open spec fn swap_row(slots: Seq<char>, a: u8, b: u8) -> Seq<char> {
    let bag = unpacked(slots, BAG_SLOTS as nat);
    if a as int >= BAG_SLOTS || b as int >= BAG_SLOTS {
        slots
    } else {
        encode_chars(bag.update(a as int, bag[b as int]).update(b as int, bag[a as int]))
    }
}

/// Swap two bag slots; out-of-range slots leave the row untouched.
pub fn swap_slots(inv: &mut InventoryRow, a: u8, b: u8)
    ensures
        final(inv).slots@ == swap_row(old(inv).slots@, a, b),
        final(inv).selected == old(inv).selected,
{
    let mut bag = unpack_bag(inv.slots.as_str());
    let a = a as usize;
    let b = b as usize;
    if a >= bag.len() || b >= bag.len() {
        return;
    }
    let x = bag[a];
    let y = bag[b];
    bag.set(a, y);
    bag.set(b, x);
    inv.slots = pack_bag(bag.as_slice());
}

/// The rows a bag-to-station move writes, and whether it writes them: the
/// bag slot is merged into the station slot (`to_station`), or the station
/// slot is poured into the bag; out-of-range or empty sources write nothing.
pub open spec fn row_transfer(inv: Seq<char>, st: Seq<char>, kind: u8, bag_slot: u8, st_slot: u8, to_station: bool) -> (
    Seq<char>,
    Seq<char>,
    bool,
) {
    let bag = unpacked(inv, BAG_SLOTS as nat);
    let slots = unpacked(st, spec_kind_slots(spec_kind_from_u8(kind)) as nat);
    let bi = bag_slot as int;
    let si = st_slot as int;
    let ok = bi < BAG_SLOTS && si < slots.len() && if to_station {
        !is_empty_stack(bag[bi])
    } else {
        !is_empty_stack(slots[si])
    };
    if !ok {
        (inv, st, false)
    } else if to_station {
        let r = insert_of(seq![slots[si]], bag[bi]);
        (encode_chars(bag.update(bi, r.1)), encode_chars(slots.update(si, r.0[0])), true)
    } else {
        let r = insert_of(bag, slots[si]);
        (encode_chars(r.0), encode_chars(slots.update(si, r.1)), true)
    }
}

/// Move a stack between the bag and an open station slot. `to_station`
/// moves the bag slot into the station slot (merging when the items match);
/// otherwise the station slot is poured into the bag. Returns whether the rows
/// were written.
pub fn transfer_station(
    inv: &mut InventoryRow,
    st: &mut StationRow,
    bag_slot: u8,
    st_slot: u8,
    to_station: bool,
) -> (written: bool)
    ensures
        ({
            let bag = unpacked(old(inv).slots@, BAG_SLOTS as nat);
            let slots = unpacked(old(st).slots@, spec_kind_slots(spec_kind_from_u8(old(st).kind)) as nat);
            let bi = bag_slot as int;
            let si = st_slot as int;
            let ok = bi < BAG_SLOTS && si < slots.len() && if to_station {
                !is_empty_stack(bag[bi])
            } else {
                !is_empty_stack(slots[si])
            };
            &&& written == ok
            &&& !ok ==> final(inv).slots == old(inv).slots && final(st).slots == old(st).slots
            &&& (ok && to_station) ==> {
                let r = insert_of(seq![slots[si]], bag[bi]);
                &&& final(inv).slots@ == encode_chars(bag.update(bi, r.1))
                &&& final(st).slots@ == encode_chars(slots.update(si, r.0[0]))
            }
            &&& (ok && !to_station) ==> {
                let r = insert_of(bag, slots[si]);
                &&& final(inv).slots@ == encode_chars(r.0)
                &&& final(st).slots@ == encode_chars(slots.update(si, r.1))
            }
        }),
        (final(inv).slots@, final(st).slots@, written) == row_transfer(
            old(inv).slots@,
            old(st).slots@,
            old(st).kind,
            bag_slot,
            st_slot,
            to_station,
        ),
        final(inv).selected == old(inv).selected,
        final(st).id == old(st).id && final(st).kind == old(st).kind && final(st).fuel == old(st).fuel
            && final(st).cook == old(st).cook && final(st).last_tick == old(st).last_tick,
{
    let kind = StationKind::from_u8(st.kind);
    let mut bag = unpack_bag(inv.slots.as_str());
    let mut slots = unpack_station(kind, st.slots.as_str());
    let bi = bag_slot as usize;
    let si = st_slot as usize;
    if bi >= bag.len() || si >= slots.len() {
        return false;
    }
    if to_station {
        if bag[bi].is_empty() {
            return false;
        }
        let src = bag[bi];
        let mut one: Vec<Stack> = vec![slots[si]];
        assert(one@ =~= seq![slots@[si as int]]);
        let left = insert_stack(one.as_mut_slice(), src);
        slots.set(si, one[0]);
        bag.set(bi, left);
    } else {
        if slots[si].is_empty() {
            return false;
        }
        let src = slots[si];
        let left = insert_stack(bag.as_mut_slice(), src);
        slots.set(si, left);
    }
    inv.slots = pack_bag(bag.as_slice());
    st.slots = encode_slots(slots.as_slice());
    true
}

/// Some nearby station (given by its wire kind) offers `station`.
pub open spec fn station_near(near_kinds: Seq<u8>, station: CraftStation) -> bool {
    exists|k: int| 0 <= k < near_kinds.len() && spec_craft_station(spec_kind_from_u8(#[trigger] near_kinds[k])) == Some(station)
}

/// Craft a recipe from the bag. `near_kinds` are the wire kinds of the
/// stations within reach of the player. Hand recipes need no station; the
/// others need a station of their kind nearby (a furnace recipe crafts at
/// once next to a furnace). Returns whether the row was written.
pub fn craft(inv: &mut InventoryRow, recipe_id: u16, near_kinds: &[u8]) -> (written: bool)
    requires
        spec_recipe_by_id(recipe_id) matches Some(r) ==> counts_fit(
            unpacked(old(inv).slots@, BAG_SLOTS as nat),
            r.inputs@,
        ),
    ensures
        ({
            let bag = unpacked(old(inv).slots@, BAG_SLOTS as nat);
            match spec_recipe_by_id(recipe_id) {
                None => !written,
                Some(r) => {
                    let ok = (r.station == CraftStation::Hand || station_near(near_kinds@, r.station))
                        && has_inputs(bag, r.inputs@);
                    &&& written == ok
                    &&& ok ==> final(inv).slots@ == encode_chars(
                        insert_of(pay_of(bag, r.inputs@), new_stack(r.output.item, r.output.count as int)).0,
                    )
                },
            }
        }),
        !written ==> final(inv).slots == old(inv).slots,
        final(inv).selected == old(inv).selected,
{
    let recipe = match recipe_by_id(recipe_id) {
        Some(r) => r,
        None => return false,
    };
    if recipe.station != CraftStation::Hand {
        let mut nearby = false;
        let mut k: usize = 0;
        while k < near_kinds.len()
            invariant
                k <= near_kinds@.len(),
                nearby == exists|j: int| 0 <= j < k && spec_craft_station(spec_kind_from_u8(#[trigger] near_kinds@[j])) == Some(recipe.station),
            decreases near_kinds@.len() - k,
        {
            let c = StationKind::from_u8(near_kinds[k]).craft_station();
            if c == Some(recipe.station) {
                nearby = true;
            }
            k += 1;
        }
        if !nearby {
            return false;
        }
    }
    let mut bag = unpack_bag(inv.slots.as_str());
    if !take_inputs(bag.as_mut_slice(), &recipe) {
        return false;
    }
    let _ = insert_stack(bag.as_mut_slice(), recipe.output.to_stack());
    inv.slots = pack_bag(bag.as_slice());
    true
}

/// `n` furnace ticks in a row.
pub open spec fn furnace_run(s: Seq<Stack>, fuel: u32, cook: u32, n: nat) -> (Seq<Stack>, u32, u32)
    decreases n,
{
    if n == 0 {
        (s, fuel, cook)
    } else {
        let r = furnace_step(s, fuel, cook);
        furnace_run(r.0, r.1, r.2, (n - 1) as nat)
    }
}

/// None of the `n` ticks would push the cook counter past `u32::MAX`.
pub open spec fn furnace_run_fits(s: Seq<Stack>, fuel: u32, cook: u32, n: nat) -> bool
    decreases n,
{
    if n == 0 {
        true
    } else {
        let r = furnace_step(s, fuel, cook);
        !(furnace_cooks(s, fuel) && cook == u32::MAX) && furnace_run_fits(r.0, r.1, r.2, (n - 1) as nat)
    }
}

/// Whole 50 ms ticks from `then` to `now`, at most 4000 (none if time went back).
pub open spec fn ticks_between(now: i64, then: i64) -> nat {
    let d = now - then;
    if d <= 0 {
        0
    } else {
        let sat = if d > i64::MAX { i64::MAX as int } else { d };
        let t = sat / 50_000;
        if t > 4000 { 4000 } else { t as nat }
    }
}

proof fn lemma_run_step(s: Seq<Stack>, fuel: u32, cook: u32, n: nat)
    requires
        n > 0,
    ensures
        furnace_run(s, fuel, cook, n) == ({
            let r = furnace_step(s, fuel, cook);
            furnace_run(r.0, r.1, r.2, (n - 1) as nat)
        }),
{
}

/// Bring a furnace row up to `now`: run the ticks that elapsed since its last
/// catch-up and stamp it. Other station kinds, and rows with no whole tick
/// elapsed, come back unchanged.
pub fn catch_up_station(row: StationRow, now: i64) -> (r: StationRow)
    requires
        spec_kind_from_u8(row.kind) == StationKind::Furnace ==> furnace_run_fits(
            unpacked(row.slots@, 3),
            row.fuel,
            row.cook,
            ticks_between(now, row.last_tick),
        ),
    ensures
        r.id == row.id && r.kind == row.kind,
        (spec_kind_from_u8(row.kind) != StationKind::Furnace || ticks_between(now, row.last_tick) == 0)
            ==> r.slots == row.slots && r.fuel == row.fuel && r.cook == row.cook && r.last_tick == row.last_tick,
        (spec_kind_from_u8(row.kind) == StationKind::Furnace && ticks_between(now, row.last_tick) > 0) ==> ({
            let run = furnace_run(unpacked(row.slots@, 3), row.fuel, row.cook, ticks_between(now, row.last_tick));
            &&& r.slots@ == encode_chars(run.0)
            &&& r.fuel == run.1
            &&& r.cook == run.2
            &&& r.last_tick == now
        }),
{
    let mut row = row;
    let kind = StationKind::from_u8(row.kind);
    if kind != StationKind::Furnace {
        return row;
    }
    let diff: i128 = now as i128 - row.last_tick as i128;
    let ticks: u32 = if diff <= 0 {
        0
    } else {
        let sat: i128 = if diff > i64::MAX as i128 { i64::MAX as i128 } else { diff };
        let t = sat / 50_000;
        if t > 4000 { 4000 } else { t as u32 }
    };
    assert(ticks == ticks_between(now, row.last_tick));
    if ticks == 0 {
        return row;
    }
    let mut slots = unpack_station(kind, row.slots.as_str());
    let mut fuel = row.fuel;
    let mut cook = row.cook;
    let ghost total = furnace_run(slots@, fuel, cook, ticks as nat);
    let mut k: u32 = 0;
    while k < ticks
        invariant
            k <= ticks,
            furnace_run(slots@, fuel, cook, (ticks - k) as nat) == total,
            furnace_run_fits(slots@, fuel, cook, (ticks - k) as nat),
        decreases ticks - k,
    {
        proof { lemma_run_step(slots@, fuel, cook, (ticks - k) as nat); }
        step_furnace(slots.as_mut_slice(), &mut fuel, &mut cook);
        k += 1;
    }
    row.slots = encode_slots(slots.as_slice());
    row.fuel = fuel;
    row.cook = cook;
    row.last_tick = now;
    row
}

/// What the `init` reducer writes: the default world, unless one exists.
pub fn init(any_station: bool) -> (r: Option<WorldSeed>)
    ensures
        any_station ==> r is None,
        !any_station ==> (r matches Some(w) && is_default_seed(w)),
{
    seed_world(any_station)
}

/// Rows a connecting client causes: the world seed if there is none yet, a
/// starter inventory if the player has none, and the new player's name
/// (`Player-` and the first eight bytes of the identity's hex) if unknown.
#[derive(Debug)]
pub struct Connected {
    pub seed: Option<WorldSeed>,
    pub starter: Option<InventoryRow>,
    pub new_player_name: Option<String>,
}

proof fn lemma_encode_utf8_concat(a: Seq<char>, b: Seq<char>)
    ensures
        encode_utf8(a + b) == encode_utf8(a) + encode_utf8(b),
    decreases a.len(),
{
    if a.len() == 0 {
        assert(a + b =~= b);
        assert(encode_utf8(a) =~= Seq::<u8>::empty());
        assert(encode_utf8(a) + encode_utf8(b) =~= encode_utf8(b));
    } else {
        lemma_encode_utf8_concat(a.drop_first(), b);
        assert((a + b).drop_first() =~= a.drop_first() + b);
        assert((a + b)[0] == a[0]);
        assert(encode_utf8(a + b) =~= encode_utf8(a) + encode_utf8(b));
    }
}

/// The `client_connected` reducer's decisions.
pub fn client_connected(any_station: bool, has_inventory: bool, has_player: bool, identity_hex: &str) -> (r: Connected)
    requires
        has_player || is_char_boundary(identity_hex.spec_bytes(), 8),
    ensures
        any_station ==> r.seed is None,
        !any_station ==> (r.seed matches Some(w) && is_default_seed(w)),
        has_inventory ==> r.starter is None,
        !has_inventory ==> (r.starter matches Some(inv) && inv.selected == 0 && inv.slots@ == encode_chars(
            starter_bag(),
        )),
        has_player ==> r.new_player_name is None,
        !has_player ==> (r.new_player_name matches Some(name) && encode_utf8(name@) == encode_utf8("Player-"@)
            + identity_hex.spec_bytes().subrange(0, 8)),
{
    let seed = seed_world(any_station);
    let starter = give_starter(has_inventory);
    let new_player_name = if has_player {
        None
    } else {
        let (head, _) = identity_hex.split_at(8);
        let mut name = String::from_str("Player-");
        name.append(head);
        proof {
            lemma_encode_utf8_concat("Player-"@, head@);
        }
        Some(name)
    };
    Connected { seed, starter, new_player_name }
}

/// The `client_disconnected` reducer changes nothing.
pub fn client_disconnected() {
}

/// The `set_name` reducer: a known player's name becomes `name`.
pub fn set_name(player_name: &mut String, name: String)
    ensures
        *final(player_name) == name,
{
    *player_name = name;
}

} // verus!
