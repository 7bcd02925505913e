//! What the world's item store keeps: merging piles on the ground, picking
//! them up, and moving stacks between the bag and a station neither create
//! nor destroy items.
use vstd::prelude::*;

use crate::items::catalog::{ItemId, EMPTY};
use crate::items::laws::{
    amount, distinct_items, law_insert_conserves, law_pay_removes_exactly, lemma_count_push, lemma_count_remove,
    lemma_count_update,
};
use crate::items::logic::{count_of, insert_of, minus_one, pay_of};
use crate::items::recipe::{lemma_recipe_by_id_distinct, spec_recipe_by_id, Ingredient};
use crate::items::stack::{absorb_of, empty_stack, is_empty_stack, new_stack, Stack};
use crate::store::{
    cell_exists, craft_of, get_of, loot_index, merge_from, merge_into, merge_of, move_of, pickup_of, set_of, station_pos, transfer_of,
    LootView, SlotRef, StoreModel,
};

verus! {

/// The stacks lying on the ground, pile by pile.
pub open spec fn ground_stacks(l: Seq<LootView>) -> Seq<Stack> {
    l.map_values(|p: LootView| p.stack)
}

/// How many of `it` lie on the ground.
pub open spec fn on_ground(l: Seq<LootView>, it: ItemId) -> nat {
    count_of(ground_stacks(l), it)
}

/// Absorbing one stack into another keeps the total of every real item.
proof fn lemma_absorb_conserves(a: Stack, b: Stack, it: ItemId)
    requires
        it.0 != EMPTY,
    ensures
        amount(absorb_of(a, b).0, it) + amount(absorb_of(a, b).1, it) == amount(a, it) + amount(b, it),
{
}

/// Merging pile `i` with the piles after `j` keeps the ground's total of
/// every real item.
proof fn lemma_merge_into_conserves(l: Seq<LootView>, i: int, j: int, near: Seq<(u64, u64)>, it: ItemId)
    requires
        0 <= i < j,
        it.0 != EMPTY,
    ensures
        on_ground(merge_into(l, i, j, near), it) == on_ground(l, it),
    decreases l.len() - j,
{
    if i < l.len() && j < l.len() {
        let a = l[i];
        let b = l[j];
        if a.stack.item == b.stack.item && !is_empty_stack(a.stack) && crate::store::is_near(near, a.id, b.id) {
            let r = absorb_of(a.stack, b.stack);
            let l1 = l.update(i, LootView { id: a.id, stack: r.0 });
            lemma_absorb_conserves(a.stack, b.stack, it);
            assert(ground_stacks(l1) =~= ground_stacks(l).update(i, r.0));
            lemma_count_update(ground_stacks(l), i, r.0, it);
            if is_empty_stack(r.1) {
                let l2 = l1.remove(j);
                assert(ground_stacks(l2) =~= ground_stacks(l1).remove(j));
                lemma_count_remove(ground_stacks(l1), j, it);
                lemma_merge_into_conserves(l2, i, j, near, it);
            } else {
                let l2 = l1.update(j, LootView { id: b.id, stack: r.1 });
                assert(ground_stacks(l2) =~= ground_stacks(l1).update(j, r.1));
                lemma_count_update(ground_stacks(l1), j, r.1, it);
                lemma_merge_into_conserves(l2, i, j + 1, near, it);
            }
        } else {
            lemma_merge_into_conserves(l, i, j + 1, near, it);
        }
    }
}

proof fn lemma_merge_from_conserves(l: Seq<LootView>, i: int, near: Seq<(u64, u64)>, steps: nat, it: ItemId)
    requires
        it.0 != EMPTY,
    ensures
        on_ground(merge_from(l, i, near, steps), it) == on_ground(l, it),
    decreases steps,
{
    if steps > 0 && 0 <= i < l.len() {
        lemma_merge_into_conserves(l, i, i + 1, near, it);
        lemma_merge_from_conserves(merge_into(l, i, i + 1, near), i + 1, near, (steps - 1) as nat, it);
    }
}

/// Merging nearby piles neither creates nor destroys items: the ground holds
/// as many of every real item afterwards.
pub proof fn law_merge_conserves(l: Seq<LootView>, near: Seq<(u64, u64)>, it: ItemId)
    requires
        it.0 != EMPTY,
    ensures
        on_ground(merge_of(l, near), it) == on_ground(l, it),
{
    lemma_merge_from_conserves(l, 0, near, l.len(), it);
}

/// Picking up a pile moves items from the ground into the bag and loses
/// none: bag plus ground hold as many of every real item afterwards.
pub proof fn law_pickup_conserves(m: StoreModel, id: u64, it: ItemId)
    requires
        it.0 != EMPTY,
    ensures
        count_of(pickup_of(m, id).0.bag, it) + on_ground(pickup_of(m, id).0.loot, it) == count_of(m.bag, it)
            + on_ground(m.loot, it),
{
    match loot_index(m.loot, id) {
        None => {},
        Some(k) => {
            crate::store::lemma_loot_index_bounds(m.loot, id);
            let pile = m.loot[k];
            let r = insert_of(m.bag, pile.stack);
            let g = ground_stacks(m.loot);
            assert(g[k] == pile.stack);
            assert(ground_stacks(m.loot.remove(k)) =~= g.remove(k));
            lemma_count_remove(g, k, it);
            if is_empty_stack(pile.stack) {
                assert(r == (m.bag, pile.stack));
            } else {
                law_insert_conserves(m.bag, pile.stack);
            }
            if !is_empty_stack(r.1) {
                let rest = LootView { id: pile.id, stack: r.1 };
                assert(ground_stacks(m.loot.remove(k).push(rest)) =~= g.remove(k).push(r.1));
                lemma_count_push(g.remove(k), r.1, it);
            }
        },
    }
}

/// The slots of the open station (none when no station is open).
pub open spec fn open_slots(m: StoreModel) -> Seq<Stack> {
    match m.open_station {
        Some(id) => match station_pos(m.stations, id) {
            Some(k) => m.stations[k].slots,
            None => Seq::empty(),
        },
        None => Seq::empty(),
    }
}

/// Moving a stack between the bag and the open station loses and creates
/// nothing: bag plus station hold as many of every real item afterwards.
pub proof fn law_transfer_conserves(m: StoreModel, b: usize, i: usize, to_station: bool, it: ItemId)
    requires
        it.0 != EMPTY,
    ensures
        count_of(transfer_of(m, b, i, to_station).0.bag, it) + count_of(open_slots(transfer_of(m, b, i, to_station).0), it)
            == count_of(m.bag, it) + count_of(open_slots(m), it),
{
    if let Some(id) = m.open_station {
        crate::store::lemma_station_index_bound(m.stations, id);
        if let Some(k) = station_pos(m.stations, id) {
            let st = m.stations[k];
            if b < m.bag.len() && i < st.slots.len() {
                let m2 = transfer_of(m, b, i, to_station).0;
                crate::store::lemma_station_index_bound(m2.stations, id);
                if to_station {
                    let r = absorb_of(st.slots[i as int], m.bag[b as int]);
                    lemma_absorb_conserves(st.slots[i as int], m.bag[b as int], it);
                    lemma_count_update(m.bag, b as int, r.1, it);
                    lemma_count_update(st.slots, i as int, r.0, it);
                    assert(station_pos(m2.stations, id) == Some(k)) by {
                        lemma_station_pos_same_ids(m.stations, m2.stations, id);
                    }
                } else {
                    let r = absorb_of(m.bag[b as int], st.slots[i as int]);
                    lemma_absorb_conserves(m.bag[b as int], st.slots[i as int], it);
                    lemma_count_update(m.bag, b as int, r.0, it);
                    lemma_count_update(st.slots, i as int, r.1, it);
                    assert(station_pos(m2.stations, id) == Some(k)) by {
                        lemma_station_pos_same_ids(m.stations, m2.stations, id);
                    }
                }
            }
        }
    }
}

/// Stations with the same ids in the same order are found at the same place.
proof fn lemma_station_pos_same_ids(a: Seq<crate::store::StationModel>, b: Seq<crate::store::StationModel>, id: u64)
    requires
        a.len() == b.len(),
        forall|k: int| 0 <= k < a.len() ==> #[trigger] a[k].id == b[k].id,
    ensures
        station_pos(a, id) == station_pos(b, id),
    decreases a.len(),
{
    if a.len() > 0 {
        lemma_station_pos_same_ids(a.drop_first(), b.drop_first(), id);
    }
}

/// How many of `it` the bag and the open station hold together.
pub open spec fn held(m: StoreModel, it: ItemId) -> nat {
    count_of(m.bag, it) + count_of(open_slots(m), it)
}

/// Overwriting an existing cell changes the held total by the difference,
/// and leaves every other cell as it was.
proof fn lemma_set_cell(m: StoreModel, slot: SlotRef, x: Stack, it: ItemId)
    requires
        cell_exists(m, slot),
    ensures
        held(set_of(m, slot, x), it) + amount(get_of(m, slot), it) == held(m, it) + amount(x, it),
        get_of(set_of(m, slot, x), slot) == x,
        forall|o: SlotRef| o != slot ==> #[trigger] get_of(set_of(m, slot, x), o) == get_of(m, o),
        forall|o: SlotRef| #[trigger] cell_exists(set_of(m, slot, x), o) == cell_exists(m, o),
        set_of(m, slot, x).open_station == m.open_station,
{
    let m2 = set_of(m, slot, x);
    match slot {
        SlotRef::Bag(i) => {
            lemma_count_update(m.bag, i as int, x, it);
        },
        SlotRef::Station(i) => {
            let id = m.open_station->0;
            crate::store::lemma_station_index_bound(m.stations, id);
            let k = station_pos(m.stations, id)->0;
            lemma_count_update(m.stations[k].slots, i as int, x, it);
            lemma_station_pos_same_ids(m.stations, m2.stations, id);
        },
    }
}

/// Moving between cells keeps the bag and open station's total of every
/// real item: refused moves change nothing, and accepted ones only move
/// items.
pub proof fn law_move_conserves(m: StoreModel, from: SlotRef, to: SlotRef, one: bool, it: ItemId)
    requires
        it.0 != EMPTY,
    ensures
        held(move_of(m, from, to, one).0, it) == held(m, it),
{
    let src = get_of(m, from);
    let moving = if one { new_stack(src.item, 1) } else { src };
    let dest = get_of(m, to);
    let kind = crate::store::open_kind_of(m.stations, m.open_station);
    if from == to || is_empty_stack(src) || !cell_exists(m, to) || !crate::items::station::spec_accepts(
        crate::store::spec_role(to, kind),
        moving,
    ) {
    } else if is_empty_stack(dest) || dest.item == moving.item {
        let r = absorb_of(dest, moving);
        assert(cell_exists(m, from));
        let rest = if one {
            if is_empty_stack(r.1) { minus_one(src) } else { src }
        } else if is_empty_stack(r.1) {
            empty_stack()
        } else {
            r.1
        };
        lemma_absorb_conserves(dest, moving, it);
        let m1 = set_of(m, to, r.0);
        lemma_set_cell(m, to, r.0, it);
        lemma_set_cell(m1, from, rest, it);
    } else if !one && crate::items::station::spec_accepts(crate::store::spec_role(from, kind), dest) {
        let m1 = set_of(m, from, dest);
        lemma_set_cell(m, from, dest, it);
        lemma_set_cell(m1, to, moving, it);
    } else {
    }
}

/// A move never leaves in its destination a stack that the destination's
/// slot role refuses, never leaves in its source a stack the source's role
/// refuses unless it held one already, and a move of a stack that the
/// destination refuses changes neither the bag nor any station.
pub proof fn law_move_respects_roles(m: StoreModel, from: SlotRef, to: SlotRef, one: bool)
    ensures
        ({
            let kind = crate::store::open_kind_of(m.stations, m.open_station);
            let r = move_of(m, from, to, one);
            r.1 && from != to ==> crate::items::station::spec_accepts(
                crate::store::spec_role(to, kind),
                get_of(r.0, to),
            )
        }),
        ({
            let kind = crate::store::open_kind_of(m.stations, m.open_station);
            let r = move_of(m, from, to, one);
            r.1 && from != to && crate::items::station::spec_accepts(
                crate::store::spec_role(from, kind),
                get_of(m, from),
            ) ==> crate::items::station::spec_accepts(crate::store::spec_role(from, kind), get_of(r.0, from))
        }),
        ({
            let kind = crate::store::open_kind_of(m.stations, m.open_station);
            let r = move_of(m, from, to, one);
            let src = get_of(m, from);
            let moving = if one { new_stack(src.item, 1) } else { src };
            from != to && !crate::items::station::spec_accepts(crate::store::spec_role(to, kind), moving) ==> !r.1
                && r.0.bag == m.bag && r.0.stations == m.stations
        }),
{
    let src = get_of(m, from);
    let moving = if one { new_stack(src.item, 1) } else { src };
    let dest = get_of(m, to);
    let kind = crate::store::open_kind_of(m.stations, m.open_station);
    let role = crate::store::spec_role(to, kind);
    if from == to || is_empty_stack(src) || !cell_exists(m, to) || !crate::items::station::spec_accepts(role, moving) {
    } else if is_empty_stack(dest) || dest.item == moving.item {
        let r = absorb_of(dest, moving);
        assert(cell_exists(m, from));
        let rest = if one {
            if is_empty_stack(r.1) { minus_one(src) } else { src }
        } else if is_empty_stack(r.1) {
            empty_stack()
        } else {
            r.1
        };
        let m1 = set_of(m, to, r.0);
        lemma_set_cell(m, to, r.0, moving.item);
        lemma_set_cell(m1, from, rest, moving.item);
        assert(get_of(move_of(m, from, to, one).0, to) == r.0);
        assert(is_empty_stack(r.0) || r.0.item == moving.item);
        assert(get_of(move_of(m, from, to, one).0, from) == rest);
        assert(is_empty_stack(rest) || rest.item == src.item);
    } else if !one && crate::items::station::spec_accepts(crate::store::spec_role(from, kind), dest) {
        let m1 = set_of(m, from, dest);
        lemma_set_cell(m, from, dest, moving.item);
        lemma_set_cell(m1, to, moving, moving.item);
    } else {
    }
}

/// No pair of the near list names pile `id`.
pub open spec fn lonely(near: Seq<(u64, u64)>, id: u64) -> bool {
    forall|k: int| 0 <= k < near.len() ==> (#[trigger] near[k]).0 != id && near[k].1 != id
}

proof fn lemma_merge_into_keeps(l: Seq<LootView>, i: int, j: int, near: Seq<(u64, u64)>, v: LootView)
    requires
        lonely(near, v.id),
        l.contains(v),
    ensures
        merge_into(l, i, j, near).contains(v),
    decreases l.len() - j,
{
    if j < 0 || i < 0 || i >= l.len() || j >= l.len() {
    } else {
        let a = l[i];
        let b = l[j];
        if a.stack.item == b.stack.item && !is_empty_stack(a.stack) && crate::store::is_near(near, a.id, b.id) {
            let k = choose|k: int| 0 <= k < near.len() && (#[trigger] near[k] == (a.id, b.id) || near[k] == (b.id, a.id));
            assert(near[k].0 != v.id && near[k].1 != v.id);
            let idx = choose|idx: int| 0 <= idx < l.len() && l[idx] == v;
            assert(idx != i && idx != j);
            let r = absorb_of(a.stack, b.stack);
            let l1 = l.update(i, LootView { id: a.id, stack: r.0 });
            assert(l1[idx] == v);
            if is_empty_stack(r.1) {
                let l2 = l1.remove(j);
                if idx < j {
                    assert(l2[idx] == v);
                } else {
                    assert(l2[idx - 1] == v);
                }
                lemma_merge_into_keeps(l2, i, j, near, v);
            } else {
                let l2 = l1.update(j, LootView { id: b.id, stack: r.1 });
                assert(l2[idx] == v);
                lemma_merge_into_keeps(l2, i, j + 1, near, v);
            }
        } else {
            lemma_merge_into_keeps(l, i, j + 1, near, v);
        }
    }
}

proof fn lemma_merge_from_keeps(l: Seq<LootView>, i: int, near: Seq<(u64, u64)>, steps: nat, v: LootView)
    requires
        lonely(near, v.id),
        l.contains(v),
    ensures
        merge_from(l, i, near, steps).contains(v),
    decreases steps,
{
    if steps == 0 || i < 0 || i >= l.len() {
    } else {
        lemma_merge_into_keeps(l, i, i + 1, near, v);
        lemma_merge_from_keeps(merge_into(l, i, i + 1, near), i + 1, near, (steps - 1) as nat, v);
    }
}

/// Merging only touches piles that the near list names: a pile no pair
/// mentions is still on the ground afterwards, with its id and stack.
pub proof fn law_merge_keeps_lonely_piles(l: Seq<LootView>, near: Seq<(u64, u64)>, k: int)
    requires
        0 <= k < l.len(),
        lonely(near, l[k].id),
    ensures
        merge_of(l, near).contains(l[k]),
{
    assert(l.contains(l[k]));
    lemma_merge_from_keeps(l, 0, near, l.len(), l[k]);
}

/// How many of `o` a list of ingredients asks for.
pub open spec fn needed(inputs: Seq<Ingredient>, o: ItemId) -> nat
    decreases inputs.len(),
{
    if inputs.len() == 0 {
        0
    } else {
        (if inputs[0].item == o { inputs[0].count as nat } else { 0 }) + needed(inputs.drop_first(), o)
    }
}

proof fn lemma_needed(inputs: Seq<Ingredient>, o: ItemId)
    requires
        distinct_items(inputs),
    ensures
        forall|k: int| 0 <= k < inputs.len() && inputs[k].item == o ==> needed(inputs, o) == inputs[k].count,
        (forall|k: int| 0 <= k < inputs.len() ==> #[trigger] inputs[k].item != o) ==> needed(inputs, o) == 0,
    decreases inputs.len(),
{
    if inputs.len() > 0 {
        let rest = inputs.drop_first();
        assert(distinct_items(rest)) by {
            assert forall|a: int, b: int| 0 <= a < b < rest.len() implies #[trigger] rest[a].item != #[trigger] rest[b].item by {
                assert(rest[a] == inputs[a + 1]);
                assert(rest[b] == inputs[b + 1]);
            }
        }
        lemma_needed(rest, o);
        assert forall|k: int| 0 <= k < inputs.len() && inputs[k].item == o implies needed(inputs, o) == inputs[k].count by {
            if k == 0 {
                assert forall|j: int| 0 <= j < rest.len() implies #[trigger] rest[j].item != o by {
                    assert(rest[j] == inputs[j + 1]);
                    assert(inputs[0].item != inputs[j + 1].item);
                }
            } else {
                assert(rest[k - 1] == inputs[k]);
                assert(inputs[0].item != inputs[k].item);
            }
        }
        if forall|k: int| 0 <= k < inputs.len() ==> #[trigger] inputs[k].item != o {
            assert(inputs[0].item != o);
            assert forall|j: int| 0 <= j < rest.len() implies #[trigger] rest[j].item != o by {
                assert(rest[j] == inputs[j + 1]);
            }
        }
    }
}

/// A craft that succeeds pays each ingredient and adds the product: the bag
/// ends with as many of every real item as before, less what the recipe
/// asks for, plus what it makes.
pub proof fn law_craft_pays_and_makes(m: StoreModel, recipe_id: u16, o: ItemId)
    requires
        o.0 != EMPTY,
        craft_of(m, recipe_id).1,
    ensures
        spec_recipe_by_id(recipe_id) matches Some(r) && count_of(craft_of(m, recipe_id).0.bag, o) + needed(
            r.inputs@,
            o,
        ) == count_of(m.bag, o) + (if o == r.output.item { r.output.count as nat } else { 0 }),
{
    let r = spec_recipe_by_id(recipe_id).unwrap();
    lemma_recipe_by_id_distinct(recipe_id);
    let paid = pay_of(m.bag, r.inputs@);
    law_pay_removes_exactly(m.bag, r.inputs@);
    lemma_needed(r.inputs@, o);
    let st = new_stack(r.output.item, r.output.count as int);
    let ins = insert_of(paid, st);
    assert(is_empty_stack(ins.1));
    assert(count_of(paid, o) + needed(r.inputs@, o) == count_of(m.bag, o)) by {
        if exists|k: int| 0 <= k < r.inputs@.len() && r.inputs@[k].item == o {
            let k = choose|k: int| 0 <= k < r.inputs@.len() && r.inputs@[k].item == o;
            assert(count_of(paid, r.inputs@[k].item) == count_of(m.bag, r.inputs@[k].item) - r.inputs@[k].count);
        } else {
            assert(forall|k: int| 0 <= k < r.inputs@.len() ==> #[trigger] r.inputs@[k].item != o);
        }
    }
    if is_empty_stack(st) {
    } else {
        law_insert_conserves(paid, st);
    }
}

} // verus!
