//! What the server's rows keep: moving stacks between a player's bag row and
//! a station row, and picking loot up into a bag row, neither create nor
//! destroy items, counted on the slots the rows read back as.
use vstd::prelude::*;
use vstd::utf8::encode_utf8;

use crate::items::catalog::{
    stack_limit, ItemId, BAG_SLOTS, COAL, EMPTY, ORE, RAW_MEAT, STICK, STONE, WOOD,
};
use crate::items::codec::{encode_chars, is_normal, law_codec_roundtrip, law_decode_shape};
use crate::items::laws::{amount, law_insert_conserves, lemma_count_single, lemma_count_update};
use crate::items::logic::{count_of, fill, insert_of, lemma_count_concat, lemma_fill_empty};
use crate::items::stack::{empty_stack, is_empty_stack, new_stack, Stack};
use crate::items::station::{spec_kind_from_u8, spec_kind_slots};
use crate::server::{insert_all, row_transfer, starter_bag, starter_kit, swap_row, unpacked};

verus! {

/// Sequences that agree slot by slot on `it` hold as many of it.
proof fn lemma_count_pointwise(a: Seq<Stack>, b: Seq<Stack>, it: ItemId)
    requires
        a.len() == b.len(),
        forall|i: int| 0 <= i < a.len() ==> amount(#[trigger] a[i], it) == amount(b[i], it),
    ensures
        count_of(a, it) == count_of(b, it),
    decreases a.len(),
{
    if a.len() > 0 {
        lemma_count_pointwise(a.drop_last(), b.drop_last(), it);
        assert(amount(a[a.len() - 1], it) == amount(b[b.len() - 1], it));
    }
}

/// A row written from slots reads back with as many of every real item.
pub proof fn lemma_row_reads_back(x: Seq<Stack>, it: ItemId)
    requires
        it.0 != EMPTY,
    ensures
        count_of(unpacked(encode_chars(x), x.len()), it) == count_of(x, it),
        unpacked(encode_chars(x), x.len()).len() == x.len(),
{
    law_codec_roundtrip(x, x.len());
    let back = unpacked(encode_chars(x), x.len());
    assert forall|i: int| 0 <= i < back.len() implies amount(#[trigger] back[i], it) == amount(x[i], it) by {
        assert(back[i] == new_stack(x[i].item, x[i].count as int));
    }
    lemma_count_pointwise(back, x, it);
}

/// Moving a stack between a bag row and a station row neither creates nor
/// destroys items: the two rows read back with as many of every real item.
pub proof fn law_row_transfer_conserves(
    inv: Seq<char>,
    st: Seq<char>,
    kind: u8,
    bag_slot: u8,
    st_slot: u8,
    to_station: bool,
    it: ItemId,
)
    requires
        it.0 != EMPTY,
    ensures
        ({
            let n = spec_kind_slots(spec_kind_from_u8(kind)) as nat;
            let out = row_transfer(inv, st, kind, bag_slot, st_slot, to_station);
            count_of(unpacked(out.0, BAG_SLOTS as nat), it) + count_of(unpacked(out.1, n), it) == count_of(
                unpacked(inv, BAG_SLOTS as nat),
                it,
            ) + count_of(unpacked(st, n), it)
        }),
{
    let n = spec_kind_slots(spec_kind_from_u8(kind)) as nat;
    let bag = unpacked(inv, BAG_SLOTS as nat);
    let slots = unpacked(st, n);
    let bi = bag_slot as int;
    let si = st_slot as int;
    let out = row_transfer(inv, st, kind, bag_slot, st_slot, to_station);
    if out.2 {
        if to_station {
            let src = bag[bi];
            let r = insert_of(seq![slots[si]], src);
            law_insert_conserves(seq![slots[si]], src);
            lemma_count_single(slots[si], it);
            lemma_count_single(r.0[0], it);
            assert(r.0 =~= seq![r.0[0]]);
            lemma_count_update(bag, bi, r.1, it);
            lemma_count_update(slots, si, r.0[0], it);
            lemma_row_reads_back(bag.update(bi, r.1), it);
            lemma_row_reads_back(slots.update(si, r.0[0]), it);
            if it != src.item {
                assert(count_of(r.0, it) == count_of(seq![slots[si]], it));
            }
        } else {
            let src = slots[si];
            let r = insert_of(bag, src);
            law_insert_conserves(bag, src);
            lemma_count_update(slots, si, r.1, it);
            lemma_row_reads_back(r.0, it);
            lemma_row_reads_back(slots.update(si, r.1), it);
            if it != src.item {
                assert(count_of(r.0, it) == count_of(bag, it));
            }
        }
    }
}

/// Picking a pile up into a bag row loses nothing: the row reads back with
/// what it held plus the pile, less what is handed back to the ground.
pub proof fn law_row_pickup_conserves(inv: Seq<char>, item_id: u16, count: u16, it: ItemId)
    requires
        it.0 != EMPTY,
    ensures
        ({
            let bag = unpacked(inv, BAG_SLOTS as nat);
            let pile = new_stack(ItemId(item_id), count as int);
            let r = insert_of(bag, pile);
            count_of(unpacked(encode_chars(r.0), BAG_SLOTS as nat), it) + amount(r.1, it) == count_of(bag, it)
                + amount(pile, it)
        }),
{
    let bag = unpacked(inv, BAG_SLOTS as nat);
    let pile = new_stack(ItemId(item_id), count as int);
    let r = insert_of(bag, pile);
    if is_empty_stack(pile) {
        assert(pile == empty_stack());
        lemma_row_reads_back(bag, it);
    } else {
        law_insert_conserves(bag, pile);
        lemma_row_reads_back(r.0, it);
    }
}

/// `k` empty slots.
spec fn empties(k: nat) -> Seq<Stack> {
    Seq::new(k, |i: int| empty_stack())
}

/// The stacks a kit lists, one per entry.
spec fn kit_stacks(kit: Seq<(u16, u16)>) -> Seq<Stack> {
    Seq::new(kit.len(), |j: int| Stack { item: ItemId(kit[j].0), count: kit[j].1 })
}

/// A kit each of whose entries is a real item, fits in one slot, and names
/// an item that neither `p` nor an earlier entry holds.
spec fn fresh_kit(p: Seq<Stack>, kit: Seq<(u16, u16)>) -> bool {
    &&& forall|j: int| 0 <= j < kit.len() ==> #[trigger] kit[j].0 != EMPTY
    &&& forall|j: int| 0 <= j < kit.len() ==> 0 < #[trigger] kit[j].1 <= stack_limit(ItemId(kit[j].0))
    &&& forall|j: int, l: int| 0 <= j < l < kit.len() ==> #[trigger] kit[j].0 != #[trigger] kit[l].0
    &&& forall|i: int, j: int| 0 <= i < p.len() && 0 <= j < kit.len() ==> #[trigger] p[i].item != ItemId(
        #[trigger] kit[j].0,
    )
    &&& forall|i: int| 0 <= i < p.len() ==> !is_empty_stack(#[trigger] p[i])
}

/// The pass over same-item stacks does nothing where no slot holds the item.
proof fn lemma_fill_no_match(s: Seq<Stack>, left: Stack)
    requires
        forall|i: int| 0 <= i < s.len() ==> #[trigger] s[i].item != left.item,
    ensures
        fill(s, left, true) == (s, left),
    decreases s.len(),
{
    if s.len() > 0 {
        assert(s[0].item != left.item);
        lemma_fill_no_match(s.drop_first(), left);
        assert(seq![s[0]] + s.drop_first() =~= s);
    }
}

/// The pass over empty slots walks past occupied ones.
proof fn lemma_fill_past_full(p: Seq<Stack>, rest: Seq<Stack>, left: Stack)
    requires
        forall|i: int| 0 <= i < p.len() ==> !is_empty_stack(#[trigger] p[i]),
    ensures
        fill(p + rest, left, false) == (p + fill(rest, left, false).0, fill(rest, left, false).1),
    decreases p.len(),
{
    if p.len() > 0 {
        assert(!is_empty_stack(p[0]));
        assert((p + rest).drop_first() =~= p.drop_first() + rest);
        lemma_fill_past_full(p.drop_first(), rest, left);
        assert(seq![p[0]] + (p.drop_first() + fill(rest, left, false).0) =~= p + fill(rest, left, false).0);
    } else {
        assert(p + rest =~= rest);
        assert(p + fill(rest, left, false).0 =~= fill(rest, left, false).0);
    }
}

/// A stack of an item the slots do not hold, that fits one slot, lands whole
/// in the first empty slot.
proof fn lemma_insert_fresh(p: Seq<Stack>, k: nat, st: Stack)
    requires
        k >= 1,
        st.item.0 != EMPTY,
        0 < st.count <= stack_limit(st.item),
        forall|i: int| 0 <= i < p.len() ==> #[trigger] p[i].item != st.item,
        forall|i: int| 0 <= i < p.len() ==> !is_empty_stack(#[trigger] p[i]),
    ensures
        insert_of(p + empties(k), st) == (p.push(st) + empties((k - 1) as nat), empty_stack()),
{
    let s = p + empties(k);
    assert forall|i: int| 0 <= i < s.len() implies #[trigger] s[i].item != st.item by {
        if i >= p.len() {
            assert(s[i] == empty_stack());
        }
    }
    lemma_fill_no_match(s, st);
    lemma_fill_past_full(p, empties(k), st);
    let e = empties(k);
    assert(e[0] == empty_stack());
    assert(e.drop_first() =~= empties((k - 1) as nat));
    lemma_fill_empty(empties((k - 1) as nat), false);
    assert(fill(e, st, false) == (seq![st] + empties((k - 1) as nat), empty_stack()));
    assert(p + (seq![st] + empties((k - 1) as nat)) =~= p.push(st) + empties((k - 1) as nat));
}

/// Inserting a fresh kit into slots that end in enough empty ones puts each
/// entry, whole, in the next empty slot.
proof fn lemma_insert_all_fresh(p: Seq<Stack>, k: nat, kit: Seq<(u16, u16)>)
    requires
        k >= kit.len(),
        fresh_kit(p, kit),
    ensures
        insert_all(p + empties(k), kit) == p + kit_stacks(kit) + empties((k - kit.len()) as nat),
    decreases kit.len(),
{
    if kit.len() == 0 {
        assert(p + kit_stacks(kit) =~= p);
    } else {
        let st = Stack { item: ItemId(kit[0].0), count: kit[0].1 };
        assert(kit[0].0 != EMPTY);
        assert(0 < kit[0].1 <= stack_limit(ItemId(kit[0].0)));
        assert(new_stack(ItemId(kit[0].0), kit[0].1 as int) == st);
        assert forall|i: int| 0 <= i < p.len() implies #[trigger] p[i].item != st.item by {
            assert(p[i].item != ItemId(kit[0].0));
        }
        lemma_insert_fresh(p, k, st);
        let p2 = p.push(st);
        let rest = kit.drop_first();
        assert forall|j: int| 0 <= j < rest.len() implies #[trigger] rest[j].0 != EMPTY by {
            assert(rest[j] == kit[j + 1]);
        }
        assert forall|j: int| 0 <= j < rest.len() implies 0 < #[trigger] rest[j].1 <= stack_limit(
            ItemId(rest[j].0),
        ) by {
            assert(rest[j] == kit[j + 1]);
        }
        assert forall|j: int, l: int| 0 <= j < l < rest.len() implies #[trigger] rest[j].0
            != #[trigger] rest[l].0 by {
            assert(rest[j] == kit[j + 1]);
            assert(rest[l] == kit[l + 1]);
        }
        assert forall|i: int, j: int| 0 <= i < p2.len() && 0 <= j < rest.len() implies #[trigger] p2[i].item
            != ItemId(#[trigger] rest[j].0) by {
            assert(rest[j] == kit[j + 1]);
            if i == p.len() {
                assert(kit[0].0 != kit[j + 1].0);
            }
        }
        assert forall|i: int| 0 <= i < p2.len() implies !is_empty_stack(#[trigger] p2[i]) by {
            if i < p.len() {
                assert(p2[i] == p[i]);
            }
        }
        lemma_insert_all_fresh(p2, (k - 1) as nat, rest);
        assert(p2 + kit_stacks(rest) =~= p + kit_stacks(kit));
    }
}

/// Empty slots hold nothing of any item.
proof fn lemma_count_empties(k: nat, it: ItemId)
    ensures
        count_of(empties(k), it) == 0,
    decreases k,
{
    if k > 0 {
        assert(empties(k).drop_last() =~= empties((k - 1) as nat));
        lemma_count_empties((k - 1) as nat, it);
    }
}

/// How many of `it` the starter kit lists.
pub open spec fn kit_total(it: ItemId) -> nat {
    if it.0 == WOOD {
        12
    } else if it.0 == STONE {
        8
    } else if it.0 == COAL {
        6
    } else if it.0 == ORE {
        4
    } else if it.0 == RAW_MEAT {
        2
    } else if it.0 == STICK {
        4
    } else {
        0
    }
}

/// A new player's bag, as its row reads back, holds exactly the starter kit
/// (12 wood, 8 stone, 6 coal, 4 ore, 2 raw meat, 4 sticks) and nothing else.
pub proof fn law_starter_bag_totals(it: ItemId)
    ensures
        count_of(unpacked(encode_chars(starter_bag()), BAG_SLOTS as nat), it) == kit_total(it),
        unpacked(encode_chars(starter_bag()), BAG_SLOTS as nat).len() == BAG_SLOTS,
{
    let kit = starter_kit();
    let e: Seq<Stack> = Seq::empty();
    assert(fresh_kit(e, kit));
    lemma_insert_all_fresh(e, BAG_SLOTS as nat, kit);
    assert(e + empties(BAG_SLOTS as nat) =~= Seq::new(BAG_SLOTS as nat, |i: int| empty_stack()));
    let bag = starter_bag();
    assert(bag == e + kit_stacks(kit) + empties((BAG_SLOTS - kit.len()) as nat));
    assert(e + kit_stacks(kit) =~= kit_stacks(kit));
    lemma_count_concat(kit_stacks(kit), empties((BAG_SLOTS - kit.len()) as nat), it);
    lemma_count_empties((BAG_SLOTS - kit.len()) as nat, it);
    let ks = kit_stacks(kit);
    assert(ks =~= seq![
        Stack { item: ItemId(WOOD), count: 12 },
        Stack { item: ItemId(STONE), count: 8 },
        Stack { item: ItemId(COAL), count: 6 },
        Stack { item: ItemId(ORE), count: 4 },
        Stack { item: ItemId(RAW_MEAT), count: 2 },
        Stack { item: ItemId(STICK), count: 4 },
    ]);
    reveal_with_fuel(count_of, 7);
    assert(count_of(ks, it) == kit_total(it));
    if it.0 == EMPTY {
        assert(count_of(bag, it) == 0);
    }
    law_codec_roundtrip(bag, BAG_SLOTS as nat);
    let back = unpacked(encode_chars(bag), BAG_SLOTS as nat);
    assert(bag.len() == BAG_SLOTS);
    assert forall|i: int| 0 <= i < back.len() implies amount(#[trigger] back[i], it) == amount(bag[i], it) by {
        assert(back[i] == new_stack(bag[i].item, bag[i].count as int));
        if i >= 6 {
            assert(bag[i] == empty_stack());
        }
    }
    lemma_count_pointwise(back, bag, it);
}

/// Writing a bag of normalised slots and reading it back gives the bag.
proof fn lemma_normal_reads_back(x: Seq<Stack>)
    requires
        forall|i: int| 0 <= i < x.len() ==> is_normal(#[trigger] x[i]),
    ensures
        unpacked(encode_chars(x), x.len()) == x,
{
    law_codec_roundtrip(x, x.len());
    assert(unpacked(encode_chars(x), x.len()) =~= x);
}

/// Swapping the same two bag slots twice gives back the bag the row held.
pub proof fn law_swap_twice(slots: Seq<char>, a: u8, b: u8)
    ensures
        unpacked(swap_row(swap_row(slots, a, b), a, b), BAG_SLOTS as nat) == unpacked(
            slots,
            BAG_SLOTS as nat,
        ),
{
    let bag = unpacked(slots, BAG_SLOTS as nat);
    if a as int >= BAG_SLOTS || b as int >= BAG_SLOTS {
    } else {
        law_decode_shape(encode_utf8(slots), BAG_SLOTS as nat);
        let once = bag.update(a as int, bag[b as int]).update(b as int, bag[a as int]);
        assert forall|i: int| 0 <= i < once.len() implies is_normal(#[trigger] once[i]) by {
            assert(is_normal(bag[i]));
            assert(is_normal(bag[a as int]));
            assert(is_normal(bag[b as int]));
        }
        lemma_normal_reads_back(once);
        let twice = once.update(a as int, once[b as int]).update(b as int, once[a as int]);
        assert(twice =~= bag);
        assert forall|i: int| 0 <= i < twice.len() implies is_normal(#[trigger] twice[i]) by {
            assert(is_normal(bag[i]));
        }
        lemma_normal_reads_back(twice);
    }
}

} // verus!
