//! What the slot rules keep: no item is created or lost by inserting,
//! paying a recipe removes exactly its inputs, and the furnace only burns
//! fuel and turns one input into one product.
use vstd::prelude::*;

use super::catalog::{spec_def, stack_limit, ItemId, EMPTY};
use super::logic::{
    count_of, fill, furnace_step, has_inputs, insert_of, lemma_count_concat, minus_one, pay_of,
    remove_of,
};
use super::recipe::{spec_smelt_of, Ingredient};
use super::stack::{absorb_of, empty_stack, is_empty_stack, new_stack, Stack};

verus! {

/// How many of `it` a single stack holds.
pub open spec fn amount(x: Stack, it: ItemId) -> nat {
    if x.item == it { x.count as nat } else { 0 }
}

pub proof fn lemma_count_single(x: Stack, it: ItemId)
    ensures
        count_of(seq![x], it) == amount(x, it),
{
    assert(seq![x].drop_last() =~= Seq::<Stack>::empty());
    assert(count_of(Seq::<Stack>::empty(), it) == 0);
    assert(seq![x].last() == x);
}

proof fn lemma_count_cons(s: Seq<Stack>, it: ItemId)
    requires
        s.len() > 0,
    ensures
        count_of(s, it) == amount(s[0], it) + count_of(s.drop_first(), it),
{
    lemma_count_concat(seq![s[0]], s.drop_first(), it);
    lemma_count_single(s[0], it);
    assert(seq![s[0]] + s.drop_first() =~= s);
}

proof fn lemma_fill_conserves(s: Seq<Stack>, left: Stack, same_item: bool, it: ItemId)
    requires
        it.0 != EMPTY,
        left.item == it || left.item.0 == EMPTY,
    ensures
        fill(s, left, same_item).0.len() == s.len(),
        fill(s, left, same_item).1.item == it || fill(s, left, same_item).1.item.0 == EMPTY,
        count_of(fill(s, left, same_item).0, it) + amount(fill(s, left, same_item).1, it)
            == count_of(s, it) + amount(left, it),
        forall|o: ItemId|
            o != it && o.0 != EMPTY ==> #[trigger] count_of(fill(s, left, same_item).0, o) == count_of(s, o),
    decreases s.len(),
{
    if s.len() > 0 {
        let hit = if same_item { s[0].item == left.item } else { is_empty_stack(s[0]) };
        let step = if hit { absorb_of(s[0], left) } else { (s[0], left) };
        lemma_fill_conserves(s.drop_first(), step.1, same_item, it);
        let rest = fill(s.drop_first(), step.1, same_item);
        let out = fill(s, left, same_item);
        assert(out.0 == seq![step.0] + rest.0);
        lemma_count_cons(s, it);
        lemma_count_concat(seq![step.0], rest.0, it);
        lemma_count_single(step.0, it);
        assert forall|o: ItemId| o != it && o.0 != EMPTY implies #[trigger] count_of(out.0, o) == count_of(s, o) by {
            lemma_count_cons(s, o);
            lemma_count_concat(seq![step.0], rest.0, o);
            lemma_count_single(step.0, o);
        }
    }
}

/// Inserting a stack neither creates nor loses items: what landed in the slots
/// plus what was handed back equals what was there plus what was inserted, and
/// every other real item keeps its count.
pub proof fn law_insert_conserves(slots: Seq<Stack>, stack: Stack)
    requires
        stack.item.0 != EMPTY,
    ensures
        insert_of(slots, stack).0.len() == slots.len(),
        count_of(insert_of(slots, stack).0, stack.item) + amount(insert_of(slots, stack).1, stack.item)
            == count_of(slots, stack.item) + stack.count,
        forall|o: ItemId|
            o != stack.item && o.0 != EMPTY ==> #[trigger] count_of(insert_of(slots, stack).0, o)
                == count_of(slots, o),
        is_empty_stack(insert_of(slots, stack).1) || insert_of(slots, stack).1.item == stack.item,
{
    if !is_empty_stack(stack) {
        let a = fill(slots, stack, true);
        lemma_fill_conserves(slots, stack, true, stack.item);
        lemma_fill_conserves(a.0, a.1, false, stack.item);
    }
}

proof fn lemma_remove_counts(s: Seq<Stack>, item: ItemId, need: nat)
    ensures
        remove_of(s, item, need).len() == s.len(),
        count_of(remove_of(s, item, need), item) == count_of(s, item) - (if need <= count_of(s, item) {
            need
        } else {
            count_of(s, item)
        }),
        forall|o: ItemId| o != item ==> #[trigger] count_of(remove_of(s, item, need), o) == count_of(s, o),
    decreases s.len(),
{
    if s.len() > 0 {
        let r = remove_of(s, item, need);
        lemma_count_cons(s, item);
        if s[0].item != item || need == 0 {
            lemma_remove_counts(s.drop_first(), item, need);
            let rest = remove_of(s.drop_first(), item, need);
            lemma_count_concat(seq![s[0]], rest, item);
            lemma_count_single(s[0], item);
            assert forall|o: ItemId| o != item implies #[trigger] count_of(r, o) == count_of(s, o) by {
                lemma_count_cons(s, o);
                lemma_count_concat(seq![s[0]], rest, o);
                lemma_count_single(s[0], o);
            }
        } else {
            let take = if (s[0].count as nat) <= need { s[0].count as nat } else { need };
            let left = (s[0].count - take) as u16;
            let head = if left == 0 { empty_stack() } else { Stack { item: s[0].item, count: left } };
            lemma_remove_counts(s.drop_first(), item, (need - take) as nat);
            let rest = remove_of(s.drop_first(), item, (need - take) as nat);
            assert(r == seq![head] + rest);
            lemma_count_concat(seq![head], rest, item);
            lemma_count_single(head, item);
            assert forall|o: ItemId| o != item implies #[trigger] count_of(r, o) == count_of(s, o) by {
                lemma_count_cons(s, o);
                lemma_count_concat(seq![head], rest, o);
                lemma_count_single(head, o);
            }
        }
    }
}

/// The ingredients name pairwise different items.
pub open spec fn distinct_items(inputs: Seq<Ingredient>) -> bool {
    forall|a: int, b: int|
        0 <= a < b < inputs.len() ==> #[trigger] inputs[a].item != #[trigger] inputs[b].item
}

/// Paying a recipe whose inputs are all present (and name different items)
/// removes exactly each ingredient's count and leaves every other item alone.
pub proof fn law_pay_removes_exactly(slots: Seq<Stack>, inputs: Seq<Ingredient>)
    requires
        has_inputs(slots, inputs),
        distinct_items(inputs),
    ensures
        pay_of(slots, inputs).len() == slots.len(),
        forall|k: int|
            0 <= k < inputs.len() ==> #[trigger] count_of(pay_of(slots, inputs), inputs[k].item)
                == count_of(slots, inputs[k].item) - inputs[k].count,
        forall|o: ItemId|
            (forall|k: int| 0 <= k < inputs.len() ==> #[trigger] inputs[k].item != o) ==> #[trigger] count_of(
                pay_of(slots, inputs),
                o,
            ) == count_of(slots, o),
    decreases inputs.len(),
{
    if inputs.len() > 0 {
        let first = inputs[0];
        let s1 = remove_of(slots, first.item, first.count as nat);
        let rest = inputs.drop_first();
        lemma_remove_counts(slots, first.item, first.count as nat);
        assert forall|k: int| 0 <= k < rest.len() implies count_of(s1, #[trigger] rest[k].item) >= rest[k].count by {
            assert(rest[k] == inputs[k + 1]);
            assert(inputs[0].item != inputs[k + 1].item);
        }
        assert(distinct_items(rest)) by {
            assert forall|a: int, b: int| 0 <= a < b < rest.len() implies #[trigger] rest[a].item != #[trigger] rest[b].item by {
                assert(rest[a] == inputs[a + 1]);
                assert(rest[b] == inputs[b + 1]);
            }
        }
        law_pay_removes_exactly(s1, rest);
        assert(pay_of(slots, inputs) == pay_of(s1, rest));
        assert forall|k: int| 0 <= k < inputs.len() implies #[trigger] count_of(pay_of(slots, inputs), inputs[k].item)
            == count_of(slots, inputs[k].item) - inputs[k].count by {
            if k == 0 {
                assert forall|j: int| 0 <= j < rest.len() implies #[trigger] rest[j].item != first.item by {
                    assert(rest[j] == inputs[j + 1]);
                }
            } else {
                assert(rest[k - 1] == inputs[k]);
                assert(inputs[0].item != inputs[k].item);
            }
        }
        assert forall|o: ItemId|
            (forall|k: int| 0 <= k < inputs.len() ==> #[trigger] inputs[k].item != o) implies #[trigger] count_of(
                pay_of(slots, inputs),
                o,
            ) == count_of(slots, o) by {
            assert(inputs[0].item != o);
            assert forall|j: int| 0 <= j < rest.len() implies #[trigger] rest[j].item != o by {
                assert(rest[j] == inputs[j + 1]);
            }
        }
    }
}

/// While fuel is burning the fuel slot is left alone.
pub proof fn law_furnace_keeps_fuel_slot_while_burning(s: Seq<Stack>, fuel: u32, cook: u32)
    requires
        s.len() >= 3,
        fuel > 0,
    ensures
        furnace_step(s, fuel, cook).0[1] == s[1],
        furnace_step(s, fuel, cook).1 == fuel - 1,
{
}

/// Out of fuel with something burnable in the fuel slot, the furnace burns
/// exactly one item of it: the slot keeps the same item with one fewer
/// (or is emptied when that was the last), and the fuel counter starts at
/// that item's fuel value, less the tick just burnt.
pub proof fn law_furnace_burns_one_fuel_item(s: Seq<Stack>, cook: u32)
    requires
        s.len() >= 3,
        s[1].count > 0,
        spec_def(s[1].item).fuel > 0,
    ensures
        amount(furnace_step(s, 0, cook).0[1], s[1].item) + 1 == s[1].count,
        furnace_step(s, 0, cook).0[1].item == s[1].item || is_empty_stack(furnace_step(s, 0, cook).0[1]),
        furnace_step(s, 0, cook).1 == spec_def(s[1].item).fuel - 1,
{
    assert(s[1].item.0 != EMPTY) by {
        if s[1].item.0 == EMPTY {
            assert(spec_def(s[1].item).fuel == 0);
        }
    }
}

/// With no fuel burning and nothing to burn, the furnace does nothing but
/// reset its cook counter.
pub proof fn law_furnace_idle_without_fuel(s: Seq<Stack>, cook: u32)
    requires
        s.len() >= 3,
        spec_def(s[1].item).fuel == 0 || s[1].count == 0,
    ensures
        furnace_step(s, 0, cook) == (s, 0u32, 0u32),
{
}

/// The input slot changes only when a finished product landed whole in the
/// output slot; it then loses exactly one item and the counter restarts.
pub proof fn law_furnace_one_input_per_product(s: Seq<Stack>, fuel: u32, cook: u32)
    requires
        s.len() >= 3,
        furnace_step(s, fuel, cook).0[0] != s[0],
    ensures
        spec_smelt_of(s[0].item) is Some,
        furnace_step(s, fuel, cook).0[0] == minus_one(s[0]),
        furnace_step(s, fuel, cook).2 == 0,
        ({
            let r = spec_smelt_of(s[0].item).unwrap();
            let out = absorb_of(s[2], new_stack(r.output.item, r.output.count as int));
            is_empty_stack(out.1) && furnace_step(s, fuel, cook).0[2] == out.0
        }),
{
}

/// Inserting never changes the number of slots.
pub proof fn law_insert_conserves_len(slots: Seq<Stack>, stack: Stack)
    ensures
        insert_of(slots, stack).0.len() == slots.len(),
{
    if !is_empty_stack(stack) {
        lemma_fill_len(slots, stack, true);
        lemma_fill_len(fill(slots, stack, true).0, fill(slots, stack, true).1, false);
    }
}

proof fn lemma_fill_len(s: Seq<Stack>, left: Stack, same_item: bool)
    ensures
        fill(s, left, same_item).0.len() == s.len(),
    decreases s.len(),
{
    if s.len() > 0 {
        let hit = if same_item { s[0].item == left.item } else { is_empty_stack(s[0]) };
        let step = if hit { absorb_of(s[0], left) } else { (s[0], left) };
        lemma_fill_len(s.drop_first(), step.1, same_item);
    }
}

/// Replacing slot `i` changes the count by the difference of the two stacks.
pub proof fn lemma_count_update(s: Seq<Stack>, i: int, v: Stack, it: ItemId)
    requires
        0 <= i < s.len(),
    ensures
        count_of(s.update(i, v), it) + amount(s[i], it) == count_of(s, it) + amount(v, it),
{
    let pre = s.take(i);
    let post = s.skip(i + 1);
    assert(s =~= pre + seq![s[i]] + post);
    assert(s.update(i, v) =~= pre + seq![v] + post);
    lemma_count_concat(pre + seq![s[i]], post, it);
    lemma_count_concat(pre, seq![s[i]], it);
    lemma_count_concat(pre + seq![v], post, it);
    lemma_count_concat(pre, seq![v], it);
    lemma_count_single(s[i], it);
    lemma_count_single(v, it);
}

/// Removing slot `i` takes its stack out of the count.
pub proof fn lemma_count_remove(s: Seq<Stack>, i: int, it: ItemId)
    requires
        0 <= i < s.len(),
    ensures
        count_of(s.remove(i), it) + amount(s[i], it) == count_of(s, it),
{
    let pre = s.take(i);
    let post = s.skip(i + 1);
    assert(s =~= pre + seq![s[i]] + post);
    assert(s.remove(i) =~= pre + post);
    lemma_count_concat(pre + seq![s[i]], post, it);
    lemma_count_concat(pre, seq![s[i]], it);
    lemma_count_concat(pre, post, it);
    lemma_count_single(s[i], it);
}

/// Appending a stack adds it to the count.
pub proof fn lemma_count_push(s: Seq<Stack>, v: Stack, it: ItemId)
    ensures
        count_of(s.push(v), it) == count_of(s, it) + amount(v, it),
{
    assert(s.push(v).drop_last() =~= s);
}

/// A slot holds no more than its item stacks to (an empty slot always fits).
pub open spec fn within_cap(x: Stack) -> bool {
    is_empty_stack(x) || x.count <= stack_limit(x.item)
}

/// A slot that could still take some of `it`: an empty one, or a stack of
/// `it` below its limit.
pub open spec fn can_take(x: Stack, it: ItemId) -> bool {
    is_empty_stack(x) || (x.item == it && x.count < stack_limit(it))
}

/// No same-item room for `it` left in `x`.
spec fn no_room(x: Stack, it: ItemId) -> bool {
    !(x.item == it && !is_empty_stack(x) && x.count < stack_limit(it))
}

proof fn lemma_limit_positive(id: ItemId)
    ensures
        stack_limit(id) >= 1,
{
}

proof fn lemma_fill_cap(s: Seq<Stack>, left: Stack, same_item: bool)
    ensures
        fill(s, left, same_item).0.len() == s.len(),
        forall|i: int|
            0 <= i < s.len() && within_cap(s[i]) ==> within_cap(#[trigger] fill(s, left, same_item).0[i]),
    decreases s.len(),
{
    if s.len() > 0 {
        let hit = if same_item { s[0].item == left.item } else { is_empty_stack(s[0]) };
        let step = if hit { absorb_of(s[0], left) } else { (s[0], left) };
        lemma_fill_cap(s.drop_first(), step.1, same_item);
        lemma_limit_positive(left.item);
        let out = fill(s, left, same_item).0;
        assert forall|i: int| 0 <= i < s.len() && within_cap(s[i]) implies within_cap(#[trigger] out[i]) by {
            if i > 0 {
                assert(out[i] == fill(s.drop_first(), step.1, same_item).0[i - 1]);
                assert(s.drop_first()[i - 1] == s[i]);
            }
        }
    }
}

/// After the pass over same-item stacks, anything left over means every
/// stack of that item is full.
proof fn lemma_fill_same_full(s: Seq<Stack>, left: Stack)
    ensures
        fill(s, left, true).0.len() == s.len(),
        !is_empty_stack(fill(s, left, true).1) ==> !is_empty_stack(left) && fill(s, left, true).1.item
            == left.item && forall|i: int|
            0 <= i < s.len() ==> no_room(#[trigger] fill(s, left, true).0[i], left.item),
    decreases s.len(),
{
    if s.len() > 0 {
        let hit = s[0].item == left.item;
        let step = if hit { absorb_of(s[0], left) } else { (s[0], left) };
        lemma_fill_same_full(s.drop_first(), step.1);
        let rest = fill(s.drop_first(), step.1, true);
        let out = fill(s, left, true);
        if !is_empty_stack(out.1) {
            assert(out.1 == rest.1);
            assert(!is_empty_stack(step.1));
            assert(no_room(step.0, left.item));
            assert forall|i: int| 0 <= i < s.len() implies no_room(#[trigger] out.0[i], left.item) by {
                if i > 0 {
                    assert(out.0[i] == rest.0[i - 1]);
                }
            }
        }
    }
}

/// After the pass over empty slots, anything left over means no slot is
/// empty any more, and a slot with no room for the item still has none.
proof fn lemma_fill_empty_full(s: Seq<Stack>, left: Stack)
    ensures
        fill(s, left, false).0.len() == s.len(),
        !is_empty_stack(fill(s, left, false).1) ==> !is_empty_stack(left) && fill(s, left, false).1.item
            == left.item && forall|i: int|
            0 <= i < s.len() ==> !is_empty_stack(#[trigger] fill(s, left, false).0[i]) && (no_room(
                s[i],
                left.item,
            ) ==> no_room(fill(s, left, false).0[i], left.item)),
    decreases s.len(),
{
    if s.len() > 0 {
        let hit = is_empty_stack(s[0]);
        let step = if hit { absorb_of(s[0], left) } else { (s[0], left) };
        lemma_fill_empty_full(s.drop_first(), step.1);
        lemma_limit_positive(left.item);
        let rest = fill(s.drop_first(), step.1, false);
        let out = fill(s, left, false);
        if !is_empty_stack(out.1) {
            assert(out.1 == rest.1);
            assert(!is_empty_stack(step.1));
            assert(!is_empty_stack(step.0));
            assert(no_room(s[0], left.item) ==> no_room(step.0, left.item));
            assert forall|i: int| 0 <= i < s.len() implies !is_empty_stack(#[trigger] out.0[i]) && (no_room(
                s[i],
                left.item,
            ) ==> no_room(out.0[i], left.item)) by {
                if i > 0 {
                    assert(out.0[i] == rest.0[i - 1]);
                    assert(s.drop_first()[i - 1] == s[i]);
                }
            }
        }
    }
}

/// Inserting keeps every slot within its item's stack limit, and hands
/// something back only when no slot can take more of the item: none is
/// empty and every stack of the item is full.
pub proof fn law_insert_within_cap(slots: Seq<Stack>, stack: Stack)
    ensures
        forall|i: int|
            0 <= i < slots.len() && within_cap(slots[i]) ==> within_cap(
                #[trigger] insert_of(slots, stack).0[i],
            ),
        !is_empty_stack(insert_of(slots, stack).1) ==> forall|i: int|
            0 <= i < slots.len() ==> !can_take(#[trigger] insert_of(slots, stack).0[i], stack.item),
{
    if !is_empty_stack(stack) {
        let a = fill(slots, stack, true);
        lemma_fill_cap(slots, stack, true);
        lemma_fill_cap(a.0, a.1, false);
        lemma_fill_same_full(slots, stack);
        lemma_fill_empty_full(a.0, a.1);
        let out = fill(a.0, a.1, false);
        assert forall|i: int| 0 <= i < slots.len() && within_cap(slots[i]) implies within_cap(
            #[trigger] insert_of(slots, stack).0[i],
        ) by {
            assert(within_cap(a.0[i]));
        }
        if !is_empty_stack(out.1) {
            assert forall|i: int| 0 <= i < slots.len() implies !can_take(
                #[trigger] insert_of(slots, stack).0[i],
                stack.item,
            ) by {
                assert(no_room(a.0[i], stack.item));
                assert(no_room(out.0[i], stack.item));
            }
        }
    }
}

} // verus!
