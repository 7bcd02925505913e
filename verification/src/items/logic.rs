//! Slot-array rules shared by the single-player store and the server:
//! inserting stacks, paying recipe inputs, dropping one item, and the furnace tick.
use vstd::prelude::*;

use super::catalog::{spec_def, ItemId};
use super::recipe::{smelt_of, spec_smelt_of, Ingredient, Recipe};
use super::stack::{absorb_of, empty_stack, is_empty_stack, new_stack, space_of, Stack};

verus! {

/// Total count of `item` over the slots.
pub open spec fn count_of(s: Seq<Stack>, item: ItemId) -> nat
    decreases s.len(),
{
    if s.len() == 0 {
        0
    } else {
        count_of(s.drop_last(), item) + (if s.last().item == item { s.last().count as nat } else { 0 })
    }
}

/// One pass of `insert_stack`: walk the slots in order and let every slot that
/// qualifies absorb what is left (`same_item`: slots holding the item; otherwise
/// empty slots).
pub open spec fn fill(s: Seq<Stack>, left: Stack, same_item: bool) -> (Seq<Stack>, Stack)
    decreases s.len(),
{
    if s.len() == 0 {
        (s, left)
    } else {
        let hit = if same_item { s[0].item == left.item } else { is_empty_stack(s[0]) };
        let step = if hit { absorb_of(s[0], left) } else { (s[0], left) };
        let rest = fill(s.drop_first(), step.1, same_item);
        (seq![step.0] + rest.0, rest.1)
    }
}

/// `insert_stack`: top up the stacks of the same item first, then use empty
/// slots; the second component is what did not fit.
pub open spec fn insert_of(s: Seq<Stack>, stack: Stack) -> (Seq<Stack>, Stack) {
    if is_empty_stack(stack) {
        (s, stack)
    } else {
        let a = fill(s, stack, true);
        fill(a.0, a.1, false)
    }
}

/// Take up to `need` of `item` from the slots, front to back; emptied slots are cleared.
pub open spec fn remove_of(s: Seq<Stack>, item: ItemId, need: nat) -> Seq<Stack>
    decreases s.len(),
{
    if s.len() == 0 {
        s
    } else if s[0].item != item || need == 0 {
        seq![s[0]] + remove_of(s.drop_first(), item, need)
    } else {
        let take = if (s[0].count as nat) <= need { s[0].count as nat } else { need };
        let left = (s[0].count - take) as u16;
        let head = if left == 0 { empty_stack() } else { Stack { item: s[0].item, count: left } };
        seq![head] + remove_of(s.drop_first(), item, (need - take) as nat)
    }
}

/// Paying every ingredient in order.
pub open spec fn pay_of(s: Seq<Stack>, inputs: Seq<Ingredient>) -> Seq<Stack>
    decreases inputs.len(),
{
    if inputs.len() == 0 {
        s
    } else {
        pay_of(remove_of(s, inputs[0].item, inputs[0].count as nat), inputs.drop_first())
    }
}

/// The slots hold every ingredient (each checked on its own).
pub open spec fn has_inputs(s: Seq<Stack>, inputs: Seq<Ingredient>) -> bool {
    forall|k: int| 0 <= k < inputs.len() ==> count_of(s, #[trigger] inputs[k].item) >= inputs[k].count
}

/// Every ingredient item of `inputs` totals at most `u16::MAX` in the slots.
pub open spec fn counts_fit(s: Seq<Stack>, inputs: Seq<Ingredient>) -> bool {
    forall|k: int| 0 <= k < inputs.len() ==> count_of(s, #[trigger] inputs[k].item) <= u16::MAX
}

/// Index of the first slot satisfying `p`.
pub open spec fn first_where(s: Seq<Stack>, p: spec_fn(Stack) -> bool) -> Option<int>
    decreases s.len(),
{
    if s.len() == 0 {
        None
    } else if p(s[0]) {
        Some(0)
    } else {
        match first_where(s.drop_first(), p) {
            Some(k) => Some(k + 1),
            None => None,
        }
    }
}

/// A stack with one item less; cleared when it runs out.
pub open spec fn minus_one(s: Stack) -> Stack {
    if s.count <= 1 { empty_stack() } else { Stack { item: s.item, count: (s.count - 1) as u16 } }
}

/// One 50 ms furnace tick on `[input, fuel, output]` with the fuel and cook counters.
pub open spec fn furnace_step(s: Seq<Stack>, fuel: u32, cook: u32) -> (Seq<Stack>, u32, u32) {
    if s.len() < 3 {
        (s, fuel, cook)
    } else {
        let units = spec_def(s[1].item).fuel;
        let refuel = fuel == 0 && units > 0 && s[1].count > 0;
        let s1 = if refuel { s.update(1, minus_one(s[1])) } else { s };
        let f1 = if refuel { units } else { fuel };
        if f1 == 0 {
            (s1, 0, 0)
        } else {
            let f2 = (f1 - 1) as u32;
            match spec_smelt_of(s1[0].item) {
                None => (s1, f2, 0),
                Some(r) => {
                    let c = (cook + 1) as u32;
                    if c < r.smelt_ticks {
                        (s1, f2, c)
                    } else {
                        let out = absorb_of(s1[2], new_stack(r.output.item, r.output.count as int));
                        let s2 = s1.update(2, out.0);
                        if is_empty_stack(out.1) {
                            (s2.update(0, minus_one(s2[0])), f2, 0)
                        } else {
                            (s2, f2, c)
                        }
                    }
                },
            }
        }
    }
}

/// The tick would advance the cook counter (and so needs room for it).
pub open spec fn furnace_cooks(s: Seq<Stack>, fuel: u32) -> bool {
    s.len() >= 3 && (fuel > 0 || (spec_def(s[1].item).fuel > 0 && s[1].count > 0))
        && spec_smelt_of(s[0].item) is Some
}

pub proof fn lemma_count_concat(a: Seq<Stack>, b: Seq<Stack>, item: ItemId)
    ensures
        count_of(a + b, item) == count_of(a, item) + count_of(b, item),
    decreases b.len(),
{
    if b.len() == 0 {
        assert(a + b =~= a);
    } else {
        lemma_count_concat(a, b.drop_last(), item);
        assert((a + b).drop_last() =~= a + b.drop_last());
    }
}

proof fn lemma_count_prefix(s: Seq<Stack>, i: int, item: ItemId)
    requires
        0 <= i <= s.len(),
    ensures
        count_of(s.take(i), item) <= count_of(s, item),
{
    lemma_count_concat(s.take(i), s.skip(i), item);
    assert(s.take(i) + s.skip(i) =~= s);
}

pub proof fn lemma_fill_empty(s: Seq<Stack>, same_item: bool)
    ensures
        fill(s, empty_stack(), same_item) == (s, empty_stack()),
    decreases s.len(),
{
    if s.len() > 0 {
        lemma_fill_empty(s.drop_first(), same_item);
        assert(seq![s[0]] + s.drop_first() =~= s);
    }
}

/// Put `stack` into the slots: same-item stacks first, then empty slots.
/// Returns what did not fit.
pub fn insert_stack(slots: &mut [Stack], stack: Stack) -> (left: Stack)
    ensures
        (final(slots)@, left) == insert_of(old(slots)@, stack),
{
    let ghost start = slots@;
    let mut left = stack;
    if left.is_empty() {
        return left;
    }
    let n = slots.len();
    let mut i: usize = 0;
    assert(start.skip(0) =~= start);
    assert(slots@.take(0) + fill(start, stack, true).0 =~= fill(start, stack, true).0);
    while i < n
        invariant
            n == slots@.len(),
            slots@.len() == start.len(),
            i <= n,
            start == old(slots)@,
            !is_empty_stack(stack),
            !is_empty_stack(left),
            slots@.skip(i as int) == start.skip(i as int),
            fill(start, stack, true) == (slots@.take(i as int) + fill(start.skip(i as int), left, true).0,
                fill(start.skip(i as int), left, true).1),
        decreases n - i,
    {
        let ghost before = slots@;
        let ghost old_left = left;
        let ghost tail = start.skip(i as int);
        assert(tail[0] == slots@[i as int]);
        assert(tail.drop_first() =~= start.skip(i + 1));
        let mut s = slots[i];
        if s.item == left.item {
            left = s.absorb(left);
            slots[i] = s;
        }
        assert(slots@.take(i + 1) =~= before.take(i as int).push(slots@[i as int]));
        assert(slots@.skip(i + 1) =~= before.skip(i + 1));
        assert(fill(tail, old_left, true).0 =~= seq![slots@[i as int]] + fill(
            start.skip(i + 1),
            left,
            true,
        ).0);
        assert(fill(start, stack, true).0 =~= slots@.take(i + 1) + fill(start.skip(i + 1), left, true).0);
        i += 1;
        if left.is_empty() {
            proof {
                assert(left == empty_stack());
                lemma_fill_empty(start.skip(i as int), true);
                lemma_fill_empty(slots@, false);
                assert(slots@.take(i as int) + start.skip(i as int) =~= slots@);
                assert(fill(start, stack, true).0 == slots@);
                assert(fill(start, stack, true).1 == empty_stack());
                assert(insert_of(start, stack) == (slots@, left));
            }
            return left;
        }
    }
    assert(slots@.take(n as int) =~= slots@);
    assert(start.skip(n as int) =~= Seq::<Stack>::empty());
    let ghost mid = slots@;
    let mut j: usize = 0;
    assert(mid.skip(0) =~= mid);
    assert(slots@.take(0) + fill(mid, left, false).0 =~= fill(mid, left, false).0);
    while j < n
        invariant
            n == slots@.len(),
            slots@.len() == mid.len(),
            j <= n,
            start == old(slots)@,
            !is_empty_stack(stack),
            !is_empty_stack(left),
            fill(start, stack, true) == (mid, fill(start, stack, true).1),
            slots@.skip(j as int) == mid.skip(j as int),
            fill(mid, fill(start, stack, true).1, false) == (slots@.take(j as int)
                + fill(mid.skip(j as int), left, false).0, fill(mid.skip(j as int), left, false).1),
        decreases n - j,
    {
        let ghost before = slots@;
        let ghost old_left = left;
        let ghost tail = mid.skip(j as int);
        assert(tail[0] == slots@[j as int]);
        assert(tail.drop_first() =~= mid.skip(j + 1));
        let mut s = slots[j];
        if s.is_empty() {
            left = s.absorb(left);
            slots[j] = s;
        }
        assert(slots@.take(j + 1) =~= before.take(j as int).push(slots@[j as int]));
        assert(slots@.skip(j + 1) =~= before.skip(j + 1));
        assert(fill(tail, old_left, false).0 =~= seq![slots@[j as int]] + fill(
            mid.skip(j + 1),
            left,
            false,
        ).0);
        assert(fill(mid, fill(start, stack, true).1, false).0 =~= slots@.take(j + 1) + fill(
            mid.skip(j + 1),
            left,
            false,
        ).0);
        j += 1;
        if left.is_empty() {
            proof {
                assert(left == empty_stack());
                lemma_fill_empty(mid.skip(j as int), false);
                assert(slots@.take(j as int) + mid.skip(j as int) =~= slots@);
                assert(insert_of(start, stack).0 =~= slots@);
                assert(insert_of(start, stack) == (slots@, left));
            }
            return left;
        }
    }
    assert(slots@.take(n as int) =~= slots@);
    assert(mid.skip(n as int) =~= Seq::<Stack>::empty());
    left
}

/// Total count of `item` in the slots.
pub fn count_item(slots: &[Stack], item: ItemId) -> (n: u16)
    requires
        count_of(slots@, item) <= u16::MAX,
    ensures
        n == count_of(slots@, item),
{
    let mut total: u16 = 0;
    let mut i: usize = 0;
    while i < slots.len()
        invariant
            i <= slots@.len(),
            count_of(slots@, item) <= u16::MAX,
            total == count_of(slots@.take(i as int), item),
        decreases slots@.len() - i,
    {
        proof {
            assert(slots@.take(i + 1).drop_last() =~= slots@.take(i as int));
            lemma_count_prefix(slots@, i + 1, item);
        }
        if slots[i].item == item {
            total = total + slots[i].count;
        }
        i += 1;
    }
    assert(slots@.take(i as int) =~= slots@);
    total
}

/// Take `need` of `item` from the slots, front to back.
fn remove_item(slots: &mut [Stack], item: ItemId, need: u16)
    ensures
        final(slots)@ == remove_of(old(slots)@, item, need as nat),
{
    let ghost start = slots@;
    let ghost need0 = need as nat;
    let mut need = need;
    let n = slots.len();
    let mut i: usize = 0;
    assert(start.skip(0) =~= start);
    assert(slots@.take(0) + remove_of(start, item, need0) =~= remove_of(start, item, need0));
    while i < n
        invariant
            n == slots@.len(),
            slots@.len() == start.len(),
            i <= n,
            slots@.skip(i as int) == start.skip(i as int),
            remove_of(start, item, need0) == slots@.take(i as int) + remove_of(
                start.skip(i as int),
                item,
                need as nat,
            ),
        decreases n - i,
    {
        let ghost before = slots@;
        let ghost tail = start.skip(i as int);
        assert(tail[0] == slots@[i as int]);
        assert(tail.drop_first() =~= start.skip(i + 1));
        let s = slots[i];
        if s.item == item && need != 0 {
            let take = if s.count <= need { s.count } else { need };
            let left = s.count - take;
            need = need - take;
            if left == 0 {
                slots[i] = Stack::empty();
            } else {
                slots[i] = Stack { item: s.item, count: left };
            }
        }
        assert(slots@.take(i + 1) =~= before.take(i as int).push(slots@[i as int]));
        assert(slots@.skip(i + 1) =~= before.skip(i + 1));
        assert(remove_of(start, item, need0) =~= slots@.take(i + 1) + remove_of(
            start.skip(i + 1),
            item,
            need as nat,
        ));
        i += 1;
    }
    assert(slots@.take(n as int) =~= slots@);
    assert(start.skip(n as int) =~= Seq::<Stack>::empty());
}

/// Pay a recipe's inputs from the slots. Refuses, changing nothing, unless every
/// ingredient is present.
pub fn take_inputs(slots: &mut [Stack], recipe: &Recipe) -> (ok: bool)
    requires
        counts_fit(old(slots)@, recipe.inputs@),
    ensures
        ok == has_inputs(old(slots)@, recipe.inputs@),
        ok ==> final(slots)@ == pay_of(old(slots)@, recipe.inputs@),
        !ok ==> final(slots)@ == old(slots)@,
{
    let inputs = recipe.inputs;
    let mut k: usize = 0;
    while k < inputs.len()
        invariant
            k <= inputs@.len(),
            inputs@ == recipe.inputs@,
            slots@ == old(slots)@,
            counts_fit(slots@, inputs@),
            forall|j: int| 0 <= j < k ==> count_of(slots@, #[trigger] inputs@[j].item) >= inputs@[j].count,
        decreases inputs@.len() - k,
    {
        let ing = inputs[k];
        assert(count_of(slots@, inputs@[k as int].item) <= u16::MAX);
        if count_item(slots, ing.item) < ing.count {
            return false;
        }
        k += 1;
    }
    let ghost start = slots@;
    let mut k: usize = 0;
    assert(inputs@.skip(0) =~= inputs@);
    while k < inputs.len()
        invariant
            k <= inputs@.len(),
            inputs@ == recipe.inputs@,
            pay_of(start, inputs@) == pay_of(slots@, inputs@.skip(k as int)),
        decreases inputs@.len() - k,
    {
        let ing = inputs[k];
        assert(inputs@.skip(k as int).drop_first() =~= inputs@.skip(k + 1));
        remove_item(slots, ing.item, ing.count);
        k += 1;
    }
    assert(inputs@.skip(0) =~= inputs@);
    true
}

/// Take a single item out of slot `index`.
pub fn take_one(slots: &mut [Stack], index: usize) -> (r: Option<Stack>)
    ensures
        index >= old(slots)@.len() || is_empty_stack(old(slots)@[index as int]) ==> r is None
            && final(slots)@ == old(slots)@,
        index < old(slots)@.len() && !is_empty_stack(old(slots)@[index as int]) ==> r == Some(
            new_stack(old(slots)@[index as int].item, 1),
        ) && final(slots)@ == old(slots)@.update(index as int, minus_one(old(slots)@[index as int])),
{
    if index >= slots.len() {
        return None;
    }
    let slot = slots[index];
    if slot.is_empty() {
        return None;
    }
    let drop = Stack::new(slot.item, 1);
    if slot.count - 1 == 0 {
        slots[index] = Stack::empty();
    } else {
        slots[index] = Stack { item: slot.item, count: slot.count - 1 };
    }
    Some(drop)
}

/// First slot a stack can go to: a same-item stack with room, else an empty slot.
pub fn first_compatible(slots: &[Stack], stack: Stack) -> (r: Option<usize>)
    ensures
        is_empty_stack(stack) ==> r is None,
        !is_empty_stack(stack) ==> r == (match first_where(slots@, |s: Stack| s.item == stack.item && space_of(s) > 0) {
            Some(k) => Some(k as usize),
            None => match first_where(slots@, |s: Stack| is_empty_stack(s)) {
                Some(k) => Some(k as usize),
                None => None,
            },
        }),
{
    if stack.is_empty() {
        return None;
    }
    let mut i: usize = 0;
    while i < slots.len()
        invariant
            i <= slots@.len(),
            !is_empty_stack(stack),
            forall|k: int| 0 <= k < i ==> !(#[trigger] slots@[k].item == stack.item && space_of(slots@[k]) > 0),
        decreases slots@.len() - i,
    {
        if slots[i].item == stack.item && slots[i].space() > 0 {
            proof { lemma_first_where(slots@, |s: Stack| s.item == stack.item && space_of(s) > 0, i as int); }
            return Some(i);
        }
        i += 1;
    }
    proof { lemma_first_where_none(slots@, |s: Stack| s.item == stack.item && space_of(s) > 0); }
    let r = first_nonempty_or_empty(slots, false);
    assert((|s: Stack| is_empty_stack(s) != false) =~= (|s: Stack| is_empty_stack(s)));
    r
}

/// First slot whose emptiness differs from `want_nonempty == false`: with
/// `want_nonempty` the first non-empty slot, otherwise the first empty one.
fn first_nonempty_or_empty(slots: &[Stack], want_nonempty: bool) -> (r: Option<usize>)
    ensures
        r == (match first_where(slots@, |s: Stack| is_empty_stack(s) != want_nonempty) {
            Some(k) => Some(k as usize),
            None => None,
        }),
{
    let mut i: usize = 0;
    while i < slots.len()
        invariant
            i <= slots@.len(),
            forall|k: int| 0 <= k < i ==> is_empty_stack(#[trigger] slots@[k]) == want_nonempty,
        decreases slots@.len() - i,
    {
        if slots[i].is_empty() != want_nonempty {
            proof { lemma_first_where(slots@, |s: Stack| is_empty_stack(s) != want_nonempty, i as int); }
            return Some(i);
        }
        i += 1;
    }
    proof { lemma_first_where_none(slots@, |s: Stack| is_empty_stack(s) != want_nonempty); }
    None
}

/// Index of the first non-empty slot.
pub fn first_nonempty(slots: &[Stack]) -> (r: Option<usize>)
    ensures
        r == (match first_where(slots@, |s: Stack| !is_empty_stack(s)) {
            Some(k) => Some(k as usize),
            None => None,
        }),
{
    let r = first_nonempty_or_empty(slots, true);
    assert((|s: Stack| is_empty_stack(s) != true) =~= (|s: Stack| !is_empty_stack(s)));
    r
}

proof fn lemma_first_where(s: Seq<Stack>, p: spec_fn(Stack) -> bool, i: int)
    requires
        0 <= i < s.len(),
        p(s[i]),
        forall|k: int| 0 <= k < i ==> !p(#[trigger] s[k]),
    ensures
        first_where(s, p) == Some(i),
    decreases i,
{
    if i > 0 {
        lemma_first_where(s.drop_first(), p, i - 1);
    }
}

proof fn lemma_first_where_none(s: Seq<Stack>, p: spec_fn(Stack) -> bool)
    requires
        forall|k: int| 0 <= k < s.len() ==> !p(#[trigger] s[k]),
    ensures
        first_where(s, p) == None::<int>,
    decreases s.len(),
{
    if s.len() > 0 {
        lemma_first_where_none(s.drop_first(), p);
    }
}

/// One 50 ms furnace tick. Slots are `[input, fuel, output]`.
///
/// With no fuel burning, one fuel item is burnt if the fuel slot holds fuel.
/// While fuel burns, a smeltable input advances the cook counter; when the
/// counter reaches the recipe's ticks and the output slot takes the product,
/// one input is used and the counter restarts.
pub fn step_furnace(slots: &mut [Stack], fuel: &mut u32, cook: &mut u32)
    requires
        !(furnace_cooks(old(slots)@, *old(fuel)) && *old(cook) == u32::MAX),
    ensures
        (final(slots)@, *final(fuel), *final(cook)) == furnace_step(old(slots)@, *old(fuel), *old(cook)),
{
    if slots.len() < 3 {
        return;
    }
    if *fuel == 0 {
        let fuel_item = slots[1];
        let units = fuel_item.item.def().fuel;
        if units > 0 && fuel_item.count > 0 {
            if fuel_item.count - 1 == 0 {
                slots[1] = Stack::empty();
            } else {
                slots[1] = Stack { item: fuel_item.item, count: fuel_item.count - 1 };
            }
            *fuel = units;
        }
    }
    if *fuel == 0 {
        *cook = 0;
        return;
    }
    *fuel = *fuel - 1;
    let recipe = match smelt_of(slots[0].item) {
        Some(r) => r,
        None => {
            *cook = 0;
            return;
        },
    };
    *cook = *cook + 1;
    if *cook < recipe.smelt_ticks {
        return;
    }
    let mut out = slots[2];
    let leftover = out.absorb(recipe.output.to_stack());
    slots[2] = out;
    if leftover.is_empty() {
        let input = slots[0];
        let n = if input.count > 0 { input.count - 1 } else { 0 };
        if n == 0 {
            slots[0] = Stack::empty();
        } else {
            slots[0] = Stack { item: input.item, count: n };
        }
        *cook = 0;
    }
}

} // verus!
