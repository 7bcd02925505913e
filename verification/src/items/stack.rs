//! A slot's content: an item id and a count.
use vstd::prelude::*;

use super::catalog::{spec_def, stack_limit, ItemId, BAG_SLOTS, EMPTY};

verus! {

/// One inventory cell. A stack whose item is empty or whose count is zero is empty.
#[derive(Clone, Copy, Debug, Default, PartialEq, Eq, Structural)]
pub struct Stack {
    pub item: ItemId,
    pub count: u16,
}

/// The canonical empty stack.
pub open spec fn empty_stack() -> Stack {
    Stack { item: ItemId(EMPTY), count: 0 }
}

pub open spec fn is_empty_stack(s: Stack) -> bool {
    s.item.0 == EMPTY || s.count == 0
}

/// `Stack::new`: the stack itself, or the canonical empty stack when either part is empty.
pub open spec fn new_stack(item: ItemId, count: int) -> Stack {
    if item.0 == EMPTY || count == 0 {
        empty_stack()
    } else {
        Stack { item, count: count as u16 }
    }
}

/// Room left in a non-empty stack; an empty stack reports no room.
pub open spec fn space_of(s: Stack) -> u16 {
    if is_empty_stack(s) {
        0
    } else if stack_limit(s.item) >= s.count {
        (stack_limit(s.item) - s.count) as u16
    } else {
        0
    }
}

pub open spec fn min_int(a: int, b: int) -> int {
    if a <= b { a } else { b }
}

/// Merging `other` into `s`: the new `s` and the leftover.
/// An empty `s` takes as much of `other` as one slot holds; a stack of the same
/// item takes what fits; a different item takes nothing.
pub open spec fn absorb_of(s: Stack, other: Stack) -> (Stack, Stack) {
    if is_empty_stack(other) {
        (s, empty_stack())
    } else if is_empty_stack(s) {
        let take = min_int(other.count as int, stack_limit(other.item) as int);
        (new_stack(other.item, take), new_stack(other.item, other.count - take))
    } else if s.item != other.item {
        (s, other)
    } else {
        let take = min_int(other.count as int, space_of(s) as int);
        (Stack { item: s.item, count: (s.count + take) as u16 }, new_stack(other.item, other.count - take))
    }
}

impl Stack {
    pub fn empty() -> (r: Stack)
        ensures
            r == empty_stack(),
    {
        Stack { item: ItemId(EMPTY), count: 0 }
    }

    pub fn new(item: ItemId, count: u16) -> (r: Stack)
        ensures
            r == new_stack(item, count as int),
    {
        if item.is_empty() || count == 0 {
            Stack::empty()
        } else {
            Stack { item, count }
        }
    }

    pub fn is_empty(self) -> (r: bool)
        ensures
            r == is_empty_stack(self),
    {
        self.item.is_empty() || self.count == 0
    }

    pub fn space(self) -> (r: u16)
        ensures
            r == space_of(self),
    {
        if self.is_empty() {
            0
        } else {
            let cap = self.item.def().stack;
            if cap >= self.count { cap - self.count } else { 0 }
        }
    }

    /// Merge `other` into self. Returns the leftover.
    pub fn absorb(&mut self, other: Stack) -> (left: Stack)
        ensures
            (*final(self), left) == absorb_of(*old(self), other),
    {
        if other.is_empty() {
            return Stack::empty();
        }
        if self.is_empty() {
            let cap = other.item.def().stack;
            let take = if other.count <= cap { other.count } else { cap };
            *self = Stack::new(other.item, take);
            return Stack::new(other.item, other.count - take);
        }
        if self.item != other.item {
            return other;
        }
        let space = self.space();
        let take = if other.count <= space { other.count } else { space };
        self.count = self.count + take;
        Stack::new(other.item, other.count - take)
    }
}

/// A bag of `BAG_SLOTS` empty slots.
pub fn empty_bag() -> (r: Vec<Stack>)
    ensures
        r@ == Seq::new(BAG_SLOTS as nat, |i: int| empty_stack()),
{
    empty_slots(BAG_SLOTS)
}

/// `n` empty slots.
pub fn empty_slots(n: usize) -> (r: Vec<Stack>)
    ensures
        r@ == Seq::new(n as nat, |i: int| empty_stack()),
{
    let mut v: Vec<Stack> = Vec::new();
    let mut i: usize = 0;
    while i < n
        invariant
            i <= n,
            v@ == Seq::new(i as nat, |k: int| empty_stack()),
        decreases n - i,
    {
        v.push(Stack::empty());
        i += 1;
    }
    v
}

} // verus!
