//! Client-side inventory HUD state: which panel is up, the station cursor,
//! the debug overlay, and the stack picked up with the mouse.
use vstd::prelude::*;

use crate::items::catalog::{BAG_SLOTS, HOTBAR};
use crate::items::stack::{empty_stack, is_empty_stack, new_stack, Stack};
use crate::store::{find_station, station_models, station_pos, ItemView, SlotRef};

verus! {

#[derive(Clone, Copy, Debug)]
pub struct ItemUi {
    pub bag_open: bool,
    /// When true, arrow keys move through the open station instead of the bag.
    pub focus_station: bool,
    pub station_cursor: usize,
    /// Whether the debug overlay is shown.
    pub debug: bool,
    /// The slot a stack was picked up from with the mouse, and whether only
    /// one item of it is carried (right button).
    pub held: Option<(SlotRef, bool)>,
}

/// Slots of the open station in `view` (0 when none is open).
pub open spec fn open_slot_count(view: &ItemView) -> int {
    match view.open_station {
        Some(id) => match station_pos(station_models(view.stations@), id) {
            Some(k) => view.stations@[k].slots@.len() as int,
            None => 0,
        },
        None => 0,
    }
}

impl ItemUi {

    /// Open or close the bag; closing also leaves station focus.
    pub fn toggle_bag(&mut self)
        ensures
            final(self).bag_open == !old(self).bag_open,
            final(self).focus_station == (final(self).bag_open && old(self).focus_station),
            final(self).station_cursor == old(self).station_cursor,
            final(self).debug == old(self).debug && final(self).held == old(self).held,
    {
        self.bag_open = !self.bag_open;
        if !self.bag_open {
            self.focus_station = false;
        }
    }

    pub fn on_station_opened(&mut self)
        ensures
            final(self).bag_open && !final(self).focus_station,
            final(self).station_cursor == old(self).station_cursor,
            final(self).debug == old(self).debug && final(self).held == old(self).held,
    {
        self.bag_open = true;
        self.focus_station = false;
    }

    pub fn on_station_closed(&mut self)
        ensures
            !final(self).focus_station && final(self).station_cursor == 0,
            final(self).bag_open == old(self).bag_open,
            final(self).debug == old(self).debug && final(self).held == old(self).held,
    {
        self.focus_station = false;
        self.station_cursor = 0;
    }

    /// Move the station cursor on a grid six wide, wrapping around the open
    /// station's slots. Does nothing unless the bag is open with station focus.
    pub fn move_cursor(&mut self, view: &ItemView, dx: i32, dy: i32)
        requires
            old(self).station_cursor <= i32::MAX,
            open_slot_count(view) <= i32::MAX,
            i32::MIN <= (old(self).station_cursor as int) % 6 + dx <= i32::MAX,
            i32::MIN <= (old(self).station_cursor as int) / 6 + dy <= i32::MAX,
            i32::MIN <= ((old(self).station_cursor as int) / 6 + dy) * 6 <= i32::MAX,
            i32::MIN <= ((old(self).station_cursor as int) / 6 + dy) * 6 + (old(self).station_cursor as int) % 6
                + dx <= i32::MAX,
        ensures
            final(self).bag_open == old(self).bag_open && final(self).focus_station == old(self).focus_station,
            final(self).debug == old(self).debug && final(self).held == old(self).held,
            (old(self).bag_open && old(self).focus_station) ==> ({
                let n = if open_slot_count(view) > 1 { open_slot_count(view) } else { 1 };
                let cur = old(self).station_cursor as int;
                final(self).station_cursor as int == ((cur / 6 + dy) * 6 + cur % 6 + dx) % n
            }),
            !(old(self).bag_open && old(self).focus_station) ==> final(self).station_cursor == old(self).station_cursor,
    {
        if !self.bag_open {
            return;
        }
        if self.focus_station {
            let n = match view.open_station_view() {
                Some(s) => if s.slots.len() > 1 { s.slots.len() } else { 1 },
                None => 1,
            };
            let cur = self.station_cursor as i32;
            let x = cur % 6 + dx;
            let y = cur / 6 + dy;
            let p = y * 6 + x;
            assert(n as int == (if open_slot_count(view) > 1 { open_slot_count(view) } else { 1 }));
            let n32: i64 = n as i64;
            let r: i64 = wrap(p as i64, n32);
            self.station_cursor = r as usize;
        }
    }

    /// Hotbar slot after scrolling `dir` from `selected`, wrapping.
    /// The slot index is taken as an `i32` as it is, wrapping.
    pub fn next_hotbar(selected: usize, dir: i32) -> (r: usize)
        requires
            i32::MIN <= (selected as i32) + dir <= i32::MAX,
        ensures
            r as int == ((selected as i32) + dir) % (HOTBAR as int),
            r < HOTBAR,
    {
        let s = selected as i32 + dir;
        wrap(s as i64, HOTBAR as i64) as usize
    }

    /// Bag index of a grid cell nine wide, clamped to the last slot.
    pub fn bag_index(row: usize, col: usize) -> (i: usize)
        requires
            row * 9 + col <= usize::MAX,
        ensures
            i == (if row * 9 + col < BAG_SLOTS { row * 9 + col } else { BAG_SLOTS - 1 }),
    {
        let i = row * HOTBAR + col;
        if i < BAG_SLOTS { i } else { BAG_SLOTS - 1 }
    }
}

/// The bag slot the arrow keys move the selection to: columns wrap around
/// the nine-wide rows, rows stop at the top and bottom of the four.
pub open spec fn spec_bag_cursor(selected: int, dx: int, dy: int) -> int {
    let s = if selected < BAG_SLOTS { selected } else { BAG_SLOTS - 1 };
    let col = (s % (HOTBAR as int) + dx) % (HOTBAR as int);
    let row = s / (HOTBAR as int) + dy;
    let rows = (BAG_SLOTS / HOTBAR) as int;
    let r = if row < 0 { 0 } else if row > rows - 1 { rows - 1 } else { row };
    r * HOTBAR + col
}

/// Move the bag selection by `dx` columns and `dy` rows.
pub fn bag_cursor(selected: usize, dx: i32, dy: i32) -> (r: usize)
    requires
        dx <= i32::MAX - (HOTBAR - 1),
        dy <= i32::MAX - (BAG_SLOTS / HOTBAR - 1),
    ensures
        r == spec_bag_cursor(selected as int, dx as int, dy as int),
        r < BAG_SLOTS,
{
    let s = if selected < BAG_SLOTS { selected } else { BAG_SLOTS - 1 };
    let col = (s % HOTBAR) as i32 + dx;
    let row = (s / HOTBAR) as i32 + dy;
    let rows = (BAG_SLOTS / HOTBAR) as i32;
    let nc = wrap(col as i64, HOTBAR as i64) as usize;
    let nr = if row < 0 { 0 } else if row > rows - 1 { rows - 1 } else { row };
    nr as usize * HOTBAR + nc
}

/// `v.rem_euclid(n)`.
pub(crate) fn wrap(v: i64, n: i64) -> (r: i64)
    requires
        0 < n <= i32::MAX,
        i32::MIN <= v <= i32::MAX,
    ensures
        r == v % n,
        0 <= r < n,
{
    if v >= 0 {
        v % n
    } else {
        let q = (-(v + 1)) % n;
        proof {
            lemma_wrap_neg(v as int, n as int);
        }
        n - 1 - q
    }
}

proof fn lemma_wrap_neg(v: int, n: int)
    requires
        n > 0,
        v < 0,
    ensures
        n - 1 - ((-(v + 1)) % n) == v % n,
{
    let q = (-(v + 1)) % n;
    let d = (-(v + 1)) / n;
    assert(-(v + 1) == d * n + q && 0 <= q < n) by (nonlinear_arith)
        requires
            n > 0,
            q == (-(v + 1)) % n,
            d == (-(v + 1)) / n,
    ;
    assert(v == (-d - 1) * n + (n - 1 - q)) by (nonlinear_arith)
        requires
            -(v + 1) == d * n + q,
    ;
    vstd::arithmetic::div_mod::lemma_fundamental_div_mod_converse(v, n, -d - 1, n - 1 - q);
}

/// The stack a cell of `view` holds (empty when the cell does not exist).
pub open spec fn stack_at(view: &ItemView, slot: SlotRef) -> Stack {
    match slot {
        SlotRef::Bag(i) => if i < view.bag@.len() { view.bag@[i as int] } else { empty_stack() },
        SlotRef::Station(i) => match view.open_station {
            Some(id) => match station_pos(station_models(view.stations@), id) {
                Some(k) => if i < view.stations@[k].slots@.len() {
                    view.stations@[k].slots@[i as int]
                } else {
                    empty_stack()
                },
                None => empty_stack(),
            },
            None => empty_stack(),
        },
    }
}

/// The stack in `slot` of `view`.
pub fn stack_in(view: &ItemView, slot: SlotRef) -> (s: Stack)
    ensures
        s == stack_at(view, slot),
{
    match slot {
        SlotRef::Bag(i) => if i < view.bag.len() { view.bag[i] } else { Stack::empty() },
        SlotRef::Station(i) => match view.open_station {
            Some(id) => match find_station(&view.stations, id) {
                Some(k) => if i < view.stations[k].slots.len() { view.stations[k].slots[i] } else { Stack::empty() },
                None => Stack::empty(),
            },
            None => Stack::empty(),
        },
    }
}

/// A click on `slot` with nothing in hand picks its stack up (all of it, or
/// one item with `one`) if it holds any; with a stack in hand, a click on
/// another slot moves it there and a click on its own slot puts it back.
/// The second component is the move `(from, to, one)` to carry out.
pub open spec fn click_of(ui: ItemUi, view: &ItemView, slot: SlotRef, one: bool) -> (ItemUi, Option<(SlotRef, SlotRef, bool)>) {
    match ui.held {
        None => if is_empty_stack(stack_at(view, slot)) {
            (ui, None)
        } else {
            (ItemUi { held: Some((slot, one)), ..ui }, None)
        },
        Some((from, held_one)) => if from == slot {
            (ItemUi { held: None, ..ui }, None)
        } else {
            (ItemUi { held: None, ..ui }, Some((from, slot, held_one)))
        },
    }
}

impl ItemUi {
    /// Click on `slot` (`one`: right button); returns the move to make, if any.
    pub fn click_slot(&mut self, view: &ItemView, slot: SlotRef, one: bool) -> (mv: Option<(SlotRef, SlotRef, bool)>)
        ensures
            (*final(self), mv) == click_of(*old(self), view, slot, one),
    {
        match self.held {
            None => {
                if !stack_in(view, slot).is_empty() {
                    self.held = Some((slot, one));
                }
                None
            },
            Some((from, held_one)) => {
                self.held = None;
                if from == slot {
                    None
                } else {
                    Some((from, slot, held_one))
                }
            },
        }
    }

    /// Let go of the stack in hand; it stays where it was.
    pub fn cancel_drag(&mut self)
        ensures
            *final(self) == (ItemUi { held: None, ..*old(self) }),
    {
        self.held = None;
    }

    /// Whether `slot` is drawn empty because its whole stack is in hand.
    pub fn hides(&self, slot: SlotRef) -> (r: bool)
        ensures
            r == (self.held == Some((slot, false))),
    {
        match self.held {
            Some((s, one)) => s == slot && !one,
            None => false,
        }
    }

    /// What the hand shows: the picked-up stack, or one item of it.
    pub fn held_stack(&self, view: &ItemView) -> (s: Stack)
        ensures
            s == (match self.held {
                Some((slot, one)) => if one {
                    new_stack(stack_at(view, slot).item, 1)
                } else {
                    stack_at(view, slot)
                },
                None => empty_stack(),
            }),
    {
        match self.held {
            Some((slot, one)) => {
                let st = stack_in(view, slot);
                if one { Stack::new(st.item, 1) } else { st }
            },
            None => Stack::empty(),
        }
    }
}

impl Default for ItemUi {
    fn default() -> (u: Self)
        ensures
            !u.bag_open && !u.focus_station && u.station_cursor == 0 && !u.debug && u.held is None,
    {
        ItemUi { bag_open: false, focus_station: false, station_cursor: 0, debug: false, held: None }
    }
}

} // verus!
