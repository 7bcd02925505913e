//! What the inventory HUD draws in each cell: which cells are up (the
//! hotbar, or the rest of the bag and the open station's slots), which frame
//! each gets, and which stack it shows.
use vstd::prelude::*;

use crate::items::catalog::{BAG_SLOTS, HOTBAR};
use crate::items::stack::{is_empty_stack, Stack};
use crate::store::{ItemView, SlotRef};
use crate::ui::{open_slot_count, stack_in, stack_at, ItemUi};

verus! {

/// The frame drawn around a cell.
#[derive(Clone, Copy, Debug, PartialEq, Eq, Structural)]
pub enum FrameKind {
    /// The selected bag slot, or the station slot under the cursor.
    Selected,
    /// A station slot.
    Station,
    /// Any other bag slot.
    Plain,
}

/// One cell as drawn: its frame and the stack it shows, if any.
#[derive(Clone, Copy, Debug)]
pub struct SlotFrame {
    pub slot: SlotRef,
    pub frame: FrameKind,
    pub shown: Option<Stack>,
}

pub open spec fn frame_of(view: &ItemView, ui: ItemUi, slot: SlotRef) -> SlotFrame {
    let selected = match slot {
        SlotRef::Bag(i) => i == view.selected,
        SlotRef::Station(i) => ui.focus_station && i == ui.station_cursor,
    };
    let st = stack_at(view, slot);
    SlotFrame {
        slot,
        frame: if selected {
            FrameKind::Selected
        } else if slot is Station {
            FrameKind::Station
        } else {
            FrameKind::Plain
        },
        shown: if ui.held == Some((slot, false)) || is_empty_stack(st) { None } else { Some(st) },
    }
}

/// The cells drawn: the hotbar alone with `hotbar_only`; otherwise, while
/// the bag is open, the bag below the hotbar and then the open station's
/// slots.
pub open spec fn spec_slot_frames(view: &ItemView, ui: ItemUi, hotbar_only: bool) -> Seq<SlotFrame> {
    if hotbar_only {
        Seq::new(HOTBAR as nat, |i: int| frame_of(view, ui, SlotRef::Bag(i as usize)))
    } else if !ui.bag_open {
        Seq::empty()
    } else {
        Seq::new((BAG_SLOTS - HOTBAR) as nat, |i: int| frame_of(view, ui, SlotRef::Bag((i + HOTBAR) as usize)))
            + Seq::new(open_slot_count(view) as nat, |i: int| frame_of(view, ui, SlotRef::Station(i as usize)))
    }
}

fn frame_at(view: &ItemView, ui: &ItemUi, slot: SlotRef) -> (f: SlotFrame)
    ensures
        f == frame_of(view, *ui, slot),
{
    let selected = match slot {
        SlotRef::Bag(i) => i == view.selected,
        SlotRef::Station(i) => ui.focus_station && i == ui.station_cursor,
    };
    let frame = if selected {
        FrameKind::Selected
    } else {
        match slot {
            SlotRef::Station(_) => FrameKind::Station,
            SlotRef::Bag(_) => FrameKind::Plain,
        }
    };
    let st = stack_in(view, slot);
    let shown = if ui.hides(slot) || st.is_empty() { None } else { Some(st) };
    SlotFrame { slot, frame, shown }
}

/// The cells of the HUD in drawing order, with their frames and stacks.
pub fn slot_frames(view: &ItemView, ui: &ItemUi, hotbar_only: bool) -> (r: Vec<SlotFrame>)
    ensures
        r@ == spec_slot_frames(view, *ui, hotbar_only),
{
    let mut out: Vec<SlotFrame> = Vec::new();
    if hotbar_only {
        let mut i: usize = 0;
        while i < HOTBAR
            invariant
                i <= HOTBAR,
                out@ == Seq::new(i as nat, |k: int| frame_of(view, *ui, SlotRef::Bag(k as usize))),
            decreases HOTBAR - i,
        {
            out.push(frame_at(view, ui, SlotRef::Bag(i)));
            i += 1;
            assert(out@ =~= Seq::new(i as nat, |k: int| frame_of(view, *ui, SlotRef::Bag(k as usize))));
        }
        return out;
    }
    if !ui.bag_open {
        assert(out@ =~= spec_slot_frames(view, *ui, hotbar_only));
        return out;
    }
    let mut i: usize = 0;
    while i < BAG_SLOTS - HOTBAR
        invariant
            i <= BAG_SLOTS - HOTBAR,
            out@ == Seq::new(i as nat, |k: int| frame_of(view, *ui, SlotRef::Bag((k + HOTBAR) as usize))),
        decreases BAG_SLOTS - HOTBAR - i,
    {
        out.push(frame_at(view, ui, SlotRef::Bag(i + HOTBAR)));
        i += 1;
        assert(out@ =~= Seq::new(i as nat, |k: int| frame_of(view, *ui, SlotRef::Bag((k + HOTBAR) as usize))));
    }
    let ghost head = out@;
    let n = match view.open_station_view() {
        Some(s) => s.slots.len(),
        None => 0,
    };
    assert(n == open_slot_count(view));
    let mut j: usize = 0;
    while j < n
        invariant
            j <= n,
            n == open_slot_count(view),
            out@ == head + Seq::new(j as nat, |k: int| frame_of(view, *ui, SlotRef::Station(k as usize))),
        decreases n - j,
    {
        out.push(frame_at(view, ui, SlotRef::Station(j)));
        j += 1;
        assert(out@ =~= head + Seq::new(j as nat, |k: int| frame_of(view, *ui, SlotRef::Station(k as usize))));
    }
    out
}

} // verus!
