//! One tick of the inventory controls: the edges of the tick, the HUD state
//! and a snapshot of the items decide the next HUD state and the list of
//! things for the game to do, in order. The game carries them out on its
//! item store; pointer hit-testing and positions stay with the game.
use vstd::prelude::*;

use crate::input::InputEdges;
use crate::items::catalog::BAG_SLOTS;
use crate::items::recipe::{recipe_table, recipes_for, Recipe};
use crate::store::{current_station, recipes_at, station_at, station_models, ItemView, SlotRef};
use crate::ui::{bag_cursor, click_of, open_slot_count, spec_bag_cursor, wrap, ItemUi};

verus! {

/// Something for the game to do on its item store or its window.
#[derive(Clone, Copy, Debug, PartialEq, Eq, Structural)]
pub enum ItemAction {
    /// Let the mouse pointer go, so slots can be clicked.
    FreeCursor,
    CloseStation,
    /// Move a stack (or one item of it) between two cells.
    Move(SlotRef, SlotRef, bool),
    Select(usize),
    /// Drop one of the selected item in front of the player.
    Drop,
    CycleRecipe(i32),
    Craft(u16),
    /// Move the selected stack into the open station (`true`) or take from it.
    Transfer(bool),
    /// Pick up loot the player is standing on.
    PickupNearest,
}

/// Opening the bag frees the pointer; closing it drops what is in hand and
/// closes the open station.
#[verifier::opaque]
pub open spec fn stage_inventory(ui: ItemUi, e: InputEdges) -> (ItemUi, Seq<ItemAction>) {
    if e.inventory {
        let t = ItemUi { bag_open: !ui.bag_open, focus_station: !ui.bag_open && ui.focus_station, ..ui };
        if t.bag_open {
            (t, seq![ItemAction::FreeCursor])
        } else {
            (ItemUi { held: None, focus_station: false, station_cursor: 0, ..t }, seq![ItemAction::CloseStation])
        }
    } else {
        (ui, Seq::empty())
    }
}

pub open spec fn stage_debug(ui: ItemUi, e: InputEdges) -> ItemUi {
    if e.debug { ItemUi { debug: !ui.debug, ..ui } } else { ui }
}

/// A click (left: whole stack, right: one item) while the pointer is free
/// works the slot under it; a left click beside the slots drops what is in hand.
#[verifier::opaque]
pub open spec fn stage_click(ui: ItemUi, e: InputEdges, view: &ItemView, hit: Option<SlotRef>, captured: bool) -> (
    ItemUi,
    Seq<ItemAction>,
) {
    if (e.lmb || e.rmb) && (ui.bag_open || !captured) {
        match hit {
            Some(slot) => {
                let c = click_of(ui, view, slot, e.rmb);
                (c.0, match c.1 {
                    Some(m) => seq![ItemAction::Move(m.0, m.1, m.2)],
                    None => Seq::empty(),
                })
            },
            None => if e.lmb && ui.held is Some {
                (ItemUi { held: None, ..ui }, Seq::empty())
            } else {
                (ui, Seq::empty())
            },
        }
    } else {
        (ui, Seq::empty())
    }
}

/// A digit selects its hotbar slot; the wheel scrolls the hotbar. The first
/// component is the selected slot afterwards.
#[verifier::opaque]
pub open spec fn stage_select(e: InputEdges, view: &ItemView) -> (int, Seq<ItemAction>) {
    match e.hotbar {
        Some(h) => (if h < BAG_SLOTS { h as int } else { view.selected as int }, seq![ItemAction::Select(h)]),
        None => if e.wheel != 0 {
            let n = (((view.selected as i32) + e.wheel) % 9) as usize;
            (n as int, seq![ItemAction::Select(n)])
        } else {
            (view.selected as int, Seq::empty())
        },
    }
}

pub open spec fn arrows_dx(e: InputEdges) -> int {
    (if e.cursor_right { 1int } else { 0 }) - (if e.cursor_left { 1int } else { 0 })
}

pub open spec fn arrows_dy(e: InputEdges) -> int {
    (if e.cursor_down { 1int } else { 0 }) - (if e.cursor_up { 1int } else { 0 })
}

/// The station cursor moved on its grid six wide.
pub open spec fn cursor_moved(ui: ItemUi, view: &ItemView, dx: int, dy: int) -> ItemUi {
    let n = if open_slot_count(view) > 1 { open_slot_count(view) } else { 1 };
    let cur = ui.station_cursor as int;
    ItemUi { station_cursor: (((cur / 6 + dy) * 6 + cur % 6 + dx) % n) as usize, ..ui }
}

/// With the bag open, the arrow keys move the station cursor (station focus)
/// or the bag selection.
#[verifier::opaque]
pub open spec fn stage_cursor(ui: ItemUi, e: InputEdges, view: &ItemView, selected: int) -> (ItemUi, Seq<ItemAction>) {
    if ui.bag_open && (e.cursor_left || e.cursor_right || e.cursor_up || e.cursor_down) {
        if ui.focus_station {
            (cursor_moved(ui, view, arrows_dx(e), arrows_dy(e)), Seq::empty())
        } else {
            (ui, seq![ItemAction::Select(spec_bag_cursor(selected, arrows_dx(e), arrows_dy(e)) as usize)])
        }
    } else {
        (ui, Seq::empty())
    }
}

pub open spec fn cycled(cursor: int, dir: int, n: int) -> int {
    if n == 0 { cursor } else { (cursor + dir) % n }
}

/// Cycling the recipe book, then crafting the recipe the cursor ends on.
#[verifier::opaque]
pub open spec fn stage_recipes(e: InputEdges, view: &ItemView, open: Option<u64>) -> Seq<ItemAction> {
    let list = recipes_at(station_at(station_models(view.stations@), open));
    let n = list.len() as int;
    let c1 = if e.recipe_prev { cycled(view.recipe_cursor as int, -1, n) } else { view.recipe_cursor as int };
    let c2 = if e.recipe_next { cycled(c1, 1, n) } else { c1 };
    (if e.recipe_prev { seq![ItemAction::CycleRecipe(-1i32)] } else { Seq::empty() }) + (if e.recipe_next {
        seq![ItemAction::CycleRecipe(1i32)]
    } else {
        Seq::empty()
    }) + (if e.craft && n > 0 { seq![ItemAction::Craft(list[c2 % n].id)] } else { Seq::empty() })
}

/// While a station is open the bag is shown, without station focus.
#[verifier::opaque]
pub open spec fn stage_station(ui: ItemUi, open: Option<u64>) -> (ItemUi, Seq<ItemAction>) {
    if open is Some {
        (ItemUi { bag_open: true, focus_station: false, ..ui }, if !ui.bag_open {
            seq![ItemAction::FreeCursor]
        } else {
            Seq::empty()
        })
    } else {
        (ui, Seq::empty())
    }
}

/// One tick of the inventory controls: the HUD state afterwards and the
/// actions, in order. `hit` is the cell under the pointer, `captured` whether
/// the game holds the pointer.
pub open spec fn spec_item_input_step(ui: ItemUi, e: InputEdges, view: &ItemView, hit: Option<SlotRef>, captured: bool) -> (
    ItemUi,
    Seq<ItemAction>,
) {
    let s1 = stage_inventory(ui, e);
    let ui2 = stage_debug(s1.0, e);
    let s3 = stage_click(ui2, e, view, hit, captured);
    let s4 = stage_select(e, view);
    let s5 = stage_cursor(s3.0, e, view, s4.0);
    let open = if e.inventory && !s1.0.bag_open { None } else { view.open_station };
    let s7 = stage_station(s5.0, open);
    (s7.0, s1.1 + s3.1 + s4.1 + s5.1 + (if e.drop { seq![ItemAction::Drop] } else { Seq::empty() })
        + stage_recipes(e, view, open) + (if e.transfer { seq![ItemAction::Transfer(true)] } else { Seq::empty() })
        + (if e.take { seq![ItemAction::Transfer(false)] } else { Seq::empty() }) + seq![ItemAction::PickupNearest]
        + s7.1)
}

fn push_all(out: &mut Vec<ItemAction>, more: Vec<ItemAction>)
    ensures
        final(out)@ == old(out)@ + more@,
{
    let mut more = more;
    out.append(&mut more);
}

fn recipe_actions(e: &InputEdges, view: &ItemView, open: Option<u64>) -> (r: Vec<ItemAction>)
    requires
        view.recipe_cursor < 16,
    ensures
        r@ == stage_recipes(*e, view, open),
{
    reveal(stage_recipes);
    let list = recipes_for(current_station(&view.stations, open));
    let ghost spec_list = recipes_at(station_at(station_models(view.stations@), open));
    assert(list@ == spec_list);
    proof {
        recipe_table().lemma_filter_len(|x: Recipe| x.station == station_at(station_models(view.stations@), open));
    }
    assert(recipe_table().len() <= 16);
    let n = list.len();
    let mut out: Vec<ItemAction> = Vec::new();
    let mut c: usize = view.recipe_cursor;
    if e.recipe_prev {
        out.push(ItemAction::CycleRecipe(-1));
        if n > 0 {
            c = wrap(c as i64 - 1, n as i64) as usize;
        }
    }
    if e.recipe_next {
        out.push(ItemAction::CycleRecipe(1));
        if n > 0 {
            c = wrap(c as i64 + 1, n as i64) as usize;
        }
    }
    if e.craft && n > 0 {
        out.push(ItemAction::Craft(list[c % n].id));
    }
    assert(out@ =~= stage_recipes(*e, view, open));
    out
}

fn do_inventory(ui: &mut ItemUi, e: &InputEdges) -> (r: Vec<ItemAction>)
    ensures
        (*final(ui), r@) == stage_inventory(*old(ui), *e),
        final(ui).station_cursor <= old(ui).station_cursor,
{
    reveal(stage_inventory);
    let mut out: Vec<ItemAction> = Vec::new();
    if e.inventory {
        ui.toggle_bag();
        if ui.bag_open {
            out.push(ItemAction::FreeCursor);
        } else {
            ui.cancel_drag();
            out.push(ItemAction::CloseStation);
            ui.on_station_closed();
        }
    }
    assert(out@ =~= stage_inventory(*old(ui), *e).1);
    out
}

fn do_click(ui: &mut ItemUi, e: &InputEdges, view: &ItemView, hit: Option<SlotRef>, captured: bool) -> (r: Vec<
    ItemAction,
>)
    ensures
        (*final(ui), r@) == stage_click(*old(ui), *e, view, hit, captured),
        final(ui).station_cursor == old(ui).station_cursor,
{
    reveal(stage_click);
    let mut out: Vec<ItemAction> = Vec::new();
    if (e.lmb || e.rmb) && (ui.bag_open || !captured) {
        match hit {
            Some(slot) => {
                if let Some(m) = ui.click_slot(view, slot, e.rmb) {
                    out.push(ItemAction::Move(m.0, m.1, m.2));
                }
            },
            None => {
                if e.lmb && ui.held.is_some() {
                    ui.cancel_drag();
                }
            },
        }
    }
    assert(out@ =~= stage_click(*old(ui), *e, view, hit, captured).1);
    out
}

fn do_select(e: &InputEdges, view: &ItemView) -> (r: (usize, Vec<ItemAction>))
    requires
        e.hotbar is None && e.wheel != 0 ==> i32::MIN <= (view.selected as i32) + e.wheel <= i32::MAX,
    ensures
        (r.0 as int, r.1@) == stage_select(*e, view),
{
    reveal(stage_select);
    let mut out: Vec<ItemAction> = Vec::new();
    let mut selected = view.selected;
    match e.hotbar {
        Some(h) => {
            out.push(ItemAction::Select(h));
            if h < BAG_SLOTS {
                selected = h;
            }
        },
        None => {
            if e.wheel != 0 {
                let n = ItemUi::next_hotbar(view.selected, e.wheel);
                out.push(ItemAction::Select(n));
                selected = n;
            }
        },
    }
    assert(out@ =~= stage_select(*e, view).1);
    (selected, out)
}

fn do_cursor(ui: &mut ItemUi, e: &InputEdges, view: &ItemView, selected: usize) -> (r: Vec<ItemAction>)
    requires
        old(ui).station_cursor < 0x10_0000,
        open_slot_count(view) <= i32::MAX,
    ensures
        (*final(ui), r@) == stage_cursor(*old(ui), *e, view, selected as int),
{
    reveal(stage_cursor);
    let mut out: Vec<ItemAction> = Vec::new();
    if ui.bag_open && (e.cursor_left || e.cursor_right || e.cursor_up || e.cursor_down) {
        let dx: i32 = (if e.cursor_right { 1i32 } else { 0i32 }) - (if e.cursor_left { 1i32 } else { 0i32 });
        let dy: i32 = (if e.cursor_down { 1i32 } else { 0i32 }) - (if e.cursor_up { 1i32 } else { 0i32 });
        if ui.focus_station {
            ui.move_cursor(view, dx, dy);
        } else {
            out.push(ItemAction::Select(bag_cursor(selected, dx, dy)));
        }
    }
    assert(out@ =~= stage_cursor(*old(ui), *e, view, selected as int).1);
    out
}

fn do_station(ui: &mut ItemUi, open: Option<u64>) -> (r: Vec<ItemAction>)
    ensures
        (*final(ui), r@) == stage_station(*old(ui), open),
{
    reveal(stage_station);
    let mut out: Vec<ItemAction> = Vec::new();
    if open.is_some() {
        if !ui.bag_open {
            out.push(ItemAction::FreeCursor);
        }
        ui.on_station_opened();
    }
    assert(out@ =~= stage_station(*old(ui), open).1);
    out
}

fn flag_action(on: bool, a: ItemAction) -> (r: Vec<ItemAction>)
    ensures
        r@ == (if on { seq![a] } else { Seq::empty() }),
{
    let mut out: Vec<ItemAction> = Vec::new();
    if on {
        out.push(a);
    }
    assert(out@ =~= (if on { seq![a] } else { Seq::empty() }));
    out
}

/// One tick of the inventory controls. `hit` is the cell under the pointer
/// (found by the game from the pointer position), `captured` whether the game
/// holds the pointer. Updates the HUD state and returns what the game is to
/// do, in order.
pub fn item_input_step(ui: &mut ItemUi, e: &InputEdges, view: &ItemView, hit: Option<SlotRef>, captured: bool) -> (r: Vec<
    ItemAction,
>)
    requires
        old(ui).station_cursor < 0x10_0000,
        open_slot_count(view) <= i32::MAX,
        view.recipe_cursor < 16,
        e.hotbar is None && e.wheel != 0 ==> i32::MIN <= (view.selected as i32) + e.wheel <= i32::MAX,
    ensures
        (*final(ui), r@) == spec_item_input_step(*old(ui), *e, view, hit, captured),
{
    let ghost u0 = *ui;
    let mut out = do_inventory(ui, e);
    let closed = e.inventory && !ui.bag_open;
    if e.debug {
        ui.debug = !ui.debug;
    }
    push_all(&mut out, do_click(ui, e, view, hit, captured));
    let (selected, picks) = do_select(e, view);
    push_all(&mut out, picks);
    push_all(&mut out, do_cursor(ui, e, view, selected));
    push_all(&mut out, flag_action(e.drop, ItemAction::Drop));
    let open = if closed { None } else { view.open_station };
    push_all(&mut out, recipe_actions(e, view, open));
    push_all(&mut out, flag_action(e.transfer, ItemAction::Transfer(true)));
    push_all(&mut out, flag_action(e.take, ItemAction::Transfer(false)));
    out.push(ItemAction::PickupNearest);
    push_all(&mut out, do_station(ui, open));
    assert(out@ =~= spec_item_input_step(u0, *e, view, hit, captured).1);
    out
}

} // verus!
