//! Keyboard and mouse-button state: held flags fed by key events, and the
//! rising edges handed out once per simulation tick.
use vstd::prelude::*;

use crate::settings::{spec_matches, Action, KeyCode, Settings};

verus! {

/// Held keys and buttons, and each edge-tracked button's level at the
/// previous tick (`*_was`). The cursor position in pixels is kept by the
/// window layer.
#[derive(Clone, Copy, Debug)]
pub struct InputState {
    pub forward: bool,
    pub back: bool,
    pub left: bool,
    pub right: bool,
    pub jump: bool,
    pub sprint: bool,
    pub mouse_captured: bool,
    pub sit: bool,
    pub interact: bool,
    pub attack: bool,
    pub inventory: bool,
    pub drop: bool,
    pub craft: bool,
    pub transfer: bool,
    pub take: bool,
    pub recipe_prev: bool,
    pub recipe_next: bool,
    pub cursor_left: bool,
    pub cursor_right: bool,
    pub cursor_up: bool,
    pub cursor_down: bool,
    pub hotbar: Option<usize>,
    pub wheel: i32,
    pub sit_was: bool,
    pub interact_was: bool,
    pub attack_was: bool,
    pub inventory_was: bool,
    pub drop_was: bool,
    pub craft_was: bool,
    pub transfer_was: bool,
    pub take_was: bool,
    pub recipe_prev_was: bool,
    pub recipe_next_was: bool,
    pub cursor_left_was: bool,
    pub cursor_right_was: bool,
    pub cursor_up_was: bool,
    pub cursor_down_was: bool,
    pub debug_was: bool,
    pub debug: bool,
    pub lmb: bool,
    pub rmb: bool,
    pub lmb_was: bool,
    pub rmb_was: bool,
}

/// Rising edges since the previous tick, the hotbar digit pressed and the
/// wheel steps accumulated.
#[derive(Clone, Copy, Debug)]
pub struct InputEdges {
    pub sit: bool,
    pub interact: bool,
    pub attack: bool,
    pub inventory: bool,
    pub drop: bool,
    pub craft: bool,
    pub transfer: bool,
    pub take: bool,
    pub recipe_prev: bool,
    pub recipe_next: bool,
    pub cursor_left: bool,
    pub cursor_right: bool,
    pub cursor_up: bool,
    pub cursor_down: bool,
    pub debug: bool,
    pub lmb: bool,
    pub rmb: bool,
    pub hotbar: Option<usize>,
    pub wheel: i32,
}

/// The edges a tick takes from `s`: each button held now and not at the
/// previous tick, the pending hotbar digit and the wheel steps.
pub open spec fn edges(s: InputState) -> InputEdges {
    InputEdges {
        sit: s.sit && !s.sit_was,
        interact: s.interact && !s.interact_was,
        attack: s.attack && !s.attack_was,
        inventory: s.inventory && !s.inventory_was,
        drop: s.drop && !s.drop_was,
        craft: s.craft && !s.craft_was,
        transfer: s.transfer && !s.transfer_was,
        take: s.take && !s.take_was,
        recipe_prev: s.recipe_prev && !s.recipe_prev_was,
        recipe_next: s.recipe_next && !s.recipe_next_was,
        cursor_left: s.cursor_left && !s.cursor_left_was,
        cursor_right: s.cursor_right && !s.cursor_right_was,
        cursor_up: s.cursor_up && !s.cursor_up_was,
        cursor_down: s.cursor_down && !s.cursor_down_was,
        debug: s.debug && !s.debug_was,
        lmb: s.lmb && !s.lmb_was,
        rmb: s.rmb && !s.rmb_was,
        hotbar: s.hotbar,
        wheel: s.wheel,
    }
}

/// The state once a tick's edges were taken: every level becomes the
/// previous level, the hotbar digit and the wheel steps are cleared.
pub open spec fn after_edges(s: InputState) -> InputState {
    InputState {
        sit_was: s.sit,
        interact_was: s.interact,
        attack_was: s.attack,
        inventory_was: s.inventory,
        drop_was: s.drop,
        craft_was: s.craft,
        transfer_was: s.transfer,
        take_was: s.take,
        recipe_prev_was: s.recipe_prev,
        recipe_next_was: s.recipe_next,
        cursor_left_was: s.cursor_left,
        cursor_right_was: s.cursor_right,
        cursor_up_was: s.cursor_up,
        cursor_down_was: s.cursor_down,
        debug_was: s.debug,
        lmb_was: s.lmb,
        rmb_was: s.rmb,
        hotbar: None,
        wheel: 0,
        ..s
    }
}

/// No edge, no hotbar digit, no wheel step.
pub open spec fn quiet(e: InputEdges) -> bool {
    &&& !e.sit
    &&& !e.interact
    &&& !e.attack
    &&& !e.inventory
    &&& !e.drop
    &&& !e.craft
    &&& !e.transfer
    &&& !e.take
    &&& !e.recipe_prev
    &&& !e.recipe_next
    &&& !e.cursor_left
    &&& !e.cursor_right
    &&& !e.cursor_up
    &&& !e.cursor_down
    &&& !e.debug
    &&& !e.lmb
    &&& !e.rmb
    &&& e.hotbar is None
    &&& e.wheel == 0
}

/// The hotbar slot a digit key selects (`1` is slot 0).
pub open spec fn hotbar_slot(code: KeyCode) -> Option<usize> {
    match code {
        KeyCode::Digit1 => Some(0),
        KeyCode::Digit2 => Some(1),
        KeyCode::Digit3 => Some(2),
        KeyCode::Digit4 => Some(3),
        KeyCode::Digit5 => Some(4),
        KeyCode::Digit6 => Some(5),
        KeyCode::Digit7 => Some(6),
        KeyCode::Digit8 => Some(7),
        KeyCode::Digit9 => Some(8),
        _ => None,
    }
}

/// The state after `code` went down (`pressed`) or up under `binds`: every
/// action the key triggers takes the new level, F3 drives the debug flag,
/// the arrows the cursor flags, and a digit sets (or on release clears)
/// the pending hotbar slot.
pub open spec fn after_key(s: InputState, binds: Seq<KeyCode>, code: KeyCode, pressed: bool) -> InputState {
    InputState {
        forward: if spec_matches(binds, Action::Forward, code) { pressed } else { s.forward },
        back: if spec_matches(binds, Action::Back, code) { pressed } else { s.back },
        left: if spec_matches(binds, Action::Left, code) { pressed } else { s.left },
        right: if spec_matches(binds, Action::Right, code) { pressed } else { s.right },
        jump: if spec_matches(binds, Action::Jump, code) { pressed } else { s.jump },
        sprint: if spec_matches(binds, Action::Sprint, code) { pressed } else { s.sprint },
        sit: if spec_matches(binds, Action::Sit, code) { pressed } else { s.sit },
        interact: if spec_matches(binds, Action::Interact, code) { pressed } else { s.interact },
        attack: if spec_matches(binds, Action::Attack, code) { pressed } else { s.attack },
        inventory: if spec_matches(binds, Action::Inventory, code) { pressed } else { s.inventory },
        drop: if spec_matches(binds, Action::Drop, code) { pressed } else { s.drop },
        craft: if spec_matches(binds, Action::Craft, code) { pressed } else { s.craft },
        transfer: if spec_matches(binds, Action::Transfer, code) { pressed } else { s.transfer },
        take: if spec_matches(binds, Action::Take, code) { pressed } else { s.take },
        recipe_prev: if spec_matches(binds, Action::RecipePrev, code) { pressed } else { s.recipe_prev },
        recipe_next: if spec_matches(binds, Action::RecipeNext, code) { pressed } else { s.recipe_next },
        debug: if code == KeyCode::F3 { pressed } else { s.debug },
        cursor_left: if code == KeyCode::ArrowLeft { pressed } else { s.cursor_left },
        cursor_right: if code == KeyCode::ArrowRight { pressed } else { s.cursor_right },
        cursor_up: if code == KeyCode::ArrowUp { pressed } else { s.cursor_up },
        cursor_down: if code == KeyCode::ArrowDown { pressed } else { s.cursor_down },
        hotbar: match hotbar_slot(code) {
            Some(i) => if pressed { Some(i) } else { None },
            None => s.hotbar,
        },
        ..s
    }
}

/// Nothing held, nothing remembered, mouse free.
pub open spec fn is_idle(s: InputState) -> bool {
    &&& !s.forward
    &&& !s.back
    &&& !s.left
    &&& !s.right
    &&& !s.jump
    &&& !s.sprint
    &&& !s.sit
    &&& !s.interact
    &&& !s.attack
    &&& !s.inventory
    &&& !s.drop
    &&& !s.craft
    &&& !s.transfer
    &&& !s.take
    &&& !s.recipe_prev
    &&& !s.recipe_next
    &&& !s.cursor_left
    &&& !s.cursor_right
    &&& !s.cursor_up
    &&& !s.cursor_down
    &&& !s.debug
    &&& !s.lmb
    &&& !s.rmb
    &&& !s.sit_was
    &&& !s.interact_was
    &&& !s.attack_was
    &&& !s.inventory_was
    &&& !s.drop_was
    &&& !s.craft_was
    &&& !s.transfer_was
    &&& !s.take_was
    &&& !s.recipe_prev_was
    &&& !s.recipe_next_was
    &&& !s.cursor_left_was
    &&& !s.cursor_right_was
    &&& !s.cursor_up_was
    &&& !s.cursor_down_was
    &&& !s.debug_was
    &&& !s.lmb_was
    &&& !s.rmb_was
    &&& !s.mouse_captured
    &&& s.hotbar is None
    &&& s.wheel == 0
}

impl InputState {
    /// Apply a key going down (`pressed`) or up.
    pub fn handle_key(&mut self, settings: &Settings, code: KeyCode, pressed: bool)
        ensures
            *final(self) == after_key(*old(self), settings.binds@, code, pressed),
    {
        let s = *self;
        let forward = if settings.matches(Action::Forward, code) { pressed } else { s.forward };
        let back = if settings.matches(Action::Back, code) { pressed } else { s.back };
        let left = if settings.matches(Action::Left, code) { pressed } else { s.left };
        let right = if settings.matches(Action::Right, code) { pressed } else { s.right };
        let jump = if settings.matches(Action::Jump, code) { pressed } else { s.jump };
        let sprint = if settings.matches(Action::Sprint, code) { pressed } else { s.sprint };
        let sit = if settings.matches(Action::Sit, code) { pressed } else { s.sit };
        let interact = if settings.matches(Action::Interact, code) { pressed } else { s.interact };
        let attack = if settings.matches(Action::Attack, code) { pressed } else { s.attack };
        let inventory = if settings.matches(Action::Inventory, code) { pressed } else { s.inventory };
        let drop = if settings.matches(Action::Drop, code) { pressed } else { s.drop };
        let craft = if settings.matches(Action::Craft, code) { pressed } else { s.craft };
        let transfer = if settings.matches(Action::Transfer, code) { pressed } else { s.transfer };
        let take = if settings.matches(Action::Take, code) { pressed } else { s.take };
        let recipe_prev = if settings.matches(Action::RecipePrev, code) { pressed } else { s.recipe_prev };
        let recipe_next = if settings.matches(Action::RecipeNext, code) { pressed } else { s.recipe_next };
        let debug = if code == KeyCode::F3 { pressed } else { s.debug };
        let cursor_left = if code == KeyCode::ArrowLeft { pressed } else { s.cursor_left };
        let cursor_right = if code == KeyCode::ArrowRight { pressed } else { s.cursor_right };
        let cursor_up = if code == KeyCode::ArrowUp { pressed } else { s.cursor_up };
        let cursor_down = if code == KeyCode::ArrowDown { pressed } else { s.cursor_down };
        let hotbar = digit_hotbar(code, pressed, s.hotbar);
        *self = InputState {
            forward,
            back,
            left,
            right,
            jump,
            sprint,
            sit,
            interact,
            attack,
            inventory,
            drop,
            craft,
            transfer,
            take,
            recipe_prev,
            recipe_next,
            debug,
            cursor_left,
            cursor_right,
            cursor_up,
            cursor_down,
            hotbar,
            ..s
        };
    }

    pub fn set_attack(&mut self, pressed: bool)
        ensures
            *final(self) == (InputState { attack: pressed, ..*old(self) }),
    {
        self.attack = pressed;
    }

    pub fn set_lmb(&mut self, pressed: bool)
        ensures
            *final(self) == (InputState { lmb: pressed, ..*old(self) }),
    {
        self.lmb = pressed;
    }

    pub fn set_rmb(&mut self, pressed: bool)
        ensures
            *final(self) == (InputState { rmb: pressed, ..*old(self) }),
    {
        self.rmb = pressed;
    }

    /// One wheel notch: `delta` is the scroll direction's sign (positive
    /// scrolls up, which steps the selection back).
    pub fn add_wheel(&mut self, delta: i32)
        requires
            delta > 0 ==> old(self).wheel > i32::MIN,
            delta < 0 ==> old(self).wheel < i32::MAX,
        ensures
            *final(self) == (InputState {
                wheel: (if delta > 0 {
                    old(self).wheel - 1
                } else if delta < 0 {
                    old(self).wheel + 1
                } else {
                    old(self).wheel as int
                }) as i32,
                ..*old(self)
            }),
    {
        if delta > 0 {
            self.wheel -= 1;
        } else if delta < 0 {
            self.wheel += 1;
        }
    }

    /// Take this tick's rising edges. Call once per simulation tick.
    pub fn consume_edges(&mut self) -> (e: InputEdges)
        ensures
            e == edges(*old(self)),
            *final(self) == after_edges(*old(self)),
    {
        let edges = InputEdges {
            sit: self.sit && !self.sit_was,
            interact: self.interact && !self.interact_was,
            attack: self.attack && !self.attack_was,
            inventory: self.inventory && !self.inventory_was,
            drop: self.drop && !self.drop_was,
            craft: self.craft && !self.craft_was,
            transfer: self.transfer && !self.transfer_was,
            take: self.take && !self.take_was,
            recipe_prev: self.recipe_prev && !self.recipe_prev_was,
            recipe_next: self.recipe_next && !self.recipe_next_was,
            cursor_left: self.cursor_left && !self.cursor_left_was,
            cursor_right: self.cursor_right && !self.cursor_right_was,
            cursor_up: self.cursor_up && !self.cursor_up_was,
            cursor_down: self.cursor_down && !self.cursor_down_was,
            debug: self.debug && !self.debug_was,
            lmb: self.lmb && !self.lmb_was,
            rmb: self.rmb && !self.rmb_was,
            hotbar: self.hotbar,
            wheel: self.wheel,
        };
        let s = *self;
        *self = InputState {
            sit_was: s.sit,
            interact_was: s.interact,
            attack_was: s.attack,
            inventory_was: s.inventory,
            drop_was: s.drop,
            craft_was: s.craft,
            transfer_was: s.transfer,
            take_was: s.take,
            recipe_prev_was: s.recipe_prev,
            recipe_next_was: s.recipe_next,
            cursor_left_was: s.cursor_left,
            cursor_right_was: s.cursor_right,
            cursor_up_was: s.cursor_up,
            cursor_down_was: s.cursor_down,
            debug_was: s.debug,
            lmb_was: s.lmb,
            rmb_was: s.rmb,
            hotbar: None,
            wheel: 0,
            ..s
        };
        edges
    }

    pub fn toggle_mouse_capture(&mut self)
        ensures
            *final(self) == (InputState { mouse_captured: !old(self).mouse_captured, ..*old(self) }),
    {
        self.mouse_captured = !self.mouse_captured;
    }
}

fn digit_hotbar(code: KeyCode, pressed: bool, current: Option<usize>) -> (r: Option<usize>)
    ensures
        r == (match hotbar_slot(code) {
            Some(i) => if pressed { Some(i) } else { None },
            None => current,
        }),
{
    let slot: usize = match code {
        KeyCode::Digit1 => 0,
        KeyCode::Digit2 => 1,
        KeyCode::Digit3 => 2,
        KeyCode::Digit4 => 3,
        KeyCode::Digit5 => 4,
        KeyCode::Digit6 => 5,
        KeyCode::Digit7 => 6,
        KeyCode::Digit8 => 7,
        KeyCode::Digit9 => 8,
        _ => {
            return current;
        },
    };
    if pressed {
        Some(slot)
    } else {
        None
    }
}

/// A press is reported once: taking edges twice in a row, with no key
/// event between, yields nothing the second time.
pub proof fn law_edges_fire_once(s: InputState)
    ensures
        quiet(edges(after_edges(s))),
{
}

/// Taking edges never changes what is held.
pub proof fn law_edges_keep_levels(s: InputState)
    ensures
        after_edges(s).forward == s.forward && after_edges(s).back == s.back,
        after_edges(s).left == s.left && after_edges(s).right == s.right,
        after_edges(s).jump == s.jump && after_edges(s).sprint == s.sprint,
        edges(after_edges(s)).hotbar is None,
        after_edges(s).sit == s.sit,
        after_edges(s).interact == s.interact,
        after_edges(s).attack == s.attack,
        after_edges(s).inventory == s.inventory,
        after_edges(s).drop == s.drop,
        after_edges(s).craft == s.craft,
        after_edges(s).transfer == s.transfer,
        after_edges(s).take == s.take,
        after_edges(s).recipe_prev == s.recipe_prev,
        after_edges(s).recipe_next == s.recipe_next,
        after_edges(s).cursor_left == s.cursor_left,
        after_edges(s).cursor_right == s.cursor_right,
        after_edges(s).cursor_up == s.cursor_up,
        after_edges(s).cursor_down == s.cursor_down,
        after_edges(s).debug == s.debug,
        after_edges(s).lmb == s.lmb,
        after_edges(s).rmb == s.rmb,
        after_edges(s).mouse_captured == s.mouse_captured,
{
}

/// A button pressed from idle is reported on the next tick.
pub proof fn law_press_reported(s: InputState, binds: Seq<KeyCode>, code: KeyCode)
    requires
        is_idle(s),
        binds.len() == crate::settings::ACTION_COUNT,
        spec_matches(binds, Action::Interact, code),
    ensures
        edges(after_key(s, binds, code, true)).interact,
{
}

impl Default for InputState {
    fn default() -> (s: Self)
        ensures
            is_idle(s),
    {
        InputState {
            forward: false,
            back: false,
            left: false,
            right: false,
            jump: false,
            sprint: false,
            sit: false,
            sit_was: false,
            interact: false,
            interact_was: false,
            attack: false,
            attack_was: false,
            inventory: false,
            inventory_was: false,
            drop: false,
            drop_was: false,
            craft: false,
            craft_was: false,
            transfer: false,
            transfer_was: false,
            take: false,
            take_was: false,
            recipe_prev: false,
            recipe_prev_was: false,
            recipe_next: false,
            recipe_next_was: false,
            cursor_left: false,
            cursor_left_was: false,
            cursor_right: false,
            cursor_right_was: false,
            cursor_up: false,
            cursor_up_was: false,
            cursor_down: false,
            cursor_down_was: false,
            debug: false,
            debug_was: false,
            lmb: false,
            lmb_was: false,
            rmb: false,
            rmb_was: false,
            mouse_captured: false,
            hotbar: None,
            wheel: 0,
        }
    }
}

impl Default for InputEdges {
    fn default() -> (e: Self)
        ensures
            quiet(e),
    {
        InputEdges {
            sit: false,
            interact: false,
            attack: false,
            inventory: false,
            drop: false,
            craft: false,
            transfer: false,
            take: false,
            recipe_prev: false,
            recipe_next: false,
            cursor_left: false,
            cursor_right: false,
            cursor_up: false,
            cursor_down: false,
            debug: false,
            lmb: false,
            rmb: false,
            hotbar: None,
            wheel: 0,
        }
    }
}

} // verus!
