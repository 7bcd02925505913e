//! Persistent game settings: key bindings, display and graphics options,
//! and the `key=value` settings file.
use vstd::prelude::*;
use vstd::string::StringSliceAdditionalSpecFns;
use vstd::utf8::{decode_utf8, encode_utf8, encode_utf8_decode_utf8};

verus! {

/// A keyboard key, by its physical position (the keys the game names; any
/// other key is `Other`).
#[derive(Clone, Copy, Debug, PartialEq, Eq, Structural)]
pub enum KeyCode {
    KeyA,
    KeyB,
    KeyC,
    KeyD,
    KeyE,
    KeyF,
    KeyG,
    KeyH,
    KeyI,
    KeyJ,
    KeyK,
    KeyL,
    KeyM,
    KeyN,
    KeyO,
    KeyP,
    KeyQ,
    KeyR,
    KeyS,
    KeyT,
    KeyU,
    KeyV,
    KeyW,
    KeyX,
    KeyY,
    KeyZ,
    Digit0,
    Digit1,
    Digit2,
    Digit3,
    Digit4,
    Digit5,
    Digit6,
    Digit7,
    Digit8,
    Digit9,
    Space,
    Tab,
    ShiftLeft,
    ShiftRight,
    ControlLeft,
    AltLeft,
    BracketLeft,
    BracketRight,
    Comma,
    Period,
    Slash,
    Semicolon,
    Quote,
    Backquote,
    Minus,
    Equal,
    ArrowLeft,
    ArrowRight,
    ArrowUp,
    ArrowDown,
    F1,
    F2,
    F3,
    F4,
    Enter,
    Backspace,
    ControlRight,
    AltRight,
    F24,
    Escape,
    Other,
}

/// Byte-wise string equality.
pub fn same_str(a: &str, b: &str) -> (r: bool)
    ensures
        r == (a@ == b@),
{
    let x = a.as_bytes();
    let y = b.as_bytes();
    proof {
        encode_utf8_decode_utf8(a@);
        encode_utf8_decode_utf8(b@);
    }
    if x.len() != y.len() {
        return false;
    }
    let mut i: usize = 0;
    while i < x.len()
        invariant
            x@.len() == y@.len(),
            x@ == a.spec_bytes(),
            y@ == b.spec_bytes(),
            i <= x@.len(),
            forall|k: int| 0 <= k < i ==> x@[k] == y@[k],
        decreases x@.len() - i,
    {
        if x[i] != y[i] {
            return false;
        }
        i += 1;
    }
    assert(x@ =~= y@);
    true
}

/// The key a settings-file token names.
pub open spec fn key_of_name(name: Seq<char>) -> Option<KeyCode> {
    if name == "KeyA"@ {
        Some(KeyCode::KeyA)
    } else if name == "KeyB"@ {
        Some(KeyCode::KeyB)
    } else if name == "KeyC"@ {
        Some(KeyCode::KeyC)
    } else if name == "KeyD"@ {
        Some(KeyCode::KeyD)
    } else if name == "KeyE"@ {
        Some(KeyCode::KeyE)
    } else if name == "KeyF"@ {
        Some(KeyCode::KeyF)
    } else if name == "KeyG"@ {
        Some(KeyCode::KeyG)
    } else if name == "KeyH"@ {
        Some(KeyCode::KeyH)
    } else if name == "KeyI"@ {
        Some(KeyCode::KeyI)
    } else if name == "KeyJ"@ {
        Some(KeyCode::KeyJ)
    } else if name == "KeyK"@ {
        Some(KeyCode::KeyK)
    } else if name == "KeyL"@ {
        Some(KeyCode::KeyL)
    } else if name == "KeyM"@ {
        Some(KeyCode::KeyM)
    } else if name == "KeyN"@ {
        Some(KeyCode::KeyN)
    } else if name == "KeyO"@ {
        Some(KeyCode::KeyO)
    } else if name == "KeyP"@ {
        Some(KeyCode::KeyP)
    } else if name == "KeyQ"@ {
        Some(KeyCode::KeyQ)
    } else if name == "KeyR"@ {
        Some(KeyCode::KeyR)
    } else if name == "KeyS"@ {
        Some(KeyCode::KeyS)
    } else if name == "KeyT"@ {
        Some(KeyCode::KeyT)
    } else if name == "KeyU"@ {
        Some(KeyCode::KeyU)
    } else if name == "KeyV"@ {
        Some(KeyCode::KeyV)
    } else if name == "KeyW"@ {
        Some(KeyCode::KeyW)
    } else if name == "KeyX"@ {
        Some(KeyCode::KeyX)
    } else if name == "KeyY"@ {
        Some(KeyCode::KeyY)
    } else if name == "KeyZ"@ {
        Some(KeyCode::KeyZ)
    } else if name == "Digit0"@ {
        Some(KeyCode::Digit0)
    } else if name == "Digit1"@ {
        Some(KeyCode::Digit1)
    } else if name == "Digit2"@ {
        Some(KeyCode::Digit2)
    } else if name == "Digit3"@ {
        Some(KeyCode::Digit3)
    } else if name == "Digit4"@ {
        Some(KeyCode::Digit4)
    } else if name == "Digit5"@ {
        Some(KeyCode::Digit5)
    } else if name == "Digit6"@ {
        Some(KeyCode::Digit6)
    } else if name == "Digit7"@ {
        Some(KeyCode::Digit7)
    } else if name == "Digit8"@ {
        Some(KeyCode::Digit8)
    } else if name == "Digit9"@ {
        Some(KeyCode::Digit9)
    } else if name == "Space"@ {
        Some(KeyCode::Space)
    } else if name == "Tab"@ {
        Some(KeyCode::Tab)
    } else if name == "ShiftLeft"@ {
        Some(KeyCode::ShiftLeft)
    } else if name == "ShiftRight"@ {
        Some(KeyCode::ShiftRight)
    } else if name == "ControlLeft"@ {
        Some(KeyCode::ControlLeft)
    } else if name == "AltLeft"@ {
        Some(KeyCode::AltLeft)
    } else if name == "BracketLeft"@ {
        Some(KeyCode::BracketLeft)
    } else if name == "BracketRight"@ {
        Some(KeyCode::BracketRight)
    } else if name == "Comma"@ {
        Some(KeyCode::Comma)
    } else if name == "Period"@ {
        Some(KeyCode::Period)
    } else if name == "Slash"@ {
        Some(KeyCode::Slash)
    } else if name == "Semicolon"@ {
        Some(KeyCode::Semicolon)
    } else if name == "Quote"@ {
        Some(KeyCode::Quote)
    } else if name == "Backquote"@ {
        Some(KeyCode::Backquote)
    } else if name == "Minus"@ {
        Some(KeyCode::Minus)
    } else if name == "Equal"@ {
        Some(KeyCode::Equal)
    } else if name == "ArrowLeft"@ {
        Some(KeyCode::ArrowLeft)
    } else if name == "ArrowRight"@ {
        Some(KeyCode::ArrowRight)
    } else if name == "ArrowUp"@ {
        Some(KeyCode::ArrowUp)
    } else if name == "ArrowDown"@ {
        Some(KeyCode::ArrowDown)
    } else if name == "F1"@ {
        Some(KeyCode::F1)
    } else if name == "F2"@ {
        Some(KeyCode::F2)
    } else if name == "F3"@ {
        Some(KeyCode::F3)
    } else if name == "F4"@ {
        Some(KeyCode::F4)
    } else if name == "Enter"@ {
        Some(KeyCode::Enter)
    } else if name == "Backspace"@ {
        Some(KeyCode::Backspace)
    } else {
        None
    }
}

/// Parse a key token of the settings file.
pub fn keycode_from_name(name: &str) -> (r: Option<KeyCode>)
    ensures
        r == key_of_name(name@),
{
    if same_str(name, "KeyA") {
        return Some(KeyCode::KeyA);
    }
    if same_str(name, "KeyB") {
        return Some(KeyCode::KeyB);
    }
    if same_str(name, "KeyC") {
        return Some(KeyCode::KeyC);
    }
    if same_str(name, "KeyD") {
        return Some(KeyCode::KeyD);
    }
    if same_str(name, "KeyE") {
        return Some(KeyCode::KeyE);
    }
    if same_str(name, "KeyF") {
        return Some(KeyCode::KeyF);
    }
    if same_str(name, "KeyG") {
        return Some(KeyCode::KeyG);
    }
    if same_str(name, "KeyH") {
        return Some(KeyCode::KeyH);
    }
    if same_str(name, "KeyI") {
        return Some(KeyCode::KeyI);
    }
    if same_str(name, "KeyJ") {
        return Some(KeyCode::KeyJ);
    }
    if same_str(name, "KeyK") {
        return Some(KeyCode::KeyK);
    }
    if same_str(name, "KeyL") {
        return Some(KeyCode::KeyL);
    }
    if same_str(name, "KeyM") {
        return Some(KeyCode::KeyM);
    }
    if same_str(name, "KeyN") {
        return Some(KeyCode::KeyN);
    }
    if same_str(name, "KeyO") {
        return Some(KeyCode::KeyO);
    }
    if same_str(name, "KeyP") {
        return Some(KeyCode::KeyP);
    }
    if same_str(name, "KeyQ") {
        return Some(KeyCode::KeyQ);
    }
    if same_str(name, "KeyR") {
        return Some(KeyCode::KeyR);
    }
    if same_str(name, "KeyS") {
        return Some(KeyCode::KeyS);
    }
    if same_str(name, "KeyT") {
        return Some(KeyCode::KeyT);
    }
    if same_str(name, "KeyU") {
        return Some(KeyCode::KeyU);
    }
    if same_str(name, "KeyV") {
        return Some(KeyCode::KeyV);
    }
    if same_str(name, "KeyW") {
        return Some(KeyCode::KeyW);
    }
    if same_str(name, "KeyX") {
        return Some(KeyCode::KeyX);
    }
    if same_str(name, "KeyY") {
        return Some(KeyCode::KeyY);
    }
    if same_str(name, "KeyZ") {
        return Some(KeyCode::KeyZ);
    }
    if same_str(name, "Digit0") {
        return Some(KeyCode::Digit0);
    }
    if same_str(name, "Digit1") {
        return Some(KeyCode::Digit1);
    }
    if same_str(name, "Digit2") {
        return Some(KeyCode::Digit2);
    }
    if same_str(name, "Digit3") {
        return Some(KeyCode::Digit3);
    }
    if same_str(name, "Digit4") {
        return Some(KeyCode::Digit4);
    }
    if same_str(name, "Digit5") {
        return Some(KeyCode::Digit5);
    }
    if same_str(name, "Digit6") {
        return Some(KeyCode::Digit6);
    }
    if same_str(name, "Digit7") {
        return Some(KeyCode::Digit7);
    }
    if same_str(name, "Digit8") {
        return Some(KeyCode::Digit8);
    }
    if same_str(name, "Digit9") {
        return Some(KeyCode::Digit9);
    }
    if same_str(name, "Space") {
        return Some(KeyCode::Space);
    }
    if same_str(name, "Tab") {
        return Some(KeyCode::Tab);
    }
    if same_str(name, "ShiftLeft") {
        return Some(KeyCode::ShiftLeft);
    }
    if same_str(name, "ShiftRight") {
        return Some(KeyCode::ShiftRight);
    }
    if same_str(name, "ControlLeft") {
        return Some(KeyCode::ControlLeft);
    }
    if same_str(name, "AltLeft") {
        return Some(KeyCode::AltLeft);
    }
    if same_str(name, "BracketLeft") {
        return Some(KeyCode::BracketLeft);
    }
    if same_str(name, "BracketRight") {
        return Some(KeyCode::BracketRight);
    }
    if same_str(name, "Comma") {
        return Some(KeyCode::Comma);
    }
    if same_str(name, "Period") {
        return Some(KeyCode::Period);
    }
    if same_str(name, "Slash") {
        return Some(KeyCode::Slash);
    }
    if same_str(name, "Semicolon") {
        return Some(KeyCode::Semicolon);
    }
    if same_str(name, "Quote") {
        return Some(KeyCode::Quote);
    }
    if same_str(name, "Backquote") {
        return Some(KeyCode::Backquote);
    }
    if same_str(name, "Minus") {
        return Some(KeyCode::Minus);
    }
    if same_str(name, "Equal") {
        return Some(KeyCode::Equal);
    }
    if same_str(name, "ArrowLeft") {
        return Some(KeyCode::ArrowLeft);
    }
    if same_str(name, "ArrowRight") {
        return Some(KeyCode::ArrowRight);
    }
    if same_str(name, "ArrowUp") {
        return Some(KeyCode::ArrowUp);
    }
    if same_str(name, "ArrowDown") {
        return Some(KeyCode::ArrowDown);
    }
    if same_str(name, "F1") {
        return Some(KeyCode::F1);
    }
    if same_str(name, "F2") {
        return Some(KeyCode::F2);
    }
    if same_str(name, "F3") {
        return Some(KeyCode::F3);
    }
    if same_str(name, "F4") {
        return Some(KeyCode::F4);
    }
    if same_str(name, "Enter") {
        return Some(KeyCode::Enter);
    }
    if same_str(name, "Backspace") {
        return Some(KeyCode::Backspace);
    }
    None
}

pub open spec fn spec_keycode_token(code: KeyCode) -> &'static str {
    match code {
        KeyCode::KeyA => "KeyA",
        KeyCode::KeyB => "KeyB",
        KeyCode::KeyC => "KeyC",
        KeyCode::KeyD => "KeyD",
        KeyCode::KeyE => "KeyE",
        KeyCode::KeyF => "KeyF",
        KeyCode::KeyG => "KeyG",
        KeyCode::KeyH => "KeyH",
        KeyCode::KeyI => "KeyI",
        KeyCode::KeyJ => "KeyJ",
        KeyCode::KeyK => "KeyK",
        KeyCode::KeyL => "KeyL",
        KeyCode::KeyM => "KeyM",
        KeyCode::KeyN => "KeyN",
        KeyCode::KeyO => "KeyO",
        KeyCode::KeyP => "KeyP",
        KeyCode::KeyQ => "KeyQ",
        KeyCode::KeyR => "KeyR",
        KeyCode::KeyS => "KeyS",
        KeyCode::KeyT => "KeyT",
        KeyCode::KeyU => "KeyU",
        KeyCode::KeyV => "KeyV",
        KeyCode::KeyW => "KeyW",
        KeyCode::KeyX => "KeyX",
        KeyCode::KeyY => "KeyY",
        KeyCode::KeyZ => "KeyZ",
        KeyCode::Digit0 => "Digit0",
        KeyCode::Digit1 => "Digit1",
        KeyCode::Digit2 => "Digit2",
        KeyCode::Digit3 => "Digit3",
        KeyCode::Digit4 => "Digit4",
        KeyCode::Digit5 => "Digit5",
        KeyCode::Digit6 => "Digit6",
        KeyCode::Digit7 => "Digit7",
        KeyCode::Digit8 => "Digit8",
        KeyCode::Digit9 => "Digit9",
        KeyCode::Space => "Space",
        KeyCode::Tab => "Tab",
        KeyCode::ShiftLeft => "ShiftLeft",
        KeyCode::ShiftRight => "ShiftRight",
        KeyCode::ControlLeft => "ControlLeft",
        KeyCode::AltLeft => "AltLeft",
        KeyCode::BracketLeft => "BracketLeft",
        KeyCode::BracketRight => "BracketRight",
        KeyCode::Comma => "Comma",
        KeyCode::Period => "Period",
        KeyCode::Slash => "Slash",
        KeyCode::Semicolon => "Semicolon",
        KeyCode::Quote => "Quote",
        KeyCode::Backquote => "Backquote",
        KeyCode::Minus => "Minus",
        KeyCode::Equal => "Equal",
        KeyCode::ArrowLeft => "ArrowLeft",
        KeyCode::ArrowRight => "ArrowRight",
        KeyCode::ArrowUp => "ArrowUp",
        KeyCode::ArrowDown => "ArrowDown",
        KeyCode::F1 => "Key",
        KeyCode::F2 => "Key",
        KeyCode::F3 => "Key",
        KeyCode::F4 => "Key",
        KeyCode::Enter => "Enter",
        KeyCode::Backspace => "Backspace",
        KeyCode::ControlRight => "Key",
        KeyCode::AltRight => "Key",
        KeyCode::F24 => "UNSET",
        KeyCode::Escape => "Key",
        KeyCode::Other => "Key",
    }
}

/// The token a key is saved as (`UNSET` for the unbound key, `Key` for others).
pub fn keycode_token(code: KeyCode) -> (s: &'static str)
    ensures
        s == spec_keycode_token(code),
{
    match code {
        KeyCode::KeyA => "KeyA",
        KeyCode::KeyB => "KeyB",
        KeyCode::KeyC => "KeyC",
        KeyCode::KeyD => "KeyD",
        KeyCode::KeyE => "KeyE",
        KeyCode::KeyF => "KeyF",
        KeyCode::KeyG => "KeyG",
        KeyCode::KeyH => "KeyH",
        KeyCode::KeyI => "KeyI",
        KeyCode::KeyJ => "KeyJ",
        KeyCode::KeyK => "KeyK",
        KeyCode::KeyL => "KeyL",
        KeyCode::KeyM => "KeyM",
        KeyCode::KeyN => "KeyN",
        KeyCode::KeyO => "KeyO",
        KeyCode::KeyP => "KeyP",
        KeyCode::KeyQ => "KeyQ",
        KeyCode::KeyR => "KeyR",
        KeyCode::KeyS => "KeyS",
        KeyCode::KeyT => "KeyT",
        KeyCode::KeyU => "KeyU",
        KeyCode::KeyV => "KeyV",
        KeyCode::KeyW => "KeyW",
        KeyCode::KeyX => "KeyX",
        KeyCode::KeyY => "KeyY",
        KeyCode::KeyZ => "KeyZ",
        KeyCode::Digit0 => "Digit0",
        KeyCode::Digit1 => "Digit1",
        KeyCode::Digit2 => "Digit2",
        KeyCode::Digit3 => "Digit3",
        KeyCode::Digit4 => "Digit4",
        KeyCode::Digit5 => "Digit5",
        KeyCode::Digit6 => "Digit6",
        KeyCode::Digit7 => "Digit7",
        KeyCode::Digit8 => "Digit8",
        KeyCode::Digit9 => "Digit9",
        KeyCode::Space => "Space",
        KeyCode::Tab => "Tab",
        KeyCode::ShiftLeft => "ShiftLeft",
        KeyCode::ShiftRight => "ShiftRight",
        KeyCode::ControlLeft => "ControlLeft",
        KeyCode::AltLeft => "AltLeft",
        KeyCode::BracketLeft => "BracketLeft",
        KeyCode::BracketRight => "BracketRight",
        KeyCode::Comma => "Comma",
        KeyCode::Period => "Period",
        KeyCode::Slash => "Slash",
        KeyCode::Semicolon => "Semicolon",
        KeyCode::Quote => "Quote",
        KeyCode::Backquote => "Backquote",
        KeyCode::Minus => "Minus",
        KeyCode::Equal => "Equal",
        KeyCode::ArrowLeft => "ArrowLeft",
        KeyCode::ArrowRight => "ArrowRight",
        KeyCode::ArrowUp => "ArrowUp",
        KeyCode::ArrowDown => "ArrowDown",
        KeyCode::F1 => "Key",
        KeyCode::F2 => "Key",
        KeyCode::F3 => "Key",
        KeyCode::F4 => "Key",
        KeyCode::Enter => "Enter",
        KeyCode::Backspace => "Backspace",
        KeyCode::ControlRight => "Key",
        KeyCode::AltRight => "Key",
        KeyCode::F24 => "UNSET",
        KeyCode::Escape => "Key",
        KeyCode::Other => "Key",
    }
}

pub open spec fn spec_keycode_label(code: KeyCode) -> &'static str {
    match code {
        KeyCode::KeyA => "A",
        KeyCode::KeyB => "B",
        KeyCode::KeyC => "C",
        KeyCode::KeyD => "D",
        KeyCode::KeyE => "E",
        KeyCode::KeyF => "F",
        KeyCode::KeyG => "G",
        KeyCode::KeyH => "H",
        KeyCode::KeyI => "I",
        KeyCode::KeyJ => "J",
        KeyCode::KeyK => "K",
        KeyCode::KeyL => "L",
        KeyCode::KeyM => "M",
        KeyCode::KeyN => "N",
        KeyCode::KeyO => "O",
        KeyCode::KeyP => "P",
        KeyCode::KeyQ => "Q",
        KeyCode::KeyR => "R",
        KeyCode::KeyS => "S",
        KeyCode::KeyT => "T",
        KeyCode::KeyU => "U",
        KeyCode::KeyV => "V",
        KeyCode::KeyW => "W",
        KeyCode::KeyX => "X",
        KeyCode::KeyY => "Y",
        KeyCode::KeyZ => "Z",
        KeyCode::Digit0 => "0",
        KeyCode::Digit1 => "1",
        KeyCode::Digit2 => "2",
        KeyCode::Digit3 => "3",
        KeyCode::Digit4 => "4",
        KeyCode::Digit5 => "5",
        KeyCode::Digit6 => "6",
        KeyCode::Digit7 => "7",
        KeyCode::Digit8 => "8",
        KeyCode::Digit9 => "9",
        KeyCode::Space => "SPACE",
        KeyCode::Tab => "TAB",
        KeyCode::ShiftLeft => "SHIFT",
        KeyCode::ShiftRight => "SHIFT",
        KeyCode::ControlLeft => "CTRL",
        KeyCode::AltLeft => "ALT",
        KeyCode::BracketLeft => "[",
        KeyCode::BracketRight => "]",
        KeyCode::Comma => ",",
        KeyCode::Period => ".",
        KeyCode::Slash => "/",
        KeyCode::Semicolon => "KEY",
        KeyCode::Quote => "KEY",
        KeyCode::Backquote => "KEY",
        KeyCode::Minus => "-",
        KeyCode::Equal => "=",
        KeyCode::ArrowLeft => "LEFT",
        KeyCode::ArrowRight => "RIGHT",
        KeyCode::ArrowUp => "UP",
        KeyCode::ArrowDown => "DOWN",
        KeyCode::F1 => "KEY",
        KeyCode::F2 => "KEY",
        KeyCode::F3 => "KEY",
        KeyCode::F4 => "KEY",
        KeyCode::Enter => "ENTER",
        KeyCode::Backspace => "BKSP",
        KeyCode::ControlRight => "CTRL",
        KeyCode::AltRight => "ALT",
        KeyCode::F24 => "-",
        KeyCode::Escape => "KEY",
        KeyCode::Other => "KEY",
    }
}

/// Short label for the pause menu.
pub fn keycode_label(code: KeyCode) -> (s: &'static str)
    ensures
        s == spec_keycode_label(code),
{
    match code {
        KeyCode::KeyA => "A",
        KeyCode::KeyB => "B",
        KeyCode::KeyC => "C",
        KeyCode::KeyD => "D",
        KeyCode::KeyE => "E",
        KeyCode::KeyF => "F",
        KeyCode::KeyG => "G",
        KeyCode::KeyH => "H",
        KeyCode::KeyI => "I",
        KeyCode::KeyJ => "J",
        KeyCode::KeyK => "K",
        KeyCode::KeyL => "L",
        KeyCode::KeyM => "M",
        KeyCode::KeyN => "N",
        KeyCode::KeyO => "O",
        KeyCode::KeyP => "P",
        KeyCode::KeyQ => "Q",
        KeyCode::KeyR => "R",
        KeyCode::KeyS => "S",
        KeyCode::KeyT => "T",
        KeyCode::KeyU => "U",
        KeyCode::KeyV => "V",
        KeyCode::KeyW => "W",
        KeyCode::KeyX => "X",
        KeyCode::KeyY => "Y",
        KeyCode::KeyZ => "Z",
        KeyCode::Digit0 => "0",
        KeyCode::Digit1 => "1",
        KeyCode::Digit2 => "2",
        KeyCode::Digit3 => "3",
        KeyCode::Digit4 => "4",
        KeyCode::Digit5 => "5",
        KeyCode::Digit6 => "6",
        KeyCode::Digit7 => "7",
        KeyCode::Digit8 => "8",
        KeyCode::Digit9 => "9",
        KeyCode::Space => "SPACE",
        KeyCode::Tab => "TAB",
        KeyCode::ShiftLeft => "SHIFT",
        KeyCode::ShiftRight => "SHIFT",
        KeyCode::ControlLeft => "CTRL",
        KeyCode::AltLeft => "ALT",
        KeyCode::BracketLeft => "[",
        KeyCode::BracketRight => "]",
        KeyCode::Comma => ",",
        KeyCode::Period => ".",
        KeyCode::Slash => "/",
        KeyCode::Semicolon => "KEY",
        KeyCode::Quote => "KEY",
        KeyCode::Backquote => "KEY",
        KeyCode::Minus => "-",
        KeyCode::Equal => "=",
        KeyCode::ArrowLeft => "LEFT",
        KeyCode::ArrowRight => "RIGHT",
        KeyCode::ArrowUp => "UP",
        KeyCode::ArrowDown => "DOWN",
        KeyCode::F1 => "KEY",
        KeyCode::F2 => "KEY",
        KeyCode::F3 => "KEY",
        KeyCode::F4 => "KEY",
        KeyCode::Enter => "ENTER",
        KeyCode::Backspace => "BKSP",
        KeyCode::ControlRight => "CTRL",
        KeyCode::AltRight => "ALT",
        KeyCode::F24 => "-",
        KeyCode::Escape => "KEY",
        KeyCode::Other => "KEY",
    }
}


pub const ACTION_COUNT: usize = 16;

/// A rebindable game action.
#[derive(Clone, Copy, Debug, PartialEq, Eq, Structural)]
pub enum Action {
    Forward,
    Back,
    Left,
    Right,
    Jump,
    Sprint,
    Sit,
    Interact,
    Attack,
    Inventory,
    Drop,
    Craft,
    Transfer,
    Take,
    RecipePrev,
    RecipeNext,
}

pub open spec fn spec_action_id(a: Action) -> &'static str {
    match a {
        Action::Forward => "forward",
        Action::Back => "back",
        Action::Left => "left",
        Action::Right => "right",
        Action::Jump => "jump",
        Action::Sprint => "sprint",
        Action::Sit => "sit",
        Action::Interact => "interact",
        Action::Attack => "attack",
        Action::Inventory => "inventory",
        Action::Drop => "drop",
        Action::Craft => "craft",
        Action::Transfer => "transfer",
        Action::Take => "take",
        Action::RecipePrev => "recipe_prev",
        Action::RecipeNext => "recipe_next",
    }
}

pub open spec fn spec_action_label(a: Action) -> &'static str {
    match a {
        Action::Forward => "FORWARD",
        Action::Back => "BACK",
        Action::Left => "STRAFE LEFT",
        Action::Right => "STRAFE RIGHT",
        Action::Jump => "JUMP",
        Action::Sprint => "SPRINT",
        Action::Sit => "SIT",
        Action::Interact => "INTERACT",
        Action::Attack => "ATTACK",
        Action::Inventory => "INVENTORY",
        Action::Drop => "DROP",
        Action::Craft => "CRAFT",
        Action::Transfer => "DEPOSIT",
        Action::Take => "TAKE",
        Action::RecipePrev => "PREV RECIPE",
        Action::RecipeNext => "NEXT RECIPE",
    }
}

pub open spec fn spec_default_key(a: Action) -> KeyCode {
    match a {
        Action::Forward => KeyCode::KeyW,
        Action::Back => KeyCode::KeyS,
        Action::Left => KeyCode::KeyA,
        Action::Right => KeyCode::KeyD,
        Action::Jump => KeyCode::Space,
        Action::Sprint => KeyCode::ShiftLeft,
        Action::Sit => KeyCode::KeyC,
        Action::Interact => KeyCode::KeyE,
        Action::Attack => KeyCode::KeyQ,
        Action::Inventory => KeyCode::Tab,
        Action::Drop => KeyCode::KeyG,
        Action::Craft => KeyCode::KeyR,
        Action::Transfer => KeyCode::KeyT,
        Action::Take => KeyCode::KeyY,
        Action::RecipePrev => KeyCode::BracketLeft,
        Action::RecipeNext => KeyCode::BracketRight,
    }
}

pub open spec fn spec_action_index(a: Action) -> int {
    match a {
        Action::Forward => 0,
        Action::Back => 1,
        Action::Left => 2,
        Action::Right => 3,
        Action::Jump => 4,
        Action::Sprint => 5,
        Action::Sit => 6,
        Action::Interact => 7,
        Action::Attack => 8,
        Action::Inventory => 9,
        Action::Drop => 10,
        Action::Craft => 11,
        Action::Transfer => 12,
        Action::Take => 13,
        Action::RecipePrev => 14,
        Action::RecipeNext => 15,
    }
}

pub open spec fn spec_action_at(i: int) -> Action {
    if i == 0 {
        Action::Forward
    } else if i == 1 {
        Action::Back
    } else if i == 2 {
        Action::Left
    } else if i == 3 {
        Action::Right
    } else if i == 4 {
        Action::Jump
    } else if i == 5 {
        Action::Sprint
    } else if i == 6 {
        Action::Sit
    } else if i == 7 {
        Action::Interact
    } else if i == 8 {
        Action::Attack
    } else if i == 9 {
        Action::Inventory
    } else if i == 10 {
        Action::Drop
    } else if i == 11 {
        Action::Craft
    } else if i == 12 {
        Action::Transfer
    } else if i == 13 {
        Action::Take
    } else if i == 14 {
        Action::RecipePrev
    } else {
        Action::RecipeNext
    }
}

impl Action {
    /// Key of the action in the settings file (`bind.<id>`).
    pub fn id(self) -> (r: &'static str)
        ensures
            r == spec_action_id(self),
    {
        match self {
            Action::Forward => "forward",
            Action::Back => "back",
            Action::Left => "left",
            Action::Right => "right",
            Action::Jump => "jump",
            Action::Sprint => "sprint",
            Action::Sit => "sit",
            Action::Interact => "interact",
            Action::Attack => "attack",
            Action::Inventory => "inventory",
            Action::Drop => "drop",
            Action::Craft => "craft",
            Action::Transfer => "transfer",
            Action::Take => "take",
            Action::RecipePrev => "recipe_prev",
            Action::RecipeNext => "recipe_next",
        }
    }

    /// Menu label.
    pub fn label(self) -> (r: &'static str)
        ensures
            r == spec_action_label(self),
    {
        match self {
            Action::Forward => "FORWARD",
            Action::Back => "BACK",
            Action::Left => "STRAFE LEFT",
            Action::Right => "STRAFE RIGHT",
            Action::Jump => "JUMP",
            Action::Sprint => "SPRINT",
            Action::Sit => "SIT",
            Action::Interact => "INTERACT",
            Action::Attack => "ATTACK",
            Action::Inventory => "INVENTORY",
            Action::Drop => "DROP",
            Action::Craft => "CRAFT",
            Action::Transfer => "DEPOSIT",
            Action::Take => "TAKE",
            Action::RecipePrev => "PREV RECIPE",
            Action::RecipeNext => "NEXT RECIPE",
        }
    }

    /// The key bound by default.
    pub fn default_key(self) -> (r: KeyCode)
        ensures
            r == spec_default_key(self),
    {
        match self {
            Action::Forward => KeyCode::KeyW,
            Action::Back => KeyCode::KeyS,
            Action::Left => KeyCode::KeyA,
            Action::Right => KeyCode::KeyD,
            Action::Jump => KeyCode::Space,
            Action::Sprint => KeyCode::ShiftLeft,
            Action::Sit => KeyCode::KeyC,
            Action::Interact => KeyCode::KeyE,
            Action::Attack => KeyCode::KeyQ,
            Action::Inventory => KeyCode::Tab,
            Action::Drop => KeyCode::KeyG,
            Action::Craft => KeyCode::KeyR,
            Action::Transfer => KeyCode::KeyT,
            Action::Take => KeyCode::KeyY,
            Action::RecipePrev => KeyCode::BracketLeft,
            Action::RecipeNext => KeyCode::BracketRight,
        }
    }

    /// Position of the action in the binding table.
    pub fn index(self) -> (i: usize)
        ensures
            i == spec_action_index(self),
            i < ACTION_COUNT,
    {
        match self {
            Action::Forward => 0,
            Action::Back => 1,
            Action::Left => 2,
            Action::Right => 3,
            Action::Jump => 4,
            Action::Sprint => 5,
            Action::Sit => 6,
            Action::Interact => 7,
            Action::Attack => 8,
            Action::Inventory => 9,
            Action::Drop => 10,
            Action::Craft => 11,
            Action::Transfer => 12,
            Action::Take => 13,
            Action::RecipePrev => 14,
            Action::RecipeNext => 15,
        }
    }

    /// The action at position `i` of the binding table (the last one past the end).
    pub fn at(i: usize) -> (a: Action)
        ensures
            a == spec_action_at(i as int),
    {
        if i == 0 {
            Action::Forward
        } else if i == 1 {
            Action::Back
        } else if i == 2 {
            Action::Left
        } else if i == 3 {
            Action::Right
        } else if i == 4 {
            Action::Jump
        } else if i == 5 {
            Action::Sprint
        } else if i == 6 {
            Action::Sit
        } else if i == 7 {
            Action::Interact
        } else if i == 8 {
            Action::Attack
        } else if i == 9 {
            Action::Inventory
        } else if i == 10 {
            Action::Drop
        } else if i == 11 {
            Action::Craft
        } else if i == 12 {
            Action::Transfer
        } else if i == 13 {
            Action::Take
        } else if i == 14 {
            Action::RecipePrev
        } else {
            Action::RecipeNext
        }
    }

    /// All actions in binding-table order.
    pub fn all() -> (r: Vec<Action>)
        ensures
            r@.len() == ACTION_COUNT,
            forall|i: int| 0 <= i < ACTION_COUNT ==> #[trigger] r@[i] == spec_action_at(i),
    {
        let mut r: Vec<Action> = Vec::new();
        let mut i: usize = 0;
        while i < ACTION_COUNT
            invariant
                i <= ACTION_COUNT,
                r@.len() == i,
                forall|k: int| 0 <= k < i ==> #[trigger] r@[k] == spec_action_at(k),
            decreases ACTION_COUNT - i,
        {
            r.push(Action::at(i));
            i += 1;
        }
        r
    }
}

/// The position and the action agree both ways.
pub proof fn law_action_index_roundtrip(a: Action)
    ensures
        spec_action_at(spec_action_index(a)) == a,
        0 <= spec_action_index(a) < ACTION_COUNT,
{
}

/// Graphics quality preset.
#[derive(Clone, Copy, Debug, PartialEq, Eq, Structural)]
pub enum Quality {
    Low,
    Medium,
    High,
    Ultra,
}

pub open spec fn spec_quality_from_u8(v: u8) -> Quality {
    if v == 0 {
        Quality::Low
    } else if v == 1 {
        Quality::Medium
    } else if v == 3 {
        Quality::Ultra
    } else {
        Quality::High
    }
}

pub open spec fn spec_quality_as_u8(q: Quality) -> u8 {
    match q {
        Quality::Low => 0,
        Quality::Medium => 1,
        Quality::High => 2,
        Quality::Ultra => 3,
    }
}

impl Quality {
    /// Decode a saved preset; unknown values read as `High`.
    pub fn from_u8(v: u8) -> (q: Quality)
        ensures
            q == spec_quality_from_u8(v),
    {
        match v {
            0 => Quality::Low,
            1 => Quality::Medium,
            3 => Quality::Ultra,
            _ => Quality::High,
        }
    }

    pub fn as_u8(self) -> (v: u8)
        ensures
            v == spec_quality_as_u8(self),
    {
        match self {
            Quality::Low => 0,
            Quality::Medium => 1,
            Quality::High => 2,
            Quality::Ultra => 3,
        }
    }

    pub fn name(self) -> (s: &'static str)
        ensures
            s == (match self {
                Quality::Low => "LOW",
                Quality::Medium => "MEDIUM",
                Quality::High => "HIGH",
                Quality::Ultra => "ULTRA",
            }),
    {
        match self {
            Quality::Low => "LOW",
            Quality::Medium => "MEDIUM",
            Quality::High => "HIGH",
            Quality::Ultra => "ULTRA",
        }
    }
}

/// A saved preset reads back as itself.
pub proof fn law_quality_roundtrip(q: Quality)
    ensures
        spec_quality_from_u8(spec_quality_as_u8(q)) == q,
{
}

pub const RESOLUTION_COUNT: usize = 5;

pub open spec fn spec_resolution(i: int) -> Option<(u32, u32, &'static str)> {
    if i == 0 {
        Some((1280u32, 720u32, "1280 X 720"))
    } else if i == 1 {
        Some((1600u32, 900u32, "1600 X 900"))
    } else if i == 2 {
        Some((1920u32, 1080u32, "1920 X 1080"))
    } else if i == 3 {
        Some((2560u32, 1440u32, "2560 X 1440"))
    } else if i == 4 {
        Some((3840u32, 2160u32, "3840 X 2160"))
    } else {
        None
    }
}

/// Resolution preset `i`: width, height and menu label.
pub fn resolution(i: usize) -> (r: Option<(u32, u32, &'static str)>)
    ensures
        r == spec_resolution(i as int),
{
    match i {
        0 => Some((1280, 720, "1280 X 720")),
        1 => Some((1600, 900, "1600 X 900")),
        2 => Some((1920, 1080, "1920 X 1080")),
        3 => Some((2560, 1440, "2560 X 1440")),
        4 => Some((3840, 2160, "3840 X 2160")),
        _ => None,
    }
}

pub const WINDOW_WIDTH: u32 = 1280;
pub const WINDOW_HEIGHT: u32 = 720;

/// Persistent settings.
#[derive(Clone, Copy, Debug)]
pub struct Settings {
    pub vsync: bool,
    pub fullscreen: bool,
    pub width: u32,
    pub height: u32,
    pub quality: Quality,
    /// 50..=150, 100 = default.
    pub brightness: u8,
    /// 50..=200, 100 = default mouse sensitivity.
    pub mouse_sens: u8,
    /// The key of each action, in binding-table order.
    pub binds: [KeyCode; 16],
}

/// The default settings.
pub open spec fn is_default_settings(s: Settings) -> bool {
    &&& s.vsync
    &&& !s.fullscreen
    &&& s.width == WINDOW_WIDTH
    &&& s.height == WINDOW_HEIGHT
    &&& s.quality == Quality::High
    &&& s.brightness == 100
    &&& s.mouse_sens == 100
    &&& forall|i: int| 0 <= i < ACTION_COUNT ==> #[trigger] s.binds@[i] == spec_default_key(spec_action_at(i))
}

/// Whether `code` triggers `action` under bindings `binds`: its own key, and
/// a few fixed aliases (either shift sprints; `I` opens the inventory while
/// it is on Tab; `F` sits while sit is on C).
pub open spec fn spec_matches(binds: Seq<KeyCode>, action: Action, code: KeyCode) -> bool {
    let bound = binds[spec_action_index(action)];
    ||| bound == code
    ||| (action == Action::Sprint && (code == KeyCode::ShiftLeft || code == KeyCode::ShiftRight))
    ||| (action == Action::Inventory && (code == KeyCode::Tab || code == KeyCode::KeyI) && bound == KeyCode::Tab)
    ||| (action == Action::Sit && code == KeyCode::KeyF && bound == KeyCode::KeyC)
}

/// The bindings after binding `code` to `action`: any other action bound
/// to `code` becomes unbound (`F24`).
pub open spec fn rebind(binds: Seq<KeyCode>, action: Action, code: KeyCode) -> Seq<KeyCode> {
    Seq::new(
        ACTION_COUNT as nat,
        |i: int|
            if i == spec_action_index(action) {
                code
            } else if binds[i] == code {
                KeyCode::F24
            } else {
                binds[i]
            },
    )
}

impl Settings {

    /// The key bound to `action`.
    pub fn key(&self, action: Action) -> (k: KeyCode)
        ensures
            k == self.binds@[spec_action_index(action)],
    {
        self.binds[action.index()]
    }

    /// Bind `code` to `action`; any other action that had `code` becomes unbound (`F24`).
    pub fn set_key(&mut self, action: Action, code: KeyCode)
        ensures
            final(self).binds@ == rebind(old(self).binds@, action, code),
            final(self).vsync == old(self).vsync && final(self).fullscreen == old(self).fullscreen,
            final(self).width == old(self).width && final(self).height == old(self).height,
            final(self).quality == old(self).quality && final(self).brightness == old(self).brightness,
            final(self).mouse_sens == old(self).mouse_sens,
    {
        let mut i: usize = 0;
        while i < ACTION_COUNT
            invariant
                i <= ACTION_COUNT,
                forall|k: int| 0 <= k < i ==> #[trigger] self.binds@[k] == (if old(self).binds@[k] == code {
                    KeyCode::F24
                } else {
                    old(self).binds@[k]
                }),
                forall|k: int| i <= k < ACTION_COUNT ==> #[trigger] self.binds@[k] == old(self).binds@[k],
                self.vsync == old(self).vsync && self.fullscreen == old(self).fullscreen,
                self.width == old(self).width && self.height == old(self).height,
                self.quality == old(self).quality && self.brightness == old(self).brightness,
                self.mouse_sens == old(self).mouse_sens,
            decreases ACTION_COUNT - i,
        {
            if self.binds[i] == code {
                self.binds[i] = KeyCode::F24;
            }
            i += 1;
        }
        self.binds[action.index()] = code;
        assert(self.binds@ =~= rebind(old(self).binds@, action, code));
    }

    /// Whether `code` triggers `action`.
    pub fn matches(&self, action: Action, code: KeyCode) -> (r: bool)
        ensures
            r == spec_matches(self.binds@, action, code),
    {
        let bound = self.key(action);
        bound == code || (action == Action::Sprint && (code == KeyCode::ShiftLeft || code == KeyCode::ShiftRight))
            || (action == Action::Inventory && (code == KeyCode::Tab || code == KeyCode::KeyI) && bound == KeyCode::Tab)
            || (action == Action::Sit && code == KeyCode::KeyF && bound == KeyCode::KeyC)
    }
}

/// After rebinding, no other action shares the new key (a key is never bound twice).
pub proof fn law_set_key_unique(binds: Seq<KeyCode>, action: Action, code: KeyCode)
    requires
        code != KeyCode::F24,
    ensures
        rebind(binds, action, code)[spec_action_index(action)] == code,
        forall|i: int|
            0 <= i < ACTION_COUNT && i != spec_action_index(action) ==> #[trigger] rebind(binds, action, code)[i]
                != code,
{
}

/// The keys whose saved token reads back: every named key except F1 to F4.
pub open spec fn has_token(k: KeyCode) -> bool {
    k == KeyCode::KeyA
        || k == KeyCode::KeyB
        || k == KeyCode::KeyC
        || k == KeyCode::KeyD
        || k == KeyCode::KeyE
        || k == KeyCode::KeyF
        || k == KeyCode::KeyG
        || k == KeyCode::KeyH
        || k == KeyCode::KeyI
        || k == KeyCode::KeyJ
        || k == KeyCode::KeyK
        || k == KeyCode::KeyL
        || k == KeyCode::KeyM
        || k == KeyCode::KeyN
        || k == KeyCode::KeyO
        || k == KeyCode::KeyP
        || k == KeyCode::KeyQ
        || k == KeyCode::KeyR
        || k == KeyCode::KeyS
        || k == KeyCode::KeyT
        || k == KeyCode::KeyU
        || k == KeyCode::KeyV
        || k == KeyCode::KeyW
        || k == KeyCode::KeyX
        || k == KeyCode::KeyY
        || k == KeyCode::KeyZ
        || k == KeyCode::Digit0
        || k == KeyCode::Digit1
        || k == KeyCode::Digit2
        || k == KeyCode::Digit3
        || k == KeyCode::Digit4
        || k == KeyCode::Digit5
        || k == KeyCode::Digit6
        || k == KeyCode::Digit7
        || k == KeyCode::Digit8
        || k == KeyCode::Digit9
        || k == KeyCode::Space
        || k == KeyCode::Tab
        || k == KeyCode::ShiftLeft
        || k == KeyCode::ShiftRight
        || k == KeyCode::ControlLeft
        || k == KeyCode::AltLeft
        || k == KeyCode::BracketLeft
        || k == KeyCode::BracketRight
        || k == KeyCode::Comma
        || k == KeyCode::Period
        || k == KeyCode::Slash
        || k == KeyCode::Semicolon
        || k == KeyCode::Quote
        || k == KeyCode::Backquote
        || k == KeyCode::Minus
        || k == KeyCode::Equal
        || k == KeyCode::ArrowLeft
        || k == KeyCode::ArrowRight
        || k == KeyCode::ArrowUp
        || k == KeyCode::ArrowDown
        || k == KeyCode::Enter
        || k == KeyCode::Backspace
}

proof fn lemma_name_key_a()
    ensures
        key_of_name("KeyA"@) == Some(KeyCode::KeyA),
{
    reveal_strlit("KeyA");
}

proof fn lemma_name_key_b()
    ensures
        key_of_name("KeyB"@) == Some(KeyCode::KeyB),
{
    reveal_strlit("KeyB");
    reveal_strlit("KeyA");
    assert("KeyB"@[3] != "KeyA"@[3]);
}

proof fn lemma_name_key_c()
    ensures
        key_of_name("KeyC"@) == Some(KeyCode::KeyC),
{
    reveal_strlit("KeyC");
    reveal_strlit("KeyA");
    assert("KeyC"@[3] != "KeyA"@[3]);
    reveal_strlit("KeyB");
    assert("KeyC"@[3] != "KeyB"@[3]);
}

proof fn lemma_name_key_d()
    ensures
        key_of_name("KeyD"@) == Some(KeyCode::KeyD),
{
    reveal_strlit("KeyD");
    reveal_strlit("KeyA");
    assert("KeyD"@[3] != "KeyA"@[3]);
    reveal_strlit("KeyB");
    assert("KeyD"@[3] != "KeyB"@[3]);
    reveal_strlit("KeyC");
    assert("KeyD"@[3] != "KeyC"@[3]);
}

proof fn lemma_name_key_e()
    ensures
        key_of_name("KeyE"@) == Some(KeyCode::KeyE),
{
    reveal_strlit("KeyE");
    reveal_strlit("KeyA");
    assert("KeyE"@[3] != "KeyA"@[3]);
    reveal_strlit("KeyB");
    assert("KeyE"@[3] != "KeyB"@[3]);
    reveal_strlit("KeyC");
    assert("KeyE"@[3] != "KeyC"@[3]);
    reveal_strlit("KeyD");
    assert("KeyE"@[3] != "KeyD"@[3]);
}

proof fn lemma_name_key_f()
    ensures
        key_of_name("KeyF"@) == Some(KeyCode::KeyF),
{
    reveal_strlit("KeyF");
    reveal_strlit("KeyA");
    assert("KeyF"@[3] != "KeyA"@[3]);
    reveal_strlit("KeyB");
    assert("KeyF"@[3] != "KeyB"@[3]);
    reveal_strlit("KeyC");
    assert("KeyF"@[3] != "KeyC"@[3]);
    reveal_strlit("KeyD");
    assert("KeyF"@[3] != "KeyD"@[3]);
    reveal_strlit("KeyE");
    assert("KeyF"@[3] != "KeyE"@[3]);
}

proof fn lemma_name_key_g()
    ensures
        key_of_name("KeyG"@) == Some(KeyCode::KeyG),
{
    reveal_strlit("KeyG");
    reveal_strlit("KeyA");
    assert("KeyG"@[3] != "KeyA"@[3]);
    reveal_strlit("KeyB");
    assert("KeyG"@[3] != "KeyB"@[3]);
    reveal_strlit("KeyC");
    assert("KeyG"@[3] != "KeyC"@[3]);
    reveal_strlit("KeyD");
    assert("KeyG"@[3] != "KeyD"@[3]);
    reveal_strlit("KeyE");
    assert("KeyG"@[3] != "KeyE"@[3]);
    reveal_strlit("KeyF");
    assert("KeyG"@[3] != "KeyF"@[3]);
}

proof fn lemma_name_key_h()
    ensures
        key_of_name("KeyH"@) == Some(KeyCode::KeyH),
{
    reveal_strlit("KeyH");
    reveal_strlit("KeyA");
    assert("KeyH"@[3] != "KeyA"@[3]);
    reveal_strlit("KeyB");
    assert("KeyH"@[3] != "KeyB"@[3]);
    reveal_strlit("KeyC");
    assert("KeyH"@[3] != "KeyC"@[3]);
    reveal_strlit("KeyD");
    assert("KeyH"@[3] != "KeyD"@[3]);
    reveal_strlit("KeyE");
    assert("KeyH"@[3] != "KeyE"@[3]);
    reveal_strlit("KeyF");
    assert("KeyH"@[3] != "KeyF"@[3]);
    reveal_strlit("KeyG");
    assert("KeyH"@[3] != "KeyG"@[3]);
}

proof fn lemma_name_key_i()
    ensures
        key_of_name("KeyI"@) == Some(KeyCode::KeyI),
{
    reveal_strlit("KeyI");
    reveal_strlit("KeyA");
    assert("KeyI"@[3] != "KeyA"@[3]);
    reveal_strlit("KeyB");
    assert("KeyI"@[3] != "KeyB"@[3]);
    reveal_strlit("KeyC");
    assert("KeyI"@[3] != "KeyC"@[3]);
    reveal_strlit("KeyD");
    assert("KeyI"@[3] != "KeyD"@[3]);
    reveal_strlit("KeyE");
    assert("KeyI"@[3] != "KeyE"@[3]);
    reveal_strlit("KeyF");
    assert("KeyI"@[3] != "KeyF"@[3]);
    reveal_strlit("KeyG");
    assert("KeyI"@[3] != "KeyG"@[3]);
    reveal_strlit("KeyH");
    assert("KeyI"@[3] != "KeyH"@[3]);
}

proof fn lemma_name_key_j()
    ensures
        key_of_name("KeyJ"@) == Some(KeyCode::KeyJ),
{
    reveal_strlit("KeyJ");
    reveal_strlit("KeyA");
    assert("KeyJ"@[3] != "KeyA"@[3]);
    reveal_strlit("KeyB");
    assert("KeyJ"@[3] != "KeyB"@[3]);
    reveal_strlit("KeyC");
    assert("KeyJ"@[3] != "KeyC"@[3]);
    reveal_strlit("KeyD");
    assert("KeyJ"@[3] != "KeyD"@[3]);
    reveal_strlit("KeyE");
    assert("KeyJ"@[3] != "KeyE"@[3]);
    reveal_strlit("KeyF");
    assert("KeyJ"@[3] != "KeyF"@[3]);
    reveal_strlit("KeyG");
    assert("KeyJ"@[3] != "KeyG"@[3]);
    reveal_strlit("KeyH");
    assert("KeyJ"@[3] != "KeyH"@[3]);
    reveal_strlit("KeyI");
    assert("KeyJ"@[3] != "KeyI"@[3]);
}

proof fn lemma_name_key_k()
    ensures
        key_of_name("KeyK"@) == Some(KeyCode::KeyK),
{
    reveal_strlit("KeyK");
    reveal_strlit("KeyA");
    assert("KeyK"@[3] != "KeyA"@[3]);
    reveal_strlit("KeyB");
    assert("KeyK"@[3] != "KeyB"@[3]);
    reveal_strlit("KeyC");
    assert("KeyK"@[3] != "KeyC"@[3]);
    reveal_strlit("KeyD");
    assert("KeyK"@[3] != "KeyD"@[3]);
    reveal_strlit("KeyE");
    assert("KeyK"@[3] != "KeyE"@[3]);
    reveal_strlit("KeyF");
    assert("KeyK"@[3] != "KeyF"@[3]);
    reveal_strlit("KeyG");
    assert("KeyK"@[3] != "KeyG"@[3]);
    reveal_strlit("KeyH");
    assert("KeyK"@[3] != "KeyH"@[3]);
    reveal_strlit("KeyI");
    assert("KeyK"@[3] != "KeyI"@[3]);
    reveal_strlit("KeyJ");
    assert("KeyK"@[3] != "KeyJ"@[3]);
}

proof fn lemma_name_key_l()
    ensures
        key_of_name("KeyL"@) == Some(KeyCode::KeyL),
{
    reveal_strlit("KeyL");
    reveal_strlit("KeyA");
    assert("KeyL"@[3] != "KeyA"@[3]);
    reveal_strlit("KeyB");
    assert("KeyL"@[3] != "KeyB"@[3]);
    reveal_strlit("KeyC");
    assert("KeyL"@[3] != "KeyC"@[3]);
    reveal_strlit("KeyD");
    assert("KeyL"@[3] != "KeyD"@[3]);
    reveal_strlit("KeyE");
    assert("KeyL"@[3] != "KeyE"@[3]);
    reveal_strlit("KeyF");
    assert("KeyL"@[3] != "KeyF"@[3]);
    reveal_strlit("KeyG");
    assert("KeyL"@[3] != "KeyG"@[3]);
    reveal_strlit("KeyH");
    assert("KeyL"@[3] != "KeyH"@[3]);
    reveal_strlit("KeyI");
    assert("KeyL"@[3] != "KeyI"@[3]);
    reveal_strlit("KeyJ");
    assert("KeyL"@[3] != "KeyJ"@[3]);
    reveal_strlit("KeyK");
    assert("KeyL"@[3] != "KeyK"@[3]);
}

proof fn lemma_name_key_m()
    ensures
        key_of_name("KeyM"@) == Some(KeyCode::KeyM),
{
    reveal_strlit("KeyM");
    reveal_strlit("KeyA");
    assert("KeyM"@[3] != "KeyA"@[3]);
    reveal_strlit("KeyB");
    assert("KeyM"@[3] != "KeyB"@[3]);
    reveal_strlit("KeyC");
    assert("KeyM"@[3] != "KeyC"@[3]);
    reveal_strlit("KeyD");
    assert("KeyM"@[3] != "KeyD"@[3]);
    reveal_strlit("KeyE");
    assert("KeyM"@[3] != "KeyE"@[3]);
    reveal_strlit("KeyF");
    assert("KeyM"@[3] != "KeyF"@[3]);
    reveal_strlit("KeyG");
    assert("KeyM"@[3] != "KeyG"@[3]);
    reveal_strlit("KeyH");
    assert("KeyM"@[3] != "KeyH"@[3]);
    reveal_strlit("KeyI");
    assert("KeyM"@[3] != "KeyI"@[3]);
    reveal_strlit("KeyJ");
    assert("KeyM"@[3] != "KeyJ"@[3]);
    reveal_strlit("KeyK");
    assert("KeyM"@[3] != "KeyK"@[3]);
    reveal_strlit("KeyL");
    assert("KeyM"@[3] != "KeyL"@[3]);
}

proof fn lemma_name_key_n()
    ensures
        key_of_name("KeyN"@) == Some(KeyCode::KeyN),
{
    reveal_strlit("KeyN");
    reveal_strlit("KeyA");
    assert("KeyN"@[3] != "KeyA"@[3]);
    reveal_strlit("KeyB");
    assert("KeyN"@[3] != "KeyB"@[3]);
    reveal_strlit("KeyC");
    assert("KeyN"@[3] != "KeyC"@[3]);
    reveal_strlit("KeyD");
    assert("KeyN"@[3] != "KeyD"@[3]);
    reveal_strlit("KeyE");
    assert("KeyN"@[3] != "KeyE"@[3]);
    reveal_strlit("KeyF");
    assert("KeyN"@[3] != "KeyF"@[3]);
    reveal_strlit("KeyG");
    assert("KeyN"@[3] != "KeyG"@[3]);
    reveal_strlit("KeyH");
    assert("KeyN"@[3] != "KeyH"@[3]);
    reveal_strlit("KeyI");
    assert("KeyN"@[3] != "KeyI"@[3]);
    reveal_strlit("KeyJ");
    assert("KeyN"@[3] != "KeyJ"@[3]);
    reveal_strlit("KeyK");
    assert("KeyN"@[3] != "KeyK"@[3]);
    reveal_strlit("KeyL");
    assert("KeyN"@[3] != "KeyL"@[3]);
    reveal_strlit("KeyM");
    assert("KeyN"@[3] != "KeyM"@[3]);
}

proof fn lemma_name_key_o()
    ensures
        key_of_name("KeyO"@) == Some(KeyCode::KeyO),
{
    reveal_strlit("KeyO");
    reveal_strlit("KeyA");
    assert("KeyO"@[3] != "KeyA"@[3]);
    reveal_strlit("KeyB");
    assert("KeyO"@[3] != "KeyB"@[3]);
    reveal_strlit("KeyC");
    assert("KeyO"@[3] != "KeyC"@[3]);
    reveal_strlit("KeyD");
    assert("KeyO"@[3] != "KeyD"@[3]);
    reveal_strlit("KeyE");
    assert("KeyO"@[3] != "KeyE"@[3]);
    reveal_strlit("KeyF");
    assert("KeyO"@[3] != "KeyF"@[3]);
    reveal_strlit("KeyG");
    assert("KeyO"@[3] != "KeyG"@[3]);
    reveal_strlit("KeyH");
    assert("KeyO"@[3] != "KeyH"@[3]);
    reveal_strlit("KeyI");
    assert("KeyO"@[3] != "KeyI"@[3]);
    reveal_strlit("KeyJ");
    assert("KeyO"@[3] != "KeyJ"@[3]);
    reveal_strlit("KeyK");
    assert("KeyO"@[3] != "KeyK"@[3]);
    reveal_strlit("KeyL");
    assert("KeyO"@[3] != "KeyL"@[3]);
    reveal_strlit("KeyM");
    assert("KeyO"@[3] != "KeyM"@[3]);
    reveal_strlit("KeyN");
    assert("KeyO"@[3] != "KeyN"@[3]);
}

proof fn lemma_name_key_p()
    ensures
        key_of_name("KeyP"@) == Some(KeyCode::KeyP),
{
    reveal_strlit("KeyP");
    reveal_strlit("KeyA");
    assert("KeyP"@[3] != "KeyA"@[3]);
    reveal_strlit("KeyB");
    assert("KeyP"@[3] != "KeyB"@[3]);
    reveal_strlit("KeyC");
    assert("KeyP"@[3] != "KeyC"@[3]);
    reveal_strlit("KeyD");
    assert("KeyP"@[3] != "KeyD"@[3]);
    reveal_strlit("KeyE");
    assert("KeyP"@[3] != "KeyE"@[3]);
    reveal_strlit("KeyF");
    assert("KeyP"@[3] != "KeyF"@[3]);
    reveal_strlit("KeyG");
    assert("KeyP"@[3] != "KeyG"@[3]);
    reveal_strlit("KeyH");
    assert("KeyP"@[3] != "KeyH"@[3]);
    reveal_strlit("KeyI");
    assert("KeyP"@[3] != "KeyI"@[3]);
    reveal_strlit("KeyJ");
    assert("KeyP"@[3] != "KeyJ"@[3]);
    reveal_strlit("KeyK");
    assert("KeyP"@[3] != "KeyK"@[3]);
    reveal_strlit("KeyL");
    assert("KeyP"@[3] != "KeyL"@[3]);
    reveal_strlit("KeyM");
    assert("KeyP"@[3] != "KeyM"@[3]);
    reveal_strlit("KeyN");
    assert("KeyP"@[3] != "KeyN"@[3]);
    reveal_strlit("KeyO");
    assert("KeyP"@[3] != "KeyO"@[3]);
}

proof fn lemma_name_key_q()
    ensures
        key_of_name("KeyQ"@) == Some(KeyCode::KeyQ),
{
    reveal_strlit("KeyQ");
    reveal_strlit("KeyA");
    assert("KeyQ"@[3] != "KeyA"@[3]);
    reveal_strlit("KeyB");
    assert("KeyQ"@[3] != "KeyB"@[3]);
    reveal_strlit("KeyC");
    assert("KeyQ"@[3] != "KeyC"@[3]);
    reveal_strlit("KeyD");
    assert("KeyQ"@[3] != "KeyD"@[3]);
    reveal_strlit("KeyE");
    assert("KeyQ"@[3] != "KeyE"@[3]);
    reveal_strlit("KeyF");
    assert("KeyQ"@[3] != "KeyF"@[3]);
    reveal_strlit("KeyG");
    assert("KeyQ"@[3] != "KeyG"@[3]);
    reveal_strlit("KeyH");
    assert("KeyQ"@[3] != "KeyH"@[3]);
    reveal_strlit("KeyI");
    assert("KeyQ"@[3] != "KeyI"@[3]);
    reveal_strlit("KeyJ");
    assert("KeyQ"@[3] != "KeyJ"@[3]);
    reveal_strlit("KeyK");
    assert("KeyQ"@[3] != "KeyK"@[3]);
    reveal_strlit("KeyL");
    assert("KeyQ"@[3] != "KeyL"@[3]);
    reveal_strlit("KeyM");
    assert("KeyQ"@[3] != "KeyM"@[3]);
    reveal_strlit("KeyN");
    assert("KeyQ"@[3] != "KeyN"@[3]);
    reveal_strlit("KeyO");
    assert("KeyQ"@[3] != "KeyO"@[3]);
    reveal_strlit("KeyP");
    assert("KeyQ"@[3] != "KeyP"@[3]);
}

proof fn lemma_name_key_r()
    ensures
        key_of_name("KeyR"@) == Some(KeyCode::KeyR),
{
    reveal_strlit("KeyR");
    reveal_strlit("KeyA");
    assert("KeyR"@[3] != "KeyA"@[3]);
    reveal_strlit("KeyB");
    assert("KeyR"@[3] != "KeyB"@[3]);
    reveal_strlit("KeyC");
    assert("KeyR"@[3] != "KeyC"@[3]);
    reveal_strlit("KeyD");
    assert("KeyR"@[3] != "KeyD"@[3]);
    reveal_strlit("KeyE");
    assert("KeyR"@[3] != "KeyE"@[3]);
    reveal_strlit("KeyF");
    assert("KeyR"@[3] != "KeyF"@[3]);
    reveal_strlit("KeyG");
    assert("KeyR"@[3] != "KeyG"@[3]);
    reveal_strlit("KeyH");
    assert("KeyR"@[3] != "KeyH"@[3]);
    reveal_strlit("KeyI");
    assert("KeyR"@[3] != "KeyI"@[3]);
    reveal_strlit("KeyJ");
    assert("KeyR"@[3] != "KeyJ"@[3]);
    reveal_strlit("KeyK");
    assert("KeyR"@[3] != "KeyK"@[3]);
    reveal_strlit("KeyL");
    assert("KeyR"@[3] != "KeyL"@[3]);
    reveal_strlit("KeyM");
    assert("KeyR"@[3] != "KeyM"@[3]);
    reveal_strlit("KeyN");
    assert("KeyR"@[3] != "KeyN"@[3]);
    reveal_strlit("KeyO");
    assert("KeyR"@[3] != "KeyO"@[3]);
    reveal_strlit("KeyP");
    assert("KeyR"@[3] != "KeyP"@[3]);
    reveal_strlit("KeyQ");
    assert("KeyR"@[3] != "KeyQ"@[3]);
}

proof fn lemma_name_key_s()
    ensures
        key_of_name("KeyS"@) == Some(KeyCode::KeyS),
{
    reveal_strlit("KeyS");
    reveal_strlit("KeyA");
    assert("KeyS"@[3] != "KeyA"@[3]);
    reveal_strlit("KeyB");
    assert("KeyS"@[3] != "KeyB"@[3]);
    reveal_strlit("KeyC");
    assert("KeyS"@[3] != "KeyC"@[3]);
    reveal_strlit("KeyD");
    assert("KeyS"@[3] != "KeyD"@[3]);
    reveal_strlit("KeyE");
    assert("KeyS"@[3] != "KeyE"@[3]);
    reveal_strlit("KeyF");
    assert("KeyS"@[3] != "KeyF"@[3]);
    reveal_strlit("KeyG");
    assert("KeyS"@[3] != "KeyG"@[3]);
    reveal_strlit("KeyH");
    assert("KeyS"@[3] != "KeyH"@[3]);
    reveal_strlit("KeyI");
    assert("KeyS"@[3] != "KeyI"@[3]);
    reveal_strlit("KeyJ");
    assert("KeyS"@[3] != "KeyJ"@[3]);
    reveal_strlit("KeyK");
    assert("KeyS"@[3] != "KeyK"@[3]);
    reveal_strlit("KeyL");
    assert("KeyS"@[3] != "KeyL"@[3]);
    reveal_strlit("KeyM");
    assert("KeyS"@[3] != "KeyM"@[3]);
    reveal_strlit("KeyN");
    assert("KeyS"@[3] != "KeyN"@[3]);
    reveal_strlit("KeyO");
    assert("KeyS"@[3] != "KeyO"@[3]);
    reveal_strlit("KeyP");
    assert("KeyS"@[3] != "KeyP"@[3]);
    reveal_strlit("KeyQ");
    assert("KeyS"@[3] != "KeyQ"@[3]);
    reveal_strlit("KeyR");
    assert("KeyS"@[3] != "KeyR"@[3]);
}

proof fn lemma_name_key_t()
    ensures
        key_of_name("KeyT"@) == Some(KeyCode::KeyT),
{
    reveal_strlit("KeyT");
    reveal_strlit("KeyA");
    assert("KeyT"@[3] != "KeyA"@[3]);
    reveal_strlit("KeyB");
    assert("KeyT"@[3] != "KeyB"@[3]);
    reveal_strlit("KeyC");
    assert("KeyT"@[3] != "KeyC"@[3]);
    reveal_strlit("KeyD");
    assert("KeyT"@[3] != "KeyD"@[3]);
    reveal_strlit("KeyE");
    assert("KeyT"@[3] != "KeyE"@[3]);
    reveal_strlit("KeyF");
    assert("KeyT"@[3] != "KeyF"@[3]);
    reveal_strlit("KeyG");
    assert("KeyT"@[3] != "KeyG"@[3]);
    reveal_strlit("KeyH");
    assert("KeyT"@[3] != "KeyH"@[3]);
    reveal_strlit("KeyI");
    assert("KeyT"@[3] != "KeyI"@[3]);
    reveal_strlit("KeyJ");
    assert("KeyT"@[3] != "KeyJ"@[3]);
    reveal_strlit("KeyK");
    assert("KeyT"@[3] != "KeyK"@[3]);
    reveal_strlit("KeyL");
    assert("KeyT"@[3] != "KeyL"@[3]);
    reveal_strlit("KeyM");
    assert("KeyT"@[3] != "KeyM"@[3]);
    reveal_strlit("KeyN");
    assert("KeyT"@[3] != "KeyN"@[3]);
    reveal_strlit("KeyO");
    assert("KeyT"@[3] != "KeyO"@[3]);
    reveal_strlit("KeyP");
    assert("KeyT"@[3] != "KeyP"@[3]);
    reveal_strlit("KeyQ");
    assert("KeyT"@[3] != "KeyQ"@[3]);
    reveal_strlit("KeyR");
    assert("KeyT"@[3] != "KeyR"@[3]);
    reveal_strlit("KeyS");
    assert("KeyT"@[3] != "KeyS"@[3]);
}

proof fn lemma_name_key_u()
    ensures
        key_of_name("KeyU"@) == Some(KeyCode::KeyU),
{
    reveal_strlit("KeyU");
    reveal_strlit("KeyA");
    assert("KeyU"@[3] != "KeyA"@[3]);
    reveal_strlit("KeyB");
    assert("KeyU"@[3] != "KeyB"@[3]);
    reveal_strlit("KeyC");
    assert("KeyU"@[3] != "KeyC"@[3]);
    reveal_strlit("KeyD");
    assert("KeyU"@[3] != "KeyD"@[3]);
    reveal_strlit("KeyE");
    assert("KeyU"@[3] != "KeyE"@[3]);
    reveal_strlit("KeyF");
    assert("KeyU"@[3] != "KeyF"@[3]);
    reveal_strlit("KeyG");
    assert("KeyU"@[3] != "KeyG"@[3]);
    reveal_strlit("KeyH");
    assert("KeyU"@[3] != "KeyH"@[3]);
    reveal_strlit("KeyI");
    assert("KeyU"@[3] != "KeyI"@[3]);
    reveal_strlit("KeyJ");
    assert("KeyU"@[3] != "KeyJ"@[3]);
    reveal_strlit("KeyK");
    assert("KeyU"@[3] != "KeyK"@[3]);
    reveal_strlit("KeyL");
    assert("KeyU"@[3] != "KeyL"@[3]);
    reveal_strlit("KeyM");
    assert("KeyU"@[3] != "KeyM"@[3]);
    reveal_strlit("KeyN");
    assert("KeyU"@[3] != "KeyN"@[3]);
    reveal_strlit("KeyO");
    assert("KeyU"@[3] != "KeyO"@[3]);
    reveal_strlit("KeyP");
    assert("KeyU"@[3] != "KeyP"@[3]);
    reveal_strlit("KeyQ");
    assert("KeyU"@[3] != "KeyQ"@[3]);
    reveal_strlit("KeyR");
    assert("KeyU"@[3] != "KeyR"@[3]);
    reveal_strlit("KeyS");
    assert("KeyU"@[3] != "KeyS"@[3]);
    reveal_strlit("KeyT");
    assert("KeyU"@[3] != "KeyT"@[3]);
}

proof fn lemma_name_key_v()
    ensures
        key_of_name("KeyV"@) == Some(KeyCode::KeyV),
{
    reveal_strlit("KeyV");
    reveal_strlit("KeyA");
    assert("KeyV"@[3] != "KeyA"@[3]);
    reveal_strlit("KeyB");
    assert("KeyV"@[3] != "KeyB"@[3]);
    reveal_strlit("KeyC");
    assert("KeyV"@[3] != "KeyC"@[3]);
    reveal_strlit("KeyD");
    assert("KeyV"@[3] != "KeyD"@[3]);
    reveal_strlit("KeyE");
    assert("KeyV"@[3] != "KeyE"@[3]);
    reveal_strlit("KeyF");
    assert("KeyV"@[3] != "KeyF"@[3]);
    reveal_strlit("KeyG");
    assert("KeyV"@[3] != "KeyG"@[3]);
    reveal_strlit("KeyH");
    assert("KeyV"@[3] != "KeyH"@[3]);
    reveal_strlit("KeyI");
    assert("KeyV"@[3] != "KeyI"@[3]);
    reveal_strlit("KeyJ");
    assert("KeyV"@[3] != "KeyJ"@[3]);
    reveal_strlit("KeyK");
    assert("KeyV"@[3] != "KeyK"@[3]);
    reveal_strlit("KeyL");
    assert("KeyV"@[3] != "KeyL"@[3]);
    reveal_strlit("KeyM");
    assert("KeyV"@[3] != "KeyM"@[3]);
    reveal_strlit("KeyN");
    assert("KeyV"@[3] != "KeyN"@[3]);
    reveal_strlit("KeyO");
    assert("KeyV"@[3] != "KeyO"@[3]);
    reveal_strlit("KeyP");
    assert("KeyV"@[3] != "KeyP"@[3]);
    reveal_strlit("KeyQ");
    assert("KeyV"@[3] != "KeyQ"@[3]);
    reveal_strlit("KeyR");
    assert("KeyV"@[3] != "KeyR"@[3]);
    reveal_strlit("KeyS");
    assert("KeyV"@[3] != "KeyS"@[3]);
    reveal_strlit("KeyT");
    assert("KeyV"@[3] != "KeyT"@[3]);
    reveal_strlit("KeyU");
    assert("KeyV"@[3] != "KeyU"@[3]);
}

proof fn lemma_name_key_w()
    ensures
        key_of_name("KeyW"@) == Some(KeyCode::KeyW),
{
    reveal_strlit("KeyW");
    reveal_strlit("KeyA");
    assert("KeyW"@[3] != "KeyA"@[3]);
    reveal_strlit("KeyB");
    assert("KeyW"@[3] != "KeyB"@[3]);
    reveal_strlit("KeyC");
    assert("KeyW"@[3] != "KeyC"@[3]);
    reveal_strlit("KeyD");
    assert("KeyW"@[3] != "KeyD"@[3]);
    reveal_strlit("KeyE");
    assert("KeyW"@[3] != "KeyE"@[3]);
    reveal_strlit("KeyF");
    assert("KeyW"@[3] != "KeyF"@[3]);
    reveal_strlit("KeyG");
    assert("KeyW"@[3] != "KeyG"@[3]);
    reveal_strlit("KeyH");
    assert("KeyW"@[3] != "KeyH"@[3]);
    reveal_strlit("KeyI");
    assert("KeyW"@[3] != "KeyI"@[3]);
    reveal_strlit("KeyJ");
    assert("KeyW"@[3] != "KeyJ"@[3]);
    reveal_strlit("KeyK");
    assert("KeyW"@[3] != "KeyK"@[3]);
    reveal_strlit("KeyL");
    assert("KeyW"@[3] != "KeyL"@[3]);
    reveal_strlit("KeyM");
    assert("KeyW"@[3] != "KeyM"@[3]);
    reveal_strlit("KeyN");
    assert("KeyW"@[3] != "KeyN"@[3]);
    reveal_strlit("KeyO");
    assert("KeyW"@[3] != "KeyO"@[3]);
    reveal_strlit("KeyP");
    assert("KeyW"@[3] != "KeyP"@[3]);
    reveal_strlit("KeyQ");
    assert("KeyW"@[3] != "KeyQ"@[3]);
    reveal_strlit("KeyR");
    assert("KeyW"@[3] != "KeyR"@[3]);
    reveal_strlit("KeyS");
    assert("KeyW"@[3] != "KeyS"@[3]);
    reveal_strlit("KeyT");
    assert("KeyW"@[3] != "KeyT"@[3]);
    reveal_strlit("KeyU");
    assert("KeyW"@[3] != "KeyU"@[3]);
    reveal_strlit("KeyV");
    assert("KeyW"@[3] != "KeyV"@[3]);
}

proof fn lemma_name_key_x()
    ensures
        key_of_name("KeyX"@) == Some(KeyCode::KeyX),
{
    reveal_strlit("KeyX");
    reveal_strlit("KeyA");
    assert("KeyX"@[3] != "KeyA"@[3]);
    reveal_strlit("KeyB");
    assert("KeyX"@[3] != "KeyB"@[3]);
    reveal_strlit("KeyC");
    assert("KeyX"@[3] != "KeyC"@[3]);
    reveal_strlit("KeyD");
    assert("KeyX"@[3] != "KeyD"@[3]);
    reveal_strlit("KeyE");
    assert("KeyX"@[3] != "KeyE"@[3]);
    reveal_strlit("KeyF");
    assert("KeyX"@[3] != "KeyF"@[3]);
    reveal_strlit("KeyG");
    assert("KeyX"@[3] != "KeyG"@[3]);
    reveal_strlit("KeyH");
    assert("KeyX"@[3] != "KeyH"@[3]);
    reveal_strlit("KeyI");
    assert("KeyX"@[3] != "KeyI"@[3]);
    reveal_strlit("KeyJ");
    assert("KeyX"@[3] != "KeyJ"@[3]);
    reveal_strlit("KeyK");
    assert("KeyX"@[3] != "KeyK"@[3]);
    reveal_strlit("KeyL");
    assert("KeyX"@[3] != "KeyL"@[3]);
    reveal_strlit("KeyM");
    assert("KeyX"@[3] != "KeyM"@[3]);
    reveal_strlit("KeyN");
    assert("KeyX"@[3] != "KeyN"@[3]);
    reveal_strlit("KeyO");
    assert("KeyX"@[3] != "KeyO"@[3]);
    reveal_strlit("KeyP");
    assert("KeyX"@[3] != "KeyP"@[3]);
    reveal_strlit("KeyQ");
    assert("KeyX"@[3] != "KeyQ"@[3]);
    reveal_strlit("KeyR");
    assert("KeyX"@[3] != "KeyR"@[3]);
    reveal_strlit("KeyS");
    assert("KeyX"@[3] != "KeyS"@[3]);
    reveal_strlit("KeyT");
    assert("KeyX"@[3] != "KeyT"@[3]);
    reveal_strlit("KeyU");
    assert("KeyX"@[3] != "KeyU"@[3]);
    reveal_strlit("KeyV");
    assert("KeyX"@[3] != "KeyV"@[3]);
    reveal_strlit("KeyW");
    assert("KeyX"@[3] != "KeyW"@[3]);
}

proof fn lemma_name_key_y()
    ensures
        key_of_name("KeyY"@) == Some(KeyCode::KeyY),
{
    reveal_strlit("KeyY");
    reveal_strlit("KeyA");
    assert("KeyY"@[3] != "KeyA"@[3]);
    reveal_strlit("KeyB");
    assert("KeyY"@[3] != "KeyB"@[3]);
    reveal_strlit("KeyC");
    assert("KeyY"@[3] != "KeyC"@[3]);
    reveal_strlit("KeyD");
    assert("KeyY"@[3] != "KeyD"@[3]);
    reveal_strlit("KeyE");
    assert("KeyY"@[3] != "KeyE"@[3]);
    reveal_strlit("KeyF");
    assert("KeyY"@[3] != "KeyF"@[3]);
    reveal_strlit("KeyG");
    assert("KeyY"@[3] != "KeyG"@[3]);
    reveal_strlit("KeyH");
    assert("KeyY"@[3] != "KeyH"@[3]);
    reveal_strlit("KeyI");
    assert("KeyY"@[3] != "KeyI"@[3]);
    reveal_strlit("KeyJ");
    assert("KeyY"@[3] != "KeyJ"@[3]);
    reveal_strlit("KeyK");
    assert("KeyY"@[3] != "KeyK"@[3]);
    reveal_strlit("KeyL");
    assert("KeyY"@[3] != "KeyL"@[3]);
    reveal_strlit("KeyM");
    assert("KeyY"@[3] != "KeyM"@[3]);
    reveal_strlit("KeyN");
    assert("KeyY"@[3] != "KeyN"@[3]);
    reveal_strlit("KeyO");
    assert("KeyY"@[3] != "KeyO"@[3]);
    reveal_strlit("KeyP");
    assert("KeyY"@[3] != "KeyP"@[3]);
    reveal_strlit("KeyQ");
    assert("KeyY"@[3] != "KeyQ"@[3]);
    reveal_strlit("KeyR");
    assert("KeyY"@[3] != "KeyR"@[3]);
    reveal_strlit("KeyS");
    assert("KeyY"@[3] != "KeyS"@[3]);
    reveal_strlit("KeyT");
    assert("KeyY"@[3] != "KeyT"@[3]);
    reveal_strlit("KeyU");
    assert("KeyY"@[3] != "KeyU"@[3]);
    reveal_strlit("KeyV");
    assert("KeyY"@[3] != "KeyV"@[3]);
    reveal_strlit("KeyW");
    assert("KeyY"@[3] != "KeyW"@[3]);
    reveal_strlit("KeyX");
    assert("KeyY"@[3] != "KeyX"@[3]);
}

proof fn lemma_name_key_z()
    ensures
        key_of_name("KeyZ"@) == Some(KeyCode::KeyZ),
{
    reveal_strlit("KeyZ");
    reveal_strlit("KeyA");
    assert("KeyZ"@[3] != "KeyA"@[3]);
    reveal_strlit("KeyB");
    assert("KeyZ"@[3] != "KeyB"@[3]);
    reveal_strlit("KeyC");
    assert("KeyZ"@[3] != "KeyC"@[3]);
    reveal_strlit("KeyD");
    assert("KeyZ"@[3] != "KeyD"@[3]);
    reveal_strlit("KeyE");
    assert("KeyZ"@[3] != "KeyE"@[3]);
    reveal_strlit("KeyF");
    assert("KeyZ"@[3] != "KeyF"@[3]);
    reveal_strlit("KeyG");
    assert("KeyZ"@[3] != "KeyG"@[3]);
    reveal_strlit("KeyH");
    assert("KeyZ"@[3] != "KeyH"@[3]);
    reveal_strlit("KeyI");
    assert("KeyZ"@[3] != "KeyI"@[3]);
    reveal_strlit("KeyJ");
    assert("KeyZ"@[3] != "KeyJ"@[3]);
    reveal_strlit("KeyK");
    assert("KeyZ"@[3] != "KeyK"@[3]);
    reveal_strlit("KeyL");
    assert("KeyZ"@[3] != "KeyL"@[3]);
    reveal_strlit("KeyM");
    assert("KeyZ"@[3] != "KeyM"@[3]);
    reveal_strlit("KeyN");
    assert("KeyZ"@[3] != "KeyN"@[3]);
    reveal_strlit("KeyO");
    assert("KeyZ"@[3] != "KeyO"@[3]);
    reveal_strlit("KeyP");
    assert("KeyZ"@[3] != "KeyP"@[3]);
    reveal_strlit("KeyQ");
    assert("KeyZ"@[3] != "KeyQ"@[3]);
    reveal_strlit("KeyR");
    assert("KeyZ"@[3] != "KeyR"@[3]);
    reveal_strlit("KeyS");
    assert("KeyZ"@[3] != "KeyS"@[3]);
    reveal_strlit("KeyT");
    assert("KeyZ"@[3] != "KeyT"@[3]);
    reveal_strlit("KeyU");
    assert("KeyZ"@[3] != "KeyU"@[3]);
    reveal_strlit("KeyV");
    assert("KeyZ"@[3] != "KeyV"@[3]);
    reveal_strlit("KeyW");
    assert("KeyZ"@[3] != "KeyW"@[3]);
    reveal_strlit("KeyX");
    assert("KeyZ"@[3] != "KeyX"@[3]);
    reveal_strlit("KeyY");
    assert("KeyZ"@[3] != "KeyY"@[3]);
}

proof fn lemma_name_digit_0()
    ensures
        key_of_name("Digit0"@) == Some(KeyCode::Digit0),
{
    reveal_strlit("Digit0");
    reveal_strlit("KeyA");
    assert("Digit0"@.len() != "KeyA"@.len());
    reveal_strlit("KeyB");
    assert("Digit0"@.len() != "KeyB"@.len());
    reveal_strlit("KeyC");
    assert("Digit0"@.len() != "KeyC"@.len());
    reveal_strlit("KeyD");
    assert("Digit0"@.len() != "KeyD"@.len());
    reveal_strlit("KeyE");
    assert("Digit0"@.len() != "KeyE"@.len());
    reveal_strlit("KeyF");
    assert("Digit0"@.len() != "KeyF"@.len());
    reveal_strlit("KeyG");
    assert("Digit0"@.len() != "KeyG"@.len());
    reveal_strlit("KeyH");
    assert("Digit0"@.len() != "KeyH"@.len());
    reveal_strlit("KeyI");
    assert("Digit0"@.len() != "KeyI"@.len());
    reveal_strlit("KeyJ");
    assert("Digit0"@.len() != "KeyJ"@.len());
    reveal_strlit("KeyK");
    assert("Digit0"@.len() != "KeyK"@.len());
    reveal_strlit("KeyL");
    assert("Digit0"@.len() != "KeyL"@.len());
    reveal_strlit("KeyM");
    assert("Digit0"@.len() != "KeyM"@.len());
    reveal_strlit("KeyN");
    assert("Digit0"@.len() != "KeyN"@.len());
    reveal_strlit("KeyO");
    assert("Digit0"@.len() != "KeyO"@.len());
    reveal_strlit("KeyP");
    assert("Digit0"@.len() != "KeyP"@.len());
    reveal_strlit("KeyQ");
    assert("Digit0"@.len() != "KeyQ"@.len());
    reveal_strlit("KeyR");
    assert("Digit0"@.len() != "KeyR"@.len());
    reveal_strlit("KeyS");
    assert("Digit0"@.len() != "KeyS"@.len());
    reveal_strlit("KeyT");
    assert("Digit0"@.len() != "KeyT"@.len());
    reveal_strlit("KeyU");
    assert("Digit0"@.len() != "KeyU"@.len());
    reveal_strlit("KeyV");
    assert("Digit0"@.len() != "KeyV"@.len());
    reveal_strlit("KeyW");
    assert("Digit0"@.len() != "KeyW"@.len());
    reveal_strlit("KeyX");
    assert("Digit0"@.len() != "KeyX"@.len());
    reveal_strlit("KeyY");
    assert("Digit0"@.len() != "KeyY"@.len());
    reveal_strlit("KeyZ");
    assert("Digit0"@.len() != "KeyZ"@.len());
}

proof fn lemma_name_digit_1()
    ensures
        key_of_name("Digit1"@) == Some(KeyCode::Digit1),
{
    reveal_strlit("Digit1");
    reveal_strlit("KeyA");
    assert("Digit1"@.len() != "KeyA"@.len());
    reveal_strlit("KeyB");
    assert("Digit1"@.len() != "KeyB"@.len());
    reveal_strlit("KeyC");
    assert("Digit1"@.len() != "KeyC"@.len());
    reveal_strlit("KeyD");
    assert("Digit1"@.len() != "KeyD"@.len());
    reveal_strlit("KeyE");
    assert("Digit1"@.len() != "KeyE"@.len());
    reveal_strlit("KeyF");
    assert("Digit1"@.len() != "KeyF"@.len());
    reveal_strlit("KeyG");
    assert("Digit1"@.len() != "KeyG"@.len());
    reveal_strlit("KeyH");
    assert("Digit1"@.len() != "KeyH"@.len());
    reveal_strlit("KeyI");
    assert("Digit1"@.len() != "KeyI"@.len());
    reveal_strlit("KeyJ");
    assert("Digit1"@.len() != "KeyJ"@.len());
    reveal_strlit("KeyK");
    assert("Digit1"@.len() != "KeyK"@.len());
    reveal_strlit("KeyL");
    assert("Digit1"@.len() != "KeyL"@.len());
    reveal_strlit("KeyM");
    assert("Digit1"@.len() != "KeyM"@.len());
    reveal_strlit("KeyN");
    assert("Digit1"@.len() != "KeyN"@.len());
    reveal_strlit("KeyO");
    assert("Digit1"@.len() != "KeyO"@.len());
    reveal_strlit("KeyP");
    assert("Digit1"@.len() != "KeyP"@.len());
    reveal_strlit("KeyQ");
    assert("Digit1"@.len() != "KeyQ"@.len());
    reveal_strlit("KeyR");
    assert("Digit1"@.len() != "KeyR"@.len());
    reveal_strlit("KeyS");
    assert("Digit1"@.len() != "KeyS"@.len());
    reveal_strlit("KeyT");
    assert("Digit1"@.len() != "KeyT"@.len());
    reveal_strlit("KeyU");
    assert("Digit1"@.len() != "KeyU"@.len());
    reveal_strlit("KeyV");
    assert("Digit1"@.len() != "KeyV"@.len());
    reveal_strlit("KeyW");
    assert("Digit1"@.len() != "KeyW"@.len());
    reveal_strlit("KeyX");
    assert("Digit1"@.len() != "KeyX"@.len());
    reveal_strlit("KeyY");
    assert("Digit1"@.len() != "KeyY"@.len());
    reveal_strlit("KeyZ");
    assert("Digit1"@.len() != "KeyZ"@.len());
    reveal_strlit("Digit0");
    assert("Digit1"@[5] != "Digit0"@[5]);
}

proof fn lemma_name_digit_2()
    ensures
        key_of_name("Digit2"@) == Some(KeyCode::Digit2),
{
    reveal_strlit("Digit2");
    reveal_strlit("KeyA");
    assert("Digit2"@.len() != "KeyA"@.len());
    reveal_strlit("KeyB");
    assert("Digit2"@.len() != "KeyB"@.len());
    reveal_strlit("KeyC");
    assert("Digit2"@.len() != "KeyC"@.len());
    reveal_strlit("KeyD");
    assert("Digit2"@.len() != "KeyD"@.len());
    reveal_strlit("KeyE");
    assert("Digit2"@.len() != "KeyE"@.len());
    reveal_strlit("KeyF");
    assert("Digit2"@.len() != "KeyF"@.len());
    reveal_strlit("KeyG");
    assert("Digit2"@.len() != "KeyG"@.len());
    reveal_strlit("KeyH");
    assert("Digit2"@.len() != "KeyH"@.len());
    reveal_strlit("KeyI");
    assert("Digit2"@.len() != "KeyI"@.len());
    reveal_strlit("KeyJ");
    assert("Digit2"@.len() != "KeyJ"@.len());
    reveal_strlit("KeyK");
    assert("Digit2"@.len() != "KeyK"@.len());
    reveal_strlit("KeyL");
    assert("Digit2"@.len() != "KeyL"@.len());
    reveal_strlit("KeyM");
    assert("Digit2"@.len() != "KeyM"@.len());
    reveal_strlit("KeyN");
    assert("Digit2"@.len() != "KeyN"@.len());
    reveal_strlit("KeyO");
    assert("Digit2"@.len() != "KeyO"@.len());
    reveal_strlit("KeyP");
    assert("Digit2"@.len() != "KeyP"@.len());
    reveal_strlit("KeyQ");
    assert("Digit2"@.len() != "KeyQ"@.len());
    reveal_strlit("KeyR");
    assert("Digit2"@.len() != "KeyR"@.len());
    reveal_strlit("KeyS");
    assert("Digit2"@.len() != "KeyS"@.len());
    reveal_strlit("KeyT");
    assert("Digit2"@.len() != "KeyT"@.len());
    reveal_strlit("KeyU");
    assert("Digit2"@.len() != "KeyU"@.len());
    reveal_strlit("KeyV");
    assert("Digit2"@.len() != "KeyV"@.len());
    reveal_strlit("KeyW");
    assert("Digit2"@.len() != "KeyW"@.len());
    reveal_strlit("KeyX");
    assert("Digit2"@.len() != "KeyX"@.len());
    reveal_strlit("KeyY");
    assert("Digit2"@.len() != "KeyY"@.len());
    reveal_strlit("KeyZ");
    assert("Digit2"@.len() != "KeyZ"@.len());
    reveal_strlit("Digit0");
    assert("Digit2"@[5] != "Digit0"@[5]);
    reveal_strlit("Digit1");
    assert("Digit2"@[5] != "Digit1"@[5]);
}

proof fn lemma_name_digit_3()
    ensures
        key_of_name("Digit3"@) == Some(KeyCode::Digit3),
{
    reveal_strlit("Digit3");
    reveal_strlit("KeyA");
    assert("Digit3"@.len() != "KeyA"@.len());
    reveal_strlit("KeyB");
    assert("Digit3"@.len() != "KeyB"@.len());
    reveal_strlit("KeyC");
    assert("Digit3"@.len() != "KeyC"@.len());
    reveal_strlit("KeyD");
    assert("Digit3"@.len() != "KeyD"@.len());
    reveal_strlit("KeyE");
    assert("Digit3"@.len() != "KeyE"@.len());
    reveal_strlit("KeyF");
    assert("Digit3"@.len() != "KeyF"@.len());
    reveal_strlit("KeyG");
    assert("Digit3"@.len() != "KeyG"@.len());
    reveal_strlit("KeyH");
    assert("Digit3"@.len() != "KeyH"@.len());
    reveal_strlit("KeyI");
    assert("Digit3"@.len() != "KeyI"@.len());
    reveal_strlit("KeyJ");
    assert("Digit3"@.len() != "KeyJ"@.len());
    reveal_strlit("KeyK");
    assert("Digit3"@.len() != "KeyK"@.len());
    reveal_strlit("KeyL");
    assert("Digit3"@.len() != "KeyL"@.len());
    reveal_strlit("KeyM");
    assert("Digit3"@.len() != "KeyM"@.len());
    reveal_strlit("KeyN");
    assert("Digit3"@.len() != "KeyN"@.len());
    reveal_strlit("KeyO");
    assert("Digit3"@.len() != "KeyO"@.len());
    reveal_strlit("KeyP");
    assert("Digit3"@.len() != "KeyP"@.len());
    reveal_strlit("KeyQ");
    assert("Digit3"@.len() != "KeyQ"@.len());
    reveal_strlit("KeyR");
    assert("Digit3"@.len() != "KeyR"@.len());
    reveal_strlit("KeyS");
    assert("Digit3"@.len() != "KeyS"@.len());
    reveal_strlit("KeyT");
    assert("Digit3"@.len() != "KeyT"@.len());
    reveal_strlit("KeyU");
    assert("Digit3"@.len() != "KeyU"@.len());
    reveal_strlit("KeyV");
    assert("Digit3"@.len() != "KeyV"@.len());
    reveal_strlit("KeyW");
    assert("Digit3"@.len() != "KeyW"@.len());
    reveal_strlit("KeyX");
    assert("Digit3"@.len() != "KeyX"@.len());
    reveal_strlit("KeyY");
    assert("Digit3"@.len() != "KeyY"@.len());
    reveal_strlit("KeyZ");
    assert("Digit3"@.len() != "KeyZ"@.len());
    reveal_strlit("Digit0");
    assert("Digit3"@[5] != "Digit0"@[5]);
    reveal_strlit("Digit1");
    assert("Digit3"@[5] != "Digit1"@[5]);
    reveal_strlit("Digit2");
    assert("Digit3"@[5] != "Digit2"@[5]);
}

proof fn lemma_name_digit_4()
    ensures
        key_of_name("Digit4"@) == Some(KeyCode::Digit4),
{
    reveal_strlit("Digit4");
    reveal_strlit("KeyA");
    assert("Digit4"@.len() != "KeyA"@.len());
    reveal_strlit("KeyB");
    assert("Digit4"@.len() != "KeyB"@.len());
    reveal_strlit("KeyC");
    assert("Digit4"@.len() != "KeyC"@.len());
    reveal_strlit("KeyD");
    assert("Digit4"@.len() != "KeyD"@.len());
    reveal_strlit("KeyE");
    assert("Digit4"@.len() != "KeyE"@.len());
    reveal_strlit("KeyF");
    assert("Digit4"@.len() != "KeyF"@.len());
    reveal_strlit("KeyG");
    assert("Digit4"@.len() != "KeyG"@.len());
    reveal_strlit("KeyH");
    assert("Digit4"@.len() != "KeyH"@.len());
    reveal_strlit("KeyI");
    assert("Digit4"@.len() != "KeyI"@.len());
    reveal_strlit("KeyJ");
    assert("Digit4"@.len() != "KeyJ"@.len());
    reveal_strlit("KeyK");
    assert("Digit4"@.len() != "KeyK"@.len());
    reveal_strlit("KeyL");
    assert("Digit4"@.len() != "KeyL"@.len());
    reveal_strlit("KeyM");
    assert("Digit4"@.len() != "KeyM"@.len());
    reveal_strlit("KeyN");
    assert("Digit4"@.len() != "KeyN"@.len());
    reveal_strlit("KeyO");
    assert("Digit4"@.len() != "KeyO"@.len());
    reveal_strlit("KeyP");
    assert("Digit4"@.len() != "KeyP"@.len());
    reveal_strlit("KeyQ");
    assert("Digit4"@.len() != "KeyQ"@.len());
    reveal_strlit("KeyR");
    assert("Digit4"@.len() != "KeyR"@.len());
    reveal_strlit("KeyS");
    assert("Digit4"@.len() != "KeyS"@.len());
    reveal_strlit("KeyT");
    assert("Digit4"@.len() != "KeyT"@.len());
    reveal_strlit("KeyU");
    assert("Digit4"@.len() != "KeyU"@.len());
    reveal_strlit("KeyV");
    assert("Digit4"@.len() != "KeyV"@.len());
    reveal_strlit("KeyW");
    assert("Digit4"@.len() != "KeyW"@.len());
    reveal_strlit("KeyX");
    assert("Digit4"@.len() != "KeyX"@.len());
    reveal_strlit("KeyY");
    assert("Digit4"@.len() != "KeyY"@.len());
    reveal_strlit("KeyZ");
    assert("Digit4"@.len() != "KeyZ"@.len());
    reveal_strlit("Digit0");
    assert("Digit4"@[5] != "Digit0"@[5]);
    reveal_strlit("Digit1");
    assert("Digit4"@[5] != "Digit1"@[5]);
    reveal_strlit("Digit2");
    assert("Digit4"@[5] != "Digit2"@[5]);
    reveal_strlit("Digit3");
    assert("Digit4"@[5] != "Digit3"@[5]);
}

proof fn lemma_name_digit_5()
    ensures
        key_of_name("Digit5"@) == Some(KeyCode::Digit5),
{
    reveal_strlit("Digit5");
    reveal_strlit("KeyA");
    assert("Digit5"@.len() != "KeyA"@.len());
    reveal_strlit("KeyB");
    assert("Digit5"@.len() != "KeyB"@.len());
    reveal_strlit("KeyC");
    assert("Digit5"@.len() != "KeyC"@.len());
    reveal_strlit("KeyD");
    assert("Digit5"@.len() != "KeyD"@.len());
    reveal_strlit("KeyE");
    assert("Digit5"@.len() != "KeyE"@.len());
    reveal_strlit("KeyF");
    assert("Digit5"@.len() != "KeyF"@.len());
    reveal_strlit("KeyG");
    assert("Digit5"@.len() != "KeyG"@.len());
    reveal_strlit("KeyH");
    assert("Digit5"@.len() != "KeyH"@.len());
    reveal_strlit("KeyI");
    assert("Digit5"@.len() != "KeyI"@.len());
    reveal_strlit("KeyJ");
    assert("Digit5"@.len() != "KeyJ"@.len());
    reveal_strlit("KeyK");
    assert("Digit5"@.len() != "KeyK"@.len());
    reveal_strlit("KeyL");
    assert("Digit5"@.len() != "KeyL"@.len());
    reveal_strlit("KeyM");
    assert("Digit5"@.len() != "KeyM"@.len());
    reveal_strlit("KeyN");
    assert("Digit5"@.len() != "KeyN"@.len());
    reveal_strlit("KeyO");
    assert("Digit5"@.len() != "KeyO"@.len());
    reveal_strlit("KeyP");
    assert("Digit5"@.len() != "KeyP"@.len());
    reveal_strlit("KeyQ");
    assert("Digit5"@.len() != "KeyQ"@.len());
    reveal_strlit("KeyR");
    assert("Digit5"@.len() != "KeyR"@.len());
    reveal_strlit("KeyS");
    assert("Digit5"@.len() != "KeyS"@.len());
    reveal_strlit("KeyT");
    assert("Digit5"@.len() != "KeyT"@.len());
    reveal_strlit("KeyU");
    assert("Digit5"@.len() != "KeyU"@.len());
    reveal_strlit("KeyV");
    assert("Digit5"@.len() != "KeyV"@.len());
    reveal_strlit("KeyW");
    assert("Digit5"@.len() != "KeyW"@.len());
    reveal_strlit("KeyX");
    assert("Digit5"@.len() != "KeyX"@.len());
    reveal_strlit("KeyY");
    assert("Digit5"@.len() != "KeyY"@.len());
    reveal_strlit("KeyZ");
    assert("Digit5"@.len() != "KeyZ"@.len());
    reveal_strlit("Digit0");
    assert("Digit5"@[5] != "Digit0"@[5]);
    reveal_strlit("Digit1");
    assert("Digit5"@[5] != "Digit1"@[5]);
    reveal_strlit("Digit2");
    assert("Digit5"@[5] != "Digit2"@[5]);
    reveal_strlit("Digit3");
    assert("Digit5"@[5] != "Digit3"@[5]);
    reveal_strlit("Digit4");
    assert("Digit5"@[5] != "Digit4"@[5]);
}

proof fn lemma_name_digit_6()
    ensures
        key_of_name("Digit6"@) == Some(KeyCode::Digit6),
{
    reveal_strlit("Digit6");
    reveal_strlit("KeyA");
    assert("Digit6"@.len() != "KeyA"@.len());
    reveal_strlit("KeyB");
    assert("Digit6"@.len() != "KeyB"@.len());
    reveal_strlit("KeyC");
    assert("Digit6"@.len() != "KeyC"@.len());
    reveal_strlit("KeyD");
    assert("Digit6"@.len() != "KeyD"@.len());
    reveal_strlit("KeyE");
    assert("Digit6"@.len() != "KeyE"@.len());
    reveal_strlit("KeyF");
    assert("Digit6"@.len() != "KeyF"@.len());
    reveal_strlit("KeyG");
    assert("Digit6"@.len() != "KeyG"@.len());
    reveal_strlit("KeyH");
    assert("Digit6"@.len() != "KeyH"@.len());
    reveal_strlit("KeyI");
    assert("Digit6"@.len() != "KeyI"@.len());
    reveal_strlit("KeyJ");
    assert("Digit6"@.len() != "KeyJ"@.len());
    reveal_strlit("KeyK");
    assert("Digit6"@.len() != "KeyK"@.len());
    reveal_strlit("KeyL");
    assert("Digit6"@.len() != "KeyL"@.len());
    reveal_strlit("KeyM");
    assert("Digit6"@.len() != "KeyM"@.len());
    reveal_strlit("KeyN");
    assert("Digit6"@.len() != "KeyN"@.len());
    reveal_strlit("KeyO");
    assert("Digit6"@.len() != "KeyO"@.len());
    reveal_strlit("KeyP");
    assert("Digit6"@.len() != "KeyP"@.len());
    reveal_strlit("KeyQ");
    assert("Digit6"@.len() != "KeyQ"@.len());
    reveal_strlit("KeyR");
    assert("Digit6"@.len() != "KeyR"@.len());
    reveal_strlit("KeyS");
    assert("Digit6"@.len() != "KeyS"@.len());
    reveal_strlit("KeyT");
    assert("Digit6"@.len() != "KeyT"@.len());
    reveal_strlit("KeyU");
    assert("Digit6"@.len() != "KeyU"@.len());
    reveal_strlit("KeyV");
    assert("Digit6"@.len() != "KeyV"@.len());
    reveal_strlit("KeyW");
    assert("Digit6"@.len() != "KeyW"@.len());
    reveal_strlit("KeyX");
    assert("Digit6"@.len() != "KeyX"@.len());
    reveal_strlit("KeyY");
    assert("Digit6"@.len() != "KeyY"@.len());
    reveal_strlit("KeyZ");
    assert("Digit6"@.len() != "KeyZ"@.len());
    reveal_strlit("Digit0");
    assert("Digit6"@[5] != "Digit0"@[5]);
    reveal_strlit("Digit1");
    assert("Digit6"@[5] != "Digit1"@[5]);
    reveal_strlit("Digit2");
    assert("Digit6"@[5] != "Digit2"@[5]);
    reveal_strlit("Digit3");
    assert("Digit6"@[5] != "Digit3"@[5]);
    reveal_strlit("Digit4");
    assert("Digit6"@[5] != "Digit4"@[5]);
    reveal_strlit("Digit5");
    assert("Digit6"@[5] != "Digit5"@[5]);
}

proof fn lemma_name_digit_7()
    ensures
        key_of_name("Digit7"@) == Some(KeyCode::Digit7),
{
    reveal_strlit("Digit7");
    reveal_strlit("KeyA");
    assert("Digit7"@.len() != "KeyA"@.len());
    reveal_strlit("KeyB");
    assert("Digit7"@.len() != "KeyB"@.len());
    reveal_strlit("KeyC");
    assert("Digit7"@.len() != "KeyC"@.len());
    reveal_strlit("KeyD");
    assert("Digit7"@.len() != "KeyD"@.len());
    reveal_strlit("KeyE");
    assert("Digit7"@.len() != "KeyE"@.len());
    reveal_strlit("KeyF");
    assert("Digit7"@.len() != "KeyF"@.len());
    reveal_strlit("KeyG");
    assert("Digit7"@.len() != "KeyG"@.len());
    reveal_strlit("KeyH");
    assert("Digit7"@.len() != "KeyH"@.len());
    reveal_strlit("KeyI");
    assert("Digit7"@.len() != "KeyI"@.len());
    reveal_strlit("KeyJ");
    assert("Digit7"@.len() != "KeyJ"@.len());
    reveal_strlit("KeyK");
    assert("Digit7"@.len() != "KeyK"@.len());
    reveal_strlit("KeyL");
    assert("Digit7"@.len() != "KeyL"@.len());
    reveal_strlit("KeyM");
    assert("Digit7"@.len() != "KeyM"@.len());
    reveal_strlit("KeyN");
    assert("Digit7"@.len() != "KeyN"@.len());
    reveal_strlit("KeyO");
    assert("Digit7"@.len() != "KeyO"@.len());
    reveal_strlit("KeyP");
    assert("Digit7"@.len() != "KeyP"@.len());
    reveal_strlit("KeyQ");
    assert("Digit7"@.len() != "KeyQ"@.len());
    reveal_strlit("KeyR");
    assert("Digit7"@.len() != "KeyR"@.len());
    reveal_strlit("KeyS");
    assert("Digit7"@.len() != "KeyS"@.len());
    reveal_strlit("KeyT");
    assert("Digit7"@.len() != "KeyT"@.len());
    reveal_strlit("KeyU");
    assert("Digit7"@.len() != "KeyU"@.len());
    reveal_strlit("KeyV");
    assert("Digit7"@.len() != "KeyV"@.len());
    reveal_strlit("KeyW");
    assert("Digit7"@.len() != "KeyW"@.len());
    reveal_strlit("KeyX");
    assert("Digit7"@.len() != "KeyX"@.len());
    reveal_strlit("KeyY");
    assert("Digit7"@.len() != "KeyY"@.len());
    reveal_strlit("KeyZ");
    assert("Digit7"@.len() != "KeyZ"@.len());
    reveal_strlit("Digit0");
    assert("Digit7"@[5] != "Digit0"@[5]);
    reveal_strlit("Digit1");
    assert("Digit7"@[5] != "Digit1"@[5]);
    reveal_strlit("Digit2");
    assert("Digit7"@[5] != "Digit2"@[5]);
    reveal_strlit("Digit3");
    assert("Digit7"@[5] != "Digit3"@[5]);
    reveal_strlit("Digit4");
    assert("Digit7"@[5] != "Digit4"@[5]);
    reveal_strlit("Digit5");
    assert("Digit7"@[5] != "Digit5"@[5]);
    reveal_strlit("Digit6");
    assert("Digit7"@[5] != "Digit6"@[5]);
}

proof fn lemma_name_digit_8()
    ensures
        key_of_name("Digit8"@) == Some(KeyCode::Digit8),
{
    reveal_strlit("Digit8");
    reveal_strlit("KeyA");
    assert("Digit8"@.len() != "KeyA"@.len());
    reveal_strlit("KeyB");
    assert("Digit8"@.len() != "KeyB"@.len());
    reveal_strlit("KeyC");
    assert("Digit8"@.len() != "KeyC"@.len());
    reveal_strlit("KeyD");
    assert("Digit8"@.len() != "KeyD"@.len());
    reveal_strlit("KeyE");
    assert("Digit8"@.len() != "KeyE"@.len());
    reveal_strlit("KeyF");
    assert("Digit8"@.len() != "KeyF"@.len());
    reveal_strlit("KeyG");
    assert("Digit8"@.len() != "KeyG"@.len());
    reveal_strlit("KeyH");
    assert("Digit8"@.len() != "KeyH"@.len());
    reveal_strlit("KeyI");
    assert("Digit8"@.len() != "KeyI"@.len());
    reveal_strlit("KeyJ");
    assert("Digit8"@.len() != "KeyJ"@.len());
    reveal_strlit("KeyK");
    assert("Digit8"@.len() != "KeyK"@.len());
    reveal_strlit("KeyL");
    assert("Digit8"@.len() != "KeyL"@.len());
    reveal_strlit("KeyM");
    assert("Digit8"@.len() != "KeyM"@.len());
    reveal_strlit("KeyN");
    assert("Digit8"@.len() != "KeyN"@.len());
    reveal_strlit("KeyO");
    assert("Digit8"@.len() != "KeyO"@.len());
    reveal_strlit("KeyP");
    assert("Digit8"@.len() != "KeyP"@.len());
    reveal_strlit("KeyQ");
    assert("Digit8"@.len() != "KeyQ"@.len());
    reveal_strlit("KeyR");
    assert("Digit8"@.len() != "KeyR"@.len());
    reveal_strlit("KeyS");
    assert("Digit8"@.len() != "KeyS"@.len());
    reveal_strlit("KeyT");
    assert("Digit8"@.len() != "KeyT"@.len());
    reveal_strlit("KeyU");
    assert("Digit8"@.len() != "KeyU"@.len());
    reveal_strlit("KeyV");
    assert("Digit8"@.len() != "KeyV"@.len());
    reveal_strlit("KeyW");
    assert("Digit8"@.len() != "KeyW"@.len());
    reveal_strlit("KeyX");
    assert("Digit8"@.len() != "KeyX"@.len());
    reveal_strlit("KeyY");
    assert("Digit8"@.len() != "KeyY"@.len());
    reveal_strlit("KeyZ");
    assert("Digit8"@.len() != "KeyZ"@.len());
    reveal_strlit("Digit0");
    assert("Digit8"@[5] != "Digit0"@[5]);
    reveal_strlit("Digit1");
    assert("Digit8"@[5] != "Digit1"@[5]);
    reveal_strlit("Digit2");
    assert("Digit8"@[5] != "Digit2"@[5]);
    reveal_strlit("Digit3");
    assert("Digit8"@[5] != "Digit3"@[5]);
    reveal_strlit("Digit4");
    assert("Digit8"@[5] != "Digit4"@[5]);
    reveal_strlit("Digit5");
    assert("Digit8"@[5] != "Digit5"@[5]);
    reveal_strlit("Digit6");
    assert("Digit8"@[5] != "Digit6"@[5]);
    reveal_strlit("Digit7");
    assert("Digit8"@[5] != "Digit7"@[5]);
}

proof fn lemma_name_digit_9()
    ensures
        key_of_name("Digit9"@) == Some(KeyCode::Digit9),
{
    reveal_strlit("Digit9");
    reveal_strlit("KeyA");
    assert("Digit9"@.len() != "KeyA"@.len());
    reveal_strlit("KeyB");
    assert("Digit9"@.len() != "KeyB"@.len());
    reveal_strlit("KeyC");
    assert("Digit9"@.len() != "KeyC"@.len());
    reveal_strlit("KeyD");
    assert("Digit9"@.len() != "KeyD"@.len());
    reveal_strlit("KeyE");
    assert("Digit9"@.len() != "KeyE"@.len());
    reveal_strlit("KeyF");
    assert("Digit9"@.len() != "KeyF"@.len());
    reveal_strlit("KeyG");
    assert("Digit9"@.len() != "KeyG"@.len());
    reveal_strlit("KeyH");
    assert("Digit9"@.len() != "KeyH"@.len());
    reveal_strlit("KeyI");
    assert("Digit9"@.len() != "KeyI"@.len());
    reveal_strlit("KeyJ");
    assert("Digit9"@.len() != "KeyJ"@.len());
    reveal_strlit("KeyK");
    assert("Digit9"@.len() != "KeyK"@.len());
    reveal_strlit("KeyL");
    assert("Digit9"@.len() != "KeyL"@.len());
    reveal_strlit("KeyM");
    assert("Digit9"@.len() != "KeyM"@.len());
    reveal_strlit("KeyN");
    assert("Digit9"@.len() != "KeyN"@.len());
    reveal_strlit("KeyO");
    assert("Digit9"@.len() != "KeyO"@.len());
    reveal_strlit("KeyP");
    assert("Digit9"@.len() != "KeyP"@.len());
    reveal_strlit("KeyQ");
    assert("Digit9"@.len() != "KeyQ"@.len());
    reveal_strlit("KeyR");
    assert("Digit9"@.len() != "KeyR"@.len());
    reveal_strlit("KeyS");
    assert("Digit9"@.len() != "KeyS"@.len());
    reveal_strlit("KeyT");
    assert("Digit9"@.len() != "KeyT"@.len());
    reveal_strlit("KeyU");
    assert("Digit9"@.len() != "KeyU"@.len());
    reveal_strlit("KeyV");
    assert("Digit9"@.len() != "KeyV"@.len());
    reveal_strlit("KeyW");
    assert("Digit9"@.len() != "KeyW"@.len());
    reveal_strlit("KeyX");
    assert("Digit9"@.len() != "KeyX"@.len());
    reveal_strlit("KeyY");
    assert("Digit9"@.len() != "KeyY"@.len());
    reveal_strlit("KeyZ");
    assert("Digit9"@.len() != "KeyZ"@.len());
    reveal_strlit("Digit0");
    assert("Digit9"@[5] != "Digit0"@[5]);
    reveal_strlit("Digit1");
    assert("Digit9"@[5] != "Digit1"@[5]);
    reveal_strlit("Digit2");
    assert("Digit9"@[5] != "Digit2"@[5]);
    reveal_strlit("Digit3");
    assert("Digit9"@[5] != "Digit3"@[5]);
    reveal_strlit("Digit4");
    assert("Digit9"@[5] != "Digit4"@[5]);
    reveal_strlit("Digit5");
    assert("Digit9"@[5] != "Digit5"@[5]);
    reveal_strlit("Digit6");
    assert("Digit9"@[5] != "Digit6"@[5]);
    reveal_strlit("Digit7");
    assert("Digit9"@[5] != "Digit7"@[5]);
    reveal_strlit("Digit8");
    assert("Digit9"@[5] != "Digit8"@[5]);
}

proof fn lemma_name_space()
    ensures
        key_of_name("Space"@) == Some(KeyCode::Space),
{
    reveal_strlit("Space");
    reveal_strlit("KeyA");
    assert("Space"@.len() != "KeyA"@.len());
    reveal_strlit("KeyB");
    assert("Space"@.len() != "KeyB"@.len());
    reveal_strlit("KeyC");
    assert("Space"@.len() != "KeyC"@.len());
    reveal_strlit("KeyD");
    assert("Space"@.len() != "KeyD"@.len());
    reveal_strlit("KeyE");
    assert("Space"@.len() != "KeyE"@.len());
    reveal_strlit("KeyF");
    assert("Space"@.len() != "KeyF"@.len());
    reveal_strlit("KeyG");
    assert("Space"@.len() != "KeyG"@.len());
    reveal_strlit("KeyH");
    assert("Space"@.len() != "KeyH"@.len());
    reveal_strlit("KeyI");
    assert("Space"@.len() != "KeyI"@.len());
    reveal_strlit("KeyJ");
    assert("Space"@.len() != "KeyJ"@.len());
    reveal_strlit("KeyK");
    assert("Space"@.len() != "KeyK"@.len());
    reveal_strlit("KeyL");
    assert("Space"@.len() != "KeyL"@.len());
    reveal_strlit("KeyM");
    assert("Space"@.len() != "KeyM"@.len());
    reveal_strlit("KeyN");
    assert("Space"@.len() != "KeyN"@.len());
    reveal_strlit("KeyO");
    assert("Space"@.len() != "KeyO"@.len());
    reveal_strlit("KeyP");
    assert("Space"@.len() != "KeyP"@.len());
    reveal_strlit("KeyQ");
    assert("Space"@.len() != "KeyQ"@.len());
    reveal_strlit("KeyR");
    assert("Space"@.len() != "KeyR"@.len());
    reveal_strlit("KeyS");
    assert("Space"@.len() != "KeyS"@.len());
    reveal_strlit("KeyT");
    assert("Space"@.len() != "KeyT"@.len());
    reveal_strlit("KeyU");
    assert("Space"@.len() != "KeyU"@.len());
    reveal_strlit("KeyV");
    assert("Space"@.len() != "KeyV"@.len());
    reveal_strlit("KeyW");
    assert("Space"@.len() != "KeyW"@.len());
    reveal_strlit("KeyX");
    assert("Space"@.len() != "KeyX"@.len());
    reveal_strlit("KeyY");
    assert("Space"@.len() != "KeyY"@.len());
    reveal_strlit("KeyZ");
    assert("Space"@.len() != "KeyZ"@.len());
    reveal_strlit("Digit0");
    assert("Space"@.len() != "Digit0"@.len());
    reveal_strlit("Digit1");
    assert("Space"@.len() != "Digit1"@.len());
    reveal_strlit("Digit2");
    assert("Space"@.len() != "Digit2"@.len());
    reveal_strlit("Digit3");
    assert("Space"@.len() != "Digit3"@.len());
    reveal_strlit("Digit4");
    assert("Space"@.len() != "Digit4"@.len());
    reveal_strlit("Digit5");
    assert("Space"@.len() != "Digit5"@.len());
    reveal_strlit("Digit6");
    assert("Space"@.len() != "Digit6"@.len());
    reveal_strlit("Digit7");
    assert("Space"@.len() != "Digit7"@.len());
    reveal_strlit("Digit8");
    assert("Space"@.len() != "Digit8"@.len());
    reveal_strlit("Digit9");
    assert("Space"@.len() != "Digit9"@.len());
}

proof fn lemma_name_tab()
    ensures
        key_of_name("Tab"@) == Some(KeyCode::Tab),
{
    reveal_strlit("Tab");
    reveal_strlit("KeyA");
    assert("Tab"@.len() != "KeyA"@.len());
    reveal_strlit("KeyB");
    assert("Tab"@.len() != "KeyB"@.len());
    reveal_strlit("KeyC");
    assert("Tab"@.len() != "KeyC"@.len());
    reveal_strlit("KeyD");
    assert("Tab"@.len() != "KeyD"@.len());
    reveal_strlit("KeyE");
    assert("Tab"@.len() != "KeyE"@.len());
    reveal_strlit("KeyF");
    assert("Tab"@.len() != "KeyF"@.len());
    reveal_strlit("KeyG");
    assert("Tab"@.len() != "KeyG"@.len());
    reveal_strlit("KeyH");
    assert("Tab"@.len() != "KeyH"@.len());
    reveal_strlit("KeyI");
    assert("Tab"@.len() != "KeyI"@.len());
    reveal_strlit("KeyJ");
    assert("Tab"@.len() != "KeyJ"@.len());
    reveal_strlit("KeyK");
    assert("Tab"@.len() != "KeyK"@.len());
    reveal_strlit("KeyL");
    assert("Tab"@.len() != "KeyL"@.len());
    reveal_strlit("KeyM");
    assert("Tab"@.len() != "KeyM"@.len());
    reveal_strlit("KeyN");
    assert("Tab"@.len() != "KeyN"@.len());
    reveal_strlit("KeyO");
    assert("Tab"@.len() != "KeyO"@.len());
    reveal_strlit("KeyP");
    assert("Tab"@.len() != "KeyP"@.len());
    reveal_strlit("KeyQ");
    assert("Tab"@.len() != "KeyQ"@.len());
    reveal_strlit("KeyR");
    assert("Tab"@.len() != "KeyR"@.len());
    reveal_strlit("KeyS");
    assert("Tab"@.len() != "KeyS"@.len());
    reveal_strlit("KeyT");
    assert("Tab"@.len() != "KeyT"@.len());
    reveal_strlit("KeyU");
    assert("Tab"@.len() != "KeyU"@.len());
    reveal_strlit("KeyV");
    assert("Tab"@.len() != "KeyV"@.len());
    reveal_strlit("KeyW");
    assert("Tab"@.len() != "KeyW"@.len());
    reveal_strlit("KeyX");
    assert("Tab"@.len() != "KeyX"@.len());
    reveal_strlit("KeyY");
    assert("Tab"@.len() != "KeyY"@.len());
    reveal_strlit("KeyZ");
    assert("Tab"@.len() != "KeyZ"@.len());
    reveal_strlit("Digit0");
    assert("Tab"@.len() != "Digit0"@.len());
    reveal_strlit("Digit1");
    assert("Tab"@.len() != "Digit1"@.len());
    reveal_strlit("Digit2");
    assert("Tab"@.len() != "Digit2"@.len());
    reveal_strlit("Digit3");
    assert("Tab"@.len() != "Digit3"@.len());
    reveal_strlit("Digit4");
    assert("Tab"@.len() != "Digit4"@.len());
    reveal_strlit("Digit5");
    assert("Tab"@.len() != "Digit5"@.len());
    reveal_strlit("Digit6");
    assert("Tab"@.len() != "Digit6"@.len());
    reveal_strlit("Digit7");
    assert("Tab"@.len() != "Digit7"@.len());
    reveal_strlit("Digit8");
    assert("Tab"@.len() != "Digit8"@.len());
    reveal_strlit("Digit9");
    assert("Tab"@.len() != "Digit9"@.len());
    reveal_strlit("Space");
    assert("Tab"@.len() != "Space"@.len());
}

proof fn lemma_name_shift_left()
    ensures
        key_of_name("ShiftLeft"@) == Some(KeyCode::ShiftLeft),
{
    reveal_strlit("ShiftLeft");
    reveal_strlit("KeyA");
    assert("ShiftLeft"@.len() != "KeyA"@.len());
    reveal_strlit("KeyB");
    assert("ShiftLeft"@.len() != "KeyB"@.len());
    reveal_strlit("KeyC");
    assert("ShiftLeft"@.len() != "KeyC"@.len());
    reveal_strlit("KeyD");
    assert("ShiftLeft"@.len() != "KeyD"@.len());
    reveal_strlit("KeyE");
    assert("ShiftLeft"@.len() != "KeyE"@.len());
    reveal_strlit("KeyF");
    assert("ShiftLeft"@.len() != "KeyF"@.len());
    reveal_strlit("KeyG");
    assert("ShiftLeft"@.len() != "KeyG"@.len());
    reveal_strlit("KeyH");
    assert("ShiftLeft"@.len() != "KeyH"@.len());
    reveal_strlit("KeyI");
    assert("ShiftLeft"@.len() != "KeyI"@.len());
    reveal_strlit("KeyJ");
    assert("ShiftLeft"@.len() != "KeyJ"@.len());
    reveal_strlit("KeyK");
    assert("ShiftLeft"@.len() != "KeyK"@.len());
    reveal_strlit("KeyL");
    assert("ShiftLeft"@.len() != "KeyL"@.len());
    reveal_strlit("KeyM");
    assert("ShiftLeft"@.len() != "KeyM"@.len());
    reveal_strlit("KeyN");
    assert("ShiftLeft"@.len() != "KeyN"@.len());
    reveal_strlit("KeyO");
    assert("ShiftLeft"@.len() != "KeyO"@.len());
    reveal_strlit("KeyP");
    assert("ShiftLeft"@.len() != "KeyP"@.len());
    reveal_strlit("KeyQ");
    assert("ShiftLeft"@.len() != "KeyQ"@.len());
    reveal_strlit("KeyR");
    assert("ShiftLeft"@.len() != "KeyR"@.len());
    reveal_strlit("KeyS");
    assert("ShiftLeft"@.len() != "KeyS"@.len());
    reveal_strlit("KeyT");
    assert("ShiftLeft"@.len() != "KeyT"@.len());
    reveal_strlit("KeyU");
    assert("ShiftLeft"@.len() != "KeyU"@.len());
    reveal_strlit("KeyV");
    assert("ShiftLeft"@.len() != "KeyV"@.len());
    reveal_strlit("KeyW");
    assert("ShiftLeft"@.len() != "KeyW"@.len());
    reveal_strlit("KeyX");
    assert("ShiftLeft"@.len() != "KeyX"@.len());
    reveal_strlit("KeyY");
    assert("ShiftLeft"@.len() != "KeyY"@.len());
    reveal_strlit("KeyZ");
    assert("ShiftLeft"@.len() != "KeyZ"@.len());
    reveal_strlit("Digit0");
    assert("ShiftLeft"@.len() != "Digit0"@.len());
    reveal_strlit("Digit1");
    assert("ShiftLeft"@.len() != "Digit1"@.len());
    reveal_strlit("Digit2");
    assert("ShiftLeft"@.len() != "Digit2"@.len());
    reveal_strlit("Digit3");
    assert("ShiftLeft"@.len() != "Digit3"@.len());
    reveal_strlit("Digit4");
    assert("ShiftLeft"@.len() != "Digit4"@.len());
    reveal_strlit("Digit5");
    assert("ShiftLeft"@.len() != "Digit5"@.len());
    reveal_strlit("Digit6");
    assert("ShiftLeft"@.len() != "Digit6"@.len());
    reveal_strlit("Digit7");
    assert("ShiftLeft"@.len() != "Digit7"@.len());
    reveal_strlit("Digit8");
    assert("ShiftLeft"@.len() != "Digit8"@.len());
    reveal_strlit("Digit9");
    assert("ShiftLeft"@.len() != "Digit9"@.len());
    reveal_strlit("Space");
    assert("ShiftLeft"@.len() != "Space"@.len());
    reveal_strlit("Tab");
    assert("ShiftLeft"@.len() != "Tab"@.len());
}

proof fn lemma_name_shift_right()
    ensures
        key_of_name("ShiftRight"@) == Some(KeyCode::ShiftRight),
{
    reveal_strlit("ShiftRight");
    reveal_strlit("KeyA");
    assert("ShiftRight"@.len() != "KeyA"@.len());
    reveal_strlit("KeyB");
    assert("ShiftRight"@.len() != "KeyB"@.len());
    reveal_strlit("KeyC");
    assert("ShiftRight"@.len() != "KeyC"@.len());
    reveal_strlit("KeyD");
    assert("ShiftRight"@.len() != "KeyD"@.len());
    reveal_strlit("KeyE");
    assert("ShiftRight"@.len() != "KeyE"@.len());
    reveal_strlit("KeyF");
    assert("ShiftRight"@.len() != "KeyF"@.len());
    reveal_strlit("KeyG");
    assert("ShiftRight"@.len() != "KeyG"@.len());
    reveal_strlit("KeyH");
    assert("ShiftRight"@.len() != "KeyH"@.len());
    reveal_strlit("KeyI");
    assert("ShiftRight"@.len() != "KeyI"@.len());
    reveal_strlit("KeyJ");
    assert("ShiftRight"@.len() != "KeyJ"@.len());
    reveal_strlit("KeyK");
    assert("ShiftRight"@.len() != "KeyK"@.len());
    reveal_strlit("KeyL");
    assert("ShiftRight"@.len() != "KeyL"@.len());
    reveal_strlit("KeyM");
    assert("ShiftRight"@.len() != "KeyM"@.len());
    reveal_strlit("KeyN");
    assert("ShiftRight"@.len() != "KeyN"@.len());
    reveal_strlit("KeyO");
    assert("ShiftRight"@.len() != "KeyO"@.len());
    reveal_strlit("KeyP");
    assert("ShiftRight"@.len() != "KeyP"@.len());
    reveal_strlit("KeyQ");
    assert("ShiftRight"@.len() != "KeyQ"@.len());
    reveal_strlit("KeyR");
    assert("ShiftRight"@.len() != "KeyR"@.len());
    reveal_strlit("KeyS");
    assert("ShiftRight"@.len() != "KeyS"@.len());
    reveal_strlit("KeyT");
    assert("ShiftRight"@.len() != "KeyT"@.len());
    reveal_strlit("KeyU");
    assert("ShiftRight"@.len() != "KeyU"@.len());
    reveal_strlit("KeyV");
    assert("ShiftRight"@.len() != "KeyV"@.len());
    reveal_strlit("KeyW");
    assert("ShiftRight"@.len() != "KeyW"@.len());
    reveal_strlit("KeyX");
    assert("ShiftRight"@.len() != "KeyX"@.len());
    reveal_strlit("KeyY");
    assert("ShiftRight"@.len() != "KeyY"@.len());
    reveal_strlit("KeyZ");
    assert("ShiftRight"@.len() != "KeyZ"@.len());
    reveal_strlit("Digit0");
    assert("ShiftRight"@.len() != "Digit0"@.len());
    reveal_strlit("Digit1");
    assert("ShiftRight"@.len() != "Digit1"@.len());
    reveal_strlit("Digit2");
    assert("ShiftRight"@.len() != "Digit2"@.len());
    reveal_strlit("Digit3");
    assert("ShiftRight"@.len() != "Digit3"@.len());
    reveal_strlit("Digit4");
    assert("ShiftRight"@.len() != "Digit4"@.len());
    reveal_strlit("Digit5");
    assert("ShiftRight"@.len() != "Digit5"@.len());
    reveal_strlit("Digit6");
    assert("ShiftRight"@.len() != "Digit6"@.len());
    reveal_strlit("Digit7");
    assert("ShiftRight"@.len() != "Digit7"@.len());
    reveal_strlit("Digit8");
    assert("ShiftRight"@.len() != "Digit8"@.len());
    reveal_strlit("Digit9");
    assert("ShiftRight"@.len() != "Digit9"@.len());
    reveal_strlit("Space");
    assert("ShiftRight"@.len() != "Space"@.len());
    reveal_strlit("Tab");
    assert("ShiftRight"@.len() != "Tab"@.len());
    reveal_strlit("ShiftLeft");
    assert("ShiftRight"@.len() != "ShiftLeft"@.len());
}

proof fn lemma_name_control_left()
    ensures
        key_of_name("ControlLeft"@) == Some(KeyCode::ControlLeft),
{
    reveal_strlit("ControlLeft");
    reveal_strlit("KeyA");
    assert("ControlLeft"@.len() != "KeyA"@.len());
    reveal_strlit("KeyB");
    assert("ControlLeft"@.len() != "KeyB"@.len());
    reveal_strlit("KeyC");
    assert("ControlLeft"@.len() != "KeyC"@.len());
    reveal_strlit("KeyD");
    assert("ControlLeft"@.len() != "KeyD"@.len());
    reveal_strlit("KeyE");
    assert("ControlLeft"@.len() != "KeyE"@.len());
    reveal_strlit("KeyF");
    assert("ControlLeft"@.len() != "KeyF"@.len());
    reveal_strlit("KeyG");
    assert("ControlLeft"@.len() != "KeyG"@.len());
    reveal_strlit("KeyH");
    assert("ControlLeft"@.len() != "KeyH"@.len());
    reveal_strlit("KeyI");
    assert("ControlLeft"@.len() != "KeyI"@.len());
    reveal_strlit("KeyJ");
    assert("ControlLeft"@.len() != "KeyJ"@.len());
    reveal_strlit("KeyK");
    assert("ControlLeft"@.len() != "KeyK"@.len());
    reveal_strlit("KeyL");
    assert("ControlLeft"@.len() != "KeyL"@.len());
    reveal_strlit("KeyM");
    assert("ControlLeft"@.len() != "KeyM"@.len());
    reveal_strlit("KeyN");
    assert("ControlLeft"@.len() != "KeyN"@.len());
    reveal_strlit("KeyO");
    assert("ControlLeft"@.len() != "KeyO"@.len());
    reveal_strlit("KeyP");
    assert("ControlLeft"@.len() != "KeyP"@.len());
    reveal_strlit("KeyQ");
    assert("ControlLeft"@.len() != "KeyQ"@.len());
    reveal_strlit("KeyR");
    assert("ControlLeft"@.len() != "KeyR"@.len());
    reveal_strlit("KeyS");
    assert("ControlLeft"@.len() != "KeyS"@.len());
    reveal_strlit("KeyT");
    assert("ControlLeft"@.len() != "KeyT"@.len());
    reveal_strlit("KeyU");
    assert("ControlLeft"@.len() != "KeyU"@.len());
    reveal_strlit("KeyV");
    assert("ControlLeft"@.len() != "KeyV"@.len());
    reveal_strlit("KeyW");
    assert("ControlLeft"@.len() != "KeyW"@.len());
    reveal_strlit("KeyX");
    assert("ControlLeft"@.len() != "KeyX"@.len());
    reveal_strlit("KeyY");
    assert("ControlLeft"@.len() != "KeyY"@.len());
    reveal_strlit("KeyZ");
    assert("ControlLeft"@.len() != "KeyZ"@.len());
    reveal_strlit("Digit0");
    assert("ControlLeft"@.len() != "Digit0"@.len());
    reveal_strlit("Digit1");
    assert("ControlLeft"@.len() != "Digit1"@.len());
    reveal_strlit("Digit2");
    assert("ControlLeft"@.len() != "Digit2"@.len());
    reveal_strlit("Digit3");
    assert("ControlLeft"@.len() != "Digit3"@.len());
    reveal_strlit("Digit4");
    assert("ControlLeft"@.len() != "Digit4"@.len());
    reveal_strlit("Digit5");
    assert("ControlLeft"@.len() != "Digit5"@.len());
    reveal_strlit("Digit6");
    assert("ControlLeft"@.len() != "Digit6"@.len());
    reveal_strlit("Digit7");
    assert("ControlLeft"@.len() != "Digit7"@.len());
    reveal_strlit("Digit8");
    assert("ControlLeft"@.len() != "Digit8"@.len());
    reveal_strlit("Digit9");
    assert("ControlLeft"@.len() != "Digit9"@.len());
    reveal_strlit("Space");
    assert("ControlLeft"@.len() != "Space"@.len());
    reveal_strlit("Tab");
    assert("ControlLeft"@.len() != "Tab"@.len());
    reveal_strlit("ShiftLeft");
    assert("ControlLeft"@.len() != "ShiftLeft"@.len());
    reveal_strlit("ShiftRight");
    assert("ControlLeft"@.len() != "ShiftRight"@.len());
}

proof fn lemma_name_alt_left()
    ensures
        key_of_name("AltLeft"@) == Some(KeyCode::AltLeft),
{
    reveal_strlit("AltLeft");
    reveal_strlit("KeyA");
    assert("AltLeft"@.len() != "KeyA"@.len());
    reveal_strlit("KeyB");
    assert("AltLeft"@.len() != "KeyB"@.len());
    reveal_strlit("KeyC");
    assert("AltLeft"@.len() != "KeyC"@.len());
    reveal_strlit("KeyD");
    assert("AltLeft"@.len() != "KeyD"@.len());
    reveal_strlit("KeyE");
    assert("AltLeft"@.len() != "KeyE"@.len());
    reveal_strlit("KeyF");
    assert("AltLeft"@.len() != "KeyF"@.len());
    reveal_strlit("KeyG");
    assert("AltLeft"@.len() != "KeyG"@.len());
    reveal_strlit("KeyH");
    assert("AltLeft"@.len() != "KeyH"@.len());
    reveal_strlit("KeyI");
    assert("AltLeft"@.len() != "KeyI"@.len());
    reveal_strlit("KeyJ");
    assert("AltLeft"@.len() != "KeyJ"@.len());
    reveal_strlit("KeyK");
    assert("AltLeft"@.len() != "KeyK"@.len());
    reveal_strlit("KeyL");
    assert("AltLeft"@.len() != "KeyL"@.len());
    reveal_strlit("KeyM");
    assert("AltLeft"@.len() != "KeyM"@.len());
    reveal_strlit("KeyN");
    assert("AltLeft"@.len() != "KeyN"@.len());
    reveal_strlit("KeyO");
    assert("AltLeft"@.len() != "KeyO"@.len());
    reveal_strlit("KeyP");
    assert("AltLeft"@.len() != "KeyP"@.len());
    reveal_strlit("KeyQ");
    assert("AltLeft"@.len() != "KeyQ"@.len());
    reveal_strlit("KeyR");
    assert("AltLeft"@.len() != "KeyR"@.len());
    reveal_strlit("KeyS");
    assert("AltLeft"@.len() != "KeyS"@.len());
    reveal_strlit("KeyT");
    assert("AltLeft"@.len() != "KeyT"@.len());
    reveal_strlit("KeyU");
    assert("AltLeft"@.len() != "KeyU"@.len());
    reveal_strlit("KeyV");
    assert("AltLeft"@.len() != "KeyV"@.len());
    reveal_strlit("KeyW");
    assert("AltLeft"@.len() != "KeyW"@.len());
    reveal_strlit("KeyX");
    assert("AltLeft"@.len() != "KeyX"@.len());
    reveal_strlit("KeyY");
    assert("AltLeft"@.len() != "KeyY"@.len());
    reveal_strlit("KeyZ");
    assert("AltLeft"@.len() != "KeyZ"@.len());
    reveal_strlit("Digit0");
    assert("AltLeft"@.len() != "Digit0"@.len());
    reveal_strlit("Digit1");
    assert("AltLeft"@.len() != "Digit1"@.len());
    reveal_strlit("Digit2");
    assert("AltLeft"@.len() != "Digit2"@.len());
    reveal_strlit("Digit3");
    assert("AltLeft"@.len() != "Digit3"@.len());
    reveal_strlit("Digit4");
    assert("AltLeft"@.len() != "Digit4"@.len());
    reveal_strlit("Digit5");
    assert("AltLeft"@.len() != "Digit5"@.len());
    reveal_strlit("Digit6");
    assert("AltLeft"@.len() != "Digit6"@.len());
    reveal_strlit("Digit7");
    assert("AltLeft"@.len() != "Digit7"@.len());
    reveal_strlit("Digit8");
    assert("AltLeft"@.len() != "Digit8"@.len());
    reveal_strlit("Digit9");
    assert("AltLeft"@.len() != "Digit9"@.len());
    reveal_strlit("Space");
    assert("AltLeft"@.len() != "Space"@.len());
    reveal_strlit("Tab");
    assert("AltLeft"@.len() != "Tab"@.len());
    reveal_strlit("ShiftLeft");
    assert("AltLeft"@.len() != "ShiftLeft"@.len());
    reveal_strlit("ShiftRight");
    assert("AltLeft"@.len() != "ShiftRight"@.len());
    reveal_strlit("ControlLeft");
    assert("AltLeft"@.len() != "ControlLeft"@.len());
}

proof fn lemma_name_bracket_left()
    ensures
        key_of_name("BracketLeft"@) == Some(KeyCode::BracketLeft),
{
    reveal_strlit("BracketLeft");
    reveal_strlit("KeyA");
    assert("BracketLeft"@.len() != "KeyA"@.len());
    reveal_strlit("KeyB");
    assert("BracketLeft"@.len() != "KeyB"@.len());
    reveal_strlit("KeyC");
    assert("BracketLeft"@.len() != "KeyC"@.len());
    reveal_strlit("KeyD");
    assert("BracketLeft"@.len() != "KeyD"@.len());
    reveal_strlit("KeyE");
    assert("BracketLeft"@.len() != "KeyE"@.len());
    reveal_strlit("KeyF");
    assert("BracketLeft"@.len() != "KeyF"@.len());
    reveal_strlit("KeyG");
    assert("BracketLeft"@.len() != "KeyG"@.len());
    reveal_strlit("KeyH");
    assert("BracketLeft"@.len() != "KeyH"@.len());
    reveal_strlit("KeyI");
    assert("BracketLeft"@.len() != "KeyI"@.len());
    reveal_strlit("KeyJ");
    assert("BracketLeft"@.len() != "KeyJ"@.len());
    reveal_strlit("KeyK");
    assert("BracketLeft"@.len() != "KeyK"@.len());
    reveal_strlit("KeyL");
    assert("BracketLeft"@.len() != "KeyL"@.len());
    reveal_strlit("KeyM");
    assert("BracketLeft"@.len() != "KeyM"@.len());
    reveal_strlit("KeyN");
    assert("BracketLeft"@.len() != "KeyN"@.len());
    reveal_strlit("KeyO");
    assert("BracketLeft"@.len() != "KeyO"@.len());
    reveal_strlit("KeyP");
    assert("BracketLeft"@.len() != "KeyP"@.len());
    reveal_strlit("KeyQ");
    assert("BracketLeft"@.len() != "KeyQ"@.len());
    reveal_strlit("KeyR");
    assert("BracketLeft"@.len() != "KeyR"@.len());
    reveal_strlit("KeyS");
    assert("BracketLeft"@.len() != "KeyS"@.len());
    reveal_strlit("KeyT");
    assert("BracketLeft"@.len() != "KeyT"@.len());
    reveal_strlit("KeyU");
    assert("BracketLeft"@.len() != "KeyU"@.len());
    reveal_strlit("KeyV");
    assert("BracketLeft"@.len() != "KeyV"@.len());
    reveal_strlit("KeyW");
    assert("BracketLeft"@.len() != "KeyW"@.len());
    reveal_strlit("KeyX");
    assert("BracketLeft"@.len() != "KeyX"@.len());
    reveal_strlit("KeyY");
    assert("BracketLeft"@.len() != "KeyY"@.len());
    reveal_strlit("KeyZ");
    assert("BracketLeft"@.len() != "KeyZ"@.len());
    reveal_strlit("Digit0");
    assert("BracketLeft"@.len() != "Digit0"@.len());
    reveal_strlit("Digit1");
    assert("BracketLeft"@.len() != "Digit1"@.len());
    reveal_strlit("Digit2");
    assert("BracketLeft"@.len() != "Digit2"@.len());
    reveal_strlit("Digit3");
    assert("BracketLeft"@.len() != "Digit3"@.len());
    reveal_strlit("Digit4");
    assert("BracketLeft"@.len() != "Digit4"@.len());
    reveal_strlit("Digit5");
    assert("BracketLeft"@.len() != "Digit5"@.len());
    reveal_strlit("Digit6");
    assert("BracketLeft"@.len() != "Digit6"@.len());
    reveal_strlit("Digit7");
    assert("BracketLeft"@.len() != "Digit7"@.len());
    reveal_strlit("Digit8");
    assert("BracketLeft"@.len() != "Digit8"@.len());
    reveal_strlit("Digit9");
    assert("BracketLeft"@.len() != "Digit9"@.len());
    reveal_strlit("Space");
    assert("BracketLeft"@.len() != "Space"@.len());
    reveal_strlit("Tab");
    assert("BracketLeft"@.len() != "Tab"@.len());
    reveal_strlit("ShiftLeft");
    assert("BracketLeft"@.len() != "ShiftLeft"@.len());
    reveal_strlit("ShiftRight");
    assert("BracketLeft"@.len() != "ShiftRight"@.len());
    reveal_strlit("ControlLeft");
    assert("BracketLeft"@[0] != "ControlLeft"@[0]);
    reveal_strlit("AltLeft");
    assert("BracketLeft"@.len() != "AltLeft"@.len());
}

proof fn lemma_name_bracket_right()
    ensures
        key_of_name("BracketRight"@) == Some(KeyCode::BracketRight),
{
    reveal_strlit("BracketRight");
    reveal_strlit("KeyA");
    assert("BracketRight"@.len() != "KeyA"@.len());
    reveal_strlit("KeyB");
    assert("BracketRight"@.len() != "KeyB"@.len());
    reveal_strlit("KeyC");
    assert("BracketRight"@.len() != "KeyC"@.len());
    reveal_strlit("KeyD");
    assert("BracketRight"@.len() != "KeyD"@.len());
    reveal_strlit("KeyE");
    assert("BracketRight"@.len() != "KeyE"@.len());
    reveal_strlit("KeyF");
    assert("BracketRight"@.len() != "KeyF"@.len());
    reveal_strlit("KeyG");
    assert("BracketRight"@.len() != "KeyG"@.len());
    reveal_strlit("KeyH");
    assert("BracketRight"@.len() != "KeyH"@.len());
    reveal_strlit("KeyI");
    assert("BracketRight"@.len() != "KeyI"@.len());
    reveal_strlit("KeyJ");
    assert("BracketRight"@.len() != "KeyJ"@.len());
    reveal_strlit("KeyK");
    assert("BracketRight"@.len() != "KeyK"@.len());
    reveal_strlit("KeyL");
    assert("BracketRight"@.len() != "KeyL"@.len());
    reveal_strlit("KeyM");
    assert("BracketRight"@.len() != "KeyM"@.len());
    reveal_strlit("KeyN");
    assert("BracketRight"@.len() != "KeyN"@.len());
    reveal_strlit("KeyO");
    assert("BracketRight"@.len() != "KeyO"@.len());
    reveal_strlit("KeyP");
    assert("BracketRight"@.len() != "KeyP"@.len());
    reveal_strlit("KeyQ");
    assert("BracketRight"@.len() != "KeyQ"@.len());
    reveal_strlit("KeyR");
    assert("BracketRight"@.len() != "KeyR"@.len());
    reveal_strlit("KeyS");
    assert("BracketRight"@.len() != "KeyS"@.len());
    reveal_strlit("KeyT");
    assert("BracketRight"@.len() != "KeyT"@.len());
    reveal_strlit("KeyU");
    assert("BracketRight"@.len() != "KeyU"@.len());
    reveal_strlit("KeyV");
    assert("BracketRight"@.len() != "KeyV"@.len());
    reveal_strlit("KeyW");
    assert("BracketRight"@.len() != "KeyW"@.len());
    reveal_strlit("KeyX");
    assert("BracketRight"@.len() != "KeyX"@.len());
    reveal_strlit("KeyY");
    assert("BracketRight"@.len() != "KeyY"@.len());
    reveal_strlit("KeyZ");
    assert("BracketRight"@.len() != "KeyZ"@.len());
    reveal_strlit("Digit0");
    assert("BracketRight"@.len() != "Digit0"@.len());
    reveal_strlit("Digit1");
    assert("BracketRight"@.len() != "Digit1"@.len());
    reveal_strlit("Digit2");
    assert("BracketRight"@.len() != "Digit2"@.len());
    reveal_strlit("Digit3");
    assert("BracketRight"@.len() != "Digit3"@.len());
    reveal_strlit("Digit4");
    assert("BracketRight"@.len() != "Digit4"@.len());
    reveal_strlit("Digit5");
    assert("BracketRight"@.len() != "Digit5"@.len());
    reveal_strlit("Digit6");
    assert("BracketRight"@.len() != "Digit6"@.len());
    reveal_strlit("Digit7");
    assert("BracketRight"@.len() != "Digit7"@.len());
    reveal_strlit("Digit8");
    assert("BracketRight"@.len() != "Digit8"@.len());
    reveal_strlit("Digit9");
    assert("BracketRight"@.len() != "Digit9"@.len());
    reveal_strlit("Space");
    assert("BracketRight"@.len() != "Space"@.len());
    reveal_strlit("Tab");
    assert("BracketRight"@.len() != "Tab"@.len());
    reveal_strlit("ShiftLeft");
    assert("BracketRight"@.len() != "ShiftLeft"@.len());
    reveal_strlit("ShiftRight");
    assert("BracketRight"@.len() != "ShiftRight"@.len());
    reveal_strlit("ControlLeft");
    assert("BracketRight"@.len() != "ControlLeft"@.len());
    reveal_strlit("AltLeft");
    assert("BracketRight"@.len() != "AltLeft"@.len());
    reveal_strlit("BracketLeft");
    assert("BracketRight"@.len() != "BracketLeft"@.len());
}

proof fn lemma_name_comma()
    ensures
        key_of_name("Comma"@) == Some(KeyCode::Comma),
{
    reveal_strlit("Comma");
    reveal_strlit("KeyA");
    assert("Comma"@.len() != "KeyA"@.len());
    reveal_strlit("KeyB");
    assert("Comma"@.len() != "KeyB"@.len());
    reveal_strlit("KeyC");
    assert("Comma"@.len() != "KeyC"@.len());
    reveal_strlit("KeyD");
    assert("Comma"@.len() != "KeyD"@.len());
    reveal_strlit("KeyE");
    assert("Comma"@.len() != "KeyE"@.len());
    reveal_strlit("KeyF");
    assert("Comma"@.len() != "KeyF"@.len());
    reveal_strlit("KeyG");
    assert("Comma"@.len() != "KeyG"@.len());
    reveal_strlit("KeyH");
    assert("Comma"@.len() != "KeyH"@.len());
    reveal_strlit("KeyI");
    assert("Comma"@.len() != "KeyI"@.len());
    reveal_strlit("KeyJ");
    assert("Comma"@.len() != "KeyJ"@.len());
    reveal_strlit("KeyK");
    assert("Comma"@.len() != "KeyK"@.len());
    reveal_strlit("KeyL");
    assert("Comma"@.len() != "KeyL"@.len());
    reveal_strlit("KeyM");
    assert("Comma"@.len() != "KeyM"@.len());
    reveal_strlit("KeyN");
    assert("Comma"@.len() != "KeyN"@.len());
    reveal_strlit("KeyO");
    assert("Comma"@.len() != "KeyO"@.len());
    reveal_strlit("KeyP");
    assert("Comma"@.len() != "KeyP"@.len());
    reveal_strlit("KeyQ");
    assert("Comma"@.len() != "KeyQ"@.len());
    reveal_strlit("KeyR");
    assert("Comma"@.len() != "KeyR"@.len());
    reveal_strlit("KeyS");
    assert("Comma"@.len() != "KeyS"@.len());
    reveal_strlit("KeyT");
    assert("Comma"@.len() != "KeyT"@.len());
    reveal_strlit("KeyU");
    assert("Comma"@.len() != "KeyU"@.len());
    reveal_strlit("KeyV");
    assert("Comma"@.len() != "KeyV"@.len());
    reveal_strlit("KeyW");
    assert("Comma"@.len() != "KeyW"@.len());
    reveal_strlit("KeyX");
    assert("Comma"@.len() != "KeyX"@.len());
    reveal_strlit("KeyY");
    assert("Comma"@.len() != "KeyY"@.len());
    reveal_strlit("KeyZ");
    assert("Comma"@.len() != "KeyZ"@.len());
    reveal_strlit("Digit0");
    assert("Comma"@.len() != "Digit0"@.len());
    reveal_strlit("Digit1");
    assert("Comma"@.len() != "Digit1"@.len());
    reveal_strlit("Digit2");
    assert("Comma"@.len() != "Digit2"@.len());
    reveal_strlit("Digit3");
    assert("Comma"@.len() != "Digit3"@.len());
    reveal_strlit("Digit4");
    assert("Comma"@.len() != "Digit4"@.len());
    reveal_strlit("Digit5");
    assert("Comma"@.len() != "Digit5"@.len());
    reveal_strlit("Digit6");
    assert("Comma"@.len() != "Digit6"@.len());
    reveal_strlit("Digit7");
    assert("Comma"@.len() != "Digit7"@.len());
    reveal_strlit("Digit8");
    assert("Comma"@.len() != "Digit8"@.len());
    reveal_strlit("Digit9");
    assert("Comma"@.len() != "Digit9"@.len());
    reveal_strlit("Space");
    assert("Comma"@[0] != "Space"@[0]);
    reveal_strlit("Tab");
    assert("Comma"@.len() != "Tab"@.len());
    reveal_strlit("ShiftLeft");
    assert("Comma"@.len() != "ShiftLeft"@.len());
    reveal_strlit("ShiftRight");
    assert("Comma"@.len() != "ShiftRight"@.len());
    reveal_strlit("ControlLeft");
    assert("Comma"@.len() != "ControlLeft"@.len());
    reveal_strlit("AltLeft");
    assert("Comma"@.len() != "AltLeft"@.len());
    reveal_strlit("BracketLeft");
    assert("Comma"@.len() != "BracketLeft"@.len());
    reveal_strlit("BracketRight");
    assert("Comma"@.len() != "BracketRight"@.len());
}

proof fn lemma_name_period()
    ensures
        key_of_name("Period"@) == Some(KeyCode::Period),
{
    reveal_strlit("Period");
    reveal_strlit("KeyA");
    assert("Period"@.len() != "KeyA"@.len());
    reveal_strlit("KeyB");
    assert("Period"@.len() != "KeyB"@.len());
    reveal_strlit("KeyC");
    assert("Period"@.len() != "KeyC"@.len());
    reveal_strlit("KeyD");
    assert("Period"@.len() != "KeyD"@.len());
    reveal_strlit("KeyE");
    assert("Period"@.len() != "KeyE"@.len());
    reveal_strlit("KeyF");
    assert("Period"@.len() != "KeyF"@.len());
    reveal_strlit("KeyG");
    assert("Period"@.len() != "KeyG"@.len());
    reveal_strlit("KeyH");
    assert("Period"@.len() != "KeyH"@.len());
    reveal_strlit("KeyI");
    assert("Period"@.len() != "KeyI"@.len());
    reveal_strlit("KeyJ");
    assert("Period"@.len() != "KeyJ"@.len());
    reveal_strlit("KeyK");
    assert("Period"@.len() != "KeyK"@.len());
    reveal_strlit("KeyL");
    assert("Period"@.len() != "KeyL"@.len());
    reveal_strlit("KeyM");
    assert("Period"@.len() != "KeyM"@.len());
    reveal_strlit("KeyN");
    assert("Period"@.len() != "KeyN"@.len());
    reveal_strlit("KeyO");
    assert("Period"@.len() != "KeyO"@.len());
    reveal_strlit("KeyP");
    assert("Period"@.len() != "KeyP"@.len());
    reveal_strlit("KeyQ");
    assert("Period"@.len() != "KeyQ"@.len());
    reveal_strlit("KeyR");
    assert("Period"@.len() != "KeyR"@.len());
    reveal_strlit("KeyS");
    assert("Period"@.len() != "KeyS"@.len());
    reveal_strlit("KeyT");
    assert("Period"@.len() != "KeyT"@.len());
    reveal_strlit("KeyU");
    assert("Period"@.len() != "KeyU"@.len());
    reveal_strlit("KeyV");
    assert("Period"@.len() != "KeyV"@.len());
    reveal_strlit("KeyW");
    assert("Period"@.len() != "KeyW"@.len());
    reveal_strlit("KeyX");
    assert("Period"@.len() != "KeyX"@.len());
    reveal_strlit("KeyY");
    assert("Period"@.len() != "KeyY"@.len());
    reveal_strlit("KeyZ");
    assert("Period"@.len() != "KeyZ"@.len());
    reveal_strlit("Digit0");
    assert("Period"@[0] != "Digit0"@[0]);
    reveal_strlit("Digit1");
    assert("Period"@[0] != "Digit1"@[0]);
    reveal_strlit("Digit2");
    assert("Period"@[0] != "Digit2"@[0]);
    reveal_strlit("Digit3");
    assert("Period"@[0] != "Digit3"@[0]);
    reveal_strlit("Digit4");
    assert("Period"@[0] != "Digit4"@[0]);
    reveal_strlit("Digit5");
    assert("Period"@[0] != "Digit5"@[0]);
    reveal_strlit("Digit6");
    assert("Period"@[0] != "Digit6"@[0]);
    reveal_strlit("Digit7");
    assert("Period"@[0] != "Digit7"@[0]);
    reveal_strlit("Digit8");
    assert("Period"@[0] != "Digit8"@[0]);
    reveal_strlit("Digit9");
    assert("Period"@[0] != "Digit9"@[0]);
    reveal_strlit("Space");
    assert("Period"@.len() != "Space"@.len());
    reveal_strlit("Tab");
    assert("Period"@.len() != "Tab"@.len());
    reveal_strlit("ShiftLeft");
    assert("Period"@.len() != "ShiftLeft"@.len());
    reveal_strlit("ShiftRight");
    assert("Period"@.len() != "ShiftRight"@.len());
    reveal_strlit("ControlLeft");
    assert("Period"@.len() != "ControlLeft"@.len());
    reveal_strlit("AltLeft");
    assert("Period"@.len() != "AltLeft"@.len());
    reveal_strlit("BracketLeft");
    assert("Period"@.len() != "BracketLeft"@.len());
    reveal_strlit("BracketRight");
    assert("Period"@.len() != "BracketRight"@.len());
    reveal_strlit("Comma");
    assert("Period"@.len() != "Comma"@.len());
}

proof fn lemma_name_slash()
    ensures
        key_of_name("Slash"@) == Some(KeyCode::Slash),
{
    reveal_strlit("Slash");
    reveal_strlit("KeyA");
    assert("Slash"@.len() != "KeyA"@.len());
    reveal_strlit("KeyB");
    assert("Slash"@.len() != "KeyB"@.len());
    reveal_strlit("KeyC");
    assert("Slash"@.len() != "KeyC"@.len());
    reveal_strlit("KeyD");
    assert("Slash"@.len() != "KeyD"@.len());
    reveal_strlit("KeyE");
    assert("Slash"@.len() != "KeyE"@.len());
    reveal_strlit("KeyF");
    assert("Slash"@.len() != "KeyF"@.len());
    reveal_strlit("KeyG");
    assert("Slash"@.len() != "KeyG"@.len());
    reveal_strlit("KeyH");
    assert("Slash"@.len() != "KeyH"@.len());
    reveal_strlit("KeyI");
    assert("Slash"@.len() != "KeyI"@.len());
    reveal_strlit("KeyJ");
    assert("Slash"@.len() != "KeyJ"@.len());
    reveal_strlit("KeyK");
    assert("Slash"@.len() != "KeyK"@.len());
    reveal_strlit("KeyL");
    assert("Slash"@.len() != "KeyL"@.len());
    reveal_strlit("KeyM");
    assert("Slash"@.len() != "KeyM"@.len());
    reveal_strlit("KeyN");
    assert("Slash"@.len() != "KeyN"@.len());
    reveal_strlit("KeyO");
    assert("Slash"@.len() != "KeyO"@.len());
    reveal_strlit("KeyP");
    assert("Slash"@.len() != "KeyP"@.len());
    reveal_strlit("KeyQ");
    assert("Slash"@.len() != "KeyQ"@.len());
    reveal_strlit("KeyR");
    assert("Slash"@.len() != "KeyR"@.len());
    reveal_strlit("KeyS");
    assert("Slash"@.len() != "KeyS"@.len());
    reveal_strlit("KeyT");
    assert("Slash"@.len() != "KeyT"@.len());
    reveal_strlit("KeyU");
    assert("Slash"@.len() != "KeyU"@.len());
    reveal_strlit("KeyV");
    assert("Slash"@.len() != "KeyV"@.len());
    reveal_strlit("KeyW");
    assert("Slash"@.len() != "KeyW"@.len());
    reveal_strlit("KeyX");
    assert("Slash"@.len() != "KeyX"@.len());
    reveal_strlit("KeyY");
    assert("Slash"@.len() != "KeyY"@.len());
    reveal_strlit("KeyZ");
    assert("Slash"@.len() != "KeyZ"@.len());
    reveal_strlit("Digit0");
    assert("Slash"@.len() != "Digit0"@.len());
    reveal_strlit("Digit1");
    assert("Slash"@.len() != "Digit1"@.len());
    reveal_strlit("Digit2");
    assert("Slash"@.len() != "Digit2"@.len());
    reveal_strlit("Digit3");
    assert("Slash"@.len() != "Digit3"@.len());
    reveal_strlit("Digit4");
    assert("Slash"@.len() != "Digit4"@.len());
    reveal_strlit("Digit5");
    assert("Slash"@.len() != "Digit5"@.len());
    reveal_strlit("Digit6");
    assert("Slash"@.len() != "Digit6"@.len());
    reveal_strlit("Digit7");
    assert("Slash"@.len() != "Digit7"@.len());
    reveal_strlit("Digit8");
    assert("Slash"@.len() != "Digit8"@.len());
    reveal_strlit("Digit9");
    assert("Slash"@.len() != "Digit9"@.len());
    reveal_strlit("Space");
    assert("Slash"@[1] != "Space"@[1]);
    reveal_strlit("Tab");
    assert("Slash"@.len() != "Tab"@.len());
    reveal_strlit("ShiftLeft");
    assert("Slash"@.len() != "ShiftLeft"@.len());
    reveal_strlit("ShiftRight");
    assert("Slash"@.len() != "ShiftRight"@.len());
    reveal_strlit("ControlLeft");
    assert("Slash"@.len() != "ControlLeft"@.len());
    reveal_strlit("AltLeft");
    assert("Slash"@.len() != "AltLeft"@.len());
    reveal_strlit("BracketLeft");
    assert("Slash"@.len() != "BracketLeft"@.len());
    reveal_strlit("BracketRight");
    assert("Slash"@.len() != "BracketRight"@.len());
    reveal_strlit("Comma");
    assert("Slash"@[0] != "Comma"@[0]);
    reveal_strlit("Period");
    assert("Slash"@.len() != "Period"@.len());
}

proof fn lemma_name_semicolon()
    ensures
        key_of_name("Semicolon"@) == Some(KeyCode::Semicolon),
{
    reveal_strlit("Semicolon");
    reveal_strlit("KeyA");
    assert("Semicolon"@.len() != "KeyA"@.len());
    reveal_strlit("KeyB");
    assert("Semicolon"@.len() != "KeyB"@.len());
    reveal_strlit("KeyC");
    assert("Semicolon"@.len() != "KeyC"@.len());
    reveal_strlit("KeyD");
    assert("Semicolon"@.len() != "KeyD"@.len());
    reveal_strlit("KeyE");
    assert("Semicolon"@.len() != "KeyE"@.len());
    reveal_strlit("KeyF");
    assert("Semicolon"@.len() != "KeyF"@.len());
    reveal_strlit("KeyG");
    assert("Semicolon"@.len() != "KeyG"@.len());
    reveal_strlit("KeyH");
    assert("Semicolon"@.len() != "KeyH"@.len());
    reveal_strlit("KeyI");
    assert("Semicolon"@.len() != "KeyI"@.len());
    reveal_strlit("KeyJ");
    assert("Semicolon"@.len() != "KeyJ"@.len());
    reveal_strlit("KeyK");
    assert("Semicolon"@.len() != "KeyK"@.len());
    reveal_strlit("KeyL");
    assert("Semicolon"@.len() != "KeyL"@.len());
    reveal_strlit("KeyM");
    assert("Semicolon"@.len() != "KeyM"@.len());
    reveal_strlit("KeyN");
    assert("Semicolon"@.len() != "KeyN"@.len());
    reveal_strlit("KeyO");
    assert("Semicolon"@.len() != "KeyO"@.len());
    reveal_strlit("KeyP");
    assert("Semicolon"@.len() != "KeyP"@.len());
    reveal_strlit("KeyQ");
    assert("Semicolon"@.len() != "KeyQ"@.len());
    reveal_strlit("KeyR");
    assert("Semicolon"@.len() != "KeyR"@.len());
    reveal_strlit("KeyS");
    assert("Semicolon"@.len() != "KeyS"@.len());
    reveal_strlit("KeyT");
    assert("Semicolon"@.len() != "KeyT"@.len());
    reveal_strlit("KeyU");
    assert("Semicolon"@.len() != "KeyU"@.len());
    reveal_strlit("KeyV");
    assert("Semicolon"@.len() != "KeyV"@.len());
    reveal_strlit("KeyW");
    assert("Semicolon"@.len() != "KeyW"@.len());
    reveal_strlit("KeyX");
    assert("Semicolon"@.len() != "KeyX"@.len());
    reveal_strlit("KeyY");
    assert("Semicolon"@.len() != "KeyY"@.len());
    reveal_strlit("KeyZ");
    assert("Semicolon"@.len() != "KeyZ"@.len());
    reveal_strlit("Digit0");
    assert("Semicolon"@.len() != "Digit0"@.len());
    reveal_strlit("Digit1");
    assert("Semicolon"@.len() != "Digit1"@.len());
    reveal_strlit("Digit2");
    assert("Semicolon"@.len() != "Digit2"@.len());
    reveal_strlit("Digit3");
    assert("Semicolon"@.len() != "Digit3"@.len());
    reveal_strlit("Digit4");
    assert("Semicolon"@.len() != "Digit4"@.len());
    reveal_strlit("Digit5");
    assert("Semicolon"@.len() != "Digit5"@.len());
    reveal_strlit("Digit6");
    assert("Semicolon"@.len() != "Digit6"@.len());
    reveal_strlit("Digit7");
    assert("Semicolon"@.len() != "Digit7"@.len());
    reveal_strlit("Digit8");
    assert("Semicolon"@.len() != "Digit8"@.len());
    reveal_strlit("Digit9");
    assert("Semicolon"@.len() != "Digit9"@.len());
    reveal_strlit("Space");
    assert("Semicolon"@.len() != "Space"@.len());
    reveal_strlit("Tab");
    assert("Semicolon"@.len() != "Tab"@.len());
    reveal_strlit("ShiftLeft");
    assert("Semicolon"@[1] != "ShiftLeft"@[1]);
    reveal_strlit("ShiftRight");
    assert("Semicolon"@.len() != "ShiftRight"@.len());
    reveal_strlit("ControlLeft");
    assert("Semicolon"@.len() != "ControlLeft"@.len());
    reveal_strlit("AltLeft");
    assert("Semicolon"@.len() != "AltLeft"@.len());
    reveal_strlit("BracketLeft");
    assert("Semicolon"@.len() != "BracketLeft"@.len());
    reveal_strlit("BracketRight");
    assert("Semicolon"@.len() != "BracketRight"@.len());
    reveal_strlit("Comma");
    assert("Semicolon"@.len() != "Comma"@.len());
    reveal_strlit("Period");
    assert("Semicolon"@.len() != "Period"@.len());
    reveal_strlit("Slash");
    assert("Semicolon"@.len() != "Slash"@.len());
}

proof fn lemma_name_quote()
    ensures
        key_of_name("Quote"@) == Some(KeyCode::Quote),
{
    reveal_strlit("Quote");
    reveal_strlit("KeyA");
    assert("Quote"@.len() != "KeyA"@.len());
    reveal_strlit("KeyB");
    assert("Quote"@.len() != "KeyB"@.len());
    reveal_strlit("KeyC");
    assert("Quote"@.len() != "KeyC"@.len());
    reveal_strlit("KeyD");
    assert("Quote"@.len() != "KeyD"@.len());
    reveal_strlit("KeyE");
    assert("Quote"@.len() != "KeyE"@.len());
    reveal_strlit("KeyF");
    assert("Quote"@.len() != "KeyF"@.len());
    reveal_strlit("KeyG");
    assert("Quote"@.len() != "KeyG"@.len());
    reveal_strlit("KeyH");
    assert("Quote"@.len() != "KeyH"@.len());
    reveal_strlit("KeyI");
    assert("Quote"@.len() != "KeyI"@.len());
    reveal_strlit("KeyJ");
    assert("Quote"@.len() != "KeyJ"@.len());
    reveal_strlit("KeyK");
    assert("Quote"@.len() != "KeyK"@.len());
    reveal_strlit("KeyL");
    assert("Quote"@.len() != "KeyL"@.len());
    reveal_strlit("KeyM");
    assert("Quote"@.len() != "KeyM"@.len());
    reveal_strlit("KeyN");
    assert("Quote"@.len() != "KeyN"@.len());
    reveal_strlit("KeyO");
    assert("Quote"@.len() != "KeyO"@.len());
    reveal_strlit("KeyP");
    assert("Quote"@.len() != "KeyP"@.len());
    reveal_strlit("KeyQ");
    assert("Quote"@.len() != "KeyQ"@.len());
    reveal_strlit("KeyR");
    assert("Quote"@.len() != "KeyR"@.len());
    reveal_strlit("KeyS");
    assert("Quote"@.len() != "KeyS"@.len());
    reveal_strlit("KeyT");
    assert("Quote"@.len() != "KeyT"@.len());
    reveal_strlit("KeyU");
    assert("Quote"@.len() != "KeyU"@.len());
    reveal_strlit("KeyV");
    assert("Quote"@.len() != "KeyV"@.len());
    reveal_strlit("KeyW");
    assert("Quote"@.len() != "KeyW"@.len());
    reveal_strlit("KeyX");
    assert("Quote"@.len() != "KeyX"@.len());
    reveal_strlit("KeyY");
    assert("Quote"@.len() != "KeyY"@.len());
    reveal_strlit("KeyZ");
    assert("Quote"@.len() != "KeyZ"@.len());
    reveal_strlit("Digit0");
    assert("Quote"@.len() != "Digit0"@.len());
    reveal_strlit("Digit1");
    assert("Quote"@.len() != "Digit1"@.len());
    reveal_strlit("Digit2");
    assert("Quote"@.len() != "Digit2"@.len());
    reveal_strlit("Digit3");
    assert("Quote"@.len() != "Digit3"@.len());
    reveal_strlit("Digit4");
    assert("Quote"@.len() != "Digit4"@.len());
    reveal_strlit("Digit5");
    assert("Quote"@.len() != "Digit5"@.len());
    reveal_strlit("Digit6");
    assert("Quote"@.len() != "Digit6"@.len());
    reveal_strlit("Digit7");
    assert("Quote"@.len() != "Digit7"@.len());
    reveal_strlit("Digit8");
    assert("Quote"@.len() != "Digit8"@.len());
    reveal_strlit("Digit9");
    assert("Quote"@.len() != "Digit9"@.len());
    reveal_strlit("Space");
    assert("Quote"@[0] != "Space"@[0]);
    reveal_strlit("Tab");
    assert("Quote"@.len() != "Tab"@.len());
    reveal_strlit("ShiftLeft");
    assert("Quote"@.len() != "ShiftLeft"@.len());
    reveal_strlit("ShiftRight");
    assert("Quote"@.len() != "ShiftRight"@.len());
    reveal_strlit("ControlLeft");
    assert("Quote"@.len() != "ControlLeft"@.len());
    reveal_strlit("AltLeft");
    assert("Quote"@.len() != "AltLeft"@.len());
    reveal_strlit("BracketLeft");
    assert("Quote"@.len() != "BracketLeft"@.len());
    reveal_strlit("BracketRight");
    assert("Quote"@.len() != "BracketRight"@.len());
    reveal_strlit("Comma");
    assert("Quote"@[0] != "Comma"@[0]);
    reveal_strlit("Period");
    assert("Quote"@.len() != "Period"@.len());
    reveal_strlit("Slash");
    assert("Quote"@[0] != "Slash"@[0]);
    reveal_strlit("Semicolon");
    assert("Quote"@.len() != "Semicolon"@.len());
}

proof fn lemma_name_backquote()
    ensures
        key_of_name("Backquote"@) == Some(KeyCode::Backquote),
{
    reveal_strlit("Backquote");
    reveal_strlit("KeyA");
    assert("Backquote"@.len() != "KeyA"@.len());
    reveal_strlit("KeyB");
    assert("Backquote"@.len() != "KeyB"@.len());
    reveal_strlit("KeyC");
    assert("Backquote"@.len() != "KeyC"@.len());
    reveal_strlit("KeyD");
    assert("Backquote"@.len() != "KeyD"@.len());
    reveal_strlit("KeyE");
    assert("Backquote"@.len() != "KeyE"@.len());
    reveal_strlit("KeyF");
    assert("Backquote"@.len() != "KeyF"@.len());
    reveal_strlit("KeyG");
    assert("Backquote"@.len() != "KeyG"@.len());
    reveal_strlit("KeyH");
    assert("Backquote"@.len() != "KeyH"@.len());
    reveal_strlit("KeyI");
    assert("Backquote"@.len() != "KeyI"@.len());
    reveal_strlit("KeyJ");
    assert("Backquote"@.len() != "KeyJ"@.len());
    reveal_strlit("KeyK");
    assert("Backquote"@.len() != "KeyK"@.len());
    reveal_strlit("KeyL");
    assert("Backquote"@.len() != "KeyL"@.len());
    reveal_strlit("KeyM");
    assert("Backquote"@.len() != "KeyM"@.len());
    reveal_strlit("KeyN");
    assert("Backquote"@.len() != "KeyN"@.len());
    reveal_strlit("KeyO");
    assert("Backquote"@.len() != "KeyO"@.len());
    reveal_strlit("KeyP");
    assert("Backquote"@.len() != "KeyP"@.len());
    reveal_strlit("KeyQ");
    assert("Backquote"@.len() != "KeyQ"@.len());
    reveal_strlit("KeyR");
    assert("Backquote"@.len() != "KeyR"@.len());
    reveal_strlit("KeyS");
    assert("Backquote"@.len() != "KeyS"@.len());
    reveal_strlit("KeyT");
    assert("Backquote"@.len() != "KeyT"@.len());
    reveal_strlit("KeyU");
    assert("Backquote"@.len() != "KeyU"@.len());
    reveal_strlit("KeyV");
    assert("Backquote"@.len() != "KeyV"@.len());
    reveal_strlit("KeyW");
    assert("Backquote"@.len() != "KeyW"@.len());
    reveal_strlit("KeyX");
    assert("Backquote"@.len() != "KeyX"@.len());
    reveal_strlit("KeyY");
    assert("Backquote"@.len() != "KeyY"@.len());
    reveal_strlit("KeyZ");
    assert("Backquote"@.len() != "KeyZ"@.len());
    reveal_strlit("Digit0");
    assert("Backquote"@.len() != "Digit0"@.len());
    reveal_strlit("Digit1");
    assert("Backquote"@.len() != "Digit1"@.len());
    reveal_strlit("Digit2");
    assert("Backquote"@.len() != "Digit2"@.len());
    reveal_strlit("Digit3");
    assert("Backquote"@.len() != "Digit3"@.len());
    reveal_strlit("Digit4");
    assert("Backquote"@.len() != "Digit4"@.len());
    reveal_strlit("Digit5");
    assert("Backquote"@.len() != "Digit5"@.len());
    reveal_strlit("Digit6");
    assert("Backquote"@.len() != "Digit6"@.len());
    reveal_strlit("Digit7");
    assert("Backquote"@.len() != "Digit7"@.len());
    reveal_strlit("Digit8");
    assert("Backquote"@.len() != "Digit8"@.len());
    reveal_strlit("Digit9");
    assert("Backquote"@.len() != "Digit9"@.len());
    reveal_strlit("Space");
    assert("Backquote"@.len() != "Space"@.len());
    reveal_strlit("Tab");
    assert("Backquote"@.len() != "Tab"@.len());
    reveal_strlit("ShiftLeft");
    assert("Backquote"@[0] != "ShiftLeft"@[0]);
    reveal_strlit("ShiftRight");
    assert("Backquote"@.len() != "ShiftRight"@.len());
    reveal_strlit("ControlLeft");
    assert("Backquote"@.len() != "ControlLeft"@.len());
    reveal_strlit("AltLeft");
    assert("Backquote"@.len() != "AltLeft"@.len());
    reveal_strlit("BracketLeft");
    assert("Backquote"@.len() != "BracketLeft"@.len());
    reveal_strlit("BracketRight");
    assert("Backquote"@.len() != "BracketRight"@.len());
    reveal_strlit("Comma");
    assert("Backquote"@.len() != "Comma"@.len());
    reveal_strlit("Period");
    assert("Backquote"@.len() != "Period"@.len());
    reveal_strlit("Slash");
    assert("Backquote"@.len() != "Slash"@.len());
    reveal_strlit("Semicolon");
    assert("Backquote"@[0] != "Semicolon"@[0]);
    reveal_strlit("Quote");
    assert("Backquote"@.len() != "Quote"@.len());
}

proof fn lemma_name_minus()
    ensures
        key_of_name("Minus"@) == Some(KeyCode::Minus),
{
    reveal_strlit("Minus");
    reveal_strlit("KeyA");
    assert("Minus"@.len() != "KeyA"@.len());
    reveal_strlit("KeyB");
    assert("Minus"@.len() != "KeyB"@.len());
    reveal_strlit("KeyC");
    assert("Minus"@.len() != "KeyC"@.len());
    reveal_strlit("KeyD");
    assert("Minus"@.len() != "KeyD"@.len());
    reveal_strlit("KeyE");
    assert("Minus"@.len() != "KeyE"@.len());
    reveal_strlit("KeyF");
    assert("Minus"@.len() != "KeyF"@.len());
    reveal_strlit("KeyG");
    assert("Minus"@.len() != "KeyG"@.len());
    reveal_strlit("KeyH");
    assert("Minus"@.len() != "KeyH"@.len());
    reveal_strlit("KeyI");
    assert("Minus"@.len() != "KeyI"@.len());
    reveal_strlit("KeyJ");
    assert("Minus"@.len() != "KeyJ"@.len());
    reveal_strlit("KeyK");
    assert("Minus"@.len() != "KeyK"@.len());
    reveal_strlit("KeyL");
    assert("Minus"@.len() != "KeyL"@.len());
    reveal_strlit("KeyM");
    assert("Minus"@.len() != "KeyM"@.len());
    reveal_strlit("KeyN");
    assert("Minus"@.len() != "KeyN"@.len());
    reveal_strlit("KeyO");
    assert("Minus"@.len() != "KeyO"@.len());
    reveal_strlit("KeyP");
    assert("Minus"@.len() != "KeyP"@.len());
    reveal_strlit("KeyQ");
    assert("Minus"@.len() != "KeyQ"@.len());
    reveal_strlit("KeyR");
    assert("Minus"@.len() != "KeyR"@.len());
    reveal_strlit("KeyS");
    assert("Minus"@.len() != "KeyS"@.len());
    reveal_strlit("KeyT");
    assert("Minus"@.len() != "KeyT"@.len());
    reveal_strlit("KeyU");
    assert("Minus"@.len() != "KeyU"@.len());
    reveal_strlit("KeyV");
    assert("Minus"@.len() != "KeyV"@.len());
    reveal_strlit("KeyW");
    assert("Minus"@.len() != "KeyW"@.len());
    reveal_strlit("KeyX");
    assert("Minus"@.len() != "KeyX"@.len());
    reveal_strlit("KeyY");
    assert("Minus"@.len() != "KeyY"@.len());
    reveal_strlit("KeyZ");
    assert("Minus"@.len() != "KeyZ"@.len());
    reveal_strlit("Digit0");
    assert("Minus"@.len() != "Digit0"@.len());
    reveal_strlit("Digit1");
    assert("Minus"@.len() != "Digit1"@.len());
    reveal_strlit("Digit2");
    assert("Minus"@.len() != "Digit2"@.len());
    reveal_strlit("Digit3");
    assert("Minus"@.len() != "Digit3"@.len());
    reveal_strlit("Digit4");
    assert("Minus"@.len() != "Digit4"@.len());
    reveal_strlit("Digit5");
    assert("Minus"@.len() != "Digit5"@.len());
    reveal_strlit("Digit6");
    assert("Minus"@.len() != "Digit6"@.len());
    reveal_strlit("Digit7");
    assert("Minus"@.len() != "Digit7"@.len());
    reveal_strlit("Digit8");
    assert("Minus"@.len() != "Digit8"@.len());
    reveal_strlit("Digit9");
    assert("Minus"@.len() != "Digit9"@.len());
    reveal_strlit("Space");
    assert("Minus"@[0] != "Space"@[0]);
    reveal_strlit("Tab");
    assert("Minus"@.len() != "Tab"@.len());
    reveal_strlit("ShiftLeft");
    assert("Minus"@.len() != "ShiftLeft"@.len());
    reveal_strlit("ShiftRight");
    assert("Minus"@.len() != "ShiftRight"@.len());
    reveal_strlit("ControlLeft");
    assert("Minus"@.len() != "ControlLeft"@.len());
    reveal_strlit("AltLeft");
    assert("Minus"@.len() != "AltLeft"@.len());
    reveal_strlit("BracketLeft");
    assert("Minus"@.len() != "BracketLeft"@.len());
    reveal_strlit("BracketRight");
    assert("Minus"@.len() != "BracketRight"@.len());
    reveal_strlit("Comma");
    assert("Minus"@[0] != "Comma"@[0]);
    reveal_strlit("Period");
    assert("Minus"@.len() != "Period"@.len());
    reveal_strlit("Slash");
    assert("Minus"@[0] != "Slash"@[0]);
    reveal_strlit("Semicolon");
    assert("Minus"@.len() != "Semicolon"@.len());
    reveal_strlit("Quote");
    assert("Minus"@[0] != "Quote"@[0]);
    reveal_strlit("Backquote");
    assert("Minus"@.len() != "Backquote"@.len());
}

proof fn lemma_name_equal()
    ensures
        key_of_name("Equal"@) == Some(KeyCode::Equal),
{
    reveal_strlit("Equal");
    reveal_strlit("KeyA");
    assert("Equal"@.len() != "KeyA"@.len());
    reveal_strlit("KeyB");
    assert("Equal"@.len() != "KeyB"@.len());
    reveal_strlit("KeyC");
    assert("Equal"@.len() != "KeyC"@.len());
    reveal_strlit("KeyD");
    assert("Equal"@.len() != "KeyD"@.len());
    reveal_strlit("KeyE");
    assert("Equal"@.len() != "KeyE"@.len());
    reveal_strlit("KeyF");
    assert("Equal"@.len() != "KeyF"@.len());
    reveal_strlit("KeyG");
    assert("Equal"@.len() != "KeyG"@.len());
    reveal_strlit("KeyH");
    assert("Equal"@.len() != "KeyH"@.len());
    reveal_strlit("KeyI");
    assert("Equal"@.len() != "KeyI"@.len());
    reveal_strlit("KeyJ");
    assert("Equal"@.len() != "KeyJ"@.len());
    reveal_strlit("KeyK");
    assert("Equal"@.len() != "KeyK"@.len());
    reveal_strlit("KeyL");
    assert("Equal"@.len() != "KeyL"@.len());
    reveal_strlit("KeyM");
    assert("Equal"@.len() != "KeyM"@.len());
    reveal_strlit("KeyN");
    assert("Equal"@.len() != "KeyN"@.len());
    reveal_strlit("KeyO");
    assert("Equal"@.len() != "KeyO"@.len());
    reveal_strlit("KeyP");
    assert("Equal"@.len() != "KeyP"@.len());
    reveal_strlit("KeyQ");
    assert("Equal"@.len() != "KeyQ"@.len());
    reveal_strlit("KeyR");
    assert("Equal"@.len() != "KeyR"@.len());
    reveal_strlit("KeyS");
    assert("Equal"@.len() != "KeyS"@.len());
    reveal_strlit("KeyT");
    assert("Equal"@.len() != "KeyT"@.len());
    reveal_strlit("KeyU");
    assert("Equal"@.len() != "KeyU"@.len());
    reveal_strlit("KeyV");
    assert("Equal"@.len() != "KeyV"@.len());
    reveal_strlit("KeyW");
    assert("Equal"@.len() != "KeyW"@.len());
    reveal_strlit("KeyX");
    assert("Equal"@.len() != "KeyX"@.len());
    reveal_strlit("KeyY");
    assert("Equal"@.len() != "KeyY"@.len());
    reveal_strlit("KeyZ");
    assert("Equal"@.len() != "KeyZ"@.len());
    reveal_strlit("Digit0");
    assert("Equal"@.len() != "Digit0"@.len());
    reveal_strlit("Digit1");
    assert("Equal"@.len() != "Digit1"@.len());
    reveal_strlit("Digit2");
    assert("Equal"@.len() != "Digit2"@.len());
    reveal_strlit("Digit3");
    assert("Equal"@.len() != "Digit3"@.len());
    reveal_strlit("Digit4");
    assert("Equal"@.len() != "Digit4"@.len());
    reveal_strlit("Digit5");
    assert("Equal"@.len() != "Digit5"@.len());
    reveal_strlit("Digit6");
    assert("Equal"@.len() != "Digit6"@.len());
    reveal_strlit("Digit7");
    assert("Equal"@.len() != "Digit7"@.len());
    reveal_strlit("Digit8");
    assert("Equal"@.len() != "Digit8"@.len());
    reveal_strlit("Digit9");
    assert("Equal"@.len() != "Digit9"@.len());
    reveal_strlit("Space");
    assert("Equal"@[0] != "Space"@[0]);
    reveal_strlit("Tab");
    assert("Equal"@.len() != "Tab"@.len());
    reveal_strlit("ShiftLeft");
    assert("Equal"@.len() != "ShiftLeft"@.len());
    reveal_strlit("ShiftRight");
    assert("Equal"@.len() != "ShiftRight"@.len());
    reveal_strlit("ControlLeft");
    assert("Equal"@.len() != "ControlLeft"@.len());
    reveal_strlit("AltLeft");
    assert("Equal"@.len() != "AltLeft"@.len());
    reveal_strlit("BracketLeft");
    assert("Equal"@.len() != "BracketLeft"@.len());
    reveal_strlit("BracketRight");
    assert("Equal"@.len() != "BracketRight"@.len());
    reveal_strlit("Comma");
    assert("Equal"@[0] != "Comma"@[0]);
    reveal_strlit("Period");
    assert("Equal"@.len() != "Period"@.len());
    reveal_strlit("Slash");
    assert("Equal"@[0] != "Slash"@[0]);
    reveal_strlit("Semicolon");
    assert("Equal"@.len() != "Semicolon"@.len());
    reveal_strlit("Quote");
    assert("Equal"@[0] != "Quote"@[0]);
    reveal_strlit("Backquote");
    assert("Equal"@.len() != "Backquote"@.len());
    reveal_strlit("Minus");
    assert("Equal"@[0] != "Minus"@[0]);
}

proof fn lemma_name_arrow_left()
    ensures
        key_of_name("ArrowLeft"@) == Some(KeyCode::ArrowLeft),
{
    reveal_strlit("ArrowLeft");
    reveal_strlit("KeyA");
    assert("ArrowLeft"@.len() != "KeyA"@.len());
    reveal_strlit("KeyB");
    assert("ArrowLeft"@.len() != "KeyB"@.len());
    reveal_strlit("KeyC");
    assert("ArrowLeft"@.len() != "KeyC"@.len());
    reveal_strlit("KeyD");
    assert("ArrowLeft"@.len() != "KeyD"@.len());
    reveal_strlit("KeyE");
    assert("ArrowLeft"@.len() != "KeyE"@.len());
    reveal_strlit("KeyF");
    assert("ArrowLeft"@.len() != "KeyF"@.len());
    reveal_strlit("KeyG");
    assert("ArrowLeft"@.len() != "KeyG"@.len());
    reveal_strlit("KeyH");
    assert("ArrowLeft"@.len() != "KeyH"@.len());
    reveal_strlit("KeyI");
    assert("ArrowLeft"@.len() != "KeyI"@.len());
    reveal_strlit("KeyJ");
    assert("ArrowLeft"@.len() != "KeyJ"@.len());
    reveal_strlit("KeyK");
    assert("ArrowLeft"@.len() != "KeyK"@.len());
    reveal_strlit("KeyL");
    assert("ArrowLeft"@.len() != "KeyL"@.len());
    reveal_strlit("KeyM");
    assert("ArrowLeft"@.len() != "KeyM"@.len());
    reveal_strlit("KeyN");
    assert("ArrowLeft"@.len() != "KeyN"@.len());
    reveal_strlit("KeyO");
    assert("ArrowLeft"@.len() != "KeyO"@.len());
    reveal_strlit("KeyP");
    assert("ArrowLeft"@.len() != "KeyP"@.len());
    reveal_strlit("KeyQ");
    assert("ArrowLeft"@.len() != "KeyQ"@.len());
    reveal_strlit("KeyR");
    assert("ArrowLeft"@.len() != "KeyR"@.len());
    reveal_strlit("KeyS");
    assert("ArrowLeft"@.len() != "KeyS"@.len());
    reveal_strlit("KeyT");
    assert("ArrowLeft"@.len() != "KeyT"@.len());
    reveal_strlit("KeyU");
    assert("ArrowLeft"@.len() != "KeyU"@.len());
    reveal_strlit("KeyV");
    assert("ArrowLeft"@.len() != "KeyV"@.len());
    reveal_strlit("KeyW");
    assert("ArrowLeft"@.len() != "KeyW"@.len());
    reveal_strlit("KeyX");
    assert("ArrowLeft"@.len() != "KeyX"@.len());
    reveal_strlit("KeyY");
    assert("ArrowLeft"@.len() != "KeyY"@.len());
    reveal_strlit("KeyZ");
    assert("ArrowLeft"@.len() != "KeyZ"@.len());
    reveal_strlit("Digit0");
    assert("ArrowLeft"@.len() != "Digit0"@.len());
    reveal_strlit("Digit1");
    assert("ArrowLeft"@.len() != "Digit1"@.len());
    reveal_strlit("Digit2");
    assert("ArrowLeft"@.len() != "Digit2"@.len());
    reveal_strlit("Digit3");
    assert("ArrowLeft"@.len() != "Digit3"@.len());
    reveal_strlit("Digit4");
    assert("ArrowLeft"@.len() != "Digit4"@.len());
    reveal_strlit("Digit5");
    assert("ArrowLeft"@.len() != "Digit5"@.len());
    reveal_strlit("Digit6");
    assert("ArrowLeft"@.len() != "Digit6"@.len());
    reveal_strlit("Digit7");
    assert("ArrowLeft"@.len() != "Digit7"@.len());
    reveal_strlit("Digit8");
    assert("ArrowLeft"@.len() != "Digit8"@.len());
    reveal_strlit("Digit9");
    assert("ArrowLeft"@.len() != "Digit9"@.len());
    reveal_strlit("Space");
    assert("ArrowLeft"@.len() != "Space"@.len());
    reveal_strlit("Tab");
    assert("ArrowLeft"@.len() != "Tab"@.len());
    reveal_strlit("ShiftLeft");
    assert("ArrowLeft"@[0] != "ShiftLeft"@[0]);
    reveal_strlit("ShiftRight");
    assert("ArrowLeft"@.len() != "ShiftRight"@.len());
    reveal_strlit("ControlLeft");
    assert("ArrowLeft"@.len() != "ControlLeft"@.len());
    reveal_strlit("AltLeft");
    assert("ArrowLeft"@.len() != "AltLeft"@.len());
    reveal_strlit("BracketLeft");
    assert("ArrowLeft"@.len() != "BracketLeft"@.len());
    reveal_strlit("BracketRight");
    assert("ArrowLeft"@.len() != "BracketRight"@.len());
    reveal_strlit("Comma");
    assert("ArrowLeft"@.len() != "Comma"@.len());
    reveal_strlit("Period");
    assert("ArrowLeft"@.len() != "Period"@.len());
    reveal_strlit("Slash");
    assert("ArrowLeft"@.len() != "Slash"@.len());
    reveal_strlit("Semicolon");
    assert("ArrowLeft"@[0] != "Semicolon"@[0]);
    reveal_strlit("Quote");
    assert("ArrowLeft"@.len() != "Quote"@.len());
    reveal_strlit("Backquote");
    assert("ArrowLeft"@[0] != "Backquote"@[0]);
    reveal_strlit("Minus");
    assert("ArrowLeft"@.len() != "Minus"@.len());
    reveal_strlit("Equal");
    assert("ArrowLeft"@.len() != "Equal"@.len());
}

proof fn lemma_name_arrow_right()
    ensures
        key_of_name("ArrowRight"@) == Some(KeyCode::ArrowRight),
{
    reveal_strlit("ArrowRight");
    reveal_strlit("KeyA");
    assert("ArrowRight"@.len() != "KeyA"@.len());
    reveal_strlit("KeyB");
    assert("ArrowRight"@.len() != "KeyB"@.len());
    reveal_strlit("KeyC");
    assert("ArrowRight"@.len() != "KeyC"@.len());
    reveal_strlit("KeyD");
    assert("ArrowRight"@.len() != "KeyD"@.len());
    reveal_strlit("KeyE");
    assert("ArrowRight"@.len() != "KeyE"@.len());
    reveal_strlit("KeyF");
    assert("ArrowRight"@.len() != "KeyF"@.len());
    reveal_strlit("KeyG");
    assert("ArrowRight"@.len() != "KeyG"@.len());
    reveal_strlit("KeyH");
    assert("ArrowRight"@.len() != "KeyH"@.len());
    reveal_strlit("KeyI");
    assert("ArrowRight"@.len() != "KeyI"@.len());
    reveal_strlit("KeyJ");
    assert("ArrowRight"@.len() != "KeyJ"@.len());
    reveal_strlit("KeyK");
    assert("ArrowRight"@.len() != "KeyK"@.len());
    reveal_strlit("KeyL");
    assert("ArrowRight"@.len() != "KeyL"@.len());
    reveal_strlit("KeyM");
    assert("ArrowRight"@.len() != "KeyM"@.len());
    reveal_strlit("KeyN");
    assert("ArrowRight"@.len() != "KeyN"@.len());
    reveal_strlit("KeyO");
    assert("ArrowRight"@.len() != "KeyO"@.len());
    reveal_strlit("KeyP");
    assert("ArrowRight"@.len() != "KeyP"@.len());
    reveal_strlit("KeyQ");
    assert("ArrowRight"@.len() != "KeyQ"@.len());
    reveal_strlit("KeyR");
    assert("ArrowRight"@.len() != "KeyR"@.len());
    reveal_strlit("KeyS");
    assert("ArrowRight"@.len() != "KeyS"@.len());
    reveal_strlit("KeyT");
    assert("ArrowRight"@.len() != "KeyT"@.len());
    reveal_strlit("KeyU");
    assert("ArrowRight"@.len() != "KeyU"@.len());
    reveal_strlit("KeyV");
    assert("ArrowRight"@.len() != "KeyV"@.len());
    reveal_strlit("KeyW");
    assert("ArrowRight"@.len() != "KeyW"@.len());
    reveal_strlit("KeyX");
    assert("ArrowRight"@.len() != "KeyX"@.len());
    reveal_strlit("KeyY");
    assert("ArrowRight"@.len() != "KeyY"@.len());
    reveal_strlit("KeyZ");
    assert("ArrowRight"@.len() != "KeyZ"@.len());
    reveal_strlit("Digit0");
    assert("ArrowRight"@.len() != "Digit0"@.len());
    reveal_strlit("Digit1");
    assert("ArrowRight"@.len() != "Digit1"@.len());
    reveal_strlit("Digit2");
    assert("ArrowRight"@.len() != "Digit2"@.len());
    reveal_strlit("Digit3");
    assert("ArrowRight"@.len() != "Digit3"@.len());
    reveal_strlit("Digit4");
    assert("ArrowRight"@.len() != "Digit4"@.len());
    reveal_strlit("Digit5");
    assert("ArrowRight"@.len() != "Digit5"@.len());
    reveal_strlit("Digit6");
    assert("ArrowRight"@.len() != "Digit6"@.len());
    reveal_strlit("Digit7");
    assert("ArrowRight"@.len() != "Digit7"@.len());
    reveal_strlit("Digit8");
    assert("ArrowRight"@.len() != "Digit8"@.len());
    reveal_strlit("Digit9");
    assert("ArrowRight"@.len() != "Digit9"@.len());
    reveal_strlit("Space");
    assert("ArrowRight"@.len() != "Space"@.len());
    reveal_strlit("Tab");
    assert("ArrowRight"@.len() != "Tab"@.len());
    reveal_strlit("ShiftLeft");
    assert("ArrowRight"@.len() != "ShiftLeft"@.len());
    reveal_strlit("ShiftRight");
    assert("ArrowRight"@[0] != "ShiftRight"@[0]);
    reveal_strlit("ControlLeft");
    assert("ArrowRight"@.len() != "ControlLeft"@.len());
    reveal_strlit("AltLeft");
    assert("ArrowRight"@.len() != "AltLeft"@.len());
    reveal_strlit("BracketLeft");
    assert("ArrowRight"@.len() != "BracketLeft"@.len());
    reveal_strlit("BracketRight");
    assert("ArrowRight"@.len() != "BracketRight"@.len());
    reveal_strlit("Comma");
    assert("ArrowRight"@.len() != "Comma"@.len());
    reveal_strlit("Period");
    assert("ArrowRight"@.len() != "Period"@.len());
    reveal_strlit("Slash");
    assert("ArrowRight"@.len() != "Slash"@.len());
    reveal_strlit("Semicolon");
    assert("ArrowRight"@.len() != "Semicolon"@.len());
    reveal_strlit("Quote");
    assert("ArrowRight"@.len() != "Quote"@.len());
    reveal_strlit("Backquote");
    assert("ArrowRight"@.len() != "Backquote"@.len());
    reveal_strlit("Minus");
    assert("ArrowRight"@.len() != "Minus"@.len());
    reveal_strlit("Equal");
    assert("ArrowRight"@.len() != "Equal"@.len());
    reveal_strlit("ArrowLeft");
    assert("ArrowRight"@.len() != "ArrowLeft"@.len());
}

proof fn lemma_name_arrow_up()
    ensures
        key_of_name("ArrowUp"@) == Some(KeyCode::ArrowUp),
{
    reveal_strlit("ArrowUp");
    reveal_strlit("KeyA");
    assert("ArrowUp"@.len() != "KeyA"@.len());
    reveal_strlit("KeyB");
    assert("ArrowUp"@.len() != "KeyB"@.len());
    reveal_strlit("KeyC");
    assert("ArrowUp"@.len() != "KeyC"@.len());
    reveal_strlit("KeyD");
    assert("ArrowUp"@.len() != "KeyD"@.len());
    reveal_strlit("KeyE");
    assert("ArrowUp"@.len() != "KeyE"@.len());
    reveal_strlit("KeyF");
    assert("ArrowUp"@.len() != "KeyF"@.len());
    reveal_strlit("KeyG");
    assert("ArrowUp"@.len() != "KeyG"@.len());
    reveal_strlit("KeyH");
    assert("ArrowUp"@.len() != "KeyH"@.len());
    reveal_strlit("KeyI");
    assert("ArrowUp"@.len() != "KeyI"@.len());
    reveal_strlit("KeyJ");
    assert("ArrowUp"@.len() != "KeyJ"@.len());
    reveal_strlit("KeyK");
    assert("ArrowUp"@.len() != "KeyK"@.len());
    reveal_strlit("KeyL");
    assert("ArrowUp"@.len() != "KeyL"@.len());
    reveal_strlit("KeyM");
    assert("ArrowUp"@.len() != "KeyM"@.len());
    reveal_strlit("KeyN");
    assert("ArrowUp"@.len() != "KeyN"@.len());
    reveal_strlit("KeyO");
    assert("ArrowUp"@.len() != "KeyO"@.len());
    reveal_strlit("KeyP");
    assert("ArrowUp"@.len() != "KeyP"@.len());
    reveal_strlit("KeyQ");
    assert("ArrowUp"@.len() != "KeyQ"@.len());
    reveal_strlit("KeyR");
    assert("ArrowUp"@.len() != "KeyR"@.len());
    reveal_strlit("KeyS");
    assert("ArrowUp"@.len() != "KeyS"@.len());
    reveal_strlit("KeyT");
    assert("ArrowUp"@.len() != "KeyT"@.len());
    reveal_strlit("KeyU");
    assert("ArrowUp"@.len() != "KeyU"@.len());
    reveal_strlit("KeyV");
    assert("ArrowUp"@.len() != "KeyV"@.len());
    reveal_strlit("KeyW");
    assert("ArrowUp"@.len() != "KeyW"@.len());
    reveal_strlit("KeyX");
    assert("ArrowUp"@.len() != "KeyX"@.len());
    reveal_strlit("KeyY");
    assert("ArrowUp"@.len() != "KeyY"@.len());
    reveal_strlit("KeyZ");
    assert("ArrowUp"@.len() != "KeyZ"@.len());
    reveal_strlit("Digit0");
    assert("ArrowUp"@.len() != "Digit0"@.len());
    reveal_strlit("Digit1");
    assert("ArrowUp"@.len() != "Digit1"@.len());
    reveal_strlit("Digit2");
    assert("ArrowUp"@.len() != "Digit2"@.len());
    reveal_strlit("Digit3");
    assert("ArrowUp"@.len() != "Digit3"@.len());
    reveal_strlit("Digit4");
    assert("ArrowUp"@.len() != "Digit4"@.len());
    reveal_strlit("Digit5");
    assert("ArrowUp"@.len() != "Digit5"@.len());
    reveal_strlit("Digit6");
    assert("ArrowUp"@.len() != "Digit6"@.len());
    reveal_strlit("Digit7");
    assert("ArrowUp"@.len() != "Digit7"@.len());
    reveal_strlit("Digit8");
    assert("ArrowUp"@.len() != "Digit8"@.len());
    reveal_strlit("Digit9");
    assert("ArrowUp"@.len() != "Digit9"@.len());
    reveal_strlit("Space");
    assert("ArrowUp"@.len() != "Space"@.len());
    reveal_strlit("Tab");
    assert("ArrowUp"@.len() != "Tab"@.len());
    reveal_strlit("ShiftLeft");
    assert("ArrowUp"@.len() != "ShiftLeft"@.len());
    reveal_strlit("ShiftRight");
    assert("ArrowUp"@.len() != "ShiftRight"@.len());
    reveal_strlit("ControlLeft");
    assert("ArrowUp"@.len() != "ControlLeft"@.len());
    reveal_strlit("AltLeft");
    assert("ArrowUp"@[1] != "AltLeft"@[1]);
    reveal_strlit("BracketLeft");
    assert("ArrowUp"@.len() != "BracketLeft"@.len());
    reveal_strlit("BracketRight");
    assert("ArrowUp"@.len() != "BracketRight"@.len());
    reveal_strlit("Comma");
    assert("ArrowUp"@.len() != "Comma"@.len());
    reveal_strlit("Period");
    assert("ArrowUp"@.len() != "Period"@.len());
    reveal_strlit("Slash");
    assert("ArrowUp"@.len() != "Slash"@.len());
    reveal_strlit("Semicolon");
    assert("ArrowUp"@.len() != "Semicolon"@.len());
    reveal_strlit("Quote");
    assert("ArrowUp"@.len() != "Quote"@.len());
    reveal_strlit("Backquote");
    assert("ArrowUp"@.len() != "Backquote"@.len());
    reveal_strlit("Minus");
    assert("ArrowUp"@.len() != "Minus"@.len());
    reveal_strlit("Equal");
    assert("ArrowUp"@.len() != "Equal"@.len());
    reveal_strlit("ArrowLeft");
    assert("ArrowUp"@.len() != "ArrowLeft"@.len());
    reveal_strlit("ArrowRight");
    assert("ArrowUp"@.len() != "ArrowRight"@.len());
}

proof fn lemma_name_arrow_down()
    ensures
        key_of_name("ArrowDown"@) == Some(KeyCode::ArrowDown),
{
    reveal_strlit("ArrowDown");
    reveal_strlit("KeyA");
    assert("ArrowDown"@.len() != "KeyA"@.len());
    reveal_strlit("KeyB");
    assert("ArrowDown"@.len() != "KeyB"@.len());
    reveal_strlit("KeyC");
    assert("ArrowDown"@.len() != "KeyC"@.len());
    reveal_strlit("KeyD");
    assert("ArrowDown"@.len() != "KeyD"@.len());
    reveal_strlit("KeyE");
    assert("ArrowDown"@.len() != "KeyE"@.len());
    reveal_strlit("KeyF");
    assert("ArrowDown"@.len() != "KeyF"@.len());
    reveal_strlit("KeyG");
    assert("ArrowDown"@.len() != "KeyG"@.len());
    reveal_strlit("KeyH");
    assert("ArrowDown"@.len() != "KeyH"@.len());
    reveal_strlit("KeyI");
    assert("ArrowDown"@.len() != "KeyI"@.len());
    reveal_strlit("KeyJ");
    assert("ArrowDown"@.len() != "KeyJ"@.len());
    reveal_strlit("KeyK");
    assert("ArrowDown"@.len() != "KeyK"@.len());
    reveal_strlit("KeyL");
    assert("ArrowDown"@.len() != "KeyL"@.len());
    reveal_strlit("KeyM");
    assert("ArrowDown"@.len() != "KeyM"@.len());
    reveal_strlit("KeyN");
    assert("ArrowDown"@.len() != "KeyN"@.len());
    reveal_strlit("KeyO");
    assert("ArrowDown"@.len() != "KeyO"@.len());
    reveal_strlit("KeyP");
    assert("ArrowDown"@.len() != "KeyP"@.len());
    reveal_strlit("KeyQ");
    assert("ArrowDown"@.len() != "KeyQ"@.len());
    reveal_strlit("KeyR");
    assert("ArrowDown"@.len() != "KeyR"@.len());
    reveal_strlit("KeyS");
    assert("ArrowDown"@.len() != "KeyS"@.len());
    reveal_strlit("KeyT");
    assert("ArrowDown"@.len() != "KeyT"@.len());
    reveal_strlit("KeyU");
    assert("ArrowDown"@.len() != "KeyU"@.len());
    reveal_strlit("KeyV");
    assert("ArrowDown"@.len() != "KeyV"@.len());
    reveal_strlit("KeyW");
    assert("ArrowDown"@.len() != "KeyW"@.len());
    reveal_strlit("KeyX");
    assert("ArrowDown"@.len() != "KeyX"@.len());
    reveal_strlit("KeyY");
    assert("ArrowDown"@.len() != "KeyY"@.len());
    reveal_strlit("KeyZ");
    assert("ArrowDown"@.len() != "KeyZ"@.len());
    reveal_strlit("Digit0");
    assert("ArrowDown"@.len() != "Digit0"@.len());
    reveal_strlit("Digit1");
    assert("ArrowDown"@.len() != "Digit1"@.len());
    reveal_strlit("Digit2");
    assert("ArrowDown"@.len() != "Digit2"@.len());
    reveal_strlit("Digit3");
    assert("ArrowDown"@.len() != "Digit3"@.len());
    reveal_strlit("Digit4");
    assert("ArrowDown"@.len() != "Digit4"@.len());
    reveal_strlit("Digit5");
    assert("ArrowDown"@.len() != "Digit5"@.len());
    reveal_strlit("Digit6");
    assert("ArrowDown"@.len() != "Digit6"@.len());
    reveal_strlit("Digit7");
    assert("ArrowDown"@.len() != "Digit7"@.len());
    reveal_strlit("Digit8");
    assert("ArrowDown"@.len() != "Digit8"@.len());
    reveal_strlit("Digit9");
    assert("ArrowDown"@.len() != "Digit9"@.len());
    reveal_strlit("Space");
    assert("ArrowDown"@.len() != "Space"@.len());
    reveal_strlit("Tab");
    assert("ArrowDown"@.len() != "Tab"@.len());
    reveal_strlit("ShiftLeft");
    assert("ArrowDown"@[0] != "ShiftLeft"@[0]);
    reveal_strlit("ShiftRight");
    assert("ArrowDown"@.len() != "ShiftRight"@.len());
    reveal_strlit("ControlLeft");
    assert("ArrowDown"@.len() != "ControlLeft"@.len());
    reveal_strlit("AltLeft");
    assert("ArrowDown"@.len() != "AltLeft"@.len());
    reveal_strlit("BracketLeft");
    assert("ArrowDown"@.len() != "BracketLeft"@.len());
    reveal_strlit("BracketRight");
    assert("ArrowDown"@.len() != "BracketRight"@.len());
    reveal_strlit("Comma");
    assert("ArrowDown"@.len() != "Comma"@.len());
    reveal_strlit("Period");
    assert("ArrowDown"@.len() != "Period"@.len());
    reveal_strlit("Slash");
    assert("ArrowDown"@.len() != "Slash"@.len());
    reveal_strlit("Semicolon");
    assert("ArrowDown"@[0] != "Semicolon"@[0]);
    reveal_strlit("Quote");
    assert("ArrowDown"@.len() != "Quote"@.len());
    reveal_strlit("Backquote");
    assert("ArrowDown"@[0] != "Backquote"@[0]);
    reveal_strlit("Minus");
    assert("ArrowDown"@.len() != "Minus"@.len());
    reveal_strlit("Equal");
    assert("ArrowDown"@.len() != "Equal"@.len());
    reveal_strlit("ArrowLeft");
    assert("ArrowDown"@[5] != "ArrowLeft"@[5]);
    reveal_strlit("ArrowRight");
    assert("ArrowDown"@.len() != "ArrowRight"@.len());
    reveal_strlit("ArrowUp");
    assert("ArrowDown"@.len() != "ArrowUp"@.len());
}

proof fn lemma_name_enter()
    ensures
        key_of_name("Enter"@) == Some(KeyCode::Enter),
{
    reveal_strlit("Enter");
    reveal_strlit("KeyA");
    assert("Enter"@.len() != "KeyA"@.len());
    reveal_strlit("KeyB");
    assert("Enter"@.len() != "KeyB"@.len());
    reveal_strlit("KeyC");
    assert("Enter"@.len() != "KeyC"@.len());
    reveal_strlit("KeyD");
    assert("Enter"@.len() != "KeyD"@.len());
    reveal_strlit("KeyE");
    assert("Enter"@.len() != "KeyE"@.len());
    reveal_strlit("KeyF");
    assert("Enter"@.len() != "KeyF"@.len());
    reveal_strlit("KeyG");
    assert("Enter"@.len() != "KeyG"@.len());
    reveal_strlit("KeyH");
    assert("Enter"@.len() != "KeyH"@.len());
    reveal_strlit("KeyI");
    assert("Enter"@.len() != "KeyI"@.len());
    reveal_strlit("KeyJ");
    assert("Enter"@.len() != "KeyJ"@.len());
    reveal_strlit("KeyK");
    assert("Enter"@.len() != "KeyK"@.len());
    reveal_strlit("KeyL");
    assert("Enter"@.len() != "KeyL"@.len());
    reveal_strlit("KeyM");
    assert("Enter"@.len() != "KeyM"@.len());
    reveal_strlit("KeyN");
    assert("Enter"@.len() != "KeyN"@.len());
    reveal_strlit("KeyO");
    assert("Enter"@.len() != "KeyO"@.len());
    reveal_strlit("KeyP");
    assert("Enter"@.len() != "KeyP"@.len());
    reveal_strlit("KeyQ");
    assert("Enter"@.len() != "KeyQ"@.len());
    reveal_strlit("KeyR");
    assert("Enter"@.len() != "KeyR"@.len());
    reveal_strlit("KeyS");
    assert("Enter"@.len() != "KeyS"@.len());
    reveal_strlit("KeyT");
    assert("Enter"@.len() != "KeyT"@.len());
    reveal_strlit("KeyU");
    assert("Enter"@.len() != "KeyU"@.len());
    reveal_strlit("KeyV");
    assert("Enter"@.len() != "KeyV"@.len());
    reveal_strlit("KeyW");
    assert("Enter"@.len() != "KeyW"@.len());
    reveal_strlit("KeyX");
    assert("Enter"@.len() != "KeyX"@.len());
    reveal_strlit("KeyY");
    assert("Enter"@.len() != "KeyY"@.len());
    reveal_strlit("KeyZ");
    assert("Enter"@.len() != "KeyZ"@.len());
    reveal_strlit("Digit0");
    assert("Enter"@.len() != "Digit0"@.len());
    reveal_strlit("Digit1");
    assert("Enter"@.len() != "Digit1"@.len());
    reveal_strlit("Digit2");
    assert("Enter"@.len() != "Digit2"@.len());
    reveal_strlit("Digit3");
    assert("Enter"@.len() != "Digit3"@.len());
    reveal_strlit("Digit4");
    assert("Enter"@.len() != "Digit4"@.len());
    reveal_strlit("Digit5");
    assert("Enter"@.len() != "Digit5"@.len());
    reveal_strlit("Digit6");
    assert("Enter"@.len() != "Digit6"@.len());
    reveal_strlit("Digit7");
    assert("Enter"@.len() != "Digit7"@.len());
    reveal_strlit("Digit8");
    assert("Enter"@.len() != "Digit8"@.len());
    reveal_strlit("Digit9");
    assert("Enter"@.len() != "Digit9"@.len());
    reveal_strlit("Space");
    assert("Enter"@[0] != "Space"@[0]);
    reveal_strlit("Tab");
    assert("Enter"@.len() != "Tab"@.len());
    reveal_strlit("ShiftLeft");
    assert("Enter"@.len() != "ShiftLeft"@.len());
    reveal_strlit("ShiftRight");
    assert("Enter"@.len() != "ShiftRight"@.len());
    reveal_strlit("ControlLeft");
    assert("Enter"@.len() != "ControlLeft"@.len());
    reveal_strlit("AltLeft");
    assert("Enter"@.len() != "AltLeft"@.len());
    reveal_strlit("BracketLeft");
    assert("Enter"@.len() != "BracketLeft"@.len());
    reveal_strlit("BracketRight");
    assert("Enter"@.len() != "BracketRight"@.len());
    reveal_strlit("Comma");
    assert("Enter"@[0] != "Comma"@[0]);
    reveal_strlit("Period");
    assert("Enter"@.len() != "Period"@.len());
    reveal_strlit("Slash");
    assert("Enter"@[0] != "Slash"@[0]);
    reveal_strlit("Semicolon");
    assert("Enter"@.len() != "Semicolon"@.len());
    reveal_strlit("Quote");
    assert("Enter"@[0] != "Quote"@[0]);
    reveal_strlit("Backquote");
    assert("Enter"@.len() != "Backquote"@.len());
    reveal_strlit("Minus");
    assert("Enter"@[0] != "Minus"@[0]);
    reveal_strlit("Equal");
    assert("Enter"@[1] != "Equal"@[1]);
    reveal_strlit("ArrowLeft");
    assert("Enter"@.len() != "ArrowLeft"@.len());
    reveal_strlit("ArrowRight");
    assert("Enter"@.len() != "ArrowRight"@.len());
    reveal_strlit("ArrowUp");
    assert("Enter"@.len() != "ArrowUp"@.len());
    reveal_strlit("ArrowDown");
    assert("Enter"@.len() != "ArrowDown"@.len());
    reveal_strlit("F1");
    assert("Enter"@.len() != "F1"@.len());
    reveal_strlit("F2");
    assert("Enter"@.len() != "F2"@.len());
    reveal_strlit("F3");
    assert("Enter"@.len() != "F3"@.len());
    reveal_strlit("F4");
    assert("Enter"@.len() != "F4"@.len());
}

proof fn lemma_name_backspace()
    ensures
        key_of_name("Backspace"@) == Some(KeyCode::Backspace),
{
    reveal_strlit("Backspace");
    reveal_strlit("KeyA");
    assert("Backspace"@.len() != "KeyA"@.len());
    reveal_strlit("KeyB");
    assert("Backspace"@.len() != "KeyB"@.len());
    reveal_strlit("KeyC");
    assert("Backspace"@.len() != "KeyC"@.len());
    reveal_strlit("KeyD");
    assert("Backspace"@.len() != "KeyD"@.len());
    reveal_strlit("KeyE");
    assert("Backspace"@.len() != "KeyE"@.len());
    reveal_strlit("KeyF");
    assert("Backspace"@.len() != "KeyF"@.len());
    reveal_strlit("KeyG");
    assert("Backspace"@.len() != "KeyG"@.len());
    reveal_strlit("KeyH");
    assert("Backspace"@.len() != "KeyH"@.len());
    reveal_strlit("KeyI");
    assert("Backspace"@.len() != "KeyI"@.len());
    reveal_strlit("KeyJ");
    assert("Backspace"@.len() != "KeyJ"@.len());
    reveal_strlit("KeyK");
    assert("Backspace"@.len() != "KeyK"@.len());
    reveal_strlit("KeyL");
    assert("Backspace"@.len() != "KeyL"@.len());
    reveal_strlit("KeyM");
    assert("Backspace"@.len() != "KeyM"@.len());
    reveal_strlit("KeyN");
    assert("Backspace"@.len() != "KeyN"@.len());
    reveal_strlit("KeyO");
    assert("Backspace"@.len() != "KeyO"@.len());
    reveal_strlit("KeyP");
    assert("Backspace"@.len() != "KeyP"@.len());
    reveal_strlit("KeyQ");
    assert("Backspace"@.len() != "KeyQ"@.len());
    reveal_strlit("KeyR");
    assert("Backspace"@.len() != "KeyR"@.len());
    reveal_strlit("KeyS");
    assert("Backspace"@.len() != "KeyS"@.len());
    reveal_strlit("KeyT");
    assert("Backspace"@.len() != "KeyT"@.len());
    reveal_strlit("KeyU");
    assert("Backspace"@.len() != "KeyU"@.len());
    reveal_strlit("KeyV");
    assert("Backspace"@.len() != "KeyV"@.len());
    reveal_strlit("KeyW");
    assert("Backspace"@.len() != "KeyW"@.len());
    reveal_strlit("KeyX");
    assert("Backspace"@.len() != "KeyX"@.len());
    reveal_strlit("KeyY");
    assert("Backspace"@.len() != "KeyY"@.len());
    reveal_strlit("KeyZ");
    assert("Backspace"@.len() != "KeyZ"@.len());
    reveal_strlit("Digit0");
    assert("Backspace"@.len() != "Digit0"@.len());
    reveal_strlit("Digit1");
    assert("Backspace"@.len() != "Digit1"@.len());
    reveal_strlit("Digit2");
    assert("Backspace"@.len() != "Digit2"@.len());
    reveal_strlit("Digit3");
    assert("Backspace"@.len() != "Digit3"@.len());
    reveal_strlit("Digit4");
    assert("Backspace"@.len() != "Digit4"@.len());
    reveal_strlit("Digit5");
    assert("Backspace"@.len() != "Digit5"@.len());
    reveal_strlit("Digit6");
    assert("Backspace"@.len() != "Digit6"@.len());
    reveal_strlit("Digit7");
    assert("Backspace"@.len() != "Digit7"@.len());
    reveal_strlit("Digit8");
    assert("Backspace"@.len() != "Digit8"@.len());
    reveal_strlit("Digit9");
    assert("Backspace"@.len() != "Digit9"@.len());
    reveal_strlit("Space");
    assert("Backspace"@.len() != "Space"@.len());
    reveal_strlit("Tab");
    assert("Backspace"@.len() != "Tab"@.len());
    reveal_strlit("ShiftLeft");
    assert("Backspace"@[0] != "ShiftLeft"@[0]);
    reveal_strlit("ShiftRight");
    assert("Backspace"@.len() != "ShiftRight"@.len());
    reveal_strlit("ControlLeft");
    assert("Backspace"@.len() != "ControlLeft"@.len());
    reveal_strlit("AltLeft");
    assert("Backspace"@.len() != "AltLeft"@.len());
    reveal_strlit("BracketLeft");
    assert("Backspace"@.len() != "BracketLeft"@.len());
    reveal_strlit("BracketRight");
    assert("Backspace"@.len() != "BracketRight"@.len());
    reveal_strlit("Comma");
    assert("Backspace"@.len() != "Comma"@.len());
    reveal_strlit("Period");
    assert("Backspace"@.len() != "Period"@.len());
    reveal_strlit("Slash");
    assert("Backspace"@.len() != "Slash"@.len());
    reveal_strlit("Semicolon");
    assert("Backspace"@[0] != "Semicolon"@[0]);
    reveal_strlit("Quote");
    assert("Backspace"@.len() != "Quote"@.len());
    reveal_strlit("Backquote");
    assert("Backspace"@[4] != "Backquote"@[4]);
    reveal_strlit("Minus");
    assert("Backspace"@.len() != "Minus"@.len());
    reveal_strlit("Equal");
    assert("Backspace"@.len() != "Equal"@.len());
    reveal_strlit("ArrowLeft");
    assert("Backspace"@[0] != "ArrowLeft"@[0]);
    reveal_strlit("ArrowRight");
    assert("Backspace"@.len() != "ArrowRight"@.len());
    reveal_strlit("ArrowUp");
    assert("Backspace"@.len() != "ArrowUp"@.len());
    reveal_strlit("ArrowDown");
    assert("Backspace"@[0] != "ArrowDown"@[0]);
    reveal_strlit("F1");
    assert("Backspace"@.len() != "F1"@.len());
    reveal_strlit("F2");
    assert("Backspace"@.len() != "F2"@.len());
    reveal_strlit("F3");
    assert("Backspace"@.len() != "F3"@.len());
    reveal_strlit("F4");
    assert("Backspace"@.len() != "F4"@.len());
    reveal_strlit("Enter");
    assert("Backspace"@.len() != "Enter"@.len());
}

/// A key saved to the settings file reads back as the same key (for the keys
/// that have a token).
pub proof fn law_token_roundtrip(k: KeyCode)
    requires
        has_token(k),
    ensures
        key_of_name(spec_keycode_token(k)@) == Some(k),
{
    match k {
        KeyCode::KeyA => lemma_name_key_a(),
        KeyCode::KeyB => lemma_name_key_b(),
        KeyCode::KeyC => lemma_name_key_c(),
        KeyCode::KeyD => lemma_name_key_d(),
        KeyCode::KeyE => lemma_name_key_e(),
        KeyCode::KeyF => lemma_name_key_f(),
        KeyCode::KeyG => lemma_name_key_g(),
        KeyCode::KeyH => lemma_name_key_h(),
        KeyCode::KeyI => lemma_name_key_i(),
        KeyCode::KeyJ => lemma_name_key_j(),
        KeyCode::KeyK => lemma_name_key_k(),
        KeyCode::KeyL => lemma_name_key_l(),
        KeyCode::KeyM => lemma_name_key_m(),
        KeyCode::KeyN => lemma_name_key_n(),
        KeyCode::KeyO => lemma_name_key_o(),
        KeyCode::KeyP => lemma_name_key_p(),
        KeyCode::KeyQ => lemma_name_key_q(),
        KeyCode::KeyR => lemma_name_key_r(),
        KeyCode::KeyS => lemma_name_key_s(),
        KeyCode::KeyT => lemma_name_key_t(),
        KeyCode::KeyU => lemma_name_key_u(),
        KeyCode::KeyV => lemma_name_key_v(),
        KeyCode::KeyW => lemma_name_key_w(),
        KeyCode::KeyX => lemma_name_key_x(),
        KeyCode::KeyY => lemma_name_key_y(),
        KeyCode::KeyZ => lemma_name_key_z(),
        KeyCode::Digit0 => lemma_name_digit_0(),
        KeyCode::Digit1 => lemma_name_digit_1(),
        KeyCode::Digit2 => lemma_name_digit_2(),
        KeyCode::Digit3 => lemma_name_digit_3(),
        KeyCode::Digit4 => lemma_name_digit_4(),
        KeyCode::Digit5 => lemma_name_digit_5(),
        KeyCode::Digit6 => lemma_name_digit_6(),
        KeyCode::Digit7 => lemma_name_digit_7(),
        KeyCode::Digit8 => lemma_name_digit_8(),
        KeyCode::Digit9 => lemma_name_digit_9(),
        KeyCode::Space => lemma_name_space(),
        KeyCode::Tab => lemma_name_tab(),
        KeyCode::ShiftLeft => lemma_name_shift_left(),
        KeyCode::ShiftRight => lemma_name_shift_right(),
        KeyCode::ControlLeft => lemma_name_control_left(),
        KeyCode::AltLeft => lemma_name_alt_left(),
        KeyCode::BracketLeft => lemma_name_bracket_left(),
        KeyCode::BracketRight => lemma_name_bracket_right(),
        KeyCode::Comma => lemma_name_comma(),
        KeyCode::Period => lemma_name_period(),
        KeyCode::Slash => lemma_name_slash(),
        KeyCode::Semicolon => lemma_name_semicolon(),
        KeyCode::Quote => lemma_name_quote(),
        KeyCode::Backquote => lemma_name_backquote(),
        KeyCode::Minus => lemma_name_minus(),
        KeyCode::Equal => lemma_name_equal(),
        KeyCode::ArrowLeft => lemma_name_arrow_left(),
        KeyCode::ArrowRight => lemma_name_arrow_right(),
        KeyCode::ArrowUp => lemma_name_arrow_up(),
        KeyCode::ArrowDown => lemma_name_arrow_down(),
        KeyCode::Enter => lemma_name_enter(),
        KeyCode::Backspace => lemma_name_backspace(),
        _ => {},
    }
}

impl Default for Settings {
    fn default() -> (s: Self)
        ensures
            is_default_settings(s),
    {
        let mut binds = [KeyCode::KeyW; 16];
        let mut i: usize = 0;
        while i < ACTION_COUNT
            invariant
                i <= ACTION_COUNT,
                forall|k: int| 0 <= k < i ==> #[trigger] binds@[k] == spec_default_key(spec_action_at(k)),
            decreases ACTION_COUNT - i,
        {
            binds[i] = Action::at(i).default_key();
            i += 1;
        }
        Settings {
            vsync: true,
            fullscreen: false,
            width: WINDOW_WIDTH,
            height: WINDOW_HEIGHT,
            quality: Quality::High,
            brightness: 100,
            mouse_sens: 100,
            binds,
        }
    }
}

} // verus!
