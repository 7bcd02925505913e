//! Pause menu state: Escape toggles it; settings pages cover key bindings,
//! display and graphics. Writing the settings file is left to the caller,
//! which is told when a click changed something worth saving.
use vstd::prelude::*;

use crate::settings::{resolution, spec_resolution, Action, KeyCode, Quality, Settings, rebind};

verus! {

#[derive(Clone, Copy, Debug, PartialEq, Eq, Structural)]
pub enum PausePage {
    Root,
    Settings,
    ConfirmExit,
}

#[derive(Clone, Copy, Debug, PartialEq, Eq, Structural)]
pub enum SettingsTab {
    Keybinds,
    Display,
    Graphics,
}

/// A clickable element of the menu.
#[derive(Clone, Copy, Debug, PartialEq, Eq, Structural)]
pub enum PauseHit {
    Resume,
    OpenSettings,
    Exit,
    ConfirmYes,
    ConfirmNo,
    Back,
    Tab(SettingsTab),
    Bind(Action),
    Resolution(usize),
    Fullscreen(bool),
    Vsync(bool),
    Quality(Quality),
    Brightness(i8),
    Sens(i8),
}

/// What the game does after a click.
#[derive(Clone, Copy, Debug, PartialEq, Eq, Structural)]
pub enum PauseResult {
    /// Nothing for the game to do.
    Nothing,
    Resume,
    Exit,
    ApplyDisplay,
    ApplyGraphics,
}

#[derive(Clone, Copy, Debug)]
pub struct PauseMenu {
    pub open: bool,
    pub page: PausePage,
    pub tab: SettingsTab,
    /// The action waiting for a key press to rebind.
    pub waiting: Option<Action>,
    pub hover: Option<PauseHit>,
}

/// A click's effect: the result for the game, and whether the settings changed
/// and should be written to disk.
#[derive(Clone, Copy, Debug)]
pub struct ClickOutcome {
    pub result: PauseResult,
    pub save: bool,
}

/// `v + d` kept within `lo..=hi`.
pub open spec fn clamp_step(v: u8, d: i8, lo: int, hi: int) -> u8 {
    let x = v + d;
    (if x < lo { lo } else if x > hi { hi } else { x }) as u8
}

impl PauseMenu {

    /// Open or close; opening always starts on the root page.
    pub fn toggle(&mut self)
        ensures
            final(self).open == !old(self).open,
            final(self).open ==> final(self).page == PausePage::Root && final(self).waiting is None,
            !final(self).open ==> final(self).page == old(self).page && final(self).waiting == old(self).waiting,
            final(self).tab == old(self).tab && final(self).hover == old(self).hover,
    {
        self.open = !self.open;
        if self.open {
            self.page = PausePage::Root;
            self.waiting = None;
        }
    }

    pub fn close(&mut self)
        ensures
            !final(self).open && final(self).waiting is None && final(self).page == PausePage::Root,
            final(self).tab == old(self).tab && final(self).hover == old(self).hover,
    {
        self.open = false;
        self.waiting = None;
        self.page = PausePage::Root;
    }

    /// Apply a click on `hit`.
    pub fn click(&mut self, settings: &mut Settings, hit: PauseHit) -> (out: ClickOutcome)
        ensures
            final(self).hover == old(self).hover,
            final(settings).binds == old(settings).binds,
            match hit {
                PauseHit::Resume => out.result == PauseResult::Resume && !out.save && !final(self).open
                    && final(self).page == PausePage::Root && final(self).waiting is None
                    && final(self).tab == old(self).tab && *final(settings) == *old(settings),
                PauseHit::OpenSettings => out.result == PauseResult::Nothing && !out.save && *final(self) == (
                PauseMenu { page: PausePage::Settings, ..*old(self) }) && *final(settings) == *old(settings),
                PauseHit::Exit => out.result == PauseResult::Nothing && !out.save && *final(self) == (PauseMenu {
                    page: PausePage::ConfirmExit,
                    ..*old(self)
                }) && *final(settings) == *old(settings),
                PauseHit::ConfirmYes => out.result == PauseResult::Exit && !out.save && *final(self) == *old(
                    self,
                ) && *final(settings) == *old(settings),
                PauseHit::ConfirmNo => out.result == PauseResult::Nothing && !out.save && *final(self) == (
                PauseMenu { page: PausePage::Root, ..*old(self) }) && *final(settings) == *old(settings),
                PauseHit::Back => out.result == PauseResult::Nothing && !out.save && *final(self) == (PauseMenu {
                    page: PausePage::Root,
                    waiting: None,
                    ..*old(self)
                }) && *final(settings) == *old(settings),
                PauseHit::Tab(t) => out.result == PauseResult::Nothing && !out.save && *final(self) == (PauseMenu {
                    tab: t,
                    waiting: None,
                    ..*old(self)
                }) && *final(settings) == *old(settings),
                PauseHit::Bind(a) => out.result == PauseResult::Nothing && !out.save && *final(self) == (
                PauseMenu { waiting: Some(a), ..*old(self) }) && *final(settings) == *old(settings),
                PauseHit::Resolution(i) => *final(self) == *old(self) && match spec_resolution(i as int) {
                    Some(r) => out.result == PauseResult::ApplyDisplay && out.save && *final(settings) == (
                    Settings { width: r.0, height: r.1, ..*old(settings) }),
                    None => out.result == PauseResult::Nothing && !out.save && *final(settings) == *old(settings),
                },
                PauseHit::Fullscreen(v) => out.result == PauseResult::ApplyDisplay && out.save && *final(self)
                    == *old(self) && *final(settings) == (Settings { fullscreen: v, ..*old(settings) }),
                PauseHit::Vsync(v) => out.result == PauseResult::ApplyGraphics && out.save && *final(self)
                    == *old(self) && *final(settings) == (Settings { vsync: v, ..*old(settings) }),
                PauseHit::Quality(q) => out.result == PauseResult::ApplyGraphics && out.save && *final(self)
                    == *old(self) && *final(settings) == (Settings { quality: q, ..*old(settings) }),
                PauseHit::Brightness(d) => out.result == PauseResult::ApplyGraphics && out.save && *final(self)
                    == *old(self) && *final(settings) == (Settings {
                    brightness: clamp_step(old(settings).brightness, d, 50, 150),
                    ..*old(settings)
                }),
                PauseHit::Sens(d) => out.result == PauseResult::Nothing && out.save && *final(self) == *old(self)
                    && *final(settings) == (Settings {
                    mouse_sens: clamp_step(old(settings).mouse_sens, d, 50, 200),
                    ..*old(settings)
                }),
            },
    {
        match hit {
            PauseHit::Resume => {
                self.close();
                ClickOutcome { result: PauseResult::Resume, save: false }
            },
            PauseHit::OpenSettings => {
                self.page = PausePage::Settings;
                ClickOutcome { result: PauseResult::Nothing, save: false }
            },
            PauseHit::Exit => {
                self.page = PausePage::ConfirmExit;
                ClickOutcome { result: PauseResult::Nothing, save: false }
            },
            PauseHit::ConfirmYes => ClickOutcome { result: PauseResult::Exit, save: false },
            PauseHit::ConfirmNo => {
                self.page = PausePage::Root;
                ClickOutcome { result: PauseResult::Nothing, save: false }
            },
            PauseHit::Back => {
                self.page = PausePage::Root;
                self.waiting = None;
                ClickOutcome { result: PauseResult::Nothing, save: false }
            },
            PauseHit::Tab(t) => {
                self.tab = t;
                self.waiting = None;
                ClickOutcome { result: PauseResult::Nothing, save: false }
            },
            PauseHit::Bind(a) => {
                self.waiting = Some(a);
                ClickOutcome { result: PauseResult::Nothing, save: false }
            },
            PauseHit::Resolution(i) => {
                match resolution(i) {
                    Some((w, h, _)) => {
                        settings.width = w;
                        settings.height = h;
                        ClickOutcome { result: PauseResult::ApplyDisplay, save: true }
                    },
                    None => ClickOutcome { result: PauseResult::Nothing, save: false },
                }
            },
            PauseHit::Fullscreen(v) => {
                settings.fullscreen = v;
                ClickOutcome { result: PauseResult::ApplyDisplay, save: true }
            },
            PauseHit::Vsync(v) => {
                settings.vsync = v;
                ClickOutcome { result: PauseResult::ApplyGraphics, save: true }
            },
            PauseHit::Quality(q) => {
                settings.quality = q;
                ClickOutcome { result: PauseResult::ApplyGraphics, save: true }
            },
            PauseHit::Brightness(d) => {
                settings.brightness = step_clamped(settings.brightness, d, 50, 150);
                ClickOutcome { result: PauseResult::ApplyGraphics, save: true }
            },
            PauseHit::Sens(d) => {
                settings.mouse_sens = step_clamped(settings.mouse_sens, d, 50, 200);
                ClickOutcome { result: PauseResult::Nothing, save: true }
            },
        }
    }

    /// A key pressed while a binding waits: Escape cancels, any other key is
    /// bound. Returns whether the settings changed (and should be saved).
    pub fn capture_rebind(&mut self, settings: &mut Settings, code: KeyCode) -> (save: bool)
        ensures
            final(self).waiting is None,
            final(self).open == old(self).open && final(self).page == old(self).page,
            final(self).tab == old(self).tab && final(self).hover == old(self).hover,
            match old(self).waiting {
                Some(a) => if code == KeyCode::Escape {
                    !save && *final(settings) == *old(settings)
                } else {
                    save && final(settings).binds@ == rebind(old(settings).binds@, a, code)
                        && final(settings).width == old(settings).width
                        && final(settings).height == old(settings).height
                        && final(settings).quality == old(settings).quality
                        && final(settings).vsync == old(settings).vsync
                        && final(settings).fullscreen == old(settings).fullscreen
                        && final(settings).brightness == old(settings).brightness
                        && final(settings).mouse_sens == old(settings).mouse_sens
                },
                None => !save && *final(settings) == *old(settings),
            },
    {
        let waiting = self.waiting;
        self.waiting = None;
        match waiting {
            Some(a) => {
                if code == KeyCode::Escape {
                    return false;
                }
                settings.set_key(a, code);
                true
            },
            None => false,
        }
    }
}

fn step_clamped(v: u8, d: i8, lo: u8, hi: u8) -> (r: u8)
    requires
        lo <= hi,
    ensures
        r == clamp_step(v, d, lo as int, hi as int),
{
    let x: i16 = v as i16 + d as i16;
    if x < lo as i16 {
        lo
    } else if x > hi as i16 {
        hi
    } else {
        x as u8
    }
}

impl Default for PauseMenu {
    /// A closed menu on the root page.
    fn default() -> (m: Self)
        ensures
            !m.open && m.page == PausePage::Root && m.tab == SettingsTab::Keybinds && m.waiting is None
                && m.hover is None,
    {
        PauseMenu { open: false, page: PausePage::Root, tab: SettingsTab::Keybinds, waiting: None, hover: None }
    }
}

} // verus!
