//! What the pause menu shows: its buttons with their labels and highlight,
//! the captions and numbers beside them, where each button sits, and which
//! button a pointer is over. Positions are in ten-thousandths of the half
//! screen, from -10000 (left, bottom) to 10000 (right, top).
use vstd::prelude::*;

use crate::pause::{PauseHit, PauseMenu, PausePage, SettingsTab};
use crate::settings::{
    keycode_label, resolution, spec_action_at, spec_action_index, spec_action_label, spec_keycode_label,
    spec_resolution, Action, Quality, Settings, ACTION_COUNT, RESOLUTION_COUNT,
};

verus! {

/// A button as drawn: what clicking it does, its label, and whether it is lit
/// (hovered, or showing the current choice).
#[derive(Clone, Copy, Debug)]
pub struct PauseButton {
    pub hit: PauseHit,
    pub label: &'static str,
    pub on: bool,
}

/// Text drawn beside the buttons.
#[derive(Clone, Copy, Debug)]
pub enum PauseText {
    Caption(&'static str),
    Number(u8),
}

/// A button's box: its center and half extents.
#[derive(Clone, Copy, Debug, PartialEq, Eq, Structural)]
pub struct Rect {
    pub x: i32,
    pub y: i32,
    pub hw: i32,
    pub hh: i32,
}

pub open spec fn plain(hit: PauseHit, label: &'static str, hover: Option<PauseHit>) -> PauseButton {
    PauseButton { hit, label, on: hover == Some(hit) }
}

/// A settings tab is lit while it is the current one.
pub open spec fn tab_button(menu: PauseMenu, t: SettingsTab, label: &'static str, hover: Option<PauseHit>) -> PauseButton {
    PauseButton { hit: PauseHit::Tab(t), label, on: menu.tab == t || hover == Some(PauseHit::Tab(t)) }
}

/// A key binding shows its key, or `...` and lit while it waits for a key.
pub open spec fn bind_button(menu: PauseMenu, settings: Settings, hover: Option<PauseHit>, a: Action) -> PauseButton {
    let waiting = menu.waiting == Some(a);
    PauseButton {
        hit: PauseHit::Bind(a),
        label: if waiting { "..." } else { spec_keycode_label(settings.binds@[spec_action_index(a)]) },
        on: hover == Some(PauseHit::Bind(a)) || waiting,
    }
}

/// A resolution is lit while it is the window's size.
pub open spec fn resolution_button(settings: Settings, hover: Option<PauseHit>, i: int) -> PauseButton {
    match spec_resolution(i) {
        Some(r) => PauseButton {
            hit: PauseHit::Resolution(i as usize),
            label: r.2,
            on: (settings.width == r.0 && settings.height == r.1) || hover == Some(PauseHit::Resolution(i as usize)),
        },
        None => plain(PauseHit::Resolution(i as usize), "", hover),
    }
}

pub open spec fn quality_name(q: Quality) -> &'static str {
    match q {
        Quality::Low => "LOW",
        Quality::Medium => "MEDIUM",
        Quality::High => "HIGH",
        Quality::Ultra => "ULTRA",
    }
}

pub open spec fn quality_at(i: int) -> Quality {
    if i == 0 {
        Quality::Low
    } else if i == 1 {
        Quality::Medium
    } else if i == 2 {
        Quality::High
    } else {
        Quality::Ultra
    }
}

/// A quality preset is lit while it is the current one.
pub open spec fn quality_button(settings: Settings, hover: Option<PauseHit>, q: Quality) -> PauseButton {
    PauseButton {
        hit: PauseHit::Quality(q),
        label: quality_name(q),
        on: settings.quality == q || hover == Some(PauseHit::Quality(q)),
    }
}

/// The buttons of the current settings tab.
pub open spec fn tab_page_buttons(menu: PauseMenu, settings: Settings, hover: Option<PauseHit>) -> Seq<PauseButton> {
    match menu.tab {
        SettingsTab::Keybinds => Seq::new(
            ACTION_COUNT as nat,
            |i: int| bind_button(menu, settings, hover, spec_action_at(i)),
        ),
        SettingsTab::Display => Seq::new(RESOLUTION_COUNT as nat, |i: int| resolution_button(settings, hover, i)).push(
            plain(
                PauseHit::Fullscreen(!settings.fullscreen),
                if settings.fullscreen { "MODE  FULLSCREEN" } else { "MODE  WINDOWED" },
                hover,
            ),
        ),
        SettingsTab::Graphics => seq![plain(
            PauseHit::Vsync(!settings.vsync),
            if settings.vsync { "VSYNC  ON" } else { "VSYNC  OFF" },
            hover,
        )] + Seq::new(4, |i: int| quality_button(settings, hover, quality_at(i))) + seq![
            plain(PauseHit::Brightness(-5i8), "-", hover),
            plain(PauseHit::Brightness(5i8), "+", hover),
            plain(PauseHit::Sens(-5i8), "-", hover),
            plain(PauseHit::Sens(5i8), "+", hover),
        ],
    }
}

/// Every button of the open page, in drawing order.
pub open spec fn spec_pause_buttons(menu: PauseMenu, settings: Settings, hover: Option<PauseHit>) -> Seq<PauseButton> {
    match menu.page {
        PausePage::Root => seq![
            plain(PauseHit::Resume, "RESUME", hover),
            plain(PauseHit::OpenSettings, "SETTINGS", hover),
            plain(PauseHit::Exit, "EXIT GAME", hover),
        ],
        PausePage::ConfirmExit => seq![
            plain(PauseHit::ConfirmYes, "YES", hover),
            plain(PauseHit::ConfirmNo, "NO", hover),
        ],
        PausePage::Settings => seq![
            tab_button(menu, SettingsTab::Keybinds, "KEYS", hover),
            tab_button(menu, SettingsTab::Display, "DISPLAY", hover),
            tab_button(menu, SettingsTab::Graphics, "GRAPHICS", hover),
        ] + tab_page_buttons(menu, settings, hover) + seq![plain(PauseHit::Back, "BACK", hover)],
    }
}

fn is_hover(hover: Option<PauseHit>, hit: PauseHit) -> (r: bool)
    ensures
        r == (hover == Some(hit)),
{
    match hover {
        Some(h) => h == hit,
        None => false,
    }
}

fn plain_button(hit: PauseHit, label: &'static str, hover: Option<PauseHit>) -> (b: PauseButton)
    ensures
        b == plain(hit, label, hover),
{
    PauseButton { hit, label, on: is_hover(hover, hit) }
}

fn quality_of(i: usize) -> (q: Quality)
    ensures
        q == quality_at(i as int),
{
    if i == 0 {
        Quality::Low
    } else if i == 1 {
        Quality::Medium
    } else if i == 2 {
        Quality::High
    } else {
        Quality::Ultra
    }
}

/// The buttons of the open page of the menu, in drawing order, each with its
/// label and whether it is lit; `hover` is the button under the pointer.
pub fn pause_buttons(menu: &PauseMenu, settings: &Settings, hover: Option<PauseHit>) -> (r: Vec<PauseButton>)
    ensures
        r@ == spec_pause_buttons(*menu, *settings, hover),
{
    let mut out: Vec<PauseButton> = Vec::new();
    match menu.page {
        PausePage::Root => {
            out.push(plain_button(PauseHit::Resume, "RESUME", hover));
            out.push(plain_button(PauseHit::OpenSettings, "SETTINGS", hover));
            out.push(plain_button(PauseHit::Exit, "EXIT GAME", hover));
            assert(out@ =~= spec_pause_buttons(*menu, *settings, hover));
        },
        PausePage::ConfirmExit => {
            out.push(plain_button(PauseHit::ConfirmYes, "YES", hover));
            out.push(plain_button(PauseHit::ConfirmNo, "NO", hover));
            assert(out@ =~= spec_pause_buttons(*menu, *settings, hover));
        },
        PausePage::Settings => {
            out.push(PauseButton {
                hit: PauseHit::Tab(SettingsTab::Keybinds),
                label: "KEYS",
                on: menu.tab == SettingsTab::Keybinds || is_hover(hover, PauseHit::Tab(SettingsTab::Keybinds)),
            });
            out.push(PauseButton {
                hit: PauseHit::Tab(SettingsTab::Display),
                label: "DISPLAY",
                on: menu.tab == SettingsTab::Display || is_hover(hover, PauseHit::Tab(SettingsTab::Display)),
            });
            out.push(PauseButton {
                hit: PauseHit::Tab(SettingsTab::Graphics),
                label: "GRAPHICS",
                on: menu.tab == SettingsTab::Graphics || is_hover(hover, PauseHit::Tab(SettingsTab::Graphics)),
            });
            let ghost head = out@;
            let page = tab_buttons(menu, settings, hover);
            let mut i: usize = 0;
            while i < page.len()
                invariant
                    i <= page@.len(),
                    out@ == head + page@.take(i as int),
                decreases page@.len() - i,
            {
                out.push(page[i]);
                i += 1;
                assert(out@ =~= head + page@.take(i as int));
            }
            assert(page@.take(i as int) =~= page@);
            out.push(plain_button(PauseHit::Back, "BACK", hover));
            assert(out@ =~= spec_pause_buttons(*menu, *settings, hover));
        },
    }
    out
}

/// The buttons of the current settings tab.
fn tab_buttons(menu: &PauseMenu, settings: &Settings, hover: Option<PauseHit>) -> (r: Vec<PauseButton>)
    ensures
        r@ == tab_page_buttons(*menu, *settings, hover),
{
    let mut out: Vec<PauseButton> = Vec::new();
    match menu.tab {
        SettingsTab::Keybinds => {
            let mut i: usize = 0;
            while i < ACTION_COUNT
                invariant
                    i <= ACTION_COUNT,
                    out@ == Seq::new(i as nat, |k: int| bind_button(*menu, *settings, hover, spec_action_at(k))),
                decreases ACTION_COUNT - i,
            {
                let a = Action::at(i);
                let waiting = match menu.waiting {
                    Some(w) => w == a,
                    None => false,
                };
                let label = if waiting { "..." } else { keycode_label(settings.key(a)) };
                out.push(PauseButton { hit: PauseHit::Bind(a), label, on: is_hover(hover, PauseHit::Bind(a)) || waiting });
                i += 1;
                assert(out@ =~= Seq::new(i as nat, |k: int| bind_button(*menu, *settings, hover, spec_action_at(k))));
            }
        },
        SettingsTab::Display => {
            let mut i: usize = 0;
            while i < RESOLUTION_COUNT
                invariant
                    i <= RESOLUTION_COUNT,
                    out@ == Seq::new(i as nat, |k: int| resolution_button(*settings, hover, k)),
                decreases RESOLUTION_COUNT - i,
            {
                let b = match resolution(i) {
                    Some((w, h, label)) => PauseButton {
                        hit: PauseHit::Resolution(i),
                        label,
                        on: (settings.width == w && settings.height == h) || is_hover(hover, PauseHit::Resolution(i)),
                    },
                    None => plain_button(PauseHit::Resolution(i), "", hover),
                };
                out.push(b);
                i += 1;
                assert(out@ =~= Seq::new(i as nat, |k: int| resolution_button(*settings, hover, k)));
            }
            let fs = if settings.fullscreen { "MODE  FULLSCREEN" } else { "MODE  WINDOWED" };
            out.push(plain_button(PauseHit::Fullscreen(!settings.fullscreen), fs, hover));
        },
        SettingsTab::Graphics => {
            let vs = if settings.vsync { "VSYNC  ON" } else { "VSYNC  OFF" };
            out.push(plain_button(PauseHit::Vsync(!settings.vsync), vs, hover));
            let ghost head = out@;
            let mut i: usize = 0;
            while i < 4
                invariant
                    i <= 4,
                    out@ == head + Seq::new(i as nat, |k: int| quality_button(*settings, hover, quality_at(k))),
                decreases 4 - i,
            {
                let q = quality_of(i);
                out.push(PauseButton {
                    hit: PauseHit::Quality(q),
                    label: q.name(),
                    on: settings.quality == q || is_hover(hover, PauseHit::Quality(q)),
                });
                i += 1;
                assert(out@ =~= head + Seq::new(i as nat, |k: int| quality_button(*settings, hover, quality_at(k))));
            }
            out.push(plain_button(PauseHit::Brightness(-5), "-", hover));
            out.push(plain_button(PauseHit::Brightness(5), "+", hover));
            out.push(plain_button(PauseHit::Sens(-5), "-", hover));
            out.push(plain_button(PauseHit::Sens(5), "+", hover));
        },
    }
    assert(out@ =~= tab_page_buttons(*menu, *settings, hover));
    out
}

pub const BIND_HINT: &'static str = "CLICK A BIND THEN PRESS A KEY   ESC CANCELS";

/// The captions and numbers of the open page, in drawing order.
pub open spec fn spec_pause_texts(menu: PauseMenu, settings: Settings) -> Seq<PauseText> {
    match menu.page {
        PausePage::Root => seq![PauseText::Caption("PAUSED"), PauseText::Caption("THE WORLD HOLDS")],
        PausePage::ConfirmExit => seq![PauseText::Caption("LEAVE THE WORLD?")],
        PausePage::Settings => seq![PauseText::Caption("SETTINGS")] + match menu.tab {
            SettingsTab::Keybinds => Seq::new(
                ACTION_COUNT as nat,
                |i: int| PauseText::Caption(spec_action_label(spec_action_at(i))),
            ).push(PauseText::Caption(BIND_HINT)),
            SettingsTab::Display => Seq::empty(),
            SettingsTab::Graphics => seq![
                PauseText::Caption("QUALITY"),
                PauseText::Caption("BRIGHTNESS"),
                PauseText::Number(settings.brightness),
                PauseText::Caption("MOUSE SENS"),
                PauseText::Number(settings.mouse_sens),
            ],
        },
    }
}

/// The captions and numbers of the open page: titles, the action names
/// beside the key bindings, and the brightness and mouse sensitivity values.
pub fn pause_texts(menu: &PauseMenu, settings: &Settings) -> (r: Vec<PauseText>)
    ensures
        r@ == spec_pause_texts(*menu, *settings),
{
    let mut out: Vec<PauseText> = Vec::new();
    match menu.page {
        PausePage::Root => {
            out.push(PauseText::Caption("PAUSED"));
            out.push(PauseText::Caption("THE WORLD HOLDS"));
        },
        PausePage::ConfirmExit => {
            out.push(PauseText::Caption("LEAVE THE WORLD?"));
        },
        PausePage::Settings => {
            out.push(PauseText::Caption("SETTINGS"));
            match menu.tab {
                SettingsTab::Keybinds => {
                    let mut i: usize = 0;
                    while i < ACTION_COUNT
                        invariant
                            i <= ACTION_COUNT,
                            out@ == seq![PauseText::Caption("SETTINGS")] + Seq::new(
                                i as nat,
                                |k: int| PauseText::Caption(spec_action_label(spec_action_at(k))),
                            ),
                        decreases ACTION_COUNT - i,
                    {
                        out.push(PauseText::Caption(Action::at(i).label()));
                        i += 1;
                        assert(out@ =~= seq![PauseText::Caption("SETTINGS")] + Seq::new(
                            i as nat,
                            |k: int| PauseText::Caption(spec_action_label(spec_action_at(k))),
                        ));
                    }
                    out.push(PauseText::Caption(BIND_HINT));
                },
                SettingsTab::Display => {},
                SettingsTab::Graphics => {
                    out.push(PauseText::Caption("QUALITY"));
                    out.push(PauseText::Caption("BRIGHTNESS"));
                    out.push(PauseText::Number(settings.brightness));
                    out.push(PauseText::Caption("MOUSE SENS"));
                    out.push(PauseText::Number(settings.mouse_sens));
                },
            }
        },
    }
    assert(out@ =~= spec_pause_texts(*menu, *settings));
    out
}

pub open spec fn rect(x: int, y: int, hw: int, hh: int) -> Rect {
    Rect { x: x as i32, y: y as i32, hw: hw as i32, hh: hh as i32 }
}

/// The box of key binding `i`: two columns of eight rows.
pub open spec fn bind_rect(i: int) -> Rect {
    rect(if i < 8 { -1800 } else { 5800 }, 3600 - (i % 8) * 720, 1600, 280)
}

/// Where each button of the open page sits, in layout order (a later box
/// wins where two overlap).
pub open spec fn spec_pause_layout(menu: PauseMenu, settings: Settings) -> Seq<(PauseHit, Rect)> {
    match menu.page {
        PausePage::Root => seq![
            (PauseHit::Resume, rect(0, 1800, 3100, 500)),
            (PauseHit::OpenSettings, rect(0, 0, 3100, 500)),
            (PauseHit::Exit, rect(0, -1800, 3100, 500)),
        ],
        PausePage::ConfirmExit => seq![
            (PauseHit::ConfirmYes, rect(-2200, -800, 1400, 450)),
            (PauseHit::ConfirmNo, rect(2200, -800, 1400, 450)),
        ],
        PausePage::Settings => seq![
            (PauseHit::Tab(SettingsTab::Keybinds), rect(-4200, 5000, 1600, 375)),
            (PauseHit::Tab(SettingsTab::Display), rect(0, 5000, 1600, 375)),
            (PauseHit::Tab(SettingsTab::Graphics), rect(4200, 5000, 1600, 375)),
            (PauseHit::Back, rect(0, -6200, 2000, 400)),
        ] + match menu.tab {
            SettingsTab::Keybinds => Seq::new(
                ACTION_COUNT as nat,
                |i: int| (PauseHit::Bind(spec_action_at(i)), bind_rect(i)),
            ),
            SettingsTab::Display => Seq::new(
                RESOLUTION_COUNT as nat,
                |i: int| (PauseHit::Resolution(i as usize), rect(0, 3200 - 900 * i, 2750, 375)),
            ).push((PauseHit::Fullscreen(!settings.fullscreen), rect(0, -2200, 2750, 375))),
            SettingsTab::Graphics => seq![(PauseHit::Vsync(!settings.vsync), rect(0, 3000, 2750, 375))]
                + Seq::new(4, |i: int| (PauseHit::Quality(quality_at(i)), rect(-3600 + 2400 * i, 1000, 1000, 375)))
                + seq![
                (PauseHit::Brightness(-5i8), rect(-3800, -1200, 500, 350)),
                (PauseHit::Brightness(5i8), rect(3800, -1200, 500, 350)),
                (PauseHit::Sens(-5i8), rect(-3800, -3000, 500, 350)),
                (PauseHit::Sens(5i8), rect(3800, -3000, 500, 350)),
            ],
        },
    }
}

pub open spec fn contains(r: Rect, x: int, y: int) -> bool {
    r.x - r.hw <= x <= r.x + r.hw && r.y - r.hh <= y <= r.y + r.hh
}

/// The last box of `l` that holds the point.
pub open spec fn hit_in(l: Seq<(PauseHit, Rect)>, x: int, y: int) -> Option<PauseHit>
    decreases l.len(),
{
    if l.len() == 0 {
        None
    } else if contains(l.last().1, x, y) {
        Some(l.last().0)
    } else {
        hit_in(l.drop_last(), x, y)
    }
}

fn mk_rect(x: i32, y: i32, hw: i32, hh: i32) -> (r: Rect)
    ensures
        r == rect(x as int, y as int, hw as int, hh as int),
{
    Rect { x, y, hw, hh }
}

impl PauseMenu {
    /// Where each button of the open page sits, in layout order.
    pub fn layout(&self, settings: &Settings) -> (r: Vec<(PauseHit, Rect)>)
        ensures
            r@ == spec_pause_layout(*self, *settings),
    {
        let mut out: Vec<(PauseHit, Rect)> = Vec::new();
        match self.page {
            PausePage::Root => {
                out.push((PauseHit::Resume, mk_rect(0, 1800, 3100, 500)));
                out.push((PauseHit::OpenSettings, mk_rect(0, 0, 3100, 500)));
                out.push((PauseHit::Exit, mk_rect(0, -1800, 3100, 500)));
            },
            PausePage::ConfirmExit => {
                out.push((PauseHit::ConfirmYes, mk_rect(-2200, -800, 1400, 450)));
                out.push((PauseHit::ConfirmNo, mk_rect(2200, -800, 1400, 450)));
            },
            PausePage::Settings => {
                out.push((PauseHit::Tab(SettingsTab::Keybinds), mk_rect(-4200, 5000, 1600, 375)));
                out.push((PauseHit::Tab(SettingsTab::Display), mk_rect(0, 5000, 1600, 375)));
                out.push((PauseHit::Tab(SettingsTab::Graphics), mk_rect(4200, 5000, 1600, 375)));
                out.push((PauseHit::Back, mk_rect(0, -6200, 2000, 400)));
                let ghost head = out@;
                match self.tab {
                    SettingsTab::Keybinds => {
                        let mut i: usize = 0;
                        while i < ACTION_COUNT
                            invariant
                                i <= ACTION_COUNT,
                                out@ == head + Seq::new(
                                    i as nat,
                                    |k: int| (PauseHit::Bind(spec_action_at(k)), bind_rect(k)),
                                ),
                            decreases ACTION_COUNT - i,
                        {
                            let row = (i % 8) as i32;
                            let x: i32 = if i < 8 { -1800 } else { 5800 };
                            out.push((PauseHit::Bind(Action::at(i)), mk_rect(x, 3600 - row * 720, 1600, 280)));
                            i += 1;
                            assert(out@ =~= head + Seq::new(
                                i as nat,
                                |k: int| (PauseHit::Bind(spec_action_at(k)), bind_rect(k)),
                            ));
                        }
                    },
                    SettingsTab::Display => {
                        let mut i: usize = 0;
                        while i < RESOLUTION_COUNT
                            invariant
                                i <= RESOLUTION_COUNT,
                                out@ == head + Seq::new(
                                    i as nat,
                                    |k: int| (PauseHit::Resolution(k as usize), rect(0, 3200 - 900 * k, 2750, 375)),
                                ),
                            decreases RESOLUTION_COUNT - i,
                        {
                            let y = 3200 - 900 * (i as i32);
                            out.push((PauseHit::Resolution(i), mk_rect(0, y, 2750, 375)));
                            i += 1;
                            assert(out@ =~= head + Seq::new(
                                i as nat,
                                |k: int| (PauseHit::Resolution(k as usize), rect(0, 3200 - 900 * k, 2750, 375)),
                            ));
                        }
                        out.push((PauseHit::Fullscreen(!settings.fullscreen), mk_rect(0, -2200, 2750, 375)));
                    },
                    SettingsTab::Graphics => {
                        out.push((PauseHit::Vsync(!settings.vsync), mk_rect(0, 3000, 2750, 375)));
                        let ghost head2 = out@;
                        let mut i: usize = 0;
                        while i < 4
                            invariant
                                i <= 4,
                                out@ == head2 + Seq::new(
                                    i as nat,
                                    |k: int| (PauseHit::Quality(quality_at(k)), rect(-3600 + 2400 * k, 1000, 1000, 375)),
                                ),
                            decreases 4 - i,
                        {
                            let x = -3600 + 2400 * (i as i32);
                            out.push((PauseHit::Quality(quality_of(i)), mk_rect(x, 1000, 1000, 375)));
                            i += 1;
                            assert(out@ =~= head2 + Seq::new(
                                i as nat,
                                |k: int| (PauseHit::Quality(quality_at(k)), rect(-3600 + 2400 * k, 1000, 1000, 375)),
                            ));
                        }
                        out.push((PauseHit::Brightness(-5), mk_rect(-3800, -1200, 500, 350)));
                        out.push((PauseHit::Brightness(5), mk_rect(3800, -1200, 500, 350)));
                        out.push((PauseHit::Sens(-5), mk_rect(-3800, -3000, 500, 350)));
                        out.push((PauseHit::Sens(5), mk_rect(3800, -3000, 500, 350)));
                    },
                }
            },
        }
        assert(out@ =~= spec_pause_layout(*self, *settings));
        out
    }

    /// The button under the point `(mx, my)`; where boxes overlap, the one
    /// laid out last.
    pub fn hit(&self, settings: &Settings, mx: i32, my: i32) -> (r: Option<PauseHit>)
        ensures
            r == hit_in(spec_pause_layout(*self, *settings), mx as int, my as int),
    {
        let l = self.layout(settings);
        let mut i: usize = l.len();
        assert(l@.take(i as int) =~= l@);
        while i > 0
            invariant
                i <= l@.len(),
                l@ == spec_pause_layout(*self, *settings),
                hit_in(l@, mx as int, my as int) == hit_in(l@.take(i as int), mx as int, my as int),
            decreases i,
        {
            let (h, r) = l[i - 1];
            let x = mx as i64;
            let y = my as i64;
            assert(l@.take(i as int).drop_last() =~= l@.take(i - 1));
            assert(l@.take(i as int).last() == l@[i - 1]);
            if r.x as i64 - r.hw as i64 <= x && x <= r.x as i64 + r.hw as i64 && r.y as i64 - r.hh as i64 <= y
                && y <= r.y as i64 + r.hh as i64 {
                return Some(h);
            }
            i -= 1;
        }
        assert(l@.take(0) =~= Seq::<(PauseHit, Rect)>::empty());
        None
    }
}

} // verus!
