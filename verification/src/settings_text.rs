//! The settings file: `key=value` lines, read back into [`Settings`] and
//! written out from them.
use vstd::prelude::*;
use vstd::array::spec_array_update;
use vstd::string::StrSliceExecFns;

use crate::items::codec::{dec_chars, push_decimal};
use crate::settings::{
    is_default_settings, key_of_name, keycode_from_name, keycode_token, spec_action_at, spec_action_id,
    spec_action_index, spec_keycode_token, spec_quality_as_u8, spec_quality_from_u8, Action, KeyCode,
    Quality, Settings, ACTION_COUNT,
};

verus! {

broadcast use vstd::string::group_string_axioms, vstd::array::group_array_axioms;

/// Unicode white space, as `char::is_whitespace` and `str::trim` see it.
pub open spec fn is_ws(c: char) -> bool {
    let u = c as u32;
    ||| 9 <= u <= 13
    ||| u == 32
    ||| u == 0x85
    ||| u == 0xA0
    ||| u == 0x1680
    ||| 0x2000 <= u <= 0x200A
    ||| u == 0x2028
    ||| u == 0x2029
    ||| u == 0x202F
    ||| u == 0x205F
    ||| u == 0x3000
}

pub open spec fn trim_start(s: Seq<char>) -> Seq<char>
    decreases s.len(),
{
    if s.len() > 0 && is_ws(s[0]) {
        trim_start(s.drop_first())
    } else {
        s
    }
}

pub open spec fn trim_end(s: Seq<char>) -> Seq<char>
    decreases s.len(),
{
    if s.len() > 0 && is_ws(s.last()) {
        trim_end(s.drop_last())
    } else {
        s
    }
}

/// `s` without white space at either end.
pub open spec fn trim(s: Seq<char>) -> Seq<char> {
    trim_end(trim_start(s))
}

/// The place of the first `c` in `s`.
pub open spec fn find_char(s: Seq<char>, c: char) -> Option<int>
    decreases s.len(),
{
    if s.len() == 0 {
        None
    } else if s[0] == c {
        Some(0)
    } else {
        match find_char(s.drop_first(), c) {
            Some(i) => Some(i + 1),
            None => None,
        }
    }
}

fn ws(c: char) -> (r: bool)
    ensures
        r == is_ws(c),
{
    let u = c as u32;
    (9 <= u && u <= 13) || u == 32 || u == 0x85 || u == 0xA0 || u == 0x1680 || (0x2000 <= u && u
        <= 0x200A) || u == 0x2028 || u == 0x2029 || u == 0x202F || u == 0x205F || u == 0x3000
}

/// The characters of `text`.
fn text_chars(text: &str) -> (cs: Vec<char>)
    ensures
        cs@ == text@,
{
    let mut cs: Vec<char> = Vec::new();
    for c in it: text.chars()
        invariant
            it.seq() == text@,
            cs@ == it.seq().take(it.index()),
    {
        assert(it.seq().take(it.index() + 1) =~= it.seq().take(it.index()).push(c));
        cs.push(c);
    }
    assert(cs@ =~= text@);
    cs
}

proof fn lemma_trim_start_step(s: Seq<char>, a: int, b: int)
    requires
        0 <= a < b <= s.len(),
        is_ws(s[a]),
    ensures
        trim_start(s.subrange(a, b)) == trim_start(s.subrange(a + 1, b)),
{
    assert(s.subrange(a, b).drop_first() =~= s.subrange(a + 1, b));
}

proof fn lemma_trim_end_step(s: Seq<char>, a: int, b: int)
    requires
        0 <= a < b <= s.len(),
        is_ws(s[b - 1]),
    ensures
        trim_end(s.subrange(a, b)) == trim_end(s.subrange(a, b - 1)),
{
    assert(s.subrange(a, b).drop_last() =~= s.subrange(a, b - 1));
}

/// The bounds of `cs[a..b]` trimmed.
fn trim_range(cs: &Vec<char>, a: usize, b: usize) -> (r: (usize, usize))
    requires
        a <= b <= cs@.len(),
    ensures
        a <= r.0 <= r.1 <= b,
        cs@.subrange(r.0 as int, r.1 as int) == trim(cs@.subrange(a as int, b as int)),
{
    let mut i = a;
    while i < b && ws(cs[i])
        invariant
            a <= i <= b <= cs@.len(),
            trim_start(cs@.subrange(a as int, b as int)) == trim_start(cs@.subrange(i as int, b as int)),
        decreases b - i,
    {
        proof {
            lemma_trim_start_step(cs@, i as int, b as int);
        }
        i += 1;
    }
    assert(trim_start(cs@.subrange(i as int, b as int)) == cs@.subrange(i as int, b as int));
    let mut j = b;
    while j > i && ws(cs[j - 1])
        invariant
            a <= i <= j <= b <= cs@.len(),
            trim_end(cs@.subrange(i as int, b as int)) == trim_end(cs@.subrange(i as int, j as int)),
        decreases j - i,
    {
        proof {
            lemma_trim_end_step(cs@, i as int, j as int);
        }
        j -= 1;
    }
    (i, j)
}

/// The first `c` at or after `a` and before `b`.
fn find_in(cs: &Vec<char>, a: usize, b: usize, c: char) -> (r: Option<usize>)
    requires
        a <= b <= cs@.len(),
    ensures
        r == (match find_char(cs@.subrange(a as int, b as int), c) {
            Some(i) => Some((a + i) as usize),
            None => None,
        }),
{
    let mut i = a;
    while i < b
        invariant
            a <= i <= b <= cs@.len(),
            find_char(cs@.subrange(a as int, b as int), c) == (match find_char(
                cs@.subrange(i as int, b as int),
                c,
            ) {
                Some(k) => Some(k + (i - a)),
                None => None,
            }),
        decreases b - i,
    {
        assert(cs@.subrange(i as int, b as int).drop_first() =~= cs@.subrange(i + 1, b as int));
        if cs[i] == c {
            return Some(i);
        }
        i += 1;
    }
    None
}

/// Whether `cs[a..b]` is the text `lit`.
fn range_is(cs: &Vec<char>, a: usize, b: usize, lit: &str) -> (r: bool)
    requires
        a <= b <= cs@.len(),
    ensures
        r == (cs@.subrange(a as int, b as int) == lit@),
{
    let n = lit.unicode_len();
    if b - a != n {
        return false;
    }
    let mut i: usize = 0;
    while i < n
        invariant
            n == lit@.len(),
            b - a == n,
            a <= b <= cs@.len(),
            i <= n,
            forall|k: int| 0 <= k < i ==> cs@[a + k] == lit@[k],
        decreases n - i,
    {
        if cs[a + i] != lit.get_char(i) {
            assert(cs@.subrange(a as int, b as int)[i as int] != lit@[i as int]);
            return false;
        }
        i += 1;
    }
    assert(cs@.subrange(a as int, b as int) =~= lit@);
    true
}

pub open spec fn is_dec(c: char) -> bool {
    '0' <= c <= '9'
}

/// The value of a run of decimal digits.
pub open spec fn dec_value(d: Seq<char>) -> nat
    decreases d.len(),
{
    if d.len() == 0 {
        0
    } else {
        dec_value(d.drop_last()) * 10 + ((d.last() as u32) - 48) as nat
    }
}

/// `v` without a leading `+`.
pub open spec fn digits_part(v: Seq<char>) -> Seq<char> {
    if v.len() > 0 && v[0] == '+' {
        v.drop_first()
    } else {
        v
    }
}

/// Unsigned decimal parsing as `str::parse` does it: an optional `+`, then
/// one or more ASCII digits whose value is at most `max`.
pub open spec fn unsigned_of(v: Seq<char>, max: nat) -> Option<nat> {
    let d = digits_part(v);
    if d.len() > 0 && (forall|i: int| 0 <= i < d.len() ==> is_dec(#[trigger] d[i])) && dec_value(d) <= max {
        Some(dec_value(d))
    } else {
        None
    }
}

proof fn lemma_dec_value_step(s: Seq<char>, a: int, j: int)
    requires
        0 <= a <= j < s.len(),
    ensures
        dec_value(s.subrange(a, j + 1)) == dec_value(s.subrange(a, j)) * 10 + ((s[j] as u32) - 48) as nat,
{
    assert(s.subrange(a, j + 1).drop_last() =~= s.subrange(a, j));
}

/// `cs[a..b]` parsed as an unsigned number no larger than `max`.
fn parse_unsigned(cs: &Vec<char>, a: usize, b: usize, max: u32) -> (r: Option<u32>)
    requires
        a <= b <= cs@.len(),
    ensures
        r == (match unsigned_of(cs@.subrange(a as int, b as int), max as nat) {
            Some(n) => Some(n as u32),
            None => None,
        }),
{
    let ghost v = cs@.subrange(a as int, b as int);
    let mut i = a;
    if i < b && cs[i] == '+' {
        i += 1;
    }
    let ghost d = digits_part(v);
    assert(d =~= cs@.subrange(i as int, b as int));
    if i == b {
        return None;
    }
    let cap: u64 = max as u64 + 1;
    let mut acc: u64 = 0;
    let mut j = i;
    assert(cs@.subrange(i as int, i as int) =~= Seq::<char>::empty());
    while j < b
        invariant
            a <= i <= j <= b <= cs@.len(),
            cap == max + 1,
            v == cs@.subrange(a as int, b as int),
            d == digits_part(v),
            d == cs@.subrange(i as int, b as int),
            forall|k: int| i <= k < j ==> is_dec(#[trigger] cs@[k]),
            acc == (if dec_value(cs@.subrange(i as int, j as int)) <= max {
                dec_value(cs@.subrange(i as int, j as int))
            } else {
                cap as nat
            }),
        decreases b - j,
    {
        let c = cs[j];
        if !('0' <= c && c <= '9') {
            assert(!is_dec(d[j - i]));
            assert(!(forall|k: int| 0 <= k < d.len() ==> is_dec(#[trigger] d[k])));
            assert(unsigned_of(v, max as nat) is None);
            return None;
        }
        proof {
            lemma_dec_value_step(cs@, i as int, j as int);
        }
        let dv = (c as u32 - 48) as u64;
        acc = acc * 10 + dv;
        if acc > cap {
            acc = cap;
        }
        j += 1;
    }
    assert forall|k: int| 0 <= k < d.len() implies is_dec(#[trigger] d[k]) by {
        assert(d[k] == cs@[i + k]);
    }
    assert(cs@.subrange(i as int, j as int) =~= d);
    if acc > max as u64 {
        None
    } else {
        Some(acc as u32)
    }
}

pub open spec fn ascii_lower(c: char) -> char {
    if 'A' <= c <= 'Z' {
        ((c as u32) + 32) as char
    } else {
        c
    }
}

/// Equality up to ASCII case, as `str::eq_ignore_ascii_case`.
pub open spec fn eq_ignore_ascii_case(a: Seq<char>, b: Seq<char>) -> bool {
    &&& a.len() == b.len()
    &&& forall|i: int| 0 <= i < a.len() ==> #[trigger] ascii_lower(a[i]) == ascii_lower(b[i])
}

fn lower(c: char) -> (r: char)
    ensures
        r == ascii_lower(c),
{
    if 'A' <= c && c <= 'Z' {
        let b: u8 = c as u8;
        ((b + 32) as char)
    } else {
        c
    }
}

/// Whether `cs[a..b]` equals `lit` up to ASCII case.
fn range_is_ignore_case(cs: &Vec<char>, a: usize, b: usize, lit: &str) -> (r: bool)
    requires
        a <= b <= cs@.len(),
    ensures
        r == eq_ignore_ascii_case(cs@.subrange(a as int, b as int), lit@),
{
    let n = lit.unicode_len();
    if b - a != n {
        return false;
    }
    let mut i: usize = 0;
    while i < n
        invariant
            n == lit@.len(),
            b - a == n,
            a <= b <= cs@.len(),
            i <= n,
            forall|k: int| 0 <= k < i ==> ascii_lower(cs@[a + k]) == #[trigger] ascii_lower(lit@[k]),
        decreases n - i,
    {
        if lower(cs[a + i]) != lower(lit.get_char(i)) {
            assert(ascii_lower(cs@.subrange(a as int, b as int)[i as int]) != ascii_lower(lit@[i as int]));
            return false;
        }
        i += 1;
    }
    assert forall|k: int| 0 <= k < n implies #[trigger] ascii_lower(cs@.subrange(a as int, b as int)[k])
        == ascii_lower(lit@[k]) by {
        assert(cs@.subrange(a as int, b as int)[k] == cs@[a + k]);
    }
    true
}

/// The action whose file id is `id`, searching the binding table from `i`.
pub open spec fn action_of_id_from(id: Seq<char>, i: int) -> Option<Action>
    decreases ACTION_COUNT - i,
{
    if i < 0 || i >= ACTION_COUNT {
        None
    } else if spec_action_id(spec_action_at(i))@ == id {
        Some(spec_action_at(i))
    } else {
        action_of_id_from(id, i + 1)
    }
}

/// The action whose file id is `id`.
pub open spec fn action_of_id(id: Seq<char>) -> Option<Action> {
    action_of_id_from(id, 0)
}

/// A flag value: `1` or, in any case, `true`.
pub open spec fn flag_of(v: Seq<char>) -> bool {
    v == "1"@ || eq_ignore_ascii_case(v, "true"@)
}

/// `n` kept within `lo..=hi`.
pub open spec fn clamp_u8(n: u8, lo: u8, hi: u8) -> u8 {
    if n < lo {
        lo
    } else if n > hi {
        hi
    } else {
        n
    }
}

/// A byte value, or `fallback` where `v` is not one.
pub open spec fn u8_or(v: Seq<char>, fallback: u8) -> u8 {
    match unsigned_of(v, 255) {
        Some(n) => n as u8,
        None => fallback,
    }
}

/// A `u32` value, or `fallback` where `v` is not one.
pub open spec fn u32_or(v: Seq<char>, fallback: u32) -> u32 {
    match unsigned_of(v, u32::MAX as nat) {
        Some(n) => n as u32,
        None => fallback,
    }
}

/// One `key=value` setting applied to `s`; unknown keys, unknown actions
/// and unknown key names change nothing.
pub open spec fn apply_pair(s: Settings, k: Seq<char>, v: Seq<char>) -> Settings {
    if k == "vsync"@ {
        Settings { vsync: flag_of(v), ..s }
    } else if k == "fullscreen"@ {
        Settings { fullscreen: flag_of(v), ..s }
    } else if k == "width"@ {
        Settings { width: u32_or(v, s.width), ..s }
    } else if k == "height"@ {
        Settings { height: u32_or(v, s.height), ..s }
    } else if k == "quality"@ {
        Settings { quality: spec_quality_from_u8(u8_or(v, 2)), ..s }
    } else if k == "brightness"@ {
        Settings { brightness: clamp_u8(u8_or(v, 100), 50, 150), ..s }
    } else if k == "mouse_sens"@ {
        Settings { mouse_sens: clamp_u8(u8_or(v, 100), 50, 200), ..s }
    } else if k.len() >= 5 && k.take(5) == "bind."@ {
        match action_of_id(k.skip(5)) {
            Some(a) => match key_of_name(v) {
                Some(code) => Settings { binds: spec_array_update(s.binds, spec_action_index(a), code), ..s },
                None => s,
            },
            None => s,
        }
    } else {
        s
    }
}

/// One line of the file applied to `s`: blank lines, `#` comments and
/// lines without `=` change nothing; otherwise the trimmed text before the
/// first `=` is the key and the trimmed rest the value.
pub open spec fn apply_line(s: Settings, line: Seq<char>) -> Settings {
    let l = trim(line);
    if l.len() == 0 || l[0] == '#' {
        s
    } else {
        match find_char(l, '=') {
            Some(e) => apply_pair(s, trim(l.take(e)), trim(l.skip(e + 1))),
            None => s,
        }
    }
}

/// Where `find_char` stops: at the first `c`, or nowhere if `s` has none.
pub proof fn lemma_find_char_bounds(s: Seq<char>, c: char)
    ensures
        find_char(s, c) matches Some(i) ==> 0 <= i < s.len() && s[i] == c && forall|k: int|
            0 <= k < i ==> s[k] != c,
        find_char(s, c) is None ==> forall|k: int| 0 <= k < s.len() ==> s[k] != c,
    decreases s.len(),
{
    if s.len() > 0 && s[0] != c {
        lemma_find_char_bounds(s.drop_first(), c);
        assert forall|k: int| 1 <= k < s.len() implies s[k] == s.drop_first()[k - 1] by {}
    }
}

/// Every line of `t` (split at `\n`) applied to `s` in order.
pub open spec fn apply_lines(s: Settings, t: Seq<char>) -> Settings
    decreases t.len(),
{
    match find_char(t, '\n') {
        Some(i) => {
            proof {
                lemma_find_char_bounds(t, '\n');
            }
            apply_lines(apply_line(s, t.take(i)), t.skip(i + 1))
        },
        None => apply_line(s, t),
    }
}

/// The action whose file id is `cs[a..b]`.
fn action_of_range(cs: &Vec<char>, a: usize, b: usize) -> (r: Option<Action>)
    requires
        a <= b <= cs@.len(),
    ensures
        r == action_of_id(cs@.subrange(a as int, b as int)),
{
    let mut i: usize = 0;
    while i < ACTION_COUNT
        invariant
            i <= ACTION_COUNT,
            a <= b <= cs@.len(),
            action_of_id(cs@.subrange(a as int, b as int)) == action_of_id_from(cs@.subrange(a as int, b as int), i as int),
        decreases ACTION_COUNT - i,
    {
        let act = Action::at(i);
        if range_is(cs, a, b, act.id()) {
            return Some(act);
        }
        i += 1;
    }
    None
}

/// `cs[a..b]` as a flag value.
fn flag_range(cs: &Vec<char>, a: usize, b: usize) -> (r: bool)
    requires
        a <= b <= cs@.len(),
    ensures
        r == flag_of(cs@.subrange(a as int, b as int)),
{
    range_is(cs, a, b, "1") || range_is_ignore_case(cs, a, b, "true")
}

fn u8_range_or(cs: &Vec<char>, a: usize, b: usize, fallback: u8) -> (r: u8)
    requires
        a <= b <= cs@.len(),
    ensures
        r == u8_or(cs@.subrange(a as int, b as int), fallback),
{
    match parse_unsigned(cs, a, b, 255) {
        Some(n) => n as u8,
        None => fallback,
    }
}

fn clamp_to(n: u8, lo: u8, hi: u8) -> (r: u8)
    ensures
        r == clamp_u8(n, lo, hi),
{
    if n < lo {
        lo
    } else if n > hi {
        hi
    } else {
        n
    }
}

/// Apply the setting with key `cs[ka..kb]` and value `cs[va..vb]`.
fn apply_pair_range(s: &mut Settings, text: &str, cs: &Vec<char>, ka: usize, kb: usize, va: usize, vb: usize)
    requires
        cs@ == text@,
        ka <= kb <= cs@.len(),
        va <= vb <= cs@.len(),
    ensures
        *final(s) == apply_pair(*old(s), cs@.subrange(ka as int, kb as int), cs@.subrange(va as int, vb as int)),
{
    let ghost k = cs@.subrange(ka as int, kb as int);
    if range_is(cs, ka, kb, "vsync") {
        s.vsync = flag_range(cs, va, vb);
    } else if range_is(cs, ka, kb, "fullscreen") {
        s.fullscreen = flag_range(cs, va, vb);
    } else if range_is(cs, ka, kb, "width") {
        s.width = match parse_unsigned(cs, va, vb, u32::MAX) {
            Some(n) => n,
            None => s.width,
        };
    } else if range_is(cs, ka, kb, "height") {
        s.height = match parse_unsigned(cs, va, vb, u32::MAX) {
            Some(n) => n,
            None => s.height,
        };
    } else if range_is(cs, ka, kb, "quality") {
        s.quality = Quality::from_u8(u8_range_or(cs, va, vb, 2));
    } else if range_is(cs, ka, kb, "brightness") {
        s.brightness = clamp_to(u8_range_or(cs, va, vb, 100), 50, 150);
    } else if range_is(cs, ka, kb, "mouse_sens") {
        s.mouse_sens = clamp_to(u8_range_or(cs, va, vb, 100), 50, 200);
    } else if kb - ka >= 5 && range_is(cs, ka, ka + 5, "bind.") {
        assert(k.take(5) =~= cs@.subrange(ka as int, ka + 5));
        assert(k.skip(5) =~= cs@.subrange(ka + 5, kb as int));
        match action_of_range(cs, ka + 5, kb) {
            Some(act) => {
                let name = text.substring_char(va, vb);
                match keycode_from_name(name) {
                    Some(code) => {
                        let ghost before = s.binds;
                        s.binds[act.index()] = code;
                        assert(s.binds =~= spec_array_update(before, spec_action_index(act), code));
                    },
                    None => {},
                }
            },
            None => {},
        }
    } else {
        assert(!(k.len() >= 5 && k.take(5) == "bind."@)) by {
            if k.len() >= 5 && k.take(5) == "bind."@ {
                assert(k.take(5) =~= cs@.subrange(ka as int, ka + 5));
            }
        }
    }
}

/// Apply the line `cs[a..b]`.
fn apply_line_range(s: &mut Settings, text: &str, cs: &Vec<char>, a: usize, b: usize)
    requires
        cs@ == text@,
        a <= b <= cs@.len(),
    ensures
        *final(s) == apply_line(*old(s), cs@.subrange(a as int, b as int)),
{
    let (ta, tb) = trim_range(cs, a, b);
    let ghost l = cs@.subrange(ta as int, tb as int);
    if ta == tb || cs[ta] == '#' {
        return;
    }
    match find_in(cs, ta, tb, '=') {
        Some(e) => {
            proof {
                lemma_find_char_bounds(l, '=');
            }
            assert(l.take(e - ta) =~= cs@.subrange(ta as int, e as int));
            assert(l.skip(e - ta + 1) =~= cs@.subrange(e + 1, tb as int));
            let (ka, kb) = trim_range(cs, ta, e);
            let (va, vb) = trim_range(cs, e + 1, tb);
            apply_pair_range(s, text, cs, ka, kb, va, vb);
        },
        None => {},
    }
}

impl Settings {
    /// Apply every line of a settings file, in order, over these settings.
    pub fn apply_text(&mut self, text: &str)
        ensures
            *final(self) == apply_lines(*old(self), text@),
    {
        let cs = text_chars(text);
        let n = cs.len();
        let mut start: usize = 0;
        assert(cs@.subrange(0, n as int) =~= text@);
        loop
            invariant
                cs@ == text@,
                n == cs@.len(),
                start <= n,
                apply_lines(*old(self), text@) == apply_lines(*self, cs@.subrange(start as int, n as int)),
            decreases n - start,
        {
            let ghost t = cs@.subrange(start as int, n as int);
            match find_in(&cs, start, n, '\n') {
                Some(e) => {
                    proof {
                        lemma_find_char_bounds(t, '\n');
                    }
                    assert(t.take(e - start) =~= cs@.subrange(start as int, e as int));
                    assert(t.skip(e - start + 1) =~= cs@.subrange(e + 1, n as int));
                    apply_line_range(self, text, &cs, start, e);
                    start = e + 1;
                },
                None => {
                    apply_line_range(self, text, &cs, start, n);
                    return;
                },
            }
        }
    }

    /// Settings read from a settings file: the defaults, then each line.
    pub fn from_text(text: &str) -> (s: Settings)
        ensures
            forall|d: Settings| is_default_settings(d) ==> s == apply_lines(d, text@),
    {
        let mut s = Settings::default();
        let ghost d0 = s;
        s.apply_text(text);
        assert forall|d: Settings| is_default_settings(d) implies s == apply_lines(d, text@) by {
            assert(d.binds =~= d0.binds);
            assert(d == d0);
        }
        s
    }
}

/// The first line of a saved settings file.
pub const SETTINGS_HEADER: &'static str = "# spacetime settings \u{2014} edit or use the pause menu\n";

pub open spec fn flag_text(b: bool) -> Seq<char> {
    if b {
        "1"@
    } else {
        "0"@
    }
}

/// `key=value` and a line break.
pub open spec fn setting_line(key: &'static str, value: Seq<char>) -> Seq<char> {
    key@ + "="@ + value + "\n"@
}

/// The line saving the key of the action at place `i`.
pub open spec fn bind_line(binds: Seq<KeyCode>, i: int) -> Seq<char> {
    "bind."@ + spec_action_id(spec_action_at(i))@ + "="@ + spec_keycode_token(binds[i])@ + "\n"@
}

/// The lines saving the keys of the first `n` actions.
pub open spec fn bind_lines(binds: Seq<KeyCode>, n: nat) -> Seq<char>
    decreases n,
{
    if n == 0 {
        Seq::empty()
    } else {
        bind_lines(binds, (n - 1) as nat) + bind_line(binds, n - 1)
    }
}

/// The saved settings file up to the key bindings: the header, then the
/// display and graphics values.
pub open spec fn settings_head(s: Settings) -> Seq<char> {
    SETTINGS_HEADER@ + setting_line("vsync", flag_text(s.vsync)) + setting_line("fullscreen", flag_text(s.fullscreen))
        + setting_line("width", dec_chars(s.width as nat)) + setting_line("height", dec_chars(s.height as nat))
        + setting_line("quality", dec_chars(spec_quality_as_u8(s.quality) as nat)) + setting_line(
        "brightness",
        dec_chars(s.brightness as nat),
    ) + setting_line("mouse_sens", dec_chars(s.mouse_sens as nat))
}

/// The saved settings file: the head, then one `bind.<action>=<key>` line
/// per action in binding-table order.
pub open spec fn settings_text(s: Settings) -> Seq<char> {
    settings_head(s) + bind_lines(s.binds@, ACTION_COUNT as nat)
}

fn push_flag_line(out: &mut String, key: &'static str, b: bool)
    ensures
        final(out)@ == old(out)@ + setting_line(key, flag_text(b)),
{
    out.append(key);
    out.append("=");
    if b {
        out.append("1");
    } else {
        out.append("0");
    }
    out.append("\n");
    assert(final(out)@ =~= old(out)@ + setting_line(key, flag_text(b)));
}

fn push_number_line(out: &mut String, key: &'static str, n: u32)
    ensures
        final(out)@ == old(out)@ + setting_line(key, dec_chars(n as nat)),
{
    out.append(key);
    out.append("=");
    push_decimal(out, n);
    out.append("\n");
    assert(final(out)@ =~= old(out)@ + setting_line(key, dec_chars(n as nat)));
}

impl Settings {
    /// The settings file text for these settings.
    pub fn to_text(&self) -> (r: String)
        ensures
            r@ == settings_text(*self),
    {
        let mut out = String::from_str(SETTINGS_HEADER);
        push_flag_line(&mut out, "vsync", self.vsync);
        push_flag_line(&mut out, "fullscreen", self.fullscreen);
        push_number_line(&mut out, "width", self.width);
        push_number_line(&mut out, "height", self.height);
        push_number_line(&mut out, "quality", self.quality.as_u8() as u32);
        push_number_line(&mut out, "brightness", self.brightness as u32);
        push_number_line(&mut out, "mouse_sens", self.mouse_sens as u32);
        let ghost head = out@;
        assert(head == settings_head(*self));
        let mut i: usize = 0;
        while i < ACTION_COUNT
            invariant
                i <= ACTION_COUNT,
                head == settings_head(*self),
                out@ == head + bind_lines(self.binds@, i as nat),
            decreases ACTION_COUNT - i,
        {
            out.append("bind.");
            out.append(Action::at(i).id());
            out.append("=");
            out.append(keycode_token(self.binds[i]));
            out.append("\n");
            assert(out@ =~= head + bind_lines(self.binds@, (i + 1) as nat));
            i += 1;
        }
        out
    }
}

/// Text that survives trimming and splitting unchanged: non-empty, with
/// no white space, `=`, `#` or line break.
pub open spec fn plain(x: Seq<char>) -> bool {
    &&& x.len() > 0
    &&& forall|i: int| 0 <= i < x.len() ==> !is_ws(#[trigger] x[i]) && x[i] != '=' && x[i] != '#' && x[i] != '\n'
}

proof fn lemma_find_char_after(x: Seq<char>, y: Seq<char>, c: char)
    requires
        forall|i: int| 0 <= i < x.len() ==> x[i] != c,
        y.len() > 0,
        y[0] == c,
    ensures
        find_char(x + y, c) == Some(x.len() as int),
    decreases x.len(),
{
    if x.len() == 0 {
        assert(x + y =~= y);
    } else {
        lemma_find_char_after(x.drop_first(), y, c);
        assert((x + y).drop_first() =~= x.drop_first() + y);
    }
}

proof fn lemma_trim_plain(x: Seq<char>)
    requires
        x.len() > 0,
        !is_ws(x[0]),
        !is_ws(x.last()),
    ensures
        trim(x) == x,
{
}

/// A line break after `line` ends the first line of the text.
proof fn lemma_apply_lines_cons(b: Settings, line: Seq<char>, rest: Seq<char>)
    requires
        forall|i: int| 0 <= i < line.len() ==> line[i] != '\n',
    ensures
        apply_lines(b, line + "\n"@ + rest) == apply_lines(apply_line(b, line), rest),
{
    reveal_strlit("\n");
    let t = line + "\n"@ + rest;
    lemma_find_char_after(line, "\n"@ + rest, '\n');
    assert(t =~= line + ("\n"@ + rest));
    assert(t.take(line.len() as int) =~= line);
    assert(t.skip(line.len() as int + 1) =~= rest);
}

/// `key=value` with plain key and value applies that pair.
proof fn lemma_pair_line(b: Settings, key: Seq<char>, value: Seq<char>)
    requires
        plain(key),
        plain(value),
    ensures
        apply_line(b, key + "="@ + value) == apply_pair(b, key, value),
        forall|i: int| 0 <= i < (key + "="@ + value).len() ==> (key + "="@ + value)[i] != '\n',
{
    reveal_strlit("=");
    let l = key + "="@ + value;
    assert(l[0] == key[0]);
    assert(l.last() == value.last());
    lemma_trim_plain(l);
    lemma_find_char_after(key, "="@ + value, '=');
    assert(l =~= key + ("="@ + value));
    assert(l.take(key.len() as int) =~= key);
    assert(l.skip(key.len() as int + 1) =~= value);
    lemma_trim_plain(key);
    lemma_trim_plain(value);
    assert forall|i: int| 0 <= i < l.len() implies l[i] != '\n' by {
        if i < key.len() {
            assert(l[i] == key[i]);
        } else if i > key.len() {
            assert(l[i] == value[i - key.len() - 1]);
        }
    }
}

proof fn lemma_digit_char_value(d: int)
    requires
        0 <= d < 10,
    ensures
        is_dec(crate::items::codec::digit_char(d)),
        (crate::items::codec::digit_char(d) as u32) - 48 == d,
{
}

/// The decimal text of `n` is a plain run of digits worth `n`.
proof fn lemma_dec_chars(n: nat)
    ensures
        plain(dec_chars(n)),
        forall|i: int| 0 <= i < dec_chars(n).len() ==> is_dec(#[trigger] dec_chars(n)[i]),
        dec_value(dec_chars(n)) == n,
        dec_chars(n)[0] != '+',
    decreases n,
{
    if n < 10 {
        lemma_digit_char_value(n as int);
        assert(dec_chars(n).drop_last() =~= Seq::<char>::empty());
        assert(dec_value(Seq::<char>::empty()) == 0);
    } else {
        lemma_dec_chars(n / 10);
        lemma_digit_char_value((n % 10) as int);
        let prev = dec_chars(n / 10);
        assert(dec_chars(n) == prev.push(crate::items::codec::digit_char((n % 10) as int)));
        assert(dec_chars(n).drop_last() =~= prev);
        assert(dec_chars(n)[0] == prev[0]);
        assert((n / 10) * 10 + n % 10 == n) by (nonlinear_arith);
    }
}

/// A saved number reads back as itself.
proof fn lemma_unsigned_dec(n: nat, max: nat)
    requires
        n <= max,
    ensures
        unsigned_of(dec_chars(n), max) == Some(n),
        plain(dec_chars(n)),
{
    lemma_dec_chars(n);
}

/// Every key name the file saves is plain text.
proof fn lemma_token_plain(k: KeyCode)
    requires
        crate::settings::has_token(k),
    ensures
        plain(spec_keycode_token(k)@),
{
    match k {
        KeyCode::KeyA => reveal_strlit("KeyA"),
        KeyCode::KeyB => reveal_strlit("KeyB"),
        KeyCode::KeyC => reveal_strlit("KeyC"),
        KeyCode::KeyD => reveal_strlit("KeyD"),
        KeyCode::KeyE => reveal_strlit("KeyE"),
        KeyCode::KeyF => reveal_strlit("KeyF"),
        KeyCode::KeyG => reveal_strlit("KeyG"),
        KeyCode::KeyH => reveal_strlit("KeyH"),
        KeyCode::KeyI => reveal_strlit("KeyI"),
        KeyCode::KeyJ => reveal_strlit("KeyJ"),
        KeyCode::KeyK => reveal_strlit("KeyK"),
        KeyCode::KeyL => reveal_strlit("KeyL"),
        KeyCode::KeyM => reveal_strlit("KeyM"),
        KeyCode::KeyN => reveal_strlit("KeyN"),
        KeyCode::KeyO => reveal_strlit("KeyO"),
        KeyCode::KeyP => reveal_strlit("KeyP"),
        KeyCode::KeyQ => reveal_strlit("KeyQ"),
        KeyCode::KeyR => reveal_strlit("KeyR"),
        KeyCode::KeyS => reveal_strlit("KeyS"),
        KeyCode::KeyT => reveal_strlit("KeyT"),
        KeyCode::KeyU => reveal_strlit("KeyU"),
        KeyCode::KeyV => reveal_strlit("KeyV"),
        KeyCode::KeyW => reveal_strlit("KeyW"),
        KeyCode::KeyX => reveal_strlit("KeyX"),
        KeyCode::KeyY => reveal_strlit("KeyY"),
        KeyCode::KeyZ => reveal_strlit("KeyZ"),
        KeyCode::Digit0 => reveal_strlit("Digit0"),
        KeyCode::Digit1 => reveal_strlit("Digit1"),
        KeyCode::Digit2 => reveal_strlit("Digit2"),
        KeyCode::Digit3 => reveal_strlit("Digit3"),
        KeyCode::Digit4 => reveal_strlit("Digit4"),
        KeyCode::Digit5 => reveal_strlit("Digit5"),
        KeyCode::Digit6 => reveal_strlit("Digit6"),
        KeyCode::Digit7 => reveal_strlit("Digit7"),
        KeyCode::Digit8 => reveal_strlit("Digit8"),
        KeyCode::Digit9 => reveal_strlit("Digit9"),
        KeyCode::Space => reveal_strlit("Space"),
        KeyCode::Tab => reveal_strlit("Tab"),
        KeyCode::ShiftLeft => reveal_strlit("ShiftLeft"),
        KeyCode::ShiftRight => reveal_strlit("ShiftRight"),
        KeyCode::ControlLeft => reveal_strlit("ControlLeft"),
        KeyCode::AltLeft => reveal_strlit("AltLeft"),
        KeyCode::BracketLeft => reveal_strlit("BracketLeft"),
        KeyCode::BracketRight => reveal_strlit("BracketRight"),
        KeyCode::Comma => reveal_strlit("Comma"),
        KeyCode::Period => reveal_strlit("Period"),
        KeyCode::Slash => reveal_strlit("Slash"),
        KeyCode::Semicolon => reveal_strlit("Semicolon"),
        KeyCode::Quote => reveal_strlit("Quote"),
        KeyCode::Backquote => reveal_strlit("Backquote"),
        KeyCode::Minus => reveal_strlit("Minus"),
        KeyCode::Equal => reveal_strlit("Equal"),
        KeyCode::ArrowLeft => reveal_strlit("ArrowLeft"),
        KeyCode::ArrowRight => reveal_strlit("ArrowRight"),
        KeyCode::ArrowUp => reveal_strlit("ArrowUp"),
        KeyCode::ArrowDown => reveal_strlit("ArrowDown"),
        KeyCode::Enter => reveal_strlit("Enter"),
        KeyCode::Backspace => reveal_strlit("Backspace"),
        _ => {},
    }
}

proof fn lemma_bind_key_0()
    ensures
        plain("bind."@ + "forward"@),
        action_of_id("forward"@) == Some(spec_action_at(0)),
        "bind."@ + "forward"@ != "vsync"@,
        "bind."@ + "forward"@ != "fullscreen"@,
        "bind."@ + "forward"@ != "width"@,
        "bind."@ + "forward"@ != "height"@,
        "bind."@ + "forward"@ != "quality"@,
        "bind."@ + "forward"@ != "brightness"@,
        "bind."@ + "forward"@ != "mouse_sens"@,
{
    reveal_strlit("bind.");
    reveal_strlit("forward");
    reveal_strlit("vsync");
    reveal_strlit("fullscreen");
    reveal_strlit("width");
    reveal_strlit("height");
    reveal_strlit("quality");
    reveal_strlit("brightness");
    reveal_strlit("mouse_sens");
    reveal_with_fuel(action_of_id_from, 2);
    let key = "bind."@ + "forward"@;
    assert(key[1] != "vsync"@[1] || key.len() != "vsync"@.len() || key[0] != "vsync"@[0]);
    assert(key[1] != "fullscreen"@[1] || key.len() != "fullscreen"@.len() || key[0] != "fullscreen"@[0]);
    assert(key[1] != "width"@[1] || key.len() != "width"@.len() || key[0] != "width"@[0]);
    assert(key[1] != "height"@[1] || key.len() != "height"@.len() || key[0] != "height"@[0]);
    assert(key[1] != "quality"@[1] || key.len() != "quality"@.len() || key[0] != "quality"@[0]);
    assert(key[1] != "brightness"@[1] || key.len() != "brightness"@.len() || key[0] != "brightness"@[0]);
    assert(key[1] != "mouse_sens"@[1] || key.len() != "mouse_sens"@.len() || key[0] != "mouse_sens"@[0]);
}

proof fn lemma_bind_key_1()
    ensures
        plain("bind."@ + "back"@),
        action_of_id("back"@) == Some(spec_action_at(1)),
        "bind."@ + "back"@ != "vsync"@,
        "bind."@ + "back"@ != "fullscreen"@,
        "bind."@ + "back"@ != "width"@,
        "bind."@ + "back"@ != "height"@,
        "bind."@ + "back"@ != "quality"@,
        "bind."@ + "back"@ != "brightness"@,
        "bind."@ + "back"@ != "mouse_sens"@,
{
    reveal_strlit("bind.");
    reveal_strlit("forward");
    reveal_strlit("back");
    reveal_strlit("vsync");
    reveal_strlit("fullscreen");
    reveal_strlit("width");
    reveal_strlit("height");
    reveal_strlit("quality");
    reveal_strlit("brightness");
    reveal_strlit("mouse_sens");
    reveal_with_fuel(action_of_id_from, 3);
    let key = "bind."@ + "back"@;
    assert(key[1] != "vsync"@[1] || key.len() != "vsync"@.len() || key[0] != "vsync"@[0]);
    assert(key[1] != "fullscreen"@[1] || key.len() != "fullscreen"@.len() || key[0] != "fullscreen"@[0]);
    assert(key[1] != "width"@[1] || key.len() != "width"@.len() || key[0] != "width"@[0]);
    assert(key[1] != "height"@[1] || key.len() != "height"@.len() || key[0] != "height"@[0]);
    assert(key[1] != "quality"@[1] || key.len() != "quality"@.len() || key[0] != "quality"@[0]);
    assert(key[1] != "brightness"@[1] || key.len() != "brightness"@.len() || key[0] != "brightness"@[0]);
    assert(key[1] != "mouse_sens"@[1] || key.len() != "mouse_sens"@.len() || key[0] != "mouse_sens"@[0]);
}

proof fn lemma_bind_key_2()
    ensures
        plain("bind."@ + "left"@),
        action_of_id("left"@) == Some(spec_action_at(2)),
        "bind."@ + "left"@ != "vsync"@,
        "bind."@ + "left"@ != "fullscreen"@,
        "bind."@ + "left"@ != "width"@,
        "bind."@ + "left"@ != "height"@,
        "bind."@ + "left"@ != "quality"@,
        "bind."@ + "left"@ != "brightness"@,
        "bind."@ + "left"@ != "mouse_sens"@,
{
    reveal_strlit("bind.");
    reveal_strlit("forward");
    reveal_strlit("back");
    reveal_strlit("left");
    reveal_strlit("vsync");
    reveal_strlit("fullscreen");
    reveal_strlit("width");
    reveal_strlit("height");
    reveal_strlit("quality");
    reveal_strlit("brightness");
    reveal_strlit("mouse_sens");
    reveal_with_fuel(action_of_id_from, 4);
    assert("left"@[0] != "back"@[0]);
    let key = "bind."@ + "left"@;
    assert(key[1] != "vsync"@[1] || key.len() != "vsync"@.len() || key[0] != "vsync"@[0]);
    assert(key[1] != "fullscreen"@[1] || key.len() != "fullscreen"@.len() || key[0] != "fullscreen"@[0]);
    assert(key[1] != "width"@[1] || key.len() != "width"@.len() || key[0] != "width"@[0]);
    assert(key[1] != "height"@[1] || key.len() != "height"@.len() || key[0] != "height"@[0]);
    assert(key[1] != "quality"@[1] || key.len() != "quality"@.len() || key[0] != "quality"@[0]);
    assert(key[1] != "brightness"@[1] || key.len() != "brightness"@.len() || key[0] != "brightness"@[0]);
    assert(key[1] != "mouse_sens"@[1] || key.len() != "mouse_sens"@.len() || key[0] != "mouse_sens"@[0]);
}

proof fn lemma_bind_key_3()
    ensures
        plain("bind."@ + "right"@),
        action_of_id("right"@) == Some(spec_action_at(3)),
        "bind."@ + "right"@ != "vsync"@,
        "bind."@ + "right"@ != "fullscreen"@,
        "bind."@ + "right"@ != "width"@,
        "bind."@ + "right"@ != "height"@,
        "bind."@ + "right"@ != "quality"@,
        "bind."@ + "right"@ != "brightness"@,
        "bind."@ + "right"@ != "mouse_sens"@,
{
    reveal_strlit("bind.");
    reveal_strlit("forward");
    reveal_strlit("back");
    reveal_strlit("left");
    reveal_strlit("right");
    reveal_strlit("vsync");
    reveal_strlit("fullscreen");
    reveal_strlit("width");
    reveal_strlit("height");
    reveal_strlit("quality");
    reveal_strlit("brightness");
    reveal_strlit("mouse_sens");
    reveal_with_fuel(action_of_id_from, 5);
    let key = "bind."@ + "right"@;
    assert(key[1] != "vsync"@[1] || key.len() != "vsync"@.len() || key[0] != "vsync"@[0]);
    assert(key[1] != "fullscreen"@[1] || key.len() != "fullscreen"@.len() || key[0] != "fullscreen"@[0]);
    assert(key[1] != "width"@[1] || key.len() != "width"@.len() || key[0] != "width"@[0]);
    assert(key[1] != "height"@[1] || key.len() != "height"@.len() || key[0] != "height"@[0]);
    assert(key[1] != "quality"@[1] || key.len() != "quality"@.len() || key[0] != "quality"@[0]);
    assert(key[1] != "brightness"@[1] || key.len() != "brightness"@.len() || key[0] != "brightness"@[0]);
    assert(key[1] != "mouse_sens"@[1] || key.len() != "mouse_sens"@.len() || key[0] != "mouse_sens"@[0]);
}

proof fn lemma_bind_key_4()
    ensures
        plain("bind."@ + "jump"@),
        action_of_id("jump"@) == Some(spec_action_at(4)),
        "bind."@ + "jump"@ != "vsync"@,
        "bind."@ + "jump"@ != "fullscreen"@,
        "bind."@ + "jump"@ != "width"@,
        "bind."@ + "jump"@ != "height"@,
        "bind."@ + "jump"@ != "quality"@,
        "bind."@ + "jump"@ != "brightness"@,
        "bind."@ + "jump"@ != "mouse_sens"@,
{
    reveal_strlit("bind.");
    reveal_strlit("forward");
    reveal_strlit("back");
    reveal_strlit("left");
    reveal_strlit("right");
    reveal_strlit("jump");
    reveal_strlit("vsync");
    reveal_strlit("fullscreen");
    reveal_strlit("width");
    reveal_strlit("height");
    reveal_strlit("quality");
    reveal_strlit("brightness");
    reveal_strlit("mouse_sens");
    reveal_with_fuel(action_of_id_from, 6);
    assert("jump"@[0] != "back"@[0]);
    assert("jump"@[0] != "left"@[0]);
    let key = "bind."@ + "jump"@;
    assert(key[1] != "vsync"@[1] || key.len() != "vsync"@.len() || key[0] != "vsync"@[0]);
    assert(key[1] != "fullscreen"@[1] || key.len() != "fullscreen"@.len() || key[0] != "fullscreen"@[0]);
    assert(key[1] != "width"@[1] || key.len() != "width"@.len() || key[0] != "width"@[0]);
    assert(key[1] != "height"@[1] || key.len() != "height"@.len() || key[0] != "height"@[0]);
    assert(key[1] != "quality"@[1] || key.len() != "quality"@.len() || key[0] != "quality"@[0]);
    assert(key[1] != "brightness"@[1] || key.len() != "brightness"@.len() || key[0] != "brightness"@[0]);
    assert(key[1] != "mouse_sens"@[1] || key.len() != "mouse_sens"@.len() || key[0] != "mouse_sens"@[0]);
}

proof fn lemma_bind_key_5()
    ensures
        plain("bind."@ + "sprint"@),
        action_of_id("sprint"@) == Some(spec_action_at(5)),
        "bind."@ + "sprint"@ != "vsync"@,
        "bind."@ + "sprint"@ != "fullscreen"@,
        "bind."@ + "sprint"@ != "width"@,
        "bind."@ + "sprint"@ != "height"@,
        "bind."@ + "sprint"@ != "quality"@,
        "bind."@ + "sprint"@ != "brightness"@,
        "bind."@ + "sprint"@ != "mouse_sens"@,
{
    reveal_strlit("bind.");
    reveal_strlit("forward");
    reveal_strlit("back");
    reveal_strlit("left");
    reveal_strlit("right");
    reveal_strlit("jump");
    reveal_strlit("sprint");
    reveal_strlit("vsync");
    reveal_strlit("fullscreen");
    reveal_strlit("width");
    reveal_strlit("height");
    reveal_strlit("quality");
    reveal_strlit("brightness");
    reveal_strlit("mouse_sens");
    reveal_with_fuel(action_of_id_from, 7);
    let key = "bind."@ + "sprint"@;
    assert(key[1] != "vsync"@[1] || key.len() != "vsync"@.len() || key[0] != "vsync"@[0]);
    assert(key[1] != "fullscreen"@[1] || key.len() != "fullscreen"@.len() || key[0] != "fullscreen"@[0]);
    assert(key[1] != "width"@[1] || key.len() != "width"@.len() || key[0] != "width"@[0]);
    assert(key[1] != "height"@[1] || key.len() != "height"@.len() || key[0] != "height"@[0]);
    assert(key[1] != "quality"@[1] || key.len() != "quality"@.len() || key[0] != "quality"@[0]);
    assert(key[1] != "brightness"@[1] || key.len() != "brightness"@.len() || key[0] != "brightness"@[0]);
    assert(key[1] != "mouse_sens"@[1] || key.len() != "mouse_sens"@.len() || key[0] != "mouse_sens"@[0]);
}

proof fn lemma_bind_key_6()
    ensures
        plain("bind."@ + "sit"@),
        action_of_id("sit"@) == Some(spec_action_at(6)),
        "bind."@ + "sit"@ != "vsync"@,
        "bind."@ + "sit"@ != "fullscreen"@,
        "bind."@ + "sit"@ != "width"@,
        "bind."@ + "sit"@ != "height"@,
        "bind."@ + "sit"@ != "quality"@,
        "bind."@ + "sit"@ != "brightness"@,
        "bind."@ + "sit"@ != "mouse_sens"@,
{
    reveal_strlit("bind.");
    reveal_strlit("forward");
    reveal_strlit("back");
    reveal_strlit("left");
    reveal_strlit("right");
    reveal_strlit("jump");
    reveal_strlit("sprint");
    reveal_strlit("sit");
    reveal_strlit("vsync");
    reveal_strlit("fullscreen");
    reveal_strlit("width");
    reveal_strlit("height");
    reveal_strlit("quality");
    reveal_strlit("brightness");
    reveal_strlit("mouse_sens");
    reveal_with_fuel(action_of_id_from, 8);
    let key = "bind."@ + "sit"@;
    assert(key[1] != "vsync"@[1] || key.len() != "vsync"@.len() || key[0] != "vsync"@[0]);
    assert(key[1] != "fullscreen"@[1] || key.len() != "fullscreen"@.len() || key[0] != "fullscreen"@[0]);
    assert(key[1] != "width"@[1] || key.len() != "width"@.len() || key[0] != "width"@[0]);
    assert(key[1] != "height"@[1] || key.len() != "height"@.len() || key[0] != "height"@[0]);
    assert(key[1] != "quality"@[1] || key.len() != "quality"@.len() || key[0] != "quality"@[0]);
    assert(key[1] != "brightness"@[1] || key.len() != "brightness"@.len() || key[0] != "brightness"@[0]);
    assert(key[1] != "mouse_sens"@[1] || key.len() != "mouse_sens"@.len() || key[0] != "mouse_sens"@[0]);
}

proof fn lemma_bind_key_7()
    ensures
        plain("bind."@ + "interact"@),
        action_of_id("interact"@) == Some(spec_action_at(7)),
        "bind."@ + "interact"@ != "vsync"@,
        "bind."@ + "interact"@ != "fullscreen"@,
        "bind."@ + "interact"@ != "width"@,
        "bind."@ + "interact"@ != "height"@,
        "bind."@ + "interact"@ != "quality"@,
        "bind."@ + "interact"@ != "brightness"@,
        "bind."@ + "interact"@ != "mouse_sens"@,
{
    reveal_strlit("bind.");
    reveal_strlit("forward");
    reveal_strlit("back");
    reveal_strlit("left");
    reveal_strlit("right");
    reveal_strlit("jump");
    reveal_strlit("sprint");
    reveal_strlit("sit");
    reveal_strlit("interact");
    reveal_strlit("vsync");
    reveal_strlit("fullscreen");
    reveal_strlit("width");
    reveal_strlit("height");
    reveal_strlit("quality");
    reveal_strlit("brightness");
    reveal_strlit("mouse_sens");
    reveal_with_fuel(action_of_id_from, 9);
    let key = "bind."@ + "interact"@;
    assert(key[1] != "vsync"@[1] || key.len() != "vsync"@.len() || key[0] != "vsync"@[0]);
    assert(key[1] != "fullscreen"@[1] || key.len() != "fullscreen"@.len() || key[0] != "fullscreen"@[0]);
    assert(key[1] != "width"@[1] || key.len() != "width"@.len() || key[0] != "width"@[0]);
    assert(key[1] != "height"@[1] || key.len() != "height"@.len() || key[0] != "height"@[0]);
    assert(key[1] != "quality"@[1] || key.len() != "quality"@.len() || key[0] != "quality"@[0]);
    assert(key[1] != "brightness"@[1] || key.len() != "brightness"@.len() || key[0] != "brightness"@[0]);
    assert(key[1] != "mouse_sens"@[1] || key.len() != "mouse_sens"@.len() || key[0] != "mouse_sens"@[0]);
}

proof fn lemma_bind_key_8()
    ensures
        plain("bind."@ + "attack"@),
        action_of_id("attack"@) == Some(spec_action_at(8)),
        "bind."@ + "attack"@ != "vsync"@,
        "bind."@ + "attack"@ != "fullscreen"@,
        "bind."@ + "attack"@ != "width"@,
        "bind."@ + "attack"@ != "height"@,
        "bind."@ + "attack"@ != "quality"@,
        "bind."@ + "attack"@ != "brightness"@,
        "bind."@ + "attack"@ != "mouse_sens"@,
{
    reveal_strlit("bind.");
    reveal_strlit("forward");
    reveal_strlit("back");
    reveal_strlit("left");
    reveal_strlit("right");
    reveal_strlit("jump");
    reveal_strlit("sprint");
    reveal_strlit("sit");
    reveal_strlit("interact");
    reveal_strlit("attack");
    reveal_strlit("vsync");
    reveal_strlit("fullscreen");
    reveal_strlit("width");
    reveal_strlit("height");
    reveal_strlit("quality");
    reveal_strlit("brightness");
    reveal_strlit("mouse_sens");
    reveal_with_fuel(action_of_id_from, 10);
    assert("attack"@[0] != "sprint"@[0]);
    let key = "bind."@ + "attack"@;
    assert(key[1] != "vsync"@[1] || key.len() != "vsync"@.len() || key[0] != "vsync"@[0]);
    assert(key[1] != "fullscreen"@[1] || key.len() != "fullscreen"@.len() || key[0] != "fullscreen"@[0]);
    assert(key[1] != "width"@[1] || key.len() != "width"@.len() || key[0] != "width"@[0]);
    assert(key[1] != "height"@[1] || key.len() != "height"@.len() || key[0] != "height"@[0]);
    assert(key[1] != "quality"@[1] || key.len() != "quality"@.len() || key[0] != "quality"@[0]);
    assert(key[1] != "brightness"@[1] || key.len() != "brightness"@.len() || key[0] != "brightness"@[0]);
    assert(key[1] != "mouse_sens"@[1] || key.len() != "mouse_sens"@.len() || key[0] != "mouse_sens"@[0]);
}

proof fn lemma_bind_key_9()
    ensures
        plain("bind."@ + "inventory"@),
        action_of_id("inventory"@) == Some(spec_action_at(9)),
        "bind."@ + "inventory"@ != "vsync"@,
        "bind."@ + "inventory"@ != "fullscreen"@,
        "bind."@ + "inventory"@ != "width"@,
        "bind."@ + "inventory"@ != "height"@,
        "bind."@ + "inventory"@ != "quality"@,
        "bind."@ + "inventory"@ != "brightness"@,
        "bind."@ + "inventory"@ != "mouse_sens"@,
{
    reveal_strlit("bind.");
    reveal_strlit("forward");
    reveal_strlit("back");
    reveal_strlit("left");
    reveal_strlit("right");
    reveal_strlit("jump");
    reveal_strlit("sprint");
    reveal_strlit("sit");
    reveal_strlit("interact");
    reveal_strlit("attack");
    reveal_strlit("inventory");
    reveal_strlit("vsync");
    reveal_strlit("fullscreen");
    reveal_strlit("width");
    reveal_strlit("height");
    reveal_strlit("quality");
    reveal_strlit("brightness");
    reveal_strlit("mouse_sens");
    reveal_with_fuel(action_of_id_from, 11);
    let key = "bind."@ + "inventory"@;
    assert(key[1] != "vsync"@[1] || key.len() != "vsync"@.len() || key[0] != "vsync"@[0]);
    assert(key[1] != "fullscreen"@[1] || key.len() != "fullscreen"@.len() || key[0] != "fullscreen"@[0]);
    assert(key[1] != "width"@[1] || key.len() != "width"@.len() || key[0] != "width"@[0]);
    assert(key[1] != "height"@[1] || key.len() != "height"@.len() || key[0] != "height"@[0]);
    assert(key[1] != "quality"@[1] || key.len() != "quality"@.len() || key[0] != "quality"@[0]);
    assert(key[1] != "brightness"@[1] || key.len() != "brightness"@.len() || key[0] != "brightness"@[0]);
    assert(key[1] != "mouse_sens"@[1] || key.len() != "mouse_sens"@.len() || key[0] != "mouse_sens"@[0]);
}

proof fn lemma_bind_key_10()
    ensures
        plain("bind."@ + "drop"@),
        action_of_id("drop"@) == Some(spec_action_at(10)),
        "bind."@ + "drop"@ != "vsync"@,
        "bind."@ + "drop"@ != "fullscreen"@,
        "bind."@ + "drop"@ != "width"@,
        "bind."@ + "drop"@ != "height"@,
        "bind."@ + "drop"@ != "quality"@,
        "bind."@ + "drop"@ != "brightness"@,
        "bind."@ + "drop"@ != "mouse_sens"@,
{
    reveal_strlit("bind.");
    reveal_strlit("forward");
    reveal_strlit("back");
    reveal_strlit("left");
    reveal_strlit("right");
    reveal_strlit("jump");
    reveal_strlit("sprint");
    reveal_strlit("sit");
    reveal_strlit("interact");
    reveal_strlit("attack");
    reveal_strlit("inventory");
    reveal_strlit("drop");
    reveal_strlit("vsync");
    reveal_strlit("fullscreen");
    reveal_strlit("width");
    reveal_strlit("height");
    reveal_strlit("quality");
    reveal_strlit("brightness");
    reveal_strlit("mouse_sens");
    reveal_with_fuel(action_of_id_from, 12);
    assert("drop"@[0] != "back"@[0]);
    assert("drop"@[0] != "left"@[0]);
    assert("drop"@[0] != "jump"@[0]);
    let key = "bind."@ + "drop"@;
    assert(key[1] != "vsync"@[1] || key.len() != "vsync"@.len() || key[0] != "vsync"@[0]);
    assert(key[1] != "fullscreen"@[1] || key.len() != "fullscreen"@.len() || key[0] != "fullscreen"@[0]);
    assert(key[1] != "width"@[1] || key.len() != "width"@.len() || key[0] != "width"@[0]);
    assert(key[1] != "height"@[1] || key.len() != "height"@.len() || key[0] != "height"@[0]);
    assert(key[1] != "quality"@[1] || key.len() != "quality"@.len() || key[0] != "quality"@[0]);
    assert(key[1] != "brightness"@[1] || key.len() != "brightness"@.len() || key[0] != "brightness"@[0]);
    assert(key[1] != "mouse_sens"@[1] || key.len() != "mouse_sens"@.len() || key[0] != "mouse_sens"@[0]);
}

proof fn lemma_bind_key_11()
    ensures
        plain("bind."@ + "craft"@),
        action_of_id("craft"@) == Some(spec_action_at(11)),
        "bind."@ + "craft"@ != "vsync"@,
        "bind."@ + "craft"@ != "fullscreen"@,
        "bind."@ + "craft"@ != "width"@,
        "bind."@ + "craft"@ != "height"@,
        "bind."@ + "craft"@ != "quality"@,
        "bind."@ + "craft"@ != "brightness"@,
        "bind."@ + "craft"@ != "mouse_sens"@,
{
    reveal_strlit("bind.");
    reveal_strlit("forward");
    reveal_strlit("back");
    reveal_strlit("left");
    reveal_strlit("right");
    reveal_strlit("jump");
    reveal_strlit("sprint");
    reveal_strlit("sit");
    reveal_strlit("interact");
    reveal_strlit("attack");
    reveal_strlit("inventory");
    reveal_strlit("drop");
    reveal_strlit("craft");
    reveal_strlit("vsync");
    reveal_strlit("fullscreen");
    reveal_strlit("width");
    reveal_strlit("height");
    reveal_strlit("quality");
    reveal_strlit("brightness");
    reveal_strlit("mouse_sens");
    reveal_with_fuel(action_of_id_from, 13);
    assert("craft"@[0] != "right"@[0]);
    let key = "bind."@ + "craft"@;
    assert(key[1] != "vsync"@[1] || key.len() != "vsync"@.len() || key[0] != "vsync"@[0]);
    assert(key[1] != "fullscreen"@[1] || key.len() != "fullscreen"@.len() || key[0] != "fullscreen"@[0]);
    assert(key[1] != "width"@[1] || key.len() != "width"@.len() || key[0] != "width"@[0]);
    assert(key[1] != "height"@[1] || key.len() != "height"@.len() || key[0] != "height"@[0]);
    assert(key[1] != "quality"@[1] || key.len() != "quality"@.len() || key[0] != "quality"@[0]);
    assert(key[1] != "brightness"@[1] || key.len() != "brightness"@.len() || key[0] != "brightness"@[0]);
    assert(key[1] != "mouse_sens"@[1] || key.len() != "mouse_sens"@.len() || key[0] != "mouse_sens"@[0]);
}

proof fn lemma_bind_key_12()
    ensures
        plain("bind."@ + "transfer"@),
        action_of_id("transfer"@) == Some(spec_action_at(12)),
        "bind."@ + "transfer"@ != "vsync"@,
        "bind."@ + "transfer"@ != "fullscreen"@,
        "bind."@ + "transfer"@ != "width"@,
        "bind."@ + "transfer"@ != "height"@,
        "bind."@ + "transfer"@ != "quality"@,
        "bind."@ + "transfer"@ != "brightness"@,
        "bind."@ + "transfer"@ != "mouse_sens"@,
{
    reveal_strlit("bind.");
    reveal_strlit("forward");
    reveal_strlit("back");
    reveal_strlit("left");
    reveal_strlit("right");
    reveal_strlit("jump");
    reveal_strlit("sprint");
    reveal_strlit("sit");
    reveal_strlit("interact");
    reveal_strlit("attack");
    reveal_strlit("inventory");
    reveal_strlit("drop");
    reveal_strlit("craft");
    reveal_strlit("transfer");
    reveal_strlit("vsync");
    reveal_strlit("fullscreen");
    reveal_strlit("width");
    reveal_strlit("height");
    reveal_strlit("quality");
    reveal_strlit("brightness");
    reveal_strlit("mouse_sens");
    reveal_with_fuel(action_of_id_from, 14);
    assert("transfer"@[0] != "interact"@[0]);
    let key = "bind."@ + "transfer"@;
    assert(key[1] != "vsync"@[1] || key.len() != "vsync"@.len() || key[0] != "vsync"@[0]);
    assert(key[1] != "fullscreen"@[1] || key.len() != "fullscreen"@.len() || key[0] != "fullscreen"@[0]);
    assert(key[1] != "width"@[1] || key.len() != "width"@.len() || key[0] != "width"@[0]);
    assert(key[1] != "height"@[1] || key.len() != "height"@.len() || key[0] != "height"@[0]);
    assert(key[1] != "quality"@[1] || key.len() != "quality"@.len() || key[0] != "quality"@[0]);
    assert(key[1] != "brightness"@[1] || key.len() != "brightness"@.len() || key[0] != "brightness"@[0]);
    assert(key[1] != "mouse_sens"@[1] || key.len() != "mouse_sens"@.len() || key[0] != "mouse_sens"@[0]);
}

proof fn lemma_bind_key_13()
    ensures
        plain("bind."@ + "take"@),
        action_of_id("take"@) == Some(spec_action_at(13)),
        "bind."@ + "take"@ != "vsync"@,
        "bind."@ + "take"@ != "fullscreen"@,
        "bind."@ + "take"@ != "width"@,
        "bind."@ + "take"@ != "height"@,
        "bind."@ + "take"@ != "quality"@,
        "bind."@ + "take"@ != "brightness"@,
        "bind."@ + "take"@ != "mouse_sens"@,
{
    reveal_strlit("bind.");
    reveal_strlit("forward");
    reveal_strlit("back");
    reveal_strlit("left");
    reveal_strlit("right");
    reveal_strlit("jump");
    reveal_strlit("sprint");
    reveal_strlit("sit");
    reveal_strlit("interact");
    reveal_strlit("attack");
    reveal_strlit("inventory");
    reveal_strlit("drop");
    reveal_strlit("craft");
    reveal_strlit("transfer");
    reveal_strlit("take");
    reveal_strlit("vsync");
    reveal_strlit("fullscreen");
    reveal_strlit("width");
    reveal_strlit("height");
    reveal_strlit("quality");
    reveal_strlit("brightness");
    reveal_strlit("mouse_sens");
    reveal_with_fuel(action_of_id_from, 15);
    assert("take"@[0] != "back"@[0]);
    assert("take"@[0] != "left"@[0]);
    assert("take"@[0] != "jump"@[0]);
    assert("take"@[0] != "drop"@[0]);
    let key = "bind."@ + "take"@;
    assert(key[1] != "vsync"@[1] || key.len() != "vsync"@.len() || key[0] != "vsync"@[0]);
    assert(key[1] != "fullscreen"@[1] || key.len() != "fullscreen"@.len() || key[0] != "fullscreen"@[0]);
    assert(key[1] != "width"@[1] || key.len() != "width"@.len() || key[0] != "width"@[0]);
    assert(key[1] != "height"@[1] || key.len() != "height"@.len() || key[0] != "height"@[0]);
    assert(key[1] != "quality"@[1] || key.len() != "quality"@.len() || key[0] != "quality"@[0]);
    assert(key[1] != "brightness"@[1] || key.len() != "brightness"@.len() || key[0] != "brightness"@[0]);
    assert(key[1] != "mouse_sens"@[1] || key.len() != "mouse_sens"@.len() || key[0] != "mouse_sens"@[0]);
}

proof fn lemma_bind_key_14()
    ensures
        plain("bind."@ + "recipe_prev"@),
        action_of_id("recipe_prev"@) == Some(spec_action_at(14)),
        "bind."@ + "recipe_prev"@ != "vsync"@,
        "bind."@ + "recipe_prev"@ != "fullscreen"@,
        "bind."@ + "recipe_prev"@ != "width"@,
        "bind."@ + "recipe_prev"@ != "height"@,
        "bind."@ + "recipe_prev"@ != "quality"@,
        "bind."@ + "recipe_prev"@ != "brightness"@,
        "bind."@ + "recipe_prev"@ != "mouse_sens"@,
{
    reveal_strlit("bind.");
    reveal_strlit("forward");
    reveal_strlit("back");
    reveal_strlit("left");
    reveal_strlit("right");
    reveal_strlit("jump");
    reveal_strlit("sprint");
    reveal_strlit("sit");
    reveal_strlit("interact");
    reveal_strlit("attack");
    reveal_strlit("inventory");
    reveal_strlit("drop");
    reveal_strlit("craft");
    reveal_strlit("transfer");
    reveal_strlit("take");
    reveal_strlit("recipe_prev");
    reveal_strlit("vsync");
    reveal_strlit("fullscreen");
    reveal_strlit("width");
    reveal_strlit("height");
    reveal_strlit("quality");
    reveal_strlit("brightness");
    reveal_strlit("mouse_sens");
    reveal_with_fuel(action_of_id_from, 16);
    let key = "bind."@ + "recipe_prev"@;
    assert(key[1] != "vsync"@[1] || key.len() != "vsync"@.len() || key[0] != "vsync"@[0]);
    assert(key[1] != "fullscreen"@[1] || key.len() != "fullscreen"@.len() || key[0] != "fullscreen"@[0]);
    assert(key[1] != "width"@[1] || key.len() != "width"@.len() || key[0] != "width"@[0]);
    assert(key[1] != "height"@[1] || key.len() != "height"@.len() || key[0] != "height"@[0]);
    assert(key[1] != "quality"@[1] || key.len() != "quality"@.len() || key[0] != "quality"@[0]);
    assert(key[1] != "brightness"@[1] || key.len() != "brightness"@.len() || key[0] != "brightness"@[0]);
    assert(key[1] != "mouse_sens"@[1] || key.len() != "mouse_sens"@.len() || key[0] != "mouse_sens"@[0]);
}

proof fn lemma_bind_key_15()
    ensures
        plain("bind."@ + "recipe_next"@),
        action_of_id("recipe_next"@) == Some(spec_action_at(15)),
        "bind."@ + "recipe_next"@ != "vsync"@,
        "bind."@ + "recipe_next"@ != "fullscreen"@,
        "bind."@ + "recipe_next"@ != "width"@,
        "bind."@ + "recipe_next"@ != "height"@,
        "bind."@ + "recipe_next"@ != "quality"@,
        "bind."@ + "recipe_next"@ != "brightness"@,
        "bind."@ + "recipe_next"@ != "mouse_sens"@,
{
    reveal_strlit("bind.");
    reveal_strlit("forward");
    reveal_strlit("back");
    reveal_strlit("left");
    reveal_strlit("right");
    reveal_strlit("jump");
    reveal_strlit("sprint");
    reveal_strlit("sit");
    reveal_strlit("interact");
    reveal_strlit("attack");
    reveal_strlit("inventory");
    reveal_strlit("drop");
    reveal_strlit("craft");
    reveal_strlit("transfer");
    reveal_strlit("take");
    reveal_strlit("recipe_prev");
    reveal_strlit("recipe_next");
    reveal_strlit("vsync");
    reveal_strlit("fullscreen");
    reveal_strlit("width");
    reveal_strlit("height");
    reveal_strlit("quality");
    reveal_strlit("brightness");
    reveal_strlit("mouse_sens");
    reveal_with_fuel(action_of_id_from, 17);
    assert("recipe_next"@[7] != "recipe_prev"@[7]);
    let key = "bind."@ + "recipe_next"@;
    assert(key[1] != "vsync"@[1] || key.len() != "vsync"@.len() || key[0] != "vsync"@[0]);
    assert(key[1] != "fullscreen"@[1] || key.len() != "fullscreen"@.len() || key[0] != "fullscreen"@[0]);
    assert(key[1] != "width"@[1] || key.len() != "width"@.len() || key[0] != "width"@[0]);
    assert(key[1] != "height"@[1] || key.len() != "height"@.len() || key[0] != "height"@[0]);
    assert(key[1] != "quality"@[1] || key.len() != "quality"@.len() || key[0] != "quality"@[0]);
    assert(key[1] != "brightness"@[1] || key.len() != "brightness"@.len() || key[0] != "brightness"@[0]);
    assert(key[1] != "mouse_sens"@[1] || key.len() != "mouse_sens"@.len() || key[0] != "mouse_sens"@[0]);
}

/// The key of the line saving action `i`'s binding: plain text that is no
/// other setting's key, naming action `i`.
proof fn lemma_bind_key(i: int)
    requires
        0 <= i < ACTION_COUNT,
    ensures
        plain("bind."@ + spec_action_id(spec_action_at(i))@),
        action_of_id(spec_action_id(spec_action_at(i))@) == Some(spec_action_at(i)),
        "bind."@ + spec_action_id(spec_action_at(i))@ != "vsync"@,
        "bind."@ + spec_action_id(spec_action_at(i))@ != "fullscreen"@,
        "bind."@ + spec_action_id(spec_action_at(i))@ != "width"@,
        "bind."@ + spec_action_id(spec_action_at(i))@ != "height"@,
        "bind."@ + spec_action_id(spec_action_at(i))@ != "quality"@,
        "bind."@ + spec_action_id(spec_action_at(i))@ != "brightness"@,
        "bind."@ + spec_action_id(spec_action_at(i))@ != "mouse_sens"@,
{
    if i == 0 {
        lemma_bind_key_0();
    } else if i == 1 {
        lemma_bind_key_1();
    } else if i == 2 {
        lemma_bind_key_2();
    } else if i == 3 {
        lemma_bind_key_3();
    } else if i == 4 {
        lemma_bind_key_4();
    } else if i == 5 {
        lemma_bind_key_5();
    } else if i == 6 {
        lemma_bind_key_6();
    } else if i == 7 {
        lemma_bind_key_7();
    } else if i == 8 {
        lemma_bind_key_8();
    } else if i == 9 {
        lemma_bind_key_9();
    } else if i == 10 {
        lemma_bind_key_10();
    } else if i == 11 {
        lemma_bind_key_11();
    } else if i == 12 {
        lemma_bind_key_12();
    } else if i == 13 {
        lemma_bind_key_13();
    } else if i == 14 {
        lemma_bind_key_14();
    } else if i == 15 {
        lemma_bind_key_15();
    }
}

/// The setting keys are plain and pairwise different.
proof fn lemma_setting_keys()
    ensures
        plain("vsync"@),
        plain("fullscreen"@),
        plain("width"@),
        plain("height"@),
        plain("quality"@),
        plain("brightness"@),
        plain("mouse_sens"@),
        "vsync"@ != "fullscreen"@,
        "vsync"@ != "width"@,
        "vsync"@ != "height"@,
        "vsync"@ != "quality"@,
        "vsync"@ != "brightness"@,
        "vsync"@ != "mouse_sens"@,
        "fullscreen"@ != "width"@,
        "fullscreen"@ != "height"@,
        "fullscreen"@ != "quality"@,
        "fullscreen"@ != "brightness"@,
        "fullscreen"@ != "mouse_sens"@,
        "width"@ != "height"@,
        "width"@ != "quality"@,
        "width"@ != "brightness"@,
        "width"@ != "mouse_sens"@,
        "height"@ != "quality"@,
        "height"@ != "brightness"@,
        "height"@ != "mouse_sens"@,
        "quality"@ != "brightness"@,
        "quality"@ != "mouse_sens"@,
        "brightness"@ != "mouse_sens"@,
{
    reveal_strlit("vsync");
    reveal_strlit("fullscreen");
    reveal_strlit("width");
    reveal_strlit("height");
    reveal_strlit("quality");
    reveal_strlit("brightness");
    reveal_strlit("mouse_sens");
    assert("vsync"@[0] != "width"@[0]);
    assert("fullscreen"@[0] != "brightness"@[0]);
    assert("fullscreen"@[0] != "mouse_sens"@[0]);
    assert("brightness"@[0] != "mouse_sens"@[0]);
}

/// A saved flag is plain and reads back as itself.
proof fn lemma_flag_text(v: bool)
    ensures
        plain(flag_text(v)),
        flag_of(flag_text(v)) == v,
{
    reveal_strlit("1");
    reveal_strlit("0");
    reveal_strlit("true");
    if !v {
        assert("0"@[0] != "1"@[0]);
    }
}

/// The binding lines from action `i` on.
pub open spec fn bind_lines_from(binds: Seq<KeyCode>, i: int) -> Seq<char>
    decreases ACTION_COUNT - i,
{
    if i < 0 || i >= ACTION_COUNT {
        Seq::empty()
    } else {
        bind_line(binds, i) + bind_lines_from(binds, i + 1)
    }
}

proof fn lemma_bind_lines_split(binds: Seq<KeyCode>, n: nat)
    requires
        n <= ACTION_COUNT,
    ensures
        bind_lines(binds, n) + bind_lines_from(binds, n as int) == bind_lines_from(binds, 0),
    decreases n,
{
    if n == 0 {
        assert(bind_lines(binds, 0) + bind_lines_from(binds, 0) =~= bind_lines_from(binds, 0));
    } else {
        lemma_bind_lines_split(binds, (n - 1) as nat);
        assert(bind_lines(binds, n) + bind_lines_from(binds, n as int) =~= bind_lines(binds, (n - 1) as nat)
            + bind_lines_from(binds, n - 1));
    }
}

proof fn lemma_index_at(i: int)
    requires
        0 <= i < ACTION_COUNT,
    ensures
        spec_action_index(spec_action_at(i)) == i,
{
}

/// Applying the binding lines from action `i` on sets every later binding
/// to the saved key and leaves the other settings alone.
proof fn lemma_binds_from(b: Settings, target: Seq<KeyCode>, i: int)
    requires
        0 <= i <= ACTION_COUNT,
        target.len() == ACTION_COUNT,
        forall|j: int| 0 <= j < ACTION_COUNT ==> crate::settings::has_token(#[trigger] target[j]),
        forall|j: int| 0 <= j < i ==> #[trigger] b.binds@[j] == target[j],
    ensures
        ({
            let r = apply_lines(b, bind_lines_from(target, i));
            &&& r.binds@ == target
            &&& r.vsync == b.vsync && r.fullscreen == b.fullscreen
            &&& r.width == b.width && r.height == b.height
            &&& r.quality == b.quality && r.brightness == b.brightness && r.mouse_sens == b.mouse_sens
        }),
    decreases ACTION_COUNT - i,
{
    if i == ACTION_COUNT {
        assert(bind_lines_from(target, i) =~= Seq::<char>::empty());
        assert(trim(Seq::<char>::empty()) =~= Seq::<char>::empty());
        assert(apply_lines(b, Seq::<char>::empty()) == b);
        assert(b.binds@ =~= target);
    } else {
        reveal_strlit("bind.");
        let id = spec_action_id(spec_action_at(i))@;
        let key = "bind."@ + id;
        let token = spec_keycode_token(target[i])@;
        lemma_bind_key(i);
        lemma_token_plain(target[i]);
        crate::settings::law_token_roundtrip(target[i]);
        lemma_setting_keys();
        lemma_index_at(i);
        let rest = bind_lines_from(target, i + 1);
        assert(bind_lines_from(target, i) =~= (key + "="@ + token) + "\n"@ + rest);
        lemma_pair_line(b, key, token);
        lemma_apply_lines_cons(b, key + "="@ + token, rest);
        assert(key.take(5) =~= "bind."@);
        assert(key.skip(5) =~= id);
        let b2 = Settings { binds: spec_array_update(b.binds, i, target[i]), ..b };
        assert(apply_pair(b, key, token) == b2);
        assert(b2.binds@ == b.binds@.update(i, target[i]));
        lemma_binds_from(b2, target, i + 1);
    }
}

proof fn lemma_find_char_prefix(x: Seq<char>, y: Seq<char>, c: char)
    requires
        find_char(x, c) is Some,
    ensures
        find_char(x + y, c) == find_char(x, c),
    decreases x.len(),
{
    if x[0] != c {
        lemma_find_char_prefix(x.drop_first(), y, c);
        assert((x + y).drop_first() =~= x.drop_first() + y);
    }
}

proof fn lemma_apply_lines_empty(b: Settings)
    ensures
        apply_lines(b, Seq::<char>::empty()) == b,
{
    assert(trim(Seq::<char>::empty()) =~= Seq::<char>::empty());
}

/// Text made of whole lines is applied before what follows it.
proof fn lemma_apply_lines_concat(b: Settings, x: Seq<char>, y: Seq<char>)
    requires
        x.len() > 0,
        x.last() == '\n',
    ensures
        apply_lines(b, x + y) == apply_lines(apply_lines(b, x), y),
    decreases x.len(),
{
    lemma_find_char_bounds(x, '\n');
    assert(find_char(x, '\n') is Some) by {
        if find_char(x, '\n') is None {
            assert(x[x.len() - 1] != '\n');
        }
    }
    let i = find_char(x, '\n')->0;
    lemma_find_char_prefix(x, y, '\n');
    let c = apply_line(b, x.take(i));
    assert((x + y).take(i) =~= x.take(i));
    assert((x + y).skip(i + 1) =~= x.skip(i + 1) + y);
    let rest = x.skip(i + 1);
    assert(apply_lines(b, x + y) == apply_lines(c, rest + y));
    assert(apply_lines(b, x) == apply_lines(c, rest));
    if rest.len() == 0 {
        assert(rest + y =~= y);
        lemma_apply_lines_empty(c);
    } else {
        assert(rest.last() == x.last());
        lemma_apply_lines_concat(c, rest, y);
    }
}

/// A lone `key=value` line applies that pair.
proof fn lemma_setting_line_alone(b: Settings, key: &'static str, value: Seq<char>)
    requires
        plain(key@),
        plain(value),
    ensures
        apply_lines(b, setting_line(key, value)) == apply_pair(b, key@, value),
        setting_line(key, value).len() > 0,
        setting_line(key, value).last() == '\n',
{
    reveal_strlit("\n");
    let line = key@ + "="@ + value;
    assert(setting_line(key, value) =~= line + "\n"@ + Seq::<char>::empty());
    lemma_pair_line(b, key@, value);
    lemma_apply_lines_cons(b, line, Seq::<char>::empty());
    lemma_apply_lines_empty(apply_line(b, line));
}

proof fn lemma_header(b: Settings)
    ensures
        apply_lines(b, SETTINGS_HEADER@) == b,
        SETTINGS_HEADER@.len() > 0,
        SETTINGS_HEADER@.last() == '\n',
{
    let head = "# spacetime settings \u{2014} edit or use the pause menu"@;
    reveal_strlit("# spacetime settings \u{2014} edit or use the pause menu\n");
    reveal_strlit("# spacetime settings \u{2014} edit or use the pause menu");
    reveal_strlit("\n");
    assert(SETTINGS_HEADER@ =~= head + "\n"@ + Seq::<char>::empty());
    assert(forall|i: int| 0 <= i < head.len() ==> head[i] != '\n');
    lemma_trim_plain(head);
    lemma_apply_lines_cons(b, head, Seq::<char>::empty());
    lemma_apply_lines_empty(apply_line(b, head));
}

proof fn lemma_scalar_pairs(b: Settings, s: Settings)
    requires
        50 <= s.brightness <= 150,
        50 <= s.mouse_sens <= 200,
    ensures
        apply_pair(b, "vsync"@, flag_text(s.vsync)) == (Settings { vsync: s.vsync, ..b }),
        apply_pair(b, "fullscreen"@, flag_text(s.fullscreen)) == (Settings { fullscreen: s.fullscreen, ..b }),
        apply_pair(b, "width"@, dec_chars(s.width as nat)) == (Settings { width: s.width, ..b }),
        apply_pair(b, "height"@, dec_chars(s.height as nat)) == (Settings { height: s.height, ..b }),
        apply_pair(b, "quality"@, dec_chars(spec_quality_as_u8(s.quality) as nat)) == (Settings {
            quality: s.quality,
            ..b
        }),
        apply_pair(b, "brightness"@, dec_chars(s.brightness as nat)) == (Settings { brightness: s.brightness, ..b }),
        apply_pair(b, "mouse_sens"@, dec_chars(s.mouse_sens as nat)) == (Settings { mouse_sens: s.mouse_sens, ..b }),
        plain(flag_text(s.vsync)),
        plain(flag_text(s.fullscreen)),
        plain(dec_chars(s.width as nat)),
        plain(dec_chars(s.height as nat)),
        plain(dec_chars(spec_quality_as_u8(s.quality) as nat)),
        plain(dec_chars(s.brightness as nat)),
        plain(dec_chars(s.mouse_sens as nat)),
{
    lemma_setting_keys();
    lemma_flag_text(s.vsync);
    lemma_flag_text(s.fullscreen);
    lemma_unsigned_dec(s.width as nat, u32::MAX as nat);
    lemma_unsigned_dec(s.height as nat, u32::MAX as nat);
    lemma_unsigned_dec(spec_quality_as_u8(s.quality) as nat, 255);
    lemma_unsigned_dec(s.brightness as nat, 255);
    lemma_unsigned_dec(s.mouse_sens as nat, 255);
    crate::settings::law_quality_roundtrip(s.quality);
}

/// One more whole `key=value` line after whole lines.
proof fn lemma_step(base: Settings, p: Seq<char>, key: &'static str, v: Seq<char>, b: Settings)
    requires
        p.len() > 0,
        p.last() == '\n',
        apply_lines(base, p) == b,
        plain(key@),
        plain(v),
    ensures
        apply_lines(base, p + setting_line(key, v)) == apply_pair(b, key@, v),
        (p + setting_line(key, v)).len() > 0,
        (p + setting_line(key, v)).last() == '\n',
{
    lemma_setting_line_alone(b, key, v);
    lemma_apply_lines_concat(base, p, setting_line(key, v));
}

/// Saving then reading back gives the same settings, whatever they were
/// read over: every value the file holds is written, and every key name is
/// one the reader knows. Keys without a name of their own (the unbound key,
/// F1 to F4, and the keys saved as `Key`) and brightness or sensitivity
/// outside their ranges do not read back.
pub proof fn law_settings_roundtrip(base: Settings, s: Settings)
    requires
        50 <= s.brightness <= 150,
        50 <= s.mouse_sens <= 200,
        forall|i: int| 0 <= i < ACTION_COUNT ==> crate::settings::has_token(#[trigger] s.binds@[i]),
    ensures
        apply_lines(base, settings_text(s)) == s,
{
    let p0 = SETTINGS_HEADER@;
    let p1 = p0 + setting_line("vsync", flag_text(s.vsync));
    let p2 = p1 + setting_line("fullscreen", flag_text(s.fullscreen));
    let p3 = p2 + setting_line("width", dec_chars(s.width as nat));
    let p4 = p3 + setting_line("height", dec_chars(s.height as nat));
    let p5 = p4 + setting_line("quality", dec_chars(spec_quality_as_u8(s.quality) as nat));
    let p6 = p5 + setting_line("brightness", dec_chars(s.brightness as nat));
    let p7 = p6 + setting_line("mouse_sens", dec_chars(s.mouse_sens as nat));
    assert(settings_head(s) == p7);
    lemma_header(base);
    lemma_setting_keys();
    let b1 = Settings { vsync: s.vsync, ..base };
    let b2 = Settings { fullscreen: s.fullscreen, ..b1 };
    let b3 = Settings { width: s.width, ..b2 };
    let b4 = Settings { height: s.height, ..b3 };
    let b5 = Settings { quality: s.quality, ..b4 };
    let b6 = Settings { brightness: s.brightness, ..b5 };
    let b7 = Settings { mouse_sens: s.mouse_sens, ..b6 };
    assert(apply_lines(base, p1) == b1 && p1.len() > 0 && p1.last() == '\n') by {
        lemma_scalar_pairs(base, s);
        lemma_step(base, p0, "vsync", flag_text(s.vsync), base);
    }
    assert(apply_lines(base, p2) == b2 && p2.len() > 0 && p2.last() == '\n') by {
        lemma_scalar_pairs(b1, s);
        lemma_step(base, p1, "fullscreen", flag_text(s.fullscreen), b1);
    }
    assert(apply_lines(base, p3) == b3 && p3.len() > 0 && p3.last() == '\n') by {
        lemma_scalar_pairs(b2, s);
        lemma_step(base, p2, "width", dec_chars(s.width as nat), b2);
    }
    assert(apply_lines(base, p4) == b4 && p4.len() > 0 && p4.last() == '\n') by {
        lemma_scalar_pairs(b3, s);
        lemma_step(base, p3, "height", dec_chars(s.height as nat), b3);
    }
    assert(apply_lines(base, p5) == b5 && p5.len() > 0 && p5.last() == '\n') by {
        lemma_scalar_pairs(b4, s);
        lemma_step(base, p4, "quality", dec_chars(spec_quality_as_u8(s.quality) as nat), b4);
    }
    assert(apply_lines(base, p6) == b6 && p6.len() > 0 && p6.last() == '\n') by {
        lemma_scalar_pairs(b5, s);
        lemma_step(base, p5, "brightness", dec_chars(s.brightness as nat), b5);
    }
    assert(apply_lines(base, p7) == b7 && p7.len() > 0 && p7.last() == '\n') by {
        lemma_scalar_pairs(b6, s);
        lemma_step(base, p6, "mouse_sens", dec_chars(s.mouse_sens as nat), b6);
    }
    // the key bindings
    let binds = bind_lines(s.binds@, ACTION_COUNT as nat);
    assert(apply_lines(base, settings_text(s)) == apply_lines(b7, binds)) by {
        lemma_apply_lines_concat(base, p7, binds);
    }
    assert(binds == bind_lines_from(s.binds@, 0)) by {
        lemma_bind_lines_split(s.binds@, ACTION_COUNT as nat);
        assert(bind_lines_from(s.binds@, ACTION_COUNT as int) =~= Seq::<char>::empty());
        assert(binds =~= binds + bind_lines_from(s.binds@, ACTION_COUNT as int));
    }
    lemma_binds_from(b7, s.binds@, 0);
    let r = apply_lines(b7, binds);
    assert(r.binds =~= s.binds);
}

} // verus!
