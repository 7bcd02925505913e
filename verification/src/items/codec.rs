//! The slot list wire format: `item:count` pairs joined by `|`, in decimal
//! (`"1:12|0:0|4:6"`). Both the server rows and the client cache use it.
use vstd::prelude::*;

use vstd::string::StringSliceAdditionalSpecFns;
use vstd::utf8::{encode_utf8, is_ascii_chars, is_ascii_chars_encode_utf8};

use super::catalog::{ItemId, EMPTY};
use super::stack::{empty_slots, empty_stack, new_stack, Stack};

verus! {

/// The ASCII digit for `d` in `0..10`.
pub open spec fn digit_char(d: int) -> char {
    if d == 0 { '0' } else if d == 1 { '1' } else if d == 2 { '2' } else if d == 3 { '3' }
    else if d == 4 { '4' } else if d == 5 { '5' } else if d == 6 { '6' } else if d == 7 { '7' }
    else if d == 8 { '8' } else { '9' }
}

/// Decimal text of `n`, most significant digit first, no leading zeros.
pub open spec fn dec_chars(n: nat) -> Seq<char>
    decreases n,
{
    if n < 10 {
        seq![digit_char(n as int)]
    } else {
        dec_chars(n / 10).push(digit_char((n % 10) as int))
    }
}

/// `item:count` for one slot.
pub open spec fn slot_chars(s: Stack) -> Seq<char> {
    dec_chars(s.item.0 as nat) + seq![':'] + dec_chars(s.count as nat)
}

/// The encoded slot list: each slot's `item:count`, joined by `|`.
pub open spec fn encode_chars(s: Seq<Stack>) -> Seq<char>
    decreases s.len(),
{
    if s.len() == 0 {
        Seq::empty()
    } else if s.len() == 1 {
        slot_chars(s[0])
    } else {
        encode_chars(s.drop_last()) + seq!['|'] + slot_chars(s.last())
    }
}

/// `bytes.split(sep)`: the pieces between separators (an empty input is one empty piece).
pub open spec fn split_at_byte(bytes: Seq<u8>, sep: u8) -> Seq<Seq<u8>>
    decreases bytes.len(),
{
    if bytes.len() == 0 {
        seq![Seq::empty()]
    } else {
        let prev = split_at_byte(bytes.drop_last(), sep);
        if bytes.last() == sep {
            prev.push(Seq::empty())
        } else {
            prev.update(prev.len() - 1, prev.last().push(bytes.last()))
        }
    }
}

pub open spec fn is_digit(b: u8) -> bool {
    48 <= b <= 57
}

pub open spec fn all_digits(d: Seq<u8>) -> bool {
    forall|i: int| 0 <= i < d.len() ==> is_digit(#[trigger] d[i])
}

/// Drops one leading `+`.
pub open spec fn strip_plus(b: Seq<u8>) -> Seq<u8> {
    if b.len() > 0 && b[0] == 43 { b.drop_first() } else { b }
}

/// Value of a run of decimal digits.
pub open spec fn digits_value(b: Seq<u8>) -> nat
    decreases b.len(),
{
    if b.len() == 0 {
        0
    } else {
        digits_value(b.drop_last()) * 10 + (b.last() - 48) as nat
    }
}

/// `str::parse::<u16>`: an optional leading `+`, then at least one decimal digit,
/// and a value that fits in `u16`.
pub open spec fn parse_u16_of(b: Seq<u8>) -> Option<u16> {
    let digits = strip_plus(b);
    if digits.len() > 0 && all_digits(digits) && digits_value(digits) <= u16::MAX {
        Some(digits_value(digits) as u16)
    } else {
        None
    }
}

pub open spec fn or_zero(p: Option<u16>) -> u16 {
    match p {
        Some(v) => v,
        None => 0,
    }
}

/// One encoded slot: the first `:`-field is the item, the second the count;
/// a field that does not parse reads as 0.
pub open spec fn slot_of(part: Seq<u8>) -> Stack {
    let fields = split_at_byte(part, 58);
    let item = or_zero(parse_u16_of(fields[0]));
    let count = if fields.len() >= 2 { or_zero(parse_u16_of(fields[1])) } else { 0 };
    new_stack(ItemId(item), count as int)
}

/// Decoding `bytes` into exactly `len` slots: missing slots are empty, extra ones ignored.
pub open spec fn decode_of(bytes: Seq<u8>, len: nat) -> Seq<Stack> {
    if bytes.len() == 0 {
        Seq::new(len, |i: int| empty_stack())
    } else {
        let parts = split_at_byte(bytes, 124);
        Seq::new(len, |i: int| if i < parts.len() { slot_of(parts[i]) } else { empty_stack() })
    }
}

fn digit_str(d: u32) -> (s: &'static str)
    requires
        d < 10,
    ensures
        s@ == seq![digit_char(d as int)],
{
    proof {
        reveal_strlit("0");
        reveal_strlit("1");
        reveal_strlit("2");
        reveal_strlit("3");
        reveal_strlit("4");
        reveal_strlit("5");
        reveal_strlit("6");
        reveal_strlit("7");
        reveal_strlit("8");
        reveal_strlit("9");
    }
    match d {
        0 => "0",
        1 => "1",
        2 => "2",
        3 => "3",
        4 => "4",
        5 => "5",
        6 => "6",
        7 => "7",
        8 => "8",
        _ => "9",
    }
}

pub(crate) fn push_decimal(out: &mut String, n: u32)
    ensures
        final(out)@ == old(out)@ + dec_chars(n as nat),
    decreases n,
{
    if n >= 10 {
        push_decimal(out, n / 10);
    }
    out.append(digit_str(n % 10));
    assert(old(out)@ + dec_chars(n as nat) =~= final(out)@) by {
        if n < 10 {
            assert(dec_chars(n as nat) == seq![digit_char(n as int)]);
        }
    }
}

/// Encode slots as `item:count` pairs joined by `|`.
pub fn encode_slots(slots: &[Stack]) -> (r: String)
    ensures
        r@ == encode_chars(slots@),
{
    let mut out = String::new();
    proof {
        reveal_strlit(":");
        reveal_strlit("|");
    }
    let mut i: usize = 0;
    while i < slots.len()
        invariant
            i <= slots@.len(),
            out@ == encode_chars(slots@.take(i as int)),
            ":"@ == seq![':'],
            "|"@ == seq!['|'],
        decreases slots@.len() - i,
    {
        let ghost before = out@;
        if i > 0 {
            out.append("|");
        }
        let s = slots[i];
        push_decimal(&mut out, s.item.0 as u32);
        out.append(":");
        push_decimal(&mut out, s.count as u32);
        proof {
            let t = slots@.take(i + 1);
            assert(t.drop_last() =~= slots@.take(i as int));
            assert(t.last() == s);
            if i == 0 {
                assert(out@ =~= slot_chars(s));
            } else {
                assert(out@ =~= before + seq!['|'] + slot_chars(s));
            }
        }
        i += 1;
    }
    assert(slots@.take(i as int) =~= slots@);
    out
}

fn split_bytes(bytes: &[u8], sep: u8) -> (parts: Vec<Vec<u8>>)
    ensures
        parts@.map_values(|v: Vec<u8>| v@) == split_at_byte(bytes@, sep),
        parts@.len() >= 1,
{
    let mut parts: Vec<Vec<u8>> = Vec::new();
    let mut cur: Vec<u8> = Vec::new();
    let mut i: usize = 0;
    assert(bytes@.take(0) =~= Seq::<u8>::empty());
    while i < bytes.len()
        invariant
            i <= bytes@.len(),
            parts@.map_values(|v: Vec<u8>| v@).push(cur@) == split_at_byte(bytes@.take(i as int), sep),
        decreases bytes@.len() - i,
    {
        let b = bytes[i];
        let ghost prev = split_at_byte(bytes@.take(i as int), sep);
        assert(bytes@.take(i + 1).drop_last() =~= bytes@.take(i as int));
        assert(bytes@.take(i + 1).last() == b);
        if b == sep {
            let done = cur;
            parts.push(done);
            cur = Vec::new();
            assert(parts@.map_values(|v: Vec<u8>| v@).push(cur@) =~= prev.push(Seq::empty()));
        } else {
            cur.push(b);
            assert(parts@.map_values(|v: Vec<u8>| v@).push(cur@) =~= prev.update(
                prev.len() - 1,
                prev.last().push(b),
            ));
        }
        i += 1;
    }
    assert(bytes@.take(i as int) =~= bytes@);
    let ghost before = parts@;
    parts.push(cur);
    assert(parts@.map_values(|v: Vec<u8>| v@) =~= before.map_values(|v: Vec<u8>| v@).push(cur@));
    parts
}

proof fn lemma_digits_prefix(b: Seq<u8>, k: int)
    requires
        0 <= k <= b.len(),
        forall|i: int| 0 <= i < b.len() ==> is_digit(#[trigger] b[i]),
    ensures
        digits_value(b.take(k)) <= digits_value(b),
    decreases b.len() - k,
{
    if k < b.len() {
        lemma_digits_prefix(b, k + 1);
        assert(b.take(k + 1).drop_last() =~= b.take(k));
    } else {
        assert(b.take(k) =~= b);
    }
}

/// `str::parse::<u16>` on the bytes of a field.
fn parse_u16(b: &[u8]) -> (r: Option<u16>)
    ensures
        r == parse_u16_of(b@),
{
    let start: usize = if b.len() > 0 && b[0] == 43 { 1 } else { 0 };
    let ghost digits = strip_plus(b@);
    assert(digits =~= b@.skip(start as int));
    if start >= b.len() {
        return None;
    }
    let mut value: u32 = 0;
    let mut i: usize = start;
    while i < b.len()
        invariant
            start <= i <= b@.len(),
            start < b@.len(),
            digits == strip_plus(b@),
            digits =~= b@.skip(start as int),
            forall|j: int| start <= j < i ==> is_digit(#[trigger] b@[j]),
            value == digits_value(b@.subrange(start as int, i as int)),
            value <= u16::MAX,
        decreases b@.len() - i,
    {
        let c = b[i];
        if c < 48 || c > 57 {
            assert(digits[i - start] == c);
            assert(!is_digit(digits[i - start]));
            return None;
        }
        assert(b@.subrange(start as int, i + 1).drop_last() =~= b@.subrange(start as int, i as int));
        let next = value * 10 + (c - 48) as u32;
        if next > 65535 {
            proof {
                if all_digits(digits) {
                    lemma_digits_prefix(digits, i + 1 - start);
                    assert(digits.take(i + 1 - start) =~= b@.subrange(start as int, i + 1));
                    assert(digits_value(digits) > u16::MAX);
                }
            }
            return None;
        }
        value = next;
        i += 1;
    }
    assert(b@.subrange(start as int, i as int) =~= digits);
    Some(value as u16)
}

fn parse_slot(part: &[u8]) -> (s: Stack)
    ensures
        s == slot_of(part@),
{
    let fields = split_bytes(part, 58);
    proof {
        assert(fields@.map_values(|v: Vec<u8>| v@)[0] == fields@[0]@);
    }
    let item = match parse_u16(fields[0].as_slice()) {
        Some(v) => v,
        None => 0,
    };
    let count = if fields.len() >= 2 {
        assert(fields@.map_values(|v: Vec<u8>| v@)[1] == fields@[1]@);
        match parse_u16(fields[1].as_slice()) {
            Some(v) => v,
            None => 0,
        }
    } else {
        0
    };
    Stack::new(ItemId(item), count)
}

/// Decode a packed slot list into exactly `len` slots.
pub fn decode_slots(packed: &str, len: usize) -> (out: Vec<Stack>)
    ensures
        out@ == decode_of(packed.spec_bytes(), len as nat),
{
    let bytes = packed.as_bytes();
    let mut out = empty_slots(len);
    if bytes.len() == 0 {
        assert(out@ =~= decode_of(packed.spec_bytes(), len as nat));
        return out;
    }
    let parts = split_bytes(bytes, 124);
    let ghost pv = parts@.map_values(|v: Vec<u8>| v@);
    let mut i: usize = 0;
    while i < len && i < parts.len()
        invariant
            out@.len() == len,
            bytes@ == packed.spec_bytes(),
            bytes@.len() > 0,
            pv == split_at_byte(bytes@, 124),
            pv == parts@.map_values(|v: Vec<u8>| v@),
            i <= len,
            forall|k: int| 0 <= k < i ==> out@[k] == #[trigger] decode_of(bytes@, len as nat)[k],
            forall|k: int| i <= k < len ==> out@[k] == empty_stack(),
        decreases len - i,
    {
        assert(pv[i as int] == parts@[i as int]@);
        let s = parse_slot(parts[i].as_slice());
        out.set(i, s);
        i += 1;
    }
    assert(out@ =~= decode_of(packed.spec_bytes(), len as nat));
    out
}

/// The byte image of ASCII text.
pub open spec fn ascii_bytes(c: Seq<char>) -> Seq<u8> {
    c.map_values(|ch: char| ch as u8)
}

proof fn lemma_ascii_concat(a: Seq<char>, b: Seq<char>)
    ensures
        ascii_bytes(a + b) == ascii_bytes(a) + ascii_bytes(b),
{
    assert(ascii_bytes(a + b) =~= ascii_bytes(a) + ascii_bytes(b));
}

proof fn lemma_digit_char(d: int)
    requires
        0 <= d < 10,
    ensures
        digit_char(d) as u8 == 48 + d,
        '0' <= digit_char(d) <= '9',
{
}

/// The decimal text of `n` is a non-empty run of ASCII digits worth `n`.
proof fn lemma_dec(n: nat)
    ensures
        ascii_bytes(dec_chars(n)).len() >= 1,
        all_digits(ascii_bytes(dec_chars(n))),
        digits_value(ascii_bytes(dec_chars(n))) == n,
        forall|i: int| 0 <= i < dec_chars(n).len() ==> '0' <= #[trigger] dec_chars(n)[i] <= '9',
    decreases n,
{
    let b = ascii_bytes(dec_chars(n));
    if n < 10 {
        lemma_digit_char(n as int);
        assert(b.drop_last() =~= Seq::<u8>::empty());
        assert(digits_value(Seq::<u8>::empty()) == 0);
    } else {
        lemma_dec(n / 10);
        lemma_digit_char((n % 10) as int);
        let prev = ascii_bytes(dec_chars(n / 10));
        assert(b =~= prev.push(digit_char((n % 10) as int) as u8));
        assert(b.drop_last() =~= prev);
    }
}

proof fn lemma_split_nonempty(b: Seq<u8>, sep: u8)
    ensures
        split_at_byte(b, sep).len() >= 1,
    decreases b.len(),
{
    if b.len() > 0 {
        lemma_split_nonempty(b.drop_last(), sep);
    }
}

/// Text without the separator is a single piece.
proof fn lemma_split_none(x: Seq<u8>, sep: u8)
    requires
        forall|i: int| 0 <= i < x.len() ==> #[trigger] x[i] != sep,
    ensures
        split_at_byte(x, sep) == seq![x],
    decreases x.len(),
{
    if x.len() > 0 {
        assert forall|i: int| 0 <= i < x.drop_last().len() implies #[trigger] x.drop_last()[i] != sep by {
            assert(x.drop_last()[i] == x[i]);
        }
        lemma_split_none(x.drop_last(), sep);
        assert(x.last() != sep) by {
            assert(x.last() == x[x.len() - 1]);
        }
        assert(x.drop_last().push(x.last()) =~= x);
        assert(split_at_byte(x, sep) =~= seq![x]);
    } else {
        assert(x =~= Seq::<u8>::empty());
    }
}

/// Splitting `x + sep + y` splits `x` and `y` apart.
proof fn lemma_split_join(x: Seq<u8>, sep: u8, y: Seq<u8>)
    ensures
        split_at_byte(x + seq![sep] + y, sep) == split_at_byte(x, sep) + split_at_byte(y, sep),
    decreases y.len(),
{
    let z = x + seq![sep] + y;
    if y.len() == 0 {
        assert(z.drop_last() =~= x);
        assert(split_at_byte(y, sep) =~= seq![Seq::<u8>::empty()]);
        assert(split_at_byte(z, sep) =~= split_at_byte(x, sep) + split_at_byte(y, sep));
    } else {
        lemma_split_join(x, sep, y.drop_last());
        lemma_split_nonempty(y.drop_last(), sep);
        assert(z.drop_last() =~= x + seq![sep] + y.drop_last());
        assert(z.last() == y.last());
        assert(split_at_byte(z, sep) =~= split_at_byte(x, sep) + split_at_byte(y, sep));
    }
}

proof fn lemma_slot_bytes(st: Stack)
    ensures
        is_ascii_chars(slot_chars(st)),
        forall|i: int| 0 <= i < ascii_bytes(slot_chars(st)).len() ==> #[trigger] ascii_bytes(slot_chars(st))[i] != 124,
        slot_of(ascii_bytes(slot_chars(st))) == new_stack(st.item, st.count as int),
{
    let a = dec_chars(st.item.0 as nat);
    let c = dec_chars(st.count as nat);
    lemma_dec(st.item.0 as nat);
    lemma_dec(st.count as nat);
    let ab = ascii_bytes(a);
    let cb = ascii_bytes(c);
    lemma_ascii_concat(a + seq![':'], c);
    lemma_ascii_concat(a, seq![':']);
    assert(ascii_bytes(seq![':']) =~= seq![58u8]);
    let b = ascii_bytes(slot_chars(st));
    assert(b == ab + seq![58u8] + cb);
    assert forall|i: int| 0 <= i < ab.len() implies #[trigger] ab[i] != 58 by {
        assert(is_digit(ab[i]));
    }
    assert forall|i: int| 0 <= i < cb.len() implies #[trigger] cb[i] != 58 by {
        assert(is_digit(cb[i]));
    }
    lemma_split_join(ab, 58, cb);
    lemma_split_none(ab, 58);
    lemma_split_none(cb, 58);
    let fields = split_at_byte(b, 58);
    assert(fields =~= seq![ab, cb]);
    assert(strip_plus(ab) == ab);
    assert(strip_plus(cb) == cb);
    assert forall|i: int| 0 <= i < b.len() implies #[trigger] b[i] != 124 by {
        if i < ab.len() {
            assert(is_digit(ab[i]));
        } else if i > ab.len() {
            assert(b[i] == cb[i - ab.len() - 1]);
            assert(is_digit(cb[i - ab.len() - 1]));
        }
    }
    assert forall|i: int| 0 <= i < slot_chars(st).len() implies '\0' <= #[trigger] slot_chars(st)[i] <= '\u{7f}' by {
        if i < a.len() {
            assert(slot_chars(st)[i] == a[i]);
        } else if i > a.len() {
            assert(slot_chars(st)[i] == c[i - a.len() - 1]);
        }
    }
}

/// The encoded list is ASCII and its pieces between `|` are the encoded slots.
proof fn lemma_encode_parts(s: Seq<Stack>)
    requires
        s.len() >= 1,
    ensures
        is_ascii_chars(encode_chars(s)),
        split_at_byte(ascii_bytes(encode_chars(s)), 124) == Seq::new(
            s.len(),
            |i: int| ascii_bytes(slot_chars(s[i])),
        ),
    decreases s.len(),
{
    lemma_slot_bytes(s.last());
    let last = ascii_bytes(slot_chars(s.last()));
    lemma_split_none(last, 124);
    if s.len() == 1 {
        assert(Seq::new(s.len(), |i: int| ascii_bytes(slot_chars(s[i]))) =~= seq![last]);
    } else {
        lemma_encode_parts(s.drop_last());
        let prev = encode_chars(s.drop_last());
        lemma_ascii_concat(prev + seq!['|'], slot_chars(s.last()));
        lemma_ascii_concat(prev, seq!['|']);
        assert(ascii_bytes(seq!['|']) =~= seq![124u8]);
        lemma_split_join(ascii_bytes(prev), 124, last);
        assert(split_at_byte(ascii_bytes(encode_chars(s)), 124) =~= Seq::new(
            s.len(),
            |i: int| ascii_bytes(slot_chars(s[i])),
        ));
        let e = encode_chars(s);
        assert forall|i: int| 0 <= i < e.len() implies '\0' <= #[trigger] e[i] <= '\u{7f}' by {
            if i < prev.len() {
                assert(e[i] == prev[i]);
            } else if i > prev.len() {
                assert(e[i] == slot_chars(s.last())[i - prev.len() - 1]);
            }
        }
    }
}

/// Decoding what was encoded gives back every slot (normalised, so an empty
/// item or a zero count reads as the empty stack), padded with empty slots or
/// cut to the requested length.
pub proof fn law_codec_roundtrip(slots: Seq<Stack>, len: nat)
    ensures
        decode_of(encode_utf8(encode_chars(slots)), len) == Seq::new(
            len,
            |i: int|
                if i < slots.len() {
                    new_stack(slots[i].item, slots[i].count as int)
                } else {
                    empty_stack()
                },
        ),
{
    if slots.len() == 0 {
        assert(encode_utf8(encode_chars(slots)) =~= Seq::<u8>::empty());
        assert(decode_of(encode_utf8(encode_chars(slots)), len) =~= Seq::new(
            len,
            |i: int|
                if i < slots.len() {
                    new_stack(slots[i].item, slots[i].count as int)
                } else {
                    empty_stack()
                },
        ));
    } else {
        lemma_encode_parts(slots);
        let e = encode_chars(slots);
        is_ascii_chars_encode_utf8(e);
        assert(encode_utf8(e) =~= ascii_bytes(e));
        lemma_slot_bytes(slots[0]);
        let parts = split_at_byte(ascii_bytes(e), 124);
        assert(ascii_bytes(e).len() > 0) by {
            assert(parts.len() == slots.len());
            if ascii_bytes(e).len() == 0 {
                assert(ascii_bytes(e) =~= Seq::<u8>::empty());
            }
        }
        assert forall|i: int| 0 <= i < slots.len() implies slot_of(#[trigger] parts[i]) == new_stack(
            slots[i].item,
            slots[i].count as int,
        ) by {
            lemma_slot_bytes(slots[i]);
        }
        assert(decode_of(encode_utf8(e), len) =~= Seq::new(
            len,
            |i: int|
                if i < slots.len() {
                    new_stack(slots[i].item, slots[i].count as int)
                } else {
                    empty_stack()
                },
        ));
    }
}

/// A slot as the codec hands it out: the empty stack, or a real item with a
/// positive count.
pub open spec fn is_normal(s: Stack) -> bool {
    s == empty_stack() || (s.item.0 != EMPTY && s.count > 0)
}

/// Whether the `i`-th `|`-part of `bytes` has an item or a count that does
/// not read as a number (a missing count field counts as unreadable).
pub open spec fn part_unreadable(bytes: Seq<u8>, i: int) -> bool {
    let fields = split_at_byte(split_at_byte(bytes, 124)[i], 58);
    parse_u16_of(fields[0]) is None || fields.len() < 2 || parse_u16_of(fields[1]) is None
}

/// Whatever the text, decoding gives exactly `len` slots, every one of them
/// normalised; a part whose item or count does not read as a number is an
/// empty slot, and so is every slot past the last part (parts past `len`
/// are ignored, as the length shows).
pub proof fn law_decode_shape(bytes: Seq<u8>, len: nat)
    ensures
        decode_of(bytes, len).len() == len,
        forall|i: int| 0 <= i < len ==> is_normal(#[trigger] decode_of(bytes, len)[i]),
        forall|i: int|
            0 <= i < len && (bytes.len() == 0 || i >= split_at_byte(bytes, 124).len()
                || part_unreadable(bytes, i)) ==> #[trigger] decode_of(bytes, len)[i]
                == empty_stack(),
{
}

} // verus!
