//! Text helpers: comparing strings, UTF-16 code units, hexadecimal digits and
//! the canonical spelling of identifiers.

use vstd::prelude::*;
use vstd::std_specs::iter::IteratorSpec;
use vstd::string::StringExecFns;

verus! {

/// Whether `p` is a prefix of `s`, character by character.
pub fn is_prefix(p: &str, s: &str) -> (r: bool)
    ensures
        r == p@.is_prefix_of(s@),
{
    let mut rest = s.chars();
    for c in it: p.chars()
        invariant
            it.seq() == p@,
            it.index() <= s@.len(),
            rest.remaining() == s@.subrange(it.index(), s@.len() as int),
            p@.subrange(0, it.index()) == s@.subrange(0, it.index()),
    {
        match rest.next() {
            None => {
                return false;
            },
            Some(d) => {
                if c != d {
                    return false;
                }
            },
        }
    }
    true
}

/// Whether `a` and `b` hold the same characters.
pub fn same_text(a: &str, b: &str) -> (r: bool)
    ensures
        r == (a@ == b@),
{
    let mut rest = b.chars();
    for c in it: a.chars()
        invariant
            it.seq() == a@,
            it.index() <= b@.len(),
            rest.remaining() == b@.subrange(it.index(), b@.len() as int),
            a@.subrange(0, it.index()) == b@.subrange(0, it.index()),
    {
        match rest.next() {
            None => {
                return false;
            },
            Some(d) => {
                if c != d {
                    return false;
                }
            },
        }
    }
    let tail = rest.next();
    proof {
        assert(a@ == a@.subrange(0, a@.len() as int));
        if tail is None {
            assert(b@ == b@.subrange(0, a@.len() as int));
        }
    }
    tail.is_none()
}

/// The UTF-16 code units of one character: itself below U+10000, a surrogate
/// pair above.
pub open spec fn utf16_units(c: char) -> Seq<u16> {
    let v = c as u32;
    if v < 0x10000 {
        seq![v as u16]
    } else {
        seq![(0xD800 + (v - 0x10000) / 0x400) as u16, (0xDC00 + (v - 0x10000) % 0x400) as u16]
    }
}

/// The UTF-16 encoding of a character sequence.
pub open spec fn utf16_of(s: Seq<char>) -> Seq<u16>
    decreases s.len(),
{
    if s.len() == 0 {
        Seq::empty()
    } else {
        utf16_of(s.drop_last()) + utf16_units(s.last())
    }
}

/// Encodes `s` as UTF-16 code units.
pub fn encode_utf16(s: &str) -> (out: Vec<u16>)
    ensures
        out@ == utf16_of(s@),
{
    let mut out: Vec<u16> = Vec::new();
    for c in it: s.chars()
        invariant
            it.seq() == s@,
            out@ == utf16_of(s@.subrange(0, it.index())),
    {
        proof {
            let before = s@.subrange(0, it.index());
            let after = s@.subrange(0, it.index() + 1);
            assert(after.drop_last() == before);
            assert(after.last() == c);
        }
        let v: u32 = c as u32;
        if v < 0x10000 {
            out.push(v as u16);
        } else {
            let w: u32 = v - 0x10000;
            out.push((0xD800 + w / 0x400) as u16);
            out.push((0xDC00 + w % 0x400) as u16);
        }
    }
    proof {
        assert(s@ == s@.subrange(0, s@.len() as int));
    }
    out
}

/// The UTF-16 encoding of `s` followed by one terminating zero unit.
pub open spec fn wide_of(s: Seq<char>) -> Seq<u16> {
    utf16_of(s).push(0u16)
}

/// The digit that stands for `d` in base sixteen; letters in upper case when
/// `upper` holds, in lower case otherwise.
pub open spec fn hex_digit(d: int, upper: bool) -> char {
    if d == 0 {
        '0'
    } else if d == 1 {
        '1'
    } else if d == 2 {
        '2'
    } else if d == 3 {
        '3'
    } else if d == 4 {
        '4'
    } else if d == 5 {
        '5'
    } else if d == 6 {
        '6'
    } else if d == 7 {
        '7'
    } else if d == 8 {
        '8'
    } else if d == 9 {
        '9'
    } else if d == 10 {
        if upper { 'A' } else { 'a' }
    } else if d == 11 {
        if upper { 'B' } else { 'b' }
    } else if d == 12 {
        if upper { 'C' } else { 'c' }
    } else if d == 13 {
        if upper { 'D' } else { 'd' }
    } else if d == 14 {
        if upper { 'E' } else { 'e' }
    } else {
        if upper { 'F' } else { 'f' }
    }
}

/// `v` in base sixteen, padded with leading zeros to at least `width` digits.
pub open spec fn hex_text(v: nat, width: nat, upper: bool) -> Seq<char>
    decreases v, width,
{
    if v < 16 && width <= 1 {
        seq![hex_digit(v as int, upper)]
    } else {
        hex_text(v / 16, if width > 0 { (width - 1) as nat } else { 0 }, upper).push(
            hex_digit((v % 16) as int, upper),
        )
    }
}

/// Whether `c` is a digit of base sixteen in the given case.
pub open spec fn is_hex_digit(c: char, upper: bool) -> bool {
    ('0' <= c && c <= '9') || (if upper {
        'A' <= c && c <= 'F'
    } else {
        'a' <= c && c <= 'f'
    })
}

/// Sixteen to the power `n`.
pub open spec fn sixteen_to(n: nat) -> nat
    decreases n,
{
    if n == 0 {
        1
    } else {
        16 * sixteen_to((n - 1) as nat)
    }
}

/// `hex_text` holds digits of the asked case only, never fewer than `width`
/// and never none; a number that fits in `width` digits takes exactly that
/// many.
pub proof fn hex_text_shape(v: nat, width: nat, upper: bool)
    ensures
        hex_text(v, width, upper).len() >= width,
        hex_text(v, width, upper).len() >= 1,
        width >= 1 && v < sixteen_to(width) ==> hex_text(v, width, upper).len() == width,
        forall|i: int|
            0 <= i < hex_text(v, width, upper).len() ==> is_hex_digit(
                #[trigger] hex_text(v, width, upper)[i],
                upper,
            ),
    decreases v, width,
{
    if v < 16 && width <= 1 {
        reveal_with_fuel(sixteen_to, 2);
    } else {
        let rest: nat = if width > 0 {
            (width - 1) as nat
        } else {
            0
        };
        hex_text_shape(v / 16, rest, upper);
        if width >= 1 && v < sixteen_to(width) {
            reveal_with_fuel(sixteen_to, 2);
            assert(width >= 2);
            assert(v / 16 < sixteen_to(rest));
        }
    }
}

fn hex_digit_lower(d: u8) -> (r: &'static str)
    requires
        d < 16,
    ensures
        r@ == seq![hex_digit(d as int, false)],
{
    proof {
        reveal_strlit("0");
        reveal_strlit("1");
        reveal_strlit("2");
        reveal_strlit("3");
        reveal_strlit("4");
        reveal_strlit("5");
        reveal_strlit("6");
        reveal_strlit("7");
        reveal_strlit("8");
        reveal_strlit("9");
        reveal_strlit("a");
        reveal_strlit("b");
        reveal_strlit("c");
        reveal_strlit("d");
        reveal_strlit("e");
        reveal_strlit("f");
    }
    let r = match d {
        0 => "0",
        1 => "1",
        2 => "2",
        3 => "3",
        4 => "4",
        5 => "5",
        6 => "6",
        7 => "7",
        8 => "8",
        9 => "9",
        10 => "a",
        11 => "b",
        12 => "c",
        13 => "d",
        14 => "e",
        _ => "f",
    };
    assert(r@ =~= seq![hex_digit(d as int, false)]);
    r
}

fn hex_digit_upper(d: u8) -> (r: &'static str)
    requires
        d < 16,
    ensures
        r@ == seq![hex_digit(d as int, true)],
{
    if d < 10 {
        hex_digit_lower(d)
    } else {
        proof {
            reveal_strlit("A");
            reveal_strlit("B");
            reveal_strlit("C");
            reveal_strlit("D");
            reveal_strlit("E");
            reveal_strlit("F");
        }
        let r = match d {
            10 => "A",
            11 => "B",
            12 => "C",
            13 => "D",
            14 => "E",
            _ => "F",
        };
        assert(r@ =~= seq![hex_digit(d as int, true)]);
        r
    }
}

/// Appends `v` in base sixteen to `out`, padded to at least `width` digits.
pub fn push_hex(out: &mut String, v: u64, width: usize, upper: bool)
    ensures
        final(out)@ == old(out)@ + hex_text(v as nat, width as nat, upper),
    decreases v, width,
{
    if v >= 16 || width > 1 {
        push_hex(out, v / 16, if width > 0 { width - 1 } else { 0 }, upper);
    }
    let d: u8 = (v % 16) as u8;
    if upper {
        out.append(hex_digit_upper(d));
    } else {
        out.append(hex_digit_lower(d));
    }
}

/// A device address as text: upper-case base sixteen, at least twelve digits.
pub open spec fn address_text(address: u64) -> Seq<char> {
    hex_text(address as nat, 12, true)
}

/// The text of an address holds upper-case digits of base sixteen only, at
/// least twelve of them, and exactly twelve for an address of 48 bits.
pub proof fn address_text_shape(address: u64)
    ensures
        address_text(address).len() >= 12,
        address < 0x1_0000_0000_0000 ==> address_text(address).len() == 12,
        forall|i: int|
            0 <= i < address_text(address).len() ==> is_hex_digit(
                #[trigger] address_text(address)[i],
                true,
            ),
{
    hex_text_shape(address as nat, 12, true);
    reveal_with_fuel(sixteen_to, 13);
}

/// Writes a device address as upper-case base sixteen of at least twelve
/// digits.
pub fn format_address(address: u64) -> (out: String)
    ensures
        out@ == address_text(address),
{
    let mut out = String::new();
    push_hex(&mut out, address, 12, true);
    out
}

/// Bytes as text: two lower-case base-sixteen digits for each byte, in order.
pub open spec fn hex_of_bytes(bytes: Seq<u8>) -> Seq<char>
    decreases bytes.len(),
{
    if bytes.len() == 0 {
        Seq::empty()
    } else {
        hex_of_bytes(bytes.drop_last()) + hex_text(bytes.last() as nat, 2, false)
    }
}

/// Writes each byte as two lower-case base-sixteen digits.
pub fn hex_encode(bytes: &[u8]) -> (out: String)
    ensures
        out@ == hex_of_bytes(bytes@),
{
    let mut out = String::new();
    let mut i: usize = 0;
    while i < bytes.len()
        invariant
            i <= bytes.len(),
            out@ == hex_of_bytes(bytes@.subrange(0, i as int)),
        decreases bytes.len() - i,
    {
        proof {
            let before = bytes@.subrange(0, i as int);
            let after = bytes@.subrange(0, i + 1);
            assert(after.drop_last() == before);
            assert(after.last() == bytes@[i as int]);
        }
        push_hex(&mut out, bytes[i] as u64, 2, false);
        i = i + 1;
    }
    proof {
        assert(bytes@ == bytes@.subrange(0, bytes@.len() as int));
    }
    out
}

/// The lower-case form of a character sequence, as the standard library's
/// Unicode case mapping gives it.
pub uninterp spec fn lowercase_of(s: Seq<char>) -> Seq<char>;

/// Calls `str::to_lowercase`. The contract only names the result: the
/// lower-case form is a function of the characters of `s` alone.
#[verifier::external_body]
pub(crate) fn to_lowercase(s: &str) -> (r: String)
    ensures
        r@ == lowercase_of(s@),
{
    s.to_lowercase()
}

/// Whether a UTF-16 unit is the first half of a surrogate pair.
pub open spec fn is_high_surrogate(u: u16) -> bool {
    0xD800 <= u <= 0xDBFF
}

/// Whether a UTF-16 unit is the second half of a surrogate pair.
pub open spec fn is_low_surrogate(u: u16) -> bool {
    0xDC00 <= u <= 0xDFFF
}

/// The text that a sequence of UTF-16 units decodes to when nothing is
/// refused: a unit that is no surrogate is its own character, a first half
/// followed by a second half is the character of the pair, and every other
/// unit, which is a surrogate without its partner, becomes the replacement
/// character U+FFFD.
pub open spec fn utf16_lossy_text(units: Seq<u16>) -> Seq<char>
    decreases units.len(),
{
    if units.len() == 0 {
        Seq::empty()
    } else if !is_high_surrogate(units[0]) && !is_low_surrogate(units[0]) {
        seq![units[0] as char] + utf16_lossy_text(units.drop_first())
    } else if is_high_surrogate(units[0]) && units.len() >= 2 && is_low_surrogate(units[1]) {
        seq![(0x10000 + (units[0] - 0xD800) * 0x400 + (units[1] - 0xDC00)) as char]
            + utf16_lossy_text(units.subrange(2, units.len() as int))
    } else {
        seq!['\u{FFFD}'] + utf16_lossy_text(units.drop_first())
    }
}

/// The encoding of a text that starts with `c` starts with the units of `c`.
pub proof fn utf16_of_first(c: char, rest: Seq<char>)
    ensures
        utf16_of(seq![c] + rest) == utf16_units(c) + utf16_of(rest),
    decreases rest.len(),
{
    let whole = seq![c] + rest;
    if rest.len() == 0 {
        assert(whole.drop_last() =~= Seq::<char>::empty());
        assert(whole.last() == c);
        assert(utf16_of(whole.drop_last()) =~= Seq::<u16>::empty());
        assert(utf16_of(whole) =~= utf16_units(c));
        assert(utf16_units(c) + utf16_of(rest) =~= utf16_units(c));
    } else {
        assert(whole.drop_last() =~= seq![c] + rest.drop_last());
        assert(whole.last() == rest.last());
        utf16_of_first(c, rest.drop_last());
        assert(utf16_of(whole) =~= utf16_units(c) + utf16_of(rest));
    }
}

/// Decoding undoes encoding: the units that a text is written as decode to
/// that text, with nothing replaced.
pub proof fn decoding_undoes_encoding(s: Seq<char>)
    ensures
        utf16_lossy_text(utf16_of(s)) == s,
    decreases s.len(),
{
    if s.len() == 0 {
    } else {
        let c = s[0];
        let rest = s.drop_first();
        assert(s =~= seq![c] + rest);
        utf16_of_first(c, rest);
        decoding_undoes_encoding(rest);
        let units = utf16_of(s);
        let tail = utf16_of(rest);
        let v = c as u32;
        vstd::utf8::char_is_scalar(c);
        vstd::utf8::char_u32_cast(c, v);
        assert(v <= 0x10FFFF && !(0xD800 <= v <= 0xDFFF));
        if v < 0x10000 {
            assert(units =~= seq![v as u16] + tail);
            assert(units[0] == v);
            assert(units.drop_first() =~= tail);
            assert(units[0] as char == v as char);
        } else {
            let w = (v - 0x10000) as int;
            assert(0 <= w / 0x400 < 0x400 && 0 <= w % 0x400 < 0x400);
            let high = (0xD800 + w / 0x400) as u16;
            let low = (0xDC00 + w % 0x400) as u16;
            assert(high == 0xD800 + w / 0x400 && low == 0xDC00 + w % 0x400);
            assert(units =~= seq![high, low] + tail);
            assert(units[0] == high && units[1] == low);
            assert(units.subrange(2, units.len() as int) =~= tail);
            assert(0x10000 + (high - 0xD800) * 0x400 + (low - 0xDC00) == v);
        }
        assert(utf16_lossy_text(units) =~= seq![c] + rest);
    }
}

/// Calls `String::from_utf16_lossy`, which decodes UTF-16 and puts the
/// replacement character in the place of each unit that is a surrogate
/// without its partner. The contract states that decoding.
#[verifier::external_body]
pub(crate) fn from_utf16_lossy(units: &[u16]) -> (r: String)
    ensures
        r@ == utf16_lossy_text(units@),
{
    String::from_utf16_lossy(units)
}

} // verus!
