//! Colours as the helper writes them: six lower-case hex digits, `rrggbb`.
use vstd::prelude::*;

verus! {

/// A 24-bit colour as three bytes: red, green, blue.
#[derive(Clone, Copy, Debug, PartialEq, Eq, Structural)]
pub struct Rgb {
    pub r: u8,
    pub g: u8,
    pub b: u8,
}

/// The colour that text which is no colour decodes to.
pub open spec fn white() -> Rgb {
    Rgb { r: 255, g: 255, b: 255 }
}

/// The lower-case hex digit of `d < 16`.
pub open spec fn hex_digit_char(d: u8) -> char {
    if d < 10 {
        ((d + 48) as u8) as char
    } else {
        ((d + 87) as u8) as char
    }
}

/// Two lower-case hex digits of `x`, the high one first.
pub open spec fn byte_hex(x: u8) -> Seq<char> {
    seq![hex_digit_char(x / 16), hex_digit_char(x % 16)]
}

/// The `rrggbb` text of a colour.
pub open spec fn hex_spec(c: Rgb) -> Seq<char> {
    byte_hex(c.r) + byte_hex(c.g) + byte_hex(c.b)
}

/// The value of a hex digit of either case.
pub open spec fn hex_value(c: char) -> Option<u8> {
    if '0' <= c && c <= '9' {
        Some((c as u32 - 48) as u8)
    } else if 'a' <= c && c <= 'f' {
        Some((c as u32 - 87) as u8)
    } else if 'A' <= c && c <= 'F' {
        Some((c as u32 - 55) as u8)
    } else {
        None
    }
}

/// Two characters read as a base-16 byte (a leading `+` allowed before a
/// single digit), or 255 where they are none.
pub open spec fn pair_value(a: char, b: char) -> u8 {
    match (hex_value(a), hex_value(b)) {
        (Some(x), Some(y)) => (x * 16 + y) as u8,
        (None, Some(y)) => if a == '+' {
            y
        } else {
            255
        },
        _ => 255,
    }
}

/// `s` without its leading `#` characters.
pub open spec fn strip_hashes(s: Seq<char>) -> Seq<char>
    decreases s.len(),
{
    if s.len() > 0 && s[0] == '#' {
        strip_hashes(s.drop_first())
    } else {
        s
    }
}

pub open spec fn is_ascii_text(s: Seq<char>) -> bool {
    forall|i: int| 0 <= i < s.len() ==> #[trigger] s[i] < '\u{80}'
}

/// The colour that a text names: after any leading `#`, six ASCII characters
/// read two by two; anything else is white.
pub open spec fn decode_spec(s: Seq<char>) -> Rgb {
    let h = strip_hashes(s);
    if h.len() == 6 && is_ascii_text(h) {
        Rgb { r: pair_value(h[0], h[1]), g: pair_value(h[2], h[3]), b: pair_value(h[4], h[5]) }
    } else {
        white()
    }
}

/// Relies on `String::push`: appends one character.
#[verifier::external_body]
pub(crate) fn push_char(s: &mut String, c: char)
    ensures
        final(s)@ == old(s)@.push(c),
{
    s.push(c)
}

fn hex_digit(d: u8) -> (c: char)
    requires
        d < 16,
    ensures
        c == hex_digit_char(d),
{
    if d < 10 {
        (d + 48) as char
    } else {
        (d + 87) as char
    }
}

fn digit_value(c: char) -> (r: Option<u8>)
    ensures
        r == hex_value(c),
{
    if '0' <= c && c <= '9' {
        Some((c as u32 - 48) as u8)
    } else if 'a' <= c && c <= 'f' {
        Some((c as u32 - 87) as u8)
    } else if 'A' <= c && c <= 'F' {
        Some((c as u32 - 55) as u8)
    } else {
        None
    }
}

fn pair(a: char, b: char) -> (r: u8)
    ensures
        r == pair_value(a, b),
{
    match (digit_value(a), digit_value(b)) {
        (Some(x), Some(y)) => x * 16 + y,
        (None, Some(y)) => if a == '+' {
            y
        } else {
            255
        },
        _ => 255,
    }
}

/// Appends the two hex digits of `x`.
fn push_byte_hex(s: &mut String, x: u8)
    ensures
        final(s)@ == old(s)@ + byte_hex(x),
{
    push_char(s, hex_digit(x / 16));
    push_char(s, hex_digit(x % 16));
    assert(final(s)@ =~= old(s)@ + byte_hex(x));
}

/// The `rrggbb` text of a colour, in lower case.
pub fn color_to_hex(color: Rgb) -> (r: String)
    ensures
        r@ == hex_spec(color),
{
    let mut s = String::new();
    push_byte_hex(&mut s, color.r);
    push_byte_hex(&mut s, color.g);
    push_byte_hex(&mut s, color.b);
    assert(s@ =~= hex_spec(color));
    s
}

/// The colour that a text names; white where it names none.
pub fn hex_to_color(hex: &str) -> (r: Rgb)
    ensures
        r == decode_spec(hex@),
{
    let n = hex.unicode_len();
    let mut i: usize = 0;
    assert(hex@.subrange(0, n as int) =~= hex@);
    while i < n && hex.get_char(i) == '#'
        invariant
            n == hex@.len(),
            i <= n,
            strip_hashes(hex@.subrange(i as int, n as int)) == strip_hashes(hex@),
        decreases n - i,
    {
        assert(hex@.subrange(i as int, n as int).drop_first() =~= hex@.subrange(i + 1, n as int));
        i = i + 1;
    }
    let ghost h = hex@.subrange(i as int, n as int);
    assert(strip_hashes(h) == h);
    if n - i != 6 {
        return Rgb { r: 255, g: 255, b: 255 };
    }
    let mut k: usize = i;
    while k < n
        invariant
            n == hex@.len(),
            i <= k <= n,
            h == hex@.subrange(i as int, n as int),
            strip_hashes(hex@) == h,
            n - i == 6,
            forall|j: int| 0 <= j < k - i ==> (#[trigger] h[j]) < '\u{80}',
        decreases n - k,
    {
        if hex.get_char(k) >= '\u{80}' {
            assert(h[k - i] == hex@[k as int]);
            assert(!is_ascii_text(h));
            assert(decode_spec(hex@) == white());
            return Rgb { r: 255, g: 255, b: 255 };
        }
        k = k + 1;
    }
    Rgb {
        r: pair(hex.get_char(i), hex.get_char(i + 1)),
        g: pair(hex.get_char(i + 2), hex.get_char(i + 3)),
        b: pair(hex.get_char(i + 4), hex.get_char(i + 5)),
    }
}

/// Decoding the text of a colour gives the colour back.
pub proof fn lemma_hex_round_trip(c: Rgb)
    ensures
        decode_spec(hex_spec(c)) == c,
{
    let h = hex_spec(c);
    assert forall|x: u8| #[trigger] byte_hex(x).len() == 2 && hex_value(byte_hex(x)[0]) == Some(x / 16)
        && hex_value(byte_hex(x)[1]) == Some(x % 16) && byte_hex(x)[0] < '\u{80}' && byte_hex(x)[1] < '\u{80}' by {
    }
    assert(h[0] != '#');
    assert(strip_hashes(h) == h);
    assert(h =~= seq![byte_hex(c.r)[0], byte_hex(c.r)[1], byte_hex(c.g)[0], byte_hex(c.g)[1], byte_hex(c.b)[0], byte_hex(c.b)[1]]);
    assert(pair_value(h[0], h[1]) == c.r);
    assert(pair_value(h[2], h[3]) == c.g);
    assert(pair_value(h[4], h[5]) == c.b);
}

} // verus!
