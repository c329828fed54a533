//! Colours given as three bytes, written `#RRGGBB` and read from six hex digits.

use vstd::prelude::*;
use vstd::utf8::{encode_utf8, is_char_boundary, is_ascii_chars, is_ascii_chars_encode_utf8};
use vstd::string::StringSliceAdditionalSpecFns;
use crate::text::push_char;
use crate::helper::{escape_seq, is_markup_char, lemma_escape_plain_text};

verus! {

/// A colour as its red, green and blue bytes.
#[derive(Debug, Default, Clone, Copy)]
pub struct Rgb(pub [u8; 3]);

/// A colour text that is not six hexadecimal digits.
#[derive(Debug, Clone, Copy, PartialEq, Eq)]
pub struct ColourError;

/// The upper-case hexadecimal digit `d` (for `0 <= d < 16`).
pub open spec fn hex_digit_char(d: int) -> char {
    seq!['0', '1', '2', '3', '4', '5', '6', '7', '8', '9', 'A', 'B', 'C', 'D', 'E', 'F'][d]
}

/// A byte as two upper-case hexadecimal digits.
pub open spec fn hex_pair(b: u8) -> Seq<char> {
    seq![hex_digit_char(b as int / 16), hex_digit_char(b as int % 16)]
}

/// The six hexadecimal digits of a colour.
pub open spec fn hex_digits(c: Seq<u8>) -> Seq<char> {
    hex_pair(c[0]) + hex_pair(c[1]) + hex_pair(c[2])
}

/// The written form of a colour: `#` and its six hexadecimal digits.
pub open spec fn hex_colour(c: Seq<u8>) -> Seq<char> {
    seq!['#'] + hex_digits(c)
}

/// The value of one hexadecimal digit byte (either case).
pub open spec fn hex_value(b: u8) -> Option<u8> {
    if 48 <= b <= 57 {
        Some((b - 48) as u8)
    } else if 97 <= b <= 102 {
        Some((b - 87) as u8)
    } else if 65 <= b <= 70 {
        Some((b - 55) as u8)
    } else {
        None
    }
}

/// The byte that two bytes of text denote in base 16: two digits, or a
/// `+` sign and one digit.
pub open spec fn hex_byte(a: u8, b: u8) -> Option<u8> {
    if a == 43 {
        hex_value(b)
    } else {
        match (hex_value(a), hex_value(b)) {
            (Some(x), Some(y)) => Some((x * 16 + y) as u8),
            _ => None,
        }
    }
}

/// The colour that a text of six bytes denotes, pair by pair.
pub open spec fn colour_from_bytes(s: Seq<u8>) -> Option<(u8, u8, u8)> {
    if s.len() != 6 {
        None
    } else {
        match (hex_byte(s[0], s[1]), hex_byte(s[2], s[3]), hex_byte(s[4], s[5])) {
            (Some(r), Some(g), Some(b)) => Some((r, g, b)),
            _ => None,
        }
    }
}

/// A text of six bytes is cut into its three pairs at character boundaries.
pub open spec fn splits_into_pairs(s: Seq<u8>) -> bool {
    s.len() == 6 ==> is_char_boundary(s, 2) && is_char_boundary(s, 4)
}

fn hex_digit(d: u8) -> (c: char)
    requires
        d < 16,
    ensures
        c == hex_digit_char(d as int),
{
    if d == 0 { '0' }
    else if d == 1 { '1' }
    else if d == 2 { '2' }
    else if d == 3 { '3' }
    else if d == 4 { '4' }
    else if d == 5 { '5' }
    else if d == 6 { '6' }
    else if d == 7 { '7' }
    else if d == 8 { '8' }
    else if d == 9 { '9' }
    else if d == 10 { 'A' }
    else if d == 11 { 'B' }
    else if d == 12 { 'C' }
    else if d == 13 { 'D' }
    else if d == 14 { 'E' }
    else { 'F' }
}

fn push_hex_pair(s: &mut String, b: u8)
    ensures
        final(s)@ == old(s)@ + hex_pair(b),
{
    push_char(s, hex_digit(b / 16));
    push_char(s, hex_digit(b % 16));
    assert(s@ =~= old(s)@ + hex_pair(b));
}

fn read_hex_value(b: u8) -> (r: Option<u8>)
    ensures
        r == hex_value(b),
{
    if 48 <= b && b <= 57 {
        Some(b - 48)
    } else if 97 <= b && b <= 102 {
        Some(b - 87)
    } else if 65 <= b && b <= 70 {
        Some(b - 55)
    } else {
        None
    }
}

fn read_hex_byte(a: u8, b: u8) -> (r: Option<u8>)
    ensures
        r == hex_byte(a, b),
{
    if a == 43 {
        read_hex_value(b)
    } else {
        match (read_hex_value(a), read_hex_value(b)) {
            (Some(x), Some(y)) => Some(x * 16 + y),
            _ => None,
        }
    }
}

impl Rgb {
    /// Writes the colour as `#RRGGBB` with upper-case digits.
    pub fn to_hex_string(&self) -> (res: String)
        ensures
            res@ == hex_colour(self.0@),
    {
        let mut s = String::new();
        push_char(&mut s, '#');
        push_hex_pair(&mut s, self.0[0]);
        push_hex_pair(&mut s, self.0[1]);
        push_hex_pair(&mut s, self.0[2]);
        assert(s@ =~= hex_colour(self.0@));
        s
    }

    /// Reads a colour from exactly six hexadecimal digits, taken in pairs;
    /// each pair may also be a `+` sign and one digit.
    pub fn from_hex_str(v: &str) -> (res: Result<Rgb, ColourError>)
        requires
            splits_into_pairs(v.spec_bytes()),
        ensures
            match res {
                Ok(c) => colour_from_bytes(v.spec_bytes()) == Some((c.0[0], c.0[1], c.0[2])),
                Err(_) => colour_from_bytes(v.spec_bytes()) is None,
            },
    {
        let b = v.as_bytes();
        if b.len() != 6 {
            return Err(ColourError);
        }
        let r = read_hex_byte(b[0], b[1]);
        let g = read_hex_byte(b[2], b[3]);
        let bl = read_hex_byte(b[4], b[5]);
        match (r, g, bl) {
            (Some(r), Some(g), Some(bl)) => Ok(Rgb([r, g, bl])),
            _ => Err(ColourError),
        }
    }
}

impl From<Rgb> for String {
    /// The written form `#RRGGBB` of the colour.
    fn from(value: Rgb) -> (res: String)
        ensures
            res@ == hex_colour(value.0@),
    {
        value.to_hex_string()
    }
}

impl vstd::std_specs::convert::FromSpecImpl<Rgb> for String {
    /// A `String` is not determined by its characters in specifications, so
    /// the conversion is described by the `ensures` of `from` alone.
    open spec fn obeys_from_spec() -> bool {
        false
    }

    open spec fn from_spec(v: Rgb) -> String {
        choose|s: String| #[trigger] s@ == hex_colour(v.0@)
    }
}

proof fn lemma_hex_digit_value(d: int)
    requires
        0 <= d < 16,
    ensures
        '0' <= hex_digit_char(d) <= 'F',
        hex_value(hex_digit_char(d) as u8) == Some(d as u8),
        hex_value(lower_ascii(hex_digit_char(d)) as u8) == Some(d as u8),
        '0' <= lower_ascii(hex_digit_char(d)) <= 'f',
        hex_digit_char(d) != '+',
        lower_ascii(hex_digit_char(d)) != '+',
        hex_digit_char(d) != '<' && hex_digit_char(d) != '>' && hex_digit_char(d) != '&'
            && hex_digit_char(d) != '"',
{
}

proof fn lemma_hex_byte_of_pair(b: u8)
    ensures
        hex_byte(hex_pair(b)[0] as u8, hex_pair(b)[1] as u8) == Some(b),
        hex_byte(lower_ascii(hex_pair(b)[0]) as u8, lower_ascii(hex_pair(b)[1]) as u8) == Some(b),
        is_ascii_chars(hex_pair(b)),
{
    lemma_hex_digit_value(b as int / 16);
    lemma_hex_digit_value(b as int % 16);
}

/// The lower-case form of an ASCII letter; other characters stay as they are.
pub open spec fn lower_ascii(c: char) -> char {
    if 'A' <= c <= 'Z' {
        ((c as u32) + 32) as char
    } else {
        c
    }
}

/// The characters of a colour's written form: `#`, then digits and the
/// upper-case letters `A` to `F`, so none of them needs escaping in HTML.
pub proof fn lemma_hex_colour_chars(c: Seq<u8>)
    requires
        c.len() == 3,
    ensures
        hex_colour(c).len() == 7,
        hex_colour(c)[0] == '#',
        forall|i: int| 1 <= i < 7 ==> {
            let ch = #[trigger] hex_colour(c)[i];
            ('0' <= ch <= '9' || 'A' <= ch <= 'F')
        },
{
    lemma_hex_digit_value(c[0] as int / 16);
    lemma_hex_digit_value(c[0] as int % 16);
    lemma_hex_digit_value(c[1] as int / 16);
    lemma_hex_digit_value(c[1] as int % 16);
    lemma_hex_digit_value(c[2] as int / 16);
    lemma_hex_digit_value(c[2] as int % 16);
    let h = hex_colour(c);
    assert(h[1] == hex_digit_char(c[0] as int / 16));
    assert(h[2] == hex_digit_char(c[0] as int % 16));
    assert(h[3] == hex_digit_char(c[1] as int / 16));
    assert(h[4] == hex_digit_char(c[1] as int % 16));
    assert(h[5] == hex_digit_char(c[2] as int / 16));
    assert(h[6] == hex_digit_char(c[2] as int % 16));
}

/// Reading back the six digits that three bytes are written with gives the
/// same bytes, whether the letters are read in upper or in lower case.
pub proof fn lemma_hex_digits_round_trip(c: Seq<u8>)
    requires
        c.len() == 3,
    ensures
        colour_from_bytes(encode_utf8(hex_digits(c))) == Some((c[0], c[1], c[2])),
        colour_from_bytes(encode_utf8(hex_digits(c).map_values(|ch: char| lower_ascii(ch)))) == Some(
            (c[0], c[1], c[2]),
        ),
        hex_colour(c).drop_first() == hex_digits(c),
{
    let d = hex_digits(c);
    let l = d.map_values(|ch: char| lower_ascii(ch));
    lemma_hex_byte_of_pair(c[0]);
    lemma_hex_byte_of_pair(c[1]);
    lemma_hex_byte_of_pair(c[2]);
    assert(is_ascii_chars(d));
    is_ascii_chars_encode_utf8(d);
    lemma_hex_digit_value(c[0] as int / 16);
    lemma_hex_digit_value(c[0] as int % 16);
    lemma_hex_digit_value(c[1] as int / 16);
    lemma_hex_digit_value(c[1] as int % 16);
    lemma_hex_digit_value(c[2] as int / 16);
    lemma_hex_digit_value(c[2] as int % 16);
    assert(l[0] == lower_ascii(hex_pair(c[0])[0]));
    assert(l[1] == lower_ascii(hex_pair(c[0])[1]));
    assert(l[2] == lower_ascii(hex_pair(c[1])[0]));
    assert(l[3] == lower_ascii(hex_pair(c[1])[1]));
    assert(l[4] == lower_ascii(hex_pair(c[2])[0]));
    assert(l[5] == lower_ascii(hex_pair(c[2])[1]));
    assert(is_ascii_chars(l));
    is_ascii_chars_encode_utf8(l);
    assert(hex_colour(c).drop_first() =~= d);
}

/// Reading back the six digits that a colour is written with gives the same colour.
pub proof fn lemma_colour_round_trip(c: Rgb)
    ensures
        colour_from_bytes(encode_utf8(hex_digits(c.0@))) == Some((c.0[0], c.0[1], c.0[2])),
        hex_colour(c.0@).drop_first() == hex_digits(c.0@),
{
    lemma_hex_digits_round_trip(c.0@);
}

/// A colour's written form needs no escaping in HTML, and reading back its
/// digits gives the colour.
pub proof fn lemma_hex_colour_escaped(c: Seq<u8>)
    requires
        c.len() == 3,
    ensures
        escape_seq(hex_colour(c)) == hex_colour(c),
        hex_colour(c).len() == 7,
        hex_colour(c)[0] == '#',
        colour_from_bytes(encode_utf8(hex_colour(c).drop_first())) == Some((c[0], c[1], c[2])),
{
    lemma_hex_colour_chars(c);
    lemma_hex_digits_round_trip(c);
    let h = hex_colour(c);
    assert forall|i: int| 0 <= i < h.len() implies !is_markup_char(#[trigger] h[i]) && h[i] != '&' by {
        if i > 0 {
            let ch = h[i];
            assert('0' <= ch <= '9' || 'A' <= ch <= 'F');
        }
    }
    lemma_escape_plain_text(h);
}

/// Hex digits are read without regard to case: a lower-case letter `a` to `f`
/// has the value of its upper-case form, `A` is ten and each next letter one
/// more, and the digits `0` to `9` have their own value; no other byte is a digit.
pub proof fn lemma_hex_value_case_insensitive(b: u8)
    ensures
        65 <= b <= 70 ==> hex_value((b + 32) as u8) == hex_value(b),
        65 <= b <= 70 ==> hex_value(b) == Some((b - 65 + 10) as u8),
        48 <= b <= 57 ==> hex_value(b) == Some((b - 48) as u8),
        hex_value(b) is Some <==> (48 <= b <= 57 || 65 <= b <= 70 || 97 <= b <= 102),
{
}

} // verus!
