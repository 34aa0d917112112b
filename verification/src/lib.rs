//! A tiny color value library for TUI application builders.
//!
//! One immutable RGB triple, [`Color`], with a constructor from the three
//! 8-bit channels, an encoder to the canonical `#RRGGBB` hex string, and a
//! case-insensitive parser back from that textual form.

use vstd::prelude::*;
use vstd::string::{StrSliceExecFns, StringExecFns};

verus! {

/// One concrete RGB color: three 8-bit channels, red, green, blue.
///
/// A `Color` is a plain, independently owned value: immutable once built,
/// freely copyable, equal to another exactly when all three channels agree.
#[derive(Clone, Copy, Debug, PartialEq, Eq, Structural)]
pub struct Color {
    pub r: u8,
    pub g: u8,
    pub b: u8,
}

/// The character that encodes one hex digit value, `A`-`F` uppercase.
pub open spec fn hex_digit_char(v: u8) -> char
    recommends
        v < 16,
{
    if v == 0 {
        '0'
    } else if v == 1 {
        '1'
    } else if v == 2 {
        '2'
    } else if v == 3 {
        '3'
    } else if v == 4 {
        '4'
    } else if v == 5 {
        '5'
    } else if v == 6 {
        '6'
    } else if v == 7 {
        '7'
    } else if v == 8 {
        '8'
    } else if v == 9 {
        '9'
    } else if v == 10 {
        'A'
    } else if v == 11 {
        'B'
    } else if v == 12 {
        'C'
    } else if v == 13 {
        'D'
    } else if v == 14 {
        'E'
    } else {
        'F'
    }
}

/// The canonical hex encoding of a color: `#` then the three channels,
/// each as two uppercase hex digits, red first, then green, then blue.
pub open spec fn hex_encoding(c: Color) -> Seq<char> {
    seq![
        '#',
        hex_digit_char(c.r / 16),
        hex_digit_char(c.r % 16),
        hex_digit_char(c.g / 16),
        hex_digit_char(c.g % 16),
        hex_digit_char(c.b / 16),
        hex_digit_char(c.b % 16),
    ]
}

/// Whether a character is a hex digit, lowercase and uppercase letters alike.
pub open spec fn is_hex_digit(c: char) -> bool {
    ('0' <= c && c <= '9') || ('A' <= c && c <= 'F') || ('a' <= c && c <= 'f')
}

/// The value of one hex digit character, decoded case-insensitively.
pub open spec fn hex_digit_value(c: char) -> u8
    recommends
        is_hex_digit(c),
{
    if '0' <= c && c <= '9' {
        (c as int - '0' as int) as u8
    } else if 'A' <= c && c <= 'F' {
        (c as int - 'A' as int + 10) as u8
    } else if 'a' <= c && c <= 'f' {
        (c as int - 'a' as int + 10) as u8
    } else {
        0
    }
}

/// The channel value encoded by a two-digit hex pair, high digit first.
pub open spec fn hex_pair_value(hi: char, lo: char) -> u8
    recommends
        is_hex_digit(hi),
        is_hex_digit(lo),
{
    (hex_digit_value(hi) * 16 + hex_digit_value(lo)) as u8
}

/// Whether a character sequence is a well-formed color string: exactly seven
/// characters, a leading `#`, and six hex digits of either case.
pub open spec fn is_valid_hex(s: Seq<char>) -> bool {
    &&& s.len() == 7
    &&& s[0] == '#'
    &&& forall|i: int| 1 <= i < 7 ==> is_hex_digit(#[trigger] s[i])
}

/// The color a well-formed color string denotes: the three decoded pairs,
/// red first, then green, then blue.
pub open spec fn parsed_color(s: Seq<char>) -> Color
    recommends
        is_valid_hex(s),
{
    Color {
        r: hex_pair_value(s[1], s[2]),
        g: hex_pair_value(s[3], s[4]),
        b: hex_pair_value(s[5], s[6]),
    }
}

/// What parsing a character sequence yields: the denoted color when the
/// sequence is a well-formed color string, nothing otherwise.
pub open spec fn spec_parse(s: Seq<char>) -> Option<Color> {
    if is_valid_hex(s) {
        Some(parsed_color(s))
    } else {
        None
    }
}

/// The error a failed parse reports. It carries the rejected input string
/// for diagnostics.
#[derive(Clone, Debug, PartialEq, Eq)]
pub struct ParseColorError {
    pub input: String,
}

impl ParseColorError {
    /// A human-readable description of the failure, naming the rejected input.
    pub fn message(&self) -> (m: String)
        ensures
            m@ == "invalid color string: "@ + self.input@,
    {
        let mut m = String::new();
        m.append("invalid color string: ");
        m.append(self.input.as_str());
        proof {
            assert(m@ =~= "invalid color string: "@ + self.input@);
        }
        m
    }
}

/// The one-character string that spells one hex digit value.
fn hex_digit_str(v: u8) -> (s: &'static str)
    requires
        v < 16,
    ensures
        s@.len() == 1,
        s@[0] == hex_digit_char(v),
{
    proof {
        reveal_strlit("0");
        reveal_strlit("1");
        reveal_strlit("2");
        reveal_strlit("3");
        reveal_strlit("4");
        reveal_strlit("5");
        reveal_strlit("6");
        reveal_strlit("7");
        reveal_strlit("8");
        reveal_strlit("9");
        reveal_strlit("A");
        reveal_strlit("B");
        reveal_strlit("C");
        reveal_strlit("D");
        reveal_strlit("E");
        reveal_strlit("F");
    }
    if v == 0 {
        "0"
    } else if v == 1 {
        "1"
    } else if v == 2 {
        "2"
    } else if v == 3 {
        "3"
    } else if v == 4 {
        "4"
    } else if v == 5 {
        "5"
    } else if v == 6 {
        "6"
    } else if v == 7 {
        "7"
    } else if v == 8 {
        "8"
    } else if v == 9 {
        "9"
    } else if v == 10 {
        "A"
    } else if v == 11 {
        "B"
    } else if v == 12 {
        "C"
    } else if v == 13 {
        "D"
    } else if v == 14 {
        "E"
    } else {
        "F"
    }
}

/// Decodes one hex digit character, case-insensitively; `None` when the
/// character is no hex digit.
fn hex_value(c: char) -> (r: Option<u8>)
    ensures
        match r {
            Some(v) => is_hex_digit(c) && v == hex_digit_value(c) && v < 16,
            None => !is_hex_digit(c),
        },
{
    let x = c as u32;
    if 48 <= x && x <= 57 {
        Some((x - 48) as u8)
    } else if 65 <= x && x <= 70 {
        Some((x - 65 + 10) as u8)
    } else if 97 <= x && x <= 102 {
        Some((x - 97 + 10) as u8)
    } else {
        None
    }
}

impl Color {
    /// Creates a new `Color` with the given red, green, and blue values.
    pub fn new(r: u8, g: u8, b: u8) -> (c: Self)
        ensures
            c == (Color { r, g, b }),
    {
        Self { r, g, b }
    }

    /// Converts the color to its canonical hexadecimal form `#RRGGBB`,
    /// each channel zero-padded to two uppercase hex digits.
    pub fn to_hex(&self) -> (s: String)
        ensures
            s@ == hex_encoding(*self),
    {
        let mut s = String::new();
        s.append("#");
        s.append(hex_digit_str(self.r / 16));
        s.append(hex_digit_str(self.r % 16));
        s.append(hex_digit_str(self.g / 16));
        s.append(hex_digit_str(self.g % 16));
        s.append(hex_digit_str(self.b / 16));
        s.append(hex_digit_str(self.b % 16));
        proof {
            reveal_strlit("#");
            assert(s@ =~= hex_encoding(*self));
        }
        s
    }

    /// Parses a hexadecimal color string of the form `#RRGGBB`.
    ///
    /// Accepts exactly seven characters, a leading `#`, and six hex digits of
    /// either case; every other input is rejected with a [`ParseColorError`]
    /// carrying the input.
    pub fn parse_hex(s: &str) -> (res: Result<Color, ParseColorError>)
        ensures
            match res {
                Ok(c) => spec_parse(s@) == Some(c),
                Err(e) => spec_parse(s@) is None && e.input@ == s@,
            },
    {
        if s.unicode_len() != 7 {
            return Err(ParseColorError { input: String::from_str(s) });
        }
        if s.get_char(0) != '#' {
            return Err(ParseColorError { input: String::from_str(s) });
        }
        let d1 = hex_value(s.get_char(1));
        let d2 = hex_value(s.get_char(2));
        let d3 = hex_value(s.get_char(3));
        let d4 = hex_value(s.get_char(4));
        let d5 = hex_value(s.get_char(5));
        let d6 = hex_value(s.get_char(6));
        match (d1, d2, d3, d4, d5, d6) {
            (Some(h1), Some(h2), Some(h3), Some(h4), Some(h5), Some(h6)) => {
                proof {
                    assert forall|i: int| 1 <= i < 7 implies is_hex_digit(#[trigger] s@[i]) by {
                        assert(is_hex_digit(s@[1]));
                        assert(is_hex_digit(s@[2]));
                        assert(is_hex_digit(s@[3]));
                        assert(is_hex_digit(s@[4]));
                        assert(is_hex_digit(s@[5]));
                        assert(is_hex_digit(s@[6]));
                    }
                }
                Ok(Color { r: h1 * 16 + h2, g: h3 * 16 + h4, b: h5 * 16 + h6 })
            },
            _ => {
                proof {
                    assert(!is_valid_hex(s@)) by {
                        if is_valid_hex(s@) {
                            assert(is_hex_digit(s@[1]));
                            assert(is_hex_digit(s@[2]));
                            assert(is_hex_digit(s@[3]));
                            assert(is_hex_digit(s@[4]));
                            assert(is_hex_digit(s@[5]));
                            assert(is_hex_digit(s@[6]));
                        }
                    }
                }
                Err(ParseColorError { input: String::from_str(s) })
            },
        }
    }
}

/// Whether a character is one the canonical encoding uses: a decimal digit
/// or an uppercase hex letter.
pub open spec fn is_canonical_hex_digit(c: char) -> bool {
    ('0' <= c && c <= '9') || ('A' <= c && c <= 'F')
}

/// Whether a character sequence is a canonical color string: well formed,
/// with every digit uppercase.
pub open spec fn is_canonical_hex(s: Seq<char>) -> bool {
    &&& s.len() == 7
    &&& s[0] == '#'
    &&& forall|i: int| 1 <= i < 7 ==> is_canonical_hex_digit(#[trigger] s[i])
}

/// Encoding one digit value and decoding the character again is the
/// identity, and the character is one the canonical encoding uses.
proof fn lemma_digit_char_round_trip(v: u8)
    requires
        v < 16,
    ensures
        is_canonical_hex_digit(hex_digit_char(v)),
        is_hex_digit(hex_digit_char(v)),
        hex_digit_value(hex_digit_char(v)) == v,
{
}

/// Canonical form: the hex encoding of every color is a canonical color
/// string, seven characters long, `#` first, all digits uppercase.
pub proof fn lemma_to_hex_canonical(c: Color)
    ensures
        is_canonical_hex(hex_encoding(c)),
        is_valid_hex(hex_encoding(c)),
        hex_encoding(c).len() == 7,
{
    lemma_digit_char_round_trip(c.r / 16);
    lemma_digit_char_round_trip(c.r % 16);
    lemma_digit_char_round_trip(c.g / 16);
    lemma_digit_char_round_trip(c.g % 16);
    lemma_digit_char_round_trip(c.b / 16);
    lemma_digit_char_round_trip(c.b % 16);
}

/// Round trip: parsing the hex encoding of any color gives that color back.
pub proof fn lemma_parse_hex_round_trip(c: Color)
    ensures
        spec_parse(hex_encoding(c)) == Some(c),
{
    lemma_to_hex_canonical(c);
    lemma_digit_char_round_trip(c.r / 16);
    lemma_digit_char_round_trip(c.r % 16);
    lemma_digit_char_round_trip(c.g / 16);
    lemma_digit_char_round_trip(c.g % 16);
    lemma_digit_char_round_trip(c.b / 16);
    lemma_digit_char_round_trip(c.b % 16);
    assert(parsed_color(hex_encoding(c)) == c);
}

/// Decoding one canonical digit character and encoding the value again is
/// the identity, and the value is below sixteen.
proof fn lemma_char_digit_round_trip(d: char)
    requires
        is_canonical_hex_digit(d),
    ensures
        is_hex_digit(d),
        hex_digit_value(d) < 16,
        hex_digit_char(hex_digit_value(d)) == d,
{
}

/// Canonical reproduction: encoding the color a canonical color string
/// denotes reproduces that string exactly.
pub proof fn lemma_to_hex_of_parsed(s: Seq<char>)
    requires
        is_canonical_hex(s),
    ensures
        is_valid_hex(s),
        hex_encoding(parsed_color(s)) == s,
{
    assert forall|i: int| 1 <= i < 7 implies is_hex_digit(#[trigger] s[i]) by {
        lemma_char_digit_round_trip(s[i]);
    }
    let c = parsed_color(s);
    lemma_char_digit_round_trip(s[1]);
    lemma_char_digit_round_trip(s[2]);
    lemma_char_digit_round_trip(s[3]);
    lemma_char_digit_round_trip(s[4]);
    lemma_char_digit_round_trip(s[5]);
    lemma_char_digit_round_trip(s[6]);
    assert(c.r / 16 == hex_digit_value(s[1]) && c.r % 16 == hex_digit_value(s[2]));
    assert(c.g / 16 == hex_digit_value(s[3]) && c.g % 16 == hex_digit_value(s[4]));
    assert(c.b / 16 == hex_digit_value(s[5]) && c.b % 16 == hex_digit_value(s[6]));
    assert(hex_encoding(c) =~= s);
}

/// Whether two characters are the same up to ASCII letter case.
pub open spec fn eq_up_to_ascii_case(a: char, b: char) -> bool {
    ||| a == b
    ||| ('a' <= a && a <= 'z' && b as int == a as int - 32)
    ||| ('A' <= a && a <= 'Z' && b as int == a as int + 32)
}

/// Changing a character's ASCII case changes neither whether it is a hex
/// digit nor, when it is one, its decoded value; `#` has no case at all.
proof fn lemma_hex_digit_ignores_case(a: char, b: char)
    requires
        eq_up_to_ascii_case(a, b),
    ensures
        is_hex_digit(a) == is_hex_digit(b),
        is_hex_digit(a) ==> hex_digit_value(a) == hex_digit_value(b),
        (a == '#') == (b == '#'),
{
}

/// Case-insensitive parse: two inputs that agree up to ASCII letter case
/// parse to the same outcome.
pub proof fn lemma_parse_case_insensitive(s: Seq<char>, t: Seq<char>)
    requires
        s.len() == t.len(),
        forall|i: int| 0 <= i < s.len() ==> eq_up_to_ascii_case(#[trigger] s[i], t[i]),
    ensures
        spec_parse(s) == spec_parse(t),
{
    assert forall|i: int| 0 <= i < s.len() implies is_hex_digit(#[trigger] s[i]) == is_hex_digit(
        t[i],
    ) && (is_hex_digit(s[i]) ==> hex_digit_value(s[i]) == hex_digit_value(t[i])) && ((s[i] == '#')
        == (t[i] == '#')) by {
        lemma_hex_digit_ignores_case(s[i], t[i]);
    }
    if s.len() == 7 {
        assert(is_valid_hex(s) == is_valid_hex(t));
        if is_valid_hex(s) {
            assert(parsed_color(s) == parsed_color(t));
        }
    }
}

impl core::str::FromStr for Color {
    type Err = ParseColorError;

    /// Parses a hexadecimal color string, as [`Color::parse_hex`] does.
    fn from_str(s: &str) -> Result<Self, Self::Err> {
        Color::parse_hex(s)
    }
}

} // verus!
