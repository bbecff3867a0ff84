//! The three colors of the tri-color LED, their names and their one-byte codes.

use vstd::prelude::*;
use vstd::string::StrSliceExecFns;

verus! {

/// One of the three channels of the tri-color LED.
#[derive(Debug, Clone, Copy, PartialEq, Eq, Structural)]
pub enum Color {
    Red,
    Green,
    Blue,
}

/// Error returned when a string names no color.
#[derive(Debug, Clone, Copy, PartialEq, Eq, Structural)]
pub struct NoSuchColor;

/// Code of red in the one-byte color protocol.
pub const COLOR_RED: u8 = 0;

/// Code of green in the one-byte color protocol.
pub const COLOR_GREEN: u8 = 1;

/// Code of blue in the one-byte color protocol.
pub const COLOR_BLUE: u8 = 2;

/// The lower-case English name of a color, as shown to users and used in URLs.
pub open spec fn color_name(c: Color) -> Seq<char> {
    match c {
        Color::Red => seq!['r', 'e', 'd'],
        Color::Green => seq!['g', 'r', 'e', 'e', 'n'],
        Color::Blue => seq!['b', 'l', 'u', 'e'],
    }
}

/// The color that a string names, if any: exactly "red", "green" or "blue".
pub open spec fn parse_color(s: Seq<char>) -> Option<Color> {
    if s == color_name(Color::Red) {
        Some(Color::Red)
    } else if s == color_name(Color::Green) {
        Some(Color::Green)
    } else if s == color_name(Color::Blue) {
        Some(Color::Blue)
    } else {
        None
    }
}

/// The byte that encodes a color: red 0, green 1, blue 2.
pub open spec fn color_code(c: Color) -> u8 {
    match c {
        Color::Red => COLOR_RED,
        Color::Green => COLOR_GREEN,
        Color::Blue => COLOR_BLUE,
    }
}

/// The color that a byte encodes, if any.
pub open spec fn decode_color(code: u8) -> Option<Color> {
    if code == COLOR_RED {
        Some(Color::Red)
    } else if code == COLOR_GREEN {
        Some(Color::Green)
    } else if code == COLOR_BLUE {
        Some(Color::Blue)
    } else {
        None
    }
}

impl Color {
    /// The name of the color ("red", "green" or "blue").
    pub fn name(&self) -> (r: &'static str)
        ensures
            r@ == color_name(*self),
    {
        match self {
            Color::Red => {
                let s = "red";
                proof {
                    reveal_strlit("red");
                }
                s
            },
            Color::Green => {
                let s = "green";
                proof {
                    reveal_strlit("green");
                }
                s
            },
            Color::Blue => {
                let s = "blue";
                proof {
                    reveal_strlit("blue");
                }
                s
            },
        }
    }

    /// Parses a color from its name; anything but "red", "green" or "blue" is refused.
    pub fn from_str(s: &str) -> (r: Result<Color, NoSuchColor>)
        ensures
            r == (match parse_color(s@) {
                Some(c) => Ok(c),
                None => Err(NoSuchColor),
            }),
    {
        let n: usize = s.unicode_len();
        if n == 3 {
            if s.get_char(0) == 'r' && s.get_char(1) == 'e' && s.get_char(2) == 'd' {
                assert(s@ =~= color_name(Color::Red));
                return Ok(Color::Red);
            }
        } else if n == 5 {
            if s.get_char(0) == 'g' && s.get_char(1) == 'r' && s.get_char(2) == 'e' && s.get_char(
                3,
            ) == 'e' && s.get_char(4) == 'n' {
                assert(s@ =~= color_name(Color::Green));
                return Ok(Color::Green);
            }
        } else if n == 4 {
            if s.get_char(0) == 'b' && s.get_char(1) == 'l' && s.get_char(2) == 'u' && s.get_char(
                3,
            ) == 'e' {
                assert(s@ =~= color_name(Color::Blue));
                return Ok(Color::Blue);
            }
        }
        Err(NoSuchColor)
    }

    /// The color that a byte of the one-byte color protocol encodes, if any.
    pub fn from_code(code: u8) -> (r: Option<Color>)
        ensures
            r == decode_color(code),
    {
        if code == COLOR_RED {
            Some(Color::Red)
        } else if code == COLOR_GREEN {
            Some(Color::Green)
        } else if code == COLOR_BLUE {
            Some(Color::Blue)
        } else {
            None
        }
    }
}

impl core::str::FromStr for Color {
    type Err = NoSuchColor;

    /// Parses a color from its name, as `Color::from_str`.
    fn from_str(s: &str) -> (r: Result<Color, NoSuchColor>)
        ensures
            r == (match parse_color(s@) {
                Some(c) => Ok(c),
                None => Err(NoSuchColor),
            }),
    {
        Color::from_str(s)
    }
}

impl From<Color> for u8 {
    fn from(color: Color) -> (r: u8) {
        match color {
            Color::Red => COLOR_RED,
            Color::Green => COLOR_GREEN,
            Color::Blue => COLOR_BLUE,
        }
    }
}

impl vstd::std_specs::convert::FromSpecImpl<Color> for u8 {
    open spec fn obeys_from_spec() -> bool {
        true
    }

    open spec fn from_spec(v: Color) -> u8 {
        color_code(v)
    }
}

/// Decoding a color's code gives the color back.
pub proof fn lemma_code_round_trip(c: Color)
    ensures
        decode_color(color_code(c)) == Some(c),
{
}

/// A byte decodes to a color exactly when it is below 3, and then it is that color's code.
pub proof fn lemma_decode_only_codes(code: u8)
    ensures
        decode_color(code) is Some <==> code < 3,
        decode_color(code) matches Some(c) ==> color_code(c) == code,
{
}

/// Parsing a color's name gives the color back.
pub proof fn lemma_name_round_trip(c: Color)
    ensures
        parse_color(color_name(c)) == Some(c),
{
    assert(color_name(Color::Red) != color_name(Color::Green));
    assert(color_name(Color::Red) != color_name(Color::Blue));
    assert(color_name(Color::Green)[0] != color_name(Color::Blue)[0]);
}

/// A string names a color exactly when it is that color's name.
pub proof fn lemma_parse_only_names(s: Seq<char>)
    ensures
        parse_color(s) matches Some(c) ==> color_name(c) == s,
{
}

} // verus!
