//! Parsing of hexadecimal color strings into RGBA values.
//!
//! A color string may carry one optional leading `#`. After stripping it,
//! exactly six hex digits give an opaque color (alpha 255) and exactly
//! eight give an explicit alpha; anything else is rejected.

use vstd::prelude::*;
use vstd::string::StrSliceExecFns;

verus! {

/// An RGBA color, each channel in 0..=255.
#[derive(Clone, Copy, Debug, PartialEq, Eq, Structural)]
pub struct Color {
    pub r: u8,
    pub g: u8,
    pub b: u8,
    pub a: u8,
}

/// Rejection of a malformed color string.
#[derive(Clone, Copy, Debug, PartialEq, Eq, Structural)]
pub enum ColorError {
    InvalidColorFormat,
}

/// Whether a character is a hexadecimal digit (either case).
pub open spec fn is_hex_digit(c: char) -> bool {
    ('0' <= c && c <= '9') || ('a' <= c && c <= 'f') || ('A' <= c && c <= 'F')
}

/// The numeric value of a hexadecimal digit.
pub open spec fn hex_value(c: char) -> int {
    if '0' <= c && c <= '9' {
        c as int - '0' as int
    } else if 'a' <= c && c <= 'f' {
        10 + c as int - 'a' as int
    } else {
        10 + c as int - 'A' as int
    }
}

/// Whether every character of a sequence is a hexadecimal digit.
pub open spec fn all_hex_digits(s: Seq<char>) -> bool {
    forall|i: int| 0 <= i < s.len() ==> is_hex_digit(#[trigger] s[i])
}

/// The byte encoded by the two hex digits at positions `i` and `i + 1`.
pub open spec fn hex_byte(s: Seq<char>, i: int) -> int {
    16 * hex_value(s[i]) + hex_value(s[i + 1])
}

/// The string with its one optional leading `#` removed; any further `#`
/// is an ordinary, non-hex character.
pub open spec fn strip_hash(s: Seq<char>) -> Seq<char> {
    if s.len() > 0 && s[0] == '#' {
        s.skip(1)
    } else {
        s
    }
}

/// What parsing a color string yields: the channels read out of six or
/// eight hex digits, or a rejection for any other shape.
pub open spec fn parse_color_spec(s: Seq<char>) -> Result<Color, ColorError> {
    let t = strip_hash(s);
    if (t.len() == 6 || t.len() == 8) && all_hex_digits(t) {
        Ok(
            Color {
                r: hex_byte(t, 0) as u8,
                g: hex_byte(t, 2) as u8,
                b: hex_byte(t, 4) as u8,
                a: if t.len() == 8 {
                    hex_byte(t, 6) as u8
                } else {
                    255
                },
            },
        )
    } else {
        Err(ColorError::InvalidColorFormat)
    }
}

/// The value of a hex digit, or `None` for any other character.
fn hex_digit_value(c: char) -> (r: Option<u8>)
    ensures
        r is Some <==> is_hex_digit(c),
        r is Some ==> r->0 == hex_value(c) && r->0 < 16,
{
    if '0' <= c && c <= '9' {
        Some((c as u32 - '0' as u32) as u8)
    } else if 'a' <= c && c <= 'f' {
        Some((10 + c as u32 - 'a' as u32) as u8)
    } else if 'A' <= c && c <= 'F' {
        Some((10 + c as u32 - 'A' as u32) as u8)
    } else {
        None
    }
}

/// The byte encoded by the hex digits of `s` at `i` and `i + 1`, or `None`
/// if either character is not a hex digit.
fn hex_byte_at(s: &str, i: usize) -> (r: Option<u8>)
    requires
        i + 1 < s@.len(),
        s@.len() <= usize::MAX,
    ensures
        r is Some <==> is_hex_digit(s@[i as int]) && is_hex_digit(s@[i + 1]),
        r is Some ==> r->0 == hex_byte(s@, i as int),
{
    let hi = match hex_digit_value(s.get_char(i)) {
        Some(v) => v,
        None => {
            return None;
        },
    };
    let lo = match hex_digit_value(s.get_char(i + 1)) {
        Some(v) => v,
        None => {
            return None;
        },
    };
    Some(16 * hi + lo)
}

/// Parses a color string: an optional `#` prefix, then `RRGGBB` (alpha
/// defaults to 255) or `RRGGBBAA`, all hex digits. Any other length or a
/// non-hex character is rejected.
pub fn parse_color(s: &str) -> (r: Result<Color, ColorError>)
    ensures
        r == parse_color_spec(s@),
{
    let n = s.unicode_len();
    let start: usize = if n > 0 && s.get_char(0) == '#' {
        1
    } else {
        0
    };
    proof {
        assert(strip_hash(s@) =~= s@.skip(start as int));
    }
    let len = n - start;
    if len != 6 && len != 8 {
        return Err(ColorError::InvalidColorFormat);
    }
    proof {
        assert forall|i: int| 0 <= i < len implies s@.skip(start as int)[i] == s@[start + i] by {}
    }
    let r = match hex_byte_at(s, start) {
        Some(v) => v,
        None => {
            return Err(ColorError::InvalidColorFormat);
        },
    };
    let g = match hex_byte_at(s, start + 2) {
        Some(v) => v,
        None => {
            return Err(ColorError::InvalidColorFormat);
        },
    };
    let b = match hex_byte_at(s, start + 4) {
        Some(v) => v,
        None => {
            return Err(ColorError::InvalidColorFormat);
        },
    };
    let a = if len == 8 {
        match hex_byte_at(s, start + 6) {
            Some(v) => v,
            None => {
                return Err(ColorError::InvalidColorFormat);
            },
        }
    } else {
        255
    };
    proof {
        let t = strip_hash(s@);
        assert(t =~= s@.skip(start as int));
        assert(all_hex_digits(t));
        assert(hex_byte(t, 0) == hex_byte(s@, start as int));
        assert(hex_byte(t, 2) == hex_byte(s@, start + 2));
        assert(hex_byte(t, 4) == hex_byte(s@, start + 4));
        if len == 8 {
            assert(hex_byte(t, 6) == hex_byte(s@, start + 6));
        }
    }
    Ok(Color { r, g, b, a })
}

/// Law: a six-digit color is always fully opaque.
pub proof fn lemma_six_digits_opaque(s: Seq<char>)
    requires
        strip_hash(s).len() == 6,
        parse_color_spec(s) is Ok,
    ensures
        parse_color_spec(s)->Ok_0.a == 255,
{
}

/// Law: a string that does not itself begin with `#` parses the same with
/// and without the optional `#` prefix.
pub proof fn lemma_hash_prefix_irrelevant(s: Seq<char>)
    requires
        s.len() == 0 || s[0] != '#',
    ensures
        parse_color_spec(seq!['#'].add(s)) == parse_color_spec(s),
{
    let p = seq!['#'].add(s);
    assert(p[0] == '#');
    assert(p.skip(1) =~= s);
    assert(strip_hash(s) == s);
}

/// Law: any string whose stripped form has a length other than six or
/// eight, or holds a character that is not a hex digit, is rejected.
pub proof fn lemma_malformed_rejected(s: Seq<char>)
    requires
        !((strip_hash(s).len() == 6 || strip_hash(s).len() == 8) && all_hex_digits(
            strip_hash(s),
        )),
    ensures
        parse_color_spec(s) == Result::<Color, ColorError>::Err(ColorError::InvalidColorFormat),
{
}

} // verus!
