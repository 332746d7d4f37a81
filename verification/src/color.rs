//! Textual colors: `#rrggbb` / `#rrggbbaa` hexadecimal parsing and printing.
//!
//! Decoding is case-insensitive; encoding is lowercase, and omits the alpha
//! pair when the color is fully opaque.  Decoding an encoded color restores
//! it exactly (`lemma_rgba_round_trip`).

use vstd::prelude::*;

use crate::model::{DecodeError, Rgba};
use vstd::string::StrSliceExecFns;
use vstd::string::StringExecFns;

verus! {

/// The value of one hexadecimal digit, either case.
pub open spec fn hex_val(c: char) -> Option<u8> {
    if c == '0' { Some(0u8) }
    else if c == '1' { Some(1u8) }
    else if c == '2' { Some(2u8) }
    else if c == '3' { Some(3u8) }
    else if c == '4' { Some(4u8) }
    else if c == '5' { Some(5u8) }
    else if c == '6' { Some(6u8) }
    else if c == '7' { Some(7u8) }
    else if c == '8' { Some(8u8) }
    else if c == '9' { Some(9u8) }
    else if c == 'a' || c == 'A' { Some(10u8) }
    else if c == 'b' || c == 'B' { Some(11u8) }
    else if c == 'c' || c == 'C' { Some(12u8) }
    else if c == 'd' || c == 'D' { Some(13u8) }
    else if c == 'e' || c == 'E' { Some(14u8) }
    else if c == 'f' || c == 'F' { Some(15u8) }
    else { None }
}

/// The lowercase digit of a value below sixteen.
pub open spec fn hex_char(d: u8) -> char {
    if d == 0 { '0' }
    else if d == 1 { '1' }
    else if d == 2 { '2' }
    else if d == 3 { '3' }
    else if d == 4 { '4' }
    else if d == 5 { '5' }
    else if d == 6 { '6' }
    else if d == 7 { '7' }
    else if d == 8 { '8' }
    else if d == 9 { '9' }
    else if d == 10 { 'a' }
    else if d == 11 { 'b' }
    else if d == 12 { 'c' }
    else if d == 13 { 'd' }
    else if d == 14 { 'e' }
    else { 'f' }
}

/// A byte as two lowercase digits.
pub open spec fn byte_hex(b: u8) -> Seq<char> {
    seq![hex_char(b / 16), hex_char(b % 16)]
}

/// A byte from the two digits at `i`.
pub open spec fn hex_pair(s: Seq<char>, i: int) -> Option<u8> {
    match (hex_val(s[i]), hex_val(s[i + 1])) {
        (Some(h), Some(l)) => Some(((h as int) * 16 + l) as u8),
        _ => None,
    }
}

/// The lowercase text of a color: `#rrggbb`, or `#rrggbbaa` when not fully
/// opaque.
pub open spec fn rgba_hex(c: Rgba) -> Seq<char> {
    if c.a == 255 {
        seq!['#'] + byte_hex(c.r) + byte_hex(c.g) + byte_hex(c.b)
    } else {
        seq!['#'] + byte_hex(c.r) + byte_hex(c.g) + byte_hex(c.b) + byte_hex(c.a)
    }
}

/// A color from `#rrggbb` or `#rrggbbaa` text, case-insensitive; a six-digit
/// form is fully opaque.
pub open spec fn rgba_from_hex(s: Seq<char>) -> Option<Rgba> {
    if s.len() != 7 && s.len() != 9 {
        None
    } else if s[0] != '#' {
        None
    } else {
        match (hex_pair(s, 1), hex_pair(s, 3), hex_pair(s, 5)) {
            (Some(r), Some(g), Some(b)) => if s.len() == 7 {
                Some(Rgba { r, g, b, a: 255 })
            } else {
                match hex_pair(s, 7) {
                    Some(a) => Some(Rgba { r, g, b, a }),
                    None => None,
                }
            },
            _ => None,
        }
    }
}

fn hex_val_exec(c: char) -> (r: Option<u8>)
    ensures
        r == hex_val(c),
{
    if c == '0' { Some(0u8) }
    else if c == '1' { Some(1u8) }
    else if c == '2' { Some(2u8) }
    else if c == '3' { Some(3u8) }
    else if c == '4' { Some(4u8) }
    else if c == '5' { Some(5u8) }
    else if c == '6' { Some(6u8) }
    else if c == '7' { Some(7u8) }
    else if c == '8' { Some(8u8) }
    else if c == '9' { Some(9u8) }
    else if c == 'a' || c == 'A' { Some(10u8) }
    else if c == 'b' || c == 'B' { Some(11u8) }
    else if c == 'c' || c == 'C' { Some(12u8) }
    else if c == 'd' || c == 'D' { Some(13u8) }
    else if c == 'e' || c == 'E' { Some(14u8) }
    else if c == 'f' || c == 'F' { Some(15u8) }
    else { None }
}

fn hex_pair_exec(s: &str, i: usize) -> (r: Option<u8>)
    requires
        i + 2 <= s@.len(),
        s@.len() <= usize::MAX,
    ensures
        r == hex_pair(s@, i as int),
{
    let h = hex_val_exec(s.get_char(i));
    let l = hex_val_exec(s.get_char(i + 1));
    match (h, l) {
        (Some(h), Some(l)) => Some(h * 16 + l),
        _ => None,
    }
}

/// One lowercase digit as text.
fn hex_digit_string(d: u8) -> (r: String)
    requires
        d < 16,
    ensures
        r@ == seq![hex_char(d)],
{
    proof {
        reveal_strlit("0");
        reveal_strlit("1");
        reveal_strlit("2");
        reveal_strlit("3");
        reveal_strlit("4");
        reveal_strlit("5");
        reveal_strlit("6");
        reveal_strlit("7");
        reveal_strlit("8");
        reveal_strlit("9");
        reveal_strlit("a");
        reveal_strlit("b");
        reveal_strlit("c");
        reveal_strlit("d");
        reveal_strlit("e");
        reveal_strlit("f");
    }
    let r: String = if d == 0 { String::from_str("0") }
    else if d == 1 { String::from_str("1") }
    else if d == 2 { String::from_str("2") }
    else if d == 3 { String::from_str("3") }
    else if d == 4 { String::from_str("4") }
    else if d == 5 { String::from_str("5") }
    else if d == 6 { String::from_str("6") }
    else if d == 7 { String::from_str("7") }
    else if d == 8 { String::from_str("8") }
    else if d == 9 { String::from_str("9") }
    else if d == 10 { String::from_str("a") }
    else if d == 11 { String::from_str("b") }
    else if d == 12 { String::from_str("c") }
    else if d == 13 { String::from_str("d") }
    else if d == 14 { String::from_str("e") }
    else { String::from_str("f") };
    proof {
        assert(r@ =~= seq![hex_char(d)]);
    }
    r
}

/// Appends a byte as two lowercase digits.
fn push_byte_hex(out: &mut String, b: u8)
    ensures
        final(out)@ == old(out)@ + byte_hex(b),
{
    let hi = hex_digit_string(b / 16);
    let lo = hex_digit_string(b % 16);
    out.append(hi.as_str());
    out.append(lo.as_str());
    proof {
        assert(final(out)@ =~= old(out)@ + byte_hex(b));
    }
}

impl Rgba {
    /// Parses `#rrggbb` or `#rrggbbaa` text, case-insensitive; anything else
    /// is a schema violation.
    pub fn from_str(s: &str) -> (r: Result<Rgba, DecodeError>)
        ensures
            r == match rgba_from_hex(s@) {
                Some(c) => Ok::<Rgba, DecodeError>(c),
                None => Err::<Rgba, DecodeError>(DecodeError::Schema),
            },
    {
        let n = s.unicode_len();
        if n != 7 && n != 9 {
            return Err(DecodeError::Schema);
        }
        if s.get_char(0) != '#' {
            return Err(DecodeError::Schema);
        }
        let pr = hex_pair_exec(s, 1);
        let pg = hex_pair_exec(s, 3);
        let pb = hex_pair_exec(s, 5);
        match (pr, pg, pb) {
            (Some(r), Some(g), Some(b)) => {
                if n == 7 {
                    Ok(Rgba { r, g, b, a: 255 })
                } else {
                    match hex_pair_exec(s, 7) {
                        Some(a) => Ok(Rgba { r, g, b, a }),
                        None => Err(DecodeError::Schema),
                    }
                }
            },
            _ => Err(DecodeError::Schema),
        }
    }

    /// Prints the color as lowercase hexadecimal text.
    pub fn to_string(&self) -> (r: String)
        ensures
            r@ == rgba_hex(*self),
    {
        proof {
            reveal_strlit("#");
        }
        let mut out = String::from_str("#");
        proof {
            assert(out@ =~= seq!['#']);
        }
        push_byte_hex(&mut out, self.r);
        push_byte_hex(&mut out, self.g);
        push_byte_hex(&mut out, self.b);
        if self.a != 255 {
            push_byte_hex(&mut out, self.a);
            proof {
                assert(out@ =~= rgba_hex(*self));
            }
        } else {
            proof {
                assert(out@ =~= rgba_hex(*self));
            }
        }
        out
    }
}

/// A digit's value is the digit: reading back one lowercase digit.
proof fn lemma_hex_digit(d: u8)
    requires
        d < 16,
    ensures
        hex_val(hex_char(d)) == Some(d),
{
}

/// Reading back the two digits of a byte restores the byte.
proof fn lemma_byte_hex(s: Seq<char>, i: int, b: u8)
    requires
        0 <= i,
        i + 2 <= s.len(),
        s[i] == hex_char(b / 16),
        s[i + 1] == hex_char(b % 16),
    ensures
        hex_pair(s, i) == Some(b),
{
    lemma_hex_digit(b / 16);
    lemma_hex_digit(b % 16);
    assert(((b / 16) as int) * 16 + (b % 16) as int == b as int) by (nonlinear_arith);
}

/// Parsing a printed color restores it exactly.
pub proof fn lemma_rgba_round_trip(c: Rgba)
    ensures
        rgba_from_hex(rgba_hex(c)) == Some(c),
{
    let s = rgba_hex(c);
    if c.a == 255 {
        assert(s.len() == 7);
        assert(s[0] == '#');
        assert(s[1] == hex_char(c.r / 16) && s[2] == hex_char(c.r % 16));
        assert(s[3] == hex_char(c.g / 16) && s[4] == hex_char(c.g % 16));
        assert(s[5] == hex_char(c.b / 16) && s[6] == hex_char(c.b % 16));
        lemma_byte_hex(s, 1, c.r);
        lemma_byte_hex(s, 3, c.g);
        lemma_byte_hex(s, 5, c.b);
    } else {
        assert(s.len() == 9);
        assert(s[0] == '#');
        assert(s[1] == hex_char(c.r / 16) && s[2] == hex_char(c.r % 16));
        assert(s[3] == hex_char(c.g / 16) && s[4] == hex_char(c.g % 16));
        assert(s[5] == hex_char(c.b / 16) && s[6] == hex_char(c.b % 16));
        assert(s[7] == hex_char(c.a / 16) && s[8] == hex_char(c.a % 16));
        lemma_byte_hex(s, 1, c.r);
        lemma_byte_hex(s, 3, c.g);
        lemma_byte_hex(s, 5, c.b);
        lemma_byte_hex(s, 7, c.a);
    }
}

} // verus!
