//! Background colors for word tokens: light pastel colors sampled per
//! render, and their 6-hex-digit color codes.

use vstd::prelude::*;
use rand::RngExt;
use crate::escape::push_char;

verus! {

/// One color, a channel value per red, green and blue.
#[derive(Clone, Copy, PartialEq, Eq, Structural, Debug)]
pub struct Rgb {
    pub red: u8,
    pub green: u8,
    pub blue: u8,
}

/// A pastel color: every channel within [180, 255]. The upper bound is the
/// channel type's own.
pub open spec fn is_pastel(c: Rgb) -> bool {
    180 <= c.red && 180 <= c.green && 180 <= c.blue
}

/// Relies on rand's Rng::random_range over `180..=255`: the sample lies
/// within that nonempty range, whatever the generator returned.
#[verifier::external_body]
fn random_channel() -> (v: u8)
    ensures
        180 <= v,
{
    rand::rng().random_range(180..=255)
}

/// Sample a fresh pastel color, each channel drawn independently.
pub fn random_pastel() -> (c: Rgb)
    ensures
        is_pastel(c),
{
    Rgb { red: random_channel(), green: random_channel(), blue: random_channel() }
}

/// The uppercase hexadecimal digit of a value below 16.
pub open spec fn hex_digit(v: u8) -> char {
    if v == 0 {
        '0'
    } else if v == 1 {
        '1'
    } else if v == 2 {
        '2'
    } else if v == 3 {
        '3'
    } else if v == 4 {
        '4'
    } else if v == 5 {
        '5'
    } else if v == 6 {
        '6'
    } else if v == 7 {
        '7'
    } else if v == 8 {
        '8'
    } else if v == 9 {
        '9'
    } else if v == 10 {
        'A'
    } else if v == 11 {
        'B'
    } else if v == 12 {
        'C'
    } else if v == 13 {
        'D'
    } else if v == 14 {
        'E'
    } else {
        'F'
    }
}

/// The two uppercase hexadecimal digits of a byte.
pub open spec fn hex_byte(v: u8) -> Seq<char> {
    seq![hex_digit(v / 16), hex_digit(v % 16)]
}

/// The color code as it stands in the report: `#` followed by the six
/// uppercase hexadecimal digits of the three channels.
pub open spec fn color_code(c: Rgb) -> Seq<char> {
    seq!['#'] + hex_byte(c.red) + hex_byte(c.green) + hex_byte(c.blue)
}

/// A color code is always exactly seven characters long.
pub proof fn lemma_color_code_len(c: Rgb)
    ensures
        color_code(c).len() == 7,
{
}

fn hex_digit_char(v: u8) -> (c: char)
    requires
        v < 16,
    ensures
        c == hex_digit(v),
{
    if v == 0 {
        '0'
    } else if v == 1 {
        '1'
    } else if v == 2 {
        '2'
    } else if v == 3 {
        '3'
    } else if v == 4 {
        '4'
    } else if v == 5 {
        '5'
    } else if v == 6 {
        '6'
    } else if v == 7 {
        '7'
    } else if v == 8 {
        '8'
    } else if v == 9 {
        '9'
    } else if v == 10 {
        'A'
    } else if v == 11 {
        'B'
    } else if v == 12 {
        'C'
    } else if v == 13 {
        'D'
    } else if v == 14 {
        'E'
    } else {
        'F'
    }
}

/// Format a color as its report color code.
pub fn color_code_string(c: Rgb) -> (r: String)
    ensures
        r@ == color_code(c),
{
    let mut out = String::new();
    push_char(&mut out, '#');
    push_char(&mut out, hex_digit_char(c.red / 16));
    push_char(&mut out, hex_digit_char(c.red % 16));
    push_char(&mut out, hex_digit_char(c.green / 16));
    push_char(&mut out, hex_digit_char(c.green % 16));
    push_char(&mut out, hex_digit_char(c.blue / 16));
    push_char(&mut out, hex_digit_char(c.blue % 16));
    proof {
        assert(out@ =~= color_code(c));
    }
    out
}

} // verus!
