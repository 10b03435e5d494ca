//! The font: one 25-bit bitmap for each digit and capital letter.
use vstd::prelude::*;

verus! {

/// The byte with ASCII lower-case letters mapped to upper case.
pub open spec fn upper(c: u8) -> u8 {
    if 97 <= c && c <= 122 {
        (c - 32) as u8
    } else {
        c
    }
}

/// Whether a byte, once upper-cased, is a digit or a capital letter.
pub open spec fn has_glyph(c: u8) -> bool {
    let u = upper(c);
    (48 <= u && u <= 57) || (65 <= u && u <= 90)
}

/// The font table, keyed by the upper-case character.
///
/// Bit 24 of a bitmap is the upper-left LED, bit 0 the lower-right one,
/// row by row.
pub open spec fn font(c: u8) -> Option<u32> {
    match c {
        // the digits '0' to '9'
        48 => Some(0b11111_10011_10101_11001_11111u32),
        49 => Some(0b00100_01100_00100_00100_01110u32),
        50 => Some(0b11110_00001_01110_10000_11111u32),
        51 => Some(0b11110_00001_11110_00001_11110u32),
        52 => Some(0b10000_10000_10100_11111_00100u32),
        53 => Some(0b11111_10000_11110_00001_11110u32),
        54 => Some(0b11111_10000_11111_10001_11111u32),
        55 => Some(0b11111_00001_00010_00100_00100u32),
        56 => Some(0b11111_10001_11111_10001_11111u32),
        57 => Some(0b11111_10001_11111_00001_11111u32),
        // the letters 'A' to 'Z'
        65 => Some(0b01110_10001_11111_10001_10001u32),
        66 => Some(0b11111_10001_11110_10001_11111u32),
        67 => Some(0b11111_10000_10000_10000_11111u32),
        68 => Some(0b11110_10001_10001_10001_11110u32),
        69 => Some(0b11111_10000_11110_10000_11111u32),
        70 => Some(0b11111_10000_11110_10000_10000u32),
        71 => Some(0b11111_10000_10111_10001_11111u32),
        72 => Some(0b10001_10001_11111_10001_10001u32),
        73 => Some(0b11111_00100_00100_00100_11111u32),
        74 => Some(0b00011_00001_00001_10001_11111u32),
        75 => Some(0b10001_10010_11100_10010_10001u32),
        76 => Some(0b10000_10000_10000_10000_11111u32),
        77 => Some(0b10001_11011_10101_10001_10001u32),
        78 => Some(0b10001_11001_10101_10011_10001u32),
        79 => Some(0b01110_10001_10001_10001_01110u32),
        80 => Some(0b11110_10001_11110_10000_10000u32),
        81 => Some(0b01110_10001_10001_01110_00011u32),
        82 => Some(0b11110_10001_11110_10001_10001u32),
        83 => Some(0b11111_10000_11111_00001_11111u32),
        84 => Some(0b11111_00100_00100_00100_00100u32),
        85 => Some(0b10001_10001_10001_10001_11111u32),
        86 => Some(0b10001_10001_01010_01010_00100u32),
        87 => Some(0b10001_10001_10101_10101_01010u32),
        88 => Some(0b10001_01010_00100_01010_10001u32),
        89 => Some(0b10001_10001_01010_00100_00100u32),
        90 => Some(0b11111_00010_00100_01000_11111u32),
        _ => None,
    }
}

/// The glyph shown for a byte of text: the font entry of its upper-case form.
pub open spec fn glyph_of(c: u8) -> Option<u32> {
    font(upper(c))
}

/// Maps an ASCII lower-case letter to upper case and leaves any other byte as it is.
pub fn to_upper(c: u8) -> (r: u8)
    ensures
        r == upper(c),
{
    if 97 <= c && c <= 122 {
        c - 32
    } else {
        c
    }
}

/// Looks up the glyph of a byte of text, ignoring the case of letters.
///
/// Only digits and letters have a glyph.
pub fn lookup(c: u8) -> (r: Option<u32>)
    ensures
        r == glyph_of(c),
        r.is_some() <==> has_glyph(c),
{
    let u = to_upper(c);
    match u {
        // the digits '0' to '9'
        48 => Some(0b11111_10011_10101_11001_11111),
        49 => Some(0b00100_01100_00100_00100_01110),
        50 => Some(0b11110_00001_01110_10000_11111),
        51 => Some(0b11110_00001_11110_00001_11110),
        52 => Some(0b10000_10000_10100_11111_00100),
        53 => Some(0b11111_10000_11110_00001_11110),
        54 => Some(0b11111_10000_11111_10001_11111),
        55 => Some(0b11111_00001_00010_00100_00100),
        56 => Some(0b11111_10001_11111_10001_11111),
        57 => Some(0b11111_10001_11111_00001_11111),
        // the letters 'A' to 'Z'
        65 => Some(0b01110_10001_11111_10001_10001),
        66 => Some(0b11111_10001_11110_10001_11111),
        67 => Some(0b11111_10000_10000_10000_11111),
        68 => Some(0b11110_10001_10001_10001_11110),
        69 => Some(0b11111_10000_11110_10000_11111),
        70 => Some(0b11111_10000_11110_10000_10000),
        71 => Some(0b11111_10000_10111_10001_11111),
        72 => Some(0b10001_10001_11111_10001_10001),
        73 => Some(0b11111_00100_00100_00100_11111),
        74 => Some(0b00011_00001_00001_10001_11111),
        75 => Some(0b10001_10010_11100_10010_10001),
        76 => Some(0b10000_10000_10000_10000_11111),
        77 => Some(0b10001_11011_10101_10001_10001),
        78 => Some(0b10001_11001_10101_10011_10001),
        79 => Some(0b01110_10001_10001_10001_01110),
        80 => Some(0b11110_10001_11110_10000_10000),
        81 => Some(0b01110_10001_10001_01110_00011),
        82 => Some(0b11110_10001_11110_10001_10001),
        83 => Some(0b11111_10000_11111_00001_11111),
        84 => Some(0b11111_00100_00100_00100_00100),
        85 => Some(0b10001_10001_10001_10001_11111),
        86 => Some(0b10001_10001_01010_01010_00100),
        87 => Some(0b10001_10001_10101_10101_01010),
        88 => Some(0b10001_01010_00100_01010_10001),
        89 => Some(0b10001_10001_01010_00100_00100),
        90 => Some(0b11111_00010_00100_01000_11111),
        _ => None,
    }
}

} // verus!
