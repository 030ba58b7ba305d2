//! Packing and unpacking of message parameters and colour values.
use vstd::prelude::*;

verus! {

/// The low 16 bits of a message parameter, as a non-negative number.
pub open spec fn low_word(p: int) -> int {
    p % 65536
}

/// Bits 16 to 31 of a message parameter, as a non-negative number.
pub open spec fn high_word(p: int) -> int {
    (p / 65536) % 65536
}

/// A 16-bit word read as a signed number.
pub open spec fn signed_word(w: int) -> int {
    if w >= 32768 { w - 65536 } else { w }
}

/// The colour value with these red, green and blue parts (each taken
/// modulo 256).
pub open spec fn color_value(r: int, g: int, b: int) -> int {
    r % 256 + 256 * (g % 256) + 65536 * (b % 256)
}

/// The low word of a signed message parameter (`LPARAM`).
pub fn loword(param: isize) -> (r: i32)
    ensures
        r == low_word(param as int),
        0 <= r < 65536,
{
    assert((param & 0xFFFF) == param % 65536 && 0 <= (param & 0xFFFF) < 65536) by (bit_vector);
    (param & 0xFFFF) as i32
}

/// The high word of a signed message parameter (`LPARAM`).
pub fn hiword(param: isize) -> (r: i32)
    ensures
        r == high_word(param as int),
        0 <= r < 65536,
{
    assert(((param >> 16) & 0xFFFF) == (param / 65536) % 65536 && 0 <= ((param >> 16) & 0xFFFF) < 65536)
        by (bit_vector);
    ((param >> 16) & 0xFFFF) as i32
}

/// The low word of an unsigned message parameter (`WPARAM`).
pub fn loword_w(param: usize) -> (r: i32)
    ensures
        r == low_word(param as int),
        0 <= r < 65536,
{
    assert((param & 0xFFFF) == param % 65536 && (param & 0xFFFF) < 65536) by (bit_vector);
    (param & 0xFFFF) as i32
}

/// The high word of an unsigned message parameter (`WPARAM`).
pub fn hiword_w(param: usize) -> (r: i32)
    ensures
        r == high_word(param as int),
        0 <= r < 65536,
{
    assert(((param >> 16) & 0xFFFF) == (param / 65536) % 65536 && ((param >> 16) & 0xFFFF) < 65536)
        by (bit_vector);
    ((param >> 16) & 0xFFFF) as i32
}

/// The low word of a 32-bit value (such as the dialog base units).
pub fn loword_i32(value: i32) -> (r: i32)
    ensures
        r == low_word(value as int),
        0 <= r < 65536,
{
    assert((value & 0xFFFF) == value % 65536 && 0 <= (value & 0xFFFF) < 65536) by (bit_vector);
    value & 0xFFFF
}

/// The high word of a 32-bit value (such as the dialog base units).
pub fn hiword_i32(value: i32) -> (r: i32)
    ensures
        r == high_word(value as int),
        0 <= r < 65536,
{
    assert(((value >> 16) & 0xFFFF) == (value / 65536) % 65536 && 0 <= ((value >> 16) & 0xFFFF) < 65536)
        by (bit_vector);
    (value >> 16) & 0xFFFF
}

/// A mouse coordinate: a word of the parameter read as a signed 16-bit
/// number, so that positions left of or above the window are negative.
pub fn signed_coordinate(word: i32) -> (r: i32)
    requires
        0 <= word < 65536,
    ensures
        r == signed_word(word as int),
{
    if word >= 32768 { word - 65536 } else { word }
}

/// A colour value (`RGB`): red in the low byte, then green, then blue.
/// Only the low byte of each part counts.
pub fn rgb(r: i32, g: i32, b: i32) -> (c: u32)
    ensures
        c == color_value(r as int, g as int, b as int),
{
    let v = (r & 0xFF) | ((g << 8) & 0xFF00) | ((b << 16) & 0xFF0000);
    assert(((r & 0xFF) | ((g << 8) & 0xFF00) | ((b << 16) & 0xFF0000))
        == r % 256 + 256 * (g % 256) + 65536 * (b % 256)) by (bit_vector);
    v as u32
}

/// The red part of a colour value.
pub fn red_value(c: u32) -> (r: u8)
    ensures
        r == c % 256,
{
    assert((c & 0xFF) == c % 256) by (bit_vector);
    (c & 0xFF) as u8
}

/// The green part of a colour value.
pub fn green_value(c: u32) -> (r: u8)
    ensures
        r == (c / 256) % 256,
{
    assert(((c >> 8) & 0xFF) == (c / 256) % 256) by (bit_vector);
    ((c >> 8) & 0xFF) as u8
}

/// The blue part of a colour value.
pub fn blue_value(c: u32) -> (r: u8)
    ensures
        r == (c / 65536) % 256,
{
    assert(((c >> 16) & 0xFF) == (c / 65536) % 256) by (bit_vector);
    ((c >> 16) & 0xFF) as u8
}

/// A 32-bit value from a low and a high word (`MAKELONG`); the high word
/// keeps 15 bits.
pub fn makelong(lo: i32, hi: i32) -> (r: i32)
    ensures
        r == 65536 * (hi % 32768) + lo % 65536,
{
    assert((((hi << 16) & 0x7FFF0000) | (lo & 0xFFFF)) == 65536 * (hi % 32768) + lo % 65536) by (bit_vector);
    ((hi << 16) & 0x7FFF0000) | (lo & 0xFFFF)
}

/// A colour value gives back the parts it was made of.
pub proof fn law_color_parts(r: int, g: int, b: int)
    requires
        0 <= r < 256,
        0 <= g < 256,
        0 <= b < 256,
    ensures
        color_value(r, g, b) % 256 == r,
        (color_value(r, g, b) / 256) % 256 == g,
        (color_value(r, g, b) / 65536) % 256 == b,
        0 <= color_value(r, g, b) < 0x1000000,
{
    let c = color_value(r, g, b);
    assert(c == r + 256 * g + 65536 * b);
    assert(c % 256 == r) by (nonlinear_arith) requires c == r + 256 * g + 65536 * b, 0 <= r < 256, 0 <= g < 256, 0 <= b < 256;
    assert(c / 256 == g + 256 * b) by (nonlinear_arith) requires c == r + 256 * g + 65536 * b, 0 <= r < 256, 0 <= g < 256, 0 <= b < 256;
    assert((g + 256 * b) % 256 == g) by (nonlinear_arith) requires 0 <= g < 256, 0 <= b < 256;
    assert(c / 65536 == b) by (nonlinear_arith) requires c == r + 256 * g + 65536 * b, 0 <= r < 256, 0 <= g < 256, 0 <= b < 256;
}

/// The words of a value made with `makelong` are the words it was made of.
pub proof fn law_makelong_words(lo: int, hi: int)
    requires
        0 <= lo < 65536,
        0 <= hi < 32768,
    ensures
        low_word(65536 * (hi % 32768) + lo % 65536) == lo,
        high_word(65536 * (hi % 32768) + lo % 65536) == hi,
{
    let v = 65536 * hi + lo;
    assert(v % 65536 == lo) by (nonlinear_arith) requires v == 65536 * hi + lo, 0 <= lo < 65536, 0 <= hi;
    assert(v / 65536 == hi) by (nonlinear_arith) requires v == 65536 * hi + lo, 0 <= lo < 65536, 0 <= hi;
}

} // verus!
