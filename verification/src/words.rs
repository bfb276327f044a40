//! Packing and unpacking of the 16-bit halves and colour bytes that Win32
//! messages carry in their integer parameters.

use vstd::prelude::*;

verus! {

/// The low 16 bits of a 32-bit message word.
pub open spec fn low_word(value: u32) -> u32 {
    value % 0x10000
}

/// The high 16 bits of a 32-bit message word.
pub open spec fn high_word(value: u32) -> u32 {
    (value / 0x10000) % 0x10000
}

/// A `COLORREF` built from red, green and blue channels: red in the lowest byte.
pub open spec fn colour_value(r: u8, g: u8, b: u8) -> u32 {
    (r + g * 0x100 + b * 0x10000) as u32
}

pub fn loword(value: u32) -> (res: u32)
    ensures
        res == low_word(value),
{
    let res = value & 0xffff;
    assert(value & 0xffff == value % 0x10000) by (bit_vector);
    res
}

pub fn hiword(value: u32) -> (res: u32)
    ensures
        res == high_word(value),
{
    let res = (value >> 16) & 0xffff;
    assert((value >> 16) & 0xffff == (value / 0x10000) % 0x10000) by (bit_vector);
    res
}

pub fn rgb(r: u8, g: u8, b: u8) -> (res: u32)
    ensures
        res == colour_value(r, g, b),
{
    let res = (r as u32) | ((g as u32) << 8) | ((b as u32) << 16);
    assert((r as u32) | ((g as u32) << 8) | ((b as u32) << 16) == (r + g * 0x100 + b * 0x10000) as u32) by (bit_vector);
    res
}

/// A word is recovered from its two halves.
pub proof fn lemma_words_recompose(value: u32)
    ensures
        high_word(value) * 0x10000 + low_word(value) == value,
{
}

} // verus!
