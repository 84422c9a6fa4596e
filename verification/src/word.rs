//! Bytes and 16-bit words: how addresses are put together and taken apart.

use vstd::prelude::*;

verus! {

/// The word with the given low and high byte.
pub open spec fn word(low: u8, high: u8) -> u16 {
    (high * 0x100 + low) as u16
}

/// The low byte of a word.
pub open spec fn low_byte_of(value: u16) -> u8 {
    (value % 0x100) as u8
}

/// The high byte of a word.
pub open spec fn high_byte_of(value: u16) -> u8 {
    (value / 0x100) as u8
}

/// A byte as an address in the zero page.
pub open spec fn zero_page(value: u8) -> u16 {
    value as u16
}

/// A byte read as a two's-complement number.
pub open spec fn signed(value: u8) -> int {
    if value >= 0x80 {
        value - 0x100
    } else {
        value as int
    }
}

/// The address that a branch leads to: the offset is read as a signed number
/// and added to the base, modulo 65536.
pub open spec fn branch_target(base: u16, offset: u8) -> u16 {
    ((base + signed(offset)) % 0x1_0000) as u16
}

/// A word taken apart and put together again is the same word.
pub proof fn lemma_word_of_bytes(value: u16)
    ensures
        word(low_byte_of(value), high_byte_of(value)) == value,
{
}

/// Puts a word together from its low and high byte.
pub fn make_word(low: u8, high: u8) -> (value: u16)
    ensures
        value == word(low, high),
{
    (high as u16) * 0x100 + (low as u16)
}

/// The low byte of a word.
pub fn low_byte(value: u16) -> (low: u8)
    ensures
        low == low_byte_of(value),
{
    (value % 0x100) as u8
}

/// The high byte of a word.
pub fn high_byte(value: u16) -> (high: u8)
    ensures
        high == high_byte_of(value),
{
    (value / 0x100) as u8
}

/// Widens a byte to an address in the zero page.
pub fn zero_page_address(value: u8) -> (addr: u16)
    ensures
        addr == zero_page(value),
{
    value as u16
}

/// Adds a signed branch offset to an address, modulo 65536.
pub fn add_offset(base: u16, offset: u8) -> (addr: u16)
    ensures
        addr == branch_target(base, offset),
{
    if offset >= 0x80 {
        base.wrapping_sub((0x100 - offset as u16))
    } else {
        base.wrapping_add(offset as u16)
    }
}

} // verus!
