//! Arithmetic readings of the bitwise operations that the processor core uses.

use vstd::prelude::*;

verus! {

/// Testing one bit of a byte is the same as reading one binary digit of it.
pub proof fn lemma_bit_tests(v: u8)
    by (bit_vector)
    ensures
        (v & 0x01 != 0) == (v % 2 == 1),
        (v & 0x02 != 0) == ((v / 2) % 2 == 1),
        (v & 0x04 != 0) == ((v / 4) % 2 == 1),
        (v & 0x08 != 0) == ((v / 8) % 2 == 1),
        (v & 0x10 != 0) == ((v / 16) % 2 == 1),
        (v & 0x20 != 0) == ((v / 32) % 2 == 1),
        (v & 0x40 != 0) == ((v / 64) % 2 == 1),
        (v & 0x80 != 0) == ((v / 128) % 2 == 1),
        (v & 0x80 != 0) == (v >= 0x80),
{
}

/// The bitwise or of bytes that each hold at most one bit, all at different
/// positions, is their sum.
pub proof fn lemma_or_of_distinct_bits(
    b0: u8,
    b1: u8,
    b2: u8,
    b3: u8,
    b4: u8,
    b5: u8,
    b6: u8,
    b7: u8,
)
    by (bit_vector)
    requires
        b0 == 0 || b0 == 0x01,
        b1 == 0 || b1 == 0x02,
        b2 == 0 || b2 == 0x04,
        b3 == 0 || b3 == 0x08,
        b4 == 0 || b4 == 0x10,
        b5 == 0 || b5 == 0x20,
        b6 == 0 || b6 == 0x40,
        b7 == 0 || b7 == 0x80,
    ensures
        (b0 | b1 | b2 | b3 | b4 | b5 | b6 | b7) == b0 + b1 + b2 + b3 + b4 + b5 + b6 + b7,
{
}

/// Masks, shifts and the complement of a byte, as arithmetic.
pub proof fn lemma_byte_operations(v: u8)
    by (bit_vector)
    ensures
        v >> 1 == v / 2,
        v >> 4 == v / 16,
        v & 0x0F == v % 16,
        v & 0x7F == v % 128,
        !v == 255 - v,
{
}

/// A shift of a byte to the left, as arithmetic.
pub proof fn lemma_shift_left(v: u8)
    by (bit_vector)
    ensures
        v << 1 == (v * 2) % 256,
{
}

/// A shift to the left that takes a bit in at the right.
pub proof fn lemma_shift_in_left(v: u8, bit: u8)
    by (bit_vector)
    requires
        bit == 0 || bit == 1,
    ensures
        (v << 1) | bit == (v * 2 + bit) % 256,
{
}

/// A shift to the right that takes a bit in at the left.
pub proof fn lemma_shift_in_right(v: u8, bit: u8)
    by (bit_vector)
    requires
        bit == 0 || bit == 0x80,
    ensures
        (v >> 1) | bit == v / 2 + bit,
{
}

/// Two nibbles joined into a byte.
pub proof fn lemma_join_nibbles(high: u8, low: u8)
    by (bit_vector)
    requires
        high < 16,
        low < 16,
    ensures
        (high << 4) | low == high * 16 + low,
{
}

/// The low seven and the low eight bits of a word, as arithmetic.
pub proof fn lemma_word_operations(w: u16)
    by (bit_vector)
    ensures
        w & 0x7F == w % 128,
        w as u8 == w % 256,
{
}

/// On the differences of two nibbles, bit 4 is the sign, and the low four
/// bits of a number from -16 to 15 are the number modulo 16.
pub proof fn lemma_nibble_difference(n: i16)
    by (bit_vector)
    requires
        -16 <= n <= 15,
    ensures
        (n & 0x10 != 0) == (n < 0),
        0 <= (n & 0x0F) < 16,
        n >= 0 ==> (n & 0x0F) == n,
        n < 0 ==> (n & 0x0F) == n + 16,
        n >= 0 ==> (n << 4) == n * 16,
{
}

} // verus!
