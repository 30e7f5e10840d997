//! Bytes and 16-bit words: wrapping arithmetic, two's-complement offsets and
//! the little-endian split of a word into its two bytes.

use vstd::prelude::*;

verus! {

/// The byte left when only the low eight bits of `v` are kept.
pub open spec fn wrap8(v: int) -> u8 {
    (v % 0x100) as u8
}

/// The word left when only the low sixteen bits of `v` are kept.
pub open spec fn wrap16(v: int) -> u16 {
    (v % 0x1_0000) as u16
}

/// A byte read as a two's-complement number, from -128 to 127.
pub open spec fn signed(b: u8) -> int {
    if b < 0x80 {
        b as int
    } else {
        b - 0x100
    }
}

/// The word whose low byte is `lo` and whose high byte is `hi`.
pub open spec fn word(lo: u8, hi: u8) -> u16 {
    ((hi as u16) << 8) | (lo as u16)
}

/// The low byte of a word.
pub open spec fn low_byte(v: u16) -> u8 {
    (v & 0xff) as u8
}

/// The high byte of a word.
pub open spec fn high_byte(v: u16) -> u8 {
    (v >> 8) as u8
}

/// Bit 7 of a byte.
pub open spec fn bit7(v: u8) -> bool {
    v & 0x80 != 0
}

/// Bit 6 of a byte.
pub open spec fn bit6(v: u8) -> bool {
    v & 0x40 != 0
}

/// Bit 0 of a byte.
pub open spec fn bit0(v: u8) -> bool {
    v & 0x01 != 0
}

/// A word is its high byte times 256 plus its low byte.
pub proof fn lemma_word_value(lo: u8, hi: u8)
    ensures
        word(lo, hi) == hi * 0x100 + lo,
{
    assert((((hi as u16) << 8) | (lo as u16)) == (hi as u16) * 0x100 + (lo as u16))
        by (bit_vector);
}

/// Splitting a word and joining the two bytes again gives the word back, and
/// the two bytes are its remainder and its quotient by 256.
pub proof fn lemma_split_word(v: u16)
    ensures
        low_byte(v) == v % 0x100,
        high_byte(v) == v / 0x100,
        word(low_byte(v), high_byte(v)) == v,
{
    assert((v & 0xff) == v % 0x100 && (v >> 8) == v / 0x100) by (bit_vector);
    assert(((((v >> 8) as u8) as u16) << 8) | (((v & 0xff) as u8) as u16) == v) by (bit_vector);
}

/// Joining two bytes and splitting the word again gives the two bytes back.
pub proof fn lemma_join_bytes(lo: u8, hi: u8)
    ensures
        low_byte(word(lo, hi)) == lo,
        high_byte(word(lo, hi)) == hi,
{
    assert((((((hi as u16) << 8) | (lo as u16)) & 0xff) as u8) == lo) by (bit_vector);
    assert((((((hi as u16) << 8) | (lo as u16)) >> 8) as u8) == hi) by (bit_vector);
}

/// Bit 7 of a byte is set exactly when the byte is 128 or more, bit 6
/// exactly when its remainder by 128 is 64 or more, and bit 0 exactly
/// when it is odd.
pub proof fn lemma_bits(v: u8)
    ensures
        bit7(v) <==> v >= 0x80,
        bit6(v) <==> v % 0x80 >= 0x40,
        bit0(v) <==> v % 2 == 1,
{
    assert((v & 0x80 != 0 <==> v >= 0x80) && (v & 0x40 != 0 <==> v % 0x80 >= 0x40) && (v & 0x01
        != 0 <==> v % 2 == 1)) by (bit_vector);
}

/// Joins two bytes into a word, low byte first.
pub fn join(lo: u8, hi: u8) -> (w: u16)
    ensures
        w == word(lo, hi),
{
    ((hi as u16) << 8) | (lo as u16)
}

/// The low byte of a word.
pub fn low(v: u16) -> (b: u8)
    ensures
        b == low_byte(v),
{
    assert((v & 0xff) <= 0xff) by (bit_vector);
    (v & 0xff) as u8
}

/// The high byte of a word.
pub fn high(v: u16) -> (b: u8)
    ensures
        b == high_byte(v),
{
    assert((v >> 8) <= 0xff) by (bit_vector);
    (v >> 8) as u8
}

/// The sixteen-bit two's-complement form of a signed byte.
pub fn sign_extend(b: u8) -> (w: u16)
    ensures
        w == wrap16(signed(b)),
{
    if b < 0x80 {
        b as u16
    } else {
        0xff00u16 + (b as u16)
    }
}

} // verus!
