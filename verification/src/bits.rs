//! Bit-field extraction used to decode little-endian register and table words.
use vstd::prelude::*;

verus! {

/// The field of `word` that starts at bit `lo` and is selected by `mask`
/// (a mask of the field's width, applied after shifting).
pub open spec fn field32(word: u32, lo: u32, mask: u32) -> u32 {
    (word >> lo) & mask
}

/// The field of the byte `b` that starts at bit `lo` and is selected by `mask`.
pub open spec fn field8(b: u8, lo: u8, mask: u8) -> u8 {
    (b >> lo) & mask
}

/// A masked value never exceeds its mask.
pub proof fn lemma_and_le_u32(x: u32, m: u32)
    ensures
        x & m <= m,
{
    assert(x & m <= m) by (bit_vector);
}

/// A masked byte never exceeds its mask.
pub proof fn lemma_and_le_u8(x: u8, m: u8)
    ensures
        x & m <= m,
{
    assert(x & m <= m) by (bit_vector);
}

/// A low mask of one to four bits keeps a byte below it, and keeps a byte
/// that already fits unchanged.
pub proof fn lemma_low_mask_u8(x: u8, m: u8)
    requires
        m == 1 || m == 3 || m == 7 || m == 15,
    ensures
        x & m <= m,
        x <= m ==> x & m == x,
{
    assert(x & m <= m && (x <= m ==> x & m == x)) by (bit_vector)
        requires
            m == 1 || m == 3 || m == 7 || m == 15,
    ;
}

/// Extracts a field of a 32-bit word as a byte; the field must fit in 8 bits.
pub fn get_field_u8(word: u32, lo: u32, mask: u32) -> (r: u8)
    requires
        lo < 32,
        mask <= 0xff,
    ensures
        r == field32(word, lo, mask),
{
    proof {
        lemma_and_le_u32(word >> lo, mask);
    }
    ((word >> lo) & mask) as u8
}

/// Extracts one bit of a 32-bit word.
pub fn get_flag(word: u32, lo: u32) -> (r: bool)
    requires
        lo < 32,
    ensures
        r == (field32(word, lo, 1) == 1),
{
    (word >> lo) & 1 == 1
}

/// Extracts a field of a byte.
pub fn get_field8(b: u8, lo: u8, mask: u8) -> (r: u8)
    requires
        lo < 8,
    ensures
        r == field8(b, lo, mask),
        r <= mask,
{
    proof {
        lemma_and_le_u8(b >> lo, mask);
    }
    (b >> lo) & mask
}

/// Extracts one bit of a byte.
pub fn get_flag8(b: u8, lo: u8) -> (r: bool)
    requires
        lo < 8,
    ensures
        r == (field8(b, lo, 1) == 1),
{
    (b >> lo) & 1 == 1
}

/// Extracts a field of a 32-bit word as a 16-bit value; the field must fit
/// in 16 bits.
pub fn get_field_u16(word: u32, lo: u32, mask: u32) -> (r: u16)
    requires
        lo < 32,
        mask <= 0xffff,
    ensures
        r == field32(word, lo, mask),
{
    proof {
        lemma_and_le_u32(word >> lo, mask);
    }
    ((word >> lo) & mask) as u16
}

/// The field of the 16-bit value `h` that starts at bit `lo` and is selected
/// by `mask`.
pub open spec fn field16(h: u16, lo: u16, mask: u16) -> u16 {
    (h >> lo) & mask
}

/// Extracts one bit of a 16-bit value.
pub fn get_flag16(h: u16, lo: u16) -> (r: bool)
    requires
        lo < 16,
    ensures
        r == (field16(h, lo, 1) == 1),
{
    (h >> lo) & 1 == 1
}

/// The little-endian 32-bit word stored in `s` at byte offset `off`.
pub open spec fn le_u32(s: Seq<u8>, off: int) -> u32 {
    (s[off] + 0x100 * s[off + 1] + 0x1_0000 * s[off + 2] + 0x100_0000 * s[off + 3]) as u32
}

/// Reads the little-endian 32-bit word stored in `s` at byte offset `off`.
pub fn read_le_u32(s: &[u8], off: usize) -> (r: u32)
    requires
        off + 4 <= s.len(),
    ensures
        r == le_u32(s@, off as int),
{
    s[off] as u32 + 0x100 * (s[off + 1] as u32) + 0x1_0000 * (s[off + 2] as u32) + 0x100_0000 * (
    s[off + 3] as u32)
}

} // verus!
