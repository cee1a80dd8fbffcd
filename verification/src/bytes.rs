//! Little-endian word extraction from byte buffers.
//!
//! Every record field is packed least-significant-byte first, starting at a
//! fixed byte offset. The spec functions here are the mathematical model of
//! that packing; the executable readers are proved against them, and the
//! `byte*_of` functions give the inverse direction (a word split back into
//! its bytes) used by the round-trip lemmas.

use vstd::prelude::*;

verus! {

/// The value of the 16-bit little-endian word at byte offset `i` of `s`.
pub open spec fn le16(s: Seq<u8>, i: int) -> int
    recommends
        0 <= i,
        i + 2 <= s.len(),
{
    s[i] + 256 * s[i + 1]
}

/// The value of the 32-bit little-endian word at byte offset `i` of `s`.
pub open spec fn le32(s: Seq<u8>, i: int) -> int
    recommends
        0 <= i,
        i + 4 <= s.len(),
{
    s[i] + 256 * s[i + 1] + 65536 * s[i + 2] + 16777216 * s[i + 3]
}

/// Least-significant byte of a 16- or 32-bit value.
pub open spec fn byte0_of(x: int) -> u8 {
    (x % 256) as u8
}

/// Second byte (bits 8..16) of a 16- or 32-bit value.
pub open spec fn byte1_of(x: int) -> u8 {
    ((x / 256) % 256) as u8
}

/// Third byte (bits 16..24) of a 32-bit value.
pub open spec fn byte2_of(x: int) -> u8 {
    ((x / 65536) % 256) as u8
}

/// Most-significant byte (bits 24..32) of a 32-bit value.
pub open spec fn byte3_of(x: int) -> u8 {
    ((x / 16777216) % 256) as u8
}

/// Splitting a 16-bit value into bytes and reading them back as a
/// little-endian word recovers the value.
pub proof fn lemma_le16_reassemble(x: int, s: Seq<u8>, i: int)
    requires
        0 <= x < 65536,
        0 <= i,
        i + 2 <= s.len(),
        s[i] == byte0_of(x),
        s[i + 1] == byte1_of(x),
    ensures
        le16(s, i) == x,
{
    assert(x / 256 < 256);
    assert((x / 256) % 256 == x / 256);
    assert(x % 256 + 256 * (x / 256) == x) by {
        vstd::arithmetic::div_mod::lemma_fundamental_div_mod(x, 256);
    }
}

/// Splitting a 32-bit value into bytes and reading them back as a
/// little-endian word recovers the value.
pub proof fn lemma_le32_reassemble(x: int, s: Seq<u8>, i: int)
    requires
        0 <= x < 0x1_0000_0000,
        0 <= i,
        i + 4 <= s.len(),
        s[i] == byte0_of(x),
        s[i + 1] == byte1_of(x),
        s[i + 2] == byte2_of(x),
        s[i + 3] == byte3_of(x),
    ensures
        le32(s, i) == x,
{
    vstd::arithmetic::div_mod::lemma_fundamental_div_mod(x, 256);
    vstd::arithmetic::div_mod::lemma_fundamental_div_mod(x / 256, 256);
    vstd::arithmetic::div_mod::lemma_fundamental_div_mod(x / 65536, 256);
    assert(x / 256 / 256 == x / 65536) by {
        vstd::arithmetic::div_mod::lemma_div_denominator(x, 256, 256);
    }
    assert(x / 65536 / 256 == x / 16777216) by {
        vstd::arithmetic::div_mod::lemma_div_denominator(x, 65536, 256);
    }
    assert(x / 16777216 < 256);
    assert((x / 16777216) % 256 == x / 16777216);
}

/// Reads the byte at offset `i`.
pub fn read_u8(b: &Vec<u8>, i: usize) -> (r: u8)
    requires
        i < b@.len(),
    ensures
        r == b@[i as int],
{
    b[i]
}

/// Reads the 16-bit little-endian word at byte offset `i`.
pub fn read_u16_le(b: &Vec<u8>, i: usize) -> (r: u16)
    requires
        i + 2 <= b@.len(),
    ensures
        r as int == le16(b@, i as int),
{
    let n: usize = b.len();
    assert(i + 1 < n);
    b[i] as u16 + 256 * (b[i + 1] as u16)
}

/// Reads the 32-bit little-endian word at byte offset `i`.
pub fn read_u32_le(b: &Vec<u8>, i: usize) -> (r: u32)
    requires
        i + 4 <= b@.len(),
    ensures
        r as int == le32(b@, i as int),
{
    let n: usize = b.len();
    assert(i + 3 < n);
    b[i] as u32 + 256 * (b[i + 1] as u32) + 65536 * (b[i + 2] as u32) + 16777216 * (b[i + 3] as u32)
}

} // verus!
