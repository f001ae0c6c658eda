//! Little-endian words as the wire carries them.

use vstd::prelude::*;

verus! {

/// The little-endian word that starts at `data[at]`.
pub open spec fn le_u32_at(data: Seq<u8>, at: int) -> u32 {
    (data[at] as u32) | (data[at + 1] as u32) << 8 | (data[at + 2] as u32) << 16 | (data[at
        + 3] as u32) << 24
}

/// The little-endian half word that starts at `data[at]`.
pub open spec fn le_u16_at(data: Seq<u8>, at: int) -> u16 {
    (data[at] as u16) | (data[at + 1] as u16) << 8
}

/// The four bytes of `value`, least significant first.
pub open spec fn le_bytes_u32(value: u32) -> Seq<u8> {
    seq![
        (value & 0xFF) as u8,
        ((value >> 8) & 0xFF) as u8,
        ((value >> 16) & 0xFF) as u8,
        ((value >> 24) & 0xFF) as u8,
    ]
}

/// The two bytes of `value`, least significant first.
pub open spec fn le_bytes_u16(value: u16) -> Seq<u8> {
    seq![(value & 0xFF) as u8, ((value >> 8) & 0xFF) as u8]
}

/// Reading back the bytes of a word gives the word.
pub proof fn lemma_le_u32_round_trip(value: u32)
    ensures
        le_bytes_u32(value).len() == 4,
        le_u32_at(le_bytes_u32(value), 0) == value,
{
    let b0 = (value & 0xFF) as u8;
    let b1 = ((value >> 8) & 0xFF) as u8;
    let b2 = ((value >> 16) & 0xFF) as u8;
    let b3 = ((value >> 24) & 0xFF) as u8;
    assert((b0 as u32) | (b1 as u32) << 8 | (b2 as u32) << 16 | (b3 as u32) << 24 == value)
        by (bit_vector)
        requires
            b0 == (value & 0xFF) as u8,
            b1 == ((value >> 8) & 0xFF) as u8,
            b2 == ((value >> 16) & 0xFF) as u8,
            b3 == ((value >> 24) & 0xFF) as u8,
    ;
}

/// Reading back the bytes of a half word gives the half word.
pub proof fn lemma_le_u16_round_trip(value: u16)
    ensures
        le_bytes_u16(value).len() == 2,
        le_u16_at(le_bytes_u16(value), 0) == value,
{
    let b0 = (value & 0xFF) as u8;
    let b1 = ((value >> 8) & 0xFF) as u8;
    assert((b0 as u16) | (b1 as u16) << 8 == value) by (bit_vector)
        requires
            b0 == (value & 0xFF) as u8,
            b1 == ((value >> 8) & 0xFF) as u8,
    ;
}

/// Reads the little-endian word that starts at `data[at]`.
pub fn read_le_u32(data: &[u8], at: usize) -> (word: u32)
    requires
        at + 4 <= data.len(),
    ensures
        word == le_u32_at(data@, at as int),
{
    (data[at] as u32) | (data[at + 1] as u32) << 8 | (data[at + 2] as u32) << 16 | (data[at
        + 3] as u32) << 24
}

/// Reads the little-endian half word that starts at `data[at]`.
pub fn read_le_u16(data: &[u8], at: usize) -> (word: u16)
    requires
        at + 2 <= data.len(),
    ensures
        word == le_u16_at(data@, at as int),
{
    (data[at] as u16) | (data[at + 1] as u16) << 8
}

} // verus!
