//! Bit-level facts about bytes, words and indexes that the emulator relies
//! on when it decodes registers and addresses.
use vstd::prelude::*;

verus! {

/// Facts about one byte.
pub proof fn lemma_byte(v: u8)
    by (bit_vector)
    ensures
        v & 1 == v % 2,
        (v & 0x8 == 0x8) == ((v / 8) % 2 == 1),
        v & 0b11111 == v % 32,
        v & 0b111111 == v % 64,
        v & 0b11 <= 3,
        v & 0b111 <= 7,
        v >> 1u8 <= 127,
        v >> 3u8 < 32,
        (v >> 3u8) & 1 <= 1,
        (v >> 4u8) & 1 <= 1,
        (v >> 5u8) & 1 <= 1,
        (v >> 5u8) & 1 <= 1 && (v >> 6u8) & 1 <= 1,
        ((v >> 6u8) ^ (v >> 5u8)) & 1 == if (v >> 6u8) & 1 == (v >> 5u8) & 1 { 0u8 } else { 1u8 },
        v >> 7u8 == (if v >= 128 { 1u8 } else { 0u8 }),
        (v >> 7u8) & 1 == (if v >= 128 { 1u8 } else { 0u8 }),
        (v & 0x80 == 0x80) == (v >= 128),
        !v == 255 - v,
        v <= 1 ==> v | 0b10 == v + 2,
        0u8 | 1u8 == 1u8,
        (v | 0x80) & 0x80 == 0x80,
        (v & !0x80u8) & 0x80 == 0,
        ((v & !0x80u8) & !0x40u8) & 0xC0 == 0,
        ((v & !0x80u8) & !0x40u8) & 0x80 != 0x80,
        (v as u16) << 8u16 == (v as u16) * 256,
        (v as u16) & 1 <= 1,
        ((v as u16) >> 1u16) & 1 <= 1,
{
}

/// Facts about one 16-bit word, as used for addresses and PPU scroll
/// registers.
pub proof fn lemma_word(w: u16)
    by (bit_vector)
    ensures
        w <= 255 ==> w << 8u16 == w * 256,
        ((w & 0xFF00u16) >> 8u16) as u8 == w / 256,
        (w & 0xFFu16) as u8 == w % 256,
        (w >> 8u16) as u8 == w / 256,
        w >> 8u16 == w / 256,
        w & 0b11111 == w % 32,
        w % 256 == 0xFF ==> w & 0xFF00 == w - 0xFF,
        ((w & 0x7000) >> 12u16) as u8 <= 7,
        w & 0x1F != 31 ==> w < 0xFFFF,
        w & 0x7000 != 0x7000 ==> w + 0x1000 <= 0xFFFF,
        (w & 0x3e0) >> 5u16 <= 31,
        0x2000 | (w & 0x0FFF) < 0x4000,
        0x23C0 | (w & 0x0C00) | ((w >> 4u16) & 0x38) | ((w >> 2u16) & 0x07) < 0x4000,
        (((w >> 1u16) & 1) | (((w >> 6u16) & 1) << 1u16)) as u8 <= 3,
{
}

/// Facts about an index into memory.
pub proof fn lemma_index(a: usize)
    by (bit_vector)
    ensures
        a & 0xFF == a % 0x100,
        a & 0x7FF == a % 0x800,
        a & 1 == a % 2,
        a & !1usize == a - a % 2,
        a <= 255 ==> a << 8usize == a * 256,
{
}

/// Parity of a cycle count.
pub proof fn lemma_count(c: u64)
    by (bit_vector)
    ensures
        (c & 1 == 0) == (c % 2 == 0),
{
}

/// The two bits at position `s` of a pair of 16-bit shift registers form a
/// value from 0 to 3.
pub proof fn lemma_bit_pair16(lo: u16, hi: u16, s: u16)
    by (bit_vector)
    ensures
        (lo >> s) & 1 <= 1,
        (hi >> s) & 1 <= 1,
        (((lo >> s) & 1) | (((hi >> s) & 1) << 1u16)) as u8 <= 3,
{
}

/// The two bits at position `s` of a pair of bytes form a value from 0 to 3.
pub proof fn lemma_bit_pair8(lo: u8, hi: u8, s: u8)
    by (bit_vector)
    ensures
        (lo >> s) & 1 <= 1,
        (hi >> s) & 1 <= 1,
        (((lo >> s) & 1) | (((hi >> s) & 1) << 1u8)) <= 3,
{
}

} // verus!
