//! Facts about masks and shifts of bytes and words, each proved once by the bit-vector
//! solver and then used wherever the code masks or shifts.
use vstd::prelude::*;

verus! {

/// Masks and shifts of one byte, as arithmetic.
pub proof fn lemma_byte_bits(x: u8)
    by (bit_vector)
    ensures
        x >> 1u8 == x / 2,
        x >> 2u8 == x / 4,
        x >> 3u8 == x / 8,
        x >> 4u8 == x / 16,
        x << 1u8 == ((x * 2) % 256) as u8,
        x & 0x07u8 == x % 8,
        x & 0x03u8 == x % 4,
        x & 0x01u8 == x % 2,
        (x & 0x01u8 != 0) == (x % 2 == 1),
        (x & 0x02u8 != 0) == ((x / 2) % 2 == 1),
        (x & 0x04u8 != 0) == ((x / 4) % 2 == 1),
        (x & 0x80u8 != 0) == (x >= 128),
        ((x >> 7u8) & 1u8 != 0) == (x >= 128),
        ((x & 0x0Cu8) >> 2u8) == (x / 4) % 4,
        (x | 0x80u8) & 0x80u8 != 0,
        (x | 0x80u8) % 128 == x % 128,
        (x & 0x7Fu8) & 0x80u8 == 0,
        (x & 0x7Fu8) % 128 == x % 128,
        x | 0x01u8 | 0x20u8 == x | 0x21u8,
        0u8 | x == x,
        (x << 1u8) & 0x02u8 == (2 * (x % 2)) as u8,
        (x as u16) & 0x00FFu16 == x as u16,
        ((x as u16) & 0x80u16 != 0) == (x >= 128),
        x >= 128 ==> (x as u16) | 0xFF00u16 == (0xFF00 + x) as u16,
{
}

/// A bit shifted in at the low end of a byte, as arithmetic.
pub proof fn lemma_shift_in_low_bits(x: u8, c: u8)
    by (bit_vector)
    ensures
        c < 2 ==> (x << 1u8) | c == ((x * 2) % 256 + c) as u8,
        x < 2 && c < 2 ==> (x << 1u8) | c == (x * 2 + c) as u8,
        x < 2 && c < 2 ==> c | (x << 1u8) == (x * 2 + c) as u8,
{
}

/// A bit shifted in at the high end of a byte, as arithmetic.
pub proof fn lemma_shift_in_high_bits(x: u8, c: u8)
    by (bit_vector)
    ensures
        c < 2 ==> (x >> 1u8) | (c << 7u8) == (x / 2 + 128 * c) as u8,
{
}

/// Masks and shifts of one word, as arithmetic.
pub proof fn lemma_word_bits(a: u16)
    by (bit_vector)
    ensures
        a & 0x0001u16 == a % 2,
        a & 0x0003u16 == a % 4,
        a & 0x0007u16 == a % 8,
        a & 0x001Fu16 == a % 32,
        a & 0x00FFu16 == a % 256,
        a & 0x03FFu16 == a % 1024,
        a & 0x07FFu16 == a % 2048,
        a & 0x0FFFu16 == a % 4096,
        a & 0x3FFFu16 == a % 16384,
        a & 0x7FFFu16 == a % 32768,
        (a & 0x0003u16 == 0) == (a % 4 == 0),
        (a & 0x0002u16 != 0) == ((a / 2) % 2 == 1),
        (a & 0x0080u16 != 0) == (a % 256 >= 128),
        a & 0xFF00u16 == ((a / 256) * 256) as u16,
        a >> 8u16 == a / 256,
        (a >> 8u16) & 0x00FFu16 == a / 256,
        (a & 0xFF00u16) >> 8u16 == a / 256,
        a << 1u16 == ((a * 2) % 65536) as u16,
        0x2000u16 | (a & 0x0FFFu16) == (0x2000 + a % 4096) as u16,
        a < 512 ==> ((a & 0xFF00u16 != 0) == (a > 255)),
        a < 256 ==> a ^ 0x00FFu16 == (255 - a) as u16,
        (a >> 5u16) & 0x1Fu16 == (a / 32) % 32,
        (a & 0x0400u16 != 0) == ((a / 1024) % 2 == 1),
        (a & 0x0800u16 != 0) == ((a / 2048) % 2 == 1),
        (a >> 12u16) & 0x7u16 == (a / 4096) % 8,
        a == (a % 32 + 32 * ((a / 32) % 32) + 1024 * ((a / 1024) % 2) + 2048 * ((a / 2048) % 2)
            + 4096 * ((a / 4096) % 8) + 32768 * (a / 32768)) as u16,
{
}

/// Two words combined byte by byte, as arithmetic.
pub proof fn lemma_word_pair_bits(a: u16, b: u16)
    by (bit_vector)
    ensures
        b < 256 ==> (a & 0xFF00u16) | b == ((a / 256) * 256 + b) as u16,
        b < 256 ==> (a & 0x00FFu16) | (b << 8u16) == (a % 256 + 256 * b) as u16,
        (a & 0x00FFu16) | ((b & 0x3Fu16) << 8u16) == (a % 256 + 256 * (b % 64)) as u16,
        a < 256 && b < 256 ==> a | (b << 8u16) == (b * 256 + a) as u16,
        a < 256 && b < 256 ==> (b << 8u16) | a == (b * 256 + a) as u16,
        (a & 0xFF00u16 != b & 0xFF00u16) == (a / 256 != b / 256),
        ((a as u32) + (b as u32)) as u16 == ((a + b) % 65536) as u16,
{
}

/// A field of a word replaced by a mask and an or, as arithmetic over the fields of the
/// layout 5, 5, 1, 1, 3, 1 bits (low bits first).
pub proof fn lemma_field_replace_bits(b: u16, v: u16)
    by (bit_vector)
    ensures
        v < 32 ==> (b & 0xFFE0u16) | v == (v + 32 * ((b / 32) % 32) + 1024 * ((b / 1024) % 2)
            + 2048 * ((b / 2048) % 2) + 4096 * ((b / 4096) % 8) + 32768 * (b / 32768)) as u16,
        v < 32 ==> (b & 0xFC1Fu16) | (v << 5u16) == (b % 32 + 32 * v + 1024 * ((b / 1024) % 2)
            + 2048 * ((b / 2048) % 2) + 4096 * ((b / 4096) % 8) + 32768 * (b / 32768)) as u16,
        v < 2 ==> (b & 0xFBFFu16) | (v << 10u16) == (b % 32 + 32 * ((b / 32) % 32) + 1024 * v
            + 2048 * ((b / 2048) % 2) + 4096 * ((b / 4096) % 8) + 32768 * (b / 32768)) as u16,
        v < 2 ==> (b & 0xF7FFu16) | (v << 11u16) == (b % 32 + 32 * ((b / 32) % 32) + 1024 * ((b
            / 1024) % 2) + 2048 * v + 4096 * ((b / 4096) % 8) + 32768 * (b / 32768)) as u16,
        v < 8 ==> (b & 0x8FFFu16) | (v << 12u16) == (b % 32 + 32 * ((b / 32) % 32) + 1024 * ((b
            / 1024) % 2) + 2048 * ((b / 2048) % 2) + 4096 * v + 32768 * (b / 32768)) as u16,
{
}

} // verus!
