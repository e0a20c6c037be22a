//! Small helpers on bytes and words: single bits, byte splitting and gluing.
use vstd::prelude::*;
use vstd::arithmetic::power2::{pow2, lemma2_to64};
use vstd::arithmetic::div_mod::{lemma_div_denominator, lemma_fundamental_div_mod};
use crate::bit_facts::{lemma_word_bits, lemma_word_pair_bits};
use vstd::bits::{lemma_u8_shr_is_div, lemma_u16_shr_is_div, lemma_u64_shl_is_mul};

verus! {

pub const KB: usize = 1024;

/// Bit `i` of the natural number `x`.
pub open spec fn bit_of(x: nat, i: nat) -> nat {
    (x / pow2(i)) % 2
}

/// What `mask` gives: the value shifted right by `lower_bound`, and-ed with the
/// byte `0xFF` placed `length` bits up, all within `width` bits.
pub open spec fn mask_spec(x: nat, lower_bound: nat, length: nat, width: nat) -> nat {
    ((x / pow2(lower_bound)) / pow2(length)) % 256 * pow2(length) % pow2(width)
}

pub trait BitManipulation: Sized {
    /// Number of bits of the type.
    spec fn width() -> nat;

    /// The value as a natural number.
    spec fn value(&self) -> nat;

    fn nth_bit(&self, bit_index: u8) -> (r: u8)
        requires
            (bit_index as nat) < Self::width(),
        ensures
            r as nat == bit_of(self.value(), bit_index as nat),
    ;

    fn nth_flag(&self, bit_index: u8) -> (r: bool)
        requires
            (bit_index as nat) < Self::width(),
        ensures
            r == (bit_of(self.value(), bit_index as nat) == 1),
    {
        let b = self.nth_bit(bit_index);
        proof {
            assert(bit_of(self.value(), bit_index as nat) < 2) by {
                lemma_pow2_pos_local(bit_index as nat);
            }
        }
        if b == 0 {
            false
        } else {
            true
        }
    }

    fn mask(&self, higher_bound: u8, lower_bound: u8) -> (r: Self)
        requires
            lower_bound <= higher_bound,
            (lower_bound as nat) < Self::width(),
            ((higher_bound - lower_bound + 1) as nat) < Self::width(),
        ensures
            r.value() == mask_spec(
                self.value(),
                lower_bound as nat,
                (higher_bound - lower_bound + 1) as nat,
                Self::width(),
            ),
    ;
}

proof fn lemma_pow2_pos_local(n: nat)
    ensures
        pow2(n) > 0,
{
    vstd::arithmetic::power2::lemma_pow2_pos(n);
}

/// `(y / d) * d <= y` for a positive divisor.
proof fn lemma_div_mul_le(y: int, d: int)
    requires
        y >= 0,
        d > 0,
    ensures
        (y / d) * d <= y,
        y / d >= 0,
{
    lemma_fundamental_div_mod(y, d);
    assert((y / d) * d == d * (y / d)) by (nonlinear_arith);
    assert(y % d >= 0);
    assert(y / d >= 0) by (nonlinear_arith)
        requires
            d * (y / d) + y % d == y,
            y % d < d,
            y >= 0,
            d > 0,
    ;
}

impl BitManipulation for u8 {
    open spec fn width() -> nat {
        8
    }

    open spec fn value(&self) -> nat {
        *self as nat
    }

    fn nth_bit(&self, bit_index: u8) -> (r: u8) {
        let x = *self;
        proof {
            lemma_u8_shr_is_div(x, bit_index);
            assert((x & (1u8 << bit_index)) >> bit_index == (x >> bit_index) % 2) by (bit_vector)
                requires
                    bit_index < 8,
            ;
        }
        (x & (1 << bit_index)) >> bit_index
    }

    fn mask(&self, higher_bound: u8, lower_bound: u8) -> (r: Self) {
        let x = *self;
        let length = higher_bound - lower_bound + 1;
        let y = x >> lower_bound;
        let r = y & (0xFF << length);
        proof {
            lemma_u8_shr_is_div(x, lower_bound);
            lemma_u8_shr_is_div(y, length);
            lemma2_to64();
            lemma_pow2_pos_local(length as nat);
            lemma_pow2_pos_local(lower_bound as nat);
            assert(y & (0xFFu8 << length) == (y >> length) << length) by (bit_vector)
                requires
                    length < 8,
            ;
            let z = y >> length;
            lemma_div_mul_le(y as int, pow2(length as nat) as int);
            assert(z as int * pow2(length as nat) <= y as int);
            lemma_u64_shl_is_mul(z as u64, length as u64);
            assert(((z as u64) << (length as u64)) == ((z << length) as u64)) by (bit_vector)
                requires
                    length < 8,
                    ((z as u64) << (length as u64)) < 256,
            ;
            assert(pow2(8) == 256);
            lemma_div_denominator(x as int, pow2(lower_bound as nat) as int, pow2(length as nat) as int);
        }
        r
    }
}

impl BitManipulation for u16 {
    open spec fn width() -> nat {
        16
    }

    open spec fn value(&self) -> nat {
        *self as nat
    }

    fn nth_bit(&self, bit_index: u8) -> (r: u8) {
        let x = *self;
        proof {
            lemma_u16_shr_is_div(x, bit_index as u16);
            assert((x & (1u16 << bit_index)) >> bit_index == (x >> (bit_index as u16)) % 2) by (bit_vector)
                requires
                    bit_index < 16,
            ;
        }
        ((x & (1 << bit_index)) >> bit_index) as u8
    }

    fn mask(&self, higher_bound: u8, lower_bound: u8) -> (r: Self) {
        let x = *self;
        let length = higher_bound - lower_bound + 1;
        let y = x >> lower_bound;
        let r = y & (0xFF << length);
        proof {
            lemma_u16_shr_is_div(x, lower_bound as u16);
            lemma_u16_shr_is_div(y, length as u16);
            lemma2_to64();
            lemma_pow2_pos_local(length as nat);
            lemma_pow2_pos_local(lower_bound as nat);
            let z = (y >> (length as u16)) & 0xFF;
            assert(y & (0xFFu16 << length) == ((((y >> (length as u16)) & 0xFF) as u64) << (length as u64)) % 65536) by (bit_vector)
                requires
                    length < 16,
            ;
            lemma_word_bits(y >> (length as u16));
            assert(z < 256);
            assert(z as int * pow2(length as nat) < 256 * 65536) by (nonlinear_arith)
                requires
                    z < 256,
                    pow2(length as nat) <= 32768,
                    pow2(length as nat) > 0,
            {
            }
            assert(pow2(length as nat) <= 32768) by {
                if length < 15 {
                    vstd::arithmetic::power2::lemma_pow2_strictly_increases(length as nat, 15);
                }
            }
            lemma_u64_shl_is_mul(z as u64, length as u64);
            assert(pow2(16) == 65536);
            lemma_div_denominator(x as int, pow2(lower_bound as nat) as int, pow2(length as nat) as int);
        }
        r
    }
}

/// Joins two bytes into a word, `high_byte` on top.
pub fn glue_u8s(high_byte: u8, low_byte: u8) -> (r: u16)
    ensures
        r == high_byte as int * 256 + low_byte as int,
{
    proof {
        lemma_word_pair_bits(low_byte as u16, high_byte as u16);
    }
    ((high_byte as u16) << 8) | (low_byte as u16)
}

/// Splits a word into its (high, low) bytes.
pub fn split_u16(whole: u16) -> (r: (u8, u8))
    ensures
        r.0 == whole / 256,
        r.1 == whole % 256,
{
    (get_high_byte(whole), get_low_byte(whole))
}

pub fn get_high_byte(number: u16) -> (r: u8)
    ensures
        r == number / 256,
{
    proof {
        lemma_word_bits(number);
    }
    ((number & 0xFF00) >> 8) as u8
}

pub fn get_low_byte(number: u16) -> (r: u8)
    ensures
        r == number % 256,
{
    proof {
        lemma_word_bits(number);
    }
    (number & 0x00FF) as u8
}

/// Splitting a glued word gives back the two bytes, and gluing the two halves
/// of a word gives back the word.
pub proof fn lemma_glue_split_roundtrip(high_byte: u8, low_byte: u8, whole: u16)
    ensures
        (high_byte as int * 256 + low_byte as int) / 256 == high_byte,
        (high_byte as int * 256 + low_byte as int) % 256 == low_byte,
        (whole / 256) as int * 256 + (whole % 256) as int == whole,
{
}

} // verus!
