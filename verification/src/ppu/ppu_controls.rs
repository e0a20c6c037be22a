//! The PPU's memory-mapped registers and its internal "loopy" address registers.
use vstd::prelude::*;

use crate::bit_facts::{lemma_byte_bits, lemma_word_bits, lemma_word_pair_bits, lemma_field_replace_bits};

verus! {

/// Which half of a two-write register (scroll, address) the next CPU write fills.
#[derive(Clone, Copy, PartialEq, Eq, Structural)]
pub enum WritingAddressPart {
    High,
    Low,
}

impl Default for WritingAddressPart {
    fn default() -> (r: Self)
        ensures
            r == WritingAddressPart::High,
    {
        WritingAddressPart::High
    }
}

/// $2002: the status register. Bits 5, 6 and 7 carry flags; bits 0..5 are kept as written.
#[derive(Clone, Copy)]
pub struct PPUStatus {
    pub bits: u8,
}

/// $2001: the mask register, one flag per bit.
#[derive(Clone, Copy)]
pub struct PPUMask {
    pub bits: u8,
}

/// $2000: the control register, one flag per bit.
#[derive(Clone, Copy)]
pub struct PPUControl {
    pub bits: u8,
}

impl PPUStatus {
    pub fn new() -> (r: Self)
        ensures
            r.bits == 0,
    {
        PPUStatus { bits: 0 }
    }

    pub fn sprite_overflow(&self) -> (r: bool)
        ensures
            r == (self.bits & 0x20 != 0),
    {
        self.bits & 0x20 != 0
    }

    pub fn sprite_zero_hit(&self) -> (r: bool)
        ensures
            r == (self.bits & 0x40 != 0),
    {
        self.bits & 0x40 != 0
    }

    pub open spec fn spec_vertical_blank(&self) -> bool {
        self.bits & 0x80 != 0
    }

    #[verifier::when_used_as_spec(spec_vertical_blank)]
    pub fn vertical_blank(&self) -> (r: bool)
        ensures
            r == self.spec_vertical_blank(),
    {
        self.bits & 0x80 != 0
    }

    pub open spec fn with_vertical_blank_spec(self, value: bool) -> PPUStatus {
        PPUStatus { bits: if value { self.bits | 0x80 } else { self.bits & 0x7F } }
    }

    pub fn set_vertical_blank(&mut self, value: bool)
        ensures
            *final(self) == old(self).with_vertical_blank_spec(value),
            final(self).vertical_blank() == value,
            final(self).bits % 128 == old(self).bits % 128,
    {
        let b = self.bits;
        proof {
            lemma_byte_bits(b);
        }
        if value {
            self.bits = b | 0x80;
        } else {
            self.bits = b & 0x7F;
        }
    }
}

impl Default for PPUStatus {
    fn default() -> (r: Self)
        ensures
            r.bits == 0,
    {
        PPUStatus { bits: 0 }
    }
}

impl From<u8> for PPUStatus {
    fn from(bits: u8) -> (r: Self) {
        PPUStatus { bits }
    }
}

impl vstd::std_specs::convert::FromSpecImpl<u8> for PPUStatus {
    open spec fn obeys_from_spec() -> bool {
        true
    }

    open spec fn from_spec(bits: u8) -> Self {
        PPUStatus { bits }
    }
}

impl From<PPUStatus> for u8 {
    fn from(status: PPUStatus) -> (r: Self) {
        status.bits
    }
}

impl vstd::std_specs::convert::FromSpecImpl<PPUStatus> for u8 {
    open spec fn obeys_from_spec() -> bool {
        true
    }

    open spec fn from_spec(status: PPUStatus) -> u8 {
        status.bits
    }
}

impl PPUMask {
    pub fn new() -> (r: Self)
        ensures
            r.bits == 0,
    {
        PPUMask { bits: 0 }
    }

    pub fn grayscale(&self) -> (r: bool)
        ensures
            r == (self.bits & 0x01 != 0),
    {
        self.bits & 0x01 != 0
    }

    pub fn render_background_left(&self) -> (r: bool)
        ensures
            r == (self.bits & 0x02 != 0),
    {
        self.bits & 0x02 != 0
    }

    pub fn render_sprites_left(&self) -> (r: bool)
        ensures
            r == (self.bits & 0x04 != 0),
    {
        self.bits & 0x04 != 0
    }

    pub open spec fn spec_render_background(&self) -> bool {
        self.bits & 0x08 != 0
    }

    #[verifier::when_used_as_spec(spec_render_background)]
    pub fn render_background(&self) -> (r: bool)
        ensures
            r == self.spec_render_background(),
    {
        self.bits & 0x08 != 0
    }

    pub open spec fn spec_render_sprites(&self) -> bool {
        self.bits & 0x10 != 0
    }

    #[verifier::when_used_as_spec(spec_render_sprites)]
    pub fn render_sprites(&self) -> (r: bool)
        ensures
            r == self.spec_render_sprites(),
    {
        self.bits & 0x10 != 0
    }

    pub fn enhance_red(&self) -> (r: bool)
        ensures
            r == (self.bits & 0x20 != 0),
    {
        self.bits & 0x20 != 0
    }

    pub fn enhance_green(&self) -> (r: bool)
        ensures
            r == (self.bits & 0x40 != 0),
    {
        self.bits & 0x40 != 0
    }

    pub fn enhance_blue(&self) -> (r: bool)
        ensures
            r == (self.bits & 0x80 != 0),
    {
        self.bits & 0x80 != 0
    }
}

impl Default for PPUMask {
    fn default() -> (r: Self)
        ensures
            r.bits == 0,
    {
        PPUMask { bits: 0 }
    }
}

impl From<u8> for PPUMask {
    fn from(bits: u8) -> (r: Self) {
        PPUMask { bits }
    }
}

impl vstd::std_specs::convert::FromSpecImpl<u8> for PPUMask {
    open spec fn obeys_from_spec() -> bool {
        true
    }

    open spec fn from_spec(bits: u8) -> Self {
        PPUMask { bits }
    }
}

impl PPUControl {
    pub fn new() -> (r: Self)
        ensures
            r.bits == 0,
    {
        PPUControl { bits: 0 }
    }

    pub open spec fn spec_nametable_x(&self) -> bool {
        self.bits & 0x01 != 0
    }

    #[verifier::when_used_as_spec(spec_nametable_x)]
    pub fn nametable_x(&self) -> (r: bool)
        ensures
            r == self.spec_nametable_x(),
    {
        self.bits & 0x01 != 0
    }

    pub open spec fn spec_nametable_y(&self) -> bool {
        self.bits & 0x02 != 0
    }

    #[verifier::when_used_as_spec(spec_nametable_y)]
    pub fn nametable_y(&self) -> (r: bool)
        ensures
            r == self.spec_nametable_y(),
    {
        self.bits & 0x02 != 0
    }

    pub open spec fn spec_increment_mode(&self) -> bool {
        self.bits & 0x04 != 0
    }

    #[verifier::when_used_as_spec(spec_increment_mode)]
    pub fn increment_mode(&self) -> (r: bool)
        ensures
            r == self.spec_increment_mode(),
    {
        self.bits & 0x04 != 0
    }

    pub fn pattern_sprite(&self) -> (r: bool)
        ensures
            r == (self.bits & 0x08 != 0),
    {
        self.bits & 0x08 != 0
    }

    pub open spec fn spec_pattern_background(&self) -> bool {
        self.bits & 0x10 != 0
    }

    #[verifier::when_used_as_spec(spec_pattern_background)]
    pub fn pattern_background(&self) -> (r: bool)
        ensures
            r == self.spec_pattern_background(),
    {
        self.bits & 0x10 != 0
    }

    pub fn sprite_size(&self) -> (r: bool)
        ensures
            r == (self.bits & 0x20 != 0),
    {
        self.bits & 0x20 != 0
    }

    pub fn slave_mode(&self) -> (r: bool)
        ensures
            r == (self.bits & 0x40 != 0),
    {
        self.bits & 0x40 != 0
    }

    pub open spec fn spec_enable_nmi(&self) -> bool {
        self.bits & 0x80 != 0
    }

    #[verifier::when_used_as_spec(spec_enable_nmi)]
    pub fn enable_nmi(&self) -> (r: bool)
        ensures
            r == self.spec_enable_nmi(),
    {
        self.bits & 0x80 != 0
    }
}

impl Default for PPUControl {
    fn default() -> (r: Self)
        ensures
            r.bits == 0,
    {
        PPUControl { bits: 0 }
    }
}

impl From<u8> for PPUControl {
    fn from(bits: u8) -> (r: Self) {
        PPUControl { bits }
    }
}

impl vstd::std_specs::convert::FromSpecImpl<u8> for PPUControl {
    open spec fn obeys_from_spec() -> bool {
        true
    }

    open spec fn from_spec(bits: u8) -> Self {
        PPUControl { bits }
    }
}

/// The 15-bit "loopy" register: coarse x (bits 0..5), coarse y (bits 5..10),
/// nametable x (bit 10), nametable y (bit 11), fine y (bits 12..15).
/// Bit 15 belongs to no field and is kept as it is.
#[derive(Clone, Copy)]
pub struct PPULoopy {
    pub bits: u16,
}

/// The word whose fields are the given ones.
pub open spec fn loopy_word(
    coarse_x: int,
    coarse_y: int,
    nametable_x: bool,
    nametable_y: bool,
    fine_y: int,
    top: int,
) -> int {
    coarse_x + 32 * coarse_y + 1024 * (if nametable_x { 1int } else { 0 }) + 2048 * (if nametable_y {
        1int
    } else {
        0
    }) + 4096 * fine_y + 32768 * top
}

/// The fields of the word built from given fields are those fields.
pub proof fn lemma_loopy_word_fields(cx: int, cy: int, nx: bool, ny: bool, fy: int, top: int)
    requires
        0 <= cx < 32,
        0 <= cy < 32,
        0 <= fy < 8,
        0 <= top < 2,
    ensures
        ({
            let w = loopy_word(cx, cy, nx, ny, fy, top);
            let l = PPULoopy { bits: w as u16 };
            &&& 0 <= w < 65536
            &&& l.coarse_x() == cx
            &&& l.coarse_y() == cy
            &&& l.nametable_x() == nx
            &&& l.nametable_y() == ny
            &&& l.fine_y() == fy
            &&& l.top_bit() == top
        }),
{
    let bx: u16 = if nx { 1 } else { 0 };
    let by: u16 = if ny { 1 } else { 0 };
    let w = (cx + 32 * cy + 1024 * bx + 2048 * by + 4096 * fy + 32768 * top) as u16;
    let a = cx as u16;
    let b = cy as u16;
    let f = fy as u16;
    let tp = top as u16;
    assert(w % 32 == a && (w / 32) % 32 == b && (w / 1024) % 2 == bx && (w / 2048) % 2 == by && (w
        / 4096) % 8 == f && w / 32768 == tp) by (bit_vector)
        requires
            a < 32,
            b < 32,
            f < 8,
            tp < 2,
            bx < 2,
            by < 2,
            w == a + 32 * b + 1024 * bx + 2048 * by + 4096 * f + 32768 * tp,
    ;
}


impl PPULoopy {
    pub open spec fn spec_coarse_x(&self) -> u8 {
        (self.bits % 32) as u8
    }

    pub open spec fn spec_coarse_y(&self) -> u8 {
        ((self.bits / 32) % 32) as u8
    }

    pub open spec fn spec_nametable_x(&self) -> bool {
        (self.bits / 1024) % 2 == 1
    }

    pub open spec fn spec_nametable_y(&self) -> bool {
        (self.bits / 2048) % 2 == 1
    }

    pub open spec fn spec_fine_y(&self) -> u8 {
        ((self.bits / 4096) % 8) as u8
    }

    /// The bit that belongs to no field.
    pub open spec fn top_bit(&self) -> int {
        (self.bits / 32768) as int
    }

    pub fn new() -> (r: Self)
        ensures
            r.bits == 0,
    {
        PPULoopy { bits: 0 }
    }

    #[verifier::opaque]
    pub open spec fn with_coarse_x_spec(self, value: u8) -> PPULoopy {
        PPULoopy {
            bits: loopy_word(
                value as int,
                self.coarse_y() as int,
                self.nametable_x(),
                self.nametable_y(),
                self.fine_y() as int,
                self.top_bit(),
            ) as u16,
        }
    }

    #[verifier::opaque]
    pub open spec fn with_coarse_y_spec(self, value: u8) -> PPULoopy {
        PPULoopy {
            bits: loopy_word(
                self.coarse_x() as int,
                value as int,
                self.nametable_x(),
                self.nametable_y(),
                self.fine_y() as int,
                self.top_bit(),
            ) as u16,
        }
    }

    #[verifier::opaque]
    pub open spec fn with_nametable_x_spec(self, value: bool) -> PPULoopy {
        PPULoopy {
            bits: loopy_word(
                self.coarse_x() as int,
                self.coarse_y() as int,
                value,
                self.nametable_y(),
                self.fine_y() as int,
                self.top_bit(),
            ) as u16,
        }
    }

    #[verifier::opaque]
    pub open spec fn with_nametable_y_spec(self, value: bool) -> PPULoopy {
        PPULoopy {
            bits: loopy_word(
                self.coarse_x() as int,
                self.coarse_y() as int,
                self.nametable_x(),
                value,
                self.fine_y() as int,
                self.top_bit(),
            ) as u16,
        }
    }

    #[verifier::opaque]
    pub open spec fn with_fine_y_spec(self, value: u8) -> PPULoopy {
        PPULoopy {
            bits: loopy_word(
                self.coarse_x() as int,
                self.coarse_y() as int,
                self.nametable_x(),
                self.nametable_y(),
                value as int,
                self.top_bit(),
            ) as u16,
        }
    }

    #[verifier::when_used_as_spec(spec_coarse_x)]
    pub fn coarse_x(&self) -> (r: u8)
        ensures
            r == self.spec_coarse_x(),
    {
        let b = self.bits;
        proof {
            lemma_word_bits(b);
        }
        (b & 0x1F) as u8
    }

    #[verifier::when_used_as_spec(spec_coarse_y)]
    pub fn coarse_y(&self) -> (r: u8)
        ensures
            r == self.spec_coarse_y(),
    {
        let b = self.bits;
        proof {
            lemma_word_bits(b);
        }
        ((b >> 5) & 0x1F) as u8
    }

    #[verifier::when_used_as_spec(spec_nametable_x)]
    pub fn nametable_x(&self) -> (r: bool)
        ensures
            r == self.spec_nametable_x(),
    {
        let b = self.bits;
        proof {
            lemma_word_bits(b);
        }
        b & 0x0400 != 0
    }

    #[verifier::when_used_as_spec(spec_nametable_y)]
    pub fn nametable_y(&self) -> (r: bool)
        ensures
            r == self.spec_nametable_y(),
    {
        let b = self.bits;
        proof {
            lemma_word_bits(b);
        }
        b & 0x0800 != 0
    }

    #[verifier::when_used_as_spec(spec_fine_y)]
    pub fn fine_y(&self) -> (r: u8)
        ensures
            r == self.spec_fine_y(),
    {
        let b = self.bits;
        proof {
            lemma_word_bits(b);
        }
        ((b >> 12) & 0x7) as u8
    }

    /// Every word is the one built from its own fields.
    pub proof fn lemma_fields_determine_word(self)
        ensures
            self.bits as int == loopy_word(
                self.coarse_x() as int,
                self.coarse_y() as int,
                self.nametable_x(),
                self.nametable_y(),
                self.fine_y() as int,
                self.top_bit(),
            ),
    {
        let b = self.bits;
        lemma_word_bits(b);
    }

    pub fn set_coarse_x(&mut self, value: u8)
        requires
            value < 32,
        ensures
            *final(self) == old(self).with_coarse_x_spec(value),
            final(self).bits as int == loopy_word(
                value as int,
                old(self).coarse_y() as int,
                old(self).nametable_x(),
                old(self).nametable_y(),
                old(self).fine_y() as int,
                old(self).top_bit(),
            ),
            final(self).coarse_x() == value,
            final(self).coarse_y() == old(self).coarse_y(),
            final(self).nametable_x() == old(self).nametable_x(),
            final(self).nametable_y() == old(self).nametable_y(),
            final(self).fine_y() == old(self).fine_y(),
            final(self).top_bit() == old(self).top_bit(),
    {
        proof {
            reveal(PPULoopy::with_coarse_x_spec);
        }
        let b = self.bits;
        let v = value as u16;
        let n = (b & 0xFFE0) | v;
        proof {
            lemma_field_replace_bits(b, v);
            lemma_word_bits(b);
            lemma_loopy_word_fields(v as int, self.coarse_y() as int, self.nametable_x(), self.nametable_y(), self.fine_y() as int, self.top_bit());
        }
        self.bits = n;
    }

    pub fn set_coarse_y(&mut self, value: u8)
        requires
            value < 32,
        ensures
            *final(self) == old(self).with_coarse_y_spec(value),
            final(self).bits as int == loopy_word(
                old(self).coarse_x() as int,
                value as int,
                old(self).nametable_x(),
                old(self).nametable_y(),
                old(self).fine_y() as int,
                old(self).top_bit(),
            ),
            final(self).coarse_x() == old(self).coarse_x(),
            final(self).coarse_y() == value,
            final(self).nametable_x() == old(self).nametable_x(),
            final(self).nametable_y() == old(self).nametable_y(),
            final(self).fine_y() == old(self).fine_y(),
            final(self).top_bit() == old(self).top_bit(),
    {
        proof {
            reveal(PPULoopy::with_coarse_y_spec);
        }
        let b = self.bits;
        let v = value as u16;
        let n = (b & 0xFC1F) | (v << 5);
        proof {
            lemma_field_replace_bits(b, v);
            lemma_word_bits(b);
            lemma_loopy_word_fields(self.coarse_x() as int, v as int, self.nametable_x(), self.nametable_y(), self.fine_y() as int, self.top_bit());
        }
        self.bits = n;
    }

    pub fn set_nametable_x(&mut self, value: bool)
        ensures
            *final(self) == old(self).with_nametable_x_spec(value),
            final(self).bits as int == loopy_word(
                old(self).coarse_x() as int,
                old(self).coarse_y() as int,
                value,
                old(self).nametable_y(),
                old(self).fine_y() as int,
                old(self).top_bit(),
            ),
            final(self).coarse_x() == old(self).coarse_x(),
            final(self).coarse_y() == old(self).coarse_y(),
            final(self).nametable_x() == value,
            final(self).nametable_y() == old(self).nametable_y(),
            final(self).fine_y() == old(self).fine_y(),
            final(self).top_bit() == old(self).top_bit(),
    {
        proof {
            reveal(PPULoopy::with_nametable_x_spec);
        }
        let b = self.bits;
        let v: u16 = if value { 1 } else { 0 };
        let n = (b & 0xFBFF) | (v << 10);
        proof {
            lemma_field_replace_bits(b, v);
            lemma_word_bits(b);
            lemma_loopy_word_fields(self.coarse_x() as int, self.coarse_y() as int, value, self.nametable_y(), self.fine_y() as int, self.top_bit());
        }
        self.bits = n;
    }

    pub fn set_nametable_y(&mut self, value: bool)
        ensures
            *final(self) == old(self).with_nametable_y_spec(value),
            final(self).bits as int == loopy_word(
                old(self).coarse_x() as int,
                old(self).coarse_y() as int,
                old(self).nametable_x(),
                value,
                old(self).fine_y() as int,
                old(self).top_bit(),
            ),
            final(self).coarse_x() == old(self).coarse_x(),
            final(self).coarse_y() == old(self).coarse_y(),
            final(self).nametable_x() == old(self).nametable_x(),
            final(self).nametable_y() == value,
            final(self).fine_y() == old(self).fine_y(),
            final(self).top_bit() == old(self).top_bit(),
    {
        proof {
            reveal(PPULoopy::with_nametable_y_spec);
        }
        let b = self.bits;
        let v: u16 = if value { 1 } else { 0 };
        let n = (b & 0xF7FF) | (v << 11);
        proof {
            lemma_field_replace_bits(b, v);
            lemma_word_bits(b);
            lemma_loopy_word_fields(self.coarse_x() as int, self.coarse_y() as int, self.nametable_x(), value, self.fine_y() as int, self.top_bit());
        }
        self.bits = n;
    }

    pub fn set_fine_y(&mut self, value: u8)
        requires
            value < 8,
        ensures
            *final(self) == old(self).with_fine_y_spec(value),
            final(self).bits as int == loopy_word(
                old(self).coarse_x() as int,
                old(self).coarse_y() as int,
                old(self).nametable_x(),
                old(self).nametable_y(),
                value as int,
                old(self).top_bit(),
            ),
            final(self).coarse_x() == old(self).coarse_x(),
            final(self).coarse_y() == old(self).coarse_y(),
            final(self).nametable_x() == old(self).nametable_x(),
            final(self).nametable_y() == old(self).nametable_y(),
            final(self).fine_y() == value,
            final(self).top_bit() == old(self).top_bit(),
    {
        proof {
            reveal(PPULoopy::with_fine_y_spec);
        }
        let b = self.bits;
        let v = value as u16;
        let n = (b & 0x8FFF) | (v << 12);
        proof {
            lemma_field_replace_bits(b, v);
            lemma_word_bits(b);
            lemma_loopy_word_fields(self.coarse_x() as int, self.coarse_y() as int, self.nametable_x(), self.nametable_y(), v as int, self.top_bit());
        }
        self.bits = n;
    }

    pub fn with_coarse_x(self, value: u8) -> (r: Self)
        requires
            value < 32,
        ensures
            r.coarse_x() == value,
            r.coarse_y() == self.coarse_y(),
            r.nametable_x() == self.nametable_x(),
            r.nametable_y() == self.nametable_y(),
            r.fine_y() == self.fine_y(),
            r.top_bit() == self.top_bit(),
    {
        let mut r = self;
        r.set_coarse_x(value);
        r
    }

    pub fn with_coarse_y(self, value: u8) -> (r: Self)
        requires
            value < 32,
        ensures
            r.coarse_x() == self.coarse_x(),
            r.coarse_y() == value,
            r.nametable_x() == self.nametable_x(),
            r.nametable_y() == self.nametable_y(),
            r.fine_y() == self.fine_y(),
            r.top_bit() == self.top_bit(),
    {
        let mut r = self;
        r.set_coarse_y(value);
        r
    }

    pub fn with_nametable_x(self, value: bool) -> (r: Self)
        ensures
            r.coarse_x() == self.coarse_x(),
            r.coarse_y() == self.coarse_y(),
            r.nametable_x() == value,
            r.nametable_y() == self.nametable_y(),
            r.fine_y() == self.fine_y(),
            r.top_bit() == self.top_bit(),
    {
        let mut r = self;
        r.set_nametable_x(value);
        r
    }

    pub fn with_nametable_y(self, value: bool) -> (r: Self)
        ensures
            r.coarse_x() == self.coarse_x(),
            r.coarse_y() == self.coarse_y(),
            r.nametable_x() == self.nametable_x(),
            r.nametable_y() == value,
            r.fine_y() == self.fine_y(),
            r.top_bit() == self.top_bit(),
    {
        let mut r = self;
        r.set_nametable_y(value);
        r
    }

    pub fn with_fine_y(self, value: u8) -> (r: Self)
        requires
            value < 8,
        ensures
            r.coarse_x() == self.coarse_x(),
            r.coarse_y() == self.coarse_y(),
            r.nametable_x() == self.nametable_x(),
            r.nametable_y() == self.nametable_y(),
            r.fine_y() == value,
            r.top_bit() == self.top_bit(),
    {
        let mut r = self;
        r.set_fine_y(value);
        r
    }

    /// Builds the register from its two bytes, low byte first.
    pub fn from_bytes(bytes: [u8; 2]) -> (r: Self)
        ensures
            r.bits == bytes[0] as int + 256 * bytes[1] as int,
    {
        let lo = bytes[0] as u16;
        let hi = bytes[1] as u16;
        proof {
            lemma_word_pair_bits(lo, hi);
        }
        PPULoopy { bits: lo | (hi << 8) }
    }

    /// The two bytes of the register, low byte first.
    pub fn into_bytes(self) -> (r: [u8; 2])
        ensures
            r[0] == self.bits % 256,
            r[1] == self.bits / 256,
    {
        let b = self.bits;
        proof {
            lemma_word_bits(b);
        }
        [(b & 0xFF) as u8, (b >> 8) as u8]
    }

    /// Adds `value` to the whole register, wrapping around at 16 bits.
    pub fn increment(&mut self, value: u16)
        ensures
            final(self).bits == (old(self).bits + value) % 65536,
    {
        self.bits = self.bits.wrapping_add(value);
    }

    /// Applies `function` to the register's word.
    pub fn map<R, F: Fn(u16) -> R>(&self, function: F) -> (r: R)
        requires
            function.requires((self.bits,)),
        ensures
            function.ensures((self.bits,), r),
    {
        function(self.bits)
    }

    /// The fields as words: (fine y, nametable y, nametable x, coarse y, coarse x).
    pub fn dissolve_u16(&self) -> (r: (u16, u16, u16, u16, u16))
        ensures
            r.0 == self.fine_y(),
            r.1 == (if self.nametable_y() { 1int } else { 0 }),
            r.2 == (if self.nametable_x() { 1int } else { 0 }),
            r.3 == self.coarse_y(),
            r.4 == self.coarse_x(),
    {
        (
            self.fine_y() as u16,
            if self.nametable_y() { 1 } else { 0 },
            if self.nametable_x() { 1 } else { 0 },
            self.coarse_y() as u16,
            self.coarse_x() as u16,
        )
    }
}

impl Default for PPULoopy {
    fn default() -> (r: Self)
        ensures
            r.bits == 0,
    {
        PPULoopy { bits: 0 }
    }
}

impl From<u16> for PPULoopy {
    fn from(bits: u16) -> (r: Self) {
        PPULoopy { bits }
    }
}

impl vstd::std_specs::convert::FromSpecImpl<u16> for PPULoopy {
    open spec fn obeys_from_spec() -> bool {
        true
    }

    open spec fn from_spec(bits: u16) -> Self {
        PPULoopy { bits }
    }
}

impl From<PPULoopy> for u16 {
    fn from(loopy: PPULoopy) -> (r: Self) {
        loopy.bits
    }
}

impl vstd::std_specs::convert::FromSpecImpl<PPULoopy> for u16 {
    open spec fn obeys_from_spec() -> bool {
        true
    }

    open spec fn from_spec(loopy: PPULoopy) -> u16 {
        loopy.bits
    }
}

/// The registers the CPU reaches at $2000..$2008, and the PPU's internal helpers.
pub struct PPUControlRegisters {
    pub control: PPUControl,
    pub mask: PPUMask,
    pub status: PPUStatus,
    pub _unused1: u8,
    pub _unused2: u8,
    pub scroll: u8,
    pub data: u8,
    pub vram_address: PPULoopy,
    pub tram_address: PPULoopy,
    pub fine_x: u8,
    pub writing_part: WritingAddressPart,
    pub data_buffer: u8,
}

impl PPUControlRegisters {
    /// All registers zero, the next write going to the high part.
    pub open spec fn initial() -> PPUControlRegisters {
        PPUControlRegisters {
            control: PPUControl { bits: 0 },
            mask: PPUMask { bits: 0 },
            status: PPUStatus { bits: 0 },
            _unused1: 0,
            _unused2: 0,
            scroll: 0,
            data: 0,
            vram_address: PPULoopy { bits: 0 },
            tram_address: PPULoopy { bits: 0 },
            fine_x: 0,
            writing_part: WritingAddressPart::High,
            data_buffer: 0,
        }
    }

    pub open spec fn switched_part(part: WritingAddressPart) -> WritingAddressPart {
        match part {
            WritingAddressPart::High => WritingAddressPart::Low,
            WritingAddressPart::Low => WritingAddressPart::High,
        }
    }

    /// Flips which half the next two-part write fills; nothing else changes.
    pub fn address_part_switch(&mut self)
        ensures
            *final(self) == (PPUControlRegisters {
                writing_part: Self::switched_part(old(self).writing_part),
                ..*old(self)
            }),
    {
        self.writing_part = match self.writing_part {
            WritingAddressPart::High => WritingAddressPart::Low,
            WritingAddressPart::Low => WritingAddressPart::High,
        };
    }
}

impl Default for PPUControlRegisters {
    fn default() -> (r: Self)
        ensures
            r == PPUControlRegisters::initial(),
    {
        PPUControlRegisters {
            control: PPUControl::new(),
            mask: PPUMask::new(),
            status: PPUStatus::new(),
            _unused1: 0,
            _unused2: 0,
            scroll: 0,
            data: 0,
            vram_address: PPULoopy::new(),
            tram_address: PPULoopy::new(),
            fine_x: 0,
            writing_part: WritingAddressPart::High,
            data_buffer: 0,
        }
    }
}

/// Switching the writing part twice gives back the part one started with.
pub proof fn lemma_address_part_switch_involution(part: WritingAddressPart)
    ensures
        PPUControlRegisters::switched_part(PPUControlRegisters::switched_part(part)) == part,
{
}

} // verus!
