//! The PPU's per-dot state machine: background fetches, scrolling, vertical blank,
//! and one background pixel per dot.
use vstd::prelude::*;
use crate::cartridge::{Cartridge, CartridgeState};
use crate::rendering::PixelGrid;
use crate::bit_operations::bit_of;
use vstd::bits::lemma_u16_shr_is_div;
use crate::bit_facts::{lemma_byte_bits, lemma_word_bits, lemma_word_pair_bits, lemma_shift_in_low_bits};
use super::{PPU, PpuState, ppu_read_ok};
use super::ppu_controls::{PPUControlRegisters, PPULoopy, lemma_loopy_word_fields};

verus! {

/// Dots per scanline.
pub const CYCLE_NUMBER: u16 = 341;

/// The scanline after the last one; the counter then starts again at -1.
pub const SCANLINE_NUMBER: i16 = 261;

impl PPUControlRegisters {
    /// Whether the PPU draws anything (background or sprites).
    pub open spec fn rendering_enabled(self) -> bool {
        self.mask.render_background() || self.mask.render_sprites()
    }

    /// One tile to the right, wrapping into the neighbouring nametable after column 31.
    pub open spec fn scrolled_x(self) -> PPUControlRegisters {
        if self.rendering_enabled() {
            let v = self.vram_address;
            if v.coarse_x() == 31 {
                PPUControlRegisters {
                    vram_address: v.with_coarse_x_spec(0).with_nametable_x_spec(!v.nametable_x()),
                    ..self
                }
            } else {
                PPUControlRegisters {
                    vram_address: v.with_coarse_x_spec((v.coarse_x() + 1) as u8),
                    ..self
                }
            }
        } else {
            self
        }
    }

    /// One pixel row down: fine y first, then the tile row, which wraps into the
    /// neighbouring nametable after row 29 (and wraps in place from row 31).
    pub open spec fn scrolled_y(self) -> PPUControlRegisters {
        if self.rendering_enabled() {
            let v = self.vram_address;
            if v.fine_y() < 7 {
                PPUControlRegisters { vram_address: v.with_fine_y_spec((v.fine_y() + 1) as u8), ..self }
            } else {
                let v0 = v.with_fine_y_spec(0);
                if v.coarse_y() == 29 {
                    PPUControlRegisters {
                        vram_address: v0.with_coarse_y_spec(0).with_nametable_y_spec(!v.nametable_y()),
                        ..self
                    }
                } else if v.coarse_y() == 31 {
                    PPUControlRegisters { vram_address: v0.with_coarse_y_spec(0), ..self }
                } else {
                    PPUControlRegisters {
                        vram_address: v0.with_coarse_y_spec((v.coarse_y() + 1) as u8),
                        ..self
                    }
                }
            }
        } else {
            self
        }
    }

    /// The horizontal part of the temporary address copied into the current one.
    pub open spec fn transferred_x(self) -> PPUControlRegisters {
        if self.rendering_enabled() {
            PPUControlRegisters {
                vram_address: self.vram_address.with_nametable_x_spec(
                    self.tram_address.nametable_x(),
                ).with_coarse_x_spec(self.tram_address.coarse_x()),
                ..self
            }
        } else {
            self
        }
    }

    /// The vertical part of the temporary address copied into the current one.
    pub open spec fn transferred_y(self) -> PPUControlRegisters {
        if self.rendering_enabled() {
            PPUControlRegisters {
                vram_address: self.vram_address.with_fine_y_spec(
                    self.tram_address.fine_y(),
                ).with_nametable_y_spec(self.tram_address.nametable_y()).with_coarse_y_spec(
                    self.tram_address.coarse_y(),
                ),
                ..self
            }
        } else {
            self
        }
    }
}

/// The low byte of a shifter replaced by `low`.
pub open spec fn reload(shifter: u16, low: int) -> u16 {
    ((shifter / 256) * 256 + low) as u16
}

/// Whether the dot is one where background data is fetched.
pub open spec fn in_fetch_window(cycle: u16) -> bool {
    (2 <= cycle < 258) || (321 <= cycle < 338)
}

/// The nametable address of the next tile id.
pub open spec fn tile_id_address(v: PPULoopy) -> u16 {
    (0x2000 + v.bits % 4096) as u16
}

/// The attribute byte address for the tile the loopy register points at.
pub open spec fn attribute_address(v: PPULoopy) -> u16 {
    (0x23C0 + (if v.nametable_y() { 0x800int } else { 0 }) + (if v.nametable_x() {
        0x400int
    } else {
        0
    }) + (v.coarse_y() / 4) * 8 + v.coarse_x() / 4) as u16
}

/// The two attribute bits of the 2x2-tile quadrant the loopy register is in.
pub open spec fn attribute_bits(attribute: u8, v: PPULoopy) -> u8 {
    let shifted = if (v.coarse_y() / 2) % 2 == 1 {
        attribute / 16
    } else {
        attribute
    };
    let shifted2 = if (v.coarse_x() / 2) % 2 == 1 {
        shifted / 4
    } else {
        shifted
    };
    (shifted2 % 4) as u8
}

/// The pattern address of the low bit plane of the next tile's current row
/// (the high plane is 8 bytes further).
pub open spec fn pattern_address(s: PpuState) -> int {
    (if s.ppu_controls.control.pattern_background() { 0x1000int } else { 0 })
        + s.bg_next_tile_id as int * 16 + s.ppu_controls.vram_address.fine_y() as int
}

impl PpuState {
    pub open spec fn with_controls(self, c: PPUControlRegisters) -> PpuState {
        PpuState { ppu_controls: c, ..self }
    }

    /// The shifters loaded with the next tile's pattern bytes and its attribute,
    /// spread to a whole byte.
    pub open spec fn shifters_loaded(self) -> PpuState {
        PpuState {
            bg_shifter_pattern_lo: reload(self.bg_shifter_pattern_lo, self.bg_next_tile_lsb as int),
            bg_shifter_pattern_hi: reload(self.bg_shifter_pattern_hi, self.bg_next_tile_msb as int),
            bg_shifter_attrib_lo: reload(
                self.bg_shifter_attrib_lo,
                if self.bg_next_tile_attrib % 2 == 1 { 0xFF } else { 0 },
            ),
            bg_shifter_attrib_hi: reload(
                self.bg_shifter_attrib_hi,
                if (self.bg_next_tile_attrib / 2) % 2 == 1 { 0xFF } else { 0 },
            ),
            ..self
        }
    }

    /// Every shifter moved one bit up, when the background is drawn.
    pub open spec fn shifters_shifted(self) -> PpuState {
        if self.ppu_controls.mask.render_background() {
            PpuState {
                bg_shifter_pattern_lo: ((self.bg_shifter_pattern_lo * 2) % 65536) as u16,
                bg_shifter_pattern_hi: ((self.bg_shifter_pattern_hi * 2) % 65536) as u16,
                bg_shifter_attrib_lo: ((self.bg_shifter_attrib_lo * 2) % 65536) as u16,
                bg_shifter_attrib_hi: ((self.bg_shifter_attrib_hi * 2) % 65536) as u16,
                ..self
            }
        } else {
            self
        }
    }

    /// Whether the background fetch of this dot reads only what can be read.
    pub open spec fn fetch_ok(self, cartridge: CartridgeState) -> bool {
        let step = (self.cycle - 1) % 8;
        &&& (step == 4 ==> ppu_read_ok(cartridge, pattern_address(self) as u16))
        &&& (step == 6 ==> ppu_read_ok(cartridge, (pattern_address(self) + 8) as u16))
    }

    /// The background fetch of a dot in the fetch window, by its place in the
    /// eight-dot tile cycle.
    pub open spec fn fetched(self, cartridge: CartridgeState) -> PpuState {
        let v = self.ppu_controls.vram_address;
        let step = (self.cycle - 1) % 8;
        if step == 0 {
            let s = self.shifters_loaded();
            PpuState { bg_next_tile_id: s.read_value(cartridge, tile_id_address(v)), ..s }
        } else if step == 2 {
            PpuState {
                bg_next_tile_attrib: attribute_bits(
                    self.read_value(cartridge, attribute_address(v)),
                    v,
                ),
                ..self
            }
        } else if step == 4 {
            PpuState {
                bg_next_tile_lsb: self.read_value(cartridge, pattern_address(self) as u16),
                ..self
            }
        } else if step == 6 {
            PpuState {
                bg_next_tile_msb: self.read_value(cartridge, (pattern_address(self) + 8) as u16),
                ..self
            }
        } else if step == 7 {
            self.with_controls(self.ppu_controls.scrolled_x())
        } else {
            self
        }
    }

    /// The dot counter after the odd-frame skip at the start of scanline 0.
    pub open spec fn skipped(self) -> PpuState {
        if self.scanline == 0 && self.cycle == 0 {
            PpuState { cycle: 1, ..self }
        } else {
            self
        }
    }

    pub open spec fn visible_ok(self, cartridge: CartridgeState) -> bool {
        let s = self.skipped();
        in_fetch_window(s.cycle) ==> s.shifters_shifted().fetch_ok(cartridge)
    }

    /// What a dot of the pre-render or a visible scanline (-1..240) does besides drawing.
    pub open spec fn visible_step(self, cartridge: CartridgeState) -> PpuState {
        let s0 = self.skipped();
        let s1 = if s0.scanline == -1 && s0.cycle == 1 {
            s0.with_controls(
                PPUControlRegisters {
                    status: s0.ppu_controls.status.with_vertical_blank_spec(false),
                    ..s0.ppu_controls
                },
            )
        } else {
            s0
        };
        let s2 = if in_fetch_window(s1.cycle) {
            s1.shifters_shifted().fetched(cartridge)
        } else {
            s1
        };
        let s3 = if s2.cycle == 256 {
            s2.with_controls(s2.ppu_controls.scrolled_y())
        } else {
            s2
        };
        let s4 = if s3.cycle == 257 {
            let l = s3.shifters_loaded();
            l.with_controls(l.ppu_controls.transferred_x())
        } else {
            s3
        };
        let s5 = if s4.cycle == 338 || s4.cycle == 340 {
            PpuState {
                bg_next_tile_id: s4.read_value(cartridge, tile_id_address(s4.ppu_controls.vram_address)),
                ..s4
            }
        } else {
            s4
        };
        if s5.scanline == -1 && 280 <= s5.cycle < 305 {
            s5.with_controls(s5.ppu_controls.transferred_y())
        } else {
            s5
        }
    }

    /// At the start of scanline 241 the vertical blank begins, with an NMI when enabled.
    pub open spec fn vblank_step(self) -> PpuState {
        if self.scanline == 241 && self.cycle == 1 {
            let c = PPUControlRegisters {
                status: self.ppu_controls.status.with_vertical_blank_spec(true),
                ..self.ppu_controls
            };
            PpuState {
                ppu_controls: c,
                nmi: if c.control.enable_nmi() { true } else { self.nmi },
                ..self
            }
        } else {
            self
        }
    }

    /// Bit `15 - fine_x` of a shifter.
    pub open spec fn shifter_bit(shifter: u16, fine_x: u8) -> u8 {
        if shifter & (0x8000u16 >> fine_x) != 0 {
            1
        } else {
            0
        }
    }

    /// The background pixel (2 bits) and palette (2 bits) of this dot.
    pub open spec fn background_pixel(self) -> (u8, u8) {
        if self.ppu_controls.mask.render_background() {
            let fx = self.ppu_controls.fine_x;
            (
                (Self::shifter_bit(self.bg_shifter_pattern_hi, fx) * 2 + Self::shifter_bit(
                    self.bg_shifter_pattern_lo,
                    fx,
                )) as u8,
                (Self::shifter_bit(self.bg_shifter_attrib_hi, fx) * 2 + Self::shifter_bit(
                    self.bg_shifter_attrib_lo,
                    fx,
                )) as u8,
            )
        } else {
            (0, 0)
        }
    }

    /// Where the pixel of this dot goes in the screen buffer.
    pub open spec fn pixel_index(self) -> int {
        self.scanline * self.screen.width + (self.cycle - 1)
    }

    pub open spec fn draw_ok(self) -> bool {
        &&& self.cycle >= 1
        &&& self.scanline >= 0
        &&& self.pixel_index() < self.screen.pixels.len()
        &&& (self.ppu_controls.mask.render_background() ==> self.ppu_controls.fine_x < 16)
    }

    /// The pixel of this dot drawn in its palette colour.
    pub open spec fn drawn(self) -> PpuState {
        let (pixel, palette) = self.background_pixel();
        PpuState {
            screen: PixelGrid {
                pixels: self.screen.pixels.update(self.pixel_index(), self.color_value(palette, pixel)),
                ..self.screen
            },
            ..self
        }
    }

    /// The dot counter moves on; after the last dot the scanline does, and after the
    /// last scanline the frame is complete.
    pub open spec fn advanced(self) -> PpuState {
        let cycle = self.cycle + 1;
        if cycle >= 341 {
            let scanline = self.scanline + 1;
            if scanline >= 261 {
                PpuState { cycle: 0, scanline: -1i16, frame_complete: true, ..self }
            } else {
                PpuState { cycle: 0, scanline: scanline as i16, ..self }
            }
        } else {
            PpuState { cycle: cycle as u16, ..self }
        }
    }

    /// Whether the scanline is the pre-render line or a visible one.
    pub open spec fn in_visible_lines(self) -> bool {
        -1 <= self.scanline < 240
    }

    pub open spec fn clock_ok(self, cartridge: CartridgeState) -> bool {
        let s = if self.in_visible_lines() {
            self.visible_step(cartridge)
        } else {
            self
        };
        &&& self.in_visible_lines() ==> self.visible_ok(cartridge)
        &&& s.vblank_step().draw_ok()
        &&& self.cycle < 0xFFFF
        &&& self.scanline < 0x7FFF
    }

    /// One PPU dot.
    pub open spec fn clock(self, cartridge: CartridgeState) -> PpuState {
        let s = if self.in_visible_lines() {
            self.visible_step(cartridge)
        } else {
            self
        };
        s.vblank_step().drawn().advanced()
    }
}

impl PPU {
    /// One pixel row down (see `PPUControlRegisters::scrolled_y`).
    pub fn increment_scroll_y(ppu_controls: &mut PPUControlRegisters)
        ensures
            *final(ppu_controls) == old(ppu_controls).scrolled_y(),
    {
        if ppu_controls.mask.render_background() || ppu_controls.mask.render_sprites() {
            if ppu_controls.vram_address.fine_y() < 7 {
                let fine_y = ppu_controls.vram_address.fine_y();
                ppu_controls.vram_address.set_fine_y(fine_y + 1);
                return ;
            }
            let coarse_y = ppu_controls.vram_address.coarse_y();
            let nametable_y = ppu_controls.vram_address.nametable_y();
            ppu_controls.vram_address.set_fine_y(0);
            if coarse_y == 29 {
                ppu_controls.vram_address.set_coarse_y(0);
                ppu_controls.vram_address.set_nametable_y(!nametable_y);
            } else if coarse_y == 31 {
                ppu_controls.vram_address.set_coarse_y(0);
            } else {
                ppu_controls.vram_address.set_coarse_y(coarse_y + 1);
            }
        }
    }

    /// One tile to the right (see `PPUControlRegisters::scrolled_x`).
    fn increment_scroll_x(ppu_controls: &mut PPUControlRegisters)
        ensures
            *final(ppu_controls) == old(ppu_controls).scrolled_x(),
    {
        if ppu_controls.mask.render_background() || ppu_controls.mask.render_sprites() {
            let coarse_x = ppu_controls.vram_address.coarse_x();
            if coarse_x == 31 {
                let nametable_x = ppu_controls.vram_address.nametable_x();
                ppu_controls.vram_address.set_coarse_x(0);
                ppu_controls.vram_address.set_nametable_x(!nametable_x);
            } else {
                ppu_controls.vram_address.set_coarse_x(coarse_x + 1);
            }
        }
    }

    fn transfer_address_x(ppu_controls: &mut PPUControlRegisters)
        ensures
            *final(ppu_controls) == old(ppu_controls).transferred_x(),
    {
        if ppu_controls.mask.render_background() || ppu_controls.mask.render_sprites() {
            let nametable_x = ppu_controls.tram_address.nametable_x();
            let coarse_x = ppu_controls.tram_address.coarse_x();
            ppu_controls.vram_address.set_nametable_x(nametable_x);
            ppu_controls.vram_address.set_coarse_x(coarse_x);
        }
    }

    fn transfer_address_y(ppu_controls: &mut PPUControlRegisters)
        ensures
            *final(ppu_controls) == old(ppu_controls).transferred_y(),
    {
        if ppu_controls.mask.render_background() || ppu_controls.mask.render_sprites() {
            let fine_y = ppu_controls.tram_address.fine_y();
            let nametable_y = ppu_controls.tram_address.nametable_y();
            let coarse_y = ppu_controls.tram_address.coarse_y();
            ppu_controls.vram_address.set_fine_y(fine_y);
            ppu_controls.vram_address.set_nametable_y(nametable_y);
            ppu_controls.vram_address.set_coarse_y(coarse_y);
        }
    }

    /// Loads the next tile's pattern bytes and attribute into the shifters.
    fn load_background_shifters(&mut self)
        ensures
            final(self)@ == old(self)@.shifters_loaded(),
    {
        let lo = self.bg_shifter_pattern_lo;
        let hi = self.bg_shifter_pattern_hi;
        let alo = self.bg_shifter_attrib_lo;
        let ahi = self.bg_shifter_attrib_hi;
        let lsb = self.bg_next_tile_lsb as u16;
        let msb = self.bg_next_tile_msb as u16;
        let attrib = self.bg_next_tile_attrib;
        proof {
            lemma_word_pair_bits(lo, lsb);
            lemma_word_pair_bits(hi, msb);
            lemma_word_pair_bits(alo, 0xFF);
            lemma_word_pair_bits(alo, 0);
            lemma_word_pair_bits(ahi, 0xFF);
            lemma_word_pair_bits(ahi, 0);
            lemma_byte_bits(attrib);
        }
        self.bg_shifter_pattern_lo = (lo & 0xFF00) | lsb;
        self.bg_shifter_pattern_hi = (hi & 0xFF00) | msb;
        self.bg_shifter_attrib_lo = (alo & 0xFF00) | (if attrib & 0b01 != 0 {
            0xFF
        } else {
            0x00
        });
        self.bg_shifter_attrib_hi = (ahi & 0xFF00) | (if attrib & 0b10 != 0 {
            0xFF
        } else {
            0x00
        });
    }

    /// Shifts every background shifter by one bit, when the background is drawn.
    fn update_shifters(&mut self)
        ensures
            final(self)@ == old(self)@.shifters_shifted(),
    {
        if self.ppu_controls.mask.render_background() {
            proof {
                lemma_word_bits(self.bg_shifter_pattern_lo);
                lemma_word_bits(self.bg_shifter_pattern_hi);
                lemma_word_bits(self.bg_shifter_attrib_lo);
                lemma_word_bits(self.bg_shifter_attrib_hi);
            }
            self.bg_shifter_pattern_lo = self.bg_shifter_pattern_lo << 1;
            self.bg_shifter_pattern_hi = self.bg_shifter_pattern_hi << 1;
            self.bg_shifter_attrib_lo = self.bg_shifter_attrib_lo << 1;
            self.bg_shifter_attrib_hi = self.bg_shifter_attrib_hi << 1;
        }
    }

    fn read_tile_id(&mut self, cartridge: &Cartridge)
        ensures
            final(self)@ == (PpuState {
                bg_next_tile_id: old(self)@.read_value(
                    cartridge@,
                    tile_id_address(old(self).ppu_controls.vram_address),
                ),
                ..old(self)@
            }),
    {
        let v = u16::from(self.ppu_controls.vram_address);
        proof {
            lemma_word_bits(v);
        }
        self.bg_next_tile_id = self.read(0x2000 | (v & 0x0FFF), cartridge);
    }

    /// The background fetch of a dot in the fetch window (see `PpuState::fetched`).
    fn background_fetch(&mut self, cartridge: &Cartridge)
        requires
            old(self).cycle >= 1,
            old(self)@.fetch_ok(cartridge@),
        ensures
            final(self)@ == old(self)@.fetched(cartridge@),
    {
        let step = (self.cycle - 1) % 8;
        if step == 0 {
            self.load_background_shifters();
            self.read_tile_id(cartridge);
        } else if step == 2 {
            let v = self.ppu_controls.vram_address;
            let ny = if v.nametable_y() { 1u16 } else { 0u16 };
            let nx = if v.nametable_x() { 1u16 } else { 0u16 };
            let cy = v.coarse_y() as u16;
            let cx = v.coarse_x() as u16;
            let address = 0x23C0 | (ny << 11) | (nx << 10) | ((cy >> 2) << 3) | (cx >> 2);
            proof {
                assert(0x23C0u16 | (ny << 11u16) | (nx << 10u16) | ((cy >> 2u16) << 3u16) | (cx
                    >> 2u16) == 0x23C0 + 0x800 * ny + 0x400 * nx + (cy / 4) * 8 + cx / 4)
                    by (bit_vector)
                    requires
                        ny < 2,
                        nx < 2,
                        cy < 32,
                        cx < 32,
                ;
            }
            let mut attrib = self.read(address, cartridge);
            let ghost raw = attrib;
            proof {
                lemma_word_bits(cy);
                lemma_word_bits(cx);
                lemma_byte_bits(raw);
                lemma_byte_bits(raw >> 4u8);
                lemma_byte_bits(raw >> 2u8);
                lemma_byte_bits((raw >> 4u8) >> 2u8);
            }
            if cy & 0x02 != 0 {
                attrib = attrib >> 4;
            }
            if cx & 0x02 != 0 {
                attrib = attrib >> 2;
            }
            self.bg_next_tile_attrib = attrib & 0x03;
        } else if step == 4 || step == 6 {
            let pb = if self.ppu_controls.control.pattern_background() { 1u16 } else { 0u16 };
            let id = self.bg_next_tile_id as u16;
            let fy = self.ppu_controls.vram_address.fine_y() as u16;
            proof {
                assert((pb << 12u16) + (id << 4u16) + fy == pb * 4096 + id * 16 + fy) by (bit_vector)
                    requires
                        pb < 2,
                        id < 256,
                        fy < 8,
                ;
            }
            let address = (pb << 12) + (id << 4) + fy;
            if step == 4 {
                self.bg_next_tile_lsb = self.read(address, cartridge);
            } else {
                self.bg_next_tile_msb = self.read(address + 8, cartridge);
            }
        } else if step == 7 {
            Self::increment_scroll_x(&mut self.ppu_controls);
        }
    }

    /// What a dot of the pre-render or a visible scanline does besides drawing.
    fn visible_step(&mut self, cartridge: &Cartridge)
        requires
            old(self)@.visible_ok(cartridge@),
        ensures
            final(self)@ == old(self)@.visible_step(cartridge@),
    {
        if self.scanline == 0 && self.cycle == 0 {
            // odd frame cycle skip
            self.cycle = 1;
        }
        if self.scanline == -1 && self.cycle == 1 {
            // start of a new frame
            self.ppu_controls.status.set_vertical_blank(false);
        }
        if (2 <= self.cycle && self.cycle < 258) || (321 <= self.cycle && self.cycle < 338) {
            self.update_shifters();
            self.background_fetch(cartridge);
        }
        if self.cycle == 256 {
            Self::increment_scroll_y(&mut self.ppu_controls);
        }
        if self.cycle == 257 {
            self.load_background_shifters();
            Self::transfer_address_x(&mut self.ppu_controls);
        }
        if self.cycle == 338 || self.cycle == 340 {
            // superfluous reads of the tile id at the end of the scanline
            self.read_tile_id(cartridge);
        }
        if self.scanline == -1 && 280 <= self.cycle && self.cycle < 305 {
            // end of vertical blank: the vertical scroll is reloaded
            Self::transfer_address_y(&mut self.ppu_controls);
        }
    }

    fn vblank_step(&mut self)
        ensures
            final(self)@ == old(self)@.vblank_step(),
    {
        if self.scanline == 241 && self.cycle == 1 {
            self.ppu_controls.status.set_vertical_blank(true);
            if self.ppu_controls.control.enable_nmi() {
                self.nmi = true;
            }
        }
    }

    /// Draws the background pixel of this dot.
    fn draw_pixel(&mut self)
        requires
            old(self)@.draw_ok(),
        ensures
            final(self)@ == old(self)@.drawn(),
    {
        let mut bg_pixel: u8 = 0x00;
        let mut bg_palette: u8 = 0x00;
        if self.ppu_controls.mask.render_background() {
            let bit_mux: u16 = 0x8000 >> self.ppu_controls.fine_x;
            let p0_pixel: u8 = if (self.bg_shifter_pattern_lo & bit_mux) > 0 { 1 } else { 0 };
            let p1_pixel: u8 = if (self.bg_shifter_pattern_hi & bit_mux) > 0 { 1 } else { 0 };
            bg_pixel = (p1_pixel << 1) | p0_pixel;
            let bg_pal0: u8 = if (self.bg_shifter_attrib_lo & bit_mux) > 0 { 1 } else { 0 };
            let bg_pal1: u8 = if (self.bg_shifter_attrib_hi & bit_mux) > 0 { 1 } else { 0 };
            bg_palette = (bg_pal1 << 1) | bg_pal0;
            proof {
                lemma_shift_in_low_bits(p1_pixel, p0_pixel);
                lemma_shift_in_low_bits(bg_pal1, bg_pal0);
            }
        }
        let color = self.get_color_value_from_pallet_ram(bg_palette, bg_pixel);
        let x = (self.cycle - 1) as usize;
        let y = self.scanline as usize;
        self.screen.set_pixel(x, y, color);
    }

    /// Moves to the next dot, scanline and frame.
    fn advance(&mut self)
        requires
            old(self).cycle < 0xFFFF,
            old(self).scanline < 0x7FFF,
        ensures
            final(self)@ == old(self)@.advanced(),
    {
        self.cycle = self.cycle + 1;
        if self.cycle >= CYCLE_NUMBER {
            self.cycle = 0;
            self.scanline = self.scanline + 1;
            if self.scanline >= SCANLINE_NUMBER {
                self.scanline = -1;
                self.frame_complete = true;
            }
        }
    }

    /// One PPU dot (see `PpuState::clock`).
    pub fn clock(&mut self, cartridge: &Cartridge)
        requires
            old(self)@.clock_ok(cartridge@),
        ensures
            final(self)@ == old(self)@.clock(cartridge@),
    {
        if -1 <= self.scanline && self.scanline < 240 {
            self.visible_step(cartridge);
        }
        self.vblank_step();
        self.draw_pixel();
        self.advance();
    }
}


/// The horizontal tile position across the two nametables side by side: 0..64.
pub open spec fn tile_column(v: PPULoopy) -> int {
    (if v.nametable_x() { 32int } else { 0 }) + v.coarse_x()
}

/// The vertical pixel position across the two nametables stacked: 0..480 on the
/// 30 visible tile rows.
pub open spec fn pixel_row(v: PPULoopy) -> int {
    (if v.nametable_y() { 240int } else { 0 }) + v.coarse_y() * 8 + v.fine_y()
}

/// Scrolling one tile right moves the tile column by one, around the 64 columns of
/// the two nametables, and leaves the vertical fields alone; with rendering off,
/// nothing moves.
#[verifier::rlimit(40)]
pub proof fn lemma_scroll_x_steps(c: PPUControlRegisters)
    ensures
        c.rendering_enabled() ==> tile_column(c.scrolled_x().vram_address) == (tile_column(
            c.vram_address,
        ) + 1) % 64,
        c.scrolled_x().vram_address.coarse_y() == c.vram_address.coarse_y(),
        c.scrolled_x().vram_address.nametable_y() == c.vram_address.nametable_y(),
        c.scrolled_x().vram_address.fine_y() == c.vram_address.fine_y(),
        !c.rendering_enabled() ==> c.scrolled_x() == c,
{
    let v = c.vram_address;
    lemma_loopy_fields(v);
    if c.rendering_enabled() {
        if v.coarse_x() == 31 {
            let w = v.with_coarse_x_spec(0);
            lemma_loopy_fields_coarse_x(v, 0);
            lemma_loopy_fields(w);
            let w2 = w.with_nametable_x_spec(!v.nametable_x());
            assert(w2.nametable_x() == !v.nametable_x());
            assert(w2.coarse_x() == 0);
            assert(c.scrolled_x().vram_address == w2);
        } else {
            lemma_loopy_fields_coarse_x(v, (v.coarse_x() + 1) as u8);
            assert(c.scrolled_x().vram_address == v.with_coarse_x_spec((v.coarse_x() + 1) as u8));
        }
    }
}

/// Scrolling one pixel down moves the pixel row by one, around the 480 visible rows
/// of the two nametables, while the row is a visible one; with rendering off,
/// nothing moves.
#[verifier::rlimit(100)]
pub proof fn lemma_scroll_y_steps(c: PPUControlRegisters)
    requires
        c.vram_address.coarse_y() < 30,
    ensures
        c.rendering_enabled() ==> pixel_row(c.scrolled_y().vram_address) == (pixel_row(
            c.vram_address,
        ) + 1) % 480,
        c.scrolled_y().vram_address.coarse_x() == c.vram_address.coarse_x(),
        c.scrolled_y().vram_address.nametable_x() == c.vram_address.nametable_x(),
        !c.rendering_enabled() ==> c.scrolled_y() == c,
{
    let v = c.vram_address;
    lemma_loopy_fields(v);
    if c.rendering_enabled() {
        if v.fine_y() < 7 {
            lemma_loopy_fields_fine_y(v, (v.fine_y() + 1) as u8);
            assert(c.scrolled_y().vram_address == v.with_fine_y_spec((v.fine_y() + 1) as u8));
        } else {
            let v0 = v.with_fine_y_spec(0);
            lemma_loopy_fields_fine_y(v, 0);
            lemma_loopy_fields(v0);
            if v.coarse_y() == 29 {
                let w = v0.with_coarse_y_spec(0);
                lemma_loopy_fields_coarse_y(v0, 0);
                lemma_loopy_fields(w);
                let w2 = w.with_nametable_y_spec(!v.nametable_y());
                assert(c.scrolled_y().vram_address == w2);
                assert(w2.nametable_y() == !v.nametable_y());
                assert(w2.coarse_y() == 0 && w2.fine_y() == 0);
            } else {
                lemma_loopy_fields_coarse_y(v0, (v.coarse_y() + 1) as u8);
                assert(c.scrolled_y().vram_address == v0.with_coarse_y_spec((v.coarse_y() + 1) as u8));
            }
        }
    }
}

/// Copying the horizontal (vertical) part of the temporary address makes the
/// current address agree with it there, when rendering is on.
pub proof fn lemma_transfers_copy(c: PPUControlRegisters)
    requires
        c.rendering_enabled(),
    ensures
        c.transferred_x().vram_address.coarse_x() == c.tram_address.coarse_x(),
        c.transferred_x().vram_address.nametable_x() == c.tram_address.nametable_x(),
        c.transferred_y().vram_address.coarse_y() == c.tram_address.coarse_y(),
        c.transferred_y().vram_address.nametable_y() == c.tram_address.nametable_y(),
        c.transferred_y().vram_address.fine_y() == c.tram_address.fine_y(),
{
    let v = c.vram_address;
    let t = c.tram_address;
    lemma_loopy_fields(v);
    lemma_loopy_fields(t);
    let vx = v.with_nametable_x_spec(t.nametable_x());
    lemma_loopy_fields(vx);
    lemma_loopy_fields_coarse_x(vx, t.coarse_x());
    assert(c.transferred_x().vram_address == vx.with_coarse_x_spec(t.coarse_x()));
    let vy = v.with_fine_y_spec(t.fine_y());
    lemma_loopy_fields_fine_y(v, t.fine_y());
    lemma_loopy_fields(vy);
    let vz = vy.with_nametable_y_spec(t.nametable_y());
    lemma_loopy_fields(vz);
    lemma_loopy_fields_coarse_y(vz, t.coarse_y());
    assert(c.transferred_y().vram_address == vz.with_coarse_y_spec(t.coarse_y()));
}

/// Bit `15 - fine_x` of a shifter, as the number's own binary digit.
proof fn lemma_shifter_bit(x: u16, fine_x: u8)
    requires
        fine_x < 16,
    ensures
        PpuState::shifter_bit(x, fine_x) as nat == bit_of(x as nat, (15 - fine_x) as nat),
{
    let k = (15 - fine_x) as u16;
    assert((x & (0x8000u16 >> fine_x) != 0) == (((x >> k) & 1u16) == 1u16)) by (bit_vector)
        requires
            fine_x < 16,
            k == 15 - fine_x,
    ;
    lemma_u16_shr_is_div(x, k);
    lemma_word_bits(x >> k);
}

/// The background pixel of a dot takes its low bit from the low pattern shifter and its
/// high bit from the high one, both at bit `15 - fine_x`, and its palette likewise from
/// the two attribute shifters; with background rendering off it is pixel 0 of palette 0.
/// Drawing the dot puts that pixel's colour in its palette into the dot's screen cell.
pub proof fn lemma_background_pixel_planes(p: PpuState)
    requires
        p.ppu_controls.fine_x < 16,
    ensures
        ({
            let (pixel, palette) = p.background_pixel();
            let k = (15 - p.ppu_controls.fine_x) as nat;
            &&& p.ppu_controls.mask.render_background() ==> {
                &&& pixel == 2 * bit_of(p.bg_shifter_pattern_hi as nat, k) + bit_of(
                    p.bg_shifter_pattern_lo as nat,
                    k,
                )
                &&& palette == 2 * bit_of(p.bg_shifter_attrib_hi as nat, k) + bit_of(
                    p.bg_shifter_attrib_lo as nat,
                    k,
                )
            }
            &&& !p.ppu_controls.mask.render_background() ==> pixel == 0 && palette == 0
            &&& 0 <= p.pixel_index() < p.screen.pixels.len() ==> p.drawn().screen.pixels[p.pixel_index()]
                == p.color_value(palette, pixel)
        }),
{
    let fx = p.ppu_controls.fine_x;
    lemma_shifter_bit(p.bg_shifter_pattern_hi, fx);
    lemma_shifter_bit(p.bg_shifter_pattern_lo, fx);
    lemma_shifter_bit(p.bg_shifter_attrib_hi, fx);
    lemma_shifter_bit(p.bg_shifter_attrib_lo, fx);
}

/// The fields of a loopy register and of its variants with one field replaced.
pub proof fn lemma_loopy_fields(v: PPULoopy)
    ensures
        v.coarse_x() < 32,
        v.coarse_y() < 32,
        v.fine_y() < 8,
        0 <= v.top_bit() < 2,
        ({
            let w = v.with_nametable_x_spec(!v.nametable_x());
            &&& w.nametable_x() == !v.nametable_x()
            &&& w.coarse_x() == v.coarse_x() && w.coarse_y() == v.coarse_y()
            &&& w.nametable_y() == v.nametable_y() && w.fine_y() == v.fine_y()
        }),
        ({
            let w = v.with_nametable_y_spec(!v.nametable_y());
            &&& w.nametable_y() == !v.nametable_y()
            &&& w.coarse_x() == v.coarse_x() && w.coarse_y() == v.coarse_y()
            &&& w.nametable_x() == v.nametable_x() && w.fine_y() == v.fine_y()
        }),
        forall|b: bool| {
            let w = #[trigger] v.with_nametable_x_spec(b);
            &&& w.nametable_x() == b
            &&& w.coarse_x() == v.coarse_x() && w.coarse_y() == v.coarse_y()
            &&& w.nametable_y() == v.nametable_y() && w.fine_y() == v.fine_y()
        },
        forall|b: bool| {
            let w = #[trigger] v.with_nametable_y_spec(b);
            &&& w.nametable_y() == b
            &&& w.coarse_x() == v.coarse_x() && w.coarse_y() == v.coarse_y()
            &&& w.nametable_x() == v.nametable_x() && w.fine_y() == v.fine_y()
        },
{
    reveal(PPULoopy::with_coarse_x_spec);
    reveal(PPULoopy::with_coarse_y_spec);
    reveal(PPULoopy::with_nametable_x_spec);
    reveal(PPULoopy::with_nametable_y_spec);
    reveal(PPULoopy::with_fine_y_spec);
    let b = v.bits;
    assert(b % 32 < 32 && (b / 32) % 32 < 32 && (b / 4096) % 8 < 8 && b / 32768 < 2);
    lemma_loopy_word_fields(v.coarse_x() as int, v.coarse_y() as int, !v.nametable_x(), v.nametable_y(), v.fine_y() as int, v.top_bit());
    lemma_loopy_word_fields(v.coarse_x() as int, v.coarse_y() as int, v.nametable_x(), !v.nametable_y(), v.fine_y() as int, v.top_bit());
    assert forall|nb: bool| {
        let w = #[trigger] v.with_nametable_x_spec(nb);
        &&& w.nametable_x() == nb
        &&& w.coarse_x() == v.coarse_x() && w.coarse_y() == v.coarse_y()
        &&& w.nametable_y() == v.nametable_y() && w.fine_y() == v.fine_y()
    } by {
        lemma_loopy_word_fields(v.coarse_x() as int, v.coarse_y() as int, nb, v.nametable_y(), v.fine_y() as int, v.top_bit());
    }
    assert forall|nb: bool| {
        let w = #[trigger] v.with_nametable_y_spec(nb);
        &&& w.nametable_y() == nb
        &&& w.coarse_x() == v.coarse_x() && w.coarse_y() == v.coarse_y()
        &&& w.nametable_x() == v.nametable_x() && w.fine_y() == v.fine_y()
    } by {
        lemma_loopy_word_fields(v.coarse_x() as int, v.coarse_y() as int, v.nametable_x(), nb, v.fine_y() as int, v.top_bit());
    }
}

proof fn lemma_loopy_fields_coarse_x(v: PPULoopy, x: u8)
    requires
        x < 32,
    ensures
        v.with_coarse_x_spec(x).coarse_x() == x,
        v.with_coarse_x_spec(x).coarse_y() == v.coarse_y(),
        v.with_coarse_x_spec(x).nametable_x() == v.nametable_x(),
        v.with_coarse_x_spec(x).nametable_y() == v.nametable_y(),
        v.with_coarse_x_spec(x).fine_y() == v.fine_y(),
{
    reveal(PPULoopy::with_coarse_x_spec);
    reveal(PPULoopy::with_coarse_y_spec);
    reveal(PPULoopy::with_nametable_x_spec);
    reveal(PPULoopy::with_nametable_y_spec);
    reveal(PPULoopy::with_fine_y_spec);
    lemma_loopy_fields(v);
    lemma_loopy_word_fields(x as int, v.coarse_y() as int, v.nametable_x(), v.nametable_y(), v.fine_y() as int, v.top_bit());
}

proof fn lemma_loopy_fields_coarse_y(v: PPULoopy, y: u8)
    requires
        y < 32,
    ensures
        v.with_coarse_y_spec(y).coarse_x() == v.coarse_x(),
        v.with_coarse_y_spec(y).coarse_y() == y,
        v.with_coarse_y_spec(y).nametable_x() == v.nametable_x(),
        v.with_coarse_y_spec(y).nametable_y() == v.nametable_y(),
        v.with_coarse_y_spec(y).fine_y() == v.fine_y(),
{
    reveal(PPULoopy::with_coarse_x_spec);
    reveal(PPULoopy::with_coarse_y_spec);
    reveal(PPULoopy::with_nametable_x_spec);
    reveal(PPULoopy::with_nametable_y_spec);
    reveal(PPULoopy::with_fine_y_spec);
    lemma_loopy_fields(v);
    lemma_loopy_word_fields(v.coarse_x() as int, y as int, v.nametable_x(), v.nametable_y(), v.fine_y() as int, v.top_bit());
}

proof fn lemma_loopy_fields_fine_y(v: PPULoopy, y: u8)
    requires
        y < 8,
    ensures
        v.with_fine_y_spec(y).coarse_x() == v.coarse_x(),
        v.with_fine_y_spec(y).coarse_y() == v.coarse_y(),
        v.with_fine_y_spec(y).nametable_x() == v.nametable_x(),
        v.with_fine_y_spec(y).nametable_y() == v.nametable_y(),
        v.with_fine_y_spec(y).fine_y() == y,
{
    reveal(PPULoopy::with_coarse_x_spec);
    reveal(PPULoopy::with_coarse_y_spec);
    reveal(PPULoopy::with_nametable_x_spec);
    reveal(PPULoopy::with_nametable_y_spec);
    reveal(PPULoopy::with_fine_y_spec);
    lemma_loopy_fields(v);
    lemma_loopy_word_fields(v.coarse_x() as int, v.coarse_y() as int, v.nametable_x(), v.nametable_y(), y as int, v.top_bit());
}
} // verus!
