//! The picture processing unit: its own memory (nametables, palette), its registers,
//! and the per-dot state machine that draws the background.
pub mod ppu_controls;
pub mod ppu_clock;
pub mod debug_view;

use vstd::prelude::*;
use crate::cartridge::{Cartridge, CartridgeState, Mirroring};
use crate::mapper::Mapper;
use crate::ppu::ppu_controls::PPUControlRegisters;
use crate::rendering::{BasicPixelBuffer, NesColor, PixelGrid};

use crate::bit_facts::lemma_word_bits;

verus! {

pub struct PPU {
    /// The two 1 KB nametables held by the console (VRAM).
    pub name_table: [[u8; 1024]; 2],
    pub palette: [u8; 32],
    pub ppu_controls: PPUControlRegisters,
    pub scanline: i16,
    pub cycle: u16,
    pub frame_complete: bool,
    pub nmi: bool,
    pub bg_next_tile_id: u8,
    pub bg_next_tile_attrib: u8,
    pub bg_next_tile_lsb: u8,
    pub bg_next_tile_msb: u8,
    pub bg_shifter_pattern_lo: u16,
    pub bg_shifter_pattern_hi: u16,
    pub bg_shifter_attrib_lo: u16,
    pub bg_shifter_attrib_hi: u16,
    pub screen: BasicPixelBuffer,
    pub pattern_table_screen: BasicPixelBuffer,
}

/// Which of the two nametables a nametable address lands in.
pub open spec fn nametable_slot(mirroring: Mirroring, address: u16) -> int {
    match mirroring {
        Mirroring::Horizontal => ((address as int % 4096) / 1024) % 2,
        Mirroring::Vertical => (address as int % 4096) / 2048,
    }
}

/// Where in the palette a palette address lands: every fourth entry shares entry 0.
pub open spec fn palette_slot(address: int) -> int {
    if address % 4 == 0 {
        0
    } else {
        address % 32
    }
}

/// Whether a read of `address` on the PPU bus is defined.
pub open spec fn ppu_read_ok(cartridge: CartridgeState, address: u16) -> bool {
    ||| (address < 0x2000 && cartridge.ppu_read_ok(address))
    ||| (0x2000 <= address < 0x3000)
    ||| (0x3F00 <= address < 0x4000)
}

/// Whether a write to `address` on the PPU bus is defined.
pub open spec fn ppu_write_ok(cartridge: CartridgeState, address: u16) -> bool {
    ||| (address < 0x2000 && cartridge.ppu_write_ok(address))
    ||| (0x2000 <= address < 0x3000)
    ||| (0x3F00 <= address < 0x4000)
}

/// The cartridge after a write on the PPU bus: only pattern addresses reach it.
pub open spec fn cartridge_after_ppu_write(
    cartridge: CartridgeState,
    address: u16,
    data: u8,
) -> CartridgeState {
    if address < 0x2000 {
        cartridge.ppu_written(address, data)
    } else {
        cartridge
    }
}

/// The PPU as the specifications see it.
#[verifier::ext_equal]
pub struct PpuState {
    pub name_table_0: Seq<u8>,
    pub name_table_1: Seq<u8>,
    pub palette: Seq<u8>,
    pub ppu_controls: PPUControlRegisters,
    pub scanline: i16,
    pub cycle: u16,
    pub frame_complete: bool,
    pub nmi: bool,
    pub bg_next_tile_id: u8,
    pub bg_next_tile_attrib: u8,
    pub bg_next_tile_lsb: u8,
    pub bg_next_tile_msb: u8,
    pub bg_shifter_pattern_lo: u16,
    pub bg_shifter_pattern_hi: u16,
    pub bg_shifter_attrib_lo: u16,
    pub bg_shifter_attrib_hi: u16,
    pub screen: PixelGrid,
    pub pattern_table_screen: PixelGrid,
}

impl PpuState {
    pub open spec fn nametable(self, slot: int) -> Seq<u8> {
        if slot == 0 {
            self.name_table_0
        } else {
            self.name_table_1
        }
    }

    /// What a read of `address` on the PPU bus gives.
    pub open spec fn read_value(self, cartridge: CartridgeState, address: u16) -> u8 {
        if address < 0x2000 {
            cartridge.ppu_read_value(address)
        } else if address < 0x3000 {
            self.nametable(nametable_slot(cartridge.mirroring, address))[address as int % 1024]
        } else {
            self.palette[palette_slot(address as int)]
        }
    }

    /// The PPU after writing `data` to `address`: one nametable cell or one palette
    /// entry changes; a pattern address leaves the PPU itself unchanged.
    pub open spec fn written(self, cartridge: CartridgeState, address: u16, data: u8) -> PpuState {
        if 0x2000 <= address < 0x3000 {
            let offset = address as int % 1024;
            if nametable_slot(cartridge.mirroring, address) == 0 {
                PpuState { name_table_0: self.name_table_0.update(offset, data), ..self }
            } else {
                PpuState { name_table_1: self.name_table_1.update(offset, data), ..self }
            }
        } else if 0x3F00 <= address < 0x4000 {
            PpuState { palette: self.palette.update(palette_slot(address as int), data), ..self }
        } else {
            self
        }
    }

    /// Where palette `pallette_id`, entry `pixel_id`, lands in palette memory.
    pub open spec fn color_slot(pallette_id: u8, pixel_id: u8) -> int {
        palette_slot(pallette_id as int * 4 + pixel_id as int)
    }

    pub open spec fn color_value(self, pallette_id: u8, pixel_id: u8) -> u8 {
        self.palette[Self::color_slot(pallette_id, pixel_id)]
    }
}

impl View for PPU {
    type V = PpuState;

    open spec fn view(&self) -> PpuState {
        PpuState {
            name_table_0: self.name_table[0]@,
            name_table_1: self.name_table[1]@,
            palette: self.palette@,
            ppu_controls: self.ppu_controls,
            scanline: self.scanline,
            cycle: self.cycle,
            frame_complete: self.frame_complete,
            nmi: self.nmi,
            bg_next_tile_id: self.bg_next_tile_id,
            bg_next_tile_attrib: self.bg_next_tile_attrib,
            bg_next_tile_lsb: self.bg_next_tile_lsb,
            bg_next_tile_msb: self.bg_next_tile_msb,
            bg_shifter_pattern_lo: self.bg_shifter_pattern_lo,
            bg_shifter_pattern_hi: self.bg_shifter_pattern_hi,
            bg_shifter_attrib_lo: self.bg_shifter_attrib_lo,
            bg_shifter_attrib_hi: self.bg_shifter_attrib_hi,
            screen: self.screen@,
            pattern_table_screen: self.pattern_table_screen@,
        }
    }
}

impl PPU {
    /// The state of a new PPU drawing into the two given buffers.
    pub open spec fn new_state(screen: PixelGrid, pattern_table_screen: PixelGrid) -> PpuState {
        PpuState {
            name_table_0: Seq::new(1024, |i: int| 0u8),
            name_table_1: Seq::new(1024, |i: int| 0u8),
            palette: Seq::new(32, |i: int| 0u8),
            ppu_controls: PPUControlRegisters::initial(),
            scanline: 0,
            cycle: 0,
            frame_complete: false,
            nmi: false,
            bg_next_tile_id: 0,
            bg_next_tile_attrib: 0,
            bg_next_tile_lsb: 0,
            bg_next_tile_msb: 0,
            bg_shifter_pattern_lo: 0,
            bg_shifter_pattern_hi: 0,
            bg_shifter_attrib_lo: 0,
            bg_shifter_attrib_hi: 0,
            screen,
            pattern_table_screen,
        }
    }

    pub fn new(screen_buffer: BasicPixelBuffer, pattern_table_screen: BasicPixelBuffer) -> (r: Self)
        ensures
            r@.name_table_0 == Seq::new(1024, |i: int| 0u8),
            r@.name_table_1 == Seq::new(1024, |i: int| 0u8),
            r@.palette == Seq::new(32, |i: int| 0u8),
            r.ppu_controls == PPUControlRegisters::initial(),
            r.scanline == 0,
            r.cycle == 0,
            !r.frame_complete,
            !r.nmi,
            r.bg_next_tile_id == 0,
            r.bg_next_tile_attrib == 0,
            r.bg_next_tile_lsb == 0,
            r.bg_next_tile_msb == 0,
            r.bg_shifter_pattern_lo == 0,
            r.bg_shifter_pattern_hi == 0,
            r.bg_shifter_attrib_lo == 0,
            r.bg_shifter_attrib_hi == 0,
            r.screen == screen_buffer,
            r.pattern_table_screen == pattern_table_screen,
            r@ == Self::new_state(screen_buffer@, pattern_table_screen@),
    {
        let r = PPU {
            name_table: [[0u8; 1024]; 2],
            palette: [0u8; 32],
            ppu_controls: PPUControlRegisters::default(),
            scanline: 0,
            cycle: 0,
            frame_complete: false,
            nmi: false,
            bg_next_tile_id: 0x00,
            bg_next_tile_attrib: 0x00,
            bg_next_tile_lsb: 0x00,
            bg_next_tile_msb: 0x00,
            bg_shifter_pattern_lo: 0x0000,
            bg_shifter_pattern_hi: 0x0000,
            bg_shifter_attrib_lo: 0x0000,
            bg_shifter_attrib_hi: 0x0000,
            screen: screen_buffer,
            pattern_table_screen,
        };
        assert(r.name_table[0]@ =~= Seq::new(1024, |i: int| 0u8));
        assert(r.name_table[1]@ =~= Seq::new(1024, |i: int| 0u8));
        assert(r.palette@ =~= Seq::new(32, |i: int| 0u8));
        r
    }

    pub fn read(&self, address: u16, cartridge: &Cartridge) -> (r: u8)
        requires
            ppu_read_ok(cartridge@, address),
        ensures
            r == self@.read_value(cartridge@, address),
    {
        if address < 0x2000 {
            cartridge.ppu_read(address)
        } else if address < 0x3000 {
            let offset = (address & 0x03FF) as usize;
            let folded = address & 0x0FFF;
            proof {
                lemma_word_bits(address);
            }
            match cartridge.mirroring {
                Mirroring::Horizontal => {
                    if folded < 0x0400 || (0x0800 <= folded && folded < 0x0C00) {
                        self.name_table[0][offset]
                    } else {
                        self.name_table[1][offset]
                    }
                },
                Mirroring::Vertical => {
                    if folded < 0x0800 {
                        self.name_table[0][offset]
                    } else {
                        self.name_table[1][offset]
                    }
                },
            }
        } else {
            let mirrored_address = if address & 0x03 == 0 {
                0
            } else {
                address & 0x1F
            };
            proof {
                lemma_word_bits(address);
            }
            self.palette[mirrored_address as usize]
        }
    }

    pub fn write(&mut self, address: u16, data: u8, cartridge: &mut Cartridge)
        requires
            ppu_write_ok(old(cartridge)@, address),
        ensures
            final(self)@ == old(self)@.written(old(cartridge)@, address, data),
            final(cartridge)@ == cartridge_after_ppu_write(old(cartridge)@, address, data),
    {
        if address < 0x2000 {
            cartridge.ppu_write(address, data);
        } else if address < 0x3000 {
            let offset = (address & 0x03FF) as usize;
            let folded = address & 0x0FFF;
            proof {
                lemma_word_bits(address);
            }
            let slot: usize = match cartridge.mirroring {
                Mirroring::Horizontal => {
                    if folded < 0x0400 || (0x0800 <= folded && folded < 0x0C00) {
                        0
                    } else {
                        1
                    }
                },
                Mirroring::Vertical => {
                    if folded < 0x0800 {
                        0
                    } else {
                        1
                    }
                },
            };
            assert(slot == nametable_slot(cartridge.mirroring, address));
            let mut table = self.name_table[slot];
            table[offset] = data;
            self.name_table[slot] = table;
        } else {
            let mirrored_address = if address & 0x03 == 0 {
                0
            } else {
                address & 0x1F
            };
            proof {
                lemma_word_bits(address);
            }
            self.palette[mirrored_address as usize] = data;
        }
    }

    pub fn get_color_value_from_pallet_ram(&self, pallette_id: u8, pixel_id: u8) -> (r: NesColor)
        ensures
            r == self@.color_value(pallette_id, pixel_id),
    {
        let initial_address: u16 = (pallette_id as u16 * 4) + pixel_id as u16;
        proof {
            lemma_word_bits(initial_address);
        }
        let mirrored_address = if initial_address & 0x03 == 0 {
            0
        } else {
            initial_address & 0x1F
        };
        self.palette[mirrored_address as usize]
    }
}

/// A write to the PPU's own memory is read back unchanged.
pub proof fn lemma_write_then_read(ppu: PpuState, cartridge: CartridgeState, address: u16, data: u8)
    requires
        0x2000 <= address < 0x3000 || 0x3F00 <= address < 0x4000,
        ppu.name_table_0.len() == 1024,
        ppu.name_table_1.len() == 1024,
        ppu.palette.len() == 32,
    ensures
        ppu.written(cartridge, address, data).read_value(cartridge, address) == data,
{
}

/// A write leaves every cell that does not share the written cell's place unchanged.
pub proof fn lemma_write_leaves_others(
    ppu: PpuState,
    cartridge: CartridgeState,
    address: u16,
    other: u16,
    data: u8,
)
    requires
        0x2000 <= address < 0x3000 || 0x3F00 <= address < 0x4000,
        0x2000 <= other < 0x3000 || 0x3F00 <= other < 0x4000,
        ppu.name_table_0.len() == 1024,
        ppu.name_table_1.len() == 1024,
        ppu.palette.len() == 32,
        !(0x2000 <= address < 0x3000 && 0x2000 <= other < 0x3000 && nametable_slot(
            cartridge.mirroring,
            address,
        ) == nametable_slot(cartridge.mirroring, other) && address % 1024 == other % 1024),
        !(0x3F00 <= address < 0x4000 && 0x3F00 <= other < 0x4000 && palette_slot(address as int)
            == palette_slot(other as int)),
    ensures
        ppu.written(cartridge, address, data).read_value(cartridge, other) == ppu.read_value(
            cartridge,
            other,
        ),
{
}

/// Two nametable addresses that mirror onto the same cell read the same value,
/// and so do two palette addresses that share a slot.
pub proof fn lemma_mirrored_reads_agree(ppu: PpuState, cartridge: CartridgeState, a: u16, b: u16)
    requires
        (0x2000 <= a < 0x3000 && 0x2000 <= b < 0x3000 && nametable_slot(cartridge.mirroring, a)
            == nametable_slot(cartridge.mirroring, b) && a % 1024 == b % 1024) || (0x3F00 <= a
            < 0x4000 && 0x3F00 <= b < 0x4000 && palette_slot(a as int) == palette_slot(b as int)),
    ensures
        ppu.read_value(cartridge, a) == ppu.read_value(cartridge, b),
{
}


/// Pixel value 0 of every palette shows the shared background colour, entry 0; pixel
/// values 1 to 3 of palette `p` (0 to 7) show entries `4 p + 1` to `4 p + 3`.
pub proof fn lemma_palette_colors(ppu: PpuState, palette: u8, pixel: u8)
    requires
        palette < 8,
        pixel < 4,
    ensures
        pixel == 0 ==> ppu.color_value(palette, pixel) == ppu.palette[0],
        pixel != 0 ==> ppu.color_value(palette, pixel) == ppu.palette[4 * palette + pixel],
{
}

} // verus!
