//! An earlier arrangement of the console's buses in one structure: CPU RAM, the
//! PPU's registers and memory, and the cartridge.
use vstd::prelude::*;
use crate::cartridge::{Cartridge, CartridgeState, Mirroring};
use crate::cpu::{CONTROL, MASK, STATUS, SCROLL, PPU_ADDRESS, PPU_DATA};
use crate::ppu::nametable_slot;
use crate::ppu::ppu_controls::{PPUControl, PPUControlRegisters, PPULoopy, PPUMask, WritingAddressPart};

use crate::ppu::ppu_clock::lemma_loopy_fields;
use crate::bit_facts::{lemma_byte_bits, lemma_word_bits, lemma_word_pair_bits};

verus! {

pub struct Bus {
    pub cpu_ram: [u8; 2048],
    pub ppu_controls: PPUControlRegisters,
    pub cartridge: Cartridge,
    pub name_table: [[u8; 1024]; 2],
    pub palette: [u8; 32],
}

/// The bus as the specifications see it.
#[verifier::ext_equal]
pub struct BusState {
    pub cpu_ram: Seq<u8>,
    pub ppu_controls: PPUControlRegisters,
    pub cartridge: CartridgeState,
    pub name_table_0: Seq<u8>,
    pub name_table_1: Seq<u8>,
    pub palette: Seq<u8>,
}

impl View for Bus {
    type V = BusState;

    open spec fn view(&self) -> BusState {
        BusState {
            cpu_ram: self.cpu_ram@,
            ppu_controls: self.ppu_controls,
            cartridge: self.cartridge@,
            name_table_0: self.name_table[0]@,
            name_table_1: self.name_table[1]@,
            palette: self.palette@,
        }
    }
}

impl BusState {
    pub open spec fn with_controls(self, c: PPUControlRegisters) -> BusState {
        BusState { ppu_controls: c, ..self }
    }

    pub open spec fn nametable(self, slot: int) -> Seq<u8> {
        if slot == 0 {
            self.name_table_0
        } else {
            self.name_table_1
        }
    }

    /// Whether a PPU-bus read of `address` is defined: pattern memory through the
    /// cartridge, nametables (mirrored up to $3F00), palette.
    pub open spec fn ppu_read_ok(self, address: u16) -> bool {
        (address < 0x2000 ==> self.cartridge.ppu_read_ok(address)) && address < 0x4000
    }

    pub open spec fn ppu_read_value(self, address: u16) -> u8 {
        if address < 0x2000 {
            self.cartridge.ppu_read_value(address)
        } else if address < 0x3F00 {
            self.nametable(nametable_slot(self.cartridge.mirroring, address))[address as int % 1024]
        } else {
            self.palette[address as int % 32]
        }
    }

    pub open spec fn ppu_write_ok(self, address: u16) -> bool {
        (address < 0x2000 ==> self.cartridge.ppu_write_ok(address)) && address < 0x4000
    }

    pub open spec fn ppu_written(self, address: u16, data: u8) -> BusState {
        if address < 0x2000 {
            BusState { cartridge: self.cartridge.ppu_written(address, data), ..self }
        } else if address < 0x3F00 {
            let offset = address as int % 1024;
            if nametable_slot(self.cartridge.mirroring, address) == 0 {
                BusState { name_table_0: self.name_table_0.update(offset, data), ..self }
            } else {
                BusState { name_table_1: self.name_table_1.update(offset, data), ..self }
            }
        } else {
            BusState { palette: self.palette.update(address as int % 32, data), ..self }
        }
    }

    pub open spec fn register_read_ok(self, register: u16) -> bool {
        register == 7 ==> self.ppu_read_ok(self.ppu_controls.vram_address.bits)
    }

    /// Reading a PPU register: the status read clears vertical blank and the write
    /// latch; the data read is buffered, except for palette addresses.
    pub open spec fn register_read(self, register: u16) -> (BusState, u8) {
        let c = self.ppu_controls;
        if register == 2 {
            (
                self.with_controls(
                    PPUControlRegisters {
                        status: c.status.with_vertical_blank_spec(false),
                        writing_part: WritingAddressPart::High,
                        ..c
                    },
                ),
                (c.status.bits & 0xE0) | (c.data_buffer & 0x1F),
            )
        } else if register == 7 {
            let address = c.vram_address.bits;
            let new_buffer = self.ppu_read_value(address);
            let step: int = if c.control.increment_mode() { 32 } else { 1 };
            (
                self.with_controls(
                    PPUControlRegisters {
                        data_buffer: new_buffer,
                        vram_address: PPULoopy { bits: ((address + step) % 65536) as u16 },
                        ..c
                    },
                ),
                if address >= 0x3F00 { new_buffer } else { c.data_buffer },
            )
        } else {
            (self, 0)
        }
    }

    /// Writing the status register is refused.
    pub open spec fn register_write_ok(self, register: u16) -> bool {
        &&& register != 2
        &&& register == 7 ==> self.ppu_write_ok(self.ppu_controls.vram_address.bits)
    }

    pub open spec fn register_write(self, register: u16, data: u8) -> BusState {
        let c = self.ppu_controls;
        if register == 0 {
            let control = PPUControl { bits: data };
            self.with_controls(
                PPUControlRegisters {
                    control,
                    tram_address: c.tram_address.with_nametable_x_spec(
                        control.nametable_x(),
                    ).with_nametable_y_spec(control.nametable_y()),
                    ..c
                },
            )
        } else if register == 1 {
            self.with_controls(PPUControlRegisters { mask: PPUMask { bits: data }, ..c })
        } else if register == 5 {
            let part = PPUControlRegisters::switched_part(c.writing_part);
            match c.writing_part {
                WritingAddressPart::High => self.with_controls(
                    PPUControlRegisters {
                        fine_x: data % 8,
                        tram_address: c.tram_address.with_coarse_x_spec(data / 8),
                        writing_part: part,
                        ..c
                    },
                ),
                WritingAddressPart::Low => self.with_controls(
                    PPUControlRegisters {
                        tram_address: c.tram_address.with_fine_y_spec(data % 8).with_coarse_y_spec(
                            data / 8,
                        ),
                        writing_part: part,
                        ..c
                    },
                ),
            }
        } else if register == 6 {
            let part = PPUControlRegisters::switched_part(c.writing_part);
            match c.writing_part {
                WritingAddressPart::High => self.with_controls(
                    PPUControlRegisters {
                        tram_address: PPULoopy {
                            bits: (c.tram_address.bits % 256 + 256 * data) as u16,
                        },
                        writing_part: part,
                        ..c
                    },
                ),
                WritingAddressPart::Low => {
                    let tram = PPULoopy { bits: ((c.tram_address.bits / 256) * 256 + data) as u16 };
                    self.with_controls(
                        PPUControlRegisters {
                            tram_address: tram,
                            vram_address: tram,
                            writing_part: part,
                            ..c
                        },
                    )
                },
            }
        } else if register == 7 {
            let address = c.vram_address.bits;
            let step: int = if c.control.increment_mode() { 32 } else { 1 };
            self.ppu_written(address, data).with_controls(
                PPUControlRegisters {
                    vram_address: PPULoopy { bits: ((address + step) % 65536) as u16 },
                    ..c
                },
            )
        } else {
            self
        }
    }

    /// The 2 KB of RAM are mirrored over $0000..$2000.
    pub open spec fn cpu_read_ok(self, address: u16) -> bool {
        if address < 0x2000 {
            true
        } else if address < 0x4000 {
            self.register_read_ok((address % 8) as u16)
        } else if address >= 0x4020 {
            self.cartridge.cpu_read_ok(address)
        } else {
            true
        }
    }

    pub open spec fn cpu_read(self, address: u16) -> (BusState, u8) {
        if address < 0x2000 {
            (self, self.cpu_ram[address as int % 2048])
        } else if address < 0x4000 {
            self.register_read((address % 8) as u16)
        } else if address >= 0x4020 {
            (self, self.cartridge.cpu_read_value(address))
        } else {
            (self, 0)
        }
    }

    pub open spec fn cpu_write_ok(self, address: u16) -> bool {
        if address < 0x2000 {
            true
        } else if address < 0x4000 {
            self.register_write_ok((address % 8) as u16)
        } else if address >= 0x4020 {
            self.cartridge.cpu_write_ok(address)
        } else {
            true
        }
    }

    pub open spec fn cpu_written(self, address: u16, data: u8) -> BusState {
        if address < 0x2000 {
            BusState { cpu_ram: self.cpu_ram.update(address as int % 2048, data), ..self }
        } else if address < 0x4000 {
            self.register_write((address % 8) as u16, data)
        } else if address >= 0x4020 {
            BusState { cartridge: self.cartridge.cpu_written(address, data), ..self }
        } else {
            self
        }
    }
}

impl Bus {
    pub fn new(cartridge: Cartridge) -> (r: Self)
        ensures
            r@.cpu_ram == Seq::new(2048, |i: int| 0u8),
            r@.ppu_controls == PPUControlRegisters::initial(),
            r@.cartridge == cartridge@,
            r@.name_table_0 == Seq::new(1024, |i: int| 0u8),
            r@.name_table_1 == Seq::new(1024, |i: int| 0u8),
            r@.palette == Seq::new(32, |i: int| 0u8),
    {
        let r = Bus {
            cpu_ram: [0u8; 2048],
            cartridge: cartridge,
            ppu_controls: PPUControlRegisters::default(),
            name_table: [[0u8; 1024]; 2],
            palette: [0u8; 32],
        };
        assert(r.cpu_ram@ =~= Seq::new(2048, |i: int| 0u8));
        assert(r.name_table[0]@ =~= Seq::new(1024, |i: int| 0u8));
        assert(r.name_table[1]@ =~= Seq::new(1024, |i: int| 0u8));
        assert(r.palette@ =~= Seq::new(32, |i: int| 0u8));
        r
    }

    pub fn get_cartridge(&self) -> (r: &Cartridge)
        ensures
            r == &self.cartridge,
    {
        &self.cartridge
    }

    pub fn cpu_write(&mut self, address: u16, data: u8)
        requires
            old(self)@.cpu_write_ok(address),
        ensures
            final(self)@ == old(self)@.cpu_written(address, data),
    {
        if address < 0x2000 {
            proof {
                lemma_word_bits(address);
            }
            self.cpu_ram[(address & 0x07FF) as usize] = data;
        } else if address < 0x4000 {
            proof {
                lemma_word_bits(address);
            }
            self.cpu_write_to_ppu(address & 0x0007, data);
        } else if address >= 0x4020 {
            self.cartridge.cpu_write(address, data);
        }
    }

    /// `read_only` has no effect here: every read of a PPU register may change it.
    pub fn cpu_read(&mut self, address: u16, read_only: bool) -> (r: u8)
        requires
            old(self)@.cpu_read_ok(address),
        ensures
            (final(self)@, r) == old(self)@.cpu_read(address),
    {
        if address < 0x2000 {
            proof {
                lemma_word_bits(address);
            }
            self.cpu_ram[(address & 0x07FF) as usize]
        } else if address < 0x4000 {
            proof {
                lemma_word_bits(address);
            }
            self.cpu_read_from_ppu(address & 0x0007)
        } else if address >= 0x4020 {
            self.cartridge.cpu_read(address)
        } else {
            0
        }
    }

    /// The nametable and offset a nametable address lands on.
    fn nametable_place(mirroring: Mirroring, address: u16) -> (r: (usize, usize))
        ensures
            r.0 == nametable_slot(mirroring, address),
            r.1 == address % 1024,
    {
        let folded = address & 0x0FFF;
        proof {
            lemma_word_bits(address);
        }
        let slot: usize = match mirroring {
            Mirroring::Horizontal => {
                if folded < 0x0400 || (0x0800 <= folded && folded < 0x0C00) {
                    0
                } else {
                    1
                }
            },
            Mirroring::Vertical => {
                if folded < 0x0800 {
                    0
                } else {
                    1
                }
            },
        };
        (slot, (address & 0x03FF) as usize)
    }

    pub fn ppu_read(&self, address: u16) -> (r: u8)
        requires
            self@.ppu_read_ok(address),
        ensures
            r == self@.ppu_read_value(address),
    {
        if address < 0x2000 {
            self.get_cartridge().ppu_read(address)
        } else if address < 0x3F00 {
            let (slot, offset) = Self::nametable_place(self.cartridge.mirroring, address);
            self.name_table[slot][offset]
        } else {
            let masked_address = address & 0x001F;
            proof {
                lemma_word_bits(address);
            }
            let mirrored_address = masked_address % 32;
            self.palette[mirrored_address as usize]
        }
    }

    pub fn ppu_write(&mut self, address: u16, data: u8)
        requires
            old(self)@.ppu_write_ok(address),
        ensures
            final(self)@ == old(self)@.ppu_written(address, data),
    {
        if address < 0x2000 {
            self.cartridge.ppu_write(address, data);
        } else if address < 0x3F00 {
            let (slot, offset) = Self::nametable_place(self.cartridge.mirroring, address);
            let mut table = self.name_table[slot];
            table[offset] = data;
            self.name_table[slot] = table;
        } else {
            let masked_address = address & 0x001F;
            proof {
                lemma_word_bits(address);
            }
            let mirrored_address = masked_address % 32;
            self.palette[mirrored_address as usize] = data;
        }
    }

    pub fn cpu_read_from_ppu(&mut self, address: u16) -> (r: u8)
        requires
            address < 8,
            old(self)@.register_read_ok(address),
        ensures
            (final(self)@, r) == old(self)@.register_read(address),
    {
        if address == STATUS {
            let retrieved_data = (u8::from(self.ppu_controls.status) & 0xE0) | (
            self.ppu_controls.data_buffer & 0x1F);
            self.ppu_controls.status.set_vertical_blank(false);
            self.ppu_controls.writing_part = WritingAddressPart::High;
            retrieved_data
        } else if address == PPU_DATA {
            let mut retrieved_data = self.ppu_controls.data_buffer;
            let vram = u16::from(self.ppu_controls.vram_address);
            self.ppu_controls.data_buffer = self.ppu_read(vram);
            if vram >= 0x3F00 {
                retrieved_data = self.ppu_controls.data_buffer;
            }
            let step: u16 = if self.ppu_controls.control.increment_mode() {
                32
            } else {
                1
            };
            self.ppu_controls.vram_address.increment(step);
            retrieved_data
        } else {
            // control, mask, OAM, scroll and address cannot be read
            0
        }
    }

    pub fn cpu_write_to_ppu(&mut self, address: u16, data: u8)
        requires
            address < 8,
            old(self)@.register_write_ok(address),
        ensures
            final(self)@ == old(self)@.register_write(address, data),
    {
        if address == CONTROL {
            self.ppu_controls.control = PPUControl::from(data);
            let nametable_x = self.ppu_controls.control.nametable_x();
            let nametable_y = self.ppu_controls.control.nametable_y();
            self.ppu_controls.tram_address.set_nametable_x(nametable_x);
            self.ppu_controls.tram_address.set_nametable_y(nametable_y);
        } else if address == MASK {
            self.ppu_controls.mask = PPUMask::from(data);
        } else if address == SCROLL {
            proof {
                lemma_byte_bits(data);
            }
            match self.ppu_controls.writing_part {
                WritingAddressPart::High => {
                    self.ppu_controls.fine_x = data & 0x07;
                    self.ppu_controls.tram_address.set_coarse_x(data >> 3);
                },
                WritingAddressPart::Low => {
                    self.ppu_controls.tram_address.set_fine_y(data & 0x07);
                    self.ppu_controls.tram_address.set_coarse_y(data >> 3);
                },
            }
            self.ppu_controls.address_part_switch();
        } else if address == PPU_ADDRESS {
            let tram = u16::from(self.ppu_controls.tram_address);
            let d = data as u16;
            match self.ppu_controls.writing_part {
                WritingAddressPart::High => {
                    proof {
                        lemma_word_pair_bits(tram, d);
                    }
                    self.ppu_controls.tram_address = PPULoopy::from(
                        (tram & 0x00FF) | ((data as u16) << 8),
                    );
                },
                WritingAddressPart::Low => {
                    proof {
                        lemma_word_pair_bits(tram, d);
                    }
                    self.ppu_controls.tram_address = PPULoopy::from((tram & 0xFF00) | (data as u16));
                    self.ppu_controls.vram_address = self.ppu_controls.tram_address;
                },
            }
            self.ppu_controls.address_part_switch();
        } else if address == PPU_DATA {
            let vram = u16::from(self.ppu_controls.vram_address);
            self.ppu_write(vram, data);
            let step: u16 = if self.ppu_controls.control.increment_mode() {
                32
            } else {
                1
            };
            self.ppu_controls.vram_address.increment(step);
        }
        // OAM address and OAM data writes are not implemented

    }

    pub fn get_mut_cpu_ram(&mut self) -> (r: &mut [u8; 2048])
        ensures
            *r == old(self).cpu_ram,
            final(self)@ == (BusState { cpu_ram: final(r)@, ..old(self)@ }),
    {
        &mut self.cpu_ram
    }

    pub fn get_mut_ppu_controls(&mut self) -> (r: &mut PPUControlRegisters)
        ensures
            *r == old(self).ppu_controls,
            final(self)@ == (BusState { ppu_controls: *final(r), ..old(self)@ }),
    {
        &mut self.ppu_controls
    }
}


/// On the bus, a byte written to RAM is read back at its address and at every address
/// that mirrors it, reading RAM changes nothing, and the RAM cells that do not mirror it
/// keep their values.
pub proof fn lemma_bus_ram_write_then_read(bus: BusState, address: u16, other: u16, data: u8)
    requires
        address < 0x2000,
        other < 0x2000,
        bus.cpu_ram.len() == 2048,
    ensures
        bus.cpu_written(address, data).cpu_read(address) == (bus.cpu_written(address, data), data),
        address % 2048 == other % 2048 ==> bus.cpu_written(address, data).cpu_read(other) == (
            bus.cpu_written(address, data),
            data,
        ),
        address % 2048 != other % 2048 ==> bus.cpu_written(address, data).cpu_read(other).1
            == bus.cpu_read(other).1,
{
}


/// On the bus too, writing the control register ($2000 and its mirrors) stores the byte
/// and points the temporary address at the nametable that its two low bits select: bit 0
/// the horizontal one, bit 1 the vertical one; the other fields stay.
pub proof fn lemma_bus_control_write_selects_nametable(bus: BusState, address: u16, data: u8)
    requires
        0x2000 <= address < 0x4000,
        address % 8 == 0,
    ensures
        ({
            let before = bus.ppu_controls.tram_address;
            let c = bus.cpu_written(address, data).ppu_controls;
            &&& c.control.bits == data
            &&& c.tram_address.nametable_x() == (data % 2 == 1)
            &&& c.tram_address.nametable_y() == ((data / 2) % 2 == 1)
            &&& c.tram_address.coarse_x() == before.coarse_x()
            &&& c.tram_address.coarse_y() == before.coarse_y()
            &&& c.tram_address.fine_y() == before.fine_y()
        }),
{
    lemma_byte_bits(data);
    let before = bus.ppu_controls.tram_address;
    lemma_loopy_fields(before);
    lemma_loopy_fields(before.with_nametable_x_spec(data & 0x01 != 0));
}

} // verus!
