//! The 6502 CPU of the NES, with its RAM, the cartridge and the PPU on its bus.
pub mod addressing;
pub mod disassembler;
pub mod instructions;
pub mod semantics;
pub mod text;

use vstd::prelude::*;
use crate::bit_operations::{glue_u8s, split_u16};
use crate::cartridge::Cartridge;
use crate::ppu::PPU;
use crate::ppu::debug_view::pattern_table_readable;
use crate::ppu::ppu_controls::{PPUControl, PPULoopy, PPUMask, WritingAddressPart};
use crate::rendering::PatternTable;
use self::semantics::{CpuState, StatusFlag, combined_mask, flag_mask, has_flag, with_flag};
use self::instructions::{Instruction, STACK_BASE, lemma_instruction_cycles, lookup_instruction};

use crate::bit_facts::{lemma_byte_bits, lemma_word_bits, lemma_word_pair_bits};

verus! {

pub const CPU_RAM_SIZE: usize = 2048;

pub const CONTROL: u16 = 0;

pub const MASK: u16 = 1;

pub const STATUS: u16 = 2;

pub const OAM_ADDRESS: u16 = 3;

pub const OAM_DATA: u16 = 4;

pub const SCROLL: u16 = 5;

pub const PPU_ADDRESS: u16 = 6;

pub const PPU_DATA: u16 = 7;

pub struct CPU {
    pub acc: u8,
    pub reg_x: u8,
    pub reg_y: u8,
    pub stack_pointer: u8,
    pub program_counter: u16,
    pub status: u8,
    pub ram: [u8; 2048],
    pub cartridge: Cartridge,
    pub ppu: PPU,
    pub fetched: u8,
    pub addr_abs: u16,
    pub addr_rel: u16,
    pub opcode: u8,
    pub cycles: u8,
}

impl View for CPU {
    type V = CpuState;

    open spec fn view(&self) -> CpuState {
        CpuState {
            acc: self.acc,
            reg_x: self.reg_x,
            reg_y: self.reg_y,
            stack_pointer: self.stack_pointer,
            program_counter: self.program_counter,
            status: self.status,
            ram: self.ram@,
            cartridge: self.cartridge@,
            ppu: self.ppu@,
            fetched: self.fetched,
            addr_abs: self.addr_abs,
            addr_rel: self.addr_rel,
            opcode: self.opcode,
            cycles: self.cycles,
        }
    }
}

/// The status register laid out as flags, for display.
#[derive(Clone, Copy)]
pub struct Status {
    pub bits: u8,
}

impl Status {
    pub fn carry(&self) -> (r: bool)
        ensures
            r == has_flag(self.bits, StatusFlag::Carry),
    {
        self.bits & 0x01 != 0
    }

    pub fn zero(&self) -> (r: bool)
        ensures
            r == has_flag(self.bits, StatusFlag::Zero),
    {
        self.bits & 0x02 != 0
    }

    pub fn disableinterupts(&self) -> (r: bool)
        ensures
            r == has_flag(self.bits, StatusFlag::DisableInterupts),
    {
        self.bits & 0x04 != 0
    }

    pub fn decimalmode(&self) -> (r: bool)
        ensures
            r == has_flag(self.bits, StatusFlag::DecimalMode),
    {
        self.bits & 0x08 != 0
    }

    pub fn break_(&self) -> (r: bool)
        ensures
            r == has_flag(self.bits, StatusFlag::Break),
    {
        self.bits & 0x10 != 0
    }

    pub fn unused(&self) -> (r: bool)
        ensures
            r == has_flag(self.bits, StatusFlag::Unused),
    {
        self.bits & 0x20 != 0
    }

    pub fn overflow(&self) -> (r: bool)
        ensures
            r == has_flag(self.bits, StatusFlag::Overflow),
    {
        self.bits & 0x40 != 0
    }

    pub fn negative(&self) -> (r: bool)
        ensures
            r == has_flag(self.bits, StatusFlag::Negative),
    {
        self.bits & 0x80 != 0
    }
}

impl From<u8> for Status {
    fn from(bits: u8) -> (r: Self) {
        Status { bits }
    }
}

impl vstd::std_specs::convert::FromSpecImpl<u8> for Status {
    open spec fn obeys_from_spec() -> bool {
        true
    }

    open spec fn from_spec(bits: u8) -> Self {
        Status { bits }
    }
}

impl StatusFlag {
    /// The bit the flag occupies in the status register.
    pub fn mask(self) -> (r: u8)
        ensures
            r == flag_mask(self),
    {
        match self {
            StatusFlag::Carry => 0x01,
            StatusFlag::Zero => 0x02,
            StatusFlag::DisableInterupts => 0x04,
            StatusFlag::DecimalMode => 0x08,
            StatusFlag::Break => 0x10,
            StatusFlag::Unused => 0x20,
            StatusFlag::Overflow => 0x40,
            StatusFlag::Negative => 0x80,
        }
    }
}

impl CPU {
    // ---------------------------------------------------------------- getters
    pub fn acc(&self) -> (r: u8)
        ensures
            r == self.acc,
    {
        self.acc
    }

    pub fn reg_x(&self) -> (r: u8)
        ensures
            r == self.reg_x,
    {
        self.reg_x
    }

    pub fn reg_y(&self) -> (r: u8)
        ensures
            r == self.reg_y,
    {
        self.reg_y
    }

    pub fn stack_pointer(&self) -> (r: u8)
        ensures
            r == self.stack_pointer,
    {
        self.stack_pointer
    }

    pub fn program_counter(&self) -> (r: u16)
        ensures
            r == self.program_counter,
    {
        self.program_counter
    }

    pub fn status(&self) -> (r: u8)
        ensures
            r == self.status,
    {
        self.status
    }

    pub fn cycles(&self) -> (r: u8)
        ensures
            r == self.cycles,
    {
        self.cycles
    }

    pub fn fetched(&self) -> (r: u8)
        ensures
            r == self.fetched,
    {
        self.fetched
    }

    pub fn addr_abs(&self) -> (r: u16)
        ensures
            r == self.addr_abs,
    {
        self.addr_abs
    }

    pub fn addr_rel(&self) -> (r: u16)
        ensures
            r == self.addr_rel,
    {
        self.addr_rel
    }

    pub fn opcode(&self) -> (r: u8)
        ensures
            r == self.opcode,
    {
        self.opcode
    }

    pub fn cartridge(&self) -> (r: &Cartridge)
        ensures
            r == &self.cartridge,
    {
        &self.cartridge
    }

    pub fn ppu(&self) -> (r: &PPU)
        ensures
            r == &self.ppu,
    {
        &self.ppu
    }

    // ---------------------------------------------------------------- flags
    pub fn set_flag(&mut self, flag: StatusFlag, value: bool)
        ensures
            final(self).cycles == old(self).cycles,
            final(self)@ == old(self)@.with_status(with_flag(old(self).status, flag, value)),
    {
        if value {
            self.status = self.status | flag.mask();
        } else {
            self.status = self.status & !flag.mask();
        }
    }

    pub fn get_flag(&self, flag: StatusFlag) -> (r: bool)
        ensures
            r == has_flag(self.status, flag),
    {
        self.status & flag.mask() != 0
    }

    // ---------------------------------------------------------------- the bus
    pub fn write(&mut self, address: u16, data: u8)
        requires
            old(self)@.write_ok(address),
        ensures
            final(self).cycles == old(self).cycles,
            final(self)@ == old(self)@.write(address, data),
    {
        if address < 0x2000 {
            proof {
                lemma_word_bits(address);
            }
            self.ram[(address & 0x07FF) as usize] = data;
        } else if address < 0x4000 {
            proof {
                lemma_word_bits(address);
            }
            self.cpu_write_to_ppu(address & 0x0007, data);
        } else if address >= 0x4020 {
            self.cartridge.cpu_write(address, data);
        }
    }

    /// Reads `address`. Reading some PPU registers changes the PPU; with `read_only`
    /// the same value is read without modifying the state.
    pub fn read(&mut self, address: u16, read_only: bool) -> (r: u8)
        requires
            old(self)@.read_ok(address),
        ensures
            final(self).cycles == old(self).cycles,
            (final(self)@, r) == old(self)@.read(address, read_only),
    {
        if address < 0x2000 {
            proof {
                lemma_word_bits(address);
            }
            self.ram[(address & 0x07FF) as usize]
        } else if address < 0x4000 {
            proof {
                lemma_word_bits(address);
            }
            self.cpu_read_from_ppu(address & 0x0007, read_only)
        } else if address >= 0x4020 {
            self.cartridge.cpu_read(address)
        } else {
            0
        }
    }

    /// Reads two bytes at `address` and `address + 1`, low byte first.
    fn read_u16_at(&mut self, address: u16) -> (r: u16)
        requires
            old(self)@.read_u16_ok(address),
        ensures
            final(self).cycles == old(self).cycles,
            final(self).program_counter == old(self).program_counter,
            (final(self)@, r) == old(self)@.read_u16(address),
    {
        let low_byte = self.read(address, false);
        let high_byte = self.read(address + 1, false);
        glue_u8s(high_byte, low_byte)
    }

    fn cpu_read_from_ppu(&mut self, address: u16, read_only: bool) -> (r: u8)
        requires
            address < 8,
            old(self)@.register_read_ok(address),
        ensures
            final(self).cycles == old(self).cycles,
            (final(self)@, r) == old(self)@.register_read(address, read_only),
    {
        if address == STATUS {
            let retrieved_data = (u8::from(self.ppu.ppu_controls.status) & 0xE0) | (
            self.ppu.ppu_controls.data_buffer & 0x1F);
            if !read_only {
                self.ppu.ppu_controls.status.set_vertical_blank(false);
                self.ppu.ppu_controls.writing_part = WritingAddressPart::High;
            }
            retrieved_data
        } else if address == PPU_DATA {
            let delayed_data = self.ppu.ppu_controls.data_buffer;
            let current_address: u16 = u16::from(self.ppu.ppu_controls.vram_address);
            let new_data_buffer = self.ppu.read(current_address, &self.cartridge);
            let step: u16 = if self.ppu.ppu_controls.control.increment_mode() {
                32
            } else {
                1
            };
            let mut next_address = self.ppu.ppu_controls.vram_address;
            next_address.increment(step);
            if !read_only {
                self.ppu.ppu_controls.data_buffer = new_data_buffer;
                self.ppu.ppu_controls.vram_address = next_address;
            }
            if u16::from(next_address) >= 0x3F00 {
                new_data_buffer
            } else {
                delayed_data
            }
        } else {
            // the other registers cannot be read
            0
        }
    }

    pub fn cpu_write_to_ppu(&mut self, address: u16, data: u8)
        requires
            address < 8,
            old(self)@.register_write_ok(address),
        ensures
            final(self).cycles == old(self).cycles,
            final(self)@ == old(self)@.register_write(address, data),
    {
        if address == CONTROL {
            self.ppu.ppu_controls.control = PPUControl::from(data);
            let nametable_x = self.ppu.ppu_controls.control.nametable_x();
            let nametable_y = self.ppu.ppu_controls.control.nametable_y();
            self.ppu.ppu_controls.tram_address.set_nametable_x(nametable_x);
            self.ppu.ppu_controls.tram_address.set_nametable_y(nametable_y);
        } else if address == MASK {
            self.ppu.ppu_controls.mask = PPUMask::from(data);
        } else if address == SCROLL {
            proof {
                lemma_byte_bits(data);
            }
            match self.ppu.ppu_controls.writing_part {
                WritingAddressPart::High => {
                    self.ppu.ppu_controls.fine_x = data & 0x07;
                    self.ppu.ppu_controls.tram_address.set_coarse_x(data >> 3);
                },
                WritingAddressPart::Low => {
                    self.ppu.ppu_controls.tram_address.set_fine_y(data & 0x07);
                    self.ppu.ppu_controls.tram_address.set_coarse_y(data >> 3);
                },
            }
            self.ppu.ppu_controls.address_part_switch();
        } else if address == PPU_ADDRESS {
            let tram = u16::from(self.ppu.ppu_controls.tram_address);
            match self.ppu.ppu_controls.writing_part {
                WritingAddressPart::High => {
                    let d = data as u16;
                    proof {
                        lemma_word_pair_bits(tram, d);
                    }
                    self.ppu.ppu_controls.tram_address = PPULoopy::from(
                        (tram & 0x00FF) | (((data as u16) & 0x3F) << 8),
                    );
                },
                WritingAddressPart::Low => {
                    let d = data as u16;
                    proof {
                        lemma_word_pair_bits(tram, d);
                    }
                    self.ppu.ppu_controls.tram_address = PPULoopy::from(
                        (tram & 0xFF00) | (data as u16),
                    );
                    self.ppu.ppu_controls.vram_address = self.ppu.ppu_controls.tram_address;
                },
            }
            self.ppu.ppu_controls.address_part_switch();
        } else if address == PPU_DATA {
            let vram = u16::from(self.ppu.ppu_controls.vram_address);
            self.ppu.write(vram, data, &mut self.cartridge);
            let step: u16 = if self.ppu.ppu_controls.control.increment_mode() {
                32
            } else {
                1
            };
            self.ppu.ppu_controls.vram_address.increment(step);
        }
        // status, OAM address and OAM data writes are not implemented

    }
}

impl CPU {
    /// A CPU with zeroed registers and RAM, then reset.
    pub fn new(cartridge: Cartridge, ppu: PPU) -> (r: Self)
        requires
            cartridge@.cpu_read_ok(0xFFFC),
            cartridge@.cpu_read_ok(0xFFFD),
        ensures
            r@ == CpuState::powered_on(cartridge@, ppu@).reset(),
    {
        let mut cpu = CPU {
            acc: 0,
            reg_x: 0,
            reg_y: 0,
            stack_pointer: 0,
            program_counter: 0,
            status: 0,
            ram: [0u8; 2048],
            cartridge,
            ppu,
            fetched: 0,
            addr_abs: 0,
            addr_rel: 0,
            opcode: 0,
            cycles: 0,
        };
        assert(cpu.ram@ =~= Seq::new(2048, |i: int| 0u8));
        cpu.reset();
        cpu
    }

    /// Runs the addressing mode and the instruction; the extra cycle is owed only
    /// when both ask for it.
    fn find_data_and_execute(&mut self, instruction: Instruction) -> (r: bool)
        requires
            old(self)@.find_data_ok(instruction.mode),
            old(self)@.find_data(instruction.mode).0.execute_ok(instruction),
        ensures
            old(self).cycles <= final(self).cycles <= old(self).cycles + 2,
            ({
                let (s1, a) = old(self)@.find_data(instruction.mode);
                let (s2, b) = s1.execute(instruction);
                final(self)@ == s2 && r == (a && b)
            }),
    {
        let data_needs_cycle = self.find_data(instruction.mode());
        let operation_needs_cycle = self.execute(instruction);
        data_needs_cycle && operation_needs_cycle
    }

    /// One CPU cycle (see `CpuState::clock`).
    pub fn clock(&mut self)
        requires
            old(self)@.clock_ok(),
        ensures
            final(self)@ == old(self)@.clock(),
    {
        if self.cycles == 0 {
            let pc = self.program_counter;
            let opcode = self.read(pc, false);
            self.opcode = opcode;
            self.program_counter = pc + 1;
            let instruction = lookup_instruction(opcode);
            self.cycles = instruction.cycles();
            proof {
                lemma_instruction_cycles(opcode);
            }
            let extra = self.find_data_and_execute(instruction);
            self.cycles = self.cycles + if extra {
                1
            } else {
                0
            };
        }
        self.cycles = self.cycles - 1;
    }

    /// Loads the program counter from the reset vector and clears the registers.
    pub fn reset(&mut self)
        requires
            old(self)@.reset_ok(),
        ensures
            final(self)@ == old(self)@.reset(),
    {
        self.addr_abs = 0xFFFC;
        let low_byte = self.read(0xFFFC, false);
        let high_byte = self.read(0xFFFD, false);
        self.program_counter = glue_u8s(high_byte, low_byte);
        proof {
            lemma_byte_bits(0x20);
        }
        self.acc = 0;
        self.reg_x = 0;
        self.reg_y = 0;
        self.stack_pointer = 0xFD;
        self.status = 0u8 | StatusFlag::Unused.mask();
        self.addr_rel = 0;
        self.addr_abs = 0;
        self.fetched = 0;
        self.cycles = 8;
    }

    fn interrupt(&mut self, vector: u16)
        requires
            old(self)@.interrupt_ok(vector),
        ensures
            final(self)@ == old(self)@.interrupt(vector),
    {
        let (program_counter_high, program_counter_low) = split_u16(self.program_counter);
        self.write(STACK_BASE + (self.stack_pointer as u16), program_counter_high);
        self.stack_pointer = self.stack_pointer - 1;
        self.write(STACK_BASE + (self.stack_pointer as u16), program_counter_low);
        self.stack_pointer = self.stack_pointer - 1;
        self.set_flag(StatusFlag::Break, false);
        self.set_flag(StatusFlag::Unused, true);
        self.set_flag(StatusFlag::DisableInterupts, true);
        let status = self.status;
        self.write(STACK_BASE + (self.stack_pointer as u16), status);
        self.stack_pointer = self.stack_pointer - 1;
        self.addr_abs = vector;
        self.program_counter = self.read_u16_at_addr_abs();
    }

    /// A maskable interrupt: taken only while interrupts are enabled.
    pub fn interupt_request(&mut self)
        requires
            old(self)@.interupt_request_ok(),
        ensures
            final(self)@ == old(self)@.interupt_request(),
    {
        if !self.get_flag(StatusFlag::DisableInterupts) {
            self.interrupt(0xFFFE);
            self.cycles = 7;
        }
    }

    pub fn non_maskable_interupt_request(&mut self)
        requires
            old(self)@.interrupt_ok(0xFFFA),
        ensures
            final(self)@ == old(self)@.non_maskable_interupt_request(),
    {
        self.interrupt(0xFFFA);
        self.cycles = 8;
    }

    // ------------------------------------------------------------ helpers
    /// Sets (or clears) every flag of `flags` at once.
    fn set_flags(&mut self, flags: &[StatusFlag], value: bool)
        ensures
            final(self)@ == old(self)@.with_status(
                if value {
                    old(self).status | combined_mask(flags@)
                } else {
                    old(self).status & !combined_mask(flags@)
                },
            ),
    {
        let mut combined_flags: u8 = 0;
        let mut i: usize = 0;
        while i < flags.len()
            invariant
                i <= flags.len(),
                combined_flags == combined_mask(flags@.take(i as int)),
            decreases flags.len() - i,
        {
            assert(flags@.take(i + 1).drop_last() =~= flags@.take(i as int));
            combined_flags = combined_flags | flags[i].mask();
            i = i + 1;
        }
        assert(flags@.take(flags.len() as int) =~= flags@);
        if value {
            self.status = self.status | combined_flags;
        } else {
            self.status = self.status & !combined_flags;
        }
    }

    /// Reads the byte at the program counter and moves past it.
    fn read_next_u8_and_clock(&mut self) -> (r: u8)
        requires
            old(self).program_counter < 0xFFFF,
            old(self)@.read_ok(old(self).program_counter),
        ensures
            (final(self)@, r) == ({
                let (s, v) = old(self)@.read(old(self).program_counter, false);
                (CpuState { program_counter: (old(self).program_counter + 1) as u16, ..s }, v)
            }),
    {
        let pc = self.program_counter;
        let v = self.read(pc, false);
        self.program_counter = pc + 1;
        v
    }

    /// Reads the word at the program counter and moves past it.
    fn read_next_u16_and_clock(&mut self) -> (r: u16)
        requires
            old(self).program_counter < 0xFFFE,
            old(self)@.read_u16_ok(old(self).program_counter),
        ensures
            (final(self)@, r) == ({
                let (s, v) = old(self)@.read_u16(old(self).program_counter);
                (CpuState { program_counter: (old(self).program_counter + 2) as u16, ..s }, v)
            }),
    {
        let pc = self.program_counter;
        let v = self.read_u16_at(pc);
        self.program_counter = pc + 2;
        v
    }

    fn read_u8_at_addr_abs(&mut self) -> (r: u8)
        requires
            old(self)@.read_ok(old(self).addr_abs),
        ensures
            (final(self)@, r) == old(self)@.read(old(self).addr_abs, false),
    {
        let address = self.addr_abs;
        self.read(address, false)
    }

    fn read_u16_at_addr_abs(&mut self) -> (r: u16)
        requires
            old(self)@.read_u16_ok(old(self).addr_abs),
        ensures
            (final(self)@, r) == old(self)@.read_u16(old(self).addr_abs),
    {
        let address = self.addr_abs;
        self.read_u16_at(address)
    }

    // ------------------------------------------------------------ debugging
    pub fn get_ram(&self) -> (r: &[u8; 2048])
        ensures
            r@ == self.ram@,
    {
        &self.ram
    }

    pub fn get_mut_ram(&mut self) -> (r: &mut [u8; 2048])
        ensures
            *r == old(self).ram,
            final(self)@ == (CpuState { ram: final(r)@, ..old(self)@ }),
    {
        &mut self.ram
    }

    /// Draws one pattern table of the cartridge into the PPU's pattern table screen
    /// with palette `pallete_id`.
    pub fn render_debug_pattern_table(&mut self, pattern_table_side: PatternTable, pallete_id: u8)
        requires
            old(self).ppu.pattern_table_screen.buffer@.len() >= 32768,
            pattern_table_readable(old(self)@.cartridge, pattern_table_side.spec_index() as int),
        ensures
            final(self)@ == (CpuState {
                ppu: old(self)@.ppu.pattern_table_drawn(
                    old(self)@.cartridge,
                    pattern_table_side.spec_index() as int,
                    pallete_id,
                ),
                ..old(self)@
            }),
    {
        self.ppu.render_debug_pattern_table(pattern_table_side, pallete_id, &self.cartridge);
    }

    /// Runs the clock until the current instruction has used up its cycles.
    pub fn clock_until_next_instruction(&mut self)
        requires
            old(self)@.clock_ok(),
        ensures
            final(self)@ == old(self)@.clock_until_next_instruction(),
    {
        self.clock();
        let ghost after = self@;
        while self.cycles != 0
            invariant
                self@ == (CpuState { cycles: self.cycles, ..after }),
            decreases self.cycles,
        {
            self.clock();
        }
    }
}

impl CPU {
    /// One PPU dot.
    pub fn ppu_clock(&mut self)
        requires
            old(self)@.ppu.clock_ok(old(self)@.cartridge),
        ensures
            final(self)@ == (CpuState { ppu: old(self)@.ppu.clock(old(self)@.cartridge), ..old(self)@ }),
    {
        self.ppu.clock(&self.cartridge);
    }
}

} // verus!
