//! The 6502 addressing modes: how an instruction finds its operand.
use vstd::prelude::*;
use crate::bit_operations::{glue_u8s, get_high_byte, get_low_byte};
use crate::bit_facts::{lemma_byte_bits, lemma_word_bits};
use super::CPU;
use super::semantics::CpuState;

verus! {

#[derive(Clone, Copy, PartialEq, Eq, Structural)]
pub enum AddressingMode {
    IMP,
    IMM,
    ZP0,
    ZPX,
    ZPY,
    REL,
    ABS,
    ABX,
    ABY,
    IND,
    IZX,
    IZY,
}

impl Default for AddressingMode {
    fn default() -> (r: Self)
        ensures
            r == AddressingMode::IMP,
    {
        AddressingMode::IMP
    }
}

impl CPU {
    /// Finds the operand of an instruction in `mode` (see `CpuState::find_data`).
    /// Returns whether an indexed access crossed a page.
    pub fn find_data(&mut self, mode: AddressingMode) -> (r: bool)
        requires
            old(self)@.find_data_ok(mode),
        ensures
            final(self).cycles == old(self).cycles,
            (final(self)@, r) == old(self)@.find_data(mode),
    {
        match mode {
            AddressingMode::IMP => self.find_data_imp(),
            AddressingMode::IMM => self.find_data_imm(),
            AddressingMode::ZP0 => self.find_data_zp0(),
            AddressingMode::ZPX => self.find_data_zpx(),
            AddressingMode::ZPY => self.find_data_zpy(),
            AddressingMode::REL => self.find_data_rel(),
            AddressingMode::ABS => self.find_data_abs(),
            AddressingMode::ABX => self.find_data_abx(),
            AddressingMode::ABY => self.find_data_aby(),
            AddressingMode::IND => self.find_data_ind(),
            AddressingMode::IZX => self.find_data_izx(),
            AddressingMode::IZY => self.find_data_izy(),
        }
    }

    fn find_data_imp(&mut self) -> (r: bool)
        requires
            old(self)@.find_data_ok(AddressingMode::IMP),
        ensures
            final(self).cycles == old(self).cycles,
            (final(self)@, r) == old(self)@.find_data(AddressingMode::IMP),
    {
            self.fetched = self.acc;
            false
    }

    fn find_data_imm(&mut self) -> (r: bool)
        requires
            old(self)@.find_data_ok(AddressingMode::IMM),
        ensures
            final(self).cycles == old(self).cycles,
            (final(self)@, r) == old(self)@.find_data(AddressingMode::IMM),
    {
            self.addr_abs = self.program_counter;
            self.program_counter = self.program_counter + 1;
            false
    }

    fn find_data_zp0(&mut self) -> (r: bool)
        requires
            old(self)@.find_data_ok(AddressingMode::ZP0),
        ensures
            final(self).cycles == old(self).cycles,
            (final(self)@, r) == old(self)@.find_data(AddressingMode::ZP0),
    {
            let pc = self.program_counter;
            let v = self.read(pc, false);
            self.addr_abs = v as u16;
            self.program_counter = self.program_counter + 1;
            proof {
                lemma_byte_bits(v);
            }
            self.addr_abs = self.addr_abs & 0x00FF;
            false
    }

    fn find_data_zpx(&mut self) -> (r: bool)
        requires
            old(self)@.find_data_ok(AddressingMode::ZPX),
        ensures
            final(self).cycles == old(self).cycles,
            (final(self)@, r) == old(self)@.find_data(AddressingMode::ZPX),
    {
            let address = self.program_counter + self.reg_x as u16;
            let v = self.read(address, false);
            self.addr_abs = v as u16;
            self.program_counter = self.program_counter + 1;
            proof {
                lemma_byte_bits(v);
            }
            self.addr_abs = self.addr_abs & 0x00FF;
            false
    }

    fn find_data_zpy(&mut self) -> (r: bool)
        requires
            old(self)@.find_data_ok(AddressingMode::ZPY),
        ensures
            final(self).cycles == old(self).cycles,
            (final(self)@, r) == old(self)@.find_data(AddressingMode::ZPY),
    {
            let address = self.program_counter + self.reg_y as u16;
            let v = self.read(address, false);
            self.addr_abs = v as u16;
            self.program_counter = self.program_counter + 1;
            proof {
                lemma_byte_bits(v);
            }
            self.addr_abs = self.addr_abs & 0x00FF;
            false
    }

    fn find_data_rel(&mut self) -> (r: bool)
        requires
            old(self)@.find_data_ok(AddressingMode::REL),
        ensures
            final(self).cycles == old(self).cycles,
            (final(self)@, r) == old(self)@.find_data(AddressingMode::REL),
    {
            let pc = self.program_counter;
            let v = self.read(pc, false);
            self.addr_rel = v as u16;
            self.program_counter = self.program_counter + 1;
            proof {
                lemma_byte_bits(v);
            }
            if self.addr_rel & 0x80 != 0 {
                self.addr_rel = self.addr_rel | 0xFF00;
            }
            false
    }

    fn find_data_abs(&mut self) -> (r: bool)
        requires
            old(self)@.find_data_ok(AddressingMode::ABS),
        ensures
            final(self).cycles == old(self).cycles,
            (final(self)@, r) == old(self)@.find_data(AddressingMode::ABS),
    {
            let pc = self.program_counter;
            let low_byte = self.read(pc, false);
            let high_byte = self.read(pc + 1, false);
            self.program_counter = self.program_counter + 2;
            self.addr_abs = glue_u8s(high_byte, low_byte);
            false
    }

    fn find_data_abx(&mut self) -> (r: bool)
        requires
            old(self)@.find_data_ok(AddressingMode::ABX),
        ensures
            final(self).cycles == old(self).cycles,
            (final(self)@, r) == old(self)@.find_data(AddressingMode::ABX),
    {
            let pc = self.program_counter;
            let low_byte = self.read(pc, false);
            let high_byte = self.read(pc + 1, false);
            self.program_counter = self.program_counter + 2;
            self.addr_abs = glue_u8s(high_byte, low_byte) + self.reg_x as u16;
            get_high_byte(self.addr_abs) != high_byte
    }

    fn find_data_aby(&mut self) -> (r: bool)
        requires
            old(self)@.find_data_ok(AddressingMode::ABY),
        ensures
            final(self).cycles == old(self).cycles,
            (final(self)@, r) == old(self)@.find_data(AddressingMode::ABY),
    {
            let pc = self.program_counter;
            let low_byte = self.read(pc, false);
            let high_byte = self.read(pc + 1, false);
            self.program_counter = self.program_counter + 2;
            self.addr_abs = glue_u8s(high_byte, low_byte) + self.reg_y as u16;
            get_high_byte(self.addr_abs) != high_byte
    }

    fn find_data_ind(&mut self) -> (r: bool)
        requires
            old(self)@.find_data_ok(AddressingMode::IND),
        ensures
            final(self).cycles == old(self).cycles,
            (final(self)@, r) == old(self)@.find_data(AddressingMode::IND),
    {
        let pc = self.program_counter;
        let pointer = self.read_u16_at(pc);
        let pointer_low_byte = get_low_byte(pointer);
        let address_low_byte = self.read(pointer, false);
        // the hardware does not carry into the high byte of the pointer
        proof {
            lemma_word_bits(pointer);
        }
        let second = if pointer_low_byte == 0xFF {
            pointer & 0xFF00
        } else {
            pointer + 1
        };
        let address_high_byte = self.read(second, false);
        self.program_counter = pc + 2;
        self.addr_abs = glue_u8s(address_high_byte, address_low_byte);
        false
    }

    fn find_data_izx(&mut self) -> (r: bool)
        requires
            old(self)@.find_data_ok(AddressingMode::IZX),
        ensures
            final(self).cycles == old(self).cycles,
            (final(self)@, r) == old(self)@.find_data(AddressingMode::IZX),
    {
            let pc = self.program_counter;
            let t = self.read(pc, false) as u16;
            self.program_counter = self.program_counter + 1;
            let x = self.reg_x as u16;
            proof {
                lemma_word_bits((t + x) as u16);
                lemma_word_bits((t + x + 1) as u16);
            }
            let low_byte = self.read((t + x + 0) & 0x00FF, false);
            let high_byte = self.read((t + x + 1) & 0x00FF, false);
            self.addr_abs = glue_u8s(high_byte, low_byte);
            false
    }

    fn find_data_izy(&mut self) -> (r: bool)
        requires
            old(self)@.find_data_ok(AddressingMode::IZY),
        ensures
            final(self).cycles == old(self).cycles,
            (final(self)@, r) == old(self)@.find_data(AddressingMode::IZY),
    {
            let pc = self.program_counter;
            let t = self.read(pc, false) as u16;
            self.program_counter = self.program_counter + 1;
            proof {
                lemma_word_bits(t);
                lemma_word_bits((t + 1) as u16);
            }
            let low_byte = self.read((t + 0) & 0x00FF, false);
            let high_byte = self.read((t + 1) & 0x00FF, false);
            self.addr_abs = glue_u8s(high_byte, low_byte) + self.reg_y as u16;
            get_high_byte(self.addr_abs) != high_byte
    }
}

} // verus!
