//! The 6502 instruction set: the opcode table and what each instruction does.
use vstd::prelude::*;
use crate::bit_operations::BitManipulation;
use super::addressing::AddressingMode;
use super::CPU;
use crate::bit_facts::{lemma_byte_bits, lemma_word_bits, lemma_word_pair_bits, lemma_shift_in_low_bits, lemma_shift_in_high_bits};
use super::semantics::{CpuState, Register, StatusFlag, with_zn};
use self::InstructionType as IT;
use super::addressing::AddressingMode as AM;
use self::Instruction as I;

verus! {

pub const STACK_BASE: u16 = 0x0100;

#[derive(Clone, Copy, PartialEq, Eq, Structural)]
pub enum InstructionType {
    ADC, AND, ASL, BCC,
    BCS, BEQ, BIT, BMI,
    BNE, BPL, BRK, BVC,
    BVS, CLC, CLD, CLI,
    CLV, CMP, CPX, CPY,
    DEC, DEX, DEY, EOR,
    INC, INX, INY, JMP,
    JSR, LDA, LDX, LDY,
    LSR, NOP, ORA, PHA,
    PHP, PLA, PLP, ROL,
    ROR, RTI, RTS, SBC,
    SEC, SED, SEI, STA,
    STX, STY, TAX, TAY,
    TSX, TXA, TXS, TYA,
    INVALID,
}

impl Default for InstructionType {
    fn default() -> (r: Self)
        ensures
            r == InstructionType::INVALID,
    {
        InstructionType::INVALID
    }
}

/// One entry of the opcode table.
#[derive(Clone, Copy, PartialEq, Eq, Structural)]
pub struct Instruction {
    pub type_: InstructionType,
    pub mode: AddressingMode,
    pub cycles: u8,
}

impl Default for Instruction {
    fn default() -> (r: Self)
        ensures
            r == (Instruction { type_: InstructionType::INVALID, mode: AddressingMode::IMP, cycles: 0 }),
    {
        Instruction { type_: InstructionType::INVALID, mode: AddressingMode::IMP, cycles: 0 }
    }
}

impl Instruction {
    pub fn type_(&self) -> (r: InstructionType)
        ensures
            r == self.type_,
    {
        self.type_
    }

    pub fn mode(&self) -> (r: AddressingMode)
        ensures
            r == self.mode,
    {
        self.mode
    }

    pub fn cycles(&self) -> (r: u8)
        ensures
            r == self.cycles,
    {
        self.cycles
    }
}

/// The opcode table: what instruction, addressing mode and base cycle count each byte stands for.
pub open spec fn instruction_of(opcode: u8) -> Instruction {
    match opcode {
        0x00 => I { type_: IT::BRK, mode: AM::IMM, cycles: 7 },
        0x01 => I { type_: IT::ORA, mode: AM::IZX, cycles: 6 },
        0x02 => I { type_: IT::INVALID, mode: AM::IMP, cycles: 2 },
        0x03 => I { type_: IT::INVALID, mode: AM::IMP, cycles: 8 },
        0x04 => I { type_: IT::INVALID, mode: AM::IMP, cycles: 3 },
        0x05 => I { type_: IT::ORA, mode: AM::ZP0, cycles: 3 },
        0x06 => I { type_: IT::ASL, mode: AM::ZP0, cycles: 5 },
        0x07 => I { type_: IT::INVALID, mode: AM::IMP, cycles: 5 },
        0x08 => I { type_: IT::PHP, mode: AM::IMP, cycles: 3 },
        0x09 => I { type_: IT::ORA, mode: AM::IMM, cycles: 2 },
        0x0A => I { type_: IT::ASL, mode: AM::IMP, cycles: 2 },
        0x0B => I { type_: IT::INVALID, mode: AM::IMP, cycles: 2 },
        0x0C => I { type_: IT::INVALID, mode: AM::IMP, cycles: 4 },
        0x0D => I { type_: IT::ORA, mode: AM::ABS, cycles: 4 },
        0x0E => I { type_: IT::ASL, mode: AM::ABS, cycles: 6 },
        0x0F => I { type_: IT::INVALID, mode: AM::IMP, cycles: 6 },
        0x10 => I { type_: IT::BPL, mode: AM::REL, cycles: 2 },
        0x11 => I { type_: IT::ORA, mode: AM::IZY, cycles: 5 },
        0x12 => I { type_: IT::INVALID, mode: AM::IMP, cycles: 2 },
        0x13 => I { type_: IT::INVALID, mode: AM::IMP, cycles: 8 },
        0x14 => I { type_: IT::INVALID, mode: AM::IMP, cycles: 4 },
        0x15 => I { type_: IT::ORA, mode: AM::ZPX, cycles: 4 },
        0x16 => I { type_: IT::ASL, mode: AM::ZPX, cycles: 6 },
        0x17 => I { type_: IT::INVALID, mode: AM::IMP, cycles: 6 },
        0x18 => I { type_: IT::CLC, mode: AM::IMP, cycles: 2 },
        0x19 => I { type_: IT::ORA, mode: AM::ABY, cycles: 4 },
        0x1A => I { type_: IT::INVALID, mode: AM::IMP, cycles: 2 },
        0x1B => I { type_: IT::INVALID, mode: AM::IMP, cycles: 7 },
        0x1C => I { type_: IT::INVALID, mode: AM::IMP, cycles: 4 },
        0x1D => I { type_: IT::ORA, mode: AM::ABX, cycles: 4 },
        0x1E => I { type_: IT::ASL, mode: AM::ABX, cycles: 7 },
        0x1F => I { type_: IT::INVALID, mode: AM::IMP, cycles: 7 },
        0x20 => I { type_: IT::JSR, mode: AM::ABS, cycles: 6 },
        0x21 => I { type_: IT::AND, mode: AM::IZX, cycles: 6 },
        0x22 => I { type_: IT::INVALID, mode: AM::IMP, cycles: 2 },
        0x23 => I { type_: IT::INVALID, mode: AM::IMP, cycles: 8 },
        0x24 => I { type_: IT::BIT, mode: AM::ZP0, cycles: 3 },
        0x25 => I { type_: IT::AND, mode: AM::ZP0, cycles: 3 },
        0x26 => I { type_: IT::ROL, mode: AM::ZP0, cycles: 5 },
        0x27 => I { type_: IT::INVALID, mode: AM::IMP, cycles: 5 },
        0x28 => I { type_: IT::PLP, mode: AM::IMP, cycles: 4 },
        0x29 => I { type_: IT::AND, mode: AM::IMM, cycles: 2 },
        0x2A => I { type_: IT::ROL, mode: AM::IMP, cycles: 2 },
        0x2B => I { type_: IT::INVALID, mode: AM::IMP, cycles: 2 },
        0x2C => I { type_: IT::BIT, mode: AM::ABS, cycles: 4 },
        0x2D => I { type_: IT::AND, mode: AM::ABS, cycles: 4 },
        0x2E => I { type_: IT::ROL, mode: AM::ABS, cycles: 6 },
        0x2F => I { type_: IT::INVALID, mode: AM::IMP, cycles: 6 },
        0x30 => I { type_: IT::BMI, mode: AM::REL, cycles: 2 },
        0x31 => I { type_: IT::AND, mode: AM::IZY, cycles: 5 },
        0x32 => I { type_: IT::INVALID, mode: AM::IMP, cycles: 2 },
        0x33 => I { type_: IT::INVALID, mode: AM::IMP, cycles: 8 },
        0x34 => I { type_: IT::INVALID, mode: AM::IMP, cycles: 4 },
        0x35 => I { type_: IT::AND, mode: AM::ZPX, cycles: 4 },
        0x36 => I { type_: IT::ROL, mode: AM::ZPX, cycles: 6 },
        0x37 => I { type_: IT::INVALID, mode: AM::IMP, cycles: 6 },
        0x38 => I { type_: IT::SEC, mode: AM::IMP, cycles: 2 },
        0x39 => I { type_: IT::AND, mode: AM::ABY, cycles: 4 },
        0x3A => I { type_: IT::INVALID, mode: AM::IMP, cycles: 2 },
        0x3B => I { type_: IT::INVALID, mode: AM::IMP, cycles: 7 },
        0x3C => I { type_: IT::INVALID, mode: AM::IMP, cycles: 4 },
        0x3D => I { type_: IT::AND, mode: AM::ABX, cycles: 4 },
        0x3E => I { type_: IT::ROL, mode: AM::ABX, cycles: 7 },
        0x3F => I { type_: IT::INVALID, mode: AM::IMP, cycles: 7 },
        0x40 => I { type_: IT::RTI, mode: AM::IMP, cycles: 6 },
        0x41 => I { type_: IT::EOR, mode: AM::IZX, cycles: 6 },
        0x42 => I { type_: IT::INVALID, mode: AM::IMP, cycles: 2 },
        0x43 => I { type_: IT::INVALID, mode: AM::IMP, cycles: 8 },
        0x44 => I { type_: IT::INVALID, mode: AM::IMP, cycles: 3 },
        0x45 => I { type_: IT::EOR, mode: AM::ZP0, cycles: 3 },
        0x46 => I { type_: IT::LSR, mode: AM::ZP0, cycles: 5 },
        0x47 => I { type_: IT::INVALID, mode: AM::IMP, cycles: 5 },
        0x48 => I { type_: IT::PHA, mode: AM::IMP, cycles: 3 },
        0x49 => I { type_: IT::EOR, mode: AM::IMM, cycles: 2 },
        0x4A => I { type_: IT::LSR, mode: AM::IMP, cycles: 2 },
        0x4B => I { type_: IT::INVALID, mode: AM::IMP, cycles: 2 },
        0x4C => I { type_: IT::JMP, mode: AM::ABS, cycles: 3 },
        0x4D => I { type_: IT::EOR, mode: AM::ABS, cycles: 4 },
        0x4E => I { type_: IT::LSR, mode: AM::ABS, cycles: 6 },
        0x4F => I { type_: IT::INVALID, mode: AM::IMP, cycles: 6 },
        0x50 => I { type_: IT::BVC, mode: AM::REL, cycles: 2 },
        0x51 => I { type_: IT::EOR, mode: AM::IZY, cycles: 5 },
        0x52 => I { type_: IT::INVALID, mode: AM::IMP, cycles: 2 },
        0x53 => I { type_: IT::INVALID, mode: AM::IMP, cycles: 8 },
        0x54 => I { type_: IT::INVALID, mode: AM::IMP, cycles: 4 },
        0x55 => I { type_: IT::EOR, mode: AM::ZPX, cycles: 4 },
        0x56 => I { type_: IT::LSR, mode: AM::ZPX, cycles: 6 },
        0x57 => I { type_: IT::INVALID, mode: AM::IMP, cycles: 6 },
        0x58 => I { type_: IT::CLI, mode: AM::IMP, cycles: 2 },
        0x59 => I { type_: IT::EOR, mode: AM::ABY, cycles: 4 },
        0x5A => I { type_: IT::INVALID, mode: AM::IMP, cycles: 2 },
        0x5B => I { type_: IT::INVALID, mode: AM::IMP, cycles: 7 },
        0x5C => I { type_: IT::INVALID, mode: AM::IMP, cycles: 4 },
        0x5D => I { type_: IT::EOR, mode: AM::ABX, cycles: 4 },
        0x5E => I { type_: IT::LSR, mode: AM::ABX, cycles: 7 },
        0x5F => I { type_: IT::INVALID, mode: AM::IMP, cycles: 7 },
        0x60 => I { type_: IT::RTS, mode: AM::IMP, cycles: 6 },
        0x61 => I { type_: IT::ADC, mode: AM::IZX, cycles: 6 },
        0x62 => I { type_: IT::INVALID, mode: AM::IMP, cycles: 2 },
        0x63 => I { type_: IT::INVALID, mode: AM::IMP, cycles: 8 },
        0x64 => I { type_: IT::INVALID, mode: AM::IMP, cycles: 3 },
        0x65 => I { type_: IT::ADC, mode: AM::ZP0, cycles: 3 },
        0x66 => I { type_: IT::ROR, mode: AM::ZP0, cycles: 5 },
        0x67 => I { type_: IT::INVALID, mode: AM::IMP, cycles: 5 },
        0x68 => I { type_: IT::PLA, mode: AM::IMP, cycles: 4 },
        0x69 => I { type_: IT::ADC, mode: AM::IMM, cycles: 2 },
        0x6A => I { type_: IT::ROR, mode: AM::IMP, cycles: 2 },
        0x6B => I { type_: IT::INVALID, mode: AM::IMP, cycles: 2 },
        0x6C => I { type_: IT::JMP, mode: AM::IND, cycles: 5 },
        0x6D => I { type_: IT::ADC, mode: AM::ABS, cycles: 4 },
        0x6E => I { type_: IT::ROR, mode: AM::ABS, cycles: 6 },
        0x6F => I { type_: IT::INVALID, mode: AM::IMP, cycles: 6 },
        0x70 => I { type_: IT::BVS, mode: AM::REL, cycles: 2 },
        0x71 => I { type_: IT::ADC, mode: AM::IZY, cycles: 5 },
        0x72 => I { type_: IT::INVALID, mode: AM::IMP, cycles: 2 },
        0x73 => I { type_: IT::INVALID, mode: AM::IMP, cycles: 8 },
        0x74 => I { type_: IT::INVALID, mode: AM::IMP, cycles: 4 },
        0x75 => I { type_: IT::ADC, mode: AM::ZPX, cycles: 4 },
        0x76 => I { type_: IT::ROR, mode: AM::ZPX, cycles: 6 },
        0x77 => I { type_: IT::INVALID, mode: AM::IMP, cycles: 6 },
        0x78 => I { type_: IT::SEI, mode: AM::IMP, cycles: 2 },
        0x79 => I { type_: IT::ADC, mode: AM::ABY, cycles: 4 },
        0x7A => I { type_: IT::INVALID, mode: AM::IMP, cycles: 2 },
        0x7B => I { type_: IT::INVALID, mode: AM::IMP, cycles: 7 },
        0x7C => I { type_: IT::INVALID, mode: AM::IMP, cycles: 4 },
        0x7D => I { type_: IT::ADC, mode: AM::ABX, cycles: 4 },
        0x7E => I { type_: IT::ROR, mode: AM::ABX, cycles: 7 },
        0x7F => I { type_: IT::INVALID, mode: AM::IMP, cycles: 7 },
        0x80 => I { type_: IT::INVALID, mode: AM::IMP, cycles: 2 },
        0x81 => I { type_: IT::STA, mode: AM::IZX, cycles: 6 },
        0x82 => I { type_: IT::INVALID, mode: AM::IMP, cycles: 2 },
        0x83 => I { type_: IT::INVALID, mode: AM::IMP, cycles: 6 },
        0x84 => I { type_: IT::STY, mode: AM::ZP0, cycles: 3 },
        0x85 => I { type_: IT::STA, mode: AM::ZP0, cycles: 3 },
        0x86 => I { type_: IT::STX, mode: AM::ZP0, cycles: 3 },
        0x87 => I { type_: IT::INVALID, mode: AM::IMP, cycles: 3 },
        0x88 => I { type_: IT::DEY, mode: AM::IMP, cycles: 2 },
        0x89 => I { type_: IT::INVALID, mode: AM::IMP, cycles: 2 },
        0x8A => I { type_: IT::TXA, mode: AM::IMP, cycles: 2 },
        0x8B => I { type_: IT::INVALID, mode: AM::IMP, cycles: 2 },
        0x8C => I { type_: IT::STY, mode: AM::ABS, cycles: 4 },
        0x8D => I { type_: IT::STA, mode: AM::ABS, cycles: 4 },
        0x8E => I { type_: IT::STX, mode: AM::ABS, cycles: 4 },
        0x8F => I { type_: IT::INVALID, mode: AM::IMP, cycles: 4 },
        0x90 => I { type_: IT::BCC, mode: AM::REL, cycles: 2 },
        0x91 => I { type_: IT::STA, mode: AM::IZY, cycles: 6 },
        0x92 => I { type_: IT::INVALID, mode: AM::IMP, cycles: 2 },
        0x93 => I { type_: IT::INVALID, mode: AM::IMP, cycles: 6 },
        0x94 => I { type_: IT::STY, mode: AM::ZPX, cycles: 4 },
        0x95 => I { type_: IT::STA, mode: AM::ZPX, cycles: 4 },
        0x96 => I { type_: IT::STX, mode: AM::ZPY, cycles: 4 },
        0x97 => I { type_: IT::INVALID, mode: AM::IMP, cycles: 4 },
        0x98 => I { type_: IT::TYA, mode: AM::IMP, cycles: 2 },
        0x99 => I { type_: IT::STA, mode: AM::ABY, cycles: 5 },
        0x9A => I { type_: IT::TXS, mode: AM::IMP, cycles: 2 },
        0x9B => I { type_: IT::INVALID, mode: AM::IMP, cycles: 5 },
        0x9C => I { type_: IT::INVALID, mode: AM::IMP, cycles: 5 },
        0x9D => I { type_: IT::STA, mode: AM::ABX, cycles: 5 },
        0x9E => I { type_: IT::INVALID, mode: AM::IMP, cycles: 5 },
        0x9F => I { type_: IT::INVALID, mode: AM::IMP, cycles: 5 },
        0xA0 => I { type_: IT::LDY, mode: AM::IMM, cycles: 2 },
        0xA1 => I { type_: IT::LDA, mode: AM::IZX, cycles: 6 },
        0xA2 => I { type_: IT::LDX, mode: AM::IMM, cycles: 2 },
        0xA3 => I { type_: IT::INVALID, mode: AM::IMP, cycles: 6 },
        0xA4 => I { type_: IT::LDY, mode: AM::ZP0, cycles: 3 },
        0xA5 => I { type_: IT::LDA, mode: AM::ZP0, cycles: 3 },
        0xA6 => I { type_: IT::LDX, mode: AM::ZP0, cycles: 3 },
        0xA7 => I { type_: IT::INVALID, mode: AM::IMP, cycles: 3 },
        0xA8 => I { type_: IT::TAY, mode: AM::IMP, cycles: 2 },
        0xA9 => I { type_: IT::LDA, mode: AM::IMM, cycles: 2 },
        0xAA => I { type_: IT::TAX, mode: AM::IMP, cycles: 2 },
        0xAB => I { type_: IT::INVALID, mode: AM::IMP, cycles: 2 },
        0xAC => I { type_: IT::LDY, mode: AM::ABS, cycles: 4 },
        0xAD => I { type_: IT::LDA, mode: AM::ABS, cycles: 4 },
        0xAE => I { type_: IT::LDX, mode: AM::ABS, cycles: 4 },
        0xAF => I { type_: IT::INVALID, mode: AM::IMP, cycles: 4 },
        0xB0 => I { type_: IT::BCS, mode: AM::REL, cycles: 2 },
        0xB1 => I { type_: IT::LDA, mode: AM::IZY, cycles: 5 },
        0xB2 => I { type_: IT::INVALID, mode: AM::IMP, cycles: 2 },
        0xB3 => I { type_: IT::INVALID, mode: AM::IMP, cycles: 5 },
        0xB4 => I { type_: IT::LDY, mode: AM::ZPX, cycles: 4 },
        0xB5 => I { type_: IT::LDA, mode: AM::ZPX, cycles: 4 },
        0xB6 => I { type_: IT::LDX, mode: AM::ZPY, cycles: 4 },
        0xB7 => I { type_: IT::INVALID, mode: AM::IMP, cycles: 4 },
        0xB8 => I { type_: IT::CLV, mode: AM::IMP, cycles: 2 },
        0xB9 => I { type_: IT::LDA, mode: AM::ABY, cycles: 4 },
        0xBA => I { type_: IT::TSX, mode: AM::IMP, cycles: 2 },
        0xBB => I { type_: IT::INVALID, mode: AM::IMP, cycles: 4 },
        0xBC => I { type_: IT::LDY, mode: AM::ABX, cycles: 4 },
        0xBD => I { type_: IT::LDA, mode: AM::ABX, cycles: 4 },
        0xBE => I { type_: IT::LDX, mode: AM::ABY, cycles: 4 },
        0xBF => I { type_: IT::INVALID, mode: AM::IMP, cycles: 4 },
        0xC0 => I { type_: IT::CPY, mode: AM::IMM, cycles: 2 },
        0xC1 => I { type_: IT::CMP, mode: AM::IZX, cycles: 6 },
        0xC2 => I { type_: IT::INVALID, mode: AM::IMP, cycles: 2 },
        0xC3 => I { type_: IT::INVALID, mode: AM::IMP, cycles: 8 },
        0xC4 => I { type_: IT::CPY, mode: AM::ZP0, cycles: 3 },
        0xC5 => I { type_: IT::CMP, mode: AM::ZP0, cycles: 3 },
        0xC6 => I { type_: IT::DEC, mode: AM::ZP0, cycles: 5 },
        0xC7 => I { type_: IT::INVALID, mode: AM::IMP, cycles: 5 },
        0xC8 => I { type_: IT::INY, mode: AM::IMP, cycles: 2 },
        0xC9 => I { type_: IT::CMP, mode: AM::IMM, cycles: 2 },
        0xCA => I { type_: IT::DEX, mode: AM::IMP, cycles: 2 },
        0xCB => I { type_: IT::INVALID, mode: AM::IMP, cycles: 2 },
        0xCC => I { type_: IT::CPY, mode: AM::ABS, cycles: 4 },
        0xCD => I { type_: IT::CMP, mode: AM::ABS, cycles: 4 },
        0xCE => I { type_: IT::DEC, mode: AM::ABS, cycles: 6 },
        0xCF => I { type_: IT::INVALID, mode: AM::IMP, cycles: 6 },
        0xD0 => I { type_: IT::BNE, mode: AM::REL, cycles: 2 },
        0xD1 => I { type_: IT::CMP, mode: AM::IZY, cycles: 5 },
        0xD2 => I { type_: IT::INVALID, mode: AM::IMP, cycles: 2 },
        0xD3 => I { type_: IT::INVALID, mode: AM::IMP, cycles: 8 },
        0xD4 => I { type_: IT::INVALID, mode: AM::IMP, cycles: 4 },
        0xD5 => I { type_: IT::CMP, mode: AM::ZPX, cycles: 4 },
        0xD6 => I { type_: IT::DEC, mode: AM::ZPX, cycles: 6 },
        0xD7 => I { type_: IT::INVALID, mode: AM::IMP, cycles: 6 },
        0xD8 => I { type_: IT::CLD, mode: AM::IMP, cycles: 2 },
        0xD9 => I { type_: IT::CMP, mode: AM::ABY, cycles: 4 },
        0xDA => I { type_: IT::NOP, mode: AM::IMP, cycles: 2 },
        0xDB => I { type_: IT::INVALID, mode: AM::IMP, cycles: 7 },
        0xDC => I { type_: IT::INVALID, mode: AM::IMP, cycles: 4 },
        0xDD => I { type_: IT::CMP, mode: AM::ABX, cycles: 4 },
        0xDE => I { type_: IT::DEC, mode: AM::ABX, cycles: 7 },
        0xDF => I { type_: IT::INVALID, mode: AM::IMP, cycles: 7 },
        0xE0 => I { type_: IT::CPX, mode: AM::IMM, cycles: 2 },
        0xE1 => I { type_: IT::SBC, mode: AM::IZX, cycles: 6 },
        0xE2 => I { type_: IT::INVALID, mode: AM::IMP, cycles: 2 },
        0xE3 => I { type_: IT::INVALID, mode: AM::IMP, cycles: 8 },
        0xE4 => I { type_: IT::CPX, mode: AM::ZP0, cycles: 3 },
        0xE5 => I { type_: IT::SBC, mode: AM::ZP0, cycles: 3 },
        0xE6 => I { type_: IT::INC, mode: AM::ZP0, cycles: 5 },
        0xE7 => I { type_: IT::INVALID, mode: AM::IMP, cycles: 5 },
        0xE8 => I { type_: IT::INX, mode: AM::IMP, cycles: 2 },
        0xE9 => I { type_: IT::SBC, mode: AM::IMM, cycles: 2 },
        0xEA => I { type_: IT::NOP, mode: AM::IMP, cycles: 2 },
        0xEB => I { type_: IT::INVALID, mode: AM::IMP, cycles: 2 },
        0xEC => I { type_: IT::CPX, mode: AM::ABS, cycles: 4 },
        0xED => I { type_: IT::SBC, mode: AM::ABS, cycles: 4 },
        0xEE => I { type_: IT::INC, mode: AM::ABS, cycles: 6 },
        0xEF => I { type_: IT::INVALID, mode: AM::IMP, cycles: 6 },
        0xF0 => I { type_: IT::BEQ, mode: AM::REL, cycles: 2 },
        0xF1 => I { type_: IT::SBC, mode: AM::IZY, cycles: 5 },
        0xF2 => I { type_: IT::INVALID, mode: AM::IMP, cycles: 2 },
        0xF3 => I { type_: IT::INVALID, mode: AM::IMP, cycles: 8 },
        0xF4 => I { type_: IT::INVALID, mode: AM::IMP, cycles: 4 },
        0xF5 => I { type_: IT::SBC, mode: AM::ZPX, cycles: 4 },
        0xF6 => I { type_: IT::INC, mode: AM::ZPX, cycles: 6 },
        0xF7 => I { type_: IT::INVALID, mode: AM::IMP, cycles: 6 },
        0xF8 => I { type_: IT::SED, mode: AM::IMP, cycles: 2 },
        0xF9 => I { type_: IT::SBC, mode: AM::ABY, cycles: 4 },
        0xFA => I { type_: IT::NOP, mode: AM::IMP, cycles: 2 },
        0xFB => I { type_: IT::INVALID, mode: AM::IMP, cycles: 7 },
        0xFC => I { type_: IT::INVALID, mode: AM::IMP, cycles: 4 },
        0xFD => I { type_: IT::SBC, mode: AM::ABX, cycles: 4 },
        0xFE => I { type_: IT::INC, mode: AM::ABX, cycles: 7 },
        _ => I { type_: IT::INVALID, mode: AM::IMP, cycles: 7 },
    }
}

/// Looks an opcode up in the instruction table.
pub fn lookup_instruction(opcode: u8) -> (r: Instruction)
    ensures
        r == instruction_of(opcode),
{
    match opcode {
        0x00 => I { type_: IT::BRK, mode: AM::IMM, cycles: 7 },
        0x01 => I { type_: IT::ORA, mode: AM::IZX, cycles: 6 },
        0x02 => I { type_: IT::INVALID, mode: AM::IMP, cycles: 2 },
        0x03 => I { type_: IT::INVALID, mode: AM::IMP, cycles: 8 },
        0x04 => I { type_: IT::INVALID, mode: AM::IMP, cycles: 3 },
        0x05 => I { type_: IT::ORA, mode: AM::ZP0, cycles: 3 },
        0x06 => I { type_: IT::ASL, mode: AM::ZP0, cycles: 5 },
        0x07 => I { type_: IT::INVALID, mode: AM::IMP, cycles: 5 },
        0x08 => I { type_: IT::PHP, mode: AM::IMP, cycles: 3 },
        0x09 => I { type_: IT::ORA, mode: AM::IMM, cycles: 2 },
        0x0A => I { type_: IT::ASL, mode: AM::IMP, cycles: 2 },
        0x0B => I { type_: IT::INVALID, mode: AM::IMP, cycles: 2 },
        0x0C => I { type_: IT::INVALID, mode: AM::IMP, cycles: 4 },
        0x0D => I { type_: IT::ORA, mode: AM::ABS, cycles: 4 },
        0x0E => I { type_: IT::ASL, mode: AM::ABS, cycles: 6 },
        0x0F => I { type_: IT::INVALID, mode: AM::IMP, cycles: 6 },
        0x10 => I { type_: IT::BPL, mode: AM::REL, cycles: 2 },
        0x11 => I { type_: IT::ORA, mode: AM::IZY, cycles: 5 },
        0x12 => I { type_: IT::INVALID, mode: AM::IMP, cycles: 2 },
        0x13 => I { type_: IT::INVALID, mode: AM::IMP, cycles: 8 },
        0x14 => I { type_: IT::INVALID, mode: AM::IMP, cycles: 4 },
        0x15 => I { type_: IT::ORA, mode: AM::ZPX, cycles: 4 },
        0x16 => I { type_: IT::ASL, mode: AM::ZPX, cycles: 6 },
        0x17 => I { type_: IT::INVALID, mode: AM::IMP, cycles: 6 },
        0x18 => I { type_: IT::CLC, mode: AM::IMP, cycles: 2 },
        0x19 => I { type_: IT::ORA, mode: AM::ABY, cycles: 4 },
        0x1A => I { type_: IT::INVALID, mode: AM::IMP, cycles: 2 },
        0x1B => I { type_: IT::INVALID, mode: AM::IMP, cycles: 7 },
        0x1C => I { type_: IT::INVALID, mode: AM::IMP, cycles: 4 },
        0x1D => I { type_: IT::ORA, mode: AM::ABX, cycles: 4 },
        0x1E => I { type_: IT::ASL, mode: AM::ABX, cycles: 7 },
        0x1F => I { type_: IT::INVALID, mode: AM::IMP, cycles: 7 },
        0x20 => I { type_: IT::JSR, mode: AM::ABS, cycles: 6 },
        0x21 => I { type_: IT::AND, mode: AM::IZX, cycles: 6 },
        0x22 => I { type_: IT::INVALID, mode: AM::IMP, cycles: 2 },
        0x23 => I { type_: IT::INVALID, mode: AM::IMP, cycles: 8 },
        0x24 => I { type_: IT::BIT, mode: AM::ZP0, cycles: 3 },
        0x25 => I { type_: IT::AND, mode: AM::ZP0, cycles: 3 },
        0x26 => I { type_: IT::ROL, mode: AM::ZP0, cycles: 5 },
        0x27 => I { type_: IT::INVALID, mode: AM::IMP, cycles: 5 },
        0x28 => I { type_: IT::PLP, mode: AM::IMP, cycles: 4 },
        0x29 => I { type_: IT::AND, mode: AM::IMM, cycles: 2 },
        0x2A => I { type_: IT::ROL, mode: AM::IMP, cycles: 2 },
        0x2B => I { type_: IT::INVALID, mode: AM::IMP, cycles: 2 },
        0x2C => I { type_: IT::BIT, mode: AM::ABS, cycles: 4 },
        0x2D => I { type_: IT::AND, mode: AM::ABS, cycles: 4 },
        0x2E => I { type_: IT::ROL, mode: AM::ABS, cycles: 6 },
        0x2F => I { type_: IT::INVALID, mode: AM::IMP, cycles: 6 },
        0x30 => I { type_: IT::BMI, mode: AM::REL, cycles: 2 },
        0x31 => I { type_: IT::AND, mode: AM::IZY, cycles: 5 },
        0x32 => I { type_: IT::INVALID, mode: AM::IMP, cycles: 2 },
        0x33 => I { type_: IT::INVALID, mode: AM::IMP, cycles: 8 },
        0x34 => I { type_: IT::INVALID, mode: AM::IMP, cycles: 4 },
        0x35 => I { type_: IT::AND, mode: AM::ZPX, cycles: 4 },
        0x36 => I { type_: IT::ROL, mode: AM::ZPX, cycles: 6 },
        0x37 => I { type_: IT::INVALID, mode: AM::IMP, cycles: 6 },
        0x38 => I { type_: IT::SEC, mode: AM::IMP, cycles: 2 },
        0x39 => I { type_: IT::AND, mode: AM::ABY, cycles: 4 },
        0x3A => I { type_: IT::INVALID, mode: AM::IMP, cycles: 2 },
        0x3B => I { type_: IT::INVALID, mode: AM::IMP, cycles: 7 },
        0x3C => I { type_: IT::INVALID, mode: AM::IMP, cycles: 4 },
        0x3D => I { type_: IT::AND, mode: AM::ABX, cycles: 4 },
        0x3E => I { type_: IT::ROL, mode: AM::ABX, cycles: 7 },
        0x3F => I { type_: IT::INVALID, mode: AM::IMP, cycles: 7 },
        0x40 => I { type_: IT::RTI, mode: AM::IMP, cycles: 6 },
        0x41 => I { type_: IT::EOR, mode: AM::IZX, cycles: 6 },
        0x42 => I { type_: IT::INVALID, mode: AM::IMP, cycles: 2 },
        0x43 => I { type_: IT::INVALID, mode: AM::IMP, cycles: 8 },
        0x44 => I { type_: IT::INVALID, mode: AM::IMP, cycles: 3 },
        0x45 => I { type_: IT::EOR, mode: AM::ZP0, cycles: 3 },
        0x46 => I { type_: IT::LSR, mode: AM::ZP0, cycles: 5 },
        0x47 => I { type_: IT::INVALID, mode: AM::IMP, cycles: 5 },
        0x48 => I { type_: IT::PHA, mode: AM::IMP, cycles: 3 },
        0x49 => I { type_: IT::EOR, mode: AM::IMM, cycles: 2 },
        0x4A => I { type_: IT::LSR, mode: AM::IMP, cycles: 2 },
        0x4B => I { type_: IT::INVALID, mode: AM::IMP, cycles: 2 },
        0x4C => I { type_: IT::JMP, mode: AM::ABS, cycles: 3 },
        0x4D => I { type_: IT::EOR, mode: AM::ABS, cycles: 4 },
        0x4E => I { type_: IT::LSR, mode: AM::ABS, cycles: 6 },
        0x4F => I { type_: IT::INVALID, mode: AM::IMP, cycles: 6 },
        0x50 => I { type_: IT::BVC, mode: AM::REL, cycles: 2 },
        0x51 => I { type_: IT::EOR, mode: AM::IZY, cycles: 5 },
        0x52 => I { type_: IT::INVALID, mode: AM::IMP, cycles: 2 },
        0x53 => I { type_: IT::INVALID, mode: AM::IMP, cycles: 8 },
        0x54 => I { type_: IT::INVALID, mode: AM::IMP, cycles: 4 },
        0x55 => I { type_: IT::EOR, mode: AM::ZPX, cycles: 4 },
        0x56 => I { type_: IT::LSR, mode: AM::ZPX, cycles: 6 },
        0x57 => I { type_: IT::INVALID, mode: AM::IMP, cycles: 6 },
        0x58 => I { type_: IT::CLI, mode: AM::IMP, cycles: 2 },
        0x59 => I { type_: IT::EOR, mode: AM::ABY, cycles: 4 },
        0x5A => I { type_: IT::INVALID, mode: AM::IMP, cycles: 2 },
        0x5B => I { type_: IT::INVALID, mode: AM::IMP, cycles: 7 },
        0x5C => I { type_: IT::INVALID, mode: AM::IMP, cycles: 4 },
        0x5D => I { type_: IT::EOR, mode: AM::ABX, cycles: 4 },
        0x5E => I { type_: IT::LSR, mode: AM::ABX, cycles: 7 },
        0x5F => I { type_: IT::INVALID, mode: AM::IMP, cycles: 7 },
        0x60 => I { type_: IT::RTS, mode: AM::IMP, cycles: 6 },
        0x61 => I { type_: IT::ADC, mode: AM::IZX, cycles: 6 },
        0x62 => I { type_: IT::INVALID, mode: AM::IMP, cycles: 2 },
        0x63 => I { type_: IT::INVALID, mode: AM::IMP, cycles: 8 },
        0x64 => I { type_: IT::INVALID, mode: AM::IMP, cycles: 3 },
        0x65 => I { type_: IT::ADC, mode: AM::ZP0, cycles: 3 },
        0x66 => I { type_: IT::ROR, mode: AM::ZP0, cycles: 5 },
        0x67 => I { type_: IT::INVALID, mode: AM::IMP, cycles: 5 },
        0x68 => I { type_: IT::PLA, mode: AM::IMP, cycles: 4 },
        0x69 => I { type_: IT::ADC, mode: AM::IMM, cycles: 2 },
        0x6A => I { type_: IT::ROR, mode: AM::IMP, cycles: 2 },
        0x6B => I { type_: IT::INVALID, mode: AM::IMP, cycles: 2 },
        0x6C => I { type_: IT::JMP, mode: AM::IND, cycles: 5 },
        0x6D => I { type_: IT::ADC, mode: AM::ABS, cycles: 4 },
        0x6E => I { type_: IT::ROR, mode: AM::ABS, cycles: 6 },
        0x6F => I { type_: IT::INVALID, mode: AM::IMP, cycles: 6 },
        0x70 => I { type_: IT::BVS, mode: AM::REL, cycles: 2 },
        0x71 => I { type_: IT::ADC, mode: AM::IZY, cycles: 5 },
        0x72 => I { type_: IT::INVALID, mode: AM::IMP, cycles: 2 },
        0x73 => I { type_: IT::INVALID, mode: AM::IMP, cycles: 8 },
        0x74 => I { type_: IT::INVALID, mode: AM::IMP, cycles: 4 },
        0x75 => I { type_: IT::ADC, mode: AM::ZPX, cycles: 4 },
        0x76 => I { type_: IT::ROR, mode: AM::ZPX, cycles: 6 },
        0x77 => I { type_: IT::INVALID, mode: AM::IMP, cycles: 6 },
        0x78 => I { type_: IT::SEI, mode: AM::IMP, cycles: 2 },
        0x79 => I { type_: IT::ADC, mode: AM::ABY, cycles: 4 },
        0x7A => I { type_: IT::INVALID, mode: AM::IMP, cycles: 2 },
        0x7B => I { type_: IT::INVALID, mode: AM::IMP, cycles: 7 },
        0x7C => I { type_: IT::INVALID, mode: AM::IMP, cycles: 4 },
        0x7D => I { type_: IT::ADC, mode: AM::ABX, cycles: 4 },
        0x7E => I { type_: IT::ROR, mode: AM::ABX, cycles: 7 },
        0x7F => I { type_: IT::INVALID, mode: AM::IMP, cycles: 7 },
        0x80 => I { type_: IT::INVALID, mode: AM::IMP, cycles: 2 },
        0x81 => I { type_: IT::STA, mode: AM::IZX, cycles: 6 },
        0x82 => I { type_: IT::INVALID, mode: AM::IMP, cycles: 2 },
        0x83 => I { type_: IT::INVALID, mode: AM::IMP, cycles: 6 },
        0x84 => I { type_: IT::STY, mode: AM::ZP0, cycles: 3 },
        0x85 => I { type_: IT::STA, mode: AM::ZP0, cycles: 3 },
        0x86 => I { type_: IT::STX, mode: AM::ZP0, cycles: 3 },
        0x87 => I { type_: IT::INVALID, mode: AM::IMP, cycles: 3 },
        0x88 => I { type_: IT::DEY, mode: AM::IMP, cycles: 2 },
        0x89 => I { type_: IT::INVALID, mode: AM::IMP, cycles: 2 },
        0x8A => I { type_: IT::TXA, mode: AM::IMP, cycles: 2 },
        0x8B => I { type_: IT::INVALID, mode: AM::IMP, cycles: 2 },
        0x8C => I { type_: IT::STY, mode: AM::ABS, cycles: 4 },
        0x8D => I { type_: IT::STA, mode: AM::ABS, cycles: 4 },
        0x8E => I { type_: IT::STX, mode: AM::ABS, cycles: 4 },
        0x8F => I { type_: IT::INVALID, mode: AM::IMP, cycles: 4 },
        0x90 => I { type_: IT::BCC, mode: AM::REL, cycles: 2 },
        0x91 => I { type_: IT::STA, mode: AM::IZY, cycles: 6 },
        0x92 => I { type_: IT::INVALID, mode: AM::IMP, cycles: 2 },
        0x93 => I { type_: IT::INVALID, mode: AM::IMP, cycles: 6 },
        0x94 => I { type_: IT::STY, mode: AM::ZPX, cycles: 4 },
        0x95 => I { type_: IT::STA, mode: AM::ZPX, cycles: 4 },
        0x96 => I { type_: IT::STX, mode: AM::ZPY, cycles: 4 },
        0x97 => I { type_: IT::INVALID, mode: AM::IMP, cycles: 4 },
        0x98 => I { type_: IT::TYA, mode: AM::IMP, cycles: 2 },
        0x99 => I { type_: IT::STA, mode: AM::ABY, cycles: 5 },
        0x9A => I { type_: IT::TXS, mode: AM::IMP, cycles: 2 },
        0x9B => I { type_: IT::INVALID, mode: AM::IMP, cycles: 5 },
        0x9C => I { type_: IT::INVALID, mode: AM::IMP, cycles: 5 },
        0x9D => I { type_: IT::STA, mode: AM::ABX, cycles: 5 },
        0x9E => I { type_: IT::INVALID, mode: AM::IMP, cycles: 5 },
        0x9F => I { type_: IT::INVALID, mode: AM::IMP, cycles: 5 },
        0xA0 => I { type_: IT::LDY, mode: AM::IMM, cycles: 2 },
        0xA1 => I { type_: IT::LDA, mode: AM::IZX, cycles: 6 },
        0xA2 => I { type_: IT::LDX, mode: AM::IMM, cycles: 2 },
        0xA3 => I { type_: IT::INVALID, mode: AM::IMP, cycles: 6 },
        0xA4 => I { type_: IT::LDY, mode: AM::ZP0, cycles: 3 },
        0xA5 => I { type_: IT::LDA, mode: AM::ZP0, cycles: 3 },
        0xA6 => I { type_: IT::LDX, mode: AM::ZP0, cycles: 3 },
        0xA7 => I { type_: IT::INVALID, mode: AM::IMP, cycles: 3 },
        0xA8 => I { type_: IT::TAY, mode: AM::IMP, cycles: 2 },
        0xA9 => I { type_: IT::LDA, mode: AM::IMM, cycles: 2 },
        0xAA => I { type_: IT::TAX, mode: AM::IMP, cycles: 2 },
        0xAB => I { type_: IT::INVALID, mode: AM::IMP, cycles: 2 },
        0xAC => I { type_: IT::LDY, mode: AM::ABS, cycles: 4 },
        0xAD => I { type_: IT::LDA, mode: AM::ABS, cycles: 4 },
        0xAE => I { type_: IT::LDX, mode: AM::ABS, cycles: 4 },
        0xAF => I { type_: IT::INVALID, mode: AM::IMP, cycles: 4 },
        0xB0 => I { type_: IT::BCS, mode: AM::REL, cycles: 2 },
        0xB1 => I { type_: IT::LDA, mode: AM::IZY, cycles: 5 },
        0xB2 => I { type_: IT::INVALID, mode: AM::IMP, cycles: 2 },
        0xB3 => I { type_: IT::INVALID, mode: AM::IMP, cycles: 5 },
        0xB4 => I { type_: IT::LDY, mode: AM::ZPX, cycles: 4 },
        0xB5 => I { type_: IT::LDA, mode: AM::ZPX, cycles: 4 },
        0xB6 => I { type_: IT::LDX, mode: AM::ZPY, cycles: 4 },
        0xB7 => I { type_: IT::INVALID, mode: AM::IMP, cycles: 4 },
        0xB8 => I { type_: IT::CLV, mode: AM::IMP, cycles: 2 },
        0xB9 => I { type_: IT::LDA, mode: AM::ABY, cycles: 4 },
        0xBA => I { type_: IT::TSX, mode: AM::IMP, cycles: 2 },
        0xBB => I { type_: IT::INVALID, mode: AM::IMP, cycles: 4 },
        0xBC => I { type_: IT::LDY, mode: AM::ABX, cycles: 4 },
        0xBD => I { type_: IT::LDA, mode: AM::ABX, cycles: 4 },
        0xBE => I { type_: IT::LDX, mode: AM::ABY, cycles: 4 },
        0xBF => I { type_: IT::INVALID, mode: AM::IMP, cycles: 4 },
        0xC0 => I { type_: IT::CPY, mode: AM::IMM, cycles: 2 },
        0xC1 => I { type_: IT::CMP, mode: AM::IZX, cycles: 6 },
        0xC2 => I { type_: IT::INVALID, mode: AM::IMP, cycles: 2 },
        0xC3 => I { type_: IT::INVALID, mode: AM::IMP, cycles: 8 },
        0xC4 => I { type_: IT::CPY, mode: AM::ZP0, cycles: 3 },
        0xC5 => I { type_: IT::CMP, mode: AM::ZP0, cycles: 3 },
        0xC6 => I { type_: IT::DEC, mode: AM::ZP0, cycles: 5 },
        0xC7 => I { type_: IT::INVALID, mode: AM::IMP, cycles: 5 },
        0xC8 => I { type_: IT::INY, mode: AM::IMP, cycles: 2 },
        0xC9 => I { type_: IT::CMP, mode: AM::IMM, cycles: 2 },
        0xCA => I { type_: IT::DEX, mode: AM::IMP, cycles: 2 },
        0xCB => I { type_: IT::INVALID, mode: AM::IMP, cycles: 2 },
        0xCC => I { type_: IT::CPY, mode: AM::ABS, cycles: 4 },
        0xCD => I { type_: IT::CMP, mode: AM::ABS, cycles: 4 },
        0xCE => I { type_: IT::DEC, mode: AM::ABS, cycles: 6 },
        0xCF => I { type_: IT::INVALID, mode: AM::IMP, cycles: 6 },
        0xD0 => I { type_: IT::BNE, mode: AM::REL, cycles: 2 },
        0xD1 => I { type_: IT::CMP, mode: AM::IZY, cycles: 5 },
        0xD2 => I { type_: IT::INVALID, mode: AM::IMP, cycles: 2 },
        0xD3 => I { type_: IT::INVALID, mode: AM::IMP, cycles: 8 },
        0xD4 => I { type_: IT::INVALID, mode: AM::IMP, cycles: 4 },
        0xD5 => I { type_: IT::CMP, mode: AM::ZPX, cycles: 4 },
        0xD6 => I { type_: IT::DEC, mode: AM::ZPX, cycles: 6 },
        0xD7 => I { type_: IT::INVALID, mode: AM::IMP, cycles: 6 },
        0xD8 => I { type_: IT::CLD, mode: AM::IMP, cycles: 2 },
        0xD9 => I { type_: IT::CMP, mode: AM::ABY, cycles: 4 },
        0xDA => I { type_: IT::NOP, mode: AM::IMP, cycles: 2 },
        0xDB => I { type_: IT::INVALID, mode: AM::IMP, cycles: 7 },
        0xDC => I { type_: IT::INVALID, mode: AM::IMP, cycles: 4 },
        0xDD => I { type_: IT::CMP, mode: AM::ABX, cycles: 4 },
        0xDE => I { type_: IT::DEC, mode: AM::ABX, cycles: 7 },
        0xDF => I { type_: IT::INVALID, mode: AM::IMP, cycles: 7 },
        0xE0 => I { type_: IT::CPX, mode: AM::IMM, cycles: 2 },
        0xE1 => I { type_: IT::SBC, mode: AM::IZX, cycles: 6 },
        0xE2 => I { type_: IT::INVALID, mode: AM::IMP, cycles: 2 },
        0xE3 => I { type_: IT::INVALID, mode: AM::IMP, cycles: 8 },
        0xE4 => I { type_: IT::CPX, mode: AM::ZP0, cycles: 3 },
        0xE5 => I { type_: IT::SBC, mode: AM::ZP0, cycles: 3 },
        0xE6 => I { type_: IT::INC, mode: AM::ZP0, cycles: 5 },
        0xE7 => I { type_: IT::INVALID, mode: AM::IMP, cycles: 5 },
        0xE8 => I { type_: IT::INX, mode: AM::IMP, cycles: 2 },
        0xE9 => I { type_: IT::SBC, mode: AM::IMM, cycles: 2 },
        0xEA => I { type_: IT::NOP, mode: AM::IMP, cycles: 2 },
        0xEB => I { type_: IT::INVALID, mode: AM::IMP, cycles: 2 },
        0xEC => I { type_: IT::CPX, mode: AM::ABS, cycles: 4 },
        0xED => I { type_: IT::SBC, mode: AM::ABS, cycles: 4 },
        0xEE => I { type_: IT::INC, mode: AM::ABS, cycles: 6 },
        0xEF => I { type_: IT::INVALID, mode: AM::IMP, cycles: 6 },
        0xF0 => I { type_: IT::BEQ, mode: AM::REL, cycles: 2 },
        0xF1 => I { type_: IT::SBC, mode: AM::IZY, cycles: 5 },
        0xF2 => I { type_: IT::INVALID, mode: AM::IMP, cycles: 2 },
        0xF3 => I { type_: IT::INVALID, mode: AM::IMP, cycles: 8 },
        0xF4 => I { type_: IT::INVALID, mode: AM::IMP, cycles: 4 },
        0xF5 => I { type_: IT::SBC, mode: AM::ZPX, cycles: 4 },
        0xF6 => I { type_: IT::INC, mode: AM::ZPX, cycles: 6 },
        0xF7 => I { type_: IT::INVALID, mode: AM::IMP, cycles: 6 },
        0xF8 => I { type_: IT::SED, mode: AM::IMP, cycles: 2 },
        0xF9 => I { type_: IT::SBC, mode: AM::ABY, cycles: 4 },
        0xFA => I { type_: IT::NOP, mode: AM::IMP, cycles: 2 },
        0xFB => I { type_: IT::INVALID, mode: AM::IMP, cycles: 7 },
        0xFC => I { type_: IT::INVALID, mode: AM::IMP, cycles: 4 },
        0xFD => I { type_: IT::SBC, mode: AM::ABX, cycles: 4 },
        0xFE => I { type_: IT::INC, mode: AM::ABX, cycles: 7 },
        _ => I { type_: IT::INVALID, mode: AM::IMP, cycles: 7 },
    }
}

/// Every entry of the table takes at least two and at most eight cycles.
pub proof fn lemma_instruction_cycles(opcode: u8)
    ensures
        2 <= instruction_of(opcode).cycles <= 8,
{
}


/// Adds one (`up`) or subtracts one, wrapping around.
fn wrapping_step(v: u8, up: bool) -> (r: u8)
    ensures
        r == ((v + (if up { 1int } else { 255int })) % 256) as u8,
{
    if up {
        v.wrapping_add(1)
    } else {
        v.wrapping_sub(1)
    }
}

impl CPU {
    fn register(&self, r: Register) -> (v: u8)
        ensures
            v == self@.register(r),
    {
        match r {
            Register::Acc => self.acc,
            Register::X => self.reg_x,
            Register::Y => self.reg_y,
            Register::StackPointer => self.stack_pointer,
        }
    }

    fn set_register(&mut self, r: Register, v: u8)
        ensures
            final(self).cycles == old(self).cycles,
            final(self)@ == old(self)@.with_register(r, v),
    {
        match r {
            Register::Acc => {
                self.acc = v;
            },
            Register::X => {
                self.reg_x = v;
            },
            Register::Y => {
                self.reg_y = v;
            },
            Register::StackPointer => {
                self.stack_pointer = v;
            },
        }
    }

    /// Sets the zero and negative flags from `v`.
    fn set_zn(&mut self, v: u8)
        ensures
            final(self).cycles == old(self).cycles,
            final(self)@ == old(self)@.with_status(with_zn(old(self).status, v)),
    {
        proof {
            lemma_byte_bits(v);
        }
        self.set_flag(StatusFlag::Zero, v == 0x00);
        self.set_flag(StatusFlag::Negative, v & 0x80 != 0);
    }

    /// Reads the operand (see `CpuState::fetch`).
    fn fetch_data(&mut self) -> (r: u8)
        requires
            old(self)@.fetch_ok(),
        ensures
            final(self).cycles == old(self).cycles,
            (final(self)@, r) == old(self)@.fetch(),
    {
        let instruction = lookup_instruction(self.opcode);
        if instruction.mode != AddressingMode::IMP {
            let address = self.addr_abs;
            let v = self.read(address, false);
            self.fetched = v;
        }
        self.fetched
    }

    fn store_shifted(&mut self, v: u8)
        requires
            old(self)@.shift_target_ok(),
        ensures
            final(self).cycles == old(self).cycles,
            final(self)@ == old(self)@.store_shifted(v),
    {
        if lookup_instruction(self.opcode).mode == AddressingMode::IMP {
            self.acc = v;
        } else {
            let address = self.addr_abs;
            self.write(address, v);
        }
    }

    fn load(&mut self, r: Register) -> (needs_cycle: bool)
        requires
            old(self)@.fetch_ok(),
        ensures
            final(self).cycles == old(self).cycles,
            (final(self)@, needs_cycle) == old(self)@.load(r),
    {
        let v = self.fetch_data();
        self.set_register(r, v);
        self.set_zn(v);
        true
    }

    fn store(&mut self, r: Register) -> (needs_cycle: bool)
        requires
            old(self)@.store_ok(),
        ensures
            final(self).cycles == old(self).cycles,
            (final(self)@, needs_cycle) == old(self)@.store(r),
    {
        let address = self.addr_abs;
        let v = self.register(r);
        self.write(address, v);
        false
    }

    fn transfer(&mut self, from: Register, to: Register) -> (needs_cycle: bool)
        ensures
            final(self).cycles == old(self).cycles,
            (final(self)@, needs_cycle) == old(self)@.transfer(from, to),
    {
        let v = self.register(from);
        self.set_register(to, v);
        self.set_zn(v);
        false
    }

    fn adc(&mut self) -> (needs_cycle: bool)
        requires
            old(self)@.fetch_ok(),
        ensures
            final(self).cycles == old(self).cycles,
            (final(self)@, needs_cycle) == old(self)@.adc(),
    {
        self.fetch_data();
        let carry: u16 = if self.get_flag(StatusFlag::Carry) { 1 } else { 0 };
        let acc = self.acc as u16;
        let m = self.fetched as u16;
        let temp: u16 = acc + m + carry;
        proof {
            assert(((!(acc ^ m) & (acc ^ temp)) & 0x0080u16 != 0) == ((acc < 128) == (m < 128) && (acc
                < 128) != ((temp % 256) < 128))) by (bit_vector)
                requires
                    acc < 256,
                    m < 256,
                    temp < 512,
            ;
            lemma_word_bits(temp);
        }
        self.set_flag(StatusFlag::Carry, temp > 255);
        self.set_flag(StatusFlag::Zero, (temp & 0x00FF) == 0);
        self.set_flag(StatusFlag::Overflow, (!(acc ^ m) & (acc ^ temp)) & 0x0080 != 0);
        self.set_flag(StatusFlag::Negative, temp & 0x80 != 0);
        self.acc = (temp & 0x00FF) as u8;
        true
    }

    fn sbc(&mut self) -> (needs_cycle: bool)
        requires
            old(self)@.fetch_ok(),
        ensures
            final(self).cycles == old(self).cycles,
            (final(self)@, needs_cycle) == old(self)@.sbc(),
    {
        self.fetch_data();
        let value = (self.fetched as u16) ^ 0x00FF;
        let carry: u16 = if self.get_flag(StatusFlag::Carry) { 1 } else { 0 };
        let acc = self.acc as u16;
        let m = self.fetched as u16;
        proof {
            lemma_word_bits(m);
        }
        let temp = acc + value + carry;
        proof {
            assert(((temp ^ acc) & (temp ^ value) & 0x0080u16 != 0) == ((acc < 128) == (value < 128)
                && (acc < 128) != ((temp % 256) < 128))) by (bit_vector)
                requires
                    acc < 256,
                    value < 256,
                    temp < 512,
            ;
            lemma_word_bits(temp);
        }
        self.set_flag(StatusFlag::Carry, temp & 0xFF00 != 0);
        self.set_flag(StatusFlag::Zero, (temp & 0x00FF) == 0);
        self.set_flag(StatusFlag::Overflow, (temp ^ acc) & (temp ^ value) & 0x0080 != 0);
        self.set_flag(StatusFlag::Negative, temp & 0x0080 != 0);
        self.acc = (temp & 0x00FF) as u8;
        true
    }

    /// INC (`up`) or DEC on the byte in memory.
    #[verifier::rlimit(60)]
    fn step_memory(&mut self, up: bool) -> (needs_cycle: bool)
        requires
            old(self)@.step_memory_ok(),
        ensures
            final(self).cycles == old(self).cycles,
            (final(self)@, needs_cycle) == old(self)@.step_memory(if up { 1 } else { 255 }),
    {
        let ghost s0 = self@;
        let m = self.fetch_data();
        let ghost s1 = self@;
        let temp = wrapping_step(m, up);
        let address = self.addr_abs;
        self.write(address, temp);
        assert(self@ == s1.write(s1.addr_abs, temp));
        self.set_zn(temp);
        false
    }

    /// INX/INY (`up`) or DEX/DEY.
    fn step_register(&mut self, r: Register, up: bool) -> (needs_cycle: bool)
        ensures
            final(self).cycles == old(self).cycles,
            (final(self)@, needs_cycle) == old(self)@.step_register(r, if up { 1 } else { 255 }),
    {
        let v = self.register(r);
        let t = wrapping_step(v, up);
        self.set_register(r, t);
        self.set_zn(t);
        false
    }

    fn asl(&mut self) -> (needs_cycle: bool)
        requires
            old(self)@.shift_ok(),
        ensures
            final(self).cycles == old(self).cycles,
            (final(self)@, needs_cycle) == old(self)@.asl(),
    {
        let m = self.fetch_data();
        let new_value = m << 1;
        proof {
            lemma_byte_bits(m);
            vstd::arithmetic::power2::lemma2_to64();
        }
        self.set_flag(StatusFlag::Carry, m.nth_bit(7) != 0);
        self.set_flag(StatusFlag::Zero, new_value == 0x00);
        self.set_flag(StatusFlag::Negative, new_value & 0x80 != 0);
        proof {
            lemma_byte_bits(new_value);
        }
        self.store_shifted(new_value);
        false
    }

    fn lsr(&mut self) -> (needs_cycle: bool)
        requires
            old(self)@.shift_ok(),
        ensures
            final(self).cycles == old(self).cycles,
            (final(self)@, needs_cycle) == old(self)@.lsr(),
    {
        let m = self.fetch_data();
        let new_value = m >> 1;
        proof {
            lemma_byte_bits(m);
            vstd::arithmetic::power2::lemma2_to64();
        }
        self.set_flag(StatusFlag::Carry, m.nth_bit(0) != 0);
        self.set_flag(StatusFlag::Zero, new_value == 0x00);
        self.set_flag(StatusFlag::Negative, false);
        self.store_shifted(new_value);
        false
    }

    fn rol(&mut self) -> (needs_cycle: bool)
        requires
            old(self)@.shift_ok(),
        ensures
            final(self).cycles == old(self).cycles,
            (final(self)@, needs_cycle) == old(self)@.rol(),
    {
        let m = self.fetch_data();
        let carry_flag: u8 = if self.get_flag(StatusFlag::Carry) { 1 } else { 0 };
        let new_value = (m << 1) | carry_flag;
        proof {
            lemma_shift_in_low_bits(m, carry_flag);
            vstd::arithmetic::power2::lemma2_to64();
        }
        self.set_flag(StatusFlag::Carry, m.nth_bit(7) != 0);
        self.set_flag(StatusFlag::Zero, new_value == 0x00);
        self.set_flag(StatusFlag::Negative, new_value.nth_bit(7) != 0);
        self.store_shifted(new_value);
        false
    }

    fn ror(&mut self) -> (needs_cycle: bool)
        requires
            old(self)@.shift_ok(),
        ensures
            final(self).cycles == old(self).cycles,
            (final(self)@, needs_cycle) == old(self)@.ror(),
    {
        let m = self.fetch_data();
        let carry_flag: u8 = if self.get_flag(StatusFlag::Carry) { 1 } else { 0 };
        let new_value = (m >> 1) | (carry_flag << 7);
        proof {
            lemma_shift_in_high_bits(m, carry_flag);
            vstd::arithmetic::power2::lemma2_to64();
        }
        self.set_flag(StatusFlag::Carry, m.nth_bit(0) != 0);
        self.set_flag(StatusFlag::Zero, new_value == 0x00);
        self.set_flag(StatusFlag::Negative, new_value.nth_bit(7) != 0);
        self.store_shifted(new_value);
        false
    }

    fn and(&mut self) -> (needs_cycle: bool)
        requires
            old(self)@.fetch_ok(),
        ensures
            final(self).cycles == old(self).cycles,
            (final(self)@, needs_cycle) == old(self)@.and(),
    {
        let m = self.fetch_data();
        self.acc = self.acc & m;
        let v = self.acc;
        self.set_flag(StatusFlag::Carry, v == 0);
        self.set_flag(StatusFlag::Negative, v & 0x80 != 0);
        proof {
            lemma_byte_bits(v);
        }
        true
    }

    fn ora(&mut self) -> (needs_cycle: bool)
        requires
            old(self)@.fetch_ok(),
        ensures
            final(self).cycles == old(self).cycles,
            (final(self)@, needs_cycle) == old(self)@.ora(),
    {
        let m = self.fetch_data();
        self.acc = self.acc | m;
        let v = self.acc;
        self.set_zn(v);
        true
    }

    fn eor(&mut self) -> (needs_cycle: bool)
        requires
            old(self)@.fetch_ok(),
        ensures
            final(self).cycles == old(self).cycles,
            (final(self)@, needs_cycle) == old(self)@.eor(),
    {
        let m = self.fetch_data();
        self.acc = self.acc ^ m;
        let v = self.acc;
        self.set_zn(v);
        true
    }

    fn bit(&mut self) -> (needs_cycle: bool)
        requires
            old(self)@.fetch_ok(),
        ensures
            final(self).cycles == old(self).cycles,
            (final(self)@, needs_cycle) == old(self)@.bit(),
    {
        let m = self.fetch_data();
        let temp = self.acc & m;
        proof {
            vstd::arithmetic::power2::lemma2_to64();
        }
        self.set_flag(StatusFlag::Zero, temp == 0x00);
        self.set_flag(StatusFlag::Negative, m.nth_bit(7) != 0);
        self.set_flag(StatusFlag::Overflow, m.nth_bit(6) != 0);
        false
    }

    fn compare(&mut self, r: Register)
        requires
            old(self)@.fetch_ok(),
        ensures
            final(self).cycles == old(self).cycles,
            final(self)@ == old(self)@.compare(r),
    {
        let m = self.fetch_data();
        let v = self.register(r);
        let temp = v.wrapping_sub(m);
        proof {
            vstd::arithmetic::power2::lemma2_to64();
        }
        self.set_flag(StatusFlag::Carry, v >= m);
        self.set_flag(StatusFlag::Zero, v == m);
        self.set_flag(StatusFlag::Negative, temp.nth_bit(7) != 0);
    }

    fn branch_if(&mut self, flag: StatusFlag, value: bool) -> (needs_cycle: bool)
        requires
            old(self)@.branch_ok(flag, value),
        ensures
            old(self).cycles <= final(self).cycles <= old(self).cycles + 2,
            (final(self)@, needs_cycle) == old(self)@.branch(flag, value),
    {
        if self.get_flag(flag) == value {
            self.cycles = self.cycles + 1;
            let pc = self.program_counter;
            let target = ((pc as u32) + (self.addr_rel as u32)) as u16;
            proof {
                let rel = self.addr_rel;
                lemma_word_pair_bits(pc, rel);
                lemma_word_pair_bits(target, pc);
            }
            self.addr_abs = target;
            if (self.addr_abs & 0xFF00) != (self.program_counter & 0xFF00) {
                self.cycles = self.cycles + 1;
            }
            self.program_counter = self.addr_abs;
        }
        false
    }

    fn jsr(&mut self) -> (needs_cycle: bool)
        requires
            old(self)@.jsr_ok(),
        ensures
            final(self).cycles == old(self).cycles,
            (final(self)@, needs_cycle) == old(self)@.jsr(),
    {
        self.program_counter = self.program_counter - 1;
        let pc = self.program_counter;
        proof {
            lemma_word_bits(pc);
        }
        self.write(STACK_BASE + (self.stack_pointer as u16), ((pc >> 8) & 0x00FF) as u8);
        self.stack_pointer = self.stack_pointer - 1;
        self.write(STACK_BASE + (self.stack_pointer as u16), (pc & 0x00FF) as u8);
        self.stack_pointer = self.stack_pointer - 1;
        self.program_counter = self.addr_abs;
        false
    }

    fn rts(&mut self) -> (needs_cycle: bool)
        requires
            old(self)@.rts_ok(),
        ensures
            final(self).cycles == old(self).cycles,
            (final(self)@, needs_cycle) == old(self)@.rts(),
    {
        self.stack_pointer = self.stack_pointer + 1;
        let low = self.read(STACK_BASE + self.stack_pointer as u16, false) as u16;
        self.stack_pointer = self.stack_pointer + 1;
        let high = self.read(STACK_BASE + self.stack_pointer as u16, false) as u16;
        proof {
            lemma_word_pair_bits(low, high);
        }
        self.program_counter = low | (high << 8);
        self.program_counter = self.program_counter + 1;
        false
    }

    fn brk(&mut self) -> (needs_cycle: bool)
        requires
            old(self)@.brk_ok(),
        ensures
            final(self).cycles == old(self).cycles,
            (final(self)@, needs_cycle) == old(self)@.brk(),
    {
        self.program_counter = self.program_counter + 1;
        let pc = self.program_counter;
        proof {
            lemma_word_bits(pc);
        }
        self.set_flag(StatusFlag::DisableInterupts, true);
        self.write(STACK_BASE + (self.stack_pointer as u16), ((pc >> 8) & 0x00FF) as u8);
        self.stack_pointer = self.stack_pointer - 1;
        self.write(STACK_BASE + (self.stack_pointer as u16), (pc & 0x00FF) as u8);
        self.stack_pointer = self.stack_pointer - 1;
        self.set_flag(StatusFlag::Break, true);
        let status = self.status;
        self.write(STACK_BASE + (self.stack_pointer as u16), status);
        self.stack_pointer = self.stack_pointer - 1;
        self.set_flag(StatusFlag::Break, false);
        let low = self.read(0xFFFE, false) as u16;
        let high = self.read(0xFFFF, false) as u16;
        proof {
            lemma_word_pair_bits(low, high);
        }
        self.program_counter = low | (high << 8);
        false
    }

    fn rti(&mut self) -> (needs_cycle: bool)
        requires
            old(self)@.rti_ok(),
        ensures
            final(self).cycles == old(self).cycles,
            (final(self)@, needs_cycle) == old(self)@.rti(),
    {
        self.stack_pointer = self.stack_pointer + 1;
        self.status = self.read(STACK_BASE + self.stack_pointer as u16, false);
        self.status = self.status & !StatusFlag::Break.mask();
        self.status = self.status & !StatusFlag::Unused.mask();
        self.stack_pointer = self.stack_pointer + 1;
        let low = self.read(STACK_BASE + self.stack_pointer as u16, false) as u16;
        self.stack_pointer = self.stack_pointer + 1;
        let high = self.read(STACK_BASE + self.stack_pointer as u16, false) as u16;
        proof {
            lemma_word_pair_bits(low, high);
        }
        self.program_counter = low | (high << 8);
        false
    }

    fn pha(&mut self) -> (needs_cycle: bool)
        requires
            old(self).stack_pointer >= 1,
        ensures
            final(self).cycles == old(self).cycles,
            (final(self)@, needs_cycle) == old(self)@.pha(),
    {
        let acc = self.acc;
        self.write(STACK_BASE + (self.stack_pointer as u16), acc);
        self.stack_pointer = self.stack_pointer - 1;
        false
    }

    fn pla(&mut self) -> (needs_cycle: bool)
        requires
            old(self).stack_pointer <= 254,
        ensures
            final(self).cycles == old(self).cycles,
            (final(self)@, needs_cycle) == old(self)@.pla(),
    {
        self.stack_pointer = self.stack_pointer + 1;
        self.acc = self.read(STACK_BASE + self.stack_pointer as u16, false);
        let v = self.acc;
        self.set_zn(v);
        false
    }

    fn php(&mut self) -> (needs_cycle: bool)
        requires
            old(self).stack_pointer >= 1,
        ensures
            final(self).cycles == old(self).cycles,
            (final(self)@, needs_cycle) == old(self)@.php(),
    {
        let pushed = self.status | StatusFlag::Carry.mask() | StatusFlag::Unused.mask();
        proof {
            let st = self.status;
            lemma_byte_bits(st);
        }
        self.write(STACK_BASE + (self.stack_pointer as u16), pushed);
        self.set_flag(StatusFlag::Break, false);
        self.set_flag(StatusFlag::Unused, false);
        self.stack_pointer = self.stack_pointer - 1;
        false
    }

    fn plp(&mut self) -> (needs_cycle: bool)
        requires
            old(self).stack_pointer <= 254,
        ensures
            final(self).cycles == old(self).cycles,
            (final(self)@, needs_cycle) == old(self)@.plp(),
    {
        self.stack_pointer = self.stack_pointer + 1;
        self.status = self.read(STACK_BASE + self.stack_pointer as u16, false);
        self.set_flag(StatusFlag::Unused, true);
        false
    }

    fn flag_op(&mut self, flag: StatusFlag, value: bool) -> (needs_cycle: bool)
        ensures
            final(self).cycles == old(self).cycles,
            (final(self)@, needs_cycle) == old(self)@.set_flag_op(flag, value),
    {
        self.set_flag(flag, value);
        false
    }

    /// Executes `instr` on the operand that `find_data` located (see `CpuState::execute`).
    /// Returns whether the instruction may take an extra cycle.
    pub fn execute(&mut self, instr: Instruction) -> (needs_cycle: bool)
        requires
            old(self)@.execute_ok(instr),
        ensures
            old(self).cycles <= final(self).cycles <= old(self).cycles + 2,
            (final(self)@, needs_cycle) == old(self)@.execute(instr),
    {
        match instr.type_ {
            IT::LDA => self.load(Register::Acc),
            IT::LDX => self.load(Register::X),
            IT::LDY => self.load(Register::Y),
            IT::STA => self.store(Register::Acc),
            IT::STX => self.store(Register::X),
            IT::STY => self.store(Register::Y),
            IT::TAX => self.transfer(Register::Acc, Register::X),
            IT::TXA => self.transfer(Register::X, Register::Acc),
            IT::TAY => self.transfer(Register::Acc, Register::Y),
            IT::TYA => self.transfer(Register::Y, Register::Acc),
            IT::ADC => self.adc(),
            IT::SBC => self.sbc(),
            IT::INC => self.step_memory(true),
            IT::INX => self.step_register(Register::X, true),
            IT::INY => self.step_register(Register::Y, true),
            IT::DEC => self.step_memory(false),
            IT::DEX => self.step_register(Register::X, false),
            IT::DEY => self.step_register(Register::Y, false),
            IT::ASL => self.asl(),
            IT::LSR => self.lsr(),
            IT::ROL => self.rol(),
            IT::ROR => self.ror(),
            IT::AND => self.and(),
            IT::ORA => self.ora(),
            IT::EOR => self.eor(),
            IT::BIT => self.bit(),
            IT::CMP => {
                self.compare(Register::Acc);
                true
            },
            IT::CPX => {
                self.compare(Register::X);
                false
            },
            IT::CPY => {
                self.compare(Register::Y);
                false
            },
            IT::BCC => self.branch_if(StatusFlag::Carry, false),
            IT::BCS => self.branch_if(StatusFlag::Carry, true),
            IT::BEQ => self.branch_if(StatusFlag::Zero, true),
            IT::BNE => self.branch_if(StatusFlag::Zero, false),
            IT::BPL => self.branch_if(StatusFlag::Negative, false),
            IT::BMI => self.branch_if(StatusFlag::Negative, true),
            IT::BVC => self.branch_if(StatusFlag::Overflow, false),
            IT::BVS => self.branch_if(StatusFlag::Overflow, true),
            IT::JMP => {
                self.program_counter = self.addr_abs;
                false
            },
            IT::JSR => self.jsr(),
            IT::RTS => self.rts(),
            IT::BRK => self.brk(),
            IT::RTI => self.rti(),
            IT::PHA => self.pha(),
            IT::PLA => self.pla(),
            IT::PHP => self.php(),
            IT::PLP => self.plp(),
            IT::TSX => self.transfer(Register::StackPointer, Register::X),
            IT::TXS => {
                self.stack_pointer = self.reg_x;
                false
            },
            IT::CLC => self.flag_op(StatusFlag::Carry, false),
            IT::CLD => self.flag_op(StatusFlag::DecimalMode, false),
            IT::CLI => self.flag_op(StatusFlag::DisableInterupts, false),
            IT::CLV => self.flag_op(StatusFlag::Overflow, false),
            IT::SEC => self.flag_op(StatusFlag::Carry, true),
            IT::SED => self.flag_op(StatusFlag::DecimalMode, true),
            IT::SEI => self.flag_op(StatusFlag::DisableInterupts, true),
            IT::NOP => {
                let op = self.opcode;
                op == 0x1C || op == 0x3C || op == 0x5C || op == 0x7C || op == 0xDC || op == 0xFC
            },
            IT::INVALID => false,
        }
    }
}
} // verus!
