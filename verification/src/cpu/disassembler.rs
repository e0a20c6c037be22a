//! Turns program ROM into a list of instructions with their operands.
use vstd::prelude::*;
use crate::bit_operations::glue_u8s;
use crate::cartridge::Cartridge;
use super::addressing::AddressingMode;
use super::instructions::{InstructionType, instruction_of, lookup_instruction};

verus! {

/// An instruction's operand: one byte or one (little-endian) word.
#[derive(Clone, Copy, PartialEq, Eq, Structural)]
pub enum Argument {
    Small(u8),
    Big(u16),
}

#[derive(Clone, Copy, PartialEq, Eq, Structural)]
pub struct DisassembledInstruction {
    pub address: usize,
    pub name: InstructionType,
    pub mode: AddressingMode,
    pub argument: Option<Argument>,
}

impl DisassembledInstruction {
    pub fn address(&self) -> (r: usize)
        ensures
            r == self.address,
    {
        self.address
    }

    pub fn name(&self) -> (r: InstructionType)
        ensures
            r == self.name,
    {
        self.name
    }

    pub fn mode(&self) -> (r: AddressingMode)
        ensures
            r == self.mode,
    {
        self.mode
    }

    pub fn argument(&self) -> (r: Option<Argument>)
        ensures
            r == self.argument,
    {
        self.argument
    }
}

/// How many operand bytes follow an opcode in `mode`.
pub open spec fn operand_size(mode: AddressingMode) -> nat {
    match mode {
        AddressingMode::IMP => 0,
        AddressingMode::ABS | AddressingMode::ABX | AddressingMode::ABY | AddressingMode::IND => 2,
        _ => 1,
    }
}

/// The instructions found from `address` on: one at each opcode, stepping over its
/// operand, while the opcode lies before the last two bytes.
pub open spec fn disassembly(bytes: Seq<u8>, address: nat) -> Seq<DisassembledInstruction>
    decreases bytes.len() - address,
{
    if address + 2 >= bytes.len() {
        seq![]
    } else {
        let instruction = instruction_of(bytes[address as int]);
        let size = operand_size(instruction.mode);
        let argument = if size == 0 {
            None
        } else if size == 1 {
            Some(Argument::Small(bytes[address + 1int]))
        } else {
            Some(Argument::Big((bytes[address + 2int] as int * 256 + bytes[address + 1int] as int) as u16))
        };
        seq![
            DisassembledInstruction {
                address: address as usize,
                name: instruction.type_,
                mode: instruction.mode,
                argument,
            },
        ] + disassembly(bytes, address + size + 1)
    }
}

impl Cartridge {
    /// Disassembles the whole program ROM.
    pub fn disassemble(&self) -> (r: Vec<DisassembledInstruction>)
        requires
            self.prg_memory@.len() >= 2,
        ensures
            r@ == disassembly(self.prg_memory@, 0),
    {
        let bytes = &self.prg_memory;
        let mut result: Vec<DisassembledInstruction> = Vec::new();
        let mut address: usize = 0;
        while address < bytes.len() - 2
            invariant
                bytes@ == self.prg_memory@,
                bytes@.len() >= 2,
                result@ + disassembly(bytes@, address as nat) == disassembly(bytes@, 0),
            decreases bytes.len() - address,
        {
            let start = address;
            let instr = lookup_instruction(bytes[address]);
            let argument = match instr.mode {
                AddressingMode::IMP => None,
                AddressingMode::IMM | AddressingMode::ZP0 | AddressingMode::ZPX
                | AddressingMode::ZPY | AddressingMode::REL | AddressingMode::IZX
                | AddressingMode::IZY => {
                    address = address + 1;
                    let value = bytes[address];
                    Some(Argument::Small(value))
                },
                AddressingMode::ABS | AddressingMode::ABX | AddressingMode::ABY
                | AddressingMode::IND => {
                    address = address + 1;
                    let low_byte = bytes[address];
                    address = address + 1;
                    let high_byte = bytes[address];
                    Some(Argument::Big(glue_u8s(high_byte, low_byte)))
                },
            };
            let d = DisassembledInstruction {
                address: start,
                name: instr.type_,
                mode: instr.mode,
                argument,
            };
            proof {
                assert(disassembly(bytes@, start as nat) == seq![d] + disassembly(
                    bytes@,
                    (address + 1) as nat,
                ));
            }
            result.push(d);
            address = address + 1;
            assert(result@ + disassembly(bytes@, address as nat) =~= disassembly(bytes@, 0));
        }
        assert(disassembly(bytes@, address as nat) == Seq::<DisassembledInstruction>::empty());
        assert(result@ =~= disassembly(bytes@, 0));
        result
    }
}

/// Every listed instruction starts at an address past the one before it.
pub proof fn lemma_disassembly_addresses_increase(bytes: Seq<u8>, address: nat, i: int)
    requires
        0 <= i < disassembly(bytes, address).len(),
        bytes.len() <= usize::MAX,
    ensures
        disassembly(bytes, address)[i].address >= address,
        i + 1 < disassembly(bytes, address).len() ==> disassembly(bytes, address)[i].address
            < disassembly(bytes, address)[i + 1].address,
    decreases bytes.len() - address,
{
    let instruction = instruction_of(bytes[address as int]);
    let size = operand_size(instruction.mode);
    let rest = disassembly(bytes, address + size + 1);
    if i > 0 {
        lemma_disassembly_addresses_increase(bytes, address + size + 1, i - 1);
    } else if rest.len() > 0 {
        lemma_disassembly_addresses_increase(bytes, address + size + 1, 0);
    }
}

} // verus!
