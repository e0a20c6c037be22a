//! The text forms of instructions, addressing modes and disassembled instructions, as
//! the program view lists them.
use vstd::prelude::*;
use vstd::string::StringExecFns;
use super::addressing::AddressingMode;
use super::disassembler::{Argument, DisassembledInstruction};
use super::instructions::InstructionType;

verus! {

/// The mnemonic of an instruction type.
pub open spec fn instruction_name(t: InstructionType) -> Seq<char> {
    match t {
        InstructionType::ADC => "ADC"@,
        InstructionType::AND => "AND"@,
        InstructionType::ASL => "ASL"@,
        InstructionType::BCC => "BCC"@,
        InstructionType::BCS => "BCS"@,
        InstructionType::BEQ => "BEQ"@,
        InstructionType::BIT => "BIT"@,
        InstructionType::BMI => "BMI"@,
        InstructionType::BNE => "BNE"@,
        InstructionType::BPL => "BPL"@,
        InstructionType::BRK => "BRK"@,
        InstructionType::BVC => "BVC"@,
        InstructionType::BVS => "BVS"@,
        InstructionType::CLC => "CLC"@,
        InstructionType::CLD => "CLD"@,
        InstructionType::CLI => "CLI"@,
        InstructionType::CLV => "CLV"@,
        InstructionType::CMP => "CMP"@,
        InstructionType::CPX => "CPX"@,
        InstructionType::CPY => "CPY"@,
        InstructionType::DEC => "DEC"@,
        InstructionType::DEX => "DEX"@,
        InstructionType::DEY => "DEY"@,
        InstructionType::EOR => "EOR"@,
        InstructionType::INC => "INC"@,
        InstructionType::INX => "INX"@,
        InstructionType::INY => "INY"@,
        InstructionType::JMP => "JMP"@,
        InstructionType::JSR => "JSR"@,
        InstructionType::LDA => "LDA"@,
        InstructionType::LDX => "LDX"@,
        InstructionType::LDY => "LDY"@,
        InstructionType::LSR => "LSR"@,
        InstructionType::NOP => "NOP"@,
        InstructionType::ORA => "ORA"@,
        InstructionType::PHA => "PHA"@,
        InstructionType::PHP => "PHP"@,
        InstructionType::PLA => "PLA"@,
        InstructionType::PLP => "PLP"@,
        InstructionType::ROL => "ROL"@,
        InstructionType::ROR => "ROR"@,
        InstructionType::RTI => "RTI"@,
        InstructionType::RTS => "RTS"@,
        InstructionType::SBC => "SBC"@,
        InstructionType::SEC => "SEC"@,
        InstructionType::SED => "SED"@,
        InstructionType::SEI => "SEI"@,
        InstructionType::STA => "STA"@,
        InstructionType::STX => "STX"@,
        InstructionType::STY => "STY"@,
        InstructionType::TAX => "TAX"@,
        InstructionType::TAY => "TAY"@,
        InstructionType::TSX => "TSX"@,
        InstructionType::TXA => "TXA"@,
        InstructionType::TXS => "TXS"@,
        InstructionType::TYA => "TYA"@,
        InstructionType::INVALID => "INVALID"@,
    }
}

/// The three-letter name of an addressing mode.
pub open spec fn mode_name(m: AddressingMode) -> Seq<char> {
    match m {
        AddressingMode::IMP => "IMP"@,
        AddressingMode::IMM => "IMM"@,
        AddressingMode::ZP0 => "ZP0"@,
        AddressingMode::ZPX => "ZPX"@,
        AddressingMode::ZPY => "ZPY"@,
        AddressingMode::REL => "REL"@,
        AddressingMode::ABS => "ABS"@,
        AddressingMode::ABX => "ABX"@,
        AddressingMode::ABY => "ABY"@,
        AddressingMode::IND => "IND"@,
        AddressingMode::IZX => "IZX"@,
        AddressingMode::IZY => "IZY"@,
    }
}

/// The upper-case hexadecimal digit of `d` (`d` below 16).
pub open spec fn hex_digit(d: nat) -> Seq<char> {
    if d == 0 {
        "0"@
    } else if d == 1 {
        "1"@
    } else if d == 2 {
        "2"@
    } else if d == 3 {
        "3"@
    } else if d == 4 {
        "4"@
    } else if d == 5 {
        "5"@
    } else if d == 6 {
        "6"@
    } else if d == 7 {
        "7"@
    } else if d == 8 {
        "8"@
    } else if d == 9 {
        "9"@
    } else if d == 10 {
        "A"@
    } else if d == 11 {
        "B"@
    } else if d == 12 {
        "C"@
    } else if d == 13 {
        "D"@
    } else if d == 14 {
        "E"@
    } else {
        "F"@
    }
}

/// `v` in upper-case hexadecimal, padded with zeros to at least `width` digits.
pub open spec fn hex_padded(v: nat, width: nat) -> Seq<char>
    decreases v + width,
{
    if v < 16 && width <= 1 {
        hex_digit(v)
    } else {
        hex_padded(v / 16, if width > 0 { (width - 1) as nat } else { 0 }) + hex_digit(v % 16)
    }
}

/// `v` in decimal, padded with zeros to at least `width` digits.
pub open spec fn decimal_padded(v: nat, width: nat) -> Seq<char>
    decreases v + width,
{
    if v < 10 && width <= 1 {
        hex_digit(v)
    } else {
        decimal_padded(v / 10, if width > 0 { (width - 1) as nat } else { 0 }) + hex_digit(v % 10)
    }
}

/// A signed number in decimal, padded with zeros after the sign to at least `width`
/// characters in all.
pub open spec fn signed_decimal_padded(v: int, width: nat) -> Seq<char> {
    if v < 0 {
        "-"@ + decimal_padded((-v) as nat, if width > 0 { (width - 1) as nat } else { 0 })
    } else {
        decimal_padded(v as nat, width)
    }
}

/// The byte read as a two's-complement signed number.
pub open spec fn signed_byte(b: u8) -> int {
    if b >= 128 {
        b - 256
    } else {
        b as int
    }
}

/// The operand column of a listed instruction: six characters wide for no operand and
/// the usual widths otherwise; a relative offset is shown as a signed decimal.
pub open spec fn argument_text(mode: AddressingMode, argument: Option<Argument>) -> Seq<char> {
    match argument {
        None => "      "@,
        Some(Argument::Small(arg)) => if mode == AddressingMode::REL {
            " $"@ + signed_decimal_padded(signed_byte(arg), 4)
        } else {
            "   $"@ + hex_padded(arg as nat, 2)
        },
        Some(Argument::Big(arg)) => " $"@ + hex_padded(arg as nat, 4),
    }
}

/// One line of the program view: address, mnemonic, operand and addressing mode.
pub open spec fn instruction_text(d: DisassembledInstruction) -> Seq<char> {
    "$"@ + hex_padded(d.address as nat, 4) + " | "@ + instruction_name(d.name) + argument_text(
        d.mode,
        d.argument,
    ) + "  {"@ + mode_name(d.mode) + "}"@
}

pub(crate) fn hex_digit_str(d: u64) -> (r: &'static str)
    requires
        d < 16,
    ensures
        r@ == hex_digit(d as nat),
{
    match d {
        0 => "0",
        1 => "1",
        2 => "2",
        3 => "3",
        4 => "4",
        5 => "5",
        6 => "6",
        7 => "7",
        8 => "8",
        9 => "9",
        10 => "A",
        11 => "B",
        12 => "C",
        13 => "D",
        14 => "E",
        _ => "F",
    }
}

/// Appends `v` in hexadecimal, at least `width` digits.
pub(crate) fn push_hex(s: &mut String, v: u64, width: u64)
    ensures
        final(s)@ == old(s)@ + hex_padded(v as nat, width as nat),
    decreases v + width,
{
    if v < 16 && width <= 1 {
        s.append(hex_digit_str(v));
    } else {
        push_hex(s, v / 16, if width > 0 { width - 1 } else { 0 });
        s.append(hex_digit_str(v % 16));
        proof {
            assert(old(s)@ + hex_padded(v as nat, width as nat) =~= old(s)@ + hex_padded(
                (v / 16) as nat,
                if width > 0 { (width - 1) as nat } else { 0 },
            ) + hex_digit((v % 16) as nat));
        }
    }
}

/// Appends `v` in decimal, at least `width` digits.
pub(crate) fn push_decimal(s: &mut String, v: u64, width: u64)
    ensures
        final(s)@ == old(s)@ + decimal_padded(v as nat, width as nat),
    decreases v + width,
{
    if v < 10 && width <= 1 {
        s.append(hex_digit_str(v));
    } else {
        push_decimal(s, v / 10, if width > 0 { width - 1 } else { 0 });
        s.append(hex_digit_str(v % 10));
        proof {
            assert(old(s)@ + decimal_padded(v as nat, width as nat) =~= old(s)@ + decimal_padded(
                (v / 10) as nat,
                if width > 0 { (width - 1) as nat } else { 0 },
            ) + hex_digit((v % 10) as nat));
        }
    }
}

impl InstructionType {
    fn name_str(&self) -> (r: &'static str)
        ensures
            r@ == instruction_name(*self),
    {
        match self {
            InstructionType::ADC => "ADC",
            InstructionType::AND => "AND",
            InstructionType::ASL => "ASL",
            InstructionType::BCC => "BCC",
            InstructionType::BCS => "BCS",
            InstructionType::BEQ => "BEQ",
            InstructionType::BIT => "BIT",
            InstructionType::BMI => "BMI",
            InstructionType::BNE => "BNE",
            InstructionType::BPL => "BPL",
            InstructionType::BRK => "BRK",
            InstructionType::BVC => "BVC",
            InstructionType::BVS => "BVS",
            InstructionType::CLC => "CLC",
            InstructionType::CLD => "CLD",
            InstructionType::CLI => "CLI",
            InstructionType::CLV => "CLV",
            InstructionType::CMP => "CMP",
            InstructionType::CPX => "CPX",
            InstructionType::CPY => "CPY",
            InstructionType::DEC => "DEC",
            InstructionType::DEX => "DEX",
            InstructionType::DEY => "DEY",
            InstructionType::EOR => "EOR",
            InstructionType::INC => "INC",
            InstructionType::INX => "INX",
            InstructionType::INY => "INY",
            InstructionType::JMP => "JMP",
            InstructionType::JSR => "JSR",
            InstructionType::LDA => "LDA",
            InstructionType::LDX => "LDX",
            InstructionType::LDY => "LDY",
            InstructionType::LSR => "LSR",
            InstructionType::NOP => "NOP",
            InstructionType::ORA => "ORA",
            InstructionType::PHA => "PHA",
            InstructionType::PHP => "PHP",
            InstructionType::PLA => "PLA",
            InstructionType::PLP => "PLP",
            InstructionType::ROL => "ROL",
            InstructionType::ROR => "ROR",
            InstructionType::RTI => "RTI",
            InstructionType::RTS => "RTS",
            InstructionType::SBC => "SBC",
            InstructionType::SEC => "SEC",
            InstructionType::SED => "SED",
            InstructionType::SEI => "SEI",
            InstructionType::STA => "STA",
            InstructionType::STX => "STX",
            InstructionType::STY => "STY",
            InstructionType::TAX => "TAX",
            InstructionType::TAY => "TAY",
            InstructionType::TSX => "TSX",
            InstructionType::TXA => "TXA",
            InstructionType::TXS => "TXS",
            InstructionType::TYA => "TYA",
            InstructionType::INVALID => "INVALID",
        }
    }

    /// The mnemonic.
    pub fn to_string(&self) -> (r: String)
        ensures
            r@ == instruction_name(*self),
    {
        String::from_str(self.name_str())
    }
}

impl AddressingMode {
    fn name_str(&self) -> (r: &'static str)
        ensures
            r@ == mode_name(*self),
    {
        match self {
            AddressingMode::IMP => "IMP",
            AddressingMode::IMM => "IMM",
            AddressingMode::ZP0 => "ZP0",
            AddressingMode::ZPX => "ZPX",
            AddressingMode::ZPY => "ZPY",
            AddressingMode::REL => "REL",
            AddressingMode::ABS => "ABS",
            AddressingMode::ABX => "ABX",
            AddressingMode::ABY => "ABY",
            AddressingMode::IND => "IND",
            AddressingMode::IZX => "IZX",
            AddressingMode::IZY => "IZY",
        }
    }

    /// The three-letter name.
    pub fn to_string(&self) -> (r: String)
        ensures
            r@ == mode_name(*self),
    {
        String::from_str(self.name_str())
    }
}

impl DisassembledInstruction {
    /// The line of the program view for this instruction.
    pub fn to_string(&self) -> (r: String)
        ensures
            r@ == instruction_text(*self),
    {
        let mut s = String::from_str("$");
        push_hex(&mut s, self.address as u64, 4);
        s.append(" | ");
        s.append(self.name.name_str());
        match self.argument {
            None => {
                s.append("      ");
            },
            Some(Argument::Small(arg)) => {
                if self.mode == AddressingMode::REL {
                    s.append(" $");
                    if arg >= 128 {
                        s.append("-");
                        push_decimal(&mut s, (256 - arg as u64), 3);
                    } else {
                        push_decimal(&mut s, arg as u64, 4);
                    }
                } else {
                    s.append("   $");
                    push_hex(&mut s, arg as u64, 2);
                }
            },
            Some(Argument::Big(arg)) => {
                s.append(" $");
                push_hex(&mut s, arg as u64, 4);
            },
        }
        s.append("  {");
        s.append(self.mode.name_str());
        s.append("}");
        proof {
            assert(s@ =~= instruction_text(*self));
        }
        s
    }
}

} // verus!
