//! What the CPU does, stated over its state: reads and writes on the CPU bus,
//! the addressing modes, every instruction, interrupts, reset and one clock tick.
//!
//! Each operation comes as a pair: an `*_ok` predicate that says when the
//! operation is defined (no arithmetic overflow, no access the hardware model
//! leaves undefined), and a function that gives the state after it.
use vstd::prelude::*;
use crate::cartridge::CartridgeState;
use crate::ppu::{PpuState, ppu_read_ok, ppu_write_ok, cartridge_after_ppu_write};
use crate::ppu::ppu_controls::{PPUControl, PPUControlRegisters, PPULoopy, PPUMask, WritingAddressPart};
use super::addressing::AddressingMode;
use super::instructions::{Instruction, instruction_of};
use super::instructions::InstructionType as IT;
use crate::bit_facts::lemma_byte_bits;
use crate::ppu::ppu_clock::lemma_loopy_fields;

verus! {

#[derive(Clone, Copy, PartialEq, Eq, Structural)]
pub enum StatusFlag {
    Carry,
    Zero,
    DisableInterupts,
    DecimalMode,
    Break,
    Unused,
    Overflow,
    Negative,
}

/// The bit of the status register that a flag occupies.
pub open spec fn flag_mask(flag: StatusFlag) -> u8 {
    match flag {
        StatusFlag::Carry => 0x01,
        StatusFlag::Zero => 0x02,
        StatusFlag::DisableInterupts => 0x04,
        StatusFlag::DecimalMode => 0x08,
        StatusFlag::Break => 0x10,
        StatusFlag::Unused => 0x20,
        StatusFlag::Overflow => 0x40,
        StatusFlag::Negative => 0x80,
    }
}

pub open spec fn has_flag(status: u8, flag: StatusFlag) -> bool {
    status & flag_mask(flag) != 0
}

/// The status register with `flag` set to `value` and every other bit kept.
pub open spec fn with_flag(status: u8, flag: StatusFlag, value: bool) -> u8 {
    if value {
        status | flag_mask(flag)
    } else {
        status & !flag_mask(flag)
    }
}

/// The zero and negative flags set from `value`.
pub open spec fn with_zn(status: u8, value: u8) -> u8 {
    with_flag(with_flag(status, StatusFlag::Zero, value == 0), StatusFlag::Negative, value >= 128)
}

/// The registers an instruction can load, store, transfer or compare.
#[derive(Clone, Copy, PartialEq, Eq, Structural)]
pub enum Register {
    Acc,
    X,
    Y,
    StackPointer,
}

pub open spec fn ram_index(address: u16) -> int {
    address as int % 2048
}

/// The amount the PPU address moves after each access through $2007.
pub open spec fn vram_increment(control: PPUControl) -> int {
    if control.increment_mode() {
        32
    } else {
        1
    }
}

/// The CPU, its RAM and everything it reaches on its bus, as the specifications see it.
#[verifier::ext_equal]
pub struct CpuState {
    pub acc: u8,
    pub reg_x: u8,
    pub reg_y: u8,
    pub stack_pointer: u8,
    pub program_counter: u16,
    pub status: u8,
    pub ram: Seq<u8>,
    pub cartridge: CartridgeState,
    pub ppu: PpuState,
    pub fetched: u8,
    pub addr_abs: u16,
    pub addr_rel: u16,
    pub opcode: u8,
    pub cycles: u8,
}

impl CpuState {
    pub open spec fn register(self, r: Register) -> u8 {
        match r {
            Register::Acc => self.acc,
            Register::X => self.reg_x,
            Register::Y => self.reg_y,
            Register::StackPointer => self.stack_pointer,
        }
    }

    pub open spec fn with_register(self, r: Register, value: u8) -> CpuState {
        match r {
            Register::Acc => CpuState { acc: value, ..self },
            Register::X => CpuState { reg_x: value, ..self },
            Register::Y => CpuState { reg_y: value, ..self },
            Register::StackPointer => CpuState { stack_pointer: value, ..self },
        }
    }

    pub open spec fn with_status(self, status: u8) -> CpuState {
        CpuState { status, ..self }
    }

    pub open spec fn with_controls(self, controls: PPUControlRegisters) -> CpuState {
        CpuState { ppu: PpuState { ppu_controls: controls, ..self.ppu }, ..self }
    }

    // ---------------------------------------------------------------- the bus
    /// Whether reading `register` (0..8) of the PPU is defined.
    pub open spec fn register_read_ok(self, register: u16) -> bool {
        register == 7 ==> ppu_read_ok(self.cartridge, self.ppu.ppu_controls.vram_address.bits)
    }

    /// Reading a PPU register: the status read clears vertical blank and resets the
    /// write latch; the data read goes through a one-byte buffer (palette reads come
    /// back at once) and moves the PPU address. With `read_only` the value is the same
    /// and the state is left as it was.
    pub open spec fn register_read(self, register: u16, read_only: bool) -> (CpuState, u8) {
        let c = self.ppu.ppu_controls;
        if register == 2 {
            let value = (c.status.bits & 0xE0) | (c.data_buffer & 0x1F);
            if read_only {
                (self, value)
            } else {
                (
                    self.with_controls(
                        PPUControlRegisters {
                            status: c.status.with_vertical_blank_spec(false),
                            writing_part: WritingAddressPart::High,
                            ..c
                        },
                    ),
                    value,
                )
            }
        } else if register == 7 {
            let new_buffer = self.ppu.read_value(self.cartridge, c.vram_address.bits);
            let vram = PPULoopy {
                bits: ((c.vram_address.bits + vram_increment(c.control)) % 65536) as u16,
            };
            let s = self.with_controls(
                PPUControlRegisters { data_buffer: new_buffer, vram_address: vram, ..c },
            );
            let value = if vram.bits >= 0x3F00 {
                new_buffer
            } else {
                c.data_buffer
            };
            if read_only {
                (self, value)
            } else {
                (s, value)
            }
        } else {
            (self, 0)
        }
    }

    /// Whether a CPU read of `address` is defined.
    pub open spec fn read_ok(self, address: u16) -> bool {
        if address < 0x2000 {
            true
        } else if address < 0x4000 {
            self.register_read_ok((address % 8) as u16)
        } else if address >= 0x4020 {
            self.cartridge.cpu_read_ok(address)
        } else {
            true
        }
    }

    /// A CPU read: RAM (mirrored every 2 KB), PPU registers (mirrored every 8 bytes),
    /// the cartridge, or 0 for the unimplemented $4000..$4020.
    pub open spec fn read(self, address: u16, read_only: bool) -> (CpuState, u8) {
        if address < 0x2000 {
            (self, self.ram[ram_index(address)])
        } else if address < 0x4000 {
            self.register_read((address % 8) as u16, read_only)
        } else if address >= 0x4020 {
            (self, self.cartridge.cpu_read_value(address))
        } else {
            (self, 0)
        }
    }

    /// Whether writing `register` (0..8) of the PPU is defined.
    pub open spec fn register_write_ok(self, register: u16) -> bool {
        register == 7 ==> ppu_write_ok(self.cartridge, self.ppu.ppu_controls.vram_address.bits)
    }

    /// Writing a PPU register.
    pub open spec fn register_write(self, register: u16, data: u8) -> CpuState {
        let c = self.ppu.ppu_controls;
        if register == 0 {
            let control = PPUControl { bits: data };
            self.with_controls(
                PPUControlRegisters {
                    control,
                    tram_address: c.tram_address.with_nametable_x_spec(
                        control.nametable_x(),
                    ).with_nametable_y_spec(control.nametable_y()),
                    ..c
                },
            )
        } else if register == 1 {
            self.with_controls(PPUControlRegisters { mask: PPUMask { bits: data }, ..c })
        } else if register == 5 {
            let part = PPUControlRegisters::switched_part(c.writing_part);
            match c.writing_part {
                WritingAddressPart::High => self.with_controls(
                    PPUControlRegisters {
                        fine_x: data % 8,
                        tram_address: c.tram_address.with_coarse_x_spec(data / 8),
                        writing_part: part,
                        ..c
                    },
                ),
                WritingAddressPart::Low => self.with_controls(
                    PPUControlRegisters {
                        tram_address: c.tram_address.with_fine_y_spec(data % 8).with_coarse_y_spec(
                            data / 8,
                        ),
                        writing_part: part,
                        ..c
                    },
                ),
            }
        } else if register == 6 {
            let part = PPUControlRegisters::switched_part(c.writing_part);
            match c.writing_part {
                WritingAddressPart::High => self.with_controls(
                    PPUControlRegisters {
                        tram_address: PPULoopy {
                            bits: (c.tram_address.bits % 256 + 256 * (data % 64)) as u16,
                        },
                        writing_part: part,
                        ..c
                    },
                ),
                WritingAddressPart::Low => {
                    let tram = PPULoopy { bits: ((c.tram_address.bits / 256) * 256 + data) as u16 };
                    self.with_controls(
                        PPUControlRegisters {
                            tram_address: tram,
                            vram_address: tram,
                            writing_part: part,
                            ..c
                        },
                    )
                },
            }
        } else if register == 7 {
            let address = c.vram_address.bits;
            let ppu = self.ppu.written(self.cartridge, address, data);
            let vram = PPULoopy { bits: ((address + vram_increment(c.control)) % 65536) as u16 };
            CpuState {
                ppu: PpuState {
                    ppu_controls: PPUControlRegisters { vram_address: vram, ..c },
                    ..ppu
                },
                cartridge: cartridge_after_ppu_write(self.cartridge, address, data),
                ..self
            }
        } else {
            self
        }
    }

    /// Whether a CPU write to `address` is defined.
    pub open spec fn write_ok(self, address: u16) -> bool {
        if address < 0x2000 {
            true
        } else if address < 0x4000 {
            self.register_write_ok((address % 8) as u16)
        } else if address >= 0x4020 {
            self.cartridge.cpu_write_ok(address)
        } else {
            true
        }
    }

    /// A CPU write; writes to $4000..$4020 are ignored.
    pub open spec fn write(self, address: u16, data: u8) -> CpuState {
        if address < 0x2000 {
            CpuState { ram: self.ram.update(ram_index(address), data), ..self }
        } else if address < 0x4000 {
            self.register_write((address % 8) as u16, data)
        } else if address >= 0x4020 {
            CpuState { cartridge: self.cartridge.cpu_written(address, data), ..self }
        } else {
            self
        }
    }

    /// Two bytes read at `address` and `address + 1`, low byte first.
    pub open spec fn read_u16_ok(self, address: u16) -> bool {
        &&& address < 0xFFFF
        &&& self.read_ok(address)
        &&& self.read(address, false).0.read_ok((address + 1) as u16)
    }

    pub open spec fn read_u16(self, address: u16) -> (CpuState, u16) {
        let (s1, low) = self.read(address, false);
        let (s2, high) = s1.read((address + 1) as u16, false);
        (s2, (high as int * 256 + low as int) as u16)
    }

    // --------------------------------------------------------- the stack
    pub open spec fn stack_address(self) -> u16 {
        (0x0100 + self.stack_pointer) as u16
    }

    /// Pushing writes at the stack pointer, then moves it down.
    pub open spec fn push(self, data: u8) -> CpuState {
        let s = self.write(self.stack_address(), data);
        CpuState { stack_pointer: (self.stack_pointer - 1) as u8, ..s }
    }

    /// Pulling moves the stack pointer up, then reads there.
    pub open spec fn pull(self) -> (CpuState, u8) {
        let s = CpuState { stack_pointer: (self.stack_pointer + 1) as u8, ..self };
        s.read(s.stack_address(), false)
    }

    // ------------------------------------------------------- addressing
    /// Whether finding the operand in `mode` is defined.
    pub open spec fn find_data_ok(self, mode: AddressingMode) -> bool {
        let pc = self.program_counter;
        match mode {
            AddressingMode::IMP => true,
            AddressingMode::IMM => pc < 0xFFFF,
            AddressingMode::ZP0 | AddressingMode::REL => pc < 0xFFFF && self.read_ok(pc),
            AddressingMode::ZPX => pc < 0xFFFF && pc + self.reg_x <= 0xFFFF && self.read_ok(
                (pc + self.reg_x) as u16,
            ),
            AddressingMode::ZPY => pc < 0xFFFF && pc + self.reg_y <= 0xFFFF && self.read_ok(
                (pc + self.reg_y) as u16,
            ),
            AddressingMode::ABS => pc < 0xFFFE && self.read_u16_ok(pc),
            AddressingMode::ABX => {
                let (s, base) = self.read_u16(pc);
                pc < 0xFFFE && self.read_u16_ok(pc) && base + self.reg_x <= 0xFFFF
            },
            AddressingMode::ABY => {
                let (s, base) = self.read_u16(pc);
                pc < 0xFFFE && self.read_u16_ok(pc) && base + self.reg_y <= 0xFFFF
            },
            AddressingMode::IND => {
                let (s, pointer) = self.read_u16(pc);
                &&& pc < 0xFFFE
                &&& self.read_u16_ok(pc)
                &&& s.read_ok(pointer)
                &&& s.read(pointer, false).0.read_ok(
                    if pointer % 256 == 0xFF {
                        ((pointer / 256) * 256) as u16
                    } else {
                        (pointer + 1) as u16
                    },
                )
            },
            AddressingMode::IZX => {
                let (s, t) = self.read(pc, false);
                &&& pc < 0xFFFF
                &&& self.read_ok(pc)
            },
            AddressingMode::IZY => {
                let (s, t) = self.read(pc, false);
                let (s1, low) = s.read(t as u16, false);
                let (s2, high) = s1.read(((t + 1) % 256) as u16, false);
                &&& pc < 0xFFFF
                &&& self.read_ok(pc)
                &&& high as int * 256 + low as int + self.reg_y <= 0xFFFF
            },
        }
    }

    /// Finds the operand of an instruction in `mode`: sets `addr_abs` (or `addr_rel`,
    /// or `fetched` for implied operands) and moves the program counter past the
    /// operand bytes. The flag tells whether an indexed access crossed a page.
    pub open spec fn find_data(self, mode: AddressingMode) -> (CpuState, bool) {
        let pc = self.program_counter;
        match mode {
            AddressingMode::IMP => (CpuState { fetched: self.acc, ..self }, false),
            AddressingMode::IMM => (
                CpuState { addr_abs: pc, program_counter: (pc + 1) as u16, ..self },
                false,
            ),
            AddressingMode::ZP0 => {
                let (s, v) = self.read(pc, false);
                (CpuState { addr_abs: v as u16, program_counter: (pc + 1) as u16, ..s }, false)
            },
            AddressingMode::ZPX => {
                let (s, v) = self.read((pc + self.reg_x) as u16, false);
                (CpuState { addr_abs: v as u16, program_counter: (pc + 1) as u16, ..s }, false)
            },
            AddressingMode::ZPY => {
                let (s, v) = self.read((pc + self.reg_y) as u16, false);
                (CpuState { addr_abs: v as u16, program_counter: (pc + 1) as u16, ..s }, false)
            },
            AddressingMode::REL => {
                let (s, v) = self.read(pc, false);
                (
                    CpuState {
                        addr_rel: if v >= 128 {
                            (0xFF00 + v) as u16
                        } else {
                            v as u16
                        },
                        program_counter: (pc + 1) as u16,
                        ..s
                    },
                    false,
                )
            },
            AddressingMode::ABS => {
                let (s, address) = self.read_u16(pc);
                (CpuState { addr_abs: address, program_counter: (pc + 2) as u16, ..s }, false)
            },
            AddressingMode::ABX => {
                let (s, base) = self.read_u16(pc);
                let address = (base + self.reg_x) as u16;
                (
                    CpuState { addr_abs: address, program_counter: (pc + 2) as u16, ..s },
                    address / 256 != base / 256,
                )
            },
            AddressingMode::ABY => {
                let (s, base) = self.read_u16(pc);
                let address = (base + self.reg_y) as u16;
                (
                    CpuState { addr_abs: address, program_counter: (pc + 2) as u16, ..s },
                    address / 256 != base / 256,
                )
            },
            AddressingMode::IND => {
                let (s, pointer) = self.read_u16(pc);
                let (s1, low) = s.read(pointer, false);
                // the hardware does not carry into the high byte of the pointer
                let (s2, high) = s1.read(
                    if pointer % 256 == 0xFF {
                        ((pointer / 256) * 256) as u16
                    } else {
                        (pointer + 1) as u16
                    },
                    false,
                );
                (
                    CpuState {
                        addr_abs: (high as int * 256 + low as int) as u16,
                        program_counter: (pc + 2) as u16,
                        ..s2
                    },
                    false,
                )
            },
            AddressingMode::IZX => {
                let (s, t) = self.read(pc, false);
                let (s1, low) = s.read(((t + self.reg_x) % 256) as u16, false);
                let (s2, high) = s1.read(((t + self.reg_x + 1) % 256) as u16, false);
                (
                    CpuState {
                        addr_abs: (high as int * 256 + low as int) as u16,
                        program_counter: (pc + 1) as u16,
                        ..s2
                    },
                    false,
                )
            },
            AddressingMode::IZY => {
                let (s, t) = self.read(pc, false);
                let (s1, low) = s.read(t as u16, false);
                let (s2, high) = s1.read(((t + 1) % 256) as u16, false);
                let address = (high as int * 256 + low as int + self.reg_y) as u16;
                (
                    CpuState { addr_abs: address, program_counter: (pc + 1) as u16, ..s2 },
                    address / 256 != high,
                )
            },
        }
    }

    // ------------------------------------------------------- the operand
    /// The mode in which the current opcode finds its operand.
    pub open spec fn opcode_mode(self) -> AddressingMode {
        instruction_of(self.opcode).mode
    }

    pub open spec fn fetch_ok(self) -> bool {
        self.opcode_mode() != AddressingMode::IMP ==> self.read_ok(self.addr_abs)
    }

    /// The operand: read at `addr_abs` (and kept in `fetched`), or `fetched` itself
    /// for an implied operand.
    pub open spec fn fetch(self) -> (CpuState, u8) {
        if self.opcode_mode() != AddressingMode::IMP {
            let (s, v) = self.read(self.addr_abs, false);
            (CpuState { fetched: v, ..s }, v)
        } else {
            (self, self.fetched)
        }
    }

    /// Where a shift or rotate puts its result: the accumulator for an implied
    /// operand, memory otherwise.
    pub open spec fn shift_target_ok(self) -> bool {
        self.opcode_mode() != AddressingMode::IMP ==> self.write_ok(self.addr_abs)
    }

    pub open spec fn store_shifted(self, value: u8) -> CpuState {
        if self.opcode_mode() == AddressingMode::IMP {
            CpuState { acc: value, ..self }
        } else {
            self.write(self.addr_abs, value)
        }
    }
}


/// Whether the top bit of a byte is set, i.e. the byte is negative as a signed number.
pub open spec fn is_negative(value: u8) -> bool {
    value >= 128
}

pub open spec fn carry_in(status: u8) -> int {
    if has_flag(status, StatusFlag::Carry) {
        1
    } else {
        0
    }
}

/// The 6502's signed overflow: both operands have the same sign and the
/// result's sign differs from it.
pub open spec fn signed_overflow(a: u8, b: u8, result: u8) -> bool {
    is_negative(a) == is_negative(b) && is_negative(a) != is_negative(result)
}

impl CpuState {
    // ------------------------------------------------------- access
    pub open spec fn load(self, r: Register) -> (CpuState, bool) {
        let (s, v) = self.fetch();
        (s.with_register(r, v).with_status(with_zn(s.status, v)), true)
    }

    pub open spec fn store_ok(self) -> bool {
        self.write_ok(self.addr_abs)
    }

    pub open spec fn store(self, r: Register) -> (CpuState, bool) {
        (self.write(self.addr_abs, self.register(r)), false)
    }

    pub open spec fn transfer(self, from: Register, to: Register) -> (CpuState, bool) {
        let v = self.register(from);
        (self.with_register(to, v).with_status(with_zn(self.status, v)), false)
    }

    // ------------------------------------------------------- arithmetic
    /// Add with carry: acc + operand + carry; carry out above 255, signed overflow in V.
    pub open spec fn adc(self) -> (CpuState, bool) {
        let (s, m) = self.fetch();
        let sum = s.acc + m + carry_in(s.status);
        let result = (sum % 256) as u8;
        let status = with_flag(
            with_flag(
                with_flag(with_flag(s.status, StatusFlag::Carry, sum > 255), StatusFlag::Zero, result == 0),
                StatusFlag::Overflow,
                signed_overflow(s.acc, m, result),
            ),
            StatusFlag::Negative,
            is_negative(result),
        );
        (CpuState { acc: result, status, ..s }, true)
    }

    /// Subtract with borrow, done as adding the operand's complement and the carry.
    pub open spec fn sbc(self) -> (CpuState, bool) {
        let (s, m) = self.fetch();
        let value = (255 - m) as u8;
        let sum = s.acc + value + carry_in(s.status);
        let result = (sum % 256) as u8;
        let status = with_flag(
            with_flag(
                with_flag(with_flag(s.status, StatusFlag::Carry, sum > 255), StatusFlag::Zero, result == 0),
                StatusFlag::Overflow,
                signed_overflow(s.acc, value, result),
            ),
            StatusFlag::Negative,
            is_negative(result),
        );
        (CpuState { acc: result, status, ..s }, true)
    }

    pub open spec fn step_memory_ok(self) -> bool {
        self.fetch_ok() && self.fetch().0.write_ok(self.addr_abs)
    }

    /// Adds `delta` (1 or 255) to the byte in memory, wrapping.
    pub open spec fn step_memory(self, delta: int) -> (CpuState, bool) {
        let (s, m) = self.fetch();
        let t = ((m + delta) % 256) as u8;
        let s1 = s.write(s.addr_abs, t);
        (s1.with_status(with_zn(s1.status, t)), false)
    }

    /// Adds `delta` (1 or 255) to a register, wrapping.
    pub open spec fn step_register(self, r: Register, delta: int) -> (CpuState, bool) {
        let t = ((self.register(r) + delta) % 256) as u8;
        (self.with_register(r, t).with_status(with_zn(self.status, t)), false)
    }

    // ------------------------------------------------------- shifts
    pub open spec fn shift_ok(self) -> bool {
        self.fetch_ok() && self.fetch().0.shift_target_ok()
    }

    pub open spec fn asl(self) -> (CpuState, bool) {
        let (s, m) = self.fetch();
        let v = ((m * 2) % 256) as u8;
        let status = with_zn(with_flag(s.status, StatusFlag::Carry, m >= 128), v);
        (s.with_status(status).store_shifted(v), false)
    }

    pub open spec fn lsr(self) -> (CpuState, bool) {
        let (s, m) = self.fetch();
        let v = (m / 2) as u8;
        let status = with_flag(
            with_flag(with_flag(s.status, StatusFlag::Carry, m % 2 == 1), StatusFlag::Zero, v == 0),
            StatusFlag::Negative,
            false,
        );
        (s.with_status(status).store_shifted(v), false)
    }

    pub open spec fn rol(self) -> (CpuState, bool) {
        let (s, m) = self.fetch();
        let v = ((m * 2) % 256 + carry_in(s.status)) as u8;
        let status = with_zn(with_flag(s.status, StatusFlag::Carry, m >= 128), v);
        (s.with_status(status).store_shifted(v), false)
    }

    pub open spec fn ror(self) -> (CpuState, bool) {
        let (s, m) = self.fetch();
        let v = (m / 2 + 128 * carry_in(s.status)) as u8;
        let status = with_zn(with_flag(s.status, StatusFlag::Carry, m % 2 == 1), v);
        (s.with_status(status).store_shifted(v), false)
    }

    // ------------------------------------------------------- bitwise
    /// AND sets the carry flag (not the zero flag) when the result is zero.
    pub open spec fn and(self) -> (CpuState, bool) {
        let (s, m) = self.fetch();
        let v = s.acc & m;
        let status = with_flag(
            with_flag(s.status, StatusFlag::Carry, v == 0),
            StatusFlag::Negative,
            is_negative(v),
        );
        (CpuState { acc: v, status, ..s }, true)
    }

    pub open spec fn ora(self) -> (CpuState, bool) {
        let (s, m) = self.fetch();
        let v = s.acc | m;
        (CpuState { acc: v, status: with_zn(s.status, v), ..s }, true)
    }

    pub open spec fn eor(self) -> (CpuState, bool) {
        let (s, m) = self.fetch();
        let v = s.acc ^ m;
        (CpuState { acc: v, status: with_zn(s.status, v), ..s }, true)
    }

    pub open spec fn bit(self) -> (CpuState, bool) {
        let (s, m) = self.fetch();
        let status = with_flag(
            with_flag(with_flag(s.status, StatusFlag::Zero, s.acc & m == 0), StatusFlag::Negative, m >= 128),
            StatusFlag::Overflow,
            (m / 64) % 2 == 1,
        );
        (s.with_status(status), false)
    }

    // ------------------------------------------------------- compare
    pub open spec fn compare(self, r: Register) -> CpuState {
        let (s, m) = self.fetch();
        let v = s.register(r);
        let status = with_flag(
            with_flag(with_flag(s.status, StatusFlag::Carry, v >= m), StatusFlag::Zero, v == m),
            StatusFlag::Negative,
            is_negative(((v - m + 256) % 256) as u8),
        );
        s.with_status(status)
    }

    // ------------------------------------------------------- branches
    pub open spec fn branch_ok(self, flag: StatusFlag, value: bool) -> bool {
        has_flag(self.status, flag) == value ==> self.cycles <= 253
    }

    /// A taken branch costs one cycle, two when it lands on another page.
    pub open spec fn branch(self, flag: StatusFlag, value: bool) -> (CpuState, bool) {
        if has_flag(self.status, flag) == value {
            let target = ((self.program_counter + self.addr_rel) % 65536) as u16;
            let extra: int = if target / 256 != self.program_counter / 256 {
                2
            } else {
                1
            };
            (
                CpuState {
                    cycles: (self.cycles + extra) as u8,
                    addr_abs: target,
                    program_counter: target,
                    ..self
                },
                false,
            )
        } else {
            (self, false)
        }
    }

    // ------------------------------------------------------- jumps
    pub open spec fn jsr_ok(self) -> bool {
        self.program_counter >= 1 && self.stack_pointer >= 2
    }

    /// Pushes the address of the last operand byte, high byte first, and jumps.
    pub open spec fn jsr(self) -> (CpuState, bool) {
        let pc = (self.program_counter - 1) as u16;
        let s = self.push((pc / 256) as u8).push((pc % 256) as u8);
        (CpuState { program_counter: self.addr_abs, ..s }, false)
    }

    pub open spec fn rts_ok(self) -> bool {
        let (s1, low) = self.pull();
        let (s2, high) = s1.pull();
        self.stack_pointer <= 253 && high as int * 256 + low as int <= 0xFFFE
    }

    pub open spec fn rts(self) -> (CpuState, bool) {
        let (s1, low) = self.pull();
        let (s2, high) = s1.pull();
        (CpuState { program_counter: (high as int * 256 + low as int + 1) as u16, ..s2 }, false)
    }

    pub open spec fn brk_ok(self) -> bool {
        &&& self.program_counter < 0xFFFF
        &&& self.stack_pointer >= 3
        &&& self.cartridge.cpu_read_ok(0xFFFE)
        &&& self.cartridge.cpu_read_ok(0xFFFF)
    }

    /// Pushes the program counter and the status (with the break flag), disables
    /// interrupts and jumps through the vector at $FFFE.
    pub open spec fn brk(self) -> (CpuState, bool) {
        let pc = (self.program_counter + 1) as u16;
        let s0 = CpuState {
            program_counter: pc,
            status: with_flag(self.status, StatusFlag::DisableInterupts, true),
            ..self
        };
        let s1 = s0.push((pc / 256) as u8).push((pc % 256) as u8);
        let s2 = s1.with_status(with_flag(s1.status, StatusFlag::Break, true));
        let s3 = s2.push(s2.status);
        let s4 = s3.with_status(with_flag(s3.status, StatusFlag::Break, false));
        let low = s4.cartridge.cpu_read_value(0xFFFE);
        let high = s4.cartridge.cpu_read_value(0xFFFF);
        (CpuState { program_counter: (high as int * 256 + low as int) as u16, ..s4 }, false)
    }

    pub open spec fn rti_ok(self) -> bool {
        self.stack_pointer <= 252
    }

    /// Pulls the status (clearing break and unused) and then the program counter.
    pub open spec fn rti(self) -> (CpuState, bool) {
        let (s1, status) = self.pull();
        let st = with_flag(with_flag(status, StatusFlag::Break, false), StatusFlag::Unused, false);
        let (s2, low) = s1.with_status(st).pull();
        let (s3, high) = s2.pull();
        (CpuState { program_counter: (high as int * 256 + low as int) as u16, ..s3 }, false)
    }

    // ------------------------------------------------------- stack
    pub open spec fn pha(self) -> (CpuState, bool) {
        (self.push(self.acc), false)
    }

    pub open spec fn pla(self) -> (CpuState, bool) {
        let (s, v) = self.pull();
        (CpuState { acc: v, status: with_zn(s.status, v), ..s }, false)
    }

    /// Pushes the status with the carry and unused bits set, then clears break and unused.
    pub open spec fn php(self) -> (CpuState, bool) {
        let s = self.write(self.stack_address(), self.status | 0x21);
        let status = with_flag(
            with_flag(s.status, StatusFlag::Break, false),
            StatusFlag::Unused,
            false,
        );
        (CpuState { status, stack_pointer: (s.stack_pointer - 1) as u8, ..s }, false)
    }

    pub open spec fn plp(self) -> (CpuState, bool) {
        let (s, v) = self.pull();
        (s.with_status(with_flag(v, StatusFlag::Unused, true)), false)
    }

    pub open spec fn txs(self) -> (CpuState, bool) {
        (CpuState { stack_pointer: self.reg_x, ..self }, false)
    }

    pub open spec fn set_flag_op(self, flag: StatusFlag, value: bool) -> (CpuState, bool) {
        (self.with_status(with_flag(self.status, flag, value)), false)
    }

    /// The unofficial NOPs that read an absolute operand take an extra cycle on a page cross.
    pub open spec fn nop(self) -> (CpuState, bool) {
        (
            self,
            self.opcode == 0x1C || self.opcode == 0x3C || self.opcode == 0x5C || self.opcode == 0x7C
                || self.opcode == 0xDC || self.opcode == 0xFC,
        )
    }

    // ------------------------------------------------------- dispatch
    /// Whether executing `instruction` is defined in this state.
    pub open spec fn execute_ok(self, instruction: Instruction) -> bool {
        match instruction.type_ {
            IT::LDA | IT::LDX | IT::LDY | IT::ADC | IT::SBC | IT::AND | IT::ORA | IT::EOR
            | IT::BIT | IT::CMP | IT::CPX | IT::CPY => self.fetch_ok(),
            IT::STA | IT::STX | IT::STY => self.store_ok(),
            IT::INC | IT::DEC => self.step_memory_ok(),
            IT::ASL | IT::LSR | IT::ROL | IT::ROR => self.shift_ok(),
            IT::BCC | IT::BCS => self.branch_ok(StatusFlag::Carry, true) && self.branch_ok(StatusFlag::Carry, false),
            IT::BEQ | IT::BNE => self.branch_ok(StatusFlag::Zero, true) && self.branch_ok(StatusFlag::Zero, false),
            IT::BPL | IT::BMI => self.branch_ok(StatusFlag::Negative, true) && self.branch_ok(StatusFlag::Negative, false),
            IT::BVC | IT::BVS => self.branch_ok(StatusFlag::Overflow, true) && self.branch_ok(StatusFlag::Overflow, false),
            IT::JSR => self.jsr_ok(),
            IT::RTS => self.rts_ok(),
            IT::BRK => self.brk_ok(),
            IT::RTI => self.rti_ok(),
            IT::PHA | IT::PHP => self.stack_pointer >= 1,
            IT::PLA | IT::PLP => self.stack_pointer <= 254,
            _ => true,
        }
    }

    /// The state after executing `instruction`, and whether it may need an extra cycle.
    pub open spec fn execute(self, instruction: Instruction) -> (CpuState, bool) {
        match instruction.type_ {
            IT::LDA => self.load(Register::Acc),
            IT::LDX => self.load(Register::X),
            IT::LDY => self.load(Register::Y),
            IT::STA => self.store(Register::Acc),
            IT::STX => self.store(Register::X),
            IT::STY => self.store(Register::Y),
            IT::TAX => self.transfer(Register::Acc, Register::X),
            IT::TXA => self.transfer(Register::X, Register::Acc),
            IT::TAY => self.transfer(Register::Acc, Register::Y),
            IT::TYA => self.transfer(Register::Y, Register::Acc),
            IT::ADC => self.adc(),
            IT::SBC => self.sbc(),
            IT::INC => self.step_memory(1),
            IT::INX => self.step_register(Register::X, 1),
            IT::INY => self.step_register(Register::Y, 1),
            IT::DEC => self.step_memory(255),
            IT::DEX => self.step_register(Register::X, 255),
            IT::DEY => self.step_register(Register::Y, 255),
            IT::ASL => self.asl(),
            IT::LSR => self.lsr(),
            IT::ROL => self.rol(),
            IT::ROR => self.ror(),
            IT::AND => self.and(),
            IT::ORA => self.ora(),
            IT::EOR => self.eor(),
            IT::BIT => self.bit(),
            IT::CMP => (self.compare(Register::Acc), true),
            IT::CPX => (self.compare(Register::X), false),
            IT::CPY => (self.compare(Register::Y), false),
            IT::BCC => self.branch(StatusFlag::Carry, false),
            IT::BCS => self.branch(StatusFlag::Carry, true),
            IT::BEQ => self.branch(StatusFlag::Zero, true),
            IT::BNE => self.branch(StatusFlag::Zero, false),
            IT::BPL => self.branch(StatusFlag::Negative, false),
            IT::BMI => self.branch(StatusFlag::Negative, true),
            IT::BVC => self.branch(StatusFlag::Overflow, false),
            IT::BVS => self.branch(StatusFlag::Overflow, true),
            IT::JMP => (CpuState { program_counter: self.addr_abs, ..self }, false),
            IT::JSR => self.jsr(),
            IT::RTS => self.rts(),
            IT::BRK => self.brk(),
            IT::RTI => self.rti(),
            IT::PHA => self.pha(),
            IT::PLA => self.pla(),
            IT::PHP => self.php(),
            IT::PLP => self.plp(),
            IT::TSX => self.transfer(Register::StackPointer, Register::X),
            IT::TXS => self.txs(),
            IT::CLC => self.set_flag_op(StatusFlag::Carry, false),
            IT::CLD => self.set_flag_op(StatusFlag::DecimalMode, false),
            IT::CLI => self.set_flag_op(StatusFlag::DisableInterupts, false),
            IT::CLV => self.set_flag_op(StatusFlag::Overflow, false),
            IT::SEC => self.set_flag_op(StatusFlag::Carry, true),
            IT::SED => self.set_flag_op(StatusFlag::DecimalMode, true),
            IT::SEI => self.set_flag_op(StatusFlag::DisableInterupts, true),
            IT::NOP => self.nop(),
            IT::INVALID => (self, false),
        }
    }
}

impl CpuState {
    // ------------------------------------------------------- reset, interrupts, clock
    pub open spec fn reset_ok(self) -> bool {
        self.read_u16_ok(0xFFFC)
    }

    /// Loads the program counter from the reset vector at $FFFC and clears the registers.
    pub open spec fn reset(self) -> CpuState {
        let (s, pc) = CpuState { addr_abs: 0xFFFC, ..self }.read_u16(0xFFFC);
        CpuState {
            program_counter: pc,
            acc: 0,
            reg_x: 0,
            reg_y: 0,
            stack_pointer: 0xFD,
            status: 0x20,
            addr_rel: 0,
            addr_abs: 0,
            fetched: 0,
            cycles: 8,
            ..s
        }
    }

    pub open spec fn interrupt_ok(self, vector: u16) -> bool {
        &&& self.stack_pointer >= 3
        &&& 0x4020 <= vector < 0xFFFF
        &&& self.cartridge.cpu_read_ok(vector)
        &&& self.cartridge.cpu_read_ok((vector + 1) as u16)
    }

    /// Pushes the program counter and the status (break clear, unused and
    /// interrupt-disable set) and jumps through `vector`.
    pub open spec fn interrupt(self, vector: u16) -> CpuState {
        let pc = self.program_counter;
        let s1 = self.push((pc / 256) as u8).push((pc % 256) as u8);
        let s2 = s1.with_status(
            with_flag(
                with_flag(with_flag(s1.status, StatusFlag::Break, false), StatusFlag::Unused, true),
                StatusFlag::DisableInterupts,
                true,
            ),
        );
        let s3 = s2.push(s2.status);
        let low = s3.cartridge.cpu_read_value(vector);
        let high = s3.cartridge.cpu_read_value((vector + 1) as u16);
        CpuState {
            addr_abs: vector,
            program_counter: (high as int * 256 + low as int) as u16,
            ..s3
        }
    }

    pub open spec fn interupt_request_ok(self) -> bool {
        !has_flag(self.status, StatusFlag::DisableInterupts) ==> self.interrupt_ok(0xFFFE)
    }

    /// A maskable interrupt happens only while interrupts are enabled.
    pub open spec fn interupt_request(self) -> CpuState {
        if !has_flag(self.status, StatusFlag::DisableInterupts) {
            CpuState { cycles: 7, ..self.interrupt(0xFFFE) }
        } else {
            self
        }
    }

    pub open spec fn non_maskable_interupt_request(self) -> CpuState {
        CpuState { cycles: 8, ..self.interrupt(0xFFFA) }
    }

    /// The state just before the addressing mode of the next instruction runs:
    /// opcode read, program counter past it, cycle count set from the table.
    pub open spec fn decoded(self) -> CpuState {
        let (s, opcode) = self.read(self.program_counter, false);
        CpuState {
            opcode,
            program_counter: (self.program_counter + 1) as u16,
            cycles: instruction_of(opcode).cycles,
            ..s
        }
    }

    pub open spec fn clock_ok(self) -> bool {
        self.cycles == 0 ==> {
            let s = self.decoded();
            let instruction = instruction_of(s.opcode);
            let (s1, _) = s.find_data(instruction.mode);
            &&& self.program_counter < 0xFFFF
            &&& self.read_ok(self.program_counter)
            &&& s.find_data_ok(instruction.mode)
            &&& s1.execute_ok(instruction)
        }
    }

    /// One CPU cycle: with no cycles left, the next instruction is read, its operand
    /// found and the instruction executed, all at once; the extra cycle is added when
    /// both the addressing mode and the instruction ask for one. Then one cycle passes.
    pub open spec fn clock(self) -> CpuState {
        if self.cycles == 0 {
            let s = self.decoded();
            let instruction = instruction_of(s.opcode);
            let (s1, data_needs_cycle) = s.find_data(instruction.mode);
            let (s2, operation_needs_cycle) = s1.execute(instruction);
            let extra: int = if data_needs_cycle && operation_needs_cycle {
                1
            } else {
                0
            };
            CpuState { cycles: (s2.cycles + extra - 1) as u8, ..s2 }
        } else {
            CpuState { cycles: (self.cycles - 1) as u8, ..self }
        }
    }
}

/// The status register with every flag of `flags` in it set.
pub open spec fn combined_mask(flags: Seq<StatusFlag>) -> u8
    decreases flags.len(),
{
    if flags.len() == 0 {
        0
    } else {
        combined_mask(flags.drop_last()) | flag_mask(flags.last())
    }
}

impl CpuState {
    /// The state of a freshly built CPU before its reset: every register, the RAM
    /// and the helper latches zero.
    pub open spec fn powered_on(cartridge: CartridgeState, ppu: PpuState) -> CpuState {
        CpuState {
            acc: 0,
            reg_x: 0,
            reg_y: 0,
            stack_pointer: 0,
            program_counter: 0,
            status: 0,
            ram: Seq::new(2048, |i: int| 0u8),
            cartridge,
            ppu,
            fetched: 0,
            addr_abs: 0,
            addr_rel: 0,
            opcode: 0,
            cycles: 0,
        }
    }

    /// The clock until the current instruction has used up its cycles: one tick,
    /// then the remaining cycles run down.
    pub open spec fn clock_until_next_instruction(self) -> CpuState {
        CpuState { cycles: 0, ..self.clock() }
    }
}

/// The logic instructions combine the accumulator with the operand bit by bit: AND
/// keeps the bits set in both, ORA the bits set in either, EOR the bits set in exactly
/// one. So a second EOR of the same operand gives the old accumulator back, EOR sets
/// Zero exactly when accumulator and operand were equal, and each sets Negative from
/// bit 7 of its result.
pub proof fn lemma_logic_ops(s: CpuState, i: Instruction)
    ensures
        ({
            let m = s.fetch().1;
            let t = s.execute(i).0;
            &&& i.type_ == IT::EOR ==> {
                &&& t.acc == s.acc ^ m
                &&& t.acc ^ m == s.acc
                &&& has_flag(t.status, StatusFlag::Zero) == (s.acc == m)
                &&& has_flag(t.status, StatusFlag::Negative) == (t.acc >= 128)
            }
            &&& i.type_ == IT::ORA ==> {
                &&& t.acc == s.acc | m
                &&& t.acc & m == m
                &&& has_flag(t.status, StatusFlag::Zero) == (s.acc == 0 && m == 0)
            }
            &&& i.type_ == IT::AND ==> {
                &&& t.acc == s.acc & m
                &&& t.acc | m == m
            }
        }),
{
    lemma_read_keeps_registers(s, s.addr_abs, false);
    let m = s.fetch().1;
    let a = s.acc;
    assert((a ^ m) ^ m == a && ((a ^ m == 0) == (a == m)) && (a | m) & m == m && ((a | m == 0)
        == (a == 0 && m == 0)) && (a & m) | m == m) by (bit_vector);
    let v = if i.type_ == IT::EOR {
        a ^ m
    } else if i.type_ == IT::ORA {
        a | m
    } else {
        a & m
    };
    lemma_flag_set_get(with_flag(s.fetch().0.status, StatusFlag::Zero, v == 0), StatusFlag::Negative, StatusFlag::Zero, v >= 128);
    lemma_flag_set_get(s.fetch().0.status, StatusFlag::Zero, StatusFlag::Negative, v == 0);
}

/// In (indirect,X) mode the operand's address is the little-endian word in zero page at
/// the operand byte plus X and the byte after it, both taken modulo 256.
pub proof fn lemma_izx_pointer(s: CpuState)
    requires
        s.ram.len() == 2048,
    ensures
        ({
            let t = s.read(s.program_counter, false).1;
            let low = s.ram[(t + s.reg_x) % 256];
            let high = s.ram[(t + s.reg_x + 1) % 256];
            s.find_data(AddressingMode::IZX).0.addr_abs == high * 256 + low
        }),
{
    let pc = s.program_counter;
    lemma_read_keeps_registers(s, pc, false);
    let (s0, t) = s.read(pc, false);
    let a0 = ((t + s.reg_x) % 256) as u16;
    let a1 = ((t + s.reg_x + 1) % 256) as u16;
    assert(s0.read(a0, false) == (s0, s.ram[(t + s.reg_x) % 256]));
    assert(s0.read(a1, false) == (s0, s.ram[(t + s.reg_x + 1) % 256]));
}

/// Writing the control register ($2000 and its mirrors) stores the byte as the control
/// register and points the temporary address at the nametable that its two low bits
/// select: bit 0 the horizontal one, bit 1 the vertical one; the other fields of the
/// temporary address stay.
pub proof fn lemma_control_write_selects_nametable(s: CpuState, address: u16, data: u8)
    requires
        0x2000 <= address < 0x4000,
        address % 8 == 0,
    ensures
        ({
            let before = s.ppu.ppu_controls.tram_address;
            let c = s.write(address, data).ppu.ppu_controls;
            &&& c.control.bits == data
            &&& c.tram_address.nametable_x() == (data % 2 == 1)
            &&& c.tram_address.nametable_y() == ((data / 2) % 2 == 1)
            &&& c.tram_address.coarse_x() == before.coarse_x()
            &&& c.tram_address.coarse_y() == before.coarse_y()
            &&& c.tram_address.fine_y() == before.fine_y()
        }),
{
    lemma_byte_bits(data);
    let before = s.ppu.ppu_controls.tram_address;
    lemma_loopy_fields(before);
    lemma_loopy_fields(before.with_nametable_x_spec(data & 0x01 != 0));
}

/// Whether a read of `address` has no side effects: it is not one of the PPU registers.
pub open spec fn quiet_address(address: int) -> bool {
    address < 0x2000 || 0x4000 <= address < 0x10000
}

/// The byte a read of `address` gives.
pub open spec fn byte_at(s: CpuState, address: int) -> u8 {
    s.read(address as u16, false).1
}

/// The operand bytes at the program counter, when reads there have no effect: the
/// state is unchanged and the two-byte read gives the little-endian word.
proof fn lemma_operand_bytes(s: CpuState)
    requires
        quiet_address(s.program_counter as int),
        quiet_address(s.program_counter + 1),
    ensures
        s.read(s.program_counter, false) == (s, byte_at(s, s.program_counter as int)),
        s.read((s.program_counter + 1) as u16, false) == (s, byte_at(s, s.program_counter + 1)),
        s.read_u16(s.program_counter) == (s, (byte_at(s, s.program_counter + 1) * 256 + byte_at(
            s,
            s.program_counter as int,
        )) as u16),
{
}

/// Where the direct addressing modes find their operand, with the operand bytes at the
/// program counter read from memory that reads have no effect on: immediate at the
/// program counter itself; zero page at the byte there; absolute at the little-endian
/// word; relative sign-extends the offset byte.
pub proof fn lemma_direct_addressing(s: CpuState)
    requires
        quiet_address(s.program_counter as int),
        quiet_address(s.program_counter + 1),
    ensures
        ({
            let pc = s.program_counter as int;
            let b0 = byte_at(s, pc);
            let b1 = byte_at(s, pc + 1);
            &&& s.find_data(AddressingMode::IMM).0.addr_abs == pc
            &&& s.find_data(AddressingMode::ZP0).0.addr_abs == b0
            &&& s.find_data(AddressingMode::ABS).0.addr_abs == b1 * 256 + b0
            &&& s.find_data(AddressingMode::REL).0.addr_rel == (if b0 >= 128 {
                b0 + 0xFF00
            } else {
                b0 as int
            })
        }),
{
    lemma_operand_bytes(s);
}

/// Absolute,X and absolute,Y add the index register to the little-endian word at the
/// program counter, modulo 65536, and report whether that changed the page.
pub proof fn lemma_indexed_addressing(s: CpuState)
    requires
        quiet_address(s.program_counter as int),
        quiet_address(s.program_counter + 1),
    ensures
        ({
            let b0 = byte_at(s, s.program_counter as int);
            let b1 = byte_at(s, s.program_counter + 1);
            let word = b1 * 256 + b0;
            &&& s.find_data(AddressingMode::ABX).0.addr_abs == (word + s.reg_x) % 65536
            &&& s.find_data(AddressingMode::ABX).1 == ((word + s.reg_x) % 65536 / 256 != b1)
            &&& s.find_data(AddressingMode::ABY).0.addr_abs == (word + s.reg_y) % 65536
            &&& s.find_data(AddressingMode::ABY).1 == ((word + s.reg_y) % 65536 / 256 != b1)
        }),
{
    lemma_operand_bytes(s);
    let b0 = byte_at(s, s.program_counter as int);
    let b1 = byte_at(s, s.program_counter + 1);
    let w = (b1 * 256 + b0) as u16;
    let x = s.reg_x;
    let y = s.reg_y;
    assert(((w + x) as u16) == (w + x) % 65536 && ((w + y) as u16) == (w + y) % 65536) by (bit_vector);
    assert(w / 256 == b1);
}

/// In (indirect),Y mode the operand's address is the little-endian word in zero page at
/// the operand byte and the byte after it (modulo 256), plus Y modulo 65536.
pub proof fn lemma_izy_pointer(s: CpuState)
    requires
        s.ram.len() == 2048,
        quiet_address(s.program_counter as int),
    ensures
        ({
            let t = byte_at(s, s.program_counter as int);
            s.find_data(AddressingMode::IZY).0.addr_abs == (s.ram[(t + 1) % 256] * 256 + s.ram[t as int]
                + s.reg_y) % 65536
        }),
{
    let t = byte_at(s, s.program_counter as int);
    assert(s.read(s.program_counter, false) == (s, t));
    assert(s.read(t as u16, false) == (s, s.ram[t as int]));
    assert(s.read(((t + 1) % 256) as u16, false) == (s, s.ram[(t + 1) % 256]));
    let w = (s.ram[(t + 1) % 256] * 256 + s.ram[t as int]) as u16;
    let y = s.reg_y;
    assert(((w + y) as u16) == (w + y) % 65536) by (bit_vector);
}

/// In indirect mode (JMP) the target is the little-endian word at the pointer; when the
/// pointer ends a page its high byte comes from the start of that same page.
pub proof fn lemma_indirect_pointer(s: CpuState)
    requires
        quiet_address(s.program_counter as int),
        quiet_address(s.program_counter + 1),
        ({
            let b0 = byte_at(s, s.program_counter as int);
            let word = byte_at(s, s.program_counter + 1) * 256 + b0;
            quiet_address(word) && quiet_address(if b0 == 0xFF { word - 0xFF } else { word + 1 })
        }),
    ensures
        ({
            let b0 = byte_at(s, s.program_counter as int);
            let word = byte_at(s, s.program_counter + 1) * 256 + b0;
            s.find_data(AddressingMode::IND).0.addr_abs == byte_at(
                s,
                if b0 == 0xFF { word - 0xFF } else { word + 1 },
            ) * 256 + byte_at(s, word)
        }),
{
    lemma_operand_bytes(s);
    let b0 = byte_at(s, s.program_counter as int);
    let word = byte_at(s, s.program_counter + 1) * 256 + b0;
    let pointer = word as u16;
    assert(pointer % 256 == b0);
    assert(s.read(pointer, false) == (s, byte_at(s, word)));
    let next = if b0 == 0xFF { word - 0xFF } else { word + 1 };
    assert(s.read(next as u16, false) == (s, byte_at(s, next)));
}

/// ROL then ROR on the accumulator, once each has its implied operand in `fetched`.
#[verifier::rlimit(60)]
proof fn lemma_rotates_on_accumulator(s0: CpuState)
    requires
        s0.opcode_mode() == AddressingMode::IMP,
        s0.fetched == s0.acc,
    ensures
        ({
            let t0 = s0.rol().0;
            let u = CpuState { fetched: t0.acc, ..t0 }.ror().0;
            &&& has_flag(t0.status, StatusFlag::Carry) == (s0.acc >= 128)
            &&& t0.acc % 2 == (if has_flag(s0.status, StatusFlag::Carry) { 1int } else { 0 })
            &&& t0.acc / 2 == s0.acc % 128
            &&& u.acc == s0.acc
            &&& has_flag(u.status, StatusFlag::Carry) == has_flag(s0.status, StatusFlag::Carry)
        }),
{
    let m = s0.acc;
    let v = ((m * 2) % 256 + carry_in(s0.status)) as u8;
    lemma_flag_set_get(s0.status, StatusFlag::Carry, StatusFlag::Zero, m >= 128);
    let c1 = with_flag(s0.status, StatusFlag::Carry, m >= 128);
    lemma_flag_set_get(c1, StatusFlag::Zero, StatusFlag::Carry, v == 0);
    lemma_flag_set_get(with_flag(c1, StatusFlag::Zero, v == 0), StatusFlag::Negative, StatusFlag::Carry, v >= 128);
    let t0 = s0.rol().0;
    assert(t0.acc == v);
    assert(has_flag(t0.status, StatusFlag::Carry) == (m >= 128));
    let w = (v / 2 + 128 * carry_in(t0.status)) as u8;
    assert(w == m);
    lemma_flag_set_get(t0.status, StatusFlag::Carry, StatusFlag::Zero, v % 2 == 1);
    let c2 = with_flag(t0.status, StatusFlag::Carry, v % 2 == 1);
    lemma_flag_set_get(c2, StatusFlag::Zero, StatusFlag::Carry, w == 0);
    lemma_flag_set_get(with_flag(c2, StatusFlag::Zero, w == 0), StatusFlag::Negative, StatusFlag::Carry, w >= 128);
}

/// Rotating the accumulator left and then right through the carry gives back both the
/// accumulator and the carry: ROL moves bit 7 into the carry and the old carry into
/// bit 0, ROR moves them back. (Each instruction first finds its implied operand.)
#[verifier::rlimit(40)]
pub proof fn lemma_rotate_left_then_right(s: CpuState, rol: Instruction, ror: Instruction)
    requires
        rol.type_ == IT::ROL,
        ror.type_ == IT::ROR,
        s.opcode_mode() == AddressingMode::IMP,
    ensures
        ({
            let t = s.find_data(AddressingMode::IMP).0.execute(rol).0;
            let u = t.find_data(AddressingMode::IMP).0.execute(ror).0;
            &&& has_flag(t.status, StatusFlag::Carry) == (s.acc >= 128)
            &&& t.acc % 2 == (if has_flag(s.status, StatusFlag::Carry) { 1int } else { 0 })
            &&& t.acc / 2 == s.acc % 128
            &&& u.acc == s.acc
            &&& has_flag(u.status, StatusFlag::Carry) == has_flag(s.status, StatusFlag::Carry)
        }),
{
    let s0 = s.find_data(AddressingMode::IMP).0;
    assert(s0 == CpuState { fetched: s.acc, ..s });
    assert(s0.execute(rol) == s0.rol());
    let t0 = s0.rol().0;
    let t1 = t0.find_data(AddressingMode::IMP).0;
    assert(t1 == CpuState { fetched: t0.acc, ..t0 });
    assert(t1.execute(ror) == t1.ror());
    lemma_rotates_on_accumulator(s0);
}

/// Shifting the accumulator left doubles it (dropping bit 7 into the carry) and shifting
/// it right halves it (dropping bit 0 into the carry), both as shifts of its bits.
pub proof fn lemma_accumulator_shifts(s: CpuState, asl: Instruction, lsr: Instruction)
    requires
        asl.type_ == IT::ASL,
        lsr.type_ == IT::LSR,
        s.opcode_mode() == AddressingMode::IMP,
    ensures
        ({
            let s0 = s.find_data(AddressingMode::IMP).0;
            let t = s0.execute(asl).0;
            let u = s0.execute(lsr).0;
            &&& t.acc == s.acc << 1u8
            &&& has_flag(t.status, StatusFlag::Carry) == ((s.acc >> 7u8) == 1)
            &&& u.acc == s.acc >> 1u8
            &&& has_flag(u.status, StatusFlag::Carry) == ((s.acc & 1u8) == 1)
            &&& !has_flag(u.status, StatusFlag::Negative)
        }),
{
    let m = s.acc;
    lemma_byte_bits(m);
    let v = ((m * 2) % 256) as u8;
    lemma_flag_set_get(s.status, StatusFlag::Carry, StatusFlag::Zero, m >= 128);
    let c1 = with_flag(s.status, StatusFlag::Carry, m >= 128);
    lemma_flag_set_get(c1, StatusFlag::Zero, StatusFlag::Carry, v == 0);
    lemma_flag_set_get(with_flag(c1, StatusFlag::Zero, v == 0), StatusFlag::Negative, StatusFlag::Carry, v >= 128);
    let h = (m / 2) as u8;
    lemma_flag_set_get(s.status, StatusFlag::Carry, StatusFlag::Zero, m % 2 == 1);
    let c2 = with_flag(s.status, StatusFlag::Carry, m % 2 == 1);
    lemma_flag_set_get(c2, StatusFlag::Zero, StatusFlag::Carry, h == 0);
    lemma_flag_set_get(with_flag(c2, StatusFlag::Zero, h == 0), StatusFlag::Negative, StatusFlag::Carry, false);
    assert((m >> 7u8 == 1) == (m >= 128)) by (bit_vector);
}

/// Incrementing a register and then decrementing it gives the register back, and the
/// increment wraps from $FF to 0 and sets Zero there.
#[verifier::rlimit(80)]
pub proof fn lemma_increment_then_decrement(s: CpuState, inc: Instruction, dec: Instruction)
    requires
        (inc.type_ == IT::INX && dec.type_ == IT::DEX) || (inc.type_ == IT::INY && dec.type_
            == IT::DEY),
    ensures
        ({
            let t = s.execute(inc).0;
            let u = t.execute(dec).0;
            let r = if inc.type_ == IT::INX { Register::X } else { Register::Y };
            &&& u.register(r) == s.register(r)
            &&& u.acc == s.acc
            &&& (s.register(r) == 255 ==> t.register(r) == 0 && has_flag(t.status, StatusFlag::Zero))
            &&& (s.register(r) < 255 ==> t.register(r) == s.register(r) + 1)
        }),
{
    let r = if inc.type_ == IT::INX { Register::X } else { Register::Y };
    assert(s.execute(inc) == s.step_register(r, 1));
    let t = s.step_register(r, 1).0;
    assert(t.execute(dec) == t.step_register(r, 255));
    let v = ((s.register(r) + 1) % 256) as u8;
    lemma_flag_set_get(s.status, StatusFlag::Zero, StatusFlag::Negative, v == 0);
    lemma_flag_set_get(with_flag(s.status, StatusFlag::Zero, v == 0), StatusFlag::Negative, StatusFlag::Zero, v >= 128);
}

/// A compare leaves registers and memory as they were; it sets Carry exactly when the
/// register is at least the operand and Zero exactly when they are equal, the same
/// Carry and Zero that subtracting the operand with the carry set (no borrow) gives.
pub proof fn lemma_compare_is_subtraction(s: CpuState, compare: Instruction, subtract: Instruction)
    requires
        compare.type_ == IT::CMP,
        subtract.type_ == IT::SBC,
        has_flag(s.status, StatusFlag::Carry),
    ensures
        ({
            let m = s.fetch().1;
            let t = s.execute(compare).0;
            let u = s.execute(subtract).0;
            &&& t.acc == s.acc
            &&& t.reg_x == s.reg_x
            &&& t.reg_y == s.reg_y
            &&& t.ram == s.ram
            &&& has_flag(t.status, StatusFlag::Carry) == (s.acc >= m)
            &&& has_flag(t.status, StatusFlag::Zero) == (s.acc == m)
            &&& has_flag(t.status, StatusFlag::Carry) == has_flag(u.status, StatusFlag::Carry)
            &&& has_flag(t.status, StatusFlag::Zero) == has_flag(u.status, StatusFlag::Zero)
        }),
{
    lemma_read_keeps_registers(s, s.addr_abs, false);
    let (f, m) = s.fetch();
    let a = s.acc;
    lemma_flag_set_get(f.status, StatusFlag::Carry, StatusFlag::Zero, a >= m);
    let c1 = with_flag(f.status, StatusFlag::Carry, a >= m);
    lemma_flag_set_get(c1, StatusFlag::Zero, StatusFlag::Carry, a == m);
    let c2 = with_flag(c1, StatusFlag::Zero, a == m);
    lemma_flag_set_get(c2, StatusFlag::Negative, StatusFlag::Carry, is_negative(((a - m + 256) % 256) as u8));
    lemma_flag_set_get(c2, StatusFlag::Negative, StatusFlag::Zero, is_negative(((a - m + 256) % 256) as u8));
    let value = (255 - m) as u8;
    let sum = a + value + 1;
    let result = (sum % 256) as u8;
    lemma_flag_set_get(f.status, StatusFlag::Carry, StatusFlag::Zero, sum > 255);
    let d1 = with_flag(f.status, StatusFlag::Carry, sum > 255);
    lemma_flag_set_get(d1, StatusFlag::Zero, StatusFlag::Carry, result == 0);
    let d2 = with_flag(d1, StatusFlag::Zero, result == 0);
    lemma_flag_set_get(d2, StatusFlag::Overflow, StatusFlag::Carry, signed_overflow(a, value, result));
    lemma_flag_set_get(d2, StatusFlag::Overflow, StatusFlag::Zero, signed_overflow(a, value, result));
    let d3 = with_flag(d2, StatusFlag::Overflow, signed_overflow(a, value, result));
    lemma_flag_set_get(d3, StatusFlag::Negative, StatusFlag::Carry, is_negative(result));
    lemma_flag_set_get(d3, StatusFlag::Negative, StatusFlag::Zero, is_negative(result));
}

/// The condition a branch instruction tests: BCC and BCS the carry clear and set, BNE and
/// BEQ the zero flag clear and set, BPL and BMI the negative flag, BVC and BVS overflow.
pub open spec fn branch_condition(t: IT, status: u8) -> Option<bool> {
    match t {
        IT::BCC => Some(!has_flag(status, StatusFlag::Carry)),
        IT::BCS => Some(has_flag(status, StatusFlag::Carry)),
        IT::BNE => Some(!has_flag(status, StatusFlag::Zero)),
        IT::BEQ => Some(has_flag(status, StatusFlag::Zero)),
        IT::BPL => Some(!has_flag(status, StatusFlag::Negative)),
        IT::BMI => Some(has_flag(status, StatusFlag::Negative)),
        IT::BVC => Some(!has_flag(status, StatusFlag::Overflow)),
        IT::BVS => Some(has_flag(status, StatusFlag::Overflow)),
        _ => None,
    }
}

/// A branch jumps by the relative offset (modulo 65536) exactly when its condition
/// holds, and otherwise leaves the program counter where it was; either way the
/// registers, the flags and memory stay as they were.
pub proof fn lemma_branches(s: CpuState, i: Instruction)
    ensures
        branch_condition(i.type_, s.status) matches Some(taken) ==> {
            let t = s.execute(i).0;
            &&& t.program_counter == (if taken {
                (s.program_counter + s.addr_rel) % 65536
            } else {
                s.program_counter as int
            })
            &&& t.acc == s.acc && t.reg_x == s.reg_x && t.reg_y == s.reg_y
            &&& t.status == s.status && t.stack_pointer == s.stack_pointer && t.ram == s.ram
        },
{
}

/// The flag instructions set or clear exactly one flag: CLC and SEC the carry, CLD and
/// SED the decimal flag, CLI and SEI the interrupt disable flag, CLV clears overflow;
/// every other flag keeps its value.
pub proof fn lemma_flag_instructions(s: CpuState, i: Instruction, other: StatusFlag)
    ensures
        ({
            let t = s.execute(i).0;
            let changed = match i.type_ {
                IT::CLC => Some((StatusFlag::Carry, false)),
                IT::SEC => Some((StatusFlag::Carry, true)),
                IT::CLD => Some((StatusFlag::DecimalMode, false)),
                IT::SED => Some((StatusFlag::DecimalMode, true)),
                IT::CLI => Some((StatusFlag::DisableInterupts, false)),
                IT::SEI => Some((StatusFlag::DisableInterupts, true)),
                IT::CLV => Some((StatusFlag::Overflow, false)),
                _ => None,
            };
            changed matches Some((flag, value)) ==> {
                &&& has_flag(t.status, flag) == value
                &&& (other != flag ==> has_flag(t.status, other) == has_flag(s.status, other))
                &&& t.acc == s.acc && t.program_counter == s.program_counter
            }
        }),
{
    let t = s.execute(i).0;
    if i.type_ == IT::CLC || i.type_ == IT::SEC {
        lemma_flag_set_get(s.status, StatusFlag::Carry, if other == StatusFlag::Carry { StatusFlag::Zero } else { other }, i.type_ == IT::SEC);
    } else if i.type_ == IT::CLD || i.type_ == IT::SED {
        lemma_flag_set_get(s.status, StatusFlag::DecimalMode, if other == StatusFlag::DecimalMode { StatusFlag::Zero } else { other }, i.type_ == IT::SED);
    } else if i.type_ == IT::CLI || i.type_ == IT::SEI {
        lemma_flag_set_get(s.status, StatusFlag::DisableInterupts, if other == StatusFlag::DisableInterupts { StatusFlag::Zero } else { other }, i.type_ == IT::SEI);
    } else if i.type_ == IT::CLV {
        lemma_flag_set_get(s.status, StatusFlag::Overflow, if other == StatusFlag::Overflow { StatusFlag::Zero } else { other }, false);
    }
}

/// The loads put the operand into their register (LDA the accumulator, LDX X, LDY Y),
/// leave the other registers, set Zero exactly when the operand is 0 and Negative
/// exactly when its bit 7 is set.
pub proof fn lemma_loads(s: CpuState, i: Instruction)
    requires
        i.type_ == IT::LDA || i.type_ == IT::LDX || i.type_ == IT::LDY,
    ensures
        ({
            let m = s.fetch().1;
            let t = s.execute(i).0;
            &&& t.acc == (if i.type_ == IT::LDA { m } else { s.acc })
            &&& t.reg_x == (if i.type_ == IT::LDX { m } else { s.reg_x })
            &&& t.reg_y == (if i.type_ == IT::LDY { m } else { s.reg_y })
            &&& has_flag(t.status, StatusFlag::Zero) == (m == 0)
            &&& has_flag(t.status, StatusFlag::Negative) == (m >= 128)
        }),
{
    lemma_read_keeps_registers(s, s.addr_abs, false);
    let (f, m) = s.fetch();
    lemma_flag_set_get(f.status, StatusFlag::Zero, StatusFlag::Negative, m == 0);
    lemma_flag_set_get(with_flag(f.status, StatusFlag::Zero, m == 0), StatusFlag::Negative, StatusFlag::Zero, m >= 128);
}

/// BIT leaves the registers alone, sets Zero exactly when the accumulator and the
/// operand share no set bit, and copies the operand's bits 7 and 6 into Negative and
/// Overflow.
pub proof fn lemma_bit_test(s: CpuState, i: Instruction)
    requires
        i.type_ == IT::BIT,
    ensures
        ({
            let m = s.fetch().1;
            let t = s.execute(i).0;
            &&& t.acc == s.acc
            &&& has_flag(t.status, StatusFlag::Zero) == (s.acc & m == 0)
            &&& has_flag(t.status, StatusFlag::Negative) == ((m >> 7u8) & 1u8 == 1)
            &&& has_flag(t.status, StatusFlag::Overflow) == ((m >> 6u8) & 1u8 == 1)
        }),
{
    lemma_read_keeps_registers(s, s.addr_abs, false);
    let (f, m) = s.fetch();
    let z = f.acc & m == 0;
    lemma_flag_set_get(f.status, StatusFlag::Zero, StatusFlag::Negative, z);
    lemma_flag_set_get(f.status, StatusFlag::Zero, StatusFlag::Overflow, z);
    let c1 = with_flag(f.status, StatusFlag::Zero, z);
    lemma_flag_set_get(c1, StatusFlag::Negative, StatusFlag::Zero, m >= 128);
    lemma_flag_set_get(c1, StatusFlag::Negative, StatusFlag::Overflow, m >= 128);
    let c2 = with_flag(c1, StatusFlag::Negative, m >= 128);
    lemma_flag_set_get(c2, StatusFlag::Overflow, StatusFlag::Zero, (m / 64) % 2 == 1);
    lemma_flag_set_get(c2, StatusFlag::Overflow, StatusFlag::Negative, (m / 64) % 2 == 1);
    assert(((m >> 7u8) & 1u8 == 1) == (m >= 128) && ((m >> 6u8) & 1u8 == 1) == ((m / 64) % 2 == 1))
        by (bit_vector);
}

/// Reading the status register ($2002 and its mirrors) gives the top three status bits
/// over the low five bits of the data buffer, clears vertical blank and resets the
/// address latch to the high byte; nothing else of the PPU's registers changes.
pub proof fn lemma_status_read(s: CpuState, address: u16)
    requires
        0x2000 <= address < 0x4000,
        address % 8 == 2,
    ensures
        ({
            let c = s.ppu.ppu_controls;
            let (t, v) = s.read(address, false);
            &&& v / 32 == c.status.bits / 32
            &&& v % 32 == c.data_buffer % 32
            &&& !t.ppu.ppu_controls.status.vertical_blank()
            &&& t.ppu.ppu_controls.status.bits % 128 == c.status.bits % 128
            &&& t.ppu.ppu_controls.writing_part == WritingAddressPart::High
            &&& t.ppu.ppu_controls.vram_address == c.vram_address
            &&& t.ppu.ppu_controls.tram_address == c.tram_address
            &&& t.ram == s.ram
        }),
{
    let c = s.ppu.ppu_controls;
    let a = c.status.bits;
    let b = c.data_buffer;
    lemma_byte_bits(a);
    assert(((a & 0xE0u8) | (b & 0x1Fu8)) / 32 == a / 32 && ((a & 0xE0u8) | (b & 0x1Fu8)) % 32 == b % 32)
        by (bit_vector);
}

/// Writing the data register ($2007 and its mirrors) stores the byte at the PPU address,
/// where a read of a nametable or palette address then finds it, and moves the address
/// on by 1, or by 32 when bit 2 of the control register is set.
pub proof fn lemma_data_write(s: CpuState, address: u16, data: u8)
    requires
        0x2000 <= address < 0x4000,
        address % 8 == 7,
        s.ppu.name_table_0.len() == 1024,
        s.ppu.name_table_1.len() == 1024,
        s.ppu.palette.len() == 32,
    ensures
        ({
            let c = s.ppu.ppu_controls;
            let v = c.vram_address.bits;
            let t = s.write(address, data);
            &&& t.ppu.ppu_controls.vram_address.bits == (v + if (c.control.bits / 4) % 2 == 1 {
                32int
            } else {
                1
            }) % 65536
            &&& (0x2000 <= v < 0x3000 || 0x3F00 <= v < 0x4000) ==> t.ppu.read_value(
                t.cartridge,
                v,
            ) == data
        }),
{
    let c = s.ppu.ppu_controls;
    lemma_byte_bits(c.control.bits);
}

/// A store writes its register at the operand address, where a later read of RAM finds
/// it; the registers and flags stay as they were.
pub proof fn lemma_stores(s: CpuState, i: Instruction)
    requires
        i.type_ == IT::STA || i.type_ == IT::STX || i.type_ == IT::STY,
        s.addr_abs < 0x2000,
        s.ram.len() == 2048,
    ensures
        ({
            let t = s.execute(i).0;
            let v = if i.type_ == IT::STA {
                s.acc
            } else if i.type_ == IT::STX {
                s.reg_x
            } else {
                s.reg_y
            };
            &&& t.read(s.addr_abs, false).1 == v
            &&& t.acc == s.acc && t.reg_x == s.reg_x && t.reg_y == s.reg_y && t.status == s.status
        }),
{
}

/// The transfers copy one register into another (TAX, TAY, TXA, TYA, TSX) and set Zero
/// and Negative from the value copied; the source keeps its value.
pub proof fn lemma_transfers(s: CpuState, i: Instruction)
    requires
        i.type_ == IT::TAX || i.type_ == IT::TAY || i.type_ == IT::TXA || i.type_ == IT::TYA
            || i.type_ == IT::TSX,
    ensures
        ({
            let t = s.execute(i).0;
            let v = if i.type_ == IT::TAX || i.type_ == IT::TAY {
                s.acc
            } else if i.type_ == IT::TXA {
                s.reg_x
            } else if i.type_ == IT::TYA {
                s.reg_y
            } else {
                s.stack_pointer
            };
            &&& (i.type_ == IT::TAX || i.type_ == IT::TSX) ==> t.reg_x == v
            &&& i.type_ == IT::TAY ==> t.reg_y == v
            &&& (i.type_ == IT::TXA || i.type_ == IT::TYA) ==> t.acc == v
            &&& t.stack_pointer == s.stack_pointer
            &&& has_flag(t.status, StatusFlag::Zero) == (v == 0)
            &&& has_flag(t.status, StatusFlag::Negative) == (v >= 128)
        }),
{
    let v = if i.type_ == IT::TAX || i.type_ == IT::TAY {
        s.acc
    } else if i.type_ == IT::TXA {
        s.reg_x
    } else if i.type_ == IT::TYA {
        s.reg_y
    } else {
        s.stack_pointer
    };
    lemma_flag_set_get(s.status, StatusFlag::Zero, StatusFlag::Negative, v == 0);
    lemma_flag_set_get(with_flag(s.status, StatusFlag::Zero, v == 0), StatusFlag::Negative, StatusFlag::Zero, v >= 128);
}

/// A read-only read gives the value that a plain read gives, and leaves the state
/// unchanged.
pub proof fn lemma_read_only_read(s: CpuState, address: u16)
    ensures
        s.read(address, true).0 == s,
        s.read(address, true).1 == s.read(address, false).1,
{
}

/// Reads on the CPU bus touch neither the registers nor the RAM nor the cartridge.
pub proof fn lemma_read_keeps_registers(s: CpuState, address: u16, read_only: bool)
    ensures
        ({
            let t = s.read(address, read_only).0;
            &&& t.acc == s.acc
            &&& t.reg_x == s.reg_x
            &&& t.reg_y == s.reg_y
            &&& t.stack_pointer == s.stack_pointer
            &&& t.program_counter == s.program_counter
            &&& t.status == s.status
            &&& t.ram == s.ram
            &&& t.cartridge == s.cartridge
            &&& t.cycles == s.cycles
            &&& t.opcode == s.opcode
        }),
{
}

/// Writes on the CPU bus touch no register.
pub proof fn lemma_write_keeps_registers(s: CpuState, address: u16, data: u8)
    ensures
        ({
            let t = s.write(address, data);
            &&& t.acc == s.acc
            &&& t.reg_x == s.reg_x
            &&& t.reg_y == s.reg_y
            &&& t.stack_pointer == s.stack_pointer
            &&& t.program_counter == s.program_counter
            &&& t.status == s.status
            &&& t.cycles == s.cycles
            &&& t.opcode == s.opcode
        }),
{
}

/// Finding an operand leaves the cycle count and the opcode alone.
#[verifier::rlimit(40)]
pub proof fn lemma_find_data_keeps_cycles(s: CpuState, mode: AddressingMode)
    ensures
        s.find_data(mode).0.cycles == s.cycles,
        s.find_data(mode).0.opcode == s.opcode,
{
}


/// Setting a flag and reading it back gives the value set; every other flag keeps its value.
pub proof fn lemma_flag_set_get(status: u8, flag: StatusFlag, other: StatusFlag, value: bool)
    requires
        other != flag,
    ensures
        has_flag(with_flag(status, flag, value), flag) == value,
        has_flag(with_flag(status, flag, value), other) == has_flag(status, other),
{
    let st = status;
    let m = flag_mask(flag);
    let o = flag_mask(other);
    assert((st | m) & m != 0 && (st & !m) & m == 0 && ((st | m) & o) == st & o && ((st & !m) & o)
        == st & o) by (bit_vector)
        requires
            m == 1 || m == 2 || m == 4 || m == 8 || m == 16 || m == 32 || m == 64 || m == 128,
            o == 1 || o == 2 || o == 4 || o == 8 || o == 16 || o == 32 || o == 64 || o == 128,
            o != m,
    ;
}

/// A byte written to RAM is read back at the same address, and at every address
/// that mirrors it (RAM repeats every 2 KB below $2000).
pub proof fn lemma_ram_write_then_read(s: CpuState, a: u16, b: u16, data: u8, read_only: bool)
    requires
        a < 0x2000,
        b < 0x2000,
        a % 2048 == b % 2048,
        s.ram.len() == 2048,
    ensures
        s.write(a, data).read(b, read_only).1 == data,
{
}

/// A RAM write leaves every RAM cell that does not mirror it unchanged.
pub proof fn lemma_ram_write_leaves_others(s: CpuState, a: u16, b: u16, data: u8, read_only: bool)
    requires
        a < 0x2000,
        b < 0x2000,
        a % 2048 != b % 2048,
        s.ram.len() == 2048,
    ensures
        s.write(a, data).read(b, read_only).1 == s.read(b, read_only).1,
{
}

/// Pulling right after a push gives back the byte pushed and the stack pointer.
pub proof fn lemma_push_then_pull(s: CpuState, data: u8)
    requires
        s.stack_pointer >= 1,
        s.ram.len() == 2048,
    ensures
        s.push(data).pull().1 == data,
        s.push(data).pull().0.stack_pointer == s.stack_pointer,
{
}

/// Whether two states agree on the stack page $0100..$0200 and the stack pointer.
pub open spec fn same_stack(a: CpuState, b: CpuState) -> bool {
    &&& a.stack_pointer == b.stack_pointer
    &&& a.ram.len() == 2048
    &&& b.ram.len() == 2048
    &&& forall|i: int| 0x100 <= i < 0x200 ==> #[trigger] a.ram[i] == b.ram[i]
}

/// A JSR followed, once the stack is back as the JSR left it, by an RTS returns to
/// the instruction after the JSR with the stack pointer it started with.
pub proof fn lemma_jsr_then_rts(s: CpuState, u: CpuState)
    requires
        s.jsr_ok(),
        s.ram.len() == 2048,
        same_stack(u, s.jsr().0),
    ensures
        s.execute(instruction_of(0x20)) == s.jsr(),
        u.execute(instruction_of(0x60)) == u.rts(),
        u.rts_ok(),
        u.rts().0.program_counter == s.program_counter,
        u.rts().0.stack_pointer == s.stack_pointer,
{
    let pc = (s.program_counter - 1) as u16;
    let t = s.jsr().0;
    assert(t.ram[0x100 + s.stack_pointer] == (pc / 256) as u8);
    assert(t.ram[0x100 + s.stack_pointer - 1] == (pc % 256) as u8);
    assert(u.ram[0x100 + s.stack_pointer] == (pc / 256) as u8);
    assert(u.ram[0x100 + s.stack_pointer - 1] == (pc % 256) as u8);
}

/// A PHA followed, once the stack is back as the PHA left it, by a PLA gives back the
/// accumulator and the stack pointer, and sets zero and negative from that value.
pub proof fn lemma_pha_then_pla(s: CpuState, u: CpuState)
    requires
        s.stack_pointer >= 1,
        s.ram.len() == 2048,
        same_stack(u, s.pha().0),
    ensures
        s.execute(instruction_of(0x48)) == s.pha(),
        u.execute(instruction_of(0x68)) == u.pla(),
        u.pla().0.acc == s.acc,
        u.pla().0.stack_pointer == s.stack_pointer,
        u.pla().0.status == with_zn(u.status, s.acc),
        !u.pla().1,
{
    let t = s.pha().0;
    assert(t.ram[0x100 + s.stack_pointer] == s.acc);
    assert(u.ram[0x100 + s.stack_pointer] == s.acc);
}

/// After a reset the program counter holds the reset vector, the stack pointer is
/// $FD, only the unused flag is set, and eight cycles are pending.
pub proof fn lemma_reset_state(s: CpuState)
    requires
        s.reset_ok(),
    ensures
        s.reset().program_counter == s.cartridge.cpu_read_value(0xFFFD) as int * 256
            + s.cartridge.cpu_read_value(0xFFFC) as int,
        s.reset().stack_pointer == 0xFD,
        s.reset().status == 0x20,
        s.reset().acc == 0 && s.reset().reg_x == 0 && s.reset().reg_y == 0,
        s.reset().cycles == 8,
        s.reset().ram == s.ram,
{
}

/// Two writes to $2006, high byte then low byte, point the PPU at the address they
/// form (the high byte limited to six bits), and leave the latch where it started.
pub proof fn lemma_ppu_address_writes(s: CpuState, high: u8, low: u8)
    requires
        s.ppu.ppu_controls.writing_part == WritingAddressPart::High,
    ensures
        ({
            let t = s.register_write(6, high).register_write(6, low);
            &&& t.ppu.ppu_controls.vram_address.bits == (high % 64) as int * 256 + low as int
            &&& t.ppu.ppu_controls.tram_address == t.ppu.ppu_controls.vram_address
            &&& t.ppu.ppu_controls.writing_part == WritingAddressPart::High
        }),
{
    let t1 = s.register_write(6, high);
    let x = s.ppu.ppu_controls.tram_address.bits;
    let b1 = t1.ppu.ppu_controls.tram_address.bits;
    assert(b1 == (x % 256 + 256 * (high % 64)) as u16);
    assert(t1.ppu.ppu_controls.writing_part == WritingAddressPart::Low);
    assert((b1 / 256) * 256 + low == (high % 64) as int * 256 + low as int) by (bit_vector)
        requires
            b1 == (x % 256 + 256 * (high % 64)) as u16,
    ;
}

/// Setting any flag but the carry leaves the carry as it was.
proof fn lemma_carry_kept(status: u8, flag: StatusFlag, value: bool)
    requires
        flag != StatusFlag::Carry,
    ensures
        has_flag(with_flag(status, flag, value), StatusFlag::Carry) == has_flag(status, StatusFlag::Carry),
{
    lemma_flag_set_get(status, flag, StatusFlag::Carry, value);
}

/// Add with carry computes the sum: the new accumulator plus 256 for the carry out
/// is the old accumulator plus the operand plus the carry in.
pub proof fn lemma_adc_sum(s: CpuState)
    ensures
        ({
            let (f, m) = s.fetch();
            let t = s.adc().0;
            t.acc as int + 256 * carry_in(t.status) == f.acc as int + m as int + carry_in(f.status)
        }),
{
    let (f, m) = s.fetch();
    let sum = f.acc + m + carry_in(f.status);
    let result = (sum % 256) as u8;
    let s1 = with_flag(f.status, StatusFlag::Carry, sum > 255);
    lemma_flag_set_get(f.status, StatusFlag::Carry, StatusFlag::Zero, sum > 255);
    let s2 = with_flag(s1, StatusFlag::Zero, result == 0);
    lemma_carry_kept(s1, StatusFlag::Zero, result == 0);
    let s3 = with_flag(s2, StatusFlag::Overflow, signed_overflow(f.acc, m, result));
    lemma_carry_kept(s2, StatusFlag::Overflow, signed_overflow(f.acc, m, result));
    lemma_carry_kept(s3, StatusFlag::Negative, is_negative(result));
}

/// Subtract with borrow computes the difference: with the carry in meaning "no
/// borrow", the new accumulator is acc - operand - borrow, modulo 256, and the
/// carry out is set exactly when no borrow was needed.
pub proof fn lemma_sbc_difference(s: CpuState)
    ensures
        ({
            let (f, m) = s.fetch();
            let t = s.sbc().0;
            let borrow = 1 - carry_in(f.status);
            &&& t.acc as int == (f.acc as int - m as int - borrow + 256) % 256
            &&& has_flag(t.status, StatusFlag::Carry) == (f.acc as int - m as int - borrow >= 0)
        }),
{
    let (f, m) = s.fetch();
    let value = (255 - m) as u8;
    let sum = f.acc + value + carry_in(f.status);
    let result = (sum % 256) as u8;
    let s1 = with_flag(f.status, StatusFlag::Carry, sum > 255);
    lemma_flag_set_get(f.status, StatusFlag::Carry, StatusFlag::Zero, sum > 255);
    let s2 = with_flag(s1, StatusFlag::Zero, result == 0);
    lemma_carry_kept(s1, StatusFlag::Zero, result == 0);
    let s3 = with_flag(s2, StatusFlag::Overflow, signed_overflow(f.acc, value, result));
    lemma_carry_kept(s2, StatusFlag::Overflow, signed_overflow(f.acc, value, result));
    lemma_carry_kept(s3, StatusFlag::Negative, is_negative(result));
}
} // verus!
