//! Mapper 000 (NROM): 16 KB or 32 KB of program ROM, 8 KB of pattern ROM, no RAM.
use vstd::prelude::*;
use super::Mapper;

use crate::bit_facts::lemma_word_bits;

verus! {

pub struct Mapper000 {
    /// Whether the program ROM holds two 16 KB banks (else one bank, mirrored).
    pub double_memory: bool,
}

impl Mapper000 {
    pub fn new(double_memory: bool) -> (r: Self)
        ensures
            r.double_memory == double_memory,
    {
        Self { double_memory }
    }

    /// The mask applied to CPU addresses: 32 KB or 16 KB.
    pub open spec fn prg_mask(&self) -> u16 {
        if self.double_memory {
            0x7FFF
        } else {
            0x3FFF
        }
    }
}

impl Default for Mapper000 {
    fn default() -> (r: Self)
        ensures
            r.double_memory == false,
    {
        Self { double_memory: false }
    }
}

impl Mapper for Mapper000 {
    /// Only the program ROM window $8000..=$FFFF is mapped.
    open spec fn cpu_read_ok(&self, address: u16) -> bool {
        address >= 0x8000
    }

    open spec fn cpu_read_target(&self, address: u16) -> u32 {
        ((address as int) % (self.prg_mask() as int + 1)) as u32
    }

    /// There is no program RAM: no CPU write is mapped.
    open spec fn cpu_write_ok(&self, address: u16) -> bool {
        false
    }

    open spec fn cpu_write_target(&self, address: u16) -> u32 {
        0
    }

    /// Only the pattern window $0000..$2000 is mapped, one to one.
    open spec fn ppu_read_ok(&self, address: u16) -> bool {
        address < 0x2000
    }

    open spec fn ppu_read_target(&self, address: u16) -> u32 {
        address as u32
    }

    /// There is no pattern RAM: no PPU write is mapped.
    open spec fn ppu_write_ok(&self, address: u16) -> bool {
        false
    }

    open spec fn ppu_write_target(&self, address: u16) -> u32 {
        0
    }

    fn map_cpu_read(&self, address: u16) -> (r: u32) {
        let mask: u16 = if self.double_memory { 0x7FFF } else { 0x3FFF };
        proof {
            lemma_word_bits(address);
        }
        (address & mask) as u32
    }

    fn map_cpu_write(&mut self, _address: u16) -> (r: u32) {
        // no caller can reach this: the contract admits no address
        0
    }

    fn map_ppu_read(&self, address: u16) -> (r: u32) {
        address as u32
    }

    fn map_ppu_write(&mut self, _address: u16) -> (r: u32) {
        // no caller can reach this: the contract admits no address
        0
    }
}

} // verus!
