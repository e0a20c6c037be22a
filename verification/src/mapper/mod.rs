//! Mappers turn CPU and PPU bus addresses into offsets of the cartridge's memories.
pub mod mapper000;

use vstd::prelude::*;

verus! {

/// Maps bus addresses onto offsets of cartridge memory.
///
/// Each mapping is defined only for the addresses its `*_ok` predicate admits;
/// on the others the mapper has no defined behaviour.
pub trait Mapper {
    spec fn cpu_read_ok(&self, address: u16) -> bool;

    spec fn cpu_read_target(&self, address: u16) -> u32;

    spec fn cpu_write_ok(&self, address: u16) -> bool;

    spec fn cpu_write_target(&self, address: u16) -> u32;

    spec fn ppu_read_ok(&self, address: u16) -> bool;

    spec fn ppu_read_target(&self, address: u16) -> u32;

    spec fn ppu_write_ok(&self, address: u16) -> bool;

    spec fn ppu_write_target(&self, address: u16) -> u32;

    fn map_cpu_read(&self, address: u16) -> (r: u32)
        requires
            self.cpu_read_ok(address),
        ensures
            r == self.cpu_read_target(address),
    ;

    fn map_cpu_write(&mut self, address: u16) -> (r: u32)
        requires
            old(self).cpu_write_ok(address),
        ensures
            r == old(self).cpu_write_target(address),
    ;

    fn map_ppu_read(&self, address: u16) -> (r: u32)
        requires
            self.ppu_read_ok(address),
        ensures
            r == self.ppu_read_target(address),
    ;

    fn map_ppu_write(&mut self, address: u16) -> (r: u32)
        requires
            old(self).ppu_write_ok(address),
        ensures
            r == old(self).ppu_write_target(address),
    ;
}

} // verus!
