//! The cartridge: program ROM on the CPU bus, pattern ROM on the PPU bus, and a mapper.
use vstd::prelude::*;
use crate::mapper::Mapper;
use crate::ppu::debug_view::pattern_table_readable;
use crate::rendering::PatternTable;
use crate::mapper::mapper000::Mapper000;
use crate::file_loading::{INesFile, INesFileHeader, NametableArrangement, PRG_BANK_SIZE, CHR_BANK_SIZE};

verus! {

#[derive(Clone, Copy, PartialEq, Eq, Structural)]
pub enum Mirroring {
    Horizontal,
    Vertical,
}

impl Default for Mirroring {
    fn default() -> (r: Self)
        ensures
            r == Mirroring::Horizontal,
    {
        Mirroring::Horizontal
    }
}

/// The mirroring that a nametable arrangement of the iNES header stands for.
pub open spec fn mirroring_of(value: NametableArrangement) -> Mirroring {
    match value {
        NametableArrangement::Horizontal => Mirroring::Horizontal,
        NametableArrangement::Vertical => Mirroring::Vertical,
    }
}

/// The mirroring follows the header's nametable arrangement one to one: a vertical
/// arrangement gives vertical mirroring and a horizontal one horizontal mirroring, so two
/// arrangements with the same mirroring are the same. Through the header, flags 6 with
/// bit 0 set gives vertical mirroring and with bit 0 clear horizontal mirroring.
pub proof fn lemma_mirroring_follows_arrangement(
    a: NametableArrangement,
    b: NametableArrangement,
    header: INesFileHeader,
    h: Seq<u8>,
)
    ensures
        (mirroring_of(a) == Mirroring::Vertical) == (a == NametableArrangement::Vertical),
        (mirroring_of(a) == Mirroring::Horizontal) == (a == NametableArrangement::Horizontal),
        mirroring_of(a) == mirroring_of(b) ==> a == b,
        header.decodes(h) ==> ((mirroring_of(header.nametable_arrangement) == Mirroring::Vertical)
            == (h[6] % 2 == 1)),
{
    vstd::arithmetic::power2::lemma2_to64();
}

impl Mirroring {
    pub fn from(value: &NametableArrangement) -> (r: Mirroring)
        ensures
            r == mirroring_of(*value),
    {
        match value {
            NametableArrangement::Horizontal => Mirroring::Horizontal,
            NametableArrangement::Vertical => Mirroring::Vertical,
        }
    }
}

pub struct Cartridge {
    pub prg_memory: Vec<u8>,
    pub chr_memory: Vec<u8>,
    pub mirroring: Mirroring,
    pub mapper: Mapper000,
}

/// Only mapper 000 is implemented; this error carries the number of any other.
pub struct UnimplementedMapperError(pub u8);

impl UnimplementedMapperError {
    pub fn mapper_number(&self) -> (r: u8)
        ensures
            r == self.0,
    {
        self.0
    }
}

/// The program that `Cartridge::example` holds at the start of its program ROM.
pub open spec fn example_program() -> Seq<u8> {
    seq![
        0xA2u8, 0x00, 0xBD, 0x00, 0x02, 0x9D, 0x00, 0x03,
        0xE8, 0xBD, 0x00, 0x02, 0x9D, 0x00, 0x03, 0xE8,
        0xBD, 0x00, 0x02, 0x9D, 0x00, 0x03, 0xE8, 0xBD,
        0x00, 0x02, 0x9D, 0x00, 0x03, 0xE8, 0xBD, 0x00,
        0x02, 0x9D, 0x00, 0x03, 0xE8, 0xBD, 0x00, 0x02,
        0x9D, 0x00, 0x03, 0xE8, 0x00,
    ]
}

/// `n` zero bytes.
pub open spec fn zeros(n: nat) -> Seq<u8> {
    Seq::new(n, |i: int| 0u8)
}

/// A vector of `n` zero bytes.
pub fn zeroed(n: usize) -> (r: Vec<u8>)
    ensures
        r@ == zeros(n as nat),
{
    let mut r: Vec<u8> = Vec::new();
    let mut i: usize = 0;
    while i < n
        invariant
            i <= n,
            r@ == zeros(i as nat),
        decreases n - i,
    {
        r.push(0);
        i = i + 1;
        assert(r@ =~= zeros(i as nat));
    }
    r
}

/// The contents of a cartridge, as the specifications see them.
#[verifier::ext_equal]
pub struct CartridgeState {
    pub prg_memory: Seq<u8>,
    pub chr_memory: Seq<u8>,
    pub mirroring: Mirroring,
    pub mapper: Mapper000,
}

impl CartridgeState {
    /// Whether a CPU read of `address` is defined: the mapper maps it, and into the program ROM.
    pub open spec fn cpu_read_ok(self, address: u16) -> bool {
        &&& self.mapper.cpu_read_ok(address)
        &&& (self.mapper.cpu_read_target(address) as int) < self.prg_memory.len()
    }

    pub open spec fn cpu_read_value(self, address: u16) -> u8 {
        self.prg_memory[self.mapper.cpu_read_target(address) as int]
    }

    /// Whether a PPU read of `address` is defined: the mapper maps it, and into the pattern ROM.
    pub open spec fn ppu_read_ok(self, address: u16) -> bool {
        &&& self.mapper.ppu_read_ok(address)
        &&& (self.mapper.ppu_read_target(address) as int) < self.chr_memory.len()
    }

    pub open spec fn ppu_read_value(self, address: u16) -> u8 {
        self.chr_memory[self.mapper.ppu_read_target(address) as int]
    }

    pub open spec fn cpu_write_ok(self, address: u16) -> bool {
        &&& self.mapper.cpu_write_ok(address)
        &&& (self.mapper.cpu_write_target(address) as int) < self.prg_memory.len()
    }

    pub open spec fn cpu_written(self, address: u16, data: u8) -> CartridgeState {
        CartridgeState {
            prg_memory: self.prg_memory.update(self.mapper.cpu_write_target(address) as int, data),
            ..self
        }
    }

    pub open spec fn ppu_write_ok(self, address: u16) -> bool {
        &&& self.mapper.ppu_write_ok(address)
        &&& (self.mapper.ppu_write_target(address) as int) < self.chr_memory.len()
    }

    pub open spec fn ppu_written(self, address: u16, data: u8) -> CartridgeState {
        CartridgeState {
            chr_memory: self.chr_memory.update(self.mapper.ppu_write_target(address) as int, data),
            ..self
        }
    }
}

impl View for Cartridge {
    type V = CartridgeState;

    open spec fn view(&self) -> CartridgeState {
        CartridgeState {
            prg_memory: self.prg_memory@,
            chr_memory: self.chr_memory@,
            mirroring: self.mirroring,
            mapper: self.mapper,
        }
    }
}

impl Cartridge {
    pub fn cpu_read(&self, address: u16) -> (r: u8)
        requires
            self@.cpu_read_ok(address),
        ensures
            r == self@.cpu_read_value(address),
    {
        self.prg_memory[self.mapper.map_cpu_read(address) as usize]
    }

    pub fn cpu_write(&mut self, address: u16, data: u8)
        requires
            old(self)@.cpu_write_ok(address),
        ensures
            final(self)@ == old(self)@.cpu_written(address, data),
    {
        let target = self.mapper.map_cpu_write(address) as usize;
        self.prg_memory.set(target, data);
    }

    /// Whether every byte of pattern table `side` lies in the pattern memory, so that
    /// the table can be read whole.
    pub fn pattern_table_in_memory(&self, side: PatternTable) -> (r: bool)
        ensures
            r == pattern_table_readable(self@, side.spec_index() as int),
    {
        let end: usize = (side.index() as usize) * 0x1000 + 0x1000;
        let r = end <= self.chr_memory.len();
        proof {
            if !r {
                let a = (end - 1) as u16;
                assert(!self@.ppu_read_ok(a));
            }
        }
        r
    }

    pub fn ppu_read(&self, address: u16) -> (r: u8)
        requires
            self@.ppu_read_ok(address),
        ensures
            r == self@.ppu_read_value(address),
    {
        self.chr_memory[self.mapper.map_ppu_read(address) as usize]
    }

    pub fn ppu_write(&mut self, address: u16, data: u8)
        requires
            old(self)@.ppu_write_ok(address),
        ensures
            final(self)@ == old(self)@.ppu_written(address, data),
    {
        let target = self.mapper.map_ppu_write(address) as usize;
        self.chr_memory.set(target, data);
    }

    pub fn prg_memory(&self) -> (r: &Vec<u8>)
        ensures
            r@ == self.prg_memory@,
    {
        &self.prg_memory
    }

    pub fn chr_memory(&self) -> (r: &Vec<u8>)
        ensures
            r@ == self.chr_memory@,
    {
        &self.chr_memory
    }

    pub fn mirroring(&self) -> (r: Mirroring)
        ensures
            r == self.mirroring,
    {
        self.mirroring
    }

    pub fn mapper(&self) -> (r: &Mapper000)
        ensures
            *r == self.mapper,
    {
        &self.mapper
    }

    /// A small demonstration program in one 16 KB bank, and 8 KB of empty pattern ROM.
    pub fn example() -> (r: Self)
        ensures
            r.prg_memory@ == example_program() + zeros((16384 - example_program().len()) as nat),
            r.chr_memory@ == zeros(8192),
            r.mirroring == Mirroring::Horizontal,
            r.mapper.double_memory == false,
    {
        let mut data: Vec<u8> = vec![
            0xA2, 0x00, 0xBD, 0x00, 0x02, 0x9D, 0x00, 0x03,
            0xE8, 0xBD, 0x00, 0x02, 0x9D, 0x00, 0x03, 0xE8,
            0xBD, 0x00, 0x02, 0x9D, 0x00, 0x03, 0xE8, 0xBD,
            0x00, 0x02, 0x9D, 0x00, 0x03, 0xE8, 0xBD, 0x00,
            0x02, 0x9D, 0x00, 0x03, 0xE8, 0xBD, 0x00, 0x02,
            0x9D, 0x00, 0x03, 0xE8, 0x00,
        ];
        assert(data@ =~= example_program());
        let mut rest = zeroed(16384 - data.len());
        data.append(&mut rest);
        Cartridge {
            prg_memory: data,
            chr_memory: zeroed(8192),
            mirroring: Mirroring::Horizontal,
            mapper: Mapper000::new(false),
        }
    }

    /// The cartridge that an iNES file describes, when its mapper is implemented.
    pub fn try_from(file: &INesFile) -> (r: Result<Cartridge, UnimplementedMapperError>)
        ensures
            file.header.mapper_number == 0 ==> (r matches Ok(c) && c.prg_memory@
                == file.prg_rom_data@ && c.chr_memory@ == file.chr_rom_data@ && c.mirroring
                == mirroring_of(file.header.nametable_arrangement) && c.mapper.double_memory == (
            file.prg_rom_data@.len() > 16384)),
            file.header.mapper_number != 0 ==> (r matches Err(e) && e.0
                == file.header.mapper_number),
    {
        let prg_memory = file.prg_rom_data.clone();
        let chr_memory = file.chr_rom_data.clone();
        let mirroring = Mirroring::from(&file.header.nametable_arrangement);
        let mapper = match file.header.mapper_number {
            0 => Mapper000::new(file.prg_rom_data.len() > PRG_BANK_SIZE),
            n => {
                return Err(UnimplementedMapperError(n));
            },
        };
        Ok(Cartridge { prg_memory, chr_memory, mirroring, mapper })
    }
}

impl Default for Cartridge {
    fn default() -> (r: Self)
        ensures
            r.prg_memory@ == zeros(16384),
            r.chr_memory@ == zeros(8192),
            r.mirroring == Mirroring::Horizontal,
            r.mapper.double_memory == false,
    {
        Cartridge {
            prg_memory: zeroed(PRG_BANK_SIZE),
            chr_memory: zeroed(CHR_BANK_SIZE),
            mirroring: Mirroring::Horizontal,
            mapper: Mapper000::default(),
        }
    }
}

} // verus!
