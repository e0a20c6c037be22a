//! The iNES file format: a 16-byte header, an optional trainer, the program ROM,
//! the pattern (character) ROM and optional PlayChoice data.
use vstd::prelude::*;
use crate::bit_facts::lemma_byte_bits;
use crate::bit_operations::{BitManipulation, bit_of};
use crate::cpu::text::{decimal_padded, push_decimal};
use vstd::string::StringExecFns;

verus! {

pub const PRG_BANK_SIZE: usize = 16384;

pub const CHR_BANK_SIZE: usize = 8192;

pub const TRAINER_SIZE: usize = 512;

pub const PLAYCHOICE_INST_ROM_SIZE: usize = 8192;

pub const HEADER_SIZE: usize = 16;

#[derive(Clone, Copy, PartialEq, Eq, Structural)]
pub enum NametableArrangement {
    Vertical,
    Horizontal,
}

pub struct INesFileHeader {
    pub prg_rom_size: u8,
    pub chr_rom_size: u8,
    pub nametable_arrangement: NametableArrangement,
    pub contains_battery_ram: bool,
    pub trainer_present: bool,
    pub alternative_nametable_layout: bool,
    pub vs_unisystem: bool,
    pub playchoice_10: bool,
    pub nes20_format: bool,
    pub mapper_number: u8,
    pub flags8: u8,
    pub flags9: u8,
    pub flags10: u8,
    pub padding: [u8; 5],
}

pub struct INesFile {
    pub header: INesFileHeader,
    pub trainer: Option<[u8; 512]>,
    pub prg_rom_data: Vec<u8>,
    pub chr_rom_data: Vec<u8>,
    pub playchoice_inst_rom: Option<[u8; 8192]>,
    pub playchoice_prom: Option<[u8; 32]>,
}

pub enum FileDecodingError {
    /// The first four bytes are not `NES` followed by $1A; they are carried here.
    ImproperHEaderError([u8; 4]),
    /// The input ends before a section that the header announces.
    IO,
}

/// The 16 header bytes the decoder sees: the first 16 bytes of the input,
/// padded with zeros when the input is shorter.
pub open spec fn header_bytes(bytes: Seq<u8>) -> Seq<u8> {
    Seq::new(16, |i: int| if i < bytes.len() { bytes[i] } else { 0u8 })
}

/// Whether the four bytes are the iNES magic `NES\x1A`.
pub open spec fn is_ines_magic(b0: u8, b1: u8, b2: u8, b3: u8) -> bool {
    b0 == 0x4E && b1 == 0x45 && b2 == 0x53 && b3 == 0x1A
}

/// The mapper number: high nibble from flags 7, low nibble from flags 6.
pub open spec fn mapper_number_of(flags6: u8, flags7: u8) -> u8 {
    ((flags7 / 16) * 16 + flags6 / 16) as u8
}

impl INesFileHeader {
    /// What the header says, field by field, of the 16 bytes `h`.
    pub open spec fn decodes(&self, h: Seq<u8>) -> bool {
        &&& self.prg_rom_size == h[4]
        &&& self.chr_rom_size == h[5]
        &&& self.nametable_arrangement == (if bit_of(h[6] as nat, 0) == 1 {
            NametableArrangement::Vertical
        } else {
            NametableArrangement::Horizontal
        })
        &&& self.contains_battery_ram == (bit_of(h[6] as nat, 1) == 1)
        &&& self.trainer_present == (bit_of(h[6] as nat, 2) == 1)
        &&& self.alternative_nametable_layout == (bit_of(h[6] as nat, 3) == 1)
        &&& self.vs_unisystem == (bit_of(h[7] as nat, 0) == 1)
        &&& self.playchoice_10 == (bit_of(h[7] as nat, 1) == 1)
        &&& self.nes20_format == ((h[7] / 4) % 4 == 2)
        &&& self.mapper_number == mapper_number_of(h[6], h[7])
        &&& self.flags8 == h[8]
        &&& self.flags9 == h[9]
        &&& self.flags10 == h[10]
        &&& self.padding@ == h.subrange(11, 16)
    }

    /// Decodes the header from its 16 bytes.
    pub fn from_bytes(header_buffer: &[u8; 16]) -> (r: Result<INesFileHeader, FileDecodingError>)
        ensures
            is_ines_magic(header_buffer[0], header_buffer[1], header_buffer[2], header_buffer[3])
                ==> (r matches Ok(h) && h.decodes(header_buffer@)),
            !is_ines_magic(header_buffer[0], header_buffer[1], header_buffer[2], header_buffer[3])
                ==> (r matches Err(FileDecodingError::ImproperHEaderError(m)) && m@
                == header_buffer@.subrange(0, 4)),
    {
        let b0 = header_buffer[0];
        let b1 = header_buffer[1];
        let b2 = header_buffer[2];
        let b3 = header_buffer[3];
        if !(b0 == 0x4E && b1 == 0x45 && b2 == 0x53 && b3 == 0x1A) {
            let m = [b0, b1, b2, b3];
            assert(m@ =~= header_buffer@.subrange(0, 4));
            return Err(FileDecodingError::ImproperHEaderError(m));
        }
        let flags6 = header_buffer[6];
        let flags7 = header_buffer[7];
        let nametable_arrangement = if flags6.nth_flag(0) {
            NametableArrangement::Vertical
        } else {
            NametableArrangement::Horizontal
        };
        let contains_battery_ram = flags6.nth_flag(1);
        let trainer_present = flags6.nth_flag(2);
        let alternative_nametable_layout = flags6.nth_flag(3);
        let mapper_lower_nibble = flags6 >> 4;
        let vs_unisystem = flags7.nth_flag(0);
        let playchoice_10 = flags7.nth_flag(1);
        let nes20_format = (flags7 & 0x0C) >> 2 == 2;
        let mapper_upper_nibble = flags7 & 0xF0;
        let mapper_number = mapper_upper_nibble | mapper_lower_nibble;
        proof {
            lemma_byte_bits(flags7);
            assert((flags7 & 0xF0u8) | (flags6 >> 4u8) == (flags7 / 16) * 16 + flags6 / 16)
                by (bit_vector);
        }
        let padding = [
            header_buffer[11],
            header_buffer[12],
            header_buffer[13],
            header_buffer[14],
            header_buffer[15],
        ];
        assert(padding@ =~= header_buffer@.subrange(11, 16));
        Ok(INesFileHeader {
            prg_rom_size: header_buffer[4],
            chr_rom_size: header_buffer[5],
            nametable_arrangement,
            contains_battery_ram,
            trainer_present,
            alternative_nametable_layout,
            vs_unisystem,
            playchoice_10,
            nes20_format,
            mapper_number,
            flags8: header_buffer[8],
            flags9: header_buffer[9],
            flags10: header_buffer[10],
            padding,
        })
    }
}

/// The layout of an iNES file whose header is `h`: where each section starts
/// and how long it is, counted from the end of the header at `start`.
pub open spec fn trainer_len(h: INesFileHeader) -> nat {
    if h.trainer_present {
        512
    } else {
        0
    }
}

pub open spec fn prg_len(h: INesFileHeader) -> nat {
    h.prg_rom_size as nat * 16384
}

pub open spec fn chr_len(h: INesFileHeader) -> nat {
    h.chr_rom_size as nat * 8192
}

pub open spec fn playchoice_len(h: INesFileHeader) -> nat {
    if h.playchoice_10 {
        8192
    } else {
        0
    }
}

/// Where the header ends: after 16 bytes, or at the end of a shorter input.
pub open spec fn header_end(len: nat) -> nat {
    if len < 16 {
        len
    } else {
        16
    }
}

/// Whether the input holds every section that the header announces.
pub open spec fn sections_fit(h: INesFileHeader, len: nat) -> bool {
    header_end(len) + trainer_len(h) + prg_len(h) + chr_len(h) + playchoice_len(h) <= len
}

/// Copies `len` bytes of `bytes` from `start` into a new vector.
fn copy_section(bytes: &[u8], start: usize, len: usize) -> (r: Vec<u8>)
    requires
        start + len <= bytes.len(),
    ensures
        r@ == bytes@.subrange(start as int, start + len),
{
    let mut r: Vec<u8> = Vec::new();
    let mut i: usize = 0;
    while i < len
        invariant
            start + len <= bytes.len(),
            i <= len,
            r@ == bytes@.subrange(start as int, start + i),
        decreases len - i,
    {
        r.push(bytes[start + i]);
        i = i + 1;
        assert(r@ =~= bytes@.subrange(start as int, start + i));
    }
    r
}

impl INesFile {
    /// Whether the file is what decoding `bytes` gives.
    pub open spec fn decodes(&self, bytes: Seq<u8>) -> bool {
        let h = self.header;
        let t = header_end(bytes.len());
        let p = t + trainer_len(h);
        let c = p + prg_len(h);
        let q = c + chr_len(h);
        &&& h.decodes(header_bytes(bytes))
        &&& (h.trainer_present ==> (self.trainer matches Some(tr) && tr@ == bytes.subrange(
            t as int,
            p as int,
        )))
        &&& (!h.trainer_present ==> self.trainer is None)
        &&& self.prg_rom_data@ == bytes.subrange(p as int, c as int)
        &&& self.chr_rom_data@ == bytes.subrange(c as int, q as int)
        &&& (h.playchoice_10 ==> (self.playchoice_inst_rom matches Some(pc) && pc@
            == bytes.subrange(q as int, q + 8192int)))
        &&& (!h.playchoice_10 ==> self.playchoice_inst_rom is None)
        &&& self.playchoice_prom is None
    }

    /// Decodes a whole iNES file held in memory.
    ///
    /// Fails with `ImproperHEaderError` when the magic bytes are wrong, and with
    /// `IO` when the input is shorter than the sections its header announces.
    pub fn from_bytes(bytes: &[u8]) -> (r: Result<INesFile, FileDecodingError>)
        ensures
            !is_ines_magic(
                header_bytes(bytes@)[0],
                header_bytes(bytes@)[1],
                header_bytes(bytes@)[2],
                header_bytes(bytes@)[3],
            ) ==> (r matches Err(FileDecodingError::ImproperHEaderError(m)) && m@ == header_bytes(
                bytes@,
            ).subrange(0, 4)),
            is_ines_magic(
                header_bytes(bytes@)[0],
                header_bytes(bytes@)[1],
                header_bytes(bytes@)[2],
                header_bytes(bytes@)[3],
            ) ==> match r {
                Ok(f) => f.decodes(bytes@) && sections_fit(f.header, bytes.len() as nat),
                Err(FileDecodingError::IO) => exists|h: INesFileHeader|
                    h.decodes(header_bytes(bytes@)) && !sections_fit(h, bytes.len() as nat),
                Err(_) => false,
            },
    {
        let mut header_buffer = [0u8; 16];
        let mut i: usize = 0;
        while i < 16 && i < bytes.len()
            invariant
                i <= 16,
                i <= bytes.len(),
                forall|k: int| 0 <= k < i ==> header_buffer[k] == bytes@[k],
                forall|k: int| i <= k < 16 ==> header_buffer[k] == 0,
            decreases 16 - i,
        {
            header_buffer[i] = bytes[i];
            i = i + 1;
        }
        assert(header_buffer@ =~= header_bytes(bytes@));
        let header = match INesFileHeader::from_bytes(&header_buffer) {
            Ok(h) => h,
            Err(e) => {
                return Err(e);
            },
        };
        let len = bytes.len();
        let mut cursor: usize = i;
        assert(cursor == header_end(len as nat));
        let trainer = if header.trainer_present {
            if len - cursor < 512 {
                assert(!sections_fit(header, len as nat));
                return Err(FileDecodingError::IO);
            }
            let mut t = [0u8; 512];
            let mut k: usize = 0;
            while k < 512
                invariant
                    cursor + 512 <= bytes.len(),
                    k <= 512,
                    forall|j: int| 0 <= j < k ==> t[j] == bytes@[cursor + j],
                decreases 512 - k,
            {
                t[k] = bytes[cursor + k];
                k = k + 1;
            }
            assert(t@ =~= bytes@.subrange(cursor as int, cursor + 512));
            cursor = cursor + 512;
            Some(t)
        } else {
            None
        };
        let prg_size = header.prg_rom_size as usize * PRG_BANK_SIZE;
        if len - cursor < prg_size {
            assert(!sections_fit(header, len as nat));
            return Err(FileDecodingError::IO);
        }
        let prg_rom_data = copy_section(bytes, cursor, prg_size);
        cursor = cursor + prg_size;
        let chr_size = header.chr_rom_size as usize * CHR_BANK_SIZE;
        if len - cursor < chr_size {
            assert(!sections_fit(header, len as nat));
            return Err(FileDecodingError::IO);
        }
        let chr_rom_data = copy_section(bytes, cursor, chr_size);
        cursor = cursor + chr_size;
        let playchoice = if header.playchoice_10 {
            if len - cursor < 8192 {
                assert(!sections_fit(header, len as nat));
                return Err(FileDecodingError::IO);
            }
            let mut pc = [0u8; 8192];
            let mut k: usize = 0;
            while k < 8192
                invariant
                    cursor + 8192 <= bytes.len(),
                    k <= 8192,
                    forall|j: int| 0 <= j < k ==> pc[j] == bytes@[cursor + j],
                decreases 8192 - k,
            {
                pc[k] = bytes[cursor + k];
                k = k + 1;
            }
            assert(pc@ =~= bytes@.subrange(cursor as int, cursor + 8192));
            Some(pc)
        } else {
            None
        };
        Ok(
            INesFile {
                header,
                trainer,
                prg_rom_data,
                chr_rom_data,
                playchoice_inst_rom: playchoice,
                playchoice_prom: None,
            },
        )
    }
}


/// `true` or `false`.
pub open spec fn bool_text(b: bool) -> Seq<char> {
    if b {
        "true"@
    } else {
        "false"@
    }
}

/// A number in decimal, as few digits as it takes.
pub open spec fn number_text(v: nat) -> Seq<char> {
    decimal_padded(v, 0)
}

pub open spec fn arrangement_text(a: NametableArrangement) -> Seq<char> {
    match a {
        NametableArrangement::Vertical => "Vertical"@,
        NametableArrangement::Horizontal => "Horizontal"@,
    }
}

/// The header written out field by field, in the usual debug notation.
pub open spec fn header_text(h: INesFileHeader) -> Seq<char> {
    "INesFileHeader { prg_rom_size: "@ + number_text(h.prg_rom_size as nat) + ", chr_rom_size: "@
        + number_text(h.chr_rom_size as nat) + ", nametable_arrangement: "@ + arrangement_text(
        h.nametable_arrangement,
    ) + ", contains_battery_ram: "@ + bool_text(h.contains_battery_ram) + ", trainer_present: "@
        + bool_text(h.trainer_present) + ", alternative_nametable_layout: "@ + bool_text(
        h.alternative_nametable_layout,
    ) + ", vs_unisystem: "@ + bool_text(h.vs_unisystem) + ", playchoice_10: "@ + bool_text(
        h.playchoice_10,
    ) + ", nes20_format: "@ + bool_text(h.nes20_format) + ", mapper_number: "@ + number_text(
        h.mapper_number as nat,
    ) + ", flags8: "@ + number_text(h.flags8 as nat) + ", flags9: "@ + number_text(
        h.flags9 as nat,
    ) + ", flags10: "@ + number_text(h.flags10 as nat) + ", padding: ["@ + number_text(
        h.padding[0] as nat,
    ) + ", "@ + number_text(h.padding[1] as nat) + ", "@ + number_text(h.padding[2] as nat)
        + ", "@ + number_text(h.padding[3] as nat) + ", "@ + number_text(h.padding[4] as nat)
        + "] }"@
}

/// The header, whether a trainer is present, and the sizes of the two ROMs in bytes and
/// in whole kilobytes.
pub open spec fn file_text(f: INesFile) -> Seq<char> {
    header_text(f.header) + "Trainer: "@ + bool_text(f.header.trainer_present) + "\n"@
        + "PRG ROM: "@ + number_text(f.prg_rom_data@.len()) + " bytes, "@ + number_text(
        f.prg_rom_data@.len() / 1024,
    ) + " KB\n"@ + "CHR ROM: "@ + number_text(f.chr_rom_data@.len()) + " bytes, "@
        + number_text(f.chr_rom_data@.len() / 1024) + " KB\n"@
}

fn push_bool(s: &mut String, b: bool)
    ensures
        final(s)@ == old(s)@ + bool_text(b),
{
    if b {
        s.append("true");
    } else {
        s.append("false");
    }
}

impl INesFileHeader {
    /// The header written out field by field, in the usual debug notation.
    pub fn to_string(&self) -> (r: String)
        ensures
            r@ == header_text(*self),
    {
        let mut s = String::from_str("INesFileHeader { prg_rom_size: ");
        push_decimal(&mut s, self.prg_rom_size as u64, 0);
        s.append(", chr_rom_size: ");
        push_decimal(&mut s, self.chr_rom_size as u64, 0);
        s.append(", nametable_arrangement: ");
        match self.nametable_arrangement {
            NametableArrangement::Vertical => s.append("Vertical"),
            NametableArrangement::Horizontal => s.append("Horizontal"),
        }
        s.append(", contains_battery_ram: ");
        push_bool(&mut s, self.contains_battery_ram);
        s.append(", trainer_present: ");
        push_bool(&mut s, self.trainer_present);
        s.append(", alternative_nametable_layout: ");
        push_bool(&mut s, self.alternative_nametable_layout);
        s.append(", vs_unisystem: ");
        push_bool(&mut s, self.vs_unisystem);
        s.append(", playchoice_10: ");
        push_bool(&mut s, self.playchoice_10);
        s.append(", nes20_format: ");
        push_bool(&mut s, self.nes20_format);
        s.append(", mapper_number: ");
        push_decimal(&mut s, self.mapper_number as u64, 0);
        s.append(", flags8: ");
        push_decimal(&mut s, self.flags8 as u64, 0);
        s.append(", flags9: ");
        push_decimal(&mut s, self.flags9 as u64, 0);
        s.append(", flags10: ");
        push_decimal(&mut s, self.flags10 as u64, 0);
        s.append(", padding: [");
        push_decimal(&mut s, self.padding[0] as u64, 0);
        s.append(", ");
        push_decimal(&mut s, self.padding[1] as u64, 0);
        s.append(", ");
        push_decimal(&mut s, self.padding[2] as u64, 0);
        s.append(", ");
        push_decimal(&mut s, self.padding[3] as u64, 0);
        s.append(", ");
        push_decimal(&mut s, self.padding[4] as u64, 0);
        s.append("] }");
        proof {
            assert(s@ =~= header_text(*self));
        }
        s
    }
}

impl INesFile {
    /// The header, whether a trainer is present, and the sizes of the two ROMs.
    pub fn to_string(&self) -> (r: String)
        ensures
            r@ == file_text(*self),
    {
        let mut s = self.header.to_string();
        s.append("Trainer: ");
        push_bool(&mut s, self.header.trainer_present);
        s.append("\n");
        s.append("PRG ROM: ");
        push_decimal(&mut s, self.prg_rom_data.len() as u64, 0);
        s.append(" bytes, ");
        push_decimal(&mut s, (self.prg_rom_data.len() / 1024) as u64, 0);
        s.append(" KB\n");
        s.append("CHR ROM: ");
        push_decimal(&mut s, self.chr_rom_data.len() as u64, 0);
        s.append(" bytes, ");
        push_decimal(&mut s, (self.chr_rom_data.len() / 1024) as u64, 0);
        s.append(" KB\n");
        proof {
            assert(s@ =~= file_text(*self));
        }
        s
    }
}

} // verus!
