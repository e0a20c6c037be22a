use nes_backend::bit_operations::{glue_u8s, get_high_byte, get_low_byte, split_u16, BitManipulation};
use nes_backend::bus::Bus;
use nes_backend::cartridge::{Cartridge, Mirroring};
use nes_backend::file_loading::{FileDecodingError, INesFile, INesFileHeader, NametableArrangement};
use nes_backend::frontend::{DebugState, FixedSizeQueue, ShowSettings};
use nes_backend::mapper::mapper000::Mapper000;
use nes_backend::mapper::Mapper;
use nes_backend::rendering::{pal_color, render, BasicPixelBuffer, Dimensions, MiniFBScreenBuffer, PatternTable, Pixel};
use nes_backend::cpu::disassembler::Argument;
use nes_backend::cpu::instructions::{lookup_instruction, InstructionType};
use nes_backend::cpu::addressing::AddressingMode;

#[test]
fn bytes_glue_and_split() {
    assert_eq!(glue_u8s(0x12, 0x34), 0x1234);
    assert_eq!(split_u16(0xABCD), (0xAB, 0xCD));
    assert_eq!(get_high_byte(0x0100), 0x01);
    assert_eq!(get_low_byte(0x01FF), 0xFF);
}

#[test]
fn single_bits_and_masks() {
    assert_eq!(0b1010_0000u8.nth_bit(7), 1);
    assert_eq!(0b1010_0000u8.nth_bit(6), 0);
    assert!(0b1010_0000u8.nth_flag(5));
    assert_eq!(0x8000u16.nth_bit(15), 1);
    // (0xF0 >> 4) & (0xFF << 3) = 0x0F & 0xF8 = 0x08
    assert_eq!(0xF0u8.mask(6, 4), 0x08);
    // (0xFFFF >> 0) & (0xFF << 4) = 0x0FF0
    assert_eq!(0xFFFFu16.mask(3, 0), 0x0FF0);
}

fn ines(flags6: u8, flags7: u8, prg_banks: u8, chr_banks: u8, extra: usize) -> Vec<u8> {
    let mut bytes = vec![b'N', b'E', b'S', 0x1A, prg_banks, chr_banks, flags6, flags7, 1, 2, 3, 9, 9, 9, 9, 9];
    let trainer = if flags6 & 0x04 != 0 { 512 } else { 0 };
    let body = trainer + prg_banks as usize * 16384 + chr_banks as usize * 8192;
    for i in 0..body + extra {
        bytes.push((i % 251) as u8);
    }
    bytes
}

#[test]
fn header_fields() {
    let mut raw = [0u8; 16];
    raw[..4].copy_from_slice(&[b'N', b'E', b'S', 0x1A]);
    raw[4] = 2;
    raw[5] = 1;
    raw[6] = 0b0001_0011;
    raw[7] = 0b0010_1010;
    let h = INesFileHeader::from_bytes(&raw).ok().unwrap();
    assert_eq!(h.prg_rom_size, 2);
    assert_eq!(h.chr_rom_size, 1);
    assert!(h.nametable_arrangement == NametableArrangement::Vertical);
    assert!(h.contains_battery_ram);
    assert!(!h.trainer_present);
    assert!(h.playchoice_10);
    assert!(h.nes20_format);
    assert_eq!(h.mapper_number, 0x21);
}

#[test]
fn bad_magic_is_reported() {
    let bytes = vec![b'N', b'E', b'Z', 0x1A, 0, 0];
    match INesFile::from_bytes(&bytes) {
        Err(FileDecodingError::ImproperHEaderError(m)) => assert_eq!(m, [b'N', b'E', b'Z', 0x1A]),
        _ => panic!("expected a header error"),
    }
}

#[test]
fn truncated_file_is_an_io_error() {
    let mut bytes = ines(0, 0, 1, 1, 0);
    bytes.truncate(100);
    assert!(matches!(INesFile::from_bytes(&bytes), Err(FileDecodingError::IO)));
}

#[test]
fn file_sections_and_cartridge() {
    let bytes = ines(0b0000_0100, 0, 2, 1, 0);
    let file = INesFile::from_bytes(&bytes).ok().unwrap();
    assert_eq!(file.trainer.unwrap()[0], 0);
    assert_eq!(file.prg_rom_data.len(), 32768);
    assert_eq!(file.prg_rom_data[0], (512 % 251) as u8);
    assert_eq!(file.chr_rom_data.len(), 8192);
    let cart = Cartridge::try_from(&file).ok().unwrap();
    assert!(cart.mapper.double_memory);
    assert!(cart.mirroring == Mirroring::Horizontal);
    assert_eq!(cart.cpu_read(0x8000), file.prg_rom_data[0]);
    assert_eq!(cart.cpu_read(0xC000), file.prg_rom_data[0x4000]);
}

#[test]
fn unimplemented_mapper_is_refused() {
    let bytes = ines(0x10, 0x00, 1, 1, 0);
    let file = INesFile::from_bytes(&bytes).ok().unwrap();
    match Cartridge::try_from(&file) {
        Err(e) => assert_eq!(e.mapper_number(), 1),
        Ok(_) => panic!("mapper 1 is not implemented"),
    }
}

#[test]
fn mapper000_mirrors_a_single_bank() {
    let m = Mapper000::new(false);
    assert_eq!(m.map_cpu_read(0x8001), 0x0001);
    assert_eq!(m.map_cpu_read(0xC001), 0x0001);
    let d = Mapper000::new(true);
    assert_eq!(d.map_cpu_read(0xC001), 0x4001);
    assert_eq!(m.map_ppu_read(0x1FFF), 0x1FFF);
}

#[test]
fn disassembles_the_example_program() {
    let cart = Cartridge::example();
    let listing = cart.disassemble();
    let first = listing[0];
    assert_eq!(first.address(), 0);
    assert!(first.name() == InstructionType::LDX);
    assert!(first.mode() == AddressingMode::IMM);
    assert!(first.argument() == Some(Argument::Small(0x00)));
    let second = listing[1];
    assert_eq!(second.address(), 2);
    assert!(second.name() == InstructionType::LDA);
    assert!(second.argument() == Some(Argument::Big(0x0200)));
    assert_eq!(listing[2].address(), 5);
    assert_eq!(listing[3].address(), 8);
    assert!(listing[3].argument().is_none());
}

#[test]
fn opcode_table_entries() {
    let adc = lookup_instruction(0x69);
    assert!(adc.type_() == InstructionType::ADC);
    assert!(adc.mode() == AddressingMode::IMM);
    assert_eq!(adc.cycles(), 2);
    assert!(lookup_instruction(0x02).type_() == InstructionType::INVALID);
}

#[test]
fn queue_keeps_newest_first_and_drops_oldest() {
    let mut q: FixedSizeQueue<u32, 2> = FixedSizeQueue::default();
    assert_eq!(q.push(1), None);
    assert_eq!(q.push(2), None);
    assert_eq!(q.push(3), Some(1));
    assert_eq!(q.0.iter().copied().collect::<Vec<_>>(), vec![3, 2]);
    assert_eq!(q.push_without_duplicates(2), None);
    assert_eq!(q.0.iter().copied().collect::<Vec<_>>(), vec![2, 3]);
}

#[test]
fn settings_defaults() {
    let d = DebugState::default();
    assert_eq!(d.program_state_offset, 5);
    assert!(d.run_speed.is_none());
    let s = ShowSettings::default();
    assert!(s.pattern_memory && s.cpu_state && s.program_counter && s.ram);
}

#[test]
fn pixel_buffers() {
    let mut b = BasicPixelBuffer::new(4, 3);
    b.set_pixel(1, 2, 7);
    assert_eq!(b.get(9), 7);
    assert_eq!(b.get_pixel(1, 2), 7);
    assert_eq!(b.index_to_coor(9), (0, 3));
    assert_eq!(b.into_slice().len(), 12);
    let mut m = MiniFBScreenBuffer::new();
    m.set_pixel_pattern_table(PatternTable::Right, 1, 1, 5);
    assert_eq!(m.pattern_screen[1 + 128 + 256], 5);
    assert_eq!(Dimensions::new(256, 240).num_of_pixels(), 61440);
}

#[test]
fn palette_colours() {
    assert_eq!(pal_color(0x00), [84, 84, 84]);
    assert_eq!(pal_color(0x21), [76, 154, 236]);
    assert_eq!(Pixel::from_rgb(1, 2, 3), 0x010203);
    let pixels = render(&[0x00, 0x01]);
    assert_eq!(pixels.len(), 61440);
    assert_eq!(pixels[1].bits, Pixel::from_rgb(0, 30, 116));
    assert_eq!(pixels[2].bits, 0);
}

#[test]
fn bus_ram_and_ppu_registers() {
    let mut bus = Bus::new(Cartridge::default());
    bus.cpu_write(0x0123, 0x77);
    assert_eq!(bus.cpu_read(0x0123, false), 0x77);
    bus.cpu_write(0x2006, 0x23);
    bus.cpu_write(0x2006, 0x00);
    bus.cpu_write(0x2007, 0x99);
    assert_eq!(bus.ppu_read(0x2300), 0x99);
    bus.cpu_write(0x2006, 0x23);
    bus.cpu_write(0x2006, 0x00);
    assert_eq!(bus.cpu_read(0x2007, false), 0x00);
    assert_eq!(bus.cpu_read(0x2007, false), 0x99);
}

#[test]
fn file_description() {
    let bytes = ines(0x01, 0x00, 2, 1, 0);
    let file = INesFile::from_bytes(&bytes).ok().unwrap();
    let header = "INesFileHeader { prg_rom_size: 2, chr_rom_size: 1, nametable_arrangement: Vertical, \
        contains_battery_ram: false, trainer_present: false, alternative_nametable_layout: false, \
        vs_unisystem: false, playchoice_10: false, nes20_format: false, mapper_number: 0, flags8: 1, \
        flags9: 2, flags10: 3, padding: [9, 9, 9, 9, 9] }";
    assert_eq!(file.header.to_string(), header);
    assert_eq!(
        file.to_string(),
        format!("{}Trainer: false\nPRG ROM: 32768 bytes, 32 KB\nCHR ROM: 8192 bytes, 8 KB\n", header)
    );
}

#[test]
fn bus_ram_is_mirrored() {
    let mut bus = Bus::new(Cartridge::default());
    bus.cpu_write(0x0923, 0x55);
    assert_eq!(bus.cpu_read(0x0123, false), 0x55);
    assert_eq!(bus.cpu_read(0x1923, true), 0x55);
    assert_eq!(bus.cpu_read(0x0124, false), 0x00);
}

#[test]
fn second_push_of_the_same_rom_changes_nothing() {
    let mut queue: FixedSizeQueue<u8, 3> = FixedSizeQueue::default();
    queue.push(1);
    queue.push(2);
    queue.push(3);
    assert_eq!(queue.push_without_duplicates(2), None);
    let after_first: Vec<u8> = queue.0.iter().copied().collect();
    assert_eq!(after_first, vec![2, 3, 1]);
    assert_eq!(queue.push_without_duplicates(2), None);
    let after_second: Vec<u8> = queue.0.iter().copied().collect();
    assert_eq!(after_second, after_first);
}
