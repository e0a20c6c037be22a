use nes_backend::cartridge::{Cartridge, Mirroring};
use nes_backend::mapper::mapper000::Mapper000;
use nes_backend::ppu::ppu_controls::{PPUControlRegisters, PPULoopy, WritingAddressPart};
use nes_backend::ppu::PPU;
use nes_backend::rendering::BasicPixelBuffer;

fn ppu() -> PPU {
    PPU::new(BasicPixelBuffer::new(256, 240), BasicPixelBuffer::new(256, 128))
}

#[test]
fn modular_bitfield_test() {
    assert_eq!(0b0_000_00_00000_10100, u16::from(PPULoopy::new().with_coarse_x(0b10100)));
    assert_eq!(0b0_000_00_10100_00000, u16::from(PPULoopy::new().with_coarse_y(0b10100)));
    assert_eq!(0b0_000_01_00000_00000, u16::from(PPULoopy::new().with_nametable_x(true)));
    assert_eq!(0b0_000_10_00000_00000, u16::from(PPULoopy::new().with_nametable_y(true)));
    assert_eq!(0b0_100_00_00000_00000, u16::from(PPULoopy::new().with_fine_y(0b100)));
    assert_eq!(0b0_100_01_00100_01000, u16::from(PPULoopy::from(0b0_100_01_00100_01000)));
    assert_eq!(0x00FF, u16::from(PPULoopy::from_bytes([0xFF, 0x00])));
    assert_eq!([0xFF, 0x00], PPULoopy::from(0x00FF).into_bytes());
}

#[test]
fn loopy_fields_and_increment() {
    let mut l = PPULoopy::from(0b1_101_10_11001_00111);
    assert_eq!(l.coarse_x(), 0b00111);
    assert_eq!(l.coarse_y(), 0b11001);
    assert!(!l.nametable_x());
    assert!(l.nametable_y());
    assert_eq!(l.fine_y(), 0b101);
    l.set_coarse_x(31);
    assert_eq!(u16::from(l), 0b1_101_10_11001_11111);
    l.increment(1);
    assert_eq!(u16::from(l), 0b1_101_10_11010_00000);
    assert_eq!(l.dissolve_u16(), (0b101, 1, 0, 0b11010, 0));
}

#[test]
fn address_part_switches_back_and_forth() {
    let mut c = PPUControlRegisters::default();
    assert!(c.writing_part == WritingAddressPart::High);
    c.address_part_switch();
    assert!(c.writing_part == WritingAddressPart::Low);
    c.address_part_switch();
    assert!(c.writing_part == WritingAddressPart::High);
}

#[test]
fn nametable_mirroring() {
    let mut cart = Cartridge::default();
    let mut p = ppu();
    p.write(0x2005, 0x11, &mut cart);
    // horizontal: $2000 and $2800 share a table, $2400 uses the other one
    assert_eq!(p.read(0x2805, &cart), 0x11);
    assert_eq!(p.read(0x2405, &cart), 0x00);
    let mut vcart = Cartridge::default();
    vcart.mirroring = Mirroring::Vertical;
    let mut q = ppu();
    q.write(0x2005, 0x22, &mut vcart);
    assert_eq!(q.read(0x2405, &vcart), 0x22);
    assert_eq!(q.read(0x2805, &vcart), 0x00);
}

#[test]
fn palette_entries_that_share_entry_zero() {
    let mut cart = Cartridge::default();
    let mut p = ppu();
    p.write(0x3F00, 0x0F, &mut cart);
    assert_eq!(p.read(0x3F10, &cart), 0x0F);
    assert_eq!(p.read(0x3F04, &cart), 0x0F);
    p.write(0x3F05, 0x16, &mut cart);
    assert_eq!(p.read(0x3F25, &cart), 0x16);
    assert_eq!(p.get_color_value_from_pallet_ram(1, 1), 0x16);
    assert_eq!(p.get_color_value_from_pallet_ram(1, 0), 0x0F);
}

#[test]
fn pattern_memory_reads_the_cartridge() {
    let mut chr = vec![0u8; 8192];
    chr[0x1234] = 0x5A;
    let cart = Cartridge {
        prg_memory: vec![0u8; 16384],
        chr_memory: chr,
        mirroring: Mirroring::Horizontal,
        mapper: Mapper000::new(false),
    };
    assert_eq!(ppu().read(0x1234, &cart), 0x5A);
}

#[test]
fn scroll_increments_wrap_into_the_next_nametable() {
    let mut c = PPUControlRegisters::default();
    c.mask = 0x08u8.into();
    c.vram_address = PPULoopy::new().with_coarse_x(31);
    PPU::increment_scroll_y(&mut c);
    assert_eq!(c.vram_address.fine_y(), 1);
    c.vram_address = PPULoopy::new().with_fine_y(7).with_coarse_y(29);
    PPU::increment_scroll_y(&mut c);
    assert_eq!(c.vram_address.coarse_y(), 0);
    assert_eq!(c.vram_address.fine_y(), 0);
    assert!(c.vram_address.nametable_y());
}

#[test]
fn clock_advances_dots_and_sets_vertical_blank() {
    let cart = Cartridge::default();
    let mut p = ppu();
    p.ppu_controls.control = 0x80u8.into();
    p.clock(&cart);
    assert_eq!(p.cycle, 2);
    assert_eq!(p.scanline, 0);
    // jump to the dot where the vertical blank starts
    p.scanline = 241;
    p.cycle = 1;
    p.screen = BasicPixelBuffer::new(256, 300);
    p.clock(&cart);
    assert!(p.ppu_controls.status.vertical_blank());
    assert!(p.nmi);
}
