use nes_backend::cartridge::{Cartridge, Mirroring};
use nes_backend::cpu::addressing::AddressingMode;
use nes_backend::cpu::disassembler::{Argument, DisassembledInstruction};
use nes_backend::cpu::instructions::InstructionType;
use nes_backend::cpu::CPU;
use nes_backend::file_loading::INesFile;
use nes_backend::frontend::{program_window, DebugState, NUMBER_OF_RAM_PAGES};
use nes_backend::implementations::minifb::MiniFBEMulator;
use nes_backend::mapper::mapper000::Mapper000;
use nes_backend::nes::NES;
use nes_backend::ppu::PPU;
use nes_backend::rendering::{BasicPixelBuffer, PatternTable};

fn cartridge_with_patterns(chr: Vec<u8>) -> Cartridge {
    let mut prg = vec![0u8; 16384];
    prg[0x3FFC] = 0x00;
    prg[0x3FFD] = 0x80;
    Cartridge { prg_memory: prg, chr_memory: chr, mirroring: Mirroring::Horizontal, mapper: Mapper000::new(false) }
}

fn palette_ppu(cart: &mut Cartridge) -> PPU {
    let mut ppu = PPU::new(BasicPixelBuffer::new(256, 240), BasicPixelBuffer::new(256, 128));
    for entry in 0..32u16 {
        ppu.write(0x3F00 + entry, 0x20 + entry as u8, cart);
    }
    ppu
}

#[test]
fn debug_view_draws_one_tile_row() {
    let mut chr = vec![0u8; 8192];
    chr[0] = 0b1000_0001;
    chr[8] = 0b1100_0000;
    chr[0x1000] = 0b0100_0000;
    let mut cart = cartridge_with_patterns(chr);
    let mut ppu = palette_ppu(&mut cart);
    ppu.pattern_table_screen.set(128, 0x3D);
    ppu.render_debug_pattern_table(PatternTable::Left, 1, &cart);
    let screen = &ppu.pattern_table_screen;
    // pixel 3 of palette 1 is entry 7, pixel 2 entry 6, pixel 1 entry 5; pixel 0 shares
    // entry 0, which the write to $3F1C wrote last
    assert_eq!(screen.get(0), 0x27);
    assert_eq!(screen.get(1), 0x26);
    assert_eq!(screen.get(7), 0x25);
    assert_eq!(screen.get(2), 0x3C);
    assert_eq!(screen.get(256), 0x3C);
    // the right table is left alone
    assert_eq!(screen.get(128), 0x3D);
    ppu.render_debug_pattern_table(PatternTable::Right, 2, &cart);
    assert_eq!(ppu.pattern_table_screen.get(128 + 1), 0x29);
    assert_eq!(ppu.pattern_table_screen.get(128), 0x3C);
    assert_eq!(ppu.pattern_table_screen.get(0), 0x27);
    // drawing the same table again with the same palette changes nothing
    let before: Vec<u8> = ppu.pattern_table_screen.into_slice().to_vec();
    ppu.render_debug_pattern_table(PatternTable::Right, 2, &cart);
    assert_eq!(ppu.pattern_table_screen.into_slice(), before.as_slice());
}

#[test]
fn debug_view_through_cpu_and_console() {
    let mut chr = vec![0u8; 8192];
    chr[0x1000 + 16 * 17 + 3] = 0xFF;
    let cart = cartridge_with_patterns(chr);
    let ppu = PPU::new(BasicPixelBuffer::new(256, 240), BasicPixelBuffer::new(256, 128));
    let mut cpu = CPU::new(cart, ppu);
    cpu.render_debug_pattern_table(PatternTable::Right, 0);
    // tile 17 is tile (1, 1); its row 3 is screen row 11, columns 8..16 of the right table
    for x in 8..16 {
        assert_eq!(cpu.ppu.pattern_table_screen.get(128 + x + 256 * 11), cpu.ppu.get_color_value_from_pallet_ram(0, 1));
    }
    let mut nes = NES::new(
        BasicPixelBuffer::new(256, 240),
        BasicPixelBuffer::new(256, 128),
        cartridge_with_patterns(vec![0xFFu8; 8192]),
    );
    nes.render_debug_pattern_table(PatternTable::Left, 3);
    let expected = nes.cpu.ppu.get_color_value_from_pallet_ram(3, 3);
    assert!(nes.cpu.ppu.pattern_table_screen.into_slice()[..128].iter().all(|c| *c == expected));
    assert_eq!(nes.clock_count(), 0);
}

#[test]
fn pattern_tables_in_memory() {
    let full = cartridge_with_patterns(vec![0u8; 8192]);
    assert!(full.pattern_table_in_memory(PatternTable::Left));
    assert!(full.pattern_table_in_memory(PatternTable::Right));
    let half = cartridge_with_patterns(vec![0u8; 4096]);
    assert!(half.pattern_table_in_memory(PatternTable::Left));
    assert!(!half.pattern_table_in_memory(PatternTable::Right));
    let short = cartridge_with_patterns(vec![0u8; 4095]);
    assert!(!short.pattern_table_in_memory(PatternTable::Left));
}

#[test]
fn minifb_pattern_viewer() {
    let mut bytes = vec![b'N', b'E', b'S', 0x1A, 1, 1, 0, 0, 0, 0, 0, 0, 0, 0, 0, 0];
    for i in 0..16384 + 8192 {
        bytes.push((i * 7 % 253) as u8);
    }
    let file = INesFile::from_bytes(&bytes).ok().unwrap();
    let chr = file.chr_rom_data.clone();
    let mut emulator = MiniFBEMulator::new();
    emulator.buffer.main_screen[5] = 0x11;
    emulator.load_pattern(&file);
    let palette = [0x3Fu8, 0x06, 0x09, 0x02];
    for index in 0..32768usize {
        let table = (index % 256) / 128;
        let x = index % 256 - 128 * table;
        let y = index / 256;
        let tile = table * 256 + (y / 8) * 16 + x / 8;
        let lsb = chr[tile * 16 + y % 8];
        let msb = chr[tile * 16 + y % 8 + 8];
        let bit = 7 - x % 8;
        let pixel = ((lsb >> bit) & 1) + 2 * ((msb >> bit) & 1);
        assert_eq!(emulator.buffer.pattern_screen[index], palette[pixel as usize]);
    }
    assert_eq!(emulator.buffer.main_screen[5], 0x11);
}

#[test]
fn program_window_around_the_counter() {
    let instructions = Cartridge::example().disassemble();
    assert_eq!(instructions[1].address, 2);
    assert_eq!(program_window(&instructions, 2, 1), Some((1, 0, 2)));
    assert_eq!(program_window(&instructions, 2, 5), Some((1, 0, 6)));
    assert_eq!(program_window(&instructions, 1, 5), None);
    assert_eq!(program_window(&instructions, 0, usize::MAX), Some((0, 0, usize::MAX)));
}

#[test]
fn ram_pages_stay_in_range() {
    let mut state = DebugState::default();
    state.previous_ram_page();
    assert_eq!(state.ram_page_number, 0);
    for _ in 0..10 {
        state.next_ram_page();
    }
    assert_eq!(state.ram_page_number, NUMBER_OF_RAM_PAGES - 1);
    assert_eq!(state.ram_page_number, 7);
    state.previous_ram_page();
    assert_eq!(state.ram_page_number, 6);
    assert_eq!(state.program_state_offset, 5);
}

fn listed(address: usize, name: InstructionType, mode: AddressingMode, argument: Option<Argument>) -> DisassembledInstruction {
    DisassembledInstruction { address, name, mode, argument }
}

#[test]
fn instruction_lines() {
    assert_eq!(
        listed(0x0002, InstructionType::LDA, AddressingMode::ABX, Some(Argument::Big(0x0200))).to_string(),
        "$0002 | LDA $0200  {ABX}"
    );
    assert_eq!(
        listed(0x3FFF, InstructionType::BNE, AddressingMode::REL, Some(Argument::Small(0xFB))).to_string(),
        format!("${:04X} | {} ${:04}  {{{}}}", 0x3FFF, "BNE", 0xFBu8 as i8, "REL")
    );
    assert_eq!(
        listed(0x0010, InstructionType::BEQ, AddressingMode::REL, Some(Argument::Small(0x05))).to_string(),
        "$0010 | BEQ $0005  {REL}"
    );
    assert_eq!(
        listed(0x0010, InstructionType::BPL, AddressingMode::REL, Some(Argument::Small(0x80))).to_string(),
        "$0010 | BPL $-128  {REL}"
    );
    assert_eq!(
        listed(0x12345, InstructionType::LDX, AddressingMode::IMM, Some(Argument::Small(0x0A))).to_string(),
        format!("${:04X} | {}   ${:02X}  {{{}}}", 0x12345, "LDX", 0x0Au8, "IMM")
    );
    assert_eq!(
        listed(0, InstructionType::INX, AddressingMode::IMP, None).to_string(),
        "$0000 | INX        {IMP}"
    );
    assert_eq!(InstructionType::INVALID.to_string(), "INVALID");
    assert_eq!(AddressingMode::ZP0.to_string(), "ZP0");
}
