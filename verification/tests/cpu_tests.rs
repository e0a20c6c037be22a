use nes_backend::cartridge::{Cartridge, Mirroring};
use nes_backend::cpu::semantics::StatusFlag;
use nes_backend::cpu::CPU;
use nes_backend::mapper::mapper000::Mapper000;
use nes_backend::nes::NES;
use nes_backend::ppu::PPU;
use nes_backend::rendering::BasicPixelBuffer;

/// A one-bank cartridge holding `program` at $8000 (and its mirror at $C000),
/// with the reset vector pointing at $8000.
fn cartridge_with(program: &[u8]) -> Cartridge {
    let mut prg = vec![0u8; 16384];
    prg[..program.len()].copy_from_slice(program);
    prg[0x3FFC] = 0x00;
    prg[0x3FFD] = 0x80;
    prg[0x3FFE] = 0x34;
    prg[0x3FFF] = 0x92;
    prg[0x3FFA] = 0x78;
    prg[0x3FFB] = 0x96;
    Cartridge {
        prg_memory: prg,
        chr_memory: vec![0u8; 8192],
        mirroring: Mirroring::Horizontal,
        mapper: Mapper000::new(false),
    }
}

fn cpu_with(program: &[u8]) -> CPU {
    let ppu = PPU::new(BasicPixelBuffer::new(256, 240), BasicPixelBuffer::new(256, 128));
    CPU::new(cartridge_with(program), ppu)
}

#[test]
fn adc_test() {
    let mut cart = Cartridge::default();
    cart.prg_memory[0x0000] = 0x00;
    assert_eq!(cart.prg_memory.len(), 16384);
}

#[test]
fn reset_loads_vector_and_clears_registers() {
    let cpu = cpu_with(&[]);
    assert_eq!(cpu.program_counter(), 0x8000);
    assert_eq!(cpu.stack_pointer(), 0xFD);
    assert_eq!(cpu.status(), 0x20);
    assert_eq!(cpu.cycles(), 8);
    assert_eq!(cpu.acc(), 0);
}

#[test]
fn lda_then_adc_immediate() {
    // LDA #$05 ; ADC #$03
    let mut cpu = cpu_with(&[0xA9, 0x05, 0x69, 0x03]);
    cpu.cycles = 0;
    cpu.clock_until_next_instruction();
    assert_eq!(cpu.acc(), 0x05);
    cpu.clock_until_next_instruction();
    assert_eq!(cpu.acc(), 0x08);
    assert!(!cpu.get_flag(StatusFlag::Carry));
    assert!(!cpu.get_flag(StatusFlag::Zero));
    assert_eq!(cpu.program_counter(), 0x8004);
}

#[test]
fn adc_sets_overflow_and_negative() {
    // LDA #$50 ; ADC #$50
    let mut cpu = cpu_with(&[0xA9, 0x50, 0x69, 0x50]);
    cpu.cycles = 0;
    cpu.clock_until_next_instruction();
    cpu.clock_until_next_instruction();
    assert_eq!(cpu.acc(), 0xA0);
    assert!(cpu.get_flag(StatusFlag::Overflow));
    assert!(cpu.get_flag(StatusFlag::Negative));
    assert!(!cpu.get_flag(StatusFlag::Carry));
}

#[test]
fn adc_carry_out() {
    // LDA #$FF ; ADC #$02
    let mut cpu = cpu_with(&[0xA9, 0xFF, 0x69, 0x02]);
    cpu.cycles = 0;
    cpu.clock_until_next_instruction();
    cpu.clock_until_next_instruction();
    assert_eq!(cpu.acc(), 0x01);
    assert!(cpu.get_flag(StatusFlag::Carry));
    assert!(!cpu.get_flag(StatusFlag::Overflow));
}

#[test]
fn sbc_with_carry_set_subtracts() {
    // SEC ; LDA #$10 ; SBC #$01
    let mut cpu = cpu_with(&[0x38, 0xA9, 0x10, 0xE9, 0x01]);
    cpu.cycles = 0;
    cpu.clock_until_next_instruction();
    cpu.clock_until_next_instruction();
    cpu.clock_until_next_instruction();
    assert_eq!(cpu.acc(), 0x0F);
    assert!(cpu.get_flag(StatusFlag::Carry));
}

#[test]
fn sta_then_lda_through_ram_mirror() {
    // LDA #$42 ; STA $0010 ; LDA #$00 ; LDA $0810
    let mut cpu = cpu_with(&[0xA9, 0x42, 0x8D, 0x10, 0x00, 0xA9, 0x00, 0xAD, 0x10, 0x08]);
    cpu.cycles = 0;
    for _ in 0..4 {
        cpu.clock_until_next_instruction();
    }
    assert_eq!(cpu.acc(), 0x42);
    assert_eq!(cpu.get_ram()[0x10], 0x42);
}

#[test]
fn jsr_and_rts_return_after_the_call() {
    // $8000: JSR $8006 ; LDX #$07 ; NOP ; $8006: LDY #$09 ; RTS
    let mut cpu = cpu_with(&[0x20, 0x06, 0x80, 0xA2, 0x07, 0xEA, 0xA0, 0x09, 0x60]);
    cpu.cycles = 0;
    cpu.clock_until_next_instruction();
    assert_eq!(cpu.program_counter(), 0x8006);
    assert_eq!(cpu.stack_pointer(), 0xFB);
    cpu.clock_until_next_instruction();
    assert_eq!(cpu.reg_y(), 0x09);
    cpu.clock_until_next_instruction();
    assert_eq!(cpu.program_counter(), 0x8003);
    cpu.clock_until_next_instruction();
    assert_eq!(cpu.reg_x(), 0x07);
}

#[test]
fn taken_branch_costs_a_cycle() {
    // LDX #$00 ; BEQ +2 ; LDX #$01 ; LDX #$02
    let mut cpu = cpu_with(&[0xA2, 0x00, 0xF0, 0x02, 0xA2, 0x01, 0xA2, 0x02]);
    cpu.cycles = 0;
    cpu.clock_until_next_instruction();
    cpu.clock();
    // BEQ takes 2 cycles, one more when taken: two remain after the first
    assert_eq!(cpu.cycles(), 2);
    assert_eq!(cpu.program_counter(), 0x8006);
    cpu.clock_until_next_instruction();
    cpu.clock_until_next_instruction();
    assert_eq!(cpu.reg_x(), 0x02);
}

#[test]
fn and_sets_carry_on_zero_result() {
    // LDA #$F0 ; AND #$0F
    let mut cpu = cpu_with(&[0xA9, 0xF0, 0x29, 0x0F]);
    cpu.cycles = 0;
    cpu.clock_until_next_instruction();
    cpu.clock_until_next_instruction();
    assert_eq!(cpu.acc(), 0);
    assert!(cpu.get_flag(StatusFlag::Carry));
}

#[test]
fn compare_and_shift() {
    // LDA #$81 ; CMP #$81 ; ASL A
    let mut cpu = cpu_with(&[0xA9, 0x81, 0xC9, 0x81, 0x0A]);
    cpu.cycles = 0;
    cpu.clock_until_next_instruction();
    cpu.clock_until_next_instruction();
    assert!(cpu.get_flag(StatusFlag::Zero));
    assert!(cpu.get_flag(StatusFlag::Carry));
    cpu.clock_until_next_instruction();
    assert_eq!(cpu.acc(), 0x02);
    assert!(cpu.get_flag(StatusFlag::Carry));
}

#[test]
fn push_and_pull_accumulator() {
    // LDA #$33 ; PHA ; LDA #$00 ; PLA
    let mut cpu = cpu_with(&[0xA9, 0x33, 0x48, 0xA9, 0x00, 0x68]);
    cpu.cycles = 0;
    for _ in 0..4 {
        cpu.clock_until_next_instruction();
    }
    assert_eq!(cpu.acc(), 0x33);
    assert_eq!(cpu.stack_pointer(), 0xFD);
    assert_eq!(cpu.get_ram()[0x01FD], 0x33);
}

#[test]
fn brk_jumps_through_irq_vector() {
    let mut cpu = cpu_with(&[0x00]);
    cpu.cycles = 0;
    cpu.clock_until_next_instruction();
    assert_eq!(cpu.program_counter(), 0x9234);
    assert!(cpu.get_flag(StatusFlag::DisableInterupts));
    assert_eq!(cpu.stack_pointer(), 0xFA);
}

#[test]
fn nmi_and_irq() {
    let mut cpu = cpu_with(&[]);
    cpu.non_maskable_interupt_request();
    assert_eq!(cpu.program_counter(), 0x9678);
    assert_eq!(cpu.cycles(), 8);
    // interrupts are disabled now: a maskable request is ignored
    cpu.interupt_request();
    assert_eq!(cpu.program_counter(), 0x9678);
}

#[test]
fn ppu_address_and_data_through_registers() {
    // LDA #$21 ; STA $2006 ; LDA #$05 ; STA $2006 ; LDA #$AB ; STA $2007
    let mut cpu = cpu_with(&[0xA9, 0x21, 0x8D, 0x06, 0x20, 0xA9, 0x05, 0x8D, 0x06, 0x20, 0xA9, 0xAB, 0x8D, 0x07, 0x20]);
    cpu.cycles = 0;
    for _ in 0..6 {
        cpu.clock_until_next_instruction();
    }
    let value = cpu.ppu().read(0x2105, cpu.cartridge());
    assert_eq!(value, 0xAB);
    assert_eq!(u16::from(cpu.ppu().ppu_controls.vram_address), 0x2106);
}

#[test]
fn nes_clocks_cpu_every_third_tick() {
    let cart = cartridge_with(&[0xEA, 0xEA]);
    let mut nes = NES::new(BasicPixelBuffer::new(256, 240), BasicPixelBuffer::new(256, 128), cart);
    assert_eq!(nes.cpu().cycles(), 8);
    nes.clock();
    assert_eq!(nes.cpu().cycles(), 7);
    nes.clock();
    nes.clock();
    assert_eq!(nes.cpu().cycles(), 7);
    nes.clock();
    assert_eq!(nes.cpu().cycles(), 6);
    assert_eq!(nes.clock_count(), 4);
}

#[test]
fn read_only_data_register_read_changes_nothing() {
    let mut cpu = cpu_with(&[]);
    cpu.write(0x2006, 0x23);
    cpu.write(0x2006, 0x00);
    cpu.write(0x2007, 0x99);
    cpu.write(0x2006, 0x23);
    cpu.write(0x2006, 0x00);
    let address = u16::from(cpu.ppu.ppu_controls.vram_address);
    let buffer = cpu.ppu.ppu_controls.data_buffer;
    let first = cpu.read(0x2007, true);
    assert_eq!(cpu.read(0x2007, true), first);
    assert_eq!(u16::from(cpu.ppu.ppu_controls.vram_address), address);
    assert_eq!(cpu.ppu.ppu_controls.data_buffer, buffer);
    // a plain read gives the same value, then moves on
    assert_eq!(cpu.read(0x2007, false), first);
    assert_eq!(u16::from(cpu.ppu.ppu_controls.vram_address), address + 1);
    assert_eq!(cpu.read(0x2007, false), 0x99);
}
