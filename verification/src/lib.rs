pub mod bit_facts;
pub mod bit_operations;
pub mod bus;
pub mod cartridge;
pub mod cpu;
pub mod emulator;
pub mod file_loading;
pub mod frontend;
pub mod implementations;
pub mod mapper;
pub mod nes;
pub mod ppu;
pub mod rendering;
