//! What every front end of the emulator offers, and the state an emulator holds.
use vstd::prelude::*;
use crate::cartridge::Cartridge;
use crate::nes::NES;
use crate::rendering::BasicPixelBuffer;

verus! {

/// A front end that runs the console: it owns the windows and the loop that clocks the
/// console, and can take a cartridge and reset the console.
pub trait EmulatorImplementation {
    fn run(&mut self);

    fn insert_cartrigde(&mut self, cartridge: Cartridge);

    fn reset(&mut self);
}

/// The whole state of an emulator: the console, once a cartridge is in, and the buffer
/// it renders into.
pub struct Emulator {
    pub nes: Option<NES>,
    pub renderer: BasicPixelBuffer,
}

} // verus!
