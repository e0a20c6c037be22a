//! Front ends of the emulator.
pub mod minifb;
