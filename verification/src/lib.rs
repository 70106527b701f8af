//! A NES emulator core: cartridge parsing, mappers, CPU, PPU and APU logic.
use vstd::prelude::*;

pub mod apu;
pub mod bits;
pub mod bytes;
pub mod cpu;
pub mod graphic;
pub mod joypad;
pub mod mapper;
pub mod nes;
pub mod ppu;
pub mod rom;
pub mod text;

verus! {
} // verus!
