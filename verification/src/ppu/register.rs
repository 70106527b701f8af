//! CPU addresses of the PPU registers.
use vstd::prelude::*;

verus! {

#[allow(non_snake_case)]
#[derive(Debug, Clone, Copy, PartialEq, Eq, Structural)]
pub enum RegisterType {
    PPUCTRL,
    PPUMASK,
    PPUSTATUS,
    OAMADDR,
    OAMDATA,
    PPUSCROLL,
    PPUADDR,
    PPUDATA,
    OADDMA,
}

impl RegisterType {
    /// CPU address of the register: $2000-$2007, and $4014 for OAM DMA.
    pub fn value(&self) -> (a: usize)
        ensures
            a == match *self {
                RegisterType::PPUCTRL => 0x2000usize,
                RegisterType::PPUMASK => 0x2001,
                RegisterType::PPUSTATUS => 0x2002,
                RegisterType::OAMADDR => 0x2003,
                RegisterType::OAMDATA => 0x2004,
                RegisterType::PPUSCROLL => 0x2005,
                RegisterType::PPUADDR => 0x2006,
                RegisterType::PPUDATA => 0x2007,
                RegisterType::OADDMA => 0x4014,
            },
    {
        match self {
            RegisterType::PPUCTRL => 0x2000,
            RegisterType::PPUMASK => 0x2001,
            RegisterType::PPUSTATUS => 0x2002,
            RegisterType::OAMADDR => 0x2003,
            RegisterType::OAMDATA => 0x2004,
            RegisterType::PPUSCROLL => 0x2005,
            RegisterType::PPUADDR => 0x2006,
            RegisterType::PPUDATA => 0x2007,
            RegisterType::OADDMA => 0x4014,
        }
    }
}

} // verus!
