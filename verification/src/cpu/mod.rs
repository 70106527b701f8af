//! The 6502 core of the NES: address space, addressing modes, opcode table
//! and the processor itself.
pub mod memory;
pub mod addressing;
pub mod cpu;
pub mod instructions;
