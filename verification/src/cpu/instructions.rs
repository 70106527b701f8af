//! Opcode table: mnemonic, addressing mode and base cycle count of each
//! opcode the CPU knows, official and unofficial.
use vstd::prelude::*;
use crate::cpu::addressing::AddressingModeType;

verus! {

#[allow(non_camel_case_types)]
#[derive(Debug, Clone, Copy, PartialEq, Eq, Structural)]
pub enum Instruction {
    /// Add with carry.
    ADC,
    /// AND, then shift right.
    ALR,
    /// AND, then N to C.
    ANC,
    /// AND with A.
    AND,
    /// AND, then rotate right.
    ARR,
    /// Shift left.
    ASL,
    /// Branch if carry clear.
    BCC,
    /// Branch if carry set.
    BCS,
    /// Branch if zero.
    BEQ,
    /// Bit test.
    BIT,
    /// Branch if negative.
    BMI,
    /// Branch if not zero.
    BNE,
    /// Branch if positive.
    BPL,
    /// Software interrupt.
    BRK,
    /// Branch if overflow clear.
    BVC,
    /// Branch if overflow set.
    BVS,
    /// Clear carry.
    CLC,
    /// Clear decimal.
    CLD,
    /// Clear interrupt disable.
    CLI,
    /// Clear overflow.
    CLV,
    /// Compare with A.
    CMP,
    /// Compare with X.
    CPX,
    /// Compare with Y.
    CPY,
    /// Decrement, then compare.
    DCP,
    /// Decrement memory.
    DEC,
    /// Decrement X.
    DEX,
    /// Decrement Y.
    DEY,
    /// Two-byte no operation.
    DOP,
    /// Exclusive or with A.
    EOR,
    /// Increment memory.
    INC,
    /// Increment X.
    INX,
    /// Increment Y.
    INY,
    /// Increment, then subtract.
    ISC,
    /// Jump.
    JMP,
    /// Jump to subroutine.
    JSR,
    /// Load A and X.
    LAX,
    /// Load A.
    LDA,
    /// Load X.
    LDX,
    /// Load Y.
    LDY,
    /// Shift right.
    LSR,
    /// No operation.
    NOP,
    /// Or with A.
    ORA,
    /// Push A.
    PHA,
    /// Push status.
    PHP,
    /// Pull A.
    PLA,
    /// Pull status.
    PLP,
    /// Rotate left, then AND.
    RLA,
    /// Rotate left.
    ROL,
    /// Rotate right.
    ROR,
    /// Rotate right, then add.
    RRA,
    /// Return from interrupt.
    RTI,
    /// Return from subroutine.
    RTS,
    /// Store A & X.
    SAX,
    /// Subtract with borrow.
    SBC,
    /// Set carry.
    SEC,
    /// Set decimal.
    SED,
    /// Set interrupt disable.
    SEI,
    /// Shift left, then OR.
    SLO,
    /// Shift right, then EOR.
    SRE,
    /// Store A.
    STA,
    /// Store X.
    STX,
    /// Store Y.
    STY,
    /// A to X.
    TAX,
    /// A to Y.
    TAY,
    /// Three-byte no operation.
    TOP,
    /// SP to X.
    TSX,
    /// X to A.
    TXA,
    /// X to SP.
    TXS,
    /// Y to A.
    TYA,
}

/// Mnemonic, addressing mode and base cycles of `opcode`; `None` for the
/// opcodes the CPU does not know.
pub open spec fn opcode_table(opcode: u8) -> Option<(Instruction, AddressingModeType, u8)> {
    match opcode {
        0x00u8 => Some((Instruction::BRK, AddressingModeType::Implied, 7u8)),
        0x01u8 => Some((Instruction::ORA, AddressingModeType::PreIndexedIndirect, 6u8)),
        0x03u8 => Some((Instruction::SLO, AddressingModeType::PreIndexedIndirect, 8u8)),
        0x04u8 => Some((Instruction::DOP, AddressingModeType::ZeroPage, 3u8)),
        0x05u8 => Some((Instruction::ORA, AddressingModeType::ZeroPage, 3u8)),
        0x06u8 => Some((Instruction::ASL, AddressingModeType::ZeroPage, 5u8)),
        0x07u8 => Some((Instruction::SLO, AddressingModeType::ZeroPage, 5u8)),
        0x08u8 => Some((Instruction::PHP, AddressingModeType::Implied, 3u8)),
        0x09u8 => Some((Instruction::ORA, AddressingModeType::Immediate, 2u8)),
        0x0Au8 => Some((Instruction::ASL, AddressingModeType::Accumulator, 2u8)),
        0x0Bu8 => Some((Instruction::ANC, AddressingModeType::Immediate, 2u8)),
        0x0Cu8 => Some((Instruction::TOP, AddressingModeType::Absolute, 4u8)),
        0x0Du8 => Some((Instruction::ORA, AddressingModeType::Absolute, 4u8)),
        0x0Eu8 => Some((Instruction::ASL, AddressingModeType::Absolute, 6u8)),
        0x0Fu8 => Some((Instruction::SLO, AddressingModeType::Absolute, 6u8)),
        0x10u8 => Some((Instruction::BPL, AddressingModeType::Relative, 2u8)),
        0x11u8 => Some((Instruction::ORA, AddressingModeType::PostIndexedIndirect, 5u8)),
        0x13u8 => Some((Instruction::SLO, AddressingModeType::PostIndexedIndirect, 8u8)),
        0x14u8 => Some((Instruction::DOP, AddressingModeType::ZeroPageX, 4u8)),
        0x15u8 => Some((Instruction::ORA, AddressingModeType::ZeroPageX, 4u8)),
        0x16u8 => Some((Instruction::ASL, AddressingModeType::ZeroPageX, 6u8)),
        0x17u8 => Some((Instruction::SLO, AddressingModeType::ZeroPageX, 6u8)),
        0x18u8 => Some((Instruction::CLC, AddressingModeType::Implied, 2u8)),
        0x19u8 => Some((Instruction::ORA, AddressingModeType::AbsoluteY, 4u8)),
        0x1Au8 => Some((Instruction::NOP, AddressingModeType::Implied, 2u8)),
        0x1Bu8 => Some((Instruction::SLO, AddressingModeType::AbsoluteY, 7u8)),
        0x1Cu8 => Some((Instruction::TOP, AddressingModeType::AbsoluteX, 4u8)),
        0x1Du8 => Some((Instruction::ORA, AddressingModeType::AbsoluteX, 4u8)),
        0x1Eu8 => Some((Instruction::ASL, AddressingModeType::AbsoluteX, 7u8)),
        0x1Fu8 => Some((Instruction::SLO, AddressingModeType::AbsoluteX, 7u8)),
        0x20u8 => Some((Instruction::JSR, AddressingModeType::Absolute, 6u8)),
        0x21u8 => Some((Instruction::AND, AddressingModeType::PreIndexedIndirect, 6u8)),
        0x23u8 => Some((Instruction::RLA, AddressingModeType::PreIndexedIndirect, 8u8)),
        0x24u8 => Some((Instruction::BIT, AddressingModeType::ZeroPage, 3u8)),
        0x25u8 => Some((Instruction::AND, AddressingModeType::ZeroPage, 3u8)),
        0x26u8 => Some((Instruction::ROL, AddressingModeType::ZeroPage, 5u8)),
        0x27u8 => Some((Instruction::RLA, AddressingModeType::ZeroPage, 5u8)),
        0x28u8 => Some((Instruction::PLP, AddressingModeType::Implied, 4u8)),
        0x29u8 => Some((Instruction::AND, AddressingModeType::Immediate, 2u8)),
        0x2Au8 => Some((Instruction::ROL, AddressingModeType::Accumulator, 2u8)),
        0x2Bu8 => Some((Instruction::ANC, AddressingModeType::Immediate, 2u8)),
        0x2Cu8 => Some((Instruction::BIT, AddressingModeType::Absolute, 4u8)),
        0x2Du8 => Some((Instruction::AND, AddressingModeType::Absolute, 4u8)),
        0x2Eu8 => Some((Instruction::ROL, AddressingModeType::Absolute, 6u8)),
        0x2Fu8 => Some((Instruction::RLA, AddressingModeType::Absolute, 6u8)),
        0x30u8 => Some((Instruction::BMI, AddressingModeType::Relative, 2u8)),
        0x31u8 => Some((Instruction::AND, AddressingModeType::PostIndexedIndirect, 5u8)),
        0x33u8 => Some((Instruction::RLA, AddressingModeType::PostIndexedIndirect, 8u8)),
        0x34u8 => Some((Instruction::DOP, AddressingModeType::ZeroPageX, 4u8)),
        0x35u8 => Some((Instruction::AND, AddressingModeType::ZeroPageX, 4u8)),
        0x36u8 => Some((Instruction::ROL, AddressingModeType::ZeroPageX, 6u8)),
        0x37u8 => Some((Instruction::RLA, AddressingModeType::ZeroPageX, 6u8)),
        0x38u8 => Some((Instruction::SEC, AddressingModeType::Implied, 2u8)),
        0x39u8 => Some((Instruction::AND, AddressingModeType::AbsoluteY, 4u8)),
        0x3Au8 => Some((Instruction::NOP, AddressingModeType::Implied, 2u8)),
        0x3Bu8 => Some((Instruction::RLA, AddressingModeType::AbsoluteY, 7u8)),
        0x3Cu8 => Some((Instruction::TOP, AddressingModeType::AbsoluteX, 4u8)),
        0x3Du8 => Some((Instruction::AND, AddressingModeType::AbsoluteX, 4u8)),
        0x3Eu8 => Some((Instruction::ROL, AddressingModeType::AbsoluteX, 7u8)),
        0x3Fu8 => Some((Instruction::RLA, AddressingModeType::AbsoluteX, 7u8)),
        0x40u8 => Some((Instruction::RTI, AddressingModeType::Implied, 6u8)),
        0x41u8 => Some((Instruction::EOR, AddressingModeType::PreIndexedIndirect, 6u8)),
        0x43u8 => Some((Instruction::SRE, AddressingModeType::PreIndexedIndirect, 8u8)),
        0x44u8 => Some((Instruction::DOP, AddressingModeType::ZeroPage, 3u8)),
        0x45u8 => Some((Instruction::EOR, AddressingModeType::ZeroPage, 3u8)),
        0x46u8 => Some((Instruction::LSR, AddressingModeType::ZeroPage, 5u8)),
        0x47u8 => Some((Instruction::SRE, AddressingModeType::ZeroPage, 5u8)),
        0x48u8 => Some((Instruction::PHA, AddressingModeType::Implied, 3u8)),
        0x49u8 => Some((Instruction::EOR, AddressingModeType::Immediate, 2u8)),
        0x4Au8 => Some((Instruction::LSR, AddressingModeType::Accumulator, 2u8)),
        0x4Bu8 => Some((Instruction::ALR, AddressingModeType::Immediate, 2u8)),
        0x4Cu8 => Some((Instruction::JMP, AddressingModeType::Absolute, 3u8)),
        0x4Du8 => Some((Instruction::EOR, AddressingModeType::Absolute, 4u8)),
        0x4Eu8 => Some((Instruction::LSR, AddressingModeType::Absolute, 6u8)),
        0x4Fu8 => Some((Instruction::SRE, AddressingModeType::Absolute, 6u8)),
        0x50u8 => Some((Instruction::BVC, AddressingModeType::Relative, 2u8)),
        0x51u8 => Some((Instruction::EOR, AddressingModeType::PostIndexedIndirect, 5u8)),
        0x53u8 => Some((Instruction::SRE, AddressingModeType::PostIndexedIndirect, 8u8)),
        0x54u8 => Some((Instruction::DOP, AddressingModeType::ZeroPageX, 4u8)),
        0x55u8 => Some((Instruction::EOR, AddressingModeType::ZeroPageX, 4u8)),
        0x56u8 => Some((Instruction::LSR, AddressingModeType::ZeroPageX, 6u8)),
        0x57u8 => Some((Instruction::SRE, AddressingModeType::ZeroPageX, 6u8)),
        0x58u8 => Some((Instruction::CLI, AddressingModeType::Implied, 2u8)),
        0x59u8 => Some((Instruction::EOR, AddressingModeType::AbsoluteY, 4u8)),
        0x5Au8 => Some((Instruction::NOP, AddressingModeType::Implied, 2u8)),
        0x5Bu8 => Some((Instruction::SRE, AddressingModeType::AbsoluteY, 7u8)),
        0x5Cu8 => Some((Instruction::TOP, AddressingModeType::AbsoluteX, 4u8)),
        0x5Du8 => Some((Instruction::EOR, AddressingModeType::AbsoluteX, 4u8)),
        0x5Eu8 => Some((Instruction::LSR, AddressingModeType::AbsoluteX, 7u8)),
        0x5Fu8 => Some((Instruction::SRE, AddressingModeType::AbsoluteX, 7u8)),
        0x60u8 => Some((Instruction::RTS, AddressingModeType::Implied, 6u8)),
        0x61u8 => Some((Instruction::ADC, AddressingModeType::PreIndexedIndirect, 6u8)),
        0x63u8 => Some((Instruction::RRA, AddressingModeType::PreIndexedIndirect, 8u8)),
        0x64u8 => Some((Instruction::DOP, AddressingModeType::ZeroPage, 3u8)),
        0x65u8 => Some((Instruction::ADC, AddressingModeType::ZeroPage, 3u8)),
        0x66u8 => Some((Instruction::ROR, AddressingModeType::ZeroPage, 5u8)),
        0x67u8 => Some((Instruction::RRA, AddressingModeType::ZeroPage, 5u8)),
        0x68u8 => Some((Instruction::PLA, AddressingModeType::Implied, 4u8)),
        0x69u8 => Some((Instruction::ADC, AddressingModeType::Immediate, 2u8)),
        0x6Au8 => Some((Instruction::ROR, AddressingModeType::Accumulator, 2u8)),
        0x6Bu8 => Some((Instruction::ARR, AddressingModeType::Immediate, 2u8)),
        0x6Cu8 => Some((Instruction::JMP, AddressingModeType::Indirect, 5u8)),
        0x6Du8 => Some((Instruction::ADC, AddressingModeType::Absolute, 4u8)),
        0x6Eu8 => Some((Instruction::ROR, AddressingModeType::Absolute, 6u8)),
        0x6Fu8 => Some((Instruction::RRA, AddressingModeType::Absolute, 6u8)),
        0x70u8 => Some((Instruction::BVS, AddressingModeType::Relative, 2u8)),
        0x71u8 => Some((Instruction::ADC, AddressingModeType::PostIndexedIndirect, 5u8)),
        0x73u8 => Some((Instruction::RRA, AddressingModeType::PostIndexedIndirect, 8u8)),
        0x74u8 => Some((Instruction::DOP, AddressingModeType::ZeroPageX, 4u8)),
        0x75u8 => Some((Instruction::ADC, AddressingModeType::ZeroPageX, 4u8)),
        0x76u8 => Some((Instruction::ROR, AddressingModeType::ZeroPageX, 6u8)),
        0x77u8 => Some((Instruction::RRA, AddressingModeType::ZeroPageX, 6u8)),
        0x78u8 => Some((Instruction::SEI, AddressingModeType::Implied, 2u8)),
        0x79u8 => Some((Instruction::ADC, AddressingModeType::AbsoluteY, 4u8)),
        0x7Au8 => Some((Instruction::NOP, AddressingModeType::Implied, 2u8)),
        0x7Bu8 => Some((Instruction::RRA, AddressingModeType::AbsoluteY, 7u8)),
        0x7Cu8 => Some((Instruction::TOP, AddressingModeType::AbsoluteX, 4u8)),
        0x7Du8 => Some((Instruction::ADC, AddressingModeType::AbsoluteX, 4u8)),
        0x7Eu8 => Some((Instruction::ROR, AddressingModeType::AbsoluteX, 7u8)),
        0x7Fu8 => Some((Instruction::RRA, AddressingModeType::AbsoluteX, 7u8)),
        0x80u8 => Some((Instruction::DOP, AddressingModeType::Immediate, 2u8)),
        0x81u8 => Some((Instruction::STA, AddressingModeType::PreIndexedIndirect, 6u8)),
        0x82u8 => Some((Instruction::DOP, AddressingModeType::Immediate, 2u8)),
        0x83u8 => Some((Instruction::SAX, AddressingModeType::PreIndexedIndirect, 6u8)),
        0x84u8 => Some((Instruction::STY, AddressingModeType::ZeroPage, 3u8)),
        0x85u8 => Some((Instruction::STA, AddressingModeType::ZeroPage, 3u8)),
        0x86u8 => Some((Instruction::STX, AddressingModeType::ZeroPage, 3u8)),
        0x87u8 => Some((Instruction::SAX, AddressingModeType::ZeroPage, 3u8)),
        0x88u8 => Some((Instruction::DEY, AddressingModeType::Implied, 2u8)),
        0x89u8 => Some((Instruction::DOP, AddressingModeType::Immediate, 2u8)),
        0x8Au8 => Some((Instruction::TXA, AddressingModeType::Implied, 2u8)),
        0x8Cu8 => Some((Instruction::STY, AddressingModeType::Absolute, 4u8)),
        0x8Du8 => Some((Instruction::STA, AddressingModeType::Absolute, 4u8)),
        0x8Eu8 => Some((Instruction::STX, AddressingModeType::Absolute, 4u8)),
        0x8Fu8 => Some((Instruction::SAX, AddressingModeType::Absolute, 4u8)),
        0x90u8 => Some((Instruction::BCC, AddressingModeType::Relative, 2u8)),
        0x91u8 => Some((Instruction::STA, AddressingModeType::PostIndexedIndirect, 6u8)),
        0x94u8 => Some((Instruction::STY, AddressingModeType::ZeroPageX, 4u8)),
        0x95u8 => Some((Instruction::STA, AddressingModeType::ZeroPageX, 4u8)),
        0x96u8 => Some((Instruction::STX, AddressingModeType::ZeroPageY, 4u8)),
        0x97u8 => Some((Instruction::SAX, AddressingModeType::ZeroPageY, 4u8)),
        0x98u8 => Some((Instruction::TYA, AddressingModeType::Implied, 2u8)),
        0x99u8 => Some((Instruction::STA, AddressingModeType::AbsoluteY, 5u8)),
        0x9Au8 => Some((Instruction::TXS, AddressingModeType::Implied, 2u8)),
        0x9Du8 => Some((Instruction::STA, AddressingModeType::AbsoluteX, 5u8)),
        0xA0u8 => Some((Instruction::LDY, AddressingModeType::Immediate, 2u8)),
        0xA1u8 => Some((Instruction::LDA, AddressingModeType::PreIndexedIndirect, 6u8)),
        0xA2u8 => Some((Instruction::LDX, AddressingModeType::Immediate, 2u8)),
        0xA3u8 => Some((Instruction::LAX, AddressingModeType::PreIndexedIndirect, 6u8)),
        0xA4u8 => Some((Instruction::LDY, AddressingModeType::ZeroPage, 3u8)),
        0xA5u8 => Some((Instruction::LDA, AddressingModeType::ZeroPage, 3u8)),
        0xA6u8 => Some((Instruction::LDX, AddressingModeType::ZeroPage, 3u8)),
        0xA7u8 => Some((Instruction::LAX, AddressingModeType::ZeroPage, 3u8)),
        0xA8u8 => Some((Instruction::TAY, AddressingModeType::Implied, 2u8)),
        0xA9u8 => Some((Instruction::LDA, AddressingModeType::Immediate, 2u8)),
        0xAAu8 => Some((Instruction::TAX, AddressingModeType::Implied, 2u8)),
        0xACu8 => Some((Instruction::LDY, AddressingModeType::Absolute, 4u8)),
        0xADu8 => Some((Instruction::LDA, AddressingModeType::Absolute, 4u8)),
        0xAEu8 => Some((Instruction::LDX, AddressingModeType::Absolute, 4u8)),
        0xAFu8 => Some((Instruction::LAX, AddressingModeType::Absolute, 4u8)),
        0xB0u8 => Some((Instruction::BCS, AddressingModeType::Relative, 2u8)),
        0xB1u8 => Some((Instruction::LDA, AddressingModeType::PostIndexedIndirect, 5u8)),
        0xB3u8 => Some((Instruction::LAX, AddressingModeType::PostIndexedIndirect, 5u8)),
        0xB4u8 => Some((Instruction::LDY, AddressingModeType::ZeroPageX, 4u8)),
        0xB5u8 => Some((Instruction::LDA, AddressingModeType::ZeroPageX, 4u8)),
        0xB6u8 => Some((Instruction::LDX, AddressingModeType::ZeroPageY, 4u8)),
        0xB7u8 => Some((Instruction::LAX, AddressingModeType::ZeroPageY, 4u8)),
        0xB8u8 => Some((Instruction::CLV, AddressingModeType::Implied, 2u8)),
        0xB9u8 => Some((Instruction::LDA, AddressingModeType::AbsoluteY, 4u8)),
        0xBAu8 => Some((Instruction::TSX, AddressingModeType::Implied, 2u8)),
        0xBCu8 => Some((Instruction::LDY, AddressingModeType::AbsoluteX, 4u8)),
        0xBDu8 => Some((Instruction::LDA, AddressingModeType::AbsoluteX, 4u8)),
        0xBEu8 => Some((Instruction::LDX, AddressingModeType::AbsoluteY, 4u8)),
        0xBFu8 => Some((Instruction::LAX, AddressingModeType::AbsoluteY, 4u8)),
        0xC0u8 => Some((Instruction::CPY, AddressingModeType::Immediate, 2u8)),
        0xC1u8 => Some((Instruction::CMP, AddressingModeType::PreIndexedIndirect, 6u8)),
        0xC2u8 => Some((Instruction::DOP, AddressingModeType::Immediate, 2u8)),
        0xC3u8 => Some((Instruction::DCP, AddressingModeType::PreIndexedIndirect, 8u8)),
        0xC4u8 => Some((Instruction::CPY, AddressingModeType::ZeroPage, 3u8)),
        0xC5u8 => Some((Instruction::CMP, AddressingModeType::ZeroPage, 3u8)),
        0xC6u8 => Some((Instruction::DEC, AddressingModeType::ZeroPage, 5u8)),
        0xC7u8 => Some((Instruction::DCP, AddressingModeType::ZeroPage, 5u8)),
        0xC8u8 => Some((Instruction::INY, AddressingModeType::Implied, 2u8)),
        0xC9u8 => Some((Instruction::CMP, AddressingModeType::Immediate, 2u8)),
        0xCAu8 => Some((Instruction::DEX, AddressingModeType::Implied, 2u8)),
        0xCCu8 => Some((Instruction::CPY, AddressingModeType::Absolute, 4u8)),
        0xCDu8 => Some((Instruction::CMP, AddressingModeType::Absolute, 4u8)),
        0xCEu8 => Some((Instruction::DEC, AddressingModeType::Absolute, 6u8)),
        0xCFu8 => Some((Instruction::DCP, AddressingModeType::Absolute, 6u8)),
        0xD0u8 => Some((Instruction::BNE, AddressingModeType::Relative, 2u8)),
        0xD1u8 => Some((Instruction::CMP, AddressingModeType::PostIndexedIndirect, 5u8)),
        0xD3u8 => Some((Instruction::DCP, AddressingModeType::PostIndexedIndirect, 8u8)),
        0xD4u8 => Some((Instruction::DOP, AddressingModeType::ZeroPageX, 4u8)),
        0xD5u8 => Some((Instruction::CMP, AddressingModeType::ZeroPageX, 4u8)),
        0xD6u8 => Some((Instruction::DEC, AddressingModeType::ZeroPageX, 6u8)),
        0xD7u8 => Some((Instruction::DCP, AddressingModeType::ZeroPageX, 6u8)),
        0xD8u8 => Some((Instruction::CLD, AddressingModeType::Implied, 2u8)),
        0xD9u8 => Some((Instruction::CMP, AddressingModeType::AbsoluteY, 4u8)),
        0xDAu8 => Some((Instruction::NOP, AddressingModeType::Implied, 2u8)),
        0xDBu8 => Some((Instruction::DCP, AddressingModeType::AbsoluteY, 7u8)),
        0xDCu8 => Some((Instruction::TOP, AddressingModeType::AbsoluteX, 4u8)),
        0xDDu8 => Some((Instruction::CMP, AddressingModeType::AbsoluteX, 4u8)),
        0xDEu8 => Some((Instruction::DEC, AddressingModeType::AbsoluteX, 7u8)),
        0xDFu8 => Some((Instruction::DCP, AddressingModeType::AbsoluteX, 7u8)),
        0xE0u8 => Some((Instruction::CPX, AddressingModeType::Immediate, 2u8)),
        0xE1u8 => Some((Instruction::SBC, AddressingModeType::PreIndexedIndirect, 6u8)),
        0xE2u8 => Some((Instruction::DOP, AddressingModeType::Immediate, 2u8)),
        0xE3u8 => Some((Instruction::ISC, AddressingModeType::PreIndexedIndirect, 8u8)),
        0xE4u8 => Some((Instruction::CPX, AddressingModeType::ZeroPage, 3u8)),
        0xE5u8 => Some((Instruction::SBC, AddressingModeType::ZeroPage, 3u8)),
        0xE6u8 => Some((Instruction::INC, AddressingModeType::ZeroPage, 5u8)),
        0xE7u8 => Some((Instruction::ISC, AddressingModeType::ZeroPage, 5u8)),
        0xE8u8 => Some((Instruction::INX, AddressingModeType::Implied, 2u8)),
        0xE9u8 => Some((Instruction::SBC, AddressingModeType::Immediate, 2u8)),
        0xEAu8 => Some((Instruction::NOP, AddressingModeType::Implied, 2u8)),
        0xECu8 => Some((Instruction::CPX, AddressingModeType::Absolute, 4u8)),
        0xEDu8 => Some((Instruction::SBC, AddressingModeType::Absolute, 4u8)),
        0xEEu8 => Some((Instruction::INC, AddressingModeType::Absolute, 6u8)),
        0xEFu8 => Some((Instruction::ISC, AddressingModeType::Absolute, 6u8)),
        0xF0u8 => Some((Instruction::BEQ, AddressingModeType::Relative, 2u8)),
        0xF1u8 => Some((Instruction::SBC, AddressingModeType::PostIndexedIndirect, 5u8)),
        0xF3u8 => Some((Instruction::ISC, AddressingModeType::PostIndexedIndirect, 8u8)),
        0xF4u8 => Some((Instruction::DOP, AddressingModeType::ZeroPageX, 4u8)),
        0xF5u8 => Some((Instruction::SBC, AddressingModeType::ZeroPageX, 4u8)),
        0xF6u8 => Some((Instruction::INC, AddressingModeType::ZeroPageX, 6u8)),
        0xF7u8 => Some((Instruction::ISC, AddressingModeType::ZeroPageX, 6u8)),
        0xF8u8 => Some((Instruction::SED, AddressingModeType::Implied, 2u8)),
        0xF9u8 => Some((Instruction::SBC, AddressingModeType::AbsoluteY, 4u8)),
        0xFAu8 => Some((Instruction::NOP, AddressingModeType::Implied, 2u8)),
        0xFBu8 => Some((Instruction::ISC, AddressingModeType::AbsoluteY, 7u8)),
        0xFCu8 => Some((Instruction::TOP, AddressingModeType::AbsoluteX, 4u8)),
        0xFDu8 => Some((Instruction::SBC, AddressingModeType::AbsoluteX, 4u8)),
        0xFEu8 => Some((Instruction::INC, AddressingModeType::AbsoluteX, 7u8)),
        0xFFu8 => Some((Instruction::ISC, AddressingModeType::AbsoluteX, 7u8)),
        _ => None,
    }
}

/// Looks `opcode` up in the opcode table.
pub fn decode_opcode(opcode: u8) -> (r: Option<(Instruction, AddressingModeType, u8)>)
    ensures
        r == opcode_table(opcode),
        r matches Some((_, _, cost)) ==> cost <= 8,
{
    match opcode {
        0x00u8 => Some((Instruction::BRK, AddressingModeType::Implied, 7u8)),
        0x01u8 => Some((Instruction::ORA, AddressingModeType::PreIndexedIndirect, 6u8)),
        0x03u8 => Some((Instruction::SLO, AddressingModeType::PreIndexedIndirect, 8u8)),
        0x04u8 => Some((Instruction::DOP, AddressingModeType::ZeroPage, 3u8)),
        0x05u8 => Some((Instruction::ORA, AddressingModeType::ZeroPage, 3u8)),
        0x06u8 => Some((Instruction::ASL, AddressingModeType::ZeroPage, 5u8)),
        0x07u8 => Some((Instruction::SLO, AddressingModeType::ZeroPage, 5u8)),
        0x08u8 => Some((Instruction::PHP, AddressingModeType::Implied, 3u8)),
        0x09u8 => Some((Instruction::ORA, AddressingModeType::Immediate, 2u8)),
        0x0Au8 => Some((Instruction::ASL, AddressingModeType::Accumulator, 2u8)),
        0x0Bu8 => Some((Instruction::ANC, AddressingModeType::Immediate, 2u8)),
        0x0Cu8 => Some((Instruction::TOP, AddressingModeType::Absolute, 4u8)),
        0x0Du8 => Some((Instruction::ORA, AddressingModeType::Absolute, 4u8)),
        0x0Eu8 => Some((Instruction::ASL, AddressingModeType::Absolute, 6u8)),
        0x0Fu8 => Some((Instruction::SLO, AddressingModeType::Absolute, 6u8)),
        0x10u8 => Some((Instruction::BPL, AddressingModeType::Relative, 2u8)),
        0x11u8 => Some((Instruction::ORA, AddressingModeType::PostIndexedIndirect, 5u8)),
        0x13u8 => Some((Instruction::SLO, AddressingModeType::PostIndexedIndirect, 8u8)),
        0x14u8 => Some((Instruction::DOP, AddressingModeType::ZeroPageX, 4u8)),
        0x15u8 => Some((Instruction::ORA, AddressingModeType::ZeroPageX, 4u8)),
        0x16u8 => Some((Instruction::ASL, AddressingModeType::ZeroPageX, 6u8)),
        0x17u8 => Some((Instruction::SLO, AddressingModeType::ZeroPageX, 6u8)),
        0x18u8 => Some((Instruction::CLC, AddressingModeType::Implied, 2u8)),
        0x19u8 => Some((Instruction::ORA, AddressingModeType::AbsoluteY, 4u8)),
        0x1Au8 => Some((Instruction::NOP, AddressingModeType::Implied, 2u8)),
        0x1Bu8 => Some((Instruction::SLO, AddressingModeType::AbsoluteY, 7u8)),
        0x1Cu8 => Some((Instruction::TOP, AddressingModeType::AbsoluteX, 4u8)),
        0x1Du8 => Some((Instruction::ORA, AddressingModeType::AbsoluteX, 4u8)),
        0x1Eu8 => Some((Instruction::ASL, AddressingModeType::AbsoluteX, 7u8)),
        0x1Fu8 => Some((Instruction::SLO, AddressingModeType::AbsoluteX, 7u8)),
        0x20u8 => Some((Instruction::JSR, AddressingModeType::Absolute, 6u8)),
        0x21u8 => Some((Instruction::AND, AddressingModeType::PreIndexedIndirect, 6u8)),
        0x23u8 => Some((Instruction::RLA, AddressingModeType::PreIndexedIndirect, 8u8)),
        0x24u8 => Some((Instruction::BIT, AddressingModeType::ZeroPage, 3u8)),
        0x25u8 => Some((Instruction::AND, AddressingModeType::ZeroPage, 3u8)),
        0x26u8 => Some((Instruction::ROL, AddressingModeType::ZeroPage, 5u8)),
        0x27u8 => Some((Instruction::RLA, AddressingModeType::ZeroPage, 5u8)),
        0x28u8 => Some((Instruction::PLP, AddressingModeType::Implied, 4u8)),
        0x29u8 => Some((Instruction::AND, AddressingModeType::Immediate, 2u8)),
        0x2Au8 => Some((Instruction::ROL, AddressingModeType::Accumulator, 2u8)),
        0x2Bu8 => Some((Instruction::ANC, AddressingModeType::Immediate, 2u8)),
        0x2Cu8 => Some((Instruction::BIT, AddressingModeType::Absolute, 4u8)),
        0x2Du8 => Some((Instruction::AND, AddressingModeType::Absolute, 4u8)),
        0x2Eu8 => Some((Instruction::ROL, AddressingModeType::Absolute, 6u8)),
        0x2Fu8 => Some((Instruction::RLA, AddressingModeType::Absolute, 6u8)),
        0x30u8 => Some((Instruction::BMI, AddressingModeType::Relative, 2u8)),
        0x31u8 => Some((Instruction::AND, AddressingModeType::PostIndexedIndirect, 5u8)),
        0x33u8 => Some((Instruction::RLA, AddressingModeType::PostIndexedIndirect, 8u8)),
        0x34u8 => Some((Instruction::DOP, AddressingModeType::ZeroPageX, 4u8)),
        0x35u8 => Some((Instruction::AND, AddressingModeType::ZeroPageX, 4u8)),
        0x36u8 => Some((Instruction::ROL, AddressingModeType::ZeroPageX, 6u8)),
        0x37u8 => Some((Instruction::RLA, AddressingModeType::ZeroPageX, 6u8)),
        0x38u8 => Some((Instruction::SEC, AddressingModeType::Implied, 2u8)),
        0x39u8 => Some((Instruction::AND, AddressingModeType::AbsoluteY, 4u8)),
        0x3Au8 => Some((Instruction::NOP, AddressingModeType::Implied, 2u8)),
        0x3Bu8 => Some((Instruction::RLA, AddressingModeType::AbsoluteY, 7u8)),
        0x3Cu8 => Some((Instruction::TOP, AddressingModeType::AbsoluteX, 4u8)),
        0x3Du8 => Some((Instruction::AND, AddressingModeType::AbsoluteX, 4u8)),
        0x3Eu8 => Some((Instruction::ROL, AddressingModeType::AbsoluteX, 7u8)),
        0x3Fu8 => Some((Instruction::RLA, AddressingModeType::AbsoluteX, 7u8)),
        0x40u8 => Some((Instruction::RTI, AddressingModeType::Implied, 6u8)),
        0x41u8 => Some((Instruction::EOR, AddressingModeType::PreIndexedIndirect, 6u8)),
        0x43u8 => Some((Instruction::SRE, AddressingModeType::PreIndexedIndirect, 8u8)),
        0x44u8 => Some((Instruction::DOP, AddressingModeType::ZeroPage, 3u8)),
        0x45u8 => Some((Instruction::EOR, AddressingModeType::ZeroPage, 3u8)),
        0x46u8 => Some((Instruction::LSR, AddressingModeType::ZeroPage, 5u8)),
        0x47u8 => Some((Instruction::SRE, AddressingModeType::ZeroPage, 5u8)),
        0x48u8 => Some((Instruction::PHA, AddressingModeType::Implied, 3u8)),
        0x49u8 => Some((Instruction::EOR, AddressingModeType::Immediate, 2u8)),
        0x4Au8 => Some((Instruction::LSR, AddressingModeType::Accumulator, 2u8)),
        0x4Bu8 => Some((Instruction::ALR, AddressingModeType::Immediate, 2u8)),
        0x4Cu8 => Some((Instruction::JMP, AddressingModeType::Absolute, 3u8)),
        0x4Du8 => Some((Instruction::EOR, AddressingModeType::Absolute, 4u8)),
        0x4Eu8 => Some((Instruction::LSR, AddressingModeType::Absolute, 6u8)),
        0x4Fu8 => Some((Instruction::SRE, AddressingModeType::Absolute, 6u8)),
        0x50u8 => Some((Instruction::BVC, AddressingModeType::Relative, 2u8)),
        0x51u8 => Some((Instruction::EOR, AddressingModeType::PostIndexedIndirect, 5u8)),
        0x53u8 => Some((Instruction::SRE, AddressingModeType::PostIndexedIndirect, 8u8)),
        0x54u8 => Some((Instruction::DOP, AddressingModeType::ZeroPageX, 4u8)),
        0x55u8 => Some((Instruction::EOR, AddressingModeType::ZeroPageX, 4u8)),
        0x56u8 => Some((Instruction::LSR, AddressingModeType::ZeroPageX, 6u8)),
        0x57u8 => Some((Instruction::SRE, AddressingModeType::ZeroPageX, 6u8)),
        0x58u8 => Some((Instruction::CLI, AddressingModeType::Implied, 2u8)),
        0x59u8 => Some((Instruction::EOR, AddressingModeType::AbsoluteY, 4u8)),
        0x5Au8 => Some((Instruction::NOP, AddressingModeType::Implied, 2u8)),
        0x5Bu8 => Some((Instruction::SRE, AddressingModeType::AbsoluteY, 7u8)),
        0x5Cu8 => Some((Instruction::TOP, AddressingModeType::AbsoluteX, 4u8)),
        0x5Du8 => Some((Instruction::EOR, AddressingModeType::AbsoluteX, 4u8)),
        0x5Eu8 => Some((Instruction::LSR, AddressingModeType::AbsoluteX, 7u8)),
        0x5Fu8 => Some((Instruction::SRE, AddressingModeType::AbsoluteX, 7u8)),
        0x60u8 => Some((Instruction::RTS, AddressingModeType::Implied, 6u8)),
        0x61u8 => Some((Instruction::ADC, AddressingModeType::PreIndexedIndirect, 6u8)),
        0x63u8 => Some((Instruction::RRA, AddressingModeType::PreIndexedIndirect, 8u8)),
        0x64u8 => Some((Instruction::DOP, AddressingModeType::ZeroPage, 3u8)),
        0x65u8 => Some((Instruction::ADC, AddressingModeType::ZeroPage, 3u8)),
        0x66u8 => Some((Instruction::ROR, AddressingModeType::ZeroPage, 5u8)),
        0x67u8 => Some((Instruction::RRA, AddressingModeType::ZeroPage, 5u8)),
        0x68u8 => Some((Instruction::PLA, AddressingModeType::Implied, 4u8)),
        0x69u8 => Some((Instruction::ADC, AddressingModeType::Immediate, 2u8)),
        0x6Au8 => Some((Instruction::ROR, AddressingModeType::Accumulator, 2u8)),
        0x6Bu8 => Some((Instruction::ARR, AddressingModeType::Immediate, 2u8)),
        0x6Cu8 => Some((Instruction::JMP, AddressingModeType::Indirect, 5u8)),
        0x6Du8 => Some((Instruction::ADC, AddressingModeType::Absolute, 4u8)),
        0x6Eu8 => Some((Instruction::ROR, AddressingModeType::Absolute, 6u8)),
        0x6Fu8 => Some((Instruction::RRA, AddressingModeType::Absolute, 6u8)),
        0x70u8 => Some((Instruction::BVS, AddressingModeType::Relative, 2u8)),
        0x71u8 => Some((Instruction::ADC, AddressingModeType::PostIndexedIndirect, 5u8)),
        0x73u8 => Some((Instruction::RRA, AddressingModeType::PostIndexedIndirect, 8u8)),
        0x74u8 => Some((Instruction::DOP, AddressingModeType::ZeroPageX, 4u8)),
        0x75u8 => Some((Instruction::ADC, AddressingModeType::ZeroPageX, 4u8)),
        0x76u8 => Some((Instruction::ROR, AddressingModeType::ZeroPageX, 6u8)),
        0x77u8 => Some((Instruction::RRA, AddressingModeType::ZeroPageX, 6u8)),
        0x78u8 => Some((Instruction::SEI, AddressingModeType::Implied, 2u8)),
        0x79u8 => Some((Instruction::ADC, AddressingModeType::AbsoluteY, 4u8)),
        0x7Au8 => Some((Instruction::NOP, AddressingModeType::Implied, 2u8)),
        0x7Bu8 => Some((Instruction::RRA, AddressingModeType::AbsoluteY, 7u8)),
        0x7Cu8 => Some((Instruction::TOP, AddressingModeType::AbsoluteX, 4u8)),
        0x7Du8 => Some((Instruction::ADC, AddressingModeType::AbsoluteX, 4u8)),
        0x7Eu8 => Some((Instruction::ROR, AddressingModeType::AbsoluteX, 7u8)),
        0x7Fu8 => Some((Instruction::RRA, AddressingModeType::AbsoluteX, 7u8)),
        0x80u8 => Some((Instruction::DOP, AddressingModeType::Immediate, 2u8)),
        0x81u8 => Some((Instruction::STA, AddressingModeType::PreIndexedIndirect, 6u8)),
        0x82u8 => Some((Instruction::DOP, AddressingModeType::Immediate, 2u8)),
        0x83u8 => Some((Instruction::SAX, AddressingModeType::PreIndexedIndirect, 6u8)),
        0x84u8 => Some((Instruction::STY, AddressingModeType::ZeroPage, 3u8)),
        0x85u8 => Some((Instruction::STA, AddressingModeType::ZeroPage, 3u8)),
        0x86u8 => Some((Instruction::STX, AddressingModeType::ZeroPage, 3u8)),
        0x87u8 => Some((Instruction::SAX, AddressingModeType::ZeroPage, 3u8)),
        0x88u8 => Some((Instruction::DEY, AddressingModeType::Implied, 2u8)),
        0x89u8 => Some((Instruction::DOP, AddressingModeType::Immediate, 2u8)),
        0x8Au8 => Some((Instruction::TXA, AddressingModeType::Implied, 2u8)),
        0x8Cu8 => Some((Instruction::STY, AddressingModeType::Absolute, 4u8)),
        0x8Du8 => Some((Instruction::STA, AddressingModeType::Absolute, 4u8)),
        0x8Eu8 => Some((Instruction::STX, AddressingModeType::Absolute, 4u8)),
        0x8Fu8 => Some((Instruction::SAX, AddressingModeType::Absolute, 4u8)),
        0x90u8 => Some((Instruction::BCC, AddressingModeType::Relative, 2u8)),
        0x91u8 => Some((Instruction::STA, AddressingModeType::PostIndexedIndirect, 6u8)),
        0x94u8 => Some((Instruction::STY, AddressingModeType::ZeroPageX, 4u8)),
        0x95u8 => Some((Instruction::STA, AddressingModeType::ZeroPageX, 4u8)),
        0x96u8 => Some((Instruction::STX, AddressingModeType::ZeroPageY, 4u8)),
        0x97u8 => Some((Instruction::SAX, AddressingModeType::ZeroPageY, 4u8)),
        0x98u8 => Some((Instruction::TYA, AddressingModeType::Implied, 2u8)),
        0x99u8 => Some((Instruction::STA, AddressingModeType::AbsoluteY, 5u8)),
        0x9Au8 => Some((Instruction::TXS, AddressingModeType::Implied, 2u8)),
        0x9Du8 => Some((Instruction::STA, AddressingModeType::AbsoluteX, 5u8)),
        0xA0u8 => Some((Instruction::LDY, AddressingModeType::Immediate, 2u8)),
        0xA1u8 => Some((Instruction::LDA, AddressingModeType::PreIndexedIndirect, 6u8)),
        0xA2u8 => Some((Instruction::LDX, AddressingModeType::Immediate, 2u8)),
        0xA3u8 => Some((Instruction::LAX, AddressingModeType::PreIndexedIndirect, 6u8)),
        0xA4u8 => Some((Instruction::LDY, AddressingModeType::ZeroPage, 3u8)),
        0xA5u8 => Some((Instruction::LDA, AddressingModeType::ZeroPage, 3u8)),
        0xA6u8 => Some((Instruction::LDX, AddressingModeType::ZeroPage, 3u8)),
        0xA7u8 => Some((Instruction::LAX, AddressingModeType::ZeroPage, 3u8)),
        0xA8u8 => Some((Instruction::TAY, AddressingModeType::Implied, 2u8)),
        0xA9u8 => Some((Instruction::LDA, AddressingModeType::Immediate, 2u8)),
        0xAAu8 => Some((Instruction::TAX, AddressingModeType::Implied, 2u8)),
        0xACu8 => Some((Instruction::LDY, AddressingModeType::Absolute, 4u8)),
        0xADu8 => Some((Instruction::LDA, AddressingModeType::Absolute, 4u8)),
        0xAEu8 => Some((Instruction::LDX, AddressingModeType::Absolute, 4u8)),
        0xAFu8 => Some((Instruction::LAX, AddressingModeType::Absolute, 4u8)),
        0xB0u8 => Some((Instruction::BCS, AddressingModeType::Relative, 2u8)),
        0xB1u8 => Some((Instruction::LDA, AddressingModeType::PostIndexedIndirect, 5u8)),
        0xB3u8 => Some((Instruction::LAX, AddressingModeType::PostIndexedIndirect, 5u8)),
        0xB4u8 => Some((Instruction::LDY, AddressingModeType::ZeroPageX, 4u8)),
        0xB5u8 => Some((Instruction::LDA, AddressingModeType::ZeroPageX, 4u8)),
        0xB6u8 => Some((Instruction::LDX, AddressingModeType::ZeroPageY, 4u8)),
        0xB7u8 => Some((Instruction::LAX, AddressingModeType::ZeroPageY, 4u8)),
        0xB8u8 => Some((Instruction::CLV, AddressingModeType::Implied, 2u8)),
        0xB9u8 => Some((Instruction::LDA, AddressingModeType::AbsoluteY, 4u8)),
        0xBAu8 => Some((Instruction::TSX, AddressingModeType::Implied, 2u8)),
        0xBCu8 => Some((Instruction::LDY, AddressingModeType::AbsoluteX, 4u8)),
        0xBDu8 => Some((Instruction::LDA, AddressingModeType::AbsoluteX, 4u8)),
        0xBEu8 => Some((Instruction::LDX, AddressingModeType::AbsoluteY, 4u8)),
        0xBFu8 => Some((Instruction::LAX, AddressingModeType::AbsoluteY, 4u8)),
        0xC0u8 => Some((Instruction::CPY, AddressingModeType::Immediate, 2u8)),
        0xC1u8 => Some((Instruction::CMP, AddressingModeType::PreIndexedIndirect, 6u8)),
        0xC2u8 => Some((Instruction::DOP, AddressingModeType::Immediate, 2u8)),
        0xC3u8 => Some((Instruction::DCP, AddressingModeType::PreIndexedIndirect, 8u8)),
        0xC4u8 => Some((Instruction::CPY, AddressingModeType::ZeroPage, 3u8)),
        0xC5u8 => Some((Instruction::CMP, AddressingModeType::ZeroPage, 3u8)),
        0xC6u8 => Some((Instruction::DEC, AddressingModeType::ZeroPage, 5u8)),
        0xC7u8 => Some((Instruction::DCP, AddressingModeType::ZeroPage, 5u8)),
        0xC8u8 => Some((Instruction::INY, AddressingModeType::Implied, 2u8)),
        0xC9u8 => Some((Instruction::CMP, AddressingModeType::Immediate, 2u8)),
        0xCAu8 => Some((Instruction::DEX, AddressingModeType::Implied, 2u8)),
        0xCCu8 => Some((Instruction::CPY, AddressingModeType::Absolute, 4u8)),
        0xCDu8 => Some((Instruction::CMP, AddressingModeType::Absolute, 4u8)),
        0xCEu8 => Some((Instruction::DEC, AddressingModeType::Absolute, 6u8)),
        0xCFu8 => Some((Instruction::DCP, AddressingModeType::Absolute, 6u8)),
        0xD0u8 => Some((Instruction::BNE, AddressingModeType::Relative, 2u8)),
        0xD1u8 => Some((Instruction::CMP, AddressingModeType::PostIndexedIndirect, 5u8)),
        0xD3u8 => Some((Instruction::DCP, AddressingModeType::PostIndexedIndirect, 8u8)),
        0xD4u8 => Some((Instruction::DOP, AddressingModeType::ZeroPageX, 4u8)),
        0xD5u8 => Some((Instruction::CMP, AddressingModeType::ZeroPageX, 4u8)),
        0xD6u8 => Some((Instruction::DEC, AddressingModeType::ZeroPageX, 6u8)),
        0xD7u8 => Some((Instruction::DCP, AddressingModeType::ZeroPageX, 6u8)),
        0xD8u8 => Some((Instruction::CLD, AddressingModeType::Implied, 2u8)),
        0xD9u8 => Some((Instruction::CMP, AddressingModeType::AbsoluteY, 4u8)),
        0xDAu8 => Some((Instruction::NOP, AddressingModeType::Implied, 2u8)),
        0xDBu8 => Some((Instruction::DCP, AddressingModeType::AbsoluteY, 7u8)),
        0xDCu8 => Some((Instruction::TOP, AddressingModeType::AbsoluteX, 4u8)),
        0xDDu8 => Some((Instruction::CMP, AddressingModeType::AbsoluteX, 4u8)),
        0xDEu8 => Some((Instruction::DEC, AddressingModeType::AbsoluteX, 7u8)),
        0xDFu8 => Some((Instruction::DCP, AddressingModeType::AbsoluteX, 7u8)),
        0xE0u8 => Some((Instruction::CPX, AddressingModeType::Immediate, 2u8)),
        0xE1u8 => Some((Instruction::SBC, AddressingModeType::PreIndexedIndirect, 6u8)),
        0xE2u8 => Some((Instruction::DOP, AddressingModeType::Immediate, 2u8)),
        0xE3u8 => Some((Instruction::ISC, AddressingModeType::PreIndexedIndirect, 8u8)),
        0xE4u8 => Some((Instruction::CPX, AddressingModeType::ZeroPage, 3u8)),
        0xE5u8 => Some((Instruction::SBC, AddressingModeType::ZeroPage, 3u8)),
        0xE6u8 => Some((Instruction::INC, AddressingModeType::ZeroPage, 5u8)),
        0xE7u8 => Some((Instruction::ISC, AddressingModeType::ZeroPage, 5u8)),
        0xE8u8 => Some((Instruction::INX, AddressingModeType::Implied, 2u8)),
        0xE9u8 => Some((Instruction::SBC, AddressingModeType::Immediate, 2u8)),
        0xEAu8 => Some((Instruction::NOP, AddressingModeType::Implied, 2u8)),
        0xECu8 => Some((Instruction::CPX, AddressingModeType::Absolute, 4u8)),
        0xEDu8 => Some((Instruction::SBC, AddressingModeType::Absolute, 4u8)),
        0xEEu8 => Some((Instruction::INC, AddressingModeType::Absolute, 6u8)),
        0xEFu8 => Some((Instruction::ISC, AddressingModeType::Absolute, 6u8)),
        0xF0u8 => Some((Instruction::BEQ, AddressingModeType::Relative, 2u8)),
        0xF1u8 => Some((Instruction::SBC, AddressingModeType::PostIndexedIndirect, 5u8)),
        0xF3u8 => Some((Instruction::ISC, AddressingModeType::PostIndexedIndirect, 8u8)),
        0xF4u8 => Some((Instruction::DOP, AddressingModeType::ZeroPageX, 4u8)),
        0xF5u8 => Some((Instruction::SBC, AddressingModeType::ZeroPageX, 4u8)),
        0xF6u8 => Some((Instruction::INC, AddressingModeType::ZeroPageX, 6u8)),
        0xF7u8 => Some((Instruction::ISC, AddressingModeType::ZeroPageX, 6u8)),
        0xF8u8 => Some((Instruction::SED, AddressingModeType::Implied, 2u8)),
        0xF9u8 => Some((Instruction::SBC, AddressingModeType::AbsoluteY, 4u8)),
        0xFAu8 => Some((Instruction::NOP, AddressingModeType::Implied, 2u8)),
        0xFBu8 => Some((Instruction::ISC, AddressingModeType::AbsoluteY, 7u8)),
        0xFCu8 => Some((Instruction::TOP, AddressingModeType::AbsoluteX, 4u8)),
        0xFDu8 => Some((Instruction::SBC, AddressingModeType::AbsoluteX, 4u8)),
        0xFEu8 => Some((Instruction::INC, AddressingModeType::AbsoluteX, 7u8)),
        0xFFu8 => Some((Instruction::ISC, AddressingModeType::AbsoluteX, 7u8)),
        _ => None,
    }
}

} // verus!
