//! The 6502 processor: registers, flags and the fetch/decode/execute step.
//!
//! The behaviour of one step is stated as `CpuState::spec_step`, a function
//! from the state before the step to the state after it and the number of
//! cycles taken, or `None` on the states where the step cannot be carried
//! out (a register or the program counter would leave its range, or a PPU
//! register access would fail).
use vstd::prelude::*;
use crate::bits::{lemma_byte, lemma_word};
use crate::cpu::addressing::{
    read_word, AbsoluteAddressing, AccumulatorAddressing, AddressingModeType, ImmediateAddressing,
    ImpliedAddressing, IndexedAbsoluteAddressing, IndexedZeroPageAddressing, IndirectAddressing,
    MySavior, PostIndexedIndirectAddressing, PreIndexedIndirectAddressing, RelativeAddressing,
    ZeroPageAddressing,
};
use crate::cpu::instructions::{decode_opcode, opcode_table, Instruction};
use crate::cpu::memory::{blank_state, cartridge_state, MemState, Memory};
use crate::rom::INesFile;

verus! {

#[allow(non_snake_case)]
pub struct Cpu {
    pub memory: Memory,
    /// Program counter: address of the next byte to execute.
    pub PC: u16,
    /// Stack pointer; the stack lives in $0100-$01FF and grows down.
    pub SP: u8,
    /// Accumulator.
    pub A: u8,
    pub X: u8,
    pub Y: u8,
    /// Carry.
    pub C: u8,
    /// Zero.
    pub Z: u8,
    /// Interrupt disable.
    pub I: u8,
    /// Decimal mode.
    pub D: u8,
    /// Overflow.
    pub V: u8,
    /// Negative.
    pub N: u8,
    /// Cycles executed so far.
    pub cycles: u64,
}

/// Mathematical view of [`Cpu`].
#[allow(non_snake_case)]
pub struct CpuState {
    pub mem: MemState,
    pub PC: u16,
    pub SP: u8,
    pub A: u8,
    pub X: u8,
    pub Y: u8,
    pub C: u8,
    pub Z: u8,
    pub I: u8,
    pub D: u8,
    pub V: u8,
    pub N: u8,
    pub cycles: u64,
}

impl View for Cpu {
    type V = CpuState;

    open spec fn view(&self) -> CpuState {
        CpuState {
            mem: self.memory@,
            PC: self.PC,
            SP: self.SP,
            A: self.A,
            X: self.X,
            Y: self.Y,
            C: self.C,
            Z: self.Z,
            I: self.I,
            D: self.D,
            V: self.V,
            N: self.N,
            cycles: self.cycles,
        }
    }
}

/// Registers at power on: PC at $8000, SP at $FD, everything else zero.
pub open spec fn power_on(mem: MemState) -> CpuState {
    CpuState {
        mem,
        PC: 0x8000,
        SP: 0xFD,
        A: 0,
        X: 0,
        Y: 0,
        C: 0,
        Z: 0,
        I: 0,
        D: 0,
        V: 0,
        N: 0,
        cycles: 0,
    }
}

/// Blank memory with `code` placed at $8000.
pub open spec fn program_ram(code: Seq<u8>) -> Seq<u8> {
    Seq::new(0x10000, |i: int| if 0x8000 <= i < 0x8000 + code.len() { code[i - 0x8000] } else { 0u8 })
}

/// Instructions that read an operand and only change registers.
pub open spec fn is_read_op(ins: Instruction) -> bool {
    match ins {
        Instruction::ADC | Instruction::SBC | Instruction::CMP | Instruction::CPX
        | Instruction::CPY | Instruction::AND | Instruction::EOR | Instruction::ORA
        | Instruction::LDA | Instruction::LDX | Instruction::LDY | Instruction::LAX
        | Instruction::BIT | Instruction::ANC | Instruction::ALR | Instruction::ARR => true,
        _ => false,
    }
}

/// Read-modify-write instructions.
pub open spec fn is_rmw_op(ins: Instruction) -> bool {
    match ins {
        Instruction::ASL | Instruction::LSR | Instruction::ROL | Instruction::ROR
        | Instruction::INC | Instruction::DEC | Instruction::DCP | Instruction::ISC
        | Instruction::RLA | Instruction::RRA | Instruction::SLO | Instruction::SRE => true,
        _ => false,
    }
}

pub open spec fn is_store_op(ins: Instruction) -> bool {
    match ins {
        Instruction::STA | Instruction::STX | Instruction::STY | Instruction::SAX => true,
        _ => false,
    }
}

pub open spec fn is_branch_op(ins: Instruction) -> bool {
    match ins {
        Instruction::BCC | Instruction::BCS | Instruction::BEQ | Instruction::BMI
        | Instruction::BNE | Instruction::BPL | Instruction::BVC | Instruction::BVS => true,
        _ => false,
    }
}

pub open spec fn is_control_op(ins: Instruction) -> bool {
    match ins {
        Instruction::JMP | Instruction::JSR | Instruction::RTS | Instruction::BRK
        | Instruction::RTI => true,
        _ => false,
    }
}


fn is_read(ins: Instruction) -> (r: bool)
    ensures
        r == is_read_op(ins),
{
    match ins {
        Instruction::ADC | Instruction::SBC | Instruction::CMP | Instruction::CPX
        | Instruction::CPY | Instruction::AND | Instruction::EOR | Instruction::ORA
        | Instruction::LDA | Instruction::LDX | Instruction::LDY | Instruction::LAX
        | Instruction::BIT | Instruction::ANC | Instruction::ALR | Instruction::ARR => true,
        _ => false,
    }
}

fn is_rmw(ins: Instruction) -> (r: bool)
    ensures
        r == is_rmw_op(ins),
{
    match ins {
        Instruction::ASL | Instruction::LSR | Instruction::ROL | Instruction::ROR
        | Instruction::INC | Instruction::DEC | Instruction::DCP | Instruction::ISC
        | Instruction::RLA | Instruction::RRA | Instruction::SLO | Instruction::SRE => true,
        _ => false,
    }
}

fn is_store(ins: Instruction) -> (r: bool)
    ensures
        r == is_store_op(ins),
{
    match ins {
        Instruction::STA | Instruction::STX | Instruction::STY | Instruction::SAX => true,
        _ => false,
    }
}

fn is_branch(ins: Instruction) -> (r: bool)
    ensures
        r == is_branch_op(ins),
{
    match ins {
        Instruction::BCC | Instruction::BCS | Instruction::BEQ | Instruction::BMI
        | Instruction::BNE | Instruction::BPL | Instruction::BVC | Instruction::BVS => true,
        _ => false,
    }
}

fn is_control(ins: Instruction) -> (r: bool)
    ensures
        r == is_control_op(ins),
{
    match ins {
        Instruction::JMP | Instruction::JSR | Instruction::RTS | Instruction::BRK
        | Instruction::RTI => true,
        _ => false,
    }
}

impl CpuState {
    pub open spec fn wf(self) -> bool {
        self.mem.wf()
    }

    /// Z and N set from `r`.
    pub open spec fn with_flags_of(self, r: u8) -> CpuState {
        CpuState { Z: if r == 0 { 1 } else { 0 }, N: r >> 7u8, ..self }
    }

    pub open spec fn with_mem(self, m: MemState) -> CpuState {
        CpuState { mem: m, ..self }
    }

    /// Status register as pushed by PHP and BRK (bits 5 and 4 set), as an
    /// integer: it fits in a byte when every flag is 0 or 1.
    pub open spec fn status_sum(self) -> int {
        (self.N << 7u8) as int + (self.V << 6u8) as int + 32 + 16 + (self.D << 3u8) as int
            + (self.I << 2u8) as int + (self.Z << 1u8) as int + self.C as int
    }

    /// Status register as shown in traces (bit 5 set, bit 4 clear).
    pub open spec fn debug_status_sum(self) -> int {
        (self.N << 7u8) as int + (self.V << 6u8) as int + 32 + (self.D << 3u8) as int
            + (self.I << 2u8) as int + (self.Z << 1u8) as int + self.C as int
    }

    /// Flags loaded from a status byte (bits 5 and 4 ignored).
    pub open spec fn with_status(self, b: u8) -> CpuState {
        CpuState {
            N: (b >> 7u8) & 1,
            V: (b >> 6u8) & 1,
            D: (b >> 3u8) & 1,
            I: (b >> 2u8) & 1,
            Z: (b >> 1u8) & 1,
            C: b & 1,
            ..self
        }
    }

    /// Byte at PC, and PC moved past it.
    pub open spec fn spec_advance(self) -> Option<(u8, CpuState)> {
        if self.PC == 0xFFFF {
            None
        } else {
            match self.mem.read(self.PC as int) {
                Some((b, m)) => Some((b, CpuState { mem: m, PC: (self.PC + 1) as u16, ..self })),
                None => None,
            }
        }
    }

    /// Two operand bytes, low byte first.
    pub open spec fn spec_advance2(self) -> Option<(u8, u8, CpuState)> {
        match self.spec_advance() {
            Some((lo, s1)) => match s1.spec_advance() {
                Some((hi, s2)) => Some((lo, hi, s2)),
                None => None,
            },
            None => None,
        }
    }

    /// Reads the operand bytes of `mode` and builds the addressing mode.
    pub open spec fn spec_operand(self, mode: AddressingModeType) -> Option<(MySavior, CpuState)> {
        match mode {
            AddressingModeType::Accumulator => Some((
                MySavior::Accumulator(AccumulatorAddressing { accumulator: self.A }),
                self,
            )),
            AddressingModeType::Implied => Some((MySavior::Implied(ImpliedAddressing {}), self)),
            AddressingModeType::Immediate => match self.spec_advance() {
                Some((b, s)) => Some((MySavior::Immediate(ImmediateAddressing { value: b }), s)),
                None => None,
            },
            AddressingModeType::ZeroPage => match self.spec_advance() {
                Some((b, s)) => Some((MySavior::ZeroPage(ZeroPageAddressing { address: b }), s)),
                None => None,
            },
            AddressingModeType::ZeroPageX => match self.spec_advance() {
                Some((b, s)) => Some((
                    MySavior::IndexedZeroPage(IndexedZeroPageAddressing { address: b, offset: s.X }),
                    s,
                )),
                None => None,
            },
            AddressingModeType::ZeroPageY => match self.spec_advance() {
                Some((b, s)) => Some((
                    MySavior::IndexedZeroPage(IndexedZeroPageAddressing { address: b, offset: s.Y }),
                    s,
                )),
                None => None,
            },
            AddressingModeType::Relative => match self.spec_advance() {
                Some((b, s)) => Some((MySavior::Relative(RelativeAddressing { offset: b }), s)),
                None => None,
            },
            AddressingModeType::Absolute => match self.spec_advance2() {
                Some((lo, hi, s)) => Some((
                    MySavior::Absolute(AbsoluteAddressing { address: (hi * 256 + lo) as u16 }),
                    s,
                )),
                None => None,
            },
            AddressingModeType::AbsoluteX => match self.spec_advance2() {
                Some((lo, hi, s)) => Some((
                    MySavior::IndexedAbsolute(
                        IndexedAbsoluteAddressing { address: (hi * 256 + lo) as u16, offset: s.X },
                    ),
                    s,
                )),
                None => None,
            },
            AddressingModeType::AbsoluteY => match self.spec_advance2() {
                Some((lo, hi, s)) => Some((
                    MySavior::IndexedAbsolute(
                        IndexedAbsoluteAddressing { address: (hi * 256 + lo) as u16, offset: s.Y },
                    ),
                    s,
                )),
                None => None,
            },
            AddressingModeType::Indirect => match self.spec_advance2() {
                Some((lo, hi, s)) => Some((
                    MySavior::Indirect(IndirectAddressing { lsb_location: (hi * 256 + lo) as u16 }),
                    s,
                )),
                None => None,
            },
            AddressingModeType::PreIndexedIndirect => match self.spec_advance() {
                Some((b, s)) => Some((
                    MySavior::PreIndexedIndirect(PreIndexedIndirectAddressing { address: b, offset: s.X }),
                    s,
                )),
                None => None,
            },
            AddressingModeType::PostIndexedIndirect => match self.spec_advance() {
                Some((b, s)) => Some((
                    MySavior::PostIndexedIndirect(PostIndexedIndirectAddressing { address: b, offset: s.Y }),
                    s,
                )),
                None => None,
            },
            _ => None,
        }
    }

    /// `A + rhs + C`: carry out of bit 7, signed overflow when both operands
    /// have the same sign and the result has the other.
    pub open spec fn spec_adc(self, rhs: u8) -> CpuState {
        let sum = self.A + rhs + self.C;
        let result = (sum % 256) as u8;
        CpuState {
            C: (sum / 256) as u8,
            V: if (rhs ^ self.A) >> 7u8 == 0 && (rhs ^ result) >> 7u8 == 1 { 1 } else { 0 },
            A: result,
            ..self.with_flags_of(result)
        }
    }

    /// Compare: C set when `reg >= m`, Z and N from `reg - m` modulo 256.
    pub open spec fn spec_compare(self, reg: u8, m: u8) -> CpuState {
        CpuState { C: if reg < m { 0 } else { 1 }, ..self.with_flags_of(((reg - m) % 256) as u8) }
    }

    /// Effect of a read instruction given its operand `v`.
    pub open spec fn apply_read(self, ins: Instruction, v: u8) -> CpuState {
        match ins {
            Instruction::ADC => self.spec_adc(v),
            Instruction::SBC => self.spec_adc(!v),
            Instruction::CMP => self.spec_compare(self.A, v),
            Instruction::CPX => self.spec_compare(self.X, v),
            Instruction::CPY => self.spec_compare(self.Y, v),
            Instruction::AND => CpuState { A: self.A & v, ..self.with_flags_of(self.A & v) },
            Instruction::EOR => CpuState { A: self.A ^ v, ..self.with_flags_of(self.A ^ v) },
            Instruction::ORA => CpuState { A: self.A | v, ..self.with_flags_of(self.A | v) },
            Instruction::LDA => CpuState { A: v, ..self.with_flags_of(v) },
            Instruction::LDX => CpuState { X: v, ..self.with_flags_of(v) },
            Instruction::LDY => CpuState { Y: v, ..self.with_flags_of(v) },
            Instruction::LAX => CpuState { A: v, X: v, ..self.with_flags_of(v) },
            Instruction::BIT => CpuState {
                Z: if v & self.A == 0 { 1 } else { 0 },
                V: (v >> 6u8) & 1,
                N: (v >> 7u8) & 1,
                ..self
            },
            Instruction::ANC => {
                let s = self.with_flags_of(self.A & v);
                CpuState { C: s.N, ..s }
            },
            Instruction::ALR => {
                let r = (self.A & v) >> 1u8;
                CpuState { C: (self.A & v) & 1, A: r, ..self.with_flags_of(r) }
            },
            Instruction::ARR => {
                let r = ((v & self.A) >> 1u8) | (self.C << 7u8);
                CpuState {
                    C: (r >> 6u8) & 1,
                    V: ((r >> 6u8) ^ (r >> 5u8)) & 1,
                    A: r,
                    ..self.with_flags_of(r)
                }
            },
            _ => self,
        }
    }

    pub open spec fn spec_read_op(self, ins: Instruction, am: MySavior) -> Option<CpuState> {
        match am.spec_fetch(self.mem) {
            Some((v, m)) => Some(self.with_mem(m).apply_read(ins, v)),
            None => None,
        }
    }

    /// Stores `r` through the addressing mode.
    pub open spec fn spec_store(self, am: MySavior, r: u8) -> Option<CpuState> {
        match am.spec_set(self.mem, r) {
            Some(m) => Some(self.with_mem(m)),
            None => None,
        }
    }

    /// Stores `r` in A for the accumulator mode, else through the mode.
    pub open spec fn store_or_acc(self, am: MySavior, r: u8) -> Option<CpuState> {
        if am.spec_mode_type() == AddressingModeType::Accumulator {
            Some(CpuState { A: r, ..self })
        } else {
            self.spec_store(am, r)
        }
    }

    /// Value a read-modify-write instruction stores, given the operand.
    pub open spec fn rmw_value(self, ins: Instruction, v: u8) -> u8 {
        match ins {
            Instruction::ASL | Instruction::SLO => v << 1u8,
            Instruction::LSR | Instruction::SRE => v >> 1u8,
            Instruction::ROL | Instruction::RLA => (v << 1u8) | (self.C & 1),
            Instruction::ROR | Instruction::RRA => (v >> 1u8) | (self.C << 7u8),
            Instruction::INC | Instruction::ISC => ((v + 1) % 256) as u8,
            _ => ((v - 1) % 256) as u8,
        }
    }

    /// Carry after a shift or rotate of `v`; unchanged for the others.
    pub open spec fn rmw_carry(self, ins: Instruction, v: u8) -> u8 {
        match ins {
            Instruction::ASL | Instruction::SLO | Instruction::ROL | Instruction::RLA => v >> 7u8,
            Instruction::LSR | Instruction::SRE | Instruction::ROR | Instruction::RRA => v & 1,
            _ => self.C,
        }
    }

    /// Register effect of a read-modify-write instruction once `r` is stored.
    pub open spec fn rmw_finish(self, ins: Instruction, r: u8) -> CpuState {
        match ins {
            Instruction::DCP => self.spec_compare(self.A, r),
            Instruction::ISC => self.with_flags_of(r).spec_adc(!r),
            Instruction::RLA => CpuState { A: self.A & r, ..self.with_flags_of(self.A & r) },
            Instruction::RRA => self.with_flags_of(r).spec_adc(r),
            Instruction::SLO => CpuState { A: self.A | r, ..self.with_flags_of(self.A | r) },
            Instruction::SRE => CpuState { A: self.A ^ r, ..self.with_flags_of(self.A ^ r) },
            _ => self.with_flags_of(r),
        }
    }

    pub open spec fn spec_rmw_op(self, ins: Instruction, am: MySavior) -> Option<CpuState> {
        match am.spec_fetch(self.mem) {
            Some((v, m)) => {
                let s = self.with_mem(m);
                let r = s.rmw_value(ins, v);
                let s1 = CpuState { C: s.rmw_carry(ins, v), ..s };
                let stored = match ins {
                    Instruction::ASL | Instruction::LSR | Instruction::ROL | Instruction::ROR =>
                        s1.store_or_acc(am, r),
                    _ => s1.spec_store(am, r),
                };
                match stored {
                    Some(s2) => Some(s2.rmw_finish(ins, r)),
                    None => None,
                }
            },
            None => None,
        }
    }

    pub open spec fn spec_store_op(self, ins: Instruction, am: MySavior) -> Option<CpuState> {
        let v = match ins {
            Instruction::STA => self.A,
            Instruction::STX => self.X,
            Instruction::STY => self.Y,
            _ => self.A & self.X,
        };
        self.spec_store(am, v)
    }

    pub open spec fn branch_taken(self, ins: Instruction) -> bool {
        match ins {
            Instruction::BCC => self.C == 0,
            Instruction::BCS => self.C != 0,
            Instruction::BEQ => self.Z != 0,
            Instruction::BMI => self.N != 0,
            Instruction::BNE => self.Z == 0,
            Instruction::BPL => self.N == 0,
            Instruction::BVC => self.V == 0,
            _ => self.V != 0,
        }
    }

    /// Branch target of a signed `offset` from PC.
    pub open spec fn branch_target(self, offset: u8) -> int {
        if offset >= 128 { self.PC - (256 - offset) } else { self.PC + offset }
    }

    /// A taken branch costs one more cycle, two when it lands in another page.
    pub open spec fn spec_branch_op(self, ins: Instruction, am: MySavior) -> Option<(CpuState, u8)> {
        match am.spec_fetch(self.mem) {
            Some((offset, m)) => {
                let s = self.with_mem(m);
                if !s.branch_taken(ins) {
                    Some((s, 0u8))
                } else {
                    let target = s.branch_target(offset);
                    if 0 <= target <= 0xFFFF {
                        Some((
                            CpuState { PC: target as u16, ..s },
                            if s.PC / 256 != target / 256 { 2u8 } else { 1u8 },
                        ))
                    } else {
                        None
                    }
                }
            },
            None => None,
        }
    }

    /// Pushes `v` at $0100 + SP, then decrements SP.
    pub open spec fn spec_push(self, v: u8) -> Option<CpuState> {
        if self.SP == 0 {
            None
        } else {
            match self.mem.write(0x100 + self.SP, v) {
                Some(m) => Some(CpuState { mem: m, SP: (self.SP - 1) as u8, ..self }),
                None => None,
            }
        }
    }

    /// Increments SP, then reads the byte at $0100 + SP.
    pub open spec fn spec_pull(self) -> Option<(u8, CpuState)> {
        if self.SP == 255 {
            None
        } else {
            match self.mem.read(0x100 + self.SP + 1) {
                Some((v, m)) => Some((v, CpuState { mem: m, SP: (self.SP + 1) as u8, ..self })),
                None => None,
            }
        }
    }

    /// Pushes the 16-bit `w`, high byte first.
    pub open spec fn spec_push16(self, w: int) -> Option<CpuState> {
        match self.spec_push((w / 256) as u8) {
            Some(s) => s.spec_push((w % 256) as u8),
            None => None,
        }
    }

    /// Pulls a 16-bit word, low byte first.
    pub open spec fn spec_pull16(self) -> Option<(int, CpuState)> {
        match self.spec_pull() {
            Some((lo, s1)) => match s1.spec_pull() {
                Some((hi, s2)) => Some((hi * 256 + lo, s2)),
                None => None,
            },
            None => None,
        }
    }

    /// JSR: pushes the address of the last byte of the instruction, then jumps.
    pub open spec fn spec_jsr(self, am: MySavior) -> Option<CpuState> {
        if self.PC == 0 {
            None
        } else {
            match self.spec_push16(self.PC - 1) {
                Some(s) => match am.spec_fetch16(s.mem) {
                    Some((t, m)) => Some(CpuState { PC: t, mem: m, ..s }),
                    None => None,
                },
                None => None,
            }
        }
    }

    /// RTS: pulls the return address and continues just after it.
    pub open spec fn spec_rts(self) -> Option<CpuState> {
        match self.spec_pull16() {
            Some((w, s)) => if w + 1 <= 0xFFFF { Some(CpuState { PC: (w + 1) as u16, ..s }) } else { None },
            None => None,
        }
    }

    /// BRK: pushes PC and the status, then jumps through the vector read at
    /// $FFFD/$FFFE.
    pub open spec fn spec_brk(self) -> Option<CpuState> {
        if self.status_sum() > 255 {
            None
        } else {
            match self.spec_push16(self.PC as int) {
                Some(s1) => match s1.spec_push(self.status_sum() as u8) {
                    Some(s2) => match read_word(s2.mem, 0xFFFD, 0xFFFE) {
                        Some((t, m)) => Some(CpuState { PC: t, mem: m, ..s2 }),
                        None => None,
                    },
                    None => None,
                },
                None => None,
            }
        }
    }

    /// RTI: pulls the status, then the return address.
    pub open spec fn spec_rti(self) -> Option<CpuState> {
        match self.spec_pull() {
            Some((flags, s1)) => match s1.with_status(flags).spec_pull16() {
                Some((w, s2)) => Some(CpuState { PC: w as u16, ..s2 }),
                None => None,
            },
            None => None,
        }
    }

    pub open spec fn spec_control_op(self, ins: Instruction, am: MySavior) -> Option<CpuState> {
        match ins {
            Instruction::JMP => match am.spec_fetch16(self.mem) {
                Some((t, m)) => Some(CpuState { PC: t, mem: m, ..self }),
                None => None,
            },
            Instruction::JSR => self.spec_jsr(am),
            Instruction::RTS => self.spec_rts(),
            Instruction::BRK => self.spec_brk(),
            _ => self.spec_rti(),
        }
    }

    /// Instructions that only touch registers, flags and the stack.
    pub open spec fn spec_register_op(self, ins: Instruction) -> Option<CpuState> {
        match ins {
            Instruction::CLC => Some(CpuState { C: 0, ..self }),
            Instruction::CLD => Some(CpuState { D: 0, ..self }),
            Instruction::CLI => Some(CpuState { I: 0, ..self }),
            Instruction::CLV => Some(CpuState { V: 0, ..self }),
            Instruction::SEC => Some(CpuState { C: 1, ..self }),
            Instruction::SED => Some(CpuState { D: 1, ..self }),
            Instruction::SEI => Some(CpuState { I: 1, ..self }),
            Instruction::TAX => Some(CpuState { X: self.A, ..self.with_flags_of(self.A) }),
            Instruction::TAY => Some(CpuState { Y: self.A, ..self.with_flags_of(self.A) }),
            Instruction::TXA => Some(CpuState { A: self.X, ..self.with_flags_of(self.X) }),
            Instruction::TYA => Some(CpuState { A: self.Y, ..self.with_flags_of(self.Y) }),
            Instruction::TSX => Some(CpuState { X: self.SP, ..self.with_flags_of(self.SP) }),
            Instruction::TXS => Some(CpuState { SP: self.X, ..self }),
            Instruction::INX => {
                let r = ((self.X + 1) % 256) as u8;
                Some(CpuState { X: r, ..self.with_flags_of(r) })
            },
            Instruction::INY => {
                let r = ((self.Y + 1) % 256) as u8;
                Some(CpuState { Y: r, ..self.with_flags_of(r) })
            },
            Instruction::DEX => {
                let r = ((self.X - 1) % 256) as u8;
                Some(CpuState { X: r, ..self.with_flags_of(r) })
            },
            Instruction::DEY => {
                let r = ((self.Y - 1) % 256) as u8;
                Some(CpuState { Y: r, ..self.with_flags_of(r) })
            },
            Instruction::PHA | Instruction::PLA | Instruction::PHP | Instruction::PLP =>
                self.spec_stack_op(ins),
            _ => Some(self),
        }
    }

    /// PHA, PLA, PHP and PLP.
    pub open spec fn spec_stack_op(self, ins: Instruction) -> Option<CpuState> {
        match ins {
            Instruction::PHA => self.spec_push(self.A),
            Instruction::PLA => match self.spec_pull() {
                Some((v, s)) => Some(CpuState { A: v, ..s.with_flags_of(v) }),
                None => None,
            },
            Instruction::PHP => if self.status_sum() > 255 {
                None
            } else {
                self.spec_push(self.status_sum() as u8)
            },
            _ => match self.spec_pull() {
                Some((v, s)) => Some(s.with_status(v)),
                None => None,
            },
        }
    }

    /// Effect of `ins` with its decoded addressing mode, and the cycles a
    /// taken branch adds.
    pub open spec fn spec_execute(self, ins: Instruction, am: MySavior) -> Option<(CpuState, u8)> {
        if is_branch_op(ins) {
            self.spec_branch_op(ins, am)
        } else {
            let r = if is_read_op(ins) {
                self.spec_read_op(ins, am)
            } else if is_rmw_op(ins) {
                self.spec_rmw_op(ins, am)
            } else if is_store_op(ins) {
                self.spec_store_op(ins, am)
            } else if is_control_op(ins) {
                self.spec_control_op(ins, am)
            } else {
                self.spec_register_op(ins)
            };
            match r {
                Some(s) => Some((s, 0u8)),
                None => None,
            }
        }
    }

    /// One instruction: fetch the opcode, decode the operand, execute, and
    /// count the cycles (base cost, page-crossing cost, branch cost). An
    /// unknown opcode is skipped and takes no cycle.
    #[verifier::opaque]
    pub open spec fn spec_step(self) -> Option<(CpuState, u8)> {
        match self.spec_advance() {
            Some((opcode, s1)) => match opcode_table(opcode) {
                None => Some((s1, 0u8)),
                Some((ins, mode, cost)) => match s1.spec_operand(mode) {
                    Some((am, s2)) => match s2.spec_execute(ins, am) {
                        Some((s3, again)) => {
                            let total = am.spec_extra_cycles() + cost + again;
                            if s3.cycles + total <= u64::MAX {
                                Some((CpuState { cycles: (s3.cycles + total) as u64, ..s3 }, total as u8))
                            } else {
                                None
                            }
                        },
                        None => None,
                    },
                    None => None,
                },
            },
            None => None,
        }
    }
}

impl Cpu {
    pub open spec fn wf(&self) -> bool {
        self.memory.wf()
    }

    /// A CPU running `code`, placed at $8000, with blank memory.
    pub fn new(code: Vec<u8>) -> (r: Cpu)
        requires
            code.len() <= 0x8000,
        ensures
            r.wf(),
            r@ == power_on(MemState { ram: program_ram(code@), ..blank_state() }),
    {
        let mut memory: Memory = Default::default();
        let mut i: usize = 0;
        while i < code.len()
            invariant
                i <= code@.len() <= 0x8000,
                memory.ppu_mem@ == blank_state().ppu,
                memory.joypad_p1 == blank_state().joypad_p1,
                memory.joypad_p2 == blank_state().joypad_p2,
                memory.apu_mem == blank_state().apu,
                memory.mem@.len() == 0x10000,
                forall|j: int| 0 <= j < 0x10000 ==> #[trigger] memory.mem@[j]
                    == if 0x8000 <= j < 0x8000 + i { code@[j - 0x8000] } else { 0u8 },
            decreases code@.len() - i,
        {
            memory.mem.set(0x8000 + i, code[i]);
            i = i + 1;
        }
        proof {
            assert(memory.mem@ =~= program_ram(code@));
        }
        Cpu {
            memory,
            PC: 0x8000,
            SP: 0xFD,
            A: 0,
            X: 0,
            Y: 0,
            C: 0,
            Z: 0,
            I: 0,
            D: 0,
            V: 0,
            N: 0,
            cycles: 0,
        }
    }

    /// A CPU running the cartridge `ines`.
    pub fn create(ines: &INesFile) -> (r: Cpu)
        requires
            ines.pages_consistent(),
            ines.spec_prg_pages() >= 1,
        ensures
            r.wf(),
            r@ == power_on(cartridge_state(ines)),
    {
        let memory = match Memory::new(ines) {
            Ok(m) => m,
            Err(_) => {
                proof {
                    assert(false);
                }
                Default::default()
            },
        };
        Cpu {
            memory,
            PC: 0x8000,
            SP: 0xFD,
            A: 0,
            X: 0,
            Y: 0,
            C: 0,
            Z: 0,
            I: 0,
            D: 0,
            V: 0,
            N: 0,
            cycles: 0,
        }
    }

    pub fn get_acc(&self) -> (r: u8)
        ensures
            r == self.A,
    {
        self.A
    }

    pub fn get_regx(&self) -> (r: u8)
        ensures
            r == self.X,
    {
        self.X
    }

    pub fn get_regy(&self) -> (r: u8)
        ensures
            r == self.Y,
    {
        self.Y
    }

    pub fn get_pc(&self) -> (r: u16)
        ensures
            r == self.PC,
    {
        self.PC
    }

    pub fn set_pc(&mut self, pc: u16)
        ensures
            final(self)@ == (CpuState { PC: pc, ..old(self)@ }),
    {
        self.PC = pc;
    }

    fn push(&mut self, value: u8)
        requires
            old(self).wf(),
            old(self)@.spec_push(value) is Some,
        ensures
            final(self).wf(),
            old(self)@.spec_push(value) == Some(final(self)@),
    {
        let addr = 0x0100 + (self.SP as u16);
        self.memory.set(addr as usize, value);
        self.SP = self.SP - 1;
    }

    fn pull(&mut self) -> (r: u8)
        requires
            old(self).wf(),
            old(self)@.spec_pull() is Some,
        ensures
            final(self).wf(),
            old(self)@.spec_pull() == Some((r, final(self)@)),
    {
        self.SP = self.SP + 1;
        let addr = 0x0100 + (self.SP as u16);
        self.memory.get(addr as usize)
    }

    fn flags_to_u8(&self) -> (r: u8)
        requires
            self@.status_sum() <= 255,
        ensures
            r == self@.status_sum(),
    {
        (self.N << 7u8) + (self.V << 6u8) + 32u8 + 16u8 + (self.D << 3u8) + (self.I << 2u8)
            + (self.Z << 1u8) + self.C
    }

    /// Status byte as shown in traces: bit 5 set, bit 4 clear.
    pub fn flags_to_u8_debug(&self) -> (r: u8)
        requires
            self@.debug_status_sum() <= 255,
        ensures
            r == self@.debug_status_sum(),
    {
        (self.N << 7u8) + (self.V << 6u8) + 32u8 + (self.D << 3u8) + (self.I << 2u8)
            + (self.Z << 1u8) + self.C
    }

    fn u8_to_flags(&mut self, b: u8)
        ensures
            final(self)@ == old(self)@.with_status(b),
    {
        self.N = (b >> 7u8) & 1u8;
        self.V = (b >> 6u8) & 1u8;
        self.D = (b >> 3u8) & 1u8;
        self.I = (b >> 2u8) & 1u8;
        self.Z = (b >> 1u8) & 1u8;
        self.C = b & 1u8;
    }

    /// Sets Z when `result` is 0 and N to its bit 7.
    fn set_result_flags(&mut self, result: u8)
        ensures
            final(self)@ == old(self)@.with_flags_of(result),
    {
        if result == 0 {
            self.Z = 1;
        } else {
            self.Z = 0;
        }
        self.N = result >> 7u8;
    }

    /// Byte at PC; PC moves on.
    pub fn advance(&mut self) -> (r: u8)
        requires
            old(self).wf(),
            old(self)@.spec_advance() is Some,
        ensures
            final(self).wf(),
            old(self)@.spec_advance() == Some((r, final(self)@)),
    {
        let code = self.memory.get(self.PC as usize);
        self.PC = self.PC + 1;
        code
    }

    fn adc(&mut self, rhs: u8)
        ensures
            final(self)@ == old(self)@.spec_adc(rhs),
    {
        let sum: u16 = (self.A as u16) + (rhs as u16) + (self.C as u16);
        proof {
            lemma_word(sum);
        }
        let result = (sum & 0xFF) as u8;
        self.C = (sum >> 8u16) as u8;
        let a = self.A;
        self.set_result_flags(result);
        if ((rhs ^ a) >> 7u8 == 0) && ((rhs ^ result) >> 7u8 == 1) {
            self.V = 1;
        } else {
            self.V = 0;
        }
        self.A = result;
    }

    fn compare(&mut self, reg: u8, m: u8)
        ensures
            final(self)@ == old(self)@.spec_compare(reg, m),
    {
        let result = reg.wrapping_sub(m);
        if reg < m {
            self.C = 0;
        } else {
            self.C = 1;
        }
        self.set_result_flags(result);
    }

    /// Stores `r` in A for the accumulator mode, else through the mode.
    fn store_or_acc(&mut self, am: &MySavior, r: u8)
        requires
            old(self).wf(),
            old(self)@.store_or_acc(*am, r) is Some,
        ensures
            final(self).wf(),
            old(self)@.store_or_acc(*am, r) == Some(final(self)@),
    {
        match am.mode_type() {
            AddressingModeType::Accumulator => self.A = r,
            _ => am.set(&mut self.memory, r),
        }
    }

    fn exec_read(&mut self, ins: Instruction, am: &MySavior)
        requires
            old(self).wf(),
            is_read_op(ins),
            old(self)@.spec_read_op(ins, *am) is Some,
        ensures
            final(self).wf(),
            old(self)@.spec_read_op(ins, *am) == Some(final(self)@),
    {
        let v = am.fetch(&mut self.memory);
        self.apply_read(ins, v);
    }

    /// Register effect of a read instruction whose operand is `v`.
    fn apply_read(&mut self, ins: Instruction, v: u8)
        requires
            is_read_op(ins),
        ensures
            final(self)@ == old(self)@.apply_read(ins, v),
    {
        match ins {
            Instruction::ADC => self.adc(v),
            Instruction::SBC => self.adc(!v),
            Instruction::CMP => {
                let a = self.A;
                self.compare(a, v);
            },
            Instruction::CPX => {
                let x = self.X;
                self.compare(x, v);
            },
            Instruction::CPY => {
                let y = self.Y;
                self.compare(y, v);
            },
            Instruction::AND => {
                let result = self.A & v;
                self.set_result_flags(result);
                self.A = result;
            },
            Instruction::EOR => {
                let result = self.A ^ v;
                self.set_result_flags(result);
                self.A = result;
            },
            Instruction::ORA => {
                let result = self.A | v;
                self.set_result_flags(result);
                self.A = result;
            },
            Instruction::LDA => {
                self.A = v;
                self.set_result_flags(v);
            },
            Instruction::LDX => {
                self.X = v;
                self.set_result_flags(v);
            },
            Instruction::LDY => {
                self.Y = v;
                self.set_result_flags(v);
            },
            Instruction::LAX => {
                self.X = v;
                self.A = v;
                self.set_result_flags(v);
            },
            Instruction::BIT => {
                let result = v & self.A;
                if result == 0 {
                    self.Z = 1;
                } else {
                    self.Z = 0;
                }
                self.V = (v >> 6u8) & 1;
                self.N = (v >> 7u8) & 1;
            },
            Instruction::ANC => {
                let result = self.A & v;
                self.set_result_flags(result);
                self.C = self.N;
            },
            Instruction::ALR => {
                let before_shift = self.A & v;
                self.C = before_shift & 1;
                let result = before_shift >> 1u8;
                self.A = result;
                self.set_result_flags(result);
            },
            _ => {
                // ARR: AND, rotate right, then C and V from bits 6 and 5.
                let and_result = v & self.A;
                let result = (and_result >> 1u8) | (self.C << 7u8);
                self.C = and_result & 1;
                let sixth_bit = (result >> 6u8) & 1;
                let fifth_bit = (result >> 5u8) & 1;
                proof {
                    lemma_byte(result);
                }
                if sixth_bit == 1 && fifth_bit == 1 {
                    self.C = 1;
                    self.V = 0;
                } else if sixth_bit == 0 && fifth_bit == 0 {
                    self.C = 0;
                    self.V = 0;
                } else if sixth_bit == 0 && fifth_bit == 1 {
                    self.V = 1;
                    self.C = 0;
                } else {
                    self.V = 1;
                    self.C = 1;
                }
                self.set_result_flags(result);
                self.A = result;
            },
        }
    }

    fn exec_rmw(&mut self, ins: Instruction, am: &MySavior)
        requires
            old(self).wf(),
            is_rmw_op(ins),
            old(self)@.spec_rmw_op(ins, *am) is Some,
        ensures
            final(self).wf(),
            old(self)@.spec_rmw_op(ins, *am) == Some(final(self)@),
    {
        let v = am.fetch(&mut self.memory);
        let result = self.rmw_value(ins, v);
        self.C = self.rmw_carry(ins, v);
        match ins {
            Instruction::ASL | Instruction::LSR | Instruction::ROL | Instruction::ROR => {
                self.store_or_acc(am, result)
            },
            _ => am.set(&mut self.memory, result),
        }
        self.rmw_finish(ins, result);
    }

    /// Value stored by a read-modify-write instruction whose operand is `v`.
    fn rmw_value(&self, ins: Instruction, v: u8) -> (r: u8)
        requires
            is_rmw_op(ins),
        ensures
            r == self@.rmw_value(ins, v),
    {
        match ins {
            Instruction::ASL | Instruction::SLO => v << 1u8,
            Instruction::LSR | Instruction::SRE => v >> 1u8,
            Instruction::ROL | Instruction::RLA => (v << 1u8) | (self.C & 1),
            Instruction::ROR | Instruction::RRA => (v >> 1u8) | (self.C << 7u8),
            Instruction::INC | Instruction::ISC => v.wrapping_add(1),
            _ => v.wrapping_sub(1),
        }
    }

    /// Carry after a shift or rotate of `v`; unchanged for the others.
    fn rmw_carry(&self, ins: Instruction, v: u8) -> (r: u8)
        ensures
            r == self@.rmw_carry(ins, v),
    {
        match ins {
            Instruction::ASL | Instruction::SLO | Instruction::ROL | Instruction::RLA => v >> 7u8,
            Instruction::LSR | Instruction::SRE | Instruction::ROR | Instruction::RRA => v & 1,
            _ => self.C,
        }
    }

    /// Register effect of a read-modify-write instruction once `result` is stored.
    fn rmw_finish(&mut self, ins: Instruction, result: u8)
        ensures
            final(self)@ == old(self)@.rmw_finish(ins, result),
    {
        match ins {
            Instruction::DCP => {
                let a = self.A;
                self.compare(a, result);
            },
            Instruction::ISC => {
                self.set_result_flags(result);
                self.adc(!result);
            },
            Instruction::RLA => {
                let and_result = self.A & result;
                self.set_result_flags(and_result);
                self.A = and_result;
            },
            Instruction::RRA => {
                self.set_result_flags(result);
                self.adc(result);
            },
            Instruction::SLO => {
                let or_result = self.A | result;
                self.A = or_result;
                self.set_result_flags(or_result);
            },
            Instruction::SRE => {
                let eor_result = self.A ^ result;
                self.set_result_flags(eor_result);
                self.A = eor_result;
            },
            _ => self.set_result_flags(result),
        }
    }

    fn exec_store(&mut self, ins: Instruction, am: &MySavior)
        requires
            old(self).wf(),
            is_store_op(ins),
            old(self)@.spec_store_op(ins, *am) is Some,
        ensures
            final(self).wf(),
            old(self)@.spec_store_op(ins, *am) == Some(final(self)@),
    {
        let v = match ins {
            Instruction::STA => self.A,
            Instruction::STX => self.X,
            Instruction::STY => self.Y,
            _ => self.A & self.X,
        };
        am.set(&mut self.memory, v);
    }

    /// Returns the cycles added by a taken branch.
    fn exec_branch(&mut self, ins: Instruction, am: &MySavior) -> (again: u8)
        requires
            old(self).wf(),
            is_branch_op(ins),
            old(self)@.spec_branch_op(ins, *am) is Some,
        ensures
            final(self).wf(),
            old(self)@.spec_branch_op(ins, *am) == Some((final(self)@, again)),
            again <= 2,
    {
        let offset = am.fetch(&mut self.memory);
        let taken = match ins {
            Instruction::BCC => self.C == 0,
            Instruction::BCS => self.C != 0,
            Instruction::BEQ => self.Z != 0,
            Instruction::BMI => self.N != 0,
            Instruction::BNE => self.Z == 0,
            Instruction::BPL => self.N == 0,
            Instruction::BVC => self.V == 0,
            _ => self.V != 0,
        };
        if taken {
            let mut cycles: u8 = 1;
            let pc_before = self.PC;
            proof {
                lemma_byte(offset);
            }
            if (offset & 0x80) == 0x80 {
                self.PC = self.PC - (0x100 - offset as u16);
            } else {
                self.PC = self.PC + offset as u16;
            }
            let new_pc = self.PC;
            proof {
                lemma_word(pc_before);
                lemma_word(new_pc);
            }
            if (pc_before >> 8u16) != (self.PC >> 8u16) {
                cycles = cycles + 1;
            }
            cycles
        } else {
            0
        }
    }

    fn exec_control(&mut self, ins: Instruction, am: &MySavior)
        requires
            old(self).wf(),
            is_control_op(ins),
            old(self)@.spec_control_op(ins, *am) is Some,
        ensures
            final(self).wf(),
            old(self)@.spec_control_op(ins, *am) == Some(final(self)@),
    {
        match ins {
            Instruction::JMP => {
                self.PC = am.fetch16(&mut self.memory);
            },
            Instruction::JSR => self.jsr(am),
            Instruction::RTS => self.rts(),
            Instruction::BRK => self.brk(),
            _ => self.rti(),
        }
    }

    /// Pushes `w`, high byte first.
    fn push16(&mut self, w: u16)
        requires
            old(self).wf(),
            old(self)@.spec_push16(w as int) is Some,
        ensures
            final(self).wf(),
            old(self)@.spec_push16(w as int) == Some(final(self)@),
    {
        proof {
            lemma_word(w);
        }
        self.push(((w & 0xFF00u16) >> 8u16) as u8);
        self.push((w & 0xFFu16) as u8);
    }

    /// Pulls a word, low byte first.
    fn pull16(&mut self) -> (r: u16)
        requires
            old(self).wf(),
            old(self)@.spec_pull16() is Some,
        ensures
            final(self).wf(),
            old(self)@.spec_pull16() == Some((r as int, final(self)@)),
    {
        let lsb = self.pull();
        let msb = self.pull();
        proof {
            lemma_byte(msb);
        }
        lsb as u16 + ((msb as u16) << 8u16)
    }

    fn jsr(&mut self, am: &MySavior)
        requires
            old(self).wf(),
            old(self)@.spec_jsr(*am) is Some,
        ensures
            final(self).wf(),
            old(self)@.spec_jsr(*am) == Some(final(self)@),
    {
        let return_addr = self.PC - 1;
        self.push16(return_addr);
        self.PC = am.fetch16(&mut self.memory);
    }

    fn rts(&mut self)
        requires
            old(self).wf(),
            old(self)@.spec_rts() is Some,
        ensures
            final(self).wf(),
            old(self)@.spec_rts() == Some(final(self)@),
    {
        let w = self.pull16();
        self.PC = w + 1;
    }

    #[verifier::spinoff_prover]
    #[verifier::rlimit(30)]
    fn brk(&mut self)
        requires
            old(self).wf(),
            old(self)@.spec_brk() is Some,
        ensures
            final(self).wf(),
            old(self)@.spec_brk() == Some(final(self)@),
    {
        let pc = self.PC;
        let flags = self.flags_to_u8();
        self.push16(pc);
        self.push(flags);
        let lsb = self.memory.get(0xFFFD) as u16;
        let msb = self.memory.get(0xFFFE) as u16;
        proof {
            lemma_word(msb);
        }
        self.PC = lsb + (msb << 8u16);
    }

    fn rti(&mut self)
        requires
            old(self).wf(),
            old(self)@.spec_rti() is Some,
        ensures
            final(self).wf(),
            old(self)@.spec_rti() == Some(final(self)@),
    {
        let flags = self.pull();
        self.u8_to_flags(flags);
        self.PC = self.pull16();
    }

    #[verifier::spinoff_prover]
    #[verifier::rlimit(40)]
    fn exec_register(&mut self, ins: Instruction)
        requires
            old(self).wf(),
            old(self)@.spec_register_op(ins) is Some,
        ensures
            final(self).wf(),
            old(self)@.spec_register_op(ins) == Some(final(self)@),
    {
        match ins {
            Instruction::CLC => self.C = 0,
            Instruction::CLD => self.D = 0,
            Instruction::CLI => self.I = 0,
            Instruction::CLV => self.V = 0,
            Instruction::SEC => self.C = 1,
            Instruction::SED => self.D = 1,
            Instruction::SEI => self.I = 1,
            Instruction::TAX => {
                let result = self.A;
                self.X = result;
                self.set_result_flags(result);
            },
            Instruction::TAY => {
                let result = self.A;
                self.Y = result;
                self.set_result_flags(result);
            },
            Instruction::TXA => {
                let result = self.X;
                self.A = result;
                self.set_result_flags(result);
            },
            Instruction::TYA => {
                let result = self.Y;
                self.A = result;
                self.set_result_flags(result);
            },
            Instruction::TSX => {
                let result = self.SP;
                self.X = result;
                self.set_result_flags(result);
            },
            Instruction::TXS => self.SP = self.X,
            Instruction::INX => {
                let result = self.X.wrapping_add(1);
                self.set_result_flags(result);
                self.X = result;
            },
            Instruction::INY => {
                let result = self.Y.wrapping_add(1);
                self.set_result_flags(result);
                self.Y = result;
            },
            Instruction::DEX => {
                let result = self.X.wrapping_sub(1);
                self.set_result_flags(result);
                self.X = result;
            },
            Instruction::DEY => {
                let result = self.Y.wrapping_sub(1);
                self.set_result_flags(result);
                self.Y = result;
            },
            Instruction::PHA | Instruction::PLA | Instruction::PHP | Instruction::PLP => {
                self.exec_stack(ins)
            },
            _ => {},
        }
    }

    fn exec_stack(&mut self, ins: Instruction)
        requires
            old(self).wf(),
            old(self)@.spec_stack_op(ins) is Some,
        ensures
            final(self).wf(),
            old(self)@.spec_stack_op(ins) == Some(final(self)@),
    {
        match ins {
            Instruction::PHA => {
                let to_push = self.A;
                self.push(to_push);
            },
            Instruction::PLA => {
                let result = self.pull();
                self.A = result;
                self.set_result_flags(result);
            },
            Instruction::PHP => {
                let to_push = self.flags_to_u8();
                self.push(to_push);
            },
            _ => {
                let result = self.pull();
                self.u8_to_flags(result);
            },
        }
    }

    /// Executes a decoded instruction; returns the cycles a taken branch adds.
    fn execute(&mut self, ins: Instruction, am: &MySavior) -> (again: u8)
        requires
            old(self).wf(),
            old(self)@.spec_execute(ins, *am) is Some,
        ensures
            final(self).wf(),
            old(self)@.spec_execute(ins, *am) == Some((final(self)@, again)),
            again <= 2,
    {
        if is_branch(ins) {
            self.exec_branch(ins, am)
        } else if is_read(ins) {
            self.exec_read(ins, am);
            0
        } else if is_rmw(ins) {
            self.exec_rmw(ins, am);
            0
        } else if is_store(ins) {
            self.exec_store(ins, am);
            0
        } else if is_control(ins) {
            self.exec_control(ins, am);
            0
        } else {
            self.exec_register(ins);
            0
        }
    }

    /// Fetches, decodes and executes one instruction; returns the cycles it
    /// took, which are also added to `cycles`.
    pub fn next(&mut self) -> (r: Result<u8, &'static str>)
        requires
            old(self).wf(),
            old(self)@.spec_step() is Some,
        ensures
            final(self).wf(),
            r matches Ok(t) && old(self)@.spec_step() == Some((final(self)@, t)),
    {
        proof {
            reveal(CpuState::spec_step);
        }
        let opcode = self.advance();
        match decode_opcode(opcode) {
            None => Ok(0),
            Some((ins, mode, cost)) => {
                let addressing = MySavior::new(mode, self);
                let again_extra_cycles = self.execute(ins, &addressing);
                let total_cycles = addressing.extra_cycles() + cost + again_extra_cycles;
                self.cycles = self.cycles + total_cycles as u64;
                Ok(total_cycles)
            },
        }
    }
}


/// Value of a byte read as a two's-complement number.
pub open spec fn signed(b: u8) -> int {
    if b >= 128 { b - 256 } else { b as int }
}

/// Stack law: a pushed byte is pulled back, and the pull restores SP.
pub proof fn lemma_push_then_pull(s: CpuState, v: u8)
    requires
        s.wf(),
        s.SP > 0,
    ensures
        s.spec_push(v) is Some,
        s.spec_push(v).unwrap().spec_pull()
            == Some((v, CpuState { mem: s.spec_push(v).unwrap().mem, ..s })),
{
}

/// With every flag 0 or 1 the status byte fits in a byte and each flag
/// is read back from its bit.
proof fn lemma_status_bits(n: u8, v: u8, d: u8, i: u8, z: u8, c: u8, b: u8)
    by (bit_vector)
    requires
        n <= 1, v <= 1, d <= 1, i <= 1, z <= 1, c <= 1,
    ensures
        (n << 7u8) as int + (v << 6u8) as int + 32 + 16 + (d << 3u8) as int + (i << 2u8) as int
            + (z << 1u8) as int + c as int <= 255,
        b as int == (n << 7u8) as int + (v << 6u8) as int + 32 + 16 + (d << 3u8) as int
            + (i << 2u8) as int + (z << 1u8) as int + c as int ==> {
            &&& (b >> 7u8) & 1 == n && (b >> 6u8) & 1 == v && (b >> 3u8) & 1 == d
            &&& (b >> 2u8) & 1 == i && (b >> 1u8) & 1 == z && b & 1 == c
        },
{
}

/// PHP then PLP gives back every flag, provided each flag is 0 or 1.
pub proof fn lemma_php_then_plp(s: CpuState)
    requires
        s.wf(),
        s.SP > 0,
        s.C <= 1 && s.Z <= 1 && s.I <= 1 && s.D <= 1 && s.V <= 1 && s.N <= 1,
    ensures
        s.spec_stack_op(Instruction::PHP) is Some,
        s.spec_stack_op(Instruction::PHP).unwrap().spec_stack_op(Instruction::PLP) is Some,
        ({
            let t = s.spec_stack_op(Instruction::PHP).unwrap().spec_stack_op(Instruction::PLP).unwrap();
            &&& t.C == s.C && t.Z == s.Z && t.I == s.I && t.D == s.D && t.V == s.V && t.N == s.N
            &&& t.SP == s.SP && t.A == s.A && t.X == s.X && t.Y == s.Y && t.PC == s.PC
        }),
{
    lemma_status_bits(s.N, s.V, s.D, s.I, s.Z, s.C, s.status_sum() as u8);
    lemma_push_then_pull(s, s.status_sum() as u8);
}

/// JSR then RTS comes back to the instruction after the JSR with the stack
/// as it was.
pub proof fn lemma_jsr_then_rts(s: CpuState, target: u16)
    requires
        s.wf(),
        s.SP >= 2,
        s.PC >= 1,
    ensures
        s.spec_jsr(MySavior::Absolute(AbsoluteAddressing { address: target })) is Some,
        ({
            let t = s.spec_jsr(MySavior::Absolute(AbsoluteAddressing { address: target })).unwrap();
            &&& t.PC == target
            &&& t.spec_rts() is Some
            &&& t.spec_rts().unwrap().PC == s.PC
            &&& t.spec_rts().unwrap().SP == s.SP
        }),
{
    let w = s.PC - 1;
    let s1 = s.spec_push((w / 256) as u8).unwrap();
    lemma_push_then_pull(s, (w / 256) as u8);
    lemma_push_then_pull(s1, (w % 256) as u8);
}

/// Bits of a status byte, as `with_status` reads them.
proof fn lemma_status_byte(b: u8)
    by (bit_vector)
    ensures
        (b >> 7u8) & 1 == b / 128 % 2,
        (b >> 6u8) & 1 == b / 64 % 2,
        (b >> 3u8) & 1 == b / 8 % 2,
        (b >> 2u8) & 1 == b / 4 % 2,
        (b >> 1u8) & 1 == b / 2 % 2,
        b & 1 == b % 2,
{
}

/// A push stores the byte in RAM at $0100 + SP and moves SP down.
proof fn lemma_push_ram(s: CpuState, v: u8)
    requires
        s.wf(),
        s.SP > 0,
    ensures
        s.spec_push(v) == Some(CpuState {
            mem: MemState { ram: s.mem.ram.update(0x100 + s.SP, v), ..s.mem },
            SP: (s.SP - 1) as u8,
            ..s
        }),
        s.spec_push(v).unwrap().wf(),
{
}

/// RTI law: RTI loads every flag from its bit of the status byte on top of
/// the stack (bit 7 N, 6 V, 3 D, 2 I, 1 Z, 0 C), then PC from the next two
/// stack bytes, low byte first, and leaves SP three bytes higher; nothing
/// else changes.
pub proof fn lemma_rti(s: CpuState)
    requires
        s.wf(),
        s.SP <= 0xFC,
    ensures
        ({
            let b = s.mem.ram[0x100 + s.SP + 1];
            let lo = s.mem.ram[0x100 + s.SP + 2];
            let hi = s.mem.ram[0x100 + s.SP + 3];
            s.spec_rti() == Some(CpuState {
                C: (b % 2) as u8,
                Z: (b / 2 % 2) as u8,
                I: (b / 4 % 2) as u8,
                D: (b / 8 % 2) as u8,
                V: (b / 64 % 2) as u8,
                N: (b / 128 % 2) as u8,
                PC: (hi * 256 + lo) as u16,
                SP: (s.SP + 3) as u8,
                ..s
            })
        }),
{
    let b = s.mem.ram[0x100 + s.SP + 1];
    lemma_status_byte(b);
}

/// Interrupt return law: after BRK, whatever the handler does to the flags
/// and registers while it leaves the stack alone, RTI gives back every flag
/// (each 0 or 1 before the BRK), the PC at the BRK and the stack pointer.
pub proof fn lemma_brk_then_rti(s: CpuState, t: CpuState)
    requires
        s.wf(),
        s.SP >= 3,
        s.C <= 1 && s.Z <= 1 && s.I <= 1 && s.D <= 1 && s.V <= 1 && s.N <= 1,
        s.spec_brk() is Some,
        t.mem == s.spec_brk().unwrap().mem,
        t.SP == s.spec_brk().unwrap().SP,
    ensures
        t.spec_rti() is Some,
        ({
            let r = t.spec_rti().unwrap();
            &&& r.C == s.C && r.Z == s.Z && r.I == s.I && r.D == s.D && r.V == s.V && r.N == s.N
            &&& r.PC == s.PC
            &&& r.SP == s.SP
        }),
{
    let st = s.status_sum() as u8;
    lemma_status_bits(s.N, s.V, s.D, s.I, s.Z, s.C, st);
    lemma_status_byte(st);
    let w = s.PC as int;
    lemma_push_ram(s, (w / 256) as u8);
    let s1 = s.spec_push((w / 256) as u8).unwrap();
    lemma_push_ram(s1, (w % 256) as u8);
    let s2 = s1.spec_push((w % 256) as u8).unwrap();
    lemma_push_ram(s2, st);
    let s3 = s2.spec_push(st).unwrap();
    assert(s3.mem.ram[0x100 + s3.SP + 1] == st);
    assert(s3.mem.ram[0x100 + s3.SP + 2] == (w % 256) as u8);
    assert(s3.mem.ram[0x100 + s3.SP + 3] == (w / 256) as u8);
    assert(read_word(s3.mem, 0xFFFD, 0xFFFE) is Some && read_word(s3.mem, 0xFFFD, 0xFFFE).unwrap().1 == s3.mem);
    assert(t.mem == s3.mem);
    lemma_rti(t);
}

/// ADC law: A becomes the sum modulo 256, C the carry out of bit 7, and V
/// is set exactly when the signed sum leaves -128..127.
pub proof fn lemma_adc(s: CpuState, m: u8)
    requires
        s.C <= 1,
    ensures
        ({
            let t = s.spec_adc(m);
            let sum = s.A + m + s.C;
            &&& t.A == sum % 256
            &&& t.C == (if sum > 255 { 1u8 } else { 0u8 })
            &&& t.Z == (if sum % 256 == 0 { 1u8 } else { 0u8 })
            &&& t.N == (if sum % 256 >= 128 { 1u8 } else { 0u8 })
            &&& t.V == (if signed(s.A) + signed(m) + s.C > 127 || signed(s.A) + signed(m) + s.C < -128 {
                1u8
            } else {
                0u8
            })
        }),
{
    let a = s.A;
    let c = s.C;
    let r = ((a + m + c) % 256) as u8;
    lemma_byte(r);
    assert(((m ^ a) >> 7u8 == 0 && (m ^ r) >> 7u8 == 1) == ((a < 128) == (m < 128) && (r < 128) != (a < 128)))
        by (bit_vector);
}

/// SBC law: SBC subtracts the operand and the borrow (1 - C); C ends set
/// exactly when no borrow was needed.
pub proof fn lemma_sbc(s: CpuState, m: u8)
    requires
        s.C <= 1,
    ensures
        ({
            let t = s.apply_read(Instruction::SBC, m);
            let diff = s.A - m - (1 - s.C);
            &&& t.A == diff % 256
            &&& t.C == (if diff >= 0 { 1u8 } else { 0u8 })
        }),
{
    assert(!m == 255 - m) by (bit_vector);
}

/// Compare law: C tells `reg >= m`, Z tells `reg == m`.
pub proof fn lemma_compare(s: CpuState, reg: u8, m: u8)
    ensures
        (s.spec_compare(reg, m).C == 1) == (reg >= m),
        (s.spec_compare(reg, m).Z == 1) == (reg == m),
        s.spec_compare(reg, m).A == s.A,
{
}

/// Branch law: a branch whose condition fails changes nothing; one whose
/// condition holds adds the signed offset to PC.
pub proof fn lemma_branch(s: CpuState, ins: Instruction, offset: u8)
    requires
        is_branch_op(ins),
        0 <= s.PC + signed(offset) <= 0xFFFF,
    ensures
        ({
            let r = s.spec_branch_op(ins, MySavior::Relative(RelativeAddressing { offset }));
            &&& r is Some
            &&& !s.branch_taken(ins) ==> r.unwrap().0 == s
            &&& s.branch_taken(ins) ==> r.unwrap().0 == (CpuState { PC: (s.PC + signed(offset)) as u16, ..s })
        }),
{
}

/// An unknown opcode is skipped: PC moves past it and nothing else changes
/// but what reading the opcode byte did to memory.
pub proof fn lemma_unknown_opcode(s: CpuState)
    requires
        s.spec_advance() is Some,
        opcode_table(s.spec_advance().unwrap().0) is None,
    ensures
        s.spec_step() == Some((
            CpuState { PC: (s.PC + 1) as u16, mem: s.spec_advance().unwrap().1.mem, ..s },
            0u8,
        )),
{
    reveal(CpuState::spec_step);
}

} // verus!
