//! Addressing modes of the 6502. An instruction's operand is either in the
//! instruction itself (immediate, relative), in a register (accumulator) or
//! at an address computed from the operand bytes and the index registers.
//! Each mode keeps what it needs to find its data again.
use vstd::prelude::*;
use crate::bits::{lemma_byte, lemma_word};
use crate::cpu::cpu::Cpu;
use crate::cpu::memory::{MemState, Memory};
use crate::text::{decimal_string, decimal_text, hex_string, hex_text};

verus! {

#[derive(Debug, Clone, Copy, PartialEq, Eq, Structural)]
pub enum AddressingModeType {
    Implied,
    ZeroPage,
    Immediate,
    Relative,
    ZeroPageX,
    ZeroPageY,
    IndexedZeroPage,
    Absolute,
    AbsoluteX,
    AbsoluteY,
    IndexedAbsolute,
    Indirect,
    PreIndexedIndirect,
    PostIndexedIndirect,
    Accumulator,
}

/// Nothing to fetch: the opcode says it all.
#[derive(Debug, Clone, Copy)]
pub struct ImpliedAddressing {}

/// The operand byte is the value.
#[derive(Debug, Clone, Copy)]
pub struct ImmediateAddressing {
    pub value: u8,
}

/// Signed branch offset.
#[derive(Debug, Clone, Copy)]
pub struct RelativeAddressing {
    pub offset: u8,
}

/// Address in the zero page ($0000-$00FF).
#[derive(Debug, Clone, Copy)]
pub struct ZeroPageAddressing {
    pub address: u8,
}

/// Zero-page address plus an index register, wrapping inside the zero page.
#[derive(Debug, Clone, Copy)]
pub struct IndexedZeroPageAddressing {
    pub address: u8,
    pub offset: u8,
}

/// 16-bit address given by the two operand bytes, low byte first.
#[derive(Debug, Clone, Copy)]
pub struct AbsoluteAddressing {
    pub address: u16,
}

/// Absolute address plus an index register, wrapping at $FFFF.
#[derive(Debug, Clone, Copy)]
pub struct IndexedAbsoluteAddressing {
    pub address: u16,
    pub offset: u8,
}

/// The operands locate the low byte of the target address (JMP only).
#[derive(Debug, Clone, Copy)]
pub struct IndirectAddressing {
    pub lsb_location: u16,
}

/// `(zp,X)`: the pointer is read in the zero page at operand + X.
#[derive(Debug, Clone, Copy)]
pub struct PreIndexedIndirectAddressing {
    pub address: u8,
    pub offset: u8,
}

/// `(zp),Y`: the pointer is read in the zero page at the operand, then Y is added.
#[derive(Debug, Clone, Copy)]
pub struct PostIndexedIndirectAddressing {
    pub address: u8,
    pub offset: u8,
}

/// The accumulator, as it was when the instruction was decoded.
#[derive(Debug, Clone, Copy)]
pub struct AccumulatorAddressing {
    pub accumulator: u8,
}

/// One decoded addressing mode.
#[derive(Debug, Clone, Copy)]
pub enum MySavior {
    Implied(ImpliedAddressing),
    ZeroPage(ZeroPageAddressing),
    Immediate(ImmediateAddressing),
    Relative(RelativeAddressing),
    IndexedZeroPage(IndexedZeroPageAddressing),
    Absolute(AbsoluteAddressing),
    IndexedAbsolute(IndexedAbsoluteAddressing),
    Indirect(IndirectAddressing),
    PreIndexedIndirect(PreIndexedIndirectAddressing),
    PostIndexedIndirect(PostIndexedIndirectAddressing),
    Accumulator(AccumulatorAddressing),
}

/// Reads a little-endian word: low byte at `lo`, high byte at `hi`.
pub open spec fn read_word(m: MemState, lo: int, hi: int) -> Option<(u16, MemState)> {
    match m.read(lo) {
        Some((lsb, m1)) => match m1.read(hi) {
            Some((msb, m2)) => Some(((msb as int * 256 + lsb as int) as u16, m2)),
            None => None,
        },
        None => None,
    }
}

impl MySavior {
    pub open spec fn spec_mode_type(self) -> AddressingModeType {
        match self {
            MySavior::Implied(_) => AddressingModeType::Implied,
            MySavior::ZeroPage(_) => AddressingModeType::ZeroPage,
            MySavior::Immediate(_) => AddressingModeType::Immediate,
            MySavior::Relative(_) => AddressingModeType::Relative,
            MySavior::IndexedZeroPage(_) => AddressingModeType::IndexedZeroPage,
            MySavior::Absolute(_) => AddressingModeType::Absolute,
            MySavior::IndexedAbsolute(_) => AddressingModeType::IndexedAbsolute,
            MySavior::Indirect(_) => AddressingModeType::Indirect,
            MySavior::PreIndexedIndirect(_) => AddressingModeType::PreIndexedIndirect,
            MySavior::PostIndexedIndirect(_) => AddressingModeType::PostIndexedIndirect,
            MySavior::Accumulator(_) => AddressingModeType::Accumulator,
        }
    }

    /// Effective address and the memory after the pointer reads it takes;
    /// 0 for the modes that have no address.
    pub open spec fn spec_address(self, m: MemState) -> Option<(u16, MemState)> {
        match self {
            MySavior::ZeroPage(a) => Some((a.address as u16, m)),
            MySavior::IndexedZeroPage(a) => Some((((a.address + a.offset) % 256) as u16, m)),
            MySavior::Absolute(a) => Some((a.address, m)),
            MySavior::IndexedAbsolute(a) => Some((((a.address + a.offset) % 0x10000) as u16, m)),
            MySavior::Indirect(a) => if a.lsb_location == 0xFFFF {
                None
            } else {
                read_word(m, a.lsb_location as int, a.lsb_location + 1)
            },
            MySavior::PreIndexedIndirect(a) => {
                let loc = (a.address + a.offset) % 256;
                read_word(m, loc, (loc + 1) % 256)
            },
            MySavior::PostIndexedIndirect(a) => match read_word(m, a.address as int, (a.address + 1) % 256) {
                Some((base, m1)) => Some((((base + a.offset) % 0x10000) as u16, m1)),
                None => None,
            },
            _ => Some((0u16, m)),
        }
    }

    /// Modes whose data lives in memory at the effective address.
    pub open spec fn in_memory(self) -> bool {
        match self {
            MySavior::ZeroPage(_) | MySavior::IndexedZeroPage(_) | MySavior::Absolute(_)
            | MySavior::IndexedAbsolute(_) | MySavior::PreIndexedIndirect(_)
            | MySavior::PostIndexedIndirect(_) => true,
            _ => false,
        }
    }

    /// Operand value and the memory after the reads it takes.
    pub open spec fn spec_fetch(self, m: MemState) -> Option<(u8, MemState)> {
        match self {
            MySavior::Immediate(a) => Some((a.value, m)),
            MySavior::Relative(a) => Some((a.offset, m)),
            MySavior::Accumulator(a) => Some((a.accumulator, m)),
            MySavior::Implied(_) | MySavior::Indirect(_) => Some((0u8, m)),
            _ => match self.spec_address(m) {
                Some((addr, m1)) => m1.read(addr as int),
                None => None,
            },
        }
    }

    /// Memory after `v` is stored at the effective address; the modes
    /// without an address store nothing.
    pub open spec fn spec_set(self, m: MemState, v: u8) -> Option<MemState> {
        match self {
            MySavior::Implied(_) | MySavior::Immediate(_) | MySavior::Relative(_)
            | MySavior::Accumulator(_) => Some(m),
            _ => match self.spec_address(m) {
                Some((addr, m1)) => m1.write(addr as int, v),
                None => None,
            },
        }
    }

    /// Jump target: the absolute address, or the word read through the
    /// indirect pointer, whose high byte is taken from the start of the
    /// same page when the pointer ends in $FF.
    pub open spec fn spec_fetch16(self, m: MemState) -> Option<(u16, MemState)> {
        match self {
            MySavior::Absolute(a) => Some((a.address, m)),
            MySavior::Indirect(a) => if a.lsb_location == 0xFFFF {
                None
            } else {
                let next = if a.lsb_location % 256 == 0xFF {
                    a.lsb_location - 0xFF
                } else {
                    a.lsb_location + 1
                };
                read_word(m, a.lsb_location as int, next)
            },
            _ => Some((0u16, m)),
        }
    }

    /// One extra cycle when the index carries out of the low address byte.
    pub open spec fn spec_extra_cycles(self) -> u8 {
        match self {
            MySavior::IndexedAbsolute(a) => if a.address % 256 + a.offset > 255 { 1 } else { 0 },
            MySavior::PreIndexedIndirect(a) => if a.address + a.offset > 255 { 1 } else { 0 },
            _ => 0,
        }
    }

    /// One-line description of the mode and its operands, numbers in
    /// hexadecimal except the immediate and accumulator values.
    pub open spec fn spec_debug_text(self) -> Seq<char> {
        match self {
            MySavior::Implied(_) => "Implied Addressing"@,
            MySavior::Immediate(a) => "Immediate Addressing -> "@ + decimal_text(a.value as nat),
            MySavior::Relative(a) => "Relative adressing: 0x"@ + hex_text(a.offset as nat),
            MySavior::ZeroPage(a) => "Zero-page adressing at: 0x"@ + hex_text(a.address as nat),
            MySavior::IndexedZeroPage(a) => "Indexed Zero-page adressing at: 0x"@ + hex_text(a.address as nat)
                + " + 0x"@ + hex_text(a.offset as nat),
            MySavior::Absolute(a) => "Absolute adressing at: 0x"@ + hex_text(a.address as nat),
            MySavior::IndexedAbsolute(a) => "Indexed Absolute adressing at: 0x"@ + hex_text(a.address as nat)
                + "+0x"@ + hex_text(a.offset as nat),
            MySavior::Indirect(a) => "Indirect adressing at: 0x"@ + hex_text(a.lsb_location as nat),
            MySavior::PreIndexedIndirect(a) => "Pre-index Indirect adressing at: 0x"@ + hex_text(a.address as nat)
                + "+0x"@ + hex_text(a.offset as nat),
            MySavior::PostIndexedIndirect(a) => "Post-index Indirect adressing at: 0x"@ + hex_text(
                a.address as nat,
            ) + "+0x"@ + hex_text(a.offset as nat),
            MySavior::Accumulator(a) => "Accumulator Addressing -> "@ + decimal_text(a.accumulator as nat),
        }
    }

    /// Text for debug traces; see [`MySavior::spec_debug_text`].
    pub fn debug_fmt(&self) -> (r: String)
        ensures
            r@ == self.spec_debug_text(),
    {
        let mut s = String::new();
        match *self {
            MySavior::Implied(_) => s.append("Implied Addressing"),
            MySavior::Immediate(a) => {
                s.append("Immediate Addressing -> ");
                s.append(decimal_string(a.value).as_str());
            },
            MySavior::Relative(a) => {
                s.append("Relative adressing: 0x");
                s.append(hex_string(a.offset as u16).as_str());
            },
            MySavior::ZeroPage(a) => {
                s.append("Zero-page adressing at: 0x");
                s.append(hex_string(a.address as u16).as_str());
            },
            MySavior::IndexedZeroPage(a) => {
                s.append("Indexed Zero-page adressing at: 0x");
                s.append(hex_string(a.address as u16).as_str());
                s.append(" + 0x");
                s.append(hex_string(a.offset as u16).as_str());
            },
            MySavior::Absolute(a) => {
                s.append("Absolute adressing at: 0x");
                s.append(hex_string(a.address).as_str());
            },
            MySavior::IndexedAbsolute(a) => {
                s.append("Indexed Absolute adressing at: 0x");
                s.append(hex_string(a.address).as_str());
                s.append("+0x");
                s.append(hex_string(a.offset as u16).as_str());
            },
            MySavior::Indirect(a) => {
                s.append("Indirect adressing at: 0x");
                s.append(hex_string(a.lsb_location).as_str());
            },
            MySavior::PreIndexedIndirect(a) => {
                s.append("Pre-index Indirect adressing at: 0x");
                s.append(hex_string(a.address as u16).as_str());
                s.append("+0x");
                s.append(hex_string(a.offset as u16).as_str());
            },
            MySavior::PostIndexedIndirect(a) => {
                s.append("Post-index Indirect adressing at: 0x");
                s.append(hex_string(a.address as u16).as_str());
                s.append("+0x");
                s.append(hex_string(a.offset as u16).as_str());
            },
            MySavior::Accumulator(a) => {
                s.append("Accumulator Addressing -> ");
                s.append(decimal_string(a.accumulator).as_str());
            },
        }
        s
    }
}

/// Reads the word at `lo`/`hi` through the memory's side effects.
fn get_word(mem: &mut Memory, lo: usize, hi: usize) -> (r: u16)
    requires
        old(mem).wf(),
        lo < 0x10000,
        hi < 0x10000,
        read_word(old(mem)@, lo as int, hi as int) is Some,
    ensures
        final(mem).wf(),
        read_word(old(mem)@, lo as int, hi as int) == Some((r, final(mem)@)),
{
    let lsb = mem.get(lo);
    let msb = mem.get(hi);
    proof {
        lemma_byte(msb);
    }
    ((msb as u16) << 8u16) + (lsb as u16)
}

impl ImpliedAddressing {
    pub fn new() -> (r: ImpliedAddressing)
        ensures
            r == (ImpliedAddressing {}),
    {
        ImpliedAddressing {}
    }

    pub fn mode_type(&self) -> (r: AddressingModeType)
        ensures
            r == AddressingModeType::Implied,
    {
        AddressingModeType::Implied
    }

    pub fn fetch(&self, _mem: &mut Memory) -> (r: u8)
        ensures
            r == 0,
            final(_mem)@ == old(_mem)@,
    {
        0
    }

    pub fn set(&self, _mem: &mut Memory, _v: u8)
        ensures
            final(_mem)@ == old(_mem)@,
    {
    }

    pub fn address(&self, _mem: &mut Memory) -> (r: u16)
        ensures
            r == 0,
            final(_mem)@ == old(_mem)@,
    {
        0
    }
}

impl ImmediateAddressing {
    pub fn new(value: u8) -> (r: ImmediateAddressing)
        ensures
            r.value == value,
    {
        ImmediateAddressing { value }
    }

    pub fn mode_type(&self) -> (r: AddressingModeType)
        ensures
            r == AddressingModeType::Immediate,
    {
        AddressingModeType::Immediate
    }

    /// The value itself; memory is not touched.
    pub fn fetch(&self, _mem: &mut Memory) -> (r: u8)
        ensures
            r == self.value,
            final(_mem)@ == old(_mem)@,
    {
        self.value
    }

    pub fn set(&self, _mem: &mut Memory, _v: u8)
        ensures
            final(_mem)@ == old(_mem)@,
    {
    }

    pub fn address(&self, _mem: &mut Memory) -> (r: u16)
        ensures
            r == 0,
            final(_mem)@ == old(_mem)@,
    {
        0
    }
}

impl RelativeAddressing {
    pub fn new(offset: u8) -> (r: RelativeAddressing)
        ensures
            r.offset == offset,
    {
        RelativeAddressing { offset }
    }

    pub fn mode_type(&self) -> (r: AddressingModeType)
        ensures
            r == AddressingModeType::Relative,
    {
        AddressingModeType::Relative
    }

    pub fn fetch(&self, _mem: &mut Memory) -> (r: u8)
        ensures
            r == self.offset,
            final(_mem)@ == old(_mem)@,
    {
        self.offset
    }

    pub fn address(&self, _mem: &mut Memory) -> (r: u16)
        ensures
            r == 0,
            final(_mem)@ == old(_mem)@,
    {
        0
    }

    pub fn set(&self, _mem: &mut Memory, _v: u8)
        ensures
            final(_mem)@ == old(_mem)@,
    {
    }
}

impl ZeroPageAddressing {
    pub fn new(address: u8) -> (r: ZeroPageAddressing)
        ensures
            r.address == address,
    {
        ZeroPageAddressing { address }
    }

    pub fn mode_type(&self) -> (r: AddressingModeType)
        ensures
            r == AddressingModeType::ZeroPage,
    {
        AddressingModeType::ZeroPage
    }

    /// The byte at the zero-page address.
    pub fn fetch(&self, mem: &mut Memory) -> (r: u8)
        requires
            old(mem).wf(),
            MySavior::ZeroPage(*self).spec_fetch(old(mem)@) is Some,
        ensures
            final(mem).wf(),
            MySavior::ZeroPage(*self).spec_fetch(old(mem)@) == Some((r, final(mem)@)),
    {
        mem.get(self.address as usize)
    }

    pub fn address(&self, _mem: &mut Memory) -> (r: u16)
        ensures
            r == self.address,
            final(_mem)@ == old(_mem)@,
    {
        self.address as u16
    }

    pub fn set(&self, mem: &mut Memory, v: u8)
        requires
            old(mem).wf(),
            MySavior::ZeroPage(*self).spec_set(old(mem)@, v) is Some,
        ensures
            final(mem).wf(),
            MySavior::ZeroPage(*self).spec_set(old(mem)@, v) == Some(final(mem)@),
    {
        mem.set(self.address as usize, v);
    }
}

impl IndexedZeroPageAddressing {
    pub fn new(address: u8, offset: u8) -> (r: IndexedZeroPageAddressing)
        ensures
            r.address == address,
            r.offset == offset,
    {
        IndexedZeroPageAddressing { address, offset }
    }

    pub fn mode_type(&self) -> (r: AddressingModeType)
        ensures
            r == AddressingModeType::IndexedZeroPage,
    {
        AddressingModeType::IndexedZeroPage
    }

    /// The byte at `(address + offset) % 256`: the sum stays in the zero page.
    pub fn fetch(&self, mem: &mut Memory) -> (r: u8)
        requires
            old(mem).wf(),
            MySavior::IndexedZeroPage(*self).spec_fetch(old(mem)@) is Some,
        ensures
            final(mem).wf(),
            MySavior::IndexedZeroPage(*self).spec_fetch(old(mem)@) == Some((r, final(mem)@)),
    {
        mem.get(self.address.wrapping_add(self.offset) as usize)
    }

    pub fn set(&self, mem: &mut Memory, v: u8)
        requires
            old(mem).wf(),
            MySavior::IndexedZeroPage(*self).spec_set(old(mem)@, v) is Some,
        ensures
            final(mem).wf(),
            MySavior::IndexedZeroPage(*self).spec_set(old(mem)@, v) == Some(final(mem)@),
    {
        mem.set(self.address.wrapping_add(self.offset) as usize, v);
    }

    pub fn address(&self, _mem: &mut Memory) -> (r: u16)
        ensures
            r == (self.address + self.offset) % 256,
            final(_mem)@ == old(_mem)@,
    {
        self.address.wrapping_add(self.offset) as u16
    }
}

impl AbsoluteAddressing {
    /// Address `msb << 8 | lsb`.
    pub fn new(lsb: u8, msb: u8) -> (r: AbsoluteAddressing)
        ensures
            r.address == msb * 256 + lsb,
    {
        proof {
            lemma_byte(msb);
        }
        let address = ((msb as u16) << 8u16) + (lsb as u16);
        AbsoluteAddressing { address }
    }

    pub fn mode_type(&self) -> (r: AddressingModeType)
        ensures
            r == AddressingModeType::Absolute,
    {
        AddressingModeType::Absolute
    }

    pub fn fetch(&self, mem: &mut Memory) -> (r: u8)
        requires
            old(mem).wf(),
            MySavior::Absolute(*self).spec_fetch(old(mem)@) is Some,
        ensures
            final(mem).wf(),
            MySavior::Absolute(*self).spec_fetch(old(mem)@) == Some((r, final(mem)@)),
    {
        mem.get(self.address as usize)
    }

    pub fn fetch16(&self, _mem: &mut Memory) -> (r: u16)
        ensures
            r == self.address,
            final(_mem)@ == old(_mem)@,
    {
        self.address
    }

    pub fn address(&self, _mem: &mut Memory) -> (r: u16)
        ensures
            r == self.address,
            final(_mem)@ == old(_mem)@,
    {
        self.address
    }

    pub fn set(&self, mem: &mut Memory, v: u8)
        requires
            old(mem).wf(),
            MySavior::Absolute(*self).spec_set(old(mem)@, v) is Some,
        ensures
            final(mem).wf(),
            MySavior::Absolute(*self).spec_set(old(mem)@, v) == Some(final(mem)@),
    {
        mem.set(self.address as usize, v);
    }
}

impl IndexedAbsoluteAddressing {
    pub fn new(lsb: u8, msb: u8, offset: u8) -> (r: IndexedAbsoluteAddressing)
        ensures
            r.address == msb * 256 + lsb,
            r.offset == offset,
    {
        proof {
            lemma_byte(msb);
        }
        let address = ((msb as u16) << 8u16) + (lsb as u16);
        IndexedAbsoluteAddressing { address, offset }
    }

    pub fn mode_type(&self) -> (r: AddressingModeType)
        ensures
            r == AddressingModeType::IndexedAbsolute,
    {
        AddressingModeType::IndexedAbsolute
    }

    pub fn fetch(&self, mem: &mut Memory) -> (r: u8)
        requires
            old(mem).wf(),
            MySavior::IndexedAbsolute(*self).spec_fetch(old(mem)@) is Some,
        ensures
            final(mem).wf(),
            MySavior::IndexedAbsolute(*self).spec_fetch(old(mem)@) == Some((r, final(mem)@)),
    {
        let target = self.address.wrapping_add(self.offset as u16);
        mem.get(target as usize)
    }

    pub fn set(&self, mem: &mut Memory, v: u8)
        requires
            old(mem).wf(),
            MySavior::IndexedAbsolute(*self).spec_set(old(mem)@, v) is Some,
        ensures
            final(mem).wf(),
            MySavior::IndexedAbsolute(*self).spec_set(old(mem)@, v) == Some(final(mem)@),
    {
        let target = self.address.wrapping_add(self.offset as u16);
        mem.set(target as usize, v)
    }

    pub fn address(&self, _mem: &mut Memory) -> (r: u16)
        ensures
            r == (self.address + self.offset) % 0x10000,
            final(_mem)@ == old(_mem)@,
    {
        self.address.wrapping_add(self.offset as u16)
    }

    /// One cycle more when adding the index crosses a page.
    pub fn extra_cycles(&self) -> (r: u8)
        ensures
            r == MySavior::IndexedAbsolute(*self).spec_extra_cycles(),
    {
        let low = (self.address & 0xFF) as u8;
        proof {
            let a = self.address;
            lemma_word(a);
        }
        if (low as u16) + (self.offset as u16) > 255 {
            1
        } else {
            0
        }
    }
}

impl IndirectAddressing {
    pub fn new(lsb: u8, msb: u8) -> (r: IndirectAddressing)
        ensures
            r.lsb_location == msb * 256 + lsb,
    {
        proof {
            lemma_byte(msb);
        }
        let lsb_location = ((msb as u16) << 8u16) + (lsb as u16);
        IndirectAddressing { lsb_location }
    }

    pub fn mode_type(&self) -> (r: AddressingModeType)
        ensures
            r == AddressingModeType::Indirect,
    {
        AddressingModeType::Indirect
    }

    pub fn fetch(&self, _mem: &mut Memory) -> (r: u8)
        ensures
            r == 0,
            final(_mem)@ == old(_mem)@,
    {
        0
    }

    /// The jump target read through the pointer, with the page-wrap quirk.
    pub fn fetch16(&self, mem: &mut Memory) -> (r: u16)
        requires
            old(mem).wf(),
            MySavior::Indirect(*self).spec_fetch16(old(mem)@) is Some,
        ensures
            final(mem).wf(),
            MySavior::Indirect(*self).spec_fetch16(old(mem)@) == Some((r, final(mem)@)),
    {
        let mut next_loc = self.lsb_location + 1;
        let loc = self.lsb_location;
        proof {
            lemma_word(loc);
        }
        if (self.lsb_location & 0xFF) as u8 == 0xFF {
            next_loc = self.lsb_location & 0xFF00;
        }
        get_word(mem, self.lsb_location as usize, next_loc as usize)
    }

    pub fn address(&self, mem: &mut Memory) -> (r: u16)
        requires
            old(mem).wf(),
            MySavior::Indirect(*self).spec_address(old(mem)@) is Some,
        ensures
            final(mem).wf(),
            MySavior::Indirect(*self).spec_address(old(mem)@) == Some((r, final(mem)@)),
    {
        get_word(mem, self.lsb_location as usize, (self.lsb_location + 1) as usize)
    }

    pub fn set(&self, mem: &mut Memory, v: u8)
        requires
            old(mem).wf(),
            MySavior::Indirect(*self).spec_set(old(mem)@, v) is Some,
        ensures
            final(mem).wf(),
            MySavior::Indirect(*self).spec_set(old(mem)@, v) == Some(final(mem)@),
    {
        let address = self.address(mem);
        mem.set(address as usize, v);
    }
}

impl PreIndexedIndirectAddressing {
    pub fn new(address_byte: u8, offset: u8) -> (r: PreIndexedIndirectAddressing)
        ensures
            r.address == address_byte,
            r.offset == offset,
    {
        let address = address_byte;
        PreIndexedIndirectAddressing { address, offset }
    }

    pub fn mode_type(&self) -> (r: AddressingModeType)
        ensures
            r == AddressingModeType::PreIndexedIndirect,
    {
        AddressingModeType::PreIndexedIndirect
    }

    pub fn fetch(&self, mem: &mut Memory) -> (r: u8)
        requires
            old(mem).wf(),
            MySavior::PreIndexedIndirect(*self).spec_fetch(old(mem)@) is Some,
        ensures
            final(mem).wf(),
            MySavior::PreIndexedIndirect(*self).spec_fetch(old(mem)@) == Some((r, final(mem)@)),
    {
        let address = self.address(mem);
        mem.get(address as usize)
    }

    pub fn set(&self, mem: &mut Memory, v: u8)
        requires
            old(mem).wf(),
            MySavior::PreIndexedIndirect(*self).spec_set(old(mem)@, v) is Some,
        ensures
            final(mem).wf(),
            MySavior::PreIndexedIndirect(*self).spec_set(old(mem)@, v) == Some(final(mem)@),
    {
        let address = self.address(mem);
        mem.set(address as usize, v);
    }

    /// The pointer read at `(address + offset) % 256` and the next zero-page byte.
    pub fn address(&self, mem: &mut Memory) -> (r: u16)
        requires
            old(mem).wf(),
            MySavior::PreIndexedIndirect(*self).spec_address(old(mem)@) is Some,
        ensures
            final(mem).wf(),
            MySavior::PreIndexedIndirect(*self).spec_address(old(mem)@) == Some((r, final(mem)@)),
    {
        let lsb_location = self.address.wrapping_add(self.offset);
        let msb_location = lsb_location.wrapping_add(1);
        assert(lsb_location == (self.address + self.offset) % 256);
        assert(msb_location == (lsb_location + 1) % 256);
        get_word(mem, lsb_location as usize, msb_location as usize)
    }

    pub fn extra_cycles(&self) -> (r: u8)
        ensures
            r == MySavior::PreIndexedIndirect(*self).spec_extra_cycles(),
    {
        if (self.address as u16) + (self.offset as u16) > 255 {
            1
        } else {
            0
        }
    }
}

impl PostIndexedIndirectAddressing {
    pub fn new(address_byte: u8, offset: u8) -> (r: PostIndexedIndirectAddressing)
        ensures
            r.address == address_byte,
            r.offset == offset,
    {
        let address = address_byte;
        PostIndexedIndirectAddressing { address, offset }
    }

    pub fn mode_type(&self) -> (r: AddressingModeType)
        ensures
            r == AddressingModeType::PostIndexedIndirect,
    {
        AddressingModeType::PostIndexedIndirect
    }

    pub fn fetch(&self, mem: &mut Memory) -> (r: u8)
        requires
            old(mem).wf(),
            MySavior::PostIndexedIndirect(*self).spec_fetch(old(mem)@) is Some,
        ensures
            final(mem).wf(),
            MySavior::PostIndexedIndirect(*self).spec_fetch(old(mem)@) == Some((r, final(mem)@)),
    {
        let fetch_addr = self.address(mem);
        mem.get(fetch_addr as usize)
    }

    /// The pointer read at `address` and the next zero-page byte, plus the offset.
    #[verifier::spinoff_prover]
    #[verifier::rlimit(30)]
    pub fn address(&self, mem: &mut Memory) -> (r: u16)
        requires
            old(mem).wf(),
            MySavior::PostIndexedIndirect(*self).spec_address(old(mem)@) is Some,
        ensures
            final(mem).wf(),
            MySavior::PostIndexedIndirect(*self).spec_address(old(mem)@) == Some((r, final(mem)@)),
    {
        let address = get_word(mem, self.address as usize, self.address.wrapping_add(1) as usize);
        address.wrapping_add(self.offset as u16)
    }

    pub fn set(&self, mem: &mut Memory, v: u8)
        requires
            old(mem).wf(),
            MySavior::PostIndexedIndirect(*self).spec_set(old(mem)@, v) is Some,
        ensures
            final(mem).wf(),
            MySavior::PostIndexedIndirect(*self).spec_set(old(mem)@, v) == Some(final(mem)@),
    {
        let fetch_addr = self.address(mem);
        mem.set(fetch_addr as usize, v);
    }
}

impl AccumulatorAddressing {
    pub fn new(nes: &Cpu) -> (r: AccumulatorAddressing)
        ensures
            r.accumulator == nes.A,
    {
        AccumulatorAddressing { accumulator: nes.get_acc() }
    }

    pub fn mode_type(&self) -> (r: AddressingModeType)
        ensures
            r == AddressingModeType::Accumulator,
    {
        AddressingModeType::Accumulator
    }

    pub fn fetch(&self, _mem: &mut Memory) -> (r: u8)
        ensures
            r == self.accumulator,
            final(_mem)@ == old(_mem)@,
    {
        self.accumulator
    }

    pub fn address(&self, _mem: &mut Memory) -> (r: u16)
        ensures
            r == 0,
            final(_mem)@ == old(_mem)@,
    {
        0
    }

    /// Stores nothing: the CPU writes the accumulator itself.
    pub fn set(&self, _mem: &mut Memory, _v: u8)
        ensures
            final(_mem)@ == old(_mem)@,
    {
    }
}

impl MySavior {
    /// Reads the operand bytes that `addressing_type` needs from the
    /// instruction stream and builds the mode; the indexed modes take the
    /// index register as it is now.
    pub fn new(addressing_type: AddressingModeType, nes: &mut Cpu) -> (r: MySavior)
        requires
            old(nes).wf(),
            old(nes)@.spec_operand(addressing_type) is Some,
        ensures
            final(nes).wf(),
            old(nes)@.spec_operand(addressing_type) == Some((r, final(nes)@)),
    {
        match addressing_type {
            AddressingModeType::Accumulator => MySavior::Accumulator(AccumulatorAddressing::new(nes)),
            AddressingModeType::Implied => MySavior::Implied(ImpliedAddressing::new()),
            AddressingModeType::Immediate => MySavior::Immediate(ImmediateAddressing::new(nes.advance())),
            AddressingModeType::ZeroPage => MySavior::ZeroPage(ZeroPageAddressing::new(nes.advance())),
            AddressingModeType::ZeroPageX => {
                let op = nes.advance();
                MySavior::IndexedZeroPage(IndexedZeroPageAddressing::new(op, nes.get_regx()))
            },
            AddressingModeType::ZeroPageY => {
                let op = nes.advance();
                MySavior::IndexedZeroPage(IndexedZeroPageAddressing::new(op, nes.get_regy()))
            },
            AddressingModeType::Relative => MySavior::Relative(RelativeAddressing::new(nes.advance())),
            AddressingModeType::Absolute => {
                let op1 = nes.advance();
                let op2 = nes.advance();
                MySavior::Absolute(AbsoluteAddressing::new(op1, op2))
            },
            AddressingModeType::AbsoluteX => {
                let op1 = nes.advance();
                let op2 = nes.advance();
                MySavior::IndexedAbsolute(IndexedAbsoluteAddressing::new(op1, op2, nes.get_regx()))
            },
            AddressingModeType::AbsoluteY => {
                let op1 = nes.advance();
                let op2 = nes.advance();
                MySavior::IndexedAbsolute(IndexedAbsoluteAddressing::new(op1, op2, nes.get_regy()))
            },
            AddressingModeType::Indirect => {
                let op1 = nes.advance();
                let op2 = nes.advance();
                MySavior::Indirect(IndirectAddressing::new(op1, op2))
            },
            AddressingModeType::PreIndexedIndirect => {
                let op = nes.advance();
                MySavior::PreIndexedIndirect(PreIndexedIndirectAddressing::new(op, nes.get_regx()))
            },
            AddressingModeType::PostIndexedIndirect => {
                let op = nes.advance();
                MySavior::PostIndexedIndirect(PostIndexedIndirectAddressing::new(op, nes.get_regy()))
            },
            _ => {
                proof {
                    assert(false);
                }
                MySavior::Implied(ImpliedAddressing::new())
            },
        }
    }

    pub fn mode_type(&self) -> (r: AddressingModeType)
        ensures
            r == self.spec_mode_type(),
    {
        match self {
            MySavior::Implied(x) => x.mode_type(),
            MySavior::ZeroPage(x) => x.mode_type(),
            MySavior::Immediate(x) => x.mode_type(),
            MySavior::Relative(x) => x.mode_type(),
            MySavior::IndexedZeroPage(x) => x.mode_type(),
            MySavior::Absolute(x) => x.mode_type(),
            MySavior::IndexedAbsolute(x) => x.mode_type(),
            MySavior::Indirect(x) => x.mode_type(),
            MySavior::PreIndexedIndirect(x) => x.mode_type(),
            MySavior::PostIndexedIndirect(x) => x.mode_type(),
            MySavior::Accumulator(x) => x.mode_type(),
        }
    }

    /// Reads the operand.
    pub fn fetch(&self, mem: &mut Memory) -> (r: u8)
        requires
            old(mem).wf(),
            self.spec_fetch(old(mem)@) is Some,
        ensures
            final(mem).wf(),
            self.spec_fetch(old(mem)@) == Some((r, final(mem)@)),
    {
        match self {
            MySavior::Implied(x) => x.fetch(mem),
            MySavior::ZeroPage(x) => x.fetch(mem),
            MySavior::Immediate(x) => x.fetch(mem),
            MySavior::Relative(x) => x.fetch(mem),
            MySavior::IndexedZeroPage(x) => x.fetch(mem),
            MySavior::Absolute(x) => x.fetch(mem),
            MySavior::IndexedAbsolute(x) => x.fetch(mem),
            MySavior::Indirect(x) => x.fetch(mem),
            MySavior::PreIndexedIndirect(x) => x.fetch(mem),
            MySavior::PostIndexedIndirect(x) => x.fetch(mem),
            MySavior::Accumulator(x) => x.fetch(mem),
        }
    }

    /// Jump target of JMP; 0 for the modes that have none.
    pub fn fetch16(&self, mem: &mut Memory) -> (r: u16)
        requires
            old(mem).wf(),
            self.spec_fetch16(old(mem)@) is Some,
        ensures
            final(mem).wf(),
            self.spec_fetch16(old(mem)@) == Some((r, final(mem)@)),
    {
        match self {
            MySavior::Absolute(x) => x.fetch16(mem),
            MySavior::Indirect(x) => x.fetch16(mem),
            _ => 0,
        }
    }

    /// Stores `value` at the effective address.
    pub fn set(&self, mem: &mut Memory, value: u8)
        requires
            old(mem).wf(),
            self.spec_set(old(mem)@, value) is Some,
        ensures
            final(mem).wf(),
            self.spec_set(old(mem)@, value) == Some(final(mem)@),
    {
        match self {
            MySavior::Implied(x) => x.set(mem, value),
            MySavior::ZeroPage(x) => x.set(mem, value),
            MySavior::Immediate(x) => x.set(mem, value),
            MySavior::Relative(x) => x.set(mem, value),
            MySavior::IndexedZeroPage(x) => x.set(mem, value),
            MySavior::Absolute(x) => x.set(mem, value),
            MySavior::IndexedAbsolute(x) => x.set(mem, value),
            MySavior::Indirect(x) => x.set(mem, value),
            MySavior::PreIndexedIndirect(x) => x.set(mem, value),
            MySavior::PostIndexedIndirect(x) => x.set(mem, value),
            MySavior::Accumulator(x) => x.set(mem, value),
        }
    }

    /// Effective address.
    pub fn address(&self, mem: &mut Memory) -> (r: u16)
        requires
            old(mem).wf(),
            self.spec_address(old(mem)@) is Some,
        ensures
            final(mem).wf(),
            self.spec_address(old(mem)@) == Some((r, final(mem)@)),
    {
        match self {
            MySavior::Implied(x) => x.address(mem),
            MySavior::ZeroPage(x) => x.address(mem),
            MySavior::Immediate(x) => x.address(mem),
            MySavior::Relative(x) => x.address(mem),
            MySavior::IndexedZeroPage(x) => x.address(mem),
            MySavior::Absolute(x) => x.address(mem),
            MySavior::IndexedAbsolute(x) => x.address(mem),
            MySavior::Indirect(x) => x.address(mem),
            MySavior::PreIndexedIndirect(x) => x.address(mem),
            MySavior::PostIndexedIndirect(x) => x.address(mem),
            MySavior::Accumulator(x) => x.address(mem),
        }
    }

    /// Extra cycles taken when an index crosses a page.
    pub fn extra_cycles(&self) -> (r: u8)
        ensures
            r == self.spec_extra_cycles(),
    {
        match self {
            MySavior::IndexedAbsolute(x) => x.extra_cycles(),
            MySavior::PreIndexedIndirect(x) => x.extra_cycles(),
            _ => 0,
        }
    }
}

} // verus!
