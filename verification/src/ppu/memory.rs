//! PPU registers ($2000-$2007, $4014) and PPU-side memory. Register
//! accesses have side effects: reading PPUSTATUS clears the vblank flag,
//! PPUADDR and PPUSCROLL take two writes, PPUDATA reads are buffered.
use vstd::prelude::*;
use crate::bits::{lemma_byte, lemma_index};
use crate::bytes::{copy_range, zeros};
use crate::rom::INesFile;

verus! {

#[allow(non_snake_case)]
#[derive(Debug, Clone, Copy, PartialEq, Eq, Structural)]
pub enum RegisterType {
    PPUCTRL,
    PPUMASK,
    PPUSTATUS,
    OAMADDR,
    OAMDATA,
    PPUSCROLL,
    PPUADDR,
    PPUDATA,
    OAMDMA,
}

/// Nametable arrangement: with horizontal mirroring $2000 and $2400 show
/// the same table, with vertical mirroring $2000 and $2800 do.
#[derive(Debug, Clone, Copy, PartialEq, Eq, Structural)]
pub enum Mirroring {
    HORIZONTAL,
    VERTICAL,
}

/// CPU address of each register.
pub open spec fn register_address(r: RegisterType) -> usize {
    match r {
        RegisterType::PPUCTRL => 0x2000,
        RegisterType::PPUMASK => 0x2001,
        RegisterType::PPUSTATUS => 0x2002,
        RegisterType::OAMADDR => 0x2003,
        RegisterType::OAMDATA => 0x2004,
        RegisterType::PPUSCROLL => 0x2005,
        RegisterType::PPUADDR => 0x2006,
        RegisterType::PPUDATA => 0x2007,
        RegisterType::OAMDMA => 0x4014,
    }
}

/// Register selected by a CPU address in $2000-$3FFF, where the eight
/// registers repeat every 8 bytes.
pub open spec fn register_at(addr: int) -> RegisterType {
    let k = addr % 8;
    if k == 0 {
        RegisterType::PPUCTRL
    } else if k == 1 {
        RegisterType::PPUMASK
    } else if k == 2 {
        RegisterType::PPUSTATUS
    } else if k == 3 {
        RegisterType::OAMADDR
    } else if k == 4 {
        RegisterType::OAMDATA
    } else if k == 5 {
        RegisterType::PPUSCROLL
    } else if k == 6 {
        RegisterType::PPUADDR
    } else {
        RegisterType::PPUDATA
    }
}

impl RegisterType {
    /// The register mapped at CPU address `value`, if any.
    pub fn lookup(value: usize) -> (r: Option<RegisterType>)
        ensures
            0x2000 <= value <= 0x2007 ==> r == Some(register_at(value as int)),
            r matches Some(reg) ==> register_address(reg) == value,
            r is None <==> !((0x2000 <= value <= 0x2007) || value == 0x4014),
    {
        if value == 0x2000 {
            Some(RegisterType::PPUCTRL)
        } else if value == 0x2001 {
            Some(RegisterType::PPUMASK)
        } else if value == 0x2002 {
            Some(RegisterType::PPUSTATUS)
        } else if value == 0x2003 {
            Some(RegisterType::OAMADDR)
        } else if value == 0x2004 {
            Some(RegisterType::OAMDATA)
        } else if value == 0x2005 {
            Some(RegisterType::PPUSCROLL)
        } else if value == 0x2006 {
            Some(RegisterType::PPUADDR)
        } else if value == 0x2007 {
            Some(RegisterType::PPUDATA)
        } else if value == 0x4014 {
            Some(RegisterType::OAMDMA)
        } else {
            None
        }
    }
}

/// Physical position in PPU memory read for logical address `addr`
/// (below $4000): nametables are folded onto the two physical tables by
/// the mirroring, palette mirrors onto $3F00-$3F1F.
pub open spec fn vram_slot(mirroring: Mirroring, addr: int) -> int {
    let off = addr % 0x400;
    if 0x2000 <= addr <= 0x23FF {
        0x2000 + off
    } else if 0x2400 <= addr <= 0x27FF {
        if mirroring == Mirroring::HORIZONTAL { 0x2000 + off } else { 0x2400 + off }
    } else if 0x2800 <= addr <= 0x2BFF {
        if mirroring == Mirroring::HORIZONTAL { 0x2400 + off } else { 0x2000 + off }
    } else if 0x2C00 <= addr <= 0x2FFF {
        0x2400 + off
    } else if 0x3F00 <= addr <= 0x3FFF {
        0x3F00 + (addr % 0x100) % 0x20
    } else {
        addr
    }
}

pub struct PpuMemory {
    /// NMI requested: vblank flag and NMI-enable bit are both set.
    pub nmi: bool,
    pub ppuctrl: u8,
    pub ppumask: u8,
    pub ppustatus: u8,
    pub oamaddr: u8,
    pub oamdata: u8,
    pub ppuscroll: u8,
    pub ppuaddr: u8,
    pub ppudata: u8,
    pub oamdma: u8,
    /// Temporary VRAM address (15 bits: yyy NN YYYYY XXXXX).
    pub t: u16,
    /// Current VRAM address.
    pub v: u16,
    /// Fine X scroll (3 bits).
    pub x: u8,
    /// Write toggle of PPUSCROLL/PPUADDR: 0 first write, 1 second.
    pub w: u8,
    /// Buffer of delayed PPUDATA reads below $3F00.
    pub vram_read_buffer: u8,
    pub oam_addr: u8,
    /// Object attribute memory (0x100 bytes, 64 sprites).
    pub oam: Vec<u8>,
    /// PPU memory ($0000-$3FFF): pattern tables, nametables, palettes.
    pub ppu_mem: Vec<u8>,
    pub mirroring: Mirroring,
    pub is_rendering: bool,
}

/// Mathematical view of [`PpuMemory`]: the same fields, memories as sequences.
pub struct PpuState {
    pub nmi: bool,
    pub ppuctrl: u8,
    pub ppumask: u8,
    pub ppustatus: u8,
    pub oamaddr: u8,
    pub oamdata: u8,
    pub ppuscroll: u8,
    pub ppuaddr: u8,
    pub ppudata: u8,
    pub oamdma: u8,
    pub t: u16,
    pub v: u16,
    pub x: u8,
    pub w: u8,
    pub vram_read_buffer: u8,
    pub oam_addr: u8,
    pub oam: Seq<u8>,
    pub ppu_mem: Seq<u8>,
    pub mirroring: Mirroring,
    pub is_rendering: bool,
}

impl View for PpuMemory {
    type V = PpuState;

    open spec fn view(&self) -> PpuState {
        PpuState {
            nmi: self.nmi,
            ppuctrl: self.ppuctrl,
            ppumask: self.ppumask,
            ppustatus: self.ppustatus,
            oamaddr: self.oamaddr,
            oamdata: self.oamdata,
            ppuscroll: self.ppuscroll,
            ppuaddr: self.ppuaddr,
            ppudata: self.ppudata,
            oamdma: self.oamdma,
            t: self.t,
            v: self.v,
            x: self.x,
            w: self.w,
            vram_read_buffer: self.vram_read_buffer,
            oam_addr: self.oam_addr,
            oam: self.oam@,
            ppu_mem: self.ppu_mem@,
            mirroring: self.mirroring,
            is_rendering: self.is_rendering,
        }
    }
}

/// Registers and OAM cleared, nothing pending, with the given mirroring
/// and PPU memory.
pub open spec fn power_on_state(mirroring: Mirroring, ppu_mem: Seq<u8>) -> PpuState {
    PpuState {
        nmi: false,
        ppuctrl: 0,
        ppumask: 0,
        ppustatus: 0,
        oamaddr: 0,
        oamdata: 0,
        ppuscroll: 0,
        ppuaddr: 0,
        ppudata: 0,
        oamdma: 0,
        t: 0,
        v: 0,
        x: 0,
        w: 0,
        vram_read_buffer: 0,
        oam_addr: 0,
        oam: Seq::new(0x100, |i: int| 0u8),
        ppu_mem,
        mirroring,
        is_rendering: false,
    }
}

/// State of the PPU side after loading a cartridge: the first CHR page, if
/// any, fills the pattern tables; the mirroring comes from the header.
pub open spec fn initial_state(ines: &INesFile) -> PpuState {
    power_on_state(
        if ines.spec_flags_6() % 2 == 1 { Mirroring::VERTICAL } else { Mirroring::HORIZONTAL },
        if ines.spec_chr_pages() > 0 {
            ines.spec_chr_rom().subrange(0, 0x2000) + Seq::new(0x2000, |i: int| 0u8)
        } else {
            Seq::new(0x4000, |i: int| 0u8)
        },
    )
}

impl PpuState {
    pub open spec fn wf(&self) -> bool {
        self.oam.len() == 0x100 && self.ppu_mem.len() == 0x4000 && self.x <= 7
    }

    /// Byte seen at logical address `addr` (below $4000).
    pub open spec fn spec_vram(&self, addr: int) -> u8 {
        self.ppu_mem[vram_slot(self.mirroring, addr)]
    }

    /// PPU memory after `data` is written at logical address `addr`. A
    /// write to the universal background color ($3F00/$3F10 and mirrors)
    /// lands in both slots.
    pub open spec fn after_write_vram(&self, addr: int, data: u8) -> Seq<u8> {
        if 0x3F00 <= addr <= 0x3FFF && ((addr % 0x100) % 0x20 == 0 || (addr % 0x100) % 0x20 == 0x10) {
            self.ppu_mem.update(0x3F00, data).update(0x3F10, data)
        } else {
            self.ppu_mem.update(vram_slot(self.mirroring, addr), data)
        }
    }

    /// NMI line given status and control.
    pub open spec fn spec_nmi(status: u8, ctrl: u8) -> bool {
        status & 0x80 == 0x80 && ctrl & 0x80 == 0x80
    }

    /// Amount added to `v` after a PPUDATA access: 32 when PPUCTRL bit 2
    /// is set, else 1.
    pub open spec fn vram_increment(&self) -> int {
        if self.ppuctrl & 4 == 4 { 32 } else { 1 }
    }

    pub open spec fn spec_peek(&self, r: RegisterType) -> u8 {
        match r {
            RegisterType::PPUCTRL => self.ppuctrl,
            RegisterType::PPUMASK => self.ppumask,
            RegisterType::PPUSTATUS => self.ppustatus,
            RegisterType::OAMADDR => self.oamaddr,
            RegisterType::OAMDATA => self.oamdata,
            RegisterType::PPUSCROLL => self.ppuscroll,
            RegisterType::PPUADDR => self.ppuaddr,
            RegisterType::PPUDATA => self.ppudata,
            RegisterType::OAMDMA => self.oamdma,
        }
    }

    /// State after the PPU sets one register directly: no side effect but
    /// the NMI line, recomputed when PPUSTATUS is set.
    pub open spec fn after_update(self, r: RegisterType, value: u8) -> PpuState {
        match r {
            RegisterType::PPUCTRL => PpuState { ppuctrl: value, ..self },
            RegisterType::PPUMASK => PpuState { ppumask: value, ..self },
            RegisterType::PPUSTATUS => PpuState {
                ppustatus: value,
                nmi: Self::spec_nmi(value, self.ppuctrl),
                ..self
            },
            RegisterType::OAMADDR => PpuState { oamaddr: value, ..self },
            RegisterType::OAMDATA => PpuState { oamdata: value, ..self },
            RegisterType::PPUSCROLL => PpuState { ppuscroll: value, ..self },
            RegisterType::PPUADDR => PpuState { ppuaddr: value, ..self },
            RegisterType::PPUDATA => PpuState { ppudata: value, ..self },
            RegisterType::OAMDMA => PpuState { oamdma: value, ..self },
        }
    }

    /// Conditions under which a CPU write of a register does not fail.
    pub open spec fn write_ok(&self, register_type: RegisterType) -> bool {
        &&& register_type != RegisterType::OAMDMA
        &&& register_type == RegisterType::OAMDATA ==> self.oam_addr < 255
        &&& register_type == RegisterType::PPUDATA ==> self.v + self.vram_increment() <= u16::MAX
    }

    /// State after a CPU write of `value` to a register.
    pub open spec fn after_write(self, register_type: RegisterType, value: u8) -> PpuState {
        match register_type {
            RegisterType::PPUCTRL => self.after_write_ctrl(value),
            RegisterType::PPUMASK => PpuState { ppumask: value, ..self },
            RegisterType::PPUADDR => self.after_write_addr(value),
            RegisterType::PPUDATA => self.after_write_data(value),
            RegisterType::OAMADDR => PpuState { oam_addr: value, ..self },
            RegisterType::OAMDATA => PpuState {
                oam: self.oam.update(self.oam_addr as int, value),
                oam_addr: (self.oam_addr + 1) as u8,
                ..self
            },
            RegisterType::PPUSCROLL => self.after_write_scroll(value),
            _ => self,
        }
    }

    pub open spec fn after_write_ctrl(self, ctrl: u8) -> PpuState {
        PpuState {
            ppuctrl: ctrl,
            t: (self.t & !0xc00u16) | (((ctrl & 0b11) as u16) << 10u16),
            nmi: Self::spec_nmi(self.ppustatus, ctrl),
            ..self
        }
    }

    /// $2006: high 6 bits of the address on the first write, low byte on
    /// the second, which also copies `t` to `v`.
    pub open spec fn after_write_addr(self, b: u8) -> PpuState {
        if self.w == 0 {
            PpuState { t: (((b & 0b111111) as u16) << 8u16) | (self.t & 0xFF), w: 1, ..self }
        } else {
            let t = (self.t & 0xFF00) | b as u16;
            PpuState { t, v: t, w: 0, ..self }
        }
    }

    /// $2005: coarse and fine X on the first write, coarse and fine Y on
    /// the second.
    pub open spec fn after_write_scroll(self, value: u8) -> PpuState {
        if self.w == 0 {
            PpuState {
                t: ((value >> 3u8) as u16) | (self.t & !0b11111u16),
                x: value & 0b111,
                w: 1,
                ..self
            }
        } else {
            PpuState {
                t: (self.t & !0x73E0u16) | (((value >> 3u8) as u16) << 5u16) | (((value & 0b111) as u16) << 12u16),
                w: 0,
                ..self
            }
        }
    }

    pub open spec fn after_write_data(self, data: u8) -> PpuState {
        PpuState {
            ppu_mem: self.after_write_vram((self.v % 0x4000) as int, data),
            v: (self.v + self.vram_increment()) as u16,
            ..self
        }
    }

    /// Value returned by a CPU read of a register.
    pub open spec fn spec_read_value(&self, register_type: RegisterType) -> u8 {
        match register_type {
            RegisterType::PPUSTATUS => self.ppustatus,
            RegisterType::PPUDATA => if 0x3F00 <= self.v % 0x4000 {
                self.spec_vram((self.v % 0x4000) as int)
            } else {
                self.vram_read_buffer
            },
            RegisterType::OAMDATA => 8,
            _ => 0,
        }
    }

    /// State after a CPU read of a register.
    pub open spec fn after_read(self, register_type: RegisterType) -> PpuState {
        match register_type {
            RegisterType::PPUSTATUS => PpuState { ppustatus: self.ppustatus & !0x80u8, w: 0, ..self },
            RegisterType::PPUDATA => PpuState {
                vram_read_buffer: self.spec_vram((self.v % 0x4000) as int),
                v: (self.v + self.vram_increment()) as u16,
                ..self
            },
            _ => self,
        }
    }

    pub open spec fn read_ok(&self, register_type: RegisterType) -> bool {
        register_type == RegisterType::PPUDATA ==> self.v + self.vram_increment() <= u16::MAX
    }

}

impl PpuMemory {
    pub open spec fn wf(&self) -> bool {
        &&& self.oam@.len() == 0x100
        &&& self.ppu_mem@.len() == 0x4000
        &&& self.x <= 7
    }

    /// All registers cleared, zeroed memory, horizontal mirroring.
    pub fn empty() -> (m: PpuMemory)
        ensures
            m.wf(),
            m@ == power_on_state(Mirroring::HORIZONTAL, Seq::new(0x4000, |i: int| 0u8)),
    {
        PpuMemory {
            nmi: false,
            ppuctrl: 0,
            ppumask: 0,
            ppustatus: 0,
            oamaddr: 0,
            oamdata: 0,
            ppuscroll: 0,
            ppuaddr: 0,
            ppudata: 0,
            oamdma: 0,
            t: 0,
            v: 0,
            x: 0,
            w: 0,
            vram_read_buffer: 0,
            oam_addr: 0,
            oam: zeros(0x100),
            ppu_mem: zeros(0x4000),
            mirroring: Mirroring::HORIZONTAL,
            is_rendering: false,
        }
    }

    /// Registers cleared; the first CHR page, if any, is copied to the
    /// pattern tables and the mirroring comes from the header.
    pub fn new(ines: &INesFile) -> (m: PpuMemory)
        requires
            ines.spec_chr_pages() > 0 ==> ines.spec_chr_rom().len() >= 8192,
        ensures
            m.wf(),
            m@ == initial_state(ines),
    {
        let mut ppu_mem;
        if ines.get_chr_rom_pages() > 0 {
            let vrom = match ines.get_chr_rom(1) {
                Ok(p) => p,
                Err(_) => {
                    proof { assert(false); }
                    return PpuMemory::empty();
                }
            };
            ppu_mem = copy_range(vrom, 0, vrom.len());
            let rest = zeros(0x2000);
            crate::bytes::append_slice(&mut ppu_mem, rest.as_slice());
            proof {
                assert(ppu_mem@ =~= ines.spec_chr_rom().subrange(0, 0x2000) + Seq::new(0x2000, |i: int| 0u8));
            }
        } else {
            ppu_mem = zeros(0x4000);
            proof {
                assert(ppu_mem@ =~= Seq::new(0x4000, |i: int| 0u8));
            }
        }
        let mirroring = match ines.get_mirroring() {
            crate::mapper::Mirroring::VERTICAL => Mirroring::VERTICAL,
            _ => Mirroring::HORIZONTAL,
        };
        let oam = zeros(0x100);
        proof {
            assert(oam@ =~= Seq::new(0x100, |i: int| 0u8));
        }
        PpuMemory {
            nmi: false,
            ppuctrl: 0,
            ppumask: 0,
            ppustatus: 0,
            oamaddr: 0,
            oamdata: 0,
            ppuscroll: 0,
            ppuaddr: 0,
            ppudata: 0,
            oamdma: 0,
            t: 0,
            v: 0,
            x: 0,
            w: 0,
            vram_read_buffer: 0,
            oam_addr: 0,
            oam,
            ppu_mem,
            mirroring,
            is_rendering: false,
        }
    }

    pub fn get_nmi_occured(&self) -> (r: bool)
        ensures
            r == self.nmi,
    {
        self.nmi
    }

    pub fn consume_nmi(&mut self)
        ensures
            final(self)@ == (PpuState { nmi: false, ..old(self)@ }),
    {
        self.nmi = false;
    }

    /// Register value without side effects.
    pub fn peek(&self, register_type: RegisterType) -> (r: u8)
        ensures
            r == self@.spec_peek(register_type),
    {
        match register_type {
            RegisterType::PPUCTRL => self.ppuctrl,
            RegisterType::PPUMASK => self.ppumask,
            RegisterType::PPUSTATUS => self.ppustatus,
            RegisterType::OAMADDR => self.oamaddr,
            RegisterType::OAMDATA => self.oamdata,
            RegisterType::PPUSCROLL => self.ppuscroll,
            RegisterType::PPUADDR => self.ppuaddr,
            RegisterType::PPUDATA => self.ppudata,
            RegisterType::OAMDMA => self.oamdma,
        }
    }

    /// Sets one register with no side effect on the others, except that
    /// setting PPUSTATUS recomputes the NMI line. Used by the PPU itself.
    pub fn update(&mut self, register_type: RegisterType, value: u8)
        ensures
            final(self)@ == old(self)@.after_update(register_type, value),
    {
        match register_type {
            RegisterType::PPUCTRL => self.ppuctrl = value,
            RegisterType::PPUMASK => self.ppumask = value,
            RegisterType::PPUSTATUS => {
                self.ppustatus = value;
                self.raise_nmi();
            },
            RegisterType::OAMADDR => self.oamaddr = value,
            RegisterType::OAMDATA => self.oamdata = value,
            RegisterType::PPUSCROLL => self.ppuscroll = value,
            RegisterType::PPUADDR => self.ppuaddr = value,
            RegisterType::PPUDATA => self.ppudata = value,
            RegisterType::OAMDMA => self.oamdma = value,
        }
    }

    /// CPU write, with the register's side effects.
    pub fn write(&mut self, register_type: RegisterType, value: u8)
        requires
            old(self).wf(),
            old(self)@.write_ok(register_type),
        ensures
            final(self).wf(),
            final(self)@ == old(self)@.after_write(register_type, value),
    {
        proof {
            lemma_byte(value);
        }
        match register_type {
            RegisterType::PPUCTRL => self.write_ctrl(value),
            RegisterType::PPUMASK => self.write_mask(value),
            RegisterType::PPUADDR => self.write_addr(value),
            RegisterType::PPUDATA => self.write_data(value),
            RegisterType::OAMADDR => self.write_oamaddr(value),
            RegisterType::OAMDATA => self.write_oamdata(value),
            RegisterType::OAMDMA => {},
            RegisterType::PPUSCROLL => self.write_scroll(value),
            RegisterType::PPUSTATUS => {},
        }
    }

    /// CPU read, with side effects: PPUSTATUS clears vblank and the write
    /// toggle; PPUDATA returns the buffered byte (palette bytes directly)
    /// and advances `v`. Write-only registers read as 0.
    pub fn read(&mut self, register_type: RegisterType) -> (r: u8)
        requires
            old(self).wf(),
            old(self)@.read_ok(register_type),
        ensures
            final(self).wf(),
            r == old(self)@.spec_read_value(register_type),
            final(self)@ == old(self)@.after_read(register_type),
    {
        match register_type {
            RegisterType::PPUCTRL | RegisterType::PPUMASK | RegisterType::OAMADDR
            | RegisterType::PPUSCROLL | RegisterType::PPUADDR | RegisterType::OAMDMA => 0,
            RegisterType::PPUSTATUS => self.read_status(),
            RegisterType::PPUDATA => self.read_data(),
            _ => 8,
        }
    }

    fn read_status(&mut self) -> (r: u8)
        ensures
            r == old(self).ppustatus,
            final(self)@ == (PpuState { ppustatus: old(self).ppustatus & !0x80u8, w: 0, ..old(self)@ }),
    {
        let old_status = self.ppustatus;
        self.ppustatus = old_status & !0x80u8;
        self.w = 0;
        old_status
    }

    fn write_ctrl(&mut self, ctrl: u8)
        ensures
            final(self)@ == old(self)@.after_write_ctrl(ctrl),
    {
        self.ppuctrl = ctrl;
        self.t = (self.t & !0xc00u16) | ((ctrl & 0b11) as u16) << 10u16;
        self.raise_nmi();
    }

    fn write_mask(&mut self, mask: u8)
        ensures
            final(self)@ == (PpuState { ppumask: mask, ..old(self)@ }),
    {
        self.ppumask = mask;
    }

    fn write_oamaddr(&mut self, oamaddr: u8)
        ensures
            final(self)@ == (PpuState { oam_addr: oamaddr, ..old(self)@ }),
    {
        self.oam_addr = oamaddr;
    }

    fn write_oamdata(&mut self, oamdata: u8)
        requires
            old(self).wf(),
            old(self).oam_addr < 255,
        ensures
            final(self).wf(),
            final(self)@ == old(self)@.after_write(RegisterType::OAMDATA, oamdata),
    {
        self.oam.set(self.oam_addr as usize, oamdata);
        self.oam_addr = self.oam_addr + 1;
    }

    /// Copies the 256 bytes of CPU page `data_addr` into OAM.
    pub fn write_oamdma(&mut self, cpu_mem: &[u8], data_addr: u8)
        requires
            old(self).wf(),
            old(self).oam_addr == 0,
            cpu_mem@.len() >= (data_addr as int) * 256 + 256,
        ensures
            final(self).wf(),
            final(self).oam@ == cpu_mem@.subrange(data_addr as int * 256, data_addr as int * 256 + 256),
            final(self)@ == (PpuState { oam: final(self)@.oam, ..old(self)@ }),
    {
        let start_range = (data_addr as usize) << 8usize;
        proof {
            lemma_index(data_addr as usize);
        }
        let mut i: usize = 0;
        while i < 0x100
            invariant
                i <= 0x100,
                start_range == data_addr as int * 256,
                cpu_mem@.len() >= start_range + 256,
                self.oam@.len() == 0x100,
                self.ppu_mem@.len() == 0x4000,
                self.oam_addr == 0,
                forall|j: int| 0 <= j < i ==> self.oam@[j] == cpu_mem@[start_range + j],
                self@ == (PpuState { oam: self@.oam, ..old(self)@ }),
            decreases 0x100 - i,
        {
            self.oam.set(self.oam_addr as usize + i, cpu_mem[start_range + i]);
            i = i + 1;
        }
        proof {
            assert(self.oam@ =~= cpu_mem@.subrange(data_addr as int * 256, data_addr as int * 256 + 256));
        }
    }

    fn write_scroll(&mut self, value: u8)
        ensures
            final(self)@ == old(self)@.after_write_scroll(value),
    {
        if self.w == 0 {
            self.t = ((value >> 3u8) as u16) | (self.t & !0b11111u16);
            self.x = value & 0b111;
            proof {
                lemma_byte(value);
            }
            self.w = 1;
        } else {
            let masked_t = self.t & !0x73E0u16;
            let y_value = (value >> 3u8) as u16;
            let fine_y_value = (value & 0b111) as u16;
            self.t = masked_t | (y_value << 5u16) | (fine_y_value << 12u16);
            self.w = 0;
        }
    }

    fn write_addr(&mut self, addr_byte: u8)
        ensures
            final(self)@ == old(self)@.after_write_addr(addr_byte),
    {
        if self.w == 0 {
            let hi = ((addr_byte & 0b111111) as u16) << 8u16;
            let t0 = self.t;
            let lo = t0 & 0xFF;
            proof {
                assert(hi + lo == hi | lo && (hi | lo) & !(1u16 << 14u16) == hi | lo && hi + lo <= 0xFFFF)
                    by (bit_vector)
                    requires hi == ((addr_byte & 0b111111) as u16) << 8u16, lo == t0 & 0xFF;
            }
            self.t = hi + lo;
            self.t = self.t & !(1u16 << 14u16);
            self.w = 1;
        } else {
            self.t = (self.t & 0xFF00) | addr_byte as u16;
            self.v = self.t;
            self.w = 0;
        }
    }

    fn write_data(&mut self, data: u8)
        requires
            old(self).wf(),
            old(self).v + old(self)@.vram_increment() <= u16::MAX,
        ensures
            final(self).wf(),
            final(self)@ == old(self)@.after_write_data(data),
    {
        let addr_latch = self.v;
        self.write_vram_at((addr_latch as usize) % 0x4000, data);
        if self.ppuctrl & 4 == 4 {
            self.v = addr_latch + 32;
        } else {
            self.v = addr_latch + 1;
        }
    }

    /// Writes `data` at logical PPU address `addr`.
    pub fn write_vram_at(&mut self, addr: usize, data: u8)
        requires
            old(self).wf(),
            addr < 0x4000,
        ensures
            final(self).wf(),
            final(self).ppu_mem@ == old(self)@.after_write_vram(addr as int, data),
            final(self)@ == (PpuState { ppu_mem: final(self)@.ppu_mem, ..old(self)@ }),
    {
        if 0x2000 <= addr && addr <= 0x23FF {
            self.write_to_1st_nametable(addr, data);
        } else if 0x2400 <= addr && addr <= 0x27FF {
            match self.mirroring {
                Mirroring::HORIZONTAL => self.write_to_1st_nametable(addr, data),
                Mirroring::VERTICAL => self.write_to_2nd_nametable(addr, data),
            }
        } else if 0x2800 <= addr && addr <= 0x2BFF {
            match self.mirroring {
                Mirroring::HORIZONTAL => self.write_to_2nd_nametable(addr, data),
                Mirroring::VERTICAL => self.write_to_1st_nametable(addr, data),
            }
        } else if 0x2C00 <= addr && addr <= 0x2FFF {
            self.write_to_2nd_nametable(addr, data);
        } else if 0x3F00 <= addr && addr <= 0x3FFF {
            let offset = (addr & 0xFF) % 0x20;
            proof {
                lemma_index(addr);
            }
            self.write_palette(offset, data);
        } else {
            self.ppu_mem.set(addr, data);
        }
    }

    fn write_palette(&mut self, offset: usize, data: u8)
        requires
            old(self).wf(),
            offset < 0x20,
        ensures
            final(self).wf(),
            final(self).ppu_mem@ == if offset == 0x10 || offset == 0 {
                old(self).ppu_mem@.update(0x3F00, data).update(0x3F10, data)
            } else {
                old(self).ppu_mem@.update(0x3F00 + offset, data)
            },
            final(self)@ == (PpuState { ppu_mem: final(self)@.ppu_mem, ..old(self)@ }),
    {
        if offset == 0x10 || offset == 0x00 {
            self.ppu_mem.set(0x3F00, data);
            self.ppu_mem.set(0x3F10, data);
        } else {
            self.ppu_mem.set(0x3F00 + offset, data);
        }
    }

    fn write_to_1st_nametable(&mut self, addr: usize, data: u8)
        requires
            old(self).wf(),
        ensures
            final(self).wf(),
            final(self).ppu_mem@ == old(self).ppu_mem@.update(0x2000 + addr % 0x400, data),
            final(self)@ == (PpuState { ppu_mem: final(self)@.ppu_mem, ..old(self)@ }),
    {
        let offset = addr % 0x400;
        self.ppu_mem.set(0x2000 + offset, data);
    }

    fn write_to_2nd_nametable(&mut self, addr: usize, data: u8)
        requires
            old(self).wf(),
        ensures
            final(self).wf(),
            final(self).ppu_mem@ == old(self).ppu_mem@.update(0x2400 + addr % 0x400, data),
            final(self)@ == (PpuState { ppu_mem: final(self)@.ppu_mem, ..old(self)@ }),
    {
        let offset = addr % 0x400;
        self.ppu_mem.set(0x2400 + offset, data);
    }

    fn read_data(&mut self) -> (r: u8)
        requires
            old(self).wf(),
            old(self).v + old(self)@.vram_increment() <= u16::MAX,
        ensures
            r == old(self)@.spec_read_value(RegisterType::PPUDATA),
            final(self)@ == old(self)@.after_read(RegisterType::PPUDATA),
    {
        let addr_latch = self.v;
        let a = (addr_latch as usize) % 0x4000;
        let v;
        if 0x3F00 <= a {
            self.vram_read_buffer = self.read_vram_at(a);
            v = self.vram_read_buffer;
        } else {
            let old_buffer = self.vram_read_buffer;
            self.vram_read_buffer = self.read_vram_at(a);
            v = old_buffer;
        }
        if self.ppuctrl & 4 == 4 {
            self.v = addr_latch + 32;
        } else {
            self.v = addr_latch + 1;
        }
        v
    }

    /// Byte at logical PPU address `addr`.
    pub fn read_vram_at(&self, addr: usize) -> (r: u8)
        requires
            self.wf(),
            addr < 0x4000,
        ensures
            r == self@.spec_vram(addr as int),
    {
        if 0x2000 <= addr && addr <= 0x23FF {
            self.read_from_1st_nametable(addr)
        } else if 0x2400 <= addr && addr <= 0x27FF {
            match self.mirroring {
                Mirroring::HORIZONTAL => self.read_from_1st_nametable(addr),
                Mirroring::VERTICAL => self.read_from_2nd_nametable(addr),
            }
        } else if 0x2800 <= addr && addr <= 0x2BFF {
            match self.mirroring {
                Mirroring::HORIZONTAL => self.read_from_2nd_nametable(addr),
                Mirroring::VERTICAL => self.read_from_1st_nametable(addr),
            }
        } else if 0x2C00 <= addr && addr <= 0x2FFF {
            self.read_from_2nd_nametable(addr)
        } else if 0x3F00 <= addr && addr <= 0x3FFF {
            proof {
                lemma_index(addr);
            }
            let offset = (addr & 0xFF) % 0x20;
            self.ppu_mem[0x3F00 + offset]
        } else {
            self.ppu_mem[addr]
        }
    }

    fn read_from_1st_nametable(&self, addr: usize) -> (r: u8)
        requires
            self.wf(),
        ensures
            r == self.ppu_mem@[0x2000 + addr % 0x400],
    {
        let offset = addr % 0x400;
        self.ppu_mem[0x2000 + offset]
    }

    fn read_from_2nd_nametable(&self, addr: usize) -> (r: u8)
        requires
            self.wf(),
        ensures
            r == self.ppu_mem@[0x2400 + addr % 0x400],
    {
        let offset = addr % 0x400;
        self.ppu_mem[0x2400 + offset]
    }

    fn raise_nmi(&mut self)
        ensures
            final(self)@ == (PpuState { nmi: PpuState::spec_nmi(old(self).ppustatus, old(self).ppuctrl), ..old(self)@ }),
    {
        self.nmi = (self.ppustatus & 0x80 == 0x80) && (self.ppuctrl & 0x80 == 0x80);
    }

    /// Logical nametable `table_nb` (0 to 3) as 0x400 bytes of PPU memory.
    pub fn get_logical_table(&self, table_nb: u8) -> (r: &[u8])
        requires
            self.wf(),
            table_nb < 4,
        ensures
            r@ == self.ppu_mem@.subrange(
                vram_slot(self.mirroring, 0x2000 + 0x400 * table_nb),
                vram_slot(self.mirroring, 0x2000 + 0x400 * table_nb) + 0x400,
            ),
    {
        if table_nb == 0 {
            &self.ppu_mem.as_slice()[0x2000..0x2400]
        } else if table_nb == 1 {
            match self.mirroring {
                Mirroring::HORIZONTAL => &self.ppu_mem.as_slice()[0x2000..0x2400],
                Mirroring::VERTICAL => &self.ppu_mem.as_slice()[0x2400..0x2800],
            }
        } else if table_nb == 2 {
            match self.mirroring {
                Mirroring::VERTICAL => &self.ppu_mem.as_slice()[0x2000..0x2400],
                Mirroring::HORIZONTAL => &self.ppu_mem.as_slice()[0x2400..0x2800],
            }
        } else {
            &self.ppu_mem.as_slice()[0x2400..0x2800]
        }
    }
}

/// PPUADDR law: from the first-write state, writing `hi` then `lo` sets
/// `v` (and `t`) to `(hi & 0x3F) << 8 | lo` and leaves the toggle at 0.
pub proof fn lemma_ppuaddr_two_writes(m: PpuState, hi: u8, lo: u8)
    requires
        m.w == 0,
    ensures
        ({
            let m2 = m.after_write(RegisterType::PPUADDR, hi).after_write(RegisterType::PPUADDR, lo);
            &&& m2.v == ((hi as u16 & 0x3F) << 8u16) | lo as u16
            &&& m2.t == m2.v
            &&& m2.w == 0
        }),
{
    let t0 = m.t;
    let t1 = (((hi & 0b111111) as u16) << 8u16) | (t0 & 0xFF);
    assert((t1 & 0xFF00) | lo as u16 == ((hi as u16 & 0x3F) << 8u16) | lo as u16) by (bit_vector)
        requires t1 == (((hi & 0b111111) as u16) << 8u16) | (t0 & 0xFF);
}

/// Read-after-write law: a byte written at a logical PPU address is read
/// back at that address, and at every address that mirrors it.
pub proof fn lemma_vram_read_after_write(m: PpuState, addr: int, other: int, data: u8)
    requires
        m.wf(),
        0 <= addr < 0x4000,
        0 <= other < 0x4000,
        vram_slot(m.mirroring, other) == vram_slot(m.mirroring, addr),
    ensures
        (PpuState { ppu_mem: m.after_write_vram(addr, data), ..m }).spec_vram(other) == data,
{
}

/// Mirroring law: with horizontal mirroring $2000 and $2400 (and $2800
/// and $2C00) are the same table; with vertical mirroring $2000 and $2800
/// (and $2400 and $2C00) are.
pub proof fn lemma_nametable_mirroring(k: int)
    requires
        0 <= k < 0x400,
    ensures
        vram_slot(Mirroring::HORIZONTAL, 0x2000 + k) == vram_slot(Mirroring::HORIZONTAL, 0x2400 + k),
        vram_slot(Mirroring::HORIZONTAL, 0x2800 + k) == vram_slot(Mirroring::HORIZONTAL, 0x2C00 + k),
        vram_slot(Mirroring::HORIZONTAL, 0x2000 + k) != vram_slot(Mirroring::HORIZONTAL, 0x2800 + k),
        vram_slot(Mirroring::VERTICAL, 0x2000 + k) == vram_slot(Mirroring::VERTICAL, 0x2800 + k),
        vram_slot(Mirroring::VERTICAL, 0x2400 + k) == vram_slot(Mirroring::VERTICAL, 0x2C00 + k),
        vram_slot(Mirroring::VERTICAL, 0x2000 + k) != vram_slot(Mirroring::VERTICAL, 0x2400 + k),
{
}

/// Palette law: every address in $3F00-$3FFF reads one of the 32 palette
/// entries, and entries repeat every 0x20 bytes.
pub proof fn lemma_palette_mirroring(m: Mirroring, addr: int)
    requires
        0x3F00 <= addr < 0x3FE0,
    ensures
        0x3F00 <= vram_slot(m, addr) < 0x3F20,
        vram_slot(m, addr) == vram_slot(m, addr + 0x20),
{
}

/// Status-read law: reading PPUSTATUS returns the flags, then clears the
/// vblank flag and the write toggle, so a second read sees bit 7 clear.
pub proof fn lemma_status_read_clears_vblank(m: PpuState)
    ensures
        m.spec_read_value(RegisterType::PPUSTATUS) == m.ppustatus,
        m.after_read(RegisterType::PPUSTATUS).spec_read_value(RegisterType::PPUSTATUS) & 0x80 == 0,
        m.after_read(RegisterType::PPUSTATUS).w == 0,
{
    let s = m.ppustatus;
    lemma_byte(s);
}

/// NMI law: the NMI line is up exactly when both the vblank flag of
/// PPUSTATUS and the NMI-enable bit of PPUCTRL are set, whichever of the two
/// registers is set last.
pub proof fn lemma_nmi_either_order(m: PpuState, status: u8, ctrl: u8)
    ensures
        m.after_update(RegisterType::PPUSTATUS, status).after_write(RegisterType::PPUCTRL, ctrl).nmi
            == (status >= 0x80 && ctrl >= 0x80),
        m.after_write(RegisterType::PPUCTRL, ctrl).after_update(RegisterType::PPUSTATUS, status).nmi
            == (status >= 0x80 && ctrl >= 0x80),
{
    lemma_byte(status);
    lemma_byte(ctrl);
}

/// Peek law: `peek` shows, for each register, the value last stored in it,
/// by the PPU's own `update` or, for PPUCTRL and PPUMASK, by a CPU write;
/// no other update, write or read changes what it shows, except that a read
/// of PPUSTATUS clears bit 7 of that register.
pub proof fn lemma_peek_shows_last_store(m: PpuState, r: RegisterType, other: RegisterType, v: u8)
    ensures
        m.after_update(r, v).spec_peek(r) == v,
        other != r ==> m.after_update(other, v).spec_peek(r) == m.spec_peek(r),
        (r == RegisterType::PPUCTRL || r == RegisterType::PPUMASK) ==> m.after_write(r, v).spec_peek(r) == v,
        !(other == r && (r == RegisterType::PPUCTRL || r == RegisterType::PPUMASK))
            ==> m.after_write(other, v).spec_peek(r) == m.spec_peek(r),
        !(other == RegisterType::PPUSTATUS && r == RegisterType::PPUSTATUS)
            ==> m.after_read(other).spec_peek(r) == m.spec_peek(r),
        m.after_read(RegisterType::PPUSTATUS).spec_peek(RegisterType::PPUSTATUS)
            == m.spec_peek(RegisterType::PPUSTATUS) & !0x80u8,
{
}

/// Nametable write law: with the write toggle at 0, writing the high and
/// then the low byte of an address in $2000-$2FFF to PPUADDR, then a byte
/// to PPUDATA, puts the byte at offset `addr % 0x400` of logical nametable
/// `(addr - 0x2000) / 0x400`, in the 1 KB that `get_logical_table` returns
/// for it (which tables share their bytes: `lemma_nametable_mirroring`).
pub proof fn lemma_nametable_write(m: PpuState, addr: u16, d: u8)
    requires
        m.wf(),
        m.w == 0,
        0x2000 <= addr <= 0x2FFF,
    ensures
        ({
            let m3 = m.after_write(RegisterType::PPUADDR, (addr >> 8u16) as u8)
                .after_write(RegisterType::PPUADDR, (addr & 0xFF) as u8)
                .after_write(RegisterType::PPUDATA, d);
            let table = (addr - 0x2000) / 0x400;
            m3.ppu_mem[vram_slot(m.mirroring, 0x2000 + 0x400 * table) + addr % 0x400] == d
        }),
{
    let hi = (addr >> 8u16) as u8;
    let lo = (addr & 0xFF) as u8;
    lemma_ppuaddr_two_writes(m, hi, lo);
    assert(0x2000 <= addr <= 0x2FFF ==> ((hi as u16 & 0x3F) << 8u16) | lo as u16 == addr) by (bit_vector)
        requires
            hi == (addr >> 8u16) as u8,
            lo == (addr & 0xFF) as u8;
    let m2 = m.after_write(RegisterType::PPUADDR, hi).after_write(RegisterType::PPUADDR, lo);
    assert(m2.v == addr);
    assert(m2.v % 0x4000 == addr);
    let table = (addr - 0x2000) / 0x400;
    assert(vram_slot(m.mirroring, 0x2000 + 0x400 * table) + addr % 0x400 == vram_slot(m.mirroring, addr as int));
}

/// Scroll law: from the first-write state, writing X then Y to PPUSCROLL
/// stores the horizontal scroll as coarse X (bits 0-4 of `t`) and fine X
/// (`x`), and the vertical scroll as coarse Y (bits 5-9) and fine Y (bits
/// 12-14), keeps the nametable bits (10-11) and bit 15 of `t`, and leaves
/// the toggle at 0. A second write on its own (toggle at 1) sets coarse and
/// fine Y the same way and keeps every other bit of `t`.
pub proof fn lemma_scroll_writes(m: PpuState, sx: u8, sy: u8)
    ensures
        m.w == 1 ==> ({
            let m1 = m.after_write(RegisterType::PPUSCROLL, sy);
            &&& (m1.t / 32) % 32 * 8 + (m1.t / 4096) % 8 == sy
            &&& m1.t & 0x8C1F == m.t & 0x8C1F
            &&& m1.w == 0
            &&& m1.x == m.x
        }),
        m.w == 0 ==> ({
            let m2 = m.after_write(RegisterType::PPUSCROLL, sx).after_write(RegisterType::PPUSCROLL, sy);
            &&& m2.t % 32 * 8 + m2.x == sx
            &&& (m2.t / 32) % 32 * 8 + (m2.t / 4096) % 8 == sy
            &&& m2.t & 0x8C00 == m.t & 0x8C00
            &&& m2.w == 0
        }),
{
    let t = m.t;
    let t1 = ((sx >> 3u8) as u16) | (t & !0b11111u16);
    let x1 = sx & 0b111;
    let ty = (t & !0x73E0u16) | (((sy >> 3u8) as u16) << 5u16) | (((sy & 0b111) as u16) << 12u16);
    assert(((ty / 32) % 32 * 8 + (ty / 4096) % 8 == sy) && ty & 0x8C1F == t & 0x8C1F) by (bit_vector)
        requires
            ty == (t & !0x73E0u16) | (((sy >> 3u8) as u16) << 5u16) | (((sy & 0b111) as u16) << 12u16);
    let t2 = (t1 & !0x73E0u16) | (((sy >> 3u8) as u16) << 5u16) | (((sy & 0b111) as u16) << 12u16);
    assert(t2 % 32 * 8 + x1 == sx && (t2 / 32) % 32 * 8 + (t2 / 4096) % 8 == sy && t2 & 0x8C00 == t & 0x8C00)
        by (bit_vector)
        requires
            t1 == ((sx >> 3u8) as u16) | (t & !0b11111u16),
            x1 == sx & 0b111,
            t2 == (t1 & !0x73E0u16) | (((sy >> 3u8) as u16) << 5u16) | (((sy & 0b111) as u16) << 12u16);
}

} // verus!
