//! The CPU address space. RAM is 2 KB mirrored up to $1FFF, the eight PPU
//! registers repeat over $2000-$3FFF, $4014 starts an OAM DMA, and the rest
//! (cartridge space) is plain memory. The APU registers are $4000-$4013,
//! $4015 and $4017 (writes), $4015 (reads). Joypad #1 is read at $4016 and
//! joypad #2 at $4017; a write to $4016 strobes both.
use vstd::prelude::*;
use crate::bits::lemma_index;
use crate::apu::{lemma_apu_wf, silent_apu, ApuMemory};
use crate::bytes::{append_slice, zeros};
use crate::joypad::{released_joypad, Joypad};
use crate::ppu::memory::{
    initial_state, power_on_state, register_at, Mirroring, PpuMemory, PpuState, RegisterType,
};
use crate::rom::{INesFile, RomError};

verus! {

pub struct Memory {
    /// The 64 KB seen by the CPU. Only the first 2 KB of $0000-$1FFF are
    /// used; the PPU registers live in `ppu_mem`.
    pub mem: Vec<u8>,
    pub ppu_mem: PpuMemory,
    pub joypad_p1: Joypad,
    pub joypad_p2: Joypad,
    pub apu_mem: ApuMemory,
}

/// Mathematical view of [`Memory`].
pub struct MemState {
    pub ram: Seq<u8>,
    pub ppu: PpuState,
    pub joypad_p1: Joypad,
    pub joypad_p2: Joypad,
    pub apu: ApuMemory,
}

impl View for Memory {
    type V = MemState;

    open spec fn view(&self) -> MemState {
        MemState {
            ram: self.mem@,
            ppu: self.ppu_mem@,
            joypad_p1: self.joypad_p1,
            joypad_p2: self.joypad_p2,
            apu: self.apu_mem,
        }
    }
}

/// Addresses that reach a PPU register.
pub open spec fn is_ppu_register(addr: int) -> bool {
    0x2000 <= addr <= 0x3FFF
}

/// Addresses written to the APU.
pub open spec fn is_apu_register(addr: int) -> bool {
    0x4000 <= addr <= 0x4013 || addr == 0x4015 || addr == 0x4017
}

/// Slot of `mem` that backs a CPU address outside the PPU registers.
pub open spec fn ram_slot(addr: int) -> int {
    if addr < 0x2000 { addr % 0x800 } else { addr }
}

impl MemState {
    pub open spec fn wf(self) -> bool {
        self.ram.len() == 0x10000 && self.ppu.wf() && self.apu.wf()
    }

    /// A CPU read at `addr` (below $10000): the byte and the state after it,
    /// or `None` where the read would fail.
    pub open spec fn read(self, addr: int) -> Option<(u8, MemState)> {
        if is_ppu_register(addr) {
            let reg = register_at(addr);
            if self.ppu.read_ok(reg) {
                Some((self.ppu.spec_read_value(reg), MemState { ppu: self.ppu.after_read(reg), ..self }))
            } else {
                None
            }
        } else if addr == 0x4014 {
            Some((0u8, self))
        } else if addr == 0x4015 {
            Some((self.apu.spec_status(), self))
        } else if addr == 0x4016 {
            let j = self.joypad_p1;
            if j.current_index < 255 {
                Some((j.spec_report(j.current_index), MemState {
                    joypad_p1: Joypad { current_index: (j.current_index + 1) as u8, ..j },
                    ..self
                }))
            } else {
                None
            }
        } else if addr == 0x4017 {
            let j = self.joypad_p2;
            if j.current_index < 255 {
                Some((j.spec_report(j.current_index), MemState {
                    joypad_p2: Joypad { current_index: (j.current_index + 1) as u8, ..j },
                    ..self
                }))
            } else {
                None
            }
        } else {
            Some((self.ram[ram_slot(addr)], self))
        }
    }

    /// A CPU write at `addr` (below $10000), or `None` where it would fail.
    /// A write to $4014 copies the CPU page `value` into OAM.
    pub open spec fn write(self, addr: int, value: u8) -> Option<MemState> {
        if is_ppu_register(addr) {
            let reg = register_at(addr);
            if self.ppu.write_ok(reg) {
                Some(MemState { ppu: self.ppu.after_write(reg, value), ..self })
            } else {
                None
            }
        } else if addr == 0x4014 {
            if self.ppu.oam_addr == 0 {
                Some(MemState {
                    ppu: PpuState {
                        oam: self.ram.subrange(value * 256, value * 256 + 256),
                        ..self.ppu
                    },
                    ..self
                })
            } else {
                None
            }
        } else if addr == 0x4016 {
            Some(MemState {
                joypad_p1: self.joypad_p1.after_strobe(value),
                joypad_p2: self.joypad_p2.after_strobe(value),
                ..self
            })
        } else if is_apu_register(addr) {
            Some(MemState { apu: self.apu.after_write(addr as usize, value), ..self })
        } else {
            Some(MemState { ram: self.ram.update(ram_slot(addr), value), ..self })
        }
    }
}

/// Memory at power on: all zero, PPU registers cleared.
pub open spec fn blank_state() -> MemState {
    MemState {
        ram: Seq::new(0x10000, |i: int| 0u8),
        ppu: power_on_state(Mirroring::HORIZONTAL, Seq::new(0x4000, |i: int| 0u8)),
        joypad_p1: released_joypad(),
        joypad_p2: released_joypad(),
        apu: silent_apu(),
    }
}

/// Address space after loading a cartridge: PRG page 1 at $8000 and page 2
/// at $C000, or page 1 at both places when the cartridge has only one.
pub open spec fn loaded_ram(ines: &INesFile) -> Seq<u8> {
    let prg = ines.spec_prg_rom();
    Seq::new(0x8000, |i: int| 0u8) + prg.subrange(0, 16384) + if ines.spec_prg_pages() == 1 {
        prg.subrange(0, 16384)
    } else {
        prg.subrange(16384, 32768)
    }
}

/// Memory right after loading the cartridge `ines`.
pub open spec fn cartridge_state(ines: &INesFile) -> MemState {
    MemState {
        ram: loaded_ram(ines),
        ppu: initial_state(ines),
        joypad_p1: released_joypad(),
        joypad_p2: released_joypad(),
        apu: silent_apu(),
    }
}

impl Default for Memory {
    fn default() -> (m: Memory)
        ensures
            m@ == blank_state(),
    {
        let mem = zeros(0x10000);
        proof {
            assert(mem@ =~= Seq::new(0x10000, |i: int| 0u8));
        }
        Memory {
            mem,
            ppu_mem: PpuMemory::empty(),
            joypad_p1: Joypad::new(),
            joypad_p2: Joypad::new(),
            apu_mem: ApuMemory::new(),
        }
    }
}

impl Memory {
    /// Maps the cartridge's first PRG page at $8000 and its second (or the
    /// first again) at $C000, and loads the PPU side.
    pub fn new(ines: &INesFile) -> (r: Result<Memory, RomError>)
        requires
            ines.pages_consistent(),
        ensures
            r is Err <==> ines.spec_prg_pages() == 0,
            r matches Err(e) ==> e == (RomError::PageOutOfRange { page: 1, available: 0 }),
            r matches Ok(m) ==> m@ == cartridge_state(ines),
    {
        let page_nb = ines.get_prg_rom_pages();
        let mut mem = zeros(0x8000);
        let page = match ines.get_prg_rom(1) {
            Ok(p) => p,
            Err(e) => return Err(e),
        };
        append_slice(&mut mem, page);
        if page_nb == 1 {
            append_slice(&mut mem, page);
        } else {
            let page2 = match ines.get_prg_rom(2) {
                Ok(p) => p,
                Err(e) => return Err(e),
            };
            append_slice(&mut mem, page2);
        }
        proof {
            assert(mem@ =~= loaded_ram(ines));
        }
        let ppu_mem = PpuMemory::new(ines);
        Ok(Memory { mem, ppu_mem, joypad_p1: Joypad::new(), joypad_p2: Joypad::new(), apu_mem: ApuMemory::new() })
    }

    pub open spec fn wf(&self) -> bool {
        self@.wf()
    }

    /// CPU write with the side effects of the register it reaches.
    pub fn set(&mut self, address: usize, value: u8)
        requires
            old(self).wf(),
            address < 0x10000,
            old(self)@.write(address as int, value) is Some,
        ensures
            final(self).wf(),
            old(self)@.write(address as int, value) == Some(final(self)@),
    {
        if address < 0x2000 {
            self.mem.set(address % 0x800, value);
        } else if address <= 0x3FFF {
            match RegisterType::lookup(0x2000 + address % 8) {
                Some(register_type) => self.ppu_mem.write(register_type, value),
                None => {},
            }
        } else if address == 0x4016 {
            self.joypad_p1.write(value);
            self.joypad_p2.write(value);
        } else if (0x4000 <= address && address <= 0x4013) || address == 0x4015 || address == 0x4017 {
            proof {
                lemma_apu_wf(self.apu_mem, address, value, 0);
            }
            self.apu_mem.write(address, value);
        } else if address == 0x4014 {
            proof {
                assert((value as int) * 256 + 256 <= 0x10000) by (nonlinear_arith)
                    requires value <= 255;
            }
            self.ppu_mem.write_oamdma(self.mem.as_slice(), value);
        } else {
            self.mem.set(address, value);
        }
    }

    /// CPU read with the side effects of the register it reaches.
    pub fn get(&mut self, address: usize) -> (r: u8)
        requires
            old(self).wf(),
            address < 0x10000,
            old(self)@.read(address as int) is Some,
        ensures
            final(self).wf(),
            old(self)@.read(address as int) == Some((r, final(self)@)),
    {
        if address < 0x2000 {
            self.mem[address % 0x800]
        } else if address <= 0x3FFF {
            match RegisterType::lookup(0x2000 + address % 8) {
                Some(register_type) => self.ppu_mem.read(register_type),
                None => 0,
            }
        } else if address == 0x4014 {
            self.ppu_mem.read(RegisterType::OAMDMA)
        } else if address == 0x4015 {
            self.apu_mem.read()
        } else if address == 0x4016 {
            self.joypad_p1.read()
        } else if address == 0x4017 {
            self.joypad_p2.read()
        } else {
            self.mem[address]
        }
    }

    /// Whether the PPU asks for a non-maskable interrupt.
    pub fn nmi(&self) -> (r: bool)
        ensures
            r == self.ppu_mem.nmi,
    {
        self.ppu_mem.get_nmi_occured()
    }

    /// Byte stored for `address`, without side effects: RAM with its
    /// mirrors, else the backing memory as is.
    pub fn peek(&self, address: usize) -> (r: u8)
        requires
            self.wf(),
            address < 0x10000,
        ensures
            r == self@.ram[ram_slot(address as int)],
    {
        if address < 0x2000 {
            proof {
                lemma_index(address);
            }
            self.mem[address & 0x7FF]
        } else {
            self.mem[address]
        }
    }
}

/// RAM mirroring law: the four 2 KB windows of $0000-$1FFF are one memory,
/// so a byte written through one of them is read back through any other.
pub proof fn lemma_ram_mirrors(m: MemState, addr: int, other: int, value: u8)
    requires
        m.wf(),
        0 <= addr < 0x2000,
        0 <= other < 0x2000,
        addr % 0x800 == other % 0x800,
    ensures
        m.write(addr, value) is Some,
        m.write(addr, value).unwrap().read(other) == Some((value, m.write(addr, value).unwrap())),
{
}

/// PPU register mirroring law: $2000-$2007 repeat every eight bytes up to
/// $3FFF.
pub proof fn lemma_ppu_register_mirrors(addr: int)
    requires
        0x2000 <= addr <= 0x3FF7,
    ensures
        register_at(addr) == register_at(addr + 8),
{
}

} // verus!
