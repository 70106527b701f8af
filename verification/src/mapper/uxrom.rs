//! UxROM (mapper 2): the 16 KB bank at $8000 is switchable, the bank at
//! $C000 is fixed to the last one. Pattern tables are 8 KB of CHR RAM.
use vstd::prelude::*;
use super::Mirroring;
use crate::bytes::{append_slice, zeros, lemma_bank_offset};
use crate::rom::{INesFile, RomError};

verus! {

pub struct Uxrom {
    /// All 16 KB PRG banks, back to back; bank `i` starts at `i * 0x4000`.
    pub prg_rom_banks: Vec<u8>,
    /// Two 4 KB pattern tables, back to back (0x2000 bytes).
    pub chr_rom_banks: Vec<u8>,
    /// Bank mapped at $8000-$BFFF.
    pub prg_bank_idx: usize,
    pub mirroring: Mirroring,
}

impl Uxrom {
    /// Number of 16 KB PRG banks.
    pub open spec fn prg_banks(&self) -> int {
        self.prg_rom_banks@.len() as int / 0x4000
    }

    pub open spec fn wf(&self) -> bool {
        &&& self.prg_rom_banks@.len() % 0x4000 == 0
        &&& self.chr_rom_banks@.len() == 0x2000
    }

    /// Reading `addr` would not index past the PRG banks.
    pub open spec fn prg_readable(&self, addr: usize) -> bool {
        &&& 0x8000 <= addr <= 0xBFFF ==> self.prg_bank_idx < self.prg_banks()
        &&& 0xC000 <= addr <= 0xFFFF ==> self.prg_banks() > 0
    }

    pub open spec fn spec_read_prg(&self, addr: usize) -> u8 {
        if 0x8000 <= addr <= 0xBFFF {
            self.prg_rom_banks@[self.prg_bank_idx * 0x4000 + (addr - 0x8000)]
        } else if 0xC000 <= addr <= 0xFFFF {
            self.prg_rom_banks@[(self.prg_banks() - 1) * 0x4000 + (addr - 0xC000)]
        } else {
            0
        }
    }

    pub fn read_prg(&self, addr: usize) -> (r: u8)
        requires
            self.wf(),
            self.prg_readable(addr),
        ensures
            r == self.spec_read_prg(addr),
    {
        let _len = self.prg_rom_banks.len();
        assert(self.prg_banks() * 0x4000 == self.prg_rom_banks@.len());
        if 0x8000 <= addr && addr <= 0xBFFF {
            proof {
                lemma_bank_offset(self.prg_bank_idx as int, self.prg_banks(), 0x4000, (addr % 0x4000) as int);
                assert(self.prg_bank_idx * 0x4000 + addr % 0x4000 < self.prg_rom_banks@.len());
            }
            self.prg_rom_banks[self.prg_bank_idx * 0x4000 + addr % 0x4000]
        } else if 0xC000 <= addr && addr <= 0xFFFF {
            let last = self.prg_rom_banks.len() / 0x4000 - 1;
            proof {
                lemma_bank_offset(last as int, self.prg_banks(), 0x4000, (addr % 0x4000) as int);
            }
            self.prg_rom_banks[last * 0x4000 + addr % 0x4000]
        } else {
            0
        }
    }

    /// Writing anywhere in PRG space selects the bank at $8000 (low 4 bits).
    pub fn write_prg(&mut self, _addr: usize, value: u8)
        ensures
            final(self).prg_bank_idx == (value & 0xF) as usize,
            final(self).prg_rom_banks == old(self).prg_rom_banks,
            final(self).chr_rom_banks == old(self).chr_rom_banks,
            final(self).mirroring == old(self).mirroring,
    {
        self.prg_bank_idx = (value & 0xF) as usize;
    }

    pub open spec fn spec_read_chr(&self, addr: usize) -> u8 {
        if addr <= 0x1FFF {
            self.chr_rom_banks@[addr as int]
        } else {
            0
        }
    }

    pub fn read_chr(&self, addr: usize) -> (r: u8)
        requires
            self.wf(),
        ensures
            r == self.spec_read_chr(addr),
    {
        if addr <= 0x0FFF {
            self.chr_rom_banks[addr % 0x1000]
        } else if addr <= 0x1FFF {
            self.chr_rom_banks[0x1000 + addr % 0x1000]
        } else {
            0
        }
    }

    pub fn write_chr(&mut self, addr: usize, value: u8)
        requires
            old(self).wf(),
        ensures
            final(self).wf(),
            final(self).chr_rom_banks@ == if addr <= 0x1FFF {
                old(self).chr_rom_banks@.update(addr as int, value)
            } else {
                old(self).chr_rom_banks@
            },
            final(self).prg_rom_banks == old(self).prg_rom_banks,
            final(self).prg_bank_idx == old(self).prg_bank_idx,
            final(self).mirroring == old(self).mirroring,
    {
        if addr <= 0x0FFF {
            self.chr_rom_banks.set(addr % 0x1000, value);
        } else if addr <= 0x1FFF {
            self.chr_rom_banks.set(0x1000 + addr % 0x1000, value);
        }
    }

    /// Pattern table `idx` (0 for $0000, anything else for $1000).
    pub fn get_chr(&self, idx: usize) -> (r: &[u8])
        requires
            self.wf(),
        ensures
            r@ == if idx == 0 {
                self.chr_rom_banks@.subrange(0, 0x1000)
            } else {
                self.chr_rom_banks@.subrange(0x1000, 0x2000)
            },
    {
        if idx == 0 {
            &self.chr_rom_banks.as_slice()[0..0x1000]
        } else {
            &self.chr_rom_banks.as_slice()[0x1000..0x2000]
        }
    }

    pub fn get_mirroring(&self) -> (m: Mirroring)
        ensures
            m == self.mirroring,
    {
        self.mirroring
    }

    /// Mapper with no PRG bank and zeroed CHR RAM.
    pub fn new() -> (r: Uxrom)
        ensures
            r.wf(),
            r.prg_rom_banks@.len() == 0,
            r.chr_rom_banks@ == Seq::new(0x2000, |i: int| 0u8),
            r.prg_bank_idx == 0,
            r.mirroring == Mirroring::HORIZONTAL,
    {
        Uxrom {
            chr_rom_banks: zeros(0x2000),
            prg_rom_banks: Vec::new(),
            prg_bank_idx: 0,
            mirroring: Mirroring::HORIZONTAL,
        }
    }

    /// Loads every PRG page; pattern tables start zeroed (CHR RAM).
    pub fn from(ines: &INesFile) -> (r: Result<Uxrom, RomError>)
        requires
            ines.spec_prg_rom().len() >= ines.spec_prg_pages() * 16384,
        ensures
            r matches Ok(m) && m.wf()
                && m.prg_rom_banks@ == ines.spec_prg_rom().subrange(0, ines.spec_prg_pages() * 16384)
                && m.chr_rom_banks@ == Seq::new(0x2000, |i: int| 0u8)
                && m.prg_bank_idx == 0
                && m.mirroring == ines.spec_mirroring(),
    {
        let mut pages: Vec<u8> = Vec::new();
        let n = ines.get_prg_rom_pages();
        let mut nb: usize = 0;
        while nb < n
            invariant
                nb <= n == ines.spec_prg_pages(),
                ines.spec_prg_rom().len() >= n * 16384,
                pages@ == ines.spec_prg_rom().subrange(0, nb * 16384),
            decreases n - nb,
        {
            proof {
                assert((nb + 1) * 16384 <= n * 16384) by (nonlinear_arith)
                    requires nb < n;
            }
            let rom_page = match ines.get_prg_rom(nb + 1) {
                Ok(p) => p,
                Err(e) => return Err(e),
            };
            append_slice(&mut pages, rom_page);
            nb = nb + 1;
            proof {
                assert(pages@ =~= ines.spec_prg_rom().subrange(0, nb * 16384));
            }
        }
        proof {
            assert(pages@.len() == n * 16384);
            assert((n * 16384) % 0x4000 == 0) by (nonlinear_arith);
        }
        Ok(Uxrom {
            chr_rom_banks: zeros(0x2000),
            prg_rom_banks: pages,
            prg_bank_idx: 0,
            mirroring: ines.get_mirroring(),
        })
    }
}

} // verus!
