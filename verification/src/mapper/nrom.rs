//! NROM (mapper 0): no bank switching. One or two 16 KB PRG pages and one
//! 8 KB CHR page (CHR RAM when the cartridge has no CHR-ROM).
use vstd::prelude::*;
use super::Mirroring;
use crate::bytes::{copy_range, zeros};
use crate::rom::{INesFile, RomError};

verus! {

pub struct Nrom {
    /// Number of PRG pages on the cartridge, 1 or 2.
    pub nb_page: usize,
    /// Mapped to CPU $8000-$BFFF (0x4000 bytes).
    pub prg_rom_first: Vec<u8>,
    /// Mapped to CPU $C000-$FFFF (0x4000 bytes).
    pub prg_rom_last: Vec<u8>,
    /// PPU pattern tables (0x2000 bytes).
    pub chr_rom: Vec<u8>,
    pub mirroring: Mirroring,
}

impl Nrom {
    pub open spec fn wf(&self) -> bool {
        &&& self.prg_rom_first@.len() == 0x4000
        &&& self.prg_rom_last@.len() == 0x4000
        &&& self.chr_rom@.len() == 0x2000
    }

    /// Byte seen by the CPU at `addr`.
    pub open spec fn spec_read_prg(&self, addr: usize) -> u8 {
        if 0x8000 <= addr <= 0xBFFF {
            self.prg_rom_first@[addr - 0x8000]
        } else if 0xC000 <= addr <= 0xFFFF {
            self.prg_rom_last@[addr - 0xC000]
        } else {
            0
        }
    }

    /// Empty NROM: one zeroed page mirrored in both halves.
    pub fn new() -> (r: Nrom)
        ensures
            r.wf(),
            r.nb_page == 1,
            r.mirroring == Mirroring::HORIZONTAL,
            forall|i: int| 0 <= i < 0x4000 ==> r.prg_rom_first@[i] == 0 && r.prg_rom_last@[i] == 0,
            forall|i: int| 0 <= i < 0x2000 ==> r.chr_rom@[i] == 0,
    {
        Nrom {
            nb_page: 1,
            prg_rom_first: zeros(0x4000),
            prg_rom_last: zeros(0x4000),
            chr_rom: zeros(0x2000),
            mirroring: Mirroring::HORIZONTAL,
        }
    }

    /// Builds the mapper from a cartridge with one or two PRG pages. A single
    /// page is visible in both halves of $8000-$FFFF.
    pub fn from(ines: &INesFile) -> (r: Result<Nrom, RomError>)
        requires
            (ines.spec_prg_pages() == 1 || ines.spec_prg_pages() == 2) ==>
                ines.spec_prg_rom().len() >= ines.spec_prg_pages() * 16384,
            ines.spec_chr_pages() > 0 ==> ines.spec_chr_rom().len() >= 8192,
        ensures
            r is Ok <==> (ines.spec_prg_pages() == 1 || ines.spec_prg_pages() == 2),
            r matches Err(e) ==> e == RomError::UnsupportedPageCount(ines.spec_prg_pages()),
            r matches Ok(m) ==> {
                &&& m.wf()
                &&& m.nb_page == ines.spec_prg_pages()
                &&& m.mirroring == ines.spec_mirroring()
                &&& m.prg_rom_first@ == ines.spec_prg_rom().subrange(0, 0x4000)
                &&& m.prg_rom_last@ == ines.spec_prg_rom().subrange(
                    (ines.spec_prg_pages() - 1) * 0x4000,
                    ines.spec_prg_pages() * 0x4000,
                )
                &&& ines.spec_chr_pages() > 0 ==> m.chr_rom@ == ines.spec_chr_rom().subrange(0, 0x2000)
                &&& ines.spec_chr_pages() == 0 ==> m.chr_rom@ == Seq::new(0x2000, |i: int| 0u8)
            },
    {
        let page_nb = ines.get_prg_rom_pages();
        let prg_rom_first;
        let prg_rom_last;
        if page_nb == 1 {
            let page = match ines.get_prg_rom(1) {
                Ok(p) => p,
                Err(e) => return Err(e),
            };
            prg_rom_first = copy_range(page, 0, page.len());
            prg_rom_last = copy_range(page, 0, page.len());
        } else if page_nb == 2 {
            let page = match ines.get_prg_rom(1) {
                Ok(p) => p,
                Err(e) => return Err(e),
            };
            prg_rom_first = copy_range(page, 0, page.len());
            let page2 = match ines.get_prg_rom(2) {
                Ok(p) => p,
                Err(e) => return Err(e),
            };
            prg_rom_last = copy_range(page2, 0, page2.len());
        } else {
            return Err(RomError::UnsupportedPageCount(page_nb));
        }

        let chr_rom;
        if ines.get_chr_rom_pages() > 0 {
            let vrom = match ines.get_chr_rom(1) {
                Ok(p) => p,
                Err(e) => return Err(e),
            };
            chr_rom = copy_range(vrom, 0, vrom.len());
        } else {
            chr_rom = zeros(0x2000);
        }
        proof {
            assert(prg_rom_first@ =~= ines.spec_prg_rom().subrange(0, 0x4000));
        }
        Ok(Nrom {
            nb_page: page_nb,
            prg_rom_first,
            prg_rom_last,
            chr_rom,
            mirroring: ines.get_mirroring(),
        })
    }

    pub fn read_prg(&self, addr: usize) -> (r: u8)
        requires
            self.wf(),
        ensures
            r == self.spec_read_prg(addr),
    {
        if 0x8000 <= addr && addr <= 0xBFFF {
            self.prg_rom_first[addr % 0x4000]
        } else if 0xC000 <= addr && addr <= 0xFFFF {
            self.prg_rom_last[addr % 0x4000]
        } else {
            0
        }
    }

    /// The PRG area is writable in this emulator: the byte lands in the
    /// selected half; addresses outside $8000-$FFFF are ignored.
    pub fn write_prg(&mut self, addr: usize, value: u8)
        requires
            old(self).wf(),
        ensures
            final(self).wf(),
            final(self).nb_page == old(self).nb_page,
            final(self).chr_rom == old(self).chr_rom,
            final(self).mirroring == old(self).mirroring,
            final(self).prg_rom_first@ == if 0x8000 <= addr <= 0xBFFF {
                old(self).prg_rom_first@.update(addr - 0x8000, value)
            } else {
                old(self).prg_rom_first@
            },
            final(self).prg_rom_last@ == if 0xC000 <= addr <= 0xFFFF {
                old(self).prg_rom_last@.update(addr - 0xC000, value)
            } else {
                old(self).prg_rom_last@
            },
    {
        if 0x8000 <= addr && addr <= 0xBFFF {
            self.prg_rom_first.set(addr % 0x4000, value);
        } else if 0xC000 <= addr && addr <= 0xFFFF {
            self.prg_rom_last.set(addr % 0x4000, value);
        }
    }

    /// Pattern table byte; `addr` must lie in $0000-$1FFF.
    pub fn read_chr(&self, addr: usize) -> (r: u8)
        requires
            self.wf(),
            addr < 0x2000,
        ensures
            r == self.chr_rom@[addr as int],
    {
        self.chr_rom[addr]
    }

    pub fn write_chr(&mut self, addr: usize, value: u8)
        requires
            old(self).wf(),
            addr < 0x2000,
        ensures
            final(self).wf(),
            final(self).chr_rom@ == old(self).chr_rom@.update(addr as int, value),
            final(self).nb_page == old(self).nb_page,
            final(self).prg_rom_first == old(self).prg_rom_first,
            final(self).prg_rom_last == old(self).prg_rom_last,
            final(self).mirroring == old(self).mirroring,
    {
        self.chr_rom.set(addr, value);
    }

    /// Pattern table `idx` (0 for $0000, anything else for $1000).
    pub fn get_chr(&self, idx: usize) -> (r: &[u8])
        requires
            self.wf(),
        ensures
            r@ == if idx == 0 {
                self.chr_rom@.subrange(0, 0x1000)
            } else {
                self.chr_rom@.subrange(0x1000, 0x2000)
            },
    {
        if idx == 0 {
            &self.chr_rom.as_slice()[0..0x1000]
        } else {
            &self.chr_rom.as_slice()[0x1000..0x2000]
        }
    }

    pub fn get_mirroring(&self) -> (m: Mirroring)
        ensures
            m == self.mirroring,
    {
        self.mirroring
    }
}

} // verus!
