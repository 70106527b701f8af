//! Cartridge mappers. Mappers extend the NES by providing bank switching:
//! PRG-ROM is mapped to CPU memory, CHR-ROM to the PPU pattern tables.
use vstd::prelude::*;
use crate::rom::{INesFile, RomError};

pub mod mmc1;
pub mod mmc3;
pub mod nrom;
pub mod uxrom;

verus! {

/// How the two physical nametables are mapped onto the four logical ones.
#[allow(non_camel_case_types)]
#[derive(Debug, PartialEq, Eq, Structural, Copy, Clone)]
pub enum Mirroring {
    HORIZONTAL,
    VERTICAL,
    ONE_SCREEN,
}

/// The cartridge mapper of a loaded game.
pub enum MapperType {
    Nrom(nrom::Nrom),
    Mmc1(mmc1::Mmc1),
    Uxrom(uxrom::Uxrom),
    Mmc3(mmc3::Mmc3),
}

impl MapperType {
    pub open spec fn wf(&self) -> bool {
        match self {
            MapperType::Nrom(x) => x.wf(),
            MapperType::Mmc1(x) => x.wf(),
            MapperType::Uxrom(x) => x.wf(),
            MapperType::Mmc3(x) => x.wf(),
        }
    }

    pub open spec fn prg_readable(&self, addr: usize) -> bool {
        match self {
            MapperType::Nrom(x) => true,
            MapperType::Mmc1(x) => x.prg_readable(addr),
            MapperType::Uxrom(x) => x.prg_readable(addr),
            MapperType::Mmc3(x) => x.prg_readable(addr),
        }
    }

    pub open spec fn prg_writable(&self, addr: usize) -> bool {
        match self {
            MapperType::Mmc3(x) => (0x8000 <= addr <= 0x9FFF && addr % 2 == 1
                && x.reg_bank_select & 0b111 == 6) ==> x.prg_banks() >= 2,
            _ => true,
        }
    }

    pub open spec fn chr_accessible(&self, addr: usize) -> bool {
        match self {
            MapperType::Nrom(x) => addr < 0x2000,
            MapperType::Mmc1(x) => x.chr_accessible(addr),
            MapperType::Uxrom(x) => true,
            MapperType::Mmc3(x) => x.chr_accessible(addr),
        }
    }

    pub open spec fn spec_read_prg(&self, addr: usize) -> u8 {
        match self {
            MapperType::Nrom(x) => x.spec_read_prg(addr),
            MapperType::Mmc1(x) => x.spec_read_prg(addr),
            MapperType::Uxrom(x) => x.spec_read_prg(addr),
            MapperType::Mmc3(x) => x.spec_read_prg(addr),
        }
    }

    pub open spec fn spec_read_chr(&self, addr: usize) -> u8 {
        match self {
            MapperType::Nrom(x) => x.chr_rom@[addr as int],
            MapperType::Mmc1(x) => x.spec_read_chr(addr),
            MapperType::Uxrom(x) => x.spec_read_chr(addr),
            MapperType::Mmc3(x) => x.spec_read_chr(addr),
        }
    }

    pub fn read_prg(&self, addr: usize) -> (r: u8)
        requires
            self.wf(),
            self.prg_readable(addr),
        ensures
            r == self.spec_read_prg(addr),
    {
        match self {
            MapperType::Nrom(x) => x.read_prg(addr),
            MapperType::Mmc1(x) => x.read_prg(addr),
            MapperType::Uxrom(x) => x.read_prg(addr),
            MapperType::Mmc3(x) => x.read_prg(addr),
        }
    }

    pub fn write_prg(&mut self, addr: usize, value: u8)
        requires
            old(self).wf(),
            old(self).prg_writable(addr),
        ensures
            final(self).wf(),
            match (*old(self), *final(self)) {
                (MapperType::Nrom(a), MapperType::Nrom(b)) => b.prg_rom_first@ == (
                    if 0x8000 <= addr <= 0xBFFF { a.prg_rom_first@.update(addr - 0x8000, value) }
                    else { a.prg_rom_first@ }) && b.prg_rom_last@ == (
                    if 0xC000 <= addr <= 0xFFFF { a.prg_rom_last@.update(addr - 0xC000, value) }
                    else { a.prg_rom_last@ }) && b.chr_rom == a.chr_rom
                    && b.nb_page == a.nb_page && b.mirroring == a.mirroring,
                (MapperType::Mmc1(a), MapperType::Mmc1(b)) => b == a.after_write_prg(addr, value),
                (MapperType::Uxrom(a), MapperType::Uxrom(b)) => b == (uxrom::Uxrom {
                    prg_bank_idx: (value & 0xF) as usize, ..a }),
                (MapperType::Mmc3(a), MapperType::Mmc3(b)) => b == a.after_write_prg(addr, value),
                _ => false,
            },
    {
        match self {
            MapperType::Nrom(x) => x.write_prg(addr, value),
            MapperType::Mmc1(x) => x.write_prg(addr, value),
            MapperType::Uxrom(x) => x.write_prg(addr, value),
            MapperType::Mmc3(x) => x.write_prg(addr, value),
        }
    }

    /// Pattern table byte; sometimes CHR RAM rather than ROM.
    pub fn read_chr(&self, addr: usize) -> (r: u8)
        requires
            self.wf(),
            self.chr_accessible(addr),
        ensures
            r == self.spec_read_chr(addr),
    {
        match self {
            MapperType::Nrom(x) => x.read_chr(addr),
            MapperType::Mmc1(x) => x.read_chr(addr),
            MapperType::Uxrom(x) => x.read_chr(addr),
            MapperType::Mmc3(x) => x.read_chr(addr),
        }
    }

    pub fn write_chr(&mut self, addr: usize, value: u8)
        requires
            old(self).wf(),
            old(self).chr_accessible(addr),
        ensures
            final(self).wf(),
            addr <= 0x1FFF ==> final(self).spec_read_chr(addr) == value,
    {
        match self {
            MapperType::Nrom(x) => x.write_chr(addr, value),
            MapperType::Mmc1(x) => x.write_chr(addr, value),
            MapperType::Uxrom(x) => x.write_chr(addr, value),
            MapperType::Mmc3(x) => x.write_chr(addr, value),
        }
    }

    pub fn get_mirroring(&self) -> (m: Mirroring)
        ensures
            match self {
                MapperType::Nrom(x) => m == x.mirroring,
                MapperType::Mmc1(x) => m == x.spec_mirroring(),
                MapperType::Uxrom(x) => m == x.mirroring,
                MapperType::Mmc3(x) => m == (if x.reg_mirroring % 2 == 0 { Mirroring::VERTICAL }
                    else { Mirroring::HORIZONTAL }),
            },
    {
        match self {
            MapperType::Nrom(x) => x.get_mirroring(),
            MapperType::Mmc1(x) => x.get_mirroring(),
            MapperType::Uxrom(x) => x.get_mirroring(),
            MapperType::Mmc3(x) => x.get_mirroring(),
        }
    }
}

/// Mapper numbers this emulator implements.
pub open spec fn mapper_supported(id: u16) -> bool {
    id == 0 || id == 1 || id == 2 || id == 4
}

/// Builds the mapper named by the cartridge header: 0 NROM, 1 MMC1,
/// 2 UxROM, 4 MMC3; any other number is refused.
pub fn create_mapper(rom: &INesFile) -> (r: Result<MapperType, RomError>)
    requires
        rom.spec_prg_rom().len() >= rom.spec_prg_pages() * 16384,
        rom.spec_chr_rom().len() >= rom.spec_chr_pages() * 8192,
        rom.spec_mapper_id() == 0 ==> (rom.spec_prg_pages() == 1 || rom.spec_prg_pages() == 2),
        rom.spec_mapper_id() == 1 || rom.spec_mapper_id() == 4 ==> rom.spec_prg_pages() >= 1,
    ensures
        r is Ok <==> mapper_supported(rom.spec_mapper_id()),
        r matches Err(e) ==> e == RomError::UnsupportedMapper(rom.spec_mapper_id()),
        r matches Ok(m) ==> m.wf() && match m {
            MapperType::Nrom(_) => rom.spec_mapper_id() == 0,
            MapperType::Mmc1(_) => rom.spec_mapper_id() == 1,
            MapperType::Uxrom(_) => rom.spec_mapper_id() == 2,
            MapperType::Mmc3(_) => rom.spec_mapper_id() == 4,
        },
{
    let mapper_id = rom.get_mapper_id();
    if mapper_id == 0 {
        match nrom::Nrom::from(rom) {
            Ok(x) => Ok(MapperType::Nrom(x)),
            Err(e) => Err(e),
        }
    } else if mapper_id == 1 {
        match mmc1::Mmc1::from(rom) {
            Ok(x) => Ok(MapperType::Mmc1(x)),
            Err(e) => Err(e),
        }
    } else if mapper_id == 2 {
        match uxrom::Uxrom::from(rom) {
            Ok(x) => Ok(MapperType::Uxrom(x)),
            Err(e) => Err(e),
        }
    } else if mapper_id == 4 {
        match mmc3::Mmc3::from(rom) {
            Ok(x) => Ok(MapperType::Mmc3(x)),
            Err(e) => Err(e),
        }
    } else {
        Err(RomError::UnsupportedMapper(mapper_id))
    }
}

} // verus!
