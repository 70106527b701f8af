//! MMC1 serial register loading and mirroring.
use nesemu::mapper::mmc1::Mmc1;
use nesemu::mapper::Mirroring;

// Non obfuscated means that the addr to write for reg0 is always 0x8000
#[test]
fn write_to_register0_non_obfuscated() {
    let mut mmc1 = Mmc1::new();
    let mut a = 0b11010;
    mmc1.write_prg(0x8000, a);
    assert_eq!(0b01000000, mmc1.loading_reg);
    assert_eq!(0, mmc1.reg0);
    assert_eq!(0, mmc1.reg1);
    assert_eq!(0, mmc1.reg2);
    assert_eq!(0, mmc1.reg3);
    assert_eq!(false, mmc1.is_loading_reg_full());

    a >>= 1;
    mmc1.write_prg(0x8000, a);
    assert_eq!(0b10100000, mmc1.loading_reg);
    assert_eq!(0, mmc1.reg0);
    assert_eq!(0, mmc1.reg1);
    assert_eq!(0, mmc1.reg2);
    assert_eq!(0, mmc1.reg3);
    assert_eq!(false, mmc1.is_loading_reg_full());

    a >>= 1;
    mmc1.write_prg(0x8000, a);
    assert_eq!(0b01010000, mmc1.loading_reg);
    assert_eq!(0, mmc1.reg0);
    assert_eq!(0, mmc1.reg1);
    assert_eq!(0, mmc1.reg2);
    assert_eq!(0, mmc1.reg3);
    assert_eq!(false, mmc1.is_loading_reg_full());

    a >>= 1;
    mmc1.write_prg(0x8000, a);
    assert_eq!(0b10101000, mmc1.loading_reg);
    assert_eq!(0, mmc1.reg0);
    assert_eq!(0, mmc1.reg1);
    assert_eq!(0, mmc1.reg2);
    assert_eq!(0, mmc1.reg3);
    assert_eq!(true, mmc1.is_loading_reg_full());

    a >>= 1;
    mmc1.write_prg(0x8000, a);
    assert_eq!(0b10000000, mmc1.loading_reg);
    assert_eq!(0b11010, mmc1.reg0);
    assert_eq!(0, mmc1.reg1);
    assert_eq!(0, mmc1.reg2);
    assert_eq!(0, mmc1.reg3);
    assert_eq!(false, mmc1.is_loading_reg_full());
}

// Obfuscated means that only the last addr written to for reg0 is 0x8000
#[test]
fn write_to_register0_obfuscated() {
    let mut mmc1 = Mmc1::new();
    let mut a = 0b11010;
    mmc1.write_prg(0xfe12, a);
    assert_eq!(0b01000000, mmc1.loading_reg);
    assert_eq!(0, mmc1.reg0);
    assert_eq!(0, mmc1.reg1);
    assert_eq!(0, mmc1.reg2);
    assert_eq!(0, mmc1.reg3);
    assert_eq!(false, mmc1.is_loading_reg_full());

    a >>= 1;
    mmc1.write_prg(0xa123, a);
    assert_eq!(0b10100000, mmc1.loading_reg);
    assert_eq!(0, mmc1.reg0);
    assert_eq!(0, mmc1.reg1);
    assert_eq!(0, mmc1.reg2);
    assert_eq!(0, mmc1.reg3);
    assert_eq!(false, mmc1.is_loading_reg_full());

    a >>= 1;
    mmc1.write_prg(0xC999, a);
    assert_eq!(0b01010000, mmc1.loading_reg);
    assert_eq!(0, mmc1.reg0);
    assert_eq!(0, mmc1.reg1);
    assert_eq!(0, mmc1.reg2);
    assert_eq!(0, mmc1.reg3);
    assert_eq!(false, mmc1.is_loading_reg_full());

    a >>= 1;
    mmc1.write_prg(0x812A, a);
    assert_eq!(0b10101000, mmc1.loading_reg);
    assert_eq!(0, mmc1.reg0);
    assert_eq!(0, mmc1.reg1);
    assert_eq!(0, mmc1.reg2);
    assert_eq!(0, mmc1.reg3);
    assert_eq!(true, mmc1.is_loading_reg_full());

    a >>= 1;
    mmc1.write_prg(0x8FFF, a);
    assert_eq!(0b10000000, mmc1.loading_reg);
    assert_eq!(0b11010, mmc1.reg0);
    assert_eq!(0, mmc1.reg1);
    assert_eq!(0, mmc1.reg2);
    assert_eq!(0, mmc1.reg3);
    assert_eq!(false, mmc1.is_loading_reg_full());
}

#[test]
fn test_mirroring() {
    let mut mmc1 = Mmc1::new();
    mmc1.reg0 = 0;
    assert_eq!(Mirroring::ONE_SCREEN, mmc1.get_mirroring());
    mmc1.reg0 = 1;
    assert_eq!(Mirroring::ONE_SCREEN, mmc1.get_mirroring());
    mmc1.reg0 = 2;
    assert_eq!(Mirroring::VERTICAL, mmc1.get_mirroring());
    mmc1.reg0 = 3;
    assert_eq!(Mirroring::HORIZONTAL, mmc1.get_mirroring());
}

use nesemu::mapper::nrom::Nrom;
use nesemu::mapper::mmc3::Mmc3;
use nesemu::mapper::uxrom::Uxrom;
use nesemu::mapper::{create_mapper, MapperType};
use nesemu::rom::{INesFile, RomError};

/// A cartridge whose PRG page `p` (from 0) is filled with `p + 1` and
/// whose CHR page is filled with 0xCC.
fn cartridge(prg_pages: usize, chr_pages: usize, flags_6: u8, flags_7: u8) -> INesFile {
    let mut prg = Vec::new();
    for p in 0..prg_pages {
        prg.extend(std::iter::repeat((p + 1) as u8).take(16384));
    }
    let chr = vec![0xCC; chr_pages * 8192];
    INesFile::new(prg, prg_pages, chr, chr_pages, 0, flags_6, flags_7, 0, 0)
}

#[test]
fn nrom_with_one_page_mirrors_it() {
    let nrom = Nrom::from(&cartridge(1, 1, 0, 0)).unwrap();
    assert_eq!(1, nrom.read_prg(0x8000));
    assert_eq!(1, nrom.read_prg(0xC123));
    assert_eq!(0xCC, nrom.read_chr(0x1FFF));
    assert_eq!(Mirroring::HORIZONTAL, nrom.get_mirroring());
    let nrom2 = Nrom::from(&cartridge(2, 1, 1, 0)).unwrap();
    assert_eq!(2, nrom2.read_prg(0xFFFF));
    assert_eq!(Mirroring::VERTICAL, nrom2.get_mirroring());
    assert!(matches!(Nrom::from(&cartridge(3, 1, 0, 0)), Err(RomError::UnsupportedPageCount(3))));
}

#[test]
fn uxrom_switches_the_low_bank_and_fixes_the_last() {
    let mut uxrom = Uxrom::from(&cartridge(4, 0, 0, 0)).unwrap();
    assert_eq!(1, uxrom.read_prg(0x8000));
    assert_eq!(4, uxrom.read_prg(0xC000));
    uxrom.write_prg(0x8000, 0xF2);
    assert_eq!(2, uxrom.prg_bank_idx);
    assert_eq!(3, uxrom.read_prg(0xBFFF));
    assert_eq!(4, uxrom.read_prg(0xFFFF));
    // Pattern tables are RAM.
    assert_eq!(0, uxrom.read_chr(0x10));
    uxrom.write_chr(0x10, 0x5A);
    assert_eq!(0x5A, uxrom.read_chr(0x10));
}

#[test]
fn mapper_number_selects_the_mapper() {
    assert!(matches!(create_mapper(&cartridge(1, 1, 0, 0)), Ok(MapperType::Nrom(_))));
    assert!(matches!(create_mapper(&cartridge(2, 1, 0x10, 0)), Ok(MapperType::Mmc1(_))));
    assert!(matches!(create_mapper(&cartridge(2, 0, 0x20, 0)), Ok(MapperType::Uxrom(_))));
    assert!(matches!(create_mapper(&cartridge(2, 1, 0x40, 0)), Ok(MapperType::Mmc3(_))));
    assert!(matches!(create_mapper(&cartridge(2, 0, 0x30, 0)), Err(RomError::UnsupportedMapper(3))));
    assert!(matches!(create_mapper(&cartridge(2, 0, 0x11, 0x40)), Err(RomError::UnsupportedMapper(0x41))));
}

#[test]
fn mapper_number_takes_both_high_nibbles() {
    assert_eq!(0, cartridge(1, 1, 0x0F, 0x0F).get_mapper_id());
    assert_eq!(1, cartridge(1, 1, 0x11, 0).get_mapper_id());
    assert_eq!(4, cartridge(1, 1, 0x40, 0).get_mapper_id());
    assert_eq!(0xA5, cartridge(1, 1, 0x50, 0xA0).get_mapper_id());
    assert_eq!(0xFF, cartridge(1, 1, 0xF0, 0xF0).get_mapper_id());
}

#[test]
fn mmc3_keeps_the_last_bank_and_follows_mirroring_writes() {
    let mut mmc3 = Mmc3::from(&cartridge(4, 1, 0x40, 0)).unwrap();
    // Four 16 KB pages are eight 8 KB banks; the last is the second half of page 4.
    assert_eq!(4, mmc3.read_prg(0xE000));
    assert_eq!(Mirroring::VERTICAL, mmc3.get_mirroring());
    mmc3.write_prg(0x8000, 6);
    mmc3.write_prg(0x8001, 2);
    mmc3.write_prg(0x8000, 7);
    mmc3.write_prg(0x8001, 3);
    mmc3.write_prg(0xA000, 1);
    mmc3.count_12();
    mmc3.write_prg(0xA001, 0);
    assert_eq!(2, mmc3.read_prg(0x8000));
    assert_eq!(2, mmc3.read_prg(0xA000));
    assert_eq!(4, mmc3.read_prg(0xFFFF));
    assert_eq!(0, mmc3.read_prg(0x7FFF));
    assert_eq!(Mirroring::HORIZONTAL, mmc3.get_mirroring());
    mmc3.write_prg(0xBFFE, 2);
    assert_eq!(Mirroring::VERTICAL, mmc3.get_mirroring());
}
