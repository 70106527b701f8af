//! iNES parsing.
use nesemu::mapper::Mirroring;
use nesemu::rom::{read, RomError};

fn image(prg: u8, chr: u8, flags_6: u8) -> Vec<u8> {
    let mut bytes = vec![0x4E, 0x45, 0x53, 0x1A, prg, chr, flags_6, 0, 0, 0, 0, 0, 0, 0, 0, 0];
    if flags_6 & 4 != 0 {
        bytes.extend_from_slice(&vec![0xAAu8; 512]);
    }
    for p in 0..prg {
        bytes.extend_from_slice(&vec![p + 1; 16384]);
    }
    for c in 0..chr {
        bytes.extend_from_slice(&vec![0x80 + c; 8192]);
    }
    bytes
}

#[test]
fn load_normal_rom() {
    let ines = read(&image(2, 1, 1)).unwrap();
    assert_eq!(2, ines.get_prg_rom_pages());
    assert_eq!(1, ines.get_chr_rom_pages());
    assert_eq!(0, ines.get_mapper_id());
    assert_eq!(Mirroring::VERTICAL, ines.get_mirroring());
    assert_eq!(2, ines.get_prg_rom(2).unwrap()[0]);
    assert_eq!(0x80, ines.get_chr_rom(1).unwrap()[8191]);
}

#[test]
fn trainer_is_skipped() {
    let ines = read(&image(1, 0, 4)).unwrap();
    assert_eq!(1, ines.get_prg_rom(1).unwrap()[0]);
    assert_eq!(Mirroring::HORIZONTAL, ines.get_mirroring());
}

#[test]
fn rom_errors() {
    assert_eq!(Some(RomError::TooShort(3)), read(&[0x4E, 0x45, 0x53]).err());
    let mut bad_magic = image(1, 0, 0);
    bad_magic[3] = 0;
    assert_eq!(Some(RomError::BadMagic), read(&bad_magic).err());
    let mut bad_padding = image(1, 0, 0);
    bad_padding[12] = 1;
    assert_eq!(Some(RomError::BadPadding), read(&bad_padding).err());
    let ines = read(&image(1, 0, 0)).unwrap();
    assert_eq!(Some(RomError::PageOutOfRange { page: 2, available: 1 }), ines.get_prg_rom(2).err());
    assert_eq!(Some(RomError::PageOutOfRange { page: 1, available: 0 }), ines.get_chr_rom(1).err());
}
