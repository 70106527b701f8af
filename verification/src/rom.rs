//! iNES cartridge images: header validation and PRG/CHR page access.
use vstd::prelude::*;
use crate::bits::lemma_byte;
use crate::mapper::Mirroring;
use crate::bytes::copy_range;

verus! {

/// Size of one PRG-ROM page (16 KB).
pub const PRG_PAGE_SIZE: usize = 16384;
/// Size of one CHR-ROM page (8 KB).
pub const CHR_PAGE_SIZE: usize = 8192;

/// Why a cartridge image or one of its pages was refused.
#[derive(Debug, PartialEq, Eq, Structural, Copy, Clone)]
pub enum RomError {
    /// The image is shorter than the 16-byte header; holds the length found.
    TooShort(usize),
    /// The first four bytes are not `$4E $45 $53 $1A`.
    BadMagic,
    /// Header bytes 11 to 15 are not all zero.
    BadPadding,
    /// A page past the last one was asked for.
    PageOutOfRange { page: usize, available: usize },
    /// The mapper does not support this number of PRG pages.
    UnsupportedPageCount(usize),
    /// The mapper number is not implemented.
    UnsupportedMapper(u16),
}

/// Header bytes are present, the magic matches and the padding is zero.
pub open spec fn header_ok(b: Seq<u8>) -> bool {
    &&& b.len() >= 16
    &&& b[0] == 0x4E && b[1] == 0x45 && b[2] == 0x53 && b[3] == 0x1A
    &&& forall|i: int| 11 <= i < 16 ==> b[i] == 0
}

/// Length of the optional trainer that follows the header.
pub open spec fn trainer_len(b: Seq<u8>) -> int {
    if (b[6] >> 2u8) & 1u8 == 1u8 { 512 } else { 0 }
}

/// Offset of the first PRG-ROM byte.
pub open spec fn prg_start(b: Seq<u8>) -> int {
    16 + trainer_len(b)
}

/// Offset of the first CHR-ROM byte.
pub open spec fn chr_start(b: Seq<u8>) -> int {
    prg_start(b) + b[4] * 16384
}

/// Offset just past the last CHR-ROM byte.
pub open spec fn image_end(b: Seq<u8>) -> int {
    chr_start(b) + b[5] * 8192
}

/// An image with a valid header holds every page that its header announces.
pub open spec fn image_complete(b: Seq<u8>) -> bool {
    header_ok(b) ==> b.len() >= image_end(b)
}

/// A parsed iNES cartridge.
#[derive(Debug)]
pub struct INesFile {
    prg_rom: Vec<u8>,
    prg_rom_pages: usize,
    chr_rom: Vec<u8>,
    chr_rom_size: usize,
    flags_6: u8,
    flags_7: u8,
    prg_ram_size: usize,
    flags_9: u8,
    flags_10: u8,
}

impl INesFile {
    pub closed spec fn spec_prg_rom(&self) -> Seq<u8> {
        self.prg_rom@
    }

    pub closed spec fn spec_prg_pages(&self) -> usize {
        self.prg_rom_pages
    }

    pub closed spec fn spec_chr_rom(&self) -> Seq<u8> {
        self.chr_rom@
    }

    pub closed spec fn spec_chr_pages(&self) -> usize {
        self.chr_rom_size
    }

    pub closed spec fn spec_flags_6(&self) -> u8 {
        self.flags_6
    }

    pub closed spec fn spec_flags_7(&self) -> u8 {
        self.flags_7
    }

    pub closed spec fn spec_prg_ram_size(&self) -> usize {
        self.prg_ram_size
    }

    pub closed spec fn spec_flags_9(&self) -> u8 {
        self.flags_9
    }

    pub closed spec fn spec_flags_10(&self) -> u8 {
        self.flags_10
    }

    /// The page counts agree with the stored bytes, as for every parsed image.
    pub open spec fn pages_consistent(&self) -> bool {
        &&& self.spec_prg_rom().len() == self.spec_prg_pages() * 16384
        &&& self.spec_chr_rom().len() == self.spec_chr_pages() * 8192
    }

    /// iNES mapper number: its low nibble is the high nibble of flags 6,
    /// its high nibble the high nibble of flags 7.
    pub open spec fn spec_mapper_id(&self) -> u16 {
        ((self.spec_flags_7() & 0xF0) | (self.spec_flags_6() >> 4u8)) as u16
    }

    /// Mirroring from bit 0 of flags 6.
    pub open spec fn spec_mirroring(&self) -> Mirroring {
        if self.spec_flags_6() % 2 == 1 { Mirroring::VERTICAL } else { Mirroring::HORIZONTAL }
    }

    pub fn new(
        prg_rom: Vec<u8>,
        prg_rom_pages: usize,
        chr_rom: Vec<u8>,
        chr_rom_size: usize,
        prg_ram_size: usize,
        flags_6: u8,
        flags_7: u8,
        flags_9: u8,
        flags_10: u8,
    ) -> (r: INesFile)
        ensures
            r.spec_prg_rom() == prg_rom@,
            r.spec_prg_pages() == prg_rom_pages,
            r.spec_chr_rom() == chr_rom@,
            r.spec_chr_pages() == chr_rom_size,
            r.spec_prg_ram_size() == prg_ram_size,
            r.spec_flags_6() == flags_6,
            r.spec_flags_7() == flags_7,
            r.spec_flags_9() == flags_9,
            r.spec_flags_10() == flags_10,
    {
        INesFile {
            prg_rom,
            prg_rom_pages,
            chr_rom,
            chr_rom_size,
            flags_6,
            flags_7,
            prg_ram_size,
            flags_9,
            flags_10,
        }
    }

    pub fn get_mapper_id(&self) -> (id: u16)
        ensures
            id == self.spec_mapper_id(),
    {
        let lower_nib = self.flags_6 >> 4u8;
        let upper_nib = self.flags_7 & 0xF0;
        (upper_nib | lower_nib) as u16
    }

    pub fn get_prg_rom_pages(&self) -> (n: usize)
        ensures
            n == self.spec_prg_pages(),
    {
        self.prg_rom_pages
    }

    /// The 16 KB PRG page `page_nb`, counted from 1.
    pub fn get_prg_rom(&self, page_nb: usize) -> (r: Result<&[u8], RomError>)
        requires
            page_nb >= 1,
            page_nb <= self.spec_prg_pages() ==> page_nb * 16384 <= self.spec_prg_rom().len(),
        ensures
            page_nb > self.spec_prg_pages() <==> r is Err,
            r matches Err(e) ==> e == (RomError::PageOutOfRange {
                page: page_nb,
                available: self.spec_prg_pages(),
            }),
            r matches Ok(s) ==> s@ == self.spec_prg_rom().subrange(
                (page_nb - 1) * 16384,
                page_nb * 16384,
            ),
    {
        if page_nb > self.prg_rom_pages {
            return Err(RomError::PageOutOfRange { page: page_nb, available: self.prg_rom_pages });
        }
        let n = self.prg_rom.len();
        proof {
            assert((page_nb - 1) * 16384 <= page_nb * 16384 <= usize::MAX) by (nonlinear_arith)
                requires page_nb >= 1, page_nb * 16384 <= self.spec_prg_rom().len(),
                    self.spec_prg_rom().len() == n;
        }
        let start = (page_nb - 1) * 16 * 1024;
        let end = page_nb * 16 * 1024;
        Ok(&self.prg_rom.as_slice()[start..end])
    }

    pub fn get_chr_rom_pages(&self) -> (n: usize)
        ensures
            n == self.spec_chr_pages(),
    {
        self.chr_rom_size
    }

    /// The 8 KB CHR page `page_nb`, counted from 1.
    pub fn get_chr_rom(&self, page_nb: usize) -> (r: Result<&[u8], RomError>)
        requires
            page_nb >= 1,
            page_nb <= self.spec_chr_pages() ==> page_nb * 8192 <= self.spec_chr_rom().len(),
        ensures
            page_nb > self.spec_chr_pages() <==> r is Err,
            r matches Err(e) ==> e == (RomError::PageOutOfRange {
                page: page_nb,
                available: self.spec_chr_pages(),
            }),
            r matches Ok(s) ==> s@ == self.spec_chr_rom().subrange(
                (page_nb - 1) * 8192,
                page_nb * 8192,
            ),
    {
        if page_nb > self.chr_rom_size {
            return Err(RomError::PageOutOfRange { page: page_nb, available: self.chr_rom_size });
        }
        let n = self.chr_rom.len();
        proof {
            assert((page_nb - 1) * 8192 <= page_nb * 8192 <= usize::MAX) by (nonlinear_arith)
                requires page_nb >= 1, page_nb * 8192 <= self.spec_chr_rom().len(),
                    self.spec_chr_rom().len() == n;
        }
        let start = (page_nb - 1) * 8 * 1024;
        let end = page_nb * 8 * 1024;
        Ok(&self.chr_rom.as_slice()[start..end])
    }

    pub fn get_mirroring(&self) -> (m: Mirroring)
        ensures
            m == self.spec_mirroring(),
    {
        if self.flags_6 & 1 == 1 {
            proof {
                let f = self.flags_6;
                lemma_byte(f);
            }
            Mirroring::VERTICAL
        } else {
            proof {
                let f = self.flags_6;
                lemma_byte(f);
            }
            Mirroring::HORIZONTAL
        }
    }
}

/// Parses an iNES image: 16-byte header, optional 512-byte trainer, PRG pages, CHR pages.
pub fn read(bytes: &[u8]) -> (r: Result<INesFile, RomError>)
    requires
        image_complete(bytes@),
    ensures
        r is Ok <==> header_ok(bytes@),
        r matches Err(e) ==> {
            if bytes@.len() < 16 {
                e == RomError::TooShort(bytes@.len() as usize)
            } else if !(bytes@[0] == 0x4E && bytes@[1] == 0x45 && bytes@[2] == 0x53
                && bytes@[3] == 0x1A) {
                e == RomError::BadMagic
            } else {
                e == RomError::BadPadding
            }
        },
        r matches Ok(f) ==> {
            &&& f.spec_prg_pages() == bytes@[4]
            &&& f.spec_chr_pages() == bytes@[5]
            &&& f.spec_flags_6() == bytes@[6]
            &&& f.spec_flags_7() == bytes@[7]
            &&& f.spec_prg_ram_size() == bytes@[8]
            &&& f.spec_flags_9() == bytes@[9]
            &&& f.spec_flags_10() == bytes@[10]
            &&& f.spec_prg_rom() == bytes@.subrange(prg_start(bytes@), chr_start(bytes@))
            &&& f.spec_chr_rom() == bytes@.subrange(chr_start(bytes@), image_end(bytes@))
            &&& f.pages_consistent()
        },
{
    if bytes.len() < 16 {
        return Err(RomError::TooShort(bytes.len()));
    }
    if !(bytes[0] == 0x4E && bytes[1] == 0x45 && bytes[2] == 0x53 && bytes[3] == 0x1A) {
        return Err(RomError::BadMagic);
    }
    let prg_rom_size = bytes[4] as usize;
    let chr_rom_size = bytes[5] as usize;
    let flags_6 = bytes[6];
    let flags_7 = bytes[7];
    let prg_ram_size = bytes[8] as usize;
    let flags_9 = bytes[9];
    let flags_10 = bytes[10];

    let mut i: usize = 11;
    while i < 16
        invariant
            11 <= i <= 16 <= bytes@.len(),
            bytes@[0] == 0x4E && bytes@[1] == 0x45 && bytes@[2] == 0x53 && bytes@[3] == 0x1A,
            forall|j: int| 11 <= j < i ==> bytes@[j] == 0,
        decreases 16 - i,
    {
        if bytes[i] != 0 {
            return Err(RomError::BadPadding);
        }
        i = i + 1;
    }
    assert(header_ok(bytes@));

    let mut offset: usize = 16;
    if (flags_6 >> 2u8) & 1u8 == 1u8 {
        offset = offset + 512;
    }
    let prg_end = offset + prg_rom_size * 16384;
    let prg_rom = copy_range(bytes, offset, prg_end);
    let chr_end = prg_end + chr_rom_size * 8192;
    let chr_rom = copy_range(bytes, prg_end, chr_end);

    Ok(INesFile {
        prg_rom,
        prg_rom_pages: prg_rom_size,
        chr_rom,
        chr_rom_size,
        flags_6,
        flags_7,
        prg_ram_size,
        flags_9,
        flags_10,
    })
}

} // verus!
