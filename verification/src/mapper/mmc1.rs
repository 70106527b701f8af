//! MMC1 (mapper 1). Banks are switchable; writing to $8000-$FFFF feeds a
//! serial loading register that, after five writes, lands in one of four
//! internal registers chosen by the address of the fifth write.
use vstd::prelude::*;
use crate::bits::lemma_byte;
use super::Mirroring;
use crate::bytes::{append_slice, zeros, lemma_bank_offset};
use crate::rom::{INesFile, RomError};

verus! {

pub struct Mmc1 {
    /// 16 KB PRG banks, back to back; bank `i` starts at `i * 0x4000`.
    pub prg_rom_banks: Vec<u8>,
    /// 4 KB CHR banks, back to back; bank `i` starts at `i * 0x1000`.
    pub chr_rom_banks: Vec<u8>,
    pub prg_low_area_idx: usize,
    pub prg_high_area_idx: usize,
    pub chr_low_area_idx: usize,
    pub chr_high_area_idx: usize,
    /// Serial loading register. `0b1000_0000` is empty; once the marker bit
    /// has been shifted down to bit 3, the next write completes a load.
    pub loading_reg: u8,
    /// Control ($8000-$9FFF): bits 0-1 mirroring, bit 2 PRG area, bit 3 PRG
    /// 16/32 KB, bit 4 CHR 4/8 KB.
    pub reg0: u8,
    /// CHR bank 0 ($A000-$BFFF).
    pub reg1: u8,
    /// CHR bank 1 ($C000-$DFFF).
    pub reg2: u8,
    /// PRG bank ($E000-$FFFF).
    pub reg3: u8,
}

/// Shifts bit 0 of `value` into bit 7 of the loading register.
pub open spec fn shift_in(loading_reg: u8, value: u8) -> u8 {
    (((value & 1) << 7u8) | (loading_reg >> 1u8)) as u8
}

impl Mmc1 {
    pub open spec fn prg_banks(&self) -> int {
        self.prg_rom_banks@.len() as int / 0x4000
    }

    pub open spec fn chr_banks(&self) -> int {
        self.chr_rom_banks@.len() as int / 0x1000
    }

    pub open spec fn wf(&self) -> bool {
        &&& self.prg_rom_banks@.len() % 0x4000 == 0
        &&& self.chr_rom_banks@.len() % 0x1000 == 0
    }

    pub open spec fn spec_is_chr_8kb(&self) -> bool {
        (self.reg0 >> 4u8) & 1 == 0
    }

    pub open spec fn spec_is_prg_32kb(&self) -> bool {
        (self.reg0 >> 3u8) & 1 == 0
    }

    pub open spec fn spec_is_low_area_switcheable(&self) -> bool {
        (self.reg0 >> 2u8) & 1 == 1
    }

    /// State after the CHR bank at $0000 is switched from `reg1`.
    pub open spec fn after_switch_chr_bank0(self) -> Mmc1 {
        if self.spec_is_chr_8kb() {
            Mmc1 {
                chr_low_area_idx: (self.reg1 >> 1u8) as usize,
                chr_high_area_idx: ((self.reg1 >> 1u8) + 1) as usize,
                ..self
            }
        } else {
            Mmc1 { chr_low_area_idx: self.reg1 as usize, ..self }
        }
    }

    /// State after the CHR bank at $1000 is switched from `reg2`.
    pub open spec fn after_switch_chr_bank1(self) -> Mmc1 {
        if !self.spec_is_chr_8kb() {
            Mmc1 { chr_high_area_idx: self.reg2 as usize, ..self }
        } else {
            self
        }
    }

    /// State after the PRG banks are switched from `reg3`.
    pub open spec fn after_switch_prg_bank(self) -> Mmc1 {
        if self.spec_is_prg_32kb() {
            Mmc1 {
                prg_low_area_idx: ((self.reg3 >> 1u8) * 2) as usize,
                prg_high_area_idx: ((self.reg3 >> 1u8) * 2 + 1) as usize,
                ..self
            }
        } else if self.spec_is_low_area_switcheable() {
            Mmc1 { prg_low_area_idx: self.reg3 as usize, ..self }
        } else {
            Mmc1 { prg_high_area_idx: self.reg3 as usize, ..self }
        }
    }

    /// State after a write of `value` to PRG address `addr`.
    pub open spec fn after_write_prg(self, addr: usize, value: u8) -> Mmc1 {
        if value & 0x80 == 0x80 {
            Mmc1 { reg0: self.reg0 | 0x0C, loading_reg: 0x80, ..self }
        } else if self.loading_reg & 0x8 == 0x8 {
            let full = shift_in(self.loading_reg, value);
            let load = (full & 0b11111000) >> 3u8;
            let s = Mmc1 { loading_reg: full, ..self };
            let s2 = if 0x8000 <= addr <= 0x9FFF {
                Mmc1 { reg0: load, ..s }
            } else if 0xA000 <= addr <= 0xBFFF {
                Mmc1 { reg1: load, ..s }.after_switch_chr_bank0()
            } else if 0xC000 <= addr <= 0xDFFF {
                Mmc1 { reg2: load, ..s }.after_switch_chr_bank1()
            } else if 0xE000 <= addr <= 0xFFFF {
                Mmc1 { reg3: load, ..s }.after_switch_prg_bank()
            } else {
                s
            };
            Mmc1 { loading_reg: 0x80, ..s2 }
        } else {
            Mmc1 { loading_reg: shift_in(self.loading_reg, value), ..self }
        }
    }

    pub open spec fn prg_readable(&self, addr: usize) -> bool {
        &&& 0x8000 <= addr <= 0xBFFF ==> self.prg_low_area_idx < self.prg_banks()
        &&& 0xC000 <= addr <= 0xFFFF ==> self.prg_high_area_idx < self.prg_banks()
    }

    pub open spec fn spec_read_prg(&self, addr: usize) -> u8 {
        if 0x8000 <= addr <= 0xBFFF {
            self.prg_rom_banks@[self.prg_low_area_idx * 0x4000 + (addr - 0x8000)]
        } else if 0xC000 <= addr <= 0xFFFF {
            self.prg_rom_banks@[self.prg_high_area_idx * 0x4000 + (addr - 0xC000)]
        } else {
            0
        }
    }

    pub open spec fn chr_accessible(&self, addr: usize) -> bool {
        &&& addr <= 0x0FFF ==> self.chr_low_area_idx < self.chr_banks()
        &&& 0x1000 <= addr <= 0x1FFF ==> self.chr_high_area_idx < self.chr_banks()
    }

    /// Position in `chr_rom_banks` of pattern address `addr` (below $2000).
    pub open spec fn chr_offset(&self, addr: usize) -> int {
        if addr <= 0x0FFF {
            self.chr_low_area_idx * 0x1000 + addr
        } else {
            self.chr_high_area_idx * 0x1000 + (addr - 0x1000)
        }
    }

    pub open spec fn spec_read_chr(&self, addr: usize) -> u8 {
        if addr <= 0x1FFF {
            self.chr_rom_banks@[self.chr_offset(addr)]
        } else {
            0
        }
    }

    pub open spec fn spec_mirroring(&self) -> Mirroring {
        if self.reg0 & 0b10 == 0 {
            Mirroring::ONE_SCREEN
        } else if self.reg0 & 0b1 == 1 {
            Mirroring::HORIZONTAL
        } else {
            Mirroring::VERTICAL
        }
    }

    pub fn read_prg(&self, addr: usize) -> (r: u8)
        requires
            self.wf(),
            self.prg_readable(addr),
        ensures
            r == self.spec_read_prg(addr),
    {
        let _len = self.prg_rom_banks.len();
        assert(self.prg_banks() * 0x4000 == self.prg_rom_banks@.len());
        if 0x8000 <= addr && addr <= 0xBFFF {
            proof {
                lemma_bank_offset(self.prg_low_area_idx as int, self.prg_banks(), 0x4000, (addr % 0x4000) as int);
            }
            self.prg_rom_banks[self.prg_low_area_idx * 0x4000 + addr % 0x4000]
        } else if 0xC000 <= addr && addr <= 0xFFFF {
            proof {
                lemma_bank_offset(self.prg_high_area_idx as int, self.prg_banks(), 0x4000, (addr % 0x4000) as int);
            }
            self.prg_rom_banks[self.prg_high_area_idx * 0x4000 + addr % 0x4000]
        } else {
            0
        }
    }

    /// Writing to PRG space drives the serial loading register. A value with
    /// bit 7 set resets it and forces 16 KB PRG mode with $C000 fixed.
    pub fn write_prg(&mut self, addr: usize, value: u8)
        ensures
            *final(self) == old(self).after_write_prg(addr, value),
    {
        if value & 0x80 == 0x80 {
            self.reg0 = self.reg0 | 0x0C;
            self.reset_loading_reg();
            return;
        }

        if self.is_loading_reg_full() {
            let v = (value & 1) << 7u8;
            self.loading_reg = v | (self.loading_reg >> 1u8);

            let value_to_load = (self.loading_reg & 0b11111000) >> 3u8;

            if 0x8000 <= addr && addr <= 0x9FFF {
                self.reg0 = value_to_load;
            } else if 0xA000 <= addr && addr <= 0xBFFF {
                self.reg1 = value_to_load;
                self.switch_chr_bank0();
            } else if 0xC000 <= addr && addr <= 0xDFFF {
                self.reg2 = value_to_load;
                self.switch_chr_bank1();
            } else if 0xE000 <= addr && addr <= 0xFFFF {
                self.reg3 = value_to_load;
                self.switch_prg_bank();
            }
            self.reset_loading_reg();
        } else {
            let v = (value & 1) << 7u8;
            self.loading_reg = v | (self.loading_reg >> 1u8);
        }
    }

    pub fn read_chr(&self, addr: usize) -> (r: u8)
        requires
            self.wf(),
            self.chr_accessible(addr),
        ensures
            r == self.spec_read_chr(addr),
    {
        let _len = self.chr_rom_banks.len();
        assert(self.chr_banks() * 0x1000 == self.chr_rom_banks@.len());
        if addr <= 0x0FFF {
            proof {
                lemma_bank_offset(self.chr_low_area_idx as int, self.chr_banks(), 0x1000, (addr % 0x1000) as int);
            }
            self.chr_rom_banks[self.chr_low_area_idx * 0x1000 + addr % 0x1000]
        } else if addr <= 0x1FFF {
            proof {
                lemma_bank_offset(self.chr_high_area_idx as int, self.chr_banks(), 0x1000, (addr % 0x1000) as int);
            }
            self.chr_rom_banks[self.chr_high_area_idx * 0x1000 + addr % 0x1000]
        } else {
            0
        }
    }

    pub fn write_chr(&mut self, addr: usize, value: u8)
        requires
            old(self).wf(),
            old(self).chr_accessible(addr),
        ensures
            final(self).chr_rom_banks@ == if addr <= 0x1FFF {
                old(self).chr_rom_banks@.update(old(self).chr_offset(addr), value)
            } else {
                old(self).chr_rom_banks@
            },
            *final(self) == (Mmc1 { chr_rom_banks: final(self).chr_rom_banks, ..*old(self) }),
            final(self).wf(),
    {
        let _len = self.chr_rom_banks.len();
        assert(self.chr_banks() * 0x1000 == self.chr_rom_banks@.len());
        if addr <= 0x0FFF {
            proof {
                lemma_bank_offset(self.chr_low_area_idx as int, self.chr_banks(), 0x1000, (addr % 0x1000) as int);
            }
            self.chr_rom_banks.set(self.chr_low_area_idx * 0x1000 + addr % 0x1000, value);
        } else if addr <= 0x1FFF {
            proof {
                lemma_bank_offset(self.chr_high_area_idx as int, self.chr_banks(), 0x1000, (addr % 0x1000) as int);
            }
            self.chr_rom_banks.set(self.chr_high_area_idx * 0x1000 + addr % 0x1000, value);
        }
    }

    /// The 4 KB pattern table mapped at $0000 (`idx == 0`) or $1000.
    pub fn get_chr(&self, idx: usize) -> (r: &[u8])
        requires
            self.wf(),
            idx == 0 ==> self.chr_low_area_idx < self.chr_banks(),
            idx != 0 ==> self.chr_high_area_idx < self.chr_banks(),
        ensures
            r@ == if idx == 0 {
                self.chr_rom_banks@.subrange(
                    self.chr_low_area_idx * 0x1000,
                    self.chr_low_area_idx * 0x1000 + 0x1000,
                )
            } else {
                self.chr_rom_banks@.subrange(
                    self.chr_high_area_idx * 0x1000,
                    self.chr_high_area_idx * 0x1000 + 0x1000,
                )
            },
    {
        let _len = self.chr_rom_banks.len();
        assert(self.chr_banks() * 0x1000 == self.chr_rom_banks@.len());
        let bank = if idx == 0 { self.chr_low_area_idx } else { self.chr_high_area_idx };
        proof {
            lemma_bank_offset(bank as int, self.chr_banks(), 0x1000, 0);
        }
        &self.chr_rom_banks.as_slice()[bank * 0x1000..bank * 0x1000 + 0x1000]
    }

    /// Bit 1 of the control register clear means one-screen mirroring;
    /// otherwise bit 0 picks horizontal (1) or vertical (0).
    pub fn get_mirroring(&self) -> (m: Mirroring)
        ensures
            m == self.spec_mirroring(),
    {
        if self.reg0 & 0b10 == 0 {
            Mirroring::ONE_SCREEN
        } else {
            if self.reg0 & 0b1 == 1 {
                Mirroring::HORIZONTAL
            } else {
                Mirroring::VERTICAL
            }
        }
    }

    /// Mapper with no banks, an empty loading register and cleared registers.
    pub fn new() -> (r: Mmc1)
        ensures
            r.wf(),
            r.prg_rom_banks@.len() == 0,
            r.chr_rom_banks@.len() == 0,
            r.chr_low_area_idx == 0 && r.chr_high_area_idx == 0,
            r.prg_low_area_idx == 0 && r.prg_high_area_idx == 0,
            r.loading_reg == 0b1000_0000,
            r.reg0 == 0 && r.reg1 == 0 && r.reg2 == 0 && r.reg3 == 0,
    {
        Mmc1 {
            chr_rom_banks: Vec::new(),
            prg_rom_banks: Vec::new(),
            chr_low_area_idx: 0,
            chr_high_area_idx: 0,
            prg_low_area_idx: 0,
            prg_high_area_idx: 0,
            loading_reg: 0b10000000,
            reg0: 0,
            reg1: 0,
            reg2: 0,
            reg3: 0,
        }
    }

    /// Loads all PRG and CHR pages. Without CHR-ROM the cartridge gets two
    /// zeroed 4 KB banks of CHR RAM. $8000 starts on the first PRG bank and
    /// $C000 on the last; $0000 on the first CHR bank and $1000 on the last.
    pub fn from(ines: &INesFile) -> (r: Result<Mmc1, RomError>)
        requires
            ines.spec_prg_pages() >= 1,
            ines.spec_prg_rom().len() >= ines.spec_prg_pages() * 16384,
            ines.spec_chr_rom().len() >= ines.spec_chr_pages() * 8192,
        ensures
            r matches Ok(m) && m.wf()
                && m.prg_rom_banks@ == ines.spec_prg_rom().subrange(0, ines.spec_prg_pages() * 16384)
                && (ines.spec_chr_pages() > 0 ==> m.chr_rom_banks@
                    == ines.spec_chr_rom().subrange(0, ines.spec_chr_pages() * 8192))
                && (ines.spec_chr_pages() == 0 ==> m.chr_rom_banks@ == Seq::new(0x2000, |i: int| 0u8))
                && m.prg_low_area_idx == 0 && m.prg_high_area_idx == ines.spec_prg_pages() - 1
                && m.chr_low_area_idx == 0 && m.chr_high_area_idx == m.chr_banks() - 1
                && m.loading_reg == 0x80 && m.reg0 == 0x0C
                && m.reg1 == 0 && m.reg2 == 0 && m.reg3 == 0,
    {
        let mut pages: Vec<u8> = Vec::new();
        let n = ines.get_prg_rom_pages();
        let mut nb: usize = 0;
        while nb < n
            invariant
                nb <= n == ines.spec_prg_pages(),
                ines.spec_prg_rom().len() >= n * 16384,
                pages@ == ines.spec_prg_rom().subrange(0, nb * 16384),
            decreases n - nb,
        {
            proof {
                assert((nb + 1) * 16384 <= n * 16384) by (nonlinear_arith)
                    requires nb < n;
            }
            let rom_page = match ines.get_prg_rom(nb + 1) {
                Ok(p) => p,
                Err(e) => return Err(e),
            };
            append_slice(&mut pages, rom_page);
            nb = nb + 1;
            proof {
                assert(pages@ =~= ines.spec_prg_rom().subrange(0, nb * 16384));
            }
        }

        let mut pattern_table_pages: Vec<u8> = Vec::new();
        let c = ines.get_chr_rom_pages();
        let mut nb: usize = 0;
        while nb < c
            invariant
                nb <= c == ines.spec_chr_pages(),
                ines.spec_chr_rom().len() >= c * 8192,
                pattern_table_pages@ == ines.spec_chr_rom().subrange(0, nb * 8192),
            decreases c - nb,
        {
            proof {
                assert((nb + 1) * 8192 <= c * 8192) by (nonlinear_arith)
                    requires nb < c;
            }
            let chr_page = match ines.get_chr_rom(nb + 1) {
                Ok(p) => p,
                Err(e) => return Err(e),
            };
            append_slice(&mut pattern_table_pages, chr_page);
            nb = nb + 1;
            proof {
                assert(pattern_table_pages@ =~= ines.spec_chr_rom().subrange(0, nb * 8192));
            }
        }

        if pattern_table_pages.len() == 0 {
            pattern_table_pages = zeros(0x2000);
        }
        proof {
            assert((n * 16384) % 0x4000 == 0 && (n * 16384) / 0x4000 == n) by (nonlinear_arith);
            assert((c * 8192) % 0x1000 == 0 && (c * 8192) / 0x1000 == 2 * c) by (nonlinear_arith);
            assert(c > 0 ==> c * 8192 > 0) by (nonlinear_arith);
        }

        let chr_high_area_idx = pattern_table_pages.len() / 0x1000 - 1;
        let prg_high_area_idx = pages.len() / 0x4000 - 1;

        Ok(Mmc1 {
            chr_rom_banks: pattern_table_pages,
            prg_rom_banks: pages,
            chr_low_area_idx: 0,
            chr_high_area_idx,
            prg_low_area_idx: 0,
            prg_high_area_idx,
            loading_reg: 0x80,
            reg0: 0x0C,
            reg1: 0,
            reg2: 0,
            reg3: 0,
        })
    }

    /// The marker bit reached bit 3: the next write completes the load.
    pub fn is_loading_reg_full(&self) -> (r: bool)
        ensures
            r == (self.loading_reg & 0x8 == 0x8),
    {
        self.loading_reg & 0x8 == 0x8
    }

    fn reset_loading_reg(&mut self)
        ensures
            *final(self) == (Mmc1 { loading_reg: 0x80, ..*old(self) }),
    {
        self.loading_reg = 0x80;
    }

    fn switch_chr_bank0(&mut self)
        ensures
            *final(self) == old(self).after_switch_chr_bank0(),
    {
        if self.is_chr_8kb() {
            let idx = self.reg1 >> 1u8;
            let r1 = self.reg1;
            proof {
                lemma_byte(r1);
            }
            self.chr_low_area_idx = idx as usize;
            self.chr_high_area_idx = (idx + 1) as usize;
        } else {
            self.chr_low_area_idx = self.reg1 as usize;
        }
    }

    fn switch_chr_bank1(&mut self)
        ensures
            *final(self) == old(self).after_switch_chr_bank1(),
    {
        if !self.is_chr_8kb() {
            self.chr_high_area_idx = self.reg2 as usize;
        }
    }

    fn switch_prg_bank(&mut self)
        ensures
            *final(self) == old(self).after_switch_prg_bank(),
    {
        if self.is_prg_32kb() {
            let r3 = self.reg3;
            proof {
                lemma_byte(r3);
            }
            let idx = (self.reg3 >> 1u8) * 2;
            self.prg_low_area_idx = idx as usize;
            self.prg_high_area_idx = (idx + 1) as usize;
        } else {
            if self.is_low_area_switcheable() {
                self.prg_low_area_idx = self.reg3 as usize;
            } else {
                self.prg_high_area_idx = self.reg3 as usize;
            }
        }
    }

    fn is_chr_8kb(&self) -> (r: bool)
        ensures
            r == self.spec_is_chr_8kb(),
    {
        (self.reg0 >> 4u8) & 1 == 0
    }

    fn is_prg_32kb(&self) -> (r: bool)
        ensures
            r == self.spec_is_prg_32kb(),
    {
        (self.reg0 >> 3u8) & 1 == 0
    }

    fn is_low_area_switcheable(&self) -> (r: bool)
        ensures
            r == self.spec_is_low_area_switcheable(),
    {
        (self.reg0 >> 2u8) & 1 == 1
    }
}

/// Loading law: from an empty loading register, five writes with bit 7 clear
/// fill the control register with bit 0 of each value, first write in bit 0,
/// when the fifth write targets $8000-$9FFF; the loading register is then
/// empty again and the first four writes leave every register untouched.
pub proof fn lemma_five_writes_load_control(
    m: Mmc1,
    addrs: Seq<usize>,
    values: Seq<u8>,
)
    requires
        m.loading_reg == 0x80,
        addrs.len() == 5,
        values.len() == 5,
        forall|i: int| 0 <= i < 5 ==> values[i] & 0x80 == 0,
        0x8000 <= addrs[4] <= 0x9FFF,
    ensures
        ({
            let s1 = m.after_write_prg(addrs[0], values[0]);
            let s2 = s1.after_write_prg(addrs[1], values[1]);
            let s3 = s2.after_write_prg(addrs[2], values[2]);
            let s4 = s3.after_write_prg(addrs[3], values[3]);
            let s5 = s4.after_write_prg(addrs[4], values[4]);
            &&& s4 == (Mmc1 { loading_reg: s4.loading_reg, ..m })
            &&& s5.reg0 == (values[0] & 1) | ((values[1] & 1) << 1u8) | ((values[2] & 1) << 2u8)
                | ((values[3] & 1) << 3u8) | ((values[4] & 1) << 4u8)
            &&& s5 == (Mmc1 { reg0: s5.reg0, ..m })
        }),
{
    let (v0, v1, v2, v3, v4) = (values[0], values[1], values[2], values[3], values[4]);
    let l1 = shift_in(0x80, v0);
    let l2 = shift_in(l1, v1);
    let l3 = shift_in(l2, v2);
    let l4 = shift_in(l3, v3);
    let full = shift_in(l4, v4);
    assert(l1 == (((v0 & 1) << 7u8) | (0x80u8 >> 1u8)) as u8);
    assert(l2 == (((v1 & 1) << 7u8) | (l1 >> 1u8)) as u8);
    assert(l3 == (((v2 & 1) << 7u8) | (l2 >> 1u8)) as u8);
    assert(l4 == (((v3 & 1) << 7u8) | (l3 >> 1u8)) as u8);
    assert(full == (((v4 & 1) << 7u8) | (l4 >> 1u8)) as u8);
    assert(l1 & 0x8 != 0x8 && l2 & 0x8 != 0x8 && l3 & 0x8 != 0x8 && l4 & 0x8 == 0x8
        && (full & 0b11111000) >> 3u8 == (v0 & 1) | ((v1 & 1) << 1u8) | ((v2 & 1) << 2u8)
            | ((v3 & 1) << 3u8) | ((v4 & 1) << 4u8)) by (bit_vector)
        requires
            l1 == (((v0 & 1) << 7u8) | (0x80u8 >> 1u8)) as u8,
            l2 == (((v1 & 1) << 7u8) | (l1 >> 1u8)) as u8,
            l3 == (((v2 & 1) << 7u8) | (l2 >> 1u8)) as u8,
            l4 == (((v3 & 1) << 7u8) | (l3 >> 1u8)) as u8,
            full == (((v4 & 1) << 7u8) | (l4 >> 1u8)) as u8;
    assert(values[0] & 0x80 == 0 && values[1] & 0x80 == 0 && values[2] & 0x80 == 0
        && values[3] & 0x80 == 0 && values[4] & 0x80 == 0);
    lemma_byte(0x80);
    let s1 = m.after_write_prg(addrs[0], v0);
    assert(s1 == Mmc1 { loading_reg: l1, ..m });
    let s2 = s1.after_write_prg(addrs[1], v1);
    assert(s2 == Mmc1 { loading_reg: l2, ..m });
    let s3 = s2.after_write_prg(addrs[2], v2);
    assert(s3 == Mmc1 { loading_reg: l3, ..m });
    let s4 = s3.after_write_prg(addrs[3], v3);
    assert(s4 == Mmc1 { loading_reg: l4, ..m });
    let s5 = s4.after_write_prg(addrs[4], v4);
    assert(s5 == Mmc1 { reg0: (full & 0b11111000) >> 3u8, ..m });
}

/// PRG switching law: from an empty loading register, five writes with
/// bit 7 clear, the fifth to $E000-$FFFF, select PRG bank b (bit 0 of each
/// value, first write in bit 0). In 16 KB mode (control bit 3 set),
/// control bit 2 set makes $8000-$BFFF read bank b and leaves $C000-$FFFF
/// as it was; bit 2 clear makes $C000-$FFFF read bank b and leaves
/// $8000-$BFFF. In 32 KB mode the pair of banks from b with bit 0 cleared
/// fills $8000-$FFFF.
pub proof fn lemma_five_writes_switch_prg(m: Mmc1, addrs: Seq<usize>, values: Seq<u8>, k: int)
    requires
        m.loading_reg == 0x80,
        addrs.len() == 5,
        values.len() == 5,
        forall|i: int| 0 <= i < 5 ==> values[i] & 0x80 == 0,
        0xE000 <= addrs[4] <= 0xFFFF,
        0 <= k < 0x4000,
    ensures
        ({
            let s5 = m.after_write_prg(addrs[0], values[0]).after_write_prg(addrs[1], values[1])
                .after_write_prg(addrs[2], values[2]).after_write_prg(addrs[3], values[3])
                .after_write_prg(addrs[4], values[4]);
            let b = (values[0] % 2) + 2 * (values[1] % 2) + 4 * (values[2] % 2) + 8 * (values[3] % 2)
                + 16 * (values[4] % 2);
            let mode_16k = m.reg0 / 8 % 2 == 1;
            let low_switchable = m.reg0 / 4 % 2 == 1;
            &&& s5.prg_rom_banks == m.prg_rom_banks
            &&& s5.reg3 == b
            &&& mode_16k && low_switchable ==> s5.spec_read_prg((0x8000 + k) as usize)
                == m.prg_rom_banks@[b * 0x4000 + k] && s5.spec_read_prg((0xC000 + k) as usize)
                == m.spec_read_prg((0xC000 + k) as usize)
            &&& mode_16k && !low_switchable ==> s5.spec_read_prg((0xC000 + k) as usize)
                == m.prg_rom_banks@[b * 0x4000 + k] && s5.spec_read_prg((0x8000 + k) as usize)
                == m.spec_read_prg((0x8000 + k) as usize)
            &&& !mode_16k ==> s5.spec_read_prg((0x8000 + k) as usize) == m.prg_rom_banks@[(b / 2 * 2) * 0x4000 + k]
                && s5.spec_read_prg((0xC000 + k) as usize) == m.prg_rom_banks@[(b / 2 * 2 + 1) * 0x4000 + k]
        }),
{
    let (v0, v1, v2, v3, v4) = (values[0], values[1], values[2], values[3], values[4]);
    let l1 = shift_in(0x80, v0);
    let l2 = shift_in(l1, v1);
    let l3 = shift_in(l2, v2);
    let l4 = shift_in(l3, v3);
    let full = shift_in(l4, v4);
    let load = (full & 0b11111000) >> 3u8;
    assert(l1 == (((v0 & 1) << 7u8) | (0x80u8 >> 1u8)) as u8);
    assert(l2 == (((v1 & 1) << 7u8) | (l1 >> 1u8)) as u8);
    assert(l3 == (((v2 & 1) << 7u8) | (l2 >> 1u8)) as u8);
    assert(l4 == (((v3 & 1) << 7u8) | (l3 >> 1u8)) as u8);
    assert(full == (((v4 & 1) << 7u8) | (l4 >> 1u8)) as u8);
    assert(l1 & 0x8 != 0x8 && l2 & 0x8 != 0x8 && l3 & 0x8 != 0x8 && l4 & 0x8 == 0x8
        && load == (v0 % 2) + 2 * (v1 % 2) + 4 * (v2 % 2) + 8 * (v3 % 2) + 16 * (v4 % 2)
        && load >> 1u8 == load / 2) by (bit_vector)
        requires
            l1 == (((v0 & 1) << 7u8) | (0x80u8 >> 1u8)) as u8,
            l2 == (((v1 & 1) << 7u8) | (l1 >> 1u8)) as u8,
            l3 == (((v2 & 1) << 7u8) | (l2 >> 1u8)) as u8,
            l4 == (((v3 & 1) << 7u8) | (l3 >> 1u8)) as u8,
            full == (((v4 & 1) << 7u8) | (l4 >> 1u8)) as u8,
            load == (full & 0b11111000) >> 3u8;
    assert(values[0] & 0x80 == 0 && values[1] & 0x80 == 0 && values[2] & 0x80 == 0
        && values[3] & 0x80 == 0 && values[4] & 0x80 == 0);
    let r0 = m.reg0;
    assert((r0 >> 3u8) & 1 == r0 / 8 % 2 && (r0 >> 2u8) & 1 == r0 / 4 % 2) by (bit_vector);
    lemma_byte(0x80);
    let s1 = m.after_write_prg(addrs[0], v0);
    assert(s1 == Mmc1 { loading_reg: l1, ..m });
    let s2 = s1.after_write_prg(addrs[1], v1);
    assert(s2 == Mmc1 { loading_reg: l2, ..m });
    let s3 = s2.after_write_prg(addrs[2], v2);
    assert(s3 == Mmc1 { loading_reg: l3, ..m });
    let s4 = s3.after_write_prg(addrs[3], v3);
    assert(s4 == Mmc1 { loading_reg: l4, ..m });
    let s5 = s4.after_write_prg(addrs[4], v4);
    let s = Mmc1 { reg3: load, loading_reg: full, ..m }.after_switch_prg_bank();
    assert(s5 == Mmc1 { loading_reg: 0x80, ..s });
}

} // verus!
