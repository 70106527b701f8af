//! MMC3 (mapper 4). PRG is split in four 8 KB windows (two switchable),
//! CHR in eight 1 KB windows; the mapper also counts scanlines for IRQs.
use vstd::prelude::*;
use crate::bits::lemma_byte;
use super::Mirroring;
use crate::bytes::{append_slice, lemma_bank_offset};
use crate::rom::{INesFile, RomError};

verus! {

pub struct Mmc3 {
    /// 8 KB PRG banks, back to back.
    pub prg_rom_banks: Vec<u8>,
    /// 1 KB CHR banks, back to back.
    pub chr_rom_banks: Vec<u8>,
    /// Banks mapped at $8000, $A000, $C000 and $E000.
    pub prg_index_1: usize,
    pub prg_index_2: usize,
    pub prg_index_3: usize,
    pub prg_index_4: usize,
    /// Banks mapped at $0000, $0400, ..., $1C00.
    pub chr_index_1: usize,
    pub chr_index_2: usize,
    pub chr_index_3: usize,
    pub chr_index_4: usize,
    pub chr_index_5: usize,
    pub chr_index_6: usize,
    pub chr_index_7: usize,
    pub chr_index_8: usize,
    /// Which bank the next bank-data write updates (bits 0-2), PRG mode
    /// (bit 6) and CHR A12 inversion (bit 7).
    pub reg_bank_select: u8,
    pub reg_bank_data: usize,
    pub reg_mirroring: u8,
    pub reg_ram: u8,
    /// An IRQ is pending.
    pub irq: bool,
    pub irq_counter: u8,
    pub reg_irq_latch: u8,
    pub irq_enabled: bool,
}

impl Mmc3 {
    pub open spec fn prg_banks(&self) -> int {
        self.prg_rom_banks@.len() as int / 0x2000
    }

    pub open spec fn chr_banks(&self) -> int {
        self.chr_rom_banks@.len() as int / 0x400
    }

    pub open spec fn wf(&self) -> bool {
        &&& self.prg_rom_banks@.len() % 0x2000 == 0
        &&& self.chr_rom_banks@.len() % 0x400 == 0
    }

    /// PRG bank mapped at `addr` (in $8000-$FFFF).
    pub open spec fn prg_bank_at(&self, addr: usize) -> usize {
        if addr <= 0x9FFF {
            self.prg_index_1
        } else if addr <= 0xBFFF {
            self.prg_index_2
        } else if addr <= 0xDFFF {
            self.prg_index_3
        } else {
            self.prg_index_4
        }
    }

    /// CHR bank mapped at `addr` (below $2000).
    pub open spec fn chr_bank_at(&self, addr: usize) -> usize {
        let w = addr / 0x400;
        if w == 0 {
            self.chr_index_1
        } else if w == 1 {
            self.chr_index_2
        } else if w == 2 {
            self.chr_index_3
        } else if w == 3 {
            self.chr_index_4
        } else if w == 4 {
            self.chr_index_5
        } else if w == 5 {
            self.chr_index_6
        } else if w == 6 {
            self.chr_index_7
        } else {
            self.chr_index_8
        }
    }

    pub open spec fn prg_readable(&self, addr: usize) -> bool {
        0x8000 <= addr <= 0xFFFF ==> self.prg_bank_at(addr) < self.prg_banks()
    }

    pub open spec fn chr_accessible(&self, addr: usize) -> bool {
        addr <= 0x1FFF ==> self.chr_bank_at(addr) < self.chr_banks()
    }

    pub open spec fn spec_read_prg(&self, addr: usize) -> u8 {
        if 0x8000 <= addr <= 0xFFFF {
            self.prg_rom_banks@[self.prg_bank_at(addr) * 0x2000 + addr % 0x2000]
        } else {
            0
        }
    }

    pub open spec fn spec_read_chr(&self, addr: usize) -> u8 {
        if addr <= 0x1FFF {
            self.chr_rom_banks@[self.chr_bank_at(addr) * 0x400 + addr % 0x400]
        } else {
            0
        }
    }

    /// State after the bank chosen by `reg_bank_select` takes `reg_bank_data`.
    pub open spec fn after_select_bank(self) -> Mmc3 {
        let sel = self.reg_bank_select & 0b111;
        let inv = self.reg_bank_select & 0x80 == 0x80;
        let d = self.reg_bank_data;
        if sel == 0 {
            if inv {
                Mmc3 { chr_index_5: d, chr_index_6: (d + 1) as usize, ..self }
            } else {
                Mmc3 { chr_index_1: d, chr_index_2: (d + 1) as usize, ..self }
            }
        } else if sel == 1 {
            if inv {
                Mmc3 { chr_index_7: d, chr_index_8: (d + 1) as usize, ..self }
            } else {
                Mmc3 { chr_index_3: d, chr_index_4: (d + 1) as usize, ..self }
            }
        } else if sel == 2 {
            if inv { Mmc3 { chr_index_1: d, ..self } } else { Mmc3 { chr_index_5: d, ..self } }
        } else if sel == 3 {
            if inv { Mmc3 { chr_index_2: d, ..self } } else { Mmc3 { chr_index_6: d, ..self } }
        } else if sel == 4 {
            if inv { Mmc3 { chr_index_3: d, ..self } } else { Mmc3 { chr_index_7: d, ..self } }
        } else if sel == 5 {
            if inv { Mmc3 { chr_index_4: d, ..self } } else { Mmc3 { chr_index_8: d, ..self } }
        } else if sel == 6 {
            let second_last = (self.prg_banks() - 2) as usize;
            if (self.reg_bank_select >> 6u8) & 1 == 1 {
                Mmc3 { prg_index_3: d, prg_index_1: second_last, ..self }
            } else {
                Mmc3 { prg_index_1: d, prg_index_3: second_last, ..self }
            }
        } else {
            Mmc3 { prg_index_2: d, ..self }
        }
    }

    /// State after a write of `value` to register address `addr`; even and
    /// odd addresses of each 8 KB range are different registers.
    pub open spec fn after_write_prg(self, addr: usize, value: u8) -> Mmc3 {
        if 0x8000 <= addr <= 0x9FFF {
            if addr % 2 == 0 {
                Mmc3 { reg_bank_select: value, ..self }
            } else {
                Mmc3 { reg_bank_data: value as usize, ..self }.after_select_bank()
            }
        } else if 0xA000 <= addr <= 0xBFFF {
            if addr % 2 == 0 {
                Mmc3 { reg_mirroring: value, ..self }
            } else {
                Mmc3 { reg_ram: value, ..self }
            }
        } else if 0xC000 <= addr <= 0xDFFF {
            if addr % 2 == 0 {
                Mmc3 { reg_irq_latch: value, ..self }
            } else {
                Mmc3 { irq_counter: 0, ..self }
            }
        } else if 0xE000 <= addr <= 0xFFFF {
            if addr % 2 == 0 {
                Mmc3 { irq_enabled: false, irq: false, ..self }
            } else {
                Mmc3 { irq_enabled: true, ..self }
            }
        } else {
            self
        }
    }

    /// State after one A12 rising edge (one scanline).
    pub open spec fn after_count_12(self) -> Mmc3 {
        let counter = if self.irq_counter == 0 {
            self.reg_irq_latch
        } else {
            (self.irq_counter - 1) as u8
        };
        Mmc3 {
            irq_counter: counter,
            irq: if counter == 0 && self.irq_enabled { true } else { self.irq },
            ..self
        }
    }

    pub fn read_prg(&self, addr: usize) -> (r: u8)
        requires
            self.wf(),
            self.prg_readable(addr),
        ensures
            r == self.spec_read_prg(addr),
    {
        let _len = self.prg_rom_banks.len();
        assert(self.prg_banks() * 0x2000 == self.prg_rom_banks@.len());
        if 0x8000 <= addr && addr <= 0xFFFF {
            let bank = if addr <= 0x9FFF {
                self.prg_index_1
            } else if addr <= 0xBFFF {
                self.prg_index_2
            } else if addr <= 0xDFFF {
                self.prg_index_3
            } else {
                self.prg_index_4
            };
            proof {
                lemma_bank_offset(bank as int, self.prg_banks(), 0x2000, (addr % 0x2000) as int);
            }
            self.prg_rom_banks[bank * 0x2000 + addr % 0x2000]
        } else {
            0
        }
    }

    pub fn write_prg(&mut self, addr: usize, value: u8)
        requires
            (0x8000 <= addr <= 0x9FFF && addr % 2 == 1 && old(self).reg_bank_select & 0b111 == 6)
                ==> old(self).prg_banks() >= 2,
        ensures
            *final(self) == old(self).after_write_prg(addr, value),
    {
        if 0x8000 <= addr && addr <= 0x9FFF {
            if addr % 2 == 0 {
                self.reg_bank_select = value;
            } else {
                self.reg_bank_data = value as usize;
                self.select_bank();
            }
        } else if 0xA000 <= addr && addr <= 0xBFFF {
            if addr % 2 == 0 {
                self.reg_mirroring = value;
            } else {
                self.reg_ram = value;
            }
        } else if 0xC000 <= addr && addr <= 0xDFFF {
            if addr % 2 == 0 {
                self.reg_irq_latch = value;
            } else {
                self.reload_irq_counter();
            }
        } else if 0xE000 <= addr && addr <= 0xFFFF {
            if addr % 2 == 0 {
                self.disable_irq();
            } else {
                self.enable_irq();
            }
        }
    }

    fn chr_bank(&self, addr: usize) -> (b: usize)
        requires
            addr <= 0x1FFF,
        ensures
            b == self.chr_bank_at(addr),
    {
        let w = addr / 0x400;
        if w == 0 {
            self.chr_index_1
        } else if w == 1 {
            self.chr_index_2
        } else if w == 2 {
            self.chr_index_3
        } else if w == 3 {
            self.chr_index_4
        } else if w == 4 {
            self.chr_index_5
        } else if w == 5 {
            self.chr_index_6
        } else if w == 6 {
            self.chr_index_7
        } else {
            self.chr_index_8
        }
    }

    pub fn read_chr(&self, addr: usize) -> (r: u8)
        requires
            self.wf(),
            self.chr_accessible(addr),
        ensures
            r == self.spec_read_chr(addr),
    {
        let _len = self.chr_rom_banks.len();
        assert(self.chr_banks() * 0x400 == self.chr_rom_banks@.len());
        if addr <= 0x1FFF {
            let bank = self.chr_bank(addr);
            proof {
                lemma_bank_offset(bank as int, self.chr_banks(), 0x400, (addr % 0x400) as int);
            }
            self.chr_rom_banks[bank * 0x400 + addr % 0x400]
        } else {
            0
        }
    }

    pub fn write_chr(&mut self, addr: usize, value: u8)
        requires
            old(self).wf(),
            old(self).chr_accessible(addr),
        ensures
            final(self).wf(),
            final(self).chr_rom_banks@ == if addr <= 0x1FFF {
                old(self).chr_rom_banks@.update(
                    old(self).chr_bank_at(addr) * 0x400 + addr % 0x400,
                    value,
                )
            } else {
                old(self).chr_rom_banks@
            },
            *final(self) == (Mmc3 { chr_rom_banks: final(self).chr_rom_banks, ..*old(self) }),
    {
        let _len = self.chr_rom_banks.len();
        assert(self.chr_banks() * 0x400 == self.chr_rom_banks@.len());
        if addr <= 0x1FFF {
            let bank = self.chr_bank(addr);
            proof {
                lemma_bank_offset(bank as int, self.chr_banks(), 0x400, (addr % 0x400) as int);
            }
            self.chr_rom_banks.set(bank * 0x400 + addr % 0x400, value);
        }
    }

    /// Always the first 1 KB CHR bank, whatever `idx`.
    pub fn get_chr(&self, _idx: usize) -> (r: &[u8])
        requires
            self.chr_rom_banks@.len() >= 0x400,
        ensures
            r@ == self.chr_rom_banks@.subrange(0, 0x400),
    {
        &self.chr_rom_banks.as_slice()[0..0x400]
    }

    /// Bit 0 of the mirroring register: 0 vertical, 1 horizontal.
    pub fn get_mirroring(&self) -> (m: Mirroring)
        ensures
            m == (if self.reg_mirroring % 2 == 0 { Mirroring::VERTICAL } else { Mirroring::HORIZONTAL }),
    {
        let r = self.reg_mirroring;
        proof {
            lemma_byte(r);
        }
        if self.reg_mirroring & 1 == 0 {
            Mirroring::VERTICAL
        } else {
            Mirroring::HORIZONTAL
        }
    }

    /// Loads every PRG page as two 8 KB banks and every CHR page as eight
    /// 1 KB banks. $8000/$A000 start on banks 0 and 1, $C000/$E000 on the
    /// last two banks; CHR windows start on banks 0 to 7.
    pub fn from(ines: &INesFile) -> (r: Result<Mmc3, RomError>)
        requires
            ines.spec_prg_pages() >= 1,
            ines.spec_prg_rom().len() >= ines.spec_prg_pages() * 16384,
            ines.spec_chr_rom().len() >= ines.spec_chr_pages() * 8192,
        ensures
            r matches Ok(m) && m.wf()
                && m.prg_rom_banks@ == ines.spec_prg_rom().subrange(0, ines.spec_prg_pages() * 16384)
                && m.chr_rom_banks@ == ines.spec_chr_rom().subrange(0, ines.spec_chr_pages() * 8192)
                && m.prg_index_1 == 0 && m.prg_index_2 == 1
                && m.prg_index_3 == m.prg_banks() - 2 && m.prg_index_4 == m.prg_banks() - 1
                && m.chr_index_1 == 0 && m.chr_index_2 == 1 && m.chr_index_3 == 2
                && m.chr_index_4 == 3 && m.chr_index_5 == 4 && m.chr_index_6 == 5
                && m.chr_index_7 == 6 && m.chr_index_8 == 7
                && m.reg_bank_select == 0 && m.reg_bank_data == 0 && m.reg_mirroring == 0
                && m.reg_ram == 0 && !m.irq && m.irq_counter == 0 && m.reg_irq_latch == 0
                && !m.irq_enabled,
    {
        let mut prg_pages: Vec<u8> = Vec::new();
        let n = ines.get_prg_rom_pages();
        let mut nb: usize = 0;
        while nb < n
            invariant
                nb <= n == ines.spec_prg_pages(),
                ines.spec_prg_rom().len() >= n * 16384,
                prg_pages@ == ines.spec_prg_rom().subrange(0, nb * 16384),
            decreases n - nb,
        {
            proof {
                assert((nb + 1) * 16384 <= n * 16384) by (nonlinear_arith)
                    requires nb < n;
            }
            let rom_page = match ines.get_prg_rom(nb + 1) {
                Ok(p) => p,
                Err(e) => return Err(e),
            };
            append_slice(&mut prg_pages, rom_page);
            nb = nb + 1;
            proof {
                assert(prg_pages@ =~= ines.spec_prg_rom().subrange(0, nb * 16384));
            }
        }

        let mut pattern_table_pages: Vec<u8> = Vec::new();
        let c = ines.get_chr_rom_pages();
        let mut nb: usize = 0;
        while nb < c
            invariant
                nb <= c == ines.spec_chr_pages(),
                ines.spec_chr_rom().len() >= c * 8192,
                pattern_table_pages@ == ines.spec_chr_rom().subrange(0, nb * 8192),
            decreases c - nb,
        {
            proof {
                assert((nb + 1) * 8192 <= c * 8192) by (nonlinear_arith)
                    requires nb < c;
            }
            let chr_page = match ines.get_chr_rom(nb + 1) {
                Ok(p) => p,
                Err(e) => return Err(e),
            };
            append_slice(&mut pattern_table_pages, chr_page);
            nb = nb + 1;
            proof {
                assert(pattern_table_pages@ =~= ines.spec_chr_rom().subrange(0, nb * 8192));
            }
        }
        proof {
            assert((n * 16384) % 0x2000 == 0 && (n * 16384) / 0x2000 == 2 * n) by (nonlinear_arith);
            assert((c * 8192) % 0x400 == 0) by (nonlinear_arith);
        }
        let banks = prg_pages.len() / 0x2000;

        Ok(Mmc3 {
            prg_rom_banks: prg_pages,
            chr_rom_banks: pattern_table_pages,
            prg_index_1: 0,
            prg_index_2: 1,
            prg_index_3: banks - 2,
            prg_index_4: banks - 1,
            chr_index_1: 0,
            chr_index_2: 1,
            chr_index_3: 2,
            chr_index_4: 3,
            chr_index_5: 4,
            chr_index_6: 5,
            chr_index_7: 6,
            chr_index_8: 7,
            reg_bank_select: 0,
            reg_bank_data: 0,
            reg_mirroring: 0,
            reg_ram: 0,
            irq: false,
            irq_counter: 0,
            reg_irq_latch: 0,
            irq_enabled: false,
        })
    }

    fn select_bank(&mut self)
        requires
            old(self).reg_bank_select & 0b111 == 6 ==> old(self).prg_banks() >= 2,
            old(self).reg_bank_data < usize::MAX,
        ensures
            *final(self) == old(self).after_select_bank(),
    {
        let bank_select = self.reg_bank_select & 0b111;
        let chr_inversion = self.reg_bank_select & 0x80 == 0x80;
        let d = self.reg_bank_data;
        if bank_select == 0 {
            if chr_inversion {
                self.chr_index_5 = d;
                self.chr_index_6 = d + 1;
            } else {
                self.chr_index_1 = d;
                self.chr_index_2 = d + 1;
            }
        } else if bank_select == 1 {
            if chr_inversion {
                self.chr_index_7 = d;
                self.chr_index_8 = d + 1;
            } else {
                self.chr_index_3 = d;
                self.chr_index_4 = d + 1;
            }
        } else if bank_select == 2 {
            if chr_inversion {
                self.chr_index_1 = d;
            } else {
                self.chr_index_5 = d;
            }
        } else if bank_select == 3 {
            if chr_inversion {
                self.chr_index_2 = d;
            } else {
                self.chr_index_6 = d;
            }
        } else if bank_select == 4 {
            if chr_inversion {
                self.chr_index_3 = d;
            } else {
                self.chr_index_7 = d;
            }
        } else if bank_select == 5 {
            if chr_inversion {
                self.chr_index_4 = d;
            } else {
                self.chr_index_8 = d;
            }
        } else if bank_select == 6 {
            let second_last = self.prg_rom_banks.len() / 0x2000 - 2;
            if (self.reg_bank_select >> 6u8) & 1 == 1 {
                self.prg_index_3 = d;
                self.prg_index_1 = second_last;
            } else {
                self.prg_index_1 = d;
                self.prg_index_3 = second_last;
            }
        } else {
            self.prg_index_2 = d;
        }
    }

    fn reload_irq_counter(&mut self)
        ensures
            *final(self) == (Mmc3 { irq_counter: 0, ..*old(self) }),
    {
        self.irq_counter = 0;
    }

    fn enable_irq(&mut self)
        ensures
            *final(self) == (Mmc3 { irq_enabled: true, ..*old(self) }),
    {
        self.irq_enabled = true;
    }

    fn disable_irq(&mut self)
        ensures
            *final(self) == (Mmc3 { irq_enabled: false, irq: false, ..*old(self) }),
    {
        self.irq_enabled = false;
        self.irq = false;
    }

    /// One scanline: an empty counter reloads from the latch, otherwise it
    /// counts down; reaching zero with IRQs enabled raises the IRQ.
    pub fn count_12(&mut self)
        ensures
            *final(self) == old(self).after_count_12(),
    {
        if self.irq_counter == 0 {
            self.irq_counter = self.reg_irq_latch;
        } else {
            self.irq_counter = self.irq_counter - 1;
        }

        if self.irq_counter == 0 && self.irq_enabled {
            self.irq = true;
        }
    }
}

/// A call that changes an MMC3: `write_prg`, `write_chr` or `count_12`.
pub enum Mmc3Call {
    WritePrg(usize, u8),
    WriteChr(usize, u8),
    Count12,
}

/// Whether `b` is what `c` makes of `a`, as the contracts of `write_prg`,
/// `write_chr` and `count_12` state.
pub open spec fn call_result(a: Mmc3, c: Mmc3Call, b: Mmc3) -> bool {
    match c {
        Mmc3Call::WritePrg(addr, v) => b == a.after_write_prg(addr, v),
        Mmc3Call::WriteChr(addr, v) => {
            &&& b.chr_rom_banks@ == if addr <= 0x1FFF {
                a.chr_rom_banks@.update(a.chr_bank_at(addr) * 0x400 + addr % 0x400, v)
            } else {
                a.chr_rom_banks@
            }
            &&& b == (Mmc3 { chr_rom_banks: b.chr_rom_banks, ..a })
        },
        Mmc3Call::Count12 => b == a.after_count_12(),
    }
}

/// `states[k + 1]` is what `calls[k]` makes of `states[k]`, for every `k`.
pub open spec fn is_run(states: Seq<Mmc3>, calls: Seq<Mmc3Call>) -> bool {
    &&& states.len() == calls.len() + 1
    &&& forall|k: int| 0 <= k < calls.len() ==> #[trigger] call_result(states[k], calls[k], states[k + 1])
}

/// Value of the last write to an even address of $A000-$BFFF in `calls`,
/// or `initial` when there is none.
pub open spec fn last_mirroring_write(calls: Seq<Mmc3Call>, initial: u8) -> u8
    decreases calls.len(),
{
    if calls.len() == 0 {
        initial
    } else {
        match calls.last() {
            Mmc3Call::WritePrg(addr, v) => if 0xA000 <= addr <= 0xBFFF && addr % 2 == 0 {
                v
            } else {
                last_mirroring_write(calls.drop_last(), initial)
            },
            _ => last_mirroring_write(calls.drop_last(), initial),
        }
    }
}

proof fn lemma_run_prefix(states: Seq<Mmc3>, calls: Seq<Mmc3Call>)
    requires
        is_run(states, calls),
        calls.len() > 0,
    ensures
        is_run(states.drop_last(), calls.drop_last()),
        call_result(states[calls.len() - 1], calls.last(), states.last()),
{
    let k = calls.len() - 1;
    assert(call_result(states[k], calls[k], states[k + 1]));
    assert forall|j: int| 0 <= j < calls.drop_last().len() implies #[trigger] call_result(
        states.drop_last()[j],
        calls.drop_last()[j],
        states.drop_last()[j + 1],
    ) by {
        assert(call_result(states[j], calls[j], states[j + 1]));
    }
}

/// Last-bank law: over any sequence of `write_prg`, `write_chr` and
/// `count_12` calls, the PRG banks and the bank mapped at $E000 stay as
/// they were; so when the run starts as `from` leaves it, on the last bank,
/// $E000-$FFFF keeps reading the last 8 KB bank, and addresses outside
/// $8000-$FFFF read 0.
pub proof fn lemma_last_bank_fixed(states: Seq<Mmc3>, calls: Seq<Mmc3Call>)
    requires
        is_run(states, calls),
        states[0].prg_index_4 == states[0].prg_banks() - 1,
    ensures
        states.last().prg_rom_banks == states[0].prg_rom_banks,
        states.last().prg_index_4 == states[0].prg_index_4,
        forall|i: usize| i < 0x2000 ==> #[trigger] states.last().spec_read_prg((0xE000 + i) as usize)
            == states[0].prg_rom_banks@[(states[0].prg_banks() - 1) * 0x2000 + i],
        forall|a: usize| a < 0x8000 || a > 0xFFFF ==> #[trigger] states.last().spec_read_prg(a) == 0,
    decreases calls.len(),
{
    if calls.len() > 0 {
        lemma_run_prefix(states, calls);
        lemma_last_bank_fixed(states.drop_last(), calls.drop_last());
        let prev = states[calls.len() - 1];
        assert(states.drop_last().last() == prev);
        assert(prev.after_select_bank().prg_index_4 == prev.prg_index_4);
        match calls.last() {
            Mmc3Call::WritePrg(addr, v) => {
                assert(Mmc3 { reg_bank_data: v as usize, ..prev }.after_select_bank().prg_index_4 == prev.prg_index_4);
            },
            _ => {},
        }
    }
    let last = states.last();
    assert forall|i: usize| i < 0x2000 implies #[trigger] last.spec_read_prg((0xE000 + i) as usize)
        == states[0].prg_rom_banks@[(states[0].prg_banks() - 1) * 0x2000 + i] by {
        assert((0xE000 + i) as usize % 0x2000 == i);
    }
}

/// Mirroring law: over any sequence of `write_prg`, `write_chr` and
/// `count_12` calls, the mirroring register holds the value of the last
/// write to an even address of $A000-$BFFF (its value before the run when
/// there was none, 0 right after `from`); `get_mirroring` then gives
/// vertical mirroring when that value is even and horizontal when it is odd.
pub proof fn lemma_mirroring_follows_last_write(states: Seq<Mmc3>, calls: Seq<Mmc3Call>)
    requires
        is_run(states, calls),
    ensures
        states.last().reg_mirroring == last_mirroring_write(calls, states[0].reg_mirroring),
    decreases calls.len(),
{
    if calls.len() > 0 {
        lemma_run_prefix(states, calls);
        lemma_mirroring_follows_last_write(states.drop_last(), calls.drop_last());
        let prev = states[calls.len() - 1];
        assert(states.drop_last().last() == prev);
        match calls.last() {
            Mmc3Call::WritePrg(addr, v) => {
                assert(Mmc3 { reg_bank_data: v as usize, ..prev }.after_select_bank().reg_mirroring == prev.reg_mirroring);
            },
            _ => {},
        }
    }
}

/// CHR bank-select law: a bank-data write (odd address in $8000-$9FFF)
/// with bank select R (bits 0-2 of the select register) below 6 maps the
/// written bank d. For R = 0, 1 the 2 KB window at $0000 + 0x800 * R reads
/// banks d and d + 1; for R = 2 to 5 the 1 KB window at $1000 + 0x400 *
/// (R - 2) reads bank d; with A12 inversion (select bit 7) the two halves
/// of pattern memory trade places. Every other CHR address reads as before.
pub proof fn lemma_chr_bank_select(m: Mmc3, addr: usize, d: u8, a: usize)
    requires
        0x8000 <= addr <= 0x9FFF,
        addr % 2 == 1,
        m.reg_bank_select & 7 < 6,
        a <= 0x1FFF,
    ensures
        ({
            let r = (m.reg_bank_select & 7) as int;
            let inv = m.reg_bank_select & 0x80 == 0x80;
            let m2 = m.after_write_prg(addr, d);
            let start: int = if r < 2 {
                (if inv { 0x1000int } else { 0int }) + 0x800 * r
            } else {
                (if inv { 0int } else { 0x1000int }) + 0x400 * (r - 2)
            };
            let size: int = if r < 2 { 0x800 } else { 0x400 };
            &&& m2.chr_rom_banks == m.chr_rom_banks
            &&& start <= a < start + size ==> m2.spec_read_chr(a) == m.chr_rom_banks@[d * 0x400 + (a - start)]
            &&& !(start <= a < start + size) ==> m2.spec_read_chr(a) == m.spec_read_chr(a)
        }),
{
}

/// PRG bank-select law: a bank-data write with bank select 6 maps bank d
/// at $8000-$9FFF and the second-last bank at $C000-$DFFF, or the other
/// way round when select bit 6 is set; with bank select 7 it maps d at
/// $A000-$BFFF. $E000-$FFFF and every window not named keep their bank.
pub proof fn lemma_prg_bank_select(m: Mmc3, addr: usize, d: u8, a: usize)
    requires
        0x8000 <= addr <= 0x9FFF,
        addr % 2 == 1,
        m.reg_bank_select & 7 >= 6,
        m.prg_banks() >= 2,
        0x8000 <= a <= 0xFFFF,
    ensures
        ({
            let r = m.reg_bank_select & 7;
            let swap = (m.reg_bank_select >> 6u8) & 1 == 1;
            let m2 = m.after_write_prg(addr, d);
            let low = a <= 0x9FFF;
            let mid_high = 0xC000 <= a <= 0xDFFF;
            let bank: int = if r == 6 && (if swap { mid_high } else { low }) {
                d as int
            } else if r == 6 && (if swap { low } else { mid_high }) {
                m.prg_banks() - 2
            } else if r == 7 && 0xA000 <= a <= 0xBFFF {
                d as int
            } else {
                m.prg_bank_at(a) as int
            };
            &&& m2.prg_rom_banks == m.prg_rom_banks
            &&& m2.spec_read_prg(a) == m.prg_rom_banks@[bank * 0x2000 + a % 0x2000]
        }),
{
    lemma_byte(m.reg_bank_select);
    let m1 = Mmc3 { reg_bank_data: d as usize, ..m };
    assert(m.after_write_prg(addr, d) == m1.after_select_bank());
    let sel = m.reg_bank_select & 0b111;
    assert(sel == 6 || sel == 7);
    if sel == 6 {
        assert(m1.after_select_bank().prg_index_4 == m.prg_index_4);
        assert(m.prg_rom_banks.len() == m.prg_rom_banks@.len());
    } else {
        assert(m1.after_select_bank() == (Mmc3 { prg_index_2: d as usize, ..m1 }));
    }
}

} // verus!
