//! Register view of the two pulse channels ($4000-$4007).
use vstd::prelude::*;

verus! {

/// Fields of one pulse channel as written through its four registers.
pub struct Pulse {
    pub duty: u8,
    pub envelope_loop: bool,
    pub constant_volume: bool,
    /// Envelope period, or volume when constant.
    pub envelope_or_volume: u8,
    pub sweep_enabled: bool,
    pub period: u8,
    pub negate: bool,
    pub shift: u8,
    /// 11-bit timer.
    pub timer: u16,
    pub length_counter_load: u8,
}

impl Pulse {
    pub fn new() -> (p: Pulse)
        ensures
            p == (Pulse {
                duty: 0, envelope_loop: false, constant_volume: false, envelope_or_volume: 0,
                sweep_enabled: false, period: 9, negate: false, shift: 0, timer: 0,
                length_counter_load: 0,
            }),
    {
        Pulse {
            duty: 0,
            envelope_loop: false,
            constant_volume: false,
            envelope_or_volume: 0,
            sweep_enabled: false,
            period: 9,
            negate: false,
            shift: 0,
            timer: 0,
            length_counter_load: 0,
        }
    }

    /// $4000/$4004: DDLC VVVV.
    pub fn apply_reg1(&mut self, value: u8)
        ensures
            *final(self) == (Pulse {
                duty: value / 64,
                envelope_loop: (value / 32) % 2 == 1,
                constant_volume: (value / 16) % 2 == 1,
                envelope_or_volume: value % 16,
                ..*old(self)
            }),
    {
        proof {
            lemma_register_bits(value, self.timer);
        }
        self.duty = (value & 0xC0) >> 6u8;
        self.envelope_loop = ((value & 0x20) >> 5u8) & 1 == 1;
        self.constant_volume = ((value & 0x10) >> 4u8) & 1 == 1;
        self.envelope_or_volume = value & 0xF;
    }

    /// $4001/$4005: EPPP NSSS (sweep unit).
    pub fn apply_reg2(&mut self, value: u8)
        ensures
            *final(self) == (Pulse {
                sweep_enabled: value >= 128,
                period: (value / 16) % 8,
                negate: (value / 8) % 2 == 1,
                shift: value % 8,
                ..*old(self)
            }),
    {
        proof {
            lemma_register_bits(value, self.timer);
        }
        self.sweep_enabled = (value >> 7u8) & 1 == 1;
        self.period = (value & 0x70) >> 4u8;
        self.negate = (value >> 3u8) & 1 == 1;
        self.shift = value & 0x7;
    }

    /// $4002/$4006: low 8 bits of the timer.
    pub fn apply_reg3(&mut self, value: u8)
        ensures
            *final(self) == (Pulse { timer: ((old(self).timer / 256) * 256 + value as u16) as u16, ..*old(self) }),
    {
        let t = self.timer;
        proof {
            lemma_register_bits(value, t);
        }
        self.timer = self.timer & 0xFF00 | value as u16;
    }

    /// $4003/$4007: LLLL LHHH, length counter load and timer bits 8-10.
    pub fn apply_reg4(&mut self, value: u8)
        ensures
            *final(self) == (Pulse {
                timer: ((value % 8) as u16 * 256 + old(self).timer % 256) as u16,
                length_counter_load: value / 8,
                ..*old(self)
            }),
    {
        let t = self.timer;
        proof {
            lemma_register_bits(value, t);
        }
        self.timer = (value as u16 & 0x7) << 8u16 | (self.timer & 0xFF);
        self.length_counter_load = (value & !0x7u8) >> 3u8;
    }
}

/// Fields of a pulse register byte `value`, and the timer `t` with one of
/// its bytes replaced.
proof fn lemma_register_bits(value: u8, t: u16)
    ensures
        (value & 0xC0) >> 6u8 == value / 64,
        (((value & 0x20) >> 5u8) & 1 == 1) == ((value / 32) % 2 == 1),
        (((value & 0x10) >> 4u8) & 1 == 1) == ((value / 16) % 2 == 1),
        value & 0xF == value % 16,
        ((value >> 7u8) & 1 == 1) == (value >= 128),
        (value & 0x70) >> 4u8 == (value / 16) % 8,
        ((value >> 3u8) & 1 == 1) == ((value / 8) % 2 == 1),
        value & 0x7 == value % 8,
        t & 0xFF00 | value as u16 == ((t / 256) * 256 + value as u16) as u16,
        (value as u16 & 0x7) << 8u16 | (t & 0xFF) == ((value % 8) as u16 * 256 + t % 256) as u16,
        (value & !0x7u8) >> 3u8 == value / 8,
{
    assert((value & 0xC0) >> 6u8 == value / 64) by (bit_vector);
    assert((((value & 0x20) >> 5u8) & 1 == 1) == ((value / 32) % 2 == 1)) by (bit_vector);
    assert((((value & 0x10) >> 4u8) & 1 == 1) == ((value / 16) % 2 == 1)) by (bit_vector);
    assert(value & 0xF == value % 16) by (bit_vector);
    assert(((value >> 7u8) & 1 == 1) == (value >= 128)) by (bit_vector);
    assert((value & 0x70) >> 4u8 == (value / 16) % 8) by (bit_vector);
    assert(((value >> 3u8) & 1 == 1) == ((value / 8) % 2 == 1)) by (bit_vector);
    assert(value & 0x7 == value % 8) by (bit_vector);
    assert(t & 0xFF00 | value as u16 == ((t / 256) * 256 + value as u16) as u16) by (bit_vector);
    assert((value as u16 & 0x7) << 8u16 | (t & 0xFF) == ((value % 8) as u16 * 256 + t % 256) as u16) by (bit_vector);
    assert((value & !0x7u8) >> 3u8 == value / 8) by (bit_vector);
}

/// The two pulse channels behind $4000-$4007.
pub struct ApuMemory {
    pub pulse_1: Pulse,
    pub pulse_2: Pulse,
}

impl ApuMemory {
    pub fn new() -> (m: ApuMemory)
        ensures
            m.pulse_1 == m.pulse_2,
            m.pulse_1 == (Pulse {
                duty: 0, envelope_loop: false, constant_volume: false, envelope_or_volume: 0,
                sweep_enabled: false, period: 9, negate: false, shift: 0, timer: 0,
                length_counter_load: 0,
            }),
    {
        ApuMemory { pulse_1: Pulse::new(), pulse_2: Pulse::new() }
    }

    /// Routes $4000-$4003 to pulse 1 and $4004-$4007 to pulse 2, register
    /// `addr % 4 + 1`; other addresses are ignored.
    pub fn write(&mut self, addr: usize, value: u8)
        ensures
            0x4000 <= addr <= 0x4003 ==> final(self).pulse_2 == old(self).pulse_2,
            0x4004 <= addr <= 0x4007 ==> final(self).pulse_1 == old(self).pulse_1,
            !(0x4000 <= addr <= 0x4007) ==> *final(self) == *old(self),
            addr == 0x4000 || addr == 0x4004 ==> ({
                let p = if addr == 0x4000 { old(self).pulse_1 } else { old(self).pulse_2 };
                let q = if addr == 0x4000 { final(self).pulse_1 } else { final(self).pulse_2 };
                q == (Pulse { duty: value / 64, envelope_loop: (value / 32) % 2 == 1,
                    constant_volume: (value / 16) % 2 == 1, envelope_or_volume: value % 16, ..p })
            }),
            addr == 0x4001 || addr == 0x4005 ==> ({
                let p = if addr == 0x4001 { old(self).pulse_1 } else { old(self).pulse_2 };
                let q = if addr == 0x4001 { final(self).pulse_1 } else { final(self).pulse_2 };
                q == (Pulse { sweep_enabled: value >= 128, period: (value / 16) % 8,
                    negate: (value / 8) % 2 == 1, shift: value % 8, ..p })
            }),
            addr == 0x4002 || addr == 0x4006 ==> ({
                let p = if addr == 0x4002 { old(self).pulse_1 } else { old(self).pulse_2 };
                let q = if addr == 0x4002 { final(self).pulse_1 } else { final(self).pulse_2 };
                q == (Pulse { timer: ((p.timer / 256) * 256 + value as u16) as u16, ..p })
            }),
            addr == 0x4003 || addr == 0x4007 ==> ({
                let p = if addr == 0x4003 { old(self).pulse_1 } else { old(self).pulse_2 };
                let q = if addr == 0x4003 { final(self).pulse_1 } else { final(self).pulse_2 };
                q == (Pulse { timer: ((value % 8) as u16 * 256 + p.timer % 256) as u16,
                    length_counter_load: value / 8, ..p })
            }),
    {
        if addr == 0x4000 {
            self.pulse_1.apply_reg1(value);
        } else if addr == 0x4001 {
            self.pulse_1.apply_reg2(value);
        } else if addr == 0x4002 {
            self.pulse_1.apply_reg3(value);
        } else if addr == 0x4003 {
            self.pulse_1.apply_reg4(value);
        } else if addr == 0x4004 {
            self.pulse_2.apply_reg1(value);
        } else if addr == 0x4005 {
            self.pulse_2.apply_reg2(value);
        } else if addr == 0x4006 {
            self.pulse_2.apply_reg3(value);
        } else if addr == 0x4007 {
            self.pulse_2.apply_reg4(value);
        }
    }
}

} // verus!
