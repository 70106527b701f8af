//! Audio processing unit: the register file at $4000-$4017 and the
//! integer clocking of the pulse and triangle channels. Mixing and
//! filtering of samples happen in floating point, outside this library.
use vstd::prelude::*;
use crate::bits::{lemma_byte, lemma_count};
use vstd::compute::RangeAll;

pub mod memory;

verus! {

/// Duty sequences of the pulse channels (12.5%, 25%, 50%, 75% negated).
pub open spec fn duty_table(duty: int, step: int) -> u8 {
    if duty == 0 {
        if step == 1 { 1 } else { 0 }
    } else if duty == 1 {
        if step == 1 || step == 2 { 1 } else { 0 }
    } else if duty == 2 {
        if 1 <= step <= 4 { 1 } else { 0 }
    } else {
        if step == 1 || step == 2 { 0 } else { 1 }
    }
}

/// Length counter load values, indexed by bits 3-7 of $4003/$4007/$400B.
pub open spec fn length_table() -> Seq<u8> {
    seq![
        10, 254, 20, 2, 40, 4, 80, 6, 160, 8, 60, 10, 14, 12, 26, 14, 12, 16, 24, 18, 48, 20,
        96, 22, 192, 24, 72, 26, 16, 28, 32, 30,
    ]
}

/// Triangle output level at each of the 32 sequencer steps.
pub open spec fn triangle_wave(step: int) -> u8 {
    if step < 16 { (15 - step) as u8 } else { (step - 16) as u8 }
}

fn length_counter_lookup(index: u8) -> (r: u8)
    requires
        index < 32,
    ensures
        r == length_table()[index as int],
{
    let table: [u8; 32] = [
        10, 254, 20, 2, 40, 4, 80, 6, 160, 8, 60, 10, 14, 12, 26, 14, 12, 16, 24, 18, 48, 20,
        96, 22, 192, 24, 72, 26, 16, 28, 32, 30,
    ];
    proof {
        assert(table@ =~= length_table());
    }
    table[index as usize]
}

/// Counts CPU cycles to clock envelopes and length counters four times a
/// frame (mode 0) or on a five-step sequence (any other mode).
pub struct FrameCounter {
    pub mode: u8,
    pub current_count: u64,
}

impl FrameCounter {
    pub fn new() -> (f: FrameCounter)
        ensures
            f.mode == 0 && f.current_count == 0,
    {
        FrameCounter { mode: 0, current_count: 0 }
    }

    /// One APU cycle; the count wraps to 0 after 29829 in mode 0 and
    /// after 37281 otherwise.
    pub fn tick(&mut self)
        requires
            old(self).current_count < u64::MAX,
        ensures
            final(self).mode == old(self).mode,
            final(self).current_count == if (old(self).mode == 0 && old(self).current_count + 1 > 29829)
                || old(self).current_count + 1 > 37281 {
                0
            } else {
                old(self).current_count + 1
            },
    {
        self.current_count = self.current_count + 1;
        if self.mode == 0 && self.current_count > 29829 {
            self.current_count = 0;
        } else if self.current_count > 37281 {
            self.current_count = 0;
        }
    }

    pub fn reset(&mut self)
        ensures
            final(self).mode == old(self).mode,
            final(self).current_count == 0,
    {
        self.current_count = 0;
    }

    /// Clock envelopes and the triangle's linear counter.
    pub fn is_1st_quarter(&self) -> (r: bool)
        ensures
            r == (self.current_count == 7457),
    {
        self.current_count == 7457
    }

    /// Clock envelopes, linear counter and length counters.
    pub fn is_half(&self) -> (r: bool)
        ensures
            r == (self.current_count == 14913),
    {
        self.current_count == 14913
    }

    /// Clock envelopes and the triangle's linear counter.
    pub fn is_3rd_quarter(&self) -> (r: bool)
        ensures
            r == (self.current_count == 22371),
    {
        self.current_count == 22371
    }

    /// Last step of the sequence (29829 in the 4-step mode 0, 37281 in
    /// the 5-step mode): clock envelopes, linear counter and length counters.
    pub fn is_last(&self) -> (r: bool)
        ensures
            r == if self.mode == 0 { self.current_count == 29829 } else { self.current_count == 37281 },
    {
        if self.mode == 0 {
            self.current_count == 29829
        } else {
            self.current_count == 37281
        }
    }

    /// Frame interrupts are not generated.
    pub fn is_interrupt(&self) -> (r: bool)
        ensures
            !r,
    {
        false
    }
}

/// Silences a channel when it reaches 0, unless halted.
pub struct LengthCounter {
    pub value: u8,
    pub halt_flag_set: bool,
}

impl LengthCounter {
    pub fn tick(&mut self)
        ensures
            final(self).halt_flag_set == old(self).halt_flag_set,
            final(self).value == if !old(self).halt_flag_set && old(self).value > 0 {
                (old(self).value - 1) as u8
            } else {
                old(self).value
            },
    {
        if !self.halt_flag_set && self.value > 0 {
            self.value = self.value - 1;
        }
    }
}

/// Volume envelope of a pulse channel.
pub struct Envelope {
    /// When true the volume decays at every tick.
    pub enabled: bool,
    pub envelop: bool,
    pub do_loop: bool,
    pub counter: u8,
    /// Both the decay period and the constant volume.
    pub period: u8,
    pub timer: u8,
}

impl Envelope {
    pub open spec fn spec_volume(&self) -> u8 {
        if self.envelop && self.enabled {
            self.counter
        } else if self.envelop && !self.enabled {
            0
        } else {
            self.period
        }
    }

    pub open spec fn after_tick(self) -> Envelope {
        if self.timer == 0 {
            Envelope {
                counter: if self.counter == 0 { 15 } else { (self.counter - 1) as u8 },
                timer: self.period,
                ..self
            }
        } else {
            Envelope { timer: (self.timer - 1) as u8, ..self }
        }
    }

    pub fn volume(&self) -> (v: u8)
        ensures
            v == self.spec_volume(),
    {
        if self.envelop && self.enabled {
            self.counter
        } else if self.envelop && !self.enabled {
            0
        } else {
            self.period
        }
    }

    /// Each tick counts the divider down; when it expires the decay level
    /// drops by one (wrapping from 0 to 15) and the divider reloads.
    pub fn tick(&mut self)
        ensures
            *final(self) == old(self).after_tick(),
    {
        if self.timer == 0 {
            if self.counter == 0 {
                self.counter = 15;
            } else {
                self.counter = self.counter - 1;
            }
            self.timer = self.period;
        } else {
            self.timer = self.timer - 1;
        }
    }
}

/// 11-bit period divider shared by the channels.
pub struct Timer {
    pub timer: u16,
    pub current_timer: u16,
}

impl Timer {
    pub open spec fn after_tick(self) -> Timer {
        if self.timer == 0 {
            self
        } else if self.current_timer == 0 {
            Timer { current_timer: self.timer, ..self }
        } else {
            Timer { current_timer: (self.current_timer - 1) as u16, ..self }
        }
    }

    /// True when the divider expires and the sequencer should step. A zero
    /// period never expires.
    pub fn tick(&mut self) -> (r: bool)
        ensures
            r == (old(self).timer != 0 && old(self).current_timer == 0),
            *final(self) == old(self).after_tick(),
    {
        if self.timer == 0 {
            return false;
        }
        if self.current_timer == 0 {
            self.current_timer = self.timer;
            return true;
        } else {
            self.current_timer = self.current_timer - 1;
        }
        false
    }

    /// Sets the low 8 bits of the period, keeping bits 8-10.
    pub fn set_low(&mut self, low: u8)
        ensures
            final(self).timer == (old(self).timer & 0b111_0000_0000) | (low as u16),
            final(self).current_timer == old(self).current_timer,
    {
        self.timer = self.timer & 0b11100000000 | (low as u16);
    }

    /// Sets bits 8-10 of the period from the low 3 bits of `high`.
    pub fn set_high(&mut self, high: u8)
        ensures
            final(self).timer == ((high as u16 & 0b111) << 8u16) | (old(self).timer & 0b1111_1111),
            final(self).current_timer == old(self).current_timer,
    {
        self.timer = (high as u16 & 0b111) << 8u16 | self.timer & 0b11111111;
    }
}

/// Period law: after `set_low(lo)` then `set_high(hi)` the period is the
/// 11-bit value `(hi & 7) * 256 + lo`, whatever it was before.
pub proof fn lemma_timer_period(old_timer: u16, lo: u8, hi: u8)
    ensures
        ({
            let t1 = (old_timer & 0b111_0000_0000) | (lo as u16);
            let t2 = ((hi as u16 & 0b111) << 8u16) | (t1 & 0b1111_1111);
            t2 == (hi % 8) as u16 * 256 + lo as u16
        }),
{
    assert((((hi as u16 & 0b111) << 8u16) | (((old_timer & 0b111_0000_0000) | (lo as u16)) & 0b1111_1111))
        == (hi % 8) as u16 * 256 + lo as u16) by (bit_vector);
}

/// Triangle's linear counter.
pub struct LinearCounter {
    pub control_flag: bool,
    pub current_value: u8,
    pub reload_value: u8,
    pub reload_flag: bool,
}

impl LinearCounter {
    pub open spec fn after_tick(self) -> LinearCounter {
        LinearCounter {
            current_value: if self.reload_flag {
                self.reload_value
            } else if self.current_value > 0 {
                (self.current_value - 1) as u8
            } else {
                self.current_value
            },
            reload_flag: if !self.control_flag { false } else { self.reload_flag },
            ..self
        }
    }

    pub fn tick(&mut self)
        ensures
            *final(self) == old(self).after_tick(),
    {
        if self.reload_flag {
            self.current_value = self.reload_value;
        } else if self.current_value > 0 {
            self.current_value = self.current_value - 1;
        }

        if !self.control_flag {
            self.reload_flag = false;
        }
    }
}

/// Triangle wave channel.
pub struct Triangle {
    pub enabled: bool,
    pub length_counter: LengthCounter,
    /// Step of the 32-step sequencer.
    pub seq_index: usize,
    pub linear_counter: LinearCounter,
    pub timer: Timer,
}

impl Triangle {
    pub open spec fn after_tick(self) -> Triangle {
        if self.timer.timer != 0 && self.timer.current_timer == 0 {
            Triangle {
                timer: self.timer.after_tick(),
                seq_index: if self.seq_index == 31 { 0 } else { (self.seq_index + 1) as usize },
                ..self
            }
        } else {
            Triangle { timer: self.timer.after_tick(), ..self }
        }
    }

    /// Ticks every CPU cycle; the sequencer steps when the timer expires.
    pub fn tick(&mut self)
        requires
            old(self).seq_index < usize::MAX,
        ensures
            *final(self) == old(self).after_tick(),
    {
        if self.timer.tick() {
            if self.seq_index == 31 {
                self.seq_index = 0;
            } else {
                self.seq_index = self.seq_index + 1;
            }
        }
    }

    /// Disabling also clears the length counter.
    pub fn set_enabled(&mut self, enabled: bool)
        ensures
            final(self).enabled == enabled,
            final(self).length_counter.value == if enabled { old(self).length_counter.value } else { 0 },
            final(self).length_counter.halt_flag_set == old(self).length_counter.halt_flag_set,
            final(self).seq_index == old(self).seq_index,
            final(self).linear_counter == old(self).linear_counter,
            final(self).timer == old(self).timer,
    {
        self.enabled = enabled;
        if !enabled {
            self.length_counter.value = 0;
        }
    }

    pub open spec fn spec_sample(&self) -> u8 {
        if !self.enabled || self.length_counter.value == 0 || self.linear_counter.current_value == 0 {
            0
        } else {
            triangle_wave(self.seq_index as int)
        }
    }

    /// Output level (0 to 15): silent when disabled or when the length or
    /// linear counter is 0, else the current step of the triangle sequence.
    pub fn sample(&self) -> (r: u8)
        requires
            self.seq_index < 32,
        ensures
            r == self.spec_sample(),
    {
        if !self.enabled {
            return 0;
        }
        if self.length_counter.value == 0 {
            return 0;
        }
        if self.linear_counter.current_value == 0 {
            return 0;
        }
        if self.seq_index < 16 {
            (15 - self.seq_index) as u8
        } else {
            (self.seq_index - 16) as u8
        }
    }
}

/// A disabled pulse channel with every counter at 0.
pub open spec fn silent_pulse() -> Pulse {
    Pulse {
        enabled: false,
        envelope: Envelope { enabled: false, envelop: false, do_loop: false, counter: 0, period: 0, timer: 0 },
        length_counter: LengthCounter { value: 0, halt_flag_set: false },
        duty_cycle: 0,
        seq_index: 0,
        timer: Timer { timer: 0, current_timer: 0 },
    }
}

/// A disabled triangle channel with every counter at 0.
pub open spec fn silent_triangle() -> Triangle {
    Triangle {
        enabled: false,
        length_counter: LengthCounter { value: 0, halt_flag_set: false },
        seq_index: 0,
        linear_counter: LinearCounter { control_flag: false, current_value: 0, reload_value: 0, reload_flag: false },
        timer: Timer { timer: 0, current_timer: 0 },
    }
}

/// Square wave channel.
pub struct Pulse {
    pub enabled: bool,
    pub envelope: Envelope,
    pub length_counter: LengthCounter,
    /// Duty selector, 0 to 3.
    pub duty_cycle: u8,
    /// Step of the 8-step duty sequence.
    pub seq_index: usize,
    pub timer: Timer,
}

impl Pulse {
    pub open spec fn after_tick(self) -> Pulse {
        if self.timer.timer != 0 && self.timer.current_timer == 0 {
            Pulse {
                timer: self.timer.after_tick(),
                seq_index: if self.seq_index == 7 { 0 } else { (self.seq_index + 1) as usize },
                ..self
            }
        } else {
            Pulse { timer: self.timer.after_tick(), ..self }
        }
    }

    /// A silent, disabled channel with everything at 0.
    pub fn new() -> (p: Self)
        ensures
            p == silent_pulse(),
    {
        Pulse {
            enabled: false,
            envelope: Envelope { enabled: false, envelop: false, do_loop: false, counter: 0, period: 0, timer: 0 },
            length_counter: LengthCounter { value: 0, halt_flag_set: false },
            duty_cycle: 0,
            seq_index: 0,
            timer: Timer { timer: 0, current_timer: 0 },
        }
    }

    /// Clocked every second CPU cycle.
    pub fn tick(&mut self)
        requires
            old(self).seq_index < usize::MAX,
        ensures
            *final(self) == old(self).after_tick(),
    {
        if self.timer.tick() {
            if self.seq_index == 7 {
                self.seq_index = 0;
            } else {
                self.seq_index = self.seq_index + 1;
            }
        }
    }

    /// After a write to $4003/$4007 the sequencer restarts.
    pub fn reset(&mut self)
        ensures
            *final(self) == (Pulse { seq_index: 0, ..*old(self) }),
    {
        self.seq_index = 0;
    }

    /// Disabling also clears the length counter.
    pub fn set_enabled(&mut self, enabled: bool)
        ensures
            *final(self) == (Pulse {
                enabled,
                length_counter: LengthCounter {
                    value: if enabled { old(self).length_counter.value } else { 0 },
                    ..old(self).length_counter
                },
                ..*old(self)
            }),
    {
        self.enabled = enabled;
        if !enabled {
            self.length_counter.value = 0;
        }
    }

    pub open spec fn spec_sample(&self) -> u8 {
        if self.length_counter.value == 0 {
            0
        } else {
            (self.envelope.spec_volume() * duty_table(self.duty_cycle as int, self.seq_index as int)) as u8
        }
    }

    /// Output level: the envelope volume while the duty sequence is high,
    /// 0 while it is low or once the length counter has run out.
    pub fn sample(&self) -> (r: u8)
        requires
            self.duty_cycle < 4,
            self.seq_index < 8,
        ensures
            r == self.spec_sample(),
    {
        if self.length_counter.value == 0 {
            return 0;
        }
        let d = self.duty_cycle;
        let st = self.seq_index;
        let duty: u8 = if d == 0 {
            if st == 1 { 1 } else { 0 }
        } else if d == 1 {
            if st == 1 || st == 2 { 1 } else { 0 }
        } else if d == 2 {
            if 1 <= st && st <= 4 { 1 } else { 0 }
        } else {
            if st == 1 || st == 2 { 0 } else { 1 }
        };
        let v = self.envelope.volume();
        if duty == 1 { v } else { 0 }
    }
}

/// Register file of the APU.
pub struct ApuMemory {
    /// Last value written to $4000.
    pub pulse_1_reg1: u8,
    /// Last value written to $4001 or $4005.
    pub pulse_1_reg2: u8,
    pub pulse_1: Pulse,
    pub pulse_2: Pulse,
    pub triangle: Triangle,
    pub frame_counter: FrameCounter,
    /// Set by every write.
    pub dirty: bool,
}

/// All channels silent, frame counter at its start.
pub open spec fn silent_apu() -> ApuMemory {
    ApuMemory {
        pulse_1_reg1: 0,
        pulse_1_reg2: 0,
        pulse_1: silent_pulse(),
        pulse_2: silent_pulse(),
        triangle: silent_triangle(),
        frame_counter: FrameCounter { mode: 0, current_count: 0 },
        dirty: false,
    }
}

/// Pulse after a write to its first register ($4000/$4004): duty in bits
/// 6-7, loop/halt in bit 5, constant volume in bit 4, period in bits 0-3.
pub open spec fn pulse_after_reg1(p: Pulse, value: u8) -> Pulse {
    Pulse {
        duty_cycle: value >> 6u8,
        envelope: Envelope {
            period: value & 0b1111,
            do_loop: value & 0b0010_0000 == 0b0010_0000,
            enabled: value & 0b0001_0000 == 0,
            ..p.envelope
        },
        length_counter: LengthCounter {
            halt_flag_set: value & 0b0010_0000 == 0b0010_0000,
            ..p.length_counter
        },
        ..p
    }
}

/// Pulse after a write to its fourth register ($4003/$4007): period bits
/// 8-10, sequencer restart and, if enabled, a length counter load.
pub open spec fn pulse_after_reg4(p: Pulse, value: u8) -> Pulse {
    Pulse {
        timer: Timer { timer: ((value as u16 & 0b111) << 8u16) | (p.timer.timer & 0b1111_1111), ..p.timer },
        seq_index: 0,
        length_counter: LengthCounter {
            value: if p.enabled { length_table()[(value >> 3u8) as int] } else { p.length_counter.value },
            ..p.length_counter
        },
        ..p
    }
}

/// Pulse after a write to its third register ($4002/$4006): period bits 0-7.
pub open spec fn pulse_after_reg3(p: Pulse, value: u8) -> Pulse {
    Pulse {
        timer: Timer { timer: (p.timer.timer & 0b111_0000_0000) | (value as u16), ..p.timer },
        ..p
    }
}

impl ApuMemory {
    /// Clocks the envelopes and the triangle's linear counter.
    pub open spec fn after_quarter_frame(self) -> ApuMemory {
        ApuMemory {
            pulse_1: Pulse { envelope: self.pulse_1.envelope.after_tick(), ..self.pulse_1 },
            pulse_2: Pulse { envelope: self.pulse_2.envelope.after_tick(), ..self.pulse_2 },
            triangle: Triangle { linear_counter: self.triangle.linear_counter.after_tick(), ..self.triangle },
            ..self
        }
    }

    pub open spec fn length_ticked(c: LengthCounter) -> LengthCounter {
        LengthCounter {
            value: if !c.halt_flag_set && c.value > 0 { (c.value - 1) as u8 } else { c.value },
            ..c
        }
    }

    /// Clocks the three length counters.
    pub open spec fn after_half_frame(self) -> ApuMemory {
        ApuMemory {
            pulse_1: Pulse { length_counter: Self::length_ticked(self.pulse_1.length_counter), ..self.pulse_1 },
            pulse_2: Pulse { length_counter: Self::length_ticked(self.pulse_2.length_counter), ..self.pulse_2 },
            triangle: Triangle {
                length_counter: Self::length_ticked(self.triangle.length_counter),
                ..self.triangle
            },
            ..self
        }
    }

    /// Register file after `value` is written at `addr`.
    /// Status read at $4015: bit 0 when pulse 1 is still sounding, bit 1
    /// for pulse 2.
    pub open spec fn spec_status(self) -> u8 {
        ((if self.pulse_1.length_counter.value > 0 { 1int } else { 0int })
            + (if self.pulse_2.length_counter.value > 0 { 2int } else { 0int })) as u8
    }

    pub open spec fn after_write(self, addr: usize, value: u8) -> ApuMemory {
        let s = ApuMemory { dirty: true, ..self };
        if 0x4000 <= addr <= 0x4003 {
            s.after_write_pulse_1(addr, value)
        } else if 0x4004 <= addr <= 0x4007 {
            s.after_write_pulse_2(addr, value)
        } else if addr == 0x4008 || addr == 0x400A || addr == 0x400B {
            s.after_write_triangle(addr, value)
        } else if addr == 0x4015 || addr == 0x4017 {
            s.after_write_control(addr, value)
        } else {
            s
        }
    }

    pub open spec fn after_write_pulse_1(self, addr: usize, value: u8) -> ApuMemory {
        if addr == 0x4000 {
            ApuMemory { pulse_1_reg1: value, pulse_1: pulse_after_reg1(self.pulse_1, value), ..self }
        } else if addr == 0x4001 {
            ApuMemory { pulse_1_reg2: value, ..self }
        } else if addr == 0x4002 {
            ApuMemory { pulse_1: pulse_after_reg3(self.pulse_1, value), ..self }
        } else {
            ApuMemory { pulse_1: pulse_after_reg4(self.pulse_1, value), ..self }
        }
    }

    /// Note that $4005 lands in `pulse_1_reg2`.
    pub open spec fn after_write_pulse_2(self, addr: usize, value: u8) -> ApuMemory {
        if addr == 0x4004 {
            ApuMemory { pulse_2: pulse_after_reg1(self.pulse_2, value), ..self }
        } else if addr == 0x4005 {
            ApuMemory { pulse_1_reg2: value, ..self }
        } else if addr == 0x4006 {
            ApuMemory { pulse_2: pulse_after_reg3(self.pulse_2, value), ..self }
        } else {
            ApuMemory { pulse_2: pulse_after_reg4(self.pulse_2, value), ..self }
        }
    }

    pub open spec fn after_write_triangle(self, addr: usize, value: u8) -> ApuMemory {
        if addr == 0x4008 {
            let halt = value & 0b1000_0000 == 0b1000_0000;
            ApuMemory {
                triangle: Triangle {
                    length_counter: LengthCounter { halt_flag_set: halt, ..self.triangle.length_counter },
                    linear_counter: LinearCounter {
                        control_flag: halt,
                        reload_value: value & 0b0111_1111,
                        ..self.triangle.linear_counter
                    },
                    ..self.triangle
                },
                ..self
            }
        } else if addr == 0x400A {
            ApuMemory {
                triangle: Triangle {
                    timer: Timer {
                        timer: (self.triangle.timer.timer & 0b111_0000_0000) | (value as u16),
                        ..self.triangle.timer
                    },
                    ..self.triangle
                },
                ..self
            }
        } else {
            ApuMemory {
                triangle: Triangle {
                    timer: Timer {
                        timer: ((value as u16 & 0b111) << 8u16) | (self.triangle.timer.timer & 0b1111_1111),
                        ..self.triangle.timer
                    },
                    length_counter: LengthCounter {
                        value: length_table()[(value >> 3u8) as int],
                        ..self.triangle.length_counter
                    },
                    linear_counter: LinearCounter { reload_flag: true, ..self.triangle.linear_counter },
                    ..self.triangle
                },
                ..self
            }
        }
    }

    /// $4015 enables channels (a disabled channel's length counter is
    /// cleared); $4017 sets the frame counter mode, and a non-zero mode
    /// clocks a quarter and a half frame at once.
    pub open spec fn after_write_control(self, addr: usize, value: u8) -> ApuMemory {
        if addr == 0x4015 {
            let e1 = value & 0b1 == 0b1;
            let e2 = value & 0b10 == 0b10;
            let e3 = value & 0b100 == 0b100;
            ApuMemory {
                pulse_1: Pulse {
                    enabled: e1,
                    length_counter: LengthCounter {
                        value: if e1 { self.pulse_1.length_counter.value } else { 0 },
                        ..self.pulse_1.length_counter
                    },
                    ..self.pulse_1
                },
                pulse_2: Pulse {
                    enabled: e2,
                    length_counter: LengthCounter {
                        value: if e2 { self.pulse_2.length_counter.value } else { 0 },
                        ..self.pulse_2.length_counter
                    },
                    ..self.pulse_2
                },
                triangle: Triangle {
                    enabled: e3,
                    length_counter: LengthCounter {
                        value: if e3 { self.triangle.length_counter.value } else { 0 },
                        ..self.triangle.length_counter
                    },
                    ..self.triangle
                },
                ..self
            }
        } else {
            let mode = value & 0b1000_0000;
            let s2 = ApuMemory { frame_counter: FrameCounter { mode, ..self.frame_counter }, ..self };
            if mode > 0 {
                s2.after_quarter_frame().after_half_frame()
            } else {
                s2
            }
        }
    }

    /// All channels silent and disabled, frame counter in mode 0.
    pub fn new() -> (m: ApuMemory)
        ensures
            m == silent_apu(),
    {
        ApuMemory {
            pulse_1_reg1: 0,
            pulse_1_reg2: 0,
            pulse_1: Pulse::new(),
            pulse_2: Pulse::new(),
            triangle: Triangle {
                enabled: false,
                length_counter: LengthCounter { value: 0, halt_flag_set: false },
                seq_index: 0,
                linear_counter: LinearCounter {
                    control_flag: false,
                    current_value: 0,
                    reload_value: 0,
                    reload_flag: false,
                },
                timer: Timer { timer: 0, current_timer: 0 },
            },
            frame_counter: FrameCounter::new(),
            dirty: false,
        }
    }

    /// Register write from the CPU.
    pub fn write(&mut self, addr: usize, value: u8)
        ensures
            *final(self) == old(self).after_write(addr, value),
    {
        self.dirty = true;
        if 0x4000 <= addr && addr <= 0x4003 {
            self.write_pulse_1(addr, value);
        } else if 0x4004 <= addr && addr <= 0x4007 {
            self.write_pulse_2(addr, value);
        } else if addr == 0x4008 || addr == 0x400A || addr == 0x400B {
            self.write_triangle(addr, value);
        } else if addr == 0x4015 || addr == 0x4017 {
            self.write_control(addr, value);
        }
    }

    fn write_pulse_1(&mut self, addr: usize, value: u8)
        requires
            0x4000 <= addr <= 0x4003,
        ensures
            *final(self) == old(self).after_write_pulse_1(addr, value),
    {
        if addr == 0x4000 {
            self.pulse_1_reg1 = value;
            self.pulse_1.duty_cycle = value >> 6u8;
            self.pulse_1.envelope.period = value & 0b1111;
            self.pulse_1.envelope.do_loop = value & 0b00100000 == 0b00100000;
            self.pulse_1.envelope.enabled = value & 0b00010000 == 0;
            self.pulse_1.length_counter.halt_flag_set = value & 0b00100000 == 0b00100000;
        } else if addr == 0x4001 {
            self.pulse_1_reg2 = value;
        } else if addr == 0x4002 {
            self.pulse_1.timer.set_low(value);
        } else {
            self.pulse_1.timer.set_high(value);
            self.pulse_1.reset();
            if self.pulse_1.enabled {
                proof { lemma_byte(value); }
                self.pulse_1.length_counter.value = length_counter_lookup(value >> 3u8);
            }
        }
    }

    fn write_pulse_2(&mut self, addr: usize, value: u8)
        requires
            0x4004 <= addr <= 0x4007,
        ensures
            *final(self) == old(self).after_write_pulse_2(addr, value),
    {
        if addr == 0x4004 {
            self.pulse_2.duty_cycle = value >> 6u8;
            self.pulse_2.envelope.period = value & 0b1111;
            self.pulse_2.envelope.do_loop = value & 0b00100000 == 0b00100000;
            self.pulse_2.envelope.enabled = value & 0b00010000 == 0;
            self.pulse_2.length_counter.halt_flag_set = value & 0b00100000 == 0b00100000;
        } else if addr == 0x4005 {
            self.pulse_1_reg2 = value;
        } else if addr == 0x4006 {
            self.pulse_2.timer.set_low(value);
        } else {
            self.pulse_2.timer.set_high(value);
            self.pulse_2.reset();
            if self.pulse_2.enabled {
                proof { lemma_byte(value); }
                self.pulse_2.length_counter.value = length_counter_lookup(value >> 3u8);
            }
        }
    }

    fn write_triangle(&mut self, addr: usize, value: u8)
        requires
            addr == 0x4008 || addr == 0x400A || addr == 0x400B,
        ensures
            *final(self) == old(self).after_write_triangle(addr, value),
    {
        if addr == 0x4008 {
            let length_counter_halt = value & 0b1000_0000 == 0b1000_0000;
            self.triangle.length_counter.halt_flag_set = length_counter_halt;
            self.triangle.linear_counter.control_flag = length_counter_halt;
            self.triangle.linear_counter.reload_value = value & 0b0111_1111;
        } else if addr == 0x400A {
            self.triangle.timer.set_low(value);
        } else {
            self.triangle.timer.set_high(value);
            proof { lemma_byte(value); }
            self.triangle.length_counter.value = length_counter_lookup(value >> 3u8);
            self.triangle.linear_counter.reload_flag = true;
        }
    }

    fn write_control(&mut self, addr: usize, value: u8)
        requires
            addr == 0x4015 || addr == 0x4017,
        ensures
            *final(self) == old(self).after_write_control(addr, value),
    {
        if addr == 0x4015 {
            self.pulse_1.set_enabled(value & 0b1 == 0b1);
            self.pulse_2.set_enabled(value & 0b10 == 0b10);
            self.triangle.set_enabled(value & 0b100 == 0b100);
        } else {
            let mode = value & 0b1000_0000;
            self.frame_counter.mode = mode;
            if mode > 0 {
                self.tick_envelopes_and_linear_counter();
                self.tick_length_counters();
            }
        }
    }

    /// Status: bit 0 set while pulse 1's length counter is non-zero, bit 1
    /// likewise for pulse 2.
    pub fn read(&mut self) -> (r: u8)
        ensures
            *final(self) == *old(self),
            r == old(self).spec_status(),
    {
        let mut res: u8 = 0;
        if self.pulse_1.length_counter.value > 0 {
            res = res | 0b1;
        }
        if self.pulse_2.length_counter.value > 0 {
            proof {
                lemma_byte(res);
            }
            res = res | 0b10;
        }
        proof {
            lemma_byte(res);
        }
        res
    }

    pub fn tick_envelopes_and_linear_counter(&mut self)
        ensures
            *final(self) == old(self).after_quarter_frame(),
    {
        self.pulse_1.envelope.tick();
        self.pulse_2.envelope.tick();
        self.triangle.linear_counter.tick();
    }

    pub fn tick_length_counters(&mut self)
        ensures
            *final(self) == old(self).after_half_frame(),
    {
        self.pulse_1.length_counter.tick();
        self.pulse_2.length_counter.tick();
        self.triangle.length_counter.tick();
    }

    /// Register file after the CPU cycle numbered `cycle`: pulse channels
    /// and frame counter are clocked on even cycles, the triangle on every
    /// cycle, then the frame counter's quarter and half frames are applied.
    pub open spec fn after_clock(self, cycle: u64) -> ApuMemory {
        let s1 = if cycle % 2 == 0 {
            ApuMemory {
                pulse_1: self.pulse_1.after_tick(),
                pulse_2: self.pulse_2.after_tick(),
                frame_counter: FrameCounter {
                    current_count: if (self.frame_counter.mode == 0 && self.frame_counter.current_count + 1 > 29829)
                        || self.frame_counter.current_count + 1 > 37281 {
                        0
                    } else {
                        (self.frame_counter.current_count + 1) as u64
                    },
                    ..self.frame_counter
                },
                ..self
            }
        } else {
            self
        };
        let s2 = ApuMemory { triangle: s1.triangle.after_tick(), ..s1 };
        let c = s2.frame_counter.current_count;
        let last = if s2.frame_counter.mode == 0 { c == 29829 } else { c == 37281 };
        if c == 7457 || c == 22371 {
            s2.after_quarter_frame()
        } else if c == 14913 || last {
            s2.after_quarter_frame().after_half_frame()
        } else {
            s2
        }
    }

    /// Advances the channels by one CPU cycle, `cycle` being the number of
    /// cycles run so far including this one.
    pub fn clock(&mut self, cycle: u64)
        requires
            old(self).pulse_1.seq_index < usize::MAX,
            old(self).pulse_2.seq_index < usize::MAX,
            old(self).triangle.seq_index < usize::MAX,
            old(self).frame_counter.current_count < u64::MAX,
        ensures
            *final(self) == old(self).after_clock(cycle),
    {
        proof {
            lemma_count(cycle);
        }
        if cycle & 1 == 0 {
            self.pulse_1.tick();
            self.pulse_2.tick();
            self.frame_counter.tick();
        }
        self.triangle.tick();

        if self.frame_counter.is_1st_quarter() {
            self.tick_envelopes_and_linear_counter();
        } else if self.frame_counter.is_half() {
            self.tick_envelopes_and_linear_counter();
            self.tick_length_counters();
        } else if self.frame_counter.is_3rd_quarter() {
            self.tick_envelopes_and_linear_counter();
        } else if self.frame_counter.is_last() {
            self.tick_envelopes_and_linear_counter();
            self.tick_length_counters();
        }
    }

    /// Levels of pulse 1, pulse 2 and the triangle.
    pub open spec fn spec_levels(self) -> (u8, u8, u8) {
        (self.pulse_1.spec_sample(), self.pulse_2.spec_sample(), self.triangle.spec_sample())
    }

    /// Output levels of pulse 1, pulse 2 and the triangle.
    pub fn channel_levels(&self) -> (r: (u8, u8, u8))
        requires
            self.pulse_1.duty_cycle < 4 && self.pulse_1.seq_index < 8,
            self.pulse_2.duty_cycle < 4 && self.pulse_2.seq_index < 8,
            self.triangle.seq_index < 32,
        ensures
            r == self.spec_levels(),
    {
        (self.pulse_1.sample(), self.pulse_2.sample(), self.triangle.sample())
    }

    /// The sequencer steps stay inside the duty and triangle tables, the
    /// frame counter inside its longest sequence, and a disabled pulse
    /// channel has its length counter at 0.
    pub open spec fn wf(self) -> bool {
        &&& self.pulse_1.duty_cycle < 4 && self.pulse_1.seq_index < 8
        &&& self.pulse_2.duty_cycle < 4 && self.pulse_2.seq_index < 8
        &&& self.triangle.seq_index < 32
        &&& self.frame_counter.current_count <= 37281
        &&& !self.pulse_1.enabled ==> self.pulse_1.length_counter.value == 0
        &&& !self.pulse_2.enabled ==> self.pulse_2.length_counter.value == 0
    }

    pub fn is_wf(&self) -> (r: bool)
        ensures
            r == self.wf(),
    {
        self.pulse_1.duty_cycle < 4 && self.pulse_1.seq_index < 8 && self.pulse_2.duty_cycle < 4
            && self.pulse_2.seq_index < 8 && self.triangle.seq_index < 32
            && self.frame_counter.current_count <= 37281
            && (self.pulse_1.enabled || self.pulse_1.length_counter.value == 0)
            && (self.pulse_2.enabled || self.pulse_2.length_counter.value == 0)
    }

    /// One CPU cycle of sound: the channels are clocked, then, when the
    /// sample timer is due, the three channel levels are handed to the mixer.
    pub fn step(&mut self, cycle: u64, timer: &mut SampleTimer) -> (r: Option<(u8, u8, u8)>)
        requires
            old(self).wf(),
            old(timer).wf(),
        ensures
            *final(self) == old(self).after_clock(cycle),
            *final(timer) == old(timer).after_tick(),
            final(self).wf(),
            final(timer).wf(),
            r == if old(timer).sample_timer == 0 { Some(final(self).spec_levels()) } else { None },
    {
        proof {
            lemma_apu_wf(*self, 0, 0, cycle);
        }
        self.clock(cycle);
        if timer.tick() {
            Some(self.channel_levels())
        } else {
            None
        }
    }
}

/// The register file is well formed at power on, and every register write
/// and every clocked cycle keeps it so.
pub proof fn lemma_apu_wf(m: ApuMemory, addr: usize, value: u8, cycle: u64)
    requires
        m.wf(),
    ensures
        silent_apu().wf(),
        m.after_write(addr, value).wf(),
        m.after_clock(cycle).wf(),
{
    assert(value >> 6u8 < 4) by (bit_vector);
}

/// Decides at which CPU cycles the mixer takes a sample: every
/// `sample_timer_rate` cycles, one cycle longer every other time.
pub struct SampleTimer {
    pub sample_timer: u64,
    pub sample_timer_rate: u64,
    pub extra: u64,
}

impl SampleTimer {
    /// A sample every 40 or 41 cycles, about 44.1 kHz for a 60 Hz frame.
    pub fn new() -> (t: SampleTimer)
        ensures
            t == (SampleTimer { sample_timer: 40, sample_timer_rate: 40, extra: 0 }),
            t.wf(),
    {
        SampleTimer { sample_timer: 40, sample_timer_rate: 40, extra: 0 }
    }

    /// The timer one CPU cycle later: when it was due it restarts from the
    /// rate (plus one every other time), else it counts down.
    pub open spec fn after_tick(self) -> SampleTimer {
        if self.sample_timer == 0 {
            SampleTimer {
                sample_timer: (self.sample_timer_rate + self.extra - 1) as u64,
                extra: ((self.extra + 1) % 2) as u64,
                ..self
            }
        } else {
            SampleTimer { sample_timer: (self.sample_timer - 1) as u64, ..self }
        }
    }

    /// A positive rate that leaves room for the extra cycle.
    pub open spec fn wf(self) -> bool {
        1 <= self.sample_timer_rate <= 0xFFFF && self.extra <= 1 && self.sample_timer <= self.sample_timer_rate + 1
    }

    /// One CPU cycle; true when a sample is due at this cycle.
    pub fn tick(&mut self) -> (take: bool)
        requires
            old(self).sample_timer_rate + old(self).extra <= u64::MAX,
            old(self).sample_timer == 0 ==> old(self).sample_timer_rate + old(self).extra > 0,
            old(self).sample_timer == 0 ==> old(self).extra < u64::MAX,
        ensures
            take == (old(self).sample_timer == 0),
            *final(self) == old(self).after_tick(),
    {
        let mut take = false;
        if self.sample_timer == 0 {
            take = true;
            self.sample_timer = self.sample_timer_rate + self.extra;
            self.extra = (self.extra + 1) % 2;
        }
        self.sample_timer = self.sample_timer - 1;
        take
    }
}

/// Every length counter load value is positive.
proof fn lemma_length_table_positive(i: int)
    requires
        0 <= i < 32,
    ensures
        length_table()[i] > 0,
{
    let p = |k: int| length_table()[k] > 0;
    assert((0..32int).all_spec(p)) by {
        reveal_with_fuel(vstd::compute::range_all_spec_rec, 33);
    }
    vstd::compute::all_spec_ensures(0..32int, p);
    assert(p(i));
}

/// Length-load law: a write to $4003 sets bits 8-10 of pulse 1's period
/// and restarts its sequencer; an enabled channel loads its length counter
/// from the table, so bit 0 of $4015 reads 1, while a disabled one keeps it
/// at 0, so that bit reads 0 (by `lemma_apu_wf`, a disabled channel stays
/// at 0 over any sequence of writes and clocks). $4007 does the same for
/// pulse 2 and bit 1.
pub proof fn lemma_length_load(m: ApuMemory, v: u8)
    requires
        m.wf(),
    ensures
        ({
            let m1 = m.after_write(0x4003, v);
            &&& m1.dirty
            &&& m1.pulse_1.timer.timer == ((v as u16 & 7) << 8u16) | (m.pulse_1.timer.timer & 0xFF)
            &&& m1.pulse_1.seq_index == 0
            &&& m1.pulse_2 == m.pulse_2
            &&& m.pulse_1.enabled ==> m1.pulse_1.length_counter.value == length_table()[(v >> 3u8) as int]
                && m1.spec_status() & 1 == 1
            &&& !m.pulse_1.enabled ==> m1.pulse_1.length_counter.value == 0 && m1.spec_status() & 1 == 0
        }),
        ({
            let m2 = m.after_write(0x4007, v);
            &&& m2.dirty
            &&& m2.pulse_2.timer.timer == ((v as u16 & 7) << 8u16) | (m.pulse_2.timer.timer & 0xFF)
            &&& m2.pulse_2.seq_index == 0
            &&& m2.pulse_1 == m.pulse_1
            &&& m.pulse_2.enabled ==> m2.pulse_2.length_counter.value == length_table()[(v >> 3u8) as int]
                && m2.spec_status() & 2 == 2
            &&& !m.pulse_2.enabled ==> m2.pulse_2.length_counter.value == 0 && m2.spec_status() & 2 == 0
        }),
{
    lemma_byte(v);
    lemma_length_table_positive((v >> 3u8) as int);
    let s1 = m.after_write(0x4003, v).spec_status();
    let s2 = m.after_write(0x4007, v).spec_status();
    assert(s1 <= 3 ==> (s1 & 1 == 1) == (s1 == 1 || s1 == 3)) by (bit_vector);
    assert(s1 <= 3 ==> (s1 & 1 == 0) == (s1 == 0 || s1 == 2)) by (bit_vector);
    assert(s2 <= 3 ==> (s2 & 2 == 2) == (s2 == 2 || s2 == 3)) by (bit_vector);
    assert(s2 <= 3 ==> (s2 & 2 == 0) == (s2 == 0 || s2 == 1)) by (bit_vector);
}

} // verus!
