//! Pulse channel register decoding.
use nesemu::apu::memory::ApuMemory;

#[test]
fn write_to_pulse1() {
    let mut apu = ApuMemory::new();
    apu.write(0x4000, 0b10010011);
    assert_eq!(0b10, apu.pulse_1.duty);
    assert_eq!(false, apu.pulse_1.envelope_loop);
    assert_eq!(true, apu.pulse_1.constant_volume);
    assert_eq!(3, apu.pulse_1.envelope_or_volume);
    apu.write(0x4001, 0b11000111);
    assert_eq!(true, apu.pulse_1.sweep_enabled);
    assert_eq!(0b100, apu.pulse_1.period);
    assert_eq!(false, apu.pulse_1.negate);
    assert_eq!(7, apu.pulse_1.shift);
    apu.write(0x4002, 0b11001010);
    apu.write(0x4003, 0b11111101);
    assert_eq!(1482, apu.pulse_1.timer);
    assert_eq!(0b11111, apu.pulse_1.length_counter_load);
}

#[test]
fn write_to_pulse2() {
    let mut apu = ApuMemory::new();
    apu.write(0x4004, 0b10010011);
    assert_eq!(0b10, apu.pulse_2.duty);
    assert_eq!(false, apu.pulse_2.envelope_loop);
    assert_eq!(true, apu.pulse_2.constant_volume);
    assert_eq!(3, apu.pulse_2.envelope_or_volume);
    apu.write(0x4005, 0b11000111);
    assert_eq!(true, apu.pulse_2.sweep_enabled);
    assert_eq!(0b100, apu.pulse_2.period);
    assert_eq!(false, apu.pulse_2.negate);
    assert_eq!(7, apu.pulse_2.shift);
    apu.write(0x4006, 0b11001010);
    apu.write(0x4007, 0b11111101);
    assert_eq!(1482, apu.pulse_2.timer);
    assert_eq!(0b11111, apu.pulse_2.length_counter_load);
}

use nesemu::apu::{ApuMemory as SoundRegisters, FrameCounter, SampleTimer, Timer};
use nesemu::cpu::memory::Memory;

#[test]
fn enabled_pulse_loads_its_length_counter() {
    let mut apu = SoundRegisters::new();
    apu.write(0x4015, 0b01);
    apu.write(0x4003, 0b0000_1000); // length index 1
    assert_eq!(254, apu.pulse_1.length_counter.value);
    assert_eq!(0, apu.pulse_1.seq_index);
    assert_eq!(0, apu.pulse_1.timer.timer);
    assert!(apu.dirty);
}

#[test]
fn disabled_pulse_ignores_length_load() {
    let mut apu = SoundRegisters::new();
    apu.write(0x4007, 0b1111_1000);
    assert_eq!(0, apu.pulse_2.length_counter.value);
    apu.write(0x4015, 0b10);
    apu.write(0x4007, 0b1111_1000);
    assert_eq!(30, apu.pulse_2.length_counter.value);
    apu.write(0x4015, 0);
    assert_eq!(0, apu.pulse_2.length_counter.value);
}

#[test]
fn status_register_through_cpu_memory() {
    let mut memory = Memory::default();
    assert_eq!(0, memory.get(0x4015));
    memory.set(0x4015, 0b11);
    memory.set(0x4003, 0);
    assert_eq!(1, memory.get(0x4015));
    memory.set(0x4007, 0);
    assert_eq!(3, memory.get(0x4015));
    memory.set(0x4015, 0b10);
    assert_eq!(2, memory.get(0x4015));
}

#[test]
fn pulse_register_writes_through_cpu_memory() {
    let mut memory = Memory::default();
    memory.set(0x4000, 0b1001_0101);
    assert_eq!(0b10, memory.apu_mem.pulse_1.duty_cycle);
    assert_eq!(0b0101, memory.apu_mem.pulse_1.envelope.period);
    assert!(!memory.apu_mem.pulse_1.envelope.enabled);
    assert_eq!(0b1001_0101, memory.apu_mem.pulse_1_reg1);
    memory.set(0x4002, 0xCA);
    memory.set(0x4003, 0b101);
    assert_eq!(0x5CA, memory.apu_mem.pulse_1.timer.timer);
}

#[test]
fn triangle_registers() {
    let mut apu = SoundRegisters::new();
    apu.write(0x4008, 0b1000_0011);
    assert!(apu.triangle.length_counter.halt_flag_set);
    assert!(apu.triangle.linear_counter.control_flag);
    assert_eq!(3, apu.triangle.linear_counter.reload_value);
    apu.write(0x400A, 0x34);
    apu.write(0x400B, 0b0001_0010);
    assert_eq!(0x234, apu.triangle.timer.timer);
    assert_eq!(20, apu.triangle.length_counter.value);
    assert!(apu.triangle.linear_counter.reload_flag);
}

#[test]
fn timer_expires_after_its_period() {
    let mut t = Timer { timer: 2, current_timer: 0 };
    assert!(t.tick());
    assert_eq!(2, t.current_timer);
    assert!(!t.tick());
    assert!(!t.tick());
    assert!(t.tick());
    let mut silent = Timer { timer: 0, current_timer: 0 };
    assert!(!silent.tick());
}

#[test]
fn frame_counter_marks_quarters_and_wraps() {
    let mut f = FrameCounter::new();
    for _ in 0..7457 {
        f.tick();
    }
    assert!(f.is_1st_quarter());
    for _ in 7457..14913 {
        f.tick();
    }
    assert!(f.is_half());
    for _ in 14913..29829 {
        f.tick();
    }
    assert!(f.is_last());
    f.tick();
    assert_eq!(0, f.current_count);
    assert!(!f.is_interrupt());
}

#[test]
fn sample_timer_alternates_40_and_41_cycles() {
    let mut t = SampleTimer::new();
    let mut due = vec![];
    for cycle in 0..200u64 {
        if t.tick() {
            due.push(cycle);
        }
    }
    assert_eq!(vec![40, 80, 121, 161], due);
}

#[test]
fn step_hands_levels_to_the_mixer_when_a_sample_is_due() {
    let mut apu = SoundRegisters::new();
    apu.write(0x4015, 0b01);
    apu.write(0x4000, 0b1101_1111); // duty 3, constant volume 15
    apu.write(0x4003, 0);
    let mut timer = SampleTimer::new();
    let mut levels = vec![];
    for cycle in 1..=41u64 {
        assert!(apu.is_wf());
        if let Some(l) = apu.step(cycle, &mut timer) {
            levels.push(l);
        }
    }
    // Pulse period 0: the sequencer stays at step 0, high for duty 3.
    assert_eq!(vec![(15, 0, 0)], levels);
}

#[test]
fn triangle_sample_follows_the_wave() {
    let mut apu = SoundRegisters::new();
    apu.write(0x4015, 0b100);
    apu.write(0x4008, 0x7F);
    apu.write(0x400B, 0);
    apu.triangle.linear_counter.current_value = 5;
    assert_eq!(15, apu.triangle.sample());
    apu.triangle.seq_index = 20;
    assert_eq!(4, apu.triangle.sample());
    apu.write(0x4015, 0);
    assert_eq!(0, apu.triangle.sample());
}

#[test]
fn five_step_mode_reports_its_last_step() {
    let mut apu = SoundRegisters::new();
    apu.write(0x4017, 0x80);
    assert_eq!(0x80, apu.frame_counter.mode);
    apu.frame_counter.current_count = 29829;
    assert!(!apu.frame_counter.is_last());
    apu.frame_counter.current_count = 37281;
    assert!(apu.frame_counter.is_last());
    // The last step clocks the length counters.
    apu.write(0x4015, 0b01);
    apu.write(0x4003, 0b0000_1000); // length 254
    apu.frame_counter.current_count = 37280;
    apu.clock(0);
    assert_eq!(37281, apu.frame_counter.current_count);
    assert_eq!(253, apu.pulse_1.length_counter.value);
    let f = FrameCounter { mode: 0, current_count: 37281 };
    assert!(!f.is_last());
}

#[test]
fn disabled_pulse_stays_silent() {
    let mut apu = SoundRegisters::new();
    apu.write(0x4003, 0xFF);
    apu.write(0x4007, 0xFF);
    assert_eq!(0, apu.read() & 0b11);
    apu.write(0x4015, 0b10);
    apu.write(0x4003, 0xFF);
    apu.write(0x4007, 0xFF);
    assert_eq!(0b10, apu.read());
    assert!(apu.is_wf());
}
