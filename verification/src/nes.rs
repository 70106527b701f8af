//! The console: a CPU with its memory, a PPU, and the front-end flags. One
//! tick runs one CPU instruction, then three PPU cycles per CPU cycle.
use vstd::prelude::*;
use crate::apu::{ApuMemory, SampleTimer};
use crate::bits::lemma_word;
use crate::cpu::cpu::{power_on, Cpu, CpuState};
use crate::cpu::memory::{cartridge_state, MemState, Memory};
use crate::graphic::EmulatorInput;
use crate::joypad::{InputState, Joypad, Player};
use crate::ppu::{initial_ppu, Ppu, PpuView};
use crate::rom::{INesFile, RomError};

verus! {

pub struct Nes {
    pub cpu: Cpu,
    pub ppu: Ppu,
    pub is_debug: bool,
    pub is_pause: bool,
    pub should_run: bool,
}

/// Program counter read from the reset vector at $FFFC/$FFFD.
pub open spec fn reset_vector(m: MemState) -> u16 {
    (m.ram[0xFFFD] * 256 + m.ram[0xFFFC]) as u16
}

/// One tick: a CPU instruction, then three PPU cycles for each CPU cycle;
/// the CPU state, the PPU state and the CPU cycles taken, or `None` where
/// either part cannot be carried out.
pub open spec fn spec_nes_tick(cpu: CpuState, ppu: PpuView, is_debug: bool) -> Option<(CpuState, PpuView, u8)> {
    match cpu.spec_step() {
        Some((c1, cycles)) => match (PpuView { debug: is_debug, ..ppu }).spec_run(c1.mem.ppu, (3 * cycles) as nat) {
            Some((p2, m2)) => Some((CpuState { mem: MemState { ppu: m2, ..c1.mem }, ..c1 }, p2, cycles)),
            None => None,
        },
        None => None,
    }
}

/// The sound side of `n` CPU cycles numbered from `first`: each clocks the
/// channels and the sample timer; the result is the channels, the timer,
/// and the levels of each sample that fell due, in order.
pub open spec fn sound_run(a: ApuMemory, t: SampleTimer, first: int, n: nat) -> (ApuMemory, SampleTimer, Seq<(u8, u8, u8)>)
    decreases n,
{
    if n == 0 {
        (a, t, Seq::empty())
    } else {
        let (a1, t1, l1) = sound_run(a, t, first, (n - 1) as nat);
        let a2 = a1.after_clock((first + n - 1) as u64);
        (a2, t1.after_tick(), if t1.sample_timer == 0 { l1.push(a2.spec_levels()) } else { l1 })
    }
}

/// A frame of `n` ticks: while the cycle budget is positive, a tick (see
/// [`spec_nes_tick`]) followed by the sound for its CPU cycles, the cycles
/// being taken off the budget. The result is the CPU, the PPU, the sample
/// timer, the cycle count and the sample levels, or `None` where a tick
/// cannot be carried out, the cycle count would overflow, or the frame does
/// not end after exactly `n` ticks.
#[verifier::opaque]
pub open spec fn frame_run(
    cpu: CpuState,
    ppu: PpuView,
    t: SampleTimer,
    cycle: u64,
    is_debug: bool,
    budget: int,
    n: nat,
) -> Option<(CpuState, PpuView, SampleTimer, u64, Seq<(u8, u8, u8)>)>
    decreases n,
{
    if budget <= 0 {
        if n == 0 { Some((cpu, ppu, t, cycle, Seq::empty())) } else { None }
    } else if n == 0 {
        None
    } else {
        match spec_nes_tick(cpu, ppu, is_debug) {
            Some((c1, p1, cy)) => if cycle + cy > u64::MAX {
                None
            } else {
                let (a2, t2, l) = sound_run(c1.mem.apu, t, cycle + 1, cy as nat);
                let c2 = CpuState { mem: MemState { apu: a2, ..c1.mem }, ..c1 };
                match frame_run(c2, p1, t2, (cycle + cy) as u64, is_debug, budget - cy, (n - 1) as nat) {
                    Some((c, p, tt, cc, l2)) => Some((c, p, tt, cc, l + l2)),
                    None => None,
                }
            },
            None => None,
        }
    }
}

/// The frame that starts from these states, when some number of ticks
/// ends it.
pub open spec fn frame_result(
    cpu: CpuState,
    ppu: PpuView,
    t: SampleTimer,
    cycle: u64,
    is_debug: bool,
    budget: int,
) -> Option<(CpuState, PpuView, SampleTimer, u64, Seq<(u8, u8, u8)>)> {
    frame_run(cpu, ppu, t, cycle, is_debug, budget, choose|n: nat| frame_run(cpu, ppu, t, cycle, is_debug, budget, n) is Some)
}

/// Clocks the sound channels for `n` CPU cycles numbered from `*cycle + 1`,
/// appending the levels of each sample that falls due.
fn clock_sound(apu: &mut ApuMemory, timer: &mut SampleTimer, cycle: &mut u64, n: u64, levels: &mut Vec<(u8, u8, u8)>)
    requires
        old(apu).wf(),
        old(timer).wf(),
        *old(cycle) + n <= u64::MAX,
    ensures
        final(apu).wf(),
        final(timer).wf(),
        *final(cycle) == *old(cycle) + n,
        ({
            let (a, t, l) = sound_run(*old(apu), *old(timer), *old(cycle) + 1, n as nat);
            &&& *final(apu) == a
            &&& *final(timer) == t
            &&& final(levels)@ == old(levels)@ + l
        }),
{
    let mut i: u64 = 0;
    while i < n
        invariant
            i <= n,
            *old(cycle) + n <= u64::MAX,
            *cycle == *old(cycle) + i,
            apu.wf(),
            timer.wf(),
            ({
                let (a, t, l) = sound_run(*old(apu), *old(timer), *old(cycle) + 1, i as nat);
                &&& *apu == a
                &&& *timer == t
                &&& levels@ == old(levels)@ + l
            }),
        decreases n - i,
    {
        *cycle = *cycle + 1;
        match apu.step(*cycle, timer) {
            Some(l) => levels.push(l),
            None => {},
        }
        i = i + 1;
        proof {
            let (a, t, l) = sound_run(*old(apu), *old(timer), *old(cycle) + 1, (i - 1) as nat);
            assert(levels@ =~= old(levels)@ + sound_run(*old(apu), *old(timer), *old(cycle) + 1, i as nat).2);
        }
    }
}

/// One tick of a frame with a positive budget, unfolded.
proof fn lemma_frame_step(
    cpu: CpuState,
    ppu: PpuView,
    t: SampleTimer,
    cycle: u64,
    is_debug: bool,
    budget: int,
    k: nat,
)
    requires
        budget > 0,
        frame_run(cpu, ppu, t, cycle, is_debug, budget, k) is Some,
    ensures
        k > 0,
        spec_nes_tick(cpu, ppu, is_debug) is Some,
        ({
            let (c1, p1, cy) = spec_nes_tick(cpu, ppu, is_debug).unwrap();
            let (a2, t2, l) = sound_run(c1.mem.apu, t, cycle + 1, cy as nat);
            let c2 = CpuState { mem: MemState { apu: a2, ..c1.mem }, ..c1 };
            &&& cycle + cy <= u64::MAX
            &&& frame_run(c2, p1, t2, (cycle + cy) as u64, is_debug, budget - cy, (k - 1) as nat) is Some
            &&& ({
                let (c, p, tt, cc, l2) = frame_run(c2, p1, t2, (cycle + cy) as u64, is_debug, budget - cy, (k - 1) as nat).unwrap();
                frame_run(cpu, ppu, t, cycle, is_debug, budget, k) == Some((c, p, tt, cc, l + l2))
            })
        }),
{
    reveal(frame_run);
}

/// A frame whose budget is used up ends there.
proof fn lemma_frame_end(cpu: CpuState, ppu: PpuView, t: SampleTimer, cycle: u64, is_debug: bool, budget: int, k: nat)
    requires
        budget <= 0,
        frame_run(cpu, ppu, t, cycle, is_debug, budget, k) is Some,
    ensures
        frame_run(cpu, ppu, t, cycle, is_debug, budget, k) == Some((cpu, ppu, t, cycle, Seq::<(u8, u8, u8)>::empty())),
{
    reveal(frame_run);
}

impl Nes {
    pub open spec fn wf(&self) -> bool {
        self.cpu.wf() && self.ppu.wf()
    }

    /// A console with no cartridge: blank memory, nothing running.
    pub fn empty() -> (n: Nes)
        ensures
            n.wf(),
            n.cpu.memory@ == crate::cpu::memory::blank_state(),
            n.ppu@ == initial_ppu(),
            !n.is_debug && !n.is_pause && !n.should_run,
    {
        let cpu = Cpu::new(Vec::new());
        proof {
            assert(cpu.memory@.ram =~= crate::cpu::memory::blank_state().ram);
        }
        let ppu = Ppu::new();
        Nes { cpu, ppu, is_debug: false, is_pause: false, should_run: false }
    }

    /// A console running the cartridge `ines` from its reset vector.
    pub fn new(ines: INesFile) -> (r: Result<Nes, RomError>)
        requires
            ines.pages_consistent(),
        ensures
            r is Err <==> ines.spec_prg_pages() == 0,
            r matches Err(e) ==> e == (RomError::PageOutOfRange { page: 1, available: 0 }),
            r matches Ok(n) ==> {
                &&& n.wf()
                &&& n.cpu@ == (CpuState {
                    PC: reset_vector(cartridge_state(&ines)),
                    ..power_on(cartridge_state(&ines))
                })
                &&& n.ppu@ == initial_ppu()
                &&& !n.is_debug && !n.is_pause && n.should_run
            },
    {
        let mut memory = match Memory::new(&ines) {
            Ok(m) => m,
            Err(e) => return Err(e),
        };
        let lsb = memory.get(0xFFFC) as u16;
        let msb = memory.get(0xFFFD) as u16;
        proof {
            lemma_word(msb);
        }
        let start_pc = (msb << 8u16) + lsb;
        let mut cpu = Cpu {
            memory,
            PC: 0x8000,
            SP: 0xFD,
            A: 0,
            X: 0,
            Y: 0,
            C: 0,
            Z: 0,
            I: 0,
            D: 0,
            V: 0,
            N: 0,
            cycles: 0,
        };
        cpu.set_pc(start_pc);
        let ppu = Ppu::new();
        Ok(Nes { cpu, ppu, is_debug: false, is_pause: false, should_run: true })
    }

    pub fn width(&self) -> (r: usize)
        ensures
            r == 256,
    {
        256
    }

    pub fn height(&self) -> (r: usize)
        ensures
            r == 240,
    {
        240
    }

    pub fn cpu(&self) -> (r: &Cpu)
        ensures
            r == &self.cpu,
    {
        &self.cpu
    }

    pub fn memory(&mut self) -> (r: &Memory)
        ensures
            r == &old(self).cpu.memory,
            *final(self) == *old(self),
    {
        &self.cpu.memory
    }

    /// True once per frame, when the frame is complete.
    pub fn should_display(&mut self) -> (r: bool)
        ensures
            r == old(self).ppu.display_flag,
            final(self).ppu@ == (PpuView { display_flag: false, ..old(self).ppu@ }),
            final(self).cpu == old(self).cpu,
            final(self).is_debug == old(self).is_debug,
            final(self).is_pause == old(self).is_pause,
            final(self).should_run == old(self).should_run,
    {
        self.ppu.should_display()
    }

    /// Color of the pixel at `row`, `col` of the last frame.
    pub fn get_pixel(&self, row: usize, col: usize) -> (r: (u8, u8, u8))
        requires
            self.wf(),
            row < 240,
            col < 256,
        ensures
            r == self.ppu@.pixels[row * 256 + col],
    {
        let idx = row * 256 + col;
        self.ppu.pixels[idx]
    }

    /// Runs one CPU instruction and the PPU cycles that go with it; returns
    /// the CPU cycles taken.
    pub fn tick(&mut self, is_debug: bool) -> (r: Result<u64, &'static str>)
        requires
            old(self).wf(),
            spec_nes_tick(old(self).cpu@, old(self).ppu@, is_debug) is Some,
        ensures
            final(self).wf(),
            ({
                let (c, p, cycles) = spec_nes_tick(old(self).cpu@, old(self).ppu@, is_debug).unwrap();
                &&& r == Ok::<u64, &'static str>(cycles as u64)
                &&& final(self).cpu@ == c
                &&& final(self).ppu@ == p
            }),
            final(self).is_debug == old(self).is_debug,
            final(self).is_pause == old(self).is_pause,
            final(self).should_run == old(self).should_run,
    {
        let cpu_cycles = match self.cpu.next() {
            Ok(c) => c as u64,
            Err(e) => return Err(e),
        };
        match self.ppu.next(3 * cpu_cycles, &mut self.cpu.memory, is_debug) {
            Ok(()) => {},
            Err(e) => return Err(e),
        }
        Ok(cpu_cycles)
    }

    /// Runs ticks while the cycle budget is positive, clocking the sound
    /// channels for every CPU cycle (numbered on from `*cycle`); returns the
    /// levels of the samples that fell due, for the mixer.
    #[verifier::spinoff_prover]
    pub fn run_frame(
        &mut self,
        budget: i64,
        is_debug: bool,
        timer: &mut SampleTimer,
        cycle: &mut u64,
    ) -> (r: Result<Vec<(u8, u8, u8)>, &'static str>)
        requires
            old(self).wf(),
            old(timer).wf(),
            frame_result(old(self).cpu@, old(self).ppu@, *old(timer), *old(cycle), is_debug, budget as int) is Some,
        ensures
            final(self).wf(),
            final(timer).wf(),
            ({
                let (c, p, t, cc, l) = frame_result(
                    old(self).cpu@,
                    old(self).ppu@,
                    *old(timer),
                    *old(cycle),
                    is_debug,
                    budget as int,
                ).unwrap();
                &&& final(self).cpu@ == c
                &&& final(self).ppu@ == p
                &&& *final(timer) == t
                &&& *final(cycle) == cc
                &&& r matches Ok(v) && v@ == l
            }),
            final(self).is_debug == old(self).is_debug,
            final(self).is_pause == old(self).is_pause,
            final(self).should_run == old(self).should_run,
    {
        let ghost n = choose|n: nat| frame_run(self.cpu@, self.ppu@, *timer, *cycle, is_debug, budget as int, n) is Some;
        let ghost target = frame_run(self.cpu@, self.ppu@, *timer, *cycle, is_debug, budget as int, n).unwrap();
        let ghost mut k: nat = n;
        let mut levels: Vec<(u8, u8, u8)> = Vec::new();
        let mut remaining: i64 = budget;
        while remaining > 0
            invariant
                self.wf(),
                timer.wf(),
                self.is_debug == old(self).is_debug,
                self.is_pause == old(self).is_pause,
                self.should_run == old(self).should_run,
                frame_run(self.cpu@, self.ppu@, *timer, *cycle, is_debug, remaining as int, k) is Some,
                ({
                    let (c, p, t, cc, l) = frame_run(self.cpu@, self.ppu@, *timer, *cycle, is_debug, remaining as int, k).unwrap();
                    &&& c == target.0
                    &&& p == target.1
                    &&& t == target.2
                    &&& cc == target.3
                    &&& levels@ + l == target.4
                }),
            decreases k,
        {
            proof {
                lemma_frame_step(self.cpu@, self.ppu@, *timer, *cycle, is_debug, remaining as int, k);
            }
            let ghost before = (self.cpu@, self.ppu@, *timer, *cycle, levels@, k, remaining as int);
            let cycles = match self.tick(is_debug) {
                Ok(c) => c,
                Err(e) => return Err(e),
            };
            let ghost c1 = self.cpu@;
            clock_sound(&mut self.cpu.memory.apu_mem, timer, cycle, cycles, &mut levels);
            remaining = remaining - cycles as i64;
            proof {
                k = (k - 1) as nat;
                let (a2, t2, l) = sound_run(c1.mem.apu, before.2, before.3 + 1, cycles as nat);
                assert(self.cpu@ == CpuState { mem: MemState { apu: a2, ..c1.mem }, ..c1 });
                assert(levels@ == before.4 + l);
                let (c, p, tt, cc, l2) = frame_run(self.cpu@, self.ppu@, *timer, *cycle, is_debug, remaining as int, k).unwrap();
                assert(levels@ + l2 =~= before.4 + (l + l2));
            }
        }
        proof {
            lemma_frame_end(self.cpu@, self.ppu@, *timer, *cycle, is_debug, remaining as int, k);
            assert(levels@ =~= levels@ + Seq::<(u8, u8, u8)>::empty());
        }
        Ok(levels)
    }

    /// What front-end events act on.
    pub open spec fn controls(&self) -> Controls {
        Controls {
            should_run: self.should_run,
            is_pause: self.is_pause,
            is_debug: self.is_debug,
            joypad_p1: self.cpu.memory.joypad_p1,
            joypad_p2: self.cpu.memory.joypad_p2,
        }
    }

    /// Everything but the controls.
    pub open spec fn same_machine(&self, other: &Nes) -> bool {
        &&& self.ppu == other.ppu
        &&& self.cpu.memory.mem == other.cpu.memory.mem
        &&& self.cpu.memory.ppu_mem == other.cpu.memory.ppu_mem
        &&& self.cpu@ == (CpuState {
            mem: MemState {
                joypad_p1: self.cpu.memory.joypad_p1,
                joypad_p2: self.cpu.memory.joypad_p2,
                ..other.cpu@.mem
            },
            ..other.cpu@
        })
    }

    /// Applies a front-end event: QUIT stops, PAUSE and DEBUG toggle, an
    /// input presses or releases a joypad button. Saving is left to the
    /// caller, which owns the file system.
    pub fn handle_event(&mut self, event: EmulatorInput)
        ensures
            final(self).same_machine(old(self)),
            final(self).controls() == old(self).controls().after_event(event),
    {
        match event {
            EmulatorInput::QUIT => self.should_run = false,
            EmulatorInput::PAUSE => self.is_pause = !self.is_pause,
            EmulatorInput::DEBUG => self.is_debug = !self.is_debug,
            EmulatorInput::SAVE => {},
            EmulatorInput::INPUT(player, action, state) => {
                match (player, state) {
                    (Player::One, InputState::Pressed) => self.cpu.memory.joypad_p1.button_down(&action),
                    (Player::Two, InputState::Pressed) => self.cpu.memory.joypad_p2.button_down(&action),
                    (Player::One, InputState::Released) => self.cpu.memory.joypad_p1.button_up(&action),
                    (Player::Two, InputState::Released) => self.cpu.memory.joypad_p2.button_up(&action),
                }
            },
        }
    }

    /// Applies the events in order.
    pub fn handle_events(&mut self, events: Vec<EmulatorInput>)
        ensures
            final(self).same_machine(old(self)),
            final(self).controls() == old(self).controls().after_events(events@),
    {
        let mut i: usize = 0;
        while i < events.len()
            invariant
                i <= events@.len(),
                self.same_machine(old(self)),
                self.controls() == old(self).controls().after_events(events@.subrange(0, i as int)),
            decreases events@.len() - i,
        {
            let event = events[i];
            self.handle_event(event);
            proof {
                let sub = events@.subrange(0, i + 1);
                assert(sub.drop_last() =~= events@.subrange(0, i as int));
                assert(sub.last() == event);
            }
            i = i + 1;
        }
        proof {
            assert(events@.subrange(0, events@.len() as int) =~= events@);
        }
    }

    pub fn cpu_mut(&mut self) -> (r: &mut Cpu)
        ensures
            *r == old(self).cpu,
            final(self).cpu == *final(r),
            final(self).ppu == old(self).ppu,
            final(self).controls() == (Controls {
                joypad_p1: final(r).memory.joypad_p1,
                joypad_p2: final(r).memory.joypad_p2,
                ..old(self).controls()
            }),
    {
        &mut self.cpu
    }

    pub fn ppu_mut(&mut self) -> (r: &mut Ppu)
        ensures
            *r == old(self).ppu,
            final(self).ppu == *final(r),
            final(self).cpu == old(self).cpu,
            final(self).controls() == old(self).controls(),
    {
        &mut self.ppu
    }
}

/// The part of the console that front-end events act on.
pub struct Controls {
    pub should_run: bool,
    pub is_pause: bool,
    pub is_debug: bool,
    pub joypad_p1: Joypad,
    pub joypad_p2: Joypad,
}

impl Controls {
    pub open spec fn after_event(self, event: EmulatorInput) -> Controls {
        match event {
            EmulatorInput::QUIT => Controls { should_run: false, ..self },
            EmulatorInput::PAUSE => Controls { is_pause: !self.is_pause, ..self },
            EmulatorInput::DEBUG => Controls { is_debug: !self.is_debug, ..self },
            EmulatorInput::SAVE => self,
            EmulatorInput::INPUT(player, action, state) => {
                let v: u8 = if state == InputState::Pressed { 1 } else { 0 };
                if player == Player::One {
                    Controls { joypad_p1: self.joypad_p1.with_button(action, v), ..self }
                } else {
                    Controls { joypad_p2: self.joypad_p2.with_button(action, v), ..self }
                }
            },
        }
    }

    pub open spec fn after_events(self, events: Seq<EmulatorInput>) -> Controls
        decreases events.len(),
    {
        if events.len() == 0 {
            self
        } else {
            self.after_events(events.drop_last()).after_event(events.last())
        }
    }
}

/// Pausing twice, or switching debug twice, changes nothing.
pub proof fn lemma_toggle_twice(c: Controls)
    ensures
        c.after_event(EmulatorInput::PAUSE).after_event(EmulatorInput::PAUSE) == c,
        c.after_event(EmulatorInput::DEBUG).after_event(EmulatorInput::DEBUG) == c,
{
}

} // verus!
