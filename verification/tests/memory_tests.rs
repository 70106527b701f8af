//! CPU address space, addressing modes and the console.
use nesemu::cpu::addressing::{
    AbsoluteAddressing, AccumulatorAddressing, ImmediateAddressing, ImpliedAddressing, MySavior, IndexedAbsoluteAddressing, IndexedZeroPageAddressing,
    IndirectAddressing, PostIndexedIndirectAddressing, PreIndexedIndirectAddressing, ZeroPageAddressing,
};
use nesemu::apu::SampleTimer;
use nesemu::cpu::memory::Memory;
use nesemu::graphic::EmulatorInput;
use nesemu::joypad::{InputAction, InputState, Joypad, Player};
use nesemu::nes::Nes;
use nesemu::ppu::memory::RegisterType;
use nesemu::rom::{self, RomError};

// If vblank occured flag is 1, reading ppustatus will set it to 0.
#[test]
fn test_readppustatus_flag_vblank_to_off() {
    let mut memory: Memory = Default::default();
    memory.ppu_mem.update(RegisterType::PPUSTATUS, 0x90);

    assert_eq!(0x90, memory.get(0x2002));
    assert_eq!(0x10, memory.ppu_mem.peek(RegisterType::PPUSTATUS));
}

#[test]
fn test_set_nmi_status_then_ctrl() {
    let mut memory: Memory = Default::default();
    assert_eq!(false, memory.nmi());
    memory.ppu_mem.update(RegisterType::PPUSTATUS, 0x80);
    assert_eq!(false, memory.nmi());
    memory.set(0x2000, 0x90);
    assert_eq!(true, memory.nmi());
}

#[test]
fn test_set_nmi_ctrl_then_status() {
    let mut memory: Memory = Default::default();
    assert_eq!(false, memory.nmi());
    memory.set(0x2000, 0x90);
    assert_eq!(false, memory.nmi());
    memory.ppu_mem.update(RegisterType::PPUSTATUS, 0x80);
    assert_eq!(true, memory.nmi());
}

#[test]
fn test_immediate() {
    let mut memory: Memory = Default::default();
    let addressing = ImmediateAddressing::new(8);
    assert_eq!(8, addressing.fetch(&mut memory));
}

#[test]
fn test_zero_page() {
    let mut memory: Memory = Default::default();
    memory.set(0x02, 3);
    let addressing = ZeroPageAddressing::new(0x02);
    assert_eq!(3, addressing.fetch(&mut memory));
}

#[test]
fn test_indexed_zero_page_no_wrapping() {
    let mut memory: Memory = Default::default();
    memory.set(0x02, 3);
    let addressing = IndexedZeroPageAddressing::new(0x01, 0x01);
    assert_eq!(3, addressing.fetch(&mut memory));
}

#[test]
fn test_indexed_zero_page_with_wrapping() {
    let mut memory: Memory = Default::default();
    memory.set(0x02, 3);
    let addressing = IndexedZeroPageAddressing::new(0xFF, 0x03);
    assert_eq!(3, addressing.fetch(&mut memory));
}

#[test]
fn ram_is_mirrored_every_2kb() {
    let mut memory: Memory = Default::default();
    memory.set(0x0801, 0x5A);
    assert_eq!(0x5A, memory.get(0x0001));
    assert_eq!(0x5A, memory.get(0x1801));
    assert_eq!(0x5A, memory.peek(0x1001));
}

#[test]
fn ppu_registers_repeat_every_8_bytes() {
    let mut memory: Memory = Default::default();
    memory.set(0x3FF8, 0x80);
    assert_eq!(0x80, memory.ppu_mem.peek(RegisterType::PPUCTRL));
    memory.ppu_mem.update(RegisterType::PPUSTATUS, 0xC0);
    assert_eq!(0xC0, memory.get(0x200A));
    assert_eq!(0x40, memory.ppu_mem.peek(RegisterType::PPUSTATUS));
}

#[test]
fn ppuaddr_and_ppudata_through_cpu_addresses() {
    let mut memory: Memory = Default::default();
    memory.set(0x2006, 0x21);
    memory.set(0x2006, 0x08);
    memory.set(0x2007, 0x77);
    assert_eq!(0x77, memory.ppu_mem.read_vram_at(0x2108));
    assert_eq!(0x2109, memory.ppu_mem.v);
}

#[test]
fn oam_dma_copies_a_cpu_page() {
    let mut memory: Memory = Default::default();
    for i in 0..256usize {
        memory.set(0x0200 + i, i as u8);
    }
    memory.set(0x4014, 0x02);
    assert_eq!(0, memory.ppu_mem.oam[0]);
    assert_eq!(0x7F, memory.ppu_mem.oam[0x7F]);
    assert_eq!(0xFF, memory.ppu_mem.oam[0xFF]);
    assert_eq!(0, memory.get(0x4014));
}

#[test]
fn joypad_reads_after_strobe() {
    let mut memory: Memory = Default::default();
    memory.joypad_p1.button_down(&InputAction::B);
    memory.joypad_p2.button_down(&InputAction::A);
    memory.set(0x4016, 1);
    memory.set(0x4016, 0);
    assert_eq!(0, memory.get(0x4016));
    assert_eq!(1, memory.get(0x4016));
    assert_eq!(1, memory.get(0x4017));
    for _ in 0..6 {
        assert_eq!(0, memory.get(0x4016));
    }
    assert_eq!(1, memory.get(0x4016));
}

#[test]
fn absolute_and_indexed_absolute_addresses() {
    let mut memory: Memory = Default::default();
    let abs = AbsoluteAddressing::new(0x34, 0x12);
    assert_eq!(0x1234, abs.address(&mut memory));
    let idx = IndexedAbsoluteAddressing::new(0xFF, 0x12, 0x01);
    assert_eq!(0x1300, idx.address(&mut memory));
    assert_eq!(1, idx.extra_cycles());
    let wrap = IndexedAbsoluteAddressing::new(0xFF, 0xFF, 0x02);
    assert_eq!(0x0001, wrap.address(&mut memory));
}

#[test]
fn indirect_modes_read_pointers() {
    let mut memory: Memory = Default::default();
    // (zp,X): pointer at $10 + 4 = $14.
    memory.set(0x14, 0x00);
    memory.set(0x15, 0x03);
    memory.set(0x0300, 0x99);
    let pre = PreIndexedIndirectAddressing::new(0x10, 0x04);
    assert_eq!(0x0300, pre.address(&mut memory));
    assert_eq!(0x99, pre.fetch(&mut memory));
    // (zp),Y: pointer at $14, plus 2.
    let post = PostIndexedIndirectAddressing::new(0x14, 0x02);
    memory.set(0x0302, 0x42);
    assert_eq!(0x0302, post.address(&mut memory));
    assert_eq!(0x42, post.fetch(&mut memory));
}

#[test]
fn indirect_jump_wraps_within_the_page() {
    let mut memory: Memory = Default::default();
    memory.set(0x02FF, 0x34);
    memory.set(0x0200, 0x12);
    memory.set(0x0300, 0x56);
    let ind = IndirectAddressing::new(0xFF, 0x02);
    assert_eq!(0x1234, ind.fetch16(&mut memory));
}

/// A 16 KB NROM image whose reset vector points to $8000.
fn nrom_image(prg_pages: u8) -> Vec<u8> {
    let mut bytes = vec![0x4E, 0x45, 0x53, 0x1A, prg_pages, 1, 0, 0, 0, 0, 0, 0, 0, 0, 0, 0];
    let prg_len = prg_pages as usize * 16384;
    let mut prg = vec![0xEAu8; prg_len];
    if prg_len > 0 {
        prg[prg_len - 4] = 0x00;
        prg[prg_len - 3] = 0x80;
    }
    bytes.extend_from_slice(&prg);
    bytes.extend_from_slice(&vec![0u8; 8192]);
    bytes
}

#[test]
fn memory_maps_a_single_page_twice() {
    let ines = rom::read(&nrom_image(1)).unwrap();
    let mut memory = Memory::new(&ines).unwrap();
    assert_eq!(0xEA, memory.get(0x8000));
    assert_eq!(0xEA, memory.get(0xC000));
    assert_eq!(0x80, memory.get(0xFFFD));
}

#[test]
fn memory_needs_a_prg_page() {
    let ines = rom::read(&nrom_image(0)).unwrap();
    match Memory::new(&ines) {
        Err(e) => assert_eq!(RomError::PageOutOfRange { page: 1, available: 0 }, e),
        Ok(_) => panic!("a cartridge without PRG pages was accepted"),
    }
}

#[test]
fn nes_starts_at_the_reset_vector_and_ticks() {
    let ines = rom::read(&nrom_image(1)).unwrap();
    let mut nes = Nes::new(ines).unwrap();
    assert_eq!(0x8000, nes.cpu().get_pc());
    assert!(nes.should_run);
    // NOP takes two cycles; the PPU runs three cycles for each.
    assert_eq!(2, nes.tick(false).unwrap());
    assert_eq!(0x8001, nes.cpu().get_pc());
    assert_eq!(6, nes.ppu.cycle);
    assert_eq!(2, nes.cpu.cycles);
    assert_eq!(256, nes.width());
    assert_eq!(240, nes.height());
    assert_eq!((0, 0, 0), nes.get_pixel(0, 0));
}

#[test]
fn nes_events_toggle_flags_and_buttons() {
    let mut nes = Nes::empty();
    nes.handle_events(vec![EmulatorInput::PAUSE, EmulatorInput::DEBUG, EmulatorInput::PAUSE]);
    assert!(!nes.is_pause);
    assert!(nes.is_debug);
    nes.handle_event(EmulatorInput::INPUT(Player::Two, InputAction::START, InputState::Pressed));
    assert_eq!(1, nes.cpu.memory.joypad_p2.start);
    nes.handle_event(EmulatorInput::INPUT(Player::Two, InputAction::START, InputState::Released));
    assert_eq!(0, nes.cpu.memory.joypad_p2.start);
    nes.handle_event(EmulatorInput::QUIT);
    assert!(!nes.should_run);
}

#[test]
fn addressing_modes_describe_themselves() {
    assert_eq!("Implied Addressing", MySavior::Implied(ImpliedAddressing {}).debug_fmt());
    assert_eq!(
        "Immediate Addressing -> 200",
        MySavior::Immediate(ImmediateAddressing { value: 200 }).debug_fmt()
    );
    assert_eq!(
        "Absolute adressing at: 0x1f20",
        MySavior::Absolute(AbsoluteAddressing { address: 0x1F20 }).debug_fmt()
    );
    assert_eq!(
        "Indexed Zero-page adressing at: 0x7 + 0xff",
        MySavior::IndexedZeroPage(IndexedZeroPageAddressing { address: 7, offset: 0xFF }).debug_fmt()
    );
    assert_eq!(
        "Post-index Indirect adressing at: 0x0+0x10",
        MySavior::PostIndexedIndirect(PostIndexedIndirectAddressing { address: 0, offset: 16 }).debug_fmt()
    );
    assert_eq!(
        "Accumulator Addressing -> 0",
        MySavior::Accumulator(AccumulatorAddressing { accumulator: 0 }).debug_fmt()
    );
}

#[test]
fn joypad_reports_bits() {
    let mut j = Joypad::new();
    j.button_down(&InputAction::START);
    j.button_down(&InputAction::A);
    j.button_up(&InputAction::A);
    j.write(1);
    j.write(0);
    let bits: Vec<u8> = (0..10).map(|_| j.read()).collect();
    assert_eq!(vec![0, 0, 0, 1, 0, 0, 0, 0, 1, 1], bits);
}

#[test]
fn a_frame_runs_until_its_budget_is_spent() {
    let ines = rom::read(&nrom_image(1)).unwrap();
    let mut nes = Nes::new(ines).unwrap();
    let mut timer = SampleTimer::new();
    let mut cycle: u64 = 0;
    // Eleven NOPs of two cycles each spend a budget of 21.
    let levels = nes.run_frame(21, false, &mut timer, &mut cycle).unwrap();
    assert_eq!(22, cycle);
    assert_eq!(0x800B, nes.cpu().get_pc());
    assert_eq!(22, nes.cpu.cycles);
    assert_eq!(66, nes.ppu.cycle);
    assert!(levels.is_empty());
    // A sample falls due every 40 or 41 cycles, all silent here.
    let levels = nes.run_frame(100, false, &mut timer, &mut cycle).unwrap();
    assert_eq!(122, cycle);
    assert_eq!(vec![(0, 0, 0), (0, 0, 0), (0, 0, 0)], levels);
    // A spent budget runs nothing.
    assert!(nes.run_frame(0, false, &mut timer, &mut cycle).unwrap().is_empty());
    assert_eq!(122, cycle);
}
