//! PPU: registers, scrolling, bit reversal and frame timing.
use nesemu::cpu::memory::Memory;
use nesemu::ppu::memory::{PpuMemory, RegisterType};
use nesemu::graphic::{nametable_tile, tile_palette, Tile};
use nesemu::ppu::palette::{build_default_colors, get_sprite_palette};
use nesemu::ppu::{reverse_bit, Ppu};

#[test]
fn reverse_byte_test() {
    assert_eq!(0b00010000, reverse_bit(0b00001000));
    assert_eq!(0b11010000, reverse_bit(0b00001011));
}

#[test]
fn mod_reverse_byte_test() {
    assert_eq!(0b00010000, reverse_bit(0b00001000));
    assert_eq!(0b11010000, reverse_bit(0b00001011));
}

#[test]
fn reverse_bit_edges() {
    assert_eq!(0, reverse_bit(0));
    assert_eq!(0xFF, reverse_bit(0xFF));
    assert_eq!(0x01, reverse_bit(0x80));
    for b in 0..=255u8 {
        assert_eq!(b, reverse_bit(reverse_bit(b)));
    }
}

#[test]
fn test_set_vram_addr() {
    let mut memory = PpuMemory::empty();
    memory.write(RegisterType::PPUADDR, 0x20);
    memory.write(RegisterType::PPUADDR, 0x09);

    assert_eq!(0x2009, memory.v);
}

// Coarse X counts tiles in `v`; four increments move four tiles.
#[test]
fn increase_x_test() {
    let ppu = Ppu::new();
    let mut memory: Memory = Default::default();
    for _ in 0..4 {
        ppu.coarse_x_increment(&mut memory);
    }
    assert_eq!(4, memory.ppu_mem.v & 0x1F);
}

// Fine y (bits 12-14 of `v`) counts rows inside a tile, coarse Y (bits 5-9)
// counts tiles.
#[test]
fn increase_y_test() {
    let ppu = Ppu::new();
    let mut memory: Memory = Default::default();
    let coarse_y = |m: &Memory| (m.ppu_mem.v >> 5) & 0x1F;
    let fine_y = |m: &Memory| (m.ppu_mem.v >> 12) & 0x7;
    ppu.y_increment(&mut memory);
    assert_eq!(0, coarse_y(&memory));
    assert_eq!(1, fine_y(&memory));
    ppu.y_increment(&mut memory);
    ppu.y_increment(&mut memory);
    ppu.y_increment(&mut memory);
    ppu.y_increment(&mut memory);
    ppu.y_increment(&mut memory);
    ppu.y_increment(&mut memory);
    assert_eq!(0, coarse_y(&memory));
    assert_eq!(7, fine_y(&memory));
    ppu.y_increment(&mut memory);
    assert_eq!(1, coarse_y(&memory));
    assert_eq!(0, fine_y(&memory));
}

#[test]
fn coarse_x_wraps_and_switches_nametable() {
    let ppu = Ppu::new();
    let mut memory: Memory = Default::default();
    memory.ppu_mem.v = 0x001F;
    ppu.coarse_x_increment(&mut memory);
    assert_eq!(0x0400, memory.ppu_mem.v);
}

#[test]
fn coarse_y_29_wraps_and_switches_nametable() {
    let ppu = Ppu::new();
    let mut memory: Memory = Default::default();
    memory.ppu_mem.v = 0x7000 | (29 << 5) | 0x3;
    ppu.y_increment(&mut memory);
    assert_eq!(0x0800 | 0x3, memory.ppu_mem.v);
    memory.ppu_mem.v = 0x7000 | (31 << 5);
    ppu.y_increment(&mut memory);
    assert_eq!(0, memory.ppu_mem.v);
}

#[test]
fn vblank_starts_at_line_241_and_ends_at_line_261() {
    let mut ppu = Ppu::new();
    let mut memory: Memory = Default::default();
    memory.set(0x2000, 0x80);
    // From line 0, cycle 0 to line 241, cycle 1.
    ppu.next(241 * 341 + 1, &mut memory, false).unwrap();
    assert_eq!(241, ppu.line);
    assert_eq!(1, ppu.cycle);
    assert_eq!(0x80, memory.ppu_mem.peek(RegisterType::PPUSTATUS) & 0x80);
    assert!(memory.nmi());
    assert!(ppu.should_display());
    assert!(!ppu.should_display());
    // Up to line 261, cycle 1.
    ppu.next(20 * 341, &mut memory, false).unwrap();
    assert_eq!(261, ppu.line);
    assert_eq!(0, memory.ppu_mem.peek(RegisterType::PPUSTATUS) & 0xC0);
    assert!(!memory.nmi());
}

#[test]
fn palette_writes_are_mirrored() {
    let mut memory = PpuMemory::empty();
    memory.write(RegisterType::PPUADDR, 0x3F);
    memory.write(RegisterType::PPUADDR, 0x10);
    memory.write(RegisterType::PPUDATA, 0x21);
    assert_eq!(0x21, memory.read_vram_at(0x3F00));
    assert_eq!(0x21, memory.read_vram_at(0x3F30));
}

#[test]
fn ppudata_reads_are_buffered() {
    let mut memory = PpuMemory::empty();
    memory.write_vram_at(0x2000, 0x11);
    memory.write_vram_at(0x2001, 0x22);
    memory.write(RegisterType::PPUADDR, 0x20);
    memory.write(RegisterType::PPUADDR, 0x00);
    assert_eq!(0, memory.read(RegisterType::PPUDATA));
    assert_eq!(0x11, memory.read(RegisterType::PPUDATA));
    assert_eq!(0x22, memory.read(RegisterType::PPUDATA));
}

const HALF_TILE: [u8; 16] = [
    0x41, 0xC2, 0x44, 0x48, 0x10, 0x20, 0x40, 0x80, 0x01, 0x02, 0x04, 0x08, 0x16, 0x21, 0x42, 0x87,
];

#[test]
fn tile_pixels_combine_both_planes() {
    let mut table = vec![0u8; 32];
    table[16..32].copy_from_slice(&HALF_TILE);
    let tile = Tile::new(&table, 1);
    assert_eq!(HALF_TILE[0..8], tile.plane1);
    assert_eq!(HALF_TILE[8..16], tile.plane2);
    assert_eq!(0, tile.pixel(0, 0));
    assert_eq!(1, tile.pixel(1, 0));
    assert_eq!(3, tile.pixel(7, 0));
    assert_eq!(1, tile.pixel(0, 1));
    assert_eq!(3, tile.pixel(6, 1));
    assert_eq!(2, tile.pixel(5, 7));
    assert_eq!(3, tile.pixel(0, 7));
}

#[test]
fn attribute_quadrants() {
    let attr = 0b11_10_01_00;
    assert_eq!(0, tile_palette(attr, 0, 0));
    assert_eq!(1, tile_palette(attr, 0, 2));
    assert_eq!(2, tile_palette(attr, 2, 0));
    assert_eq!(3, tile_palette(attr, 2, 2));
    assert_eq!(1, tile_palette(attr, 5, 7));
    assert_eq!(3, tile_palette(attr, 27, 30));
}

#[test]
fn nametable_viewer_reads_tiles_and_attributes() {
    let mut ppu_mem = PpuMemory::empty();
    ppu_mem.ppuctrl = 0b1_0000;
    ppu_mem.ppu_mem[0x2000 + 32 + 2] = 3;
    ppu_mem.ppu_mem[0x1000 + 3 * 16..0x1000 + 4 * 16].copy_from_slice(&HALF_TILE);
    ppu_mem.ppu_mem[0x23C0] = 0b0000_0100;
    let (tile, palette) = nametable_tile(&ppu_mem, 0, 1, 2);
    assert_eq!(HALF_TILE[0..8], tile.plane1);
    assert_eq!(HALF_TILE[8..16], tile.plane2);
    assert_eq!(1, palette);
    // Horizontal mirroring: logical table 1 is table 0.
    let (_, palette) = nametable_tile(&ppu_mem, 1, 1, 2);
    assert_eq!(1, palette);
    // Tile 0 of the left pattern table is blank.
    ppu_mem.ppuctrl = 0;
    let (tile, _) = nametable_tile(&ppu_mem, 0, 0, 0);
    assert_eq!([0u8; 8], tile.plane1);
}

#[test]
fn sprite_palette_reads_only_its_entries() {
    let colors = build_default_colors();
    let mut palette_ram = vec![0u8; 0x14];
    palette_ram[0] = 0x0F;
    palette_ram[0x11] = 0x01;
    palette_ram[0x12] = 0x02;
    palette_ram[0x13] = 0x30;
    let p = get_sprite_palette(0, &palette_ram, &colors);
    assert!(p.background == colors[0x0F]);
    assert!(p.color1 == colors[0x01]);
    assert!(p.color2 == colors[0x02]);
    assert!(p.color3 == colors[0x30]);
}
