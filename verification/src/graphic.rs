//! Colors, the events the front-ends send to the emulator, and the tiles
//! that the nametable viewer draws.
use vstd::prelude::*;
use crate::joypad::{InputAction, InputState, Player};
use crate::ppu::memory::{vram_slot, PpuMemory, RegisterType};
use crate::ppu::bg_pattern_table;

verus! {

/// Emulator-level action requested by the user.
#[derive(Debug, Clone, Copy)]
pub enum EmulatorInput {
    PAUSE,
    QUIT,
    DEBUG,
    SAVE,
    INPUT(Player, InputAction, InputState),
}

#[derive(Debug, Clone, Copy, PartialEq, Eq, Structural)]
pub struct Color {
    pub r: u8,
    pub g: u8,
    pub b: u8,
}

impl Color {
    pub fn rgb(r: u8, g: u8, b: u8) -> (c: Self)
        ensures
            c == (Color { r, g, b }),
    {
        Self { r, g, b }
    }

    pub fn from(rgb: (u8, u8, u8)) -> (c: Self)
        ensures
            c == (Color { r: rgb.0, g: rgb.1, b: rgb.2 }),
    {
        let (r, g, b) = rgb;
        Self { r, g, b }
    }
}

/// Colour index (0 to 3) of pixel `x` (0 is the leftmost) of a tile row:
/// bit `7 - x` of the low plane, plus twice that bit of the high plane.
pub open spec fn plane_pixel(low: u8, high: u8, x: int) -> u8 {
    ((low >> ((7 - x) as u8)) & 1) | (((high >> ((7 - x) as u8)) & 1) << 1u8)
}

/// One 8x8 tile of a pattern table: its low and high bit planes, one byte
/// per row.
pub struct Tile {
    pub plane1: [u8; 8],
    pub plane2: [u8; 8],
}

impl Tile {
    /// Whether the tile is the 16 bytes of `bytes` from `start`, low plane first.
    pub open spec fn read_from(self, bytes: Seq<u8>, start: int) -> bool {
        forall|i: int| 0 <= i < 8 ==> self.plane1[i] == bytes[start + i] && self.plane2[i] == bytes[start + 8 + i]
    }

    /// Tile `sprite_nb` of `pattern_table`.
    pub fn new(pattern_table: &[u8], sprite_nb: usize) -> (t: Tile)
        requires
            16 * sprite_nb + 16 <= pattern_table@.len(),
        ensures
            t.read_from(pattern_table@, 16 * sprite_nb),
    {
        let mut plane1 = [0u8; 8];
        let mut plane2 = [0u8; 8];
        let len = pattern_table.len();
        let mut i: usize = 0;
        while i < 8
            invariant
                i <= 8,
                len == pattern_table@.len(),
                16 * sprite_nb + 16 <= len,
                forall|j: int| 0 <= j < i ==> plane1[j] == pattern_table@[16 * sprite_nb + j]
                    && plane2[j] == pattern_table@[16 * sprite_nb + 8 + j],
            decreases 8 - i,
        {
            plane1[i] = pattern_table[16 * sprite_nb + i];
            plane2[i] = pattern_table[16 * sprite_nb + i + 8];
            i = i + 1;
        }
        Tile { plane1, plane2 }
    }

    /// Colour index of the pixel in column `x` of row `y`.
    pub fn pixel(&self, x: usize, y: usize) -> (v: u8)
        requires
            x < 8,
            y < 8,
        ensures
            v == plane_pixel(self.plane1[y as int], self.plane2[y as int], x as int),
            v <= 3,
    {
        let shift: u8 = 7 - x as u8;
        let low = self.plane1[y];
        let high = self.plane2[y];
        proof {
            crate::bits::lemma_bit_pair8(low, high, shift);
        }
        ((low >> shift) & 1) | (((high >> shift) & 1) << 1u8)
    }
}

/// Palette (0 to 3) that attribute byte `attr` gives the tile at `row`,
/// `col` of a nametable: each 2x2-tile quadrant of a 4x4-tile block takes
/// two bits, top-left in bits 0-1, top-right 2-3, bottom-left 4-5,
/// bottom-right 6-7.
pub open spec fn attribute_palette(attr: u8, row: int, col: int) -> u8 {
    (attr >> ((4 * ((row % 4) / 2) + 2 * ((col % 4) / 2)) as u8)) & 3
}

/// See [`attribute_palette`].
pub fn tile_palette(attr: u8, row: usize, col: usize) -> (p: u8)
    ensures
        p == attribute_palette(attr, row as int, col as int),
        p <= 3,
{
    let box_row = (row % 4) / 2;
    let box_col = (col % 4) / 2;
    proof {
        assert(attr & 0b11 == (attr >> 0u8) & 3 && attr & 0b11 <= 3) by (bit_vector);
        assert((attr & 0b1100) >> 2u8 == (attr >> 2u8) & 3 && (attr >> 2u8) & 3 <= 3) by (bit_vector);
        assert((attr & 0b11_0000) >> 4u8 == (attr >> 4u8) & 3 && (attr >> 4u8) & 3 <= 3) by (bit_vector);
        assert((attr & 0b1100_0000) >> 6u8 == (attr >> 6u8) & 3 && (attr >> 6u8) & 3 <= 3) by (bit_vector);
    }
    if box_row == 0 && box_col == 0 {
        attr & 0b11
    } else if box_row == 0 {
        (attr & 0b1100) >> 2u8
    } else if box_col == 0 {
        (attr & 0b11_0000) >> 4u8
    } else {
        (attr & 0b1100_0000) >> 6u8
    }
}

/// What the nametable viewer shows at tile `row`, `col` of logical
/// nametable `table_nb`: the tile that the nametable names, taken from the
/// background pattern table (PPUCTRL bit 4), and the palette that the
/// nametable's attribute table gives it.
pub fn nametable_tile(ppu_mem: &PpuMemory, table_nb: u8, row: usize, col: usize) -> (r: (Tile, u8))
    requires
        ppu_mem.wf(),
        table_nb < 4,
        row < 30,
        col < 32,
    ensures
        ({
            let m = ppu_mem@;
            let base = vram_slot(m.mirroring, 0x2000 + 0x400 * table_nb);
            let tile_nb = m.ppu_mem[base + 32 * row + col];
            &&& r.0.read_from(m.ppu_mem, bg_pattern_table(m.ppuctrl) + 16 * tile_nb)
            &&& r.1 == attribute_palette(m.ppu_mem[base + 0x3C0 + 8 * (row / 4) + col / 4], row as int, col as int)
        }),
{
    let ctrl = ppu_mem.peek(RegisterType::PPUCTRL);
    proof {
        crate::bits::lemma_byte(ctrl);
    }
    let pattern_table_addr: usize = 0x1000 * ((ctrl >> 4u8) & 1) as usize;
    let pattern_table = &ppu_mem.ppu_mem.as_slice()[pattern_table_addr..pattern_table_addr + 0x1000];
    let nametable = ppu_mem.get_logical_table(table_nb);
    let tile = Tile::new(pattern_table, nametable[32 * row + col] as usize);
    let attr_byte = nametable[0x3c0 + 8 * (row / 4) + col / 4];
    (tile, tile_palette(attr_byte, row, col))
}

} // verus!
