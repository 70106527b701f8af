//! Picture processing unit. The PPU runs 341 cycles per line and 262 lines
//! per frame; lines 0-239 are drawn, line 241 starts the vertical blank and
//! line 261 prepares the next frame. Each cycle it fetches background tiles
//! into shift registers, evaluates the sprites of the next line, and outputs
//! one pixel.
use vstd::prelude::*;
use crate::bits::{lemma_bit_pair16, lemma_bit_pair8, lemma_byte, lemma_index, lemma_word};
use crate::bytes::zeros;
use crate::cpu::memory::{MemState, Memory};
use crate::graphic::Color;
use crate::ppu::memory::{PpuState, RegisterType};
use crate::ppu::palette::{build_default_colors, default_colors, get_bg_palette, get_color_index_sprite};

pub mod memory;
pub mod palette;
pub mod register;

verus! {

/// Mirror image of a byte: bit `i` goes to bit `7 - i`.
pub open spec fn spec_reverse_bit(b: u8) -> u8 {
    ((b & 1) << 7u8) | ((b & 2) << 5u8) | ((b & 4) << 3u8) | ((b & 8) << 1u8)
        | ((b & 16) >> 1u8) | ((b & 32) >> 3u8) | ((b & 64) >> 5u8) | ((b & 128) >> 7u8)
}

/// Steps of the bit-reversal loop: after `k` bits, the output holds the
/// top `k` bits of the mirror image and the input the bits not yet moved.
proof fn lemma_reverse_step(b: u8, k: u8)
    by (bit_vector)
    ensures
        b >> 0u8 == b,
        spec_reverse_bit(b) >> 8u8 == 0,
        b == 0 ==> spec_reverse_bit(b) == 0,
        b >> k != 0 ==> k < 8,
        k < 8 ==> ((spec_reverse_bit(b) >> ((8 - k) as u8)) << 1u8) | ((b >> k) & 1)
            == spec_reverse_bit(b) >> ((7 - k) as u8),
        k < 8 ==> (b >> k) >> 1u8 == b >> ((k + 1) as u8),
        b >> k != 0 ==> (b >> k) >> 1u8 < b >> k,
        k <= 8 && b >> k == 0 ==> (spec_reverse_bit(b) >> ((8 - k) as u8)) << ((8 - k) as u8)
            == spec_reverse_bit(b),
        spec_reverse_bit(spec_reverse_bit(b)) == b,
{
}

/// Mirror image of a byte, used to flip sprites horizontally.
pub fn reverse_bit(in_byte: u8) -> (r: u8)
    ensures
        r == spec_reverse_bit(in_byte),
{
    let b = in_byte;
    let mut in_byte = in_byte;
    let mut out_byte: u8 = 0;
    let mut rest: u8 = 8;
    proof {
        lemma_reverse_step(b, 0);
    }
    while in_byte != 0
        invariant
            rest <= 8,
            in_byte == b >> ((8 - rest) as u8),
            out_byte == spec_reverse_bit(b) >> rest,
        decreases in_byte,
    {
        let k = (8 - rest) as u8;
        proof {
            lemma_reverse_step(b, k);
        }
        out_byte = out_byte << 1u8;
        out_byte = out_byte | (in_byte & 1);
        in_byte = in_byte >> 1u8;
        rest = rest - 1;
    }
    let k = (8 - rest) as u8;
    proof {
        lemma_reverse_step(b, k);
    }
    if rest == 8 {
        // Nothing was shifted in: all eight bits are shifted out.
        0
    } else {
        out_byte << rest
    }
}

/// Flipping twice gives the byte back.
pub proof fn lemma_reverse_bit_involution(b: u8)
    ensures
        spec_reverse_bit(spec_reverse_bit(b)) == b,
{
    lemma_reverse_step(b, 0);
}

/// Sprites are 8x16 when PPUCTRL bit 5 is set.
pub open spec fn spec_is_16x8_sprites(ppu_ctrl: u8) -> bool {
    (ppu_ctrl >> 5u8) & 1 == 1
}

fn is_16x8_sprites(ppu_ctrl: u8) -> (r: bool)
    ensures
        r == spec_is_16x8_sprites(ppu_ctrl),
{
    (ppu_ctrl >> 5u8) & 1 == 1
}

/// Address of row `fine_y` of tile `tile_nb` in the pattern table at
/// `pattern_table` (16 bytes per tile: 8 low-plane rows, then 8 high-plane).
pub open spec fn spec_tile_low_addr(pattern_table: int, tile_nb: int, fine_y: int) -> int {
    pattern_table + 16 * tile_nb + fine_y
}

/// `v` with coarse X incremented; past 31 it wraps to 0 and switches the
/// horizontal nametable.
pub open spec fn spec_coarse_x_increment(v: u16) -> u16 {
    if v & 0x1F == 31 { (v & !0x1Fu16) ^ 0x400 } else { (v + 1) as u16 }
}

/// `v` moved to the next pixel row: fine Y increments; past 7 it wraps and
/// coarse Y increments; coarse Y 29 wraps to 0 and switches the vertical
/// nametable, 31 wraps to 0 without switching.
pub open spec fn spec_y_increment(v: u16) -> u16 {
    if v & 0x7000 != 0x7000 {
        (v + 0x1000) as u16
    } else {
        let v1 = v & !0x7000u16;
        let y = (v1 & 0x3e0) >> 5u16;
        if y == 29 {
            ((v1 ^ 0x800) & !0x3e0u16) | (0u16 << 5u16)
        } else if y == 31 {
            (v1 & !0x3e0u16) | (0u16 << 5u16)
        } else {
            (v1 & !0x3e0u16) | (((y + 1) as u16) << 5u16)
        }
    }
}

/// `v` with coarse X and the horizontal nametable bit taken from `t`.
pub open spec fn spec_copy_horizontal_t(v: u16, t: u16) -> u16 {
    (v & 0xFBE0) | (t & 0x041F)
}

/// `v` with coarse Y, fine Y and the vertical nametable bit taken from `t`.
pub open spec fn spec_copy_vertical_t(v: u16, t: u16) -> u16 {
    (v & 0x841F) | (t & 0x7BE0)
}

/// Fine Y scroll held in `v`.
pub open spec fn spec_fine_y(v: u16) -> u8 {
    ((v & 0x7000) >> 12u16) as u8
}

/// Quadrant of the 32x32 attribute area that `v` points to.
pub open spec fn spec_quadrant(v: u16) -> u8 {
    (((v >> 1u16) & 1) | (((v >> 6u16) & 1) << 1u16)) as u8
}

/// Attribute-table address for `v`.
pub open spec fn spec_attr_addr(v: u16) -> u16 {
    0x23C0 | (v & 0x0C00) | ((v >> 4u16) & 0x38) | ((v >> 2u16) & 0x07)
}

/// Pattern table used for the background: $1000 when PPUCTRL bit 4 is set.
pub open spec fn bg_pattern_table(ppu_ctrl: u8) -> int {
    0x1000 * ((ppu_ctrl >> 4u8) & 1)
}

/// Two-bit value taken at bit `15 - x` of a pair of shift registers.
pub open spec fn shifted_pixel(low: u16, high: u16, x: u8) -> u8 {
    (((low >> ((15 - x) as u16)) & 1) | (((high >> ((15 - x) as u16)) & 1) << 1u16)) as u8
}

/// One 8-pixel row of a tile: the two bitmap planes and the attribute.
#[derive(Debug, Clone, Copy)]
pub struct TileRowInfo {
    pub low: u8,
    pub high: u8,
    pub attr: u8,
}

impl TileRowInfo {
    pub fn new(low: u8, high: u8, attr: u8) -> (r: TileRowInfo)
        ensures
            r == (TileRowInfo { low, high, attr }),
    {
        TileRowInfo { low, high, attr }
    }
}

/// A sprite row and where it is drawn.
pub struct SpriteInfo {
    pub tile: TileRowInfo,
    pub x: usize,
    pub y: usize,
}

pub struct Ppu {
    pub nmi_timer: u8,
    pub debug: bool,
    /// Current line, 0 to 261.
    pub line: usize,
    /// Current cycle in the line, 0 to 340.
    pub cycle: usize,
    /// Set at the start of the vertical blank; cleared when read.
    pub display_flag: bool,
    /// Nametable byte of the tile being fetched.
    pub nt: u8,
    /// Attribute byte of the tile being fetched.
    pub at: u8,
    pub low_bg_byte: u8,
    pub high_bg_byte: u8,
    /// Background bitmap shift registers: the next tile enters in the low
    /// byte, pixels leave from the top.
    pub high_bg_shift_reg: u16,
    pub low_bg_shift_reg: u16,
    /// Attribute bits, shifted along with the bitmap.
    pub x_bg_attr_shift: u16,
    pub y_bg_attr_shift: u16,
    pub odd_frame: bool,
    /// Sprites of the next line (4 bytes each, 8 at most).
    pub secondary_oam: Vec<u8>,
    pub nb_sprites: usize,
    /// Per-sprite registers for the current line.
    pub high_sprite_bmp_reg: Vec<u8>,
    pub low_sprite_bmp_reg: Vec<u8>,
    pub x_position_counters: Vec<u8>,
    pub x_position_offset: Vec<u8>,
    pub sprite_attributes: Vec<u8>,
    pub is_active: Vec<bool>,
    /// The frame, 256x240 RGB pixels, row by row.
    pub pixels: Vec<(u8, u8, u8)>,
    pub pixels2: Vec<u8>,
    /// Master palette.
    pub colors: [Color; 64],
}

/// Mathematical view of [`Ppu`].
pub struct PpuView {
    pub nmi_timer: u8,
    pub debug: bool,
    pub line: usize,
    pub cycle: usize,
    pub display_flag: bool,
    pub nt: u8,
    pub at: u8,
    pub low_bg_byte: u8,
    pub high_bg_byte: u8,
    pub high_bg_shift_reg: u16,
    pub low_bg_shift_reg: u16,
    pub x_bg_attr_shift: u16,
    pub y_bg_attr_shift: u16,
    pub odd_frame: bool,
    pub secondary_oam: Seq<u8>,
    pub nb_sprites: usize,
    pub high_sprite_bmp_reg: Seq<u8>,
    pub low_sprite_bmp_reg: Seq<u8>,
    pub x_position_counters: Seq<u8>,
    pub x_position_offset: Seq<u8>,
    pub sprite_attributes: Seq<u8>,
    pub is_active: Seq<bool>,
    pub pixels: Seq<(u8, u8, u8)>,
    pub pixels2: Seq<u8>,
    pub colors: Seq<Color>,
}

impl View for Ppu {
    type V = PpuView;

    open spec fn view(&self) -> PpuView {
        PpuView {
            nmi_timer: self.nmi_timer,
            debug: self.debug,
            line: self.line,
            cycle: self.cycle,
            display_flag: self.display_flag,
            nt: self.nt,
            at: self.at,
            low_bg_byte: self.low_bg_byte,
            high_bg_byte: self.high_bg_byte,
            high_bg_shift_reg: self.high_bg_shift_reg,
            low_bg_shift_reg: self.low_bg_shift_reg,
            x_bg_attr_shift: self.x_bg_attr_shift,
            y_bg_attr_shift: self.y_bg_attr_shift,
            odd_frame: self.odd_frame,
            secondary_oam: self.secondary_oam@,
            nb_sprites: self.nb_sprites,
            high_sprite_bmp_reg: self.high_sprite_bmp_reg@,
            low_sprite_bmp_reg: self.low_sprite_bmp_reg@,
            x_position_counters: self.x_position_counters@,
            x_position_offset: self.x_position_offset@,
            sprite_attributes: self.sprite_attributes@,
            is_active: self.is_active@,
            pixels: self.pixels@,
            pixels2: self.pixels2@,
            colors: self.colors@,
        }
    }
}

impl PpuView {
    pub open spec fn wf(self) -> bool {
        &&& self.line < 262
        &&& self.cycle <= 340
        &&& self.secondary_oam.len() == 32
        &&& self.high_sprite_bmp_reg.len() == 8
        &&& self.low_sprite_bmp_reg.len() == 8
        &&& self.x_position_counters.len() == 8
        &&& self.x_position_offset.len() == 8
        &&& self.sprite_attributes.len() == 8
        &&& self.is_active.len() == 8
        &&& self.pixels.len() == 0xF000
        &&& self.colors.len() == 64
    }

    /// Moves to the next cycle: 341 cycles per line, 262 lines per frame;
    /// on odd frames with rendering on, cycle 0 of line 0 is skipped.
    pub open spec fn spec_tick(self, is_rendering: bool) -> PpuView {
        if self.cycle + 1 == 341 {
            let line = ((self.line + 1) % 262) as usize;
            let odd = !self.odd_frame;
            PpuView {
                line,
                odd_frame: odd,
                cycle: if odd && line == 0 && is_rendering { 1 } else { 0 },
                ..self
            }
        } else {
            PpuView { cycle: (self.cycle + 1) as usize, ..self }
        }
    }

    /// Two-bit background pixel at the fine X scroll `x`.
    pub open spec fn bg_pixel(self, x: u8) -> u8 {
        shifted_pixel(self.low_bg_shift_reg, self.high_bg_shift_reg, x)
    }

    /// Two-bit background palette number at the fine X scroll `x`.
    pub open spec fn bg_attr(self, x: u8) -> u8 {
        shifted_pixel(self.x_bg_attr_shift, self.y_bg_attr_shift, x)
    }

    /// Shift registers reloaded from the fetched tile bytes and attribute.
    pub open spec fn spec_load_bitmap(self, v: u16) -> PpuView {
        let attribute = (self.at >> (2 * spec_quadrant(v)) as u8) & 0b11;
        PpuView {
            high_bg_shift_reg: (self.high_bg_shift_reg & 0xFF00) | (self.high_bg_byte as u16),
            low_bg_shift_reg: (self.low_bg_shift_reg & 0xFF00) | (self.low_bg_byte as u16),
            x_bg_attr_shift: (self.x_bg_attr_shift & 0xFF00) | ((0xFF * (attribute as u16 & 1)) as u16),
            y_bg_attr_shift: (self.y_bg_attr_shift & 0xFF00) | ((0xFF * ((attribute as u16 >> 1u16) & 1)) as u16),
            ..self
        }
    }
}


/// Palette RAM ($3F00-$3F1F).
pub open spec fn palette_ram(m: PpuState) -> Seq<u8> {
    m.ppu_mem.subrange(0x3F00, 0x3F20)
}

/// Color of background pixel value `v` in palette `palette` (entries are
/// 6-bit indexes into the master palette).
pub open spec fn bg_color(m: PpuState, colors: Seq<Color>, palette: int, v: int) -> Color {
    colors[(palette_ram(m)[(4 * palette + v) % 32] % 64) as int]
}

/// Color of sprite pixel value `v` in sprite palette `palette`.
pub open spec fn sprite_color(m: PpuState, colors: Seq<Color>, palette: int, v: int) -> Color {
    colors[(palette_ram(m)[(0x10 + 4 * palette + v) % 32] % 64) as int]
}

/// Progress of the scan of the eight sprite slots for one pixel.
pub struct SpriteScan {
    pub offsets: Seq<u8>,
    pub active: Seq<bool>,
    /// First opaque sprite pixel found: color and background-priority bit.
    pub pixel: Option<(u8, u8, u8, u8)>,
    pub mem: PpuState,
}

/// Sprites found in OAM for the next line, from OAM address `addr` on,
/// with `sa` bytes of secondary OAM filled and `nb` sprites counted; `None`
/// where a sprite in range would be read past the end of OAM.
pub open spec fn oam_scan(
    oam: Seq<u8>,
    next_line: int,
    height: int,
    addr: int,
    sa: int,
    sec: Seq<u8>,
    nb: int,
) -> Option<(Seq<u8>, int)>
    decreases 0x104 - addr,
{
    if addr >= 0x100 || sa >= 32 {
        Some((sec, nb))
    } else {
        let y = oam[addr] as int;
        let hit = next_line >= y && next_line < y + height;
        if hit && (addr + 3 >= 0x100 || nb + 1 > usize::MAX) {
            None
        } else if hit {
            oam_scan(
                oam,
                next_line,
                height,
                addr + 4,
                sa + 4,
                sec.update(sa, oam[addr]).update(sa + 1, oam[addr + 1]).update(sa + 2, oam[addr + 2])
                    .update(sa + 3, oam[addr + 3]),
                nb + 1,
            )
        } else {
            oam_scan(oam, next_line, height, addr + 4, sa, sec, nb)
        }
    }
}

impl PpuView {
    /// One sprite slot of the pixel scan: an active sprite whose 8 pixels
    /// are not all out yet gives its next pixel (the first opaque one wins;
    /// sprite 0 over an opaque background sets the sprite-0 hit flag); an
    /// exhausted one turns inactive.
    pub open spec fn sprite_step(self, st: SpriteScan, i: int, has_bg: bool) -> SpriteScan {
        if !st.active[i] {
            st
        } else {
            let offset = st.offsets[i];
            if offset < 8 {
                let offsets = st.offsets.update(i, (offset + 1) as u8);
                if st.pixel is Some {
                    SpriteScan { offsets, ..st }
                } else {
                    let low_bit = (self.low_sprite_bmp_reg[i] >> (7 - offset) as u8) & 1;
                    let high_bit = (self.high_sprite_bmp_reg[i] >> (7 - offset) as u8) & 1;
                    let v = low_bit | (high_bit << 1u8);
                    let mem = if i == 0 && has_bg && v != 0 {
                        st.mem.after_update(RegisterType::PPUSTATUS, st.mem.ppustatus | 0x40)
                    } else {
                        st.mem
                    };
                    let attr = self.sprite_attributes[i];
                    let c = sprite_color(mem, self.colors, (attr & 0b11) as int, v as int);
                    SpriteScan {
                        offsets,
                        pixel: if v == 0 { None } else { Some((c.r, c.g, c.b, (attr >> 5u8) & 1)) },
                        mem,
                        ..st
                    }
                }
            } else {
                SpriteScan { active: st.active.update(i, false), ..st }
            }
        }
    }

    /// The first `n` sprite slots scanned.
    pub open spec fn sprite_scan(self, m: PpuState, has_bg: bool, n: int) -> SpriteScan
        decreases n,
    {
        if n <= 0 {
            SpriteScan { offsets: self.x_position_offset, active: self.is_active, pixel: None, mem: m }
        } else {
            self.sprite_step(self.sprite_scan(m, has_bg, n - 1), n - 1, has_bg)
        }
    }

    /// X counters count down; a sprite turns active when its counter hits 0.
    pub open spec fn spec_count_down(self) -> PpuView {
        PpuView {
            x_position_counters: Seq::new(8, |i: int| if self.x_position_counters[i] != 0 {
                (self.x_position_counters[i] - 1) as u8
            } else {
                0u8
            }),
            is_active: Seq::new(8, |i: int| if self.x_position_counters[i] == 1 { true } else { self.is_active[i] }),
            ..self
        }
    }

    /// Outputs the pixel at (cycle - 1, line): the sprite pixel when there is
    /// one, sprites are shown, and it is in front or the background is
    /// transparent; else the background pixel. Either can be masked in the
    /// leftmost 8 pixels.
    pub open spec fn spec_render_pixel(self, m: PpuState, render_bg: bool, render_sprite: bool) -> (PpuView, PpuState) {
        let mask = m.ppumask;
        let idx = 256 * self.line + self.cycle - 1;
        let bg_v = self.bg_pixel(m.x);
        let bg = if (mask >> 1u8) & 1 == 0 && self.cycle <= 8 {
            (0u8, 0u8, 0u8)
        } else if render_bg {
            let c = bg_color(m, self.colors, if bg_v == 0 { 0 } else { self.bg_attr(m.x) as int }, bg_v as int);
            (c.r, c.g, c.b)
        } else {
            (0u8, 0u8, 0u8)
        };
        let scan = self.sprite_scan(m, bg_v != 0, 8);
        let hide_sprite = (mask >> 2u8) & 1 == 1 && self.cycle <= 8;
        let px = if hide_sprite || scan.pixel is None || !render_sprite {
            bg
        } else if scan.pixel.unwrap().3 == 1 && bg_v != 0 {
            bg
        } else {
            (scan.pixel.unwrap().0, scan.pixel.unwrap().1, scan.pixel.unwrap().2)
        };
        (
            PpuView {
                x_position_offset: scan.offsets,
                is_active: scan.active,
                pixels: self.pixels.update(idx, px),
                ..self
            },
            scan.mem,
        )
    }

    /// Background fetch of one cycle: shift, then by cycle modulo 8 fetch
    /// the nametable byte, the attribute byte, the low and the high bitmap
    /// bytes (then reload the shift registers and move to the next tile);
    /// at cycle 256 move to the next row.
    pub open spec fn spec_fetch(self, m: PpuState, ppu_ctrl: u8) -> (PpuView, PpuState) {
        let p = PpuView {
            high_bg_shift_reg: self.high_bg_shift_reg << 1u16,
            low_bg_shift_reg: self.low_bg_shift_reg << 1u16,
            x_bg_attr_shift: self.x_bg_attr_shift << 1u16,
            y_bg_attr_shift: self.y_bg_attr_shift << 1u16,
            ..self
        };
        let tile = spec_tile_low_addr(bg_pattern_table(ppu_ctrl), p.nt as int, spec_fine_y(m.v) as int);
        let c8 = self.cycle % 8;
        let (p1, m1) = if c8 == 2 {
            (PpuView { nt: m.spec_vram((0x2000 | (m.v & 0x0FFF)) as int), ..p }, m)
        } else if c8 == 4 {
            (PpuView { at: m.spec_vram(spec_attr_addr(m.v) as int), ..p }, m)
        } else if c8 == 6 {
            (PpuView { low_bg_byte: m.spec_vram(tile), ..p }, m)
        } else if c8 == 0 {
            (
                PpuView { high_bg_byte: m.spec_vram(tile + 8), ..p }.spec_load_bitmap(m.v),
                PpuState { v: spec_coarse_x_increment(m.v), ..m },
            )
        } else {
            (p, m)
        };
        if self.cycle == 256 {
            (p1, PpuState { v: spec_y_increment(m1.v), ..m1 })
        } else {
            (p1, m1)
        }
    }

    /// Registers of sprite slot `i` for the next line: bitmap bytes (high,
    /// low), X counter and attributes; `None` where the stored sprite lies
    /// below the next line.
    pub open spec fn sprite_slot(self, m: PpuState, ppu_ctrl: u8, i: int) -> Option<(u8, u8, u8, u8)> {
        if i <= self.nb_sprites {
            let sa = 4 * i;
            let y = (self.line + 1) % 240;
            let sprite_y = self.secondary_oam[sa] as int;
            if y < sprite_y {
                None
            } else {
                let is16 = spec_is_16x8_sprites(ppu_ctrl);
                let tile_byte = self.secondary_oam[sa + 1] as int;
                let attr = self.secondary_oam[sa + 2];
                let nametable = if is16 { (tile_byte % 2) * 0x1000 } else { 0x1000 * ((ppu_ctrl >> 3u8) & 1) };
                let tile_addr0 = if is16 { tile_byte - tile_byte % 2 } else { tile_byte };
                let ty0 = y - sprite_y;
                let bottom0 = ty0 > 7;
                let ty1 = if bottom0 { ty0 % 8 } else { ty0 };
                let flip_v = (attr >> 7u8) & 1 == 1;
                let ty = if flip_v { 7 - ty1 } else { ty1 };
                let bottom = if flip_v { !bottom0 } else { bottom0 };
                let tile_addr = if bottom && is16 { tile_addr0 + 1 } else { tile_addr0 };
                let lo = spec_tile_low_addr(nametable, tile_addr, ty);
                let flip_h = (attr >> 6u8) & 1 == 1;
                let low = if flip_h { spec_reverse_bit(m.spec_vram(lo)) } else { m.spec_vram(lo) };
                let high = if flip_h { spec_reverse_bit(m.spec_vram(lo + 8)) } else { m.spec_vram(lo + 8) };
                Some((high, low, self.secondary_oam[sa + 3], attr))
            }
        } else {
            Some((0u8, 0u8, 0u8, 0u8))
        }
    }

    /// Loads the sprite registers for the next line from secondary OAM.
    pub open spec fn spec_evaluate_sprites(self, m: PpuState, ppu_ctrl: u8) -> Option<PpuView> {
        if forall|i: int| 0 <= i < 8 ==> #[trigger] self.sprite_slot(m, ppu_ctrl, i) is Some {
            Some(PpuView {
                high_sprite_bmp_reg: Seq::new(8, |i: int| self.sprite_slot(m, ppu_ctrl, i).unwrap().0),
                low_sprite_bmp_reg: Seq::new(8, |i: int| self.sprite_slot(m, ppu_ctrl, i).unwrap().1),
                x_position_counters: Seq::new(8, |i: int| self.sprite_slot(m, ppu_ctrl, i).unwrap().2),
                sprite_attributes: Seq::new(8, |i: int| self.sprite_slot(m, ppu_ctrl, i).unwrap().3),
                x_position_offset: Seq::new(8, |i: int| 0u8),
                is_active: Seq::new(8, |i: int| false),
                ..self
            })
        } else {
            None
        }
    }

    /// Sprite work of one cycle on a rendered line: clear secondary OAM at
    /// cycle 1, find the next line's sprites at 65, reset OAMADDR during
    /// 257-319, load the sprite registers at 320.
    pub open spec fn spec_sprite_phase(self, m: PpuState, ppu_ctrl: u8) -> Option<(PpuView, PpuState)> {
        if self.cycle == 1 {
            Some((PpuView { secondary_oam: Seq::new(32, |i: int| 0u8), nb_sprites: 0, ..self }, m))
        } else if self.cycle == 65 {
            match oam_scan(
                m.oam,
                (self.line + 1) % 240,
                if spec_is_16x8_sprites(ppu_ctrl) { 16 } else { 8 },
                m.oam_addr as int,
                0,
                self.secondary_oam,
                self.nb_sprites as int,
            ) {
                Some((sec, nb)) => Some((PpuView { secondary_oam: sec, nb_sprites: nb as usize, ..self }, m)),
                None => None,
            }
        } else if 257 <= self.cycle < 320 {
            Some((self, PpuState { oam_addr: 0, ..m }))
        } else if self.cycle == 320 {
            match self.spec_evaluate_sprites(m, ppu_ctrl) {
                Some(p) => Some((p, m)),
                None => None,
            }
        } else {
            Some((self, m))
        }
    }

    /// What rendering does in one cycle once it is enabled.
    pub open spec fn spec_rendering_phase(
        self,
        m: PpuState,
        ppu_ctrl: u8,
        visible: bool,
        pre: bool,
        fetch_cycles: bool,
    ) -> Option<(PpuView, PpuState)> {
        let (p1, m1) = if (visible || pre) && fetch_cycles { self.spec_fetch(m, ppu_ctrl) } else { (self, m) };
        let m2 = if (visible || pre) && p1.cycle == 257 {
            PpuState { v: spec_copy_horizontal_t(m1.v, m1.t), ..m1 }
        } else {
            m1
        };
        let m3 = if pre && 280 <= p1.cycle <= 304 {
            PpuState { v: spec_copy_vertical_t(m2.v, m2.t), ..m2 }
        } else {
            m2
        };
        if visible || pre {
            p1.spec_sprite_phase(m3, ppu_ctrl)
        } else {
            Some((p1, m3))
        }
    }

    /// Vertical blank: at line 241 cycle 1 the vblank flag is set (from the
    /// status read at the start of the cycle) and the frame is ready; at
    /// line 261 cycle 1 the vblank and sprite-0 flags are cleared.
    pub open spec fn spec_vblank(self, m: PpuState, status: u8) -> (PpuView, PpuState) {
        let (p1, m1) = if self.line == 241 && self.cycle == 1 {
            (PpuView { display_flag: true, ..self }, m.after_update(RegisterType::PPUSTATUS, status | 0x80))
        } else {
            (self, m)
        };
        if p1.line == 261 && p1.cycle == 1 {
            let m2 = m1.after_update(RegisterType::PPUSTATUS, status & !0x80u8);
            (p1, m2.after_update(RegisterType::PPUSTATUS, m2.ppustatus & !0x40u8))
        } else {
            (p1, m1)
        }
    }

    /// One PPU cycle, or `None` where it cannot be carried out.
    pub open spec fn spec_exec_cycle(self, m: PpuState) -> Option<(PpuView, PpuState)> {
        let mask = m.ppumask;
        let status = m.ppustatus;
        let ctrl = m.ppuctrl;
        let render_bg = (mask >> 3u8) & 1 == 1;
        let render_sprite = (mask >> 4u8) & 1 == 1;
        let enabled = render_bg || render_sprite;
        let p1 = self.spec_tick(enabled);
        let visible = p1.line < 240;
        let pre = p1.line == 261;
        let fetch_cycles = (p1.cycle > 0 && p1.cycle <= 256) || (p1.cycle >= 321 && p1.cycle < 337);
        let pixel_cycles = p1.cycle > 0 && p1.cycle <= 256 && visible;
        let m1 = if p1.line == 241 {
            PpuState { is_rendering: false, ..m }
        } else if p1.line == 0 {
            PpuState { is_rendering: true, ..m }
        } else {
            m
        };
        let (p2, m2) = if visible && enabled && pixel_cycles {
            p1.spec_count_down().spec_render_pixel(m1, render_bg, render_sprite)
        } else {
            (p1, m1)
        };
        let r3 = if enabled {
            p2.spec_rendering_phase(m2, ctrl, visible, pre, fetch_cycles)
        } else {
            Some((p2, m2))
        };
        match r3 {
            Some((p3, m3)) => Some(p3.spec_vblank(m3, status)),
            None => None,
        }
    }

    /// `n` PPU cycles.
    pub open spec fn spec_run(self, m: PpuState, n: nat) -> Option<(PpuView, PpuState)>
        decreases n,
    {
        if n == 0 {
            Some((self, m))
        } else {
            match self.spec_exec_cycle(m) {
                Some((p1, m1)) => p1.spec_run(m1, (n - 1) as nat),
                None => None,
            }
        }
    }
}

/// A freshly powered PPU: line 0, cycle 0, black frame, standard palette.
pub open spec fn initial_ppu() -> PpuView {
    PpuView {
        nmi_timer: 0,
        debug: false,
        line: 0,
        cycle: 0,
        display_flag: false,
        nt: 0,
        at: 0,
        low_bg_byte: 0,
        high_bg_byte: 0,
        high_bg_shift_reg: 0,
        low_bg_shift_reg: 0,
        x_bg_attr_shift: 0,
        y_bg_attr_shift: 0,
        odd_frame: false,
        secondary_oam: Seq::new(32, |i: int| 0u8),
        nb_sprites: 0,
        high_sprite_bmp_reg: Seq::new(8, |i: int| 0u8),
        low_sprite_bmp_reg: Seq::new(8, |i: int| 0u8),
        x_position_counters: Seq::new(8, |i: int| 0u8),
        x_position_offset: Seq::new(8, |i: int| 0u8),
        sprite_attributes: Seq::new(8, |i: int| 0u8),
        is_active: Seq::new(8, |i: int| false),
        pixels: Seq::new(0xF000, |i: int| (0u8, 0u8, 0u8)),
        pixels2: Seq::new(0x2D000, |i: int| 0u8),
        colors: default_colors(),
    }
}

/// Memory with its PPU side replaced.
pub open spec fn with_ppu(m: MemState, p: PpuState) -> MemState {
    MemState { ppu: p, ..m }
}

fn false_flags(n: usize) -> (v: Vec<bool>)
    ensures
        v@ == Seq::new(n as nat, |i: int| false),
{
    let mut v: Vec<bool> = Vec::new();
    let mut i: usize = 0;
    while i < n
        invariant
            i <= n,
            v@ == Seq::new(i as nat, |j: int| false),
        decreases n - i,
    {
        v.push(false);
        i = i + 1;
        proof {
            assert(v@ =~= Seq::new(i as nat, |j: int| false));
        }
    }
    v
}

fn black_screen(n: usize) -> (v: Vec<(u8, u8, u8)>)
    ensures
        v@ == Seq::new(n as nat, |i: int| (0u8, 0u8, 0u8)),
{
    let mut v: Vec<(u8, u8, u8)> = Vec::new();
    let mut i: usize = 0;
    while i < n
        invariant
            i <= n,
            v@ == Seq::new(i as nat, |j: int| (0u8, 0u8, 0u8)),
        decreases n - i,
    {
        v.push((0, 0, 0));
        i = i + 1;
        proof {
            assert(v@ =~= Seq::new(i as nat, |j: int| (0u8, 0u8, 0u8)));
        }
    }
    v
}

impl Ppu {
    pub open spec fn wf(&self) -> bool {
        self@.wf()
    }

    pub fn new() -> (p: Ppu)
        ensures
            p@ == initial_ppu(),
            p.wf(),
    {
        let secondary_oam = zeros(32);
        let high_sprite_bmp_reg = zeros(8);
        let low_sprite_bmp_reg = zeros(8);
        let x_position_counters = zeros(8);
        let x_position_offset = zeros(8);
        let sprite_attributes = zeros(8);
        let pixels2 = zeros(0x2D000);
        proof {
            assert(secondary_oam@ =~= Seq::new(32, |i: int| 0u8));
            assert(high_sprite_bmp_reg@ =~= Seq::new(8, |i: int| 0u8));
            assert(low_sprite_bmp_reg@ =~= Seq::new(8, |i: int| 0u8));
            assert(x_position_counters@ =~= Seq::new(8, |i: int| 0u8));
            assert(x_position_offset@ =~= Seq::new(8, |i: int| 0u8));
            assert(sprite_attributes@ =~= Seq::new(8, |i: int| 0u8));
            assert(pixels2@ =~= Seq::new(0x2D000, |i: int| 0u8));
        }
        let is_active = false_flags(8);
        let pixels = black_screen(0xF000);
        proof {
            assert(is_active@ =~= Seq::new(8, |i: int| false));
            assert(pixels@ =~= Seq::new(0xF000, |i: int| (0u8, 0u8, 0u8)));
        }
        Ppu {
            nmi_timer: 0,
            debug: false,
            line: 0,
            cycle: 0,
            display_flag: false,
            nt: 0,
            at: 0,
            low_bg_byte: 0,
            high_bg_byte: 0,
            high_bg_shift_reg: 0,
            x_bg_attr_shift: 0,
            y_bg_attr_shift: 0,
            low_bg_shift_reg: 0,
            odd_frame: false,
            secondary_oam,
            nb_sprites: 0,
            high_sprite_bmp_reg,
            low_sprite_bmp_reg,
            x_position_counters,
            x_position_offset,
            is_active,
            sprite_attributes,
            pixels,
            pixels2,
            colors: build_default_colors(),
        }
    }

    /// True once per frame, after the vertical blank started.
    pub fn should_display(&mut self) -> (r: bool)
        ensures
            r == old(self).display_flag,
            final(self)@ == (PpuView { display_flag: false, ..old(self)@ }),
    {
        if self.display_flag {
            self.display_flag = false;
            true
        } else {
            false
        }
    }

    fn tick(&mut self, is_rendering: bool)
        requires
            old(self).cycle <= 340,
            old(self).line < 262,
        ensures
            final(self)@ == old(self)@.spec_tick(is_rendering),
    {
        self.cycle = self.cycle + 1;
        if self.cycle == 341 {
            self.line = (self.line + 1) % 262;
            self.odd_frame = !self.odd_frame;
            if self.odd_frame && self.line == 0 && is_rendering {
                self.cycle = 1;
            } else {
                self.cycle = 0;
            }
        }
    }

    fn fetch_bg_pixel(&self, memory: &Memory) -> (r: u8)
        requires
            memory.wf(),
        ensures
            r == self@.bg_pixel(memory.ppu_mem.x),
            r <= 3,
    {
        let x = memory.ppu_mem.x;
        let lo = self.low_bg_shift_reg;
        let hi = self.high_bg_shift_reg;
        let low_plane_bit = (lo >> (15 - x) as u16) & 1;
        let high_plane_bit = (hi >> (15 - x) as u16) & 1;
        proof {
            lemma_bit_pair16(lo, hi, (15 - x) as u16);
        }
        (low_plane_bit | (high_plane_bit << 1u16)) as u8
    }

    fn fetch_bg_attr(&self, memory: &Memory) -> (r: u8)
        requires
            memory.wf(),
        ensures
            r == self@.bg_attr(memory.ppu_mem.x),
            r <= 3,
    {
        let x = memory.ppu_mem.x;
        let lo = self.x_bg_attr_shift;
        let hi = self.y_bg_attr_shift;
        let low_plane_bit = (lo >> (15 - x) as u16) & 1;
        let high_plane_bit = (hi >> (15 - x) as u16) & 1;
        proof {
            lemma_bit_pair16(lo, hi, (15 - x) as u16);
        }
        (low_plane_bit | (high_plane_bit << 1u16)) as u8
    }

    fn fetch_quadrant(&self, memory: &Memory) -> (r: u8)
        ensures
            r == spec_quadrant(memory.ppu_mem.v),
    {
        let v = memory.ppu_mem.v;
        (((v >> 1u16) & 1) | (((v >> 6u16) & 1) << 1u16)) as u8
    }

    fn fine_y(&self, memory: &Memory) -> (r: u8)
        ensures
            r == spec_fine_y(memory.ppu_mem.v),
            r <= 7,
    {
        let v = memory.ppu_mem.v;
        proof {
            lemma_word(v);
        }
        ((memory.ppu_mem.v & 0x7000) >> 12u16) as u8
    }

    fn tile_low_addr(&self, pattern_table: usize, tile_nb: usize, fine_y: usize) -> (r: usize)
        requires
            pattern_table <= 0x1000,
            tile_nb <= 0x100,
            fine_y <= 7,
        ensures
            r == spec_tile_low_addr(pattern_table as int, tile_nb as int, fine_y as int),
    {
        pattern_table + 16 * tile_nb + fine_y
    }

    pub fn coarse_x_increment(&self, memory: &mut Memory)
        ensures
            final(memory)@ == with_ppu(old(memory)@,
                PpuState { v: spec_coarse_x_increment(old(memory).ppu_mem.v), ..old(memory)@.ppu }),
    {
        let mut v = memory.ppu_mem.v;
        if (v & 0x1F) == 31 {
            v = v & !0x1Fu16;
            v = v ^ 0x400;
        } else {
            proof {
                lemma_word(v);
            }
            v = v + 1;
        }
        memory.ppu_mem.v = v;
    }

    pub fn y_increment(&self, memory: &mut Memory)
        ensures
            final(memory)@ == with_ppu(old(memory)@,
                PpuState { v: spec_y_increment(old(memory).ppu_mem.v), ..old(memory)@.ppu }),
    {
        let mut v = memory.ppu_mem.v;
        if (v & 0x7000) != 0x7000 {
            proof {
                lemma_word(v);
            }
            v = v + 0x1000;
        } else {
            v = v & !0x7000u16;
            let mut y = (v & 0x3e0) >> 5u16;
            proof {
                lemma_word(v);
            }
            if y == 29 {
                y = 0;
                v = v ^ 0x800;
            } else if y == 31 {
                y = 0;
            } else {
                y = y + 1;
            }
            v = (v & !0x3e0u16) | (y << 5u16);
        }
        memory.ppu_mem.v = v;
    }

    fn copy_vertical_t(&self, memory: &mut Memory)
        ensures
            final(memory)@ == with_ppu(old(memory)@,
                PpuState { v: spec_copy_vertical_t(old(memory).ppu_mem.v, old(memory).ppu_mem.t), ..old(memory)@.ppu }),
    {
        let t = memory.ppu_mem.t;
        let v = memory.ppu_mem.v;
        memory.ppu_mem.v = (v & 0x841F) | (t & 0x7BE0);
    }

    fn copy_horizontal_t(&self, memory: &mut Memory)
        ensures
            final(memory)@ == with_ppu(old(memory)@,
                PpuState { v: spec_copy_horizontal_t(old(memory).ppu_mem.v, old(memory).ppu_mem.t), ..old(memory)@.ppu }),
    {
        let t = memory.ppu_mem.t;
        let v = memory.ppu_mem.v;
        memory.ppu_mem.v = (v & 0xFBE0) | (t & 0x041F);
    }

    /// Sets the sprite-0 hit flag (PPUSTATUS bit 6).
    fn sprite_0_set(&self, memory: &mut Memory)
        ensures
            final(memory)@ == with_ppu(old(memory)@,
                old(memory)@.ppu.after_update(RegisterType::PPUSTATUS, old(memory).ppu_mem.ppustatus | 0x40)),
    {
        let ppu_status = memory.ppu_mem.peek(RegisterType::PPUSTATUS);
        memory.ppu_mem.update(RegisterType::PPUSTATUS, ppu_status | 0x40);
    }

    /// Clears the sprite-0 hit flag.
    fn sprite_0_clear(&self, memory: &mut Memory)
        ensures
            final(memory)@ == with_ppu(old(memory)@,
                old(memory)@.ppu.after_update(RegisterType::PPUSTATUS, old(memory).ppu_mem.ppustatus & !0x40u8)),
    {
        let ppu_status = memory.ppu_mem.peek(RegisterType::PPUSTATUS);
        memory.ppu_mem.update(RegisterType::PPUSTATUS, ppu_status & !0x40u8);
    }

    fn fetch_nt(&mut self, memory: &Memory)
        requires
            memory.wf(),
        ensures
            final(self)@ == (PpuView {
                nt: memory@.ppu.spec_vram((0x2000 | (memory.ppu_mem.v & 0x0FFF)) as int),
                ..old(self)@
            }),
    {
        let v = memory.ppu_mem.v;
        let addr = 0x2000 | (v & 0x0FFF);
        proof {
            lemma_word(v);
        }
        self.nt = memory.ppu_mem.read_vram_at(addr as usize);
    }

    fn fetch_attr(&mut self, memory: &Memory)
        requires
            memory.wf(),
        ensures
            final(self)@ == (PpuView {
                at: memory@.ppu.spec_vram(spec_attr_addr(memory.ppu_mem.v) as int),
                ..old(self)@
            }),
    {
        let v = memory.ppu_mem.v;
        let addr = 0x23C0 | (v & 0x0C00) | ((v >> 4u16) & 0x38) | ((v >> 2u16) & 0x07);
        proof {
            lemma_word(v);
        }
        self.at = memory.ppu_mem.read_vram_at(addr as usize);
    }

    fn fetch_bmp_low(&mut self, memory: &Memory, ppu_ctrl: u8)
        requires
            memory.wf(),
        ensures
            final(self)@ == (PpuView {
                low_bg_byte: memory@.ppu.spec_vram(spec_tile_low_addr(
                    bg_pattern_table(ppu_ctrl), old(self).nt as int, spec_fine_y(memory.ppu_mem.v) as int)),
                ..old(self)@
            }),
    {
        proof {
            lemma_byte(ppu_ctrl);
        }
        let pattern_table_addr = 0x1000 * ((ppu_ctrl >> 4u8) & 1) as usize;
        let fine_y = self.fine_y(memory);
        let bmp_low = self.tile_low_addr(pattern_table_addr, self.nt as usize, fine_y as usize);
        self.low_bg_byte = memory.ppu_mem.read_vram_at(bmp_low);
    }

    fn fetch_bmp_high(&mut self, memory: &Memory, ppu_ctrl: u8)
        requires
            memory.wf(),
        ensures
            final(self)@ == (PpuView {
                high_bg_byte: memory@.ppu.spec_vram(spec_tile_low_addr(
                    bg_pattern_table(ppu_ctrl), old(self).nt as int, spec_fine_y(memory.ppu_mem.v) as int) + 8),
                ..old(self)@
            }),
    {
        proof {
            lemma_byte(ppu_ctrl);
        }
        let pattern_table_addr = 0x1000 * ((ppu_ctrl >> 4u8) & 1) as usize;
        let fine_y = self.fine_y(memory);
        let addr = self.tile_low_addr(pattern_table_addr, self.nt as usize, fine_y as usize);
        let bmp_high = addr + 8;
        self.high_bg_byte = memory.ppu_mem.read_vram_at(bmp_high);
    }

    fn load_bitmap(&mut self, memory: &Memory)
        ensures
            final(self)@ == old(self)@.spec_load_bitmap(memory.ppu_mem.v),
    {
        self.high_bg_shift_reg = (self.high_bg_shift_reg & 0xFF00) | (self.high_bg_byte as u16);
        self.low_bg_shift_reg = (self.low_bg_shift_reg & 0xFF00) | (self.low_bg_byte as u16);
        let quadrant = self.fetch_quadrant(memory);
        let v = memory.ppu_mem.v;
        proof {
            lemma_word(v);
        }
        let attribute = (self.at >> (2 * quadrant)) & 0b11;
        proof {
            lemma_byte(attribute);
        }
        self.x_bg_attr_shift = (self.x_bg_attr_shift & 0xFF00) | (0xFF * (attribute as u16 & 1));
        self.y_bg_attr_shift = (self.y_bg_attr_shift & 0xFF00) | (0xFF * ((attribute as u16 >> 1u16) & 1));
    }

    /// Counts the sprite X counters down; a sprite whose counter reaches 0
    /// turns active.
    fn count_down(&mut self)
        requires
            old(self).wf(),
        ensures
            final(self).wf(),
            final(self)@ == old(self)@.spec_count_down(),
    {
        let mut i: usize = 0;
        while i < 8
            invariant
                i <= 8,
                self.wf(),
                self@ == (PpuView {
                    x_position_counters: self@.x_position_counters,
                    is_active: self@.is_active,
                    ..old(self)@
                }),
                forall|j: int| 0 <= j < i ==> self.x_position_counters@[j] == old(self)@.spec_count_down().x_position_counters[j],
                forall|j: int| 0 <= j < i ==> self.is_active@[j] == old(self)@.spec_count_down().is_active[j],
                forall|j: int| i <= j < 8 ==> self.x_position_counters@[j] == old(self).x_position_counters@[j],
                forall|j: int| i <= j < 8 ==> self.is_active@[j] == old(self).is_active@[j],
            decreases 8 - i,
        {
            let c = self.x_position_counters[i];
            if c != 0 {
                self.x_position_counters.set(i, c - 1);
                if c - 1 == 0 {
                    self.is_active.set(i, true);
                }
            }
            i = i + 1;
        }
        proof {
            assert(self.x_position_counters@ =~= old(self)@.spec_count_down().x_position_counters);
            assert(self.is_active@ =~= old(self)@.spec_count_down().is_active);
        }
    }

    /// Scans the eight sprite slots for the current pixel; returns the
    /// first opaque sprite pixel (color and background-priority bit).
    fn fetch_sprite_pixel(&mut self, memory: &mut Memory, has_bg_pixel: bool) -> (r: Option<(u8, u8, u8, u8)>)
        requires
            old(self).wf(),
            old(memory).wf(),
        ensures
            final(self).wf(),
            final(memory).wf(),
            ({
                let scan = old(self)@.sprite_scan(old(memory)@.ppu, has_bg_pixel, 8);
                &&& r == scan.pixel
                &&& final(self)@ == (PpuView {
                    x_position_offset: scan.offsets,
                    is_active: scan.active,
                    ..old(self)@
                })
                &&& final(memory)@ == with_ppu(old(memory)@, scan.mem)
            }),
    {
        let mut pixel_data: Option<(u8, u8, u8, u8)> = None;
        let mut i: usize = 0;
        while i < 8
            invariant
                i <= 8,
                self.wf(),
                memory.wf(),
                ({
                    let scan = old(self)@.sprite_scan(old(memory)@.ppu, has_bg_pixel, i as int);
                    &&& pixel_data == scan.pixel
                    &&& self@ == (PpuView {
                        x_position_offset: scan.offsets,
                        is_active: scan.active,
                        ..old(self)@
                    })
                    &&& memory@ == with_ppu(old(memory)@, scan.mem)
                }),
            decreases 8 - i,
        {
            if self.is_active[i] {
                let bmp_low = self.low_sprite_bmp_reg[i];
                let bmp_high = self.high_sprite_bmp_reg[i];
                let attr = self.sprite_attributes[i];
                let offset = self.x_position_offset[i];
                if offset < 8 {
                    self.x_position_offset.set(i, offset + 1);
                    match pixel_data {
                        Some(_) => {},
                        None => {
                            let shift: u8 = 7 - offset;
                            let low_bit = (bmp_low >> shift) & 1;
                            let high_bit = (bmp_high >> shift) & 1;
                            let v = low_bit | (high_bit << 1u8);
                            proof {
                                lemma_bit_pair8(bmp_low, bmp_high, shift);
                                lemma_byte(attr);
                            }
                            if i == 0 && has_bg_pixel && v != 0 {
                                self.sprite_0_set(memory);
                            }
                            let bg_priority = (attr >> 5u8) & 1;
                            let color_index = get_color_index_sprite(
                                attr & 0b11,
                                &memory.ppu_mem.ppu_mem.as_slice()[0x3F00..0x3F20],
                                v,
                            );
                            let c = self.colors[color_index as usize];
                            if v != 0 {
                                pixel_data = Some((c.r, c.g, c.b, bg_priority));
                            }
                        },
                    }
                } else {
                    self.is_active.set(i, false);
                }
            }
            i = i + 1;
        }
        pixel_data
    }

    fn render_pixel(&mut self, memory: &mut Memory, render_bg: bool, render_sprite: bool)
        requires
            old(self).wf(),
            old(memory).wf(),
            old(self).line < 240,
            1 <= old(self).cycle <= 256,
        ensures
            final(self).wf(),
            final(memory).wf(),
            final(memory)@ == with_ppu(old(memory)@, final(memory)@.ppu),
            (final(self)@, final(memory)@.ppu) == old(self)@.spec_render_pixel(old(memory)@.ppu, render_bg, render_sprite),
    {
        let ppu_mask = memory.ppu_mem.peek(RegisterType::PPUMASK);
        let idx = 256 * self.line + (self.cycle - 1);
        let bg_pixel_v = self.fetch_bg_pixel(memory);
        let bg_pixel = if ((ppu_mask >> 1u8) & 1 == 0) && self.cycle <= 8 {
            (0u8, 0u8, 0u8)
        } else if render_bg {
            let attribute = self.fetch_bg_attr(memory);
            let palette_number: u16 = if bg_pixel_v == 0 { 0 } else { attribute as u16 };
            let color = get_bg_palette(
                palette_number,
                &memory.ppu_mem.ppu_mem.as_slice()[0x3F00..0x3F20],
                &self.colors,
                bg_pixel_v as u16,
            );
            (color.r, color.g, color.b)
        } else {
            (0u8, 0u8, 0u8)
        };
        let sprite_pixel_data = self.fetch_sprite_pixel(memory, bg_pixel_v != 0);
        let hide_sprite = ((ppu_mask >> 2u8) & 1 == 1) && (self.cycle <= 8);
        if hide_sprite || !render_sprite {
            self.pixels.set(idx, bg_pixel);
        } else {
            match sprite_pixel_data {
                None => self.pixels.set(idx, bg_pixel),
                Some(sprite_pixel) => {
                    let bg_priority = sprite_pixel.3 == 1;
                    if bg_priority && bg_pixel_v != 0 {
                        self.pixels.set(idx, bg_pixel);
                    } else {
                        self.pixels.set(idx, (sprite_pixel.0, sprite_pixel.1, sprite_pixel.2));
                    }
                },
            }
        }
    }

    fn fetch_background(&mut self, memory: &mut Memory, ppu_ctrl: u8)
        requires
            old(self).wf(),
            old(memory).wf(),
        ensures
            final(self).wf(),
            final(memory).wf(),
            final(memory)@ == with_ppu(old(memory)@, final(memory)@.ppu),
            (final(self)@, final(memory)@.ppu) == old(self)@.spec_fetch(old(memory)@.ppu, ppu_ctrl),
    {
        self.high_bg_shift_reg = self.high_bg_shift_reg << 1u16;
        self.low_bg_shift_reg = self.low_bg_shift_reg << 1u16;
        self.x_bg_attr_shift = self.x_bg_attr_shift << 1u16;
        self.y_bg_attr_shift = self.y_bg_attr_shift << 1u16;
        let c8 = self.cycle % 8;
        if c8 == 2 {
            self.fetch_nt(memory);
        } else if c8 == 4 {
            self.fetch_attr(memory);
        } else if c8 == 6 {
            self.fetch_bmp_low(memory, ppu_ctrl);
        } else if c8 == 0 {
            self.fetch_bmp_high(memory, ppu_ctrl);
            self.load_bitmap(memory);
            self.coarse_x_increment(memory);
        }
        if self.cycle == 256 {
            self.y_increment(memory);
        }
    }

    /// Copies the sprites of OAM that cover the next line into secondary
    /// OAM, 8 at most.
    fn scan_oam(&mut self, memory: &Memory, ppu_ctrl: u8)
        requires
            old(self).wf(),
            memory.wf(),
            oam_scan(
                memory@.ppu.oam,
                (old(self).line + 1) % 240,
                if spec_is_16x8_sprites(ppu_ctrl) { 16 } else { 8 },
                memory.ppu_mem.oam_addr as int,
                0,
                old(self)@.secondary_oam,
                old(self).nb_sprites as int,
            ) is Some,
        ensures
            final(self).wf(),
            ({
                let r = oam_scan(
                    memory@.ppu.oam,
                    (old(self).line + 1) % 240,
                    if spec_is_16x8_sprites(ppu_ctrl) { 16 } else { 8 },
                    memory.ppu_mem.oam_addr as int,
                    0,
                    old(self)@.secondary_oam,
                    old(self).nb_sprites as int,
                ).unwrap();
                final(self)@ == (PpuView { secondary_oam: r.0, nb_sprites: r.1 as usize, ..old(self)@ })
            }),
    {
        let ghost target = oam_scan(
            memory@.ppu.oam,
            (old(self).line + 1) % 240,
            if spec_is_16x8_sprites(ppu_ctrl) { 16 } else { 8 },
            memory.ppu_mem.oam_addr as int,
            0,
            old(self)@.secondary_oam,
            old(self).nb_sprites as int,
        );
        let mut addr = memory.ppu_mem.oam_addr as usize;
        let y_lower_bound: usize = if is_16x8_sprites(ppu_ctrl) { 16 } else { 8 };
        let next_line = (self.line + 1) % 240;
        let mut secondary_oam_addr: usize = 0;
        while addr < 0x100 && secondary_oam_addr < 32
            invariant
                self.wf(),
                memory.wf(),
                self@ == (PpuView {
                    secondary_oam: self@.secondary_oam,
                    nb_sprites: self.nb_sprites,
                    ..old(self)@
                }),
                addr <= 0x103,
                secondary_oam_addr <= 32,
                secondary_oam_addr % 4 == 0,
                next_line == (old(self).line + 1) % 240,
                y_lower_bound == (if spec_is_16x8_sprites(ppu_ctrl) { 16int } else { 8int }),
                oam_scan(memory@.ppu.oam, next_line as int, y_lower_bound as int, addr as int,
                    secondary_oam_addr as int, self@.secondary_oam, self.nb_sprites as int) == target,
                target is Some,
            decreases 0x104 - addr,
        {
            let sprite_y = memory.ppu_mem.oam[addr] as usize;
            if next_line >= sprite_y && next_line < sprite_y + y_lower_bound {
                self.secondary_oam.set(secondary_oam_addr, memory.ppu_mem.oam[addr]);
                self.secondary_oam.set(secondary_oam_addr + 1, memory.ppu_mem.oam[addr + 1]);
                self.secondary_oam.set(secondary_oam_addr + 2, memory.ppu_mem.oam[addr + 2]);
                self.secondary_oam.set(secondary_oam_addr + 3, memory.ppu_mem.oam[addr + 3]);
                secondary_oam_addr = secondary_oam_addr + 4;
                self.nb_sprites = self.nb_sprites + 1;
            }
            addr = addr + 4;
        }
    }

    /// Registers of sprite slot `i` for the next line.
    fn sprite_slot(&self, memory: &Memory, ppu_ctrl: u8, i: usize) -> (r: (u8, u8, u8, u8))
        requires
            self.wf(),
            memory.wf(),
            i < 8,
            i <= self.nb_sprites,
            self@.sprite_slot(memory@.ppu, ppu_ctrl, i as int) is Some,
        ensures
            self@.sprite_slot(memory@.ppu, ppu_ctrl, i as int) == Some(r),
    {
        let eightb_nametable = 0x1000 * ((ppu_ctrl >> 3u8) & 1) as usize;
        let is_16b = is_16x8_sprites(ppu_ctrl);
        let secondary_oam_addr = 4 * i;
        let y = (self.line + 1) % 240;
        let x = self.secondary_oam[secondary_oam_addr + 3];
        let tile_byte = self.secondary_oam[secondary_oam_addr + 1] as usize;
        proof {
            lemma_byte(ppu_ctrl);
            lemma_index(tile_byte);
        }
        let nametable = if is_16b { (tile_byte & 1) * 0x1000 } else { eightb_nametable };
        let mut tile_addr = if is_16b { tile_byte & !1usize } else { tile_byte };
        let attr_byte = self.secondary_oam[secondary_oam_addr + 2];
        let mut tile_y = y - self.secondary_oam[secondary_oam_addr] as usize;
        let mut bottom_tile = false;
        if tile_y > 7 {
            tile_y = tile_y % 8;
            bottom_tile = true;
        }
        if (attr_byte >> 7u8) & 1 == 1 {
            tile_y = 7 - tile_y;
            bottom_tile = !bottom_tile;
        }
        if bottom_tile && is_16b {
            tile_addr = tile_addr + 1;
        }
        let bmp_low = self.tile_low_addr(nametable, tile_addr, tile_y);
        let bmp_high = bmp_low + 8;
        let mut tile_low = memory.ppu_mem.read_vram_at(bmp_low);
        let mut tile_high = memory.ppu_mem.read_vram_at(bmp_high);
        if (attr_byte >> 6u8) & 1 == 1 {
            tile_low = reverse_bit(tile_low);
            tile_high = reverse_bit(tile_high);
        }
        (tile_high, tile_low, x, attr_byte)
    }

    /// Loads the sprite registers of the next line.
    fn evaluate_sprites(&mut self, memory: &Memory, ppu_ctrl: u8)
        requires
            old(self).wf(),
            memory.wf(),
            old(self)@.spec_evaluate_sprites(memory@.ppu, ppu_ctrl) is Some,
        ensures
            final(self).wf(),
            Some(final(self)@) == old(self)@.spec_evaluate_sprites(memory@.ppu, ppu_ctrl),
    {
        let ghost p0 = old(self)@;
        let ghost m = memory@.ppu;
        let mut i: usize = 0;
        while i < 8
            invariant
                i <= 8,
                self.wf(),
                memory.wf(),
                m == memory@.ppu,
                p0.spec_evaluate_sprites(m, ppu_ctrl) is Some,
                self@ == (PpuView {
                    high_sprite_bmp_reg: self@.high_sprite_bmp_reg,
                    low_sprite_bmp_reg: self@.low_sprite_bmp_reg,
                    x_position_counters: self@.x_position_counters,
                    x_position_offset: self@.x_position_offset,
                    sprite_attributes: self@.sprite_attributes,
                    is_active: self@.is_active,
                    ..p0
                }),
                forall|j: int| 0 <= j < i ==> {
                    &&& p0.sprite_slot(m, ppu_ctrl, j) is Some
                    &&& self@.high_sprite_bmp_reg[j] == p0.sprite_slot(m, ppu_ctrl, j).unwrap().0
                    &&& self@.low_sprite_bmp_reg[j] == p0.sprite_slot(m, ppu_ctrl, j).unwrap().1
                    &&& self@.x_position_counters[j] == p0.sprite_slot(m, ppu_ctrl, j).unwrap().2
                    &&& self@.sprite_attributes[j] == p0.sprite_slot(m, ppu_ctrl, j).unwrap().3
                    &&& self@.x_position_offset[j] == 0
                    &&& self@.is_active[j] == false
                },
            decreases 8 - i,
        {
            assert(p0.sprite_slot(m, ppu_ctrl, i as int) is Some);
            if i <= self.nb_sprites {
                let (tile_high, tile_low, x, attr_byte) = self.sprite_slot(memory, ppu_ctrl, i);
                self.high_sprite_bmp_reg.set(i, tile_high);
                self.low_sprite_bmp_reg.set(i, tile_low);
                self.x_position_counters.set(i, x);
                self.x_position_offset.set(i, 0);
                self.is_active.set(i, false);
                self.sprite_attributes.set(i, attr_byte);
            } else {
                self.high_sprite_bmp_reg.set(i, 0);
                self.low_sprite_bmp_reg.set(i, 0);
                self.x_position_counters.set(i, 0);
                self.x_position_offset.set(i, 0);
                self.is_active.set(i, false);
                self.sprite_attributes.set(i, 0);
            }
            i = i + 1;
        }
        proof {
            let q = p0.spec_evaluate_sprites(m, ppu_ctrl).unwrap();
            assert(self@.high_sprite_bmp_reg =~= q.high_sprite_bmp_reg);
            assert(self@.low_sprite_bmp_reg =~= q.low_sprite_bmp_reg);
            assert(self@.x_position_counters =~= q.x_position_counters);
            assert(self@.sprite_attributes =~= q.sprite_attributes);
            assert(self@.x_position_offset =~= q.x_position_offset);
            assert(self@.is_active =~= q.is_active);
        }
    }

    fn sprite_phase(&mut self, memory: &mut Memory, ppu_ctrl: u8)
        requires
            old(self).wf(),
            old(memory).wf(),
            old(self)@.spec_sprite_phase(old(memory)@.ppu, ppu_ctrl) is Some,
        ensures
            final(self).wf(),
            final(memory).wf(),
            final(memory)@ == with_ppu(old(memory)@, final(memory)@.ppu),
            old(self)@.spec_sprite_phase(old(memory)@.ppu, ppu_ctrl) == Some((final(self)@, final(memory)@.ppu)),
    {
        if self.cycle == 1 {
            let mut i: usize = 0;
            while i < 32
                invariant
                    i <= 32,
                    self.wf(),
                    self@ == (PpuView { secondary_oam: self@.secondary_oam, ..old(self)@ }),
                    forall|j: int| 0 <= j < i ==> self.secondary_oam@[j] == 0,
                decreases 32 - i,
            {
                self.secondary_oam.set(i, 0);
                i = i + 1;
            }
            proof {
                assert(self.secondary_oam@ =~= Seq::new(32, |j: int| 0u8));
            }
            self.nb_sprites = 0;
        } else if self.cycle == 65 {
            self.scan_oam(memory, ppu_ctrl);
        } else if self.cycle >= 257 && self.cycle < 320 {
            memory.ppu_mem.oam_addr = 0;
        } else if self.cycle == 320 {
            self.evaluate_sprites(memory, ppu_ctrl);
        }
    }

    fn rendering_phase(&mut self, memory: &mut Memory, ppu_ctrl: u8, visible_line: bool, pre_render_line: bool, fetch_cycles: bool)
        requires
            old(self).wf(),
            old(memory).wf(),
            old(self)@.spec_rendering_phase(old(memory)@.ppu, ppu_ctrl, visible_line, pre_render_line, fetch_cycles) is Some,
        ensures
            final(self).wf(),
            final(memory).wf(),
            final(memory)@ == with_ppu(old(memory)@, final(memory)@.ppu),
            old(self)@.spec_rendering_phase(old(memory)@.ppu, ppu_ctrl, visible_line, pre_render_line, fetch_cycles)
                == Some((final(self)@, final(memory)@.ppu)),
    {
        if (visible_line || pre_render_line) && fetch_cycles {
            self.fetch_background(memory, ppu_ctrl);
        }
        if (visible_line || pre_render_line) && self.cycle == 257 {
            self.copy_horizontal_t(memory);
        }
        if pre_render_line && self.cycle >= 280 && self.cycle <= 304 {
            self.copy_vertical_t(memory);
        }
        if visible_line || pre_render_line {
            self.sprite_phase(memory, ppu_ctrl);
        }
    }

    fn vblank(&mut self, memory: &mut Memory, ppu_status: u8)
        requires
            old(memory).wf(),
        ensures
            final(memory).wf(),
            final(memory)@ == with_ppu(old(memory)@, final(memory)@.ppu),
            old(self)@.spec_vblank(old(memory)@.ppu, ppu_status) == (final(self)@, final(memory)@.ppu),
    {
        if self.line == 241 && self.cycle == 1 {
            memory.ppu_mem.update(RegisterType::PPUSTATUS, ppu_status | 0x80);
            self.display_flag = true;
        }
        if self.line == 261 && self.cycle == 1 {
            memory.ppu_mem.update(RegisterType::PPUSTATUS, ppu_status & !0x80u8);
            self.sprite_0_clear(memory);
        }
    }

    /// One PPU cycle.
    fn exec_cycle(&mut self, memory: &mut Memory)
        requires
            old(self).wf(),
            old(memory).wf(),
            old(self)@.spec_exec_cycle(old(memory)@.ppu) is Some,
        ensures
            final(self).wf(),
            final(memory).wf(),
            final(memory)@ == with_ppu(old(memory)@, final(memory)@.ppu),
            old(self)@.spec_exec_cycle(old(memory)@.ppu) == Some((final(self)@, final(memory)@.ppu)),
    {
        let ppu_mask = memory.ppu_mem.peek(RegisterType::PPUMASK);
        let ppu_status = memory.ppu_mem.peek(RegisterType::PPUSTATUS);
        let ppu_ctrl = memory.ppu_mem.peek(RegisterType::PPUCTRL);
        let render_bg = ((ppu_mask >> 3u8) & 1) == 1;
        let render_sprite = ((ppu_mask >> 4u8) & 1) == 1;
        let rendering_enabled = render_bg || render_sprite;

        self.tick(rendering_enabled);

        let visible_line = self.line < 240;
        let pre_render_line = self.line == 261;
        let fetch_cycles = (self.cycle > 0 && self.cycle <= 256) || (self.cycle >= 321 && self.cycle < 337);
        let pixel_cycles = (self.cycle > 0 && self.cycle <= 256) && visible_line;

        if self.line == 241 {
            memory.ppu_mem.is_rendering = false;
        } else if self.line == 0 {
            memory.ppu_mem.is_rendering = true;
        }

        if visible_line && rendering_enabled && pixel_cycles {
            self.count_down();
            self.render_pixel(memory, render_bg, render_sprite);
        }

        if rendering_enabled {
            self.rendering_phase(memory, ppu_ctrl, visible_line, pre_render_line, fetch_cycles);
        }

        self.vblank(memory, ppu_status);
    }

    /// Runs `cycles_to_exec` PPU cycles.
    pub fn next(&mut self, cycles_to_exec: u64, memory: &mut Memory, debug: bool) -> (r: Result<(), &'static str>)
        requires
            old(self).wf(),
            old(memory).wf(),
            (PpuView { debug, ..old(self)@ }).spec_run(old(memory)@.ppu, cycles_to_exec as nat) is Some,
        ensures
            final(self).wf(),
            final(memory).wf(),
            r is Ok,
            final(memory)@ == with_ppu(old(memory)@, final(memory)@.ppu),
            (PpuView { debug, ..old(self)@ }).spec_run(old(memory)@.ppu, cycles_to_exec as nat)
                == Some((final(self)@, final(memory)@.ppu)),
    {
        self.debug = debug;
        let ghost target = self@.spec_run(memory@.ppu, cycles_to_exec as nat);
        let mut i: u64 = 0;
        while i < cycles_to_exec
            invariant
                i <= cycles_to_exec,
                self.wf(),
                memory.wf(),
                memory@ == with_ppu(old(memory)@, memory@.ppu),
                target == (PpuView { debug, ..old(self)@ }).spec_run(old(memory)@.ppu, cycles_to_exec as nat),
                target is Some,
                self@.spec_run(memory@.ppu, (cycles_to_exec - i) as nat) == target,
            decreases cycles_to_exec - i,
        {
            self.exec_cycle(memory);
            i = i + 1;
        }
        Ok(())
    }
}


/// The priority carried by the sprite pixel of a scan is bit 5 of the
/// attribute byte of one of the sprite slots scanned.
pub proof fn lemma_sprite_pixel_priority(p: PpuView, m: PpuState, has_bg: bool, n: int)
    requires
        p.wf(),
        0 <= n <= 8,
    ensures
        p.sprite_scan(m, has_bg, n).pixel matches Some((r, g, b, prio)) ==> exists|i: int|
            0 <= i < n && prio == #[trigger] p.sprite_attributes[i] / 32 % 2,
    decreases n,
{
    if n > 0 {
        lemma_sprite_pixel_priority(p, m, has_bg, n - 1);
        let attr = p.sprite_attributes[n - 1];
        assert((attr >> 5u8) & 1 == attr / 32 % 2) by (bit_vector);
        let prev = p.sprite_scan(m, has_bg, n - 1);
        if prev.pixel is Some {
            let (r, g, b, prio) = prev.pixel.unwrap();
            let i = choose|i: int| 0 <= i < n - 1 && prio == #[trigger] p.sprite_attributes[i] / 32 % 2;
            assert(0 <= i < n && prio == p.sprite_attributes[i] / 32 % 2);
        }
    }
}

/// Sprite priority law: where a shown sprite has an opaque pixel, a
/// front-priority sprite (attribute bit 5 clear, priority 0) is drawn in
/// its own color whatever the background; a back-priority sprite (priority
/// 1) is drawn only where the background pixel is transparent, and over an
/// opaque background the output is exactly the pixel drawn with sprite
/// rendering off.
pub proof fn lemma_sprite_priority(p: PpuView, m: PpuState, render_bg: bool)
    requires
        p.wf(),
        p.line < 240,
        1 <= p.cycle <= 256,
        !((m.ppumask >> 2u8) & 1 == 1 && p.cycle <= 8),
        p.sprite_scan(m, p.bg_pixel(m.x) != 0, 8).pixel is Some,
    ensures
        ({
            let (r, g, b, prio) = p.sprite_scan(m, p.bg_pixel(m.x) != 0, 8).pixel.unwrap();
            let idx = 256 * p.line + p.cycle - 1;
            let out = p.spec_render_pixel(m, render_bg, true).0.pixels[idx];
            let no_sprites = p.spec_render_pixel(m, render_bg, false).0.pixels[idx];
            &&& prio == 0 ==> out == (r, g, b)
            &&& prio == 1 && p.bg_pixel(m.x) == 0 ==> out == (r, g, b)
            &&& prio == 1 && p.bg_pixel(m.x) != 0 ==> out == no_sprites
        }),
{
}

/// Timing law: each tick moves one cycle along a line; after cycle 340 the
/// next line starts (line 261 wraps to 0) at cycle 0, or at cycle 1 on
/// line 0 of an odd frame with rendering on.
pub proof fn lemma_tick(p: PpuView, is_rendering: bool)
    requires
        p.wf(),
    ensures
        p.spec_tick(is_rendering).wf(),
        p.cycle < 340 ==> p.spec_tick(is_rendering).cycle == p.cycle + 1
            && p.spec_tick(is_rendering).line == p.line,
        p.cycle == 340 ==> p.spec_tick(is_rendering).line == (p.line + 1) % 262
            && p.spec_tick(is_rendering).odd_frame == !p.odd_frame
            && p.spec_tick(is_rendering).cycle == (if !p.odd_frame && p.line == 261 && is_rendering { 1usize } else { 0usize }),
{
}

/// Vertical-blank law: the cycle that reaches line 241, cycle 1 sets the
/// vblank flag, marks the frame ready, and raises NMI exactly when PPUCTRL
/// enables it.
pub proof fn lemma_vblank_start(p: PpuView, m: PpuState)
    requires
        p.wf(),
        m.wf(),
        p.line == 241,
        p.cycle == 0,
    ensures
        p.spec_exec_cycle(m) is Some,
        ({
            let (q, n) = p.spec_exec_cycle(m).unwrap();
            &&& q.display_flag
            &&& n.ppustatus & 0x80 == 0x80
            &&& n.nmi == (m.ppuctrl & 0x80 == 0x80)
            &&& !n.is_rendering
        }),
{
    let st = m.ppustatus;
    lemma_byte(st);
}

/// End of the vertical blank: the cycle that reaches line 261, cycle 1
/// clears the vblank and sprite-0 flags, so no NMI is pending.
pub proof fn lemma_vblank_end(p: PpuView, m: PpuState)
    requires
        p.wf(),
        m.wf(),
        p.line == 261,
        p.cycle == 0,
    ensures
        p.spec_exec_cycle(m) is Some,
        ({
            let (q, n) = p.spec_exec_cycle(m).unwrap();
            &&& n.ppustatus & 0xC0 == 0
            &&& !n.nmi
        }),
{
    let st = m.ppustatus;
    lemma_byte(st);
}

/// Coarse-X law: below 31 coarse X just increments; at 31 it wraps to 0
/// and the horizontal nametable bit flips; nothing else in `v` changes.
pub proof fn lemma_coarse_x_increment(v: u16)
    by (bit_vector)
    ensures
        v & 0x1F < 31 ==> spec_coarse_x_increment(v) & 0x1F == (v & 0x1F) + 1
            && spec_coarse_x_increment(v) & !0x1Fu16 == v & !0x1Fu16,
        v & 0x1F == 31 ==> spec_coarse_x_increment(v) & 0x1F == 0
            && spec_coarse_x_increment(v) & 0x400 != v & 0x400
            && spec_coarse_x_increment(v) & !0x41Fu16 == v & !0x41Fu16,
{

}

/// Fine-Y law: below 7 fine Y just increments and nothing else changes;
/// at 7 it wraps to 0 and coarse Y moves on (29 wraps to 0 and flips the
/// vertical nametable bit); coarse X and the horizontal nametable bit
/// never change.
pub proof fn lemma_y_increment(v: u16)
    by (bit_vector)
    ensures
        spec_y_increment(v) & 0x41F == v & 0x41F,
        v & 0x7000 != 0x7000 ==> spec_y_increment(v) == v + 0x1000,
        v & 0x7000 == 0x7000 ==> spec_y_increment(v) & 0x7000 == 0,
        v & 0x7000 == 0x7000 && (v & 0x3E0) >> 5u16 < 29 ==>
            (spec_y_increment(v) & 0x3E0) >> 5u16 == ((v & 0x3E0) >> 5u16) + 1
            && spec_y_increment(v) & 0x800 == v & 0x800,
        v & 0x7000 == 0x7000 && (v & 0x3E0) >> 5u16 == 29 ==>
            spec_y_increment(v) & 0x3E0 == 0 && spec_y_increment(v) & 0x800 != v & 0x800,
{

}

/// Scroll-copy law: the horizontal copy takes coarse X and the horizontal
/// nametable bit from `t` and keeps the rest of `v`; the vertical copy does
/// the same with fine Y, coarse Y and the vertical nametable bit.
pub proof fn lemma_copy_t(v: u16, t: u16)
    by (bit_vector)
    ensures
        spec_copy_horizontal_t(v, t) & 0x041F == t & 0x041F,
        spec_copy_horizontal_t(v, t) & !0x041Fu16 == v & !0x041Fu16,
        spec_copy_vertical_t(v, t) & 0x7BE0 == t & 0x7BE0,
        spec_copy_vertical_t(v, t) & !0x7BE0u16 == v & !0x7BE0u16,
{

}

} // verus!
