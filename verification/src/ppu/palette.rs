//! The NES master palette and palette-RAM lookups.
use vstd::prelude::*;
use crate::bits::{lemma_byte, lemma_word};
use crate::graphic::Color;

verus! {

/// Index of black in the master palette.
pub const BLACK_INDEX: u8 = 0x0D;

/// The four colors of one background or sprite palette.
#[derive(Debug)]
pub struct Palette {
    pub background: Color,
    pub color1: Color,
    pub color2: Color,
    pub color3: Color,
}

/// The 64 colors of the 2C02 master palette, by index.
pub open spec fn default_colors() -> Seq<Color> {
    seq![
        Color { r: 84, g: 84, b: 84 },
        Color { r: 0, g: 30, b: 116 },
        Color { r: 8, g: 16, b: 144 },
        Color { r: 48, g: 0, b: 136 },
        Color { r: 68, g: 0, b: 100 },
        Color { r: 92, g: 0, b: 48 },
        Color { r: 84, g: 4, b: 0 },
        Color { r: 60, g: 24, b: 0 },
        Color { r: 32, g: 42, b: 0 },
        Color { r: 8, g: 58, b: 0 },
        Color { r: 0, g: 64, b: 0 },
        Color { r: 0, g: 60, b: 0 },
        Color { r: 0, g: 50, b: 60 },
        Color { r: 0, g: 0, b: 0 },
        Color { r: 0, g: 0, b: 0 },
        Color { r: 0, g: 0, b: 0 },
        Color { r: 152, g: 150, b: 152 },
        Color { r: 8, g: 76, b: 196 },
        Color { r: 48, g: 50, b: 236 },
        Color { r: 92, g: 30, b: 228 },
        Color { r: 136, g: 20, b: 176 },
        Color { r: 160, g: 20, b: 100 },
        Color { r: 152, g: 34, b: 32 },
        Color { r: 120, g: 60, b: 0 },
        Color { r: 84, g: 90, b: 0 },
        Color { r: 40, g: 114, b: 0 },
        Color { r: 8, g: 124, b: 0 },
        Color { r: 0, g: 118, b: 40 },
        Color { r: 0, g: 102, b: 120 },
        Color { r: 0, g: 0, b: 0 },
        Color { r: 0, g: 0, b: 0 },
        Color { r: 0, g: 0, b: 0 },
        Color { r: 236, g: 238, b: 236 },
        Color { r: 76, g: 154, b: 236 },
        Color { r: 120, g: 124, b: 236 },
        Color { r: 176, g: 98, b: 236 },
        Color { r: 228, g: 84, b: 236 },
        Color { r: 236, g: 88, b: 180 },
        Color { r: 236, g: 106, b: 100 },
        Color { r: 212, g: 136, b: 32 },
        Color { r: 160, g: 170, b: 0 },
        Color { r: 116, g: 196, b: 0 },
        Color { r: 76, g: 208, b: 32 },
        Color { r: 56, g: 204, b: 108 },
        Color { r: 56, g: 180, b: 204 },
        Color { r: 60, g: 60, b: 60 },
        Color { r: 0, g: 0, b: 0 },
        Color { r: 0, g: 0, b: 0 },
        Color { r: 236, g: 238, b: 236 },
        Color { r: 168, g: 204, b: 236 },
        Color { r: 188, g: 188, b: 236 },
        Color { r: 212, g: 178, b: 236 },
        Color { r: 236, g: 174, b: 236 },
        Color { r: 236, g: 174, b: 212 },
        Color { r: 236, g: 180, b: 176 },
        Color { r: 228, g: 196, b: 144 },
        Color { r: 204, g: 210, b: 120 },
        Color { r: 180, g: 222, b: 120 },
        Color { r: 168, g: 226, b: 144 },
        Color { r: 152, g: 226, b: 180 },
        Color { r: 160, g: 214, b: 228 },
        Color { r: 160, g: 162, b: 160 },
        Color { r: 0, g: 0, b: 0 },
        Color { r: 0, g: 0, b: 0 },
    ]
}

/// Universal background color: palette RAM entry 0.
pub fn get_bg_color(vram: &[u8], colors: &[Color; 64]) -> (c: Color)
    requires
        vram@.len() > 0,
        vram@[0] < 64,
    ensures
        c == colors@[vram@[0] as int],
{
    colors[vram[0] as usize]
}

/// Palette RAM entry for a background pixel: entry 0 for a transparent
/// pixel, else entry `4 * palette_number + pixel_value`.
pub fn get_color_index_bg(palette_number: u16, vram: &[u8], pixel_value: u16) -> (r: u8)
    requires
        vram@.len() > 0,
        pixel_value != 0 ==> 4 * palette_number + pixel_value < vram@.len(),
        pixel_value != 0 ==> 4 * palette_number + pixel_value <= 0xFFFF,
    ensures
        r == if pixel_value == 0 { vram@[0] } else { vram@[4 * palette_number + pixel_value] },
{
    if pixel_value == 0 {
        vram[0x00]
    } else {
        let idx = (4 * palette_number + pixel_value) as usize;
        vram[idx]
    }
}

/// Palette RAM entry (6 bits) for a sprite pixel; sprite palettes start
/// at entry 0x10 and the index wraps within the 32 entries.
pub fn get_color_index_sprite(palette_number: u8, vram: &[u8], pixel_value: u8) -> (r: u8)
    requires
        vram@.len() >= 32,
        0x10 + 4 * palette_number + pixel_value <= 0xFF,
    ensures
        r == vram@[((0x10 + 4 * palette_number + pixel_value) % 32) as int] % 64,
{
    let sum = 0x10 + 4 * palette_number + pixel_value;
    let idx = (sum & 0b11111) as usize;
    proof {
        lemma_byte(sum);
    }
    let v = vram[idx];
    proof {
        lemma_byte(v);
    }
    v & 0b111111
}

/// Master-palette color of a background pixel in palette `palette_number`.
pub fn get_bg_palette(
    palette_number: u16,
    vram: &[u8],
    colors: &[Color; 64],
    pixel_value: u16,
) -> (c: Color)
    requires
        vram@.len() >= 32,
        4 * palette_number + pixel_value <= 0xFFFF,
    ensures
        c == colors@[(vram@[((4 * palette_number + pixel_value) % 32) as int] % 64) as int],
{
    let sum = 4 * palette_number + pixel_value;
    let idx = (sum & 0b11111) as usize;
    proof {
        lemma_word(sum);
    }
    let v = vram[idx];
    proof {
        lemma_byte(v);
    }
    let vram_value = (v & 0b111111) as usize;
    colors[vram_value]
}

/// The four colors of sprite palette `palette_number` (0 to 3): the
/// universal background, then entries `0x11 + 4 * palette_number` onwards.
pub fn get_sprite_palette(palette_number: u8, vram: &[u8], colors: &[Color; 64]) -> (p: Palette)
    requires
        palette_number < 4,
        vram@.len() >= 0x14 + 4 * palette_number,
        vram@[0] < 64,
        vram@[0x11 + 4 * palette_number] < 64,
        vram@[0x12 + 4 * palette_number] < 64,
        vram@[0x13 + 4 * palette_number] < 64,
    ensures
        p.background == colors@[vram@[0] as int],
        p.color1 == colors@[vram@[0x11 + 4 * palette_number] as int],
        p.color2 == colors@[vram@[0x12 + 4 * palette_number] as int],
        p.color3 == colors@[vram@[0x13 + 4 * palette_number] as int],
{
    let background = colors[vram[0x00] as usize];
    let idx = 0x10 + 4 * (palette_number as usize) + 1;
    let color1 = colors[vram[idx] as usize];
    let color2 = colors[vram[idx + 1] as usize];
    let color3 = colors[vram[idx + 2] as usize];
    Palette { background, color1, color2, color3 }
}

/// The standard 2C02 master palette.
pub fn build_default_colors() -> (colors: [Color; 64])
    ensures
        colors@ == default_colors(),
{
    let colors = [
        Color::rgb(84, 84, 84),
        Color::rgb(0, 30, 116),
        Color::rgb(8, 16, 144),
        Color::rgb(48, 0, 136),
        Color::rgb(68, 0, 100),
        Color::rgb(92, 0, 48),
        Color::rgb(84, 4, 0),
        Color::rgb(60, 24, 0),
        Color::rgb(32, 42, 0),
        Color::rgb(8, 58, 0),
        Color::rgb(0, 64, 0),
        Color::rgb(0, 60, 0),
        Color::rgb(0, 50, 60),
        Color::rgb(0, 0, 0),
        Color::rgb(0, 0, 0),
        Color::rgb(0, 0, 0),
        Color::rgb(152, 150, 152),
        Color::rgb(8, 76, 196),
        Color::rgb(48, 50, 236),
        Color::rgb(92, 30, 228),
        Color::rgb(136, 20, 176),
        Color::rgb(160, 20, 100),
        Color::rgb(152, 34, 32),
        Color::rgb(120, 60, 0),
        Color::rgb(84, 90, 0),
        Color::rgb(40, 114, 0),
        Color::rgb(8, 124, 0),
        Color::rgb(0, 118, 40),
        Color::rgb(0, 102, 120),
        Color::rgb(0, 0, 0),
        Color::rgb(0, 0, 0),
        Color::rgb(0, 0, 0),
        Color::rgb(236, 238, 236),
        Color::rgb(76, 154, 236),
        Color::rgb(120, 124, 236),
        Color::rgb(176, 98, 236),
        Color::rgb(228, 84, 236),
        Color::rgb(236, 88, 180),
        Color::rgb(236, 106, 100),
        Color::rgb(212, 136, 32),
        Color::rgb(160, 170, 0),
        Color::rgb(116, 196, 0),
        Color::rgb(76, 208, 32),
        Color::rgb(56, 204, 108),
        Color::rgb(56, 180, 204),
        Color::rgb(60, 60, 60),
        Color::rgb(0, 0, 0),
        Color::rgb(0, 0, 0),
        Color::rgb(236, 238, 236),
        Color::rgb(168, 204, 236),
        Color::rgb(188, 188, 236),
        Color::rgb(212, 178, 236),
        Color::rgb(236, 174, 236),
        Color::rgb(236, 174, 212),
        Color::rgb(236, 180, 176),
        Color::rgb(228, 196, 144),
        Color::rgb(204, 210, 120),
        Color::rgb(180, 222, 120),
        Color::rgb(168, 226, 144),
        Color::rgb(152, 226, 180),
        Color::rgb(160, 214, 228),
        Color::rgb(160, 162, 160),
        Color::rgb(0, 0, 0),
        Color::rgb(0, 0, 0),
    ];
    proof {
        assert(colors@ =~= default_colors());
    }
    colors
}

} // verus!
