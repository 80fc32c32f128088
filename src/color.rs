//! Colors of shapes and their projection to a pixel value of a given depth.
//!
//! A color is either one of a fixed palette, an explicit `RGB`/`RGBA` value,
//! or `TRANSPARENT`, which has no pixel meaning of its own: the render plan
//! uses it to cut a region out of the overlay's bounding mask.
use vstd::prelude::*;

verus! {

/// The red channel of a packed `0xAARRGGBB` value.
pub open spec fn red(v: u32) -> u32 {
    (v >> 16u32) & 0xFFu32
}

/// The green channel of a packed `0xAARRGGBB` value.
pub open spec fn green(v: u32) -> u32 {
    (v >> 8u32) & 0xFFu32
}

/// The blue channel of a packed `0xAARRGGBB` value.
pub open spec fn blue(v: u32) -> u32 {
    v & 0xFFu32
}

/// Packs three channels as `0xRRGGBB`.
pub open spec fn pack_rgb(r: u32, g: u32, b: u32) -> u32 {
    (r << 16u32) | (g << 8u32) | b
}

/// The 32-bit (opaque ARGB) pixel value of a packed color.
pub open spec fn rgba_of(v: u32) -> u32 {
    0xFF00_0000u32 | pack_rgb(red(v), green(v), blue(v))
}

/// The 24-bit pixel value of a packed color: the alpha channel dropped.
pub open spec fn rgb_of(v: u32) -> u32 {
    pack_rgb(red(v), green(v), blue(v))
}

/// The 16-bit pixel value: five bits per channel, the top bit unused.
pub open spec fn high_color_of(v: u32) -> u32 {
    ((red(v) >> 3u32) << 10u32) | ((green(v) >> 3u32) << 5u32) | (blue(v) >> 3u32)
}

/// The 8-bit pixel value: the grey level, mean of the three channels.
pub open spec fn gray_of(v: u32) -> int {
    (red(v) + green(v) + blue(v)) / 3
}

/// The 1-bit pixel value: set exactly when the packed value is not zero.
pub open spec fn mask_bit_of(v: u32) -> u32 {
    if v > 0 { 1 } else { 0 }
}

/// Converts a packed RGB value to an opaque ARGB value.
pub fn to_rgba(value: u32) -> (r: u32)
    ensures
        r == rgba_of(value),
{
    let r = (value >> 16) & 0xFF;
    let g = (value >> 8) & 0xFF;
    let b = value & 0xFF;
    let res = 0xFF00_0000u32 | ((r << 16) | (g << 8) | b);
    res
}

/// Converts a packed ARGB value to an RGB value without alpha.
pub fn to_rgb(value: u32) -> (r: u32)
    ensures
        r == rgb_of(value),
{
    let r = (value >> 16) & 0xFF;
    let g = (value >> 8) & 0xFF;
    let b = value & 0xFF;
    (r << 16) | (g << 8) | b
}

/// Converts a packed value to a 16-bit (5-5-5) pixel value.
pub fn to_16bit(value: u32) -> (r: u32)
    ensures
        r == high_color_of(value),
        r < 0x8000,
{
    let r = (value >> 16) & 0xFF;
    let g = (value >> 8) & 0xFF;
    let b = value & 0xFF;
    let res = ((r >> 3) << 10) | ((g >> 3) << 5) | ((b >> 3) & 0x7FFF);
    assert(r < 256 && g < 256 && b < 256) by (bit_vector)
        requires
            r == (value >> 16u32) & 0xFFu32,
            g == (value >> 8u32) & 0xFFu32,
            b == value & 0xFFu32,
    ;
    assert(((b >> 3u32) & 0x7FFFu32) == (b >> 3u32)) by (bit_vector)
        requires
            b < 256,
    ;
    assert(((r >> 3u32) << 10u32) | ((g >> 3u32) << 5u32) | (b >> 3u32) < 0x8000u32) by (bit_vector)
        requires
            r < 256 && g < 256 && b < 256,
    ;
    res
}

/// Converts a packed value to an 8-bit grey level.
pub fn to_8bit(value: u32) -> (r: u32)
    ensures
        r == gray_of(value),
        r < 256,
{
    let r = (value >> 16) & 0xFF;
    let g = (value >> 8) & 0xFF;
    let b = value & 0xFF;
    assert(((value >> 16u32) & 0xFFu32) < 256 && ((value >> 8u32) & 0xFFu32) < 256 && (value
        & 0xFFu32) < 256) by (bit_vector);
    let gray = (r + g + b) / 3;
    assert(gray & 0xFFu32 == gray) by (bit_vector)
        requires
            gray < 256,
    ;
    gray & 0xFF
}

/// Converts a packed value to a 1-bit mask value.
pub fn to_1bit(value: u32) -> (r: u32)
    ensures
        r == mask_bit_of(value),
{
    if value > 0 {
        1
    } else {
        0
    }
}

/// The pixel depth of a drawable, in bits per pixel.
#[derive(Debug, PartialEq, Eq, Structural, Clone, Copy)]
pub enum Depth {
    D1,
    D8,
    D16,
    D24,
    D32,
}

/// The number of bits per pixel of a depth.
pub open spec fn depth_bits(d: Depth) -> u8 {
    match d {
        Depth::D1 => 1,
        Depth::D8 => 8,
        Depth::D16 => 16,
        Depth::D24 => 24,
        Depth::D32 => 32,
    }
}

/// The depth named by a bit count; any count that is not 1, 8, 16 or 24
/// stands for 32 bits.
pub open spec fn depth_from_bits(bits: u8) -> Depth {
    if bits == 1 {
        Depth::D1
    } else if bits == 8 {
        Depth::D8
    } else if bits == 16 {
        Depth::D16
    } else if bits == 24 {
        Depth::D24
    } else {
        Depth::D32
    }
}

/// The pixel value of a packed color at a depth.
pub open spec fn value_for_depth(value: u32, depth: Depth) -> u32 {
    match depth {
        Depth::D32 => rgba_of(value),
        Depth::D24 => rgb_of(value),
        Depth::D16 => high_color_of(value),
        Depth::D8 => gray_of(value) as u32,
        Depth::D1 => mask_bit_of(value),
    }
}

/// Converts a packed color to its pixel value at the given depth.
pub fn for_depth(value: u32, depth: &Depth) -> (r: u32)
    ensures
        r == value_for_depth(value, *depth),
{
    match depth {
        Depth::D32 => to_rgba(value),
        Depth::D24 => to_rgb(value),
        Depth::D16 => to_16bit(value),
        Depth::D8 => to_8bit(value),
        Depth::D1 => to_1bit(value),
    }
}

impl Depth {
    /// The depth of the given bit count (32 bits for an unknown count).
    pub fn from(depth: u8) -> (r: Self)
        ensures
            r == depth_from_bits(depth),
    {
        match depth {
            1 => Depth::D1,
            8 => Depth::D8,
            16 => Depth::D16,
            24 => Depth::D24,
            _ => Depth::D32,
        }
    }

    /// The number of bits per pixel.
    pub fn value(&self) -> (r: u8)
        ensures
            r == depth_bits(*self),
    {
        match self {
            Depth::D1 => 1,
            Depth::D8 => 8,
            Depth::D16 => 16,
            Depth::D24 => 24,
            Depth::D32 => 32,
        }
    }
}

/// A color of a shape.
#[derive(Debug, PartialEq, Eq, Structural, Clone, Copy)]
pub enum Color {
    BLACK,
    BLUE,
    BROWN,
    CYAN,
    GRAY,
    GREEN,
    INDIGO,
    LIME,
    MAGENTA,
    NAVY,
    ORANGE,
    PINK,
    PURPLE,
    RED,
    RGB(u8, u8, u8),
    RGBA(u8, u8, u8, u8),
    SILVER,
    TRANSPARENT,
    WHITE,
    YELLOW,
}

/// The packed `0xRRGGBB` value of a palette color.
pub open spec fn palette_rgb(c: Color) -> u32 {
    match c {
        Color::BLACK => 0x000000,
        Color::BLUE => 0x0000FF,
        Color::BROWN => 0xA52A2A,
        Color::CYAN => 0x00FFFF,
        Color::GRAY => 0x808080,
        Color::GREEN => 0x008000,
        Color::INDIGO => 0x4B0082,
        Color::LIME => 0x00FF00,
        Color::MAGENTA => 0xFF00FF,
        Color::NAVY => 0x000080,
        Color::ORANGE => 0xFFA500,
        Color::PINK => 0xFFC0CB,
        Color::PURPLE => 0x800080,
        Color::RED => 0xFF0000,
        Color::SILVER => 0xC0C0C0,
        Color::WHITE => 0xFFFFFF,
        Color::YELLOW => 0xFFFF00,
        _ => 0,
    }
}

/// The pixel value of a color at a depth. Palette and `RGB` colors are
/// projected to the depth (opaque at 32 bits); an `RGBA` color keeps its
/// own alpha at 32 bits and is projected like its RGB part at the other
/// depths; `TRANSPARENT` is zero.
pub open spec fn color_value(c: Color, depth: Depth) -> u32 {
    match c {
        Color::RGB(r, g, b) => value_for_depth(pack_rgb(r as u32, g as u32, b as u32), depth),
        Color::RGBA(r, g, b, a) => {
            if depth == Depth::D32 {
                ((a as u32) << 24u32) | pack_rgb(r as u32, g as u32, b as u32)
            } else {
                value_for_depth(pack_rgb(r as u32, g as u32, b as u32), depth)
            }
        },
        Color::TRANSPARENT => 0,
        _ => value_for_depth(palette_rgb(c), depth),
    }
}

impl Color {
    /// An explicit RGB color.
    pub fn new_rgb(r: u8, g: u8, b: u8) -> (c: Self)
        ensures
            c == Color::RGB(r, g, b),
    {
        Color::RGB(r, g, b)
    }

    /// An explicit RGBA color.
    pub fn new_rgba(r: u8, g: u8, b: u8, a: u8) -> (c: Self)
        ensures
            c == Color::RGBA(r, g, b, a),
    {
        Color::RGBA(r, g, b, a)
    }

    /// The pixel value of this color at the given depth.
    pub fn value(&self, depth: &Depth) -> (r: u32)
        ensures
            r == color_value(*self, *depth),
    {
        match self {
            Color::BLACK => for_depth(0x000000, depth),
            Color::BLUE => for_depth(0x0000FF, depth),
            Color::BROWN => for_depth(0xA52A2A, depth),
            Color::CYAN => for_depth(0x00FFFF, depth),
            Color::GRAY => for_depth(0x808080, depth),
            Color::GREEN => for_depth(0x008000, depth),
            Color::INDIGO => for_depth(0x4B0082, depth),
            Color::LIME => for_depth(0x00FF00, depth),
            Color::MAGENTA => for_depth(0xFF00FF, depth),
            Color::NAVY => for_depth(0x000080, depth),
            Color::ORANGE => for_depth(0xFFA500, depth),
            Color::PINK => for_depth(0xFFC0CB, depth),
            Color::PURPLE => for_depth(0x800080, depth),
            Color::RED => for_depth(0xFF0000, depth),
            Color::RGB(r, g, b) => {
                for_depth(((*r as u32) << 16) | ((*g as u32) << 8) | (*b as u32), depth)
            },
            Color::RGBA(r, g, b, a) => {
                let rgb = ((*r as u32) << 16) | ((*g as u32) << 8) | (*b as u32);
                match depth {
                    Depth::D32 => ((*a as u32) << 24) | rgb,
                    _ => for_depth(rgb, depth),
                }
            },
            Color::SILVER => for_depth(0xC0C0C0, depth),
            Color::TRANSPARENT => 0,
            Color::WHITE => for_depth(0xFFFFFF, depth),
            Color::YELLOW => for_depth(0xFFFF00, depth),
        }
    }

    /// This color as `RGBA` with the given alpha: its red, green and blue
    /// channels are those of its 24-bit value.
    pub fn with_alpha(&self, alpha: u8) -> (c: Self)
        ensures
            c == Color::RGBA(
                red(color_value(*self, Depth::D24)) as u8,
                green(color_value(*self, Depth::D24)) as u8,
                blue(color_value(*self, Depth::D24)) as u8,
                alpha,
            ),
    {
        let raw = self.value(&Depth::D24);
        let r = (raw >> 16) & 0xFF;
        let g = (raw >> 8) & 0xFF;
        let b = raw & 0xFF;
        Color::new_rgba(r as u8, g as u8, b as u8, alpha)
    }
}

} // verus!
