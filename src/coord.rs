//! Fractional coordinates and sizes.
//!
//! Shape positions and sizes, and the offsets of a `Percent` mapping, are
//! fractions of a drawable's pixel extent. They are stored as signed 16.16
//! fixed-point numbers: `FRAC_ONE` stands for the whole extent, so
//! `(FRAC_ONE / 2, FRAC_ONE / 2)` is the middle of the drawable. This is the
//! same encoding the input extension uses for pointer coordinates.
use vstd::prelude::*;
use crate::vec::{Vec2, div_trunc};

verus! {

/// The fixed-point value that stands for a whole extent (1.0).
pub const FRAC_ONE: i32 = 65536;

/// A position, as fractions of a drawable's extent.
pub type Coord = Vec2<i32>;

/// A size, as fractions of a drawable's extent.
pub type Size = Vec2<i32>;

/// Clamps an integer into the `i32` range.
pub open spec fn clamp_i32(v: int) -> i32 {
    if v < i32::MIN {
        i32::MIN
    } else if v > i32::MAX {
        i32::MAX
    } else {
        v as i32
    }
}

/// Clamps an integer into the `i16` range, as a saturating cast does.
pub open spec fn clamp_i16(v: int) -> i16 {
    if v < i16::MIN {
        i16::MIN
    } else if v > i16::MAX {
        i16::MAX
    } else {
        v as i16
    }
}

/// Clamps an integer into the `u16` range, as a saturating cast does.
pub open spec fn clamp_u16(v: int) -> u16 {
    if v < 0 {
        0
    } else if v > u16::MAX {
        u16::MAX
    } else {
        v as u16
    }
}

/// The pixel offset of the fraction `f` of an extent of `extent` pixels,
/// truncated toward zero.
pub open spec fn pixels_of(f: int, extent: int) -> int {
    div_trunc(f * extent, FRAC_ONE as int)
}

/// The fraction `f` of an extent of `extent` pixels, in 16.16 fixed-point
/// pixels (saturating at the `i32` range).
pub open spec fn real_of(f: int, extent: int) -> i32 {
    clamp_i32(f * extent)
}

/// Saturating conversion to `i32`.
pub fn sat_i32(v: i64) -> (r: i32)
    ensures
        r == clamp_i32(v as int),
{
    if v < i32::MIN as i64 {
        i32::MIN
    } else if v > i32::MAX as i64 {
        i32::MAX
    } else {
        v as i32
    }
}

/// Saturating conversion to `i16`.
pub fn sat_i16(v: i32) -> (r: i16)
    ensures
        r == clamp_i16(v as int),
{
    if v < i16::MIN as i32 {
        i16::MIN
    } else if v > i16::MAX as i32 {
        i16::MAX
    } else {
        v as i16
    }
}

/// Saturating conversion to `u16`.
pub fn sat_u16(v: i32) -> (r: u16)
    ensures
        r == clamp_u16(v as int),
{
    if v < 0 {
        0
    } else if v > u16::MAX as i32 {
        u16::MAX
    } else {
        v as u16
    }
}

/// `a / b` truncated toward zero, for a positive divisor.
pub fn div_trunc_i64(a: i64, b: i64) -> (r: i64)
    requires
        b > 0,
        a > i64::MIN,
    ensures
        r == div_trunc(a as int, b as int),
{
    if a >= 0 {
        (a as u64 / b as u64) as i64
    } else {
        -(((-a) as u64 / b as u64) as i64)
    }
}

/// The pixel offset of the fraction `f` of an extent of `extent` pixels,
/// truncated toward zero.
pub fn to_pixels(f: i32, extent: u16) -> (r: i32)
    ensures
        r == pixels_of(f as int, extent as int),
{
    assert(-0x8000_0000_0000 < (f as int) * (extent as int) < 0x8000_0000_0000) by (nonlinear_arith)
        requires
            i32::MIN <= f <= i32::MAX,
            0 <= extent <= u16::MAX,
    ;
    let p = (f as i64) * (extent as i64);
    let q = div_trunc_i64(p, FRAC_ONE as i64);
    proof {
        let fa = f as int;
        let e = extent as int;
        if fa >= 0 {
            assert(fa * e / 65536 <= fa) by (nonlinear_arith)
                requires
                    fa >= 0,
                    0 <= e < 65536,
            ;
            assert(fa * e / 65536 >= 0) by (nonlinear_arith)
                requires
                    fa >= 0,
                    0 <= e,
            ;
        } else {
            assert((-fa) * e / 65536 <= -fa) by (nonlinear_arith)
                requires
                    fa < 0,
                    0 <= e < 65536,
            ;
            assert((-fa) * e / 65536 >= 0) by (nonlinear_arith)
                requires
                    fa < 0,
                    0 <= e,
            ;
            assert(-(fa * e) == (-fa) * e) by (nonlinear_arith);
        }
    }
    q as i32
}

/// The fraction `f` of an extent of `extent` pixels, in 16.16 fixed-point
/// pixels.
pub fn to_real(f: i32, extent: u16) -> (r: i32)
    ensures
        r == real_of(f as int, extent as int),
{
    assert(-0x8000_0000_0000 < (f as int) * (extent as int) < 0x8000_0000_0000) by (nonlinear_arith)
        requires
            i32::MIN <= f <= i32::MAX,
            0 <= extent <= u16::MAX,
    ;
    sat_i32((f as i64) * (extent as i64))
}

/// A point of a shape that its position refers to.
#[derive(Debug, PartialEq, Eq, Structural, Clone, Copy)]
pub enum Anchor {
    Center,
    North,
    NorthEast,
    East,
    SouthEast,
    South,
    SouthWest,
    West,
    NorthWest,
    /// An offset from the shape's top left corner.
    Custom(i32, i32),
}

/// The offset of an anchor from the top left corner of a shape of the
/// given width and height.
pub open spec fn anchor_delta(anchor: Anchor, width: i32, height: i32) -> (i32, i32) {
    let hw = div_trunc(width as int, 2) as i32;
    let hh = div_trunc(height as int, 2) as i32;
    match anchor {
        Anchor::NorthWest => (0, 0),
        Anchor::North => (hw, 0),
        Anchor::NorthEast => (width, 0),
        Anchor::East => (width, hh),
        Anchor::SouthEast => (width, height),
        Anchor::South => (hw, height),
        Anchor::SouthWest => (0, height),
        Anchor::West => (0, hh),
        Anchor::Center => (hw, hh),
        Anchor::Custom(x, y) => (x, y),
    }
}

impl Anchor {
    /// The offset of this anchor from the top left corner of a shape of the
    /// given width and height.
    pub fn delta(&self, width: i32, height: i32) -> (r: (i32, i32))
        ensures
            r == anchor_delta(*self, width, height),
    {
        let hw: i32 = std::ops::Div::div(width, 2);
        let hh: i32 = std::ops::Div::div(height, 2);
        match self {
            Anchor::NorthWest => (0, 0),
            Anchor::North => (hw, 0),
            Anchor::NorthEast => (width, 0),
            Anchor::East => (width, hh),
            Anchor::SouthEast => (width, height),
            Anchor::South => (hw, height),
            Anchor::SouthWest => (0, height),
            Anchor::West => (0, hh),
            Anchor::Center => (hw, hh),
            Anchor::Custom(x, y) => (*x, *y),
        }
    }
}

impl Default for Anchor {
    fn default() -> (r: Self)
        ensures
            r == Anchor::NorthWest,
    {
        Anchor::NorthWest
    }
}

/// The top left corner of a shape at `pos` with anchor `anchor` and size
/// `size`.
pub open spec fn top_left_of(pos: Coord, anchor: Anchor, size: Size) -> Coord {
    let d = anchor_delta(anchor, size.x, size.y);
    Vec2 { x: clamp_i32(pos.x - d.0), y: clamp_i32(pos.y - d.1) }
}

impl Vec2<i32> {
    /// The offset of `anchor` from the top left corner of a shape of size
    /// `size`.
    pub fn from_anchor(anchor: &Anchor, size: &Size) -> (r: Coord)
        ensures
            r.x == anchor_delta(*anchor, size.x, size.y).0,
            r.y == anchor_delta(*anchor, size.x, size.y).1,
    {
        let (dx, dy) = anchor.delta(size.x, size.y);
        Vec2 { x: dx, y: dy }
    }

    /// The top left corner of a shape placed at this position, with the
    /// given anchor and size (saturating at the `i32` range).
    pub fn top_left(&self, anchor: &Anchor, size: &Size) -> (r: Coord)
        ensures
            r == top_left_of(*self, *anchor, *size),
    {
        let delta = Self::from_anchor(anchor, size);
        Vec2 {
            x: sat_i32(self.x as i64 - delta.x as i64),
            y: sat_i32(self.y as i64 - delta.y as i64),
        }
    }

    /// This position in 16.16 fixed-point pixels of a drawable of the
    /// given size (saturating at the `i32` range).
    pub fn to_real_coord(&self, size: Vec2<u16>) -> (r: Vec2<i32>)
        ensures
            r.x == real_of(self.x as int, size.x as int),
            r.y == real_of(self.y as int, size.y as int),
    {
        Vec2 { x: to_real(self.x, size.x), y: to_real(self.y, size.y) }
    }

    /// This size in 16.16 fixed-point pixels of a drawable of the given
    /// size (saturating at the `i32` range).
    pub fn to_real_size(&self, size: Vec2<u16>) -> (r: Vec2<i32>)
        ensures
            r.x == real_of(self.x as int, size.x as int),
            r.y == real_of(self.y as int, size.y as int),
    {
        Vec2 { x: to_real(self.x, size.x), y: to_real(self.y, size.y) }
    }
}

} // verus!
