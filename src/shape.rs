//! Shapes drawn into the overlay: rectangles, arcs and text.
//!
//! Every shape has an anchor, a fractional position and size (see
//! `coord`), a foreground and a background color. `Shape` is the closed set
//! of kinds that the render plan knows how to draw.
use vstd::prelude::*;
use crate::color::Color;
use crate::coord::{Anchor, Coord, Size};
use crate::vec::Vec2;

verus! {

/// A full turn, in the 64ths of a degree that arc angles are measured in.
pub const FULL_TURN: i16 = 23040;

/// A rectangle, filled or outlined.
#[derive(Debug, PartialEq, Eq, Structural, Clone, Copy)]
pub struct Rectangle {
    pub anchor: Anchor,
    pub position: Coord,
    pub size: Size,
    pub forground: Color,
    pub background: Color,
    pub filled: bool,
}

impl Rectangle {
    /// A filled rectangle of one color.
    pub fn fill(anchor: Anchor, position: Coord, size: Size, color: Color) -> (r: Self)
        ensures
            r == (Rectangle {
                anchor,
                position,
                size,
                forground: color,
                background: color,
                filled: true,
            }),
    {
        Rectangle { anchor, position, size, forground: color, background: color, filled: true }
    }

    /// An outlined rectangle.
    pub fn new(anchor: Anchor, position: Coord, size: Size, forground: Color, background: Color) -> (r: Self)
        ensures
            r == (Rectangle { anchor, position, size, forground, background, filled: false }),
    {
        Rectangle { anchor, position, size, forground, background, filled: false }
    }

    /// The anchor.
    pub fn anchor(&self) -> (r: Anchor)
        ensures
            r == self.anchor,
    {
        self.anchor
    }

    /// Replaces the anchor.
    pub fn set_anchor(&mut self, anchor: Anchor)
        ensures
            *final(self) == (Rectangle { anchor, ..*old(self) }),
    {
        self.anchor = anchor;
    }

    /// The position.
    pub fn position(&self) -> (r: Coord)
        ensures
            r == self.position,
    {
        self.position
    }

    /// Replaces the position.
    pub fn set_position(&mut self, position: Coord)
        ensures
            *final(self) == (Rectangle { position, ..*old(self) }),
    {
        self.position = position;
    }

    /// The size.
    pub fn size(&self) -> (r: Size)
        ensures
            r == self.size,
    {
        self.size
    }

    /// Replaces the size.
    pub fn set_size(&mut self, size: Size)
        ensures
            *final(self) == (Rectangle { size, ..*old(self) }),
    {
        self.size = size;
    }

    /// Replaces the foreground color.
    pub fn set_forground_color(&mut self, color: Color)
        ensures
            *final(self) == (Rectangle { forground: color, ..*old(self) }),
    {
        self.forground = color;
    }

    /// Replaces the background color.
    pub fn set_background_color(&mut self, color: Color)
        ensures
            *final(self) == (Rectangle { background: color, ..*old(self) }),
    {
        self.background = color;
    }
}

/// A part of an ellipse, filled or outlined. Angles are in 64ths of a
/// degree.
#[derive(Debug, PartialEq, Eq, Structural, Clone, Copy)]
pub struct Arc {
    pub anchor: Anchor,
    pub position: Coord,
    pub size: Size,
    pub start_angle: i16,
    pub end_angle: i16,
    pub forground: Color,
    pub background: Color,
    pub filled: bool,
}

impl Arc {
    /// An outlined arc.
    pub fn new(
        anchor: Anchor,
        position: Coord,
        size: Size,
        start_angle: i16,
        end_angle: i16,
        forground: Color,
        background: Color,
    ) -> (r: Self)
        ensures
            r == (Arc {
                anchor,
                position,
                size,
                start_angle,
                end_angle,
                forground,
                background,
                filled: false,
            }),
    {
        Arc { anchor, position, size, start_angle, end_angle, forground, background, filled: false }
    }

    /// A filled arc of one color.
    pub fn filled(
        anchor: Anchor,
        position: Coord,
        size: Size,
        start_angle: i16,
        end_angle: i16,
        color: Color,
    ) -> (r: Self)
        ensures
            r == (Arc {
                anchor,
                position,
                size,
                start_angle,
                end_angle,
                forground: color,
                background: color,
                filled: true,
            }),
    {
        Arc {
            anchor,
            position,
            size,
            start_angle,
            end_angle,
            forground: color,
            background: color,
            filled: true,
        }
    }

    /// An outlined circle: a full turn whose width and height are both
    /// `radius` (as fractions of each axis).
    pub fn circle(anchor: Anchor, position: Coord, radius: i32, forground: Color, background: Color) -> (r: Self)
        ensures
            r == (Arc {
                anchor,
                position,
                size: Vec2 { x: radius, y: radius },
                start_angle: 0,
                end_angle: FULL_TURN,
                forground,
                background,
                filled: false,
            }),
    {
        Arc {
            anchor,
            position,
            size: Vec2 { x: radius, y: radius },
            start_angle: 0,
            end_angle: FULL_TURN,
            forground,
            background,
            filled: false,
        }
    }

    /// A filled circle of one color.
    pub fn filled_circle(anchor: Anchor, position: Coord, radius: i32, color: Color) -> (r: Self)
        ensures
            r == (Arc {
                anchor,
                position,
                size: Vec2 { x: radius, y: radius },
                start_angle: 0,
                end_angle: FULL_TURN,
                forground: color,
                background: color,
                filled: true,
            }),
    {
        Arc {
            anchor,
            position,
            size: Vec2 { x: radius, y: radius },
            start_angle: 0,
            end_angle: FULL_TURN,
            forground: color,
            background: color,
            filled: true,
        }
    }

    /// The position.
    pub fn position(&self) -> (r: Coord)
        ensures
            r == self.position,
    {
        self.position
    }

    /// Replaces the position.
    pub fn set_position(&mut self, position: Coord)
        ensures
            *final(self) == (Arc { position, ..*old(self) }),
    {
        self.position = position;
    }

    /// The size.
    pub fn size(&self) -> (r: Size)
        ensures
            r == self.size,
    {
        self.size
    }

    /// Replaces the size.
    pub fn set_size(&mut self, size: Size)
        ensures
            *final(self) == (Arc { size, ..*old(self) }),
    {
        self.size = size;
    }

    /// Replaces the foreground color.
    pub fn set_forground_color(&mut self, color: Color)
        ensures
            *final(self) == (Arc { forground: color, ..*old(self) }),
    {
        self.forground = color;
    }

    /// Replaces the background color.
    pub fn set_background_color(&mut self, color: Color)
        ensures
            *final(self) == (Arc { background: color, ..*old(self) }),
    {
        self.background = color;
    }
}

/// A line of text in the server's fixed-width font. Its extent is measured
/// by the server when it is drawn.
#[derive(Debug)]
pub struct Text {
    pub anchor: Anchor,
    pub position: Coord,
    pub forground: Color,
    pub background: Color,
    pub text: String,
}

impl Text {
    /// A line of text.
    pub fn text(anchor: Anchor, position: Coord, forground: Color, background: Color, text: &str) -> (r: Self)
        ensures
            r.anchor == anchor,
            r.position == position,
            r.forground == forground,
            r.background == background,
            r.text@ == text@,
    {
        Text { anchor, position, forground, background, text: text.to_owned() }
    }

    /// The text.
    pub fn get_string(&self) -> (r: &str)
        ensures
            r@ == self.text@,
    {
        self.text.as_str()
    }

    /// Replaces the text.
    pub fn set_string(&mut self, text: &str)
        ensures
            final(self).text@ == text@,
            final(self).anchor == old(self).anchor,
            final(self).position == old(self).position,
            final(self).forground == old(self).forground,
            final(self).background == old(self).background,
    {
        self.text = text.to_owned();
    }

    /// The position.
    pub fn position(&self) -> (r: Coord)
        ensures
            r == self.position,
    {
        self.position
    }

    /// Replaces the position.
    pub fn set_position(&mut self, position: Coord)
        ensures
            final(self).position == position,
            final(self).anchor == old(self).anchor,
            final(self).forground == old(self).forground,
            final(self).background == old(self).background,
            final(self).text@ == old(self).text@,
    {
        self.position = position;
    }

    /// Replaces the anchor.
    pub fn set_anchor(&mut self, anchor: Anchor)
        ensures
            final(self).anchor == anchor,
            final(self).position == old(self).position,
            final(self).forground == old(self).forground,
            final(self).background == old(self).background,
            final(self).text@ == old(self).text@,
    {
        self.anchor = anchor;
    }

    /// Replaces the foreground color.
    pub fn set_forground_color(&mut self, color: Color)
        ensures
            final(self).forground == color,
            final(self).anchor == old(self).anchor,
            final(self).position == old(self).position,
            final(self).background == old(self).background,
            final(self).text@ == old(self).text@,
    {
        self.forground = color;
    }

    /// Replaces the background color.
    pub fn set_background_color(&mut self, color: Color)
        ensures
            final(self).background == color,
            final(self).anchor == old(self).anchor,
            final(self).position == old(self).position,
            final(self).forground == old(self).forground,
            final(self).text@ == old(self).text@,
    {
        self.background = color;
    }
}

/// A shape of any kind.
#[derive(Debug)]
pub enum Shape {
    Rectangle(Rectangle),
    Arc(Arc),
    Text(Text),
}

impl Shape {
    /// The foreground color.
    pub open spec fn fg(self) -> Color {
        match self {
            Shape::Rectangle(r) => r.forground,
            Shape::Arc(a) => a.forground,
            Shape::Text(t) => t.forground,
        }
    }

    /// The background color.
    pub open spec fn bg(self) -> Color {
        match self {
            Shape::Rectangle(r) => r.background,
            Shape::Arc(a) => a.background,
            Shape::Text(t) => t.background,
        }
    }

    /// The position.
    pub open spec fn pos(self) -> Coord {
        match self {
            Shape::Rectangle(r) => r.position,
            Shape::Arc(a) => a.position,
            Shape::Text(t) => t.position,
        }
    }

    /// The size; text has none of its own (zero).
    pub open spec fn extent(self) -> Size {
        match self {
            Shape::Rectangle(r) => r.size,
            Shape::Arc(a) => a.size,
            Shape::Text(_) => Vec2 { x: 0, y: 0 },
        }
    }

    /// The anchor.
    pub open spec fn anchor_of(self) -> Anchor {
        match self {
            Shape::Rectangle(r) => r.anchor,
            Shape::Arc(a) => a.anchor,
            Shape::Text(t) => t.anchor,
        }
    }

    /// The shape with its position and size replaced (text keeps having no
    /// size) and all else kept.
    pub open spec fn with_frame(self, position: Coord, size: Size) -> Shape {
        match self {
            Shape::Rectangle(r) => Shape::Rectangle(Rectangle { position, size, ..r }),
            Shape::Arc(a) => Shape::Arc(Arc { position, size, ..a }),
            Shape::Text(t) => Shape::Text(Text { position, ..t }),
        }
    }

    /// The foreground color.
    pub fn forground(&self) -> (r: Color)
        ensures
            r == self.fg(),
    {
        match self {
            Shape::Rectangle(r) => r.forground,
            Shape::Arc(a) => a.forground,
            Shape::Text(t) => t.forground,
        }
    }

    /// The background color.
    pub fn background(&self) -> (r: Color)
        ensures
            r == self.bg(),
    {
        match self {
            Shape::Rectangle(r) => r.background,
            Shape::Arc(a) => a.background,
            Shape::Text(t) => t.background,
        }
    }

    /// The size (zero for text).
    pub fn size(&self) -> (r: Size)
        ensures
            r == self.extent(),
    {
        match self {
            Shape::Rectangle(r) => r.size,
            Shape::Arc(a) => a.size,
            Shape::Text(_) => Vec2 { x: 0, y: 0 },
        }
    }

    /// The position.
    pub fn position(&self) -> (r: Coord)
        ensures
            r == self.pos(),
    {
        match self {
            Shape::Rectangle(r) => r.position,
            Shape::Arc(a) => a.position,
            Shape::Text(t) => t.position,
        }
    }

    /// The anchor.
    pub fn anchor(&self) -> (r: Anchor)
        ensures
            r == self.anchor_of(),
    {
        match self {
            Shape::Rectangle(r) => r.anchor,
            Shape::Arc(a) => a.anchor,
            Shape::Text(t) => t.anchor,
        }
    }

    /// Replaces the position and the size (text has no size to replace).
    pub fn set_frame(&mut self, position: Coord, size: Size)
        ensures
            *final(self) == old(self).with_frame(position, size),
    {
        match self {
            Shape::Rectangle(r) => {
                r.position = position;
                r.size = size;
            },
            Shape::Arc(a) => {
                a.position = position;
                a.size = size;
            },
            Shape::Text(t) => {
                t.position = position;
            },
        }
    }

    /// Replaces the position.
    pub fn set_position(&mut self, position: Coord)
        ensures
            *final(self) == old(self).with_frame(position, old(self).extent()),
    {
        let size = self.size();
        self.set_frame(position, size);
    }

    /// Replaces the size (no effect on text).
    pub fn set_size(&mut self, size: Size)
        ensures
            *final(self) == old(self).with_frame(old(self).pos(), size),
    {
        let position = self.position();
        self.set_frame(position, size);
    }

    /// Replaces the foreground color.
    pub fn set_forground_color(&mut self, color: Color)
        ensures
            final(self).fg() == color,
            final(self).bg() == old(self).bg(),
            final(self).pos() == old(self).pos(),
            final(self).extent() == old(self).extent(),
            final(self).anchor_of() == old(self).anchor_of(),
    {
        match self {
            Shape::Rectangle(r) => r.forground = color,
            Shape::Arc(a) => a.forground = color,
            Shape::Text(t) => t.forground = color,
        }
    }
}

} // verus!
