//! The two-pass render plan.
//!
//! A window without a compositor cannot be translucent, so the overlay is
//! drawn twice. The mask pass draws every shape into a 1-bit stencil: set
//! where a shape is opaque, cleared where its foreground is `TRANSPARENT`.
//! The stencil becomes the window's bounding shape. The color pass then
//! draws every shape that is not transparent, in queue order, at the
//! window's depth, and the result is copied onto the window.
//!
//! `RenderPlan` is that work as plain values: the caller performs it
//! against the server, pass by pass and operation by operation.
use vstd::prelude::*;
use crate::color::{Color, Depth, color_value};
use crate::coord::{Anchor, anchor_delta, clamp_i16, clamp_i32, clamp_u16, pixels_of, top_left_of, sat_i16, sat_i32, sat_u16, to_pixels};
use crate::names::chars_of;
use crate::shape::Shape;
use crate::vec::Vec2;
use crate::window::Window;

verus! {

/// One drawing request, in pixels of the target drawable.
#[derive(Debug, PartialEq, Eq, Structural, Clone, Copy)]
pub enum Primitive {
    /// A rectangle with its top left corner at `(x, y)`.
    Rectangle { filled: bool, x: i16, y: i16, width: u16, height: u16 },
    /// An arc of the ellipse inscribed in the rectangle at `(x, y)`, angles
    /// in 64ths of a degree.
    Arc { filled: bool, x: i16, y: i16, width: u16, height: u16, angle1: i16, angle2: i16 },
    /// Text whose anchor point lies at `(x, y)`; the text itself is that of
    /// the queued shape the operation belongs to.
    Text { x: i32, y: i32, anchor: Anchor },
}

/// A primitive drawn for the queued shape at index `shape`, with the graphics
/// context's foreground and background set to the given pixel values.
#[derive(Debug, PartialEq, Eq, Structural, Clone, Copy)]
pub struct PassOp {
    pub shape: usize,
    pub foreground: u32,
    pub background: u32,
    pub primitive: Primitive,
}

/// The work of one render: both passes over a drawable of the overlay
/// window's size.
#[derive(Debug)]
pub struct RenderPlan {
    pub width: u16,
    pub height: u16,
    /// The depth of the color pass (the mask pass is 1 bit deep).
    pub depth: Depth,
    pub mask: Vec<PassOp>,
    pub color: Vec<PassOp>,
}

/// The primitive that draws a shape on a drawable of `extent` pixels.
pub open spec fn primitive_of(s: Shape, extent: Vec2<u16>) -> Primitive {
    let tl = top_left_of(s.pos(), s.anchor_of(), s.extent());
    let x = clamp_i16(pixels_of(tl.x as int, extent.x as int));
    let y = clamp_i16(pixels_of(tl.y as int, extent.y as int));
    let w = clamp_u16(pixels_of(s.extent().x as int, extent.x as int));
    let h = clamp_u16(pixels_of(s.extent().y as int, extent.y as int));
    match s {
        Shape::Rectangle(r) => Primitive::Rectangle { filled: r.filled, x, y, width: w, height: h },
        Shape::Arc(a) => Primitive::Arc {
            filled: a.filled,
            x,
            y,
            width: w,
            height: h,
            angle1: a.start_angle,
            angle2: a.end_angle,
        },
        Shape::Text(t) => Primitive::Text {
            x: pixels_of(t.position.x as int, extent.x as int) as i32,
            y: pixels_of(t.position.y as int, extent.y as int) as i32,
            anchor: t.anchor,
        },
    }
}

/// The stencil bit a color leaves in the mask: clear for `TRANSPARENT`, set
/// for every other color.
pub open spec fn mask_value(c: Color) -> u32 {
    if c == Color::TRANSPARENT {
        0
    } else {
        1
    }
}

/// The mask pass over a queue: one operation per shape, in queue order.
pub open spec fn mask_ops(q: Seq<Shape>, extent: Vec2<u16>) -> Seq<PassOp> {
    Seq::new(
        q.len(),
        |i: int|
            PassOp {
                shape: i as usize,
                foreground: mask_value(q[i].fg()),
                background: mask_value(q[i].bg()),
                primitive: primitive_of(q[i], extent),
            },
    )
}

/// The color pass over a queue: one operation per shape whose foreground
/// is not `TRANSPARENT`, in queue order.
pub open spec fn color_ops(q: Seq<Shape>, extent: Vec2<u16>, depth: Depth) -> Seq<PassOp>
    decreases q.len(),
{
    if q.len() == 0 {
        seq![]
    } else {
        let rest = color_ops(q.drop_last(), extent, depth);
        let s = q.last();
        if s.fg() == Color::TRANSPARENT {
            rest
        } else {
            rest.push(
                PassOp {
                    shape: (q.len() - 1) as usize,
                    foreground: color_value(s.fg(), depth),
                    background: color_value(s.bg(), depth),
                    primitive: primitive_of(s, extent),
                },
            )
        }
    }
}

/// The value left at pixel `(px, py)` by a sequence of operations drawn in
/// order, each overwriting what it covers: the foreground of the last
/// operation that covers the pixel, if any. `covers` says which pixels a
/// primitive paints.
pub open spec fn painted(
    ops: Seq<PassOp>,
    covers: spec_fn(Primitive, int, int) -> bool,
    px: int,
    py: int,
) -> Option<u32>
    decreases ops.len(),
{
    if ops.len() == 0 {
        None
    } else if covers(ops.last().primitive, px, py) {
        Some(ops.last().foreground)
    } else {
        painted(ops.drop_last(), covers, px, py)
    }
}

/// The primitive that draws `shape` on a drawable of `extent` pixels.
pub fn primitive(shape: &Shape, extent: Vec2<u16>) -> (r: Primitive)
    ensures
        r == primitive_of(*shape, extent),
{
    let size = shape.size();
    let tl = shape.position().top_left(&shape.anchor(), &size);
    let x = sat_i16(to_pixels(tl.x, extent.x));
    let y = sat_i16(to_pixels(tl.y, extent.y));
    let w = sat_u16(to_pixels(size.x, extent.x));
    let h = sat_u16(to_pixels(size.y, extent.y));
    match shape {
        Shape::Rectangle(r) => Primitive::Rectangle { filled: r.filled, x, y, width: w, height: h },
        Shape::Arc(a) => Primitive::Arc {
            filled: a.filled,
            x,
            y,
            width: w,
            height: h,
            angle1: a.start_angle,
            angle2: a.end_angle,
        },
        Shape::Text(t) => Primitive::Text {
            x: to_pixels(t.position.x, extent.x),
            y: to_pixels(t.position.y, extent.y),
            anchor: t.anchor,
        },
    }
}

/// The glyph codes of a text in the fixed-width font: the code of each
/// ASCII character, in order; other characters are left out.
pub open spec fn ascii_codes(s: Seq<char>) -> Seq<u8>
    decreases s.len(),
{
    if s.len() == 0 {
        seq![]
    } else if (s.last() as u32) < 128 {
        ascii_codes(s.drop_last()).push(s.last() as u32 as u8)
    } else {
        ascii_codes(s.drop_last())
    }
}

/// The glyph codes of a text: its ASCII characters, in order.
pub fn text_glyphs(text: &str) -> (r: Vec<u8>)
    ensures
        r@ == ascii_codes(text@),
{
    let chars = chars_of(text);
    let mut out: Vec<u8> = Vec::new();
    let mut i: usize = 0;
    while i < chars.len()
        invariant
            0 <= i <= chars@.len(),
            chars@ == text@,
            out@ == ascii_codes(chars@.subrange(0, i as int)),
        decreases chars@.len() - i,
    {
        let c = chars[i];
        let code = c as u32;
        proof {
            let next = chars@.subrange(0, i as int + 1);
            assert(next.drop_last() =~= chars@.subrange(0, i as int));
            assert(next.last() == c);
        }
        if code < 128 {
            out.push(code as u8);
        }
        i += 1;
    }
    assert(chars@.subrange(0, chars@.len() as int) =~= chars@);
    out
}

/// Where to draw a text whose anchor point is at `(x, y)`, once the
/// server has measured it as `width` pixels wide with the given ascent and
/// descent: the anchor's offset within the text's box is taken away, and
/// the vertical position moves down to the baseline.
pub open spec fn text_origin_of(x: i32, y: i32, anchor: Anchor, width: i32, ascent: i32, descent: i32) -> (i16, i16) {
    let d = anchor_delta(anchor, width, clamp_i32(ascent + descent));
    (clamp_i16(clamp_i32(x - d.0) as int), clamp_i16(clamp_i32(clamp_i32(y - d.1) + ascent) as int))
}

/// The baseline origin of a measured text whose anchor point is at
/// `(x, y)`.
pub fn text_origin(x: i32, y: i32, anchor: &Anchor, width: i32, ascent: i32, descent: i32) -> (r: (i16, i16))
    ensures
        r == text_origin_of(x, y, *anchor, width, ascent, descent),
{
    let height = sat_i32(ascent as i64 + descent as i64);
    let (dx, dy) = anchor.delta(width, height);
    let left = sat_i32(x as i64 - dx as i64);
    let top = sat_i32(y as i64 - dy as i64);
    let baseline = sat_i32(top as i64 + ascent as i64);
    (sat_i16(left), sat_i16(baseline))
}

/// Plans both passes of a render of `queue` onto `window`.
pub fn plan_render(queue: &Vec<Shape>, window: &Window) -> (r: RenderPlan)
    ensures
        r.width == window.size.x,
        r.height == window.size.y,
        r.depth == window.depth,
        r.mask@ == mask_ops(queue@, window.size),
        r.color@ == color_ops(queue@, window.size, window.depth),
{
    let extent = window.size;
    let depth = window.depth;
    let mut mask: Vec<PassOp> = Vec::new();
    let mut color: Vec<PassOp> = Vec::new();
    let n = queue.len();
    let mut i: usize = 0;
    while i < n
        invariant
            n == queue@.len(),
            0 <= i <= n,
            mask@ == mask_ops(queue@.subrange(0, i as int), extent),
            color@ == color_ops(queue@.subrange(0, i as int), extent, depth),
        decreases n - i,
    {
        let shape = &queue[i];
        let prim = primitive(shape, extent);
        let fg = shape.forground();
        let bg = shape.background();
        let mfg: u32 = if fg == Color::TRANSPARENT {
            0
        } else {
            1
        };
        let mbg: u32 = if bg == Color::TRANSPARENT {
            0
        } else {
            1
        };
        mask.push(PassOp { shape: i, foreground: mfg, background: mbg, primitive: prim });
        let ghost prefix = queue@.subrange(0, i as int);
        let ghost next = queue@.subrange(0, i as int + 1);
        assert(next.drop_last() =~= prefix);
        assert(next.last() == queue@[i as int]);
        assert(mask@ =~= mask_ops(next, extent));
        if fg != Color::TRANSPARENT {
            color.push(
                PassOp {
                    shape: i,
                    foreground: fg.value(&depth),
                    background: bg.value(&depth),
                    primitive: prim,
                },
            );
        }
        i += 1;
    }
    assert(queue@.subrange(0, n as int) =~= queue@);
    RenderPlan { width: extent.x, height: extent.y, depth, mask, color }
}

/// Every operation of the color pass belongs to a queued shape whose
/// foreground is not `TRANSPARENT`, and operations keep queue order.
pub proof fn lemma_color_ops_sources(q: Seq<Shape>, extent: Vec2<u16>, depth: Depth)
    requires
        q.len() <= usize::MAX,
    ensures
        forall|k: int|
            0 <= k < color_ops(q, extent, depth).len() ==> {
                let op = #[trigger] color_ops(q, extent, depth)[k];
                &&& 0 <= op.shape < q.len()
                &&& q[op.shape as int].fg() != Color::TRANSPARENT
                &&& op.foreground == color_value(q[op.shape as int].fg(), depth)
                &&& op.primitive == primitive_of(q[op.shape as int], extent)
            },
        forall|k: int, l: int|
            0 <= k < l < color_ops(q, extent, depth).len() ==> (#[trigger] color_ops(
                q,
                extent,
                depth,
            )[k]).shape < (#[trigger] color_ops(q, extent, depth)[l]).shape,
    decreases q.len(),
{
    if q.len() > 0 {
        let p = q.drop_last();
        lemma_color_ops_sources(p, extent, depth);
        let rest = color_ops(p, extent, depth);
        let ops = color_ops(q, extent, depth);
        assert forall|k: int| 0 <= k < rest.len() implies rest[k].shape < q.len() - 1 && q[rest[k].shape as int]
            == p[rest[k].shape as int] by {}
        if q.last().fg() != Color::TRANSPARENT {
            assert(ops == rest.push(ops.last()));
            assert forall|k: int| 0 <= k < rest.len() implies #[trigger] ops[k] == rest[k] by {}
            assert(ops.last().shape == q.len() - 1);
            assert forall|k: int| 0 <= k < ops.len() implies {
                let op = #[trigger] ops[k];
                &&& 0 <= op.shape < q.len()
                &&& q[op.shape as int].fg() != Color::TRANSPARENT
                &&& op.foreground == color_value(q[op.shape as int].fg(), depth)
                &&& op.primitive == primitive_of(q[op.shape as int], extent)
            } by {
                if k < rest.len() {
                    assert(ops[k] == rest[k]);
                }
            }
            assert forall|k: int, l: int| 0 <= k < l < ops.len() implies (#[trigger] ops[k]).shape
                < (#[trigger] ops[l]).shape by {
                assert(ops[k] == rest[k]);
                if l < rest.len() {
                    assert(ops[l] == rest[l]);
                }
            }
        } else {
            assert(ops == rest);
        }
    }
}

/// Z-order: when shape `b` is queued after shape `a`, both opaque, a pixel
/// that both cover shows `b`'s color after the color pass.
pub proof fn lemma_later_shape_on_top(
    a: Shape,
    b: Shape,
    extent: Vec2<u16>,
    depth: Depth,
    covers: spec_fn(Primitive, int, int) -> bool,
    px: int,
    py: int,
)
    requires
        a.fg() != Color::TRANSPARENT,
        b.fg() != Color::TRANSPARENT,
        covers(primitive_of(a, extent), px, py),
        covers(primitive_of(b, extent), px, py),
    ensures
        painted(color_ops(seq![a, b], extent, depth), covers, px, py) == Some(
            color_value(b.fg(), depth),
        ),
{
    let q = seq![a, b];
    assert(q.drop_last() =~= seq![a]);
    assert(seq![a].drop_last() =~= Seq::<Shape>::empty());
    let ops = color_ops(q, extent, depth);
    assert(ops.last().foreground == color_value(b.fg(), depth));
}

/// The mask pass's value at a pixel: the stencil bit of the last queued
/// shape whose primitive covers it.
proof fn lemma_mask_painted_last(
    q: Seq<Shape>,
    extent: Vec2<u16>,
    covers: spec_fn(Primitive, int, int) -> bool,
    px: int,
    py: int,
    i: int,
)
    requires
        0 <= i < q.len(),
        covers(primitive_of(q[i], extent), px, py),
        forall|j: int| i < j < q.len() ==> !covers(primitive_of(q[j], extent), px, py),
    ensures
        painted(mask_ops(q, extent), covers, px, py) == Some(mask_value(q[i].fg())),
    decreases q.len(),
{
    let ops = mask_ops(q, extent);
    if i < q.len() - 1 {
        let p = q.drop_last();
        assert(ops.drop_last() =~= mask_ops(p, extent));
        lemma_mask_painted_last(p, extent, covers, px, py, i);
    }
}

/// Transparency: a shape with a `TRANSPARENT` foreground that no later
/// shape overlaps at a pixel leaves that pixel cleared in the mask, and the
/// color pass draws nothing for it.
pub proof fn lemma_transparent_cut_out(
    q: Seq<Shape>,
    extent: Vec2<u16>,
    depth: Depth,
    covers: spec_fn(Primitive, int, int) -> bool,
    px: int,
    py: int,
    i: int,
)
    requires
        q.len() <= usize::MAX,
        0 <= i < q.len(),
        q[i].fg() == Color::TRANSPARENT,
        covers(primitive_of(q[i], extent), px, py),
        forall|j: int| i < j < q.len() ==> !covers(primitive_of(q[j], extent), px, py),
    ensures
        painted(mask_ops(q, extent), covers, px, py) == Some(0u32),
        forall|k: int|
            0 <= k < color_ops(q, extent, depth).len() ==> (#[trigger] color_ops(
                q,
                extent,
                depth,
            )[k]).shape != i,
{
    lemma_mask_painted_last(q, extent, covers, px, py, i);
    lemma_color_ops_sources(q, extent, depth);
}

} // verus!
