//! Resize policies: how queued shapes' fractional geometry is adjusted when
//! the overlay window changes size.
use vstd::prelude::*;
use crate::coord::{clamp_i32, div_trunc_i64, real_of, sat_i32};
use crate::shape::Shape;
use crate::vec::{Vec2, div_trunc};

verus! {

/// How shapes follow a change of the overlay's size.
#[derive(Debug, PartialEq, Eq, Structural, Clone, Copy)]
pub enum ResizePolicy {
    /// Fractions are kept: shapes scale with the overlay.
    KeepAspectRatio,
    /// The pixel position and width are kept on the x axis.
    KeepWidth,
    /// The pixel position and height are kept on the y axis.
    KeepHeight,
    /// Pixel position and size are kept on both axes.
    KeepBoth,
}

impl Default for ResizePolicy {
    fn default() -> (r: Self)
        ensures
            r == ResizePolicy::KeepAspectRatio,
    {
        ResizePolicy::KeepAspectRatio
    }
}

/// A fraction of an extent of `old` pixels, re-expressed as a fraction of
/// `new` pixels so that it covers the same pixels (truncated toward zero,
/// saturated to `i32`). A zero new extent leaves it as it is.
pub open spec fn rescaled(f: i32, old: u16, new: u16) -> i32 {
    if new == 0 {
        f
    } else {
        clamp_i32(div_trunc(f * old, new as int))
    }
}

/// Re-expresses the fraction `f` of `old` pixels as a fraction of `new`
/// pixels.
pub fn rescale(f: i32, old: u16, new: u16) -> (r: i32)
    ensures
        r == rescaled(f, old, new),
{
    if new == 0 {
        f
    } else {
        assert(-0x8000_0000_0000 < (f as int) * (old as int) < 0x8000_0000_0000) by (nonlinear_arith)
            requires
                i32::MIN <= f <= i32::MAX,
                0 <= old <= u16::MAX,
        ;
        let q = div_trunc_i64((f as i64) * (old as i64), new as i64);
        sat_i32(q)
    }
}

/// A shape after its overlay was resized from `before` to `after` pixels under
/// `policy`.
pub open spec fn resized(s: Shape, policy: ResizePolicy, before: Vec2<u16>, after: Vec2<u16>) -> Shape {
    let p = s.pos();
    let z = s.extent();
    match policy {
        ResizePolicy::KeepAspectRatio => s,
        ResizePolicy::KeepWidth => s.with_frame(
            Vec2 { x: rescaled(p.x, before.x, after.x), y: p.y },
            Vec2 { x: rescaled(z.x, before.x, after.x), y: z.y },
        ),
        ResizePolicy::KeepHeight => s.with_frame(
            Vec2 { x: p.x, y: rescaled(p.y, before.y, after.y) },
            Vec2 { x: z.x, y: rescaled(z.y, before.y, after.y) },
        ),
        ResizePolicy::KeepBoth => s.with_frame(
            Vec2 { x: rescaled(p.x, before.x, after.x), y: rescaled(p.y, before.y, after.y) },
            Vec2 { x: rescaled(z.x, before.x, after.x), y: rescaled(z.y, before.y, after.y) },
        ),
    }
}

impl Shape {
    /// Adjusts this shape for a resize of its overlay from `before` to
    /// `after` pixels under `policy`.
    pub fn apply_resize(&mut self, policy: ResizePolicy, before: Vec2<u16>, after: Vec2<u16>)
        ensures
            *final(self) == resized(*old(self), policy, before, after),
    {
        let p = self.position();
        let z = self.size();
        match policy {
            ResizePolicy::KeepAspectRatio => {},
            ResizePolicy::KeepWidth => {
                self.set_frame(
                    Vec2 { x: rescale(p.x, before.x, after.x), y: p.y },
                    Vec2 { x: rescale(z.x, before.x, after.x), y: z.y },
                );
            },
            ResizePolicy::KeepHeight => {
                self.set_frame(
                    Vec2 { x: p.x, y: rescale(p.y, before.y, after.y) },
                    Vec2 { x: z.x, y: rescale(z.y, before.y, after.y) },
                );
            },
            ResizePolicy::KeepBoth => {
                self.set_frame(
                    Vec2 { x: rescale(p.x, before.x, after.x), y: rescale(p.y, before.y, after.y) },
                    Vec2 { x: rescale(z.x, before.x, after.x), y: rescale(z.y, before.y, after.y) },
                );
            },
        }
    }
}

/// Adjusts every queued shape for a resize of the overlay from `before` to
/// `after` pixels under `policy`, keeping the queue's order.
pub fn apply_resize_policy(queue: &mut Vec<Shape>, policy: ResizePolicy, before: Vec2<u16>, after: Vec2<u16>)
    ensures
        final(queue)@.len() == old(queue)@.len(),
        forall|i: int|
            0 <= i < old(queue)@.len() ==> final(queue)@[i] == resized(
                old(queue)@[i],
                policy,
                before,
                after,
            ),
{
    let n = queue.len();
    let mut i: usize = 0;
    while i < n
        invariant
            queue@.len() == n,
            n == old(queue)@.len(),
            0 <= i <= n,
            forall|j: int| 0 <= j < i ==> queue@[j] == resized(old(queue)@[j], policy, before, after),
            forall|j: int| i <= j < n ==> queue@[j] == old(queue)@[j],
        decreases n - i,
    {
        queue[i].apply_resize(policy, before, after);
        i += 1;
    }
}

/// Keeping pixels: a non-negative fraction of an extent of `old` pixels,
/// rescaled to an extent of `new` pixels, stands for the same 16.16
/// fixed-point pixel offset as before whenever `new` divides that offset
/// exactly. This is what `KeepBoth` does to both axes of a shape's position
/// and size, `KeepWidth` and `KeepHeight` to one.
pub proof fn lemma_rescale_keeps_pixels(f: i32, old: u16, new: u16)
    requires
        f >= 0,
        new > 0,
        (f * old) % (new as int) == 0,
        (f * old) / (new as int) <= i32::MAX,
    ensures
        real_of(rescaled(f, old, new) as int, new as int) == real_of(f as int, old as int),
{
    let a = f * old;
    let b = new as int;
    assert(a >= 0) by (nonlinear_arith)
        requires
            a == (f as int) * (old as int),
            f >= 0,
            old >= 0,
    ;
    assert(a == (a / b) * b) by (nonlinear_arith)
        requires
            a % b == 0,
            b > 0,
    ;
    assert(a / b >= 0) by (nonlinear_arith)
        requires
            a >= 0,
            b > 0,
    ;
    assert(rescaled(f, old, new) == a / b);
}

} // verus!
