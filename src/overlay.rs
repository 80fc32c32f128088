//! The overlay: its parent and overlay windows, its render queue, and the
//! decisions of its event loop.
//!
//! The overlay does no I/O. For each event the loop delivers, `react` says
//! what the caller must do against the server (tell it the overlay's new
//! geometry, perform a render plan) or that the loop must stop.
use vstd::prelude::*;
use crate::color::{Color, Depth};
use crate::coord::{Anchor, Coord, FRAC_ONE};
use crate::event::{DebounceTable, Event, RawEvent, is_debounced, stamps_after, translation, window_of};
use crate::render::{RenderPlan, color_ops, mask_ops, plan_render};
use crate::resize::{ResizePolicy, apply_resize_policy, resized};
use crate::shape::{Rectangle, Shape};
use crate::vec::Vec2;
use crate::window::{Drawable, Geometry, GeometryError, Window, refresh_outcome, refreshed};

verus! {

/// What the caller must do after an event.
#[derive(Debug)]
pub enum Reaction {
    /// The event came too soon after one of its kind and was dropped: it
    /// must not reach the handler.
    Debounced,
    /// The event was taken in: tell the server the overlay's new geometry
    /// if there is one, perform the render plan if there is one, then hand
    /// the event to the handler.
    Handled { configure: Option<Geometry>, draw: Option<RenderPlan> },
    /// The loop stops: the overlay window is to be freed.
    Stop,
}

/// Whether the overlay took an event in (it was neither dropped nor a
/// stop request).
pub open spec fn is_handled(r: Result<Reaction, GeometryError>) -> bool {
    r matches Ok(Reaction::Handled { .. })
}

/// The render plan a reaction asks for, if any.
pub open spec fn handled_plan(r: Result<Reaction, GeometryError>) -> Option<RenderPlan> {
    match r {
        Ok(Reaction::Handled { draw, .. }) => draw,
        _ => None,
    }
}

/// The overlay geometry a reaction asks to send to the server, if any.
pub open spec fn handled_geometry(r: Result<Reaction, GeometryError>) -> Option<Geometry> {
    match r {
        Ok(Reaction::Handled { configure, .. }) => configure,
        _ => None,
    }
}

/// Whether a plan is the render of `queue` onto `window`: both passes over
/// the window's size, the color pass at its depth.
pub open spec fn is_render_of(plan: RenderPlan, queue: Seq<Shape>, window: Window) -> bool {
    &&& plan.width == window.size.x
    &&& plan.height == window.size.y
    &&& plan.depth == window.depth
    &&& plan.mask@ == mask_ops(queue, window.size)
    &&& plan.color@ == color_ops(queue, window.size, window.depth)
}

/// The parent after an event is taken in: a parent resize records the new
/// size.
pub open spec fn parent_after(o: Overlay, e: Event) -> Window {
    match e {
        Event::ParentResize(size) => Window { size, ..o.parent },
        _ => o.parent,
    }
}

/// The overlay window after an event is taken in: a parent resize derives
/// its geometry again.
pub open spec fn window_after(o: Overlay, e: Event) -> Window {
    match e {
        Event::ParentResize(size) => refreshed(o.window, size),
        _ => o.window,
    }
}

/// The recorded pointer position after an event is taken in: motion
/// records its position.
pub open spec fn pointer_after(o: Overlay, e: Event) -> Coord {
    match e {
        Event::MouseMotion { coord } => coord,
        _ => o.last_mouse_pos,
    }
}

/// An overlay attached to a parent window.
#[derive(Debug)]
pub struct Overlay {
    pub parent: Window,
    pub window: Window,
    pub render_queue: Vec<Shape>,
    pub last_mouse_pos: Coord,
    pub debounce_table: DebounceTable,
    pub resize_policy: ResizePolicy,
    pub running: bool,
}

/// The rectangle that `clear` draws: the whole overlay, transparent.
pub open spec fn clearing_rectangle() -> Shape {
    Shape::Rectangle(
        Rectangle {
            anchor: Anchor::NorthWest,
            position: Vec2 { x: 0, y: 0 },
            size: Vec2 { x: FRAC_ONE, y: FRAC_ONE },
            forground: Color::TRANSPARENT,
            background: Color::TRANSPARENT,
            filled: true,
        },
    )
}

impl Overlay {
    /// The debounce table has a stamp per kind of event.
    pub open spec fn wf(self) -> bool {
        self.debounce_table.wf()
    }

    /// An overlay of `window` on `parent`, with an empty queue, the default
    /// resize policy, the pointer at the origin and every debounce stamp at
    /// `now` (milliseconds on a monotonic clock).
    pub fn new(parent: Window, window: Window, now: u64) -> (r: Overlay)
        ensures
            r.wf(),
            r.parent == parent,
            r.window == window,
            r.render_queue@.len() == 0,
            r.last_mouse_pos == (Vec2 { x: 0i32, y: 0i32 }),
            r.resize_policy == ResizePolicy::KeepAspectRatio,
            r.running,
            forall|i: int| 0 <= i < r.debounce_table.stamps@.len() ==> r.debounce_table.stamps@[i] == now,
    {
        Overlay {
            parent,
            window,
            render_queue: Vec::new(),
            last_mouse_pos: Vec2 { x: 0, y: 0 },
            debounce_table: Event::gen_debounce_table(now),
            resize_policy: ResizePolicy::default(),
            running: true,
        }
    }

    /// Appends a shape to the render queue; returns its index there.
    pub fn add_shape(&mut self, shape: Shape) -> (r: usize)
        ensures
            r == old(self).render_queue@.len(),
            final(self).render_queue@ == old(self).render_queue@.push(shape),
            final(self).parent == old(self).parent,
            final(self).window == old(self).window,
            final(self).resize_policy == old(self).resize_policy,
            final(self).debounce_table == old(self).debounce_table,
            final(self).last_mouse_pos == old(self).last_mouse_pos,
            final(self).running == old(self).running,
    {
        let index = self.render_queue.len();
        self.render_queue.push(shape);
        index
    }

    /// Appends shapes to the render queue, in order.
    pub fn add_shapes(&mut self, shapes: Vec<Shape>)
        ensures
            final(self).render_queue@ == old(self).render_queue@ + shapes@,
            final(self).parent == old(self).parent,
            final(self).window == old(self).window,
            final(self).resize_policy == old(self).resize_policy,
            final(self).debounce_table == old(self).debounce_table,
            final(self).last_mouse_pos == old(self).last_mouse_pos,
            final(self).running == old(self).running,
    {
        let mut shapes = shapes;
        self.render_queue.append(&mut shapes);
    }

    /// The queued shape at `index`.
    pub fn shape(&self, index: usize) -> (r: &Shape)
        requires
            index < self.render_queue@.len(),
        ensures
            *r == self.render_queue@[index as int],
    {
        &self.render_queue[index]
    }

    /// Replaces the queued shape at `index`; returns the one it replaced.
    pub fn replace_shape(&mut self, index: usize, shape: Shape) -> (r: Shape)
        requires
            index < old(self).render_queue@.len(),
        ensures
            r == old(self).render_queue@[index as int],
            final(self).render_queue@ == old(self).render_queue@.update(index as int, shape),
            final(self).parent == old(self).parent,
            final(self).window == old(self).window,
            final(self).resize_policy == old(self).resize_policy,
            final(self).debounce_table == old(self).debounce_table,
            final(self).last_mouse_pos == old(self).last_mouse_pos,
            final(self).running == old(self).running,
    {
        let mut shape = shape;
        std::mem::swap(&mut self.render_queue[index], &mut shape);
        shape
    }

    /// The overlay window.
    pub fn window(&self) -> (r: &Window)
        ensures
            *r == self.window,
    {
        &self.window
    }

    /// The parent window.
    pub fn parent(&self) -> (r: &Window)
        ensures
            *r == self.parent,
    {
        &self.parent
    }

    /// The overlay window's size.
    pub fn size(&self) -> (r: Vec2<u16>)
        ensures
            r == self.window.size,
    {
        self.window.size
    }

    /// The resize policy.
    pub fn resize_policy(&self) -> (r: ResizePolicy)
        ensures
            r == self.resize_policy,
    {
        self.resize_policy
    }

    /// Replaces the resize policy.
    pub fn set_resize_policy(&mut self, policy: ResizePolicy)
        ensures
            final(self).resize_policy == policy,
            final(self).parent == old(self).parent,
            final(self).window == old(self).window,
            final(self).render_queue@ == old(self).render_queue@,
            final(self).debounce_table == old(self).debounce_table,
            final(self).last_mouse_pos == old(self).last_mouse_pos,
            final(self).running == old(self).running,
    {
        self.resize_policy = policy;
    }

    /// The last pointer position reported by motion.
    pub fn mouse_coord(&self) -> (r: Coord)
        ensures
            r == self.last_mouse_pos,
    {
        self.last_mouse_pos
    }

    /// Whether the parent is the active window, given the root's
    /// active-window property (`None` when absent or unreadable).
    pub fn has_focus(&self, active: Option<u32>) -> (r: bool)
        ensures
            r == (active == Some(self.parent.id)),
    {
        self.parent.has_focus(active)
    }

    /// The render plan of the whole queue onto the overlay window.
    pub fn draw(&self) -> (r: RenderPlan)
        ensures
            r.width == self.window.size.x,
            r.height == self.window.size.y,
            r.depth == self.window.depth,
            r.mask@ == mask_ops(self.render_queue@, self.window.size),
            r.color@ == color_ops(self.render_queue@, self.window.size, self.window.depth),
    {
        plan_render(&self.render_queue, &self.window)
    }

    /// Empties the render queue. Returns the plan that clears the window:
    /// the render of one transparent rectangle over the whole overlay.
    pub fn clear(&mut self) -> (r: RenderPlan)
        ensures
            final(self).render_queue@.len() == 0,
            r.width == old(self).window.size.x,
            r.height == old(self).window.size.y,
            r.depth == old(self).window.depth,
            r.mask@ == mask_ops(seq![clearing_rectangle()], old(self).window.size),
            r.color@ == color_ops(seq![clearing_rectangle()], old(self).window.size, old(self).window.depth),
            final(self).parent == old(self).parent,
            final(self).window == old(self).window,
            final(self).resize_policy == old(self).resize_policy,
            final(self).debounce_table == old(self).debounce_table,
            final(self).last_mouse_pos == old(self).last_mouse_pos,
            final(self).running == old(self).running,
    {
        let clear_rect = Rectangle::fill(
            Anchor::default(),
            Vec2 { x: 0, y: 0 },
            Vec2 { x: FRAC_ONE, y: FRAC_ONE },
            Color::TRANSPARENT,
        );
        self.render_queue.clear();
        self.render_queue.push(Shape::Rectangle(clear_rect));
        assert(self.render_queue@ =~= seq![clearing_rectangle()]);
        let plan = self.draw();
        self.render_queue.clear();
        plan
    }

    /// Takes in a new parent size: the overlay's geometry is derived again
    /// from its mapping and, when the overlay's size changed, every queued
    /// shape is adjusted by the resize policy. Returns the overlay's new
    /// geometry when it changed (the server must be told), `None` when it
    /// did not. On an error the overlay window is left as it was.
    pub fn refresh(&mut self, new_size: Vec2<u16>) -> (r: Result<Option<Geometry>, GeometryError>)
        ensures
            final(self).parent == (Window { size: new_size, ..old(self).parent }),
            final(self).window == refreshed(old(self).window, new_size),
            match refresh_outcome(old(self).window, new_size) {
                Err(e) => r == Err::<Option<Geometry>, GeometryError>(e),
                Ok(changed) => r == Ok::<Option<Geometry>, GeometryError>(
                    if changed {
                        Some(refreshed(old(self).window, new_size).geometry())
                    } else {
                        None
                    },
                ),
            },
            final(self).render_queue@.len() == old(self).render_queue@.len(),
            forall|i: int|
                0 <= i < old(self).render_queue@.len() ==> final(self).render_queue@[i] == (
                if r is Ok && old(self).window.size != final(self).window.size {
                    resized(
                        old(self).render_queue@[i],
                        old(self).resize_policy,
                        old(self).window.size,
                        final(self).window.size,
                    )
                } else {
                    old(self).render_queue@[i]
                }),
            final(self).resize_policy == old(self).resize_policy,
            final(self).debounce_table == old(self).debounce_table,
            final(self).last_mouse_pos == old(self).last_mouse_pos,
            final(self).running == old(self).running,
    {
        self.parent.resize_event(new_size);
        let previous = self.window.size;
        let changed = match self.window.refresh(&self.parent) {
            Ok(c) => c,
            Err(e) => {
                return Err(e);
            },
        };
        if !changed {
            return Ok(None);
        }
        let current = self.window.size;
        if !(previous.x == current.x && previous.y == current.y) {
            apply_resize_policy(&mut self.render_queue, self.resize_policy, previous, current);
        }
        Ok(Some(Geometry { pos: self.window.pos, size: self.window.size }))
    }

    /// The event a notification stands for. `focused` is whether the
    /// parent has the focus; it is read only for key and button presses.
    pub fn translate(&self, raw: &RawEvent, focused: bool) -> (r: Event)
        ensures
            r == translation(
                *raw,
                focused,
                self.window.size,
                self.parent.id,
                self.parent.size,
                self.last_mouse_pos,
            ),
    {
        Event::from_raw(
            raw,
            focused,
            self.window.size,
            self.parent.id,
            self.parent.size,
            self.last_mouse_pos,
        )
    }

    /// Takes in an event delivered at `now` (milliseconds on a monotonic
    /// clock), before the handler sees it. A debounced event changes
    /// nothing but is dropped. Otherwise: a parent resize refreshes the
    /// overlay and asks for its geometry to be sent and for a render;
    /// `Redraw` asks for a render; motion records the pointer; a stop
    /// request stops the loop.
    pub fn react(&mut self, event: &Event, now: u64) -> (r: Result<Reaction, GeometryError>)
        requires
            old(self).wf(),
        ensures
            final(self).wf(),
            final(self).debounce_table.stamps@ == stamps_after(
                old(self).debounce_table.stamps@,
                *event,
                now,
            ),
            final(self).resize_policy == old(self).resize_policy,
            final(self).parent == (if is_debounced(old(self).debounce_table.stamps@, *event, now) {
                old(self).parent
            } else {
                parent_after(*old(self), *event)
            }),
            final(self).window == (if is_debounced(old(self).debounce_table.stamps@, *event, now) {
                old(self).window
            } else {
                window_after(*old(self), *event)
            }),
            final(self).last_mouse_pos == (if is_debounced(
                old(self).debounce_table.stamps@,
                *event,
                now,
            ) {
                old(self).last_mouse_pos
            } else {
                pointer_after(*old(self), *event)
            }),
            final(self).running == (old(self).running && (is_debounced(
                old(self).debounce_table.stamps@,
                *event,
                now,
            ) || !(*event is StopEventLoop))),
            final(self).render_queue@.len() == old(self).render_queue@.len(),
            forall|i: int|
                0 <= i < old(self).render_queue@.len() ==> final(self).render_queue@[i] == (
                if old(self).window.size != final(self).window.size {
                    resized(
                        old(self).render_queue@[i],
                        old(self).resize_policy,
                        old(self).window.size,
                        final(self).window.size,
                    )
                } else {
                    old(self).render_queue@[i]
                }),
            is_debounced(old(self).debounce_table.stamps@, *event, now) ==> r == Ok::<
                Reaction,
                GeometryError,
            >(Reaction::Debounced),
            !is_debounced(old(self).debounce_table.stamps@, *event, now) ==> match *event {
                Event::StopEventLoop => r == Ok::<Reaction, GeometryError>(Reaction::Stop),
                Event::Redraw => is_handled(r) && handled_geometry(r) is None && handled_plan(r) is Some
                    && is_render_of(handled_plan(r)->Some_0, old(self).render_queue@, old(self).window),
                Event::ParentResize(size) => (refresh_outcome(old(self).window, size) is Err <==> r is Err)
                    && (r is Ok ==> is_handled(r) && handled_plan(r) is Some && is_render_of(
                    handled_plan(r)->Some_0,
                    final(self).render_queue@,
                    final(self).window,
                ) && handled_geometry(r) == (if refresh_outcome(old(self).window, size) == Ok::<
                    bool,
                    GeometryError,
                >(true) {
                    Some(refreshed(old(self).window, size).geometry())
                } else {
                    None
                })),
                _ => is_handled(r) && handled_geometry(r) is None && handled_plan(r) is None,
            },
    {
        if event.is_debounce(&mut self.debounce_table, now) {
            return Ok(Reaction::Debounced);
        }
        match event {
            Event::ParentResize(size) => {
                let configure = match self.refresh(*size) {
                    Ok(g) => g,
                    Err(e) => {
                        return Err(e);
                    },
                };
                let plan = self.draw();
                Ok(Reaction::Handled { configure, draw: Some(plan) })
            },
            Event::Redraw => {
                let plan = self.draw();
                Ok(Reaction::Handled { configure: None, draw: Some(plan) })
            },
            Event::MouseMotion { coord } => {
                self.last_mouse_pos = *coord;
                Ok(Reaction::Handled { configure: None, draw: None })
            },
            Event::StopEventLoop => {
                self.running = false;
                Ok(Reaction::Stop)
            },
            _ => Ok(Reaction::Handled { configure: None, draw: None }),
        }
    }

    /// Gives up the overlay, returning the overlay window, which is then
    /// to be destroyed. Taking the overlay by value means this happens once.
    pub fn free(self) -> (r: Window)
        ensures
            r == self.window,
    {
        self.window
    }
}

impl Drawable for Overlay {
    open spec fn handle(&self) -> u32 {
        self.window.id
    }

    open spec fn bits(&self) -> Depth {
        self.window.depth
    }

    open spec fn extent(&self) -> Vec2<u16> {
        self.window.size
    }

    open spec fn origin(&self) -> Vec2<i16> {
        self.window.pos
    }

    fn id(&self) -> u32 {
        self.window.id
    }

    fn size(&self) -> (r: Vec2<u16>) {
        self.window.size
    }

    fn position(&self) -> (r: Vec2<i16>) {
        self.window.pos
    }

    fn depth(&self) -> Depth {
        self.window.depth
    }
}

/// A stop request is never debounced: whatever the stamps and the time,
/// the overlay takes it in, and `react` then stops the loop.
pub proof fn lemma_stop_is_never_debounced(stamps: Seq<u64>, now: u64)
    requires
        stamps.len() == crate::event::DB_SIZE,
    ensures
        !is_debounced(stamps, Event::StopEventLoop, now),
        window_of(Event::StopEventLoop) == 0,
{
}

} // verus!
