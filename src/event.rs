//! Events: what the overlay reports to its handler, how raw server
//! notifications translate into them, and how repeated events are
//! debounced.
use vstd::prelude::*;
use crate::coord::{Coord, div_trunc_i64};
use crate::key::{Key, keyref_of};
use crate::vec::{Vec2, div_trunc};

verus! {

/// A mouse button.
#[derive(Debug, PartialEq, Eq, Structural, Clone, Copy)]
pub enum Button {
    Left,
    Middle,
    Right,
    Unknown,
}

/// The button of a raw button code: 1, 2 and 3 are left, middle and right.
pub open spec fn button_of(detail: u32) -> Button {
    if detail == 1 {
        Button::Left
    } else if detail == 2 {
        Button::Middle
    } else if detail == 3 {
        Button::Right
    } else {
        Button::Unknown
    }
}

/// What happened, as the overlay reports it.
#[derive(Debug, PartialEq, Eq)]
pub enum Event {
    /// The parent window now has this size.
    ParentResize(Vec2<u16>),
    /// A mouse button was pressed while the parent had the focus, at the
    /// last known pointer position.
    MousePress { button: Button, coord: Coord },
    /// The pointer moved to this position (a fraction of the overlay).
    MouseMotion { coord: Coord },
    /// A key was pressed while the parent had the focus.
    KeyPress(Key),
    /// A key was released while the parent had the focus.
    KeyRelease(Key),
    /// The overlay should be drawn again.
    Redraw,
    /// The event loop should stop.
    StopEventLoop,
    /// Input that was suppressed because the parent lacked the focus.
    Nothing,
    /// A notification with no meaning for the overlay.
    Unkown,
}

/// A server notification, reduced to what the overlay reads of it.
#[derive(Debug, PartialEq, Eq, Structural, Clone, Copy)]
pub enum RawEvent {
    /// Pointer motion over the parent, in 16.16 fixed-point pixels.
    Motion { event_x: i32, event_y: i32 },
    /// A raw key press anywhere on the screen.
    RawKeyPress { detail: u32 },
    /// A raw button press anywhere on the screen.
    RawButtonPress { detail: u32 },
    /// A window's geometry changed.
    Configure { window: u32, width: u16, height: u16 },
    /// A window became visible.
    MapNotify,
    /// A copy produced no exposure to repaint.
    NoExposure,
    /// Any other notification.
    Other,
}

impl RawEvent {
    /// Whether the translation of this notification depends on the parent
    /// having the focus (raw key and button presses).
    pub open spec fn spec_needs_focus(self) -> bool {
        self is RawKeyPress || self is RawButtonPress
    }

    /// Whether the translation of this notification depends on the parent
    /// having the focus: only then need the focus be queried.
    pub fn needs_focus(&self) -> (r: bool)
        ensures
            r == self.spec_needs_focus(),
    {
        match self {
            RawEvent::RawKeyPress { .. } => true,
            RawEvent::RawButtonPress { .. } => true,
            _ => false,
        }
    }
}

/// A pointer offset in 16.16 fixed-point pixels as a fraction of an extent
/// of `extent` pixels (zero for an empty extent).
pub open spec fn normalized(v: i32, extent: u16) -> i32 {
    if extent == 0 {
        0
    } else {
        div_trunc(v as int, extent as int) as i32
    }
}

fn normalize(v: i32, extent: u16) -> (r: i32)
    ensures
        r == normalized(v, extent),
{
    if extent == 0 {
        0
    } else {
        let q = div_trunc_i64(v as i64, extent as i64);
        proof {
            let a = v as int;
            let e = extent as int;
            if a >= 0 {
                assert(a / e <= a) by (nonlinear_arith)
                    requires
                        a >= 0,
                        e >= 1,
                ;
            } else {
                assert((-a) / e <= -a) by (nonlinear_arith)
                    requires
                        a < 0,
                        e >= 1,
                ;
            }
        }
        q as i32
    }
}

/// The event a notification translates to. `focused` is whether the parent
/// has the focus, `size` the overlay's size (pointer positions are
/// fractions of it), `parent` the parent's handle, `parent_size` the
/// parent's recorded size (a geometry change of the parent to another size
/// is a resize) and `mouse` the last pointer position.
pub open spec fn translation(
    raw: RawEvent,
    focused: bool,
    size: Vec2<u16>,
    parent: u32,
    parent_size: Vec2<u16>,
    mouse: Coord,
) -> Event {
    match raw {
        RawEvent::Motion { event_x, event_y } => Event::MouseMotion {
            coord: Vec2 { x: normalized(event_x, size.x), y: normalized(event_y, size.y) },
        },
        RawEvent::RawKeyPress { detail } => {
            if !focused {
                Event::Nothing
            } else {
                Event::KeyPress(Key(keyref_of(detail as u8)))
            }
        },
        RawEvent::RawButtonPress { detail } => {
            if !focused {
                Event::Nothing
            } else {
                Event::MousePress { button: button_of(detail), coord: mouse }
            }
        },
        RawEvent::Configure { window, width, height } => {
            if window == parent && (Vec2 { x: width, y: height }) != parent_size {
                Event::ParentResize(Vec2 { x: width, y: height })
            } else {
                Event::Unkown
            }
        },
        RawEvent::MapNotify => Event::Redraw,
        RawEvent::NoExposure => Event::Redraw,
        RawEvent::Other => Event::Unkown,
    }
}

impl Event {
    /// Translates a notification. `focused` is whether the parent has the
    /// focus (read only for key and button presses), `size` the overlay's
    /// size, `parent` the parent's handle, `parent_size` the parent's
    /// recorded size and `mouse` the last pointer position.
    pub fn from_raw(
        raw: &RawEvent,
        focused: bool,
        size: Vec2<u16>,
        parent: u32,
        parent_size: Vec2<u16>,
        mouse: Coord,
    ) -> (r: Event)
        ensures
            r == translation(*raw, focused, size, parent, parent_size, mouse),
    {
        match raw {
            RawEvent::Motion { event_x, event_y } => Event::MouseMotion {
                coord: Vec2 { x: normalize(*event_x, size.x), y: normalize(*event_y, size.y) },
            },
            RawEvent::RawKeyPress { detail } => {
                if !focused {
                    Event::Nothing
                } else {
                    Event::KeyPress(Key::from_xorg_raw(*detail as u8))
                }
            },
            RawEvent::RawButtonPress { detail } => {
                if !focused {
                    Event::Nothing
                } else {
                    let button = match detail {
                        1 => Button::Left,
                        2 => Button::Middle,
                        3 => Button::Right,
                        _ => Button::Unknown,
                    };
                    Event::MousePress { button, coord: mouse }
                }
            },
            RawEvent::Configure { window, width, height } => {
                if *window == parent && !(*width == parent_size.x && *height == parent_size.y) {
                    Event::ParentResize(Vec2 { x: *width, y: *height })
                } else {
                    Event::Unkown
                }
            },
            RawEvent::MapNotify => Event::Redraw,
            RawEvent::NoExposure => Event::Redraw,
            RawEvent::Other => Event::Unkown,
        }
    }
}

/// The number of debounce slots, one per kind of event.
pub const DB_SIZE: usize = 9;

/// The debounce slot of an event's kind.
pub open spec fn slot_of(e: Event) -> int {
    match e {
        Event::ParentResize(_) => 0,
        Event::MousePress { .. } => 1,
        Event::MouseMotion { .. } => 2,
        Event::KeyPress(_) => 3,
        Event::KeyRelease(_) => 4,
        Event::Redraw => 5,
        Event::StopEventLoop => 6,
        Event::Nothing => 7,
        Event::Unkown => 8,
    }
}

/// The debounce window of an event's kind, in milliseconds: 25 for
/// `Redraw`, none for the others.
pub open spec fn window_of(e: Event) -> u64 {
    if e is Redraw {
        25
    } else {
        0
    }
}

/// Milliseconds from `last` to `now` (zero if `now` is earlier).
pub open spec fn elapsed(last: u64, now: u64) -> int {
    if now >= last {
        now - last
    } else {
        0
    }
}

/// Whether an event at `now` is dropped, given the debounce stamps: when
/// less than its kind's window has passed since its kind last went through.
pub open spec fn is_debounced(stamps: Seq<u64>, e: Event, now: u64) -> bool {
    elapsed(stamps[slot_of(e)], now) < window_of(e)
}

/// The debounce stamps after an event at `now`: its kind's stamp moves to
/// `now` when the event goes through.
pub open spec fn stamps_after(stamps: Seq<u64>, e: Event, now: u64) -> Seq<u64> {
    if is_debounced(stamps, e, now) {
        stamps
    } else {
        stamps.update(slot_of(e), now)
    }
}

/// For each kind of event, when one last went through (milliseconds on a
/// monotonic clock).
#[derive(Debug)]
pub struct DebounceTable {
    pub stamps: Vec<u64>,
}

impl DebounceTable {
    /// One stamp per kind of event.
    pub open spec fn wf(self) -> bool {
        self.stamps@.len() == DB_SIZE
    }
}

impl Event {
    /// The debounce slot of this event's kind.
    pub fn debounce_table_index(&self) -> (r: usize)
        ensures
            r == slot_of(*self),
    {
        match self {
            Event::ParentResize(_) => 0,
            Event::MousePress { .. } => 1,
            Event::MouseMotion { .. } => 2,
            Event::KeyPress(_) => 3,
            Event::KeyRelease(_) => 4,
            Event::Redraw => 5,
            Event::StopEventLoop => 6,
            Event::Nothing => 7,
            Event::Unkown => 8,
        }
    }

    /// The debounce window of this event's kind, in milliseconds.
    pub fn debounce_table_timing(&self) -> (r: u64)
        ensures
            r == window_of(*self),
    {
        match self {
            Event::Redraw => 25,
            _ => 0,
        }
    }

    /// A table whose every stamp is `now`.
    pub fn gen_debounce_table(now: u64) -> (r: DebounceTable)
        ensures
            r.wf(),
            forall|i: int| 0 <= i < DB_SIZE ==> r.stamps@[i] == now,
    {
        let mut stamps: Vec<u64> = Vec::new();
        let mut i: usize = 0;
        while i < DB_SIZE
            invariant
                0 <= i <= DB_SIZE,
                stamps@.len() == i,
                forall|j: int| 0 <= j < i ==> stamps@[j] == now,
            decreases DB_SIZE - i,
        {
            stamps.push(now);
            i += 1;
        }
        DebounceTable { stamps }
    }

    /// Whether this event, arriving at `now`, is dropped; when it is not,
    /// its kind's stamp moves to `now`.
    pub fn is_debounce(&self, table: &mut DebounceTable, now: u64) -> (r: bool)
        requires
            old(table).wf(),
        ensures
            final(table).wf(),
            r == is_debounced(old(table).stamps@, *self, now),
            final(table).stamps@ == stamps_after(old(table).stamps@, *self, now),
    {
        let index = self.debounce_table_index();
        let timing = self.debounce_table_timing();
        let last = table.stamps[index];
        let elapsed: u64 = if now >= last {
            now - last
        } else {
            0
        };
        if elapsed < timing {
            true
        } else {
            table.stamps.set(index, now);
            false
        }
    }
}

/// Focus gating: a raw key or button press while the parent lacks the
/// focus translates to `Nothing`.
pub proof fn lemma_unfocused_input_is_nothing(
    raw: RawEvent,
    size: Vec2<u16>,
    parent: u32,
    parent_size: Vec2<u16>,
    mouse: Coord,
)
    requires
        raw.spec_needs_focus(),
    ensures
        translation(raw, false, size, parent, parent_size, mouse) == Event::Nothing,
{
}

/// Debounce: of two `Redraw`s at `t1` and then `t2`, when the first goes
/// through, the second is dropped exactly when less than 25 ms separate
/// them. Events of other kinds are never dropped.
pub proof fn lemma_redraw_debounce(stamps: Seq<u64>, t1: u64, t2: u64, e: Event)
    requires
        stamps.len() == DB_SIZE,
        t1 <= t2,
        !is_debounced(stamps, Event::Redraw, t1),
    ensures
        is_debounced(stamps_after(stamps, Event::Redraw, t1), Event::Redraw, t2) <==> t2 - t1 < 25,
        !(e is Redraw) ==> !is_debounced(stamps, e, t2),
{
}

} // verus!
