//! Keys reported by raw key-press notifications.
use vstd::prelude::*;
use std::marker::PhantomData;

verus! {

/// Raw keycode of the up arrow.
pub const ARROW_UP: u8 = 111;

/// Raw keycode of the right arrow.
pub const ARROW_RIGHT: u8 = 114;

/// Raw keycode of the down arrow.
pub const ARROW_DOWN: u8 = 116;

/// Raw keycode of the left arrow.
pub const ARROW_LEFT: u8 = 113;

/// The symbol of a key. Only the arrow keys are named; every other keycode
/// is `Unkown`.
#[derive(Debug, PartialEq, Eq)]
pub enum KeyRef {
    ArrowUp,
    ArrowRight,
    ArrowDown,
    ArrowLeft,
    Unkown(PhantomData<()>),
}

/// The symbol of a raw keycode.
pub open spec fn keyref_of(detail: u8) -> KeyRef {
    if detail == ARROW_UP {
        KeyRef::ArrowUp
    } else if detail == ARROW_RIGHT {
        KeyRef::ArrowRight
    } else if detail == ARROW_DOWN {
        KeyRef::ArrowDown
    } else if detail == ARROW_LEFT {
        KeyRef::ArrowLeft
    } else {
        KeyRef::Unkown(PhantomData)
    }
}

impl From<u8> for KeyRef {
    fn from(detail: u8) -> (r: Self)
        ensures
            r == keyref_of(detail),
    {
        match detail {
            ARROW_UP => KeyRef::ArrowUp,
            ARROW_RIGHT => KeyRef::ArrowRight,
            ARROW_DOWN => KeyRef::ArrowDown,
            ARROW_LEFT => KeyRef::ArrowLeft,
            _ => KeyRef::Unkown(PhantomData),
        }
    }
}

impl vstd::std_specs::convert::FromSpecImpl<u8> for KeyRef {
    open spec fn obeys_from_spec() -> bool {
        true
    }

    open spec fn from_spec(v: u8) -> Self {
        keyref_of(v)
    }
}

/// A key of a key event (modifiers are not reported).
#[derive(Debug, PartialEq, Eq)]
pub struct Key(pub KeyRef);

impl Key {
    /// The key of a raw keycode.
    pub fn from_xorg_raw(detail: u8) -> (r: Self)
        ensures
            r.0 == keyref_of(detail),
    {
        let key = KeyRef::from(detail);
        Key(key)
    }
}

} // verus!
