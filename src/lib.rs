//! Overlays for X11 windows without a compositor.
//!
//! An overlay is a borderless window attached to an existing top-level
//! window (its parent). Shapes are drawn into it, and a 1-bit bounding mask
//! makes everything outside them, and every `TRANSPARENT` region, show the
//! windows underneath. Input and geometry notifications of the parent are
//! translated into a small set of events.
//!
//! This crate holds the overlay's logic as verified code: geometry
//! resolution (`window`), fractional coordinates (`coord`), shapes and
//! resize policies (`shape`, `resize`), the two-pass render plan
//! (`render`), event translation and debouncing (`event`), the event
//! loop's decisions (`overlay`) and fuzzy window-name matching (`names`).
//! Talking to the server is left to the caller.
use vstd::prelude::*;

pub mod color;
pub mod key;
pub mod vec;
pub mod coord;
pub mod window;
pub mod shape;
pub mod resize;
pub mod render;
pub mod event;
pub mod overlay;
pub mod names;

pub use color::Color;
pub use overlay::Overlay;
pub use resize::ResizePolicy;
pub use window::{Drawable, Mapping, Window};

verus! {

} // verus!
