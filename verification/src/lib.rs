//! Per-frame keyboard and mouse state, and virtual buttons built on top of it.
//!
//! # Getting started
//!
//! Create [`Input`] and manage the lifecycle: hand it the key events of each
//! frame and end each frame once. Raw key events are recorded in a
//! double-buffered bitset ([`Keyboard`]); at the end of a frame the current
//! buffer is copied over the previous one, and the difference between the
//! two gives press and release edges. The [`vi`]
//! module resolves those edges into buttons with key repeat, signed axes and
//! four- or eight-way directions.

use vstd::prelude::*;

pub mod axis;
pub mod input;
pub mod platform;
pub mod time;
pub mod utils;
pub mod vi;

pub use crate::axis::{Dir4, Dir8, Sign};
pub use crate::input::keyboard::{Key, Keyboard};
pub use crate::input::Input;

verus! {

/// Updates [`Input`] for a specific platform
///
/// A platform has events and key codes of its own. Its backend reads what
/// the library needs from each event and hands it to the input.
pub trait Backend {
    type Event;

    type Key;

    fn on_event(&self, input: &mut Input, ev: &Self::Event);

    fn on_end_frame(&self, input: &mut Input);
}

} // verus!
