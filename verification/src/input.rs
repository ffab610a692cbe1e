//! Input state of all devices.

use vstd::prelude::*;

pub mod frames;
pub mod key;
pub mod keyboard;
pub mod mouse;

use self::frames::KeyFrames;
use self::keyboard::Keyboard;
use crate::platform::{is_own_code_table, Event};

verus! {

/// All of the input states
#[derive(Debug, Clone)]
pub struct Input {
    pub kbd: Keyboard,
}

impl View for Input {
    type V = KeyFrames;

    /// The keys of the keyboard, now and when the frame began.
    open spec fn view(&self) -> KeyFrames {
        self.kbd@
    }
}

impl Default for Input {
    fn default() -> (input: Input)
        ensures
            input@ == KeyFrames::idle(),
            is_own_code_table(input.kbd.table()),
    {
        Input::new()
    }
}

impl Input {
    /// The input of a system that reports keys by the library's own numbers,
    /// with nothing held.
    pub fn new() -> (input: Input)
        ensures
            input@ == KeyFrames::idle(),
            is_own_code_table(input.kbd.table()),
    {
        Input { kbd: Keyboard::default() }
    }

    /// The input around `kbd`.
    pub fn with_keyboard(kbd: Keyboard) -> (input: Input)
        ensures
            input.kbd == kbd,
    {
        Input { kbd }
    }

    /// Takes in one event of the system.
    pub fn event(&mut self, ev: &Event)
        ensures
            final(self)@ == old(self).kbd.after_event(*ev),
            final(self).kbd.table() == old(self).kbd.table(),
    {
        self.kbd.event(ev);
    }

    /// Ends the frame: what is down now is what was down when the next
    /// frame begins. A press or a release can be seen from its event until
    /// the frame is ended.
    pub fn on_end_frame(&mut self)
        ensures
            final(self)@ == old(self)@.end_frame(),
            final(self).kbd.table() == old(self).kbd.table(),
    {
        // swap buffers
        self.kbd.on_end_frame();
    }

    /// Resets all the states
    pub fn clear(&mut self)
        ensures
            final(self)@ == KeyFrames::idle(),
            final(self).kbd.table() == old(self).kbd.table(),
    {
        self.kbd.clear();
    }
}

} // verus!
