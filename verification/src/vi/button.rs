//! A button: a bundle of chords with a key repeat timer.

use std::time::Duration;
use vstd::prelude::*;

use crate::input::frames::KeyFrames;
use crate::input::Input;
use crate::time::{duration_nanos, MAX_DURATION_NANOS};
use crate::vi::bundle::{
    any_down, any_pressed, any_released, bundle_state, InputBundle, KeyEntry, RawButtonState,
};
use crate::vi::repeat::{KeyRepeatConfig, KeyRepeatState, RepeatModel, RepeatRule};

verus! {

/// Down | Up | Pressed | Repeating | Released
#[derive(Debug, Clone, Copy, PartialEq, Eq, Structural)]
pub enum StrictButtonState {
    Down,
    Up,
    Pressed,
    Repeating,
    Released,
}

/// The state that a button shows: repeating in a frame that is a pulse, else
/// its raw state.
pub open spec fn strict_state(raw: RawButtonState, is_repeating: bool) -> StrictButtonState {
    if is_repeating {
        StrictButtonState::Repeating
    } else {
        match raw {
            RawButtonState::Down => StrictButtonState::Down,
            RawButtonState::Up => StrictButtonState::Up,
            RawButtonState::Pressed => StrictButtonState::Pressed,
            RawButtonState::Released => StrictButtonState::Released,
        }
    }
}

/// A button as its chords, the state it shows and its timer.
pub struct ButtonModel {
    pub chords: Seq<KeyEntry>,
    pub state: StrictButtonState,
    pub repeat: RepeatModel,
}

impl ButtonModel {
    /// The button that was never updated: up, with its timer at zero.
    pub open spec fn fresh(chords: Seq<KeyEntry>, rule: RepeatRule) -> ButtonModel {
        ButtonModel { chords, state: StrictButtonState::Up, repeat: RepeatModel::fresh(rule) }
    }

    /// The button after a frame of `dt` nanoseconds with the keys `frames`.
    pub open spec fn step(self, frames: KeyFrames, dt: nat) -> ButtonModel {
        let raw = bundle_state(self.chords, frames);
        let (repeat, is_repeating) = self.repeat.step(raw, dt);
        ButtonModel { chords: self.chords, state: strict_state(raw, is_repeating), repeat }
    }

    /// Whether the time held still fits into a `Duration` after that frame.
    pub open spec fn can_step(self, frames: KeyFrames, dt: nat) -> bool {
        self.repeat.can_step(bundle_state(self.chords, frames), dt)
    }

    /// Down, pressed and repeating all count as down.
    pub open spec fn is_down(self) -> bool {
        self.state == StrictButtonState::Down || self.state == StrictButtonState::Pressed
            || self.state == StrictButtonState::Repeating
    }

    /// Pressed and repeating count as pressed.
    pub open spec fn is_pressed(self) -> bool {
        self.state == StrictButtonState::Pressed || self.state == StrictButtonState::Repeating
    }

    /// How long the button has been down, in nanoseconds.
    pub open spec fn accum_down(self) -> nat {
        self.repeat.accum_down
    }
}

/// Input bundle with repeat state
#[derive(Debug, Clone)]
pub struct Button {
    pub input: InputBundle,
    pub state: StrictButtonState,
    pub repeat: KeyRepeatState,
}

impl View for Button {
    type V = ButtonModel;

    open spec fn view(&self) -> ButtonModel {
        ButtonModel { chords: self.input@, state: self.state, repeat: self.repeat@ }
    }
}

impl Button {
    /// The button for `bundle` that repeats by `repeat_cfg`: up, with its
    /// timer at zero. Every setting is taken.
    pub fn new(bundle: InputBundle, repeat_cfg: KeyRepeatConfig) -> (button: Button)
        ensures
            button@ == ButtonModel::fresh(bundle@, repeat_cfg@),
            button.input == bundle,
    {
        Button {
            input: bundle,
            state: StrictButtonState::Up,
            repeat: KeyRepeatState::new(repeat_cfg),
        }
    }

    /// Gives the button a new timer, at zero, that runs by `cfg`. Every
    /// setting is taken, also while the button is held.
    pub fn set_repeat_config(&mut self, cfg: KeyRepeatConfig)
        ensures
            final(self)@ == (ButtonModel { repeat: RepeatModel::fresh(cfg@), ..old(self)@ }),
            final(self).input == old(self).input,
    {
        self.repeat = KeyRepeatState::new(cfg);
    }

    /// The settings of the timer.
    pub fn repeat_config(&self) -> (cfg: KeyRepeatConfig)
        ensures
            cfg@ == self@.repeat.rule,
    {
        self.repeat.config()
    }

    pub fn is_down(&self) -> (r: bool)
        ensures
            r == self@.is_down(),
    {
        matches!(
            self.state,
            StrictButtonState::Down | StrictButtonState::Pressed | StrictButtonState::Repeating
        )
    }

    pub fn is_up(&self) -> (r: bool)
        ensures
            r == !self@.is_down(),
    {
        !self.is_down()
    }

    pub fn is_pressed(&self) -> (r: bool)
        ensures
            r == self@.is_pressed(),
    {
        matches!(self.state, StrictButtonState::Pressed | StrictButtonState::Repeating)
    }

    pub fn is_released(&self) -> (r: bool)
        ensures
            r == (self.state == StrictButtonState::Released),
    {
        matches!(self.state, StrictButtonState::Released)
    }

    /// How long it's been down
    pub fn accum_down(&self) -> (held: Duration)
        ensures
            duration_nanos(held) == self@.accum_down(),
    {
        self.repeat.accum_down()
    }

    /// How long it's been down, in nanoseconds
    pub fn accum_down_nanos(&self) -> (held: u128)
        ensures
            held == self@.accum_down(),
            held <= MAX_DURATION_NANOS,
    {
        self.repeat.accum_down_nanos()
    }

    /// Whether [`Button::update`] can take this frame: whether the time
    /// held still fits into a `Duration` after it.
    pub fn can_update(&self, input: &Input, dt: Duration) -> (ok: bool)
        ensures
            ok == self@.can_step(input@, duration_nanos(dt)),
    {
        let state = self.input.state(input);
        self.repeat.can_update(state, dt)
    }

    /// Takes the button through one frame that lasted `dt`.
    pub fn update(&mut self, input: &Input, dt: Duration)
        requires
            old(self)@.can_step(input@, duration_nanos(dt)),
        ensures
            final(self)@ == old(self)@.step(input@, duration_nanos(dt)),
            final(self).input == old(self).input,
    {
        let state = self.input.state(input);

        let is_repeating = self.repeat.update(state, dt);

        self.state = if is_repeating {
            StrictButtonState::Repeating
        } else {
            match state {
                RawButtonState::Down => StrictButtonState::Down,
                RawButtonState::Up => StrictButtonState::Up,
                RawButtonState::Pressed => StrictButtonState::Pressed,
                RawButtonState::Released => StrictButtonState::Released,
            }
        };
    }

    /// Takes the button through one frame that lasted `dt`, if the time held
    /// still fits into a `Duration` after it; else the button stays as it
    /// is. Says whether the frame was taken.
    pub fn try_update(&mut self, input: &Input, dt: Duration) -> (done: bool)
        ensures
            done == old(self)@.can_step(input@, duration_nanos(dt)),
            done ==> final(self)@ == old(self)@.step(input@, duration_nanos(dt)),
            !done ==> final(self)@ == old(self)@,
            final(self).input == old(self).input,
    {
        if self.can_update(input, dt) {
            self.update(input, dt);
            true
        } else {
            false
        }
    }
}

/// A button is pressed only while it is down, and what it shows after a
/// frame follows its bundle: down exactly if the bundle is pressed or down.
pub proof fn law_button_follows_bundle(button: ButtonModel, frames: KeyFrames, dt: nat)
    ensures
        button.is_pressed() ==> button.is_down(),
        button.step(frames, dt).is_down() <==> bundle_state(button.chords, frames)
            == RawButtonState::Pressed || bundle_state(button.chords, frames)
            == RawButtonState::Down,
        button.step(frames, dt).state == StrictButtonState::Repeating ==> bundle_state(
            button.chords,
            frames,
        ) == RawButtonState::Down,
        bundle_state(button.chords, frames) == RawButtonState::Pressed ==> button.step(
            frames,
            dt,
        ).state == StrictButtonState::Pressed,
{
}

/// Pressed and released last one frame, down and repeating last while the
/// button is held: in a frame that follows without an event in between, a
/// button that was down in any way is down or repeating, and every other
/// button is up.
pub proof fn law_edges_last_one_frame(button: ButtonModel, frames: KeyFrames, dt: nat, next_dt: nat)
    ensures
        button.step(frames, dt).is_down() ==> button.step(frames, dt).step(
            frames.end_frame(),
            next_dt,
        ).state == StrictButtonState::Down || button.step(frames, dt).step(
            frames.end_frame(),
            next_dt,
        ).state == StrictButtonState::Repeating,
        !button.step(frames, dt).is_down() ==> button.step(frames, dt).step(
            frames.end_frame(),
            next_dt,
        ).state == StrictButtonState::Up,
{
    let chords = button.chords;
    let next = frames.end_frame();
    assert(!any_pressed(chords, next));
    assert(!any_released(chords, next));
    if any_pressed(chords, frames) {
        let i = choose|i: int| 0 <= i < chords.len() && (#[trigger] chords[i]).is_pressed_in(frames);
        assert(chords[i].is_down_in(next.current));
    }
    if any_down(chords, frames) {
        let i = choose|i: int|
            0 <= i < chords.len() && (#[trigger] chords[i]).is_down_in(frames.current);
        assert(chords[i].is_down_in(next.current));
    }
    if any_down(chords, next) {
        let i = choose|i: int|
            0 <= i < chords.len() && (#[trigger] chords[i]).is_down_in(next.current);
        assert(chords[i].is_down_in(frames.current));
    }
}

/// A button that was never down has been down for no time.
pub proof fn law_fresh_button_is_up(chords: Seq<KeyEntry>, rule: RepeatRule)
    ensures
        !ButtonModel::fresh(chords, rule).is_down(),
        !ButtonModel::fresh(chords, rule).is_pressed(),
        ButtonModel::fresh(chords, rule).accum_down() == 0,
{
}

} // verus!
