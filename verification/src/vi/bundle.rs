//! Key chords, and bundles of chords that stand for one button.
//!
//! A chord is a key with the modifiers that must be held with it. A bundle
//! is satisfied by any one of its chords. Each frame a bundle has one of four
//! raw states, and the first of these rules that applies decides it:
//! a chord is pressed; a chord is down; a chord is released; none of these.

use vstd::prelude::*;

use crate::input::frames::KeyFrames;
use crate::input::key::Key;
use crate::input::Input;

verus! {

/// Down | Up | Pressed | Released
///
/// Repeats are not considered.
#[derive(Debug, Clone, Copy, PartialEq, Eq, Structural)]
pub enum RawButtonState {
    Down,
    Up,
    Pressed,
    Released,
}

/// [`Key`] with optionally modifier keys
///
/// A modifier that is asked for is held when its left or its right key is
/// down.
#[derive(Debug, Clone, Copy, PartialEq, Eq, Hash, Structural)]
pub struct KeyEntry {
    pub key: Key,
    pub ctrl: bool,
    pub shift: bool,
    pub meta: bool,
}

impl From<Key> for KeyEntry {
    fn from(key: Key) -> (entry: KeyEntry) {
        KeyEntry { key, ctrl: false, shift: false, meta: false }
    }
}

impl vstd::std_specs::convert::FromSpecImpl<Key> for KeyEntry {
    open spec fn obeys_from_spec() -> bool {
        true
    }

    open spec fn from_spec(key: Key) -> KeyEntry {
        KeyEntry { key, ctrl: false, shift: false, meta: false }
    }
}

impl KeyEntry {
    /// The chord of `key` alone.
    pub fn key(key: Key) -> (entry: KeyEntry)
        ensures
            entry == (KeyEntry { key, ctrl: false, shift: false, meta: false }),
    {
        KeyEntry { key, ctrl: false, shift: false, meta: false }
    }

    /// The chord of `key` with the modifiers whose flag is set.
    pub fn new(key: Key, ctrl: bool, shift: bool, meta: bool) -> (entry: KeyEntry)
        ensures
            entry == (KeyEntry { key, ctrl, shift, meta }),
    {
        KeyEntry { key, ctrl, shift, meta }
    }

    /// Whether every modifier of the chord is held among the keys `down`.
    pub open spec fn modifiers_down(self, down: Set<Key>) -> bool {
        &&& self.ctrl ==> down.contains(Key::LCtrl) || down.contains(Key::RCtrl)
        &&& self.shift ==> down.contains(Key::LShift) || down.contains(Key::RShift)
        &&& self.meta ==> down.contains(Key::LMeta) || down.contains(Key::RMeta)
    }

    /// Whether the key of the chord and all its modifiers are among the keys
    /// `down`.
    pub open spec fn is_down_in(self, down: Set<Key>) -> bool {
        down.contains(self.key) && self.modifiers_down(down)
    }

    /// Whether the key of the chord went down in this frame while all its
    /// modifiers are down. The modifiers need no edge of their own.
    pub open spec fn is_pressed_in(self, frames: KeyFrames) -> bool {
        frames.is_pressed(self.key) && self.modifiers_down(frames.current)
    }

    /// Whether the chord was down when the frame began and is not down now.
    pub open spec fn is_released_in(self, frames: KeyFrames) -> bool {
        self.is_down_in(frames.previous) && !self.is_down_in(frames.current)
    }

    /// Whether every modifier of the chord is held now.
    fn modifiers_down_now(&self, input: &Input) -> (r: bool)
        ensures
            r == self.modifiers_down(input@.current),
    {
        let kbd = &input.kbd;
        let ctrl = !self.ctrl || kbd.is_key_down(Key::LCtrl) || kbd.is_key_down(Key::RCtrl);
        let shift = !self.shift || kbd.is_key_down(Key::LShift) || kbd.is_key_down(Key::RShift);
        let meta = !self.meta || kbd.is_key_down(Key::LMeta) || kbd.is_key_down(Key::RMeta);
        ctrl && shift && meta
    }

    /// Whether every modifier of the chord was held when the frame began.
    fn modifiers_down_before(&self, input: &Input) -> (r: bool)
        ensures
            r == self.modifiers_down(input@.previous),
    {
        let kbd = &input.kbd;
        let ctrl = !self.ctrl || kbd.was_key_down(Key::LCtrl) || kbd.was_key_down(Key::RCtrl);
        let shift = !self.shift || kbd.was_key_down(Key::LShift) || kbd.was_key_down(Key::RShift);
        let meta = !self.meta || kbd.was_key_down(Key::LMeta) || kbd.was_key_down(Key::RMeta);
        ctrl && shift && meta
    }
}

/// Whether some chord of `chords` is pressed.
pub open spec fn any_pressed(chords: Seq<KeyEntry>, frames: KeyFrames) -> bool {
    exists|i: int| 0 <= i < chords.len() && (#[trigger] chords[i]).is_pressed_in(frames)
}

/// Whether some chord of `chords` is down.
pub open spec fn any_down(chords: Seq<KeyEntry>, frames: KeyFrames) -> bool {
    exists|i: int| 0 <= i < chords.len() && (#[trigger] chords[i]).is_down_in(frames.current)
}

/// Whether some chord of `chords` is released.
pub open spec fn any_released(chords: Seq<KeyEntry>, frames: KeyFrames) -> bool {
    exists|i: int| 0 <= i < chords.len() && (#[trigger] chords[i]).is_released_in(frames)
}

/// The raw state of a bundle of `chords`: pressed before down before released
/// before up, whatever the order of the chords.
pub open spec fn bundle_state(chords: Seq<KeyEntry>, frames: KeyFrames) -> RawButtonState {
    if any_pressed(chords, frames) {
        RawButtonState::Pressed
    } else if any_down(chords, frames) {
        RawButtonState::Down
    } else if any_released(chords, frames) {
        RawButtonState::Released
    } else {
        RawButtonState::Up
    }
}

/// Set of any kind of inputs
#[derive(Debug, Clone)]
pub struct InputBundle {
    pub keys: Vec<KeyEntry>,
}

impl Default for InputBundle {
    /// The bundle without chords, which is always up.
    fn default() -> (bundle: InputBundle)
        ensures
            bundle@ == Seq::<KeyEntry>::empty(),
    {
        InputBundle { keys: Vec::new() }
    }
}

impl View for InputBundle {
    type V = Seq<KeyEntry>;

    /// The chords of the bundle.
    open spec fn view(&self) -> Seq<KeyEntry> {
        self.keys@
    }
}

impl InputBundle {
    /// The bundle of `keys`.
    pub fn new(keys: Vec<KeyEntry>) -> (bundle: InputBundle)
        ensures
            bundle@ == keys@,
    {
        InputBundle { keys }
    }

    /// A bundle with the same chords.
    pub fn duplicate(&self) -> (bundle: InputBundle)
        ensures
            bundle@ == self@,
    {
        let mut keys: Vec<KeyEntry> = Vec::with_capacity(self.keys.len());
        let mut i: usize = 0;
        while i < self.keys.len()
            invariant
                i <= self.keys@.len(),
                keys@ == self.keys@.subrange(0, i as int),
            decreases self.keys@.len() - i,
        {
            keys.push(self.keys[i]);
            i = i + 1;
        }
        InputBundle { keys }
    }

    /// The raw state of the bundle in this frame.
    pub fn state(&self, input: &Input) -> (r: RawButtonState)
        ensures
            r == bundle_state(self@, input@),
    {
        let mut is_any_down = false;
        let mut is_any_released = false;
        let mut i: usize = 0;
        while i < self.keys.len()
            invariant
                i <= self@.len(),
                !any_pressed(self@.subrange(0, i as int), input@),
                is_any_down == any_down(self@.subrange(0, i as int), input@),
                is_any_released == any_released(self@.subrange(0, i as int), input@),
            decreases self@.len() - i,
        {
            let entry: KeyEntry = self.keys[i];
            let is_pressed = input.kbd.is_key_pressed(entry.key) && entry.modifiers_down_now(input);
            let is_down = input.kbd.is_key_down(entry.key) && entry.modifiers_down_now(input);
            let is_down_prev = input.kbd.was_key_down(entry.key) && entry.modifiers_down_before(
                input,
            );
            proof {
                lemma_any_extends(self@, i as int, input@);
            }
            if is_pressed {
                proof {
                    assert(self@[i as int].is_pressed_in(input@));
                }
                return RawButtonState::Pressed;
            }
            is_any_down = is_any_down || is_down;
            is_any_released = is_any_released || (is_down_prev && !is_down);
            i = i + 1;
        }
        proof {
            assert(self@.subrange(0, i as int) == self@);
        }
        if is_any_down {
            RawButtonState::Down
        } else {
            if is_any_released {
                RawButtonState::Released
            } else {
                RawButtonState::Up
            }
        }
    }
}

/// What holds of the first `i + 1` chords, by what holds of the first `i`
/// and of the chord at `i`.
proof fn lemma_any_extends(chords: Seq<KeyEntry>, i: int, frames: KeyFrames)
    requires
        0 <= i < chords.len(),
    ensures
        any_pressed(chords.subrange(0, i + 1), frames) == (any_pressed(
            chords.subrange(0, i),
            frames,
        ) || chords[i].is_pressed_in(frames)),
        any_down(chords.subrange(0, i + 1), frames) == (any_down(chords.subrange(0, i), frames)
            || chords[i].is_down_in(frames.current)),
        any_released(chords.subrange(0, i + 1), frames) == (any_released(
            chords.subrange(0, i),
            frames,
        ) || chords[i].is_released_in(frames)),
{
    let short = chords.subrange(0, i);
    let long = chords.subrange(0, i + 1);
    assert(long[i] == chords[i]);
    assert forall|j: int| 0 <= j < i implies short[j] == long[j] by {}
    if any_pressed(short, frames) {
        let j = choose|j: int| 0 <= j < short.len() && (#[trigger] short[j]).is_pressed_in(frames);
        assert(long[j].is_pressed_in(frames));
    }
    if any_pressed(long, frames) {
        let j = choose|j: int| 0 <= j < long.len() && (#[trigger] long[j]).is_pressed_in(frames);
        if j < i {
            assert(short[j].is_pressed_in(frames));
        }
    }
    if any_down(short, frames) {
        let j = choose|j: int|
            0 <= j < short.len() && (#[trigger] short[j]).is_down_in(frames.current);
        assert(long[j].is_down_in(frames.current));
    }
    if any_down(long, frames) {
        let j = choose|j: int|
            0 <= j < long.len() && (#[trigger] long[j]).is_down_in(frames.current);
        if j < i {
            assert(short[j].is_down_in(frames.current));
        }
    }
    if any_released(short, frames) {
        let j = choose|j: int| 0 <= j < short.len() && (#[trigger] short[j]).is_released_in(frames);
        assert(long[j].is_released_in(frames));
    }
    if any_released(long, frames) {
        let j = choose|j: int| 0 <= j < long.len() && (#[trigger] long[j]).is_released_in(frames);
        if j < i {
            assert(short[j].is_released_in(frames));
        }
    }
}

/// While nothing happened since the frame began, a bundle is down or up:
/// nothing is pressed and nothing is released.
pub proof fn law_no_edge_without_event(chords: Seq<KeyEntry>, frames: KeyFrames)
    requires
        frames.previous == frames.current,
    ensures
        bundle_state(chords, frames) == RawButtonState::Down || bundle_state(chords, frames)
            == RawButtonState::Up,
{
}

/// The state of a bundle does not depend on the order of its chords: two
/// bundles with the same chords, in any order and any number of times, have
/// the same state.
pub proof fn law_state_ignores_order(a: Seq<KeyEntry>, b: Seq<KeyEntry>, frames: KeyFrames)
    requires
        forall|entry: KeyEntry| a.contains(entry) <==> b.contains(entry),
    ensures
        bundle_state(a, frames) == bundle_state(b, frames),
{
    lemma_any_by_contents(a, b, frames);
    lemma_any_by_contents(b, a, frames);
}

/// What holds of some chord of one bundle holds of some chord of every
/// bundle that has all its chords.
proof fn lemma_any_by_contents(a: Seq<KeyEntry>, b: Seq<KeyEntry>, frames: KeyFrames)
    requires
        forall|entry: KeyEntry| a.contains(entry) ==> b.contains(entry),
    ensures
        any_pressed(a, frames) ==> any_pressed(b, frames),
        any_down(a, frames) ==> any_down(b, frames),
        any_released(a, frames) ==> any_released(b, frames),
{
    if any_pressed(a, frames) {
        let i = choose|i: int| 0 <= i < a.len() && (#[trigger] a[i]).is_pressed_in(frames);
        assert(a.contains(a[i]));
        let j = choose|j: int| 0 <= j < b.len() && b[j] == a[i];
        assert(b[j].is_pressed_in(frames));
    }
    if any_down(a, frames) {
        let i = choose|i: int| 0 <= i < a.len() && (#[trigger] a[i]).is_down_in(frames.current);
        assert(a.contains(a[i]));
        let j = choose|j: int| 0 <= j < b.len() && b[j] == a[i];
        assert(b[j].is_down_in(frames.current));
    }
    if any_released(a, frames) {
        let i = choose|i: int| 0 <= i < a.len() && (#[trigger] a[i]).is_released_in(frames);
        assert(a.contains(a[i]));
        let j = choose|j: int| 0 <= j < b.len() && b[j] == a[i];
        assert(b[j].is_released_in(frames));
    }
}

/// A chord that is down hides a release elsewhere in the bundle: with some
/// chord down and none pressed the bundle is down.
pub proof fn law_down_masks_release(chords: Seq<KeyEntry>, frames: KeyFrames, i: int)
    requires
        0 <= i < chords.len(),
        chords[i].is_down_in(frames.current),
        !any_pressed(chords, frames),
    ensures
        bundle_state(chords, frames) == RawButtonState::Down,
{
}

} // verus!
