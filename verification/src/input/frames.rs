//! The keyboard as two sets of keys, and what holds of it from frame to frame.
//!
//! A frame is the time between two calls of [`KeyFrames::end_frame`]. Key
//! events change the set of keys that are down now; the end of a frame copies
//! that set over the one of the frame before. A key is pressed while it is
//! down and was up when the frame began, so an edge can be seen from the event
//! until the end of its frame.

use vstd::prelude::*;

use crate::input::key::Key;

verus! {

/// The keys that are down now, and the keys that were down when the current
/// frame began.
pub struct KeyFrames {
    pub current: Set<Key>,
    pub previous: Set<Key>,
}

/// One thing that happens to a keyboard.
pub enum KeyOp {
    /// The key went down.
    Down(Key),
    /// The key went up.
    Up(Key),
    /// The frame ended.
    EndFrame,
}

impl KeyFrames {
    /// The keyboard with no key down, now or before.
    pub open spec fn idle() -> KeyFrames {
        KeyFrames { current: Set::empty(), previous: Set::empty() }
    }

    /// The state after `key` went down. [`Key::NoKey`] changes nothing.
    pub open spec fn key_down(self, key: Key) -> KeyFrames {
        if key == Key::NoKey {
            self
        } else {
            KeyFrames { current: self.current.insert(key), previous: self.previous }
        }
    }

    /// The state after `key` went up.
    pub open spec fn key_up(self, key: Key) -> KeyFrames {
        KeyFrames { current: self.current.remove(key), previous: self.previous }
    }

    /// The state after the frame ended: what is down now is what was down
    /// before.
    pub open spec fn end_frame(self) -> KeyFrames {
        KeyFrames { current: self.current, previous: self.current }
    }

    pub open spec fn is_down(self, key: Key) -> bool {
        self.current.contains(key)
    }

    pub open spec fn is_up(self, key: Key) -> bool {
        !self.current.contains(key)
    }

    /// Down now, up when the frame began.
    pub open spec fn is_pressed(self, key: Key) -> bool {
        !self.previous.contains(key) && self.current.contains(key)
    }

    /// Up now, down when the frame began.
    pub open spec fn is_released(self, key: Key) -> bool {
        self.previous.contains(key) && !self.current.contains(key)
    }

    /// [`Key::NoKey`] is in neither set.
    pub open spec fn wf(self) -> bool {
        !self.current.contains(Key::NoKey) && !self.previous.contains(Key::NoKey)
    }

    /// The state after `op`.
    pub open spec fn apply(self, op: KeyOp) -> KeyFrames {
        match op {
            KeyOp::Down(key) => self.key_down(key),
            KeyOp::Up(key) => self.key_up(key),
            KeyOp::EndFrame => self.end_frame(),
        }
    }

    /// The state after all of `ops`, first to last.
    pub open spec fn run(self, ops: Seq<KeyOp>) -> KeyFrames
        decreases ops.len(),
    {
        if ops.len() == 0 {
            self
        } else {
            self.run(ops.drop_last()).apply(ops.last())
        }
    }
}

/// A key that never went down is up: from the idle keyboard, after any events
/// and frame ends among which `key` does not go down, `key` is not down, and
/// it was not down when the frame began.
pub proof fn law_untouched_key_is_up(ops: Seq<KeyOp>, key: Key)
    requires
        forall|i: int| 0 <= i < ops.len() ==> ops[i] != KeyOp::Down(key),
    ensures
        !KeyFrames::idle().run(ops).is_down(key),
        KeyFrames::idle().run(ops).is_up(key),
        !KeyFrames::idle().run(ops).previous.contains(key),
    decreases ops.len(),
{
    if ops.len() > 0 {
        let front = ops.drop_last();
        assert forall|i: int| 0 <= i < front.len() implies front[i] != KeyOp::Down(key) by {
            assert(front[i] == ops[i]);
        }
        law_untouched_key_is_up(front, key);
        assert(ops.last() == ops[ops.len() - 1]);
    }
}

/// [`Key::NoKey`] is never down, whatever happens.
pub proof fn law_no_key_is_never_down(start: KeyFrames, ops: Seq<KeyOp>)
    requires
        start.wf(),
    ensures
        start.run(ops).wf(),
    decreases ops.len(),
{
    if ops.len() > 0 {
        law_no_key_is_never_down(start, ops.drop_last());
    }
}

/// After the end of a frame both sets are equal, so no key is pressed or
/// released until the next event; and ending the frame again changes nothing.
pub proof fn law_end_frame_leaves_no_edge(frames: KeyFrames, key: Key)
    ensures
        frames.end_frame().previous == frames.end_frame().current,
        frames.end_frame().end_frame() == frames.end_frame(),
        !frames.end_frame().is_pressed(key),
        !frames.end_frame().is_released(key),
        frames.end_frame().is_down(key) == frames.is_down(key),
{
}

/// A key that was up when the frame began and goes down is pressed for the
/// rest of that frame. After the end of the frame it is down and no longer
/// pressed.
pub proof fn law_press_edge(frames: KeyFrames, key: Key)
    requires
        key != Key::NoKey,
        !frames.previous.contains(key),
    ensures
        frames.key_down(key).is_pressed(key),
        frames.key_down(key).is_down(key),
        !frames.key_down(key).end_frame().is_pressed(key),
        frames.key_down(key).end_frame().is_down(key),
        !frames.key_down(key).end_frame().end_frame().is_pressed(key),
        frames.key_down(key).end_frame().end_frame().is_down(key),
{
}

/// A key that goes down, is held over the end of a frame and then goes up is
/// released for the rest of that frame. After the end of the frame it is up
/// and no longer released.
pub proof fn law_release_edge(frames: KeyFrames, key: Key)
    requires
        key != Key::NoKey,
    ensures
        frames.key_down(key).end_frame().key_up(key).is_released(key),
        frames.key_down(key).end_frame().key_up(key).is_up(key),
        !frames.key_down(key).end_frame().key_up(key).end_frame().is_released(key),
        frames.key_down(key).end_frame().key_up(key).end_frame().is_up(key),
{
}

} // verus!
