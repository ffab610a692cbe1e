//! Axes made of two buttons, and directions made of two axes.
//!
//! Where both buttons of an axis are down, the one that has been down for the
//! shorter time decides: the latest input wins. Where a four-way direction
//! is asked for and both axes point somewhere, the axis that has been down
//! for the shorter time decides in the same way.

use std::time::Duration;
use vstd::prelude::*;

use crate::axis::{Dir4, Dir8, Sign};
use crate::input::frames::KeyFrames;
use crate::input::Input;
use crate::time::{duration_nanos, duration_of, MAX_DURATION_NANOS};
use crate::vi::bundle::{InputBundle, KeyEntry};
use crate::vi::button::{Button, ButtonModel};
use crate::vi::repeat::{KeyRepeatConfig, RepeatRule};

verus! {

/// An axis as its two buttons.
pub struct AxisModel {
    pub pos: ButtonModel,
    pub neg: ButtonModel,
}

impl AxisModel {
    /// The axis after a frame of `dt` nanoseconds with the keys `frames`.
    pub open spec fn step(self, frames: KeyFrames, dt: nat) -> AxisModel {
        AxisModel { pos: self.pos.step(frames, dt), neg: self.neg.step(frames, dt) }
    }

    pub open spec fn can_step(self, frames: KeyFrames, dt: nat) -> bool {
        self.pos.can_step(frames, dt) && self.neg.can_step(frames, dt)
    }

    /// The sign of the side that is down. With both sides down it is the
    /// side that has been down for the shorter time, and the positive side
    /// if both have been down for the same time.
    pub open spec fn sign_down(self) -> Sign {
        if self.pos.is_down() && self.neg.is_down() {
            if self.pos.accum_down() <= self.neg.accum_down() {
                Sign::Pos
            } else {
                Sign::Neg
            }
        } else if self.pos.is_down() {
            Sign::Pos
        } else if self.neg.is_down() {
            Sign::Neg
        } else {
            Sign::Neutral
        }
    }

    /// The sign of [`AxisModel::sign_down`] if that side is pressed in this
    /// frame, else neutral.
    pub open spec fn sign_pressed(self) -> Sign {
        match self.sign_down() {
            Sign::Pos => if self.pos.is_pressed() {
                Sign::Pos
            } else {
                Sign::Neutral
            },
            Sign::Neg => if self.neg.is_pressed() {
                Sign::Neg
            } else {
                Sign::Neutral
            },
            Sign::Neutral => Sign::Neutral,
        }
    }

    /// The shorter of the times that the two sides have been down.
    pub open spec fn accum_down(self) -> nat {
        if self.pos.accum_down() <= self.neg.accum_down() {
            self.pos.accum_down()
        } else {
            self.neg.accum_down()
        }
    }
}

/// Neg | Pos | Neutral
#[derive(Debug, Clone)]
pub struct AxisButton {
    /// Positive input
    pub pos: Button,
    /// Negative input
    pub neg: Button,
}

impl View for AxisButton {
    type V = AxisModel;

    open spec fn view(&self) -> AxisModel {
        AxisModel { pos: self.pos@, neg: self.neg@ }
    }
}

/// Lifecycle
impl AxisButton {
    /// Whether [`AxisButton::update`] can take this frame.
    pub fn can_update(&self, input: &Input, dt: Duration) -> (ok: bool)
        ensures
            ok == self@.can_step(input@, duration_nanos(dt)),
    {
        self.pos.can_update(input, dt) && self.neg.can_update(input, dt)
    }

    /// Takes both buttons through one frame that lasted `dt`.
    pub fn update(&mut self, input: &Input, dt: Duration)
        requires
            old(self)@.can_step(input@, duration_nanos(dt)),
        ensures
            final(self)@ == old(self)@.step(input@, duration_nanos(dt)),
    {
        self.pos.update(input, dt);
        self.neg.update(input, dt);
    }

    /// Takes both buttons through one frame that lasted `dt` if both can
    /// take it; else the axis stays as it is. Says whether the frame was
    /// taken.
    pub fn try_update(&mut self, input: &Input, dt: Duration) -> (done: bool)
        ensures
            done == old(self)@.can_step(input@, duration_nanos(dt)),
            done ==> final(self)@ == old(self)@.step(input@, duration_nanos(dt)),
            !done ==> final(self)@ == old(self)@,
    {
        if self.can_update(input, dt) {
            self.update(input, dt);
            true
        } else {
            false
        }
    }
}

impl AxisButton {
    /// Selects down sign pressed lately
    pub fn sign_down(&self) -> (sign: Sign)
        ensures
            sign == self@.sign_down(),
    {
        let pos_down = self.pos.is_down();
        let neg_down = self.neg.is_down();
        if pos_down && neg_down {
            if self.pos.accum_down_nanos() <= self.neg.accum_down_nanos() {
                Sign::Pos
            } else {
                Sign::Neg
            }
        } else if pos_down {
            Sign::Pos
        } else if neg_down {
            Sign::Neg
        } else {
            Sign::Neutral
        }
    }

    /// Selects pressed sign pressed lately
    pub fn sign_pressed(&self) -> (sign: Sign)
        ensures
            sign == self@.sign_pressed(),
    {
        let pos_down = self.pos.is_down();
        let neg_down = self.neg.is_down();
        if pos_down && neg_down {
            if self.pos.accum_down_nanos() <= self.neg.accum_down_nanos() {
                if self.pos.is_pressed() {
                    Sign::Pos
                } else {
                    Sign::Neutral
                }
            } else {
                if self.neg.is_pressed() {
                    Sign::Neg
                } else {
                    Sign::Neutral
                }
            }
        } else if pos_down {
            if self.pos.is_pressed() {
                Sign::Pos
            } else {
                Sign::Neutral
            }
        } else if neg_down {
            if self.neg.is_pressed() {
                Sign::Neg
            } else {
                Sign::Neutral
            }
        } else {
            Sign::Neutral
        }
    }

    /// How long it's been down
    pub fn accum_down(&self) -> (held: Duration)
        ensures
            duration_nanos(held) == self@.accum_down(),
    {
        duration_of(self.accum_down_nanos())
    }

    /// How long it's been down, in nanoseconds
    pub fn accum_down_nanos(&self) -> (held: u128)
        ensures
            held == self@.accum_down(),
            held <= MAX_DURATION_NANOS,
    {
        // select sign down lately
        let pos = self.pos.accum_down_nanos();
        let neg = self.neg.accum_down_nanos();
        if pos <= neg {
            pos
        } else {
            neg
        }
    }
}

/// The latest input wins: with both sides of an axis down, the side that has
/// been down for the shorter time gives the sign, and the positive side if
/// neither has.
pub proof fn law_latest_input_wins(axis: AxisModel)
    requires
        axis.pos.is_down(),
        axis.neg.is_down(),
    ensures
        axis.neg.accum_down() < axis.pos.accum_down() ==> axis.sign_down() == Sign::Neg,
        axis.pos.accum_down() < axis.neg.accum_down() ==> axis.sign_down() == Sign::Pos,
        axis.pos.accum_down() == axis.neg.accum_down() ==> axis.sign_down() == Sign::Pos,
{
}

/// The pressed sign is the down sign or neutral, and it is neutral unless the
/// side that gives the down sign is pressed in this frame.
pub proof fn law_pressed_sign_follows_down_sign(axis: AxisModel)
    ensures
        axis.sign_pressed() == axis.sign_down() || axis.sign_pressed() == Sign::Neutral,
        axis.sign_down() == Sign::Neutral <==> !axis.pos.is_down() && !axis.neg.is_down(),
        axis.sign_pressed() == Sign::Pos ==> axis.pos.is_pressed(),
        axis.sign_pressed() == Sign::Neg ==> axis.neg.is_pressed(),
{
}

/// The direction on the x axis that `x` points to.
pub open spec fn horizontal(x: Sign) -> Option<Dir4> {
    match x {
        Sign::Pos => Some(Dir4::E),
        Sign::Neg => Some(Dir4::W),
        Sign::Neutral => None,
    }
}

/// The direction on the y axis that `y` points to. Y goes from up to down.
pub open spec fn vertical(y: Sign) -> Option<Dir4> {
    match y {
        Sign::Pos => Some(Dir4::S),
        Sign::Neg => Some(Dir4::N),
        Sign::Neutral => None,
    }
}

/// The one of four directions for the signs `x` and `y`. Where both point
/// somewhere, `x` decides if `x_first` holds and `y` if not.
pub open spec fn mix_dir4(x: Sign, y: Sign, x_first: bool) -> Option<Dir4> {
    if y == Sign::Neutral {
        horizontal(x)
    } else if x == Sign::Neutral {
        vertical(y)
    } else if x_first {
        horizontal(x)
    } else {
        vertical(y)
    }
}

/// Two axes, x and y.
pub struct AxisDirModel {
    pub x: AxisModel,
    pub y: AxisModel,
}

impl AxisDirModel {
    /// The axes of four buttons that were never updated and share one rule.
    pub open spec fn fresh(
        rule: RepeatRule,
        x_pos: Seq<KeyEntry>,
        x_neg: Seq<KeyEntry>,
        y_pos: Seq<KeyEntry>,
        y_neg: Seq<KeyEntry>,
    ) -> AxisDirModel {
        AxisDirModel {
            x: AxisModel {
                pos: ButtonModel::fresh(x_pos, rule),
                neg: ButtonModel::fresh(x_neg, rule),
            },
            y: AxisModel {
                pos: ButtonModel::fresh(y_pos, rule),
                neg: ButtonModel::fresh(y_neg, rule),
            },
        }
    }

    pub open spec fn step(self, frames: KeyFrames, dt: nat) -> AxisDirModel {
        AxisDirModel { x: self.x.step(frames, dt), y: self.y.step(frames, dt) }
    }

    pub open spec fn can_step(self, frames: KeyFrames, dt: nat) -> bool {
        self.x.can_step(frames, dt) && self.y.can_step(frames, dt)
    }

    /// Whether the x axis decides where both axes point somewhere: it does
    /// if it has not been down for longer than the y axis.
    pub open spec fn x_first(self) -> bool {
        self.x.accum_down() <= self.y.accum_down()
    }

    pub open spec fn dir4_down(self) -> Option<Dir4> {
        mix_dir4(self.x.sign_down(), self.y.sign_down(), self.x_first())
    }

    pub open spec fn dir4_pressed(self) -> Option<Dir4> {
        mix_dir4(self.x.sign_pressed(), self.y.sign_pressed(), self.x_first())
    }

    pub open spec fn dir8_down(self) -> Option<Dir8> {
        Dir8::spec_from_signs(self.x.sign_down(), self.y.sign_down())
    }

    pub open spec fn dir8_pressed(self) -> Option<Dir8> {
        Dir8::spec_from_signs(self.x.sign_pressed(), self.y.sign_pressed())
    }
}

/// [x, y] axes translated as direction
///
/// [x, y] components are "mixed" to make directions. For example, [1, 1] is interpreted as
/// south-east.
#[derive(Debug, Clone)]
pub struct AxisDirButton {
    x: AxisButton,
    y: AxisButton,
}

impl View for AxisDirButton {
    type V = AxisDirModel;

    closed spec fn view(&self) -> AxisDirModel {
        AxisDirModel { x: self.x@, y: self.y@ }
    }
}

impl AxisDirButton {
    /// Creates axis from [positive, negative] input bundle in (x, y) axis
    ///
    /// Makes sure that the key repeat configuration is shared among buttons (while the states are
    /// not shared).
    pub fn new(repeat: KeyRepeatConfig, xs: [InputBundle; 2], ys: [InputBundle; 2]) -> (button:
        AxisDirButton)
        ensures
            button@ == AxisDirModel::fresh(repeat@, xs[0]@, xs[1]@, ys[0]@, ys[1]@),
    {
        let x_pos = Button::new(xs[0].duplicate(), repeat);
        let x_neg = Button::new(xs[1].duplicate(), repeat);
        let y_pos = Button::new(ys[0].duplicate(), repeat);
        let y_neg = Button::new(ys[1].duplicate(), repeat);

        AxisDirButton {
            x: AxisButton { pos: x_pos, neg: x_neg },
            y: AxisButton { pos: y_pos, neg: y_neg },
        }
    }

    /// The x axis.
    pub fn x(&self) -> (axis: &AxisButton)
        ensures
            axis@ == self@.x,
    {
        &self.x
    }

    /// The y axis.
    pub fn y(&self) -> (axis: &AxisButton)
        ensures
            axis@ == self@.y,
    {
        &self.y
    }
}

/// Lifecycle
impl AxisDirButton {
    /// Whether [`AxisDirButton::update`] can take this frame.
    pub fn can_update(&self, input: &Input, dt: Duration) -> (ok: bool)
        ensures
            ok == self@.can_step(input@, duration_nanos(dt)),
    {
        self.x.can_update(input, dt) && self.y.can_update(input, dt)
    }

    /// Takes all four buttons through one frame that lasted `dt`.
    pub fn update(&mut self, input: &Input, dt: Duration)
        requires
            old(self)@.can_step(input@, duration_nanos(dt)),
        ensures
            final(self)@ == old(self)@.step(input@, duration_nanos(dt)),
    {
        self.x.update(input, dt);
        self.y.update(input, dt);
    }

    /// Takes all four buttons through one frame that lasted `dt` if all can
    /// take it; else they stay as they are. Says whether the frame was
    /// taken.
    pub fn try_update(&mut self, input: &Input, dt: Duration) -> (done: bool)
        ensures
            done == old(self)@.can_step(input@, duration_nanos(dt)),
            done ==> final(self)@ == old(self)@.step(input@, duration_nanos(dt)),
            !done ==> final(self)@ == old(self)@,
    {
        if self.can_update(input, dt) {
            self.update(input, dt);
            true
        } else {
            false
        }
    }
}

impl AxisDirButton {
    /// Creates a directional output mixing axis inputs
    pub fn dir4_down(&self) -> (dir: Option<Dir4>)
        ensures
            dir == self@.dir4_down(),
    {
        // mix down inputs (not pressed inputs)
        let x = self.x.sign_down().to_i8();
        let y = self.y.sign_down().to_i8();
        self.dir4(x, y)
    }

    /// Creates a directional output mixing axis inputs
    pub fn dir4_pressed(&self) -> (dir: Option<Dir4>)
        ensures
            dir == self@.dir4_pressed(),
    {
        // mix pressed inputs
        let x = self.x.sign_pressed().to_i8();
        let y = self.y.sign_pressed().to_i8();
        self.dir4(x, y)
    }

    /// Creates a directional output mixing axis inputs
    pub fn dir8_down(&self) -> (dir: Option<Dir8>)
        ensures
            dir == self@.dir8_down(),
    {
        let x = self.x.sign_down().to_i8();
        let y = self.y.sign_down().to_i8();
        self.dir8(x, y)
    }

    /// Creates a directional output mixing axis inputs
    pub fn dir8_pressed(&self) -> (dir: Option<Dir8>)
        ensures
            dir == self@.dir8_pressed(),
    {
        let x = self.x.sign_pressed().to_i8();
        let y = self.y.sign_pressed().to_i8();
        self.dir8(x, y)
    }

    /// The one of four directions for the signs `x` and `y`, given as -1, 0
    /// or 1. Along one axis it is that axis's direction; where both axes
    /// point somewhere, the axis that has been down for the shorter time
    /// decides, and x if neither has.
    pub fn dir4(&self, x: i32, y: i32) -> (dir: Option<Dir4>)
        requires
            -1 <= x <= 1,
            -1 <= y <= 1,
        ensures
            dir == mix_dir4(Sign::of_value(x as int), Sign::of_value(y as int), self@.x_first()),
            dir is None <==> x == 0 && y == 0,
    {
        if x == 0 && y == 0 {
            None
            // clockwise
        } else if x == 0 && y == -1 {
            Some(Dir4::N)
        } else if x == 1 && y == 0 {
            Some(Dir4::E)
        } else if x == 0 && y == 1 {
            Some(Dir4::S)
        } else if x == -1 && y == 0 {
            Some(Dir4::W)
        } else {
            // select axis down lately
            if self.x.accum_down_nanos() <= self.y.accum_down_nanos() {
                if x == 1 {
                    Some(Dir4::E)
                } else {
                    Some(Dir4::W)
                }
            } else {
                if y == 1 {
                    Some(Dir4::S)
                } else {
                    Some(Dir4::N)
                }
            }
        }
    }

    /// The one of eight directions for the signs `x` and `y`, given as -1, 0
    /// or 1: the direction that has exactly these signs, and none for two
    /// zeros.
    pub fn dir8(&self, x: i32, y: i32) -> (dir: Option<Dir8>)
        requires
            -1 <= x <= 1,
            -1 <= y <= 1,
        ensures
            dir == Dir8::spec_from_signs(Sign::of_value(x as int), Sign::of_value(y as int)),
            dir is None <==> x == 0 && y == 0,
            dir matches Some(d) ==> d.x_sign().value() == x && d.y_sign().value() == y,
    {
        if x == 0 && y == 0 {
            None
            // clockwise
        } else if x == 0 && y == -1 {
            Some(Dir8::N)
        } else if x == 1 && y == -1 {
            Some(Dir8::NE)
        } else if x == 1 && y == 0 {
            Some(Dir8::E)
        } else if x == 1 && y == 1 {
            Some(Dir8::SE)
        } else if x == 0 && y == 1 {
            Some(Dir8::S)
        } else if x == -1 && y == 1 {
            Some(Dir8::SW)
        } else if x == -1 && y == 0 {
            Some(Dir8::W)
        } else {
            Some(Dir8::NW)
        }
    }
}

/// Every pair of signs other than (neutral, neutral) gives one of the eight
/// directions, the one with those signs; the neutral pair gives none.
pub proof fn law_dir8_complete(mixer: AxisDirModel)
    ensures
        mixer.dir8_down() is None <==> mixer.x.sign_down() == Sign::Neutral && mixer.y.sign_down()
            == Sign::Neutral,
        mixer.dir8_down() matches Some(d) ==> d.x_sign() == mixer.x.sign_down() && d.y_sign()
            == mixer.y.sign_down(),
        mixer.dir8_pressed() is None <==> mixer.x.sign_pressed() == Sign::Neutral
            && mixer.y.sign_pressed() == Sign::Neutral,
        mixer.dir8_pressed() matches Some(d) ==> d.x_sign() == mixer.x.sign_pressed() && d.y_sign()
            == mixer.y.sign_pressed(),
{
}

/// One of four directions is given exactly if some axis points somewhere,
/// and it lies along an axis that does: never a default direction. Where both
/// axes point somewhere it lies along the axis that has been down for the
/// shorter time, and along x if neither has.
pub proof fn law_dir4_follows_latest_axis(mixer: AxisDirModel)
    ensures
        mixer.dir4_down() is None <==> mixer.x.sign_down() == Sign::Neutral && mixer.y.sign_down()
            == Sign::Neutral,
        mixer.dir4_down() == horizontal(mixer.x.sign_down()) || mixer.dir4_down() == vertical(
            mixer.y.sign_down(),
        ),
        mixer.x.sign_down() != Sign::Neutral && mixer.y.sign_down() != Sign::Neutral
            ==> mixer.dir4_down() == if mixer.x.accum_down() <= mixer.y.accum_down() {
            horizontal(mixer.x.sign_down())
        } else {
            vertical(mixer.y.sign_down())
        },
{
}

} // verus!
