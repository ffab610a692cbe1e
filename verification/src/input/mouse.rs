//! Mouse state
//!
//! * `x1`: first extended mouse button
//!
//! The library does not ask the system for the mouse: each frame the caller
//! hands over where the cursor is and which buttons are down, as a word of
//! flags in which bit `code - 1` stands for the button with the number
//! `code`.

use vstd::prelude::*;

use crate::platform::Event;
use crate::utils::{bit_is_set, Double};

verus! {

/// XDL mouse input code
#[derive(Debug, Clone, Copy, PartialEq, Eq, Hash, Structural)]
pub enum MouseInput {
    Left,
    Right,
    Mid,
    /// First external button
    X1,
    /// Second external button
    X2,
}

impl MouseInput {
    /// The number of the button: 1 for left, 2 for middle, 3 for right, 4 and
    /// 5 for the two extended buttons.
    pub open spec fn spec_code(&self) -> u32 {
        match self {
            MouseInput::Left => 1,
            MouseInput::Mid => 2,
            MouseInput::Right => 3,
            MouseInput::X1 => 4,
            MouseInput::X2 => 5,
        }
    }

    #[verifier::when_used_as_spec(spec_code)]
    pub fn code(&self) -> (c: u32)
        ensures
            c == self.spec_code(),
            1 <= c <= 5,
    {
        match self {
            MouseInput::Left => 1,
            MouseInput::Mid => 2,
            MouseInput::Right => 3,
            MouseInput::X1 => 4,
            MouseInput::X2 => 5,
        }
    }
}

/// How far one notch of the wheel turns it.
pub const WHEEL_UNITS_PER_NOTCH: i32 = 120;

/// Represents a mouse state with cursor position and button press information.
///
/// * Relative mouse position is relative to the window
/// * Global mouse position is relative to the top-left corner of the desktop
#[derive(Debug, Clone, Copy, PartialEq, Eq, Structural)]
pub struct MouseSnapshot {
    pub x: i32,
    pub y: i32,
    pub flags: u32,
}

impl Default for MouseSnapshot {
    fn default() -> (s: MouseSnapshot)
        ensures
            s == (MouseSnapshot { x: 0, y: 0, flags: 0 }),
    {
        MouseSnapshot { x: 0, y: 0, flags: 0 }
    }
}

/// The word zero has no bit set.
proof fn lemma_no_flag_in_zero()
    by (bit_vector)
    ensures
        forall|bit: u32| bit < 32 ==> !#[trigger] bit_is_set(0, bit),
{
}

impl MouseSnapshot {
    pub fn x(&self) -> (x: i32)
        ensures
            x == self.x,
    {
        self.x
    }

    pub fn y(&self) -> (y: i32)
        ensures
            y == self.y,
    {
        self.y
    }
}

/// Down
impl MouseSnapshot {
    /// The word with only the flag of the button number `button`.
    fn mask(button: u32) -> (m: u32)
        requires
            1 <= button <= 32,
        ensures
            m == 1u32 << ((button - 1) as u32),
    {
        1u32 << (button - 1)
    }

    pub fn is_left_down(&self) -> (r: bool)
        ensures
            r == self.is_down(MouseInput::Left),
    {
        (self.flags & Self::mask(MouseInput::Left.code())) != 0
    }

    pub fn is_mid_down(&self) -> (r: bool)
        ensures
            r == self.is_down(MouseInput::Mid),
    {
        (self.flags & Self::mask(MouseInput::Mid.code())) != 0
    }

    pub fn is_right_down(&self) -> (r: bool)
        ensures
            r == self.is_down(MouseInput::Right),
    {
        (self.flags & Self::mask(MouseInput::Right.code())) != 0
    }

    pub fn is_x1_down(&self) -> (r: bool)
        ensures
            r == self.is_down(MouseInput::X1),
    {
        (self.flags & Self::mask(MouseInput::X1.code())) != 0
    }

    pub fn is_x2_down(&self) -> (r: bool)
        ensures
            r == self.is_down(MouseInput::X2),
    {
        (self.flags & Self::mask(MouseInput::X2.code())) != 0
    }
}

/// Up
impl MouseSnapshot {
    pub fn is_left_up(&self) -> (r: bool)
        ensures
            r == !self.is_down(MouseInput::Left),
    {
        !self.is_left_down()
    }

    pub fn is_mid_up(&self) -> (r: bool)
        ensures
            r == !self.is_down(MouseInput::Mid),
    {
        !self.is_mid_down()
    }

    pub fn is_right_up(&self) -> (r: bool)
        ensures
            r == !self.is_down(MouseInput::Right),
    {
        !self.is_right_down()
    }

    pub fn is_x1_up(&self) -> (r: bool)
        ensures
            r == !self.is_down(MouseInput::X1),
    {
        !self.is_x1_down()
    }

    pub fn is_x2_up(&self) -> (r: bool)
        ensures
            r == !self.is_down(MouseInput::X2),
    {
        !self.is_x2_down()
    }
}

/// [`MouseInput`]
impl MouseSnapshot {
    /// Whether the flag of `input` is set.
    pub open spec fn spec_is_down(&self, input: MouseInput) -> bool {
        bit_is_set(self.flags, (input.code() - 1) as u32)
    }

    #[verifier::when_used_as_spec(spec_is_down)]
    pub fn is_down(&self, input: MouseInput) -> (r: bool)
        ensures
            r == self.spec_is_down(input),
    {
        (self.flags & Self::mask(input.code())) != 0
    }

    pub fn is_up(&self, input: MouseInput) -> (r: bool)
        ensures
            r == !self.is_down(input),
    {
        !(self.is_down(input))
    }

    /// Whether any of `inputs` is down.
    pub fn is_any_down(&self, inputs: &[MouseInput]) -> (r: bool)
        ensures
            r == exists|i: int| 0 <= i < inputs@.len() && self.is_down(#[trigger] inputs@[i]),
    {
        let mut i: usize = 0;
        while i < inputs.len()
            invariant
                i <= inputs@.len(),
                forall|j: int| 0 <= j < i ==> !self.is_down(#[trigger] inputs@[j]),
            decreases inputs@.len() - i,
        {
            if self.is_down(inputs[i]) {
                return true;
            }
            i = i + 1;
        }
        false
    }

    /// Whether any of `inputs` is up.
    pub fn is_any_up(&self, inputs: &[MouseInput]) -> (r: bool)
        ensures
            r == exists|i: int| 0 <= i < inputs@.len() && !self.is_down(#[trigger] inputs@[i]),
    {
        let mut i: usize = 0;
        while i < inputs.len()
            invariant
                i <= inputs@.len(),
                forall|j: int| 0 <= j < i ==> self.is_down(#[trigger] inputs@[j]),
            decreases inputs@.len() - i,
        {
            if self.is_up(inputs[i]) {
                return true;
            }
            i = i + 1;
        }
        false
    }
}

/// The mouse now and when the frame began, and how far the wheel has turned
/// by then.
pub struct MouseFrames {
    pub current: MouseSnapshot,
    pub previous: MouseSnapshot,
    pub wheel: int,
    pub previous_wheel: int,
}

impl MouseFrames {
    /// The mouse at rest in the corner, with no button down.
    pub open spec fn idle() -> MouseFrames {
        MouseFrames {
            current: MouseSnapshot { x: 0, y: 0, flags: 0 },
            previous: MouseSnapshot { x: 0, y: 0, flags: 0 },
            wheel: 0,
            previous_wheel: 0,
        }
    }

    /// The state after the wheel turned by `y` notches.
    pub open spec fn wheel_turned(self, y: int) -> MouseFrames {
        MouseFrames { wheel: self.wheel + y * WHEEL_UNITS_PER_NOTCH, ..self }
    }

    /// The state after the mouse was found at (`x`, `y`) with the buttons
    /// of `flags` down.
    pub open spec fn sampled(self, x: i32, y: i32, flags: u32) -> MouseFrames {
        MouseFrames { current: MouseSnapshot { x, y, flags }, ..self }
    }

    /// The state after the frame ended.
    pub open spec fn end_frame(self) -> MouseFrames {
        MouseFrames {
            current: self.current,
            previous: self.current,
            wheel: self.wheel,
            previous_wheel: self.wheel,
        }
    }

    pub open spec fn is_down(self, input: MouseInput) -> bool {
        self.current.is_down(input)
    }

    /// Down now, up when the frame began.
    pub open spec fn is_pressed(self, input: MouseInput) -> bool {
        self.current.is_down(input) && !self.previous.is_down(input)
    }

    /// Up now, down when the frame began.
    pub open spec fn is_released(self, input: MouseInput) -> bool {
        !self.current.is_down(input) && self.previous.is_down(input)
    }

    /// What `ev` does to the mouse: a turn of the wheel is added, every
    /// other event does nothing.
    pub open spec fn after_event(self, ev: Event) -> MouseFrames {
        match ev {
            Event::MouseWheel { y } => self.wheel_turned(y as int),
            _ => self,
        }
    }

    /// Whether the turn of `ev` and the wheel after it both fit into an
    /// `i32`.
    pub open spec fn can_take(self, ev: Event) -> bool {
        &&& i32::MIN <= self.after_event(ev).wheel <= i32::MAX
        &&& ev matches Event::MouseWheel { y } ==> i32::MIN <= y * WHEEL_UNITS_PER_NOTCH
            <= i32::MAX
    }

    /// Whether the way from the previous place of the cursor to the current
    /// one fits into an `i32` along both axes.
    pub open spec fn delta_fits(self) -> bool {
        &&& i32::MIN <= self.current.x - self.previous.x <= i32::MAX
        &&& i32::MIN <= self.current.y - self.previous.y <= i32::MAX
    }
}

/// All of the mouse states
#[derive(Debug, Clone, Copy)]
pub struct Mouse {
    /// Mouse position and buttons (previous/current)
    mouses: Double<MouseSnapshot>,
    /// Mouse wheels (previous/current)
    wheels: Double<i32>,
}

impl View for Mouse {
    type V = MouseFrames;

    closed spec fn view(&self) -> MouseFrames {
        MouseFrames {
            current: self.mouses.b,
            previous: self.mouses.a,
            wheel: self.wheels.b as int,
            previous_wheel: self.wheels.a as int,
        }
    }
}

impl Default for Mouse {
    fn default() -> (mouse: Mouse)
        ensures
            mouse@ == MouseFrames::idle(),
    {
        Mouse::new()
    }
}

impl Mouse {
    pub fn new() -> (mouse: Mouse)
        ensures
            mouse@ == MouseFrames::idle(),
    {
        Mouse {
            mouses: Double { a: MouseSnapshot::default(), b: MouseSnapshot::default() },
            wheels: Double { a: 0, b: 0 },
        }
    }
}

impl Mouse {
    /// Whether [`Mouse::event`] can take `ev`.
    pub fn can_take(&self, ev: &Event) -> (ok: bool)
        ensures
            ok == self@.can_take(*ev),
    {
        match ev {
            Event::MouseWheel { y } => {
                // 120 units per notch
                let turn: i64 = (*y as i64) * (WHEEL_UNITS_PER_NOTCH as i64);
                let turned: i64 = self.wheels.b as i64 + turn;
                -0x8000_0000 <= turn && turn <= 0x7fff_ffff && -0x8000_0000 <= turned && turned
                    <= 0x7fff_ffff
            },
            _ => true,
        }
    }

    /// Takes in one event of the system.
    pub fn event(&mut self, ev: &Event)
        requires
            old(self)@.can_take(*ev),
        ensures
            final(self)@ == old(self)@.after_event(*ev),
    {
        match ev {
            Event::MouseWheel { y } => {
                // 120 units per notch
                self.wheels.b = self.wheels.b + *y * WHEEL_UNITS_PER_NOTCH;
            },
            _ => {},
        }
    }

    /// Takes in where the cursor is and which buttons are down.
    pub fn update(&mut self, x: i32, y: i32, flags: u32)
        ensures
            final(self)@ == old(self)@.sampled(x, y, flags),
    {
        let snapshot = MouseSnapshot { x, y, flags };
        self.mouses.b = snapshot;
    }

    /// Ends the frame: the mouse as it is now becomes the mouse of before.
    pub fn on_end_frame(&mut self)
        ensures
            final(self)@ == old(self)@.end_frame(),
    {
        self.mouses.a = self.mouses.b;
        self.wheels.a = self.wheels.b;
    }
}

impl Mouse {
    pub fn x(&self) -> (x: i32)
        ensures
            x == self@.current.x,
    {
        self.mouses.b.x()
    }

    pub fn y(&self) -> (y: i32)
        ensures
            y == self@.current.y,
    {
        self.mouses.b.y()
    }

    pub fn pos(&self) -> (p: [i32; 2])
        ensures
            p[0] == self@.current.x,
            p[1] == self@.current.y,
    {
        [self.mouses.b.x(), self.mouses.b.y()]
    }

    /// The way of the cursor since the frame began.
    pub fn pos_delta(&self) -> (d: [i32; 2])
        requires
            self@.delta_fits(),
        ensures
            d[0] == self@.current.x - self@.previous.x,
            d[1] == self@.current.y - self@.previous.y,
    {
        [self.mouses.b.x() - self.mouses.a.x(), self.mouses.b.y() - self.mouses.a.y()]
    }

    /// The way of the cursor since the frame began, if it fits into an `i32`
    /// along both axes.
    pub fn checked_pos_delta(&self) -> (d: Option<[i32; 2]>)
        ensures
            d is Some == self@.delta_fits(),
            d matches Some(v) ==> v[0] == self@.current.x - self@.previous.x && v[1]
                == self@.current.y - self@.previous.y,
    {
        let dx: i64 = self.mouses.b.x() as i64 - self.mouses.a.x() as i64;
        let dy: i64 = self.mouses.b.y() as i64 - self.mouses.a.y() as i64;
        if -0x8000_0000 <= dx && dx <= 0x7fff_ffff && -0x8000_0000 <= dy && dy <= 0x7fff_ffff {
            Some(self.pos_delta())
        } else {
            None
        }
    }

    /// How far the wheel has turned.
    pub fn wheel(&self) -> (w: i32)
        ensures
            w == self@.wheel,
    {
        self.wheels.b
    }

    /// How far the wheel has turned since the frame began.
    pub fn wheel_delta(&self) -> (d: i64)
        ensures
            d == self@.wheel - self@.previous_wheel,
    {
        self.wheels.b as i64 - self.wheels.a as i64
    }
}

/// Down
impl Mouse {
    pub fn is_left_down(&self) -> (r: bool)
        ensures
            r == self@.is_down(MouseInput::Left),
    {
        self.mouses.b.is_left_down()
    }

    pub fn is_mid_down(&self) -> (r: bool)
        ensures
            r == self@.is_down(MouseInput::Mid),
    {
        self.mouses.b.is_mid_down()
    }

    pub fn is_right_down(&self) -> (r: bool)
        ensures
            r == self@.is_down(MouseInput::Right),
    {
        self.mouses.b.is_right_down()
    }

    pub fn is_x1_down(&self) -> (r: bool)
        ensures
            r == self@.is_down(MouseInput::X1),
    {
        self.mouses.b.is_x1_down()
    }

    pub fn is_x2_down(&self) -> (r: bool)
        ensures
            r == self@.is_down(MouseInput::X2),
    {
        self.mouses.b.is_x2_down()
    }
}

/// Up
impl Mouse {
    pub fn is_left_up(&self) -> (r: bool)
        ensures
            r == !self@.is_down(MouseInput::Left),
    {
        self.mouses.b.is_left_up()
    }

    pub fn is_mid_up(&self) -> (r: bool)
        ensures
            r == !self@.is_down(MouseInput::Mid),
    {
        self.mouses.b.is_mid_up()
    }

    pub fn is_right_up(&self) -> (r: bool)
        ensures
            r == !self@.is_down(MouseInput::Right),
    {
        self.mouses.b.is_right_up()
    }

    pub fn is_x1_up(&self) -> (r: bool)
        ensures
            r == !self@.is_down(MouseInput::X1),
    {
        self.mouses.b.is_x1_up()
    }

    pub fn is_x2_up(&self) -> (r: bool)
        ensures
            r == !self@.is_down(MouseInput::X2),
    {
        self.mouses.b.is_x2_up()
    }
}

/// Pressed/released
impl Mouse {
    pub fn is_left_pressed(&self) -> (r: bool)
        ensures
            r == self@.is_pressed(MouseInput::Left),
    {
        self.mouses.b.is_left_down() && !self.mouses.a.is_left_down()
    }

    pub fn is_left_released(&self) -> (r: bool)
        ensures
            r == self@.is_released(MouseInput::Left),
    {
        !self.mouses.b.is_left_down() && self.mouses.a.is_left_down()
    }

    pub fn is_right_pressed(&self) -> (r: bool)
        ensures
            r == self@.is_pressed(MouseInput::Right),
    {
        self.mouses.b.is_right_down() && !self.mouses.a.is_right_down()
    }

    pub fn is_right_released(&self) -> (r: bool)
        ensures
            r == self@.is_released(MouseInput::Right),
    {
        !self.mouses.b.is_right_down() && self.mouses.a.is_right_down()
    }

    pub fn is_mid_pressed(&self) -> (r: bool)
        ensures
            r == self@.is_pressed(MouseInput::Mid),
    {
        self.mouses.b.is_mid_down() && !self.mouses.a.is_mid_down()
    }

    pub fn is_mid_released(&self) -> (r: bool)
        ensures
            r == self@.is_released(MouseInput::Mid),
    {
        !self.mouses.b.is_mid_down() && self.mouses.a.is_mid_down()
    }

    pub fn is_x1_pressed(&self) -> (r: bool)
        ensures
            r == self@.is_pressed(MouseInput::X1),
    {
        self.mouses.b.is_x1_down() && !self.mouses.a.is_x1_down()
    }

    pub fn is_x1_released(&self) -> (r: bool)
        ensures
            r == self@.is_released(MouseInput::X1),
    {
        !self.mouses.b.is_x1_down() && self.mouses.a.is_x1_down()
    }

    pub fn is_x2_pressed(&self) -> (r: bool)
        ensures
            r == self@.is_pressed(MouseInput::X2),
    {
        self.mouses.b.is_x2_down() && !self.mouses.a.is_x2_down()
    }

    pub fn is_x2_released(&self) -> (r: bool)
        ensures
            r == self@.is_released(MouseInput::X2),
    {
        !self.mouses.b.is_x2_down() && self.mouses.a.is_x2_down()
    }
}

/// [`MouseInput`]
impl Mouse {
    pub fn is_down(&self, input: MouseInput) -> (r: bool)
        ensures
            r == self@.is_down(input),
    {
        self.mouses.b.is_down(input)
    }

    pub fn is_up(&self, input: MouseInput) -> (r: bool)
        ensures
            r == !self@.is_down(input),
    {
        self.mouses.b.is_up(input)
    }

    pub fn is_pressed(&self, input: MouseInput) -> (r: bool)
        ensures
            r == self@.is_pressed(input),
    {
        self.mouses.b.is_down(input) && !self.mouses.a.is_down(input)
    }

    pub fn is_released(&self, input: MouseInput) -> (r: bool)
        ensures
            r == self@.is_released(input),
    {
        !self.mouses.b.is_down(input) && self.mouses.a.is_down(input)
    }
}

/// Multiple inputs
impl Mouse {
    /// Whether any of `inputs` is down.
    pub fn is_any_down(&self, inputs: &[MouseInput]) -> (r: bool)
        ensures
            r == exists|i: int| 0 <= i < inputs@.len() && self@.is_down(#[trigger] inputs@[i]),
    {
        self.mouses.b.is_any_down(inputs)
    }

    /// Whether any of `inputs` is up.
    pub fn is_any_up(&self, inputs: &[MouseInput]) -> (r: bool)
        ensures
            r == exists|i: int| 0 <= i < inputs@.len() && !self@.is_down(#[trigger] inputs@[i]),
    {
        self.mouses.b.is_any_up(inputs)
    }

    /// Whether any of `inputs` is down. The edge is not looked at: a button
    /// that has been held for many frames counts too.
    pub fn is_any_pressed(&self, inputs: &[MouseInput]) -> (r: bool)
        ensures
            r == exists|i: int| 0 <= i < inputs@.len() && self@.is_down(#[trigger] inputs@[i]),
    {
        self.mouses.b.is_any_down(inputs)
    }

    /// Whether any of `inputs` is down. The edge is not looked at: a button
    /// that was let go in this frame does not count, one that is held does.
    pub fn is_any_released(&self, inputs: &[MouseInput]) -> (r: bool)
        ensures
            r == exists|i: int| 0 <= i < inputs@.len() && self@.is_down(#[trigger] inputs@[i]),
    {
        self.mouses.b.is_any_down(inputs)
    }
}

/// After the end of a frame no button is pressed or released, the cursor has
/// not moved and the wheel has not turned.
pub proof fn law_mouse_end_frame_leaves_no_edge(mouse: MouseFrames, input: MouseInput)
    ensures
        !mouse.end_frame().is_pressed(input),
        !mouse.end_frame().is_released(input),
        mouse.end_frame().is_down(input) == mouse.is_down(input),
        mouse.end_frame().current == mouse.end_frame().previous,
        mouse.end_frame().wheel == mouse.end_frame().previous_wheel,
        mouse.end_frame().end_frame() == mouse.end_frame(),
{
}

/// On the mouse that was never sampled no button is down.
pub proof fn law_idle_mouse_has_no_button_down(input: MouseInput)
    ensures
        !MouseFrames::idle().is_down(input),
{
    lemma_no_flag_in_zero();
}

} // verus!
