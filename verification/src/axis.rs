//! Primitive axis types: a three-valued sign and the four and eight compass
//! directions.
//!
//! The x axis runs from left to right. For [`Dir8`] the y axis runs from top
//! to bottom, so north is negative y. [`Dir4::y_sign`] uses the opposite
//! convention and reports north as positive.

use vstd::prelude::*;

verus! {

/// Pos | Neg | Neutral
#[derive(Debug, Clone, Copy, PartialEq, Eq, Hash, Structural)]
pub enum Sign {
    /// Positive
    Pos,
    /// Negative
    Neg,
    /// Neutral
    Neutral,
}

impl Sign {
    /// The sign as one of the integers 1, -1 and 0.
    pub open spec fn value(self) -> int {
        match self {
            Sign::Pos => 1,
            Sign::Neg => -1,
            Sign::Neutral => 0,
        }
    }

    /// The sign of the integer `value`.
    pub open spec fn of_value(value: int) -> Sign {
        if value > 0 {
            Sign::Pos
        } else if value < 0 {
            Sign::Neg
        } else {
            Sign::Neutral
        }
    }

    /// The sign as an `i32`; the name is historical.
    pub fn to_i8(&self) -> (r: i32)
        ensures
            r == self.value(),
    {
        match self {
            Sign::Pos => 1,
            Sign::Neg => -1,
            Sign::Neutral => 0,
        }
    }

    pub fn to_i32(&self) -> (r: i32)
        ensures
            r == self.value(),
    {
        match self {
            Sign::Pos => 1,
            Sign::Neg => -1,
            Sign::Neutral => 0,
        }
    }

    pub fn to_i64(&self) -> (r: i64)
        ensures
            r == self.value(),
    {
        match self {
            Sign::Pos => 1,
            Sign::Neg => -1,
            Sign::Neutral => 0,
        }
    }

    pub fn to_isize(&self) -> (r: isize)
        ensures
            r == self.value(),
    {
        match self {
            Sign::Pos => 1,
            Sign::Neg => -1,
            Sign::Neutral => 0,
        }
    }

    /// The opposite sign.
    pub open spec fn spec_inv(&self) -> Sign {
        match self {
            Sign::Pos => Sign::Neg,
            Sign::Neg => Sign::Pos,
            Sign::Neutral => Sign::Neutral,
        }
    }

    /// The opposite sign: the one whose value is the negated value of `self`.
    #[verifier::when_used_as_spec(spec_inv)]
    pub fn inv(&self) -> (r: Sign)
        ensures
            r == self.spec_inv(),
            r.value() == -self.value(),
    {
        match self {
            Sign::Pos => Sign::Neg,
            Sign::Neg => Sign::Pos,
            Sign::Neutral => Sign::Neutral,
        }
    }
}

/// A sign is determined by its value.
pub proof fn law_sign_value_injective(a: Sign, b: Sign)
    requires
        a.value() == b.value(),
    ensures
        a == b,
{
}

/// Inverting a sign twice gives the sign back.
pub proof fn law_sign_inv_involutive(s: Sign)
    ensures
        s.inv().inv() == s,
{
}

/// One of the four directions: N, E, S, W
#[derive(Debug, Clone, Copy, PartialEq, Eq, Hash, Structural)]
pub enum Dir4 {
    N,
    E,
    S,
    W,
}

impl Dir4 {
    pub open spec fn spec_x_sign(&self) -> Sign {
        match self {
            Dir4::E => Sign::Pos,
            Dir4::N | Dir4::S => Sign::Neutral,
            Dir4::W => Sign::Neg,
        }
    }

    /// East is positive, west negative.
    #[verifier::when_used_as_spec(spec_x_sign)]
    pub fn x_sign(&self) -> (r: Sign)
        ensures
            r == self.spec_x_sign(),
    {
        match self {
            Dir4::E => Sign::Pos,
            Dir4::N | Dir4::S => Sign::Neutral,
            Dir4::W => Sign::Neg,
        }
    }

    pub open spec fn spec_y_sign(&self) -> Sign {
        match self {
            Dir4::N => Sign::Pos,
            Dir4::E | Dir4::W => Sign::Neutral,
            Dir4::S => Sign::Neg,
        }
    }

    /// North is positive, south negative.
    #[verifier::when_used_as_spec(spec_y_sign)]
    pub fn y_sign(&self) -> (r: Sign)
        ensures
            r == self.spec_y_sign(),
    {
        match self {
            Dir4::N => Sign::Pos,
            Dir4::E | Dir4::W => Sign::Neutral,
            Dir4::S => Sign::Neg,
        }
    }

    pub fn signs(&self) -> (r: [Sign; 2])
        ensures
            r[0] == self.x_sign(),
            r[1] == self.y_sign(),
    {
        [self.x_sign(), self.y_sign()]
    }

    pub fn signs_i32(&self) -> (r: [i32; 2])
        ensures
            r[0] == self.x_sign().value(),
            r[1] == self.y_sign().value(),
    {
        [self.x_sign().to_i32(), self.y_sign().to_i32()]
    }

    pub fn signs_i64(&self) -> (r: [i64; 2])
        ensures
            r[0] == self.x_sign().value(),
            r[1] == self.y_sign().value(),
    {
        [self.x_sign().to_i64(), self.y_sign().to_i64()]
    }

    pub fn signs_isize(&self) -> (r: [isize; 2])
        ensures
            r[0] == self.x_sign().value(),
            r[1] == self.y_sign().value(),
    {
        [self.x_sign().to_isize(), self.y_sign().to_isize()]
    }

    pub open spec fn spec_inv(&self) -> Dir4 {
        match self {
            Dir4::N => Dir4::S,
            Dir4::E => Dir4::W,
            Dir4::S => Dir4::N,
            Dir4::W => Dir4::E,
        }
    }

    /// The opposite direction: both signs are inverted.
    #[verifier::when_used_as_spec(spec_inv)]
    pub fn inv(&self) -> (r: Dir4)
        ensures
            r == self.spec_inv(),
            r.x_sign() == self.x_sign().inv(),
            r.y_sign() == self.y_sign().inv(),
    {
        match self {
            Dir4::N => Dir4::S,
            Dir4::E => Dir4::W,
            Dir4::S => Dir4::N,
            Dir4::W => Dir4::E,
        }
    }
}

/// A four-way direction is determined by its two signs, of which exactly one
/// is neutral.
pub proof fn law_dir4_signs_injective(a: Dir4, b: Dir4)
    ensures
        (a.x_sign() == Sign::Neutral) != (a.y_sign() == Sign::Neutral),
        a.x_sign() == b.x_sign() && a.y_sign() == b.y_sign() ==> a == b,
{
}

/// One of the eight directions: N, NE, E, SE, ..
#[derive(Debug, Clone, Copy, PartialEq, Eq, Hash, Structural)]
pub enum Dir8 {
    N,
    NE,
    E,
    SE,
    S,
    SW,
    W,
    NW,
}

impl Dir8 {
    /// The place of the direction in clockwise order, north first.
    pub open spec fn index(self) -> int {
        match self {
            Dir8::N => 0,
            Dir8::NE => 1,
            Dir8::E => 2,
            Dir8::SE => 3,
            Dir8::S => 4,
            Dir8::SW => 5,
            Dir8::W => 6,
            Dir8::NW => 7,
        }
    }

    /// The direction that points along `x` and `y`, if any of them is not
    /// neutral. Positive x is east, positive y is south.
    pub open spec fn spec_from_signs(x: Sign, y: Sign) -> Option<Dir8> {
        match (x, y) {
            (Sign::Neutral, Sign::Neutral) => None,
            (Sign::Neutral, Sign::Neg) => Some(Dir8::N),
            (Sign::Pos, Sign::Neg) => Some(Dir8::NE),
            (Sign::Pos, Sign::Neutral) => Some(Dir8::E),
            (Sign::Pos, Sign::Pos) => Some(Dir8::SE),
            (Sign::Neutral, Sign::Pos) => Some(Dir8::S),
            (Sign::Neg, Sign::Pos) => Some(Dir8::SW),
            (Sign::Neg, Sign::Neutral) => Some(Dir8::W),
            (Sign::Neg, Sign::Neg) => Some(Dir8::NW),
        }
    }

    /// The direction whose signs are `signs[0]` along x and `signs[1]` along
    /// y; none when both are neutral.
    pub fn from_signs(signs: [Sign; 2]) -> (r: Option<Dir8>)
        ensures
            r == Self::spec_from_signs(signs[0], signs[1]),
            r is None <==> signs[0] == Sign::Neutral && signs[1] == Sign::Neutral,
            r matches Some(d) ==> d.x_sign() == signs[0] && d.y_sign() == signs[1],
    {
        let x: i32 = signs[0].to_i8();
        let y: i32 = signs[1].to_i8();
        if x == 0 {
            if y == 0 {
                None
            } else if y < 0 {
                Some(Dir8::N)
            } else {
                Some(Dir8::S)
            }
        } else if x > 0 {
            if y == 0 {
                Some(Dir8::E)
            } else if y < 0 {
                Some(Dir8::NE)
            } else {
                Some(Dir8::SE)
            }
        } else {
            if y == 0 {
                Some(Dir8::W)
            } else if y < 0 {
                Some(Dir8::NW)
            } else {
                Some(Dir8::SW)
            }
        }
    }

    pub open spec fn spec_x_sign(&self) -> Sign {
        match self {
            Dir8::W | Dir8::NW | Dir8::SW => Sign::Neg,
            Dir8::E | Dir8::NE | Dir8::SE => Sign::Pos,
            Dir8::N | Dir8::S => Sign::Neutral,
        }
    }

    /// East is positive, west negative.
    #[verifier::when_used_as_spec(spec_x_sign)]
    pub fn x_sign(&self) -> (r: Sign)
        ensures
            r == self.spec_x_sign(),
    {
        match self {
            Dir8::W | Dir8::NW | Dir8::SW => Sign::Neg,
            Dir8::E | Dir8::NE | Dir8::SE => Sign::Pos,
            Dir8::N | Dir8::S => Sign::Neutral,
        }
    }

    pub open spec fn spec_y_sign(&self) -> Sign {
        match self {
            Dir8::N | Dir8::NE | Dir8::NW => Sign::Neg,
            Dir8::S | Dir8::SE | Dir8::SW => Sign::Pos,
            Dir8::E | Dir8::W => Sign::Neutral,
        }
    }

    /// South is positive, north negative.
    #[verifier::when_used_as_spec(spec_y_sign)]
    pub fn y_sign(&self) -> (r: Sign)
        ensures
            r == self.spec_y_sign(),
    {
        match self {
            Dir8::N | Dir8::NE | Dir8::NW => Sign::Neg,
            Dir8::S | Dir8::SE | Dir8::SW => Sign::Pos,
            Dir8::E | Dir8::W => Sign::Neutral,
        }
    }

    pub fn signs(&self) -> (r: [Sign; 2])
        ensures
            r[0] == self.x_sign(),
            r[1] == self.y_sign(),
    {
        [self.x_sign(), self.y_sign()]
    }

    pub fn signs_i32(&self) -> (r: [i32; 2])
        ensures
            r[0] == self.x_sign().value(),
            r[1] == self.y_sign().value(),
    {
        [self.x_sign().to_i32(), self.y_sign().to_i32()]
    }

    pub fn signs_i64(&self) -> (r: [i64; 2])
        ensures
            r[0] == self.x_sign().value(),
            r[1] == self.y_sign().value(),
    {
        [self.x_sign().to_i64(), self.y_sign().to_i64()]
    }

    pub fn signs_isize(&self) -> (r: [isize; 2])
        ensures
            r[0] == self.x_sign().value(),
            r[1] == self.y_sign().value(),
    {
        [self.x_sign().to_isize(), self.y_sign().to_isize()]
    }

    /// The eight directions in clockwise order, north first.
    pub fn clockwise() -> (r: [Dir8; 8])
        ensures
            forall|i: int| 0 <= i < 8 ==> (#[trigger] r[i]).index() == i,
    {
        [Dir8::N, Dir8::NE, Dir8::E, Dir8::SE, Dir8::S, Dir8::SW, Dir8::W, Dir8::NW]
    }

    pub open spec fn spec_inv(&self) -> Dir8 {
        match self {
            Dir8::N => Dir8::S,
            Dir8::NE => Dir8::SW,
            Dir8::E => Dir8::W,
            Dir8::SE => Dir8::NW,
            Dir8::S => Dir8::N,
            Dir8::SW => Dir8::NE,
            Dir8::W => Dir8::E,
            Dir8::NW => Dir8::SE,
        }
    }

    /// The opposite direction: half a turn, which inverts both signs.
    #[verifier::when_used_as_spec(spec_inv)]
    pub fn inv(&self) -> (r: Dir8)
        ensures
            r == self.spec_inv(),
            r.index() == (self.index() + 4) % 8,
            r.x_sign() == self.x_sign().inv(),
            r.y_sign() == self.y_sign().inv(),
    {
        match self {
            Dir8::N => Dir8::S,
            Dir8::NE => Dir8::SW,
            Dir8::E => Dir8::W,
            Dir8::SE => Dir8::NW,
            Dir8::S => Dir8::N,
            Dir8::SW => Dir8::NE,
            Dir8::W => Dir8::E,
            Dir8::NW => Dir8::SE,
        }
    }

    pub open spec fn spec_r45(&self) -> Dir8 {
        match self {
            Dir8::N => Dir8::NE,
            Dir8::NE => Dir8::E,
            Dir8::E => Dir8::SE,
            Dir8::SE => Dir8::S,
            Dir8::S => Dir8::SW,
            Dir8::SW => Dir8::W,
            Dir8::W => Dir8::NW,
            Dir8::NW => Dir8::N,
        }
    }

    /// The next direction clockwise.
    #[verifier::when_used_as_spec(spec_r45)]
    pub fn r45(&self) -> (r: Dir8)
        ensures
            r == self.spec_r45(),
            r.index() == (self.index() + 1) % 8,
    {
        match self {
            Dir8::N => Dir8::NE,
            Dir8::NE => Dir8::E,
            Dir8::E => Dir8::SE,
            Dir8::SE => Dir8::S,
            Dir8::S => Dir8::SW,
            Dir8::SW => Dir8::W,
            Dir8::W => Dir8::NW,
            Dir8::NW => Dir8::N,
        }
    }

    /// The table of [`Dir8::l45`]. It is the step against the clock except
    /// at north-east, which goes to west, and south-west, which stays.
    pub open spec fn spec_l45(&self) -> Dir8 {
        match self {
            Dir8::N => Dir8::NW,
            Dir8::NE => Dir8::W,
            Dir8::E => Dir8::NE,
            Dir8::SE => Dir8::E,
            Dir8::S => Dir8::SE,
            Dir8::SW => Dir8::SW,
            Dir8::W => Dir8::SW,
            Dir8::NW => Dir8::W,
        }
    }

    /// The direction that the left-turn table gives for `self`.
    #[verifier::when_used_as_spec(spec_l45)]
    pub fn l45(&self) -> (r: Dir8)
        ensures
            r == self.spec_l45(),
            *self != Dir8::NE && *self != Dir8::SW ==> r.index() == (self.index() + 7) % 8,
    {
        match self {
            Dir8::N => Dir8::NW,
            Dir8::NE => Dir8::W,
            Dir8::E => Dir8::NE,
            Dir8::SE => Dir8::E,
            Dir8::S => Dir8::SE,
            Dir8::SW => Dir8::SW,
            Dir8::W => Dir8::SW,
            Dir8::NW => Dir8::W,
        }
    }

    pub open spec fn spec_r90(&self) -> Dir8 {
        match self {
            Dir8::N => Dir8::E,
            Dir8::NE => Dir8::SE,
            Dir8::E => Dir8::S,
            Dir8::SE => Dir8::SW,
            Dir8::S => Dir8::W,
            Dir8::SW => Dir8::NW,
            Dir8::W => Dir8::N,
            Dir8::NW => Dir8::NE,
        }
    }

    /// A quarter turn clockwise.
    #[verifier::when_used_as_spec(spec_r90)]
    pub fn r90(&self) -> (r: Dir8)
        ensures
            r == self.spec_r90(),
            r.index() == (self.index() + 2) % 8,
    {
        match self {
            Dir8::N => Dir8::E,
            Dir8::NE => Dir8::SE,
            Dir8::E => Dir8::S,
            Dir8::SE => Dir8::SW,
            Dir8::S => Dir8::W,
            Dir8::SW => Dir8::NW,
            Dir8::W => Dir8::N,
            Dir8::NW => Dir8::NE,
        }
    }

    /// The table of [`Dir8::l90`]. It is the quarter turn against the clock
    /// except at north-east, which stays.
    pub open spec fn spec_l90(&self) -> Dir8 {
        match self {
            Dir8::N => Dir8::W,
            Dir8::NE => Dir8::NE,
            Dir8::E => Dir8::N,
            Dir8::SE => Dir8::NE,
            Dir8::S => Dir8::E,
            Dir8::SW => Dir8::SE,
            Dir8::W => Dir8::S,
            Dir8::NW => Dir8::SW,
        }
    }

    /// The direction that the left-quarter-turn table gives for `self`.
    #[verifier::when_used_as_spec(spec_l90)]
    pub fn l90(&self) -> (r: Dir8)
        ensures
            r == self.spec_l90(),
            *self != Dir8::NE ==> r.index() == (self.index() + 6) % 8,
    {
        match self {
            Dir8::N => Dir8::W,
            Dir8::NE => Dir8::NE,
            Dir8::E => Dir8::N,
            Dir8::SE => Dir8::NE,
            Dir8::S => Dir8::E,
            Dir8::SW => Dir8::SE,
            Dir8::W => Dir8::S,
            Dir8::NW => Dir8::SW,
        }
    }
}

/// An eight-way direction is determined by its place in clockwise order.
pub proof fn law_dir8_index_injective(a: Dir8, b: Dir8)
    ensures
        0 <= a.index() < 8,
        a.index() == b.index() ==> a == b,
{
}

/// Every pair of signs other than (neutral, neutral) names a direction, that
/// direction has exactly those signs, and the neutral pair names none.
pub proof fn law_from_signs_complete(x: Sign, y: Sign)
    ensures
        Dir8::spec_from_signs(x, y) is None <==> x == Sign::Neutral && y == Sign::Neutral,
        Dir8::spec_from_signs(x, y) matches Some(d) ==> d.x_sign() == x && d.y_sign() == y,
{
}

/// Different pairs of signs name different directions.
pub proof fn law_from_signs_injective(x: Sign, y: Sign, other_x: Sign, other_y: Sign)
    requires
        Dir8::spec_from_signs(x, y) == Dir8::spec_from_signs(other_x, other_y),
    ensures
        x == other_x,
        y == other_y,
{
}

/// Every direction is the one that its own signs name.
pub proof fn law_from_signs_of_direction(d: Dir8)
    ensures
        Dir8::spec_from_signs(d.x_sign(), d.y_sign()) == Some(d),
{
}

/// Two steps of 45 degrees clockwise are a quarter turn, and two quarter turns
/// are the opposite direction.
pub proof fn law_dir8_turns_compose(d: Dir8)
    ensures
        d.r45().r45() == d.r90(),
        d.r90().r90() == d.inv(),
        d.inv().inv() == d,
{
}

} // verus!
