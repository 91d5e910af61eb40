//! Plane vectors and facing, in fixed point.
//!
//! Lengths, positions and velocities are whole thousandths of a world unit, so that the
//! per-tick arithmetic of the state handlers is exact.
use vstd::prelude::*;

verus! {

/// A vector in the plane, in thousandths of a world unit.
#[derive(Clone, Copy, Debug, PartialEq, Eq, Structural)]
pub struct Vec2 {
    pub x: i64,
    pub y: i64,
}

impl Vec2 {
    pub fn new(x: i64, y: i64) -> (r: Vec2)
        ensures
            r.x == x,
            r.y == y,
    {
        Vec2 { x, y }
    }

    pub fn zero() -> (r: Vec2)
        ensures
            r.x == 0,
            r.y == 0,
    {
        Vec2 { x: 0, y: 0 }
    }

    pub fn is_zero(&self) -> (r: bool)
        ensures
            r == (self.x == 0 && self.y == 0),
    {
        self.x == 0 && self.y == 0
    }
}

/// Which way a fighter is looking.
#[derive(Clone, Copy, Debug, PartialEq, Eq, Structural)]
pub enum Facing {
    Left,
    Right,
}

impl Facing {
    pub fn is_left(&self) -> (r: bool)
        ensures
            r == (*self == Facing::Left),
    {
        match self {
            Facing::Left => true,
            Facing::Right => false,
        }
    }
}

/// `x` turned to point the way a fighter faces: negated when facing left.
pub open spec fn mirrored(x: int, facing: Facing) -> int {
    if facing == Facing::Left {
        -x
    } else {
        x
    }
}

} // verus!
