use vstd::prelude::*;

verus! {

/// A two-dimensional integer vector, in sheet pixels.
#[derive(Clone, Copy, Debug, PartialEq, Eq, Structural)]
pub struct Vec2 {
    pub x: i32,
    pub y: i32,
}

/// The width and height of a rectangle, in sheet pixels.
#[derive(Clone, Copy, Debug, PartialEq, Eq, Structural)]
pub struct Size {
    pub width: u32,
    pub height: u32,
}

impl Vec2 {
    pub fn new(x: i32, y: i32) -> (r: Vec2)
        ensures
            r == (Vec2 { x, y }),
    {
        Vec2 { x, y }
    }

    pub fn zero() -> (r: Vec2)
        ensures
            r == (Vec2 { x: 0, y: 0 }),
    {
        Vec2 { x: 0, y: 0 }
    }
}

/// `x` brought into the range of `i32`.
pub open spec fn clamp_i32(x: int) -> i32 {
    if x < i32::MIN {
        i32::MIN
    } else if x > i32::MAX {
        i32::MAX
    } else {
        x as i32
    }
}

pub fn clamp_to_i32(x: i64) -> (r: i32)
    ensures
        r == clamp_i32(x as int),
{
    if x < i32::MIN as i64 {
        i32::MIN
    } else if x > i32::MAX as i64 {
        i32::MAX
    } else {
        x as i32
    }
}

impl Vec2 {
    /// Component-wise sum, each component held to the range of `i32`.
    pub open spec fn saturating_sum(self, o: Vec2) -> Vec2 {
        Vec2 { x: clamp_i32(self.x + o.x), y: clamp_i32(self.y + o.y) }
    }

    pub fn saturating_add(self, o: Vec2) -> (r: Vec2)
        ensures
            r == self.saturating_sum(o),
    {
        Vec2 {
            x: clamp_to_i32(self.x as i64 + o.x as i64),
            y: clamp_to_i32(self.y as i64 + o.y as i64),
        }
    }
}

} // verus!
