//! Points and offsets on the integer grid of the world.
//!
//! Lengths and speeds are whole numbers of steps, a thousand to the unit;
//! times are whole microseconds. A point has 32-bit coordinates, so that the offset between any two points
//! fits the 64-bit coordinates of an offset.
use vstd::prelude::*;

verus! {

/// The steps that make up one unit of length.
pub const UNIT: i32 = 1000;

/// The steps that make up one second.
pub const SECOND: u32 = 1000000;

/// A point of the world, or a velocity.
#[derive(Clone, Copy, Debug, PartialEq, Eq, Structural)]
pub struct Vec2 {
    pub x: i32,
    pub y: i32,
}

/// The way from one point to another.
#[derive(Clone, Copy, Debug, PartialEq, Eq, Structural)]
pub struct Offset {
    pub x: i64,
    pub y: i64,
}

impl Vec2 {
    /// The point with the given coordinates.
    pub fn new(x: i32, y: i32) -> (point: Vec2)
        ensures
            point == (Vec2 { x, y }),
    {
        Vec2 { x, y }
    }
}

impl Offset {
    /// Whether the offset lies in the box of the given half extents around the origin.
    pub open spec fn within(self, half_width: i64, half_height: i64) -> bool {
        &&& -half_width <= self.x <= half_width
        &&& -half_height <= self.y <= half_height
    }

    /// Whether the offset lies in the box of the given half extents around the origin.
    pub fn is_within(&self, half_width: i64, half_height: i64) -> (inside: bool)
        ensures
            inside == self.within(half_width, half_height),
    {
        if half_width < 0 || half_height < 0 {
            return false;
        }
        self.x <= half_width && self.x >= -half_width && self.y <= half_height && self.y
            >= -half_height
    }
}

/// Half of `n`, rounded towards zero.
pub open spec fn halved(n: int) -> int {
    if n >= 0 {
        n / 2
    } else {
        -((-n) / 2)
    }
}

/// Half of `n`, rounded towards zero.
pub fn half(n: i64) -> (h: i64)
    ensures
        h == halved(n as int),
{
    n / 2
}

/// The offset that leads from `from` to `to`.
pub open spec fn offset_between(from: Vec2, to: Vec2) -> Offset {
    Offset { x: (to.x - from.x) as i64, y: (to.y - from.y) as i64 }
}

/// The offset that leads from `my_pos` to `target_pos`.
pub fn get_vec_to_target(my_pos: &Vec2, target_pos: &Vec2) -> (offset: Offset)
    ensures
        offset == offset_between(*my_pos, *target_pos),
        offset.x == target_pos.x - my_pos.x,
        offset.y == target_pos.y - my_pos.y,
{
    Offset {
        x: target_pos.x as i64 - my_pos.x as i64,
        y: target_pos.y as i64 - my_pos.y as i64,
    }
}

} // verus!
