use vstd::prelude::*;

verus! {

/// Largest size (width, height, half-extent, speed) the simulation accepts.
pub const SIZE_LIMIT: i64 = 1_099_511_627_776;

/// Largest magnitude of a coordinate the simulation accepts.
pub const POS_LIMIT: i64 = 4_398_046_511_104;

/// A pair of coordinates, in micro-units.
#[derive(Clone, Copy, Debug, PartialEq, Eq, Structural)]
pub struct Vec2 {
    pub x: i64,
    pub y: i64,
}

/// An axis-aligned box, given by its center and its half-extent.
#[derive(Clone, Copy, Debug, PartialEq, Eq, Structural)]
pub struct Aabb {
    pub center: Vec2,
    pub half: Vec2,
}

/// The visible play area, centered on the origin.
#[derive(Clone, Copy, Debug, PartialEq, Eq, Structural)]
pub struct PlayArea {
    pub width: i64,
    pub height: i64,
}

pub open spec fn abs(v: int) -> int {
    if v < 0 { -v } else { v }
}

/// A size (or speed) that the simulation accepts: non-negative and bounded.
pub open spec fn size_ok(v: int) -> bool {
    0 <= v <= SIZE_LIMIT
}

pub open spec fn extent_ok(v: Vec2) -> bool {
    size_ok(v.x as int) && size_ok(v.y as int)
}

pub open spec fn position_ok(v: Vec2) -> bool {
    abs(v.x as int) <= POS_LIMIT && abs(v.y as int) <= POS_LIMIT
}

/// Two boxes overlap iff their intervals overlap on both axes (touching counts).
pub open spec fn overlaps(a: Aabb, b: Aabb) -> bool {
    &&& abs(a.center.x - b.center.x) <= a.half.x + b.half.x
    &&& abs(a.center.y - b.center.y) <= a.half.y + b.half.y
}

impl PlayArea {
    pub open spec fn wf(self) -> bool {
        size_ok(self.width as int) && size_ok(self.height as int)
    }

    /// The x coordinate of the right edge; the left edge is its negation.
    pub open spec fn half_width(self) -> int {
        self.width / 2
    }

    /// The y coordinate of the top edge; the bottom edge is its negation.
    pub open spec fn half_height(self) -> int {
        self.height / 2
    }
}

/// |a - b| computed without overflow.
fn distance(a: i64, b: i64) -> (r: i128)
    ensures
        r == abs(a - b),
{
    let d = a as i128 - b as i128;
    if d < 0 {
        -d
    } else {
        d
    }
}

impl Aabb {
    /// Whether the two boxes overlap on both axes.
    pub fn intersects(&self, other: &Aabb) -> (r: bool)
        ensures
            r == overlaps(*self, *other),
    {
        let reach_x = self.half.x as i128 + other.half.x as i128;
        let reach_y = self.half.y as i128 + other.half.y as i128;
        distance(self.center.x, other.center.x) <= reach_x && distance(
            self.center.y,
            other.center.y,
        ) <= reach_y
    }
}

} // verus!
