//! Plain fixed-point 2-d vectors and the axis-aligned overlap test that
//! every collision and pickup check goes through.
use vstd::prelude::*;

verus! {

/// Mathematical value of a [`Vec2`]: unbounded integer coordinates.
pub ghost struct V2 {
    pub x: int,
    pub y: int,
}

/// A point or extent in world space, in thousandths of a pixel.
#[derive(Clone, Copy, PartialEq, Eq, Structural, Debug)]
pub struct Vec2 {
    pub x: i64,
    pub y: i64,
}

impl View for Vec2 {
    type V = V2;

    open spec fn view(&self) -> V2 {
        V2 { x: self.x as int, y: self.y as int }
    }
}

impl Vec2 {
    pub fn new(x: i64, y: i64) -> (v: Vec2)
        ensures
            v@ == (V2 { x: x as int, y: y as int }),
    {
        Vec2 { x, y }
    }
}

/// Whether the value is within the given magnitude bound.
pub open spec fn within(v: int, bound: int) -> bool {
    -bound <= v <= bound
}

/// Inclusive axis-aligned rectangle overlap: the two closed rectangles
/// share at least a point, so rectangles that merely touch along an edge
/// count as overlapping.
pub open spec fn rects_overlap(
    ax: int, ay: int, aw: int, ah: int,
    bx: int, by: int, bw: int, bh: int,
) -> bool {
    ax <= bx + bw && ax + aw >= bx && ay <= by + bh && ay + ah >= by
}

} // verus!
