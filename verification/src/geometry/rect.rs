//! A rectangle given by a start and a size.

use crate::grid_point::GridPoint;
use crate::size_2d::{in_bounds, Size2d};
use crate::vec2::{wrap_i32, wrap_u32, IVec2};
use vstd::prelude::*;

verus! {

/// A rectangle given by its start and its size.
#[derive(Debug, Copy, Clone, Eq, PartialEq, Structural)]
pub struct Rect {
    pub start: IVec2,
    pub size: IVec2,
}

/// The distance between `a` and `b`.
pub open spec fn abs_diff(a: int, b: int) -> int {
    if a >= b {
        a - b
    } else {
        b - a
    }
}

/// `a` halved, rounded towards zero.
pub open spec fn half(a: int) -> int {
    if a >= 0 {
        a / 2
    } else {
        -((-a) / 2)
    }
}

impl Rect {
    /// The rectangle whose start and size are both the origin.
    pub fn zero() -> (r: Rect)
        ensures
            r == (Rect { start: IVec2 { x: 0, y: 0 }, size: IVec2 { x: 0, y: 0 } }),
    {
        Rect::splat(0)
    }

    /// The rectangle with the given start and size, each read as signed, bit
    /// for bit.
    pub fn new<A: Size2d, B: Size2d>(start: A, size: B) -> (r: Rect)
        ensures
            r.start == (IVec2 { x: wrap_i32(start.width_spec()), y: wrap_i32(start.height_spec()) }),
            r.size == (IVec2 { x: wrap_i32(size.width_spec()), y: wrap_i32(size.height_spec()) }),
    {
        Rect { start: start.as_ivec2(), size: size.as_ivec2() }
    }

    /// The rectangle whose four numbers are all `v`.
    pub fn splat(v: i32) -> (r: Rect)
        ensures
            r == (Rect { start: IVec2 { x: v, y: v }, size: IVec2 { x: v, y: v } }),
    {
        Rect { start: IVec2::splat(v), size: IVec2::splat(v) }
    }

    /// The distance between `size.x` and `start.x`.
    pub fn width(&self) -> (r: i32)
        requires
            abs_diff(self.size.x as int, self.start.x as int) <= i32::MAX,
        ensures
            r == abs_diff(self.size.x as int, self.start.x as int),
    {
        if self.size.x >= self.start.x {
            self.size.x - self.start.x
        } else {
            self.start.x - self.size.x
        }
    }

    /// The distance between `size.y` and `start.y`.
    pub fn height(&self) -> (r: i32)
        requires
            abs_diff(self.size.y as int, self.start.y as int) <= i32::MAX,
        ensures
            r == abs_diff(self.size.y as int, self.start.y as int),
    {
        if self.size.y >= self.start.y {
            self.size.y - self.start.y
        } else {
            self.start.y - self.size.y
        }
    }

    /// Whether the two rectangles, edges included, have a point in common.
    pub open spec fn intersect_spec(&self, rhs: &Rect) -> bool {
        &&& self.start.x <= rhs.start.x + rhs.size.x
        &&& self.start.x + self.size.x >= rhs.start.x
        &&& self.start.y <= rhs.start.y + rhs.size.y
        &&& self.start.y + self.size.y >= rhs.start.y
    }

    /// Whether this rectangle overlaps `rhs`, edges included.
    pub fn intersect(&self, rhs: &Rect) -> (r: bool)
        ensures
            r == self.intersect_spec(rhs),
    {
        let self_x2: i64 = self.start.x as i64 + self.size.x as i64;
        let self_y2: i64 = self.start.y as i64 + self.size.y as i64;
        let other_x2: i64 = rhs.start.x as i64 + rhs.size.x as i64;
        let other_y2: i64 = rhs.start.y as i64 + rhs.size.y as i64;
        self.start.x as i64 <= other_x2 && self_x2 >= rhs.start.x as i64 && self.start.y as i64
            <= other_y2 && self_y2 >= rhs.start.y as i64
    }

    /// The point in the middle: the start moved on by half the size.
    pub fn center(&self) -> (r: IVec2)
        requires
            i32::MIN <= self.start.x + half(self.size.x as int) <= i32::MAX,
            i32::MIN <= self.start.y + half(self.size.y as int) <= i32::MAX,
        ensures
            r.x == self.start.x + half(self.size.x as int),
            r.y == self.start.y + half(self.size.y as int),
    {
        IVec2::new(self.start.x + self.size.x / 2, self.start.y + self.size.y / 2)
    }

    /// Whether `point` lies inside the extent that the size stands for,
    /// anchored at the origin.
    pub fn point_in_rect<P: GridPoint>(&self, point: P) -> (r: bool)
        ensures
            r == in_bounds(
                point.x_spec() as int,
                point.y_spec() as int,
                wrap_u32(self.size.x) as int,
                wrap_u32(self.size.y) as int,
            ),
    {
        self.size.point_in_bounds(point)
    }
}

} // verus!
