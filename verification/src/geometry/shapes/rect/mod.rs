//! A rectangle given by two opposite corners.

pub mod arithmetic;
pub mod assign;
pub mod iter;

use crate::geometry::rect::half;
use crate::geometry::shapes::rect::iter::RectPointIter;
use crate::grid_point::GridPoint;
use crate::size_2d::Size2d;
use crate::vec2::{wrap_i32, IVec2};
use vstd::prelude::*;

verus! {

/// One of the four corners of a rectangle.
#[derive(Debug, Clone, Copy, PartialEq, Eq, Structural)]
pub enum GridCorner {
    TopLeft,
    TopRight,
    BottomLeft,
    BottomRight,
}

/// An axis-aligned rectangle given by two corners. The constructors store
/// the corners as they are given: where `min` is to be the smaller corner,
/// the caller sees to it.
#[derive(Clone, Copy, Debug, PartialEq, Eq, Structural)]
pub struct Rect {
    /// The minimum corner.
    pub min: IVec2,
    /// The maximum corner.
    pub max: IVec2,
}

/// `v` fits in an `i32`.
pub open spec fn fits_i32(v: int) -> bool {
    i32::MIN <= v <= i32::MAX
}

/// The signed reading of an extent, as `Size2d::as_ivec2` returns it.
pub open spec fn signed<S: Size2d>(s: S) -> IVec2 {
    IVec2 { x: wrap_i32(s.width_spec()), y: wrap_i32(s.height_spec()) }
}

/// A canonical point read as an extent and back as signed is itself.
pub proof fn lemma_signed(v: IVec2)
    ensures
        signed(v) == v,
{
    crate::vec2::lemma_wrap_round_trip(0, v.x);
    crate::vec2::lemma_wrap_round_trip(0, v.y);
}

impl Rect {
    /// Whether `(x, y)` is one of the points that `point_set` and `for_each`
    /// visit: those from `min`, included, to `max`, excluded.
    pub open spec fn covers(&self, x: int, y: int) -> bool {
        self.min.x <= x < self.max.x && self.min.y <= y < self.max.y
    }

    /// Whether `(x, y)` lies within the rectangle, edges included.
    pub open spec fn contains_spec(&self, x: int, y: int) -> bool {
        self.min.x <= x <= self.max.x && self.min.y <= y <= self.max.y
    }

    /// Whether the two rectangles, edges included, have a point in common.
    pub open spec fn intersects_spec(&self, other: Rect) -> bool {
        self.min.x <= other.max.x && self.max.x >= other.min.x && self.min.y <= other.max.y
            && self.max.y >= other.min.y
    }

    /// The point in the middle: the sum of the corners, halved towards zero.
    pub open spec fn center_spec(&self) -> (int, int) {
        (half(self.min.x + self.max.x), half(self.min.y + self.max.y))
    }

    /// The rectangle from `top_corner` to `top_corner + size`.
    pub fn new<S: Size2d>(top_corner: S, size: S) -> (r: Rect)
        requires
            fits_i32(signed(top_corner).x + signed(size).x),
            fits_i32(signed(top_corner).y + signed(size).y),
        ensures
            r.min == signed(top_corner),
            r.max.x == signed(top_corner).x + signed(size).x,
            r.max.y == signed(top_corner).y + signed(size).y,
    {
        let top: IVec2 = top_corner.as_ivec2();
        let size: IVec2 = size.as_ivec2();
        Rect { min: top, max: IVec2 { x: top.x + size.x, y: top.y + size.y } }
    }

    /// The rectangle with the corners `top_corner` and `bottom_corner`, kept
    /// as they are given.
    pub fn from_corners<S: Size2d>(top_corner: S, bottom_corner: S) -> (r: Rect)
        ensures
            r.min == signed(top_corner),
            r.max == signed(bottom_corner),
    {
        Rect { min: top_corner.as_ivec2(), max: bottom_corner.as_ivec2() }
    }

    /// The rectangle around `origin` that reaches half of `size` to either
    /// side, for a size without a negative length.
    pub fn from_center_size<S: Size2d>(origin: S, size: S) -> (r: Rect)
        requires
            signed(size).x >= 0,
            signed(size).y >= 0,
            fits_i32(signed(origin).x - signed(size).x / 2),
            fits_i32(signed(origin).x + signed(size).x / 2),
            fits_i32(signed(origin).y - signed(size).y / 2),
            fits_i32(signed(origin).y + signed(size).y / 2),
        ensures
            r.min.x == signed(origin).x - signed(size).x / 2,
            r.max.x == signed(origin).x + signed(size).x / 2,
            r.min.y == signed(origin).y - signed(size).y / 2,
            r.max.y == signed(origin).y + signed(size).y / 2,
    {
        let size: IVec2 = size.as_ivec2();
        let origin: IVec2 = origin.as_ivec2();
        let half_size = IVec2 { x: size.x / 2, y: size.y / 2 };
        proof {
            lemma_signed(origin);
            lemma_signed(half_size);
        }
        Rect::from_center_half_size(origin, half_size)
    }

    /// The rectangle around `origin` that reaches `half_size` to either
    /// side, for a half-size without a negative length.
    pub fn from_center_half_size<S: Size2d>(origin: S, half_size: S) -> (r: Rect)
        requires
            signed(half_size).x >= 0,
            signed(half_size).y >= 0,
            fits_i32(signed(origin).x - signed(half_size).x),
            fits_i32(signed(origin).x + signed(half_size).x),
            fits_i32(signed(origin).y - signed(half_size).y),
            fits_i32(signed(origin).y + signed(half_size).y),
        ensures
            r.min.x == signed(origin).x - signed(half_size).x,
            r.max.x == signed(origin).x + signed(half_size).x,
            r.min.y == signed(origin).y - signed(half_size).y,
            r.max.y == signed(origin).y + signed(half_size).y,
    {
        let origin: IVec2 = origin.as_ivec2();
        let half: IVec2 = half_size.as_ivec2();
        Rect {
            min: IVec2 { x: origin.x - half.x, y: origin.y - half.y },
            max: IVec2 { x: origin.x + half.x, y: origin.y + half.y },
        }
    }

    /// Whether the rectangle has no point between its corners: `min` is not
    /// below `max` along some axis.
    pub fn is_empty(&self) -> (r: bool)
        ensures
            r == (self.min.x >= self.max.x || self.min.y >= self.max.y),
            r <==> forall|x: int, y: int| !self.covers(x, y),
    {
        proof {
            if self.min.x < self.max.x && self.min.y < self.max.y {
                assert(self.covers(self.min.x as int, self.min.y as int));
            }
        }
        self.min.x >= self.max.x || self.min.y >= self.max.y
    }

    /// The width: `max.x - min.x`.
    pub fn width(&self) -> (r: i32)
        requires
            fits_i32(self.max.x - self.min.x),
        ensures
            r == self.max.x - self.min.x,
    {
        self.max.x - self.min.x
    }

    /// The height: `max.y - min.y`.
    pub fn height(&self) -> (r: i32)
        requires
            fits_i32(self.max.y - self.min.y),
        ensures
            r == self.max.y - self.min.y,
    {
        self.max.y - self.min.y
    }

    /// The size: `max - min`.
    pub fn size(&self) -> (r: IVec2)
        requires
            fits_i32(self.max.x - self.min.x),
            fits_i32(self.max.y - self.min.y),
        ensures
            r.x == self.max.x - self.min.x,
            r.y == self.max.y - self.min.y,
    {
        IVec2 { x: self.max.x - self.min.x, y: self.max.y - self.min.y }
    }

    /// Half the size, each length halved towards zero.
    pub fn half_size(&self) -> (r: IVec2)
        requires
            fits_i32(self.max.x - self.min.x),
            fits_i32(self.max.y - self.min.y),
        ensures
            r.x == half(self.max.x - self.min.x),
            r.y == half(self.max.y - self.min.y),
    {
        let s = self.size();
        IVec2 { x: s.x / 2, y: s.y / 2 }
    }

    /// The point in the middle: the sum of the corners, halved towards zero.
    pub fn center(&self) -> (r: IVec2)
        requires
            fits_i32(self.min.x + self.max.x),
            fits_i32(self.min.y + self.max.y),
        ensures
            (r.x as int, r.y as int) == self.center_spec(),
    {
        IVec2 { x: (self.min.x + self.max.x) / 2, y: (self.min.y + self.max.y) / 2 }
    }

    /// Whether `point` lies within the rectangle, edges included.
    pub fn contains<P: GridPoint>(&self, point: P) -> (r: bool)
        ensures
            r == self.contains_spec(point.x_spec() as int, point.y_spec() as int),
    {
        let x: i32 = point.x();
        let y: i32 = point.y();
        x >= self.min.x && y >= self.min.y && x <= self.max.x && y <= self.max.y
    }

    /// Whether this rectangle and `other`, edges included, have a point in
    /// common.
    pub fn intersects(&self, other: Rect) -> (r: bool)
        ensures
            r == self.intersects_spec(other),
    {
        self.min.x <= other.max.x && self.max.x >= other.min.x && self.min.y <= other.max.y
            && self.max.y >= other.min.y
    }

    /// The corner `corner`: the centre moved by half the size, to the left
    /// or the right and, with `y` growing towards the top, up or down.
    pub fn corner(&self, corner: &GridCorner) -> (r: IVec2)
        requires
            fits_i32(self.max.x - self.min.x),
            fits_i32(self.max.y - self.min.y),
            fits_i32(self.min.x + self.max.x),
            fits_i32(self.min.y + self.max.y),
            fits_i32(self.center_spec().0 + half(self.max.x - self.min.x)),
            fits_i32(self.center_spec().0 - half(self.max.x - self.min.x)),
            fits_i32(self.center_spec().1 + half(self.max.y - self.min.y)),
            fits_i32(self.center_spec().1 - half(self.max.y - self.min.y)),
        ensures
            r.x == self.center_spec().0 + (match corner {
                GridCorner::TopLeft | GridCorner::BottomLeft => -half(self.max.x - self.min.x),
                GridCorner::TopRight | GridCorner::BottomRight => half(self.max.x - self.min.x),
            }),
            r.y == self.center_spec().1 + (match corner {
                GridCorner::TopLeft | GridCorner::TopRight => half(self.max.y - self.min.y),
                GridCorner::BottomLeft | GridCorner::BottomRight => -half(self.max.y - self.min.y),
            }),
    {
        let hs = self.half_size();
        let w: i32 = hs.x;
        let h: i32 = hs.y;
        let c = self.center();
        match corner {
            GridCorner::TopLeft => IVec2 { x: c.x - w, y: c.y + h },
            GridCorner::TopRight => IVec2 { x: c.x + w, y: c.y + h },
            GridCorner::BottomLeft => IVec2 { x: c.x - w, y: c.y - h },
            GridCorner::BottomRight => IVec2 { x: c.x + w, y: c.y - h },
        }
    }

    /// The points from `min`, included, to `max`, excluded, each once, row
    /// by row from `min.y` and within a row from `min.x`.
    pub fn point_set(&self) -> (r: Vec<IVec2>)
        ensures
            r@ == RectPointIter::points_spec(self.min, self.max),
            r@.no_duplicates(),
            forall|p: IVec2| r@.contains(p) <==> self.covers(p.x as int, p.y as int),
    {
        proof {
            lemma_signed(self.min);
            lemma_signed(self.max);
        }
        let r = RectPointIter::new(self.min, self.max).to_vec();
        proof {
            iter::lemma_points(self.min, self.max);
            assert(*self == (Rect { min: self.min, max: self.max }));
            assert(r@ =~= RectPointIter::points_spec(self.min, self.max));
            assert forall|p: IVec2| r@.contains(p) <==> self.covers(p.x as int, p.y as int) by {
                assert(RectPointIter::points_spec(self.min, self.max).contains(p) <==> (Rect {
                    min: self.min,
                    max: self.max,
                }).covers(p.x as int, p.y as int));
            }
        }
        r
    }

    /// Calls `f` on each point from `min`, included, to `max`, excluded, row
    /// by row from `min.y` and within a row from `min.x`.
    pub fn for_each<F: FnMut(IVec2)>(&self, mut f: F)
        requires
            forall|x: int, y: int|
                self.covers(x, y) ==> call_requires(f, (IVec2 { x: x as i32, y: y as i32 },)),
        ensures
            forall|p: IVec2| self.covers(p.x as int, p.y as int)
                ==> #[trigger] call_ensures(f, (p,), ()),
    {
        proof {
            lemma_signed(self.min);
            lemma_signed(self.max);
        }
        let mut it = RectPointIter::new(self.min, self.max);
        let ghost f0 = f;
        let mut more: bool = true;
        while more
            invariant
                f == f0,
                it.min_spec() == self.min,
                it.max_spec() == self.max,
                0 <= it.position() <= it.total(),
                !more ==> it.position() == it.total(),
                forall|x: int, y: int|
                    self.covers(x, y) ==> call_requires(f, (IVec2 { x: x as i32, y: y as i32 },)),
                forall|k: int|
                    0 <= k < it.position() ==> call_ensures(
                        f,
                        (#[trigger] RectPointIter::point_spec(self.min, self.max, k),),
                        (),
                    ),
            decreases (if more { 1int } else { 0int }) + it.total() - it.position(),
        {
            let ghost k = it.position();
            match it.next() {
                None => {
                    more = false;
                },
                Some(p) => {
                    proof {
                        iter::lemma_point_covered(self.min, self.max, k);
                        assert(p == (IVec2 { x: p.x as int as i32, y: p.y as int as i32 }));
                    }
                    f(p);
                },
            }
        }
        proof {
            assert forall|p: IVec2|
                self.covers(p.x as int, p.y as int) implies #[trigger] call_ensures(f, (p,), ()) by {
                assert(*self == (Rect { min: self.min, max: self.max }));
                let i = iter::lemma_covered_point(self.min, self.max, p);
                assert(RectPointIter::point_spec(self.min, self.max, i) == p);
            }
        }
    }
}

} // verus!
