//! A walk over the points of a rectangle.

use crate::geometry::shapes::rect::Rect;
use crate::size_2d::{lemma_point_at, lemma_row_major, Size2d};
use crate::vec2::{wrap_i32, IVec2, UVec2};
use vstd::prelude::*;

verus! {

/// A single-pass walk over the points from `min`, included, to `max`,
/// excluded: row by row from `min.y`, and within a row from `min.x`.
#[derive(Debug)]
pub struct RectPointIter {
    curr: UVec2,
    size: UVec2,
    min: IVec2,
    max: IVec2,
}

/// The number of whole steps from `low` up to `high`: 0 where `high` is not
/// above `low`.
pub open spec fn span(low: int, high: int) -> int {
    if high > low {
        high - low
    } else {
        0
    }
}

impl RectPointIter {
    #[verifier::type_invariant]
    closed spec fn inv(self) -> bool {
        &&& self.size.x == Self::width_of(self.min, self.max)
        &&& self.size.y == Self::height_of(self.min, self.max)
        &&& self.curr.y <= self.size.y
        &&& self.curr.y < self.size.y ==> self.curr.x < self.size.x
        &&& self.curr.y == self.size.y ==> self.curr.x == 0
    }

    /// The corner at which the walk starts.
    pub closed spec fn min_spec(self) -> IVec2 {
        self.min
    }

    /// The corner before which the walk ends.
    pub closed spec fn max_spec(self) -> IVec2 {
        self.max
    }

    /// How many points have been handed out.
    pub closed spec fn position(self) -> int {
        self.curr.y * self.size.x + self.curr.x
    }

    /// The number of points in a row of the walk, or 0 where the walk has no
    /// point at all.
    pub open spec fn width_of(min: IVec2, max: IVec2) -> int {
        if span(min.y as int, max.y as int) == 0 {
            0
        } else {
            span(min.x as int, max.x as int)
        }
    }

    /// The number of rows of the walk, or 0 where the walk has no point at
    /// all.
    pub open spec fn height_of(min: IVec2, max: IVec2) -> int {
        if span(min.x as int, max.x as int) == 0 {
            0
        } else {
            span(min.y as int, max.y as int)
        }
    }

    /// The number of points from `min` to `max`.
    pub open spec fn count_of(min: IVec2, max: IVec2) -> int {
        Self::width_of(min, max) * Self::height_of(min, max)
    }

    /// The point at place `k` of the walk from `min` to `max`.
    pub open spec fn point_spec(min: IVec2, max: IVec2, k: int) -> IVec2 {
        IVec2 {
            x: (min.x + k % Self::width_of(min, max)) as i32,
            y: (min.y + k / Self::width_of(min, max)) as i32,
        }
    }

    /// The points from `min` to `max` in the order of the walk.
    pub open spec fn points_spec(min: IVec2, max: IVec2) -> Seq<IVec2> {
        Seq::new(Self::count_of(min, max) as nat, |k: int| Self::point_spec(min, max, k))
    }

    /// The number of points of the whole walk.
    pub open spec fn total(self) -> int {
        Self::count_of(self.min_spec(), self.max_spec())
    }

    /// The points still to come, in order.
    pub open spec fn remaining(self) -> Seq<IVec2> {
        Self::points_spec(self.min_spec(), self.max_spec()).skip(self.position())
    }

    /// The walk from `min` to `max` before its first point is handed out.
    pub closed spec fn start_spec(min: IVec2, max: IVec2) -> RectPointIter {
        RectPointIter {
            curr: UVec2 { x: 0, y: 0 },
            size: UVec2 {
                x: RectPointIter::width_of(min, max) as u32,
                y: RectPointIter::height_of(min, max) as u32,
            },
            min,
            max,
        }
    }

    /// A walk from `min` to `max`, each read as signed, bit for bit, that
    /// starts at its first point.
    pub fn new<A: Size2d, B: Size2d>(min: A, max: B) -> (r: RectPointIter)
        ensures
            r == Self::start_spec(
                IVec2 { x: wrap_i32(min.width_spec()), y: wrap_i32(min.height_spec()) },
                IVec2 { x: wrap_i32(max.width_spec()), y: wrap_i32(max.height_spec()) },
            ),
            r.min_spec()
                == (IVec2 { x: wrap_i32(min.width_spec()), y: wrap_i32(min.height_spec()) }),
            r.max_spec()
                == (IVec2 { x: wrap_i32(max.width_spec()), y: wrap_i32(max.height_spec()) }),
            r.position() == 0,
    {
        let min: IVec2 = min.as_ivec2();
        let max: IVec2 = max.as_ivec2();
        let size: UVec2 = if min.x < max.x && min.y < max.y {
            UVec2 {
                x: (max.x as i64 - min.x as i64) as u32,
                y: (max.y as i64 - min.y as i64) as u32,
            }
        } else {
            UVec2 { x: 0, y: 0 }
        };
        assert(0 * size.x + 0 == 0);
        RectPointIter { min, max, size, curr: UVec2 { x: 0, y: 0 } }
    }

    /// The position always lies between 0 and the number of points.
    proof fn lemma_position_bounds(self)
        requires
            self.inv(),
        ensures
            0 <= self.position() <= self.total(),
            self.position() < self.total() <==> self.curr.y < self.size.y,
    {
        let w = self.size.x as int;
        let h = self.size.y as int;
        let y = self.curr.y as int;
        assert(0 <= y * w <= h * w && h * w == w * h) by (nonlinear_arith)
            requires
                0 <= y <= h,
                0 <= w,
        ;
        if y < h {
            assert(y * w + w <= h * w) by (nonlinear_arith)
                requires
                    0 <= y < h,
                    0 <= w,
            ;
        }
    }

    /// Hands out the next point, or `None` once every point has been handed
    /// out.
    pub fn next(&mut self) -> (r: Option<IVec2>)
        ensures
            final(self).min_spec() == old(self).min_spec(),
            final(self).max_spec() == old(self).max_spec(),
            0 <= old(self).position() <= old(self).total(),
            old(self).position() < old(self).total() ==> r == Some(
                Self::point_spec(old(self).min_spec(), old(self).max_spec(), old(self).position()),
            ) && final(self).position() == old(self).position() + 1,
            old(self).position() >= old(self).total() ==> r.is_none() && final(self).position()
                == old(self).position(),
    {
        proof {
            use_type_invariant(&*self);
            self.lemma_position_bounds();
        }
        if self.curr.y == self.size.y {
            return None;
        }
        let cx: u32 = self.curr.x;
        let cy: u32 = self.curr.y;
        let ghost w = self.size.x as int;
        proof {
            vstd::arithmetic::div_mod::lemma_fundamental_div_mod_converse(
                cy * w + cx,
                w,
                cy as int,
                cx as int,
            );
            assert((cy + 1) * w == cy * w + w) by (nonlinear_arith);
        }
        let p = IVec2 {
            x: (self.min.x as i64 + cx as i64) as i32,
            y: (self.min.y as i64 + cy as i64) as i32,
        };
        if cx + 1 == self.size.x {
            self.curr = UVec2 { x: 0, y: cy + 1 };
        } else {
            self.curr = UVec2 { x: cx + 1, y: cy };
        }
        Some(p)
    }

    /// The points still to come, collected in order.
    pub fn to_vec(self) -> (r: Vec<IVec2>)
        ensures
            r@ == self.remaining(),
    {
        proof {
            use_type_invariant(&self);
            self.lemma_position_bounds();
        }
        let ghost start = self.position();
        let ghost all = Self::points_spec(self.min, self.max);
        let mut it = self;
        let mut out: Vec<IVec2> = Vec::new();
        loop
            invariant
                it.min_spec() == self.min_spec(),
                it.max_spec() == self.max_spec(),
                all == Self::points_spec(self.min_spec(), self.max_spec()),
                all.len() == it.total(),
                start == self.position(),
                0 <= start <= it.position() <= it.total(),
                out@ == all.subrange(start, it.position()),
            decreases it.total() - it.position(),
        {
            let ghost before = it.position();
            match it.next() {
                None => {
                    assert(out@ =~= all.skip(start));
                    return out;
                },
                Some(p) => {
                    out.push(p);
                    proof {
                        assert(p == all[before]);
                        assert(out@ =~= all.subrange(start, it.position()));
                    }
                },
            }
        }
    }
}

/// Each point of the walk from `min` to `max` lies from `min`, included, to
/// `max`, excluded.
pub proof fn lemma_point_covered(min: IVec2, max: IVec2, k: int)
    requires
        0 <= k < RectPointIter::count_of(min, max),
    ensures
        (Rect { min, max }).covers(
            RectPointIter::point_spec(min, max, k).x as int,
            RectPointIter::point_spec(min, max, k).y as int,
        ),
        RectPointIter::point_spec(min, max, k).x == min.x + k % RectPointIter::width_of(min, max),
        RectPointIter::point_spec(min, max, k).y == min.y + k / RectPointIter::width_of(min, max),
{
    let w = RectPointIter::width_of(min, max);
    let h = RectPointIter::height_of(min, max);
    lemma_point_at(k, w, h);
}

/// Each point from `min`, included, to `max`, excluded, has a place in the
/// walk from `min` to `max`.
pub proof fn lemma_covered_point(min: IVec2, max: IVec2, p: IVec2) -> (k: int)
    requires
        (Rect { min, max }).covers(p.x as int, p.y as int),
    ensures
        0 <= k < RectPointIter::count_of(min, max),
        RectPointIter::point_spec(min, max, k) == p,
{
    let w = RectPointIter::width_of(min, max);
    let h = RectPointIter::height_of(min, max);
    let k = (p.y - min.y) * w + (p.x - min.x);
    lemma_row_major(p.x - min.x, p.y - min.y, w, h);
    k
}

/// The walk from `min` to `max` visits exactly the points from `min`,
/// included, to `max`, excluded, and each of them once.
pub proof fn lemma_points(min: IVec2, max: IVec2)
    ensures
        RectPointIter::points_spec(min, max).no_duplicates(),
        forall|p: IVec2|
            #[trigger] RectPointIter::points_spec(min, max).contains(p) <==> (Rect {
                min,
                max,
            }).covers(p.x as int, p.y as int),
{
    let all = RectPointIter::points_spec(min, max);
    let w = RectPointIter::width_of(min, max);
    let h = RectPointIter::height_of(min, max);
    assert forall|i: int, j: int| 0 <= i < all.len() && 0 <= j < all.len() && i != j implies all[i]
        != all[j] by {
        lemma_point_covered(min, max, i);
        lemma_point_covered(min, max, j);
        lemma_point_at(i, w, h);
        lemma_point_at(j, w, h);
    }
    assert forall|p: IVec2| all.contains(p) <==> (Rect { min, max }).covers(
        p.x as int,
        p.y as int,
    ) by {
        if all.contains(p) {
            let k = choose|k: int| 0 <= k < all.len() && all[k] == p;
            lemma_point_covered(min, max, k);
        }
        if (Rect { min, max }).covers(p.x as int, p.y as int) {
            let k = lemma_covered_point(min, max, p);
            assert(all[k] == p);
        }
    }
}

impl vstd::std_specs::convert::FromSpecImpl<Rect> for RectPointIter {
    open spec fn obeys_from_spec() -> bool {
        true
    }

    open spec fn from_spec(rect: Rect) -> RectPointIter {
        RectPointIter::start_spec(rect.min, rect.max)
    }
}

impl From<Rect> for RectPointIter {
    /// The walk over the points of `rect` from its first point.
    fn from(rect: Rect) -> (r: RectPointIter)
        ensures
            r.min_spec() == rect.min,
            r.max_spec() == rect.max,
            r.position() == 0,
    {
        proof {
            crate::geometry::shapes::rect::lemma_signed(rect.min);
            crate::geometry::shapes::rect::lemma_signed(rect.max);
        }
        RectPointIter::new(rect.min, rect.max)
    }
}

} // verus!
