//! Extents: the `Size2d` abstraction, its limit, and the row-major walk over
//! the points of an extent.

use crate::axis::Axis;
use crate::grid_point::GridPoint;
use crate::vec2::{lemma_wrap_round_trip, wrap_i32, IVec2, UVec2};
use vstd::prelude::*;

verus! {

/// The largest width or height that an extent may have: every coordinate
/// inside such an extent is a non-negative `i32`.
pub const MAX_SIZE_FIELD: u32 = 2147483647;

/// Returned when a width or a height is over `MAX_SIZE_FIELD`.
#[derive(Debug)]
pub struct DimensionTooLargeForSize;

/// Both lengths are within the limit.
pub open spec fn size_fits(width: u32, height: u32) -> bool {
    width <= MAX_SIZE_FIELD && height <= MAX_SIZE_FIELD
}

/// The point `(x, y)` lies inside the extent `(width, height)` anchored at
/// the origin.
pub open spec fn in_bounds(x: int, y: int, width: int, height: int) -> bool {
    0 <= x < width && 0 <= y < height
}

/// The largest extent.
pub fn max_size() -> (r: UVec2)
    ensures
        r == (UVec2 { x: MAX_SIZE_FIELD, y: MAX_SIZE_FIELD }),
{
    UVec2 { x: MAX_SIZE_FIELD, y: MAX_SIZE_FIELD }
}

/// Accepts a length exactly when it is within the limit.
pub fn check_size_limit(value: u32) -> (r: Result<(), DimensionTooLargeForSize>)
    ensures
        r.is_ok() <==> value <= MAX_SIZE_FIELD,
{
    if value > MAX_SIZE_FIELD {
        Err(DimensionTooLargeForSize)
    } else {
        Ok(())
    }
}

/// A type that stands for a two-dimensional extent.
pub trait Size2d {
    spec fn width_spec(&self) -> u32;

    spec fn height_spec(&self) -> u32;

    /// The extent `(width, height)`, or an error exactly when one of the two
    /// is over the limit.
    fn try_new(width: u32, height: u32) -> (r: Result<UVec2, DimensionTooLargeForSize>)
        ensures
            r.is_ok() <==> size_fits(width, height),
            r matches Ok(s) ==> s == (UVec2 { x: width, y: height }),
    {
        match check_size_limit(width) {
            Err(e) => Err(e),
            Ok(_) => match check_size_limit(height) {
                Err(e) => Err(e),
                Ok(_) => Ok(UVec2 { x: width, y: height }),
            },
        }
    }

    /// The extent `(width, height)`, for lengths already known to be within
    /// the limit.
    fn new(width: u32, height: u32) -> (r: UVec2)
        requires
            size_fits(width, height),
        ensures
            r == (UVec2 { x: width, y: height }),
    {
        UVec2 { x: width, y: height }
    }

    /// The width.
    fn width(&self) -> (r: u32)
        ensures
            r == self.width_spec(),
    ;

    /// The height.
    fn height(&self) -> (r: u32)
        ensures
            r == self.height_spec(),
    ;

    /// The number of cells: width times height.
    fn count(&self) -> (r: usize)
        requires
            self.width_spec() * self.height_spec() <= usize::MAX,
        ensures
            r == self.width_spec() * self.height_spec(),
    {
        let w: usize = self.width() as usize;
        let h: usize = self.height() as usize;
        assert(w * h == self.width_spec() * self.height_spec());
        w * h
    }

    /// Whether `point` lies inside this extent.
    fn point_in_bounds<P: GridPoint>(&self, point: P) -> (r: bool)
        ensures
            r == in_bounds(
                point.x_spec() as int,
                point.y_spec() as int,
                self.width_spec() as int,
                self.height_spec() as int,
            ),
    {
        let x: i32 = point.x();
        let y: i32 = point.y();
        x >= 0 && y >= 0 && (x as u32) < self.width() && (y as u32) < self.height()
    }

    /// A walk over every point of this extent, row by row.
    fn iter(self) -> (r: PointIterRowMajor) where Self: Sized
        requires
            size_fits(self.width_spec(), self.height_spec()),
        ensures
            r.size_spec() == (UVec2 { x: self.width_spec(), y: self.height_spec() }),
            r.position() == 0,
    {
        PointIterRowMajor::over(self.width(), self.height())
    }

    /// This extent with its length along `axis` replaced by what `f` makes
    /// of it.
    fn with_axis<F: FnMut(u32) -> u32>(self, axis: Axis, f: F) -> (r: UVec2) where Self: Sized
        requires
            match axis {
                Axis::X => call_requires(f, (self.width_spec(),)),
                Axis::Y => call_requires(f, (self.height_spec(),)),
            },
        ensures
            match axis {
                Axis::X => call_ensures(f, (self.width_spec(),), r.x) && r.y == self.height_spec(),
                Axis::Y => call_ensures(f, (self.height_spec(),), r.y) && r.x == self.width_spec(),
            },
    {
        let mut f = f;
        match axis {
            Axis::X => {
                let x: u32 = f(self.width());
                UVec2 { x, y: self.height() }
            },
            Axis::Y => {
                let y: u32 = f(self.height());
                UVec2 { x: self.width(), y }
            },
        }
    }

    /// See `Axis::try_new_size`.
    fn try_new_axis(this_axis: u32, other_axis: u32, axis: Axis) -> (r: Result<
        UVec2,
        DimensionTooLargeForSize,
    >)
        ensures
            r.is_ok() <==> size_fits(this_axis, other_axis),
            r matches Ok(s) ==> (s.x, s.y) == axis.arrange(this_axis, other_axis),
    {
        axis.try_new_size(this_axis, other_axis)
    }

    /// See `Axis::new_size`.
    fn new_axis(this_axis: u32, other_axis: u32, axis: Axis) -> (r: UVec2)
        requires
            size_fits(this_axis, other_axis),
        ensures
            (r.x, r.y) == axis.arrange(this_axis, other_axis),
    {
        axis.new_size(this_axis, other_axis)
    }

    /// Width and height read as signed, bit for bit.
    fn as_ivec2(&self) -> (r: IVec2)
        ensures
            r == (IVec2 { x: wrap_i32(self.width_spec()), y: wrap_i32(self.height_spec()) }),
    {
        IVec2 {
            x: #[verifier::truncate] (self.width() as i32),
            y: #[verifier::truncate] (self.height() as i32),
        }
    }

    /// Width and height as the canonical extent.
    fn as_uvec2(&self) -> (r: UVec2)
        ensures
            r == (UVec2 { x: self.width_spec(), y: self.height_spec() }),
    {
        proof {
            lemma_wrap_round_trip(self.width_spec(), 0);
            lemma_wrap_round_trip(self.height_spec(), 0);
        }
        self.as_ivec2().as_uvec2()
    }

    /// Width and height read as signed, as an array.
    fn as_array(&self) -> (r: [i32; 2])
        ensures
            r@ == seq![wrap_i32(self.width_spec()), wrap_i32(self.height_spec())],
    {
        self.as_ivec2().to_array()
    }

    /// Width and height read as signed, as a tuple.
    fn as_tuple(&self) -> (r: (i32, i32))
        ensures
            r == (wrap_i32(self.width_spec()), wrap_i32(self.height_spec())),
    {
        (
            #[verifier::truncate] (self.width() as i32),
            #[verifier::truncate] (self.height() as i32),
        )
    }

    /// Width and height as an array of `usize`.
    fn as_uarray(&self) -> (r: [usize; 2])
        ensures
            r@ == seq![self.width_spec() as usize, self.height_spec() as usize],
    {
        [self.width() as usize, self.height() as usize]
    }
}

/// The point with row-major position `k` in an extent of width `width`.
pub open spec fn point_at(k: int, width: int) -> IVec2 {
    IVec2 { x: (k % width) as i32, y: (k / width) as i32 }
}

/// Every point of the extent `(width, height)`: the row `y = 0` first, and
/// within a row `x` ascending.
pub open spec fn row_major_points(width: int, height: int) -> Seq<IVec2> {
    Seq::new((width * height) as nat, |k: int| point_at(k, width))
}

/// The row-major position of a point inside an extent is below the number of
/// cells, and `point_at` leads back from the position to the point.
pub proof fn lemma_row_major(x: int, y: int, width: int, height: int)
    requires
        in_bounds(x, y, width, height),
    ensures
        0 <= y * width,
        0 <= y * width + x < width * height,
        (y * width + x) % width == x,
        (y * width + x) / width == y,
{
    assert(0 <= y * width && y * width + width <= height * width && height * width == width
        * height) by (nonlinear_arith)
        requires
            0 <= x < width,
            0 <= y < height,
    ;
    vstd::arithmetic::div_mod::lemma_fundamental_div_mod_converse(y * width + x, width, y, x);
}

/// A position below the number of cells is the row-major position of
/// exactly one point inside the extent.
pub proof fn lemma_point_at(k: int, width: int, height: int)
    requires
        0 <= k < width * height,
        0 <= height,
        0 <= width,
    ensures
        in_bounds(k % width, k / width, width, height),
        (k / width) * width + k % width == k,
{
    assert(width > 0) by (nonlinear_arith)
        requires
            0 <= k < width * height,
            0 <= height,
            0 <= width,
    ;
    vstd::arithmetic::div_mod::lemma_fundamental_div_mod(k, width);
    vstd::arithmetic::div_mod::lemma_mod_bound(k, width);
    vstd::arithmetic::div_mod::lemma_div_pos_is_pos(k, width);
    vstd::arithmetic::div_mod::lemma_multiply_divide_lt(k, width, height);
    assert(width * (k / width) == (k / width) * width) by (nonlinear_arith);
}

/// A single-pass walk over the points of an extent in row-major order.
pub struct PointIterRowMajor {
    coord: IVec2,
    size: UVec2,
}

impl PointIterRowMajor {
    #[verifier::type_invariant]
    pub closed spec fn wf(self) -> bool {
        &&& size_fits(self.size.x, self.size.y)
        &&& 0 <= self.coord.y <= self.size.y
        &&& 0 <= self.coord.x
        &&& self.coord.y < self.size.y ==> self.coord.x < self.size.x
        &&& self.coord.y == self.size.y ==> self.coord.x == 0
    }

    /// The extent that is walked.
    pub closed spec fn size_spec(self) -> UVec2 {
        self.size
    }

    /// How many points have been handed out.
    pub closed spec fn position(self) -> int {
        self.coord.y * self.size.x + self.coord.x
    }

    /// The number of points of the extent.
    pub open spec fn total(self) -> int {
        self.size_spec().x * self.size_spec().y
    }

    /// The points still to come, in order.
    pub open spec fn remaining(self) -> Seq<IVec2> {
        row_major_points(self.size_spec().x as int, self.size_spec().y as int).skip(
            self.position(),
        )
    }

    /// A walk over `size` that starts at its first point.
    pub fn new<S: Size2d>(size: S) -> (r: PointIterRowMajor)
        requires
            size_fits(size.width_spec(), size.height_spec()),
        ensures
            r.wf(),
            r.size_spec() == (UVec2 { x: size.width_spec(), y: size.height_spec() }),
            r.position() == 0,
    {
        PointIterRowMajor::over(size.width(), size.height())
    }

    /// A walk over the extent `(width, height)` that starts at its first
    /// point.
    pub fn over(width: u32, height: u32) -> (r: PointIterRowMajor)
        requires
            size_fits(width, height),
        ensures
            r.wf(),
            r.size_spec() == (UVec2 { x: width, y: height }),
            r.position() == 0,
    {
        let size = UVec2 { x: width, y: height };
        if size.x == 0 {
            assert(size.y * 0 == 0);
            PointIterRowMajor { size, coord: IVec2 { x: 0, y: size.y as i32 } }
        } else {
            PointIterRowMajor { size, coord: IVec2 { x: 0, y: 0 } }
        }
    }

    /// The position always lies between 0 and the number of points.
    pub proof fn lemma_position_bounds(self)
        requires
            self.wf(),
        ensures
            0 <= self.position() <= self.total(),
    {
        let w = self.size.x as int;
        let h = self.size.y as int;
        let y = self.coord.y as int;
        assert(0 <= y * w <= h * w) by (nonlinear_arith)
            requires
                0 <= y <= h,
                0 <= w,
        ;
        if y < h {
            assert(y * w + w <= h * w) by (nonlinear_arith)
                requires
                    0 <= y < h,
                    0 <= w,
            ;
        }
        assert(h * w == w * h) by (nonlinear_arith);
    }

    /// Hands out the next point, or `None` once every point has been handed
    /// out.
    pub fn next(&mut self) -> (r: Option<IVec2>)
        ensures
            final(self).size_spec() == old(self).size_spec(),
            old(self).position() < old(self).total() ==> r == Some(
                point_at(old(self).position(), old(self).size_spec().x as int),
            ) && final(self).position() == old(self).position() + 1,
            old(self).position() >= old(self).total() ==> r.is_none() && final(self).position()
                == old(self).position(),
    {
        proof {
            use_type_invariant(&*self);
            self.lemma_position_bounds();
        }
        let ghost w = self.size.x as int;
        let ghost h = self.size.y as int;
        let ghost y0 = self.coord.y as int;
        let ghost x0 = self.coord.x as int;
        if self.coord.y as u32 == self.size.y {
            assert(y0 * w == h * w);
            assert(h * w == w * h) by (nonlinear_arith);
            return None;
        }
        let coord = self.coord;
        proof {
            assert(y0 * w + w <= h * w) by (nonlinear_arith)
                requires
                    0 <= y0 < h,
                    0 <= w,
            ;
            assert(h * w == w * h) by (nonlinear_arith);
            vstd::arithmetic::div_mod::lemma_fundamental_div_mod_converse(y0 * w + x0, w, y0, x0);
            assert((y0 + 1) * w == y0 * w + w) by (nonlinear_arith);
        }
        if self.coord.x as u32 + 1 == self.size.x {
            self.coord = IVec2 { x: 0, y: coord.y + 1 };
        } else {
            self.coord = IVec2 { x: coord.x + 1, y: coord.y };
        }
        Some(coord)
    }

    /// The points still to come, collected in order.
    pub fn to_vec(self) -> (r: Vec<IVec2>)
        ensures
            r@ == self.remaining(),
    {
        proof {
            use_type_invariant(&self);
            self.lemma_position_bounds();
        }
        let ghost start = self.position();
        let ghost all = row_major_points(self.size.x as int, self.size.y as int);
        let mut it = self;
        let mut out: Vec<IVec2> = Vec::new();
        loop
            invariant
                it.wf(),
                it.size_spec() == self.size_spec(),
                all == row_major_points(self.size_spec().x as int, self.size_spec().y as int),
                all.len() == it.total(),
                start == self.position(),
                0 <= start <= it.position() <= it.total(),
                out@ == all.subrange(start, it.position()),
            decreases it.total() - it.position(),
        {
            let ghost before = it.position();
            match it.next() {
                None => {
                    assert(out@ =~= all.skip(start));
                    return out;
                },
                Some(p) => {
                    out.push(p);
                    proof {
                        use_type_invariant(&it);
                        assert(p == all[before]);
                        assert(out@ =~= all.subrange(start, it.position()));
                    }
                },
            }
        }
    }
}

impl Size2d for UVec2 {
    open spec fn width_spec(&self) -> u32 {
        self.x
    }

    open spec fn height_spec(&self) -> u32 {
        self.y
    }

    fn width(&self) -> (r: u32) {
        self.x
    }

    fn height(&self) -> (r: u32) {
        self.y
    }
}

impl Size2d for IVec2 {
    open spec fn width_spec(&self) -> u32 {
        self.x as u32
    }

    open spec fn height_spec(&self) -> u32 {
        self.y as u32
    }

    fn width(&self) -> (r: u32) {
        #[verifier::truncate] (self.x as u32)
    }

    fn height(&self) -> (r: u32) {
        #[verifier::truncate] (self.y as u32)
    }
}

impl Size2d for [u32; 2] {
    open spec fn width_spec(&self) -> u32 {
        self[0]
    }

    open spec fn height_spec(&self) -> u32 {
        self[1]
    }

    fn width(&self) -> (r: u32) {
        self[0]
    }

    fn height(&self) -> (r: u32) {
        self[1]
    }
}

impl Size2d for [i32; 2] {
    open spec fn width_spec(&self) -> u32 {
        self[0] as u32
    }

    open spec fn height_spec(&self) -> u32 {
        self[1] as u32
    }

    fn width(&self) -> (r: u32) {
        #[verifier::truncate] (self[0] as u32)
    }

    fn height(&self) -> (r: u32) {
        #[verifier::truncate] (self[1] as u32)
    }
}

impl Size2d for [usize; 2] {
    open spec fn width_spec(&self) -> u32 {
        self[0] as u32
    }

    open spec fn height_spec(&self) -> u32 {
        self[1] as u32
    }

    fn width(&self) -> (r: u32) {
        #[verifier::truncate] (self[0] as u32)
    }

    fn height(&self) -> (r: u32) {
        #[verifier::truncate] (self[1] as u32)
    }
}

impl Size2d for (u32, u32) {
    open spec fn width_spec(&self) -> u32 {
        self.0
    }

    open spec fn height_spec(&self) -> u32 {
        self.1
    }

    fn width(&self) -> (r: u32) {
        self.0
    }

    fn height(&self) -> (r: u32) {
        self.1
    }
}

impl Size2d for (i32, i32) {
    open spec fn width_spec(&self) -> u32 {
        self.0 as u32
    }

    open spec fn height_spec(&self) -> u32 {
        self.1 as u32
    }

    fn width(&self) -> (r: u32) {
        #[verifier::truncate] (self.0 as u32)
    }

    fn height(&self) -> (r: u32) {
        #[verifier::truncate] (self.1 as u32)
    }
}

impl Size2d for (usize, usize) {
    open spec fn width_spec(&self) -> u32 {
        self.0 as u32
    }

    open spec fn height_spec(&self) -> u32 {
        self.1 as u32
    }

    fn width(&self) -> (r: u32) {
        #[verifier::truncate] (self.0 as u32)
    }

    fn height(&self) -> (r: u32) {
        #[verifier::truncate] (self.1 as u32)
    }
}

} // verus!
