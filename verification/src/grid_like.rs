//! What every grid storage offers: construction, shape queries, checked and
//! unchecked access by point, and counting of neighbours.

use crate::axis::Axis;
use crate::grid_point::{row_major_index, GridPoint};
use crate::size_2d::{in_bounds, point_at, size_fits, Size2d};
use crate::vec2::{IVec2, UVec2};
use core::ops::{Bound, RangeBounds};
use vstd::prelude::*;
use vstd::std_specs::cmp::PartialEqSpec;

verus! {

/// One end of a range of rows or columns.
#[derive(Debug, Clone, Copy, PartialEq, Eq, Structural)]
pub enum RangeEnd {
    Included(usize),
    Excluded(usize),
    Unbounded,
}

/// The start that a lower end stands for: its value, or 0 where it is
/// unbounded.
pub open spec fn range_start(start: RangeEnd) -> usize {
    match start {
        RangeEnd::Included(s) => s,
        RangeEnd::Excluded(s) => s,
        RangeEnd::Unbounded => 0,
    }
}

/// The end that an upper end stands for: its value where it is included, one
/// less (wrapping below zero) where it is excluded, and `axis_len` where it
/// is unbounded.
pub open spec fn range_end(end: RangeEnd, axis_len: usize) -> usize {
    match end {
        RangeEnd::Included(e) => e,
        RangeEnd::Excluded(e) => vstd::wrapping::usize_specs::wrapping_sub(e, 1),
        RangeEnd::Unbounded => axis_len,
    }
}

/// The pair `[start, end]` that two range ends stand for on an axis of
/// length `axis_len`.
pub open spec fn start_end(start: RangeEnd, end: RangeEnd, axis_len: usize) -> Seq<usize> {
    seq![range_start(start), range_end(end, axis_len)]
}

/// The pair `[start, end]` that two range ends stand for on an axis of
/// length `axis_len`.
pub fn ends_to_start_end(start: RangeEnd, end: RangeEnd, axis_len: usize) -> (r: [usize; 2])
    ensures
        r@ == start_end(start, end, axis_len),
{
    let s: usize = match start {
        RangeEnd::Included(s) => s,
        RangeEnd::Excluded(s) => s,
        RangeEnd::Unbounded => 0,
    };
    let e: usize = match end {
        RangeEnd::Included(e) => e,
        RangeEnd::Excluded(e) => e.wrapping_sub(1),
        RangeEnd::Unbounded => axis_len,
    };
    [s, e]
}

/// The lower end of `range`, as `RangeBounds::start_bound` of the standard
/// library reports it. Nothing is claimed of the result: the range may be of
/// any type that implements the trait.
#[verifier::external_body]
pub(crate) fn start_of<R: RangeBounds<usize>>(range: &R) -> (r: RangeEnd) {
    match range.start_bound() {
        Bound::Included(s) => RangeEnd::Included(*s),
        Bound::Excluded(s) => RangeEnd::Excluded(*s),
        Bound::Unbounded => RangeEnd::Unbounded,
    }
}

/// The upper end of `range`, as `RangeBounds::end_bound` of the standard
/// library reports it. Nothing is claimed of the result: the range may be of
/// any type that implements the trait.
#[verifier::external_body]
pub(crate) fn end_of<R: RangeBounds<usize>>(range: &R) -> (r: RangeEnd) {
    match range.end_bound() {
        Bound::Included(e) => RangeEnd::Included(*e),
        Bound::Excluded(e) => RangeEnd::Excluded(*e),
        Bound::Unbounded => RangeEnd::Unbounded,
    }
}

/// 1 where `(x, y)` lies inside the extent `(width, height)`, else 0.
pub open spec fn inside(x: int, y: int, width: int, height: int) -> int {
    if in_bounds(x, y, width, height) {
        1
    } else {
        0
    }
}

/// How many of the eight cells around `(x, y)` lie inside the extent
/// `(width, height)`.
pub open spec fn neighbours_inside(x: int, y: int, width: int, height: int) -> int {
    inside(x - 1, y - 1, width, height) + inside(x, y - 1, width, height) + inside(
        x + 1,
        y - 1,
        width,
        height,
    ) + inside(x - 1, y, width, height) + inside(x + 1, y, width, height) + inside(
        x - 1,
        y + 1,
        width,
        height,
    ) + inside(x, y + 1, width, height) + inside(x + 1, y + 1, width, height)
}

/// `(x, y)` is one of the four corner cells of the extent `(width, height)`.
pub open spec fn is_corner(x: int, y: int, width: int, height: int) -> bool {
    &&& width > 0
    &&& height > 0
    &&& (x == 0 || x == width - 1)
    &&& (y == 0 || y == height - 1)
}

/// A corner cell has at most three neighbours inside the extent, and no cell
/// has more than eight.
pub proof fn lemma_neighbours_inside_bounds(x: int, y: int, width: int, height: int)
    ensures
        0 <= neighbours_inside(x, y, width, height) <= 8,
        is_corner(x, y, width, height) ==> neighbours_inside(x, y, width, height) <= 3,
{
}

/// 1 where `(x, y)` lies inside the extent `(width, height)` and the cell
/// there equals `val`, else 0.
pub open spec fn hit<T: PartialEq>(
    cell: spec_fn(int, int) -> T,
    width: int,
    height: int,
    x: int,
    y: int,
    val: T,
) -> int {
    if in_bounds(x, y, width, height) && cell(x, y).eq_spec(&val) {
        1
    } else {
        0
    }
}

/// How many of the eight cells around `(x, y)` lie inside the extent
/// `(width, height)` and equal `val`.
pub open spec fn neighbour_hits<T: PartialEq>(
    cell: spec_fn(int, int) -> T,
    width: int,
    height: int,
    x: int,
    y: int,
    val: T,
) -> int {
    hit(cell, width, height, x - 1, y - 1, val) + hit(cell, width, height, x, y - 1, val) + hit(
        cell,
        width,
        height,
        x + 1,
        y - 1,
        val,
    ) + hit(cell, width, height, x - 1, y, val) + hit(cell, width, height, x + 1, y, val) + hit(
        cell,
        width,
        height,
        x - 1,
        y + 1,
        val,
    ) + hit(cell, width, height, x, y + 1, val) + hit(cell, width, height, x + 1, y + 1, val)
}

/// A rectangular container of cells addressed by points, of a shape that is
/// fixed when it is made.
///
/// There are two ways to a cell. `get` and `get_mut` test the point and
/// answer `None` for one outside the shape. `get_checked` and
/// `get_mut_checked` are for callers that have made that test already: they
/// take only points inside the shape. Both ways lead to the same cell.
///
/// Each storage has, besides what is listed here, a constructor
/// `new_grid_map` that maps any other grid cell by cell.
pub trait GridLike<T: Copy>: Sized {
    /// The shape is within the limit and the storage holds exactly one cell
    /// for each point of the shape.
    spec fn wf(&self) -> bool;

    /// The shape: `x` is the width, `y` the height.
    spec fn size_spec(&self) -> UVec2;

    /// The cells in the order in which the storage holds them.
    spec fn data_spec(&self) -> Seq<T>;

    /// The cell at `(x, y)`, for a point inside the shape.
    spec fn cell(&self, x: int, y: int) -> T;

    /// A well-formed grid has a shape within the limit and holds width times
    /// height cells.
    proof fn lemma_wf(&self)
        requires
            self.wf(),
        ensures
            size_fits(self.size_spec().x, self.size_spec().y),
            self.data_spec().len() == self.size_spec().x * self.size_spec().y,
    ;

    /// A grid of shape `size` in which every cell is `new_value`.
    fn new<S: Size2d>(size: S, new_value: T) -> (r: Self)
        requires
            size_fits(size.width_spec(), size.height_spec()),
            size.width_spec() * size.height_spec() <= usize::MAX,
        ensures
            r.wf(),
            r.size_spec() == (UVec2 { x: size.width_spec(), y: size.height_spec() }),
            r.data_spec() == Seq::new(
                (size.width_spec() * size.height_spec()) as nat,
                |i: int| new_value,
            ),
            forall|x: int, y: int|
                in_bounds(x, y, r.size_spec().x as int, r.size_spec().y as int)
                    ==> #[trigger] r.cell(x, y) == new_value,
    ;

    /// A grid of shape `size` in which the cell at each point is what `f`
    /// returned for that point.
    fn new_fn<S: Size2d, F: FnMut(IVec2) -> T>(size: S, f: F) -> (r: Self)
        requires
            size_fits(size.width_spec(), size.height_spec()),
            size.width_spec() * size.height_spec() <= usize::MAX,
            forall|x: int, y: int|
                in_bounds(x, y, size.width_spec() as int, size.height_spec() as int)
                    ==> call_requires(f, (IVec2 { x: x as i32, y: y as i32 },)),
        ensures
            r.wf(),
            r.size_spec() == (UVec2 { x: size.width_spec(), y: size.height_spec() }),
            forall|x: int, y: int|
                in_bounds(x, y, r.size_spec().x as int, r.size_spec().y as int) ==> call_ensures(
                    f,
                    (IVec2 { x: x as i32, y: y as i32 },),
                    #[trigger] r.cell(x, y),
                ),
    ;

    /// A grid of shape `size` in which every cell is `value`.
    fn new_clone<S: Size2d>(size: S, value: T) -> (r: Self)
        requires
            size_fits(size.width_spec(), size.height_spec()),
            size.width_spec() * size.height_spec() <= usize::MAX,
        ensures
            r.wf(),
            r.size_spec() == (UVec2 { x: size.width_spec(), y: size.height_spec() }),
            r.data_spec() == Seq::new(
                (size.width_spec() * size.height_spec()) as nat,
                |i: int| value,
            ),
            forall|x: int, y: int|
                in_bounds(x, y, r.size_spec().x as int, r.size_spec().y as int)
                    ==> #[trigger] r.cell(x, y) == value,
    ;

    /// A grid of shape `size` in which every cell is a value that
    /// `T::default` returned.
    fn new_default<S: Size2d>(size: S) -> (r: Self) where T: Default
        requires
            size_fits(size.width_spec(), size.height_spec()),
            size.width_spec() * size.height_spec() <= usize::MAX,
        ensures
            r.wf(),
            r.size_spec() == (UVec2 { x: size.width_spec(), y: size.height_spec() }),
            forall|x: int, y: int|
                in_bounds(x, y, r.size_spec().x as int, r.size_spec().y as int)
                    ==> call_ensures(T::default, (), #[trigger] r.cell(x, y)),
    ;

    /// A grid of shape `size` in which every cell is `value`.
    fn new_copy<S: Size2d>(size: S, value: T) -> (r: Self)
        requires
            size_fits(size.width_spec(), size.height_spec()),
            size.width_spec() * size.height_spec() <= usize::MAX,
        ensures
            r.wf(),
            r.size_spec() == (UVec2 { x: size.width_spec(), y: size.height_spec() }),
            r.data_spec() == Seq::new(
                (size.width_spec() * size.height_spec()) as nat,
                |i: int| value,
            ),
            forall|x: int, y: int|
                in_bounds(x, y, r.size_spec().x as int, r.size_spec().y as int)
                    ==> #[trigger] r.cell(x, y) == value,
    ;

    /// The cells in storage order.
    fn data(&self) -> (r: &[T])
        ensures
            r@ == self.data_spec(),
    ;

    /// Overwrites every cell with `value`; the shape stays.
    fn fill(&mut self, value: T)
        ensures
            final(self).wf(),
            final(self).size_spec() == old(self).size_spec(),
            final(self).data_spec() == Seq::new(old(self).data_spec().len(), |i: int| value),
            forall|x: int, y: int|
                in_bounds(
                    x,
                    y,
                    final(self).size_spec().x as int,
                    final(self).size_spec().y as int,
                ) ==> #[trigger] final(self).cell(x, y) == value,
    ;

    /// The width.
    fn width(&self) -> (r: u32)
        ensures
            r == self.size_spec().x,
    ;

    /// The height.
    fn height(&self) -> (r: u32)
        ensures
            r == self.size_spec().y,
    ;

    /// The shape.
    fn size(&self) -> (r: UVec2)
        ensures
            r == self.size_spec(),
    ;

    /// The number of cells: width times height.
    fn len(&self) -> (r: usize)
        ensures
            r == self.size_spec().x * self.size_spec().y,
            r == self.data_spec().len(),
    ;

    /// Whether the grid has no cell.
    fn is_empty(&self) -> (r: bool)
        ensures
            r == (self.size_spec().x * self.size_spec().y == 0),
    ;

    /// Whether `point` lies inside the shape.
    fn in_bounds<P: GridPoint>(&self, point: P) -> (r: bool)
        ensures
            r == in_bounds(
                point.x_spec() as int,
                point.y_spec() as int,
                self.size_spec().x as int,
                self.size_spec().y as int,
            ),
    {
        let x: i32 = point.x();
        let y: i32 = point.y();
        x >= 0 && y >= 0 && (x as u32) < self.width() && (y as u32) < self.height()
    }

    /// The row-major position of `point` in rows as wide as this grid,
    /// whether or not the point lies inside the shape.
    fn get_idx<P: GridPoint>(&self, point: P) -> (r: usize)
        ensures
            r == row_major_index(point.x_spec(), point.y_spec(), self.size_spec().x as usize),
            in_bounds(
                point.x_spec() as int,
                point.y_spec() as int,
                self.size_spec().x as int,
                self.size_spec().y as int,
            ) ==> r == point.y_spec()
                * self.size_spec().x + point.x_spec(),
    {
        let len: usize = self.len();
        proof {
            let (x, y) = (point.x_spec() as int, point.y_spec() as int);
            let (w, h) = (self.size_spec().x as int, self.size_spec().y as int);
            if in_bounds(x, y, w, h) {
                assert(y * w + x < w * h) by (nonlinear_arith)
                    requires
                        0 <= x < w,
                        0 <= y < h,
                ;
            }
        }
        point.as_index(self.width() as usize)
    }

    /// The row-major position of `coord`, or `None` where it lies outside
    /// the shape.
    fn try_idx<P: GridPoint>(&self, coord: P) -> (r: Option<usize>)
        ensures
            in_bounds(
                coord.x_spec() as int,
                coord.y_spec() as int,
                self.size_spec().x as int,
                self.size_spec().y as int,
            ) ==> r == Some(
                (coord.y_spec() * self.size_spec().x + coord.x_spec()) as usize,
            ),
            !in_bounds(
                coord.x_spec() as int,
                coord.y_spec() as int,
                self.size_spec().x as int,
                self.size_spec().y as int,
            ) ==> r.is_none(),
    {
        let x: i32 = coord.x();
        let y: i32 = coord.y();
        if x >= 0 && y >= 0 && (x as u32) < self.width() && (y as u32) < self.height() {
            Some(self.get_idx(coord))
        } else {
            None
        }
    }

    /// The point whose row-major position is `idx`, in a grid that is not of
    /// width 0. The two coordinates are cut to `i32`, bit for bit, where they
    /// are larger; for the position of a cell they never are.
    fn index_to_pt(&self, idx: usize) -> (r: IVec2)
        requires
            self.size_spec().x > 0,
        ensures
            r == (IVec2 {
                x: (idx % (self.size_spec().x as usize)) as i32,
                y: (idx / (self.size_spec().x as usize)) as i32,
            }),
            idx % (self.size_spec().x as usize) <= i32::MAX && idx / (self.size_spec().x as usize)
                <= i32::MAX ==> r == point_at(idx as int, self.size_spec().x as int),
    {
        let w: usize = self.width() as usize;
        let x: usize = idx % w;
        let y: usize = idx / w;
        IVec2 { x: #[verifier::truncate] (x as i32), y: #[verifier::truncate] (y as i32) }
    }

    /// The point whose row-major position is `idx`, or `None` where no cell
    /// has that position.
    fn try_index_to_pt(&self, idx: usize) -> (r: Option<IVec2>)
        ensures
            idx < self.size_spec().x * self.size_spec().y ==> r == Some(
                point_at(idx as int, self.size_spec().x as int),
            ),
            idx >= self.size_spec().x * self.size_spec().y ==> r.is_none(),
    {
        let w: usize = self.width() as usize;
        let h: usize = self.height() as usize;
        if w == 0 {
            assert(self.size_spec().x * self.size_spec().y == 0);
            return None;
        }
        let x: usize = idx % w;
        let y: usize = idx / w;
        proof {
            let (iw, ih, ii) = (w as int, h as int, idx as int);
            assert(ii / iw < ih <==> ii < iw * ih) by (nonlinear_arith)
                requires
                    0 < iw,
                    0 <= ih,
                    0 <= ii,
            ;
        }
        if y < h {
            Some(IVec2 { x: x as i32, y: y as i32 })
        } else {
            None
        }
    }

    /// The pair `[start, end]` that `range` stands for along `axis`: what
    /// `ends_to_start_end` makes of the two ends that the range reports.
    fn range_to_start_end<R: RangeBounds<usize>>(&self, range: R, axis: Axis) -> (r: [usize; 2])
        ensures
            exists|start: RangeEnd, end: RangeEnd|
                r@ == #[trigger] start_end(
                    start,
                    end,
                    axis.size_spec(self.size_spec()) as usize,
                ),
    {
        let start = start_of(&range);
        let end = end_of(&range);
        let len: usize = axis.size(self.size()) as usize;
        ends_to_start_end(start, end, len)
    }

    /// The cell at `point`, or `None` where the point lies outside the
    /// shape.
    fn get<P: GridPoint>(&self, point: P) -> (r: Option<&T>)
        ensures
            in_bounds(
                point.x_spec() as int,
                point.y_spec() as int,
                self.size_spec().x as int,
                self.size_spec().y as int,
            ) ==> r == Some(
                &self.cell(point.x_spec() as int, point.y_spec() as int),
            ),
            !in_bounds(
                point.x_spec() as int,
                point.y_spec() as int,
                self.size_spec().x as int,
                self.size_spec().y as int,
            ) ==> r.is_none(),
    ;

    /// The cell at `point`, open to change, or `None` where the point lies
    /// outside the shape. Only that cell can change.
    fn get_mut<P: GridPoint>(&mut self, point: P) -> (r: Option<&mut T>)
        ensures
            final(self).size_spec() == old(self).size_spec(),
            in_bounds(
                point.x_spec() as int,
                point.y_spec() as int,
                old(self).size_spec().x as int,
                old(self).size_spec().y as int,
            ) ==> r.is_some() && *r.unwrap() == old(self).cell(
                point.x_spec() as int,
                point.y_spec() as int,
            ) && final(self).cell(point.x_spec() as int, point.y_spec() as int)
                == *final(r.unwrap()),
            !in_bounds(
                point.x_spec() as int,
                point.y_spec() as int,
                old(self).size_spec().x as int,
                old(self).size_spec().y as int,
            ) ==> r.is_none(),
            forall|x: int, y: int|
                in_bounds(x, y, old(self).size_spec().x as int, old(self).size_spec().y as int)
                    && !(x == point.x_spec() && y == point.y_spec())
                        ==> #[trigger] final(self).cell(x, y) == old(self).cell(x, y),
    ;

    /// The cell at `point`, for a point that lies inside the shape.
    fn get_checked<P: GridPoint>(&self, point: P) -> (r: &T)
        requires
            in_bounds(
                point.x_spec() as int,
                point.y_spec() as int,
                self.size_spec().x as int,
                self.size_spec().y as int,
            ),
        ensures
            *r == self.cell(point.x_spec() as int, point.y_spec() as int),
    ;

    /// The cell at `point`, open to change, for a point that lies inside the
    /// shape. Only that cell can change.
    fn get_mut_checked<P: GridPoint>(&mut self, point: P) -> (r: &mut T)
        requires
            in_bounds(
                point.x_spec() as int,
                point.y_spec() as int,
                old(self).size_spec().x as int,
                old(self).size_spec().y as int,
            ),
        ensures
            final(self).size_spec() == old(self).size_spec(),
            *r == old(self).cell(point.x_spec() as int, point.y_spec() as int),
            final(self).cell(point.x_spec() as int, point.y_spec() as int) == *final(r),
            forall|x: int, y: int|
                in_bounds(x, y, old(self).size_spec().x as int, old(self).size_spec().y as int)
                    && !(x == point.x_spec() && y == point.y_spec())
                        ==> #[trigger] final(self).cell(x, y) == old(self).cell(x, y),
    ;

    /// How many of the eight cells around `point` lie inside the shape and
    /// equal `val`. Cells outside the shape are never looked at.
    fn count_neighbors<P: GridPoint>(&self, point: P, val: T) -> (r: usize) where T: PartialEq
        ensures
            T::obeys_eq_spec() ==> r == neighbour_hits(
                |x: int, y: int| self.cell(x, y),
                self.size_spec().x as int,
                self.size_spec().y as int,
                point.x_spec() as int,
                point.y_spec() as int,
                val,
            ),
            r <= neighbours_inside(
                point.x_spec() as int,
                point.y_spec() as int,
                self.size_spec().x as int,
                self.size_spec().y as int,
            ),
            r <= 8,
            is_corner(
                point.x_spec() as int,
                point.y_spec() as int,
                self.size_spec().x as int,
                self.size_spec().y as int,
            ) ==> r <= 3,
    ;
}

} // verus!
