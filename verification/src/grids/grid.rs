//! The flat storage: one contiguous row-major sequence of cells.

use crate::grid_like::{
    end_of, ends_to_start_end, lemma_neighbours_inside_bounds, range_end, range_start, start_of,
    GridLike, RangeEnd,
};
use core::ops::{Index, IndexMut, RangeBounds};
use crate::grid_point::GridPoint;
use crate::size_2d::{
    in_bounds, lemma_point_at, lemma_row_major, point_at, size_fits, PointIterRowMajor, Size2d,
};
use crate::vec2::{IVec2, UVec2};
use vstd::prelude::*;
use vstd::std_specs::cmp::PartialEqSpec;

verus! {

/// A grid whose cells lie in one sequence, row after row: the cell at
/// `(x, y)` is at position `y * width + x`.
#[derive(Debug, Hash, PartialEq, Eq)]
pub struct Grid<T> {
    size: UVec2,
    cells: Vec<T>,
}

/// `n` copies of `value`.
pub(crate) fn repeated<T: Copy>(n: usize, value: T) -> (r: Vec<T>)
    ensures
        r@ == Seq::new(n as nat, |i: int| value),
{
    let mut cells: Vec<T> = Vec::with_capacity(n);
    while cells.len() < n
        invariant
            cells@.len() <= n,
            forall|i: int| 0 <= i < cells@.len() ==> cells@[i] == value,
        decreases n - cells@.len(),
    {
        cells.push(value);
    }
    assert(cells@ =~= Seq::new(n as nat, |i: int| value));
    cells
}

impl<T> Grid<T> {
    #[verifier::type_invariant]
    closed spec fn inv(self) -> bool {
        &&& size_fits(self.size.x, self.size.y)
        &&& self.cells@.len() == self.size.x * self.size.y
    }
}

impl<T: Copy> Grid<T> {
    /// What the fields stand for in the contracts.
    proof fn lemma_model(self)
        ensures
            self.data_spec() == self.cells@,
            self.size_spec() == self.size,
            self.inv() ==> self.wf(),
            self.cells@.len() <= usize::MAX,
    {
        assert(self.cells.len() == self.cells@.len());
    }

    /// The storage position of a cell inside the shape.
    proof fn lemma_slot(self, x: int, y: int)
        requires
            self.inv(),
            in_bounds(x, y, self.size.x as int, self.size.y as int),
        ensures
            0 <= y * self.size.x,
            0 <= y * self.size.x + x < self.cells@.len() <= usize::MAX,
            self.cells@.len() == self.size.x * self.size.y,
            self.cell(x, y) == self.cells@[y * self.size.x + x],
            point_at(y * self.size.x + x, self.size.x as int)
                == (IVec2 { x: x as i32, y: y as i32 }),
    {
        lemma_row_major(x, y, self.size.x as int, self.size.y as int);
        assert(self.cells.len() == self.cells@.len());
    }

    /// Two different cells inside the shape have different storage
    /// positions.
    proof fn lemma_slots_differ(self, x1: int, y1: int, x2: int, y2: int)
        requires
            in_bounds(x1, y1, self.size.x as int, self.size.y as int),
            in_bounds(x2, y2, self.size.x as int, self.size.y as int),
            !(x1 == x2 && y1 == y2),
        ensures
            y1 * self.size.x + x1 != y2 * self.size.x + x2,
    {
        lemma_row_major(x1, y1, self.size.x as int, self.size.y as int);
        lemma_row_major(x2, y2, self.size.x as int, self.size.y as int);
    }
}

impl<T: Copy> GridLike<T> for Grid<T> {
    open spec fn wf(&self) -> bool {
        &&& size_fits(self.size_spec().x, self.size_spec().y)
        &&& self.data_spec().len() == self.size_spec().x * self.size_spec().y
    }

    closed spec fn size_spec(&self) -> UVec2 {
        self.size
    }

    closed spec fn data_spec(&self) -> Seq<T> {
        self.cells@
    }

    open spec fn cell(&self, x: int, y: int) -> T {
        self.data_spec()[y * self.size_spec().x + x]
    }

    proof fn lemma_wf(&self) {
    }

    fn new<S: Size2d>(size: S, new_value: T) -> (r: Self) {
        let n: usize = size.count();
        let r = Grid { size: size.as_uvec2(), cells: repeated(n, new_value) };
        proof {
            assert forall|x: int, y: int|
                in_bounds(x, y, r.size_spec().x as int, r.size_spec().y as int) implies #[trigger] r.cell(
                x,
                y,
            ) == new_value by {
                r.lemma_slot(x, y);
            }
        }
        r
    }

    fn new_fn<S: Size2d, F: FnMut(IVec2) -> T>(size: S, f: F) -> (r: Self) {
        Self::generate(size.as_uvec2(), f)
    }

    fn new_clone<S: Size2d>(size: S, value: T) -> (r: Self) {
        Self::new(size, value)
    }

    fn new_default<S: Size2d>(size: S) -> (r: Self) where T: Default {
        let n: usize = size.count();
        let size: UVec2 = size.as_uvec2();
        let mut cells: Vec<T> = Vec::with_capacity(n);
        while cells.len() < n
            invariant
                cells@.len() <= n,
                forall|i: int|
                    0 <= i < cells@.len() ==> call_ensures(T::default, (), #[trigger] cells@[i]),
            decreases n - cells@.len(),
        {
            let v: T = T::default();
            cells.push(v);
        }
        let r = Grid { size, cells };
        proof {
            assert forall|x: int, y: int|
                in_bounds(x, y, r.size_spec().x as int, r.size_spec().y as int) implies call_ensures(
                T::default,
                (),
                #[trigger] r.cell(x, y),
            ) by {
                r.lemma_slot(x, y);
            }
        }
        r
    }

    fn new_copy<S: Size2d>(size: S, value: T) -> (r: Self) {
        Self::new(size, value)
    }

    fn data(&self) -> (r: &[T]) {
        self.cells.as_slice()
    }

    fn fill(&mut self, value: T) {
        proof {
            use_type_invariant(&*self);
            self.lemma_model();
        }
        let n: usize = self.cells.len();
        self.cells = repeated(n, value);
        proof {
            assert forall|x: int, y: int|
                in_bounds(
                    x,
                    y,
                    self.size_spec().x as int,
                    self.size_spec().y as int,
                ) implies #[trigger] self.cell(x, y) == value by {
                self.lemma_slot(x, y);
            }
        }
    }

    fn width(&self) -> (r: u32) {
        self.size.x
    }

    fn height(&self) -> (r: u32) {
        self.size.y
    }

    fn size(&self) -> (r: UVec2) {
        self.size
    }

    fn len(&self) -> (r: usize) {
        proof {
            use_type_invariant(self);
            self.lemma_model();
        }
        self.cells.len()
    }

    fn is_empty(&self) -> (r: bool) {
        proof {
            use_type_invariant(self);
            self.lemma_model();
        }
        self.cells.len() == 0
    }

    fn get<P: GridPoint>(&self, point: P) -> (r: Option<&T>) {
        proof {
            use_type_invariant(self);
            self.lemma_model();
        }
        match self.try_idx(point) {
            Some(idx) => {
                proof {
                    self.lemma_slot(point.x_spec() as int, point.y_spec() as int);
                }
                Some(&self.cells[idx])
            },
            None => None,
        }
    }

    fn get_mut<P: GridPoint>(&mut self, point: P) -> (r: Option<&mut T>) {
        proof {
            use_type_invariant(&*self);
            self.lemma_model();
        }
        match self.try_idx(point) {
            Some(idx) => {
                proof {
                    let (w, h) = (self.size.x as int, self.size.y as int);
                    self.lemma_slot(point.x_spec() as int, point.y_spec() as int);
                    assert forall|x: int, y: int|
                        in_bounds(x, y, w, h) && !(x == point.x_spec() && y
                            == point.y_spec()) implies #[trigger] self.cell(x, y)
                        == self.cells@[y * self.size.x + x] && 0 <= y * self.size.x + x
                        < self.cells@.len() && y * self.size.x + x != idx by {
                        self.lemma_slot(x, y);
                        self.lemma_slots_differ(
                            x,
                            y,
                            point.x_spec() as int,
                            point.y_spec() as int,
                        );
                    }
                }
                Some(&mut self.cells[idx])
            },
            None => None,
        }
    }

    fn get_checked<P: GridPoint>(&self, point: P) -> (r: &T) {
        proof {
            use_type_invariant(self);
            self.lemma_model();
            self.lemma_slot(point.x_spec() as int, point.y_spec() as int);
        }
        let idx: usize = self.get_idx(point);
        &self.cells[idx]
    }

    fn get_mut_checked<P: GridPoint>(&mut self, point: P) -> (r: &mut T) {
        proof {
            use_type_invariant(&*self);
            self.lemma_model();
            let (w, h) = (self.size.x as int, self.size.y as int);
            self.lemma_slot(point.x_spec() as int, point.y_spec() as int);
            assert forall|x: int, y: int|
                in_bounds(x, y, w, h) && !(x == point.x_spec() && y
                    == point.y_spec()) implies #[trigger] self.cell(x, y) == self.cells@[y
                * self.size.x + x] && 0 <= y * self.size.x + x < self.cells@.len() && y
                * self.size.x + x != point.y_spec() * self.size.x + point.x_spec() by {
                self.lemma_slot(x, y);
                self.lemma_slots_differ(x, y, point.x_spec() as int, point.y_spec() as int);
            }
        }
        let idx: usize = self.get_idx(point);
        &mut self.cells[idx]
    }

    fn count_neighbors<P: GridPoint>(&self, point: P, val: T) -> (r: usize) where T: PartialEq {
        let x: i64 = point.x() as i64;
        let y: i64 = point.y() as i64;
        proof {
            lemma_neighbours_inside_bounds(
                x as int,
                y as int,
                self.size_spec().x as int,
                self.size_spec().y as int,
            );
        }
        let mut neighbors: usize = 0;
        neighbors += self.hit_at(x - 1, y - 1, val);
        neighbors += self.hit_at(x, y - 1, val);
        neighbors += self.hit_at(x + 1, y - 1, val);
        neighbors += self.hit_at(x - 1, y, val);
        neighbors += self.hit_at(x + 1, y, val);
        neighbors += self.hit_at(x - 1, y + 1, val);
        neighbors += self.hit_at(x, y + 1, val);
        neighbors += self.hit_at(x + 1, y + 1, val);
        neighbors
    }
}

impl<T: Copy> Grid<T> {
    /// The grid of shape `shape` whose cell at each point is what `f`
    /// returned for it; `f` is called once per point, row by row.
    fn generate<F: FnMut(IVec2) -> T>(shape: UVec2, mut f: F) -> (r: Self)
        requires
            size_fits(shape.x, shape.y),
            shape.x * shape.y <= usize::MAX,
            forall|x: int, y: int|
                in_bounds(x, y, shape.x as int, shape.y as int) ==> call_requires(
                    f,
                    (IVec2 { x: x as i32, y: y as i32 },),
                ),
        ensures
            r.wf(),
            r.size_spec() == shape,
            forall|x: int, y: int|
                in_bounds(x, y, shape.x as int, shape.y as int) ==> call_ensures(
                    f,
                    (IVec2 { x: x as i32, y: y as i32 },),
                    #[trigger] r.cell(x, y),
                ),
    {
        let n: usize = shape.count();
        let mut cells: Vec<T> = Vec::with_capacity(n);
        let mut it = PointIterRowMajor::over(shape.x, shape.y);
        let ghost w = shape.x as int;
        let ghost h = shape.y as int;
        let ghost f0 = f;
        while cells.len() < n
            invariant
                f == f0,
                it.size_spec() == shape,
                w == shape.x,
                h == shape.y,
                size_fits(shape.x, shape.y),
                n == w * h,
                it.position() == cells@.len(),
                cells@.len() <= n,
                forall|x: int, y: int|
                    in_bounds(x, y, w, h)
                        ==> call_requires(f, (IVec2 { x: x as i32, y: y as i32 },)),
                forall|k: int|
                    0 <= k < cells@.len() ==> call_ensures(
                        f,
                        (point_at(k, w),),
                        #[trigger] cells@[k],
                    ),
            decreases n - cells@.len(),
        {
            let ghost k0 = it.position();
            proof {
                lemma_point_at(k0, w, h);
            }
            if let Some(p) = it.next() {
                let v: T = f(p);
                cells.push(v);
            }
        }
        let r = Grid { size: shape, cells };
        proof {
            r.lemma_model();
            assert forall|x: int, y: int|
                in_bounds(x, y, shape.x as int, shape.y as int) implies call_ensures(
                f,
                (IVec2 { x: x as i32, y: y as i32 },),
                #[trigger] r.cell(x, y),
            ) by {
                r.lemma_slot(x, y);
            }
        }
        r
    }

    /// The grid of the shape of `grid` whose cell at each point is what `f`
    /// returned for the cell of `grid` at that point; `f` is called once per
    /// point, row by row.
    pub fn new_grid_map<G: GridLike<U>, U: Copy, F: FnMut(&U) -> T>(grid: G, mut f: F) -> (r: Self)
        requires
            grid.wf(),
            forall|x: int, y: int|
                in_bounds(x, y, grid.size_spec().x as int, grid.size_spec().y as int)
                    ==> call_requires(f, (&#[trigger] grid.cell(x, y),)),
        ensures
            r.wf(),
            r.size_spec() == grid.size_spec(),
            forall|x: int, y: int|
                in_bounds(x, y, grid.size_spec().x as int, grid.size_spec().y as int)
                    ==> call_ensures(f, (&grid.cell(x, y),), #[trigger] r.cell(x, y)),
    {
        proof {
            grid.lemma_wf();
        }
        let shape: UVec2 = grid.size();
        let n: usize = grid.len();
        let mut cells: Vec<T> = Vec::with_capacity(n);
        let mut it = PointIterRowMajor::over(shape.x, shape.y);
        let ghost w = shape.x as int;
        let ghost h = shape.y as int;
        let ghost f0 = f;
        while cells.len() < n
            invariant
                f == f0,
                grid.wf(),
                shape == grid.size_spec(),
                it.size_spec() == shape,
                w == shape.x,
                h == shape.y,
                size_fits(shape.x, shape.y),
                n == w * h,
                it.position() == cells@.len(),
                cells@.len() <= n,
                forall|x: int, y: int|
                    in_bounds(x, y, w, h) ==> call_requires(f, (&#[trigger] grid.cell(x, y),)),
                forall|k: int|
                    0 <= k < cells@.len() ==> call_ensures(
                        f,
                        (&grid.cell(k % w, k / w),),
                        #[trigger] cells@[k],
                    ),
            decreases n - cells@.len(),
        {
            let ghost k0 = it.position();
            proof {
                lemma_point_at(k0, w, h);
            }
            if let Some(p) = it.next() {
                let v: T = f(grid.get_checked(p));
                cells.push(v);
            }
        }
        let r = Grid { size: shape, cells };
        proof {
            r.lemma_model();
            assert forall|x: int, y: int|
                in_bounds(
                    x,
                    y,
                    grid.size_spec().x as int,
                    grid.size_spec().y as int,
                ) implies call_ensures(f, (&grid.cell(x, y),), #[trigger] r.cell(x, y)) by {
                r.lemma_slot(x, y);
                lemma_row_major(x, y, w, h);
            }
        }
        r
    }

    /// 1 where `(x, y)` lies inside the shape and its cell equals `val`,
    /// else 0.
    fn hit_at(&self, x: i64, y: i64, val: T) -> (r: usize) where T: PartialEq
        ensures
            r <= crate::grid_like::inside(
                x as int,
                y as int,
                self.size_spec().x as int,
                self.size_spec().y as int,
            ),
            T::obeys_eq_spec() ==> r == crate::grid_like::hit(
                |x: int, y: int| self.cell(x, y),
                self.size_spec().x as int,
                self.size_spec().y as int,
                x as int,
                y as int,
                val,
            ),
    {
        proof {
            use_type_invariant(self);
            self.lemma_model();
        }
        if 0 <= x && x < self.size.x as i64 && 0 <= y && y < self.size.y as i64 {
            proof {
                self.lemma_slot(x as int, y as int);
            }
            let idx: usize = y as usize * self.size.x as usize + x as usize;
            if self.cells[idx] == val {
                1
            } else {
                0
            }
        } else {
            0
        }
    }
}

impl<T: Copy> Grid<T> {
    /// The row `y` of a grid: its cells from left to right.
    pub open spec fn row_spec(&self, y: int) -> Seq<T> {
        self.data_spec().subrange(y * self.size_spec().x, (y + 1) * self.size_spec().x)
    }

    /// The column `x` of a grid: its cells from top to bottom.
    pub open spec fn column_spec(&self, x: int) -> Seq<T> {
        Seq::new(self.size_spec().y as nat, |y: int| self.cell(x, y))
    }

    /// The grid of the same shape whose cell at each point is what `f`
    /// returned for this grid's cell at that point.
    pub fn map<U: Copy, F: FnMut(&T) -> U>(self, f: F) -> (r: Grid<U>)
        requires
            forall|x: int, y: int|
                in_bounds(x, y, self.size_spec().x as int, self.size_spec().y as int)
                    ==> call_requires(f, (&#[trigger] self.cell(x, y),)),
        ensures
            r.wf(),
            r.size_spec() == self.size_spec(),
            forall|x: int, y: int|
                in_bounds(x, y, self.size_spec().x as int, self.size_spec().y as int)
                    ==> call_ensures(f, (&self.cell(x, y),), #[trigger] r.cell(x, y)),
    {
        proof {
            use_type_invariant(&self);
            self.lemma_model();
        }
        Grid::new_grid_map(self, f)
    }

    /// The cells in storage order: row after row.
    pub fn iter(&self) -> (r: &[T])
        ensures
            r@ == self.data_spec(),
    {
        self.cells.as_slice()
    }

    /// A walk over the points of the shape, row by row.
    pub fn point_iter(&self) -> (r: PointIterRowMajor)
        ensures
            r.wf(),
            r.size_spec() == self.size_spec(),
            r.position() == 0,
    {
        proof {
            use_type_invariant(self);
        }
        PointIterRowMajor::over(self.size.x, self.size.y)
    }

    /// The rows from top to bottom, each a slice of the storage.
    pub fn rows(&self) -> (r: Vec<&[T]>)
        ensures
            r@.len() == self.size_spec().y,
            forall|y: int| 0 <= y < r@.len() ==> (#[trigger] r@[y])@ == self.row_spec(y),
    {
        proof {
            use_type_invariant(self);
            self.lemma_model();
        }
        let w: usize = self.size.x as usize;
        let h: usize = self.size.y as usize;
        let mut out: Vec<&[T]> = Vec::with_capacity(h);
        let mut y: usize = 0;
        while y < h
            invariant
                self.inv(),
                w == self.size.x,
                h == self.size.y,
                y <= h,
                out@.len() == y,
                forall|k: int| 0 <= k < y ==> (#[trigger] out@[k])@ == self.row_spec(k),
            decreases h - y,
        {
            proof {
                self.lemma_model();
                self.lemma_row_range(y as int);
            }
            let row: &[T] = vstd::slice::slice_subrange(self.cells.as_slice(), y * w, y * w + w);
            out.push(row);
            y += 1;
        }
        out
    }

    /// The columns from left to right, each from top to bottom.
    pub fn cols(&self) -> (r: Vec<Vec<&T>>)
        ensures
            r@.len() == self.size_spec().x,
            forall|x: int|
                0 <= x < r@.len() ==> (#[trigger] r@[x])@.len() == self.size_spec().y,
            forall|x: int, y: int|
                in_bounds(x, y, self.size_spec().x as int, self.size_spec().y as int) ==> *(
                #[trigger] r@[x]@[y]) == self.cell(x, y),
    {
        proof {
            use_type_invariant(self);
            self.lemma_model();
        }
        let w: usize = self.size.x as usize;
        let mut out: Vec<Vec<&T>> = Vec::with_capacity(w);
        let mut x: usize = 0;
        while x < w
            invariant
                self.inv(),
                w == self.size.x,
                x <= w,
                out@.len() == x,
                forall|k: int| 0 <= k < x ==> (#[trigger] out@[k])@.len() == self.size.y,
                forall|k: int, y: int|
                    0 <= k < x && 0 <= y < self.size.y ==> *(#[trigger] out@[k]@[y]) == self.cell(
                        k,
                        y,
                    ),
            decreases w - x,
        {
            let column: Vec<&T> = self.column_at(x);
            out.push(column);
            x += 1;
        }
        proof {
            self.lemma_model();
        }
        out
    }

    /// The column `x`, from top to bottom.
    fn column_at(&self, x: usize) -> (r: Vec<&T>)
        requires
            x < self.size_spec().x,
        ensures
            r@.len() == self.size_spec().y,
            forall|y: int| 0 <= y < self.size_spec().y
                ==> *(#[trigger] r@[y]) == self.cell(x as int, y),
    {
        proof {
            use_type_invariant(self);
            self.lemma_model();
        }
        let w: usize = self.size.x as usize;
        let h: usize = self.size.y as usize;
        let mut out: Vec<&T> = Vec::with_capacity(h);
        let mut y: usize = 0;
        while y < h
            invariant
                self.inv(),
                w == self.size.x,
                h == self.size.y,
                x < w,
                y <= h,
                out@.len() == y,
                forall|k: int| 0 <= k < y ==> *(#[trigger] out@[k]) == self.cell(x as int, k),
            decreases h - y,
        {
            proof {
                self.lemma_model();
                self.lemma_slot(x as int, y as int);
            }
            out.push(&self.cells[y * w + x]);
            y += 1;
        }
        proof {
            self.lemma_model();
        }
        out
    }

    /// Where the row `y` lies in the storage.
    proof fn lemma_row_range(self, y: int)
        requires
            self.inv(),
            0 <= y < self.size.y,
        ensures
            0 <= y * self.size.x,
            y * self.size.x + self.size.x <= self.cells@.len() <= usize::MAX,
            (y + 1) * self.size.x == y * self.size.x + self.size.x,
    {
        let w = self.size.x as int;
        let h = self.size.y as int;
        assert(0 <= y * w && y * w + w <= w * h && (y + 1) * w == y * w + w) by (nonlinear_arith)
            requires
                0 <= y < h,
                0 <= w,
        ;
        assert(self.cells.len() == self.cells@.len());
    }
}

/// How many rows the pair `[start, end]` asks for: those from `start` to
/// `end`, both included; one where `end` lies before `start`; and none where
/// the count is over `usize::MAX`.
pub open spec fn rows_wanted(start: int, end: int) -> int {
    if end < start {
        1
    } else if end - start >= usize::MAX {
        0
    } else {
        end - start + 1
    }
}

/// One past the last row that the pair `[start, end]` selects in a grid of
/// `height` rows: the rows that it asks for, as far as they exist.
pub open spec fn rows_stop(start: int, end: int, height: int) -> int {
    let wanted = rows_wanted(start, end);
    if start >= height {
        start
    } else if start + wanted >= height {
        height
    } else {
        start + wanted
    }
}

/// How many cells a walk over `len` cells visits that starts at position
/// `x` and goes on in steps of `width`.
pub open spec fn stride_len(len: int, x: int, width: int) -> int {
    (len - x + width - 1) / width
}

impl<T: Copy> Grid<T> {
    /// The rows that the pair `[start, end]` selects, from top to bottom.
    pub open spec fn rows_between_spec(&self, start: int, end: int) -> Seq<Seq<T>> {
        Seq::new(
            (rows_stop(start, end, self.size_spec().y as int) - start) as nat,
            |k: int| self.row_spec(start + k),
        )
    }

    /// The rows that the pair `[start, end]` selects (see `rows_stop`), from
    /// top to bottom, each a slice of the storage.
    pub fn rows_between(&self, start: usize, end: usize) -> (r: Vec<&[T]>)
        ensures
            r@.len() == self.rows_between_spec(start as int, end as int).len(),
            forall|k: int|
                0 <= k < r@.len() ==> (#[trigger] r@[k])@ == self.rows_between_spec(
                    start as int,
                    end as int,
                )[k],
    {
        proof {
            use_type_invariant(self);
            self.lemma_model();
        }
        let w: usize = self.size.x as usize;
        let h: usize = self.size.y as usize;
        let mut out: Vec<&[T]> = Vec::new();
        if start >= h {
            return out;
        }
        let wanted: usize = if end >= start {
            (end - start).wrapping_add(1)
        } else {
            1
        };
        let stop: usize = if wanted >= h - start {
            h
        } else {
            start + wanted
        };
        assert(stop == rows_stop(start as int, end as int, h as int));
        let mut y: usize = start;
        while y < stop
            invariant
                self.inv(),
                w == self.size.x,
                h == self.size.y,
                start <= y <= stop <= h,
                out@.len() == y - start,
                forall|k: int| 0 <= k < out@.len()
                    ==> (#[trigger] out@[k])@ == self.row_spec(start + k),
            decreases stop - y,
        {
            proof {
                self.lemma_model();
                self.lemma_row_range(y as int);
            }
            let row: &[T] = vstd::slice::slice_subrange(self.cells.as_slice(), y * w, y * w + w);
            out.push(row);
            y += 1;
        }
        out
    }

    /// The rows that `range` selects: what `rows_between` returns for the
    /// pair that `range_to_start_end` makes of the range along the y axis.
    pub fn iter_rows<R: RangeBounds<usize>>(&self, range: R) -> (r: Vec<&[T]>)
        ensures
            r@.len() <= self.size_spec().y,
            exists|start: RangeEnd, end: RangeEnd|
                {
                    let rows = #[trigger] self.rows_between_spec(
                        range_start(start) as int,
                        range_end(end, self.size_spec().y as usize) as int,
                    );
                    &&& r@.len() == rows.len()
                    &&& forall|k: int| 0 <= k < r@.len() ==> (#[trigger] r@[k])@ == rows[k]
                },
    {
        let start = start_of(&range);
        let end = end_of(&range);
        let pair = ends_to_start_end(start, end, self.size.y as usize);
        proof {
            self.lemma_model();
        }
        let r = self.rows_between(pair[0], pair[1]);
        proof {
            let rows = self.rows_between_spec(
                range_start(start) as int,
                range_end(end, self.size_spec().y as usize) as int,
            );
            assert(r@.len() == rows.len());
        }
        r
    }

    /// The cells at the storage positions `x`, `x + width`, `x + 2 * width`
    /// and so on: for `x` below the width, the column `x` from top to bottom.
    pub fn iter_column(&self, x: usize) -> (r: Vec<&T>)
        requires
            self.size_spec().x > 0,
            x <= self.data_spec().len(),
        ensures
            r@.len() == stride_len(
                self.data_spec().len() as int,
                x as int,
                self.size_spec().x as int,
            ),
            forall|k: int|
                0 <= k < r@.len() ==> *(#[trigger] r@[k]) == self.data_spec()[x + k
                    * self.size_spec().x],
            x < self.size_spec().x ==> r@.len() == self.size_spec().y && forall|y: int|
                0 <= y < self.size_spec().y ==> *(#[trigger] r@[y]) == self.cell(x as int, y),
    {
        proof {
            use_type_invariant(self);
            self.lemma_model();
        }
        let w: usize = self.size.x as usize;
        let len: usize = self.cells.len();
        let mut out: Vec<&T> = Vec::new();
        let mut i: usize = x;
        let mut more: bool = x < len;
        proof {
            if !more {
                lemma_stride_len(len as int, x as int, w as int, 0);
            }
        }
        while more
            invariant
                self.inv(),
                w == self.size.x,
                w > 0,
                len == self.cells@.len(),
                x <= len,
                more ==> i < len && i == x + out@.len() * w,
                !more ==> out@.len() == stride_len(len as int, x as int, w as int),
                forall|j: int|
                    0 <= j < out@.len() ==> *(#[trigger] out@[j]) == self.cells@[x + j * w],
            decreases (if more { 1int } else { 0int }) + len - i,
        {
            let ghost k = out@.len() as int;
            let ghost prev = out@;
            out.push(&self.cells[i]);
            proof {
                assert((k + 1) * w == k * w + w) by (nonlinear_arith);
                assert((k + 1 - 1) * w == k * w);
                assert(i == x + k * w);
                assert forall|j: int| 0 <= j < out@.len() implies *(#[trigger] out@[j])
                    == self.cells@[x + j * w] by {
                    if j == k {
                        assert(x + j * w == i);
                    } else {
                        assert(out@[j] == prev[j]);
                    }
                }
            }
            if len - i <= w {
                proof {
                    lemma_stride_len(len as int, x as int, w as int, k + 1);
                }
                more = false;
            } else {
                i += w;
            }
        }
        proof {
            self.lemma_model();
            assert forall|k: int| 0 <= k < out@.len() implies *(#[trigger] out@[k])
                == self.data_spec()[x + k * self.size_spec().x] by {
                assert(k * self.size_spec().x == k * w);
            }
            if x < w {
                self.lemma_column(x as int, out@.len() as int);
                assert forall|y: int| 0 <= y < self.size_spec().y implies *(#[trigger] out@[y])
                    == self.cell(x as int, y) by {
                    self.lemma_slot(x as int, y);
                    assert(y * self.size.x == y * w);
                    assert(x + y * w == y * self.size.x + x);
                }
            }
        }
        out
    }

    /// A walk from a position below the width visits one cell in each row.
    proof fn lemma_column(self, x: int, n: int)
        requires
            self.inv(),
            0 <= x < self.size.x,
            n == stride_len(self.cells@.len() as int, x, self.size.x as int),
        ensures
            n == self.size.y,
    {
        let w = self.size.x as int;
        let h = self.size.y as int;
        // w * h - x + w - 1 == h * w + (w - 1 - x)
        assert(w * h - x + w - 1 == h * w + (w - 1 - x)) by (nonlinear_arith);
        vstd::arithmetic::div_mod::lemma_fundamental_div_mod_converse(
            w * h - x + w - 1,
            w,
            h,
            w - 1 - x,
        );
    }
}

/// Each of the `stride_len` steps of a walk lands on an existing position.
pub proof fn lemma_stride_in_range(len: int, x: int, width: int, k: int)
    requires
        0 < width,
        0 <= x <= len,
        0 <= k < stride_len(len, x, width),
    ensures
        0 <= x + k * width < len,
{
    let n = stride_len(len, x, width);
    let a = len - x + width - 1;
    vstd::arithmetic::div_mod::lemma_fundamental_div_mod(a, width);
    vstd::arithmetic::div_mod::lemma_mod_bound(a, width);
    assert(width * n == n * width) by (nonlinear_arith);
    assert(0 <= k * width && (k + 1) * width <= n * width && (k + 1) * width == k * width + width)
        by (nonlinear_arith)
        requires
            0 <= k < n,
            0 < width,
    ;
}

/// `stride_len` counts the steps: it is the one `n` for which the step `n`
/// is the first to reach the end.
pub proof fn lemma_stride_len(len: int, x: int, width: int, n: int)
    requires
        0 < width,
        0 <= x <= len,
        0 <= n,
        x + n * width >= len,
        n > 0 ==> x + (n - 1) * width < len,
    ensures
        n == stride_len(len, x, width),
{
    if n == 0 {
        assert(x == len);
        vstd::arithmetic::div_mod::lemma_fundamental_div_mod_converse(width - 1, width, 0, width - 1);
    } else {
        let r = len - x + width - 1 - n * width;
        assert((n - 1) * width == n * width - width) by (nonlinear_arith);
        assert(0 <= r < width);
        vstd::arithmetic::div_mod::lemma_fundamental_div_mod_converse(
            len - x + width - 1,
            width,
            n,
            r,
        );
    }
}

impl<T: Copy> Grid<T> {
    /// Replaces each cell at a storage position from `start` up to, not
    /// including, `stop` by what `f` makes of it, in that order.
    fn update_range<F: FnMut(T) -> T>(&mut self, start: usize, stop: usize, mut f: F)
        requires
            start <= stop <= old(self).data_spec().len(),
            forall|i: int| start <= i < stop
                ==> call_requires(f, (#[trigger] old(self).data_spec()[i],)),
        ensures
            final(self).size_spec() == old(self).size_spec(),
            final(self).data_spec().len() == old(self).data_spec().len(),
            forall|i: int|
                start <= i < stop ==> call_ensures(
                    f,
                    (old(self).data_spec()[i],),
                    #[trigger] final(self).data_spec()[i],
                ),
            forall|i: int|
                0 <= i < old(self).data_spec().len() && !(start <= i < stop)
                    ==> #[trigger] final(self).data_spec()[i] == old(self).data_spec()[i],
    {
        proof {
            use_type_invariant(&*self);
            self.lemma_model();
        }
        let ghost before = self.cells@;
        let ghost f0 = f;
        let mut i: usize = start;
        while i < stop
            invariant
                f == f0,
                self.inv(),
                self.size == old(self).size,
                before == old(self).data_spec(),
                self.cells@.len() == before.len(),
                start <= i <= stop <= before.len(),
                forall|j: int| start <= j < stop ==> call_requires(f, (#[trigger] before[j],)),
                forall|j: int|
                    start <= j < i ==> call_ensures(f, (before[j],), #[trigger] self.cells@[j]),
                forall|j: int|
                    0 <= j < before.len() && !(start <= j < i) ==> #[trigger] self.cells@[j]
                        == before[j],
            decreases stop - i,
        {
            let c: T = self.cells[i];
            let v: T = f(c);
            self.cells[i] = v;
            i += 1;
        }
        proof {
            self.lemma_model();
        }
    }

    /// Replaces every cell by what `f` makes of it, in storage order: row
    /// after row. The shape stays.
    pub fn iter_mut<F: FnMut(T) -> T>(&mut self, f: F)
        requires
            forall|i: int|
                0 <= i < old(self).data_spec().len() ==> call_requires(
                    f,
                    (#[trigger] old(self).data_spec()[i],),
                ),
        ensures
            final(self).wf(),
            final(self).size_spec() == old(self).size_spec(),
            final(self).data_spec().len() == old(self).data_spec().len(),
            forall|i: int|
                0 <= i < old(self).data_spec().len() ==> call_ensures(
                    f,
                    (old(self).data_spec()[i],),
                    #[trigger] final(self).data_spec()[i],
                ),
    {
        let n: usize = self.len();
        self.update_range(0, n, f);
        proof {
            use_type_invariant(&*self);
            self.lemma_model();
        }
    }

    /// Replaces every cell by what `f` makes of it, row by row from the top,
    /// each row from left to right. The shape stays.
    pub fn rows_mut<F: FnMut(T) -> T>(&mut self, f: F)
        requires
            forall|x: int, y: int|
                in_bounds(x, y, old(self).size_spec().x as int, old(self).size_spec().y as int)
                    ==> call_requires(f, (#[trigger] old(self).cell(x, y),)),
        ensures
            final(self).wf(),
            final(self).size_spec() == old(self).size_spec(),
            forall|x: int, y: int|
                in_bounds(x, y, old(self).size_spec().x as int, old(self).size_spec().y as int)
                    ==> call_ensures(f, (old(self).cell(x, y),), #[trigger] final(self).cell(x, y)),
    {
        proof {
            use_type_invariant(&*self);
            self.lemma_model();
            let (w, h) = (self.size.x as int, self.size.y as int);
            assert forall|i: int| 0 <= i < self.data_spec().len() implies call_requires(
                f,
                (#[trigger] self.data_spec()[i],),
            ) by {
                lemma_point_at(i, w, h);
                self.lemma_slot(i % w, i / w);
            }
        }
        let n: usize = self.len();
        self.update_range(0, n, f);
        proof {
            use_type_invariant(&*self);
            self.lemma_model();
            old(self).lemma_model();
            assert forall|x: int, y: int|
                in_bounds(
                    x,
                    y,
                    old(self).size_spec().x as int,
                    old(self).size_spec().y as int,
                ) implies call_ensures(
                f,
                (old(self).cell(x, y),),
                #[trigger] self.cell(x, y),
            ) by {
                self.lemma_slot(x, y);
                old(self).lemma_slot(x, y);
            }
        }
    }

    /// Replaces the cells of the rows that the pair `[start, end]` selects
    /// (see `rows_stop`) by what `f` makes of them, row by row; every other
    /// cell stays.
    pub fn rows_between_mut<F: FnMut(T) -> T>(&mut self, start: usize, end: usize, f: F)
        requires
            forall|x: int, y: int|
                in_bounds(x, y, old(self).size_spec().x as int, old(self).size_spec().y as int)
                    && start <= y < rows_stop(
                    start as int,
                    end as int,
                    old(self).size_spec().y as int,
                ) ==> call_requires(f, (#[trigger] old(self).cell(x, y),)),
        ensures
            final(self).wf(),
            final(self).size_spec() == old(self).size_spec(),
            forall|x: int, y: int|
                in_bounds(x, y, old(self).size_spec().x as int, old(self).size_spec().y as int)
                    && start <= y < rows_stop(
                    start as int,
                    end as int,
                    old(self).size_spec().y as int,
                ) ==> call_ensures(f, (old(self).cell(x, y),), #[trigger] final(self).cell(x, y)),
            forall|x: int, y: int|
                in_bounds(x, y, old(self).size_spec().x as int, old(self).size_spec().y as int)
                    && !(start <= y < rows_stop(
                    start as int,
                    end as int,
                    old(self).size_spec().y as int,
                )) ==> #[trigger] final(self).cell(x, y) == old(self).cell(x, y),
    {
        proof {
            use_type_invariant(&*self);
            self.lemma_model();
        }
        let w: usize = self.size.x as usize;
        let h: usize = self.size.y as usize;
        if start >= h {
            return ;
        }
        let wanted: usize = if end >= start {
            (end - start).wrapping_add(1)
        } else {
            1
        };
        let stop: usize = if wanted >= h - start {
            h
        } else {
            start + wanted
        };
        assert(stop == rows_stop(start as int, end as int, h as int));
        proof {
            let (iw, ih) = (w as int, h as int);
            assert(0 <= start * iw <= stop * iw <= ih * iw && ih * iw == iw * ih)
                by (nonlinear_arith)
                requires
                    0 <= start <= stop <= ih,
                    0 <= iw,
            ;
            assert forall|i: int| start * w <= i < stop * w implies call_requires(
                f,
                (#[trigger] self.data_spec()[i],),
            ) by {
                lemma_point_at(i, iw, ih);
                lemma_row_of(i, iw, start as int, stop as int);
                self.lemma_slot(i % iw, i / iw);
            }
        }
        self.update_range(start * w, stop * w, f);
        proof {
            use_type_invariant(&*self);
            self.lemma_model();
            old(self).lemma_model();
            let (iw, ih) = (w as int, h as int);
            assert forall|x: int, y: int|
                in_bounds(x, y, iw, ih) && start <= y < stop implies call_ensures(
                f,
                (old(self).cell(x, y),),
                #[trigger] self.cell(x, y),
            ) by {
                self.lemma_slot(x, y);
                old(self).lemma_slot(x, y);
                lemma_row_major(x, y, iw, ih);
                lemma_row_of(y * iw + x, iw, start as int, stop as int);
                assert(start * w == start * iw && stop * w == stop * iw);
            }
            assert forall|x: int, y: int|
                in_bounds(x, y, iw, ih) && !(start <= y < stop) implies #[trigger] self.cell(x, y)
                == old(self).cell(x, y) by {
                self.lemma_slot(x, y);
                old(self).lemma_slot(x, y);
                lemma_row_major(x, y, iw, ih);
                lemma_row_of(y * iw + x, iw, start as int, stop as int);
                assert(start * w == start * iw && stop * w == stop * iw);
            }
        }
    }

    /// Replaces the cells of the rows that `range` selects by what `f` makes
    /// of them: what `rows_between_mut` does for the pair that
    /// `range_to_start_end` makes of the range along the y axis. Cells of
    /// other rows stay, and so does the shape.
    pub fn iter_rows_mut<R: RangeBounds<usize>, F: FnMut(T) -> T>(&mut self, range: R, f: F)
        requires
            forall|x: int, y: int|
                in_bounds(x, y, old(self).size_spec().x as int, old(self).size_spec().y as int)
                    ==> call_requires(f, (#[trigger] old(self).cell(x, y),)),
        ensures
            final(self).wf(),
            final(self).size_spec() == old(self).size_spec(),
            forall|x: int, y: int|
                in_bounds(x, y, old(self).size_spec().x as int, old(self).size_spec().y as int)
                    ==> #[trigger] final(self).cell(x, y) == old(self).cell(x, y) || call_ensures(
                    f,
                    (old(self).cell(x, y),),
                    final(self).cell(x, y),
                ),
    {
        let start = start_of(&range);
        let end = end_of(&range);
        let pair = ends_to_start_end(start, end, self.size.y as usize);
        proof {
            self.lemma_model();
        }
        self.rows_between_mut(pair[0], pair[1], f);
    }

    /// Replaces the cells at the storage positions `x`, `x + width`,
    /// `x + 2 * width` and so on by what `f` makes of them, in that order:
    /// for `x` below the width, the column `x` from top to bottom. Every
    /// other cell stays.
    pub fn iter_column_mut<F: FnMut(T) -> T>(&mut self, x: usize, mut f: F)
        requires
            old(self).size_spec().x > 0,
            x <= old(self).data_spec().len(),
            forall|i: int|
                0 <= i < old(self).data_spec().len() && (i - x) % (old(self).size_spec().x as int)
                    == 0 && i >= x ==> call_requires(f, (#[trigger] old(self).data_spec()[i],)),
        ensures
            final(self).wf(),
            final(self).size_spec() == old(self).size_spec(),
            final(self).data_spec().len() == old(self).data_spec().len(),
            forall|i: int|
                0 <= i < old(self).data_spec().len() && (i - x) % (old(self).size_spec().x as int)
                    == 0 && i >= x ==> call_ensures(
                    f,
                    (old(self).data_spec()[i],),
                    #[trigger] final(self).data_spec()[i],
                ),
            forall|i: int|
                0 <= i < old(self).data_spec().len() && !((i - x) % (old(self).size_spec().x as int)
                    == 0 && i >= x)
                        ==> #[trigger] final(self).data_spec()[i] == old(self).data_spec()[i],
    {
        proof {
            use_type_invariant(&*self);
            self.lemma_model();
        }
        let w: usize = self.size.x as usize;
        let len: usize = self.cells.len();
        let ghost before = self.cells@;
        let ghost f0 = f;
        let mut i: usize = x;
        let mut more: bool = x < len;
        proof {
            vstd::arithmetic::div_mod::lemma_fundamental_div_mod_converse(0, w as int, 0, 0);
        }
        while more
            invariant
                f == f0,
                self.inv(),
                self.size == old(self).size,
                before == old(self).data_spec(),
                self.cells@.len() == before.len(),
                len == before.len(),
                w == self.size.x,
                w > 0,
                x <= len,
                more ==> x <= i < len && (i - x) % (w as int) == 0,
                forall|j: int|
                    0 <= j < before.len() && (j - x) % (w as int) == 0 && j >= x
                        ==> call_requires(f, (#[trigger] before[j],)),
                forall|j: int|
                    0 <= j < before.len() && (j - x) % (w as int) == 0 && j >= x && (j < i
                        || !more) ==> call_ensures(f, (before[j],), #[trigger] self.cells@[j]),
                forall|j: int|
                    0 <= j < before.len() && !((j - x) % (w as int) == 0 && j >= x && (j < i
                        || !more)) ==> #[trigger] self.cells@[j] == before[j],
            decreases (if more { 1int } else { 0int }) + len - i,
        {
            let c: T = self.cells[i];
            let v: T = f(c);
            self.cells[i] = v;
            proof {
                lemma_next_multiple(i as int - x, w as int);
            }
            if len - i <= w {
                more = false;
            } else {
                i += w;
            }
        }
        proof {
            self.lemma_model();
        }
    }

    /// Replaces every cell by what `f` makes of it, column by column from the
    /// left, each column from top to bottom. The shape stays.
    pub fn cols_mut<F: FnMut(T) -> T>(&mut self, mut f: F)
        requires
            forall|x: int, y: int|
                in_bounds(x, y, old(self).size_spec().x as int, old(self).size_spec().y as int)
                    ==> call_requires(f, (#[trigger] old(self).cell(x, y),)),
        ensures
            final(self).wf(),
            final(self).size_spec() == old(self).size_spec(),
            forall|x: int, y: int|
                in_bounds(x, y, old(self).size_spec().x as int, old(self).size_spec().y as int)
                    ==> call_ensures(f, (old(self).cell(x, y),), #[trigger] final(self).cell(x, y)),
    {
        proof {
            use_type_invariant(&*self);
            self.lemma_model();
        }
        let w: usize = self.size.x as usize;
        let h: usize = self.size.y as usize;
        let ghost before = *self;
        let ghost f0 = f;
        let mut x: usize = 0;
        while x < w
            invariant
                f == f0,
                self.inv(),
                before.inv(),
                before == *old(self),
                self.size == before.size,
                w == self.size.x,
                h == self.size.y,
                x <= w,
                forall|a: int, b: int|
                    in_bounds(a, b, w as int, h as int) ==> call_requires(
                        f,
                        (#[trigger] before.cell(a, b),),
                    ),
                forall|a: int, b: int|
                    in_bounds(a, b, w as int, h as int) && a < x ==> call_ensures(
                        f,
                        (before.cell(a, b),),
                        #[trigger] self.cell(a, b),
                    ),
                forall|a: int, b: int|
                    in_bounds(a, b, w as int, h as int) && a >= x ==> #[trigger] self.cell(a, b)
                        == before.cell(a, b),
            decreases w - x,
        {
            let mut y: usize = 0;
            while y < h
                invariant
                    f == f0,
                    self.inv(),
                    before.inv(),
                    self.size == before.size,
                    w == self.size.x,
                    h == self.size.y,
                    x < w,
                    y <= h,
                    forall|a: int, b: int|
                        in_bounds(a, b, w as int, h as int) ==> call_requires(
                            f,
                            (#[trigger] before.cell(a, b),),
                        ),
                    forall|a: int, b: int|
                        in_bounds(a, b, w as int, h as int) && (a < x || (a == x && b < y))
                            ==> call_ensures(f, (before.cell(a, b),), #[trigger] self.cell(a, b)),
                    forall|a: int, b: int|
                        in_bounds(a, b, w as int, h as int) && !(a < x || (a == x && b < y))
                            ==> #[trigger] self.cell(a, b) == before.cell(a, b),
                decreases h - y,
            {
                let ghost prev = *self;
                proof {
                    self.lemma_model();
                    self.lemma_slot(x as int, y as int);
                }
                let idx: usize = y * w + x;
                let c: T = self.cells[idx];
                let v: T = f(c);
                self.cells[idx] = v;
                proof {
                    self.lemma_model();
                    prev.lemma_model();
                    assert forall|a: int, b: int|
                        in_bounds(a, b, w as int, h as int) implies #[trigger] self.cell(a, b) == (
                    if a == x && b == y {
                        v
                    } else {
                        prev.cell(a, b)
                    }) by {
                        self.lemma_slot(a, b);
                        prev.lemma_slot(a, b);
                        if !(a == x && b == y) {
                            prev.lemma_slots_differ(a, b, x as int, y as int);
                        }
                    }
                }
                y += 1;
            }
            x += 1;
        }
        proof {
            self.lemma_model();
            old(self).lemma_model();
        }
    }
}

/// A storage position lies in one of the rows from `start` up to, not
/// including, `stop` exactly when it lies between the first cell of the row
/// `start` and the first cell of the row `stop`.
proof fn lemma_row_of(i: int, width: int, start: int, stop: int)
    requires
        0 < width,
        0 <= i,
        0 <= start,
        0 <= stop,
    ensures
        (start * width <= i < stop * width) <==> (start <= i / width < stop),
{
    vstd::arithmetic::div_mod::lemma_fundamental_div_mod(i, width);
    vstd::arithmetic::div_mod::lemma_mod_bound(i, width);
    let q = i / width;
    assert(width * q == q * width) by (nonlinear_arith);
    assert(q >= start ==> q * width >= start * width) by (nonlinear_arith)
        requires
            0 < width,
    ;
    assert(q < start ==> q * width + width <= start * width) by (nonlinear_arith)
        requires
            0 < width,
    ;
    assert(q >= stop ==> q * width >= stop * width) by (nonlinear_arith)
        requires
            0 < width,
    ;
    assert(q < stop ==> q * width + width <= stop * width) by (nonlinear_arith)
        requires
            0 < width,
    ;
}

/// After a multiple of `width`, the next multiple is `width` further on, and
/// nothing in between is one.
proof fn lemma_next_multiple(d: int, width: int)
    requires
        0 < width,
        0 <= d,
        d % width == 0,
    ensures
        (d + width) % width == 0,
        forall|e: int| d < e < d + width ==> #[trigger] (e % width) != 0,
{
    vstd::arithmetic::div_mod::lemma_fundamental_div_mod(d, width);
    let q = d / width;
    assert(width * q == q * width) by (nonlinear_arith);
    assert((q + 1) * width == q * width + width) by (nonlinear_arith);
    vstd::arithmetic::div_mod::lemma_fundamental_div_mod_converse(d + width, width, q + 1, 0);
    assert forall|e: int| d < e < d + width implies #[trigger] (e % width) != 0 by {
        vstd::arithmetic::div_mod::lemma_fundamental_div_mod_converse(e, width, q, e - d);
    }
}

impl<T: Copy> Grid<T> {
    /// What `get` finds at `(x, y)`: the cell for a point inside the shape,
    /// nothing for a point outside.
    pub open spec fn get_spec(&self, x: int, y: int) -> Option<T> {
        if in_bounds(x, y, self.size_spec().x as int, self.size_spec().y as int) {
            Some(self.cell(x, y))
        } else {
            None
        }
    }
}

/// In a grid that holds `v` at every storage position, as `new` and `fill`
/// leave it, `get` finds `v` at every point inside the shape and nothing at
/// any point outside.
pub proof fn lemma_uniform_get<T: Copy>(g: Grid<T>, v: T, x: int, y: int)
    requires
        g.wf(),
        g.data_spec() == Seq::new(g.data_spec().len(), |i: int| v),
    ensures
        g.get_spec(x, y) == if in_bounds(x, y, g.size_spec().x as int, g.size_spec().y as int) {
            Some(v)
        } else {
            None
        },
{
    if in_bounds(x, y, g.size_spec().x as int, g.size_spec().y as int) {
        lemma_row_major(x, y, g.size_spec().x as int, g.size_spec().y as int);
    }
}

/// The map law: where `r` is `g` mapped by a function that returns `fs(a)`
/// for every `a`, `r` has the shape of `g`, and `get` finds in `r` at every
/// point what `fs` makes of what `get` finds in `g`.
pub proof fn lemma_map_get<T: Copy, U: Copy, F: FnMut(&T) -> U>(
    g: Grid<T>,
    r: Grid<U>,
    f: F,
    fs: spec_fn(T) -> U,
    x: int,
    y: int,
)
    requires
        r.size_spec() == g.size_spec(),
        forall|a: int, b: int|
            in_bounds(a, b, g.size_spec().x as int, g.size_spec().y as int) ==> call_ensures(
                f,
                (&g.cell(a, b),),
                #[trigger] r.cell(a, b),
            ),
        forall|a: T, b: U| call_ensures(f, (&a,), b) ==> b == fs(a),
    ensures
        r.get_spec(x, y) == match g.get_spec(x, y) {
            Some(c) => Some(fs(c)),
            None => None,
        },
{
}

/// Filling twice is filling once: where `once` is a grid after `fill(v)` and
/// `twice` is `once` after another `fill(v)`, the two have the same shape
/// and the same cells.
pub proof fn lemma_fill_idempotent<T: Copy>(once: Grid<T>, twice: Grid<T>, v: T)
    requires
        once.data_spec() == Seq::new(once.data_spec().len(), |i: int| v),
        twice.size_spec() == once.size_spec(),
        twice.data_spec() == Seq::new(once.data_spec().len(), |i: int| v),
    ensures
        twice.size_spec() == once.size_spec(),
        twice.data_spec() == once.data_spec(),
        forall|x: int, y: int| twice.get_spec(x, y) == once.get_spec(x, y),
{
}

impl<T: Copy> Default for Grid<T> {
    /// The grid without a cell.
    fn default() -> (r: Self)
        ensures
            r.wf(),
            r.size_spec() == (UVec2 { x: 0, y: 0 }),
    {
        let r = Grid { size: UVec2 { x: 0, y: 0 }, cells: Vec::new() };
        proof {
            r.lemma_model();
        }
        r
    }
}

impl<T: Copy> Clone for Grid<T> {
    fn clone(&self) -> (r: Self)
        ensures
            r.wf(),
            r.size_spec() == self.size_spec(),
            r.data_spec() == self.data_spec(),
    {
        proof {
            use_type_invariant(self);
            self.lemma_model();
        }
        let cells: Vec<T> = vstd::slice::slice_to_vec(self.cells.as_slice());
        let r = Grid { size: self.size, cells };
        proof {
            r.lemma_model();
        }
        r
    }
}

impl<T: Copy> vstd::std_specs::core::IndexSpecImpl<usize> for Grid<T> {
    open spec fn index_req(&self, index: &usize) -> bool {
        *index < self.data_spec().len()
    }
}

impl<T: Copy> Index<usize> for Grid<T> {
    type Output = T;

    /// The cell at the storage position `index`, for a position below the
    /// number of cells.
    fn index(&self, index: usize) -> (r: &T)
        ensures
            *r == self.data_spec()[index as int],
    {
        &self.cells[index]
    }
}

impl<T: Copy, P: GridPoint> vstd::std_specs::core::IndexSpecImpl<P> for Grid<T> {
    open spec fn index_req(&self, index: &P) -> bool {
        in_bounds(
            index.x_spec() as int,
            index.y_spec() as int,
            self.size_spec().x as int,
            self.size_spec().y as int,
        )
    }
}

impl<T: Copy, P: GridPoint> Index<P> for Grid<T> {
    type Output = T;

    /// The cell at `index`, for a point inside the shape.
    fn index(&self, index: P) -> (r: &T)
        ensures
            *r == self.cell(index.x_spec() as int, index.y_spec() as int),
    {
        self.get_checked(index)
    }
}

impl<T: Copy> IndexMut<usize> for Grid<T> {
    /// The cell at the storage position `index`, open to change, for a
    /// position below the number of cells. Only that cell can change.
    fn index_mut(&mut self, index: usize) -> (r: &mut T)
        requires
            index < old(self).data_spec().len(),
        ensures
            *r == old(self).data_spec()[index as int],
            final(self).size_spec() == old(self).size_spec(),
            final(self).data_spec() == old(self).data_spec().update(index as int, *final(r)),
    {
        proof {
            use_type_invariant(&*self);
            self.lemma_model();
        }
        &mut self.cells[index]
    }
}

impl<T: Copy, P: GridPoint> IndexMut<P> for Grid<T> {
    /// The cell at `index`, open to change, for a point inside the shape.
    /// Only that cell can change.
    fn index_mut(&mut self, index: P) -> (r: &mut T)
        requires
            in_bounds(
                index.x_spec() as int,
                index.y_spec() as int,
                old(self).size_spec().x as int,
                old(self).size_spec().y as int,
            ),
        ensures
            final(self).size_spec() == old(self).size_spec(),
            *r == old(self).cell(index.x_spec() as int, index.y_spec() as int),
            final(self).cell(index.x_spec() as int, index.y_spec() as int) == *final(r),
            forall|x: int, y: int|
                in_bounds(x, y, old(self).size_spec().x as int, old(self).size_spec().y as int)
                    && !(x == index.x_spec() && y == index.y_spec())
                        ==> #[trigger] final(self).cell(
                    x,
                    y,
                ) == old(self).cell(x, y),
    {
        self.get_mut_checked(index)
    }
}

} // verus!

