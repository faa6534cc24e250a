//! The dense storage: the cells in the layout of a two-dimensional array
//! indexed by `(x, y)`, whose first axis is `x`. A sequence of cells is taken
//! as such an array where `ndarray` takes it as one.

use crate::grid_like::{lemma_neighbours_inside_bounds, GridLike};
use crate::grid_point::GridPoint;
use crate::grids::grid::{repeated, Grid};
use crate::size_2d::{in_bounds, lemma_point_at, lemma_row_major, size_fits, Size2d};
use crate::vec2::{IVec2, UVec2};
use core::ops::{Index, IndexMut};
use vstd::prelude::*;
use vstd::std_specs::cmp::PartialEqSpec;

verus! {

/// Why a sequence of cells cannot be taken as an array of a given shape:
/// the kinds of error that `ndarray` knows.
#[derive(Debug, Clone, Copy, PartialEq, Eq, Structural)]
pub enum ShapeError {
    /// The sequence holds more cells than the shape has.
    IncompatibleShape,
    /// The memory layout does not fit.
    IncompatibleLayout,
    /// The shape does not fit inside the limits of a grid: a length is over
    /// `MAX_SIZE_FIELD`.
    RangeLimited,
    /// The sequence holds fewer cells than the shape has.
    OutOfBounds,
    /// Elements would share their place.
    Unsupported,
    /// The product of the lengths that are not zero is over `isize::MAX`.
    Overflow,
}

/// A grid whose cells lie in a two-dimensional array with `x` as the first
/// axis: the lane of all cells with one `x` is contiguous, and the cell at
/// `(x, y)` is at position `x * height + y` of the storage.
#[derive(Debug, Hash, PartialEq, Eq)]
pub struct Grid2D<T> {
    size: UVec2,
    cells: Vec<T>,
}

/// The product of the lengths that are not zero.
pub open spec fn nonzero_product(width: int, height: int) -> int {
    (if width == 0 {
        1
    } else {
        width
    }) * (if height == 0 {
        1
    } else {
        height
    })
}

/// Whether `len` cells pass as the storage of an array of the shape
/// `(width, height)`, and if not, why: first the product of the lengths that
/// are not zero has to be within `isize::MAX` (else `Overflow`), then the
/// shape must not have more cells than there are (else `OutOfBounds`), nor
/// fewer (else `IncompatibleShape`).
pub open spec fn array_verdict(width: int, height: int, len: int) -> Result<(), ShapeError> {
    if nonzero_product(width, height) > isize::MAX {
        Err(ShapeError::Overflow)
    } else if width * height > len {
        Err(ShapeError::OutOfBounds)
    } else if width * height < len {
        Err(ShapeError::IncompatibleShape)
    } else {
        Ok(())
    }
}

/// Whether `len` cells pass as the storage of a grid of the shape
/// `(width, height)`: the lengths have to be within the limit of a grid
/// (else `RangeLimited`), and the cells have to pass as the storage of an
/// array of that shape.
pub open spec fn shape_verdict(width: int, height: int, len: int) -> Result<(), ShapeError> {
    if width > crate::size_2d::MAX_SIZE_FIELD || height > crate::size_2d::MAX_SIZE_FIELD {
        Err(ShapeError::RangeLimited)
    } else {
        array_verdict(width, height, len)
    }
}

/// `ndarray::Array2::from_shape_vec` on the shape `(width, height)` and the
/// cells `data`, and, where it accepts them, `into_raw_vec` on the array
/// that it made. It accepts exactly what `array_verdict` accepts, and hands
/// the cells back as they came; else it reports the kind of error that
/// `array_verdict` names.
#[verifier::external_body]
fn array_storage<T>(width: usize, height: usize, data: Vec<T>) -> (r: Result<Vec<T>, ShapeError>)
    ensures
        match r {
            Ok(cells) => cells@ == data@ && array_verdict(
                width as int,
                height as int,
                data@.len() as int,
            ).is_ok(),
            Err(e) => array_verdict(width as int, height as int, data@.len() as int) == Err::<
                (),
                ShapeError,
            >(e),
        },
{
    match ndarray::Array2::from_shape_vec((width, height), data) {
        Ok(array) => Ok(array.into_raw_vec()),
        Err(e) => Err(match e.kind() {
            ndarray::ErrorKind::IncompatibleShape => ShapeError::IncompatibleShape,
            ndarray::ErrorKind::IncompatibleLayout => ShapeError::IncompatibleLayout,
            ndarray::ErrorKind::RangeLimited => ShapeError::RangeLimited,
            ndarray::ErrorKind::OutOfBounds => ShapeError::OutOfBounds,
            ndarray::ErrorKind::Overflow => ShapeError::Overflow,
            _ => ShapeError::Unsupported,
        }),
    }
}

/// The place that a slice index stands for on an axis of length `len`: the
/// index itself, or, for a negative one, that many places before the end.
pub open spec fn abs_index(len: int, index: int) -> int {
    if index < 0 {
        len + index
    } else {
        index
    }
}

/// The end of a slice once its start is known: never before the start.
pub open spec fn slice_end(len: int, start: int, end: int) -> int {
    if abs_index(len, end) < abs_index(len, start) {
        abs_index(len, start)
    } else {
        abs_index(len, end)
    }
}

/// `start` and `end` are the ends of a slice of an axis of length `len`.
pub open spec fn slice_fits(len: int, start: int, end: int) -> bool {
    0 <= abs_index(len, start) <= len && 0 <= abs_index(len, end) <= len
}

impl<T> Grid2D<T> {
    #[verifier::type_invariant]
    closed spec fn inv(self) -> bool {
        &&& size_fits(self.size.x, self.size.y)
        &&& self.cells@.len() == self.size.x * self.size.y
    }
}

impl<T: Copy> Grid2D<T> {
    /// What the fields stand for in the contracts.
    proof fn lemma_model(self)
        ensures
            self.data_spec() == self.cells@,
            self.size_spec() == self.size,
            self.inv() ==> self.wf(),
            self.cells@.len() <= usize::MAX,
    {
        assert(self.cells.len() == self.cells@.len());
    }

    /// The storage position of a cell inside the shape.
    proof fn lemma_slot(self, x: int, y: int)
        requires
            self.inv(),
            in_bounds(x, y, self.size.x as int, self.size.y as int),
        ensures
            0 <= x * self.size.y,
            0 <= x * self.size.y + y < self.cells@.len() <= usize::MAX,
            self.cells@.len() == self.size.x * self.size.y,
            self.cell(x, y) == self.cells@[x * self.size.y + y],
    {
        lemma_row_major(y, x, self.size.y as int, self.size.x as int);
        assert(self.size.y * self.size.x == self.size.x * self.size.y) by (nonlinear_arith);
        assert(self.cells.len() == self.cells@.len());
    }

    /// Two different cells inside the shape have different storage
    /// positions.
    proof fn lemma_slots_differ(self, x1: int, y1: int, x2: int, y2: int)
        requires
            in_bounds(x1, y1, self.size.x as int, self.size.y as int),
            in_bounds(x2, y2, self.size.x as int, self.size.y as int),
            !(x1 == x2 && y1 == y2),
        ensures
            x1 * self.size.y + y1 != x2 * self.size.y + y2,
    {
        lemma_row_major(y1, x1, self.size.y as int, self.size.x as int);
        lemma_row_major(y2, x2, self.size.y as int, self.size.x as int);
    }

    /// The cell behind a storage position.
    proof fn lemma_cell_of(self, i: int)
        requires
            self.inv(),
            0 <= i < self.cells@.len(),
        ensures
            in_bounds(
                i / (self.size.y as int),
                i % (self.size.y as int),
                self.size.x as int,
                self.size.y as int,
            ),
            self.cell(i / (self.size.y as int), i % (self.size.y as int)) == self.cells@[i],
    {
        let (w, h) = (self.size.x as int, self.size.y as int);
        assert(w * h == h * w) by (nonlinear_arith);
        lemma_point_at(i, h, w);
    }

    /// Where the lane of the cells with the first coordinate `x` lies in the
    /// storage.
    proof fn lemma_lane_range(self, x: int)
        requires
            self.inv(),
            0 <= x < self.size.x,
        ensures
            0 <= x * self.size.y,
            x * self.size.y + self.size.y <= self.cells@.len() <= usize::MAX,
            (x + 1) * self.size.y == x * self.size.y + self.size.y,
    {
        let w = self.size.x as int;
        let h = self.size.y as int;
        assert(0 <= x * h && x * h + h <= w * h && (x + 1) * h == x * h + h) by (nonlinear_arith)
            requires
                0 <= x < w,
                0 <= h,
        ;
        assert(self.cells.len() == self.cells@.len());
    }

    /// The grid of shape `shape` whose cell at each point is the cell of
    /// `flat` at that point.
    fn from_flat(flat: &Grid<T>) -> (r: Self)
        requires
            flat.wf(),
        ensures
            r.wf(),
            r.size_spec() == flat.size_spec(),
            forall|x: int, y: int|
                in_bounds(x, y, flat.size_spec().x as int, flat.size_spec().y as int)
                    ==> #[trigger] r.cell(x, y) == flat.cell(x, y),
    {
        let shape: UVec2 = flat.size();
        let n: usize = flat.len();
        let w: u32 = shape.x;
        let h: u32 = shape.y;
        let mut cells: Vec<T> = Vec::with_capacity(n);
        let mut x: u32 = 0;
        proof {
            assert(0 * h == 0);
        }
        while x < w
            invariant
                flat.wf(),
                shape == flat.size_spec(),
                w == shape.x,
                h == shape.y,
                n == w * h,
                x <= w,
                cells@.len() == x * h,
                forall|a: int, b: int|
                    0 <= a < x && 0 <= b < h ==> #[trigger] cells@[a * h + b] == flat.cell(a, b),
            decreases w - x,
        {
            let mut y: u32 = 0;
            while y < h
                invariant
                    flat.wf(),
                    shape == flat.size_spec(),
                    w == shape.x,
                    h == shape.y,
                    x < w,
                    y <= h,
                    cells@.len() == x * h + y,
                    forall|a: int, b: int|
                        0 <= a < x && 0 <= b < h ==> #[trigger] cells@[a * h + b] == flat.cell(
                            a,
                            b,
                        ),
                    forall|b: int| 0 <= b < y
                        ==> #[trigger] cells@[x * h + b] == flat.cell(x as int, b),
                decreases h - y,
            {
                let ghost prev = cells@;
                let p = IVec2 { x: x as i32, y: y as i32 };
                let c: T = *flat.get_checked(p);
                cells.push(c);
                proof {
                    assert forall|a: int, b: int| 0 <= a < x
                        && 0 <= b < h implies #[trigger] cells@[a
                        * h + b] == flat.cell(a, b) by {
                        lemma_row_major(b, a, h as int, x as int);
                        assert(h * x == x * h) by (nonlinear_arith);
                        assert(cells@[a * h + b] == prev[a * h + b]);
                    }
                    assert forall|b: int| 0 <= b < y + 1 implies #[trigger] cells@[x * h + b]
                        == flat.cell(x as int, b) by {
                        if b < y {
                            assert(cells@[x * h + b] == prev[x * h + b]);
                        }
                    }
                }
                y += 1;
            }
            proof {
                assert((x + 1) * h == x * h + h) by (nonlinear_arith);
                assert forall|a: int, b: int| 0 <= a < x + 1
                    && 0 <= b < h implies #[trigger] cells@[a
                    * h + b] == flat.cell(a, b) by {
                    if a == x {
                        assert(cells@[x * h + b] == flat.cell(x as int, b));
                    }
                }
            }
            x += 1;
        }
        proof {
            flat.lemma_wf();
        }
        let r = Grid2D { size: shape, cells };
        proof {
            r.lemma_model();
            assert forall|a: int, b: int|
                in_bounds(
                    a,
                    b,
                    flat.size_spec().x as int,
                    flat.size_spec().y as int,
                ) implies #[trigger] r.cell(a, b) == flat.cell(a, b) by {
                r.lemma_slot(a, b);
                assert(r.cells@[a * h + b] == flat.cell(a, b));
            }
        }
        r
    }
}

impl<T: Copy> GridLike<T> for Grid2D<T> {
    open spec fn wf(&self) -> bool {
        &&& size_fits(self.size_spec().x, self.size_spec().y)
        &&& self.data_spec().len() == self.size_spec().x * self.size_spec().y
    }

    closed spec fn size_spec(&self) -> UVec2 {
        self.size
    }

    closed spec fn data_spec(&self) -> Seq<T> {
        self.cells@
    }

    open spec fn cell(&self, x: int, y: int) -> T {
        self.data_spec()[x * self.size_spec().y + y]
    }

    proof fn lemma_wf(&self) {
    }

    fn new<S: Size2d>(size: S, new_value: T) -> (r: Self) {
        let n: usize = size.count();
        let r = Grid2D { size: size.as_uvec2(), cells: repeated(n, new_value) };
        proof {
            assert forall|x: int, y: int|
                in_bounds(x, y, r.size_spec().x as int, r.size_spec().y as int) implies #[trigger] r.cell(
                x,
                y,
            ) == new_value by {
                r.lemma_slot(x, y);
            }
        }
        r
    }

    fn new_fn<S: Size2d, F: FnMut(IVec2) -> T>(size: S, f: F) -> (r: Self) {
        let flat: Grid<T> = Grid::new_fn(size, f);
        Self::from_flat(&flat)
    }

    fn new_clone<S: Size2d>(size: S, value: T) -> (r: Self) {
        Self::new(size, value)
    }

    fn new_default<S: Size2d>(size: S) -> (r: Self) where T: Default {
        let flat: Grid<T> = Grid::new_default(size);
        Self::from_flat(&flat)
    }

    fn new_copy<S: Size2d>(size: S, value: T) -> (r: Self) {
        Self::new(size, value)
    }

    fn data(&self) -> (r: &[T]) {
        self.cells.as_slice()
    }

    fn fill(&mut self, value: T) {
        proof {
            use_type_invariant(&*self);
            self.lemma_model();
        }
        let n: usize = self.cells.len();
        self.cells = repeated(n, value);
        proof {
            assert forall|x: int, y: int|
                in_bounds(
                    x,
                    y,
                    self.size_spec().x as int,
                    self.size_spec().y as int,
                ) implies #[trigger] self.cell(x, y) == value by {
                self.lemma_slot(x, y);
            }
        }
    }

    fn width(&self) -> (r: u32) {
        self.size.x
    }

    fn height(&self) -> (r: u32) {
        self.size.y
    }

    fn size(&self) -> (r: UVec2) {
        self.size
    }

    fn len(&self) -> (r: usize) {
        proof {
            use_type_invariant(self);
            self.lemma_model();
        }
        self.cells.len()
    }

    fn is_empty(&self) -> (r: bool) {
        proof {
            use_type_invariant(self);
            self.lemma_model();
        }
        self.cells.len() == 0
    }

    fn get<P: GridPoint>(&self, point: P) -> (r: Option<&T>) {
        proof {
            use_type_invariant(self);
            self.lemma_model();
        }
        let x: i32 = point.x();
        let y: i32 = point.y();
        if x >= 0 && y >= 0 && (x as u32) < self.size.x && (y as u32) < self.size.y {
            proof {
                self.lemma_slot(x as int, y as int);
            }
            Some(&self.cells[x as usize * self.size.y as usize + y as usize])
        } else {
            None
        }
    }

    fn get_mut<P: GridPoint>(&mut self, point: P) -> (r: Option<&mut T>) {
        proof {
            use_type_invariant(&*self);
            self.lemma_model();
        }
        let x: i32 = point.x();
        let y: i32 = point.y();
        if x >= 0 && y >= 0 && (x as u32) < self.size.x && (y as u32) < self.size.y {
            proof {
                let (w, h) = (self.size.x as int, self.size.y as int);
                self.lemma_slot(x as int, y as int);
                assert forall|a: int, b: int|
                    in_bounds(a, b, w, h) && !(a == x && b == y) implies #[trigger] self.cell(a, b)
                    == self.cells@[a * self.size.y + b] && 0 <= a * self.size.y + b
                    < self.cells@.len() && a * self.size.y + b != x * self.size.y + y by {
                    self.lemma_slot(a, b);
                    self.lemma_slots_differ(a, b, x as int, y as int);
                }
            }
            Some(&mut self.cells[x as usize * self.size.y as usize + y as usize])
        } else {
            None
        }
    }

    fn get_checked<P: GridPoint>(&self, point: P) -> (r: &T) {
        proof {
            use_type_invariant(self);
            self.lemma_model();
            self.lemma_slot(point.x_spec() as int, point.y_spec() as int);
        }
        let x: usize = point.x() as usize;
        let y: usize = point.y() as usize;
        &self.cells[x * self.size.y as usize + y]
    }

    fn get_mut_checked<P: GridPoint>(&mut self, point: P) -> (r: &mut T) {
        proof {
            use_type_invariant(&*self);
            self.lemma_model();
            let (w, h) = (self.size.x as int, self.size.y as int);
            self.lemma_slot(point.x_spec() as int, point.y_spec() as int);
            assert forall|a: int, b: int|
                in_bounds(a, b, w, h) && !(a == point.x_spec() && b
                    == point.y_spec()) implies #[trigger] self.cell(a, b) == self.cells@[a
                * self.size.y + b] && 0 <= a * self.size.y + b < self.cells@.len() && a
                * self.size.y + b != point.x_spec() * self.size.y + point.y_spec() by {
                self.lemma_slot(a, b);
                self.lemma_slots_differ(a, b, point.x_spec() as int, point.y_spec() as int);
            }
        }
        let x: usize = point.x() as usize;
        let y: usize = point.y() as usize;
        &mut self.cells[x * self.size.y as usize + y]
    }

    fn count_neighbors<P: GridPoint>(&self, point: P, val: T) -> (r: usize) where T: PartialEq {
        let x: i64 = point.x() as i64;
        let y: i64 = point.y() as i64;
        proof {
            lemma_neighbours_inside_bounds(
                x as int,
                y as int,
                self.size_spec().x as int,
                self.size_spec().y as int,
            );
        }
        let mut neighbors: usize = 0;
        neighbors += self.hit_at(x - 1, y - 1, val);
        neighbors += self.hit_at(x, y - 1, val);
        neighbors += self.hit_at(x + 1, y - 1, val);
        neighbors += self.hit_at(x - 1, y, val);
        neighbors += self.hit_at(x + 1, y, val);
        neighbors += self.hit_at(x - 1, y + 1, val);
        neighbors += self.hit_at(x, y + 1, val);
        neighbors += self.hit_at(x + 1, y + 1, val);
        neighbors
    }
}

impl<T: Copy> Grid2D<T> {
    /// 1 where `(x, y)` lies inside the shape and its cell equals `val`,
    /// else 0.
    fn hit_at(&self, x: i64, y: i64, val: T) -> (r: usize) where T: PartialEq
        ensures
            r <= crate::grid_like::inside(
                x as int,
                y as int,
                self.size_spec().x as int,
                self.size_spec().y as int,
            ),
            T::obeys_eq_spec() ==> r == crate::grid_like::hit(
                |x: int, y: int| self.cell(x, y),
                self.size_spec().x as int,
                self.size_spec().y as int,
                x as int,
                y as int,
                val,
            ),
    {
        proof {
            use_type_invariant(self);
            self.lemma_model();
        }
        if 0 <= x && x < self.size.x as i64 && 0 <= y && y < self.size.y as i64 {
            proof {
                self.lemma_slot(x as int, y as int);
            }
            let idx: usize = x as usize * self.size.y as usize + y as usize;
            if self.cells[idx] == val {
                1
            } else {
                0
            }
        } else {
            0
        }
    }

    /// What `get` finds at `(x, y)`: the cell for a point inside the shape,
    /// nothing for a point outside.
    pub open spec fn get_spec(&self, x: int, y: int) -> Option<T> {
        if in_bounds(x, y, self.size_spec().x as int, self.size_spec().y as int) {
            Some(self.cell(x, y))
        } else {
            None
        }
    }

    /// The lane of the cells whose first coordinate is `x`, in the order of
    /// `y`.
    pub open spec fn row_spec(&self, x: int) -> Seq<T> {
        self.data_spec().subrange(x * self.size_spec().y, (x + 1) * self.size_spec().y)
    }

    /// The grid of shape `shape` whose storage is `data`: the cell at
    /// `(x, y)` is `data[x * height + y]`. The shape has to be within the
    /// limits of a grid (else `RangeLimited`) and to pass as the shape of an
    /// array over `data` (see `array_storage` for the errors).
    pub fn new_from_vec<Sh: Size2d>(shape: Sh, data: Vec<T>) -> (r: Result<Grid2D<T>, ShapeError>)
        ensures
            r.is_ok() <==> shape_verdict(
                shape.width_spec() as int,
                shape.height_spec() as int,
                data@.len() as int,
            ).is_ok(),
            r matches Err(e) ==> shape_verdict(
                shape.width_spec() as int,
                shape.height_spec() as int,
                data@.len() as int,
            ) == Err::<(), ShapeError>(e),
            r matches Ok(g) ==> g.wf() && g.size_spec() == (UVec2 {
                x: shape.width_spec(),
                y: shape.height_spec(),
            }) && g.data_spec() == data@,
    {
        let w: u32 = shape.width();
        let h: u32 = shape.height();
        if w > crate::size_2d::MAX_SIZE_FIELD || h > crate::size_2d::MAX_SIZE_FIELD {
            return Err(ShapeError::RangeLimited);
        }
        match array_storage(w as usize, h as usize, data) {
            Ok(cells) => {
                let g = Grid2D { size: UVec2 { x: w, y: h }, cells };
                proof {
                    g.lemma_model();
                }
                Ok(g)
            },
            Err(e) => Err(e),
        }
    }

    /// The grid of the shape of `grid` whose cell at each point is what `f`
    /// returned for the cell of `grid` at that point; `f` is called once per
    /// point, row by row.
    pub fn new_grid_map<G: GridLike<U>, U: Copy, F: FnMut(&U) -> T>(grid: G, f: F) -> (r: Self)
        requires
            grid.wf(),
            forall|x: int, y: int|
                in_bounds(x, y, grid.size_spec().x as int, grid.size_spec().y as int)
                    ==> call_requires(f, (&#[trigger] grid.cell(x, y),)),
        ensures
            r.wf(),
            r.size_spec() == grid.size_spec(),
            forall|x: int, y: int|
                in_bounds(x, y, grid.size_spec().x as int, grid.size_spec().y as int)
                    ==> call_ensures(f, (&grid.cell(x, y),), #[trigger] r.cell(x, y)),
    {
        let ghost shape = grid.size_spec();
        let flat: Grid<T> = Grid::new_grid_map(grid, f);
        let r = Self::from_flat(&flat);
        proof {
            assert forall|x: int, y: int|
                in_bounds(x, y, shape.x as int, shape.y as int) implies call_ensures(
                f,
                (&grid.cell(x, y),),
                #[trigger] r.cell(x, y),
            ) by {
                assert(r.cell(x, y) == flat.cell(x, y));
            }
        }
        r
    }

    /// The grid of the shape of `grid` whose cell at each point is what `f`
    /// returned for the cell of `grid` at that point.
    pub fn new_grid_map_ref<U: Copy, F: FnMut(&U) -> T>(grid: &Grid2D<U>, mut f: F) -> (r: Self)
        requires
            forall|x: int, y: int|
                in_bounds(x, y, grid.size_spec().x as int, grid.size_spec().y as int)
                    ==> call_requires(f, (&#[trigger] grid.cell(x, y),)),
        ensures
            r.wf(),
            r.size_spec() == grid.size_spec(),
            forall|x: int, y: int|
                in_bounds(x, y, grid.size_spec().x as int, grid.size_spec().y as int)
                    ==> call_ensures(f, (&grid.cell(x, y),), #[trigger] r.cell(x, y)),
    {
        proof {
            use_type_invariant(grid);
            grid.lemma_model();
        }
        let n: usize = grid.cells.len();
        let mut cells: Vec<T> = Vec::with_capacity(n);
        let mut i: usize = 0;
        let ghost f0 = f;
        while i < n
            invariant
                f == f0,
                grid.inv(),
                n == grid.cells@.len(),
                i <= n,
                cells@.len() == i,
                forall|x: int, y: int|
                    in_bounds(x, y, grid.size_spec().x as int, grid.size_spec().y as int)
                        ==> call_requires(f, (&#[trigger] grid.cell(x, y),)),
                forall|k: int| 0 <= k < i
                    ==> call_ensures(f, (&grid.cells@[k],), #[trigger] cells@[k]),
            decreases n - i,
        {
            proof {
                grid.lemma_model();
                grid.lemma_cell_of(i as int);
            }
            let v: T = f(&grid.cells[i]);
            cells.push(v);
            i += 1;
        }
        let r = Grid2D { cells, size: grid.size };
        proof {
            r.lemma_model();
            grid.lemma_model();
            assert forall|x: int, y: int|
                in_bounds(
                    x,
                    y,
                    grid.size_spec().x as int,
                    grid.size_spec().y as int,
                ) implies call_ensures(f, (&grid.cell(x, y),), #[trigger] r.cell(x, y)) by {
                r.lemma_slot(x, y);
                grid.lemma_slot(x, y);
            }
        }
        r
    }

    /// The lanes from `x = 0` upwards, each a slice of the storage that
    /// holds the cells with one first coordinate in the order of `y`.
    pub fn rows(&self) -> (r: Vec<&[T]>)
        ensures
            r@.len() == self.size_spec().x,
            forall|x: int| 0 <= x < r@.len() ==> (#[trigger] r@[x])@ == self.row_spec(x),
    {
        proof {
            use_type_invariant(self);
            self.lemma_model();
        }
        let w: usize = self.size.x as usize;
        let h: usize = self.size.y as usize;
        let mut out: Vec<&[T]> = Vec::with_capacity(w);
        let mut x: usize = 0;
        while x < w
            invariant
                self.inv(),
                w == self.size.x,
                h == self.size.y,
                x <= w,
                out@.len() == x,
                forall|k: int| 0 <= k < x ==> (#[trigger] out@[k])@ == self.row_spec(k),
            decreases w - x,
        {
            proof {
                self.lemma_model();
                self.lemma_lane_range(x as int);
            }
            let row: &[T] = vstd::slice::slice_subrange(self.cells.as_slice(), x * h, x * h + h);
            out.push(row);
            x += 1;
        }
        out
    }

    /// The lanes from `y = 0` upwards, each holding the cells with one
    /// second coordinate in the order of `x`.
    pub fn cols(&self) -> (r: Vec<Vec<&T>>)
        ensures
            r@.len() == self.size_spec().y,
            forall|y: int|
                0 <= y < r@.len() ==> (#[trigger] r@[y])@.len() == self.size_spec().x,
            forall|x: int, y: int|
                in_bounds(x, y, self.size_spec().x as int, self.size_spec().y as int) ==> *(
                #[trigger] r@[y]@[x]) == self.cell(x, y),
    {
        proof {
            use_type_invariant(self);
            self.lemma_model();
        }
        let h: usize = self.size.y as usize;
        let mut out: Vec<Vec<&T>> = Vec::with_capacity(h);
        let mut y: usize = 0;
        while y < h
            invariant
                self.inv(),
                h == self.size.y,
                y <= h,
                out@.len() == y,
                forall|k: int| 0 <= k < y ==> (#[trigger] out@[k])@.len() == self.size.x,
                forall|a: int, k: int|
                    0 <= k < y && 0 <= a < self.size.x ==> *(#[trigger] out@[k]@[a]) == self.cell(
                        a,
                        k,
                    ),
            decreases h - y,
        {
            let lane: Vec<&T> = self.lane_at(y);
            out.push(lane);
            y += 1;
        }
        proof {
            self.lemma_model();
        }
        out
    }

    /// The cells with the second coordinate `y`, in the order of `x`.
    fn lane_at(&self, y: usize) -> (r: Vec<&T>)
        requires
            y < self.size_spec().y,
        ensures
            r@.len() == self.size_spec().x,
            forall|x: int| 0 <= x < self.size_spec().x
                ==> *(#[trigger] r@[x]) == self.cell(x, y as int),
    {
        proof {
            use_type_invariant(self);
            self.lemma_model();
        }
        let w: usize = self.size.x as usize;
        let h: usize = self.size.y as usize;
        let mut out: Vec<&T> = Vec::with_capacity(w);
        let mut x: usize = 0;
        while x < w
            invariant
                self.inv(),
                w == self.size.x,
                h == self.size.y,
                y < h,
                x <= w,
                out@.len() == x,
                forall|k: int| 0 <= k < x ==> *(#[trigger] out@[k]) == self.cell(k, y as int),
            decreases w - x,
        {
            proof {
                self.lemma_model();
                self.lemma_slot(x as int, y as int);
            }
            out.push(&self.cells[x * h + y]);
            x += 1;
        }
        proof {
            self.lemma_model();
        }
        out
    }

    /// The cells in storage order: lane after lane.
    pub fn iter(&self) -> (r: &[T])
        ensures
            r@ == self.data_spec(),
    {
        self.cells.as_slice()
    }

    /// The lane of the cells whose first coordinate is `x`, in the order of
    /// `y`, for an `x` inside the shape.
    pub fn row(&self, x: i32) -> (r: &[T])
        requires
            0 <= x < self.size_spec().x,
        ensures
            r@ == self.row_spec(x as int),
    {
        proof {
            use_type_invariant(self);
            self.lemma_model();
            self.lemma_lane_range(x as int);
        }
        let i: usize = x as usize;
        let h: usize = self.size.y as usize;
        vstd::slice::slice_subrange(self.cells.as_slice(), i * h, i * h + h)
    }

    /// The cells whose second coordinate is `y`, in the order of `x`, for a
    /// `y` inside the shape.
    pub fn column(&self, y: i32) -> (r: Vec<&T>)
        requires
            0 <= y < self.size_spec().y,
        ensures
            r@.len() == self.size_spec().x,
            forall|x: int|
                0 <= x < self.size_spec().x ==> *(#[trigger] r@[x]) == self.cell(x, y as int),
    {
        self.lane_at(y as usize)
    }

    /// The window of this grid from `(start.x, end.x)`, included, to
    /// `(start.y, end.y)`, excluded, as a grid of its own: `start` holds the
    /// two ends along the first axis and `end` the two ends along the
    /// second. A negative end counts from the far side of the axis, and an
    /// end that lies before its start gives an empty window.
    pub fn slice<I: GridPoint>(&self, start: I, end: I) -> (r: Grid2D<T>)
        requires
            slice_fits(self.size_spec().x as int, start.x_spec() as int, start.y_spec() as int),
            slice_fits(self.size_spec().y as int, end.x_spec() as int, end.y_spec() as int),
        ensures
            r.wf(),
            r.size_spec().x == slice_end(
                self.size_spec().x as int,
                start.x_spec() as int,
                start.y_spec() as int,
            ) - abs_index(self.size_spec().x as int, start.x_spec() as int),
            r.size_spec().y == slice_end(
                self.size_spec().y as int,
                end.x_spec() as int,
                end.y_spec() as int,
            ) - abs_index(self.size_spec().y as int, end.x_spec() as int),
            forall|x: int, y: int|
                in_bounds(x, y, r.size_spec().x as int, r.size_spec().y as int)
                    ==> #[trigger] r.cell(
                    x,
                    y,
                ) == self.cell(
                    abs_index(self.size_spec().x as int, start.x_spec() as int) + x,
                    abs_index(self.size_spec().y as int, end.x_spec() as int) + y,
                ),
    {
        proof {
            use_type_invariant(self);
            self.lemma_model();
        }
        let w: i64 = self.size.x as i64;
        let h: i64 = self.size.y as i64;
        let x0: i64 = to_abs(w, start.x());
        let x1: i64 = to_abs(w, start.y());
        let y0: i64 = to_abs(h, end.x());
        let y1: i64 = to_abs(h, end.y());
        let x1: i64 = if x1 < x0 {
            x0
        } else {
            x1
        };
        let y1: i64 = if y1 < y0 {
            y0
        } else {
            y1
        };
        let sw: u32 = (x1 - x0) as u32;
        let sh: u32 = (y1 - y0) as u32;
        assert(0 <= sw * sh <= self.size.x * self.size.y) by (nonlinear_arith)
            requires
                0 <= sw <= self.size.x,
                0 <= sh <= self.size.y,
        ;
        let mut cells: Vec<T> = Vec::new();
        let mut x: u32 = 0;
        proof {
            assert(0 * sh == 0);
        }
        while x < sw
            invariant
                self.inv(),
                w == self.size.x,
                h == self.size.y,
                0 <= x0 <= x0 + sw <= w,
                0 <= y0 <= y0 + sh <= h,
                x <= sw,
                cells@.len() == x * sh,
                forall|a: int, b: int|
                    0 <= a < x && 0 <= b < sh ==> #[trigger] cells@[a * sh + b] == self.cell(
                        x0 + a,
                        y0 + b,
                    ),
            decreases sw - x,
        {
            let mut y: u32 = 0;
            while y < sh
                invariant
                    self.inv(),
                    w == self.size.x,
                    h == self.size.y,
                    0 <= x0 <= x0 + sw <= w,
                    0 <= y0 <= y0 + sh <= h,
                    x < sw,
                    y <= sh,
                    cells@.len() == x * sh + y,
                    forall|a: int, b: int|
                        0 <= a < x && 0 <= b < sh ==> #[trigger] cells@[a * sh + b] == self.cell(
                            x0 + a,
                            y0 + b,
                        ),
                    forall|b: int|
                        0 <= b < y ==> #[trigger] cells@[x * sh + b] == self.cell(x0 + x, y0 + b),
                decreases sh - y,
            {
                let ghost prev = cells@;
                proof {
                    self.lemma_model();
                    self.lemma_slot(x0 + x, y0 + y);
                }
                let idx: usize = (x0 as usize + x as usize) * self.size.y as usize + (y0 as usize
                    + y as usize);
                let c: T = self.cells[idx];
                cells.push(c);
                proof {
                    assert forall|a: int, b: int| 0 <= a < x
                        && 0 <= b < sh implies #[trigger] cells@[a
                        * sh + b] == self.cell(x0 + a, y0 + b) by {
                        lemma_row_major(b, a, sh as int, x as int);
                        assert(sh * x == x * sh) by (nonlinear_arith);
                        assert(cells@[a * sh + b] == prev[a * sh + b]);
                    }
                    assert forall|b: int| 0 <= b < y + 1 implies #[trigger] cells@[x * sh + b]
                        == self.cell(x0 + x, y0 + b) by {
                        if b < y {
                            assert(cells@[x * sh + b] == prev[x * sh + b]);
                        }
                    }
                }
                y += 1;
            }
            proof {
                assert((x + 1) * sh == x * sh + sh) by (nonlinear_arith);
                assert forall|a: int, b: int| 0 <= a < x + 1
                    && 0 <= b < sh implies #[trigger] cells@[a
                    * sh + b] == self.cell(x0 + a, y0 + b) by {
                    if a == x {
                        assert(cells@[x * sh + b] == self.cell(x0 + x, y0 + b));
                    }
                }
            }
            x += 1;
        }
        let r = Grid2D { size: UVec2 { x: sw, y: sh }, cells };
        proof {
            r.lemma_model();
            self.lemma_model();
            assert forall|a: int, b: int|
                in_bounds(a, b, r.size_spec().x as int, r.size_spec().y as int) implies #[trigger] r.cell(
                a,
                b,
            ) == self.cell(
                abs_index(self.size_spec().x as int, start.x_spec() as int) + a,
                abs_index(self.size_spec().y as int, end.x_spec() as int) + b,
            ) by {
                r.lemma_slot(a, b);
                assert(r.cells@[a * sh + b] == self.cell(x0 + a, y0 + b));
            }
        }
        r
    }
}

/// The place that the slice index `index` stands for on an axis of length
/// `len`.
fn to_abs(len: i64, index: i32) -> (r: i64)
    requires
        0 <= len <= u32::MAX,
    ensures
        r == abs_index(len as int, index as int),
{
    if index < 0 {
        len + index as i64
    } else {
        index as i64
    }
}

impl<T: Copy> Grid2D<T> {
    /// The grid of the same shape whose cell at each point is what `f`
    /// returned for this grid's cell at that point.
    pub fn map<F: FnMut(&T) -> T>(self, f: F) -> (r: Self)
        requires
            forall|x: int, y: int|
                in_bounds(x, y, self.size_spec().x as int, self.size_spec().y as int)
                    ==> call_requires(f, (&#[trigger] self.cell(x, y),)),
        ensures
            r.wf(),
            r.size_spec() == self.size_spec(),
            forall|x: int, y: int|
                in_bounds(x, y, self.size_spec().x as int, self.size_spec().y as int)
                    ==> call_ensures(f, (&self.cell(x, y),), #[trigger] r.cell(x, y)),
    {
        Grid2D::new_grid_map_ref(&self, f)
    }

    /// The grid of the same shape, of cells of another type, whose cell at
    /// each point is what `f` returned for this grid's cell at that point.
    pub fn map_ref<U: Copy, F: FnMut(&T) -> U>(&self, f: F) -> (r: Grid2D<U>)
        requires
            forall|x: int, y: int|
                in_bounds(x, y, self.size_spec().x as int, self.size_spec().y as int)
                    ==> call_requires(f, (&#[trigger] self.cell(x, y),)),
        ensures
            r.wf(),
            r.size_spec() == self.size_spec(),
            forall|x: int, y: int|
                in_bounds(x, y, self.size_spec().x as int, self.size_spec().y as int)
                    ==> call_ensures(f, (&self.cell(x, y),), #[trigger] r.cell(x, y)),
    {
        Grid2D::new_grid_map_ref(self, f)
    }

    /// The grid of the same shape whose cell at each point is what `f`
    /// returned for this grid's cell at that point. This grid stays as it
    /// is.
    pub fn map_mut<F: Fn(T) -> T>(&mut self, f: F) -> (r: Self)
        requires
            forall|x: int, y: int|
                in_bounds(x, y, old(self).size_spec().x as int, old(self).size_spec().y as int)
                    ==> call_requires(f, (#[trigger] old(self).cell(x, y),)),
        ensures
            *final(self) == *old(self),
            r.wf(),
            r.size_spec() == old(self).size_spec(),
            forall|x: int, y: int|
                in_bounds(x, y, old(self).size_spec().x as int, old(self).size_spec().y as int)
                    ==> call_ensures(f, (old(self).cell(x, y),), #[trigger] r.cell(x, y)),
    {
        let mut r = self.clone();
        proof {
            use_type_invariant(&*self);
            self.lemma_model();
            r.lemma_model();
            assert forall|x: int, y: int|
                in_bounds(
                    x,
                    y,
                    r.size_spec().x as int,
                    r.size_spec().y as int,
                ) implies call_requires(f, (#[trigger] r.cell(x, y),)) by {
                assert(r.cell(x, y) == self.cell(x, y));
            }
        }
        r.map_inplace(f);
        r
    }

    /// Replaces every cell by what `f` makes of it. The shape stays.
    pub fn map_inplace<F: Fn(T) -> T>(&mut self, f: F)
        requires
            forall|x: int, y: int|
                in_bounds(x, y, old(self).size_spec().x as int, old(self).size_spec().y as int)
                    ==> call_requires(f, (#[trigger] old(self).cell(x, y),)),
        ensures
            final(self).wf(),
            final(self).size_spec() == old(self).size_spec(),
            forall|x: int, y: int|
                in_bounds(x, y, old(self).size_spec().x as int, old(self).size_spec().y as int)
                    ==> call_ensures(f, (old(self).cell(x, y),), #[trigger] final(self).cell(x, y)),
    {
        self.iter_mut(f);
    }

    /// Replaces every cell by what `f` makes of it, for an `f` that may
    /// change as it is called. The shape stays.
    pub fn map_inplace_mut<F: FnMut(T) -> T>(&mut self, f: F)
        requires
            forall|x: int, y: int|
                in_bounds(x, y, old(self).size_spec().x as int, old(self).size_spec().y as int)
                    ==> call_requires(f, (#[trigger] old(self).cell(x, y),)),
        ensures
            final(self).wf(),
            final(self).size_spec() == old(self).size_spec(),
            forall|x: int, y: int|
                in_bounds(x, y, old(self).size_spec().x as int, old(self).size_spec().y as int)
                    ==> call_ensures(f, (old(self).cell(x, y),), #[trigger] final(self).cell(x, y)),
    {
        self.iter_mut(f);
    }

    /// Replaces every cell by what `f` makes of it, in storage order: lane
    /// after lane. The shape stays.
    pub fn iter_mut<F: FnMut(T) -> T>(&mut self, mut f: F)
        requires
            forall|x: int, y: int|
                in_bounds(x, y, old(self).size_spec().x as int, old(self).size_spec().y as int)
                    ==> call_requires(f, (#[trigger] old(self).cell(x, y),)),
        ensures
            final(self).wf(),
            final(self).size_spec() == old(self).size_spec(),
            forall|x: int, y: int|
                in_bounds(x, y, old(self).size_spec().x as int, old(self).size_spec().y as int)
                    ==> call_ensures(f, (old(self).cell(x, y),), #[trigger] final(self).cell(x, y)),
    {
        proof {
            use_type_invariant(&*self);
            self.lemma_model();
        }
        let ghost before = *self;
        let ghost f0 = f;
        let n: usize = self.cells.len();
        let mut i: usize = 0;
        while i < n
            invariant
                f == f0,
                self.inv(),
                before.inv(),
                before == *old(self),
                self.size == before.size,
                n == before.cells@.len(),
                self.cells@.len() == n,
                i <= n,
                forall|x: int, y: int|
                    in_bounds(x, y, before.size.x as int, before.size.y as int) ==> call_requires(
                        f,
                        (#[trigger] before.cell(x, y),),
                    ),
                forall|j: int|
                    0 <= j < i ==> call_ensures(f, (before.cells@[j],), #[trigger] self.cells@[j]),
                forall|j: int| i <= j < n ==> #[trigger] self.cells@[j] == before.cells@[j],
            decreases n - i,
        {
            proof {
                before.lemma_model();
                before.lemma_cell_of(i as int);
            }
            let c: T = self.cells[i];
            let v: T = f(c);
            self.cells[i] = v;
            i += 1;
        }
        proof {
            self.lemma_model();
            before.lemma_model();
            assert forall|x: int, y: int|
                in_bounds(
                    x,
                    y,
                    before.size_spec().x as int,
                    before.size_spec().y as int,
                ) implies call_ensures(f, (before.cell(x, y),), #[trigger] self.cell(x, y)) by {
                self.lemma_slot(x, y);
                before.lemma_slot(x, y);
            }
        }
    }

    /// Replaces every cell by what `f` makes of it, lane by lane from
    /// `x = 0`, each lane in the order of `y`. The shape stays.
    pub fn rows_mut<F: FnMut(T) -> T>(&mut self, f: F)
        requires
            forall|x: int, y: int|
                in_bounds(x, y, old(self).size_spec().x as int, old(self).size_spec().y as int)
                    ==> call_requires(f, (#[trigger] old(self).cell(x, y),)),
        ensures
            final(self).wf(),
            final(self).size_spec() == old(self).size_spec(),
            forall|x: int, y: int|
                in_bounds(x, y, old(self).size_spec().x as int, old(self).size_spec().y as int)
                    ==> call_ensures(f, (old(self).cell(x, y),), #[trigger] final(self).cell(x, y)),
    {
        self.iter_mut(f);
    }

    /// Replaces every cell by what `f` makes of it, lane by lane from
    /// `y = 0`, each lane in the order of `x`. The shape stays.
    pub fn cols_mut<F: FnMut(T) -> T>(&mut self, mut f: F)
        requires
            forall|x: int, y: int|
                in_bounds(x, y, old(self).size_spec().x as int, old(self).size_spec().y as int)
                    ==> call_requires(f, (#[trigger] old(self).cell(x, y),)),
        ensures
            final(self).wf(),
            final(self).size_spec() == old(self).size_spec(),
            forall|x: int, y: int|
                in_bounds(x, y, old(self).size_spec().x as int, old(self).size_spec().y as int)
                    ==> call_ensures(f, (old(self).cell(x, y),), #[trigger] final(self).cell(x, y)),
    {
        proof {
            use_type_invariant(&*self);
            self.lemma_model();
        }
        let w: usize = self.size.x as usize;
        let h: usize = self.size.y as usize;
        let ghost before = *self;
        let ghost f0 = f;
        let mut y: usize = 0;
        while y < h
            invariant
                f == f0,
                self.inv(),
                before.inv(),
                before == *old(self),
                self.size == before.size,
                w == self.size.x,
                h == self.size.y,
                y <= h,
                forall|a: int, b: int|
                    in_bounds(a, b, w as int, h as int) ==> call_requires(
                        f,
                        (#[trigger] before.cell(a, b),),
                    ),
                forall|a: int, b: int|
                    in_bounds(a, b, w as int, h as int) && b < y ==> call_ensures(
                        f,
                        (before.cell(a, b),),
                        #[trigger] self.cell(a, b),
                    ),
                forall|a: int, b: int|
                    in_bounds(a, b, w as int, h as int) && b >= y ==> #[trigger] self.cell(a, b)
                        == before.cell(a, b),
            decreases h - y,
        {
            let mut x: usize = 0;
            while x < w
                invariant
                    f == f0,
                    self.inv(),
                    before.inv(),
                    self.size == before.size,
                    w == self.size.x,
                    h == self.size.y,
                    y < h,
                    x <= w,
                    forall|a: int, b: int|
                        in_bounds(a, b, w as int, h as int) ==> call_requires(
                            f,
                            (#[trigger] before.cell(a, b),),
                        ),
                    forall|a: int, b: int|
                        in_bounds(a, b, w as int, h as int) && (b < y || (b == y && a < x))
                            ==> call_ensures(f, (before.cell(a, b),), #[trigger] self.cell(a, b)),
                    forall|a: int, b: int|
                        in_bounds(a, b, w as int, h as int) && !(b < y || (b == y && a < x))
                            ==> #[trigger] self.cell(a, b) == before.cell(a, b),
                decreases w - x,
            {
                let ghost prev = *self;
                proof {
                    self.lemma_model();
                    self.lemma_slot(x as int, y as int);
                }
                let idx: usize = x * h + y;
                let c: T = self.cells[idx];
                let v: T = f(c);
                self.cells[idx] = v;
                proof {
                    self.lemma_model();
                    prev.lemma_model();
                    assert forall|a: int, b: int|
                        in_bounds(a, b, w as int, h as int) implies #[trigger] self.cell(a, b) == (
                    if a == x && b == y {
                        v
                    } else {
                        prev.cell(a, b)
                    }) by {
                        self.lemma_slot(a, b);
                        prev.lemma_slot(a, b);
                        if !(a == x && b == y) {
                            prev.lemma_slots_differ(a, b, x as int, y as int);
                        }
                    }
                }
                x += 1;
            }
            y += 1;
        }
        proof {
            self.lemma_model();
            old(self).lemma_model();
        }
    }
}

/// In a dense grid that holds `v` at every storage position, as `new` and
/// `fill` leave it, `get` finds `v` at every point inside the shape and
/// nothing at any point outside.
pub proof fn lemma_dense_uniform_get<T: Copy>(g: Grid2D<T>, v: T, x: int, y: int)
    requires
        g.wf(),
        g.data_spec() == Seq::new(g.data_spec().len(), |i: int| v),
    ensures
        g.get_spec(x, y) == if in_bounds(x, y, g.size_spec().x as int, g.size_spec().y as int) {
            Some(v)
        } else {
            None
        },
{
    if in_bounds(x, y, g.size_spec().x as int, g.size_spec().y as int) {
        lemma_row_major(y, x, g.size_spec().y as int, g.size_spec().x as int);
        assert(g.size_spec().y * g.size_spec().x == g.size_spec().x * g.size_spec().y)
            by (nonlinear_arith);
    }
}

/// The map law for dense grids: where `r` is `g` mapped by a function that
/// returns `fs(a)` for every `a`, `r` has the shape of `g`, and `get` finds
/// in `r` at every point what `fs` makes of what `get` finds in `g`.
pub proof fn lemma_dense_map_get<T: Copy, U: Copy, F: FnMut(&T) -> U>(
    g: Grid2D<T>,
    r: Grid2D<U>,
    f: F,
    fs: spec_fn(T) -> U,
    x: int,
    y: int,
)
    requires
        r.size_spec() == g.size_spec(),
        forall|a: int, b: int|
            in_bounds(a, b, g.size_spec().x as int, g.size_spec().y as int) ==> call_ensures(
                f,
                (&g.cell(a, b),),
                #[trigger] r.cell(a, b),
            ),
        forall|a: T, b: U| call_ensures(f, (&a,), b) ==> b == fs(a),
    ensures
        r.get_spec(x, y) == match g.get_spec(x, y) {
            Some(c) => Some(fs(c)),
            None => None,
        },
{
}

/// Filling a dense grid twice is filling it once: where `once` is a grid
/// after `fill(v)` and `twice` is `once` after another `fill(v)`, the two
/// have the same shape and the same cells.
pub proof fn lemma_dense_fill_idempotent<T: Copy>(once: Grid2D<T>, twice: Grid2D<T>, v: T)
    requires
        once.data_spec() == Seq::new(once.data_spec().len(), |i: int| v),
        twice.size_spec() == once.size_spec(),
        twice.data_spec() == Seq::new(once.data_spec().len(), |i: int| v),
    ensures
        twice.size_spec() == once.size_spec(),
        twice.data_spec() == once.data_spec(),
        forall|x: int, y: int| twice.get_spec(x, y) == once.get_spec(x, y),
{
}

/// Where the storage of a dense grid holds the cell at `(x, y)`: at position
/// `x * height + y`, so that `data` hands the cells out lane after lane.
pub proof fn lemma_positions<T: Copy>(g: Grid2D<T>, x: int, y: int)
    requires
        g.wf(),
        in_bounds(x, y, g.size_spec().x as int, g.size_spec().y as int),
    ensures
        0 <= x * g.size_spec().y + y < g.data_spec().len(),
        g.cell(x, y) == g.data_spec()[x * g.size_spec().y + y],
{
    lemma_row_major(y, x, g.size_spec().y as int, g.size_spec().x as int);
    assert(g.size_spec().y * g.size_spec().x == g.size_spec().x * g.size_spec().y)
        by (nonlinear_arith);
}

impl<T: Copy> Clone for Grid2D<T> {
    fn clone(&self) -> (r: Self)
        ensures
            r.wf(),
            r.size_spec() == self.size_spec(),
            r.data_spec() == self.data_spec(),
    {
        proof {
            use_type_invariant(self);
            self.lemma_model();
        }
        let cells: Vec<T> = vstd::slice::slice_to_vec(self.cells.as_slice());
        let r = Grid2D { size: self.size, cells };
        proof {
            r.lemma_model();
        }
        r
    }
}

impl<T: Copy> vstd::std_specs::core::IndexSpecImpl<usize> for Grid2D<T> {
    open spec fn index_req(&self, index: &usize) -> bool {
        *index < self.size_spec().x * self.size_spec().y
    }
}

impl<T: Copy> Index<usize> for Grid2D<T> {
    type Output = T;

    /// The cell whose row-major position is `index`, for a position below
    /// the number of cells.
    fn index(&self, index: usize) -> (r: &T)
        ensures
            *r == self.cell(
                index as int % self.size_spec().x as int,
                index as int / self.size_spec().x as int,
            ),
    {
        proof {
            use_type_invariant(self);
            self.lemma_model();
            lemma_point_at(index as int, self.size.x as int, self.size.y as int);
        }
        let w: usize = self.size.x as usize;
        let x: usize = index % w;
        let y: usize = index / w;
        proof {
            self.lemma_slot(x as int, y as int);
        }
        &self.cells[x * self.size.y as usize + y]
    }
}

impl<T: Copy, P: GridPoint> vstd::std_specs::core::IndexSpecImpl<P> for Grid2D<T> {
    open spec fn index_req(&self, index: &P) -> bool {
        in_bounds(
            index.x_spec() as int,
            index.y_spec() as int,
            self.size_spec().x as int,
            self.size_spec().y as int,
        )
    }
}

impl<T: Copy, P: GridPoint> Index<P> for Grid2D<T> {
    type Output = T;

    /// The cell at `index`, for a point inside the shape.
    fn index(&self, index: P) -> (r: &T)
        ensures
            *r == self.cell(index.x_spec() as int, index.y_spec() as int),
    {
        self.get_checked(index)
    }
}

impl<T: Copy> IndexMut<usize> for Grid2D<T> {
    /// The cell whose row-major position is `index`, open to change, for a
    /// position below the number of cells. Only that cell can change.
    fn index_mut(&mut self, index: usize) -> (r: &mut T)
        requires
            index < old(self).size_spec().x * old(self).size_spec().y,
        ensures
            final(self).size_spec() == old(self).size_spec(),
            *r == old(self).cell(
                index as int % old(self).size_spec().x as int,
                index as int / old(self).size_spec().x as int,
            ),
            final(self).cell(
                index as int % old(self).size_spec().x as int,
                index as int / old(self).size_spec().x as int,
            ) == *final(r),
            forall|x: int, y: int|
                in_bounds(x, y, old(self).size_spec().x as int, old(self).size_spec().y as int)
                    && !(x == index as int % old(self).size_spec().x as int && y == index as int
                    / old(self).size_spec().x as int)
                        ==> #[trigger] final(self).cell(x, y) == old(self).cell(x, y),
    {
        proof {
            use_type_invariant(&*self);
            self.lemma_model();
            lemma_point_at(index as int, self.size.x as int, self.size.y as int);
        }
        let w: usize = self.size.x as usize;
        let x: usize = index % w;
        let y: usize = index / w;
        self.get_mut_checked(IVec2 { x: x as i32, y: y as i32 })
    }
}

impl<T: Copy, P: GridPoint> IndexMut<P> for Grid2D<T> {
    /// The cell at `index`, open to change, for a point inside the shape.
    /// Only that cell can change.
    fn index_mut(&mut self, index: P) -> (r: &mut T)
        requires
            in_bounds(
                index.x_spec() as int,
                index.y_spec() as int,
                old(self).size_spec().x as int,
                old(self).size_spec().y as int,
            ),
        ensures
            final(self).size_spec() == old(self).size_spec(),
            *r == old(self).cell(index.x_spec() as int, index.y_spec() as int),
            final(self).cell(index.x_spec() as int, index.y_spec() as int) == *final(r),
            forall|x: int, y: int|
                in_bounds(x, y, old(self).size_spec().x as int, old(self).size_spec().y as int)
                    && !(x == index.x_spec() && y == index.y_spec())
                        ==> #[trigger] final(self).cell(
                    x,
                    y,
                ) == old(self).cell(x, y),
    {
        self.get_mut_checked(index)
    }
}

} // verus!
