//! Points: the `GridPoint` abstraction and its adapters.

use crate::size_2d::{in_bounds, Size2d};
use crate::vec2::{wrap_u32, IVec2, UVec2};
use vstd::prelude::*;

verus! {

/// The row-major position of `(x, y)` in rows of `width` cells, computed in
/// `usize` with wrap-around: negative coordinates are read as unsigned, bit
/// for bit, and the product and the sum wrap.
pub open spec fn row_major_index(x: i32, y: i32, width: usize) -> usize {
    vstd::wrapping::usize_specs::wrapping_add(
        vstd::wrapping::usize_specs::wrapping_mul(y as usize, width),
        x as usize,
    )
}

/// A type that stands for a grid cell address.
pub trait GridPoint {
    spec fn x_spec(&self) -> i32;

    spec fn y_spec(&self) -> i32;

    /// The canonical point `(x, y)`.
    fn new(x: i32, y: i32) -> (r: IVec2)
        ensures
            r == (IVec2 { x, y }),
    {
        IVec2 { x, y }
    }

    /// The x coordinate.
    fn x(&self) -> (r: i32)
        ensures
            r == self.x_spec(),
    ;

    /// The y coordinate.
    fn y(&self) -> (r: i32)
        ensures
            r == self.y_spec(),
    ;

    /// The row-major position `y * grid_width + x` of this point. It is
    /// defined for every point; where the point has a negative coordinate or
    /// the position does not fit in `usize`, the result is the wrapped one.
    fn as_index(&self, grid_width: usize) -> (r: usize)
        ensures
            r == row_major_index(self.x_spec(), self.y_spec(), grid_width),
            self.x_spec() >= 0 && self.y_spec() >= 0 && self.y_spec() * grid_width
                + self.x_spec() <= usize::MAX ==> r == self.y_spec() * grid_width + self.x_spec(),
    {
        let x: i32 = self.x();
        let y: i32 = self.y();
        let ux: usize = #[verifier::truncate] (x as usize);
        let uy: usize = #[verifier::truncate] (y as usize);
        proof {
            if x >= 0 && y >= 0 && y * grid_width + x <= usize::MAX {
                assert(0 <= y * grid_width) by (nonlinear_arith)
                    requires
                        0 <= y,
                        0 <= grid_width,
                ;
                assert(ux == x && uy == y);
                assert((uy as nat * grid_width as nat) % (usize::MAX + 1) as nat == uy
                    * grid_width) by (nonlinear_arith)
                    requires
                        0 <= uy * grid_width <= usize::MAX,
                ;
            }
        }
        uy.wrapping_mul(grid_width).wrapping_add(ux)
    }

    /// This point as the canonical point.
    fn as_ivec2(&self) -> (r: IVec2)
        ensures
            r == (IVec2 { x: self.x_spec(), y: self.y_spec() }),
    {
        IVec2 { x: self.x(), y: self.y() }
    }

    /// Both coordinates read as unsigned, bit for bit.
    fn as_uvec2(&self) -> (r: UVec2)
        ensures
            r == (UVec2 { x: wrap_u32(self.x_spec()), y: wrap_u32(self.y_spec()) }),
    {
        self.as_ivec2().as_uvec2()
    }

    /// Both coordinates as an array, `x` first.
    fn as_array(&self) -> (r: [i32; 2])
        ensures
            r@ == seq![self.x_spec(), self.y_spec()],
    {
        self.as_ivec2().to_array()
    }

    /// Both coordinates as a tuple, `x` first.
    fn as_tuple(&self) -> (r: (i32, i32))
        ensures
            r == (self.x_spec(), self.y_spec()),
    {
        (self.x(), self.y())
    }

    /// Both coordinates read as `usize`, bit for bit (a negative coordinate
    /// comes out large).
    fn as_uarray(&self) -> (r: [usize; 2])
        ensures
            r@ == seq![self.x_spec() as usize, self.y_spec() as usize],
    {
        let x: i32 = self.x();
        let y: i32 = self.y();
        [#[verifier::truncate] (x as usize), #[verifier::truncate] (y as usize)]
    }

}

/// The bounds test seen from the point's side. Every `GridPoint` has it.
pub trait GridPointBounds: GridPoint {
    /// Whether this point lies inside `size`.
    fn is_valid<S: Size2d>(&self, size: S) -> (r: bool)
        ensures
            r == in_bounds(
                self.x_spec() as int,
                self.y_spec() as int,
                size.width_spec() as int,
                size.height_spec() as int,
            ),
    ;
}

impl<P: GridPoint> GridPointBounds for P {
    fn is_valid<S: Size2d>(&self, size: S) -> (r: bool) {
        let x: i32 = self.x();
        let y: i32 = self.y();
        x >= 0 && y >= 0 && (x as u32) < size.width() && (y as u32) < size.height()
    }
}

impl GridPoint for IVec2 {
    open spec fn x_spec(&self) -> i32 {
        self.x
    }

    open spec fn y_spec(&self) -> i32 {
        self.y
    }

    fn x(&self) -> (r: i32) {
        self.x
    }

    fn y(&self) -> (r: i32) {
        self.y
    }
}

impl GridPoint for (u32, u32) {
    open spec fn x_spec(&self) -> i32 {
        self.0 as i32
    }

    open spec fn y_spec(&self) -> i32 {
        self.1 as i32
    }

    fn x(&self) -> (r: i32) {
        #[verifier::truncate] (self.0 as i32)
    }

    fn y(&self) -> (r: i32) {
        #[verifier::truncate] (self.1 as i32)
    }
}

impl GridPoint for (i32, i32) {
    open spec fn x_spec(&self) -> i32 {
        self.0
    }

    open spec fn y_spec(&self) -> i32 {
        self.1
    }

    fn x(&self) -> (r: i32) {
        self.0
    }

    fn y(&self) -> (r: i32) {
        self.1
    }
}

impl GridPoint for (usize, usize) {
    open spec fn x_spec(&self) -> i32 {
        self.0 as i32
    }

    open spec fn y_spec(&self) -> i32 {
        self.1 as i32
    }

    fn x(&self) -> (r: i32) {
        #[verifier::truncate] (self.0 as i32)
    }

    fn y(&self) -> (r: i32) {
        #[verifier::truncate] (self.1 as i32)
    }
}

impl GridPoint for UVec2 {
    open spec fn x_spec(&self) -> i32 {
        self.x as i32
    }

    open spec fn y_spec(&self) -> i32 {
        self.y as i32
    }

    fn x(&self) -> (r: i32) {
        #[verifier::truncate] (self.x as i32)
    }

    fn y(&self) -> (r: i32) {
        #[verifier::truncate] (self.y as i32)
    }
}

impl GridPoint for [u32; 2] {
    open spec fn x_spec(&self) -> i32 {
        self[0] as i32
    }

    open spec fn y_spec(&self) -> i32 {
        self[1] as i32
    }

    fn x(&self) -> (r: i32) {
        #[verifier::truncate] (self[0] as i32)
    }

    fn y(&self) -> (r: i32) {
        #[verifier::truncate] (self[1] as i32)
    }
}

impl GridPoint for [i32; 2] {
    open spec fn x_spec(&self) -> i32 {
        self[0]
    }

    open spec fn y_spec(&self) -> i32 {
        self[1]
    }

    fn x(&self) -> (r: i32) {
        self[0]
    }

    fn y(&self) -> (r: i32) {
        self[1]
    }
}

impl GridPoint for [usize; 2] {
    open spec fn x_spec(&self) -> i32 {
        self[0] as i32
    }

    open spec fn y_spec(&self) -> i32 {
        self[1] as i32
    }

    fn x(&self) -> (r: i32) {
        #[verifier::truncate] (self[0] as i32)
    }

    fn y(&self) -> (r: i32) {
        #[verifier::truncate] (self[1] as i32)
    }
}

/// The canonical point that a `GridPoint` stands for: what `as_ivec2`
/// returns.
pub open spec fn canonical<P: GridPoint>(p: P) -> IVec2 {
    IVec2 { x: p.x_spec(), y: p.y_spec() }
}

/// A canonical point is its own canonical point.
pub proof fn lemma_ivec2_round_trip(p: IVec2)
    ensures
        canonical(p) == p,
{
}

/// A tuple of `i32` comes back from its canonical point through `as_tuple`.
pub proof fn lemma_tuple_round_trip(p: (i32, i32))
    ensures
        (canonical(p).x_spec(), canonical(p).y_spec()) == p,
{
}

/// An array of `i32` comes back from its canonical point through
/// `as_array`.
pub proof fn lemma_array_round_trip(p: [i32; 2])
    ensures
        seq![canonical(p).x_spec(), canonical(p).y_spec()] =~= p@,
{
}

/// An unsigned pair comes back from its canonical point through `as_uvec2`,
/// whatever its values.
pub proof fn lemma_uvec2_round_trip(p: UVec2)
    ensures
        (UVec2 { x: wrap_u32(canonical(p).x_spec()), y: wrap_u32(canonical(p).y_spec()) }) == p,
{
    crate::vec2::lemma_wrap_round_trip(p.x, 0);
    crate::vec2::lemma_wrap_round_trip(p.y, 0);
}

/// A tuple of `u32` comes back from its canonical point through `as_uvec2`,
/// whatever its values.
pub proof fn lemma_utuple_round_trip(p: (u32, u32))
    ensures
        (wrap_u32(canonical(p).x_spec()), wrap_u32(canonical(p).y_spec())) == p,
{
    crate::vec2::lemma_wrap_round_trip(p.0, 0);
    crate::vec2::lemma_wrap_round_trip(p.1, 0);
}

/// An array of `usize` whose values fit in an `i32` comes back from its
/// canonical point through `as_uarray`.
pub proof fn lemma_uarray_round_trip(p: [usize; 2])
    requires
        p[0] <= i32::MAX,
        p[1] <= i32::MAX,
    ensures
        seq![canonical(p).x_spec() as usize, canonical(p).y_spec() as usize] =~= p@,
{
}

/// A tuple of `usize` whose values fit in an `i32` comes back from its
/// canonical point through `as_uarray`.
pub proof fn lemma_usize_tuple_round_trip(p: (usize, usize))
    requires
        p.0 <= i32::MAX,
        p.1 <= i32::MAX,
    ensures
        (canonical(p).x_spec() as usize, canonical(p).y_spec() as usize) == p,
{
}

/// An array of `u32` comes back from its canonical point through
/// `as_uvec2`, whatever its values.
pub proof fn lemma_u32_array_round_trip(p: [u32; 2])
    ensures
        seq![wrap_u32(canonical(p).x_spec()), wrap_u32(canonical(p).y_spec())] =~= p@,
{
    crate::vec2::lemma_wrap_round_trip(p[0], 0);
    crate::vec2::lemma_wrap_round_trip(p[1], 0);
}

/// The bounds test gives one answer from the point's side and from the
/// extent's side: both are `in_bounds` of the same four numbers.
pub proof fn lemma_bounds_tests_agree<P: GridPoint, S: Size2d>(p: P, s: S)
    ensures
        in_bounds(
            p.x_spec() as int,
            p.y_spec() as int,
            s.width_spec() as int,
            s.height_spec() as int,
        ) == in_bounds(
            canonical(p).x as int,
            canonical(p).y as int,
            s.width_spec() as int,
            s.height_spec() as int,
        ),
{
}

} // verus!
