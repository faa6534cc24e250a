//! The two axes of the plane.

use crate::size_2d::{check_size_limit, size_fits, DimensionTooLargeForSize, Size2d};
use crate::vec2::{IVec2, UVec2};
use vstd::prelude::*;

verus! {

/// One of the two axes of a grid.
#[derive(Debug, Clone, Copy, Hash, PartialEq, Eq, Structural, PartialOrd, Ord)]
pub enum Axis {
    X,
    Y,
}

impl Axis {
    pub open spec fn other_spec(self) -> Axis {
        match self {
            Axis::X => Axis::Y,
            Axis::Y => Axis::X,
        }
    }

    /// The pair `(x, y)` in which `this_axis` lies along `self` and
    /// `other_axis` along the other axis.
    pub open spec fn arrange<V>(self, this_axis: V, other_axis: V) -> (V, V) {
        match self {
            Axis::X => (this_axis, other_axis),
            Axis::Y => (other_axis, this_axis),
        }
    }

    /// The axis that `self` is not.
    pub fn other(self) -> (r: Axis)
        ensures
            r == self.other_spec(),
    {
        match self {
            Axis::X => Axis::Y,
            Axis::Y => Axis::X,
        }
    }

    /// The point whose coordinate along `self` is `this_axis` and whose
    /// other coordinate is `other_axis`.
    pub fn new_coord(self, this_axis: i32, other_axis: i32) -> (r: IVec2)
        ensures
            (r.x, r.y) == self.arrange(this_axis, other_axis),
    {
        match self {
            Axis::X => IVec2::new(this_axis, other_axis),
            Axis::Y => IVec2::new(other_axis, this_axis),
        }
    }

    /// The extent whose length along `self` is `this_axis` and whose other
    /// length is `other_axis`; an error exactly when one of the two lengths
    /// is over the limit.
    pub fn try_new_size(self, this_axis: u32, other_axis: u32) -> (r: Result<
        UVec2,
        DimensionTooLargeForSize,
    >)
        ensures
            r.is_ok() <==> size_fits(this_axis, other_axis),
            r matches Ok(s) ==> (s.x, s.y) == self.arrange(this_axis, other_axis),
    {
        match check_size_limit(this_axis) {
            Err(e) => Err(e),
            Ok(_) => match check_size_limit(other_axis) {
                Err(e) => Err(e),
                Ok(_) => Ok(self.new_size(this_axis, other_axis)),
            },
        }
    }

    /// The extent whose length along `self` is `this_axis` and whose other
    /// length is `other_axis`, for lengths already known to be within the
    /// limit.
    pub fn new_size(self, this_axis: u32, other_axis: u32) -> (r: UVec2)
        requires
            size_fits(this_axis, other_axis),
        ensures
            (r.x, r.y) == self.arrange(this_axis, other_axis),
    {
        match self {
            Axis::X => UVec2 { x: this_axis, y: other_axis },
            Axis::Y => UVec2 { x: other_axis, y: this_axis },
        }
    }

    pub open spec fn size_spec<S: Size2d>(self, size: S) -> u32 {
        match self {
            Axis::X => size.width_spec(),
            Axis::Y => size.height_spec(),
        }
    }

    /// The length of `size` along `self`.
    pub fn size<S: Size2d>(self, size: S) -> (r: u32)
        ensures
            r == self.size_spec(size),
    {
        match self {
            Axis::X => size.width(),
            Axis::Y => size.height(),
        }
    }
}

/// Taking the other axis twice gives the axis back.
pub proof fn lemma_other_involution(a: Axis)
    ensures
        a.other_spec().other_spec() == a,
        a.other_spec() != a,
{
}

} // verus!
