//! The ways of measuring the distance between two points.

use vstd::prelude::*;

verus! {

/// A way of measuring the distance between two points of the plane.
#[derive(Debug, Clone, Copy, PartialEq, Eq, Structural)]
pub enum DistanceAlg {
    /// The length of the straight line: the root of the sum of the squares.
    Pythagoras,
    /// The sum of the squares, without the root.
    PythagorasSquared,
    /// The sum of the distances along the two axes.
    Manhattan,
    /// The number of steps of a king on a chess board.
    Chebyshev,
    /// The larger of the distances along the two axes.
    Diagonal,
}

} // verus!
