//! A general purpose coordinate pair.

use crate::grid_point::{canonical, GridPoint};
use vstd::prelude::*;

verus! {

/// A point with public coordinates.
#[derive(Debug, Clone, Copy, Hash, PartialEq, Eq, Structural, PartialOrd, Ord)]
pub struct Coord {
    pub x: i32,
    pub y: i32,
}

impl GridPoint for Coord {
    open spec fn x_spec(&self) -> i32 {
        self.x
    }

    open spec fn y_spec(&self) -> i32 {
        self.y
    }

    fn x(&self) -> (r: i32) {
        self.x
    }

    fn y(&self) -> (r: i32) {
        self.y
    }
}

impl Default for Coord {
    fn default() -> (r: Coord)
        ensures
            r == (Coord { x: 0, y: 0 }),
    {
        Coord { x: 0, y: 0 }
    }
}

/// A `Coord` and its canonical point hold the same two numbers.
pub proof fn lemma_coord_round_trip(p: Coord)
    ensures
        (Coord { x: canonical(p).x, y: canonical(p).y }) == p,
{
}

} // verus!
