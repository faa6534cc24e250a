//! An extent that cannot hold cells without an address.

use crate::size_2d::Size2d;
use vstd::prelude::*;

verus! {

/// An extent with hidden lengths. The only value that can be made of it is
/// the empty extent.
#[derive(Debug, Clone, Copy, Hash, PartialEq, Eq, PartialOrd, Ord)]
pub struct Size {
    x: u32,
    y: u32,
}

impl Size2d for Size {
    closed spec fn width_spec(&self) -> u32 {
        self.x
    }

    closed spec fn height_spec(&self) -> u32 {
        self.y
    }

    fn width(&self) -> (r: u32) {
        self.x
    }

    fn height(&self) -> (r: u32) {
        self.y
    }
}

impl Default for Size {
    fn default() -> (r: Size)
        ensures
            r.width_spec() == 0,
            r.height_spec() == 0,
    {
        Size { x: 0, y: 0 }
    }
}

} // verus!
