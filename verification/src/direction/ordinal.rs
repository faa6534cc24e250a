//! The four ordinal directions.

use crate::direction::bitmap::DirectionBitmap;
use crate::direction::cardinal::CardinalDirection;
use crate::direction::direction::Direction;
use crate::direction::iter::{DirectionOrdinalIter, OrdinalDirectionIter};
use crate::grid_point::GridPoint;
use crate::vec2::IVec2;
use vstd::prelude::*;

verus! {

/// The number of ordinal directions.
pub const NUM_ORDINAL_DIRECTIONS: usize = 4;

/// The bits of the four ordinal directions in a bitmap.
pub const ALL_ORDINAL_DIRECTION_BITMAP_RAW: u8 = 0xaa;

/// North-east, south-east, south-west or north-west.
#[derive(Debug, Clone, Copy, PartialEq, Eq, Structural, Hash, PartialOrd, Ord)]
pub enum OrdinalDirection {
    NorthEast,
    SouthEast,
    SouthWest,
    NorthWest,
}

/// `(x, y)` is one step in an ordinal direction.
pub open spec fn is_ordinal_unit(x: int, y: int) -> bool {
    (x == 1 || x == -1) && (y == 1 || y == -1)
}

impl OrdinalDirection {
    /// The same direction among the eight.
    pub open spec fn direction_spec(self) -> Direction {
        match self {
            OrdinalDirection::NorthEast => Direction::NorthEast,
            OrdinalDirection::SouthEast => Direction::SouthEast,
            OrdinalDirection::SouthWest => Direction::SouthWest,
            OrdinalDirection::NorthWest => Direction::NorthWest,
        }
    }

    /// The place of the direction in the clockwise round that starts at
    /// north-east.
    pub fn index(self) -> (r: usize)
        ensures
            2 * r + 1 == self.direction_spec().index_spec(),
            r < NUM_ORDINAL_DIRECTIONS,
    {
        match self {
            OrdinalDirection::NorthEast => 0,
            OrdinalDirection::SouthEast => 1,
            OrdinalDirection::SouthWest => 2,
            OrdinalDirection::NorthWest => 3,
        }
    }

    /// The ordinal direction whose step is `coord`, for a `coord` that is one
    /// step in an ordinal direction.
    pub fn from_unit_coord<P: GridPoint>(coord: P) -> (r: OrdinalDirection)
        requires
            is_ordinal_unit(coord.x_spec() as int, coord.y_spec() as int),
        ensures
            r.direction_spec().coord_spec() == (IVec2 { x: coord.x_spec(), y: coord.y_spec() }),
    {
        let x: i32 = coord.x();
        let y: i32 = coord.y();
        if x == 1 {
            if y == 1 {
                OrdinalDirection::SouthEast
            } else {
                OrdinalDirection::NorthEast
            }
        } else if y == 1 {
            OrdinalDirection::SouthWest
        } else {
            OrdinalDirection::NorthWest
        }
    }

    /// The same direction among the eight.
    pub fn direction(self) -> (r: Direction)
        ensures
            r == self.direction_spec(),
    {
        match self {
            OrdinalDirection::NorthEast => Direction::NorthEast,
            OrdinalDirection::SouthEast => Direction::SouthEast,
            OrdinalDirection::SouthWest => Direction::SouthWest,
            OrdinalDirection::NorthWest => Direction::NorthWest,
        }
    }

    /// The direction half a turn away.
    pub fn opposite(self) -> (r: OrdinalDirection)
        ensures
            r.direction_spec() == self.direction_spec().rotated(4),
    {
        match self {
            OrdinalDirection::NorthEast => OrdinalDirection::SouthWest,
            OrdinalDirection::SouthEast => OrdinalDirection::NorthWest,
            OrdinalDirection::SouthWest => OrdinalDirection::NorthEast,
            OrdinalDirection::NorthWest => OrdinalDirection::SouthEast,
        }
    }

    /// The step that the direction takes.
    pub fn coord(self) -> (r: IVec2)
        ensures
            r == self.direction_spec().coord_spec(),
    {
        match self {
            OrdinalDirection::NorthEast => IVec2::new(1, -1),
            OrdinalDirection::SouthEast => IVec2::new(1, 1),
            OrdinalDirection::SouthWest => IVec2::new(-1, 1),
            OrdinalDirection::NorthWest => IVec2::new(-1, -1),
        }
    }

    /// The direction a quarter turn anticlockwise.
    pub fn left90(self) -> (r: OrdinalDirection)
        ensures
            r.direction_spec() == self.direction_spec().rotated(6),
    {
        match self {
            OrdinalDirection::NorthEast => OrdinalDirection::NorthWest,
            OrdinalDirection::SouthEast => OrdinalDirection::NorthEast,
            OrdinalDirection::SouthWest => OrdinalDirection::SouthEast,
            OrdinalDirection::NorthWest => OrdinalDirection::SouthWest,
        }
    }

    /// The direction a quarter turn clockwise.
    pub fn right90(self) -> (r: OrdinalDirection)
        ensures
            r.direction_spec() == self.direction_spec().rotated(2),
    {
        match self {
            OrdinalDirection::NorthEast => OrdinalDirection::SouthEast,
            OrdinalDirection::SouthEast => OrdinalDirection::SouthWest,
            OrdinalDirection::SouthWest => OrdinalDirection::NorthWest,
            OrdinalDirection::NorthWest => OrdinalDirection::NorthEast,
        }
    }

    /// The cardinal direction an eighth of a turn anticlockwise.
    pub fn left45(self) -> (r: CardinalDirection)
        ensures
            r.direction_spec() == self.direction_spec().rotated(7),
    {
        match self {
            OrdinalDirection::NorthEast => CardinalDirection::North,
            OrdinalDirection::SouthEast => CardinalDirection::East,
            OrdinalDirection::SouthWest => CardinalDirection::South,
            OrdinalDirection::NorthWest => CardinalDirection::West,
        }
    }

    /// The cardinal direction an eighth of a turn clockwise.
    pub fn right45(self) -> (r: CardinalDirection)
        ensures
            r.direction_spec() == self.direction_spec().rotated(1),
    {
        match self {
            OrdinalDirection::NorthEast => CardinalDirection::East,
            OrdinalDirection::SouthEast => CardinalDirection::South,
            OrdinalDirection::SouthWest => CardinalDirection::West,
            OrdinalDirection::NorthWest => CardinalDirection::North,
        }
    }

    /// The cardinal direction three eighths of a turn anticlockwise.
    pub fn left135(self) -> (r: CardinalDirection)
        ensures
            r.direction_spec() == self.direction_spec().rotated(5),
    {
        match self {
            OrdinalDirection::NorthEast => CardinalDirection::West,
            OrdinalDirection::SouthEast => CardinalDirection::North,
            OrdinalDirection::SouthWest => CardinalDirection::East,
            OrdinalDirection::NorthWest => CardinalDirection::South,
        }
    }

    /// The cardinal direction three eighths of a turn clockwise.
    pub fn right135(self) -> (r: CardinalDirection)
        ensures
            r.direction_spec() == self.direction_spec().rotated(3),
    {
        match self {
            OrdinalDirection::NorthEast => CardinalDirection::South,
            OrdinalDirection::SouthEast => CardinalDirection::West,
            OrdinalDirection::SouthWest => CardinalDirection::North,
            OrdinalDirection::NorthWest => CardinalDirection::East,
        }
    }

    /// The ordinal direction between `a` and `b`, where the two are a quarter
    /// turn apart; `None` where they run along one axis.
    pub fn from_cardinals(a: CardinalDirection, b: CardinalDirection) -> (r: Option<
        OrdinalDirection,
    >)
        ensures
            r.is_some() <==> a.axis_spec() != b.axis_spec(),
            r matches Some(o) ==> o.direction_spec().coord_spec().x
                == a.direction_spec().coord_spec().x + b.direction_spec().coord_spec().x
                && o.direction_spec().coord_spec().y == a.direction_spec().coord_spec().y
                + b.direction_spec().coord_spec().y,
    {
        match a {
            CardinalDirection::North => match b {
                CardinalDirection::East => Some(OrdinalDirection::NorthEast),
                CardinalDirection::West => Some(OrdinalDirection::NorthWest),
                _ => None,
            },
            CardinalDirection::East => match b {
                CardinalDirection::North => Some(OrdinalDirection::NorthEast),
                CardinalDirection::South => Some(OrdinalDirection::SouthEast),
                _ => None,
            },
            CardinalDirection::South => match b {
                CardinalDirection::East => Some(OrdinalDirection::SouthEast),
                CardinalDirection::West => Some(OrdinalDirection::SouthWest),
                _ => None,
            },
            CardinalDirection::West => match b {
                CardinalDirection::North => Some(OrdinalDirection::NorthWest),
                CardinalDirection::South => Some(OrdinalDirection::SouthWest),
                _ => None,
            },
        }
    }

    /// The two cardinal directions on either side: first the one an eighth
    /// of a turn anticlockwise, then the one an eighth of a turn clockwise.
    pub fn to_cardinals(self) -> (r: (CardinalDirection, CardinalDirection))
        ensures
            r.0.direction_spec() == self.direction_spec().rotated(7),
            r.1.direction_spec() == self.direction_spec().rotated(1),
    {
        match self {
            OrdinalDirection::NorthEast => (CardinalDirection::North, CardinalDirection::East),
            OrdinalDirection::SouthEast => (CardinalDirection::East, CardinalDirection::South),
            OrdinalDirection::SouthWest => (CardinalDirection::South, CardinalDirection::West),
            OrdinalDirection::NorthWest => (CardinalDirection::West, CardinalDirection::North),
        }
    }

    /// The bitmap that holds the two cardinal directions on either side.
    pub fn cardinal_bitmap(self) -> (r: DirectionBitmap)
        ensures
            r.raw == self.direction_spec().rotated(7).bitmap_raw_spec()
                | self.direction_spec().rotated(1).bitmap_raw_spec(),
    {
        let (a, b) = self.to_cardinals();
        a.direction().bitmap().or(b.direction().bitmap())
    }

    /// A walk over the four ordinal directions, clockwise from north-east.
    pub fn all() -> (r: OrdinalDirectionIter)
        ensures
            r.position() == 0,
    {
        OrdinalDirectionIter::new()
    }

    /// A walk over the four ordinal directions as directions among the
    /// eight, clockwise from north-east.
    pub fn all_directions() -> (r: DirectionOrdinalIter)
        ensures
            r.position() == 0,
    {
        DirectionOrdinalIter::new()
    }
}

/// An ordinal direction is what `from_cardinals` makes of the two cardinal
/// directions on either side of it, in either order.
pub proof fn lemma_cardinals_round_trip(
    o: OrdinalDirection,
    a: CardinalDirection,
    b: CardinalDirection,
)
    requires
        a.direction_spec() == o.direction_spec().rotated(7),
        b.direction_spec() == o.direction_spec().rotated(1),
    ensures
        o.direction_spec().coord_spec().x == a.direction_spec().coord_spec().x
            + b.direction_spec().coord_spec().x,
        o.direction_spec().coord_spec().y == a.direction_spec().coord_spec().y
            + b.direction_spec().coord_spec().y,
        a.axis_spec() != b.axis_spec(),
{
}

impl vstd::std_specs::convert::FromSpecImpl<OrdinalDirection> for [i32; 2] {
    open spec fn obeys_from_spec() -> bool {
        true
    }

    open spec fn from_spec(v: OrdinalDirection) -> [i32; 2] {
        [v.direction_spec().coord_spec().x, v.direction_spec().coord_spec().y]
    }
}

impl From<OrdinalDirection> for [i32; 2] {
    /// The step of the direction as an array, `x` first.
    fn from(v: OrdinalDirection) -> (r: [i32; 2]) {
        let c = v.coord();
        [c.x, c.y]
    }
}

impl vstd::std_specs::convert::FromSpecImpl<OrdinalDirection> for (i32, i32) {
    open spec fn obeys_from_spec() -> bool {
        true
    }

    open spec fn from_spec(v: OrdinalDirection) -> (i32, i32) {
        (v.direction_spec().coord_spec().x, v.direction_spec().coord_spec().y)
    }
}

impl From<OrdinalDirection> for (i32, i32) {
    /// The step of the direction as a tuple, `x` first.
    fn from(v: OrdinalDirection) -> (r: (i32, i32)) {
        let c = v.coord();
        (c.x, c.y)
    }
}

} // verus!
