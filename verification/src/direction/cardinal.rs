//! The four cardinal directions.

use crate::axis::Axis;
use crate::direction::direction::Direction;
use crate::direction::iter::{CardinalDirectionIter, DirectionCardinalIter};
use crate::direction::ordinal::OrdinalDirection;
use crate::grid_point::GridPoint;
use crate::vec2::IVec2;
use vstd::prelude::*;

verus! {

/// The number of cardinal directions.
pub const NUM_CARDINAL_DIRECTIONS: usize = 4;

/// The bits of the four cardinal directions in a bitmap.
pub const ALL_CARDINAL_DIRECTION_BITMAP_RAW: u8 = 0x55;

/// North, east, south or west.
#[derive(Debug, Clone, Copy, PartialEq, Eq, Structural, Hash, PartialOrd, Ord)]
pub enum CardinalDirection {
    North,
    East,
    South,
    West,
}

/// `(x, y)` is one step in a cardinal direction.
pub open spec fn is_cardinal_unit(x: int, y: int) -> bool {
    (x == 0 && (y == 1 || y == -1)) || (y == 0 && (x == 1 || x == -1))
}

impl CardinalDirection {
    /// The same direction among the eight.
    pub open spec fn direction_spec(self) -> Direction {
        match self {
            CardinalDirection::North => Direction::North,
            CardinalDirection::East => Direction::East,
            CardinalDirection::South => Direction::South,
            CardinalDirection::West => Direction::West,
        }
    }

    /// The axis along which the direction runs.
    pub open spec fn axis_spec(self) -> Axis {
        match self {
            CardinalDirection::East | CardinalDirection::West => Axis::X,
            CardinalDirection::North | CardinalDirection::South => Axis::Y,
        }
    }

    /// 1 where the direction runs towards larger coordinates, else -1.
    pub open spec fn sign_spec(self) -> i32 {
        match self {
            CardinalDirection::South | CardinalDirection::East => 1i32,
            CardinalDirection::North | CardinalDirection::West => -1i32,
        }
    }

    /// The place of the direction in the clockwise round that starts at
    /// north.
    pub fn index(self) -> (r: usize)
        ensures
            2 * r == self.direction_spec().index_spec(),
            r < NUM_CARDINAL_DIRECTIONS,
    {
        match self {
            CardinalDirection::North => 0,
            CardinalDirection::East => 1,
            CardinalDirection::South => 2,
            CardinalDirection::West => 3,
        }
    }

    /// The cardinal direction whose step is `coord`, for a `coord` that is
    /// one step in a cardinal direction.
    pub fn from_unit_coord<P: GridPoint>(coord: P) -> (r: CardinalDirection)
        requires
            is_cardinal_unit(coord.x_spec() as int, coord.y_spec() as int),
        ensures
            r.direction_spec().coord_spec() == (IVec2 { x: coord.x_spec(), y: coord.y_spec() }),
    {
        let x: i32 = coord.x();
        let y: i32 = coord.y();
        if x == 1 {
            CardinalDirection::East
        } else if x == -1 {
            CardinalDirection::West
        } else if y == 1 {
            CardinalDirection::South
        } else {
            CardinalDirection::North
        }
    }

    /// The same direction among the eight.
    pub fn direction(self) -> (r: Direction)
        ensures
            r == self.direction_spec(),
    {
        match self {
            CardinalDirection::North => Direction::North,
            CardinalDirection::East => Direction::East,
            CardinalDirection::South => Direction::South,
            CardinalDirection::West => Direction::West,
        }
    }

    /// The direction half a turn away.
    pub fn opposite(self) -> (r: CardinalDirection)
        ensures
            r.direction_spec() == self.direction_spec().rotated(4),
    {
        match self {
            CardinalDirection::North => CardinalDirection::South,
            CardinalDirection::East => CardinalDirection::West,
            CardinalDirection::South => CardinalDirection::North,
            CardinalDirection::West => CardinalDirection::East,
        }
    }

    /// The step that the direction takes.
    pub fn coord(self) -> (r: IVec2)
        ensures
            r == self.direction_spec().coord_spec(),
    {
        match self {
            CardinalDirection::North => IVec2::new(0, -1),
            CardinalDirection::East => IVec2::new(1, 0),
            CardinalDirection::South => IVec2::new(0, 1),
            CardinalDirection::West => IVec2::new(-1, 0),
        }
    }

    /// The direction a quarter turn anticlockwise.
    pub fn left90(self) -> (r: CardinalDirection)
        ensures
            r.direction_spec() == self.direction_spec().rotated(6),
    {
        match self {
            CardinalDirection::North => CardinalDirection::West,
            CardinalDirection::East => CardinalDirection::North,
            CardinalDirection::South => CardinalDirection::East,
            CardinalDirection::West => CardinalDirection::South,
        }
    }

    /// The direction a quarter turn clockwise.
    pub fn right90(self) -> (r: CardinalDirection)
        ensures
            r.direction_spec() == self.direction_spec().rotated(2),
    {
        match self {
            CardinalDirection::North => CardinalDirection::East,
            CardinalDirection::East => CardinalDirection::South,
            CardinalDirection::South => CardinalDirection::West,
            CardinalDirection::West => CardinalDirection::North,
        }
    }

    /// The ordinal direction an eighth of a turn anticlockwise.
    pub fn left45(self) -> (r: OrdinalDirection)
        ensures
            r.direction_spec() == self.direction_spec().rotated(7),
    {
        match self {
            CardinalDirection::North => OrdinalDirection::NorthWest,
            CardinalDirection::East => OrdinalDirection::NorthEast,
            CardinalDirection::South => OrdinalDirection::SouthEast,
            CardinalDirection::West => OrdinalDirection::SouthWest,
        }
    }

    /// The ordinal direction an eighth of a turn clockwise.
    pub fn right45(self) -> (r: OrdinalDirection)
        ensures
            r.direction_spec() == self.direction_spec().rotated(1),
    {
        match self {
            CardinalDirection::North => OrdinalDirection::NorthEast,
            CardinalDirection::East => OrdinalDirection::SouthEast,
            CardinalDirection::South => OrdinalDirection::SouthWest,
            CardinalDirection::West => OrdinalDirection::NorthWest,
        }
    }

    /// The ordinal direction three eighths of a turn anticlockwise.
    pub fn left135(self) -> (r: OrdinalDirection)
        ensures
            r.direction_spec() == self.direction_spec().rotated(5),
    {
        match self {
            CardinalDirection::North => OrdinalDirection::SouthWest,
            CardinalDirection::East => OrdinalDirection::NorthWest,
            CardinalDirection::South => OrdinalDirection::NorthEast,
            CardinalDirection::West => OrdinalDirection::SouthEast,
        }
    }

    /// The ordinal direction three eighths of a turn clockwise.
    pub fn right135(self) -> (r: OrdinalDirection)
        ensures
            r.direction_spec() == self.direction_spec().rotated(3),
    {
        match self {
            CardinalDirection::North => OrdinalDirection::SouthEast,
            CardinalDirection::East => OrdinalDirection::SouthWest,
            CardinalDirection::South => OrdinalDirection::NorthWest,
            CardinalDirection::West => OrdinalDirection::NorthEast,
        }
    }

    /// The axis along which the direction runs.
    pub fn axis(self) -> (r: Axis)
        ensures
            r == self.axis_spec(),
    {
        match self {
            CardinalDirection::East | CardinalDirection::West => Axis::X,
            CardinalDirection::North | CardinalDirection::South => Axis::Y,
        }
    }

    /// 1 where the direction runs towards larger coordinates, else -1.
    pub fn sign(self) -> (r: i32)
        ensures
            r == self.sign_spec(),
    {
        match self {
            CardinalDirection::South | CardinalDirection::East => 1,
            CardinalDirection::North | CardinalDirection::West => -1,
        }
    }

    /// The axis and the sign of the direction.
    pub fn axis_and_sign(self) -> (r: (Axis, i32))
        ensures
            r == (self.axis_spec(), self.sign_spec()),
    {
        match self {
            CardinalDirection::North => (Axis::Y, -1),
            CardinalDirection::East => (Axis::X, 1),
            CardinalDirection::South => (Axis::Y, 1),
            CardinalDirection::West => (Axis::X, -1),
        }
    }

    /// A walk over the four cardinal directions, clockwise from north.
    pub fn all() -> (r: CardinalDirectionIter)
        ensures
            r.position() == 0,
    {
        CardinalDirectionIter::new()
    }

    /// A walk over the four cardinal directions as directions among the
    /// eight, clockwise from north.
    pub fn all_directions() -> (r: DirectionCardinalIter)
        ensures
            r.position() == 0,
    {
        DirectionCardinalIter::new()
    }

    /// The ordinal direction between this direction and `other`, where the
    /// two are a quarter turn apart; `None` where they run along one axis.
    pub fn combine(self, other: CardinalDirection) -> (r: Option<OrdinalDirection>)
        ensures
            r.is_some() <==> self.axis_spec() != other.axis_spec(),
            r matches Some(o) ==> o.direction_spec().coord_spec().x
                == self.direction_spec().coord_spec().x + other.direction_spec().coord_spec().x
                && o.direction_spec().coord_spec().y == self.direction_spec().coord_spec().y
                + other.direction_spec().coord_spec().y,
    {
        OrdinalDirection::from_cardinals(self, other)
    }
}

/// The step of a cardinal direction is its sign along its axis and nothing
/// along the other.
pub proof fn lemma_axis_and_sign(c: CardinalDirection)
    ensures
        c.axis_spec().arrange(c.sign_spec(), 0i32) == (
            c.direction_spec().coord_spec().x,
            c.direction_spec().coord_spec().y,
        ),
{
}

impl vstd::std_specs::convert::FromSpecImpl<CardinalDirection> for [i32; 2] {
    open spec fn obeys_from_spec() -> bool {
        true
    }

    open spec fn from_spec(v: CardinalDirection) -> [i32; 2] {
        [v.direction_spec().coord_spec().x, v.direction_spec().coord_spec().y]
    }
}

impl From<CardinalDirection> for [i32; 2] {
    /// The step of the direction as an array, `x` first.
    fn from(v: CardinalDirection) -> (r: [i32; 2]) {
        let c = v.coord();
        [c.x, c.y]
    }
}

impl vstd::std_specs::convert::FromSpecImpl<CardinalDirection> for (i32, i32) {
    open spec fn obeys_from_spec() -> bool {
        true
    }

    open spec fn from_spec(v: CardinalDirection) -> (i32, i32) {
        (v.direction_spec().coord_spec().x, v.direction_spec().coord_spec().y)
    }
}

impl From<CardinalDirection> for (i32, i32) {
    /// The step of the direction as a tuple, `x` first.
    fn from(v: CardinalDirection) -> (r: (i32, i32)) {
        let c = v.coord();
        (c.x, c.y)
    }
}

} // verus!
