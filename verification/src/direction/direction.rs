//! The eight directions of the compass.

use crate::direction::bitmap::DirectionBitmap;
use crate::direction::cardinal::CardinalDirection;
use crate::direction::iter::DirectionIter;
use crate::direction::ordinal::OrdinalDirection;
use crate::grid_point::GridPoint;
use crate::vec2::IVec2;
use vstd::prelude::*;

verus! {

/// The number of directions.
pub const NUM_DIRECTIONS: usize = 8;

/// One of the eight directions, clockwise from north. North points towards
/// smaller `y`.
#[derive(Debug, Clone, Copy, PartialEq, Eq, Structural, Hash, PartialOrd, Ord)]
pub enum Direction {
    North,
    NorthEast,
    East,
    SouthEast,
    South,
    SouthWest,
    West,
    NorthWest,
}

/// A direction as either a cardinal or an ordinal one.
#[derive(Debug, Clone, Copy, PartialEq, Eq, Structural, Hash, PartialOrd, Ord)]
pub enum DirectionType {
    Cardinal(CardinalDirection),
    Ordinal(OrdinalDirection),
}

/// `(x, y)` is one step in one of the eight directions.
pub open spec fn is_unit(x: int, y: int) -> bool {
    -1 <= x <= 1 && -1 <= y <= 1 && !(x == 0 && y == 0)
}

impl Direction {
    /// The place of the direction in the clockwise round that starts at
    /// north: 0 to 7.
    pub open spec fn index_spec(self) -> int {
        match self {
            Direction::North => 0,
            Direction::NorthEast => 1,
            Direction::East => 2,
            Direction::SouthEast => 3,
            Direction::South => 4,
            Direction::SouthWest => 5,
            Direction::West => 6,
            Direction::NorthWest => 7,
        }
    }

    /// The direction at place `i` of the round, for `i` from 0 to 7.
    pub open spec fn from_index_spec(i: int) -> Direction {
        if i == 0 {
            Direction::North
        } else if i == 1 {
            Direction::NorthEast
        } else if i == 2 {
            Direction::East
        } else if i == 3 {
            Direction::SouthEast
        } else if i == 4 {
            Direction::South
        } else if i == 5 {
            Direction::SouthWest
        } else if i == 6 {
            Direction::West
        } else {
            Direction::NorthWest
        }
    }

    /// The direction `eighths` eighths of a turn clockwise from this one.
    pub open spec fn rotated(self, eighths: int) -> Direction {
        Direction::from_index_spec((self.index_spec() + eighths) % 8)
    }

    /// The step that the direction takes.
    pub open spec fn coord_spec(self) -> IVec2 {
        match self {
            Direction::North => IVec2 { x: 0i32, y: -1i32 },
            Direction::NorthEast => IVec2 { x: 1i32, y: -1i32 },
            Direction::East => IVec2 { x: 1i32, y: 0i32 },
            Direction::SouthEast => IVec2 { x: 1i32, y: 1i32 },
            Direction::South => IVec2 { x: 0i32, y: 1i32 },
            Direction::SouthWest => IVec2 { x: -1i32, y: 1i32 },
            Direction::West => IVec2 { x: -1i32, y: 0i32 },
            Direction::NorthWest => IVec2 { x: -1i32, y: -1i32 },
        }
    }

    /// The bit that stands for the direction in a bitmap: bit `index`.
    pub open spec fn bitmap_raw_spec(self) -> u8 {
        match self {
            Direction::North => 1,
            Direction::NorthEast => 2,
            Direction::East => 4,
            Direction::SouthEast => 8,
            Direction::South => 16,
            Direction::SouthWest => 32,
            Direction::West => 64,
            Direction::NorthWest => 128,
        }
    }

    /// The place of the direction in the clockwise round that starts at
    /// north.
    pub fn index(self) -> (r: usize)
        ensures
            r == self.index_spec(),
            r < NUM_DIRECTIONS,
    {
        match self {
            Direction::North => 0,
            Direction::NorthEast => 1,
            Direction::East => 2,
            Direction::SouthEast => 3,
            Direction::South => 4,
            Direction::SouthWest => 5,
            Direction::West => 6,
            Direction::NorthWest => 7,
        }
    }

    /// The direction whose step is `coord`, for a `coord` that is one step in
    /// one of the eight directions.
    pub fn from_unit_coord<P: GridPoint>(coord: P) -> (r: Direction)
        requires
            is_unit(coord.x_spec() as int, coord.y_spec() as int),
        ensures
            r.coord_spec() == (IVec2 { x: coord.x_spec(), y: coord.y_spec() }),
    {
        let x: i32 = coord.x();
        let y: i32 = coord.y();
        if x == 1 {
            if y == 0 {
                Direction::East
            } else if y == 1 {
                Direction::SouthEast
            } else {
                Direction::NorthEast
            }
        } else if x == -1 {
            if y == 0 {
                Direction::West
            } else if y == 1 {
                Direction::SouthWest
            } else {
                Direction::NorthWest
            }
        } else if y == 1 {
            Direction::South
        } else {
            Direction::North
        }
    }

    /// The direction half a turn away.
    pub fn opposite(self) -> (r: Direction)
        ensures
            r == self.rotated(4),
    {
        match self {
            Direction::North => Direction::South,
            Direction::NorthEast => Direction::SouthWest,
            Direction::East => Direction::West,
            Direction::SouthEast => Direction::NorthWest,
            Direction::South => Direction::North,
            Direction::SouthWest => Direction::NorthEast,
            Direction::West => Direction::East,
            Direction::NorthWest => Direction::SouthEast,
        }
    }

    /// The step that the direction takes.
    pub fn coord(self) -> (r: IVec2)
        ensures
            r == self.coord_spec(),
    {
        match self {
            Direction::North => IVec2::new(0, -1),
            Direction::NorthEast => IVec2::new(1, -1),
            Direction::East => IVec2::new(1, 0),
            Direction::SouthEast => IVec2::new(1, 1),
            Direction::South => IVec2::new(0, 1),
            Direction::SouthWest => IVec2::new(-1, 1),
            Direction::West => IVec2::new(-1, 0),
            Direction::NorthWest => IVec2::new(-1, -1),
        }
    }

    /// The direction a quarter turn anticlockwise.
    pub fn left90(self) -> (r: Direction)
        ensures
            r == self.rotated(6),
    {
        match self {
            Direction::North => Direction::West,
            Direction::NorthEast => Direction::NorthWest,
            Direction::East => Direction::North,
            Direction::SouthEast => Direction::NorthEast,
            Direction::South => Direction::East,
            Direction::SouthWest => Direction::SouthEast,
            Direction::West => Direction::South,
            Direction::NorthWest => Direction::SouthWest,
        }
    }

    /// The direction a quarter turn clockwise.
    pub fn right90(self) -> (r: Direction)
        ensures
            r == self.rotated(2),
    {
        match self {
            Direction::North => Direction::East,
            Direction::NorthEast => Direction::SouthEast,
            Direction::East => Direction::South,
            Direction::SouthEast => Direction::SouthWest,
            Direction::South => Direction::West,
            Direction::SouthWest => Direction::NorthWest,
            Direction::West => Direction::North,
            Direction::NorthWest => Direction::NorthEast,
        }
    }

    /// The direction an eighth of a turn anticlockwise.
    pub fn left45(self) -> (r: Direction)
        ensures
            r == self.rotated(7),
    {
        match self {
            Direction::North => Direction::NorthWest,
            Direction::NorthEast => Direction::North,
            Direction::East => Direction::NorthEast,
            Direction::SouthEast => Direction::East,
            Direction::South => Direction::SouthEast,
            Direction::SouthWest => Direction::South,
            Direction::West => Direction::SouthWest,
            Direction::NorthWest => Direction::West,
        }
    }

    /// The direction an eighth of a turn clockwise.
    pub fn right45(self) -> (r: Direction)
        ensures
            r == self.rotated(1),
    {
        match self {
            Direction::North => Direction::NorthEast,
            Direction::NorthEast => Direction::East,
            Direction::East => Direction::SouthEast,
            Direction::SouthEast => Direction::South,
            Direction::South => Direction::SouthWest,
            Direction::SouthWest => Direction::West,
            Direction::West => Direction::NorthWest,
            Direction::NorthWest => Direction::North,
        }
    }

    /// The direction three eighths of a turn anticlockwise.
    pub fn left135(self) -> (r: Direction)
        ensures
            r == self.rotated(5),
    {
        match self {
            Direction::North => Direction::SouthWest,
            Direction::NorthEast => Direction::West,
            Direction::East => Direction::NorthWest,
            Direction::SouthEast => Direction::North,
            Direction::South => Direction::NorthEast,
            Direction::SouthWest => Direction::East,
            Direction::West => Direction::SouthEast,
            Direction::NorthWest => Direction::South,
        }
    }

    /// The direction three eighths of a turn clockwise.
    pub fn right135(self) -> (r: Direction)
        ensures
            r == self.rotated(3),
    {
        match self {
            Direction::North => Direction::SouthEast,
            Direction::NorthEast => Direction::South,
            Direction::East => Direction::SouthWest,
            Direction::SouthEast => Direction::West,
            Direction::South => Direction::NorthWest,
            Direction::SouthWest => Direction::North,
            Direction::West => Direction::NorthEast,
            Direction::NorthWest => Direction::East,
        }
    }

    /// The bit that stands for the direction in a bitmap.
    pub fn bitmap_raw(self) -> (r: u8)
        ensures
            r == self.bitmap_raw_spec(),
    {
        match self {
            Direction::North => 1,
            Direction::NorthEast => 2,
            Direction::East => 4,
            Direction::SouthEast => 8,
            Direction::South => 16,
            Direction::SouthWest => 32,
            Direction::West => 64,
            Direction::NorthWest => 128,
        }
    }

    /// The bitmap that holds this direction alone.
    pub fn bitmap(self) -> (r: DirectionBitmap)
        ensures
            r.raw == self.bitmap_raw_spec(),
    {
        DirectionBitmap::new(self.bitmap_raw())
    }

    /// Whether the direction is north, east, south or west.
    pub fn is_cardinal(self) -> (r: bool)
        ensures
            r == (self.index_spec() % 2 == 0),
    {
        match self {
            Direction::North | Direction::East | Direction::South | Direction::West => true,
            _ => false,
        }
    }

    /// Whether the direction lies between two cardinal directions.
    pub fn is_ordinal(self) -> (r: bool)
        ensures
            r == (self.index_spec() % 2 == 1),
    {
        match self {
            Direction::NorthEast
            | Direction::SouthEast
            | Direction::SouthWest
            | Direction::NorthWest => true,
            _ => false,
        }
    }

    /// The direction as a cardinal or an ordinal one.
    pub fn typ(self) -> (r: DirectionType)
        ensures
            match r {
                DirectionType::Cardinal(c) => c.direction_spec() == self,
                DirectionType::Ordinal(o) => o.direction_spec() == self,
            },
    {
        match self {
            Direction::North => DirectionType::Cardinal(CardinalDirection::North),
            Direction::NorthEast => DirectionType::Ordinal(OrdinalDirection::NorthEast),
            Direction::East => DirectionType::Cardinal(CardinalDirection::East),
            Direction::SouthEast => DirectionType::Ordinal(OrdinalDirection::SouthEast),
            Direction::South => DirectionType::Cardinal(CardinalDirection::South),
            Direction::SouthWest => DirectionType::Ordinal(OrdinalDirection::SouthWest),
            Direction::West => DirectionType::Cardinal(CardinalDirection::West),
            Direction::NorthWest => DirectionType::Ordinal(OrdinalDirection::NorthWest),
        }
    }

    /// The direction as a cardinal one, where it is one.
    pub fn cardinal(self) -> (r: Option<CardinalDirection>)
        ensures
            r.is_some() <==> self.index_spec() % 2 == 0,
            r matches Some(c) ==> c.direction_spec() == self,
    {
        match self {
            Direction::North => Some(CardinalDirection::North),
            Direction::East => Some(CardinalDirection::East),
            Direction::South => Some(CardinalDirection::South),
            Direction::West => Some(CardinalDirection::West),
            _ => None,
        }
    }

    /// The direction as an ordinal one, where it is one.
    pub fn ordinal(self) -> (r: Option<OrdinalDirection>)
        ensures
            r.is_some() <==> self.index_spec() % 2 == 1,
            r matches Some(o) ==> o.direction_spec() == self,
    {
        match self {
            Direction::NorthEast => Some(OrdinalDirection::NorthEast),
            Direction::SouthEast => Some(OrdinalDirection::SouthEast),
            Direction::SouthWest => Some(OrdinalDirection::SouthWest),
            Direction::NorthWest => Some(OrdinalDirection::NorthWest),
            _ => None,
        }
    }

    /// A walk over the eight directions, clockwise from north.
    pub fn all() -> (r: DirectionIter)
        ensures
            r.position() == 0,
    {
        DirectionIter::new()
    }
}

/// Turning by eighths adds up, and eight eighths are a full turn.
pub proof fn lemma_rotations_add(d: Direction, a: int, b: int)
    requires
        0 <= a < 8,
        0 <= b < 8,
    ensures
        d.rotated(a).rotated(b) == d.rotated((a + b) % 8),
        d.rotated(0) == d,
{
}

/// The opposite direction takes the opposite step, and a step determines its
/// direction.
pub proof fn lemma_opposite_step(d: Direction, e: Direction)
    ensures
        d.rotated(4).coord_spec().x == -d.coord_spec().x,
        d.rotated(4).coord_spec().y == -d.coord_spec().y,
        is_unit(d.coord_spec().x as int, d.coord_spec().y as int),
        d.coord_spec() == e.coord_spec() ==> d == e,
{
}

impl vstd::std_specs::convert::FromSpecImpl<Direction> for [i32; 2] {
    open spec fn obeys_from_spec() -> bool {
        true
    }

    open spec fn from_spec(v: Direction) -> [i32; 2] {
        [v.coord_spec().x, v.coord_spec().y]
    }
}

impl From<Direction> for [i32; 2] {
    /// The step of the direction as an array, `x` first.
    fn from(v: Direction) -> (r: [i32; 2]) {
        let c = v.coord();
        [c.x, c.y]
    }
}

impl vstd::std_specs::convert::FromSpecImpl<Direction> for (i32, i32) {
    open spec fn obeys_from_spec() -> bool {
        true
    }

    open spec fn from_spec(v: Direction) -> (i32, i32) {
        (v.coord_spec().x, v.coord_spec().y)
    }
}

impl From<Direction> for (i32, i32) {
    /// The step of the direction as a tuple, `x` first.
    fn from(v: Direction) -> (r: (i32, i32)) {
        let c = v.coord();
        (c.x, c.y)
    }
}

} // verus!
