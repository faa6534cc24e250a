//! Walks over all directions of a kind, clockwise.

use crate::direction::cardinal::CardinalDirection;
use crate::direction::direction::Direction;
use crate::direction::ordinal::OrdinalDirection;
use vstd::prelude::*;

verus! {

/// The cardinal direction at place `i` of the clockwise round that starts at
/// north.
pub open spec fn cardinal_at(i: int) -> CardinalDirection {
    if i == 0 {
        CardinalDirection::North
    } else if i == 1 {
        CardinalDirection::East
    } else if i == 2 {
        CardinalDirection::South
    } else {
        CardinalDirection::West
    }
}

/// The ordinal direction at place `i` of the clockwise round that starts at
/// north-east.
pub open spec fn ordinal_at(i: int) -> OrdinalDirection {
    if i == 0 {
        OrdinalDirection::NorthEast
    } else if i == 1 {
        OrdinalDirection::SouthEast
    } else if i == 2 {
        OrdinalDirection::SouthWest
    } else {
        OrdinalDirection::NorthWest
    }
}

/// The direction at place `i` of the clockwise round that starts at north.
pub fn direction_at(i: u8) -> (r: Direction)
    requires
        i < 8,
    ensures
        r == Direction::from_index_spec(i as int),
{
    if i == 0 {
        Direction::North
    } else if i == 1 {
        Direction::NorthEast
    } else if i == 2 {
        Direction::East
    } else if i == 3 {
        Direction::SouthEast
    } else if i == 4 {
        Direction::South
    } else if i == 5 {
        Direction::SouthWest
    } else if i == 6 {
        Direction::West
    } else {
        Direction::NorthWest
    }
}

/// The cardinal direction at place `i` of the clockwise round that starts at
/// north.
pub fn cardinal_direction_at(i: u8) -> (r: CardinalDirection)
    requires
        i < 4,
    ensures
        r == cardinal_at(i as int),
{
    if i == 0 {
        CardinalDirection::North
    } else if i == 1 {
        CardinalDirection::East
    } else if i == 2 {
        CardinalDirection::South
    } else {
        CardinalDirection::West
    }
}

/// The ordinal direction at place `i` of the clockwise round that starts at
/// north-east.
pub fn ordinal_direction_at(i: u8) -> (r: OrdinalDirection)
    requires
        i < 4,
    ensures
        r == ordinal_at(i as int),
{
    if i == 0 {
        OrdinalDirection::NorthEast
    } else if i == 1 {
        OrdinalDirection::SouthEast
    } else if i == 2 {
        OrdinalDirection::SouthWest
    } else {
        OrdinalDirection::NorthWest
    }
}

/// A single-pass walk over the eight directions, clockwise from north.
#[derive(Debug, Clone)]
pub struct DirectionIter {
    next: u8,
}

impl DirectionIter {
    /// How many directions have been handed out.
    pub closed spec fn position(self) -> int {
        if self.next >= 8 {
            8
        } else {
            self.next as int
        }
    }

    /// The direction at place `i` of the walk.
    pub open spec fn item_spec(i: int) -> Direction {
        Direction::from_index_spec(i)
    }

    /// The directions still to come, in order.
    pub open spec fn remaining(self) -> Seq<Direction> {
        Seq::new((8 - self.position()) as nat, |k: int| Self::item_spec(self.position() + k))
    }

    /// A walk that starts at the first direction.
    pub fn new() -> (r: DirectionIter)
        ensures
            r.position() == 0,
    {
        DirectionIter { next: 0 }
    }

    /// Hands out the next direction, or `None` once all 8 have been
    /// handed out.
    pub fn next(&mut self) -> (r: Option<Direction>)
        ensures
            0 <= old(self).position() <= 8,
            old(self).position() < 8 ==> r == Some(Self::item_spec(old(self).position()))
                && final(self).position() == old(self).position() + 1,
            old(self).position() == 8 ==> r.is_none() && final(self).position() == 8,
    {
        if self.next >= 8 {
            return None;
        }
        let i: u8 = self.next;
        self.next = i + 1;
        Some(direction_at(i))
    }

    /// The directions still to come, collected in order.
    pub fn to_vec(self) -> (r: Vec<Direction>)
        ensures
            r@ == self.remaining(),
    {
        let mut it = self;
        let mut out: Vec<Direction> = Vec::new();
        let ghost start = self.position();
        loop
            invariant
                start == self.position(),
                start <= it.position() <= 8,
                out@.len() == it.position() - start,
                forall|k: int| 0 <= k < out@.len()
                    ==> #[trigger] out@[k] == Self::item_spec(start + k),
            decreases 8 - it.position(),
        {
            match it.next() {
                None => {
                    assert(out@ =~= self.remaining());
                    return out;
                },
                Some(d) => {
                    out.push(d);
                },
            }
        }
    }
}

/// The collection of the eight directions.
#[derive(Debug, Clone, Copy)]
pub struct Directions;

impl Directions {
    /// A walk over the collection from its first direction.
    pub fn into_iter(self) -> (r: DirectionIter)
        ensures
            r.position() == 0,
    {
        DirectionIter::new()
    }
}

/// A single-pass walk over the four cardinal directions, clockwise from north.
#[derive(Debug, Clone)]
pub struct CardinalDirectionIter {
    next: u8,
}

impl CardinalDirectionIter {
    /// How many directions have been handed out.
    pub closed spec fn position(self) -> int {
        if self.next >= 4 {
            4
        } else {
            self.next as int
        }
    }

    /// The direction at place `i` of the walk.
    pub open spec fn item_spec(i: int) -> CardinalDirection {
        cardinal_at(i)
    }

    /// The directions still to come, in order.
    pub open spec fn remaining(self) -> Seq<CardinalDirection> {
        Seq::new((4 - self.position()) as nat, |k: int| Self::item_spec(self.position() + k))
    }

    /// A walk that starts at the first direction.
    pub fn new() -> (r: CardinalDirectionIter)
        ensures
            r.position() == 0,
    {
        CardinalDirectionIter { next: 0 }
    }

    /// Hands out the next direction, or `None` once all 4 have been
    /// handed out.
    pub fn next(&mut self) -> (r: Option<CardinalDirection>)
        ensures
            0 <= old(self).position() <= 4,
            old(self).position() < 4 ==> r == Some(Self::item_spec(old(self).position()))
                && final(self).position() == old(self).position() + 1,
            old(self).position() == 4 ==> r.is_none() && final(self).position() == 4,
    {
        if self.next >= 4 {
            return None;
        }
        let i: u8 = self.next;
        self.next = i + 1;
        Some(cardinal_direction_at(i))
    }

    /// The directions still to come, collected in order.
    pub fn to_vec(self) -> (r: Vec<CardinalDirection>)
        ensures
            r@ == self.remaining(),
    {
        let mut it = self;
        let mut out: Vec<CardinalDirection> = Vec::new();
        let ghost start = self.position();
        loop
            invariant
                start == self.position(),
                start <= it.position() <= 4,
                out@.len() == it.position() - start,
                forall|k: int| 0 <= k < out@.len()
                    ==> #[trigger] out@[k] == Self::item_spec(start + k),
            decreases 4 - it.position(),
        {
            match it.next() {
                None => {
                    assert(out@ =~= self.remaining());
                    return out;
                },
                Some(d) => {
                    out.push(d);
                },
            }
        }
    }
}

/// The collection of the four cardinal directions.
#[derive(Debug, Clone, Copy)]
pub struct CardinalDirections;

impl CardinalDirections {
    /// A walk over the collection from its first direction.
    pub fn into_iter(self) -> (r: CardinalDirectionIter)
        ensures
            r.position() == 0,
    {
        CardinalDirectionIter::new()
    }
}

/// A single-pass walk over the four ordinal directions, clockwise from north-east.
#[derive(Debug, Clone)]
pub struct OrdinalDirectionIter {
    next: u8,
}

impl OrdinalDirectionIter {
    /// How many directions have been handed out.
    pub closed spec fn position(self) -> int {
        if self.next >= 4 {
            4
        } else {
            self.next as int
        }
    }

    /// The direction at place `i` of the walk.
    pub open spec fn item_spec(i: int) -> OrdinalDirection {
        ordinal_at(i)
    }

    /// The directions still to come, in order.
    pub open spec fn remaining(self) -> Seq<OrdinalDirection> {
        Seq::new((4 - self.position()) as nat, |k: int| Self::item_spec(self.position() + k))
    }

    /// A walk that starts at the first direction.
    pub fn new() -> (r: OrdinalDirectionIter)
        ensures
            r.position() == 0,
    {
        OrdinalDirectionIter { next: 0 }
    }

    /// Hands out the next direction, or `None` once all 4 have been
    /// handed out.
    pub fn next(&mut self) -> (r: Option<OrdinalDirection>)
        ensures
            0 <= old(self).position() <= 4,
            old(self).position() < 4 ==> r == Some(Self::item_spec(old(self).position()))
                && final(self).position() == old(self).position() + 1,
            old(self).position() == 4 ==> r.is_none() && final(self).position() == 4,
    {
        if self.next >= 4 {
            return None;
        }
        let i: u8 = self.next;
        self.next = i + 1;
        Some(ordinal_direction_at(i))
    }

    /// The directions still to come, collected in order.
    pub fn to_vec(self) -> (r: Vec<OrdinalDirection>)
        ensures
            r@ == self.remaining(),
    {
        let mut it = self;
        let mut out: Vec<OrdinalDirection> = Vec::new();
        let ghost start = self.position();
        loop
            invariant
                start == self.position(),
                start <= it.position() <= 4,
                out@.len() == it.position() - start,
                forall|k: int| 0 <= k < out@.len()
                    ==> #[trigger] out@[k] == Self::item_spec(start + k),
            decreases 4 - it.position(),
        {
            match it.next() {
                None => {
                    assert(out@ =~= self.remaining());
                    return out;
                },
                Some(d) => {
                    out.push(d);
                },
            }
        }
    }
}

/// The collection of the four ordinal directions.
#[derive(Debug, Clone, Copy)]
pub struct OrdinalDirections;

impl OrdinalDirections {
    /// A walk over the collection from its first direction.
    pub fn into_iter(self) -> (r: OrdinalDirectionIter)
        ensures
            r.position() == 0,
    {
        OrdinalDirectionIter::new()
    }
}

/// A single-pass walk over the four cardinal directions as directions among
/// the eight, clockwise from north.
#[derive(Debug, Clone)]
pub struct DirectionCardinalIter {
    next: u8,
}

impl DirectionCardinalIter {
    /// How many directions have been handed out.
    pub closed spec fn position(self) -> int {
        if self.next >= 4 {
            4
        } else {
            self.next as int
        }
    }

    /// The direction at place `i` of the walk.
    pub open spec fn item_spec(i: int) -> Direction {
        cardinal_at(i).direction_spec()
    }

    /// The directions still to come, in order.
    pub open spec fn remaining(self) -> Seq<Direction> {
        Seq::new((4 - self.position()) as nat, |k: int| Self::item_spec(self.position() + k))
    }

    /// A walk that starts at the first direction.
    pub fn new() -> (r: DirectionCardinalIter)
        ensures
            r.position() == 0,
    {
        DirectionCardinalIter { next: 0 }
    }

    /// Hands out the next direction, or `None` once all 4 have been
    /// handed out.
    pub fn next(&mut self) -> (r: Option<Direction>)
        ensures
            0 <= old(self).position() <= 4,
            old(self).position() < 4 ==> r == Some(Self::item_spec(old(self).position()))
                && final(self).position() == old(self).position() + 1,
            old(self).position() == 4 ==> r.is_none() && final(self).position() == 4,
    {
        if self.next >= 4 {
            return None;
        }
        let i: u8 = self.next;
        self.next = i + 1;
        Some(cardinal_direction_at(i).direction())
    }

    /// The directions still to come, collected in order.
    pub fn to_vec(self) -> (r: Vec<Direction>)
        ensures
            r@ == self.remaining(),
    {
        let mut it = self;
        let mut out: Vec<Direction> = Vec::new();
        let ghost start = self.position();
        loop
            invariant
                start == self.position(),
                start <= it.position() <= 4,
                out@.len() == it.position() - start,
                forall|k: int| 0 <= k < out@.len()
                    ==> #[trigger] out@[k] == Self::item_spec(start + k),
            decreases 4 - it.position(),
        {
            match it.next() {
                None => {
                    assert(out@ =~= self.remaining());
                    return out;
                },
                Some(d) => {
                    out.push(d);
                },
            }
        }
    }
}

/// The collection of the four cardinal directions as directions among the eight.
#[derive(Debug, Clone, Copy)]
pub struct DirectionsCardinal;

impl DirectionsCardinal {
    /// A walk over the collection from its first direction.
    pub fn into_iter(self) -> (r: DirectionCardinalIter)
        ensures
            r.position() == 0,
    {
        DirectionCardinalIter::new()
    }
}

/// A single-pass walk over the four ordinal directions as directions among the
/// eight, clockwise from north-east.
#[derive(Debug, Clone)]
pub struct DirectionOrdinalIter {
    next: u8,
}

impl DirectionOrdinalIter {
    /// How many directions have been handed out.
    pub closed spec fn position(self) -> int {
        if self.next >= 4 {
            4
        } else {
            self.next as int
        }
    }

    /// The direction at place `i` of the walk.
    pub open spec fn item_spec(i: int) -> Direction {
        ordinal_at(i).direction_spec()
    }

    /// The directions still to come, in order.
    pub open spec fn remaining(self) -> Seq<Direction> {
        Seq::new((4 - self.position()) as nat, |k: int| Self::item_spec(self.position() + k))
    }

    /// A walk that starts at the first direction.
    pub fn new() -> (r: DirectionOrdinalIter)
        ensures
            r.position() == 0,
    {
        DirectionOrdinalIter { next: 0 }
    }

    /// Hands out the next direction, or `None` once all 4 have been
    /// handed out.
    pub fn next(&mut self) -> (r: Option<Direction>)
        ensures
            0 <= old(self).position() <= 4,
            old(self).position() < 4 ==> r == Some(Self::item_spec(old(self).position()))
                && final(self).position() == old(self).position() + 1,
            old(self).position() == 4 ==> r.is_none() && final(self).position() == 4,
    {
        if self.next >= 4 {
            return None;
        }
        let i: u8 = self.next;
        self.next = i + 1;
        Some(ordinal_direction_at(i).direction())
    }

    /// The directions still to come, collected in order.
    pub fn to_vec(self) -> (r: Vec<Direction>)
        ensures
            r@ == self.remaining(),
    {
        let mut it = self;
        let mut out: Vec<Direction> = Vec::new();
        let ghost start = self.position();
        loop
            invariant
                start == self.position(),
                start <= it.position() <= 4,
                out@.len() == it.position() - start,
                forall|k: int| 0 <= k < out@.len()
                    ==> #[trigger] out@[k] == Self::item_spec(start + k),
            decreases 4 - it.position(),
        {
            match it.next() {
                None => {
                    assert(out@ =~= self.remaining());
                    return out;
                },
                Some(d) => {
                    out.push(d);
                },
            }
        }
    }
}

/// The collection of the four ordinal directions as directions among the eight.
#[derive(Debug, Clone, Copy)]
pub struct DirectionsOrdinal;

impl DirectionsOrdinal {
    /// A walk over the collection from its first direction.
    pub fn into_iter(self) -> (r: DirectionOrdinalIter)
        ensures
            r.position() == 0,
    {
        DirectionOrdinalIter::new()
    }
}

} // verus!
