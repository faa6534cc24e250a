//! Tables that hold one value for each direction of a kind.

use crate::direction::cardinal::CardinalDirection;
use crate::direction::direction::Direction;
use crate::direction::iter::{
    cardinal_at, ordinal_at, CardinalDirectionIter, DirectionIter, OrdinalDirectionIter,
};
use crate::direction::ordinal::OrdinalDirection;
use core::ops::{Index, IndexMut};
use vstd::prelude::*;

verus! {

/// One value of type `T` for each of the 8 directions of the kind
/// `Direction`, held in the order of the clockwise round.
#[derive(Debug, Default, Clone, Copy, PartialEq, Eq, Hash, PartialOrd, Ord)]
pub struct DirectionTable<T> {
    values: [T; 8],
}

impl<T> DirectionTable<T> {
    /// The 8 values in the order of the round.
    pub closed spec fn view(&self) -> Seq<T> {
        self.values@
    }

    /// The place of `direction` in the table.
    pub open spec fn slot(direction: Direction) -> int {
        match direction {
            Direction::North => 0,
            Direction::NorthEast => 1,
            Direction::East => 2,
            Direction::SouthEast => 3,
            Direction::South => 4,
            Direction::SouthWest => 5,
            Direction::West => 6,
            Direction::NorthWest => 7,
        }
    }

    /// The value that the table holds for `direction`.
    pub open spec fn value_spec(&self, direction: Direction) -> T {
        self@[Self::slot(direction)]
    }

    /// A table always holds 8 values.
    pub proof fn lemma_len(&self)
        ensures
            self@.len() == 8,
    {
    }

    /// The table that holds for each direction what `f` returned for it;
    /// `f` is called once for each direction, in the order of the round.
    pub fn new_fn<F: FnMut(Direction) -> T>(mut f: F) -> (r: Self)
        requires
            forall|d: Direction| call_requires(f, (d,)),
        ensures
            forall|d: Direction| call_ensures(f, (d,), #[trigger] r.value_spec(d)),
    {
        let v0: T = f(Direction::North);
        let v1: T = f(Direction::NorthEast);
        let v2: T = f(Direction::East);
        let v3: T = f(Direction::SouthEast);
        let v4: T = f(Direction::South);
        let v5: T = f(Direction::SouthWest);
        let v6: T = f(Direction::West);
        let v7: T = f(Direction::NorthWest);
        let r = DirectionTable { values: [v0, v1, v2, v3, v4, v5, v6, v7] };
        proof {
            assert forall|d: Direction| call_ensures(f, (d,), #[trigger] r.value_spec(d)) by {
                match d {
                    Direction::North => assert(r.value_spec(d) == v0),
                    Direction::NorthEast => assert(r.value_spec(d) == v1),
                    Direction::East => assert(r.value_spec(d) == v2),
                    Direction::SouthEast => assert(r.value_spec(d) == v3),
                    Direction::South => assert(r.value_spec(d) == v4),
                    Direction::SouthWest => assert(r.value_spec(d) == v5),
                    Direction::West => assert(r.value_spec(d) == v6),
                    Direction::NorthWest => assert(r.value_spec(d) == v7),
                }
            }
        }
        r
    }

    /// The table that holds the values of `values`, in the order of the
    /// round.
    pub fn new_array(values: [T; 8]) -> (r: Self)
        ensures
            r@ == values@,
    {
        DirectionTable { values }
    }

    /// Puts `value` in the place of `direction`; the other values stay.
    pub fn set(&mut self, direction: Direction, value: T)
        ensures
            final(self)@ == old(self)@.update(Self::slot(direction), value),
    {
        let i: usize = direction.index();
        self.values[i] = value;
    }

    /// The value for `direction`.
    pub fn get(&self, direction: Direction) -> (r: &T)
        ensures
            *r == self.value_spec(direction),
    {
        let i: usize = direction.index();
        &self.values[i]
    }

    /// The value for `direction`, open to change; the other values stay.
    pub fn get_mut(&mut self, direction: Direction) -> (r: &mut T)
        ensures
            *r == old(self).value_spec(direction),
            final(self)@ == old(self)@.update(Self::slot(direction), *final(r)),
    {
        let i: usize = direction.index();
        &mut self.values[i]
    }

    /// The values in the order of the round.
    pub fn iter(&self) -> (r: &[T])
        ensures
            r@ == self@,
    {
        vstd::array::array_as_slice(&self.values)
    }

    /// A walk over the directions of the table, in the order of the round.
    pub fn directions(&self) -> (r: DirectionIter)
        ensures
            r.position() == 0,
    {
        DirectionIter::new()
    }

    /// Each direction with the value that the table holds for it, in the
    /// order of the round.
    pub fn enumerate(&self) -> (r: Vec<(Direction, &T)>)
        ensures
            r@.len() == 8,
            forall|i: int| 0 <= i < 8 ==> (#[trigger] r@[i]).0 == Direction::from_index_spec(i),
            forall|i: int| 0 <= i < 8 ==> *(#[trigger] r@[i]).1 == self@[i],
    {
        let mut out: Vec<(Direction, &T)> = Vec::with_capacity(8);
        out.push((Direction::North, &self.values[0]));
        out.push((Direction::NorthEast, &self.values[1]));
        out.push((Direction::East, &self.values[2]));
        out.push((Direction::SouthEast, &self.values[3]));
        out.push((Direction::South, &self.values[4]));
        out.push((Direction::SouthWest, &self.values[5]));
        out.push((Direction::West, &self.values[6]));
        out.push((Direction::NorthWest, &self.values[7]));
        out
    }
}

impl<T: Copy> DirectionTable<T> {
    /// The table that holds `value` for every direction.
    pub fn new_clone(value: T) -> (r: Self)
        ensures
            forall|d: Direction| #[trigger] r.value_spec(d) == value,
    {
        DirectionTable { values: [value, value, value, value, value, value, value, value] }
    }
}

impl<T: Default> DirectionTable<T> {
    /// The table that holds for every direction a value that `T::default`
    /// returned.
    pub fn new_default() -> (r: Self)
        ensures
            forall|d: Direction| call_ensures(T::default, (), #[trigger] r.value_spec(d)),
    {
        let v0: T = T::default();
        let v1: T = T::default();
        let v2: T = T::default();
        let v3: T = T::default();
        let v4: T = T::default();
        let v5: T = T::default();
        let v6: T = T::default();
        let v7: T = T::default();
        let r = DirectionTable { values: [v0, v1, v2, v3, v4, v5, v6, v7] };
        proof {
            assert forall|d: Direction| call_ensures(T::default, (), #[trigger] r.value_spec(d)) by {
                match d {
                    Direction::North => assert(r.value_spec(d) == v0),
                    Direction::NorthEast => assert(r.value_spec(d) == v1),
                    Direction::East => assert(r.value_spec(d) == v2),
                    Direction::SouthEast => assert(r.value_spec(d) == v3),
                    Direction::South => assert(r.value_spec(d) == v4),
                    Direction::SouthWest => assert(r.value_spec(d) == v5),
                    Direction::West => assert(r.value_spec(d) == v6),
                    Direction::NorthWest => assert(r.value_spec(d) == v7),
                }
            }
        }
        r
    }
}

/// One value of type `T` for each of the 4 directions of the kind
/// `CardinalDirection`, held in the order of the clockwise round.
#[derive(Debug, Default, Clone, Copy, PartialEq, Eq, Hash, PartialOrd, Ord)]
pub struct CardinalDirectionTable<T> {
    values: [T; 4],
}

impl<T> CardinalDirectionTable<T> {
    /// The 4 values in the order of the round.
    pub closed spec fn view(&self) -> Seq<T> {
        self.values@
    }

    /// The place of `direction` in the table.
    pub open spec fn slot(direction: CardinalDirection) -> int {
        match direction {
            CardinalDirection::North => 0,
            CardinalDirection::East => 1,
            CardinalDirection::South => 2,
            CardinalDirection::West => 3,
        }
    }

    /// The value that the table holds for `direction`.
    pub open spec fn value_spec(&self, direction: CardinalDirection) -> T {
        self@[Self::slot(direction)]
    }

    /// A table always holds 4 values.
    pub proof fn lemma_len(&self)
        ensures
            self@.len() == 4,
    {
    }

    /// The table that holds for each direction what `f` returned for it;
    /// `f` is called once for each direction, in the order of the round.
    pub fn new_fn<F: FnMut(CardinalDirection) -> T>(mut f: F) -> (r: Self)
        requires
            forall|d: CardinalDirection| call_requires(f, (d,)),
        ensures
            forall|d: CardinalDirection| call_ensures(f, (d,), #[trigger] r.value_spec(d)),
    {
        let v0: T = f(CardinalDirection::North);
        let v1: T = f(CardinalDirection::East);
        let v2: T = f(CardinalDirection::South);
        let v3: T = f(CardinalDirection::West);
        let r = CardinalDirectionTable { values: [v0, v1, v2, v3] };
        proof {
            assert forall|d: CardinalDirection| call_ensures(f, (d,), #[trigger] r.value_spec(d)) by {
                match d {
                    CardinalDirection::North => assert(r.value_spec(d) == v0),
                    CardinalDirection::East => assert(r.value_spec(d) == v1),
                    CardinalDirection::South => assert(r.value_spec(d) == v2),
                    CardinalDirection::West => assert(r.value_spec(d) == v3),
                }
            }
        }
        r
    }

    /// The table that holds the values of `values`, in the order of the
    /// round.
    pub fn new_array(values: [T; 4]) -> (r: Self)
        ensures
            r@ == values@,
    {
        CardinalDirectionTable { values }
    }

    /// Puts `value` in the place of `direction`; the other values stay.
    pub fn set(&mut self, direction: CardinalDirection, value: T)
        ensures
            final(self)@ == old(self)@.update(Self::slot(direction), value),
    {
        let i: usize = direction.index();
        self.values[i] = value;
    }

    /// The value for `direction`.
    pub fn get(&self, direction: CardinalDirection) -> (r: &T)
        ensures
            *r == self.value_spec(direction),
    {
        let i: usize = direction.index();
        &self.values[i]
    }

    /// The value for `direction`, open to change; the other values stay.
    pub fn get_mut(&mut self, direction: CardinalDirection) -> (r: &mut T)
        ensures
            *r == old(self).value_spec(direction),
            final(self)@ == old(self)@.update(Self::slot(direction), *final(r)),
    {
        let i: usize = direction.index();
        &mut self.values[i]
    }

    /// The values in the order of the round.
    pub fn iter(&self) -> (r: &[T])
        ensures
            r@ == self@,
    {
        vstd::array::array_as_slice(&self.values)
    }

    /// A walk over the directions of the table, in the order of the round.
    pub fn directions(&self) -> (r: CardinalDirectionIter)
        ensures
            r.position() == 0,
    {
        CardinalDirectionIter::new()
    }

    /// Each direction with the value that the table holds for it, in the
    /// order of the round.
    pub fn enumerate(&self) -> (r: Vec<(CardinalDirection, &T)>)
        ensures
            r@.len() == 4,
            forall|i: int| 0 <= i < 4 ==> (#[trigger] r@[i]).0 == cardinal_at(i),
            forall|i: int| 0 <= i < 4 ==> *(#[trigger] r@[i]).1 == self@[i],
    {
        let mut out: Vec<(CardinalDirection, &T)> = Vec::with_capacity(4);
        out.push((CardinalDirection::North, &self.values[0]));
        out.push((CardinalDirection::East, &self.values[1]));
        out.push((CardinalDirection::South, &self.values[2]));
        out.push((CardinalDirection::West, &self.values[3]));
        out
    }
}

impl<T: Copy> CardinalDirectionTable<T> {
    /// The table that holds `value` for every direction.
    pub fn new_clone(value: T) -> (r: Self)
        ensures
            forall|d: CardinalDirection| #[trigger] r.value_spec(d) == value,
    {
        CardinalDirectionTable { values: [value, value, value, value] }
    }
}

impl<T: Default> CardinalDirectionTable<T> {
    /// The table that holds for every direction a value that `T::default`
    /// returned.
    pub fn new_default() -> (r: Self)
        ensures
            forall|d: CardinalDirection| call_ensures(T::default, (), #[trigger] r.value_spec(d)),
    {
        let v0: T = T::default();
        let v1: T = T::default();
        let v2: T = T::default();
        let v3: T = T::default();
        let r = CardinalDirectionTable { values: [v0, v1, v2, v3] };
        proof {
            assert forall|d: CardinalDirection| call_ensures(T::default, (), #[trigger] r.value_spec(d)) by {
                match d {
                    CardinalDirection::North => assert(r.value_spec(d) == v0),
                    CardinalDirection::East => assert(r.value_spec(d) == v1),
                    CardinalDirection::South => assert(r.value_spec(d) == v2),
                    CardinalDirection::West => assert(r.value_spec(d) == v3),
                }
            }
        }
        r
    }
}

/// One value of type `T` for each of the 4 directions of the kind
/// `OrdinalDirection`, held in the order of the clockwise round.
#[derive(Debug, Default, Clone, Copy, PartialEq, Eq, Hash, PartialOrd, Ord)]
pub struct OrdinalDirectionTable<T> {
    values: [T; 4],
}

impl<T> OrdinalDirectionTable<T> {
    /// The 4 values in the order of the round.
    pub closed spec fn view(&self) -> Seq<T> {
        self.values@
    }

    /// The place of `direction` in the table.
    pub open spec fn slot(direction: OrdinalDirection) -> int {
        match direction {
            OrdinalDirection::NorthEast => 0,
            OrdinalDirection::SouthEast => 1,
            OrdinalDirection::SouthWest => 2,
            OrdinalDirection::NorthWest => 3,
        }
    }

    /// The value that the table holds for `direction`.
    pub open spec fn value_spec(&self, direction: OrdinalDirection) -> T {
        self@[Self::slot(direction)]
    }

    /// A table always holds 4 values.
    pub proof fn lemma_len(&self)
        ensures
            self@.len() == 4,
    {
    }

    /// The table that holds for each direction what `f` returned for it;
    /// `f` is called once for each direction, in the order of the round.
    pub fn new_fn<F: FnMut(OrdinalDirection) -> T>(mut f: F) -> (r: Self)
        requires
            forall|d: OrdinalDirection| call_requires(f, (d,)),
        ensures
            forall|d: OrdinalDirection| call_ensures(f, (d,), #[trigger] r.value_spec(d)),
    {
        let v0: T = f(OrdinalDirection::NorthEast);
        let v1: T = f(OrdinalDirection::SouthEast);
        let v2: T = f(OrdinalDirection::SouthWest);
        let v3: T = f(OrdinalDirection::NorthWest);
        let r = OrdinalDirectionTable { values: [v0, v1, v2, v3] };
        proof {
            assert forall|d: OrdinalDirection| call_ensures(f, (d,), #[trigger] r.value_spec(d)) by {
                match d {
                    OrdinalDirection::NorthEast => assert(r.value_spec(d) == v0),
                    OrdinalDirection::SouthEast => assert(r.value_spec(d) == v1),
                    OrdinalDirection::SouthWest => assert(r.value_spec(d) == v2),
                    OrdinalDirection::NorthWest => assert(r.value_spec(d) == v3),
                }
            }
        }
        r
    }

    /// The table that holds the values of `values`, in the order of the
    /// round.
    pub fn new_array(values: [T; 4]) -> (r: Self)
        ensures
            r@ == values@,
    {
        OrdinalDirectionTable { values }
    }

    /// Puts `value` in the place of `direction`; the other values stay.
    pub fn set(&mut self, direction: OrdinalDirection, value: T)
        ensures
            final(self)@ == old(self)@.update(Self::slot(direction), value),
    {
        let i: usize = direction.index();
        self.values[i] = value;
    }

    /// The value for `direction`.
    pub fn get(&self, direction: OrdinalDirection) -> (r: &T)
        ensures
            *r == self.value_spec(direction),
    {
        let i: usize = direction.index();
        &self.values[i]
    }

    /// The value for `direction`, open to change; the other values stay.
    pub fn get_mut(&mut self, direction: OrdinalDirection) -> (r: &mut T)
        ensures
            *r == old(self).value_spec(direction),
            final(self)@ == old(self)@.update(Self::slot(direction), *final(r)),
    {
        let i: usize = direction.index();
        &mut self.values[i]
    }

    /// The values in the order of the round.
    pub fn iter(&self) -> (r: &[T])
        ensures
            r@ == self@,
    {
        vstd::array::array_as_slice(&self.values)
    }

    /// A walk over the directions of the table, in the order of the round.
    pub fn directions(&self) -> (r: OrdinalDirectionIter)
        ensures
            r.position() == 0,
    {
        OrdinalDirectionIter::new()
    }

    /// Each direction with the value that the table holds for it, in the
    /// order of the round.
    pub fn enumerate(&self) -> (r: Vec<(OrdinalDirection, &T)>)
        ensures
            r@.len() == 4,
            forall|i: int| 0 <= i < 4 ==> (#[trigger] r@[i]).0 == ordinal_at(i),
            forall|i: int| 0 <= i < 4 ==> *(#[trigger] r@[i]).1 == self@[i],
    {
        let mut out: Vec<(OrdinalDirection, &T)> = Vec::with_capacity(4);
        out.push((OrdinalDirection::NorthEast, &self.values[0]));
        out.push((OrdinalDirection::SouthEast, &self.values[1]));
        out.push((OrdinalDirection::SouthWest, &self.values[2]));
        out.push((OrdinalDirection::NorthWest, &self.values[3]));
        out
    }
}

impl<T: Copy> OrdinalDirectionTable<T> {
    /// The table that holds `value` for every direction.
    pub fn new_clone(value: T) -> (r: Self)
        ensures
            forall|d: OrdinalDirection| #[trigger] r.value_spec(d) == value,
    {
        OrdinalDirectionTable { values: [value, value, value, value] }
    }
}

impl<T: Default> OrdinalDirectionTable<T> {
    /// The table that holds for every direction a value that `T::default`
    /// returned.
    pub fn new_default() -> (r: Self)
        ensures
            forall|d: OrdinalDirection| call_ensures(T::default, (), #[trigger] r.value_spec(d)),
    {
        let v0: T = T::default();
        let v1: T = T::default();
        let v2: T = T::default();
        let v3: T = T::default();
        let r = OrdinalDirectionTable { values: [v0, v1, v2, v3] };
        proof {
            assert forall|d: OrdinalDirection| call_ensures(T::default, (), #[trigger] r.value_spec(d)) by {
                match d {
                    OrdinalDirection::NorthEast => assert(r.value_spec(d) == v0),
                    OrdinalDirection::SouthEast => assert(r.value_spec(d) == v1),
                    OrdinalDirection::SouthWest => assert(r.value_spec(d) == v2),
                    OrdinalDirection::NorthWest => assert(r.value_spec(d) == v3),
                }
            }
        }
        r
    }
}

impl<T> vstd::std_specs::core::IndexSpecImpl<Direction> for DirectionTable<T> {
    open spec fn index_req(&self, index: &Direction) -> bool {
        true
    }
}

impl<T> Index<Direction> for DirectionTable<T> {
    type Output = T;

    /// The value for `index`.
    fn index(&self, index: Direction) -> (r: &T)
        ensures
            *r == self.value_spec(index),
    {
        self.get(index)
    }
}

impl<T> vstd::std_specs::core::IndexSpecImpl<CardinalDirection> for CardinalDirectionTable<T> {
    open spec fn index_req(&self, index: &CardinalDirection) -> bool {
        true
    }
}

impl<T> Index<CardinalDirection> for CardinalDirectionTable<T> {
    type Output = T;

    /// The value for `index`.
    fn index(&self, index: CardinalDirection) -> (r: &T)
        ensures
            *r == self.value_spec(index),
    {
        self.get(index)
    }
}

impl<T> vstd::std_specs::core::IndexSpecImpl<OrdinalDirection> for OrdinalDirectionTable<T> {
    open spec fn index_req(&self, index: &OrdinalDirection) -> bool {
        true
    }
}

impl<T> Index<OrdinalDirection> for OrdinalDirectionTable<T> {
    type Output = T;

    /// The value for `index`.
    fn index(&self, index: OrdinalDirection) -> (r: &T)
        ensures
            *r == self.value_spec(index),
    {
        self.get(index)
    }
}

impl<T> IndexMut<Direction> for DirectionTable<T> {
    /// The value for `index`, open to change; the other values stay.
    fn index_mut(&mut self, index: Direction) -> (r: &mut T)
        ensures
            *r == old(self).value_spec(index),
            final(self)@ == old(self)@.update(Self::slot(index), *final(r)),
    {
        self.get_mut(index)
    }
}

impl<T> IndexMut<CardinalDirection> for CardinalDirectionTable<T> {
    /// The value for `index`, open to change; the other values stay.
    fn index_mut(&mut self, index: CardinalDirection) -> (r: &mut T)
        ensures
            *r == old(self).value_spec(index),
            final(self)@ == old(self)@.update(Self::slot(index), *final(r)),
    {
        self.get_mut(index)
    }
}

impl<T> IndexMut<OrdinalDirection> for OrdinalDirectionTable<T> {
    /// The value for `index`, open to change; the other values stay.
    fn index_mut(&mut self, index: OrdinalDirection) -> (r: &mut T)
        ensures
            *r == old(self).value_spec(index),
            final(self)@ == old(self)@.update(Self::slot(index), *final(r)),
    {
        self.get_mut(index)
    }
}

} // verus!
