//! Sets of directions held as the bits of one byte.

use crate::direction::cardinal::ALL_CARDINAL_DIRECTION_BITMAP_RAW;
use crate::direction::direction::Direction;
use crate::direction::ordinal::ALL_ORDINAL_DIRECTION_BITMAP_RAW;
use core::ops::{BitAnd, BitAndAssign, BitOr, BitOrAssign};
use vstd::prelude::*;
use vstd::std_specs::ops::{BitAndSpecImpl, BitOrSpecImpl};

verus! {

/// The byte of the empty set.
pub const NO_DIRECTIONS_BITMAP_RAW: u8 = 0;

/// The byte of the set of all eight directions.
pub const ALL_DIRECTIONS_BITMAP_RAW: u8 = 0xff;

/// A set of directions: the direction at place `i` of the clockwise round is
/// in the set exactly when bit `i` of `raw` is set.
#[derive(Debug, Clone, Copy, PartialEq, Eq, Structural, Hash, PartialOrd, Ord)]
pub struct DirectionBitmap {
    pub raw: u8,
}

impl DirectionBitmap {
    /// Whether `direction` is in the set.
    pub open spec fn has_spec(self, direction: Direction) -> bool {
        self.raw & direction.bitmap_raw_spec() != 0
    }

    /// The set of directions that the byte stands for.
    pub open spec fn view(self) -> Set<Direction> {
        Set::new(|d: Direction| self.has_spec(d))
    }

    /// The set that the byte `raw` stands for.
    pub fn new(raw: u8) -> (r: DirectionBitmap)
        ensures
            r.raw == raw,
    {
        DirectionBitmap { raw }
    }

    /// The empty set.
    pub fn empty() -> (r: DirectionBitmap)
        ensures
            r.raw == NO_DIRECTIONS_BITMAP_RAW,
            forall|d: Direction| !r.has_spec(d),
    {
        let r = DirectionBitmap { raw: NO_DIRECTIONS_BITMAP_RAW };
        proof {
            lemma_known_sets();
        }
        r
    }

    /// The set of all eight directions.
    pub fn all() -> (r: DirectionBitmap)
        ensures
            r.raw == ALL_DIRECTIONS_BITMAP_RAW,
            forall|d: Direction| r.has_spec(d),
    {
        let r = DirectionBitmap { raw: ALL_DIRECTIONS_BITMAP_RAW };
        proof {
            lemma_known_sets();
        }
        r
    }

    /// The set of the four cardinal directions.
    pub fn all_cardinal() -> (r: DirectionBitmap)
        ensures
            r.raw == ALL_CARDINAL_DIRECTION_BITMAP_RAW,
            forall|d: Direction| r.has_spec(d) <==> d.index_spec() % 2 == 0,
    {
        let r = DirectionBitmap { raw: ALL_CARDINAL_DIRECTION_BITMAP_RAW };
        proof {
            lemma_known_sets();
        }
        r
    }

    /// The set of the four ordinal directions.
    pub fn all_ordinal() -> (r: DirectionBitmap)
        ensures
            r.raw == ALL_ORDINAL_DIRECTION_BITMAP_RAW,
            forall|d: Direction| r.has_spec(d) <==> d.index_spec() % 2 == 1,
    {
        let r = DirectionBitmap { raw: ALL_ORDINAL_DIRECTION_BITMAP_RAW };
        proof {
            lemma_known_sets();
        }
        r
    }

    /// Whether `direction` is in the set.
    pub fn has(self, direction: Direction) -> (r: bool)
        ensures
            r == self.has_spec(direction),
    {
        self.raw & direction.bitmap_raw() != 0
    }

    /// Whether no direction is in the set.
    pub fn is_empty(self) -> (r: bool)
        ensures
            r == (self.raw == NO_DIRECTIONS_BITMAP_RAW),
            r <==> forall|d: Direction| !self.has_spec(d),
    {
        proof {
            lemma_empty_and_full(self);
        }
        self.raw == NO_DIRECTIONS_BITMAP_RAW
    }

    /// Whether every direction is in the set.
    pub fn is_full(self) -> (r: bool)
        ensures
            r == (self.raw == ALL_DIRECTIONS_BITMAP_RAW),
            r <==> forall|d: Direction| self.has_spec(d),
    {
        proof {
            lemma_empty_and_full(self);
        }
        self.raw == ALL_DIRECTIONS_BITMAP_RAW
    }

    /// The directions that are in both sets.
    pub fn and(self, rhs: DirectionBitmap) -> (r: DirectionBitmap)
        ensures
            r.raw == self.raw & rhs.raw,
            forall|d: Direction| r.has_spec(d) <==> self.has_spec(d) && rhs.has_spec(d),
    {
        let r = DirectionBitmap::new(self.raw & rhs.raw);
        proof {
            assert forall|d: Direction| r.has_spec(d) <==> self.has_spec(d) && rhs.has_spec(
                d,
            ) by {
                lemma_and_or(self.raw, rhs.raw, d.bitmap_raw_spec());
            }
        }
        r
    }

    /// The directions that are in one of the sets or in both.
    pub fn or(self, rhs: DirectionBitmap) -> (r: DirectionBitmap)
        ensures
            r.raw == self.raw | rhs.raw,
            forall|d: Direction| r.has_spec(d) <==> self.has_spec(d) || rhs.has_spec(d),
    {
        let r = DirectionBitmap::new(self.raw | rhs.raw);
        proof {
            assert forall|d: Direction| r.has_spec(d) <==> self.has_spec(d) || rhs.has_spec(
                d,
            ) by {
                lemma_and_or(self.raw, rhs.raw, d.bitmap_raw_spec());
            }
        }
        r
    }
}

/// A single bit is in the bitwise and of two bytes exactly when it is in
/// both, and in their bitwise or exactly when it is in one of them.
pub proof fn lemma_and_or(a: u8, b: u8, bit: u8)
    requires
        bit == 1 || bit == 2 || bit == 4 || bit == 8 || bit == 16 || bit == 32 || bit == 64 || bit
            == 128,
    ensures
        ((a & b) & bit != 0) <==> (a & bit != 0) && (b & bit != 0),
        ((a | b) & bit != 0) <==> (a & bit != 0) || (b & bit != 0),
{
    assert(((a & b) & bit != 0) <==> (a & bit != 0) && (b & bit != 0)) by (bit_vector)
        requires
            bit == 1 || bit == 2 || bit == 4 || bit == 8 || bit == 16 || bit == 32 || bit == 64
                || bit == 128,
    ;
    assert(((a | b) & bit != 0) <==> (a & bit != 0) || (b & bit != 0)) by (bit_vector);
}

/// Which directions the four named bytes hold.
pub proof fn lemma_known_sets()
    ensures
        forall|d: Direction| !(DirectionBitmap { raw: NO_DIRECTIONS_BITMAP_RAW }).has_spec(d),
        forall|d: Direction| (DirectionBitmap { raw: ALL_DIRECTIONS_BITMAP_RAW }).has_spec(d),
        forall|d: Direction|
            (DirectionBitmap { raw: ALL_CARDINAL_DIRECTION_BITMAP_RAW }).has_spec(d)
                <==> d.index_spec() % 2 == 0,
        forall|d: Direction|
            (DirectionBitmap { raw: ALL_ORDINAL_DIRECTION_BITMAP_RAW }).has_spec(d)
                <==> d.index_spec() % 2 == 1,
{
    assert(0u8 & 1 == 0 && 0u8 & 2 == 0 && 0u8 & 4 == 0 && 0u8 & 8 == 0 && 0u8 & 16 == 0 && 0u8
        & 32 == 0 && 0u8 & 64 == 0 && 0u8 & 128 == 0) by (bit_vector);
    assert(0xffu8 & 1 != 0 && 0xffu8 & 2 != 0 && 0xffu8 & 4 != 0 && 0xffu8 & 8 != 0 && 0xffu8
        & 16 != 0 && 0xffu8 & 32 != 0 && 0xffu8 & 64 != 0 && 0xffu8 & 128 != 0) by (bit_vector);
    assert(0x55u8 & 1 != 0 && 0x55u8 & 2 == 0 && 0x55u8 & 4 != 0 && 0x55u8 & 8 == 0 && 0x55u8
        & 16 != 0 && 0x55u8 & 32 == 0 && 0x55u8 & 64 != 0 && 0x55u8 & 128 == 0) by (bit_vector);
    assert(0xaau8 & 1 == 0 && 0xaau8 & 2 != 0 && 0xaau8 & 4 == 0 && 0xaau8 & 8 != 0 && 0xaau8
        & 16 == 0 && 0xaau8 & 32 != 0 && 0xaau8 & 64 == 0 && 0xaau8 & 128 != 0) by (bit_vector);
}

/// A byte is 0 exactly when it holds no direction, and 0xff exactly when it
/// holds all of them.
pub proof fn lemma_empty_and_full(b: DirectionBitmap)
    ensures
        b.raw == NO_DIRECTIONS_BITMAP_RAW <==> forall|d: Direction| !b.has_spec(d),
        b.raw == ALL_DIRECTIONS_BITMAP_RAW <==> forall|d: Direction| b.has_spec(d),
{
    let a = b.raw;
    lemma_known_sets();
    if forall|d: Direction| !b.has_spec(d) {
        assert(!b.has_spec(Direction::North) && !b.has_spec(Direction::NorthEast) && !b.has_spec(
            Direction::East,
        ) && !b.has_spec(Direction::SouthEast) && !b.has_spec(Direction::South) && !b.has_spec(
            Direction::SouthWest,
        ) && !b.has_spec(Direction::West) && !b.has_spec(Direction::NorthWest));
        assert(a == 0) by (bit_vector)
            requires
                a & 1 == 0 && a & 2 == 0 && a & 4 == 0 && a & 8 == 0 && a & 16 == 0 && a & 32 == 0
                    && a & 64 == 0 && a & 128 == 0,
        ;
    }
    if forall|d: Direction| b.has_spec(d) {
        assert(b.has_spec(Direction::North) && b.has_spec(Direction::NorthEast) && b.has_spec(
            Direction::East,
        ) && b.has_spec(Direction::SouthEast) && b.has_spec(Direction::South) && b.has_spec(
            Direction::SouthWest,
        ) && b.has_spec(Direction::West) && b.has_spec(Direction::NorthWest));
        assert(a == 0xff) by (bit_vector)
            requires
                a & 1 != 0 && a & 2 != 0 && a & 4 != 0 && a & 8 != 0 && a & 16 != 0 && a & 32 != 0
                    && a & 64 != 0 && a & 128 != 0,
        ;
    }
}

impl Default for DirectionBitmap {
    fn default() -> (r: DirectionBitmap)
        ensures
            r.raw == NO_DIRECTIONS_BITMAP_RAW,
    {
        DirectionBitmap { raw: NO_DIRECTIONS_BITMAP_RAW }
    }
}

impl BitOrSpecImpl for DirectionBitmap {
    open spec fn obeys_bitor_spec() -> bool {
        true
    }

    open spec fn bitor_req(self, rhs: DirectionBitmap) -> bool {
        true
    }

    open spec fn bitor_spec(self, rhs: DirectionBitmap) -> DirectionBitmap {
        DirectionBitmap { raw: self.raw | rhs.raw }
    }
}

impl BitOr for DirectionBitmap {
    type Output = DirectionBitmap;

    fn bitor(self, rhs: DirectionBitmap) -> (r: DirectionBitmap) {
        DirectionBitmap { raw: self.raw | rhs.raw }
    }
}

impl BitAndSpecImpl for DirectionBitmap {
    open spec fn obeys_bitand_spec() -> bool {
        true
    }

    open spec fn bitand_req(self, rhs: DirectionBitmap) -> bool {
        true
    }

    open spec fn bitand_spec(self, rhs: DirectionBitmap) -> DirectionBitmap {
        DirectionBitmap { raw: self.raw & rhs.raw }
    }
}

impl BitAnd for DirectionBitmap {
    type Output = DirectionBitmap;

    fn bitand(self, rhs: DirectionBitmap) -> (r: DirectionBitmap) {
        DirectionBitmap { raw: self.raw & rhs.raw }
    }
}

impl BitOrAssign for DirectionBitmap {
    fn bitor_assign(&mut self, rhs: DirectionBitmap)
        ensures
            final(self).raw == old(self).raw | rhs.raw,
    {
        self.raw = self.raw | rhs.raw;
    }
}

impl BitAndAssign for DirectionBitmap {
    fn bitand_assign(&mut self, rhs: DirectionBitmap)
        ensures
            final(self).raw == old(self).raw & rhs.raw,
    {
        self.raw = self.raw & rhs.raw;
    }
}

} // verus!
