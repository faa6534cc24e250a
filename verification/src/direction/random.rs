//! Directions drawn at random.

use crate::direction::cardinal::CardinalDirection;
use crate::direction::direction::Direction;
use crate::direction::iter::{cardinal_direction_at, direction_at, ordinal_direction_at};
use crate::direction::ordinal::OrdinalDirection;
use rand::Rng;
use vstd::prelude::*;

verus! {

/// `Rng::gen_range` of the crate `rand`, asked for a number from 0 up to,
/// not including, `bound`. The number lies in that range; which one it is
/// depends on `rng`, and nothing more is claimed of it. The call panics on
/// an empty range, so `bound` is not 0.
#[verifier::external_body]
fn index_below<R: Rng + ?Sized>(rng: &mut R, bound: u8) -> (r: u8)
    requires
        bound > 0,
    ensures
        r < bound,
{
    rng.gen_range(0..bound)
}

impl Direction {
    /// One of the eight directions: the one at the place that `rng` picks
    /// in the clockwise round.
    pub fn sample<R: Rng + ?Sized>(rng: &mut R) -> (r: Direction)
        ensures
            0 <= r.index_spec() < 8,
    {
        let index: u8 = index_below(rng, 8);
        direction_at(index)
    }
}

impl CardinalDirection {
    /// One of the four cardinal directions: the one at the place that `rng`
    /// picks in the clockwise round.
    pub fn sample<R: Rng + ?Sized>(rng: &mut R) -> (r: CardinalDirection)
        ensures
            r.direction_spec().index_spec() % 2 == 0,
    {
        let index: u8 = index_below(rng, 4);
        cardinal_direction_at(index)
    }
}

impl OrdinalDirection {
    /// One of the four ordinal directions: the one at the place that `rng`
    /// picks in the clockwise round.
    pub fn sample<R: Rng + ?Sized>(rng: &mut R) -> (r: OrdinalDirection)
        ensures
            r.direction_spec().index_spec() % 2 == 1,
    {
        let index: u8 = index_below(rng, 4);
        ordinal_direction_at(index)
    }
}

} // verus!
