//! The two canonical coordinate pairs of the library: a signed point and an
//! unsigned extent.

use vstd::prelude::*;

verus! {

/// A pair of signed 32-bit coordinates: the canonical grid cell address.
#[derive(Clone, Copy, Debug, PartialEq, Eq, Structural, Hash)]
pub struct IVec2 {
    pub x: i32,
    pub y: i32,
}

/// A pair of unsigned 32-bit coordinates: the canonical extent.
#[derive(Clone, Copy, Debug, PartialEq, Eq, Structural, Hash)]
pub struct UVec2 {
    pub x: u32,
    pub y: u32,
}

/// The signed value with the same low 32 bits as `v`.
pub open spec fn wrap_i32(v: u32) -> i32 {
    v as i32
}

/// The unsigned value with the same low 32 bits as `v`.
pub open spec fn wrap_u32(v: i32) -> u32 {
    v as u32
}

/// The signed reading of an unsigned value, made explicit: values up to
/// `i32::MAX` are kept, larger ones come out lowered by 2^32.
pub proof fn lemma_wrap_i32(v: u32)
    ensures
        v <= i32::MAX ==> wrap_i32(v) == v,
        v > i32::MAX ==> wrap_i32(v) == v - 0x1_0000_0000,
{
    assert(v <= 0x7fff_ffffu32 ==> (v as i32) == v) by (bit_vector);
    assert(v > 0x7fff_ffffu32 ==> (v as i32) == v - 0x1_0000_0000) by (bit_vector);
}

/// The unsigned reading of a signed value, made explicit: non-negative values
/// are kept, negative ones come out raised by 2^32.
pub proof fn lemma_wrap_u32(v: i32)
    ensures
        v >= 0 ==> wrap_u32(v) == v,
        v < 0 ==> wrap_u32(v) == v + 0x1_0000_0000,
{
    assert(v >= 0i32 ==> (v as u32) == v) by (bit_vector);
    assert(v < 0i32 ==> (v as u32) == v + 0x1_0000_0000) by (bit_vector);
}

/// Reading a value as signed and back as unsigned changes nothing, and
/// neither does the other way round.
pub proof fn lemma_wrap_round_trip(u: u32, i: i32)
    ensures
        wrap_u32(wrap_i32(u)) == u,
        wrap_i32(wrap_u32(i)) == i,
{
    assert(((u as i32) as u32) == u) by (bit_vector);
    assert(((i as u32) as i32) == i) by (bit_vector);
}

impl IVec2 {
    /// The point `(x, y)`.
    pub fn new(x: i32, y: i32) -> (r: IVec2)
        ensures
            r == (IVec2 { x, y }),
    {
        IVec2 { x, y }
    }

    /// The point with both coordinates equal to `v`.
    pub fn splat(v: i32) -> (r: IVec2)
        ensures
            r == (IVec2 { x: v, y: v }),
    {
        IVec2 { x: v, y: v }
    }

    /// The origin.
    pub fn zero() -> (r: IVec2)
        ensures
            r == (IVec2 { x: 0, y: 0 }),
    {
        IVec2 { x: 0, y: 0 }
    }

    /// The pair as an array, `x` first.
    pub fn to_array(&self) -> (r: [i32; 2])
        ensures
            r@ == seq![self.x, self.y],
    {
        [self.x, self.y]
    }

    pub open spec fn as_uvec2_spec(&self) -> UVec2 {
        UVec2 { x: wrap_u32(self.x), y: wrap_u32(self.y) }
    }

    /// Each coordinate read as unsigned, bit for bit.
    pub fn as_uvec2(&self) -> (r: UVec2)
        ensures
            r == self.as_uvec2_spec(),
    {
        UVec2 { x: #[verifier::truncate] (self.x as u32), y: #[verifier::truncate] (self.y as u32) }
    }
}

impl UVec2 {
    /// The extent `(x, y)`.
    pub fn new(x: u32, y: u32) -> (r: UVec2)
        ensures
            r == (UVec2 { x, y }),
    {
        UVec2 { x, y }
    }

    /// The pair as an array, `x` first.
    pub fn to_array(&self) -> (r: [u32; 2])
        ensures
            r@ == seq![self.x, self.y],
    {
        [self.x, self.y]
    }

    pub open spec fn as_ivec2_spec(&self) -> IVec2 {
        IVec2 { x: wrap_i32(self.x), y: wrap_i32(self.y) }
    }

    /// Each coordinate read as signed, bit for bit.
    pub fn as_ivec2(&self) -> (r: IVec2)
        ensures
            r == self.as_ivec2_spec(),
    {
        IVec2 { x: #[verifier::truncate] (self.x as i32), y: #[verifier::truncate] (self.y as i32) }
    }
}

impl Default for IVec2 {
    fn default() -> (r: IVec2)
        ensures
            r == (IVec2 { x: 0, y: 0 }),
    {
        IVec2 { x: 0, y: 0 }
    }
}

impl Default for UVec2 {
    fn default() -> (r: UVec2)
        ensures
            r == (UVec2 { x: 0, y: 0 }),
    {
        UVec2 { x: 0, y: 0 }
    }
}

} // verus!
