//! The assigning forms of the arithmetic on rectangles.

use crate::geometry::shapes::rect::Rect;
use core::ops::{Add, AddAssign, Div, DivAssign, Mul, MulAssign, Sub, SubAssign};
use vstd::prelude::*;
use vstd::std_specs::ops::{AddSpec, DivSpec, MulSpec, SubSpec};

verus! {

impl<T> AddAssign<T> for Rect where Rect: Add<T, Output = Rect> {
    /// Puts `self + rhs` in the place of this rectangle.
    fn add_assign(&mut self, rhs: T)
        requires
            (*old(self)).add_req(rhs),
        ensures
            <Rect as AddSpec<T>>::obeys_add_spec() ==> *final(self) == (*old(self)).add_spec(rhs),
    {
        *self = *self + rhs;
    }
}

impl<T> SubAssign<T> for Rect where Rect: Sub<T, Output = Rect> {
    /// Puts `self - rhs` in the place of this rectangle.
    fn sub_assign(&mut self, rhs: T)
        requires
            (*old(self)).sub_req(rhs),
        ensures
            <Rect as SubSpec<T>>::obeys_sub_spec() ==> *final(self) == (*old(self)).sub_spec(rhs),
    {
        *self = *self - rhs;
    }
}

impl<T> MulAssign<T> for Rect where Rect: Mul<T, Output = Rect> {
    /// Puts `self * rhs` in the place of this rectangle.
    fn mul_assign(&mut self, rhs: T)
        requires
            (*old(self)).mul_req(rhs),
        ensures
            <Rect as MulSpec<T>>::obeys_mul_spec() ==> *final(self) == (*old(self)).mul_spec(rhs),
    {
        *self = *self * rhs;
    }
}

impl<T> DivAssign<T> for Rect where Rect: Div<T, Output = Rect> {
    /// Puts `self / rhs` in the place of this rectangle.
    fn div_assign(&mut self, rhs: T)
        requires
            (*old(self)).div_req(rhs),
        ensures
            <Rect as DivSpec<T>>::obeys_div_spec() ==> *final(self) == (*old(self)).div_spec(rhs),
    {
        *self = *self / rhs;
    }
}

} // verus!
