//! Arithmetic on rectangles, corner by corner.

use crate::geometry::shapes::rect::{fits_i32, Rect};
use crate::grid_point::GridPoint;
use crate::vec2::IVec2;
use core::ops::{Add, Div, Mul, Neg, Sub};
use vstd::prelude::*;
use vstd::std_specs::ops::{AddSpecImpl, DivSpecImpl, MulSpecImpl, NegSpecImpl, SubSpecImpl};

verus! {

/// `a` divided by `b`, rounded towards zero.
pub open spec fn quot(a: int, b: int) -> int {
    if a >= 0 {
        a / b
    } else {
        -((-a) / b)
    }
}

/// `a` can be divided by `b` in `i32`.
pub open spec fn can_divide(a: int, b: int) -> bool {
    b != 0 && !(a == i32::MIN && b == -1)
}

/// The four numbers fit in an `i32` each.
pub open spec fn all_fit(min_x: int, min_y: int, max_x: int, max_y: int) -> bool {
    fits_i32(min_x) && fits_i32(min_y) && fits_i32(max_x) && fits_i32(max_y)
}

/// The rectangle with the four given numbers, each of which fits in an
/// `i32`.
pub open spec fn rect_of(min_x: int, min_y: int, max_x: int, max_y: int) -> Rect {
    Rect {
        min: IVec2 { x: min_x as i32, y: min_y as i32 },
        max: IVec2 { x: max_x as i32, y: max_y as i32 },
    }
}

impl NegSpecImpl for Rect {
    open spec fn obeys_neg_spec() -> bool {
        true
    }

    open spec fn neg_req(self) -> bool {
        all_fit(-self.min.x, -self.min.y, -self.max.x, -self.max.y)
    }

    open spec fn neg_spec(self) -> Rect {
        rect_of(-self.min.x, -self.min.y, -self.max.x, -self.max.y)
    }
}

impl Neg for Rect {
    type Output = Rect;

    /// Both corners negated.
    fn neg(self) -> (r: Rect) {
        Rect {
            min: IVec2 { x: -self.min.x, y: -self.min.y },
            max: IVec2 { x: -self.max.x, y: -self.max.y },
        }
    }
}

impl AddSpecImpl<Rect> for Rect {
    open spec fn obeys_add_spec() -> bool {
        true
    }

    open spec fn add_req(self, rhs: Rect) -> bool {
        all_fit(
            self.min.x + rhs.min.x,
            self.min.y + rhs.min.y,
            self.max.x + rhs.max.x,
            self.max.y + rhs.max.y,
        )
    }

    open spec fn add_spec(self, rhs: Rect) -> Rect {
        rect_of(
            self.min.x + rhs.min.x,
            self.min.y + rhs.min.y,
            self.max.x + rhs.max.x,
            self.max.y + rhs.max.y,
        )
    }
}

impl Add<Rect> for Rect {
    type Output = Rect;

    /// The corners of `rhs` added to the corners of this rectangle.
    fn add(self, rhs: Rect) -> (r: Rect) {
        Rect {
            min: IVec2 { x: self.min.x + rhs.min.x, y: self.min.y + rhs.min.y },
            max: IVec2 { x: self.max.x + rhs.max.x, y: self.max.y + rhs.max.y },
        }
    }
}

impl SubSpecImpl<Rect> for Rect {
    open spec fn obeys_sub_spec() -> bool {
        true
    }

    open spec fn sub_req(self, rhs: Rect) -> bool {
        all_fit(
            self.min.x - rhs.min.x,
            self.min.y - rhs.min.y,
            self.max.x - rhs.max.x,
            self.max.y - rhs.max.y,
        ) && all_fit(-rhs.min.x, -rhs.min.y, -rhs.max.x, -rhs.max.y)
    }

    open spec fn sub_spec(self, rhs: Rect) -> Rect {
        rect_of(
            self.min.x - rhs.min.x,
            self.min.y - rhs.min.y,
            self.max.x - rhs.max.x,
            self.max.y - rhs.max.y,
        )
    }
}

impl Sub<Rect> for Rect {
    type Output = Rect;

    /// The corners of `rhs` subtracted from the corners of this rectangle.
    fn sub(self, rhs: Rect) -> (r: Rect) {
        Rect {
            min: IVec2 { x: self.min.x - rhs.min.x, y: self.min.y - rhs.min.y },
            max: IVec2 { x: self.max.x - rhs.max.x, y: self.max.y - rhs.max.y },
        }
    }
}

impl MulSpecImpl<Rect> for Rect {
    open spec fn obeys_mul_spec() -> bool {
        true
    }

    open spec fn mul_req(self, rhs: Rect) -> bool {
        all_fit(
            self.min.x * rhs.min.x,
            self.min.y * rhs.min.y,
            self.max.x * rhs.max.x,
            self.max.y * rhs.max.y,
        )
    }

    open spec fn mul_spec(self, rhs: Rect) -> Rect {
        rect_of(
            self.min.x * rhs.min.x,
            self.min.y * rhs.min.y,
            self.max.x * rhs.max.x,
            self.max.y * rhs.max.y,
        )
    }
}

impl Mul<Rect> for Rect {
    type Output = Rect;

    /// The corners of this rectangle multiplied by the corners of `rhs`, number by number.
    fn mul(self, rhs: Rect) -> (r: Rect) {
        Rect {
            min: IVec2 { x: self.min.x * rhs.min.x, y: self.min.y * rhs.min.y },
            max: IVec2 { x: self.max.x * rhs.max.x, y: self.max.y * rhs.max.y },
        }
    }
}

impl DivSpecImpl<Rect> for Rect {
    open spec fn obeys_div_spec() -> bool {
        true
    }

    open spec fn div_req(self, rhs: Rect) -> bool {
        &&& can_divide(self.min.x as int, rhs.min.x as int)
        &&& can_divide(self.min.y as int, rhs.min.y as int)
        &&& can_divide(self.max.x as int, rhs.max.x as int)
        &&& can_divide(self.max.y as int, rhs.max.y as int)
    }

    open spec fn div_spec(self, rhs: Rect) -> Rect {
        rect_of(
            quot(self.min.x as int, rhs.min.x as int),
            quot(self.min.y as int, rhs.min.y as int),
            quot(self.max.x as int, rhs.max.x as int),
            quot(self.max.y as int, rhs.max.y as int),
        )
    }
}

impl Div<Rect> for Rect {
    type Output = Rect;

    /// The corners of this rectangle divided by the corners of `rhs`, number
    /// by number, rounding towards zero.
    fn div(self, rhs: Rect) -> (r: Rect) {
        Rect {
            min: IVec2 { x: self.min.x / rhs.min.x, y: self.min.y / rhs.min.y },
            max: IVec2 { x: self.max.x / rhs.max.x, y: self.max.y / rhs.max.y },
        }
    }
}

impl<P: GridPoint> AddSpecImpl<P> for Rect {
    open spec fn obeys_add_spec() -> bool {
        true
    }

    open spec fn add_req(self, rhs: P) -> bool {
        all_fit(
            self.min.x + rhs.x_spec(),
            self.min.y + rhs.x_spec(),
            self.max.x + rhs.x_spec(),
            self.max.y + rhs.x_spec(),
        )
    }

    open spec fn add_spec(self, rhs: P) -> Rect {
        rect_of(
            self.min.x + rhs.x_spec(),
            self.min.y + rhs.x_spec(),
            self.max.x + rhs.x_spec(),
            self.max.y + rhs.x_spec(),
        )
    }
}

impl<P: GridPoint> Add<P> for Rect {
    type Output = Rect;

    /// Both corners moved by the `x` of `rhs` along both axes.
    fn add(self, rhs: P) -> (r: Rect) {
        let d: i32 = rhs.x();
        Rect {
            min: IVec2 { x: self.min.x + d, y: self.min.y + d },
            max: IVec2 { x: self.max.x + d, y: self.max.y + d },
        }
    }
}

impl<P: GridPoint> SubSpecImpl<P> for Rect {
    open spec fn obeys_sub_spec() -> bool {
        true
    }

    open spec fn sub_req(self, rhs: P) -> bool {
        all_fit(
            self.min.x - rhs.x_spec(),
            self.min.y - rhs.x_spec(),
            self.max.x - rhs.x_spec(),
            self.max.y - rhs.x_spec(),
        )
    }

    open spec fn sub_spec(self, rhs: P) -> Rect {
        rect_of(
            self.min.x - rhs.x_spec(),
            self.min.y - rhs.x_spec(),
            self.max.x - rhs.x_spec(),
            self.max.y - rhs.x_spec(),
        )
    }
}

impl<P: GridPoint> Sub<P> for Rect {
    type Output = Rect;

    /// Both corners moved back by the `x` of `rhs` along both axes.
    fn sub(self, rhs: P) -> (r: Rect) {
        let d: i32 = rhs.x();
        Rect {
            min: IVec2 { x: self.min.x - d, y: self.min.y - d },
            max: IVec2 { x: self.max.x - d, y: self.max.y - d },
        }
    }
}

impl<P: GridPoint> MulSpecImpl<P> for Rect {
    open spec fn obeys_mul_spec() -> bool {
        true
    }

    open spec fn mul_req(self, rhs: P) -> bool {
        all_fit(
            self.min.x * rhs.x_spec(),
            self.min.y * rhs.y_spec(),
            self.max.x * rhs.x_spec(),
            self.max.y * rhs.y_spec(),
        )
    }

    open spec fn mul_spec(self, rhs: P) -> Rect {
        rect_of(
            self.min.x * rhs.x_spec(),
            self.min.y * rhs.y_spec(),
            self.max.x * rhs.x_spec(),
            self.max.y * rhs.y_spec(),
        )
    }
}

impl<P: GridPoint> Mul<P> for Rect {
    type Output = Rect;

    /// Both corners multiplied by `rhs`, coordinate by coordinate.
    fn mul(self, rhs: P) -> (r: Rect) {
        let x: i32 = rhs.x();
        let y: i32 = rhs.y();
        Rect {
            min: IVec2 { x: self.min.x * x, y: self.min.y * y },
            max: IVec2 { x: self.max.x * x, y: self.max.y * y },
        }
    }
}

impl<P: GridPoint> DivSpecImpl<P> for Rect {
    open spec fn obeys_div_spec() -> bool {
        true
    }

    open spec fn div_req(self, rhs: P) -> bool {
        can_divide(self.min.x as int, rhs.x_spec() as int) && can_divide(
            self.min.y as int,
            rhs.y_spec() as int,
        ) && can_divide(self.max.x as int, rhs.x_spec() as int) && can_divide(
            self.max.y as int,
            rhs.y_spec() as int,
        )
    }

    open spec fn div_spec(self, rhs: P) -> Rect {
        rect_of(
            quot(self.min.x as int, rhs.x_spec() as int),
            quot(self.min.y as int, rhs.y_spec() as int),
            quot(self.max.x as int, rhs.x_spec() as int),
            quot(self.max.y as int, rhs.y_spec() as int),
        )
    }
}

impl<P: GridPoint> Div<P> for Rect {
    type Output = Rect;

    /// Both corners divided by `rhs`, coordinate by coordinate, rounding towards zero.
    fn div(self, rhs: P) -> (r: Rect) {
        let x: i32 = rhs.x();
        let y: i32 = rhs.y();
        Rect {
            min: IVec2 { x: self.min.x / x, y: self.min.y / y },
            max: IVec2 { x: self.max.x / x, y: self.max.y / y },
        }
    }
}

} // verus!
