use banana_lib::geometry::shapes::rect::iter::RectPointIter;
use banana_lib::geometry::shapes::rect::{GridCorner, Rect};
use banana_lib::vec2::IVec2;
use std::collections::HashSet;

#[test]
fn test_dimensions() {
    let rect = Rect::new([0, 0], [10, 10]);
    assert!(rect.width() == 10);
    assert!(rect.height() == 10);
}

#[test]
fn test_add() {
    let rect = Rect::from_corners([0, 0], [10, 10]) + Rect::from_corners((1, 1), (1, 1));
    assert!(rect.min == IVec2::new(1, 1));
    assert!(rect.max == IVec2::new(11, 11));
}

#[test]
fn test_intersect() {
    let r1 = Rect::new([0, 0], [10, 10]);
    let r2 = Rect::new([5, 5], [10, 10]);
    let r3 = Rect::new([100, 100], [5, 5]);
    assert!(r1.intersects(r2));
    assert!(!r1.intersects(r3));
}

#[test]
fn test_center() {
    let r1 = Rect::new([0, 0], [10, 10]);
    let center = r1.center();
    assert!(center.x == 5 && center.y == 5);
}

#[test]
fn test_contains() {
    let r1 = Rect::new([0, 0], [10, 10]);
    assert!(r1.contains(IVec2::new(5, 5)));
    assert!(!r1.contains(IVec2::new(100, 100)));
}

#[test]
fn test_rect_set() {
    let r1 = Rect::new([0, 0], [1, 1]);
    let points = r1.point_set();
    assert!(points.contains(&IVec2::new(0, 0)));
    assert!(!points.contains(&IVec2::new(1, 0)));
    assert!(!points.contains(&IVec2::new(0, 1)));
    assert!(!points.contains(&IVec2::new(1, 1)));
}

#[test]
fn test_rect_callback() {
    let r1 = Rect::new([0, 0], [1, 1]);
    let mut points: HashSet<IVec2> = HashSet::new();
    r1.for_each(|p| {
        points.insert(p);
    });
    assert!(points.contains(&IVec2::new(0, 0)));
    assert!(!points.contains(&IVec2::new(1, 0)));
    assert!(!points.contains(&IVec2::new(0, 1)));
    assert!(!points.contains(&IVec2::new(1, 1)));
}

#[test]
fn walk_over_a_rectangle_away_from_the_origin() {
    let rect = Rect::from_corners([2, -1], [4, 2]);
    let points = RectPointIter::new(rect.min, rect.max).to_vec();
    assert_eq!(
        points,
        vec![
            IVec2::new(2, -1),
            IVec2::new(3, -1),
            IVec2::new(2, 0),
            IVec2::new(3, 0),
            IVec2::new(2, 1),
            IVec2::new(3, 1),
        ]
    );
    assert_eq!(rect.point_set(), points);
    assert_eq!(RectPointIter::from(rect).to_vec(), points);
    let mut seen = Vec::new();
    rect.for_each(|p| seen.push(p));
    assert_eq!(seen, points);
    assert!(Rect::from_corners([3, 3], [1, 5]).point_set().is_empty());
    assert!(Rect::from_corners([3, 3], [3, 5]).is_empty());
    assert!(!rect.is_empty());
}

#[test]
fn rectangle_measures() {
    let rect = Rect::from_corners([2, 4], [9, 8]);
    assert_eq!(rect.width(), 7);
    assert_eq!(rect.height(), 4);
    assert_eq!(rect.size(), IVec2::new(7, 4));
    assert_eq!(rect.half_size(), IVec2::new(3, 2));
    assert_eq!(rect.center(), IVec2::new(5, 6));
    assert_eq!(rect.corner(&GridCorner::TopLeft), IVec2::new(2, 8));
    assert_eq!(rect.corner(&GridCorner::TopRight), IVec2::new(8, 8));
    assert_eq!(rect.corner(&GridCorner::BottomLeft), IVec2::new(2, 4));
    assert_eq!(rect.corner(&GridCorner::BottomRight), IVec2::new(8, 4));
    assert!(rect.contains((2, 4)));
    assert!(rect.contains((9, 8)));
    assert!(!rect.contains((10, 8)));
    let negative = Rect::from_corners(IVec2::new(-7, -3), IVec2::new(0, 0));
    assert_eq!(negative.center(), IVec2::new(-3, -1));
    assert_eq!(negative.half_size(), IVec2::new(3, 1));
}

#[test]
fn rectangles_from_a_centre() {
    let rect = Rect::from_center_size([10, 10], [5, 4]);
    assert_eq!(rect.min, IVec2::new(8, 8));
    assert_eq!(rect.max, IVec2::new(12, 12));
    let rect = Rect::from_center_half_size([10, 10], [3, 1]);
    assert_eq!(rect.min, IVec2::new(7, 9));
    assert_eq!(rect.max, IVec2::new(13, 11));
}

#[test]
fn rectangle_arithmetic() {
    let a = Rect::from_corners([2, 4], [8, 12]);
    let b = Rect::from_corners([1, 2], [2, -3]);
    assert_eq!(-a, Rect::from_corners(IVec2::new(-2, -4), IVec2::new(-8, -12)));
    assert_eq!(a - b, Rect::from_corners([1, 2], [6, 15]));
    assert_eq!(a * b, Rect::from_corners(IVec2::new(2, 8), IVec2::new(16, -36)));
    assert_eq!(a / b, Rect::from_corners(IVec2::new(2, 2), IVec2::new(4, -4)));
    assert_eq!(a + (3i32, 100i32), Rect::from_corners([5, 7], [11, 15]));
    assert_eq!(a - IVec2::new(1, 100), Rect::from_corners([1, 3], [7, 11]));
    assert_eq!(a * [2i32, 3i32], Rect::from_corners([4, 12], [16, 36]));
    assert_eq!(a / (2i32, -3i32), Rect::from_corners(IVec2::new(1, -1), IVec2::new(4, -4)));
    let mut r = a;
    r += b;
    assert_eq!(r, a + b);
    r -= b;
    assert_eq!(r, a);
    r *= (2i32, 3i32);
    assert_eq!(r, Rect::from_corners([4, 12], [16, 36]));
    r /= Rect::from_corners([2, 3], [2, 3]);
    assert_eq!(r, a);
    r += (1i32, 0i32);
    assert_eq!(r, Rect::from_corners([3, 5], [9, 13]));
}
