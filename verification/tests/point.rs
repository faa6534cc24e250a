use banana_lib::geometry::coord::Coord;
use banana_lib::grid_point::GridPoint;
use banana_lib::vec2::{IVec2, UVec2};

#[test]
fn point_conversions() {
    let p = (3i32, -2i32);
    assert_eq!(p.x(), 3);
    assert_eq!(p.y(), -2);
    assert_eq!(p.as_ivec2(), IVec2::new(3, -2));
    assert_eq!(p.as_ivec2().as_tuple(), p);
    assert_eq!([4i32, 5i32].as_ivec2().as_array(), [4, 5]);
    assert_eq!(UVec2::new(7, 8).as_ivec2().as_uvec2(), UVec2::new(7, 8));
    assert_eq!(UVec2::new(u32::MAX, 8).as_ivec2().as_uvec2(), UVec2::new(u32::MAX, 8));
    assert_eq!([4usize, 5usize].as_ivec2().as_uarray(), [4, 5]);
    assert_eq!((4u32, 5u32).as_ivec2().as_uvec2(), UVec2::new(4, 5));
    assert_eq!(IVec2::new(1, 2).as_ivec2(), IVec2::new(1, 2));
    assert_eq!(Coord { x: 1, y: 2 }.as_ivec2(), IVec2::new(1, 2));
    assert_eq!(Coord::default(), Coord { x: 0, y: 0 });
    assert_eq!(<IVec2 as GridPoint>::new(1, 2), IVec2::new(1, 2));
    assert_eq!(IVec2::default(), IVec2::zero());
    assert_eq!(IVec2::splat(3), IVec2::new(3, 3));
    assert_eq!((2, 3).as_index(10), 32);
    assert_eq!((0, 0).as_index(10), 0);
    assert_eq!((-1i32, 0i32).as_index(10), usize::MAX);
    assert_eq!((0i32, -1i32).as_index(10), usize::MAX - 9);
    assert_eq!((3usize, 4usize).x(), 3);
    assert_eq!((u32::MAX, 4u32).x(), -1);
    assert_eq!(p.as_uvec2(), UVec2::new(3, u32::MAX - 1));
}

