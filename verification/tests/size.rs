use banana_lib::axis::Axis;
use banana_lib::canvas::Canvas;
use banana_lib::geometry::rect::Rect;
use banana_lib::geometry::size::Size;
use banana_lib::grid_like::{ends_to_start_end, GridLike, RangeEnd};
use banana_lib::grid_point::GridPointBounds;
use banana_lib::grids::grid::Grid;
use banana_lib::size_2d::{check_size_limit, max_size, PointIterRowMajor, Size2d, MAX_SIZE_FIELD};
use banana_lib::vec2::{IVec2, UVec2};

#[test]
fn size_limit() {
    assert!(check_size_limit(0).is_ok());
    assert!(check_size_limit(MAX_SIZE_FIELD).is_ok());
    assert!(check_size_limit(MAX_SIZE_FIELD + 1).is_err());
    assert!(check_size_limit(u32::MAX).is_err());
    assert_eq!(<UVec2 as Size2d>::try_new(3, 4).unwrap(), UVec2::new(3, 4));
    assert!(<UVec2 as Size2d>::try_new(0x8000_0000, 4).is_err());
    assert!(<UVec2 as Size2d>::try_new(4, 0x8000_0000).is_err());
    assert_eq!(<UVec2 as Size2d>::new(3, 4), UVec2::new(3, 4));
    assert_eq!(max_size(), UVec2::new(2147483647, 2147483647));
    assert_eq!(MAX_SIZE_FIELD, i32::MAX as u32);
}

#[test]
fn size_conversions() {
    let size = (3u32, 2u32);
    assert_eq!(size.width(), 3);
    assert_eq!(size.height(), 2);
    assert_eq!(size.count(), 6);
    assert_eq!(size.as_ivec2(), IVec2::new(3, 2));
    assert_eq!(size.as_uvec2(), UVec2::new(3, 2));
    assert_eq!(size.as_array(), [3, 2]);
    assert_eq!(size.as_tuple(), (3, 2));
    assert_eq!(size.as_uarray(), [3, 2]);
    assert_eq!([5usize, 7usize].as_uvec2(), UVec2::new(5, 7));
    assert_eq!([5i32, 7i32].count(), 35);
    assert_eq!(IVec2::new(4, 5).width(), 4);
    assert_eq!((-1i32, 2i32).width(), u32::MAX);
    assert_eq!(UVec2::new(u32::MAX, 1).as_ivec2(), IVec2::new(-1, 1));
    assert_eq!(Size::default().count(), 0);
    assert_eq!(size.with_axis(Axis::X, |w| w + 1), UVec2::new(4, 2));
    assert_eq!(size.with_axis(Axis::Y, |h| h * 5), UVec2::new(3, 10));
    assert_eq!(<UVec2 as Size2d>::new_axis(3, 4, Axis::Y), UVec2::new(4, 3));
    assert!(<UVec2 as Size2d>::try_new_axis(0x8000_0000, 4, Axis::X).is_err());
    assert_eq!(size.iter().to_vec().len(), 6);
}

#[test]
fn bounds_from_both_sides() {
    let size = UVec2::new(3, 2);
    for y in -1..4 {
        for x in -1..5 {
            let expected = x >= 0 && y >= 0 && x < 3 && y < 2;
            assert_eq!((x, y).is_valid(size), expected);
            assert_eq!(size.point_in_bounds((x, y)), expected);
        }
    }
    let big = UVec2::new(u32::MAX, 1);
    assert!((i32::MAX, 0).is_valid(big));
    assert!(big.point_in_bounds((i32::MAX, 0)));
}

#[test]
fn walks_over_empty_extents() {
    assert!(PointIterRowMajor::new((0u32, 5u32)).to_vec().is_empty());
    assert!(PointIterRowMajor::new((5u32, 0u32)).to_vec().is_empty());
    let mut it = PointIterRowMajor::new((2u32, 1u32));
    assert_eq!(it.next(), Some(IVec2::new(0, 0)));
    assert_eq!(it.next(), Some(IVec2::new(1, 0)));
    assert_eq!(it.next(), None);
    assert_eq!(it.next(), None);
}

#[test]
fn axes() {
    assert_eq!(Axis::X.other(), Axis::Y);
    assert_eq!(Axis::Y.other(), Axis::X);
    assert_eq!(Axis::X.new_coord(1, 2), IVec2::new(1, 2));
    assert_eq!(Axis::Y.new_coord(1, 2), IVec2::new(2, 1));
    assert_eq!(Axis::X.new_size(1, 2), UVec2::new(1, 2));
    assert_eq!(Axis::Y.new_size(1, 2), UVec2::new(2, 1));
    assert_eq!(Axis::Y.try_new_size(1, 2).unwrap(), UVec2::new(2, 1));
    assert!(Axis::Y.try_new_size(1, 0x8000_0000).is_err());
    assert!(Axis::X.try_new_size(0x8000_0000, 1).is_err());
    assert_eq!(Axis::X.size((3u32, 4u32)), 3);
    assert_eq!(Axis::Y.size((3u32, 4u32)), 4);
}

#[test]
fn ranges() {
    assert_eq!(ends_to_start_end(RangeEnd::Included(1), RangeEnd::Included(4), 9), [1, 4]);
    assert_eq!(ends_to_start_end(RangeEnd::Excluded(1), RangeEnd::Excluded(4), 9), [1, 3]);
    assert_eq!(ends_to_start_end(RangeEnd::Unbounded, RangeEnd::Unbounded, 9), [0, 9]);
    assert_eq!(ends_to_start_end(RangeEnd::Unbounded, RangeEnd::Excluded(0), 9), [0, usize::MAX]);
    let grid: Grid<u8> = Grid::new((4, 3), 0);
    assert_eq!(grid.range_to_start_end(1..=2, Axis::Y), [1, 2]);
    assert_eq!(grid.range_to_start_end(1..3, Axis::Y), [1, 2]);
    assert_eq!(grid.range_to_start_end(.., Axis::Y), [0, 3]);
    assert_eq!(grid.range_to_start_end(2.., Axis::X), [2, 4]);
    assert_eq!(grid.rows_between(1, 1).len(), 1);
    assert_eq!(grid.rows_between(2, 1).len(), 1);
    assert_eq!(grid.rows_between(1, usize::MAX).len(), 2);
    assert_eq!(grid.rows_between(5, 9).len(), 0);
}

#[test]
fn old_rectangles() {
    let rect = Rect::new([1, 2], [7, 10]);
    assert_eq!(rect.start, IVec2::new(1, 2));
    assert_eq!(rect.size, IVec2::new(7, 10));
    assert_eq!(rect.width(), 6);
    assert_eq!(rect.height(), 8);
    assert_eq!(Rect::new([9, 2], [7, 10]).width(), 2);
    assert_eq!(rect.center(), IVec2::new(4, 7));
    assert_eq!(Rect::splat(3), Rect::new([3, 3], [3, 3]));
    assert_eq!(Rect::zero(), Rect::splat(0));
    assert!(rect.intersect(&Rect::new([8, 12], [1, 1])));
    assert!(!rect.intersect(&Rect::new([9, 12], [1, 1])));
    assert!(rect.point_in_rect((6, 9)));
    assert!(!rect.point_in_rect((7, 9)));
    assert!(!rect.point_in_rect((-1, 0)));
}

#[test]
fn canvas_puts() {
    let mut canvas = Canvas::new([10, 5]);
    canvas.put([1, 1], '*');
    canvas.put([2, 2], '*');
    canvas.put([3, 3], '*');
    canvas.put([4, 4], '*');
    assert_eq!(canvas.size(), UVec2::new(10, 5));
    assert_eq!(canvas.data().len(), 50);
    assert_eq!(canvas.data()[11], b'*');
    assert_eq!(canvas.data()[44], b'*');
    assert_eq!(canvas.data()[0], b' ');
    assert_eq!(canvas.data().iter().filter(|c| **c == b'*').count(), 4);
    assert_eq!(canvas.to_index([3, 2]), 23);
    canvas.put([0, 0], '\u{141}');
    assert_eq!(canvas.data()[0], b'A');
    canvas.put([0, 0], ' ');
    let lines = canvas.lines();
    assert_eq!(lines.len(), 5);
    assert_eq!(lines[0], b"..........".to_vec());
    assert_eq!(lines[1], b".*........".to_vec());
    assert_eq!(lines[4], b"....*.....".to_vec());
}
