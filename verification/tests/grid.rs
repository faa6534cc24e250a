use banana_lib::grid_like::GridLike;
use banana_lib::grid_point::{GridPoint, GridPointBounds};
use banana_lib::grids::grid::Grid;
use banana_lib::size_2d::Size2d;
use banana_lib::vec2::{IVec2, UVec2};

#[test]
fn new_fills_every_cell() {
    let grid: Grid<u8> = Grid::new((4u32, 3u32), 7);
    for y in 0..3 {
        for x in 0..4 {
            assert_eq!(grid.get((x, y)), Some(&7));
        }
    }
    assert_eq!(grid.get((4, 0)), None);
    assert_eq!(grid.get((0, 3)), None);
    assert_eq!(grid.get((-1, 0)), None);
    assert_eq!(grid.get((0, -1)), None);
    assert_eq!(grid.width(), 4);
    assert_eq!(grid.height(), 3);
    assert_eq!(grid.size(), UVec2::new(4, 3));
    assert_eq!(grid.len(), 12);
    assert!(!grid.is_empty());
}

#[test]
fn new_fn_sum_of_coordinates() {
    let grid: Grid<i32> = Grid::new_fn((3, 3), |p: IVec2| p.x + p.y);
    assert_eq!(grid.get((2, 2)), Some(&4));
    assert_eq!(grid.get((3, 0)), None);
    assert_eq!(grid.get((1, 2)), Some(&3));
}

#[test]
fn new_fn_calls_generator_in_row_major_order() {
    let mut counter = 0;
    let grid: Grid<i32> = Grid::new_fn((3, 2), |_p: IVec2| {
        counter += 1;
        counter
    });
    assert_eq!(grid.data(), &[1, 2, 3, 4, 5, 6]);
    assert_eq!(grid.get((0, 1)), Some(&4));
    assert_eq!(grid.get((2, 0)), Some(&3));
}

#[test]
fn fill_overwrites_every_cell() {
    let mut grid: Grid<i32> = Grid::new((2, 2), 0);
    grid.fill(9);
    for y in 0..2 {
        for x in 0..2 {
            assert_eq!(grid.get((x, y)), Some(&9));
        }
    }
    assert_eq!(grid.len(), 4);
}

#[test]
fn fill_twice_is_fill_once() {
    let mut once: Grid<i32> = Grid::new_fn((3, 2), |p: IVec2| p.x * 10 + p.y);
    once.fill(5);
    let mut twice = once.clone();
    twice.fill(5);
    assert_eq!(once, twice);
}

#[test]
fn iter_rows_single_row() {
    let grid: Grid<i32> = Grid::new_fn((4, 3), |p: IVec2| p.y * 4 + p.x);
    let rows = grid.iter_rows(1..=1);
    assert_eq!(rows.len(), 1);
    assert_eq!(rows[0].len(), 4);
    assert_eq!(rows[0], &[4, 5, 6, 7]);
}

#[test]
fn iter_rows_touching_the_last_row() {
    let grid: Grid<i32> = Grid::new_fn((4, 3), |p: IVec2| p.y * 4 + p.x);
    let rows = grid.iter_rows(1..);
    assert_eq!(rows.len(), 2);
    assert_eq!(rows[1], &[8, 9, 10, 11]);
    let rows = grid.iter_rows(..);
    assert_eq!(rows.len(), 3);
    let rows = grid.iter_rows(0..2);
    assert_eq!(rows.len(), 2);
    assert_eq!(rows[1], &[4, 5, 6, 7]);
    let rows = grid.iter_rows(2..=7);
    assert_eq!(rows.len(), 1);
    let rows = grid.iter_rows(3..);
    assert_eq!(rows.len(), 0);
    assert_eq!(grid.iter_rows(0..0).len(), 0);
    assert_eq!(grid.iter_rows(2..2).len(), 1);
    assert_eq!(grid.rows_between(0, usize::MAX).len(), 0);
    assert_eq!(Grid::<u8>::default().len(), 0);
}

#[test]
fn rows_and_columns() {
    let grid: Grid<i32> = Grid::new_fn((3, 2), |p: IVec2| p.y * 3 + p.x);
    let rows = grid.rows();
    assert_eq!(rows.len(), 2);
    assert_eq!(rows[0], &[0, 1, 2]);
    assert_eq!(rows[1], &[3, 4, 5]);
    let cols = grid.cols();
    assert_eq!(cols.len(), 3);
    assert_eq!(cols[1], vec![&1, &4]);
    assert_eq!(grid.iter_column(2), vec![&2, &5]);
    assert_eq!(grid.iter_column(4), vec![&4]);
    assert_eq!(grid.iter(), &[0, 1, 2, 3, 4, 5]);
}

#[test]
fn map_keeps_the_shape() {
    let grid: Grid<i32> = Grid::new_fn((3, 2), |p: IVec2| p.y * 3 + p.x);
    let source = grid.clone();
    let mapped: Grid<i64> = grid.map(|c: &i32| (*c as i64) * 2);
    assert_eq!(mapped.size(), source.size());
    for y in 0..2 {
        for x in 0..3 {
            assert_eq!(mapped.get((x, y)).copied(), source.get((x, y)).map(|c| (*c as i64) * 2));
        }
    }
    assert_eq!(mapped.get((3, 0)), None);
}

#[test]
fn get_mut_changes_one_cell() {
    let mut grid: Grid<i32> = Grid::new((3, 2), 0);
    *grid.get_mut((1, 1)).unwrap() = 5;
    assert!(grid.get_mut((3, 1)).is_none());
    *grid.get_mut_checked((2, 0)) = 7;
    assert_eq!(grid.data(), &[0, 0, 7, 0, 5, 0]);
    assert_eq!(*grid.get_checked((1, 1)), 5);
    assert_eq!(grid[(1, 1)], 5);
    assert_eq!(grid[IVec2::new(2, 0)], 7);
    assert_eq!(grid[4usize], 5);
    grid[(0, 0)] = 1;
    grid[5usize] = 2;
    assert_eq!(grid.data(), &[1, 0, 7, 0, 5, 2]);
}

#[test]
fn count_neighbors_in_the_middle_and_at_the_corners() {
    let grid: Grid<u8> = Grid::new((3, 3), 1);
    assert_eq!(grid.count_neighbors((1, 1), 1), 8);
    assert_eq!(grid.count_neighbors((0, 0), 1), 3);
    assert_eq!(grid.count_neighbors((2, 0), 1), 3);
    assert_eq!(grid.count_neighbors((0, 2), 1), 3);
    assert_eq!(grid.count_neighbors((2, 2), 1), 3);
    assert_eq!(grid.count_neighbors((1, 0), 1), 5);
    assert_eq!(grid.count_neighbors((1, 1), 0), 0);
    assert_eq!(grid.count_neighbors((-1, -1), 1), 1);
    assert_eq!(grid.count_neighbors((5, 5), 1), 0);
    let one: Grid<u8> = Grid::new((1, 1), 1);
    assert_eq!(one.count_neighbors((0, 0), 1), 0);
}

#[test]
fn count_neighbors_skips_the_centre() {
    let mut grid: Grid<u8> = Grid::new((3, 3), 0);
    *grid.get_mut((1, 1)).unwrap() = 1;
    assert_eq!(grid.count_neighbors((1, 1), 1), 0);
    assert_eq!(grid.count_neighbors((0, 0), 1), 1);
}

#[test]
fn index_conversions() {
    let grid: Grid<u8> = Grid::new((4, 3), 0);
    assert_eq!(grid.get_idx((1, 2)), 9);
    assert_eq!(grid.try_idx((1, 2)), Some(9));
    assert_eq!(grid.try_idx((4, 2)), None);
    assert_eq!(grid.index_to_pt(9), IVec2::new(1, 2));
    assert_eq!(grid.try_index_to_pt(11), Some(IVec2::new(3, 2)));
    assert_eq!(grid.try_index_to_pt(12), None);
    assert!(grid.in_bounds((3, 2)));
    assert!(!grid.in_bounds((3, 3)));
    assert_eq!((1, 2).as_index(4), 9);
    assert!((3, 2).is_valid(grid.size()));
    assert!(grid.size().point_in_bounds((3, 2)));
    assert!(!(4, 2).is_valid(grid.size()));
    assert!(!grid.size().point_in_bounds((4, 2)));
}

#[test]
fn updates_in_place() {
    let mut grid: Grid<i32> = Grid::new_fn((3, 2), |p: IVec2| p.y * 3 + p.x);
    grid.iter_mut(|c| c + 1);
    assert_eq!(grid.data(), &[1, 2, 3, 4, 5, 6]);
    grid.iter_rows_mut(1..=1, |c| c * 10);
    assert_eq!(grid.data(), &[1, 2, 3, 40, 50, 60]);
    grid.iter_column_mut(1, |c| -c);
    assert_eq!(grid.data(), &[1, -2, 3, 40, -50, 60]);
    let mut order = Vec::new();
    grid.cols_mut(|c| {
        order.push(c);
        c
    });
    assert_eq!(order, vec![1, 40, -2, -50, 3, 60]);
    let mut order = Vec::new();
    grid.rows_mut(|c| {
        order.push(c);
        c
    });
    assert_eq!(order, vec![1, -2, 3, 40, -50, 60]);
}

#[test]
fn empty_grids() {
    let grid: Grid<u8> = Grid::new((0, 3), 1);
    assert!(grid.is_empty());
    assert_eq!(grid.len(), 0);
    assert_eq!(grid.get((0, 0)), None);
    assert_eq!(grid.rows().len(), 3);
    assert_eq!(grid.cols().len(), 0);
    assert_eq!(grid.point_iter().to_vec(), Vec::<IVec2>::new());
    let grid: Grid<u8> = Grid::new_default((2, 2));
    assert_eq!(grid.data(), &[0, 0, 0, 0]);
}
