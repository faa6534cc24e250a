use banana_lib::grid_like::GridLike;
use banana_lib::grids::grid::Grid;
use banana_lib::grids::grid_2d::{Grid2D, ShapeError};
use banana_lib::size_2d::Size2d;
use banana_lib::vec2::{IVec2, UVec2};

#[test]
fn test_slice() {
    let grid: Grid2D<i32> = Grid2D::new_fn((10, 10), |p: IVec2| p.x + p.y);
    let slice = grid.slice::<(i32, i32)>((1, -1), (1, -1));

    assert_eq!(slice.size().as_uarray(), [8, 8]);
    assert_eq!(slice.data().first(), Some(&2));
    assert_eq!(slice.data().last(), Some(&16));
}

#[test]
fn slice_windows() {
    let grid: Grid2D<i32> = Grid2D::new_fn((4, 3), |p: IVec2| p.x * 10 + p.y);
    let window = grid.slice((1, 3), (0, 2));
    assert_eq!(window.size(), UVec2::new(2, 2));
    assert_eq!(window.get((0, 0)), Some(&10));
    assert_eq!(window.get((1, 1)), Some(&21));
    assert_eq!(window.data(), &[10, 11, 20, 21]);
    let empty = grid.slice((3, 1), (0, 3));
    assert_eq!(empty.size(), UVec2::new(0, 3));
    assert!(empty.is_empty());
    let tail = grid.slice((-1, 4), (-2, 3));
    assert_eq!(tail.data(), &[31, 32]);
}

#[test]
fn dense_new_fills_every_cell() {
    let grid: Grid2D<u8> = Grid2D::new((4u32, 3u32), 7);
    for y in 0..3 {
        for x in 0..4 {
            assert_eq!(grid.get((x, y)), Some(&7));
        }
    }
    assert_eq!(grid.get((4, 0)), None);
    assert_eq!(grid.get((0, 3)), None);
    assert_eq!(grid.get((-1, 0)), None);
    assert_eq!(grid.size(), UVec2::new(4, 3));
    assert_eq!(grid.width(), 4);
    assert_eq!(grid.height(), 3);
    assert_eq!(grid.len(), 12);
    assert!(!grid.is_empty());
}

#[test]
fn dense_new_fn_addresses_and_call_order() {
    let mut calls = Vec::new();
    let grid: Grid2D<i32> = Grid2D::new_fn((3, 2), |p: IVec2| {
        calls.push(p);
        p.x * 10 + p.y
    });
    assert_eq!(
        calls,
        vec![
            IVec2::new(0, 0),
            IVec2::new(1, 0),
            IVec2::new(2, 0),
            IVec2::new(0, 1),
            IVec2::new(1, 1),
            IVec2::new(2, 1),
        ]
    );
    assert_eq!(grid.get((2, 1)), Some(&21));
    assert_eq!(grid.get((0, 1)), Some(&1));
    assert_eq!(grid.get((3, 0)), None);
    assert_eq!(grid.data(), &[0, 1, 10, 11, 20, 21]);
    assert_eq!(*grid.get_checked((1, 1)), 11);
}

#[test]
fn dense_fill_and_get_mut() {
    let mut grid: Grid2D<i32> = Grid2D::new((2, 2), 0);
    grid.fill(9);
    assert_eq!(grid.data(), &[9, 9, 9, 9]);
    assert_eq!(grid.len(), 4);
    let once = grid.clone();
    grid.fill(9);
    assert_eq!(grid, once);
    *grid.get_mut((1, 0)).unwrap() = 3;
    *grid.get_mut_checked((0, 1)) = 4;
    assert!(grid.get_mut((2, 0)).is_none());
    assert_eq!(grid.data(), &[9, 4, 3, 9]);
    assert_eq!(grid[(1, 0)], 3);
    assert_eq!(grid[(0, 1)], 4);
    assert_eq!(grid[1usize], 3);
    assert_eq!(grid[2usize], 4);
    grid[(1, 1)] = 5;
    grid[0usize] = 6;
    assert_eq!(grid.data(), &[6, 4, 3, 5]);
}

#[test]
fn dense_count_neighbors() {
    let grid: Grid2D<u8> = Grid2D::new((3, 4), 1);
    assert_eq!(grid.count_neighbors((1, 1), 1), 8);
    assert_eq!(grid.count_neighbors((0, 0), 1), 3);
    assert_eq!(grid.count_neighbors((2, 3), 1), 3);
    assert_eq!(grid.count_neighbors((2, 0), 1), 3);
    assert_eq!(grid.count_neighbors((0, 3), 1), 3);
    assert_eq!(grid.count_neighbors((1, 3), 1), 5);
    assert_eq!(grid.count_neighbors((1, 1), 2), 0);
    let mut grid: Grid2D<u8> = Grid2D::new((3, 3), 0);
    *grid.get_mut((2, 1)).unwrap() = 1;
    assert_eq!(grid.count_neighbors((1, 1), 1), 1);
    assert_eq!(grid.count_neighbors((2, 1), 1), 0);
    assert_eq!(grid.count_neighbors((0, 1), 1), 0);
}

#[test]
fn dense_lanes() {
    let grid: Grid2D<i32> = Grid2D::new_fn((3, 2), |p: IVec2| p.x * 10 + p.y);
    let rows = grid.rows();
    assert_eq!(rows.len(), 3);
    assert_eq!(rows[1], &[10, 11]);
    let cols = grid.cols();
    assert_eq!(cols.len(), 2);
    assert_eq!(cols[1], vec![&1, &11, &21]);
    assert_eq!(grid.row(2), &[20, 21]);
    assert_eq!(grid.column(0), vec![&0, &10, &20]);
    assert_eq!(grid.iter(), &[0, 1, 10, 11, 20, 21]);
}

#[test]
fn dense_maps() {
    let grid: Grid2D<i32> = Grid2D::new_fn((3, 2), |p: IVec2| p.x * 10 + p.y);
    let doubled: Grid2D<i64> = grid.map_ref(|c: &i32| 2 * (*c as i64));
    assert_eq!(doubled.size(), grid.size());
    for y in 0..2 {
        for x in 0..3 {
            assert_eq!(doubled.get((x, y)).copied(), grid.get((x, y)).map(|c| 2 * (*c as i64)));
        }
    }
    let by_ref: Grid2D<i32> = Grid2D::new_grid_map_ref(&grid, |c: &i32| c + 1);
    assert_eq!(by_ref.get((2, 1)), Some(&22));
    let mut source = grid.clone();
    let plus = source.map_mut(|c| c + 100);
    assert_eq!(source, grid);
    assert_eq!(plus.get((1, 0)), Some(&110));
    source.map_inplace(|c| c * 2);
    assert_eq!(source.data(), &[0, 2, 20, 22, 40, 42]);
    let mut seen = Vec::new();
    source.map_inplace_mut(|c| {
        seen.push(c);
        c / 2
    });
    assert_eq!(seen, vec![0, 2, 20, 22, 40, 42]);
    assert_eq!(source, grid);
    let mapped = grid.clone().map(|c: &i32| -c);
    assert_eq!(mapped.get((1, 1)), Some(&-11));
    assert_eq!(mapped.size(), grid.size());
}

#[test]
fn dense_updates_in_place() {
    let mut grid: Grid2D<i32> = Grid2D::new_fn((3, 2), |p: IVec2| p.x * 10 + p.y);
    let mut order = Vec::new();
    grid.cols_mut(|c| {
        order.push(c);
        c
    });
    assert_eq!(order, vec![0, 10, 20, 1, 11, 21]);
    let mut order = Vec::new();
    grid.rows_mut(|c| {
        order.push(c);
        c + 1
    });
    assert_eq!(order, vec![0, 1, 10, 11, 20, 21]);
    grid.iter_mut(|c| c * 2);
    assert_eq!(grid.data(), &[2, 4, 22, 24, 42, 44]);
}

#[test]
fn dense_from_vec() {
    let grid = Grid2D::new_from_vec((2usize, 3usize), vec![1, 2, 3, 4, 5, 6]).unwrap();
    assert_eq!(grid.size(), UVec2::new(2, 3));
    assert_eq!(grid.get((1, 0)), Some(&4));
    assert_eq!(grid.get((0, 2)), Some(&3));
    assert_eq!(
        Grid2D::new_from_vec((2usize, 3usize), vec![1, 2, 3, 4, 5]).unwrap_err(),
        ShapeError::OutOfBounds
    );
    assert_eq!(
        Grid2D::new_from_vec((2usize, 3usize), vec![1, 2, 3, 4, 5, 6, 7]).unwrap_err(),
        ShapeError::IncompatibleShape
    );
    assert_eq!(
        Grid2D::new_from_vec((0x8000_0000u32, 1u32), vec![1u8]).unwrap_err(),
        ShapeError::RangeLimited
    );
    assert_eq!(
        Grid2D::new_from_vec((0x7fff_ffffu32, 0x7fff_ffffu32), vec![1u8]).unwrap_err(),
        ShapeError::OutOfBounds
    );
    assert_eq!(
        Grid2D::new_from_vec((0u32, 5u32), vec![1u8]).unwrap_err(),
        ShapeError::IncompatibleShape
    );
    let kept = Grid2D::new_from_vec((3usize, 1usize), vec![7, 8, 9]).unwrap();
    assert_eq!(kept.data(), &[7, 8, 9]);
    let empty = Grid2D::new_from_vec((0usize, 3usize), Vec::<u8>::new()).unwrap();
    assert!(empty.is_empty());
}

#[test]
fn map_between_the_two_storages() {
    let flat: Grid<i32> = Grid::new_fn((3, 2), |p: IVec2| p.y * 3 + p.x);
    let dense: Grid2D<i32> = Grid2D::new_grid_map(flat.clone(), |c: &i32| c * 2);
    assert_eq!(dense.size(), flat.size());
    for y in 0..2 {
        for x in 0..3 {
            assert_eq!(dense.get((x, y)).copied(), flat.get((x, y)).map(|c| c * 2));
        }
    }
    assert_eq!(dense.data(), &[0, 6, 2, 8, 4, 10]);
    let dense: Grid2D<i32> = Grid2D::new_fn((3, 2), |p: IVec2| p.x * 10 + p.y);
    let back: Grid<i32> = Grid::new_grid_map(dense.clone(), |c: &i32| *c);
    assert_eq!(back.data(), &[0, 10, 20, 1, 11, 21]);
    assert_eq!(back.get((2, 1)), dense.get((2, 1)));
    let same: Grid2D<i32> = Grid2D::new_grid_map(dense.clone(), |c: &i32| c + 1);
    for y in 0..2 {
        for x in 0..3 {
            assert_eq!(same.get((x, y)).copied(), dense.get((x, y)).map(|c| c + 1));
        }
    }
    let grid: Grid2D<u8> = Grid2D::new_default((2, 2));
    assert_eq!(grid.data(), &[0, 0, 0, 0]);
}
