//! Two-dimensional building blocks for grid-based programs: coordinate and
//! extent abstractions, grid storage with two layouts, directions and
//! rectangles.

pub mod axis;
pub mod canvas;
pub mod direction;
pub mod geometry;
pub mod grid_like;
pub mod grid_point;
pub mod grids;
pub mod prelude;
pub mod size_2d;
pub mod vec2;
