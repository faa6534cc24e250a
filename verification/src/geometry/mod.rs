//! Plane geometry on integer coordinates: points, extents and rectangles.

pub mod coord;
pub mod distance;
pub mod rect;
pub mod shapes;
pub mod size;
