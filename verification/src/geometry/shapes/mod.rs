//! Shapes.

pub mod rect;
