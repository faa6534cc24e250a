//! The two grid storages.

pub mod grid;
pub mod grid_2d;
