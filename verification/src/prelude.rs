//! The names that most programs need, in one place.

pub use crate::axis::Axis;
pub use crate::canvas::Canvas;
pub use crate::direction::bitmap::{
    DirectionBitmap, ALL_DIRECTIONS_BITMAP_RAW, NO_DIRECTIONS_BITMAP_RAW,
};
pub use crate::direction::cardinal::{
    CardinalDirection, ALL_CARDINAL_DIRECTION_BITMAP_RAW, NUM_CARDINAL_DIRECTIONS,
};
pub use crate::direction::direction::{Direction, DirectionType, NUM_DIRECTIONS};
pub use crate::direction::iter::{
    CardinalDirectionIter, CardinalDirections, DirectionCardinalIter, DirectionIter,
    DirectionOrdinalIter, Directions, DirectionsCardinal, DirectionsOrdinal, OrdinalDirectionIter,
    OrdinalDirections,
};
pub use crate::direction::ordinal::{
    OrdinalDirection, ALL_ORDINAL_DIRECTION_BITMAP_RAW, NUM_ORDINAL_DIRECTIONS,
};
pub use crate::direction::table::{CardinalDirectionTable, DirectionTable, OrdinalDirectionTable};
pub use crate::geometry::coord::Coord;
pub use crate::geometry::distance::DistanceAlg;
pub use crate::geometry::shapes::rect::iter::RectPointIter;
pub use crate::geometry::shapes::rect::{GridCorner, Rect};
pub use crate::geometry::size::Size;
pub use crate::grid_like::{GridLike, RangeEnd};
pub use crate::grid_point::{GridPoint, GridPointBounds};
pub use crate::grids::grid::Grid;
pub use crate::grids::grid_2d::{Grid2D, ShapeError};
pub use crate::size_2d::{
    check_size_limit, max_size, DimensionTooLargeForSize, PointIterRowMajor, Size2d,
    MAX_SIZE_FIELD,
};
pub use crate::vec2::{IVec2, UVec2};
