//! Directions of the compass, sets of them, walks over them and tables
//! indexed by them.

pub mod bitmap;
pub mod cardinal;
pub mod direction;
pub mod iter;
pub mod ordinal;
pub mod random;
pub mod table;
