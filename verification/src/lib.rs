//! Axis-aligned bounding boxes on an integer grid, with overlap tests and
//! swept-motion correction along each axis.
//!
//! Every coordinate is an `i64` count of grid units. A caller that works in
//! fractions of a unit picks a fixed scale and multiplies before calling.

pub mod vector;
pub mod contact;
pub mod bounding_box;
pub mod overlap;
pub mod sweep;

pub use bounding_box::BoundingBox;
pub use vector::TransformPosition;
pub use vector::Vector2;
