//! Linear algebra and plane geometry over fixed-point coordinates.

pub mod aabb;
pub mod circle;
pub mod mat;
pub mod polygon;
pub mod sat;
pub mod segment;
pub mod shape;
pub mod triangle;
pub mod vec;
