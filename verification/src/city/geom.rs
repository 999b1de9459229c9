//! Geometry primitives: vectors and axis-aligned rectangles.

pub mod circle;
pub mod rectangle;
pub mod vector;

pub use circle::Circle;
pub use rectangle::Rectangle;
pub use vector::{Vector2, Vector2i};
