pub mod color;
pub mod fixed;
pub mod point;
pub mod matrix;
pub mod transform;
