pub mod game;
pub mod gl;
pub mod math;
pub mod obj;
