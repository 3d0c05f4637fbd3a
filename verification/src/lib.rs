pub mod engine;
pub mod events;
pub mod frame;
pub mod geometry;
mod gpu;
