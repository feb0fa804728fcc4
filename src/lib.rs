pub mod geometry;
pub mod collision;
pub mod world;
