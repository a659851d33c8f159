pub mod geometry;
pub mod phi;
pub mod views;
