pub mod app;
pub mod buffer;
pub mod editor;
pub mod geometry;
pub mod position;
