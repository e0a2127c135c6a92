pub mod geometry;
pub mod picture;
pub mod tool;
pub mod mode;
pub mod editor;
pub mod render;
pub mod ui;
pub mod laws;
