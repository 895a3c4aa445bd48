//! The picture: frame buffer, system palette and renderer.

pub mod frame;
pub mod laws;
pub mod pallete;
pub mod render;

