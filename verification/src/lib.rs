//! A tile-and-sprite graphics core with a small grid game on top of it.
//!
//! `graphics` holds the scanline rasterizer (`graphics::hires_core`), a debug core
//! that paints a plain test image, a pixel buffer for displays and a text helper.
//! `bomberman` holds the game field, its entities and the movement rules.
pub mod bomberman;
pub mod common;
pub mod graphics;
