//! The render core of an interactive Mandelbrot viewer: the pixel grid, the
//! rendering parameters, the key priorities and the per-tick decisions, all
//! on integers. The complex-plane arithmetic and the window live with the
//! caller, which hands in what it sampled and computed.

pub mod application;
pub mod grid;
pub mod keys;
pub mod pacing;
pub mod render;
pub mod settings;
