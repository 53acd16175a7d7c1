//! Stroke-rendering and color-picking engine of a small paint surface.
//!
//! Positions on the canvas are fixed-point numbers with `CANVAS_SCALE` units
//! per canvas extent, colors hold 8-bit channels; the GPU side of the program
//! converts both to the floating-point values its shaders read.
pub mod color;
pub mod coords;
pub mod readback;
pub mod brush;
pub mod colorwheel;
pub mod canvas;
pub mod event;
