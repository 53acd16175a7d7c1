use vstd::prelude::*;

use crate::coords::{pos_in_range, to_canvas, to_canvas_pos, CanvasPos};
use crate::color::Rgb;

verus! {

/// Bytes of the constant block the overlay's fragment stage reads: a color of
/// four 32-bit floats, then the canvas size in three.
pub const COLOR_WHEEL_BLOCK_BYTES: u32 = 28;

/// The overlay's state that its fragment stage reads: the picked color and
/// the canvas size in device pixels.
#[derive(Clone, Copy, Debug, PartialEq, Eq, Structural)]
pub struct ColorWheel {
    pub color: Rgb,
    pub width: u32,
    pub height: u32,
}

/// Relies on wgpu::PUSH_CONSTANT_ALIGNMENT, the alignment of a push-constant
/// range's bounds (4 in wgpu-types).
#[verifier::external_body]
fn push_constant_alignment() -> (r: u32)
    ensures
        r == 4,
{
    wgpu::PUSH_CONSTANT_ALIGNMENT
}

impl ColorWheel {
    /// A black overlay over a canvas of no size.
    pub fn new() -> (r: ColorWheel)
        ensures
            r == (ColorWheel { color: Rgb { r: 0, g: 0, b: 0 }, width: 0, height: 0 }),
    {
        ColorWheel { color: Rgb { r: 0, g: 0, b: 0 }, width: 0, height: 0 }
    }

    /// Sets the picked color.
    pub fn set_color(&mut self, color: Rgb)
        ensures
            *final(self) == (ColorWheel { color, ..*old(self) }),
    {
        self.color = color;
    }

    /// Maps a device pixel position to canvas space for the current canvas size.
    pub fn get_canvas_pos(&self, x: i32, y: i32) -> (r: CanvasPos)
        requires
            self.width > 0,
            self.height > 0,
        ensures
            r == to_canvas(x as int, y as int, self.width as int, self.height as int),
            pos_in_range(r),
    {
        to_canvas_pos(x, y, self.width, self.height)
    }

    /// Records a new canvas size.
    pub fn set_size(&mut self, width: u32, height: u32)
        ensures
            *final(self) == (ColorWheel { width, height, ..*old(self) }),
    {
        self.width = width;
        self.height = height;
    }

    /// Whether a push-constant range of `limit` bytes holds the overlay's block
    /// exactly: the block's size is a multiple of the push-constant alignment
    /// and at most `limit`.
    pub fn block_fits(limit: u32) -> (r: bool)
        ensures
            r == (COLOR_WHEEL_BLOCK_BYTES % 4 == 0 && COLOR_WHEEL_BLOCK_BYTES <= limit),
    {
        let align = push_constant_alignment();
        COLOR_WHEEL_BLOCK_BYTES % align == 0 && COLOR_WHEEL_BLOCK_BYTES <= limit
    }
}

impl Default for ColorWheel {
    fn default() -> (r: ColorWheel)
        ensures
            r == (ColorWheel { color: Rgb { r: 0, g: 0, b: 0 }, width: 0, height: 0 }),
    {
        ColorWheel::new()
    }
}

} // verus!
