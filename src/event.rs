use vstd::prelude::*;

use rand::RngCore;

use crate::brush::{radius_down, radius_up};
use crate::canvas::{Canvas, CanvasView};
use crate::color::Rgb;

verus! {

/// Relies on rand::rngs::OsRng's `try_fill_bytes` (rand_core): three bytes
/// from the operating system's generator, or its error, which becomes `None`;
/// nothing is promised of the bytes' values.
#[verifier::external_body]
fn random_color() -> Option<Rgb> {
    let mut bytes = [0u8; 3];
    match rand::rngs::OsRng.try_fill_bytes(&mut bytes) {
        Ok(()) => Some(Rgb { r: bytes[0], g: bytes[1], b: bytes[2] }),
        Err(_) => None,
    }
}

/// The input of one tick, as plain values.
#[derive(Clone, Copy, Debug)]
pub struct InputFrame {
    /// The key that grows the brush was pressed.
    pub increase: bool,
    /// The key that shrinks the brush was pressed.
    pub decrease: bool,
    /// The key that shows or hides the overlay was pressed.
    pub toggle_overlay: bool,
    /// The secondary pointer button was pressed.
    pub secondary_pressed: bool,
    /// The primary pointer button is held.
    pub primary_held: bool,
    /// The pointer's device pixel position, where it is known.
    pub mouse: Option<(i32, i32)>,
}

/// The canvas after the brush-size keys of `input`.
pub open spec fn after_size_keys(c: CanvasView, input: InputFrame) -> CanvasView {
    let c1 = if input.increase { c.with_radius(radius_up(c.brush.radius as int)) } else { c };
    if input.decrease { c1.with_radius(radius_down(c1.brush.radius as int)) } else { c1 }
}

/// The canvas after the keys and buttons of `input`, before its pointer sample:
/// the brush-size keys, the overlay key, then the secondary button, which asks
/// for a pick at the pointer where the overlay is shown and, where it is not,
/// sets `color` if there is one.
pub open spec fn after_buttons(c: CanvasView, input: InputFrame, color: Option<Rgb>) -> CanvasView {
    let c2 = after_size_keys(c, input);
    let c3 = if input.toggle_overlay { c2.toggled() } else { c2 };
    if input.secondary_pressed {
        if c3.colorwheel_enabled {
            match input.mouse {
                Some((x, y)) => c3.with_pick(x, y),
                None => c3,
            }
        } else {
            match color {
                Some(k) => c3.with_color(k),
                None => c3,
            }
        }
    } else {
        c3
    }
}

/// The canvas after all of `input`, with `color`, if any, as the color the
/// secondary button sets where the overlay is hidden.
pub open spec fn input_effect(c: CanvasView, input: InputFrame, color: Option<Rgb>) -> CanvasView {
    let c4 = after_buttons(c, input, color);
    match input.mouse {
        Some((x, y)) => c4.after_sample(input.primary_held, x, y),
        None => c4,
    }
}

/// Whether `input` calls for a redraw: the overlay was toggled, the secondary
/// button was pressed, or the pointer sample appended geometry.
pub open spec fn input_redraws(c: CanvasView, input: InputFrame) -> bool {
    ||| input.toggle_overlay
    ||| input.secondary_pressed
    ||| (match input.mouse {
        Some((x, y)) => after_buttons(c, input, None).sample_emits(input.primary_held, x, y),
        None => false,
    })
}

/// Turns each tick's input into changes of the canvas.
pub struct InputHandler {}

/// Applies `input` to `canvas`, with `color`, if any, as the color the
/// secondary button sets where the overlay is hidden; without one that press
/// leaves the color as it was. Returns whether the window needs a redraw.
pub fn apply_input(input: &InputFrame, canvas: &mut Canvas, color: Option<Rgb>) -> (r: bool)
    requires
        old(canvas).wf(),
    ensures
        final(canvas).wf(),
        final(canvas)@ == input_effect(old(canvas)@, *input, color),
        r == input_redraws(old(canvas)@, *input),
{
    let mut redraw = false;
    if input.increase {
        canvas.inc_brush_size();
    }
    if input.decrease {
        canvas.dec_brush_size();
    }
    assert(canvas@ == after_size_keys(old(canvas)@, *input));
    if input.toggle_overlay {
        canvas.color_wheel_toogle();
        redraw = true;
    }
    if input.secondary_pressed {
        if canvas.is_color_wheel_enabled() {
            match input.mouse {
                Some((x, y)) => {
                    canvas.request_pick(x, y);
                },
                None => {},
            }
        } else {
            match color {
                Some(k) => canvas.set_color(k),
                None => {},
            }
        }
        redraw = true;
    }
    assert(canvas@ == after_buttons(old(canvas)@, *input, color));
    assert(canvas@.brush.pen == after_buttons(old(canvas)@, *input, None).brush.pen);
    match input.mouse {
        Some((x, y)) => {
            let moved = canvas.mouse_at(input.primary_held, x, y);
            redraw = redraw || moved;
        },
        None => {},
    }
    redraw
}

impl InputHandler {
    /// A handler that draws its colors from the operating system's generator.
    pub fn new() -> (r: InputHandler) {
        InputHandler {}
    }

    /// Applies `input` to `canvas`; the color the secondary button sets where
    /// the overlay is hidden is drawn at random, and where the system's
    /// generator fails that press leaves the color as it was. Returns whether
    /// the window needs a redraw.
    pub fn handle_input(&mut self, input: &InputFrame, canvas: &mut Canvas) -> (r: bool)
        requires
            old(canvas).wf(),
        ensures
            final(canvas).wf(),
            final(canvas)@ == input_effect(old(canvas)@, *input, None)
                || exists|color: Rgb| final(canvas)@ == input_effect(old(canvas)@, *input, Some(color)),
            r == input_redraws(old(canvas)@, *input),
    {
        let color = if input.secondary_pressed {
            random_color()
        } else {
            None
        };
        let r = apply_input(input, canvas, color);
        assert(color matches Some(k) ==> final(canvas)@ == input_effect(old(canvas)@, *input, Some(k)));
        r
    }
}

} // verus!
