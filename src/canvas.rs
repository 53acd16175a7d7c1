use vstd::prelude::*;

use crate::brush::{
    radius_down, radius_up, BRUSH_DEFAULT,    closes_segment, line_points, pen_after, quad_points, segment_start, Brush, PenState, Point,
};
use crate::color::Rgb;
use crate::colorwheel::ColorWheel;
use crate::coords::{to_canvas, CanvasPos};
use crate::readback::{
    padded_bytes_per_row, padded_row_bytes, pick_pixel, pixel_in_bounds, pixel_offset,
    bgra_at, readback_bytes, readback_size,
};

verus! {

/// How strokes are drawn; chosen once when the canvas is made.
#[derive(Clone, Copy, Debug, PartialEq, Eq, Structural)]
pub enum StrokeMode {
    /// Each segment is a line between its two ends.
    Lines,
    /// Each segment is a quad as wide as the brush radius.
    Quads,
}

/// The CPU-readable buffer a frame is copied into for color picking.
#[derive(Clone, Copy, Debug, PartialEq, Eq, Structural)]
pub struct OutputBuffer {
    pub width: u32,
    pub height: u32,
    pub bytes_per_row: u64,
    pub size: u64,
}

/// What one frame draws and copies.
#[derive(Clone, Copy, Debug, PartialEq, Eq, Structural)]
pub struct FramePlan {
    /// Vertices of the stroke pipeline's draw.
    pub vertex_count: usize,
    /// Whether the overlay is drawn after the strokes.
    pub draw_overlay: bool,
    /// The overlay's block for this frame.
    pub overlay: ColorWheel,
    /// Where the rendered frame is copied for a pending pick, if one is pending.
    pub copy_to: Option<OutputBuffer>,
}

/// The paint surface's state: the strokes so far, the brush, the overlay, and
/// the size of the window and of the readback buffer.
pub struct Canvas {
    pub strokes: Vec<Point>,
    pub colorwheel: ColorWheel,
    pub brush: Brush,
    pub mode: StrokeMode,
    pub colorwheel_enabled: bool,
    pub buffer_width: u32,
    pub buffer_height: u32,
    /// The device pixel of a pick waiting for the next frame's copy.
    pub pending_pick: Option<(u64, u64)>,
}

/// The vertices of the segment from `prev` to `curr` in `mode`.
pub open spec fn segment_points(mode: StrokeMode, prev: CanvasPos, curr: CanvasPos, radius: int, color: Rgb) -> Seq<Point> {
    match mode {
        StrokeMode::Lines => line_points(prev, curr, color),
        StrokeMode::Quads => quad_points(prev, curr, radius, color),
    }
}

/// The readback buffer for a `width` by `height` frame, where its size fits a `u64`.
pub open spec fn output_buffer_for(width: int, height: int) -> Option<OutputBuffer> {
    if readback_bytes(width, height) <= u64::MAX {
        Some(OutputBuffer {
            width: width as u32,
            height: height as u32,
            bytes_per_row: padded_row_bytes(width) as u64,
            size: readback_bytes(width, height) as u64,
        })
    } else {
        None
    }
}

/// `|v|` as an unsigned device coordinate.
pub open spec fn magnitude(v: int) -> int {
    if v < 0 { -v } else { v }
}

/// Appends `pts` to `strokes` in order.
fn append_points(strokes: &mut Vec<Point>, pts: &[Point])
    ensures
        final(strokes)@ == old(strokes)@ + pts@,
{
    let mut i: usize = 0;
    while i < pts.len()
        invariant
            i <= pts@.len(),
            strokes@ == old(strokes)@ + pts@.subrange(0, i as int),
        decreases pts@.len() - i,
    {
        strokes.push(pts[i]);
        i = i + 1;
        assert(strokes@ =~= old(strokes)@ + pts@.subrange(0, i as int));
    }
    assert(pts@.subrange(0, i as int) =~= pts@);
}

/// What came of asking the window's surface for a frame to draw into.
#[derive(Clone, Copy, Debug, PartialEq, Eq, Structural)]
pub enum SurfaceStatus {
    /// A frame was handed out.
    Ready,
    /// The surface no longer matches the window and must be asked again.
    Outdated,
    /// No frame came in time.
    Timeout,
    /// The surface is gone.
    Lost,
    /// The device ran out of memory.
    OutOfMemory,
}

/// What the frame loop does next after asking for a frame.
#[derive(Clone, Copy, Debug, PartialEq, Eq, Structural)]
pub enum AcquireStep {
    /// Draw into the frame that was handed out.
    Draw,
    /// Ask again within the same frame.
    Retry,
    /// Give up: the failure ends the session.
    Fail,
}

/// The next step after asking the surface for a frame: a transient failure is
/// retried, any other failure is fatal.
pub fn acquire_step(status: SurfaceStatus) -> (r: AcquireStep)
    ensures
        r == (match status {
            SurfaceStatus::Ready => AcquireStep::Draw,
            SurfaceStatus::Outdated | SurfaceStatus::Timeout => AcquireStep::Retry,
            SurfaceStatus::Lost | SurfaceStatus::OutOfMemory => AcquireStep::Fail,
        }),
{
    match status {
        SurfaceStatus::Ready => AcquireStep::Draw,
        SurfaceStatus::Outdated | SurfaceStatus::Timeout => AcquireStep::Retry,
        SurfaceStatus::Lost | SurfaceStatus::OutOfMemory => AcquireStep::Fail,
    }
}

/// The state of a `Canvas` as plain values.
pub struct CanvasView {
    pub strokes: Seq<Point>,
    pub colorwheel: ColorWheel,
    pub brush: Brush,
    pub mode: StrokeMode,
    pub colorwheel_enabled: bool,
    pub buffer_width: u32,
    pub buffer_height: u32,
    pub pending_pick: Option<(u64, u64)>,
}

impl CanvasView {
    /// The brush is well formed and the overlay's size follows the window's.
    pub open spec fn wf(&self) -> bool {
        &&& self.brush.wf()
        &&& self.colorwheel.width == self.buffer_width
        &&& self.colorwheel.height == self.buffer_height
    }

    /// Whether a pointer sample at device pixel `(x, y)` appends geometry: the
    /// window has an area and the sample closes a segment.
    pub open spec fn sample_emits(self, down: bool, x: i32, y: i32) -> bool {
        &&& self.buffer_width > 0
        &&& self.buffer_height > 0
        &&& closes_segment(self.brush.pen, down, self.canvas_pos(x, y))
    }

    /// Device pixel `(x, y)` in canvas space for the current window size.
    pub open spec fn canvas_pos(self, x: i32, y: i32) -> CanvasPos {
        to_canvas(x as int, y as int, self.buffer_width as int, self.buffer_height as int)
    }

    /// The canvas after a pointer sample at device pixel `(x, y)`: unchanged
    /// while the window has no area; otherwise the pen follows the sample and
    /// the geometry of the segment it closes, if any, follows the strokes.
    pub open spec fn after_sample(self, down: bool, x: i32, y: i32) -> CanvasView {
        if self.buffer_width == 0 || self.buffer_height == 0 {
            self
        } else {
            let pos = self.canvas_pos(x, y);
            CanvasView {
                brush: Brush { pen: pen_after(down, pos), ..self.brush },
                strokes: self.strokes + (if self.sample_emits(down, x, y) {
                    segment_points(
                        self.mode,
                        segment_start(self.brush.pen),
                        pos,
                        self.brush.radius as int,
                        self.brush.color,
                    )
                } else {
                    Seq::empty()
                }),
                ..self
            }
        }
    }

    /// The canvas with the overlay toggled.
    pub open spec fn toggled(self) -> CanvasView {
        CanvasView { colorwheel_enabled: !self.colorwheel_enabled, ..self }
    }

    /// The canvas with `color` as the brush's and the overlay's color.
    pub open spec fn with_color(self, color: Rgb) -> CanvasView {
        CanvasView {
            brush: Brush { color, ..self.brush },
            colorwheel: ColorWheel { color, ..self.colorwheel },
            ..self
        }
    }

    /// The canvas with a brush of radius `radius`.
    pub open spec fn with_radius(self, radius: int) -> CanvasView {
        CanvasView { brush: Brush { radius: radius as i64, ..self.brush }, ..self }
    }

    /// The canvas after a pick was asked for at device pixel `(x, y)`: it is
    /// pending at `(|x|, |y|)` where the overlay is shown, and the canvas is
    /// unchanged where it is not.
    pub open spec fn with_pick(self, x: i32, y: i32) -> CanvasView {
        if self.colorwheel_enabled {
            CanvasView { pending_pick: Some((magnitude(x as int) as u64, magnitude(y as int) as u64)), ..self }
        } else {
            self
        }
    }

    /// The canvas after the window took a `width` by `height` size.
    pub open spec fn resized(self, width: u32, height: u32) -> CanvasView {
        CanvasView {
            buffer_width: width,
            buffer_height: height,
            colorwheel: ColorWheel { width, height, ..self.colorwheel },
            ..self
        }
    }
}

impl View for Canvas {
    type V = CanvasView;

    open spec fn view(&self) -> CanvasView {
        CanvasView {
            strokes: self.strokes@,
            colorwheel: self.colorwheel,
            brush: self.brush,
            mode: self.mode,
            colorwheel_enabled: self.colorwheel_enabled,
            buffer_width: self.buffer_width,
            buffer_height: self.buffer_height,
            pending_pick: self.pending_pick,
        }
    }
}

impl Canvas {
    /// The canvas's state is well formed.
    pub open spec fn wf(&self) -> bool {
        self@.wf()
    }

    /// Describes the readback buffer for a `width` by `height` frame; `None`
    /// where its size does not fit a `u64`.
    pub fn create_output_buffer(width: u32, height: u32) -> (r: Option<OutputBuffer>)
        ensures
            r == output_buffer_for(width as int, height as int),
    {
        match readback_size(width, height) {
            Some(size) => Some(OutputBuffer {
                width,
                height,
                bytes_per_row: padded_bytes_per_row(width),
                size,
            }),
            None => None,
        }
    }

    /// An empty canvas for a `width` by `height` window, drawing in `mode`.
    pub fn new(width: u32, height: u32, mode: StrokeMode) -> (r: Canvas)
        ensures
            r.wf(),
            r.strokes@ == Seq::<Point>::empty(),
            r.brush.color == (Rgb { r: 0, g: 0, b: 0 }),
            r.brush.pen == PenState::Idle,
            r.brush.radius == BRUSH_DEFAULT,
            r.colorwheel == (ColorWheel { color: Rgb { r: 0, g: 0, b: 0 }, width, height }),
            r.mode == mode,
            !r.colorwheel_enabled,
            r.buffer_width == width,
            r.buffer_height == height,
            r.pending_pick.is_none(),
    {
        let mut colorwheel = ColorWheel::new();
        colorwheel.set_size(width, height);
        Canvas {
            strokes: Vec::new(),
            colorwheel,
            brush: Brush::new(),
            mode,
            colorwheel_enabled: false,
            buffer_width: width,
            buffer_height: height,
            pending_pick: None,
        }
    }

    /// Takes a pointer sample at device pixel `(x, y)`: maps it to canvas
    /// space, hands it to the brush, and appends the geometry of the segment
    /// it closes, if any. Returns whether geometry was appended. While the
    /// window has no area, samples are ignored.
    pub fn mouse_at(&mut self, down: bool, x: i32, y: i32) -> (r: bool)
        requires
            old(self).wf(),
        ensures
            final(self).wf(),
            r == old(self)@.sample_emits(down, x, y),
            final(self)@ == old(self)@.after_sample(down, x, y),
    {
        if self.buffer_width == 0 || self.buffer_height == 0 {
            return false;
        }
        let pos = self.colorwheel.get_canvas_pos(x, y);
        match self.mode {
            StrokeMode::Lines => match self.brush.draw_line(down, pos) {
                Some(pts) => {
                    append_points(&mut self.strokes, &pts);
                    true
                },
                None => {
                    assert(self.strokes@ =~= old(self).strokes@ + Seq::empty());
                    false
                },
            },
            StrokeMode::Quads => match self.brush.draw_stroke(down, pos) {
                Some(pts) => {
                    append_points(&mut self.strokes, &pts);
                    true
                },
                None => {
                    assert(self.strokes@ =~= old(self).strokes@ + Seq::empty());
                    false
                },
            },
        }
    }

    /// Shows the overlay if hidden, hides it if shown.
    pub fn color_wheel_toogle(&mut self)
        requires
            old(self).wf(),
        ensures
            final(self).wf(),
            final(self)@ == old(self)@.toggled(),
    {
        self.colorwheel_enabled = !self.colorwheel_enabled;
    }

    /// Whether the overlay is shown.
    pub fn is_color_wheel_enabled(&self) -> (r: bool)
        ensures
            r == self.colorwheel_enabled,
    {
        self.colorwheel_enabled
    }

    /// Sets the brush's color and the overlay's picked color.
    pub fn set_color(&mut self, color: Rgb)
        requires
            old(self).wf(),
        ensures
            final(self).wf(),
            final(self)@ == old(self)@.with_color(color),
    {
        self.brush.set_color(color);
        self.colorwheel.set_color(color);
    }

    /// Grows the brush by one step, up to its largest radius.
    pub fn inc_brush_size(&mut self)
        requires
            old(self).wf(),
        ensures
            final(self).wf(),
            final(self)@ == old(self)@.with_radius(radius_up(old(self).brush.radius as int)),
    {
        self.brush.inc_radius();
    }

    /// Shrinks the brush by one step, down to its smallest radius.
    pub fn dec_brush_size(&mut self)
        requires
            old(self).wf(),
        ensures
            final(self).wf(),
            final(self)@ == old(self)@.with_radius(radius_down(old(self).brush.radius as int)),
    {
        self.brush.dec_radius();
    }

    /// Asks for the color under device pixel `(|x|, |y|)`, where the overlay is
    /// shown; the next frame is then copied for reading. Returns whether the
    /// pick was recorded.
    pub fn request_pick(&mut self, x: i32, y: i32) -> (r: bool)
        requires
            old(self).wf(),
        ensures
            final(self).wf(),
            r == old(self).colorwheel_enabled,
            final(self)@ == old(self)@.with_pick(x, y),
    {
        if !self.colorwheel_enabled {
            return false;
        }
        let px: u64 = if x < 0 { (-(x as i64)) as u64 } else { x as u64 };
        let py: u64 = if y < 0 { (-(y as i64)) as u64 } else { y as u64 };
        self.pending_pick = Some((px, py));
        true
    }

    /// What the next frame draws: every stroke vertex, then the overlay where it
    /// is shown; and, while a pick is pending, the readback buffer the frame is
    /// copied into.
    pub fn redraw_canvas(&self) -> (r: FramePlan)
        requires
            self.wf(),
        ensures
            r.vertex_count == self.strokes@.len(),
            r.draw_overlay == self.colorwheel_enabled,
            r.overlay == self.colorwheel,
            r.copy_to == (if self.pending_pick.is_some() {
                output_buffer_for(self.buffer_width as int, self.buffer_height as int)
            } else {
                None
            }),
    {
        let copy_to = if self.pending_pick.is_some() {
            Canvas::create_output_buffer(self.buffer_width, self.buffer_height)
        } else {
            None
        };
        FramePlan {
            vertex_count: self.strokes.len(),
            draw_overlay: self.colorwheel_enabled,
            overlay: self.colorwheel,
            copy_to,
        }
    }

    /// Completes the pending pick with the mapped readback buffer, or with
    /// `None` where mapping it failed. Where the bytes are those of a buffer for
    /// the current size and the pixel lies inside it, its color becomes the
    /// brush's and the overlay's. The pick is no longer pending afterwards.
    /// Returns whether the color changed hands.
    pub fn finish_pick(&mut self, mapped: Option<&[u8]>) -> (r: bool)
        requires
            old(self).wf(),
        ensures
            final(self).wf(),
            r == pick_succeeds(old(self)@, mapped),
            r ==> {
                let (x, y) = old(self).pending_pick.unwrap();
                let c = bgra_at(mapped.unwrap()@, pixel_offset(old(self).buffer_width as int, x as int, y as int));
                final(self)@ == (CanvasView { pending_pick: None, ..old(self)@.with_color(c) })
            },
            !r ==> final(self)@ == (CanvasView { pending_pick: None, ..old(self)@ }),
    {
        let pending = self.pending_pick;
        self.pending_pick = None;
        let (x, y) = match pending {
            Some(p) => p,
            None => return false,
        };
        let bytes = match mapped {
            Some(b) => b,
            None => return false,
        };
        let len = bytes.len();
        match readback_size(self.buffer_width, self.buffer_height) {
            Some(size) => {
                if len as u64 != size {
                    return false;
                }
            },
            None => {
                assert(len <= u64::MAX);
                return false;
            },
        }
        match pick_pixel(bytes, self.buffer_width, self.buffer_height, x, y) {
            Some(c) => {
                self.set_color(c);
                true
            },
            None => false,
        }
    }

    /// Takes a new window size: the overlay's size follows it and the readback
    /// buffer is made anew for it; the strokes stay as they are. Returns the new
    /// readback buffer, or `None` where its size does not fit a `u64`.
    pub fn resize_window(&mut self, width: u32, height: u32) -> (r: Option<OutputBuffer>)
        requires
            old(self).wf(),
        ensures
            final(self).wf(),
            r == output_buffer_for(width as int, height as int),
            final(self)@ == old(self)@.resized(width, height),
    {
        self.buffer_width = width;
        self.buffer_height = height;
        self.colorwheel.set_size(width, height);
        Canvas::create_output_buffer(width, height)
    }
}

/// Whether the pending pick of `c` succeeds with `mapped`: a pick is pending,
/// the buffer was mapped and holds exactly the readback bytes of the current
/// size, and the pixel lies inside it.
pub open spec fn pick_succeeds(c: CanvasView, mapped: Option<&[u8]>) -> bool {
    &&& c.pending_pick is Some
    &&& mapped is Some
    &&& mapped.unwrap()@.len() == readback_bytes(c.buffer_width as int, c.buffer_height as int)
    &&& pixel_in_bounds(
        mapped.unwrap()@.len() as int,
        c.buffer_width as int,
        c.buffer_height as int,
        c.pending_pick.unwrap().0 as int,
        c.pending_pick.unwrap().1 as int,
    )
}

/// Resizing the window, to any size and then to another, leaves the strokes
/// as they were and the overlay in step with the last size; from then on a
/// pick succeeds only with a buffer of exactly the readback bytes of the last
/// size, which `resize_window` describes.
pub proof fn lemma_resize_keeps_strokes(c: CanvasView, w1: u32, h1: u32, w2: u32, h2: u32, mapped: Option<&[u8]>)
    requires
        c.wf(),
    ensures
        ({
            let d = c.resized(w1, h1).resized(w2, h2);
            &&& d.wf()
            &&& d.strokes == c.strokes
            &&& d.brush == c.brush
            &&& d.colorwheel.width == w2 && d.colorwheel.height == h2
            &&& pick_succeeds(d, mapped) ==> mapped.unwrap()@.len() == readback_bytes(w2 as int, h2 as int)
        }),
        readback_bytes(w2 as int, h2 as int) <= u64::MAX ==> output_buffer_for(w2 as int, h2 as int) == Some(
            OutputBuffer {
                width: w2,
                height: h2,
                bytes_per_row: padded_row_bytes(w2 as int) as u64,
                size: readback_bytes(w2 as int, h2 as int) as u64,
            },
        ),
{
}

} // verus!
