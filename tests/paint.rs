use rusty_paint::brush::{
    stroke_line, stroke_quad, Brush, PenState, Point, BRUSH_DEFAULT, BRUSH_MAX, BRUSH_MIN,
    BRUSH_STEP,
};
use rusty_paint::color::Rgb;
use rusty_paint::canvas::{
    acquire_step, AcquireStep, Canvas, OutputBuffer, StrokeMode, SurfaceStatus,
};
use rusty_paint::colorwheel::{ColorWheel, COLOR_WHEEL_BLOCK_BYTES};
use rusty_paint::coords::{to_canvas_pos, CanvasPos, CANVAS_HALF, CANVAS_SCALE};
use rusty_paint::event::{apply_input, InputFrame, InputHandler};
use rusty_paint::readback::{
    padded_bytes_per_row, pick_pixel, readback_size, unpadded_bytes_per_row, ROW_ALIGNMENT,
};

fn pos(x: i64, y: i64) -> CanvasPos {
    CanvasPos { x, y }
}

const RED: Rgb = Rgb { r: 255, g: 0, b: 0 };

fn quiet_input() -> InputFrame {
    InputFrame {
        increase: false,
        decrease: false,
        toggle_overlay: false,
        secondary_pressed: false,
        primary_held: false,
        mouse: None,
    }
}

/// A 10 by 10 readback buffer whose pixel at row 5, column 5 holds the given bytes.
fn frame_with_pixel(bgra: [u8; 4]) -> Vec<u8> {
    let row = padded_bytes_per_row(10) as usize;
    let mut bytes = vec![0u8; row * 10];
    let off = row * 5 + 4 * 5;
    bytes[off..off + 4].copy_from_slice(&bgra);
    bytes
}

#[test]
fn first_down_sample_emits_nothing() {
    let mut b = Brush::new();
    assert!(b.draw_stroke(true, pos(0, 0)).is_none());
    assert_eq!(b.pen, PenState::Drawing(pos(0, 0)));
}

#[test]
fn drag_emits_six_vertices_per_segment() {
    let mut b = Brush::new();
    assert!(b.draw_stroke(true, pos(0, 0)).is_none());
    let q = b.draw_stroke(true, pos(1000, 0)).unwrap();
    assert_eq!(q.len(), 6);
    let q2 = b.draw_stroke(true, pos(1000, 2000)).unwrap();
    assert_eq!(q2.len(), 6);
}

#[test]
fn drag_emits_two_vertices_in_line_mode() {
    let mut b = Brush::new();
    b.set_color(RED);
    assert!(b.draw_line(true, pos(0, 0)).is_none());
    let l = b.draw_line(true, pos(5, 7)).unwrap();
    assert_eq!(l, [Point { color: RED, pos: pos(0, 0) }, Point { color: RED, pos: pos(5, 7) }]);
}

#[test]
fn unmoved_down_sample_emits_nothing() {
    let mut b = Brush::new();
    assert!(b.draw_stroke(true, pos(3, 4)).is_none());
    assert!(b.draw_stroke(true, pos(3, 4)).is_none());
    assert!(b.draw_line(true, pos(3, 4)).is_none());
}

#[test]
fn up_sample_never_emits() {
    let mut b = Brush::new();
    assert!(b.draw_stroke(true, pos(0, 0)).is_none());
    assert!(b.draw_stroke(false, pos(50, 50)).is_none());
    assert_eq!(b.pen, PenState::Idle);
    assert!(b.draw_stroke(true, pos(100, 100)).is_none());
    assert!(b.draw_stroke(true, pos(200, 100)).is_some());
}

#[test]
fn emitted_color_is_taken_at_emission() {
    let mut b = Brush::new();
    assert!(b.draw_line(true, pos(0, 0)).is_none());
    let first = b.draw_line(true, pos(1, 0)).unwrap();
    b.set_color(RED);
    let second = b.draw_line(true, pos(2, 0)).unwrap();
    assert_eq!(first[0].color, Rgb { r: 0, g: 0, b: 0 });
    assert_eq!(second[0].color, RED);
    assert_eq!(second[0].pos, pos(1, 0));
}

#[test]
fn horizontal_quad_has_vertical_offset() {
    let c = Rgb { r: 1, g: 2, b: 3 };
    let q = stroke_quad(pos(0, 0), pos(10, 0), 2, c);
    let expected = [pos(0, 1), pos(0, -1), pos(10, -1), pos(10, -1), pos(10, 1), pos(0, 1)];
    for i in 0..6 {
        assert_eq!(q[i].pos, expected[i]);
        assert_eq!(q[i].color, c);
    }
}

#[test]
fn vertical_quad_has_horizontal_offset() {
    let c = Rgb { r: 9, g: 9, b: 9 };
    let q = stroke_quad(pos(0, 0), pos(0, 10), 4, c);
    let expected = [pos(-2, 0), pos(2, 0), pos(2, 10), pos(2, 10), pos(-2, 10), pos(-2, 0)];
    for i in 0..6 {
        assert_eq!(q[i].pos, expected[i]);
    }
}

#[test]
fn diagonal_quad_offset() {
    // Segment of length 5 from (3, 4) to (0, 0); radius 10 gives an offset of
    // (-4, 3) along the perpendicular.
    let q = stroke_quad(pos(3, 4), pos(0, 0), 10, RED);
    assert_eq!(q[0].pos, pos(7, 1));
    assert_eq!(q[1].pos, pos(-1, 7));
    assert_eq!(q[2].pos, pos(-4, 3));
    assert_eq!(q[4].pos, pos(4, -3));
    assert_eq!(q[5].pos, q[0].pos);
}

#[test]
fn stroke_line_keeps_ends() {
    let l = stroke_line(pos(-5, 5), pos(7, -7), RED);
    assert_eq!(l[0].pos, pos(-5, 5));
    assert_eq!(l[1].pos, pos(7, -7));
}

#[test]
fn canvas_center_maps_to_origin() {
    assert_eq!(to_canvas_pos(400, 300, 800, 600), pos(0, 0));
    assert_eq!(to_canvas_pos(0, 0, 800, 600), pos(-CANVAS_HALF, CANVAS_HALF));
    assert_eq!(to_canvas_pos(800, 600, 800, 600), pos(CANVAS_HALF, -CANVAS_HALF));
    assert_eq!(to_canvas_pos(400, 150, 800, 600), pos(0, 250_000));
}

#[test]
fn canvas_mapping_rounds_down_and_handles_negatives() {
    // 1 / 3 of the width is 333_333.33 units.
    assert_eq!(to_canvas_pos(1, 1, 3, 3), pos(333_333 - CANVAS_HALF, CANVAS_HALF - 333_333));
    assert_eq!(to_canvas_pos(-1, -1, 3, 3), pos(-333_334 - CANVAS_HALF, CANVAS_HALF + 333_334));
}

#[test]
fn canvas_mapping_is_injective_and_invertible() {
    let (w, h) = (37u32, 23u32);
    let mut seen = Vec::new();
    for x in 0..w as i32 {
        for y in 0..h as i32 {
            let p = to_canvas_pos(x, y, w, h);
            assert!(!seen.contains(&p));
            seen.push(p);
            let back_x = ((p.x + CANVAS_HALF) * w as i64 + CANVAS_SCALE - 1).div_euclid(CANVAS_SCALE);
            let back_y = ((CANVAS_HALF - p.y) * h as i64 + CANVAS_SCALE - 1).div_euclid(CANVAS_SCALE);
            assert_eq!((back_x, back_y), (x as i64, y as i64));
        }
    }
}

#[test]
fn canvas_mapping_matches_float_formula() {
    let (w, h) = (1280u32, 720u32);
    for &(x, y) in &[(0, 0), (17, 700), (640, 360), (1279, 1), (333, 444)] {
        let p = to_canvas_pos(x, y, w, h);
        let fx = x as f64 / w as f64 - 0.5;
        let fy = -(y as f64) / h as f64 + 0.5;
        assert!((p.x as f64 / CANVAS_SCALE as f64 - fx).abs() < 1e-5);
        assert!((p.y as f64 / CANVAS_SCALE as f64 - fy).abs() < 1e-5);
    }
}

#[test]
fn radius_stays_in_bounds() {
    let mut b = Brush::new();
    assert_eq!(b.radius, BRUSH_DEFAULT);
    for _ in 0..5000 {
        b.inc_radius();
        assert!(b.radius >= BRUSH_MIN && b.radius <= BRUSH_MAX);
    }
    assert_eq!(b.radius, BRUSH_MAX);
    for i in 0..7000 {
        if i % 3 == 0 {
            b.inc_radius();
        } else {
            b.dec_radius();
        }
        assert!(b.radius >= BRUSH_MIN && b.radius <= BRUSH_MAX);
    }
    b.dec_radius();
    b.dec_radius();
    assert_eq!(b.radius, BRUSH_MIN);
}

#[test]
fn radius_steps_by_fixed_delta() {
    let mut b = Brush::new();
    b.inc_radius();
    assert_eq!(b.radius, BRUSH_DEFAULT + BRUSH_STEP);
    b.dec_radius();
    b.dec_radius();
    assert_eq!(b.radius, BRUSH_DEFAULT - BRUSH_STEP);
}

#[test]
fn hundred_up_two_hundred_down_ends_at_min() {
    let mut b = Brush::default();
    // The default radius is 0.0005 of the canvas.
    assert_eq!(b.radius as f64 / CANVAS_SCALE as f64, 0.0005);
    for _ in 0..100 {
        b.inc_radius();
    }
    assert_eq!(b.radius, BRUSH_DEFAULT + 100 * BRUSH_STEP);
    for _ in 0..200 {
        b.dec_radius();
        assert!(b.radius >= BRUSH_MIN);
    }
    assert_eq!(b.radius, BRUSH_MIN);
}

#[test]
fn padded_rows_are_aligned() {
    for w in [1u32, 2, 63, 64, 65, 100, 640, 800, 1023, 1920, 4096, u32::MAX] {
        let p = padded_bytes_per_row(w);
        let u = unpadded_bytes_per_row(w);
        assert!(p >= u);
        assert!(p < u + ROW_ALIGNMENT);
        assert_eq!(p % ROW_ALIGNMENT, 0);
    }
    assert_eq!(padded_bytes_per_row(1), 256);
    assert_eq!(padded_bytes_per_row(64), 256);
    assert_eq!(padded_bytes_per_row(65), 512);
    assert_eq!(padded_bytes_per_row(800), 3328);
    assert_eq!(padded_bytes_per_row(0), 0);
}

#[test]
fn readback_size_fits_or_not() {
    assert_eq!(readback_size(800, 600), Some(3328 * 600));
    assert_eq!(readback_size(0, 0), Some(0));
    assert_eq!(readback_size(u32::MAX, u32::MAX), None);
}

#[test]
fn pick_reads_bgra_pixel() {
    let bytes = frame_with_pixel([255, 128, 0, 255]);
    let c = pick_pixel(&bytes, 10, 10, 5, 5).unwrap();
    assert_eq!(c, Rgb { r: 0, g: 128, b: 255 });
    let (r, g, b) = (c.r as f32 / 255.0, c.g as f32 / 255.0, c.b as f32 / 255.0);
    assert_eq!(r, 0.0);
    assert!((g - 0.502).abs() < 0.001);
    assert_eq!(b, 1.0);
}

#[test]
fn pick_out_of_bounds_fails() {
    let bytes = frame_with_pixel([1, 2, 3, 4]);
    assert!(pick_pixel(&bytes, 10, 10, 10, 5).is_none());
    assert!(pick_pixel(&bytes, 10, 10, 5, 10).is_none());
    assert!(pick_pixel(&bytes, 10, 10, u64::MAX, u64::MAX).is_none());
    assert!(pick_pixel(&bytes[..256 * 5 + 22], 10, 10, 5, 5).is_none());
    assert!(pick_pixel(&bytes, 10, 10, 9, 9).is_some());
}

#[test]
fn canvas_pick_sets_brush_and_overlay_color() {
    let mut c = Canvas::new(10, 10, StrokeMode::Quads);
    assert!(!c.request_pick(5, 5));
    assert!(c.pending_pick.is_none());
    c.color_wheel_toogle();
    assert!(c.is_color_wheel_enabled());
    assert!(c.request_pick(-5, 5));
    let plan = c.redraw_canvas();
    let out = plan.copy_to.unwrap();
    assert_eq!(out, OutputBuffer { width: 10, height: 10, bytes_per_row: 256, size: 2560 });
    let bytes = frame_with_pixel([255, 128, 0, 255]);
    assert!(c.finish_pick(Some(&bytes)));
    let picked = Rgb { r: 0, g: 128, b: 255 };
    assert_eq!(c.brush.color, picked);
    assert_eq!(c.colorwheel.color, picked);
    assert!(c.pending_pick.is_none());
    assert!(c.redraw_canvas().copy_to.is_none());
}

#[test]
fn canvas_pick_failures_leave_color() {
    let mut c = Canvas::new(10, 10, StrokeMode::Quads);
    c.color_wheel_toogle();
    let bytes = frame_with_pixel([255, 128, 0, 255]);
    // Nothing pending.
    assert!(!c.finish_pick(Some(&bytes)));
    // Mapping failed.
    assert!(c.request_pick(5, 5));
    assert!(!c.finish_pick(None));
    assert!(c.pending_pick.is_none());
    // Outside the image.
    assert!(c.request_pick(10, 5));
    assert!(!c.finish_pick(Some(&bytes)));
    // A buffer of another size.
    assert!(c.request_pick(5, 5));
    assert!(!c.finish_pick(Some(&bytes[..2304])));
    assert_eq!(c.brush.color, Rgb { r: 0, g: 0, b: 0 });
    assert_eq!(c.colorwheel.color, Rgb { r: 0, g: 0, b: 0 });
}

#[test]
fn resize_keeps_strokes_and_resizes_buffer() {
    let mut c = Canvas::new(10, 10, StrokeMode::Lines);
    assert!(!c.mouse_at(true, 1, 1));
    assert!(c.mouse_at(true, 4, 4));
    assert!(c.mouse_at(true, 8, 2));
    let before = c.strokes.clone();
    assert_eq!(before.len(), 4);
    assert_eq!(c.resize_window(0, 0), Some(OutputBuffer { width: 0, height: 0, bytes_per_row: 0, size: 0 }));
    assert!(!c.mouse_at(true, 9, 9));
    let out = c.resize_window(800, 600).unwrap();
    assert_eq!(out, OutputBuffer { width: 800, height: 600, bytes_per_row: 3328, size: 1_996_800 });
    assert_eq!(c.strokes, before);
    assert_eq!((c.colorwheel.width, c.colorwheel.height), (800, 600));
    c.color_wheel_toogle();
    assert!(c.request_pick(5, 5));
    // The old 10 by 10 buffer is refused after the resize.
    let old = frame_with_pixel([255, 128, 0, 255]);
    assert!(!c.finish_pick(Some(&old)));
    assert!(c.request_pick(5, 5));
    let mut fresh = vec![0u8; out.size as usize];
    let off = 3328 * 5 + 4 * 5;
    fresh[off..off + 4].copy_from_slice(&[10, 20, 30, 255]);
    assert!(c.finish_pick(Some(&fresh)));
    assert_eq!(c.brush.color, Rgb { r: 30, g: 20, b: 10 });
}

#[test]
fn zero_sized_window_ignores_samples() {
    let mut c = Canvas::new(0, 600, StrokeMode::Quads);
    assert!(!c.mouse_at(true, 1, 1));
    assert!(!c.mouse_at(true, 5, 5));
    assert_eq!(c.brush.pen, PenState::Idle);
    assert!(c.strokes.is_empty());
}

#[test]
fn quad_canvas_appends_six_per_segment() {
    let mut c = Canvas::new(800, 600, StrokeMode::Quads);
    assert!(!c.mouse_at(true, 100, 100));
    assert!(c.mouse_at(true, 200, 100));
    assert!(!c.mouse_at(true, 200, 100));
    assert!(c.mouse_at(true, 200, 300));
    assert!(!c.mouse_at(false, 300, 300));
    assert_eq!(c.strokes.len(), 12);
    let plan = c.redraw_canvas();
    assert_eq!(plan.vertex_count, 12);
    assert!(!plan.draw_overlay);
    assert!(plan.copy_to.is_none());
}

#[test]
fn frame_plan_follows_overlay() {
    let mut c = Canvas::new(640, 480, StrokeMode::Lines);
    let empty = c.redraw_canvas();
    assert_eq!(empty.vertex_count, 0);
    c.color_wheel_toogle();
    c.set_color(RED);
    let plan = c.redraw_canvas();
    assert!(plan.draw_overlay);
    assert_eq!(plan.overlay, ColorWheel { color: RED, width: 640, height: 480 });
    c.color_wheel_toogle();
    assert!(!c.redraw_canvas().draw_overlay);
}

#[test]
fn surface_failures_retry_or_fail() {
    assert_eq!(acquire_step(SurfaceStatus::Ready), AcquireStep::Draw);
    assert_eq!(acquire_step(SurfaceStatus::Outdated), AcquireStep::Retry);
    assert_eq!(acquire_step(SurfaceStatus::Timeout), AcquireStep::Retry);
    assert_eq!(acquire_step(SurfaceStatus::Lost), AcquireStep::Fail);
    assert_eq!(acquire_step(SurfaceStatus::OutOfMemory), AcquireStep::Fail);
}

#[test]
fn overlay_block_fits_push_constants() {
    assert_eq!(COLOR_WHEEL_BLOCK_BYTES, 28);
    assert!(ColorWheel::block_fits(32));
    assert!(ColorWheel::block_fits(128));
    assert!(!ColorWheel::block_fits(24));
}

#[test]
fn overlay_maps_with_its_size() {
    let mut w = ColorWheel::new();
    w.set_size(200, 100);
    assert_eq!(w.get_canvas_pos(50, 25), pos(-250_000, 250_000));
    w.set_color(RED);
    assert_eq!(w.color, RED);
}

#[test]
fn input_keys_change_radius_and_overlay() {
    let mut c = Canvas::new(800, 600, StrokeMode::Quads);
    let mut input = quiet_input();
    input.increase = true;
    assert!(!apply_input(&input, &mut c, Some(RED)));
    assert_eq!(c.brush.radius, BRUSH_DEFAULT + BRUSH_STEP);
    input.increase = false;
    input.decrease = true;
    apply_input(&input, &mut c, Some(RED));
    apply_input(&input, &mut c, Some(RED));
    assert_eq!(c.brush.radius, BRUSH_DEFAULT - BRUSH_STEP);
    let mut toggle = quiet_input();
    toggle.toggle_overlay = true;
    assert!(apply_input(&toggle, &mut c, Some(RED)));
    assert!(c.colorwheel_enabled);
}

#[test]
fn secondary_button_sets_color_or_picks() {
    let mut c = Canvas::new(800, 600, StrokeMode::Quads);
    let mut input = quiet_input();
    input.secondary_pressed = true;
    input.mouse = Some((7, 9));
    assert!(apply_input(&input, &mut c, Some(RED)));
    assert_eq!(c.brush.color, RED);
    assert!(c.pending_pick.is_none());
    c.color_wheel_toogle();
    let blue = Rgb { r: 0, g: 0, b: 255 };
    assert!(apply_input(&input, &mut c, Some(blue)));
    assert_eq!(c.brush.color, RED);
    assert_eq!(c.pending_pick, Some((7, 9)));
}

#[test]
fn secondary_button_without_color_keeps_color() {
    let mut c = Canvas::new(800, 600, StrokeMode::Quads);
    let mut input = quiet_input();
    input.secondary_pressed = true;
    assert!(apply_input(&input, &mut c, None));
    assert_eq!(c.brush.color, Rgb { r: 0, g: 0, b: 0 });
    assert_eq!(c.colorwheel.color, Rgb { r: 0, g: 0, b: 0 });
}

#[test]
fn input_drag_draws() {
    let mut c = Canvas::new(800, 600, StrokeMode::Lines);
    let mut input = quiet_input();
    input.primary_held = true;
    input.mouse = Some((10, 10));
    assert!(!apply_input(&input, &mut c, Some(RED)));
    input.mouse = Some((30, 10));
    assert!(apply_input(&input, &mut c, Some(RED)));
    assert_eq!(c.strokes.len(), 2);
    assert_eq!(c.strokes[1].pos, to_canvas_pos(30, 10, 800, 600));
}

#[test]
fn handler_draws_random_color_on_secondary_press() {
    let mut h = InputHandler::new();
    let mut c = Canvas::new(800, 600, StrokeMode::Quads);
    let mut input = quiet_input();
    input.secondary_pressed = true;
    let mut colors = Vec::new();
    for _ in 0..8 {
        assert!(h.handle_input(&input, &mut c));
        assert_eq!(c.brush.color, c.colorwheel.color);
        colors.push(c.brush.color);
    }
    assert!(colors.iter().any(|&k| k != colors[0]));
    assert!(!h.handle_input(&quiet_input(), &mut c));
}
