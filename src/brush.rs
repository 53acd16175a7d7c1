use vstd::prelude::*;

use crate::coords::{pos_in_range, CanvasPos};
use crate::color::Rgb;

verus! {

/// Smallest brush radius, in canvas units.
pub const BRUSH_MIN: i64 = 100;

/// Amount by which the brush radius grows or shrinks in one step, in canvas units.
pub const BRUSH_STEP: i64 = 100;

/// Largest brush radius, in canvas units.
pub const BRUSH_MAX: i64 = 100_000;

/// Radius of a new brush, in canvas units.
pub const BRUSH_DEFAULT: i64 = 500;

/// One vertex of the stroke geometry.
#[derive(Clone, Copy, Debug, PartialEq, Eq, Structural)]
pub struct Point {
    pub color: Rgb,
    pub pos: CanvasPos,
}

/// Whether the pointer was down at the last sample, and where.
#[derive(Clone, Copy, Debug, PartialEq, Eq, Structural)]
pub enum PenState {
    Idle,
    Drawing(CanvasPos),
}

/// The brush: its color and radius, and the last pointer sample it saw.
pub struct Brush {
    pub color: Rgb,
    pub pen: PenState,
    pub radius: i64,
}

/// Whether `s` is the square root of `v` rounded down.
pub open spec fn is_floor_sqrt(v: int, s: int) -> bool {
    0 <= s && s * s <= v < (s + 1) * (s + 1)
}

/// The square root of `v` rounded down.
pub open spec fn floor_sqrt(v: int) -> int {
    choose|s: int| is_floor_sqrt(v, s)
}

/// `n / d` rounded toward zero.
pub open spec fn div_toward_zero(n: int, d: int) -> int {
    if n >= 0 {
        n / d
    } else {
        -((-n) / d)
    }
}

/// Length of the segment from `a` to `b`, rounded down.
pub open spec fn seg_len(a: CanvasPos, b: CanvasPos) -> int {
    floor_sqrt((a.x - b.x) * (a.x - b.x) + (a.y - b.y) * (a.y - b.y))
}

/// Half a `radius` along the perpendicular of the segment from `prev` to `curr`:
/// `(-sin a, cos a) * radius / 2` for `a` the direction from `curr` to `prev`,
/// each coordinate rounded toward zero.
pub open spec fn quad_offset(prev: CanvasPos, curr: CanvasPos, radius: int) -> (int, int) {
    (
        -div_toward_zero((prev.y - curr.y) * radius, 2 * seg_len(prev, curr)),
        div_toward_zero((prev.x - curr.x) * radius, 2 * seg_len(prev, curr)),
    )
}

/// `p` moved by `sign` times `off`.
pub open spec fn shifted(p: CanvasPos, off: (int, int), sign: int) -> CanvasPos {
    CanvasPos { x: (p.x + sign * off.0) as i64, y: (p.y + sign * off.1) as i64 }
}

/// The six vertices of the quad of width `radius` over the segment from `prev`
/// to `curr`: the triangles `prev - o, prev + o, curr + o` and
/// `curr + o, curr - o, prev - o` for `o` the `quad_offset`.
pub open spec fn quad_points(prev: CanvasPos, curr: CanvasPos, radius: int, color: Rgb) -> Seq<Point> {
    let o = quad_offset(prev, curr, radius);
    seq![
        Point { color, pos: shifted(prev, o, -1) },
        Point { color, pos: shifted(prev, o, 1) },
        Point { color, pos: shifted(curr, o, 1) },
        Point { color, pos: shifted(curr, o, 1) },
        Point { color, pos: shifted(curr, o, -1) },
        Point { color, pos: shifted(prev, o, -1) },
    ]
}

/// The two vertices of the line over the segment from `prev` to `curr`.
pub open spec fn line_points(prev: CanvasPos, curr: CanvasPos, color: Rgb) -> Seq<Point> {
    seq![Point { color, pos: prev }, Point { color, pos: curr }]
}

/// Where the pen stands after a sample.
pub open spec fn pen_after(down: bool, pos: CanvasPos) -> PenState {
    if down {
        PenState::Drawing(pos)
    } else {
        PenState::Idle
    }
}

/// Whether a sample closes a segment: the pen was down at the last sample,
/// is down now, and has moved.
pub open spec fn closes_segment(pen: PenState, down: bool, pos: CanvasPos) -> bool {
    &&& down
    &&& pen matches PenState::Drawing(prev)
    &&& prev != pos
}

/// The start of the segment that a sample closes.
pub open spec fn segment_start(pen: PenState) -> CanvasPos {
    match pen {
        PenState::Drawing(prev) => prev,
        PenState::Idle => CanvasPos { x: 0, y: 0 },
    }
}

/// The radius after one step up: one `BRUSH_STEP` more, at most `BRUSH_MAX`.
pub open spec fn radius_up(r: int) -> int {
    if r + BRUSH_STEP <= BRUSH_MAX {
        r + BRUSH_STEP
    } else {
        BRUSH_MAX as int
    }
}

/// The radius after one step down: one `BRUSH_STEP` less, at least `BRUSH_MIN`.
pub open spec fn radius_down(r: int) -> int {
    if r - BRUSH_STEP >= BRUSH_MIN {
        r - BRUSH_STEP
    } else {
        BRUSH_MIN as int
    }
}

/// A floor square root is unique.
proof fn lemma_floor_sqrt_unique(v: int, s: int)
    requires
        is_floor_sqrt(v, s),
    ensures
        floor_sqrt(v) == s,
{
    let t = floor_sqrt(v);
    assert(is_floor_sqrt(v, t));
    if t < s {
        assert((t + 1) * (t + 1) <= s * s) by (nonlinear_arith)
            requires 0 <= t, t + 1 <= s;
    } else if s < t {
        assert((s + 1) * (s + 1) <= t * t) by (nonlinear_arith)
            requires 0 <= s, s + 1 <= t;
    }
}

/// The square root of `v` rounded down.
fn isqrt(v: u128) -> (r: u64)
    ensures
        r == floor_sqrt(v as int),
        is_floor_sqrt(v as int, r as int),
{
    let mut lo: u128 = 0;
    let mut hi: u128 = 0x1_0000_0000_0000_0000;
    assert(v < hi * hi) by (nonlinear_arith)
        requires hi == 0x1_0000_0000_0000_0000u128, v <= u128::MAX;
    while hi - lo > 1
        invariant
            lo < hi <= 0x1_0000_0000_0000_0000u128,
            lo * lo <= v,
            v < hi * hi,
        decreases hi - lo,
    {
        let mid: u128 = lo + (hi - lo) / 2;
        assert(mid * mid < 0x1_0000_0000_0000_0000u128 * 0x1_0000_0000_0000_0000u128) by (nonlinear_arith)
            requires mid < 0x1_0000_0000_0000_0000u128;
        if mid * mid <= v {
            lo = mid;
        } else {
            hi = mid;
        }
    }
    assert(is_floor_sqrt(v as int, lo as int));
    proof {
        lemma_floor_sqrt_unique(v as int, lo as int);
    }
    lo as u64
}

/// `e * r / (2 * len)` rounded toward zero, for `|e| <= len`: at most `r / 2`
/// in magnitude.
fn scaled_offset(e: i64, r: i64, len: u64) -> (o: i64)
    requires
        0 < len,
        -(len as int) <= e <= len,
        0 <= r <= BRUSH_MAX,
    ensures
        o == div_toward_zero(e * r, 2 * len),
        -r <= 2 * o <= r,
{
    let mag: u128 = if e >= 0 { e as u128 } else { (-(e as i128)) as u128 };
    assert(mag * r <= 0x8000_0000_0000_0000u128 * 0x1_0000_0000u128) by (nonlinear_arith)
        requires mag <= 0x8000_0000_0000_0000u128, 0 <= r <= BRUSH_MAX;
    let a: u128 = mag * r as u128;
    let d: u128 = 2 * len as u128;
    let q: u128 = a / d;
    proof {
        vstd::arithmetic::div_mod::lemma_fundamental_div_mod(a as int, d as int);
        vstd::arithmetic::div_mod::lemma_mod_bound(a as int, d as int);
        assert(q * d <= a) by (nonlinear_arith)
            requires a == d * (a / d) + a % d, q == a / d, a % d >= 0;
        assert(2 * q <= r) by (nonlinear_arith)
            requires
                q * d <= a,
                a == mag * r,
                mag <= len,
                d == 2 * len,
                0 < len,
                0 <= r,
                q >= 0;
        if e < 0 {
            assert(-(e * r) == a) by (nonlinear_arith)
                requires mag == -e, a == mag * r;
            if r == 0 {
                assert(e * r == 0) by (nonlinear_arith)
                    requires r == 0;
            }
        } else {
            assert(e * r == a) by (nonlinear_arith)
                requires mag == e, a == mag * r;
        }
    }
    if e >= 0 {
        q as i64
    } else {
        -(q as i64)
    }
}

/// A coordinate difference is at most the segment's length rounded down.
proof fn lemma_component_le_len(e: int, f: int, len: int)
    requires
        is_floor_sqrt(e * e + f * f, len),
    ensures
        -len <= e <= len,
{
    assert(e * e <= e * e + f * f) by (nonlinear_arith);
    if e > len {
        assert((len + 1) * (len + 1) <= e * e) by (nonlinear_arith)
            requires len + 1 <= e, 0 <= len;
    } else if e < -len {
        assert((len + 1) * (len + 1) <= e * e) by (nonlinear_arith)
            requires e <= -(len + 1), 0 <= len;
    }
}

/// The six vertices of the quad of width `radius` over the segment from `prev`
/// to `curr`, all of `color`.
pub fn stroke_quad(prev: CanvasPos, curr: CanvasPos, radius: i64, color: Rgb) -> (r: [Point; 6])
    requires
        pos_in_range(prev),
        pos_in_range(curr),
        prev != curr,
        0 <= radius <= BRUSH_MAX,
    ensures
        r@ == quad_points(prev, curr, radius as int, color),
{
    let ex: i64 = prev.x - curr.x;
    let ey: i64 = prev.y - curr.y;
    assert(ex * ex + ey * ey <= 0x10_0000_0000_0000_0000_0000_0000_0000u128) by (nonlinear_arith)
        requires
            -0x200_0000_0000_0000 <= ex <= 0x200_0000_0000_0000,
            -0x200_0000_0000_0000 <= ey <= 0x200_0000_0000_0000;
    assert(0 <= ex * ex <= 0x4_0000_0000_0000_0000_0000_0000_0000u128) by (nonlinear_arith)
        requires -0x200_0000_0000_0000 <= ex <= 0x200_0000_0000_0000;
    assert(0 <= ey * ey <= 0x4_0000_0000_0000_0000_0000_0000_0000u128) by (nonlinear_arith)
        requires -0x200_0000_0000_0000 <= ey <= 0x200_0000_0000_0000;
    let d2: u128 = (ex as i128 * ex as i128 + ey as i128 * ey as i128) as u128;
    let len = isqrt(d2);
    proof {
        let v = d2 as int;
        let l = len as int;
        lemma_component_le_len(ex as int, ey as int, l);
        assert(ey * ey + ex * ex == v);
        lemma_component_le_len(ey as int, ex as int, l);
        if l == 0 {
            assert(v < 1);
            assert(ex * ex >= 0 && ey * ey >= 0) by (nonlinear_arith);
            assert(ex == 0) by (nonlinear_arith)
                requires ex * ex + ey * ey < 1, ey * ey >= 0;
            assert(ey == 0) by (nonlinear_arith)
                requires ex * ex + ey * ey < 1, ex * ex >= 0;
        }
        assert(seg_len(prev, curr) == l);
    }
    let ox: i64 = -scaled_offset(ey, radius, len);
    let oy: i64 = scaled_offset(ex, radius, len);
    let a = Point { color, pos: CanvasPos { x: prev.x - ox, y: prev.y - oy } };
    let b = Point { color, pos: CanvasPos { x: prev.x + ox, y: prev.y + oy } };
    let c = Point { color, pos: CanvasPos { x: curr.x + ox, y: curr.y + oy } };
    let d = Point { color, pos: CanvasPos { x: curr.x - ox, y: curr.y - oy } };
    let r = [a, b, c, c, d, a];
    assert(r@ =~= quad_points(prev, curr, radius as int, color));
    r
}

/// The two vertices of the line over the segment from `prev` to `curr`, both of `color`.
pub fn stroke_line(prev: CanvasPos, curr: CanvasPos, color: Rgb) -> (r: [Point; 2])
    ensures
        r@ == line_points(prev, curr, color),
{
    let r = [Point { color, pos: prev }, Point { color, pos: curr }];
    assert(r@ =~= line_points(prev, curr, color));
    r
}

impl Brush {
    /// The radius lies within its bounds and a recorded position can take stroke geometry.
    pub open spec fn wf(&self) -> bool {
        &&& BRUSH_MIN <= self.radius <= BRUSH_MAX
        &&& self.pen matches PenState::Drawing(p) ==> pos_in_range(p)
    }

    /// A black brush of the default radius with the pen up.
    pub fn new() -> (r: Brush)
        ensures
            r.wf(),
            r.color == (Rgb { r: 0, g: 0, b: 0 }),
            r.pen == PenState::Idle,
            r.radius == BRUSH_DEFAULT,
    {
        Brush { color: Rgb { r: 0, g: 0, b: 0 }, pen: PenState::Idle, radius: BRUSH_DEFAULT }
    }

    /// Shrinks the radius by one step, stopping at `BRUSH_MIN`.
    pub fn dec_radius(&mut self)
        requires
            old(self).wf(),
        ensures
            final(self).wf(),
            final(self).radius == radius_down(old(self).radius as int),
            final(self).color == old(self).color,
            final(self).pen == old(self).pen,
    {
        if self.radius - BRUSH_STEP >= BRUSH_MIN {
            self.radius = self.radius - BRUSH_STEP;
        } else {
            self.radius = BRUSH_MIN;
        }
    }

    /// Grows the radius by one step, stopping at `BRUSH_MAX`.
    pub fn inc_radius(&mut self)
        requires
            old(self).wf(),
        ensures
            final(self).wf(),
            final(self).radius == radius_up(old(self).radius as int),
            final(self).color == old(self).color,
            final(self).pen == old(self).pen,
    {
        if self.radius + BRUSH_STEP <= BRUSH_MAX {
            self.radius = self.radius + BRUSH_STEP;
        } else {
            self.radius = BRUSH_MAX;
        }
    }

    /// Sets the color of the strokes to come.
    pub fn set_color(&mut self, color: Rgb)
        requires
            old(self).wf(),
        ensures
            final(self).wf(),
            final(self).color == color,
            final(self).radius == old(self).radius,
            final(self).pen == old(self).pen,
    {
        self.color = color;
    }

    /// Takes a pointer sample; where it closes a segment, returns the quad over
    /// that segment in the brush's color and radius.
    pub fn draw_stroke(&mut self, down: bool, pos: CanvasPos) -> (r: Option<[Point; 6]>)
        requires
            old(self).wf(),
            pos_in_range(pos),
        ensures
            final(self).wf(),
            final(self).pen == pen_after(down, pos),
            final(self).color == old(self).color,
            final(self).radius == old(self).radius,
            r.is_some() <==> closes_segment(old(self).pen, down, pos),
            r.is_some() ==> r.unwrap()@ == quad_points(
                segment_start(old(self).pen),
                pos,
                old(self).radius as int,
                old(self).color,
            ),
    {
        let prev = self.pen;
        self.pen = if down { PenState::Drawing(pos) } else { PenState::Idle };
        match prev {
            PenState::Drawing(p) => {
                if down && p != pos {
                    Some(stroke_quad(p, pos, self.radius, self.color))
                } else {
                    None
                }
            },
            PenState::Idle => None,
        }
    }

    /// Takes a pointer sample; where it closes a segment, returns the line over
    /// that segment in the brush's color.
    pub fn draw_line(&mut self, down: bool, pos: CanvasPos) -> (r: Option<[Point; 2]>)
        requires
            old(self).wf(),
            pos_in_range(pos),
        ensures
            final(self).wf(),
            final(self).pen == pen_after(down, pos),
            final(self).color == old(self).color,
            final(self).radius == old(self).radius,
            r.is_some() <==> closes_segment(old(self).pen, down, pos),
            r.is_some() ==> r.unwrap()@ == line_points(
                segment_start(old(self).pen),
                pos,
                old(self).color,
            ),
    {
        let prev = self.pen;
        self.pen = if down { PenState::Drawing(pos) } else { PenState::Idle };
        match prev {
            PenState::Drawing(p) => {
                if down && p != pos {
                    Some(stroke_line(p, pos, self.color))
                } else {
                    None
                }
            },
            PenState::Idle => None,
        }
    }
}

impl Default for Brush {
    fn default() -> (r: Brush)
        ensures
            r.wf(),
            r.color == (Rgb { r: 0, g: 0, b: 0 }),
            r.pen == PenState::Idle,
            r.radius == BRUSH_DEFAULT,
    {
        Brush::new()
    }
}

/// The pen after a brush that started idle has taken `samples` in order.
/// Only the last sample decides it.
pub open spec fn pen_after_samples(samples: Seq<(bool, CanvasPos)>) -> PenState {
    if samples.len() == 0 {
        PenState::Idle
    } else {
        pen_after(samples.last().0, samples.last().1)
    }
}

/// The radius after `ups` in order, each a step up where `true` and down where `false`.
pub open spec fn radius_after_steps(r: int, ups: Seq<bool>) -> int
    decreases ups.len(),
{
    if ups.len() == 0 {
        r
    } else {
        let before = radius_after_steps(r, ups.drop_last());
        if ups.last() {
            radius_up(before)
        } else {
            radius_down(before)
        }
    }
}

/// Over any run of pointer samples taken by a brush that started idle, a
/// sample yields geometry exactly when it and the sample before it are down
/// and its position differs from that sample's; the first sample never does.
/// A quad has six vertices and a line two.
pub proof fn lemma_emits_iff_moved_while_down(samples: Seq<(bool, CanvasPos)>, i: int)
    requires
        0 <= i < samples.len(),
    ensures
        closes_segment(pen_after_samples(samples.take(i)), samples[i].0, samples[i].1) <==> (
            i > 0 && samples[i - 1].0 && samples[i].0 && samples[i].1 != samples[i - 1].1),
        closes_segment(pen_after_samples(samples.take(i)), samples[i].0, samples[i].1)
            ==> segment_start(pen_after_samples(samples.take(i))) == samples[i - 1].1,
        forall|a: CanvasPos, b: CanvasPos, r: int, c: Rgb| #[trigger] quad_points(a, b, r, c).len() == 6,
        forall|a: CanvasPos, b: CanvasPos, c: Rgb| #[trigger] line_points(a, b, c).len() == 2,
{
    let pre = samples.take(i);
    if i > 0 {
        assert(pre.last() == samples[i - 1]);
    } else {
        assert(pre.len() == 0);
    }
}

/// Any run of radius steps from a radius within `[BRUSH_MIN, BRUSH_MAX]`
/// leaves it within those bounds.
pub proof fn lemma_radius_stays_in_bounds(r: int, ups: Seq<bool>)
    requires
        BRUSH_MIN <= r <= BRUSH_MAX,
    ensures
        BRUSH_MIN <= radius_after_steps(r, ups) <= BRUSH_MAX,
    decreases ups.len(),
{
    if ups.len() > 0 {
        lemma_radius_stays_in_bounds(r, ups.drop_last());
    }
}

} // verus!
