use vstd::prelude::*;
use vstd::arithmetic::div_mod::lemma_fundamental_div_mod_converse;

verus! {

/// Fixed-point units in one canvas extent: the canvas spans
/// `[-CANVAS_SCALE / 2, CANVAS_SCALE / 2]` on each axis.
pub const CANVAS_SCALE: i64 = 1_000_000;

/// Half of `CANVAS_SCALE`: the canvas coordinate of the window's right and top edges.
pub const CANVAS_HALF: i64 = 500_000;

/// A position in canvas space: origin at the window's center, `y` pointing up,
/// in units of `1 / CANVAS_SCALE` of the window's extent.
#[derive(Clone, Copy, Debug, PartialEq, Eq, Structural)]
pub struct CanvasPos {
    pub x: i64,
    pub y: i64,
}

/// Largest magnitude of a canvas coordinate that the library handles.
pub const POS_LIMIT: i64 = 0x100_0000_0000_0000;

/// Whether both coordinates of `p` lie within `POS_LIMIT`.
pub open spec fn pos_in_range(p: CanvasPos) -> bool {
    -POS_LIMIT <= p.x <= POS_LIMIT && -POS_LIMIT <= p.y <= POS_LIMIT
}

/// The canvas `x` of device column `x` in a window `w` pixels wide:
/// `CANVAS_SCALE * (x / w - 1/2)`, rounded down.
pub open spec fn canvas_x(x: int, w: int) -> int {
    (x * CANVAS_SCALE) / w - CANVAS_HALF
}

/// The canvas `y` of device row `y` in a window `h` pixels high:
/// `CANVAS_SCALE * (1/2 - y / h)`, rounded up.
pub open spec fn canvas_y(y: int, h: int) -> int {
    CANVAS_HALF - (y * CANVAS_SCALE) / h
}

/// The canvas position of device pixel `(x, y)` in a `w` by `h` window.
pub open spec fn to_canvas(x: int, y: int, w: int, h: int) -> CanvasPos {
    CanvasPos { x: canvas_x(x, w) as i64, y: canvas_y(y, h) as i64 }
}

/// The device column of canvas `x`: the least column that maps at or right of it.
pub open spec fn device_x(cx: int, w: int) -> int {
    ((cx + CANVAS_HALF) * w + CANVAS_SCALE - 1) / (CANVAS_SCALE as int)
}

/// The device row of canvas `y`: the least row that maps at or below it.
pub open spec fn device_y(cy: int, h: int) -> int {
    ((CANVAS_HALF - cy) * h + CANVAS_SCALE - 1) / (CANVAS_SCALE as int)
}

/// Both canvas coordinates of any `i32` device position fit an `i64`.
proof fn lemma_canvas_bounds(x: int, w: int)
    requires
        i32::MIN <= x <= i32::MAX,
        0 < w,
    ensures
        -0x100_0000_0000_0000 < (x * CANVAS_SCALE) / w < 0x100_0000_0000_0000,
        -0x100_0000_0000_0000 < canvas_x(x, w) < 0x100_0000_0000_0000,
        -0x100_0000_0000_0000 < canvas_y(x, w) < 0x100_0000_0000_0000,
{
    let q = (x * CANVAS_SCALE) / w;
    let n = x * CANVAS_SCALE;
    assert(-0x80_0000_0000_0000 < n < 0x80_0000_0000_0000) by (nonlinear_arith)
        requires i32::MIN <= x <= i32::MAX, n == x * CANVAS_SCALE;
    assert(q * w <= n < q * w + w) by {
        vstd::arithmetic::div_mod::lemma_fundamental_div_mod(n, w);
        vstd::arithmetic::div_mod::lemma_mod_bound(n, w);
    }
    assert(-0x80_0000_0000_0000 <= q <= 0x80_0000_0000_0000) by (nonlinear_arith)
        requires q * w <= n < q * w + w, 0 < w, -0x80_0000_0000_0000 < n < 0x80_0000_0000_0000;
}

/// Floor division of `n` by a positive `d`, on machine integers.
fn floor_div(n: i64, d: i64) -> (r: i64)
    requires
        0 < d,
        n > i64::MIN,
    ensures
        r == n as int / d as int,
{
    if n >= 0 {
        n / d
    } else {
        let m: i64 = -n;
        let c: i64 = m / d;
        let k: i64 = m % d;
        proof {
            vstd::arithmetic::div_mod::lemma_fundamental_div_mod(m as int, d as int);
            vstd::arithmetic::div_mod::lemma_mod_bound(m as int, d as int);
            if k == 0 {
                assert(n == (-c) * d) by (nonlinear_arith)
                    requires m == d * c + k, k == 0, n == -m;
                lemma_fundamental_div_mod_converse(n as int, d as int, -c as int, 0);
            } else {
                assert(n == (-c - 1) * d + (d - k)) by (nonlinear_arith)
                    requires m == d * c + k, n == -m;
                lemma_fundamental_div_mod_converse(n as int, d as int, -c - 1, d - k);
            }
        }
        if k == 0 {
            -c
        } else {
            -c - 1
        }
    }
}

/// Maps a device pixel position to canvas space for a `w` by `h` window.
pub fn to_canvas_pos(x: i32, y: i32, w: u32, h: u32) -> (r: CanvasPos)
    requires
        w > 0,
        h > 0,
    ensures
        r == to_canvas(x as int, y as int, w as int, h as int),
        pos_in_range(r),
{
    proof {
        lemma_canvas_bounds(x as int, w as int);
        lemma_canvas_bounds(y as int, h as int);
        assert(-0x80_0000_0000_0000 < x as int * CANVAS_SCALE < 0x80_0000_0000_0000) by (nonlinear_arith)
            requires i32::MIN <= x <= i32::MAX;
        assert(-0x80_0000_0000_0000 < y as int * CANVAS_SCALE < 0x80_0000_0000_0000) by (nonlinear_arith)
            requires i32::MIN <= y <= i32::MAX;
    }
    let qx = floor_div(x as i64 * CANVAS_SCALE, w as i64);
    let qy = floor_div(y as i64 * CANVAS_SCALE, h as i64);
    CanvasPos { x: qx - CANVAS_HALF, y: CANVAS_HALF - qy }
}

/// For a window at most `CANVAS_SCALE` pixels wide, the device column is recovered
/// from its canvas `x`.
pub proof fn lemma_device_x_inverts(x: int, w: int)
    requires
        0 < w <= CANVAS_SCALE,
    ensures
        device_x(canvas_x(x, w), w) == x,
{
    let n = x * CANVAS_SCALE;
    let q = n / w;
    vstd::arithmetic::div_mod::lemma_fundamental_div_mod(n, w);
    vstd::arithmetic::div_mod::lemma_mod_bound(n, w);
    assert(canvas_x(x, w) + CANVAS_HALF == q);
    let t = q * w + CANVAS_SCALE - 1;
    assert((x - 1) * CANVAS_SCALE < q * w <= x * CANVAS_SCALE) by (nonlinear_arith)
        requires q * w <= n < q * w + w, n == x * CANVAS_SCALE, w <= CANVAS_SCALE;
    assert(x * CANVAS_SCALE <= t < x * CANVAS_SCALE + CANVAS_SCALE) by (nonlinear_arith)
        requires (x - 1) * CANVAS_SCALE < q * w <= x * CANVAS_SCALE, t == q * w + CANVAS_SCALE - 1;
    lemma_fundamental_div_mod_converse(t, CANVAS_SCALE as int, x, t - x * CANVAS_SCALE);
}

/// For a window at most `CANVAS_SCALE` pixels high, the device row is recovered
/// from its canvas `y`.
pub proof fn lemma_device_y_inverts(y: int, h: int)
    requires
        0 < h <= CANVAS_SCALE,
    ensures
        device_y(canvas_y(y, h), h) == y,
{
    lemma_device_x_inverts(y, h);
    assert(CANVAS_HALF - canvas_y(y, h) == canvas_x(y, h) + CANVAS_HALF);
}

/// Mapping to canvas space is a bijection onto its image for a fixed window size:
/// mapping a device position to canvas space and back gives the position again,
/// and two device positions with the same canvas position are equal.
/// Holds for windows of at most `CANVAS_SCALE` pixels on each side, where each
/// pixel spans at least one canvas unit.
pub proof fn lemma_to_canvas_round_trip(x1: int, y1: int, x2: int, y2: int, w: int, h: int)
    requires
        0 < w <= CANVAS_SCALE,
        0 < h <= CANVAS_SCALE,
    ensures
        device_x(canvas_x(x1, w), w) == x1,
        device_y(canvas_y(y1, h), h) == y1,
        canvas_x(x1, w) == canvas_x(x2, w) && canvas_y(y1, h) == canvas_y(y2, h)
            ==> x1 == x2 && y1 == y2,
{
    lemma_device_x_inverts(x1, w);
    lemma_device_x_inverts(x2, w);
    lemma_device_y_inverts(y1, h);
    lemma_device_y_inverts(y2, h);
}

} // verus!
