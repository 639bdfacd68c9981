//! The three coordinate spaces of a view, and the exact conversions
//! between them.
//!
//! * **Screen** space: GUI-global pixel coordinates.
//! * **Canvas** space: sprite-local coordinates, independent of the
//!   view's pan and zoom; `screen = (canvas + offset) * zoom`.
//! * **Framebuffer** space: normalized device coordinates over the render
//!   target, `[-1, 1]` on each axis, `fb = screen * 2 / rt_size - 1`.
//!
//! All values are fixed-point micro-units (`fixed::UNIT` is `1.0`); the
//! conversions floor, and the round-trip lemma below bounds the loss.
//! Compound conversions are defined strictly by composing these, never
//! re-derived, so they stay consistent when zoom or the render-target
//! size changes between calls.

use vstd::prelude::*;
use vstd::arithmetic::div_mod::{
    lemma_fundamental_div_mod,
    lemma_fundamental_div_mod_converse,
    lemma_mod_bound,
    lemma_div_is_ordered_by_denominator,
};
use vstd::arithmetic::mul::lemma_mul_is_commutative;
use crate::fixed::{
    UNIT,
    abs_spec,
    mul_div_floor,
    lemma_div_floor_ordered,
    lemma_div_floor_multiple,
};

verus! {

/// The smallest zoom factor a view may hold (`1.0`).
pub const ZOOM_MIN: i64 = 1_000_000;

/// The largest zoom factor a view may hold (`32.0`).
pub const ZOOM_MAX: i64 = 32_000_000;

/// The largest magnitude accepted for a coordinate or offset handed to a
/// conversion (a billion pixels), far beyond any real layout but small
/// enough that every product below stays inside the machine word.
pub const COORD_LIMIT: i64 = 1_000_000_000_000_000;

/// The largest magnitude accepted for a framebuffer coordinate (a
/// hundred million in device units; the meaningful range is `[-1, 1]`).
pub const FB_LIMIT: i64 = 100_000_000_000_000;

/// Pan offsets and light positions are clamped into this range (a
/// million pixels), a guard far outside any reachable layout.
pub const OFFSET_LIMIT: i64 = 1_000_000_000_000;

/// The largest render-target dimension, in pixels.
pub const RT_DIM_MAX: i64 = 65_536;

/// A zoom factor within the clamp range.
pub open spec fn zoom_wf(z: int) -> bool {
    ZOOM_MIN as int <= z <= ZOOM_MAX as int
}

/// A render-target dimension usable for conversions.
pub open spec fn rt_dim_wf(d: int) -> bool {
    1 <= d <= RT_DIM_MAX as int
}

/// A screen displacement scaled down into canvas units.
pub open spec fn scale_screen_to_canvas_spec(v: int, z: int) -> int {
    (v * UNIT as int) / z
}

/// A canvas displacement scaled up into screen units.
pub open spec fn scale_canvas_to_screen_spec(v: int, z: int) -> int {
    (v * z) / UNIT as int
}

/// A screen point carried into canvas space: `p / zoom - offset`.
pub open spec fn screen_to_canvas_spec(p: int, off: int, z: int) -> int {
    scale_screen_to_canvas_spec(p, z) - off
}

/// A canvas point carried into screen space: `(p + offset) * zoom`.
pub open spec fn canvas_to_screen_spec(c: int, off: int, z: int) -> int {
    scale_canvas_to_screen_spec(c + off, z)
}

/// A screen displacement scaled into framebuffer units.
pub open spec fn scale_screen_to_fb_spec(v: int, rt: int) -> int {
    (v * 2) / rt
}

/// A framebuffer displacement scaled into screen units.
pub open spec fn scale_fb_to_screen_spec(v: int, rt: int) -> int {
    (v * rt) / 2
}

/// A screen point carried into framebuffer space: `p * 2 / rt - 1`.
pub open spec fn screen_to_fb_spec(p: int, rt: int) -> int {
    scale_screen_to_fb_spec(p, rt) - UNIT as int
}

/// A framebuffer point carried into screen space: `(p + 1) / 2 * rt`.
pub open spec fn fb_to_screen_spec(q: int, rt: int) -> int {
    scale_fb_to_screen_spec(q + UNIT as int, rt)
}

/// Brackets the flooring quotient `a * b / d` given magnitude bounds on
/// both factors and a floor on the divisor.
pub proof fn lemma_mul_div_range(a: int, b: int, d: int, am: int, bm: int, dmin: int)
    requires
        d >= dmin,
        dmin >= 1,
        abs_spec(a) <= am,
        abs_spec(b) <= bm,
    ensures
        (a * b) / d <= (am * bm) / dmin,
        (a * b) / d >= -((am * bm) / dmin) - 1,
{
    let p = a * b;
    let m = am * bm;
    assert(-m <= p && p <= m && m >= 0) by (nonlinear_arith)
        requires
            abs_spec(a) <= am,
            abs_spec(b) <= bm,
            p == a * b,
            m == am * bm,
    ;
    lemma_div_floor_ordered(p, m, d);
    lemma_div_is_ordered_by_denominator(m, dmin, d);
    assert(p / d <= m / dmin);
    lemma_div_floor_ordered(-m, p, d);
    lemma_neg_div(m, d);
    lemma_div_is_ordered_by_denominator(m, dmin, d);
    assert(p / d >= (-m) / d >= -(m / d) - 1 >= -(m / dmin) - 1);
}

/// Scaling by `b / z` with `b <= z` never grows a value's magnitude,
/// flooring included.
pub proof fn lemma_scale_down(v: int, b: int, z: int)
    requires
        1 <= b <= z,
    ensures
        v >= 0 ==> 0 <= (v * b) / z <= v,
        v <= 0 ==> v <= (v * b) / z <= 0,
{
    if v >= 0 {
        assert(0 <= v * b <= v * z) by (nonlinear_arith)
            requires
                v >= 0,
                1 <= b <= z,
        ;
        lemma_div_floor_ordered(0, v * b, z);
        lemma_div_floor_ordered(v * b, v * z, z);
        lemma_div_floor_multiple(v, z);
        lemma_div_floor_multiple(0, z);
    } else {
        assert(v * z <= v * b <= 0) by (nonlinear_arith)
            requires
                v <= 0,
                1 <= b <= z,
        ;
        lemma_div_floor_ordered(v * z, v * b, z);
        lemma_div_floor_ordered(v * b, 0, z);
        lemma_div_floor_multiple(v, z);
        lemma_div_floor_multiple(0, z);
    }
}

/// The flooring quotient of a negated value sits within one of the
/// negated quotient: equal when the division is exact, one below
/// otherwise.
pub proof fn lemma_neg_div(x: int, d: int)
    requires
        d > 0,
    ensures
        -(x / d) - 1 <= (-x) / d <= -(x / d),
        x % d == 0 ==> (-x) / d == -(x / d),
{
    lemma_fundamental_div_mod(x, d);
    lemma_mod_bound(x, d);
    let q = x / d;
    let r = x % d;
    if r == 0 {
        assert(-x == (-q) * d + 0) by (nonlinear_arith)
            requires
                x == d * q + r,
                r == 0,
        ;
        lemma_fundamental_div_mod_converse(-x, d, -q, 0);
    } else {
        assert(-x == (-q - 1) * d + (d - r)) by (nonlinear_arith)
            requires
                x == d * q + r,
        ;
        lemma_fundamental_div_mod_converse(-x, d, -q - 1, d - r);
    }
}

/// Scales a screen displacement down into canvas units by the zoom.
pub fn scale_screen_to_canvas(v: i64, zoom: i64) -> (r: i64)
    requires
        zoom_wf(zoom as int),
        v > -0x8000_0000_0000_0000,
    ensures
        r == scale_screen_to_canvas_spec(v as int, zoom as int),
        abs_spec(r as int) <= abs_spec(v as int),
{
    proof {
        lemma_scale_down(v as int, UNIT as int, zoom as int);
    }
    mul_div_floor(v, UNIT, zoom)
}

/// The largest magnitude accepted when scaling a canvas value up by the
/// zoom; the product still fits the machine word at the zoom ceiling.
pub const SCALE_UP_LIMIT: i64 = 200_000_000_000_000_000;

/// Scales a canvas displacement up into screen units by the zoom.
pub fn scale_canvas_to_screen(v: i64, zoom: i64) -> (r: i64)
    requires
        zoom_wf(zoom as int),
        -SCALE_UP_LIMIT <= v <= SCALE_UP_LIMIT,
    ensures
        r == scale_canvas_to_screen_spec(v as int, zoom as int),
{
    proof {
        lemma_mul_div_range(
            v as int,
            zoom as int,
            UNIT as int,
            SCALE_UP_LIMIT as int,
            ZOOM_MAX as int,
            UNIT as int,
        );
    }
    mul_div_floor(v, zoom, UNIT)
}

/// Carries a view-local screen point into canvas space.
pub fn screen_to_canvas_point(p: i64, off: i64, zoom: i64) -> (r: i64)
    requires
        zoom_wf(zoom as int),
        -2 * COORD_LIMIT <= p <= 2 * COORD_LIMIT,
        -COORD_LIMIT <= off <= COORD_LIMIT,
    ensures
        r == screen_to_canvas_spec(p as int, off as int, zoom as int),
        abs_spec(r as int) <= abs_spec(p as int) + abs_spec(off as int),
{
    let scaled: i64 = scale_screen_to_canvas(p, zoom);
    scaled - off
}

/// Carries a canvas point into view-local screen space.
pub fn canvas_to_screen_point(c: i64, off: i64, zoom: i64) -> (r: i64)
    requires
        zoom_wf(zoom as int),
        -COORD_LIMIT <= c <= COORD_LIMIT,
        -COORD_LIMIT <= off <= COORD_LIMIT,
    ensures
        r == canvas_to_screen_spec(c as int, off as int, zoom as int),
{
    scale_canvas_to_screen(c + off, zoom)
}

/// Scales a screen displacement into framebuffer units.
pub fn scale_screen_to_fb(v: i64, rt_dim: i64) -> (r: i64)
    requires
        rt_dim_wf(rt_dim as int),
        -COORD_LIMIT <= v <= COORD_LIMIT,
    ensures
        r == scale_screen_to_fb_spec(v as int, rt_dim as int),
        -2 * COORD_LIMIT - 1 <= r <= 2 * COORD_LIMIT,
{
    proof {
        lemma_mul_div_range(v as int, 2, rt_dim as int, COORD_LIMIT as int, 2, 1);
    }
    mul_div_floor(v, 2, rt_dim)
}

/// Scales a framebuffer displacement into screen units.
pub fn scale_fb_to_screen(v: i64, rt_dim: i64) -> (r: i64)
    requires
        rt_dim_wf(rt_dim as int),
        -FB_LIMIT <= v <= FB_LIMIT,
    ensures
        r == scale_fb_to_screen_spec(v as int, rt_dim as int),
{
    proof {
        lemma_mul_div_range(v as int, rt_dim as int, 2, FB_LIMIT as int, RT_DIM_MAX as int, 2);
    }
    mul_div_floor(v, rt_dim, 2)
}

/// Carries a view-local screen point into framebuffer space.
pub fn screen_to_fb_point(p: i64, rt_dim: i64) -> (r: i64)
    requires
        rt_dim_wf(rt_dim as int),
        -COORD_LIMIT <= p <= COORD_LIMIT,
    ensures
        r == screen_to_fb_spec(p as int, rt_dim as int),
{
    let scaled: i64 = scale_screen_to_fb(p, rt_dim);
    scaled - UNIT
}

/// Carries a framebuffer point into view-local screen space.
pub fn fb_to_screen_point(q: i64, rt_dim: i64) -> (r: i64)
    requires
        rt_dim_wf(rt_dim as int),
        -FB_LIMIT + UNIT <= q <= FB_LIMIT - UNIT,
    ensures
        r == fb_to_screen_spec(q as int, rt_dim as int),
{
    scale_fb_to_screen(q + UNIT, rt_dim)
}

/// Round-trip law: carrying a screen point into canvas space and back
/// loses at most 32 micro-units (one part in 31250 of a pixel), whatever
/// the offset and however the zoom sits inside its clamp range. The loss
/// is the flooring of the single division by the zoom; it never pushes
/// the point upward.
pub proof fn lemma_screen_canvas_round_trip(p: int, off: int, z: int)
    requires
        zoom_wf(z),
    ensures
        canvas_to_screen_spec(screen_to_canvas_spec(p, off, z), off, z) <= p,
        canvas_to_screen_spec(screen_to_canvas_spec(p, off, z), off, z) >= p - 32,
{
    let u = UNIT as int;
    let q = (p * u) / z;
    let r = (p * u) % z;
    lemma_fundamental_div_mod(p * u, z);
    lemma_mod_bound(p * u, z);
    assert(screen_to_canvas_spec(p, off, z) == q - off);
    assert(canvas_to_screen_spec(q - off, off, z) == (q * z) / u);
    lemma_mul_is_commutative(q, z);
    assert(q * z == p * u - r);
    // Upper bound: q * z <= p * u, and dividing a multiple of u by u is
    // exact.
    lemma_div_floor_ordered(p * u - r, p * u, u);
    lemma_div_floor_multiple(p, u);
    assert((q * z) / u <= p);
    // Lower bound: r < z <= 32 u, so q * z > (p - 32) * u.
    assert(p * u - r >= (p - 32) * u);
    lemma_div_floor_ordered((p - 32) * u, p * u - r, u);
    lemma_div_floor_multiple(p - 32, u);
    assert((q * z) / u >= p - 32);
}

} // verus!
