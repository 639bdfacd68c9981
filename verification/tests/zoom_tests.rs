use pixelsmith::coord::{screen_to_canvas_point, ZOOM_MAX, ZOOM_MIN};
use pixelsmith::fixed::UNIT;
use pixelsmith::geom::{Extent2, Rect, Vec2};
use pixelsmith::registry::TextureRegistry;
use pixelsmith::viewport::Viewport;

fn fresh_viewport() -> (Viewport, TextureRegistry) {
    let mut registry = TextureRegistry::new();
    let vp = Viewport::create(Extent2 { w: 64, h: 64 }, &mut registry);
    (vp, registry)
}

// Zooming in continuously (no snap, no precision) from 4.0 multiplies
// the zoom by 1.2, giving 4.8.
#[test]
fn continuous_coarse_zoom_in_from_four_gives_4_8() {
    let (mut vp, _reg) = fresh_viewport();
    assert_eq!(vp.zoom, 4 * UNIT);
    vp.zoom(true, false, false, Vec2 { x: 300 * UNIT, y: 300 * UNIT });
    assert_eq!(vp.zoom, 4_800_000);
}

#[test]
fn continuous_precision_zoom_multiplies_by_1_02() {
    let (mut vp, _reg) = fresh_viewport();
    vp.zoom(true, false, true, Vec2 { x: 0, y: 0 });
    assert_eq!(vp.zoom, 4_080_000);
    vp.zoom(false, false, true, Vec2 { x: 0, y: 0 });
    assert_eq!(vp.zoom, 4 * UNIT);
}

// The canvas-space point under the cursor is the same before and after
// a zoom operation.
#[test]
fn zoom_keeps_canvas_point_under_cursor() {
    let (mut vp, _reg) = fresh_viewport();
    vp.bounds = Rect { x: 0, y: 0, w: 600 * UNIT, h: 600 * UNIT };
    let cursor = Vec2 { x: 300 * UNIT, y: 300 * UNIT };
    let before = screen_to_canvas_point(cursor.x, vp.offset.x, vp.zoom);
    vp.zoom(true, false, false, cursor);
    let after = screen_to_canvas_point(cursor.x, vp.offset.x, vp.zoom);
    assert_eq!(before, after);
    assert_eq!(before, 43 * UNIT);
}

#[test]
fn zoom_anchoring_holds_at_fractional_zoom_within_one_micro_unit() {
    let (mut vp, _reg) = fresh_viewport();
    vp.bounds = Rect { x: 10 * UNIT, y: 10 * UNIT, w: 600 * UNIT, h: 600 * UNIT };
    vp.zoom = 3 * UNIT + 141_592;
    let cursor = Vec2 { x: 123_456_789, y: 98_765_432 };
    let before = screen_to_canvas_point(cursor.x - vp.bounds.x, vp.offset.x, vp.zoom);
    vp.zoom(false, false, true, cursor);
    let after = screen_to_canvas_point(cursor.x - vp.bounds.x, vp.offset.x, vp.zoom);
    assert!(before <= after && after <= before + 1);
}

// After any sequence of zoom operations the zoom stays in [1, 32].
#[test]
fn zoom_is_always_clamped() {
    let (mut vp, _reg) = fresh_viewport();
    let cursor = Vec2 { x: 50 * UNIT, y: 50 * UNIT };
    for _ in 0..40 {
        vp.zoom(true, false, false, cursor);
        assert!(ZOOM_MIN <= vp.zoom && vp.zoom <= ZOOM_MAX);
    }
    assert_eq!(vp.zoom, ZOOM_MAX);
    for _ in 0..40 {
        vp.zoom(false, true, false, cursor);
        assert!(ZOOM_MIN <= vp.zoom && vp.zoom <= ZOOM_MAX);
    }
    assert_eq!(vp.zoom, ZOOM_MIN);
}

// Snapping always moves toward the next discrete level in the requested
// direction, never back to the current one.
#[test]
fn snap_moves_to_next_level() {
    let (mut vp, _reg) = fresh_viewport();
    let cursor = Vec2 { x: 0, y: 0 };
    // From exactly 4.0, snapping in lands on 5.0.
    vp.zoom(true, true, false, cursor);
    assert_eq!(vp.zoom, 5 * UNIT);
    // From exactly 5.0, snapping out lands on 4.0.
    vp.zoom(false, true, false, cursor);
    assert_eq!(vp.zoom, 4 * UNIT);
    // From a fractional zoom, snapping in floors then steps up.
    vp.zoom = 4_500_000;
    vp.zoom(true, true, false, cursor);
    assert_eq!(vp.zoom, 5 * UNIT);
    // And snapping out ceils then steps down.
    vp.zoom = 4_500_000;
    vp.zoom(false, true, false, cursor);
    assert_eq!(vp.zoom, 4 * UNIT);
}

// The precision snap steps by a hundredth below 8.0 and a tenth at or
// above it, after rounding to the nearest hundredth.
#[test]
fn precision_snap_steps_and_threshold() {
    let (mut vp, _reg) = fresh_viewport();
    let cursor = Vec2 { x: 0, y: 0 };
    vp.zoom = 4_004_999;
    vp.zoom(true, true, true, cursor);
    assert_eq!(vp.zoom, 4_010_000);
    vp.zoom = 4_005_000;
    vp.zoom(true, true, true, cursor);
    assert_eq!(vp.zoom, 4_020_000);
    vp.zoom = 8 * UNIT;
    vp.zoom(true, true, true, cursor);
    assert_eq!(vp.zoom, 8_100_000);
    vp.zoom = 8 * UNIT;
    vp.zoom(false, true, true, cursor);
    assert_eq!(vp.zoom, 7_900_000);
}
