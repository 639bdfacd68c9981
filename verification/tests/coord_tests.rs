use pixelsmith::coord::{
    canvas_to_screen_point, fb_to_screen_point, scale_canvas_to_screen, scale_screen_to_canvas,
    screen_to_canvas_point, screen_to_fb_point,
};
use pixelsmith::fixed::{clamp_i64, div_floor, mul_div_floor, UNIT};

#[test]
fn unit_is_one_million() {
    assert_eq!(UNIT, 1_000_000);
}

#[test]
fn mul_div_floor_rounds_toward_negative_infinity() {
    assert_eq!(mul_div_floor(7, 1, 2), 3);
    assert_eq!(mul_div_floor(-7, 1, 2), -4);
    assert_eq!(mul_div_floor(6, 1, 2), 3);
    assert_eq!(mul_div_floor(-6, 1, 2), -3);
    assert_eq!(mul_div_floor(5, 3, 4), 3);
    assert_eq!(mul_div_floor(-5, 3, 4), -4);
}

#[test]
fn div_floor_matches_mathematical_floor() {
    assert_eq!(div_floor(9, 4), 2);
    assert_eq!(div_floor(-9, 4), -3);
    assert_eq!(div_floor(8, 4), 2);
    assert_eq!(div_floor(-8, 4), -2);
}

#[test]
fn clamp_holds_range() {
    assert_eq!(clamp_i64(5, 0, 10), 5);
    assert_eq!(clamp_i64(-5, 0, 10), 0);
    assert_eq!(clamp_i64(15, 0, 10), 10);
}

// Screen point (0,0) with offset (32,32) and zoom 4.0 lands on canvas
// point (-32,-32) and framebuffer point (-1,-1).
#[test]
fn origin_maps_to_canvas_and_fb_corners() {
    let offset = 32 * UNIT;
    let zoom = 4 * UNIT;
    assert_eq!(screen_to_canvas_point(0, offset, zoom), -32 * UNIT);
    assert_eq!(screen_to_fb_point(0, 600), -UNIT);
}

#[test]
fn screen_canvas_round_trip_is_near_exact() {
    let offset = 32 * UNIT;
    // A zoom with a fractional factor, so the division floors.
    let zoom = 3 * UNIT + 141_592;
    for p in [0i64, 1, 999, 123_456_789, -123_456_789, 10_000 * UNIT] {
        let c = screen_to_canvas_point(p, offset, zoom);
        let back = canvas_to_screen_point(c, offset, zoom);
        assert!(back <= p, "round trip moved {p} up to {back}");
        assert!(back >= p - 32, "round trip moved {p} down to {back}");
    }
}

#[test]
fn screen_canvas_round_trip_exact_at_integer_zoom() {
    let offset = 7 * UNIT;
    let zoom = 2 * UNIT;
    for p in [0i64, 4, 2 * UNIT, 123 * UNIT] {
        let c = screen_to_canvas_point(p, offset, zoom);
        assert_eq!(canvas_to_screen_point(c, offset, zoom), p);
    }
}

#[test]
fn scaling_is_inverse_pair_without_offsets() {
    let zoom = 4 * UNIT;
    assert_eq!(scale_screen_to_canvas(8 * UNIT, zoom), 2 * UNIT);
    assert_eq!(scale_canvas_to_screen(2 * UNIT, zoom), 8 * UNIT);
}

#[test]
fn fb_and_screen_are_inverse_on_even_sizes() {
    // A 600-pixel target: the center of the screen is NDC zero.
    let rt = 600;
    let center = 300 * UNIT;
    assert_eq!(screen_to_fb_point(center, rt), 0);
    assert_eq!(fb_to_screen_point(0, rt), center);
    assert_eq!(fb_to_screen_point(-UNIT, rt), 0);
}
