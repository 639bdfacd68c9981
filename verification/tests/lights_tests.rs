use pixelsmith::fixed::UNIT;
use pixelsmith::geom::{Extent2, Vec2};
use pixelsmith::lights::{HEIGHT_MAX, HEIGHT_MIN, INTENSITY_MAX, INTENSITY_MIN};
use pixelsmith::registry::{RegistryKey, TextureMapSet};
use pixelsmith::scene::Scene;

fn test_scene() -> Scene {
    Scene::create(TextureMapSet {
        size: Extent2 { w: 64, h: 64 },
        albedo: RegistryKey::new(1),
        ao: RegistryKey::new(1),
        normal: RegistryKey::new(2),
        specular: RegistryKey::new(3),
        height: RegistryKey::new(4),
        extras: Vec::new(),
        bind_group_idx: 0,
    })
}

#[test]
fn default_light_matches_scene_defaults() {
    let scene = test_scene();
    let light = &scene.lighting.lights[0];
    assert_eq!((light.position.x, light.position.y), (-16 * UNIT, -16 * UNIT));
    assert_eq!(light.height, 50 * UNIT);
    assert_eq!(light.color.c3, 2 * UNIT);
    assert!(light.enable_falloff);
    assert!(!scene.lighting.enable_light_parallax);
    assert_eq!(scene.lighting.global_ambient, 50_000);
    assert_eq!(scene.lighting.global_diffuse, 475_000);
    assert_eq!(scene.lighting.global_specular, 475_000);
}

// Height stays in [10, 250] under any drag.
#[test]
fn height_clamps_at_both_ends() {
    let mut scene = test_scene();
    let zoom = UNIT;
    // A huge upward canvas delta would push the height far below the
    // floor; it clamps at 10.
    scene.lighting.lights[0].apply_drag(Vec2 { x: 0, y: 10_000 * UNIT }, zoom, true, false);
    assert_eq!(scene.lighting.lights[0].height, HEIGHT_MIN);
    // A huge downward delta clamps at 250.
    scene.lighting.lights[0].apply_drag(Vec2 { x: 0, y: -10_000 * UNIT }, zoom, true, false);
    assert_eq!(scene.lighting.lights[0].height, HEIGHT_MAX);
}

#[test]
fn height_drag_subtracts_canvas_delta() {
    let mut scene = test_scene();
    // Zoom 2.0: a screen delta of 8 is a canvas delta of 4.
    scene.lighting.lights[0].apply_drag(Vec2 { x: 0, y: 8 * UNIT }, 2 * UNIT, true, false);
    assert_eq!(scene.lighting.lights[0].height, 46 * UNIT);
}

// Intensity stays in [0.25, 5.0] under any drag.
#[test]
fn intensity_clamps_at_both_ends() {
    let mut scene = test_scene();
    let zoom = UNIT;
    scene.lighting.lights[0].apply_drag(Vec2 { x: 0, y: 10_000 * UNIT }, zoom, false, true);
    assert_eq!(scene.lighting.lights[0].color.c3, INTENSITY_MIN);
    scene.lighting.lights[0].apply_drag(Vec2 { x: 0, y: -10_000 * UNIT }, zoom, false, true);
    assert_eq!(scene.lighting.lights[0].color.c3, INTENSITY_MAX);
}

#[test]
fn intensity_scales_by_screen_delta_over_hundred() {
    let mut scene = test_scene();
    // 50 screen pixels down: factor 1 - 50/100 = 0.5; from 2.0 to 1.0.
    scene.lighting.lights[0].apply_drag(Vec2 { x: 0, y: 50 * UNIT }, UNIT, false, true);
    assert_eq!(scene.lighting.lights[0].color.c3, UNIT);
}

// When both modifiers are held, height-adjustment takes precedence and
// the intensity stays put.
#[test]
fn height_takes_precedence_over_intensity() {
    let mut scene = test_scene();
    let before_intensity = scene.lighting.lights[0].color.c3;
    scene.lighting.lights[0].apply_drag(Vec2 { x: 0, y: 8 * UNIT }, UNIT, true, true);
    assert_eq!(scene.lighting.lights[0].height, 42 * UNIT);
    assert_eq!(scene.lighting.lights[0].color.c3, before_intensity);
}

#[test]
fn unmodified_drag_moves_light_in_canvas_units() {
    let mut scene = test_scene();
    scene.lighting.lights[0].apply_drag(Vec2 { x: 8 * UNIT, y: -4 * UNIT }, 2 * UNIT, false, false);
    assert_eq!(scene.lighting.lights[0].position.x, -12 * UNIT);
    assert_eq!(scene.lighting.lights[0].position.y, -18 * UNIT);
}

// The hover radius is a sixteenth of the height, floored at two pixels.
#[test]
fn gizmo_radius_scales_with_height_and_has_floor() {
    let mut scene = test_scene();
    // Height 50: radius 3.125 pixels.
    assert_eq!(scene.lighting.lights[0].gizmo_radius(), 3_125_000);
    scene.lighting.lights[0].height = HEIGHT_MIN;
    // Height 10 would give 0.625 pixels; the floor holds it at 2.
    assert_eq!(scene.lighting.lights[0].gizmo_radius(), 2_000_000);
}

#[test]
fn hover_is_strictly_inside_radius_and_gated_by_interactable() {
    let mut scene = test_scene();
    let light_pos = scene.lighting.lights[0].position;
    // 3 pixels from the light with a 3.125-pixel radius: hovered.
    let near = Vec2 { x: light_pos.x + 3 * UNIT, y: light_pos.y };
    scene.lighting.lights[0].update_hover(near, true);
    assert!(scene.lighting.lights[0].gizmo_hovered);
    // 4 pixels away: not hovered.
    let far = Vec2 { x: light_pos.x + 4 * UNIT, y: light_pos.y };
    scene.lighting.lights[0].update_hover(far, true);
    assert!(!scene.lighting.lights[0].gizmo_hovered);
    // Hover never triggers while gizmos are not interactable.
    scene.lighting.lights[0].update_hover(near, false);
    assert!(!scene.lighting.lights[0].gizmo_hovered);
}

#[test]
fn position_3d_pairs_position_with_height() {
    let scene = test_scene();
    assert_eq!(
        scene.lighting.lights[0].position_3d(),
        (-16 * UNIT, -16 * UNIT, 50 * UNIT)
    );
}

#[test]
fn parallax_nudges_by_height_ratio() {
    let mut scene = test_scene();
    // Height 50 over camera height 25: ratio 1, so the light follows
    // the full canvas delta.
    scene.lighting.lights[0].apply_parallax(Vec2 { x: 4 * UNIT, y: 0 }, 25 * UNIT);
    assert_eq!(scene.lighting.lights[0].position.x, -12 * UNIT);
    // Height equal to the camera height: ratio 0, no movement.
    scene.lighting.lights[0].height = 25 * UNIT;
    scene.lighting.lights[0].apply_parallax(Vec2 { x: 4 * UNIT, y: 0 }, 25 * UNIT);
    assert_eq!(scene.lighting.lights[0].position.x, -12 * UNIT);
}
