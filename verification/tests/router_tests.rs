use pixelsmith::fixed::UNIT;
use pixelsmith::geom::{Extent2, Rect, Vec2};
use pixelsmith::input::{ElementState, InputEvent, IoState, MouseButton, TouchPhase, VirtualKey};
use pixelsmith::registry::{RegistryKey, TextureMapSet, TextureRegistry};
use pixelsmith::router::{close_viewport, create_viewport, route_event};
use pixelsmith::scene::Scene;
use pixelsmith::viewport::Viewport;

fn test_scene() -> Scene {
    Scene::create(TextureMapSet {
        size: Extent2 { w: 64, h: 64 },
        albedo: RegistryKey::new(21),
        ao: RegistryKey::new(21),
        normal: RegistryKey::new(22),
        specular: RegistryKey::new(23),
        height: RegistryKey::new(24),
        extras: Vec::new(),
        bind_group_idx: 0,
    })
}

fn io_at(x: i64, y: i64) -> IoState {
    IoState { mouse_pos: Vec2 { x, y }, key_shift: false, key_ctrl: false }
}

// Two overlapping viewports both report themselves hovered; a press
// inside the overlap activates a drag in exactly one of them, the
// first in iteration order.
#[test]
fn press_in_overlap_claims_exactly_one_viewport() {
    let mut registry = TextureRegistry::new();
    let mut a = Viewport::create(Extent2 { w: 100, h: 100 }, &mut registry);
    let mut b = Viewport::create(Extent2 { w: 100, h: 100 }, &mut registry);
    let overlap = Rect { x: 0, y: 0, w: 100 * UNIT, h: 100 * UNIT };
    a.bounds = overlap;
    b.bounds = overlap;
    a.is_hovered = true;
    b.is_hovered = true;
    let mut slots: Vec<Option<Viewport>> = vec![Some(a), Some(b), None, None];
    let mut scene = test_scene();
    let press = InputEvent::MouseInput { state: ElementState::Pressed, button: MouseButton::Right };
    let (consumed, selected) =
        route_event(&mut slots, &io_at(50 * UNIT, 50 * UNIT), &press, &mut scene);
    assert!(consumed);
    assert_eq!(selected, Some(0));
    assert!(slots[0].as_ref().unwrap().drag_state.active());
    assert!(!slots[1].as_ref().unwrap().drag_state.active());
}

#[test]
fn press_skips_unhovered_and_claims_first_hovered() {
    let mut registry = TextureRegistry::new();
    let mut a = Viewport::create(Extent2 { w: 100, h: 100 }, &mut registry);
    let mut b = Viewport::create(Extent2 { w: 100, h: 100 }, &mut registry);
    a.is_hovered = false;
    b.is_hovered = true;
    let mut slots: Vec<Option<Viewport>> = vec![Some(a), Some(b)];
    let mut scene = test_scene();
    let press = InputEvent::MouseInput { state: ElementState::Pressed, button: MouseButton::Right };
    let (consumed, selected) = route_event(&mut slots, &io_at(0, 0), &press, &mut scene);
    assert!(consumed);
    assert_eq!(selected, Some(1));
    assert!(!slots[0].as_ref().unwrap().drag_state.active());
    assert!(slots[1].as_ref().unwrap().drag_state.active());
}

#[test]
fn press_with_no_hovered_viewport_claims_nothing_and_releases_drags() {
    let mut registry = TextureRegistry::new();
    let mut a = Viewport::create(Extent2 { w: 100, h: 100 }, &mut registry);
    a.is_hovered = false;
    a.drag_state.activate(MouseButton::Right, None);
    let mut slots: Vec<Option<Viewport>> = vec![Some(a)];
    let mut scene = test_scene();
    let press = InputEvent::MouseInput { state: ElementState::Pressed, button: MouseButton::Right };
    let (consumed, selected) = route_event(&mut slots, &io_at(0, 0), &press, &mut scene);
    assert!(!consumed);
    assert_eq!(selected, None);
    assert!(!slots[0].as_ref().unwrap().drag_state.active());
}

// A claimed drag keeps receiving moves even after the pointer leaves
// the claiming viewport's bounds.
#[test]
fn claimed_drag_follows_pointer_outside_bounds() {
    let mut registry = TextureRegistry::new();
    let mut a = Viewport::create(Extent2 { w: 100, h: 100 }, &mut registry);
    a.bounds = Rect { x: 0, y: 0, w: 100 * UNIT, h: 100 * UNIT };
    a.is_hovered = true;
    let mut slots: Vec<Option<Viewport>> = vec![Some(a)];
    let mut scene = test_scene();
    let press = InputEvent::MouseInput { state: ElementState::Pressed, button: MouseButton::Right };
    route_event(&mut slots, &io_at(50 * UNIT, 50 * UNIT), &press, &mut scene);
    // First move leaves the bounds; the drag stays claimed.
    let m1 = InputEvent::CursorMoved { position: Vec2 { x: 500 * UNIT, y: 500 * UNIT } };
    route_event(&mut slots, &io_at(500 * UNIT, 500 * UNIT), &m1, &mut scene);
    let offset_before = slots[0].as_ref().unwrap().offset;
    // The second move pans by the delta over the zoom (8 / 4 = 2).
    let m2 = InputEvent::CursorMoved { position: Vec2 { x: 508 * UNIT, y: 500 * UNIT } };
    route_event(&mut slots, &io_at(508 * UNIT, 500 * UNIT), &m2, &mut scene);
    let offset_after = slots[0].as_ref().unwrap().offset;
    assert_eq!(offset_after.x, offset_before.x + 2 * UNIT);
    assert_eq!(offset_after.y, offset_before.y);
}

#[test]
fn left_press_over_gizmo_starts_light_drag() {
    let mut registry = TextureRegistry::new();
    let mut a = Viewport::create(Extent2 { w: 100, h: 100 }, &mut registry);
    a.is_hovered = true;
    let mut slots: Vec<Option<Viewport>> = vec![Some(a)];
    let mut scene = test_scene();
    scene.lighting.lights[0].gizmo_hovered = true;
    let press = InputEvent::MouseInput { state: ElementState::Pressed, button: MouseButton::Left };
    let (consumed, selected) = route_event(&mut slots, &io_at(0, 0), &press, &mut scene);
    assert!(consumed);
    assert_eq!(selected, Some(0));
    assert!(scene.lighting.lights[0].drag_state.active());
}

#[test]
fn parallax_toggle_key_flips_scene_flag() {
    let mut registry = TextureRegistry::new();
    let a = Viewport::create(Extent2 { w: 100, h: 100 }, &mut registry);
    let mut slots: Vec<Option<Viewport>> = vec![Some(a)];
    let mut scene = test_scene();
    assert!(!scene.lighting.enable_light_parallax);
    let key = InputEvent::KeyboardInput { key: VirtualKey::P, state: ElementState::Pressed };
    let (consumed, _) = route_event(&mut slots, &io_at(0, 0), &key, &mut scene);
    assert!(!consumed);
    assert!(scene.lighting.enable_light_parallax);
}

#[test]
fn wheel_zooms_only_hovered_viewports() {
    let mut registry = TextureRegistry::new();
    let mut a = Viewport::create(Extent2 { w: 100, h: 100 }, &mut registry);
    let b = Viewport::create(Extent2 { w: 100, h: 100 }, &mut registry);
    a.is_hovered = true;
    let mut slots: Vec<Option<Viewport>> = vec![Some(a), Some(b)];
    let mut scene = test_scene();
    let wheel = InputEvent::MouseWheel { delta_y: UNIT, phase: TouchPhase::Moved };
    route_event(&mut slots, &io_at(0, 0), &wheel, &mut scene);
    assert_eq!(slots[0].as_ref().unwrap().zoom, 4_800_000);
    assert_eq!(slots[1].as_ref().unwrap().zoom, 4_000_000);
}

#[test]
fn close_viewport_releases_target_and_clears_selection() {
    let mut registry = TextureRegistry::new();
    let mut slots: Vec<Option<Viewport>> = vec![None, None];
    let mut selected: Option<usize> = None;
    create_viewport(&mut slots, 1, &mut selected, &mut registry);
    assert_eq!(selected, Some(1));
    let key = slots[1].as_ref().unwrap().rt_key;
    close_viewport(&mut slots, 1, &mut selected, &mut registry);
    assert!(slots[1].is_none());
    assert_eq!(selected, None);
    assert!(registry.find(key).is_none());
}

#[test]
fn create_viewport_keeps_existing_view() {
    let mut registry = TextureRegistry::new();
    let mut slots: Vec<Option<Viewport>> = vec![None];
    let mut selected: Option<usize> = None;
    create_viewport(&mut slots, 0, &mut selected, &mut registry);
    let key = slots[0].as_ref().unwrap().rt_key;
    // Creating again over a filled slot only re-selects it.
    selected = None;
    create_viewport(&mut slots, 0, &mut selected, &mut registry);
    assert_eq!(selected, Some(0));
    assert_eq!(slots[0].as_ref().unwrap().rt_key, key);
}
