use pixelsmith::fixed::UNIT;
use pixelsmith::geom::{Extent2, Rect, Vec2};
use pixelsmith::maps::MapType;
use pixelsmith::registry::{RegistryKey, TextureMapSet, TextureRegistry};
use pixelsmith::render::RenderPass;
use pixelsmith::scene::Scene;
use pixelsmith::viewport::Viewport;

fn test_scene() -> Scene {
    Scene::create(TextureMapSet {
        size: Extent2 { w: 64, h: 64 },
        albedo: RegistryKey::new(11),
        ao: RegistryKey::new(11),
        normal: RegistryKey::new(12),
        specular: RegistryKey::new(13),
        height: RegistryKey::new(14),
        extras: Vec::new(),
        bind_group_idx: 0,
    })
}

#[test]
fn create_uses_fixed_defaults() {
    let mut registry = TextureRegistry::new();
    let vp = Viewport::create(Extent2 { w: 400, h: 400 }, &mut registry);
    assert_eq!((vp.offset.x, vp.offset.y), (32 * UNIT, 32 * UNIT));
    assert_eq!(vp.zoom, 4 * UNIT);
    assert!(!vp.is_hovered);
    assert!(vp.light_gizmos_interactable);
    assert_eq!(vp.gizmo_opacity, 20_000);
    assert_eq!(vp.shown_map_type, MapType::Rendered);
    assert_eq!(vp.camera_height, 25 * UNIT);
    assert!(vp.normalize_intensities);
    assert_eq!(registry.find(vp.rt_key).unwrap().size(), Extent2 { w: 400, h: 400 });
}

// The render target starts at 64x64; after the panel reports 128x90
// the next draw resizes it and the old handle is released.
#[test]
fn draw_resizes_render_target_and_releases_old_handle() {
    let mut registry = TextureRegistry::new();
    let mut vp = Viewport::create(Extent2 { w: 64, h: 64 }, &mut registry);
    let old_key = vp.rt_key;
    assert_eq!(vp.rt_size, Extent2 { w: 64, h: 64 });
    let panel = Rect { x: 0, y: 0, w: 128 * UNIT, h: 90 * UNIT };
    vp.draw(panel, false, Vec2 { x: 0, y: 0 }, &mut registry);
    assert_eq!(vp.rt_size, Extent2 { w: 128, h: 90 });
    assert!(registry.find(old_key).is_none());
    // The size filed in the registry under the new handle matches the
    // panel too.
    assert_eq!(registry.find(vp.rt_key).unwrap().size(), Extent2 { w: 128, h: 90 });
}

// Zero panel sizes occur transiently during layout and are tolerated
// silently: the previous target stays.
#[test]
fn draw_keeps_target_on_degenerate_panel() {
    let mut registry = TextureRegistry::new();
    let mut vp = Viewport::create(Extent2 { w: 64, h: 64 }, &mut registry);
    let old_key = vp.rt_key;
    vp.draw(
        Rect { x: 0, y: 0, w: 0, h: 90 * UNIT },
        false,
        Vec2 { x: 0, y: 0 },
        &mut registry,
    );
    assert_eq!(vp.rt_size, Extent2 { w: 64, h: 64 });
    assert_eq!(vp.rt_key, old_key);
    assert!(registry.find(old_key).is_some());
}

#[test]
fn draw_derives_hover_from_decorated_bounds() {
    let mut registry = TextureRegistry::new();
    let mut vp = Viewport::create(Extent2 { w: 100, h: 100 }, &mut registry);
    let panel = Rect { x: 0, y: 0, w: 100 * UNIT, h: 100 * UNIT };
    // Inside the panel but within the 20-pixel title strip: not hovered.
    vp.draw(panel, true, Vec2 { x: 50 * UNIT, y: 10 * UNIT }, &mut registry);
    assert!(!vp.is_hovered);
    // In the client area: hovered.
    vp.draw(panel, true, Vec2 { x: 50 * UNIT, y: 50 * UNIT }, &mut registry);
    assert!(vp.is_hovered);
    // Same point, but the window itself is not hovered: not hovered.
    vp.draw(panel, false, Vec2 { x: 50 * UNIT, y: 50 * UNIT }, &mut registry);
    assert!(!vp.is_hovered);
}

#[test]
fn close_releases_render_target() {
    let mut registry = TextureRegistry::new();
    let mut vp = Viewport::create(Extent2 { w: 64, h: 64 }, &mut registry);
    let key = vp.rt_key;
    vp.close(&mut registry);
    assert!(registry.find(key).is_none());
}

// With offset (32,32), zoom 4.0 and a 600x600 target, the view-local
// origin maps to canvas (-32,-32) and framebuffer (-1,-1).
#[test]
fn transforms_map_origin_to_known_corners() {
    let mut registry = TextureRegistry::new();
    let mut vp = Viewport::create(Extent2 { w: 600, h: 600 }, &mut registry);
    vp.bounds = Rect { x: 0, y: 0, w: 600 * UNIT, h: 600 * UNIT };
    let canvas = vp.transform_screen_to_canvas(Vec2 { x: 0, y: 0 });
    assert_eq!((canvas.x, canvas.y), (-32 * UNIT, -32 * UNIT));
    let fb = vp.transform_screen_to_fb(Vec2 { x: 0, y: 0 });
    assert_eq!((fb.x, fb.y), (-UNIT, -UNIT));
    let back = vp.transform_fb_to_screen(fb);
    assert_eq!((back.x, back.y), (0, 0));
}

#[test]
fn render_plan_has_sprite_then_gizmo_on_the_same_target() {
    let mut registry = TextureRegistry::new();
    let mut vp = Viewport::create(Extent2 { w: 600, h: 600 }, &mut registry);
    vp.bounds = Rect { x: 0, y: 0, w: 600 * UNIT, h: 600 * UNIT };
    let scene = test_scene();
    let plan = vp.render(&scene);
    assert_eq!(plan.passes.len(), 2);
    match (&plan.passes[0], &plan.passes[1]) {
        (
            RenderPass::Sprite { target: t0, uniforms: su },
            RenderPass::Gizmo { target: t1, uniforms: gu },
        ) => {
            assert_eq!(*t0, vp.rt_key);
            assert_eq!(*t1, vp.rt_key);
            // Zoom 4 on a 600-pixel target: 2 * 4 / 600 of a
            // framebuffer unit per canvas pixel, times 64 sprite
            // pixels.
            assert_eq!(su.transform.sx, 13_333 * 64);
            assert_eq!(su.transform.sy, -13_333 * 64);
            // The translation moves the left edge by offset * scale.
            assert_eq!(su.transform.tx, -UNIT + 32 * 13_333);
            assert_eq!(su.transform.ty, UNIT - 32 * 13_333);
            assert_eq!(su.light_height, 50 * UNIT);
            assert_eq!(su.spec_power, 32 * UNIT);
            assert_eq!(su.sprite_size, Extent2 { w: 64, h: 64 });
            assert_eq!(su.map_view_type, 4);
            // Falloff enabled by default: the exponent runs through.
            assert_eq!(su.light_falloff, 2 * UNIT);
            // Camera position: the panel center pulled back by the
            // offset, in canvas units.
            assert_eq!(su.cam_pos.x, (300 - 128) * UNIT / 4);
            assert_eq!(su.cam_height, 25 * UNIT);
            // The gizmo transform is the sprite transform moved to the
            // light and scaled by height / 100.
            assert_eq!(gu.transform.sx, (13_333i64 * 64) * 500_000 / UNIT);
            assert_eq!(gu.transform.tx, su.transform.tx + (-16 * 13_333));
            assert_eq!(gu.color.c3, vp.gizmo_opacity);
        }
        _ => panic!("wrong pass kinds"),
    }
}

#[test]
fn gizmo_alpha_doubles_while_hovered() {
    let mut registry = TextureRegistry::new();
    let mut vp = Viewport::create(Extent2 { w: 600, h: 600 }, &mut registry);
    vp.bounds = Rect { x: 0, y: 0, w: 600 * UNIT, h: 600 * UNIT };
    let mut scene = test_scene();
    scene.lighting.lights[0].gizmo_hovered = true;
    let plan = vp.render(&scene);
    match &plan.passes[1] {
        RenderPass::Gizmo { uniforms, .. } => {
            assert_eq!(uniforms.color.c3, 2 * vp.gizmo_opacity);
        }
        _ => panic!("second pass is not the gizmo"),
    }
}
