use pixelsmith::balance::normalize_with_constant;
use pixelsmith::color::{Color, ColorSpace};
use pixelsmith::fixed::UNIT;
use pixelsmith::geom::Extent2;
use pixelsmith::maps::MapType;
use pixelsmith::once::{DoOnce, InitOnce};
use pixelsmith::palette::PaletteEditor;
use pixelsmith::panel::{InspectorPanel, Panel};
use pixelsmith::project::ProjectData;
use pixelsmith::property::Property;
use pixelsmith::registry::{RegistryKey, TextureRegistry};

#[test]
fn do_once_runs_the_closure_exactly_once() {
    let mut task = DoOnce::new();
    assert!(!task.done());
    task.do_once(|| {});
    assert!(task.done());
    // The work already counts as done: this closure must not run.
    task.do_once(|| panic!("ran twice"));
    assert!(task.done());
}

#[test]
fn init_once_holds_one_value() {
    let mut cell: InitOnce<u32> = InitOnce::uninitialized();
    assert!(cell.try_get().is_none());
    cell.initialize(7);
    assert_eq!(cell.try_get(), Some(&7));
    assert_eq!(*cell.get(), 7);
}

#[test]
fn property_gets_and_sets() {
    let mut p = Property::new(5i64);
    assert_eq!(p.get(), 5);
    p.set(9);
    assert_eq!(p.get(), 9);
}

#[test]
fn inspector_panel_open_flag_round_trips() {
    let mut panel = InspectorPanel { window_open: false };
    assert!(!panel.is_open());
    panel.set_open(true);
    assert!(panel.is_open());
}

#[test]
fn ini_path_joins_the_settings_file() {
    let project = ProjectData { path: String::from("projects/bricks") };
    assert_eq!(project.ini_path(), "projects/bricks/imgui.ini");
}

#[test]
fn map_type_indices_and_names() {
    let all = MapType::types();
    assert_eq!(all.len(), 5);
    assert_eq!(all[0].index(), 0);
    assert_eq!(all[4].index(), 4);
    assert_eq!(all[0].name(), "Albedo");
    assert_eq!(all[1].name(), "Normal");
    assert_eq!(all[2].name(), "Roughness");
    assert_eq!(all[3].name(), "Height");
    assert_eq!(all[4].name(), "Rendered");
}

#[test]
fn palette_has_gray_ramp_then_hue_circle() {
    let palette = PaletteEditor::new();
    assert_eq!(palette.selected_idx, 0);
    assert_eq!(palette.colors.len(), 18);
    assert_eq!(palette.colors[0], Color::from_hsv(0, 0, 0));
    assert_eq!(palette.colors[5], Color::from_hsv(0, 0, UNIT));
    assert_eq!(palette.colors[6], Color::from_hsv(0, 800_000, 700_000));
    // The fourth hue sits a quarter around the circle.
    assert_eq!(palette.colors[9], Color::from_hsv(250_000, 800_000, 700_000));
    assert_eq!(palette.colors[17], Color::from_hsv(916_666, 800_000, 700_000));
    assert_eq!(palette.colors[6].space, ColorSpace::Hsv);
}

#[test]
fn registry_hands_out_fresh_keys_and_releases_entries() {
    let mut registry = TextureRegistry::new();
    let k1 = registry.create_texture(Extent2 { w: 8, h: 8 }, String::from("one"));
    let k2 = registry.create_texture(Extent2 { w: 16, h: 16 }, String::from("two"));
    assert_ne!(k1.id(), k2.id());
    assert_eq!(registry.len(), 2);
    assert_eq!(registry.find(k1).unwrap().size(), Extent2 { w: 8, h: 8 });
    let removed = registry.remove(k1).unwrap();
    assert_eq!(removed.key(), k1);
    assert_eq!(removed.size(), Extent2 { w: 8, h: 8 });
    assert!(registry.find(k1).is_none());
    // The surviving entry is untouched, size and label included.
    assert_eq!(registry.find(k2).unwrap().size(), Extent2 { w: 16, h: 16 });
    assert_eq!(registry.find(k2).unwrap().label(), "two");
    // A fresh key is never a released one.
    let k3 = registry.create_texture(Extent2 { w: 4, h: 4 }, String::from("three"));
    assert_ne!(k3.id(), k1.id());
    assert_ne!(k3.id(), k2.id());
}

#[test]
fn registry_bind_groups_attach_to_textures() {
    let mut registry = TextureRegistry::new();
    let k = registry.create_texture(Extent2 { w: 8, h: 8 }, String::from("rt"));
    assert_eq!(registry.texture_bind_group(k), None);
    let bg = registry.add_bind_group();
    assert!(registry.find_bind_group(bg));
    assert!(registry.assign_bind_group(k, bg));
    assert_eq!(registry.texture_bind_group(k), Some(bg));
    assert!(!registry.assign_bind_group(RegistryKey::new(999), bg));
}

#[test]
fn font_atlas_takes_key_zero() {
    let mut registry = TextureRegistry::new();
    let k = registry.create_font_atlas(Extent2 { w: 512, h: 64 }, String::from("font atlas"));
    assert_eq!(k.id(), 0);
    assert!(registry.find(k).is_some());
}

// Editing one weight with normalization on pulls the other two toward
// a total of one, in proportion to their sizes.
#[test]
fn normalize_balances_remaining_weights() {
    let (c, a, b) = normalize_with_constant(600_000, 400_000, 800_000);
    assert_eq!(c, 600_000);
    assert_eq!(a, 133_333);
    assert_eq!(b, 266_667);
}

// A zero sum would make the shares no numbers at all; they fall back
// to an even split.
#[test]
fn normalize_splits_evenly_on_zero_sum() {
    let (c, a, b) = normalize_with_constant(500_000, 0, 0);
    assert_eq!(c, 500_000);
    assert_eq!(a, 250_000);
    assert_eq!(b, 250_000);
}

#[test]
fn normalize_clamps_into_unit_range() {
    let (_, a, b) = normalize_with_constant(0, UNIT, UNIT);
    assert!(0 <= a && a <= UNIT);
    assert!(0 <= b && b <= UNIT);
}

#[test]
fn normalize_keeps_balanced_triple() {
    let (c, a, b) = normalize_with_constant(500_000, 250_000, 250_000);
    assert_eq!((c, a, b), (500_000, 250_000, 250_000));
}
