//! The shared scene: a sprite's texture maps plus its lighting.
//!
//! Every viewport that displays the same sprite reads and mutates one
//! scene. The application owns it and passes it explicitly into event
//! handling and rendering, so all mutation is serialized by the borrow
//! rules rather than by a runtime cell.

use vstd::prelude::*;
use crate::geom::Vec2;
use crate::color::{Color, ColorSpace};
use crate::drag::DragState;
use crate::lights::{Light, LightingInfo};
use crate::registry::TextureMapSet;

verus! {

/// What the default light looks like before anyone touches it.
pub open spec fn default_light_spec() -> Light {
    Light {
        position: Vec2 { x: -16_000_000i64, y: -16_000_000i64 },
        height: 50_000_000i64,
        color: Color {
            space: ColorSpace::Rgba,
            c0: 1_000_000i64,
            c1: 1_000_000i64,
            c2: 1_000_000i64,
            c3: 2_000_000i64,
        },
        gizmo_hovered: false,
        falloff_exp: 2_000_000i64,
        enable_falloff: true,
        drag_state: DragState { state: None, prev_pos: None },
        diffuse: 1_000_000i64,
        specular: 1_000_000i64,
    }
}

/// A sprite's texture maps and the lighting it is previewed under.
#[derive(Debug)]
pub struct Scene {
    pub textures: TextureMapSet,
    pub lighting: LightingInfo,
}

impl Scene {
    /// A well-formed scene: well-formed lighting, and texture maps of a
    /// size a GPU texture can have.
    pub open spec fn wf(self) -> bool {
        &&& self.lighting.wf()
        &&& 1 <= self.textures.size.w as int <= crate::coord::RT_DIM_MAX as int
        &&& 1 <= self.textures.size.h as int <= crate::coord::RT_DIM_MAX as int
    }

    /// Builds a scene around a set of texture maps, with one default
    /// light at its fixed starting position and the default global
    /// illumination weights.
    pub fn create(textures: TextureMapSet) -> (r: Scene)
        requires
            1 <= textures.size.w as int <= crate::coord::RT_DIM_MAX as int,
            1 <= textures.size.h as int <= crate::coord::RT_DIM_MAX as int,
        ensures
            r.wf(),
            r.textures == textures,
            r.lighting.lights@.len() == 1,
            r.lighting.lights@[0] == default_light_spec(),
            !r.lighting.enable_light_parallax,
            r.lighting.global_ambient == 50_000,
            r.lighting.global_diffuse == 475_000,
            r.lighting.global_specular == 475_000,
    {
        let light = Light {
            position: Vec2 { x: -16_000_000, y: -16_000_000 },
            height: 50_000_000,
            color: Color::white(ColorSpace::Rgba).with_alpha(2_000_000),
            gizmo_hovered: false,
            falloff_exp: 2_000_000,
            enable_falloff: true,
            drag_state: DragState::new(),
            diffuse: 1_000_000,
            specular: 1_000_000,
        };
        let mut lights: Vec<Light> = Vec::new();
        lights.push(light);
        Scene {
            textures,
            lighting: LightingInfo {
                lights,
                enable_light_parallax: false,
                global_ambient: 50_000,
                global_diffuse: 475_000,
                global_specular: 475_000,
            },
        }
    }
}

} // verus!
