//! The per-frame render plan a viewport prepares.
//!
//! Each frame a viewport issues two passes against its render target:
//! the lit sprite composite, clearing to a near-black background, and
//! the light-gizmo overlay, loaded on top of it. The library computes
//! every uniform value in fixed-point micro-units; the host converts
//! them to the GPU's floating-point layout, expands each transform into
//! its 4-by-4 matrix, and submits both passes in one command buffer,
//! sprite strictly before gizmo.

use vstd::prelude::*;
use crate::fixed::UNIT;
use crate::geom::{Vec2, Extent2};
use crate::color::Color;
use crate::coord::{scale_screen_to_fb_spec, scale_canvas_to_screen_spec, scale_screen_to_canvas_spec};
use crate::registry::RegistryKey;
use crate::scene::Scene;
use crate::viewport::Viewport;

verus! {

/// The varying entries of a pass's model matrix: the diagonal scales of
/// the two screen axes and the translation row. The host expands this
/// to the 4-by-4 matrix `[[sx,0,0,0],[0,sy,0,0],[0,0,1,0],[tx,ty,0,1]]`
/// in units where `1_000_000` is `1.0`.
#[derive(Clone, Copy, PartialEq, Eq, Structural, Debug)]
pub struct PassTransform {
    pub sx: i64,
    pub sy: i64,
    pub tx: i64,
    pub ty: i64,
}

/// The uniforms of the sprite composite pass.
#[derive(Clone, Copy, PartialEq, Eq, Structural, Debug)]
pub struct CanvasSpritePipelineUniforms {
    pub transform: PassTransform,
    pub light_color: Color,
    pub light_pos: Vec2,
    pub light_height: i64,
    pub cam_pos: Vec2,
    pub cam_height: i64,
    pub spec_power: i64,
    pub ambient_intensity: i64,
    pub diffuse_intensity: i64,
    pub specular_intensity: i64,
    pub sprite_size: Extent2,
    pub light_falloff: i64,
    pub map_view_type: u32,
}

/// The uniforms of the light-gizmo overlay pass.
#[derive(Clone, Copy, PartialEq, Eq, Structural, Debug)]
pub struct LightGizmoUniforms {
    pub transform: PassTransform,
    pub color: Color,
}

/// The near-black level (`0.01` per channel) the sprite pass clears
/// its render target to before drawing.
pub const CLEAR_LEVEL: i64 = 10_000;

/// One render pass against a target; the closed set of passes a
/// viewport draws with.
#[derive(Clone, Copy, PartialEq, Eq, Structural, Debug)]
pub enum RenderPass {
    /// The lit sprite composite; clears the target to near-black.
    Sprite { target: RegistryKey, uniforms: CanvasSpritePipelineUniforms },
    /// The light-gizmo overlay; loads the target, preserving the
    /// sprite pass underneath.
    Gizmo { target: RegistryKey, uniforms: LightGizmoUniforms },
}

/// A frame's passes for one viewport, in submission order.
pub struct RenderPlan {
    pub passes: Vec<RenderPass>,
}

/// The sprite pass's model scale on the horizontal axis: the zoom
/// carried into framebuffer units, times the sprite width.
pub open spec fn sprite_scale_x_spec(vp: Viewport, scene: Scene) -> int {
    scale_screen_to_fb_spec(vp.zoom as int, vp.rt_size.w as int) * scene.textures.size.w as int
}

/// The sprite pass's model scale on the vertical axis, negated for the
/// framebuffer's y-flip.
pub open spec fn sprite_scale_y_spec(vp: Viewport, scene: Scene) -> int {
    -(scale_screen_to_fb_spec(vp.zoom as int, vp.rt_size.h as int) * scene.textures.size.h as int)
}

/// The sprite pass's translation on the horizontal axis: the left
/// framebuffer edge moved by the camera offset.
pub open spec fn sprite_trans_x_spec(vp: Viewport, scene: Scene) -> int {
    -(UNIT as int) + (vp.offset.x as int * scale_screen_to_fb_spec(
        vp.zoom as int,
        vp.rt_size.w as int,
    )) / UNIT as int
}

/// The sprite pass's translation on the vertical axis.
pub open spec fn sprite_trans_y_spec(vp: Viewport, scene: Scene) -> int {
    UNIT as int - (vp.offset.y as int * scale_screen_to_fb_spec(
        vp.zoom as int,
        vp.rt_size.h as int,
    )) / UNIT as int
}

/// One axis of the camera's canvas-space position: the panel's center,
/// less the offset carried to screen units, read back in canvas units.
pub open spec fn camera_canvas_spec(center: int, off: int, z: int) -> int {
    scale_screen_to_canvas_spec(center / 2 - scale_canvas_to_screen_spec(off, z), z)
}

/// What the sprite pass's uniforms must hold, given the view and scene
/// they are derived from.
pub open spec fn sprite_uniforms_ok(
    vp: Viewport,
    scene: Scene,
    u: CanvasSpritePipelineUniforms,
) -> bool {
    let light = scene.lighting.lights@[0];
    &&& u.transform.sx as int == sprite_scale_x_spec(vp, scene)
    &&& u.transform.sy as int == sprite_scale_y_spec(vp, scene)
    &&& u.transform.tx as int == sprite_trans_x_spec(vp, scene)
    &&& u.transform.ty as int == sprite_trans_y_spec(vp, scene)
    &&& u.light_color == light.color
    &&& u.light_pos == light.position
    &&& u.light_height == light.height
    &&& u.cam_pos.x as int == camera_canvas_spec(
        vp.bounds.w as int,
        vp.offset.x as int,
        vp.zoom as int,
    )
    &&& u.cam_pos.y as int == camera_canvas_spec(
        vp.bounds.h as int,
        vp.offset.y as int,
        vp.zoom as int,
    )
    &&& u.cam_height == vp.camera_height
    &&& u.spec_power == 32_000_000i64
    &&& u.ambient_intensity == vp.global_ambient
    &&& u.diffuse_intensity == vp.global_diffuse
    &&& u.specular_intensity == vp.global_specular
    &&& u.sprite_size == scene.textures.size
    &&& u.light_falloff == (if light.enable_falloff {
        light.falloff_exp
    } else {
        0i64
    })
    &&& u.map_view_type == vp.shown_map_type.index_spec()
}

/// What the gizmo pass's uniforms must hold: the sprite transform moved
/// to the light's position and scaled by its height, and the light's
/// color at the gizmo opacity (doubled while hovered).
pub open spec fn gizmo_uniforms_ok(vp: Viewport, scene: Scene, u: LightGizmoUniforms) -> bool {
    let light = scene.lighting.lights@[0];
    let u1 = UNIT as int;
    let gscale = light.height as int / 100;
    &&& u.transform.sx as int == (sprite_scale_x_spec(vp, scene) * gscale) / u1
    &&& u.transform.sy as int == (sprite_scale_y_spec(vp, scene) * gscale) / u1
    &&& u.transform.tx as int == sprite_trans_x_spec(vp, scene) + (light.position.x as int
        * scale_screen_to_fb_spec(vp.zoom as int, vp.rt_size.w as int)) / u1
    &&& u.transform.ty as int == sprite_trans_y_spec(vp, scene) - (light.position.y as int
        * scale_screen_to_fb_spec(vp.zoom as int, vp.rt_size.h as int)) / u1
    &&& u.color.space == light.color.space
    &&& u.color.c0 == light.color.c0
    &&& u.color.c1 == light.color.c1
    &&& u.color.c2 == light.color.c2
    &&& u.color.c3 as int == (if light.gizmo_hovered {
        2 * vp.gizmo_opacity as int
    } else {
        vp.gizmo_opacity as int
    })
}

} // verus!
