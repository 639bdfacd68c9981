//! One rendered view into a scene.
//!
//! A viewport owns its render target and its 2D camera (a pan offset in
//! canvas units and a zoom factor), remembers the panel bounds the GUI
//! last gave it, interprets pointer input into camera pans, zooms and
//! light manipulation, and prepares the per-frame render passes. The
//! scene it views is passed in explicitly wherever it is read or
//! changed.

use vstd::prelude::*;
use crate::fixed::{UNIT, abs_spec, clamp_spec, clamp_i64, div_floor};
use crate::input::{InputEvent, IoState, ElementState, TouchPhase, VirtualKey};
use crate::lights::{
    Light,
    height_dragged_spec,
    intensity_dragged_spec,
    parallax_nudge_spec,
    gizmo_hit_spec,
};
use crate::scene::Scene;
use crate::render::{
    RenderPlan,
    RenderPass,
    PassTransform,
    CanvasSpritePipelineUniforms,
    LightGizmoUniforms,
    sprite_uniforms_ok,
    gizmo_uniforms_ok,
};
use crate::color::Color;
use crate::geom::{Vec2, Rect, Extent2};
use crate::coord::{
    ZOOM_MIN,
    ZOOM_MAX,
    COORD_LIMIT,
    OFFSET_LIMIT,
    RT_DIM_MAX,
    zoom_wf,
    scale_screen_to_canvas,
    scale_canvas_to_screen,
    scale_screen_to_fb,
    scale_fb_to_screen,
    screen_to_canvas_point,
    canvas_to_screen_point,
    screen_to_fb_point,
    fb_to_screen_point,
    scale_screen_to_canvas_spec,
    scale_canvas_to_screen_spec,
    scale_screen_to_fb_spec,
    scale_fb_to_screen_spec,
    screen_to_canvas_spec,
    canvas_to_screen_spec,
    screen_to_fb_spec,
    fb_to_screen_spec,
};
use crate::lights::HEIGHT_MAX;
use crate::drag::DragState;
use crate::input::MouseButton;
use crate::maps::MapType;
use crate::registry::{RegistryKey, TextureInfo, TextureRegistry};

verus! {

/// When snapping with the precision modifier, the step is a tenth from
/// this zoom upward and a hundredth below it.
pub const PRECISION_STEP_THRESHOLD: i64 = 8_000_000;

/// The tenth-of-a-unit precision snap step.
pub const PRECISION_STEP_COARSE: i64 = 100_000;

/// The hundredth-of-a-unit precision snap step.
pub const PRECISION_STEP_FINE: i64 = 10_000;

/// One step of the zoom policy, before re-anchoring. Snapping moves to
/// the next discrete level in the requested direction (never back to
/// the current one); the continuous mode multiplies or divides by
/// `1.2`, or by `1.02` with the precision modifier. The result is
/// clamped into the zoom range.
pub open spec fn zoom_stepped_spec(z: int, zoom_in: bool, snap: bool, precision: bool) -> int {
    let u = UNIT as int;
    let stepped = if snap {
        if precision {
            let rounded = ((z + 5_000) / 10_000) * 10_000;
            let step = if rounded >= PRECISION_STEP_THRESHOLD as int {
                PRECISION_STEP_COARSE as int
            } else {
                PRECISION_STEP_FINE as int
            };
            if zoom_in {
                rounded + step
            } else {
                rounded - step
            }
        } else {
            if zoom_in {
                (z / u) * u + u
            } else {
                ((z + u - 1) / u) * u - u
            }
        }
    } else {
        if zoom_in {
            if precision {
                (z * 51) / 50
            } else {
                (z * 6) / 5
            }
        } else {
            if precision {
                (z * 50) / 51
            } else {
                (z * 5) / 6
            }
        }
    };
    clamp_spec(stepped, ZOOM_MIN as int, ZOOM_MAX as int)
}

/// A pan: the screen-space delta scaled into canvas units by the zoom,
/// added to the offset, kept inside the offset guard.
pub open spec fn panned_offset_spec(off: int, d: int, z: int) -> int {
    clamp_spec(
        off + scale_screen_to_canvas_spec(d, z),
        -OFFSET_LIMIT as int,
        OFFSET_LIMIT as int,
    )
}

/// One axis of the offset after a zoom about a view-local cursor
/// position: pan by its negation under the old zoom, then back by it
/// under the new zoom.
pub open spec fn zoom_offset_spec(off: int, local: int, z_old: int, z_new: int) -> int {
    panned_offset_spec(panned_offset_spec(off, -local, z_old), local, z_new)
}

/// Zoom-anchoring law: as long as neither pan runs into the offset
/// guard, the canvas-space point under the cursor after a zoom about
/// that cursor is the canvas-space point under it before, up to at most
/// one micro-unit (a millionth of a canvas pixel), the flooring of the
/// single re-centering pan. When the cursor position divides evenly by
/// the old zoom the two points are exactly equal.
pub proof fn lemma_zoom_anchors_cursor(off: int, local: int, z_old: int, z_new: int)
    requires
        zoom_wf(z_old),
        zoom_wf(z_new),
        -OFFSET_LIMIT as int <= off + scale_screen_to_canvas_spec(-local, z_old)
            <= OFFSET_LIMIT as int,
        -OFFSET_LIMIT as int <= off + scale_screen_to_canvas_spec(-local, z_old)
            + scale_screen_to_canvas_spec(local, z_new) <= OFFSET_LIMIT as int,
    ensures
        screen_to_canvas_spec(local, off, z_old) <= screen_to_canvas_spec(
            local,
            zoom_offset_spec(off, local, z_old, z_new),
            z_new,
        ) <= screen_to_canvas_spec(local, off, z_old) + 1,
        (local * UNIT as int) % z_old == 0 ==> screen_to_canvas_spec(
            local,
            zoom_offset_spec(off, local, z_old, z_new),
            z_new,
        ) == screen_to_canvas_spec(local, off, z_old),
{
    let u = UNIT as int;
    let a = local * u;
    // The first pan adds the scaled negation, which floors the other
    // way: expand it against the scaled value itself.
    assert((-local) * u == -a);
    crate::coord::lemma_neg_div(a, z_old);
    // With neither clamp engaged, the second pan's term cancels against
    // the re-read under the new zoom, leaving only the first pan's
    // flooring slack.
    assert(zoom_offset_spec(off, local, z_old, z_new) == off + (-a) / z_old + a / z_new);
}

/// One rendered view into a scene: its render target, camera, panel
/// bounds and display settings.
#[derive(Debug)]
pub struct Viewport {
    /// The render target's size in pixels.
    pub rt_size: Extent2,
    /// The registry key of the render target.
    pub rt_key: RegistryKey,
    /// The camera's pan offset, in canvas units.
    pub offset: Vec2,
    /// The camera's zoom: canvas units times zoom gives screen pixels.
    pub zoom: i64,
    /// The drag that currently pans this view, if any.
    pub drag_state: DragState<MouseButton>,
    /// Whether the pointer hovered this view's panel at the last draw.
    pub is_hovered: bool,
    /// The panel bounds the GUI last reported, in screen space.
    pub bounds: Rect,
    /// Whether light gizmos react to the pointer in this view.
    pub light_gizmos_interactable: bool,
    /// The gizmo overlay's base opacity.
    pub gizmo_opacity: i64,
    /// Which map this view displays.
    pub shown_map_type: MapType,
    /// The assumed camera height the parallax effect divides by.
    pub camera_height: i64,
    /// This view's global ambient weight.
    pub global_ambient: i64,
    /// This view's global diffuse weight.
    pub global_diffuse: i64,
    /// This view's global specular weight.
    pub global_specular: i64,
    /// Whether the three weights are renormalized when edited.
    pub normalize_intensities: bool,
}

impl Viewport {
    /// The invariants every viewport operation maintains.
    pub open spec fn wf(self) -> bool {
        &&& zoom_wf(self.zoom as int)
        &&& self.offset.within_spec(OFFSET_LIMIT as int)
        &&& self.bounds.within_spec(COORD_LIMIT as int)
        &&& self.drag_state.wf()
        &&& 1 <= self.rt_size.w as int <= RT_DIM_MAX as int
        &&& 1 <= self.rt_size.h as int <= RT_DIM_MAX as int
        &&& UNIT as int <= self.camera_height as int <= HEIGHT_MAX as int
        &&& 0 <= self.gizmo_opacity <= UNIT
    }

    /// Releases `old_key` if given, creates a render target of the
    /// requested size under a fresh key, and binds it for display.
    fn recreate_render_target(
        size: Extent2,
        old_key: Option<RegistryKey>,
        registry: &mut TextureRegistry,
    ) -> (key: RegistryKey)
        requires
            old(registry).wf(),
            old(registry).next_key_spec() < 0xffff_ffff_ffff_fffe,
            old(registry).next_bg_key_spec() < usize::MAX,
            old_key matches Some(k) ==> old(registry).contains_key(k),
        ensures
            final(registry).wf(),
            key.0 == old(registry).next_key_spec(),
            final(registry).contains_key(key),
            final(registry).key_has_size(key, size),
            old_key matches Some(k) ==> !final(registry).contains_key(k),
            forall|k: RegistryKey|
                k.0 != key.0 && (old_key matches Some(ok) ==> k.0 != ok.0) ==> (final(registry).contains_key(k)
                    <==> old(registry).contains_key(k)),
            final(registry).next_key_spec() == old(registry).next_key_spec() + 1,
    {
        match old_key {
            Some(k) => {
                proof {
                    let i = choose|i: int|
                        0 <= i < old(registry).entries_spec().len() && (#[trigger] old(
                            registry,
                        ).entries_spec()[i]).key.0 == k.0;
                    assert(k.0 < old(registry).next_key_spec());
                }
                registry.remove(k);
            },
            None => {},
        }
        let ghost r1 = *registry;
        let rt_key = registry.create_texture(size, "viewport render target".to_owned());
        let ghost r2 = *registry;
        let bg = registry.add_bind_group();
        let ghost r3 = *registry;
        registry.assign_bind_group(rt_key, bg);
        proof {
            // The fresh entry is the only one under the fresh key (all
            // earlier keys sit below the counter), and the bind-group
            // assignment changed nothing but that entry's binding, so
            // the size filed under the key is the requested one.
            let n1 = r1.entries_spec().len() as int;
            assert(r3.entries_spec() == r2.entries_spec());
            let j = choose|j: int|
                0 <= j < r3.entries_spec().len() && (#[trigger] r3.entries_spec()[j]).key.0
                    == rt_key.0 && registry.entries_spec() == r3.entries_spec().update(
                    j,
                    TextureInfo { bind_group: Some(bg), ..r3.entries_spec()[j] },
                );
            assert forall|i: int|
                0 <= i < registry.entries_spec().len() && (#[trigger] registry.entries_spec()[i]).key.0
                    == rt_key.0 implies registry.entries_spec()[i].size == size by {
                if i != j {
                    assert(registry.entries_spec()[i] == r2.entries_spec()[i]);
                    if i < n1 {
                        assert(r1.entries_spec()[i].key.0 < rt_key.0);
                    }
                } else {
                    if j < n1 {
                        assert(r1.entries_spec()[j].key.0 < rt_key.0);
                    }
                }
            }
        }
        rt_key
    }

    /// Creates a viewport of the given render-target size, with the
    /// fixed default camera (offset `(32, 32)`, zoom `4.0`) and display
    /// settings, and a fresh render target filed in the registry.
    pub fn create(size: Extent2, registry: &mut TextureRegistry) -> (vp: Viewport)
        requires
            old(registry).wf(),
            old(registry).next_key_spec() < 0xffff_ffff_ffff_fffe,
            old(registry).next_bg_key_spec() < usize::MAX,
            1 <= size.w as int <= RT_DIM_MAX as int,
            1 <= size.h as int <= RT_DIM_MAX as int,
        ensures
            final(registry).wf(),
            vp.wf(),
            vp.rt_size == size,
            final(registry).contains_key(vp.rt_key),
            final(registry).key_has_size(vp.rt_key, size),
            vp.offset == (Vec2 { x: 32_000_000i64, y: 32_000_000i64 }),
            vp.zoom == 4_000_000i64,
            vp.drag_state.state is None,
            !vp.is_hovered,
            vp.bounds == (Rect { x: 0i64, y: 0i64, w: 0i64, h: 0i64 }),
            vp.light_gizmos_interactable,
            vp.gizmo_opacity == 20_000i64,
            vp.shown_map_type == MapType::Rendered,
            vp.camera_height == 25_000_000i64,
            vp.global_ambient == 50_000i64,
            vp.global_diffuse == 475_000i64,
            vp.global_specular == 475_000i64,
            vp.normalize_intensities,
    {
        let rt_key = Viewport::recreate_render_target(size, None, registry);
        Viewport {
            rt_size: size,
            rt_key,
            offset: Vec2 { x: 32_000_000, y: 32_000_000 },
            zoom: 4_000_000,
            drag_state: DragState::new(),
            is_hovered: false,
            bounds: Rect::zero(),
            light_gizmos_interactable: true,
            gizmo_opacity: 20_000,
            shown_map_type: MapType::Rendered,
            camera_height: 25_000_000,
            global_ambient: 50_000,
            global_diffuse: 475_000,
            global_specular: 475_000,
            normalize_intensities: true,
        }
    }

    /// Pans the camera by a screen-space delta, read in canvas units
    /// under the zoom in force at the time of this call.
    pub fn move_offset(&mut self, delta: Vec2)
        requires
            old(self).wf(),
            delta.within_spec(2 * COORD_LIMIT as int),
        ensures
            final(self).wf(),
            *final(self) == (Viewport { offset: final(self).offset, ..*old(self) }),
            final(self).offset.x == panned_offset_spec(
                old(self).offset.x as int,
                delta.x as int,
                old(self).zoom as int,
            ),
            final(self).offset.y == panned_offset_spec(
                old(self).offset.y as int,
                delta.y as int,
                old(self).zoom as int,
            ),
    {
        let dx: i64 = scale_screen_to_canvas(delta.x, self.zoom);
        let dy: i64 = scale_screen_to_canvas(delta.y, self.zoom);
        self.offset = Vec2 {
            x: clamp_i64(self.offset.x + dx, -OFFSET_LIMIT, OFFSET_LIMIT),
            y: clamp_i64(self.offset.y + dy, -OFFSET_LIMIT, OFFSET_LIMIT),
        };
    }

    /// One step of the zoom policy as an executable function.
    fn zoom_step(z: i64, zoom_in: bool, snap: bool, precision: bool) -> (r: i64)
        requires
            zoom_wf(z as int),
        ensures
            r == zoom_stepped_spec(z as int, zoom_in, snap, precision),
            zoom_wf(r as int),
    {
        let stepped: i64 = if snap {
            if precision {
                let rounded: i64 = div_floor(z + 5_000, 10_000) * 10_000;
                let step: i64 = if rounded >= PRECISION_STEP_THRESHOLD {
                    PRECISION_STEP_COARSE
                } else {
                    PRECISION_STEP_FINE
                };
                if zoom_in {
                    rounded + step
                } else {
                    rounded - step
                }
            } else {
                if zoom_in {
                    div_floor(z, UNIT) * UNIT + UNIT
                } else {
                    div_floor(z + UNIT - 1, UNIT) * UNIT - UNIT
                }
            }
        } else {
            if zoom_in {
                if precision {
                    div_floor(z * 51, 50)
                } else {
                    div_floor(z * 6, 5)
                }
            } else {
                if precision {
                    div_floor(z * 50, 51)
                } else {
                    div_floor(z * 5, 6)
                }
            }
        };
        clamp_i64(stepped, ZOOM_MIN, ZOOM_MAX)
    }

    /// Zooms about the given cursor position (in GUI-global screen
    /// space): the view is re-centered on the cursor, the zoom stepped
    /// by the policy, and the view re-anchored, so the canvas point
    /// under the cursor stays put. The zoom always lands inside the
    /// clamp range.
    pub fn zoom(&mut self, zoom_in: bool, snap: bool, precision: bool, mouse_pos: Vec2)
        requires
            old(self).wf(),
            mouse_pos.within_spec(COORD_LIMIT as int),
        ensures
            final(self).wf(),
            *final(self) == (Viewport {
                offset: final(self).offset,
                zoom: final(self).zoom,
                ..*old(self)
            }),
            final(self).zoom == zoom_stepped_spec(old(self).zoom as int, zoom_in, snap, precision),
            ZOOM_MIN <= final(self).zoom <= ZOOM_MAX,
            final(self).offset.x == zoom_offset_spec(
                old(self).offset.x as int,
                mouse_pos.x as int - old(self).bounds.x as int,
                old(self).zoom as int,
                final(self).zoom as int,
            ),
            final(self).offset.y == zoom_offset_spec(
                old(self).offset.y as int,
                mouse_pos.y as int - old(self).bounds.y as int,
                old(self).zoom as int,
                final(self).zoom as int,
            ),
    {
        let mx: i64 = mouse_pos.x - self.bounds.x;
        let my: i64 = mouse_pos.y - self.bounds.y;
        self.move_offset(Vec2 { x: -mx, y: -my });
        self.zoom = Viewport::zoom_step(self.zoom, zoom_in, snap, precision);
        self.move_offset(Vec2 { x: mx, y: my });
    }

    /// The sub-rectangle of the panel bounds that counts as hovering
    /// this view (the panel minus its decorations).
    pub fn viewport_bounds(&self) -> (r: Rect)
        requires
            self.wf(),
        ensures
            r.x == self.bounds.x + 5_000_000,
            r.y == self.bounds.y + 20_000_000,
            r.w == self.bounds.w - 10_000_000,
            r.h == self.bounds.h - 25_000_000,
    {
        self.bounds.adjusted_by(5_000_000, 20_000_000, -10_000_000, -25_000_000)
    }

    /// Releases this view's render target; called when the hosting
    /// panel closes, so the handle does not leak.
    pub fn close(&mut self, registry: &mut TextureRegistry)
        requires
            old(self).wf(),
            old(registry).wf(),
        ensures
            final(self).wf(),
            final(registry).wf(),
            *final(self) == *old(self),
            !final(registry).contains_key(old(self).rt_key),
            forall|k: RegistryKey|
                k.0 != old(self).rt_key.0 ==> (final(registry).contains_key(k) <==> old(
                    registry,
                ).contains_key(k)),
    {
        registry.remove(self.rt_key);
    }

    /// Scales a screen displacement into canvas units.
    pub fn scale_screen_to_canvas(&self, v: Vec2) -> (r: Vec2)
        requires
            self.wf(),
            v.within_spec(2 * COORD_LIMIT as int),
        ensures
            r.x == scale_screen_to_canvas_spec(v.x as int, self.zoom as int),
            r.y == scale_screen_to_canvas_spec(v.y as int, self.zoom as int),
            abs_spec(r.x as int) <= abs_spec(v.x as int),
            abs_spec(r.y as int) <= abs_spec(v.y as int),
    {
        Vec2 {
            x: scale_screen_to_canvas(v.x, self.zoom),
            y: scale_screen_to_canvas(v.y, self.zoom),
        }
    }

    /// Scales a canvas displacement into screen units.
    pub fn scale_canvas_to_screen(&self, v: Vec2) -> (r: Vec2)
        requires
            self.wf(),
            v.within_spec(COORD_LIMIT as int),
        ensures
            r.x == scale_canvas_to_screen_spec(v.x as int, self.zoom as int),
            r.y == scale_canvas_to_screen_spec(v.y as int, self.zoom as int),
    {
        Vec2 {
            x: scale_canvas_to_screen(v.x, self.zoom),
            y: scale_canvas_to_screen(v.y, self.zoom),
        }
    }

    /// Scales a screen displacement into framebuffer units.
    pub fn scale_screen_to_fb(&self, v: Vec2) -> (r: Vec2)
        requires
            self.wf(),
            v.within_spec(COORD_LIMIT as int),
        ensures
            r.x == scale_screen_to_fb_spec(v.x as int, self.rt_size.w as int),
            r.y == scale_screen_to_fb_spec(v.y as int, self.rt_size.h as int),
    {
        Vec2 {
            x: scale_screen_to_fb(v.x, self.rt_size.w as i64),
            y: scale_screen_to_fb(v.y, self.rt_size.h as i64),
        }
    }

    /// Scales a framebuffer displacement into screen units.
    pub fn scale_fb_to_screen(&self, v: Vec2) -> (r: Vec2)
        requires
            self.wf(),
            v.within_spec(crate::coord::FB_LIMIT as int),
        ensures
            r.x == scale_fb_to_screen_spec(v.x as int, self.rt_size.w as int),
            r.y == scale_fb_to_screen_spec(v.y as int, self.rt_size.h as int),
    {
        Vec2 {
            x: scale_fb_to_screen(v.x, self.rt_size.w as i64),
            y: scale_fb_to_screen(v.y, self.rt_size.h as i64),
        }
    }

    /// Scales a framebuffer displacement into canvas units, strictly by
    /// composing the two simple scalings.
    pub fn scale_fb_to_canvas(&self, v: Vec2) -> (r: Vec2)
        requires
            self.wf(),
            v.within_spec(30 * UNIT as int),
        ensures
            r.x == scale_screen_to_canvas_spec(
                scale_fb_to_screen_spec(v.x as int, self.rt_size.w as int),
                self.zoom as int,
            ),
            r.y == scale_screen_to_canvas_spec(
                scale_fb_to_screen_spec(v.y as int, self.rt_size.h as int),
                self.zoom as int,
            ),
    {
        let s: Vec2 = self.scale_fb_to_screen(v);
        proof {
            crate::coord::lemma_mul_div_range(
                v.x as int,
                self.rt_size.w as int,
                2,
                30 * UNIT as int,
                RT_DIM_MAX as int,
                2,
            );
            crate::coord::lemma_mul_div_range(
                v.y as int,
                self.rt_size.h as int,
                2,
                30 * UNIT as int,
                RT_DIM_MAX as int,
                2,
            );
        }
        self.scale_screen_to_canvas(s)
    }

    /// Scales a canvas displacement into framebuffer units, strictly by
    /// composing the two simple scalings.
    pub fn scale_canvas_to_fb(&self, v: Vec2) -> (r: Vec2)
        requires
            self.wf(),
            v.within_spec(COORD_LIMIT as int / 64),
        ensures
            r.x == scale_screen_to_fb_spec(
                scale_canvas_to_screen_spec(v.x as int, self.zoom as int),
                self.rt_size.w as int,
            ),
            r.y == scale_screen_to_fb_spec(
                scale_canvas_to_screen_spec(v.y as int, self.zoom as int),
                self.rt_size.h as int,
            ),
    {
        let s: Vec2 = self.scale_canvas_to_screen(v);
        proof {
            crate::coord::lemma_mul_div_range(
                v.x as int,
                self.zoom as int,
                UNIT as int,
                COORD_LIMIT as int / 64,
                ZOOM_MAX as int,
                UNIT as int,
            );
            crate::coord::lemma_mul_div_range(
                v.y as int,
                self.zoom as int,
                UNIT as int,
                COORD_LIMIT as int / 64,
                ZOOM_MAX as int,
                UNIT as int,
            );
        }
        self.scale_screen_to_fb(s)
    }

    /// Carries a view-local screen point into canvas space.
    pub fn transform_screen_to_canvas(&self, p: Vec2) -> (r: Vec2)
        requires
            self.wf(),
            p.within_spec(2 * COORD_LIMIT as int),
        ensures
            r.x == screen_to_canvas_spec(p.x as int, self.offset.x as int, self.zoom as int),
            r.y == screen_to_canvas_spec(p.y as int, self.offset.y as int, self.zoom as int),
            abs_spec(r.x as int) <= abs_spec(p.x as int) + abs_spec(self.offset.x as int),
            abs_spec(r.y as int) <= abs_spec(p.y as int) + abs_spec(self.offset.y as int),
    {
        Vec2 {
            x: screen_to_canvas_point(p.x, self.offset.x, self.zoom),
            y: screen_to_canvas_point(p.y, self.offset.y, self.zoom),
        }
    }

    /// Carries a canvas point into view-local screen space.
    pub fn transform_canvas_to_screen(&self, p: Vec2) -> (r: Vec2)
        requires
            self.wf(),
            p.within_spec(COORD_LIMIT as int),
        ensures
            r.x == canvas_to_screen_spec(p.x as int, self.offset.x as int, self.zoom as int),
            r.y == canvas_to_screen_spec(p.y as int, self.offset.y as int, self.zoom as int),
    {
        Vec2 {
            x: canvas_to_screen_point(p.x, self.offset.x, self.zoom),
            y: canvas_to_screen_point(p.y, self.offset.y, self.zoom),
        }
    }

    /// Carries a view-local screen point into framebuffer space.
    pub fn transform_screen_to_fb(&self, p: Vec2) -> (r: Vec2)
        requires
            self.wf(),
            p.within_spec(COORD_LIMIT as int),
        ensures
            r.x == screen_to_fb_spec(p.x as int, self.rt_size.w as int),
            r.y == screen_to_fb_spec(p.y as int, self.rt_size.h as int),
    {
        Vec2 {
            x: screen_to_fb_point(p.x, self.rt_size.w as i64),
            y: screen_to_fb_point(p.y, self.rt_size.h as i64),
        }
    }

    /// Carries a framebuffer point into view-local screen space.
    pub fn transform_fb_to_screen(&self, p: Vec2) -> (r: Vec2)
        requires
            self.wf(),
            p.within_spec(crate::coord::FB_LIMIT as int - UNIT as int),
        ensures
            r.x == fb_to_screen_spec(p.x as int, self.rt_size.w as int),
            r.y == fb_to_screen_spec(p.y as int, self.rt_size.h as int),
    {
        Vec2 {
            x: fb_to_screen_point(p.x, self.rt_size.w as i64),
            y: fb_to_screen_point(p.y, self.rt_size.h as i64),
        }
    }

    /// Carries a canvas point into framebuffer space, strictly by
    /// composing the two simple transforms.
    pub fn transform_canvas_to_fb(&self, p: Vec2) -> (r: Vec2)
        requires
            self.wf(),
            p.within_spec(COORD_LIMIT as int / 64),
        ensures
            r.x == screen_to_fb_spec(
                canvas_to_screen_spec(p.x as int, self.offset.x as int, self.zoom as int),
                self.rt_size.w as int,
            ),
            r.y == screen_to_fb_spec(
                canvas_to_screen_spec(p.y as int, self.offset.y as int, self.zoom as int),
                self.rt_size.h as int,
            ),
    {
        let s: Vec2 = self.transform_canvas_to_screen(p);
        proof {
            crate::coord::lemma_mul_div_range(
                p.x as int + self.offset.x as int,
                self.zoom as int,
                UNIT as int,
                COORD_LIMIT as int / 64 + OFFSET_LIMIT as int,
                ZOOM_MAX as int,
                UNIT as int,
            );
            crate::coord::lemma_mul_div_range(
                p.y as int + self.offset.y as int,
                self.zoom as int,
                UNIT as int,
                COORD_LIMIT as int / 64 + OFFSET_LIMIT as int,
                ZOOM_MAX as int,
                UNIT as int,
            );
        }
        self.transform_screen_to_fb(s)
    }

    /// Carries a framebuffer point into canvas space, strictly by
    /// composing the two simple transforms.
    pub fn transform_fb_to_canvas(&self, p: Vec2) -> (r: Vec2)
        requires
            self.wf(),
            p.within_spec(30 * UNIT as int),
        ensures
            r.x == screen_to_canvas_spec(
                fb_to_screen_spec(p.x as int, self.rt_size.w as int),
                self.offset.x as int,
                self.zoom as int,
            ),
            r.y == screen_to_canvas_spec(
                fb_to_screen_spec(p.y as int, self.rt_size.h as int),
                self.offset.y as int,
                self.zoom as int,
            ),
    {
        let s: Vec2 = self.transform_fb_to_screen(p);
        proof {
            crate::coord::lemma_mul_div_range(
                p.x as int + UNIT as int,
                self.rt_size.w as int,
                2,
                31 * UNIT as int,
                RT_DIM_MAX as int,
                2,
            );
            crate::coord::lemma_mul_div_range(
                p.y as int + UNIT as int,
                self.rt_size.h as int,
                2,
                31 * UNIT as int,
                RT_DIM_MAX as int,
                2,
            );
        }
        self.transform_screen_to_canvas(s)
    }

    /// Replaces the render target with one of the new size: the old
    /// handle is released from the registry before the new one is filed,
    /// so no texture handle leaks.
    pub fn resize(&mut self, new_size: Extent2, registry: &mut TextureRegistry)
        requires
            old(self).wf(),
            old(registry).wf(),
            old(registry).contains_key(old(self).rt_key),
            old(registry).next_key_spec() < 0xffff_ffff_ffff_fffe,
            old(registry).next_bg_key_spec() < usize::MAX,
            1 <= new_size.w as int <= RT_DIM_MAX as int,
            1 <= new_size.h as int <= RT_DIM_MAX as int,
        ensures
            final(self).wf(),
            final(registry).wf(),
            *final(self) == (Viewport {
                rt_size: new_size,
                rt_key: final(self).rt_key,
                ..*old(self)
            }),
            !final(registry).contains_key(old(self).rt_key),
            final(registry).contains_key(final(self).rt_key),
            final(registry).key_has_size(final(self).rt_key, new_size),
            final(self).rt_key.0 == old(registry).next_key_spec(),
            forall|k: RegistryKey|
                k.0 != final(self).rt_key.0 && k.0 != old(self).rt_key.0 ==> (final(registry).contains_key(k)
                    <==> old(registry).contains_key(k)),
            final(registry).next_key_spec() == old(registry).next_key_spec() + 1,
    {
        self.rt_key = Viewport::recreate_render_target(new_size, Some(self.rt_key), registry);
        self.rt_size = new_size;
    }

    /// Reacts to this frame's GUI layout: adopts the panel bounds,
    /// recreates the render target if the panel's whole-pixel size no
    /// longer matches it (degenerate or oversized panel sizes are
    /// tolerated silently by keeping the previous target), and
    /// re-derives whether the pointer hovers this view.
    pub fn draw(
        &mut self,
        panel_bounds: Rect,
        window_hovered: bool,
        mouse_pos: Vec2,
        registry: &mut TextureRegistry,
    )
        requires
            old(self).wf(),
            old(registry).wf(),
            old(registry).contains_key(old(self).rt_key),
            old(registry).next_key_spec() < 0xffff_ffff_ffff_fffe,
            old(registry).next_bg_key_spec() < usize::MAX,
            panel_bounds.within_spec(COORD_LIMIT as int),
            mouse_pos.within_spec(COORD_LIMIT as int),
        ensures
            final(self).wf(),
            final(registry).wf(),
            final(self).bounds == panel_bounds,
            final(self).is_hovered == (window_hovered && panel_hover_spec(
                panel_bounds,
                mouse_pos,
            )),
            *final(self) == (Viewport {
                bounds: panel_bounds,
                is_hovered: final(self).is_hovered,
                rt_size: final(self).rt_size,
                rt_key: final(self).rt_key,
                ..*old(self)
            }),
            ({
                let ww = wanted_px_spec(panel_bounds.w as int);
                let wh = wanted_px_spec(panel_bounds.h as int);
                let resizes = (ww != old(self).rt_size.w as int
                    || wh != old(self).rt_size.h as int) && 1 <= ww <= RT_DIM_MAX as int && 1 <= wh
                    <= RT_DIM_MAX as int;
                &&& (resizes ==> final(self).rt_size.w as int == ww
                    && final(self).rt_size.h as int == wh
                    && !final(registry).contains_key(old(self).rt_key)
                    && final(registry).contains_key(final(self).rt_key)
                    && final(registry).key_has_size(final(self).rt_key, final(self).rt_size))
                &&& (!resizes ==> final(self).rt_size == old(self).rt_size && final(self).rt_key
                    == old(self).rt_key && *final(registry) == *old(registry))
            }),
    {
        self.bounds = panel_bounds;
        let aw: i64 = if panel_bounds.w < 0 {
            -panel_bounds.w
        } else {
            panel_bounds.w
        };
        let ah: i64 = if panel_bounds.h < 0 {
            -panel_bounds.h
        } else {
            panel_bounds.h
        };
        let ww: i64 = div_floor(aw, UNIT);
        let wh: i64 = div_floor(ah, UNIT);
        proof {
            crate::fixed::lemma_div_floor_in_range(aw as int, UNIT as int);
            crate::fixed::lemma_div_floor_in_range(ah as int, UNIT as int);
            crate::fixed::lemma_div_floor_ordered(0, aw as int, UNIT as int);
            crate::fixed::lemma_div_floor_ordered(0, ah as int, UNIT as int);
            crate::fixed::lemma_div_floor_multiple(0, UNIT as int);
        }
        let mismatch: bool = ww != self.rt_size.w as i64 || wh != self.rt_size.h as i64;
        let valid: bool = 1 <= ww && ww <= RT_DIM_MAX && 1 <= wh && wh <= RT_DIM_MAX;
        if mismatch && valid {
            self.resize(Extent2 { w: ww as u32, h: wh as u32 }, registry);
        }
        let vb: Rect = self.viewport_bounds();
        self.is_hovered = window_hovered && vb.contains(mouse_pos.x, mouse_pos.y);
    }

    /// Interprets one input event against this view and the shared
    /// scene. A press inside a hovered view claims the event (the
    /// return value) and starts a camera or light drag; a press this
    /// view may not claim releases its drags. A pointer move feeds the
    /// active drags and re-derives the gizmo hover. A scroll inside a
    /// hovered view zooms about the cursor. The parallax toggle key
    /// flips the scene's parallax flag.
    pub fn handle_event(
        &mut self,
        io: &IoState,
        event: &InputEvent,
        scene: &mut Scene,
        allow_claim: bool,
    ) -> (r: bool)
        requires
            old(self).wf(),
            old(scene).wf(),
            io.mouse_pos.within_spec(COORD_LIMIT as int),
            event matches InputEvent::CursorMoved { position } ==> position.within_spec(
                COORD_LIMIT as int,
            ),
        ensures
            final(self).wf(),
            final(scene).wf(),
            (event matches InputEvent::MouseInput { state, button } ==> ({
                let claim = state == ElementState::Pressed && old(self).is_hovered && allow_claim;
                let pre_light = old(scene).lighting.lights@[0];
                &&& (claim && button == MouseButton::Left ==> r && *final(self) == *old(self)
                    && scene_same_but_light0(*old(scene), *final(scene))
                    && final(scene).lighting.lights@[0] == (if pre_light.gizmo_hovered {
                        Light {
                            drag_state: pre_light.drag_state.activate_next(
                                MouseButton::Left,
                                Some(io.mouse_pos),
                            ),
                            ..pre_light
                        }
                    } else {
                        pre_light
                    }))
                &&& (claim && button == MouseButton::Right ==> r
                    && scene_unchanged(*old(scene), *final(scene))
                    && *final(self) == (Viewport {
                        drag_state: old(self).drag_state.activate_next(
                            MouseButton::Right,
                            Some(io.mouse_pos),
                        ),
                        ..*old(self)
                    }))
                &&& (claim && button != MouseButton::Left && button != MouseButton::Right ==> !r
                    && *final(self) == *old(self) && scene_unchanged(*old(scene), *final(scene)))
                &&& (!claim ==> !r && scene_same_but_light0(*old(scene), *final(scene))
                    && *final(self) == (Viewport {
                        drag_state: DragState { state: None, prev_pos: None },
                        ..*old(self)
                    }) && final(scene).lighting.lights@[0] == (Light {
                        drag_state: DragState { state: None, prev_pos: None },
                        ..pre_light
                    }))
            })),
            (event matches InputEvent::CursorMoved { position } ==> !r && cursor_camera_next_ok(
                *old(self),
                *final(self),
                *position,
            ) && scene_same_but_light0(*old(scene), *final(scene)) && cursor_light_next_ok(
                *old(self),
                old(scene).lighting.lights@[0],
                final(scene).lighting.lights@[0],
                *position,
                old(scene).lighting.enable_light_parallax,
                io.key_shift,
                io.key_ctrl,
            )),
            (event matches InputEvent::MouseWheel { delta_y, phase } ==> ({
                let acted = old(self).is_hovered && phase == TouchPhase::Moved && delta_y != 0;
                &&& !r
                &&& scene_unchanged(*old(scene), *final(scene))
                &&& (acted ==> *final(self) == (Viewport {
                    offset: final(self).offset,
                    zoom: final(self).zoom,
                    ..*old(self)
                }) && final(self).zoom == zoom_stepped_spec(
                    old(self).zoom as int,
                    delta_y > 0,
                    io.key_shift,
                    io.key_ctrl,
                ) && final(self).offset.x == zoom_offset_spec(
                    old(self).offset.x as int,
                    io.mouse_pos.x as int - old(self).bounds.x as int,
                    old(self).zoom as int,
                    final(self).zoom as int,
                ) && final(self).offset.y == zoom_offset_spec(
                    old(self).offset.y as int,
                    io.mouse_pos.y as int - old(self).bounds.y as int,
                    old(self).zoom as int,
                    final(self).zoom as int,
                ))
                &&& (!acted ==> *final(self) == *old(self))
            })),
            (event matches InputEvent::KeyboardInput { key, state } ==> ({
                let toggles = key == VirtualKey::P && state == ElementState::Pressed;
                &&& !r
                &&& *final(self) == *old(self)
                &&& final(scene).textures == old(scene).textures
                &&& final(scene).lighting.lights@ == old(scene).lighting.lights@
                &&& final(scene).lighting.global_ambient == old(scene).lighting.global_ambient
                &&& final(scene).lighting.global_diffuse == old(scene).lighting.global_diffuse
                &&& final(scene).lighting.global_specular == old(scene).lighting.global_specular
                &&& final(scene).lighting.enable_light_parallax == (if toggles {
                    !old(scene).lighting.enable_light_parallax
                } else {
                    old(scene).lighting.enable_light_parallax
                })
            })),
    {
        match *event {
            InputEvent::MouseInput { state, button } => {
                let pressed: bool = state == ElementState::Pressed;
                if pressed && self.is_hovered && allow_claim {
                    match button {
                        MouseButton::Left => {
                            proof {
                                assert(scene.lighting.lights@[0].wf());
                            }
                            let ghost pre_lights = scene.lighting.lights@;
                            let light = &mut scene.lighting.lights[0];
                            if light.gizmo_hovered {
                                light.drag_state.activate(MouseButton::Left, Some(io.mouse_pos));
                            }
                            proof {
                                assert(scene.lighting.lights@ == pre_lights.update(
                                    0,
                                    scene.lighting.lights@[0],
                                ));
                                assert forall|i: int|
                                    0 <= i < scene.lighting.lights@.len() implies (
                                #[trigger] scene.lighting.lights@[i]).wf() by {
                                    if i > 0 {
                                        assert(scene.lighting.lights@[i] == pre_lights[i]);
                                    }
                                }
                            }
                            return true;
                        },
                        MouseButton::Right => {
                            self.drag_state.activate(MouseButton::Right, Some(io.mouse_pos));
                            return true;
                        },
                        _ => {
                            return false;
                        },
                    }
                } else {
                    self.drag_state.deactivate();
                    proof {
                        assert(scene.lighting.lights@[0].wf());
                    }
                    let ghost pre_lights = scene.lighting.lights@;
                    let light = &mut scene.lighting.lights[0];
                    light.drag_state.deactivate();
                    proof {
                        assert(scene.lighting.lights@ == pre_lights.update(
                            0,
                            scene.lighting.lights@[0],
                        ));
                        assert forall|i: int|
                            0 <= i < scene.lighting.lights@.len() implies (
                        #[trigger] scene.lighting.lights@[i]).wf() by {
                            if i > 0 {
                                assert(scene.lighting.lights@[i] == pre_lights[i]);
                            }
                        }
                    }
                    return false;
                }
            },
            InputEvent::CursorMoved { position } => {
                let ghost l0 = scene.lighting.lights@[0];
                proof {
                    assert(l0.wf());
                }
                if self.drag_state.active() {
                    let delta: Vec2 = self.drag_state.update(position).unwrap();
                    self.move_offset(delta);
                    if scene.lighting.enable_light_parallax {
                        let dp_canvas: Vec2 = self.scale_screen_to_canvas(delta);
                        let ghost pre_lights = scene.lighting.lights@;
                        let light = &mut scene.lighting.lights[0];
                        light.apply_parallax(dp_canvas, self.camera_height);
                        proof {
                            assert(scene.lighting.lights@ == pre_lights.update(
                                0,
                                scene.lighting.lights@[0],
                            ));
                        }
                    }
                }
                let local: Vec2 = Vec2 {
                    x: position.x - self.bounds.x,
                    y: position.y - self.bounds.y,
                };
                let canvas_pos: Vec2 = self.transform_screen_to_canvas(local);
                let zoom_now: i64 = self.zoom;
                let interactable: bool = self.light_gizmos_interactable;
                let ghost mid_lights = scene.lighting.lights@;
                proof {
                    assert(scene.lighting.lights@[0].wf());
                }
                let light = &mut scene.lighting.lights[0];
                if light.drag_state.active() {
                    let delta2: Vec2 = light.drag_state.update(position).unwrap();
                    light.apply_drag(delta2, zoom_now, io.key_shift, io.key_ctrl);
                }
                light.update_hover(canvas_pos, interactable);
                proof {
                    assert(scene.lighting.lights@ == mid_lights.update(
                        0,
                        scene.lighting.lights@[0],
                    ));
                    assert forall|i: int|
                        0 <= i < scene.lighting.lights@.len() implies (
                    #[trigger] scene.lighting.lights@[i]).wf() by {
                        if i > 0 {
                            assert(scene.lighting.lights@[i] == mid_lights[i]);
                            assert(mid_lights[i] == old(scene).lighting.lights@[i]);
                        }
                    }
                }
                return false;
            },
            InputEvent::MouseWheel { delta_y, phase } => {
                if self.is_hovered {
                    match phase {
                        TouchPhase::Moved => {
                            if delta_y < 0 {
                                self.zoom(false, io.key_shift, io.key_ctrl, io.mouse_pos);
                            } else if delta_y > 0 {
                                self.zoom(true, io.key_shift, io.key_ctrl, io.mouse_pos);
                            }
                        },
                        _ => {},
                    }
                }
                return false;
            },
            InputEvent::KeyboardInput { key, state } => {
                let is_p: bool = key == VirtualKey::P;
                if is_p && state == ElementState::Pressed {
                    scene.lighting.enable_light_parallax = !scene.lighting.enable_light_parallax;
                }
                return false;
            },
        }
    }

    /// Prepares this frame's two passes against the render target: the
    /// lit sprite composite first, then the light-gizmo overlay loaded
    /// on top of it, each with its uniforms computed from the camera,
    /// the scene's light, and this view's display settings.
    pub fn render(&self, scene: &Scene) -> (plan: RenderPlan)
        requires
            self.wf(),
            scene.wf(),
        ensures
            plan.passes@.len() == 2,
            plan.passes@[0] matches RenderPass::Sprite { target, uniforms } && target
                == self.rt_key && sprite_uniforms_ok(*self, *scene, uniforms),
            plan.passes@[1] matches RenderPass::Gizmo { target, uniforms } && target
                == self.rt_key && gizmo_uniforms_ok(*self, *scene, uniforms),
    {
        proof {
            assert(scene.lighting.lights@[0].wf());
        }
        let light: &Light = &scene.lighting.lights[0];
        let sx: i64 = scale_screen_to_fb(self.zoom, self.rt_size.w as i64);
        let sy: i64 = scale_screen_to_fb(self.zoom, self.rt_size.h as i64);
        proof {
            crate::coord::lemma_mul_div_range(
                self.zoom as int,
                2,
                self.rt_size.w as int,
                ZOOM_MAX as int,
                2,
                1,
            );
            crate::coord::lemma_mul_div_range(
                self.zoom as int,
                2,
                self.rt_size.h as int,
                ZOOM_MAX as int,
                2,
                1,
            );
        }
        let tw: i64 = scene.textures.size.w as i64;
        let th: i64 = scene.textures.size.h as i64;
        proof {
            assert(-5_000_000_000_000 <= sx as int * tw as int <= 5_000_000_000_000)
                by (nonlinear_arith)
                requires
                    -64_000_001 <= sx <= 64_000_000,
                    0 <= tw <= 65_536,
            ;
            assert(-5_000_000_000_000 <= sy as int * th as int <= 5_000_000_000_000)
                by (nonlinear_arith)
                requires
                    -64_000_001 <= sy <= 64_000_000,
                    0 <= th <= 65_536,
            ;
        }
        let m00: i64 = sx * tw;
        let m11: i64 = -(sy * th);
        proof {
            crate::coord::lemma_mul_div_range(
                self.offset.x as int,
                sx as int,
                UNIT as int,
                OFFSET_LIMIT as int,
                64_000_001,
                UNIT as int,
            );
            crate::coord::lemma_mul_div_range(
                self.offset.y as int,
                sy as int,
                UNIT as int,
                OFFSET_LIMIT as int,
                64_000_001,
                UNIT as int,
            );
        }
        let tx: i64 = -UNIT + crate::fixed::mul_div_floor(self.offset.x, sx, UNIT);
        let ty: i64 = UNIT - crate::fixed::mul_div_floor(self.offset.y, sy, UNIT);
        proof {
            crate::coord::lemma_mul_div_range(
                self.offset.x as int,
                self.zoom as int,
                UNIT as int,
                OFFSET_LIMIT as int,
                ZOOM_MAX as int,
                UNIT as int,
            );
            crate::coord::lemma_mul_div_range(
                self.offset.y as int,
                self.zoom as int,
                UNIT as int,
                OFFSET_LIMIT as int,
                ZOOM_MAX as int,
                UNIT as int,
            );
        }
        let center_x: i64 = div_floor(self.bounds.w, 2);
        let center_y: i64 = div_floor(self.bounds.h, 2);
        let off_screen_x: i64 = scale_canvas_to_screen(self.offset.x, self.zoom);
        let off_screen_y: i64 = scale_canvas_to_screen(self.offset.y, self.zoom);
        let cam_x: i64 = scale_screen_to_canvas(center_x - off_screen_x, self.zoom);
        let cam_y: i64 = scale_screen_to_canvas(center_y - off_screen_y, self.zoom);
        let sprite_uniforms = CanvasSpritePipelineUniforms {
            transform: PassTransform { sx: m00, sy: m11, tx, ty },
            light_color: light.color,
            light_pos: light.position,
            light_height: light.height,
            cam_pos: Vec2 { x: cam_x, y: cam_y },
            cam_height: self.camera_height,
            spec_power: 32_000_000,
            ambient_intensity: self.global_ambient,
            diffuse_intensity: self.global_diffuse,
            specular_intensity: self.global_specular,
            sprite_size: scene.textures.size,
            light_falloff: if light.enable_falloff {
                light.falloff_exp
            } else {
                0
            },
            map_view_type: self.shown_map_type.index(),
        };
        let gscale: i64 = div_floor(light.height, 100);
        proof {
            crate::coord::lemma_mul_div_range(
                m00 as int,
                gscale as int,
                UNIT as int,
                5_000_000_000_000,
                2_500_000,
                UNIT as int,
            );
            crate::coord::lemma_mul_div_range(
                m11 as int,
                gscale as int,
                UNIT as int,
                5_000_000_000_001,
                2_500_000,
                UNIT as int,
            );
            crate::coord::lemma_mul_div_range(
                light.position.x as int,
                sx as int,
                UNIT as int,
                OFFSET_LIMIT as int,
                64_000_001,
                UNIT as int,
            );
            crate::coord::lemma_mul_div_range(
                light.position.y as int,
                sy as int,
                UNIT as int,
                OFFSET_LIMIT as int,
                64_000_001,
                UNIT as int,
            );
        }
        let gsx: i64 = crate::fixed::mul_div_floor(m00, gscale, UNIT);
        let gsy: i64 = crate::fixed::mul_div_floor(m11, gscale, UNIT);
        let gtx: i64 = tx + crate::fixed::mul_div_floor(light.position.x, sx, UNIT);
        let gty: i64 = ty - crate::fixed::mul_div_floor(light.position.y, sy, UNIT);
        let alpha: i64 = if light.gizmo_hovered {
            self.gizmo_opacity * 2
        } else {
            self.gizmo_opacity
        };
        let gizmo_uniforms = LightGizmoUniforms {
            transform: PassTransform { sx: gsx, sy: gsy, tx: gtx, ty: gty },
            color: Color { c3: alpha, ..light.color },
        };
        let mut passes: Vec<RenderPass> = Vec::new();
        passes.push(RenderPass::Sprite { target: self.rt_key, uniforms: sprite_uniforms });
        passes.push(RenderPass::Gizmo { target: self.rt_key, uniforms: gizmo_uniforms });
        RenderPlan { passes }
    }
}

/// The panel size in whole pixels that a bounds axis asks for.
pub open spec fn wanted_px_spec(v: int) -> int {
    abs_spec(v) / UNIT as int
}

/// Whether a pointer position counts as hovering a panel with these
/// bounds: inside the panel minus its decorations.
pub open spec fn panel_hover_spec(bounds: Rect, m: Vec2) -> bool {
    &&& bounds.x + 5_000_000 <= m.x <= bounds.x + 5_000_000 + (bounds.w - 10_000_000)
    &&& bounds.y + 20_000_000 <= m.y <= bounds.y + 20_000_000 + (bounds.h - 25_000_000)
}

/// Whether both scenes agree on everything except possibly the first
/// light.
pub open spec fn scene_same_but_light0(pre: Scene, post: Scene) -> bool {
    &&& post.textures == pre.textures
    &&& post.lighting.enable_light_parallax == pre.lighting.enable_light_parallax
    &&& post.lighting.global_ambient == pre.lighting.global_ambient
    &&& post.lighting.global_diffuse == pre.lighting.global_diffuse
    &&& post.lighting.global_specular == pre.lighting.global_specular
    &&& post.lighting.lights@.len() == pre.lighting.lights@.len()
    &&& forall|i: int|
        1 <= i < pre.lighting.lights@.len() ==> post.lighting.lights@[i]
            == pre.lighting.lights@[i]
}

/// Whether the scene is untouched.
pub open spec fn scene_unchanged(pre: Scene, post: Scene) -> bool {
    &&& post.textures == pre.textures
    &&& post.lighting == pre.lighting
}

/// How a pointer move changes the view's own camera: an active drag
/// feeds the position in, pans by the reported delta (zero on the
/// drag's first sample), and remembers the position; otherwise nothing
/// moves.
pub open spec fn cursor_camera_next_ok(pre: Viewport, post: Viewport, position: Vec2) -> bool {
    let active = pre.drag_state.state is Some;
    let dx = pre.drag_state.update_delta_x(position);
    let dy = pre.drag_state.update_delta_y(position);
    &&& post == (Viewport { offset: post.offset, drag_state: post.drag_state, ..pre })
    &&& post.drag_state == (if active {
        pre.drag_state.update_next(position)
    } else {
        pre.drag_state
    })
    &&& post.offset.x as int == (if active {
        panned_offset_spec(pre.offset.x as int, dx, pre.zoom as int)
    } else {
        pre.offset.x as int
    })
    &&& post.offset.y as int == (if active {
        panned_offset_spec(pre.offset.y as int, dy, pre.zoom as int)
    } else {
        pre.offset.y as int
    })
}

/// How a pointer move changes the scene's light, given the view it
/// happens in: a camera pan may drag the light along by the parallax
/// rule; an active light drag adjusts height (shift), intensity
/// (control) or position (no modifier), exactly one branch per event,
/// height taking precedence; and the hover flag is re-derived against
/// the light's and camera's new state.
pub open spec fn cursor_light_next_ok(
    pre_vp: Viewport,
    pre: Light,
    post: Light,
    position: Vec2,
    parallax: bool,
    shift: bool,
    ctrl: bool,
) -> bool {
    let z = pre_vp.zoom as int;
    let cam_active = pre_vp.drag_state.state is Some;
    let cdx = pre_vp.drag_state.update_delta_x(position);
    let cdy = pre_vp.drag_state.update_delta_y(position);
    let dpcx = scale_screen_to_canvas_spec(cdx, z);
    let dpcy = scale_screen_to_canvas_spec(cdy, z);
    let p1x = if cam_active && parallax {
        clamp_spec(
            pre.position.x + parallax_nudge_spec(dpcx, pre.height as int, pre_vp.camera_height as int),
            -OFFSET_LIMIT as int,
            OFFSET_LIMIT as int,
        )
    } else {
        pre.position.x as int
    };
    let p1y = if cam_active && parallax {
        clamp_spec(
            pre.position.y + parallax_nudge_spec(dpcy, pre.height as int, pre_vp.camera_height as int),
            -OFFSET_LIMIT as int,
            OFFSET_LIMIT as int,
        )
    } else {
        pre.position.y as int
    };
    let light_active = pre.drag_state.state is Some;
    let ldx = pre.drag_state.update_delta_x(position);
    let ldy = pre.drag_state.update_delta_y(position);
    let h2 = if light_active && shift {
        height_dragged_spec(pre.height as int, scale_screen_to_canvas_spec(ldy, z))
    } else {
        pre.height as int
    };
    let a2 = if light_active && !shift && ctrl {
        intensity_dragged_spec(pre.color.c3 as int, ldy)
    } else {
        pre.color.c3 as int
    };
    let p2x = if light_active && !shift && !ctrl {
        clamp_spec(
            p1x + scale_screen_to_canvas_spec(ldx, z),
            -OFFSET_LIMIT as int,
            OFFSET_LIMIT as int,
        )
    } else {
        p1x
    };
    let p2y = if light_active && !shift && !ctrl {
        clamp_spec(
            p1y + scale_screen_to_canvas_spec(ldy, z),
            -OFFSET_LIMIT as int,
            OFFSET_LIMIT as int,
        )
    } else {
        p1y
    };
    let off1x = if cam_active {
        panned_offset_spec(pre_vp.offset.x as int, cdx, z)
    } else {
        pre_vp.offset.x as int
    };
    let off1y = if cam_active {
        panned_offset_spec(pre_vp.offset.y as int, cdy, z)
    } else {
        pre_vp.offset.y as int
    };
    let cpx = screen_to_canvas_spec(position.x - pre_vp.bounds.x, off1x, z);
    let cpy = screen_to_canvas_spec(position.y - pre_vp.bounds.y, off1y, z);
    let hovered = pre_vp.light_gizmos_interactable && gizmo_hit_spec(cpx, cpy, p2x, p2y, h2);
    &&& post.position.x as int == p2x
    &&& post.position.y as int == p2y
    &&& post.height as int == h2
    &&& post.color.c3 as int == a2
    &&& post.color.space == pre.color.space
    &&& post.color.c0 == pre.color.c0
    &&& post.color.c1 == pre.color.c1
    &&& post.color.c2 == pre.color.c2
    &&& post.gizmo_hovered == hovered
    &&& post.drag_state == (if light_active {
        pre.drag_state.update_next(position)
    } else {
        pre.drag_state
    })
    &&& post.falloff_exp == pre.falloff_exp
    &&& post.enable_falloff == pre.enable_falloff
    &&& post.diffuse == pre.diffuse
    &&& post.specular == pre.specular
}

} // verus!
