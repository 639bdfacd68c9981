//! The scene's point light and its pointer interaction.
//!
//! One light is driven by interaction: dragging moves it in canvas
//! space; with a shift modifier the vertical delta adjusts its height,
//! with a control modifier the vertical delta scales its intensity.
//! Exactly one branch applies per move event, height-adjustment taking
//! precedence when both modifiers are held. A hover test against the
//! circular gizmo runs on every pointer move; the gizmo's radius scales
//! with the light's height and never shrinks below a floor that would
//! make it unselectable.

use vstd::prelude::*;
use crate::fixed::{UNIT, abs_spec, max_spec, clamp_spec, clamp_i64, mul_div_floor, div_floor};
use crate::coord::{
    COORD_LIMIT,
    OFFSET_LIMIT,
    zoom_wf,
    scale_screen_to_canvas,
    scale_screen_to_canvas_spec,
    lemma_mul_div_range,
};
use crate::geom::Vec2;
use crate::color::Color;
use crate::drag::DragState;
use crate::input::MouseButton;

verus! {

/// The lowest height the light can be dragged to (`10.0`).
pub const HEIGHT_MIN: i64 = 10_000_000;

/// The highest height the light can be dragged to (`250.0`).
pub const HEIGHT_MAX: i64 = 250_000_000;

/// The lowest intensity the light can be driven to (`0.25`).
pub const INTENSITY_MIN: i64 = 250_000;

/// The highest intensity the light can be driven to (`5.0`).
pub const INTENSITY_MAX: i64 = 5_000_000;

/// The gizmo's hover radius never drops below two pixels.
pub const GIZMO_RADIUS_FLOOR: i64 = 2_000_000;

/// One hundred pixels of vertical pointer travel, the span over which a
/// drag with the control modifier scales intensity by one whole factor.
pub const INTENSITY_DRAG_SPAN: i64 = 100_000_000;

/// The gizmo's visual and hover radius in canvas units: a sixteenth of
/// the light's height (`6.25 * height / 100`), floored at two pixels.
pub open spec fn gizmo_radius_spec(h: int) -> int {
    max_spec(h / 16, GIZMO_RADIUS_FLOOR as int)
}

/// Whether a canvas-space point lies strictly inside the gizmo: its
/// Euclidean distance to the light is below the radius, compared on
/// squares so the test is exact.
pub open spec fn gizmo_hit_spec(cpx: int, cpy: int, lpx: int, lpy: int, h: int) -> bool {
    let dx = cpx - lpx;
    let dy = cpy - lpy;
    let r = gizmo_radius_spec(h);
    dx * dx + dy * dy < r * r
}

/// The height after a drag sample: the canvas-space vertical delta is
/// subtracted and the result clamped.
pub open spec fn height_dragged_spec(h: int, dy_canvas: int) -> int {
    clamp_spec(h - dy_canvas, HEIGHT_MIN as int, HEIGHT_MAX as int)
}

/// The intensity after a drag sample: scaled by
/// `1 - dy / 100` (the delta read in pixels) and clamped.
pub open spec fn intensity_dragged_spec(a: int, dy_screen: int) -> int {
    clamp_spec(
        (a * (INTENSITY_DRAG_SPAN as int - dy_screen)) / INTENSITY_DRAG_SPAN as int,
        INTENSITY_MIN as int,
        INTENSITY_MAX as int,
    )
}

/// The parallax nudge for one axis: the camera's canvas-space pan delta
/// scaled by `height / camera_height - 1`.
pub open spec fn parallax_nudge_spec(d: int, h: int, ch: int) -> int {
    (d * (h - ch)) / ch
}

/// The single scene light.
#[derive(Clone, Debug)]
pub struct Light {
    /// Where the light stands, in canvas space.
    pub position: Vec2,
    /// The light's height over the canvas plane, a distance-like scalar.
    pub height: i64,
    /// The light's color; the alpha channel is overloaded as intensity.
    pub color: Color,
    /// Whether the pointer hovered the gizmo at the last move; derived
    /// each pointer-move, not persisted.
    pub gizmo_hovered: bool,
    /// The exponent of the distance falloff.
    pub falloff_exp: i64,
    /// Whether the falloff is applied at all.
    pub enable_falloff: bool,
    /// The drag that currently manipulates this light, if any.
    pub drag_state: DragState<MouseButton>,
    /// The light's own diffuse factor.
    pub diffuse: i64,
    /// The light's own specular factor.
    pub specular: i64,
}

impl Light {
    /// The invariants interaction maintains: height and intensity inside
    /// their clamp ranges, the position inside the coordinate guard, and
    /// a well-formed drag.
    pub open spec fn wf(self) -> bool {
        &&& HEIGHT_MIN as int <= self.height <= HEIGHT_MAX as int
        &&& INTENSITY_MIN as int <= self.color.c3 <= INTENSITY_MAX as int
        &&& self.position.within_spec(OFFSET_LIMIT as int)
        &&& self.drag_state.wf()
    }

    /// The light's position as a triple: its canvas-plane coordinates
    /// and its height.
    pub fn position_3d(&self) -> (r: (i64, i64, i64))
        ensures
            r.0 == self.position.x,
            r.1 == self.position.y,
            r.2 == self.height,
    {
        (self.position.x, self.position.y, self.height)
    }

    /// The gizmo's current hover radius in canvas units.
    pub fn gizmo_radius(&self) -> (r: i64)
        requires
            self.wf(),
        ensures
            r == gizmo_radius_spec(self.height as int),
    {
        let scaled: i64 = div_floor(self.height, 16);
        if scaled > GIZMO_RADIUS_FLOOR {
            scaled
        } else {
            GIZMO_RADIUS_FLOOR
        }
    }

    /// Re-derives the hover flag from a canvas-space pointer position:
    /// hovered exactly when gizmos are interactable and the pointer is
    /// strictly inside the gizmo. Nothing else changes.
    pub fn update_hover(&mut self, canvas_pos: Vec2, interactable: bool)
        requires
            old(self).wf(),
            canvas_pos.within_spec(4 * COORD_LIMIT as int),
        ensures
            final(self).gizmo_hovered == (interactable && gizmo_hit_spec(
                canvas_pos.x as int,
                canvas_pos.y as int,
                old(self).position.x as int,
                old(self).position.y as int,
                old(self).height as int,
            )),
            *final(self) == (Light { gizmo_hovered: final(self).gizmo_hovered, ..*old(self) }),
            final(self).wf(),
    {
        let radius: i64 = self.gizmo_radius();
        let dx: i128 = canvas_pos.x as i128 - self.position.x as i128;
        let dy: i128 = canvas_pos.y as i128 - self.position.y as i128;
        proof {
            assert(dx * dx + dy * dy < 0x1000_0000_0000_0000_0000_0000_0000_0000
                && dx * dx >= 0 && dy * dy >= 0) by (nonlinear_arith)
                requires
                    abs_spec(dx as int) <= 5 * COORD_LIMIT as int,
                    abs_spec(dy as int) <= 5 * COORD_LIMIT as int,
            ;
            assert(radius * radius < 0x1000_0000_0000_0000_0000_0000_0000_0000) by (nonlinear_arith)
                requires
                    0 <= radius <= HEIGHT_MAX,
            ;
        }
        let r128: i128 = radius as i128;
        self.gizmo_hovered = interactable && dx * dx + dy * dy < r128 * r128;
    }

    /// Applies one drag sample to the light. With shift held the
    /// vertical canvas delta lowers or raises the height; otherwise with
    /// control held the vertical screen delta scales the intensity;
    /// otherwise the canvas delta moves the light. One branch only.
    pub fn apply_drag(&mut self, delta_screen: Vec2, zoom: i64, shift: bool, ctrl: bool)
        requires
            old(self).wf(),
            zoom_wf(zoom as int),
            delta_screen.within_spec(2 * COORD_LIMIT as int),
        ensures
            final(self).wf(),
            shift ==> *final(self) == (Light {
                height: final(self).height,
                ..*old(self)
            }) && final(self).height == height_dragged_spec(
                old(self).height as int,
                scale_screen_to_canvas_spec(delta_screen.y as int, zoom as int),
            ),
            !shift && ctrl ==> *final(self) == (Light {
                color: final(self).color,
                ..*old(self)
            }) && final(self).color == (Color {
                c3: final(self).color.c3,
                ..old(self).color
            }) && final(self).color.c3 == intensity_dragged_spec(
                old(self).color.c3 as int,
                delta_screen.y as int,
            ),
            !shift && !ctrl ==> *final(self) == (Light {
                position: final(self).position,
                ..*old(self)
            }) && final(self).position.x == clamp_spec(
                old(self).position.x + scale_screen_to_canvas_spec(
                    delta_screen.x as int,
                    zoom as int,
                ),
                -OFFSET_LIMIT as int,
                OFFSET_LIMIT as int,
            ) && final(self).position.y == clamp_spec(
                old(self).position.y + scale_screen_to_canvas_spec(
                    delta_screen.y as int,
                    zoom as int,
                ),
                -OFFSET_LIMIT as int,
                OFFSET_LIMIT as int,
            ),
    {
        if shift {
            let dy_canvas: i64 = scale_screen_to_canvas(delta_screen.y, zoom);
            self.height = clamp_i64(self.height - dy_canvas, HEIGHT_MIN, HEIGHT_MAX);
        } else if ctrl {
            proof {
                lemma_mul_div_range(
                    self.color.c3 as int,
                    INTENSITY_DRAG_SPAN as int - delta_screen.y as int,
                    INTENSITY_DRAG_SPAN as int,
                    INTENSITY_MAX as int,
                    INTENSITY_DRAG_SPAN as int + 2 * COORD_LIMIT as int,
                    INTENSITY_DRAG_SPAN as int,
                );
            }
            let scaled: i64 = mul_div_floor(
                self.color.c3,
                INTENSITY_DRAG_SPAN - delta_screen.y,
                INTENSITY_DRAG_SPAN,
            );
            self.color = self.color.with_alpha(
                clamp_i64(scaled, INTENSITY_MIN, INTENSITY_MAX),
            );
        } else {
            let dx_canvas: i64 = scale_screen_to_canvas(delta_screen.x, zoom);
            let dy_canvas: i64 = scale_screen_to_canvas(delta_screen.y, zoom);
            self.position = Vec2 {
                x: clamp_i64(self.position.x + dx_canvas, -OFFSET_LIMIT, OFFSET_LIMIT),
                y: clamp_i64(self.position.y + dy_canvas, -OFFSET_LIMIT, OFFSET_LIMIT),
            };
        }
    }

    /// Nudges the light by the camera's canvas-space pan delta scaled by
    /// `height / camera_height - 1`, simulating parallax tied to an
    /// assumed camera height.
    pub fn apply_parallax(&mut self, dp_canvas: Vec2, camera_height: i64)
        requires
            old(self).wf(),
            UNIT <= camera_height <= HEIGHT_MAX,
            dp_canvas.within_spec(2 * COORD_LIMIT as int),
        ensures
            final(self).wf(),
            *final(self) == (Light { position: final(self).position, ..*old(self) }),
            final(self).position.x == clamp_spec(
                old(self).position.x + parallax_nudge_spec(
                    dp_canvas.x as int,
                    old(self).height as int,
                    camera_height as int,
                ),
                -OFFSET_LIMIT as int,
                OFFSET_LIMIT as int,
            ),
            final(self).position.y == clamp_spec(
                old(self).position.y + parallax_nudge_spec(
                    dp_canvas.y as int,
                    old(self).height as int,
                    camera_height as int,
                ),
                -OFFSET_LIMIT as int,
                OFFSET_LIMIT as int,
            ),
    {
        proof {
            lemma_mul_div_range(
                dp_canvas.x as int,
                self.height as int - camera_height as int,
                camera_height as int,
                2 * COORD_LIMIT as int,
                HEIGHT_MAX as int,
                UNIT as int,
            );
            lemma_mul_div_range(
                dp_canvas.y as int,
                self.height as int - camera_height as int,
                camera_height as int,
                2 * COORD_LIMIT as int,
                HEIGHT_MAX as int,
                UNIT as int,
            );
        }
        let nx: i64 = mul_div_floor(dp_canvas.x, self.height - camera_height, camera_height);
        let ny: i64 = mul_div_floor(dp_canvas.y, self.height - camera_height, camera_height);
        self.position = Vec2 {
            x: clamp_i64(self.position.x + nx, -OFFSET_LIMIT, OFFSET_LIMIT),
            y: clamp_i64(self.position.y + ny, -OFFSET_LIMIT, OFFSET_LIMIT),
        };
    }
}

/// The lighting of a scene: its lights (interaction drives the first)
/// and the global illumination scalars.
#[derive(Clone, Debug)]
pub struct LightingInfo {
    pub lights: Vec<Light>,
    pub enable_light_parallax: bool,
    /// Global ambient weight in `[0, 1]`.
    pub global_ambient: i64,
    /// Global diffuse weight in `[0, 1]`.
    pub global_diffuse: i64,
    /// Global specular weight in `[0, 1]`.
    pub global_specular: i64,
}

impl LightingInfo {
    /// At least one light, and every light well-formed.
    pub open spec fn wf(self) -> bool {
        &&& self.lights@.len() >= 1
        &&& forall|i: int| 0 <= i < self.lights@.len() ==> #[trigger] self.lights@[i].wf()
    }
}

} // verus!
