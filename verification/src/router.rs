//! Routing one input event stream across several viewports.
//!
//! Pointer-down events are offered to the viewports in slot order; the
//! first viewport that reports itself hovered claims the event and
//! becomes the selected view, and the press is not offered further, so
//! no second viewport can activate a drag from the same press.
//! Viewports ahead of the claimer (necessarily not hovered) release
//! their drags, as a press outside a view always does. All other events
//! are delivered to every viewport in order; they claim nothing.

use vstd::prelude::*;
use crate::geom::Extent2;
use crate::input::{InputEvent, IoState, ElementState, MouseButton, TouchPhase, VirtualKey};
use crate::coord::COORD_LIMIT;
use crate::drag::DragState;
use crate::lights::Light;
use crate::registry::TextureRegistry;
use crate::scene::Scene;
use crate::viewport::{Viewport, cursor_camera_next_ok, zoom_stepped_spec, zoom_offset_spec};

verus! {

/// Every filled slot holds a well-formed viewport.
pub open spec fn slots_wf(slots: Seq<Option<Viewport>>) -> bool {
    forall|j: int| 0 <= j < slots.len() ==> (#[trigger] slots[j] matches Some(vp) ==> vp.wf())
}

/// Whether an event is one a hovered viewport claims: a press of the
/// left or right pointer button.
pub open spec fn claimable_spec(event: InputEvent) -> bool {
    event matches InputEvent::MouseInput { state, button } && state == ElementState::Pressed && (
    button == MouseButton::Left || button == MouseButton::Right)
}

/// The first filled slot at or after `i` whose viewport is hovered.
pub open spec fn first_hovered_from(slots: Seq<Option<Viewport>>, i: int) -> Option<int>
    decreases slots.len() - i,
{
    if i < 0 || i >= slots.len() {
        None
    } else if slots[i] matches Some(vp) && vp.is_hovered {
        Some(i)
    } else {
        first_hovered_from(slots, i + 1)
    }
}

/// The drag state carried by a possibly-filled slot.
pub open spec fn slot_drag(slot: Option<Viewport>) -> Option<
    crate::drag::DragState<MouseButton>,
> {
    match slot {
        Some(vp) => Some(vp.drag_state),
        None => None,
    }
}

/// How many of the first `upto` slots are filled.
pub open spec fn some_count(slots: Seq<Option<Viewport>>, upto: int) -> int
    decreases upto,
{
    if upto <= 0 {
        0
    } else {
        some_count(slots, upto - 1) + (if slots[upto - 1] is Some {
            1int
        } else {
            0int
        })
    }
}

/// How a scroll event leaves one viewport: a hovered view zooms about
/// the cursor by the policy; any other view is untouched.
pub open spec fn wheel_slot_ok(
    pre: Viewport,
    post: Viewport,
    io: IoState,
    delta_y: i64,
    phase: TouchPhase,
) -> bool {
    let acted = pre.is_hovered && phase == TouchPhase::Moved && delta_y != 0;
    &&& (acted ==> post == (Viewport { offset: post.offset, zoom: post.zoom, ..pre })
        && post.zoom == zoom_stepped_spec(pre.zoom as int, delta_y > 0, io.key_shift, io.key_ctrl)
        && post.offset.x == zoom_offset_spec(
        pre.offset.x as int,
        io.mouse_pos.x as int - pre.bounds.x as int,
        pre.zoom as int,
        post.zoom as int,
    ) && post.offset.y == zoom_offset_spec(
        pre.offset.y as int,
        io.mouse_pos.y as int - pre.bounds.y as int,
        pre.zoom as int,
        post.zoom as int,
    ))
    &&& (!acted ==> post == pre)
}

/// How a pointer-button event that claims nothing leaves one viewport:
/// a press over a hovered view (of a button that starts no drag) is
/// ignored; a press elsewhere or a release lets go of the view's drag.
pub open spec fn unclaimed_press_slot_ok(
    pre: Viewport,
    post: Viewport,
    state: ElementState,
    button: MouseButton,
) -> bool {
    let over = state == ElementState::Pressed && pre.is_hovered;
    &&& (over ==> post == pre)
    &&& (!over ==> post == (Viewport {
        drag_state: DragState { state: None, prev_pos: None },
        ..pre
    }))
}

/// Distributes one event over the viewport slots, in order. The result
/// is whether some viewport consumed the event (so the GUI should not
/// see it) and which slot claimed it, if any. Hover exclusivity: a
/// claimable press is claimed by the first hovered viewport — a right
/// press starts that viewport's camera drag, a left press the shared
/// light's — and by no other; every other viewport ends the press with
/// its drag either untouched or released, never newly activated.
///
/// A claimed press is deliberately not delivered past the claimer:
/// delivering it further would also release the light drag the claimer
/// just took. So a drag still active in a later slot outlives another
/// viewport's claimed press; it ends with its own button release,
/// which every slot receives.
pub fn route_event(
    viewports: &mut Vec<Option<Viewport>>,
    io: &IoState,
    event: &InputEvent,
    scene: &mut Scene,
) -> (res: (bool, Option<usize>))
    requires
        slots_wf(old(viewports)@),
        old(scene).wf(),
        io.mouse_pos.within_spec(COORD_LIMIT as int),
        event matches InputEvent::CursorMoved { position } ==> position.within_spec(
            COORD_LIMIT as int,
        ),
    ensures
        final(viewports)@.len() == old(viewports)@.len(),
        slots_wf(final(viewports)@),
        final(scene).wf(),
        forall|j: int|
            0 <= j < old(viewports)@.len() ==> ((#[trigger] final(viewports)@[j]) is Some
                <==> old(viewports)@[j] is Some),
        res.0 == (res.1 is Some),
        res.1 matches Some(f) ==> claimable_spec(*event) && first_hovered_from(
            old(viewports)@,
            0,
        ) == Some(f as int),
        (first_hovered_from(old(viewports)@, 0) matches Some(f) ==> (claimable_spec(*event)
            ==> res.1 == Some(f as usize))),
        res.1 is None ==> forall|j: int|
            0 <= j < old(viewports)@.len() ==> ((#[trigger] old(viewports)@[j]) matches Some(vp)
                ==> !(claimable_spec(*event) && vp.is_hovered)),
        claimable_spec(*event) ==> forall|j: int|
            0 <= j < old(viewports)@.len() && res.1 != Some(j as usize) ==> ((
            #[trigger] final(viewports)@[j]) matches Some(vp) ==> (Some(vp.drag_state)
                == slot_drag(old(viewports)@[j]) || vp.drag_state.state is None)),
        (event matches InputEvent::CursorMoved { position } ==> forall|j: int|
            0 <= j < old(viewports)@.len() ==> ((#[trigger] old(viewports)@[j]) matches Some(vp)
                ==> (final(viewports)@[j] matches Some(vp2) && cursor_camera_next_ok(
                vp,
                vp2,
                *position,
            )))),
        (event matches InputEvent::MouseWheel { delta_y, phase } ==> forall|j: int|
            0 <= j < old(viewports)@.len() ==> ((#[trigger] old(viewports)@[j]) matches Some(vp)
                ==> (final(viewports)@[j] matches Some(vp2) && wheel_slot_ok(
                vp,
                vp2,
                *io,
                *delta_y,
                *phase,
            )))),
        (event matches InputEvent::MouseInput { state, button } ==> (!claimable_spec(*event)
            ==> forall|j: int|
            0 <= j < old(viewports)@.len() ==> ((#[trigger] old(viewports)@[j]) matches Some(vp)
                ==> (final(viewports)@[j] matches Some(vp2) && unclaimed_press_slot_ok(
                vp,
                vp2,
                *state,
                *button,
            ))))),
        (event matches InputEvent::KeyboardInput { key, state } ==> (forall|j: int|
            0 <= j < old(viewports)@.len() ==> #[trigger] final(viewports)@[j] == old(
                viewports,
            )@[j]) && final(scene).lighting.enable_light_parallax == (if key == VirtualKey::P
            && state == ElementState::Pressed && some_count(
            old(viewports)@,
            old(viewports)@.len() as int,
        ) % 2 == 1 {
            !old(scene).lighting.enable_light_parallax
        } else {
            old(scene).lighting.enable_light_parallax
        })),
        (event matches InputEvent::MouseInput { state, button } ==> ({
            let pre_light = old(scene).lighting.lights@[0];
            let post_light = final(scene).lighting.lights@[0];
            &&& post_light == (Light { drag_state: post_light.drag_state, ..pre_light })
            &&& (res.1 is Some && button == MouseButton::Left ==> (pre_light.gizmo_hovered
                ==> post_light.drag_state == (DragState {
                state: Some(MouseButton::Left),
                prev_pos: Some(io.mouse_pos),
            })) && (!pre_light.gizmo_hovered ==> post_light.drag_state == pre_light.drag_state
                || post_light.drag_state.state is None))
        })),
        (event matches InputEvent::MouseInput { state, button } ==> (res.1 matches Some(f) ==> ({
            let pre = old(viewports)@[f as int];
            let post = final(viewports)@[f as int];
            &&& (button == MouseButton::Right ==> (pre matches Some(vp) && post matches Some(vp2)
                && vp2 == (Viewport {
                drag_state: vp.drag_state.activate_next(MouseButton::Right, Some(io.mouse_pos)),
                ..vp
            })))
            &&& (button == MouseButton::Left ==> post == pre)
        }))),
{
    let n: usize = viewports.len();
    let mut i: usize = 0;
    let mut consumed: bool = false;
    let mut selected: Option<usize> = None;
    while i < n
        invariant
            slots_wf(old(viewports)@),
            old(scene).wf(),
            io.mouse_pos.within_spec(COORD_LIMIT as int),
            (event matches InputEvent::CursorMoved { position } ==> position.within_spec(
                COORD_LIMIT as int,
            )),
            n == old(viewports)@.len(),
            viewports@.len() == n,
            0 <= i <= n,
            slots_wf(viewports@),
            scene.wf(),
            forall|j: int|
                0 <= j < n ==> ((#[trigger] viewports@[j]) is Some <==> old(viewports)@[j]
                    is Some),
            forall|j: int| i <= j < n ==> #[trigger] viewports@[j] == old(viewports)@[j],
            consumed == (selected is Some),
            selected matches Some(f) ==> f < i && claimable_spec(*event) && first_hovered_from(
                old(viewports)@,
                0,
            ) == Some(f as int),
            !consumed && claimable_spec(*event) ==> first_hovered_from(old(viewports)@, 0)
                == first_hovered_from(old(viewports)@, i as int),
            !consumed && claimable_spec(*event) ==> forall|j: int|
                0 <= j < i ==> ((#[trigger] old(viewports)@[j]) matches Some(vp)
                    ==> !vp.is_hovered),
            claimable_spec(*event) ==> forall|j: int|
                0 <= j < n && selected != Some(j as usize) ==> ((
                #[trigger] viewports@[j]) matches Some(vp) ==> (Some(vp.drag_state)
                    == slot_drag(old(viewports)@[j]) || vp.drag_state.state is None)),
            (event matches InputEvent::CursorMoved { position } ==> forall|j: int|
                0 <= j < i ==> ((#[trigger] old(viewports)@[j]) matches Some(vp)
                    ==> (viewports@[j] matches Some(vp2) && cursor_camera_next_ok(
                    vp,
                    vp2,
                    *position,
                )))),
            (event matches InputEvent::MouseWheel { delta_y, phase } ==> forall|j: int|
                0 <= j < i ==> ((#[trigger] old(viewports)@[j]) matches Some(vp)
                    ==> (viewports@[j] matches Some(vp2) && wheel_slot_ok(
                    vp,
                    vp2,
                    *io,
                    *delta_y,
                    *phase,
                )))),
            (event matches InputEvent::MouseInput { state, button } ==> (!claimable_spec(*event)
                ==> forall|j: int|
                0 <= j < i ==> ((#[trigger] old(viewports)@[j]) matches Some(vp)
                    ==> (viewports@[j] matches Some(vp2) && unclaimed_press_slot_ok(
                    vp,
                    vp2,
                    *state,
                    *button,
                ))))),
            (event matches InputEvent::KeyboardInput { key, state } ==> (forall|j: int|
                0 <= j < i ==> #[trigger] viewports@[j] == old(viewports)@[j])
                && scene.lighting.enable_light_parallax == (if key == VirtualKey::P && state
                == ElementState::Pressed && some_count(old(viewports)@, i as int) % 2 == 1 {
                !old(scene).lighting.enable_light_parallax
            } else {
                old(scene).lighting.enable_light_parallax
            })),
            (event matches InputEvent::MouseInput { state, button } ==> ({
                let pre_light = old(scene).lighting.lights@[0];
                let cur_light = scene.lighting.lights@[0];
                &&& cur_light == (Light { drag_state: cur_light.drag_state, ..pre_light })
                &&& (selected is Some && button == MouseButton::Left ==> (pre_light.gizmo_hovered
                    ==> cur_light.drag_state == (DragState {
                    state: Some(MouseButton::Left),
                    prev_pos: Some(io.mouse_pos),
                })) && (!pre_light.gizmo_hovered ==> cur_light.drag_state
                    == pre_light.drag_state || cur_light.drag_state.state is None))
                &&& (selected is None ==> cur_light.drag_state == pre_light.drag_state
                    || cur_light.drag_state.state is None)
            })),
            (event matches InputEvent::MouseInput { state, button } ==> (selected matches Some(f)
                ==> ({
                let pre = old(viewports)@[f as int];
                let post = viewports@[f as int];
                &&& (button == MouseButton::Right ==> (pre matches Some(vp) && post matches Some(
                    vp2,
                ) && vp2 == (Viewport {
                    drag_state: vp.drag_state.activate_next(
                        MouseButton::Right,
                        Some(io.mouse_pos),
                    ),
                    ..vp
                })))
                &&& (button == MouseButton::Left ==> post == pre)
            }))),
        decreases n - i,
    {
        let ghost pre_slots = viewports@;
        if !consumed {
            let slot = &mut viewports[i];
            match slot {
                Some(vp) => {
                    let r: bool = vp.handle_event(io, event, scene, true);
                    if r {
                        consumed = true;
                        selected = Some(i);
                    }
                },
                None => {},
            }
            proof {
                assert(viewports@ == pre_slots.update(i as int, viewports@[i as int]));
            }
        }
        i = i + 1;
    }
    (consumed, selected)
}

/// Closes the viewport in a slot, if any: its render target is released
/// from the registry, the slot is emptied, and the selection is cleared
/// if it pointed there.
pub fn close_viewport(
    viewports: &mut Vec<Option<Viewport>>,
    num: usize,
    selected: &mut Option<usize>,
    registry: &mut TextureRegistry,
)
    requires
        num < old(viewports)@.len(),
        slots_wf(old(viewports)@),
        old(registry).wf(),
    ensures
        final(viewports)@.len() == old(viewports)@.len(),
        slots_wf(final(viewports)@),
        final(registry).wf(),
        final(viewports)@[num as int] is None,
        forall|j: int|
            0 <= j < old(viewports)@.len() && j != num
                ==> #[trigger] final(viewports)@[j] == old(viewports)@[j],
        old(viewports)@[num as int] matches Some(vp) ==> !final(registry).contains_key(vp.rt_key),
        *final(selected) == (if *old(selected) == Some(num) {
            None
        } else {
            *old(selected)
        }),
    {
    let ghost pre_slots = viewports@;
    let slot = &mut viewports[num];
    match slot {
        Some(vp) => {
            vp.close(registry);
        },
        None => {},
    }
    proof {
        assert(viewports@ == pre_slots.update(num as int, viewports@[num as int]));
    }
    let ghost mid_slots = viewports@;
    viewports.set(num, None);
    proof {
        assert(viewports@ == mid_slots.update(num as int, None));
    }
    let clear: bool = match *selected {
        Some(s) => s == num,
        None => false,
    };
    if clear {
        *selected = None;
    }
}

/// Fills a slot with a fresh viewport if it is empty, and selects it
/// either way.
pub fn create_viewport(
    viewports: &mut Vec<Option<Viewport>>,
    num: usize,
    selected: &mut Option<usize>,
    registry: &mut TextureRegistry,
)
    requires
        num < old(viewports)@.len(),
        slots_wf(old(viewports)@),
        old(registry).wf(),
        old(registry).next_key_spec() < 0xffff_ffff_ffff_fffe,
        old(registry).next_bg_key_spec() < usize::MAX,
    ensures
        final(viewports)@.len() == old(viewports)@.len(),
        slots_wf(final(viewports)@),
        final(registry).wf(),
        final(viewports)@[num as int] is Some,
        old(viewports)@[num as int] is Some ==> final(viewports)@[num as int] == old(
            viewports,
        )@[num as int],
        forall|j: int|
            0 <= j < old(viewports)@.len() && j != num
                ==> #[trigger] final(viewports)@[j] == old(viewports)@[j],
        *final(selected) == Some(num),
{
    let ghost pre_slots = viewports@;
    let empty: bool = viewports[num].is_none();
    if empty {
        let vp = Viewport::create(Extent2 { w: 400, h: 400 }, registry);
        viewports.set(num, Some(vp));
        proof {
            assert(viewports@ == pre_slots.update(num as int, viewports@[num as int]));
        }
    }
    *selected = Some(num);
}

} // verus!
