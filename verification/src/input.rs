//! Input events and per-frame pointer state, as plain values.
//!
//! The windowing collaborator delivers richer event types; the host
//! narrows them to these before handing them to the library, so every
//! decision taken on them is verified.

use vstd::prelude::*;
use crate::geom::Vec2;

verus! {

/// A pointer button.
#[derive(Clone, Copy, PartialEq, Eq, Structural, Debug)]
pub enum MouseButton {
    Left,
    Right,
    Middle,
    Other(u16),
}

/// Whether a button or key went down or up.
#[derive(Clone, Copy, PartialEq, Eq, Structural, Debug)]
pub enum ElementState {
    Pressed,
    Released,
}

/// The phase of a scroll gesture.
#[derive(Clone, Copy, PartialEq, Eq, Structural, Debug)]
pub enum TouchPhase {
    Started,
    Moved,
    Ended,
    Cancelled,
}

/// The keys this library reacts to; everything else arrives as `Other`.
#[derive(Clone, Copy, PartialEq, Eq, Structural, Debug)]
pub enum VirtualKey {
    P,
    Other,
}

/// One input event, with positions and scroll amounts in micro-units.
#[derive(Clone, Copy, PartialEq, Eq, Structural, Debug)]
pub enum InputEvent {
    MouseInput { state: ElementState, button: MouseButton },
    CursorMoved { position: Vec2 },
    MouseWheel { delta_y: i64, phase: TouchPhase },
    KeyboardInput { key: VirtualKey, state: ElementState },
}

/// The per-frame pointer state the GUI reports alongside each event.
#[derive(Clone, Copy, PartialEq, Eq, Structural, Debug)]
pub struct IoState {
    /// The pointer position, GUI-global, in micro-units.
    pub mouse_pos: Vec2,
    /// Whether a shift key is held.
    pub key_shift: bool,
    /// Whether a control key is held.
    pub key_ctrl: bool,
}

} // verus!
