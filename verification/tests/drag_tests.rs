use pixelsmith::drag::DragState;
use pixelsmith::geom::Vec2;
use pixelsmith::input::MouseButton;

// Activating without a starting position makes the first update report
// a zero delta; the next update reports the true difference.
#[test]
fn first_sample_reports_zero_delta() {
    let mut drag: DragState<MouseButton> = DragState::new();
    drag.activate(MouseButton::Right, None);
    let d1 = drag.update(Vec2 { x: 500, y: -700 }).unwrap();
    assert_eq!((d1.x, d1.y), (0, 0));
    let d2 = drag.update(Vec2 { x: 900, y: -100 }).unwrap();
    assert_eq!((d2.x, d2.y), (400, 600));
}

#[test]
fn activation_with_start_reports_delta_at_once() {
    let mut drag: DragState<MouseButton> = DragState::new();
    drag.activate(MouseButton::Left, Some(Vec2 { x: 10, y: 20 }));
    let d = drag.update(Vec2 { x: 25, y: 15 }).unwrap();
    assert_eq!((d.x, d.y), (15, -5));
}

#[test]
fn update_on_inactive_drag_is_refused() {
    let mut drag: DragState<MouseButton> = DragState::new();
    assert_eq!(drag.update(Vec2 { x: 1, y: 1 }), Err(()));
    assert!(!drag.active());
}

#[test]
fn activate_returns_previous_binding() {
    let mut drag: DragState<MouseButton> = DragState::new();
    assert_eq!(drag.activate(MouseButton::Left, None), None);
    assert_eq!(
        drag.activate(MouseButton::Right, None),
        Some(MouseButton::Left)
    );
    assert!(drag.active());
    assert_eq!(*drag.state(), Some(MouseButton::Right));
}

#[test]
fn deactivate_clears_and_returns_binding() {
    let mut drag: DragState<MouseButton> = DragState::new();
    drag.activate(MouseButton::Left, Some(Vec2 { x: 3, y: 4 }));
    assert_eq!(drag.deactivate(), Some(MouseButton::Left));
    assert!(!drag.active());
    assert_eq!(drag.deactivate(), None);
    // After a deactivation the next activation starts fresh: no stale
    // position survives into the first sample.
    drag.activate(MouseButton::Left, None);
    let d = drag.update(Vec2 { x: 1_000_000, y: 0 }).unwrap();
    assert_eq!((d.x, d.y), (0, 0));
}
