use edge_resize::classifier::ResizeDirection;
use edge_resize::controller::{ControllerState, ResizeController};
use edge_resize::cursor_icon::CursorIcon;
use edge_resize::geometry::{AspectRatio, Constraints, WindowGeometry};

fn square_constraints() -> Constraints {
    Constraints {
        min_width: 100,
        max_width: 1000,
        min_height: 100,
        max_height: 1000,
        aspect_ratio: Some(AspectRatio { num: 1, den: 1 }),
    }
}

fn no_ratio_constraints() -> Constraints {
    Constraints {
        min_width: 100,
        max_width: 1000,
        min_height: 100,
        max_height: 1000,
        aspect_ratio: None,
    }
}

fn start_geometry() -> WindowGeometry {
    WindowGeometry { width: 300, height: 300, x: 100, y: 100 }
}

#[test]
fn hover_and_icon_on_move() {
    let mut c = ResizeController::new(start_geometry(), square_constraints(), 10);
    // Cursor at the left edge of the window: x = 105 is 5 px into it.
    let eff = c.on_move(105, 250);
    assert!(matches!(c.state, ControllerState::Hovering(ResizeDirection::West)));
    assert_eq!(eff.cursor, Some(CursorIcon::WResize));
    assert!(eff.apply.is_none() && eff.size_change.is_none() && eff.native_drag.is_none());
    // Cursor in the middle: hover cleared, default arrow restored.
    let eff = c.on_move(250, 250);
    assert!(matches!(c.state, ControllerState::Idle));
    assert_eq!(eff.cursor, Some(CursorIcon::Default));
}

#[test]
fn press_drag_session_scenario() {
    // Press at (5, 5) grabbing NorthWest with anchor geometry
    // {300, 300, 100, 100}; moving to (0, 0) grows both dimensions by
    // 5 and shifts the position by -5.
    let mut c = ResizeController::new(start_geometry(), square_constraints(), 10);
    c.on_move(5, 5);
    assert!(matches!(c.state, ControllerState::Hovering(ResizeDirection::NorthWest)));
    c.on_press(5, 5, Some(start_geometry()));
    assert!(matches!(c.state, ControllerState::Dragging(_)));
    let eff = c.on_move(0, 0);
    let expected = WindowGeometry { width: 305, height: 305, x: 95, y: 95 };
    assert_eq!(eff.apply, Some(expected));
    assert_eq!(eff.size_change, Some((expected, start_geometry())));
    assert_eq!(c.geometry, expected);
}

#[test]
fn drag_uses_running_deltas() {
    let mut c = ResizeController::new(start_geometry(), square_constraints(), 10);
    c.on_move(5, 5);
    c.on_press(5, 5, Some(start_geometry()));
    c.on_move(0, 0);
    // The session re-anchored at (0, 0): the next move is measured
    // from there, not from the press.
    let eff = c.on_move(-3, 2);
    let expected = WindowGeometry { width: 308, height: 303, x: 92, y: 97 };
    // Corner drag under ratio 1:1 re-derives the height from the width.
    let expected = WindowGeometry { height: 308, ..expected };
    assert_eq!(eff.apply, Some(expected));
    assert_eq!(c.geometry, expected);
}

#[test]
fn zero_delta_move_is_a_no_op() {
    let mut c = ResizeController::new(start_geometry(), square_constraints(), 10);
    c.on_move(5, 5);
    c.on_press(5, 5, Some(start_geometry()));
    let eff = c.on_move(5, 5);
    assert!(eff.apply.is_none() && eff.size_change.is_none());
    assert_eq!(c.geometry, start_geometry());
}

#[test]
fn press_without_ratio_hands_off_to_native_resize() {
    let mut c = ResizeController::new(start_geometry(), no_ratio_constraints(), 10);
    c.on_move(105, 250);
    assert!(matches!(c.state, ControllerState::Hovering(ResizeDirection::West)));
    let eff = c.on_press(105, 250, Some(start_geometry()));
    assert_eq!(eff.native_drag, Some(ResizeDirection::West));
    // No session: the native window manager owns the gesture.
    assert!(matches!(c.state, ControllerState::Hovering(ResizeDirection::West)));
    // Moves during a native gesture compute nothing.
    let eff = c.on_move(90, 250);
    assert!(eff.apply.is_none() && eff.size_change.is_none());
}

#[test]
fn failed_geometry_query_aborts_the_press() {
    let mut c = ResizeController::new(start_geometry(), square_constraints(), 10);
    c.on_move(105, 250);
    let eff = c.on_press(105, 250, None);
    assert!(matches!(c.state, ControllerState::Hovering(ResizeDirection::West)));
    assert!(eff.apply.is_none() && eff.native_drag.is_none());
}

#[test]
fn release_clears_session_and_hover() {
    let mut c = ResizeController::new(start_geometry(), square_constraints(), 10);
    c.on_move(5, 5);
    c.on_press(5, 5, Some(start_geometry()));
    c.on_move(0, 0);
    c.on_release();
    assert!(matches!(c.state, ControllerState::Idle));
}

#[test]
fn disable_mid_drag_abandons_gesture() {
    let mut c = ResizeController::new(start_geometry(), square_constraints(), 10);
    c.on_move(5, 5);
    c.on_press(5, 5, Some(start_geometry()));
    assert!(matches!(c.state, ControllerState::Dragging(_)));
    let eff = c.enable(false);
    assert!(matches!(c.state, ControllerState::Disabled));
    assert_eq!(eff.cursor, Some(CursorIcon::Default));
    assert!(eff.apply.is_none() && eff.size_change.is_none());
    // Further input is ignored: no size change fires for the gesture.
    let eff = c.on_move(50, 50);
    assert!(eff.cursor.is_none() && eff.apply.is_none() && eff.size_change.is_none());
    let eff = c.on_press(50, 50, Some(start_geometry()));
    assert!(eff.native_drag.is_none());
    assert!(matches!(c.state, ControllerState::Disabled));
    // Re-enabling wakes the controller into Idle.
    c.enable(true);
    assert!(matches!(c.state, ControllerState::Idle));
}

#[test]
fn leave_disarms_hover_but_not_drag() {
    let mut c = ResizeController::new(start_geometry(), square_constraints(), 10);
    c.on_move(105, 250);
    c.on_leave();
    assert!(matches!(c.state, ControllerState::Idle));
    c.on_move(5, 5);
    c.on_press(5, 5, Some(start_geometry()));
    c.on_leave();
    assert!(matches!(c.state, ControllerState::Dragging(_)));
}

#[test]
fn configure_changes_the_edge_thickness() {
    let mut c = ResizeController::new(start_geometry(), square_constraints(), 10);
    // 25 px into the window: no edge with a 10 px border...
    c.on_move(125, 250);
    assert!(matches!(c.state, ControllerState::Idle));
    // ...but within a 30 px border.
    c.configure(square_constraints(), 30);
    c.on_move(125, 250);
    assert!(matches!(c.state, ControllerState::Hovering(ResizeDirection::West)));
}

#[test]
fn sync_geometry_updates_shadow_unless_dragging() {
    let mut c = ResizeController::new(start_geometry(), square_constraints(), 10);
    let moved = WindowGeometry { width: 300, height: 300, x: 500, y: 500 };
    c.sync_geometry(moved);
    assert_eq!(c.geometry, moved);
    c.on_move(505, 650);
    assert!(matches!(c.state, ControllerState::Hovering(ResizeDirection::West)));
    c.on_press(505, 650, Some(moved));
    c.sync_geometry(start_geometry());
    assert_eq!(c.geometry, moved);
}
