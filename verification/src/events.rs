//! The raw mouse events the subsystem consumes, and the filter that
//! decides which events the OS hook forwards at all.

use vstd::prelude::*;

verus! {

/// A mouse button as reported by the OS hook.
#[derive(Clone, Copy, Debug, PartialEq, Eq, Structural)]
pub enum MouseButton {
    Left,
    Middle,
    Right,
}

/// A raw event from the platform mouse hook: an absolute cursor
/// position in screen coordinates, or a button edge.
#[derive(Clone, Copy, Debug, PartialEq, Eq, Structural)]
pub enum RawMouseEvent {
    Move(i64, i64),
    Press(MouseButton),
    Release(MouseButton),
}

/// Whether the hook forwards an event downstream: absolute moves and
/// left-button edges only.
pub open spec fn forwarded_spec(e: RawMouseEvent) -> bool {
    match e {
        RawMouseEvent::Move(_, _) => true,
        RawMouseEvent::Press(b) => b == MouseButton::Left,
        RawMouseEvent::Release(b) => b == MouseButton::Left,
    }
}

/// Decides whether the hook callback forwards `e` into the pipeline.
pub fn hook_forwards(e: &RawMouseEvent) -> (r: bool)
    ensures
        r == forwarded_spec(*e),
{
    match e {
        RawMouseEvent::Move(_, _) => true,
        RawMouseEvent::Press(b) => *b == MouseButton::Left,
        RawMouseEvent::Release(b) => *b == MouseButton::Left,
    }
}

} // verus!
