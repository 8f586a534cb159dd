//! The resize controller: a state machine over the events the bridge
//! delivers.
//!
//! The controller owns a shadow copy of the window geometry and walks
//! through four states: `Disabled` (input ignored), `Idle` (cursor away
//! from every edge), `Hovering` (an edge zone is armed) and `Dragging`
//! (a drag session is running). A drag session exists exactly while the
//! state is `Dragging`. Each step returns the `Effects` the surrounding
//! platform layer must perform: a cursor icon to set, a geometry to
//! apply (with the matching size-change notification), or a hand-off to
//! the window manager's native resize when no aspect ratio is enforced.
//!
//! Deltas are running: after every processed move the session re-anchors
//! at the latest cursor position and applied geometry, so each move is
//! computed from the one before it, not from the press.

use vstd::prelude::*;
use crate::classifier::{classify_spec, cursor_resize_direction, ResizeDirection};
use crate::cursor_icon::{get_cursor_icon, icon_spec, CursorIcon};
use crate::engine::{compute, compute_spec, lemma_compute_size_in_bounds};
use crate::geometry::{div_floor, Constraints, WindowGeometry, COORD_LIMIT};

verus! {

/// Default thickness of the edge zones, in pixels.
pub const DEFAULT_EDGE_THICKNESS: i64 = 10;

/// The data of a running drag: the grabbed direction, frozen for the
/// whole gesture, and the cursor position and geometry of the last
/// applied step, from which the next delta is measured.
#[derive(Clone, Copy, Debug, PartialEq, Eq, Structural)]
pub struct DragSession {
    pub direction: ResizeDirection,
    pub anchor_x: i64,
    pub anchor_y: i64,
    pub anchor_geometry: WindowGeometry,
}

/// Where the controller stands. A session lives only inside
/// `Dragging`, so an idle session is unrepresentable.
#[derive(Clone, Copy, Debug, PartialEq, Eq, Structural)]
pub enum ControllerState {
    Disabled,
    Idle,
    Hovering(ResizeDirection),
    Dragging(DragSession),
}

/// What one step asks the platform layer to do, in this order: set the
/// cursor icon, apply the geometry and raise the size-change
/// notification `(new, old)`, or hand the gesture to the native
/// window-manager resize.
#[derive(Clone, Copy, Debug, PartialEq, Eq)]
pub struct Effects {
    pub cursor: Option<CursorIcon>,
    pub apply: Option<WindowGeometry>,
    pub size_change: Option<(WindowGeometry, WindowGeometry)>,
    pub native_drag: Option<ResizeDirection>,
}

/// A step that asks nothing of the platform.
pub open spec fn no_effects() -> Effects {
    Effects {
        cursor: Option::None,
        apply: Option::None,
        size_change: Option::None,
        native_drag: Option::None,
    }
}

/// Whether an engine result lies inside the coordinate model; a move
/// whose result does not (conceivable only at astronomic coordinates)
/// is ignored rather than applied.
pub open spec fn result_in_range(t: (int, int, int, int)) -> bool {
    &&& 0 <= t.0 <= COORD_LIMIT
    &&& 0 <= t.1 <= COORD_LIMIT
    &&& -COORD_LIMIT <= t.2 <= COORD_LIMIT
    &&& -COORD_LIMIT <= t.3 <= COORD_LIMIT
}

/// The edge-drag resize controller.
pub struct ResizeController {
    pub state: ControllerState,
    pub constraints: Constraints,
    pub border: i64,
    pub geometry: WindowGeometry,
}

impl ResizeController {
    /// Well-formedness, preserved by every step: valid constraints, a
    /// bounded edge thickness, a geometry inside the coordinate model,
    /// and a drag session anchored at the shadow geometry.
    pub open spec fn wf(self) -> bool {
        &&& self.constraints.wf()
        &&& 0 <= self.border <= COORD_LIMIT
        &&& self.geometry.wf()
        &&& match self.state {
            ControllerState::Dragging(s) => {
                &&& -COORD_LIMIT <= s.anchor_x <= COORD_LIMIT
                &&& -COORD_LIMIT <= s.anchor_y <= COORD_LIMIT
                &&& s.anchor_geometry == self.geometry
            },
            _ => true,
        }
    }

    /// What a move to absolute position `(x, y)` does.
    ///
    /// Away from a drag it reclassifies the hover state against the
    /// shadow geometry and emits the matching cursor icon. During a
    /// drag it is the heart of the subsystem: the delta from the last
    /// anchor runs through the engine, and the result is applied (and
    /// announced) only when it differs from the current geometry.
    /// Hover state is never recomputed mid-drag, and a drag computes
    /// nothing unless an aspect ratio is enforced - without one the
    /// gesture belongs to the native window manager.
    pub open spec fn step_move_spec(self, x: i64, y: i64) -> (ResizeController, Effects) {
        match self.state {
            ControllerState::Disabled => (self, no_effects()),
            ControllerState::Idle | ControllerState::Hovering(_) => {
                let d = classify_spec(
                    self.geometry.width as int,
                    self.geometry.height as int,
                    x - self.geometry.x,
                    y - self.geometry.y,
                    self.border as int,
                );
                let st = match d {
                    Option::Some(dir) => ControllerState::Hovering(dir),
                    Option::None => ControllerState::Idle,
                };
                (
                    ResizeController { state: st, ..self },
                    Effects { cursor: Option::Some(icon_spec(d)), ..no_effects() },
                )
            },
            ControllerState::Dragging(s) => match self.constraints.aspect_ratio {
                Option::None => (self, no_effects()),
                Option::Some(_) => {
                    let dx = x - s.anchor_x;
                    let dy = y - s.anchor_y;
                    if dx == 0 && dy == 0 {
                        (self, no_effects())
                    } else {
                        let t = compute_spec(
                            s.anchor_geometry.width as int,
                            s.anchor_geometry.height as int,
                            s.anchor_geometry.x as int,
                            s.anchor_geometry.y as int,
                            dx,
                            dy,
                            s.direction,
                            self.constraints,
                        );
                        if result_in_range(t) {
                            let ng = WindowGeometry {
                                width: t.0 as i64,
                                height: t.1 as i64,
                                x: t.2 as i64,
                                y: t.3 as i64,
                            };
                            let stepped = ResizeController {
                                state: ControllerState::Dragging(
                                    DragSession {
                                        direction: s.direction,
                                        anchor_x: x,
                                        anchor_y: y,
                                        anchor_geometry: ng,
                                    },
                                ),
                                geometry: ng,
                                ..self
                            };
                            if ng == self.geometry {
                                (stepped, no_effects())
                            } else {
                                (
                                    stepped,
                                    Effects {
                                        apply: Option::Some(ng),
                                        size_change: Option::Some((ng, self.geometry)),
                                        ..no_effects()
                                    },
                                )
                            }
                        } else {
                            (self, no_effects())
                        }
                    }
                },
            },
        }
    }

    /// What a left-button press does. Only an armed (hovering)
    /// direction reacts: without an aspect ratio the gesture is handed
    /// to the native resize; with one, a session is opened anchored at
    /// the freshly queried geometry - and when that query failed
    /// (`None`), the press is dropped and the controller stays
    /// hovering.
    pub open spec fn step_press_spec(self, x: i64, y: i64, queried: Option<WindowGeometry>) -> (
        ResizeController,
        Effects,
    ) {
        match self.state {
            ControllerState::Hovering(d) => match self.constraints.aspect_ratio {
                Option::None => (
                    self,
                    Effects { native_drag: Option::Some(d), ..no_effects() },
                ),
                Option::Some(_) => match queried {
                    Option::Some(g) => (
                        ResizeController {
                            state: ControllerState::Dragging(
                                DragSession {
                                    direction: d,
                                    anchor_x: x,
                                    anchor_y: y,
                                    anchor_geometry: g,
                                },
                            ),
                            geometry: g,
                            ..self
                        },
                        no_effects(),
                    ),
                    Option::None => (self, no_effects()),
                },
            },
            _ => (self, no_effects()),
        }
    }

    /// What a left-button release does: any running session and any
    /// armed direction are cleared, so the next move reclassifies from
    /// scratch. A disabled controller stays disabled.
    pub open spec fn step_release_spec(self) -> (ResizeController, Effects) {
        match self.state {
            ControllerState::Disabled => (self, no_effects()),
            _ => (ResizeController { state: ControllerState::Idle, ..self }, no_effects()),
        }
    }

    /// What the cursor leaving the tracked surface does: it disarms a
    /// hover; a running drag keeps going.
    pub open spec fn step_leave_spec(self) -> (ResizeController, Effects) {
        match self.state {
            ControllerState::Hovering(_) => (
                ResizeController { state: ControllerState::Idle, ..self },
                no_effects(),
            ),
            _ => (self, no_effects()),
        }
    }

    /// What toggling the enable flag does. Disabling always lands in
    /// `Disabled`, abandons any running session without applying a
    /// final geometry, and resets the cursor icon synchronously.
    /// Enabling wakes a disabled controller into `Idle` and is
    /// otherwise a no-op.
    pub open spec fn step_enable_spec(self, on: bool) -> (ResizeController, Effects) {
        if !on {
            (
                ResizeController { state: ControllerState::Disabled, ..self },
                Effects { cursor: Option::Some(CursorIcon::Default), ..no_effects() },
            )
        } else {
            match self.state {
                ControllerState::Disabled => (
                    ResizeController { state: ControllerState::Idle, ..self },
                    no_effects(),
                ),
                _ => (self, no_effects()),
            }
        }
    }

    /// A controller in `Idle`, shadowing `geometry`.
    pub fn new(geometry: WindowGeometry, constraints: Constraints, border: i64) -> (r:
        ResizeController)
        requires
            geometry.wf(),
            constraints.wf(),
            0 <= border <= COORD_LIMIT,
        ensures
            r == (ResizeController {
                state: ControllerState::Idle,
                constraints,
                border,
                geometry,
            }),
            r.wf(),
    {
        ResizeController { state: ControllerState::Idle, constraints, border, geometry }
    }

    /// Feeds an absolute cursor move into the controller.
    pub fn on_move(&mut self, x: i64, y: i64) -> (r: Effects)
        requires
            old(self).wf(),
            -COORD_LIMIT <= x <= COORD_LIMIT,
            -COORD_LIMIT <= y <= COORD_LIMIT,
        ensures
            (*final(self), r) == old(self).step_move_spec(x, y),
            final(self).wf(),
    {
        let none = Effects { cursor: None, apply: None, size_change: None, native_drag: None };
        match self.state {
            ControllerState::Disabled => none,
            ControllerState::Idle | ControllerState::Hovering(_) => {
                let d = cursor_resize_direction(
                    self.geometry.width,
                    self.geometry.height,
                    x - self.geometry.x,
                    y - self.geometry.y,
                    self.border,
                );
                self.state = match d {
                    Some(dir) => ControllerState::Hovering(dir),
                    None => ControllerState::Idle,
                };
                Effects { cursor: Some(get_cursor_icon(d)), ..none }
            },
            ControllerState::Dragging(s) => match self.constraints.aspect_ratio {
                None => none,
                Some(_) => {
                    let dx = x - s.anchor_x;
                    let dy = y - s.anchor_y;
                    if dx == 0 && dy == 0 {
                        none
                    } else {
                        let ng = compute(s.anchor_geometry, dx, dy, s.direction, self.constraints);
                        let in_range = 0 <= ng.width && ng.width <= COORD_LIMIT && 0 <= ng.height
                            && ng.height <= COORD_LIMIT && -COORD_LIMIT <= ng.x && ng.x
                            <= COORD_LIMIT && -COORD_LIMIT <= ng.y && ng.y <= COORD_LIMIT;
                        if in_range {
                            let old_geometry = self.geometry;
                            self.geometry = ng;
                            self.state = ControllerState::Dragging(
                                DragSession {
                                    direction: s.direction,
                                    anchor_x: x,
                                    anchor_y: y,
                                    anchor_geometry: ng,
                                },
                            );
                            if ng == old_geometry {
                                none
                            } else {
                                Effects {
                                    apply: Some(ng),
                                    size_change: Some((ng, old_geometry)),
                                    ..none
                                }
                            }
                        } else {
                            none
                        }
                    }
                },
            },
        }
    }

    /// Feeds a left-button press into the controller. `queried` is the
    /// platform's answer to a geometry query made at press time, or
    /// `None` when the query failed.
    pub fn on_press(&mut self, x: i64, y: i64, queried: Option<WindowGeometry>) -> (r: Effects)
        requires
            old(self).wf(),
            -COORD_LIMIT <= x <= COORD_LIMIT,
            -COORD_LIMIT <= y <= COORD_LIMIT,
            queried matches Some(g) ==> g.wf(),
        ensures
            (*final(self), r) == old(self).step_press_spec(x, y, queried),
            final(self).wf(),
    {
        let none = Effects { cursor: None, apply: None, size_change: None, native_drag: None };
        match self.state {
            ControllerState::Hovering(d) => match self.constraints.aspect_ratio {
                None => Effects { native_drag: Some(d), ..none },
                Some(_) => match queried {
                    Some(g) => {
                        self.geometry = g;
                        self.state = ControllerState::Dragging(
                            DragSession { direction: d, anchor_x: x, anchor_y: y, anchor_geometry: g },
                        );
                        none
                    },
                    None => none,
                },
            },
            _ => none,
        }
    }

    /// Feeds a left-button release into the controller.
    pub fn on_release(&mut self) -> (r: Effects)
        requires
            old(self).wf(),
        ensures
            (*final(self), r) == old(self).step_release_spec(),
            final(self).wf(),
    {
        let none = Effects { cursor: None, apply: None, size_change: None, native_drag: None };
        match self.state {
            ControllerState::Disabled => none,
            _ => {
                self.state = ControllerState::Idle;
                none
            },
        }
    }

    /// Tells the controller the cursor left the tracked surface.
    pub fn on_leave(&mut self) -> (r: Effects)
        requires
            old(self).wf(),
        ensures
            (*final(self), r) == old(self).step_leave_spec(),
            final(self).wf(),
    {
        let none = Effects { cursor: None, apply: None, size_change: None, native_drag: None };
        match self.state {
            ControllerState::Hovering(_) => {
                self.state = ControllerState::Idle;
                none
            },
            _ => none,
        }
    }

    /// Toggles the enable flag.
    pub fn enable(&mut self, on: bool) -> (r: Effects)
        requires
            old(self).wf(),
        ensures
            (*final(self), r) == old(self).step_enable_spec(on),
            final(self).wf(),
    {
        let none = Effects { cursor: None, apply: None, size_change: None, native_drag: None };
        if !on {
            self.state = ControllerState::Disabled;
            Effects { cursor: Some(CursorIcon::Default), ..none }
        } else {
            match self.state {
                ControllerState::Disabled => {
                    self.state = ControllerState::Idle;
                    none
                },
                _ => none,
            }
        }
    }

    /// Replaces the constraints and edge thickness, mid-drag included:
    /// the next computed geometry uses the new configuration.
    pub fn configure(&mut self, constraints: Constraints, border: i64)
        requires
            old(self).wf(),
            constraints.wf(),
            0 <= border <= COORD_LIMIT,
        ensures
            *final(self) == (ResizeController { constraints, border, ..*old(self) }),
            final(self).wf(),
    {
        self.constraints = constraints;
        self.border = border;
    }

    /// Refreshes the shadow geometry from a platform query, so that
    /// hover classification stays honest after the window was moved or
    /// resized by someone else. Ignored during a drag, whose anchors
    /// must not jump.
    pub fn sync_geometry(&mut self, geometry: WindowGeometry)
        requires
            old(self).wf(),
            geometry.wf(),
        ensures
            *final(self) == if old(self).state matches ControllerState::Dragging(_) {
                *old(self)
            } else {
                ResizeController { geometry, ..*old(self) }
            },
            final(self).wf(),
    {
        match self.state {
            ControllerState::Dragging(_) => {},
            _ => {
                self.geometry = geometry;
            },
        }
    }
}

/// Law: while disabled, every kind of input leaves the controller and
/// the platform untouched.
pub proof fn lemma_disabled_ignores_input(
    c: ResizeController,
    x: i64,
    y: i64,
    queried: Option<WindowGeometry>,
)
    requires
        c.state is Disabled,
    ensures
        c.step_move_spec(x, y) == (c, no_effects()),
        c.step_press_spec(x, y, queried) == (c, no_effects()),
        c.step_release_spec() == (c, no_effects()),
        c.step_leave_spec() == (c, no_effects()),
{
}

/// Law: disabling - from any state, mid-drag included - lands in
/// `Disabled`, discards any session, resets the cursor icon, and
/// neither applies a geometry nor raises a size change.
pub proof fn lemma_disable_abandons_gesture(c: ResizeController)
    ensures
        ({
            let (after, eff) = c.step_enable_spec(false);
            &&& after.state is Disabled
            &&& eff.cursor == Option::Some(CursorIcon::Default)
            &&& eff.apply is None
            &&& eff.size_change is None
            &&& eff.native_drag is None
        }),
{
}

/// Law: a drag never rebinds its direction; hover classification is
/// frozen while dragging.
pub proof fn lemma_drag_direction_frozen(c: ResizeController, s: DragSession, x: i64, y: i64)
    requires
        c.state == ControllerState::Dragging(s),
    ensures
        ({
            let (after, eff) = c.step_move_spec(x, y);
            match after.state {
                ControllerState::Dragging(s2) => s2.direction == s.direction,
                _ => false,
            }
        }),
{
}

/// Law: whatever geometry a move step applies respects the size
/// constraints - width inside `[min_width, max_width]`, height inside
/// the working height bounds, one dimension derived from the other
/// under an aspect ratio - and a size change is raised exactly when a
/// geometry is applied, always a genuine change of the shadow copy.
pub proof fn lemma_applied_geometry_in_bounds(c: ResizeController, x: i64, y: i64)
    requires
        c.wf(),
    ensures
        ({
            let (after, eff) = c.step_move_spec(x, y);
            &&& (eff.apply is Some <==> eff.size_change is Some)
            &&& match eff.apply {
                Option::None => true,
                Option::Some(g) => {
                    &&& eff.size_change == Option::Some((g, c.geometry))
                    &&& g != c.geometry
                    &&& after.geometry == g
                    &&& c.constraints.min_width <= g.width <= c.constraints.max_width
                    &&& match c.constraints.aspect_ratio {
                        Option::None => c.constraints.min_height <= g.height
                            <= c.constraints.max_height,
                        Option::Some(r) => {
                            &&& div_floor(c.constraints.min_width * r.den, r.num as int)
                                <= g.height <= c.constraints.height_hi()
                            &&& (g.height == div_floor(g.width * r.den, r.num as int) || g.width
                                == div_floor(g.height * r.num, r.den as int))
                        },
                    }
                },
            }
        }),
{
    match c.state {
        ControllerState::Dragging(s) => match c.constraints.aspect_ratio {
            Option::None => {},
            Option::Some(_) => {
                let dx = x - s.anchor_x;
                let dy = y - s.anchor_y;
                if !(dx == 0 && dy == 0) {
                    lemma_compute_size_in_bounds(
                        s.anchor_geometry.width as int,
                        s.anchor_geometry.height as int,
                        s.anchor_geometry.x as int,
                        s.anchor_geometry.y as int,
                        dx,
                        dy,
                        s.direction,
                        c.constraints,
                    );
                }
            },
        },
        _ => {},
    }
}

} // verus!
