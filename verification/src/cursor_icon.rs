//! Mapping from a resize direction to the platform cursor icon that
//! advertises it.

use vstd::prelude::*;
use crate::classifier::ResizeDirection;

verus! {

/// The cursor shapes the controller asks the platform to show. The
/// window system resolves each identifier to its native cursor.
#[derive(Clone, Copy, Debug, PartialEq, Eq, Structural)]
pub enum CursorIcon {
    Default,
    NResize,
    SResize,
    EResize,
    WResize,
    NeResize,
    NwResize,
    SeResize,
    SwResize,
}

/// The icon shown for a hover state: the matching resize arrow while a
/// direction is active, the default arrow otherwise.
pub open spec fn icon_spec(direction: Option<ResizeDirection>) -> CursorIcon {
    match direction {
        Option::None => CursorIcon::Default,
        Option::Some(d) => match d {
            ResizeDirection::North => CursorIcon::NResize,
            ResizeDirection::South => CursorIcon::SResize,
            ResizeDirection::East => CursorIcon::EResize,
            ResizeDirection::West => CursorIcon::WResize,
            ResizeDirection::NorthEast => CursorIcon::NeResize,
            ResizeDirection::NorthWest => CursorIcon::NwResize,
            ResizeDirection::SouthEast => CursorIcon::SeResize,
            ResizeDirection::SouthWest => CursorIcon::SwResize,
        },
    }
}

/// Maps a hover state to the cursor icon to show for it.
pub fn get_cursor_icon(direction: Option<ResizeDirection>) -> (r: CursorIcon)
    ensures
        r == icon_spec(direction),
{
    match direction {
        None => CursorIcon::Default,
        Some(d) => match d {
            ResizeDirection::North => CursorIcon::NResize,
            ResizeDirection::South => CursorIcon::SResize,
            ResizeDirection::East => CursorIcon::EResize,
            ResizeDirection::West => CursorIcon::WResize,
            ResizeDirection::NorthEast => CursorIcon::NeResize,
            ResizeDirection::NorthWest => CursorIcon::NwResize,
            ResizeDirection::SouthEast => CursorIcon::SeResize,
            ResizeDirection::SouthWest => CursorIcon::SwResize,
        },
    }
}

} // verus!
