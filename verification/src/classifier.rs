//! Classification of a cursor position into a resize direction.
//!
//! The window is split into an X classification (West strip, East
//! strip, interior) and a Y classification (North strip, South strip,
//! interior) of thickness `border`; the two combine into one of eight
//! directions, or into none when the cursor is in the interior of both
//! axes. West wins over East and North over South when a border thicker
//! than half the window makes both strips cover a point; no further
//! tie-breaking is done.

use vstd::prelude::*;
use crate::geometry::COORD_LIMIT;

verus! {

/// One of the eight window edges or corners a drag can grab.
#[derive(Clone, Copy, Debug, PartialEq, Eq, Structural)]
pub enum ResizeDirection {
    North,
    South,
    East,
    West,
    NorthEast,
    NorthWest,
    SouthEast,
    SouthWest,
}

/// The direction assigned to a cursor at `(x, y)` in a window of size
/// `width` by `height` (cursor coordinates relative to the window's
/// top-left corner) with an edge strip of thickness `border`.
pub open spec fn classify_spec(
    width: int,
    height: int,
    x: int,
    y: int,
    border: int,
) -> Option<ResizeDirection> {
    let west = x < border;
    let east = !west && x > width - border;
    let north = y < border;
    let south = !north && y > height - border;
    if west {
        if north {
            Option::Some(ResizeDirection::NorthWest)
        } else if south {
            Option::Some(ResizeDirection::SouthWest)
        } else {
            Option::Some(ResizeDirection::West)
        }
    } else if east {
        if north {
            Option::Some(ResizeDirection::NorthEast)
        } else if south {
            Option::Some(ResizeDirection::SouthEast)
        } else {
            Option::Some(ResizeDirection::East)
        }
    } else {
        if north {
            Option::Some(ResizeDirection::North)
        } else if south {
            Option::Some(ResizeDirection::South)
        } else {
            Option::None
        }
    }
}

/// Maps a cursor position, window size and edge thickness to the resize
/// direction the cursor signals, or `None` away from every edge.
pub fn cursor_resize_direction(
    width: i64,
    height: i64,
    x: i64,
    y: i64,
    border: i64,
) -> (r: Option<ResizeDirection>)
    requires
        0 <= width <= COORD_LIMIT,
        0 <= height <= COORD_LIMIT,
        0 <= border <= COORD_LIMIT,
        -3 * COORD_LIMIT <= x <= 3 * COORD_LIMIT,
        -3 * COORD_LIMIT <= y <= 3 * COORD_LIMIT,
    ensures
        r == classify_spec(width as int, height as int, x as int, y as int, border as int),
{
    let west = x < border;
    let east = !west && x > width - border;
    let north = y < border;
    let south = !north && y > height - border;
    if west {
        if north {
            Some(ResizeDirection::NorthWest)
        } else if south {
            Some(ResizeDirection::SouthWest)
        } else {
            Some(ResizeDirection::West)
        }
    } else if east {
        if north {
            Some(ResizeDirection::NorthEast)
        } else if south {
            Some(ResizeDirection::SouthEast)
        } else {
            Some(ResizeDirection::East)
        }
    } else {
        if north {
            Some(ResizeDirection::North)
        } else if south {
            Some(ResizeDirection::South)
        } else {
            None
        }
    }
}

/// Law: strictly inside the frame left by the edge strips, no direction
/// is signalled.
pub proof fn lemma_interior_classifies_none(width: int, height: int, x: int, y: int, border: int)
    requires
        border < x < width - border,
        border < y < height - border,
    ensures
        classify_spec(width, height, x, y, border) is None,
{
}

/// Law: left of the West strip's inner edge, with the cursor vertically
/// clear of both horizontal strips, the classification is exactly West.
pub proof fn lemma_west_strip(width: int, height: int, x: int, y: int, border: int)
    requires
        x < border,
        border <= y <= height - border,
    ensures
        classify_spec(width, height, x, y, border) == Option::Some(ResizeDirection::West),
{
}

/// Law: the East counterpart of `lemma_west_strip`.
pub proof fn lemma_east_strip(width: int, height: int, x: int, y: int, border: int)
    requires
        x > width - border,
        border <= x,
        border <= y <= height - border,
    ensures
        classify_spec(width, height, x, y, border) == Option::Some(ResizeDirection::East),
{
}

/// Law: above the North strip's inner edge, with the cursor
/// horizontally clear of both vertical strips, the classification is
/// exactly North.
pub proof fn lemma_north_strip(width: int, height: int, x: int, y: int, border: int)
    requires
        y < border,
        border <= x <= width - border,
    ensures
        classify_spec(width, height, x, y, border) == Option::Some(ResizeDirection::North),
{
}

/// Law: the South counterpart of `lemma_north_strip`.
pub proof fn lemma_south_strip(width: int, height: int, x: int, y: int, border: int)
    requires
        y > height - border,
        border <= y,
        border <= x <= width - border,
    ensures
        classify_spec(width, height, x, y, border) == Option::Some(ResizeDirection::South),
{
}

} // verus!
