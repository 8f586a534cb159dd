//! Window geometry, aspect-ratio and size-constraint types, with the
//! integer coordinate model the whole library works in.
//!
//! Sizes and positions are `i64` values of screen pixels. `COORD_LIMIT`
//! bounds every size and position the library accepts; it is far above
//! any real screen and exists only so that the arithmetic of the
//! geometry engine provably stays inside `i64`.

use vstd::prelude::*;

verus! {

/// Largest size or absolute position the coordinate model admits.
pub const COORD_LIMIT: i64 = 4294967296;

/// Largest numerator or denominator of an aspect ratio.
pub const RATIO_LIMIT: i64 = 10000;

/// A window placement: size plus top-left position in screen coordinates.
#[derive(Clone, Copy, Debug, PartialEq, Eq, Structural)]
pub struct WindowGeometry {
    pub width: i64,
    pub height: i64,
    pub x: i64,
    pub y: i64,
}

impl WindowGeometry {
    /// The geometry lies inside the coordinate model.
    pub open spec fn wf(self) -> bool {
        &&& 0 <= self.width <= COORD_LIMIT
        &&& 0 <= self.height <= COORD_LIMIT
        &&& -COORD_LIMIT <= self.x <= COORD_LIMIT
        &&& -COORD_LIMIT <= self.y <= COORD_LIMIT
    }
}

/// A width : height ratio, held as the exact fraction `num / den`.
///
/// A ratio of 2 (a window twice as wide as it is tall) is
/// `AspectRatio { num: 2, den: 1 }`.
#[derive(Clone, Copy, Debug, PartialEq, Eq, Structural)]
pub struct AspectRatio {
    pub num: i64,
    pub den: i64,
}

impl AspectRatio {
    /// Both components are positive and bounded.
    pub open spec fn wf(self) -> bool {
        &&& 1 <= self.num <= RATIO_LIMIT
        &&& 1 <= self.den <= RATIO_LIMIT
    }
}

/// Size bounds for the geometry engine. When `aspect_ratio` is set, the
/// height bounds in force are derived from the width bounds through the
/// ratio and override `min_height` / `max_height`.
#[derive(Clone, Copy, Debug, PartialEq, Eq, Structural)]
pub struct Constraints {
    pub min_width: i64,
    pub max_width: i64,
    pub min_height: i64,
    pub max_height: i64,
    pub aspect_ratio: Option<AspectRatio>,
}

/// Floor of `a / b` for a non-negative `a` and positive `b`.
pub open spec fn div_floor(a: int, b: int) -> int {
    a / b
}

/// Ceiling of `a / b` for a non-negative `a` and positive `b`.
pub open spec fn div_ceil(a: int, b: int) -> int {
    (a + b - 1) / b
}

impl Constraints {
    /// Smallest height the engine will produce: with a ratio, the
    /// smallest integer height whose derived width is at least
    /// `min_width`; without one, `min_height` itself.
    pub open spec fn height_lo(self) -> int {
        match self.aspect_ratio {
            Option::None => self.min_height as int,
            Option::Some(r) => div_ceil(self.min_width * r.den, r.num as int),
        }
    }

    /// Largest height the engine will produce: with a ratio, the
    /// largest integer height whose derived width is at most
    /// `max_width`; without one, `max_height` itself.
    pub open spec fn height_hi(self) -> int {
        match self.aspect_ratio {
            Option::None => self.max_height as int,
            Option::Some(r) => div_floor(self.max_width * r.den, r.num as int),
        }
    }

    /// Validity of a constraint set. Callers of the engine must
    /// validate their configuration against this; the engine itself
    /// never checks it.
    pub open spec fn wf(self) -> bool {
        &&& 0 <= self.min_width <= self.max_width <= COORD_LIMIT
        &&& 0 <= self.min_height <= self.max_height <= COORD_LIMIT
        &&& match self.aspect_ratio {
            Option::None => true,
            Option::Some(r) => {
                &&& r.wf()
                &&& self.height_lo() <= self.height_hi()
                &&& self.height_hi() <= COORD_LIMIT
            },
        }
    }
}

impl Default for Constraints {
    /// The stock configuration: both dimensions at least 200 pixels,
    /// unbounded above (within the coordinate model), no ratio.
    fn default() -> (r: Constraints)
        ensures
            r == (Constraints {
                min_width: 200,
                max_width: COORD_LIMIT,
                min_height: 200,
                max_height: COORD_LIMIT,
                aspect_ratio: Option::None,
            }),
            r.wf(),
    {
        Constraints {
            min_width: 200,
            max_width: COORD_LIMIT,
            min_height: 200,
            max_height: COORD_LIMIT,
            aspect_ratio: None,
        }
    }
}

/// What clamping means throughout the library.
pub open spec fn clamp_spec(v: int, lo: int, hi: int) -> int {
    if v < lo {
        lo
    } else if v > hi {
        hi
    } else {
        v
    }
}

/// `v` clamped into `[lo, hi]`.
pub fn clamp_i64(v: i64, lo: i64, hi: i64) -> (r: i64)
    requires
        lo <= hi,
    ensures
        r as int == clamp_spec(v as int, lo as int, hi as int),
        lo <= r <= hi,
{
    if v < lo {
        lo
    } else if v > hi {
        hi
    } else {
        v
    }
}

} // verus!
