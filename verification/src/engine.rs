//! The geometry engine: applies a drag delta to a window geometry for a
//! given resize direction, then enforces the size constraints.
//!
//! The computation has three stages. First the delta widens or narrows
//! the dimensions the direction drags, shifting the position where a
//! North or West edge moves so the opposite edge stays fixed. Then
//! width is clamped into `[min_width, max_width]` and height into the
//! working height bounds, which an aspect ratio derives from the width
//! bounds (overriding the explicit height bounds). Last, under an
//! aspect ratio, one dimension is recomputed from the other: from the
//! width for corner drags and whenever the width changed, else from the
//! height, so the dimension under the cursor stays authoritative.

use vstd::prelude::*;
use vstd::arithmetic::div_mod::{
    lemma_div_by_multiple, lemma_div_is_ordered, lemma_fundamental_div_mod,
};
use vstd::arithmetic::mul::lemma_mul_inequality;
use crate::classifier::ResizeDirection;
use crate::geometry::{
    clamp_i64, clamp_spec, div_ceil, div_floor, AspectRatio, Constraints, WindowGeometry,
    COORD_LIMIT, RATIO_LIMIT,
};

verus! {

/// Directions that drag the top edge (moving it shifts `y`).
pub open spec fn affects_north(d: ResizeDirection) -> bool {
    d == ResizeDirection::North || d == ResizeDirection::NorthEast || d
        == ResizeDirection::NorthWest
}

/// Directions that drag the bottom edge.
pub open spec fn affects_south(d: ResizeDirection) -> bool {
    d == ResizeDirection::South || d == ResizeDirection::SouthEast || d
        == ResizeDirection::SouthWest
}

/// Directions that drag the left edge (moving it shifts `x`).
pub open spec fn affects_west(d: ResizeDirection) -> bool {
    d == ResizeDirection::West || d == ResizeDirection::NorthWest || d
        == ResizeDirection::SouthWest
}

/// Directions that drag the right edge.
pub open spec fn affects_east(d: ResizeDirection) -> bool {
    d == ResizeDirection::East || d == ResizeDirection::NorthEast || d
        == ResizeDirection::SouthEast
}

/// The four corner directions.
pub open spec fn is_corner(d: ResizeDirection) -> bool {
    d == ResizeDirection::NorthEast || d == ResizeDirection::NorthWest || d
        == ResizeDirection::SouthEast || d == ResizeDirection::SouthWest
}

/// The whole computation of the engine, over unbounded integers:
/// the geometry that dragging `(dx, dy)` in direction `d` turns
/// `(w, h, x, y)` into under the constraints `c`, as the tuple
/// `(width, height, x, y)`.
pub open spec fn compute_spec(
    w: int,
    h: int,
    x: int,
    y: int,
    dx: int,
    dy: int,
    d: ResizeDirection,
    c: Constraints,
) -> (int, int, int, int) {
    let w1 = if affects_west(d) {
        w - dx
    } else if affects_east(d) {
        w + dx
    } else {
        w
    };
    let h1 = if affects_north(d) {
        h - dy
    } else if affects_south(d) {
        h + dy
    } else {
        h
    };
    let x1 = if affects_west(d) {
        x + dx
    } else {
        x
    };
    let y1 = if affects_north(d) {
        y + dy
    } else {
        y
    };
    let w2 = clamp_spec(w1, c.min_width as int, c.max_width as int);
    let h2 = clamp_spec(h1, c.height_lo(), c.height_hi());
    match c.aspect_ratio {
        Option::None => (w2, h2, x1, y1),
        Option::Some(r) => if is_corner(d) || w2 != w {
            (w2, div_floor(w2 * r.den, r.num as int), x1, y1)
        } else {
            (div_floor(h2 * r.num, r.den as int), h2, x1, y1)
        },
    }
}

/// Applies the drag delta `(dx, dy)` in direction `direction` to
/// `current` and returns the resulting geometry, constrained by `c`.
pub fn compute(
    current: WindowGeometry,
    dx: i64,
    dy: i64,
    direction: ResizeDirection,
    c: Constraints,
) -> (r: WindowGeometry)
    requires
        current.wf(),
        c.wf(),
        -2 * COORD_LIMIT <= dx <= 2 * COORD_LIMIT,
        -2 * COORD_LIMIT <= dy <= 2 * COORD_LIMIT,
    ensures
        (r.width as int, r.height as int, r.x as int, r.y as int) == compute_spec(
            current.width as int,
            current.height as int,
            current.x as int,
            current.y as int,
            dx as int,
            dy as int,
            direction,
            c,
        ),
        -3 * COORD_LIMIT <= r.x <= 3 * COORD_LIMIT,
        -3 * COORD_LIMIT <= r.y <= 3 * COORD_LIMIT,
        0 <= r.width <= COORD_LIMIT,
        0 <= r.height <= COORD_LIMIT,
{
    proof {
        lemma_compute_size_in_bounds(
            current.width as int,
            current.height as int,
            current.x as int,
            current.y as int,
            dx as int,
            dy as int,
            direction,
            c,
        );
    }
    let west = matches!(
        direction,
        ResizeDirection::West | ResizeDirection::NorthWest | ResizeDirection::SouthWest
    );
    let east = matches!(
        direction,
        ResizeDirection::East | ResizeDirection::NorthEast | ResizeDirection::SouthEast
    );
    let north = matches!(
        direction,
        ResizeDirection::North | ResizeDirection::NorthEast | ResizeDirection::NorthWest
    );
    let south = matches!(
        direction,
        ResizeDirection::South | ResizeDirection::SouthEast | ResizeDirection::SouthWest
    );
    let corner = matches!(
        direction,
        ResizeDirection::NorthEast | ResizeDirection::NorthWest | ResizeDirection::SouthEast
            | ResizeDirection::SouthWest
    );
    let w1: i64 = if west {
        current.width - dx
    } else if east {
        current.width + dx
    } else {
        current.width
    };
    let h1: i64 = if north {
        current.height - dy
    } else if south {
        current.height + dy
    } else {
        current.height
    };
    let x1: i64 = if west {
        current.x + dx
    } else {
        current.x
    };
    let y1: i64 = if north {
        current.y + dy
    } else {
        current.y
    };
    let hlo: i64;
    let hhi: i64;
    match c.aspect_ratio {
        None => {
            hlo = c.min_height;
            hhi = c.max_height;
        },
        Some(r) => {
            proof {
                lemma_size_ratio_product_bounds(c.min_width as int, r.den as int);
                lemma_size_ratio_product_bounds(c.max_width as int, r.den as int);
                lemma_div_in_range(c.min_width * r.den + r.num - 1, r.num as int);
                lemma_div_in_range(c.max_width * r.den, r.num as int);
            }
            hlo = (c.min_width * r.den + r.num - 1) / r.num;
            hhi = (c.max_width * r.den) / r.num;
        },
    }
    let w2 = clamp_i64(w1, c.min_width, c.max_width);
    let h2 = clamp_i64(h1, hlo, hhi);
    match c.aspect_ratio {
        None => WindowGeometry { width: w2, height: h2, x: x1, y: y1 },
        Some(r) => {
            proof {
                lemma_size_ratio_product_bounds(w2 as int, r.den as int);
                lemma_size_ratio_product_bounds(h2 as int, r.num as int);
                lemma_div_in_range(w2 * r.den, r.num as int);
                lemma_div_in_range(h2 * r.num, r.den as int);
            }
            if corner || w2 != current.width {
                WindowGeometry { width: w2, height: (w2 * r.den) / r.num, x: x1, y: y1 }
            } else {
                WindowGeometry { width: (h2 * r.num) / r.den, height: h2, x: x1, y: y1 }
            }
        },
    }
}

/// The one product the engine forms is a bounded size times a bounded
/// ratio component; it stays far inside `i64`.
proof fn lemma_size_ratio_product_bounds(a: int, b: int)
    requires
        0 <= a <= COORD_LIMIT,
        1 <= b <= RATIO_LIMIT,
    ensures
        0 <= a * b <= COORD_LIMIT * RATIO_LIMIT,
        a <= a * b,
{
    assert(0 <= a * b <= COORD_LIMIT * RATIO_LIMIT && a <= a * b) by (nonlinear_arith)
        requires
            0 <= a <= COORD_LIMIT,
            1 <= b <= RATIO_LIMIT,
    ;
}

/// Quotients of non-negative numerators stay between zero and the
/// numerator, so every quotient the engine stores fits `i64`.
proof fn lemma_div_in_range(a: int, n: int)
    requires
        0 <= a,
        0 < n,
    ensures
        0 <= a / n <= a,
{
    vstd::arithmetic::div_mod::lemma_div_pos_is_pos(a, n);
    vstd::arithmetic::div_mod::lemma_div_nonincreasing(a, n);
}

/// For a non-negative `a` and positive `n`: `div_ceil(a, n)` is the
/// least integer at or above the exact quotient, so multiplying it
/// back by `n` reaches at least `a`.
proof fn lemma_ceil_times_divisor_ge(a: int, n: int)
    requires
        0 <= a,
        0 < n,
    ensures
        0 <= div_ceil(a, n),
        div_ceil(a, n) * n >= a,
{
    lemma_fundamental_div_mod(a + n - 1, n);
    let q = (a + n - 1) / n;
    let rem = (a + n - 1) % n;
    assert(a + n - 1 == n * q + rem);
    assert(0 <= rem < n) by {
        vstd::arithmetic::div_mod::lemma_remainder_lower(a + n - 1, n);
        vstd::arithmetic::div_mod::lemma_remainder_upper(a + n - 1, n);
    }
    assert(n * q == a + n - 1 - rem);
    assert(n * q >= a);
    assert(q * n == n * q) by {
        vstd::arithmetic::mul::lemma_mul_is_commutative(q, n);
    }
    assert(q >= 0) by {
        vstd::arithmetic::div_mod::lemma_div_pos_is_pos(a + n - 1, n);
    }
}

/// For a non-negative `a` and positive `n`: the floored quotient
/// multiplied back by `n` stays at or below `a`.
proof fn lemma_floor_times_divisor_le(a: int, n: int)
    requires
        0 <= a,
        0 < n,
    ensures
        0 <= div_floor(a, n),
        div_floor(a, n) * n <= a,
{
    lemma_fundamental_div_mod(a, n);
    let q = a / n;
    let rem = a % n;
    assert(0 <= rem < n) by {
        vstd::arithmetic::div_mod::lemma_remainder_lower(a, n);
        vstd::arithmetic::div_mod::lemma_remainder_upper(a, n);
    }
    assert(n * q == a - rem);
    assert(q * n == n * q) by {
        vstd::arithmetic::mul::lemma_mul_is_commutative(q, n);
    }
    assert(q >= 0) by {
        vstd::arithmetic::div_mod::lemma_div_pos_is_pos(a, n);
    }
}

/// A height inside the working height bounds derives, through the
/// ratio, a width inside the width bounds. This is what makes the
/// ceiling in `Constraints::height_lo` the right rounding.
proof fn lemma_derived_width_in_bounds(h: int, r: AspectRatio, c: Constraints)
    requires
        c.wf(),
        c.aspect_ratio == Option::Some(r),
        c.height_lo() <= h <= c.height_hi(),
    ensures
        c.min_width <= div_floor(h * r.num, r.den as int) <= c.max_width,
{
    let num = r.num as int;
    let den = r.den as int;
    // Lower bound: h >= ceil(min_width * den / num) forces
    // h * num >= min_width * den.
    lemma_ceil_times_divisor_ge(c.min_width * den, num);
    let lo = div_ceil(c.min_width * den, num);
    lemma_mul_inequality(lo, h, num);
    assert(h * num >= c.min_width * den);
    lemma_div_is_ordered(c.min_width * den, h * num, den);
    lemma_div_by_multiple(c.min_width as int, den);
    assert(div_floor(h * num, den) >= c.min_width);
    // Upper bound: h <= floor(max_width * den / num) forces
    // h * num <= max_width * den.
    lemma_floor_times_divisor_le(c.max_width * den, num);
    let hi = div_floor(c.max_width * den, num);
    lemma_mul_inequality(h, hi, num);
    assert(h * num <= c.max_width * den);
    lemma_div_is_ordered(h * num, c.max_width * den, den);
    lemma_div_by_multiple(c.max_width as int, den);
    assert(div_floor(h * num, den) <= c.max_width);
}

/// A width inside the width bounds derives, through the ratio, a
/// height between `div_floor(min_width * den, num)` and the working
/// upper height bound.
proof fn lemma_derived_height_in_bounds(w: int, r: AspectRatio, c: Constraints)
    requires
        c.wf(),
        c.aspect_ratio == Option::Some(r),
        c.min_width <= w <= c.max_width,
    ensures
        div_floor(c.min_width * r.den, r.num as int) <= div_floor(w * r.den, r.num as int)
            <= c.height_hi(),
{
    let num = r.num as int;
    let den = r.den as int;
    lemma_mul_inequality(c.min_width as int, w, den);
    lemma_div_is_ordered(c.min_width * den, w * den, num);
    lemma_mul_inequality(w, c.max_width as int, den);
    lemma_div_is_ordered(w * den, c.max_width * den, num);
}

/// Law: whatever geometry and delta the engine is given, the width of
/// its result lies in `[min_width, max_width]` and the height in the
/// working height bounds (under a ratio, at least
/// `div_floor(min_width * den, num)` and at most `height_hi`); and
/// under a ratio one dimension is exactly the other's derived value.
pub proof fn lemma_compute_size_in_bounds(
    w: int,
    h: int,
    x: int,
    y: int,
    dx: int,
    dy: int,
    d: ResizeDirection,
    c: Constraints,
)
    requires
        c.wf(),
    ensures
        ({
            let t = compute_spec(w, h, x, y, dx, dy, d, c);
            &&& c.min_width <= t.0 <= c.max_width
            &&& match c.aspect_ratio {
                Option::None => c.min_height <= t.1 <= c.max_height,
                Option::Some(r) => {
                    &&& div_floor(c.min_width * r.den, r.num as int) <= t.1 <= c.height_hi()
                    &&& (t.1 == div_floor(t.0 * r.den, r.num as int) || t.0 == div_floor(
                        t.1 * r.num,
                        r.den as int,
                    ))
                },
            }
        }),
{
    let t = compute_spec(w, h, x, y, dx, dy, d, c);
    match c.aspect_ratio {
        Option::None => {},
        Option::Some(r) => {
            let w1 = if affects_west(d) {
                w - dx
            } else if affects_east(d) {
                w + dx
            } else {
                w
            };
            let h1 = if affects_north(d) {
                h - dy
            } else if affects_south(d) {
                h + dy
            } else {
                h
            };
            let w2 = clamp_spec(w1, c.min_width as int, c.max_width as int);
            let h2 = clamp_spec(h1, c.height_lo(), c.height_hi());
            if is_corner(d) || w2 != w {
                lemma_derived_height_in_bounds(w2, r, c);
            } else {
                lemma_derived_width_in_bounds(h2, r, c);
                // The produced height h2 sits above the ceiling bound,
                // hence above the floored one as well.
                lemma_div_is_ordered(
                    c.min_width * r.den,
                    c.min_width * r.den + r.num - 1,
                    r.num as int,
                );
            }
        },
    }
}

/// Law: the engine does not drift. A second application with a zero
/// delta reproduces the first one's output exactly. For an edge drag
/// under an aspect ratio this holds when the starting width already
/// respects the width bounds (an out-of-bounds width is first snapped
/// by the clamp, which counts as a width change).
pub proof fn lemma_zero_delta_idempotent(
    w: int,
    h: int,
    x: int,
    y: int,
    d: ResizeDirection,
    c: Constraints,
)
    requires
        c.wf(),
        c.aspect_ratio is Some && !is_corner(d) ==> c.min_width <= w <= c.max_width,
    ensures
        ({
            let t = compute_spec(w, h, x, y, 0, 0, d, c);
            compute_spec(t.0, t.1, t.2, t.3, 0, 0, d, c) == t
        }),
{
    let t = compute_spec(w, h, x, y, 0, 0, d, c);
    match c.aspect_ratio {
        Option::None => {},
        Option::Some(r) => {
            let num = r.num as int;
            let den = r.den as int;
            let w2 = clamp_spec(w, c.min_width as int, c.max_width as int);
            let h2 = clamp_spec(h, c.height_lo(), c.height_hi());
            if is_corner(d) {
                // Height is recomputed from the clamped width both
                // times; the clamped width is already a fixpoint.
                lemma_derived_height_in_bounds(w2, r, c);
            } else {
                // Width unchanged, so the first application derives the
                // width from the clamped height; that width lies in
                // bounds, so the second application repeats the same
                // derivation from the same height.
                lemma_derived_width_in_bounds(h2, r, c);
            }
        },
    }
}

} // verus!
