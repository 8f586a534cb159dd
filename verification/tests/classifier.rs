use edge_resize::classifier::{cursor_resize_direction, ResizeDirection};

const W: i64 = 200;
const H: i64 = 200;
const B: i64 = 10;

#[test]
fn interior_is_none() {
    assert_eq!(cursor_resize_direction(W, H, 100, 100, B), None);
    assert_eq!(cursor_resize_direction(W, H, 11, 11, B), None);
    assert_eq!(cursor_resize_direction(W, H, 189, 189, B), None);
}

#[test]
fn west_band() {
    assert_eq!(cursor_resize_direction(W, H, 5, 100, B), Some(ResizeDirection::West));
    assert_eq!(cursor_resize_direction(W, H, 0, 10, B), Some(ResizeDirection::West));
    assert_eq!(cursor_resize_direction(W, H, 9, 190, B), Some(ResizeDirection::West));
}

#[test]
fn east_band() {
    assert_eq!(cursor_resize_direction(W, H, 195, 100, B), Some(ResizeDirection::East));
    assert_eq!(cursor_resize_direction(W, H, 191, 10, B), Some(ResizeDirection::East));
    assert_eq!(cursor_resize_direction(W, H, 200, 190, B), Some(ResizeDirection::East));
}

#[test]
fn north_band() {
    assert_eq!(cursor_resize_direction(W, H, 100, 5, B), Some(ResizeDirection::North));
    assert_eq!(cursor_resize_direction(W, H, 10, 0, B), Some(ResizeDirection::North));
    assert_eq!(cursor_resize_direction(W, H, 190, 9, B), Some(ResizeDirection::North));
}

#[test]
fn south_band() {
    assert_eq!(cursor_resize_direction(W, H, 100, 195, B), Some(ResizeDirection::South));
    assert_eq!(cursor_resize_direction(W, H, 10, 191, B), Some(ResizeDirection::South));
    assert_eq!(cursor_resize_direction(W, H, 190, 200, B), Some(ResizeDirection::South));
}

#[test]
fn four_corners() {
    assert_eq!(cursor_resize_direction(W, H, 5, 5, B), Some(ResizeDirection::NorthWest));
    assert_eq!(cursor_resize_direction(W, H, 195, 5, B), Some(ResizeDirection::NorthEast));
    assert_eq!(cursor_resize_direction(W, H, 5, 195, B), Some(ResizeDirection::SouthWest));
    assert_eq!(cursor_resize_direction(W, H, 195, 195, B), Some(ResizeDirection::SouthEast));
}

#[test]
fn band_boundaries_are_interior() {
    // x == border is already outside the West strip; x == width - border
    // is still outside the East strip (strictly greater wins).
    assert_eq!(cursor_resize_direction(W, H, 10, 100, B), None);
    assert_eq!(cursor_resize_direction(W, H, 190, 100, B), None);
    assert_eq!(cursor_resize_direction(W, H, 100, 10, B), None);
    assert_eq!(cursor_resize_direction(W, H, 100, 190, B), None);
}

#[test]
fn cursor_outside_window_still_classifies() {
    // Negative relative coordinates fall in the West/North strips.
    assert_eq!(cursor_resize_direction(W, H, -95, -95, B), Some(ResizeDirection::NorthWest));
    assert_eq!(cursor_resize_direction(W, H, -5, 100, B), Some(ResizeDirection::West));
}

#[test]
fn oversized_border_prefers_west_and_north() {
    // A border thicker than half the window makes the strips overlap;
    // West and North win by check order, by design.
    assert_eq!(cursor_resize_direction(10, 200, 5, 100, 10), Some(ResizeDirection::West));
    assert_eq!(cursor_resize_direction(200, 10, 100, 5, 10), Some(ResizeDirection::North));
}
