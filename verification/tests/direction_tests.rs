use arena_combat::direction::{direction_of_vector, Direction, Orientation, ANGLE_THRESHOLD};

fn classify(x: i32, y: i32) -> Direction {
    direction_of_vector(Orientation { x, y })
}

#[test]
fn axis_sectors_at_threshold() {
    // Exactly at the 0.85 threshold the axis sector wins.
    assert_eq!(classify(0, ANGLE_THRESHOLD), Direction::Top);
    assert_eq!(classify(0, -ANGLE_THRESHOLD), Direction::Bottom);
    assert_eq!(classify(ANGLE_THRESHOLD, 0), Direction::Right);
    assert_eq!(classify(-ANGLE_THRESHOLD, 0), Direction::Left);
}

#[test]
fn axis_sectors_above_threshold() {
    assert_eq!(classify(100, 1000), Direction::Top);
    assert_eq!(classify(-100, -1000), Direction::Bottom);
    assert_eq!(classify(1000, 100), Direction::Right);
    assert_eq!(classify(-1000, -100), Direction::Left);
}

#[test]
fn diagonal_sectors_below_threshold() {
    assert_eq!(classify(500, 500), Direction::TopRight);
    assert_eq!(classify(-500, 500), Direction::TopLeft);
    assert_eq!(classify(500, -500), Direction::BottomRight);
    assert_eq!(classify(-500, -500), Direction::BottomLeft);
}

#[test]
fn diagonals_exactly_at_threshold() {
    // At (±t, ±t) the vertical test runs first, so the vertical sector
    // wins over the horizontal one.
    assert_eq!(classify(ANGLE_THRESHOLD, ANGLE_THRESHOLD), Direction::Top);
    assert_eq!(classify(-ANGLE_THRESHOLD, ANGLE_THRESHOLD), Direction::Top);
    assert_eq!(classify(ANGLE_THRESHOLD, -ANGLE_THRESHOLD), Direction::Bottom);
    assert_eq!(classify(-ANGLE_THRESHOLD, -ANGLE_THRESHOLD), Direction::Bottom);
}

#[test]
fn vertical_axis_checked_before_horizontal() {
    // Just below the vertical threshold with a horizontal component at
    // the threshold: the horizontal sector wins.
    assert_eq!(classify(ANGLE_THRESHOLD, ANGLE_THRESHOLD - 1), Direction::Right);
    assert_eq!(classify(-ANGLE_THRESHOLD, ANGLE_THRESHOLD - 1), Direction::Left);
    assert_eq!(classify(ANGLE_THRESHOLD, -(ANGLE_THRESHOLD - 1)), Direction::Right);
    assert_eq!(classify(-ANGLE_THRESHOLD, -(ANGLE_THRESHOLD - 1)), Direction::Left);
}

#[test]
fn boundary_between_vertical_halves() {
    // y == 0 belongs to the lower half.
    assert_eq!(classify(500, 0), Direction::BottomRight);
    assert_eq!(classify(-500, 0), Direction::BottomLeft);
    // x == 0 in a diagonal band belongs to the left.
    assert_eq!(classify(0, 500), Direction::TopLeft);
    assert_eq!(classify(0, -500), Direction::BottomLeft);
}

#[test]
fn zero_vector_falls_through_to_bottom_left() {
    assert_eq!(classify(0, 0), Direction::BottomLeft);
}
