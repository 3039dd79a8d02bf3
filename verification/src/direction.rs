//! Classification of a 2D orientation vector into one of eight facing
//! directions, used to select a directional sprite animation.

use vstd::prelude::*;

verus! {

/// The eight facing directions an entity can look toward.
///
/// ```text
/// \|/
/// -O-
/// /|\
/// ```
#[derive(Clone, Copy, Debug, PartialEq, Eq, Structural)]
pub enum Direction {
    Bottom,
    BottomLeft,
    Left,
    TopLeft,
    Top,
    TopRight,
    Right,
    BottomRight,
}

/// An orientation vector with components in thousandths of a unit.
/// Callers normalize before classifying, so a meaningful look direction
/// has components in `-1000 ..= 1000`; classification itself is total.
#[derive(Clone, Copy, Debug, PartialEq, Eq, Structural)]
pub struct Orientation {
    pub x: i32,
    pub y: i32,
}

impl Orientation {
    /// A normalized look direction: each component within one unit.
    pub open spec fn wf(self) -> bool {
        &&& -1000 <= self.x <= 1000
        &&& -1000 <= self.y <= 1000
    }
}

/// A component at or beyond this magnitude (0.85 of a unit) snaps the
/// direction to the nearest axis rather than a diagonal.
pub const ANGLE_THRESHOLD: i32 = 850;

/// The direction a vector points toward.  The vertical component is
/// tested before the horizontal one, and `y > 0` against `y <= 0` is the
/// first branch; this order shapes the exact boundaries of the diagonal
/// sectors.  The zero vector falls through every test to `BottomLeft`.
pub open spec fn spec_direction_of(x: int, y: int) -> Direction {
    if y > 0 {
        if y >= ANGLE_THRESHOLD {
            Direction::Top
        } else if x >= ANGLE_THRESHOLD {
            Direction::Right
        } else if x <= -ANGLE_THRESHOLD {
            Direction::Left
        } else if x > 0 {
            Direction::TopRight
        } else {
            Direction::TopLeft
        }
    } else {
        if y <= -ANGLE_THRESHOLD {
            Direction::Bottom
        } else if x >= ANGLE_THRESHOLD {
            Direction::Right
        } else if x <= -ANGLE_THRESHOLD {
            Direction::Left
        } else if x > 0 {
            Direction::BottomRight
        } else {
            Direction::BottomLeft
        }
    }
}

/// Calculates the direction a given vector points to.
pub fn direction_of_vector(v: Orientation) -> (d: Direction)
    ensures
        d == spec_direction_of(v.x as int, v.y as int),
{
    if v.y > 0 {
        if v.y >= ANGLE_THRESHOLD {
            Direction::Top
        } else if v.x >= ANGLE_THRESHOLD {
            Direction::Right
        } else if v.x <= -ANGLE_THRESHOLD {
            Direction::Left
        } else if v.x > 0 {
            Direction::TopRight
        } else {
            Direction::TopLeft
        }
    } else {
        if v.y <= -ANGLE_THRESHOLD {
            Direction::Bottom
        } else if v.x >= ANGLE_THRESHOLD {
            Direction::Right
        } else if v.x <= -ANGLE_THRESHOLD {
            Direction::Left
        } else if v.x > 0 {
            Direction::BottomRight
        } else {
            Direction::BottomLeft
        }
    }
}

/// Every vector is classified into exactly one sector, and the sector is
/// determined by the documented threshold comparisons alone: the eight
/// cases below cover the whole plane and each pins the classifier to a
/// single direction.
pub proof fn lemma_direction_sectors(x: int, y: int)
    ensures
        y >= ANGLE_THRESHOLD ==> spec_direction_of(x, y) == Direction::Top,
        y <= -ANGLE_THRESHOLD ==> spec_direction_of(x, y) == Direction::Bottom,
        -ANGLE_THRESHOLD < y < ANGLE_THRESHOLD && x >= ANGLE_THRESHOLD ==> spec_direction_of(
            x,
            y,
        ) == Direction::Right,
        -ANGLE_THRESHOLD < y < ANGLE_THRESHOLD && x <= -ANGLE_THRESHOLD ==> spec_direction_of(
            x,
            y,
        ) == Direction::Left,
        0 < y < ANGLE_THRESHOLD && 0 < x < ANGLE_THRESHOLD ==> spec_direction_of(x, y)
            == Direction::TopRight,
        0 < y < ANGLE_THRESHOLD && -ANGLE_THRESHOLD < x <= 0 ==> spec_direction_of(x, y)
            == Direction::TopLeft,
        -ANGLE_THRESHOLD < y <= 0 && 0 < x < ANGLE_THRESHOLD ==> spec_direction_of(x, y)
            == Direction::BottomRight,
        -ANGLE_THRESHOLD < y <= 0 && -ANGLE_THRESHOLD < x <= 0 ==> spec_direction_of(x, y)
            == Direction::BottomLeft,
{
}

} // verus!
