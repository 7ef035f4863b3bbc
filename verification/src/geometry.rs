//! Axis-aligned squares on the integer plane, and the clamp of a coordinate
//! to a range.

use vstd::prelude::*;

verus! {

/// Whether two axis-aligned squares overlap. Each square is given by its
/// centre and the length of its side. Squares that only touch at an edge or a
/// corner do not overlap. The comparison is made on doubled coordinates, so
/// that half a side needs no fraction.
pub open spec fn squares_overlap(
    ax: int,
    ay: int,
    a_side: int,
    bx: int,
    by: int,
    b_side: int,
) -> bool {
    &&& 2 * ax - a_side < 2 * bx + b_side
    &&& 2 * ax + a_side > 2 * bx - b_side
    &&& 2 * ay - a_side < 2 * by + b_side
    &&& 2 * ay + a_side > 2 * by - b_side
}

/// Tests two axis-aligned squares, each given by its centre and side, for overlap.
pub fn collide(ax: i32, ay: i32, a_side: u16, bx: i32, by: i32, b_side: u16) -> (hit: bool)
    ensures
        hit == squares_overlap(ax as int, ay as int, a_side as int, bx as int, by as int, b_side as int),
{
    let ax2: i64 = 2 * (ax as i64);
    let ay2: i64 = 2 * (ay as i64);
    let bx2: i64 = 2 * (bx as i64);
    let by2: i64 = 2 * (by as i64);
    let a: i64 = a_side as i64;
    let b: i64 = b_side as i64;
    ax2 - a < bx2 + b && ax2 + a > bx2 - b && ay2 - a < by2 + b && ay2 + a > by2 - b
}

/// The value of the range from `low` to `high` that lies nearest to `value`.
pub open spec fn clamped(value: int, low: int, high: int) -> int {
    if value < low {
        low
    } else if value > high {
        high
    } else {
        value
    }
}

/// Clamps a coordinate to the range from `low` to `high`.
pub fn clamp(value: i64, low: i32, high: i32) -> (r: i32)
    requires
        low <= high,
    ensures
        r == clamped(value as int, low as int, high as int),
        low <= r <= high,
{
    if value < low as i64 {
        low
    } else if value > high as i64 {
        high
    } else {
        value as i32
    }
}

} // verus!
