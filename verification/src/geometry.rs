//! Fixed-point coordinates and the box arithmetic shared by every entity.

use vstd::prelude::*;

verus! {

/// Number of coordinate steps in one world unit.
pub const UNIT: i32 = 100;

/// A pair of coordinates, or a width and a height, in hundredths of a unit.
#[derive(Clone, Copy, Debug, PartialEq, Eq, Structural)]
pub struct Vector2 {
    pub x: i32,
    pub y: i32,
}

/// The whole number of units nearest to `v`, still counted in hundredths. A
/// value halfway between two whole numbers goes to the one farther from zero.
pub open spec fn spec_round(v: int) -> int {
    if v >= 0 {
        ((v + 50) / 100) * 100
    } else {
        -(((50 - v) / 100) * 100)
    }
}

/// `v` without its fraction of a unit, still counted in hundredths: the whole
/// number of units next to `v` on the side of zero.
pub open spec fn spec_trunc(v: int) -> int {
    if v >= 0 {
        (v / 100) * 100
    } else {
        -(((-v) / 100) * 100)
    }
}

/// The absolute value of `v`.
pub open spec fn spec_abs(v: int) -> int {
    if v >= 0 { v } else { -v }
}

/// One step of `speed` upwards from `v` that stops at `high`. A value already
/// at or beyond `high` stays where it is.
pub open spec fn spec_step_up(v: int, speed: int, high: int) -> int {
    if v >= high {
        v
    } else if v + speed < high {
        v + speed
    } else {
        high
    }
}

/// One step of `speed` downwards from `v` that stops at `low`. A value already
/// at or beyond `low` stays where it is.
pub open spec fn spec_step_down(v: int, speed: int, low: int) -> int {
    if v <= low {
        v
    } else if v - speed > low {
        v - speed
    } else {
        low
    }
}

/// Whether two axis-aligned boxes share interior points. Each box is given by
/// its corner with the smallest coordinates, its width and its height.
pub open spec fn spec_box_collisions(
    x_1: int,
    y_1: int,
    w_1: int,
    h_1: int,
    x_2: int,
    y_2: int,
    w_2: int,
    h_2: int,
) -> bool {
    x_2 < x_1 + w_1 && x_2 + w_2 > x_1 && y_2 < y_1 + h_1 && y_2 + h_2 > y_1
}

/// Whether the box at `pos` of size `size` and the box at `other` of size
/// `other_size` share interior points.
pub open spec fn spec_overlap(pos: Vector2, size: Vector2, other: Vector2, other_size: Vector2) -> bool {
    spec_box_collisions(
        pos.x as int,
        pos.y as int,
        size.x as int,
        size.y as int,
        other.x as int,
        other.y as int,
        other_size.x as int,
        other_size.y as int,
    )
}

/// The square of the distance between two points.
pub open spec fn spec_distance_squared(a: Vector2, b: Vector2) -> int {
    (a.x - b.x) * (a.x - b.x) + (a.y - b.y) * (a.y - b.y)
}

/// Rounds a coordinate, or a difference of two coordinates, to whole units.
/// The value has to leave room for half a unit on either side.
pub fn round(v: i64) -> (r: i64)
    requires
        i64::MIN + 50 < v <= i64::MAX - 50,
    ensures
        r == spec_round(v as int),
{
    if v >= 0 {
        ((v + 50) / 100) * 100
    } else {
        -(((50 - v) / 100) * 100)
    }
}

/// Rounds one coordinate to whole units. The result is again a coordinate:
/// no `i32` lies beyond the last whole unit by half a unit or more.
pub fn round_coordinate(v: i32) -> (r: i32)
    ensures
        r == spec_round(v as int),
{
    let wide: i64 = round(v as i64);
    wide as i32
}

/// Drops the fraction of a unit from a coordinate, or from a coordinate that
/// has been moved by a few units.
pub fn trunc(v: i64) -> (r: i64)
    ensures
        r == spec_trunc(v as int),
{
    (v / 100) * 100
}

/// The absolute value of a rounded difference of two coordinates.
pub fn abs(v: i64) -> (r: i64)
    requires
        v > i64::MIN,
    ensures
        r == spec_abs(v as int),
{
    if v >= 0 { v } else { -v }
}

/// Moves `v` up by `speed`, but not past `high`.
pub fn step_up(v: i32, speed: i32, high: i32) -> (r: i32)
    requires
        speed >= 0,
    ensures
        r == spec_step_up(v as int, speed as int, high as int),
{
    if v >= high {
        v
    } else {
        let next: i64 = v as i64 + speed as i64;
        if next < high as i64 { next as i32 } else { high }
    }
}

/// Moves `v` down by `speed`, but not past `low`.
pub fn step_down(v: i32, speed: i32, low: i32) -> (r: i32)
    requires
        speed >= 0,
    ensures
        r == spec_step_down(v as int, speed as int, low as int),
{
    if v <= low {
        v
    } else {
        let next: i64 = v as i64 - speed as i64;
        if next > low as i64 { next as i32 } else { low }
    }
}

/// Whether two points are more than `limit` apart, for a `limit` that is not
/// negative. Squares are compared, so no root is taken.
pub fn farther_than(a: &Vector2, b: &Vector2, limit: i32) -> (r: bool)
    requires
        limit >= 0,
    ensures
        r == (spec_distance_squared(*a, *b) > limit * limit),
{
    let dx: i128 = a.x as i128 - b.x as i128;
    let dy: i128 = a.y as i128 - b.y as i128;
    let wide: i128 = limit as i128;
    assert(0 <= dx * dx <= 0x1_0000_0000 * 0x1_0000_0000) by (nonlinear_arith)
        requires
            -0x1_0000_0000 < dx < 0x1_0000_0000,
    ;
    assert(0 <= dy * dy <= 0x1_0000_0000 * 0x1_0000_0000) by (nonlinear_arith)
        requires
            -0x1_0000_0000 < dy < 0x1_0000_0000,
    ;
    assert(0 <= wide * wide <= 0x1_0000_0000 * 0x1_0000_0000) by (nonlinear_arith)
        requires
            0 <= wide < 0x1_0000_0000,
    ;
    dx * dx + dy * dy > wide * wide
}

} // verus!
