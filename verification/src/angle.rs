//! The angle at which the puck leaves a paddle, from the height at which it
//! struck, and the heading that this angle means on each side of the field.

use vstd::prelude::*;
use crate::fixed::{clamp, lemma_toward_zero_bounds, lemma_toward_zero_monotonic, toward_zero};
use crate::geometry::{Circle, Rect};
use crate::paddle::Side;

verus! {

/// The flattest angle at which the puck leaves the lower end of a paddle: 20
/// degrees.
pub const MIN_ANGLE: i32 = 20_000;

/// The flattest angle at which the puck leaves the upper end of a paddle: 160
/// degrees.
pub const MAX_ANGLE: i32 = 160_000;

/// Half a turn: 180 degrees.
pub const HALF_TURN: i32 = 180_000;

/// A quarter of a turn: 90 degrees.
pub const QUARTER_TURN: i32 = 90_000;

/// The reflection angle before it is bounded, for a puck whose centre is
/// `offset` below the top edge of a paddle of height `height`: half a turn at
/// the top edge, falling evenly to nothing at the bottom edge.
pub open spec fn raw_angle(offset: int, height: int) -> int {
    HALF_TURN - toward_zero(offset * HALF_TURN, height)
}

/// The reflection angle for a puck whose centre is `offset` below the top edge
/// of a paddle of height `height`: the raw angle, bounded. Against a paddle
/// without height, a puck below the edge leaves at the least angle and one
/// above it at the greatest; for one level with the edge there is no angle,
/// and the value here has no meaning.
pub open spec fn reflection_angle(offset: int, height: int) -> int {
    if height == 0 {
        if offset > 0 {
            MIN_ANGLE as int
        } else {
            MAX_ANGLE as int
        }
    } else {
        clamp(raw_angle(offset, height), MIN_ANGLE as int, MAX_ANGLE as int)
    }
}

/// The heading of a puck that leaves the paddle of `side` at the reflection
/// angle `angle`: a quarter turn less the angle on the left, a quarter turn
/// more than the angle on the right.
pub open spec fn departure_angle(angle: int, side: Side) -> int {
    match side {
        Side::Left => QUARTER_TURN - angle,
        Side::Right => angle + QUARTER_TURN,
    }
}

/// Computes the angle at which the puck leaves `paddle`, from the height at
/// which its centre stands against the paddle. The result does not depend on
/// the side: see `departure_angle`.
///
/// A puck level with the top edge of a paddle without height has no angle,
/// and is left out.
pub fn calculate_angle(puck: &Circle, paddle: &Rect) -> (angle: i32)
    requires
        paddle.h > 0 || puck.y != paddle.y,
    ensures
        angle == reflection_angle(puck.y - paddle.y, paddle.h as int),
        MIN_ANGLE <= angle <= MAX_ANGLE,
{
    let offset: i64 = puck.y as i64 - paddle.y as i64;
    if paddle.h == 0 {
        if offset > 0 {
            MIN_ANGLE
        } else {
            MAX_ANGLE
        }
    } else {
        let height: i64 = paddle.h as i64;
        let share: i64 = (offset * (HALF_TURN as i64)) / height;
        proof {
            lemma_toward_zero_bounds(offset * HALF_TURN, height as int);
        }
        let raw: i64 = HALF_TURN as i64 - share;
        if raw < MIN_ANGLE as i64 {
            MIN_ANGLE
        } else if raw > MAX_ANGLE as i64 {
            MAX_ANGLE
        } else {
            raw as i32
        }
    }
}

/// Whatever the offset and the height, the reflection angle lies between the
/// least and the greatest angle.
pub proof fn lemma_reflection_angle_bounded(offset: int, height: int)
    ensures
        MIN_ANGLE <= reflection_angle(offset, height) <= MAX_ANGLE,
{
}

/// The lower the puck strikes, the smaller the angle before it is bounded: it
/// never grows with the offset, it is half a turn at the top edge and nothing
/// at the bottom edge, and between two offsets on the same side of the top
/// edge it falls by at least one step wherever the offset grows by a share of
/// the height that is worth one step.
pub proof fn lemma_raw_angle_decreases(upper: int, lower: int, height: int)
    requires
        height > 0,
        upper <= lower,
    ensures
        raw_angle(upper, height) >= raw_angle(lower, height),
        raw_angle(0, height) == HALF_TURN,
        raw_angle(height, height) == 0,
        (0 <= upper || lower <= 0) && (lower - upper) * HALF_TURN >= height ==> raw_angle(
            upper,
            height,
        ) > raw_angle(lower, height),
{
    let a = upper * HALF_TURN;
    let b = lower * HALF_TURN;
    lemma_toward_zero_monotonic(a, b, height);
    assert(0int / height == 0) by (nonlinear_arith)
        requires
            height > 0,
    ;
    assert((height * HALF_TURN) / height == HALF_TURN) by (nonlinear_arith)
        requires
            height > 0,
    ;
    if (0 <= upper || lower <= 0) && (lower - upper) * HALF_TURN >= height {
        lemma_toward_zero_apart(a, b, height);
    }
}

/// Dividends on the same side of zero and at least one divisor apart have
/// different quotients.
proof fn lemma_toward_zero_apart(a: int, b: int, d: int)
    requires
        d > 0,
        a + d <= b,
        0 <= a || b <= 0,
    ensures
        toward_zero(a, d) < toward_zero(b, d),
{
    lemma_toward_zero_bounds(a, d);
    lemma_toward_zero_bounds(b, d);
    if a >= 0 {
        assert(a / d < b / d) by (nonlinear_arith)
            requires
                d > 0,
                0 <= a,
                a + d <= b,
        ;
    } else {
        let m = -b;
        let n = -a;
        assert(m / d < n / d) by (nonlinear_arith)
            requires
                d > 0,
                0 <= m,
                m + d <= n,
        ;
    }
}

/// The two sides give the puck different headings for every reflection angle
/// but zero, and the same heading for zero.
pub proof fn lemma_sides_differ(angle: int)
    ensures
        departure_angle(angle, Side::Left) == QUARTER_TURN - angle,
        departure_angle(angle, Side::Right) == angle + QUARTER_TURN,
        departure_angle(angle, Side::Left) == departure_angle(angle, Side::Right) <==> angle == 0,
{
}

} // verus!
