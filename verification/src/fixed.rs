//! Fixed-point quantities shared by the whole simulation.
//!
//! Every quantity is an integer count of a small step: positions and sizes in
//! thousandths of a pixel, time in microseconds, direction components in
//! millionths and angles in thousandths of a degree. Divisions round toward
//! zero, so that a motion and its mirror image have the same length, and a
//! coordinate that would leave the `i32` range stays at the end of the range.

use vstd::prelude::*;

verus! {

/// Position steps in one pixel.
pub const UNIT: i32 = 1_000;

/// Time steps in one second.
pub const TICKS_PER_SECOND: u32 = 1_000_000;

/// The direction component that stands for 1.
pub const ONE: i32 = 1_000_000;

/// Angle steps in one degree.
pub const DEGREE: i32 = 1_000;

/// What the product of a direction component, a speed and a time is divided
/// by to give a distance: `ONE` times `TICKS_PER_SECOND`.
pub const DRIFT_SCALE: i64 = 1_000_000_000_000;

/// A pair of coordinates: a position, a speed per axis or a direction.
#[derive(Clone, Copy, Debug, PartialEq, Eq, Structural)]
pub struct Vec2 {
    pub x: i32,
    pub y: i32,
}

/// `v` bounded to the closed interval from `lo` to `hi`.
pub open spec fn clamp(v: int, lo: int, hi: int) -> int {
    if v < lo {
        lo
    } else if v > hi {
        hi
    } else {
        v
    }
}

/// `v` bounded to the range of a stored coordinate.
pub open spec fn saturated(v: int) -> int {
    clamp(v, i32::MIN as int, i32::MAX as int)
}

/// The quotient of `a` by a positive `b`, rounded toward zero.
pub open spec fn toward_zero(a: int, b: int) -> int {
    if a >= 0 {
        a / b
    } else {
        -((-a) / b)
    }
}

/// The distance covered in `dt` ticks at `speed` position steps per second.
pub open spec fn travel_spec(speed: int, dt: int) -> int {
    toward_zero(speed * dt, TICKS_PER_SECOND as int)
}

/// The distance covered along one axis in `dt` ticks by a body whose speed on
/// that axis is `speed` and whose direction component on it is `dir`.
pub open spec fn drift_spec(dir: int, speed: int, dt: int) -> int {
    toward_zero(dir * speed * dt, DRIFT_SCALE as int)
}

/// Rounding toward zero commutes with negation.
pub proof fn lemma_toward_zero_odd(a: int, b: int)
    requires
        b > 0,
    ensures
        toward_zero(-a, b) == -toward_zero(a, b),
{
    if a == 0 {
        assert(0int / b == 0) by (nonlinear_arith)
            requires
                b > 0,
        ;
    }
}

/// The quotient has the sign of the dividend and is no longer than it.
pub proof fn lemma_toward_zero_bounds(a: int, b: int)
    requires
        b > 0,
    ensures
        a >= 0 ==> 0 <= toward_zero(a, b) <= a,
        a <= 0 ==> a <= toward_zero(a, b) <= 0,
{
    if a >= 0 {
        assert(0 <= a / b <= a) by (nonlinear_arith)
            requires
                a >= 0,
                b > 0,
        ;
    } else {
        let n = -a;
        assert(0 <= n / b <= n) by (nonlinear_arith)
            requires
                n >= 0,
                b > 0,
        ;
    }
}

/// Rounding toward zero keeps the order of the dividends.
pub proof fn lemma_toward_zero_monotonic(a: int, b: int, d: int)
    requires
        d > 0,
        a <= b,
    ensures
        toward_zero(a, d) <= toward_zero(b, d),
{
    lemma_toward_zero_bounds(a, d);
    lemma_toward_zero_bounds(b, d);
    if a >= 0 {
        assert(a / d <= b / d) by (nonlinear_arith)
            requires
                d > 0,
                a <= b,
        ;
    } else if b < 0 {
        let m = -b;
        let n = -a;
        assert(m / d <= n / d) by (nonlinear_arith)
            requires
                d > 0,
                m <= n,
        ;
    }
}

/// Bounds a wide intermediate result to the range of a stored coordinate.
pub fn saturate(v: i128) -> (r: i32)
    ensures
        r == saturated(v as int),
{
    if v < i32::MIN as i128 {
        i32::MIN
    } else if v > i32::MAX as i128 {
        i32::MAX
    } else {
        v as i32
    }
}

/// The distance covered in `dt` ticks at `speed` position steps per second.
pub fn travel(speed: i32, dt: u32) -> (d: i64)
    ensures
        d == travel_spec(speed as int, dt as int),
{
    let s: i64 = speed as i64;
    let t: i64 = dt as i64;
    assert(-0x8000_0000_0000_0000 <= s * t <= 0x7fff_ffff_ffff_ffff) by (nonlinear_arith)
        requires
            -0x8000_0000 <= s <= 0x7fff_ffff,
            0 <= t <= 0xffff_ffff,
    ;
    (s * t) / (TICKS_PER_SECOND as i64)
}

/// The distance covered along one axis in `dt` ticks at `speed` position steps
/// per second in the direction whose component on that axis is `dir`.
pub fn drift(dir: i32, speed: i32, dt: u32) -> (d: i64)
    ensures
        d == drift_spec(dir as int, speed as int, dt as int),
{
    let a: i128 = dir as i128;
    let s: i128 = speed as i128;
    let t: i128 = dt as i128;
    assert(-0x4000_0000_0000_0000 <= a * s <= 0x4000_0000_0000_0000) by (nonlinear_arith)
        requires
            -0x8000_0000 <= a <= 0x7fff_ffff,
            -0x8000_0000 <= s <= 0x7fff_ffff,
    ;
    let v: i128 = a * s;
    assert(-0x4000_0000_0000_0000_0000_0000 <= v * t <= 0x4000_0000_0000_0000_0000_0000)
        by (nonlinear_arith)
        requires
            -0x4000_0000_0000_0000 <= v <= 0x4000_0000_0000_0000,
            0 <= t <= 0xffff_ffff,
    ;
    let q: i128 = (v * t) / (DRIFT_SCALE as i128);
    proof {
        lemma_toward_zero_bounds(v * t, DRIFT_SCALE as int);
    }
    q as i64
}

} // verus!
