//! Circles, axis-aligned rectangles and the test whether one touches the other.

use vstd::prelude::*;
use crate::fixed::clamp;

verus! {

/// A circle: its centre and its radius.
#[derive(Clone, Copy, Debug, PartialEq, Eq, Structural)]
pub struct Circle {
    pub x: i32,
    pub y: i32,
    pub r: u32,
}

/// An axis-aligned rectangle: its top-left corner, its width and its height.
/// Its edges belong to it.
#[derive(Clone, Copy, Debug, PartialEq, Eq, Structural)]
pub struct Rect {
    pub x: i32,
    pub y: i32,
    pub w: u32,
    pub h: u32,
}

/// A width and a height: the extent of a paddle or of the screen.
#[derive(Clone, Copy, Debug, PartialEq, Eq, Structural)]
pub struct Size {
    pub w: u32,
    pub h: u32,
}

/// The square of the distance between the points `(ax, ay)` and `(bx, by)`.
pub open spec fn distance_squared(ax: int, ay: int, bx: int, by: int) -> int {
    (ax - bx) * (ax - bx) + (ay - by) * (ay - by)
}

impl Rect {
    /// Whether the point `(px, py)` lies in the rectangle.
    pub open spec fn contains(self, px: int, py: int) -> bool {
        &&& self.x <= px <= self.x + self.w
        &&& self.y <= py <= self.y + self.h
    }

    /// The horizontal coordinate of the rectangle's point nearest to a point
    /// whose horizontal coordinate is `px`.
    pub open spec fn nearest_x(self, px: int) -> int {
        clamp(px, self.x as int, self.x + self.w)
    }

    /// The vertical coordinate of the rectangle's point nearest to a point
    /// whose vertical coordinate is `py`.
    pub open spec fn nearest_y(self, py: int) -> int {
        clamp(py, self.y as int, self.y + self.h)
    }
}

impl Circle {
    /// The square of the distance from the circle's centre to the nearest point
    /// of `rect`.
    pub open spec fn gap_squared(self, rect: Rect) -> int {
        distance_squared(
            self.x as int,
            self.y as int,
            rect.nearest_x(self.x as int),
            rect.nearest_y(self.y as int),
        )
    }

    /// Whether the circle and `rect` have a point in common: the rectangle's
    /// point nearest to the centre is no farther from it than the radius.
    pub open spec fn overlaps(self, rect: Rect) -> bool {
        self.gap_squared(rect) <= self.r * self.r
    }

    /// Tests whether the circle and `rect` have a point in common. A circle
    /// that only touches the rectangle overlaps it.
    pub fn overlaps_rect(&self, rect: &Rect) -> (hit: bool)
        ensures
            hit == self.overlaps(*rect),
    {
        let cx: i64 = self.x as i64;
        let cy: i64 = self.y as i64;
        let right: i64 = rect.x as i64 + rect.w as i64;
        let bottom: i64 = rect.y as i64 + rect.h as i64;
        let nx: i64 = if cx < rect.x as i64 {
            rect.x as i64
        } else if cx > right {
            right
        } else {
            cx
        };
        let ny: i64 = if cy < rect.y as i64 {
            rect.y as i64
        } else if cy > bottom {
            bottom
        } else {
            cy
        };
        let dx: i128 = (cx - nx) as i128;
        let dy: i128 = (cy - ny) as i128;
        let r: i128 = self.r as i128;
        proof {
            lemma_square_bound(dx as int, 0x1_0000_0000);
            lemma_square_bound(dy as int, 0x1_0000_0000);
            lemma_square_bound(r as int, 0x1_0000_0000);
        }
        dx * dx + dy * dy <= r * r
    }
}

/// A number no longer than `bound` has a square no greater than `bound`'s.
pub proof fn lemma_square_bound(v: int, bound: int)
    by (nonlinear_arith)
    requires
        -bound <= v <= bound,
    ensures
        0 <= v * v <= bound * bound,
{
}

/// Of two numbers on the same side of zero, the shorter has the smaller
/// square.
pub proof fn lemma_square_monotonic(a: int, b: int)
    by (nonlinear_arith)
    requires
        0 <= a <= b || b <= a <= 0,
    ensures
        a * a <= b * b,
{
}

/// The point that `nearest_x` and `nearest_y` give lies in the rectangle, and
/// no point of the rectangle is nearer to `(cx, cy)`.
pub proof fn lemma_nearest_point(rect: Rect, cx: int, cy: int, px: int, py: int)
    requires
        rect.contains(px, py),
    ensures
        rect.contains(rect.nearest_x(cx), rect.nearest_y(cy)),
        distance_squared(cx, cy, rect.nearest_x(cx), rect.nearest_y(cy)) <= distance_squared(
            cx,
            cy,
            px,
            py,
        ),
{
    lemma_square_monotonic(cx - rect.nearest_x(cx), cx - px);
    lemma_square_monotonic(cy - rect.nearest_y(cy), cy - py);
}

/// A circle overlaps a rectangle exactly when some point of the rectangle is
/// no farther from the circle's centre than the radius.
pub proof fn lemma_overlap_iff_point_in_reach(circle: Circle, rect: Rect)
    ensures
        circle.overlaps(rect) <==> exists|px: int, py: int|
            rect.contains(px, py) && #[trigger] distance_squared(
                circle.x as int,
                circle.y as int,
                px,
                py,
            ) <= circle.r * circle.r,
{
    let cx = circle.x as int;
    let cy = circle.y as int;
    let nx = rect.nearest_x(cx);
    let ny = rect.nearest_y(cy);
    if circle.overlaps(rect) {
        assert(rect.contains(nx, ny));
        assert(distance_squared(cx, cy, nx, ny) <= circle.r * circle.r);
    }
    assert forall|px: int, py: int|
        rect.contains(px, py) && #[trigger] distance_squared(cx, cy, px, py) <= circle.r
            * circle.r implies circle.overlaps(rect) by {
        lemma_nearest_point(rect, cx, cy, px, py);
    }
}

/// A circle whose centre lies in the rectangle overlaps it. For a point of the
/// rectangle that is nearest to the centre, the circle overlaps the rectangle
/// when that point is exactly one radius away, and does not when it is
/// farther away than one radius.
pub proof fn lemma_overlap_by_nearest_distance(circle: Circle, rect: Rect, px: int, py: int)
    requires
        rect.contains(px, py),
        forall|qx: int, qy: int|
            rect.contains(qx, qy) ==> distance_squared(
                circle.x as int,
                circle.y as int,
                px,
                py,
            ) <= #[trigger] distance_squared(circle.x as int, circle.y as int, qx, qy),
    ensures
        rect.contains(circle.x as int, circle.y as int) ==> circle.overlaps(rect),
        distance_squared(circle.x as int, circle.y as int, px, py) == circle.r * circle.r
            ==> circle.overlaps(rect),
        distance_squared(circle.x as int, circle.y as int, px, py) > circle.r * circle.r
            ==> !circle.overlaps(rect),
        circle.overlaps(rect) <==> distance_squared(circle.x as int, circle.y as int, px, py)
            <= circle.r * circle.r,
{
    let cx = circle.x as int;
    let cy = circle.y as int;
    let nx = rect.nearest_x(cx);
    let ny = rect.nearest_y(cy);
    lemma_nearest_point(rect, cx, cy, px, py);
    assert(distance_squared(cx, cy, px, py) <= distance_squared(cx, cy, nx, ny));
    lemma_square_bound(circle.r as int, circle.r as int);
    if rect.contains(cx, cy) {
        assert(nx == cx && ny == cy);
        assert(distance_squared(cx, cy, cx, cy) == 0) by (nonlinear_arith);
    }
}

} // verus!
