//! The puck: where it starts, how a paddle turns it, and how it moves and
//! bounces off the top and bottom walls.

use vstd::prelude::*;
use vstd::std_specs::convert::FromSpecImpl;
use crate::angle::{departure_angle, HALF_TURN, QUARTER_TURN};
use crate::fixed::{
    drift,
    drift_spec,
    lemma_toward_zero_bounds,
    lemma_toward_zero_odd,
    saturate,
    saturated,
    Vec2,
    DRIFT_SCALE,
};
use crate::geometry::{Circle, Size};
use crate::paddle::Side;

verus! {

/// The radius of the puck: 10 pixels.
pub const PUCK_RADIUS: u32 = 10_000;

/// The speed of the puck along each axis: 200 pixels per second.
pub const PUCK_SPEED: i32 = 200_000;

/// The puck. Its velocity along each axis is its speed on that axis times the
/// component on that axis of the unit vector that points along `heading`; a
/// bounce off a wall turns the sign of `speed.y`, a paddle sets `heading`.
#[derive(Clone, Copy, Debug, PartialEq, Eq, Structural)]
pub struct Puck {
    pub radius: u32,
    pub pos: Vec2,
    pub speed: Vec2,
    pub heading: i64,
}

impl Puck {
    /// The puck at the start of a round on a screen of extent `screen`: at the
    /// centre, heading left.
    pub open spec fn initial(screen: Size) -> Puck {
        Puck {
            radius: PUCK_RADIUS,
            pos: Vec2 { x: (screen.w / 2) as i32, y: (screen.h / 2) as i32 },
            speed: Vec2 { x: PUCK_SPEED, y: PUCK_SPEED },
            heading: HALF_TURN as i64,
        }
    }

    /// What every puck that `init`, `reset`, `set_y_angle` and `update`
    /// produce is like: it has the fixed radius and the fixed speed along
    /// each axis, forward horizontally and either way vertically.
    pub open spec fn wf(self) -> bool {
        &&& self.radius == PUCK_RADIUS
        &&& self.speed.x == PUCK_SPEED
        &&& self.speed.y == PUCK_SPEED || self.speed.y == -PUCK_SPEED
    }

    /// The circle that the puck covers.
    pub open spec fn circle(self) -> Circle {
        Circle { x: self.pos.x, y: self.pos.y, r: self.radius }
    }

    /// The puck turned to leave the paddle of `side` at the reflection angle
    /// `angle`.
    pub open spec fn turned(self, angle: i32, side: Side) -> Puck {
        Puck { heading: departure_angle(angle as int, side) as i64, ..self }
    }

    /// The puck after `dt` ticks of motion along the direction `dir`.
    pub open spec fn moved(self, dir: Vec2, dt: u32) -> Puck {
        Puck {
            pos: Vec2 {
                x: saturated(
                    self.pos.x + drift_spec(dir.x as int, self.speed.x as int, dt as int),
                ) as i32,
                y: saturated(
                    self.pos.y + drift_spec(dir.y as int, self.speed.y as int, dt as int),
                ) as i32,
            },
            ..self
        }
    }

    /// Whether the puck reaches beyond the top or the bottom wall of a screen
    /// of extent `screen`.
    pub open spec fn beyond_wall(self, screen: Size) -> bool {
        self.pos.y < self.radius || self.pos.y > screen.h - self.radius
    }

    /// The puck with its vertical speed turned round if it reaches beyond a
    /// wall.
    pub open spec fn bounced(self, screen: Size) -> Puck {
        if self.beyond_wall(screen) {
            Puck { speed: Vec2 { x: self.speed.x, y: saturated(-self.speed.y) as i32 }, ..self }
        } else {
            self
        }
    }

    /// The puck after one frame of `dt` ticks along the direction `dir`.
    pub open spec fn updated(self, dir: Vec2, dt: u32, screen: Size) -> Puck {
        self.moved(dir, dt).bounced(screen)
    }

    /// Places the puck for the start of a round.
    pub fn init(screen: Size) -> (puck: Puck)
        ensures
            puck == Puck::initial(screen),
            puck.wf(),
    {
        Puck {
            radius: PUCK_RADIUS,
            pos: Vec2 { x: (screen.w / 2) as i32, y: (screen.h / 2) as i32 },
            speed: Vec2 { x: PUCK_SPEED, y: PUCK_SPEED },
            heading: HALF_TURN as i64,
        }
    }

    /// The horizontal position of the puck's centre.
    pub fn x(&self) -> (x: i32)
        ensures
            x == self.pos.x,
    {
        self.pos.x
    }

    /// Puts the puck back where a round starts, whatever it was doing.
    pub fn reset(&mut self, screen: Size)
        ensures
            *final(self) == Puck::initial(screen),
            final(self).wf(),
    {
        *self = Puck::init(screen);
    }

    /// Turns the puck to leave the paddle of `side` at the reflection angle
    /// `angle`.
    pub fn set_y_angle(&mut self, angle: i32, side: &Side)
        ensures
            *final(self) == old(self).turned(angle, *side),
            old(self).wf() ==> final(self).wf(),
    {
        let heading: i64 = match side {
            Side::Left => QUARTER_TURN as i64 - angle as i64,
            Side::Right => angle as i64 + QUARTER_TURN as i64,
        };
        self.heading = heading;
    }

    /// Moves the puck for `dt` ticks and bounces it off the top and bottom
    /// walls. `dir` is the unit vector along the puck's heading, each
    /// component in millionths. The puck is not pushed back onto the screen:
    /// a puck beyond a wall has the sign of its vertical speed turned, and
    /// nothing else changed.
    pub fn update(&mut self, dir: Vec2, dt: u32, screen: Size)
        ensures
            *final(self) == old(self).updated(dir, dt, screen),
            final(self).radius == old(self).radius,
            final(self).heading == old(self).heading,
            final(self).speed.x == old(self).speed.x,
            final(self).beyond_wall(screen) ==> final(self).speed.y == saturated(
                -old(self).speed.y,
            ),
            !final(self).beyond_wall(screen) ==> final(self).speed.y == old(self).speed.y,
            old(self).wf() ==> final(self).wf(),
    {
        let dx: i64 = drift(dir.x, self.speed.x, dt);
        let dy: i64 = drift(dir.y, self.speed.y, dt);
        self.pos.x = saturate(self.pos.x as i128 + dx as i128);
        self.pos.y = saturate(self.pos.y as i128 + dy as i128);
        let y: i64 = self.pos.y as i64;
        let r: i64 = self.radius as i64;
        if y < r || y > screen.h as i64 - r {
            self.speed.y = saturate(-(self.speed.y as i128));
        }
    }
}

impl From<&Puck> for Circle {
    /// The circle that the puck covers.
    fn from(value: &Puck) -> (circle: Circle) {
        Circle { x: value.pos.x, y: value.pos.y, r: value.radius }
    }
}

impl FromSpecImpl<&Puck> for Circle {
    open spec fn obeys_from_spec() -> bool {
        true
    }

    open spec fn from_spec(value: &Puck) -> Circle {
        value.circle()
    }
}

/// The walls send the puck back. A frame leaves the sign of the vertical speed
/// turned if it leaves the puck beyond a wall, and as it was if not. After a
/// turn the puck covers, in equal time along the same direction, the same
/// vertical distance the other way. A puck beyond the top wall that is not
/// moving down is still beyond it after the frame, with its vertical speed
/// turned, and does not move up in the next frame along the same direction;
/// likewise a puck beyond the bottom wall that is not moving up.
pub proof fn lemma_wall_bounce(puck: Puck, dir: Vec2, dt: u32, next_dt: u32, screen: Size)
    requires
        puck.speed.y > i32::MIN,
    ensures
        ({
            let after = puck.updated(dir, dt, screen);
            let next = after.moved(dir, next_dt);
            let climbing = dir.y * puck.speed.y <= 0;
            let sinking = dir.y * puck.speed.y >= 0;
            &&& after.beyond_wall(screen) ==> after.speed.y == -puck.speed.y
            &&& !after.beyond_wall(screen) ==> after.speed.y == puck.speed.y
            &&& after.beyond_wall(screen) ==> drift_spec(
                dir.y as int,
                after.speed.y as int,
                next_dt as int,
            ) == -drift_spec(dir.y as int, puck.speed.y as int, next_dt as int)
            &&& puck.pos.y < puck.radius && climbing ==> after.pos.y <= puck.pos.y
                && after.speed.y == -puck.speed.y
            &&& puck.pos.y > screen.h - puck.radius && sinking ==> after.pos.y >= puck.pos.y
                && after.speed.y == -puck.speed.y
            &&& after.pos.y < after.radius && climbing ==> next.pos.y >= after.pos.y
            &&& after.pos.y > screen.h - after.radius && sinking ==> next.pos.y <= after.pos.y
        }),
{
    let d = dir.y as int;
    let s = puck.speed.y as int;
    let t = next_dt as int;
    lemma_drift_sign(d, s, dt as int);
    lemma_drift_sign(d, -s, t);
    assert(d * (-s) == -(d * s)) by (nonlinear_arith);
    assert(d * (-s) * t == -(d * s * t)) by (nonlinear_arith);
    lemma_toward_zero_odd(d * s * t, DRIFT_SCALE as int);
}

/// A body drifts the way its velocity points: not forward if the product of
/// direction and speed is negative or zero, not backward if it is positive or
/// zero.
pub proof fn lemma_drift_sign(dir: int, speed: int, dt: int)
    requires
        dt >= 0,
    ensures
        dir * speed <= 0 ==> drift_spec(dir, speed, dt) <= 0,
        dir * speed >= 0 ==> drift_spec(dir, speed, dt) >= 0,
{
    lemma_toward_zero_bounds(dir * speed * dt, DRIFT_SCALE as int);
    if dir * speed <= 0 {
        assert(dir * speed * dt <= 0) by (nonlinear_arith)
            requires
                dir * speed <= 0,
                dt >= 0,
        ;
    }
    if dir * speed >= 0 {
        assert(dir * speed * dt >= 0) by (nonlinear_arith)
            requires
                dir * speed >= 0,
                dt >= 0,
        ;
    }
}

} // verus!
