//! The paddles: where they start, how the players move them, and how they are
//! kept on the screen.

use vstd::prelude::*;
use vstd::std_specs::convert::FromSpecImpl;
use crate::fixed::{clamp, saturate, saturated, toward_zero, travel, travel_spec, Vec2};
use crate::geometry::{Rect, Size};

verus! {

/// The width of a paddle: 10 pixels.
pub const PADDLE_WIDTH: u32 = 10_000;

/// The height of a paddle: 50 pixels.
pub const PADDLE_HEIGHT: u32 = 50_000;

/// The speed at which a player moves a paddle: 200 pixels per second.
pub const PADDLE_SPEED: i32 = 200_000;

/// The half of the field that a paddle defends.
#[derive(Clone, Copy, Debug, PartialEq, Eq, Structural)]
pub enum Side {
    Left,
    Right,
}

/// A paddle: its top-left corner, its extent, its side and the points its
/// player has scored.
#[derive(Clone, Copy, Debug, PartialEq, Eq, Structural)]
pub struct Paddle {
    pub pos: Vec2,
    pub size: Size,
    pub side: Side,
    pub score: u32,
}

impl Paddle {
    /// The paddle of `side` at the start of a match on a screen of extent
    /// `screen`: `offset` away from its own edge of the screen, centred
    /// vertically, with no points.
    pub open spec fn initial(side: Side, offset: i32, screen: Size) -> Paddle {
        Paddle {
            pos: Vec2 {
                x: match side {
                    Side::Left => offset,
                    Side::Right => saturated(screen.w - PADDLE_WIDTH - offset) as i32,
                },
                y: toward_zero(screen.h - PADDLE_HEIGHT, 2) as i32,
            },
            size: Size { w: PADDLE_WIDTH, h: PADDLE_HEIGHT },
            side,
            score: 0,
        }
    }

    /// What every paddle that `init` produces is like, however it has moved
    /// since: it has the fixed extent.
    pub open spec fn wf(self) -> bool {
        self.size == (Size { w: PADDLE_WIDTH, h: PADDLE_HEIGHT })
    }

    /// The rectangle that the paddle covers.
    pub open spec fn rect(self) -> Rect {
        Rect { x: self.pos.x, y: self.pos.y, w: self.size.w, h: self.size.h }
    }

    /// The paddle moved vertically by `dy`, wherever that takes it.
    pub open spec fn shifted(self, dy: int) -> Paddle {
        Paddle { pos: Vec2 { x: self.pos.x, y: saturated(self.pos.y + dy) as i32 }, ..self }
    }

    /// The paddle after `dt` ticks with the keys for up and for down held as
    /// `up` and `down` say: both together cancel out.
    pub open spec fn steered(self, up: bool, down: bool, dt: u32) -> Paddle {
        let distance = travel_spec(PADDLE_SPEED as int, dt as int);
        let raised = if up {
            self.shifted(-distance)
        } else {
            self
        };
        if down {
            raised.shifted(distance)
        } else {
            raised
        }
    }

    /// The paddle brought back onto a screen of extent `screen`.
    pub open spec fn confined(self, screen: Size) -> Paddle {
        let lowest = screen.h - self.size.h;
        let y = clamp(self.pos.y as int, 0, lowest);
        Paddle { pos: Vec2 { x: self.pos.x, y: y as i32 }, ..self }
    }

    /// Whether the paddle lies between the top and the bottom of a screen of
    /// extent `screen`.
    pub open spec fn on_screen(self, screen: Size) -> bool {
        0 <= self.pos.y <= screen.h - self.size.h
    }

    /// Places the paddle of `side` for the start of a match.
    pub fn init(side: Side, offset: i32, screen: Size) -> (paddle: Paddle)
        ensures
            paddle == Paddle::initial(side, offset, screen),
            paddle.wf(),
    {
        let x: i32 = match side {
            Side::Left => offset,
            Side::Right => saturate(screen.w as i128 - PADDLE_WIDTH as i128 - offset as i128),
        };
        let y: i64 = (screen.h as i64 - PADDLE_HEIGHT as i64) / 2;
        Paddle {
            pos: Vec2 { x, y: y as i32 },
            size: Size { w: PADDLE_WIDTH, h: PADDLE_HEIGHT },
            side,
            score: 0,
        }
    }

    /// The points scored so far.
    pub fn score(&self) -> (points: u32)
        ensures
            points == self.score,
    {
        self.score
    }

    /// Moves the paddle up for `dt` ticks. The paddle may leave the screen:
    /// `update` brings it back.
    pub fn move_up(&mut self, dt: u32)
        ensures
            *final(self) == old(self).shifted(-travel_spec(PADDLE_SPEED as int, dt as int)),
    {
        let dy: i64 = travel(PADDLE_SPEED, dt);
        self.pos.y = saturate(self.pos.y as i128 - dy as i128);
    }

    /// Moves the paddle down for `dt` ticks. The paddle may leave the screen:
    /// `update` brings it back.
    pub fn move_down(&mut self, dt: u32)
        ensures
            *final(self) == old(self).shifted(travel_spec(PADDLE_SPEED as int, dt as int)),
    {
        let dy: i64 = travel(PADDLE_SPEED, dt);
        self.pos.y = saturate(self.pos.y as i128 + dy as i128);
    }

    /// Moves the paddle for `dt` ticks as the held keys ask: up if `up`, then
    /// down if `down`.
    pub fn steer(&mut self, up: bool, down: bool, dt: u32)
        ensures
            *final(self) == old(self).steered(up, down, dt),
    {
        if up {
            self.move_up(dt);
        }
        if down {
            self.move_down(dt);
        }
    }

    /// Brings the paddle back onto the screen: a paddle above the top edge is
    /// put at the top, one below the bottom edge at the bottom, and one on the
    /// screen stays where it is.
    pub fn update(&mut self, screen: Size)
        requires
            old(self).size.h <= screen.h,
        ensures
            *final(self) == old(self).confined(screen),
            final(self).on_screen(screen),
            old(self).on_screen(screen) ==> *final(self) == *old(self),
            old(self).pos.y < 0 ==> final(self).pos.y == 0,
            old(self).pos.y > screen.h - old(self).size.h ==> final(self).pos.y == screen.h - old(
                self,
            ).size.h,
    {
        let lowest: i64 = screen.h as i64 - self.size.h as i64;
        if self.pos.y < 0 {
            self.pos.y = 0;
        } else if self.pos.y as i64 > lowest {
            self.pos.y = lowest as i32;
        }
    }
}

impl From<&Paddle> for Rect {
    /// The rectangle that the paddle covers.
    fn from(value: &Paddle) -> (rect: Rect) {
        Rect { x: value.pos.x, y: value.pos.y, w: value.size.w, h: value.size.h }
    }
}

impl FromSpecImpl<&Paddle> for Rect {
    open spec fn obeys_from_spec() -> bool {
        true
    }

    open spec fn from_spec(value: &Paddle) -> Rect {
        value.rect()
    }
}

} // verus!
