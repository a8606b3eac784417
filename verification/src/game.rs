//! The match: two paddles, the puck, the scores and the winner, and what one
//! frame and one restart do to them.

use vstd::prelude::*;
use crate::angle::{calculate_angle, reflection_angle};
use crate::fixed::Vec2;
use crate::geometry::{Circle, Rect, Size};
use crate::paddle::{Paddle, Side, PADDLE_HEIGHT, PADDLE_WIDTH};
use crate::puck::{Puck, PUCK_RADIUS, PUCK_SPEED};

verus! {

/// The number of points that a match is played over: who holds more than half
/// of them has won.
pub const MAX_SCORE: u32 = 5;

/// The distance of each paddle from its own edge of the screen: 10 pixels.
pub const PADDLE_OFFSET: i32 = 10_000;

/// The keys that the two players hold during a frame.
#[derive(Clone, Copy, Debug, PartialEq, Eq, Structural)]
pub struct Input {
    pub left_up: bool,
    pub left_down: bool,
    pub right_up: bool,
    pub right_down: bool,
}

/// A match. While `out` holds nothing moves: the match has not begun, or it
/// is over and `win` names the winner.
#[derive(Clone, Copy, Debug, PartialEq, Eq, Structural)]
pub struct State {
    pub puck: Puck,
    pub left: Paddle,
    pub right: Paddle,
    pub out: bool,
    pub win: Option<Side>,
}

impl State {
    /// The match before its first round, on a screen of extent `screen`.
    pub open spec fn initial(screen: Size) -> State {
        State {
            puck: Puck::initial(screen),
            left: Paddle::initial(Side::Left, PADDLE_OFFSET, screen),
            right: Paddle::initial(Side::Right, PADDLE_OFFSET, screen),
            out: true,
            win: None,
        }
    }

    /// The match at the start of a round, on a screen of extent `screen`.
    pub open spec fn restarted(screen: Size) -> State {
        State { out: false, ..State::initial(screen) }
    }

    /// What every match that `init`, `reset`, `restart` and `frame` produce
    /// is like: puck and paddles are as their own types ask; each paddle is
    /// on its own side; a match in play has no winner, and neither side
    /// holds more than half of the points; a winner holds exactly one point
    /// more than half of them, the loser fewer, and the match is out.
    pub open spec fn wf(self) -> bool {
        &&& self.puck.wf()
        &&& self.left.wf()
        &&& self.right.wf()
        &&& self.left.side == Side::Left
        &&& self.right.side == Side::Right
        &&& !self.out ==> self.win is None && self.left.score <= MAX_SCORE / 2 && self.right.score
            <= MAX_SCORE / 2
        &&& self.win == Some(Side::Left) ==> self.out && self.left.score == MAX_SCORE / 2 + 1
            && self.right.score <= MAX_SCORE / 2
        &&& self.win == Some(Side::Right) ==> self.out && self.right.score == MAX_SCORE / 2 + 1
            && self.left.score <= MAX_SCORE / 2
    }

    /// The match with both paddles moved as `input` asks.
    pub open spec fn steered(self, input: Input, dt: u32) -> State {
        State {
            left: self.left.steered(input.left_up, input.left_down, dt),
            right: self.right.steered(input.right_up, input.right_down, dt),
            ..self
        }
    }

    /// The paddle that the puck touches: the right one where it touches both.
    pub open spec fn touched(self) -> Option<Side> {
        let circle = self.puck.circle();
        if circle.overlaps(self.right.rect()) {
            Some(Side::Right)
        } else if circle.overlaps(self.left.rect()) {
            Some(Side::Left)
        } else {
            None
        }
    }

    /// The match with the puck turned by `paddle`, which it touches.
    pub open spec fn deflected(self, paddle: Paddle) -> State {
        let angle = reflection_angle(self.puck.pos.y - paddle.pos.y, paddle.size.h as int);
        State { puck: self.puck.turned(angle as i32, paddle.side), ..self }
    }

    /// The match after a look at the goals: a puck beyond the right edge
    /// gives the left side a point, one beyond the left edge gives the right
    /// side a point, and either way the puck starts again from the centre.
    pub open spec fn scored(self, screen: Size) -> State {
        if self.puck.pos.x > screen.w {
            State {
                puck: Puck::initial(screen),
                left: Paddle { score: (self.left.score + 1) as u32, ..self.left },
                ..self
            }
        } else if self.puck.pos.x < 0 {
            State {
                puck: Puck::initial(screen),
                right: Paddle { score: (self.right.score + 1) as u32, ..self.right },
                ..self
            }
        } else {
            self
        }
    }

    /// The paddle that the puck strikes in the coming frame, once the paddles
    /// have moved as `input` asks. None in a match that is out.
    pub open spec fn struck(self, input: Input, dt: u32) -> Option<Side> {
        if self.out {
            None
        } else {
            self.steered(input, dt).touched()
        }
    }

    /// The match after the first half of a frame: the paddles have moved, and
    /// the puck has been turned by the paddle it touches or, where it touches
    /// none, the goals have been looked at.
    pub open spec fn played(self, input: Input, dt: u32, screen: Size) -> State {
        let steered = self.steered(input, dt);
        match steered.touched() {
            Some(Side::Right) => steered.deflected(steered.right),
            Some(Side::Left) => steered.deflected(steered.left),
            None => steered.scored(screen),
        }
    }

    /// The match with its winner named, if a side holds more than half of
    /// the points: the right side where both do.
    pub open spec fn judged(self) -> State {
        if self.right.score > MAX_SCORE / 2 {
            State { win: Some(Side::Right), out: true, ..self }
        } else if self.left.score > MAX_SCORE / 2 {
            State { win: Some(Side::Left), out: true, ..self }
        } else {
            self
        }
    }

    /// The match after the second half of a frame: the puck has moved along
    /// `dir` and bounced, the paddles are back on the screen, and the winner
    /// is named if there is one.
    pub open spec fn advanced(self, dir: Vec2, dt: u32, screen: Size) -> State {
        State {
            puck: self.puck.updated(dir, dt, screen),
            left: self.left.confined(screen),
            right: self.right.confined(screen),
            ..self
        }.judged()
    }

    /// The match after one frame of `dt` ticks. A match that is out stays as
    /// it is.
    pub open spec fn framed(self, input: Input, dir: Vec2, dt: u32, screen: Size) -> State {
        if self.out {
            self
        } else {
            self.played(input, dt, screen).advanced(dir, dt, screen)
        }
    }

    /// The heading along which the puck moves in the coming frame.
    pub open spec fn aimed(self, input: Input, dt: u32, screen: Size) -> i64 {
        if self.out {
            self.puck.heading
        } else {
            self.played(input, dt, screen).puck.heading
        }
    }

    /// Sets up a match that waits for its first round.
    pub fn init(screen: Size) -> (state: State)
        ensures
            state == State::initial(screen),
            state.wf(),
    {
        State {
            puck: Puck::init(screen),
            left: Paddle::init(Side::Left, PADDLE_OFFSET, screen),
            right: Paddle::init(Side::Right, PADDLE_OFFSET, screen),
            out: true,
            win: None,
        }
    }

    /// Starts a round from scratch: puck and paddles go back to where they
    /// start, both scores to zero, and there is no winner.
    pub fn reset(&mut self, screen: Size)
        ensures
            *final(self) == State::restarted(screen),
            final(self).wf(),
    {
        *self = State::init(screen);
        self.out = false;
    }

    /// Answers the restart key: a match that is out starts a round from
    /// scratch when the key was pressed, and nothing else changes anything.
    pub fn restart(&mut self, pressed: bool, screen: Size) -> (restarted: bool)
        ensures
            restarted == (old(self).out && pressed),
            restarted ==> *final(self) == State::restarted(screen),
            !restarted ==> *final(self) == *old(self),
            old(self).wf() ==> final(self).wf(),
    {
        if self.out && pressed {
            self.reset(screen);
            true
        } else {
            false
        }
    }

    /// Whether the match is one that `init`, `reset`, `restart` and `frame`
    /// produce.
    pub fn is_wf(&self) -> (ok: bool)
        ensures
            ok == self.wf(),
    {
        let half: u32 = MAX_SCORE / 2;
        let sides: bool = self.left.side == Side::Left && self.right.side == Side::Right;
        let sizes: bool = self.left.size.w == PADDLE_WIDTH && self.left.size.h == PADDLE_HEIGHT
            && self.right.size.w == PADDLE_WIDTH && self.right.size.h == PADDLE_HEIGHT;
        let puck: bool = self.puck.radius == PUCK_RADIUS && self.puck.speed.x == PUCK_SPEED && (
        self.puck.speed.y == PUCK_SPEED || self.puck.speed.y == -PUCK_SPEED);
        let scores: bool = match self.win {
            None => self.out || (self.left.score <= half && self.right.score <= half),
            Some(Side::Left) => self.out && self.left.score == half + 1 && self.right.score
                <= half,
            Some(Side::Right) => self.out && self.right.score == half + 1 && self.left.score
                <= half,
        };
        puck && sides && sizes && scores
    }

    /// The line that tells the players how the match stands: who has won, or
    /// that nobody has yet.
    pub fn result_text(&self) -> (text: &'static str)
        ensures
            text@ == match self.win {
                None => "Lets Play"@,
                Some(Side::Left) => "Left Side Won"@,
                Some(Side::Right) => "Right Side Won"@,
            },
    {
        match self.win {
            None => "Lets Play",
            Some(Side::Left) => "Left Side Won",
            Some(Side::Right) => "Right Side Won",
        }
    }

    /// The first half of a frame: moves the paddles, then turns the puck if
    /// it touches one of them, and looks at the goals if it touches none.
    fn play(&mut self, input: &Input, dt: u32, screen: Size) -> (struck: Option<Side>)
        requires
            old(self).wf(),
            !old(self).out,
        ensures
            *final(self) == old(self).played(*input, dt, screen),
            struck == old(self).struck(*input, dt),
    {
        self.left.steer(input.left_up, input.left_down, dt);
        self.right.steer(input.right_up, input.right_down, dt);
        let puck_circle = Circle::from(&self.puck);
        let left_rect = Rect::from(&self.left);
        let right_rect = Rect::from(&self.right);
        if puck_circle.overlaps_rect(&right_rect) {
            let angle: i32 = calculate_angle(&puck_circle, &right_rect);
            self.puck.set_y_angle(angle, &self.right.side);
            Some(Side::Right)
        } else if puck_circle.overlaps_rect(&left_rect) {
            let angle: i32 = calculate_angle(&puck_circle, &left_rect);
            self.puck.set_y_angle(angle, &self.left.side);
            Some(Side::Left)
        } else {
            if self.puck.x() as i64 > screen.w as i64 {
                self.left.score += 1;
                self.puck.reset(screen);
            }
            if self.puck.x() < 0 {
                self.right.score += 1;
                self.puck.reset(screen);
            }
            None
        }
    }

    /// The heading along which the puck moves in the coming frame: the one
    /// that the paddle it strikes gives it, the one of a fresh puck after a
    /// goal, and else the one it has. `frame` wants the unit vector along
    /// this heading.
    pub fn aim(&self, input: &Input, dt: u32, screen: Size) -> (heading: i64)
        requires
            self.wf(),
        ensures
            heading == self.aimed(*input, dt, screen),
    {
        if self.out {
            self.puck.heading
        } else {
            let mut next: State = *self;
            next.play(input, dt, screen);
            next.puck.heading
        }
    }

    /// Plays one frame of `dt` ticks: the paddles move as `input` asks; the
    /// puck is turned by the paddle it touches, the right one first, or else
    /// a puck beyond a goal gives the other side a point and starts again;
    /// the puck moves along `dir` and bounces; the paddles are brought back
    /// onto the screen; and the winner is named if there is one. Returns the
    /// paddle that the puck struck. A match that is out stays as it is.
    ///
    /// `dir` is the unit vector along the heading that `aim` returns for the
    /// same match, input, time and screen, each component in millionths.
    pub fn frame(&mut self, input: &Input, dir: Vec2, dt: u32, screen: Size) -> (struck: Option<
        Side,
    >)
        requires
            old(self).wf(),
            !old(self).out ==> PADDLE_HEIGHT <= screen.h,
        ensures
            *final(self) == old(self).framed(*input, dir, dt, screen),
            struck == old(self).struck(*input, dt),
            final(self).wf(),
    {
        if self.out {
            return None;
        }
        let struck = self.play(input, dt, screen);
        self.puck.update(dir, dt, screen);
        self.left.update(screen);
        self.right.update(screen);
        if self.left.score() > MAX_SCORE / 2 {
            self.win = Some(Side::Left);
            self.out = true;
        }
        if self.right.score() > MAX_SCORE / 2 {
            self.win = Some(Side::Right);
            self.out = true;
        }
        struck
    }
}

/// A goal: in a match in play whose puck touches no paddle once the paddles
/// have moved, a puck beyond the right edge gives the left side exactly one
/// point, one beyond the left edge gives the right side exactly one point,
/// the other side keeps its points, and the puck starts again from the centre
/// with the heading of a fresh puck. A puck between the edges changes no
/// score. Where the point gives its side the majority, the same frame ends
/// with the match out and that side the winner.
pub proof fn lemma_goal(state: State, input: Input, dir: Vec2, dt: u32, screen: Size)
    requires
        state.wf(),
        !state.out,
        state.struck(input, dt) is None,
    ensures
        ({
            let played = state.played(input, dt, screen);
            let framed = state.framed(input, dir, dt, screen);
            &&& framed.left.score == played.left.score
            &&& framed.right.score == played.right.score
            &&& framed.puck == played.puck.updated(dir, dt, screen)
            &&& state.puck.pos.x > screen.w ==> {
                &&& played.left.score == state.left.score + 1
                &&& played.right.score == state.right.score
                &&& played.puck == Puck::initial(screen)
            }
            &&& state.puck.pos.x < 0 ==> {
                &&& played.right.score == state.right.score + 1
                &&& played.left.score == state.left.score
                &&& played.puck == Puck::initial(screen)
            }
            &&& 0 <= state.puck.pos.x <= screen.w ==> {
                &&& played.left.score == state.left.score
                &&& played.right.score == state.right.score
                &&& played.puck == state.puck
            }
            &&& state.puck.pos.x > screen.w && state.left.score == MAX_SCORE / 2 ==> framed.out
                && framed.win == Some(Side::Left)
            &&& state.puck.pos.x < 0 && state.right.score == MAX_SCORE / 2 ==> framed.out
                && framed.win == Some(Side::Right)
        }),
{
}

/// A strike: in a match in play whose puck touches a paddle once the paddles
/// have moved, no score changes whatever the puck's position, and the puck
/// only changes its heading before it moves.
pub proof fn lemma_strike(state: State, input: Input, dir: Vec2, dt: u32, screen: Size)
    requires
        state.wf(),
        !state.out,
        state.struck(input, dt) is Some,
    ensures
        ({
            let steered = state.steered(input, dt);
            let paddle = if state.struck(input, dt) == Some(Side::Right) {
                steered.right
            } else {
                steered.left
            };
            let played = state.played(input, dt, screen);
            let framed = state.framed(input, dir, dt, screen);
            &&& state.puck.circle().overlaps(paddle.rect())
            &&& played.puck == state.puck.turned(
                reflection_angle(state.puck.pos.y - paddle.pos.y, PADDLE_HEIGHT as int) as i32,
                paddle.side,
            )
            &&& framed.left.score == state.left.score
            &&& framed.right.score == state.right.score
            &&& framed.win is None
            &&& !framed.out
        }),
{
}

/// The round ends exactly when a side reaches the majority of the points: a
/// frame of a match in play raises at most one score, by one; afterwards the
/// match is out if and only if a side holds one point more than half of the
/// points, and that side is the winner; while both hold fewer the match stays
/// in play without a winner.
pub proof fn lemma_round_ends_at_majority(
    state: State,
    input: Input,
    dir: Vec2,
    dt: u32,
    screen: Size,
)
    requires
        state.wf(),
        !state.out,
    ensures
        ({
            let framed = state.framed(input, dir, dt, screen);
            let majority = MAX_SCORE / 2 + 1;
            &&& state.left.score <= framed.left.score <= state.left.score + 1
            &&& state.right.score <= framed.right.score <= state.right.score + 1
            &&& framed.left.score + framed.right.score <= state.left.score + state.right.score
                + 1
            &&& framed.out <==> framed.left.score == majority || framed.right.score == majority
            &&& framed.win == Some(Side::Left) <==> framed.left.score == majority
            &&& framed.win == Some(Side::Right) <==> framed.right.score == majority
            &&& framed.win is None <==> !framed.out
        }),
{
}

/// What a frame keeps: a match that is out stays as it is; in a match in
/// play each paddle keeps its side, its extent and its horizontal position
/// and, on a screen that is as high as a paddle, ends the frame on the
/// screen; and the puck keeps its radius and its horizontal speed.
pub proof fn lemma_frame_keeps(state: State, input: Input, dir: Vec2, dt: u32, screen: Size)
    requires
        state.wf(),
    ensures
        ({
            let framed = state.framed(input, dir, dt, screen);
            &&& state.out ==> framed == state
            &&& framed.wf()
            &&& framed.left.pos.x == state.left.pos.x
            &&& framed.right.pos.x == state.right.pos.x
            &&& PADDLE_HEIGHT <= screen.h && !state.out ==> framed.left.on_screen(screen)
                && framed.right.on_screen(screen)
            &&& framed.puck.radius == state.puck.radius
            &&& framed.puck.speed.x == state.puck.speed.x
        }),
{
}

/// A restart forgets the match before it: whatever the scores and whoever
/// had won, both scores are zero, there is no winner, the match is in play,
/// and puck and paddles are where a match starts.
pub proof fn lemma_restart_forgets(screen: Size)
    ensures
        ({
            let fresh = State::restarted(screen);
            &&& fresh.left.score == 0
            &&& fresh.right.score == 0
            &&& fresh.win is None
            &&& !fresh.out
            &&& fresh.puck == Puck::initial(screen)
            &&& fresh.left == Paddle::initial(Side::Left, PADDLE_OFFSET, screen)
            &&& fresh.right == Paddle::initial(Side::Right, PADDLE_OFFSET, screen)
            &&& fresh.wf()
        }),
{
}

} // verus!
