use vstd::prelude::*;

use crate::ball::{
    abs, centre, lemma_shift_bounds, valid_start_velocity, Ball, Contact, BALL_SIZE, BASE_SPEED, MAX_SHIFT, MAX_SPEED,
    MAX_TICK_MICROS,
};
use crate::bat::Bat;
use crate::geometry::{Point, Velocity, SCREEN_HEIGHT, SCREEN_WIDTH};

verus! {

/// Score that wins the match.
pub const WIN_SCORE: u32 = 10;

/// Horizontal position of the left paddle at the start, in millipixels.
pub const BAT1_START_X: i64 = 0;

/// Horizontal position of the right paddle at the start, in millipixels.
pub const BAT2_START_X: i64 = 650_000;

/// Vertical position of both paddles at the start, in millipixels.
pub const BAT_START_Y: i64 = 150_000;

/// Phase of a match.
#[derive(Clone, Copy, Debug, PartialEq, Eq, Structural)]
pub enum State {
    Running,
    Over,
    Menu,
}

/// A side of the table.
#[derive(Clone, Copy, Debug, PartialEq, Eq, Structural)]
pub enum Side {
    Left,
    Right,
}

/// The keys held during a tick.
#[derive(Clone, Copy, Debug, PartialEq, Eq, Structural)]
pub struct Keys {
    /// Moves the left paddle up.
    pub w: bool,
    /// Moves the left paddle down.
    pub s: bool,
    /// Moves the right paddle up.
    pub up: bool,
    /// Moves the right paddle down.
    pub down: bool,
    /// Starts the match.
    pub space: bool,
}

/// What happened during a tick, for the sounds to play.
#[derive(Clone, Copy, Debug, PartialEq, Eq, Structural)]
pub struct TickEvents {
    /// The contact check against the left paddle.
    pub left: Contact,
    /// The contact check against the right paddle.
    pub right: Contact,
}

/// A match: two paddles, a ball, and its phase.
#[derive(Clone, Copy, Debug, PartialEq, Eq, Structural)]
pub struct GameState {
    /// Length of the latest running tick, in microseconds.
    pub dt: u64,
    /// The left paddle.
    pub bat1: Bat,
    /// The right paddle.
    pub bat2: Bat,
    pub ball: Ball,
    pub state: State,
    /// Number of frames of the impact animation.
    pub impact_frames: usize,
}

pub open spec fn quiet() -> TickEvents {
    TickEvents { left: Contact { hit: false, goal: false }, right: Contact { hit: false, goal: false } }
}

/// Whether the ball stands where a tick leaves it: horizontally on the screen, and
/// vertically at most one tick's travel beyond an edge, already heading back.
pub open spec fn ball_in_field(b: Ball) -> bool {
    &&& 0 <= b.position.x <= SCREEN_WIDTH
    &&& -MAX_SHIFT <= b.position.y <= SCREEN_HEIGHT + MAX_SHIFT
    &&& b.position.y < 0 ==> b.velocity.y >= 0
    &&& b.position.y + BALL_SIZE > SCREEN_HEIGHT ==> b.velocity.y <= 0
}

/// Whether someone has reached the winning score.
pub open spec fn someone_won(bat1: Bat, bat2: Bat) -> bool {
    bat1.score >= WIN_SCORE || bat2.score >= WIN_SCORE
}

impl GameState {
    pub open spec fn wf(&self) -> bool {
        &&& self.bat1.wf()
        &&& self.bat2.wf()
        &&& self.ball.wf()
        &&& ball_in_field(self.ball)
        &&& self.impact_frames >= 1
        &&& self.bat1.score <= WIN_SCORE
        &&& self.bat2.score <= WIN_SCORE
        &&& (self.state == State::Over <==> someone_won(self.bat1, self.bat2))
    }

    /// The match and the tick's events after one tick with `keys` held for `dt_us`
    /// microseconds on tick number `tick`, where `fresh1` and `fresh2` are the velocities
    /// the ball takes if it is put back in the centre after the first or second
    /// contact check.
    pub open spec fn advanced(self, keys: Keys, dt_us: u64, tick: u64, fresh1: Velocity, fresh2: Velocity) -> (GameState, TickEvents) {
        match self.state {
            State::Running => {
                let b1 = self.bat1.updated(dt_us, keys.w, keys.s);
                let b2 = self.bat2.updated(dt_us, keys.up, keys.down);
                let ball = self.ball.updated(dt_us, tick);
                let (ball1, bat1, left) = ball.after_contact(b1, true, self.impact_frames, fresh1);
                let (ball2, bat2, right) = ball1.after_contact(b2, false, self.impact_frames, fresh2);
                let state = if someone_won(bat1, bat2) {
                    State::Over
                } else {
                    State::Running
                };
                (
                    GameState { dt: dt_us, bat1, bat2, ball: ball2, state, ..self },
                    TickEvents { left, right },
                )
            },
            State::Menu => {
                if keys.space {
                    (GameState { state: State::Running, ..self }, quiet())
                } else {
                    (self, quiet())
                }
            },
            State::Over => (self, quiet()),
        }
    }

    /// A match in the menu with the given paddles and ball.
    pub fn with_parts(bat1: Bat, bat2: Bat, ball: Ball, impact_frames: usize) -> (r: GameState)
        requires
            bat1.wf(),
            bat2.wf(),
            ball.wf(),
            ball_in_field(ball),
            impact_frames >= 1,
            bat1.score < WIN_SCORE,
            bat2.score < WIN_SCORE,
        ensures
            r == (GameState { dt: 0, bat1, bat2, ball, state: State::Menu, impact_frames }),
            r.wf(),
    {
        GameState { dt: 0, bat1, bat2, ball, state: State::Menu, impact_frames }
    }

    /// A match in the menu: paddles at their start positions with the given sprite
    /// sizes, and the ball in the centre with a freshly drawn velocity.
    pub fn new(bat1_width: i64, bat1_height: i64, bat2_width: i64, bat2_height: i64, impact_frames: usize) -> (r: GameState)
        requires
            0 <= bat1_width <= SCREEN_WIDTH,
            0 <= bat2_width <= SCREEN_WIDTH,
            0 <= bat1_height <= SCREEN_HEIGHT - BAT_START_Y,
            0 <= bat2_height <= SCREEN_HEIGHT - BAT_START_Y,
            impact_frames >= 1,
        ensures
            r.wf(),
            r.state == State::Menu,
            r.bat1 == Bat::new_spec((Point { x: BAT1_START_X, y: BAT_START_Y }), bat1_width, bat1_height),
            r.bat2 == Bat::new_spec((Point { x: BAT2_START_X, y: BAT_START_Y }), bat2_width, bat2_height),
            r.ball == Ball::spawned(centre(), r.ball.velocity),
            valid_start_velocity(r.ball.velocity),
            r.dt == 0,
            r.impact_frames == impact_frames,
    {
        let bat1 = Bat::new(Point::new(BAT1_START_X, BAT_START_Y), bat1_width, bat1_height);
        let bat2 = Bat::new(Point::new(BAT2_START_X, BAT_START_Y), bat2_width, bat2_height);
        let ball = Ball::new(Point::new(SCREEN_WIDTH / 2, SCREEN_HEIGHT / 2));
        GameState::with_parts(bat1, bat2, ball, impact_frames)
    }

    pub fn state(&self) -> (r: State)
        ensures
            r == self.state,
    {
        self.state
    }

    /// The side that won: the left paddle where it has the winning score, which
    /// settles a tie in its favour, else the right one.
    pub fn winner(&self) -> (r: Side)
        ensures
            r == if self.bat1.score >= WIN_SCORE {
                Side::Left
            } else {
                Side::Right
            },
    {
        if self.bat1.score >= WIN_SCORE {
            Side::Left
        } else {
            Side::Right
        }
    }

    fn check_winner_condition(&mut self)
        ensures
            *final(self) == (if someone_won(old(self).bat1, old(self).bat2) {
                GameState { state: State::Over, ..*old(self) }
            } else {
                *old(self)
            }),
    {
        if self.bat1.score >= WIN_SCORE || self.bat2.score >= WIN_SCORE {
            self.state = State::Over;
        }
    }

    /// One tick. In the menu, `space` starts the match. While running, both paddles
    /// move on their keys, the ball moves, the ball is checked against the left paddle
    /// and then the right one (the ball taking `fresh1` or `fresh2` where a goal puts
    /// it back in the centre), and the match is over once a score reaches
    /// `WIN_SCORE`. Once over, nothing changes.
    pub fn advance(&mut self, keys: Keys, dt_us: u64, tick: u64, fresh1: Velocity, fresh2: Velocity) -> (r: TickEvents)
        requires
            old(self).wf(),
            dt_us <= MAX_TICK_MICROS,
            abs(fresh1.x as int) <= Ball::MAX_VELOCITY,
            abs(fresh1.y as int) <= Ball::MAX_VELOCITY,
            abs(fresh2.x as int) <= Ball::MAX_VELOCITY,
            abs(fresh2.y as int) <= Ball::MAX_VELOCITY,
        ensures
            (*final(self), r) == old(self).advanced(keys, dt_us, tick, fresh1, fresh2),
            final(self).wf(),
    {
        match self.state {
            State::Running => {
                self.dt = dt_us;
                self.bat1.update(dt_us, keys.w, keys.s);
                self.bat2.update(dt_us, keys.up, keys.down);
                proof {
                    lemma_shift_bounds(self.ball.velocity.x, self.ball.speed, dt_us);
                    lemma_shift_bounds(self.ball.velocity.y, self.ball.speed, dt_us);
                }
                self.ball.update(dt_us, tick);
                let frames = self.impact_frames;
                let left = self.ball.resolve_contact(&mut self.bat1, true, frames, fresh1);
                let right = self.ball.resolve_contact(&mut self.bat2, false, frames, fresh2);
                self.check_winner_condition();
                TickEvents { left, right }
            },
            State::Menu => {
                if keys.space {
                    self.state = State::Running;
                }
                TickEvents {
                    left: Contact { hit: false, goal: false },
                    right: Contact { hit: false, goal: false },
                }
            },
            State::Over => TickEvents {
                left: Contact { hit: false, goal: false },
                right: Contact { hit: false, goal: false },
            },
        }
    }

    /// `advance` with freshly drawn start velocities for the case of a goal.
    pub fn update(&mut self, keys: Keys, dt_us: u64, tick: u64) -> (r: TickEvents)
        requires
            old(self).wf(),
            dt_us <= MAX_TICK_MICROS,
        ensures
            exists|fresh1: Velocity, fresh2: Velocity|
                {
                    &&& valid_start_velocity(fresh1)
                    &&& valid_start_velocity(fresh2)
                    &&& (*final(self), r) == #[trigger] old(self).advanced(keys, dt_us, tick, fresh1, fresh2)
                },
            final(self).wf(),
            final(self).state == State::Running ==> {
                &&& final(self).bat1.score < WIN_SCORE
                &&& final(self).bat2.score < WIN_SCORE
            },
            old(self).state == State::Running ==> {
                &&& final(self).state == State::Over <==> (final(self).bat1.score == WIN_SCORE
                    || final(self).bat2.score == WIN_SCORE)
                &&& !(r.left.goal && r.right.goal)
                &&& final(self).bat1.score == old(self).bat1.score + if r.left.goal {
                    1int
                } else {
                    0int
                }
                &&& final(self).bat2.score == old(self).bat2.score + if r.right.goal {
                    1int
                } else {
                    0int
                }
                &&& r.left.goal || r.right.goal ==> {
                    &&& final(self).ball.position == centre()
                    &&& final(self).ball.speed == BASE_SPEED
                    &&& valid_start_velocity(final(self).ball.velocity)
                }
            },
            old(self).state != State::Running ==> final(self).bat1 == old(self).bat1
                && final(self).bat2 == old(self).bat2 && final(self).ball == old(self).ball,
    {
        let fresh1 = Ball::random_start_vec();
        let fresh2 = Ball::random_start_vec();
        proof {
            if old(self).state == State::Running {
                old(self).lemma_win_condition(keys, dt_us, tick, fresh1, fresh2);
                old(self).lemma_goals_per_tick(keys, dt_us, tick, fresh1, fresh2);
            }
            old(self).lemma_phase_order(keys, dt_us, tick, fresh1, fresh2);
        }
        self.advance(keys, dt_us, tick, fresh1, fresh2)
    }

    /// A match only moves forward through its phases: from the menu it can only
    /// start, a running match cannot go back to the menu, and once over nothing
    /// changes.
    pub proof fn lemma_phase_order(self, keys: Keys, dt_us: u64, tick: u64, fresh1: Velocity, fresh2: Velocity)
        requires
            self.wf(),
        ensures
            self.state == State::Over ==> self.advanced(keys, dt_us, tick, fresh1, fresh2).0 == self,
            self.state == State::Menu ==> self.advanced(keys, dt_us, tick, fresh1, fresh2).0.state != State::Over,
            self.state == State::Running ==> self.advanced(keys, dt_us, tick, fresh1, fresh2).0.state != State::Menu,
    {
    }

    /// A running match is over after a tick exactly when a score has reached
    /// `WIN_SCORE` on that tick: before it, both scores were below, and each score
    /// grows by at most one per tick.
    pub proof fn lemma_win_condition(self, keys: Keys, dt_us: u64, tick: u64, fresh1: Velocity, fresh2: Velocity)
        requires
            self.wf(),
            self.state == State::Running,
        ensures
            self.bat1.score < WIN_SCORE,
            self.bat2.score < WIN_SCORE,
            self.advanced(keys, dt_us, tick, fresh1, fresh2).0.bat1.score <= self.bat1.score + 1,
            self.advanced(keys, dt_us, tick, fresh1, fresh2).0.bat2.score <= self.bat2.score + 1,
            self.advanced(keys, dt_us, tick, fresh1, fresh2).0.state == State::Over <==> (
            self.advanced(keys, dt_us, tick, fresh1, fresh2).0.bat1.score == WIN_SCORE
                || self.advanced(keys, dt_us, tick, fresh1, fresh2).0.bat2.score == WIN_SCORE),
            self.advanced(keys, dt_us, tick, fresh1, fresh2).0.state != State::Over
                ==> self.advanced(keys, dt_us, tick, fresh1, fresh2).0.state == State::Running,
    {
    }

    /// At most one goal per tick: a goal on the left paddle's check puts the ball in
    /// the centre, where the right paddle's check finds none. A goal adds exactly one
    /// to the scoring paddle and nothing to the other.
    pub proof fn lemma_goals_per_tick(self, keys: Keys, dt_us: u64, tick: u64, fresh1: Velocity, fresh2: Velocity)
        requires
            self.wf(),
            self.state == State::Running,
        ensures
            !(self.advanced(keys, dt_us, tick, fresh1, fresh2).1.left.goal
                && self.advanced(keys, dt_us, tick, fresh1, fresh2).1.right.goal),
            self.advanced(keys, dt_us, tick, fresh1, fresh2).0.bat1.score == self.bat1.score + if self.advanced(
                keys,
                dt_us,
                tick,
                fresh1,
                fresh2,
            ).1.left.goal {
                1int
            } else {
                0int
            },
            self.advanced(keys, dt_us, tick, fresh1, fresh2).0.bat2.score == self.bat2.score + if self.advanced(
                keys,
                dt_us,
                tick,
                fresh1,
                fresh2,
            ).1.right.goal {
                1int
            } else {
                0int
            },
    {
    }

    /// The speed multiplier never exceeds `MAX_SPEED`, and on a running tick without a
    /// goal it does not decrease.
    pub proof fn lemma_speed_ramp(self, keys: Keys, dt_us: u64, tick: u64, fresh1: Velocity, fresh2: Velocity)
        requires
            self.wf(),
        ensures
            self.advanced(keys, dt_us, tick, fresh1, fresh2).0.ball.speed <= MAX_SPEED,
            self.state == State::Running && !self.advanced(keys, dt_us, tick, fresh1, fresh2).1.left.goal
                && !self.advanced(keys, dt_us, tick, fresh1, fresh2).1.right.goal
                ==> self.advanced(keys, dt_us, tick, fresh1, fresh2).0.ball.speed >= self.ball.speed,
    {
    }
}

} // verus!
