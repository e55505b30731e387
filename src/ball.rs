use vstd::prelude::*;

use rand::Rng;

use crate::bat::{Bat, MICROS_PER_SECOND};
use crate::geometry::{rects_overlap, Point, Rect, Velocity, SCREEN_HEIGHT, SCREEN_WIDTH, UNIT};
use crate::impact::Impact;

verus! {

/// Side of the ball's square bounding box, in millipixels.
pub const BALL_SIZE: i64 = 24_000;

/// Speed multiplier at spawn, in tenths.
pub const BASE_SPEED: u32 = 10;

/// Largest speed multiplier, in tenths.
pub const MAX_SPEED: u32 = 30;

/// Tenths in one unit of the speed multiplier.
pub const SPEED_SCALE: u64 = 10;

/// Longest tick the ball can be advanced by at once, in microseconds.
pub const MAX_TICK_MICROS: u64 = 1_000_000_000;

/// Farthest the ball can travel along one axis in one tick, in millipixels.
pub const MAX_SHIFT: i64 = 750_000_000;

/// Farthest from the origin the ball may stand along either axis, in millipixels.
pub const POS_LIMIT: i64 = 1_000_000_000_000;

/// How far to the left of the ball an impact effect appears, in millipixels.
pub const IMPACT_OFFSET_X: i64 = 10_000;

/// What one contact check between the ball and a paddle gave.
#[derive(Clone, Copy, Debug, PartialEq, Eq, Structural)]
pub struct Contact {
    /// The ball touched the paddle: a new impact effect was spawned and its sound is due.
    pub hit: bool,
    /// The ball left the screen behind the other paddle: this paddle scored.
    pub goal: bool,
}

/// The ball: it moves, bounces off the top and bottom edges, speeds up over time,
/// is sent back by paddles and is put back in the centre after a goal.
#[derive(Clone, Copy, Debug, PartialEq, Eq, Structural)]
pub struct Ball {
    /// Top-left corner of the ball.
    pub position: Point,
    /// Direction and base speed, in pixels per second.
    pub velocity: Velocity,
    /// Speed multiplier, in tenths.
    pub speed: u32,
    /// The ball's bounding box.
    pub collider: Rect,
    /// The impact effect of the latest hit, if any.
    pub impact: Option<Impact>,
}

pub open spec fn abs(v: int) -> int {
    if v < 0 {
        -v
    } else {
        v
    }
}

/// The bounding box of a ball at `p`.
pub open spec fn box_at(p: Point) -> Rect {
    Rect { x: p.x, y: p.y, w: BALL_SIZE, h: BALL_SIZE }
}

/// The screen's centre, where a ball spawns.
pub open spec fn centre() -> Point {
    Point { x: (SCREEN_WIDTH / 2) as i64, y: (SCREEN_HEIGHT / 2) as i64 }
}

/// A velocity that a ball may spawn with: each component's magnitude lies in
/// `[MIN_VELOCITY, MAX_VELOCITY)`, either sign.
pub open spec fn valid_start_velocity(v: Velocity) -> bool {
    &&& Ball::MIN_VELOCITY <= abs(v.x as int) < Ball::MAX_VELOCITY
    &&& Ball::MIN_VELOCITY <= abs(v.y as int) < Ball::MAX_VELOCITY
}

/// Displacement along one axis, in millipixels, of a ball moving at `v` pixels per
/// second with multiplier `speed` tenths for `dt_us` microseconds, truncated toward zero.
pub open spec fn shift(v: i64, speed: u32, dt_us: u64) -> int {
    let magnitude = (abs(v as int) * speed * UNIT * dt_us) / ((SPEED_SCALE * MICROS_PER_SECOND) as int);
    if v < 0 {
        -magnitude
    } else {
        magnitude
    }
}

/// Whether a ball whose top now stands at `y`, moving vertically at `vy`, has crossed
/// the screen edge it moves toward.
pub open spec fn bounces(y: int, vy: i64) -> bool {
    ||| vy < 0 && y < 0
    ||| vy > 0 && y + BALL_SIZE > SCREEN_HEIGHT
}

/// The speed multiplier after tick number `tick`: one tenth more every
/// `BALL_SPEED_UPDATE_RATE` ticks, up to `MAX_SPEED`.
pub open spec fn ramped(speed: u32, tick: u64) -> u32 {
    if tick % Ball::BALL_SPEED_UPDATE_RATE == 0 {
        if speed + 1 > MAX_SPEED {
            MAX_SPEED
        } else {
            (speed + 1) as u32
        }
    } else {
        speed
    }
}

/// Whether the ball has left the screen on the side that the given paddle attacks:
/// past the right edge for the left paddle, past the left edge for the right one.
pub open spec fn goal_for(ball: Ball, is_bat1: bool) -> bool {
    if is_bat1 {
        ball.position.x + BALL_SIZE > SCREEN_WIDTH
    } else {
        ball.position.x < 0
    }
}

/// A ball moves by at most `MAX_SHIFT` along an axis in one tick, in the direction of
/// its velocity along that axis.
pub proof fn lemma_shift_bounds(v: i64, speed: u32, dt_us: u64)
    requires
        abs(v as int) <= Ball::MAX_VELOCITY,
        speed <= MAX_SPEED,
        dt_us <= MAX_TICK_MICROS,
    ensures
        abs(shift(v, speed, dt_us)) <= MAX_SHIFT,
        v >= 0 ==> shift(v, speed, dt_us) >= 0,
        v <= 0 ==> shift(v, speed, dt_us) <= 0,
{
    let a = abs(v as int);
    let num = a * speed * UNIT * dt_us;
    assert(0 <= num <= 7_500_000_000_000_000) by (nonlinear_arith)
        requires
            num == a * speed * 1000 * dt_us,
            0 <= a <= 250,
            0 <= speed <= 30,
            0 <= dt_us <= 1_000_000_000,
    ;
    assert(0 <= num / 10_000_000 <= 750_000_000) by (nonlinear_arith)
        requires
            0 <= num <= 7_500_000_000_000_000,
    ;
    if v == 0 {
        assert(num == 0) by (nonlinear_arith)
            requires
                num == a * speed * UNIT * dt_us,
                a == 0,
        ;
    }
}

/// Relies on rand's `thread_rng` and `Rng::gen_range`: a value of the half-open range
/// `[low, high)`, which must not be empty.
#[verifier::external_body]
fn random_in_range(low: i64, high: i64) -> (r: i64)
    requires
        low < high,
    ensures
        low <= r < high,
{
    rand::thread_rng().gen_range(low..high)
}

/// Relies on rand's `thread_rng` and `Rng::gen` for a `bool`: a coin toss.
#[verifier::external_body]
fn random_bool() -> (r: bool) {
    rand::thread_rng().gen::<bool>()
}

impl Ball {
    /// Largest magnitude of a velocity component at spawn (excluded), pixels per second.
    pub const MAX_VELOCITY: i64 = 250;

    /// Smallest magnitude of a velocity component at spawn, pixels per second.
    pub const MIN_VELOCITY: i64 = 150;

    /// Ticks between two speed increments.
    pub const BALL_SPEED_UPDATE_RATE: u64 = 100;

    /// Whether the ball's fields agree with one another.
    pub open spec fn wf(&self) -> bool {
        &&& BASE_SPEED <= self.speed <= MAX_SPEED
        &&& abs(self.velocity.x as int) <= Ball::MAX_VELOCITY
        &&& abs(self.velocity.y as int) <= Ball::MAX_VELOCITY
        &&& self.collider == box_at(self.position)
        &&& (self.impact matches Some(i) ==> i.wf())
    }

    /// Whether the ball is close enough to the screen for its motion to be computed.
    pub open spec fn in_range(&self) -> bool {
        &&& -POS_LIMIT <= self.position.x <= POS_LIMIT
        &&& -POS_LIMIT <= self.position.y <= POS_LIMIT
    }

    /// A ball at `pos` moving at `v`, with the base multiplier and no impact effect.
    pub open spec fn spawned(pos: Point, v: Velocity) -> Ball {
        Ball { position: pos, velocity: v, speed: BASE_SPEED, collider: box_at(pos), impact: None }
    }

    /// The ball after one update of `dt_us` microseconds on tick number `tick`.
    pub open spec fn updated(self, dt_us: u64, tick: u64) -> Ball {
        let p = Point {
            x: (self.position.x + shift(self.velocity.x, self.speed, dt_us)) as i64,
            y: (self.position.y + shift(self.velocity.y, self.speed, dt_us)) as i64,
        };
        let vy = if bounces(p.y as int, self.velocity.y) {
            -self.velocity.y
        } else {
            self.velocity.y as int
        };
        Ball {
            position: p,
            velocity: Velocity { x: self.velocity.x, y: vy as i64 },
            speed: ramped(self.speed, tick),
            collider: box_at(p),
            impact: self.impact,
        }
    }

    /// The ball after the hit part of a contact check: a new impact effect and a
    /// horizontal velocity pointing away from the paddle where the boxes overlap;
    /// then the current impact effect, if any, advances one update.
    pub open spec fn after_hit(self, bat: Bat, is_bat1: bool, frame_count: usize) -> Ball {
        let hit = rects_overlap(self.collider, bat.collider);
        let b = if hit {
            let vx = if is_bat1 {
                abs(self.velocity.x as int)
            } else {
                -abs(self.velocity.x as int)
            };
            Ball {
                velocity: Velocity { x: vx as i64, y: self.velocity.y },
                impact: Some(
                    Impact::spawned(
                        Point { x: (self.position.x - IMPACT_OFFSET_X) as i64, y: self.position.y },
                        frame_count,
                    ),
                ),
                ..self
            }
        } else {
            self
        };
        match b.impact {
            Some(i) => Ball { impact: Some(i.stepped()), ..b },
            None => b,
        }
    }

    /// The ball, the paddle and the report after one contact check against `bat`,
    /// where `fresh` is the velocity the ball takes if it is put back in the centre.
    pub open spec fn after_contact(self, bat: Bat, is_bat1: bool, frame_count: usize, fresh: Velocity) -> (Ball, Bat, Contact) {
        let hit = rects_overlap(self.collider, bat.collider);
        let b = self.after_hit(bat, is_bat1, frame_count);
        if goal_for(self, is_bat1) {
            (
                Ball { impact: b.impact, ..Ball::spawned(centre(), fresh) },
                Bat { score: (bat.score + 1) as u32, ..bat },
                Contact { hit, goal: true },
            )
        } else {
            (b, bat, Contact { hit, goal: false })
        }
    }

    /// A ball at `pos` moving at `v`, with the base multiplier and no impact effect.
    pub fn with_velocity(pos: Point, v: Velocity) -> (r: Ball)
        requires
            abs(v.x as int) <= Ball::MAX_VELOCITY,
            abs(v.y as int) <= Ball::MAX_VELOCITY,
        ensures
            r == Ball::spawned(pos, v),
            r.wf(),
    {
        Ball {
            position: pos,
            velocity: v,
            speed: BASE_SPEED,
            collider: Rect::new(pos.x, pos.y, BALL_SIZE, BALL_SIZE),
            impact: None,
        }
    }

    /// A ball at `pos` with a freshly drawn start velocity.
    pub fn new(pos: Point) -> (r: Ball)
        ensures
            r.wf(),
            valid_start_velocity(r.velocity),
            r == Ball::spawned(pos, r.velocity),
    {
        let v = Ball::random_start_vec();
        Ball::with_velocity(pos, v)
    }

    /// A start velocity: each magnitude drawn in `[MIN_VELOCITY, MAX_VELOCITY)`, each
    /// sign drawn by a coin toss.
    pub fn random_start_vec() -> (r: Velocity)
        ensures
            valid_start_velocity(r),
    {
        let mag_x = random_in_range(Ball::MIN_VELOCITY, Ball::MAX_VELOCITY);
        let mag_y = random_in_range(Ball::MIN_VELOCITY, Ball::MAX_VELOCITY);
        let neg_x = random_bool();
        let neg_y = random_bool();
        Ball::start_velocity(mag_x, mag_y, neg_x, neg_y)
    }

    /// The start velocity with magnitudes `mag_x` and `mag_y`, each component negated
    /// where its coin toss came up.
    pub fn start_velocity(mag_x: i64, mag_y: i64, neg_x: bool, neg_y: bool) -> (r: Velocity)
        requires
            Ball::MIN_VELOCITY <= mag_x < Ball::MAX_VELOCITY,
            Ball::MIN_VELOCITY <= mag_y < Ball::MAX_VELOCITY,
        ensures
            r == (Velocity {
                x: if neg_x {
                    -mag_x
                } else {
                    mag_x as int
                } as i64,
                y: if neg_y {
                    -mag_y
                } else {
                    mag_y as int
                } as i64,
            }),
            valid_start_velocity(r),
    {
        let x = if neg_x {
            -mag_x
        } else {
            mag_x
        };
        let y = if neg_y {
            -mag_y
        } else {
            mag_y
        };
        Velocity { x, y }
    }

    fn shift(v: i64, speed: u32, dt_us: u64) -> (r: i64)
        requires
            abs(v as int) <= Ball::MAX_VELOCITY,
            speed <= MAX_SPEED,
            dt_us <= MAX_TICK_MICROS,
        ensures
            r == shift(v, speed, dt_us),
            abs(r as int) <= MAX_SHIFT,
    {
        let m: u64 = if v < 0 {
            (-v) as u64
        } else {
            v as u64
        };
        assert(m * speed <= 7500) by (nonlinear_arith)
            requires
                m <= 250,
                speed <= 30,
        ;
        let ms = m as u128 * speed as u128;
        assert(ms <= 7500);
        let unit = UNIT as u128;
        assert(unit == 1000);
        let scaled = ms * unit;
        assert(scaled * dt_us <= 7_500_000_000_000_000) by (nonlinear_arith)
            requires
                scaled <= 7_500_000,
                dt_us <= 1_000_000_000,
        ;
        let num = scaled * dt_us as u128;
        let den = (SPEED_SCALE * MICROS_PER_SECOND) as u128;
        assert(num / den <= 750_000_000) by (nonlinear_arith)
            requires
                num <= 7_500_000_000_000_000,
                den == 10_000_000,
        ;
        let magnitude = (num / den) as i64;
        if v < 0 {
            -magnitude
        } else {
            magnitude
        }
    }

    /// Moves the ball for `dt_us` microseconds at its velocity times its multiplier,
    /// turns its vertical direction around where its box has crossed the top edge
    /// moving up or the bottom edge moving down, and on every `BALL_SPEED_UPDATE_RATE`th
    /// tick raises the multiplier by a tenth, up to `MAX_SPEED`. The horizontal
    /// velocity is left alone.
    pub fn update(&mut self, dt_us: u64, tick: u64)
        requires
            old(self).wf(),
            old(self).in_range(),
            dt_us <= MAX_TICK_MICROS,
        ensures
            *final(self) == old(self).updated(dt_us, tick),
            final(self).wf(),
            final(self).velocity.x == old(self).velocity.x,
            final(self).velocity.y == if bounces(final(self).position.y as int, old(self).velocity.y) {
                -old(self).velocity.y
            } else {
                old(self).velocity.y as int
            },
            old(self).speed <= final(self).speed <= MAX_SPEED,
    {
        let dx = Ball::shift(self.velocity.x, self.speed, dt_us);
        let dy = Ball::shift(self.velocity.y, self.speed, dt_us);
        self.position.x = self.position.x + dx;
        self.position.y = self.position.y + dy;
        self.collider.x = self.position.x;
        self.collider.y = self.position.y;
        if self.velocity.y < 0 && self.collider.y < 0 || self.velocity.y > 0 && self.collider.y
            + BALL_SIZE > SCREEN_HEIGHT {
            self.velocity.y = -self.velocity.y;
        }
        if tick % Ball::BALL_SPEED_UPDATE_RATE == 0 {
            self.speed = self.speed + 1;
        }
        if self.speed >= MAX_SPEED {
            self.speed = MAX_SPEED;
        }
    }

    /// Puts the ball back in the centre at velocity `v` and the base multiplier; the
    /// impact effect stays.
    fn reset(&mut self, v: Velocity)
        requires
            abs(v.x as int) <= Ball::MAX_VELOCITY,
            abs(v.y as int) <= Ball::MAX_VELOCITY,
        ensures
            *final(self) == (Ball { impact: old(self).impact, ..Ball::spawned(centre(), v) }),
    {
        self.position = Point::new(SCREEN_WIDTH / 2, SCREEN_HEIGHT / 2);
        self.collider = Rect::new(self.position.x, self.position.y, BALL_SIZE, BALL_SIZE);
        self.speed = BASE_SPEED;
        self.velocity = v;
    }

    /// Checks the ball against `bat`, the left paddle where `is_bat1` holds. Where the
    /// boxes overlap, a new impact effect over `frame_count` frames replaces the old one
    /// and the horizontal velocity is made to point away from the paddle. The current
    /// impact effect then advances. Where the ball has left the screen on the side this
    /// paddle attacks, the paddle scores and the ball is put back in the centre moving
    /// at `fresh`.
    pub fn resolve_contact(&mut self, bat: &mut Bat, is_bat1: bool, frame_count: usize, fresh: Velocity) -> (r: Contact)
        requires
            old(self).wf(),
            old(self).in_range(),
            frame_count >= 1,
            old(bat).score < u32::MAX,
            abs(fresh.x as int) <= Ball::MAX_VELOCITY,
            abs(fresh.y as int) <= Ball::MAX_VELOCITY,
        ensures
            (*final(self), *final(bat), r) == old(self).after_contact(*old(bat), is_bat1, frame_count, fresh),
            final(self).wf(),
    {
        let hit = self.collider.overlaps(&bat.collider);
        if hit {
            let impact_position = Point::new(self.position.x - IMPACT_OFFSET_X, self.position.y);
            self.impact = Some(Impact::new(impact_position, frame_count));
            if is_bat1 {
                if self.velocity.x < 0 {
                    self.velocity.x = -self.velocity.x;
                }
            } else {
                if self.velocity.x > 0 {
                    self.velocity.x = -self.velocity.x;
                }
            }
        }
        match &mut self.impact {
            Some(i) => {
                i.update();
            },
            None => {},
        }
        let goal = if is_bat1 {
            self.position.x + BALL_SIZE > SCREEN_WIDTH
        } else {
            self.position.x < 0
        };
        if goal {
            bat.score = bat.score + 1;
            self.reset(fresh);
        }
        Contact { hit, goal }
    }

    /// `resolve_contact` with a freshly drawn start velocity for the case of a goal.
    pub fn collision_with_bat(&mut self, bat: &mut Bat, is_bat1: bool, frame_count: usize) -> (r: Contact)
        requires
            old(self).wf(),
            old(self).in_range(),
            frame_count >= 1,
            old(bat).score < u32::MAX,
        ensures
            exists|v: Velocity|
                valid_start_velocity(v) && (*final(self), *final(bat), r) == #[trigger] old(
                    self,
                ).after_contact(*old(bat), is_bat1, frame_count, v),
            final(self).wf(),
            r.goal == goal_for(*old(self), is_bat1),
            r.goal ==> {
                &&& final(bat).score == old(bat).score + 1
                &&& final(self).position == centre()
                &&& final(self).speed == BASE_SPEED
                &&& valid_start_velocity(final(self).velocity)
            },
            !r.goal ==> *final(bat) == *old(bat),
            r.hit && !r.goal ==> if is_bat1 {
                final(self).velocity.x >= 0
            } else {
                final(self).velocity.x <= 0
            },
    {
        let fresh = Ball::random_start_vec();
        proof {
            old(self).lemma_goal(*old(bat), is_bat1, frame_count, fresh);
            old(self).lemma_hit_direction(*old(bat), is_bat1, frame_count, fresh);
        }
        self.resolve_contact(bat, is_bat1, frame_count, fresh)
    }

    /// Right after a contact check that scores no goal, a ball that touched the left
    /// paddle moves right or not at all horizontally, and one that touched the right
    /// paddle moves left or not at all.
    pub proof fn lemma_hit_direction(self, bat: Bat, is_bat1: bool, frame_count: usize, fresh: Velocity)
        requires
            self.wf(),
        ensures
            ({
                let (b, _, c) = self.after_contact(bat, is_bat1, frame_count, fresh);
                c.hit && !c.goal ==> if is_bat1 {
                    b.velocity.x >= 0
                } else {
                    b.velocity.x <= 0
                }
            }),
    {
    }

    /// A goal adds exactly one to the scoring paddle, and puts the ball back in the
    /// centre at the base multiplier, moving at the fresh velocity. Without a goal the
    /// score stays.
    pub proof fn lemma_goal(self, bat: Bat, is_bat1: bool, frame_count: usize, fresh: Velocity)
        requires
            bat.score < u32::MAX,
        ensures
            ({
                let (b, t, c) = self.after_contact(bat, is_bat1, frame_count, fresh);
                &&& c.goal == goal_for(self, is_bat1)
                &&& c.goal ==> {
                    &&& t.score == bat.score + 1
                    &&& b.position == centre()
                    &&& b.speed == BASE_SPEED
                    &&& b.velocity == fresh
                }
                &&& !c.goal ==> t == bat
                &&& t.position == bat.position
            }),
    {
    }
}

} // verus!
