use vstd::prelude::*;

use crate::geometry::{Point, Rect, SCREEN_HEIGHT, SCREEN_WIDTH, UNIT};

verus! {

/// Microseconds in one second.
pub const MICROS_PER_SECOND: u64 = 1_000_000;

/// Horizontal offset of a paddle's bounding box from its position, in millipixels.
pub const COLLIDER_OFFSET_X: i64 = 70_000;

/// Vertical offset of a paddle's bounding box from its position, in millipixels.
pub const COLLIDER_OFFSET_Y: i64 = 15_000;

/// Width of a paddle's bounding box, in millipixels.
pub const COLLIDER_WIDTH: i64 = 20_000;

/// Height of a paddle's bounding box, in millipixels.
pub const COLLIDER_HEIGHT: i64 = 125_000;

/// A paddle: it moves vertically on input and is kept inside the screen.
#[derive(Clone, Copy, Debug, PartialEq, Eq, Structural)]
pub struct Bat {
    /// Top-left corner of the paddle's sprite.
    pub position: Point,
    /// Width of the paddle's sprite, in millipixels.
    pub width: i64,
    /// Height of the paddle's sprite, in millipixels.
    pub height: i64,
    /// The box that the ball collides with.
    pub collider: Rect,
    /// Goals this paddle has scored.
    pub score: u32,
}

/// The bounding box of a paddle whose sprite stands at `p`.
pub open spec fn collider_at(p: Point) -> Rect {
    Rect {
        x: (p.x + COLLIDER_OFFSET_X) as i64,
        y: (p.y + COLLIDER_OFFSET_Y) as i64,
        w: COLLIDER_WIDTH,
        h: COLLIDER_HEIGHT,
    }
}

/// The bounding box a paddle gets when it is made, before its first update: just
/// right of its sprite, level with its top.
pub open spec fn first_collider(p: Point, width: i64) -> Rect {
    Rect { x: (p.x + width) as i64, y: p.y, w: COLLIDER_WIDTH, h: COLLIDER_HEIGHT }
}

/// How far a paddle moves in `dt_us` microseconds, in millipixels.
pub open spec fn travel(dt_us: u64) -> int {
    (dt_us as int * Bat::PLAYER_SPEED * UNIT) / (MICROS_PER_SECOND as int)
}

/// The lowest top coordinate a paddle of the given height may take.
pub open spec fn lowest_y(height: i64) -> int {
    SCREEN_HEIGHT - height
}

/// The vertical position after an upward move from `y`: clamped at the top edge.
pub open spec fn moved_up(y: int, dt_us: u64) -> int {
    if y - travel(dt_us) < 0 {
        0
    } else {
        y - travel(dt_us)
    }
}

/// The vertical position after a downward move from `y`: clamped at the bottom edge.
pub open spec fn moved_down(y: int, dt_us: u64, height: i64) -> int {
    if y + travel(dt_us) > lowest_y(height) {
        lowest_y(height)
    } else {
        y + travel(dt_us)
    }
}

/// The vertical position after one update: the upward move first, then the downward one.
pub open spec fn updated_y(y: int, dt_us: u64, up: bool, down: bool, height: i64) -> int {
    let after_up = if up {
        moved_up(y, dt_us)
    } else {
        y
    };
    if down {
        moved_down(after_up, dt_us, height)
    } else {
        after_up
    }
}

/// A paddle that starts inside the screen stays inside it after an update, whatever
/// the elapsed time and the keys held.
pub proof fn lemma_update_stays_on_screen(y: int, dt_us: u64, up: bool, down: bool, height: i64)
    requires
        0 <= height <= SCREEN_HEIGHT,
        0 <= y <= lowest_y(height),
    ensures
        0 <= updated_y(y, dt_us, up, down, height) <= lowest_y(height),
{
    assert(travel(dt_us) >= 0) by (nonlinear_arith)
        requires
            dt_us >= 0,
    ;
}

impl Bat {
    /// Paddle speed, in pixels per second.
    pub const PLAYER_SPEED: i64 = 500;

    /// The paddle after one update.
    pub open spec fn updated(self, dt_us: u64, up: bool, down: bool) -> Bat {
        let p = Point { y: updated_y(self.position.y as int, dt_us, up, down, self.height) as i64, ..self.position };
        Bat { position: p, collider: collider_at(p), ..self }
    }

    /// Whether the paddle stands inside the screen.
    pub open spec fn placed(&self) -> bool {
        &&& 0 <= self.height <= SCREEN_HEIGHT
        &&& 0 <= self.position.x <= SCREEN_WIDTH
        &&& 0 <= self.position.y <= lowest_y(self.height)
    }

    /// Whether the paddle stands inside the screen with its box in place: the box
    /// it was made with, or the one its updates keep beside its position.
    pub open spec fn wf(&self) -> bool {
        &&& self.placed()
        &&& 0 <= self.width <= SCREEN_WIDTH
        &&& (self.collider == collider_at(self.position) || self.collider == first_collider(
            self.position,
            self.width,
        ))
    }

    /// A paddle at `pos` whose sprite is `width` by `height` millipixels, with no goals
    /// yet and its box just right of its sprite.
    pub open spec fn new_spec(pos: Point, width: i64, height: i64) -> Bat {
        Bat { position: pos, width, height, collider: first_collider(pos, width), score: 0 }
    }

    /// A paddle at `pos` whose sprite is `width` by `height` millipixels, with no goals
    /// yet and its box just right of its sprite, level with its top.
    pub fn new(pos: Point, width: i64, height: i64) -> (r: Bat)
        requires
            0 <= width <= SCREEN_WIDTH,
            0 <= height <= SCREEN_HEIGHT,
            0 <= pos.x <= SCREEN_WIDTH,
            0 <= pos.y <= SCREEN_HEIGHT - height,
        ensures
            r == Bat::new_spec(pos, width, height),
            r.wf(),
            r.position == pos,
            r.collider == first_collider(pos, width),
            r.height == height,
            r.score == 0,
    {
        let collider = Rect::new(pos.x + width, pos.y, COLLIDER_WIDTH, COLLIDER_HEIGHT);
        Bat { position: pos, width, height, collider, score: 0 }
    }

    fn collider_for(p: Point) -> (r: Rect)
        requires
            0 <= p.x <= SCREEN_WIDTH,
            0 <= p.y <= SCREEN_HEIGHT,
        ensures
            r == collider_at(p),
    {
        Rect::new(p.x + COLLIDER_OFFSET_X, p.y + COLLIDER_OFFSET_Y, COLLIDER_WIDTH, COLLIDER_HEIGHT)
    }

    fn travel(dt_us: u64) -> (r: u128)
        ensures
            r == travel(dt_us),
    {
        assert(dt_us as int * Bat::PLAYER_SPEED * UNIT <= u64::MAX as int * 500_000) by (nonlinear_arith);
        (dt_us as u128 * (Bat::PLAYER_SPEED as u128) * (UNIT as u128)) / (MICROS_PER_SECOND as u128)
    }

    fn move_up(&mut self, dt_us: u64)
        requires
            old(self).placed(),
        ensures
            *final(self) == (Bat { position: Point { y: moved_up(old(self).position.y as int, dt_us) as i64, ..old(self).position }, ..*old(self) }),
    {
        let step = Bat::travel(dt_us);
        if step > self.position.y as u128 {
            self.position.y = 0;
        } else {
            self.position.y = self.position.y - step as i64;
        }
    }

    fn move_down(&mut self, dt_us: u64)
        requires
            old(self).placed(),
        ensures
            *final(self) == (Bat { position: Point { y: moved_down(old(self).position.y as int, dt_us, old(self).height) as i64, ..old(self).position }, ..*old(self) }),
    {
        let step = Bat::travel(dt_us);
        let room = (SCREEN_HEIGHT - self.height - self.position.y) as u128;
        if step > room {
            self.position.y = SCREEN_HEIGHT - self.height;
        } else {
            self.position.y = self.position.y + step as i64;
        }
    }

    /// Moves the paddle for `dt_us` microseconds: up while `up` is held, then down while
    /// `down` is held, each move clamped to the screen; then recomputes the box.
    pub fn update(&mut self, dt_us: u64, up: bool, down: bool)
        requires
            old(self).wf(),
        ensures
            *final(self) == old(self).updated(dt_us, up, down),
            final(self).wf(),
            final(self).position.y == updated_y(old(self).position.y as int, dt_us, up, down, old(self).height),
            final(self).position.x == old(self).position.x,
            final(self).height == old(self).height,
            final(self).width == old(self).width,
            final(self).collider == collider_at(final(self).position),
            final(self).score == old(self).score,
    {
        if up {
            self.move_up(dt_us);
        }
        if down {
            self.move_down(dt_us);
        }
        self.collider = Bat::collider_for(self.position);
    }
}

} // verus!
