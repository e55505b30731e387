use pong::ball::{Ball, BALL_SIZE, MAX_SPEED};
use pong::bat::Bat;
use pong::game_state::{GameState, Keys, Side, State, WIN_SCORE};
use pong::geometry::{Point, Velocity, SCREEN_HEIGHT, SCREEN_WIDTH};

const NO_KEYS: Keys = Keys { w: false, s: false, up: false, down: false, space: false };
const SPACE: Keys = Keys { w: false, s: false, up: false, down: false, space: true };
const FRESH: Velocity = Velocity { x: 150, y: 150 };
const TICK: u64 = 16_000;

fn bats(score1: u32, score2: u32) -> (Bat, Bat) {
    let mut b1 = Bat::new(Point::new(0, 150_000), 70_000, 150_000);
    let mut b2 = Bat::new(Point::new(650_000, 150_000), 70_000, 150_000);
    b1.score = score1;
    b2.score = score2;
    (b1, b2)
}

fn game(score1: u32, score2: u32, ball: Ball) -> GameState {
    let (b1, b2) = bats(score1, score2);
    GameState::with_parts(b1, b2, ball, 6)
}

fn centre_ball(vx: i64, vy: i64) -> Ball {
    Ball::with_velocity(Point::new(SCREEN_WIDTH / 2, SCREEN_HEIGHT / 2), Velocity { x: vx, y: vy })
}

#[test]
fn new_match_waits_in_menu() {
    let g = GameState::new(70_000, 150_000, 70_000, 150_000, 6);
    assert_eq!(g.state(), State::Menu);
    assert_eq!(g.bat1.position, Point::new(0, 150_000));
    assert_eq!(g.bat2.position, Point::new(650_000, 150_000));
    assert_eq!(g.ball.position, Point::new(400_000, 240_000));
    assert_eq!(g.bat1.score, 0);
    assert_eq!(g.bat2.score, 0);
}

#[test]
fn menu_does_not_simulate() {
    let mut g = game(0, 0, centre_ball(200, 150));
    let before = g;
    let keys = Keys { w: true, s: false, up: false, down: true, space: false };
    g.advance(keys, TICK, 1, FRESH, FRESH);
    assert_eq!(g, before);
}

#[test]
fn space_starts_the_match() {
    let mut g = game(0, 0, centre_ball(200, 150));
    g.advance(SPACE, TICK, 1, FRESH, FRESH);
    assert_eq!(g.state(), State::Running);
    assert_eq!(g.ball.position, Point::new(400_000, 240_000));
}

#[test]
fn running_tick_moves_paddles_and_ball() {
    let mut g = game(0, 0, centre_ball(200, 150));
    g.advance(SPACE, TICK, 1, FRESH, FRESH);
    let keys = Keys { w: true, s: false, up: false, down: true, space: false };
    let ev = g.advance(keys, TICK, 1, FRESH, FRESH);
    assert_eq!(g.bat1.position.y, 142_000);
    assert_eq!(g.bat2.position.y, 158_000);
    assert_eq!(g.ball.position, Point::new(403_200, 242_400));
    assert_eq!(g.dt, TICK);
    assert!(!ev.left.hit && !ev.left.goal && !ev.right.hit && !ev.right.goal);
}

#[test]
fn goal_on_right_paddle_side_counts_once() {
    let ball = Ball::with_velocity(Point::new(2_000, 300_000), Velocity { x: -200, y: 150 });
    let mut g = game(2, 5, ball);
    g.advance(SPACE, TICK, 1, FRESH, FRESH);
    let ev = g.advance(NO_KEYS, TICK, 1, FRESH, Velocity { x: -180, y: 190 });
    assert!(ev.right.goal);
    assert!(!ev.left.goal);
    assert_eq!(g.bat1.score, 2);
    assert_eq!(g.bat2.score, 6);
    assert_eq!(g.ball.position, Point::new(400_000, 240_000));
    assert_eq!(g.ball.velocity, Velocity { x: -180, y: 190 });
    assert_eq!(g.state(), State::Running);
}

#[test]
fn match_ends_on_tick_score_reaches_win() {
    let ball = Ball::with_velocity(Point::new(SCREEN_WIDTH - BALL_SIZE - 1_000, 300_000), Velocity { x: 200, y: 150 });
    let mut g = game(9, 0, ball);
    g.advance(SPACE, TICK, 1, FRESH, FRESH);
    assert_eq!(g.state(), State::Running);
    let ev = g.advance(NO_KEYS, TICK, 1, FRESH, FRESH);
    assert!(ev.left.goal);
    assert_eq!(g.bat1.score, WIN_SCORE);
    assert_eq!(g.state(), State::Over);
}

#[test]
fn match_stays_running_below_win() {
    let ball = Ball::with_velocity(Point::new(SCREEN_WIDTH - BALL_SIZE - 1_000, 300_000), Velocity { x: 200, y: 150 });
    let mut g = game(8, 9, ball);
    g.advance(SPACE, TICK, 1, FRESH, FRESH);
    g.advance(NO_KEYS, TICK, 1, FRESH, FRESH);
    assert_eq!(g.bat1.score, 9);
    assert_eq!(g.state(), State::Running);
}

#[test]
fn left_wins_one_tick_before_right_reaches_nine() {
    let ball = Ball::with_velocity(Point::new(790_000, 200_000), Velocity { x: 200, y: 150 });
    let mut g = game(9, 8, ball);
    g.advance(SPACE, TICK, 1, FRESH, FRESH);
    let ev = g.advance(NO_KEYS, TICK, 1, Velocity { x: -200, y: 150 }, FRESH);
    assert!(ev.left.goal);
    assert_eq!(g.bat1.score, 10);
    assert_eq!(g.bat2.score, 8);
    assert_eq!(g.state(), State::Over);
    assert_eq!(g.winner(), Side::Left);
    let frozen = g;
    for t in 2..500u64 {
        let keys = Keys { w: true, s: true, up: true, down: true, space: true };
        let ev = g.advance(keys, TICK, t, FRESH, FRESH);
        assert!(!ev.left.goal && !ev.right.goal);
        g.update(NO_KEYS, TICK, t);
    }
    assert_eq!(g, frozen);
    assert_eq!(g.bat2.score, 8);
}

#[test]
fn right_paddle_wins_when_it_reaches_win() {
    let ball = Ball::with_velocity(Point::new(1_000, 300_000), Velocity { x: -200, y: 150 });
    let mut g = game(4, 9, ball);
    g.advance(SPACE, TICK, 1, FRESH, FRESH);
    g.advance(NO_KEYS, TICK, 1, FRESH, FRESH);
    assert_eq!(g.state(), State::Over);
    assert_eq!(g.winner(), Side::Right);
}

#[test]
fn ball_off_left_paddle_goes_right() {
    let ball = Ball::with_velocity(Point::new(92_000, 200_000), Velocity { x: -200, y: 150 });
    let mut g = game(0, 0, ball);
    g.advance(SPACE, TICK, 1, FRESH, FRESH);
    let ev = g.advance(NO_KEYS, TICK, 1, FRESH, FRESH);
    assert!(ev.left.hit);
    assert!(!ev.right.hit);
    assert_eq!(g.ball.velocity.x, 200);
    assert!(g.ball.impact.is_some());
}

#[test]
fn long_random_match_keeps_invariants() {
    let mut g = GameState::new(70_000, 150_000, 70_000, 150_000, 6);
    g.update(SPACE, TICK, 0);
    let mut tick: u64 = 1;
    while g.state() == State::Running && tick < 50_000 {
        let keys = Keys { w: tick % 3 == 0, s: tick % 5 == 0, up: tick % 7 == 0, down: tick % 2 == 0, space: false };
        let before = (g.bat1.score, g.bat2.score);
        let ev = g.update(keys, TICK, tick);
        assert!(!(ev.left.goal && ev.right.goal));
        assert!(g.bat1.score <= before.0 + 1 && g.bat2.score <= before.1 + 1);
        assert!(g.ball.speed <= MAX_SPEED);
        assert!(g.bat1.position.y >= 0 && g.bat1.position.y <= SCREEN_HEIGHT - 150_000);
        assert!(g.bat2.position.y >= 0 && g.bat2.position.y <= SCREEN_HEIGHT - 150_000);
        assert!(g.ball.position.x >= 0 && g.ball.position.x <= SCREEN_WIDTH);
        assert_eq!(g.state() == State::Over, g.bat1.score == WIN_SCORE || g.bat2.score == WIN_SCORE);
        tick += 1;
    }
}

#[test]
fn random_tick_goal_resets_ball_and_scores_once() {
    let ball = Ball::with_velocity(Point::new(1_000, 300_000), Velocity { x: -200, y: 150 });
    let mut g = game(3, 4, ball);
    g.update(SPACE, TICK, 1);
    let ev = g.update(NO_KEYS, TICK, 1);
    assert!(ev.right.goal && !ev.left.goal);
    assert_eq!((g.bat1.score, g.bat2.score), (3, 5));
    assert_eq!(g.ball.position, Point::new(400_000, 240_000));
    assert_eq!(g.ball.speed, pong::ball::BASE_SPEED);
    assert!(g.ball.velocity.x.abs() >= Ball::MIN_VELOCITY && g.ball.velocity.x.abs() < Ball::MAX_VELOCITY);
    assert_eq!(g.state(), State::Running);
}
