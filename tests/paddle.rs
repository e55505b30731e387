use pong::bat::Bat;
use pong::geometry::{Point, Rect, SCREEN_HEIGHT};

fn bat_at(y: i64, height: i64) -> Bat {
    Bat::new(Point::new(0, y), 90_000, height)
}

#[test]
fn new_paddle_has_box_and_no_score() {
    let b = bat_at(150_000, 125_000);
    assert_eq!(b.score, 0);
    assert_eq!(b.position, Point::new(0, 150_000));
    assert_eq!(b.collider, Rect::new(90_000, 150_000, 20_000, 125_000));
}

#[test]
fn first_update_moves_box_beside_paddle() {
    let mut b = bat_at(150_000, 125_000);
    b.update(0, false, false);
    assert_eq!(b.position, Point::new(0, 150_000));
    assert_eq!(b.collider, Rect::new(70_000, 165_000, 20_000, 125_000));
}

#[test]
fn paddle_moves_up_by_speed_times_time() {
    let mut b = bat_at(150_000, 125_000);
    // 16 ms at 500 px/s is 8 px
    b.update(16_000, true, false);
    assert_eq!(b.position.y, 142_000);
    assert_eq!(b.collider, Rect::new(70_000, 157_000, 20_000, 125_000));
}

#[test]
fn paddle_moves_down_by_speed_times_time() {
    let mut b = bat_at(150_000, 125_000);
    b.update(20_000, false, true);
    assert_eq!(b.position.y, 160_000);
}

#[test]
fn paddle_clamps_at_top() {
    let mut b = bat_at(3_000, 125_000);
    b.update(16_000, true, false);
    assert_eq!(b.position.y, 0);
    b.update(16_000, true, false);
    assert_eq!(b.position.y, 0);
}

#[test]
fn paddle_clamps_at_bottom() {
    let mut b = bat_at(SCREEN_HEIGHT - 125_000 - 1_000, 125_000);
    b.update(16_000, false, true);
    assert_eq!(b.position.y, SCREEN_HEIGHT - 125_000);
    b.update(1_000_000, false, true);
    assert_eq!(b.position.y, SCREEN_HEIGHT - 125_000);
}

#[test]
fn paddle_stays_on_screen_for_long_ticks() {
    for start in [0, 1, 100_000, 354_999, 355_000] {
        for dt in [0u64, 1, 16_000, 2_000_000, u64::MAX] {
            for (up, down) in [(true, false), (false, true), (true, true), (false, false)] {
                let mut b = bat_at(start, 125_000);
                b.update(dt, up, down);
                assert!(b.position.y >= 0 && b.position.y <= SCREEN_HEIGHT - 125_000);
            }
        }
    }
}

#[test]
fn paddle_both_keys_up_then_down() {
    let mut b = bat_at(150_000, 125_000);
    b.update(16_000, true, true);
    assert_eq!(b.position.y, 150_000);
    let mut c = bat_at(2_000, 125_000);
    // up clamps at 0, then down moves 8 px
    c.update(16_000, true, true);
    assert_eq!(c.position.y, 8_000);
}

#[test]
fn paddle_without_keys_keeps_position_and_score() {
    let mut b = bat_at(150_000, 125_000);
    b.score = 4;
    b.update(16_000, false, false);
    assert_eq!(b.position.y, 150_000);
    assert_eq!(b.score, 4);
}
