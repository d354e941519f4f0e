use pong::ball::Ball;
use pong::consts::{ANGLE_MAX, ANGLE_MIN, BALL_MAX_X, BALL_MAX_Y, BALL_MIN, BALL_SPEED, CENTER_X, CENTER_Y};
use pong::sqrt::isqrt;

fn ball_at(x: isize, y: isize, angle: isize, inverted: (bool, bool), score: Vec<usize>) -> Ball {
    Ball {
        x,
        y,
        speed: BALL_SPEED,
        angle,
        inverted_x: inverted.0,
        inverted_y: inverted.1,
        score,
    }
}

#[test]
fn isqrt_exact_values() {
    assert_eq!(isqrt(0), 0);
    assert_eq!(isqrt(1), 1);
    assert_eq!(isqrt(15), 3);
    assert_eq!(isqrt(16), 4);
    assert_eq!(isqrt(32500), 180);
    assert_eq!(isqrt(122500), 350);
    assert_eq!(isqrt(u32::MAX), 65535);
}

#[test]
fn new_serves_from_the_centre() {
    let b = Ball::new(vec![2, 5]);
    assert_eq!(b.x, CENTER_X);
    assert_eq!(b.y, CENTER_Y);
    assert_eq!(b.speed, BALL_SPEED);
    assert!(ANGLE_MIN <= b.angle && b.angle < ANGLE_MAX);
    assert_eq!(b.score, vec![2, 5]);
}

#[test]
fn next_with_moves_by_one_step() {
    let mut b = ball_at(40000, 30000, 300, (false, true), vec![0, 0]);
    b.next_with(300, (false, false));
    assert_eq!(b.x, 40300);
    assert_eq!(b.y, 29820);
    assert!(!b.inverted_x);
    assert!(b.inverted_y);
    assert_eq!(b.angle, 300);
    assert_eq!(b.score, vec![0, 0]);
}

#[test]
fn next_with_moves_left_and_down() {
    let mut b = ball_at(40000, 30000, 270, (true, false), vec![0, 0]);
    b.next_with(300, (false, false));
    // 350 * 350 - 270 * 270 = 49600, whose integer root is 222.
    assert_eq!(b.x, 39730);
    assert_eq!(b.y, 30222);
}

#[test]
fn next_with_bounces_off_the_top() {
    let mut b = ball_at(40000, 1600, 300, (false, true), vec![0, 0]);
    b.next_with(300, (false, false));
    assert_eq!(b.x, 40300);
    assert_eq!(b.y, 1580);
    assert!(!b.inverted_y);
}

#[test]
fn next_with_bounces_off_the_bottom() {
    let mut b = ball_at(40000, 58400, 300, (false, false), vec![0, 0]);
    b.next_with(300, (false, false));
    assert_eq!(b.y, 58420);
    assert!(b.inverted_y);
}

#[test]
fn right_wall_scores_for_the_left_player() {
    let mut b = ball_at(78400, 30000, 300, (false, false), vec![3, 4]);
    b.next_with(280, (true, false));
    assert_eq!(b.score, vec![4, 4]);
    assert_eq!(b.x, CENTER_X);
    assert_eq!(b.y, CENTER_Y);
    assert_eq!(b.angle, 280);
    assert!(b.inverted_x);
    assert!(!b.inverted_y);
}

#[test]
fn left_wall_scores_for_the_right_player() {
    let mut b = ball_at(1600, 30000, 300, (true, false), vec![0, 0]);
    b.next_with(290, (false, true));
    assert_eq!(b.score, vec![0, 1]);
    assert_eq!(b.x, CENTER_X);
    assert_eq!(b.angle, 290);
    assert!(!b.inverted_x);
    assert!(b.inverted_y);
}

#[test]
fn corner_bounce_flips_the_new_serve_vertically() {
    let mut b = ball_at(1600, 1600, 300, (true, true), vec![0, 0]);
    b.next_with(270, (false, false));
    assert_eq!(b.score, vec![0, 1]);
    assert_eq!((b.x, b.y), (CENTER_X, CENTER_Y));
    assert!(!b.inverted_x);
    assert!(b.inverted_y);
}

#[test]
fn score_stops_at_the_largest_counter() {
    let mut b = ball_at(78400, 30000, 300, (false, false), vec![usize::MAX, 0]);
    b.next_with(280, (false, false));
    assert_eq!(b.score, vec![usize::MAX, 0]);
}

#[test]
fn straight_vertical_step_when_angle_is_full_speed() {
    let mut b = ball_at(40000, 30000, BALL_SPEED, (false, false), vec![0, 0]);
    b.next_with(300, (false, false));
    assert_eq!(b.x, 40350);
    assert_eq!(b.y, 30000);
}

#[test]
fn random_play_stays_in_the_field() {
    let mut b = Ball::new(vec![0, 0]);
    for _ in 0..5000 {
        let before: usize = b.score.iter().sum();
        b.next();
        let after: usize = b.score.iter().sum();
        assert!(BALL_MIN <= b.x && b.x <= BALL_MAX_X);
        assert!(BALL_MIN <= b.y && b.y <= BALL_MAX_Y);
        assert!(after == before || after == before + 1);
        assert!(0 <= b.angle && b.angle <= BALL_SPEED);
    }
}

#[test]
fn serve_places_the_ball() {
    let mut b = ball_at(100, 200, 300, (false, false), vec![1, 2]);
    b.serve(310, (true, true));
    assert_eq!((b.x, b.y), (CENTER_X, CENTER_Y));
    assert_eq!(b.angle, 310);
    assert!(b.inverted_x && b.inverted_y);
    assert_eq!(b.score, vec![1, 2]);
}

#[test]
fn set_and_random_angle() {
    let mut b = ball_at(5000, 6000, 300, (false, false), vec![0, 0]);
    b.set_angle(123);
    assert_eq!(b.angle, 123);
    assert_eq!((b.x, b.y), (5000, 6000));
    let mut seen = Vec::new();
    for _ in 0..200 {
        b.random_angle();
        assert!(ANGLE_MIN <= b.angle && b.angle < ANGLE_MAX);
        if !seen.contains(&b.angle) {
            seen.push(b.angle);
        }
    }
    assert!(seen.len() > 1);
}

#[test]
fn invert_flags_toggle() {
    let mut b = ball_at(5000, 6000, 300, (false, true), vec![0, 0]);
    b.invert_x();
    assert!(b.inverted_x && b.inverted_y);
    b.invert_y();
    assert!(b.inverted_x && !b.inverted_y);
    b.invert_x();
    assert!(!b.inverted_x);
    assert_eq!((b.x, b.y, b.angle), (5000, 6000, 300));
}
