use pong::ball::Ball;
use pong::consts::BALL_SPEED;
use pong::game::{key_binding, listener_action, press_key, tick, tick_with, toggle_player, ListenerAction};
use pong::paddle::Paddle;
use pong::text::{chars_of, same_text};

fn paddles() -> Vec<Paddle> {
    vec![Paddle::new(true), Paddle::new(false)]
}

#[test]
fn text_comparison() {
    assert!(same_text("ArrowUp", "ArrowUp"));
    assert!(same_text("", ""));
    assert!(!same_text("Arrow", "ArrowUp"));
    assert!(!same_text("w", "W"));
    assert_eq!(chars_of("héllo"), vec!['h', 'é', 'l', 'l', 'o']);
}

#[test]
fn key_bindings() {
    assert_eq!(key_binding("w"), Some((0, true)));
    assert_eq!(key_binding("s"), Some((0, false)));
    assert_eq!(key_binding("ArrowUp"), Some((1, true)));
    assert_eq!(key_binding("ArrowDown"), Some((1, false)));
    assert_eq!(key_binding("W"), None);
    assert_eq!(key_binding("a"), None);
    assert_eq!(key_binding(""), None);
}

#[test]
fn key_moves_a_human_paddle() {
    let mut ps = paddles();
    press_key(&mut ps, &vec![true, false], "w");
    assert_eq!((ps[0].y, ps[1].y), (240, 250));
    press_key(&mut ps, &vec![true, false], "s");
    press_key(&mut ps, &vec![true, false], "s");
    assert_eq!(ps[0].y, 260);
    press_key(&mut ps, &vec![false, true], "ArrowDown");
    assert_eq!((ps[0].y, ps[1].y), (260, 260));
}

#[test]
fn key_ignored_for_bot_or_unknown_key() {
    let mut ps = paddles();
    press_key(&mut ps, &vec![true, false], "ArrowUp");
    press_key(&mut ps, &vec![false, true], "w");
    press_key(&mut ps, &vec![true, true], "x");
    assert_eq!((ps[0].y, ps[1].y), (250, 250));
}

#[test]
fn listener_actions() {
    assert_eq!(listener_action(0, false), ListenerAction::Install);
    assert_eq!(listener_action(3, true), ListenerAction::Remove);
    assert_eq!(listener_action(0, true), ListenerAction::Keep);
    assert_eq!(listener_action(2, false), ListenerAction::Keep);
}

#[test]
fn toggling_players() {
    let mut players = vec![false, true];
    toggle_player(&mut players, 0);
    assert_eq!(players, vec![true, true]);
    toggle_player(&mut players, 1);
    assert_eq!(players, vec![true, false]);
}

#[test]
fn tick_with_moves_then_checks_paddles() {
    let mut b = Ball::new(vec![0, 0]);
    b.serve(300, (false, true));
    tick_with(&mut b, &paddles(), 300, (false, false), &vec![280, 280]);
    assert_eq!((b.x, b.y), (40300, 29820));
    assert_eq!(b.angle, 300);
}

#[test]
fn tick_with_bounces_off_the_left_paddle() {
    let mut b = Ball {
        x: 8500,
        y: 30000,
        speed: BALL_SPEED,
        angle: 300,
        inverted_x: true,
        inverted_y: false,
        score: vec![0, 0],
    };
    tick_with(&mut b, &paddles(), 300, (false, false), &vec![290, 310]);
    assert_eq!((b.x, b.y), (8200, 30180));
    assert!(!b.inverted_x);
    assert_eq!(b.angle, 290);
}

#[test]
fn random_ticks_keep_the_ball_well_placed() {
    let mut b = Ball::new(vec![0, 0]);
    let ps = paddles();
    for _ in 0..3000 {
        tick(&mut b, &ps);
        assert!(-1_000_000 <= b.x && b.x <= 1_000_000);
        assert!(1500 <= b.y && b.y <= 58500);
        assert_eq!(b.score.len(), 2);
    }
}
