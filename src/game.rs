use vstd::prelude::*;

use crate::ball::Ball;
use crate::consts::{ANGLE_MAX, ANGLE_MIN, BALL_SPEED};
use crate::paddle::{move_player, Paddle};
use crate::random::random_in;
use crate::text::same_text;

verus! {

/// The paddle that `key` moves and whether it moves it up: `w` and `s`
/// drive the left paddle (0), the up and down arrows the right one (1).
pub open spec fn binding(key: Seq<char>) -> Option<(usize, bool)> {
    if key == "w"@ {
        Some((0, true))
    } else if key == "s"@ {
        Some((0, false))
    } else if key == "ArrowUp"@ {
        Some((1, true))
    } else if key == "ArrowDown"@ {
        Some((1, false))
    } else {
        None
    }
}

/// What the game does with its timers and key listeners when the screen is drawn.
#[derive(PartialEq, Eq, Structural, Clone, Copy, Debug)]
pub enum ListenerAction {
    /// Start the game: install the key listener and the timers.
    Install,
    /// Stop the game: remove every installed timer and listener.
    Remove,
    /// Leave things as they are.
    Keep,
}

/// The paddle and direction that a key press selects, if any.
pub fn key_binding(key: &str) -> (r: Option<(usize, bool)>)
    ensures
        r == binding(key@),
{
    if same_text(key, "w") {
        Some((0, true))
    } else if same_text(key, "s") {
        Some((0, false))
    } else if same_text(key, "ArrowUp") {
        Some((1, true))
    } else if same_text(key, "ArrowDown") {
        Some((1, false))
    } else {
        None
    }
}

/// Applies a key press: the paddle the key selects moves by one step when a
/// person (not the computer) plays it; anything else leaves the paddles as
/// they are.
pub fn press_key(paddles: &mut Vec<Paddle>, players: &Vec<bool>, key: &str)
    requires
        old(paddles)@.len() == 2,
        players@.len() == 2,
        forall|i: int| 0 <= i < 2 ==> (#[trigger] old(paddles)@[i]).wf(),
    ensures
        final(paddles)@ == match binding(key@) {
            Some((i, up)) => if players@[i as int] {
                old(paddles)@.update(i as int, old(paddles)@[i as int].key_moved(up))
            } else {
                old(paddles)@
            },
            None => old(paddles)@,
        },
{
    match key_binding(key) {
        Some((i, up)) => {
            if players[i] {
                let mut p = paddles[i];
                move_player(&mut p, up);
                paddles.set(i, p);
            }
        },
        None => {},
    }
}

/// Whether to start or stop the game, from the number of handles installed
/// and whether the game screen is hidden.
pub fn listener_action(installed: usize, hidden: bool) -> (r: ListenerAction)
    ensures
        r == if installed == 0 && !hidden {
            ListenerAction::Install
        } else if installed > 0 && hidden {
            ListenerAction::Remove
        } else {
            ListenerAction::Keep
        },
{
    if installed == 0 && !hidden {
        ListenerAction::Install
    } else if installed > 0 && hidden {
        ListenerAction::Remove
    } else {
        ListenerAction::Keep
    }
}

/// Switches player `id` between a person and the computer.
pub fn toggle_player(players: &mut Vec<bool>, id: usize)
    requires
        id < old(players)@.len(),
    ensures
        final(players)@ == old(players)@.update(id as int, !old(players)@[id as int]),
{
    let p = players[id];
    players.set(id, !p);
}

/// `states` traces one tick of play from `before`: the ball first moves
/// (serving with `angle` and `inverted` if it leaves the field), then each
/// paddle in order checks it for contact, the `i`-th bouncing it with
/// `bounce_angles[i]`.
pub open spec fn tick_trace(
    before: Ball,
    paddles: Seq<Paddle>,
    states: Seq<Ball>,
    angle: int,
    inverted: (bool, bool),
    bounce_angles: Seq<isize>,
) -> bool {
    &&& states.len() == paddles.len() + 1
    &&& bounce_angles.len() == paddles.len()
    &&& before.moved_to(states[0], angle, inverted)
    &&& forall|i: int|
        0 <= i < paddles.len() ==> #[trigger] paddles[i].struck(
            states[i],
            states[i + 1],
            bounce_angles[i] as int,
        )
}

/// All of `paddles` lie inside the field.
pub open spec fn all_wf(paddles: Seq<Paddle>) -> bool {
    forall|i: int| 0 <= i < paddles.len() ==> (#[trigger] paddles[i]).wf()
}

/// One tick of play with the given serve and bounce steps.
pub fn tick_with(
    ball: &mut Ball,
    paddles: &Vec<Paddle>,
    angle: isize,
    inverted: (bool, bool),
    bounce_angles: &Vec<isize>,
)
    requires
        old(ball).wf(),
        all_wf(paddles@),
        0 <= angle <= BALL_SPEED,
        bounce_angles@.len() == paddles@.len(),
        forall|i: int| 0 <= i < bounce_angles@.len() ==> 0 <= #[trigger] bounce_angles@[i] <= BALL_SPEED,
    ensures
        final(ball).wf(),
        exists|states: Seq<Ball>|
            #[trigger] tick_trace(
                *old(ball),
                paddles@,
                states,
                angle as int,
                inverted,
                bounce_angles@,
            ) && states.last() == *final(ball),
{
    ball.next_with(angle, inverted);
    let ghost mut states: Seq<Ball> = seq![*ball];
    let mut i: usize = 0;
    while i < paddles.len()
        invariant
            ball.wf(),
            all_wf(paddles@),
            bounce_angles@.len() == paddles@.len(),
            forall|j: int| 0 <= j < bounce_angles@.len() ==> 0 <= #[trigger] bounce_angles@[j] <= BALL_SPEED,
            i <= paddles@.len(),
            states.len() == i + 1,
            states.last() == *ball,
            old(ball).moved_to(states[0], angle as int, inverted),
            forall|j: int|
                0 <= j < i ==> #[trigger] paddles@[j].struck(states[j], states[j + 1], bounce_angles@[j] as int),
        decreases paddles@.len() - i,
    {
        let ghost prev = *ball;
        paddles[i].collision_with(ball, bounce_angles[i]);
        proof {
            states = states.push(*ball);
            assert(paddles@[i as int].struck(
                states[i as int],
                states[i + 1],
                bounce_angles@[i as int] as int,
            ));
        }
        i = i + 1;
    }
    assert(tick_trace(*old(ball), paddles@, states, angle as int, inverted, bounce_angles@));
}

/// One tick of play: the ball moves, then each paddle checks it for contact;
/// serves and bounces draw their steps at random.
pub fn tick(ball: &mut Ball, paddles: &Vec<Paddle>)
    requires
        old(ball).wf(),
        all_wf(paddles@),
    ensures
        final(ball).wf(),
        exists|states: Seq<Ball>, angle: int, inverted: (bool, bool), bounce_angles: Seq<isize>|
            #[trigger] tick_trace(*old(ball), paddles@, states, angle, inverted, bounce_angles)
                && states.last() == *final(ball) && ANGLE_MIN <= angle < ANGLE_MAX && forall|i: int|
                0 <= i < bounce_angles.len() ==> ANGLE_MIN <= #[trigger] bounce_angles[i] < ANGLE_MAX,
{
    let angle = random_in(ANGLE_MIN, ANGLE_MAX);
    let inverted = (rand::random::<bool>(), rand::random::<bool>());
    let mut bounce_angles: Vec<isize> = Vec::new();
    let mut i: usize = 0;
    while i < paddles.len()
        invariant
            i <= paddles@.len(),
            bounce_angles@.len() == i,
            forall|j: int| 0 <= j < i ==> ANGLE_MIN <= #[trigger] bounce_angles@[j] < ANGLE_MAX,
        decreases paddles@.len() - i,
    {
        bounce_angles.push(random_in(ANGLE_MIN, ANGLE_MAX));
        i = i + 1;
    }
    tick_with(ball, paddles, angle, inverted, &bounce_angles);
}

} // verus!
