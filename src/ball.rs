use vstd::prelude::*;

use crate::consts::{
    ANGLE_MAX, ANGLE_MIN, BALL_MAX_X, BALL_MAX_Y, BALL_MIN, BALL_SPEED, CENTER_X, CENTER_Y,
    POSITION_LIMIT,
};
use crate::random::random_in;
use crate::sqrt::{isqrt, root};

verus! {

/// `v` with its sign flipped when `negative` holds.
pub open spec fn signed(v: int, negative: bool) -> int {
    if negative {
        -v
    } else {
        v
    }
}

/// `v` mirrored at the lower wall `lo` when it lies below it.
pub open spec fn mirror_low(v: int, lo: int) -> int {
    if v < lo {
        2 * lo - v
    } else {
        v
    }
}

/// `v` mirrored at `lo` when below it, then at `hi` when above it.
pub open spec fn reflect(v: int, lo: int, hi: int) -> int {
    let a = mirror_low(v, lo);
    if a > hi {
        2 * hi - a
    } else {
        a
    }
}

/// Whether `v` touches a wall on its way through [`reflect`].
pub open spec fn bounces(v: int, lo: int, hi: int) -> bool {
    v < lo || mirror_low(v, lo) > hi
}

/// Length of the vertical part of a step of length `BALL_SPEED` whose
/// horizontal part is `angle`.
pub open spec fn vertical_step(angle: int) -> int {
    root(BALL_SPEED * BALL_SPEED - angle * angle)
}

/// A score counter after one more point; it stops at the largest `usize`.
pub open spec fn add_point(s: usize) -> usize {
    if s < usize::MAX {
        (s + 1) as usize
    } else {
        s
    }
}

/// Index of the player who scores when the ball leaves the field and is
/// mirrored back to horizontal coordinate `x`: the left player (0) when that
/// is on the right half, the right player (1) otherwise.
pub open spec fn scorer(x: int) -> int {
    if x > CENTER_X {
        0
    } else {
        1
    }
}

/// The ball: a position in physics units and a step of fixed length per tick,
/// whose horizontal part (the angle) and direction flags change on bounces,
/// together with the two players' scores.
#[derive(Clone, Debug)]
pub struct Ball {
    pub x: isize,
    pub y: isize,
    pub speed: isize,
    pub angle: isize,
    pub inverted_x: bool,
    pub inverted_y: bool,
    pub score: Vec<usize>,
}

impl Ball {
    /// Whether the ball moves left and whether it moves up.
    pub open spec fn inverted(&self) -> (bool, bool) {
        (self.inverted_x, self.inverted_y)
    }

    /// Points of the left (index 0) and the right (index 1) player.
    pub open spec fn scores(&self) -> Seq<usize> {
        self.score@
    }

    /// A ball that can be moved: step of the fixed length, angle no longer
    /// than the step, two score counters, position within `POSITION_LIMIT`.
    pub open spec fn wf(&self) -> bool {
        &&& self.speed == BALL_SPEED
        &&& 0 <= self.angle <= BALL_SPEED
        &&& self.scores().len() == 2
        &&& -POSITION_LIMIT <= self.x <= POSITION_LIMIT
        &&& -POSITION_LIMIT <= self.y <= POSITION_LIMIT
    }

    /// Tells whether the ball can be moved (see [`Ball::wf`]).
    pub fn is_valid(&self) -> (r: bool)
        ensures
            r == self.wf(),
    {
        self.speed == BALL_SPEED && 0 <= self.angle && self.angle <= BALL_SPEED && self.score.len()
            == 2 && -POSITION_LIMIT <= self.x && self.x <= POSITION_LIMIT && -POSITION_LIMIT
            <= self.y && self.y <= POSITION_LIMIT
    }

    /// Horizontal move of the next tick.
    pub open spec fn step_x(&self) -> int {
        signed(self.angle as int, self.inverted().0)
    }

    /// Vertical move of the next tick.
    pub open spec fn step_y(&self) -> int {
        signed(vertical_step(self.angle as int), self.inverted().1)
    }

    /// `after` is this ball one tick later, where a serve that the tick may
    /// need comes with `angle` and directions `inverted`.
    ///
    /// The ball moves by its step and is mirrored at the walls. Leaving the
    /// field through the left or right wall scores a point for the player
    /// on the other side and serves the ball again from the centre; touching
    /// the top or bottom wall flips its vertical direction.
    pub open spec fn moved_to(&self, after: Ball, angle: int, inverted: (bool, bool)) -> bool {
        let x1 = self.x + self.step_x();
        let y1 = self.y + self.step_y();
        let y_bounce = bounces(y1, BALL_MIN as int, BALL_MAX_Y as int);
        &&& after.speed == self.speed
        &&& if bounces(x1, BALL_MIN as int, BALL_MAX_X as int) {
            let side = scorer(reflect(x1, BALL_MIN as int, BALL_MAX_X as int));
            &&& after.x == CENTER_X
            &&& after.y == CENTER_Y
            &&& after.angle == angle
            &&& after.inverted() == (inverted.0, inverted.1 != y_bounce)
            &&& after.scores() == self.scores().update(side, add_point(self.scores()[side]))
        } else {
            &&& after.x == x1
            &&& after.y == reflect(y1, BALL_MIN as int, BALL_MAX_Y as int)
            &&& after.angle == self.angle
            &&& after.inverted() == (self.inverted().0, self.inverted().1 != y_bounce)
            &&& after.scores() == self.scores()
        }
    }

    /// A ball at the centre of the field with the given score, served in a random direction.
    pub fn new(score: Vec<usize>) -> (r: Self)
        requires
            score@.len() == 2,
        ensures
            r.wf(),
            r.scores() == score@,
            r.x == CENTER_X,
            r.y == CENTER_Y,
            ANGLE_MIN <= r.angle < ANGLE_MAX,
    {
        let mut s = Self {
            x: 0,
            y: 0,
            speed: BALL_SPEED,
            angle: 0,
            inverted_x: false,
            inverted_y: false,
            score,
        };
        s.setup();
        s
    }

    /// Serves the ball from the centre of the field with horizontal step
    /// `angle` and directions `inverted`.
    pub fn serve(&mut self, angle: isize, inverted: (bool, bool))
        requires
            old(self).wf(),
            0 <= angle <= BALL_SPEED,
        ensures
            final(self).wf(),
            final(self).x == CENTER_X,
            final(self).y == CENTER_Y,
            final(self).angle == angle,
            final(self).inverted() == inverted,
            final(self).speed == old(self).speed,
            final(self).scores() == old(self).scores(),
    {
        self.x = CENTER_X;
        self.y = CENTER_Y;
        self.inverted_x = inverted.0;
        self.inverted_y = inverted.1;
        self.angle = angle;
    }

    /// Serves the ball from the centre in a random direction.
    fn setup(&mut self)
        requires
            old(self).wf(),
        ensures
            final(self).wf(),
            final(self).x == CENTER_X,
            final(self).y == CENTER_Y,
            ANGLE_MIN <= final(self).angle < ANGLE_MAX,
            final(self).speed == old(self).speed,
            final(self).scores() == old(self).scores(),
    {
        let angle = random_in(ANGLE_MIN, ANGLE_MAX);
        let inverted = (rand::random::<bool>(), rand::random::<bool>());
        self.serve(angle, inverted);
    }

    /// Moves the ball by one tick, where a serve that the tick may need
    /// comes with `angle` and directions `inverted`.
    pub fn next_with(&mut self, angle: isize, inverted: (bool, bool))
        requires
            old(self).wf(),
            0 <= angle <= BALL_SPEED,
        ensures
            final(self).wf(),
            old(self).moved_to(*final(self), angle as int, inverted),
    {
        let a = self.angle;
        assert(a * a <= BALL_SPEED * BALL_SPEED) by (nonlinear_arith)
            requires
                0 <= a <= BALL_SPEED,
        ;
        let n: u32 = (self.speed * self.speed - a * a) as u32;
        let r: u32 = isqrt(n);
        assert(r <= BALL_SPEED) by (nonlinear_arith)
            requires
                r * r <= n,
                n <= BALL_SPEED * BALL_SPEED,
        ;
        let rise = r as isize;
        let dx: isize = if self.inverted_x { -a } else { a };
        let dy: isize = if self.inverted_y { -rise } else { rise };
        let mut invert = (false, false);

        self.x = self.x + dx;
        self.y = self.y + dy;

        if self.x < BALL_MIN {
            invert.0 = true;
            self.x = 2 * BALL_MIN - self.x;
        }
        if self.x > BALL_MAX_X {
            invert.0 = true;
            self.x = 2 * BALL_MAX_X - self.x;
        }
        if self.y < BALL_MIN {
            invert.1 = true;
            self.y = 2 * BALL_MIN - self.y;
        }
        if self.y > BALL_MAX_Y {
            invert.1 = true;
            self.y = 2 * BALL_MAX_Y - self.y;
        }

        if invert.0 {
            let id: usize = if self.x > CENTER_X { 0 } else { 1 };
            if self.score[id] < usize::MAX {
                self.score.set(id, self.score[id] + 1);
            }
            assert(self.score@ =~= old(self).score@.update(
                id as int,
                add_point(old(self).score@[id as int]),
            ));
            self.serve(angle, inverted);
        }
        if invert.1 {
            self.invert_y();
        }
    }

    /// Moves the ball by one tick; a serve that the tick may need goes in a
    /// random direction.
    pub fn next(&mut self)
        requires
            old(self).wf(),
        ensures
            final(self).wf(),
            exists|angle: int, inverted: (bool, bool)|
                ANGLE_MIN <= angle < ANGLE_MAX && #[trigger] old(self).moved_to(
                    *final(self),
                    angle,
                    inverted,
                ),
    {
        let angle = random_in(ANGLE_MIN, ANGLE_MAX);
        let inverted = (rand::random::<bool>(), rand::random::<bool>());
        self.next_with(angle, inverted);
    }

    /// Gives the ball a new horizontal step.
    pub fn set_angle(&mut self, angle: isize)
        requires
            old(self).wf(),
            0 <= angle <= BALL_SPEED,
        ensures
            final(self).wf(),
            final(self).angle == angle,
            final(self).x == old(self).x,
            final(self).y == old(self).y,
            final(self).inverted() == old(self).inverted(),
            final(self).speed == old(self).speed,
            final(self).scores() == old(self).scores(),
    {
        self.angle = angle;
    }

    /// Gives the ball a random horizontal step.
    pub fn random_angle(&mut self)
        requires
            old(self).wf(),
        ensures
            final(self).wf(),
            ANGLE_MIN <= final(self).angle < ANGLE_MAX,
            final(self).x == old(self).x,
            final(self).y == old(self).y,
            final(self).inverted() == old(self).inverted(),
            final(self).speed == old(self).speed,
            final(self).scores() == old(self).scores(),
    {
        let angle = random_in(ANGLE_MIN, ANGLE_MAX);
        self.set_angle(angle);
    }

    pub fn invert_y(&mut self)
        ensures
            final(self).inverted() == (old(self).inverted().0, !old(self).inverted().1),
            final(self).x == old(self).x,
            final(self).y == old(self).y,
            final(self).angle == old(self).angle,
            final(self).speed == old(self).speed,
            final(self).scores() == old(self).scores(),
    {
        self.inverted_y = !self.inverted_y;
    }

    pub fn invert_x(&mut self)
        ensures
            final(self).inverted() == (!old(self).inverted().0, old(self).inverted().1),
            final(self).x == old(self).x,
            final(self).y == old(self).y,
            final(self).angle == old(self).angle,
            final(self).speed == old(self).speed,
            final(self).scores() == old(self).scores(),
    {
        self.inverted_x = !self.inverted_x;
    }
}

} // verus!
