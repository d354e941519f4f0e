use vstd::prelude::*;

use std::ops::Range;

use crate::ball::Ball;
use crate::consts::{
    ANGLE_MAX, ANGLE_MIN, BALL_RADIUS, BALL_SPEED, HEIGHT, KEY_STEP, PADDLE_HEIGHT, PADDLE_OFFSET,
    PADDLE_START_Y, PADDLE_WIDTH, PHYSICS_SCALE, WIDTH,
};
use crate::random::random_in;

verus! {

/// A coordinate in physics units turned into pixels, rounding towards zero.
pub open spec fn to_pixels(v: int) -> int {
    if v >= 0 {
        v / (PHYSICS_SCALE as int)
    } else {
        -((-v) / (PHYSICS_SCALE as int))
    }
}

/// Whether the half-open ranges `[a_start, a_end)` and `[b_start, b_end)`
/// overlap; two empty ranges count as overlapping, an empty and a non-empty
/// one do not.
pub open spec fn ranges_meet(a_start: int, a_end: int, b_start: int, b_end: int) -> bool {
    if a_start >= a_end {
        b_start >= b_end
    } else {
        b_start < b_end && a_start < b_end && b_start < a_end
    }
}

/// Whether `v` lies in the half-open range `[lo, hi)`.
pub open spec fn within(v: int, lo: int, hi: int) -> bool {
    lo <= v < hi
}

/// `v` brought into `[0, hi]`: first raised to 0, then lowered to `hi`.
pub open spec fn clamp_to(v: int, hi: int) -> int {
    if v < 0 {
        0
    } else if v > hi {
        hi
    } else {
        v
    }
}

/// Compares the smallest and largest members of two ranges, as the ranges'
/// iterators give them, to tell whether the ranges overlap.
pub fn ranges_intersect(range1: Range<isize>, range2: Range<isize>) -> (r: bool)
    ensures
        r == ranges_meet(range1.start as int, range1.end as int, range2.start as int, range2.end as int),
{
    let first_before_second_ends = if range1.start >= range1.end {
        true
    } else {
        range2.start < range2.end && range1.start < range2.end
    };
    let second_before_first_ends = if range2.start >= range2.end {
        true
    } else {
        range1.start < range1.end && range2.start < range1.end
    };
    first_before_second_ends && second_before_first_ends
}

/// A paddle: its top-left corner, width and height, in pixels.
#[derive(Clone, Copy, Debug)]
pub struct Paddle {
    pub x: isize,
    pub y: isize,
    pub w: isize,
    pub h: isize,
}

impl Paddle {
    /// The paddle lies inside the field.
    pub open spec fn wf(&self) -> bool {
        &&& 0 <= self.x
        &&& 0 <= self.w
        &&& self.x + self.w <= WIDTH
        &&& 0 <= self.y
        &&& 0 <= self.h
        &&& self.y + self.h <= HEIGHT
    }

    /// Tells whether the paddle lies inside the field.
    pub fn is_valid(&self) -> (r: bool)
        ensures
            r == self.wf(),
    {
        0 <= self.x && 0 <= self.w && self.x <= WIDTH - self.w && 0 <= self.y && 0 <= self.h
            && self.y <= HEIGHT - self.h
    }

    /// `after` is `before` once this paddle has checked it for contact,
    /// where a bounce off the paddle's side gives the ball the horizontal
    /// step `angle`.
    ///
    /// A ball whose centre is over the paddle's horizontal extent is pushed
    /// sideways by the paddle's width. A ball that meets the top or bottom
    /// edge flips its vertical direction; one that meets the left or right
    /// edge while moving towards the paddle's half of the field flips its
    /// horizontal direction and takes the new step.
    pub open spec fn struck(&self, before: Ball, after: Ball, angle: int) -> bool {
        let bx = to_pixels(before.x as int);
        let by = to_pixels(before.y as int);
        let left = self.x as int;
        let right = self.x + self.w;
        let top = self.y as int;
        let bottom = self.y + self.h;
        let push = if left <= bx <= right {
            if bx < (right - left) / 2 {
                -self.w
            } else {
                self.w as int
            }
        } else {
            0
        };
        let ball_left = bx - BALL_RADIUS;
        let ball_right = bx + BALL_RADIUS;
        let ball_top = by - BALL_RADIUS;
        let ball_bottom = by + BALL_RADIUS;
        let hit_y = ranges_meet(left, right, ball_left, ball_right) && (within(
            top,
            ball_top,
            ball_bottom,
        ) || within(bottom, ball_top, ball_bottom));
        let hit_x = ranges_meet(top, bottom, ball_top, ball_bottom) && (within(
            left,
            ball_left,
            ball_right,
        ) || within(right, ball_left, ball_right)) && before.inverted_x == (self.x < WIDTH / 2);
        &&& after.x == before.x + push
        &&& after.y == before.y
        &&& after.inverted_y == (before.inverted_y != hit_y)
        &&& after.inverted_x == (before.inverted_x != hit_x)
        &&& after.angle == if hit_x {
            angle
        } else {
            before.angle as int
        }
        &&& after.speed == before.speed
        &&& after.scores() == before.scores()
    }

    /// This paddle after one key press, up when `up` holds.
    pub open spec fn key_moved(&self, up: bool) -> Paddle {
        Paddle {
            y: clamp_to(self.y + if up { -KEY_STEP } else { KEY_STEP as int }, HEIGHT - self.h) as isize,
            ..*self
        }
    }

    /// The vertical position this paddle takes after one unit step, up when `up` holds.
    pub open spec fn stepped_y(&self, up: bool) -> int {
        clamp_to(self.y + if up { -1int } else { 1int }, HEIGHT - self.h)
    }

    /// Whether the computer-driven paddle chases `ball` on this tick: the
    /// ball's centre is outside the paddle's middle band and the ball
    /// travels towards the paddle's half of the field.
    pub open spec fn chases(&self, ball: Ball) -> bool {
        let target = to_pixels(ball.y as int);
        &&& !within(target, self.y + 2 * BALL_RADIUS, self.y + self.h - 2 * BALL_RADIUS)
        &&& (self.x < WIDTH / 2) != !ball.inverted_x
    }

    /// A paddle at its starting place on the left or the right side of the field.
    pub fn new(left: bool) -> (r: Self)
        ensures
            r.wf(),
            r.x == if left {
                PADDLE_OFFSET as int
            } else {
                WIDTH - PADDLE_OFFSET
            },
            r.y == PADDLE_START_Y,
            r.w == PADDLE_WIDTH,
            r.h == PADDLE_HEIGHT,
    {
        Self {
            x: if left {
                PADDLE_OFFSET
            } else {
                WIDTH - PADDLE_OFFSET
            },
            y: PADDLE_START_Y,
            w: PADDLE_WIDTH,
            h: PADDLE_HEIGHT,
        }
    }

    /// Checks the ball for contact with this paddle, where a bounce off the
    /// paddle's side gives the ball the horizontal step `angle`.
    pub fn collision_with(&self, ball: &mut Ball, angle: isize)
        requires
            self.wf(),
            old(ball).wf(),
            0 <= angle <= BALL_SPEED,
        ensures
            final(ball).wf(),
            self.struck(*old(ball), *final(ball), angle as int),
    {
        let bx = ball.x / PHYSICS_SCALE;
        let by = ball.y / PHYSICS_SCALE;

        let top = self.y;
        let bottom = self.y + self.h;
        let left = self.x;
        let right = self.x + self.w;

        if left <= bx && bx <= right {
            let push: isize = if bx < (right - left) / 2 {
                -self.w
            } else {
                self.w
            };
            ball.x = ball.x + push;
        }

        let ball_left = bx - BALL_RADIUS;
        let ball_right = bx + BALL_RADIUS;
        let ball_top = by - BALL_RADIUS;
        let ball_bottom = by + BALL_RADIUS;

        let touches_top = ball_top <= top && top < ball_bottom;
        let touches_bottom = ball_top <= bottom && bottom < ball_bottom;
        if ranges_intersect(left..right, ball_left..ball_right) && (touches_top || touches_bottom) {
            ball.invert_y();
        }

        let touches_left = ball_left <= left && left < ball_right;
        let touches_right = ball_left <= right && right < ball_right;
        let approaching = ball.inverted_x == (self.x < WIDTH / 2);
        if ranges_intersect(top..bottom, ball_top..ball_bottom) && (touches_left || touches_right)
            && approaching {
            ball.invert_x();
            ball.set_angle(angle);
        }
    }

    /// Checks the ball for contact with this paddle; a bounce off the
    /// paddle's side gives the ball a random horizontal step.
    pub fn collision(&self, ball: &mut Ball)
        requires
            self.wf(),
            old(ball).wf(),
        ensures
            final(ball).wf(),
            exists|angle: int|
                ANGLE_MIN <= angle < ANGLE_MAX && #[trigger] self.struck(
                    *old(ball),
                    *final(ball),
                    angle,
                ),
    {
        let angle = random_in(ANGLE_MIN, ANGLE_MAX);
        self.collision_with(ball, angle);
    }

    /// Moves the paddle one pixel, up when `dir` holds, keeping it inside the field.
    pub fn move_player(&mut self, dir: bool)
        requires
            old(self).wf(),
        ensures
            final(self).wf(),
            final(self).y == old(self).stepped_y(dir),
            final(self).x == old(self).x,
            final(self).w == old(self).w,
            final(self).h == old(self).h,
    {
        self.y = self.y + if dir {
            -1
        } else {
            1
        };
        if self.y < 0 {
            self.y = 0;
        }
        if self.y > HEIGHT - self.h {
            self.y = HEIGHT - self.h;
        }
    }

    /// Moves the paddle down by `val` pixels (up when negative), keeping it inside the field.
    pub fn move_by(&mut self, val: isize)
        requires
            old(self).wf(),
            isize::MIN <= old(self).y + val <= isize::MAX,
        ensures
            final(self).wf(),
            final(self).y == clamp_to(old(self).y + val, HEIGHT - old(self).h),
            final(self).x == old(self).x,
            final(self).w == old(self).w,
            final(self).h == old(self).h,
    {
        self.y = self.y + val;
        if self.y < 0 {
            self.y = 0;
        }
        if self.y > HEIGHT - self.h {
            self.y = HEIGHT - self.h;
        }
    }

    /// Moves the computer-driven paddle one pixel towards the ball when it
    /// chases it.
    pub fn move_ai(&mut self, ball: &Ball)
        requires
            old(self).wf(),
        ensures
            final(self).wf(),
            final(self).y == if old(self).chases(*ball) {
                old(self).stepped_y(to_pixels(ball.y as int) < old(self).y + 2 * BALL_RADIUS)
            } else {
                old(self).y as int
            },
            final(self).x == old(self).x,
            final(self).w == old(self).w,
            final(self).h == old(self).h,
    {
        let start = self.y + BALL_RADIUS * 2;
        let end = self.y + self.h - BALL_RADIUS * 2;
        let target = ball.y / PHYSICS_SCALE;
        if !(start <= target && target < end) && ((self.x < WIDTH / 2) ^ !ball.inverted_x) {
            self.move_player(target < start);
        }
    }
}

/// Moves a player's paddle by one key press, up when `direction` holds.
pub fn move_player(player: &mut Paddle, direction: bool)
    requires
        old(player).wf(),
    ensures
        final(player).wf(),
        *final(player) == old(player).key_moved(direction),
{
    player.move_by(
        if direction {
            -KEY_STEP
        } else {
            KEY_STEP
        },
    );
}

} // verus!
