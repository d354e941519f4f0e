use vstd::prelude::*;

verus! {

/// Width of the playing field, in pixels.
pub const WIDTH: isize = 800;

/// Height of the playing field, in pixels.
pub const HEIGHT: isize = 600;

/// Radius of the ball, in pixels.
pub const BALL_RADIUS: isize = 15;

/// Physics units per pixel.
pub const PHYSICS_SCALE: isize = 100;

/// Length of the ball's step on each tick, in physics units.
pub const BALL_SPEED: isize = 350;

/// Smallest horizontal part of the ball's step that a serve draws.
pub const ANGLE_MIN: isize = 270;

/// Bound (excluded) on the horizontal part of the ball's step that a serve draws.
pub const ANGLE_MAX: isize = 350;

/// Smallest coordinate of the ball's centre inside the field, in physics units.
pub const BALL_MIN: isize = BALL_RADIUS * PHYSICS_SCALE;

/// Largest horizontal coordinate of the ball's centre inside the field, in physics units.
pub const BALL_MAX_X: isize = (WIDTH - BALL_RADIUS) * PHYSICS_SCALE;

/// Largest vertical coordinate of the ball's centre inside the field, in physics units.
pub const BALL_MAX_Y: isize = (HEIGHT - BALL_RADIUS) * PHYSICS_SCALE;

/// Horizontal coordinate of the centre of the field, in physics units.
pub const CENTER_X: isize = 40000;

/// Vertical coordinate of the centre of the field, in physics units.
pub const CENTER_Y: isize = 30000;

/// Bound on either coordinate of the ball, in physics units.
pub const POSITION_LIMIT: isize = 1000000;

/// Distance of a paddle's left edge from its side of the field, in pixels.
pub const PADDLE_OFFSET: isize = 50;

/// Height at which a paddle's top edge starts, in pixels.
pub const PADDLE_START_Y: isize = 250;

/// Width of a paddle, in pixels.
pub const PADDLE_WIDTH: isize = 30;

/// Height of a paddle, in pixels.
pub const PADDLE_HEIGHT: isize = 100;

/// Distance a paddle moves on one key press, in pixels.
pub const KEY_STEP: isize = 10;

} // verus!
