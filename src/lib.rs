//! Physics and rules of a two-paddle Pong game played on a canvas.
//!
//! Positions of the ball are kept in physics units (hundredths of a pixel);
//! paddles live in pixels. The ball moves along a fixed-length step whose
//! horizontal part is drawn at random on every serve.
pub mod ball;
pub mod consts;
pub mod funcs;
pub mod game;
pub mod paddle;
mod random;
pub mod sqrt;
pub mod text;
