//! A two-paddle ball game: a deterministic, fixed-timestep-agnostic simulation
//! of paddles, a ball with wall and paddle reflection, particle effects, a
//! bounded ball trail, scoring, and a win-condition state machine, together
//! with a WAV byte-generation utility for the game's sound effects.
//!
//! All geometry is carried in fixed-point units: positions, sizes and speeds
//! are integers counting thousandths of a pixel (one `UNIT` per pixel), and
//! time steps are integers counting milliseconds. Speeds are given per second.
use vstd::prelude::*;

pub mod ball;
pub mod game;
pub mod geom;
pub mod num;
pub mod paddle;
pub mod particle;
pub mod rng;
pub mod wav;

verus! {

/// Fixed-point scale: coordinate units per pixel.
pub const UNIT: i64 = 1000;

/// Window width, in coordinate units (800 pixels).
pub const WINDOW_WIDTH: i64 = 800 * UNIT;

/// Window height, in coordinate units (600 pixels).
pub const WINDOW_HEIGHT: i64 = 600 * UNIT;

/// Paddle width, in coordinate units (15 pixels).
pub const PADDLE_WIDTH: i64 = 15 * UNIT;

/// Paddle height, in coordinate units (80 pixels).
pub const PADDLE_HEIGHT: i64 = 80 * UNIT;

/// Player paddle speed, in coordinate units per second (300 pixels/s).
pub const PADDLE_SPEED: i64 = 300 * UNIT;

/// Ball side length, in coordinate units (15 pixels).
pub const BALL_SIZE: i64 = 15 * UNIT;

/// Ball speed, in coordinate units per second (350 pixels/s).
pub const BALL_SPEED: i64 = 350 * UNIT;

/// Half the paddle height: the distance from a paddle's corner to its
/// vertical center.
pub const PADDLE_HALF_HEIGHT: i64 = 40 * UNIT;

/// Half the ball's side length.
pub const BALL_HALF: i64 = 7500;

/// Horizontal center of the window.
pub const WINDOW_CENTER_X: i64 = 400 * UNIT;

/// Vertical center of the window.
pub const WINDOW_CENTER_Y: i64 = 300 * UNIT;

/// First score that ends a round.
pub const WINNING_SCORE: i32 = 5;

/// Largest accepted time step, in milliseconds (1000 seconds). A bound this
/// generous never constrains a real frame time; it only keeps every product
/// of a speed and a time step inside `i64`.
pub const MAX_STEP_MS: u64 = 1000000;

} // verus!
