//! A paddle: a rectangle moving vertically at a signed scalar speed, clamped
//! to the window after every step.
use vstd::prelude::*;

verus! {

use crate::geom::{Rect, Vec2D};
use crate::num::displacement;
use crate::{MAX_STEP_MS, PADDLE_HALF_HEIGHT, PADDLE_HEIGHT, PADDLE_WIDTH, WINDOW_HEIGHT};

/// Coordinates a paddle accepts without risking `i64` overflow in one step.
pub const PADDLE_POS_LIMIT: i64 = 1000000000000;

/// Largest paddle speed magnitude accepted, in units per second.
pub const PADDLE_VEL_LIMIT: i64 = 1000000000;

#[derive(Clone, Copy, Debug, PartialEq, Eq, Structural)]
pub struct Paddle {
    pub position: Vec2D,
    /// Vertical speed in units per second; negative moves up.
    pub velocity: i64,
}

/// One paddle step: integrate the vertical speed over `dt` milliseconds,
/// then clamp into `[0, WINDOW_HEIGHT - PADDLE_HEIGHT]`. The clamp applies
/// on every step, whatever the speed.
pub open spec fn paddle_update_spec(p: Paddle, dt: int) -> Paddle {
    let yi = p.position.y + displacement(p.velocity as int, dt);
    let yc = if yi < 0 {
        0
    } else if yi > WINDOW_HEIGHT - PADDLE_HEIGHT {
        (WINDOW_HEIGHT - PADDLE_HEIGHT) as int
    } else {
        yi
    };
    Paddle { position: Vec2D { x: p.position.x, y: yc as i64 }, velocity: p.velocity }
}

impl Paddle {
    pub fn new(x: i64, y: i64) -> (p: Paddle)
        ensures
            p.position.x == x,
            p.position.y == y,
            p.velocity == 0,
    {
        Paddle { position: Vec2D::new(x, y), velocity: 0 }
    }

    /// Advances the paddle by `dt` milliseconds and clamps it into the
    /// window; afterwards the vertical position always lies in
    /// `[0, WINDOW_HEIGHT - PADDLE_HEIGHT]`.
    pub fn update(&mut self, dt: u64)
        requires
            dt <= MAX_STEP_MS,
            -PADDLE_POS_LIMIT <= old(self).position.y <= PADDLE_POS_LIMIT,
            -PADDLE_VEL_LIMIT <= old(self).velocity <= PADDLE_VEL_LIMIT,
        ensures
            *final(self) == paddle_update_spec(*old(self), dt as int),
            0 <= final(self).position.y <= WINDOW_HEIGHT - PADDLE_HEIGHT,
            final(self).position.x == old(self).position.x,
            final(self).velocity == old(self).velocity,
    {
        let d = crate::num::scale_speed(self.velocity, dt);
        let yi = self.position.y + d;
        if yi < 0 {
            self.position.y = 0;
        } else if yi > WINDOW_HEIGHT - PADDLE_HEIGHT {
            self.position.y = WINDOW_HEIGHT - PADDLE_HEIGHT;
        } else {
            self.position.y = yi;
        }
    }

    /// The vertical center of the paddle.
    pub fn get_center_y(&self) -> (r: i64)
        requires
            -PADDLE_POS_LIMIT <= self.position.y <= PADDLE_POS_LIMIT,
        ensures
            r == self.position.y + PADDLE_HALF_HEIGHT,
    {
        self.position.y + PADDLE_HALF_HEIGHT
    }

    /// The paddle's bounding box.
    pub fn get_rect(&self) -> (r: Rect)
        ensures
            r == (Rect {
                x: self.position.x,
                y: self.position.y,
                w: PADDLE_WIDTH,
                h: PADDLE_HEIGHT,
            }),
    {
        Rect::new(self.position.x, self.position.y, PADDLE_WIDTH, PADDLE_HEIGHT)
    }
}

} // verus!
