//! The ball: a moving square that bounces elastically off the horizontal
//! walls and reflects off paddles at an angle set by where it struck.
use vstd::prelude::*;

verus! {

use crate::geom::{len_sq, overlaps_spec, Rect, Vec2D};
use crate::num::{
    displacement, div_round_zero, div_trunc, isqrt, isqrt_spec, lemma_isqrt_at_least, sin_milli,
    sin_milli_spec,
};
use crate::paddle::Paddle;
use crate::rng::GameRng;
use crate::{BALL_HALF, BALL_SIZE, BALL_SPEED, MAX_STEP_MS, PADDLE_HALF_HEIGHT, PADDLE_HEIGHT,
    PADDLE_WIDTH, WINDOW_CENTER_X, WINDOW_CENTER_Y, WINDOW_HEIGHT};

/// Coordinates and speeds a ball accepts without risking `i64` overflow.
pub const BALL_POS_LIMIT: i64 = 1000000000;

/// Largest ball speed magnitude accepted, in units per second.
pub const BALL_VEL_LIMIT: i64 = 1000000000;

/// One quarter pi, in microradians: the largest deflection angle a paddle
/// hit in the paddle's vertical span can produce.
pub const QUARTER_PI_URAD: i64 = 785398;

#[derive(Clone, Copy, Debug, PartialEq, Eq, Structural)]
pub struct Ball {
    pub position: Vec2D,
    pub velocity: Vec2D,
}

/// A freshly rolled ball velocity: vertical component `350 * s` for a draw
/// `s` uniform in `[-707, 707]` thousandths, horizontal component the
/// integer square root making the speed `BALL_SPEED`, pointing left or
/// right by a second draw. `|s| <= 707` keeps the direction within a
/// quarter-circle cone around the horizontal.
pub open spec fn cone_velocity_from(v: Vec2D, s: int) -> bool {
    &&& -707 <= s <= 707
    &&& v.y == 350 * s
    &&& {
        let m = isqrt_spec(BALL_SPEED * BALL_SPEED - v.y * v.y);
        v.x == m || v.x == -m
    }
}

pub open spec fn cone_velocity(v: Vec2D) -> bool {
    exists|s: int| cone_velocity_from(v, s)
}

/// Every cone velocity has speed `BALL_SPEED` up to integer rounding, a
/// nonzero horizontal component, and a vertical component no larger in
/// magnitude than the horizontal one (a 45-degree cone).
pub proof fn lemma_cone_velocity_props(v: Vec2D)
    requires
        cone_velocity(v),
    ensures
        BALL_SPEED * BALL_SPEED - 2 * BALL_SPEED <= len_sq(v) <= BALL_SPEED * BALL_SPEED,
        v.x != 0,
        v.x > 0 ==> v.y <= v.x && -v.x <= v.y,
        v.x < 0 ==> v.y <= -v.x && v.x <= v.y,
        -BALL_SPEED <= v.x <= BALL_SPEED,
        -BALL_SPEED <= v.y <= BALL_SPEED,
{
    let s = choose|s: int| cone_velocity_from(v, s);
    assert(-247450 <= v.y <= 247450) by (nonlinear_arith)
        requires -707 <= s <= 707 && v.y == 350 * s;
    assert(v.y * v.y <= 247450 * 247450) by (nonlinear_arith)
        requires -247450 <= v.y <= 247450;
    let n = BALL_SPEED * BALL_SPEED - v.y * v.y;
    crate::num::lemma_isqrt_exists(n);
    let m = isqrt_spec(n);
    assert(0 <= m && m * m <= n < (m + 1) * (m + 1));
    let ya = if v.y >= 0 { v.y as int } else { -v.y as int };
    assert(ya * ya == v.y * v.y) by (nonlinear_arith)
        requires ya == v.y || ya == -v.y;
    lemma_isqrt_at_least(n, ya);
    assert(m <= 350000) by {
        if m > 350000 {
            assert(m * m > 350000 * 350000) by (nonlinear_arith)
                requires m > 350000;
        }
    }
    assert(m >= 1) by {
        assert(n >= 1 * 1);
        lemma_isqrt_at_least(n, 1);
    }
    assert(len_sq(v) == m * m + v.y * v.y) by (nonlinear_arith)
        requires (v.x == m || v.x == -m) && len_sq(v) == v.x * v.x + v.y * v.y;
    assert(n < m * m + 2 * m + 1) by (nonlinear_arith)
        requires n < (m + 1) * (m + 1);
}

/// One ball step: integrate the velocity over `dt` milliseconds; if the
/// vertical position leaves `[0, WINDOW_HEIGHT - BALL_SIZE]` (boundary
/// included), flip the vertical velocity and clamp the position back into
/// that range. Horizontal motion is never constrained here.
pub open spec fn ball_update_spec(b: Ball, dt: int) -> Ball {
    let xi = b.position.x + displacement(b.velocity.x as int, dt);
    let yi = b.position.y + displacement(b.velocity.y as int, dt);
    if yi <= 0 || yi >= WINDOW_HEIGHT - BALL_SIZE {
        let yc = if yi < 0 {
            0
        } else if yi > WINDOW_HEIGHT - BALL_SIZE {
            (WINDOW_HEIGHT - BALL_SIZE) as int
        } else {
            yi
        };
        Ball {
            position: Vec2D { x: xi as i64, y: yc as i64 },
            velocity: Vec2D { x: b.velocity.x, y: (-b.velocity.y) as i64 },
        }
    } else {
        Ball { position: Vec2D { x: xi as i64, y: yi as i64 }, velocity: b.velocity }
    }
}

/// The deflection the paddle gives the ball, as the sine of the bounce
/// angle in thousandths: the signed distance from the ball's center to the
/// paddle's center, normalized by the paddle's half height into
/// thousandths, maps to an angle of at most a quarter pi at the paddle's
/// edge, whose fixed-point sine this is. An overlap hanging past the
/// paddle's vertical span normalizes beyond one and deflects beyond 45
/// degrees; that is kept, not clamped.
pub open spec fn bounce_sine(b: Ball, p: Paddle) -> int {
    let intersect = b.position.y + BALL_HALF - (p.position.y + PADDLE_HALF_HEIGHT);
    let angle = div_trunc(intersect * QUARTER_PI_URAD, 40000000);
    sin_milli_spec(angle)
}

/// Paddle reflection: on overlap of the two boxes, the vertical velocity
/// becomes `BALL_SPEED` times the bounce sine, the horizontal direction
/// reverses (judged by the sign of the incoming horizontal velocity) with
/// the magnitude that restores the speed to `BALL_SPEED`, and the ball is
/// pushed just outside the paddle's leading edge. Without overlap the ball
/// is unchanged.
pub open spec fn collide_spec(b: Ball, p: Paddle) -> Ball {
    let brect = Rect { x: b.position.x, y: b.position.y, w: BALL_SIZE, h: BALL_SIZE };
    let prect = Rect { x: p.position.x, y: p.position.y, w: PADDLE_WIDTH, h: PADDLE_HEIGHT };
    if overlaps_spec(brect, prect) {
        let s = bounce_sine(b, p);
        let vy = 350 * s;
        let m = isqrt_spec(BALL_SPEED * BALL_SPEED - vy * vy);
        let leftward = b.velocity.x > 0;
        let vx = if leftward {
            -m
        } else {
            m
        };
        let px = if leftward {
            p.position.x - BALL_SIZE
        } else {
            p.position.x + PADDLE_WIDTH
        };
        Ball {
            position: Vec2D { x: px as i64, y: b.position.y },
            velocity: Vec2D { x: vx as i64, y: vy as i64 },
        }
    } else {
        b
    }
}

impl Ball {
    /// A ball at `(x, y)` with a fresh random cone velocity: it starts
    /// moving predominantly left or right, never near-vertical.
    pub fn new(x: i64, y: i64, rng: &mut GameRng) -> (b: Ball)
        ensures
            b.position.x == x,
            b.position.y == y,
            cone_velocity(b.velocity),
            BALL_SPEED * BALL_SPEED - 2 * BALL_SPEED <= len_sq(b.velocity) <= BALL_SPEED
                * BALL_SPEED,
            b.velocity.x != 0,
            -BALL_SPEED <= b.velocity.x <= BALL_SPEED,
            -BALL_SPEED <= b.velocity.y <= BALL_SPEED,
    {
        let velocity = roll_velocity(rng);
        Ball { position: Vec2D::new(x, y), velocity }
    }

    /// The ball's bounding box.
    pub fn get_rect(&self) -> (r: Rect)
        ensures
            r == (Rect { x: self.position.x, y: self.position.y, w: BALL_SIZE, h: BALL_SIZE }),
    {
        Rect::new(self.position.x, self.position.y, BALL_SIZE, BALL_SIZE)
    }

    /// Advances the ball by `dt` milliseconds with elastic reflection off
    /// the horizontal walls; afterwards the vertical position always lies
    /// in `[0, WINDOW_HEIGHT - BALL_SIZE]`, and a ball that crossed a wall
    /// moving toward it leaves with the vertical velocity flipped away.
    pub fn update(&mut self, dt: u64)
        requires
            dt <= MAX_STEP_MS,
            -BALL_POS_LIMIT <= old(self).position.x <= BALL_POS_LIMIT,
            -BALL_POS_LIMIT <= old(self).position.y <= BALL_POS_LIMIT,
            -BALL_VEL_LIMIT <= old(self).velocity.x <= BALL_VEL_LIMIT,
            -BALL_VEL_LIMIT <= old(self).velocity.y <= BALL_VEL_LIMIT,
        ensures
            *final(self) == ball_update_spec(*old(self), dt as int),
            0 <= final(self).position.y <= WINDOW_HEIGHT - BALL_SIZE,
            final(self).velocity.x == old(self).velocity.x,
            final(self).velocity.y == old(self).velocity.y
                || final(self).velocity.y == -old(self).velocity.y,
            ({
                let yi = old(self).position.y + displacement(old(self).velocity.y as int,
                    dt as int);
                yi <= 0 && old(self).velocity.y < 0 ==> final(self).velocity.y > 0
            }),
            ({
                let yi = old(self).position.y + displacement(old(self).velocity.y as int,
                    dt as int);
                yi >= WINDOW_HEIGHT - BALL_SIZE && old(self).velocity.y > 0
                    ==> final(self).velocity.y < 0
            }),
    {
        let dx = crate::num::scale_speed(self.velocity.x, dt);
        let dy = crate::num::scale_speed(self.velocity.y, dt);
        self.position.x = self.position.x + dx;
        let yi = self.position.y + dy;
        if yi <= 0 || yi >= WINDOW_HEIGHT - BALL_SIZE {
            self.velocity.y = -self.velocity.y;
            self.position.y = if yi < 0 {
                0
            } else if yi > WINDOW_HEIGHT - BALL_SIZE {
                WINDOW_HEIGHT - BALL_SIZE
            } else {
                yi
            };
        } else {
            self.position.y = yi;
        }
    }

    /// Re-centers the ball in the window and rolls a fresh cone velocity,
    /// as after a score.
    pub fn reset(&mut self, rng: &mut GameRng)
        ensures
            final(self).position.x == WINDOW_CENTER_X,
            final(self).position.y == WINDOW_CENTER_Y,
            cone_velocity(final(self).velocity),
            BALL_SPEED * BALL_SPEED - 2 * BALL_SPEED <= len_sq(final(self).velocity) <= BALL_SPEED
                * BALL_SPEED,
            final(self).velocity.x != 0,
            -BALL_SPEED <= final(self).velocity.x <= BALL_SPEED,
            -BALL_SPEED <= final(self).velocity.y <= BALL_SPEED,
    {
        self.position = Vec2D::new(WINDOW_CENTER_X, WINDOW_CENTER_Y);
        self.velocity = roll_velocity(rng);
    }

    /// Reflects the ball off `paddle` when their boxes overlap (edges
    /// included): the new velocity has magnitude `BALL_SPEED`, its
    /// direction depends on where the ball struck the paddle, the
    /// horizontal direction reverses, and the ball is pushed outside the
    /// paddle's leading edge. Without overlap, a no-op.
    pub fn handle_paddle_collision(&mut self, paddle: &Paddle)
        requires
            -BALL_POS_LIMIT <= old(self).position.x <= BALL_POS_LIMIT,
            -BALL_POS_LIMIT <= old(self).position.y <= BALL_POS_LIMIT,
            -BALL_VEL_LIMIT <= old(self).velocity.x <= BALL_VEL_LIMIT,
            -BALL_VEL_LIMIT <= old(self).velocity.y <= BALL_VEL_LIMIT,
            -BALL_POS_LIMIT <= paddle.position.x <= BALL_POS_LIMIT,
            -BALL_POS_LIMIT <= paddle.position.y <= BALL_POS_LIMIT,
        ensures
            *final(self) == collide_spec(*old(self), *paddle),
            final(self).position.y == old(self).position.y,
            -BALL_SPEED <= old(self).velocity.x <= BALL_SPEED
                ==> -BALL_SPEED <= final(self).velocity.x <= BALL_SPEED,
            -BALL_SPEED <= old(self).velocity.y <= BALL_SPEED
                ==> -BALL_SPEED <= final(self).velocity.y <= BALL_SPEED,
    {
        let ball_rect = self.get_rect();
        let paddle_rect = paddle.get_rect();
        if ball_rect.overlaps(&paddle_rect) {
            let intersect = self.position.y + BALL_HALF - (paddle.position.y + PADDLE_HALF_HEIGHT);
            assert(-47500 <= intersect <= 47500);
            assert(-47500 * 785398 <= intersect * 785398 <= 47500 * 785398) by (nonlinear_arith)
                requires -47500 <= intersect <= 47500;
            let angle = div_round_zero(intersect * QUARTER_PI_URAD, 40000000);
            proof {
                lemma_angle_in_quarter(intersect as int);
            }
            let s = sin_milli(angle);
            let vy = 350 * s;
            assert(vy * vy <= 350000 * 350000 && vy * vy >= 0) by (nonlinear_arith)
                requires -350000 <= vy <= 350000;
            let m = isqrt((BALL_SPEED * BALL_SPEED - vy * vy) as u64);
            proof {
                assert(m * m <= BALL_SPEED * BALL_SPEED);
                if m > 350000 {
                    assert(m * m > 350000 * 350000) by (nonlinear_arith)
                        requires m > 350000;
                }
            }
            let leftward = self.velocity.x > 0;
            self.velocity.x = if leftward {
                -(m as i64)
            } else {
                m as i64
            };
            self.velocity.y = vy;
            self.position.x = if leftward {
                paddle.position.x - BALL_SIZE
            } else {
                paddle.position.x + PADDLE_WIDTH
            };
        }
    }
}

/// A bounded paddle intersection normalizes to an angle within a quarter
/// turn, where the fixed-point sine is defined.
proof fn lemma_angle_in_quarter(intersect: int)
    requires
        -47500 <= intersect <= 47500,
    ensures
        -1571 <= div_trunc(intersect * QUARTER_PI_URAD, 40000000) <= 1571,
{
    assert(-47500 * 785398 <= intersect * 785398 <= 47500 * 785398) by (nonlinear_arith)
        requires -47500 <= intersect <= 47500;
    if intersect * 785398 >= 0 {
        vstd::arithmetic::div_mod::lemma_div_is_ordered(intersect * 785398, (47500 * 785398) as int,
            40000000);
        vstd::arithmetic::div_mod::lemma_div_pos_is_pos(intersect * 785398, 40000000);
    } else {
        vstd::arithmetic::div_mod::lemma_div_is_ordered(-(intersect * 785398), (47500 * 785398) as int,
            40000000);
        vstd::arithmetic::div_mod::lemma_div_pos_is_pos(-(intersect * 785398), 40000000);
    }
}

/// Rolls a cone velocity: a vertical fraction uniform in `[-707, 707]`
/// thousandths, the matching horizontal magnitude from the integer square
/// root, and a coin for left or right.
fn roll_velocity(rng: &mut GameRng) -> (v: Vec2D)
    ensures
        cone_velocity(v),
        BALL_SPEED * BALL_SPEED - 2 * BALL_SPEED <= len_sq(v) <= BALL_SPEED * BALL_SPEED,
        v.x != 0,
        -BALL_SPEED <= v.x <= BALL_SPEED,
        -BALL_SPEED <= v.y <= BALL_SPEED,
{
    let s = rng.pick(-707, 708);
    let rightward = rng.flip();
    let vy = 350 * s;
    assert(vy * vy <= 247450 * 247450 && vy * vy >= 0) by (nonlinear_arith)
        requires -247450 <= vy <= 247450;
    let m = isqrt((BALL_SPEED * BALL_SPEED - vy * vy) as u64);
    proof {
        if m > 350000 {
            assert(m * m > 350000 * 350000) by (nonlinear_arith)
                requires m > 350000;
        }
    }
    let vx = if rightward {
        m as i64
    } else {
        -(m as i64)
    };
    let v = Vec2D { x: vx, y: vy };
    proof {
        assert(cone_velocity_from(v, s as int));
        lemma_cone_velocity_props(v);
    }
    v
}

} // verus!
