//! A particle: a short-lived visual-effect entity spawned with a random
//! direction, speed and lifetime, integrated each tick and dropped by its
//! owner once its lifetime runs out.
use vstd::prelude::*;

verus! {

use crate::geom::{len_sq, Vec2D};
use crate::num::{displacement, div_trunc, isqrt, isqrt_spec, mul_frac_milli};
use crate::rng::GameRng;
use crate::MAX_STEP_MS;

/// Smallest random particle speed, in units per second (50 pixels/s).
pub const PARTICLE_SPEED_MIN: i64 = 50000;

/// Exclusive upper bound on the random particle speed (200 pixels/s).
pub const PARTICLE_SPEED_MAX: i64 = 200000;

/// Smallest random lifetime, in milliseconds.
pub const PARTICLE_LIFE_MIN: i64 = 500;

/// Exclusive upper bound on the random lifetime, in milliseconds.
pub const PARTICLE_LIFE_MAX: i64 = 2000;

/// Largest spawn coordinate magnitude a particle accepts.
pub const PARTICLE_SPAWN_LIMIT: i64 = 1000000000;

/// A freshly rolled particle velocity: a random magnitude `speed`, a
/// vertical fraction `s` in thousandths of it, and the horizontal
/// component from the integer square root restoring that magnitude,
/// pointing either way.
pub open spec fn particle_velocity_from(v: Vec2D, speed: int, s: int) -> bool {
    &&& PARTICLE_SPEED_MIN <= speed < PARTICLE_SPEED_MAX
    &&& -1000 <= s <= 1000
    &&& v.y == div_trunc(speed * s, 1000)
    &&& {
        let m = isqrt_spec(speed * speed - v.y * v.y);
        v.x == m || v.x == -m
    }
}

#[derive(Clone, Copy, Debug, PartialEq, Eq, Structural)]
pub struct Particle {
    pub position: Vec2D,
    pub velocity: Vec2D,
    /// Remaining lifetime in milliseconds; the owner drops the particle
    /// once this is no longer positive.
    pub lifetime: i64,
    /// The lifetime the particle was spawned with, kept for fading.
    pub max_lifetime: i64,
}

/// One particle step: integrate the velocity over `dt` milliseconds and
/// spend `dt` of the lifetime.
pub open spec fn particle_update_spec(p: Particle, dt: int) -> Particle {
    Particle {
        position: Vec2D {
            x: (p.position.x + displacement(p.velocity.x as int, dt)) as i64,
            y: (p.position.y + displacement(p.velocity.y as int, dt)) as i64,
        },
        velocity: p.velocity,
        lifetime: (p.lifetime - dt) as i64,
        max_lifetime: p.max_lifetime,
    }
}

impl Particle {
    /// A particle is well formed while its owner keeps it: its lifetime is
    /// positive and no larger than a spawn allows, its speed is below the
    /// spawn bound, and its position has drifted from a legal spawn point
    /// by at most the distance its remaining lifetime accounts for.
    pub open spec fn wf(&self) -> bool {
        &&& 0 < self.lifetime <= PARTICLE_LIFE_MAX
        &&& -PARTICLE_SPEED_MAX <= self.velocity.x <= PARTICLE_SPEED_MAX
        &&& -PARTICLE_SPEED_MAX <= self.velocity.y <= PARTICLE_SPEED_MAX
        &&& -(PARTICLE_SPAWN_LIMIT + 200 * (PARTICLE_LIFE_MAX - self.lifetime)) <= self.position.x
            <= PARTICLE_SPAWN_LIMIT + 200 * (PARTICLE_LIFE_MAX - self.lifetime)
        &&& -(PARTICLE_SPAWN_LIMIT + 200 * (PARTICLE_LIFE_MAX - self.lifetime)) <= self.position.y
            <= PARTICLE_SPAWN_LIMIT + 200 * (PARTICLE_LIFE_MAX - self.lifetime)
    }

    /// Spawns a particle at `(x, y)` with a random velocity of magnitude
    /// uniform in `[PARTICLE_SPEED_MIN, PARTICLE_SPEED_MAX)` pointing in a
    /// random direction over the full circle, and a random lifetime uniform
    /// in `[PARTICLE_LIFE_MIN, PARTICLE_LIFE_MAX)` milliseconds.
    pub fn new(x: i64, y: i64, rng: &mut GameRng) -> (p: Particle)
        requires
            -PARTICLE_SPAWN_LIMIT <= x <= PARTICLE_SPAWN_LIMIT,
            -PARTICLE_SPAWN_LIMIT <= y <= PARTICLE_SPAWN_LIMIT,
        ensures
            p.position.x == x,
            p.position.y == y,
            PARTICLE_LIFE_MIN <= p.lifetime < PARTICLE_LIFE_MAX,
            p.max_lifetime == p.lifetime,
            PARTICLE_SPEED_MIN * PARTICLE_SPEED_MIN - 2 * PARTICLE_SPEED_MAX <= len_sq(p.velocity)
                < PARTICLE_SPEED_MAX * PARTICLE_SPEED_MAX,
            exists|speed: int, s: int| particle_velocity_from(p.velocity, speed, s),
            p.wf(),
    {
        let speed = rng.pick(PARTICLE_SPEED_MIN, PARTICLE_SPEED_MAX);
        let s = rng.pick(-1000, 1001);
        let rightward = rng.flip();
        let vy = mul_frac_milli(speed, s);
        assert(vy * vy <= speed * speed && vy * vy >= 0) by (nonlinear_arith)
            requires -speed <= vy <= speed;
        assert(speed * speed < 200000 * 200000 && speed * speed >= 0) by (nonlinear_arith)
            requires 0 <= speed < 200000;
        let m = isqrt((speed * speed - vy * vy) as u64);
        proof {
            let n = speed * speed - vy * vy;
            assert(m * m <= n < (m + 1) * (m + 1));
            assert(m <= speed) by {
                if m > speed {
                    assert(speed * speed < m * m) by (nonlinear_arith)
                        requires 0 <= speed < m;
                }
            }
        }
        let vx = if rightward {
            m as i64
        } else {
            -(m as i64)
        };
        let lifetime = rng.pick(PARTICLE_LIFE_MIN, PARTICLE_LIFE_MAX);
        let p = Particle {
            position: Vec2D::new(x, y),
            velocity: Vec2D::new(vx, vy),
            lifetime,
            max_lifetime: lifetime,
        };
        proof {
            let n = speed * speed - vy * vy;
            assert(len_sq(p.velocity) == m * m + vy * vy || len_sq(p.velocity) == (-m) * (-m) + vy
                * vy);
            assert((-m) * (-m) == m * m) by (nonlinear_arith);
            assert(len_sq(p.velocity) <= speed * speed);
            assert(len_sq(p.velocity) > speed * speed - 2 * m - 1) by {
                assert(n < m * m + 2 * m + 1) by (nonlinear_arith)
                    requires n < (m + 1) * (m + 1);
            }
            assert(speed * speed >= 50000 * 50000) by (nonlinear_arith)
                requires speed >= 50000;
            assert(particle_velocity_from(p.velocity, speed as int, s as int));
        }
        p
    }

    /// Advances the particle by `dt` milliseconds and spends that much
    /// lifetime; returns whether the particle is still alive. The caller
    /// drops the particle when this returns false.
    pub fn update(&mut self, dt: u64) -> (alive: bool)
        requires
            dt <= MAX_STEP_MS,
            -2000000000 <= old(self).position.x <= 2000000000,
            -2000000000 <= old(self).position.y <= 2000000000,
            -1000000000 <= old(self).velocity.x <= 1000000000,
            -1000000000 <= old(self).velocity.y <= 1000000000,
            -1000000000 <= old(self).lifetime <= 1000000000,
        ensures
            *final(self) == particle_update_spec(*old(self), dt as int),
            alive == (final(self).lifetime > 0),
    {
        let dx = crate::num::scale_speed(self.velocity.x, dt);
        let dy = crate::num::scale_speed(self.velocity.y, dt);
        self.position.x = self.position.x + dx;
        self.position.y = self.position.y + dy;
        self.lifetime = self.lifetime - (dt as i64);
        self.lifetime > 0
    }
}

/// A surviving particle step keeps well-formedness: whenever an alive,
/// well-formed particle steps by less than its remaining lifetime, the
/// stepped particle is well formed again.
pub proof fn lemma_particle_step_wf(p: Particle, dt: int)
    requires
        p.wf(),
        0 <= dt <= MAX_STEP_MS,
        dt < p.lifetime,
    ensures
        particle_update_spec(p, dt).wf(),
{
    crate::num::lemma_displacement_bound(p.velocity.x as int, dt, 200);
    crate::num::lemma_displacement_bound(p.velocity.y as int, dt, 200);
    assert(200 * dt >= 0) by (nonlinear_arith)
        requires dt >= 0;
    assert(200 * (PARTICLE_LIFE_MAX - p.lifetime) + 200 * dt == 200 * (PARTICLE_LIFE_MAX - (
    p.lifetime - dt))) by (nonlinear_arith);
}

} // verus!
