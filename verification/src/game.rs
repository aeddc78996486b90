//! The game orchestrator: owns both paddles, the ball, the scores, the
//! particle collection and the ball trail, advances the whole simulation one
//! tick at a time, applies the AI policy, detects scoring, and drives the
//! win-condition state machine.
use vstd::prelude::*;

verus! {

use crate::ball::{ball_update_spec, collide_spec, cone_velocity, Ball};
use crate::geom::Vec2D;
use crate::paddle::{paddle_update_spec, Paddle};
use crate::particle::{particle_update_spec, Particle};
use crate::rng::GameRng;
use crate::{BALL_HALF, BALL_SIZE, BALL_SPEED, MAX_STEP_MS, PADDLE_HALF_HEIGHT, PADDLE_HEIGHT,
    PADDLE_SPEED, PADDLE_WIDTH, UNIT, WINDOW_CENTER_X, WINDOW_CENTER_Y, WINDOW_HEIGHT,
    WINDOW_WIDTH, WINNING_SCORE};

/// The AI paddle's speed: slower than the player's for balance.
pub const AI_PADDLE_SPEED: i64 = 240 * UNIT;

/// The AI holds still while the ball's center is within this distance of
/// its own center.
pub const AI_DEADBAND: i64 = 10 * UNIT;

/// Most recent ball positions kept for the trail.
pub const TRAIL_LIMIT: usize = 10;

/// Particles spawned on a paddle hit.
pub const HIT_PARTICLES: usize = 8;

/// Particles spawned on a score.
pub const SCORE_PARTICLES: usize = 15;

/// Horizontal position of the player's paddle.
pub const PLAYER_PADDLE_X: i64 = 30 * UNIT;

/// Horizontal position of the AI's paddle.
pub const AI_PADDLE_X: i64 = WINDOW_WIDTH - 30 * UNIT - PADDLE_WIDTH;

/// Vertical position both paddles start and restart at: centered.
pub const PADDLE_START_Y: i64 = WINDOW_CENTER_Y - PADDLE_HALF_HEIGHT;

/// The single global mode: the round runs, or has been won.
#[derive(Clone, Copy, Debug, PartialEq, Eq, Structural)]
pub enum GameState {
    Playing,
    GameOver,
}

/// What one tick reported: fire-and-forget notifications the caller may
/// turn into sounds or ignore.
#[derive(Clone, Copy, Debug, PartialEq, Eq, Structural)]
pub struct TickEvents {
    pub wall_hit: bool,
    pub paddle_hit: bool,
    pub player_scored: bool,
    pub ai_scored: bool,
}

impl TickEvents {
    /// A tick on which nothing was reported.
    pub fn none() -> (e: TickEvents)
        ensures
            e == (TickEvents {
                wall_hit: false,
                paddle_hit: false,
                player_scored: false,
                ai_scored: false,
            }),
    {
        TickEvents { wall_hit: false, paddle_hit: false, player_scored: false, ai_scored: false }
    }
}

/// The player paddle's commanded speed from the two control signals:
/// full speed up or down, zero when neither or both are held.
pub open spec fn player_velocity_spec(up: bool, down: bool) -> i64 {
    if up && !down {
        (-PADDLE_SPEED) as i64
    } else if down && !up {
        PADDLE_SPEED
    } else {
        0
    }
}

/// The AI paddle's deadband policy: chase the ball's vertical center at
/// `AI_PADDLE_SPEED`, but hold still within `AI_DEADBAND` of it.
pub open spec fn ai_velocity_spec(ball: Ball, ai: Paddle) -> i64 {
    let ball_center = ball.position.y + BALL_HALF;
    let ai_center = ai.position.y + PADDLE_HALF_HEIGHT;
    if ball_center < ai_center - AI_DEADBAND {
        (-AI_PADDLE_SPEED) as i64
    } else if ball_center > ai_center + AI_DEADBAND {
        AI_PADDLE_SPEED
    } else {
        0
    }
}

/// The player paddle after one tick.
pub open spec fn moved_player_spec(g: Game, up: bool, down: bool, dt: int) -> Paddle {
    paddle_update_spec(
        Paddle { position: g.player_paddle.position, velocity: player_velocity_spec(up, down) },
        dt,
    )
}

/// The AI paddle after one tick.
pub open spec fn moved_ai_spec(g: Game, dt: int) -> Paddle {
    paddle_update_spec(
        Paddle { position: g.ai_paddle.position, velocity: ai_velocity_spec(g.ball, g.ai_paddle) },
        dt,
    )
}

/// The ball after one tick's motion and both paddle collisions, resolved
/// against the player's paddle first, before the scoring check.
pub open spec fn moved_ball_spec(g: Game, up: bool, down: bool, dt: int) -> Ball {
    collide_spec(
        collide_spec(ball_update_spec(g.ball, dt), moved_player_spec(g, up, down, dt)),
        moved_ai_spec(g, dt),
    )
}

/// A wall hit is reported when the ball sat at a horizontal wall both
/// before and after its step.
pub open spec fn wall_hit_spec(g: Game, dt: int) -> bool {
    let stepped = ball_update_spec(g.ball, dt);
    &&& (g.ball.position.y <= 0 || g.ball.position.y >= WINDOW_HEIGHT - BALL_SIZE)
    &&& (stepped.position.y <= 0 || stepped.position.y >= WINDOW_HEIGHT - BALL_SIZE)
}

/// The ball's center point.
pub open spec fn ball_center_spec(b: Ball) -> Vec2D {
    Vec2D { x: (b.position.x + BALL_HALF) as i64, y: (b.position.y + BALL_HALF) as i64 }
}

/// The trail after appending one center point: the oldest entry leaves
/// once the length would pass `TRAIL_LIMIT`.
pub open spec fn trail_next_spec(trail: Seq<Vec2D>, c: Vec2D) -> Seq<Vec2D> {
    let t = trail.push(c);
    if t.len() > TRAIL_LIMIT {
        t.subrange(1, t.len() as int)
    } else {
        t
    }
}

/// One aging pass over a particle sequence: every particle steps by `dt`,
/// survivors keep their relative order, expired ones leave.
pub open spec fn step_particles_spec(s: Seq<Particle>, dt: int) -> Seq<Particle>
    decreases s.len(),
{
    if s.len() == 0 {
        Seq::empty()
    } else {
        let p = particle_update_spec(s[0], dt);
        let rest = step_particles_spec(s.subrange(1, s.len() as int), dt);
        if p.lifetime > 0 {
            seq![p] + rest
        } else {
            rest
        }
    }
}

/// Appending one particle to the input of an aging pass appends its
/// stepped survivor (or nothing) to the output.
proof fn lemma_step_particles_snoc(s: Seq<Particle>, q: Particle, dt: int)
    ensures
        step_particles_spec(s.push(q), dt) == step_particles_spec(s, dt) + (
        if particle_update_spec(q, dt).lifetime > 0 {
            seq![particle_update_spec(q, dt)]
        } else {
            Seq::<Particle>::empty()
        }),
    decreases s.len(),
{
    let stepped_q = if particle_update_spec(q, dt).lifetime > 0 {
        seq![particle_update_spec(q, dt)]
    } else {
        Seq::<Particle>::empty()
    };
    if s.len() == 0 {
        assert(s.push(q)[0] == q);
        assert(s.push(q).subrange(1, 1) =~= Seq::<Particle>::empty());
        assert(step_particles_spec(Seq::<Particle>::empty(), dt) == Seq::<Particle>::empty());
        assert(s =~= Seq::<Particle>::empty());
        assert(step_particles_spec(s.push(q), dt) == if particle_update_spec(q, dt).lifetime > 0 {
            seq![particle_update_spec(q, dt)] + Seq::<Particle>::empty()
        } else {
            Seq::<Particle>::empty()
        });
        assert(step_particles_spec(s.push(q), dt) =~= step_particles_spec(s, dt) + stepped_q);
    } else {
        let tail = s.subrange(1, s.len() as int);
        let p = particle_update_spec(s[0], dt);
        assert(s.push(q)[0] == s[0]);
        assert(s.push(q).subrange(1, s.len() as int + 1) =~= tail.push(q));
        lemma_step_particles_snoc(tail, q, dt);
        assert(step_particles_spec(s.push(q), dt) == if p.lifetime > 0 {
            seq![p] + step_particles_spec(tail.push(q), dt)
        } else {
            step_particles_spec(tail.push(q), dt)
        });
        assert(step_particles_spec(s, dt) == if p.lifetime > 0 {
            seq![p] + step_particles_spec(tail, dt)
        } else {
            step_particles_spec(tail, dt)
        });
        if p.lifetime > 0 {
            assert(seq![p] + (step_particles_spec(tail, dt) + stepped_q) =~= (seq![p]
                + step_particles_spec(tail, dt)) + stepped_q);
        }
        assert(step_particles_spec(s.push(q), dt) =~= step_particles_spec(s, dt) + stepped_q);
    }
}

/// An aging pass never lengthens the sequence and keeps every survivor
/// well formed.
proof fn lemma_step_particles_wf(s: Seq<Particle>, dt: int)
    requires
        0 <= dt <= MAX_STEP_MS,
        forall|i: int| 0 <= i < s.len() ==> (#[trigger] s[i]).wf(),
    ensures
        step_particles_spec(s, dt).len() <= s.len(),
        forall|i: int|
            0 <= i < step_particles_spec(s, dt).len() ==> (#[trigger] step_particles_spec(s, dt)[i]).wf(),
    decreases s.len(),
{
    if s.len() == 0 {
    } else {
        let p = particle_update_spec(s[0], dt);
        let tail = s.subrange(1, s.len() as int);
        assert(forall|i: int| 0 <= i < tail.len() ==> (#[trigger] tail[i]).wf()) by {
            assert(forall|i: int| 0 <= i < tail.len() ==> tail[i] == s[i + 1]);
        }
        lemma_step_particles_wf(tail, dt);
        if p.lifetime > 0 {
            assert(s[0].wf());
            assert(dt < s[0].lifetime);
            crate::particle::lemma_particle_step_wf(s[0], dt);
        }
    }
}

/// Splitting the input of an aging pass splits its output.
proof fn lemma_step_particles_concat(a: Seq<Particle>, b: Seq<Particle>, dt: int)
    ensures
        step_particles_spec(a + b, dt) == step_particles_spec(a, dt) + step_particles_spec(b, dt),
    decreases b.len(),
{
    if b.len() == 0 {
        assert(a + b =~= a);
        assert(step_particles_spec(b, dt) =~= Seq::<Particle>::empty());
        assert(step_particles_spec(a, dt) + step_particles_spec(b, dt) =~= step_particles_spec(
            a,
            dt,
        ));
    } else {
        let head = b.subrange(0, b.len() - 1);
        let q = b[b.len() - 1];
        assert(b =~= head.push(q));
        assert(a + b =~= (a + head).push(q));
        lemma_step_particles_snoc(a + head, q, dt);
        lemma_step_particles_concat(a, head, dt);
        lemma_step_particles_snoc(head, q, dt);
        let chunk = if particle_update_spec(q, dt).lifetime > 0 {
            seq![particle_update_spec(q, dt)]
        } else {
            Seq::<Particle>::empty()
        };
        assert((step_particles_spec(a, dt) + step_particles_spec(head, dt)) + chunk
            =~= step_particles_spec(a, dt) + (step_particles_spec(head, dt) + chunk));
        assert(step_particles_spec(a + b, dt) =~= step_particles_spec(a, dt)
            + step_particles_spec(b, dt));
    }
}

/// An aging pass by less than every particle's remaining lifetime keeps
/// every particle.
proof fn lemma_step_particles_all_alive(s: Seq<Particle>, dt: int)
    requires
        0 <= dt,
        forall|i: int| 0 <= i < s.len() ==> (#[trigger] s[i]).lifetime > dt,
    ensures
        step_particles_spec(s, dt).len() == s.len(),
    decreases s.len(),
{
    if s.len() == 0 {
    } else {
        let tail = s.subrange(1, s.len() as int);
        assert(forall|i: int| 0 <= i < tail.len() ==> (#[trigger] tail[i]).lifetime > dt) by {
            assert(forall|i: int| 0 <= i < tail.len() ==> tail[i] == s[i + 1]);
        }
        lemma_step_particles_all_alive(tail, dt);
        assert(particle_update_spec(s[0], dt).lifetime > 0);
    }
}

/// One aging pass, executed: steps every particle by `dt` and keeps the
/// survivors in order.
fn age_particles(particles: &Vec<Particle>, dt: u64) -> (kept: Vec<Particle>)
    requires
        dt <= MAX_STEP_MS,
        forall|i: int| 0 <= i < particles@.len() ==> (#[trigger] particles@[i]).wf(),
    ensures
        kept@ == step_particles_spec(particles@, dt as int),
{
    let mut kept: Vec<Particle> = Vec::new();
    let n = particles.len();
    let mut i: usize = 0;
    assert(kept@ =~= step_particles_spec(particles@.subrange(0, 0), dt as int)) by {
        assert(particles@.subrange(0, 0) =~= Seq::<Particle>::empty());
    }
    while i < n
        invariant
            i <= n,
            n == particles@.len(),
            dt <= MAX_STEP_MS,
            forall|k: int| 0 <= k < particles@.len() ==> (#[trigger] particles@[k]).wf(),
            kept@ == step_particles_spec(particles@.subrange(0, i as int), dt as int),
        decreases n - i,
    {
        let p = particles[i];
        assert(p.wf());
        let mut q = p;
        let alive = q.update(dt);
        proof {
            assert(particles@.subrange(0, i as int).push(p) =~= particles@.subrange(
                0,
                i as int + 1,
            ));
            lemma_step_particles_snoc(particles@.subrange(0, i as int), p, dt as int);
        }
        if alive {
            kept.push(q);
            assert(kept@ =~= step_particles_spec(particles@.subrange(0, i as int + 1), dt as int));
        } else {
            assert(kept@ =~= step_particles_spec(particles@.subrange(0, i as int + 1), dt as int));
        }
        i = i + 1;
    }
    proof {
        assert(particles@.subrange(0, n as int) =~= particles@);
    }
    kept
}

/// Spawns `count` fresh particles at `(x, y)` and appends them.
fn spawn_burst(particles: &mut Vec<Particle>, rng: &mut GameRng, x: i64, y: i64, count: usize)
    requires
        -1000000000 <= x <= 1000000000,
        -1000000000 <= y <= 1000000000,
    ensures
        final(particles)@.len() == old(particles)@.len() + count,
        forall|i: int|
            0 <= i < old(particles)@.len() ==> final(particles)@[i] == old(particles)@[i],
        forall|i: int|
            old(particles)@.len() <= i < final(particles)@.len() ==> {
                let p = #[trigger] final(particles)@[i];
                &&& p.wf()
                &&& p.position.x == x
                &&& p.position.y == y
                &&& crate::particle::PARTICLE_LIFE_MIN <= p.lifetime
                    < crate::particle::PARTICLE_LIFE_MAX
            },
{
    let mut j: usize = 0;
    while j < count
        invariant
            j <= count,
            -1000000000 <= x <= 1000000000,
            -1000000000 <= y <= 1000000000,
            particles@.len() == old(particles)@.len() + j,
            forall|i: int|
                0 <= i < old(particles)@.len() ==> particles@[i] == old(particles)@[i],
            forall|i: int|
                old(particles)@.len() <= i < particles@.len() ==> {
                    let p = #[trigger] particles@[i];
                    &&& p.wf()
                    &&& p.position.x == x
                    &&& p.position.y == y
                    &&& crate::particle::PARTICLE_LIFE_MIN <= p.lifetime
                        < crate::particle::PARTICLE_LIFE_MAX
                },
        decreases count - j,
    {
        let p = Particle::new(x, y, rng);
        particles.push(p);
        j = j + 1;
    }
}

/// The whole game: both paddles, the ball, the scores, the mode, the
/// particle effects, the ball trail, and the injected randomness source.
pub struct Game {
    pub player_paddle: Paddle,
    pub ai_paddle: Paddle,
    pub ball: Ball,
    pub player_score: i32,
    pub ai_score: i32,
    pub game_state: GameState,
    pub particles: Vec<Particle>,
    pub ball_trail: Vec<Vec2D>,
    /// The injected randomness source all of this game's draws come from.
    pub rng: GameRng,
}

impl Game {
    /// The invariant every tick preserves: paddles sit at their columns
    /// inside the window, the ball sits inside the window with a bounded
    /// velocity, scores run from zero to the winning score, the mode is
    /// `GameOver` exactly when a score has reached it, the trail is
    /// bounded, and every particle is well formed.
    pub open spec fn wf(&self) -> bool {
        &&& self.player_paddle.position.x == PLAYER_PADDLE_X
        &&& self.ai_paddle.position.x == AI_PADDLE_X
        &&& 0 <= self.player_paddle.position.y <= WINDOW_HEIGHT - PADDLE_HEIGHT
        &&& 0 <= self.ai_paddle.position.y <= WINDOW_HEIGHT - PADDLE_HEIGHT
        &&& -PADDLE_SPEED <= self.player_paddle.velocity <= PADDLE_SPEED
        &&& -PADDLE_SPEED <= self.ai_paddle.velocity <= PADDLE_SPEED
        &&& 0 <= self.ball.position.x <= WINDOW_WIDTH
        &&& 0 <= self.ball.position.y <= WINDOW_HEIGHT - BALL_SIZE
        &&& -BALL_SPEED <= self.ball.velocity.x <= BALL_SPEED
        &&& -BALL_SPEED <= self.ball.velocity.y <= BALL_SPEED
        &&& 0 <= self.player_score <= WINNING_SCORE
        &&& 0 <= self.ai_score <= WINNING_SCORE
        &&& (self.game_state == GameState::GameOver <==> (self.player_score >= WINNING_SCORE
            || self.ai_score >= WINNING_SCORE))
        &&& self.ball_trail@.len() <= TRAIL_LIMIT
        &&& forall|i: int| 0 <= i < self.particles@.len() ==> (#[trigger] self.particles@[i]).wf()
    }

    /// A fresh game: paddles centered at their columns, ball centered with
    /// a random cone velocity, scores zero, mode `Playing`, no particles
    /// and no trail. All randomness flows from `seed`.
    pub fn new(seed: u64) -> (g: Game)
        ensures
            g.wf(),
            g.player_paddle.position.x == PLAYER_PADDLE_X,
            g.player_paddle.position.y == PADDLE_START_Y,
            g.player_paddle.velocity == 0,
            g.ai_paddle.position.x == AI_PADDLE_X,
            g.ai_paddle.position.y == PADDLE_START_Y,
            g.ai_paddle.velocity == 0,
            g.ball.position.x == WINDOW_CENTER_X,
            g.ball.position.y == WINDOW_CENTER_Y,
            cone_velocity(g.ball.velocity),
            g.player_score == 0,
            g.ai_score == 0,
            g.game_state == GameState::Playing,
            g.particles@.len() == 0,
            g.ball_trail@.len() == 0,
    {
        let mut rng = GameRng::new(seed);
        let ball = Ball::new(WINDOW_CENTER_X, WINDOW_CENTER_Y, &mut rng);
        Game {
            player_paddle: Paddle::new(PLAYER_PADDLE_X, PADDLE_START_Y),
            ai_paddle: Paddle::new(AI_PADDLE_X, PADDLE_START_Y),
            ball,
            player_score: 0,
            ai_score: 0,
            game_state: GameState::Playing,
            particles: Vec::new(),
            ball_trail: Vec::new(),
            rng,
        }
    }

    /// Observes the restart intent: while the round is over, a restart
    /// request resets the game; otherwise nothing changes.
    pub fn handle_input(&mut self, restart: bool)
        requires
            old(self).wf(),
        ensures
            final(self).wf(),
            old(self).game_state == GameState::GameOver && restart ==> reset_post(*old(self),
                *final(self)),
            !(old(self).game_state == GameState::GameOver && restart) ==> *final(self) == *old(
                self,
            ),
    {
        if self.game_state == GameState::GameOver {
            if restart {
                self.reset();
            }
        }
    }

    /// One simulation tick: a no-op once the round is over; otherwise it
    /// sets both paddle speeds from the control signals and the AI policy,
    /// advances both paddles and the ball, resolves the paddle collisions
    /// player-first, spawns a particle burst on a paddle hit, ages the
    /// particle collection, extends the bounded trail, and applies the
    /// scoring rule, switching to `GameOver` the instant a score reaches
    /// `WINNING_SCORE`. Returns the tick's event notifications.
    #[verifier::rlimit(100)]
    pub fn update(&mut self, dt: u64, up: bool, down: bool) -> (ev: TickEvents)
        requires
            old(self).wf(),
            dt <= MAX_STEP_MS,
        ensures
            final(self).wf(),
            old(self).game_state != GameState::Playing ==> *final(self) == *old(self) && ev == (
            TickEvents {
                wall_hit: false,
                paddle_hit: false,
                player_scored: false,
                ai_scored: false,
            }),
            old(self).game_state == GameState::Playing ==> ({
                let mp = moved_player_spec(*old(self), up, down, dt as int);
                let ma = moved_ai_spec(*old(self), dt as int);
                let mb = moved_ball_spec(*old(self), up, down, dt as int);
                let stepped = step_particles_spec(old(self).particles@, dt as int);
                &&& final(self).player_paddle == mp
                &&& final(self).ai_paddle == ma
                &&& ev.wall_hit == wall_hit_spec(*old(self), dt as int)
                &&& ev.paddle_hit == ((mb.velocity.x > 0) != (old(self).ball.velocity.x > 0))
                &&& ev.ai_scored == (mb.position.x < 0)
                &&& ev.player_scored == (mb.position.x > WINDOW_WIDTH)
                &&& (ev.ai_scored ==> {
                    &&& final(self).ai_score == old(self).ai_score + 1
                    &&& final(self).player_score == old(self).player_score
                    &&& final(self).ball_trail@.len() == 0
                    &&& final(self).ball.position.x == WINDOW_CENTER_X
                    &&& final(self).ball.position.y == WINDOW_CENTER_Y
                    &&& cone_velocity(final(self).ball.velocity)
                    &&& final(self).game_state == (if old(self).ai_score + 1 >= WINNING_SCORE {
                        GameState::GameOver
                    } else {
                        GameState::Playing
                    })
                })
                &&& (ev.player_scored ==> {
                    &&& final(self).player_score == old(self).player_score + 1
                    &&& final(self).ai_score == old(self).ai_score
                    &&& final(self).ball_trail@.len() == 0
                    &&& final(self).ball.position.x == WINDOW_CENTER_X
                    &&& final(self).ball.position.y == WINDOW_CENTER_Y
                    &&& cone_velocity(final(self).ball.velocity)
                    &&& final(self).game_state == (if old(self).player_score + 1 >= WINNING_SCORE {
                        GameState::GameOver
                    } else {
                        GameState::Playing
                    })
                })
                &&& (!ev.ai_scored && !ev.player_scored ==> {
                    &&& final(self).ball == mb
                    &&& final(self).player_score == old(self).player_score
                    &&& final(self).ai_score == old(self).ai_score
                    &&& final(self).game_state == GameState::Playing
                    &&& final(self).ball_trail@ == trail_next_spec(
                        old(self).ball_trail@,
                        ball_center_spec(mb),
                    )
                })
                &&& (forall|i: int|
                    0 <= i < stepped.len() ==> (#[trigger] final(self).particles@[i]) == stepped[i])
                &&& (!ev.paddle_hit && !ev.ai_scored && !ev.player_scored
                    ==> final(self).particles@.len() == stepped.len())
                &&& (dt < crate::particle::PARTICLE_LIFE_MIN ==> final(self).particles@.len()
                    == stepped.len() + (if ev.paddle_hit {
                    HIT_PARTICLES as int
                } else {
                    0
                }) + (if ev.ai_scored || ev.player_scored {
                    SCORE_PARTICLES as int
                } else {
                    0
                }))
                &&& (ev.ai_scored || ev.player_scored ==> {
                    &&& final(self).particles@.len() >= SCORE_PARTICLES
                    &&& (forall|i: int|
                        final(self).particles@.len() - SCORE_PARTICLES <= i
                            < final(self).particles@.len()
                            ==> (#[trigger] final(self).particles@[i]).position
                            == ball_center_spec(mb))
                })
            }),
    {
        let ghost g0 = *self;
        if self.game_state != GameState::Playing {
            return TickEvents::none();
        }
        let pv: i64 = if up && !down {
            -PADDLE_SPEED
        } else if down && !up {
            PADDLE_SPEED
        } else {
            0
        };
        self.player_paddle.velocity = pv;
        let ball_center_y = self.ball.position.y + BALL_HALF;
        let ai_center_y = self.ai_paddle.get_center_y();
        let av: i64 = if ball_center_y < ai_center_y - AI_DEADBAND {
            -AI_PADDLE_SPEED
        } else if ball_center_y > ai_center_y + AI_DEADBAND {
            AI_PADDLE_SPEED
        } else {
            0
        };
        self.ai_paddle.velocity = av;
        proof {
            assert(pv == player_velocity_spec(up, down));
            assert(av == ai_velocity_spec(g0.ball, g0.ai_paddle));
        }
        self.player_paddle.update(dt);
        self.ai_paddle.update(dt);
        proof {
            assert(self.player_paddle == moved_player_spec(g0, up, down, dt as int));
            assert(self.ai_paddle == moved_ai_spec(g0, dt as int));
        }
        let wall_before = self.ball.position.y <= 0 || self.ball.position.y >= WINDOW_HEIGHT
            - BALL_SIZE;
        self.ball.update(dt);
        let wall_after = self.ball.position.y <= 0 || self.ball.position.y >= WINDOW_HEIGHT
            - BALL_SIZE;
        let wall_hit = wall_before && wall_after;
        proof {
            crate::num::lemma_displacement_bound(g0.ball.velocity.x as int, dt as int, 350);
            crate::num::lemma_displacement_bound(g0.ball.velocity.y as int, dt as int, 350);
            assert(0 <= 350 * (dt as int) <= 350000000) by (nonlinear_arith)
                requires dt <= 1000000;
        }
        let went_right = self.ball.velocity.x > 0;
        self.ball.handle_paddle_collision(&self.player_paddle);
        self.ball.handle_paddle_collision(&self.ai_paddle);
        let paddle_hit = (self.ball.velocity.x > 0) != went_right;
        proof {
            assert(self.ball == moved_ball_spec(g0, up, down, dt as int));
            assert(-400000000 <= self.ball.position.x <= 400000000);
        }
        let ghost mb = self.ball;
        if paddle_hit {
            let cx = self.ball.position.x + BALL_HALF;
            let cy = self.ball.position.y + BALL_HALF;
            spawn_burst(&mut self.particles, &mut self.rng, cx, cy, HIT_PARTICLES);
        }
        let ghost pre_age = self.particles@;
        let ghost spawned = pre_age.subrange(g0.particles@.len() as int, pre_age.len() as int);
        proof {
            assert(pre_age =~= g0.particles@ + spawned);
            assert(forall|i: int| 0 <= i < pre_age.len() ==> (#[trigger] pre_age[i]).wf());
        }
        let kept = age_particles(&self.particles, dt);
        self.particles = kept;
        proof {
            lemma_step_particles_concat(g0.particles@, spawned, dt as int);
            lemma_step_particles_wf(pre_age, dt as int);
            lemma_step_particles_wf(g0.particles@, dt as int);
            if dt < 500 {
                lemma_step_particles_all_alive(spawned, dt as int);
            }
        }
        let cx = self.ball.position.x + BALL_HALF;
        let cy = self.ball.position.y + BALL_HALF;
        let c = Vec2D::new(cx, cy);
        self.ball_trail.push(c);
        if self.ball_trail.len() > TRAIL_LIMIT {
            self.ball_trail.remove(0);
        }
        proof {
            assert(self.ball_trail@ =~= trail_next_spec(g0.ball_trail@, ball_center_spec(mb)));
        }
        let mut player_scored = false;
        let mut ai_scored = false;
        if self.ball.position.x < 0 {
            ai_scored = true;
            self.ai_score = self.ai_score + 1;
            let sx = self.ball.position.x + BALL_HALF;
            let sy = self.ball.position.y + BALL_HALF;
            spawn_burst(&mut self.particles, &mut self.rng, sx, sy, SCORE_PARTICLES);
            self.ball.reset(&mut self.rng);
            self.ball_trail = Vec::new();
            if self.ai_score >= WINNING_SCORE {
                self.game_state = GameState::GameOver;
            }
        } else if self.ball.position.x > WINDOW_WIDTH {
            player_scored = true;
            self.player_score = self.player_score + 1;
            let sx = self.ball.position.x + BALL_HALF;
            let sy = self.ball.position.y + BALL_HALF;
            spawn_burst(&mut self.particles, &mut self.rng, sx, sy, SCORE_PARTICLES);
            self.ball.reset(&mut self.rng);
            self.ball_trail = Vec::new();
            if self.player_score >= WINNING_SCORE {
                self.game_state = GameState::GameOver;
            }
        }
        TickEvents { wall_hit, paddle_hit, player_scored, ai_scored }
    }

    /// Returns the game to a fresh round: scores zero, mode `Playing`,
    /// ball re-centered with a fresh random velocity, paddles re-centered,
    /// particles and trail cleared.
    pub fn reset(&mut self)
        requires
            old(self).wf(),
        ensures
            final(self).wf(),
            reset_post(*old(self), *final(self)),
    {
        self.player_score = 0;
        self.ai_score = 0;
        self.ball.reset(&mut self.rng);
        self.player_paddle.position.y = PADDLE_START_Y;
        self.ai_paddle.position.y = PADDLE_START_Y;
        self.game_state = GameState::Playing;
        self.particles = Vec::new();
        self.ball_trail = Vec::new();
    }
}

/// What `reset` leaves behind: scores zero, mode `Playing`, ball centered
/// with a cone velocity, both paddles re-centered at their old columns
/// with their speeds kept, no particles, no trail.
pub open spec fn reset_post(pre: Game, post: Game) -> bool {
    &&& post.player_score == 0
    &&& post.ai_score == 0
    &&& post.game_state == GameState::Playing
    &&& post.ball.position.x == WINDOW_CENTER_X
    &&& post.ball.position.y == WINDOW_CENTER_Y
    &&& cone_velocity(post.ball.velocity)
    &&& post.player_paddle.position.x == pre.player_paddle.position.x
    &&& post.player_paddle.position.y == PADDLE_START_Y
    &&& post.player_paddle.velocity == pre.player_paddle.velocity
    &&& post.ai_paddle.position.x == pre.ai_paddle.position.x
    &&& post.ai_paddle.position.y == PADDLE_START_Y
    &&& post.ai_paddle.velocity == pre.ai_paddle.velocity
    &&& post.particles@.len() == 0
    &&& post.ball_trail@.len() == 0
}

} // verus!
