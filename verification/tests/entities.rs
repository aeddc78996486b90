//! Behavior of the vector math, particles, paddles and the ball.
use pong::ball::Ball;
use pong::geom::Vec2D;
use pong::paddle::Paddle;
use pong::particle::Particle;
use pong::rng::GameRng;
use pong::{
    BALL_SIZE, BALL_SPEED, PADDLE_HEIGHT, PADDLE_SPEED, PADDLE_WIDTH, WINDOW_HEIGHT, WINDOW_WIDTH,
    WINNING_SCORE,
};

#[test]
fn vec2d_new_creates_correct_coordinates() {
    let v = Vec2D::new(3500, -2100);
    assert_eq!(v.x, 3500);
    assert_eq!(v.y, -2100);
}

#[test]
fn vec2d_zero_creates_origin() {
    let v = Vec2D::zero();
    assert_eq!(v.x, 0);
    assert_eq!(v.y, 0);
}

#[test]
fn vec2d_length_calculates_magnitude() {
    let v = Vec2D::new(3000, 4000);
    assert_eq!(v.length(), 5000);
}

#[test]
fn vec2d_normalize_creates_unit_vector() {
    let v = Vec2D::new(3000, 4000);
    let normalized = v.normalize();
    assert!((normalized.length() - 1000).abs() < 2);
    assert_eq!(normalized.x, 600);
    assert_eq!(normalized.y, 800);
}

#[test]
fn vec2d_normalize_zero_vector_returns_zero() {
    let v = Vec2D::zero();
    let normalized = v.normalize();
    assert_eq!(normalized.x, 0);
    assert_eq!(normalized.y, 0);
}

#[test]
fn window_dimensions_are_correct() {
    assert_eq!(WINDOW_WIDTH, 800_000);
    assert_eq!(WINDOW_HEIGHT, 600_000);
}

#[test]
fn paddle_dimensions_are_correct() {
    assert_eq!(PADDLE_WIDTH, 15_000);
    assert_eq!(PADDLE_HEIGHT, 80_000);
    assert_eq!(PADDLE_SPEED, 300_000);
}

#[test]
fn ball_specifications_are_correct() {
    assert_eq!(BALL_SIZE, 15_000);
    assert_eq!(BALL_SPEED, 350_000);
}

#[test]
fn game_rules_are_correct() {
    assert_eq!(WINNING_SCORE, 5);
}

#[test]
fn particle_new_creates_with_position() {
    let mut rng = GameRng::new(1);
    let particle = Particle::new(100_000, 200_000, &mut rng);
    assert_eq!(particle.position.x, 100_000);
    assert_eq!(particle.position.y, 200_000);
}

#[test]
fn particle_has_initial_velocity_and_lifetime() {
    let mut rng = GameRng::new(2);
    let particle = Particle::new(0, 0, &mut rng);
    // Velocity should be randomized but within reasonable bounds
    assert!(particle.velocity.length() > 0);
    assert!(particle.velocity.length() < 1_000_000);
    // Lifetime should be positive
    assert!(particle.lifetime > 0);
    assert!(particle.lifetime <= 2_000);
}

#[test]
fn particle_update_decreases_lifetime() {
    let mut rng = GameRng::new(3);
    let mut particle = Particle::new(0, 0, &mut rng);
    let initial_lifetime = particle.lifetime;
    let dt = 16; // ~60 FPS

    let still_alive = particle.update(dt);

    assert!(particle.lifetime < initial_lifetime);
    assert_eq!(still_alive, particle.lifetime > 0);
}

#[test]
fn particle_update_moves_position() {
    let mut rng = GameRng::new(4);
    let mut particle = Particle::new(100_000, 200_000, &mut rng);
    let initial_pos = particle.position;
    let dt = 16;

    particle.update(dt);

    // Position should have changed based on velocity
    let position_changed =
        particle.position.x != initial_pos.x || particle.position.y != initial_pos.y;
    assert!(position_changed);
}

#[test]
fn paddle_new_creates_at_position() {
    let paddle = Paddle::new(50_000, 100_000);
    assert_eq!(paddle.position.x, 50_000);
    assert_eq!(paddle.position.y, 100_000);
    assert_eq!(paddle.velocity, 0);
}

#[test]
fn paddle_get_center_y_calculates_correctly() {
    let paddle = Paddle::new(0, 100_000);
    let center_y = paddle.get_center_y();
    assert_eq!(center_y, 100_000 + PADDLE_HEIGHT / 2);
}

#[test]
fn paddle_get_rect_returns_correct_bounds() {
    let paddle = Paddle::new(50_000, 100_000);
    let rect = paddle.get_rect();
    assert_eq!(rect.x, 50_000);
    assert_eq!(rect.y, 100_000);
    assert_eq!(rect.w, PADDLE_WIDTH);
    assert_eq!(rect.h, PADDLE_HEIGHT);
}

#[test]
fn paddle_update_moves_position() {
    let mut paddle = Paddle::new(0, 100_000);
    paddle.velocity = 200_000; // Moving down
    let dt = 100; // 100ms

    paddle.update(dt);

    assert_eq!(paddle.position.y, 100_000 + 200_000 * 100 / 1000);
}

#[test]
fn paddle_update_clamps_to_window_bounds() {
    let mut paddle = Paddle::new(0, -10_000); // Above window
    paddle.velocity = -100_000; // Moving up

    paddle.update(100);

    assert_eq!(paddle.position.y, 0); // Should be clamped to top

    // Test bottom bound
    paddle.position.y = WINDOW_HEIGHT + 10_000; // Below window
    paddle.velocity = 100_000; // Moving down

    paddle.update(100);

    assert_eq!(paddle.position.y, WINDOW_HEIGHT - PADDLE_HEIGHT); // Should be clamped to bottom
}

#[test]
fn paddle_scenario_clamps_to_top() {
    // A paddle near the top moving further up ends the tick clamped to zero.
    let mut paddle = Paddle::new(0, 5_000);
    paddle.velocity = -100_000;
    paddle.update(100);
    assert_eq!(paddle.position.y, 0);
}

#[test]
fn ball_new_creates_at_position() {
    let mut rng = GameRng::new(5);
    let ball = Ball::new(400_000, 300_000, &mut rng);
    assert_eq!(ball.position.x, 400_000);
    assert_eq!(ball.position.y, 300_000);
}

#[test]
fn ball_new_has_initial_velocity() {
    let mut rng = GameRng::new(6);
    let ball = Ball::new(0, 0, &mut rng);
    // Ball should have some initial velocity
    assert!(ball.velocity.length() > 0);
    // Velocity should be normalized to BALL_SPEED
    assert!((ball.velocity.length() - BALL_SPEED).abs() < 1_000);
}

#[test]
fn ball_new_velocity_lies_in_a_cone() {
    // The initial direction is never near-vertical: the vertical component
    // never exceeds the horizontal one, whichever side the ball leaves for.
    for seed in 0..32 {
        let mut rng = GameRng::new(seed);
        let ball = Ball::new(0, 0, &mut rng);
        assert!(ball.velocity.x != 0);
        assert!(ball.velocity.y.abs() <= ball.velocity.x.abs());
    }
}

#[test]
fn ball_get_rect_returns_correct_bounds() {
    let mut rng = GameRng::new(7);
    let ball = Ball::new(100_000, 200_000, &mut rng);
    let rect = ball.get_rect();
    assert_eq!(rect.x, 100_000);
    assert_eq!(rect.y, 200_000);
    assert_eq!(rect.w, BALL_SIZE);
    assert_eq!(rect.h, BALL_SIZE);
}

#[test]
fn ball_update_moves_position() {
    let mut rng = GameRng::new(8);
    let mut ball = Ball::new(100_000, 200_000, &mut rng);
    let initial_velocity = ball.velocity;
    let dt = 16;

    ball.update(dt);

    let expected_x = 100_000 + initial_velocity.x * 16 / 1000;
    let expected_y = 200_000 + initial_velocity.y * 16 / 1000;

    assert_eq!(ball.position.x, expected_x);
    assert_eq!(ball.position.y, expected_y);
}

#[test]
fn ball_bounces_off_top_wall() {
    let mut rng = GameRng::new(9);
    let mut ball = Ball::new(100_000, -5_000, &mut rng); // Above window
    ball.velocity = Vec2D::new(100_000, -200_000); // Moving up

    ball.update(16);

    assert!(ball.velocity.y > 0); // Should be moving down now
    assert_eq!(ball.position.y, 0); // Should be at top boundary
}

#[test]
fn ball_bounces_off_bottom_wall() {
    let mut rng = GameRng::new(10);
    let mut ball = Ball::new(100_000, WINDOW_HEIGHT + 5_000, &mut rng); // Below window
    ball.velocity = Vec2D::new(100_000, 200_000); // Moving down

    ball.update(16);

    assert!(ball.velocity.y < 0); // Should be moving up now
    assert_eq!(ball.position.y, WINDOW_HEIGHT - BALL_SIZE); // Should be at bottom boundary
}

#[test]
fn ball_reset_centers_position() {
    let mut rng = GameRng::new(11);
    let mut ball = Ball::new(100_000, 200_000, &mut rng);

    ball.reset(&mut rng);

    assert_eq!(ball.position.x, WINDOW_WIDTH / 2);
    assert_eq!(ball.position.y, WINDOW_HEIGHT / 2);
    // Should have new random velocity
    assert!(ball.velocity.length() > 0);
}

#[test]
fn ball_paddle_collision_detection() {
    let paddle = Paddle::new(100_000, 200_000);
    let mut rng = GameRng::new(12);
    let mut ball = Ball::new(90_000, 220_000, &mut rng); // Positioned to collide
    ball.velocity = Vec2D::new(-200_000, 0); // Moving towards paddle

    let initial_velocity_x = ball.velocity.x;
    ball.handle_paddle_collision(&paddle);

    // Velocity X should be reversed if collision occurred
    if ball.get_rect().overlaps(&paddle.get_rect()) {
        assert!(ball.velocity.x != initial_velocity_x);
    }
}

#[test]
fn ball_collision_changes_angle_based_on_paddle_intersection() {
    let paddle = Paddle::new(100_000, 200_000);
    let mut rng = GameRng::new(13);
    let mut ball = Ball::new(90_000, 200_000, &mut rng); // Hit paddle at top
    ball.velocity = Vec2D::new(-200_000, 0);

    ball.handle_paddle_collision(&paddle);

    if ball.get_rect().overlaps(&paddle.get_rect()) {
        // Ball should have some Y velocity component based on intersection point
        assert!(ball.velocity.y != 0);
    }
}

#[test]
fn ball_moves_away_from_paddle_after_collision() {
    let paddle = Paddle::new(100_000, 200_000);
    let mut rng = GameRng::new(14);
    let mut ball = Ball::new(105_000, 220_000, &mut rng); // Inside paddle
    ball.velocity = Vec2D::new(-200_000, 0);

    ball.handle_paddle_collision(&paddle);

    let ball_rect = ball.get_rect();
    let paddle_rect = paddle.get_rect();

    // Ball should be moved outside paddle bounds
    assert!(!ball_rect.overlaps(&paddle_rect) || ball.velocity.x > 0);
}

#[test]
fn ball_collision_scenario_exact_reflection() {
    // Ball at (90, 200) px striking a paddle at (100, 200) px while moving
    // left: the boxes overlap, the horizontal direction reverses, the
    // near-top strike deflects upward, and the ball lands just outside the
    // paddle's right edge.
    let paddle = Paddle::new(100_000, 200_000);
    let mut rng = GameRng::new(15);
    let mut ball = Ball::new(90_000, 200_000, &mut rng);
    ball.velocity = Vec2D::new(-200_000, 0);

    assert!(ball.get_rect().overlaps(&paddle.get_rect()));
    ball.handle_paddle_collision(&paddle);

    assert!(ball.velocity.x > 0);
    assert!(ball.velocity.y != 0);
    // Exact fixed-point outcome of the reflection formula.
    assert_eq!(ball.velocity.y, -208_250);
    assert_eq!(ball.velocity.x, 281_303);
    assert_eq!(ball.position.x, 100_000 + PADDLE_WIDTH);
    // Speed is restored to BALL_SPEED up to integer rounding.
    assert!((ball.velocity.length() - BALL_SPEED).abs() < 1_000);
}

#[test]
fn ball_speed_magnitude_after_reset() {
    // After every reset the speed comes back to BALL_SPEED within rounding,
    // whatever the rolled direction.
    for seed in 0..16 {
        let mut rng = GameRng::new(seed);
        let mut ball = Ball::new(0, 0, &mut rng);
        ball.reset(&mut rng);
        assert!((ball.velocity.length() - BALL_SPEED).abs() < 1_000);
    }
}

#[test]
fn rng_pick_stays_in_range() {
    let mut rng = GameRng::new(99);
    assert_eq!(rng.pick(5, 6), 5);
    for _ in 0..64 {
        let r = rng.pick(-3, 7);
        assert!((-3..7).contains(&r));
    }
}
