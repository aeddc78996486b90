//! The orchestrator's tick loop: scoring, the win-condition state machine,
//! the bounded trail, and the particle effects.
use pong::game::{Game, GameState, TRAIL_LIMIT};
use pong::geom::Vec2D;
use pong::{WINDOW_HEIGHT, WINDOW_WIDTH, WINNING_SCORE};

/// Puts the ball just inside the left edge, racing left along the middle of
/// the window, clear of both paddles, so the next tick scores for the AI.
fn aim_ball_at_left_edge(game: &mut Game) {
    game.ball.position = Vec2D::new(5_000, 300_000);
    game.ball.velocity = Vec2D::new(-350_000, 0);
}

#[test]
fn game_new_starts_playing_with_zero_scores() {
    let game = Game::new(1);
    assert_eq!(game.player_score, 0);
    assert_eq!(game.ai_score, 0);
    assert_eq!(game.game_state, GameState::Playing);
    assert!(game.particles.is_empty());
    assert!(game.ball_trail.is_empty());
    assert_eq!(game.ball.position.x, WINDOW_WIDTH / 2);
    assert_eq!(game.ball.position.y, WINDOW_HEIGHT / 2);
}

#[test]
fn game_ai_scores_when_ball_exits_left() {
    let mut game = Game::new(2);
    aim_ball_at_left_edge(&mut game);

    let events = game.update(16, false, false);

    assert!(events.ai_scored);
    assert!(!events.player_scored);
    assert_eq!(game.ai_score, 1);
    assert_eq!(game.player_score, 0);
    assert!(game.ball_trail.is_empty());
    assert_eq!(game.ball.position.x, WINDOW_WIDTH / 2);
    assert_eq!(game.ball.position.y, WINDOW_HEIGHT / 2);
    // The reset re-rolled the velocity into one of the two cones.
    assert!(game.ball.velocity.x != 0);
    assert!(game.ball.velocity.y.abs() <= game.ball.velocity.x.abs());
    // Score particles were spawned at the ball's last position.
    assert!(game.particles.len() >= 15);
}

#[test]
fn game_player_scores_when_ball_exits_right() {
    let mut game = Game::new(3);
    game.ball.position = Vec2D::new(795_000, 300_000);
    game.ball.velocity = Vec2D::new(350_000, 0);

    let events = game.update(16, false, false);

    assert!(events.player_scored);
    assert_eq!(game.player_score, 1);
    assert_eq!(game.ai_score, 0);
}

#[test]
fn game_reaching_winning_score_ends_round_and_freezes() {
    let mut game = Game::new(4);
    for _ in 0..WINNING_SCORE {
        aim_ball_at_left_edge(&mut game);
        game.update(16, false, false);
    }
    assert_eq!(game.ai_score, WINNING_SCORE);
    assert_eq!(game.game_state, GameState::GameOver);

    // Once over, ticks change nothing at all.
    let ball_pos = game.ball.position;
    let player_y = game.player_paddle.position.y;
    let ai_y = game.ai_paddle.position.y;
    let trail_len = game.ball_trail.len();
    let events = game.update(16, true, false);
    assert!(!events.wall_hit && !events.paddle_hit && !events.player_scored && !events.ai_scored);
    assert_eq!(game.ball.position, ball_pos);
    assert_eq!(game.player_paddle.position.y, player_y);
    assert_eq!(game.ai_paddle.position.y, ai_y);
    assert_eq!(game.ball_trail.len(), trail_len);
    assert_eq!(game.ai_score, WINNING_SCORE);
    assert_eq!(game.game_state, GameState::GameOver);

    // A restart request brings a fresh round.
    game.handle_input(true);
    assert_eq!(game.player_score, 0);
    assert_eq!(game.ai_score, 0);
    assert_eq!(game.game_state, GameState::Playing);
    assert!(game.particles.is_empty());
    assert!(game.ball_trail.is_empty());
}

#[test]
fn game_restart_request_ignored_while_playing() {
    let mut game = Game::new(5);
    game.update(16, false, false);
    let score = game.ai_score;
    game.handle_input(true);
    assert_eq!(game.game_state, GameState::Playing);
    assert_eq!(game.ai_score, score);
}

#[test]
fn ball_trail_never_exceeds_limit() {
    let mut game = Game::new(6);
    for i in 0..30 {
        game.update(16, false, false);
        assert!(game.ball_trail.len() <= TRAIL_LIMIT);
        if i >= 10 {
            assert_eq!(game.ball_trail.len(), TRAIL_LIMIT);
        }
    }
}

#[test]
fn paddle_hit_spawns_particles_and_reverses_ball() {
    let mut game = Game::new(7);
    // Park the ball just right of the player's paddle, moving left into it.
    game.ball.position = Vec2D::new(50_000, game.player_paddle.position.y);
    game.ball.velocity = Vec2D::new(-350_000, 0);
    let before = game.particles.len();

    let events = game.update(16, false, false);

    assert!(events.paddle_hit);
    assert!(game.ball.velocity.x > 0);
    assert_eq!(game.particles.len(), before + 8);
}

#[test]
fn wall_hit_reported_when_ball_rides_the_wall() {
    let mut game = Game::new(8);
    game.ball.position = Vec2D::new(400_000, 0);
    game.ball.velocity = Vec2D::new(100_000, -350_000);

    let events = game.update(16, false, false);

    assert!(events.wall_hit);
    assert!(game.ball.velocity.y > 0);
}

#[test]
fn player_input_moves_player_paddle() {
    let mut game = Game::new(9);
    let y0 = game.player_paddle.position.y;
    game.update(100, true, false);
    assert_eq!(game.player_paddle.position.y, y0 - 30_000);
    let y1 = game.player_paddle.position.y;
    game.update(100, false, true);
    assert_eq!(game.player_paddle.position.y, y1 + 30_000);
    // Both held at once cancel to no motion.
    let y2 = game.player_paddle.position.y;
    game.update(100, true, true);
    assert_eq!(game.player_paddle.position.y, y2);
}

#[test]
fn ai_paddle_chases_ball_with_deadband() {
    let mut game = Game::new(10);
    // Ball far above the AI paddle's center: the AI moves up.
    game.ball.position = Vec2D::new(400_000, 50_000);
    game.ball.velocity = Vec2D::new(100_000, 0);
    let y0 = game.ai_paddle.position.y;
    game.update(100, false, false);
    assert_eq!(game.ai_paddle.position.y, y0 - 24_000);

    // Ball centered on the AI paddle: within the deadband, it holds still.
    let mut game2 = Game::new(11);
    let ai_center = game2.ai_paddle.position.y + 40_000;
    game2.ball.position = Vec2D::new(400_000, ai_center - 7_500);
    game2.ball.velocity = Vec2D::new(100_000, 0);
    let y2 = game2.ai_paddle.position.y;
    game2.update(100, false, false);
    assert_eq!(game2.ai_paddle.position.y, y2);
}

#[test]
fn particles_age_out_over_time() {
    let mut game = Game::new(12);
    aim_ball_at_left_edge(&mut game);
    game.update(16, false, false);
    assert!(game.particles.len() >= 15);
    // Park the ball so the next tick neither collides nor scores, then step
    // past every possible lifetime: all particles expire.
    game.ball.position = Vec2D::new(400_000, 300_000);
    game.ball.velocity = Vec2D::new(0, 0);
    game.update(2_500, false, false);
    assert!(game.particles.is_empty());
}
