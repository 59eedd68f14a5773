use snake_core::apple::Apple;
use snake_core::game::{FrameInput, GameState, TIME_TO_MOVE_MS};
use snake_core::particles::{ParticleSystem, Rgba, Vec2};
use snake_core::snake::Direction;

fn pool() -> ParticleSystem {
    ParticleSystem::create_radial(
        500,
        vec![Rgba { r: 0, g: 0, b: 0, a: 255 }],
        25,
        Vec2 { x: 320_000, y: 240_000 },
        40,
        250,
    )
}

fn idle(dt_ms: i32) -> FrameInput {
    FrameInput { turn: None, speed_up: false, restart: false, dt_ms }
}

#[test]
fn fresh_session_state() {
    let g = GameState::new();
    assert_eq!(g.snake.parts.len(), 3);
    assert_eq!(g.apple, Apple { x: 200, y: 200, time_left_ms: 5000 });
    assert_eq!(g.score, 0);
    assert!(!g.game_over);
    assert_eq!(g.time_since_last_move_ms, 0);
    assert!(!g.enlarge_snake);
}

#[test]
fn accumulator_only_moves_the_snake_when_due() {
    let mut g = GameState::new();
    let mut particles = pool();
    g.frame(&mut particles, idle(100));
    assert_eq!(g.snake.head().x, 120);
    assert_eq!(g.time_since_last_move_ms, 100);
    g.frame(&mut particles, idle(50));
    assert_eq!(g.snake.head().x, 140);
    assert_eq!(g.time_since_last_move_ms, 0);
}

#[test]
fn speed_key_doubles_the_accumulated_time() {
    let mut g = GameState::new();
    let mut particles = pool();
    g.frame(&mut particles, FrameInput { turn: None, speed_up: true, restart: false, dt_ms: 80 });
    // 160 ms accumulated out of a 150 ms interval: the snake moved
    assert_eq!(g.snake.head().x, 140);
    assert_eq!(g.time_since_last_move_ms, 0);
}

#[test]
fn consumption_scores_grows_once_and_bursts() {
    let mut g = GameState::new();
    let mut particles = pool();
    // put the apple under the head
    g.apple = Apple { x: 120, y: 120, time_left_ms: 5000 };
    let consumed = g.frame(&mut particles, idle(0));
    assert!(consumed);
    assert_eq!(g.score, 1);
    assert!(g.enlarge_snake);
    // the burst spawned at the eaten apple's centre
    for p in &particles.particles {
        assert_eq!(p.position, Vec2 { x: 130_000, y: 130_000 });
        assert_eq!(p.lifetime_ms, 500);
    }
    // the apple moved somewhere free with a full timer
    assert!(!(g.apple.x == 120 && g.apple.y == 120));
    assert_eq!(g.apple.time_left_ms, 5000);
    // park the apple away from the snake's path for the rest of the test
    g.apple = Apple { x: 400, y: 400, time_left_ms: 5000 };
    // the pending growth is consumed by exactly one tick
    let consumed_again = g.frame(&mut particles, idle(TIME_TO_MOVE_MS));
    assert!(!consumed_again);
    assert_eq!(g.snake.parts.len(), 4);
    assert!(!g.enlarge_snake);
    g.frame(&mut particles, idle(TIME_TO_MOVE_MS));
    assert_eq!(g.snake.parts.len(), 4);
}

#[test]
fn timer_expiry_relocates_the_apple() {
    let mut g = GameState::new();
    let mut particles = pool();
    g.apple.time_left_ms = 0;
    g.frame(&mut particles, idle(10));
    assert_eq!(g.apple.time_left_ms, 5000 - 10);
    assert_eq!(g.apple.x % 20, 0);
    assert_eq!(g.apple.y % 20, 0);
}

#[test]
fn apple_timer_counts_down_while_playing() {
    let mut g = GameState::new();
    let mut particles = pool();
    g.frame(&mut particles, idle(100));
    assert_eq!(g.apple.time_left_ms, 4900);
}

#[test]
fn hitting_the_wall_ends_the_game_until_restart() {
    let mut g = GameState::new();
    let mut particles = pool();
    // head starts at x = 120 heading right; the last inside cell is x = 600
    let mut frames = 0;
    while !g.game_over && frames < 100 {
        g.frame(&mut particles, idle(TIME_TO_MOVE_MS));
        frames += 1;
    }
    assert!(g.game_over);
    assert_eq!(g.snake.head().x, 620);
    // game over is sticky without a restart input
    g.frame(&mut particles, idle(TIME_TO_MOVE_MS));
    g.frame(&mut particles, idle(TIME_TO_MOVE_MS));
    assert!(g.game_over);
    assert_eq!(g.snake.head().x, 620);
    // restart reseeds the snake and resets the score
    g.frame(
        &mut particles,
        FrameInput { turn: None, speed_up: false, restart: true, dt_ms: 0 },
    );
    assert!(!g.game_over);
    assert_eq!(g.score, 0);
    assert_eq!(g.snake.parts.len(), 3);
    assert_eq!(g.snake.head().x, 120);
}

#[test]
fn turn_input_updates_only_the_pending_heading() {
    let mut g = GameState::new();
    let mut particles = pool();
    g.frame(
        &mut particles,
        FrameInput { turn: Some(Direction::Up), speed_up: false, restart: false, dt_ms: 10 },
    );
    // no tick was due, so the snake has not moved yet
    assert_eq!(g.snake.head().x, 120);
    assert_eq!(g.snake.head().y, 120);
    assert_eq!(g.snake.pending_heading, Direction::Up);
    g.frame(&mut particles, idle(TIME_TO_MOVE_MS));
    assert_eq!(g.snake.head().y, 100);
}

#[test]
fn reversal_input_is_ignored_by_the_frame() {
    let mut g = GameState::new();
    let mut particles = pool();
    g.frame(
        &mut particles,
        FrameInput { turn: Some(Direction::Left), speed_up: false, restart: false, dt_ms: 10 },
    );
    assert_eq!(g.snake.pending_heading, Direction::Right);
}

#[test]
fn running_into_itself_ends_the_game() {
    let mut g = GameState::new();
    let mut particles = pool();
    // grow the snake a few times so it is long enough to bite itself
    for _ in 0..4 {
        g.apple = Apple { x: g.snake.head().x, y: g.snake.head().y, time_left_ms: 5000 };
        g.frame(&mut particles, idle(0));
        g.frame(&mut particles, idle(TIME_TO_MOVE_MS));
    }
    assert_eq!(g.snake.parts.len(), 7);
    assert!(!g.game_over);
    // a tight left-turn box: up, left, down walks the head back onto the body
    for d in [Direction::Up, Direction::Left, Direction::Down] {
        g.frame(
            &mut particles,
            FrameInput { turn: Some(d), speed_up: false, restart: false, dt_ms: TIME_TO_MOVE_MS },
        );
    }
    assert!(g.game_over);
}
