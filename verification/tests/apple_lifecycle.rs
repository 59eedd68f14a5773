use snake_core::apple::{place_apple, snap_apple_to_grid, Apple, MAX_APPLE_DURATION_MS};
use snake_core::game::play_area;
use snake_core::snake::{create_starting_snake, Direction, Snake, SnakePart};

#[test]
fn snap_subtracts_the_remainder() {
    let a = snap_apple_to_grid(&Apple { x: 207, y: 395, time_left_ms: 1234 });
    assert_eq!(a.x, 200);
    assert_eq!(a.y, 380);
    assert_eq!(a.time_left_ms, 1234);
}

#[test]
fn snap_keeps_exact_multiples() {
    let a = snap_apple_to_grid(&Apple { x: 200, y: 380, time_left_ms: 7 });
    assert_eq!(a.x, 200);
    assert_eq!(a.y, 380);
}

#[test]
fn thousand_placements_avoid_the_snake_and_stay_aligned() {
    let area = play_area();
    let mut parts = Vec::new();
    for i in 0..10 {
        parts.push(SnakePart { x: 100 + 20 * i, y: 120, direction: Direction::Right });
    }
    let snake = Snake { parts, pending_heading: Direction::Right };
    let mut apple = Apple { x: 200, y: 200, time_left_ms: 0 };
    for _ in 0..1000 {
        place_apple(&mut apple, &snake, &area);
        assert_eq!(apple.x % 20, 0);
        assert_eq!(apple.y % 20, 0);
        assert!(apple.x >= area.x && apple.x + 20 <= area.x + area.width);
        assert!(apple.y >= area.y && apple.y + 20 <= area.y + area.height);
        assert_eq!(apple.time_left_ms, MAX_APPLE_DURATION_MS);
        for p in &snake.parts {
            assert!(!(apple.x == p.x && apple.y == p.y));
        }
    }
}

#[test]
fn placement_on_a_full_board_keeps_the_position_and_rewinds_the_timer() {
    // a one-cell board fully covered by the snake
    let area = snake_core::geometry::Rect { x: 20, y: 40, width: 20, height: 20 };
    let snake = Snake {
        parts: vec![SnakePart { x: 20, y: 40, direction: Direction::Right }],
        pending_heading: Direction::Right,
    };
    let mut apple = Apple { x: 200, y: 200, time_left_ms: -3 };
    place_apple(&mut apple, &snake, &area);
    assert_eq!(apple.x, 200);
    assert_eq!(apple.y, 200);
    assert_eq!(apple.time_left_ms, MAX_APPLE_DURATION_MS);
}

#[test]
fn placement_fills_the_last_free_cell() {
    // a two-cell board with one cell taken: placement must find the other
    let area = snake_core::geometry::Rect { x: 20, y: 40, width: 40, height: 20 };
    let snake = Snake {
        parts: vec![SnakePart { x: 20, y: 40, direction: Direction::Right }],
        pending_heading: Direction::Right,
    };
    let mut apple = Apple { x: 200, y: 200, time_left_ms: 0 };
    place_apple(&mut apple, &snake, &area);
    assert_eq!(apple.x, 40);
    assert_eq!(apple.y, 40);
    assert_eq!(apple.time_left_ms, MAX_APPLE_DURATION_MS);
}

#[test]
fn starting_snake_leaves_room_for_the_apple() {
    let area = play_area();
    let snake = create_starting_snake();
    let mut apple = Apple { x: 200, y: 200, time_left_ms: 0 };
    for _ in 0..50 {
        place_apple(&mut apple, &snake, &area);
        assert!(!(apple.x == 80 && apple.y == 120));
        assert!(!(apple.x == 100 && apple.y == 120));
        assert!(!(apple.x == 120 && apple.y == 120));
    }
}
