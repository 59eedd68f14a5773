use snake_core::collision::{does_snake_self_intersect, is_head_in_bounds};
use snake_core::game::play_area;
use snake_core::geometry::cell_in_rect;
use snake_core::snake::{Direction, Snake, SnakePart};

fn part(x: i32, y: i32, direction: Direction) -> SnakePart {
    SnakePart { x, y, direction }
}

fn straight(len: usize) -> Snake {
    let mut parts = Vec::new();
    for i in 0..len {
        parts.push(part(100 + 20 * i as i32, 120, Direction::Right));
    }
    Snake { parts, pending_heading: Direction::Right }
}

#[test]
fn straight_snake_never_self_intersects() {
    for len in 1..12 {
        assert!(!does_snake_self_intersect(&straight(len)));
    }
}

#[test]
fn loop_back_onto_head_cell_self_intersects() {
    // a square walk whose head lands back on the tail segment's cell
    let s = Snake {
        parts: vec![
            part(100, 100, Direction::Right),
            part(120, 100, Direction::Right),
            part(120, 80, Direction::Up),
            part(100, 80, Direction::Left),
            part(100, 100, Direction::Down),
        ],
        pending_heading: Direction::Down,
    };
    assert!(does_snake_self_intersect(&s));
}

#[test]
fn head_on_inner_edge_is_inside() {
    let area = play_area();
    // the play area spans x in [20, 620) and y in [40, 440) in whole cells
    assert!(cell_in_rect(20, 40, &area));
    assert!(cell_in_rect(600, 40, &area));
    assert!(cell_in_rect(20, 420, &area));
    assert!(cell_in_rect(600, 420, &area));
}

#[test]
fn one_pitch_beyond_any_edge_is_outside() {
    let area = play_area();
    assert!(!cell_in_rect(0, 120, &area));
    assert!(!cell_in_rect(620, 120, &area));
    assert!(!cell_in_rect(120, 20, &area));
    assert!(!cell_in_rect(120, 440, &area));
}

#[test]
fn head_in_bounds_uses_the_head_segment() {
    let area = play_area();
    let inside = Snake {
        parts: vec![part(580, 120, Direction::Right), part(600, 120, Direction::Right)],
        pending_heading: Direction::Right,
    };
    assert!(is_head_in_bounds(&inside, &area));
    let outside = Snake {
        parts: vec![part(600, 120, Direction::Right), part(620, 120, Direction::Right)],
        pending_heading: Direction::Right,
    };
    assert!(!is_head_in_bounds(&outside, &area));
}
