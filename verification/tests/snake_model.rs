use snake_core::snake::{create_starting_snake, Direction, Snake, SnakePart};

fn part(x: i32, y: i32, direction: Direction) -> SnakePart {
    SnakePart { x, y, direction }
}

#[test]
fn starting_snake_shape() {
    let s = create_starting_snake();
    assert_eq!(s.parts.len(), 3);
    assert_eq!(s.parts[0], part(80, 120, Direction::Right));
    assert_eq!(s.parts[1], part(100, 120, Direction::Right));
    assert_eq!(s.parts[2], part(120, 120, Direction::Right));
    assert_eq!(s.pending_heading, Direction::Right);
}

#[test]
fn head_is_last_segment() {
    let s = create_starting_snake();
    assert_eq!(s.head(), part(120, 120, Direction::Right));
}

#[test]
fn turn_to_opposite_is_rejected() {
    let mut s = create_starting_snake();
    s.turn(Direction::Left);
    assert_eq!(s.pending_heading, Direction::Right);
    s.turn(Direction::Up);
    assert_eq!(s.pending_heading, Direction::Up);
    // still judged against the head segment's stored heading, which is Right
    s.turn(Direction::Left);
    assert_eq!(s.pending_heading, Direction::Up);
}

#[test]
fn advance_without_growth_shifts_every_segment() {
    let mut s = create_starting_snake();
    s.advance(false);
    assert_eq!(s.parts.len(), 3);
    assert_eq!(s.parts[0], part(100, 120, Direction::Right));
    assert_eq!(s.parts[1], part(120, 120, Direction::Right));
    assert_eq!(s.parts[2], part(140, 120, Direction::Right));
}

#[test]
fn advance_with_growth_adds_one_segment() {
    let mut s = create_starting_snake();
    s.advance(true);
    assert_eq!(s.parts.len(), 4);
    assert_eq!(s.parts[0], part(80, 120, Direction::Right));
    assert_eq!(s.parts[3], part(140, 120, Direction::Right));
}

#[test]
fn non_reversing_turns_never_reverse_the_head() {
    let mut s = create_starting_snake();
    let turns = [
        Direction::Up,
        Direction::Left,
        Direction::Down,
        Direction::Right,
        Direction::Up,
        Direction::Right,
    ];
    for t in turns {
        let before = s.head().direction;
        s.turn(t);
        s.advance(false);
        let opposite = match s.head().direction {
            Direction::Up => Direction::Down,
            Direction::Left => Direction::Right,
            Direction::Down => Direction::Up,
            Direction::Right => Direction::Left,
        };
        assert_ne!(before, opposite);
        let n = s.parts.len();
        let behind_opposite = match s.parts[n - 2].direction {
            Direction::Up => Direction::Down,
            Direction::Left => Direction::Right,
            Direction::Down => Direction::Up,
            Direction::Right => Direction::Left,
        };
        assert_ne!(s.head().direction, behind_opposite);
    }
}

#[test]
fn advance_moves_one_pitch_in_pending_heading() {
    let mut s = Snake {
        parts: vec![part(100, 100, Direction::Up), part(100, 80, Direction::Up)],
        pending_heading: Direction::Up,
    };
    s.turn(Direction::Left);
    s.advance(false);
    assert_eq!(s.head(), part(80, 80, Direction::Left));
    s.turn(Direction::Down);
    s.advance(false);
    assert_eq!(s.head(), part(80, 100, Direction::Down));
}
