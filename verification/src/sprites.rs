//! Sprite-orientation mapper: a pure, stateless translation of consecutive
//! segment headings into (sprite variant, rotation) draw commands, walked from
//! head to tail once per render frame. The decision tables here are the
//! single source of truth for how the snake is drawn; the renderer outside
//! the library only executes the commands.

use vstd::prelude::*;

use crate::snake::{Direction, Snake, SnakePart};

verus! {

/// The sprite variant a segment is drawn with. Sprites are authored facing
/// up and rotated clockwise by the command's rotation.
#[derive(Clone, Copy, PartialEq, Eq, Structural, Debug)]
pub enum SpriteKind {
    HeadStraight,
    HeadTurningLeft,
    HeadTurningRight,
    Middle,
    Corner,
}

/// One draw command: which sprite, where (top-left corner of the cell), and
/// how many degrees to rotate it clockwise about the cell's centre.
#[derive(Clone, Copy, PartialEq, Eq, Structural, Debug)]
pub struct SpriteCommand {
    pub kind: SpriteKind,
    pub x: i32,
    pub y: i32,
    pub rotation_deg: u16,
}

/// The fixed heading-to-rotation table for sprites authored facing up.
pub open spec fn spec_rotation_of(d: Direction) -> u16 {
    match d {
        Direction::Up => 0,
        Direction::Left => 270,
        Direction::Down => 180,
        Direction::Right => 90,
    }
}

/// Runtime lookup of `spec_rotation_of`.
pub fn map_direction_to_rotation(d: Direction) -> (r: u16)
    ensures
        r == spec_rotation_of(d),
{
    match d {
        Direction::Up => 0,
        Direction::Left => 270,
        Direction::Down => 180,
        Direction::Right => 90,
    }
}

/// The fixed corner-rotation table, keyed on (heading of the segment closer
/// to the head, heading of the corner segment itself). Only the eight true
/// 90-degree turn combinations matter; any other pair, which the rest of the
/// engine never produces for a corner, falls back to no rotation.
pub open spec fn spec_corner_rotation(segment_before: Direction, current: Direction) -> u16 {
    match segment_before {
        Direction::Up => match current {
            Direction::Left => 270,
            Direction::Right => 180,
            _ => 0,
        },
        Direction::Left => match current {
            Direction::Up => 90,
            Direction::Down => 180,
            _ => 0,
        },
        Direction::Down => match current {
            Direction::Left => 0,
            Direction::Right => 90,
            _ => 0,
        },
        Direction::Right => match current {
            Direction::Up => 0,
            Direction::Down => 270,
            _ => 0,
        },
    }
}

/// Runtime lookup of `spec_corner_rotation`.
pub fn map_difference_in_direction_to_rotation_for_snake_corner(
    segment_before: Direction,
    current: Direction,
) -> (r: u16)
    ensures
        r == spec_corner_rotation(segment_before, current),
{
    match segment_before {
        Direction::Up => match current {
            Direction::Left => 270,
            Direction::Right => 180,
            _ => 0,
        },
        Direction::Left => match current {
            Direction::Up => 90,
            Direction::Down => 180,
            _ => 0,
        },
        Direction::Down => match current {
            Direction::Left => 0,
            Direction::Right => 90,
            _ => 0,
        },
        Direction::Right => match current {
            Direction::Up => 0,
            Direction::Down => 270,
            _ => 0,
        },
    }
}

/// The command for the head segment, given the segment immediately behind it.
/// A head heading the same way as the segment behind it is the straight head
/// sprite rotated per the heading table; a turning head on the vertical axis
/// picks the turning-left or turning-right sprite unrotated; a turning head
/// on the horizontal axis falls back to the straight sprite unrotated.
pub open spec fn spec_head_command(head: SnakePart, behind: SnakePart) -> SpriteCommand {
    if head.direction == behind.direction {
        SpriteCommand {
            kind: SpriteKind::HeadStraight,
            x: head.x,
            y: head.y,
            rotation_deg: spec_rotation_of(head.direction),
        }
    } else {
        SpriteCommand {
            kind: match head.direction {
                Direction::Up => if behind.direction == Direction::Left {
                    SpriteKind::HeadTurningRight
                } else {
                    SpriteKind::HeadTurningLeft
                },
                Direction::Down => if behind.direction == Direction::Left {
                    SpriteKind::HeadTurningLeft
                } else {
                    SpriteKind::HeadTurningRight
                },
                Direction::Left => SpriteKind::HeadStraight,
                Direction::Right => SpriteKind::HeadStraight,
            },
            x: head.x,
            y: head.y,
            rotation_deg: 0,
        }
    }
}

/// The command for body segment `k` (`1 <= k < len - 1`, tail at 0). A
/// segment heading the same way as the segment closer to the head is a middle
/// sprite, upright for vertical travel and quarter-turned for horizontal
/// travel; the segment immediately behind the head is always treated as
/// straight, so no spurious corner appears next to a turning head. Any other
/// segment is a corner rotated per the corner table.
pub open spec fn spec_body_command(parts: Seq<SnakePart>, k: int) -> SpriteCommand {
    let cur = parts[k];
    let closer = parts[k + 1];
    if cur.direction == closer.direction || k == parts.len() - 2 {
        SpriteCommand {
            kind: SpriteKind::Middle,
            x: cur.x,
            y: cur.y,
            rotation_deg: match cur.direction {
                Direction::Up => 0,
                Direction::Down => 0,
                Direction::Left => 90,
                Direction::Right => 90,
            },
        }
    } else {
        SpriteCommand {
            kind: SpriteKind::Corner,
            x: cur.x,
            y: cur.y,
            rotation_deg: spec_corner_rotation(closer.direction, cur.direction),
        }
    }
}

/// Walk the body from head to tail in adjacent pairs and emit one draw
/// command per segment except the tail, head first. A single-segment snake
/// draws nothing, exactly as a pairwise walk of its body visits nothing.
pub fn snake_sprite_plan(snake: &Snake) -> (plan: Vec<SpriteCommand>)
    requires
        snake.parts@.len() >= 1,
    ensures
        plan@.len() == snake.parts@.len() - 1,
        snake.parts@.len() >= 2 ==> plan@[0] == spec_head_command(
            snake.parts@.last(),
            snake.parts@[snake.parts@.len() - 2],
        ),
        forall|m: int|
            1 <= m < plan@.len() ==> plan@[m] == spec_body_command(
                snake.parts@,
                snake.parts@.len() - 1 - m,
            ),
{
    let n = snake.parts.len();
    let mut plan: Vec<SpriteCommand> = Vec::new();
    if n < 2 {
        return plan;
    }
    let head = snake.parts[n - 1];
    let behind = snake.parts[n - 2];
    if head.direction == behind.direction {
        plan.push(
            SpriteCommand {
                kind: SpriteKind::HeadStraight,
                x: head.x,
                y: head.y,
                rotation_deg: map_direction_to_rotation(head.direction),
            },
        );
    } else {
        let kind = match head.direction {
            Direction::Up => if behind.direction == Direction::Left {
                SpriteKind::HeadTurningRight
            } else {
                SpriteKind::HeadTurningLeft
            },
            Direction::Down => if behind.direction == Direction::Left {
                SpriteKind::HeadTurningLeft
            } else {
                SpriteKind::HeadTurningRight
            },
            Direction::Left => SpriteKind::HeadStraight,
            Direction::Right => SpriteKind::HeadStraight,
        };
        plan.push(SpriteCommand { kind, x: head.x, y: head.y, rotation_deg: 0 });
    }
    let mut k: usize = n - 2;
    while k >= 1
        invariant
            n == snake.parts@.len(),
            2 <= n,
            k <= n - 2,
            plan@.len() == n - 1 - k,
            plan@[0] == spec_head_command(snake.parts@.last(), snake.parts@[n - 2]),
            forall|m: int|
                1 <= m < plan@.len() ==> plan@[m] == spec_body_command(
                    snake.parts@,
                    n as int - 1 - m,
                ),
        decreases k,
    {
        let cur = snake.parts[k];
        let closer = snake.parts[k + 1];
        let cmd = if cur.direction == closer.direction || k == n - 2 {
            SpriteCommand {
                kind: SpriteKind::Middle,
                x: cur.x,
                y: cur.y,
                rotation_deg: match cur.direction {
                    Direction::Up => 0,
                    Direction::Down => 0,
                    Direction::Left => 90,
                    Direction::Right => 90,
                },
            }
        } else {
            SpriteCommand {
                kind: SpriteKind::Corner,
                x: cur.x,
                y: cur.y,
                rotation_deg: map_difference_in_direction_to_rotation_for_snake_corner(
                    closer.direction,
                    cur.direction,
                ),
            }
        };
        plan.push(cmd);
        proof {
            assert(plan@[plan@.len() - 1] == spec_body_command(snake.parts@, k as int));
        }
        k = k - 1;
    }
    plan
}

} // verus!
