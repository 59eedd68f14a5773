//! Snake model: an ordered, non-empty sequence of body segments (tail first,
//! head last), each remembering the heading the snake had when it was laid
//! down, plus a buffered `pending_heading` applied at the next tick.

use vstd::prelude::*;

use crate::geometry::{aligned, GRID};

verus! {

/// The number of segments a freshly (re)started snake has.
pub const STARTING_SNAKE_LENGTH: u32 = 3;

/// X coordinate of the starting snake's tail segment.
pub const START_X: i32 = 80;

/// Y coordinate of every starting snake segment.
pub const START_Y: i32 = 120;

/// One of the four headings a snake segment can travel in.
#[derive(Clone, Copy, PartialEq, Eq, Structural, Debug)]
pub enum Direction {
    Up,
    Left,
    Down,
    Right,
}

/// The heading that would reverse `d`.
pub open spec fn opposite(d: Direction) -> Direction {
    match d {
        Direction::Up => Direction::Down,
        Direction::Left => Direction::Right,
        Direction::Down => Direction::Up,
        Direction::Right => Direction::Left,
    }
}

/// Horizontal displacement of one tick of travel in heading `d`.
pub open spec fn delta_x(d: Direction) -> int {
    match d {
        Direction::Up => 0,
        Direction::Left => -(GRID as int),
        Direction::Down => 0,
        Direction::Right => GRID as int,
    }
}

/// Vertical displacement of one tick of travel in heading `d`.
pub open spec fn delta_y(d: Direction) -> int {
    match d {
        Direction::Up => -(GRID as int),
        Direction::Left => 0,
        Direction::Down => GRID as int,
        Direction::Right => 0,
    }
}

/// A body segment: a grid-aligned cell coordinate plus the heading the snake
/// had when the segment was laid down.
#[derive(Clone, Copy, PartialEq, Eq, Structural, Debug)]
pub struct SnakePart {
    pub x: i32,
    pub y: i32,
    pub direction: Direction,
}

/// The snake: segments in insertion order (tail first, head last) and the
/// heading buffered for the next tick.
#[derive(Clone, PartialEq, Eq, Debug)]
pub struct Snake {
    pub parts: Vec<SnakePart>,
    pub pending_heading: Direction,
}

/// No segment was laid down travelling opposite to the segment right before
/// it: the snake never reverses onto itself.
pub open spec fn no_reversals(parts: Seq<SnakePart>) -> bool {
    forall|i: int|
        0 <= i < parts.len() - 1 ==> parts[i + 1].direction != opposite(parts[i].direction)
}

/// Every segment sits exactly on the grid.
pub open spec fn all_aligned(parts: Seq<SnakePart>) -> bool {
    forall|i: int|
        0 <= i < parts.len() ==> aligned(parts[i].x as int) && aligned(parts[i].y as int)
}

/// Well-formedness of the snake as a sequence plus its buffered heading:
/// non-empty, grid-aligned, never reversing, and the buffered heading can
/// never send the head back into the segment behind it.
pub open spec fn snake_wf_seq(parts: Seq<SnakePart>, pending: Direction) -> bool {
    &&& parts.len() >= 1
    &&& all_aligned(parts)
    &&& no_reversals(parts)
    &&& pending != opposite(parts.last().direction)
}

/// The head segment moved one grid pitch in heading `d`, with `d` stored as
/// the new segment's heading.
pub open spec fn spec_moved_head(h: SnakePart, d: Direction) -> SnakePart {
    SnakePart { x: (h.x + delta_x(d)) as i32, y: (h.y + delta_y(d)) as i32, direction: d }
}

/// The body after one tick: the tail is dropped unless the snake grows, and
/// the new head is appended last.
pub open spec fn spec_advanced_parts(parts: Seq<SnakePart>, pending: Direction, grow: bool) -> Seq<
    SnakePart,
> {
    let kept = if grow {
        parts
    } else {
        parts.drop_first()
    };
    kept.push(spec_moved_head(parts.last(), pending))
}

/// The `i`-th segment of a freshly started snake: a horizontal body heading
/// right, head last.
pub open spec fn spec_starting_part(i: int) -> SnakePart {
    SnakePart {
        x: (START_X + i * GRID) as i32,
        y: START_Y,
        direction: Direction::Right,
    }
}

/// The body of a freshly started snake.
pub open spec fn starting_parts() -> Seq<SnakePart> {
    Seq::new(STARTING_SNAKE_LENGTH as nat, |i: int| spec_starting_part(i))
}

impl Snake {
    /// Well-formedness carried by every snake the engine hands out.
    pub open spec fn wf(&self) -> bool {
        snake_wf_seq(self.parts@, self.pending_heading)
    }

    /// The most recently appended segment. The body is never empty while the
    /// game is active, so the head always exists.
    pub fn head(&self) -> (r: SnakePart)
        requires
            self.parts@.len() >= 1,
        ensures
            r == self.parts@.last(),
    {
        self.parts[self.parts.len() - 1]
    }

    /// Buffer a heading for the next tick. A request opposite to the current
    /// head heading would be an instant fatal self-reversal, so it is rejected
    /// as a no-op; any other request replaces the buffered heading. Turning
    /// never forces an immediate move: the buffered heading takes effect only
    /// at the next natural tick.
    pub fn turn(&mut self, requested: Direction)
        requires
            old(self).wf(),
        ensures
            final(self).wf(),
            final(self).parts == old(self).parts,
            final(self).pending_heading == if requested == opposite(
                old(self).parts@.last().direction,
            ) {
                old(self).pending_heading
            } else {
                requested
            },
    {
        let head = self.head();
        let rejected = match head.direction {
            Direction::Up => requested == Direction::Down,
            Direction::Left => requested == Direction::Right,
            Direction::Down => requested == Direction::Up,
            Direction::Right => requested == Direction::Left,
        };
        if !rejected {
            self.pending_heading = requested;
        }
        proof {
            assert(requested == opposite(old(self).parts@.last().direction) <==> rejected);
        }
    }

    /// One simulation tick: the head moves one grid pitch in the buffered
    /// heading, the new segment stores that heading, and unless the snake
    /// grows the oldest segment (the tail) is dropped first. This is the only
    /// mutation path for the body shape.
    #[verifier::rlimit(100)]
    pub fn advance(&mut self, grow: bool)
        requires
            old(self).wf(),
            -1_000_000_000 <= old(self).parts@.last().x <= 1_000_000_000,
            -1_000_000_000 <= old(self).parts@.last().y <= 1_000_000_000,
        ensures
            final(self).wf(),
            final(self).pending_heading == old(self).pending_heading,
            final(self).parts@ == spec_advanced_parts(
                old(self).parts@,
                old(self).pending_heading,
                grow,
            ),
            final(self).parts@.len() == old(self).parts@.len() + if grow {
                1int
            } else {
                0int
            },
            final(self).parts@.last() == spec_moved_head(
                old(self).parts@.last(),
                old(self).pending_heading,
            ),
    {
        let head = self.head();
        let new_head = match self.pending_heading {
            Direction::Up => SnakePart { x: head.x, y: head.y - GRID, direction: Direction::Up },
            Direction::Left => SnakePart {
                x: head.x - GRID,
                y: head.y,
                direction: Direction::Left,
            },
            Direction::Down => SnakePart { x: head.x, y: head.y + GRID, direction: Direction::Down },
            Direction::Right => SnakePart {
                x: head.x + GRID,
                y: head.y,
                direction: Direction::Right,
            },
        };
        if !grow {
            self.parts.remove(0);
        }
        self.parts.push(new_head);
        proof {
            let pend = old(self).pending_heading;
            let opre = old(self).parts@;
            let post = self.parts@;
            assert(post =~= spec_advanced_parts(opre, pend, grow));
            assert(new_head == spec_moved_head(opre.last(), pend));
            let kept = if grow {
                opre
            } else {
                opre.drop_first()
            };
            assert forall|i: int| 0 <= i < post.len() implies aligned(post[i].x as int) && aligned(
                post[i].y as int,
            ) by {
                if i < post.len() - 1 {
                    let src = if grow {
                        i
                    } else {
                        i + 1
                    };
                    assert(post[i] == opre[src]);
                } else {
                    assert(post[i] == new_head);
                    assert(aligned(opre.last().x as int) && aligned(opre.last().y as int));
                }
            }
            assert forall|i: int| 0 <= i < post.len() - 1 implies post[i + 1].direction != opposite(
                post[i].direction,
            ) by {
                if i + 1 < post.len() - 1 {
                    let src = if grow {
                        i
                    } else {
                        i + 1
                    };
                    assert(post[i] == opre[src] && post[i + 1] == opre[src + 1]);
                } else {
                    assert(post[i + 1] == new_head);
                    assert(post[i] == opre.last());
                }
            }
            assert(pend != opposite(post.last().direction));
        }
    }
}

/// A freshly (re)started snake: a straight horizontal body of
/// `STARTING_SNAKE_LENGTH` segments heading right, head last.
pub fn create_starting_snake() -> (s: Snake)
    ensures
        s.wf(),
        s.parts@ == starting_parts(),
        s.pending_heading == Direction::Right,
{
    let mut parts: Vec<SnakePart> = Vec::new();
    let mut i: u32 = 0;
    while i < STARTING_SNAKE_LENGTH
        invariant
            i <= STARTING_SNAKE_LENGTH,
            parts@.len() == i as int,
            forall|j: int| 0 <= j < i as int ==> parts@[j] == spec_starting_part(j),
        decreases STARTING_SNAKE_LENGTH - i,
    {
        parts.push(
            SnakePart {
                x: START_X + (i as i32) * GRID,
                y: START_Y,
                direction: Direction::Right,
            },
        );
        i = i + 1;
    }
    let s = Snake { parts, pending_heading: Direction::Right };
    proof {
        assert(s.parts@ =~= starting_parts());
    }
    s
}

/// A snake driven only through `turn` and `advance` can never reverse onto
/// itself: from any well-formed state, one tick lays a head segment whose
/// heading is not the opposite of the segment right behind it, and leaves the
/// snake well formed again, so the guarantee carries through every sequence
/// of turns and ticks.
pub proof fn lemma_advance_never_reverses(parts: Seq<SnakePart>, pending: Direction, grow: bool)
    requires
        snake_wf_seq(parts, pending),
        -1_000_000_000 <= parts.last().x <= 1_000_000_000,
        -1_000_000_000 <= parts.last().y <= 1_000_000_000,
    ensures
        snake_wf_seq(spec_advanced_parts(parts, pending, grow), pending),
        spec_advanced_parts(parts, pending, grow).len() >= 2 ==> spec_advanced_parts(
            parts,
            pending,
            grow,
        ).last().direction != opposite(
            spec_advanced_parts(parts, pending, grow)[spec_advanced_parts(
                parts,
                pending,
                grow,
            ).len() - 2].direction,
        ),
{
    let post = spec_advanced_parts(parts, pending, grow);
    let new_head = spec_moved_head(parts.last(), pending);
    assert(post.last() == new_head);
    assert forall|i: int| 0 <= i < post.len() implies aligned((#[trigger] post[i]).x as int)
        && aligned(post[i].y as int) by {
        if i < post.len() - 1 {
            let src = if grow {
                i
            } else {
                i + 1
            };
            assert(post[i] == parts[src]);
            assert(aligned(parts[src].x as int) && aligned(parts[src].y as int));
        } else {
            assert(post[i] == new_head);
            assert(aligned(parts.last().x as int) && aligned(parts.last().y as int));
        }
    }
    assert forall|i: int| 0 <= i < post.len() - 1 implies post[i + 1].direction != opposite(
        post[i].direction,
    ) by {
        if i + 1 < post.len() - 1 {
            let src = if grow {
                i
            } else {
                i + 1
            };
            assert(post[i] == parts[src] && post[i + 1] == parts[src + 1]);
        } else {
            assert(post[i + 1] == new_head);
            assert(post[i] == parts.last());
        }
    }
}

} // verus!
