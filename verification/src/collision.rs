//! Collision and termination: the two independent predicates evaluated once
//! per simulation tick after the snake advances. Either one true ends the
//! game.

use vstd::prelude::*;

use crate::geometry::{
    cell_covers_point, cell_in_rect, rect_wf, spec_cell_covers_point, spec_cell_in_rect, Rect,
    GRID,
};
use crate::snake::{delta_x, delta_y, Snake, SnakePart};

verus! {

/// Some segment's cell covers the point `(px, py)`.
pub open spec fn spec_occupied(parts: Seq<SnakePart>, px: int, py: int) -> bool {
    exists|k: int|
        0 <= k < parts.len() && spec_cell_covers_point(
            parts[k].x as int,
            parts[k].y as int,
            px,
            py,
        )
}

/// The head's coordinate falls inside the cell of some segment other than the
/// head itself.
pub open spec fn spec_self_intersects(parts: Seq<SnakePart>) -> bool {
    exists|k: int|
        0 <= k < parts.len() - 1 && spec_cell_covers_point(
            parts[k].x as int,
            parts[k].y as int,
            parts.last().x as int,
            parts.last().y as int,
        )
}

/// Self-intersection predicate: does the head's cell overlap any other
/// segment's cell? The first match short-circuits.
pub fn does_snake_self_intersect(snake: &Snake) -> (r: bool)
    requires
        snake.parts@.len() >= 1,
    ensures
        r == spec_self_intersects(snake.parts@),
{
    let head = snake.head();
    let n = snake.parts.len();
    let mut index: usize = 0;
    while index < n - 1
        invariant
            n == snake.parts@.len(),
            n >= 1,
            index <= n - 1,
            head == snake.parts@.last(),
            forall|k: int|
                0 <= k < index as int ==> !spec_cell_covers_point(
                    snake.parts@[k].x as int,
                    snake.parts@[k].y as int,
                    head.x as int,
                    head.y as int,
                ),
        decreases n - 1 - index,
    {
        let part = snake.parts[index];
        if cell_covers_point(part.x, part.y, head.x, head.y) {
            return true;
        }
        index = index + 1;
    }
    false
}

/// Boundary predicate: the head's covering cell lies fully within the play
/// area. A head cell exactly on the inner edge is still inside; one grid
/// pitch beyond any edge is outside.
pub fn is_head_in_bounds(snake: &Snake, area: &Rect) -> (r: bool)
    requires
        snake.parts@.len() >= 1,
        rect_wf(*area),
    ensures
        r == spec_cell_in_rect(
            snake.parts@.last().x as int,
            snake.parts@.last().y as int,
            *area,
        ),
{
    let head = snake.head();
    cell_in_rect(head.x, head.y, area)
}

/// A straight-moving snake: every segment shares one heading and each segment
/// sits one grid pitch further along that heading than the one before it.
pub open spec fn straight_body(parts: Seq<SnakePart>) -> bool {
    &&& forall|i: int| 0 <= i < parts.len() ==> (#[trigger] parts[i]).direction == parts[0].direction
    &&& forall|i: int|
        0 <= i < parts.len() - 1 ==> parts[i + 1].x as int == (#[trigger] parts[i]).x as int
            + delta_x(parts[0].direction) && parts[i + 1].y as int == parts[i].y as int + delta_y(
            parts[0].direction,
        )
}

proof fn lemma_straight_body_coords(parts: Seq<SnakePart>, j: int)
    requires
        straight_body(parts),
        0 <= j < parts.len(),
    ensures
        parts[j].x as int == parts[0].x as int + j * delta_x(parts[0].direction),
        parts[j].y as int == parts[0].y as int + j * delta_y(parts[0].direction),
    decreases j,
{
    let dx = delta_x(parts[0].direction);
    let dy = delta_y(parts[0].direction);
    if j == 0 {
        assert(0 * dx == 0 && 0 * dy == 0) by (nonlinear_arith);
    } else {
        lemma_straight_body_coords(parts, j - 1);
        assert(parts[(j - 1) + 1].x as int == parts[j - 1].x as int + dx);
        assert(parts[(j - 1) + 1].y as int == parts[j - 1].y as int + dy);
        assert((j - 1) * dx + dx == j * dx) by (nonlinear_arith);
        assert((j - 1) * dy + dy == j * dy) by (nonlinear_arith);
    }
}

/// For a straight-moving snake of any length, the self-intersection predicate
/// is always false: the head sits strictly ahead of every other segment along
/// the travel axis.
pub proof fn lemma_straight_snake_never_self_intersects(parts: Seq<SnakePart>)
    requires
        parts.len() >= 1,
        straight_body(parts),
    ensures
        !spec_self_intersects(parts),
{
    let n = parts.len() as int;
    let d = parts[0].direction;
    let dx = delta_x(d);
    let dy = delta_y(d);
    assert forall|k: int| 0 <= k < n - 1 implies !spec_cell_covers_point(
        parts[k].x as int,
        parts[k].y as int,
        parts.last().x as int,
        parts.last().y as int,
    ) by {
        lemma_straight_body_coords(parts, k);
        lemma_straight_body_coords(parts, n - 1);
        let gap = n - 1 - k;
        assert(parts.last().x as int - parts[k].x as int == gap * dx) by (nonlinear_arith)
            requires
                parts.last().x as int == parts[0].x as int + (n - 1) * dx,
                parts[k].x as int == parts[0].x as int + k * dx,
                gap == n - 1 - k,
        ;
        assert(parts.last().y as int - parts[k].y as int == gap * dy) by (nonlinear_arith)
            requires
                parts.last().y as int == parts[0].y as int + (n - 1) * dy,
                parts[k].y as int == parts[0].y as int + k * dy,
                gap == n - 1 - k,
        ;
        assert(gap >= 1);
        if dx == GRID as int || dx == -(GRID as int) {
            assert(gap * dx >= GRID as int || gap * dx <= -(GRID as int)) by (nonlinear_arith)
                requires
                    gap >= 1,
                    dx == GRID as int || dx == -(GRID as int),
            ;
        } else {
            assert(dy == GRID as int || dy == -(GRID as int));
            assert(gap * dy >= GRID as int || gap * dy <= -(GRID as int)) by (nonlinear_arith)
                requires
                    gap >= 1,
                    dy == GRID as int || dy == -(GRID as int),
            ;
        }
    }
}

} // verus!
