//! Apple lifecycle: the food item's grid-aligned position and countdown
//! timer, and its placement by rejection sampling against the snake body,
//! with a deterministic sweep of the board as a bounded fallback so that
//! placement always terminates.

use vstd::arithmetic::div_mod::{
    lemma_fundamental_div_mod, lemma_mod_division_less_than_divisor, lemma_mod_multiples_basic,
    lemma_mod_multiples_vanish,
};
use vstd::prelude::*;

use crate::collision::spec_occupied;
use crate::geometry::{aligned, cell_covers_point, rect_wf, spec_cell_in_rect, Rect, GRID};
use crate::rng::random_in_range;
use crate::snake::Snake;

verus! {

/// How long a freshly placed apple lives before it relocates on its own, in
/// milliseconds of simulation time.
pub const MAX_APPLE_DURATION_MS: i32 = 5000;

/// How many random samples placement tries before it falls back to sweeping
/// the board for a free cell.
pub const PLACE_SAMPLE_ATTEMPTS: u32 = 1000;

/// The food item: a grid-aligned cell coordinate and the milliseconds left
/// until it relocates on its own.
#[derive(Clone, Copy, PartialEq, Eq, Structural, Debug)]
pub struct Apple {
    pub x: i32,
    pub y: i32,
    pub time_left_ms: i32,
}

/// An apple that placement is allowed to return: grid-aligned, its cell fully
/// inside the bounds, not overlapping any snake segment, timer wound back up
/// to the maximum.
pub open spec fn placed_fresh(a: Apple, parts: Seq<crate::snake::SnakePart>, bounds: Rect) -> bool {
    &&& aligned(a.x as int)
    &&& aligned(a.y as int)
    &&& spec_cell_in_rect(a.x as int, a.y as int, bounds)
    &&& !spec_occupied(parts, a.x as int, a.y as int)
    &&& a.time_left_ms == MAX_APPLE_DURATION_MS
}

/// Some grid cell inside `bounds` is not covered by any snake segment.
pub open spec fn free_cell_exists(parts: Seq<crate::snake::SnakePart>, bounds: Rect) -> bool {
    exists|i: int, j: int|
        0 <= i < bounds.width as int / GRID as int && 0 <= j < bounds.height as int / GRID as int
            && !(#[trigger] spec_occupied(
            parts,
            bounds.x as int + i * GRID as int,
            bounds.y as int + j * GRID as int,
        ))
}

/// Snapping a coordinate down to the grid keeps it inside an aligned span.
proof fn lemma_snap_into(b: int, w: int, v: int)
    requires
        aligned(b),
        aligned(w),
        0 <= b,
        GRID as int <= w,
        b <= v < b + w,
    ensures
        aligned(v - v % (GRID as int)),
        b <= v - v % (GRID as int),
        (v - v % (GRID as int)) + GRID as int <= b + w,
{
    let g = GRID as int;
    lemma_fundamental_div_mod(v, g);
    lemma_mod_division_less_than_divisor(v, g);
    let s = v - v % g;
    assert(s == g * (v / g));
    lemma_mod_multiples_basic(v / g, g);
    lemma_fundamental_div_mod(b, g);
    let qb = b / g;
    assert(b == g * qb);
    lemma_fundamental_div_mod(b + w, g);
    lemma_mod_division_less_than_divisor(b + w, g);
    assert((b + w) % g == 0) by {
        lemma_mod_multiples_vanish(qb, w, g);
    }
    let qe = (b + w) / g;
    assert(b + w == g * qe);
    let qv = v / g;
    assert(b <= s) by (nonlinear_arith)
        requires
            s == g * qv,
            b == g * qb,
            s > b - g,
            g == 20,
    ;
    assert(s + g <= b + w) by (nonlinear_arith)
        requires
            s == g * qv,
            b + w == g * qe,
            s <= v < b + w,
            g == 20,
    ;
}

/// Does any snake segment's cell cover the point `(px, py)`?
pub fn overlaps_snake(snake: &Snake, px: i32, py: i32) -> (r: bool)
    ensures
        r == spec_occupied(snake.parts@, px as int, py as int),
{
    let n = snake.parts.len();
    let mut k: usize = 0;
    while k < n
        invariant
            n == snake.parts@.len(),
            k <= n,
            forall|m: int|
                0 <= m < k as int ==> !crate::geometry::spec_cell_covers_point(
                    snake.parts@[m].x as int,
                    snake.parts@[m].y as int,
                    px as int,
                    py as int,
                ),
        decreases n - k,
    {
        let part = snake.parts[k];
        if cell_covers_point(part.x, part.y, px, py) {
            return true;
        }
        k = k + 1;
    }
    false
}

/// Place the apple on a random free cell inside `bounds`: sample a uniformly
/// random point, snap it down to the grid, and reject it if any snake segment
/// covers it. After `PLACE_SAMPLE_ATTEMPTS` rejections the board is swept
/// cell by cell instead, so the search cannot run forever; on a board with no
/// free cell at all (unreachable in the intended play area) the apple stays
/// where it is and only its timer is wound back up.
pub fn place_apple(apple: &mut Apple, snake: &Snake, bounds: &Rect)
    requires
        rect_wf(*bounds),
    ensures
        placed_fresh(*final(apple), snake.parts@, *bounds) || (final(apple).x == old(apple).x
            && final(apple).y == old(apple).y && !free_cell_exists(snake.parts@, *bounds)),
        free_cell_exists(snake.parts@, *bounds) ==> placed_fresh(
            *final(apple),
            snake.parts@,
            *bounds,
        ),
        final(apple).time_left_ms == MAX_APPLE_DURATION_MS,
{
    let mut attempts: u32 = 0;
    while attempts < PLACE_SAMPLE_ATTEMPTS
        invariant
            rect_wf(*bounds),
            *apple == *old(apple),
        decreases PLACE_SAMPLE_ATTEMPTS - attempts,
    {
        let rx = random_in_range(bounds.x, bounds.x + bounds.width - 1);
        let ry = random_in_range(bounds.y, bounds.y + bounds.height - 1);
        let sx = rx - rx % GRID;
        let sy = ry - ry % GRID;
        proof {
            lemma_snap_into(bounds.x as int, bounds.width as int, rx as int);
            lemma_snap_into(bounds.y as int, bounds.height as int, ry as int);
        }
        if !overlaps_snake(snake, sx, sy) {
            *apple = Apple { x: sx, y: sy, time_left_ms: MAX_APPLE_DURATION_MS };
            proof {
                lemma_free_cell_witness(snake.parts@, *bounds, sx as int, sy as int);
            }
            return ;
        }
        attempts = attempts + 1;
    }
    let cols = bounds.width / GRID;
    let rows = bounds.height / GRID;
    proof {
        lemma_fundamental_div_mod(bounds.width as int, GRID as int);
        lemma_fundamental_div_mod(bounds.height as int, GRID as int);
    }
    let mut j: i32 = 0;
    while j < rows
        invariant
            rect_wf(*bounds),
            *apple == *old(apple),
            cols == bounds.width as int / GRID as int,
            rows == bounds.height as int / GRID as int,
            bounds.width as int == GRID as int * cols,
            bounds.height as int == GRID as int * rows,
            0 <= j <= rows,
            forall|i2: int, j2: int|
                0 <= i2 < cols as int && 0 <= j2 < j as int ==> #[trigger] spec_occupied(
                    snake.parts@,
                    bounds.x as int + i2 * GRID as int,
                    bounds.y as int + j2 * GRID as int,
                ),
        decreases rows - j,
    {
        let mut i: i32 = 0;
        while i < cols
            invariant
                rect_wf(*bounds),
                *apple == *old(apple),
                cols == bounds.width as int / GRID as int,
                rows == bounds.height as int / GRID as int,
                bounds.width as int == GRID as int * cols,
                bounds.height as int == GRID as int * rows,
                0 <= j < rows,
                0 <= i <= cols,
                forall|i2: int, j2: int|
                    0 <= i2 < cols as int && 0 <= j2 < j as int ==> #[trigger] spec_occupied(
                        snake.parts@,
                        bounds.x as int + i2 * GRID as int,
                        bounds.y as int + j2 * GRID as int,
                    ),
                forall|i2: int|
                    0 <= i2 < i as int ==> #[trigger] spec_occupied(
                        snake.parts@,
                        bounds.x as int + i2 * GRID as int,
                        bounds.y as int + j as int * GRID as int,
                    ),
            decreases cols - i,
        {
            proof {
                assert(i as int * GRID as int >= 0 && (i as int + 1) * GRID as int
                    <= bounds.width as int) by (nonlinear_arith)
                    requires
                        0 <= i as int,
                        (i as int) < (cols as int),
                        bounds.width as int == GRID as int * cols as int,
                        GRID as int == 20,
                ;
                assert(j as int * GRID as int >= 0 && (j as int + 1) * GRID as int
                    <= bounds.height as int) by (nonlinear_arith)
                    requires
                        0 <= j as int,
                        (j as int) < (rows as int),
                        bounds.height as int == GRID as int * rows as int,
                        GRID as int == 20,
                ;
            }
            let cx = bounds.x + i * GRID;
            let cy = bounds.y + j * GRID;
            if !overlaps_snake(snake, cx, cy) {
                *apple = Apple { x: cx, y: cy, time_left_ms: MAX_APPLE_DURATION_MS };
                proof {
                    lemma_mod_multiples_vanish(i as int, bounds.x as int, GRID as int);
                    lemma_mod_multiples_vanish(j as int, bounds.y as int, GRID as int);
                    assert(i as int * GRID as int == GRID as int * i as int) by (nonlinear_arith);
                    assert(j as int * GRID as int == GRID as int * j as int) by (nonlinear_arith);
                    assert((i as int + 1) * GRID as int == i as int * GRID as int + GRID as int)
                        by (nonlinear_arith);
                    assert((j as int + 1) * GRID as int == j as int * GRID as int + GRID as int)
                        by (nonlinear_arith);
                }
                return ;
            }
            i = i + 1;
        }
        j = j + 1;
    }
    apple.time_left_ms = MAX_APPLE_DURATION_MS;
    proof {
        assert(!free_cell_exists(snake.parts@, *bounds));
    }
}

/// A grid-aligned free cell inside the bounds is a witness that the board is
/// not full.
pub proof fn lemma_free_cell_witness(
    parts: Seq<crate::snake::SnakePart>,
    bounds: Rect,
    sx: int,
    sy: int,
)
    requires
        rect_wf(bounds),
        aligned(sx),
        aligned(sy),
        spec_cell_in_rect(sx, sy, bounds),
        !spec_occupied(parts, sx, sy),
    ensures
        free_cell_exists(parts, bounds),
{
    let g = GRID as int;
    let i = (sx - bounds.x) / g;
    let j = (sy - bounds.y) / g;
    lemma_fundamental_div_mod(sx - bounds.x, g);
    lemma_fundamental_div_mod(sy - bounds.y, g);
    lemma_mod_division_less_than_divisor(sx - bounds.x, g);
    lemma_mod_division_less_than_divisor(sy - bounds.y, g);
    assert((sx - bounds.x) % g == 0) by {
        lemma_fundamental_div_mod(sx, g);
        lemma_fundamental_div_mod(bounds.x as int, g);
        vstd::arithmetic::div_mod::lemma_fundamental_div_mod_converse_mod(
            sx - bounds.x,
            g,
            sx / g - bounds.x as int / g,
            0,
        );
    }
    assert((sy - bounds.y) % g == 0) by {
        lemma_fundamental_div_mod(sy, g);
        lemma_fundamental_div_mod(bounds.y as int, g);
        vstd::arithmetic::div_mod::lemma_fundamental_div_mod_converse_mod(
            sy - bounds.y,
            g,
            sy / g - bounds.y as int / g,
            0,
        );
    }
    assert(sx == bounds.x as int + i * g);
    assert(sy == bounds.y as int + j * g);
    lemma_fundamental_div_mod(bounds.width as int, g);
    lemma_fundamental_div_mod(bounds.height as int, g);
    assert(0 <= i < bounds.width as int / g) by (nonlinear_arith)
        requires
            sx == bounds.x as int + i * g,
            bounds.x as int <= sx,
            sx + g <= bounds.x as int + bounds.width as int,
            bounds.width as int == g * (bounds.width as int / g),
            g == 20,
    ;
    assert(0 <= j < bounds.height as int / g) by (nonlinear_arith)
        requires
            sy == bounds.y as int + j * g,
            bounds.y as int <= sy,
            sy + g <= bounds.y as int + bounds.height as int,
            bounds.height as int == g * (bounds.height as int / g),
            g == 20,
    ;
}

/// Snap a coordinate pair down onto the grid by subtracting each coordinate's
/// remainder modulo the grid pitch. The timer is kept as it is.
pub fn snap_apple_to_grid(apple: &Apple) -> (r: Apple)
    requires
        apple.x >= 0,
        apple.y >= 0,
    ensures
        r.x as int == apple.x as int - apple.x as int % (GRID as int),
        r.y as int == apple.y as int - apple.y as int % (GRID as int),
        aligned(r.x as int),
        aligned(r.y as int),
        r.time_left_ms == apple.time_left_ms,
{
    proof {
        let g = GRID as int;
        lemma_fundamental_div_mod(apple.x as int, g);
        lemma_fundamental_div_mod(apple.y as int, g);
        lemma_mod_division_less_than_divisor(apple.x as int, g);
        lemma_mod_division_less_than_divisor(apple.y as int, g);
        lemma_mod_multiples_basic(apple.x as int / g, g);
        lemma_mod_multiples_basic(apple.y as int / g, g);
    }
    Apple {
        x: apple.x - apple.x % GRID,
        y: apple.y - apple.y % GRID,
        time_left_ms: apple.time_left_ms,
    }
}

} // verus!
