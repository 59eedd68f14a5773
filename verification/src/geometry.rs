//! Grid geometry: the fixed cell pitch, play-area rectangles, and the
//! point-in-cell and cell-in-rectangle predicates that the collision and
//! placement logic is built on.

use vstd::prelude::*;

verus! {

/// The grid pitch: every persisted snake-segment and apple coordinate is an
/// exact multiple of this cell size.
pub const GRID: i32 = 20;

/// An axis-aligned rectangle with its top-left corner at `(x, y)`.
#[derive(Clone, Copy, PartialEq, Eq, Structural, Debug)]
pub struct Rect {
    pub x: i32,
    pub y: i32,
    pub width: i32,
    pub height: i32,
}

/// A coordinate is aligned when it sits exactly on the grid.
pub open spec fn aligned(v: int) -> bool {
    v % (GRID as int) == 0
}

/// A play-area rectangle the engine can work inside: grid-aligned on all four
/// sides, at least one cell large, and far from the integer limits.
pub open spec fn rect_wf(r: Rect) -> bool {
    &&& 0 <= r.x
    &&& 0 <= r.y
    &&& GRID <= r.width
    &&& GRID <= r.height
    &&& r.x + r.width <= 1_000_000
    &&& r.y + r.height <= 1_000_000
    &&& aligned(r.x as int)
    &&& aligned(r.y as int)
    &&& aligned(r.width as int)
    &&& aligned(r.height as int)
}

/// The cell whose top-left corner is `(cx, cy)` covers the point `(px, py)`.
/// Cells are half-open: a point on the right or bottom edge belongs to the
/// neighbouring cell.
pub open spec fn spec_cell_covers_point(cx: int, cy: int, px: int, py: int) -> bool {
    &&& cx <= px < cx + GRID
    &&& cy <= py < cy + GRID
}

/// The cell whose top-left corner is `(cx, cy)` lies fully inside `r`.
pub open spec fn spec_cell_in_rect(cx: int, cy: int, r: Rect) -> bool {
    &&& r.x <= cx
    &&& cx + GRID <= r.x + r.width
    &&& r.y <= cy
    &&& cy + GRID <= r.y + r.height
}

/// Runtime check of `spec_cell_covers_point`.
pub fn cell_covers_point(cx: i32, cy: i32, px: i32, py: i32) -> (r: bool)
    ensures
        r == spec_cell_covers_point(cx as int, cy as int, px as int, py as int),
{
    let cx64 = cx as i64;
    let cy64 = cy as i64;
    let px64 = px as i64;
    let py64 = py as i64;
    cx64 <= px64 && px64 < cx64 + GRID as i64 && cy64 <= py64 && py64 < cy64 + GRID as i64
}

/// Runtime check of `spec_cell_in_rect`: the boundary predicate of the game.
/// A head cell exactly on the inner edge of the play area is inside; a cell
/// one grid pitch beyond any edge is outside.
pub fn cell_in_rect(cx: i32, cy: i32, area: &Rect) -> (r: bool)
    requires
        rect_wf(*area),
    ensures
        r == spec_cell_in_rect(cx as int, cy as int, *area),
{
    area.x <= cx && cx <= area.x + area.width - GRID && area.y <= cy && cy <= area.y + area.height
        - GRID
}

} // verus!
