//! Game orchestrator: the session state, the fixed-step tick scheduler that
//! decouples the simulation clock from the render clock, and the one
//! per-frame control path that mutates the snake, the apple, the score and
//! the particle pool. The caller polls input and renders; everything decided
//! here is decided by the library.

use vstd::prelude::*;

use crate::apple::{
    free_cell_exists, lemma_free_cell_witness, place_apple, placed_fresh, Apple,
    MAX_APPLE_DURATION_MS,
};
use crate::collision::{
    does_snake_self_intersect, is_head_in_bounds, spec_occupied, spec_self_intersects,
};
use crate::geometry::{
    aligned, cell_covers_point, rect_wf, spec_cell_covers_point, spec_cell_in_rect, Rect, GRID,
};
use crate::particles::{spec_step_particle, Particle, ParticleSystem, Vec2};
use crate::snake::{
    create_starting_snake, opposite, snake_wf_seq, spec_advanced_parts, spec_moved_head,
    starting_parts, Direction, Snake, SnakePart,
};
use crate::MAX_FRAME_MS;

verus! {

/// The fixed simulation interval: the snake moves one cell each time the
/// accumulator reaches this many milliseconds.
pub const TIME_TO_MOVE_MS: i32 = 150;

/// How long the particles of one consumption burst live, in milliseconds.
pub const PARTICLE_BURST_LIFETIME_MS: i32 = 500;

/// The play area the game is fought in.
pub open spec fn spec_play_area() -> Rect {
    Rect { x: 20, y: 40, width: 600, height: 400 }
}

/// The play area grown by one grid pitch on every side: the head may step at
/// most one cell out of the play area before the game ends, so every body
/// segment always stays inside this.
pub open spec fn spec_expanded_area() -> Rect {
    Rect { x: 0, y: 20, width: 640, height: 440 }
}

/// Runtime value of `spec_play_area`.
pub fn play_area() -> (r: Rect)
    ensures
        r == spec_play_area(),
        rect_wf(r),
{
    Rect { x: 20, y: 40, width: 600, height: 400 }
}

/// What the player did this frame, already translated into plain values:
/// at most one released direction key, whether the speed key is held, whether
/// the restart key was released, and the real time the frame took.
#[derive(Clone, Copy, Debug)]
pub struct FrameInput {
    pub turn: Option<Direction>,
    pub speed_up: bool,
    pub restart: bool,
    pub dt_ms: i32,
}

/// The whole session state the orchestrator owns.
#[derive(Clone, Debug)]
pub struct GameState {
    pub snake: Snake,
    pub apple: Apple,
    pub play_area: Rect,
    pub score: u16,
    pub game_over: bool,
    pub time_since_last_move_ms: i32,
    pub enlarge_snake: bool,
}

/// The mathematical state of a game session.
pub ghost struct GameModel {
    pub parts: Seq<SnakePart>,
    pub pending: Direction,
    pub apple: Apple,
    pub score: int,
    pub game_over: bool,
    pub tslm: int,
    pub enlarge: bool,
}

/// Session invariant: a well-formed snake that never left the expanded area,
/// with its head inside the play area while the game is running; an aligned
/// apple inside the play area with a bounded timer; an accumulator strictly
/// below the move interval; and a score that fits its counter.
pub open spec fn model_wf(m: GameModel) -> bool {
    &&& snake_wf_seq(m.parts, m.pending)
    &&& forall|i: int|
        0 <= i < m.parts.len() ==> spec_cell_in_rect(
            (#[trigger] m.parts[i]).x as int,
            m.parts[i].y as int,
            spec_expanded_area(),
        )
    &&& (!m.game_over ==> spec_cell_in_rect(
        m.parts.last().x as int,
        m.parts.last().y as int,
        spec_play_area(),
    ))
    &&& aligned(m.apple.x as int)
    &&& aligned(m.apple.y as int)
    &&& spec_cell_in_rect(m.apple.x as int, m.apple.y as int, spec_play_area())
    &&& -MAX_FRAME_MS <= m.apple.time_left_ms <= MAX_APPLE_DURATION_MS
    &&& 0 <= m.tslm < TIME_TO_MOVE_MS
    &&& 0 <= m.score <= u16::MAX
}

/// The state after an explicit restart input: a fresh snake and a zero score,
/// with the apple, the accumulator and the particle pool deliberately left
/// running. Without a restart, or while the game is still running, nothing
/// changes.
pub open spec fn spec_restarted(m: GameModel, restart: bool) -> GameModel {
    if m.game_over && restart {
        GameModel {
            parts: starting_parts(),
            pending: Direction::Right,
            score: 0,
            game_over: false,
            ..m
        }
    } else {
        m
    }
}

/// The state after the frame's turn input: a request opposite to the current
/// head heading is rejected, anything else replaces the buffered heading.
pub open spec fn spec_turned(m: GameModel, turn: Option<Direction>) -> GameModel {
    match turn {
        Option::Some(d) => if d == opposite(m.parts.last().direction) {
            m
        } else {
            GameModel { pending: d, ..m }
        },
        Option::None => m,
    }
}

/// A consumption event: the apple's cell covers the head's coordinate. Both
/// consumption and the apple timer freeze while the game is over; only the
/// particle pool keeps running over the game-over overlay.
pub open spec fn spec_eats(m: GameModel) -> bool {
    &&& !m.game_over
    &&& spec_cell_covers_point(
        m.apple.x as int,
        m.apple.y as int,
        m.parts.last().x as int,
        m.parts.last().y as int,
    )
}

/// The apple is (re)placed this frame: it was consumed, or its timer ran out.
pub open spec fn spec_relocates(m: GameModel) -> bool {
    spec_eats(m) || (!m.game_over && m.apple.time_left_ms <= 0)
}

/// The simulation time fed to the accumulator this frame: the frame delta,
/// doubled while the speed key is held.
pub open spec fn spec_dt_total(input: FrameInput) -> int {
    input.dt_ms + if input.speed_up {
        input.dt_ms as int
    } else {
        0
    }
}

/// The accumulator reaches the move interval this frame, so the snake ticks.
pub open spec fn spec_ticks(m: GameModel, input: FrameInput) -> bool {
    !m.game_over && m.tslm + spec_dt_total(input) >= TIME_TO_MOVE_MS
}

/// Where a consumption burst spawns: the centre of the apple's cell, in the
/// particle pool's thousandths of a pixel.
pub open spec fn spec_burst_origin(a: Apple) -> Vec2 {
    Vec2 {
        x: (a.x as int * 1000 + (GRID as int / 2) * 1000) as i64,
        y: (a.y as int * 1000 + (GRID as int / 2) * 1000) as i64,
    }
}

/// Runtime value of `spec_burst_origin`.
fn burst_origin(a: &Apple) -> (v: Vec2)
    ensures
        v == spec_burst_origin(*a),
{
    Vec2 { x: (a.x as i64) * 1000 + 10_000, y: (a.y as i64) * 1000 + 10_000 }
}

/// A freshly started body is well formed and sits inside the play area.
proof fn lemma_starting_parts_ok()
    ensures
        snake_wf_seq(starting_parts(), Direction::Right),
        forall|i: int|
            0 <= i < starting_parts().len() ==> spec_cell_in_rect(
                (#[trigger] starting_parts()[i]).x as int,
                starting_parts()[i].y as int,
                spec_expanded_area(),
            ),
        spec_cell_in_rect(
            starting_parts().last().x as int,
            starting_parts().last().y as int,
            spec_play_area(),
        ),
{
    let parts = starting_parts();
    assert forall|i: int| 0 <= i < parts.len() implies aligned((#[trigger] parts[i]).x as int)
        && aligned(parts[i].y as int) && spec_cell_in_rect(
        parts[i].x as int,
        parts[i].y as int,
        spec_expanded_area(),
    ) by {
        assert(parts[i].x as int == 80 + i * 20);
        vstd::arithmetic::div_mod::lemma_mod_multiples_vanish(i, 80, 20);
        assert(i * 20 == 20 * i) by (nonlinear_arith);
    }
    assert(parts.last().x as int == 80 + 2 * 20);
}

/// Advancing a snake whose head is still inside the play area keeps every
/// segment inside the expanded area.
proof fn lemma_advanced_parts_in_area(parts: Seq<SnakePart>, pending: Direction, grow: bool)
    requires
        parts.len() >= 1,
        forall|i: int|
            0 <= i < parts.len() ==> spec_cell_in_rect(
                (#[trigger] parts[i]).x as int,
                parts[i].y as int,
                spec_expanded_area(),
            ),
        spec_cell_in_rect(parts.last().x as int, parts.last().y as int, spec_play_area()),
    ensures
        forall|i: int|
            0 <= i < spec_advanced_parts(parts, pending, grow).len() ==> spec_cell_in_rect(
                (#[trigger] spec_advanced_parts(parts, pending, grow)[i]).x as int,
                spec_advanced_parts(parts, pending, grow)[i].y as int,
                spec_expanded_area(),
            ),
{
    let post = spec_advanced_parts(parts, pending, grow);
    assert forall|i: int| 0 <= i < post.len() implies spec_cell_in_rect(
        (#[trigger] post[i]).x as int,
        post[i].y as int,
        spec_expanded_area(),
    ) by {
        if i < post.len() - 1 {
            let src = if grow {
                i
            } else {
                i + 1
            };
            assert(post[i] == parts[src]);
        } else {
            assert(post[i] == spec_moved_head(parts.last(), pending));
        }
    }
}

impl GameState {
    /// The mathematical state this session is in.
    pub open spec fn model(&self) -> GameModel {
        GameModel {
            parts: self.snake.parts@,
            pending: self.snake.pending_heading,
            apple: self.apple,
            score: self.score as int,
            game_over: self.game_over,
            tslm: self.time_since_last_move_ms as int,
            enlarge: self.enlarge_snake,
        }
    }

    /// The session invariant every constructor establishes and every frame
    /// preserves.
    pub open spec fn wf(&self) -> bool {
        &&& self.play_area == spec_play_area()
        &&& model_wf(self.model())
    }

    /// A fresh session: the starting snake heading right, an apple in the
    /// middle of the board with a full timer, no score, and the clock at the
    /// start of its first interval.
    pub fn new() -> (g: GameState)
        ensures
            g.wf(),
            g.model().parts == starting_parts(),
            g.model().pending == Direction::Right,
            g.model().apple == (Apple { x: 200, y: 200, time_left_ms: MAX_APPLE_DURATION_MS }),
            g.model().score == 0,
            !g.model().game_over,
            g.model().tslm == 0,
            !g.model().enlarge,
    {
        let g = GameState {
            snake: create_starting_snake(),
            apple: Apple { x: 200, y: 200, time_left_ms: MAX_APPLE_DURATION_MS },
            play_area: play_area(),
            score: 0,
            game_over: false,
            time_since_last_move_ms: 0,
            enlarge_snake: false,
        };
        proof {
            lemma_starting_parts_ok();
        }
        g
    }

    /// One frame of the game, in the fixed order: restart input, turn input,
    /// consumption and timer-driven apple relocation, the particle pool's
    /// step, the fixed-step simulation tick if the accumulator is due, and
    /// the collision checks that can end the game. Returns whether an apple
    /// was consumed this frame, so the caller can play its effect.
    ///
    /// Turning never forces an immediate tick: a turn input only updates the
    /// buffered heading for the next natural tick, so no double move within
    /// one frame is possible. While the game is over the apple timer and
    /// consumption freeze; the particle pool keeps stepping.
    #[verifier::rlimit(100)]
    pub fn frame(&mut self, particles: &mut ParticleSystem, input: FrameInput) -> (consumed: bool)
        requires
            old(self).wf(),
            old(particles).wf(),
            0 <= input.dt_ms <= MAX_FRAME_MS,
            old(self).score < u16::MAX,
        ensures
            ({
                let m2 = spec_turned(spec_restarted(old(self).model(), input.restart), input.turn);
                let eats = spec_eats(m2);
                let reloc = spec_relocates(m2);
                let ticked = spec_ticks(m2, input);
                let grow = m2.enlarge || eats;
                let parts3 = if ticked {
                    spec_advanced_parts(m2.parts, m2.pending, grow)
                } else {
                    m2.parts
                };
                let dt_dec = if m2.game_over {
                    0int
                } else {
                    input.dt_ms as int
                };
                let f = final(self).model();
                &&& final(self).wf()
                &&& final(self).play_area == old(self).play_area
                &&& consumed == eats
                &&& f.score == m2.score + if eats {
                    1int
                } else {
                    0int
                }
                &&& f.parts == parts3
                &&& f.pending == m2.pending
                &&& f.enlarge == if ticked {
                    false
                } else {
                    grow
                }
                &&& f.tslm == if m2.game_over {
                    m2.tslm
                } else if ticked {
                    0int
                } else {
                    m2.tslm + spec_dt_total(input)
                }
                &&& f.game_over == (m2.game_over || !spec_cell_in_rect(
                    parts3.last().x as int,
                    parts3.last().y as int,
                    spec_play_area(),
                ) || spec_self_intersects(parts3))
                &&& f.apple.time_left_ms as int == (if reloc {
                    MAX_APPLE_DURATION_MS as int
                } else {
                    m2.apple.time_left_ms as int
                }) - dt_dec
                &&& (reloc && free_cell_exists(m2.parts, spec_play_area()) ==> aligned(
                    f.apple.x as int,
                ) && aligned(f.apple.y as int) && spec_cell_in_rect(
                    f.apple.x as int,
                    f.apple.y as int,
                    spec_play_area(),
                ) && !spec_occupied(m2.parts, f.apple.x as int, f.apple.y as int))
                &&& (!(reloc && free_cell_exists(m2.parts, spec_play_area())) ==> f.apple.x
                    == m2.apple.x && f.apple.y == m2.apple.y)
                &&& final(particles).particles@.len() == old(particles).particles@.len()
                &&& final(particles).wf()
                &&& forall|i: int|
                    0 <= i < old(particles).particles@.len() ==> final(particles).particles@[i]
                        == spec_step_particle(
                        if eats {
                            Particle {
                                position: spec_burst_origin(m2.apple),
                                lifetime_ms: PARTICLE_BURST_LIFETIME_MS,
                                ..(#[trigger] old(particles).particles@[i])
                            }
                        } else {
                            old(particles).particles@[i]
                        },
                        input.dt_ms as int,
                    )
            }),
    {
        if self.game_over && input.restart {
            self.snake = create_starting_snake();
            self.score = 0;
            self.game_over = false;
            proof {
                lemma_starting_parts_ok();
            }
        }
        match input.turn {
            Option::Some(d) => self.snake.turn(d),
            Option::None => (),
        }
        let ghost m2 = self.model();
        proof {
            assert(m2 == spec_turned(spec_restarted(old(self).model(), input.restart), input.turn));
        }
        let head = self.snake.head();
        let mut consumed = false;
        if !self.game_over && cell_covers_point(self.apple.x, self.apple.y, head.x, head.y) {
            self.enlarge_snake = true;
            let origin = burst_origin(&self.apple);
            particles.reset(PARTICLE_BURST_LIFETIME_MS, origin);
            place_apple(&mut self.apple, &self.snake, &self.play_area);
            self.score = self.score + 1;
            consumed = true;
        } else if !self.game_over && self.apple.time_left_ms <= 0 {
            place_apple(&mut self.apple, &self.snake, &self.play_area);
        }
        proof {
            if spec_relocates(m2) && placed_fresh(self.apple, m2.parts, spec_play_area()) {
                lemma_free_cell_witness(
                    m2.parts,
                    spec_play_area(),
                    self.apple.x as int,
                    self.apple.y as int,
                );
            }
        }
        particles.step(input.dt_ms);
        if !self.game_over {
            self.apple.time_left_ms = self.apple.time_left_ms - input.dt_ms;
            self.time_since_last_move_ms = self.time_since_last_move_ms + input.dt_ms;
            if input.speed_up {
                self.time_since_last_move_ms = self.time_since_last_move_ms + input.dt_ms;
            }
            if self.time_since_last_move_ms >= TIME_TO_MOVE_MS {
                let grow = self.enlarge_snake;
                proof {
                    lemma_advanced_parts_in_area(m2.parts, m2.pending, m2.enlarge || spec_eats(m2));
                }
                self.snake.advance(grow);
                self.enlarge_snake = false;
                self.time_since_last_move_ms = 0;
            }
        }
        if !self.game_over {
            if !is_head_in_bounds(&self.snake, &self.play_area) {
                self.game_over = true;
            }
            if does_snake_self_intersect(&self.snake) {
                self.game_over = true;
            }
        }
        consumed
    }
}

} // verus!
