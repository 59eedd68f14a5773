//! Core simulation engine for a grid-based snake arcade game.
//!
//! The library owns everything that can be stated and proved: the snake's
//! movement state machine, collision and termination predicates, the apple
//! lifecycle with rejection-sampled placement, the sprite-orientation mapper
//! that turns segment headings into oriented draw commands, the particle-burst
//! pool, and the fixed-step tick scheduler that drives a whole frame.
//! Rendering, audio and input polling live outside the library and consume
//! plain values from it.

use vstd::prelude::*;

pub mod apple;
pub mod collision;
pub mod game;
pub mod geometry;
pub mod particles;
mod rng;
pub mod snake;
pub mod sprites;

pub use geometry::GRID;

verus! {

/// The longest single time step the engine accepts, in milliseconds: one hour
/// of simulation time, which keeps every fixed-point computation in the
/// engine far away from the integer limits.
pub const MAX_FRAME_MS: i32 = 3_600_000;

} // verus!
