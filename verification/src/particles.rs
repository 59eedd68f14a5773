//! Particle burst: a fixed-size pool of particles allocated once and reused
//! for every burst. Spawning a burst resets every particle's position and
//! lifetime in place, leaving the velocities from creation untouched, which
//! gives a repeatable radial spread with no per-burst allocation.
//!
//! Positions are fixed-point: thousandths of a pixel. Velocities are whole
//! pixels per second, so advancing by `dt` milliseconds adds exactly
//! `velocity * dt` thousandths of a pixel.

use vstd::prelude::*;

use vstd::pervasive::VecAdditionalExecFns;

use crate::rng::{choose_color, random_in_range};
use crate::MAX_FRAME_MS;

verus! {

/// The largest velocity magnitude a particle pool accepts, in pixels per
/// second; together with `MAX_FRAME_MS` it keeps one step's displacement far
/// from the fixed-point limits.
pub const VEL_LIMIT: i32 = 10_000;

/// An RGBA colour, as the renderer outside the library understands it.
#[derive(Clone, Copy, PartialEq, Eq, Structural, Debug)]
pub struct Rgba {
    pub r: u8,
    pub g: u8,
    pub b: u8,
    pub a: u8,
}

/// A two-dimensional fixed-point vector, in thousandths of a pixel.
#[derive(Clone, Copy, PartialEq, Eq, Structural, Debug)]
pub struct Vec2 {
    pub x: i64,
    pub y: i64,
}

/// One particle: a continuous (not grid-aligned) position, a velocity in
/// pixels per second, a colour from the pool's palette, the milliseconds of
/// life it has left, and a draw scale in thousandths.
#[derive(Clone, Copy, PartialEq, Eq, Structural, Debug)]
pub struct Particle {
    pub position: Vec2,
    pub velocity: Vec2,
    pub color: Rgba,
    pub lifetime_ms: i32,
    pub scale_milli: i32,
}

/// `a + b` clamped into the `i64` range.
pub open spec fn spec_sat_add_i64(a: int, b: int) -> int {
    if a + b > i64::MAX as int {
        i64::MAX as int
    } else if a + b < i64::MIN as int {
        i64::MIN as int
    } else {
        a + b
    }
}

/// What one `dt`-millisecond step does to a particle's lifetime: it only
/// counts down while the particle is still alive, so an expired particle
/// stays expired.
pub open spec fn spec_stepped_lifetime(lifetime: int, dt: int) -> int {
    if lifetime > 0 {
        lifetime - dt
    } else {
        lifetime
    }
}

/// What one `dt`-millisecond step does to a whole particle: the position
/// advances by `velocity * dt` (clamped at the fixed-point limits), the
/// lifetime counts down, and velocity, colour and scale stay.
pub open spec fn spec_step_particle(p: Particle, dt: int) -> Particle {
    Particle {
        position: Vec2 {
            x: spec_sat_add_i64(p.position.x as int, p.velocity.x as int * dt) as i64,
            y: spec_sat_add_i64(p.position.y as int, p.velocity.y as int * dt) as i64,
        },
        velocity: p.velocity,
        color: p.color,
        lifetime_ms: spec_stepped_lifetime(p.lifetime_ms as int, dt) as i32,
        scale_milli: p.scale_milli,
    }
}

/// Saturating addition on `i64`, proved against `spec_sat_add_i64`.
fn sat_add_i64(a: i64, b: i64) -> (r: i64)
    ensures
        r as int == spec_sat_add_i64(a as int, b as int),
{
    if b >= 0 {
        if a > i64::MAX - b {
            i64::MAX
        } else {
            a + b
        }
    } else {
        if a < i64::MIN - b {
            i64::MIN
        } else {
            a + b
        }
    }
}

impl Particle {
    /// A velocity the pool's arithmetic bounds allow.
    pub open spec fn vel_ok(&self) -> bool {
        &&& -VEL_LIMIT <= self.velocity.x <= VEL_LIMIT
        &&& -VEL_LIMIT <= self.velocity.y <= VEL_LIMIT
    }

    /// Advance the particle by `dt` milliseconds: the position drifts by
    /// `velocity * dt`, and the lifetime counts down while it is positive.
    pub fn step(&mut self, dt_ms: i32)
        requires
            0 <= dt_ms <= MAX_FRAME_MS,
            old(self).vel_ok(),
        ensures
            *final(self) == spec_step_particle(*old(self), dt_ms as int),
            final(self).vel_ok(),
    {
        proof {
            assert(-36_000_000_000 <= self.velocity.x as int * (dt_ms as int)
                <= 36_000_000_000) by (nonlinear_arith)
                requires
                    -(VEL_LIMIT as int) <= self.velocity.x as int <= VEL_LIMIT as int,
                    0 <= dt_ms as int <= MAX_FRAME_MS as int,
                    VEL_LIMIT == 10_000,
                    MAX_FRAME_MS == 3_600_000,
            ;
            assert(-36_000_000_000 <= self.velocity.y as int * (dt_ms as int)
                <= 36_000_000_000) by (nonlinear_arith)
                requires
                    -(VEL_LIMIT as int) <= self.velocity.y as int <= VEL_LIMIT as int,
                    0 <= dt_ms as int <= MAX_FRAME_MS as int,
                    VEL_LIMIT == 10_000,
                    MAX_FRAME_MS == 3_600_000,
            ;
        }
        let dx = self.velocity.x * (dt_ms as i64);
        let dy = self.velocity.y * (dt_ms as i64);
        self.position.x = sat_add_i64(self.position.x, dx);
        self.position.y = sat_add_i64(self.position.y, dy);
        if self.lifetime_ms > 0 {
            self.lifetime_ms = self.lifetime_ms - dt_ms;
        }
    }

    /// A particle is drawn only while it still has lifetime left; once the
    /// burst's total stepped time reaches the lifetime it was reset with, it
    /// no longer renders.
    pub fn is_visible(&self) -> (r: bool)
        ensures
            r == (self.lifetime_ms > 0),
    {
        self.lifetime_ms > 0
    }
}

/// The reusable pool of particles.
#[derive(Clone, PartialEq, Eq, Debug)]
pub struct ParticleSystem {
    pub particles: Vec<Particle>,
}

impl ParticleSystem {
    /// Every particle's velocity is within the pool's arithmetic bounds.
    pub open spec fn wf(&self) -> bool {
        forall|i: int| 0 <= i < self.particles@.len() ==> (#[trigger] self.particles@[i]).vel_ok()
    }

    /// Build a pool of `count` particles at a common starting position, each
    /// with a random velocity of at most `intensity` pixels per second per
    /// axis and a colour drawn from the palette.
    pub fn create_radial(
        lifetime_ms: i32,
        colors: Vec<Rgba>,
        count: u8,
        starting_pos: Vec2,
        intensity: i32,
        scale_milli: i32,
    ) -> (system: ParticleSystem)
        requires
            colors@.len() > 0,
            0 <= intensity <= VEL_LIMIT,
        ensures
            system.wf(),
            system.particles@.len() == count as int,
            forall|i: int|
                0 <= i < count as int ==> {
                    let p = #[trigger] system.particles@[i];
                    &&& p.position == starting_pos
                    &&& p.lifetime_ms == lifetime_ms
                    &&& p.scale_milli == scale_milli
                    &&& -intensity <= p.velocity.x <= intensity
                    &&& -intensity <= p.velocity.y <= intensity
                    &&& colors@.contains(p.color)
                },
    {
        let mut particles: Vec<Particle> = Vec::new();
        let mut n: u8 = 0;
        while n < count
            invariant
                colors@.len() > 0,
                0 <= intensity <= VEL_LIMIT,
                n <= count,
                particles@.len() == n as int,
                forall|i: int|
                    0 <= i < n as int ==> {
                        let p = #[trigger] particles@[i];
                        &&& p.position == starting_pos
                        &&& p.lifetime_ms == lifetime_ms
                        &&& p.scale_milli == scale_milli
                        &&& -intensity <= p.velocity.x <= intensity
                        &&& -intensity <= p.velocity.y <= intensity
                        &&& colors@.contains(p.color)
                    },
            decreases count - n,
        {
            let vx = random_in_range(-intensity, intensity);
            let vy = random_in_range(-intensity, intensity);
            let color = match choose_color(&colors) {
                Some(c) => c,
                None => colors[0],
            };
            particles.push(
                Particle {
                    position: starting_pos,
                    velocity: Vec2 { x: vx as i64, y: vy as i64 },
                    color,
                    lifetime_ms: lifetime_ms,
                    scale_milli,
                },
            );
            n = n + 1;
        }
        ParticleSystem { particles }
    }

    /// Advance every particle in the pool by `dt` milliseconds.
    pub fn step(&mut self, dt_ms: i32)
        requires
            0 <= dt_ms <= MAX_FRAME_MS,
            old(self).wf(),
        ensures
            final(self).wf(),
            final(self).particles@.len() == old(self).particles@.len(),
            forall|i: int|
                0 <= i < old(self).particles@.len() ==> final(self).particles@[i]
                    == spec_step_particle(#[trigger] old(self).particles@[i], dt_ms as int),
    {
        let n = self.particles.len();
        let mut i: usize = 0;
        while i < n
            invariant
                0 <= dt_ms <= MAX_FRAME_MS,
                n == self.particles@.len(),
                n == old(self).particles@.len(),
                i <= n,
                forall|k: int|
                    i as int <= k < n ==> self.particles@[k] == #[trigger] old(
                        self,
                    ).particles@[k],
                forall|k: int|
                    0 <= k < i as int ==> self.particles@[k] == spec_step_particle(
                        #[trigger] old(self).particles@[k],
                        dt_ms as int,
                    ),
                old(self).wf(),
            decreases n - i,
        {
            let mut p = self.particles[i];
            proof {
                assert(p == old(self).particles@[i as int]);
            }
            p.step(dt_ms);
            self.particles.set(i, p);
            i = i + 1;
        }
        proof {
            assert forall|k: int| 0 <= k < self.particles@.len() implies (
            #[trigger] self.particles@[k]).vel_ok() by {
                assert(self.particles@[k] == spec_step_particle(
                    old(self).particles@[k],
                    dt_ms as int,
                ));
                assert(old(self).particles@[k].vel_ok());
            }
        }
    }

    /// Spawn a burst: reassign every particle's position to `origin` and its
    /// lifetime to `lifetime_ms`, leaving velocity, colour and scale alone.
    pub fn reset(&mut self, lifetime_ms: i32, origin: Vec2)
        requires
            old(self).wf(),
        ensures
            final(self).wf(),
            final(self).particles@.len() == old(self).particles@.len(),
            forall|i: int|
                0 <= i < old(self).particles@.len() ==> final(self).particles@[i] == (Particle {
                    position: origin,
                    lifetime_ms: lifetime_ms,
                    ..(#[trigger] old(self).particles@[i])
                }),
    {
        let n = self.particles.len();
        let mut i: usize = 0;
        while i < n
            invariant
                n == self.particles@.len(),
                n == old(self).particles@.len(),
                i <= n,
                forall|k: int|
                    i as int <= k < n ==> self.particles@[k] == #[trigger] old(
                        self,
                    ).particles@[k],
                forall|k: int|
                    0 <= k < i as int ==> self.particles@[k] == (Particle {
                        position: origin,
                        lifetime_ms: lifetime_ms,
                        ..(#[trigger] old(self).particles@[k])
                    }),
            decreases n - i,
        {
            let mut p = self.particles[i];
            proof {
                assert(p == old(self).particles@[i as int]);
            }
            p.position = origin;
            p.lifetime_ms = lifetime_ms;
            self.particles.set(i, p);
            i = i + 1;
        }
        proof {
            assert forall|k: int| 0 <= k < self.particles@.len() implies (
            #[trigger] self.particles@[k]).vel_ok() by {
                assert(old(self).particles@[k].vel_ok());
            }
        }
    }
}

/// The lifetime a particle holds after starting at `lifetime` and stepping
/// through the time slices in `dts`, oldest first.
pub open spec fn spec_lifetime_after(lifetime: int, dts: Seq<int>) -> int
    decreases dts.len(),
{
    if dts.len() == 0 {
        lifetime
    } else {
        spec_lifetime_after(spec_stepped_lifetime(lifetime, dts[0]), dts.drop_first())
    }
}

/// The total simulation time of a sequence of steps.
pub open spec fn spec_total_time(dts: Seq<int>) -> int
    decreases dts.len(),
{
    if dts.len() == 0 {
        0
    } else {
        dts[0] + spec_total_time(dts.drop_first())
    }
}

proof fn lemma_expired_stays_expired(lifetime: int, dts: Seq<int>)
    requires
        lifetime <= 0,
    ensures
        spec_lifetime_after(lifetime, dts) <= 0,
    decreases dts.len(),
{
    if dts.len() > 0 {
        lemma_expired_stays_expired(lifetime, dts.drop_first());
    }
}

/// A burst never outlives its lifetime: a particle reset with lifetime
/// `lifetime` and then stepped through non-negative time slices whose total
/// is at least `lifetime` has no lifetime left, so it no longer renders.
pub proof fn lemma_burst_expires(lifetime: int, dts: Seq<int>)
    requires
        forall|i: int| 0 <= i < dts.len() ==> dts[i] >= 0,
        spec_total_time(dts) >= lifetime,
    ensures
        spec_lifetime_after(lifetime, dts) <= 0,
    decreases dts.len(),
{
    if lifetime <= 0 {
        lemma_expired_stays_expired(lifetime, dts);
    } else {
        assert(dts.len() > 0);
        let rest = dts.drop_first();
        assert(forall|i: int| 0 <= i < rest.len() ==> rest[i] == dts[i + 1] && rest[i] >= 0);
        lemma_burst_expires(lifetime - dts[0], rest);
    }
}

} // verus!
