use vstd::prelude::*;
use crate::emission::{emission_ok, next_emitter, Emission};
use crate::particles::{Particle, Particles, Position};

verus! {

/// Fixed-point scale of a heading's components: `UNIT` stands for 1.
pub const UNIT: i32 = 1_000_000;

/// Micro-units per (millionth × milli-unit per second × microsecond).
pub const DISPLACEMENT_DIVISOR: u128 = 1_000_000_000;

/// The unit vector of a particle's direction, each component in millionths:
/// `(cos, sin)` of the direction, as the host computes them.
#[derive(Clone, Copy, Debug, PartialEq, Eq, Structural)]
pub struct Heading {
    pub cos: i32,
    pub sin: i32,
}

/// Both components lie in `[-UNIT, UNIT]`.
pub open spec fn heading_ok(h: Heading) -> bool {
    -UNIT <= h.cos <= UNIT && -UNIT <= h.sin <= UNIT
}

/// Whether a particle is still alive at `now`: its lifetime has not run out.
pub open spec fn alive(p: Particle, now: u64) -> bool {
    p.created_at + p.life_time > now
}

/// Distance covered along one axis, in micro-units, by a particle whose
/// heading component is `c` (millionths), at `speed` milli-units per second,
/// over `dt` microseconds; rounded toward zero.
pub open spec fn displacement(c: int, speed: int, dt: int) -> int {
    if c >= 0 {
        c * speed * dt / (DISPLACEMENT_DIVISOR as int)
    } else {
        -((-c) * speed * dt / (DISPLACEMENT_DIVISOR as int))
    }
}

/// `v`, held to the range of `i64`.
pub open spec fn clamp_i64(v: int) -> i64 {
    if v < i64::MIN {
        i64::MIN
    } else if v > i64::MAX {
        i64::MAX
    } else {
        v as i64
    }
}

/// A particle moved along heading `h` for `dt` microseconds; only its
/// position changes, and a coordinate past the range of `i64` stops at its edge.
pub open spec fn advanced(p: Particle, h: Heading, dt: u32) -> Particle {
    Particle {
        position: Position {
            x: clamp_i64(p.position.x + displacement(h.cos as int, p.speed as int, dt as int)),
            y: clamp_i64(p.position.y + displacement(h.sin as int, p.speed as int, dt as int)),
        },
        ..p
    }
}

/// One motion tick of a particle at `now`: a live one moves, an expired one
/// stays as it is.
pub open spec fn motion_step(p: Particle, h: Heading, dt: u32, now: u64) -> Particle {
    if alive(p, now) {
        advanced(p, h, dt)
    } else {
        p
    }
}

/// `coord` moved by `displacement(c, speed, dt)`, held to the range of `i64`.
fn shift(coord: i64, c: i32, speed: u64, dt: u32) -> (r: i64)
    requires
        -UNIT <= c <= UNIT,
    ensures
        r == clamp_i64(coord + displacement(c as int, speed as int, dt as int)),
{
    let mag_c: u128 = if c >= 0 { c as u128 } else { (-(c as i64)) as u128 };
    assert(mag_c * (speed as u128) <= 1_000_000u128 * 0xffff_ffff_ffff_ffffu128) by (nonlinear_arith)
        requires mag_c <= 1_000_000, speed <= 0xffff_ffff_ffff_ffffu64;
    let partial: u128 = mag_c * speed as u128;
    assert(partial * (dt as u128) <= 1_000_000u128 * 0xffff_ffff_ffff_ffffu128 * 0xffff_ffffu128) by (nonlinear_arith)
        requires partial <= 1_000_000u128 * 0xffff_ffff_ffff_ffffu128, dt <= 0xffff_ffffu32;
    let mag: u128 = partial * dt as u128 / DISPLACEMENT_DIVISOR;
    assert(mag <= partial * (dt as u128)) by (nonlinear_arith)
        requires mag == partial * (dt as u128) / 1_000_000_000int;
    let moved: i128 = if c >= 0 {
        coord as i128 + mag as i128
    } else {
        coord as i128 - mag as i128
    };
    if moved < i64::MIN as i128 {
        i64::MIN
    } else if moved > i64::MAX as i128 {
        i64::MAX
    } else {
        moved as i64
    }
}

impl Particle {
    /// One motion tick for this particle: a live one moves along `h` for `dt`
    /// microseconds; an expired one is left as it is, and `true` asks the
    /// host to remove it.
    pub fn step(&mut self, h: Heading, dt: u32, now: u64) -> (expired: bool)
        requires
            heading_ok(h),
        ensures
            expired == !alive(*old(self), now),
            *final(self) == motion_step(*old(self), h, dt, now),
    {
        if (self.created_at as u128) + (self.life_time as u128) > now as u128 {
            self.position = Position {
                x: shift(self.position.x, h.cos, self.speed, dt),
                y: shift(self.position.y, h.sin, self.speed, dt),
            };
            false
        } else {
            true
        }
    }
}

impl Particles {
    /// The motion pass: one tick of every particle, the `i`th moving along
    /// `headings[i]`. The result flags, per particle, those that expired.
    pub fn transform_particle(
        particles: &mut Vec<Particle>,
        headings: &Vec<Heading>,
        dt: u32,
        now: u64,
    ) -> (expired: Vec<bool>)
        requires
            headings@.len() == old(particles)@.len(),
            forall|i: int| 0 <= i < headings@.len() ==> heading_ok(#[trigger] headings@[i]),
        ensures
            final(particles)@.len() == old(particles)@.len(),
            expired@.len() == old(particles)@.len(),
            forall|i: int|
                0 <= i < expired@.len() ==> #[trigger] expired@[i] == !alive(old(particles)@[i], now),
            forall|i: int|
                0 <= i < expired@.len() ==> #[trigger] final(particles)@[i] == motion_step(
                    old(particles)@[i],
                    headings@[i],
                    dt,
                    now,
                ),
    {
        let ghost start = particles@;
        let mut expired: Vec<bool> = Vec::new();
        let n = particles.len();
        let mut i: usize = 0;
        while i < n
            invariant
                n == start.len(),
                n == headings@.len(),
                i <= n,
                particles@.len() == n,
                expired@.len() == i,
                forall|j: int| 0 <= j < n ==> heading_ok(#[trigger] headings@[j]),
                forall|j: int| i <= j < n ==> particles@[j] == start[j],
                forall|j: int| 0 <= j < i ==> #[trigger] expired@[j] == !alive(start[j], now),
                forall|j: int|
                    0 <= j < i ==> #[trigger] particles@[j] == motion_step(start[j], headings@[j], dt, now),
            decreases n - i,
        {
            let mut p = particles[i];
            let gone = p.step(headings[i], dt, now);
            particles[i] = p;
            expired.push(gone);
            i = i + 1;
        }
        expired
    }

    /// One simulation tick: the emission pass over `emitters`, then the
    /// motion pass over the particles that were alive before it, the `i`th
    /// moving along `headings[i]`. Particles spawned in this tick are in the
    /// first result and move from the next tick on; the second result flags
    /// the particles that expired.
    pub fn system(
        emitters: &mut Vec<Particles>,
        particles: &mut Vec<Particle>,
        headings: &Vec<Heading>,
        dt: u32,
        now: u64,
    ) -> (r: (Vec<Emission>, Vec<bool>))
        requires
            headings@.len() == old(particles)@.len(),
            forall|i: int| 0 <= i < headings@.len() ==> heading_ok(#[trigger] headings@[i]),
        ensures
            final(emitters)@.len() == old(emitters)@.len(),
            r.0@.len() == old(emitters)@.len(),
            forall|i: int|
                0 <= i < r.0@.len() ==> #[trigger] final(emitters)@[i] == next_emitter(old(emitters)@[i]),
            forall|i: int|
                0 <= i < r.0@.len() ==> emission_ok(old(emitters)@[i], i as usize, now, #[trigger] r.0@[i]),
            final(particles)@.len() == old(particles)@.len(),
            r.1@.len() == old(particles)@.len(),
            forall|i: int| 0 <= i < r.1@.len() ==> #[trigger] r.1@[i] == !alive(old(particles)@[i], now),
            forall|i: int|
                0 <= i < r.1@.len() ==> #[trigger] final(particles)@[i] == motion_step(
                    old(particles)@[i],
                    headings@[i],
                    dt,
                    now,
                ),
    {
        let spawned = Particles::spawn_particle(emitters, now);
        let expired = Particles::transform_particle(particles, headings, dt, now);
        (spawned, expired)
    }
}

} // verus!
