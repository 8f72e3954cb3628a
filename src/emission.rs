use vstd::prelude::*;
use rand::Rng;
use crate::particles::{Particle, Particles};

verus! {

/// Relies on `rand::Rng::gen_range` over `0..=hi` with `rand::thread_rng`:
/// the draw is uniform over that range, so it lies between 0 and `hi`.
#[verifier::external_body]
fn draw_upto(hi: u64) -> (r: u64)
    ensures
        r <= hi,
{
    rand::thread_rng().gen_range(0..=hi)
}

/// What one emitter does in one tick.
#[derive(Clone, Copy, Debug, PartialEq, Eq, Structural)]
pub enum Action {
    Idle,
    Spawn,
    Remove,
}

/// The outcome of one tick for one emitter, with the particle it spawned.
#[derive(Clone, Copy, Debug, PartialEq, Eq, Structural)]
pub enum Emission {
    Idle,
    Spawned(Particle),
    Removed,
}

/// Largest value of a looping emitter's roll; a roll equal to it spawns.
pub open spec fn roll_bound(e: Particles) -> nat {
    (e.rate / 100) as nat
}

/// Widest speed jitter: a fifth of the base speed.
pub open spec fn speed_spread(e: Particles) -> nat {
    (e.speed / 5) as nat
}

/// Widest lifetime jitter: three tenths of the base lifetime.
pub open spec fn life_spread(e: Particles) -> nat {
    (e.life_time * 3 / 10) as nat
}

/// Half the emission cone, rounded down, so that the cone stays centred.
pub open spec fn half_cone(e: Particles) -> nat {
    (e.angle / 2) as nat
}

/// The decision of an emitter given the roll that was drawn for it.
pub open spec fn action_of(e: Particles, roll: int) -> Action {
    if e.looping {
        if roll == roll_bound(e) {
            Action::Spawn
        } else {
            Action::Idle
        }
    } else if e.rate > 0 {
        Action::Spawn
    } else {
        Action::Remove
    }
}

/// The particle an emitter spawns at `now`, given the three jitter draws.
pub open spec fn particle_of(
    e: Particles,
    now: u64,
    parent: Option<usize>,
    ds: int,
    dd: int,
    dl: int,
) -> Particle {
    Particle {
        speed: (e.speed + ds) as u64,
        direction: (e.direction - half_cone(e) + dd) as i64,
        life_time: (e.life_time + dl) as u64,
        created_at: now,
        position: e.position,
        color: e.color,
        size: e.size,
        parent,
    }
}

/// Whether `p` is a particle that `e` may spawn at `now`: each jittered field
/// lies in its range, the rest is copied from the emitter.
pub open spec fn jittered(e: Particles, now: u64, parent: Option<usize>, p: Particle) -> bool {
    &&& e.speed <= p.speed <= e.speed + speed_spread(e)
    &&& e.direction - half_cone(e) <= p.direction <= e.direction + half_cone(e)
    &&& e.life_time <= p.life_time <= e.life_time + life_spread(e)
    &&& p.created_at == now
    &&& p.position == e.position
    &&& p.color == e.color
    &&& p.size == e.size
    &&& p.parent == parent
}

/// The emitter after one tick: a burst emitter that spawns counts down.
pub open spec fn next_emitter(e: Particles) -> Particles {
    if !e.looping && e.rate > 0 {
        Particles { rate: (e.rate - 1) as u32, ..e }
    } else {
        e
    }
}

/// Whether `out` is a possible outcome of one tick of emitter `e`, the
/// `index`th one, at `now`. A looping emitter spawns or idles by chance, and
/// always spawns when its rate is under 100; a burst emitter spawns while its
/// rate is positive and is removed once it is zero.
pub open spec fn emission_ok(e: Particles, index: usize, now: u64, out: Emission) -> bool {
    if e.looping {
        match out {
            Emission::Idle => roll_bound(e) > 0,
            Emission::Spawned(p) => jittered(e, now, Some(index), p),
            Emission::Removed => false,
        }
    } else if e.rate > 0 {
        match out {
            Emission::Spawned(p) => jittered(e, now, None, p),
            _ => false,
        }
    } else {
        out == Emission::Removed
    }
}

impl Particles {
    /// Largest value of a looping emitter's roll: `rate / 100`, rounded down.
    pub fn spawn_roll_bound(&self) -> (r: u32)
        ensures
            r == roll_bound(*self),
    {
        self.rate / 100
    }

    /// The decision for a given roll: a looping emitter spawns when the roll
    /// equals `rate / 100`, a burst emitter while its rate is positive.
    pub fn decide(&self, roll: u64) -> (a: Action)
        ensures
            a == action_of(*self, roll as int),
    {
        if self.looping {
            if roll == (self.rate / 100) as u64 {
                Action::Spawn
            } else {
                Action::Idle
            }
        } else if self.rate > 0 {
            Action::Spawn
        } else {
            Action::Remove
        }
    }

    /// Builds the particle for three jitter draws: `ds` is added to the
    /// speed, `dd` to the low edge of the cone, `dl` to the lifetime.
    pub fn particle_from_draws(&self, now: u64, parent: Option<usize>, ds: u64, dd: u64, dl: u64) -> (p: Particle)
        requires
            ds <= speed_spread(*self),
            dd <= 2 * half_cone(*self),
            dl <= life_spread(*self),
        ensures
            p == particle_of(*self, now, parent, ds as int, dd as int, dl as int),
            jittered(*self, now, parent, p),
    {
        let low: i64 = self.direction as i64 - (self.angle / 2) as i64;
        Particle {
            speed: self.speed as u64 + ds,
            direction: low + dd as i64,
            life_time: self.life_time as u64 + dl,
            created_at: now,
            position: self.position,
            color: self.color,
            size: self.size,
            parent,
        }
    }

    /// Spawns one particle at `now` with freshly drawn jitter.
    pub fn generate_particle(&self, now: u64, parent: Option<usize>) -> (p: Particle)
        ensures
            jittered(*self, now, parent, p),
    {
        let ds = draw_upto((self.speed / 5) as u64);
        let dd = draw_upto((self.angle / 2) as u64 * 2);
        let dl = draw_upto(self.life_time as u64 * 3 / 10);
        self.particle_from_draws(now, parent, ds, dd, dl)
    }

    /// One tick for one emitter, given its roll: spawns, idles or asks to be
    /// removed, and counts a burst down.
    pub fn emit(&mut self, index: usize, roll: u64, now: u64) -> (out: Emission)
        requires
            roll <= roll_bound(*old(self)),
        ensures
            *final(self) == next_emitter(*old(self)),
            emission_ok(*old(self), index, now, out),
            out is Spawned <==> action_of(*old(self), roll as int) == Action::Spawn,
    {
        match self.decide(roll) {
            Action::Spawn => {
                let parent = if self.looping { Some(index) } else { None };
                let p = self.generate_particle(now, parent);
                if !self.looping {
                    self.rate = self.rate - 1;
                }
                Emission::Spawned(p)
            },
            Action::Idle => Emission::Idle,
            Action::Remove => Emission::Removed,
        }
    }

    /// The emission pass: one tick of every emitter at `now`. The result
    /// holds one outcome per emitter, in order; the host spawns each
    /// particle and removes each emitter marked `Removed`.
    pub fn spawn_particle(emitters: &mut Vec<Particles>, now: u64) -> (out: Vec<Emission>)
        ensures
            final(emitters)@.len() == old(emitters)@.len(),
            out@.len() == old(emitters)@.len(),
            forall|i: int|
                0 <= i < out@.len() ==> #[trigger] final(emitters)@[i] == next_emitter(old(emitters)@[i]),
            forall|i: int|
                0 <= i < out@.len() ==> emission_ok(old(emitters)@[i], i as usize, now, #[trigger] out@[i]),
    {
        let ghost start = emitters@;
        let mut out: Vec<Emission> = Vec::new();
        let n = emitters.len();
        let mut i: usize = 0;
        while i < n
            invariant
                n == start.len(),
                i <= n,
                emitters@.len() == n,
                out@.len() == i,
                forall|j: int| i <= j < n ==> emitters@[j] == start[j],
                forall|j: int| 0 <= j < i ==> emitters@[j] == next_emitter(start[j]),
                forall|j: int| 0 <= j < i ==> emission_ok(start[j], j as usize, now, #[trigger] out@[j]),
            decreases n - i,
        {
            let mut e = emitters[i];
            let roll = if e.looping {
                draw_upto(e.spawn_roll_bound() as u64)
            } else {
                0
            };
            let r = e.emit(i, roll, now);
            emitters[i] = e;
            out.push(r);
            i = i + 1;
        }
        out
    }
}

} // verus!
