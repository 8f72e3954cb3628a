use vstd::prelude::*;
use crate::emission::{emission_ok, jittered, next_emitter, Emission};
use crate::motion::{advanced, displacement, alive, heading_ok, motion_step, Heading, UNIT};
use crate::particles::{Particle, Particles, Position};

verus! {

/// The emitter after `k` emission ticks.
pub open spec fn after_ticks(e: Particles, k: nat) -> Particles
    decreases k,
{
    if k == 0 {
        e
    } else {
        next_emitter(after_ticks(e, (k - 1) as nat))
    }
}

/// A particle is alive exactly while `now` is before `created_at + life_time`,
/// and motion never moves that deadline: the particle is flagged as expired
/// at the first tick whose time reaches it, and at no tick before.
pub proof fn lemma_lifetime_deadline(p: Particle, h: Heading, dt: u32, earlier: u64, later: u64)
    requires
        heading_ok(h),
        earlier <= later,
    ensures
        alive(p, later) <==> later < p.created_at + p.life_time,
        alive(motion_step(p, h, dt, earlier), later) == alive(p, later),
        !alive(p, earlier) ==> !alive(p, later),
{
}

/// Every spawned particle's speed lies in `[speed, 1.2 * speed]`, its
/// lifetime in `[life_time, 1.3 * life_time]`, and its direction in
/// `[direction - angle / 2, direction + angle / 2]`.
pub proof fn lemma_jitter_bounds(e: Particles, now: u64, parent: Option<usize>, p: Particle)
    requires
        jittered(e, now, parent, p),
    ensures
        e.speed <= p.speed && 5 * p.speed <= 6 * e.speed,
        e.life_time <= p.life_time && 10 * p.life_time <= 13 * e.life_time,
        2 * e.direction - e.angle <= 2 * p.direction <= 2 * e.direction + e.angle,
{
}

/// A burst emitter with rate `n` spawns one particle in each of its first `n`
/// ticks, and in tick `n + 1` spawns nothing and is removed.
pub proof fn lemma_burst_exhaustion(e: Particles, n: nat, index: usize, now: u64)
    requires
        !e.looping,
        e.rate == n,
    ensures
        forall|k: nat, out: Emission|
            k < n && #[trigger] emission_ok(after_ticks(e, k), index, now, out) ==> out is Spawned,
        forall|k: nat| k < n ==> (#[trigger] after_ticks(e, k)).rate == n - k,
        forall|out: Emission| emission_ok(after_ticks(e, n), index, now, out) <==> out == Emission::Removed,
{
    assert forall|k: nat| k <= n implies (#[trigger] after_ticks(e, k)).rate == n - k
        && !after_ticks(e, k).looping by {
        lemma_burst_count(e, n, k);
    }
}

proof fn lemma_burst_count(e: Particles, n: nat, k: nat)
    requires
        !e.looping,
        e.rate == n,
        k <= n,
    ensures
        after_ticks(e, k).rate == n - k,
        !after_ticks(e, k).looping,
    decreases k,
{
    if k > 0 {
        lemma_burst_count(e, n, (k - 1) as nat);
    }
}

/// A particle at the origin heading along direction 0 (heading `(1, 0)`),
/// at speed `s` milli-units per second, is at `(s * dt / 1000, 0)`
/// micro-units after `dt` microseconds.
pub proof fn lemma_straight_motion(p: Particle, dt: u32)
    requires
        p.position == (Position { x: 0, y: 0 }),
        p.speed * dt / 1000 <= i64::MAX,
    ensures
        advanced(p, Heading { cos: UNIT, sin: 0 }, dt).position == (Position {
            x: (p.speed * dt / 1000) as i64,
            y: 0,
        }),
{
    let a: int = p.speed * dt;
    let s: int = p.speed as int;
    let t: int = dt as int;
    assert(1_000_000 * s * t == 1_000_000 * a) by (nonlinear_arith)
        requires a == s * t;
    assert((1_000_000 * a) / 1_000_000_000 == a / 1000) by (nonlinear_arith)
        requires a >= 0;
    assert(0 * s * t == 0) by (nonlinear_arith);
    assert(displacement(UNIT as int, s, t) == a / 1000);
    assert(displacement(0, s, t) == 0);
    assert(a / 1000 >= 0) by (nonlinear_arith)
        requires a >= 0;
}

/// Once a particle has expired, no later motion tick reads past its deadline
/// or changes it: its position stays as it was.
pub proof fn lemma_expired_stays_put(p: Particle, h: Heading, dt: u32, expiry: u64, later: u64)
    requires
        !alive(p, expiry),
        expiry <= later,
    ensures
        motion_step(p, h, dt, later) == p,
        motion_step(p, h, dt, later).position == p.position,
{
}

} // verus!
