use vstd::prelude::*;

verus! {

/// A point of world space, in micro-units (a millionth of a world unit).
#[derive(Clone, Copy, Debug, PartialEq, Eq, Structural)]
pub struct Position {
    pub x: i64,
    pub y: i64,
}

/// A colour with 8-bit channels; the core stores and forwards it unchanged.
#[derive(Clone, Copy, Debug, PartialEq, Eq, Structural)]
pub struct Color {
    pub r: u8,
    pub g: u8,
    pub b: u8,
    pub a: u8,
}

impl Color {
    /// Opaque white.
    pub fn white() -> (c: Color)
        ensures
            c == (Color { r: 255, g: 255, b: 255, a: 255 }),
    {
        Color { r: 255, g: 255, b: 255, a: 255 }
    }
}

/// One live particle. Every field but `position` is fixed when it is spawned.
#[derive(Clone, Copy, Debug, PartialEq, Eq, Structural)]
pub struct Particle {
    /// Speed in milli-units per second, jitter included.
    pub speed: u64,
    /// Heading in millidegrees, jitter included.
    pub direction: i64,
    /// Lifetime in microseconds, jitter included.
    pub life_time: u64,
    /// Simulation time of the spawn, in microseconds.
    pub created_at: u64,
    /// Current position, in micro-units.
    pub position: Position,
    /// Colour handed on from the emitter, for display.
    pub color: Color,
    /// Side length handed on from the emitter, in milli-units, for display.
    pub size: u32,
    /// Index of the looping emitter that spawned it, kept for grouping only.
    pub parent: Option<usize>,
}

/// An emitter: the configuration of one source of particles.
#[derive(Clone, Copy, Debug, PartialEq, Eq, Structural)]
pub struct Particles {
    /// Spawn point, in micro-units.
    pub position: Position,
    /// Spawn at random for ever (true), or a fixed burst and then go (false).
    pub looping: bool,
    /// Base lifetime of a particle, in microseconds.
    pub life_time: u32,
    pub color: Color,
    /// Base speed of a particle, in milli-units per second.
    pub speed: u32,
    /// Side length of a particle, in milli-units.
    pub size: u32,
    /// Centre of the emission cone, in millidegrees.
    pub direction: i32,
    /// Full width of the emission cone, in millidegrees.
    pub angle: u32,
    /// Looping: sets the odds of a spawn per tick. Burst: particles left to spawn.
    pub rate: u32,
}

/// The default emitter: looping, 3 s lifetime, speed 100, size 10,
/// direction 0, a 30 degree cone, rate 300, white, at the origin.
pub open spec fn default_emitter() -> Particles {
    Particles {
        position: Position { x: 0, y: 0 },
        looping: true,
        life_time: 3_000_000,
        color: Color { r: 255, g: 255, b: 255, a: 255 },
        speed: 100_000,
        size: 10_000,
        direction: 0,
        angle: 30_000,
        rate: 300,
    }
}

impl Default for Particles {
    fn default() -> (e: Particles)
        ensures
            e == default_emitter(),
    {
        Particles {
            position: Position { x: 0, y: 0 },
            looping: true,
            life_time: 3_000_000,
            color: Color::white(),
            speed: 100_000,
            size: 10_000,
            direction: 0,
            angle: 30_000,
            rate: 300,
        }
    }
}

} // verus!
