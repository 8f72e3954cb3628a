//! A 2D particle-emitter core on an integer model.
//!
//! Emitters spawn short-lived particles with jittered speed, direction and
//! lifetime; the integrator moves each particle along its heading and flags
//! it for removal once its lifetime has run out. Quantities are fixed-point
//! integers: positions in micro-units, sizes in milli-units, speeds in
//! milli-units per second, angles in millidegrees, times in microseconds.

pub mod particles;
pub mod emission;
pub mod motion;
pub mod laws;
