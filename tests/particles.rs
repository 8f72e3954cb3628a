use particles::emission::{Action, Emission};
use particles::motion::{Heading, UNIT};
use particles::particles::{Color, Particle, Particles, Position};

fn burst(rate: u32) -> Particles {
    Particles {
        looping: false,
        speed: 300_000,
        life_time: 200_000,
        rate,
        size: 6_000,
        angle: 360_000,
        ..Particles::default()
    }
}

fn still_particle(speed: u64, created_at: u64, life_time: u64) -> Particle {
    Particle {
        speed,
        direction: 0,
        life_time,
        created_at,
        position: Position { x: 0, y: 0 },
        color: Color::white(),
        size: 10_000,
        parent: None,
    }
}

fn east() -> Heading {
    Heading { cos: UNIT, sin: 0 }
}

#[test]
fn default_emitter_fields() {
    let e = Particles::default();
    assert!(e.looping);
    assert_eq!(e.life_time, 3_000_000);
    assert_eq!(e.speed, 100_000);
    assert_eq!(e.size, 10_000);
    assert_eq!(e.direction, 0);
    assert_eq!(e.angle, 30_000);
    assert_eq!(e.rate, 300);
    assert_eq!(e.color, Color { r: 255, g: 255, b: 255, a: 255 });
    assert_eq!(e.position, Position { x: 0, y: 0 });
}

#[test]
fn default_emitter_roll_bound_is_three() {
    assert_eq!(Particles::default().spawn_roll_bound(), 3);
}

#[test]
fn default_emitter_spawns_about_a_quarter_of_ticks() {
    let mut emitters = vec![Particles::default()];
    let mut spawned: u32 = 0;
    for tick in 0..10_000u64 {
        let out = Particles::spawn_particle(&mut emitters, tick * 16_000);
        assert_eq!(out.len(), 1);
        match out[0] {
            Emission::Spawned(p) => {
                assert_eq!(p.parent, Some(0));
                spawned += 1;
            }
            Emission::Idle => {}
            Emission::Removed => panic!("a looping emitter is never removed"),
        }
    }
    assert_eq!(emitters[0], Particles::default());
    assert!((2_250..=2_750).contains(&spawned), "spawned {}", spawned);
}

#[test]
fn looping_rate_under_one_hundred_spawns_every_tick() {
    let mut emitters = vec![Particles { rate: 99, ..Particles::default() }];
    for tick in 0..50u64 {
        let out = Particles::spawn_particle(&mut emitters, tick);
        assert!(matches!(out[0], Emission::Spawned(_)));
    }
}

#[test]
fn decide_follows_mode_and_roll() {
    let e = Particles::default();
    assert_eq!(e.decide(3), Action::Spawn);
    assert_eq!(e.decide(2), Action::Idle);
    assert_eq!(e.decide(0), Action::Idle);
    assert_eq!(burst(1).decide(0), Action::Spawn);
    assert_eq!(burst(0).decide(0), Action::Remove);
}

#[test]
fn burst_rate_zero_is_removed_at_once() {
    let mut emitters = vec![burst(0)];
    let out = Particles::spawn_particle(&mut emitters, 0);
    assert_eq!(out, vec![Emission::Removed]);
    assert_eq!(emitters[0].rate, 0);
}

#[test]
fn burst_of_three_spawns_three_then_is_removed() {
    let mut emitters = vec![burst(3)];
    for tick in 0..3u64 {
        let out = Particles::spawn_particle(&mut emitters, tick);
        assert!(matches!(out[0], Emission::Spawned(_)));
        assert_eq!(emitters[0].rate, 2 - tick as u32);
    }
    let out = Particles::spawn_particle(&mut emitters, 3);
    assert_eq!(out[0], Emission::Removed);
}

#[test]
fn burst_scenario_thirty_particles_then_removal() {
    let mut emitters = vec![burst(30)];
    let mut spawned: Vec<Particle> = Vec::new();
    for tick in 0..30u64 {
        let out = Particles::spawn_particle(&mut emitters, tick * 16_000);
        match out[0] {
            Emission::Spawned(p) => {
                assert_eq!(p.parent, None);
                assert_eq!(p.created_at, tick * 16_000);
                assert_eq!(p.size, 6_000);
                spawned.push(p);
            }
            other => panic!("tick {} gave {:?}", tick, other),
        }
    }
    let out = Particles::spawn_particle(&mut emitters, 30 * 16_000);
    assert_eq!(out[0], Emission::Removed);
    assert_eq!(spawned.len(), 30);
    for p in spawned.iter() {
        assert!(p.life_time >= 200_000 && p.life_time <= 260_000);
        assert!(p.direction >= -180_000 && p.direction <= 180_000);
        let mut alive_copy = *p;
        assert!(!alive_copy.step(east(), 0, p.created_at + p.life_time - 1));
        let mut dead_copy = *p;
        assert!(dead_copy.step(east(), 0, p.created_at + p.life_time));
    }
}

#[test]
fn jitter_stays_in_bounds() {
    let e = Particles { direction: 90_000, ..Particles::default() };
    for k in 0..1_000u64 {
        let p = e.generate_particle(k, Some(4));
        assert!(p.speed >= 100_000 && p.speed <= 120_000);
        assert!(p.life_time >= 3_000_000 && p.life_time <= 3_900_000);
        assert!(p.direction >= 75_000 && p.direction <= 105_000);
        assert_eq!(p.created_at, k);
        assert_eq!(p.position, e.position);
        assert_eq!(p.parent, Some(4));
    }
}

#[test]
fn jitter_is_not_constant() {
    let e = Particles::default();
    let first = e.generate_particle(0, None);
    let mut differs = false;
    for _ in 0..200 {
        let p = e.generate_particle(0, None);
        if p.speed != first.speed || p.direction != first.direction || p.life_time != first.life_time {
            differs = true;
        }
    }
    assert!(differs);
}

#[test]
fn particle_from_draws_adds_each_draw() {
    let e = Particles { position: Position { x: -200_000_000, y: 0 }, direction: 90_000, ..Particles::default() };
    let p = e.particle_from_draws(7, Some(1), 5_000, 10_000, 600_000);
    assert_eq!(p.speed, 105_000);
    assert_eq!(p.direction, 85_000);
    assert_eq!(p.life_time, 3_600_000);
    assert_eq!(p.created_at, 7);
    assert_eq!(p.position, Position { x: -200_000_000, y: 0 });
    assert_eq!(p.size, 10_000);
    assert_eq!(p.parent, Some(1));
}

#[test]
fn straight_motion_along_direction_zero() {
    let mut p = still_particle(100_000, 0, 3_000_000);
    assert!(!p.step(east(), 16_000, 16_000));
    assert_eq!(p.position, Position { x: 1_600_000, y: 0 });
}

#[test]
fn motion_backwards_and_sideways() {
    let mut p = still_particle(300_000, 0, 1_000_000);
    assert!(!p.step(Heading { cos: -UNIT, sin: 500_000 }, 10_000, 10_000));
    assert_eq!(p.position, Position { x: -3_000_000, y: 1_500_000 });
}

#[test]
fn motion_saturates_at_the_edge() {
    let mut p = still_particle(1_000_000, 0, 1_000_000);
    p.position = Position { x: i64::MAX - 10, y: i64::MIN + 10 };
    assert!(!p.step(Heading { cos: UNIT, sin: -UNIT }, 1_000, 1));
    assert_eq!(p.position, Position { x: i64::MAX, y: i64::MIN });
}

#[test]
fn expired_particle_is_flagged_and_left_alone() {
    let mut p = still_particle(100_000, 1_000, 500);
    p.position = Position { x: 42, y: -7 };
    let before = p;
    assert!(p.step(east(), 16_000, 1_500));
    assert_eq!(p, before);
    assert!(p.step(east(), 16_000, 9_000));
    assert_eq!(p, before);
}

#[test]
fn zero_lifetime_expires_on_first_motion_tick() {
    let mut p = still_particle(100_000, 5_000, 0);
    assert!(p.step(east(), 16_000, 5_000));
}

#[test]
fn motion_pass_moves_live_and_flags_expired() {
    let mut ps = vec![still_particle(100_000, 0, 1_000_000), still_particle(100_000, 0, 10)];
    let headings = vec![east(), east()];
    let expired = Particles::transform_particle(&mut ps, &headings, 16_000, 16_000);
    assert_eq!(expired, vec![false, true]);
    assert_eq!(ps[0].position, Position { x: 1_600_000, y: 0 });
    assert_eq!(ps[1].position, Position { x: 0, y: 0 });
}

#[test]
fn system_runs_both_passes() {
    let mut emitters = vec![burst(1), burst(0)];
    let mut ps = vec![still_particle(100_000, 0, 1_000_000)];
    let headings = vec![east()];
    let (spawned, expired) = Particles::system(&mut emitters, &mut ps, &headings, 16_000, 16_000);
    assert!(matches!(spawned[0], Emission::Spawned(_)));
    assert_eq!(spawned[1], Emission::Removed);
    assert_eq!(emitters[0].rate, 0);
    assert_eq!(expired, vec![false]);
    assert_eq!(ps.len(), 1);
    assert_eq!(ps[0].position, Position { x: 1_600_000, y: 0 });
}
