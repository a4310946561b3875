use boids::boid::Boid;
use boids::fixed::Fixed;
use boids::flocking::{steer_toward, steering_of, Tally};
use boids::predator::Predator;
use boids::rng::Rng;
use boids::vector::Vec2;

fn fixed(x: f64) -> Fixed {
    Fixed::from_raw((x * 1e6).round() as i64)
}

fn float(x: Fixed) -> f64 {
    x.raw as f64 / 1e6
}

/// A stream of numbers between `lo` and `hi`.
struct Stream(u64);

impl Stream {
    fn next(&mut self, lo: f64, hi: f64) -> f64 {
        self.0 = self.0.wrapping_mul(6364136223846793005).wrapping_add(1442695040888963407);
        let unit = ((self.0 >> 11) as f64) / ((1u64 << 53) as f64);
        // Rounded to what a fixed-point number can hold, so that both sides
        // start from the same value.
        ((lo + unit * (hi - lo)) * 1e6).round() / 1e6
    }
}

fn real_normalize(x: f64, y: f64) -> (f64, f64) {
    let m = (x * x + y * y).sqrt();
    if m > 0.0 {
        (x / m, y / m)
    } else {
        (0.0, 0.0)
    }
}

fn real_limit(x: f64, y: f64, max: f64) -> (f64, f64) {
    if x * x + y * y > max * max {
        let (nx, ny) = real_normalize(x, y);
        (nx * max, ny * max)
    } else {
        (x, y)
    }
}

fn real_steer(raw: (f64, f64), speed: f64, vel: (f64, f64), limit: f64) -> (f64, f64) {
    let (nx, ny) = real_normalize(raw.0, raw.1);
    real_limit(nx * speed - vel.0, ny * speed - vel.1, limit)
}

#[test]
fn arithmetic_tracks_the_real_numbers() {
    let mut s = Stream(1);
    for _ in 0..5000 {
        let a = s.next(-1000.0, 1000.0);
        let b = s.next(-1000.0, 1000.0);
        assert!((float(fixed(a).add(fixed(b))) - (a + b)).abs() < 2e-6);
        assert!((float(fixed(a).sub(fixed(b))) - (a - b)).abs() < 2e-6);
        assert!((float(fixed(a).mul(fixed(b))) - a * b).abs() < 2e-6);
        if b.abs() > 0.001 {
            let q = a / b;
            assert!((float(fixed(a).div(fixed(b))) - q).abs() < 2e-6, "{} / {}", a, b);
        }
        let c = a.abs();
        assert!((float(fixed(c).sqrt()) - c.sqrt()).abs() < 2e-6);
        assert!((float(Fixed::hypot(fixed(a), fixed(b))) - (a * a + b * b).sqrt()).abs() < 2e-6);
    }
}

#[test]
fn normalized_vectors_have_length_one() {
    let mut s = Stream(2);
    for scale in [0.0001, 0.01, 1.0, 100.0, 1e6] {
        for _ in 0..1000 {
            let x = s.next(-scale, scale);
            let y = s.next(-scale, scale);
            let n = Vec2::new(fixed(x), fixed(y)).normalize();
            if x == 0.0 && y == 0.0 {
                assert_eq!(n, Vec2::zero());
                continue;
            }
            let (rx, ry) = real_normalize(x, y);
            // The smaller the vector, the coarser its direction is known.
            let slack = 2e-6 + 2e-6 / (x * x + y * y).sqrt();
            assert!((float(n.x) - rx).abs() < slack, "({}, {})", x, y);
            assert!((float(n.y) - ry).abs() < slack, "({}, {})", x, y);
        }
    }
}

#[test]
fn steering_tracks_the_real_formula() {
    let mut s = Stream(3);
    for _ in 0..5000 {
        let raw = (s.next(-50.0, 50.0), s.next(-50.0, 50.0));
        let vel = (s.next(-5.0, 5.0), s.next(-5.0, 5.0));
        let speed = s.next(0.0, 8.0);
        let limit = s.next(0.0, 0.5);
        let got = steer_toward(
            Vec2::new(fixed(raw.0), fixed(raw.1)),
            fixed(speed),
            Vec2::new(fixed(vel.0), fixed(vel.1)),
            fixed(limit),
        );
        let want = real_steer(raw, speed, vel, limit);
        assert!((float(got.x) - want.0).abs() < 1e-5, "{:?} {:?} {} {}", raw, vel, speed, limit);
        assert!((float(got.y) - want.1).abs() < 1e-5, "{:?} {:?} {} {}", raw, vel, speed, limit);
        assert!(float(got.mag()) <= limit + 3e-6);
    }
}

#[test]
fn flight_and_avoidance_track_the_real_formulas() {
    let mut s = Stream(4);
    let mut rng = Rng::new(77);
    let nothing = Tally {
        sep: Vec2::zero(),
        ali: Vec2::zero(),
        coh: Vec2::zero(),
        sep_ct: 0,
        ali_ct: 0,
        coh_ct: 0,
    };
    for _ in 0..2000 {
        let mut me = Boid::new(fixed(s.next(0.0, 400.0)), fixed(s.next(0.0, 300.0)), 0, false, &mut rng);
        let (px, py) = (float(me.position.x), float(me.position.y));
        let (vx, vy) = (float(me.velocity.x), float(me.velocity.y));
        let bravery = float(me.bravery);
        me.fear = Fixed::zero();
        let predators: Vec<(f64, f64)> = (0..3).map(|_| (s.next(0.0, 400.0), s.next(0.0, 300.0))).collect();
        let obstacles: Vec<(f64, f64)> = (0..3).map(|_| (s.next(0.0, 400.0), s.next(0.0, 300.0))).collect();

        let flee_radius = 100.0 + (1.0 - bravery) * 50.0;
        let mut flee = (0.0, 0.0);
        let mut fear: f64 = 0.0;
        let mut borderline = false;
        for p in predators.iter() {
            let (dx, dy) = (px - p.0, py - p.1);
            let dsq = dx * dx + dy * dy;
            borderline |= (dsq - flee_radius * flee_radius).abs() < 0.1;
            if dsq < flee_radius * flee_radius {
                let d = dsq.sqrt();
                let inv = 1.0 / (d + 0.001);
                flee.0 += dx * inv;
                flee.1 += dy * inv;
                fear = fear.max(1.0 - d / flee_radius);
            }
        }
        borderline |= (fear - 0.3).abs() < 1e-4;
        let fearful = fear > 0.3;
        let mut acc = (0.0, 0.0);
        if flee.0 != 0.0 || flee.1 != 0.0 {
            let f = real_steer(flee, 4.0 * (1.5 + bravery * 0.3), (vx, vy), 0.45);
            let w = if fearful { 4.0 } else { 1.0 } * (4.0 - bravery);
            acc.0 += f.0 * w;
            acc.1 += f.1 * w;
        }
        let reach = if fearful { 6400.0 } else { 2500.0 };
        let mut rep = (0.0, 0.0);
        for o in obstacles.iter() {
            let (dx, dy) = (px - o.0, py - o.1);
            let dsq = dx * dx + dy * dy;
            borderline |= (dsq - reach).abs() < 0.1;
            if dsq < reach {
                let inv = 1.0 / (dsq + 0.001);
                rep.0 += dx * inv;
                rep.1 += dy * inv;
            }
        }
        if rep.0 != 0.0 || rep.1 != 0.0 {
            let f = real_steer(
                rep,
                4.0 * if fearful { 1.5 } else { 1.0 },
                (vx, vy),
                0.15 * if fearful { 3.0 } else { 2.0 },
            );
            let w = if fearful { 3.0 } else { 1.0 };
            acc.0 += f.0 * w;
            acc.1 += f.1 * w;
        }
        if borderline {
            continue;
        }

        let fixed_predators: Vec<(Fixed, Fixed)> = predators.iter().map(|p| (fixed(p.0), fixed(p.1))).collect();
        let fixed_obstacles: Vec<(Fixed, Fixed)> = obstacles.iter().map(|o| (fixed(o.0), fixed(o.1))).collect();
        let (got, got_fear) = steering_of(&me, &nothing, &fixed_predators, &fixed_obstacles, &[]);
        assert!((float(got_fear) - fear).abs() < 1e-5);
        assert!((float(got.x) - acc.0).abs() < 2e-4, "{} vs {}", float(got.x), acc.0);
        assert!((float(got.y) - acc.1).abs() < 2e-4, "{} vs {}", float(got.y), acc.1);
    }
}

#[test]
fn pursuit_tracks_the_real_formula() {
    let mut s = Stream(5);
    let mut rng = Rng::new(5);
    for _ in 0..2000 {
        let mut p = Predator::new(fixed(s.next(0.0, 400.0)), fixed(s.next(0.0, 300.0)), 0, 1, &mut rng);
        let day = s.next(0.0, 1.0);
        let (tx, ty) = (s.next(0.0, 400.0), s.next(0.0, 300.0));
        let (tvx, tvy) = (s.next(-4.0, 4.0), s.next(-4.0, 4.0));
        let (px, py) = (float(p.position.x), float(p.position.y));
        let (vx, vy) = (float(p.velocity.x), float(p.velocity.y));
        let agg = 1.0 + (1.0 - day) * 0.5;
        let d = (px - tx) * (px - tx) + (py - ty) * (py - ty);
        if (d - 22500.0 * agg * agg).abs() < 1.0 || (d.sqrt() - 12.0).abs() < 1e-3 {
            continue;
        }
        let prey = [(fixed(tx), fixed(ty), fixed(tvx), fixed(tvy), fixed(70.0), false, false)];
        let caught = p.hunt(&prey, &[], fixed(day));
        if d < 22500.0 * agg * agg {
            let max_speed = 3.8 + (1.0 - day) * 2.0;
            let want = real_steer((tx + tvx * 8.0 - px, ty + tvy * 8.0 - py), max_speed, (vx, vy), 0.12 * agg);
            assert_eq!(p.target_index, Some(0));
            assert!((float(p.acceleration.x) - want.0).abs() < 1e-5);
            assert!((float(p.acceleration.y) - want.1).abs() < 1e-5);
            assert_eq!(caught.is_some(), d.sqrt() < 12.0);
        } else {
            assert_eq!(p.target_index, None);
            assert_eq!(caught, None);
        }
    }
}

#[test]
fn flocking_tracks_the_real_formulas() {
    let mut s = Stream(6);
    let mut rng = Rng::new(6);
    for round in 0..1500 {
        let day = s.next(0.0, 1.0);
        let mut me = Boid::new(fixed(s.next(100.0, 200.0)), fixed(s.next(100.0, 200.0)), 0, round % 7 == 0, &mut rng);
        me.fear = Fixed::zero();
        let (px, py) = (float(me.position.x), float(me.position.y));
        let (vx, vy) = (float(me.velocity.x), float(me.velocity.y));
        let sociability = float(me.sociability);
        let others: Vec<Boid> = (0..6)
            .map(|i| {
                let spread = if i < 3 { 20.0 } else { 80.0 };
                Boid::new(
                    fixed(px + s.next(-spread, spread)),
                    fixed(py + s.next(-spread, spread)),
                    (i % 2) as u8,
                    i == 5,
                    &mut rng,
                )
            })
            .collect();

        let coh_radius = 50.0 * (1.0 + (1.0 - day) * 0.5 + sociability * 0.3);
        let (mut sep, mut ali, mut coh) = ((0.0, 0.0), (0.0, 0.0), (0.0, 0.0));
        let (mut sep_ct, mut ali_ct, mut coh_ct) = (0, 0, 0);
        let mut borderline = false;
        for o in others.iter() {
            let (ox, oy) = (float(o.position.x), float(o.position.y));
            let (dx, dy) = (px - ox, py - oy);
            let dsq = dx * dx + dy * dy;
            for edge in [625.0, 2500.0, coh_radius * coh_radius] {
                borderline |= (dsq - edge).abs() < 0.1;
            }
            if dsq < 625.0 {
                sep.0 += dx / (dsq + 0.001);
                sep.1 += dy / (dsq + 0.001);
                sep_ct += 1;
            }
            if me.is_hybrid || o.is_hybrid || o.species == me.species {
                if dsq < 2500.0 {
                    ali.0 += float(o.velocity.x);
                    ali.1 += float(o.velocity.y);
                    ali_ct += 1;
                }
                if dsq < coh_radius * coh_radius {
                    coh.0 += ox;
                    coh.1 += oy;
                    coh_ct += 1;
                }
            }
        }
        if borderline {
            continue;
        }
        let mut acc = (0.0, 0.0);
        if sep_ct > 0 {
            let f = real_steer((sep.0 / sep_ct as f64, sep.1 / sep_ct as f64), 4.0, (vx, vy), 0.15);
            acc.0 += f.0 * 1.8;
            acc.1 += f.1 * 1.8;
        }
        if ali_ct > 0 {
            let f = real_steer((ali.0 / ali_ct as f64, ali.1 / ali_ct as f64), 4.0, (vx, vy), 0.15);
            acc.0 += f.0;
            acc.1 += f.1;
        }
        if coh_ct > 0 {
            let f = real_steer((coh.0 / coh_ct as f64 - px, coh.1 / coh_ct as f64 - py), 4.0, (vx, vy), 0.15);
            acc.0 += f.0 * (1.0 + sociability * 0.3);
            acc.1 += f.1 * (1.0 + sociability * 0.3);
        }

        // A direction is known to about one part in a million of a unit; a
        // steering force is what is left of it when the velocity is taken away,
        // and keeps the absolute error.
        let nearby: Vec<&Boid> = others.iter().collect();
        me.flock(&nearby, &[], &[], &[], fixed(day));
        assert!((float(me.acceleration.x) - acc.0).abs() < 1e-3, "{} vs {}", float(me.acceleration.x), acc.0);
        assert!((float(me.acceleration.y) - acc.1).abs() < 1e-3, "{} vs {}", float(me.acceleration.y), acc.1);
        assert_eq!(me.fear, Fixed::zero());
    }
}

#[test]
fn integration_tracks_the_real_formulas() {
    let mut s = Stream(7);
    let mut rng = Rng::new(7);
    for round in 0..3000 {
        let day = s.next(0.0, 1.0);
        let mut b = Boid::new(fixed(s.next(0.0, 400.0)), fixed(s.next(0.0, 300.0)), 0, false, &mut rng);
        b.acceleration = Vec2::new(fixed(s.next(-1.0, 1.0)), fixed(s.next(-1.0, 1.0)));
        b.fear = fixed(if round % 3 == 0 { 0.0 } else { s.next(0.0, 1.0) });
        b.age = (s.next(0.0, 1.0) * b.max_age as f64) as u32;
        b.fatigue = fixed(s.next(0.0, 100.0));
        if round % 4 == 0 {
            b.mutations.set(boids::boid::Mutations::NOCTURNAL | boids::boid::Mutations::SPEEDY);
            b.apply_mutation_effects();
        }
        let before = b;
        let alive = b.update(fixed(400.0), fixed(300.0), fixed(day), &mut rng);
        assert!(alive);

        let fear = float(before.fear);
        let night = before.mutations.has(boids::boid::Mutations::NOCTURNAL) && day < 0.4;
        if (day - 0.4).abs() < 1e-6 {
            continue;
        }
        let mut energy = float(before.energy) - (0.012 + float(before.hunger) * 0.005) * float(before.energy_drain);
        let mut fatigue = float(before.fatigue) + (0.025 - float(before.laziness) * 0.01) * float(before.fatigue_resistance);
        if fear > 0.0 {
            energy -= 0.04 * float(before.energy_drain);
            fatigue += 0.04 * float(before.fatigue_resistance);
        }
        if night {
            energy += 0.005;
            fatigue -= 0.01;
        }
        assert!((float(b.energy) - energy).abs() < 1e-5);
        assert!((float(b.fatigue) - fatigue).abs() < 1e-5);

        let age_slow = (1.0 - ((before.age + 1) as f64 / before.max_age as f64) * 0.5).max(0.5);
        let limit = 4.0 * ((0.6 + day * 0.4) * age_slow * float(before.speed_mult)) * (1.0 + fear * 0.5) * if night { 1.3 } else { 1.0 };
        let (vx, vy) = real_limit(
            float(before.velocity.x) + float(before.acceleration.x),
            float(before.velocity.y) + float(before.acceleration.y),
            limit,
        );
        assert!((float(b.velocity.x) - vx).abs() < 2e-5, "{} vs {}", float(b.velocity.x), vx);
        assert!((float(b.velocity.y) - vy).abs() < 2e-5, "{} vs {}", float(b.velocity.y), vy);
        let x = (float(before.position.x) + float(b.velocity.x)).rem_euclid(400.0);
        let y = (float(before.position.y) + float(b.velocity.y)).rem_euclid(300.0);
        let wrapped_apart = |a: f64, b: f64, size: f64| ((a - b).abs()).min(size - (a - b).abs());
        assert!(wrapped_apart(float(b.position.x), x, 400.0) < 1e-5);
        assert!(wrapped_apart(float(b.position.y), y, 300.0) < 1e-5);
    }
}
