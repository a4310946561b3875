use boids::boid::{clamp_to_unit, wrapped, Boid, BoidState, Mutations};
use boids::bug::Bug;
use boids::feeding::{
    bug_rate_in, cull_bugs, cull_food, eat_bugs, food_chance_in, forage_once, max_bugs_in, nourish,
    season_of, seek_food, spawn_bug, spawn_food, update_bugs,
};
use boids::fixed::Fixed;
use boids::flocking::{
    absorbed, add_avoidance, add_flight, bumped, cohesion_reach, flock_force_of, is_sheltered,
    repulsion_of, steer_toward, steering_of, threat_of, BoidCache, Tally, Threat,
};
use boids::hunting::{collect_prey, feed, remove_caught, run_hunts, update_predators};
use boids::predator::Predator;
use boids::rng::Rng;
use boids::vector::Vec2;
use boids::world::World;

fn f(x: f64) -> Fixed {
    Fixed::from_raw((x * 1e6).round() as i64)
}

fn v(x: f64, y: f64) -> Vec2 {
    Vec2::new(f(x), f(y))
}

fn still(x: f64, y: f64) -> Boid {
    let mut rng = Rng::new(4242);
    let mut b = Boid::new(f(x), f(y), 0, false, &mut rng);
    b.velocity = Vec2::zero();
    b.energy = f(80.0);
    b.max_age = 10_000;
    b.bravery = f(0.5);
    b.hunger = f(0.4);
    b.laziness = f(0.5);
    b.sociability = f(0.0);
    b
}

fn shown(x: f64, y: f64, species: u8) -> BoidCache {
    BoidCache { x: f(x), y: f(y), vx: f(0.0), vy: f(0.0), species, is_hybrid: false, state: 0 }
}

fn nothing() -> Tally {
    Tally { sep: Vec2::zero(), ali: Vec2::zero(), coh: Vec2::zero(), sep_ct: 0, ali_ct: 0, coh_ct: 0 }
}

fn lazy_bug(x: f64, y: f64) -> Bug {
    let mut rng = Rng::new(9);
    let mut bug = Bug::new(f(x), f(y), &mut rng);
    bug.velocity = Vec2::zero();
    bug
}

#[test]
fn clamp_to_unit_pins_both_ends() {
    assert_eq!(clamp_to_unit(f(-0.5)), f(0.0));
    assert_eq!(clamp_to_unit(f(0.25)), f(0.25));
    assert_eq!(clamp_to_unit(f(1.5)), f(1.0));
}

#[test]
fn wrapped_is_the_remainder_that_is_not_negative() {
    assert_eq!(wrapped(f(401.5), f(400.0)), f(1.5));
    assert_eq!(wrapped(f(-1.5), f(400.0)), f(398.5));
    assert_eq!(wrapped(f(400.0), f(400.0)), f(0.0));
    assert_eq!(wrapped(f(-400.0), f(400.0)), f(0.0));
    assert_eq!(wrapped(f(0.0), f(400.0)), f(0.0));
    assert_eq!(wrapped(f(-0.000001), f(400.0)), f(399.999999));
    assert_eq!(wrapped(f(12345.0), f(400.0)), f(345.0));
    assert_eq!(wrapped(Fixed::from_raw(i64::MIN), Fixed::from_raw(1_000)).raw, 192);
    assert_eq!(wrapped(Fixed::from_raw(i64::MAX), Fixed::from_raw(1_000)).raw, 807);
    assert_eq!(wrapped(f(5.0), f(0.0)), f(5.0));
    assert_eq!(wrapped(f(-5.0), f(-3.0)), f(-5.0));
}

#[test]
fn bumped_stops_at_the_top() {
    assert_eq!(bumped(0), 1);
    assert_eq!(bumped(41), 42);
    assert_eq!(bumped(usize::MAX), usize::MAX);
}

#[test]
fn cohesion_reach_is_the_squared_radius() {
    assert_eq!(cohesion_reach(f(0.0), f(1.0)), f(2500.0));
    assert_eq!(cohesion_reach(f(1.0), f(0.0)), f(8100.0));
    assert_eq!(cohesion_reach(f(0.5), f(0.5)), f(4900.0));
}

#[test]
fn absorbed_counts_a_near_stranger_for_separation_only() {
    let me = still(0.0, 0.0);
    let t = absorbed(nothing(), &me, &shown(3.0, 4.0, 1), f(2500.0));
    assert_eq!((t.sep_ct, t.ali_ct, t.coh_ct), (1, 0, 0));
    assert_eq!(t.sep.x.raw, -119_995);
    assert_eq!(t.sep.y.raw, -159_993);
    assert_eq!(t.ali, Vec2::zero());
    assert_eq!(t.coh, Vec2::zero());
}

#[test]
fn absorbed_counts_kin_by_distance() {
    let me = still(0.0, 0.0);
    let mut other = shown(30.0, 0.0, 0);
    other.vx = f(1.0);
    other.vy = f(-2.0);
    let t = absorbed(nothing(), &me, &other, f(2500.0));
    assert_eq!((t.sep_ct, t.ali_ct, t.coh_ct), (0, 1, 1));
    assert_eq!(t.ali, v(1.0, -2.0));
    assert_eq!(t.coh, v(30.0, 0.0));
    let far = shown(60.0, 0.0, 0);
    let u = absorbed(t, &me, &far, f(8100.0));
    assert_eq!((u.sep_ct, u.ali_ct, u.coh_ct), (0, 1, 2));
    assert_eq!(u.coh, v(90.0, 0.0));
    let at_25 = absorbed(nothing(), &me, &shown(25.0, 0.0, 0), f(2500.0));
    assert_eq!(at_25.sep_ct, 0);
    let at_50 = absorbed(nothing(), &me, &shown(50.0, 0.0, 0), f(2500.0));
    assert_eq!((at_50.ali_ct, at_50.coh_ct), (0, 0));
}

#[test]
fn steer_toward_follows_the_pattern() {
    // Toward (3, 4) at speed 4 from rest: desired (2.4, 3.2), limited to 0.15.
    assert_eq!(steer_toward(v(3.0, 4.0), f(4.0), Vec2::zero(), f(0.15)), v(0.09, 0.12));
    // Already at the desired velocity: nothing to do.
    assert_eq!(steer_toward(v(3.0, 4.0), f(5.0), v(3.0, 4.0), f(0.15)), Vec2::zero());
    // No direction: brake.
    assert_eq!(steer_toward(Vec2::zero(), f(4.0), v(0.1, 0.0), f(0.15)), v(-0.1, 0.0));
    // A roomy limit leaves the difference whole.
    assert_eq!(steer_toward(v(0.0, 2.0), f(4.0), v(1.0, 1.0), f(10.0)), v(-1.0, 3.0));
}

#[test]
fn flock_force_of_weighs_the_three_parts() {
    let mut me = still(0.0, 0.0);
    me.sociability = f(0.5);
    let t = Tally { sep: v(-0.119994, -0.159992), ali: v(1.0, 0.0), coh: v(3.0, 4.0), sep_ct: 1, ali_ct: 1, coh_ct: 1 };
    let a = flock_force_of(&t, &me);
    assert_eq!(a.x.raw, 91_500);
    assert_eq!(a.y.raw, -78_000);
    assert_eq!(flock_force_of(&nothing(), &me), Vec2::zero());
}

#[test]
fn flock_force_of_takes_means() {
    let me = still(0.0, 0.0);
    let one = Tally { ali: v(1.0, 0.0), ali_ct: 1, ..nothing() };
    let three = Tally { ali: v(3.0, 0.0), ali_ct: 3, ..nothing() };
    assert_eq!(flock_force_of(&one, &me), flock_force_of(&three, &me));
}

#[test]
fn is_sheltered_means_strictly_inside_some_circle() {
    let shelters = [(f(0.0), f(0.0), f(5.0)), (f(100.0), f(0.0), f(10.0))];
    assert!(is_sheltered(v(3.0, 3.0), &shelters));
    assert!(is_sheltered(v(95.0, 5.0), &shelters));
    assert!(!is_sheltered(v(5.0, 0.0), &shelters));
    assert!(!is_sheltered(v(50.0, 0.0), &shelters));
    assert!(!is_sheltered(v(0.0, 0.0), &[]));
    assert!(!is_sheltered(v(0.0, 0.0), &[(f(0.0), f(0.0), f(0.0))]));
}

#[test]
fn threat_of_sums_the_flight_and_keeps_the_highest_fear() {
    let me = still(0.0, 0.0);
    let t = threat_of(&me, &[(f(50.0), f(0.0)), (f(-50.0), f(0.0)), (f(200.0), f(0.0))], &[]);
    assert_eq!(t.flee, Vec2::zero());
    assert_eq!(t.fear.raw, 600_000);
    let u = threat_of(&me, &[(f(50.0), f(0.0))], &[]);
    assert_eq!(u.flee.x.raw, -999_980);
    assert_eq!(u.flee.y.raw, 0);
    let sheltered = threat_of(&me, &[(f(50.0), f(0.0))], &[(f(1.0), f(1.0), f(2.0))]);
    assert_eq!(sheltered, Threat { flee: Vec2::zero(), fear: f(0.0) });
}

#[test]
fn add_flight_weighs_by_fear_and_bravery() {
    let me = still(0.0, 0.0);
    let afraid = Threat { flee: v(-0.99995, 0.0), fear: f(0.6) };
    assert_eq!(add_flight(v(1.0, 1.0), &afraid, &me), v(-5.3, 1.0));
    let uneasy = Threat { flee: v(-0.99995, 0.0), fear: f(0.3) };
    assert_eq!(add_flight(Vec2::zero(), &uneasy, &me), v(-1.575, 0.0));
    let calm = Threat { flee: Vec2::zero(), fear: f(0.9) };
    assert_eq!(add_flight(v(1.0, 1.0), &calm, &me), v(1.0, 1.0));
}

#[test]
fn repulsion_of_sums_over_the_obstacles_in_reach() {
    let sum = repulsion_of(v(0.0, 0.0), &[(f(0.0), f(30.0)), (f(0.0), f(-30.0)), (f(30.0), f(0.0)), (f(0.0), f(50.0))], f(2500.0));
    assert_eq!(sum.x.raw, -33_333);
    assert_eq!(sum.y.raw, 0);
    assert_eq!(repulsion_of(v(0.0, 0.0), &[], f(2500.0)), Vec2::zero());
    assert_eq!(repulsion_of(v(0.0, 0.0), &[(f(0.0), f(70.0))], f(2500.0)), Vec2::zero());
    assert_eq!(repulsion_of(v(0.0, 0.0), &[(f(0.0), f(70.0))], f(6400.0)).y.raw, -14_285);
}

#[test]
fn add_avoidance_is_sharper_when_fearful() {
    let me = still(0.0, 0.0);
    assert_eq!(add_avoidance(Vec2::zero(), v(0.0, -0.03333), &me, false), v(0.0, -0.3));
    assert_eq!(add_avoidance(Vec2::zero(), v(0.0, -0.03333), &me, true), v(0.0, -1.35));
    assert_eq!(add_avoidance(v(2.0, 2.0), Vec2::zero(), &me, true), v(2.0, 2.0));
}

#[test]
fn steering_of_puts_it_all_together() {
    let me = still(0.0, 0.0);
    let (a, fear) = steering_of(&me, &nothing(), &[(f(50.0), f(0.0))], &[(f(0.0), f(70.0))], &[]);
    assert_eq!(fear.raw, 600_000);
    assert_eq!(a.x.raw, -6_300_000);
    assert_eq!(a.y.raw, -1_350_000);
}

#[test]
fn flocking_forces_skip_the_boid_itself_and_unknown_indices() {
    let me = still(0.0, 0.0);
    let cache = [shown(0.0, 0.0, 0), shown(3.0, 4.0, 1), shown(1.0, 1.0, 1)];
    let (a, fear) = World::calculate_flocking_forces(&me, 0, &[0, 1, 7, 0], &cache, f(1.0), &[], &[], &[]);
    assert_eq!(fear, f(0.0));
    assert_eq!(a.x.raw, -162_000);
    assert_eq!(a.y.raw, -215_998);
    let (b, _) = World::calculate_flocking_forces(&me, 0, &[], &cache, f(1.0), &[], &[], &[]);
    assert_eq!(b, Vec2::zero());
}

#[test]
fn flocking_forces_count_a_candidate_as_often_as_it_is_listed() {
    let me = still(0.0, 0.0);
    let mut kin = shown(30.0, 0.0, 0);
    kin.vx = f(1.0);
    let cache = [shown(0.0, 0.0, 0), kin, shown(0.0, 40.0, 0)];
    let (once, _) = World::calculate_flocking_forces(&me, 0, &[1, 2], &cache, f(1.0), &[], &[], &[]);
    let (twice, _) = World::calculate_flocking_forces(&me, 0, &[1, 1, 2], &cache, f(1.0), &[], &[], &[]);
    assert_ne!(once, twice);
}

#[test]
fn flocking_forces_ignore_candidates_that_are_not_normal() {
    let me = still(0.0, 0.0);
    let mut perched = shown(3.0, 4.0, 1);
    perched.state = 1;
    let cache = [shown(0.0, 0.0, 0), perched];
    let (a, _) = World::calculate_flocking_forces(&me, 0, &[1], &cache, f(1.0), &[], &[], &[]);
    assert_eq!(a, Vec2::zero());
}

#[test]
fn flocking_forces_are_nothing_for_a_boid_that_is_not_normal() {
    let mut me = still(0.0, 0.0);
    me.state = BoidState::Perching;
    me.fear = f(0.7);
    let cache = [shown(0.0, 0.0, 0), shown(3.0, 4.0, 1)];
    let (a, fear) = World::calculate_flocking_forces(&me, 0, &[1], &cache, f(1.0), &[(f(10.0), f(0.0))], &[(f(0.0), f(10.0))], &[]);
    assert_eq!(a, Vec2::zero());
    assert_eq!(fear, f(0.7));
}

#[test]
fn collect_prey_copies_what_a_predator_sees() {
    let mut a = still(1.0, 2.0);
    a.velocity = v(3.0, 4.0);
    a.energy = f(55.0);
    let mut b = still(5.0, 6.0);
    b.state = BoidState::Collapsed;
    b.mutations.set(Mutations::TASTY);
    let prey = collect_prey(&vec![a, b]);
    assert_eq!(prey, vec![(f(1.0), f(2.0), f(3.0), f(4.0), f(55.0), false, false), (f(5.0), f(6.0), f(0.0), f(0.0), f(80.0), true, true)]);
    assert!(collect_prey(&Vec::new()).is_empty());
}

#[test]
fn feed_adds_45_up_to_150_and_counts_the_kill() {
    let mut rng = Rng::new(1);
    let mut p = Predator::new(f(0.0), f(0.0), 0, 0, &mut rng);
    feed(&mut p);
    assert_eq!(p.energy, f(145.0));
    assert_eq!(p.kills, 1);
    feed(&mut p);
    assert_eq!(p.energy, f(150.0));
    assert_eq!(p.kills, 2);
}

#[test]
fn run_hunts_claims_each_prey_once() {
    let mut rng = Rng::new(1);
    let mut predators = vec![
        Predator::new(f(0.0), f(0.0), 0, 0, &mut rng),
        Predator::new(f(3.0), f(0.0), 1, 0, &mut rng),
        Predator::new(f(100.0), f(0.0), 2, 0, &mut rng),
        Predator::new(f(300.0), f(300.0), 3, 0, &mut rng),
    ];
    let prey = [(f(1.0), f(0.0), f(0.0), f(0.0), f(100.0), false, false), (f(104.0), f(0.0), f(0.0), f(0.0), f(100.0), false, false), (f(50.0), f(50.0), f(0.0), f(0.0), f(100.0), false, false)];
    let caught = run_hunts(&mut predators, &prey, &[], f(1.0));
    assert_eq!(caught, vec![true, true, false]);
    let kills: Vec<u32> = predators.iter().map(|p| p.kills).collect();
    assert_eq!(kills, vec![1, 0, 1, 0]);
    let energy: Vec<Fixed> = predators.iter().map(|p| p.energy).collect();
    assert_eq!(energy, vec![f(145.0), f(100.0), f(145.0), f(100.0)]);
    let targets: Vec<Option<usize>> = predators.iter().map(|p| p.target_index).collect();
    assert_eq!(targets, vec![Some(0), Some(0), Some(1), None]);
}

#[test]
fn run_hunts_without_predators_or_prey() {
    let mut none: Vec<Predator> = Vec::new();
    let prey = [(f(1.0), f(0.0), f(0.0), f(0.0), f(100.0), false, false)];
    assert_eq!(run_hunts(&mut none, &prey, &[], f(1.0)), vec![false]);
    let mut rng = Rng::new(1);
    let mut one = vec![Predator::new(f(0.0), f(0.0), 0, 0, &mut rng)];
    assert_eq!(run_hunts(&mut one, &[], &[], f(1.0)), Vec::<bool>::new());
    assert_eq!(one[0].max_speed, f(3.5));
}

#[test]
fn remove_caught_swaps_from_the_highest_index_down() {
    let mut items = vec!['a', 'b', 'c', 'd', 'e', 'f'];
    remove_caught(&mut items, &vec![false, true, false, false, true, false]);
    assert_eq!(items, vec!['a', 'f', 'c', 'd']);
    let mut all = vec![1, 2, 3];
    remove_caught(&mut all, &vec![true, true, true]);
    assert!(all.is_empty());
    let mut none = vec![1, 2, 3];
    remove_caught(&mut none, &vec![false, false, false]);
    assert_eq!(none, vec![1, 2, 3]);
    let mut last = vec![1, 2, 3];
    remove_caught(&mut last, &vec![false, false, true]);
    assert_eq!(last, vec![1, 2]);
    let mut last_two = vec![1, 2, 3, 4];
    remove_caught(&mut last_two, &vec![false, false, true, true]);
    assert_eq!(last_two, vec![1, 2]);
    let mut first = vec![1, 2, 3];
    remove_caught(&mut first, &vec![true, false, false]);
    assert_eq!(first, vec![3, 2]);
    let mut empty: Vec<u8> = Vec::new();
    remove_caught(&mut empty, &Vec::new());
    assert!(empty.is_empty());
}

#[test]
fn remove_caught_agrees_with_sorted_swap_removes() {
    let mut s: u64 = 5;
    for round in 0..200 {
        let n = round % 17;
        let mut mask = Vec::new();
        for _ in 0..n {
            s = s.wrapping_mul(6364136223846793005).wrapping_add(1442695040888963407);
            mask.push((s >> 40) % 3 == 0);
        }
        let mut items: Vec<usize> = (0..n).collect();
        let mut expected = items.clone();
        let mut indices: Vec<usize> = (0..n).filter(|i| mask[*i]).collect();
        indices.sort_unstable();
        for idx in indices.into_iter().rev() {
            expected.swap_remove(idx);
        }
        remove_caught(&mut items, &mask);
        assert_eq!(items, expected);
    }
}

#[test]
fn update_predators_drops_the_dead() {
    let mut rng = Rng::new(1);
    let mut predators = vec![
        Predator::new(f(10.0), f(10.0), 0, 0, &mut rng),
        Predator::new(f(20.0), f(10.0), 1, 0, &mut rng),
        Predator::new(f(30.0), f(10.0), 2, 0, &mut rng),
    ];
    predators[0].energy = f(0.04);
    predators[2].energy = f(0.01);
    update_predators(&mut predators, f(400.0), f(300.0), &[]);
    assert_eq!(predators.len(), 1);
    assert_eq!(predators[0].pack_id, 1);
    assert_eq!(predators[0].energy, f(99.96));
}

#[test]
fn seasons_are_the_quarters_of_a_unit_of_season_time() {
    assert_eq!(season_of(f(0.0)), 0);
    assert_eq!(season_of(f(0.249999)), 0);
    assert_eq!(season_of(f(0.25)), 1);
    assert_eq!(season_of(f(0.5)), 2);
    assert_eq!(season_of(f(0.75)), 3);
    assert_eq!(season_of(f(0.999999)), 3);
    assert_eq!(season_of(f(1.0)), 0);
    assert_eq!(season_of(f(7.3)), 1);
}

#[test]
fn rates_by_season() {
    assert_eq!((bug_rate_in(0), bug_rate_in(1), bug_rate_in(2), bug_rate_in(3)), (f(0.08), f(0.15), f(0.08), f(0.03)));
    assert_eq!((max_bugs_in(0), max_bugs_in(1), max_bugs_in(2), max_bugs_in(3)), (40, 60, 40, 20));
    assert_eq!((food_chance_in(0), food_chance_in(1), food_chance_in(2), food_chance_in(3)), (f(0.0015), f(0.003), f(0.0015), f(0.0003)));
    assert_eq!(bug_rate_in(9), f(0.08));
    assert_eq!(max_bugs_in(9), 40);
    assert_eq!(food_chance_in(9), f(0.0015));
}

/// A generator whose next draw is below `limit`, found by trying seeds.
fn seed_drawing_below(limit: i64) -> u32 {
    let mut seed = 1;
    loop {
        let mut rng = Rng::new(seed);
        if rng.next_unit().raw < limit {
            return seed;
        }
        seed += 1;
    }
}

/// A generator whose next draw is not below `limit`.
fn seed_drawing_at_least(limit: i64) -> u32 {
    let mut seed = 1;
    loop {
        let mut rng = Rng::new(seed);
        if rng.next_unit().raw >= limit {
            return seed;
        }
        seed += 1;
    }
}

#[test]
fn spawn_bug_by_the_draw() {
    let lucky = seed_drawing_below(80_000);
    let mut rng = Rng::new(lucky);
    let mut bugs = Vec::new();
    spawn_bug(&mut bugs, f(400.0), f(300.0), 0, &mut rng);
    assert_eq!(bugs.len(), 1);
    let mut again = Rng::new(lucky);
    again.next_unit();
    let x = again.next_unit().mul(f(400.0));
    let y = again.next_unit().mul(f(200.0));
    assert_eq!(bugs[0].position, Vec2::new(x, y));
    let expected = Bug::new(x, y, &mut again);
    assert_eq!(bugs[0].size, expected.size);
    assert_eq!(bugs[0].lifetime, expected.lifetime);
    assert_eq!(rng, again);

    let unlucky = seed_drawing_at_least(150_000);
    let mut rng = Rng::new(unlucky);
    let mut bugs = Vec::new();
    spawn_bug(&mut bugs, f(400.0), f(300.0), 1, &mut rng);
    assert!(bugs.is_empty());
    let mut once = Rng::new(unlucky);
    once.next_unit();
    assert_eq!(rng, once);
}

#[test]
fn spawn_bug_respects_the_cap() {
    let lucky = seed_drawing_below(30_000);
    let mut bugs: Vec<Bug> = (0..20).map(|i| lazy_bug(i as f64, 0.0)).collect();
    let mut rng = Rng::new(lucky);
    spawn_bug(&mut bugs, f(400.0), f(300.0), 3, &mut rng);
    assert_eq!(bugs.len(), 20);
    let mut once = Rng::new(lucky);
    once.next_unit();
    assert_eq!(rng, once);
    let mut rng = Rng::new(lucky);
    spawn_bug(&mut bugs, f(400.0), f(300.0), 0, &mut rng);
    assert_eq!(bugs.len(), 21);
}

#[test]
fn update_bugs_drops_the_dead_and_keeps_the_order() {
    let mut bugs = vec![lazy_bug(10.0, 10.0), lazy_bug(20.0, 10.0), lazy_bug(30.0, 10.0), lazy_bug(40.0, 10.0)];
    bugs[0].lifetime = 1;
    bugs[2].energy = f(0.0);
    let mut rng = Rng::new(3);
    update_bugs(&mut bugs, f(400.0), f(300.0), &[], &mut rng);
    assert_eq!(bugs.len(), 2);
    assert!((bugs[0].position.x.raw - f(20.0).raw).abs() < f(1.0).raw);
    assert!((bugs[1].position.x.raw - f(40.0).raw).abs() < f(1.0).raw);
    let mut twice = Rng::new(3);
    twice.next_unit();
    twice.next_unit();
    assert_eq!(rng, twice);
}

#[test]
fn spawn_food_by_day_and_by_the_draw() {
    let lucky = seed_drawing_below(300);
    let mut food = Vec::new();
    let mut rng = Rng::new(lucky);
    spawn_food(&mut food, f(400.0), f(300.0), 3, f(0.45), &mut rng);
    assert!(food.is_empty());
    assert_eq!(rng.seed, lucky);
    spawn_food(&mut food, f(400.0), f(300.0), 3, f(0.450001), &mut rng);
    assert_eq!(food.len(), 1);
    let mut again = Rng::new(lucky);
    again.next_unit();
    let x = f(50.0).add(again.next_unit().mul(f(300.0)));
    let y = f(50.0).add(again.next_unit().mul(f(120.0)));
    assert_eq!(food[0], (x, y, f(100.0)));
    assert_eq!(rng, again);
}

#[test]
fn spawn_food_respects_the_cap_of_five() {
    let lucky = seed_drawing_below(300);
    let mut food: Vec<_> = (0..5).map(|i| (f(i as f64), f(0.0), f(1.0))).collect();
    let mut rng = Rng::new(lucky);
    spawn_food(&mut food, f(400.0), f(300.0), 1, f(1.0), &mut rng);
    assert_eq!(food.len(), 5);
    let mut once = Rng::new(lucky);
    once.next_unit();
    assert_eq!(rng, once);
    food.pop();
    let mut rng = Rng::new(lucky);
    spawn_food(&mut food, f(400.0), f(300.0), 1, f(1.0), &mut rng);
    assert_eq!(food.len(), 5);
}

#[test]
fn cull_food_keeps_what_has_something_left() {
    let mut food = vec![(f(1.0), f(1.0), f(0.0)), (f(2.0), f(2.0), f(0.000001)), (f(3.0), f(3.0), f(-0.2)), (f(4.0), f(4.0), f(100.0))];
    cull_food(&mut food);
    assert_eq!(food, vec![(f(2.0), f(2.0), f(0.000001)), (f(4.0), f(4.0), f(100.0))]);
}

#[test]
fn cull_bugs_keeps_what_has_energy_left() {
    let mut bugs = vec![lazy_bug(1.0, 1.0), lazy_bug(2.0, 2.0), lazy_bug(3.0, 3.0)];
    bugs[0].energy = f(0.0);
    bugs[2].energy = f(-1.0);
    cull_bugs(&mut bugs);
    assert_eq!(bugs.len(), 1);
    assert_eq!(bugs[0].position, v(2.0, 2.0));
}

#[test]
fn nourish_fills_up_to_the_capacity_and_rests_down_to_zero() {
    let mut b = still(0.0, 0.0);
    b.energy = f(95.0);
    b.fatigue = f(1.5);
    nourish(&mut b, f(8.0), f(2.0));
    assert_eq!(b.energy, f(100.0));
    assert_eq!(b.fatigue, f(0.0));
    b.energy = f(10.0);
    b.fatigue = f(10.0);
    nourish(&mut b, f(8.0), f(2.0));
    assert_eq!(b.energy, f(18.0));
    assert_eq!(b.fatigue, f(8.0));
}

#[test]
fn eat_bugs_lets_every_boid_in_reach_eat() {
    let mut boids = vec![still(0.0, 0.0), still(10.0, 0.0), still(100.0, 0.0)];
    for b in boids.iter_mut() {
        b.energy = f(50.0);
        b.fatigue = f(5.0);
    }
    let mut bugs = vec![lazy_bug(5.0, 0.0), lazy_bug(0.0, 11.9), lazy_bug(0.0, 12.0), lazy_bug(200.0, 0.0)];
    eat_bugs(&mut boids, &mut bugs);
    let energy: Vec<Fixed> = boids.iter().map(|b| b.energy).collect();
    assert_eq!(energy, vec![f(66.0), f(58.0), f(50.0)]);
    let fatigue: Vec<Fixed> = boids.iter().map(|b| b.fatigue).collect();
    assert_eq!(fatigue, vec![f(1.0), f(3.0), f(5.0)]);
    let left: Vec<Fixed> = bugs.iter().map(|g| g.energy).collect();
    assert_eq!(left, vec![f(0.0), f(0.0), f(20.0), f(20.0)]);
    assert_eq!(bugs.len(), 4);
}

#[test]
fn forage_once_eats_or_is_drawn() {
    let mut b = still(106.0, 100.0);
    b.energy = f(60.0);
    b.fatigue = f(1.0);
    let mut food = (f(100.0), f(100.0), f(100.0));
    forage_once(&mut b, &mut food);
    assert_eq!(food.2, f(99.6));
    assert_eq!(b.energy, f(61.0));
    assert_eq!(b.fatigue, f(0.7));
    assert_eq!(b.acceleration, Vec2::zero());

    let mut c = still(100.0, 130.0);
    let mut food = (f(100.0), f(100.0), f(100.0));
    forage_once(&mut c, &mut food);
    assert_eq!(food.2, f(100.0));
    // Appetite 0.9: force 0.054 toward the food.
    assert_eq!(c.acceleration, v(0.0, -0.054));
    assert_eq!(c.energy, f(80.0));

    // Appetite 0.9: senses food within 63 units.
    let mut d = still(100.0, 163.0);
    forage_once(&mut d, &mut food);
    assert_eq!(d.acceleration, Vec2::zero());
    let mut e = still(100.0, 162.9);
    forage_once(&mut e, &mut food);
    assert!(e.acceleration.y.raw < 0);

    let mut g = still(106.0, 100.0);
    let mut spent = (f(100.0), f(100.0), f(0.0));
    forage_once(&mut g, &mut spent);
    assert_eq!(spent.2, f(0.0));
    assert_eq!(g.energy, f(80.0));
}

#[test]
fn forage_once_at_exactly_12_units_draws_instead_of_feeding() {
    let mut b = still(112.0, 100.0);
    let mut food = (f(100.0), f(100.0), f(100.0));
    forage_once(&mut b, &mut food);
    assert_eq!(food.2, f(100.0));
    assert_eq!(b.acceleration, v(-0.054, 0.0));
}

#[test]
fn the_last_bite_takes_food_below_zero() {
    let mut b = still(106.0, 100.0);
    let mut food = (f(100.0), f(100.0), f(0.1));
    forage_once(&mut b, &mut food);
    assert_eq!(food.2, f(-0.3));
}

#[test]
fn seek_food_passes_over_boids_that_do_not_forage() {
    let mut boids = vec![still(106.0, 100.0), still(106.0, 100.0), still(106.0, 100.0), still(94.0, 100.0)];
    boids[0].state = BoidState::Collapsed;
    boids[1].fear = f(0.300001);
    boids[2].fear = f(0.3);
    let mut food = vec![(f(100.0), f(100.0), f(0.4)), (f(100.0), f(105.0), f(100.0))];
    seek_food(&mut boids, &mut food);
    let energy: Vec<Fixed> = boids.iter().map(|b| b.energy).collect();
    // The third boid eats from both sources; the first source is spent after
    // it, so the fourth eats only from the second.
    assert_eq!(energy, vec![f(80.0), f(80.0), f(82.0), f(81.0)]);
    assert_eq!(food, vec![(f(100.0), f(100.0), f(0.0)), (f(100.0), f(105.0), f(99.2))]);
}

#[test]
fn both_ways_to_the_forces_agree() {
    let mut rng = Rng::new(808);
    let mut boids: Vec<Boid> = Vec::new();
    for i in 0..12 {
        let mut b = Boid::new(f(100.0 + 7.0 * i as f64), f(100.0 + (i * i % 11) as f64), (i % 2) as u8, i % 5 == 0, &mut rng);
        if i == 3 {
            b.state = BoidState::Perching;
        }
        if i == 4 {
            b.mutations.set(Mutations::BULLIED);
        }
        boids.push(b);
    }
    let predators = [(f(120.0), f(130.0)), (f(400.0), f(400.0))];
    let obstacles = [(f(110.0), f(90.0)), (f(160.0), f(105.0))];
    let shelters = [(f(150.0), f(100.0), f(8.0))];
    let cache: Vec<BoidCache> = boids.iter().map(|b| b.snapshot()).collect();
    for i in 0..boids.len() {
        let others: Vec<usize> = (0..boids.len()).filter(|j| *j != i).collect();
        let nearby: Vec<&Boid> = others.iter().map(|j| &boids[*j]).collect();
        let mut direct = boids[i];
        direct.flock(&nearby, &predators, &obstacles, &shelters, f(0.3));
        let mut through_world = boids[i];
        let result = World::calculate_flocking_forces(&boids[i], i, &others, &cache, f(0.3), &predators, &obstacles, &shelters);
        if through_world.state == BoidState::Normal {
            through_world.apply_steering(result);
        }
        assert_eq!(direct.acceleration, through_world.acceleration, "boid {}", i);
        assert_eq!(direct.fear, through_world.fear, "boid {}", i);
        assert_eq!(direct.state, through_world.state);
    }
}
