use boids::rng::{set_seed, Rng};

#[test]
fn first_draws_from_the_default_seed() {
    let mut rng = Rng::new(12345);
    assert_eq!(rng.next_unit().raw, 776_938);
    assert_eq!(rng.seed, 3_336_926_330);
    assert_eq!(rng.next_unit().raw, 395_172);
    assert_eq!(rng.next_unit().raw, 655_770);
    assert_eq!(rng.next_unit().raw, 455_295);
    assert_eq!(rng.next_unit().raw, 167_368);
}

#[test]
fn draws_stay_between_zero_and_one() {
    let mut rng = Rng::new(99_999);
    for _ in 0..10_000 {
        let r = rng.next_unit().raw;
        assert!(0 <= r && r <= 1_000_000);
    }
}

#[test]
fn same_seed_same_sequence() {
    let mut a = Rng::new(777);
    let mut b = Rng::new(777);
    for _ in 0..100 {
        assert_eq!(a.next_unit(), b.next_unit());
    }
}

#[test]
fn seed_zero_yields_zero_forever() {
    let mut rng = Rng::new(0);
    for _ in 0..10 {
        assert_eq!(rng.next_unit().raw, 0);
    }
}

#[test]
fn a_draw_is_the_new_state_as_a_fraction_of_the_largest() {
    let mut rng = Rng::new(2718);
    for _ in 0..1000 {
        let mut state = rng.seed;
        state ^= state << 13;
        state ^= state >> 17;
        state ^= state << 5;
        let r = rng.next_unit();
        assert_eq!(rng.seed, state);
        assert_eq!(r.raw as u64, state as u64 * 1_000_000 / 4_294_967_295);
    }
}

#[test]
fn set_seed_restarts_the_sequence() {
    let mut rng = Rng::new(1);
    rng.next_unit();
    set_seed(&mut rng, 12345);
    assert_eq!(rng.seed, 12345);
    assert_eq!(rng.next_unit().raw, 776_938);
}
