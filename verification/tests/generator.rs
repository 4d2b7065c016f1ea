use ench_cracker::rng::SimpleRandom;

fn fresh() -> SimpleRandom {
    SimpleRandom { seed: 0 }
}

#[test]
fn raw_output_after_set_state_zero() {
    let mut r = fresh();
    r.set_seed(0);
    assert_eq!(r.next_int(), 1569741360);
}

#[test]
fn raw_output_after_set_state_positive() {
    let mut r = fresh();
    r.set_seed(150123);
    assert_eq!(r.next_int(), 286134746);
}

#[test]
fn raw_output_after_set_state_negative() {
    let mut r = fresh();
    r.set_seed(-500);
    assert_eq!(r.next_int(), 518875706);
}

#[test]
fn raw_output_longer_sequence() {
    let mut r = fresh();
    r.set_seed(987654321);
    assert_eq!(r.next_int(), 657000536);
    assert_eq!(r.next_int(), 1983820927);
    assert_eq!(r.next_int(), 1758310658);
    assert_eq!(r.next_int(), 422320121);
}

#[test]
fn bounded_draws_from_zero_state() {
    let mut r = fresh();
    r.set_seed(0);
    assert_eq!(r.next_int_bound(8), 5);
    assert_eq!(r.next_int_bound(8), 6);
}

#[test]
fn bounded_draws_power_of_two_and_rejection_paths() {
    let mut r = fresh();
    r.set_seed(1949457528);
    assert_eq!(r.next_int_bound(8), 3);
    assert_eq!(r.next_int_bound(5), 0);
}

#[test]
fn bounded_draws_mixed_bounds() {
    let mut r = fresh();
    r.set_seed(42);
    assert_eq!(r.next_int_bound(8), 5);
    assert_eq!(r.next_int_bound(16), 0);
    assert_eq!(r.next_int_bound(3), 0);
    assert_eq!(r.next_int_bound(100), 84);
    assert_eq!(r.next_int_bound(7), 5);
    assert_eq!(r.next_int_bound(50), 25);
}

#[test]
fn level_derivation_resource_count_four() {
    let mut r = fresh();
    r.set_seed(1949457528);
    assert_eq!(r.levels_slot1(4), 2);
    assert_eq!(r.levels_slot2(4), 7);
    assert_eq!(r.levels_slot3(4), 8);
}

#[test]
fn level_derivation_resource_count_fifteen() {
    let mut r = fresh();
    r.set_seed(1949457528);
    assert_eq!(r.levels_slot1(15), 6);
    assert_eq!(r.levels_slot2(15), 9);
    assert_eq!(r.levels_slot3(15), 30);
}

#[test]
fn level_derivation_boundary_seed() {
    let mut r = fresh();
    r.set_seed(i32::MAX as i64);
    assert_eq!(r.levels_slot1(8), 5);
    assert_eq!(r.levels_slot2(8), 9);
    assert_eq!(r.levels_slot3(8), 16);
    r.set_seed(i32::MAX as i64);
    assert_eq!(r.levels_slot1(15), 8);
    assert_eq!(r.levels_slot2(15), 19);
    assert_eq!(r.levels_slot3(15), 30);
}

#[test]
fn verify_seed_accepts_matching_triples() {
    let mut r = fresh();
    assert!(r.verify_seed(-329083225, (15, 5, 20, 30)));
    assert!(r.verify_seed(-329083225, (12, 5, 10, 24)));
    assert!(r.verify_seed(-329083225, (8, 2, 10, 16)));
    assert!(r.verify_seed(-329083225, (14, 6, 12, 28)));
}

#[test]
fn verify_seed_rejects_mismatched_triples() {
    let mut r = fresh();
    assert!(!r.verify_seed(-329083225, (15, 5, 20, 29)));
    assert!(!r.verify_seed(-329083225, (15, 4, 20, 30)));
    assert!(!r.verify_seed(-329083224, (15, 5, 20, 30)));
    assert!(!r.verify_seed(0, (15, 5, 20, 30)));
}

#[test]
fn generic_enchantibility_matches_slot_formulas() {
    let mut a = fresh();
    let mut b = fresh();
    a.set_seed(77);
    b.set_seed(77);
    let g = a.generic_enchantibility(10);
    let slot2 = b.levels_slot2(10);
    assert_eq!(g * 2 / 3 + 1, slot2);
}
