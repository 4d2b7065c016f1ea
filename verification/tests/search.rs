use ench_cracker::cracker::{Cracker, EnchantmentTableInfo};

const WORKERS: usize = 1 << 20;

#[test]
fn bootstrap_and_refine_converge_to_known_seed() {
    // The worker whose partition holds seed -329083225 of a 2^20-way
    // split: partition size is 4096 seeds, so the full scenario's scan
    // is affordable here.
    let tid = 443945usize;
    let mut c = Cracker::new(tid, WORKERS);
    assert_eq!(c.possible_seeds(), 0);
    c.first_input(
        EnchantmentTableInfo::new(15, 5, 20, 30),
        EnchantmentTableInfo::new(12, 5, 10, 24),
    );
    assert!(c.contains(-329083225));
    let mut count = c.possible_seeds();
    assert!(count >= 1);
    for t in [
        (8, 2, 10, 16),
        (6, 3, 9, 12),
        (4, 1, 9, 8),
        (3, 1, 9, 6),
        (7, 2, 13, 14),
        (14, 6, 12, 28),
    ] {
        c.add_input(EnchantmentTableInfo::new(t.0, t.1, t.2, t.3));
        let now = c.possible_seeds();
        assert!(now <= count);
        count = now;
    }
    assert_eq!(c.possible_seeds(), 1);
    assert!(c.contains(-329083225));
    assert_eq!(c.seed(), -329083225);
}

#[test]
fn neighbouring_partitions_do_not_hold_the_seed() {
    for tid in [443944usize, 443946] {
        let mut c = Cracker::new(tid, WORKERS);
        c.first_input(
            EnchantmentTableInfo::new(15, 5, 20, 30),
            EnchantmentTableInfo::new(12, 5, 10, 24),
        );
        assert!(!c.contains(-329083225));
    }
}

#[test]
fn refinement_is_idempotent_and_monotonic() {
    let mut c = Cracker::new(0, WORKERS);
    let weak = EnchantmentTableInfo::new(0, 1, 3, 4);
    c.first_input(weak, weak);
    assert_eq!(c.possible_seeds(), 125);
    let first = c.seed();
    assert_eq!(first, -2147483609);

    let t2 = EnchantmentTableInfo::new(2, 2, 5, 6);
    c.add_input(t2);
    assert_eq!(c.possible_seeds(), 15);
    let after_once: Vec<i32> = collect_seeds(&c);
    c.add_input(t2);
    assert_eq!(c.possible_seeds(), 15);
    assert_eq!(collect_seeds(&c), after_once);

    c.add_input(EnchantmentTableInfo::new(7, 4, 6, 14));
    assert_eq!(c.possible_seeds(), 1);
    assert_eq!(c.seed(), -2147483609);
}

fn collect_seeds(c: &Cracker) -> Vec<i32> {
    // The candidate set is insertion-ordered and ascending after a
    // bootstrap, so membership plus count pins it down over a small
    // window of seeds.
    let mut out = Vec::new();
    let mut s = -2147483700i64;
    while s < -2147479000i64 {
        if c.contains(s as i32) {
            out.push(s as i32);
        }
        s += 1;
    }
    out
}

#[test]
fn last_worker_scans_its_extension_and_the_boundary_seed() {
    let mut c = Cracker::new(WORKERS - 1, WORKERS);
    c.first_input(
        EnchantmentTableInfo::new(8, 5, 9, 16),
        EnchantmentTableInfo::new(15, 8, 19, 30),
    );
    assert_eq!(c.possible_seeds(), 5);
    assert_eq!(c.seed(), 2147479989);
    assert!(c.contains(i32::MAX));
}

#[test]
fn reset_clears_candidates_only() {
    let mut c = Cracker::new(443945, WORKERS);
    c.first_input(
        EnchantmentTableInfo::new(15, 5, 20, 30),
        EnchantmentTableInfo::new(12, 5, 10, 24),
    );
    assert!(c.possible_seeds() >= 1);
    c.reset();
    assert_eq!(c.possible_seeds(), 0);
    assert!(!c.contains(-329083225));
    // the partition is unchanged: the same bootstrap finds the seed again
    c.first_input(
        EnchantmentTableInfo::new(15, 5, 20, 30),
        EnchantmentTableInfo::new(12, 5, 10, 24),
    );
    assert!(c.contains(-329083225));
}

#[test]
fn single_worker_engine_owns_the_whole_domain() {
    // With one worker the partition spans the full signed 32-bit domain;
    // constructing it must place the nominal range at the extremes.
    let c = Cracker::new(0, 1);
    assert_eq!(c.possible_seeds(), 0);
    assert!(!c.contains(0));
}

#[test]
fn empty_candidate_set_after_contradictory_refinement() {
    let mut c = Cracker::new(0, WORKERS);
    let weak = EnchantmentTableInfo::new(0, 1, 3, 4);
    c.first_input(weak, weak);
    assert!(c.possible_seeds() > 0);
    // a triple satisfied by no seed of the partition empties the set,
    // which is a valid terminal outcome rather than an error
    c.add_input(EnchantmentTableInfo::new(2, 1, 3, 4));
    assert_eq!(c.possible_seeds(), 0);
}
