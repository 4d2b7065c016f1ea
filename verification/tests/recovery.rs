use ench_cracker::catalog::{Enchantment, Item, Version};
use ench_cracker::enchant::EnchantmentInstance;
use ench_cracker::manipulator::Manipulator;

#[test]
fn recover_hidden_state_from_two_observations() {
    let m = Manipulator::new(2893231007, 2635886329).expect("a state must be recovered");
    let state = m.player_seed();
    let bytes = state.to_le_bytes();
    assert_eq!(&bytes[0..6], &[0x2e, 0x3d, 0xf9, 0x6e, 0x1c, 0x9d]);
    assert_eq!(bytes[6], 0);
    assert_eq!(bytes[7], 0);
}

#[test]
fn recover_reports_no_state_for_unrelated_observations() {
    assert!(Manipulator::new(1, 1).is_none());
    assert!(Manipulator::new(3596902313, 1006443827).is_none());
}

#[test]
fn change_seed_replaces_or_keeps_the_state() {
    let mut m = Manipulator::new(2893231007, 2635886329).unwrap();
    let original = m.player_seed();
    assert!(!m.change_seed(1, 1));
    assert_eq!(m.player_seed(), original);
    assert!(m.change_seed(0, 0));
    assert_eq!(m.player_seed(), 11);
    assert!(m.change_seed(2893231007, 2635886329));
    assert_eq!(m.player_seed(), original);
}

#[test]
fn simulate_without_wishes_yields_nothing() {
    let mut m = Manipulator::new(2893231007, 2635886329).unwrap();
    assert!(m.simulate(Item::IronSword, 15, 999, Version::V1_16).is_none());
}

#[test]
fn simulate_bane_fire_aspect_scenario() {
    let mut m = Manipulator::new(2893231007, 2635886329).unwrap();
    m.update_item(
        Item::IronSword,
        &EnchantmentInstance::new(Enchantment::BaneOfArthropods, 5),
    );
    m.update_item(
        Item::IronSword,
        &EnchantmentInstance::new(Enchantment::FireAspect, 2),
    );
    m.update_item(
        Item::IronSword,
        &EnchantmentInstance::new(Enchantment::Knockback, -1),
    );
    let res = m
        .simulate(Item::IronSword, 15, 999, Version::V1_16)
        .expect("wishes were recorded");
    assert_eq!(res.times_needed, 57);
    assert_eq!(res.shelves_needed, 15);
    assert_eq!(res.slot, 3);
}

#[test]
fn simulate_is_unaffected_by_duplicate_wish_entries() {
    let mut m = Manipulator::new(2893231007, 2635886329).unwrap();
    for _ in 0..3 {
        m.update_item(
            Item::IronSword,
            &EnchantmentInstance::new(Enchantment::BaneOfArthropods, 5),
        );
        m.update_item(
            Item::IronSword,
            &EnchantmentInstance::new(Enchantment::FireAspect, 2),
        );
        m.update_item(
            Item::IronSword,
            &EnchantmentInstance::new(Enchantment::Knockback, -1),
        );
    }
    let res = m.simulate(Item::IronSword, 15, 999, Version::V1_16).unwrap();
    assert_eq!(res.times_needed, 57);
    assert_eq!(res.shelves_needed, 15);
    assert_eq!(res.slot, 3);
}

#[test]
fn wishes_are_kept_per_item() {
    let mut m = Manipulator::new(2893231007, 2635886329).unwrap();
    m.update_item(
        Item::IronSword,
        &EnchantmentInstance::new(Enchantment::BaneOfArthropods, 5),
    );
    // no wishes were recorded for the other item
    assert!(m.simulate(Item::GoldenSword, 15, 999, Version::V1_16).is_none());
    assert!(m.simulate(Item::IronSword, 15, 999, Version::V1_16).is_some());
}

#[test]
fn simulate_unsatisfiable_wish_reports_not_found() {
    let mut m = Manipulator::new(2893231007, 2635886329).unwrap();
    // wanting and excluding the same enchantment cannot be satisfied
    m.update_item(
        Item::IronSword,
        &EnchantmentInstance::new(Enchantment::FireAspect, 2),
    );
    m.update_item(
        Item::IronSword,
        &EnchantmentInstance::new(Enchantment::FireAspect, -1),
    );
    let res = m.simulate(Item::IronSword, 3, 999, Version::V1_16).unwrap();
    assert_eq!(res.times_needed, -2);
    assert_eq!(res.shelves_needed, 3);
    assert_eq!(res.slot, 3);
}

#[test]
fn simulate_with_negative_resource_bound_searches_nothing() {
    let mut m = Manipulator::new(2893231007, 2635886329).unwrap();
    m.update_item(
        Item::IronSword,
        &EnchantmentInstance::new(Enchantment::FireAspect, 2),
    );
    let res = m.simulate(Item::IronSword, -1, 999, Version::V1_16).unwrap();
    assert_eq!(res.times_needed, -2);
    assert_eq!(res.shelves_needed, 0);
    assert_eq!(res.slot, 1);
}

#[test]
fn first_attempt_affordability_threshold_is_the_slot_level() {
    // at the recovered state the first attempt's zero-shelf first slot
    // shows level 2; a player at exactly level 2 can take it without any
    // preparatory action, where later attempts would need level 3
    let mut m = Manipulator::new(2893231007, 2635886329).unwrap();
    m.update_item(
        Item::IronSword,
        &EnchantmentInstance::new(Enchantment::BaneOfArthropods, 1),
    );
    let res = m.simulate(Item::IronSword, 15, 2, Version::V1_16).unwrap();
    assert_eq!(res.times_needed, -1);
    assert_eq!(res.shelves_needed, 0);
    assert_eq!(res.slot, 1);
}

#[test]
fn update_seed_commits_the_transition() {
    let mut m = Manipulator::new(2893231007, 2635886329).unwrap();
    assert_eq!(m.update_seed(57, 2, 999), 995);
    assert_eq!(m.player_seed(), 206641559831804);
}

#[test]
fn update_seed_without_preparatory_actions() {
    let mut m = Manipulator::new(2893231007, 2635886329).unwrap();
    assert_eq!(m.update_seed(-1, 1, 50), 48);
    assert_eq!(m.player_seed(), 21472546283681);
}

#[test]
fn update_seed_not_found_is_a_no_op() {
    let mut m = Manipulator::new(2893231007, 2635886329).unwrap();
    let before = m.player_seed();
    assert_eq!(m.update_seed(-2, 1, 50), 50);
    assert_eq!(m.player_seed(), before);
    assert_eq!(m.update_seed(5, -1, 50), 50);
    assert_eq!(m.player_seed(), before);
}

#[test]
fn update_seed_zero_actions_still_pays_the_speculative_step() {
    let mut m = Manipulator::new(2893231007, 2635886329).unwrap();
    assert_eq!(m.update_seed(0, 0, 10), 8);
    assert_eq!(m.player_seed(), 186346250160792);
}

#[test]
fn end_to_end_simulate_then_commit() {
    let mut m = Manipulator::new(2893231007, 2635886329).unwrap();
    m.update_item(
        Item::IronSword,
        &EnchantmentInstance::new(Enchantment::BaneOfArthropods, 5),
    );
    m.update_item(
        Item::IronSword,
        &EnchantmentInstance::new(Enchantment::FireAspect, 2),
    );
    m.update_item(
        Item::IronSword,
        &EnchantmentInstance::new(Enchantment::Knockback, -1),
    );
    let res = m.simulate(Item::IronSword, 15, 999, Version::V1_16).unwrap();
    let remaining = m.update_seed(res.times_needed, res.slot - 1, 999);
    assert_eq!(remaining, 999 - 1 - res.slot);
    assert_eq!(m.player_seed(), 206641559831804);
}
