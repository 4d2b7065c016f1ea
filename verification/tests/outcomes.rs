use ench_cracker::catalog::{Enchantment, Item, Version};
use ench_cracker::enchant::EnchantmentInstance;
use ench_cracker::rng::SimpleRandom;

fn fresh() -> SimpleRandom {
    SimpleRandom { seed: 0 }
}

#[test]
fn table_levels_match_the_verifier_derivation() {
    let mut r = fresh();
    r.set_seed(1949457528);
    assert_eq!(
        Enchantment::calc_enchantment_table_level(&mut r, 0, 4, Item::IronSword),
        2
    );
    assert_eq!(
        Enchantment::calc_enchantment_table_level(&mut r, 1, 4, Item::IronSword),
        7
    );
    assert_eq!(
        Enchantment::calc_enchantment_table_level(&mut r, 2, 4, Item::IronSword),
        8
    );
}

#[test]
fn table_level_zero_for_unenchantable_item() {
    let mut r = fresh();
    r.set_seed(1949457528);
    // an unenchantable item consumes no draws
    assert_eq!(
        Enchantment::calc_enchantment_table_level(&mut r, 0, 4, Item::Pumpkin),
        0
    );
    assert_eq!(
        Enchantment::calc_enchantment_table_level(&mut r, 0, 4, Item::IronSword),
        2
    );
}

#[test]
fn enchantments_in_table_iron_sword() {
    let mut r = fresh();
    let out = Enchantment::get_enchantments_in_table(
        &mut r,
        123456789,
        Item::IronSword,
        1,
        20,
        Version::V1_16,
    );
    assert_eq!(out.len(), 2);
    assert!(out[0] == EnchantmentInstance::new(Enchantment::Smite, 4));
    assert!(out[1] == EnchantmentInstance::new(Enchantment::Looting, 2));
}

#[test]
fn enchantments_in_table_book_loses_one() {
    let mut r = fresh();
    let out = Enchantment::get_enchantments_in_table(
        &mut r,
        987654,
        Item::Book,
        2,
        30,
        Version::V1_8,
    );
    assert_eq!(out.len(), 1);
    assert!(out[0] == EnchantmentInstance::new(Enchantment::Thorns, 2));
}

#[test]
fn enchantments_in_table_negative_table_seed() {
    let mut r = fresh();
    let out = Enchantment::get_enchantments_in_table(
        &mut r,
        -5,
        Item::DiamondChestplate,
        0,
        25,
        Version::V1_14,
    );
    assert_eq!(out.len(), 1);
    assert!(out[0] == EnchantmentInstance::new(Enchantment::Protection, 3));
}

#[test]
fn highest_allowed_iron_sword() {
    let out = Enchantment::get_highest_allowed_enchantments(
        30,
        Item::IronSword,
        false,
        Version::V1_16,
    );
    assert_eq!(out.len(), 8);
    assert!(out[0] == EnchantmentInstance::new(Enchantment::Sharpness, 3));
    assert!(out[1] == EnchantmentInstance::new(Enchantment::Smite, 4));
    assert!(out[2] == EnchantmentInstance::new(Enchantment::BaneOfArthropods, 4));
    assert!(out[3] == EnchantmentInstance::new(Enchantment::Knockback, 2));
    assert!(out[4] == EnchantmentInstance::new(Enchantment::FireAspect, 2));
    assert!(out[5] == EnchantmentInstance::new(Enchantment::Looting, 2));
}

#[test]
fn highest_allowed_book_with_treasure() {
    let out = Enchantment::get_highest_allowed_enchantments(25, Item::Book, true, Version::V1_8);
    assert_eq!(out.len(), 25);
    assert!(out[0] == EnchantmentInstance::new(Enchantment::Protection, 3));
    assert!(out[1] == EnchantmentInstance::new(Enchantment::FireProtection, 2));
    assert!(out[2] == EnchantmentInstance::new(Enchantment::FeatherFalling, 4));
}

#[test]
fn highest_allowed_iron_pickaxe() {
    let out = Enchantment::get_highest_allowed_enchantments(
        30,
        Item::IronPickaxe,
        false,
        Version::V1_16,
    );
    assert_eq!(out.len(), 4);
    assert!(out[0] == EnchantmentInstance::new(Enchantment::Efficiency, 3));
    assert!(out[1] == EnchantmentInstance::new(Enchantment::SilkTouch, 1));
    assert!(out[2] == EnchantmentInstance::new(Enchantment::Unbreaking, 3));
    assert!(out[3] == EnchantmentInstance::new(Enchantment::Fortune, 2));
}

#[test]
fn highest_allowed_respects_item_introduction() {
    let out = Enchantment::get_highest_allowed_enchantments(
        30,
        Item::NetheriteSword,
        false,
        Version::V1_8,
    );
    assert_eq!(out.len(), 0);
}

#[test]
fn add_random_enchantments_is_deterministic_in_the_state() {
    let mut a = fresh();
    let mut b = fresh();
    a.set_seed(5555);
    b.set_seed(5555);
    let va = Enchantment::add_random_enchantments(&mut a, Item::IronSword, 25, false, Version::V1_16);
    let vb = Enchantment::add_random_enchantments(&mut b, Item::IronSword, 25, false, Version::V1_16);
    assert_eq!(va.len(), vb.len());
    for k in 0..va.len() {
        assert!(va[k] == vb[k]);
    }
    assert_eq!(a.seed, b.seed);
}
