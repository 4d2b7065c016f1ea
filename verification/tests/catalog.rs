use ench_cracker::catalog::{Enchantment, Item, Material, Version, SET_MATERIAL};
use ench_cracker::utilities::Utilities;

#[test]
fn version_order_and_latest() {
    assert!(Version::V1_8.before(Version::V1_9));
    assert!(Version::V1_14.before(Version::V1_14_3));
    assert!(Version::V1_16.after(Version::V1_11_1));
    assert!(!Version::V1_9.before(Version::V1_9));
    assert!(!Version::V1_9.after(Version::V1_9));
    assert!(Version::latest() == Version::V1_16);
}

#[test]
fn item_classification() {
    assert!(Item::IronHelmet.is_helmet());
    assert!(!Item::Pumpkin.is_helmet());
    assert!(Item::DiamondChestplate.is_chestplate());
    assert!(Item::NetheriteLeggings.is_leggings());
    assert!(Item::LeatherBoots.is_boots());
    assert!(Item::TurtleHelmet.is_armor());
    assert!(Item::WoodenSword.is_sword());
    assert!(Item::StoneAxe.is_axe());
    assert!(Item::GoldenShovel.is_shovel());
    assert!(Item::NetheriteHoe.is_hoe());
    assert!(Item::Shears.has_durability());
    assert!(!Item::Book.has_durability());
    assert!(!Item::Pumpkin.has_durability());
}

#[test]
fn pickaxes_are_tools() {
    assert!(Item::DiamondPickaxe.is_pickaxe());
    assert!(Item::IronPickaxe.is_pickaxe());
    assert!(!Item::IronAxe.is_pickaxe());
    assert!(Item::DiamondPickaxe.is_tool());
    assert!(Item::NetheritePickaxe.has_durability());
    assert_eq!(Item::WoodenPickaxe.get_enchantability(), 15);
    assert_eq!(Item::StonePickaxe.get_enchantability(), 5);
    assert_eq!(Item::IronPickaxe.get_enchantability(), 14);
    assert_eq!(Item::GoldenPickaxe.get_enchantability(), 22);
    assert_eq!(Item::DiamondPickaxe.get_enchantability(), 10);
    assert_eq!(Item::NetheritePickaxe.get_enchantability(), 15);
    // swords' combat enchantments still do not apply to pickaxes
    assert_eq!(Enchantment::Sharpness.get_max_level_in_table(Item::IronPickaxe), 0);
    assert_eq!(Enchantment::Fortune.get_max_level_in_table(Item::IronPickaxe), 3);
    assert_eq!(Enchantment::Efficiency.get_max_level_in_table(Item::DiamondPickaxe), 4);
    assert_eq!(Enchantment::SilkTouch.get_max_level_in_table(Item::WoodenPickaxe), 1);
}

#[test]
fn enchantability_table() {
    assert_eq!(Item::LeatherHelmet.get_enchantability(), 15);
    assert_eq!(Item::IronChestplate.get_enchantability(), 9);
    assert_eq!(Item::ChainmailBoots.get_enchantability(), 12);
    assert_eq!(Item::GoldenLeggings.get_enchantability(), 25);
    assert_eq!(Item::DiamondHelmet.get_enchantability(), 10);
    assert_eq!(Item::TurtleHelmet.get_enchantability(), 9);
    assert_eq!(Item::NetheriteChestplate.get_enchantability(), 15);
    assert_eq!(Item::WoodenSword.get_enchantability(), 15);
    assert_eq!(Item::StoneSword.get_enchantability(), 5);
    assert_eq!(Item::IronSword.get_enchantability(), 14);
    assert_eq!(Item::GoldenAxe.get_enchantability(), 22);
    assert_eq!(Item::DiamondSword.get_enchantability(), 10);
    assert_eq!(Item::Bow.get_enchantability(), 1);
    assert_eq!(Item::Book.get_enchantability(), 1);
    assert_eq!(Item::Trident.get_enchantability(), 1);
    assert_eq!(Item::Pumpkin.get_enchantability(), 0);
    assert_eq!(Item::Shears.get_enchantability(), 0);
}

#[test]
fn introduced_versions() {
    assert!(Item::IronSword.get_introduced_version() == Version::V1_8);
    assert!(Item::Elytra.get_introduced_version() == Version::V1_9);
    assert!(Item::TurtleHelmet.get_introduced_version() == Version::V1_13);
    assert!(Item::Crossbow.get_introduced_version() == Version::V1_14);
    assert!(Item::NetheriteHoe.get_introduced_version() == Version::V1_16);
    assert!(Enchantment::Mending.get_introduced_version() == Version::V1_9);
    assert!(Enchantment::Sweeping.get_introduced_version() == Version::V1_11_1);
    assert!(Enchantment::Riptide.get_introduced_version() == Version::V1_13);
    assert!(Enchantment::Piercing.get_introduced_version() == Version::V1_14);
    assert!(Utilities::material_introduced_version(Material::Netherite) == Version::V1_16);
    assert!(Utilities::material_introduced_version(Material::Turtle) == Version::V1_13);
    assert!(Utilities::material_introduced_version(Material::Iron) == Version::V1_8);
    assert!(Utilities::item_introduced_version(Item::Shield) == Version::V1_9);
    assert!(Utilities::enchantment_introduced_version(Enchantment::Loyalty) == Version::V1_13);
}

#[test]
fn treasure_and_max_levels() {
    assert!(Enchantment::Mending.is_treasure());
    assert!(Enchantment::FrostWalker.is_treasure());
    assert!(Enchantment::BindingCurse.is_treasure());
    assert!(!Enchantment::Sharpness.is_treasure());
    assert!(Utilities::is_treasure(Enchantment::VanishingCurse));
    assert_eq!(Enchantment::Sharpness.get_max_level(), 5);
    assert_eq!(Enchantment::Protection.get_max_level(), 4);
    assert_eq!(Enchantment::Unbreaking.get_max_level(), 3);
    assert_eq!(Enchantment::Knockback.get_max_level(), 2);
    assert_eq!(Enchantment::SilkTouch.get_max_level(), 1);
}

#[test]
fn enchantability_windows() {
    assert_eq!(Enchantment::Protection.get_min_enchantability(1), 1);
    assert_eq!(Enchantment::Protection.get_min_enchantability(4), 34);
    assert_eq!(Enchantment::Protection.get_max_enchantability(4), 45);
    assert_eq!(Enchantment::Sharpness.get_min_enchantability(5), 45);
    assert_eq!(Enchantment::Sharpness.get_max_enchantability(5), 65);
    assert_eq!(Enchantment::Respiration.get_min_enchantability(2), 20);
    assert_eq!(Enchantment::Respiration.get_max_enchantability(2), 50);
    assert_eq!(Enchantment::Loyalty.get_min_enchantability(3), 26);
    assert_eq!(Enchantment::AquaAffinity.get_min_enchantability(1), 1);
    assert_eq!(Enchantment::AquaAffinity.get_max_enchantability(1), 41);
}

#[test]
fn weights_depend_on_version() {
    assert_eq!(Enchantment::Sharpness.get_weight(Version::V1_8), 10);
    assert_eq!(Enchantment::Sharpness.get_weight(Version::V1_14), 30);
    assert_eq!(Enchantment::Sharpness.get_weight(Version::V1_14_3), 10);
    assert_eq!(Enchantment::Smite.get_weight(Version::V1_8), 5);
    assert_eq!(Enchantment::Smite.get_weight(Version::V1_14), 10);
    assert_eq!(Enchantment::Looting.get_weight(Version::V1_9), 2);
    assert_eq!(Enchantment::Looting.get_weight(Version::V1_14), 3);
    assert_eq!(Enchantment::SilkTouch.get_weight(Version::V1_14), 1);
    assert_eq!(Enchantment::Thorns.get_weight(Version::V1_16), 1);
}

#[test]
fn compatibility_rules() {
    let v = Version::V1_16;
    assert!(!Enchantment::Sharpness.is_compatible_with(Enchantment::Smite, v));
    assert!(!Enchantment::Smite.is_compatible_with(Enchantment::Sharpness, v));
    assert!(!Enchantment::SilkTouch.is_compatible_with(Enchantment::Fortune, v));
    assert!(!Enchantment::Riptide.is_compatible_with(Enchantment::Loyalty, v));
    assert!(!Enchantment::Multishot.is_compatible_with(Enchantment::Piercing, v));
    assert!(Enchantment::Sharpness.is_compatible_with(Enchantment::Looting, v));
    assert!(!Enchantment::Sharpness.is_compatible_with(Enchantment::Sharpness, v));
    // infinity and mending conflict only after one version
    assert!(Enchantment::Infinity.is_compatible_with(Enchantment::Mending, Version::V1_11));
    assert!(!Enchantment::Infinity.is_compatible_with(Enchantment::Mending, Version::V1_13));
    // the protection family conflicts except under one version
    assert!(!Enchantment::Protection.is_compatible_with(Enchantment::BlastProtection, Version::V1_13));
    assert!(Enchantment::Protection.is_compatible_with(Enchantment::BlastProtection, Version::V1_14));
    assert!(Utilities::are_enchantments_compatible(
        Enchantment::Protection,
        Enchantment::BlastProtection,
        Version::V1_14,
    ));
}

#[test]
fn can_apply_rules() {
    assert!(Enchantment::Sharpness.can_apply(Item::IronSword, true));
    assert!(!Enchantment::Sharpness.can_apply(Item::IronAxe, true));
    assert!(Enchantment::Sharpness.can_apply(Item::IronAxe, false));
    assert!(Enchantment::Thorns.can_apply(Item::IronChestplate, true));
    assert!(!Enchantment::Thorns.can_apply(Item::IronHelmet, true));
    assert!(Enchantment::Thorns.can_apply(Item::IronHelmet, false));
    assert!(Enchantment::Protection.can_apply(Item::TurtleHelmet, true));
    assert!(Enchantment::Power.can_apply(Item::Bow, true));
    assert!(!Enchantment::Power.can_apply(Item::Crossbow, true));
    assert!(Enchantment::QuickCharge.can_apply(Item::Crossbow, true));
    assert!(Enchantment::Lure.can_apply(Item::FishingRod, true));
    assert!(Enchantment::Knockback.can_apply(Item::Book, true));
    assert!(Utilities::can_apply(Enchantment::Efficiency, Item::Shears));
    assert!(!Enchantment::Efficiency.can_apply(Item::Shears, true));
    assert!(Enchantment::Efficiency.can_apply(Item::DiamondPickaxe, true));
    assert!(Enchantment::Fortune.can_apply(Item::IronPickaxe, true));
    assert!(!Enchantment::Sharpness.can_apply(Item::IronPickaxe, true));
}

#[test]
fn max_level_in_table_values() {
    assert_eq!(Enchantment::Sharpness.get_max_level_in_table(Item::IronSword), 4);
    assert_eq!(Enchantment::Protection.get_max_level_in_table(Item::DiamondChestplate), 4);
    assert_eq!(Enchantment::Efficiency.get_max_level_in_table(Item::IronShovel), 5);
    assert_eq!(Enchantment::Mending.get_max_level_in_table(Item::IronSword), 0);
    assert_eq!(Enchantment::Power.get_max_level_in_table(Item::Bow), 4);
    assert_eq!(Enchantment::Looting.get_max_level_in_table(Item::GoldenSword), 3);
    assert_eq!(Enchantment::Thorns.get_max_level_in_table(Item::GoldenChestplate), 2);
    assert_eq!(Enchantment::Infinity.get_max_level_in_table(Item::Bow), 1);
    assert_eq!(Utilities::get_max_level_in_table(Enchantment::Power, Item::Bow), 4);
}

#[test]
fn levels_to_xp_values() {
    assert_eq!(Enchantment::levels_to_xp(30, 3), 306);
    assert_eq!(Enchantment::levels_to_xp(10, 10), 160);
    assert_eq!(Enchantment::levels_to_xp(40, 5), 875);
    assert_eq!(Enchantment::levels_to_xp(1, 1), 7);
    assert_eq!(Enchantment::levels_to_xp(0, 0), 0);
    assert_eq!(Enchantment::levels_to_xp(64, 64), 10252);
}

#[test]
fn materials_and_items() {
    assert!(Item::IronSword.get_material() == Some(Material::Iron));
    assert!(Item::NetheriteBoots.get_material() == Some(Material::Netherite));
    assert!(Item::TurtleHelmet.get_material() == Some(Material::Turtle));
    assert!(Item::Book.get_material() == None);
    assert!(Material::Iron.has_item(&Item::IronSword, true));
    assert!(!Material::Iron.has_item(&Item::GoldenSword, true));
    // the mixed material sets
    assert!(Material::Fire.has_item(&Item::ChainmailHelmet, false));
    assert!(Material::Fire.has_item(&Item::IronSword, false));
    assert!(Material::Fire.has_item(&Item::IronPickaxe, false));
    assert!(!Material::Fire.has_item(&Item::IronHelmet, false));
    assert!(Material::Stone.has_item(&Item::TurtleHelmet, false));
    assert!(Material::Stone.has_item(&Item::LeatherBoots, false));
    assert!(!Material::Stone.has_item(&Item::LeatherHelmet, false));
    assert!(Material::Wooden.has_item(&Item::LeatherHelmet, false));
    assert!(Material::Wooden.has_item(&Item::WoodenHoe, false));
}

#[test]
fn material_item_sets_in_display_order() {
    let expect: [(Material, [usize; 9]); 10] = [
        (Material::Netherite, [58, 59, 60, 61, 62, 63, 64, 65, 66]),
        (Material::Diamond, [16, 17, 18, 19, 24, 29, 34, 39, 44]),
        (Material::Golden, [12, 13, 14, 15, 23, 28, 33, 38, 43]),
        (Material::Iron, [4, 5, 6, 7, 22, 27, 32, 37, 42]),
        (Material::Chainmail, [8, 9, 10, 11, 50, 50, 50, 50, 50]),
        (Material::Fire, [8, 9, 10, 11, 22, 27, 32, 37, 42]),
        (Material::Turtle, [56, 50, 50, 50, 50, 50, 50, 50, 50]),
        (Material::Leather, [0, 1, 2, 3, 50, 50, 50, 50, 50]),
        (Material::Stone, [56, 1, 2, 3, 21, 26, 31, 36, 41]),
        (Material::Wooden, [0, 1, 2, 3, 20, 25, 30, 35, 40]),
    ];
    for (mat, ords) in expect {
        let items = mat.get_items();
        assert_eq!(items.len(), SET_MATERIAL);
        for (k, it) in items.iter().enumerate() {
            assert_eq!(it.index(), ords[k]);
        }
        let via_utils = Utilities::get_items(mat);
        assert_eq!(via_utils.len(), SET_MATERIAL);
        for (k, o) in via_utils.iter().enumerate() {
            assert_eq!(*o as usize, ords[k]);
        }
    }
}
