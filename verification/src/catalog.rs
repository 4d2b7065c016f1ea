//! The static catalog of domain entities: game versions, materials,
//! items and enchantments, with the pure rule tables the simulation
//! engine queries. Every executable table is pinned to a spec twin.

use vstd::prelude::*;

verus! {

/// Game versions in release order.
#[derive(Copy, Clone, PartialEq, Eq, Structural, Debug)]
pub enum Version {
    V1_8,
    V1_9,
    V1_11,
    V1_11_1,
    V1_13,
    V1_14,
    V1_14_3,
    V1_16,
}

/// Position of a version in release order.
pub open spec fn spec_version_ord(v: Version) -> int {
    match v {
        Version::V1_8 => 0,
        Version::V1_9 => 1,
        Version::V1_11 => 2,
        Version::V1_11_1 => 3,
        Version::V1_13 => 4,
        Version::V1_14 => 5,
        Version::V1_14_3 => 6,
        Version::V1_16 => 7,
    }
}

impl Version {
    /// Position of this version in release order.
    pub fn ordinal(&self) -> (r: u8)
        ensures
            r == spec_version_ord(*self),
    {
        match self {
            Version::V1_8 => 0,
            Version::V1_9 => 1,
            Version::V1_11 => 2,
            Version::V1_11_1 => 3,
            Version::V1_13 => 4,
            Version::V1_14 => 5,
            Version::V1_14_3 => 6,
            Version::V1_16 => 7,
        }
    }

    /// This version was released before `other`.
    pub fn before(&self, other: Version) -> (r: bool)
        ensures
            r == (spec_version_ord(*self) < spec_version_ord(other)),
    {
        self.ordinal() < other.ordinal()
    }

    /// This version was released after `other`.
    pub fn after(&self, other: Version) -> (r: bool)
        ensures
            r == (spec_version_ord(*self) > spec_version_ord(other)),
    {
        self.ordinal() > other.ordinal()
    }

    /// The most recent version the catalog knows.
    pub fn latest() -> (r: Self)
        ensures
            r == Version::V1_16,
    {
        Version::V1_16
    }
}

/// Materials an item can be made of.
#[derive(Copy, Clone, PartialEq, Eq, Structural, Debug)]
pub enum Material {
    Netherite,
    Diamond,
    Golden,
    Iron,
    Chainmail,
    Fire,
    Turtle,
    Leather,
    Stone,
    Wooden,
}

/// Number of item slots reported for one material.
pub const SET_MATERIAL: usize = 9;

/// The items of the catalog.
#[derive(Copy, Clone, PartialEq, Eq, Structural, Debug)]
pub enum Item {
    LeatherHelmet,
    LeatherChestplate,
    LeatherLeggings,
    LeatherBoots,
    IronHelmet,
    IronChestplate,
    IronLeggings,
    IronBoots,
    ChainmailHelmet,
    ChainmailChestplate,
    ChainmailLeggings,
    ChainmailBoots,
    GoldenHelmet,
    GoldenChestplate,
    GoldenLeggings,
    GoldenBoots,
    DiamondHelmet,
    DiamondChestplate,
    DiamondLeggings,
    DiamondBoots,
    WoodenSword,
    StoneSword,
    IronSword,
    GoldenSword,
    DiamondSword,
    WoodenPickaxe,
    StonePickaxe,
    IronPickaxe,
    GoldenPickaxe,
    DiamondPickaxe,
    WoodenAxe,
    StoneAxe,
    IronAxe,
    GoldenAxe,
    DiamondAxe,
    WoodenShovel,
    StoneShovel,
    IronShovel,
    GoldenShovel,
    DiamondShovel,
    WoodenHoe,
    StoneHoe,
    IronHoe,
    GoldenHoe,
    DiamondHoe,
    CarrotOnAStick,
    FishingRod,
    FlintAndSteel,
    Shears,
    Bow,
    Book,
    Pumpkin,
    Skull,
    Elytra,
    Shield,
    Trident,
    TurtleHelmet,
    Crossbow,
    NetheriteHelmet,
    NetheriteChestplate,
    NetheriteLeggings,
    NetheriteBoots,
    NetheriteSword,
    NetheritePickaxe,
    NetheriteAxe,
    NetheriteShovel,
    NetheriteHoe,
}

/// Ordinal of an item in catalog order.
pub open spec fn spec_item_ord(i: Item) -> int {
    match i {
        Item::LeatherHelmet => 0,
        Item::LeatherChestplate => 1,
        Item::LeatherLeggings => 2,
        Item::LeatherBoots => 3,
        Item::IronHelmet => 4,
        Item::IronChestplate => 5,
        Item::IronLeggings => 6,
        Item::IronBoots => 7,
        Item::ChainmailHelmet => 8,
        Item::ChainmailChestplate => 9,
        Item::ChainmailLeggings => 10,
        Item::ChainmailBoots => 11,
        Item::GoldenHelmet => 12,
        Item::GoldenChestplate => 13,
        Item::GoldenLeggings => 14,
        Item::GoldenBoots => 15,
        Item::DiamondHelmet => 16,
        Item::DiamondChestplate => 17,
        Item::DiamondLeggings => 18,
        Item::DiamondBoots => 19,
        Item::WoodenSword => 20,
        Item::StoneSword => 21,
        Item::IronSword => 22,
        Item::GoldenSword => 23,
        Item::DiamondSword => 24,
        Item::WoodenPickaxe => 25,
        Item::StonePickaxe => 26,
        Item::IronPickaxe => 27,
        Item::GoldenPickaxe => 28,
        Item::DiamondPickaxe => 29,
        Item::WoodenAxe => 30,
        Item::StoneAxe => 31,
        Item::IronAxe => 32,
        Item::GoldenAxe => 33,
        Item::DiamondAxe => 34,
        Item::WoodenShovel => 35,
        Item::StoneShovel => 36,
        Item::IronShovel => 37,
        Item::GoldenShovel => 38,
        Item::DiamondShovel => 39,
        Item::WoodenHoe => 40,
        Item::StoneHoe => 41,
        Item::IronHoe => 42,
        Item::GoldenHoe => 43,
        Item::DiamondHoe => 44,
        Item::CarrotOnAStick => 45,
        Item::FishingRod => 46,
        Item::FlintAndSteel => 47,
        Item::Shears => 48,
        Item::Bow => 49,
        Item::Book => 50,
        Item::Pumpkin => 51,
        Item::Skull => 52,
        Item::Elytra => 53,
        Item::Shield => 54,
        Item::Trident => 55,
        Item::TurtleHelmet => 56,
        Item::Crossbow => 57,
        Item::NetheriteHelmet => 58,
        Item::NetheriteChestplate => 59,
        Item::NetheriteLeggings => 60,
        Item::NetheriteBoots => 61,
        Item::NetheriteSword => 62,
        Item::NetheritePickaxe => 63,
        Item::NetheriteAxe => 64,
        Item::NetheriteShovel => 65,
        Item::NetheriteHoe => 66,
    }
}

/// Number of items in the catalog.
pub const ITEM_COUNT: usize = 67;

/// The item is a helmet.
pub open spec fn spec_is_helmet(i: Item) -> bool {
    match i {
        Item::LeatherHelmet | Item::IronHelmet | Item::ChainmailHelmet | Item::GoldenHelmet | Item::DiamondHelmet | Item::TurtleHelmet | Item::NetheriteHelmet => true,
        _ => false,
    }
}

/// The item is a chestplate.
pub open spec fn spec_is_chestplate(i: Item) -> bool {
    match i {
        Item::LeatherChestplate | Item::IronChestplate | Item::ChainmailChestplate | Item::GoldenChestplate | Item::DiamondChestplate | Item::NetheriteChestplate => true,
        _ => false,
    }
}

/// The item is a pair of leggings.
pub open spec fn spec_is_leggings(i: Item) -> bool {
    match i {
        Item::LeatherLeggings | Item::IronLeggings | Item::ChainmailLeggings | Item::GoldenLeggings | Item::DiamondLeggings | Item::NetheriteLeggings => true,
        _ => false,
    }
}

/// The item is a pair of boots.
pub open spec fn spec_is_boots(i: Item) -> bool {
    match i {
        Item::LeatherBoots | Item::IronBoots | Item::ChainmailBoots | Item::GoldenBoots | Item::DiamondBoots | Item::NetheriteBoots => true,
        _ => false,
    }
}

/// The item is a sword.
pub open spec fn spec_is_sword(i: Item) -> bool {
    match i {
        Item::WoodenSword | Item::StoneSword | Item::IronSword | Item::GoldenSword | Item::DiamondSword | Item::NetheriteSword => true,
        _ => false,
    }
}

/// The item is an axe.
pub open spec fn spec_is_axe(i: Item) -> bool {
    match i {
        Item::WoodenAxe | Item::StoneAxe | Item::IronAxe | Item::GoldenAxe | Item::DiamondAxe | Item::NetheriteAxe => true,
        _ => false,
    }
}

/// The item is a pickaxe.
pub open spec fn spec_is_pickaxe(i: Item) -> bool {
    match i {
        Item::WoodenPickaxe | Item::StonePickaxe | Item::IronPickaxe | Item::GoldenPickaxe | Item::DiamondPickaxe | Item::NetheritePickaxe => true,
        _ => false,
    }
}

/// The item is a shovel.
pub open spec fn spec_is_shovel(i: Item) -> bool {
    match i {
        Item::WoodenShovel | Item::StoneShovel | Item::IronShovel | Item::GoldenShovel | Item::DiamondShovel | Item::NetheriteShovel => true,
        _ => false,
    }
}

/// The item is a hoe.
pub open spec fn spec_is_hoe(i: Item) -> bool {
    match i {
        Item::WoodenHoe | Item::StoneHoe | Item::IronHoe | Item::GoldenHoe | Item::DiamondHoe | Item::NetheriteHoe => true,
        _ => false,
    }
}

/// The item is any piece of armor.
pub open spec fn spec_is_armor(i: Item) -> bool {
    spec_is_boots(i) || spec_is_chestplate(i) || spec_is_helmet(i) || spec_is_leggings(i)
}

/// The item is a tool (axe, pickaxe, shovel or hoe, under the catalog's
/// own classification).
pub open spec fn spec_is_tool(i: Item) -> bool {
    spec_is_axe(i) || spec_is_pickaxe(i) || spec_is_shovel(i) || spec_is_hoe(i)
}

/// The item loses durability with use.
pub open spec fn spec_has_durability(i: Item) -> bool {
    match i {
        Item::LeatherHelmet | Item::LeatherChestplate | Item::LeatherLeggings | Item::LeatherBoots | Item::IronHelmet | Item::IronChestplate | Item::IronLeggings | Item::IronBoots | Item::ChainmailHelmet | Item::ChainmailChestplate | Item::ChainmailLeggings | Item::ChainmailBoots | Item::GoldenHelmet | Item::GoldenChestplate | Item::GoldenLeggings | Item::GoldenBoots | Item::DiamondHelmet | Item::DiamondChestplate | Item::DiamondLeggings | Item::DiamondBoots | Item::WoodenSword | Item::StoneSword | Item::IronSword | Item::GoldenSword | Item::DiamondSword | Item::WoodenPickaxe | Item::StonePickaxe | Item::IronPickaxe | Item::GoldenPickaxe | Item::DiamondPickaxe | Item::WoodenAxe | Item::StoneAxe | Item::IronAxe | Item::GoldenAxe | Item::DiamondAxe | Item::WoodenShovel | Item::StoneShovel | Item::IronShovel | Item::GoldenShovel | Item::DiamondShovel | Item::WoodenHoe | Item::StoneHoe | Item::IronHoe | Item::GoldenHoe | Item::DiamondHoe | Item::CarrotOnAStick | Item::FishingRod | Item::FlintAndSteel | Item::Shears | Item::Bow | Item::Elytra | Item::Shield | Item::Trident | Item::TurtleHelmet | Item::Crossbow | Item::NetheriteHelmet | Item::NetheriteChestplate | Item::NetheriteLeggings | Item::NetheriteBoots | Item::NetheriteSword | Item::NetheritePickaxe | Item::NetheriteAxe | Item::NetheriteShovel | Item::NetheriteHoe => true,
        _ => false,
    }
}

/// The material whose name prefixes the item's name, if any.
pub open spec fn spec_prefix_material(i: Item) -> Option<Material> {
    match i {
        Item::LeatherHelmet => Some(Material::Leather),
        Item::LeatherChestplate => Some(Material::Leather),
        Item::LeatherLeggings => Some(Material::Leather),
        Item::LeatherBoots => Some(Material::Leather),
        Item::IronHelmet => Some(Material::Iron),
        Item::IronChestplate => Some(Material::Iron),
        Item::IronLeggings => Some(Material::Iron),
        Item::IronBoots => Some(Material::Iron),
        Item::ChainmailHelmet => Some(Material::Chainmail),
        Item::ChainmailChestplate => Some(Material::Chainmail),
        Item::ChainmailLeggings => Some(Material::Chainmail),
        Item::ChainmailBoots => Some(Material::Chainmail),
        Item::GoldenHelmet => Some(Material::Golden),
        Item::GoldenChestplate => Some(Material::Golden),
        Item::GoldenLeggings => Some(Material::Golden),
        Item::GoldenBoots => Some(Material::Golden),
        Item::DiamondHelmet => Some(Material::Diamond),
        Item::DiamondChestplate => Some(Material::Diamond),
        Item::DiamondLeggings => Some(Material::Diamond),
        Item::DiamondBoots => Some(Material::Diamond),
        Item::WoodenSword => Some(Material::Wooden),
        Item::StoneSword => Some(Material::Stone),
        Item::IronSword => Some(Material::Iron),
        Item::GoldenSword => Some(Material::Golden),
        Item::DiamondSword => Some(Material::Diamond),
        Item::WoodenPickaxe => Some(Material::Wooden),
        Item::StonePickaxe => Some(Material::Stone),
        Item::IronPickaxe => Some(Material::Iron),
        Item::GoldenPickaxe => Some(Material::Golden),
        Item::DiamondPickaxe => Some(Material::Diamond),
        Item::WoodenAxe => Some(Material::Wooden),
        Item::StoneAxe => Some(Material::Stone),
        Item::IronAxe => Some(Material::Iron),
        Item::GoldenAxe => Some(Material::Golden),
        Item::DiamondAxe => Some(Material::Diamond),
        Item::WoodenShovel => Some(Material::Wooden),
        Item::StoneShovel => Some(Material::Stone),
        Item::IronShovel => Some(Material::Iron),
        Item::GoldenShovel => Some(Material::Golden),
        Item::DiamondShovel => Some(Material::Diamond),
        Item::WoodenHoe => Some(Material::Wooden),
        Item::StoneHoe => Some(Material::Stone),
        Item::IronHoe => Some(Material::Iron),
        Item::GoldenHoe => Some(Material::Golden),
        Item::DiamondHoe => Some(Material::Diamond),
        Item::CarrotOnAStick => None,
        Item::FishingRod => None,
        Item::FlintAndSteel => None,
        Item::Shears => None,
        Item::Bow => None,
        Item::Book => None,
        Item::Pumpkin => None,
        Item::Skull => None,
        Item::Elytra => None,
        Item::Shield => None,
        Item::Trident => None,
        Item::TurtleHelmet => Some(Material::Turtle),
        Item::Crossbow => None,
        Item::NetheriteHelmet => Some(Material::Netherite),
        Item::NetheriteChestplate => Some(Material::Netherite),
        Item::NetheriteLeggings => Some(Material::Netherite),
        Item::NetheriteBoots => Some(Material::Netherite),
        Item::NetheriteSword => Some(Material::Netherite),
        Item::NetheritePickaxe => Some(Material::Netherite),
        Item::NetheriteAxe => Some(Material::Netherite),
        Item::NetheriteShovel => Some(Material::Netherite),
        Item::NetheriteHoe => Some(Material::Netherite),
    }
}

/// The material `m` offers item `i`. With `not_js` the test is the plain
/// name-prefix rule; without it, a few materials stand for mixed sets.
pub open spec fn spec_has_item(m: Material, i: Item, not_js: bool) -> bool {
    if not_js {
        spec_prefix_material(i) == Some(m)
    } else {
        match m {
            Material::Fire => spec_prefix_material(i) == Some(Material::Chainmail) || (
            spec_prefix_material(i) == Some(Material::Iron) && (spec_is_tool(i) || spec_is_sword(
                i,
            ))),
            Material::Stone => spec_prefix_material(i) == Some(Material::Turtle) || (
            spec_prefix_material(i) == Some(Material::Leather) && spec_is_armor(i)
                && !spec_is_helmet(i)) || spec_prefix_material(i) == Some(Material::Stone),
            Material::Wooden => spec_prefix_material(i) == Some(Material::Leather)
                || spec_prefix_material(i) == Some(Material::Wooden),
            _ => spec_prefix_material(i) == Some(m),
        }
    }
}

/// The nine item slots reported for a material, in the catalog's fixed
/// display order.
pub open spec fn spec_material_items(m: Material) -> Seq<Item> {
    match m {
        Material::Netherite => seq![Item::NetheriteHelmet, Item::NetheriteChestplate, Item::NetheriteLeggings, Item::NetheriteBoots, Item::NetheriteSword, Item::NetheritePickaxe, Item::NetheriteAxe, Item::NetheriteShovel, Item::NetheriteHoe],
        Material::Diamond => seq![Item::DiamondHelmet, Item::DiamondChestplate, Item::DiamondLeggings, Item::DiamondBoots, Item::DiamondSword, Item::DiamondPickaxe, Item::DiamondAxe, Item::DiamondShovel, Item::DiamondHoe],
        Material::Golden => seq![Item::GoldenHelmet, Item::GoldenChestplate, Item::GoldenLeggings, Item::GoldenBoots, Item::GoldenSword, Item::GoldenPickaxe, Item::GoldenAxe, Item::GoldenShovel, Item::GoldenHoe],
        Material::Iron => seq![Item::IronHelmet, Item::IronChestplate, Item::IronLeggings, Item::IronBoots, Item::IronSword, Item::IronPickaxe, Item::IronAxe, Item::IronShovel, Item::IronHoe],
        Material::Chainmail => seq![Item::ChainmailHelmet, Item::ChainmailChestplate, Item::ChainmailLeggings, Item::ChainmailBoots, Item::Book, Item::Book, Item::Book, Item::Book, Item::Book],
        Material::Fire => seq![Item::ChainmailHelmet, Item::ChainmailChestplate, Item::ChainmailLeggings, Item::ChainmailBoots, Item::IronSword, Item::IronPickaxe, Item::IronAxe, Item::IronShovel, Item::IronHoe],
        Material::Turtle => seq![Item::TurtleHelmet, Item::Book, Item::Book, Item::Book, Item::Book, Item::Book, Item::Book, Item::Book, Item::Book],
        Material::Leather => seq![Item::LeatherHelmet, Item::LeatherChestplate, Item::LeatherLeggings, Item::LeatherBoots, Item::Book, Item::Book, Item::Book, Item::Book, Item::Book],
        Material::Stone => seq![Item::TurtleHelmet, Item::LeatherChestplate, Item::LeatherLeggings, Item::LeatherBoots, Item::StoneSword, Item::StonePickaxe, Item::StoneAxe, Item::StoneShovel, Item::StoneHoe],
        Material::Wooden => seq![Item::LeatherHelmet, Item::LeatherChestplate, Item::LeatherLeggings, Item::LeatherBoots, Item::WoodenSword, Item::WoodenPickaxe, Item::WoodenAxe, Item::WoodenShovel, Item::WoodenHoe],
    }
}

/// The version in which a material's first item appeared.
pub open spec fn spec_material_intro(m: Material) -> Version {
    match m {
        Material::Netherite => Version::V1_16,
        Material::Turtle => Version::V1_13,
        _ => Version::V1_8,
    }
}

impl Material {
    /// The nine item slots reported for this material.
    pub fn get_items(&self) -> (r: Vec<Item>)
        ensures
            r@ == spec_material_items(*self),
            r@.len() == SET_MATERIAL,
    {
        let mut v: Vec<Item> = Vec::new();
        match self {
            Material::Netherite => {
                v.push(Item::NetheriteHelmet);
                v.push(Item::NetheriteChestplate);
                v.push(Item::NetheriteLeggings);
                v.push(Item::NetheriteBoots);
                v.push(Item::NetheriteSword);
                v.push(Item::NetheritePickaxe);
                v.push(Item::NetheriteAxe);
                v.push(Item::NetheriteShovel);
                v.push(Item::NetheriteHoe);
            },
            Material::Diamond => {
                v.push(Item::DiamondHelmet);
                v.push(Item::DiamondChestplate);
                v.push(Item::DiamondLeggings);
                v.push(Item::DiamondBoots);
                v.push(Item::DiamondSword);
                v.push(Item::DiamondPickaxe);
                v.push(Item::DiamondAxe);
                v.push(Item::DiamondShovel);
                v.push(Item::DiamondHoe);
            },
            Material::Golden => {
                v.push(Item::GoldenHelmet);
                v.push(Item::GoldenChestplate);
                v.push(Item::GoldenLeggings);
                v.push(Item::GoldenBoots);
                v.push(Item::GoldenSword);
                v.push(Item::GoldenPickaxe);
                v.push(Item::GoldenAxe);
                v.push(Item::GoldenShovel);
                v.push(Item::GoldenHoe);
            },
            Material::Iron => {
                v.push(Item::IronHelmet);
                v.push(Item::IronChestplate);
                v.push(Item::IronLeggings);
                v.push(Item::IronBoots);
                v.push(Item::IronSword);
                v.push(Item::IronPickaxe);
                v.push(Item::IronAxe);
                v.push(Item::IronShovel);
                v.push(Item::IronHoe);
            },
            Material::Chainmail => {
                v.push(Item::ChainmailHelmet);
                v.push(Item::ChainmailChestplate);
                v.push(Item::ChainmailLeggings);
                v.push(Item::ChainmailBoots);
                v.push(Item::Book);
                v.push(Item::Book);
                v.push(Item::Book);
                v.push(Item::Book);
                v.push(Item::Book);
            },
            Material::Fire => {
                v.push(Item::ChainmailHelmet);
                v.push(Item::ChainmailChestplate);
                v.push(Item::ChainmailLeggings);
                v.push(Item::ChainmailBoots);
                v.push(Item::IronSword);
                v.push(Item::IronPickaxe);
                v.push(Item::IronAxe);
                v.push(Item::IronShovel);
                v.push(Item::IronHoe);
            },
            Material::Turtle => {
                v.push(Item::TurtleHelmet);
                v.push(Item::Book);
                v.push(Item::Book);
                v.push(Item::Book);
                v.push(Item::Book);
                v.push(Item::Book);
                v.push(Item::Book);
                v.push(Item::Book);
                v.push(Item::Book);
            },
            Material::Leather => {
                v.push(Item::LeatherHelmet);
                v.push(Item::LeatherChestplate);
                v.push(Item::LeatherLeggings);
                v.push(Item::LeatherBoots);
                v.push(Item::Book);
                v.push(Item::Book);
                v.push(Item::Book);
                v.push(Item::Book);
                v.push(Item::Book);
            },
            Material::Stone => {
                v.push(Item::TurtleHelmet);
                v.push(Item::LeatherChestplate);
                v.push(Item::LeatherLeggings);
                v.push(Item::LeatherBoots);
                v.push(Item::StoneSword);
                v.push(Item::StonePickaxe);
                v.push(Item::StoneAxe);
                v.push(Item::StoneShovel);
                v.push(Item::StoneHoe);
            },
            Material::Wooden => {
                v.push(Item::LeatherHelmet);
                v.push(Item::LeatherChestplate);
                v.push(Item::LeatherLeggings);
                v.push(Item::LeatherBoots);
                v.push(Item::WoodenSword);
                v.push(Item::WoodenPickaxe);
                v.push(Item::WoodenAxe);
                v.push(Item::WoodenShovel);
                v.push(Item::WoodenHoe);
            },
        }
        proof {
            assert(v@ =~= spec_material_items(*self));
        }
        v
    }

    /// The material `self` offers item `item`.
    pub fn has_item(&self, item: &Item, not_js: bool) -> (r: bool)
        ensures
            r == spec_has_item(*self, *item, not_js),
    {
        let pm = item.prefix_material();
        if not_js {
            return match pm {
                Some(m) => m.same(*self),
                None => false,
            };
        }
        match self {
            Material::Fire => {
                let iron_class = item.is_tool() || item.is_sword();
                match pm {
                    Some(Material::Chainmail) => true,
                    Some(Material::Iron) => iron_class,
                    _ => false,
                }
            },
            Material::Stone => {
                let leather_class = item.is_armor() && !item.is_helmet();
                match pm {
                    Some(Material::Turtle) => true,
                    Some(Material::Leather) => leather_class,
                    Some(Material::Stone) => true,
                    _ => false,
                }
            },
            Material::Wooden => match pm {
                Some(Material::Leather) => true,
                Some(Material::Wooden) => true,
                _ => false,
            },
            _ => match pm {
                Some(m) => m.same(*self),
                None => false,
            },
        }
    }

    /// Structural equality of materials.
    pub fn same(&self, other: Material) -> (r: bool)
        ensures
            r == (*self == other),
    {
        *self == other
    }

    /// The version in which this material's first item appeared.
    pub fn get_introduced_version(&self) -> (r: Version)
        ensures
            r == spec_material_intro(*self),
    {
        match self {
            Material::Netherite => Version::V1_16,
            Material::Turtle => Version::V1_13,
            _ => Version::V1_8,
        }
    }
}

/// Base enchantability of an item.
pub open spec fn spec_enchantability(i: Item) -> int {
    match i {
        Item::GoldenHelmet | Item::GoldenChestplate | Item::GoldenLeggings | Item::GoldenBoots => 25,
        Item::GoldenSword | Item::GoldenPickaxe | Item::GoldenAxe | Item::GoldenShovel | Item::GoldenHoe => 22,
        Item::LeatherHelmet | Item::LeatherChestplate | Item::LeatherLeggings | Item::LeatherBoots | Item::WoodenSword | Item::WoodenPickaxe | Item::WoodenAxe | Item::WoodenShovel | Item::WoodenHoe | Item::NetheriteHelmet | Item::NetheriteChestplate | Item::NetheriteLeggings | Item::NetheriteBoots | Item::NetheriteSword | Item::NetheritePickaxe | Item::NetheriteAxe | Item::NetheriteShovel | Item::NetheriteHoe => 15,
        Item::IronSword | Item::IronPickaxe | Item::IronAxe | Item::IronShovel | Item::IronHoe => 14,
        Item::ChainmailHelmet | Item::ChainmailChestplate | Item::ChainmailLeggings | Item::ChainmailBoots => 12,
        Item::DiamondHelmet | Item::DiamondChestplate | Item::DiamondLeggings | Item::DiamondBoots | Item::DiamondSword | Item::DiamondPickaxe | Item::DiamondAxe | Item::DiamondShovel | Item::DiamondHoe => 10,
        Item::IronHelmet | Item::IronChestplate | Item::IronLeggings | Item::IronBoots | Item::TurtleHelmet => 9,
        Item::StoneSword | Item::StonePickaxe | Item::StoneAxe | Item::StoneShovel | Item::StoneHoe => 5,
        Item::FishingRod | Item::Bow | Item::Book | Item::Trident | Item::Crossbow => 1,
        _ => 0,
    }
}

/// The version in which an item appeared.
pub open spec fn spec_item_intro(i: Item) -> Version {
    match i {
        Item::Elytra | Item::Shield => Version::V1_9,
        Item::Trident | Item::TurtleHelmet => Version::V1_13,
        Item::Crossbow => Version::V1_14,
        Item::NetheriteHelmet | Item::NetheriteChestplate | Item::NetheriteLeggings | Item::NetheriteBoots | Item::NetheriteSword | Item::NetheritePickaxe | Item::NetheriteAxe | Item::NetheriteShovel | Item::NetheriteHoe => Version::V1_16,
        _ => Version::V1_8,
    }
}

impl Item {
    /// Ordinal of this item in catalog order.
    pub fn index(&self) -> (r: usize)
        ensures
            r == spec_item_ord(*self),
            r < ITEM_COUNT,
    {
        match self {
            Item::LeatherHelmet => 0,
            Item::LeatherChestplate => 1,
            Item::LeatherLeggings => 2,
            Item::LeatherBoots => 3,
            Item::IronHelmet => 4,
            Item::IronChestplate => 5,
            Item::IronLeggings => 6,
            Item::IronBoots => 7,
            Item::ChainmailHelmet => 8,
            Item::ChainmailChestplate => 9,
            Item::ChainmailLeggings => 10,
            Item::ChainmailBoots => 11,
            Item::GoldenHelmet => 12,
            Item::GoldenChestplate => 13,
            Item::GoldenLeggings => 14,
            Item::GoldenBoots => 15,
            Item::DiamondHelmet => 16,
            Item::DiamondChestplate => 17,
            Item::DiamondLeggings => 18,
            Item::DiamondBoots => 19,
            Item::WoodenSword => 20,
            Item::StoneSword => 21,
            Item::IronSword => 22,
            Item::GoldenSword => 23,
            Item::DiamondSword => 24,
            Item::WoodenPickaxe => 25,
            Item::StonePickaxe => 26,
            Item::IronPickaxe => 27,
            Item::GoldenPickaxe => 28,
            Item::DiamondPickaxe => 29,
            Item::WoodenAxe => 30,
            Item::StoneAxe => 31,
            Item::IronAxe => 32,
            Item::GoldenAxe => 33,
            Item::DiamondAxe => 34,
            Item::WoodenShovel => 35,
            Item::StoneShovel => 36,
            Item::IronShovel => 37,
            Item::GoldenShovel => 38,
            Item::DiamondShovel => 39,
            Item::WoodenHoe => 40,
            Item::StoneHoe => 41,
            Item::IronHoe => 42,
            Item::GoldenHoe => 43,
            Item::DiamondHoe => 44,
            Item::CarrotOnAStick => 45,
            Item::FishingRod => 46,
            Item::FlintAndSteel => 47,
            Item::Shears => 48,
            Item::Bow => 49,
            Item::Book => 50,
            Item::Pumpkin => 51,
            Item::Skull => 52,
            Item::Elytra => 53,
            Item::Shield => 54,
            Item::Trident => 55,
            Item::TurtleHelmet => 56,
            Item::Crossbow => 57,
            Item::NetheriteHelmet => 58,
            Item::NetheriteChestplate => 59,
            Item::NetheriteLeggings => 60,
            Item::NetheriteBoots => 61,
            Item::NetheriteSword => 62,
            Item::NetheritePickaxe => 63,
            Item::NetheriteAxe => 64,
            Item::NetheriteShovel => 65,
            Item::NetheriteHoe => 66,
        }
    }

    /// The item is a helmet.
    pub fn is_helmet(&self) -> (r: bool)
        ensures
            r == spec_is_helmet(*self),
    {
        match self {
            Item::LeatherHelmet | Item::IronHelmet | Item::ChainmailHelmet | Item::GoldenHelmet | Item::DiamondHelmet | Item::TurtleHelmet | Item::NetheriteHelmet => true,
            _ => false,
        }
    }

    /// The item is a chestplate.
    pub fn is_chestplate(&self) -> (r: bool)
        ensures
            r == spec_is_chestplate(*self),
    {
        match self {
            Item::LeatherChestplate | Item::IronChestplate | Item::ChainmailChestplate | Item::GoldenChestplate | Item::DiamondChestplate | Item::NetheriteChestplate => true,
            _ => false,
        }
    }

    /// The item is a pair of leggings.
    pub fn is_leggings(&self) -> (r: bool)
        ensures
            r == spec_is_leggings(*self),
    {
        match self {
            Item::LeatherLeggings | Item::IronLeggings | Item::ChainmailLeggings | Item::GoldenLeggings | Item::DiamondLeggings | Item::NetheriteLeggings => true,
            _ => false,
        }
    }

    /// The item is a pair of boots.
    pub fn is_boots(&self) -> (r: bool)
        ensures
            r == spec_is_boots(*self),
    {
        match self {
            Item::LeatherBoots | Item::IronBoots | Item::ChainmailBoots | Item::GoldenBoots | Item::DiamondBoots | Item::NetheriteBoots => true,
            _ => false,
        }
    }

    /// The item is a sword.
    pub fn is_sword(&self) -> (r: bool)
        ensures
            r == spec_is_sword(*self),
    {
        match self {
            Item::WoodenSword | Item::StoneSword | Item::IronSword | Item::GoldenSword | Item::DiamondSword | Item::NetheriteSword => true,
            _ => false,
        }
    }

    /// The item is a axe.
    pub fn is_axe(&self) -> (r: bool)
        ensures
            r == spec_is_axe(*self),
    {
        match self {
            Item::WoodenAxe | Item::StoneAxe | Item::IronAxe | Item::GoldenAxe | Item::DiamondAxe | Item::NetheriteAxe => true,
            _ => false,
        }
    }

    /// The item is a pickaxe.
    pub fn is_pickaxe(&self) -> (r: bool)
        ensures
            r == spec_is_pickaxe(*self),
    {
        match self {
            Item::WoodenPickaxe | Item::StonePickaxe | Item::IronPickaxe | Item::GoldenPickaxe | Item::DiamondPickaxe | Item::NetheritePickaxe => true,
            _ => false,
        }
    }

    /// The item is a shovel.
    pub fn is_shovel(&self) -> (r: bool)
        ensures
            r == spec_is_shovel(*self),
    {
        match self {
            Item::WoodenShovel | Item::StoneShovel | Item::IronShovel | Item::GoldenShovel | Item::DiamondShovel | Item::NetheriteShovel => true,
            _ => false,
        }
    }

    /// The item is a hoe.
    pub fn is_hoe(&self) -> (r: bool)
        ensures
            r == spec_is_hoe(*self),
    {
        match self {
            Item::WoodenHoe | Item::StoneHoe | Item::IronHoe | Item::GoldenHoe | Item::DiamondHoe | Item::NetheriteHoe => true,
            _ => false,
        }
    }

    /// The item is any piece of armor.
    pub fn is_armor(&self) -> (r: bool)
        ensures
            r == spec_is_armor(*self),
    {
        self.is_boots() || self.is_chestplate() || self.is_helmet() || self.is_leggings()
    }

    /// The item is a tool under the catalog's classification.
    pub fn is_tool(&self) -> (r: bool)
        ensures
            r == spec_is_tool(*self),
    {
        self.is_axe() || self.is_pickaxe() || self.is_shovel() || self.is_hoe()
    }

    /// The item loses durability with use.
    pub fn has_durability(&self) -> (r: bool)
        ensures
            r == spec_has_durability(*self),
    {
        match self {
            Item::LeatherHelmet | Item::LeatherChestplate | Item::LeatherLeggings | Item::LeatherBoots | Item::IronHelmet | Item::IronChestplate | Item::IronLeggings | Item::IronBoots | Item::ChainmailHelmet | Item::ChainmailChestplate | Item::ChainmailLeggings | Item::ChainmailBoots | Item::GoldenHelmet | Item::GoldenChestplate | Item::GoldenLeggings | Item::GoldenBoots | Item::DiamondHelmet | Item::DiamondChestplate | Item::DiamondLeggings | Item::DiamondBoots | Item::WoodenSword | Item::StoneSword | Item::IronSword | Item::GoldenSword | Item::DiamondSword | Item::WoodenPickaxe | Item::StonePickaxe | Item::IronPickaxe | Item::GoldenPickaxe | Item::DiamondPickaxe | Item::WoodenAxe | Item::StoneAxe | Item::IronAxe | Item::GoldenAxe | Item::DiamondAxe | Item::WoodenShovel | Item::StoneShovel | Item::IronShovel | Item::GoldenShovel | Item::DiamondShovel | Item::WoodenHoe | Item::StoneHoe | Item::IronHoe | Item::GoldenHoe | Item::DiamondHoe | Item::CarrotOnAStick | Item::FishingRod | Item::FlintAndSteel | Item::Shears | Item::Bow | Item::Elytra | Item::Shield | Item::Trident | Item::TurtleHelmet | Item::Crossbow | Item::NetheriteHelmet | Item::NetheriteChestplate | Item::NetheriteLeggings | Item::NetheriteBoots | Item::NetheriteSword | Item::NetheritePickaxe | Item::NetheriteAxe | Item::NetheriteShovel | Item::NetheriteHoe => true,
            _ => false,
        }
    }

    /// The material whose name prefixes this item's name, if any.
    pub fn prefix_material(&self) -> (r: Option<Material>)
        ensures
            r == spec_prefix_material(*self),
    {
        match self {
            Item::NetheriteHelmet | Item::NetheriteChestplate | Item::NetheriteLeggings | Item::NetheriteBoots | Item::NetheriteSword | Item::NetheritePickaxe | Item::NetheriteAxe | Item::NetheriteShovel | Item::NetheriteHoe => Some(Material::Netherite),
            Item::DiamondHelmet | Item::DiamondChestplate | Item::DiamondLeggings | Item::DiamondBoots | Item::DiamondSword | Item::DiamondPickaxe | Item::DiamondAxe | Item::DiamondShovel | Item::DiamondHoe => Some(Material::Diamond),
            Item::GoldenHelmet | Item::GoldenChestplate | Item::GoldenLeggings | Item::GoldenBoots | Item::GoldenSword | Item::GoldenPickaxe | Item::GoldenAxe | Item::GoldenShovel | Item::GoldenHoe => Some(Material::Golden),
            Item::IronHelmet | Item::IronChestplate | Item::IronLeggings | Item::IronBoots | Item::IronSword | Item::IronPickaxe | Item::IronAxe | Item::IronShovel | Item::IronHoe => Some(Material::Iron),
            Item::ChainmailHelmet | Item::ChainmailChestplate | Item::ChainmailLeggings | Item::ChainmailBoots => Some(Material::Chainmail),
            Item::TurtleHelmet => Some(Material::Turtle),
            Item::LeatherHelmet | Item::LeatherChestplate | Item::LeatherLeggings | Item::LeatherBoots => Some(Material::Leather),
            Item::StoneSword | Item::StonePickaxe | Item::StoneAxe | Item::StoneShovel | Item::StoneHoe => Some(Material::Stone),
            Item::WoodenSword | Item::WoodenPickaxe | Item::WoodenAxe | Item::WoodenShovel | Item::WoodenHoe => Some(Material::Wooden),
            _ => None,
        }
    }

    /// The first material that offers this item, in material order.
    pub fn get_material(&self) -> (r: Option<Material>)
        ensures
            r == spec_prefix_material(*self),
    {
        self.prefix_material()
    }

    /// Base enchantability of this item.
    pub fn get_enchantability(&self) -> (r: i32)
        ensures
            r == spec_enchantability(*self),
            0 <= r <= 25,
    {
        match self {
            Item::GoldenHelmet | Item::GoldenChestplate | Item::GoldenLeggings | Item::GoldenBoots => 25,
            Item::GoldenSword | Item::GoldenPickaxe | Item::GoldenAxe | Item::GoldenShovel | Item::GoldenHoe => 22,
            Item::LeatherHelmet | Item::LeatherChestplate | Item::LeatherLeggings | Item::LeatherBoots | Item::WoodenSword | Item::WoodenPickaxe | Item::WoodenAxe | Item::WoodenShovel | Item::WoodenHoe | Item::NetheriteHelmet | Item::NetheriteChestplate | Item::NetheriteLeggings | Item::NetheriteBoots | Item::NetheriteSword | Item::NetheritePickaxe | Item::NetheriteAxe | Item::NetheriteShovel | Item::NetheriteHoe => 15,
            Item::IronSword | Item::IronPickaxe | Item::IronAxe | Item::IronShovel | Item::IronHoe => 14,
            Item::ChainmailHelmet | Item::ChainmailChestplate | Item::ChainmailLeggings | Item::ChainmailBoots => 12,
            Item::DiamondHelmet | Item::DiamondChestplate | Item::DiamondLeggings | Item::DiamondBoots | Item::DiamondSword | Item::DiamondPickaxe | Item::DiamondAxe | Item::DiamondShovel | Item::DiamondHoe => 10,
            Item::IronHelmet | Item::IronChestplate | Item::IronLeggings | Item::IronBoots | Item::TurtleHelmet => 9,
            Item::StoneSword | Item::StonePickaxe | Item::StoneAxe | Item::StoneShovel | Item::StoneHoe => 5,
            Item::FishingRod | Item::Bow | Item::Book | Item::Trident | Item::Crossbow => 1,
            _ => 0,
        }
    }

    /// The version in which this item appeared.
    pub fn get_introduced_version(&self) -> (r: Version)
        ensures
            r == spec_item_intro(*self),
    {
        match self {
            Item::Elytra | Item::Shield => Version::V1_9,
            Item::Trident | Item::TurtleHelmet => Version::V1_13,
            Item::Crossbow => Version::V1_14,
            Item::NetheriteHelmet | Item::NetheriteChestplate | Item::NetheriteLeggings | Item::NetheriteBoots | Item::NetheriteSword | Item::NetheritePickaxe | Item::NetheriteAxe | Item::NetheriteShovel | Item::NetheriteHoe => Version::V1_16,
            _ => Version::V1_8,
        }
    }
}

/// The enchantments of the catalog.
#[derive(Copy, Clone, PartialEq, Eq, Structural, Debug)]
pub enum Enchantment {
    Protection,
    FireProtection,
    FeatherFalling,
    BlastProtection,
    ProjectileProtection,
    Respiration,
    AquaAffinity,
    Thorns,
    DepthStrider,
    Sharpness,
    Smite,
    BaneOfArthropods,
    Knockback,
    FireAspect,
    Looting,
    Efficiency,
    SilkTouch,
    Unbreaking,
    Fortune,
    Power,
    Punch,
    Flame,
    Infinity,
    LuckOfTheSea,
    Lure,
    FrostWalker,
    Mending,
    BindingCurse,
    VanishingCurse,
    Sweeping,
    Loyalty,
    Impaling,
    Riptide,
    Channeling,
    Multishot,
    QuickCharge,
    Piercing,
}

/// Number of enchantments in the catalog.
pub const ENCH_COUNT: usize = 37;

/// Ordinal of an enchantment in catalog order.
pub open spec fn spec_ench_ord(e: Enchantment) -> int {
    match e {
        Enchantment::Protection => 0,
        Enchantment::FireProtection => 1,
        Enchantment::FeatherFalling => 2,
        Enchantment::BlastProtection => 3,
        Enchantment::ProjectileProtection => 4,
        Enchantment::Respiration => 5,
        Enchantment::AquaAffinity => 6,
        Enchantment::Thorns => 7,
        Enchantment::DepthStrider => 8,
        Enchantment::Sharpness => 9,
        Enchantment::Smite => 10,
        Enchantment::BaneOfArthropods => 11,
        Enchantment::Knockback => 12,
        Enchantment::FireAspect => 13,
        Enchantment::Looting => 14,
        Enchantment::Efficiency => 15,
        Enchantment::SilkTouch => 16,
        Enchantment::Unbreaking => 17,
        Enchantment::Fortune => 18,
        Enchantment::Power => 19,
        Enchantment::Punch => 20,
        Enchantment::Flame => 21,
        Enchantment::Infinity => 22,
        Enchantment::LuckOfTheSea => 23,
        Enchantment::Lure => 24,
        Enchantment::FrostWalker => 25,
        Enchantment::Mending => 26,
        Enchantment::BindingCurse => 27,
        Enchantment::VanishingCurse => 28,
        Enchantment::Sweeping => 29,
        Enchantment::Loyalty => 30,
        Enchantment::Impaling => 31,
        Enchantment::Riptide => 32,
        Enchantment::Channeling => 33,
        Enchantment::Multishot => 34,
        Enchantment::QuickCharge => 35,
        Enchantment::Piercing => 36,
    }
}

/// The enchantment at ordinal `i` of catalog order.
pub open spec fn spec_ench_of(i: int) -> Enchantment {
    if i == 0 {
        Enchantment::Protection
    }     else if i == 1 {
        Enchantment::FireProtection
    }     else if i == 2 {
        Enchantment::FeatherFalling
    }     else if i == 3 {
        Enchantment::BlastProtection
    }     else if i == 4 {
        Enchantment::ProjectileProtection
    }     else if i == 5 {
        Enchantment::Respiration
    }     else if i == 6 {
        Enchantment::AquaAffinity
    }     else if i == 7 {
        Enchantment::Thorns
    }     else if i == 8 {
        Enchantment::DepthStrider
    }     else if i == 9 {
        Enchantment::Sharpness
    }     else if i == 10 {
        Enchantment::Smite
    }     else if i == 11 {
        Enchantment::BaneOfArthropods
    }     else if i == 12 {
        Enchantment::Knockback
    }     else if i == 13 {
        Enchantment::FireAspect
    }     else if i == 14 {
        Enchantment::Looting
    }     else if i == 15 {
        Enchantment::Efficiency
    }     else if i == 16 {
        Enchantment::SilkTouch
    }     else if i == 17 {
        Enchantment::Unbreaking
    }     else if i == 18 {
        Enchantment::Fortune
    }     else if i == 19 {
        Enchantment::Power
    }     else if i == 20 {
        Enchantment::Punch
    }     else if i == 21 {
        Enchantment::Flame
    }     else if i == 22 {
        Enchantment::Infinity
    }     else if i == 23 {
        Enchantment::LuckOfTheSea
    }     else if i == 24 {
        Enchantment::Lure
    }     else if i == 25 {
        Enchantment::FrostWalker
    }     else if i == 26 {
        Enchantment::Mending
    }     else if i == 27 {
        Enchantment::BindingCurse
    }     else if i == 28 {
        Enchantment::VanishingCurse
    }     else if i == 29 {
        Enchantment::Sweeping
    }     else if i == 30 {
        Enchantment::Loyalty
    }     else if i == 31 {
        Enchantment::Impaling
    }     else if i == 32 {
        Enchantment::Riptide
    }     else if i == 33 {
        Enchantment::Channeling
    }     else if i == 34 {
        Enchantment::Multishot
    }     else if i == 35 {
        Enchantment::QuickCharge
    } else {
        Enchantment::Piercing
    }
}

/// The enchantment is treasure-only: it never appears on the table.
pub open spec fn spec_is_treasure(e: Enchantment) -> bool {
    match e {
        Enchantment::FrostWalker | Enchantment::Mending | Enchantment::BindingCurse | Enchantment::VanishingCurse => true,
        _ => false,
    }
}

/// Highest level of an enchantment.
pub open spec fn spec_max_level(e: Enchantment) -> int {
    match e {
        Enchantment::Sharpness | Enchantment::Smite | Enchantment::BaneOfArthropods | Enchantment::Efficiency | Enchantment::Power | Enchantment::Impaling => 5,
        Enchantment::Protection | Enchantment::FireProtection | Enchantment::FeatherFalling | Enchantment::BlastProtection | Enchantment::ProjectileProtection | Enchantment::Piercing => 4,
        Enchantment::Respiration | Enchantment::Thorns | Enchantment::DepthStrider | Enchantment::Looting | Enchantment::Unbreaking | Enchantment::Fortune | Enchantment::LuckOfTheSea | Enchantment::Lure | Enchantment::Sweeping | Enchantment::Loyalty | Enchantment::Riptide | Enchantment::QuickCharge => 3,
        Enchantment::Knockback | Enchantment::FireAspect | Enchantment::Punch | Enchantment::FrostWalker => 2,
        _ => 1,
    }
}

/// Lowest modified level at which level `level` of `e` can appear.
pub open spec fn spec_min_enchantability(e: Enchantment, level: int) -> int {
    match e {
        Enchantment::Protection => -10 + level * 11,
        Enchantment::FireProtection => 2 + level * 8,
        Enchantment::FeatherFalling => -1 + level * 6,
        Enchantment::BlastProtection => -3 + level * 8,
        Enchantment::ProjectileProtection => -3 + level * 6,
        Enchantment::Respiration => level * 10,
        Enchantment::AquaAffinity => 1,
        Enchantment::Thorns => -10 + level * 20,
        Enchantment::DepthStrider => level * 10,
        Enchantment::Sharpness => -10 + level * 11,
        Enchantment::Smite => -3 + level * 8,
        Enchantment::BaneOfArthropods => -3 + level * 8,
        Enchantment::Knockback => -15 + level * 20,
        Enchantment::FireAspect => -10 + level * 20,
        Enchantment::Looting => 6 + level * 9,
        Enchantment::Efficiency => -9 + level * 10,
        Enchantment::SilkTouch => 15,
        Enchantment::Unbreaking => -3 + level * 8,
        Enchantment::Fortune => 6 + level * 9,
        Enchantment::Power => -9 + level * 10,
        Enchantment::Punch => -8 + level * 20,
        Enchantment::Flame => 20,
        Enchantment::Infinity => 20,
        Enchantment::LuckOfTheSea => 6 + level * 9,
        Enchantment::Lure => 6 + level * 9,
        Enchantment::FrostWalker => level * 10,
        Enchantment::Mending => 25,
        Enchantment::BindingCurse => 25,
        Enchantment::VanishingCurse => 25,
        Enchantment::Sweeping => -4 + level * 9,
        Enchantment::Loyalty => 5 + level * 7,
        Enchantment::Impaling => -7 + level * 8,
        Enchantment::Riptide => 10 + level * 7,
        Enchantment::Channeling => 25,
        Enchantment::Multishot => 20,
        Enchantment::QuickCharge => -8 + level * 20,
        Enchantment::Piercing => -9 + level * 10,
    }
}

/// Highest modified level at which level `level` of `e` can appear.
pub open spec fn spec_max_enchantability(e: Enchantment, level: int) -> int {
    match e {
        Enchantment::Protection => 1 + level * 11,
        Enchantment::FireProtection => 10 + level * 8,
        Enchantment::FeatherFalling => 5 + level * 6,
        Enchantment::BlastProtection => 5 + level * 8,
        Enchantment::ProjectileProtection => 3 + level * 6,
        Enchantment::Respiration => 30 + level * 10,
        Enchantment::AquaAffinity => 41,
        Enchantment::Thorns => 40 + level * 20,
        Enchantment::DepthStrider => 15 + level * 10,
        Enchantment::Sharpness => 10 + level * 11,
        Enchantment::Smite => 17 + level * 8,
        Enchantment::BaneOfArthropods => 17 + level * 8,
        Enchantment::Knockback => 35 + level * 20,
        Enchantment::FireAspect => 40 + level * 20,
        Enchantment::Looting => 56 + level * 9,
        Enchantment::Efficiency => 50 + level * 10,
        Enchantment::SilkTouch => 65,
        Enchantment::Unbreaking => 47 + level * 8,
        Enchantment::Fortune => 56 + level * 9,
        Enchantment::Power => 6 + level * 10,
        Enchantment::Punch => 17 + level * 20,
        Enchantment::Flame => 50,
        Enchantment::Infinity => 50,
        Enchantment::LuckOfTheSea => 56 + level * 9,
        Enchantment::Lure => 56 + level * 9,
        Enchantment::FrostWalker => 15 + level * 10,
        Enchantment::Mending => 75,
        Enchantment::BindingCurse => 50,
        Enchantment::VanishingCurse => 50,
        Enchantment::Sweeping => 11 + level * 9,
        Enchantment::Loyalty => 50,
        Enchantment::Impaling => 13 + level * 8,
        Enchantment::Riptide => 50,
        Enchantment::Channeling => 50,
        Enchantment::Multishot => 50,
        Enchantment::QuickCharge => 50,
        Enchantment::Piercing => 50,
    }
}

/// Relative weight of an enchantment in the random pick; one version
/// rescales the weights.
pub open spec fn spec_weight(e: Enchantment, v: Version) -> int {
    match e {
        Enchantment::Protection | Enchantment::Sharpness | Enchantment::Efficiency | Enchantment::Power | Enchantment::Piercing => if v == Version::V1_14 {
            30
        } else {
            10
        },
        Enchantment::FireProtection | Enchantment::FeatherFalling | Enchantment::ProjectileProtection | Enchantment::Smite | Enchantment::BaneOfArthropods | Enchantment::Knockback | Enchantment::Unbreaking | Enchantment::Loyalty | Enchantment::QuickCharge => if v == Version::V1_14 {
            10
        } else {
            5
        },
        Enchantment::BlastProtection | Enchantment::Respiration | Enchantment::AquaAffinity | Enchantment::DepthStrider | Enchantment::FireAspect | Enchantment::Looting | Enchantment::Fortune | Enchantment::Punch | Enchantment::Flame | Enchantment::LuckOfTheSea | Enchantment::Lure | Enchantment::FrostWalker | Enchantment::Mending | Enchantment::Sweeping | Enchantment::Impaling | Enchantment::Riptide | Enchantment::Multishot => if v == Version::V1_14 {
            3
        } else {
            2
        },
        _ => 1,
    }
}

/// The version in which an enchantment appeared.
pub open spec fn spec_ench_intro(e: Enchantment) -> Version {
    match e {
        Enchantment::FrostWalker | Enchantment::Mending => Version::V1_9,
        Enchantment::BindingCurse | Enchantment::VanishingCurse => Version::V1_11,
        Enchantment::Sweeping => Version::V1_11_1,
        Enchantment::Loyalty | Enchantment::Impaling | Enchantment::Riptide | Enchantment::Channeling => Version::V1_13,
        Enchantment::Multishot | Enchantment::QuickCharge | Enchantment::Piercing => Version::V1_14,
        _ => Version::V1_8,
    }
}

/// Enchantment `e` can be applied to `item`; `primary` restricts the test
/// to what the table itself offers.
pub open spec fn spec_can_apply(e: Enchantment, item: Item, primary: bool) -> bool {
    if item == Item::Book {
        true
    } else {
        match e {
            Enchantment::Protection | Enchantment::FireProtection | Enchantment::BlastProtection
                | Enchantment::ProjectileProtection => spec_is_armor(item),
            Enchantment::Thorns => if primary {
                spec_is_chestplate(item)
            } else {
                spec_is_armor(item)
            },
            Enchantment::FeatherFalling | Enchantment::DepthStrider | Enchantment::FrostWalker
                => spec_is_boots(item),
            Enchantment::Respiration | Enchantment::AquaAffinity => spec_is_helmet(item),
            Enchantment::BindingCurse => spec_is_armor(item) || item == Item::Pumpkin || item
                == Item::Elytra || item == Item::Skull,
            Enchantment::Sharpness | Enchantment::Smite | Enchantment::BaneOfArthropods
                => spec_is_sword(item) || (!primary && spec_is_axe(item)),
            Enchantment::Knockback | Enchantment::FireAspect | Enchantment::Looting
                | Enchantment::Sweeping => spec_is_sword(item),
            Enchantment::Efficiency => spec_is_tool(item) || (!primary && item == Item::Shears),
            Enchantment::SilkTouch | Enchantment::Fortune => spec_is_tool(item),
            Enchantment::Power | Enchantment::Punch | Enchantment::Flame | Enchantment::Infinity
                => item == Item::Bow,
            Enchantment::LuckOfTheSea | Enchantment::Lure => item == Item::FishingRod,
            Enchantment::Unbreaking | Enchantment::Mending => spec_has_durability(item),
            Enchantment::VanishingCurse => spec_has_durability(item) || item == Item::Pumpkin
                || item == Item::Skull,
            Enchantment::Loyalty | Enchantment::Impaling | Enchantment::Riptide
                | Enchantment::Channeling => item == Item::Trident,
            Enchantment::Multishot | Enchantment::QuickCharge | Enchantment::Piercing => item
                == Item::Crossbow,
        }
    }
}

/// One direction of the incompatibility table.
pub open spec fn spec_incompatible_one_way(a: Enchantment, b: Enchantment, v: Version) -> bool {
    ||| a == b
    ||| (spec_version_ord(v) > spec_version_ord(Version::V1_11) && a == Enchantment::Infinity
        && b == Enchantment::Mending)
    ||| (a == Enchantment::Sharpness && b == Enchantment::Smite)
    ||| (a == Enchantment::Sharpness && b == Enchantment::BaneOfArthropods)
    ||| (a == Enchantment::Smite && b == Enchantment::BaneOfArthropods)
    ||| (a == Enchantment::FrostWalker && b == Enchantment::DepthStrider)
    ||| (a == Enchantment::SilkTouch && b == Enchantment::Looting)
    ||| (a == Enchantment::SilkTouch && b == Enchantment::Fortune)
    ||| (a == Enchantment::SilkTouch && b == Enchantment::LuckOfTheSea)
    ||| (a == Enchantment::Riptide && b == Enchantment::Loyalty)
    ||| (a == Enchantment::Riptide && b == Enchantment::Channeling)
    ||| (a == Enchantment::Multishot && b == Enchantment::Piercing)
    ||| (v != Version::V1_14 && a == Enchantment::Protection && b == Enchantment::FireProtection)
    ||| (v != Version::V1_14 && a == Enchantment::Protection && b == Enchantment::BlastProtection)
    ||| (v != Version::V1_14 && a == Enchantment::Protection && b
        == Enchantment::ProjectileProtection)
    ||| (v != Version::V1_14 && a == Enchantment::BlastProtection && b
        == Enchantment::FireProtection)
    ||| (v != Version::V1_14 && a == Enchantment::BlastProtection && b
        == Enchantment::ProjectileProtection)
    ||| (v != Version::V1_14 && a == Enchantment::FireProtection && b
        == Enchantment::ProjectileProtection)
}

/// Two enchantments can appear together under version `v`.
pub open spec fn spec_compatible(a: Enchantment, b: Enchantment, v: Version) -> bool {
    !(spec_incompatible_one_way(a, b, v) || spec_incompatible_one_way(b, a, v))
}

/// Experience points needed to pay `num_levels` levels starting from
/// `start_level`, summed level by level.
pub open spec fn spec_levels_to_xp(start_level: int, num_levels: int) -> int
    decreases num_levels,
{
    if num_levels <= 0 {
        0
    } else {
        spec_level_cost(start_level) + spec_levels_to_xp(start_level - 1, num_levels - 1)
    }
}

/// Experience points between level `level - 1` and `level`.
pub open spec fn spec_level_cost(level: int) -> int {
    if level > 30 {
        9 * (level - 1) - 158
    } else if level > 15 {
        5 * (level - 1) - 38
    } else {
        2 * (level - 1) + 7
    }
}

impl Enchantment {
    /// Ordinal of this enchantment in catalog order.
    pub fn index(&self) -> (r: usize)
        ensures
            r == spec_ench_ord(*self),
            r < ENCH_COUNT,
    {
        match self {
            Enchantment::Protection => 0,
            Enchantment::FireProtection => 1,
            Enchantment::FeatherFalling => 2,
            Enchantment::BlastProtection => 3,
            Enchantment::ProjectileProtection => 4,
            Enchantment::Respiration => 5,
            Enchantment::AquaAffinity => 6,
            Enchantment::Thorns => 7,
            Enchantment::DepthStrider => 8,
            Enchantment::Sharpness => 9,
            Enchantment::Smite => 10,
            Enchantment::BaneOfArthropods => 11,
            Enchantment::Knockback => 12,
            Enchantment::FireAspect => 13,
            Enchantment::Looting => 14,
            Enchantment::Efficiency => 15,
            Enchantment::SilkTouch => 16,
            Enchantment::Unbreaking => 17,
            Enchantment::Fortune => 18,
            Enchantment::Power => 19,
            Enchantment::Punch => 20,
            Enchantment::Flame => 21,
            Enchantment::Infinity => 22,
            Enchantment::LuckOfTheSea => 23,
            Enchantment::Lure => 24,
            Enchantment::FrostWalker => 25,
            Enchantment::Mending => 26,
            Enchantment::BindingCurse => 27,
            Enchantment::VanishingCurse => 28,
            Enchantment::Sweeping => 29,
            Enchantment::Loyalty => 30,
            Enchantment::Impaling => 31,
            Enchantment::Riptide => 32,
            Enchantment::Channeling => 33,
            Enchantment::Multishot => 34,
            Enchantment::QuickCharge => 35,
            Enchantment::Piercing => 36,
        }
    }

    /// The enchantment at ordinal `i` of catalog order.
    pub fn from_index(i: usize) -> (r: Self)
        requires
            i < ENCH_COUNT,
        ensures
            r == spec_ench_of(i as int),
            spec_ench_ord(r) == i,
    {
        if i == 0 {
            Enchantment::Protection
        }         else if i == 1 {
            Enchantment::FireProtection
        }         else if i == 2 {
            Enchantment::FeatherFalling
        }         else if i == 3 {
            Enchantment::BlastProtection
        }         else if i == 4 {
            Enchantment::ProjectileProtection
        }         else if i == 5 {
            Enchantment::Respiration
        }         else if i == 6 {
            Enchantment::AquaAffinity
        }         else if i == 7 {
            Enchantment::Thorns
        }         else if i == 8 {
            Enchantment::DepthStrider
        }         else if i == 9 {
            Enchantment::Sharpness
        }         else if i == 10 {
            Enchantment::Smite
        }         else if i == 11 {
            Enchantment::BaneOfArthropods
        }         else if i == 12 {
            Enchantment::Knockback
        }         else if i == 13 {
            Enchantment::FireAspect
        }         else if i == 14 {
            Enchantment::Looting
        }         else if i == 15 {
            Enchantment::Efficiency
        }         else if i == 16 {
            Enchantment::SilkTouch
        }         else if i == 17 {
            Enchantment::Unbreaking
        }         else if i == 18 {
            Enchantment::Fortune
        }         else if i == 19 {
            Enchantment::Power
        }         else if i == 20 {
            Enchantment::Punch
        }         else if i == 21 {
            Enchantment::Flame
        }         else if i == 22 {
            Enchantment::Infinity
        }         else if i == 23 {
            Enchantment::LuckOfTheSea
        }         else if i == 24 {
            Enchantment::Lure
        }         else if i == 25 {
            Enchantment::FrostWalker
        }         else if i == 26 {
            Enchantment::Mending
        }         else if i == 27 {
            Enchantment::BindingCurse
        }         else if i == 28 {
            Enchantment::VanishingCurse
        }         else if i == 29 {
            Enchantment::Sweeping
        }         else if i == 30 {
            Enchantment::Loyalty
        }         else if i == 31 {
            Enchantment::Impaling
        }         else if i == 32 {
            Enchantment::Riptide
        }         else if i == 33 {
            Enchantment::Channeling
        }         else if i == 34 {
            Enchantment::Multishot
        }         else if i == 35 {
            Enchantment::QuickCharge
        } else {
            Enchantment::Piercing
        }
    }

    /// Experience points needed to pay `num_levels` levels starting from
    /// `start_level`. The start bound is what keeps the 32-bit sum in
    /// range; a non-positive span costs nothing.
    pub fn levels_to_xp(start_level: i32, num_levels: i32) -> (r: i32)
        requires
            0 <= start_level <= 20000,
            num_levels <= start_level + 1,
        ensures
            r == spec_levels_to_xp(start_level as int, num_levels as int),
    {
        if num_levels <= 0 {
            return 0;
        }
        let end_level: i64 = start_level as i64 - num_levels as i64 + 1;
        let mut amt: i64 = 0;
        let mut level: i64 = start_level as i64;
        while level >= end_level
            invariant
                end_level == start_level - num_levels + 1,
                1 <= num_levels,
                0 <= end_level,
                end_level - 1 <= level <= start_level <= 20000,
                0 <= start_level,
                amt == spec_levels_to_xp(start_level as int, start_level - level),
                0 <= amt <= (start_level - level) * 189000,
            decreases level - end_level + 1,
        {
            if level > 30 {
                amt = amt + (9 * (level - 1)) - 158;
            } else if level > 15 {
                amt = amt + (5 * (level - 1)) - 38;
            } else {
                amt = amt + (2 * (level - 1)) + 7;
            }
            proof {
                lemma_levels_to_xp_peel(start_level as int, start_level - level + 1);
            }
            level = level - 1;
        }
        proof {
            lemma_levels_to_xp_bounds(start_level as int, start_level - level as int);
            assert(5 * (start_level as int) * (start_level as int) + 2 * start_level + 5
                <= 2000040005) by (nonlinear_arith)
                requires
                    0 <= start_level <= 20000,
            {}
        }
        amt as i32
    }

    /// The enchantment is treasure-only.
    pub fn is_treasure(&self) -> (r: bool)
        ensures
            r == spec_is_treasure(*self),
    {
        match self {
            Enchantment::FrostWalker | Enchantment::Mending | Enchantment::BindingCurse | Enchantment::VanishingCurse => true,
            _ => false,
        }
    }

    /// Highest level of this enchantment.
    pub fn get_max_level(&self) -> (r: i32)
        ensures
            r == spec_max_level(*self),
            1 <= r <= 5,
    {
        match self {
            Enchantment::Sharpness | Enchantment::Smite | Enchantment::BaneOfArthropods | Enchantment::Efficiency | Enchantment::Power | Enchantment::Impaling => 5,
            Enchantment::Protection | Enchantment::FireProtection | Enchantment::FeatherFalling | Enchantment::BlastProtection | Enchantment::ProjectileProtection | Enchantment::Piercing => 4,
            Enchantment::Respiration | Enchantment::Thorns | Enchantment::DepthStrider | Enchantment::Looting | Enchantment::Unbreaking | Enchantment::Fortune | Enchantment::LuckOfTheSea | Enchantment::Lure | Enchantment::Sweeping | Enchantment::Loyalty | Enchantment::Riptide | Enchantment::QuickCharge => 3,
            Enchantment::Knockback | Enchantment::FireAspect | Enchantment::Punch | Enchantment::FrostWalker => 2,
            _ => 1,
        }
    }

    /// Lowest modified level at which level `level` of this enchantment
    /// can appear.
    pub fn get_min_enchantability(&self, level: i32) -> (r: i32)
        requires
            -0x100_0000 <= level <= 0x100_0000,
        ensures
            r == spec_min_enchantability(*self, level as int),
    {
        match self {
            Enchantment::Protection => -10 + level * 11,
            Enchantment::FireProtection => 2 + level * 8,
            Enchantment::FeatherFalling => -1 + level * 6,
            Enchantment::BlastProtection => -3 + level * 8,
            Enchantment::ProjectileProtection => -3 + level * 6,
            Enchantment::Respiration => level * 10,
            Enchantment::AquaAffinity => 1,
            Enchantment::Thorns => -10 + level * 20,
            Enchantment::DepthStrider => level * 10,
            Enchantment::Sharpness => -10 + level * 11,
            Enchantment::Smite => -3 + level * 8,
            Enchantment::BaneOfArthropods => -3 + level * 8,
            Enchantment::Knockback => -15 + level * 20,
            Enchantment::FireAspect => -10 + level * 20,
            Enchantment::Looting => 6 + level * 9,
            Enchantment::Efficiency => -9 + level * 10,
            Enchantment::SilkTouch => 15,
            Enchantment::Unbreaking => -3 + level * 8,
            Enchantment::Fortune => 6 + level * 9,
            Enchantment::Power => -9 + level * 10,
            Enchantment::Punch => -8 + level * 20,
            Enchantment::Flame => 20,
            Enchantment::Infinity => 20,
            Enchantment::LuckOfTheSea => 6 + level * 9,
            Enchantment::Lure => 6 + level * 9,
            Enchantment::FrostWalker => level * 10,
            Enchantment::Mending => 25,
            Enchantment::BindingCurse => 25,
            Enchantment::VanishingCurse => 25,
            Enchantment::Sweeping => -4 + level * 9,
            Enchantment::Loyalty => 5 + level * 7,
            Enchantment::Impaling => -7 + level * 8,
            Enchantment::Riptide => 10 + level * 7,
            Enchantment::Channeling => 25,
            Enchantment::Multishot => 20,
            Enchantment::QuickCharge => -8 + level * 20,
            Enchantment::Piercing => -9 + level * 10,
        }
    }

    /// Highest modified level at which level `level` of this enchantment
    /// can appear.
    pub fn get_max_enchantability(&self, level: i32) -> (r: i32)
        requires
            -0x100_0000 <= level <= 0x100_0000,
        ensures
            r == spec_max_enchantability(*self, level as int),
    {
        match self {
            Enchantment::Protection => 1 + level * 11,
            Enchantment::FireProtection => 10 + level * 8,
            Enchantment::FeatherFalling => 5 + level * 6,
            Enchantment::BlastProtection => 5 + level * 8,
            Enchantment::ProjectileProtection => 3 + level * 6,
            Enchantment::Respiration => 30 + level * 10,
            Enchantment::AquaAffinity => 41,
            Enchantment::Thorns => 40 + level * 20,
            Enchantment::DepthStrider => 15 + level * 10,
            Enchantment::Sharpness => 10 + level * 11,
            Enchantment::Smite => 17 + level * 8,
            Enchantment::BaneOfArthropods => 17 + level * 8,
            Enchantment::Knockback => 35 + level * 20,
            Enchantment::FireAspect => 40 + level * 20,
            Enchantment::Looting => 56 + level * 9,
            Enchantment::Efficiency => 50 + level * 10,
            Enchantment::SilkTouch => 65,
            Enchantment::Unbreaking => 47 + level * 8,
            Enchantment::Fortune => 56 + level * 9,
            Enchantment::Power => 6 + level * 10,
            Enchantment::Punch => 17 + level * 20,
            Enchantment::Flame => 50,
            Enchantment::Infinity => 50,
            Enchantment::LuckOfTheSea => 56 + level * 9,
            Enchantment::Lure => 56 + level * 9,
            Enchantment::FrostWalker => 15 + level * 10,
            Enchantment::Mending => 75,
            Enchantment::BindingCurse => 50,
            Enchantment::VanishingCurse => 50,
            Enchantment::Sweeping => 11 + level * 9,
            Enchantment::Loyalty => 50,
            Enchantment::Impaling => 13 + level * 8,
            Enchantment::Riptide => 50,
            Enchantment::Channeling => 50,
            Enchantment::Multishot => 50,
            Enchantment::QuickCharge => 50,
            Enchantment::Piercing => 50,
        }
    }

    /// Relative weight of this enchantment in the random pick.
    pub fn get_weight(&self, version: Version) -> (r: i32)
        ensures
            r == spec_weight(*self, version),
            1 <= r <= 30,
    {
        match self {
            Enchantment::Protection | Enchantment::Sharpness | Enchantment::Efficiency | Enchantment::Power | Enchantment::Piercing => if version == Version::V1_14 {
                30
            } else {
                10
            },
            Enchantment::FireProtection | Enchantment::FeatherFalling | Enchantment::ProjectileProtection | Enchantment::Smite | Enchantment::BaneOfArthropods | Enchantment::Knockback | Enchantment::Unbreaking | Enchantment::Loyalty | Enchantment::QuickCharge => if version == Version::V1_14 {
                10
            } else {
                5
            },
            Enchantment::BlastProtection | Enchantment::Respiration | Enchantment::AquaAffinity | Enchantment::DepthStrider | Enchantment::FireAspect | Enchantment::Looting | Enchantment::Fortune | Enchantment::Punch | Enchantment::Flame | Enchantment::LuckOfTheSea | Enchantment::Lure | Enchantment::FrostWalker | Enchantment::Mending | Enchantment::Sweeping | Enchantment::Impaling | Enchantment::Riptide | Enchantment::Multishot => if version == Version::V1_14 {
                3
            } else {
                2
            },
            _ => 1,
        }
    }

    /// The version in which this enchantment appeared.
    pub fn get_introduced_version(&self) -> (r: Version)
        ensures
            r == spec_ench_intro(*self),
    {
        match self {
            Enchantment::FrostWalker | Enchantment::Mending => Version::V1_9,
            Enchantment::BindingCurse | Enchantment::VanishingCurse => Version::V1_11,
            Enchantment::Sweeping => Version::V1_11_1,
            Enchantment::Loyalty | Enchantment::Impaling | Enchantment::Riptide | Enchantment::Channeling => Version::V1_13,
            Enchantment::Multishot | Enchantment::QuickCharge | Enchantment::Piercing => Version::V1_14,
            _ => Version::V1_8,
        }
    }

    /// This enchantment can be applied to `item`.
    pub fn can_apply(&self, item: Item, primary: bool) -> (r: bool)
        ensures
            r == spec_can_apply(*self, item, primary),
    {
        if matches!(item, Item::Book) {
            return true;
        }
        match self {
            Enchantment::Protection | Enchantment::FireProtection | Enchantment::BlastProtection
                | Enchantment::ProjectileProtection => item.is_armor(),
            Enchantment::Thorns => if primary {
                item.is_chestplate()
            } else {
                item.is_armor()
            },
            Enchantment::FeatherFalling | Enchantment::DepthStrider | Enchantment::FrostWalker
                => item.is_boots(),
            Enchantment::Respiration | Enchantment::AquaAffinity => item.is_helmet(),
            Enchantment::BindingCurse => item.is_armor() || matches!(item, Item::Pumpkin)
                || matches!(item, Item::Elytra) || matches!(item, Item::Skull),
            Enchantment::Sharpness | Enchantment::Smite | Enchantment::BaneOfArthropods
                => item.is_sword() || (!primary && item.is_axe()),
            Enchantment::Knockback | Enchantment::FireAspect | Enchantment::Looting
                | Enchantment::Sweeping => item.is_sword(),
            Enchantment::Efficiency => item.is_tool() || (!primary && matches!(item, Item::Shears)),
            Enchantment::SilkTouch | Enchantment::Fortune => item.is_tool(),
            Enchantment::Power | Enchantment::Punch | Enchantment::Flame | Enchantment::Infinity
                => matches!(item, Item::Bow),
            Enchantment::LuckOfTheSea | Enchantment::Lure => matches!(item, Item::FishingRod),
            Enchantment::Unbreaking | Enchantment::Mending => item.has_durability(),
            Enchantment::VanishingCurse => item.has_durability() || matches!(item, Item::Pumpkin)
                || matches!(item, Item::Skull),
            Enchantment::Loyalty | Enchantment::Impaling | Enchantment::Riptide
                | Enchantment::Channeling => matches!(item, Item::Trident),
            Enchantment::Multishot | Enchantment::QuickCharge | Enchantment::Piercing
                => matches!(item, Item::Crossbow),
        }
    }

    /// This enchantment can appear together with `ench` under `version`.
    pub fn is_compatible_with(&self, ench: Enchantment, version: Version) -> (r: bool)
        ensures
            r == spec_compatible(*self, ench, version),
    {
        !(Self::incompatible_one_way(*self, ench, version) || Self::incompatible_one_way(
            ench,
            *self,
            version,
        ))
    }

    fn incompatible_one_way(a: Enchantment, b: Enchantment, v: Version) -> (r: bool)
        ensures
            r == spec_incompatible_one_way(a, b, v),
    {
        if a == b {
            return true;
        }
        if v.after(Version::V1_11) && matches!(a, Enchantment::Infinity) && matches!(
            b,
            Enchantment::Mending,
        ) {
            return true;
        }
        let pair = match (a, b) {
            (Enchantment::Sharpness, Enchantment::Smite) => true,
            (Enchantment::Sharpness, Enchantment::BaneOfArthropods) => true,
            (Enchantment::Smite, Enchantment::BaneOfArthropods) => true,
            (Enchantment::FrostWalker, Enchantment::DepthStrider) => true,
            (Enchantment::SilkTouch, Enchantment::Looting) => true,
            (Enchantment::SilkTouch, Enchantment::Fortune) => true,
            (Enchantment::SilkTouch, Enchantment::LuckOfTheSea) => true,
            (Enchantment::Riptide, Enchantment::Loyalty) => true,
            (Enchantment::Riptide, Enchantment::Channeling) => true,
            (Enchantment::Multishot, Enchantment::Piercing) => true,
            _ => false,
        };
        if pair {
            return true;
        }
        if version_is_not_14(v) {
            match (a, b) {
                (Enchantment::Protection, Enchantment::FireProtection) => true,
                (Enchantment::Protection, Enchantment::BlastProtection) => true,
                (Enchantment::Protection, Enchantment::ProjectileProtection) => true,
                (Enchantment::BlastProtection, Enchantment::FireProtection) => true,
                (Enchantment::BlastProtection, Enchantment::ProjectileProtection) => true,
                (Enchantment::FireProtection, Enchantment::ProjectileProtection) => true,
                _ => false,
            }
        } else {
            false
        }
    }
}

fn version_is_not_14(v: Version) -> (r: bool)
    ensures
        r == (v != Version::V1_14),
{
    !matches!(v, Version::V1_14)
}

/// Peeling one level off the cost sum.
proof fn lemma_levels_to_xp_peel(start: int, n: int)
    requires
        n >= 1,
    ensures
        spec_levels_to_xp(start, n) == spec_levels_to_xp(start, n - 1) + spec_level_cost(
            start - n + 1,
        ),
    decreases n,
{
    assert(spec_levels_to_xp(start, n) == spec_level_cost(start) + spec_levels_to_xp(
        start - 1,
        n - 1,
    ));
    if n > 1 {
        lemma_levels_to_xp_peel(start - 1, n - 1);
        assert(spec_levels_to_xp(start, n - 1) == spec_level_cost(start) + spec_levels_to_xp(
            start - 1,
            n - 2,
        ));
    } else {
        assert(spec_levels_to_xp(start - 1, 0) == 0);
        assert(spec_levels_to_xp(start, 0) == 0);
    }
}

/// Over non-negative levels the cost sum is non-negative and at most
/// quadratic in the start level: each level costs at least 5 and at most
/// `10 * start - 3` experience points.
proof fn lemma_levels_to_xp_bounds(start: int, n: int)
    requires
        0 <= start,
        n <= start + 1,
    ensures
        0 <= spec_levels_to_xp(start, n) <= 5 * start * start + 2 * start + 5,
    decreases start + 1,
{
    if n <= 0 {
        assert(spec_levels_to_xp(start, n) == 0);
        assert(0 <= 5 * start * start + 2 * start + 5) by (nonlinear_arith)
            requires
                start >= 0,
        {}
    } else if start == 0 {
        assert(spec_levels_to_xp(0, n) == spec_level_cost(0) + spec_levels_to_xp(-1, n - 1));
        assert(spec_levels_to_xp(-1, n - 1) == 0);
    } else {
        lemma_levels_to_xp_bounds(start - 1, n - 1);
        assert(spec_levels_to_xp(start, n) == spec_level_cost(start) + spec_levels_to_xp(
            start - 1,
            n - 1,
        ));
        assert(5 <= spec_level_cost(start) <= 10 * start - 3);
        assert((5 * (start - 1) * (start - 1) + 2 * (start - 1) + 5) + (10 * start - 3) == 5 * start
            * start + 2 * start + 5) by (nonlinear_arith);
    }
}

} // verus!
