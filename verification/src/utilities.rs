//! Catalog queries bundled for a hosting application: introduction
//! versions, table maxima, compatibility and per-material item sets, all
//! over plain values.

use vstd::prelude::*;
use crate::catalog::{
    Item, Material, Version, Enchantment, spec_material_intro, spec_item_intro, spec_ench_intro,
    spec_compatible, spec_is_treasure, spec_can_apply, spec_material_items, spec_item_ord,
    SET_MATERIAL,
};
use crate::enchant::spec_max_level_in_table;

verus! {

/// Stateless catalog queries for a hosting application.
pub struct Utilities;

impl Utilities {
    /// The version in which the material's first item appeared.
    pub fn material_introduced_version(mat: Material) -> (r: Version)
        ensures
            r == spec_material_intro(mat),
    {
        mat.get_introduced_version()
    }

    /// The version in which the item appeared.
    pub fn item_introduced_version(item: Item) -> (r: Version)
        ensures
            r == spec_item_intro(item),
    {
        item.get_introduced_version()
    }

    /// The version in which the enchantment appeared.
    pub fn enchantment_introduced_version(ench: Enchantment) -> (r: Version)
        ensures
            r == spec_ench_intro(ench),
    {
        ench.get_introduced_version()
    }

    /// The highest level of `ench` an enchanting table can show on
    /// `item`.
    pub fn get_max_level_in_table(ench: Enchantment, item: Item) -> (r: i32)
        ensures
            r == spec_max_level_in_table(ench, item),
    {
        ench.get_max_level_in_table(item)
    }

    /// The two enchantments can appear together under `version`.
    pub fn are_enchantments_compatible(ench1: Enchantment, ench2: Enchantment, version: Version) -> (r:
        bool)
        ensures
            r == spec_compatible(ench1, ench2, version),
    {
        ench1.is_compatible_with(ench2, version)
    }

    /// The enchantment is treasure-only.
    pub fn is_treasure(ench: Enchantment) -> (r: bool)
        ensures
            r == spec_is_treasure(ench),
    {
        ench.is_treasure()
    }

    /// The enchantment can be applied to `item` through a table.
    pub fn can_apply(ench: Enchantment, item: Item) -> (r: bool)
        ensures
            r == spec_can_apply(ench, item, false),
    {
        ench.can_apply(item, false)
    }

    /// The material's nine item slots, as catalog ordinals.
    pub fn get_items(material: Material) -> (r: Vec<u8>)
        ensures
            r@.len() == SET_MATERIAL,
            forall|i: int|
                0 <= i < SET_MATERIAL ==> r@[i] == spec_item_ord(spec_material_items(material)[i]),
    {
        let items = material.get_items();
        let mut out: Vec<u8> = Vec::new();
        let mut i: usize = 0;
        while i < items.len()
            invariant
                i <= items@.len() == SET_MATERIAL,
                items@ == spec_material_items(material),
                out@.len() == i,
                forall|k: int|
                    0 <= k < i ==> out@[k] == spec_item_ord(spec_material_items(material)[k]),
            decreases items@.len() - i,
        {
            let idx = items[i].index();
            out.push(idx as u8);
            i = i + 1;
        }
        out
    }
}

} // verus!
