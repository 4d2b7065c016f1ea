//! The state reconstructor and the forward simulation engine.
//!
//! `Manipulator::new` recovers the full 48-bit hidden generator state from
//! two partial 32-bit observations one step apart (a meet-in-the-middle
//! scan over the unknown low 16 bits). `simulate` then searches the
//! cheapest sequence of preparatory actions whose enchanting outcome
//! satisfies the caller's wish list, and `update_seed` commits the
//! resulting state transition.

use vstd::prelude::*;
use vstd::arithmetic::div_mod::lemma_add_mod_noop;
use crate::rng::{SimpleRandom, lcg_next, lcg_iter, lcg_advance, seed_init, lemma_lcg_iter_add};
use crate::catalog::{Item, Version, Enchantment, spec_item_ord, ITEM_COUNT};
use crate::enchant::{EnchantmentInstance, spec_table_enchantments, spec_table_level};
use crate::rng;

verus! {

/// One generator candidate of the meet-in-the-middle scan: the 48-bit
/// state `seed1 * 2^16 + low` advanced one step, before masking.
pub open spec fn spec_mitm_part(seed1: int, low: int) -> int {
    ((seed1 * 0x1_0000 + low) * 0x5DEECE66D + 0xB) % 0x1_0000_0000_0000_0000
}

/// The candidate's upper 32 bits (within the 48-bit state) equal the
/// second observation.
pub open spec fn spec_mitm_found(seed1: int, seed2: int, low: int) -> bool {
    (spec_mitm_part(seed1, low) % 0x1_0000_0000_0000) / 0x1_0000 == seed2
}

/// The scan from `low` upwards: the first matching candidate's full
/// masked 48-bit state, if any low value matches.
#[verifier::opaque]
pub open spec fn spec_search_low(seed1: int, seed2: int, low: int) -> Option<int>
    decreases 0x1_0000 - low,
{
    if low >= 0x1_0000 {
        None
    } else if spec_mitm_found(seed1, seed2, low) {
        Some(spec_mitm_part(seed1, low) % 0x1_0000_0000_0000)
    } else {
        spec_search_low(seed1, seed2, low + 1)
    }
}

/// The hidden state recovered from two partial observations, if the scan
/// finds one.
pub open spec fn spec_recover(seed1: int, seed2: int) -> Option<int> {
    spec_search_low(seed1, seed2, 0)
}

/// One wish entry holds of an outcome list: an entry wishing level `-1`
/// must not appear at all; any other entry must first appear at a level
/// at least the wished one.
pub open spec fn spec_wish_entry_ok(w: EnchantmentInstance, enchs: Seq<EnchantmentInstance>) -> bool {
    if w.level == -1 {
        !spec_contains_ench(enchs, w.enchantment)
    } else {
        let i = spec_first_match(enchs, w.enchantment);
        i < enchs.len() && w.level <= enchs[i].level
    }
}

/// Some entry of the list carries enchantment `e`.
pub open spec fn spec_contains_ench(enchs: Seq<EnchantmentInstance>, e: Enchantment) -> bool {
    exists|i: int| 0 <= i < enchs.len() && enchs[i].enchantment == e
}

/// Index of the first entry carrying `e`, or the length when none does.
pub open spec fn spec_first_match(enchs: Seq<EnchantmentInstance>, e: Enchantment) -> int
    decreases enchs.len(),
{
    if enchs.len() == 0 {
        0
    } else if enchs[0].enchantment == e {
        0
    } else {
        1 + spec_first_match(enchs.drop_first(), e)
    }
}

/// The whole wish list holds of an outcome list.
pub open spec fn spec_wish_ok(
    wishes: Seq<EnchantmentInstance>,
    enchs: Seq<EnchantmentInstance>,
) -> bool {
    forall|k: int| 0 <= k < wishes.len() ==> spec_wish_entry_ok(wishes[k], enchs)
}

/// The three slot levels derived from table seed `xp` at `sh` shelves,
/// each zeroed when it falls below one more than its slot index.
#[verifier::opaque]
pub open spec fn spec_slot_levels(xp: int, sh: int, item: Item) -> (int, int, int) {
    let s0 = seed_init(xp as i64);
    let (l0, s1) = spec_table_level(s0, 0, sh, item);
    let (l1, s2) = spec_table_level(s1, 1, sh, item);
    let (l2, _s3) = spec_table_level(s2, 2, sh, item);
    (
        if l0 < 1 {
            0
        } else {
            l0
        },
        if l1 < 2 {
            0
        } else {
            l1
        },
        if l2 < 3 {
            0
        } else {
            l2
        },
    )
}

/// The 32-bit table seed reinterpreted as a signed value.
pub open spec fn spec_xp_i32(xp: int) -> i32 {
    if xp >= 0x8000_0000 {
        (xp - 0x1_0000_0000) as i32
    } else {
        xp as i32
    }
}

/// Table slot `j` satisfies the wish list at level `lv`: the slot shows
/// a level, the player can afford it, and the slot's outcome meets every
/// wish entry.
#[verifier::opaque]
pub open spec fn spec_slot_ok(
    xp: int,
    lv: int,
    j: int,
    item: Item,
    wishes: Seq<EnchantmentInstance>,
    pl: int,
    first: bool,
    ver: Version,
) -> bool {
    let (enchs, _s) = spec_table_enchantments(spec_xp_i32(xp), item, j, lv, ver);
    let insufficient = if first {
        pl < lv
    } else {
        pl < lv + 1
    };
    !(lv == 0 || insufficient) && spec_wish_ok(wishes, enchs)
}

/// Level of slot `j` out of the derived triple.
pub open spec fn spec_level_at(levels: (int, int, int), j: int) -> int {
    if j == 0 {
        levels.0
    } else if j == 1 {
        levels.1
    } else {
        levels.2
    }
}

/// First satisfying slot at or after `j`, else 3.
#[verifier::opaque]
pub open spec fn spec_find_slot(
    xp: int,
    levels: (int, int, int),
    j: int,
    item: Item,
    wishes: Seq<EnchantmentInstance>,
    pl: int,
    first: bool,
    ver: Version,
) -> int
    decreases 3 - j,
{
    if j >= 3 {
        3
    } else if spec_slot_ok(xp, spec_level_at(levels, j), j, item, wishes, pl, first, ver) {
        j
    } else {
        spec_find_slot(xp, levels, j + 1, item, wishes, pl, first, ver)
    }
}

/// First satisfying (shelf count, slot) pair at or after shelf `r`, in
/// shelf-then-slot order.
#[verifier::opaque]
pub open spec fn spec_find_shelf(
    xp: int,
    r: int,
    max_sh: int,
    item: Item,
    wishes: Seq<EnchantmentInstance>,
    pl: int,
    first: bool,
    ver: Version,
) -> Option<(int, int)>
    decreases max_sh + 1 - r,
{
    if r > max_sh {
        None
    } else {
        let levels = spec_slot_levels(xp, r, item);
        let j = spec_find_slot(xp, levels, 0, item, wishes, pl, first, ver);
        if j < 3 {
            Some((r, j))
        } else {
            spec_find_shelf(xp, r + 1, max_sh, item, wishes, pl, first, ver)
        }
    }
}

/// The simulation search from preparatory-action count `i` onwards,
/// with `seed` the hidden state the count-`i` attempt starts from.
/// Yields (times needed, shelf count used, one-indexed slot); times `-2`
/// when the whole search space is exhausted, with the last evaluated
/// shelf count and slot reported as the runtime reports them.
#[verifier::opaque]
pub open spec fn spec_sim_iter(
    seed: int,
    i: int,
    item: Item,
    wishes: Seq<EnchantmentInstance>,
    max_sh: int,
    pl: int,
    ver: Version,
) -> (int, int, int)
    decreases 2049 - i,
{
    if i > 2048 {
        (
            -2,
            if max_sh >= 0 {
                max_sh
            } else {
                0
            },
            if max_sh >= 0 {
                3
            } else {
                1
            },
        )
    } else {
        let xp = if i == -1 {
            seed / 0x1_0000
        } else {
            lcg_next(seed) / 0x1_0000
        };
        match spec_find_shelf(xp, 0, max_sh, item, wishes, pl, i == -1, ver) {
            Some(p) => (i, p.0, p.1 + 1),
            None => spec_sim_iter(
                if i == -1 {
                    seed
                } else {
                    lcg_iter(seed, 4)
                },
                i + 1,
                item,
                wishes,
                max_sh,
                pl,
                ver,
            ),
        }
    }
}

/// The whole simulation search from the hidden state `seed`.
pub open spec fn spec_simulate(
    seed: int,
    item: Item,
    wishes: Seq<EnchantmentInstance>,
    max_sh: int,
    pl: int,
    ver: Version,
) -> (int, int, int) {
    spec_sim_iter(seed, -1, item, wishes, max_sh, pl, ver)
}

/// The committed state transition: `4t + 1` steps for `t` preparatory
/// actions plus the speculative action (when any were needed), one more
/// step for the real action, and the player's level cost.
pub open spec fn spec_update_seed(seed: int, times: int, slot: int, pl: int) -> (int, int) {
    if times == -2 || slot == -1 {
        (seed, pl)
    } else {
        let t: nat = if times >= 0 {
            times as nat
        } else {
            0
        };
        let s1 = if times != -1 {
            lcg_iter(seed, 4 * t + 1)
        } else {
            seed
        };
        let s2 = lcg_next(s1);
        let pl1 = if times != -1 {
            pl - 1
        } else {
            pl
        };
        (s2, pl1 - (slot + 1))
    }
}

/// The wish-list entries recorded for one item.
pub struct ItemInstance {
    pub enchantments: Vec<EnchantmentInstance>,
}

/// Appending an entry, unless an identical one is already present.
pub open spec fn spec_item_update(
    s: Seq<EnchantmentInstance>,
    x: EnchantmentInstance,
) -> Seq<EnchantmentInstance> {
    if s.contains(x) {
        s
    } else {
        s.push(x)
    }
}

impl Default for ItemInstance {
    /// A fresh instance holds no entries.
    fn default() -> (r: Self)
        ensures
            r.enchantments@ == Seq::<EnchantmentInstance>::empty(),
    {
        ItemInstance { enchantments: Vec::new() }
    }
}

impl ItemInstance {
    /// Record `ench`: a new (enchantment, level) pair is appended; an
    /// identical pair leaves the list unchanged.
    pub fn update(&mut self, ench: &EnchantmentInstance)
        ensures
            final(self).enchantments@ == spec_item_update(old(self).enchantments@, *ench),
    {
        let n = self.enchantments.len();
        let mut i: usize = 0;
        while i < n
            invariant
                i <= n,
                n == self.enchantments@.len(),
                self == old(self),
                forall|k: int| 0 <= k < i ==> self.enchantments@[k] != *ench,
            decreases n - i,
        {
            if self.enchantments[i] == *ench {
                return;
            }
            i = i + 1;
        }
        self.enchantments.push(*ench);
    }
}

/// What the simulation found: how many preparatory actions are needed
/// (`-2` none found, `-1` none required), the shelf count reported by
/// the search, and the chosen slot, one-indexed.
#[derive(Copy, Clone, PartialEq, Eq, Structural, Debug)]
pub struct SimulationResult {
    pub times_needed: i32,
    pub shelves_needed: i32,
    pub slot: i32,
}

/// The forward simulation engine: a hidden 48-bit state and the wish
/// lists recorded per item.
pub struct Manipulator {
    player_seed: u64,
    items: Vec<ItemInstance>,
}

impl Manipulator {
    /// The hidden state is a 48-bit value and every item has its slot.
    pub closed spec fn wf(&self) -> bool {
        self.player_seed < 0x1_0000_0000_0000 && self.items@.len() == ITEM_COUNT
    }

    /// The hidden 48-bit state.
    pub closed spec fn spec_player_seed(&self) -> int {
        self.player_seed as int
    }

    /// The wish list recorded for `item`.
    pub closed spec fn spec_item_enchs(&self, item: Item) -> Seq<EnchantmentInstance> {
        self.items@[spec_item_ord(item)].enchantments@
    }

    /// Recover the hidden state from two partial observations; `None`
    /// when no candidate low word matches.
    pub fn new(seed1: u32, seed2: u32) -> (r: Option<Manipulator>)
        ensures
            r.is_some() == spec_recover(seed1 as int, seed2 as int).is_some(),
            r matches Some(m) ==> m.wf() && Some(m.spec_player_seed()) == spec_recover(
                seed1 as int,
                seed2 as int,
            ) && forall|it: Item| m.spec_item_enchs(it) == Seq::<EnchantmentInstance>::empty(),
    {
        match Self::calculate_seed(seed1, seed2) {
            Some(player_seed) => {
                let mut items: Vec<ItemInstance> = Vec::new();
                let mut i: usize = 0;
                while i < ITEM_COUNT
                    invariant
                        i <= ITEM_COUNT,
                        items@.len() == i,
                        forall|k: int|
                            0 <= k < i ==> items@[k].enchantments@ == Seq::<
                                EnchantmentInstance,
                            >::empty(),
                    decreases ITEM_COUNT - i,
                {
                    items.push(Default::default());
                    i = i + 1;
                }
                Some(Manipulator { player_seed, items })
            },
            None => None,
        }
    }

    /// The meet-in-the-middle scan over the unknown low 16 bits.
    fn calculate_seed(seed1: u32, seed2: u32) -> (r: Option<u64>)
        ensures
            match r {
                Some(s) => Some(s as int) == spec_recover(seed1 as int, seed2 as int) && s
                    < 0x1_0000_0000_0000,
                None => spec_recover(seed1 as int, seed2 as int).is_none(),
            },
    {
        let mut low: u64 = 0;
        while low < 65536
            invariant
                low <= 65536,
                spec_search_low(seed1 as int, seed2 as int, 0) == spec_search_low(
                    seed1 as int,
                    seed2 as int,
                    low as int,
                ),
            decreases 65536 - low,
        {
            let probe = mitm_probe(seed1, seed2, low);
            proof {
                reveal(spec_search_low);
            }
            match probe {
                Some(s) => {
                    return Some(s);
                },
                None => {},
            }
            low = low + 1;
        }
        proof {
            reveal(spec_search_low);
        }
        None
    }

    /// Re-run the recovery against two new observations; the wish lists
    /// are kept. Reports whether a state was found.
    pub fn change_seed(&mut self, seed1: u32, seed2: u32) -> (r: bool)
        requires
            old(self).wf(),
        ensures
            final(self).wf(),
            r == spec_recover(seed1 as int, seed2 as int).is_some(),
            r ==> Some(final(self).spec_player_seed()) == spec_recover(seed1 as int, seed2 as int),
            !r ==> final(self).spec_player_seed() == old(self).spec_player_seed(),
            forall|it: Item| final(self).spec_item_enchs(it) == old(self).spec_item_enchs(it),
    {
        match Self::calculate_seed(seed1, seed2) {
            Some(new_seed) => {
                self.player_seed = new_seed;
                true
            },
            None => false,
        }
    }

    /// The hidden 48-bit state, as a plain value. Its outward byte or
    /// array presentation is the binding layer's concern.
    pub fn player_seed(&self) -> (r: u64)
        ensures
            r == self.spec_player_seed(),
    {
        self.player_seed
    }

    /// Record a wish entry for `item`.
    pub fn update_item(&mut self, item: Item, ench: &EnchantmentInstance)
        requires
            old(self).wf(),
        ensures
            final(self).wf(),
            final(self).spec_player_seed() == old(self).spec_player_seed(),
            final(self).spec_item_enchs(item) == spec_item_update(
                old(self).spec_item_enchs(item),
                *ench,
            ),
            forall|other: Item|
                spec_item_ord(other) != spec_item_ord(item) ==> final(self).spec_item_enchs(other)
                    == old(self).spec_item_enchs(other),
    {
        let idx = item.index();
        let mut inst = ItemInstance { enchantments: copy_enchs(&self.items[idx].enchantments) };
        inst.update(ench);
        self.items.set(idx, inst);
    }

    /// Search the cheapest (preparatory-action count, shelf count, slot)
    /// triple whose outcome satisfies the wish list recorded for `item`,
    /// in search order; `None` when no wish list was recorded.
    pub fn simulate(
        &mut self,
        item: Item,
        max_shelves: i32,
        player_level: i32,
        version: Version,
    ) -> (r: Option<SimulationResult>)
        requires
            old(self).wf(),
            max_shelves <= rng::MAX_SHELVES,
        ensures
            final(self).wf(),
            *final(self) == *old(self),
            r.is_none() <==> old(self).spec_item_enchs(item).len() == 0,
            r matches Some(res) ==> ({
                let outcome = spec_simulate(
                    old(self).spec_player_seed(),
                    item,
                    old(self).spec_item_enchs(item),
                    max_shelves as int,
                    player_level as int,
                    version,
                );
                res.times_needed as int == outcome.0 && res.shelves_needed as int == outcome.1
                    && res.slot as int == outcome.2
            }),
    {
        let idx = item.index();
        if self.items[idx].enchantments.len() == 0 {
            return None;
        }
        let wishes = copy_enchs(&self.items[idx].enchantments);
        let mut seed: u64 = self.player_seed;
        let ghost s0 = seed as int;
        let mut rand: SimpleRandom = Default::default();
        let mut i: i32 = -1;
        let mut outcome = SimulationResult { times_needed: -2, shelves_needed: 0, slot: 1 };
        let mut found = false;
        while i <= 2048
            invariant_except_break
                !found,
            invariant
                rand.wf(),
                seed < 0x1_0000_0000_0000,
                -1 <= i <= 2049,
                max_shelves <= rng::MAX_SHELVES,
                wishes@ == old(self).spec_item_enchs(item),
                spec_simulate(
                    s0,
                    item,
                    wishes@,
                    max_shelves as int,
                    player_level as int,
                    version,
                ) == spec_sim_iter(
                    seed as int,
                    i as int,
                    item,
                    wishes@,
                    max_shelves as int,
                    player_level as int,
                    version,
                ),
            ensures
                found ==> (outcome.times_needed as int, outcome.shelves_needed as int,
                outcome.slot as int) == spec_simulate(
                    s0,
                    item,
                    wishes@,
                    max_shelves as int,
                    player_level as int,
                    version,
                ),
                !found ==> i == 2049 && spec_simulate(
                    s0,
                    item,
                    wishes@,
                    max_shelves as int,
                    player_level as int,
                    version,
                ) == spec_sim_iter(
                    seed as int,
                    2049,
                    item,
                    wishes@,
                    max_shelves as int,
                    player_level as int,
                    version,
                ),
            decreases 2049 - i,
        {
            let stepped: u64 = if i == -1 {
                seed
            } else {
                lcg_advance(seed)
            };
            let xp: u64 = stepped >> 16;
            proof {
                assert(stepped < 0x1_0000_0000_0000 ==> (stepped >> 16) == stepped / 0x1_0000 && (
                stepped >> 16) < 0x1_0000_0000) by (bit_vector);
            }
            let sr = search_shelves(
                &mut rand,
                xp,
                max_shelves,
                item,
                &wishes,
                player_level,
                i == -1,
                version,
            );
            proof {
                reveal(spec_sim_iter);
            }
            match sr {
                Some(p) => {
                    outcome = SimulationResult {
                        times_needed: i,
                        shelves_needed: p.0,
                        slot: p.1 + 1,
                    };
                    found = true;
                    break;
                },
                None => {
                    if i != -1 {
                        let ghost sb = seed as int;
                        seed = lcg_advance(seed);
                        seed = lcg_advance(seed);
                        seed = lcg_advance(seed);
                        seed = lcg_advance(seed);
                        proof {
                            assert(lcg_iter(sb, 0) == sb);
                            assert(lcg_iter(sb, 1) == lcg_next(lcg_iter(sb, 0)));
                            assert(lcg_iter(sb, 2) == lcg_next(lcg_iter(sb, 1)));
                            assert(lcg_iter(sb, 3) == lcg_next(lcg_iter(sb, 2)));
                            assert(lcg_iter(sb, 4) == lcg_next(lcg_iter(sb, 3)));
                        }
                    }
                    i = i + 1;
                },
            }
        }
        if !found {
            proof {
                reveal(spec_sim_iter);
            }
            outcome = SimulationResult {
                times_needed: -2,
                shelves_needed: if max_shelves >= 0 {
                    max_shelves
                } else {
                    0
                },
                slot: if max_shelves >= 0 {
                    3
                } else {
                    1
                },
            };
        }
        Some(outcome)
    }

    /// Commit the state transition of a simulated outcome: advance the
    /// hidden state by four steps per preparatory action, one step for
    /// the speculative action when any were needed, and one step for the
    /// real action; return the player's remaining level.
    pub fn update_seed(&mut self, times_needed: i32, chosen_slot: i32, player_level: i32) -> (r:
        i32)
        requires
            old(self).wf(),
            -2 <= times_needed,
            -1 <= chosen_slot <= 2,
            -0x1000_0000 <= player_level <= 0x1000_0000,
        ensures
            final(self).wf(),
            forall|it: Item| final(self).spec_item_enchs(it) == old(self).spec_item_enchs(it),
            final(self).spec_player_seed() == spec_update_seed(
                old(self).spec_player_seed(),
                times_needed as int,
                chosen_slot as int,
                player_level as int,
            ).0,
            r as int == spec_update_seed(
                old(self).spec_player_seed(),
                times_needed as int,
                chosen_slot as int,
                player_level as int,
            ).1,
    {
        if times_needed == -2 || chosen_slot == -1 {
            return player_level;
        }
        let ghost s0 = self.player_seed as int;
        if times_needed != -1 {
            let mut i: i32 = 0;
            while i < times_needed
                invariant
                    0 <= i <= times_needed,
                    self.player_seed < 0x1_0000_0000_0000,
                    self.player_seed == lcg_iter(s0, (4 * i) as nat),
                    self.items == old(self).items,
                    old(self).wf(),
                decreases times_needed - i,
            {
                let ghost sb = self.player_seed as int;
                self.player_seed = lcg_advance(self.player_seed);
                self.player_seed = lcg_advance(self.player_seed);
                self.player_seed = lcg_advance(self.player_seed);
                self.player_seed = lcg_advance(self.player_seed);
                proof {
                    assert(lcg_iter(sb, 0) == sb);
                    assert(lcg_iter(sb, 1) == lcg_next(lcg_iter(sb, 0)));
                    assert(lcg_iter(sb, 2) == lcg_next(lcg_iter(sb, 1)));
                    assert(lcg_iter(sb, 3) == lcg_next(lcg_iter(sb, 2)));
                    assert(lcg_iter(sb, 4) == lcg_next(lcg_iter(sb, 3)));
                    lemma_lcg_iter_add(s0, (4 * i) as nat, 4);
                }
                i = i + 1;
            }
            self.player_seed = lcg_advance(self.player_seed);
            proof {
                lemma_lcg_iter_add(s0, (4 * times_needed) as nat, 1);
                assert(lcg_iter(lcg_iter(s0, (4 * times_needed) as nat), 1) == lcg_next(lcg_iter(
                    lcg_iter(s0, (4 * times_needed) as nat),
                    0,
                )));
            }
        }
        self.player_seed = lcg_advance(self.player_seed);
        let mut pl = player_level;
        if times_needed != -1 {
            pl = pl - 1;
        }
        pl - (chosen_slot + 1)
    }
}

/// One candidate of the meet-in-the-middle scan: advance the 48-bit
/// state `seed1 * 2^16 + low` one step and compare its upper 32 bits to
/// the second observation.
#[verifier::rlimit(100)]
fn mitm_probe(seed1: u32, seed2: u32, low: u64) -> (r: Option<u64>)
    requires
        low < 65536,
    ensures
        r.is_some() == spec_mitm_found(seed1 as int, seed2 as int, low as int),
        r matches Some(s) ==> s == spec_mitm_part(seed1 as int, low as int) % 0x1_0000_0000_0000
            && s < 0x1_0000_0000_0000,
{
    let seed1_high: u64 = ((seed1 as u64) << 16) & 0x0000_FFFF_FFFF_0000;
    let seed2_high: u64 = ((seed2 as u64) << 16) & 0x0000_FFFF_FFFF_0000;
    let cand: u64 = seed1_high | low;
    proof {
        let s1 = seed1 as u64;
        let s2 = seed2 as u64;
        assert((((s1 << 16) & 0x0000_FFFF_FFFF_0000) | low) == s1 * 0x1_0000 + low && ((s2 << 16)
            & 0x0000_FFFF_FFFF_0000) == s2 * 0x1_0000) by (bit_vector)
            requires
                s1 < 0x1_0000_0000,
                s2 < 0x1_0000_0000,
                low < 65536,
        ;
    }
    let a: u64 = cand.wrapping_mul(0x5DEECE66D);
    let part: u64 = a.wrapping_add(0xB);
    proof {
        let x = cand as int * 0x5DEECE66D;
        lemma_add_mod_noop(x, 0xB, 0x1_0000_0000_0000_0000);
        assert(0xB as int % 0x1_0000_0000_0000_0000 == 0xB);
        assert(part == spec_mitm_part(seed1 as int, low as int));
        assert(part & 0x0000_FFFF_FFFF_0000 == ((part % 0x1_0000_0000_0000) / 0x1_0000) * 0x1_0000
            && part & 0xFFFF_FFFF_FFFF == part % 0x1_0000_0000_0000 && (part % 0x1_0000_0000_0000)
            / 0x1_0000 < 0x1_0000_0000) by (bit_vector);
    }
    if part & 0x0000_FFFF_FFFF_0000 == seed2_high {
        Some(part & 0xFFFF_FFFF_FFFF)
    } else {
        None
    }
}

/// Does the first occurrence test of one wish entry hold of `enchs`?
fn wish_entry_ok(w: EnchantmentInstance, enchs: &Vec<EnchantmentInstance>) -> (b: bool)
    ensures
        b == spec_wish_entry_ok(w, enchs@),
{
    let n = enchs.len();
    if w.level == -1 {
        let mut i: usize = 0;
        while i < n
            invariant
                w.level == -1,
                i <= n,
                n == enchs@.len(),
                forall|k: int| 0 <= k < i ==> enchs@[k].enchantment != w.enchantment,
            decreases n - i,
        {
            if enchs[i].enchantment == w.enchantment {
                proof {
                    assert(enchs@[i as int].enchantment == w.enchantment);
                    assert(spec_contains_ench(enchs@, w.enchantment));
                }
                return false;
            }
            i = i + 1;
        }
        true
    } else {
        let mut i: usize = 0;
        while i < n
            invariant
                w.level != -1,
                i <= n,
                n == enchs@.len(),
                forall|k: int| 0 <= k < i ==> enchs@[k].enchantment != w.enchantment,
            decreases n - i,
        {
            if enchs[i].enchantment == w.enchantment {
                proof {
                    lemma_first_match_at(enchs@, w.enchantment, i as int);
                    assert(spec_first_match(enchs@, w.enchantment) == i as int);
                }
                let lv_found = enchs[i].level;
                proof {
                    assert(spec_wish_entry_ok(w, enchs@) == (w.level <= lv_found));
                }
                return w.level <= lv_found;
            }
            i = i + 1;
        }
        proof {
            lemma_first_match_at(enchs@, w.enchantment, n as int);
        }
        false
    }
}

/// A prefix free of `e` followed by a hit at `i` pins the first match.
proof fn lemma_first_match_at(s: Seq<EnchantmentInstance>, e: Enchantment, i: int)
    requires
        0 <= i <= s.len(),
        forall|k: int| 0 <= k < i ==> s[k].enchantment != e,
        i < s.len() ==> s[i].enchantment == e,
    ensures
        spec_first_match(s, e) == i,
    decreases i, s.len(),
{
    if s.len() == 0 {
    } else if i == 0 {
    } else {
        assert(s.drop_first() =~= s.skip(1));
        assert forall|k: int| 0 <= k < i - 1 implies s.drop_first()[k].enchantment != e by {
            assert(s.drop_first()[k] == s[k + 1]);
        }
        if i - 1 < s.drop_first().len() {
            assert(s.drop_first()[i - 1] == s[i]);
        }
        lemma_first_match_at(s.drop_first(), e, i - 1);
    }
}

/// Does the whole wish list hold of `enchs`?
fn wish_satisfied(wishes: &Vec<EnchantmentInstance>, enchs: &Vec<EnchantmentInstance>) -> (b: bool)
    ensures
        b == spec_wish_ok(wishes@, enchs@),
{
    let n = wishes.len();
    let mut i: usize = 0;
    while i < n
        invariant
            i <= n,
            n == wishes@.len(),
            forall|k: int| 0 <= k < i ==> spec_wish_entry_ok(wishes@[k], enchs@),
        decreases n - i,
    {
        if !wish_entry_ok(wishes[i], enchs) {
            return false;
        }
        i = i + 1;
    }
    true
}

/// Does slot `j` at level `lv` satisfy the wish list? Always derives the
/// slot's outcome (re-seeding the scratch generator), as the runtime
/// does, before the level and affordability checks.
fn check_slot(
    rand: &mut SimpleRandom,
    xp: u64,
    lv: i32,
    j: i32,
    item: Item,
    wishes: &Vec<EnchantmentInstance>,
    player_level: i32,
    first: bool,
    version: Version,
) -> (b: bool)
    requires
        xp < 0x1_0000_0000,
        0 <= j <= 2,
        0 <= lv <= 0x2000_0000,
    ensures
        final(rand).wf(),
        b == spec_slot_ok(
            xp as int,
            lv as int,
            j as int,
            item,
            wishes@,
            player_level as int,
            first,
            version,
        ),
{
    proof {
        reveal(spec_slot_ok);
    }
    let xp32: i32 = if xp >= 0x8000_0000 {
        ((xp as i64) - 0x1_0000_0000) as i32
    } else {
        xp as i32
    };
    let enchantments = Enchantment::get_enchantments_in_table(rand, xp32, item, j, lv, version);
    let insufficient = if first {
        player_level < lv
    } else {
        player_level < lv + 1
    };
    if lv == 0 || insufficient {
        return false;
    }
    wish_satisfied(wishes, &enchantments)
}

/// Derive the three zeroed slot levels for table seed `xp` at `sh`
/// shelves.
#[verifier::rlimit(60)]
fn derive_slot_levels(rand: &mut SimpleRandom, xp: u64, sh: i32, item: Item) -> (r: (i32, i32, i32))
    requires
        xp < 0x1_0000_0000,
        0 <= sh <= rng::MAX_SHELVES,
    ensures
        final(rand).wf(),
        (r.0 as int, r.1 as int, r.2 as int) == spec_slot_levels(xp as int, sh as int, item),
        0 <= r.0 <= 0x2000_0000,
        0 <= r.1 <= 0x2000_0000,
        0 <= r.2 <= 0x2000_0000,
{
    rand.set_seed(xp as i64);
    let mut l0 = Enchantment::calc_enchantment_table_level(rand, 0, sh, item);
    if l0 < 1 {
        l0 = 0;
    }
    let mut l1 = Enchantment::calc_enchantment_table_level(rand, 1, sh, item);
    if l1 < 2 {
        l1 = 0;
    }
    let mut l2 = Enchantment::calc_enchantment_table_level(rand, 2, sh, item);
    if l2 < 3 {
        l2 = 0;
    }
    proof {
        reveal(spec_slot_levels);
    }
    (l0, l1, l2)
}

/// Scan every shelf count up to `max_shelves` for the first satisfying
/// slot.
#[verifier::rlimit(60)]
fn search_shelves(
    rand: &mut SimpleRandom,
    xp: u64,
    max_shelves: i32,
    item: Item,
    wishes: &Vec<EnchantmentInstance>,
    player_level: i32,
    first: bool,
    version: Version,
) -> (r: Option<(i32, i32)>)
    requires
        old(rand).wf(),
        xp < 0x1_0000_0000,
        max_shelves <= rng::MAX_SHELVES,
    ensures
        final(rand).wf(),
        ({
            let sf = spec_find_shelf(
                xp as int,
                0,
                max_shelves as int,
                item,
                wishes@,
                player_level as int,
                first,
                version,
            );
            match r {
                Some(p) => sf == Some((p.0 as int, p.1 as int)) && 0 <= p.0 <= max_shelves && 0
                    <= p.1 <= 2,
                None => sf.is_none(),
            }
        }),
{
    if max_shelves < 0 {
        proof {
            reveal(spec_find_shelf);
        }
        return None;
    }
    let mut sh: i32 = 0;
    while sh <= max_shelves
        invariant
            rand.wf(),
            xp < 0x1_0000_0000,
            0 <= sh <= max_shelves + 1,
            max_shelves <= rng::MAX_SHELVES,
            spec_find_shelf(
                xp as int,
                0,
                max_shelves as int,
                item,
                wishes@,
                player_level as int,
                first,
                version,
            ) == spec_find_shelf(
                xp as int,
                sh as int,
                max_shelves as int,
                item,
                wishes@,
                player_level as int,
                first,
                version,
            ),
        decreases max_shelves - sh + 1,
    {
        let (l0, l1, l2) = derive_slot_levels(rand, xp, sh, item);
        let ghost levels = spec_slot_levels(xp as int, sh as int, item);
        proof {
            reveal(spec_find_shelf);
            reveal(spec_find_slot);
            assert(spec_level_at(levels, 0) == l0 as int);
            assert(spec_level_at(levels, 1) == l1 as int);
            assert(spec_level_at(levels, 2) == l2 as int);
        }
        let ok0 = check_slot(rand, xp, l0, 0, item, wishes, player_level, first, version);
        if ok0 {
            return Some((sh, 0));
        }
        let ok1 = check_slot(rand, xp, l1, 1, item, wishes, player_level, first, version);
        if ok1 {
            proof {
                reveal(spec_find_slot);
                assert(spec_find_slot(xp as int, levels, 1, item, wishes@, player_level as int,
                    first, version) == 1);
                assert(spec_find_slot(xp as int, levels, 0, item, wishes@, player_level as int,
                    first, version) == 1);
            }
            return Some((sh, 1));
        }
        let ok2 = check_slot(rand, xp, l2, 2, item, wishes, player_level, first, version);
        if ok2 {
            proof {
                reveal(spec_find_slot);
                assert(spec_find_slot(xp as int, levels, 2, item, wishes@, player_level as int,
                    first, version) == 2);
                assert(spec_find_slot(xp as int, levels, 1, item, wishes@, player_level as int,
                    first, version) == 2);
                assert(spec_find_slot(xp as int, levels, 0, item, wishes@, player_level as int,
                    first, version) == 2);
            }
            return Some((sh, 2));
        }
        proof {
            reveal(spec_find_slot);
            assert(spec_find_slot(xp as int, levels, 3, item, wishes@, player_level as int, first,
                version) == 3);
            assert(spec_find_slot(xp as int, levels, 2, item, wishes@, player_level as int, first,
                version) == 3);
            assert(spec_find_slot(xp as int, levels, 1, item, wishes@, player_level as int, first,
                version) == 3);
            assert(spec_find_slot(xp as int, levels, 0, item, wishes@, player_level as int, first,
                version) == 3);
            reveal(spec_find_shelf);
        }
        sh = sh + 1;
    }
    proof {
        reveal(spec_find_shelf);
    }
    None
}

/// A plain copy of a wish list.
fn copy_enchs(v: &Vec<EnchantmentInstance>) -> (r: Vec<EnchantmentInstance>)
    ensures
        r@ == v@,
{
    let n = v.len();
    let mut out: Vec<EnchantmentInstance> = Vec::new();
    let mut i: usize = 0;
    while i < n
        invariant
            i <= n,
            n == v@.len(),
            out@ == v@.subrange(0, i as int),
        decreases n - i,
    {
        out.push(v[i]);
        proof {
            assert(out@ =~= v@.subrange(0, i as int + 1));
        }
        i = i + 1;
    }
    proof {
        assert(v@.subrange(0, n as int) =~= v@);
    }
    out
}

} // verus!
