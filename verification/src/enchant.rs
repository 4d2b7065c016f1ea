//! The random-outcome side of the catalog: slot level derivation and the
//! weighted random selection of enchantments, exactly as the platform
//! runtime draws them from the 48-bit generator.
//!
//! The one unbounded loop (repeated weighted picks while the level draw
//! stays low) is described by an absorbing step function iterated up to a
//! cap of one full generator period, which no run reaches.

use vstd::prelude::*;
use vstd::arithmetic::div_mod::lemma_div_denominator;
use crate::rng::{SimpleRandom, lcg_next, raw24, seed_init, bounded_res, MAX_SHELVES};
use crate::rng;
use crate::catalog::{
    Item, Version, Enchantment, spec_enchantability, spec_is_treasure, spec_can_apply,
    spec_max_level, spec_min_enchantability, spec_max_enchantability, spec_weight,
    spec_ench_intro, spec_item_intro, spec_version_ord, spec_ench_of, spec_compatible,
    ENCH_COUNT,
};
use crate::fround::{spec_float_delta, spec_table_delta, float_percent_delta, float_table_delta};

verus! {

/// One enchantment at a level. A wished-for level of `-1` means the
/// enchantment must be absent.
#[derive(Copy, Clone, PartialEq, Eq, Structural, Debug)]
pub struct EnchantmentInstance {
    pub enchantment: Enchantment,
    pub level: i32,
}

impl EnchantmentInstance {
    pub fn new(enchantment: Enchantment, level: i32) -> (r: Self)
        ensures
            r.enchantment == enchantment,
            r.level == level,
    {
        EnchantmentInstance { enchantment, level }
    }
}

/// Highest enchantment level, at most `lv`, whose enchantability window
/// contains `level`; 0 when none does.
pub open spec fn spec_highest_level(e: Enchantment, level: int, lv: int) -> int
    decreases lv,
{
    if lv < 1 {
        0
    } else if spec_min_enchantability(e, lv) <= level <= spec_max_enchantability(e, lv) {
        lv
    } else {
        spec_highest_level(e, level, lv - 1)
    }
}

/// The instances collected from the first `i` enchantments of catalog
/// order whose highest admissible level at `level` is positive.
#[verifier::opaque]
pub open spec fn spec_allowed_upto(
    level: int,
    item: Item,
    treasure: bool,
    v: Version,
    i: int,
) -> Seq<EnchantmentInstance>
    decreases i,
{
    if i <= 0 {
        Seq::empty()
    } else {
        let e = spec_ench_of(i - 1);
        let head: Seq<EnchantmentInstance> = if spec_version_ord(v) >= spec_version_ord(
            spec_ench_intro(e),
        ) && (treasure || !spec_is_treasure(e)) && spec_can_apply(e, item, true) {
            let hl = spec_highest_level(e, level, spec_max_level(e));
            if hl > 0 {
                seq![EnchantmentInstance { enchantment: e, level: hl as i32 }]
            } else {
                Seq::empty()
            }
        } else {
            Seq::empty()
        };
        spec_allowed_upto(level, item, treasure, v, i - 1) + head
    }
}

/// The enchantment instances allowed at modified level `level` on `item`.
pub open spec fn spec_highest_allowed(
    level: int,
    item: Item,
    treasure: bool,
    v: Version,
) -> Seq<EnchantmentInstance> {
    if spec_version_ord(v) < spec_version_ord(spec_item_intro(item)) {
        Seq::empty()
    } else {
        spec_allowed_upto(level, item, treasure, v, ENCH_COUNT as int)
    }
}

/// Sum of the weights of a list of instances.
pub open spec fn spec_total_weight(v: Seq<EnchantmentInstance>, ver: Version) -> int
    decreases v.len(),
{
    if v.len() == 0 {
        0
    } else {
        spec_weight(v[0].enchantment, ver) + spec_total_weight(v.drop_first(), ver)
    }
}

/// Index of the instance a draw of `w` selects: the first position at
/// which the running weight sum exceeds `w`.
pub open spec fn spec_pick_index(v: Seq<EnchantmentInstance>, w: int, ver: Version) -> int
    decreases v.len(),
{
    if v.len() == 0 {
        0
    } else if w - spec_weight(v[0].enchantment, ver) < 0 {
        0
    } else {
        1 + spec_pick_index(v.drop_first(), w - spec_weight(v[0].enchantment, ver), ver)
    }
}

/// Result of one weighted random pick from state `s`: the picked
/// instance (if the total weight is positive), the remaining list, and
/// the generator state afterwards.
pub open spec fn spec_weighted_random(
    s: int,
    v: Seq<EnchantmentInstance>,
    ver: Version,
) -> (Option<EnchantmentInstance>, Seq<EnchantmentInstance>, int) {
    let wt = spec_total_weight(v, ver);
    if wt <= 0 {
        (None, v, s)
    } else {
        let (w, s1) = bounded_res(s, wt as i32);
        let i = spec_pick_index(v, w, ver);
        (Some(v[i]), v.remove(i), s1)
    }
}

/// The allowed list successively filtered for compatibility with each
/// already-picked enchantment, in pick order.
pub open spec fn spec_compat_filter(
    allowed: Seq<EnchantmentInstance>,
    enchs: Seq<EnchantmentInstance>,
    ver: Version,
) -> Seq<EnchantmentInstance>
    decreases enchs.len(),
{
    if enchs.len() == 0 {
        allowed
    } else {
        spec_compat_filter(
            allowed.filter(compat_pred(enchs[0].enchantment, ver)),
            enchs.drop_first(),
            ver,
        )
    }
}

/// Compatibility with one already-picked enchantment, as a function
/// value.
pub open spec fn compat_pred(e: Enchantment, ver: Version) -> spec_fn(EnchantmentInstance) -> bool {
    |x: EnchantmentInstance| spec_compatible(x.enchantment, e, ver)
}

/// State of the repeated-pick loop: generator state, working level, the
/// remaining allowed list, the picked instances, and whether the loop
/// has exited. An exited state is absorbing.
pub struct PickLoopState {
    pub s: int,
    pub level: int,
    pub allowed: Seq<EnchantmentInstance>,
    pub enchs: Seq<EnchantmentInstance>,
    pub done: bool,
}

/// One iteration of the repeated-pick loop: draw against the level;
/// exit on a high draw; otherwise rescale (one version only), filter
/// for compatibility, exit if nothing is left, else pick and halve the
/// level.
pub open spec fn spec_pick_step(
    item: Item,
    treasure: bool,
    ver: Version,
    st: PickLoopState,
) -> PickLoopState {
    if st.done {
        st
    } else {
        let (w, s1) = bounded_res(st.s, 50);
        if w > st.level {
            PickLoopState { s: s1, level: st.level, allowed: st.allowed, enchs: st.enchs, done: true }
        } else {
            let lv1 = if ver == Version::V1_14 {
                st.level * 4 / 5 + 1
            } else {
                st.level
            };
            let allowed1 = if ver == Version::V1_14 {
                spec_highest_allowed(lv1, item, treasure, ver)
            } else {
                st.allowed
            };
            let allowed2 = spec_compat_filter(allowed1, st.enchs, ver);
            if allowed2.len() == 0 {
                PickLoopState { s: s1, level: lv1, allowed: allowed2, enchs: st.enchs, done: true }
            } else {
                let (pick, allowed3, s2) = spec_weighted_random(s1, allowed2, ver);
                let enchs1 = match pick {
                    Some(e) => st.enchs.push(e),
                    None => st.enchs,
                };
                PickLoopState { s: s2, level: lv1 / 2, allowed: allowed3, enchs: enchs1, done: false }
            }
        }
    }
}

/// The loop state after `k` iterations.
#[verifier::opaque]
pub open spec fn spec_pick_iter(
    item: Item,
    treasure: bool,
    ver: Version,
    init: PickLoopState,
    k: nat,
) -> PickLoopState
    decreases k,
{
    if k == 0 {
        init
    } else {
        spec_pick_step(item, treasure, ver, spec_pick_iter(item, treasure, ver, init, (k - 1) as nat))
    }
}

/// Iteration cap: one full generator period, within which a draw above
/// any non-negative level is guaranteed; the cap is never reached at run
/// time but keeps the loop bounded.
pub const PICK_CAP: u64 = 0x1_0000_0000_0000;

/// The state in which the repeated-pick loop ends.
pub open spec fn spec_pick_final(
    item: Item,
    treasure: bool,
    ver: Version,
    init: PickLoopState,
) -> PickLoopState {
    spec_pick_iter(item, treasure, ver, init, 0x1_0000_0000_0000)
}

/// An exited state is a fixpoint of the iteration.
proof fn lemma_pick_frozen(
    item: Item,
    treasure: bool,
    ver: Version,
    init: PickLoopState,
    k1: nat,
    k2: nat,
)
    requires
        k1 <= k2,
        spec_pick_iter(item, treasure, ver, init, k1).done,
    ensures
        spec_pick_iter(item, treasure, ver, init, k2) == spec_pick_iter(item, treasure, ver, init, k1),
    decreases k2,
{
    reveal(spec_pick_iter);
    if k2 > k1 {
        lemma_pick_frozen(item, treasure, ver, init, k1, (k2 - 1) as nat);
    }
}

/// The enchantments drawn onto `item` at base level `level` from state
/// `s`, and the generator state afterwards.
#[verifier::opaque]
pub open spec fn spec_add_random(
    s: int,
    item: Item,
    level: int,
    treasure: bool,
    ver: Version,
) -> (Seq<EnchantmentInstance>, int) {
    let ea = spec_enchantability(item);
    if ea <= 0 {
        (Seq::empty(), s)
    } else {
        let (d1, s1) = bounded_res(s, (ea / 4 + 1) as i32);
        let (d2, s2) = bounded_res(s1, (ea / 4 + 1) as i32);
        let lv1 = level + 1 + d1 + d2;
        let s3 = lcg_next(s2);
        let fa = raw24(s3);
        let s4 = lcg_next(s3);
        let fb = raw24(s4);
        let lv2 = lv1 + spec_float_delta(fa as nat, fb as nat, lv1);
        let lv3: int = if lv2 < 1 {
            1
        } else {
            lv2
        };
        let allowed = spec_highest_allowed(lv3, item, treasure, ver);
        if allowed.len() == 0 {
            (Seq::empty(), s4)
        } else {
            let (pick, allowed1, s5) = spec_weighted_random(s4, allowed, ver);
            let enchs0: Seq<EnchantmentInstance> = match pick {
                Some(e) => seq![e],
                None => Seq::empty(),
            };
            let fin = spec_pick_final(
                item,
                treasure,
                ver,
                PickLoopState { s: s5, level: lv3, allowed: allowed1, enchs: enchs0, done: false },
            );
            (fin.enchs, fin.s)
        }
    }
}

/// The enchantments shown in table slot `slot` for the 32-bit table seed
/// `xp32` at slot level `levels`, and the generator state afterwards.
/// The scratch generator is re-seeded from `xp32 + slot` (sign-extended);
/// a book with more than one enchantment loses a random one. A book list
/// beyond the positive 32-bit range would abort the platform runtime's
/// bounded draw; here such a list passes through unreduced (no run
/// reaches one).
pub open spec fn spec_table_enchantments(
    xp32: i32,
    item: Item,
    slot: int,
    levels: int,
    ver: Version,
) -> (Seq<EnchantmentInstance>, int) {
    let s0 = seed_init(((xp32 as i64) + slot) as i64);
    let (v, s1) = spec_add_random(s0, item, levels, false, ver);
    if item == Item::Book && 1 < v.len() < 0x8000_0000 {
        let (idx, s2) = bounded_res(s1, v.len() as i32);
        (v.remove(idx), s2)
    } else {
        (v, s1)
    }
}

/// Scan for the highest level of `e` reachable at modified level
/// `level`, testing the lower window bound only.
pub open spec fn spec_max_table_scan(e: Enchantment, level: int, lv: int) -> int
    decreases lv,
{
    if lv < 1 {
        0
    } else if level >= spec_min_enchantability(e, lv) {
        lv
    } else {
        spec_max_table_scan(e, level, lv - 1)
    }
}

/// The highest level of `e` an enchanting table can show on `item`.
pub open spec fn spec_max_level_in_table(e: Enchantment, item: Item) -> int {
    let ea = spec_enchantability(item);
    if ea == 0 || spec_is_treasure(e) || !spec_can_apply(e, item, true) {
        0
    } else {
        let level0 = 30 + 1 + ea / 4 + ea / 4;
        let level = level0 + spec_table_delta(level0);
        spec_max_table_scan(e, level, spec_max_level(e))
    }
}

impl Enchantment {
    /// The highest level of this enchantment an enchanting table can
    /// show on `item`.
    pub fn get_max_level_in_table(&self, item: Item) -> (r: i32)
        ensures
            r == spec_max_level_in_table(*self, item),
            0 <= r <= 5,
    {
        let enchantability = item.get_enchantability();
        if enchantability == 0 || self.is_treasure() || !self.can_apply(item, true) {
            return 0;
        }
        let mut level: i64 = (30 + 1 + enchantability / 4 + enchantability / 4) as i64;
        level = level + float_table_delta(level);
        let mut max_level = self.get_max_level();
        let ghost top = spec_max_level(*self);
        while max_level >= 1
            invariant
                0 <= max_level <= top <= 5,
                top == spec_max_level(*self),
                spec_enchantability(item) != 0,
                !spec_is_treasure(*self),
                spec_can_apply(*self, item, true),
                level == (30 + 1 + spec_enchantability(item) / 4 + spec_enchantability(item) / 4)
                    + spec_table_delta(
                    30 + 1 + spec_enchantability(item) / 4 + spec_enchantability(item) / 4,
                ),
                -0x200_0000_0000 <= level <= 0x200_0000_0000,
                spec_max_table_scan(*self, level as int, top) == spec_max_table_scan(
                    *self,
                    level as int,
                    max_level as int,
                ),
            decreases max_level,
        {
            if level >= self.get_min_enchantability(max_level) as i64 {
                proof {
                    assert(spec_max_table_scan(*self, level as int, max_level as int)
                        == max_level as int);
                }
                return max_level;
            }
            proof {
                assert(spec_max_table_scan(*self, level as int, max_level as int)
                    == spec_max_table_scan(*self, level as int, max_level as int - 1));
            }
            max_level = max_level - 1;
        }
        proof {
            assert(spec_max_table_scan(*self, level as int, 0) == 0);
        }
        0
    }

    /// Level shown for table slot `slot` at `bookshelves` shelves: the
    /// generator's combined draw put through the slot's formula, or 0
    /// for an unenchantable item (which consumes no draws).
    #[verifier::rlimit(50)]
    pub fn calc_enchantment_table_level(
        rand: &mut SimpleRandom,
        slot: i32,
        bookshelves: i32,
        item: Item,
    ) -> (r: i32)
        requires
            old(rand).wf(),
            0 <= slot <= 2,
            0 <= bookshelves <= MAX_SHELVES,
        ensures
            final(rand).wf(),
            r == spec_table_level(old(rand).seed as int, slot as int, bookshelves as int, item).0,
            final(rand).seed == spec_table_level(
                old(rand).seed as int,
                slot as int,
                bookshelves as int,
                item,
            ).1,
            0 <= r <= 0x2000_0000,
    {
        if item.get_enchantability() == 0 {
            return 0;
        }
        if slot == 0 {
            rand.levels_slot1(bookshelves)
        } else if slot == 1 {
            rand.levels_slot2(bookshelves)
        } else {
            rand.levels_slot3(bookshelves)
        }
    }

    /// The enchantment instances allowed at modified level `level` on
    /// `item` under `version`, in catalog order.
    pub fn get_highest_allowed_enchantments(
        level: i32,
        item: Item,
        treasure: bool,
        version: Version,
    ) -> (r: Vec<EnchantmentInstance>)
        ensures
            r@ == spec_highest_allowed(level as int, item, treasure, version),
            r@.len() <= ENCH_COUNT,
    {
        highest_allowed_impl(level as i64, item, treasure, version)
    }

    /// The enchantments drawn onto `item` at base level `level`.
    pub fn add_random_enchantments(
        rand: &mut SimpleRandom,
        item: Item,
        level: i32,
        treasure: bool,
        version: Version,
    ) -> (r: Vec<EnchantmentInstance>)
        requires
            old(rand).wf(),
            0 <= level <= 0x4000_0000,
        ensures
            final(rand).wf(),
            r@ == spec_add_random(old(rand).seed as int, item, level as int, treasure, version).0,
            final(rand).seed == spec_add_random(
                old(rand).seed as int,
                item,
                level as int,
                treasure,
                version,
            ).1,
    {
        add_random_impl(rand, item, level, treasure, version)
    }

    /// The enchantments shown in table slot `slot` for 32-bit table seed
    /// `xp_seed` at slot level `levels`.
    pub fn get_enchantments_in_table(
        rand: &mut SimpleRandom,
        xp_seed: i32,
        item: Item,
        slot: i32,
        levels: i32,
        version: Version,
    ) -> (r: Vec<EnchantmentInstance>)
        requires
            0 <= slot <= 2,
            0 <= levels <= 0x4000_0000,
        ensures
            final(rand).wf(),
            r@ == spec_table_enchantments(xp_seed, item, slot as int, levels as int, version).0,
            final(rand).seed == spec_table_enchantments(
                xp_seed,
                item,
                slot as int,
                levels as int,
                version,
            ).1,
    {
        rand.set_seed(xp_seed as i64 + slot as i64);
        let mut v = add_random_impl(rand, item, levels, false, version);
        if matches!(item, Item::Book) && v.len() > 1 && v.len() < 0x8000_0000 {
            let idx = rand.next_int_bound(v.len() as i32);
            let _removed = v.remove(idx as usize);
        }
        v
    }
}

/// Slot level of one table slot: 0 for an unenchantable item, else the
/// slot formula over the combined draw.
pub open spec fn spec_table_level(s: int, slot: int, sh: int, item: Item) -> (int, int) {
    if spec_enchantability(item) == 0 {
        (0, s)
    } else if slot == 0 {
        rng::slot1_res(s, sh)
    } else if slot == 1 {
        rng::slot2_res(s, sh)
    } else {
        rng::slot3_res(s, sh)
    }
}

/// The allowed-instance list, computed over a wide level to absorb the
/// fractional adjustment.
fn highest_allowed_impl(level: i64, item: Item, treasure: bool, version: Version) -> (r: Vec<
    EnchantmentInstance,
>)
    requires
        -0x200_0000_0000 <= level <= 0x200_0000_0000,
    ensures
        r@ == spec_highest_allowed(level as int, item, treasure, version),
        r@.len() <= ENCH_COUNT,
{
    let mut out: Vec<EnchantmentInstance> = Vec::new();
    if version.before(item.get_introduced_version()) {
        proof {
            assert(out@ =~= spec_highest_allowed(level as int, item, treasure, version));
        }
        return out;
    }
    proof {
        reveal(spec_allowed_upto);
    }
    let mut i: usize = 0;
    while i < ENCH_COUNT
        invariant
            i <= ENCH_COUNT,
            -0x200_0000_0000 <= level <= 0x200_0000_0000,
            spec_version_ord(version) >= spec_version_ord(spec_item_intro(item)),
            out@ == spec_allowed_upto(level as int, item, treasure, version, i as int),
            out@.len() <= i,
        decreases ENCH_COUNT - i,
    {
        let e = Enchantment::from_index(i);
        if !version.before(e.get_introduced_version()) && (treasure || !e.is_treasure())
            && e.can_apply(item, true) {
            let mut lv = e.get_max_level();
            let ghost top = spec_max_level(e);
            let mut found: i32 = 0;
            while lv >= 1
                invariant_except_break
                    found == 0,
                invariant
                    0 <= lv <= top <= 5,
                    -0x200_0000_0000 <= level <= 0x200_0000_0000,
                    spec_highest_level(e, level as int, top) == spec_highest_level(
                        e,
                        level as int,
                        lv as int,
                    ),
                ensures
                    found == spec_highest_level(e, level as int, top),
                decreases lv,
            {
                let minb = e.get_min_enchantability(lv) as i64;
                let maxb = e.get_max_enchantability(lv) as i64;
                if minb <= level && level <= maxb {
                    found = lv;
                    proof {
                        assert(spec_highest_level(e, level as int, lv as int) == lv as int);
                    }
                    break;
                }
                proof {
                    assert(spec_highest_level(e, level as int, lv as int) == spec_highest_level(
                        e,
                        level as int,
                        lv as int - 1,
                    ));
                }
                lv = lv - 1;
            }
            if found >= 1 {
                out.push(EnchantmentInstance { enchantment: e, level: found });
            }
        }
        proof {
            reveal(spec_allowed_upto);
            assert(out@ =~= spec_allowed_upto(level as int, item, treasure, version, i as int + 1));
        }
        i = i + 1;
    }
    out
}

/// One weighted random pick: remove and return an instance with
/// probability proportional to its weight; `None` when the total weight
/// is not positive.
fn weighted_random(
    rand: &mut SimpleRandom,
    v: &mut Vec<EnchantmentInstance>,
    version: Version,
) -> (r: Option<EnchantmentInstance>)
    requires
        old(rand).wf(),
        old(v)@.len() <= ENCH_COUNT,
    ensures
        final(rand).wf(),
        r == spec_weighted_random(old(rand).seed as int, old(v)@, version).0,
        final(v)@ == spec_weighted_random(old(rand).seed as int, old(v)@, version).1,
        final(rand).seed == spec_weighted_random(old(rand).seed as int, old(v)@, version).2,
        final(v)@.len() == (if spec_total_weight(old(v)@, version) <= 0 {
            old(v)@.len()
        } else {
            (old(v)@.len() - 1) as nat
        }),
{
    let ghost orig = v@;
    let n = v.len();
    let mut total: i32 = 0;
    let mut i: usize = 0;
    proof {
        assert(orig.skip(0) =~= orig);
    }
    while i < n
        invariant
            i <= n,
            n == orig.len() <= 37,
            v@ == orig,
            total + spec_total_weight(orig.skip(i as int), version) == spec_total_weight(
                orig,
                version,
            ),
            0 <= total <= 30 * i,
        decreases n - i,
    {
        proof {
            assert(orig.skip(i as int).drop_first() =~= orig.skip(i as int + 1));
            assert(orig.skip(i as int)[0] == orig[i as int]);
        }
        total = total + v[i].enchantment.get_weight(version);
        i = i + 1;
    }
    proof {
        assert(orig.skip(n as int) =~= Seq::<EnchantmentInstance>::empty());
        assert(total == spec_total_weight(orig, version));
    }
    if total <= 0 {
        return None;
    }
    let w = rand.next_int_bound(total);
    let mut ww: i32 = w;
    let mut j: usize = 0;
    proof {
        assert(orig.skip(0) =~= orig);
    }
    loop
        invariant
            rand.wf(),
            v@ == orig,
            n == orig.len() <= 37,
            j < n,
            0 <= ww,
            ww < spec_total_weight(orig.skip(j as int), version),
            spec_pick_index(orig, w as int, version) == j + spec_pick_index(
                orig.skip(j as int),
                ww as int,
                version,
            ),
            ww <= w < total,
            total == spec_total_weight(orig, version),
            rand.seed == bounded_res(old(rand).seed as int, total).1,
            w == bounded_res(old(rand).seed as int, total).0,
        ensures
            rand.wf(),
            v@ == orig,
            rand.seed == bounded_res(old(rand).seed as int, total).1,
            w == bounded_res(old(rand).seed as int, total).0,
            total == spec_total_weight(orig, version),
            j < n,
            j == spec_pick_index(orig, w as int, version),
        decreases n - j,
    {
        let ghost tj = orig.skip(j as int);
        proof {
            assert(tj.len() > 0);
            assert(tj.drop_first() =~= orig.skip(j as int + 1));
            assert(tj[0] == orig[j as int]);
            assert(spec_total_weight(tj, version) == spec_weight(tj[0].enchantment, version)
                + spec_total_weight(tj.drop_first(), version));
        }
        let wj = v[j].enchantment.get_weight(version);
        if ww - wj < 0 {
            proof {
                assert(spec_pick_index(tj, ww as int, version) == 0);
            }
            break;
        }
        proof {
            assert(spec_pick_index(tj, ww as int, version) == 1 + spec_pick_index(
                tj.drop_first(),
                ww as int - spec_weight(tj[0].enchantment, version),
                version,
            ));
        }
        ww = ww - wj;
        j = j + 1;
        proof {
            if j == n {
                assert(orig.skip(n as int) =~= Seq::<EnchantmentInstance>::empty());
                assert(false);
            }
        }
    }
    let picked = v.remove(j);
    Some(picked)
}

/// Rebuild `allowed`, keeping only instances compatible with `e`.
fn retain_compatible(
    allowed: &mut Vec<EnchantmentInstance>,
    e: Enchantment,
    version: Version,
) -> (u: ())
    ensures
        final(allowed)@ == old(allowed)@.filter(compat_pred(e, version)),
        final(allowed)@.len() <= old(allowed)@.len(),
{
    let ghost orig = allowed@;
    let ghost pred = compat_pred(e, version);
    let n = allowed.len();
    let mut kept: Vec<EnchantmentInstance> = Vec::new();
    let mut i: usize = 0;
    proof {
        assert(orig.subrange(0, 0).filter(pred) =~= Seq::<EnchantmentInstance>::empty());
    }
    while i < n
        invariant
            i <= n,
            n == orig.len(),
            allowed@ == orig,
            pred == compat_pred(e, version),
            kept@ == orig.subrange(0, i as int).filter(pred),
            kept@.len() <= i,
        decreases n - i,
    {
        let x = allowed[i];
        let keep = x.enchantment.is_compatible_with(e, version);
        if keep {
            kept.push(x);
        }
        proof {
            let pre = orig.subrange(0, i as int);
            let ext = orig.subrange(0, i as int + 1);
            assert(ext =~= pre + seq![x]);
            Seq::<EnchantmentInstance>::filter_distributes_over_add(pre, seq![x], pred);
            lemma_filter_singleton_ei(x, pred);
            assert(pred(x) == keep);
            assert(kept@ =~= ext.filter(pred));
            pre.lemma_filter_len(pred);
        }
        i = i + 1;
    }
    proof {
        assert(orig.subrange(0, n as int) =~= orig);
    }
    *allowed = kept;
}

proof fn lemma_filter_singleton_ei(
    x: EnchantmentInstance,
    pred: spec_fn(EnchantmentInstance) -> bool,
)
    ensures
        seq![x].filter(pred) == if pred(x) {
            seq![x]
        } else {
            Seq::<EnchantmentInstance>::empty()
        },
{
    reveal(Seq::filter);
    let s = seq![x];
    assert(s.drop_last() =~= Seq::<EnchantmentInstance>::empty());
    assert(Seq::<EnchantmentInstance>::empty().filter(pred) =~= Seq::<
        EnchantmentInstance,
    >::empty());
    if pred(x) {
        assert(s.filter(pred) =~= seq![x]);
    } else {
        assert(s.filter(pred) =~= Seq::<EnchantmentInstance>::empty());
    }
}

/// Apply the compatibility filter for every picked instance, in order.
fn compat_filter_all(
    allowed: &mut Vec<EnchantmentInstance>,
    enchs: &Vec<EnchantmentInstance>,
    version: Version,
) -> (u: ())
    ensures
        final(allowed)@ == spec_compat_filter(old(allowed)@, enchs@, version),
        final(allowed)@.len() <= old(allowed)@.len(),
{
    let n = enchs.len();
    let mut i: usize = 0;
    proof {
        assert(enchs@.skip(0) =~= enchs@);
    }
    while i < n
        invariant
            i <= n,
            n == enchs@.len(),
            spec_compat_filter(old(allowed)@, enchs@, version) == spec_compat_filter(
                allowed@,
                enchs@.skip(i as int),
                version,
            ),
            allowed@.len() <= old(allowed)@.len(),
        decreases n - i,
    {
        proof {
            assert(enchs@.skip(i as int).drop_first() =~= enchs@.skip(i as int + 1));
            assert(enchs@.skip(i as int)[0] == enchs@[i as int]);
        }
        retain_compatible(allowed, enchs[i].enchantment, version);
        i = i + 1;
    }
    proof {
        assert(enchs@.skip(n as int) =~= Seq::<EnchantmentInstance>::empty());
    }
}

#[verifier::rlimit(80)]
fn add_random_impl(
    rand: &mut SimpleRandom,
    item: Item,
    level: i32,
    treasure: bool,
    version: Version,
) -> (r: Vec<EnchantmentInstance>)
    requires
        old(rand).wf(),
        0 <= level <= 0x4000_0000,
    ensures
        final(rand).wf(),
        r@ == spec_add_random(old(rand).seed as int, item, level as int, treasure, version).0,
        final(rand).seed == spec_add_random(
            old(rand).seed as int,
            item,
            level as int,
            treasure,
            version,
        ).1,
{
    proof {
        reveal(spec_add_random);
    }
    let ghost s0 = rand.seed as int;
    let mut enchs: Vec<EnchantmentInstance> = Vec::new();
    let enchantability = item.get_enchantability();
    if enchantability <= 0 {
        proof {
            assert(enchs@ =~= spec_add_random(s0, item, level as int, treasure, version).0);
        }
        return enchs;
    }
    let d1 = rand.next_int_bound(enchantability / 4 + 1);
    let d2 = rand.next_int_bound(enchantability / 4 + 1);
    let lv1: i64 = level as i64 + 1 + d1 as i64 + d2 as i64;
    let a31 = rand.next_int();
    let fa: u64 = (a31 / 128) as u64;
    proof {
        lemma_div_denominator(rand.seed as int, 0x20000, 128);
        assert(fa == raw24(rand.seed as int));
        assert(fa < 0x100_0000);
    }
    let b31 = rand.next_int();
    let fb: u64 = (b31 / 128) as u64;
    proof {
        lemma_div_denominator(rand.seed as int, 0x20000, 128);
        assert(fb == raw24(rand.seed as int));
        assert(fb < 0x100_0000);
    }
    let delta = float_percent_delta(fa, fb, lv1);
    let lv2: i64 = lv1 + delta;
    let lv3: i64 = if lv2 < 1 {
        1
    } else {
        lv2
    };
    let mut allowed = highest_allowed_impl(lv3, item, treasure, version);
    if allowed.len() == 0 {
        proof {
            assert(enchs@ =~= spec_add_random(s0, item, level as int, treasure, version).0);
        }
        return enchs;
    }
    let first_pick = weighted_random(rand, &mut allowed, version);
    match first_pick {
        Some(e) => {
            enchs.push(e);
        },
        None => {},
    }
    let ghost init = PickLoopState {
        s: rand.seed as int,
        level: lv3 as int,
        allowed: allowed@,
        enchs: enchs@,
        done: false,
    };
    let mut lv_cur: i64 = lv3;
    let mut count: u64 = 0;
    proof {
        reveal(spec_pick_iter);
        assert(spec_pick_iter(item, treasure, version, init, 0) == init);
    }
    loop
        invariant_except_break
            rand.wf(),
            count < PICK_CAP,
            -0x200_0000_0000 <= lv_cur <= 0x200_0000_0000,
            allowed@.len() <= ENCH_COUNT,
            spec_pick_iter(item, treasure, version, init, count as nat) == (PickLoopState {
                s: rand.seed as int,
                level: lv_cur as int,
                allowed: allowed@,
                enchs: enchs@,
                done: false,
            }),
        ensures
            rand.wf(),
            rand.seed == spec_pick_final(item, treasure, version, init).s,
            enchs@ == spec_pick_final(item, treasure, version, init).enchs,
        decreases PICK_CAP - count,
    {
        let ghost st = spec_pick_iter(item, treasure, version, init, count as nat);
        let w = rand.next_int_bound(50);
        proof {
            reveal(spec_pick_iter);
            assert(spec_pick_iter(item, treasure, version, init, count as nat + 1)
                == spec_pick_step(item, treasure, version, st));
        }
        if w as i64 > lv_cur {
            proof {
                lemma_pick_frozen(
                    item,
                    treasure,
                    version,
                    init,
                    (count + 1) as nat,
                    0x1_0000_0000_0000,
                );
            }
            break;
        }
        if matches!(version, Version::V1_14) {
            lv_cur = lv_cur * 4 / 5 + 1;
            allowed = highest_allowed_impl(lv_cur, item, treasure, version);
        }
        compat_filter_all(&mut allowed, &enchs, version);
        if allowed.len() == 0 {
            proof {
                lemma_pick_frozen(
                    item,
                    treasure,
                    version,
                    init,
                    (count + 1) as nat,
                    0x1_0000_0000_0000,
                );
            }
            break;
        }
        let pick = weighted_random(rand, &mut allowed, version);
        match pick {
            Some(e) => {
                enchs.push(e);
            },
            None => {},
        }
        lv_cur = lv_cur / 2;
        count = count + 1;
        if count == PICK_CAP {
            proof {
                assert(spec_pick_final(item, treasure, version, init) == spec_pick_iter(
                    item,
                    treasure,
                    version,
                    init,
                    count as nat,
                ));
            }
            break;
        }
    }
    enchs
}

} // verus!
