//! The seed search engine: partitioned exhaustive search over the 32-bit
//! seed domain, with incremental refinement of the candidate set.
//!
//! Each worker owns one disjoint partition of the domain. Bootstrap scans
//! the partition once; refinement only intersects the existing candidate
//! set with the seeds that also reproduce a further observation.

use vstd::prelude::*;
use vstd::arithmetic::div_mod::{
    lemma_fundamental_div_mod,
    lemma_fundamental_div_mod_converse,
    lemma_div_is_ordered_by_denominator,
};
use vstd::arithmetic::mul::lemma_mul_inequality;
use crate::rng::{SimpleRandom, verify_res, MAX_SHELVES};

verus! {

/// One observed "table opening": a shelf count and the three outcome
/// levels it showed.
#[derive(Copy, Clone)]
pub struct EnchantmentTableInfo {
    pub shelves: i32,
    pub slot1: i32,
    pub slot2: i32,
    pub slot3: i32,
}

impl EnchantmentTableInfo {
    pub fn new(shelves: i32, slot1: i32, slot2: i32, slot3: i32) -> (r: Self)
        ensures
            r.shelves == shelves,
            r.slot1 == slot1,
            r.slot2 == slot2,
            r.slot3 == slot3,
    {
        EnchantmentTableInfo { shelves, slot1, slot2, slot3 }
    }

    /// The observation is within the verifier's accepted shelf range.
    pub open spec fn ok(&self) -> bool {
        0 <= self.shelves <= MAX_SHELVES
    }
}

/// Does `seed` reproduce the observation `info`?
pub open spec fn seed_matches(seed: i32, info: EnchantmentTableInfo) -> bool {
    verify_res(seed, info.shelves as int, info.slot1 as int, info.slot2 as int, info.slot3 as int)
}

/// The refinement predicate of one observation, as a function value.
pub open spec fn refine_pred(info: EnchantmentTableInfo) -> spec_fn(i32) -> bool {
    |x: i32| seed_matches(x, info)
}

/// Does `seed` reproduce both observations?
pub open spec fn seed_matches2(
    seed: i32,
    a: EnchantmentTableInfo,
    b: EnchantmentTableInfo,
) -> bool {
    seed_matches(seed, a) && seed_matches(seed, b)
}

/// Nominal length of one worker's partition: `floor(2^32 / threads)`,
/// computed in 64-bit unsigned arithmetic.
pub open spec fn part_size(threads: int) -> int {
    0x1_0000_0000int / threads
}

/// First seed of worker `id`'s partition.
pub open spec fn part_start(id: int, threads: int) -> int {
    -0x8000_0000 + part_size(threads) * id
}

/// One-past-the-last seed of worker `id`'s partition. The last worker's
/// range is extended by the worker count to absorb the division
/// remainder; since a half-open range over the signed 32-bit seeds can
/// never include the domain's positive extreme, the extension is clamped
/// there and that one seed is tested explicitly instead.
pub open spec fn part_end(id: int, threads: int) -> int {
    let nominal = part_start(id, threads) + part_size(threads);
    if id == threads - 1 {
        if nominal + threads > 0x7FFF_FFFF {
            0x7FFF_FFFF
        } else {
            nominal + threads
        }
    } else {
        nominal
    }
}

/// Worker `id` is responsible for seed `s`: either `s` lies in its
/// half-open range, or `s` is the explicit boundary seed (the domain's
/// positive extreme, which no half-open range can include) and `id` is
/// the last worker.
pub open spec fn covers(id: int, threads: int, s: int) -> bool {
    (part_start(id, threads) <= s < part_end(id, threads)) || (id == threads - 1 && s
        == 0x7FFF_FFFF)
}

/// The seeds in `[lo, hi)` that reproduce both observations, in ascending
/// order.
pub open spec fn scan_seq(
    lo: int,
    hi: int,
    a: EnchantmentTableInfo,
    b: EnchantmentTableInfo,
) -> Seq<i32>
    decreases hi - lo,
{
    if lo >= hi {
        Seq::empty()
    } else {
        scan_seq(lo, hi - 1, a, b) + (if seed_matches2((hi - 1) as i32, a, b) {
            seq![(hi - 1) as i32]
        } else {
            Seq::empty()
        })
    }
}

/// The extra boundary seed kept by the last worker, when it matches.
pub open spec fn boundary_seq(
    id: int,
    threads: int,
    a: EnchantmentTableInfo,
    b: EnchantmentTableInfo,
) -> Seq<i32> {
    if id == threads - 1 && seed_matches2(0x7FFF_FFFF, a, b) {
        seq![0x7FFF_FFFFi32]
    } else {
        Seq::empty()
    }
}

/// End of a non-final worker's range: start plus the nominal size.
fn nominal_end(start_i64: i64, size: u64) -> (r: i32)
    requires
        -0x8000_0000 <= start_i64,
        start_i64 + size <= 0x7FFF_FFFF,
        size <= 0x1_0000_0000,
    ensures
        r == start_i64 + size,
{
    (start_i64 + (size as i64)) as i32
}

/// One worker of the seed search engine.
pub struct Cracker {
    possible_seeds: Vec<i32>,
    start: i32,
    end: i32,
    thread_id: usize,
    threads: usize,
    rng: SimpleRandom,
}

impl Cracker {
    /// The partition bounds agree with the worker's index and count.
    pub closed spec fn wf(&self) -> bool {
        &&& 1 <= self.threads <= 0xFFFF_FFFF
        &&& self.thread_id < self.threads
        &&& self.start == part_start(self.thread_id as int, self.threads as int)
        &&& self.end == part_end(self.thread_id as int, self.threads as int)
        &&& self.rng.wf()
    }

    pub closed spec fn seeds(&self) -> Seq<i32> {
        self.possible_seeds@
    }

    pub closed spec fn spec_thread_id(&self) -> int {
        self.thread_id as int
    }

    pub closed spec fn spec_threads(&self) -> int {
        self.threads as int
    }

    /// Create the worker for partition `thread_id` of `threads`.
    pub fn new(thread_id: usize, threads: usize) -> (r: Self)
        requires
            1 <= threads <= 0xFFFF_FFFF,
            thread_id < threads,
        ensures
            r.wf(),
            r.seeds() == Seq::<i32>::empty(),
            r.spec_thread_id() == thread_id,
            r.spec_threads() == threads,
    {
        let size: u64 = 0x1_0000_0000u64 / (threads as u64);
        let ghost tid: int = thread_id as int;
        let ghost th: int = threads as int;
        proof {
            assert(size == part_size(th));
            lemma_fundamental_div_mod(0x1_0000_0000int, th);
            lemma_div_is_ordered_by_denominator(0x1_0000_0000int, th, 0xFFFF_FFFF);
            lemma_fundamental_div_mod_converse(0x1_0000_0000, 0xFFFF_FFFF, 1, 1);
            assert(size >= 1);
            lemma_mul_inequality(tid + 1, th, size as int);
            assert((size as int) * th <= 0x1_0000_0000) by (nonlinear_arith)
                requires
                    0x1_0000_0000 == th * (size as int) + 0x1_0000_0000int % th,
                    0 <= 0x1_0000_0000int % th,
            {}
            assert((size as u64) * (thread_id as u64) == (size as int) * tid) by (nonlinear_arith)
                requires
                    size <= 0x1_0000_0000,
                    thread_id < 0x1_0000_0000,
                    tid == thread_id as int,
            {}
            assert((size as int) * tid + size as int == (size as int) * (tid + 1))
                by (nonlinear_arith);
            assert((tid + 1) * (size as int) == (size as int) * (tid + 1)) by (nonlinear_arith);
            assert(th * (size as int) == (size as int) * th) by (nonlinear_arith);
            assert((size as int) * (tid + 1) <= 0x1_0000_0000);
        }
        let offset: u64 = size * (thread_id as u64);
        let start_i64: i64 = (i32::MIN as i64) + (offset as i64);
        let start: i32 = start_i64 as i32;
        let end: i32 = if thread_id == threads - 1 {
            let extended: i64 = start_i64 + (size as i64) + (threads as i64);
            if extended > (i32::MAX as i64) {
                i32::MAX
            } else {
                extended as i32
            }
        } else {
            proof {
                lemma_mul_inequality(tid + 1, th - 1, size as int);
                assert((tid + 1) * (size as int) == (size as int) * (tid + 1))
                    by (nonlinear_arith);
                assert((th - 1) * (size as int) == (size as int) * th - size as int)
                    by (nonlinear_arith);
            }
            nominal_end(start_i64, size)
        };
        proof {
            assert(start == part_start(tid, th));
            assert(end == part_end(tid, th));
        }
        Cracker {
            possible_seeds: Vec::new(),
            start,
            end,
            thread_id,
            threads,
            rng: Default::default(),
        }
    }

    /// Forget every candidate; the partition is unchanged.    /// Forget every candidate; the partition is unchanged.
    pub fn reset(&mut self)
        ensures
            final(self).seeds() == Seq::<i32>::empty(),
            final(self).wf() == old(self).wf(),
            final(self).spec_thread_id() == old(self).spec_thread_id(),
            final(self).spec_threads() == old(self).spec_threads(),
    {
        self.possible_seeds.clear();
    }

    /// How many candidate seeds remain.
    pub fn possible_seeds(&self) -> (r: usize)
        ensures
            r == self.seeds().len(),
    {
        self.possible_seeds.len()
    }

    /// The first remaining candidate.
    pub fn seed(&self) -> (r: i32)
        requires
            self.seeds().len() > 0,
        ensures
            r == self.seeds()[0],
    {
        self.possible_seeds[0]
    }

    /// Is `x` among the candidates?
    pub fn contains(&self, x: i32) -> (r: bool)
        ensures
            r == self.seeds().contains(x),
    {
        let n = self.possible_seeds.len();
        let mut i: usize = 0;
        while i < n
            invariant
                i <= n,
                n == self.seeds().len(),
                forall|j: int| 0 <= j < i ==> self.seeds()[j] != x,
            decreases n - i,
        {
            if self.possible_seeds[i] == x {
                return true;
            }
            i = i + 1;
        }
        false
    }

    /// Bootstrap: scan every seed of this worker's partition (plus, for the
    /// last worker, the explicit boundary seed) and keep those that
    /// reproduce both observations. Appends to the current candidate set,
    /// in ascending seed order.
    pub fn first_input(&mut self, info: EnchantmentTableInfo, info2: EnchantmentTableInfo)
        requires
            old(self).wf(),
            info.ok(),
            info2.ok(),
        ensures
            final(self).wf(),
            final(self).spec_thread_id() == old(self).spec_thread_id(),
            final(self).spec_threads() == old(self).spec_threads(),
            final(self).seeds() == old(self).seeds() + scan_seq(
                part_start(old(self).spec_thread_id(), old(self).spec_threads()),
                part_end(old(self).spec_thread_id(), old(self).spec_threads()),
                info,
                info2,
            ) + boundary_seq(old(self).spec_thread_id(), old(self).spec_threads(), info, info2),
    {
        let ghost lo: int = self.start as int;
        let ghost orig: Seq<i32> = self.possible_seeds@;
        let mut s = self.start;
        if s < self.end {
            while s < self.end
                invariant
                    self.wf(),
                    self.start == old(self).start,
                    self.end == old(self).end,
                    self.thread_id == old(self).thread_id,
                    self.threads == old(self).threads,
                    lo == self.start as int,
                    info.ok(),
                    info2.ok(),
                    lo <= s as int <= self.end as int,
                    self.possible_seeds@ == orig + scan_seq(lo, s as int, info, info2),
                decreases self.end as int - s as int,
            {
                let m1 = self.rng.verify_seed(s, (info.shelves, info.slot1, info.slot2, info.slot3));
                let m2 = self.rng.verify_seed(
                    s,
                    (info2.shelves, info2.slot1, info2.slot2, info2.slot3),
                );
                if m1 && m2 {
                    self.possible_seeds.push(s);
                }
                proof {
                    assert(scan_seq(lo, s as int + 1, info, info2) == scan_seq(lo, s as int, info, info2)
                        + (if seed_matches2(s, info, info2) {
                        seq![s]
                    } else {
                        Seq::<i32>::empty()
                    }));
                    assert(self.possible_seeds@ =~= orig + scan_seq(lo, s as int + 1, info, info2));
                }
                s = s + 1;
            }
        }
        proof {
            if self.start as int >= self.end as int {
                assert(scan_seq(lo, self.end as int, info, info2) == Seq::<i32>::empty());
                assert(self.possible_seeds@ == orig + scan_seq(lo, self.end as int, info, info2));
            }
        }
        if self.thread_id == self.threads - 1 {
            let m1 = self.rng.verify_seed(
                i32::MAX,
                (info.shelves, info.slot1, info.slot2, info.slot3),
            );
            if m1 && self.rng.verify_seed(
                i32::MAX,
                (info2.shelves, info2.slot1, info2.slot2, info2.slot3),
            ) {
                self.possible_seeds.push(i32::MAX);
            }
        }
        proof {
            assert(final(self).seeds() =~= old(self).seeds() + scan_seq(
                part_start(old(self).spec_thread_id(), old(self).spec_threads()),
                part_end(old(self).spec_thread_id(), old(self).spec_threads()),
                info,
                info2,
            ) + boundary_seq(old(self).spec_thread_id(), old(self).spec_threads(), info, info2));
        }
    }

    /// Refine: keep only the candidates that also reproduce `info`.
    /// An intersection over the existing set, never a re-scan.
    #[verifier::rlimit(30)]
    pub fn add_input(&mut self, info: EnchantmentTableInfo)
        requires
            old(self).wf(),
            info.ok(),
        ensures
            final(self).wf(),
            final(self).spec_thread_id() == old(self).spec_thread_id(),
            final(self).spec_threads() == old(self).spec_threads(),
            final(self).seeds() == old(self).seeds().filter(refine_pred(info)),
    {
        let ghost pred = refine_pred(info);
        let ghost orig: Seq<i32> = self.possible_seeds@;
        let n = self.possible_seeds.len();
        let mut kept: Vec<i32> = Vec::new();
        let mut i: usize = 0;
        proof {
            assert(orig.subrange(0, 0).filter(pred) =~= Seq::<i32>::empty());
        }
        while i < n
            invariant
                self.wf(),
                self.possible_seeds@ == old(self).possible_seeds@,
                self.start == old(self).start,
                self.end == old(self).end,
                self.thread_id == old(self).thread_id,
                self.threads == old(self).threads,
                info.ok(),
                i <= n,
                n == orig.len(),
                orig == self.possible_seeds@,
                pred == refine_pred(info),
                kept@ == orig.subrange(0, i as int).filter(pred),
            decreases n - i,
        {
            let s = self.possible_seeds[i];
            let keep = self.rng.verify_seed(s, (info.shelves, info.slot1, info.slot2, info.slot3));
            if keep {
                kept.push(s);
            }
            proof {
                let pre = orig.subrange(0, i as int);
                let ext = orig.subrange(0, i as int + 1);
                assert(ext =~= pre + seq![s]);
                Seq::<i32>::filter_distributes_over_add(pre, seq![s], pred);
                lemma_filter_singleton(s, pred);
                assert(pred(s) == seed_matches(s, info));
                assert(keep == pred(s));
                assert(kept@ =~= ext.filter(pred));
            }
            i = i + 1;
        }
        proof {
            assert(orig.subrange(0, n as int) =~= orig);
        }
        self.possible_seeds = kept;
    }
}

/// Filtering a one-element sequence keeps or drops its single element.
proof fn lemma_filter_singleton(x: i32, pred: spec_fn(i32) -> bool)
    ensures
        seq![x].filter(pred) == if pred(x) {
            seq![x]
        } else {
            Seq::<i32>::empty()
        },
{
    reveal(Seq::filter);
    let s = seq![x];
    assert(s.drop_last() =~= Seq::<i32>::empty());
    assert(Seq::<i32>::empty().filter(pred) =~= Seq::<i32>::empty());
    if pred(x) {
        assert(s.filter(pred) =~= seq![x]);
    } else {
        assert(s.filter(pred) =~= Seq::<i32>::empty());
    }
}

/// A sequence every element of which satisfies the predicate is unchanged
/// by filtering.
proof fn lemma_filter_all_true(s: Seq<i32>, pred: spec_fn(i32) -> bool)
    requires
        forall|i: int| 0 <= i < s.len() ==> pred(s[i]),
    ensures
        s.filter(pred) == s,
    decreases s.len(),
{
    reveal(Seq::filter);
    if s.len() == 0 {
        assert(s.filter(pred) =~= s);
    } else {
        lemma_filter_all_true(s.drop_last(), pred);
        assert(pred(s.last()));
        assert(s.filter(pred) =~= s.drop_last().push(s.last()));
        assert(s.drop_last().push(s.last()) =~= s);
    }
}

/// Refinement is idempotent and monotonic: refining with the same
/// observation twice yields the same candidate set as refining once, and
/// refinement never grows the candidate set.
pub proof fn lemma_refine_idempotent_monotonic(s: Seq<i32>, info: EnchantmentTableInfo)
    ensures
        s.filter(refine_pred(info)).filter(refine_pred(info)) == s.filter(refine_pred(info)),
        s.filter(refine_pred(info)).len() <= s.len(),
{
    let pred = refine_pred(info);
    let f = s.filter(pred);
    assert forall|i: int| 0 <= i < f.len() implies pred(f[i]) by {
        s.lemma_filter_pred(pred, i);
    }
    lemma_filter_all_true(f, pred);
    s.lemma_filter_len(pred);
}

/// Every seed of the 32-bit domain is covered by exactly one worker:
/// the partitions, each extended as `part_end` describes and the last
/// worker's explicit boundary seed included, union to the full signed
/// 32-bit domain with no gaps and no overlaps, for every worker count.
pub proof fn lemma_partition_exact_cover(threads: int, s: int)
    requires
        1 <= threads <= 0xFFFF_FFFF,
        -0x8000_0000 <= s <= 0x7FFF_FFFF,
    ensures
        exists|id: int| 0 <= id < threads && covers(id, threads, s),
        forall|id1: int, id2: int|
            (0 <= id1 < threads && 0 <= id2 < threads && covers(id1, threads, s) && covers(
                id2,
                threads,
                s,
            )) ==> id1 == id2,
{
    let q = part_size(threads);
    lemma_fundamental_div_mod(0x1_0000_0000int, threads);
    let rr = 0x1_0000_0000int % threads;
    assert(0x1_0000_0000 == threads * q + rr);
    assert(0 <= rr < threads);
    lemma_div_is_ordered_by_denominator(0x1_0000_0000int, threads, 0xFFFF_FFFF);
    lemma_fundamental_div_mod_converse(0x1_0000_0000, 0xFFFF_FFFF, 1, 1);
    assert(q >= 1);
    assert(threads * q == q * threads) by (nonlinear_arith);
    // the last worker's extended end reaches past the maximum, so it is
    // clamped there
    assert(q * (threads - 1) + q == q * threads) by (nonlinear_arith);
    assert(part_start(threads - 1, threads) + q + threads == -0x8000_0000 + q * threads + threads);
    assert(part_end(threads - 1, threads) == 0x7FFF_FFFF);
    // range starts grow with the worker index
    assert forall|a: int, b: int| 0 <= a <= b < threads implies part_start(a, threads)
        <= part_start(b, threads) by {
        lemma_mul_inequality(a, b, q);
        assert(a * q == q * a) by (nonlinear_arith);
        assert(b * q == q * b) by (nonlinear_arith);
    }
    // consecutive workers' ranges abut
    assert forall|a: int| 0 <= a < threads - 1 implies part_end(a, threads) == part_start(
        a + 1,
        threads,
    ) by {
        assert(q * (a + 1) == q * a + q) by (nonlinear_arith);
    }
    // existence
    if s == 0x7FFF_FFFF {
        assert(covers(threads - 1, threads, s));
    } else {
        let off = s + 0x8000_0000;
        if off >= q * threads {
            assert(part_start(threads - 1, threads) <= s);
            assert(s < part_end(threads - 1, threads));
            assert(covers(threads - 1, threads, s));
        } else {
            let id = off / q;
            lemma_fundamental_div_mod(off, q);
            assert(off == q * id + off % q);
            assert(id < threads) by (nonlinear_arith)
                requires
                    off < q * threads,
                    off == q * id + off % q,
                    off % q >= 0,
                    q >= 1,
                    id == off / q,
                    off >= 0,
            {}
            assert(id >= 0) by (nonlinear_arith)
                requires
                    off >= 0,
                    q >= 1,
                    id == off / q,
            {}
            assert(part_start(id, threads) <= s < part_start(id, threads) + q);
            if id == threads - 1 {
                assert(s < part_end(id, threads));
            } else {
                assert(part_end(id, threads) == part_start(id, threads) + q);
            }
            assert(covers(id, threads, s));
        }
    }
    // uniqueness: ranges abut, so an earlier range ends no later than a
    // later one starts, and the boundary seed lies at or past every
    // range's end
    assert(part_start(threads - 1, threads) <= 0x7FFF_FFFF);
    assert forall|id1: int, id2: int|
        (0 <= id1 < threads && 0 <= id2 < threads && covers(id1, threads, s) && covers(
            id2,
            threads,
            s,
        )) implies id1 == id2 by {
        if id1 != id2 {
            let a = if id1 < id2 { id1 } else { id2 };
            let b = if id1 < id2 { id2 } else { id1 };
            // a < b <= threads - 1, so covers(a) cannot hold through the
            // boundary clause
            assert(part_start(a, threads) <= s < part_end(a, threads));
            assert(part_end(a, threads) <= part_start(b, threads));
            // so covers(b) holds neither through b's range nor, since the
            // boundary seed is at least the last range's start, through
            // the boundary clause
            assert(false);
        }
    }
}

} // verus!
