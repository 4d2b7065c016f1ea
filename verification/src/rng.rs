//! The deterministic 48-bit linear congruential generator and the
//! observation verifier built on top of it.
//!
//! Every state transition is pinned down by the spec functions `lcg_next`,
//! `seed_init` and `raw31`; the rejection-sampling loop of `next_int_bound`
//! is described by an absorbing step function (`rej_iter`), so the result of
//! a terminating run is a deterministic function of the starting state.

use vstd::prelude::*;
use vstd::arithmetic::div_mod::{lemma_mod_mod, lemma_add_mod_noop};

verus! {

/// Multiplier of the linear congruential generator.
pub const MULTIPLIER: u64 = 0x5DEECE66D;
/// Additive increment of the linear congruential generator.
pub const INCREMENT: u64 = 0xB;
/// The generator state is confined to 48 bits.
pub const STATE_MASK: u64 = 0xFFFF_FFFF_FFFF;

/// One generator step on the mathematical 48-bit state.
pub open spec fn lcg_next(s: int) -> int {
    (s * 0x5DEECE66D + 0xB) % 0x1_0000_0000_0000
}

/// `n` generator steps.
pub open spec fn lcg_iter(s: int, n: nat) -> int
    decreases n,
{
    if n == 0 {
        s
    } else {
        lcg_next(lcg_iter(s, (n - 1) as nat))
    }
}

/// The state loaded by `set_seed`: the raw seed scrambled with the
/// multiplier and masked to 48 bits.
pub open spec fn seed_init(raw: i64) -> int {
    (((raw as u64) ^ 0x5DEECE66D) & 0xFFFF_FFFF_FFFF) as int
}

/// The 31-bit output drawn from a 48-bit state (unsigned shift by 17).
pub open spec fn raw31(s: int) -> int {
    s / 0x20000
}

/// The top 24 bits of a 48-bit state (used for fractional draws).
pub open spec fn raw24(s: int) -> int {
    s / 0x100_0000
}

/// `lcg_iter` composes additively in the step count.
pub proof fn lemma_lcg_iter_add(s: int, m: nat, n: nat)
    ensures
        lcg_iter(s, m + n) == lcg_iter(lcg_iter(s, m), n),
    decreases n,
{
    if n > 0 {
        lemma_lcg_iter_add(s, m, (n - 1) as nat);
    }
}

/// Acceptance test of the rejection sampler: the draw `u` is kept for bound
/// `b` when `u - u % b + (b - 1)` still fits in the positive 32-bit range.
pub open spec fn accepts(u: int, b: int) -> bool {
    u - u % b + (b - 1) < 0x8000_0000
}

/// One step of the rejection loop. The state is (generator state, last
/// draw, accepted); an accepted state is absorbing.
pub open spec fn rej_step(b: int, st: (int, int, bool)) -> (int, int, bool) {
    if st.2 {
        st
    } else {
        let s1 = lcg_next(st.0);
        let u = raw31(s1);
        (s1, u, accepts(u, b))
    }
}

/// The rejection loop state after `k` draws from state `s`.
#[verifier::opaque]
pub open spec fn rej_iter(s: int, b: int, k: nat) -> (int, int, bool)
    decreases k,
{
    if k == 0 {
        (s, 0, false)
    } else {
        rej_step(b, rej_iter(s, b, (k - 1) as nat))
    }
}

/// Cap on the number of rejection draws: one full generator period. The
/// generator is a full-period congruential permutation of the 48-bit state
/// space (odd increment, multiplier congruent to 1 modulo 4), so every
/// 31-bit output value -- in particular 0, which every bound accepts --
/// occurs within this many draws; the cap is therefore never reached at
/// run time, and it makes the loop bounded.
pub const REJECT_CAP: u64 = 0x1_0000_0000_0000;

/// An accepted state is a fixpoint of `rej_step`.
pub proof fn lemma_lcg_exec(si: int, a: int, b: int, c: int)
    requires
        0 <= si,
        a == (si * 0x5DEECE66D) % 0x1_0000_0000_0000_0000,
        b == (a + 0xB) % 0x1_0000_0000_0000_0000,
        c == b % 0x1_0000_0000_0000,
    ensures
        c == lcg_next(si),
{
    let m64: int = 0x1_0000_0000_0000_0000;
    let x = si * 0x5DEECE66D;
    lemma_add_mod_noop(x, 0xB, m64);
    assert(0xB as int % m64 == 0xB);
    assert((a + 0xB) % m64 == (x + 0xB) % m64);
    lemma_mod_mod(x + 0xB, 0x1_0000_0000_0000, 0x1_0000);
    assert(0x1_0000_0000_0000 * 0x1_0000 == 0x1_0000_0000_0000_0000) by (nonlinear_arith);
    assert(c == (x + 0xB) % 0x1_0000_0000_0000);
}

proof fn lemma_rej_frozen(s: int, b: int, k1: nat, k2: nat)
    requires
        k1 <= k2,
        rej_iter(s, b, k1).2,
    ensures
        rej_iter(s, b, k2) == rej_iter(s, b, k1),
    decreases k2,
{
    reveal(rej_iter);
    if k2 > k1 {
        lemma_rej_frozen(s, b, k1, (k2 - 1) as nat);
    }
}

/// The bound is an exact power of two (for bounds >= 1).
pub open spec fn pow2_bound(b: i32) -> bool {
    b & ((b - 1) as i32) == 0
}

/// Result and successor state of one bounded draw from state `s`:
/// a single multiply-shift for power-of-two bounds, otherwise the first
/// accepted draw of the rejection loop, reduced modulo the bound.
pub open spec fn bounded_res(s: int, b: i32) -> (int, int) {
    if pow2_bound(b) {
        let s1 = lcg_next(s);
        ((b * raw31(s1)) / 0x8000_0000, s1)
    } else {
        let f = rej_iter(s, b as int, 0x1_0000_0000_0000);
        (f.1 % (b as int), f.0)
    }
}

/// Raw outcome value of one verifier sub-draw: a draw bounded by 8, a draw
/// bounded by `sh + 1`, and the shelf term.
pub open spec fn enchantibility_res(s: int, sh: int) -> (int, int) {
    let (a, s1) = bounded_res(s, 8);
    let (b, s2) = bounded_res(s1, (sh + 1) as i32);
    (a + 1 + sh / 2 + b, s2)
}

/// Level shown in the first slot: `max(raw / 3, 1)`.
pub open spec fn slot1_res(s: int, sh: int) -> (int, int) {
    let (g, s1) = enchantibility_res(s, sh);
    (if g / 3 < 1 { 1 } else { g / 3 }, s1)
}

/// Level shown in the second slot: `raw * 2 / 3 + 1`.
pub open spec fn slot2_res(s: int, sh: int) -> (int, int) {
    let (g, s1) = enchantibility_res(s, sh);
    (g * 2 / 3 + 1, s1)
}

/// Level shown in the third slot: `max(raw, sh * 2)`.
pub open spec fn slot3_res(s: int, sh: int) -> (int, int) {
    let (g, s1) = enchantibility_res(s, sh);
    (if g < sh * 2 { sh * 2 } else { g }, s1)
}

/// Does seed `seed`, run through the generator, reproduce the observed
/// triple `(l1, l2, l3)` at shelf count `sh`? Comparison short-circuits
/// exactly as the verifier does.
#[verifier::opaque]
pub open spec fn verify_res(seed: i32, sh: int, l1: int, l2: int, l3: int) -> bool {
    let s0 = seed_init(seed as i64);
    let (v1, s1) = slot1_res(s0, sh);
    if v1 != l1 {
        false
    } else {
        let (v2, s2) = slot2_res(s1, sh);
        if v2 != l2 {
            false
        } else {
            let (v3, _s3) = slot3_res(s2, sh);
            v3 == l3
        }
    }
}

/// Upper bound on shelf counts accepted by the verifier; keeps every
/// intermediate level computation inside `i32`.
pub const MAX_SHELVES: i32 = 0xFFF_FFFF;

/// One generator step on a raw 48-bit state value.
pub fn lcg_advance(s: u64) -> (r: u64)
    requires
        s < 0x1_0000_0000_0000,
    ensures
        r == lcg_next(s as int),
        r < 0x1_0000_0000_0000,
{
    let a = s.wrapping_mul(MULTIPLIER);
    let b = a.wrapping_add(INCREMENT);
    let r = b & STATE_MASK;
    proof {
        assert(b & 0xFFFF_FFFF_FFFF == b % 0x1_0000_0000_0000) by (bit_vector);
        lemma_lcg_exec(s as int, a as int, b as int, (b & 0xFFFF_FFFF_FFFF) as int);
    }
    r
}

/// The stateful 48-bit generator.
pub struct SimpleRandom {
    pub seed: u64,
}

impl Default for SimpleRandom {
    /// A fresh generator starts with the zero state.
    fn default() -> (r: Self)
        ensures
            r.seed == 0,
    {
        SimpleRandom { seed: 0 }
    }
}

impl SimpleRandom {
    /// The state is confined to 48 bits.
    pub open spec fn wf(&self) -> bool {
        self.seed < 0x1_0000_0000_0000
    }

    /// Load a raw seed: state := (raw XOR multiplier) AND mask.
    pub fn set_seed(&mut self, seed: i64)
        ensures
            final(self).seed == seed_init(seed),
            final(self).wf(),
    {
        self.seed = ((seed as u64) ^ MULTIPLIER) & STATE_MASK;
        proof {
            let raw = seed as u64;
            assert((raw ^ 0x5DEECE66D) & 0xFFFF_FFFF_FFFF < 0x1_0000_0000_0000) by (bit_vector);
        }
    }

    /// One generator step; returns the top 31 bits of the new state.
    pub fn next_int(&mut self) -> (r: i32)
        requires
            old(self).wf(),
        ensures
            final(self).wf(),
            final(self).seed == lcg_next(old(self).seed as int),
            r == raw31(final(self).seed as int),
            0 <= r < 0x8000_0000,
    {
        let s0 = self.seed;
        let a = s0.wrapping_mul(MULTIPLIER);
        let b = a.wrapping_add(INCREMENT);
        self.seed = b & STATE_MASK;
        proof {
            let si = s0 as int;
            assert(a == (si * 0x5DEECE66D) % 0x1_0000_0000_0000_0000);
            assert(b == ((a as int) + 0xB) % 0x1_0000_0000_0000_0000);
            assert(b & 0xFFFF_FFFF_FFFF == b % 0x1_0000_0000_0000) by (bit_vector);
            lemma_lcg_exec(si, a as int, b as int, (b & 0xFFFF_FFFF_FFFF) as int);
        }
        let r64 = self.seed >> 17;
        proof {
            let s = self.seed;
            assert(s < 0x1_0000_0000_0000 ==> (s >> 17) == s / 0x20000 && (s >> 17) < 0x8000_0000)
                by (bit_vector);
        }
        r64 as i32
    }

    /// One bounded draw in `[0, bound)`, replicating the platform runtime's
    /// sampling exactly: multiply-shift for power-of-two bounds, rejection
    /// sampling otherwise.
    pub fn next_int_bound(&mut self, bound: i32) -> (r: i32)
        requires
            old(self).wf(),
            1 <= bound,
        ensures
            final(self).wf(),
            0 <= r < bound,
            r == bounded_res(old(self).seed as int, bound).0,
            final(self).seed == bounded_res(old(self).seed as int, bound).1,
    {
        let ghost s0: int = self.seed as int;
        let r0 = self.next_int();
        let m = bound - 1;
        if bound & m == 0 {
            proof {
                assert((bound as int) * (r0 as int) < 0x4000_0000_0000_0000) by (nonlinear_arith)
                    requires
                        0 <= r0 < 0x8000_0000,
                        1 <= bound < 0x8000_0000,
                {}
            }
            let prod: i64 = (bound as i64) * (r0 as i64);
            let res: i64 = prod / 0x8000_0000;
            proof {
                assert(res < bound) by (nonlinear_arith)
                    requires
                        0 <= r0 < 0x8000_0000,
                        1 <= bound,
                        prod == bound * r0,
                        res == prod / 0x8000_0000,
                {}
            }
            res as i32
        } else {
            let mut u = r0;
            let mut r = u % bound;
            let mut count: u64 = 1;
            proof {
                reveal(rej_iter);
                assert(rej_iter(s0, bound as int, 1) == rej_step(
                    bound as int,
                    rej_iter(s0, bound as int, 0),
                ));
            }
            while (u as i64) - (r as i64) + (m as i64) >= 0x8000_0000 && count < REJECT_CAP
                invariant
                    self.wf(),
                    1 <= bound,
                    m == bound - 1,
                    1 <= count <= REJECT_CAP,
                    0 <= u < 0x8000_0000,
                    r == (u as int) % (bound as int),
                    rej_iter(s0, bound as int, count as nat) == (self.seed as int, u as int, accepts(
                        u as int,
                        bound as int,
                    )),
                decreases REJECT_CAP - count,
            {
                u = self.next_int();
                r = u % bound;
                count = count + 1;
                proof {
                    reveal(rej_iter);
                    assert(rej_iter(s0, bound as int, count as nat) == rej_step(
                        bound as int,
                        rej_iter(s0, bound as int, (count - 1) as nat),
                    ));
                }
            }
            proof {
                if (u as i64) - (r as i64) + (m as i64) < 0x8000_0000 {
                    lemma_rej_frozen(s0, bound as int, count as nat, 0x1_0000_0000_0000);
                }
            }
            r
        }
    }

    /// The combined draw from which the three slot levels are derived.
    #[verifier::rlimit(30)]
    pub fn generic_enchantibility(&mut self, shelves: i32) -> (r: i32)
        requires
            old(self).wf(),
            0 <= shelves <= MAX_SHELVES,
        ensures
            final(self).wf(),
            r == enchantibility_res(old(self).seed as int, shelves as int).0,
            final(self).seed == enchantibility_res(old(self).seed as int, shelves as int).1,
            1 <= r <= 0x1800_0007,
    {
        let ghost s0 = self.seed as int;
        let first = self.next_int_bound(8);
        let ghost s1 = self.seed as int;
        let second = self.next_int_bound(shelves + 1);
        proof {
            assert(0 <= shelves <= 0xFFF_FFFF ==> (shelves >> 1) == shelves / 2) by (bit_vector);
            assert(s1 == bounded_res(s0, 8).1);
            assert(second == bounded_res(s1, (shelves + 1) as i32).0);
            assert(enchantibility_res(s0, shelves as int).0 == first + 1 + shelves as int / 2
                + second);
        }
        first + 1 + (shelves >> 1) + second
    }

    /// Level shown in the first slot for shelf count `shelves`.
    pub fn levels_slot1(&mut self, shelves: i32) -> (r: i32)
        requires
            old(self).wf(),
            0 <= shelves <= MAX_SHELVES,
        ensures
            final(self).wf(),
            r == slot1_res(old(self).seed as int, shelves as int).0,
            final(self).seed == slot1_res(old(self).seed as int, shelves as int).1,
            1 <= r <= 0x800_0003,
    {
        let slot1 = self.generic_enchantibility(shelves) / 3;
        if slot1 < 1 {
            1
        } else {
            slot1
        }
    }

    /// Level shown in the second slot for shelf count `shelves`.
    pub fn levels_slot2(&mut self, shelves: i32) -> (r: i32)
        requires
            old(self).wf(),
            0 <= shelves <= MAX_SHELVES,
        ensures
            final(self).wf(),
            r == slot2_res(old(self).seed as int, shelves as int).0,
            final(self).seed == slot2_res(old(self).seed as int, shelves as int).1,
            1 <= r <= 0x1000_0006,
    {
        self.generic_enchantibility(shelves) * 2 / 3 + 1
    }

    /// Level shown in the third slot for shelf count `shelves`.
    pub fn levels_slot3(&mut self, shelves: i32) -> (r: i32)
        requires
            old(self).wf(),
            0 <= shelves <= MAX_SHELVES,
        ensures
            final(self).wf(),
            r == slot3_res(old(self).seed as int, shelves as int).0,
            final(self).seed == slot3_res(old(self).seed as int, shelves as int).1,
            1 <= r <= 0x1FFF_FFFE,
    {
        let g = self.generic_enchantibility(shelves);
        let other = shelves * 2;
        if g < other {
            other
        } else {
            g
        }
    }

    /// Does `seed` reproduce the observed triple? The generator state is
    /// scratch: it is re-seeded on every call.
    pub fn verify_seed(&mut self, seed: i32, t: (i32, i32, i32, i32)) -> (r: bool)
        requires
            0 <= t.0 <= MAX_SHELVES,
        ensures
            final(self).wf(),
            r == verify_res(seed, t.0 as int, t.1 as int, t.2 as int, t.3 as int),
    {
        proof {
            reveal(verify_res);
        }
        let (shelves, l1, l2, l3) = t;
        self.set_seed(seed as i64);
        if self.levels_slot1(shelves) != l1 {
            return false;
        }
        if self.levels_slot2(shelves) != l2 {
            return false;
        }
        self.levels_slot3(shelves) == l3
    }
}

} // verus!
