//! Exact integer model of the catalog's fractional level adjustments.
//!
//! The platform runtime computes two level modifiers in 32-bit binary
//! floating point: `((a + b) - 1) * 0.15` from two 24-bit generator
//! fractions, and `level * 0.15` for the table maximum. Both chains stay
//! within the normal range of that format, so every step is a rational
//! with a power-of-two denominator rounded to 24 significant bits
//! (ties to even), and the final `round` is rounding half away from zero.
//! This module computes those chains exactly in integers; the constant
//! `10066330 * 2^-26` is the 24-bit binary rounding of `0.15`.

use vstd::prelude::*;
use vstd::arithmetic::div_mod::lemma_div_denominator;

verus! {

/// Two to the power `d`.
pub open spec fn pow2n(d: nat) -> nat
    decreases d,
{
    if d == 0 {
        1
    } else {
        2 * pow2n((d - 1) as nat)
    }
}

/// How many low bits must be dropped for `n` to fit in 24 bits.
pub open spec fn scale24d(n: nat) -> nat
    decreases n,
{
    if n < 0x100_0000 {
        0
    } else {
        1 + scale24d(n / 2)
    }
}

/// `n / p` rounded to the nearest integer, ties to even; `p` a power of
/// two.
pub open spec fn rne_div(m: nat, p: nat) -> nat {
    if p <= 1 {
        m
    } else {
        let q = m / p;
        let r = m % p;
        if r * 2 < p {
            q
        } else if r * 2 > p {
            q + 1
        } else if q % 2 == 0 {
            q
        } else {
            q + 1
        }
    }
}

/// Mantissa of `m` rounded to 24 significant bits.
pub open spec fn fl24_m(m: nat) -> nat {
    rne_div(m, pow2n(scale24d(m)))
}

/// The 24-bit rounding of the sum of two 24-bit fractions `a/2^24 +
/// b/2^24`, as a numerator over `2^24`.
pub open spec fn sum24(a: nat, b: nat) -> nat {
    if a + b < 0x100_0000 || (a + b) % 2 == 0 {
        a + b
    } else {
        2 * rne_div(a + b, 2)
    }
}

/// `m * 2^e` rounded half away from zero to an integer.
pub open spec fn spec_round_half_away(m: nat, e: int) -> nat {
    if e >= 0 {
        m * pow2n(e as nat)
    } else {
        let p = pow2n((-e) as nat);
        let q = m / p;
        if (m % p) * 2 >= p {
            q + 1
        } else {
            q
        }
    }
}

/// The integer the runtime adds to a level for generator fractions
/// `a/2^24` and `b/2^24`: `round(level * (((a/2^24 + b/2^24) - 1) * 0.15))`
/// computed in 32-bit floating point.
pub open spec fn spec_float_delta(a: nat, b: nat, level: int) -> int {
    let c = sum24(a, b);
    let neg_pc = c < 0x100_0000;
    let nd: nat = if c < 0x100_0000 {
        (0x100_0000 - c) as nat
    } else {
        (c - 0x100_0000) as nat
    };
    let m1 = nd * 10066330;
    let d1 = scale24d(m1);
    let pm = fl24_m(m1);
    let lneg = level < 0;
    let la: nat = if level < 0 {
        (-level) as nat
    } else {
        level as nat
    };
    let d2 = scale24d(la);
    let lm = fl24_m(la);
    let m3 = pm * lm;
    let d3 = scale24d(m3);
    let mm = fl24_m(m3);
    let me = -50 + d1 as int + d2 as int + d3 as int;
    let r = spec_round_half_away(mm, me) as int;
    if neg_pc != lneg {
        -r
    } else {
        r
    }
}

/// The integer the runtime adds to a table level: `round(level * 0.15)`
/// computed in 32-bit floating point.
pub open spec fn spec_table_delta(level: int) -> int {
    let lneg = level < 0;
    let la: nat = if level < 0 {
        (-level) as nat
    } else {
        level as nat
    };
    let d2 = scale24d(la);
    let lm = fl24_m(la);
    let m3 = lm * 10066330;
    let d3 = scale24d(m3);
    let mm = fl24_m(m3);
    let me = d2 as int - 26 + d3 as int;
    let r = spec_round_half_away(mm, me) as int;
    if lneg {
        -r
    } else {
        r
    }
}

proof fn lemma_pow2n_pos(d: nat)
    ensures
        pow2n(d) >= 1,
    decreases d,
{
    if d > 0 {
        lemma_pow2n_pos((d - 1) as nat);
    }
}

proof fn lemma_scale24d_le(n: nat, d: nat)
    requires
        n < 0x100_0000 * pow2n(d),
    ensures
        scale24d(n) <= d,
    decreases d,
{
    if n < 0x100_0000 {
    } else {
        assert(pow2n(d) > 1) by {
            if d == 0 {
                assert(pow2n(0) == 1);
                assert(false);
            } else {
                lemma_pow2n_pos((d - 1) as nat);
            }
        }
        assert(d >= 1);
        assert(n < 0x100_0000 * (2 * pow2n((d - 1) as nat)));
        assert(n / 2 < 0x100_0000 * pow2n((d - 1) as nat)) by (nonlinear_arith)
            requires
                n < 0x100_0000 * (2 * pow2n((d - 1) as nat)),
        {}
        lemma_scale24d_le(n / 2, (d - 1) as nat);
    }
}

/// Dropping `scale24d(n)` bits brings `n` under 24 bits.
proof fn lemma_scale24d_div(n: nat)
    ensures
        n / pow2n(scale24d(n)) < 0x100_0000,
    decreases n,
{
    if n < 0x100_0000 {
        lemma_pow2n_pos(scale24d(n));
        assert(pow2n(0) == 1);
    } else {
        lemma_scale24d_div(n / 2);
        let s = scale24d(n / 2);
        lemma_pow2n_pos(s);
        lemma_div_denominator(n as int, 2, pow2n(s) as int);
        assert(pow2n(scale24d(n)) == 2 * pow2n(s));
        assert(n / (2 * pow2n(s)) == (n / 2) / pow2n(s));
    }
}

/// Concrete powers of two used by the executable chain.
proof fn lemma_pow2n_values()
    ensures
        pow2n(8) == 0x100,
        pow2n(24) == 0x100_0000,
        pow2n(25) == 0x200_0000,
        pow2n(62) == 0x4000_0000_0000_0000,
{
    assert(pow2n(8) == 0x100 && pow2n(24) == 0x100_0000 && pow2n(25) == 0x200_0000 && pow2n(62)
        == 0x4000_0000_0000_0000) by {
        reveal_with_fuel(pow2n, 64);
    }
}

proof fn lemma_pow2n_mono(a: nat, b: nat)
    requires
        a <= b,
    ensures
        pow2n(a) <= pow2n(b),
    decreases b,
{
    if a < b {
        lemma_pow2n_mono(a, (b - 1) as nat);
        lemma_pow2n_pos((b - 1) as nat);
    }
}

/// Two to the power `d`, executably.
fn pow2_exec(d: u64) -> (p: u64)
    requires
        d <= 62,
    ensures
        p == pow2n(d as nat),
        p >= 1,
    decreases d,
{
    proof {
        lemma_pow2n_mono(d as nat, 62);
        lemma_pow2n_values();
        lemma_pow2n_pos(d as nat);
    }
    if d == 0 {
        1
    } else {
        2 * pow2_exec(d - 1)
    }
}

/// The power of two and bit count by which `n` must be scaled down to
/// fit in 24 bits.
fn scale_of(n: u64) -> (r: (u64, u64))
    requires
        n < 0x2_0000_0000_0000,
    ensures
        r.0 == pow2n(scale24d(n as nat)),
        r.1 == scale24d(n as nat),
        r.1 <= 25,
        1 <= r.0 <= 0x200_0000,
    decreases n,
{
    proof {
        lemma_pow2n_values();
        lemma_scale24d_le(n as nat, 25);
        lemma_pow2n_mono(scale24d(n as nat), 25);
        lemma_pow2n_pos(scale24d(n as nat));
    }
    if n < 0x100_0000 {
        (1, 0)
    } else {
        let (p, d) = scale_of(n / 2);
        (2 * p, d + 1)
    }
}

/// Round `m / p` to the nearest integer, ties to even.
fn rne_exec(m: u64, p: u64) -> (r: u64)
    requires
        1 <= p <= 0x200_0000,
        m < 0x2_0000_0000_0000,
    ensures
        r == rne_div(m as nat, p as nat),
        r <= m,
        (m as nat) / (p as nat) < 0x100_0000 ==> r <= 0x100_0000,
{
    if p <= 1 {
        m
    } else {
        let q = m / p;
        let rem = m % p;
        proof {
            assert(m == (m as int / p as int) * p + m as int % p as int) by (nonlinear_arith)
                requires
                    p >= 1,
            {}
            assert(rem * 2 >= p ==> q + 1 <= m) by (nonlinear_arith)
                requires
                    p >= 2,
                    q == m as int / p as int,
                    rem == m as int % p as int,
                    m == q * p + rem,
                    0 <= rem < p,
            {}
        }
        if rem * 2 < p {
            q
        } else if rem * 2 > p {
            q + 1
        } else if q % 2 == 0 {
            q
        } else {
            q + 1
        }
    }
}

/// Round `m * 2^e` half away from zero to an integer.
fn round_half_away_exec(m: u64, e: i64) -> (r: u64)
    requires
        m <= 0x100_0000,
        -62 <= e <= 8,
    ensures
        r == spec_round_half_away(m as nat, e as int),
        r <= 0x100_0000_0000,
{
    if e >= 0 {
        let p = pow2_exec(e as u64);
        proof {
            lemma_pow2n_mono(e as nat, 8);
            assert(pow2n(8) == 256) by {
                reveal_with_fuel(pow2n, 9);
            }
            assert((m as nat) * (pow2n(e as nat)) <= 0x100_0000 * 256) by (nonlinear_arith)
                requires
                    m <= 0x100_0000,
                    pow2n(e as nat) <= 256,
            {}
        }
        m * p
    } else {
        let p = pow2_exec((-e) as u64);
        let q = m / p;
        proof {
            assert(m % p <= m) by (nonlinear_arith)
                requires
                    p >= 1,
            {}
        }
        if (m % p) * 2 >= p {
            q + 1
        } else {
            q
        }
    }
}

/// The integer the runtime adds to a level, for generator fractions
/// `a/2^24` and `b/2^24` and the current level.
pub fn float_percent_delta(a: u64, b: u64, level: i64) -> (d: i64)
    requires
        a < 0x100_0000,
        b < 0x100_0000,
        -0x8000_0000 <= level <= 0x8000_0000,
    ensures
        d == spec_float_delta(a as nat, b as nat, level as int),
        -0x100_0000_0000 <= d <= 0x100_0000_0000,
{
    let s = a + b;
    let c: u64 = if s < 0x100_0000 || s % 2 == 0 {
        s
    } else {
        2 * rne_exec(s, 2)
    };
    let (nd, neg_pc): (u64, bool) = if c < 0x100_0000 {
        (0x100_0000 - c, true)
    } else {
        (c - 0x100_0000, false)
    };
    proof {
        assert(nd <= 0x100_0000);
    }
    let m1: u64 = nd * 10066330;
    let (p1, d1) = scale_of(m1);
    let pm = rne_exec(m1, p1);
    proof {
        lemma_scale24d_div(m1 as nat);
    }
    let (la, lneg): (u64, bool) = if level < 0 {
        ((-level) as u64, true)
    } else {
        (level as u64, false)
    };
    let (p2, d2) = scale_of(la);
    let lm = rne_exec(la, p2);
    proof {
        lemma_scale24d_div(la as nat);
        assert((pm as nat) * (lm as nat) <= 0x100_0000 * 0x100_0000) by (nonlinear_arith)
            requires
                pm <= 0x100_0000,
                lm <= 0x100_0000,
        {}
    }
    let m3: u64 = pm * lm;
    let (p3, d3) = scale_of(m3);
    let mm = rne_exec(m3, p3);
    proof {
        lemma_scale24d_div(m3 as nat);
    }
    proof {
        lemma_pow2n_values();
        assert((nd as nat) * 10066330 < 0x100_0000 * pow2n(24)) by (nonlinear_arith)
            requires
                nd <= 0x100_0000,
                pow2n(24) == 0x100_0000,
        {}
        lemma_scale24d_le(m1 as nat, 24);
        lemma_scale24d_le(la as nat, 8);
        assert(la < 0x100_0000 * pow2n(8));
        assert(m3 < 0x100_0000 * pow2n(25)) by (nonlinear_arith)
            requires
                m3 <= 0x1_0000_0000_0000,
                pow2n(25) == 0x200_0000,
        {}
        lemma_scale24d_le(m3 as nat, 25);
    }
    let me: i64 = -50 + d1 as i64 + d2 as i64 + d3 as i64;
    let r: u64 = round_half_away_exec(mm, me);
    if neg_pc != lneg {
        -(r as i64)
    } else {
        r as i64
    }
}

/// The integer the runtime adds to a table level: `round(level * 0.15)`
/// in 32-bit floating point.
pub fn float_table_delta(level: i64) -> (d: i64)
    requires
        -0x8000_0000 <= level <= 0x8000_0000,
    ensures
        d == spec_table_delta(level as int),
        -0x100_0000_0000 <= d <= 0x100_0000_0000,
{
    let (la, lneg): (u64, bool) = if level < 0 {
        ((-level) as u64, true)
    } else {
        (level as u64, false)
    };
    let (p2, d2) = scale_of(la);
    let lm = rne_exec(la, p2);
    proof {
        lemma_scale24d_div(la as nat);
        assert((lm as nat) * 10066330 <= 0x100_0000 * 10066330) by (nonlinear_arith)
            requires
                lm <= 0x100_0000,
        {}
    }
    let m3: u64 = lm * 10066330;
    let (p3, d3) = scale_of(m3);
    let mm = rne_exec(m3, p3);
    proof {
        lemma_scale24d_div(m3 as nat);
    }
    proof {
        lemma_pow2n_values();
        lemma_scale24d_le(la as nat, 8);
        assert(la < 0x100_0000 * pow2n(8));
        assert((lm as nat) * 10066330 < 0x100_0000 * pow2n(24)) by (nonlinear_arith)
            requires
                lm <= 0x100_0000,
                pow2n(24) == 0x100_0000,
        {}
        lemma_scale24d_le(m3 as nat, 24);
    }
    let me: i64 = d2 as i64 - 26 + d3 as i64;
    let r: u64 = round_half_away_exec(mm, me);
    if lneg {
        -(r as i64)
    } else {
        r as i64
    }
}

} // verus!
