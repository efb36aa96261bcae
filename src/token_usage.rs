//! Token accounting: splitting a running total from the last call's usage,
//! and compact display of token counts.

use vstd::prelude::*;
use crate::text::{decimal, digit, digit_char, push_char, push_decimal};
use vstd::arithmetic::power2::{
    lemma2_to64, lemma2_to64_rest, lemma_pow2_pos, lemma_pow2_strictly_increases, lemma_pow2_unfold, pow2,
};

verus! {

/// Token counts of one or more model calls.
#[derive(Debug, Clone, Copy, PartialEq, Eq, Structural, Default)]
pub struct TokenUsage {
    pub input_tokens: i64,
    pub cached_input_tokens: i64,
    pub output_tokens: i64,
    pub reasoning_output_tokens: i64,
    pub total_tokens: i64,
}

/// A running total split into what came before the last call and the last call.
#[derive(Debug, Clone, Copy, PartialEq, Eq, Structural)]
pub struct TokenUsageSplit {
    pub prior: TokenUsage,
    pub last: TokenUsage,
}

/// A count clamped to be non-negative.
pub open spec fn clamp0(x: i64) -> int {
    if x < 0 {
        0
    } else {
        x as int
    }
}

/// `total - last` on clamped counts, saturating at zero.
pub open spec fn prior_count(total: i64, last: i64) -> int {
    if clamp0(total) > clamp0(last) {
        clamp0(total) - clamp0(last)
    } else {
        0
    }
}

pub open spec fn is_normalized_of(n: TokenUsage, u: TokenUsage) -> bool {
    &&& n.input_tokens == clamp0(u.input_tokens)
    &&& n.cached_input_tokens == clamp0(u.cached_input_tokens)
    &&& n.output_tokens == clamp0(u.output_tokens)
    &&& n.reasoning_output_tokens == clamp0(u.reasoning_output_tokens)
    &&& n.total_tokens == clamp0(u.total_tokens)
}

pub open spec fn is_prior_of(p: TokenUsage, total: TokenUsage, last: TokenUsage) -> bool {
    &&& p.input_tokens == prior_count(total.input_tokens, last.input_tokens)
    &&& p.cached_input_tokens == prior_count(total.cached_input_tokens, last.cached_input_tokens)
    &&& p.output_tokens == prior_count(total.output_tokens, last.output_tokens)
    &&& p.reasoning_output_tokens == prior_count(
        total.reasoning_output_tokens,
        last.reasoning_output_tokens,
    )
    &&& p.total_tokens == prior_count(total.total_tokens, last.total_tokens)
}

fn clamp_count(x: i64) -> (r: i64)
    ensures
        r == clamp0(x),
{
    if x < 0 {
        0
    } else {
        x
    }
}

fn prior_of(total: i64, last: i64) -> (r: i64)
    ensures
        r == prior_count(total, last),
        r >= 0,
{
    let t = clamp_count(total);
    let l = clamp_count(last);
    if t > l {
        t - l
    } else {
        0
    }
}

/// Every count clamped to be non-negative.
pub fn normalized_usage(usage: &TokenUsage) -> (r: TokenUsage)
    ensures
        is_normalized_of(r, *usage),
{
    TokenUsage {
        input_tokens: clamp_count(usage.input_tokens),
        cached_input_tokens: clamp_count(usage.cached_input_tokens),
        output_tokens: clamp_count(usage.output_tokens),
        reasoning_output_tokens: clamp_count(usage.reasoning_output_tokens),
        total_tokens: clamp_count(usage.total_tokens),
    }
}

/// Splits a running total into the usage before the last call and the last
/// call's usage. Each prior count is `total - last` on the clamped counts,
/// and zero where the last call reports more than the total.
pub fn split_total_and_last(total: &TokenUsage, last: &TokenUsage) -> (r: TokenUsageSplit)
    ensures
        is_prior_of(r.prior, *total, *last),
        is_normalized_of(r.last, *last),
        r.prior.input_tokens >= 0,
        r.prior.cached_input_tokens >= 0,
        r.prior.output_tokens >= 0,
        r.prior.reasoning_output_tokens >= 0,
        r.prior.total_tokens >= 0,
{
    let prior = TokenUsage {
        input_tokens: prior_of(total.input_tokens, last.input_tokens),
        cached_input_tokens: prior_of(total.cached_input_tokens, last.cached_input_tokens),
        output_tokens: prior_of(total.output_tokens, last.output_tokens),
        reasoning_output_tokens: prior_of(
            total.reasoning_output_tokens,
            last.reasoning_output_tokens,
        ),
        total_tokens: prior_of(total.total_tokens, last.total_tokens),
    };
    TokenUsageSplit { prior, last: normalized_usage(last) }
}

/// `q + r / d` rounded to the nearest integer, ties to the even one.
pub open spec fn round_even(q: nat, r: nat, d: nat) -> nat {
    if 2 * r > d {
        q + 1
    } else if 2 * r == d && q % 2 == 1 {
        q + 1
    } else {
        q
    }
}

/// How many low bits of `v` fall outside a 53-bit significand (`k` and up).
pub open spec fn excess_bits(v: nat, k: nat) -> nat
    decreases 11 - k,
{
    if k >= 11 || v < pow2(53 + k) {
        k
    } else {
        excess_bits(v, k + 1)
    }
}

/// The double nearest to `v`, ties to even: what `v as f64` holds.
pub open spec fn nearest_f64(v: nat) -> nat {
    let k = excess_bits(v, 0);
    if k == 0 {
        v
    } else {
        round_even(v / pow2(k), v % pow2(k), pow2(k)) * pow2(k)
    }
}

/// The shift (at most `s`) that puts `x / u * 2^shift` below `2^53`.
pub open spec fn shift_for(x: nat, u: nat, s: nat) -> nat
    decreases s,
{
    if s == 0 || x * pow2(s) < pow2(53) * u {
        s
    } else {
        shift_for(x, u, (s - 1) as nat)
    }
}

/// A count in tenths of `unit` as a double division followed by one-decimal
/// formatting computes it: `v` becomes the nearest double, the quotient by
/// `unit` is rounded to a 53-bit significand `m * 2^-s`, and ten times that
/// is rounded to the nearest integer, ties to even.
pub open spec fn tenths_of(v: nat, unit: nat) -> nat {
    let x = nearest_f64(v);
    let s = shift_for(x, unit, 52);
    let m = round_even(x * pow2(s) / unit, x * pow2(s) % unit, unit);
    round_even(10 * m / pow2(s), 10 * m % pow2(s), pow2(s))
}

fn round_even_exec(q: u128, r: u128, d: u128) -> (t: u128)
    requires
        q < 0x1_0000_0000_0000_0000_0000_0000_0000,
        r < d,
        d <= 0x1_0000_0000_0000_0000_0000_0000,
    ensures
        t == round_even(q as nat, r as nat, d as nat),
        t <= q + 1,
{
    if 2 * r > d || (2 * r == d && q % 2 == 1) {
        q + 1
    } else {
        q
    }
}

fn pow2_of(n: u64) -> (r: u128)
    requires
        n <= 64,
    ensures
        r == pow2(n as nat),
        r > 0,
        r <= 0x1_0000_0000_0000_0000,
{
    let mut p: u128 = 1;
    let mut i: u64 = 0;
    proof {
        lemma2_to64();
        lemma2_to64_rest();
    }
    while i < n
        invariant
            i <= n <= 64,
            p == pow2(i as nat),
            pow2(64) == 0x10000000000000000,
        decreases n - i,
    {
        proof {
            lemma_pow2_unfold((i + 1) as nat);
            if i + 1 < 64 {
                lemma_pow2_strictly_increases((i + 1) as nat, 64);
            }
        }
        p = p * 2;
        i = i + 1;
    }
    proof {
        lemma_pow2_pos(n as nat);
        if n < 64 {
            lemma_pow2_strictly_increases(n as nat, 64);
        }
    }
    p
}

fn nearest_f64_exec(v: u64) -> (x: u128)
    ensures
        x == nearest_f64(v as nat),
        x <= 0x2_0000_0000_0000_0000,
{
    let mut k: u64 = 0;
    let mut p: u128 = pow2_of(53);
    proof {
        lemma2_to64();
        lemma2_to64_rest();
    }
    while k < 11 && v as u128 >= p
        invariant
            k <= 11,
            p == pow2((53 + k) as nat),
            excess_bits(v as nat, k as nat) == excess_bits(v as nat, 0),
            pow2(64) == 0x10000000000000000,
        decreases 11 - k,
    {
        proof {
            lemma_pow2_unfold((53 + k + 1) as nat);
            if k + 1 < 11 {
                lemma_pow2_strictly_increases((53 + k + 1) as nat, 64);
            }
        }
        p = p * 2;
        k = k + 1;
    }
    if k == 0 {
        return v as u128;
    }
    let d = pow2_of(k);
    let q = v as u128 / d;
    let r = v as u128 % d;
    let t = round_even_exec(q, r, d);
    proof {
        assert(q * d <= v) by (nonlinear_arith)
            requires
                q == v as int / d as int,
                d > 0,
        ;
        assert(t * d <= v + d) by (nonlinear_arith)
            requires
                t <= q + 1,
                q * d <= v,
        ;
        assert(v + d <= 0x2_0000_0000_0000_0000);
    }
    t * d
}

fn shift_exec(x: u128, u: u128) -> (r: (u128, u128))
    requires
        x <= 0x2_0000_0000_0000_0000,
        0 < u <= 1_000_000,
    ensures
        r.0 == shift_for(x as nat, u as nat, 52),
        r.1 == pow2(r.0 as nat),
        r.0 <= 52,
        r.1 <= 0x10000000000000,
        r.0 > 0 ==> x * r.1 < pow2(53) * u,
        r.0 == 0 ==> r.1 == 1,
        r.1 > 0,
{
    proof {
        lemma2_to64();
        lemma2_to64_rest();
    }
    let mut s: u128 = 52;
    let mut p: u128 = pow2_of(52);
    let top: u128 = pow2_of(53) * u;
    loop
        invariant
            s <= 52,
            p == pow2(s as nat),
            p <= pow2(52),
            x <= 0x2_0000_0000_0000_0000,
            top == pow2(53) * u,
            pow2(52) == 0x10000000000000,
            pow2(0) == 1,
            p > 0,
            shift_for(x as nat, u as nat, s as nat) == shift_for(x as nat, u as nat, 52),
        decreases s,
    {
        assert(x * p <= 0x2_0000_0000_0000_0000 * 0x10000000000000) by (nonlinear_arith)
            requires
                x <= 0x2_0000_0000_0000_0000,
                p <= 0x10000000000000,
        ;
        if s == 0 || x * p < top {
            return (s, p);
        }
        proof {
            lemma_pow2_unfold(s as nat);
            lemma_pow2_strictly_increases((s - 1) as nat, 52);
            lemma_pow2_pos((s - 1) as nat);
        }
        s = s - 1;
        p = p / 2;
    }
}

/// Tenths of `v / unit`, computed as the double division and one-decimal
/// formatting would.
fn tenths_exec(v: u64, unit: u128) -> (t: u64)
    requires
        unit == 1000 || unit == 1_000_000,
    ensures
        t == tenths_of(v as nat, unit as nat),
{
    let x = nearest_f64_exec(v);
    let (s, p) = shift_exec(x, unit);
    proof {
        lemma2_to64();
        lemma2_to64_rest();
        lemma_pow2_strictly_increases(s as nat, 53);
    }
    assert(x * p <= 0x2_0000_0000_0000_0000 * 0x10000000000000) by (nonlinear_arith)
        requires
            x <= 0x2_0000_0000_0000_0000,
            p <= 0x10000000000000,
    ;
    let xp = x * p;
    let q = xp / unit;
    let r = xp % unit;
    assert(pow2(53) == 0x20000000000000);
    if s > 0 {
        assert(q < 0x20000000000000) by (nonlinear_arith)
            requires
                q == xp / unit,
                xp < 0x20000000000000 * unit,
                unit > 0,
        ;
    } else {
        assert(p == 1);
        assert(xp == x) by (nonlinear_arith)
            requires
                p == 1,
                xp == x * p,
        ;
        assert(q < 0x100000000000000) by (nonlinear_arith)
            requires
                q == xp / unit,
                xp <= 0x2_0000_0000_0000_0000,
                unit >= 1000,
        ;
    }
    let m = round_even_exec(q, r, unit);
    let tm = 10 * m;
    let tq = tm / p;
    let tr = tm % p;
    assert(tq <= tm) by (nonlinear_arith)
        requires
            tq == tm / p,
            p > 0,
    ;
    let t = round_even_exec(tq, tr, p);
    t as u64
}

/// A count in tenths shown with one decimal, the decimal left out when zero.
pub open spec fn one_decimal(tenths: nat) -> Seq<char> {
    if tenths % 10 == 0 {
        decimal(tenths / 10)
    } else {
        decimal(tenths / 10) + seq!['.', digit_char(tenths % 10)]
    }
}

/// Compact display of a token count: plain below a thousand, else in
/// thousands (`k`) or millions (`m`) with at most one decimal.
pub open spec fn compact_count(value: i64) -> Seq<char> {
    let v = clamp0(value) as nat;
    if v < 1000 {
        decimal(v)
    } else if v >= 1_000_000 {
        one_decimal(tenths_of(v, 1_000_000)).push('m')
    } else {
        one_decimal(tenths_of(v, 1000)).push('k')
    }
}

fn push_one_decimal(out: &mut String, tenths: u64)
    ensures
        final(out)@ == old(out)@ + one_decimal(tenths as nat),
{
    push_decimal(out, tenths / 10);
    if tenths % 10 != 0 {
        push_char(out, '.');
        push_char(out, digit(tenths % 10));
        assert(final(out)@ =~= old(out)@ + one_decimal(tenths as nat));
    }
}

/// Formats a token count compactly: `999`, `1k`, `1.1k`, `3.2m`; negative
/// counts show as `0`.
pub fn format_token_count_compact(value: i64) -> (r: String)
    ensures
        r@ == compact_count(value),
{
    let v: u64 = if value < 0 {
        0
    } else {
        value as u64
    };
    let mut out = String::new();
    if v < 1000 {
        push_decimal(&mut out, v);
        assert(out@ =~= compact_count(value));
    } else {
        let (unit, suffix): (u128, char) = if v >= 1_000_000 {
            (1_000_000, 'm')
        } else {
            (1000, 'k')
        };
        let tenths = tenths_exec(v, unit);
        push_one_decimal(&mut out, tenths);
        push_char(&mut out, suffix);
        assert(out@ =~= compact_count(value));
    }
    out
}

} // verus!
