//! Single-precision rounding, carried out on integers.
//!
//! A single-precision float keeps 24 significant bits. This module rounds
//! natural numbers and quotients to that precision, to nearest and with ties to
//! even, and so says which float a sum of whole seconds and a fraction of a
//! second lands on, and which hundredth lies nearest to it.

use vstd::prelude::*;
use vstd::arithmetic::div_mod::*;

verus! {

/// The first number that no longer fits in 24 bits.
pub const SIGNIFICAND_LIMIT: u64 = 0x100_0000;

/// The number of nanoseconds in a second.
pub const NANOS_PER_SEC: u64 = 1_000_000_000;

/// `2^23 * 10^9`: a numerator at or above it, over `10^9`, has a quotient of 24 bits.
pub const UNIT_FLOOR: u64 = 8_388_608_000_000_000;

/// `num / den` rounded to the nearest integer, an exact half going to the even
/// neighbour.
pub open spec fn round_half_even(num: nat, den: nat) -> nat {
    let q = num / den;
    let r = num % den;
    if 2 * r < den || (2 * r == den && q % 2 == 0) {
        q
    } else {
        q + 1
    }
}

/// The least power of two `s` for which `n / s` fits in 24 bits: the weight of
/// the last significant bit that a float has room for when it holds `n`.
pub open spec fn last_place(n: nat) -> nat
    decreases n,
{
    if n < SIGNIFICAND_LIMIT {
        1
    } else {
        2 * last_place(n / 2)
    }
}

/// `n` rounded to 24 significant bits.
pub open spec fn round_significand(n: nat) -> nat {
    round_half_even(n, last_place(n)) * last_place(n)
}

/// The least power of two `s` for which `p * s` reaches `UNIT_FLOOR`, for a
/// positive `p`; one where `p` is zero.
pub open spec fn unit_scale(p: nat) -> nat
    decreases
            (if p < UNIT_FLOOR {
                UNIT_FLOOR - p
            } else {
                0
            }),
{
    if p == 0 || p >= UNIT_FLOOR {
        1
    } else {
        2 * unit_scale(2 * p)
    }
}

/// The hundredths of a second that stand for `secs` whole seconds and `nanos`
/// nanoseconds once the sum has gone through single precision.
///
/// The nanoseconds are rounded to a float, divided by `10^9` with the quotient
/// rounded to a float, and added to the seconds with the sum rounded to a float.
/// The result is the hundredth nearest to that last float.
pub open spec fn single_hundredths(secs: nat, nanos: nat) -> nat {
    let a = round_significand(nanos);
    let scale = unit_scale(a);
    let fraction = round_half_even(a * scale, NANOS_PER_SEC as nat);
    let sum = round_significand(secs * scale + fraction);
    round_half_even(sum * 100, scale)
}

/// Rounding to nearest stays within one of the quotient.
pub proof fn lemma_round_half_even_bounds(num: nat, den: nat)
    requires
        den > 0,
    ensures
        num / den <= round_half_even(num, den) <= num / den + 1,
        round_half_even(num, den) * den <= num + den,
        num % den == 0 ==> round_half_even(num, den) == num / den,
{
    let q = num / den;
    lemma_fundamental_div_mod(num as int, den as int);
    assert((q + 1) * den == q * den + den) by (nonlinear_arith);
    assert(den * q == q * den) by (nonlinear_arith);
}

/// The last place of `n` is positive, lets `n` fit, and is no coarser than needed.
pub proof fn lemma_last_place(n: nat)
    ensures
        last_place(n) >= 1,
        n / last_place(n) < SIGNIFICAND_LIMIT,
        last_place(n) == 1 || last_place(n) * 0x80_0000 <= n,
    decreases n,
{
    if n >= SIGNIFICAND_LIMIT {
        let h = n / 2;
        lemma_last_place(h);
        let s = last_place(h);
        lemma_div_denominator(n as int, 2, s as int);
        assert(s * 0x80_0000 <= h) by {
            if s == 1 {
            }
        }
    }
}

/// Rounding to nearest moves a quotient by at most a half.
pub proof fn lemma_round_half_even_error(num: nat, den: nat)
    requires
        den > 0,
    ensures
        2 * (round_half_even(num, den) * den) <= 2 * num + den,
        2 * num <= 2 * (round_half_even(num, den) * den) + den,
{
    let q = num / den;
    lemma_fundamental_div_mod(num as int, den as int);
    assert((q + 1) * den == q * den + den) by (nonlinear_arith);
    assert(den * q == q * den) by (nonlinear_arith);
}

/// Rounding to 24 significant bits moves a number by at most one part in `2^24`.
pub proof fn lemma_round_significand_error(n: nat)
    ensures
        0x100_0000 * round_significand(n) <= 0x100_0001 * n,
        0xff_ffff * n <= 0x100_0000 * round_significand(n),
{
    let place = last_place(n);
    lemma_last_place(n);
    lemma_round_half_even_error(n, place);
    if place == 1 {
        lemma_round_half_even_bounds(n, 1);
        assert(round_half_even(n, 1) * 1 == n);
    }
}

/// The scale of a positive numerator below `UNIT_FLOOR` brings it to
/// `UNIT_FLOOR` or above, and not to twice that.
pub proof fn lemma_unit_scale(p: nat)
    requires
        0 < p < UNIT_FLOOR,
    ensures
        unit_scale(p) >= 1,
        UNIT_FLOOR <= p * unit_scale(p) < 2 * UNIT_FLOOR,
    decreases UNIT_FLOOR - p,
{
    if 2 * p < UNIT_FLOOR {
        lemma_unit_scale(2 * p);
        assert(p * (2 * unit_scale(2 * p)) == (2 * p) * unit_scale(2 * p)) by (nonlinear_arith);
    } else {
        assert(unit_scale(2 * p) == 1);
        assert(p * 2 == 2 * p);
    }
}

/// Single precision keeps the seconds of a span under two minutes close to
/// the truth: the hundredths it leads to are those of the span, cut off, or one more.
pub proof fn lemma_single_hundredths_is_close(secs: nat, nanos: nat)
    requires
        secs < 120,
        nanos < NANOS_PER_SEC,
    ensures
        (secs * 1_000_000_000 + nanos) / 10_000_000 <= single_hundredths(secs, nanos),
        single_hundredths(secs, nanos) <= (secs * 1_000_000_000 + nanos) / 10_000_000 + 1,
{
    let total = secs * 1_000_000_000 + nanos;
    let a = round_significand(nanos);
    lemma_round_significand_error(nanos);
    lemma_last_place(secs);
    if nanos == 0 {
        assert(last_place(0) == 1);
        assert(round_half_even(0, 1) == 0);
        assert(a == 0) by (nonlinear_arith)
            requires
                a == round_half_even(0, 1) * 1,
                round_half_even(0, 1) == 0,
        ;
        assert(unit_scale(0) == 1);
        assert(round_half_even(0, NANOS_PER_SEC as nat) == 0);
        assert(secs * 1 + 0 == secs) by (nonlinear_arith);
        lemma_round_half_even_bounds(secs, 1);
        assert(round_significand(secs) == secs) by (nonlinear_arith)
            requires
                round_significand(secs) == round_half_even(secs, 1) * 1,
                round_half_even(secs, 1) == secs,
        ;
        lemma_round_half_even_bounds(secs * 100, 1);
    } else {
        let scale = unit_scale(a);
        lemma_unit_scale(a);
        let p = a * scale;
        let fraction = round_half_even(p, NANOS_PER_SEC as nat);
        lemma_round_half_even_error(p, NANOS_PER_SEC as nat);
        let sum_exact = secs * scale + fraction;
        let sum = round_significand(sum_exact);
        lemma_round_significand_error(sum_exact);
        let c = round_half_even(sum * 100, scale);
        lemma_round_half_even_error(sum * 100, scale);
        // The products that the bounds speak of.
        let ss = secs * scale;
        let ns = nanos * scale;
        let cs = c * scale;
        let fg = fraction * NANOS_PER_SEC as nat;
        assert(p <= ns + 64 * scale && ns <= p + 64 * scale) by (nonlinear_arith)
            requires
                p == a * scale,
                ns == nanos * scale,
                a <= nanos + 64,
                nanos <= a + 64,
        ;
        assert(ss <= 119 * scale) by (nonlinear_arith)
            requires
                ss == secs * scale,
                secs <= 119,
        ;
        assert(scale >= 0x40_0000) by (nonlinear_arith)
            requires
                a * scale >= 8_388_608_000_000_000,
                a <= 0x4000_0040,
        ;
        assert(total * scale == 1_000_000_000 * ss + ns) by (nonlinear_arith)
            requires
                total == secs * 1_000_000_000 + nanos,
                ss == secs * scale,
                ns == nanos * scale,
        ;
        let ts = total * scale;
        // `fraction` is at most `2^24`, so the sum stays under 123 times the scale.
        assert(sum_exact <= 123 * scale);
        // Within half a hundredth and a little: the three roundings to single
        // precision add less than a thousandth of a hundredth each.
        assert(10_000_000 * cs < ts + 10_000_000 * scale);
        assert(ts < 10_000_000 * cs + 10_000_000 * scale);
        assert(10_000_000 * c < total + 10_000_000) by (nonlinear_arith)
            requires
                10_000_000 * cs < ts + 10_000_000 * scale,
                cs == c * scale,
                ts == total * scale,
                scale > 0,
        ;
        assert(total < 10_000_000 * c + 10_000_000) by (nonlinear_arith)
            requires
                ts < 10_000_000 * cs + 10_000_000 * scale,
                cs == c * scale,
                ts == total * scale,
                scale > 0,
        ;
    }
}

/// `round_half_even` on machine integers.
pub(crate) fn nearest_even(num: u128, den: u128) -> (r: u128)
    requires
        den > 0,
        num + den <= u128::MAX,
    ensures
        r == round_half_even(num as nat, den as nat),
{
    let q: u128 = num / den;
    let r: u128 = num % den;
    proof {
        lemma_round_half_even_bounds(num as nat, den as nat);
    }
    // `r < den`, so `den - r` does not wrap, and `r < den - r` says `2 * r < den`.
    if r < den - r || (r == den - r && q % 2 == 0) {
        q
    } else {
        q + 1
    }
}

/// `last_place` on machine integers.
pub(crate) fn last_place_of(n: u64) -> (s: u64)
    ensures
        s == last_place(n as nat),
{
    let mut s: u64 = 1;
    let mut m: u64 = n;
    while m >= SIGNIFICAND_LIMIT
        invariant
            last_place(n as nat) == s * last_place(m as nat),
            s >= 1,
            s * m <= n,
        decreases m,
    {
        proof {
            let h = m / 2;
            assert(s * 0x100_0000 <= s * m) by (nonlinear_arith)
                requires
                    m >= 0x100_0000,
                    s >= 1,
            ;
            assert((2 * s) * h <= s * m) by (nonlinear_arith)
                requires
                    h == m / 2,
                    s >= 1,
            ;
            assert(s * (2 * last_place(h as nat)) == (2 * s) * last_place(h as nat))
                by (nonlinear_arith);
        }
        m = m / 2;
        s = s * 2;
    }
    assert(s * 1 == s);
    s
}

/// `round_significand` on machine integers.
pub(crate) fn round_to_significand(n: u64) -> (r: u64)
    requires
        n <= 0x7fff_ffff_ffff_ffff,
    ensures
        r == round_significand(n as nat),
{
    let s: u64 = last_place_of(n);
    proof {
        lemma_last_place(n as nat);
        lemma_round_half_even_bounds(n as nat, s as nat);
    }
    let m: u128 = nearest_even(n as u128, s as u128);
    let r: u128 = m * (s as u128);
    r as u64
}

/// `unit_scale` on machine integers, with the product it stops at.
pub(crate) fn unit_scale_of(a: u64) -> (scale: u64)
    requires
        0 < a < UNIT_FLOOR,
    ensures
        scale == unit_scale(a as nat),
        scale >= 1,
        UNIT_FLOOR <= a * scale < 2 * UNIT_FLOOR,
{
    let mut scale: u64 = 1;
    let mut p: u64 = a;
    while p < UNIT_FLOOR
        invariant
            0 < p,
            p == a * scale,
            1 <= scale <= p,
            p < 2 * UNIT_FLOOR,
            unit_scale(a as nat) == scale * unit_scale(p as nat),
        decreases
                (if p < UNIT_FLOOR {
                    UNIT_FLOOR - p
                } else {
                    0
                }),
    {
        proof {
            assert(a * (2 * scale) == 2 * (a * scale)) by (nonlinear_arith);
            assert(scale * (2 * unit_scale((2 * p) as nat)) == (2 * scale) * unit_scale(
                (2 * p) as nat,
            )) by (nonlinear_arith);
        }
        p = p * 2;
        scale = scale * 2;
    }
    assert(scale * 1 == scale);
    scale
}

/// `single_hundredths` on machine integers, for a duration under 120 seconds.
pub(crate) fn hundredths(secs: u64, nanos: u32) -> (c: u64)
    requires
        secs < 120,
        nanos < NANOS_PER_SEC,
    ensures
        c == single_hundredths(secs as nat, nanos as nat),
{
    let a: u64 = round_to_significand(nanos as u64);
    proof {
        lemma_last_place(nanos as nat);
        lemma_round_half_even_bounds(nanos as nat, last_place(nanos as nat));
    }
    if a == 0 {
        proof {
            let s = secs as nat;
            assert(unit_scale(0) == 1);
            assert(round_half_even(0, NANOS_PER_SEC as nat) == 0);
            assert(last_place(s) == 1);
            assert(round_half_even(s, 1) == s);
            assert(round_half_even(s * 100, 1) == s * 100);
        }
        return secs * 100;
    }
    let scale: u64 = unit_scale_of(a);
    let ghost p: nat = (a * scale) as nat;
    proof {
        lemma_round_half_even_bounds(p, NANOS_PER_SEC as nat);
        assert(scale <= a * scale) by (nonlinear_arith)
            requires
                a >= 1,
        ;
        assert(secs * scale <= 119 * scale) by (nonlinear_arith)
            requires
                secs <= 119,
        ;
    }
    let fraction: u128 = nearest_even((a as u128) * (scale as u128), NANOS_PER_SEC as u128);
    let total: u64 = secs * scale + (fraction as u64);
    let sum: u64 = round_to_significand(total);
    proof {
        lemma_last_place(total as nat);
        lemma_round_half_even_bounds(total as nat, last_place(total as nat));
        lemma_round_half_even_bounds((sum * 100) as nat, scale as nat);
        // The sum stays under 2^26 seconds' worth, so its hundredths fit easily.
        assert(sum <= 0x400_0000 * scale) by (nonlinear_arith)
            requires
                sum <= 2 * total + 1,
                total <= 119 * scale + 0x100_0000,
                scale >= 1,
        ;
        assert((sum * 100) as nat / (scale as nat) <= 6_710_886_400int) by {
            lemma_div_is_ordered((sum * 100) as int, scale * 6_710_886_400int, scale as int);
            lemma_div_multiples_vanish(6_710_886_400int, scale as int);
        }
    }
    let c: u128 = nearest_even((sum as u128) * 100, scale as u128);
    c as u64
}

} // verus!

