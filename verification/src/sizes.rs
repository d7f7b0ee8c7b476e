//! Byte counts as short decimal text, such as `1.5 KB`.
//!
//! A count is shown in the largest unit, out of those given, in which it is
//! at least one, with one digit after the point. The arithmetic is that of
//! double precision, carried out here in integers: the count is first rounded
//! to 53 significant bits, then scaled by a power of 1024, which loses
//! nothing, and last rounded to tenths. Both roundings are to nearest, ties
//! to even.

use crate::text::decimal;
use crate::text::push_decimal;
use vstd::prelude::*;

verus! {

/// 2 to the power 53: below it, every count is held exactly.
pub const EXACT_LIMIT: u64 = 0x20_0000_0000_0000;

/// `num / den` rounded to the nearest integer, ties to the even one.
pub open spec fn round_half_even(num: nat, den: nat) -> nat
    recommends
        den > 0,
{
    let q = num / den;
    let r = num % den;
    if 2 * r > den || (2 * r == den && q % 2 == 1) {
        q + 1
    } else {
        q
    }
}

/// The spacing of the values with 53 significant bits around `n`.
pub open spec fn spacing(n: nat) -> nat
    decreases n,
{
    if n < EXACT_LIMIT {
        1
    } else {
        2 * spacing(n / 2)
    }
}

/// `n` rounded to 53 significant bits.
pub open spec fn to_double(n: nat) -> nat {
    round_half_even(n, spacing(n)) * spacing(n)
}

/// 1024 to the power `k`.
pub open spec fn kibi(k: nat) -> nat
    decreases k,
{
    if k == 0 {
        1
    } else {
        1024 * kibi((k - 1) as nat)
    }
}

/// How many times `m` can be divided by 1024 and stay at least 1, up to
/// `max` times.
pub open spec fn unit_index(m: nat, max: nat) -> nat
    decreases max,
{
    if m < 1024 || max == 0 {
        0
    } else {
        1 + unit_index(m / 1024, (max - 1) as nat)
    }
}

/// The tenths shown for `size` in the unit of index `k`.
pub open spec fn tenths_in_unit(size: nat, k: nat) -> nat {
    round_half_even(to_double(size) * 10, kibi(k))
}

/// A number of tenths as text with one digit after the point.
pub open spec fn tenths_text(tenths: nat) -> Seq<char> {
    decimal(tenths / 10) + seq!['.'] + decimal(tenths % 10)
}

proof fn lemma_spacing_bounds(n: nat)
    requires
        n < 0x1_0000_0000_0000_0000,
    ensures
        1 <= spacing(n) <= 2048,
{
    reveal_with_fuel(spacing, 13);
}

proof fn lemma_spacing_positive(n: nat)
    ensures
        spacing(n) >= 1,
    decreases n,
{
    if n >= EXACT_LIMIT {
        lemma_spacing_positive(n / 2);
    }
}

/// Executable form of [`round_half_even`].
pub fn rounded_quotient(num: u128, den: u128) -> (q: u128)
    requires
        den > 0,
        num / den < u128::MAX,
        den <= u128::MAX / 2,
    ensures
        q == round_half_even(num as nat, den as nat),
{
    let q: u128 = num / den;
    let r: u128 = num % den;
    if 2 * r > den || (2 * r == den && q % 2 == 1) {
        q + 1
    } else {
        q
    }
}

/// Executable form of [`spacing`], for counts that fit 64 bits.
pub fn spacing_of(n: u64) -> (s: u64)
    ensures
        s == spacing(n as nat),
        1 <= s <= 2048,
{
    let mut s: u64 = 1;
    let mut rest: u64 = n;
    proof {
        lemma_spacing_bounds(n as nat);
    }
    while rest >= EXACT_LIMIT
        invariant
            spacing(n as nat) == s * spacing(rest as nat),
            s >= 1,
            spacing(n as nat) <= 2048,
        decreases rest,
    {
        proof {
            lemma_spacing_positive((rest / 2) as nat);
            assert(s * (2 * spacing((rest / 2) as nat)) == (s * 2) * spacing((rest / 2) as nat))
                by (nonlinear_arith);
            assert(s * 2 <= (s * 2) * spacing((rest / 2) as nat)) by (nonlinear_arith)
                requires
                    spacing((rest / 2) as nat) >= 1,
                    s >= 1,
            ;
        }
        s = s * 2;
        rest = rest / 2;
    }
    assert(s * 1 == s) by (nonlinear_arith);
    s
}

/// Executable form of [`to_double`], for counts that fit 64 bits.
pub fn nearest_double(n: u64) -> (m: u128)
    ensures
        m == to_double(n as nat),
        m < 0x2_0000_0000_0000_0000,
{
    let s = spacing_of(n);
    let q = rounded_quotient(n as u128, s as u128);
    proof {
        assert(q <= n / s + 1);
        assert((n / s + 1) * s <= n + s) by (nonlinear_arith)
            requires
                s >= 1,
        ;
        assert(q * s <= (n / s + 1) * s) by (nonlinear_arith)
            requires
                q <= n / s + 1,
                s >= 1,
        ;
    }
    q * (s as u128)
}

proof fn lemma_kibi_values()
    ensures
        kibi(0) == 1,
        kibi(1) == 0x400,
        kibi(2) == 0x10_0000,
        kibi(3) == 0x4000_0000,
        kibi(4) == 0x100_0000_0000,
        kibi(5) == 0x4_0000_0000_0000,
{
    reveal_with_fuel(kibi, 6);
}

/// Executable form of [`unit_index`], with the matching power of 1024.
pub fn unit_of(m: u128, max: usize) -> (r: (usize, u128))
    requires
        max <= 5,
    ensures
        r.0 == unit_index(m as nat, max as nat),
        r.1 == kibi(r.0 as nat),
        r.0 <= max,
        1 <= r.1 <= 0x4_0000_0000_0000,
{
    let mut k: usize = 0;
    let mut scale: u128 = 1;
    let mut rest: u128 = m;
    proof {
        lemma_kibi_values();
    }
    while k < max && rest >= 1024
        invariant
            k <= max <= 5,
            scale == kibi(k as nat),
            unit_index(m as nat, max as nat) == k + unit_index(rest as nat, (max - k) as nat),
        decreases max - k,
    {
        proof {
            lemma_kibi_values();
        }
        rest = rest / 1024;
        scale = scale * 1024;
        k = k + 1;
    }
    proof {
        lemma_kibi_values();
    }
    (k, scale)
}

/// Appends the text of a number of tenths to `out`.
pub fn push_tenths(out: &mut Vec<char>, tenths: u128)
    ensures
        final(out)@ == old(out)@ + tenths_text(tenths as nat),
{
    push_decimal(out, tenths / 10);
    out.push('.');
    push_decimal(out, tenths % 10);
    assert(out@ =~= old(out)@ + tenths_text(tenths as nat));
}

} // verus!
