//! Counting decimal digits, estimating logarithms with one multiplication
//! and one shift, and divisibility by powers of five and of two.

use vstd::prelude::*;
use vstd::arithmetic::div_mod::{lemma_fundamental_div_mod, lemma_fundamental_div_mod_converse};
use vstd::arithmetic::power::{pow, lemma_pow_positive};
use vstd::arithmetic::power2::{pow2, lemma2_to64};
use vstd::bits::lemma_u32_shr_is_div;
use crate::float2str::logarithm::{
    lemma_log10_pow2_exact, lemma_log10_pow5_exact, lemma_pow5bits_exact,
};

verus! {

/// Number of decimal digits of `v`; zero has one digit.
pub open spec fn decimal_length(v: nat) -> nat
    decreases v,
{
    if v < 10 {
        1
    } else {
        1 + decimal_length(v / 10)
    }
}

/// `floor(e * 1217359 / 2^19) + 1`, the fixed-point estimate of the length of
/// `5^e` in binary.
#[verifier::opaque]
pub open spec fn spec_pow5bits(e: int) -> int {
    e * 1217359 / 524288 + 1
}

/// `floor(e * 78913 / 2^18)`, the fixed-point estimate of `floor(log10(2^e))`.
#[verifier::opaque]
pub open spec fn spec_log10_pow2(e: int) -> int {
    e * 78913 / 262144
}

/// `floor(e * 732923 / 2^20)`, the fixed-point estimate of `floor(log10(5^e))`.
#[verifier::opaque]
pub open spec fn spec_log10_pow5(e: int) -> int {
    e * 732923 / 1048576
}

/// Counts the decimal digits of a value below `10^9`; anything larger counts
/// as nine digits.
pub fn decimal_length9(v: u32) -> (r: isize)
    ensures
        1 <= r <= 9,
        r == if v >= 100_000_000 {
            9
        } else {
            decimal_length(v as nat) as int
        },
        v < 1_000_000_000 ==> r == decimal_length(v as nat),
{
    proof {
        reveal_with_fuel(decimal_length, 10);
    }
    if v < 10 {
        1
    } else if v < 100 {
        2
    } else if v < 1000 {
        3
    } else if v < 10000 {
        4
    } else if v < 100000 {
        5
    } else if v < 1000000 {
        6
    } else if v < 10000000 {
        7
    } else if v < 100000000 {
        8
    } else {
        9
    }
}

/// The length of `5^e` in binary, `floor(log2(5^e)) + 1`, by one
/// multiplication and one shift.
pub fn pow5bits(e: i32) -> (r: i32)
    requires
        0 <= e <= 3528,
    ensures
        r == spec_pow5bits(e as int),
        r >= 1,
        pow2((r - 1) as nat) <= pow(5, e as nat) < pow2(r as nat),
{
    let x: u32 = e as u32 * 1217359;
    proof {
        lemma_pow5bits_exact(e as int);
        reveal(spec_pow5bits);
        lemma_u32_shr_is_div(x, 19);
        lemma2_to64();
    }
    ((x >> 19) + 1) as i32
}

/// `floor(e * 78913 / 2^18)` by one multiplication and one shift: for `e` up
/// to 1650 this is `floor(log10(2^e))`.
pub fn log10_pow2(e: i32) -> (r: u32)
    requires
        0 <= e <= 54426,
    ensures
        r == spec_log10_pow2(e as int),
        e <= 1650 ==> pow(10, r as nat) <= pow2(e as nat) < pow(10, (r + 1) as nat),
{
    let x: u32 = e as u32 * 78913;
    proof {
        if e <= 1650 {
            lemma_log10_pow2_exact(e as int);
        }
        reveal(spec_log10_pow2);
        lemma_u32_shr_is_div(x, 18);
        lemma2_to64();
    }
    x >> 18
}

/// `floor(e * 732923 / 2^20)` by one multiplication and one shift: for `e`
/// up to 2620 this is `floor(log10(5^e))`.
pub fn log10_pow5(e: i32) -> (r: u32)
    requires
        0 <= e <= 5860,
    ensures
        r == spec_log10_pow5(e as int),
        e <= 2620 ==> pow(10, r as nat) <= pow(5, e as nat) < pow(10, (r + 1) as nat),
{
    let x: u32 = e as u32 * 732923;
    proof {
        if e <= 2620 {
            lemma_log10_pow5_exact(e as int);
        }
        reveal(spec_log10_pow5);
        lemma_u32_shr_is_div(x, 20);
        lemma2_to64();
    }
    x >> 20
}

/// `value` is a multiple of `5^p`.
#[verifier::opaque]
pub open spec fn is_multiple_of_pow5(value: nat, p: nat) -> bool {
    value as int % pow(5, p) == 0
}

/// `value` is a multiple of `2^p`.
#[verifier::opaque]
pub open spec fn is_multiple_of_pow2(value: nat, p: nat) -> bool {
    value % pow2(p) == 0
}

/// How often five divides `value`; zero for zero.
pub open spec fn pow5_factor(value: nat) -> nat
    decreases value,
{
    if value == 0 || value % 5 != 0 {
        0
    } else {
        1 + pow5_factor(value / 5)
    }
}

/// Five divides `value` at least `p` times exactly if `5^p` divides it.
pub proof fn lemma_pow5_factor(value: nat, p: nat)
    requires
        value > 0,
    ensures
        pow5_factor(value) >= p <==> is_multiple_of_pow5(value, p),
    decreases p,
{
    reveal(pow);
    reveal(is_multiple_of_pow5);
    if p == 0 {
    } else {
        let h = pow(5, (p - 1) as nat);
        lemma_pow_positive(5, (p - 1) as nat);
        assert(pow(5, p) == 5 * h);
        if value % 5 == 0 {
            let w = value / 5;
            lemma_pow5_factor(w, (p - 1) as nat);
            // value == 5 * w, so value % (5 * h) == 5 * (w % h)
            lemma_fundamental_div_mod(w as int, h);
            let c = w as int / h;
            let d = w as int % h;
            assert(value == (5 * h) * c + 5 * d) by (nonlinear_arith)
                requires
                    value == 5 * w,
                    w == h * c + d,
            ;
            lemma_fundamental_div_mod_converse(value as int, 5 * h, c, 5 * d);
        } else {
            lemma_fundamental_div_mod(value as int, 5 * h);
            let c = value as int / (5 * h);
            if value as int % (5 * h) == 0 {
                assert(value == 5 * (h * c)) by (nonlinear_arith)
                    requires
                        value == (5 * h) * c,
                ;
                assert(false);
            }
        }
    }
}

} // verus!
