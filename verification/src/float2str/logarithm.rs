//! The estimates of the logarithms are exact on the exponents of the
//! conversion: the two neighbouring fractions that enclose the true logarithm
//! and its estimate leave no room for a multiple between them.

use vstd::prelude::*;
use vstd::arithmetic::power::{
    pow, lemma_pow0, lemma_pow_adds, lemma_pow_distributes, lemma_pow_increases,
    lemma_pow_multiplies, lemma_pow_positive, lemma_pow_strictly_increases,
};
use vstd::arithmetic::power2::{pow2, lemma_pow2};
use crate::float2str::common::{spec_log10_pow2, spec_log10_pow5, spec_pow5bits};
use crate::float2str::powers::lemma_powers_of_two_and_five;

verus! {

/// Raising to a power keeps the order of the bases.
pub proof fn lemma_pow_base_increases(x: int, y: int, k: nat)
    requires
        0 <= x <= y,
    ensures
        0 <= pow(x, k) <= pow(y, k),
    decreases k,
{
    reveal(pow);
    if k > 0 {
        lemma_pow_base_increases(x, y, (k - 1) as nat);
        let a = pow(x, (k - 1) as nat);
        let b = pow(y, (k - 1) as nat);
        assert(0 <= x * a <= y * b) by (nonlinear_arith)
            requires
                0 <= x <= y,
                0 <= a <= b,
        ;
    }
}

/// Raising to a positive power keeps the strict order of the bases.
pub proof fn lemma_pow_base_strictly_increases(x: int, y: int, k: nat)
    requires
        0 <= x < y,
        k >= 1,
    ensures
        pow(x, k) < pow(y, k),
    decreases k,
{
    reveal(pow);
    lemma_pow_base_increases(x, y, (k - 1) as nat);
    lemma_pow_positive(y, (k - 1) as nat);
    let a = pow(x, (k - 1) as nat);
    let b = pow(y, (k - 1) as nat);
    assert(x * a < y * b) by (nonlinear_arith)
        requires
            0 <= x < y,
            0 <= a <= b,
            0 < b,
    ;
}

/// Between two neighbouring fractions `lo_n / lo_d < hi_n / hi_d`, which satisfy
/// `hi_n * lo_d - lo_n * hi_d == 1`, no fraction has a denominator below `lo_d + hi_d`.
pub proof fn lemma_no_fraction_between(n: int, e: int, lo_n: int, lo_d: int, hi_n: int, hi_d: int)
    requires
        lo_d > 0,
        hi_d > 0,
        hi_n * lo_d - lo_n * hi_d == 1,
        n * lo_d > lo_n * e,
        n * hi_d < hi_n * e,
    ensures
        e >= lo_d + hi_d,
{
    let left = n * lo_d - lo_n * e;
    let right = hi_n * e - n * hi_d;
    assert(e == lo_d * right + hi_d * left) by (nonlinear_arith)
        requires
            left == n * lo_d - lo_n * e,
            right == hi_n * e - n * hi_d,
            hi_n * lo_d - lo_n * hi_d == 1,
    ;
    assert(lo_d * right + hi_d * left >= lo_d + hi_d) by (nonlinear_arith)
        requires
            left >= 1,
            right >= 1,
            lo_d > 0,
            hi_d > 0,
    ;
}

/// Where `lo_n / lo_d` and `hi_n / hi_d` bound the logarithm of `b` to the base `c`
/// from below and from above, and `n / e` and `(n + 1) / e` are not above the
/// one and not below the other, `n` is the integer part of the logarithm of
/// `b^e`.
pub proof fn lemma_integer_logarithm(
    b: int,
    c: int,
    e: nat,
    n: nat,
    lo_n: nat,
    lo_d: nat,
    hi_n: nat,
    hi_d: nat,
)
    requires
        b >= 1,
        c >= 2,
        lo_d >= 1,
        hi_d >= 1,
        n * lo_d <= lo_n * e,
        (n + 1) * hi_d >= hi_n * e,
        pow(c, lo_n) <= pow(b, lo_d),
        pow(b, hi_d) < pow(c, hi_n),
    ensures
        pow(c, n) <= pow(b, e) < pow(c, n + 1),
{
    lemma_pow_positive(b, e);
    lemma_pow_positive(c, n);
    lemma_pow_positive(c, n + 1);
    lemma_pow_positive(c, lo_n);
    lemma_pow_positive(b, hi_d);
    // (c^n)^lo_d <= (b^e)^lo_d
    lemma_pow_multiplies(c, n, lo_d);
    lemma_pow_multiplies(c, lo_n, e);
    lemma_pow_multiplies(b, lo_d, e);
    lemma_pow_multiplies(b, e, lo_d);
    assert(lo_d * e == e * lo_d) by (nonlinear_arith);
    lemma_pow_increases(c as nat, n * lo_d, lo_n * e);
    lemma_pow_base_increases(pow(c, lo_n), pow(b, lo_d), e);
    if pow(c, n) > pow(b, e) {
        lemma_pow_base_strictly_increases(pow(b, e), pow(c, n), lo_d);
    }
    // (b^e)^hi_d < (c^(n + 1))^hi_d
    if e == 0 {
        lemma_pow0(b);
        lemma_pow0(c);
        lemma_pow_strictly_increases(c as nat, 0, n + 1);
    } else {
        lemma_pow_multiplies(b, e, hi_d);
        lemma_pow_multiplies(b, hi_d, e);
        lemma_pow_multiplies(c, hi_n, e);
        lemma_pow_multiplies(c, n + 1, hi_d);
        assert(hi_d * e == e * hi_d) by (nonlinear_arith);
        lemma_pow_base_strictly_increases(pow(b, hi_d), pow(c, hi_n), e);
        lemma_pow_increases(c as nat, hi_n * e, (n + 1) * hi_d);
        if pow(b, e) >= pow(c, n + 1) {
            lemma_pow_base_increases(pow(c, n + 1), pow(b, e), hi_d);
        }
    }
}

/// For every `e` up to 3528, `floor(e * 1217359 / 2^19) + 1` is the length of
/// `5^e` in binary.
pub proof fn lemma_pow5bits_exact(e: int)
    requires
        0 <= e <= 3528,
    ensures
        spec_pow5bits(e) >= 1,
        pow2((spec_pow5bits(e) - 1) as nat) <= pow(5, e as nat) < pow2(spec_pow5bits(e) as nat),
{
    reveal(spec_pow5bits);
    let n = e * 1217359 / 524288;
    lemma_powers_of_two_and_five();
    // 7804 / 3361 <= 1217359 / 2^19 < 1493 / 643, and they are neighbours
    if n * 3361 > 7804 * e {
        lemma_no_fraction_between(n, e, 7804, 3361, 1493, 643);
    }
    if (n + 1) * 643 < 1493 * e {
        lemma_no_fraction_between(n + 1, e, 7804, 3361, 1493, 643);
    }
    lemma_integer_logarithm(5, 2, e as nat, n as nat, 7804, 3361, 1493, 643);
    lemma_pow2(n as nat);
    lemma_pow2((n + 1) as nat);
}

/// For every `e` up to 1650, `floor(e * 78913 / 2^18)` is the integer part of
/// the decimal logarithm of `2^e`.
pub proof fn lemma_log10_pow2_exact(e: int)
    requires
        0 <= e <= 1650,
    ensures
        spec_log10_pow2(e) >= 0,
        pow(10, spec_log10_pow2(e) as nat) <= pow2(e as nat) < pow(
            10,
            (spec_log10_pow2(e) + 1) as nat,
        ),
{
    reveal(spec_log10_pow2);
    let n = e * 78913 / 262144;
    lemma_powers_of_two_and_five();
    // 10^351 <= 2^1166 and 2^485 < 10^146
    lemma_pow_distributes(2, 5, 351);
    lemma_pow_adds(2, 351, 815);
    lemma_pow_positive(2, 351);
    assert(pow(10, 351) <= pow(2, 1166)) by (nonlinear_arith)
        requires
            pow(10, 351) == pow(2, 351) * pow(5, 351),
            pow(2, 1166) == pow(2, 351) * pow(2, 815),
            pow(5, 351) < pow(2, 815),
            pow(2, 351) > 0,
    ;
    lemma_pow_distributes(2, 5, 146);
    lemma_pow_adds(2, 146, 339);
    lemma_pow_positive(2, 146);
    assert(pow(2, 485) < pow(10, 146)) by (nonlinear_arith)
        requires
            pow(10, 146) == pow(2, 146) * pow(5, 146),
            pow(2, 485) == pow(2, 146) * pow(2, 339),
            pow(2, 339) < pow(5, 146),
            pow(2, 146) > 0,
    ;
    // 351 / 1166 <= 78913 / 2^18 < 146 / 485, and they are neighbours
    if n * 1166 > 351 * e {
        lemma_no_fraction_between(n, e, 351, 1166, 146, 485);
    }
    if (n + 1) * 485 < 146 * e {
        lemma_no_fraction_between(n + 1, e, 351, 1166, 146, 485);
    }
    lemma_integer_logarithm(2, 10, e as nat, n as nat, 351, 1166, 146, 485);
    lemma_pow2(e as nat);
}

/// For every `e` up to 2620, `floor(e * 732923 / 2^20)` is the integer part
/// of the decimal logarithm of `5^e`.
pub proof fn lemma_log10_pow5_exact(e: int)
    requires
        0 <= e <= 2620,
    ensures
        spec_log10_pow5(e) >= 0,
        pow(10, spec_log10_pow5(e) as nat) <= pow(5, e as nat) < pow(
            10,
            (spec_log10_pow5(e) + 1) as nat,
        ),
{
    reveal(spec_log10_pow5);
    let n = e * 732923 / 1048576;
    lemma_powers_of_two_and_five();
    // 10^339 <= 5^485 and 5^2136 < 10^1493
    lemma_pow_distributes(2, 5, 339);
    lemma_pow_adds(5, 339, 146);
    lemma_pow_positive(5, 339);
    assert(pow(10, 339) <= pow(5, 485)) by (nonlinear_arith)
        requires
            pow(10, 339) == pow(2, 339) * pow(5, 339),
            pow(5, 485) == pow(5, 339) * pow(5, 146),
            pow(2, 339) < pow(5, 146),
            pow(5, 339) > 0,
    ;
    lemma_pow_distributes(2, 5, 1493);
    lemma_pow_adds(5, 1493, 643);
    lemma_pow_positive(5, 1493);
    assert(pow(5, 2136) < pow(10, 1493)) by (nonlinear_arith)
        requires
            pow(10, 1493) == pow(2, 1493) * pow(5, 1493),
            pow(5, 2136) == pow(5, 1493) * pow(5, 643),
            pow(5, 643) < pow(2, 1493),
            pow(5, 1493) > 0,
    ;
    // 339 / 485 <= 732923 / 2^20 < 1493 / 2136, and they are neighbours
    if n * 485 > 339 * e {
        lemma_no_fraction_between(n, e, 339, 485, 1493, 2136);
    }
    if (n + 1) * 2136 < 1493 * e {
        lemma_no_fraction_between(n + 1, e, 339, 485, 1493, 2136);
    }
    lemma_integer_logarithm(5, 10, e as nat, n as nat, 339, 485, 1493, 2136);
}

} // verus!
