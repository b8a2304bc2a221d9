//! The product with a table entry, cut by a shift, is the exact integer part
//! of the scaled value: a fraction that tells the two apart would lie between
//! two neighbouring fractions, and its denominator would be larger than any
//! value that is scaled.

use vstd::prelude::*;
use vstd::arithmetic::div_mod::{lemma_fundamental_div_mod, lemma_fundamental_div_mod_converse};
use vstd::arithmetic::power::{pow, lemma_pow_positive};
use vstd::arithmetic::power2::{pow2, lemma_pow2_adds, lemma_pow2_pos};
use vstd::arithmetic::power2::{lemma2_to64, lemma2_to64_rest};
use crate::float2str::common::spec_pow5bits;
use crate::float2str::d2s::{
    double_multiplier, double_q, double_scaled, double_shift, lemma_double_shift_range,
};
use crate::float2str::logarithm::{lemma_no_fraction_between, lemma_pow5bits_exact};
use crate::float2str::table_proofs::{is_pow5_entry, is_pow5_inv_entry, lemma_table_entry};
use crate::float2str::tables::{wide, DOUBLE_POW5_INV_SPLIT, DOUBLE_POW5_SPLIT};

verus! {

/// `floor(m * 2^s / 5^q)`: the value `m * 2^(s + q)` scaled by `10^-q`.
#[verifier::opaque]
pub open spec fn scale_down_by_pow10(m: nat, s: nat, q: nat) -> nat {
    (m * pow2(s)) / (pow(5, q) as nat)
}

/// `floor(m * 5^i / 2^q)`: the value `m * 2^-(i + q)` scaled by `10^i`.
#[verifier::opaque]
pub open spec fn scale_up_by_pow10(m: nat, i: nat, q: nat) -> nat {
    (m * pow(5, i)) as nat / pow2(q)
}

/// `floor(m * t / 2^j)`.
#[verifier::opaque]
pub open spec fn fixed_point_product(m: nat, t: nat, j: nat) -> nat {
    (m * t) / pow2(j)
}

/// The product with a reciprocal is the exact quotient.
///
/// `t / 2^j` stands for `2^s / 5^q` and is a little above it, and dropping
/// `j` bits of the product `m * t` stands for the division of `m * 2^s` by
/// `5^q`. The two differ for some `m` only if a fraction with denominator `m`
/// lies above `2^s / 5^q` and not above `t / 2^j`. The neighbouring fractions
/// `lo_n / lo_d` and `hi_n / hi_d` enclose both, so that no denominator below
/// `lo_d + hi_d` can do so.
pub proof fn lemma_reciprocal_product_exact(
    m: nat,
    t: nat,
    q: nat,
    s: nat,
    j: nat,
    lo_n: nat,
    lo_d: nat,
    hi_n: nat,
    hi_d: nat,
)
    requires
        pow2(s) * pow2(j) < t * pow(5, q),
        lo_n * pow(5, q) <= lo_d * pow2(s),
        t * hi_d < hi_n * pow2(j),
        hi_n * lo_d - lo_n * hi_d == 1,
        lo_d >= 1,
        hi_d >= 1,
        m < lo_d + hi_d,
    ensures
        fixed_point_product(m, t, j) == scale_down_by_pow10(m, s, q),
{
    reveal(fixed_point_product);
    reveal(scale_down_by_pow10);
    lemma_pow_positive(5, q);
    lemma_pow2_pos(j);
    lemma_pow2_pos(s);
    let y = pow(5, q);
    let big = pow2(j) as int;
    let small = pow2(s) as int;
    let x = m * small;
    let n0 = x / y;
    lemma_fundamental_div_mod(x, y);
    let product = (m * t) as int;
    if m == 0 {
        assert(product == 0) by (nonlinear_arith)
            requires
                product == m * t,
                m == 0,
        ;
        assert(x == 0) by (nonlinear_arith)
            requires
                x == m * small,
                m == 0,
        ;
    } else {
        assert(small * big < t * y);
        // n0 * 2^j <= m * t
        assert(n0 * big * y <= m * (small * big)) by (nonlinear_arith)
            requires
                y * n0 <= m * small,
                big > 0,
        ;
        assert(m * (small * big) < m * (t * y)) by (nonlinear_arith)
            requires
                small * big < t * y,
                m > 0,
        ;
        assert(n0 * big <= product) by (nonlinear_arith)
            requires
                n0 * big * y < m * (t * y),
                product == m * t,
                y > 0,
        ;
        // m * t < (n0 + 1) * 2^j
        let n = n0 + 1;
        assert(n * y == y * n0 + y) by (nonlinear_arith)
            requires
                n == n0 + 1,
        ;
        assert(n * big == n0 * big + big) by (nonlinear_arith)
            requires
                n == n0 + 1,
        ;
        if product >= n * big {
            assert(n * y > m * small);
            assert((m * lo_n) * y <= lo_d * (m * small)) by (nonlinear_arith)
                requires
                    lo_n * y <= lo_d * small,
                    m > 0,
            ;
            assert(lo_d * (m * small) < (n * lo_d) * y) by (nonlinear_arith)
                requires
                    n * y > m * small,
                    lo_d >= 1,
            ;
            assert(m * lo_n < n * lo_d) by (nonlinear_arith)
                requires
                    (m * lo_n) * y < (n * lo_d) * y,
                    y > 0,
            ;
            assert((n * hi_d) * big <= m * (t * hi_d)) by (nonlinear_arith)
                requires
                    n * big <= m * t,
                    hi_d >= 1,
            ;
            assert(m * (t * hi_d) < (m * hi_n) * big) by (nonlinear_arith)
                requires
                    t * hi_d < hi_n * big,
                    m > 0,
            ;
            assert(n * hi_d < m * hi_n) by (nonlinear_arith)
                requires
                    (n * hi_d) * big < (m * hi_n) * big,
                    big > 0,
            ;
            lemma_no_fraction_between(n, m as int, lo_n as int, lo_d as int, hi_n as int, hi_d as int);
        }
        lemma_fundamental_div_mod_converse(product, big, n0, product - n0 * big);
    }
}

/// Where `lo_n / lo_d` is not above `(t - 1) / 2^j`, it is not above
/// `2^s / 5^q` either: the reciprocal in the table is less than one above
/// the true one.
pub proof fn lemma_below_reciprocal(t: nat, q: nat, s: nat, j: nat, lo_n: nat, lo_d: nat)
    requires
        is_pow5_inv_entry(q, t),
        spec_pow5bits(q as int) >= 0,
        s + j == spec_pow5bits(q as int) + 124,
        lo_n * pow2(j) <= (t - 1) * lo_d,
    ensures
        lo_n * pow(5, q) <= lo_d * pow2(s),
{
    lemma_pow_positive(5, q);
    lemma_pow2_pos(j);
    lemma_pow2_adds(s, j);
    let y = pow(5, q);
    let big = pow2(j) as int;
    let small = pow2(s) as int;
    assert(pow2(s + j) == pow2((spec_pow5bits(q as int) as nat) + 124));
    assert((t - 1) * y <= small * big);
    assert((lo_n * y) * big <= ((t - 1) * y) * lo_d) by (nonlinear_arith)
        requires
            lo_n * big <= (t - 1) * lo_d,
            y > 0,
    ;
    assert(((t - 1) * y) * lo_d <= (lo_d * small) * big) by (nonlinear_arith)
        requires
            (t - 1) * y <= small * big,
            lo_d >= 0,
    ;
    assert(lo_n * y <= lo_d * small) by (nonlinear_arith)
        requires
            (lo_n * y) * big <= (lo_d * small) * big,
            big > 0,
    ;
}

/// The product with a power of five is the exact quotient.
///
/// `t / 2^j` stands for `5^i / 2^q` and is not above it, and dropping `j`
/// bits of the product `m * t` stands for the division of `m * 5^i` by `2^q`.
/// The two differ for some `m` only if a fraction with denominator `m` lies
/// above `t / 2^j` and not above `5^i / 2^q`. The neighbouring fractions
/// `lo_n / lo_d` and `hi_n / hi_d` enclose both, so that no denominator below
/// `lo_d + hi_d` can do so.
pub proof fn lemma_power_product_exact(
    m: nat,
    t: nat,
    i: nat,
    q: nat,
    j: nat,
    lo_n: nat,
    lo_d: nat,
    hi_n: nat,
    hi_d: nat,
)
    requires
        t * pow2(q) <= pow(5, i) * pow2(j),
        lo_n * pow2(j) <= t * lo_d,
        pow(5, i) * hi_d < hi_n * pow2(q),
        hi_n * lo_d - lo_n * hi_d == 1,
        lo_d >= 1,
        hi_d >= 1,
        m < lo_d + hi_d,
    ensures
        fixed_point_product(m, t, j) == scale_up_by_pow10(m, i, q),
{
    reveal(fixed_point_product);
    reveal(scale_up_by_pow10);
    lemma_pow_positive(5, i);
    lemma_pow2_pos(j);
    lemma_pow2_pos(q);
    let power = pow(5, i);
    let big = pow2(j) as int;
    let y = pow2(q) as int;
    let product = (m * t) as int;
    let x = m * power;
    let n0 = product / big;
    lemma_fundamental_div_mod(product, big);
    if m == 0 {
        assert(product == 0) by (nonlinear_arith)
            requires
                product == m * t,
                m == 0,
        ;
        assert(x == 0) by (nonlinear_arith)
            requires
                x == m * power,
                m == 0,
        ;
    } else {
        // n0 * 2^q <= m * 5^i
        assert((n0 * y) * big <= (m * t) * y) by (nonlinear_arith)
            requires
                big * n0 <= m * t,
                y > 0,
        ;
        assert((m * t) * y <= (m * power) * big) by (nonlinear_arith)
            requires
                t * y <= power * big,
                m > 0,
        ;
        assert(n0 * y <= x) by (nonlinear_arith)
            requires
                (n0 * y) * big <= (m * power) * big,
                x == m * power,
                big > 0,
        ;
        // m * 5^i < (n0 + 1) * 2^q
        let n = n0 + 1;
        assert(n * y == n0 * y + y) by (nonlinear_arith)
            requires
                n == n0 + 1,
        ;
        assert(n * big == big * n0 + big) by (nonlinear_arith)
            requires
                n == n0 + 1,
        ;
        if x >= n * y {
            assert(n * big > m * t);
            assert((m * lo_n) * big <= lo_d * (m * t)) by (nonlinear_arith)
                requires
                    lo_n * big <= t * lo_d,
                    m > 0,
            ;
            assert(lo_d * (m * t) < (n * lo_d) * big) by (nonlinear_arith)
                requires
                    n * big > m * t,
                    lo_d >= 1,
            ;
            assert(m * lo_n < n * lo_d) by (nonlinear_arith)
                requires
                    (m * lo_n) * big < (n * lo_d) * big,
                    big > 0,
            ;
            assert((n * hi_d) * y <= (m * power) * hi_d) by (nonlinear_arith)
                requires
                    n * y <= m * power,
                    hi_d >= 1,
            ;
            assert((m * power) * hi_d < (m * hi_n) * y) by (nonlinear_arith)
                requires
                    power * hi_d < hi_n * y,
                    m > 0,
            ;
            assert(n * hi_d < m * hi_n) by (nonlinear_arith)
                requires
                    (n * hi_d) * y < (m * hi_n) * y,
                    y > 0,
            ;
            lemma_no_fraction_between(n, m as int, lo_n as int, lo_d as int, hi_n as int, hi_d as int);
        }
        lemma_fundamental_div_mod_converse(x, y, n0, x - n0 * y);
    }
}

/// Where `(t + 1) / 2^j` is not above `hi_n / hi_d`, `5^i / 2^q` is below it:
/// the power in the table is less than one below the true one.
pub proof fn lemma_above_power(t: nat, i: nat, q: nat, j: nat, hi_n: nat, hi_d: nat)
    requires
        is_pow5_entry(i, t),
        spec_pow5bits(i as int) >= 0,
        j + spec_pow5bits(i as int) == q + 125,
        (t + 1) * hi_d <= hi_n * pow2(j),
        hi_d >= 1,
    ensures
        t * pow2(q) <= pow(5, i) * pow2(j),
        pow(5, i) * hi_d < hi_n * pow2(q),
{
    let bits = spec_pow5bits(i as int) as nat;
    lemma_pow_positive(5, i);
    lemma_pow2_pos(j);
    lemma_pow2_pos(q);
    lemma_pow2_pos(bits);
    lemma_pow2_pos(125);
    lemma_pow2_adds(j, bits);
    lemma_pow2_adds(q, 125);
    let power = pow(5, i);
    let big = pow2(j) as int;
    let cut = pow2(bits) as int;
    let y = pow2(q) as int;
    let wide = pow2(125) as int;
    assert(pow2(j + bits) == pow2(q + 125));
    assert(big * cut == y * wide);
    assert((t * y) * wide == (t * cut) * big) by (nonlinear_arith)
        requires
            big * cut == y * wide,
    ;
    assert((t * cut) * big <= (power * wide) * big) by (nonlinear_arith)
        requires
            t * cut <= power * wide,
            big > 0,
    ;
    assert((power * wide) * big == (power * big) * wide) by (nonlinear_arith);
    assert(t * y <= power * big) by (nonlinear_arith)
        requires
            (t * y) * wide <= (power * big) * wide,
            wide > 0,
    ;
    assert((power * hi_d) * wide < ((t + 1) * hi_d) * cut) by (nonlinear_arith)
        requires
            power * wide < (t + 1) * cut,
            hi_d >= 1,
    ;
    assert(((t + 1) * hi_d) * cut <= (hi_n * big) * cut) by (nonlinear_arith)
        requires
            (t + 1) * hi_d <= hi_n * big,
            cut > 0,
    ;
    assert((hi_n * big) * cut == (hi_n * y) * wide) by (nonlinear_arith)
        requires
            big * cut == y * wide,
    ;
    assert(power * hi_d < hi_n * y) by (nonlinear_arith)
        requires
            (power * hi_d) * wide < (hi_n * y) * wide,
            wide > 0,
    ;
}

/// The reciprocal in the table, over `2^j`, is above `2^s / 5^q`.
pub proof fn lemma_above_reciprocal(t: nat, q: nat, s: nat, j: nat)
    requires
        is_pow5_inv_entry(q, t),
        spec_pow5bits(q as int) >= 0,
        s + j == spec_pow5bits(q as int) + 124,
    ensures
        pow2(s) * pow2(j) < t * pow(5, q),
{
    lemma_pow2_adds(s, j);
    assert(pow2(s + j) == pow2((spec_pow5bits(q as int) as nat) + 124));
}

/// The powers of two by which the products with the table entries are cut.
pub proof fn lemma_shift_powers()
    ensures
        pow2(118) == 0x40_0000_0000_0000_0000_0000_0000_0000,
        pow2(119) == 0x80_0000_0000_0000_0000_0000_0000_0000,
        pow2(120) == 0x100_0000_0000_0000_0000_0000_0000_0000,
        pow2(121) == 0x200_0000_0000_0000_0000_0000_0000_0000,
        pow2(122) == 0x400_0000_0000_0000_0000_0000_0000_0000,
        pow2(123) == 0x800_0000_0000_0000_0000_0000_0000_0000,
        pow2(124) == 0x1000_0000_0000_0000_0000_0000_0000_0000,
        pow2(125) == 0x2000_0000_0000_0000_0000_0000_0000_0000,
{
    lemma2_to64();
    lemma2_to64_rest();
    lemma_pow2_adds(64, 54);
    lemma_pow2_adds(64, 55);
    lemma_pow2_adds(64, 56);
    lemma_pow2_adds(64, 57);
    lemma_pow2_adds(64, 58);
    lemma_pow2_adds(64, 59);
    lemma_pow2_adds(64, 60);
    lemma_pow2_adds(64, 61);
}

/// The powers of five below `2^55`.
pub proof fn lemma_small_powers()
    ensures
        pow(5, 0) == 1,
        pow(5, 1) == 5,
        pow(5, 2) == 25,
        pow(5, 3) == 125,
        pow(5, 4) == 625,
        pow(5, 5) == 3125,
        pow(5, 6) == 15625,
        pow(5, 7) == 78125,
        pow(5, 8) == 390625,
        pow(5, 9) == 1953125,
        pow(5, 10) == 9765625,
        pow(5, 11) == 48828125,
        pow(5, 12) == 244140625,
        pow(5, 13) == 1220703125,
        pow(5, 14) == 6103515625,
        pow(5, 15) == 30517578125,
        pow(5, 16) == 152587890625,
        pow(5, 17) == 762939453125,
        pow(5, 18) == 3814697265625,
        pow(5, 19) == 19073486328125,
        pow(5, 20) == 95367431640625,
        pow(5, 21) == 476837158203125,
        pow(5, 22) == 2384185791015625,
        pow(5, 23) == 11920928955078125,
{
    reveal_with_fuel(pow, 25);
}

/// The product with the table entry is exact for a binary exponent
/// `e2 >= 0`, given neighbouring fractions around `(t - 1) / 2^j` and
/// `t / 2^j` with denominators that add up to `2^55` at least.
pub proof fn lemma_double_up_exact(m: nat, e2: int, lo_n: nat, lo_d: nat, hi_n: nat, hi_d: nat)
    requires
        0 <= e2 <= 969,
        m < 0x80_0000_0000_0000,
        lo_n * pow2(double_shift(e2) as nat) <= (wide(DOUBLE_POW5_INV_SPLIT[double_q(e2)]) - 1) * lo_d,
        wide(DOUBLE_POW5_INV_SPLIT[double_q(e2)]) * hi_d < hi_n * pow2(double_shift(e2) as nat),
        hi_n * lo_d - lo_n * hi_d == 1,
        lo_d >= 1,
        hi_d >= 1,
        lo_d + hi_d >= 0x80_0000_0000_0000,
    ensures
        fixed_point_product(m, wide(double_multiplier(e2)), double_shift(e2) as nat)
            == double_scaled(m, e2),
{
    let q = double_q(e2);
    let j = double_shift(e2) as nat;
    let t = wide(DOUBLE_POW5_INV_SPLIT[q]);
    lemma_double_shift_range(e2);
    lemma_table_entry(q);
    lemma_pow5bits_exact(q);
    let s = (e2 - q) as nat;
    lemma_above_reciprocal(t, q as nat, s, j);
    lemma_below_reciprocal(t, q as nat, s, j, lo_n, lo_d);
    lemma_reciprocal_product_exact(m, t, q as nat, s, j, lo_n, lo_d, hi_n, hi_d);
}

/// The product with the table entry is exact for a binary exponent
/// `e2 >= 0` with `5^q` below `2^55`, given the fraction next above
/// `2^(e2 - q) / 5^q`.
pub proof fn lemma_double_up_exact_small(m: nat, e2: int, hi_n: nat, hi_d: nat)
    requires
        0 <= e2 <= 969,
        m < 0x80_0000_0000_0000,
        wide(DOUBLE_POW5_INV_SPLIT[double_q(e2)]) * hi_d < hi_n * pow2(double_shift(e2) as nat),
        hi_n * pow(5, double_q(e2) as nat) - pow2((e2 - double_q(e2)) as nat) * hi_d == 1,
        hi_d >= 1,
        pow(5, double_q(e2) as nat) + hi_d >= 0x80_0000_0000_0000,
    ensures
        fixed_point_product(m, wide(double_multiplier(e2)), double_shift(e2) as nat)
            == double_scaled(m, e2),
{
    let q = double_q(e2);
    let j = double_shift(e2) as nat;
    let t = wide(DOUBLE_POW5_INV_SPLIT[q]);
    lemma_double_shift_range(e2);
    lemma_table_entry(q);
    lemma_pow5bits_exact(q);
    lemma_pow_positive(5, q as nat);
    let s = (e2 - q) as nat;
    let lo_n = pow2(s);
    let lo_d = pow(5, q as nat) as nat;
    assert(lo_n * pow(5, q as nat) <= lo_d * pow2(s)) by (nonlinear_arith)
        requires
            lo_n == pow2(s),
            lo_d == pow(5, q as nat),
    ;
    lemma_above_reciprocal(t, q as nat, s, j);
    lemma_reciprocal_product_exact(m, t, q as nat, s, j, lo_n, lo_d, hi_n, hi_d);
}

/// The product with the table entry is exact for a binary exponent
/// `e2 < 0`, given neighbouring fractions around `t / 2^j` and
/// `(t + 1) / 2^j` with denominators that add up to `2^55` at least.
pub proof fn lemma_double_down_exact(m: nat, e2: int, lo_n: nat, lo_d: nat, hi_n: nat, hi_d: nat)
    requires
        -1076 <= e2 < 0,
        m < 0x80_0000_0000_0000,
        lo_n * pow2(double_shift(e2) as nat) <= wide(DOUBLE_POW5_SPLIT[-e2 - double_q(e2)]) * lo_d,
        (wide(DOUBLE_POW5_SPLIT[-e2 - double_q(e2)]) + 1) * hi_d <= hi_n * pow2(
            double_shift(e2) as nat,
        ),
        hi_n * lo_d - lo_n * hi_d == 1,
        lo_d >= 1,
        hi_d >= 1,
        lo_d + hi_d >= 0x80_0000_0000_0000,
    ensures
        fixed_point_product(m, wide(double_multiplier(e2)), double_shift(e2) as nat)
            == double_scaled(m, e2),
{
    let q = double_q(e2);
    let i = -e2 - q;
    let j = double_shift(e2) as nat;
    let t = wide(DOUBLE_POW5_SPLIT[i]);
    lemma_double_shift_range(e2);
    lemma_table_entry(i);
    lemma_pow5bits_exact(i);
    lemma_above_power(t, i as nat, q as nat, j, hi_n, hi_d);
    lemma_power_product_exact(m, t, i as nat, q as nat, j, lo_n, lo_d, hi_n, hi_d);
}

} // verus!
