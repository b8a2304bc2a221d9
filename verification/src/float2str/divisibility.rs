//! Divisibility by powers of two and of five.

use vstd::prelude::*;
use vstd::arithmetic::div_mod::{
    lemma_fundamental_div_mod, lemma_fundamental_div_mod_converse, lemma_mul_mod_noop_right,
};
use vstd::arithmetic::power::pow;
use vstd::arithmetic::power2::{pow2, lemma_pow2_adds, lemma_pow2_pos, lemma_pow2_unfold};

verus! {

/// Every power of five leaves the remainder one when divided by four.
pub proof fn lemma_pow5_mod4(i: nat)
    ensures
        pow(5, i) % 4 == 1,
        pow(5, i) % 2 == 1,
        pow(5, i) > 0,
    decreases i,
{
    reveal(pow);
    if i > 0 {
        lemma_pow5_mod4((i - 1) as nat);
    }
}

/// An odd number that divides `2 * x` divides `x`.
pub proof fn lemma_odd_divides_half(x: nat, p: nat)
    requires
        p % 2 == 1,
        (2 * x) % p == 0,
    ensures
        x % p == 0,
{
    let c = (2 * x) as int / (p as int);
    lemma_fundamental_div_mod((2 * x) as int, p as int);
    let a = p as int / 2;
    let half = x - a * c;
    assert(c == 2 * half) by (nonlinear_arith)
        requires
            2 * x == p * c,
            p == 2 * a + 1,
            half == x - a * c,
    ;
    assert(x == half * p + 0) by (nonlinear_arith)
        requires
            2 * x == p * c,
            c == 2 * half,
    ;
    lemma_fundamental_div_mod_converse(x as int, p as int, half, 0);
}

/// An odd number that divides `m * 2^s` divides `m`.
pub proof fn lemma_odd_divides_without_pow2(m: nat, s: nat, p: nat)
    requires
        p % 2 == 1,
        (m * pow2(s)) % p == 0,
    ensures
        m % p == 0,
    decreases s,
{
    if s == 0 {
        assert(pow2(0) == 1) by {
            vstd::arithmetic::power2::lemma2_to64();
        }
        assert(m * pow2(0) == m) by (nonlinear_arith)
            requires
                pow2(0) == 1,
        ;
    } else {
        lemma_pow2_unfold(s);
        let rest = m * pow2((s - 1) as nat);
        assert(m * pow2(s) == 2 * rest) by (nonlinear_arith)
            requires
                pow2(s) == 2 * pow2((s - 1) as nat),
                rest == m * pow2((s - 1) as nat),
        ;
        lemma_odd_divides_half(rest, p);
        lemma_odd_divides_without_pow2(m, (s - 1) as nat, p);
    }
}

/// A multiple of `p` stays one when it is multiplied.
pub proof fn lemma_multiple_scales(m: nat, w: nat, p: nat)
    requires
        p > 0,
        m % p == 0,
    ensures
        (m * w) % p == 0,
{
    lemma_fundamental_div_mod(m as int, p as int);
    let c = m as int / (p as int);
    assert(m * w == (c * w) * p + 0) by (nonlinear_arith)
        requires
            m == p * c,
    ;
    lemma_fundamental_div_mod_converse((m * w) as int, p as int, c * w, 0);
}

/// Multiplying by a power of five changes no remainder modulo four.
pub proof fn lemma_times_pow5_mod4(m: nat, i: nat)
    ensures
        (m * pow(5, i)) % 4 == m % 4,
        (m * pow(5, i)) % 2 == m % 2,
{
    lemma_pow5_mod4(i);
    lemma_mul_mod_noop_right(m as int, pow(5, i), 4);
    lemma_mul_mod_noop_right(m as int, pow(5, i), 2);
    assert(m * 1 == m);
}

/// A multiple of `2^q` is even for `q >= 1` and a multiple of four for
/// `q >= 2`.
pub proof fn lemma_multiple_of_pow2(x: nat, q: nat)
    requires
        x % pow2(q) == 0,
    ensures
        q >= 1 ==> x % 2 == 0,
        q >= 2 ==> x % 4 == 0,
{
    lemma_pow2_pos(q);
    lemma_fundamental_div_mod(x as int, pow2(q) as int);
    let c = x as int / (pow2(q) as int);
    vstd::arithmetic::power2::lemma2_to64();
    if q >= 1 {
        lemma_pow2_adds(1, (q - 1) as nat);
        let rest = pow2((q - 1) as nat) as int;
        assert(x == (rest * c) * 2 + 0) by (nonlinear_arith)
            requires
                x == pow2(q) * c,
                pow2(q) == 2 * rest,
        ;
        lemma_fundamental_div_mod_converse(x as int, 2, rest * c, 0);
    }
    if q >= 2 {
        lemma_pow2_adds(2, (q - 2) as nat);
        let rest = pow2((q - 2) as nat) as int;
        assert(x == (rest * c) * 4 + 0) by (nonlinear_arith)
            requires
                x == pow2(q) * c,
                pow2(q) == 4 * rest,
        ;
        lemma_fundamental_div_mod_converse(x as int, 4, rest * c, 0);
    }
}

/// A positive multiple of `p` is `p` times its positive quotient.
pub proof fn lemma_multiple_quotient(m: nat, p: nat)
    requires
        p > 0,
        m >= 1,
        m % p == 0,
    ensures
        m == p * (m / p),
        m / p >= 1,
        p <= m,
{
    lemma_fundamental_div_mod(m as int, p as int);
    let c = m as int / (p as int);
    if c < 1 {
        assert(p * c <= 0) by (nonlinear_arith)
            requires
                c <= 0,
                p > 0,
        ;
    }
    assert(p * c >= p) by (nonlinear_arith)
        requires
            c >= 1,
            p > 0,
    ;
}

} // verus!
