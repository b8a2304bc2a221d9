//! The shortest decimal of a scaled interval lies in the interval that was
//! scaled, and no decimal in that interval has fewer digits.

use vstd::prelude::*;
use vstd::arithmetic::div_mod::{lemma_fundamental_div_mod, lemma_fundamental_div_mod_converse};
use crate::float2str::common::decimal_length;
use crate::float2str::shortest::{
    common_removals, drop_digits, ends_in_zeros, last_digit, lower_stays_exact, pow10,
    removed_digits, shortest_mantissa, trailing_zeros, value_stays_exact, ScaledInterval,
    lemma_common_removals_exit, lemma_drop_adds, lemma_drop_first, lemma_drop_none,
    lemma_drop_ordered, lemma_drop_succ, lemma_drop_zeros_positive, lemma_pow10_adds,
    lemma_pow10_positive,
};

verus! {

/// The interval of the reals that read back as one binary floating-point
/// value, in units of a quarter of the distance to the next value and scaled
/// by `w / d`: it reaches from `mm * w / d` to `mp * w / d` around the value
/// `mv * w / d`, and it holds its bounds where `accept_bounds` is set.
pub struct RoundingInterval {
    pub mm: nat,
    pub mv: nat,
    pub mp: nat,
    pub w: nat,
    pub d: nat,
    pub accept_bounds: bool,
}

/// `y` is not below the interval.
pub open spec fn above_lower(i: RoundingInterval, y: nat) -> bool {
    y * i.d > i.mm * i.w || (i.accept_bounds && y * i.d == i.mm * i.w)
}

/// `y` is not above the interval.
pub open spec fn below_upper(i: RoundingInterval, y: nat) -> bool {
    y * i.d < i.mp * i.w || (i.accept_bounds && y * i.d == i.mp * i.w)
}

/// `y` lies in the interval.
pub open spec fn contains(i: RoundingInterval, y: nat) -> bool {
    above_lower(i, y) && below_upper(i, y)
}

/// `m * w / d` is an integer.
pub open spec fn scales_exactly(i: RoundingInterval, m: nat) -> bool {
    (m * i.w) % i.d == 0
}

/// `s` holds the interval `i` as the conversion scales it: the three values
/// rounded down, the upper bound lowered by one at most where it is an
/// integer that does not read back, and marks that are set only for what
/// they stand for. Where a bound is an integer and the conversion does not
/// look for that, the bound ends in one zero at most.
pub open spec fn scaled_from(s: ScaledInterval, i: RoundingInterval) -> bool {
    let upper = (i.mp * i.w) / i.d;
    &&& 0 < i.d <= i.w
    &&& 1 <= i.mm
    &&& i.mm + 1 <= i.mv <= i.mm + 2
    &&& i.mp == i.mv + 2
    &&& s.accept_bounds == i.accept_bounds
    &&& s.vm == (i.mm * i.w) / i.d
    &&& s.vr == (i.mv * i.w) / i.d
    &&& (s.vp == upper || (s.vp + 1 == upper && !i.accept_bounds && scales_exactly(i, i.mp)))
    &&& (s.vm_is_trailing_zeros ==> i.accept_bounds && scales_exactly(i, i.mm))
    &&& (i.accept_bounds && !s.vm_is_trailing_zeros && scales_exactly(i, i.mm) ==> s.vm % 10 != 0
        || (s.vm % 100 != 0 && common_removals(s.vm, s.vp) >= 1))
    &&& (!i.accept_bounds && s.vp == upper && scales_exactly(i, i.mp) ==> upper % 10 != 0 || (
    upper % 100 != 0 && 5 * i.d < i.w))
}

/// What is left of `x` after `r` digits went, times `10^r`, is `x` rounded
/// down to a multiple of `10^r`.
pub proof fn lemma_drop_bounds(x: nat, r: nat)
    ensures
        drop_digits(x, r) * pow10(r) <= x < (drop_digits(x, r) + 1) * pow10(r),
        ends_in_zeros(x, r) <==> drop_digits(x, r) * pow10(r) == x,
{
    reveal(drop_digits);
    reveal(ends_in_zeros);
    lemma_pow10_positive(r);
    lemma_fundamental_div_mod(x as int, pow10(r) as int);
    let p = pow10(r) as int;
    let q = x as int / p;
    assert((q + 1) * p == p * q + p) by (nonlinear_arith);
    assert(q * p == p * q) by (nonlinear_arith);
}

/// A value that was rounded down is the largest integer not above the
/// quotient.
pub proof fn lemma_floor_bounds(m: nat, w: nat, d: nat)
    requires
        d > 0,
    ensures
        ((m * w) / d) * d <= m * w < ((m * w) / d + 1) * d,
        (m * w) % d == 0 <==> ((m * w) / d) * d == m * w,
{
    let x = (m * w) as int;
    lemma_fundamental_div_mod(x, d as int);
    let q = x / (d as int);
    assert((q + 1) * d == d * q + d) by (nonlinear_arith);
    assert(q * d == d * q) by (nonlinear_arith);
}

/// Where a digit was common to both bounds, what is left of the bounds
/// differs.
pub proof fn lemma_common_removals_gap(vm: nat, vp: nat)
    requires
        common_removals(vm, vp) >= 1,
    ensures
        drop_digits(vp, common_removals(vm, vp)) > drop_digits(vm, common_removals(vm, vp)),
    decreases vp,
{
    let r = common_removals(vm, vp);
    assert(vp / 10 > vm / 10);
    assert(r == 1 + common_removals(vm / 10, vp / 10));
    if r == 1 {
        lemma_drop_none(vp / 10);
        lemma_drop_none(vm / 10);
        lemma_drop_first(vp, 0);
        lemma_drop_first(vm, 0);
    } else {
        lemma_common_removals_gap(vm / 10, vp / 10);
        lemma_drop_first(vp, (r - 1) as nat);
        lemma_drop_first(vm, (r - 1) as nat);
    }
}

/// The trailing zeros of a positive value are zeros, and the digit above
/// them is none.
pub proof fn lemma_trailing_zeros_stop(v: nat)
    requires
        v >= 1,
    ensures
        ends_in_zeros(v, trailing_zeros(v)),
        drop_digits(v, trailing_zeros(v)) % 10 != 0,
    decreases v,
{
    if v % 10 != 0 {
        assert(trailing_zeros(v) == 0);
        lemma_drop_none(v);
    } else {
        let z = trailing_zeros(v / 10);
        assert(trailing_zeros(v) == z + 1);
        lemma_trailing_zeros_stop(v / 10);
        lemma_drop_first(v, z);
        // v == 10 * (v / 10), and v / 10 ends in z zeros
        lemma_drop_bounds(v / 10, z);
        lemma_drop_bounds(v, z + 1);
        assert(pow10(z + 1) == 10 * pow10(z));
        assert(drop_digits(v / 10, z) * pow10(z + 1) == v) by (nonlinear_arith)
            requires
                drop_digits(v / 10, z) * pow10(z) == v / 10,
                v == 10 * (v / 10),
                pow10(z + 1) == 10 * pow10(z),
        ;
    }
}

/// The zeros that end the lower bound after the common digits went are zeros
/// of the lower bound itself.
pub proof fn lemma_removed_zeros(s: ScaledInterval)
    requires
        s.vm >= 1,
        lower_stays_exact(s),
    ensures
        ends_in_zeros(s.vm, removed_digits(s)),
        drop_digits(s.vm, removed_digits(s)) % 10 != 0,
        drop_digits(s.vm, removed_digits(s)) >= 1,
{
    let common = common_removals(s.vm, s.vp);
    let rest = drop_digits(s.vm, common);
    let zeros = trailing_zeros(rest);
    lemma_drop_zeros_positive(s.vm, common);
    lemma_trailing_zeros_stop(rest);
    lemma_drop_adds(s.vm, common, zeros);
    lemma_drop_bounds(s.vm, common);
    lemma_drop_bounds(rest, zeros);
    lemma_drop_bounds(s.vm, common + zeros);
    lemma_pow10_adds(common, zeros);
    let top = drop_digits(rest, zeros);
    assert(top * pow10(common + zeros) == s.vm) by (nonlinear_arith)
        requires
            top * pow10(zeros) == rest,
            rest * pow10(common) == s.vm,
            pow10(common + zeros) == pow10(common) * pow10(zeros),
    ;
}

/// The scaled values of an interval are in order, and the bounds lie more
/// than two apart.
pub proof fn lemma_scaled_order(s: ScaledInterval, i: RoundingInterval)
    requires
        scaled_from(s, i),
    ensures
        1 <= s.vm <= s.vr,
        s.vr + 1 <= s.vp,
        s.vm + 2 <= s.vp,
        s.vm * i.d <= i.mm * i.w < (s.vm + 1) * i.d,
        s.vr * i.d <= i.mv * i.w < (s.vr + 1) * i.d,
        s.vp * i.d <= i.mp * i.w,
        i.mp * i.w < (s.vp + 2) * i.d,
        i.mv * i.w == i.mm * i.w + (i.mv - i.mm) * i.w,
        i.mp * i.w == i.mv * i.w + 2 * i.w,
        scales_exactly(i, i.mm) <==> s.vm * i.d == i.mm * i.w,
        s.vp + 1 == (i.mp * i.w) / i.d ==> (s.vp + 1) * i.d == i.mp * i.w,
        s.vp == (i.mp * i.w) / i.d ==> i.mp * i.w < (s.vp + 1) * i.d,
        s.vp == (i.mp * i.w) / i.d ==> (scales_exactly(i, i.mp) <==> s.vp * i.d == i.mp * i.w),
{
    lemma_floor_bounds(i.mm, i.w, i.d);
    lemma_floor_bounds(i.mv, i.w, i.d);
    lemma_floor_bounds(i.mp, i.w, i.d);
    let upper = (i.mp * i.w) / i.d;
    let d = i.d as int;
    let w = i.w as int;
    assert(i.mv * w == i.mm * w + (i.mv - i.mm) * w) by (nonlinear_arith);
    assert(i.mp * w == i.mv * w + 2 * w) by (nonlinear_arith)
        requires
            i.mp == i.mv + 2,
    ;
    assert((i.mv - i.mm) * w >= w) by (nonlinear_arith)
        requires
            i.mv - i.mm >= 1,
            w >= 0,
    ;
    assert(i.mm * w >= d) by (nonlinear_arith)
        requires
            i.mm >= 1,
            w >= d,
            d > 0,
    ;
    // vm >= 1
    if s.vm == 0 {
        assert((s.vm + 1) * d == d) by (nonlinear_arith)
            requires
                s.vm == 0,
        ;
    }
    // vm <= vr
    if s.vm > s.vr {
        assert(s.vm * d >= (s.vr + 1) * d) by (nonlinear_arith)
            requires
                s.vm >= s.vr + 1,
                d > 0,
        ;
    }
    // vr + 2 <= upper
    assert((s.vr + 2) * d <= i.mp * w) by (nonlinear_arith)
        requires
            s.vr * d <= i.mv * w,
            i.mp * w == i.mv * w + 2 * w,
            w >= d,
            d > 0,
    ;
    if upper < s.vr + 2 {
        assert((upper + 1) * d <= (s.vr + 2) * d) by (nonlinear_arith)
            requires
                upper + 1 <= s.vr + 2,
                d > 0,
        ;
    }
    // vm + 3 <= upper
    assert((s.vm + 3) * d <= i.mp * w) by (nonlinear_arith)
        requires
            s.vm * d <= i.mm * w,
            i.mp * w == i.mv * w + 2 * w,
            i.mv * w == i.mm * w + (i.mv - i.mm) * w,
            (i.mv - i.mm) * w >= w,
            w >= d,
            d > 0,
    ;
    if upper < s.vm + 3 {
        assert((upper + 1) * d <= (s.vm + 3) * d) by (nonlinear_arith)
            requires
                upper + 1 <= s.vm + 3,
                d > 0,
        ;
    }
    assert(s.vp * d <= upper * d) by (nonlinear_arith)
        requires
            s.vp <= upper,
            d > 0,
    ;
    assert((upper + 1) * d <= (s.vp + 2) * d) by (nonlinear_arith)
        requires
            upper <= s.vp + 1,
            d > 0,
    ;
}

/// The shortest decimal is not below the interval.
pub proof fn lemma_shortest_above_lower(s: ScaledInterval, i: RoundingInterval)
    requires
        scaled_from(s, i),
    ensures
        above_lower(i, shortest_mantissa(s) * pow10(removed_digits(s))),
{
    lemma_scaled_order(s, i);
    let r = removed_digits(s);
    let t = pow10(r) as int;
    let out = shortest_mantissa(s) as int;
    let vrr = drop_digits(s.vr, r) as int;
    let vmr = drop_digits(s.vm, r) as int;
    let d = i.d as int;
    lemma_pow10_positive(r);
    lemma_drop_ordered(s.vm, s.vr, r);
    lemma_drop_bounds(s.vm, r);
    if out > vmr {
        assert(out * t >= (vmr + 1) * t) by (nonlinear_arith)
            requires
                out >= vmr + 1,
                t > 0,
        ;
        assert((out * t) * d >= (s.vm + 1) * d) by (nonlinear_arith)
            requires
                out * t >= s.vm + 1,
                d > 0,
        ;
    } else {
        assert(lower_stays_exact(s));
        lemma_removed_zeros(s);
        assert(out * t == s.vm);
    }
}

/// Where the shortest decimal was rounded up, it is not above the upper
/// bound as the conversion holds it, or the bounds read back and it is not
/// above the upper bound itself.
pub proof fn lemma_rounded_up_inside(s: ScaledInterval, i: RoundingInterval)
    requires
        scaled_from(s, i),
        s.last_removed_digit <= 9,
        shortest_mantissa(s) == drop_digits(s.vr, removed_digits(s)) + 1,
    ensures
        shortest_mantissa(s) * pow10(removed_digits(s)) <= s.vp || (i.accept_bounds
            && shortest_mantissa(s) * pow10(removed_digits(s)) * i.d <= i.mp * i.w),
{
    lemma_scaled_order(s, i);
    let common = common_removals(s.vm, s.vp);
    let r = removed_digits(s);
    let t = pow10(r) as int;
    let out = shortest_mantissa(s) as int;
    let n = drop_digits(s.vr, r) as int;
    let vmr = drop_digits(s.vm, r) as int;
    let vpr = drop_digits(s.vp, r) as int;
    let last = last_digit(s, r) as int;
    let d = i.d as int;
    let w = i.w as int;
    lemma_pow10_positive(r);
    lemma_drop_ordered(s.vm, s.vr, r);
    lemma_drop_ordered(s.vr, s.vp, r);
    lemma_drop_bounds(s.vm, r);
    lemma_drop_bounds(s.vr, r);
    lemma_drop_bounds(s.vp, r);
    if r == 0 {
        lemma_drop_none(s.vr);
        assert(pow10(0) == 1);
        assert(out * t == out) by (nonlinear_arith)
            requires
                t == 1,
        ;
        assert(out * t <= s.vp);
    } else if vpr >= n + 1 {
        assert(out * t <= vpr * t) by (nonlinear_arith)
            requires
                out <= vpr,
                t > 0,
        ;
        assert(out * t <= s.vp);
    } else {
        // what is left of the value equals what is left of the upper bound
        let below = (r - 1) as nat;
        let t1 = pow10(below) as int;
        lemma_pow10_positive(below);
        assert(t == 10 * t1);
        lemma_drop_succ(s.vr, below);
        lemma_drop_bounds(s.vr, below);
        let tie_to_even = value_stays_exact(s, r) && last == 5 && n % 2 == 0;
        let below_interval = n == vmr && (!s.accept_bounds || !lower_stays_exact(s));
        if lower_stays_exact(s) {
            // the lower bound is an integer that ends in r zeros and reads back
            lemma_removed_zeros(s);
            assert(vmr * t == s.vm);
            assert(!below_interval);
            assert(last >= 5);
            assert(s.vr >= (10 * n + 5) * t1) by (nonlinear_arith)
                requires
                    s.vr >= drop_digits(s.vr, below) * t1,
                    drop_digits(s.vr, below) >= 10 * n + 5,
                    t1 > 0,
            ;
            assert(i.mv * w >= ((10 * n + 5) * t1) * d) by (nonlinear_arith)
                requires
                    s.vr * d <= i.mv * w,
                    s.vr >= (10 * n + 5) * t1,
                    d > 0,
            ;
            assert(i.mm * w == ((10 * vmr) * t1) * d) by (nonlinear_arith)
                requires
                    s.vm * d == i.mm * w,
                    vmr * t == s.vm,
                    t == 10 * t1,
            ;
            assert(((10 * n + 5) * t1) * d - ((10 * vmr) * t1) * d >= (5 * t1) * d)
                by (nonlinear_arith)
                requires
                    n >= vmr,
                    t1 > 0,
                    d > 0,
            ;
            assert(2 * w >= (i.mv - i.mm) * w) by (nonlinear_arith)
                requires
                    i.mv - i.mm <= 2,
                    w >= 0,
            ;
            assert(((10 * n + 5) * t1) * d + (5 * t1) * d == ((n + 1) * t) * d)
                by (nonlinear_arith)
                requires
                    t == 10 * t1,
            ;
            assert(i.mp * w >= ((n + 1) * t) * d);
            assert(out * t * d == ((n + 1) * t) * d);
            assert(i.accept_bounds && out * t * d <= i.mp * w);
        } else {
            assert(r == common);
            lemma_common_removals_gap(s.vm, s.vp);
            assert(vmr < n);
            assert(!below_interval);
            assert(last >= 5);
            assert(s.vr >= (10 * n + 5) * t1) by (nonlinear_arith)
                requires
                    s.vr >= drop_digits(s.vr, below) * t1,
                    drop_digits(s.vr, below) >= 10 * n + 5,
                    t1 > 0,
            ;
            assert(i.mv * w >= ((10 * n + 5) * t1) * d) by (nonlinear_arith)
                requires
                    s.vr * d <= i.mv * w,
                    s.vr >= (10 * n + 5) * t1,
                    d > 0,
            ;
            assert(s.vm + 1 <= n * t) by (nonlinear_arith)
                requires
                    s.vm < (vmr + 1) * t,
                    vmr + 1 <= n,
                    t > 0,
            ;
            assert(i.mm * w < ((10 * n) * t1) * d) by (nonlinear_arith)
                requires
                    i.mm * w < (s.vm + 1) * d,
                    s.vm + 1 <= n * t,
                    t == 10 * t1,
                    d > 0,
            ;
            assert(((10 * n + 5) * t1) * d - ((10 * n) * t1) * d == (5 * t1) * d)
                by (nonlinear_arith);
            assert(2 * w >= (i.mv - i.mm) * w) by (nonlinear_arith)
                requires
                    i.mv - i.mm <= 2,
                    w >= 0,
            ;
            assert(((10 * n + 5) * t1) * d + (5 * t1) * d == ((n + 1) * t) * d)
                by (nonlinear_arith)
                requires
                    t == 10 * t1,
            ;
            // the upper bound lies above (n + 1) * 10^r
            assert(i.mp * w > ((n + 1) * t) * d);
            assert(s.vp + 2 > (n + 1) * t) by (nonlinear_arith)
                requires
                    i.mp * w > ((n + 1) * t) * d,
                    i.mp * w < (s.vp + 2) * d,
                    d > 0,
            ;
            if s.vp < (n + 1) * t {
                // then the upper bound was lowered from an integer above (n + 1) * 10^r
                assert(s.vp + 1 == (n + 1) * t);
                if s.vp + 1 == (i.mp * i.w) / i.d {
                    assert(false);
                } else {
                    assert(false) by (nonlinear_arith)
                        requires
                            i.mp * w < (s.vp + 1) * d,
                            s.vp + 1 == (n + 1) * t,
                            i.mp * w > ((n + 1) * t) * d,
                    ;
                }
            }
            assert(false) by (nonlinear_arith)
                requires
                    s.vp >= (n + 1) * t,
                    s.vp < (vpr + 1) * t,
                    vpr <= n,
                    t > 0,
            ;
        }
    }
}

/// The shortest decimal is not above the interval.
pub proof fn lemma_shortest_below_upper(s: ScaledInterval, i: RoundingInterval)
    requires
        scaled_from(s, i),
        s.last_removed_digit <= 9,
    ensures
        below_upper(i, shortest_mantissa(s) * pow10(removed_digits(s))),
{
    lemma_scaled_order(s, i);
    let r = removed_digits(s);
    let t = pow10(r) as int;
    let out = shortest_mantissa(s) as int;
    let n = drop_digits(s.vr, r) as int;
    let d = i.d as int;
    let w = i.w as int;
    let upper = ((i.mp * i.w) / i.d) as int;
    lemma_pow10_positive(r);
    lemma_drop_bounds(s.vr, r);
    if out == n {
        assert((out * t) * d <= i.mv * w) by (nonlinear_arith)
            requires
                out * t <= s.vr,
                s.vr * d <= i.mv * w,
                d > 0,
        ;
        assert(i.mv * w < i.mp * w) by (nonlinear_arith)
            requires
                i.mv < i.mp,
                w > 0,
        ;
    } else {
        lemma_rounded_up_inside(s, i);
        if out * t <= s.vp {
            assert((out * t) * d <= i.mp * w) by (nonlinear_arith)
                requires
                    out * t <= s.vp,
                    s.vp * d <= i.mp * w,
                    d > 0,
            ;
            if (out * t) * d == i.mp * w && !i.accept_bounds {
                // the upper bound is an integer that the conversion took for none
                assert(out * t == s.vp && s.vp == upper) by (nonlinear_arith)
                    requires
                        (out * t) * d == i.mp * w,
                        out * t <= s.vp,
                        s.vp * d <= i.mp * w,
                        s.vp <= upper,
                        upper * d <= i.mp * w,
                        d > 0,
                ;
                assert(scales_exactly(i, i.mp));
                if r == 0 {
                    assert(pow10(0) == 1);
                    lemma_drop_none(s.vr);
                    assert(out * t == s.vr + 1) by (nonlinear_arith)
                        requires
                            t == 1,
                            out == s.vr + 1,
                    ;
                    assert((s.vr + 2) * d <= i.mp * w) by (nonlinear_arith)
                        requires
                            s.vr * d <= i.mv * w,
                            i.mp * w == i.mv * w + 2 * w,
                            w >= d,
                            d > 0,
                    ;
                    assert(false) by (nonlinear_arith)
                        requires
                            (s.vr + 2) * d <= i.mp * w,
                            (s.vr + 1) * d == i.mp * w,
                            d > 0,
                    ;
                } else {
                    let below = (r - 1) as nat;
                    let t1 = pow10(below) as int;
                    assert(t == 10 * t1);
                    assert(upper == 10 * (out * t1)) by (nonlinear_arith)
                        requires
                            upper == out * t,
                            t == 10 * t1,
                    ;
                    assert(upper % 10 == 0);
                    if r >= 2 {
                        let t2 = pow10((r - 2) as nat) as int;
                        assert(t1 == 10 * t2);
                        assert(upper == 100 * (out * t2)) by (nonlinear_arith)
                            requires
                                upper == out * t,
                                t == 10 * t1,
                                t1 == 10 * t2,
                        ;
                        assert(upper % 100 == 0);
                        assert(false);
                    }
                    assert(r == 1);
                    assert(t1 == 1);
                    assert(5 * d < w);
                    // vr >= 10 * (out - 1) == upper - 10, and upper > vr + 10
                    assert(s.vr >= n * t);
                    assert(i.mp * w > (s.vr + 10) * d) by (nonlinear_arith)
                        requires
                            s.vr * d <= i.mv * w,
                            i.mp * w == i.mv * w + 2 * w,
                            5 * d < w,
                            d > 0,
                    ;
                    assert(false) by (nonlinear_arith)
                        requires
                            i.mp * w > (s.vr + 10) * d,
                            upper * d == i.mp * w,
                            upper == (n + 1) * 10,
                            s.vr >= n * 10,
                            d > 0,
                    ;
                }
            }
        }
    }
}

/// The shortest decimal lies in the interval: it reads back as the value
/// that the interval stands for.
pub proof fn lemma_shortest_inside(s: ScaledInterval, i: RoundingInterval)
    requires
        scaled_from(s, i),
        s.last_removed_digit <= 9,
    ensures
        contains(i, shortest_mantissa(s) * pow10(removed_digits(s))),
{
    lemma_shortest_above_lower(s, i);
    lemma_shortest_below_upper(s, i);
}

/// `n * 10^k` lies in the interval, for a decimal exponent `k` of either
/// sign.
pub open spec fn contains_decimal(i: RoundingInterval, n: nat, k: int) -> bool {
    if k >= 0 {
        contains(i, n * pow10(k as nat))
    } else {
        let unit = pow10((-k) as nat);
        &&& (n * i.d > i.mm * i.w * unit || (i.accept_bounds && n * i.d == i.mm * i.w * unit))
        &&& (n * i.d < i.mp * i.w * unit || (i.accept_bounds && n * i.d == i.mp * i.w * unit))
    }
}

/// A value has at most `digits` digits exactly if it is below `10^digits`.
pub proof fn lemma_decimal_length_pow10(v: nat, digits: nat)
    requires
        digits >= 1,
    ensures
        decimal_length(v) <= digits <==> v < pow10(digits),
    decreases digits,
{
    reveal_with_fuel(pow10, 2);
    if digits == 1 {
        if v >= 10 {
            assert(decimal_length(v) == 1 + decimal_length(v / 10));
        }
    } else {
        lemma_decimal_length_pow10(v / 10, (digits - 1) as nat);
        lemma_pow10_positive((digits - 1) as nat);
        if v < 10 {
            assert(pow10(digits) == 10 * pow10((digits - 1) as nat));
        }
    }
}

/// No multiple of the next power of ten lies in the interval: no decimal
/// with a greater exponent than that of the shortest decimal reads back as
/// the value.
pub proof fn lemma_no_coarser_decimal(s: ScaledInterval, i: RoundingInterval, n: nat)
    requires
        scaled_from(s, i),
    ensures
        !contains(i, n * pow10(removed_digits(s) + 1)),
{
    lemma_scaled_order(s, i);
    let common = common_removals(s.vm, s.vp);
    let r = removed_digits(s);
    let t = pow10(r) as int;
    let t10 = pow10(r + 1) as int;
    let y = n * t10;
    let d = i.d as int;
    let w = i.w as int;
    let upper = ((i.mp * i.w) / i.d) as int;
    lemma_pow10_positive(r);
    assert(t10 == 10 * t);
    if contains(i, (n * pow10(r + 1)) as nat) {
        // y <= vp
        assert(y * d <= i.mp * w);
        if s.vp == upper {
            assert(y <= s.vp) by (nonlinear_arith)
                requires
                    y * d <= i.mp * w,
                    i.mp * w < (s.vp + 1) * d,
                    d > 0,
            ;
        } else {
            assert(y <= s.vp) by (nonlinear_arith)
                requires
                    y * d < i.mp * w,
                    i.mp * w == (s.vp + 1) * d,
                    d > 0,
            ;
        }
        if y * d > i.mm * w {
            // vm < y <= vp, which the common digits exclude
            assert(y > s.vm) by (nonlinear_arith)
                requires
                    y * d > i.mm * w,
                    s.vm * d <= i.mm * w,
                    d > 0,
            ;
            lemma_drop_bounds(s.vm, r + 1);
            lemma_drop_bounds(s.vp, r + 1);
            let vm1 = drop_digits(s.vm, r + 1) as int;
            let vp1 = drop_digits(s.vp, r + 1) as int;
            assert(n <= vp1) by (nonlinear_arith)
                requires
                    n * t10 <= s.vp,
                    s.vp < (vp1 + 1) * t10,
                    t10 > 0,
            ;
            assert(vm1 < n) by (nonlinear_arith)
                requires
                    n * t10 > s.vm,
                    vm1 * t10 <= s.vm,
                    t10 > 0,
            ;
            lemma_common_removals_exit(s.vm, s.vp);
            let more = (r - common) as nat;
            lemma_drop_adds(s.vm, common + 1, more);
            lemma_drop_adds(s.vp, common + 1, more);
            lemma_drop_ordered(
                drop_digits(s.vp, common + 1),
                drop_digits(s.vm, common + 1),
                more,
            );
            assert(false);
        } else {
            // y is the lower bound itself
            assert(y == s.vm) by (nonlinear_arith)
                requires
                    y * d == i.mm * w,
                    s.vm * d <= i.mm * w,
                    i.mm * w < (s.vm + 1) * d,
                    d > 0,
            ;
            assert(scales_exactly(i, i.mm));
            assert(s.vm == 10 * (n * t)) by (nonlinear_arith)
                requires
                    s.vm == n * t10,
                    t10 == 10 * t,
            ;
            if s.vm_is_trailing_zeros {
                let over = (r + 1 - common) as nat;
                lemma_pow10_adds(common, over);
                lemma_drop_bounds(s.vm, common);
                lemma_pow10_positive(common);
                let pc = pow10(common) as int;
                let po = pow10(over) as int;
                assert(s.vm == (n * po) * pc + 0) by (nonlinear_arith)
                    requires
                        s.vm == n * t10,
                        t10 == pc * po,
                ;
                lemma_fundamental_div_mod_converse(s.vm as int, pc, n * po, 0);
                assert(ends_in_zeros(s.vm, common)) by {
                    reveal(ends_in_zeros);
                }
                lemma_removed_zeros(s);
                lemma_drop_bounds(s.vm, r);
                let top = drop_digits(s.vm, r) as int;
                assert(top == 10 * n) by (nonlinear_arith)
                    requires
                        top * t == s.vm,
                        s.vm == 10 * (n * t),
                        t > 0,
                ;
                assert(false);
            } else {
                assert(s.vm % 10 == 0);
                assert(r >= 1);
                let t1 = pow10((r - 1) as nat) as int;
                assert(t == 10 * t1);
                assert(s.vm == 100 * (n * t1)) by (nonlinear_arith)
                    requires
                        s.vm == 10 * (n * t),
                        t == 10 * t1,
                ;
                assert(s.vm % 100 == 0);
                assert(false);
            }
        }
    }
}

/// No decimal with fewer digits than the shortest decimal lies in the
/// interval: the shortest decimal is a shortest one that reads back as the
/// value.
pub proof fn lemma_no_shorter_decimal(s: ScaledInterval, i: RoundingInterval, n: nat, k: int)
    requires
        scaled_from(s, i),
        s.last_removed_digit <= 9,
        n >= 1,
        contains_decimal(i, n, k),
    ensures
        decimal_length(n) >= decimal_length(shortest_mantissa(s)),
{
    lemma_scaled_order(s, i);
    lemma_shortest_inside(s, i);
    let r = removed_digits(s);
    let out = shortest_mantissa(s);
    let digits = decimal_length(out);
    let t = pow10(r) as int;
    let d = i.d as int;
    let w = i.w as int;
    lemma_pow10_positive(r);
    if decimal_length(n) < digits {
        assert(decimal_length(n) >= 1);
        let low = (digits - 1) as nat;
        lemma_decimal_length_pow10(n, low);
        lemma_decimal_length_pow10(out, low);
        let lo_n = pow10(low) as int;
        assert(n < lo_n <= out);
        // 10^(digits - 1 + r) is a multiple of 10^(r + 1)
        let rest = (digits - 2) as nat;
        lemma_pow10_adds(rest, r + 1);
        lemma_pow10_adds(low, r);
        assert(rest + (r + 1) == low + r);
        let p = lo_n * t;
        assert(p == pow10(rest) * pow10(r + 1));
        lemma_no_coarser_decimal(s, i, pow10(rest));
        // it is not above the shortest decimal, which lies in the interval
        assert(p <= out * t) by (nonlinear_arith)
            requires
                p == lo_n * t,
                lo_n <= out,
                t > 0,
        ;
        assert(p * d <= (out * t) * d) by (nonlinear_arith)
            requires
                p <= out * t,
                d > 0,
        ;
        assert(p * d < (out * t) * d || p == out * t) by (nonlinear_arith)
            requires
                p <= out * t,
                d > 0,
        ;
        assert(below_upper(i, p as nat));
        // and it is above the decimal of fewer digits, which lies in the interval too
        if k >= r + 1 {
            let over = (k - (r + 1)) as nat;
            lemma_pow10_adds(over, r + 1);
            assert(n * pow10(k as nat) == (n * pow10(over)) * pow10(r + 1)) by (nonlinear_arith)
                requires
                    pow10(k as nat) == pow10(over) * pow10(r + 1),
            ;
            lemma_no_coarser_decimal(s, i, n * pow10(over));
            assert(false);
        } else if k >= 0 {
            let under = (r - k) as nat;
            lemma_pow10_adds(k as nat, under);
            lemma_pow10_positive(under);
            lemma_pow10_positive(k as nat);
            let unit = pow10(k as nat) as int;
            assert(n * unit < p) by (nonlinear_arith)
                requires
                    n < lo_n,
                    p == lo_n * t,
                    t == unit * pow10(under),
                    pow10(under) >= 1,
                    unit >= 1,
            ;
            assert((n * unit) * d < p * d) by (nonlinear_arith)
                requires
                    n * unit < p,
                    d > 0,
            ;
            assert(above_lower(i, p as nat));
        } else {
            let unit = pow10((-k) as nat) as int;
            lemma_pow10_positive((-k) as nat);
            assert(n < p * unit) by (nonlinear_arith)
                requires
                    n < lo_n,
                    p == lo_n * t,
                    t >= 1,
                    unit >= 1,
            ;
            assert(n * d < (p * d) * unit) by (nonlinear_arith)
                requires
                    n < p * unit,
                    d > 0,
            ;
            assert(n * d >= (i.mm * w) * unit);
            assert(p * d > i.mm * w) by (nonlinear_arith)
                requires
                    (p * d) * unit > (i.mm * w) * unit,
                    unit > 0,
            ;
            assert(above_lower(i, p as nat));
        }
        assert(contains(i, p as nat));
        assert(false);
    }
}

} // verus!
