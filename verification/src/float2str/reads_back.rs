//! What it is for a decimal to read back as a binary value, and the proof
//! that the shortest decimal of a float or a double does so and is a
//! shortest one.

use vstd::prelude::*;
use vstd::arithmetic::div_mod::{
    lemma_div_multiples_vanish, lemma_fundamental_div_mod, lemma_fundamental_div_mod_converse,
};
use vstd::arithmetic::power::{
    pow, lemma_pow_adds, lemma_pow_distributes, lemma_pow_increases, lemma_pow_positive,
};
use vstd::arithmetic::power2::{pow2, lemma2_to64, lemma_pow2, lemma_pow2_adds, lemma_pow2_pos};
use crate::float2str::common::{
    decimal_length, is_multiple_of_pow5, spec_log10_pow2, spec_log10_pow5,
};
use crate::float2str::d2s::{
    double_e10, double_e2, double_interval, double_m2, double_mm_shift, double_q, spec_d2d,
    lemma_double_shift_range,
};
use crate::float2str::divisibility::{
    lemma_multiple_of_pow2, lemma_multiple_quotient, lemma_multiple_scales,
    lemma_odd_divides_without_pow2, lemma_pow5_mod4, lemma_times_pow5_mod4,
};
use crate::float2str::exact::{scale_down_by_pow10, scale_up_by_pow10, lemma_small_powers};
use crate::float2str::f2s::{
    float_e10, float_e2, float_interval, float_m2, float_mm_shift, float_q, spec_f2d,
    lemma_float_shift_range,
};
use crate::float2str::interval::{
    contains_decimal, scaled_from, scales_exactly, RoundingInterval, lemma_no_shorter_decimal,
    lemma_shortest_inside,
};
use crate::float2str::logarithm::{lemma_log10_pow2_exact, lemma_log10_pow5_exact};
use crate::float2str::shortest::{
    common_removals, pow10, ScaledInterval, lemma_pow10_adds, lemma_pow10_positive,
};

verus! {

/// `x` where it is not negative, else zero.
pub open spec fn positive_part(x: int) -> nat {
    if x >= 0 {
        x as nat
    } else {
        0
    }
}

/// The decimal `n * 10^k` reads back as the binary value `m2 * 2^(e2 + 2)`:
/// a reader that rounds to the nearest binary value, and a tie to the even
/// mantissa, returns that value. In quarters of the distance to the next
/// value above, the value is `4 * m2`, the reals that round to it reach from
/// `4 * m2 - 1 - mm_shift` to `4 * m2 + 2`, where `mm_shift` is zero only for
/// a value with a next value below that is half as far, and the bounds
/// themselves round to it exactly if `m2` is even. The comparison of
/// `n * 10^k` with `(4 * m2 + ..) * 2^e2` is made in integers, both sides
/// multiplied by the powers that negative exponents divide by.
pub open spec fn reads_back(m2: nat, mm_shift: nat, e2: int, n: nat, k: int) -> bool {
    let mm = (4 * m2 - 1 - mm_shift) as nat;
    let mp = 4 * m2 + 2;
    let accept_bounds = m2 % 2 == 0;
    let decimal = n * pow10(positive_part(k)) * pow2(positive_part(-e2));
    let unit = pow2(positive_part(e2)) * pow10(positive_part(-k));
    &&& (decimal > mm * unit || (accept_bounds && decimal == mm * unit))
    &&& (decimal < mp * unit || (accept_bounds && decimal == mp * unit))
}

/// The interval of the reals that read back as the binary value
/// `m2 * 2^(e2 + 2)`, scaled by `2^e2 / 10^q` for `e2 >= 0` and by
/// `5^(-e2 - q) / 2^q` for `e2 < 0`.
pub open spec fn binary_rounding(m2: nat, mm_shift: nat, e2: int, q: int) -> RoundingInterval {
    RoundingInterval {
        mm: (4 * m2 - 1 - mm_shift) as nat,
        mv: 4 * m2,
        mp: 4 * m2 + 2,
        w: if e2 >= 0 {
            pow2((e2 - q) as nat)
        } else {
            pow(5, (-e2 - q) as nat) as nat
        },
        d: if e2 >= 0 {
            pow(5, q as nat) as nat
        } else {
            pow2(q as nat)
        },
        accept_bounds: m2 % 2 == 0,
    }
}

/// Scaling by `2^(e2 - q) / 5^q` enlarges where `10^q` is not above `2^e2`,
/// and tenfold where `10^(q + 1)` is not.
pub proof fn lemma_ratio_up(e2: nat, q: nat, l: nat)
    requires
        q <= l,
        q <= e2,
        pow(10, l) <= pow2(e2),
    ensures
        0 < pow(5, q) <= pow2((e2 - q) as nat),
        q < l ==> 10 * pow(5, q) <= pow2((e2 - q) as nat),
{
    let s = (e2 - q) as nat;
    lemma_pow_positive(5, q);
    lemma_pow_positive(2, q);
    lemma_pow2_pos(s);
    lemma_pow2(q);
    lemma_pow2_adds(q, s);
    lemma_pow_distributes(2, 5, q);
    lemma_pow_increases(10, q, l);
    let five = pow(5, q);
    let two = pow(2, q);
    let rest = pow2(s) as int;
    assert(five <= rest) by (nonlinear_arith)
        requires
            two * five <= two * rest,
            two > 0,
    ;
    if q < l {
        lemma_pow_increases(10, q + 1, l);
        lemma_pow_adds(10, q, 1);
        vstd::arithmetic::power::lemma_pow1(10);
        assert(10 * five <= rest) by (nonlinear_arith)
            requires
                (two * five) * 10 <= two * rest,
                two > 0,
        ;
    }
}

/// Scaling by `5^i / 2^q` enlarges where `10^q` is not above `5^(i + q)`.
pub proof fn lemma_ratio_down(i: nat, q: nat, l: nat)
    requires
        q <= l,
        pow(10, l) <= pow(5, i + q),
    ensures
        0 < pow2(q) <= pow(5, i),
{
    lemma_pow_positive(5, q);
    lemma_pow_positive(5, i);
    lemma_pow2_pos(q);
    lemma_pow2(q);
    lemma_pow_adds(5, i, q);
    lemma_pow_distributes(2, 5, q);
    lemma_pow_increases(10, q, l);
    let five = pow(5, q);
    let two = pow(2, q);
    let rest = pow(5, i);
    assert(two <= rest) by (nonlinear_arith)
        requires
            two * five <= rest * five,
            five > 0,
    ;
}

/// Where the conversion does not look whether a bound was scaled without
/// remainder, a bound `m` that was is no multiple of `25 * 5^q`, and the
/// scale is tenfold at least or `m` is no multiple of `5 * 5^q` either.
pub open spec fn unmarked_bound(m: nat, e2: int, q: int) -> bool {
    let d = pow(5, q as nat) as nat;
    let w = pow2((e2 - q) as nat);
    m % d == 0 ==> (m / d) % 25 != 0 && (10 * d <= w || (m / d) % 5 != 0)
}

/// A bound that was scaled without remainder by `2^s / 5^q` is the quotient
/// by `5^q`, times `2^s`.
proof fn lemma_exact_quotient(m: nat, s: nat, q: nat)
    requires
        m >= 1,
        (m * pow2(s)) % (pow(5, q) as nat) == 0,
    ensures
        m % (pow(5, q) as nat) == 0,
        (m * pow2(s)) / (pow(5, q) as nat) == (m / (pow(5, q) as nat)) * pow2(s),
        q >= 1 ==> m % 5 == 0,
{
    lemma_pow5_mod4(q);
    let d = pow(5, q) as nat;
    lemma_odd_divides_without_pow2(m, s, d);
    lemma_multiple_quotient(m, d);
    let k = m / d;
    assert(m * pow2(s) == d * (k * pow2(s))) by (nonlinear_arith)
        requires
            m == d * k,
    ;
    lemma_div_multiples_vanish((k * pow2(s)) as int, d as int);
    if q >= 1 {
        lemma_pow_adds(5, 1, (q - 1) as nat);
        vstd::arithmetic::power::lemma_pow1(5);
        let rest = pow(5, (q - 1) as nat);
        assert(m == (rest * k) * 5 + 0) by (nonlinear_arith)
            requires
                m == d * k,
                d == 5 * rest,
        ;
        lemma_fundamental_div_mod_converse(m as int, 5, rest * k, 0);
    }
}

/// The interval that the conversion scales for a binary exponent `e2 >= 0`
/// is the rounding interval of the value in that scale.
pub proof fn lemma_up_scaled_from(
    s: ScaledInterval,
    m2: nat,
    mm_shift: nat,
    e2: int,
    q: int,
    threshold: nat,
)
    requires
        m2 >= 1,
        mm_shift <= 1,
        0 <= q <= e2,
        0 < pow(5, q as nat) <= pow2((e2 - q) as nat),
        s.accept_bounds == (m2 % 2 == 0),
        s.vm == scale_down_by_pow10((4 * m2 - 1 - mm_shift) as nat, (e2 - q) as nat, q as nat),
        s.vr == scale_down_by_pow10(4 * m2, (e2 - q) as nat, q as nat),
        s.vp == if q <= threshold && (4 * m2) % 5 != 0 && m2 % 2 != 0 && is_multiple_of_pow5(
            4 * m2 + 2,
            q as nat,
        ) {
            (scale_down_by_pow10(4 * m2 + 2, (e2 - q) as nat, q as nat) - 1) as nat
        } else {
            scale_down_by_pow10(4 * m2 + 2, (e2 - q) as nat, q as nat)
        },
        s.vm_is_trailing_zeros == (q <= threshold && (4 * m2) % 5 != 0 && m2 % 2 == 0
            && is_multiple_of_pow5((4 * m2 - 1 - mm_shift) as nat, q as nat)),
        q > threshold ==> unmarked_bound((4 * m2 - 1 - mm_shift) as nat, e2, q) && unmarked_bound(
            4 * m2 + 2,
            e2,
            q,
        ),
    ensures
        scaled_from(s, binary_rounding(m2, mm_shift, e2, q)),
{
    let i = binary_rounding(m2, mm_shift, e2, q);
    let sh = (e2 - q) as nat;
    let qn = q as nat;
    let d = i.d;
    let w = i.w;
    let mm = i.mm;
    let mv = i.mv;
    let mp = i.mp;
    let accept = i.accept_bounds;
    let upper = (mp * w) / d;
    reveal(scale_down_by_pow10);
    reveal(is_multiple_of_pow5);
    lemma_pow5_mod4(qn);
    lemma_pow2_pos(sh);
    // the upper bound is not below mp
    lemma_fundamental_div_mod((mp * w) as int, d as int);
    assert(mp * w >= mp * d) by (nonlinear_arith)
        requires
            w >= d,
    ;
    if upper < mp {
        assert(d * upper + d <= mp * d) by (nonlinear_arith)
            requires
                upper + 1 <= mp,
                d > 0,
        ;
    }
    assert(upper >= 1);
    if s.vp != upper {
        lemma_multiple_scales(mp, w, d);
    }
    if s.vm_is_trailing_zeros {
        lemma_multiple_scales(mm, w, d);
    }
    if accept && !s.vm_is_trailing_zeros && scales_exactly(i, mm) {
        lemma_exact_quotient(mm, sh, qn);
        let k = mm / d;
        if q > threshold {
            if k % 5 != 0 {
                if s.vm % 5 == 0 {
                    lemma_odd_divides_without_pow2(k, sh, 5);
                }
            } else {
                if s.vm % 25 == 0 {
                    lemma_odd_divides_without_pow2(k, sh, 25);
                }
                // the bounds lie thirty apart at least
                lemma_fundamental_div_mod((mm * w) as int, d as int);
                assert(mp * w >= mm * w + 30 * d) by (nonlinear_arith)
                    requires
                        mp >= mm + 3,
                        w >= 10 * d,
                ;
                assert(mp * w >= d * (s.vm + 30)) by (nonlinear_arith)
                    requires
                        mp * w >= mm * w + 30 * d,
                        mm * w == d * s.vm,
                ;
                if upper < s.vm + 30 {
                    assert(d * upper + d <= d * (s.vm + 30)) by (nonlinear_arith)
                        requires
                            upper + 1 <= s.vm + 30,
                            d > 0,
                    ;
                }
                assert(s.vp / 10 > s.vm / 10);
                assert(common_removals(s.vm, s.vp) >= 1);
            }
        } else {
            // the value is a multiple of five, so the lower bound is none
            assert(mv % 5 == 0);
            assert(q == 0);
            assert(pow(5, 0) == 1) by {
                vstd::arithmetic::power::lemma_pow0(5);
            }
            assert(d == 1);
            lemma_fundamental_div_mod((mm * w) as int, d as int);
            assert(s.vm == (mm * w) / d);
            assert(s.vm == mm * w) by (nonlinear_arith)
                requires
                    mm * w == d * s.vm + (mm * w) % d,
                    0 <= (mm * w) % d < d,
                    d == 1,
            ;
            assert(s.vm == mm * pow2(sh));
            if s.vm % 5 == 0 {
                lemma_odd_divides_without_pow2(mm, sh, 5);
            }
        }
    }
    if !accept && s.vp == upper && scales_exactly(i, mp) {
        lemma_exact_quotient(mp, sh, qn);
        let k = mp / d;
        if q > threshold {
            if k % 5 != 0 {
                if upper % 5 == 0 {
                    lemma_odd_divides_without_pow2(k, sh, 5);
                }
            } else {
                if upper % 25 == 0 {
                    lemma_odd_divides_without_pow2(k, sh, 25);
                }
            }
        } else {
            assert(mv % 5 == 0);
            assert(q == 0);
            assert(pow(5, 0) == 1) by {
                vstd::arithmetic::power::lemma_pow0(5);
            }
            assert(d == 1);
            assert(upper == mp * w) by (nonlinear_arith)
                requires
                    mp * w == d * upper + (mp * w) % d,
                    0 <= (mp * w) % d < d,
                    d == 1,
            ;
            assert(upper == mp * pow2(sh));
            if upper % 5 == 0 {
                lemma_odd_divides_without_pow2(mp, sh, 5);
            }
        }
    }
}

/// The interval that the conversion scales for a binary exponent `e2 < 0` is
/// the rounding interval of the value in that scale.
pub proof fn lemma_down_scaled_from(
    s: ScaledInterval,
    m2: nat,
    mm_shift: nat,
    e2: int,
    q: int,
)
    requires
        m2 >= 1,
        mm_shift <= 1,
        e2 < 0,
        0 <= q <= -e2,
        0 < pow2(q as nat) <= pow(5, (-e2 - q) as nat),
        s.accept_bounds == (m2 % 2 == 0),
        s.vm == scale_up_by_pow10((4 * m2 - 1 - mm_shift) as nat, (-e2 - q) as nat, q as nat),
        s.vr == scale_up_by_pow10(4 * m2, (-e2 - q) as nat, q as nat),
        s.vp == if q <= 1 && m2 % 2 != 0 {
            (scale_up_by_pow10(4 * m2 + 2, (-e2 - q) as nat, q as nat) - 1) as nat
        } else {
            scale_up_by_pow10(4 * m2 + 2, (-e2 - q) as nat, q as nat)
        },
        s.vm_is_trailing_zeros == (q <= 1 && m2 % 2 == 0 && mm_shift == 1),
    ensures
        scaled_from(s, binary_rounding(m2, mm_shift, e2, q)),
{
    let i = binary_rounding(m2, mm_shift, e2, q);
    let up = (-e2 - q) as nat;
    let qn = q as nat;
    let d = i.d;
    let w = i.w;
    let mm = i.mm;
    let mv = i.mv;
    let mp = i.mp;
    let accept = i.accept_bounds;
    let upper = (mp * w) / d;
    reveal(scale_up_by_pow10);
    lemma_pow5_mod4(up);
    lemma_pow2_pos(qn);
    lemma2_to64();
    lemma_times_pow5_mod4(mm, up);
    lemma_times_pow5_mod4(mp, up);
    lemma_fundamental_div_mod((mp * w) as int, d as int);
    assert(mp * w >= mp * d) by (nonlinear_arith)
        requires
            w >= d,
    ;
    if upper < mp {
        assert(d * upper + d <= mp * d) by (nonlinear_arith)
            requires
                upper + 1 <= mp,
                d > 0,
        ;
    }
    assert(upper >= 1);
    if q >= 1 {
        if (mm * w) % d == 0 {
            lemma_multiple_of_pow2(mm * w, qn);
        }
        if (mp * w) % d == 0 {
            lemma_multiple_of_pow2(mp * w, qn);
        }
    }
    if q == 1 {
        assert(d == 2);
    }
    if q == 0 {
        assert(d == 1);
        lemma_fundamental_div_mod((mm * w) as int, d as int);
        assert(s.vm == (mm * w) / d);
        assert(s.vm == mm * w);
    }
}

/// The interval of the reals that read back as the finite, nonzero double
/// with the given fields, in the scale of its conversion: `y` stands for
/// `y * 10^e10`.
pub open spec fn double_rounding(ieee_mantissa: u64, ieee_exponent: u32) -> RoundingInterval {
    let e2 = double_e2(ieee_exponent);
    binary_rounding(
        double_m2(ieee_mantissa, ieee_exponent),
        double_mm_shift(ieee_mantissa, ieee_exponent),
        e2,
        double_q(e2),
    )
}

/// The interval of the reals that read back as the finite, nonzero float
/// with the given fields, in the scale of its conversion: `y` stands for
/// `y * 10^e10`.
pub open spec fn float_rounding(ieee_mantissa: u32, ieee_exponent: u32) -> RoundingInterval {
    let e2 = float_e2(ieee_exponent);
    binary_rounding(
        float_m2(ieee_mantissa, ieee_exponent),
        float_mm_shift(ieee_mantissa, ieee_exponent),
        e2,
        float_q(e2),
    )
}

/// A positive multiple of `5^q` below `5^(base + 2)`, with `q >= base`, is no
/// multiple of `25 * 5^q`.
proof fn lemma_quotient_below_25(m: nat, q: nat, base: nat)
    requires
        m >= 1,
        q >= base,
        m < pow(5, base + 2),
        m % (pow(5, q) as nat) == 0,
    ensures
        (m / (pow(5, q) as nat)) % 25 != 0,
        1 <= m / (pow(5, q) as nat),
        m == (pow(5, q) as nat) * (m / (pow(5, q) as nat)),
{
    lemma_pow_positive(5, q);
    lemma_pow_positive(5, base);
    let d = pow(5, q) as nat;
    lemma_multiple_quotient(m, d);
    let k = m / d;
    lemma_pow_increases(5, base, q);
    lemma_pow_adds(5, base, 2);
    assert(pow(5, 2) == 25) by {
        reveal_with_fuel(pow, 3);
    }
    if k % 25 == 0 {
        assert(k >= 25);
        assert(d * k >= pow(5, base) * 25) by (nonlinear_arith)
            requires
                d >= pow(5, base),
                k >= 25,
                pow(5, base) > 0,
        ;
    }
}

/// The interval that the conversion of a double scales is the rounding
/// interval of the double.
pub proof fn lemma_double_scaled_from(ieee_mantissa: u64, ieee_exponent: u32)
    requires
        ieee_mantissa < 0x10_0000_0000_0000,
        ieee_exponent < 2047,
        ieee_mantissa != 0 || ieee_exponent != 0,
    ensures
        scaled_from(
            double_interval(ieee_mantissa, ieee_exponent),
            double_rounding(ieee_mantissa, ieee_exponent),
        ),
{
    let e2 = double_e2(ieee_exponent);
    let m2 = double_m2(ieee_mantissa, ieee_exponent);
    let mm_shift = double_mm_shift(ieee_mantissa, ieee_exponent);
    let q = double_q(e2);
    let s = double_interval(ieee_mantissa, ieee_exponent);
    lemma_double_shift_range(e2);
    if e2 >= 0 {
        lemma_log10_pow2_exact(e2);
        let l = spec_log10_pow2(e2);
        lemma_ratio_up(e2 as nat, q as nat, l as nat);
        if q > 21 {
            lemma_small_powers();
            lemma_pow_adds(5, 22, 2);
            assert(pow(5, 2) == 25) by {
                reveal_with_fuel(pow, 3);
            }
            let mm = (4 * m2 - 1 - mm_shift) as nat;
            let mp = 4 * m2 + 2;
            let d = pow(5, q as nat) as nat;
            if mm % d == 0 {
                lemma_quotient_below_25(mm, q as nat, 22);
            }
            if mp % d == 0 {
                lemma_quotient_below_25(mp, q as nat, 22);
            }
        }
        lemma_up_scaled_from(s, m2, mm_shift, e2, q, 21);
    } else {
        lemma_log10_pow5_exact(-e2);
        let l = spec_log10_pow5(-e2);
        lemma_ratio_down((-e2 - q) as nat, q as nat, l as nat);
        lemma_down_scaled_from(s, m2, mm_shift, e2, q);
    }
}

/// The shortest decimal of a double reads back as the double: it lies in
/// the interval of the reals that round to the double, as a reader that
/// rounds to nearest, and ties to the even mantissa, sees it.
pub proof fn lemma_d2d_reads_back(ieee_mantissa: u64, ieee_exponent: u32)
    requires
        ieee_mantissa < 0x10_0000_0000_0000,
        ieee_exponent < 2047,
        ieee_mantissa != 0 || ieee_exponent != 0,
    ensures
        spec_d2d(ieee_mantissa, ieee_exponent).exponent >= double_e10(double_e2(ieee_exponent)),
        contains_decimal(
            double_rounding(ieee_mantissa, ieee_exponent),
            spec_d2d(ieee_mantissa, ieee_exponent).mantissa,
            spec_d2d(ieee_mantissa, ieee_exponent).exponent - double_e10(
                double_e2(ieee_exponent),
            ),
        ),
{
    lemma_double_scaled_from(ieee_mantissa, ieee_exponent);
    lemma_shortest_inside(
        double_interval(ieee_mantissa, ieee_exponent),
        double_rounding(ieee_mantissa, ieee_exponent),
    );
}

/// No decimal with fewer digits than the shortest decimal of a double reads
/// back as the double.
pub proof fn lemma_d2d_shortest(ieee_mantissa: u64, ieee_exponent: u32, n: nat, k: int)
    requires
        ieee_mantissa < 0x10_0000_0000_0000,
        ieee_exponent < 2047,
        ieee_mantissa != 0 || ieee_exponent != 0,
        n >= 1,
        contains_decimal(
            double_rounding(ieee_mantissa, ieee_exponent),
            n,
            k - double_e10(double_e2(ieee_exponent)),
        ),
    ensures
        decimal_length(n) >= decimal_length(spec_d2d(ieee_mantissa, ieee_exponent).mantissa),
{
    lemma_double_scaled_from(ieee_mantissa, ieee_exponent);
    lemma_no_shorter_decimal(
        double_interval(ieee_mantissa, ieee_exponent),
        double_rounding(ieee_mantissa, ieee_exponent),
        n,
        k - double_e10(double_e2(ieee_exponent)),
    );
}

/// A multiple of `5^q` below `2^26`, with `q >= 10`, that is a multiple of
/// `5 * 5^q` too is `5^11`.
proof fn lemma_float_quotient_by_five(m: nat, q: nat)
    requires
        1 <= m < 0x400_0000,
        q >= 10,
        m % (pow(5, q) as nat) == 0,
        (m / (pow(5, q) as nat)) % 5 == 0,
    ensures
        m == 48828125,
{
    lemma_small_powers();
    lemma_pow_positive(5, q);
    let d = pow(5, q) as nat;
    lemma_multiple_quotient(m, d);
    let k = m / d;
    lemma_pow_increases(5, 10, q);
    assert(k >= 5);
    assert(d * k >= d * 5) by (nonlinear_arith)
        requires
            k >= 5,
            d > 0,
    ;
    if q >= 11 {
        lemma_pow_increases(5, 11, q);
    }
    assert(q == 10);
    assert(d == 9765625);
    if k >= 10 {
        assert(d * k >= d * 10) by (nonlinear_arith)
            requires
                k >= 10,
                d > 0,
        ;
    }
    assert(k == 5);
    assert(m == 48828125) by (nonlinear_arith)
        requires
            m == d * k,
            d == 9765625,
            k == 5,
    ;
}

/// The interval that the conversion of a float scales is the rounding
/// interval of the float.
pub proof fn lemma_float_scaled_from(ieee_mantissa: u32, ieee_exponent: u32)
    requires
        ieee_mantissa < 0x80_0000,
        ieee_exponent < 255,
        ieee_mantissa != 0 || ieee_exponent != 0,
    ensures
        scaled_from(
            float_interval(ieee_mantissa, ieee_exponent),
            float_rounding(ieee_mantissa, ieee_exponent),
        ),
        float_interval(ieee_mantissa, ieee_exponent).last_removed_digit <= 9,
{
    let e2 = float_e2(ieee_exponent);
    let m2 = float_m2(ieee_mantissa, ieee_exponent);
    let mm_shift = float_mm_shift(ieee_mantissa, ieee_exponent);
    let q = float_q(e2);
    let s = float_interval(ieee_mantissa, ieee_exponent);
    lemma_float_shift_range(e2);
    if e2 >= 0 {
        lemma_log10_pow2_exact(e2);
        let l = spec_log10_pow2(e2);
        lemma_ratio_up(e2 as nat, q as nat, l as nat);
        if q > 9 {
            lemma_small_powers();
            lemma_pow_adds(5, 10, 2);
            assert(pow(5, 2) == 25) by {
                reveal_with_fuel(pow, 3);
            }
            let mm = (4 * m2 - 1 - mm_shift) as nat;
            let mp = 4 * m2 + 2;
            let d = pow(5, q as nat) as nat;
            if mm % d == 0 {
                lemma_quotient_below_25(mm, q as nat, 10);
                if (mm / d) % 5 == 0 {
                    lemma_float_quotient_by_five(mm, q as nat);
                }
            }
            if mp % d == 0 {
                lemma_quotient_below_25(mp, q as nat, 10);
                if (mp / d) % 5 == 0 {
                    lemma_float_quotient_by_five(mp, q as nat);
                }
            }
        }
        lemma_up_scaled_from(s, m2, mm_shift, e2, q, 9);
    } else {
        lemma_log10_pow5_exact(-e2);
        let l = spec_log10_pow5(-e2);
        lemma_ratio_down((-e2 - q) as nat, q as nat, l as nat);
        lemma_down_scaled_from(s, m2, mm_shift, e2, q);
    }
}

/// The shortest decimal of a float reads back as the float: it lies in the
/// interval of the reals that round to the float, as a reader that rounds to
/// nearest, and ties to the even mantissa, sees it.
pub proof fn lemma_f2d_reads_back(ieee_mantissa: u32, ieee_exponent: u32)
    requires
        ieee_mantissa < 0x80_0000,
        ieee_exponent < 255,
        ieee_mantissa != 0 || ieee_exponent != 0,
    ensures
        spec_f2d(ieee_mantissa, ieee_exponent).exponent >= float_e10(float_e2(ieee_exponent)),
        contains_decimal(
            float_rounding(ieee_mantissa, ieee_exponent),
            spec_f2d(ieee_mantissa, ieee_exponent).mantissa,
            spec_f2d(ieee_mantissa, ieee_exponent).exponent - float_e10(float_e2(ieee_exponent)),
        ),
{
    lemma_float_scaled_from(ieee_mantissa, ieee_exponent);
    lemma_shortest_inside(
        float_interval(ieee_mantissa, ieee_exponent),
        float_rounding(ieee_mantissa, ieee_exponent),
    );
}

/// No decimal with fewer digits than the shortest decimal of a float reads
/// back as the float.
pub proof fn lemma_f2d_shortest(ieee_mantissa: u32, ieee_exponent: u32, n: nat, k: int)
    requires
        ieee_mantissa < 0x80_0000,
        ieee_exponent < 255,
        ieee_mantissa != 0 || ieee_exponent != 0,
        n >= 1,
        contains_decimal(
            float_rounding(ieee_mantissa, ieee_exponent),
            n,
            k - float_e10(float_e2(ieee_exponent)),
        ),
    ensures
        decimal_length(n) >= decimal_length(spec_f2d(ieee_mantissa, ieee_exponent).mantissa),
{
    lemma_float_scaled_from(ieee_mantissa, ieee_exponent);
    lemma_no_shorter_decimal(
        float_interval(ieee_mantissa, ieee_exponent),
        float_rounding(ieee_mantissa, ieee_exponent),
        n,
        k - float_e10(float_e2(ieee_exponent)),
    );
}

/// `10^n == 2^n * 5^n`.
pub proof fn lemma_pow10_split(n: nat)
    ensures
        pow10(n) == pow2(n) * pow(5, n),
    decreases n,
{
    reveal(pow);
    lemma2_to64();
    if n > 0 {
        lemma_pow10_split((n - 1) as nat);
        vstd::arithmetic::power2::lemma_pow2_unfold(n);
        let a = pow2((n - 1) as nat) as int;
        let b = pow(5, (n - 1) as nat);
        assert((2 * a) * (5 * b) == 10 * (a * b)) by (nonlinear_arith);
    }
}

/// Two comparisons agree where both sides of the one are the sides of the
/// other, multiplied by positive factors.
pub proof fn lemma_same_comparison(ls: int, rs: int, la: int, ra: int, f: int, g: int)
    requires
        f > 0,
        g > 0,
        ls * f == la * g,
        rs * f == ra * g,
    ensures
        (ls < rs) == (la < ra),
        (ls == rs) == (la == ra),
        (ls > rs) == (la > ra),
{
    assert((ls < rs) == (ls * f < rs * f)) by (nonlinear_arith)
        requires
            f > 0,
    ;
    assert((ls > rs) == (ls * f > rs * f)) by (nonlinear_arith)
        requires
            f > 0,
    ;
    assert((la < ra) == (la * g < ra * g)) by (nonlinear_arith)
        requires
            g > 0,
    ;
    assert((la > ra) == (la * g > ra * g)) by (nonlinear_arith)
        requires
            g > 0,
    ;
}

/// For a binary exponent `e2 >= 0`, a decimal lies in the scaled interval
/// exactly if it reads back as the value.
pub proof fn lemma_reads_back_up(m2: nat, mm_shift: nat, e2: int, q: int, n: nat, k: int)
    requires
        m2 >= 1,
        mm_shift <= 1,
        0 <= q <= e2,
    ensures
        contains_decimal(binary_rounding(m2, mm_shift, e2, q), n, k - q) == reads_back(
            m2,
            mm_shift,
            e2,
            n,
            k,
        ),
{
    let i = binary_rounding(m2, mm_shift, e2, q);
    let qn = q as nat;
    let sh = (e2 - q) as nat;
    let two = pow2(qn) as int;
    let five = pow(5, qn);
    let w = pow2(sh) as int;
    let whole = pow2(e2 as nat) as int;
    let mm = i.mm as int;
    let mp = i.mp as int;
    lemma_pow2_pos(qn);
    lemma_pow_positive(5, qn);
    lemma_pow2_adds(qn, sh);
    lemma_pow10_split(qn);
    lemma2_to64();
    assert(pow10(0) == 1);
    assert(whole == two * w);
    assert(i.d == five);
    assert(i.w == w);
    let ten = pow10(qn) as int;
    assert(ten == two * five);
    if k >= q {
        let over = (k - q) as nat;
        lemma_pow10_adds(over, qn);
        let po = pow10(over) as int;
        let pk = pow10(k as nat) as int;
        let ls = (n * po) * five;
        let la = (n * pk) * 1;
        assert(ls * two == la * 1) by (nonlinear_arith)
            requires
                ls == (n * po) * five,
                la == (n * pk) * 1,
                pk == po * ten,
                ten == two * five,
        ;
        assert((mm * w) * two == (mm * (whole * 1)) * 1) by (nonlinear_arith)
            requires
                whole == two * w,
        ;
        assert((mp * w) * two == (mp * (whole * 1)) * 1) by (nonlinear_arith)
            requires
                whole == two * w,
        ;
        lemma_same_comparison(ls, mm * w, la, mm * (whole * 1), two, 1);
        lemma_same_comparison(ls, mp * w, la, mp * (whole * 1), two, 1);
    } else {
        let under = (q - k) as nat;
        let pu = pow10(under) as int;
        lemma_pow10_positive(under);
        let ls = n * five;
        if k >= 0 {
            lemma_pow10_adds(k as nat, under);
            let pk = pow10(k as nat) as int;
            let la = (n * pk) * 1;
            assert(ls * two == la * pu) by (nonlinear_arith)
                requires
                    ls == n * five,
                    la == (n * pk) * 1,
                    ten == pk * pu,
                    ten == two * five,
            ;
            assert(((mm * w) * pu) * two == (mm * (whole * 1)) * pu) by (nonlinear_arith)
                requires
                    whole == two * w,
            ;
            assert(((mp * w) * pu) * two == (mp * (whole * 1)) * pu) by (nonlinear_arith)
                requires
                    whole == two * w,
            ;
            lemma_same_comparison(ls, (mm * w) * pu, la, mm * (whole * 1), two, pu);
            lemma_same_comparison(ls, (mp * w) * pu, la, mp * (whole * 1), two, pu);
        } else {
            let below = (-k) as nat;
            lemma_pow10_adds(qn, below);
            let pb = pow10(below) as int;
            let la = ((n * 1) * 1) as int;
            assert(ls * two == la * ten) by (nonlinear_arith)
                requires
                    ls == n * five,
                    la == (n * 1) * 1,
                    ten == two * five,
            ;
            assert(((mm * w) * pu) * two == (mm * (whole * pb)) * ten) by (nonlinear_arith)
                requires
                    whole == two * w,
                    pu == ten * pb,
            ;
            assert(((mp * w) * pu) * two == (mp * (whole * pb)) * ten) by (nonlinear_arith)
                requires
                    whole == two * w,
                    pu == ten * pb,
            ;
            lemma_pow10_positive(qn);
            lemma_same_comparison(ls, (mm * w) * pu, la, mm * (whole * pb), two, ten);
            lemma_same_comparison(ls, (mp * w) * pu, la, mp * (whole * pb), two, ten);
        }
    }
}

/// For a binary exponent `e2 < 0`, a decimal lies in the scaled interval
/// exactly if it reads back as the value.
pub proof fn lemma_reads_back_down(m2: nat, mm_shift: nat, e2: int, q: int, n: nat, k: int)
    requires
        m2 >= 1,
        mm_shift <= 1,
        e2 < 0,
        0 <= q <= -e2,
    ensures
        contains_decimal(binary_rounding(m2, mm_shift, e2, q), n, k - (q + e2)) == reads_back(
            m2,
            mm_shift,
            e2,
            n,
            k,
        ),
{
    let i = binary_rounding(m2, mm_shift, e2, q);
    let qn = q as nat;
    let up = (-e2 - q) as nat;
    let d = pow2(qn) as int;
    let w = pow(5, up);
    let two = pow2(up) as int;
    let whole = pow2((-e2) as nat) as int;
    let mm = i.mm as int;
    let mp = i.mp as int;
    lemma_pow2_pos(qn);
    lemma_pow2_pos(up);
    lemma_pow_positive(5, up);
    lemma_pow2_adds(up, qn);
    lemma_pow10_split(up);
    lemma_pow10_positive(up);
    lemma2_to64();
    assert(pow10(0) == 1);
    assert(whole == two * d);
    assert(i.d == d);
    assert(i.w == w);
    let ten = pow10(up) as int;
    assert(ten == two * w);
    if k + up >= 0 {
        let level = (k + up) as nat;
        let pl = pow10(level) as int;
        lemma_pow10_positive(level);
        let ls = (n * pl) * d;
        if k >= 0 {
            lemma_pow10_adds(k as nat, up);
            let pk = pow10(k as nat) as int;
            let la = (n * pk) * whole;
            assert(ls * two == la * ten) by (nonlinear_arith)
                requires
                    ls == (n * pl) * d,
                    la == (n * pk) * whole,
                    pl == pk * ten,
                    whole == two * d,
            ;
            assert((mm * w) * two == (mm * (1 * 1)) * ten) by (nonlinear_arith)
                requires
                    ten == two * w,
            ;
            assert((mp * w) * two == (mp * (1 * 1)) * ten) by (nonlinear_arith)
                requires
                    ten == two * w,
            ;
            lemma_same_comparison(ls, mm * w, la, mm * (1 * 1), two, ten);
            lemma_same_comparison(ls, mp * w, la, mp * (1 * 1), two, ten);
        } else {
            let below = (-k) as nat;
            lemma_pow10_adds(below, level);
            let pb = pow10(below) as int;
            let la = (n * 1) * whole;
            assert(ls * two == la * pl) by (nonlinear_arith)
                requires
                    ls == (n * pl) * d,
                    la == (n * 1) * whole,
                    whole == two * d,
            ;
            assert((mm * w) * two == (mm * (1 * pb)) * pl) by (nonlinear_arith)
                requires
                    ten == two * w,
                    ten == pb * pl,
            ;
            assert((mp * w) * two == (mp * (1 * pb)) * pl) by (nonlinear_arith)
                requires
                    ten == two * w,
                    ten == pb * pl,
            ;
            lemma_same_comparison(ls, mm * w, la, mm * (1 * pb), two, pl);
            lemma_same_comparison(ls, mp * w, la, mp * (1 * pb), two, pl);
        }
    } else {
        let under = (-(k + up)) as nat;
        let below = (-k) as nat;
        lemma_pow10_adds(up, under);
        let pu = pow10(under) as int;
        let pb = pow10(below) as int;
        let ls = n * d;
        let la = (n * 1) * whole;
        assert(ls * two == la * 1) by (nonlinear_arith)
            requires
                ls == n * d,
                la == (n * 1) * whole,
                whole == two * d,
        ;
        assert(((mm * w) * pu) * two == (mm * (1 * pb)) * 1) by (nonlinear_arith)
            requires
                ten == two * w,
                pb == ten * pu,
        ;
        assert(((mp * w) * pu) * two == (mp * (1 * pb)) * 1) by (nonlinear_arith)
            requires
                ten == two * w,
                pb == ten * pu,
        ;
        lemma_same_comparison(ls, (mm * w) * pu, la, mm * (1 * pb), two, 1);
        lemma_same_comparison(ls, (mp * w) * pu, la, mp * (1 * pb), two, 1);
    }
}

/// A decimal reads back as before where its zeros are written out and one
/// more: `n * 10^k` and `(n * 10^(k + 1)) * 10^-1` are one number.
pub proof fn lemma_reads_back_written_out(m2: nat, mm_shift: nat, e2: int, n: nat, k: int)
    requires
        k >= 0,
    ensures
        reads_back(m2, mm_shift, e2, n * pow10((k + 1) as nat), -1) == reads_back(
            m2,
            mm_shift,
            e2,
            n,
            k,
        ),
{
    let mm = (4 * m2 - 1 - mm_shift) as nat as int;
    let mp = (4 * m2 + 2) as int;
    let binary = pow2(positive_part(-e2)) as int;
    let whole = pow2(positive_part(e2)) as int;
    let pk = pow10(k as nat) as int;
    let pk1 = pow10((k + 1) as nat) as int;
    assert(pow10(0) == 1);
    assert(pow10(1) == 10) by {
        reveal_with_fuel(pow10, 2);
    }
    assert(pk1 == 10 * pk);
    assert(positive_part(-1) == 0);
    assert(positive_part(1) == 1);
    assert(positive_part(k) == k as nat);
    assert(positive_part(-k) == 0);
    let first = ((n * pk1) * 1) * binary;
    let second = (n * pk) * binary;
    assert(first * 1 == second * 10) by (nonlinear_arith)
        requires
            first == ((n * pk1) * 1) * binary,
            second == (n * pk) * binary,
            pk1 == 10 * pk,
    ;
    assert((mm * (whole * 10)) * 1 == (mm * (whole * 1)) * 10) by (nonlinear_arith);
    assert((mp * (whole * 10)) * 1 == (mp * (whole * 1)) * 10) by (nonlinear_arith);
    lemma_same_comparison(first, mm * (whole * 10), second, mm * (whole * 1), 1, 10);
    lemma_same_comparison(first, mp * (whole * 10), second, mp * (whole * 1), 1, 10);
}

/// The decimal `n * 10^k` reads back as the finite, nonzero double with the
/// given fields.
pub open spec fn reads_back_as_double(
    ieee_mantissa: u64,
    ieee_exponent: u32,
    n: nat,
    k: int,
) -> bool {
    reads_back(
        double_m2(ieee_mantissa, ieee_exponent),
        double_mm_shift(ieee_mantissa, ieee_exponent),
        double_e2(ieee_exponent),
        n,
        k,
    )
}

/// The decimal `n * 10^k` reads back as the finite, nonzero float with the
/// given fields.
pub open spec fn reads_back_as_float(ieee_mantissa: u32, ieee_exponent: u32, n: nat, k: int) -> bool {
    reads_back(
        float_m2(ieee_mantissa, ieee_exponent),
        float_mm_shift(ieee_mantissa, ieee_exponent),
        float_e2(ieee_exponent),
        n,
        k,
    )
}

/// A decimal lies in the scaled interval of a double exactly if it reads
/// back as the double.
pub proof fn lemma_double_rounding_reads_back(
    ieee_mantissa: u64,
    ieee_exponent: u32,
    n: nat,
    k: int,
)
    requires
        ieee_mantissa < 0x10_0000_0000_0000,
        ieee_exponent < 2047,
        ieee_mantissa != 0 || ieee_exponent != 0,
    ensures
        contains_decimal(
            double_rounding(ieee_mantissa, ieee_exponent),
            n,
            k - double_e10(double_e2(ieee_exponent)),
        ) == reads_back_as_double(ieee_mantissa, ieee_exponent, n, k),
{
    let e2 = double_e2(ieee_exponent);
    let m2 = double_m2(ieee_mantissa, ieee_exponent);
    let mm_shift = double_mm_shift(ieee_mantissa, ieee_exponent);
    lemma_double_shift_range(e2);
    if e2 >= 0 {
        lemma_reads_back_up(m2, mm_shift, e2, double_q(e2), n, k);
    } else {
        lemma_reads_back_down(m2, mm_shift, e2, double_q(e2), n, k);
    }
}

/// A decimal lies in the scaled interval of a float exactly if it reads back
/// as the float.
pub proof fn lemma_float_rounding_reads_back(ieee_mantissa: u32, ieee_exponent: u32, n: nat, k: int)
    requires
        ieee_mantissa < 0x80_0000,
        ieee_exponent < 255,
        ieee_mantissa != 0 || ieee_exponent != 0,
    ensures
        contains_decimal(
            float_rounding(ieee_mantissa, ieee_exponent),
            n,
            k - float_e10(float_e2(ieee_exponent)),
        ) == reads_back_as_float(ieee_mantissa, ieee_exponent, n, k),
{
    let e2 = float_e2(ieee_exponent);
    let m2 = float_m2(ieee_mantissa, ieee_exponent);
    let mm_shift = float_mm_shift(ieee_mantissa, ieee_exponent);
    lemma_float_shift_range(e2);
    if e2 >= 0 {
        lemma_reads_back_up(m2, mm_shift, e2, float_q(e2), n, k);
    } else {
        lemma_reads_back_down(m2, mm_shift, e2, float_q(e2), n, k);
    }
}

/// The shortest decimal of a finite, nonzero double reads back as the
/// double.
pub proof fn lemma_double_round_trip(ieee_mantissa: u64, ieee_exponent: u32)
    requires
        ieee_mantissa < 0x10_0000_0000_0000,
        ieee_exponent < 2047,
        ieee_mantissa != 0 || ieee_exponent != 0,
    ensures
        reads_back_as_double(
            ieee_mantissa,
            ieee_exponent,
            spec_d2d(ieee_mantissa, ieee_exponent).mantissa,
            spec_d2d(ieee_mantissa, ieee_exponent).exponent,
        ),
{
    let v = spec_d2d(ieee_mantissa, ieee_exponent);
    lemma_d2d_reads_back(ieee_mantissa, ieee_exponent);
    lemma_double_rounding_reads_back(ieee_mantissa, ieee_exponent, v.mantissa, v.exponent);
}

/// No decimal that reads back as a finite, nonzero double has fewer digits
/// than the shortest decimal of the double.
pub proof fn lemma_double_shortest(ieee_mantissa: u64, ieee_exponent: u32, n: nat, k: int)
    requires
        ieee_mantissa < 0x10_0000_0000_0000,
        ieee_exponent < 2047,
        ieee_mantissa != 0 || ieee_exponent != 0,
        n >= 1,
        reads_back_as_double(ieee_mantissa, ieee_exponent, n, k),
    ensures
        decimal_length(n) >= decimal_length(spec_d2d(ieee_mantissa, ieee_exponent).mantissa),
{
    lemma_double_rounding_reads_back(ieee_mantissa, ieee_exponent, n, k);
    lemma_d2d_shortest(ieee_mantissa, ieee_exponent, n, k);
}

/// The shortest decimal of a finite, nonzero float reads back as the float.
pub proof fn lemma_float_round_trip(ieee_mantissa: u32, ieee_exponent: u32)
    requires
        ieee_mantissa < 0x80_0000,
        ieee_exponent < 255,
        ieee_mantissa != 0 || ieee_exponent != 0,
    ensures
        reads_back_as_float(
            ieee_mantissa,
            ieee_exponent,
            spec_f2d(ieee_mantissa, ieee_exponent).mantissa,
            spec_f2d(ieee_mantissa, ieee_exponent).exponent,
        ),
{
    let v = spec_f2d(ieee_mantissa, ieee_exponent);
    lemma_f2d_reads_back(ieee_mantissa, ieee_exponent);
    lemma_float_rounding_reads_back(ieee_mantissa, ieee_exponent, v.mantissa, v.exponent);
}

/// No decimal that reads back as a finite, nonzero float has fewer digits
/// than the shortest decimal of the float.
pub proof fn lemma_float_shortest(ieee_mantissa: u32, ieee_exponent: u32, n: nat, k: int)
    requires
        ieee_mantissa < 0x80_0000,
        ieee_exponent < 255,
        ieee_mantissa != 0 || ieee_exponent != 0,
        n >= 1,
        reads_back_as_float(ieee_mantissa, ieee_exponent, n, k),
    ensures
        decimal_length(n) >= decimal_length(spec_f2d(ieee_mantissa, ieee_exponent).mantissa),
{
    lemma_float_rounding_reads_back(ieee_mantissa, ieee_exponent, n, k);
    lemma_f2d_shortest(ieee_mantissa, ieee_exponent, n, k);
}

} // verus!
