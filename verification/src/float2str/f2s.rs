//! The shortest decimal of a single-precision value.

use vstd::prelude::*;
use vstd::arithmetic::div_mod::{
    lemma_div_basics, lemma_div_denominator, lemma_div_is_ordered,
    lemma_div_is_ordered_by_denominator,
};
use vstd::arithmetic::power2::{
    pow2, lemma2_to64, lemma2_to64_rest, lemma_pow2_adds, lemma_pow2_pos,
    lemma_pow2_strictly_increases,
};
use vstd::bits::{lemma_u32_low_bits_mask_is_mod, lemma_u32_shl_is_mul, lemma_u64_shr_is_div};
use crate::float2str::common::{
    is_multiple_of_pow2, is_multiple_of_pow5, log10_pow2, log10_pow5, pow5_factor, pow5bits,
    spec_log10_pow2, spec_log10_pow5, spec_pow5bits, lemma_pow5_factor,
};
use crate::float2str::d2s::{double_pow5_inv_split, double_pow5_split, lemma_table_bounds};
use crate::float2str::exact::{fixed_point_product, scale_down_by_pow10, scale_up_by_pow10};
use crate::float2str::exact_float::lemma_float_scaling_exact;
use crate::float2str::reads_back::{reads_back_as_float, lemma_float_round_trip};
use crate::float2str::shortest::{
    common_removals, drop_digits, ends_in_zeros, last_digit, removed_digits, shortest_mantissa,
    trailing_zeros, value_stays_exact, DecimalValue, ScaledInterval, lemma_drop_at_least_ten,
    lemma_drop_none, lemma_drop_succ, lemma_drop_zeros_positive, lemma_pow10_bounds_removed,
    lemma_pow10_increases, lemma_pow10_values, lemma_removed_digits_bound,
    lemma_shortest_bounds,
};
use crate::float2str::tables::{
    DOUBLE_POW5_BITCOUNT, DOUBLE_POW5_INV_BITCOUNT, DOUBLE_POW5_INV_SPLIT, DOUBLE_POW5_SPLIT,
};

verus! {

pub const FLOAT_MANTISSA_BITS: u32 = 23;

pub const FLOAT_EXPONENT_BITS: u32 = 8;

pub const FLOAT_BIAS: i32 = 127;

pub const FLOAT_POW5_INV_BITCOUNT: i32 = DOUBLE_POW5_INV_BITCOUNT - 64;

pub const FLOAT_POW5_BITCOUNT: i32 = DOUBLE_POW5_BITCOUNT - 64;

/// The shortest decimal that reads back as one single-precision value.
pub struct FloatingDecimal32 {
    pub mantissa: u32,
    pub exponent: i32,
}

impl View for FloatingDecimal32 {
    type V = DecimalValue;

    open spec fn view(&self) -> DecimalValue {
        DecimalValue { mantissa: self.mantissa as nat, exponent: self.exponent as int }
    }
}

/// `floor(m * factor / 2^j)`.
pub open spec fn spec_mul_shift_32(m: nat, factor: nat, j: nat) -> nat {
    fixed_point_product(m, factor, j)
}

/// The binary exponent of a float, less the two bits that the interval
/// bounds need.
pub open spec fn float_e2(ieee_exponent: u32) -> int {
    if ieee_exponent == 0 {
        1 - 127 - 23 - 2
    } else {
        ieee_exponent - 127 - 23 - 2
    }
}

/// The binary mantissa of a float, with its implicit bit.
pub open spec fn float_m2(ieee_mantissa: u32, ieee_exponent: u32) -> nat {
    if ieee_exponent == 0 {
        ieee_mantissa as nat
    } else {
        (0x80_0000 + ieee_mantissa) as nat
    }
}

/// One, unless the value is the smallest of its binade, where the interval
/// below it is half as wide.
pub open spec fn float_mm_shift(ieee_mantissa: u32, ieee_exponent: u32) -> nat {
    if ieee_mantissa != 0 || ieee_exponent <= 1 {
        1
    } else {
        0
    }
}

/// The number of decimal digits that scaling takes off (for `e2 >= 0`) or
/// adds (for `e2 < 0`).
pub open spec fn float_q(e2: int) -> int {
    if e2 >= 0 {
        spec_log10_pow2(e2)
    } else {
        spec_log10_pow5(-e2)
    }
}

/// The decimal exponent of the scaled interval.
pub open spec fn float_e10(e2: int) -> int {
    if e2 >= 0 {
        float_q(e2)
    } else {
        float_q(e2) + e2
    }
}

/// The factor that scales by `10^-q`: the high word of a table entry, plus
/// one where the entry is a reciprocal.
pub open spec fn float_factor(e2: int, q: int) -> nat {
    if e2 >= 0 {
        (DOUBLE_POW5_INV_SPLIT[q].1 + 1) as nat
    } else {
        DOUBLE_POW5_SPLIT[-e2 - q].1 as nat
    }
}

/// The number of bits dropped from the product with the factor that scales
/// by `10^-q`.
pub open spec fn float_shift(e2: int, q: int) -> int {
    if e2 >= 0 {
        -e2 + q + 61 + spec_pow5bits(q) - 1
    } else {
        q - (spec_pow5bits(-e2 - q) - 61)
    }
}

/// The integer part of `m * 2^e2 / 10^e10`: the value `m * 2^e2`, scaled to
/// decimal.
pub open spec fn float_scaled(m: nat, e2: int) -> nat {
    let q = float_q(e2);
    if e2 >= 0 {
        scale_down_by_pow10(m, (e2 - q) as nat, q as nat)
    } else {
        scale_up_by_pow10(m, (-e2 - q) as nat, q as nat)
    }
}

/// One more digit of the value than the scaling by `10^-q` keeps, where the
/// interval is so narrow that no digit may be left to remove: the last digit
/// of the product with the factor that stands for `10^-(q - 1)`.
pub open spec fn float_extra_digit(mv: nat, vm: nat, vp: nat, e2: int, q: int) -> nat {
    if q != 0 && (vp - 1) / 10 <= vm / 10 {
        (spec_mul_shift_32(mv, float_factor(e2, q - 1), float_shift(e2, q - 1) as nat)
            % 0x1_0000_0000) % 10
    } else {
        0
    }
}

/// The interval `[4 * m2 - 1 - mm_shift, 4 * m2 + 2]` around `4 * m2`, scaled
/// by `2^e2 / 10^q` for a binary exponent `e2 >= 0`.
pub open spec fn float_interval_up(m2: nat, mm_shift: nat, e2: int) -> ScaledInterval {
    let mv = 4 * m2;
    let mp = mv + 2;
    let mm = (mv - 1 - mm_shift) as nat;
    let accept_bounds = m2 % 2 == 0;
    let q = float_q(e2);
    let vp = float_scaled(mp, e2);
    let vm = float_scaled(mm, e2);
    let by_five = q <= 9 && mv % 5 == 0;
    let not_by_five = q <= 9 && mv % 5 != 0;
    ScaledInterval {
        vm,
        vr: float_scaled(mv, e2),
        vp: if not_by_five && !accept_bounds && is_multiple_of_pow5(mp, q as nat) {
            (vp - 1) as nat
        } else {
            vp
        },
        vm_is_trailing_zeros: not_by_five && accept_bounds && is_multiple_of_pow5(mm, q as nat),
        vr_is_trailing_zeros: by_five && is_multiple_of_pow5(mv, q as nat),
        accept_bounds,
        last_removed_digit: float_extra_digit(mv, vm, vp, e2, q),
    }
}

/// The interval `[4 * m2 - 1 - mm_shift, 4 * m2 + 2]` around `4 * m2`, scaled
/// by `5^(-e2 - q) / 2^q` for a binary exponent `e2 < 0`.
pub open spec fn float_interval_down(m2: nat, mm_shift: nat, e2: int) -> ScaledInterval {
    let mv = 4 * m2;
    let mp = mv + 2;
    let mm = (mv - 1 - mm_shift) as nat;
    let accept_bounds = m2 % 2 == 0;
    let q = float_q(e2);
    let vp = float_scaled(mp, e2);
    let vm = float_scaled(mm, e2);
    ScaledInterval {
        vm,
        vr: float_scaled(mv, e2),
        vp: if q <= 1 && !accept_bounds {
            (vp - 1) as nat
        } else {
            vp
        },
        vm_is_trailing_zeros: q <= 1 && accept_bounds && mm_shift == 1,
        vr_is_trailing_zeros: q <= 1 || (q < 31 && is_multiple_of_pow2(mv, (q - 1) as nat)),
        accept_bounds,
        last_removed_digit: float_extra_digit(mv, vm, vp, e2, q),
    }
}

/// The rounding interval of a finite, nonzero float, scaled to decimal.
pub open spec fn float_interval(ieee_mantissa: u32, ieee_exponent: u32) -> ScaledInterval {
    let e2 = float_e2(ieee_exponent);
    let m2 = float_m2(ieee_mantissa, ieee_exponent);
    let mm_shift = float_mm_shift(ieee_mantissa, ieee_exponent);
    if e2 >= 0 {
        float_interval_up(m2, mm_shift, e2)
    } else {
        float_interval_down(m2, mm_shift, e2)
    }
}

/// The shortest decimal of a finite, nonzero float, given by its mantissa and
/// exponent fields.
pub open spec fn spec_f2d(ieee_mantissa: u32, ieee_exponent: u32) -> DecimalValue {
    let s = float_interval(ieee_mantissa, ieee_exponent);
    DecimalValue {
        mantissa: shortest_mantissa(s),
        exponent: float_e10(float_e2(ieee_exponent)) + removed_digits(s),
    }
}

/// Multiplies `m` by `factor` and drops the `shift` lowest bits of the
/// product; the result is cut to 32 bits.
pub fn mul_shift_32(m: u32, factor: u64, shift: i32) -> (r: u32)
    requires
        32 <= shift < 96,
    ensures
        r == spec_mul_shift_32(m as nat, factor as nat, shift as nat) % 0x1_0000_0000,
{
    #[verifier::truncate]
    let factor_lo = factor as u32;
    #[verifier::truncate]
    let factor_hi = (factor >> 32) as u32;
    let ghost x = m as nat * factor as nat;
    proof {
        reveal(fixed_point_product);
        assert(factor as u32 == factor % 0x1_0000_0000) by (bit_vector);
        assert((factor >> 32) as u32 == factor / 0x1_0000_0000) by (bit_vector);
        assert(m * factor_lo <= 0xffff_ffff * 0xffff_ffff) by (nonlinear_arith)
            requires
                m <= 0xffff_ffff,
                factor_lo <= 0xffff_ffff,
        ;
        assert(m * factor_hi <= 0xffff_ffff * 0xffff_ffff) by (nonlinear_arith)
            requires
                m <= 0xffff_ffff,
                factor_hi <= 0xffff_ffff,
        ;
    }
    let bits0 = m as u64 * factor_lo as u64;
    let bits1 = m as u64 * factor_hi as u64;
    proof {
        lemma_u64_shr_is_div(bits0, 32);
        lemma2_to64();
        assert(x == bits0 + bits1 * 0x1_0000_0000) by (nonlinear_arith)
            requires
                x == m as nat * factor as nat,
                factor == factor_lo + factor_hi * 0x1_0000_0000,
                bits0 == m * factor_lo,
                bits1 == m * factor_hi,
        ;
    }
    let sum = (bits0 >> 32) + bits1;
    let shifted_sum = sum >> ((shift - 32) as u32);
    proof {
        lemma_u64_shr_is_div(sum, (shift - 32) as u64);
        lemma_pow2_pos((shift - 32) as nat);
        lemma_pow2_adds(32, (shift - 32) as nat);
        lemma_div_denominator(x as int, 0x1_0000_0000, pow2((shift - 32) as nat) as int);
        assert(shifted_sum as u32 == shifted_sum % 0x1_0000_0000) by (bit_vector);
    }
    #[verifier::truncate]
    (shifted_sum as u32)
}

/// Scales `m` by `10^-q` for a value with a binary exponent that is not
/// negative: multiplies by the reciprocal of `5^q` and drops `j` bits.
pub fn mul_pow5_inv_div_pow2(m: u32, q: u32, j: i32) -> (r: u32)
    requires
        q < 342,
        32 <= j < 96,
    ensures
        r == spec_mul_shift_32(m as nat, (DOUBLE_POW5_INV_SPLIT[q as int].1 + 1) as nat, j as nat)
            % 0x1_0000_0000,
{
    let factor = double_pow5_inv_split(q).1 + 1;
    mul_shift_32(m, factor, j)
}

/// Scales `m` by `10^q` for a value with a negative binary exponent:
/// multiplies by `5^i` and drops `j` bits.
pub fn mul_pow5_div_pow2(m: u32, i: u32, j: i32) -> (r: u32)
    requires
        i < 326,
        32 <= j < 96,
    ensures
        r == spec_mul_shift_32(m as nat, DOUBLE_POW5_SPLIT[i as int].1 as nat, j as nat)
            % 0x1_0000_0000,
{
    let factor = double_pow5_split(i).1;
    mul_shift_32(m, factor, j)
}

/// Tells whether `5^p` divides `value`, by repeated division.
pub fn multiple_of_power_of_5_32(value: u32, p: u32) -> (r: bool)
    requires
        value != 0,
    ensures
        r == is_multiple_of_pow5(value as nat, p as nat),
{
    let mut value = value;
    let ghost start = value;
    let mut count = 0u32;
    loop
        invariant_except_break
            value != 0,
            pow5_factor(start as nat) == count + pow5_factor(value as nat),
            count + value <= start,
        ensures
            pow5_factor(start as nat) == count,
        decreases value,
    {
        let q = value / 5;
        let r = value % 5;
        if r != 0 {
            break ;
        }
        value = q;
        count += 1;
    }
    proof {
        lemma_pow5_factor(start as nat, p as nat);
    }
    count >= p
}

/// Tells whether `2^p` divides `value`.
pub fn multiple_of_power_of_2_32(value: u32, p: u32) -> (r: bool)
    requires
        p < 32,
    ensures
        r == is_multiple_of_pow2(value as nat, p as nat),
{
    proof {
        reveal(is_multiple_of_pow2);
        lemma_pow2_pos(p as nat);
        lemma2_to64();
        if p < 31 {
            lemma_pow2_strictly_increases(p as nat, 31);
        }
        lemma_u32_shl_is_mul(1, p);
        lemma_u32_low_bits_mask_is_mod(value, p as nat);
    }
    (value & ((1u32 << p) - 1)) == 0
}

/// For every binary exponent of a finite float, the table indices and the
/// shifts stay in range, also those of the scaling that keeps one digit more.
pub proof fn lemma_float_shift_range(e2: int)
    requires
        -151 <= e2 <= 102,
    ensures
        e2 >= 0 ==> 0 <= float_q(e2) <= 30,
        e2 < 0 ==> 0 <= float_q(e2) <= 105 && 1 <= -e2 - float_q(e2) <= 46,
        e2 >= 0 ==> float_q(e2) <= e2,
        57 <= float_shift(e2, float_q(e2)) <= 61,
        float_q(e2) >= 1 ==> 54 <= float_shift(e2, float_q(e2) - 1) <= 57,
        -46 <= float_e10(e2) <= 30,
{
    reveal(spec_pow5bits);
    reveal(spec_log10_pow2);
    reveal(spec_log10_pow5);
}

/// Scaling keeps the order.
pub proof fn lemma_scaled_ordered_32(m: nat, n: nat, factor: nat, j: nat)
    requires
        m <= n,
    ensures
        spec_mul_shift_32(m, factor, j) <= spec_mul_shift_32(n, factor, j),
{
    reveal(fixed_point_product);
    lemma_pow2_pos(j);
    assert(m * factor <= n * factor) by (nonlinear_arith)
        requires
            m <= n,
    ;
    lemma_div_is_ordered((m * factor) as int, (n * factor) as int, pow2(j) as int);
}

/// The three scaled values of an interval are ordered, positive and below
/// `2^31`.
pub proof fn lemma_scaled_bounds_32(mm: nat, mv: nat, mp: nat, factor: nat, j: nat)
    requires
        2 <= mm <= mv <= mp < 0x400_0000,
        0x1000_0000_0000_0000 <= factor <= 0x2000_0000_0000_0001,
        57 <= j <= 61,
    ensures
        1 <= spec_mul_shift_32(mm, factor, j) <= spec_mul_shift_32(mv, factor, j)
            <= spec_mul_shift_32(mp, factor, j) < 0x8000_0000,
{
    lemma_scaled_ordered_32(mm, mv, factor, j);
    lemma_scaled_ordered_32(mv, mp, factor, j);
    reveal(fixed_point_product);
    lemma2_to64();
    lemma2_to64_rest();
    if j > 57 {
        lemma_pow2_strictly_increases(57, j);
    }
    if j < 61 {
        lemma_pow2_strictly_increases(j, 61);
    }
    lemma_pow2_pos(j);
    let x = mp * factor;
    assert(x < 0x400_0000 * 0x2000_0000_0000_0001) by (nonlinear_arith)
        requires
            x == mp * factor,
            mp < 0x400_0000,
            factor <= 0x2000_0000_0000_0001,
    ;
    lemma_div_is_ordered_by_denominator(x as int, pow2(57) as int, pow2(j) as int);
    let y = mm * factor;
    assert(y >= 0x2000_0000_0000_0000) by (nonlinear_arith)
        requires
            y == mm * factor,
            mm >= 2,
            factor >= 0x1000_0000_0000_0000,
    ;
    lemma_div_is_ordered(pow2(j) as int, y as int, pow2(j) as int);
    lemma_div_basics(pow2(j) as int);
}

/// The scaled interval of a float as the conversion holds it.
pub struct ScaledInterval32 {
    pub vm: u32,
    pub vr: u32,
    pub vp: u32,
    pub vm_is_trailing_zeros: bool,
    pub vr_is_trailing_zeros: bool,
    pub accept_bounds: bool,
    pub last_removed_digit: u8,
}

impl View for ScaledInterval32 {
    type V = ScaledInterval;

    open spec fn view(&self) -> ScaledInterval {
        ScaledInterval {
            vm: self.vm as nat,
            vr: self.vr as nat,
            vp: self.vp as nat,
            vm_is_trailing_zeros: self.vm_is_trailing_zeros,
            vr_is_trailing_zeros: self.vr_is_trailing_zeros,
            accept_bounds: self.accept_bounds,
            last_removed_digit: self.last_removed_digit as nat,
        }
    }
}

/// Scales the interval of a value with binary exponent `e2 >= 0` by a
/// reciprocal of a power of five, and finds out which of its values were
/// scaled without remainder.
pub fn scale_up_32(m2: u32, mm_shift: u32, e2: i32) -> (r: (ScaledInterval32, i32))
    requires
        1 <= m2 < 0x100_0000,
        mm_shift <= 1,
        0 <= e2 <= 102,
    ensures
        r.0@ == float_interval_up(m2 as nat, mm_shift as nat, e2 as int),
        r.1 == float_e10(e2 as int),
        1 <= r.0.vm <= r.0.vr < 0x8000_0000,
        r.0.vp < 0x8000_0000,
{
    assert((m2 & 1) == m2 % 2) by (bit_vector);
    let accept_bounds = (m2 & 1) == 0;
    let mv = 4 * m2;
    let mp = 4 * m2 + 2;
    let mm = 4 * m2 - 1 - mm_shift;
    let mut vm_is_trailing_zeros = false;
    let mut vr_is_trailing_zeros = false;
    let mut last_removed_digit = 0u8;
    proof {
        lemma_float_shift_range(e2 as int);
        lemma_table_bounds();
    }
    let q = log10_pow2(e2);
    let k = FLOAT_POW5_INV_BITCOUNT + pow5bits(q as i32) - 1;
    let i = -e2 + q as i32 + k;
    proof {
        lemma_scaled_bounds_32(
            mm as nat,
            mv as nat,
            mp as nat,
            float_factor(e2 as int, q as int),
            i as nat,
        );
        lemma_float_scaling_exact(mm as nat, e2 as int);
        lemma_float_scaling_exact(mv as nat, e2 as int);
        lemma_float_scaling_exact(mp as nat, e2 as int);
    }
    let vr = mul_pow5_inv_div_pow2(mv, q, i);
    let mut vp = mul_pow5_inv_div_pow2(mp, q, i);
    let vm = mul_pow5_inv_div_pow2(mm, q, i);
    if q != 0 && (vp - 1) / 10 <= vm / 10 {
        let l = FLOAT_POW5_INV_BITCOUNT + pow5bits(q as i32 - 1) - 1;
        last_removed_digit = (mul_pow5_inv_div_pow2(mv, q - 1, -e2 + q as i32 - 1 + l) % 10) as u8;
    }
    if q <= 9 {
        if mv % 5 == 0 {
            vr_is_trailing_zeros = multiple_of_power_of_5_32(mv, q);
        } else if accept_bounds {
            vm_is_trailing_zeros = multiple_of_power_of_5_32(mm, q);
        } else if multiple_of_power_of_5_32(mp, q) {
            vp -= 1;
        }
    }
    (
        ScaledInterval32 {
            vm,
            vr,
            vp,
            vm_is_trailing_zeros,
            vr_is_trailing_zeros,
            accept_bounds,
            last_removed_digit,
        },
        q as i32,
    )
}

/// Scales the interval of a value with binary exponent `e2 < 0` by a power of
/// five, and finds out which of its values were scaled without remainder.
pub fn scale_down_32(m2: u32, mm_shift: u32, e2: i32) -> (r: (ScaledInterval32, i32))
    requires
        1 <= m2 < 0x100_0000,
        mm_shift <= 1,
        -151 <= e2 < 0,
    ensures
        r.0@ == float_interval_down(m2 as nat, mm_shift as nat, e2 as int),
        r.1 == float_e10(e2 as int),
        1 <= r.0.vm <= r.0.vr < 0x8000_0000,
        r.0.vp < 0x8000_0000,
{
    assert((m2 & 1) == m2 % 2) by (bit_vector);
    let accept_bounds = (m2 & 1) == 0;
    let mv = 4 * m2;
    let mp = 4 * m2 + 2;
    let mm = 4 * m2 - 1 - mm_shift;
    let mut vm_is_trailing_zeros = false;
    let mut vr_is_trailing_zeros = false;
    let mut last_removed_digit = 0u8;
    proof {
        lemma_float_shift_range(e2 as int);
        lemma_table_bounds();
    }
    let q = log10_pow5(-e2);
    let i = -e2 - q as i32;
    let k = pow5bits(i) - FLOAT_POW5_BITCOUNT;
    let mut j = q as i32 - k;
    proof {
        lemma_scaled_bounds_32(
            mm as nat,
            mv as nat,
            mp as nat,
            float_factor(e2 as int, q as int),
            j as nat,
        );
        lemma_float_scaling_exact(mm as nat, e2 as int);
        lemma_float_scaling_exact(mv as nat, e2 as int);
        lemma_float_scaling_exact(mp as nat, e2 as int);
    }
    let vr = mul_pow5_div_pow2(mv, i as u32, j);
    let mut vp = mul_pow5_div_pow2(mp, i as u32, j);
    let vm = mul_pow5_div_pow2(mm, i as u32, j);
    if q != 0 && (vp - 1) / 10 <= vm / 10 {
        j = q as i32 - 1 - (pow5bits(i + 1) - FLOAT_POW5_BITCOUNT);
        last_removed_digit = (mul_pow5_div_pow2(mv, (i + 1) as u32, j) % 10) as u8;
    }
    if q <= 1 {
        vr_is_trailing_zeros = true;
        if accept_bounds {
            vm_is_trailing_zeros = mm_shift == 1;
        } else {
            vp -= 1;
        }
    } else if q < 31 {
        vr_is_trailing_zeros = multiple_of_power_of_2_32(mv, q - 1);
    }
    (
        ScaledInterval32 {
            vm,
            vr,
            vp,
            vm_is_trailing_zeros,
            vr_is_trailing_zeros,
            accept_bounds,
            last_removed_digit,
        },
        q as i32 + e2,
    )
}

/// Decomposes a finite, nonzero float and scales its rounding interval to
/// decimal; returns the interval and its decimal exponent.
pub fn scale_interval_32(ieee_mantissa: u32, ieee_exponent: u32) -> (r: (ScaledInterval32, i32))
    requires
        ieee_mantissa < 0x80_0000,
        ieee_exponent < 255,
        ieee_mantissa != 0 || ieee_exponent != 0,
    ensures
        r.0@ == float_interval(ieee_mantissa, ieee_exponent),
        r.1 == float_e10(float_e2(ieee_exponent)),
        1 <= r.0.vm <= r.0.vr < 0x8000_0000,
        r.0.vp < 0x8000_0000,
{
    let (e2, m2): (i32, u32) = if ieee_exponent == 0 {
        (1 - FLOAT_BIAS - FLOAT_MANTISSA_BITS as i32 - 2, ieee_mantissa)
    } else {
        assert(((1u32 << 23) | ieee_mantissa) == 0x80_0000 + ieee_mantissa) by (bit_vector)
            requires
                ieee_mantissa < 0x80_0000,
        ;
        (
            ieee_exponent as i32 - FLOAT_BIAS - FLOAT_MANTISSA_BITS as i32 - 2,
            (1u32 << FLOAT_MANTISSA_BITS) | ieee_mantissa,
        )
    };
    let mm_shift: u32 = if ieee_mantissa != 0 || ieee_exponent <= 1 {
        1
    } else {
        0
    };
    if e2 >= 0 {
        scale_up_32(m2, mm_shift, e2)
    } else {
        scale_down_32(m2, mm_shift, e2)
    }
}

/// Removes from a scaled interval the digits that the shortest decimal does
/// not need and rounds what is left; returns the mantissa and the number of
/// digits removed.
pub fn shorten_32(s: ScaledInterval32) -> (r: (u32, i32))
    requires
        1 <= s.vm,
        s.vr < 0xffff_ffff,
    ensures
        r.0 == shortest_mantissa(s@),
        r.1 == removed_digits(s@),
        0 <= r.1 <= 19,
{
    let ghost s0 = s@;
    let mut vm = s.vm;
    let mut vr = s.vr;
    let mut vp = s.vp;
    let mut vm_is_trailing_zeros = s.vm_is_trailing_zeros;
    let mut vr_is_trailing_zeros = s.vr_is_trailing_zeros;
    let accept_bounds = s.accept_bounds;
    let mut removed = 0i32;
    let mut last_removed_digit = s.last_removed_digit;
    proof {
        lemma_drop_none(s0.vm);
        lemma_drop_none(s0.vr);
        lemma_drop_none(s0.vp);
    }
    if vm_is_trailing_zeros || vr_is_trailing_zeros {
        while vp / 10 > vm / 10
            invariant
                0 <= removed <= 19,
                vm == drop_digits(s0.vm, removed as nat),
                vr == drop_digits(s0.vr, removed as nat),
                vp == drop_digits(s0.vp, removed as nat),
                vr <= s0.vr < 0xffff_ffff,
                common_removals(s0.vm, s0.vp) == removed + common_removals(vm as nat, vp as nat),
                vm_is_trailing_zeros == (s0.vm_is_trailing_zeros && ends_in_zeros(
                    s0.vm,
                    removed as nat,
                )),
                vr_is_trailing_zeros == value_stays_exact(s0, removed as nat),
                last_removed_digit == last_digit(s0, removed as nat),
                s0.vp <= 0xffff_ffff,
            decreases vp,
        {
            proof {
                let r = removed as nat;
                lemma_drop_succ(s0.vm, r);
                lemma_drop_succ(s0.vr, r);
                lemma_drop_succ(s0.vp, r);
                if r >= 1 {
                    lemma_drop_succ(s0.vr, (r - 1) as nat);
                } else {
                    lemma_drop_none(s0.vr);
                }
                lemma_drop_at_least_ten(s0.vp, r);
                lemma_pow10_bounds_removed(r + 1, s0.vp);
            }
            vm_is_trailing_zeros = vm_is_trailing_zeros && vm - (vm / 10) * 10 == 0;
            vr_is_trailing_zeros = vr_is_trailing_zeros && last_removed_digit == 0;
            last_removed_digit = (vr % 10) as u8;
            vr = vr / 10;
            vp = vp / 10;
            vm = vm / 10;
            removed += 1;
        }
        let ghost common = removed as nat;
        proof {
            if vm_is_trailing_zeros {
                lemma_drop_zeros_positive(s0.vm, common);
            }
        }
        if vm_is_trailing_zeros {
            while vm % 10 == 0
                invariant
                    common <= removed <= 19,
                    1 <= vm,
                    vm == drop_digits(s0.vm, removed as nat),
                    vr == drop_digits(s0.vr, removed as nat),
                    vr <= s0.vr < 0xffff_ffff,
                    trailing_zeros(drop_digits(s0.vm, common)) == (removed - common)
                        + trailing_zeros(vm as nat),
                    vr_is_trailing_zeros == value_stays_exact(s0, removed as nat),
                    last_removed_digit == last_digit(s0, removed as nat),
                    s0.vm <= 0xffff_ffff,
                decreases vm,
            {
                proof {
                    let r = removed as nat;
                    lemma_drop_succ(s0.vm, r);
                    lemma_drop_succ(s0.vr, r);
                    if r >= 1 {
                        lemma_drop_succ(s0.vr, (r - 1) as nat);
                    } else {
                        lemma_drop_none(s0.vr);
                    }
                    lemma_drop_at_least_ten(s0.vm, r);
                    lemma_pow10_bounds_removed(r + 1, s0.vm);
                }
                vr_is_trailing_zeros = vr_is_trailing_zeros && last_removed_digit == 0;
                last_removed_digit = (vr % 10) as u8;
                vr = vr / 10;
                vp = vp / 10;
                vm = vm / 10;
                removed += 1;
            }
        }
        if vr_is_trailing_zeros && last_removed_digit == 5 && vr % 2 == 0 {
            last_removed_digit = 4;
        }
        let round_up = (vr == vm && (!accept_bounds || !vm_is_trailing_zeros))
            || last_removed_digit >= 5;
        (
            vr + if round_up {
                1
            } else {
                0
            },
            removed,
        )
    } else {
        while vp / 10 > vm / 10
            invariant
                0 <= removed <= 19,
                vm == drop_digits(s0.vm, removed as nat),
                vr == drop_digits(s0.vr, removed as nat),
                vp == drop_digits(s0.vp, removed as nat),
                vr <= s0.vr < 0xffff_ffff,
                common_removals(s0.vm, s0.vp) == removed + common_removals(vm as nat, vp as nat),
                last_removed_digit == last_digit(s0, removed as nat),
                s0.vp <= 0xffff_ffff,
            decreases vp,
        {
            proof {
                let r = removed as nat;
                lemma_drop_succ(s0.vm, r);
                lemma_drop_succ(s0.vr, r);
                lemma_drop_succ(s0.vp, r);
                lemma_drop_at_least_ten(s0.vp, r);
                lemma_pow10_bounds_removed(r + 1, s0.vp);
            }
            last_removed_digit = (vr % 10) as u8;
            vr = vr / 10;
            vp = vp / 10;
            vm = vm / 10;
            removed += 1;
        }
        (
            vr + if vr == vm || last_removed_digit >= 5 {
                1
            } else {
                0
            },
            removed,
        )
    }
}

/// The shortest decimal of a float has at most nine digits, and it is not
/// zero.
pub proof fn lemma_f2d_bounds(ieee_mantissa: u32, ieee_exponent: u32)
    requires
        ieee_mantissa < 0x80_0000,
        ieee_exponent < 255,
        ieee_mantissa != 0 || ieee_exponent != 0,
    ensures
        0 < spec_f2d(ieee_mantissa, ieee_exponent).mantissa < 1_000_000_000,
        -46 <= spec_f2d(ieee_mantissa, ieee_exponent).exponent <= 39,
{
    let e2 = float_e2(ieee_exponent);
    let m2 = float_m2(ieee_mantissa, ieee_exponent);
    let mm_shift = float_mm_shift(ieee_mantissa, ieee_exponent);
    let mv = 4 * m2;
    let mp = mv + 2;
    let mm = (mv - 1 - mm_shift) as nat;
    let q = float_q(e2);
    let factor = float_factor(e2, q);
    let shift = float_shift(e2, q) as nat;
    let s = float_interval(ieee_mantissa, ieee_exponent);
    lemma_float_shift_range(e2);
    lemma_table_bounds();
    lemma_scaled_bounds_32(mm, mv, mp, factor, shift);
    lemma_pow2_pos(shift);
    lemma_float_scaling_exact(mm, e2);
    lemma_float_scaling_exact(mv, e2);
    lemma_float_scaling_exact(mp, e2);
    assert(s.vm == (mm * factor) / pow2(shift) && s.vr == (mv * factor) / pow2(shift) && (s.vp
        == (mp * factor) / pow2(shift) || s.vp + 1 == (mp * factor) / pow2(shift))) by {
        reveal(fixed_point_product);
    }
    lemma_shortest_bounds(s, mm, mv, mp, factor, pow2(shift));
    lemma_removed_digits_bound(s);
    if removed_digits(s) >= 10 {
        lemma_pow10_increases(10, removed_digits(s));
        lemma_pow10_values();
    }
    let out = shortest_mantissa(s);
    if mm_shift == 1 {
        assert(out - 1 < 11 * m2) by (nonlinear_arith)
            requires
                (out - 1) * (mp - mm) < 11 * mv,
                mp - mm == 4,
                mv == 4 * m2,
        ;
    } else {
        assert(out - 1 < 11 * 0x100_0000) by (nonlinear_arith)
            requires
                (out - 1) * (mp - mm) < 11 * mv,
                mp - mm == 3,
                mv == 0x200_0000,
        ;
    }
}

/// Computes the shortest decimal that reads back as the finite, nonzero float
/// with the given mantissa and exponent fields.
pub fn f2d(ieee_mantissa: u32, ieee_exponent: u32) -> (r: FloatingDecimal32)
    requires
        ieee_mantissa < 0x80_0000,
        ieee_exponent < 255,
        ieee_mantissa != 0 || ieee_exponent != 0,
    ensures
        r@ == spec_f2d(ieee_mantissa, ieee_exponent),
        0 < r.mantissa < 1_000_000_000,
        -46 <= r.exponent <= 39,
        reads_back_as_float(ieee_mantissa, ieee_exponent, r@.mantissa, r@.exponent),
{
    let (scaled, e10) = scale_interval_32(ieee_mantissa, ieee_exponent);
    let (output, removed) = shorten_32(scaled);
    proof {
        lemma_float_round_trip(ieee_mantissa, ieee_exponent);
        lemma_f2d_bounds(ieee_mantissa, ieee_exponent);
        lemma_float_shift_range(float_e2(ieee_exponent));
    }
    let exp = e10 + removed;
    FloatingDecimal32 { exponent: exp, mantissa: output }
}

} // verus!
