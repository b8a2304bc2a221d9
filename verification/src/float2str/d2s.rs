//! The shortest decimal of a double-precision value.

use vstd::prelude::*;
use vstd::arithmetic::div_mod::{
    lemma_div_basics, lemma_div_denominator, lemma_div_is_ordered,
    lemma_div_is_ordered_by_denominator,
};
use vstd::arithmetic::power2::{
    pow2, lemma2_to64, lemma2_to64_rest, lemma_pow2_adds, lemma_pow2_pos,
    lemma_pow2_strictly_increases, lemma_pow2_unfold,
};
use vstd::bits::{lemma_u128_shr_is_div, lemma_u64_low_bits_mask_is_mod, lemma_u64_shl_is_mul};
use crate::float2str::common::{
    decimal_length, is_multiple_of_pow2, is_multiple_of_pow5, log10_pow2, log10_pow5, pow5_factor,
    pow5bits, spec_log10_pow2, spec_log10_pow5, spec_pow5bits, lemma_pow5_factor,
};
use crate::float2str::exact::{fixed_point_product, scale_down_by_pow10, scale_up_by_pow10};
use crate::float2str::exact_double::lemma_double_scaling_exact;
use crate::float2str::reads_back::{reads_back_as_double, lemma_double_round_trip};
use crate::float2str::shortest::{
    common_removals, drop_digits, ends_in_zeros, last_digit, pow10, removed_digits,
    shortest_mantissa, trailing_zeros, value_stays_exact, DecimalValue, ScaledInterval,
    lemma_drop_at_least_ten, lemma_drop_none, lemma_drop_succ, lemma_drop_zeros_positive,
    lemma_pow10_bounds_removed, lemma_removed_digits_bound, lemma_shortest_bounds,
};
use crate::float2str::table_proofs::{is_pow5_entry, is_pow5_inv_entry, lemma_table_entry};
use crate::float2str::tables::{
    wide, DOUBLE_POW5_BITCOUNT, DOUBLE_POW5_INV_BITCOUNT, DOUBLE_POW5_INV_SPLIT,
    DOUBLE_POW5_SPLIT,
};

verus! {

pub const DOUBLE_MANTISSA_BITS: u32 = 52;

pub const DOUBLE_EXPONENT_BITS: u32 = 11;

pub const DOUBLE_BIAS: i32 = 1023;

/// The shortest decimal that reads back as one double-precision value.
pub struct FloatingDecimal64 {
    pub mantissa: u64,
    pub exponent: i32,
}

impl View for FloatingDecimal64 {
    type V = DecimalValue;

    open spec fn view(&self) -> DecimalValue {
        DecimalValue { mantissa: self.mantissa as nat, exponent: self.exponent as int }
    }
}

/// `floor(m * mul / 2^j)` for a 128-bit multiplier `mul = (low, high)`.
pub open spec fn spec_mul_shift(m: nat, mul: (u64, u64), j: nat) -> nat {
    fixed_point_product(m, wide(mul), j)
}

/// The binary exponent of a double, less the two bits that the interval
/// bounds need.
pub open spec fn double_e2(ieee_exponent: u32) -> int {
    if ieee_exponent == 0 {
        1 - 1023 - 52 - 2
    } else {
        ieee_exponent - 1023 - 52 - 2
    }
}

/// The binary mantissa of a double, with its implicit bit.
pub open spec fn double_m2(ieee_mantissa: u64, ieee_exponent: u32) -> nat {
    if ieee_exponent == 0 {
        ieee_mantissa as nat
    } else {
        (0x10_0000_0000_0000 + ieee_mantissa) as nat
    }
}

/// One, unless the value is the smallest of its binade, where the interval
/// below it is half as wide.
pub open spec fn double_mm_shift(ieee_mantissa: u64, ieee_exponent: u32) -> nat {
    if ieee_mantissa != 0 || ieee_exponent <= 1 {
        1
    } else {
        0
    }
}

/// The number of decimal digits that scaling takes off (for `e2 >= 0`) or
/// adds (for `e2 < 0`).
pub open spec fn double_q(e2: int) -> int {
    if e2 >= 0 {
        spec_log10_pow2(e2) - if e2 > 3 { 1int } else { 0 }
    } else {
        spec_log10_pow5(-e2) - if -e2 > 1 { 1int } else { 0 }
    }
}

/// The decimal exponent of the scaled interval.
pub open spec fn double_e10(e2: int) -> int {
    if e2 >= 0 {
        double_q(e2)
    } else {
        double_q(e2) + e2
    }
}

/// The table entry by which the interval is scaled.
pub open spec fn double_multiplier(e2: int) -> (u64, u64) {
    if e2 >= 0 {
        DOUBLE_POW5_INV_SPLIT[double_q(e2)]
    } else {
        DOUBLE_POW5_SPLIT[-e2 - double_q(e2)]
    }
}

/// The number of bits dropped from the product with the table entry.
pub open spec fn double_shift(e2: int) -> int {
    let q = double_q(e2);
    if e2 >= 0 {
        -e2 + q + 125 + spec_pow5bits(q) - 1
    } else {
        q - (spec_pow5bits(-e2 - q) - 125)
    }
}

/// The integer part of `m * 2^e2 / 10^e10`: the value `m * 2^e2`, scaled to
/// decimal.
pub open spec fn double_scaled(m: nat, e2: int) -> nat {
    let q = double_q(e2);
    if e2 >= 0 {
        scale_down_by_pow10(m, (e2 - q) as nat, q as nat)
    } else {
        scale_up_by_pow10(m, (-e2 - q) as nat, q as nat)
    }
}

/// The interval `[4 * m2 - 1 - mm_shift, 4 * m2 + 2]` around `4 * m2`, scaled
/// by `2^e2 / 10^q` for a binary exponent `e2 >= 0`, with the marks of the
/// values that were scaled without remainder as far as the conversion looks
/// for them.
pub open spec fn double_interval_up(m2: nat, mm_shift: nat, e2: int) -> ScaledInterval {
    let mv = 4 * m2;
    let mp = mv + 2;
    let mm = (mv - 1 - mm_shift) as nat;
    let accept_bounds = m2 % 2 == 0;
    let q = double_q(e2) as nat;
    let vp = double_scaled(mp, e2);
    let by_five = q <= 21 && mv % 5 == 0;
    let not_by_five = q <= 21 && mv % 5 != 0;
    ScaledInterval {
        vm: double_scaled(mm, e2),
        vr: double_scaled(mv, e2),
        vp: if not_by_five && !accept_bounds && is_multiple_of_pow5(mp, q) {
            (vp - 1) as nat
        } else {
            vp
        },
        vm_is_trailing_zeros: not_by_five && accept_bounds && is_multiple_of_pow5(mm, q),
        vr_is_trailing_zeros: by_five && is_multiple_of_pow5(mv, q),
        accept_bounds,
        last_removed_digit: 0,
    }
}

/// The interval `[4 * m2 - 1 - mm_shift, 4 * m2 + 2]` around `4 * m2`, scaled
/// by `5^(-e2 - q) / 2^q` for a binary exponent `e2 < 0`, with the marks of
/// the values that were scaled without remainder as far as the conversion
/// looks for them.
pub open spec fn double_interval_down(m2: nat, mm_shift: nat, e2: int) -> ScaledInterval {
    let mv = 4 * m2;
    let mp = mv + 2;
    let mm = (mv - 1 - mm_shift) as nat;
    let accept_bounds = m2 % 2 == 0;
    let q = double_q(e2) as nat;
    let vp = double_scaled(mp, e2);
    ScaledInterval {
        vm: double_scaled(mm, e2),
        vr: double_scaled(mv, e2),
        vp: if q <= 1 && !accept_bounds {
            (vp - 1) as nat
        } else {
            vp
        },
        vm_is_trailing_zeros: q <= 1 && accept_bounds && mm_shift == 1,
        vr_is_trailing_zeros: q <= 1 || (q < 63 && is_multiple_of_pow2(mv, q)),
        accept_bounds,
        last_removed_digit: 0,
    }
}

/// The rounding interval of a finite, nonzero double, scaled to decimal.
pub open spec fn double_interval(ieee_mantissa: u64, ieee_exponent: u32) -> ScaledInterval {
    let e2 = double_e2(ieee_exponent);
    let m2 = double_m2(ieee_mantissa, ieee_exponent);
    let mm_shift = double_mm_shift(ieee_mantissa, ieee_exponent);
    if e2 >= 0 {
        double_interval_up(m2, mm_shift, e2)
    } else {
        double_interval_down(m2, mm_shift, e2)
    }
}

/// The shortest decimal of a finite, nonzero double, given by its mantissa
/// and exponent fields.
pub open spec fn spec_d2d(ieee_mantissa: u64, ieee_exponent: u32) -> DecimalValue {
    let s = double_interval(ieee_mantissa, ieee_exponent);
    DecimalValue {
        mantissa: shortest_mantissa(s),
        exponent: double_e10(double_e2(ieee_exponent)) + removed_digits(s),
    }
}

/// Counts the decimal digits of a value below `10^17`; anything larger counts
/// as seventeen digits.
pub fn decimal_length17(v: u64) -> (r: isize)
    ensures
        1 <= r <= 17,
        r == if v >= 10_000_000_000_000_000 {
            17
        } else {
            decimal_length(v as nat) as int
        },
        v < 100_000_000_000_000_000 ==> r == decimal_length(v as nat),
{
    proof {
        reveal_with_fuel(decimal_length, 18);
    }
    if v < 10 {
        1
    } else if v < 100 {
        2
    } else if v < 1000 {
        3
    } else if v < 10000 {
        4
    } else if v < 100000 {
        5
    } else if v < 1000000 {
        6
    } else if v < 10000000 {
        7
    } else if v < 100000000 {
        8
    } else if v < 1000000000 {
        9
    } else if v < 10000000000 {
        10
    } else if v < 100000000000 {
        11
    } else if v < 1000000000000 {
        12
    } else if v < 10000000000000 {
        13
    } else if v < 100000000000000 {
        14
    } else if v < 1000000000000000 {
        15
    } else if v < 10000000000000000 {
        16
    } else {
        17
    }
}

/// Multiplying by the inverse of five modulo `2^64` divides a multiple of
/// five by five, and takes every other value above `(2^64 - 1) / 5`.
pub proof fn lemma_divide_by_five(value: u64)
    ensures
        value % 5 == 0 ==> u64::wrapping_mul(value, 14757395258967641293) == value / 5,
        value % 5 != 0 ==> u64::wrapping_mul(value, 14757395258967641293) > 3689348814741910323,
{
    // 5 * 14757395258967641293 == 4 * 2^64 + 1
    let x = value as int * 14757395258967641293;
    let next = u64::wrapping_mul(value, 14757395258967641293);
    assert(next == x % 0x1_0000_0000_0000_0000);
    let c = x / 0x1_0000_0000_0000_0000;
    assert(x == 0x1_0000_0000_0000_0000 * c + next);
    assert(value - 5 * next == 0x1_0000_0000_0000_0000 * (5 * c - 4 * value));
    if value % 5 == 0 {
        let t = value as int / 5;
        assert(t - next == 0x1_0000_0000_0000_0000 * (c - 4 * t));
    } else if next <= 3689348814741910323 {
        assert(5 * c - 4 * value == 0);
    }
}

/// Tells whether `5^p` divides `value`, dividing by five through a
/// multiplication with the inverse of five modulo `2^64`.
pub fn multiple_of_power_of_5(value: u64, p: u32) -> (r: bool)
    requires
        value != 0,
    ensures
        r == is_multiple_of_pow5(value as nat, p as nat),
{
    let mut value = value;
    let ghost start = value;
    let mut count = 0u32;
    proof {
        lemma2_to64();
    }
    loop
        invariant_except_break
            value != 0,
            pow5_factor(start as nat) == count + pow5_factor(value as nat),
            count <= 63,
            value < pow2((64 - count) as nat),
        ensures
            pow5_factor(start as nat) == count,
        decreases value,
    {
        let next = value.wrapping_mul(14757395258967641293);
        proof {
            lemma_divide_by_five(value);
        }
        if next > 3689348814741910323 {
            break ;
        }
        proof {
            lemma2_to64();
            if count < 63 {
                lemma_pow2_unfold((64 - count) as nat);
            }
        }
        value = next;
        count += 1;
    }
    proof {
        lemma_pow5_factor(start as nat, p as nat);
    }
    count >= p
}

/// Multiplies `m` by the 128-bit value `mul` and drops the `j` lowest bits of
/// the product; the result is cut to 64 bits.
pub fn mul_shift_64(m: u64, mul: &(u64, u64), j: u32) -> (r: u64)
    requires
        64 <= j < 192,
    ensures
        r == spec_mul_shift(m as nat, *mul, j as nat) % 0x1_0000_0000_0000_0000,
{
    let ghost x = m as nat * wide(*mul);
    proof {
        reveal(fixed_point_product);
    }
    assert(m * mul.0 <= 0xffff_ffff_ffff_ffff * 0xffff_ffff_ffff_ffff) by (nonlinear_arith)
        requires
            m <= 0xffff_ffff_ffff_ffff,
            mul.0 <= 0xffff_ffff_ffff_ffff,
    ;
    assert(m * mul.1 <= 0xffff_ffff_ffff_ffff * 0xffff_ffff_ffff_ffff) by (nonlinear_arith)
        requires
            m <= 0xffff_ffff_ffff_ffff,
            mul.1 <= 0xffff_ffff_ffff_ffff,
    ;
    let b0: u128 = m as u128 * mul.0 as u128;
    let b2: u128 = m as u128 * mul.1 as u128;
    proof {
        lemma_u128_shr_is_div(b0, 64);
        lemma2_to64();
        assert(x == b0 + b2 * 0x1_0000_0000_0000_0000) by (nonlinear_arith)
            requires
                x == m as nat * (mul.0 as nat + mul.1 as nat * 0x1_0000_0000_0000_0000),
                b0 == m * mul.0,
                b2 == m * mul.1,
        ;
    }
    let s: u128 = (b0 >> 64) + b2;
    let t: u128 = s >> (j - 64);
    proof {
        lemma_u128_shr_is_div(s, (j - 64) as u128);
        lemma_pow2_pos((j - 64) as nat);
        lemma_pow2_adds(64, (j - 64) as nat);
        lemma_div_denominator(x as int, 0x1_0000_0000_0000_0000, pow2((j - 64) as nat) as int);
        assert(t as u64 == t % 0x1_0000_0000_0000_0000) by (bit_vector);
    }
    #[verifier::truncate]
    (t as u64)
}

/// Scales the value `4 * m` and both bounds of its interval, `4 * m + 2` and
/// `4 * m - 1 - mm_shift`, in one go.
pub fn mul_shift_all_64(
    m: u64,
    mul: &(u64, u64),
    j: u32,
    vp: &mut u64,
    vm: &mut u64,
    mm_shift: u32,
) -> (vr: u64)
    requires
        64 <= j < 192,
        1 <= m < 0x4000_0000_0000_0000,
        mm_shift <= 1,
    ensures
        vr == spec_mul_shift(4 * m as nat, *mul, j as nat) % 0x1_0000_0000_0000_0000,
        *final(vp) == spec_mul_shift((4 * m + 2) as nat, *mul, j as nat)
            % 0x1_0000_0000_0000_0000,
        *final(vm) == spec_mul_shift((4 * m - 1 - mm_shift) as nat, *mul, j as nat)
            % 0x1_0000_0000_0000_0000,
{
    *vp = mul_shift_64(4 * m + 2, mul, j);
    *vm = mul_shift_64(4 * m - 1 - mm_shift as u64, mul, j);
    mul_shift_64(4 * m, mul, j)
}

/// Every table entry lies between `2^124` and `2^125 + 2^64`.
pub proof fn lemma_table_bounds()
    ensures
        forall|q: int|
            0 <= q < 342 ==> 0x1000_0000_0000_0000 <= (#[trigger] DOUBLE_POW5_INV_SPLIT[q]).1
                <= 0x2000_0000_0000_0000,
        forall|i: int|
            0 <= i < 326 ==> 0x1000_0000_0000_0000 <= (#[trigger] DOUBLE_POW5_SPLIT[i]).1
                < 0x2000_0000_0000_0000,
{
}

/// For every binary exponent of a finite double, the table index and the
/// shift stay in range.
pub proof fn lemma_double_shift_range(e2: int)
    requires
        -1076 <= e2 <= 969,
    ensures
        e2 >= 0 ==> 0 <= double_q(e2) <= 290 && double_q(e2) <= e2,
        e2 < 0 ==> 0 <= double_q(e2) <= 751 && 1 <= -e2 - double_q(e2) <= 325,
        118 <= double_shift(e2) <= 125,
        -325 <= double_e10(e2) <= 290,
{
    reveal(spec_pow5bits);
    reveal(spec_log10_pow2);
    reveal(spec_log10_pow5);
}

/// With a multiplier and a shift in the range of the tables, a scaled value
/// of at most 55 bits fits in 63 bits.
pub proof fn lemma_scaled_fits(m: nat, mul: (u64, u64), j: nat)
    requires
        m < 0x80_0000_0000_0000,
        mul.1 <= 0x2000_0000_0000_0000,
        118 <= j,
    ensures
        spec_mul_shift(m, mul, j) < 0x8000_0000_0000_0000,
{
    reveal(fixed_point_product);
    lemma2_to64();
    lemma2_to64_rest();
    lemma_pow2_adds(64, 54);
    assert(pow2(118) == 0x40_0000_0000_0000_0000_0000_0000_0000);
    if j > 118 {
        lemma_pow2_strictly_increases(118, j);
    }
    let x = m * wide(mul);
    assert(x < 0x80_0000_0000_0000 * 0x4000_0000_0000_0000_0000_0000_0000_0000) by (nonlinear_arith)
        requires
            x == m * wide(mul),
            m < 0x80_0000_0000_0000,
            wide(mul) < 0x4000_0000_0000_0000_0000_0000_0000_0000,
    ;
    lemma_div_is_ordered_by_denominator(x as int, pow2(118) as int, pow2(j) as int);
}

/// With a multiplier and a shift in the range of the tables, a scaled value
/// does not vanish.
pub proof fn lemma_scaled_positive(m: nat, mul: (u64, u64), j: nat)
    requires
        2 <= m,
        0x1000_0000_0000_0000 <= mul.1,
        j <= 125,
    ensures
        spec_mul_shift(m, mul, j) >= 1,
{
    reveal(fixed_point_product);
    lemma2_to64();
    lemma2_to64_rest();
    lemma_pow2_adds(64, 61);
    assert(pow2(125) == 0x2000_0000_0000_0000_0000_0000_0000_0000);
    if j < 125 {
        lemma_pow2_strictly_increases(j, 125);
    }
    lemma_pow2_pos(j);
    let x = m * wide(mul);
    assert(x >= 0x2000_0000_0000_0000_0000_0000_0000_0000) by (nonlinear_arith)
        requires
            x == m * wide(mul),
            m >= 2,
            wide(mul) >= 0x1000_0000_0000_0000_0000_0000_0000_0000,
    ;
    lemma_div_is_ordered(pow2(j) as int, x as int, pow2(j) as int);
    lemma_div_basics(pow2(j) as int);
}


/// Entry `q` of the table of reciprocals: `floor(2^(bits + 124) / 5^q) + 1`
/// in two words, where `bits` is the length of `5^q` in binary.
pub fn double_pow5_inv_split(q: u32) -> (r: (u64, u64))
    requires
        q < 342,
    ensures
        r == DOUBLE_POW5_INV_SPLIT[q as int],
        is_pow5_inv_entry(q as nat, wide(r)),
        0x1000_0000_0000_0000 <= r.1 <= 0x2000_0000_0000_0000,
{
    proof {
        lemma_table_bounds();
        lemma_table_entry(q as int);
    }
    DOUBLE_POW5_INV_SPLIT[q as usize]
}

/// Entry `i` of the table of powers: the 125 leading bits of `5^i` in two
/// words.
pub fn double_pow5_split(i: u32) -> (r: (u64, u64))
    requires
        i < 326,
    ensures
        r == DOUBLE_POW5_SPLIT[i as int],
        is_pow5_entry(i as nat, wide(r)),
        0x1000_0000_0000_0000 <= r.1 < 0x2000_0000_0000_0000,
{
    proof {
        lemma_table_bounds();
        lemma_table_entry(i as int);
    }
    DOUBLE_POW5_SPLIT[i as usize]
}

/// The three scaled values of an interval are ordered, positive and below
/// `2^63`.
pub proof fn lemma_scaled_bounds(mm: nat, mv: nat, mp: nat, mul: (u64, u64), j: nat)
    requires
        2 <= mm <= mv <= mp < 0x80_0000_0000_0000,
        0x1000_0000_0000_0000 <= mul.1 <= 0x2000_0000_0000_0000,
        118 <= j <= 125,
    ensures
        1 <= spec_mul_shift(mm, mul, j) <= spec_mul_shift(mv, mul, j) <= spec_mul_shift(
            mp,
            mul,
            j,
        ) < 0x8000_0000_0000_0000,
{
    lemma_scaled_fits(mp, mul, j);
    lemma_scaled_positive(mm, mul, j);
    lemma_scaled_ordered(mm, mv, mul, j);
    lemma_scaled_ordered(mv, mp, mul, j);
}

/// Scaling keeps the order.
pub proof fn lemma_scaled_ordered(m: nat, n: nat, mul: (u64, u64), j: nat)
    requires
        m <= n,
    ensures
        spec_mul_shift(m, mul, j) <= spec_mul_shift(n, mul, j),
{
    reveal(fixed_point_product);
    lemma_pow2_pos(j);
    assert(m * wide(mul) <= n * wide(mul)) by (nonlinear_arith)
        requires
            m <= n,
    ;
    lemma_div_is_ordered((m * wide(mul)) as int, (n * wide(mul)) as int, pow2(j) as int);
}

/// The scaled interval of a double as the conversion holds it.
pub struct ScaledInterval64 {
    pub vm: u64,
    pub vr: u64,
    pub vp: u64,
    pub vm_is_trailing_zeros: bool,
    pub vr_is_trailing_zeros: bool,
    pub accept_bounds: bool,
    pub last_removed_digit: u8,
}

impl View for ScaledInterval64 {
    type V = ScaledInterval;

    open spec fn view(&self) -> ScaledInterval {
        ScaledInterval {
            vm: self.vm as nat,
            vr: self.vr as nat,
            vp: self.vp as nat,
            vm_is_trailing_zeros: self.vm_is_trailing_zeros,
            vr_is_trailing_zeros: self.vr_is_trailing_zeros,
            accept_bounds: self.accept_bounds,
            last_removed_digit: self.last_removed_digit as nat,
        }
    }
}

/// Scales the interval of a value with binary exponent `e2 >= 0` by a
/// reciprocal of a power of five, and finds out which of its values were
/// scaled without remainder.
pub fn scale_up_64(m2: u64, mm_shift: u32, e2: i32) -> (r: (ScaledInterval64, i32))
    requires
        1 <= m2 < 0x20_0000_0000_0000,
        mm_shift <= 1,
        0 <= e2 <= 969,
    ensures
        r.0@ == double_interval_up(m2 as nat, mm_shift as nat, e2 as int),
        r.1 == double_e10(e2 as int),
        1 <= r.0.vm <= r.0.vr < 0x8000_0000_0000_0000,
        r.0.vp < 0x8000_0000_0000_0000,
{
    assert((m2 & 1) == m2 % 2) by (bit_vector);
    let accept_bounds = (m2 & 1) == 0;
    let mv = 4 * m2;
    let mut vp: u64 = 0;
    let mut vm: u64 = 0;
    let mut vm_is_trailing_zeros = false;
    let mut vr_is_trailing_zeros = false;
    proof {
        lemma_double_shift_range(e2 as int);
    }
    let q = log10_pow2(e2) - if e2 > 3 {
        1
    } else {
        0
    };
    let k = DOUBLE_POW5_INV_BITCOUNT + pow5bits(q as i32) - 1;
    let i = -e2 + q as i32 + k;
    let mul = double_pow5_inv_split(q);
    proof {
        lemma_scaled_bounds((mv - 1 - mm_shift) as nat, mv as nat, (mv + 2) as nat, mul, i as nat);
        lemma_double_scaling_exact((mv - 1 - mm_shift) as nat, e2 as int);
        lemma_double_scaling_exact(mv as nat, e2 as int);
        lemma_double_scaling_exact((mv + 2) as nat, e2 as int);
    }
    let vr = mul_shift_all_64(m2, &mul, i as u32, &mut vp, &mut vm, mm_shift);
    if q <= 21 {
        let mv_mod5 = mv % 5;
        if mv_mod5 == 0 {
            vr_is_trailing_zeros = multiple_of_power_of_5(mv, q);
        } else if accept_bounds {
            vm_is_trailing_zeros = multiple_of_power_of_5(mv - 1 - mm_shift as u64, q);
        } else if multiple_of_power_of_5(mv + 2, q) {
            vp -= 1;
        }
    }
    (
        ScaledInterval64 {
            vm,
            vr,
            vp,
            vm_is_trailing_zeros,
            vr_is_trailing_zeros,
            accept_bounds,
            last_removed_digit: 0,
        },
        q as i32,
    )
}

/// Scales the interval of a value with binary exponent `e2 < 0` by a power of
/// five, and finds out which of its values were scaled without remainder.
pub fn scale_down_64(m2: u64, mm_shift: u32, e2: i32) -> (r: (ScaledInterval64, i32))
    requires
        1 <= m2 < 0x20_0000_0000_0000,
        mm_shift <= 1,
        -1076 <= e2 < 0,
    ensures
        r.0@ == double_interval_down(m2 as nat, mm_shift as nat, e2 as int),
        r.1 == double_e10(e2 as int),
        1 <= r.0.vm <= r.0.vr < 0x8000_0000_0000_0000,
        r.0.vp < 0x8000_0000_0000_0000,
{
    assert((m2 & 1) == m2 % 2) by (bit_vector);
    let accept_bounds = (m2 & 1) == 0;
    let mv = 4 * m2;
    let mut vp: u64 = 0;
    let mut vm: u64 = 0;
    let mut vm_is_trailing_zeros = false;
    let mut vr_is_trailing_zeros = false;
    proof {
        lemma_double_shift_range(e2 as int);
    }
    let q = log10_pow5(-e2) - if -e2 > 1 {
        1
    } else {
        0
    };
    let i = -e2 - q as i32;
    let k = pow5bits(i) - DOUBLE_POW5_BITCOUNT;
    let j = q as i32 - k;
    let mul = double_pow5_split(i as u32);
    proof {
        lemma_scaled_bounds((mv - 1 - mm_shift) as nat, mv as nat, (mv + 2) as nat, mul, j as nat);
        lemma_double_scaling_exact((mv - 1 - mm_shift) as nat, e2 as int);
        lemma_double_scaling_exact(mv as nat, e2 as int);
        lemma_double_scaling_exact((mv + 2) as nat, e2 as int);
    }
    let vr = mul_shift_all_64(m2, &mul, j as u32, &mut vp, &mut vm, mm_shift);
    if q <= 1 {
        vr_is_trailing_zeros = true;
        if accept_bounds {
            vm_is_trailing_zeros = mm_shift == 1;
        } else {
            vp -= 1;
        }
    } else if q < 63 {
        vr_is_trailing_zeros = multiple_of_power_of_2(mv, q);
    }
    (
        ScaledInterval64 {
            vm,
            vr,
            vp,
            vm_is_trailing_zeros,
            vr_is_trailing_zeros,
            accept_bounds,
            last_removed_digit: 0,
        },
        q as i32 + e2,
    )
}

/// Decomposes a finite, nonzero double and scales its rounding interval to
/// decimal; returns the interval and its decimal exponent.
pub fn scale_interval_64(ieee_mantissa: u64, ieee_exponent: u32) -> (r: (ScaledInterval64, i32))
    requires
        ieee_mantissa < 0x10_0000_0000_0000,
        ieee_exponent < 2047,
        ieee_mantissa != 0 || ieee_exponent != 0,
    ensures
        r.0@ == double_interval(ieee_mantissa, ieee_exponent),
        r.1 == double_e10(double_e2(ieee_exponent)),
        1 <= r.0.vm <= r.0.vr < 0x8000_0000_0000_0000,
        r.0.vp < 0x8000_0000_0000_0000,
{
    let (e2, m2): (i32, u64) = if ieee_exponent == 0 {
        (1 - DOUBLE_BIAS - DOUBLE_MANTISSA_BITS as i32 - 2, ieee_mantissa)
    } else {
        assert(((1u64 << 52) | ieee_mantissa) == 0x10_0000_0000_0000 + ieee_mantissa)
            by (bit_vector)
            requires
                ieee_mantissa < 0x10_0000_0000_0000,
        ;
        (
            ieee_exponent as i32 - DOUBLE_BIAS - DOUBLE_MANTISSA_BITS as i32 - 2,
            (1u64 << DOUBLE_MANTISSA_BITS) | ieee_mantissa,
        )
    };
    let mm_shift: u32 = if ieee_mantissa != 0 || ieee_exponent <= 1 {
        1
    } else {
        0
    };
    if e2 >= 0 {
        scale_up_64(m2, mm_shift, e2)
    } else {
        scale_down_64(m2, mm_shift, e2)
    }
}

/// Tells whether `2^p` divides `value`.
pub fn multiple_of_power_of_2(value: u64, p: u32) -> (r: bool)
    requires
        p < 64,
    ensures
        r == is_multiple_of_pow2(value as nat, p as nat),
{
    proof {
        reveal(is_multiple_of_pow2);
        lemma_pow2_pos(p as nat);
        lemma2_to64_rest();
        if p < 63 {
            lemma_pow2_strictly_increases(p as nat, 63);
        }
        lemma_u64_shl_is_mul(1, p as u64);
        lemma_u64_low_bits_mask_is_mod(value, p as nat);
    }
    (value & ((1u64 << p) - 1)) == 0
}

/// Removes from a scaled interval the digits that the shortest decimal does
/// not need and rounds what is left; returns the mantissa and the number of
/// digits removed.
pub fn shorten_64(s: ScaledInterval64) -> (r: (u64, i32))
    requires
        1 <= s.vm,
        s.vr < 0xffff_ffff_ffff_ffff,
        s.last_removed_digit == 0,
    ensures
        r.0 == shortest_mantissa(s@),
        r.1 == removed_digits(s@),
        0 <= r.1 <= 19,
{
    let ghost s0 = s@;
    let mut vm = s.vm;
    let mut vr = s.vr;
    let mut vp = s.vp;
    let mut vm_is_trailing_zeros = s.vm_is_trailing_zeros;
    let mut vr_is_trailing_zeros = s.vr_is_trailing_zeros;
    let accept_bounds = s.accept_bounds;
    let mut removed = 0i32;
    let mut last_removed_digit = 0u8;
    proof {
        lemma_drop_none(s0.vm);
        lemma_drop_none(s0.vr);
        lemma_drop_none(s0.vp);
    }
    if vm_is_trailing_zeros || vr_is_trailing_zeros {
        while vp / 10 > vm / 10
            invariant
                0 <= removed <= 19,
                vm == drop_digits(s0.vm, removed as nat),
                vr == drop_digits(s0.vr, removed as nat),
                vp == drop_digits(s0.vp, removed as nat),
                vr <= s0.vr < 0xffff_ffff_ffff_ffff,
                common_removals(s0.vm, s0.vp) == removed + common_removals(vm as nat, vp as nat),
                vm_is_trailing_zeros == (s0.vm_is_trailing_zeros && ends_in_zeros(
                    s0.vm,
                    removed as nat,
                )),
                vr_is_trailing_zeros == value_stays_exact(s0, removed as nat),
                last_removed_digit == last_digit(s0, removed as nat),
                s0.last_removed_digit == 0,
                s0.vp <= 0xffff_ffff_ffff_ffff,
            decreases vp,
        {
            proof {
                let r = removed as nat;
                lemma_drop_succ(s0.vm, r);
                lemma_drop_succ(s0.vr, r);
                lemma_drop_succ(s0.vp, r);
                if r >= 1 {
                    lemma_drop_succ(s0.vr, (r - 1) as nat);
                } else {
                    lemma_drop_none(s0.vr);
                }
                lemma_drop_at_least_ten(s0.vp, r);
                lemma_pow10_bounds_removed(r + 1, s0.vp);
            }
            let vm_mod10 = vm % 10;
            let vr_mod10 = vr % 10;
            vm_is_trailing_zeros = vm_is_trailing_zeros && vm_mod10 == 0;
            vr_is_trailing_zeros = vr_is_trailing_zeros && last_removed_digit == 0;
            last_removed_digit = vr_mod10 as u8;
            vr = vr / 10;
            vp = vp / 10;
            vm = vm / 10;
            removed += 1;
        }
        let ghost common = removed as nat;
        proof {
            if vm_is_trailing_zeros {
                lemma_drop_zeros_positive(s0.vm, common);
            }
        }
        if vm_is_trailing_zeros {
            while vm % 10 == 0
                invariant
                    common <= removed <= 19,
                    1 <= vm,
                    vm == drop_digits(s0.vm, removed as nat),
                    vr == drop_digits(s0.vr, removed as nat),
                    vr <= s0.vr < 0xffff_ffff_ffff_ffff,
                    trailing_zeros(drop_digits(s0.vm, common)) == (removed - common)
                        + trailing_zeros(vm as nat),
                    vr_is_trailing_zeros == value_stays_exact(s0, removed as nat),
                    last_removed_digit == last_digit(s0, removed as nat),
                    s0.last_removed_digit == 0,
                    s0.vm <= 0xffff_ffff_ffff_ffff,
                decreases vm,
            {
                proof {
                    let r = removed as nat;
                    lemma_drop_succ(s0.vm, r);
                    lemma_drop_succ(s0.vr, r);
                    if r >= 1 {
                        lemma_drop_succ(s0.vr, (r - 1) as nat);
                    } else {
                        lemma_drop_none(s0.vr);
                    }
                    lemma_drop_at_least_ten(s0.vm, r);
                    lemma_pow10_bounds_removed(r + 1, s0.vm);
                }
                let vr_mod10 = vr % 10;
                vr_is_trailing_zeros = vr_is_trailing_zeros && last_removed_digit == 0;
                last_removed_digit = vr_mod10 as u8;
                vr = vr / 10;
                vp = vp / 10;
                vm = vm / 10;
                removed += 1;
            }
        }
        if vr_is_trailing_zeros && last_removed_digit == 5 && vr % 2 == 0 {
            last_removed_digit = 4;
        }
        let round_up = (vr == vm && (!accept_bounds || !vm_is_trailing_zeros))
            || last_removed_digit >= 5;
        (
            vr + if round_up {
                1
            } else {
                0
            },
            removed,
        )
    } else {
        let mut round_up = false;
        let vp_div100 = vp / 100;
        let vm_div100 = vm / 100;
        if vp_div100 > vm_div100 {
            proof {
                reveal_with_fuel(common_removals, 3);
                lemma_drop_succ(s0.vm, 0);
                lemma_drop_succ(s0.vr, 0);
                lemma_drop_succ(s0.vp, 0);
                lemma_drop_succ(s0.vm, 1);
                lemma_drop_succ(s0.vr, 1);
                lemma_drop_succ(s0.vp, 1);
            }
            let vr_div100 = vr / 100;
            let vr_mod100 = vr % 100;
            round_up = vr_mod100 >= 50;
            vr = vr_div100;
            vp = vp_div100;
            vm = vm_div100;
            removed += 2;
        }
        while vp / 10 > vm / 10
            invariant
                0 <= removed <= 19,
                vm == drop_digits(s0.vm, removed as nat),
                vr == drop_digits(s0.vr, removed as nat),
                vp == drop_digits(s0.vp, removed as nat),
                vr <= s0.vr < 0xffff_ffff_ffff_ffff,
                common_removals(s0.vm, s0.vp) == removed + common_removals(vm as nat, vp as nat),
                round_up == (last_digit(s0, removed as nat) >= 5),
                s0.last_removed_digit == 0,
                s0.vp <= 0xffff_ffff_ffff_ffff,
            decreases vp,
        {
            proof {
                let r = removed as nat;
                lemma_drop_succ(s0.vm, r);
                lemma_drop_succ(s0.vr, r);
                lemma_drop_succ(s0.vp, r);
                lemma_drop_at_least_ten(s0.vp, r);
                lemma_pow10_bounds_removed(r + 1, s0.vp);
            }
            let vr_mod10 = vr % 10;
            round_up = vr_mod10 >= 5;
            vr = vr / 10;
            vp = vp / 10;
            vm = vm / 10;
            removed += 1;
        }
        (
            vr + if vr == vm || round_up {
                1
            } else {
                0
            },
            removed,
        )
    }
}

/// The shortest decimal of a double has at most seventeen digits, and it is
/// not zero.
pub proof fn lemma_d2d_bounds(ieee_mantissa: u64, ieee_exponent: u32)
    requires
        ieee_mantissa < 0x10_0000_0000_0000,
        ieee_exponent < 2047,
        ieee_mantissa != 0 || ieee_exponent != 0,
    ensures
        0 < spec_d2d(ieee_mantissa, ieee_exponent).mantissa < 100_000_000_000_000_000,
        -325 <= spec_d2d(ieee_mantissa, ieee_exponent).exponent <= 309,
{
    let e2 = double_e2(ieee_exponent);
    let m2 = double_m2(ieee_mantissa, ieee_exponent);
    let mm_shift = double_mm_shift(ieee_mantissa, ieee_exponent);
    let mv = 4 * m2;
    let mp = mv + 2;
    let mm = (mv - 1 - mm_shift) as nat;
    let mul = double_multiplier(e2);
    let shift = double_shift(e2) as nat;
    let s = double_interval(ieee_mantissa, ieee_exponent);
    lemma_double_shift_range(e2);
    lemma_table_bounds();
    lemma_scaled_bounds(mm, mv, mp, mul, shift);
    lemma_pow2_pos(shift);
    lemma_double_scaling_exact(mm, e2);
    lemma_double_scaling_exact(mv, e2);
    lemma_double_scaling_exact(mp, e2);
    assert(s.vm == (mm * wide(mul)) / pow2(shift) && s.vr == (mv * wide(mul)) / pow2(shift) && (
    s.vp == (mp * wide(mul)) / pow2(shift) || s.vp + 1 == (mp * wide(mul)) / pow2(shift))) by {
        reveal(fixed_point_product);
    }
    lemma_shortest_bounds(s, mm, mv, mp, wide(mul), pow2(shift));
    lemma_removed_digits_bound(s);
    if removed_digits(s) > 0 {
        if pow10(removed_digits(s)) <= s.vp {
            lemma_pow10_bounds_removed(removed_digits(s), s.vp);
        } else {
            lemma_pow10_bounds_removed(removed_digits(s), s.vm);
        }
    }
    let out = shortest_mantissa(s);
    if mm_shift == 1 {
        assert(out - 1 < 11 * m2) by (nonlinear_arith)
            requires
                (out - 1) * (mp - mm) < 11 * mv,
                mp - mm == 4,
                mv == 4 * m2,
        ;
    } else {
        assert(out - 1 < 11 * 0x20_0000_0000_0000) by (nonlinear_arith)
            requires
                (out - 1) * (mp - mm) < 11 * mv,
                mp - mm == 3,
                mv == 0x40_0000_0000_0000,
        ;
    }
}

/// Computes the shortest decimal that reads back as the finite, nonzero
/// double with the given mantissa and exponent fields.
pub fn d2d(ieee_mantissa: u64, ieee_exponent: u32) -> (r: FloatingDecimal64)
    requires
        ieee_mantissa < 0x10_0000_0000_0000,
        ieee_exponent < 2047,
        ieee_mantissa != 0 || ieee_exponent != 0,
    ensures
        r@ == spec_d2d(ieee_mantissa, ieee_exponent),
        0 < r.mantissa < 100_000_000_000_000_000,
        -325 <= r.exponent <= 309,
        reads_back_as_double(ieee_mantissa, ieee_exponent, r@.mantissa, r@.exponent),
{
    let (scaled, e10) = scale_interval_64(ieee_mantissa, ieee_exponent);
    let (output, removed) = shorten_64(scaled);
    proof {
        lemma_double_round_trip(ieee_mantissa, ieee_exponent);
        lemma_d2d_bounds(ieee_mantissa, ieee_exponent);
        lemma_double_shift_range(double_e2(ieee_exponent));
    }
    let exp = e10 + removed;
    FloatingDecimal64 { exponent: exp, mantissa: output }
}

} // verus!
