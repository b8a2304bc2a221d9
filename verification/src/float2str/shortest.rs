//! The removal of digits from a scaled interval, and the rounding of what is
//! left.

use vstd::prelude::*;
use vstd::arithmetic::div_mod::{
    lemma_div_denominator, lemma_div_is_ordered, lemma_div_is_ordered_by_denominator,
    lemma_fundamental_div_mod, lemma_fundamental_div_mod_converse,
};
use vstd::arithmetic::mul::lemma_mul_is_commutative;

verus! {

/// `10^n`.
pub open spec fn pow10(n: nat) -> nat
    decreases n,
{
    if n == 0 {
        1
    } else {
        10 * pow10((n - 1) as nat)
    }
}

/// `x` without its `r` low decimal digits: `floor(x / 10^r)`.
#[verifier::opaque]
pub open spec fn drop_digits(x: nat, r: nat) -> nat {
    x / pow10(r)
}

/// The `r` low decimal digits of `x` are zero: `10^r` divides `x`.
#[verifier::opaque]
pub open spec fn ends_in_zeros(x: nat, r: nat) -> bool {
    x % pow10(r) == 0
}

/// The decimal floating-point value `mantissa * 10^exponent`.
pub struct DecimalValue {
    pub mantissa: nat,
    pub exponent: int,
}

/// The interval of a binary floating-point value, scaled by a power of ten and
/// rounded down to integers: `vm` and `vp` stand for the bounds of the
/// interval in which every decimal reads back as the same value, `vr` for the
/// value itself.
pub struct ScaledInterval {
    pub vm: nat,
    pub vr: nat,
    pub vp: nat,
    /// The lower bound was scaled without remainder.
    pub vm_is_trailing_zeros: bool,
    /// The value was scaled without remainder.
    pub vr_is_trailing_zeros: bool,
    /// The bounds themselves read back as the value.
    pub accept_bounds: bool,
    /// The digit of the value that scaling dropped last, where it is known.
    pub last_removed_digit: nat,
}

/// How many low digits can go from both bounds before the interval holds no
/// more than one multiple of ten.
pub open spec fn common_removals(vm: nat, vp: nat) -> nat
    decreases vp,
{
    if vp / 10 <= vm / 10 {
        0
    } else {
        1 + common_removals(vm / 10, vp / 10)
    }
}

/// How many zeros stand at the low end of `v` in decimal; none for zero.
pub open spec fn trailing_zeros(v: nat) -> nat
    decreases v,
{
    if v == 0 || v % 10 != 0 {
        0
    } else {
        1 + trailing_zeros(v / 10)
    }
}

/// The lower bound still is an exact multiple after the common digits went.
pub open spec fn lower_stays_exact(s: ScaledInterval) -> bool {
    s.vm_is_trailing_zeros && ends_in_zeros(s.vm, common_removals(s.vm, s.vp))
}

/// The number of digits that leave the scaled value: those common to both
/// bounds, and the zeros that follow in a lower bound that is exact.
pub open spec fn removed_digits(s: ScaledInterval) -> nat {
    let r = common_removals(s.vm, s.vp);
    if lower_stays_exact(s) {
        r + trailing_zeros(drop_digits(s.vm, r))
    } else {
        r
    }
}

/// The digit removed last: digit `r - 1` of the value, or the digit that
/// scaling dropped where nothing was removed.
pub open spec fn last_digit(s: ScaledInterval, r: nat) -> nat {
    if r == 0 {
        s.last_removed_digit
    } else {
        drop_digits(s.vr, (r - 1) as nat) % 10
    }
}

/// Every digit removed before the last one was zero, and so was the
/// remainder of the scaling.
pub open spec fn value_stays_exact(s: ScaledInterval, r: nat) -> bool {
    s.vr_is_trailing_zeros && (r == 0 || (s.last_removed_digit == 0 && ends_in_zeros(
        s.vr,
        (r - 1) as nat,
    )))
}

/// The shortest decimal in the interval, rounded to nearest with ties to
/// even: the scaled value without its removed digits, plus one where it has
/// to be rounded up.
pub open spec fn shortest_mantissa(s: ScaledInterval) -> nat {
    let r = removed_digits(s);
    let vr = drop_digits(s.vr, r);
    let vm = drop_digits(s.vm, r);
    let last = last_digit(s, r);
    let tie_to_even = value_stays_exact(s, r) && last == 5 && vr % 2 == 0;
    let below_interval = vr == vm && (!s.accept_bounds || !lower_stays_exact(s));
    if below_interval || (last >= 5 && !tie_to_even) {
        vr + 1
    } else {
        vr
    }
}

/// Every power of ten is positive.
pub proof fn lemma_pow10_positive(n: nat)
    ensures
        pow10(n) > 0,
    decreases n,
{
    if n > 0 {
        lemma_pow10_positive((n - 1) as nat);
    }
}

/// The powers of ten grow with their exponent.
pub proof fn lemma_pow10_increases(a: nat, b: nat)
    requires
        a <= b,
    ensures
        pow10(a) <= pow10(b),
    decreases b,
{
    if a < b {
        lemma_pow10_increases(a, (b - 1) as nat);
    }
}

/// `10^(a + b) == 10^a * 10^b`.
pub proof fn lemma_pow10_adds(a: nat, b: nat)
    ensures
        pow10(a + b) == pow10(a) * pow10(b),
    decreases b,
{
    if b == 0 {
        assert(pow10(0) == 1);
    } else {
        lemma_pow10_adds(a, (b - 1) as nat);
        assert(pow10(a + b) == 10 * pow10((a + b - 1) as nat));
        assert(pow10(b) == 10 * pow10((b - 1) as nat));
        assert(pow10(a) * (10 * pow10((b - 1) as nat)) == 10 * (pow10(a) * pow10((b - 1) as nat)))
            by (nonlinear_arith);
    }
}

/// The first powers of ten, up to the first above `2^64`.
pub proof fn lemma_pow10_values()
    ensures
        pow10(0) == 1,
        pow10(1) == 10,
        pow10(2) == 100,
        pow10(3) == 1_000,
        pow10(4) == 10_000,
        pow10(5) == 100_000,
        pow10(6) == 1_000_000,
        pow10(7) == 10_000_000,
        pow10(8) == 100_000_000,
        pow10(9) == 1_000_000_000,
        pow10(10) == 10_000_000_000,
        pow10(11) == 100_000_000_000,
        pow10(12) == 1_000_000_000_000,
        pow10(13) == 10_000_000_000_000,
        pow10(14) == 100_000_000_000_000,
        pow10(15) == 1_000_000_000_000_000,
        pow10(16) == 10_000_000_000_000_000,
        pow10(17) == 100_000_000_000_000_000,
        pow10(18) == 1_000_000_000_000_000_000,
        pow10(19) == 10_000_000_000_000_000_000,
        pow10(20) == 100_000_000_000_000_000_000,
{
    reveal_with_fuel(pow10, 21);
}

/// A value of 64 bits is below `10^20`.
pub proof fn lemma_pow10_bounds_removed(r: nat, x: nat)
    requires
        pow10(r) <= x,
        x <= 0xffff_ffff_ffff_ffff,
    ensures
        r <= 19,
{
    if r >= 20 {
        lemma_pow10_increases(20, r);
        lemma_pow10_values();
    }
}

/// Dropping no digit changes nothing.
pub proof fn lemma_drop_none(x: nat)
    ensures
        drop_digits(x, 0) == x,
        ends_in_zeros(x, 0),
{
    reveal(drop_digits);
    reveal(ends_in_zeros);
    assert(pow10(0) == 1);
}

/// Dropping `r + 1` digits is dropping `r` digits and then one more; the
/// `r + 1` low digits are zero exactly if the `r` low digits are zero and the
/// digit above them is zero.
pub proof fn lemma_drop_succ(x: nat, r: nat)
    ensures
        drop_digits(x, r + 1) == drop_digits(x, r) / 10,
        ends_in_zeros(x, r + 1) <==> ends_in_zeros(x, r) && drop_digits(x, r) % 10 == 0,
{
    reveal(drop_digits);
    reveal(ends_in_zeros);
    lemma_pow10_positive(r);
    let p = pow10(r) as int;
    assert(pow10(r + 1) == 10 * p);
    lemma_div_denominator(x as int, p, 10);
    lemma_mul_is_commutative(p, 10);
    let a = x as int / p;
    let b = x as int % p;
    let c = a / 10;
    let d = a % 10;
    lemma_fundamental_div_mod(x as int, p);
    assert(x == (10 * p) * c + (p * d + b)) by (nonlinear_arith)
        requires
            x == p * a + b,
            a == 10 * c + d,
    ;
    assert(0 <= p * d + b < 10 * p) by (nonlinear_arith)
        requires
            0 <= b < p,
            0 <= d < 10,
    ;
    lemma_fundamental_div_mod_converse(x as int, 10 * p, c, p * d + b);
    assert(p * d + b == 0 <==> (d == 0 && b == 0)) by (nonlinear_arith)
        requires
            0 <= b < p,
            0 <= d < 10,
    ;
}

/// Dropping one digit and then `r` more is dropping `r + 1` digits.
pub proof fn lemma_drop_first(x: nat, r: nat)
    ensures
        drop_digits(x, r + 1) == drop_digits(x / 10, r),
{
    reveal(drop_digits);
    lemma_pow10_positive(r);
    lemma_div_denominator(x as int, 10, pow10(r) as int);
}

/// Dropping `a + b` digits is dropping `a` digits and then `b` more.
pub proof fn lemma_drop_adds(x: nat, a: nat, b: nat)
    ensures
        drop_digits(x, a + b) == drop_digits(drop_digits(x, a), b),
{
    reveal(drop_digits);
    lemma_pow10_positive(a);
    lemma_pow10_positive(b);
    lemma_pow10_adds(a, b);
    lemma_div_denominator(x as int, pow10(a) as int, pow10(b) as int);
}

/// Dropping digits keeps the order and does not enlarge a value.
pub proof fn lemma_drop_ordered(x: nat, y: nat, r: nat)
    requires
        x <= y,
    ensures
        drop_digits(x, r) <= drop_digits(y, r) <= y,
{
    reveal(drop_digits);
    lemma_pow10_positive(r);
    lemma_div_is_ordered(x as int, y as int, pow10(r) as int);
    lemma_div_is_ordered_by_denominator(y as int, 1, pow10(r) as int);
}

/// What is left of `x` after `r` digits went has at least two digits only if
/// `x` is at least `10^(r + 1)`.
pub proof fn lemma_drop_at_least_ten(x: nat, r: nat)
    requires
        drop_digits(x, r) >= 10,
    ensures
        x >= pow10(r + 1),
{
    reveal(drop_digits);
    lemma_pow10_positive(r);
    lemma_fundamental_div_mod(x as int, pow10(r) as int);
    assert(pow10(r) * (x / pow10(r)) >= pow10(r) * 10) by (nonlinear_arith)
        requires
            x / pow10(r) >= 10,
    ;
}

/// A positive value whose `r` low digits are zero has digits left above
/// them.
pub proof fn lemma_drop_zeros_positive(x: nat, r: nat)
    requires
        x >= 1,
        ends_in_zeros(x, r),
    ensures
        drop_digits(x, r) >= 1,
{
    reveal(drop_digits);
    reveal(ends_in_zeros);
    lemma_pow10_positive(r);
    lemma_fundamental_div_mod(x as int, pow10(r) as int);
    if x / pow10(r) == 0 {
        assert(pow10(r) * (x / pow10(r)) == 0) by (nonlinear_arith)
            requires
                x / pow10(r) == 0,
        ;
    }
}

/// After the common digits went, no multiple of ten separates the bounds.
pub proof fn lemma_common_removals_exit(vm: nat, vp: nat)
    ensures
        drop_digits(vp, common_removals(vm, vp) + 1) <= drop_digits(
            vm,
            common_removals(vm, vp) + 1,
        ),
    decreases vp,
{
    if vp / 10 <= vm / 10 {
        lemma_drop_none(vm);
        lemma_drop_none(vp);
        lemma_drop_succ(vm, 0);
        lemma_drop_succ(vp, 0);
    } else {
        let r = common_removals(vm / 10, vp / 10);
        lemma_common_removals_exit(vm / 10, vp / 10);
        lemma_drop_first(vm, r + 1);
        lemma_drop_first(vp, r + 1);
    }
}

/// Where a common digit was removed, the upper bound had more than one digit
/// before the last removal.
pub proof fn lemma_common_removals_last(vm: nat, vp: nat)
    requires
        common_removals(vm, vp) > 0,
    ensures
        drop_digits(vp, (common_removals(vm, vp) - 1) as nat) >= 10,
    decreases vp,
{
    let r = common_removals(vm, vp);
    assert(vp / 10 > vm / 10);
    assert(r == 1 + common_removals(vm / 10, vp / 10));
    if r == 1 {
        lemma_drop_none(vp);
    } else {
        lemma_common_removals_last(vm / 10, vp / 10);
        lemma_drop_first(vp, (r - 2) as nat);
    }
}

/// Dropping the trailing zeros of a positive value leaves a positive value.
pub proof fn lemma_trailing_zeros_positive(v: nat)
    requires
        v >= 1,
    ensures
        drop_digits(v, trailing_zeros(v)) >= 1,
        trailing_zeros(v) > 0 ==> drop_digits(v, (trailing_zeros(v) - 1) as nat) >= 10,
    decreases v,
{
    if v % 10 != 0 {
        assert(trailing_zeros(v) == 0);
        lemma_drop_none(v);
    } else {
        let z = trailing_zeros(v / 10);
        assert(trailing_zeros(v) == z + 1);
        lemma_trailing_zeros_positive(v / 10);
        lemma_drop_first(v, z);
        if z == 0 {
            lemma_drop_none(v);
        } else {
            lemma_drop_first(v, (z - 1) as nat);
        }
    }
}

/// Where both bounds of an interval `[mm, mp]` around `mv` are scaled by
/// `w / d` and no multiple of `10^(r + 1)` separates them any more, the scaled
/// value without its `r` low digits is less than `11 * mv / (mp - mm)`.
pub proof fn lemma_scaled_value_bound(mm: nat, mv: nat, mp: nat, w: nat, d: nat, vp: nat, r: nat)
    requires
        mm < mp,
        0 < mv,
        0 < d,
        vp == (mp * w) / d || vp + 1 == (mp * w) / d,
        drop_digits(vp, r + 1) <= drop_digits((mm * w) / d, r + 1),
    ensures
        drop_digits((mv * w) / d, r) * (mp - mm) < 11 * mv,
{
    reveal(drop_digits);
    lemma_pow10_positive(r);
    let t = pow10(r) as int;
    let t10 = pow10(r + 1) as int;
    assert(t10 == 10 * t);
    let a = ((mm * w) / d) as int;
    let b = ((mv * w) / d) as int;
    let c = ((mp * w) / d) as int;
    let g = a / t10;
    let h = vp as int / t10;
    let x = b / t;
    let width = (mp - mm) as int;
    lemma_fundamental_div_mod(vp as int, t10);
    lemma_fundamental_div_mod(a, t10);
    assert(t10 * h <= t10 * g) by (nonlinear_arith)
        requires
            h <= g,
            t10 > 0,
    ;
    assert(c - a <= t10);
    lemma_fundamental_div_mod((mp * w) as int, d as int);
    lemma_fundamental_div_mod((mm * w) as int, d as int);
    lemma_fundamental_div_mod((mv * w) as int, d as int);
    lemma_fundamental_div_mod(b, t);
    assert(d * (c + 1 - a) <= d * (t10 + 1)) by (nonlinear_arith)
        requires
            c - a <= t10,
            d > 0,
    ;
    assert(width * w == mp * w - mm * w) by (nonlinear_arith)
        requires
            width == mp - mm,
    ;
    assert(width * w < d * (t10 + 1)) by (nonlinear_arith)
        requires
            width * w == mp * w - mm * w,
            mp * w < d * c + d,
            mm * w >= d * a,
            d * (c + 1 - a) <= d * (t10 + 1),
    ;
    assert(d * b <= mv * w);
    assert(t * x <= b);
    if x * width >= 11 * mv {
        assert((t * x) * d * width <= mv * (width * w)) by (nonlinear_arith)
            requires
                t * x <= b,
                d * b <= mv * w,
                d > 0,
                width > 0,
        ;
        assert(mv * (width * w) < mv * (d * (t10 + 1))) by (nonlinear_arith)
            requires
                width * w < d * (t10 + 1),
                mv > 0,
        ;
        assert((t * x) * d * width >= 11 * mv * t * d) by (nonlinear_arith)
            requires
                x * width >= 11 * mv,
                t > 0,
                d > 0,
        ;
        assert(mv * (d * (t10 + 1)) <= 11 * mv * t * d) by (nonlinear_arith)
            requires
                t10 == 10 * t,
                t >= 1,
                mv > 0,
                d > 0,
        ;
        assert(false);
    }
}

/// The shortest mantissa of an interval that comes from scaling `[mm, mp]`
/// around `mv` by `w / d` is positive and stays below
/// `11 * mv / (mp - mm) + 1`.
pub proof fn lemma_shortest_bounds(s: ScaledInterval, mm: nat, mv: nat, mp: nat, w: nat, d: nat)
    requires
        mm < mv < mp,
        0 < d,
        s.vm == (mm * w) / d,
        s.vr == (mv * w) / d,
        s.vp == (mp * w) / d || s.vp + 1 == (mp * w) / d,
        1 <= s.vm <= s.vr,
    ensures
        0 < shortest_mantissa(s),
        (shortest_mantissa(s) - 1) * (mp - mm) < 11 * mv,
{
    let common = common_removals(s.vm, s.vp);
    let r = removed_digits(s);
    lemma_common_removals_exit(s.vm, s.vp);
    lemma_scaled_value_bound(mm, mv, mp, w, d, s.vp, common);
    let zeros = (r - common) as nat;
    lemma_drop_adds(s.vr, common, zeros);
    lemma_drop_adds(s.vm, common, zeros);
    let vr_common = drop_digits(s.vr, common);
    let vr = drop_digits(s.vr, r);
    let vm = drop_digits(s.vm, r);
    lemma_drop_ordered(vr_common, vr_common, zeros);
    assert(vr <= vr_common);
    assert(vr * (mp - mm) <= vr_common * (mp - mm)) by (nonlinear_arith)
        requires
            vr <= vr_common,
            mp > mm,
    ;
    assert(shortest_mantissa(s) <= vr + 1);
    assert((shortest_mantissa(s) - 1) * (mp - mm) <= vr * (mp - mm)) by (nonlinear_arith)
        requires
            shortest_mantissa(s) - 1 <= vr,
            mp > mm,
    ;
    lemma_drop_ordered(s.vm, s.vr, r);
    if lower_stays_exact(s) {
        lemma_drop_zeros_positive(s.vm, common);
        lemma_trailing_zeros_positive(drop_digits(s.vm, common));
        assert(vm >= 1);
    }
}

/// The digits removed from an interval are digits of one of its bounds.
pub proof fn lemma_removed_digits_bound(s: ScaledInterval)
    requires
        1 <= s.vm,
    ensures
        removed_digits(s) == 0 || pow10(removed_digits(s)) <= s.vp || pow10(removed_digits(s))
            <= s.vm,
{
    let common = common_removals(s.vm, s.vp);
    let r = removed_digits(s);
    if r > common {
        let zeros = (r - common) as nat;
        lemma_drop_zeros_positive(s.vm, common);
        lemma_trailing_zeros_positive(drop_digits(s.vm, common));
        lemma_drop_adds(s.vm, common, (zeros - 1) as nat);
        lemma_drop_at_least_ten(s.vm, (r - 1) as nat);
    } else if common > 0 {
        lemma_common_removals_last(s.vm, s.vp);
        lemma_drop_at_least_ten(s.vp, (common - 1) as nat);
    }
}

} // verus!
