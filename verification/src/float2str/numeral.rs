//! Decimal numerals and the numbers they stand for.

use vstd::prelude::*;
use crate::float2str::common::decimal_length;
use crate::float2str::pretty::{
    decimal_digits, integer_text, render_decimal, zeros,
    lemma_decimal_digits_len, DIGIT_ZERO, EXPONENT_MARK, POINT,
};
use crate::float2str::shortest::{pow10, DecimalValue};

verus! {

/// Every byte of `text` is a decimal digit.
pub open spec fn is_digits(text: Seq<u8>) -> bool {
    forall|i: int| 0 <= i < text.len() ==> DIGIT_ZERO <= #[trigger] text[i] <= DIGIT_ZERO + 9
}

/// The number that a string of digits stands for.
pub open spec fn digits_value(text: Seq<u8>) -> nat
    decreases text.len(),
{
    if text.len() == 0 {
        0
    } else {
        digits_value(text.drop_last()) * 10 + (text.last() - DIGIT_ZERO) as nat
    }
}

/// The fraction of a numeral: nothing, or a point and digits.
pub open spec fn fraction_text(fraction: Option<Seq<u8>>) -> Seq<u8> {
    match fraction {
        Some(digits) => seq![POINT] + digits,
        None => Seq::empty(),
    }
}

/// The exponent of a numeral: nothing, or the exponent mark and an integer.
pub open spec fn exponent_text(exponent: Option<int>) -> Seq<u8> {
    match exponent {
        Some(e) => seq![EXPONENT_MARK] + integer_text(e),
        None => Seq::empty(),
    }
}

/// `text` is made of the digits `whole`, of a point and the digits of
/// `fraction` where there is one, and of the exponent mark and `exponent`
/// where there is one; the digits together stand for `n`, and `k` is the
/// exponent, less one for each digit behind the point.
pub open spec fn numeral_parts(
    text: Seq<u8>,
    n: nat,
    k: int,
    whole: Seq<u8>,
    fraction: Option<Seq<u8>>,
    exponent: Option<int>,
) -> bool {
    let behind = match fraction {
        Some(digits) => digits,
        None => Seq::empty(),
    };
    let e = match exponent {
        Some(e) => e,
        None => 0,
    };
    &&& whole.len() >= 1
    &&& is_digits(whole)
    &&& is_digits(behind)
    &&& (fraction is Some ==> behind.len() >= 1)
    &&& text == whole + fraction_text(fraction) + exponent_text(exponent)
    &&& n == digits_value(whole + behind)
    &&& k == e - behind.len()
}

/// `text` is a decimal numeral for `n * 10^k`: digits, then a point and more
/// digits or nothing, then the exponent mark and an exponent or nothing.
pub open spec fn denotes(text: Seq<u8>, n: nat, k: int) -> bool {
    exists|whole: Seq<u8>, fraction: Option<Seq<u8>>, exponent: Option<int>| #[trigger]
        numeral_parts(text, n, k, whole, fraction, exponent)
}

/// The digits of a number are digits, and they stand for the number.
pub proof fn lemma_decimal_digits_value(n: nat)
    ensures
        is_digits(decimal_digits(n)),
        digits_value(decimal_digits(n)) == n,
    decreases n,
{
    if n < 10 {
        let text = decimal_digits(n);
        assert(text.drop_last() =~= Seq::<u8>::empty());
        assert(digits_value(text.drop_last()) == 0);
    } else {
        lemma_decimal_digits_value(n / 10);
        let text = decimal_digits(n);
        assert(text.drop_last() =~= decimal_digits(n / 10));
    }
}

/// Digits behind digits: the value of the first moves up by the length of
/// the second.
pub proof fn lemma_digits_value_concat(first: Seq<u8>, second: Seq<u8>)
    ensures
        digits_value(first + second) == digits_value(first) * pow10(second.len()) + digits_value(
            second,
        ),
    decreases second.len(),
{
    if second.len() == 0 {
        assert(first + second =~= first);
        assert(pow10(0) == 1);
    } else {
        let both = first + second;
        assert(both.drop_last() =~= first + second.drop_last());
        assert(both.last() == second.last());
        lemma_digits_value_concat(first, second.drop_last());
        let shorter = (second.len() - 1) as nat;
        assert(pow10(second.len()) == 10 * pow10(shorter));
        let a = digits_value(first) as int;
        let p = pow10(shorter) as int;
        let b = digits_value(second.drop_last()) as int;
        assert((a * p + b) * 10 == a * (10 * p) + b * 10) by (nonlinear_arith);
    }
}

/// Zeros are digits, and they stand for zero.
pub proof fn lemma_zeros_value(count: int)
    ensures
        is_digits(zeros(count)),
        digits_value(zeros(count)) == 0,
        zeros(count).len() == if count >= 0 {
            count
        } else {
            0
        },
    decreases count,
{
    if count > 0 {
        lemma_zeros_value(count - 1);
        assert(zeros(count).drop_last() =~= zeros(count - 1));
    }
}

/// The number for which the text of a decimal is a numeral: the mantissa,
/// or the mantissa with its zeros and one more where the text writes an
/// integer out and ends in `.0`.
pub open spec fn rendered_mantissa(v: DecimalValue, upper: int) -> nat {
    if 0 <= v.exponent && decimal_length(v.mantissa) + v.exponent <= upper {
        v.mantissa * pow10((v.exponent + 1) as nat)
    } else {
        v.mantissa
    }
}

/// The exponent with which the text of a decimal is a numeral.
pub open spec fn rendered_exponent(v: DecimalValue, upper: int) -> int {
    if 0 <= v.exponent && decimal_length(v.mantissa) + v.exponent <= upper {
        -1
    } else {
        v.exponent
    }
}

/// The text of a decimal is a numeral for the decimal.
pub proof fn lemma_render_denotes(v: DecimalValue, upper: int, lower: int)
    ensures
        denotes(render_decimal(v, upper, lower), rendered_mantissa(v, upper), rendered_exponent(
            v,
            upper,
        )),
{
    let text = render_decimal(v, upper, lower);
    let digits = decimal_digits(v.mantissa);
    let length = digits.len() as int;
    let k = v.exponent;
    let kk = length + k;
    let n = rendered_mantissa(v, upper);
    let e = rendered_exponent(v, upper);
    lemma_decimal_digits_len(v.mantissa);
    lemma_decimal_digits_value(v.mantissa);
    assert(length >= 1);
    if 0 <= k && kk <= upper {
        let whole = digits + zeros(k);
        let behind = seq![DIGIT_ZERO];
        lemma_zeros_value(k);
        lemma_digits_value_concat(digits, zeros(k));
        lemma_digits_value_concat(whole, behind);
        assert(digits_value(behind) == 0) by {
            assert(behind.drop_last() =~= Seq::<u8>::empty());
            assert(digits_value(behind.drop_last()) == 0);
        }
        assert(pow10(1) == 10) by {
            reveal_with_fuel(pow10, 2);
        }
        assert(pow10((k + 1) as nat) == 10 * pow10(k as nat));
        assert(digits_value(whole + behind) == n) by (nonlinear_arith)
            requires
                digits_value(whole + behind) == digits_value(whole) * 10 + 0,
                digits_value(whole) == v.mantissa * pow10(k as nat) + 0,
                n == v.mantissa * pow10((k + 1) as nat),
                pow10((k + 1) as nat) == 10 * pow10(k as nat),
        ;
        assert(text =~= whole + fraction_text(Some(behind)) + exponent_text(None));
        assert(numeral_parts(text, n, e, whole, Some(behind), None));
    } else if 0 < kk && kk <= upper {
        let whole = digits.subrange(0, kk);
        let behind = digits.subrange(kk, length);
        assert(whole + behind =~= digits);
        assert(text =~= whole + fraction_text(Some(behind)) + exponent_text(None));
        assert(numeral_parts(text, n, e, whole, Some(behind), None));
    } else if lower < kk && kk <= 0 {
        let whole = seq![DIGIT_ZERO];
        let behind = zeros(-kk) + digits;
        lemma_zeros_value(-kk);
        lemma_digits_value_concat(zeros(-kk), digits);
        lemma_digits_value_concat(whole, behind);
        assert(digits_value(whole) == 0) by {
            assert(whole.drop_last() =~= Seq::<u8>::empty());
            assert(digits_value(whole.drop_last()) == 0);
        }
        assert(digits_value(zeros(-kk)) * pow10(digits.len()) == 0) by (nonlinear_arith)
            requires
                digits_value(zeros(-kk)) == 0,
        ;
        assert(digits_value(whole) * pow10(behind.len()) == 0) by (nonlinear_arith)
            requires
                digits_value(whole) == 0,
        ;
        assert(text =~= whole + fraction_text(Some(behind)) + exponent_text(None));
        assert(numeral_parts(text, n, e, whole, Some(behind), None));
    } else if length == 1 {
        let whole = digits;
        assert(whole + Seq::<u8>::empty() =~= digits);
        assert(text =~= whole + fraction_text(None) + exponent_text(Some(kk - 1)));
        assert(numeral_parts(text, n, e, whole, None, Some(kk - 1)));
    } else {
        let whole = digits.subrange(0, 1);
        let behind = digits.subrange(1, length);
        assert(whole + behind =~= digits);
        assert(text =~= whole + fraction_text(Some(behind)) + exponent_text(Some(kk - 1)));
        assert(numeral_parts(text, n, e, whole, Some(behind), Some(kk - 1)));
    }
}

} // verus!
