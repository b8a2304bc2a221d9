//! Texts of integers and floats, and the parameters of a concatenation.

use vstd::prelude::*;
use vstd::array::array_as_slice;
use vstd::slice::slice_subrange;
use vstd::utf8::{encode_scalar, encode_utf8};
use crate::float2str::common::decimal_length;
use crate::float2str::pretty::{
    decimal_digits, double_exponent, double_mantissa, double_sign, float_exponent,
    float_mantissa, float_sign, format32, format64, integer_text, sign_text, spec_format32,
    spec_format64, splice, lemma_decimal_digits_len, DIGIT_ZERO, MINUS,
};
use crate::float2str::d2s::{double_e2, double_m2, double_mm_shift, spec_d2d};
use crate::float2str::f2s::{float_e2, float_m2, float_mm_shift, spec_f2d};
use crate::float2str::numeral::{
    denotes, digits_value, exponent_text, fraction_text, numeral_parts, rendered_exponent,
    rendered_mantissa, lemma_render_denotes,
};
use crate::float2str::pretty::POINT;
use crate::float2str::pretty::render_decimal;
use crate::float2str::reads_back::{
    reads_back_as_double, reads_back_as_float, lemma_double_round_trip, lemma_float_round_trip,
    lemma_reads_back_written_out,
};
use crate::float2str::shortest::{pow10, lemma_pow10_adds, lemma_pow10_values};

verus! {

pub const I82STR_LEN: usize = 4;

pub const I162STR_LEN: usize = 6;

pub const I322STR_LEN: usize = 11;

pub const I642STR_LEN: usize = 20;

pub const I1282STR_LEN: usize = 40;

pub const U82STR_LEN: usize = 3;

pub const U162STR_LEN: usize = 5;

pub const U322STR_LEN: usize = 10;

pub const U642STR_LEN: usize = 20;

pub const U1282STR_LEN: usize = 39;

pub const F2STR_LEN: usize = 24;

pub const ISIZE2STR_SIZE: usize = 20;

pub const USIZE2STR_LEN: usize = 20;

/// A value below `10^n` has at most `n` digits.
pub proof fn lemma_decimal_length_bound(v: nat, n: nat)
    requires
        v < pow10(n),
        n >= 1,
    ensures
        decimal_length(v) <= n,
    decreases n,
{
    if v >= 10 {
        assert(n >= 2) by {
            reveal_with_fuel(pow10, 2);
        }
        lemma_decimal_length_bound(v / 10, (n - 1) as nat);
    }
}

/// `10^39`, the first power of ten above `2^128`.
pub proof fn lemma_pow10_39()
    ensures
        pow10(39) == 1_000_000_000_000_000_000_000_000_000_000_000_000_000,
{
    lemma_pow10_values();
    lemma_pow10_adds(20, 19);
}

/// Writes the digits of `magnitude` at the end of `buf`, with a minus sign
/// before them where `negative` is set; returns the position of the first
/// byte written.
pub fn write_integer(buf: &mut [u8], magnitude: u128, negative: bool) -> (start: usize)
    requires
        sign_text(negative).len() + decimal_length(magnitude as nat) <= old(buf)@.len(),
    ensures
        start + sign_text(negative).len() + decimal_length(magnitude as nat) == old(buf)@.len(),
        final(buf)@ == splice(
            old(buf)@,
            start as int,
            sign_text(negative) + decimal_digits(magnitude as nat),
        ),
{
    let ghost before = buf@;
    let ghost size = buf@.len() as int;
    let mut value = magnitude;
    let mut idx = buf.len();
    proof {
        lemma_decimal_digits_len(magnitude as nat);
        assert(buf@ =~= splice(before, size, Seq::empty()));
    }
    while value >= 10
        invariant
            buf@.len() == size,
            before.len() == size,
            sign_text(negative).len() + decimal_length(magnitude as nat) <= size,
            idx == size - (decimal_length(magnitude as nat) - decimal_length(value as nat)),
            exists|low: Seq<u8>|
                #![auto]
                low.len() == size - idx && decimal_digits(magnitude as nat) == decimal_digits(
                    value as nat,
                ) + low && buf@ == splice(before, idx as int, low),
        decreases value,
    {
        let ghost low = choose|low: Seq<u8>|
            #![auto]
            low.len() == size - idx && decimal_digits(magnitude as nat) == decimal_digits(
                value as nat,
            ) + low && buf@ == splice(before, idx as int, low);
        let digit = DIGIT_ZERO + (value % 10) as u8;
        idx -= 1;
        buf[idx] = digit;
        proof {
            let next = seq![digit] + low;
            lemma_decimal_digits_len(value as nat);
            lemma_decimal_digits_len((value / 10) as nat);
            assert(decimal_digits(value as nat) == decimal_digits((value / 10) as nat).push(
                digit,
            ));
            assert(decimal_digits(magnitude as nat) =~= decimal_digits((value / 10) as nat)
                + next);
            assert(buf@ =~= splice(before, idx as int, next));
        }
        value = value / 10;
    }
    let ghost low = choose|low: Seq<u8>|
        #![auto]
        low.len() == size - idx && decimal_digits(magnitude as nat) == decimal_digits(
            value as nat,
        ) + low && buf@ == splice(before, idx as int, low);
    let digit = DIGIT_ZERO + value as u8;
    idx -= 1;
    buf[idx] = digit;
    proof {
        assert(decimal_digits(value as nat) =~= seq![digit]);
        assert(buf@ =~= splice(before, idx as int, decimal_digits(magnitude as nat)));
    }
    if negative {
        idx -= 1;
        buf[idx] = MINUS;
        proof {
            assert(buf@ =~= splice(
                before,
                idx as int,
                sign_text(negative) + decimal_digits(magnitude as nat),
            ));
        }
    } else {
        proof {
            assert(sign_text(negative) + decimal_digits(magnitude as nat) =~= decimal_digits(
                magnitude as nat,
            ));
        }
    }
    idx
}

/// Writes the decimal text of `i` at the end of `i_buffer` and returns it.
pub fn itoa_buf_i8(i_buffer: &mut [u8; I82STR_LEN], i: i8) -> (r: &[u8])
    ensures
        r@ == integer_text(i as int),
        final(i_buffer)@ == splice(old(i_buffer)@, I82STR_LEN - r@.len(), r@),
{
    let negative = i < 0;
    let magnitude: u128 = if negative {
        (-(i as i128)) as u128
    } else {
        i as u128
    };
    proof {
        lemma_pow10_values();
        lemma_decimal_length_bound(magnitude as nat, 3);
    }
    let start = write_integer(i_buffer, magnitude, negative);
    let text = slice_subrange(array_as_slice(i_buffer), start, I82STR_LEN);
    proof {
        lemma_decimal_digits_len(magnitude as nat);
        assert(text@ =~= sign_text(i < 0) + decimal_digits(magnitude as nat));
        assert(text@ =~= integer_text(i as int));
    }
    text
}

/// Writes the decimal text of `i` at the end of `i_buffer` and returns it.
pub fn itoa_buf_i16(i_buffer: &mut [u8; I162STR_LEN], i: i16) -> (r: &[u8])
    ensures
        r@ == integer_text(i as int),
        final(i_buffer)@ == splice(old(i_buffer)@, I162STR_LEN - r@.len(), r@),
{
    let negative = i < 0;
    let magnitude: u128 = if negative {
        (-(i as i128)) as u128
    } else {
        i as u128
    };
    proof {
        lemma_pow10_values();
        lemma_decimal_length_bound(magnitude as nat, 5);
    }
    let start = write_integer(i_buffer, magnitude, negative);
    let text = slice_subrange(array_as_slice(i_buffer), start, I162STR_LEN);
    proof {
        lemma_decimal_digits_len(magnitude as nat);
        assert(text@ =~= sign_text(i < 0) + decimal_digits(magnitude as nat));
        assert(text@ =~= integer_text(i as int));
    }
    text
}

/// Writes the decimal text of `i` at the end of `i_buffer` and returns it.
pub fn itoa_buf_i32(i_buffer: &mut [u8; I322STR_LEN], i: i32) -> (r: &[u8])
    ensures
        r@ == integer_text(i as int),
        final(i_buffer)@ == splice(old(i_buffer)@, I322STR_LEN - r@.len(), r@),
{
    let negative = i < 0;
    let magnitude: u128 = if negative {
        (-(i as i128)) as u128
    } else {
        i as u128
    };
    proof {
        lemma_pow10_values();
        lemma_decimal_length_bound(magnitude as nat, 10);
    }
    let start = write_integer(i_buffer, magnitude, negative);
    let text = slice_subrange(array_as_slice(i_buffer), start, I322STR_LEN);
    proof {
        lemma_decimal_digits_len(magnitude as nat);
        assert(text@ =~= sign_text(i < 0) + decimal_digits(magnitude as nat));
        assert(text@ =~= integer_text(i as int));
    }
    text
}

/// Writes the decimal text of `i` at the end of `i_buffer` and returns it.
pub fn itoa_buf_i64(i_buffer: &mut [u8; I642STR_LEN], i: i64) -> (r: &[u8])
    ensures
        r@ == integer_text(i as int),
        final(i_buffer)@ == splice(old(i_buffer)@, I642STR_LEN - r@.len(), r@),
{
    let negative = i < 0;
    let magnitude: u128 = if negative {
        (-(i as i128)) as u128
    } else {
        i as u128
    };
    proof {
        lemma_pow10_values();
        lemma_decimal_length_bound(magnitude as nat, 19);
    }
    let start = write_integer(i_buffer, magnitude, negative);
    let text = slice_subrange(array_as_slice(i_buffer), start, I642STR_LEN);
    proof {
        lemma_decimal_digits_len(magnitude as nat);
        assert(text@ =~= sign_text(i < 0) + decimal_digits(magnitude as nat));
        assert(text@ =~= integer_text(i as int));
    }
    text
}

/// Writes the decimal text of `i` at the end of `i_buffer` and returns it.
pub fn itoa_buf_i128(i_buffer: &mut [u8; I1282STR_LEN], i: i128) -> (r: &[u8])
    ensures
        r@ == integer_text(i as int),
        final(i_buffer)@ == splice(old(i_buffer)@, I1282STR_LEN - r@.len(), r@),
{
    let negative = i < 0;
    let magnitude: u128 = if i == i128::MIN {
        170141183460469231731687303715884105728
    } else if negative {
        (-i) as u128
    } else {
        i as u128
    };
    proof {
        lemma_pow10_39();
        lemma_decimal_length_bound(magnitude as nat, 39);
    }
    let start = write_integer(i_buffer, magnitude, negative);
    let text = slice_subrange(array_as_slice(i_buffer), start, I1282STR_LEN);
    proof {
        lemma_decimal_digits_len(magnitude as nat);
        assert(text@ =~= sign_text(i < 0) + decimal_digits(magnitude as nat));
        assert(text@ =~= integer_text(i as int));
    }
    text
}

/// Writes the decimal text of `i` at the end of `i_buffer` and returns it.
pub fn itoa_buf_isize(i_buffer: &mut [u8; ISIZE2STR_SIZE], i: isize) -> (r: &[u8])
    ensures
        r@ == integer_text(i as int),
        final(i_buffer)@ == splice(old(i_buffer)@, ISIZE2STR_SIZE - r@.len(), r@),
{
    let negative = i < 0;
    let magnitude: u128 = if negative {
        (-(i as i128)) as u128
    } else {
        i as u128
    };
    proof {
        lemma_pow10_values();
        lemma_decimal_length_bound(magnitude as nat, 19);
    }
    let start = write_integer(i_buffer, magnitude, negative);
    let text = slice_subrange(array_as_slice(i_buffer), start, ISIZE2STR_SIZE);
    proof {
        lemma_decimal_digits_len(magnitude as nat);
        assert(text@ =~= sign_text(i < 0) + decimal_digits(magnitude as nat));
        assert(text@ =~= integer_text(i as int));
    }
    text
}

/// Writes the decimal text of `i` at the end of `i_buffer` and returns it.
pub fn itoa_buf_u8(i_buffer: &mut [u8; U82STR_LEN], i: u8) -> (r: &[u8])
    ensures
        r@ == integer_text(i as int),
        final(i_buffer)@ == splice(old(i_buffer)@, U82STR_LEN - r@.len(), r@),
{
    let magnitude = i as u128;
    proof {
        lemma_pow10_values();
        lemma_decimal_length_bound(magnitude as nat, 3);
    }
    let start = write_integer(i_buffer, magnitude, false);
    let text = slice_subrange(array_as_slice(i_buffer), start, U82STR_LEN);
    proof {
        lemma_decimal_digits_len(magnitude as nat);
        assert(text@ =~= sign_text(i < 0) + decimal_digits(magnitude as nat));
        assert(text@ =~= integer_text(i as int));
    }
    text
}

/// Writes the decimal text of `i` at the end of `i_buffer` and returns it.
pub fn itoa_buf_u16(i_buffer: &mut [u8; U162STR_LEN], i: u16) -> (r: &[u8])
    ensures
        r@ == integer_text(i as int),
        final(i_buffer)@ == splice(old(i_buffer)@, U162STR_LEN - r@.len(), r@),
{
    let magnitude = i as u128;
    proof {
        lemma_pow10_values();
        lemma_decimal_length_bound(magnitude as nat, 5);
    }
    let start = write_integer(i_buffer, magnitude, false);
    let text = slice_subrange(array_as_slice(i_buffer), start, U162STR_LEN);
    proof {
        lemma_decimal_digits_len(magnitude as nat);
        assert(text@ =~= sign_text(i < 0) + decimal_digits(magnitude as nat));
        assert(text@ =~= integer_text(i as int));
    }
    text
}

/// Writes the decimal text of `i` at the end of `i_buffer` and returns it.
pub fn itoa_buf_u32(i_buffer: &mut [u8; U322STR_LEN], i: u32) -> (r: &[u8])
    ensures
        r@ == integer_text(i as int),
        final(i_buffer)@ == splice(old(i_buffer)@, U322STR_LEN - r@.len(), r@),
{
    let magnitude = i as u128;
    proof {
        lemma_pow10_values();
        lemma_decimal_length_bound(magnitude as nat, 10);
    }
    let start = write_integer(i_buffer, magnitude, false);
    let text = slice_subrange(array_as_slice(i_buffer), start, U322STR_LEN);
    proof {
        lemma_decimal_digits_len(magnitude as nat);
        assert(text@ =~= sign_text(i < 0) + decimal_digits(magnitude as nat));
        assert(text@ =~= integer_text(i as int));
    }
    text
}

/// Writes the decimal text of `i` at the end of `i_buffer` and returns it.
pub fn itoa_buf_u64(i_buffer: &mut [u8; U642STR_LEN], i: u64) -> (r: &[u8])
    ensures
        r@ == integer_text(i as int),
        final(i_buffer)@ == splice(old(i_buffer)@, U642STR_LEN - r@.len(), r@),
{
    let magnitude = i as u128;
    proof {
        lemma_pow10_values();
        lemma_decimal_length_bound(magnitude as nat, 20);
    }
    let start = write_integer(i_buffer, magnitude, false);
    let text = slice_subrange(array_as_slice(i_buffer), start, U642STR_LEN);
    proof {
        lemma_decimal_digits_len(magnitude as nat);
        assert(text@ =~= sign_text(i < 0) + decimal_digits(magnitude as nat));
        assert(text@ =~= integer_text(i as int));
    }
    text
}

/// Writes the decimal text of `i` at the end of `i_buffer` and returns it.
pub fn itoa_buf_u128(i_buffer: &mut [u8; U1282STR_LEN], i: u128) -> (r: &[u8])
    ensures
        r@ == integer_text(i as int),
        final(i_buffer)@ == splice(old(i_buffer)@, U1282STR_LEN - r@.len(), r@),
{
    let magnitude = i as u128;
    proof {
        lemma_pow10_39();
        lemma_decimal_length_bound(magnitude as nat, 39);
    }
    let start = write_integer(i_buffer, magnitude, false);
    let text = slice_subrange(array_as_slice(i_buffer), start, U1282STR_LEN);
    proof {
        lemma_decimal_digits_len(magnitude as nat);
        assert(text@ =~= sign_text(i < 0) + decimal_digits(magnitude as nat));
        assert(text@ =~= integer_text(i as int));
    }
    text
}

/// Writes the decimal text of `i` at the end of `i_buffer` and returns it.
pub fn itoa_buf_usize(i_buffer: &mut [u8; USIZE2STR_LEN], i: usize) -> (r: &[u8])
    ensures
        r@ == integer_text(i as int),
        final(i_buffer)@ == splice(old(i_buffer)@, USIZE2STR_LEN - r@.len(), r@),
{
    let magnitude = i as u128;
    proof {
        lemma_pow10_values();
        lemma_decimal_length_bound(magnitude as nat, 20);
    }
    let start = write_integer(i_buffer, magnitude, false);
    let text = slice_subrange(array_as_slice(i_buffer), start, USIZE2STR_LEN);
    proof {
        lemma_decimal_digits_len(magnitude as nat);
        assert(text@ =~= sign_text(i < 0) + decimal_digits(magnitude as nat));
        assert(text@ =~= integer_text(i as int));
    }
    text
}

/// Writes the text of an integer, given by its magnitude and its sign, at the
/// end of `bytes` and returns it.
pub fn integer_parameter<'a>(bytes: &'a mut [u8], magnitude: u128, negative: bool) -> (r: &'a [u8])
    requires
        old(bytes)@.len() >= 40,
    ensures
        r@ == sign_text(negative) + decimal_digits(magnitude as nat),
        r@.len() <= 40,
        final(bytes)@ == splice(old(bytes)@, old(bytes)@.len() - r@.len(), r@),
{
    proof {
        lemma_pow10_39();
        lemma_decimal_length_bound(magnitude as nat, 39);
        lemma_decimal_digits_len(magnitude as nat);
    }
    let start = write_integer(bytes, magnitude, negative);
    let size = bytes.len();
    let text = slice_subrange(bytes, start, size);
    proof {
        assert(text@ =~= sign_text(negative) + decimal_digits(magnitude as nat));
    }
    text
}

/// Copies `var` into `out` from position `offset` on and moves `offset` behind
/// it.
pub fn append_parameter(out: &mut Vec<u8>, var: &[u8], offset: &mut usize)
    requires
        *old(offset) + var@.len() <= old(out)@.len(),
    ensures
        final(out)@ == splice(old(out)@, *old(offset) as int, var@),
        *final(offset) == *old(offset) + var@.len(),
{
    let ghost before = out@;
    let start = *offset;
    let count = var.len();
    let size = out.len();
    let mut i: usize = 0;
    proof {
        assert(out@ =~= splice(before, start as int, var@.subrange(0, 0)));
    }
    while i < count
        invariant
            i <= count == var@.len(),
            start + count <= size == before.len(),
            out@.len() == before.len(),
            out@ == splice(before, start as int, var@.subrange(0, i as int)),
        decreases count - i,
    {
        out[start + i] = var[i];
        proof {
            assert(out@ =~= splice(before, start as int, var@.subrange(0, i + 1)));
        }
        i += 1;
    }
    proof {
        assert(var@.subrange(0, count as int) =~= var@);
    }
    *offset = start + count;
}

/// A value whose text has a length that its type bounds: it renders itself
/// into a scratch buffer before the concatenation allocates.
pub trait StaticSizeConcatParameter: Sized {
    /// The text that this value adds to a concatenation.
    spec fn concat_text(&self) -> Seq<u8>;

    /// Renders the first value of a concatenation into `bytes`; returns the
    /// length of its text, which starts the total, and the text.
    fn first_parameter_for_concat<'a>(self, bytes: &'a mut [u8]) -> (r: (usize, &'a [u8]))
        requires
            old(bytes)@.len() >= 40,
        ensures
            r.0 == r.1@.len(),
            r.1@ == self.concat_text(),
            final(bytes)@.len() == old(bytes)@.len(),
    ;

    /// Renders a further value of a concatenation into `bytes` and adds the
    /// length of its text to `total_len`; returns the text.
    fn init_concat_parameter<'a>(self, bytes: &'a mut [u8], total_len: &mut usize) -> (r: &'a [u8])
        requires
            old(bytes)@.len() >= 40,
            *old(total_len) + 40 <= usize::MAX,
        ensures
            r@ == self.concat_text(),
            *final(total_len) == *old(total_len) + r@.len(),
            final(bytes)@.len() == old(bytes)@.len(),
    ;

    /// Copies the rendered text `var` of this value into `out` from position
    /// `offset` on and moves `offset` behind it.
    fn concat_parameter(&self, out: &mut Vec<u8>, var: &[u8], offset: &mut usize)
        requires
            var@ == self.concat_text(),
            *old(offset) + var@.len() <= old(out)@.len(),
        ensures
            final(out)@ == splice(old(out)@, *old(offset) as int, self.concat_text()),
            *final(offset) == *old(offset) + self.concat_text().len(),
    ;
}

impl StaticSizeConcatParameter for i8 {
    open spec fn concat_text(&self) -> Seq<u8> {
        integer_text(*self as int)
    }

    fn first_parameter_for_concat<'a>(self, bytes: &'a mut [u8]) -> (r: (usize, &'a [u8])) {
        let negative = self < 0;
        let magnitude: u128 = if negative {
            (-(self as i128)) as u128
        } else {
            self as u128
        };
        let vb = integer_parameter(bytes, magnitude, negative);
        proof {
            assert(vb@ =~= integer_text(self as int));
        }
        (vb.len(), vb)
    }

    fn init_concat_parameter<'a>(self, bytes: &'a mut [u8], total_len: &mut usize) -> (r: &'a [u8]) {
        let negative = self < 0;
        let magnitude: u128 = if negative {
            (-(self as i128)) as u128
        } else {
            self as u128
        };
        let vb = integer_parameter(bytes, magnitude, negative);
        proof {
            assert(vb@ =~= integer_text(self as int));
        }
        *total_len += vb.len();
        vb
    }

    fn concat_parameter(&self, out: &mut Vec<u8>, vb: &[u8], offset: &mut usize) {
        append_parameter(out, vb, offset);
    }
}

impl StaticSizeConcatParameter for i16 {
    open spec fn concat_text(&self) -> Seq<u8> {
        integer_text(*self as int)
    }

    fn first_parameter_for_concat<'a>(self, bytes: &'a mut [u8]) -> (r: (usize, &'a [u8])) {
        let negative = self < 0;
        let magnitude: u128 = if negative {
            (-(self as i128)) as u128
        } else {
            self as u128
        };
        let vb = integer_parameter(bytes, magnitude, negative);
        proof {
            assert(vb@ =~= integer_text(self as int));
        }
        (vb.len(), vb)
    }

    fn init_concat_parameter<'a>(self, bytes: &'a mut [u8], total_len: &mut usize) -> (r: &'a [u8]) {
        let negative = self < 0;
        let magnitude: u128 = if negative {
            (-(self as i128)) as u128
        } else {
            self as u128
        };
        let vb = integer_parameter(bytes, magnitude, negative);
        proof {
            assert(vb@ =~= integer_text(self as int));
        }
        *total_len += vb.len();
        vb
    }

    fn concat_parameter(&self, out: &mut Vec<u8>, vb: &[u8], offset: &mut usize) {
        append_parameter(out, vb, offset);
    }
}

impl StaticSizeConcatParameter for i32 {
    open spec fn concat_text(&self) -> Seq<u8> {
        integer_text(*self as int)
    }

    fn first_parameter_for_concat<'a>(self, bytes: &'a mut [u8]) -> (r: (usize, &'a [u8])) {
        let negative = self < 0;
        let magnitude: u128 = if negative {
            (-(self as i128)) as u128
        } else {
            self as u128
        };
        let vb = integer_parameter(bytes, magnitude, negative);
        proof {
            assert(vb@ =~= integer_text(self as int));
        }
        (vb.len(), vb)
    }

    fn init_concat_parameter<'a>(self, bytes: &'a mut [u8], total_len: &mut usize) -> (r: &'a [u8]) {
        let negative = self < 0;
        let magnitude: u128 = if negative {
            (-(self as i128)) as u128
        } else {
            self as u128
        };
        let vb = integer_parameter(bytes, magnitude, negative);
        proof {
            assert(vb@ =~= integer_text(self as int));
        }
        *total_len += vb.len();
        vb
    }

    fn concat_parameter(&self, out: &mut Vec<u8>, vb: &[u8], offset: &mut usize) {
        append_parameter(out, vb, offset);
    }
}

impl StaticSizeConcatParameter for i64 {
    open spec fn concat_text(&self) -> Seq<u8> {
        integer_text(*self as int)
    }

    fn first_parameter_for_concat<'a>(self, bytes: &'a mut [u8]) -> (r: (usize, &'a [u8])) {
        let negative = self < 0;
        let magnitude: u128 = if negative {
            (-(self as i128)) as u128
        } else {
            self as u128
        };
        let vb = integer_parameter(bytes, magnitude, negative);
        proof {
            assert(vb@ =~= integer_text(self as int));
        }
        (vb.len(), vb)
    }

    fn init_concat_parameter<'a>(self, bytes: &'a mut [u8], total_len: &mut usize) -> (r: &'a [u8]) {
        let negative = self < 0;
        let magnitude: u128 = if negative {
            (-(self as i128)) as u128
        } else {
            self as u128
        };
        let vb = integer_parameter(bytes, magnitude, negative);
        proof {
            assert(vb@ =~= integer_text(self as int));
        }
        *total_len += vb.len();
        vb
    }

    fn concat_parameter(&self, out: &mut Vec<u8>, vb: &[u8], offset: &mut usize) {
        append_parameter(out, vb, offset);
    }
}

impl StaticSizeConcatParameter for i128 {
    open spec fn concat_text(&self) -> Seq<u8> {
        integer_text(*self as int)
    }

    fn first_parameter_for_concat<'a>(self, bytes: &'a mut [u8]) -> (r: (usize, &'a [u8])) {
        let negative = self < 0;
        let magnitude: u128 = if self == i128::MIN {
            170141183460469231731687303715884105728
        } else if negative {
            (-self) as u128
        } else {
            self as u128
        };
        let vb = integer_parameter(bytes, magnitude, negative);
        proof {
            assert(vb@ =~= integer_text(self as int));
        }
        (vb.len(), vb)
    }

    fn init_concat_parameter<'a>(self, bytes: &'a mut [u8], total_len: &mut usize) -> (r: &'a [u8]) {
        let negative = self < 0;
        let magnitude: u128 = if self == i128::MIN {
            170141183460469231731687303715884105728
        } else if negative {
            (-self) as u128
        } else {
            self as u128
        };
        let vb = integer_parameter(bytes, magnitude, negative);
        proof {
            assert(vb@ =~= integer_text(self as int));
        }
        *total_len += vb.len();
        vb
    }

    fn concat_parameter(&self, out: &mut Vec<u8>, vb: &[u8], offset: &mut usize) {
        append_parameter(out, vb, offset);
    }
}

impl StaticSizeConcatParameter for u8 {
    open spec fn concat_text(&self) -> Seq<u8> {
        integer_text(*self as int)
    }

    fn first_parameter_for_concat<'a>(self, bytes: &'a mut [u8]) -> (r: (usize, &'a [u8])) {
        let negative = false;
        let magnitude = self as u128;
        let vb = integer_parameter(bytes, magnitude, negative);
        proof {
            assert(vb@ =~= integer_text(self as int));
        }
        (vb.len(), vb)
    }

    fn init_concat_parameter<'a>(self, bytes: &'a mut [u8], total_len: &mut usize) -> (r: &'a [u8]) {
        let negative = false;
        let magnitude = self as u128;
        let vb = integer_parameter(bytes, magnitude, negative);
        proof {
            assert(vb@ =~= integer_text(self as int));
        }
        *total_len += vb.len();
        vb
    }

    fn concat_parameter(&self, out: &mut Vec<u8>, vb: &[u8], offset: &mut usize) {
        append_parameter(out, vb, offset);
    }
}

impl StaticSizeConcatParameter for u16 {
    open spec fn concat_text(&self) -> Seq<u8> {
        integer_text(*self as int)
    }

    fn first_parameter_for_concat<'a>(self, bytes: &'a mut [u8]) -> (r: (usize, &'a [u8])) {
        let negative = false;
        let magnitude = self as u128;
        let vb = integer_parameter(bytes, magnitude, negative);
        proof {
            assert(vb@ =~= integer_text(self as int));
        }
        (vb.len(), vb)
    }

    fn init_concat_parameter<'a>(self, bytes: &'a mut [u8], total_len: &mut usize) -> (r: &'a [u8]) {
        let negative = false;
        let magnitude = self as u128;
        let vb = integer_parameter(bytes, magnitude, negative);
        proof {
            assert(vb@ =~= integer_text(self as int));
        }
        *total_len += vb.len();
        vb
    }

    fn concat_parameter(&self, out: &mut Vec<u8>, vb: &[u8], offset: &mut usize) {
        append_parameter(out, vb, offset);
    }
}

impl StaticSizeConcatParameter for u32 {
    open spec fn concat_text(&self) -> Seq<u8> {
        integer_text(*self as int)
    }

    fn first_parameter_for_concat<'a>(self, bytes: &'a mut [u8]) -> (r: (usize, &'a [u8])) {
        let negative = false;
        let magnitude = self as u128;
        let vb = integer_parameter(bytes, magnitude, negative);
        proof {
            assert(vb@ =~= integer_text(self as int));
        }
        (vb.len(), vb)
    }

    fn init_concat_parameter<'a>(self, bytes: &'a mut [u8], total_len: &mut usize) -> (r: &'a [u8]) {
        let negative = false;
        let magnitude = self as u128;
        let vb = integer_parameter(bytes, magnitude, negative);
        proof {
            assert(vb@ =~= integer_text(self as int));
        }
        *total_len += vb.len();
        vb
    }

    fn concat_parameter(&self, out: &mut Vec<u8>, vb: &[u8], offset: &mut usize) {
        append_parameter(out, vb, offset);
    }
}

impl StaticSizeConcatParameter for u64 {
    open spec fn concat_text(&self) -> Seq<u8> {
        integer_text(*self as int)
    }

    fn first_parameter_for_concat<'a>(self, bytes: &'a mut [u8]) -> (r: (usize, &'a [u8])) {
        let negative = false;
        let magnitude = self as u128;
        let vb = integer_parameter(bytes, magnitude, negative);
        proof {
            assert(vb@ =~= integer_text(self as int));
        }
        (vb.len(), vb)
    }

    fn init_concat_parameter<'a>(self, bytes: &'a mut [u8], total_len: &mut usize) -> (r: &'a [u8]) {
        let negative = false;
        let magnitude = self as u128;
        let vb = integer_parameter(bytes, magnitude, negative);
        proof {
            assert(vb@ =~= integer_text(self as int));
        }
        *total_len += vb.len();
        vb
    }

    fn concat_parameter(&self, out: &mut Vec<u8>, vb: &[u8], offset: &mut usize) {
        append_parameter(out, vb, offset);
    }
}

impl StaticSizeConcatParameter for u128 {
    open spec fn concat_text(&self) -> Seq<u8> {
        integer_text(*self as int)
    }

    fn first_parameter_for_concat<'a>(self, bytes: &'a mut [u8]) -> (r: (usize, &'a [u8])) {
        let negative = false;
        let magnitude = self as u128;
        let vb = integer_parameter(bytes, magnitude, negative);
        proof {
            assert(vb@ =~= integer_text(self as int));
        }
        (vb.len(), vb)
    }

    fn init_concat_parameter<'a>(self, bytes: &'a mut [u8], total_len: &mut usize) -> (r: &'a [u8]) {
        let negative = false;
        let magnitude = self as u128;
        let vb = integer_parameter(bytes, magnitude, negative);
        proof {
            assert(vb@ =~= integer_text(self as int));
        }
        *total_len += vb.len();
        vb
    }

    fn concat_parameter(&self, out: &mut Vec<u8>, vb: &[u8], offset: &mut usize) {
        append_parameter(out, vb, offset);
    }
}

/// The text of a value that is not a number.
pub const NAN_TEXT: [u8; 3] = [78, 65, 78];

/// The text of positive infinity.
pub const INFINITY_TEXT: [u8; 8] = [73, 78, 70, 73, 78, 73, 84, 89];

/// The text of negative infinity.
pub const NEG_INFINITY_TEXT: [u8; 12] = [78, 69, 71, 95, 73, 78, 70, 73, 78, 73, 84, 89];

/// The text of a double given by its bits: `NAN`, `INFINITY` or
/// `NEG_INFINITY` where all bits of the exponent field are set, and the text
/// of the finite value else.
pub open spec fn spec_ftoa_f64(bits: u64) -> Seq<u8> {
    if double_exponent(bits) == 2047 {
        if double_mantissa(bits) != 0 {
            NAN_TEXT@
        } else if double_sign(bits) {
            NEG_INFINITY_TEXT@
        } else {
            INFINITY_TEXT@
        }
    } else {
        spec_format64(bits)
    }
}

/// The text of a float given by its bits: `NAN`, `INFINITY` or
/// `NEG_INFINITY` where all bits of the exponent field are set, and the text
/// of the finite value else.
pub open spec fn spec_ftoa_f32(bits: u32) -> Seq<u8> {
    if float_exponent(bits) == 255 {
        if float_mantissa(bits) != 0 {
            NAN_TEXT@
        } else if float_sign(bits) {
            NEG_INFINITY_TEXT@
        } else {
            INFINITY_TEXT@
        }
    } else {
        spec_format32(bits)
    }
}

/// Copies a fixed text to the start of `buf`; returns its length.
pub fn write_text<const N: usize>(buf: &mut [u8; 24], text: &[u8; N]) -> (n: usize)
    requires
        N <= 24,
    ensures
        n == N,
        final(buf)@ == splice(old(buf)@, 0, text@),
{
    let ghost before = buf@;
    let mut i: usize = 0;
    proof {
        assert(buf@ =~= splice(before, 0, text@.subrange(0, 0)));
    }
    while i < N
        invariant
            i <= N <= 24,
            before.len() == 24,
            buf@ == splice(before, 0, text@.subrange(0, i as int)),
        decreases N - i,
    {
        buf[i] = text[i];
        proof {
            assert(buf@ =~= splice(before, 0, text@.subrange(0, i + 1)));
        }
        i += 1;
    }
    proof {
        assert(text@.subrange(0, N as int) =~= text@);
    }
    N
}

/// Writes the text of the float with the given bits at the start of `buf`
/// and returns it: the shortest decimal that reads back as the value, or the
/// name of the special value.
pub fn ftoa_buf_f32(buf: &mut [u8; 24], bits: u32) -> (r: &[u8])
    ensures
        r@ == spec_ftoa_f32(bits),
        r@.len() <= 24,
        final(buf)@ == splice(old(buf)@, 0, r@),
        float_exponent(bits) != 255 ==> text_reads_back_as_float(r@, bits),
{
    proof {
        if float_exponent(bits) != 255 {
            lemma_ftoa_f32_round_trip(bits);
        }
    }
    assert((bits & 0x7f80_0000 == 0x7f80_0000) == ((bits / 0x80_0000) % 0x100 == 255))
        by (bit_vector);
    assert((bits & 0x007f_ffff != 0) == (bits % 0x80_0000 != 0)) by (bit_vector);
    assert((bits & 0x8000_0000 != 0) == (bits >= 0x8000_0000)) by (bit_vector);
    let n = if bits & 0x7f80_0000 == 0x7f80_0000 {
        if bits & 0x007f_ffff != 0 {
            write_text(buf, &NAN_TEXT)
        } else if bits & 0x8000_0000 != 0 {
            write_text(buf, &NEG_INFINITY_TEXT)
        } else {
            write_text(buf, &INFINITY_TEXT)
        }
    } else {
        format32(bits, buf)
    };
    let text = slice_subrange(array_as_slice(buf), 0, n);
    proof {
        assert(text@ =~= spec_ftoa_f32(bits));
    }
    text
}

/// Writes the text of the double with the given bits at the start of `buf`
/// and returns it: the shortest decimal that reads back as the value, or the
/// name of the special value.
pub fn ftoa_buf_f64(buf: &mut [u8; 24], bits: u64) -> (r: &[u8])
    ensures
        r@ == spec_ftoa_f64(bits),
        r@.len() <= 24,
        final(buf)@ == splice(old(buf)@, 0, r@),
        double_exponent(bits) != 2047 ==> text_reads_back_as_double(r@, bits),
{
    proof {
        if double_exponent(bits) != 2047 {
            lemma_ftoa_f64_round_trip(bits);
        }
    }
    assert((bits & 0x7ff0_0000_0000_0000 == 0x7ff0_0000_0000_0000) == ((bits
        / 0x10_0000_0000_0000) % 0x800 == 2047)) by (bit_vector);
    assert((bits & 0x000f_ffff_ffff_ffff != 0) == (bits % 0x10_0000_0000_0000 != 0))
        by (bit_vector);
    assert((bits & 0x8000_0000_0000_0000 != 0) == (bits >= 0x8000_0000_0000_0000))
        by (bit_vector);
    let n = if bits & 0x7ff0_0000_0000_0000 == 0x7ff0_0000_0000_0000 {
        if bits & 0x000f_ffff_ffff_ffff != 0 {
            write_text(buf, &NAN_TEXT)
        } else if bits & 0x8000_0000_0000_0000 != 0 {
            write_text(buf, &NEG_INFINITY_TEXT)
        } else {
            write_text(buf, &INFINITY_TEXT)
        }
    } else {
        format64(bits, buf)
    };
    let text = slice_subrange(array_as_slice(buf), 0, n);
    proof {
        assert(text@ =~= spec_ftoa_f64(bits));
    }
    text
}

/// The text of a boolean that is set.
pub const TRUE_TEXT: [u8; 4] = [116, 114, 117, 101];

/// The text of a boolean that is not set.
pub const FALSE_TEXT: [u8; 5] = [102, 97, 108, 115, 101];

/// Copies `text` to the start of the scratch buffer `bytes` and returns the
/// copy.
pub fn scratch_copy<'a>(bytes: &'a mut [u8], text: &[u8]) -> (r: &'a [u8])
    requires
        text@.len() <= old(bytes)@.len(),
    ensures
        r@ == text@,
        final(bytes)@ == splice(old(bytes)@, 0, text@),
{
    let ghost before = bytes@;
    let count = text.len();
    let mut i: usize = 0;
    proof {
        assert(bytes@ =~= splice(before, 0, text@.subrange(0, 0)));
    }
    while i < count
        invariant
            i <= count == text@.len(),
            count <= before.len(),
            bytes@ == splice(before, 0, text@.subrange(0, i as int)),
        decreases count - i,
    {
        bytes[i] = text[i];
        proof {
            assert(bytes@ =~= splice(before, 0, text@.subrange(0, i + 1)));
        }
        i += 1;
    }
    proof {
        assert(text@.subrange(0, count as int) =~= text@);
    }
    let copy = slice_subrange(bytes, 0, count);
    proof {
        assert(copy@ =~= text@);
    }
    copy
}

/// [`char::encode_utf8`]: writes the UTF-8 encoding of `c` into `dst` and
/// returns the part of `dst` that holds it. Four bytes are room enough for
/// any character.
#[verifier::external_body]
fn char_encode_utf8<'a>(c: char, dst: &'a mut [u8]) -> (r: &'a [u8])
    requires
        old(dst)@.len() >= 4,
    ensures
        r@ == encode_scalar(c as u32),
        final(dst)@.len() == old(dst)@.len(),
{
    c.encode_utf8(dst).as_bytes()
}

/// The bits of a single-precision value, as a parameter of a concatenation.
#[derive(Clone, Copy)]
pub struct FloatBits(pub u32);

/// The bits of a double-precision value, as a parameter of a concatenation.
#[derive(Clone, Copy)]
pub struct DoubleBits(pub u64);

impl StaticSizeConcatParameter for FloatBits {
    open spec fn concat_text(&self) -> Seq<u8> {
        spec_ftoa_f32(self.0)
    }

    fn first_parameter_for_concat<'a>(self, bytes: &'a mut [u8]) -> (r: (usize, &'a [u8])) {
        let mut buf = [0u8; F2STR_LEN];
        let vb = scratch_copy(bytes, ftoa_buf_f32(&mut buf, self.0));
        (vb.len(), vb)
    }

    fn init_concat_parameter<'a>(self, bytes: &'a mut [u8], total_len: &mut usize) -> (r: &'a [u8]) {
        let mut buf = [0u8; F2STR_LEN];
        let vb = scratch_copy(bytes, ftoa_buf_f32(&mut buf, self.0));
        *total_len += vb.len();
        vb
    }

    fn concat_parameter(&self, out: &mut Vec<u8>, vb: &[u8], offset: &mut usize) {
        append_parameter(out, vb, offset);
    }
}

impl StaticSizeConcatParameter for DoubleBits {
    open spec fn concat_text(&self) -> Seq<u8> {
        spec_ftoa_f64(self.0)
    }

    fn first_parameter_for_concat<'a>(self, bytes: &'a mut [u8]) -> (r: (usize, &'a [u8])) {
        let mut buf = [0u8; F2STR_LEN];
        let vb = scratch_copy(bytes, ftoa_buf_f64(&mut buf, self.0));
        (vb.len(), vb)
    }

    fn init_concat_parameter<'a>(self, bytes: &'a mut [u8], total_len: &mut usize) -> (r: &'a [u8]) {
        let mut buf = [0u8; F2STR_LEN];
        let vb = scratch_copy(bytes, ftoa_buf_f64(&mut buf, self.0));
        *total_len += vb.len();
        vb
    }

    fn concat_parameter(&self, out: &mut Vec<u8>, vb: &[u8], offset: &mut usize) {
        append_parameter(out, vb, offset);
    }
}

/// A value whose text has a length that only the value tells: a string, a
/// character, a boolean.
pub trait VariableSizeConcatParameter {
    /// The text that this value adds to a concatenation.
    spec fn concat_text(&self) -> Seq<u8>;

    /// Takes the first value of a concatenation; returns the length of its
    /// text, which starts the total, and the text.
    fn first_parameter_for_concat<'a>(&'a self, bytes: &'a mut [u8]) -> (r: (usize, &'a [u8]))
        requires
            old(bytes)@.len() >= 40,
        ensures
            r.0 == r.1@.len(),
            r.1@ == self.concat_text(),
            final(bytes)@.len() == old(bytes)@.len(),
    ;

    /// Takes a further value of a concatenation and adds the length of its
    /// text to `total_len`; returns the text.
    fn init_concat_parameter<'a>(&'a self, bytes: &'a mut [u8], total_len: &mut usize) -> (r:
        &'a [u8])
        requires
            old(bytes)@.len() >= 40,
            *old(total_len) + self.concat_text().len() <= usize::MAX,
        ensures
            r@ == self.concat_text(),
            *final(total_len) == *old(total_len) + r@.len(),
            final(bytes)@.len() == old(bytes)@.len(),
    ;

    /// Copies the text `buf` of this value into `out` from position `offset`
    /// on and moves `offset` behind it.
    fn concat_parameter(&self, out: &mut Vec<u8>, buf: &[u8], offset: &mut usize)
        requires
            buf@ == self.concat_text(),
            *old(offset) + buf@.len() <= old(out)@.len(),
        ensures
            final(out)@ == splice(old(out)@, *old(offset) as int, self.concat_text()),
            *final(offset) == *old(offset) + self.concat_text().len(),
    ;
}

impl VariableSizeConcatParameter for String {
    open spec fn concat_text(&self) -> Seq<u8> {
        encode_utf8(self@)
    }

    fn first_parameter_for_concat<'a>(&'a self, _bytes: &'a mut [u8]) -> (r: (usize, &'a [u8])) {
        (self.as_str().as_bytes().len(), self.as_str().as_bytes())
    }

    fn init_concat_parameter<'a>(&'a self, _bytes: &'a mut [u8], total_len: &mut usize) -> (r:
        &'a [u8]) {
        *total_len += self.as_str().len();
        self.as_str().as_bytes()
    }

    fn concat_parameter(&self, out: &mut Vec<u8>, vb: &[u8], offset: &mut usize) {
        append_parameter(out, vb, offset);
    }
}

impl VariableSizeConcatParameter for str {
    open spec fn concat_text(&self) -> Seq<u8> {
        encode_utf8(self@)
    }

    fn first_parameter_for_concat<'a>(&'a self, _bytes: &'a mut [u8]) -> (r: (usize, &'a [u8])) {
        (self.as_bytes().len(), self.as_bytes())
    }

    fn init_concat_parameter<'a>(&'a self, _bytes: &'a mut [u8], total_len: &mut usize) -> (r:
        &'a [u8]) {
        *total_len += self.len();
        self.as_bytes()
    }

    fn concat_parameter(&self, out: &mut Vec<u8>, vb: &[u8], offset: &mut usize) {
        append_parameter(out, vb, offset);
    }
}

impl VariableSizeConcatParameter for char {
    open spec fn concat_text(&self) -> Seq<u8> {
        encode_scalar(*self as u32)
    }

    fn first_parameter_for_concat<'a>(&'a self, bytes: &'a mut [u8]) -> (r: (usize, &'a [u8])) {
        let bytes = char_encode_utf8(*self, bytes);
        (bytes.len(), bytes)
    }

    fn init_concat_parameter<'a>(&'a self, bytes: &'a mut [u8], total_len: &mut usize) -> (r:
        &'a [u8]) {
        let bytes = char_encode_utf8(*self, bytes);
        *total_len += bytes.len();
        bytes
    }

    fn concat_parameter(&self, out: &mut Vec<u8>, vb: &[u8], offset: &mut usize) {
        append_parameter(out, vb, offset);
    }
}

impl VariableSizeConcatParameter for bool {
    open spec fn concat_text(&self) -> Seq<u8> {
        if *self {
            TRUE_TEXT@
        } else {
            FALSE_TEXT@
        }
    }

    fn first_parameter_for_concat<'a>(&'a self, bytes: &'a mut [u8]) -> (r: (usize, &'a [u8])) {
        if *self {
            (4, scratch_copy(bytes, array_as_slice(&TRUE_TEXT)))
        } else {
            (5, scratch_copy(bytes, array_as_slice(&FALSE_TEXT)))
        }
    }

    fn init_concat_parameter<'a>(&'a self, bytes: &'a mut [u8], total_len: &mut usize) -> (r:
        &'a [u8]) {
        *total_len += if *self {
            4
        } else {
            5
        };
        if *self {
            scratch_copy(bytes, array_as_slice(&TRUE_TEXT))
        } else {
            scratch_copy(bytes, array_as_slice(&FALSE_TEXT))
        }
    }

    fn concat_parameter(&self, out: &mut Vec<u8>, _vb: &[u8], offset: &mut usize) {
        if *self {
            append_parameter(out, array_as_slice(&TRUE_TEXT), offset);
        } else {
            append_parameter(out, array_as_slice(&FALSE_TEXT), offset);
        }
    }
}

/// Converting the same float twice gives the same bytes, whatever the two
/// buffers held before: `first` and `second` stand for the texts that two
/// conversions of `bits` return.
pub proof fn lemma_ftoa_f32_deterministic(bits: u32, first: Seq<u8>, second: Seq<u8>)
    requires
        first == spec_ftoa_f32(bits),
        second == spec_ftoa_f32(bits),
    ensures
        first == second,
{
}

/// Converting the same double twice gives the same bytes, whatever the two
/// buffers held before: `first` and `second` stand for the texts that two
/// conversions of `bits` return.
pub proof fn lemma_ftoa_f64_deterministic(bits: u64, first: Seq<u8>, second: Seq<u8>)
    requires
        first == spec_ftoa_f64(bits),
        second == spec_ftoa_f64(bits),
    ensures
        first == second,
{
}

/// The text of a finite float and that of its negative differ by a leading
/// `-` and by nothing else.
pub proof fn lemma_ftoa_f32_sign_symmetry(bits: u32)
    requires
        !float_sign(bits),
        float_exponent(bits) != 255,
    ensures
        spec_ftoa_f32((bits + 0x8000_0000) as u32) == seq![MINUS] + spec_ftoa_f32(bits),
{
    let negative = (bits + 0x8000_0000) as u32;
    assert(float_sign(negative));
    assert(float_mantissa(negative) == float_mantissa(bits));
    assert(float_exponent(negative) == float_exponent(bits));
    assert(spec_ftoa_f32(negative) =~= seq![MINUS] + spec_ftoa_f32(bits));
}

/// The text of a finite double and that of its negative differ by a leading
/// `-` and by nothing else.
pub proof fn lemma_ftoa_f64_sign_symmetry(bits: u64)
    requires
        !double_sign(bits),
        double_exponent(bits) != 2047,
    ensures
        spec_ftoa_f64((bits + 0x8000_0000_0000_0000) as u64) == seq![MINUS] + spec_ftoa_f64(bits),
{
    let negative = (bits + 0x8000_0000_0000_0000) as u64;
    assert(double_sign(negative));
    assert(double_mantissa(negative) == double_mantissa(bits));
    assert(double_exponent(negative) == double_exponent(bits));
    assert(spec_ftoa_f64(negative) =~= seq![MINUS] + spec_ftoa_f64(bits));
}

/// `text` is a numeral for `n * 10^k`, with a minus sign before it exactly if
/// `negative` is set.
pub open spec fn denotes_signed(text: Seq<u8>, negative: bool, n: nat, k: int) -> bool {
    let sign = sign_text(negative);
    &&& text.len() >= sign.len()
    &&& text.subrange(0, sign.len() as int) == sign
    &&& denotes(text.subrange(sign.len() as int, text.len() as int), n, k)
}

/// The decimal `n * 10^k` reads back as the magnitude of the finite double
/// with the given bits: it is zero for a zero, and else a decimal that a
/// reader which rounds to nearest, and ties to the even mantissa, takes for
/// the value.
pub open spec fn magnitude_reads_back_as_double(bits: u64, n: nat, k: int) -> bool {
    if double_exponent(bits) == 0 && double_mantissa(bits) == 0 {
        n == 0
    } else {
        reads_back_as_double(double_mantissa(bits), double_exponent(bits), n, k)
    }
}

/// The decimal `n * 10^k` reads back as the magnitude of the finite float
/// with the given bits: it is zero for a zero, and else a decimal that a
/// reader which rounds to nearest, and ties to the even mantissa, takes for
/// the value.
pub open spec fn magnitude_reads_back_as_float(bits: u32, n: nat, k: int) -> bool {
    if float_exponent(bits) == 0 && float_mantissa(bits) == 0 {
        n == 0
    } else {
        reads_back_as_float(float_mantissa(bits), float_exponent(bits), n, k)
    }
}

/// `text` reads back as the finite double with the given bits: it is a
/// numeral with the sign of the double, for a decimal that reads back as its
/// magnitude.
pub open spec fn text_reads_back_as_double(text: Seq<u8>, bits: u64) -> bool {
    exists|n: nat, k: int| #[trigger]
        denotes_signed(text, double_sign(bits), n, k) && magnitude_reads_back_as_double(
            bits,
            n,
            k,
        )
}

/// `text` reads back as the finite float with the given bits: it is a
/// numeral with the sign of the float, for a decimal that reads back as its
/// magnitude.
pub open spec fn text_reads_back_as_float(text: Seq<u8>, bits: u32) -> bool {
    exists|n: nat, k: int| #[trigger]
        denotes_signed(text, float_sign(bits), n, k) && magnitude_reads_back_as_float(bits, n, k)
}

/// `0.0` is a numeral for zero.
pub proof fn lemma_zero_text_denotes()
    ensures
        denotes(seq![DIGIT_ZERO, POINT, DIGIT_ZERO], 0, -1),
{
    let text = seq![DIGIT_ZERO, POINT, DIGIT_ZERO];
    let whole = seq![DIGIT_ZERO];
    let behind = seq![DIGIT_ZERO];
    let both = whole + behind;
    assert(both.drop_last() =~= whole);
    assert(whole.drop_last() =~= Seq::<u8>::empty());
    assert(digits_value(whole.drop_last()) == 0);
    assert(digits_value(whole) == 0);
    assert(digits_value(both) == 0);
    assert(text =~= whole + fraction_text(Some(behind)) + exponent_text(None));
    assert(numeral_parts(text, 0, -1, whole, Some(behind), None));
}

/// The text of a finite double reads back as the double.
pub proof fn lemma_ftoa_f64_round_trip(bits: u64)
    requires
        double_exponent(bits) != 2047,
    ensures
        text_reads_back_as_double(spec_ftoa_f64(bits), bits),
{
    let mantissa = double_mantissa(bits);
    let exponent = double_exponent(bits);
    let text = spec_ftoa_f64(bits);
    let sign = sign_text(double_sign(bits));
    if exponent == 0 && mantissa == 0 {
        let body = seq![DIGIT_ZERO, POINT, DIGIT_ZERO];
        lemma_zero_text_denotes();
        assert(text == sign + body);
        assert(text.subrange(0, sign.len() as int) =~= sign);
        assert(text.subrange(sign.len() as int, text.len() as int) =~= body);
        assert(denotes_signed(text, double_sign(bits), 0, -1));
    } else {
        let v = spec_d2d(mantissa, exponent);
        let body = render_decimal(v, 16, -5);
        let n = rendered_mantissa(v, 16);
        let k = rendered_exponent(v, 16);
        lemma_render_denotes(v, 16, -5);
        lemma_double_round_trip(mantissa, exponent);
        if 0 <= v.exponent && decimal_length(v.mantissa) + v.exponent <= 16 {
            lemma_reads_back_written_out(
                double_m2(mantissa, exponent),
                double_mm_shift(mantissa, exponent),
                double_e2(exponent),
                v.mantissa,
                v.exponent,
            );
        }
        assert(text == sign + body);
        assert(text.subrange(0, sign.len() as int) =~= sign);
        assert(text.subrange(sign.len() as int, text.len() as int) =~= body);
        assert(denotes_signed(text, double_sign(bits), n, k));
    }
}

/// The text of a finite float reads back as the float.
pub proof fn lemma_ftoa_f32_round_trip(bits: u32)
    requires
        float_exponent(bits) != 255,
    ensures
        text_reads_back_as_float(spec_ftoa_f32(bits), bits),
{
    let mantissa = float_mantissa(bits);
    let exponent = float_exponent(bits);
    let text = spec_ftoa_f32(bits);
    let sign = sign_text(float_sign(bits));
    if exponent == 0 && mantissa == 0 {
        let body = seq![DIGIT_ZERO, POINT, DIGIT_ZERO];
        lemma_zero_text_denotes();
        assert(text == sign + body);
        assert(text.subrange(0, sign.len() as int) =~= sign);
        assert(text.subrange(sign.len() as int, text.len() as int) =~= body);
        assert(denotes_signed(text, float_sign(bits), 0, -1));
    } else {
        let v = spec_f2d(mantissa, exponent);
        let body = render_decimal(v, 13, -6);
        let n = rendered_mantissa(v, 13);
        let k = rendered_exponent(v, 13);
        lemma_render_denotes(v, 13, -6);
        lemma_float_round_trip(mantissa, exponent);
        if 0 <= v.exponent && decimal_length(v.mantissa) + v.exponent <= 13 {
            lemma_reads_back_written_out(
                float_m2(mantissa, exponent),
                float_mm_shift(mantissa, exponent),
                float_e2(exponent),
                v.mantissa,
                v.exponent,
            );
        }
        assert(text == sign + body);
        assert(text.subrange(0, sign.len() as int) =~= sign);
        assert(text.subrange(sign.len() as int, text.len() as int) =~= body);
        assert(denotes_signed(text, float_sign(bits), n, k));
    }
}

} // verus!
