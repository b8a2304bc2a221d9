//! The text of a decimal in fixed or scientific notation.

use vstd::prelude::*;
use crate::float2str::common::{decimal_length, decimal_length9};
use crate::float2str::d2s::{
    d2d, decimal_length17, spec_d2d, DOUBLE_EXPONENT_BITS, DOUBLE_MANTISSA_BITS,
};
use crate::float2str::f2s::{f2d, spec_f2d, FLOAT_EXPONENT_BITS, FLOAT_MANTISSA_BITS};
use crate::float2str::shortest::DecimalValue;

verus! {

/// ASCII `0`.
pub const DIGIT_ZERO: u8 = 48;

/// ASCII `-`.
pub const MINUS: u8 = 45;

/// ASCII `.`.
pub const POINT: u8 = 46;

/// ASCII `e`.
pub const EXPONENT_MARK: u8 = 101;

/// The decimal digits of `n` in ASCII, most significant first.
pub open spec fn decimal_digits(n: nat) -> Seq<u8>
    decreases n,
{
    if n < 10 {
        seq![(DIGIT_ZERO + n) as u8]
    } else {
        decimal_digits(n / 10).push((DIGIT_ZERO + n % 10) as u8)
    }
}

/// `count` times the digit `0`.
pub open spec fn zeros(count: int) -> Seq<u8> {
    Seq::new(
        if count >= 0 {
            count as nat
        } else {
            0
        },
        |i: int| DIGIT_ZERO,
    )
}

/// The text of an integer: a minus sign where it is negative, then its
/// digits.
pub open spec fn integer_text(k: int) -> Seq<u8> {
    if k < 0 {
        seq![MINUS] + decimal_digits((-k) as nat)
    } else {
        decimal_digits(k as nat)
    }
}

/// `buf` with `part` written over it from position `at` on.
pub open spec fn splice(buf: Seq<u8>, at: int, part: Seq<u8>) -> Seq<u8> {
    buf.subrange(0, at) + part + buf.subrange(at + part.len(), buf.len() as int)
}

/// The text of the decimal `mantissa * 10^exponent`. With the decimal point
/// `kk` digits from the left of the mantissa: plain digits, zeros and `.0`
/// where the value is an integer of at most `upper` digits; the digits with
/// a point among them where `0 < kk <= upper`; `0.`, zeros and the digits
/// where `lower < kk <= 0`; else the scientific layout, with exponent
/// `kk - 1`.
pub open spec fn render_decimal(v: DecimalValue, upper: int, lower: int) -> Seq<u8> {
    let digits = decimal_digits(v.mantissa);
    let length = digits.len() as int;
    let k = v.exponent;
    let kk = length + k;
    if 0 <= k && kk <= upper {
        digits + zeros(k) + seq![POINT, DIGIT_ZERO]
    } else if 0 < kk && kk <= upper {
        digits.subrange(0, kk) + seq![POINT] + digits.subrange(kk, length)
    } else if lower < kk && kk <= 0 {
        seq![DIGIT_ZERO, POINT] + zeros(-kk) + digits
    } else if length == 1 {
        digits + seq![EXPONENT_MARK] + integer_text(kk - 1)
    } else {
        digits.subrange(0, 1) + seq![POINT] + digits.subrange(1, length) + seq![EXPONENT_MARK]
            + integer_text(kk - 1)
    }
}

/// The sign of a double: its highest bit.
pub open spec fn double_sign(bits: u64) -> bool {
    bits >= 0x8000_0000_0000_0000
}

/// The mantissa field of a double: its 52 lowest bits.
pub open spec fn double_mantissa(bits: u64) -> u64 {
    bits % 0x10_0000_0000_0000
}

/// The exponent field of a double: the 11 bits between mantissa and sign.
pub open spec fn double_exponent(bits: u64) -> u32 {
    ((bits / 0x10_0000_0000_0000) % 0x800) as u32
}

/// The sign of a float: its highest bit.
pub open spec fn float_sign(bits: u32) -> bool {
    bits >= 0x8000_0000
}

/// The mantissa field of a float: its 23 lowest bits.
pub open spec fn float_mantissa(bits: u32) -> u32 {
    bits % 0x80_0000
}

/// The exponent field of a float: the 8 bits between mantissa and sign.
pub open spec fn float_exponent(bits: u32) -> u32 {
    (bits / 0x80_0000) % 0x100
}

/// `-` for a negative value, nothing else.
pub open spec fn sign_text(sign: bool) -> Seq<u8> {
    if sign {
        seq![MINUS]
    } else {
        Seq::empty()
    }
}

/// The text of a finite double: its sign, then `0.0` for a zero and the
/// shortest decimal that reads back as the value for any other.
pub open spec fn spec_format64(bits: u64) -> Seq<u8> {
    let mantissa = double_mantissa(bits);
    let exponent = double_exponent(bits);
    sign_text(double_sign(bits)) + if exponent == 0 && mantissa == 0 {
        seq![DIGIT_ZERO, POINT, DIGIT_ZERO]
    } else {
        render_decimal(spec_d2d(mantissa, exponent), 16, -5)
    }
}

/// The text of a finite float: its sign, then `0.0` for a zero and the
/// shortest decimal that reads back as the value for any other.
pub open spec fn spec_format32(bits: u32) -> Seq<u8> {
    let mantissa = float_mantissa(bits);
    let exponent = float_exponent(bits);
    sign_text(float_sign(bits)) + if exponent == 0 && mantissa == 0 {
        seq![DIGIT_ZERO, POINT, DIGIT_ZERO]
    } else {
        render_decimal(spec_f2d(mantissa, exponent), 13, -6)
    }
}

/// A value has as many digits as its length says.
pub proof fn lemma_decimal_digits_len(n: nat)
    ensures
        decimal_digits(n).len() == decimal_length(n),
    decreases n,
{
    if n >= 10 {
        lemma_decimal_digits_len(n / 10);
    }
}

/// The digits of a value below one thousand, written out.
pub proof fn lemma_decimal_digits_small(v: nat)
    requires
        v < 1000,
    ensures
        v < 10 ==> decimal_digits(v) == seq![(DIGIT_ZERO + v) as u8],
        10 <= v < 100 ==> decimal_digits(v) == seq![
            (DIGIT_ZERO + v / 10) as u8,
            (DIGIT_ZERO + v % 10) as u8,
        ],
        100 <= v ==> decimal_digits(v) == seq![
            (DIGIT_ZERO + v / 100) as u8,
            (DIGIT_ZERO + (v / 10) % 10) as u8,
            (DIGIT_ZERO + v % 10) as u8,
        ],
{
    reveal_with_fuel(decimal_digits, 3);
    if v < 10 {
    } else if v < 100 {
        assert(decimal_digits(v) =~= seq![
            (DIGIT_ZERO + v / 10) as u8,
            (DIGIT_ZERO + v % 10) as u8,
        ]);
    } else {
        assert(decimal_digits(v) =~= seq![
            (DIGIT_ZERO + v / 100) as u8,
            (DIGIT_ZERO + (v / 10) % 10) as u8,
            (DIGIT_ZERO + v % 10) as u8,
        ]);
    }
}

/// Writes the decimal digits of `output` so that the last one stands just
/// before position `end`.
pub fn write_mantissa_long(output: u64, result: &mut [u8; 24], end: usize)
    requires
        decimal_length(output as nat) <= end <= 24,
    ensures
        final(result)@ == splice(
            old(result)@,
            end - decimal_length(output as nat),
            decimal_digits(output as nat),
        ),
{
    let mut output = output;
    let mut at = end;
    let ghost start = output;
    let ghost before = result@;
    proof {
        lemma_decimal_digits_len(start as nat);
        assert(result@ =~= splice(before, end as int, Seq::empty()));
    }
    while output >= 10
        invariant
            decimal_length(start as nat) <= end <= 24,
            at == end - (decimal_length(start as nat) - decimal_length(output as nat)),
            decimal_length(output as nat) <= at,
            exists|low: Seq<u8>|
                #![auto]
                low.len() == end - at && decimal_digits(start as nat) == decimal_digits(
                    output as nat,
                ) + low && result@ == splice(before, at as int, low),
            before.len() == 24,
        decreases output,
    {
        let ghost low = choose|low: Seq<u8>|
            #![auto]
            low.len() == end - at && decimal_digits(start as nat) == decimal_digits(
                output as nat,
            ) + low && result@ == splice(before, at as int, low);
        let digit = DIGIT_ZERO + (output % 10) as u8;
        at -= 1;
        result[at] = digit;
        proof {
            let next = seq![digit] + low;
            lemma_decimal_digits_len(output as nat);
            lemma_decimal_digits_len((output / 10) as nat);
            assert(decimal_digits(output as nat) == decimal_digits((output / 10) as nat).push(
                digit,
            ));
            assert(decimal_digits(start as nat) =~= decimal_digits((output / 10) as nat) + next);
            assert(result@ =~= splice(before, at as int, next));
        }
        output = output / 10;
    }
    let ghost low = choose|low: Seq<u8>|
        #![auto]
        low.len() == end - at && decimal_digits(start as nat) == decimal_digits(output as nat)
            + low && result@ == splice(before, at as int, low);
    let digit = DIGIT_ZERO + output as u8;
    at -= 1;
    result[at] = digit;
    proof {
        assert(decimal_digits(output as nat) =~= seq![digit]);
        assert(result@ =~= splice(before, at as int, decimal_digits(start as nat)));
    }
}

/// Writes the decimal digits of `output` so that the last one stands just
/// before position `end`.
pub fn write_mantissa(output: u32, result: &mut [u8; 24], end: usize)
    requires
        decimal_length(output as nat) <= end <= 24,
    ensures
        final(result)@ == splice(
            old(result)@,
            end - decimal_length(output as nat),
            decimal_digits(output as nat),
        ),
{
    let mut output = output;
    let mut at = end;
    let ghost start = output;
    let ghost before = result@;
    proof {
        lemma_decimal_digits_len(start as nat);
        assert(result@ =~= splice(before, end as int, Seq::empty()));
    }
    while output >= 10
        invariant
            decimal_length(start as nat) <= end <= 24,
            at == end - (decimal_length(start as nat) - decimal_length(output as nat)),
            decimal_length(output as nat) <= at,
            exists|low: Seq<u8>|
                #![auto]
                low.len() == end - at && decimal_digits(start as nat) == decimal_digits(
                    output as nat,
                ) + low && result@ == splice(before, at as int, low),
            before.len() == 24,
        decreases output,
    {
        let ghost low = choose|low: Seq<u8>|
            #![auto]
            low.len() == end - at && decimal_digits(start as nat) == decimal_digits(
                output as nat,
            ) + low && result@ == splice(before, at as int, low);
        let digit = DIGIT_ZERO + (output % 10) as u8;
        at -= 1;
        result[at] = digit;
        proof {
            let next = seq![digit] + low;
            lemma_decimal_digits_len(output as nat);
            lemma_decimal_digits_len((output / 10) as nat);
            assert(decimal_digits(output as nat) == decimal_digits((output / 10) as nat).push(
                digit,
            ));
            assert(decimal_digits(start as nat) =~= decimal_digits((output / 10) as nat) + next);
            assert(result@ =~= splice(before, at as int, next));
        }
        output = output / 10;
    }
    let ghost low = choose|low: Seq<u8>|
        #![auto]
        low.len() == end - at && decimal_digits(start as nat) == decimal_digits(output as nat)
            + low && result@ == splice(before, at as int, low);
    let digit = DIGIT_ZERO + output as u8;
    at -= 1;
    result[at] = digit;
    proof {
        assert(decimal_digits(output as nat) =~= seq![digit]);
        assert(result@ =~= splice(before, at as int, decimal_digits(start as nat)));
    }
}

/// Writing `first` and then `second` behind it is writing both at once.
pub proof fn lemma_splice_append(buf: Seq<u8>, at: int, first: Seq<u8>, second: Seq<u8>)
    requires
        0 <= at,
        at + first.len() + second.len() <= buf.len(),
    ensures
        splice(splice(buf, at, first), at + first.len(), second) == splice(
            buf,
            at,
            first + second,
        ),
{
    assert(splice(splice(buf, at, first), at + first.len(), second) =~= splice(
        buf,
        at,
        first + second,
    ));
}

/// Writes an exponent of up to three digits from position `at` on, with its
/// sign where it is negative; returns the number of bytes written.
pub fn write_exponent3(k: isize, result: &mut [u8; 24], at: usize) -> (n: usize)
    requires
        -1000 < k < 1000,
        at + integer_text(k as int).len() <= 24,
    ensures
        n == integer_text(k as int).len(),
        final(result)@ == splice(old(result)@, at as int, integer_text(k as int)),
{
    let ghost before = result@;
    let ghost start = at as int;
    let ghost k0 = k as int;
    proof {
        lemma_decimal_digits_small(vstd::math::abs(k as int));
    }
    let sign = k < 0;
    let mut at = at;
    let signed: usize = if sign {
        1
    } else {
        0
    };
    let k: usize = if sign {
        result[at] = MINUS;
        at += 1;
        (-k) as usize
    } else {
        k as usize
    };
    let ghost value = k as nat;
    let ghost middle = result@;
    proof {
        assert(middle =~= splice(before, start, sign_text(sign)));
        lemma_splice_append(before, start, sign_text(sign), decimal_digits(value));
        assert(sign_text(sign) + decimal_digits(value) =~= integer_text(k0));
    }
    let digits: usize = if k >= 100 {
        3
    } else if k >= 10 {
        2
    } else {
        1
    };
    proof {
        lemma_decimal_digits_len(value);
        reveal_with_fuel(decimal_length, 3);
    }
    write_mantissa(k as u32, result, at + digits);
    signed + digits
}

/// Writes an exponent of up to two digits from position `at` on, with its
/// sign where it is negative; returns the number of bytes written.
pub fn write_exponent2(k: isize, result: &mut [u8; 24], at: usize) -> (n: usize)
    requires
        -100 < k < 100,
        at + integer_text(k as int).len() <= 24,
    ensures
        n == integer_text(k as int).len(),
        final(result)@ == splice(old(result)@, at as int, integer_text(k as int)),
{
    let ghost before = result@;
    let ghost start = at as int;
    let ghost k0 = k as int;
    proof {
        lemma_decimal_digits_small(vstd::math::abs(k as int));
    }
    let sign = k < 0;
    let mut at = at;
    let signed: usize = if sign {
        1
    } else {
        0
    };
    let k: usize = if sign {
        result[at] = MINUS;
        at += 1;
        (-k) as usize
    } else {
        k as usize
    };
    let ghost value = k as nat;
    let ghost middle = result@;
    proof {
        assert(middle =~= splice(before, start, sign_text(sign)));
        lemma_splice_append(before, start, sign_text(sign), decimal_digits(value));
        assert(sign_text(sign) + decimal_digits(value) =~= integer_text(k0));
    }
    let digits: usize = if k >= 10 {
        2
    } else {
        1
    };
    proof {
        lemma_decimal_digits_len(value);
        reveal_with_fuel(decimal_length, 3);
    }
    write_mantissa(k as u32, result, at + digits);
    signed + digits
}

/// Writes an integer of at most `upper` digits from position `index` on:
/// its digits, `k` zeros and `.0`; returns the number of bytes written.
pub fn write_integer_layout(
    mantissa: u64,
    length: usize,
    k: usize,
    result: &mut [u8; 24],
    index: usize,
) -> (n: usize)
    requires
        length == decimal_length(mantissa as nat),
        index + length + k + 2 <= 24,
    ensures
        n == length + k + 2,
        final(result)@ == splice(
            old(result)@,
            index as int,
            decimal_digits(mantissa as nat) + zeros(k as int) + seq![POINT, DIGIT_ZERO],
        ),
{
    let ghost before = result@;
    let ghost digits = decimal_digits(mantissa as nat);
    proof {
        lemma_decimal_digits_len(mantissa as nat);
    }
    write_mantissa_long(mantissa, result, index + length);
    let ghost written = result@;
    let kk = length + k;
    let mut i = length;
    proof {
        assert(result@ =~= splice(written, index + length, zeros(0)));
    }
    while i < kk
        invariant
            length <= i <= kk,
            index + kk + 2 <= 24,
            written.len() == 24,
            result@ == splice(written, index + length, zeros(i - length)),
        decreases kk - i,
    {
        result[index + i] = DIGIT_ZERO;
        proof {
            assert(result@ =~= splice(written, index + length, zeros(i + 1 - length)));
        }
        i += 1;
    }
    let ghost padded = result@;
    result[index + kk] = POINT;
    result[index + kk + 1] = DIGIT_ZERO;
    proof {
        assert(result@ =~= splice(padded, index + kk, seq![POINT, DIGIT_ZERO]));
        lemma_splice_append(before, index as int, digits, zeros(k as int));
        lemma_splice_append(
            before,
            index as int,
            digits + zeros(k as int),
            seq![POINT, DIGIT_ZERO],
        );
    }
    kk + 2
}

/// Writes a value with `kk` digits before the decimal point and the others
/// behind it, from position `index` on; returns the number of bytes written.
pub fn write_fraction_layout(
    mantissa: u64,
    length: usize,
    kk: usize,
    result: &mut [u8; 24],
    index: usize,
) -> (n: usize)
    requires
        length == decimal_length(mantissa as nat),
        0 < kk < length,
        index + length + 1 <= 24,
    ensures
        n == length + 1,
        final(result)@ == splice(
            old(result)@,
            index as int,
            decimal_digits(mantissa as nat).subrange(0, kk as int) + seq![POINT] + decimal_digits(
                mantissa as nat,
            ).subrange(kk as int, length as int),
        ),
{
    let ghost before = result@;
    let ghost digits = decimal_digits(mantissa as nat);
    proof {
        lemma_decimal_digits_len(mantissa as nat);
    }
    write_mantissa_long(mantissa, result, index + length + 1);
    let mut i: usize = 0;
    while i < kk
        invariant
            0 <= i <= kk < length,
            index + length + 1 <= 24,
            digits.len() == length,
            before.len() == 24,
            forall|j: int| 0 <= j < i ==> result@[index + j] == digits[j],
            forall|j: int| i <= j < length ==> result@[index + 1 + j] == digits[j],
            forall|j: int|
                0 <= j < 24 && !(index <= j <= index + length) ==> result@[j] == before[j],
        decreases kk - i,
    {
        result[index + i] = result[index + i + 1];
        i += 1;
    }
    result[index + kk] = POINT;
    proof {
        assert(result@ =~= splice(
            before,
            index as int,
            digits.subrange(0, kk as int) + seq![POINT] + digits.subrange(
                kk as int,
                length as int,
            ),
        ));
    }
    length + 1
}

/// Writes a value below one from position `index` on: `0.`, `count` zeros
/// and the digits; returns the number of bytes written.
pub fn write_small_layout(
    mantissa: u64,
    length: usize,
    count: usize,
    result: &mut [u8; 24],
    index: usize,
) -> (n: usize)
    requires
        length == decimal_length(mantissa as nat),
        index + 2 + count + length <= 24,
    ensures
        n == 2 + count + length,
        final(result)@ == splice(
            old(result)@,
            index as int,
            seq![DIGIT_ZERO, POINT] + zeros(count as int) + decimal_digits(mantissa as nat),
        ),
{
    let ghost before = result@;
    let ghost digits = decimal_digits(mantissa as nat);
    proof {
        lemma_decimal_digits_len(mantissa as nat);
    }
    result[index] = DIGIT_ZERO;
    result[index + 1] = POINT;
    let ghost headed = result@;
    let offset = 2 + count;
    let mut i: usize = 2;
    proof {
        assert(headed =~= splice(before, index as int, seq![DIGIT_ZERO, POINT]));
        assert(result@ =~= splice(headed, index + 2, zeros(0)));
    }
    while i < offset
        invariant
            2 <= i <= offset,
            index + offset <= 24,
            headed.len() == 24,
            result@ == splice(headed, index + 2, zeros(i - 2)),
        decreases offset - i,
    {
        result[index + i] = DIGIT_ZERO;
        proof {
            assert(result@ =~= splice(headed, index + 2, zeros(i + 1 - 2)));
        }
        i += 1;
    }
    write_mantissa_long(mantissa, result, index + length + offset);
    proof {
        lemma_splice_append(before, index as int, seq![DIGIT_ZERO, POINT], zeros(count as int));
        lemma_splice_append(
            before,
            index as int,
            seq![DIGIT_ZERO, POINT] + zeros(count as int),
            digits,
        );
    }
    length + offset
}

/// The mantissa of the scientific layout: the first digit, a point and the
/// other digits where there are any, and the exponent mark.
pub open spec fn scientific_mantissa(mantissa: nat) -> Seq<u8> {
    let digits = decimal_digits(mantissa);
    if digits.len() == 1 {
        digits + seq![EXPONENT_MARK]
    } else {
        digits.subrange(0, 1) + seq![POINT] + digits.subrange(1, digits.len() as int) + seq![
            EXPONENT_MARK,
        ]
    }
}

/// Writes the mantissa of the scientific layout from position `index` on;
/// returns the number of bytes written.
pub fn write_scientific_layout(
    mantissa: u64,
    length: usize,
    result: &mut [u8; 24],
    index: usize,
) -> (n: usize)
    requires
        length == decimal_length(mantissa as nat),
        index + length + 2 <= 24,
    ensures
        n == scientific_mantissa(mantissa as nat).len(),
        n == if length == 1 {
            2int
        } else {
            length + 2
        },
        final(result)@ == splice(old(result)@, index as int, scientific_mantissa(mantissa as nat)),
{
    let ghost before = result@;
    let ghost digits = decimal_digits(mantissa as nat);
    proof {
        lemma_decimal_digits_len(mantissa as nat);
    }
    if length == 1 {
        proof {
            reveal_with_fuel(decimal_length, 2);
        }
        result[index] = DIGIT_ZERO + mantissa as u8;
        result[index + 1] = EXPONENT_MARK;
        proof {
            assert(result@ =~= splice(before, index as int, scientific_mantissa(mantissa as nat)));
        }
        2
    } else {
        write_mantissa_long(mantissa, result, index + length + 1);
        result[index] = result[index + 1];
        result[index + 1] = POINT;
        result[index + length + 1] = EXPONENT_MARK;
        proof {
            assert(result@ =~= splice(before, index as int, scientific_mantissa(mantissa as nat)));
        }
        length + 2
    }
}

/// The text of an exponent of up to three digits has at most four bytes.
pub proof fn lemma_exponent_text_len(k: int)
    requires
        -1000 < k < 1000,
    ensures
        1 <= integer_text(k).len() <= 4,
        -100 < k < 100 ==> integer_text(k).len() <= 3,
{
    lemma_decimal_digits_small(vstd::math::abs(k));
}

/// The fields of a double, taken out by shifts and masks.
pub proof fn lemma_double_fields(bits: u64)
    ensures
        (((bits >> 63) & 1) != 0) == double_sign(bits),
        bits & 0xf_ffff_ffff_ffff == double_mantissa(bits),
        (bits >> 52) < 0x1000,
        ((bits >> 52) as u32) & 0x7ff == double_exponent(bits),
        (1u64 << 52) - 1 == 0xf_ffff_ffff_ffff,
        (1u32 << 11) - 1 == 0x7ff,
{
    assert((((bits >> 63) & 1) != 0) == (bits >= 0x8000_0000_0000_0000)) by (bit_vector);
    assert(bits & 0xf_ffff_ffff_ffff == bits % 0x10_0000_0000_0000) by (bit_vector);
    assert((bits >> 52) < 0x1000 && ((bits >> 52) as u32) & 0x7ff == ((bits
        / 0x10_0000_0000_0000) % 0x800) as u32) by (bit_vector);
    assert((1u64 << 52) - 1 == 0xf_ffff_ffff_ffff && (1u32 << 11) - 1 == 0x7ff) by (bit_vector);
}

/// The fields of a float, taken out by shifts and masks.
pub proof fn lemma_float_fields(bits: u32)
    ensures
        (((bits >> 31) & 1) != 0) == float_sign(bits),
        bits & 0x7f_ffff == float_mantissa(bits),
        (bits >> 23) & 0xff == float_exponent(bits),
        (1u32 << 23) - 1 == 0x7f_ffff,
        (1u32 << 8) - 1 == 0xff,
{
    assert((((bits >> 31) & 1) != 0) == (bits >= 0x8000_0000)) by (bit_vector);
    assert(bits & 0x7f_ffff == bits % 0x80_0000) by (bit_vector);
    assert((bits >> 23) & 0xff == (bits / 0x80_0000) % 0x100) by (bit_vector);
    assert((1u32 << 23) - 1 == 0x7f_ffff && (1u32 << 8) - 1 == 0xff) by (bit_vector);
}

/// Writes the text of a finite double, given by its bits, at the start of
/// `result`; returns the number of bytes written.
pub fn format64(bits: u64, result: &mut [u8; 24]) -> (n: usize)
    requires
        double_exponent(bits) != 2047,
    ensures
        n == spec_format64(bits).len(),
        n <= 24,
        final(result)@ == splice(old(result)@, 0, spec_format64(bits)),
{
    let ghost before = result@;
    proof {
        lemma_double_fields(bits);
    }
    let sign = ((bits >> (DOUBLE_MANTISSA_BITS + DOUBLE_EXPONENT_BITS)) & 1) != 0;
    let ieee_mantissa = bits & ((1u64 << DOUBLE_MANTISSA_BITS) - 1);
    let ieee_exponent = (bits >> DOUBLE_MANTISSA_BITS) as u32 & ((1u32 << DOUBLE_EXPONENT_BITS)
        - 1);

    let mut index: usize = 0;
    if sign {
        result[0] = MINUS;
        index += 1;
    }
    let ghost signed = result@;
    let ghost prefix = sign_text(sign);
    proof {
        assert(signed =~= splice(before, 0, prefix));
    }

    if ieee_exponent == 0 && ieee_mantissa == 0 {
        result[index] = DIGIT_ZERO;
        result[index + 1] = POINT;
        result[index + 2] = DIGIT_ZERO;
        proof {
            assert(result@ =~= splice(before, 0, spec_format64(bits)));
        }
        return index + 3;
    }
    let v = d2d(ieee_mantissa, ieee_exponent);

    let length = decimal_length17(v.mantissa);
    let k = v.exponent as isize;
    let kk = length + k;
    let ghost text = render_decimal(v@, 16, -5);
    let ghost digits = decimal_digits(v.mantissa as nat);
    proof {
        lemma_decimal_digits_len(v.mantissa as nat);
        lemma_exponent_text_len(kk - 1);
    }

    if 0 <= k && kk <= 16 {
        proof {
            assert(text == digits + zeros(k as int) + seq![POINT, DIGIT_ZERO]);
            lemma_splice_append(before, 0, prefix, text);
        }
        index + write_integer_layout(v.mantissa, length as usize, k as usize, result, index)
    } else if 0 < kk && kk <= 16 {
        // 1234e-2 -> 12.34
        proof {
            assert(text == digits.subrange(0, kk as int) + seq![POINT] + digits.subrange(
                kk as int,
                length as int,
            ));
            lemma_splice_append(before, 0, prefix, text);
        }
        index + write_fraction_layout(v.mantissa, length as usize, kk as usize, result, index)
    } else if -5 < kk && kk <= 0 {
        // 1234e-6 -> 0.001234
        proof {
            assert(text == seq![DIGIT_ZERO, POINT] + zeros(-kk as int) + digits);
            lemma_splice_append(before, 0, prefix, text);
        }
        index + write_small_layout(v.mantissa, length as usize, (-kk) as usize, result, index)
    } else {
        // 1e30, 1.234e30
        proof {
            assert(text =~= scientific_mantissa(v.mantissa as nat) + integer_text(kk - 1));
            lemma_splice_append(before, 0, prefix, text);
            lemma_splice_append(
                signed,
                index as int,
                scientific_mantissa(v.mantissa as nat),
                integer_text(kk - 1),
            );
        }
        let written = write_scientific_layout(v.mantissa, length as usize, result, index);
        index + written + write_exponent3(kk - 1, result, index + written)
    }
}

/// Writes the text of a finite float, given by its bits, at the start of
/// `result`; returns the number of bytes written.
pub fn format32(bits: u32, result: &mut [u8; 24]) -> (n: usize)
    requires
        float_exponent(bits) != 255,
    ensures
        n == spec_format32(bits).len(),
        n <= 24,
        final(result)@ == splice(old(result)@, 0, spec_format32(bits)),
{
    let ghost before = result@;
    proof {
        lemma_float_fields(bits);
    }
    let sign = ((bits >> (FLOAT_MANTISSA_BITS + FLOAT_EXPONENT_BITS)) & 1) != 0;
    let ieee_mantissa = bits & ((1u32 << FLOAT_MANTISSA_BITS) - 1);
    let ieee_exponent = (bits >> FLOAT_MANTISSA_BITS) & ((1u32 << FLOAT_EXPONENT_BITS) - 1);

    let mut index: usize = 0;
    if sign {
        result[0] = MINUS;
        index += 1;
    }
    let ghost signed = result@;
    let ghost prefix = sign_text(sign);
    proof {
        assert(signed =~= splice(before, 0, prefix));
    }

    if ieee_exponent == 0 && ieee_mantissa == 0 {
        result[index] = DIGIT_ZERO;
        result[index + 1] = POINT;
        result[index + 2] = DIGIT_ZERO;
        proof {
            assert(result@ =~= splice(before, 0, spec_format32(bits)));
        }
        return index + 3;
    }
    let v = f2d(ieee_mantissa, ieee_exponent);

    let length = decimal_length9(v.mantissa);
    let k = v.exponent as isize;
    let kk = length + k;
    let mantissa = v.mantissa as u64;
    let ghost text = render_decimal(v@, 13, -6);
    let ghost digits = decimal_digits(v.mantissa as nat);
    proof {
        lemma_decimal_digits_len(v.mantissa as nat);
        lemma_exponent_text_len(kk - 1);
    }

    if 0 <= k && kk <= 13 {
        proof {
            assert(text == digits + zeros(k as int) + seq![POINT, DIGIT_ZERO]);
            lemma_splice_append(before, 0, prefix, text);
        }
        index + write_integer_layout(mantissa, length as usize, k as usize, result, index)
    } else if 0 < kk && kk <= 13 {
        // 1234e-2 -> 12.34
        proof {
            assert(text == digits.subrange(0, kk as int) + seq![POINT] + digits.subrange(
                kk as int,
                length as int,
            ));
            lemma_splice_append(before, 0, prefix, text);
        }
        index + write_fraction_layout(mantissa, length as usize, kk as usize, result, index)
    } else if -6 < kk && kk <= 0 {
        // 1234e-6 -> 0.001234
        proof {
            assert(text == seq![DIGIT_ZERO, POINT] + zeros(-kk as int) + digits);
            lemma_splice_append(before, 0, prefix, text);
        }
        index + write_small_layout(mantissa, length as usize, (-kk) as usize, result, index)
    } else {
        // 1e30, 1.234e30
        proof {
            assert(text =~= scientific_mantissa(v.mantissa as nat) + integer_text(kk - 1));
            lemma_splice_append(before, 0, prefix, text);
            lemma_splice_append(
                signed,
                index as int,
                scientific_mantissa(v.mantissa as nat),
                integer_text(kk - 1),
            );
        }
        let written = write_scientific_layout(mantissa, length as usize, result, index);
        index + written + write_exponent2(kk - 1, result, index + written)
    }
}

} // verus!
