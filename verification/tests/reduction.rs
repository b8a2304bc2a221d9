use proc_tools_core::float2str::common::{
    decimal_length9, log10_pow2, log10_pow5, pow5bits,
};
use proc_tools_core::float2str::d2s::{
    d2d, decimal_length17, mul_shift_64, mul_shift_all_64, multiple_of_power_of_2,
    multiple_of_power_of_5, scale_interval_64, shorten_64, ScaledInterval64,
};
use proc_tools_core::float2str::f2s::{
    f2d, mul_pow5_div_pow2, mul_pow5_inv_div_pow2, mul_shift_32, multiple_of_power_of_2_32,
    multiple_of_power_of_5_32, scale_interval_32, shorten_32, ScaledInterval32,
};
use proc_tools_core::float2str::pretty::{
    format32, format64, write_exponent2, write_exponent3, write_mantissa, write_mantissa_long,
};
use proc_tools_core::float2str::tables::{DOUBLE_POW5_INV_SPLIT, DOUBLE_POW5_SPLIT};

#[test]
fn digit_counts_up_to_nine() {
    assert_eq!(decimal_length9(0), 1);
    assert_eq!(decimal_length9(9), 1);
    assert_eq!(decimal_length9(10), 2);
    assert_eq!(decimal_length9(99_999), 5);
    assert_eq!(decimal_length9(100_000), 6);
    assert_eq!(decimal_length9(99_999_999), 8);
    assert_eq!(decimal_length9(100_000_000), 9);
    assert_eq!(decimal_length9(999_999_999), 9);
    assert_eq!(decimal_length9(u32::MAX), 9);
}

#[test]
fn digit_counts_up_to_seventeen() {
    assert_eq!(decimal_length17(0), 1);
    assert_eq!(decimal_length17(9), 1);
    assert_eq!(decimal_length17(10), 2);
    assert_eq!(decimal_length17(999_999_999), 9);
    assert_eq!(decimal_length17(1_000_000_000), 10);
    assert_eq!(decimal_length17(9_999_999_999_999_999), 16);
    assert_eq!(decimal_length17(10_000_000_000_000_000), 17);
    assert_eq!(decimal_length17(99_999_999_999_999_999), 17);
    assert_eq!(decimal_length17(u64::MAX), 17);
}

#[test]
fn binary_length_of_powers_of_five() {
    assert_eq!(pow5bits(0), 1);
    assert_eq!(pow5bits(1), 3);
    assert_eq!(pow5bits(2), 5);
    assert_eq!(pow5bits(3), 7);
    assert_eq!(pow5bits(27), 63);
    assert_eq!(pow5bits(325), 755);
    assert_eq!(pow5bits(3528), 8192);
}

#[test]
fn decimal_logarithm_of_powers_of_two() {
    assert_eq!(log10_pow2(0), 0);
    assert_eq!(log10_pow2(3), 0);
    assert_eq!(log10_pow2(4), 1);
    assert_eq!(log10_pow2(10), 3);
    assert_eq!(log10_pow2(64), 19);
    assert_eq!(log10_pow2(969), 291);
    assert_eq!(log10_pow2(1650), 496);
}

#[test]
fn decimal_logarithm_of_powers_of_five() {
    assert_eq!(log10_pow5(0), 0);
    assert_eq!(log10_pow5(1), 0);
    assert_eq!(log10_pow5(2), 1);
    assert_eq!(log10_pow5(3), 2);
    assert_eq!(log10_pow5(10), 6);
    assert_eq!(log10_pow5(1076), 752);
    assert_eq!(log10_pow5(2620), 1831);
}

#[test]
fn divisibility_by_powers_of_five() {
    assert!(multiple_of_power_of_5(1, 0));
    assert!(!multiple_of_power_of_5(1, 1));
    assert!(multiple_of_power_of_5(5, 1));
    assert!(multiple_of_power_of_5(125, 3));
    assert!(!multiple_of_power_of_5(125, 4));
    assert!(multiple_of_power_of_5(7_450_580_596_923_828_125, 27));
    assert!(!multiple_of_power_of_5(7_450_580_596_923_828_125, 28));
    assert!(!multiple_of_power_of_5(u64::MAX, 2));
    assert!(multiple_of_power_of_5_32(1_220_703_125, 13));
    assert!(!multiple_of_power_of_5_32(1_220_703_125, 14));
    assert!(!multiple_of_power_of_5_32(7, 1));
    assert!(multiple_of_power_of_5_32(7, 0));
}

#[test]
fn divisibility_by_powers_of_two() {
    assert!(multiple_of_power_of_2(8, 3));
    assert!(!multiple_of_power_of_2(8, 4));
    assert!(multiple_of_power_of_2(7, 0));
    assert!(multiple_of_power_of_2(1 << 62, 62));
    assert!(multiple_of_power_of_2_32(48, 4));
    assert!(!multiple_of_power_of_2_32(48, 5));
}

#[test]
fn tables_hold_the_powers_of_five() {
    assert_eq!(DOUBLE_POW5_INV_SPLIT.len(), 342);
    assert_eq!(DOUBLE_POW5_SPLIT.len(), 326);
    assert_eq!(DOUBLE_POW5_INV_SPLIT[0], (1, 2305843009213693952));
    assert_eq!(DOUBLE_POW5_INV_SPLIT[1], (11068046444225730970, 1844674407370955161));
    assert_eq!(DOUBLE_POW5_SPLIT[0], (0, 1152921504606846976));
    assert_eq!(DOUBLE_POW5_SPLIT[1], (0, 1441151880758558720));
    // 5^i * 2^125 / 2^bits(5^i), entry by entry
    let mut power: u128 = 1;
    for i in 0..50 {
        let bits = 128 - power.leading_zeros();
        let expected = power << (125 - bits);
        let (low, high) = DOUBLE_POW5_SPLIT[i];
        assert_eq!(((high as u128) << 64) | low as u128, expected);
        power *= 5;
    }
}

#[test]
fn product_with_a_wide_multiplier() {
    // (2^64 + 1) * 3 / 2^64 == 3
    assert_eq!(mul_shift_64(3, &(1, 1), 64), 3);
    // low word only: 10 * 2^63 / 2^64 == 5
    assert_eq!(mul_shift_64(10, &(1 << 63, 0), 64), 5);
    assert_eq!(mul_shift_64(u64::MAX, &(u64::MAX, u64::MAX), 128), u64::MAX - 1);
    assert_eq!(mul_shift_64(1 << 54, &DOUBLE_POW5_SPLIT[0], 124), 1 << 54);
    let (mut vp, mut vm) = (0u64, 0u64);
    let vr = mul_shift_all_64(5, &DOUBLE_POW5_SPLIT[0], 124, &mut vp, &mut vm, 1);
    assert_eq!((vm, vr, vp), (18, 20, 22));
    let vr = mul_shift_all_64(5, &DOUBLE_POW5_SPLIT[0], 124, &mut vp, &mut vm, 0);
    assert_eq!((vm, vr, vp), (19, 20, 22));
}

#[test]
fn product_with_a_narrow_multiplier() {
    assert_eq!(mul_shift_32(3, 1 << 40, 40), 3);
    assert_eq!(mul_shift_32(7, 3 << 32, 33), 10);
    // the factor for 5^1 is 5 * 2^58: 4 * 5 * 2^58 / 2^59 == 10
    assert_eq!(mul_pow5_div_pow2(4, 1, 59), 10);
    // 2^61 + 1 for the reciprocal of 5^0
    assert_eq!(mul_pow5_inv_div_pow2(12, 0, 61), 12);
}

#[test]
fn shortest_decimal_of_doubles() {
    let one = d2d(0, 1023);
    assert_eq!((one.mantissa, one.exponent), (1, 0));
    let third = (1.0f64 / 3.0).to_bits();
    let v = d2d(third & ((1 << 52) - 1), (third >> 52) as u32);
    assert_eq!((v.mantissa, v.exponent), (3333333333333333, -16));
    let tiny = d2d(1, 0);
    assert_eq!((tiny.mantissa, tiny.exponent), (5, -324));
    let huge = d2d((1 << 52) - 1, 2046);
    assert_eq!((huge.mantissa, huge.exponent), (17976931348623157, 292));
    // 2^70 == 1180591620717411303424
    let power = d2d(0, 1023 + 70);
    assert_eq!((power.mantissa, power.exponent), (11805916207174113, 5));
}

#[test]
fn shortest_decimal_of_floats() {
    let one = f2d(0, 127);
    assert_eq!((one.mantissa, one.exponent), (1, 0));
    let pi = 3.14f32.to_bits();
    let v = f2d(pi & ((1 << 23) - 1), pi >> 23);
    assert_eq!((v.mantissa, v.exponent), (314, -2));
    let tiny = f2d(1, 0);
    assert_eq!((tiny.mantissa, tiny.exponent), (1, -45));
    let huge = f2d((1 << 23) - 1, 254);
    assert_eq!((huge.mantissa, huge.exponent), (34028235, 31));
}

#[test]
fn scaled_interval_of_one() {
    // 1.0 is 2^54 * 2^-54; its interval [2^54 - 1, 2^54 + 2] * 2^-54 is scaled by 10^18
    let (s, e10) = scale_interval_64(0, 1023);
    assert_eq!(e10, -18);
    assert_eq!(
        (s.vm, s.vr, s.vp),
        (999999999999999944, 1000000000000000000, 1000000000000000111)
    );
    assert!(s.accept_bounds);
    assert!(!s.vm_is_trailing_zeros);
    // 2^54 * 5^18 / 2^36 leaves no remainder
    assert!(s.vr_is_trailing_zeros);
    assert_eq!(s.last_removed_digit, 0);
    let (mantissa, removed) = shorten_64(s);
    assert_eq!((mantissa, removed), (1, 18));
    // 1.0f32 is 2^25 * 2^-25, scaled by 10^8
    let (s, e10) = scale_interval_32(0, 127);
    assert_eq!(e10, -8);
    assert_eq!((s.vm, s.vr, s.vp), (99999997, 100000000, 100000005));
    let (mantissa, removed) = shorten_32(s);
    assert_eq!((mantissa, removed), (1, 8));
}

#[test]
fn digit_removal_rounds_to_nearest() {
    let interval = |vm: u64, vr: u64, vp: u64| ScaledInterval64 {
        vm,
        vr,
        vp,
        vm_is_trailing_zeros: false,
        vr_is_trailing_zeros: false,
        accept_bounds: false,
        last_removed_digit: 0,
    };
    // 1234|56 with bounds 123400..123500: two digits go, 56 rounds up
    assert_eq!(shorten_64(interval(123400, 123456, 123500)), (1235, 2));
    // 1234|49: rounds down
    assert_eq!(shorten_64(interval(123300, 123449, 123500)), (1234, 2));
    // what is left equals the excluded lower bound: one up
    assert_eq!(shorten_64(interval(123400, 123449, 123500)), (1235, 2));
    // 12345|6 with bounds 123440..123470: one digit goes
    assert_eq!(shorten_64(interval(123440, 123456, 123470)), (12346, 1));
    // nothing can go: the value itself
    assert_eq!(shorten_64(interval(123455, 123456, 123457)), (123456, 0));
    // the value equals the excluded lower bound: one up
    assert_eq!(shorten_64(interval(123456, 123456, 123457)), (123457, 0));
}

#[test]
fn digit_removal_breaks_ties_to_even() {
    let exact = |vm: u32, vr: u32, vp: u32| ScaledInterval32 {
        vm,
        vr,
        vp,
        vm_is_trailing_zeros: false,
        vr_is_trailing_zeros: true,
        accept_bounds: true,
        last_removed_digit: 0,
    };
    // 12|5 exactly halfway: to the even 12
    assert_eq!(shorten_32(exact(115, 125, 135)), (12, 1));
    // 13|5 exactly halfway: to the even 14
    assert_eq!(shorten_32(exact(125, 135, 145)), (14, 1));
    // no multiple of ten between the bounds: nothing goes
    assert_eq!(shorten_32(exact(121, 125, 129)), (125, 0));
    // an exact lower bound that may be taken: its zeros go too
    let lower = ScaledInterval32 {
        vm: 1200,
        vr: 1203,
        vp: 1206,
        vm_is_trailing_zeros: true,
        vr_is_trailing_zeros: false,
        accept_bounds: true,
        last_removed_digit: 0,
    };
    assert_eq!(shorten_32(lower), (12, 2));
}

#[test]
fn mantissa_digits_end_at_the_given_position() {
    let mut buf = [b'.'; 24];
    write_mantissa_long(12345678901234567, &mut buf, 20);
    assert_eq!(&buf, b"...12345678901234567....");
    let mut buf = [b'.'; 24];
    write_mantissa_long(0, &mut buf, 1);
    assert_eq!(&buf, b"0.......................");
    let mut buf = [b'.'; 24];
    write_mantissa(4294967295, &mut buf, 24);
    assert_eq!(&buf, b"..............4294967295");
    let mut buf = [b'.'; 24];
    write_mantissa(70, &mut buf, 5);
    assert_eq!(&buf, b"...70...................");
}

#[test]
fn exponents_are_written_with_their_sign() {
    let mut buf = [b'.'; 24];
    assert_eq!(write_exponent3(-324, &mut buf, 2), 4);
    assert_eq!(&buf[..8], b"..-324..");
    let mut buf = [b'.'; 24];
    assert_eq!(write_exponent3(308, &mut buf, 0), 3);
    assert_eq!(&buf[..4], b"308.");
    let mut buf = [b'.'; 24];
    assert_eq!(write_exponent3(7, &mut buf, 23), 1);
    assert_eq!(&buf[20..], b"...7");
    let mut buf = [b'.'; 24];
    assert_eq!(write_exponent3(-40, &mut buf, 0), 3);
    assert_eq!(&buf[..4], b"-40.");
    let mut buf = [b'.'; 24];
    assert_eq!(write_exponent2(-45, &mut buf, 1), 3);
    assert_eq!(&buf[..5], b".-45.");
    let mut buf = [b'.'; 24];
    assert_eq!(write_exponent2(38, &mut buf, 0), 2);
    assert_eq!(write_exponent2(0, &mut buf, 2), 1);
    assert_eq!(&buf[..4], b"380.");
}

#[test]
fn finite_values_are_written_at_the_start() {
    let mut buf = [b'.'; 24];
    assert_eq!(format64(1.5f64.to_bits(), &mut buf), 3);
    assert_eq!(&buf[..4], b"1.5.");
    let mut buf = [b'.'; 24];
    assert_eq!(format64((-0.0f64).to_bits(), &mut buf), 4);
    assert_eq!(&buf[..5], b"-0.0.");
    let mut buf = [b'.'; 24];
    assert_eq!(format32(2.5e-10f32.to_bits(), &mut buf), 7);
    assert_eq!(&buf[..8], b"2.5e-10.");
}
