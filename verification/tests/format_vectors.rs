use proc_tools_core::utils_core::impl_to_ascii::{ftoa_buf_f32, ftoa_buf_f64};

fn text64(value: f64) -> String {
    let mut buf = [0u8; 24];
    let text = ftoa_buf_f64(&mut buf, value.to_bits());
    String::from_utf8(text.to_vec()).unwrap()
}

fn text32(value: f32) -> String {
    let mut buf = [0u8; 24];
    let text = ftoa_buf_f32(&mut buf, value.to_bits());
    String::from_utf8(text.to_vec()).unwrap()
}

#[test]
fn zero_has_a_fraction_digit() {
    assert_eq!(text64(0.0), "0.0");
    assert_eq!(text32(0.0), "0.0");
}

#[test]
fn negative_zero_keeps_its_sign() {
    assert_eq!(text64(-0.0), "-0.0");
    assert_eq!(text32(-0.0), "-0.0");
}

#[test]
fn one_is_written_as_an_integer_with_fraction() {
    assert_eq!(text64(1.0), "1.0");
    assert_eq!(text32(1.0), "1.0");
}

#[test]
fn single_precision_pi_approximation() {
    assert_eq!(text32(3.14f32), "3.14");
}

#[test]
fn large_power_of_ten_is_scientific() {
    assert_eq!(text64(1.0e30), "1e30");
}

#[test]
fn small_power_of_ten_is_scientific() {
    assert_eq!(text64(1.0e-30), "1e-30");
}

#[test]
fn small_fraction_has_leading_zeros() {
    assert_eq!(text64(0.0001234), "0.0001234");
}

#[test]
fn not_a_number_has_its_name() {
    assert_eq!(text64(f64::NAN), "NAN");
    assert_eq!(text32(f32::NAN), "NAN");
}

#[test]
fn infinities_have_their_names() {
    assert_eq!(text32(f32::INFINITY), "INFINITY");
    assert_eq!(text32(f32::NEG_INFINITY), "NEG_INFINITY");
    assert_eq!(text64(f64::INFINITY), "INFINITY");
    assert_eq!(text64(f64::NEG_INFINITY), "NEG_INFINITY");
}

#[test]
fn smallest_subnormals_read_back() {
    let tiny64 = f64::from_bits(1);
    assert_eq!(text64(tiny64), "5e-324");
    assert_eq!(text64(tiny64).parse::<f64>().unwrap().to_bits(), 1);
    let tiny32 = f32::from_bits(1);
    assert_eq!(text32(tiny32), "1e-45");
    assert_eq!(text32(tiny32).parse::<f32>().unwrap().to_bits(), 1);
}

#[test]
fn extremes_of_double_precision() {
    assert_eq!(text64(f64::MAX), "1.7976931348623157e308");
    assert_eq!(text64(f64::MIN), "-1.7976931348623157e308");
    assert_eq!(text64(f64::MIN_POSITIVE), "2.2250738585072014e-308");
    assert_eq!(text64(f64::EPSILON), "2.220446049250313e-16");
}

#[test]
fn extremes_of_single_precision() {
    assert_eq!(text32(f32::MAX), "3.4028235e38");
    assert_eq!(text32(f32::MIN), "-3.4028235e38");
    assert_eq!(text32(f32::MIN_POSITIVE), "1.1754944e-38");
    assert_eq!(text32(f32::EPSILON), "1.1920929e-7");
}

#[test]
fn layouts_of_double_precision() {
    // integer with trailing fraction zero, up to sixteen digits
    assert_eq!(text64(1234.0), "1234.0");
    assert_eq!(text64(1.0e15), "1000000000000000.0");
    assert_eq!(text64(1.0e16), "1e16");
    assert_eq!(text64(1.2e16), "1.2e16");
    // interior decimal point
    assert_eq!(text64(12.34), "12.34");
    assert_eq!(text64(123456789.125), "123456789.125");
    // leading zeros down to four of them
    assert_eq!(text64(0.1), "0.1");
    assert_eq!(text64(0.00001234), "0.00001234");
    assert_eq!(text64(0.000001234), "1.234e-6");
    // scientific
    assert_eq!(text64(1.0e-7), "1e-7");
    assert_eq!(text64(1.5e300), "1.5e300");
    assert_eq!(text64(-2.5e-300), "-2.5e-300");
}

#[test]
fn layouts_of_single_precision() {
    assert_eq!(text32(1234.0), "1234.0");
    assert_eq!(text32(1.0e12), "1000000000000.0");
    assert_eq!(text32(1.0e13), "1e13");
    assert_eq!(text32(12.34), "12.34");
    assert_eq!(text32(0.1), "0.1");
    assert_eq!(text32(0.000001234), "0.000001234");
    assert_eq!(text32(0.0000001234), "1.234e-7");
    assert_eq!(text32(1.5e30), "1.5e30");
    assert_eq!(text32(-2.5e-30), "-2.5e-30");
}

#[test]
fn ties_round_to_even() {
    // 2^53 + 2 is halfway between two sixteen-digit decimals
    assert_eq!(text64(9007199254740994.0), "9007199254740994.0");
    assert_eq!(text64(4.940656e-318), "4.940656e-318");
    assert_eq!(text64(1.0e23), "1e23");
    assert_eq!(text64(8.41e21), "8.41e21");
    assert_eq!(text32(8.5899e9), "8589900000.0");
    assert_eq!(text32(3.355445e7), "33554450.0");
}

fn next(state: &mut u64) -> u64 {
    *state = state.wrapping_mul(6364136223846793005).wrapping_add(1442695040888963407);
    *state ^ (*state >> 29)
}

#[test]
fn doubles_read_back_as_themselves() {
    let mut state = 0x1234_5678_9abc_def0u64;
    for _ in 0..200_000 {
        let bits = next(&mut state);
        let value = f64::from_bits(bits);
        if value.is_finite() {
            let text = text64(value);
            assert_eq!(text.parse::<f64>().unwrap().to_bits(), bits, "{}", text);
        }
    }
}

#[test]
fn floats_read_back_as_themselves() {
    let mut state = 0x0fed_cba9_8765_4321u64;
    for _ in 0..200_000 {
        let bits = (next(&mut state) >> 32) as u32;
        let value = f32::from_bits(bits);
        if value.is_finite() {
            let text = text32(value);
            assert_eq!(text.parse::<f32>().unwrap().to_bits(), bits, "{}", text);
        }
    }
}

fn significant_digits(text: &str) -> usize {
    let mantissa = text.split('e').next().unwrap();
    let digits: String = mantissa.chars().filter(|c| c.is_ascii_digit()).collect();
    let digits = digits.trim_start_matches('0').trim_end_matches('0');
    digits.len().max(1)
}

#[test]
fn no_double_has_a_shorter_decimal() {
    // the standard library prints a shortest decimal that reads back, too
    let mut state = 0x5eed_5eed_5eed_5eedu64;
    for _ in 0..100_000 {
        let bits = next(&mut state);
        let value = f64::from_bits(bits);
        if value.is_finite() && value != 0.0 {
            let ours = text64(value);
            let theirs = format!("{:e}", value);
            assert_eq!(significant_digits(&ours), significant_digits(&theirs), "{}", ours);
        }
    }
}

#[test]
fn no_float_has_a_shorter_decimal() {
    let mut state = 0x0dd5_eed5_0dd5_eed5u64;
    for _ in 0..100_000 {
        let bits = (next(&mut state) >> 32) as u32;
        let value = f32::from_bits(bits);
        if value.is_finite() && value != 0.0 {
            let ours = text32(value);
            let theirs = format!("{:e}", value);
            assert_eq!(significant_digits(&ours), significant_digits(&theirs), "{}", ours);
        }
    }
}

#[test]
fn a_tie_between_two_decimals_goes_to_the_even_one() {
    // 34471549409451.0625 lies halfway between ...062 and ...063
    assert_eq!(text64(f64::from_bits(0x42bf5a087518ab10)), "34471549409451.062");
}

#[test]
fn same_bits_give_the_same_text() {
    let mut first = [0u8; 24];
    let mut second = [0xffu8; 24];
    let bits = 0.3f64.to_bits();
    let one = ftoa_buf_f64(&mut first, bits).to_vec();
    let other = ftoa_buf_f64(&mut second, bits).to_vec();
    assert_eq!(one, other);
    assert_eq!(one, b"0.3");
}

#[test]
fn the_sign_only_adds_a_minus() {
    let mut state = 0x0123_4567_89ab_cdefu64;
    for _ in 0..50_000 {
        let bits = next(&mut state);
        let value = f64::from_bits(bits);
        if value.is_finite() {
            let plain = text64(value.abs());
            let negative = text64(-value.abs());
            assert_eq!(negative, format!("-{}", plain));
        }
    }
    assert_eq!(text32(-3.14f32), "-3.14");
}

#[test]
fn the_rest_of_the_buffer_is_left_alone() {
    let mut buf = [7u8; 24];
    let n = ftoa_buf_f64(&mut buf, 12.5f64.to_bits()).len();
    assert_eq!(&buf[..n], b"12.5");
    assert!(buf[n..].iter().all(|b| *b == 7));
    let mut buf = [7u8; 24];
    let n = ftoa_buf_f32(&mut buf, f32::NAN.to_bits()).len();
    assert_eq!(&buf[..n], b"NAN");
    assert!(buf[n..].iter().all(|b| *b == 7));
}

#[test]
fn the_longest_texts_fill_the_buffer() {
    assert_eq!(text64(-1.2345678901234566e-300), "-1.2345678901234566e-300");
    assert_eq!(text64(-1.2345678901234566e-300).len(), 24);
    assert_eq!(text64(-2.2250738585072014e-308), "-2.2250738585072014e-308");
    assert_eq!(text64(-0.00001234567890123456), "-0.00001234567890123456");
    assert_eq!(text32(-1.1754944e-38), "-1.1754944e-38");
}
