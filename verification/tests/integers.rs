use proc_tools_core::utils_core::impl_to_ascii::{
    itoa_buf_i128, itoa_buf_i16, itoa_buf_i32, itoa_buf_i64, itoa_buf_i8, itoa_buf_isize,
    itoa_buf_u128, itoa_buf_u16, itoa_buf_u32, itoa_buf_u64, itoa_buf_u8, itoa_buf_usize,
    write_integer, write_text,
};

#[test]
fn signed_integers_have_their_sign_and_digits() {
    assert_eq!(itoa_buf_i8(&mut [0; 4], 0), b"0");
    assert_eq!(itoa_buf_i8(&mut [0; 4], -1), b"-1");
    assert_eq!(itoa_buf_i8(&mut [0; 4], 127), b"127");
    assert_eq!(itoa_buf_i16(&mut [0; 6], -305), b"-305");
    assert_eq!(itoa_buf_i32(&mut [0; 11], 2147483647), b"2147483647");
    assert_eq!(itoa_buf_i64(&mut [0; 20], -9000000000), b"-9000000000");
    assert_eq!(itoa_buf_i128(&mut [0; 40], 1 << 100), b"1267650600228229401496703205376");
    assert_eq!(itoa_buf_isize(&mut [0; 20], -42), b"-42");
}

#[test]
fn smallest_signed_integers_are_written_in_full() {
    assert_eq!(itoa_buf_i8(&mut [0; 4], i8::MIN), b"-128");
    assert_eq!(itoa_buf_i16(&mut [0; 6], i16::MIN), b"-32768");
    assert_eq!(itoa_buf_i32(&mut [0; 11], i32::MIN), b"-2147483648");
    assert_eq!(itoa_buf_i64(&mut [0; 20], i64::MIN), b"-9223372036854775808");
    assert_eq!(
        itoa_buf_i128(&mut [0; 40], i128::MIN),
        b"-170141183460469231731687303715884105728"
    );
    assert_eq!(itoa_buf_isize(&mut [0; 20], isize::MIN), isize::MIN.to_string().as_bytes());
}

#[test]
fn unsigned_integers_have_their_digits() {
    assert_eq!(itoa_buf_u8(&mut [0; 3], 0), b"0");
    assert_eq!(itoa_buf_u8(&mut [0; 3], 255), b"255");
    assert_eq!(itoa_buf_u16(&mut [0; 5], 65535), b"65535");
    assert_eq!(itoa_buf_u32(&mut [0; 10], 4294967295), b"4294967295");
    assert_eq!(itoa_buf_u32(&mut [0; 10], 1000), b"1000");
    assert_eq!(itoa_buf_u64(&mut [0; 20], u64::MAX), b"18446744073709551615");
    assert_eq!(
        itoa_buf_u128(&mut [0; 39], u128::MAX),
        b"340282366920938463463374607431768211455"
    );
    assert_eq!(itoa_buf_usize(&mut [0; 20], 123456), b"123456");
}

#[test]
fn integers_agree_with_the_standard_library() {
    let mut value: i64 = 1;
    for step in 0..62 {
        let signed = if step % 2 == 0 { value } else { -value };
        assert_eq!(itoa_buf_i64(&mut [0; 20], signed), signed.to_string().as_bytes());
        assert_eq!(itoa_buf_u64(&mut [0; 20], value as u64), value.to_string().as_bytes());
        value = value * 2 + (step % 3);
    }
}

#[test]
fn integer_text_stands_at_the_end_of_the_buffer() {
    let mut buf = [b'.'; 8];
    let start = write_integer(&mut buf, 305, true);
    assert_eq!(start, 4);
    assert_eq!(&buf, b"....-305");
    let mut buf = [b'.'; 8];
    let start = write_integer(&mut buf, 0, false);
    assert_eq!(start, 7);
    assert_eq!(&buf, b".......0");
}

#[test]
fn fixed_text_stands_at_the_start_of_the_buffer() {
    let mut buf = [b'.'; 24];
    assert_eq!(write_text(&mut buf, b"NAN"), 3);
    assert_eq!(&buf[..5], b"NAN..");
}
