use proc_tools_core::concat_str;
use proc_tools_core::utils_core::impl_to_ascii::{
    append_parameter, DoubleBits, FloatBits, StaticSizeConcatParameter,
    VariableSizeConcatParameter,
};

#[test]
fn first_integer_gives_its_length() {
    let mut bytes = [0u8; 40];
    let (len, slice) = 123.first_parameter_for_concat(&mut bytes);
    assert_eq!(len, 3);
    assert_eq!(slice, b"123");
}

#[test]
fn further_integer_adds_its_length() {
    let mut bytes = [0u8; 40];
    let mut total_len = 3;
    let slice = 456.init_concat_parameter(&mut bytes, &mut total_len);
    assert_eq!(total_len, 6);
    assert_eq!(slice, b"456");
}

#[test]
fn two_integers_are_joined() {
    let param1 = 123;
    let param2 = 123;
    let mut bytes1 = [0u8; 40];
    let (mut total_len, slice1) = param1.first_parameter_for_concat(&mut bytes1);
    let mut bytes2 = [0u8; 40];
    let slice2 = param2.init_concat_parameter(&mut bytes2, &mut total_len);
    let mut out = vec![0u8; total_len];
    let mut offset = 0;
    StaticSizeConcatParameter::concat_parameter(&param1, &mut out, slice1, &mut offset);
    StaticSizeConcatParameter::concat_parameter(&param2, &mut out, slice2, &mut offset);
    assert_eq!(offset, 6);
    assert_eq!(String::from_utf8(out).unwrap(), "123123");
}

#[test]
fn first_string_gives_its_length() {
    let param = "hello";
    let mut bytes = [0u8; 40];
    let (len, slice) = param.first_parameter_for_concat(&mut bytes);
    assert_eq!(len, 5);
    assert_eq!(slice, b"hello");
}

#[test]
fn two_strings_are_joined() {
    let param1 = "hello";
    let param2 = String::from("world");
    let mut bytes1 = [0u8; 40];
    let (mut total_len, slice1) = param1.first_parameter_for_concat(&mut bytes1);
    let mut bytes2 = [0u8; 40];
    let slice2 = param2.init_concat_parameter(&mut bytes2, &mut total_len);
    assert_eq!(total_len, 10);
    let mut out = vec![0u8; total_len];
    let mut offset = 0;
    VariableSizeConcatParameter::concat_parameter(param1, &mut out, slice1, &mut offset);
    VariableSizeConcatParameter::concat_parameter(&param2, &mut out, slice2, &mut offset);
    assert_eq!(String::from_utf8(out).unwrap(), "helloworld");
}

#[test]
fn mixed_parameters_are_joined() {
    // name, age, score as in "Alice3095.5"
    let name = "Alice";
    let age = 30i32;
    let score = DoubleBits(95.5f64.to_bits());
    let mut b1 = [0u8; 40];
    let mut b2 = [0u8; 40];
    let mut b3 = [0u8; 40];
    let (mut total_len, v1) = name.first_parameter_for_concat(&mut b1);
    let v2 = age.init_concat_parameter(&mut b2, &mut total_len);
    let v3 = DoubleBits(score.0).init_concat_parameter(&mut b3, &mut total_len);
    let mut out = vec![0u8; total_len];
    let mut offset = 0;
    VariableSizeConcatParameter::concat_parameter(name, &mut out, v1, &mut offset);
    StaticSizeConcatParameter::concat_parameter(&age, &mut out, v2, &mut offset);
    StaticSizeConcatParameter::concat_parameter(&score, &mut out, v3, &mut offset);
    assert_eq!(String::from_utf8(out).unwrap(), "Alice3095.5");
}

#[test]
fn signed_and_wide_integers_are_parameters() {
    let mut bytes = [0u8; 40];
    assert_eq!((-128i8).first_parameter_for_concat(&mut bytes), (4, &b"-128"[..]));
    assert_eq!(i16::MIN.first_parameter_for_concat(&mut bytes), (6, &b"-32768"[..]));
    assert_eq!(0u8.first_parameter_for_concat(&mut bytes), (1, &b"0"[..]));
    assert_eq!(65535u16.first_parameter_for_concat(&mut bytes), (5, &b"65535"[..]));
    assert_eq!(7u32.first_parameter_for_concat(&mut bytes), (1, &b"7"[..]));
    assert_eq!((-7i64).first_parameter_for_concat(&mut bytes), (2, &b"-7"[..]));
    assert_eq!(u64::MAX.first_parameter_for_concat(&mut bytes).0, 20);
    assert_eq!(i128::MIN.first_parameter_for_concat(&mut bytes).0, 40);
    assert_eq!(u128::MAX.first_parameter_for_concat(&mut bytes).0, 39);
}

#[test]
fn floats_are_parameters() {
    let mut bytes = [0u8; 40];
    let (len, text) = FloatBits(3.14f32.to_bits()).first_parameter_for_concat(&mut bytes);
    assert_eq!((len, text), (4, &b"3.14"[..]));
    let mut total = 10;
    let text = DoubleBits(f64::NEG_INFINITY.to_bits()).init_concat_parameter(&mut bytes, &mut total);
    assert_eq!(text, b"NEG_INFINITY");
    assert_eq!(total, 22);
}

#[test]
fn characters_are_encoded() {
    let mut bytes = [0u8; 40];
    let (len, text) = 'a'.first_parameter_for_concat(&mut bytes);
    assert_eq!((len, text), (1, &b"a"[..]));
    let mut bytes = [0u8; 40];
    let (len, text) = '\u{e9}'.first_parameter_for_concat(&mut bytes);
    assert_eq!((len, text), (2, &[0xc3u8, 0xa9][..]));
    let mut bytes = [0u8; 40];
    let mut total = 0;
    let text = '\u{1f600}'.init_concat_parameter(&mut bytes, &mut total);
    assert_eq!(text, "\u{1f600}".as_bytes());
    assert_eq!(total, 4);
}

#[test]
fn booleans_are_written_as_words() {
    let mut bytes = [0u8; 40];
    assert_eq!(true.first_parameter_for_concat(&mut bytes), (4, &b"true"[..]));
    assert_eq!(false.first_parameter_for_concat(&mut bytes), (5, &b"false"[..]));
    let mut total = 1;
    let text = false.init_concat_parameter(&mut bytes, &mut total).to_vec();
    assert_eq!(total, 6);
    let mut out = vec![b'.'; 8];
    let mut offset = 2;
    false.concat_parameter(&mut out, &text, &mut offset);
    assert_eq!(offset, 7);
    assert_eq!(out, b"..false.");
}

#[test]
fn appending_moves_the_offset() {
    let mut out = vec![b'.'; 6];
    let mut offset = 1;
    append_parameter(&mut out, b"ab", &mut offset);
    append_parameter(&mut out, b"", &mut offset);
    append_parameter(&mut out, b"c", &mut offset);
    assert_eq!(offset, 4);
    assert_eq!(out, b".abc..");
}

#[test]
fn string_slices_are_joined() {
    assert_eq!(concat_str("file", &[".txt"]), "file.txt");
    assert_eq!(concat_str("/home", &["/", "file", ".txt", ".zip"]), "/home/file.txt.zip");
    assert_eq!(concat_str("alone", &[]), "alone");
}
