use proc_tools_core::{bytes_match_at, push_bytes, replace_multiple_patterns};

fn replace(input: &str, patterns: &[(&str, &str)]) -> String {
    let pairs: Vec<(&[u8], &[u8])> =
        patterns.iter().map(|(p, r)| (p.as_bytes(), r.as_bytes())).collect();
    String::from_utf8(replace_multiple_patterns(input.as_bytes(), &pairs)).unwrap()
}

#[test]
fn every_match_is_replaced() {
    let input = "Hello world, welcome to Rust!";
    let patterns = [("world", "Earth"), ("Rust", "Rust programming")];
    assert_eq!(replace(input, &patterns), "Hello Earth, welcome to Rust programming!");
}

#[test]
fn the_earlier_position_wins_over_the_earlier_pattern() {
    assert_eq!(replace("abcde", &[("bc", "Y"), ("abc", "X")]), "Xde");
}

#[test]
fn the_earlier_pattern_wins_at_one_position() {
    assert_eq!(replace("abcabc", &[("ab", "1"), ("abc", "2")]), "1c1c");
    assert_eq!(replace("abcabc", &[("abc", "2"), ("ab", "1")]), "22");
}

#[test]
fn empty_patterns_never_match() {
    assert_eq!(replace("abc", &[("", "x")]), "abc");
    assert_eq!(replace("abc", &[("", "x"), ("b", "")]), "ac");
    assert_eq!(replace("abc", &[]), "abc");
    assert_eq!(replace("", &[("a", "b")]), "");
}

#[test]
fn replacements_are_not_scanned_again() {
    assert_eq!(replace("aaa", &[("a", "aa")]), "aaaaaa");
    assert_eq!(replace("ab", &[("a", "b"), ("b", "a")]), "ba");
}

#[test]
fn characters_of_several_bytes_are_kept() {
    assert_eq!(replace("gr\u{fc}\u{df}e {name} \u{1f600}", &[("{name}", "W\u{e9}lt")]), "gr\u{fc}\u{df}e W\u{e9}lt \u{1f600}");
    assert_eq!(replace("\u{4f60}\u{597d}\u{4e16}\u{754c}", &[("\u{4e16}\u{754c}", "world")]), "\u{4f60}\u{597d}world");
}

#[test]
fn a_cut_character_is_copied_as_far_as_it_goes() {
    // a leading byte that announces three bytes, with one byte behind it
    let out = replace_multiple_patterns(&[0xe4, 0xbd], &[(b"x", b"y")]);
    assert_eq!(out, [0xe4, 0xbd]);
    // a byte that starts no character goes alone
    let out = replace_multiple_patterns(&[0xbd, b'x'], &[(b"x", b"y")]);
    assert_eq!(out, [0xbd, b'y']);
}

#[test]
fn patterns_are_compared_byte_by_byte() {
    assert!(bytes_match_at(b"hello", 1, b"ell"));
    assert!(!bytes_match_at(b"hello", 1, b"elo"));
    assert!(bytes_match_at(b"hello", 5, b""));
    let mut out = b"ab".to_vec();
    push_bytes(&mut out, b"cd");
    assert_eq!(out, b"abcd");
}
