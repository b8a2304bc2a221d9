//! Shortest decimal text of binary floating-point values, decimal text of
//! integers, and the joining of such texts into one buffer.
//!
//! The conversion of floats finds, for a value given by its bits, the
//! shortest decimal that a reader takes for the same value, and writes it in
//! fixed or in scientific notation.

use vstd::prelude::*;
use vstd::string::StringExecFns;

pub mod float2str;
pub mod utils_core;

verus! {

/// The texts of a list of string slices, one behind the other.
pub open spec fn concat_views(parts: Seq<&str>) -> Seq<char>
    decreases parts.len(),
{
    if parts.len() == 0 {
        Seq::empty()
    } else {
        concat_views(parts.drop_last()) + parts.last()@
    }
}

/// Joins `first` and the `suffixes` behind it into one string.
pub fn concat_str(first: &str, suffixes: &[&str]) -> (s: String)
    ensures
        s@ == first@ + concat_views(suffixes@),
{
    let mut s = String::from_str(first);
    let mut i: usize = 0;
    proof {
        assert(suffixes@.subrange(0, 0) =~= Seq::empty());
    }
    while i < suffixes.len()
        invariant
            i <= suffixes@.len(),
            s@ == first@ + concat_views(suffixes@.subrange(0, i as int)),
        decreases suffixes@.len() - i,
    {
        s.append(suffixes[i]);
        proof {
            let next = suffixes@.subrange(0, i + 1);
            assert(next.drop_last() =~= suffixes@.subrange(0, i as int));
            assert(s@ =~= first@ + concat_views(next));
        }
        i += 1;
    }
    proof {
        assert(suffixes@.subrange(0, suffixes@.len() as int) =~= suffixes@);
    }
    s
}

/// `pattern` is not empty and stands in `input` at position `pos`.
pub open spec fn matches_at(input: Seq<u8>, pos: int, pattern: Seq<u8>) -> bool {
    &&& pattern.len() > 0
    &&& 0 <= pos
    &&& pos + pattern.len() <= input.len()
    &&& input.subrange(pos, pos + pattern.len()) == pattern
}

/// The patterns and their replacements as plain byte sequences.
pub open spec fn pattern_views(patterns: Seq<(&[u8], &[u8])>) -> Seq<(Seq<u8>, Seq<u8>)> {
    patterns.map_values(|p: (&[u8], &[u8])| (p.0@, p.1@))
}

/// The index of the first pattern from `from` on that stands in `input` at
/// `pos`; the number of patterns where none does.
pub open spec fn first_match(
    input: Seq<u8>,
    patterns: Seq<(Seq<u8>, Seq<u8>)>,
    pos: int,
    from: int,
) -> int
    decreases patterns.len() - from,
{
    if from < 0 || from >= patterns.len() {
        patterns.len() as int
    } else if matches_at(input, pos, patterns[from].0) {
        from
    } else {
        first_match(input, patterns, pos, from + 1)
    }
}

/// The length that the first byte of a UTF-8 character announces; one for a
/// byte that starts no character.
pub open spec fn char_width(lead: u8) -> int {
    if lead < 128 {
        1
    } else if lead & 0xe0 == 0xc0 {
        2
    } else if lead & 0xf0 == 0xe0 {
        3
    } else if lead & 0xf8 == 0xf0 {
        4
    } else {
        1
    }
}

/// The number of bytes that are copied from position `pos` where no pattern
/// matches: one character, or what is left of the input.
pub open spec fn copied_len(input: Seq<u8>, pos: int) -> int {
    if char_width(input[pos]) <= input.len() - pos {
        char_width(input[pos])
    } else {
        input.len() - pos
    }
}

/// The input from `pos` on with every match replaced: at each position the
/// first pattern of the list that matches there gives way to its replacement,
/// and where none matches one character is copied.
pub open spec fn replace_from(input: Seq<u8>, patterns: Seq<(Seq<u8>, Seq<u8>)>, pos: int) -> Seq<
    u8,
>
    decreases input.len() - pos,
{
    if pos < 0 || pos >= input.len() {
        Seq::empty()
    } else {
        let k = first_match(input, patterns, pos, 0);
        if 0 <= k < patterns.len() && 0 < patterns[k].0.len() <= input.len() - pos {
            patterns[k].1 + replace_from(input, patterns, pos + patterns[k].0.len())
        } else {
            input.subrange(pos, pos + copied_len(input, pos)) + replace_from(
                input,
                patterns,
                pos + copied_len(input, pos),
            )
        }
    }
}

/// Tells whether `pattern` stands in `input` at position `pos`.
pub fn bytes_match_at(input: &[u8], pos: usize, pattern: &[u8]) -> (r: bool)
    requires
        pos + pattern@.len() <= input@.len(),
    ensures
        r == (input@.subrange(pos as int, pos + pattern@.len()) == pattern@),
{
    let count = pattern.len();
    let size = input.len();
    let mut i: usize = 0;
    while i < count
        invariant
            i <= count == pattern@.len(),
            pos + count <= size == input@.len(),
            input@.subrange(pos as int, pos + i) == pattern@.subrange(0, i as int),
        decreases count - i,
    {
        if input[pos + i] != pattern[i] {
            proof {
                let whole = input@.subrange(pos as int, pos + count);
                assert(whole[i as int] == input@[pos + i]);
            }
            return false;
        }
        proof {
            assert(input@.subrange(pos as int, pos + i + 1) =~= pattern@.subrange(0, i + 1));
        }
        i += 1;
    }
    proof {
        assert(pattern@.subrange(0, count as int) =~= pattern@);
    }
    true
}

/// Appends `bytes` to `result`.
pub fn push_bytes(result: &mut Vec<u8>, bytes: &[u8])
    ensures
        final(result)@ == old(result)@ + bytes@,
{
    let ghost before = result@;
    let count = bytes.len();
    let mut i: usize = 0;
    proof {
        assert(result@ =~= before + bytes@.subrange(0, 0));
    }
    while i < count
        invariant
            i <= count == bytes@.len(),
            result@ == before + bytes@.subrange(0, i as int),
        decreases count - i,
    {
        result.push(bytes[i]);
        proof {
            assert(result@ =~= before + bytes@.subrange(0, i + 1));
        }
        i += 1;
    }
    proof {
        assert(bytes@.subrange(0, count as int) =~= bytes@);
    }
}

/// Replaces in one pass over `input` every match of a pattern by its
/// replacement. `patterns` lists pairs of a pattern and its replacement; at
/// each position the first pattern of the list that matches is taken, and
/// empty patterns never match. Where no pattern matches, one UTF-8 character
/// is copied.
pub fn replace_multiple_patterns(input: &[u8], patterns: &[(&[u8], &[u8])]) -> (result: Vec<u8>)
    ensures
        result@ == replace_from(input@, pattern_views(patterns@), 0),
{
    let ghost views = pattern_views(patterns@);
    let mut result: Vec<u8> = Vec::new();
    let input_len = input.len();
    let mut read_pos: usize = 0;
    proof {
        assert(result@ + replace_from(input@, views, 0) =~= replace_from(input@, views, 0));
    }
    while read_pos < input_len
        invariant
            read_pos <= input_len == input@.len(),
            views == pattern_views(patterns@),
            result@ + replace_from(input@, views, read_pos as int) == replace_from(
                input@,
                views,
                0,
            ),
        decreases input_len - read_pos,
    {
        let ghost written = result@;
        let ghost pos = read_pos as int;
        let mut matched = false;
        let mut k: usize = 0;
        while k < patterns.len() && !matched
            invariant
                k <= patterns@.len(),
                views == pattern_views(patterns@),
                pos < input_len == input@.len(),
                !matched ==> read_pos == pos && result@ == written && first_match(
                    input@,
                    views,
                    pos,
                    0,
                ) == first_match(input@, views, pos, k as int),
                matched ==> pos < read_pos <= input_len && result@ + replace_from(
                    input@,
                    views,
                    read_pos as int,
                ) == written + replace_from(input@, views, pos),
            decreases patterns@.len() - k + if matched { 0int } else { 1 },
        {
            let pattern = patterns[k].0;
            let replacement = patterns[k].1;
            let pattern_len = pattern.len();
            proof {
                assert(views[k as int] == (pattern@, replacement@));
            }
            if pattern_len > 0 && pattern_len <= input_len - read_pos && bytes_match_at(
                input,
                read_pos,
                pattern,
            ) {
                push_bytes(&mut result, replacement);
                read_pos += pattern_len;
                matched = true;
                proof {
                    assert(first_match(input@, views, pos, 0) == k);
                    assert(result@ + replace_from(input@, views, read_pos as int) =~= written
                        + replace_from(input@, views, pos));
                }
            } else {
                k += 1;
            }
        }
        if !matched {
            let current_byte = input[read_pos];
            let char_len: usize = if current_byte < 128 {
                1
            } else if current_byte & 0xe0 == 0xc0 {
                2
            } else if current_byte & 0xf0 == 0xe0 {
                3
            } else if current_byte & 0xf8 == 0xf0 {
                4
            } else {
                1
            };
            let actual_len = if char_len <= input_len - read_pos {
                char_len
            } else {
                input_len - read_pos
            };
            push_bytes(&mut result, vstd::slice::slice_subrange(input, read_pos, read_pos + actual_len));
            read_pos += actual_len;
            proof {
                assert(first_match(input@, views, pos, 0) == patterns@.len());
                assert(result@ + replace_from(input@, views, read_pos as int) =~= written
                    + replace_from(input@, views, pos));
            }
        }
        proof {
            assert(result@ + replace_from(input@, views, read_pos as int) =~= replace_from(
                input@,
                views,
                0,
            ));
        }
    }
    proof {
        assert(result@ + Seq::<u8>::empty() =~= result@);
    }
    result
}

} // verus!
