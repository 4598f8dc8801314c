use vstd::prelude::*;

verus! {

/// The compression codec applied uniformly to every row group of one output
/// file; chosen once before writing begins and fixed for the file's lifetime.
#[derive(Clone, Copy, PartialEq, Eq, Structural, Debug)]
pub enum Codec {
    Snappy,
    Gzip,
    Brotli,
    Lz4,
    Lzo,
    Lz4Raw,
    Uncompressed,
    Zstd,
}

/// ASCII case folding of one character, as a code point: lower-case ASCII
/// letters map to their upper-case counterpart, everything else is unchanged.
pub open spec fn upper_code(c: char) -> int {
    if 97 <= c as int && c as int <= 122 {
        c as int - 32
    } else {
        c as int
    }
}

/// Two character sequences are equal up to ASCII case.
pub open spec fn eq_ignore_ascii_case(s: Seq<char>, k: Seq<char>) -> bool {
    &&& s.len() == k.len()
    &&& forall|i: int| 0 <= i < s.len() ==> upper_code(s[i]) == upper_code(k[i])
}

/// The codec a compression name selects: the seven recognized names map
/// one-to-one to themselves, compared ignoring ASCII case; any other name
/// selects Zstd (the deliberate permissive fallback).
pub open spec fn codec_of_name(s: Seq<char>) -> Codec {
    if eq_ignore_ascii_case(s, "SNAPPY"@) {
        Codec::Snappy
    } else if eq_ignore_ascii_case(s, "GZIP"@) {
        Codec::Gzip
    } else if eq_ignore_ascii_case(s, "BROTLI"@) {
        Codec::Brotli
    } else if eq_ignore_ascii_case(s, "LZ4"@) {
        Codec::Lz4
    } else if eq_ignore_ascii_case(s, "LZO"@) {
        Codec::Lzo
    } else if eq_ignore_ascii_case(s, "LZ4_RAW"@) {
        Codec::Lz4Raw
    } else if eq_ignore_ascii_case(s, "UNCOMPRESSED"@) {
        Codec::Uncompressed
    } else {
        Codec::Zstd
    }
}

/// The codec an optional compression name selects: absence selects Zstd.
pub open spec fn codec_of(c: Option<Seq<char>>) -> Codec {
    match c {
        Option::None => Codec::Zstd,
        Option::Some(s) => codec_of_name(s),
    }
}

/// The view of an optional compression name.
pub open spec fn name_view(c: Option<String>) -> Option<Seq<char>> {
    match c {
        Option::None => Option::None,
        Option::Some(s) => Option::Some(s@),
    }
}

/// ASCII case folding of one character, executable.
fn fold_char(c: char) -> (r: u32)
    ensures
        r as int == upper_code(c),
{
    let u = c as u32;
    if 97 <= u && u <= 122 {
        u - 32
    } else {
        u
    }
}

/// Compares two strings up to ASCII case, character by character.
fn str_eq_ignore_ascii_case(s: &str, k: &str) -> (r: bool)
    ensures
        r == eq_ignore_ascii_case(s@, k@),
{
    let n = s.unicode_len();
    let m = k.unicode_len();
    if n != m {
        return false;
    }
    let mut i: usize = 0;
    while i < n
        invariant
            n == s@.len(),
            n == k@.len(),
            i <= n,
            forall|j: int| 0 <= j < i ==> upper_code(s@[j]) == upper_code(k@[j]),
        decreases n - i,
    {
        let a = fold_char(s.get_char(i));
        let b = fold_char(k.get_char(i));
        if a != b {
            return false;
        }
        i = i + 1;
    }
    true
}

/// Selects the codec a compression name stands for.
pub fn codec_from_name(s: &str) -> (r: Codec)
    ensures
        r == codec_of_name(s@),
{
    if str_eq_ignore_ascii_case(s, "SNAPPY") {
        Codec::Snappy
    } else if str_eq_ignore_ascii_case(s, "GZIP") {
        Codec::Gzip
    } else if str_eq_ignore_ascii_case(s, "BROTLI") {
        Codec::Brotli
    } else if str_eq_ignore_ascii_case(s, "LZ4") {
        Codec::Lz4
    } else if str_eq_ignore_ascii_case(s, "LZO") {
        Codec::Lzo
    } else if str_eq_ignore_ascii_case(s, "LZ4_RAW") {
        Codec::Lz4Raw
    } else if str_eq_ignore_ascii_case(s, "UNCOMPRESSED") {
        Codec::Uncompressed
    } else {
        Codec::Zstd
    }
}

/// Codec selection is case-insensitive: two names that fold to the same
/// ASCII code points select the same codec.
pub proof fn lemma_codec_case_insensitive(s: Seq<char>, t: Seq<char>)
    requires
        eq_ignore_ascii_case(s, t),
    ensures
        codec_of_name(s) == codec_of_name(t),
{
    assert forall|k: Seq<char>| eq_ignore_ascii_case(s, k) == eq_ignore_ascii_case(t, k) by {
        if eq_ignore_ascii_case(s, k) {
            assert(eq_ignore_ascii_case(t, k));
        }
        if eq_ignore_ascii_case(t, k) {
            assert(eq_ignore_ascii_case(s, k));
        }
    }
}

} // verus!
