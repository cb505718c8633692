//! Text facts the verifiers rely on: UTF-8 bytes, blank strings,
//! ASCII case-insensitive comparison and `0x` prefixes.

use vstd::prelude::*;
use vstd::utf8::encode_utf8;

verus! {

/// The UTF-8 encoding of a text, which is what `str::as_bytes` and
/// `str::len` see.
pub open spec fn utf8_bytes(text: Seq<char>) -> Seq<u8> {
    encode_utf8(text)
}

/// The Unicode `White_Space` property, which `char::is_whitespace` tests and
/// `str::trim` strips.
pub open spec fn is_unicode_white_space(c: char) -> bool {
    let u = c as u32;
    ||| 0x09 <= u <= 0x0D
    ||| u == 0x20
    ||| u == 0x85
    ||| u == 0xA0
    ||| u == 0x1680
    ||| 0x2000 <= u <= 0x200A
    ||| u == 0x2028
    ||| u == 0x2029
    ||| u == 0x202F
    ||| u == 0x205F
    ||| u == 0x3000
}

/// A text that is empty once trimmed: every character is white space.
pub open spec fn is_blank_text(text: Seq<char>) -> bool {
    forall|i: int| 0 <= i < text.len() ==> is_unicode_white_space(#[trigger] text[i])
}

pub fn is_white_space(c: char) -> (white: bool)
    ensures
        white == is_unicode_white_space(c),
{
    let u = c as u32;
    (0x09 <= u && u <= 0x0D) || u == 0x20 || u == 0x85 || u == 0xA0 || u == 0x1680 || (0x2000
        <= u && u <= 0x200A) || u == 0x2028 || u == 0x2029 || u == 0x202F || u == 0x205F || u
        == 0x3000
}

/// `text.trim().is_empty()`.
pub fn is_blank(text: &str) -> (blank: bool)
    ensures
        blank == is_blank_text(text@),
{
    broadcast use vstd::string::group_string_axioms;

    for c in it: text.chars()
        invariant
            it.seq() == text@,
            forall|j: int| 0 <= j < it.index() ==> is_unicode_white_space(#[trigger] text@[j]),
    {
        if !is_white_space(c) {
            return false;
        }
    }
    true
}


/// `char::to_ascii_lowercase` on one byte: `A`..`Z` become `a`..`z`.
pub open spec fn ascii_lower(b: u8) -> u8 {
    if 65 <= b <= 90 {
        (b + 32) as u8
    } else {
        b
    }
}

/// `eq_ignore_ascii_case` on byte strings: same length, and equal bytes once
/// ASCII letters are folded to lower case.
pub open spec fn ascii_case_eq(a: Seq<u8>, b: Seq<u8>) -> bool {
    &&& a.len() == b.len()
    &&& forall|i: int| 0 <= i < a.len() ==> ascii_lower(#[trigger] a[i]) == ascii_lower(b[i])
}

/// The text starts with the two bytes `0x`.
pub open spec fn has_hex_prefix(s: Seq<u8>) -> bool {
    s.len() >= 2 && s[0] == 48 && s[1] == 120
}

/// `strip_prefix("0x").unwrap_or(s)`: one `0x` removed where there is one.
pub open spec fn strip_hex_prefix(s: Seq<u8>) -> Seq<u8> {
    if has_hex_prefix(s) {
        s.skip(2)
    } else {
        s
    }
}

/// `trim_start_matches("0x")`: every leading `0x` removed.
pub open spec fn trim_hex_prefixes(s: Seq<u8>) -> Seq<u8>
    decreases s.len(),
{
    if has_hex_prefix(s) {
        trim_hex_prefixes(s.skip(2))
    } else {
        s
    }
}

/// The bytes of a string, as `str::as_bytes` gives them.
pub fn bytes_of(text: &String) -> (bytes: &[u8])
    ensures
        bytes@ == utf8_bytes(text@),
{
    text.as_str().as_bytes()
}

pub fn ascii_lower_byte(b: u8) -> (lower: u8)
    ensures
        lower == ascii_lower(b),
{
    if 65 <= b && b <= 90 {
        b + 32
    } else {
        b
    }
}

/// `a.eq_ignore_ascii_case(b)` on the bytes of two strings.
pub fn eq_ignore_ascii_case(a: &[u8], b: &[u8]) -> (same: bool)
    ensures
        same == ascii_case_eq(a@, b@),
{
    if a.len() != b.len() {
        return false;
    }
    let mut i: usize = 0;
    while i < a.len()
        invariant
            a@.len() == b@.len(),
            i <= a@.len(),
            forall|j: int| 0 <= j < i ==> ascii_lower(#[trigger] a@[j]) == ascii_lower(b@[j]),
        decreases a@.len() - i,
    {
        if ascii_lower_byte(a[i]) != ascii_lower_byte(b[i]) {
            return false;
        }
        i = i + 1;
    }
    true
}

/// Where the text starts once one `0x` prefix is stripped.
pub fn strip_hex_prefix_start(s: &[u8]) -> (start: usize)
    ensures
        start <= s@.len(),
        s@.skip(start as int) == strip_hex_prefix(s@),
{
    if s.len() >= 2 && s[0] == 48 && s[1] == 120 {
        2
    } else {
        assert(s@.skip(0) =~= s@);
        0
    }
}

/// Where the text starts once every leading `0x` is trimmed.
pub fn trim_hex_prefixes_start(s: &[u8]) -> (start: usize)
    ensures
        start <= s@.len(),
        s@.skip(start as int) == trim_hex_prefixes(s@),
{
    let mut i: usize = 0;
    assert(s@.skip(0) =~= s@);
    while s.len() - i >= 2 && s[i] == 48 && s[i + 1] == 120
        invariant
            i <= s@.len(),
            trim_hex_prefixes(s@.skip(i as int)) == trim_hex_prefixes(s@),
        decreases s@.len() - i,
    {
        assert(s@.skip(i as int).skip(2) =~= s@.skip(i + 2));
        i = i + 2;
    }
    assert(!has_hex_prefix(s@.skip(i as int)));
    i
}


/// Whether two texts are the same characters.
pub fn same_text(a: &str, b: &str) -> (same: bool)
    ensures
        same == (a@ == b@),
{
    a.to_owned() == b.to_owned()
}

/// What `str::to_lowercase` returns for a text: its Unicode lowercase mapping.
pub uninterp spec fn unicode_lowercase(text: Seq<char>) -> Seq<char>;

/// What `str::to_uppercase` returns for a text: its Unicode uppercase mapping.
pub uninterp spec fn unicode_uppercase(text: Seq<char>) -> Seq<char>;

/// An ASCII text: every character below U+0080.
pub open spec fn is_ascii_text(text: Seq<char>) -> bool {
    forall|i: int| 0 <= i < text.len() ==> (#[trigger] text[i] as u32) < 128
}

/// `A`..`Z` become `a`..`z`; every other character stays.
pub open spec fn ascii_lower_char(c: char) -> char {
    if 'A' <= c <= 'Z' {
        ((c as u32) + 32) as char
    } else {
        c
    }
}

/// `a`..`z` become `A`..`Z`; every other character stays.
pub open spec fn ascii_upper_char(c: char) -> char {
    if 'a' <= c <= 'z' {
        ((c as u32) - 32) as char
    } else {
        c
    }
}

pub open spec fn ascii_lowercase(text: Seq<char>) -> Seq<char> {
    text.map_values(|c: char| ascii_lower_char(c))
}

pub open spec fn ascii_uppercase(text: Seq<char>) -> Seq<char> {
    text.map_values(|c: char| ascii_upper_char(c))
}

/// Calls `str::to_lowercase`.  Trusted: its result is the text's Unicode
/// lowercase mapping, a function of the text alone, which the contract names
/// `unicode_lowercase` and does not spell out beyond ASCII, where the Unicode
/// mapping turns `A`..`Z` into `a`..`z` and keeps every other character.
#[verifier::external_body]
pub(crate) fn to_lowercase(text: &str) -> (lower: String)
    ensures
        lower@ == unicode_lowercase(text@),
        is_ascii_text(text@) ==> lower@ == ascii_lowercase(text@),
{
    text.to_lowercase()
}

/// Calls `str::to_uppercase`.  Trusted: its result is the text's Unicode
/// uppercase mapping, a function of the text alone, which the contract names
/// `unicode_uppercase` and does not spell out beyond ASCII, where the Unicode
/// mapping turns `a`..`z` into `A`..`Z` and keeps every other character.
#[verifier::external_body]
pub(crate) fn to_uppercase(text: &str) -> (upper: String)
    ensures
        upper@ == unicode_uppercase(text@),
        is_ascii_text(text@) ==> upper@ == ascii_uppercase(text@),
{
    text.to_uppercase()
}

} // verus!
