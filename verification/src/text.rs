//! Matching of one text against another: prefix and substring search.
//!
//! The vendor scripts report their state as free text, and a release is
//! recognised by its name. Every such test in this crate goes through the
//! functions below, so that their meaning is stated once.

use vstd::prelude::*;
use vstd::utf8::{decode_utf8, encode_utf8, encode_utf8_decode_utf8, valid_utf8};

verus! {

/// The text that `bytes` spell in UTF-8; `None` where they spell none.
pub open spec fn text_of(bytes: Seq<u8>) -> Option<Seq<char>> {
    if valid_utf8(bytes) {
        Some(decode_utf8(bytes))
    } else {
        None
    }
}

/// `core::str::from_utf8`; why the bytes are no text is dropped.
///
/// Believed, not proved: that it accepts the byte sequences that are valid
/// UTF-8 and no others, and that the text it gives is the one whose UTF-8
/// encoding is the bytes it was given.
#[verifier::external_body]
fn from_utf8(bytes: &[u8]) -> (text: Option<&str>)
    ensures
        text is Some <==> valid_utf8(bytes@),
        text matches Some(text) ==> encode_utf8(text@) == bytes@,
{
    core::str::from_utf8(bytes).ok()
}

/// Reads `bytes` as text.
pub fn decode(bytes: &[u8]) -> (text: Option<&str>)
    ensures
        text.deep_view() == text_of(bytes@),
{
    let text = from_utf8(bytes);
    proof {
        if let Some(text) = text {
            encode_utf8_decode_utf8(text@);
        }
    }
    text
}

/// `needle` stands in `text`, starting at position `at`.
pub open spec fn occurs_at(text: Seq<char>, needle: Seq<char>, at: int) -> bool {
    &&& 0 <= at
    &&& at + needle.len() <= text.len()
    &&& text.subrange(at, at + needle.len()) =~= needle
}

/// `text` begins with `prefix`.
pub open spec fn is_prefix(prefix: Seq<char>, text: Seq<char>) -> bool {
    occurs_at(text, prefix, 0)
}

/// `needle` stands somewhere in `text`.
pub open spec fn is_infix(needle: Seq<char>, text: Seq<char>) -> bool {
    exists|at: int| occurs_at(text, needle, at)
}

/// What is left of `text` once `prefix` is taken from its front; `None` where
/// `text` does not begin with `prefix`.
pub open spec fn without_prefix(prefix: Seq<char>, text: Seq<char>) -> Option<Seq<char>> {
    if is_prefix(prefix, text) {
        Some(text.subrange(prefix.len() as int, text.len() as int))
    } else {
        None
    }
}

/// The characters of `text`, in order.
pub fn chars_of(text: &str) -> (chars: Vec<char>)
    ensures
        chars@ == text@,
{
    let mut chars: Vec<char> = Vec::new();
    for c in it: text.chars()
        invariant
            chars@ == it.seq().take(it.index() as int),
            it.seq() == text@,
    {
        chars.push(c);
    }
    chars
}

/// Whether `needle` stands in `text` at position `at`.
fn matches_at(text: &Vec<char>, needle: &Vec<char>, at: usize) -> (found: bool)
    requires
        at + needle.len() <= text.len(),
    ensures
        found == occurs_at(text@, needle@, at as int),
{
    let mut k: usize = 0;
    while k < needle.len()
        invariant
            k <= needle.len(),
            at + needle.len() <= text.len(),
            forall|j: int| 0 <= j < k ==> text@[at + j] == needle@[j],
        decreases needle.len() - k,
    {
        if text[at + k] != needle[k] {
            return false;
        }
        k = k + 1;
    }
    true
}

/// Whether `text` begins with `prefix`.
pub fn starts_with(text: &str, prefix: &str) -> (found: bool)
    ensures
        found == is_prefix(prefix@, text@),
{
    let text_chars = chars_of(text);
    let prefix_chars = chars_of(prefix);
    if prefix_chars.len() > text_chars.len() {
        return false;
    }
    matches_at(&text_chars, &prefix_chars, 0)
}

/// Whether `needle` stands somewhere in `text`.
pub fn contains(text: &str, needle: &str) -> (found: bool)
    ensures
        found == is_infix(needle@, text@),
{
    let text_chars = chars_of(text);
    let needle_chars = chars_of(needle);
    if needle_chars.len() > text_chars.len() {
        return false;
    }
    let last: usize = text_chars.len() - needle_chars.len();
    let mut at: usize = 0;
    loop
        invariant
            at <= last,
            last == text_chars.len() - needle_chars.len(),
            needle_chars.len() <= text_chars.len(),
            text_chars@ == text@,
            needle_chars@ == needle@,
            forall|j: int| 0 <= j < at ==> !occurs_at(text@, needle@, j),
        decreases last - at,
    {
        if matches_at(&text_chars, &needle_chars, at) {
            return true;
        }
        if at == last {
            return false;
        }
        at = at + 1;
    }
}

/// What is left of `text` once `prefix` is taken from its front, or `None`
/// where `text` does not begin with `prefix`.
pub fn strip_prefix(text: &str, prefix: &str) -> (rest: Option<String>)
    ensures
        rest.deep_view() == without_prefix(prefix@, text@),
{
    let text_chars = chars_of(text);
    let prefix_chars = chars_of(prefix);
    if prefix_chars.len() > text_chars.len() {
        return None;
    }
    if !matches_at(&text_chars, &prefix_chars, 0) {
        return None;
    }
    let rest = text.substring_char(prefix_chars.len(), text_chars.len());
    Some(rest.to_owned())
}

} // verus!
