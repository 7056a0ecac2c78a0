use crate::scalar::Comparison;
use std::cmp::Ordering;
use vstd::prelude::*;
use vstd::utf8::{encode_utf8, valid_utf8};

verus! {

/// `std::str::from_utf8`, with the error dropped: the text that `bytes`
/// encode, where they are valid UTF-8, and nothing where they are not.
#[verifier::external_body]
pub(crate) fn str_from_utf8<'a>(bytes: &'a [u8]) -> (text: Option<&'a str>)
    ensures
        text is Some <==> valid_utf8(bytes@),
        text matches Some(s) ==> encode_utf8(s@) == bytes@,
{
    std::str::from_utf8(bytes).ok()
}

/// Whether `needle` occurs in `text` as a run of consecutive characters.
pub open spec fn is_substring(text: Seq<char>, needle: Seq<char>) -> bool {
    exists|i: int, j: int| 0 <= i <= j <= text.len() && #[trigger] text.subrange(i, j) == needle
}

/// `str::contains` with a string for its pattern: whether the pattern
/// matches a part of the text.
#[verifier::external_body]
pub(crate) fn str_has_substring(text: &str, needle: &str) -> (found: bool)
    ensures
        found == is_substring(text@, needle@),
{
    text.contains(needle)
}

/// The order of two byte strings: that of the first position at which they
/// differ, and where neither differs from the other, the shorter one first.
pub open spec fn bytes_order(a: Seq<u8>, b: Seq<u8>) -> Comparison
    decreases a.len(),
{
    if a.len() == 0 {
        if b.len() == 0 {
            Comparison::Equal
        } else {
            Comparison::Less
        }
    } else if b.len() == 0 {
        Comparison::Greater
    } else if a[0] < b[0] {
        Comparison::Less
    } else if a[0] > b[0] {
        Comparison::Greater
    } else {
        bytes_order(a.drop_first(), b.drop_first())
    }
}

/// The order of two texts: that of their UTF-8 encodings, byte by byte.
pub open spec fn text_order(a: Seq<char>, b: Seq<char>) -> Comparison {
    bytes_order(encode_utf8(a), encode_utf8(b))
}

/// `Ord::cmp` on `str`: strings are ordered by their byte values.
#[verifier::external_body]
pub(crate) fn str_order(a: &str, b: &str) -> (outcome: Comparison)
    ensures
        outcome == text_order(a@, b@),
{
    match a.cmp(b) {
        Ordering::Less => Comparison::Less,
        Ordering::Equal => Comparison::Equal,
        Ordering::Greater => Comparison::Greater,
    }
}

} // verus!
