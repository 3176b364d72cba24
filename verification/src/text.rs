//! Operations on text that the standard library provides.

use vstd::prelude::*;

verus! {

/// The upper-case form of a text, as `str::to_uppercase` defines it.
pub uninterp spec fn uppercase(text: Seq<char>) -> Seq<char>;

/// A text with every occurrence of `from` replaced by `to`, as `str::replace`
/// defines it: matches are taken from the left and do not overlap.
pub uninterp spec fn replaced(text: Seq<char>, from: Seq<char>, to: Seq<char>) -> Seq<char>;

/// Whether `needle` occurs in `text` as a run of consecutive characters.
pub open spec fn occurs_in(needle: Seq<char>, text: Seq<char>) -> bool {
    exists|at: int|
        0 <= at <= text.len() - needle.len() && #[trigger] text.subrange(
            at,
            at + needle.len(),
        ) == needle
}

/// A character with an upper-case ASCII letter turned into lower case.
pub open spec fn ascii_lower(letter: char) -> char {
    if 65 <= letter as u32 <= 90 {
        ((letter as u32) + 32) as char
    } else {
        letter
    }
}

/// Whether two texts are the same but for the case of their ASCII letters.
pub open spec fn same_but_ascii_case(left: Seq<char>, right: Seq<char>) -> bool {
    left.len() == right.len() && forall|i: int|
        0 <= i < left.len() ==> ascii_lower(#[trigger] left[i]) == ascii_lower(right[i])
}

/// Whether `left` comes strictly before `right` in the order of strings: at
/// the first position where they differ `left` has the lower code point, or
/// `left` ends there and `right` goes on.
pub open spec fn text_before(left: Seq<char>, right: Seq<char>) -> bool
    decreases left.len(),
{
    if right.len() == 0 {
        false
    } else if left.len() == 0 {
        true
    } else if left[0] != right[0] {
        (left[0] as u32) < (right[0] as u32)
    } else {
        text_before(left.drop_first(), right.drop_first())
    }
}

/// Whether `left` equals `right` or comes before it.
pub open spec fn text_at_most(left: Seq<char>, right: Seq<char>) -> bool {
    left == right || text_before(left, right)
}

/// The texts of a list of strings.
pub open spec fn texts_of(strings: Seq<String>) -> Seq<Seq<char>> {
    strings.map_values(|text: String| text@)
}

/// No text comes before itself, and of two texts at most one comes before
/// the other.
pub proof fn text_order_is_strict(left: Seq<char>, right: Seq<char>)
    ensures
        !text_before(left, left),
        !(text_before(left, right) && text_before(right, left)),
    decreases left.len(),
{
    if left.len() > 0 {
        text_order_is_strict(left.drop_first(), left.drop_first());
        if right.len() > 0 && left[0] == right[0] {
            text_order_is_strict(left.drop_first(), right.drop_first());
        }
    }
}

/// Compares two string slices through `str`'s `==`, which holds exactly when
/// both hold the same characters in the same order.
#[verifier::external_body]
pub(crate) fn same_text(left: &str, right: &str) -> (same: bool)
    ensures
        same == (left@ == right@),
{
    left == right
}

/// Converts a text to upper case through `str::to_uppercase`, which follows
/// the Unicode character database and depends on the text alone.
#[verifier::external_body]
pub(crate) fn to_upper(text: &str) -> (upper: String)
    ensures
        upper@ == uppercase(text@),
{
    text.to_uppercase()
}

/// Tests through `str::starts_with` whether a text begins with the
/// characters of `prefix`.
#[verifier::external_body]
pub(crate) fn has_prefix(text: &str, prefix: &str) -> (begins: bool)
    ensures
        begins == prefix@.is_prefix_of(text@),
{
    text.starts_with(prefix)
}

/// Tests through `str::contains` whether `needle` occurs in a text.
#[verifier::external_body]
pub(crate) fn contains_text(text: &str, needle: &str) -> (found: bool)
    ensures
        found == occurs_in(needle@, text@),
{
    text.contains(needle)
}

/// Sorts strings in place through the slice's `sort`, which puts them in
/// ascending order and keeps every element. Strings are ordered by their
/// bytes, which is the order of their code points.
#[verifier::external_body]
pub(crate) fn sort_texts(texts: &mut Vec<String>)
    ensures
        texts_of(final(texts)@).to_multiset() == texts_of(old(texts)@).to_multiset(),
        forall|i: int, j: int|
            0 <= i < j < final(texts)@.len() ==> text_at_most(
                #[trigger] final(texts)@[i]@,
                #[trigger] final(texts)@[j]@,
            ),
{
    texts.sort();
}

/// Replaces every occurrence of `from` in a text by `to` through
/// `str::replace`; the result depends on the three texts alone.
#[verifier::external_body]
pub(crate) fn replace_all(text: &str, from: &str, to: &str) -> (result: String)
    ensures
        result@ == replaced(text@, from@, to@),
{
    text.replace(from, to)
}

/// Compares two texts through `str::eq_ignore_ascii_case`, which matches
/// them as if every ASCII letter were in lower case.
#[verifier::external_body]
pub(crate) fn same_text_but_case(left: &str, right: &str) -> (same: bool)
    ensures
        same == same_but_ascii_case(left@, right@),
{
    left.eq_ignore_ascii_case(right)
}

} // verus!
