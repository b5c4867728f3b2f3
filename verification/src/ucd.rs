//! What the library takes from the Unicode tables of other crates and from
//! the standard library, each behind a contract that is believed, not proved.

use vstd::prelude::*;

verus! {

/// The character with the scalar value `codepoint`: every value up to the
/// last code point of Unicode but the surrogates has one.
pub open spec fn scalar_value(codepoint: u32) -> Option<char> {
    if codepoint <= 0xD7FF || (0xE000 <= codepoint && codepoint <= 0x10FFFF) {
        Some(codepoint as char)
    } else {
        None
    }
}

/// `char::from_u32` gives the character with the given scalar value, and
/// `None` for a surrogate or a value past the last code point.
pub assume_specification[ char::from_u32 ](i: u32) -> (c: Option<char>)
    ensures
        c == scalar_value(i),
;

/// The place of a character's general category in the order in which
/// `unic_ucd_category::GeneralCategory` lists its categories, from 0.
pub uninterp spec fn category_code_of(c: char) -> u8;

/// Calls `unic_ucd_category::GeneralCategory::of` and hands out the category
/// as its place among the categories of that enum.
#[verifier::external_body]
pub(crate) fn category_code(c: char) -> (code: u8)
    ensures
        code == category_code_of(c),
{
    unic_ucd_category::GeneralCategory::of(c) as u8
}

/// The name that the Unicode standard gives a character, or `None` where it
/// gives none.
pub uninterp spec fn name_of(c: char) -> Option<Seq<char>>;

/// Calls `unicode_names2::name` and writes the name out as a string.
#[verifier::external_body]
pub(crate) fn character_name(c: char) -> (name: Option<String>)
    ensures
        name.deep_view() == name_of(c),
{
    unicode_names2::name(c).map(|n| n.to_string())
}

/// A text with each character replaced by its lowercase form.
pub uninterp spec fn lowercase_of(text: Seq<char>) -> Seq<char>;

/// Calls `str::to_lowercase`.
#[verifier::external_body]
pub(crate) fn to_lowercase(text: &str) -> (lower: String)
    ensures
        lower@ == lowercase_of(text@),
{
    text.to_lowercase()
}

/// `needle` occurs in `text` as a run of neighbouring characters. The empty
/// text occurs in every text.
pub open spec fn is_substring(needle: Seq<char>, text: Seq<char>) -> bool {
    exists|i: int|
        0 <= i <= text.len() - needle.len() && #[trigger] text.subrange(i, i + needle.len())
            == needle
}

/// Calls `str::contains` with a string as the pattern: whether the pattern
/// occurs somewhere in the text.
#[verifier::external_body]
pub(crate) fn str_contains(text: &str, needle: &str) -> (found: bool)
    ensures
        found == is_substring(needle@, text@),
{
    text.contains(needle)
}

/// The name of the block of code points in which a character lies, or `None`
/// where it lies in no block.
pub uninterp spec fn block_name_of(c: char) -> Option<Seq<char>>;

/// Calls `unic_ucd_block::Block::of` and hands out the block's name.
#[verifier::external_body]
pub(crate) fn block_name(c: char) -> (name: Option<&'static str>)
    ensures
        name.deep_view() == block_name_of(c),
{
    unic_ucd_block::Block::of(c).map(|block| block.name)
}

/// Calls `String::push`, which appends one character to the text.
#[verifier::external_body]
pub(crate) fn push_char(text: &mut String, c: char)
    ensures
        final(text)@ == old(text)@.push(c),
{
    text.push(c)
}

} // verus!
