//! Trusted boundary around the Unicode facts the line model needs:
//! grapheme-cluster segmentation, display width, and two character
//! classification tables.

use vstd::prelude::*;
use unicode_segmentation::UnicodeSegmentation;
use unicode_width::UnicodeWidthStr;

verus! {

/// The extended grapheme clusters of a string, in order, as UAX #29
/// segmentation produces them.
pub uninterp spec fn graphemes_of(s: Seq<char>) -> Seq<Seq<char>>;

/// The display width in terminal columns that the Unicode width tables
/// (UAX #11, ambiguous characters counted as one column) assign to a string.
pub uninterp spec fn display_width_of(s: Seq<char>) -> nat;

/// Whether a character has the Unicode White_Space property.
pub uninterp spec fn is_whitespace_char(c: char) -> bool;

/// Whether a character is in the Unicode control-code general category.
pub uninterp spec fn is_control_char(c: char) -> bool;

/// Relies on unicode_segmentation's `UnicodeSegmentation::graphemes` with
/// `is_extended == true`: it cuts the string at extended-grapheme-cluster
/// boundaries, yielding non-empty contiguous pieces whose concatenation is
/// exactly the input string.
#[verifier::external_body]
pub fn split_graphemes(s: &str) -> (r: Vec<String>)
    ensures
        r.deep_view() == graphemes_of(s@),
        r.deep_view().flatten() == s@,
        forall|i: int| 0 <= i < r.deep_view().len() ==> r.deep_view()[i].len() > 0,
{
    s.graphemes(true).map(|g| g.to_string()).collect()
}

/// Relies on unicode_width's `UnicodeWidthStr::width`: the column width of a
/// string is a pure table lookup over its characters.
#[verifier::external_body]
pub fn display_width(s: &str) -> (w: usize)
    ensures
        w as nat == display_width_of(s@),
{
    s.width()
}

/// Relies on std's `char::is_whitespace`: a pure lookup of the White_Space
/// property of the character alone.
#[verifier::external_body]
pub fn char_is_whitespace(c: char) -> (r: bool)
    ensures
        r == is_whitespace_char(c),
{
    c.is_whitespace()
}

/// Relies on std's `char::is_control`: a pure lookup of the control-code
/// general category of the character alone.
#[verifier::external_body]
pub fn char_is_control(c: char) -> (r: bool)
    ensures
        r == is_control_char(c),
{
    c.is_control()
}

/// Relies on std's `String::push`: appends exactly one character at the end.
#[verifier::external_body]
pub fn push_char(s: &mut String, c: char)
    ensures
        final(s)@ == old(s)@.push(c),
{
    s.push(c);
}

} // verus!
