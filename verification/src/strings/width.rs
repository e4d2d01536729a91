//! How many columns a text takes on the screen, and how to cut it to a
//! number of columns.

use unicode_truncate::UnicodeTruncateStr;
use unicode_width::UnicodeWidthStr;
use vstd::prelude::*;

verus! {

/// The number of columns that `UnicodeWidthStr::width` gives for `text`. It
/// goes by the tables of the Unicode standard, and by the characters next
/// to each other, not by the number of characters.
pub uninterp spec fn display_width(text: Seq<char>) -> usize;

/// What `UnicodeTruncateStr::unicode_truncate_start` keeps of `text` for
/// `width` columns: the longest end of `text` whose characters take no more
/// than `width` columns together.
pub uninterp spec fn truncated_start(text: Seq<char>, width: usize) -> Seq<char>;

/// `UnicodeWidthStr::width`: the columns that `text` takes on the screen.
#[verifier::external_body]
pub(crate) fn width(text: &str) -> (columns: usize)
    ensures
        columns == display_width(text@),
{
    UnicodeWidthStr::width(text)
}

/// `UnicodeTruncateStr::unicode_truncate_start`: the end of `text` that is
/// kept for `width` columns. The width of what is kept, which the call
/// returns too, is dropped.
#[verifier::external_body]
pub(crate) fn truncate_start<'a>(text: &'a str, width: usize) -> (kept: &'a str)
    ensures
        kept@ == truncated_start(text@, width),
{
    text.unicode_truncate_start(width).0
}

} // verus!
