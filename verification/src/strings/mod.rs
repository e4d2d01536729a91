//! The texts that the screen shows.

pub mod commands;
pub mod symbol;
pub mod width;

use crate::keys::SharedKeyConfig;
use crate::strings::width::{display_width, truncate_start, truncated_start, width};
use std::borrow::Cow;
use vstd::prelude::*;

verus! {

/// The label of the tab of pending changelists; the hint names the key
/// that opens it.
pub fn tab_pending(hint: &str) -> (label: String)
    ensures
        label@ == "Pending ["@ + hint@ + "]"@,
{
    let mut label = String::from_str("Pending [");
    label.append(hint);
    label.append("]");
    label
}

/// The label of the tab of submitted changelists; the hint names the key
/// that opens it.
pub fn tab_submitted(hint: &str) -> (label: String)
    ensures
        label@ == "Submitted ["@ + hint@ + "]"@,
{
    let mut label = String::from_str("Submitted [");
    label.append(hint);
    label.append("]");
    label
}

/// What stands between two tab labels.
pub fn tab_divider() -> (divider: String)
    ensures
        divider@ == " | "@,
{
    String::from_str(" | ")
}

/// The title of the help screen.
pub fn help_title(_kc: &SharedKeyConfig) -> (title: String)
    ensures
        title@ == "Help: all commands"@,
{
    String::from_str("Help: all commands")
}

/// What stands between two commands in the command bar.
pub fn cmd_splitter() -> (splitter: String)
    ensures
        splitter@ == " "@,
{
    String::from_str(" ")
}

/// `width` less the three columns that the mark of a cut takes, or zero if
/// there are not that many.
pub open spec fn columns_after_mark(width: usize) -> usize {
    if width < 3 {
        0
    } else {
        (width - 3) as usize
    }
}

/// `s` as it is shown in `width` columns: `s` itself if it fits, else the
/// mark of a cut followed by the end of `s` that fits in what is left.
pub open spec fn trimmed_start(s: Seq<char>, width: usize) -> Seq<char> {
    if display_width(s) <= width {
        s
    } else {
        "[\u{2026}]"@ + truncated_start(s, columns_after_mark(width))
    }
}

/// The mark of a cut, followed by `kept`.
pub fn ellipsis_prefixed(kept: &str) -> (marked: String)
    ensures
        marked@ == "[\u{2026}]"@ + kept@,
{
    let mut marked = String::from_str("[\u{2026}]");
    marked.append(kept);
    marked
}

/// Fits `s` into `width` columns by cutting at its start.
pub fn ellipsis_trim_start<'a>(s: &'a str, width: usize) -> (shown: Cow<'a, str>)
    ensures
        shown@ == trimmed_start(s@, width),
        shown is Borrowed == (display_width(s@) <= width),
{
    if self::width::width(s) <= width {
        Cow::Borrowed(s)
    } else {
        Cow::Owned(ellipsis_prefixed(truncate_start(s, width.saturating_sub(3))))
    }
}

} // verus!
