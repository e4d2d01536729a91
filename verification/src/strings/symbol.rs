//! The symbols that stand for what cannot be shown as it is.

use vstd::prelude::*;

verus! {

pub const WHITESPACE: &'static str = "\u{00B7}";

pub const CHECKMARK: &'static str = "\u{2713}";

pub const SPACE: &'static str = "\u{02FD}";

pub const EMPTY_SPACE: &'static str = " ";

pub const FOLDER_ICON_COLLAPSED: &'static str = "\u{25b8}";

pub const FOLDER_ICON_EXPANDED: &'static str = "\u{25be}";

pub const EMPTY_STR: &'static str = "";

pub const ELLIPSIS: char = '\u{2026}';

} // verus!
