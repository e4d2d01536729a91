//! The texts of the commands.

use crate::components::command::CommandText;
use vstd::prelude::*;

verus! {

/// The group of the commands that every screen has.
pub const CMD_GROUP_GENERAL: &'static str = "-- General --";

/// The command that scrolls the focused view; the hints name the keys for
/// up and for down.
pub fn scroll(up_hint: &str, down_hint: &str) -> (text: CommandText)
    ensures
        text.name@ == "Scroll ["@ + up_hint@ + down_hint@ + "]"@,
        text.desc@ == "scroll up or down in focused view"@,
        text.group@ == CMD_GROUP_GENERAL@,
        !text.hide_help,
{
    let mut name = String::from_str("Scroll [");
    name.append(up_hint);
    name.append(down_hint);
    name.append("]");
    CommandText::new(name, "scroll up or down in focused view", CMD_GROUP_GENERAL)
}

/// The command that closes what lies over the screen; the hint names its
/// key.
pub fn close_popup(hint: &str) -> (text: CommandText)
    ensures
        text.name@ == "Close ["@ + hint@ + "]"@,
        text.desc@ == "close overlay (e.g commit, help)"@,
        text.group@ == CMD_GROUP_GENERAL@,
        !text.hide_help,
{
    let mut name = String::from_str("Close [");
    name.append(hint);
    name.append("]");
    CommandText::new(name, "close overlay (e.g commit, help)", CMD_GROUP_GENERAL)
}

/// The command that opens the help screen; the hint names its key.
pub fn help_open(hint: &str) -> (text: CommandText)
    ensures
        text.name@ == "Help ["@ + hint@ + "]"@,
        text.desc@ == "open this help screen"@,
        text.group@ == CMD_GROUP_GENERAL@,
        !text.hide_help,
{
    let mut name = String::from_str("Help [");
    name.append(hint);
    name.append("]");
    CommandText::new(name, "open this help screen", CMD_GROUP_GENERAL)
}

} // verus!
