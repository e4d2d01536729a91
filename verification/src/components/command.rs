//! What a command is called, and whether and where the command bar shows
//! it.

use vstd::prelude::*;

verus! {

/// The texts of a command.
#[derive(Clone, PartialEq, Eq, PartialOrd, Ord)]
pub struct CommandText {
    pub name: String,
    pub desc: &'static str,
    pub group: &'static str,
    pub hide_help: bool,
}

impl CommandText {
    /// The texts of a command that the help screen shows.
    pub fn new(name: String, desc: &'static str, group: &'static str) -> (text: Self)
        ensures
            text.name == name,
            text.desc == desc,
            text.group == group,
            !text.hide_help,
    {
        CommandText { name, desc, group, hide_help: false }
    }

    /// The same texts, kept off the help screen.
    pub fn hide_help(self) -> (text: Self)
        ensures
            text == (CommandText { hide_help: true, ..self }),
    {
        let mut tmp = self;
        tmp.hide_help = true;
        tmp
    }
}

/// A command as a component offers it.
pub struct CommandInfo {
    pub text: CommandText,
    pub enabled: bool,
    pub quick_bar: bool,
    pub available: bool,
    pub order: i8,
}

impl CommandInfo {
    /// A command that the command bar may show, at order zero.
    pub fn new(text: CommandText, enabled: bool, available: bool) -> (info: Self)
        ensures
            info == (CommandInfo { text, enabled, quick_bar: true, available, order: 0 }),
    {
        CommandInfo { text, enabled, quick_bar: true, available, order: 0 }
    }

    /// The same command at place `order` among the others.
    pub fn order(self, order: i8) -> (info: Self)
        ensures
            info == (CommandInfo { order, ..self }),
    {
        let mut res = self;
        res.order = order;
        res
    }

    /// The same command, kept off the command bar.
    pub fn hidden(self) -> (info: Self)
        ensures
            info == (CommandInfo { quick_bar: false, ..self }),
    {
        let mut res = self;
        res.quick_bar = false;
        res
    }

    /// Whether the command bar shows the command: it was not hidden and is
    /// available.
    pub open spec fn shown(self) -> bool {
        self.quick_bar && self.available
    }

    /// Whether the command bar shows the command.
    pub fn show_in_quickbar(&self) -> (shown: bool)
        ensures
            shown == self.shown(),
    {
        self.quick_bar && self.available
    }
}

} // verus!
