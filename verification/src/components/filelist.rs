//! A list of files under a title.

use crate::components::command::CommandInfo;
use crate::components::{CommandBlocking, Component, EventState};
use crate::error::Error;
use crate::input::Event;
use crate::keys::SharedKeyConfig;
use std::path::PathBuf;
use vstd::prelude::*;

verus! {

/// The files of a changelist, under a title.
pub struct FileListComponent {
    focused: bool,
    title: String,
    changelist: Option<u32>,
    files: Vec<PathBuf>,
    key_config: SharedKeyConfig,
}

impl FileListComponent {
    /// The title above the list.
    pub closed spec fn title(&self) -> Seq<char> {
        self.title@
    }

    /// The changelist whose files are listed, if one is.
    pub closed spec fn changelist(&self) -> Option<u32> {
        self.changelist
    }

    /// How many files are listed.
    pub closed spec fn count(&self) -> nat {
        self.files@.len()
    }

    /// The key bindings the list was made with.
    pub closed spec fn bindings(&self) -> SharedKeyConfig {
        self.key_config
    }

    /// An empty list for no changelist, without focus.
    pub fn new(title: String, key_config: SharedKeyConfig) -> (list: Self)
        ensures
            list.title() == title@,
            list.changelist() is None,
            list.count() == 0,
            !list.has_focus(),
            list.bindings() == key_config,
    {
        FileListComponent {
            focused: false,
            title,
            changelist: Option::None,
            files: Vec::new(),
            key_config,
        }
    }

    /// The title above the list.
    pub fn get_title(&self) -> (title: &str)
        ensures
            title@ == self.title(),
    {
        self.title.as_str()
    }
}

impl Component for FileListComponent {
    open spec fn visible(&self) -> bool {
        true
    }

    closed spec fn has_focus(&self) -> bool {
        self.focused
    }

    open spec fn reaction(&self, ev: Event) -> Option<EventState> {
        Some(EventState::NotConsumed)
    }

    fn commands(&self, out: &mut Vec<CommandInfo>, force_all: bool) -> (blocking: CommandBlocking)
        ensures
            blocking is PassingOn,
            *final(out) == *old(out),
    {
        CommandBlocking::PassingOn
    }

    fn event(&mut self, ev: &Event) -> (taken: Result<EventState, Error>)
        ensures
            taken matches Ok(EventState::NotConsumed),
            *final(self) == *old(self),
    {
        Ok(EventState::NotConsumed)
    }

    fn focused(&self) -> (focused: bool) {
        self.focused
    }

    fn focus(&mut self, focus: bool)
        ensures
            final(self).has_focus() == focus,
            final(self).title() == old(self).title(),
            final(self).changelist() == old(self).changelist(),
            final(self).count() == old(self).count(),
    {
        self.focused = focus
    }

    fn is_visible(&self) -> (visible: bool) {
        assert(self.visible());
        true
    }

    fn conceal(&mut self)
        ensures
            *final(self) == *old(self),
    {
    }

    fn show(&mut self) -> (shown: Result<(), Error>)
        ensures
            shown is Ok,
            *final(self) == *old(self),
    {
        Ok(())
    }
}

} // verus!
