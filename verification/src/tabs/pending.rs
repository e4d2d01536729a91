//! The tab of the pending changelists.

use crate::components::command::CommandInfo;
use crate::components::diff::DiffComponent;
use crate::components::{CommandBlocking, Component, EventState};
use crate::error::Error;
use crate::input::Event;
use crate::keys::{share, SharedKeyConfig};
use vstd::prelude::*;

verus! {

/// The tab of the pending changelists, with the differences of the file
/// that is looked at.
pub struct PendingTab {
    visible: bool,
    diff: DiffComponent,
    key_config: SharedKeyConfig,
}

impl PendingTab {
    /// The view of differences inside the tab.
    pub closed spec fn diff(&self) -> DiffComponent {
        self.diff
    }

    /// The key bindings the tab was made with.
    pub closed spec fn bindings(&self) -> SharedKeyConfig {
        self.key_config
    }

    /// A tab that is on the screen, its differences scrolled to the top.
    pub fn new(key_config: SharedKeyConfig) -> (tab: Self)
        ensures
            tab.visible(),
            tab.diff().scroll_top() == 0,
            !tab.diff().in_focus(),
            tab.diff().bindings() == key_config,
            tab.bindings() == key_config,
    {
        let tab = PendingTab { visible: true, diff: DiffComponent::new(share(&key_config)), key_config };
        assert(tab.visible());
        tab
    }

    /// The view of differences inside the tab.
    pub fn diff_view(&self) -> (diff: &DiffComponent)
        ensures
            *diff == self.diff(),
    {
        &self.diff
    }

    /// Brings the tab up to date; there is nothing yet to bring.
    pub fn update(&mut self) -> (done: Result<(), Error>)
        ensures
            done is Ok,
            *final(self) == *old(self),
    {
        Ok(())
    }
}

impl Component for PendingTab {
    closed spec fn visible(&self) -> bool {
        self.visible
    }

    open spec fn has_focus(&self) -> bool {
        false
    }

    /// The tab offers no commands of its own; while it is on the screen it
    /// keeps those of the components below it from showing.
    open spec fn reaction(&self, ev: Event) -> Option<EventState> {
        Some(EventState::NotConsumed)
    }

    fn commands(&self, out: &mut Vec<CommandInfo>, force_all: bool) -> (blocking: CommandBlocking)
        ensures
            blocking == if self.visible() {
                CommandBlocking::Blocking
            } else {
                CommandBlocking::PassingOn
            },
            *final(out) == *old(out),
    {
        if self.visible {
            CommandBlocking::Blocking
        } else {
            CommandBlocking::PassingOn
        }
    }

    fn event(&mut self, ev: &Event) -> (taken: Result<EventState, Error>)
        ensures
            taken matches Ok(EventState::NotConsumed),
            *final(self) == *old(self),
    {
        Ok(EventState::NotConsumed)
    }

    fn focused(&self) -> (focused: bool) {
        assert(!self.has_focus());
        false
    }

    fn focus(&mut self, focus: bool)
        ensures
            *final(self) == *old(self),
    {
    }

    fn is_visible(&self) -> (visible: bool) {
        assert(self.visible() == self.visible);
        self.visible
    }

    /// Takes the tab off the screen.
    fn conceal(&mut self)
        ensures
            !final(self).visible(),
            final(self).diff() == old(self).diff(),
            final(self).bindings() == old(self).bindings(),
    {
        self.visible = false;
    }

    /// Puts the tab on the screen and brings it up to date.
    fn show(&mut self) -> (shown: Result<(), Error>)
        ensures
            shown is Ok,
            final(self).visible(),
            final(self).diff() == old(self).diff(),
            final(self).bindings() == old(self).bindings(),
    {
        self.visible = true;
        self.update()?;
        Ok(())
    }
}

} // verus!
