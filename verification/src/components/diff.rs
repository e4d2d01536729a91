//! The view of a file's differences.

use crate::components::command::CommandInfo;
use crate::components::{CommandBlocking, Component, EventState};
use crate::error::Error;
use crate::input::Event;
use crate::keys::SharedKeyConfig;
use vstd::prelude::*;

verus! {

/// The view of a file's differences.
pub struct DiffComponent {
    focused: bool,
    vertical_scroll: usize,
    key_config: SharedKeyConfig,
}

impl DiffComponent {
    /// The line at the top of the view.
    pub closed spec fn scroll_top(&self) -> nat {
        self.vertical_scroll as nat
    }

    /// Whether the view has the focus.
    pub closed spec fn in_focus(&self) -> bool {
        self.focused
    }

    /// The key bindings the view was made with.
    pub closed spec fn bindings(&self) -> SharedKeyConfig {
        self.key_config
    }

    /// A view without focus, scrolled to the top.
    pub fn new(key_config: SharedKeyConfig) -> (diff: Self)
        ensures
            !diff.in_focus(),
            diff.scroll_top() == 0,
            diff.bindings() == key_config,
    {
        DiffComponent { focused: false, vertical_scroll: 0, key_config }
    }

    /// Whether there is anything to scroll.
    pub fn can_scroll(&self) -> (can: bool)
        ensures
            !can,
    {
        false
    }

    /// Scrolls back to the top.
    pub fn clear(&mut self, pending: bool)
        ensures
            final(self).scroll_top() == 0,
            final(self).in_focus() == old(self).in_focus(),
            final(self).bindings() == old(self).bindings(),
    {
        self.vertical_scroll = 0;
    }

    /// Brings the view up to date; there is nothing yet to bring.
    pub fn update(&mut self)
        ensures
            *final(self) == *old(self),
    {
    }
}

impl Component for DiffComponent {
    open spec fn visible(&self) -> bool {
        true
    }

    closed spec fn has_focus(&self) -> bool {
        self.focused
    }

    open spec fn reaction(&self, ev: Event) -> Option<EventState> {
        Some(EventState::NotConsumed)
    }

    fn commands(&self, out: &mut Vec<CommandInfo>, force_all: bool) -> (blocking: CommandBlocking)
        ensures
            blocking is PassingOn,
            *final(out) == *old(out),
    {
        CommandBlocking::PassingOn
    }

    fn event(&mut self, ev: &Event) -> (taken: Result<EventState, Error>)
        ensures
            taken matches Ok(EventState::NotConsumed),
            *final(self) == *old(self),
    {
        Ok(EventState::NotConsumed)
    }

    fn focused(&self) -> (focused: bool) {
        self.focused
    }

    fn focus(&mut self, focus: bool)
        ensures
            final(self).has_focus() == focus,
            final(self).scroll_top() == old(self).scroll_top(),
    {
        self.focused = focus;
    }

    fn is_visible(&self) -> (visible: bool) {
        assert(self.visible());
        true
    }

    fn conceal(&mut self)
        ensures
            *final(self) == *old(self),
    {
    }

    fn show(&mut self) -> (shown: Result<(), Error>)
        ensures
            shown is Ok,
            *final(self) == *old(self),
    {
        Ok(())
    }
}

} // verus!
