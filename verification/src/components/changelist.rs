//! The list of changelists and the selection in it.

use crate::components::command::CommandInfo;
use crate::components::{CommandBlocking, Component, EventState, ScrollType};
use crate::error::Error;
use crate::input::{Event, KeyEvent};
use crate::keys::key_list::key_match;
use crate::keys::SharedKeyConfig;
use crate::sync::change::ChangelistStatus;
use vstd::prelude::*;

verus! {

/// The message of the error for a list too long to select in.
pub const OUT_OF_RANGE: &'static str = "out of range integral type conversion attempted";

/// A list of changelists in one state, with one of them selected.
pub struct ChangelistComponent {
    focused: bool,
    status: ChangelistStatus,
    changelists: Vec<u32>,
    selection: u16,
    current_height: u16,
    key_config: SharedKeyConfig,
}

/// What the list shows.
pub struct ChangelistView {
    pub focused: bool,
    pub changelists: Seq<u32>,
    pub selection: u16,
    pub current_height: u16,
}

/// `a + b`, or the largest 16-bit number if the sum is larger.
pub open spec fn saturating_sum(a: u16, b: u16) -> u16 {
    if a + b > u16::MAX {
        u16::MAX
    } else {
        (a + b) as u16
    }
}

impl ChangelistView {
    /// Where a scroll step aims before the list's length is looked at.
    pub open spec fn aim(self, scroll: ScrollType) -> int {
        match scroll {
            ScrollType::Up => saturating_sum(self.selection, 1) as int,
            ScrollType::Down => if self.selection == 0 {
                0
            } else {
                self.selection - 1
            },
            ScrollType::PageDown => saturating_sum(self.selection, self.current_height) as int,
            ScrollType::PageUp => saturating_sum(self.selection, self.current_height) as int,
            ScrollType::Home => 0,
            ScrollType::End => self.changelists.len() as int,
        }
    }

    /// The index of the last entry, or zero for an empty list.
    pub open spec fn last_index(self) -> int {
        if self.changelists.len() == 0 {
            0
        } else {
            self.changelists.len() - 1
        }
    }

    /// `selection` brought into the list: the last entry if it lies behind
    /// it.
    pub open spec fn clamped(self, selection: int) -> int {
        if selection > self.last_index() {
            self.last_index()
        } else {
            selection
        }
    }

    /// Whether the list is short enough for a 16-bit selection.
    pub open spec fn selectable(self) -> bool {
        self.changelists.len() <= u16::MAX
    }

    /// The changelist under the selection, if the selection is in the list.
    pub open spec fn selected(self) -> Option<u32> {
        if self.selection < self.changelists.len() {
            Some(self.changelists[self.selection as int])
        } else {
            None
        }
    }

    /// What a key does to the selection: the step it asks for, if any.
    pub open spec fn step_for(key: KeyEvent, key_config: SharedKeyConfig) -> Option<ScrollType> {
        if key.code == key_config.keys.move_down.code && key.modifiers
            == key_config.keys.move_down.modifiers {
            Some(ScrollType::Down)
        } else if key.code == key_config.keys.move_up.code && key.modifiers
            == key_config.keys.move_up.modifiers {
            Some(ScrollType::Up)
        } else {
            None
        }
    }
}

/// Whether `moved` is what selecting `selection` in `before` gives: an error
/// and no change if the list is too long, else the selection brought into
/// the list.
pub open spec fn is_selection_of(
    before: ChangelistView,
    selection: int,
    after: ChangelistView,
    failed: Option<Error>,
) -> bool {
    if before.selectable() {
        failed is None && after == (ChangelistView {
            selection: before.clamped(selection) as u16,
            ..before
        })
    } else {
        &&& after == before
        &&& failed matches Some(Error::Generic(message))
        &&& message@ == OUT_OF_RANGE@
    }
}

impl View for ChangelistComponent {
    type V = ChangelistView;

    closed spec fn view(&self) -> ChangelistView {
        ChangelistView {
            focused: self.focused,
            changelists: self.changelists@,
            selection: self.selection,
            current_height: self.current_height,
        }
    }
}

impl ChangelistComponent {
    /// The state of the changelists that the list is for.
    pub closed spec fn status(&self) -> ChangelistStatus {
        self.status
    }

    /// The key bindings the list was made with.
    pub closed spec fn bindings(&self) -> SharedKeyConfig {
        self.key_config
    }

    /// An empty list without focus.
    pub fn new(status: ChangelistStatus, key_config: SharedKeyConfig) -> (list: Self)
        ensures
            list@ == (ChangelistView {
                focused: false,
                changelists: Seq::<u32>::empty(),
                selection: 0,
                current_height: 0,
            }),
            list.status() == status,
            list.bindings() == key_config,
    {
        ChangelistComponent {
            status,
            focused: false,
            key_config,
            changelists: Vec::new(),
            selection: 0,
            current_height: 0,
        }
    }

    /// Brings the list up to date; there is nothing yet to bring.
    pub fn update(&mut self) -> (done: Result<(), Error>)
        ensures
            done is Ok,
            *final(self) == *old(self),
    {
        Ok(())
    }

    /// Shows `changelists` in place of what the list held; the selection
    /// stays where it is.
    pub fn set_changelists(&mut self, changelists: Vec<u32>)
        ensures
            final(self)@ == (ChangelistView { changelists: changelists@, ..old(self)@ }),
            final(self).status() == old(self).status(),
            final(self).bindings() == old(self).bindings(),
    {
        self.changelists = changelists;
    }

    /// Tells the list how many rows it has on the screen, which is how far
    /// a page step goes.
    pub fn set_height(&mut self, height: u16)
        ensures
            final(self)@ == (ChangelistView { current_height: height, ..old(self)@ }),
            final(self).status() == old(self).status(),
            final(self).bindings() == old(self).bindings(),
    {
        self.current_height = height;
    }

    pub fn get_changelists(&self) -> (changelists: &Vec<u32>)
        ensures
            changelists@ == self@.changelists,
    {
        &self.changelists
    }

    /// The changelist under the selection.
    pub fn get_selected(&self) -> (selected: Option<u32>)
        ensures
            selected == self@.selected(),
    {
        let at: usize = self.selection as usize;
        if at < self.changelists.len() {
            Some(self.changelists[at])
        } else {
            None
        }
    }

    /// The index of the selection.
    pub fn selection(&self) -> (selection: u16)
        ensures
            selection == self@.selection,
    {
        self.selection
    }

    /// Moves the selection if `e` is one of the two keys that move it, and
    /// tells whether it was.
    pub fn move_event(&mut self, e: &KeyEvent) -> (taken: Result<EventState, Error>)
        ensures
            final(self).status() == old(self).status(),
            final(self).bindings() == old(self).bindings(),
            match ChangelistView::step_for(*e, old(self).bindings()) {
                Some(scroll) => is_selection_of(
                    old(self)@,
                    old(self)@.aim(scroll),
                    final(self)@,
                    taken.err(),
                ) && (taken matches Ok(state) ==> state is Consumed),
                None => final(self)@ == old(self)@ && taken matches Ok(EventState::NotConsumed),
            },
    {
        if key_match(e, self.key_config.keys.move_down) {
            match self.move_selection(ScrollType::Down) {
                Ok(moved) => Ok(EventState::from(moved)),
                Err(error) => Err(error),
            }
        } else if key_match(e, self.key_config.keys.move_up) {
            match self.move_selection(ScrollType::Up) {
                Ok(moved) => Ok(EventState::from(moved)),
                Err(error) => Err(error),
            }
        } else {
            Ok(EventState::NotConsumed)
        }
    }

    /// Moves the selection by one scroll step and keeps it in the list.
    /// Fails, and changes nothing, if the list has more entries than a
    /// 16-bit selection can reach.
    pub fn move_selection(&mut self, scroll: ScrollType) -> (moved: Result<bool, Error>)
        ensures
            is_selection_of(old(self)@, old(self)@.aim(scroll), final(self)@, moved.err()),
            moved matches Ok(done) ==> done,
            final(self).status() == old(self).status(),
            final(self).bindings() == old(self).bindings(),
    {
        let new_selection: u16 = match scroll {
            ScrollType::Up => self.selection.saturating_add(1),
            ScrollType::Down => self.selection.saturating_sub(1),
            ScrollType::PageDown => self.selection.saturating_add(self.current_height),
            ScrollType::PageUp => self.selection.saturating_add(self.current_height),
            ScrollType::Home => 0,
            ScrollType::End => {
                if self.changelists.len() > 65535 {
                    return Err(Error::generic(OUT_OF_RANGE));
                }
                self.changelists.len() as u16
            },
        };
        match self.set_selection(new_selection) {
            Ok(()) => Ok(true),
            Err(error) => Err(error),
        }
    }

    /// Selects entry `selection`, or the last entry if the list is shorter.
    /// Fails, and changes nothing, if the list has more entries than a
    /// 16-bit selection can reach.
    pub fn set_selection(&mut self, selection: u16) -> (done: Result<(), Error>)
        ensures
            is_selection_of(old(self)@, selection as int, final(self)@, done.err()),
            final(self).status() == old(self).status(),
            final(self).bindings() == old(self).bindings(),
    {
        if self.changelists.len() > 65535 {
            return Err(Error::generic(OUT_OF_RANGE));
        }
        let num_changelists: u16 = self.changelists.len() as u16;
        let num_changelists = num_changelists.saturating_sub(1);
        let selection = if selection > num_changelists {
            num_changelists
        } else {
            selection
        };
        self.selection = selection;
        Ok(())
    }
}

impl Component for ChangelistComponent {
    open spec fn visible(&self) -> bool {
        true
    }

    closed spec fn has_focus(&self) -> bool {
        self.focused
    }

    open spec fn reaction(&self, ev: Event) -> Option<EventState> {
        match ev {
            Event::Key(key) => match ChangelistView::step_for(key, self.bindings()) {
                Some(_) => if self@.selectable() {
                    Some(EventState::Consumed)
                } else {
                    None
                },
                None => Some(EventState::NotConsumed),
            },
            _ => Some(EventState::NotConsumed),
        }
    }

    fn commands(&self, out: &mut Vec<CommandInfo>, force_all: bool) -> (blocking: CommandBlocking)
        ensures
            blocking is PassingOn,
            *final(out) == *old(out),
    {
        CommandBlocking::PassingOn
    }

    /// A key that moves the selection is taken; everything else is left to
    /// the other components.
    fn event(&mut self, ev: &Event) -> (taken: Result<EventState, Error>)
        ensures
            final(self).status() == old(self).status(),
            final(self).bindings() == old(self).bindings(),
            match *ev {
                Event::Key(key) => match ChangelistView::step_for(key, old(self).bindings()) {
                    Some(scroll) => is_selection_of(
                        old(self)@,
                        old(self)@.aim(scroll),
                        final(self)@,
                        taken.err(),
                    ) && (taken matches Ok(state) ==> state is Consumed),
                    None => final(self)@ == old(self)@ && taken matches Ok(
                        EventState::NotConsumed,
                    ),
                },
                _ => final(self)@ == old(self)@ && taken matches Ok(EventState::NotConsumed),
            },
    {
        if let Event::Key(e) = ev {
            let state = self.move_event(e)?;
            if state.is_consumed() {
                return Ok(EventState::Consumed);
            }
        }
        Ok(EventState::NotConsumed)
    }

    fn focused(&self) -> (focused: bool) {
        self.focused
    }

    fn focus(&mut self, focus: bool)
        ensures
            final(self)@ == (ChangelistView { focused: focus, ..old(self)@ }),
            final(self).has_focus() == focus,
    {
        self.focused = focus;
    }

    fn is_visible(&self) -> (visible: bool) {
        assert(self.visible());
        true
    }

    fn conceal(&mut self)
        ensures
            *final(self) == *old(self),
    {
    }

    fn show(&mut self) -> (shown: Result<(), Error>)
        ensures
            shown is Ok,
            *final(self) == *old(self),
    {
        Ok(())
    }
}

/// A selection that was moved or set lies in the list, if the list has any
/// entry, and at zero if it has none.
pub proof fn lemma_selection_stays_in_list(
    before: ChangelistView,
    selection: int,
    after: ChangelistView,
)
    requires
        0 <= selection,
        is_selection_of(before, selection, after, None),
    ensures
        after.changelists == before.changelists,
        after.changelists.len() > 0 ==> after.selection < after.changelists.len(),
        after.changelists.len() > 0 ==> after.selected() is Some,
        after.changelists.len() == 0 ==> after.selection == 0,
        selection < before.changelists.len() ==> after.selection == selection,
{
}

} // verus!
