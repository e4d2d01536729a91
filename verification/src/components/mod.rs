//! The parts of the screen: what each keeps, and how they share the events.

pub mod changelist;
pub mod command;
pub mod diff;
pub mod filelist;

use crate::components::command::CommandInfo;
use crate::error::Error;
use crate::input::Event;
use vstd::prelude::*;
use vstd::std_specs::convert::FromSpecImpl;

verus! {

/// A step of a vertical scroll.
#[derive(Copy, Clone)]
pub enum ScrollType {
    Up,
    Down,
    Home,
    End,
    PageUp,
    PageDown,
}

/// A step of a horizontal scroll.
#[derive(Copy, Clone)]
pub enum HorizontalScrollType {
    Left,
    Right,
}

/// Whether a component keeps the commands of those below it from showing.
#[derive(PartialEq, Eq, Structural)]
pub enum CommandBlocking {
    Blocking,
    PassingOn,
}

/// Whether a component took an event for itself.
#[derive(PartialEq, Eq, Structural)]
pub enum EventState {
    Consumed,
    NotConsumed,
}

impl EventState {
    pub fn is_consumed(&self) -> (consumed: bool)
        ensures
            consumed == (*self is Consumed),
    {
        *self == Self::Consumed
    }
}

impl From<bool> for EventState {
    fn from(value: bool) -> (state: Self) {
        if value {
            Self::Consumed
        } else {
            Self::NotConsumed
        }
    }
}

impl FromSpecImpl<bool> for EventState {
    open spec fn obeys_from_spec() -> bool {
        true
    }

    open spec fn from_spec(value: bool) -> Self {
        if value {
            Self::Consumed
        } else {
            Self::NotConsumed
        }
    }
}

/// A part of the screen that takes events and offers commands.
pub trait Component {
    /// Whether the component is on the screen.
    spec fn visible(&self) -> bool;

    /// Whether the component has the focus.
    spec fn has_focus(&self) -> bool;

    /// Adds the component's commands to `out` and tells whether the
    /// commands of the components below it are to be left out.
    fn commands(&self, out: &mut Vec<CommandInfo>, force_all: bool) -> CommandBlocking;

    /// What the component answers to an event: whether it takes it, or
    /// `None` if it fails on it.
    spec fn reaction(&self, ev: Event) -> Option<EventState>;

    /// Hands an event to the component, which tells whether it took it.
    fn event(&mut self, ev: &Event) -> (taken: Result<EventState, Error>)
        ensures
            taken.ok() == old(self).reaction(*ev),
    ;

    fn focused(&self) -> (focused: bool)
        ensures
            focused == self.has_focus(),
    ;

    fn focus(&mut self, focus: bool);

    fn is_visible(&self) -> (visible: bool)
        ensures
            visible == self.visible(),
    ;

    /// Takes the component off the screen, if it can leave it.
    fn conceal(&mut self);

    /// Puts the component on the screen; it is there if this succeeds.
    fn show(&mut self) -> (shown: Result<(), Error>)
        ensures
            shown is Ok ==> final(self).visible(),
    ;

    /// Hides the component if it is on the screen, shows it if it is not.
    fn toggle_visible(&mut self) -> (done: Result<(), Error>)
        default_ensures
            !old(self).visible() && done is Ok ==> final(self).visible(),
            old(self).visible() ==> done is Ok,
    {
        if self.is_visible() {
            self.conceal();
            Ok(())
        } else {
            self.show()
        }
    }
}

/// A visible component blocks the commands of those below it; a hidden one
/// passes them on.
pub fn visibility_blocking<T: Component>(comp: &T) -> (blocking: CommandBlocking)
    ensures
        blocking == if comp.visible() {
            CommandBlocking::Blocking
        } else {
            CommandBlocking::PassingOn
        },
{
    if comp.is_visible() {
        CommandBlocking::Blocking
    } else {
        CommandBlocking::PassingOn
    }
}

/// What a round through components gives that answer with `reactions`, one
/// by one: a failure at the first one that fails, `Consumed` at the first
/// one that takes the event, `NotConsumed` if none does. The components
/// behind the one that ends the round are not asked.
pub open spec fn first_taker(reactions: Seq<Option<EventState>>) -> Option<EventState>
    decreases reactions.len(),
{
    if reactions.len() == 0 {
        Some(EventState::NotConsumed)
    } else {
        match reactions[0] {
            Some(EventState::NotConsumed) => first_taker(reactions.skip(1)),
            Some(EventState::Consumed) => Some(EventState::Consumed),
            None => None,
        }
    }
}

/// What each of `components` answers to `ev`.
pub open spec fn reactions_of(components: Seq<&mut dyn Component>, ev: Event) -> Seq<
    Option<EventState>,
> {
    Seq::new(components.len(), |i: int| components[i].reaction(ev))
}

/// Hands `ev` to the components in turn until one takes it. Tells whether
/// one did; the first error ends the round.
pub fn event_pump(ev: &Event, components: &mut [&mut dyn Component]) -> (taken: Result<
    EventState,
    Error,
>)
    ensures
        taken.ok() == first_taker(reactions_of(old(components)@, *ev)),
{
    let mut i: usize = 0;
    let ghost all = reactions_of(old(components)@, *ev);
    proof {
        assert(all.skip(0) =~= all);
    }
    while i < components.len()
        invariant
            0 <= i <= components.len(),
            components@.len() == old(components)@.len(),
            all == reactions_of(old(components)@, *ev),
            first_taker(all) == first_taker(all.skip(i as int)),
            forall|j: int|
                i <= j < components@.len() ==> #[trigger] components@[j].reaction(*ev)
                    == all[j],
        decreases components.len() - i,
    {
        proof {
            assert(all.skip(i as int)[0] == all[i as int]);
            assert(all.skip(i as int).skip(1) =~= all.skip(i + 1));
        }
        let state = components[i].event(ev)?;
        if state.is_consumed() {
            return Ok(EventState::Consumed);
        }
        i = i + 1;
    }
    Ok(EventState::NotConsumed)
}

} // verus!
