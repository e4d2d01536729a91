//! What the terminal reports: keys, and the other events that the
//! front-end lets pass.

use vstd::prelude::*;

verus! {

/// A media key.
#[derive(Debug, Clone, Copy, PartialEq, Eq, Structural)]
pub enum MediaKeyCode {
    Play,
    Pause,
    PlayPause,
    Reverse,
    Stop,
    FastForward,
    Rewind,
    TrackNext,
    TrackPrevious,
    Record,
    LowerVolume,
    RaiseVolume,
    MuteVolume,
}

/// A modifier key that is reported as a key of its own.
#[derive(Debug, Clone, Copy, PartialEq, Eq, Structural)]
pub enum ModifierKeyCode {
    LeftShift,
    LeftControl,
    LeftAlt,
    LeftSuper,
    LeftHyper,
    LeftMeta,
    RightShift,
    RightControl,
    RightAlt,
    RightSuper,
    RightHyper,
    RightMeta,
    IsoLevel3Shift,
    IsoLevel5Shift,
}

/// A key, apart from the modifiers held with it.
#[derive(Debug, Clone, Copy, PartialEq, Eq, Structural)]
pub enum KeyCode {
    Backspace,
    Enter,
    Left,
    Right,
    Up,
    Down,
    Home,
    End,
    PageUp,
    PageDown,
    Tab,
    BackTab,
    Delete,
    Insert,
    /// A function key, by its number.
    F(u8),
    /// A character key.
    Char(char),
    Null,
    Esc,
    CapsLock,
    ScrollLock,
    NumLock,
    PrintScreen,
    Pause,
    Menu,
    KeypadBegin,
    Media(MediaKeyCode),
    Modifier(ModifierKeyCode),
}

/// The modifiers held with a key, one bit each.
#[derive(Debug, Clone, Copy, PartialEq, Eq, Structural)]
pub struct KeyModifiers {
    pub bits: u8,
}

impl KeyModifiers {
    /// The shift key.
    pub fn shift() -> (modifiers: KeyModifiers)
        ensures
            modifiers.bits == 1,
    {
        KeyModifiers { bits: 1 }
    }

    /// The control key.
    pub fn control() -> (modifiers: KeyModifiers)
        ensures
            modifiers.bits == 2,
    {
        KeyModifiers { bits: 2 }
    }

    /// The alt key.
    pub fn alt() -> (modifiers: KeyModifiers)
        ensures
            modifiers.bits == 4,
    {
        KeyModifiers { bits: 4 }
    }

    /// No modifier at all.
    pub fn empty() -> (modifiers: KeyModifiers)
        ensures
            modifiers.bits == 0,
    {
        KeyModifiers { bits: 0 }
    }

    /// Whether every modifier of `other` is among these.
    pub open spec fn holds(self, other: KeyModifiers) -> bool {
        self.bits & other.bits == other.bits
    }

    /// These modifiers together with those of `other`.
    pub open spec fn with(self, other: KeyModifiers) -> KeyModifiers {
        KeyModifiers { bits: self.bits | other.bits }
    }

    /// Whether every modifier of `other` is among these.
    pub fn contains(&self, other: KeyModifiers) -> (held: bool)
        ensures
            held == self.holds(other),
    {
        self.bits & other.bits == other.bits
    }

    /// Adds the modifiers of `other` to these.
    pub fn insert(&mut self, other: KeyModifiers)
        ensures
            *final(self) == old(self).with(other),
    {
        self.bits = self.bits | other.bits;
    }
}

/// A key as the terminal reports it.
#[derive(Debug, Clone, Copy, PartialEq, Eq, Structural)]
pub struct KeyEvent {
    pub code: KeyCode,
    pub modifiers: KeyModifiers,
}

impl KeyEvent {
    pub fn new(code: KeyCode, modifiers: KeyModifiers) -> (event: KeyEvent)
        ensures
            event.code == code,
            event.modifiers == modifiers,
    {
        KeyEvent { code, modifiers }
    }
}

/// What the terminal reports.
#[derive(Debug, Clone)]
pub enum Event {
    FocusGained,
    FocusLost,
    Key(KeyEvent),
    /// Something the mouse did; the front-end does not look at it.
    Mouse,
    Paste(String),
    Resize(u16, u16),
}

/// Whether the terminal is being read.
#[derive(Debug, Clone, Copy, PartialEq, Eq, Structural)]
pub enum InputState {
    Paused,
    Polling,
}

/// What the input thread hands to the front-end.
#[derive(Debug, Clone)]
pub enum InputEvent {
    Input(Event),
    State(InputState),
}

/// What wakes the front-end up.
#[derive(Clone)]
pub enum QueueEvent {
    Notify,
    InputEvent(InputEvent),
}

} // verus!
