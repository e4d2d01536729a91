//! The list of key bindings, its defaults, and how a user's file changes
//! them.

use crate::input::{KeyCode, KeyEvent, KeyModifiers};
use vstd::prelude::*;
use vstd::std_specs::cmp::PartialEqSpecImpl;

verus! {

/// A key binding: a key and the modifiers that go with it.
#[derive(Debug, Clone, Copy)]
pub struct P4KeyEvent {
    pub code: KeyCode,
    pub modifiers: KeyModifiers,
}

/// The upper-case form of an ASCII letter; any other character as it is.
pub open spec fn ascii_upper(c: char) -> char {
    if 'a' <= c <= 'z' {
        ((c as u32) - 32) as char
    } else {
        c
    }
}

/// Whether `c` is an upper-case ASCII letter.
pub open spec fn is_ascii_upper(c: char) -> bool {
    'A' <= c <= 'Z'
}

fn to_ascii_upper(c: char) -> (upper: char)
    ensures
        upper == ascii_upper(c),
{
    if 'a' <= c && c <= 'z' {
        let code: u8 = c as u8;
        (code - 32) as char
    } else {
        c
    }
}

impl P4KeyEvent {
    pub fn new(code: KeyCode, modifiers: KeyModifiers) -> (binding: Self)
        ensures
            binding.code == code,
            binding.modifiers == modifiers,
    {
        P4KeyEvent { code, modifiers }
    }

    /// The binding with the case of its character and its shift modifier
    /// brought in line: an upper-case letter gets the shift modifier, and a
    /// character with the shift modifier is put in upper case. Bindings
    /// without a character stay as they are.
    pub open spec fn normalized(self) -> P4KeyEvent {
        match self.code {
            KeyCode::Char(c) => if is_ascii_upper(c) {
                P4KeyEvent { code: self.code, modifiers: self.modifiers.with(KeyModifiers { bits: 1 }) }
            } else if self.modifiers.holds(KeyModifiers { bits: 1 }) {
                P4KeyEvent { code: KeyCode::Char(ascii_upper(c)), modifiers: self.modifiers }
            } else {
                self
            },
            _ => self,
        }
    }

    /// The binding with case and shift modifier brought in line.
    pub fn normalize_case(self) -> (normal: P4KeyEvent)
        ensures
            normal == self.normalized(),
    {
        match self.code {
            KeyCode::Char(c) => {
                if 'A' <= c && c <= 'Z' {
                    let mut modifiers = self.modifiers;
                    modifiers.insert(KeyModifiers::shift());
                    P4KeyEvent { code: self.code, modifiers }
                } else if self.modifiers.contains(KeyModifiers::shift()) {
                    P4KeyEvent { code: KeyCode::Char(to_ascii_upper(c)), modifiers: self.modifiers }
                } else {
                    self
                }
            },
            _ => self,
        }
    }
}

/// Whether the key `ev` is the one that `binding` names: the same key with
/// the same modifiers.
pub fn key_match(ev: &KeyEvent, binding: P4KeyEvent) -> (matched: bool)
    ensures
        matched == (ev.code == binding.code && ev.modifiers == binding.modifiers),
{
    ev.code == binding.code && ev.modifiers == binding.modifiers
}

impl PartialEq for P4KeyEvent {
    /// Two bindings are equal if they agree once case and shift modifier are
    /// brought in line.
    fn eq(&self, other: &Self) -> (equal: bool) {
        let a = self.normalize_case();
        let b = other.normalize_case();
        a.code == b.code && a.modifiers == b.modifiers
    }
}

impl PartialEqSpecImpl for P4KeyEvent {
    open spec fn obeys_eq_spec() -> bool {
        true
    }

    open spec fn eq_spec(&self, other: &Self) -> bool {
        self.normalized() == other.normalized()
    }
}

/// The key bindings of the front-end.
#[derive(Debug, Clone, Copy)]
pub struct KeysList {
    pub tab_pending: P4KeyEvent,
    pub tab_submitted: P4KeyEvent,
    pub exit: P4KeyEvent,
    pub quit: P4KeyEvent,
    pub move_left: P4KeyEvent,
    pub move_right: P4KeyEvent,
    pub move_up: P4KeyEvent,
    pub move_down: P4KeyEvent,
    pub exit_popup: P4KeyEvent,
    pub open_help: P4KeyEvent,
}

/// Changes to the key bindings: a new binding for each key that is named,
/// nothing for the others.
#[derive(Debug, Clone, Copy)]
pub struct KeysListPatch {
    pub tab_pending: Option<P4KeyEvent>,
    pub tab_submitted: Option<P4KeyEvent>,
    pub exit: Option<P4KeyEvent>,
    pub quit: Option<P4KeyEvent>,
    pub move_left: Option<P4KeyEvent>,
    pub move_right: Option<P4KeyEvent>,
    pub move_up: Option<P4KeyEvent>,
    pub move_down: Option<P4KeyEvent>,
    pub exit_popup: Option<P4KeyEvent>,
    pub open_help: Option<P4KeyEvent>,
}

/// A binding for `code` without modifiers.
pub open spec fn plain(code: KeyCode) -> P4KeyEvent {
    P4KeyEvent { code, modifiers: KeyModifiers { bits: 0 } }
}

/// The binding that `change` asks for, or `current` if it asks for none.
pub open spec fn patched(current: P4KeyEvent, change: Option<P4KeyEvent>) -> P4KeyEvent {
    match change {
        Some(binding) => binding,
        None => current,
    }
}

fn patch_one(current: P4KeyEvent, change: Option<P4KeyEvent>) -> (binding: P4KeyEvent)
    ensures
        binding == patched(current, change),
{
    match change {
        Some(binding) => binding,
        None => current,
    }
}

impl KeysListPatch {
    /// A patch that changes nothing.
    pub fn empty() -> (patch: Self)
        ensures
            patch == Self::unchanged(),
    {
        KeysListPatch {
            tab_pending: None,
            tab_submitted: None,
            exit: None,
            quit: None,
            move_left: None,
            move_right: None,
            move_up: None,
            move_down: None,
            exit_popup: None,
            open_help: None,
        }
    }

    /// The patch that changes nothing.
    pub open spec fn unchanged() -> Self {
        KeysListPatch {
            tab_pending: None,
            tab_submitted: None,
            exit: None,
            quit: None,
            move_left: None,
            move_right: None,
            move_up: None,
            move_down: None,
            exit_popup: None,
            open_help: None,
        }
    }
}

impl KeysList {
    /// The bindings that hold unless the user changes them.
    pub open spec fn defaults() -> KeysList {
        KeysList {
            tab_pending: plain(KeyCode::Char('1')),
            tab_submitted: plain(KeyCode::Char('2')),
            exit: P4KeyEvent { code: KeyCode::Char('c'), modifiers: KeyModifiers { bits: 2 } },
            quit: plain(KeyCode::Char('q')),
            move_left: plain(KeyCode::Left),
            move_right: plain(KeyCode::Right),
            move_up: plain(KeyCode::Up),
            move_down: plain(KeyCode::Down),
            exit_popup: plain(KeyCode::Esc),
            open_help: plain(KeyCode::Char('h')),
        }
    }

    /// These bindings with the changes of `patch` made.
    pub open spec fn with_patch(self, patch: KeysListPatch) -> KeysList {
        KeysList {
            tab_pending: patched(self.tab_pending, patch.tab_pending),
            tab_submitted: patched(self.tab_submitted, patch.tab_submitted),
            exit: patched(self.exit, patch.exit),
            quit: patched(self.quit, patch.quit),
            move_left: patched(self.move_left, patch.move_left),
            move_right: patched(self.move_right, patch.move_right),
            move_up: patched(self.move_up, patch.move_up),
            move_down: patched(self.move_down, patch.move_down),
            exit_popup: patched(self.exit_popup, patch.exit_popup),
            open_help: patched(self.open_help, patch.open_help),
        }
    }

    /// Makes the changes of `patch`: each binding it names replaces the
    /// current one, the others stay.
    pub fn apply(&mut self, patch: KeysListPatch)
        ensures
            *final(self) == old(self).with_patch(patch),
    {
        self.tab_pending = patch_one(self.tab_pending, patch.tab_pending);
        self.tab_submitted = patch_one(self.tab_submitted, patch.tab_submitted);
        self.exit = patch_one(self.exit, patch.exit);
        self.quit = patch_one(self.quit, patch.quit);
        self.move_left = patch_one(self.move_left, patch.move_left);
        self.move_right = patch_one(self.move_right, patch.move_right);
        self.move_up = patch_one(self.move_up, patch.move_up);
        self.move_down = patch_one(self.move_down, patch.move_down);
        self.exit_popup = patch_one(self.exit_popup, patch.exit_popup);
        self.open_help = patch_one(self.open_help, patch.open_help);
    }

    /// The bindings to start with: the defaults, changed by what the user's
    /// file of key bindings held. `patch` is `None` if there is no such file
    /// or if it could not be read; the defaults hold then.
    pub fn init(patch: Option<KeysListPatch>) -> (keys: Self)
        ensures
            keys == match patch {
                Some(changes) => Self::defaults().with_patch(changes),
                None => Self::defaults(),
            },
    {
        let mut keys_list = Self::default();
        if let Some(changes) = patch {
            keys_list.apply(changes);
        }
        keys_list
    }
}

impl Default for KeysList {
    fn default() -> (keys: Self)
        ensures
            keys == KeysList::defaults(),
    {
        KeysList {
            tab_pending: P4KeyEvent::new(KeyCode::Char('1'), KeyModifiers::empty()),
            tab_submitted: P4KeyEvent::new(KeyCode::Char('2'), KeyModifiers::empty()),
            exit: P4KeyEvent::new(KeyCode::Char('c'), KeyModifiers::control()),
            quit: P4KeyEvent::new(KeyCode::Char('q'), KeyModifiers::empty()),
            move_left: P4KeyEvent::new(KeyCode::Left, KeyModifiers::empty()),
            move_right: P4KeyEvent::new(KeyCode::Right, KeyModifiers::empty()),
            move_up: P4KeyEvent::new(KeyCode::Up, KeyModifiers::empty()),
            move_down: P4KeyEvent::new(KeyCode::Down, KeyModifiers::empty()),
            exit_popup: P4KeyEvent::new(KeyCode::Esc, KeyModifiers::empty()),
            open_help: P4KeyEvent::new(KeyCode::Char('h'), KeyModifiers::empty()),
        }
    }
}

/// A patch that is applied a second time changes nothing more, and the
/// empty patch changes nothing at all.
pub proof fn lemma_patch_applies_once(keys: KeysList, patch: KeysListPatch)
    ensures
        keys.with_patch(patch).with_patch(patch) == keys.with_patch(patch),
        keys.with_patch(KeysListPatch::unchanged()) == keys,
{
}

} // verus!
