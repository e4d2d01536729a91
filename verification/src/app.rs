//! The front-end as a whole: which tab is open, and when to leave.

use crate::commandbar::CommandBar;
use crate::components::{Component, EventState};
use crate::error::Error;
use crate::input::{Event, InputEvent, KeyEvent};
use crate::keys::key_list::key_match;
use crate::keys::{share, KeyConfig, SharedKeyConfig};
use crate::paths::copy_path;
use crate::tabbar::TabBar;
use crate::tabs::pending::PendingTab;
use std::path::PathBuf;
use std::rc::Rc;
use vstd::prelude::*;

verus! {

/// Whether the front-end is asked to leave.
#[derive(Clone)]
pub enum QuitState {
    Stay,
    Close,
}

/// The front-end: a bar of tabs, the tab of pending changelists, a second
/// tab `S` for the submitted ones, a help screen `H`, and a bar of
/// commands.
pub struct App<S: Component, H: Component> {
    cwd: PathBuf,
    do_quit: QuitState,
    key_config: SharedKeyConfig,
    tabbar: TabBar,
    cmdbar: CommandBar,
    tab: usize,
    pending_tab: PendingTab,
    submitted_tab: S,
    help: H,
}

/// Whether `key` is the key that `binding` names.
pub open spec fn is_key(ev: Event, binding: crate::keys::key_list::P4KeyEvent) -> bool {
    ev matches Event::Key(key) && key.code == binding.code && key.modifiers == binding.modifiers
}

impl<S: Component, H: Component> App<S, H> {
    /// Whether the front-end was asked to leave.
    pub closed spec fn closing(&self) -> bool {
        self.do_quit is Close
    }

    /// The index of the open tab.
    pub closed spec fn tab(&self) -> usize {
        self.tab
    }

    /// The tab that the bar of tabs marks.
    pub closed spec fn marked_tab(&self) -> usize {
        self.tabbar.selected()
    }

    /// The tab of pending changelists.
    pub closed spec fn pending(&self) -> PendingTab {
        self.pending_tab
    }

    /// The tab of submitted changelists.
    pub closed spec fn submitted(&self) -> S {
        self.submitted_tab
    }

    /// The help screen.
    pub closed spec fn help_screen(&self) -> H {
        self.help
    }

    /// The key bindings in force.
    pub closed spec fn bindings(&self) -> SharedKeyConfig {
        self.key_config
    }

    /// The bar of commands.
    pub closed spec fn command_bar(&self) -> CommandBar {
        self.cmdbar
    }

    /// A front-end that shows its first tab and was not asked to leave.
    pub fn new(cwd: PathBuf, key_config: KeyConfig, submitted_tab: S, help: H) -> (app: Self)
        ensures
            !app.closing(),
            app.tab() == 0,
            app.marked_tab() == 0,
            app.pending().visible(),
            app.submitted() == submitted_tab,
            app.help_screen() == help,
            *app.bindings() == key_config,
            app.command_bar()@.cmd_infos.len() == 0,
    {
        let key_config = Rc::new(key_config);
        App {
            do_quit: QuitState::Stay,
            tab: 0,
            tabbar: TabBar::new(share(&key_config), copy_path(&cwd)),
            cmdbar: CommandBar::new(share(&key_config)),
            pending_tab: PendingTab::new(share(&key_config)),
            submitted_tab,
            help,
            cwd,
            key_config,
        }
    }

    /// Brings the open tab and the commands up to date.
    pub fn update(&mut self) -> (done: Result<(), Error>)
        ensures
            done is Ok,
            *final(self) == *old(self),
    {
        self.pending_tab.update()?;
        self.update_commands();
        Ok(())
    }

    /// Handles what the input thread handed over. A change of the input's
    /// state changes nothing. A key that asks to leave marks the front-end
    /// as closing and goes no further. Any other event goes to the help
    /// screen first: if the help screen fails on it, so does the
    /// front-end; if it takes the event, nothing else happens; what it
    /// leaves opens a tab if it is the key of one, as `route_event` says.
    pub fn event(&mut self, ev: InputEvent) -> (done: Result<(), Error>)
        ensures
            final(self).bindings() == old(self).bindings(),
            match ev {
                InputEvent::State(_) => done is Ok && *final(self) == *old(self),
                InputEvent::Input(e) => if is_key(e, old(self).bindings().keys.exit) || is_key(
                    e,
                    old(self).bindings().keys.quit,
                ) {
                    &&& done is Ok
                    &&& final(self).closing()
                    &&& final(self).tab() == old(self).tab()
                    &&& final(self).marked_tab() == old(self).marked_tab()
                    &&& final(self).pending() == old(self).pending()
                    &&& final(self).submitted() == old(self).submitted()
                    &&& final(self).help_screen() == old(self).help_screen()
                } else {
                    &&& final(self).closing() == old(self).closing()
                    &&& match old(self).help_screen().reaction(e) {
                        None => {
                            &&& done is Err
                            &&& final(self).is_showing_as(*old(self))
                        },
                        Some(EventState::Consumed) => {
                            &&& done is Ok
                            &&& final(self).is_showing_as(*old(self))
                        },
                        Some(EventState::NotConsumed) => if is_key(
                            e,
                            old(self).bindings().keys.tab_pending,
                        ) {
                            done is Ok && final(self).is_showing(0)
                        } else if is_key(e, old(self).bindings().keys.tab_submitted) {
                            &&& final(self).pending().visible() == false
                            &&& done is Ok ==> final(self).is_showing(1)
                            &&& done is Err ==> final(self).tab() == old(self).tab()
                                && final(self).marked_tab() == old(self).marked_tab()
                        } else {
                            done is Ok && final(self).is_showing_as(*old(self))
                        },
                    }
                },
            },
    {
        if let InputEvent::Input(ev) = ev {
            if self.check_hard_exit(&ev) || self.check_quit(&ev) {
                return Ok(());
            }
            let taken = self.help.event(&ev)?;
            return self.route_event(&ev, taken);
        }
        Ok(())
    }

    /// Whether to leave: the front-end was asked to, or the input thread
    /// gave up, which `input_aborted` tells.
    pub fn is_quit(&self, input_aborted: bool) -> (quit: bool)
        ensures
            quit == (self.closing() || input_aborted),
    {
        !matches!(self.do_quit, QuitState::Stay) || input_aborted
    }

    /// The message of the error for a tab that does not exist.
    pub open spec fn unknown_tab() -> Seq<char> {
        "unknown tab"@
    }

    /// The tab to draw: the open one, which must be one of the two.
    pub fn drawn_tab(&self) -> (tab: Result<usize, Error>)
        ensures
            match tab {
                Ok(index) => index == self.tab() && index <= 1,
                Err(e) => {
                    &&& self.tab() > 1
                    &&& e matches Error::Generic(m)
                    &&& m@ == Self::unknown_tab()
                },
            },
    {
        if self.tab <= 1 {
            Ok(self.tab)
        } else {
            Err(Error::generic("unknown tab"))
        }
    }

    pub fn tabbar(&self) -> (bar: &TabBar)
        ensures
            bar.selected() == self.marked_tab(),
    {
        &self.tabbar
    }

    pub fn cmdbar(&self) -> (bar: &CommandBar)
        ensures
            *bar == self.command_bar(),
    {
        &self.cmdbar
    }

    pub fn pending_tab(&self) -> (tab: &PendingTab)
        ensures
            *tab == self.pending(),
    {
        &self.pending_tab
    }

    pub fn submitted_tab(&self) -> (tab: &S)
        ensures
            *tab == self.submitted(),
    {
        &self.submitted_tab
    }

    pub fn help(&self) -> (help: &H)
        ensures
            *help == self.help_screen(),
    {
        &self.help
    }

    /// Whether anything lies over the tabs.
    pub fn any_popup_visible(&self) -> (visible: bool)
        ensures
            visible == self.help_screen().visible(),
    {
        self.help.is_visible()
    }

    /// What becomes of an event after the help screen had it, given whether
    /// the help screen took it. An event that was taken changes nothing
    /// more; else the keys that open the tabs open them.
    pub fn route_event(&mut self, ev: &Event, taken: EventState) -> (done: Result<(), Error>)
        ensures
            final(self).closing() == old(self).closing(),
            final(self).bindings() == old(self).bindings(),
            final(self).help_screen() == old(self).help_screen(),
            if taken is Consumed {
                done is Ok && *final(self) == *old(self)
            } else if is_key(*ev, old(self).bindings().keys.tab_pending) {
                done is Ok && final(self).is_showing(0)
            } else if is_key(*ev, old(self).bindings().keys.tab_submitted) {
                final(self).pending().visible() == false && (done is Ok ==> final(self).is_showing(1)) && (done is Err ==> final(self).tab() == old(self).tab()
                    && final(self).marked_tab() == old(self).marked_tab())
            } else {
                done is Ok && *final(self) == *old(self)
            },
    {
        if taken.is_consumed() {
        } else if let Event::Key(k) = ev {
            if key_match(k, self.key_config.keys.tab_pending) || key_match(
                k,
                self.key_config.keys.tab_submitted,
            ) {
                self.switch_tab(k)?;
            }
        }
        Ok(())
    }

    /// The same tab is open and marked as in `before`, and the two tabs are
    /// as they were.
    pub open spec fn is_showing_as(&self, before: Self) -> bool {
        &&& self.tab() == before.tab()
        &&& self.marked_tab() == before.marked_tab()
        &&& self.pending() == before.pending()
        &&& self.submitted() == before.submitted()
    }

    /// Tab `tab` is open and marked; the tab of pending changelists is on
    /// the screen if and only if it is the open one, and the second tab is
    /// on the screen if it is the open one.
    pub open spec fn is_showing(&self, tab: usize) -> bool {
        &&& self.tab() == tab
        &&& self.marked_tab() == tab
        &&& self.pending().visible() == (tab == 0)
        &&& tab == 1 ==> self.submitted().visible()
    }

    fn check_quit(&mut self, ev: &Event) -> (quit: bool)
        ensures
            quit == is_key(*ev, old(self).bindings().keys.quit),
            *final(self) == if quit {
                App { do_quit: QuitState::Close, ..*old(self) }
            } else {
                *old(self)
            },
    {
        if let Event::Key(e) = ev {
            if key_match(e, self.key_config.keys.quit) {
                self.do_quit = QuitState::Close;
                return true;
            }
        }
        false
    }

    fn check_hard_exit(&mut self, ev: &Event) -> (quit: bool)
        ensures
            quit == is_key(*ev, old(self).bindings().keys.exit),
            *final(self) == if quit {
                App { do_quit: QuitState::Close, ..*old(self) }
            } else {
                *old(self)
            },
    {
        if let Event::Key(e) = ev {
            if key_match(e, self.key_config.keys.exit) {
                self.do_quit = QuitState::Close;
                return true;
            }
        }
        false
    }

    fn switch_tab(&mut self, k: &KeyEvent) -> (done: Result<(), Error>)
        ensures
            final(self).closing() == old(self).closing(),
            final(self).bindings() == old(self).bindings(),
            final(self).help_screen() == old(self).help_screen(),
            if is_key(Event::Key(*k), old(self).bindings().keys.tab_pending) {
                done is Ok && final(self).is_showing(0)
            } else if is_key(Event::Key(*k), old(self).bindings().keys.tab_submitted) {
                final(self).pending().visible() == false && (done is Ok ==> final(self).is_showing(1)) && (done is Err ==> final(self).tab() == old(self).tab()
                    && final(self).marked_tab() == old(self).marked_tab())
            } else {
                done is Ok && *final(self) == *old(self)
            },
    {
        if key_match(k, self.key_config.keys.tab_pending) {
            self.set_tab(0)?;
        } else if key_match(k, self.key_config.keys.tab_submitted) {
            self.set_tab(1)?;
        }
        Ok(())
    }

    /// Opens tab `tab`: shows it and takes the other one off the screen.
    /// The tab of pending changelists is tab 0, the other one tab 1; with
    /// any other number both leave the screen. If the second tab cannot
    /// be shown its error is returned, and the open tab stays as it was.
    pub fn set_tab(&mut self, tab: usize) -> (done: Result<(), Error>)
        ensures
            final(self).closing() == old(self).closing(),
            final(self).bindings() == old(self).bindings(),
            final(self).help_screen() == old(self).help_screen(),
            final(self).pending().visible() == (tab == 0),
            tab != 1 ==> done is Ok,
            done is Ok ==> final(self).is_showing(tab),
            done is Err ==> final(self).tab() == old(self).tab() && final(self).marked_tab()
                == old(self).marked_tab(),
    {
        if tab == 0 {
            self.pending_tab.show()?;
        } else {
            self.pending_tab.conceal();
        }
        if tab == 1 {
            self.submitted_tab.show()?;
        } else {
            self.submitted_tab.conceal();
        }
        self.tab = tab;
        self.tabbar.set_selected_tab(tab);
        Ok(())
    }

    /// Hands the commands at hand to the help screen; there are none yet.
    pub fn update_commands(&mut self)
        ensures
            *final(self) == *old(self),
    {
    }
}

} // verus!
