use p4tui::app::App;
use p4tui::args::{theme_choice, theme_name};
use p4tui::commandbar::CommandBar;
use p4tui::components::changelist::ChangelistComponent;
use p4tui::components::command::{CommandInfo, CommandText};
use p4tui::components::diff::DiffComponent;
use p4tui::components::filelist::FileListComponent;
use p4tui::components::{
    event_pump, visibility_blocking, CommandBlocking, Component, EventState, ScrollType,
};
use p4tui::error::Error;
use p4tui::input::{Event, InputEvent, InputState, KeyCode, KeyEvent, KeyModifiers};
use p4tui::keys::key_list::KeysList;
use p4tui::layout::Area;
use p4tui::keys::{KeyConfig, SharedKeyConfig};
use p4tui::strings::commands::{close_popup, help_open, scroll};
use p4tui::strings::{
    cmd_splitter, ellipsis_prefixed, ellipsis_trim_start, help_title, tab_divider, tab_pending,
    tab_submitted,
};
use p4tui::sync::change::ChangelistStatus;
use p4tui::tabbar::{columns_for, tabs_columns, TabBar};
use p4tui::tabs::pending::PendingTab;
use std::borrow::Cow;
use std::path::PathBuf;
use std::rc::Rc;

fn key_config() -> SharedKeyConfig {
    Rc::new(KeyConfig { keys: KeysList::default() })
}

fn key(code: KeyCode) -> Event {
    Event::Key(KeyEvent::new(code, KeyModifiers::empty()))
}

/// A component that takes the keys it is told to take, or fails.
struct Probe {
    visible: bool,
    takes: Option<KeyCode>,
    fails_to_show: bool,
    seen: usize,
}

impl Probe {
    fn new() -> Self {
        Probe { visible: false, takes: None, fails_to_show: false, seen: 0 }
    }
}

impl Component for Probe {
    fn visible(&self) -> bool {
        self.visible
    }

    fn has_focus(&self) -> bool {
        false
    }

    fn reaction(&self, ev: Event) -> Option<EventState> {
        match (ev, self.takes) {
            (Event::Key(k), Some(code)) if k.code == code => Some(EventState::Consumed),
            (Event::Resize(0, 0), _) => None,
            _ => Some(EventState::NotConsumed),
        }
    }

    fn commands(&self, _out: &mut Vec<CommandInfo>, _force_all: bool) -> CommandBlocking {
        CommandBlocking::PassingOn
    }

    fn event(&mut self, ev: &Event) -> Result<EventState, Error> {
        self.seen += 1;
        match (ev, self.takes) {
            (Event::Key(k), Some(code)) if k.code == code => Ok(EventState::Consumed),
            (Event::Resize(0, 0), _) => Err(Error::Generic("no room".to_string())),
            _ => Ok(EventState::NotConsumed),
        }
    }

    fn focused(&self) -> bool {
        false
    }

    fn focus(&mut self, _focus: bool) {}

    fn is_visible(&self) -> bool {
        self.visible
    }

    fn conceal(&mut self) {
        self.visible = false;
    }

    fn show(&mut self) -> Result<(), Error> {
        if self.fails_to_show {
            return Err(Error::Generic("cannot show".to_string()));
        }
        self.visible = true;
        Ok(())
    }
}

#[test]
fn tab_labels_name_their_keys() {
    assert_eq!(tab_pending("1"), "Pending [1]");
    assert_eq!(tab_submitted("2"), "Submitted [2]");
    assert_eq!(tab_pending(""), "Pending []");
    assert_eq!(tab_divider(), " | ");
    assert_eq!(cmd_splitter(), " ");
    assert_eq!(help_title(&key_config()), "Help: all commands");
}

#[test]
fn command_texts_name_their_keys() {
    let s = scroll("\u{2191}", "\u{2193}");
    assert_eq!(s.name, "Scroll [\u{2191}\u{2193}]");
    assert_eq!(s.desc, "scroll up or down in focused view");
    assert_eq!(s.group, "-- General --");
    assert!(!s.hide_help);
    let c = close_popup("Esc");
    assert_eq!(c.name, "Close [Esc]");
    assert_eq!(c.desc, "close overlay (e.g commit, help)");
    assert_eq!(c.group, "-- General --");
    let h = help_open("h");
    assert_eq!(h.name, "Help [h]");
    assert_eq!(h.desc, "open this help screen");
    assert_eq!(h.group, "-- General --");
}

#[test]
fn ellipsis_trim_start_keeps_what_fits() {
    assert_eq!(ellipsis_trim_start("hello", 10), "hello");
    assert!(matches!(ellipsis_trim_start("hello", 5), Cow::Borrowed(_)));
    assert_eq!(ellipsis_trim_start("", 0), "");
}

#[test]
fn ellipsis_trim_start_cuts_at_the_start() {
    assert_eq!(ellipsis_trim_start("this/is/a/tmp/path", 10), "[\u{2026}]mp/path");
    assert!(matches!(ellipsis_trim_start("this/is/a/tmp/path", 10), Cow::Owned(_)));
    assert_eq!(ellipsis_trim_start("hello", 4), "[\u{2026}]o");
    assert_eq!(ellipsis_trim_start("hello", 3), "[\u{2026}]");
    assert_eq!(ellipsis_trim_start("hello", 0), "[\u{2026}]");
}

#[test]
fn ellipsis_trim_start_counts_columns_not_characters() {
    assert_eq!(ellipsis_trim_start("\u{4f60}\u{597d}\u{5417}", 6), "\u{4f60}\u{597d}\u{5417}");
    assert_eq!(ellipsis_trim_start("\u{4f60}\u{597d}\u{5417}", 5), "[\u{2026}]\u{5417}");
    assert_eq!(ellipsis_trim_start("\u{4f60}\u{597d}\u{5417}", 4), "[\u{2026}]");
    assert_eq!(ellipsis_prefixed("abc"), "[\u{2026}]abc");
}

#[test]
fn command_text_and_info_builders() {
    let text = CommandText::new("Quit [q]".to_string(), "leave", "-- General --");
    assert_eq!(text.name, "Quit [q]");
    assert!(!text.hide_help);
    let hidden = text.clone().hide_help();
    assert!(hidden.hide_help);
    assert_eq!(hidden.name, "Quit [q]");
    let info = CommandInfo::new(text, true, true);
    assert!(info.enabled && info.quick_bar && info.available);
    assert_eq!(info.order, 0);
    assert!(info.show_in_quickbar());
    let info = info.order(-3);
    assert_eq!(info.order, -3);
    let info = info.hidden();
    assert!(!info.quick_bar);
    assert!(!info.show_in_quickbar());
    let unavailable =
        CommandInfo::new(CommandText::new("x".to_string(), "", ""), true, false);
    assert!(!unavailable.show_in_quickbar());
}

fn info(name: &str, order: i8) -> CommandInfo {
    CommandInfo::new(CommandText::new(name.to_string(), "", ""), true, true).order(order)
}

#[test]
fn command_bar_orders_what_it_shows() {
    let mut bar = CommandBar::new(key_config());
    assert!(bar.cmds().is_empty());
    bar.set_cmds(vec![
        info("c", 5),
        info("a", -1),
        info("gone", -9).hidden(),
        info("d", 5),
        info("b", 0),
        CommandInfo::new(CommandText::new("off".to_string(), "", ""), true, false),
        info("e", 5),
        info("first", -128),
    ]);
    let names: Vec<&str> = bar.cmds().iter().map(|c| c.text.name.as_str()).collect();
    assert_eq!(names, vec!["first", "a", "b", "c", "d", "e"]);
    bar.set_cmds(Vec::new());
    assert!(bar.cmds().is_empty());
}

#[test]
fn command_bar_has_one_line_until_opened_out() {
    let mut bar = CommandBar::new(key_config());
    assert_eq!(bar.height(), 1);
    bar.toggle_more();
    assert_eq!(bar.height(), 1);
    bar.refresh_width(0);
    bar.refresh_list(80);
    assert_eq!(bar.height(), 1);
}

#[test]
fn event_state_tells_whether_consumed() {
    assert!(EventState::Consumed.is_consumed());
    assert!(!EventState::NotConsumed.is_consumed());
    assert!(EventState::from(true).is_consumed());
    assert!(!EventState::from(false).is_consumed());
}

#[test]
fn changelist_selection_stays_in_the_list() {
    let mut list = ChangelistComponent::new(ChangelistStatus::Pending, key_config());
    assert!(list.get_changelists().is_empty());
    assert_eq!(list.get_selected(), None);
    assert!(list.update().is_ok());
    assert_eq!(list.move_selection(ScrollType::End).unwrap(), true);
    assert_eq!(list.selection(), 0);

    list.set_changelists(vec![10, 20, 30, 40, 50]);
    assert_eq!(list.get_changelists(), &vec![10, 20, 30, 40, 50]);
    assert_eq!(list.get_selected(), Some(10));
    assert!(list.move_selection(ScrollType::Up).unwrap());
    assert_eq!(list.get_selected(), Some(20));
    assert!(list.move_selection(ScrollType::Down).unwrap());
    assert!(list.move_selection(ScrollType::Down).unwrap());
    assert_eq!(list.get_selected(), Some(10));
    assert!(list.move_selection(ScrollType::End).unwrap());
    assert_eq!(list.selection(), 4);
    assert_eq!(list.get_selected(), Some(50));
    assert!(list.move_selection(ScrollType::Up).unwrap());
    assert_eq!(list.selection(), 4);
    assert!(list.move_selection(ScrollType::Home).unwrap());
    assert_eq!(list.selection(), 0);
    list.set_height(3);
    assert!(list.move_selection(ScrollType::PageDown).unwrap());
    assert_eq!(list.selection(), 3);
    assert!(list.move_selection(ScrollType::PageUp).unwrap());
    assert_eq!(list.selection(), 4);
    assert!(list.set_selection(2).is_ok());
    assert_eq!(list.get_selected(), Some(30));
    assert!(list.set_selection(u16::MAX).is_ok());
    assert_eq!(list.selection(), 4);
}

#[test]
fn changelist_too_long_to_select_in() {
    let mut list = ChangelistComponent::new(ChangelistStatus::Submitted, key_config());
    list.set_changelists(vec![1; 65536]);
    for scroll in [ScrollType::Up, ScrollType::End, ScrollType::Home] {
        match list.move_selection(scroll) {
            Err(Error::Generic(message)) => {
                assert_eq!(message, "out of range integral type conversion attempted")
            }
            _ => panic!("a list of 65536 entries cannot be selected in"),
        }
    }
    assert_eq!(list.selection(), 0);
    list.set_changelists(vec![1; 65535]);
    assert!(list.move_selection(ScrollType::End).unwrap());
    assert_eq!(list.selection(), 65534);
}

#[test]
fn changelist_takes_the_keys_that_move() {
    let mut list = ChangelistComponent::new(ChangelistStatus::Pending, key_config());
    list.set_changelists(vec![1, 2, 3]);
    assert!(list.event(&key(KeyCode::Up)).unwrap().is_consumed());
    assert_eq!(list.selection(), 1);
    assert!(list.event(&key(KeyCode::Down)).unwrap().is_consumed());
    assert_eq!(list.selection(), 0);
    assert!(!list.event(&key(KeyCode::Left)).unwrap().is_consumed());
    assert!(!list.event(&Event::FocusGained).unwrap().is_consumed());
    assert!(!list
        .event(&Event::Key(KeyEvent::new(KeyCode::Up, KeyModifiers::shift())))
        .unwrap()
        .is_consumed());
    assert_eq!(list.selection(), 0);
    assert!(!list.focused());
    list.focus(true);
    assert!(list.focused());
    assert!(list.is_visible());
    list.conceal();
    assert!(list.is_visible());
    assert!(list.toggle_visible().is_ok());
}

#[test]
fn diff_and_file_list_leave_events() {
    let mut diff = DiffComponent::new(key_config());
    assert!(!diff.can_scroll());
    diff.clear(true);
    diff.update();
    assert!(!diff.event(&key(KeyCode::Down)).unwrap().is_consumed());
    assert!(!diff.focused());
    diff.focus(true);
    assert!(diff.focused());
    let mut out = Vec::new();
    assert!(diff.commands(&mut out, true) == CommandBlocking::PassingOn);
    assert!(out.is_empty());

    let mut files = FileListComponent::new("Shelved Files".to_string(), key_config());
    assert_eq!(files.get_title(), "Shelved Files");
    assert!(!files.event(&key(KeyCode::Down)).unwrap().is_consumed());
    files.focus(true);
    assert!(files.focused());
    assert!(files.commands(&mut out, false) == CommandBlocking::PassingOn);
}

#[test]
fn pending_tab_blocks_while_visible() {
    let mut tab = PendingTab::new(key_config());
    let mut out = Vec::new();
    assert!(tab.is_visible());
    assert!(tab.commands(&mut out, false) == CommandBlocking::Blocking);
    assert!(visibility_blocking(&tab) == CommandBlocking::Blocking);
    tab.conceal();
    assert!(!tab.is_visible());
    assert!(tab.commands(&mut out, false) == CommandBlocking::PassingOn);
    assert!(visibility_blocking(&tab) == CommandBlocking::PassingOn);
    assert!(tab.show().is_ok());
    assert!(tab.is_visible());
    assert!(tab.toggle_visible().is_ok());
    assert!(!tab.is_visible());
    assert!(tab.toggle_visible().is_ok());
    assert!(tab.is_visible());
    assert!(tab.update().is_ok());
    assert!(!tab.event(&key(KeyCode::Char('q'))).unwrap().is_consumed());
}

#[test]
fn event_pump_stops_at_the_first_taker() {
    let mut a = Probe::new();
    let mut b = Probe::new();
    let mut c = Probe::new();
    b.takes = Some(KeyCode::Enter);
    {
        let mut all: Vec<&mut dyn Component> = vec![&mut a, &mut b, &mut c];
        assert!(event_pump(&key(KeyCode::Enter), all.as_mut_slice()).unwrap().is_consumed());
        assert!(!event_pump(&key(KeyCode::Esc), all.as_mut_slice()).unwrap().is_consumed());
        assert!(event_pump(&Event::Resize(0, 0), all.as_mut_slice()).is_err());
    }
    assert_eq!((a.seen, b.seen, c.seen), (3, 2, 1));
    let mut none: Vec<&mut dyn Component> = Vec::new();
    assert!(!event_pump(&key(KeyCode::Enter), none.as_mut_slice()).unwrap().is_consumed());
}

#[test]
fn command_bar_places_the_switch_on_the_last_line() {
    let bar = CommandBar::new(key_config());
    assert!(bar.fits(Area::new(0, 0, 9, 1)));
    assert!(!bar.fits(Area::new(0, 0, 8, 1)));
    assert_eq!(bar.more_area(Area::new(0, 10, 80, 3)), None);
    assert_eq!(bar.more_label(), "more [.]");
    assert!(bar.draw_list().is_empty());
}

#[test]
fn app_draws_the_open_tab() {
    let mut a = app();
    assert_eq!(a.drawn_tab().unwrap(), 0);
    assert!(a.pending_tab().is_visible());
    assert!(a.set_tab(1).is_ok());
    assert_eq!(a.drawn_tab().unwrap(), 1);
    assert!(!a.pending_tab().is_visible());
    assert!(a.submitted_tab().is_visible());
    assert_eq!(a.tabbar().selected_tab(), 1);
    assert!(a.set_tab(2).is_ok());
    match a.drawn_tab() {
        Err(Error::Generic(message)) => assert_eq!(message, "unknown tab"),
        _ => panic!("there are two tabs"),
    }
    assert!(!a.submitted_tab().is_visible());
    assert_eq!(a.cmdbar().height(), 1);
    assert_eq!(a.help().seen, 0);
    assert_eq!(a.tabbar().cwd(), &PathBuf::from("."));
    assert!(!a.pending_tab().diff_view().can_scroll());
}

#[test]
fn tab_bar_marks_a_tab() {
    let mut bar = TabBar::new(key_config(), PathBuf::from("."));
    assert_eq!(bar.selected_tab(), 0);
    bar.set_selected_tab(1);
    assert_eq!(bar.selected_tab(), 1);
}

#[test]
fn tabs_columns_adds_labels_dividers_and_pads() {
    let labels = vec![tab_pending("1"), tab_submitted("2")];
    assert_eq!(tabs_columns(&labels, &tab_divider(), 7), 11 + 13 + 5 + 4);
    assert_eq!(tabs_columns(&Vec::new(), " | ", 7), 4);
    assert_eq!(tabs_columns(&vec!["\u{4f60}\u{597d}".to_string()], " | ", 7), 8);
    let three = vec!["a".to_string(), "b".to_string(), "c".to_string()];
    assert_eq!(tabs_columns(&three, "", 7), 3 + 2 * 2 + 4);
}

#[test]
fn columns_for_counts_gaps_between_labels() {
    assert_eq!(columns_for(&vec![], 3, 1), 4);
    assert_eq!(columns_for(&vec![10], 3, 1), 14);
    assert_eq!(columns_for(&vec![10, 20], 3, 1), 39);
    assert_eq!(columns_for(&vec![1, 1, 1, 1], 0, 1), 14);
    assert_eq!(columns_for(&vec![65531], 0, 1), 65535);
    assert_eq!(columns_for(&vec![65532], 0, 1), 1);
    assert_eq!(columns_for(&vec![usize::MAX, usize::MAX], usize::MAX, 2), 2);
    assert_eq!(columns_for(&vec![0, 0], 65529, 3), 65535);
    assert_eq!(columns_for(&vec![0, 0], 65530, 3), 3);
    assert_eq!(columns_for(&vec![0; 3], 32764, 3), 3);
    assert_eq!(columns_for(&vec![0; 3], 32763, 3), 65534);
}

#[test]
fn tabs_columns_falls_back_when_too_wide() {
    let wide = vec!["x".repeat(65531)];
    assert_eq!(tabs_columns(&wide, " | ", 7), 65535);
    let wider = vec!["x".repeat(65532)];
    assert_eq!(tabs_columns(&wider, " | ", 7), 7);
    let many = vec![String::new(); 70000];
    assert_eq!(tabs_columns(&many, "", 9), 9);
}

fn app() -> App<Probe, Probe> {
    App::new(PathBuf::from("."), KeyConfig { keys: KeysList::default() }, Probe::new(), Probe::new())
}

#[test]
fn app_leaves_on_quit_and_exit_keys() {
    let mut a = app();
    assert!(!a.is_quit(false));
    assert!(a.is_quit(true));
    assert!(a.event(InputEvent::State(InputState::Polling)).is_ok());
    assert!(a.event(InputEvent::Input(key(KeyCode::Char('x')))).is_ok());
    assert!(!a.is_quit(false));
    assert!(a.event(InputEvent::Input(key(KeyCode::Char('q')))).is_ok());
    assert!(a.is_quit(false));

    let mut b = app();
    let ctrl_c = Event::Key(KeyEvent::new(KeyCode::Char('c'), KeyModifiers::control()));
    assert!(b.event(InputEvent::Input(key(KeyCode::Char('c')))).is_ok());
    assert!(!b.is_quit(false));
    assert!(b.event(InputEvent::Input(ctrl_c)).is_ok());
    assert!(b.is_quit(false));
    assert!(b.update().is_ok());
}

#[test]
fn app_switches_tabs_on_their_keys() {
    let mut a = app();
    assert!(!a.any_popup_visible());
    assert!(a.event(InputEvent::Input(key(KeyCode::Char('2')))).is_ok());
    assert_eq!(a.drawn_tab().unwrap(), 1);
    assert_eq!(a.tabbar().selected_tab(), 1);
    assert!(!a.pending_tab().is_visible());
    assert!(a.event(InputEvent::Input(key(KeyCode::Char('1')))).is_ok());
    assert_eq!(a.drawn_tab().unwrap(), 0);
    assert!(a.pending_tab().is_visible());
    assert!(!a.submitted_tab().is_visible());
    assert_eq!(a.help().seen, 2);
    assert!(a.set_tab(0).is_ok());
    assert!(a.set_tab(1).is_ok());
    assert!(a.set_tab(5).is_ok());
    assert!(a.route_event(&key(KeyCode::Char('1')), EventState::Consumed).is_ok());
    assert!(a.route_event(&key(KeyCode::Char('1')), EventState::NotConsumed).is_ok());
    assert!(a.event(InputEvent::Input(Event::Resize(0, 0))).is_err());
}

#[test]
fn app_reports_a_tab_that_cannot_be_shown() {
    let mut stubborn = Probe::new();
    stubborn.fails_to_show = true;
    let mut a: App<Probe, Probe> = App::new(
        PathBuf::from("."),
        KeyConfig { keys: KeysList::default() },
        stubborn,
        Probe::new(),
    );
    assert!(a.set_tab(0).is_ok());
    assert!(a.set_tab(1).is_err());
    assert_eq!(a.drawn_tab().unwrap(), 0);
    assert!(!a.pending_tab().is_visible());
    assert!(a.event(InputEvent::Input(key(KeyCode::Char('2')))).is_err());
    assert!(a.event(InputEvent::Input(key(KeyCode::Char('1')))).is_ok());
}

#[test]
fn help_screen_takes_events_before_the_tabs() {
    let mut help = Probe::new();
    help.takes = Some(KeyCode::Char('2'));
    let mut a: App<Probe, Probe> = App::new(
        PathBuf::from("."),
        KeyConfig { keys: KeysList::default() },
        Probe::new(),
        help,
    );
    assert!(a.event(InputEvent::Input(key(KeyCode::Char('2')))).is_ok());
    assert_eq!(a.drawn_tab().unwrap(), 0);
    assert!(a.pending_tab().is_visible());
    assert!(a.event(InputEvent::Input(key(KeyCode::Char('q')))).is_ok());
    assert_eq!(a.help().seen, 1);
    assert!(a.is_quit(false));
}

#[test]
fn theme_file_is_the_named_one_if_it_is_there() {
    assert_eq!(theme_name(None), "theme.ron");
    assert_eq!(theme_name(Some("dark.ron".to_string())), "dark.ron");
    assert_eq!(theme_choice("dark.ron".to_string(), true), "dark.ron");
    assert_eq!(theme_choice("dark.ron".to_string(), false), "theme.ron");
}

#[test]
fn toggling_shows_a_hidden_component() {
    let mut probe = Probe::new();
    assert!(!probe.is_visible());
    assert!(probe.toggle_visible().is_ok());
    assert!(probe.is_visible());
    assert!(probe.toggle_visible().is_ok());
    assert!(!probe.is_visible());
    probe.fails_to_show = true;
    assert!(probe.toggle_visible().is_err());
    assert!(!probe.is_visible());
}
