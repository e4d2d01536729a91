use p4tui::input::{KeyCode, KeyEvent, KeyModifiers};
use p4tui::keys::key_list::{key_match, KeysList, KeysListPatch, P4KeyEvent};

#[test]
fn test_smoke() {
    let mut patch = KeysListPatch::empty();
    patch.move_down = Some(P4KeyEvent::new(KeyCode::Char('j'), KeyModifiers { bits: 2 }));

    let keys = KeysList::init(Some(patch));

    assert_eq!(keys.move_right, KeysList::default().move_right);
    assert_eq!(
        keys.move_down,
        P4KeyEvent::new(KeyCode::Char('j'), KeyModifiers::control())
    );
}

#[test]
fn init_without_patch_gives_the_defaults() {
    let keys = KeysList::init(None);
    assert_eq!(keys.tab_pending, P4KeyEvent::new(KeyCode::Char('1'), KeyModifiers::empty()));
    assert_eq!(keys.tab_submitted, P4KeyEvent::new(KeyCode::Char('2'), KeyModifiers::empty()));
    assert_eq!(keys.exit, P4KeyEvent::new(KeyCode::Char('c'), KeyModifiers::control()));
    assert_eq!(keys.quit, P4KeyEvent::new(KeyCode::Char('q'), KeyModifiers::empty()));
    assert_eq!(keys.move_left, P4KeyEvent::new(KeyCode::Left, KeyModifiers::empty()));
    assert_eq!(keys.move_right, P4KeyEvent::new(KeyCode::Right, KeyModifiers::empty()));
    assert_eq!(keys.move_up, P4KeyEvent::new(KeyCode::Up, KeyModifiers::empty()));
    assert_eq!(keys.move_down, P4KeyEvent::new(KeyCode::Down, KeyModifiers::empty()));
    assert_eq!(keys.exit_popup, P4KeyEvent::new(KeyCode::Esc, KeyModifiers::empty()));
    assert_eq!(keys.open_help, P4KeyEvent::new(KeyCode::Char('h'), KeyModifiers::empty()));
}

#[test]
fn apply_changes_only_what_the_patch_names() {
    let mut keys = KeysList::default();
    let mut patch = KeysListPatch::empty();
    patch.quit = Some(P4KeyEvent::new(KeyCode::F(10), KeyModifiers::alt()));
    keys.apply(patch);
    assert_eq!(keys.quit, P4KeyEvent::new(KeyCode::F(10), KeyModifiers::alt()));
    assert_eq!(keys.exit, KeysList::default().exit);
    keys.apply(KeysListPatch::empty());
    assert_eq!(keys.quit, P4KeyEvent::new(KeyCode::F(10), KeyModifiers::alt()));
}

#[test]
fn bindings_are_equal_up_to_case_and_shift() {
    let upper = P4KeyEvent::new(KeyCode::Char('A'), KeyModifiers::empty());
    let shifted = P4KeyEvent::new(KeyCode::Char('a'), KeyModifiers::shift());
    let lower = P4KeyEvent::new(KeyCode::Char('a'), KeyModifiers::empty());
    assert_eq!(upper, shifted);
    assert_ne!(upper, lower);
    assert_ne!(
        P4KeyEvent::new(KeyCode::Left, KeyModifiers::empty()),
        P4KeyEvent::new(KeyCode::Left, KeyModifiers::shift())
    );
    assert_eq!(
        P4KeyEvent::new(KeyCode::Char('z'), KeyModifiers { bits: 3 }).normalize_case().code,
        KeyCode::Char('Z')
    );
    assert_eq!(upper.normalize_case().modifiers, KeyModifiers::shift());
    assert_eq!(
        P4KeyEvent::new(KeyCode::Char('1'), KeyModifiers::shift()).normalize_case().code,
        KeyCode::Char('1')
    );
}

#[test]
fn key_match_compares_key_and_modifiers_as_they_are() {
    let binding = P4KeyEvent::new(KeyCode::Char('c'), KeyModifiers::control());
    assert!(key_match(&KeyEvent::new(KeyCode::Char('c'), KeyModifiers::control()), binding));
    assert!(!key_match(&KeyEvent::new(KeyCode::Char('c'), KeyModifiers::empty()), binding));
    assert!(!key_match(&KeyEvent::new(KeyCode::Char('d'), KeyModifiers::control()), binding));
    let upper = P4KeyEvent::new(KeyCode::Char('A'), KeyModifiers::empty());
    assert!(!key_match(&KeyEvent::new(KeyCode::Char('a'), KeyModifiers::shift()), upper));
}

#[test]
fn modifiers_hold_and_take_bits() {
    let mut m = KeyModifiers::empty();
    assert!(!m.contains(KeyModifiers::shift()));
    assert!(m.contains(KeyModifiers::empty()));
    m.insert(KeyModifiers::control());
    m.insert(KeyModifiers::alt());
    assert_eq!(m.bits, 6);
    assert!(m.contains(KeyModifiers::control()));
    assert!(!m.contains(KeyModifiers::shift()));
}
