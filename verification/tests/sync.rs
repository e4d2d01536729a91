use p4tui::error::Error;
use p4tui::sync::change::{
    changes_query, get_changelists_impl, get_pending_changelists, get_submitted_changelists,
    parse_changelists, Changelist, ChangelistStatus,
};
use p4tui::sync::diff::{
    DiffLine, DiffLinePosition, DiffLineType, FileDiff, Hunk, HunkHeader,
};
use p4tui::sync::file::{files_arguments, get_files, parse_files};
use p4tui::sync::text::{read_u32, split_lines, write_u32};

fn strings(items: &[&str]) -> Vec<String> {
    items.iter().map(|s| s.to_string()).collect()
}

#[test]
fn changelist_starts_at_zero() {
    let c = Changelist::new();
    assert_eq!(c.changelist, 0);
    assert!(matches!(c.status, ChangelistStatus::Any));
}

#[test]
fn changes_query_names_user_client_and_state() {
    assert_eq!(changes_query(None, None, ChangelistStatus::Any), strings(&["changes"]));
    assert_eq!(
        changes_query(Some("ann".to_string()), None, ChangelistStatus::Pending),
        strings(&["changes", "-u", "ann", "-s", "pending"])
    );
    assert_eq!(
        changes_query(
            Some("ann".to_string()),
            Some("ws".to_string()),
            ChangelistStatus::Submitted
        ),
        strings(&["changes", "-u", "ann", "-c", "ws", "-s", "submitted"])
    );
    assert_eq!(
        changes_query(None, Some("ws".to_string()), ChangelistStatus::Any),
        strings(&["changes", "-c", "ws"])
    );
}

#[test]
fn parse_changelists_reads_each_line() {
    let output = "Change 1234 on 2023/01/01 by ann@ws *pending* 'fix'\n\nnothing here\nChange 77 on 2023/01/02 by bob@ws 'more'\n";
    assert_eq!(parse_changelists(output).unwrap(), vec![1234, 77]);
}

#[test]
fn parse_changelists_of_nothing_is_empty() {
    assert_eq!(parse_changelists("").unwrap(), Vec::<u32>::new());
    assert_eq!(parse_changelists("\n\n").unwrap(), Vec::<u32>::new());
    assert_eq!(parse_changelists("Change x\nchange 5").unwrap(), Vec::<u32>::new());
}

#[test]
fn parse_changelists_takes_the_first_number_of_a_line() {
    assert_eq!(
        parse_changelists("see Change 12abc and Change 99").unwrap(),
        vec![12]
    );
    assert_eq!(parse_changelists("Change 4294967295").unwrap(), vec![u32::MAX]);
    assert_eq!(parse_changelists("Change 007").unwrap(), vec![7]);
}

#[test]
fn parse_changelists_refuses_a_number_too_large() {
    match parse_changelists("Change 1\nChange 4294967296\nChange 2") {
        Err(Error::Generic(message)) => assert_eq!(message, "changelist number out of range"),
        _ => panic!("a number of more than 32 bits is refused"),
    }
}

#[test]
fn get_pending_changelists_asks_and_reads() {
    let mut asked: Vec<String> = Vec::new();
    let numbers = get_pending_changelists(Some("ann".to_string()), None, |arguments| {
        asked = arguments;
        Ok("Change 5 on x\nChange 6 on y\n".to_string())
    });
    assert_eq!(numbers.unwrap(), vec![5, 6]);
    assert_eq!(asked, strings(&["changes", "-u", "ann", "-s", "pending"]));
}

#[test]
fn get_submitted_changelists_asks_and_reads() {
    let mut asked: Vec<String> = Vec::new();
    let numbers = get_submitted_changelists(None, Some("ws".to_string()), |arguments| {
        asked = arguments;
        Ok("Change 9 on x".to_string())
    });
    assert_eq!(numbers.unwrap(), vec![9]);
    assert_eq!(asked, strings(&["changes", "-c", "ws", "-s", "submitted"]));
}

#[test]
fn get_changelists_hands_the_failure_on() {
    let numbers = get_changelists_impl(None, None, ChangelistStatus::Any, |_| {
        Err(Error::Io(std::io::Error::new(std::io::ErrorKind::NotFound, "p4")))
    });
    assert!(matches!(numbers, Err(Error::Io(_))));
}

#[test]
fn files_arguments_write_the_number() {
    assert_eq!(files_arguments(0), strings(&["describe", "0"]));
    assert_eq!(files_arguments(1234), strings(&["describe", "1234"]));
    assert_eq!(files_arguments(u32::MAX), strings(&["describe", "4294967295"]));
}

#[test]
fn parse_files_keeps_the_matches() {
    let output = "Change 12 by ann\n\nx ...s//depot/a.c#12 edit more\n... //depot/b.c#3 add\n...sss#1\tdelete\n";
    assert_eq!(
        parse_files(output),
        strings(&["...s//depot/a.c#12 edit", "...sss#1\tdelete"])
    );
    assert_eq!(parse_files(""), Vec::<String>::new());
}

#[test]
fn get_files_asks_and_reads() {
    let mut asked: Vec<String> = Vec::new();
    let files = get_files(42, |arguments| {
        asked = arguments;
        Ok("...sfile#1 add".to_string())
    });
    assert_eq!(files.unwrap(), strings(&["...sfile#1 add"]));
    assert_eq!(asked, strings(&["describe", "42"]));
    let failed = get_files(42, |_| Err(Error::Generic("gone".to_string())));
    assert!(matches!(failed, Err(Error::Generic(_))));
}

#[test]
fn read_u32_reads_decimal_numbers_only() {
    assert_eq!(read_u32("0"), Some(0));
    assert_eq!(read_u32("42"), Some(42));
    assert_eq!(read_u32("0042"), Some(42));
    assert_eq!(read_u32("4294967295"), Some(u32::MAX));
    assert_eq!(read_u32("4294967296"), None);
    assert_eq!(read_u32("99999999999999999999"), None);
    assert_eq!(read_u32(""), None);
    assert_eq!(read_u32("+5"), None);
    assert_eq!(read_u32("12a"), None);
    assert_eq!(read_u32("١٢"), None);
}

#[test]
fn write_u32_is_read_back() {
    for n in [0u32, 1, 9, 10, 11, 99, 100, 12345, 4294967295] {
        assert_eq!(write_u32(n), n.to_string());
        assert_eq!(read_u32(&write_u32(n)), Some(n));
    }
}

#[test]
fn diff_defaults_are_empty() {
    assert_eq!(DiffLineType::default(), DiffLineType::Context);
    assert_eq!(
        DiffLinePosition::default(),
        DiffLinePosition { old_lineno: None, new_lineno: None }
    );
    assert_eq!(
        HunkHeader::default(),
        HunkHeader { old_start: 0, old_lines: 0, new_start: 0, new_lines: 0 }
    );
    let hunk = Hunk::default();
    assert_eq!(hunk.header_hash, 0);
    assert!(hunk.lines.is_empty());
    let diff = FileDiff::default();
    assert!(diff.hunks.is_empty());
    assert_eq!(diff.lines, 0);
    assert!(!diff.untracked);
    assert_eq!(diff.sizes, (0, 0));
    assert_eq!(diff.size_delta, 0);
    let copy = diff.clone();
    assert_eq!(copy.sizes, (0, 0));
}

#[test]
fn diff_line_clone_keeps_the_text() {
    let line = DiffLine {
        content: "+ added".into(),
        line_type: DiffLineType::Add,
        position: DiffLinePosition { old_lineno: None, new_lineno: Some(4) },
    };
    let copy = line.clone();
    assert_eq!(&*copy.content, "+ added");
    assert_eq!(copy.line_type, DiffLineType::Add);
    assert_eq!(copy.position.new_lineno, Some(4));
    let hunk = Hunk { header_hash: 9, lines: vec![line] };
    assert_eq!(&*hunk.clone().lines[0].content, "+ added");
}

#[test]
fn split_lines_cuts_at_every_line_feed() {
    assert_eq!(split_lines(""), strings(&[""]));
    assert_eq!(split_lines("abc"), strings(&["abc"]));
    assert_eq!(split_lines("a\nb"), strings(&["a", "b"]));
    assert_eq!(split_lines("a\n"), strings(&["a", ""]));
    assert_eq!(split_lines("\n\nx\r\ny"), strings(&["", "", "x\r", "y"]));
    assert_eq!(split_lines("\u{4f60}\n\u{597d}\u{5417}"), strings(&["\u{4f60}", "\u{597d}\u{5417}"]));
}

#[test]
fn poisoned_lock_is_a_generic_error() {
    match Error::poisoned("poisoned lock: another task failed inside") {
        Error::Generic(message) => {
            assert_eq!(message, "poison error: poisoned lock: another task failed inside")
        }
        _ => panic!("a poisoned lock gives a generic error"),
    }
}
