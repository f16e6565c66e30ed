//! The cursor wire codec and the backward file scan.

use drashta::cursor::{parse_cursor, render_cursor, Cursor, CursorType};
use drashta::scan::read_file_backward;

#[test]
fn journal_cursor_round_trip() {
    let c = CursorType::Journal("s=abcdef;i=42".to_string());
    let wire = render_cursor(&c);
    assert_eq!(wire, "Journal:s=abcdef;i=42");
    assert_eq!(parse_cursor(&wire), Some(c));
}

#[test]
fn manual_cursor_round_trip_plain() {
    let c = CursorType::Manual(Cursor {
        timestamp: "2024-01-01T10:00:00+0000".to_string(),
        data: "[2024-01-01T10:00:00+0000] [ALPM] installed foo (1.0-1)".to_string(),
        offset: 57,
    });
    let wire = render_cursor(&c);
    assert_eq!(
        wire,
        "Manual:{\"timestamp\":\"2024-01-01T10:00:00+0000\",\"data\":\"[2024-01-01T10:00:00+0000] [ALPM] installed foo (1.0-1)\",\"offset\":57}"
    );
    assert_eq!(parse_cursor(&wire), Some(c));
}

#[test]
fn manual_cursor_round_trip_escapes() {
    let c = CursorType::Manual(Cursor {
        timestamp: "a\"b\\c".to_string(),
        data: "line\nwith\ttabs\rand \"quotes\"".to_string(),
        offset: u64::MAX,
    });
    let wire = render_cursor(&c);
    assert_eq!(parse_cursor(&wire), Some(c));
}

#[test]
fn manual_cursor_round_trip_empty_fields() {
    let c = CursorType::Manual(Cursor {
        timestamp: String::new(),
        data: String::new(),
        offset: 0,
    });
    let wire = render_cursor(&c);
    assert_eq!(wire, "Manual:{\"timestamp\":\"\",\"data\":\"\",\"offset\":0}");
    assert_eq!(parse_cursor(&wire), Some(c));
}

#[test]
fn cursor_from_str_parses_the_wire_form() {
    let c: CursorType = "Journal:tok".parse().expect("parses");
    assert_eq!(c, CursorType::Journal("tok".to_string()));
    assert!("garbage".parse::<CursorType>().is_err());
}

#[test]
fn parse_rejects_malformed_cursors() {
    assert!(parse_cursor("").is_none());
    assert!(parse_cursor("Nonsense:abc").is_none());
    assert!(parse_cursor("Manual:{}").is_none());
    assert!(parse_cursor("Manual:{\"timestamp\":\"a\"}").is_none());
    assert!(parse_cursor("Manual:{\"timestamp\":\"a\",\"data\":\"b\",\"offset\":x}").is_none());
    assert!(parse_cursor("Manual:{\"timestamp\":\"a\",\"data\":\"b\",\"offset\":12").is_none());
    // an unterminated escape never parses
    assert!(parse_cursor("Manual:{\"timestamp\":\"a\\").is_none());
    // an offset beyond the unsigned 64-bit range never parses
    assert!(
        parse_cursor("Manual:{\"timestamp\":\"a\",\"data\":\"b\",\"offset\":99999999999999999999}")
            .is_none()
    );
}

#[test]
fn backward_scan_reverses_forward_lines() {
    let content = b"alpha\nbeta\ngamma";
    // from the end: every line, most recent first, the boundary line once
    let lines = read_file_backward(content, content.len());
    assert_eq!(lines, vec!["gamma".to_string(), "beta".to_string(), "alpha".to_string()]);
    // from the end of the second line (its newline included)
    let lines = read_file_backward(content, 11);
    assert_eq!(lines, vec!["beta".to_string(), "alpha".to_string()]);
    // offset zero has nothing before it
    let lines = read_file_backward(content, 0);
    assert!(lines.is_empty());
}

#[test]
fn backward_scan_keeps_every_complete_line() {
    // blank lines are lines too: no byte of the range is lost
    let content = b"one\n\ntwo\n";
    let lines = read_file_backward(content, content.len());
    assert_eq!(lines, vec!["two".to_string(), "".to_string(), "one".to_string()]);
    // a mid-line offset treats the partial line before it as the newest line
    let lines = read_file_backward(b"abcdef", 3);
    assert_eq!(lines, vec!["abc".to_string()]);
    // a trailing terminator closes the last line without opening a new one
    let lines = read_file_backward(b"a\n", 2);
    assert_eq!(lines, vec!["a".to_string()]);
}
