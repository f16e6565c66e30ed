//! The cursor and pagination protocol over both backends: gap-free
//! forward paging, fingerprint verification, backward pages, the journal
//! token protocol, and the registry dispatch.

use drashta::config::{handle_service_event, lookup_service, ProcessLogType};
use drashta::cursor::{Cursor, CursorType};
use drashta::events::{EventType, PkgEvent, Service};
use drashta::journal::{process_older_logs, process_previous_logs, process_upto_n_entries,
    JournalRecord};
use drashta::paginate::{process_manual_events_next, process_manual_events_previous,
    process_manual_events_upto_n, PaginateError};

fn pkg_line(ts: &str, verb: &str, name: &str, ver: &str) -> String {
    format!("[{}] [ALPM] {} {} ({})", ts, verb, name, ver)
}

fn five_line_log() -> (Vec<u8>, Vec<String>) {
    let lines: Vec<String> = (1..=5)
        .map(|i| pkg_line(&format!("2024-01-0{}T00:00:00+0000", i), "installed", &format!("pkg{}", i), "1.0-1"))
        .collect();
    let mut content = String::new();
    for l in &lines {
        content.push_str(l);
        content.push('\n');
    }
    (content.into_bytes(), lines)
}

#[test]
fn initial_then_older_covers_everything_without_gaps() {
    let (content, lines) = five_line_log();
    let l1 = lines[0].len() + 1;
    let l2 = lines[1].len() + 1;

    let (page1, cur1) = process_manual_events_upto_n(&content, 2, None, None);
    assert_eq!(page1.len(), 2);
    assert_eq!(page1[0].data, vec![("pkg_name".to_string(), "pkg1".to_string())]);
    assert_eq!(page1[1].data, vec![("pkg_name".to_string(), "pkg2".to_string())]);
    let cur1 = cur1.expect("nonempty page returns a cursor");
    assert_eq!(cur1.offset as usize, l1 + l2);
    assert_eq!(cur1.data, lines[1]);
    assert_eq!(cur1.timestamp, "2024-01-02T00:00:00+0000");

    let (page2, cur2) = process_manual_events_next(&content, &cur1, 10, None, None)
        .expect("fingerprint still matches");
    assert_eq!(page2.len(), 3);
    assert_eq!(page2[0].data, vec![("pkg_name".to_string(), "pkg3".to_string())]);
    assert_eq!(page2[2].data, vec![("pkg_name".to_string(), "pkg5".to_string())]);
    let cur2 = cur2.expect("cursor at end of file");
    assert_eq!(cur2.offset as usize, content.len());

    // the file is exhausted: resuming yields an empty page and no cursor
    let (page3, cur3) = process_manual_events_next(&content, &cur2, 10, None, None)
        .expect("fingerprint still matches");
    assert!(page3.is_empty());
    assert!(cur3.is_none());
}

#[test]
fn previous_page_walks_backward_from_cursor() {
    let (content, lines) = five_line_log();
    let (_, cur) = process_manual_events_upto_n(&content, 2, None, None);
    let cur = cur.unwrap();
    let (page, back_cur) = process_manual_events_previous(&content, &cur, 10, None, None)
        .expect("fingerprint matches");
    // most recent first, the fingerprinted line included
    assert_eq!(page.len(), 2);
    assert_eq!(page[0].data, vec![("pkg_name".to_string(), "pkg2".to_string())]);
    assert_eq!(page[1].data, vec![("pkg_name".to_string(), "pkg1".to_string())]);
    let back_cur = back_cur.unwrap();
    assert_eq!(back_cur.offset, cur.offset);
    assert_eq!(back_cur.data, lines[1]);
}

#[test]
fn fingerprint_mismatch_is_a_hard_error() {
    let (content, _) = five_line_log();
    let (_, cur) = process_manual_events_upto_n(&content, 2, None, None);
    let cur = cur.unwrap();
    // rewrite the file so the bytes at the stored offset no longer match
    let rewritten: Vec<u8> =
        String::from_utf8(content.clone()).unwrap().replace("pkg2", "evil").into_bytes();
    assert_eq!(
        process_manual_events_next(&rewritten, &cur, 10, None, None).unwrap_err(),
        PaginateError::FingerprintMismatch
    );
    assert_eq!(
        process_manual_events_previous(&rewritten, &cur, 10, None, None).unwrap_err(),
        PaginateError::FingerprintMismatch
    );
    // truncation beyond the offset is detected too
    let truncated = &content[..10];
    assert_eq!(
        process_manual_events_next(truncated, &cur, 10, None, None).unwrap_err(),
        PaginateError::FingerprintMismatch
    );
}

#[test]
fn keyword_and_event_filters_bound_the_page() {
    let (content, _) = five_line_log();
    let (page, _) = process_manual_events_upto_n(&content, 10, None, Some("PKG3".to_string()));
    assert_eq!(page.len(), 1);
    assert_eq!(page[0].data, vec![("pkg_name".to_string(), "pkg3".to_string())]);
    // an event-type filter that admits no install rule leaves the page empty
    let (page, cur) = process_manual_events_upto_n(
        &content,
        10,
        Some(vec!["PkgRemoved".to_string()]),
        None,
    );
    assert!(page.is_empty());
    assert!(cur.is_none());
    // a zero limit emits nothing
    let (page, cur) = process_manual_events_upto_n(&content, 0, None, None);
    assert!(page.is_empty());
    assert!(cur.is_none());
}

fn journal_snapshot() -> Vec<JournalRecord> {
    let msgs = [
        "Accepted password for root from 10.0.0.1 port 22",
        "plain chatter",
        "Failed password for invalid user eve from 10.0.0.9 port 4444",
        "Accepted publickey for bob from 10.0.0.2 port 22",
    ];
    msgs.iter()
        .enumerate()
        .map(|(i, m)| JournalRecord {
            fields: vec![
                ("MESSAGE".to_string(), m.to_string()),
                ("SYSLOG_TIMESTAMP".to_string(), format!("ts{}", i)),
            ],
            token: format!("tok{}", i),
        })
        .collect()
}

#[test]
fn journal_initial_counts_only_matching_events() {
    let records = journal_snapshot();
    // the keyword admits only the two accepted records
    let (page, token) = process_upto_n_entries(
        &records,
        Service::Sshd,
        1,
        &None,
        &Some("Accepted".to_string()),
    );
    assert_eq!(page.len(), 1);
    assert_eq!(page[0].timestamp, "ts0");
    // consumption stops at the first match: its token comes back
    assert_eq!(token, Some("tok0".to_string()));
}

#[test]
fn journal_older_resumes_after_token_without_overlap() {
    let records = journal_snapshot();
    let (page1, token1) = process_upto_n_entries(&records, Service::Sshd, 2, &None, &None);
    assert_eq!(page1.len(), 2);
    let token1 = token1.unwrap();
    let (page2, token2) =
        process_older_logs(&records, Service::Sshd, &token1, 10, &None, &None).unwrap();
    // every record classifies under the sshd catch-alls: pages partition them
    assert_eq!(page1.len() + page2.len(), records.len());
    assert_eq!(page2[0].timestamp, "ts2");
    assert_eq!(token2, Some("tok3".to_string()));
    // and an unknown token is a hard error
    assert_eq!(
        process_older_logs(&records, Service::Sshd, "bogus", 10, &None, &None).unwrap_err(),
        PaginateError::CursorNotFound
    );
    // an exhausted resume echoes the input token: the resume point is kept
    let (page3, token3) =
        process_older_logs(&records, Service::Sshd, "tok3", 10, &None, &None).unwrap();
    assert!(page3.is_empty());
    assert_eq!(token3, Some("tok3".to_string()));
}

#[test]
fn journal_previous_walks_backward_excluding_the_token_record() {
    let records = journal_snapshot();
    let (page, token) =
        process_previous_logs(&records, Service::Sshd, "tok2", 10, &None, &None).unwrap();
    assert_eq!(page.len(), 2);
    assert_eq!(page[0].timestamp, "ts1");
    assert_eq!(page[1].timestamp, "ts0");
    assert_eq!(token, Some("tok0".to_string()));
    // nothing precedes the first record: the input token comes back
    let (page, token) =
        process_previous_logs(&records, Service::Sshd, "tok0", 10, &None, &None).unwrap();
    assert!(page.is_empty());
    assert_eq!(token, Some("tok0".to_string()));
}

#[test]
fn dispatch_resolves_the_registry() {
    let records = journal_snapshot();
    let (content, _) = five_line_log();

    let err = handle_service_event(
        "no-such.events",
        &records,
        &content,
        ProcessLogType::ProcessInitialLogs,
        None,
        5,
        &None,
        &None,
    )
    .unwrap_err();
    assert_eq!(err, PaginateError::UnknownService);

    let (page, cur) = handle_service_event(
        "pkgmanager.events",
        &records,
        &content,
        ProcessLogType::ProcessInitialLogs,
        None,
        2,
        &None,
        &None,
    )
    .unwrap();
    assert_eq!(page.len(), 2);
    assert_eq!(page[0].event_type, EventType::Package(PkgEvent::Installed));
    let cur = match cur {
        Some(CursorType::Manual(c)) => c,
        other => panic!("manual cursor expected, got {:?}", other),
    };

    // the flat backend refuses a journal-shaped cursor, and directions
    // that need a cursor refuse its absence
    let err = handle_service_event(
        "pkgmanager.events",
        &records,
        &content,
        ProcessLogType::ProcessOlderLogs,
        Some(&CursorType::Journal("tok0".to_string())),
        2,
        &None,
        &None,
    )
    .unwrap_err();
    assert_eq!(err, PaginateError::WrongCursorKind);
    let err = handle_service_event(
        "pkgmanager.events",
        &records,
        &content,
        ProcessLogType::ProcessOlderLogs,
        None,
        2,
        &None,
        &None,
    )
    .unwrap_err();
    assert_eq!(err, PaginateError::MissingCursor);

    // the journal backend refuses a manual-shaped cursor
    let err = handle_service_event(
        "sshd.events",
        &records,
        &content,
        ProcessLogType::ProcessPreviousLogs,
        Some(&CursorType::Manual(cur)),
        2,
        &None,
        &None,
    )
    .unwrap_err();
    assert_eq!(err, PaginateError::WrongCursorKind);

    let (page, cur) = handle_service_event(
        "sshd.events",
        &records,
        &content,
        ProcessLogType::ProcessInitialLogs,
        None,
        10,
        &None,
        &None,
    )
    .unwrap();
    assert_eq!(page.len(), 4);
    assert!(matches!(cur, Some(CursorType::Journal(_))));
}

#[test]
fn registry_knows_all_classes() {
    let configs = drashta::config::get_service_configs();
    assert_eq!(configs.len(), 9);
    let c = lookup_service("sshd.events").unwrap();
    assert_eq!(c.service, Service::Sshd);
    assert!(!c.manual);
    assert_eq!(c.matches[0], ("_COMM".to_string(), "sshd".to_string()));
    let c = lookup_service("pkgmanager.events").unwrap();
    assert!(c.manual);
    assert!(lookup_service("other").is_none());
    assert!(
        PaginateError::UnknownService.message().len() > 0
            && PaginateError::FingerprintMismatch.message().len() > 0
    );
}
