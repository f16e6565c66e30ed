//! Classification engine behaviour: totality over catch-alls, rule
//! ordering, the event-name pre-filter, field extraction, and the
//! per-class parse entry points.

use drashta::events::{AuthEvent, EventData, EventType, KernelEvent, PkgEvent, RawMsgType,
    UserEvent};
use drashta::names::str_to_regex_names;
use drashta::parsers::{format_syslog_timestamp, parse_config_change_events, parse_kernel_events,
    parse_pkg_events, parse_sshd_logs, parse_sudo_login_attempts, parse_user_change_events};

fn entry(pairs: &[(&str, &str)]) -> Vec<(String, String)> {
    pairs.iter().map(|(k, v)| (k.to_string(), v.to_string())).collect()
}

#[test]
fn sshd_auth_success_fields() {
    let e = entry(&[
        ("SYSLOG_TIMESTAMP", "Jan  1 00:00:01"),
        ("MESSAGE", "Accepted password for root from 192.168.1.9 port 22"),
    ]);
    let ev = parse_sshd_logs(e, None).expect("classifies");
    assert_eq!(ev.timestamp, "Jan  1 00:00:01");
    assert_eq!(ev.event_type, EventType::Auth(AuthEvent::Success));
    let expected: Vec<(String, String)> = vec![
        ("user".to_string(), "root".to_string()),
        ("ip".to_string(), "192.168.1.9".to_string()),
        ("port".to_string(), "22".to_string()),
        ("method".to_string(), "password".to_string()),
    ];
    assert_eq!(ev.data, expected);
}

#[test]
fn classification_deterministic() {
    let e = entry(&[("MESSAGE", "Accepted publickey for a from 10.0.0.1 port 2222")]);
    let first = parse_sshd_logs(e.clone(), None).expect("classifies");
    let second = parse_sshd_logs(e, None).expect("classifies");
    assert_eq!(first.event_type, second.event_type);
    assert_eq!(first.data, second.data);
    assert_eq!(first.timestamp, second.timestamp);
}

#[test]
fn catch_all_terminal_rule_wins_unmatched_message() {
    // satisfies no specific sshd pattern beyond WARNING/UNKNOWN; the
    // WARNING rule is itself a near-catch-all and precedes UNKNOWN
    let e = entry(&[("MESSAGE", "something entirely unexpected")]);
    let ev = parse_sshd_logs(e, None).expect("total for nonempty messages");
    assert_eq!(ev.event_type, EventType::Auth(AuthEvent::Warning));
}

#[test]
fn catch_all_unknown_via_prefilter() {
    // with only the catch-all admitted, any nonempty message lands on it
    let e = entry(&[("MESSAGE", "Accepted password for root from 1.2.3.4 port 22")]);
    let ev = parse_sshd_logs(e, Some(vec!["Other".to_string()])).expect("catch-all");
    assert_eq!(ev.event_type, EventType::Auth(AuthEvent::Other));
}

#[test]
fn rule_order_decides_earlier_rule_wins() {
    // matches AUTH_SUCCESS (first rule) and also WARNING and UNKNOWN
    let e = entry(&[("MESSAGE", "Accepted password for root from 1.2.3.4 port 22")]);
    let ev = parse_sshd_logs(e, None).expect("classifies");
    assert_eq!(ev.event_type, EventType::Auth(AuthEvent::Success));
}

#[test]
fn missing_message_field_yields_nothing() {
    let e = entry(&[("SYSLOG_TIMESTAMP", "Jan  1 00:00:01")]);
    assert!(parse_sshd_logs(e, None).is_none());
}

#[test]
fn prefilter_excludes_other_rules() {
    let e = entry(&[("MESSAGE", "Accepted password for root from 1.2.3.4 port 22")]);
    // only the failure rule is admitted and the message does not match it
    assert!(parse_sshd_logs(e, Some(vec!["Failure".to_string()])).is_none());
}

#[test]
fn prefilter_does_not_change_winner_among_remaining() {
    let msg = "error: mild trouble";
    let unfiltered = parse_sshd_logs(entry(&[("MESSAGE", msg)]), None).unwrap();
    let filtered = parse_sshd_logs(
        entry(&[("MESSAGE", msg)]),
        Some(vec!["Warning".to_string(), "Other".to_string()]),
    )
    .unwrap();
    assert_eq!(unfiltered.event_type, EventType::Auth(AuthEvent::Warning));
    assert_eq!(filtered.event_type, unfiltered.event_type);
}

#[test]
fn sudo_session_opened_with_command_seed() {
    let e = entry(&[
        ("SYSLOG_TIMESTAMP", "Feb  2 10:20:30"),
        ("MESSAGE", "pam_unix(sudo:session): session opened for user root(uid=0) by alice(uid=1000)"),
    ]);
    let ev = parse_sudo_login_attempts(e, None).expect("classifies");
    assert_eq!(ev.event_type, EventType::Auth(AuthEvent::SessionOpened));
    let expected: Vec<(String, String)> = vec![
        ("target_user".to_string(), "root".to_string()),
        ("uid".to_string(), "0".to_string()),
        ("invoking_user".to_string(), "alice".to_string()),
        ("invoking_uid".to_string(), "1000".to_string()),
    ];
    assert_eq!(ev.data, expected);
}

#[test]
fn sudo_message_is_trimmed_before_matching() {
    let e = entry(&[("MESSAGE", "  sudo: a warning text  ")]);
    let ev = parse_sudo_login_attempts(e, None).expect("classifies");
    assert_eq!(ev.event_type, EventType::Auth(AuthEvent::Warning));
}

#[test]
fn kernel_oom_kill_fields() {
    let e = entry(&[
        ("_SOURCE_BOOTTIME_TIMESTAMP", "not-a-number"),
        ("MESSAGE", "Out of memory: Killed process 123 (chrome) score 911"),
    ]);
    let ev = parse_kernel_events(e, None).expect("classifies");
    assert_eq!(ev.event_type, EventType::Kernel(KernelEvent::OomKill));
    assert_eq!(ev.timestamp, "invalid");
    let expected: Vec<(String, String)> = vec![
        ("pid".to_string(), "123".to_string()),
        ("process".to_string(), "chrome".to_string()),
        ("score".to_string(), "911".to_string()),
    ];
    assert_eq!(ev.data, expected);
}

#[test]
fn user_change_new_user_fields() {
    let e = entry(&[
        ("SYSLOG_TIMESTAMP", "Mar  3 03:03:03"),
        ("MESSAGE", "new user: name=bob, UID=1001, GID=1001, home=/home/bob, shell=/bin/sh, from=pts/0"),
    ]);
    let ev = parse_user_change_events(e, None).expect("classifies");
    assert_eq!(ev.event_type, EventType::User(UserEvent::NewUser));
    assert_eq!(
        ev.data.iter().find(|(k, _)| k == "name").map(|(_, v)| v.clone()),
        Some("bob".to_string())
    );
    assert_eq!(
        ev.data.iter().find(|(k, _)| k == "pts").map(|(_, v)| v.clone()),
        Some("pts/0".to_string())
    );
}

#[test]
fn config_change_trims_timestamp_and_message() {
    let e = entry(&[
        ("SYSLOG_TIMESTAMP", "  Apr  4 04:04:04 "),
        ("MESSAGE", " (root) CMD (run-parts /etc/cron.hourly) "),
    ]);
    let ev = parse_config_change_events(e, None).expect("classifies");
    assert_eq!(ev.timestamp, "Apr  4 04:04:04");
    assert_eq!(
        ev.data.iter().find(|(k, _)| k == "cron_cmd").map(|(_, v)| v.clone()),
        Some("run-parts /etc/cron.hourly".to_string())
    );
}

#[test]
fn pkg_installed_takes_timestamp_from_capture() {
    let ev = parse_pkg_events(
        "[2024-01-01T10:00:00+0000] [ALPM] installed foo (1.0-1)".to_string(),
        None,
    )
    .expect("classifies");
    assert_eq!(ev.timestamp, "2024-01-01T10:00:00+0000");
    assert_eq!(ev.event_type, EventType::Package(PkgEvent::Installed));
    let expected: Vec<(String, String)> = vec![("pkg_name".to_string(), "foo".to_string())];
    assert_eq!(ev.data, expected);
}

#[test]
fn pkg_upgraded_extracts_versions() {
    let ev = parse_pkg_events(
        "[2024-02-02T11:00:00+0000] [ALPM] upgraded bar (1.0-1 -> 1.1-1)".to_string(),
        None,
    )
    .expect("classifies");
    assert_eq!(ev.event_type, EventType::Package(PkgEvent::Upgraded));
    let expected: Vec<(String, String)> = vec![
        ("pkg_name".to_string(), "bar".to_string()),
        ("version_from".to_string(), "1.0-1".to_string()),
        ("version_to".to_string(), "1.1-1".to_string()),
    ];
    assert_eq!(ev.data, expected);
}

#[test]
fn pkg_has_no_catch_all() {
    assert!(parse_pkg_events("unrelated line".to_string(), None).is_none());
}

#[test]
fn keyword_filter_is_case_insensitive_over_raw_record() {
    let raw = RawMsgType::Structured(entry(&[("MESSAGE", "Accepted PASSWORD for x")]));
    assert!(raw.contains_bytes("password"));
    assert!(raw.contains_bytes("ACCEPTED"));
    assert!(!raw.contains_bytes("nothing-here"));
    // the empty keyword admits everything
    assert!(raw.contains_bytes(""));
    let plain = RawMsgType::Plain("Installed FOO today".to_string());
    assert!(plain.contains_bytes("foo"));
}

#[test]
fn event_name_expansion_table() {
    let both = str_to_regex_names("SessionOpenedSudo");
    assert_eq!(both, vec!["SESSION_OPENED_SUDO".to_string(), "SESSION_OPENED_SU".to_string()]);
    assert_eq!(str_to_regex_names("Success"), vec!["AUTH_SUCCESS".to_string()]);
    assert!(str_to_regex_names("NoSuchName").is_empty());
}

#[test]
fn timestamp_formatting_rejects_non_numbers() {
    assert_eq!(format_syslog_timestamp("woof"), "invalid");
    assert_eq!(format_syslog_timestamp(""), "invalid");
    // a plausible epoch renders through the host time zone: whatever the
    // zone, it is not the failure marker
    assert_ne!(format_syslog_timestamp("1700000000"), "invalid");
    assert_ne!(format_syslog_timestamp("1700000000000000"), "invalid");
}

fn mk_event(ts: &str) -> EventData {
    EventData {
        timestamp: ts.to_string(),
        service: drashta::events::Service::PkgManager,
        event_type: EventType::Package(PkgEvent::Other),
        data: Vec::new(),
        raw_msg: RawMsgType::Plain(ts.to_string()),
    }
}

#[test]
fn tail_buffer_never_exceeds_capacity_and_keeps_freshest() {
    let mut buf = drashta::tail::LiveTailBuffer::new(3);
    for i in 0..7 {
        buf.buffer_event(mk_event(&format!("e{}", i)));
        assert!(buf.len() <= 3);
    }
    // exactly the most recent three, in original order
    let a = buf.pop_oldest().unwrap();
    let b = buf.pop_oldest().unwrap();
    let c = buf.pop_oldest().unwrap();
    assert_eq!(a.timestamp, "e4");
    assert_eq!(b.timestamp, "e5");
    assert_eq!(c.timestamp, "e6");
    assert!(buf.pop_oldest().is_none());
}

#[test]
fn tail_buffer_drain_never_reorders() {
    let mut buf = drashta::tail::LiveTailBuffer::new(5);
    buf.buffer_event(mk_event("x"));
    buf.buffer_event(mk_event("y"));
    // a failed re-publish puts the event back at the front
    let first = buf.pop_oldest().unwrap();
    assert_eq!(first.timestamp, "x");
    buf.restore_oldest(first);
    assert_eq!(buf.pop_oldest().unwrap().timestamp, "x");
    assert_eq!(buf.pop_oldest().unwrap().timestamp, "y");
}
