//! The per-class entry points of the classification engine.  Each takes a
//! raw record (a journal field map, or one flat-file line), the optional
//! requested event names, and yields the classified event for its log
//! class: the first matching rule of the class's table decides the kind
//! and the extracted fields.
//!
//! Timestamps are backend-specific: classes whose records carry a textual
//! syslog timestamp use it as is (trimmed where the underlying field is
//! padded); classes with only a numeric epoch field convert it to the
//! host's local display format, so that text depends on the host time zone
//! and the contracts do not pin it; the flat-file class takes the
//! timestamp from its rules' own first capture.

use chrono::TimeZone;

use vstd::prelude::*;

use crate::classify::{allow_view, classify_rules, extract_fields, spec_classify, spec_extract,
    spec_win_groups};
use crate::events::{entry_get, entry_view, spec_entry_get, Entry, EventData, EventType,
    RawMsgType, RawView, Service};
use crate::names::{spec_regex_names, str_to_regex_names};
use crate::rules::{fld, rules_view, RuleView};
use crate::tables::{cron_rules, firewalld_rules, kernel_rules, login_rules, network_rules,
    pkg_rules, spec_cron_rules, spec_cron_valid, spec_firewalld_rules, spec_firewalld_valid,
    spec_kernel_rules, spec_kernel_valid, spec_login_rules, spec_login_valid, spec_network_rules,
    spec_network_valid, spec_pkg_rules, spec_pkg_valid, spec_sshd_rules, spec_sshd_valid,
    spec_sudo_rules, spec_sudo_valid, spec_user_rules, spec_user_valid, sshd_rules, sudo_rules,
    user_rules};
use crate::rules::rx_captures;
use crate::text::{parse_dec_i64, spec_parse_i64, substring_copy};

verus! {

/// The whitespace the trimmers strip: blank, tab, newline, carriage return.
pub open spec fn is_ws(c: char) -> bool {
    c == ' ' || c == '\t' || c == '\n' || c == '\r'
}

/// Whitespace test on one character.
fn is_ws_char(c: char) -> (r: bool)
    ensures
        r == is_ws(c),
{
    c == ' ' || c == '\t' || c == '\n' || c == '\r'
}

/// The sequence with leading whitespace removed.
pub open spec fn trim_front(s: Seq<char>) -> Seq<char>
    decreases s.len(),
{
    if s.len() > 0 && is_ws(s[0]) {
        trim_front(s.skip(1))
    } else {
        s
    }
}

/// The sequence with trailing whitespace removed.
pub open spec fn trim_back(s: Seq<char>) -> Seq<char>
    decreases s.len(),
{
    if s.len() > 0 && is_ws(s.last()) {
        trim_back(s.drop_last())
    } else {
        s
    }
}

/// The sequence with whitespace removed at both ends.
pub open spec fn spec_trim(s: Seq<char>) -> Seq<char> {
    trim_back(trim_front(s))
}

/// Strips trailing whitespace.
pub fn trim_end_str(s: &str) -> (r: String)
    ensures
        r@ == trim_back(s@),
{
    let n: usize = s.unicode_len();
    let mut b: usize = n;
    proof {
        assert(s@.subrange(0, n as int) =~= s@);
    }
    while b > 0 && is_ws_char(s.get_char(b - 1))
        invariant
            b <= n,
            n == s@.len(),
            trim_back(s@) == trim_back(s@.subrange(0, b as int)),
        decreases b,
    {
        proof {
            let sub = s@.subrange(0, b as int);
            assert(sub.last() == s@[b - 1]);
            assert(sub.drop_last() =~= s@.subrange(0, b - 1));
        }
        b -= 1;
    }
    proof {
        let sub = s@.subrange(0, b as int);
        if b > 0 {
            assert(sub.last() == s@[b - 1]);
            assert(!is_ws(sub.last()));
        }
        assert(trim_back(sub) == sub);
    }
    substring_copy(s, 0, b)
}

/// Strips whitespace at both ends.
pub fn trim_str(s: &str) -> (r: String)
    ensures
        r@ == spec_trim(s@),
{
    let n: usize = s.unicode_len();
    let mut a: usize = 0;
    proof {
        assert(s@.skip(0) =~= s@);
    }
    while a < n && is_ws_char(s.get_char(a))
        invariant
            a <= n,
            n == s@.len(),
            trim_front(s@) == trim_front(s@.skip(a as int)),
        decreases n - a,
    {
        proof {
            assert(s@.skip(a as int)[0] == s@[a as int]);
            assert(s@.skip(a as int).skip(1) =~= s@.skip(a + 1));
        }
        a += 1;
    }
    proof {
        if a < n {
            assert(s@.skip(a as int)[0] == s@[a as int]);
        }
        assert(trim_front(s@.skip(a as int)) == s@.skip(a as int));
    }
    let mut b: usize = n;
    proof {
        assert(s@.subrange(a as int, n as int) =~= s@.skip(a as int));
    }
    while b > a && is_ws_char(s.get_char(b - 1))
        invariant
            a <= b <= n,
            n == s@.len(),
            trim_back(s@.skip(a as int)) == trim_back(s@.subrange(a as int, b as int)),
        decreases b,
    {
        proof {
            let sub = s@.subrange(a as int, b as int);
            assert(sub.last() == s@[b - 1]);
            assert(sub.drop_last() =~= s@.subrange(a as int, b - 1));
        }
        b -= 1;
    }
    proof {
        let sub = s@.subrange(a as int, b as int);
        if b > a {
            assert(sub.last() == s@[b - 1]);
            assert(!is_ws(sub.last()));
        }
        assert(trim_back(sub) == sub);
    }
    substring_copy(s, a, b)
}

/// Relies on chrono's Local::timestamp_micros: whether a microsecond
/// epoch converts is a fixed property of the value (out of range gives
/// nothing, anything else a single instant).
pub uninterp spec fn accepts_micros(v: i64) -> bool;

/// Relies on chrono's Local::timestamp_millis_opt: whether a millisecond
/// epoch converts is a fixed property of the value.
pub uninterp spec fn accepts_millis(v: i64) -> bool;

/// Relies on chrono's Local::timestamp_opt: whether a second epoch
/// converts is a fixed property of the value.
pub uninterp spec fn accepts_secs(v: i64) -> bool;

/// Relies on chrono's Local::timestamp_micros and formatting: conversion
/// succeeds exactly when the value is in range, a fixed property of the
/// value; the text depends on the host's time zone, but the format
/// (three-letter month, space-padded day, six clock digits) is always
/// fifteen characters.
#[verifier::external_body]
fn fmt_epoch_micros(v: i64) -> (r: Option<String>)
    ensures
        r is Some <==> accepts_micros(v),
        r matches Some(t) ==> t@.len() == 15,
{
    chrono::Local.timestamp_micros(v).single().map(|dt| dt.format("%b %e %H:%M:%S").to_string())
}

/// Relies on chrono's Local::timestamp_millis_opt and formatting, as the
/// microsecond wrapper does.
#[verifier::external_body]
fn fmt_epoch_millis(v: i64) -> (r: Option<String>)
    ensures
        r is Some <==> accepts_millis(v),
        r matches Some(t) ==> t@.len() == 15,
{
    chrono::Local.timestamp_millis_opt(v).single().map(
        |dt| dt.format("%b %e %H:%M:%S").to_string(),
    )
}

/// Relies on chrono's Local::timestamp_opt and formatting, as the
/// microsecond wrapper does.
#[verifier::external_body]
fn fmt_epoch_secs(v: i64) -> (r: Option<String>)
    ensures
        r is Some <==> accepts_secs(v),
        r matches Some(t) ==> t@.len() == 15,
{
    chrono::Local.timestamp_opt(v, 0).single().map(|dt| dt.format("%b %e %H:%M:%S").to_string())
}

/// Whether the calendar accepts an epoch value at the scale its magnitude
/// selects: above 10^15 microseconds, above 10^10 milliseconds, anything
/// else seconds.
pub open spec fn spec_epoch_accepted(v: i64) -> bool {
    if v > 1_000_000_000_000_000i64 {
        accepts_micros(v)
    } else if v > 10_000_000_000i64 {
        accepts_millis(v)
    } else {
        accepts_secs(v)
    }
}

/// Whether a raw timestamp field renders: it must parse as a signed
/// 64-bit number and the calendar must accept it at the selected scale.
pub open spec fn spec_ts_renders(ts: Seq<char>) -> bool {
    &&& spec_parse_i64(ts) matches Some(m)
    &&& i64::MIN <= spec_parse_i64(ts)->0 <= i64::MAX
    &&& spec_epoch_accepted(spec_parse_i64(ts)->0 as i64)
}

/// Renders a numeric journal timestamp for display.  The result is the
/// failure marker `invalid` exactly when the field does not render; a
/// rendered timestamp is the fifteen-character local display, whose text
/// comes from the host's time zone.
pub fn format_syslog_timestamp(ts_str: &str) -> (r: String)
    ensures
        r@ == "invalid"@ <==> !spec_ts_renders(ts_str@),
        spec_ts_renders(ts_str@) ==> r@.len() == 15,
{
    proof {
        reveal_strlit("invalid");
    }
    match parse_dec_i64(ts_str) {
        None => String::from_str("invalid"),
        Some(value) => {
            let formatted: Option<String> = if value > 1_000_000_000_000_000i64 {
                fmt_epoch_micros(value)
            } else if value > 10_000_000_000i64 {
                fmt_epoch_millis(value)
            } else {
                fmt_epoch_secs(value)
            };
            match formatted {
                Some(s) => {
                    assert(s@ != "invalid"@) by {
                        assert(s@.len() == 15 && "invalid"@.len() == 7);
                    }
                    s
                },
                None => String::from_str("invalid"),
            }
        },
    }
}

/// The allow list that a list of requested event names expands to, in
/// order.
pub open spec fn spec_expand(evs: Seq<Seq<char>>) -> Seq<Seq<char>>
    decreases evs.len(),
{
    if evs.len() == 0 {
        Seq::empty()
    } else {
        spec_regex_names(evs[0]) + spec_expand(evs.skip(1))
    }
}

/// The ghost view of an optional name list.
pub open spec fn opt_deep(o: Option<Vec<String>>) -> Option<Seq<Seq<char>>> {
    match o {
        None => None,
        Some(v) => Some(v.deep_view()),
    }
}

/// The expanded allow list a request's event names stand for.
pub open spec fn spec_allow_of(o: Option<Vec<String>>) -> Option<Seq<Seq<char>>> {
    match o {
        None => None,
        Some(v) => Some(spec_expand(v.deep_view())),
    }
}

/// Expands each requested event name through the fixed lookup, in order.
fn expand_event_names(evs: &Vec<String>) -> (r: Vec<String>)
    ensures
        r.deep_view() == spec_expand(evs.deep_view()),
{
    let n = evs.len();
    let mut r: Vec<String> = Vec::new();
    let mut i: usize = 0;
    proof {
        assert(evs.deep_view().skip(0) =~= evs.deep_view());
        assert(r.deep_view() =~= Seq::<Seq<char>>::empty());
        lemma_expand_empty_prefix(evs.deep_view());
    }
    while i < n
        invariant
            i <= n,
            n == evs@.len(),
            spec_expand(evs.deep_view()) == r.deep_view() + spec_expand(
                evs.deep_view().skip(i as int),
            ),
        decreases n - i,
    {
        let ghost pre = r.deep_view();
        let names = str_to_regex_names(evs[i].as_str());
        let ghost nv = names.deep_view();
        let m = names.len();
        let mut j: usize = 0;
        proof {
            assert(pre + nv.take(0) =~= pre);
        }
        while j < m
            invariant
                j <= m,
                m == names@.len(),
                nv == names.deep_view(),
                r.deep_view() == pre + nv.take(j as int),
            decreases m - j,
        {
            let ghost k = pre.len() as int + j as int;
            let ghost old_dv = r.deep_view();
            let ghost old_rv = r@;
            proof {
                assert(old_dv.len() == old_rv.len());
                assert(old_rv.len() == k);
            }
            let x = names[j].clone();
            assert(x@ == nv[j as int]) by {
                assert(nv[j as int] == names@[j as int]@);
            }
            r.push(x);
            proof {
                assert(r@ == old_rv.push(x));
                assert forall|q: int| 0 <= q <= k implies r.deep_view()[q] == (pre + nv.take(
                    j + 1,
                ))[q] by {
                    if q < k {
                        assert(r@[q] == old_rv[q]);
                        assert(r.deep_view()[q] == old_dv[q]);
                        assert(old_dv[q] == (pre + nv.take(j as int))[q]);
                        if q < pre.len() {
                            assert((pre + nv.take(j + 1))[q] == pre[q]);
                        } else {
                            assert((pre + nv.take(j + 1))[q] == nv[q - pre.len()]);
                            assert((pre + nv.take(j as int))[q] == nv[q - pre.len()]);
                        }
                    } else {
                        assert(r@[k] == x);
                        assert(r.deep_view()[k] == x@);
                        assert((pre + nv.take(j + 1))[k] == nv[j as int]);
                    }
                }
                assert(r.deep_view() =~= pre + nv.take(j + 1));
            }
            j += 1;
        }
        proof {
            let dv = evs.deep_view();
            assert(nv.take(m as int) =~= nv);
            assert(dv.skip(i as int)[0] == evs@[i as int]@);
            assert(dv.skip(i as int).skip(1) =~= dv.skip(i + 1));
            assert(spec_expand(dv.skip(i as int)) == nv + spec_expand(dv.skip(i + 1)));
            assert(pre + (nv + spec_expand(dv.skip(i + 1))) =~= (pre + nv) + spec_expand(
                dv.skip(i + 1),
            ));
        }
        i += 1;
    }
    proof {
        assert(evs.deep_view().skip(n as int) =~= Seq::<Seq<char>>::empty());
        assert(spec_expand(Seq::<Seq<char>>::empty()) =~= Seq::<Seq<char>>::empty());
        assert(r.deep_view() + Seq::<Seq<char>>::empty() =~= r.deep_view());
    }
    r
}

/// Expands the optional requested event names into the optional allow
/// list the classifier takes.
pub fn expand_opt(ev_type: &Option<Vec<String>>) -> (r: Option<Vec<String>>)
    ensures
        opt_deep(r) == spec_allow_of(*ev_type),
{
    match ev_type {
        None => None,
        Some(v) => Some(expand_event_names(v)),
    }
}

/// Expanding no names yields no names.
proof fn lemma_expand_empty_prefix(evs: Seq<Seq<char>>)
    ensures
        spec_expand(evs) == Seq::<Seq<char>>::empty() + spec_expand(evs),
{
    assert(Seq::<Seq<char>>::empty() + spec_expand(evs) =~= spec_expand(evs));
}

/// A structured record's field value, or the empty text when absent.
pub open spec fn spec_get_or_empty(e: Seq<(Seq<char>, Seq<char>)>, k: Seq<char>) -> Seq<char> {
    match spec_entry_get(e, k) {
        Some(v) => v,
        None => Seq::empty(),
    }
}

/// The classification outcome for a structured record: nothing without a
/// message field, else the table's verdict on the (possibly trimmed)
/// message.
pub open spec fn spec_classify_message(
    table: Seq<RuleView>,
    e: Seq<(Seq<char>, Seq<char>)>,
    allow: Option<Seq<Seq<char>>>,
    trimmed: bool,
    seed: Seq<(Seq<char>, Seq<char>)>,
) -> Option<(EventType, Seq<(Seq<char>, Seq<char>)>)> {
    match spec_entry_get(e, "MESSAGE"@) {
        None => None,
        Some(m0) => spec_classify(
            table,
            allow,
            seed,
            if trimmed {
                spec_trim(m0)
            } else {
                m0
            },
        ),
    }
}

/// Looks a field up, defaulting to the empty string.
fn get_or_empty(e: &Entry, key: &str) -> (r: String)
    ensures
        r@ == spec_get_or_empty(entry_view(e@), key@),
{
    match entry_get(e, key) {
        Some(t) => t,
        None => String::new(),
    }
}

/// Classifies one ssh daemon journal entry.
pub fn parse_sshd_logs(entry_map: Entry, ev_type: Option<Vec<String>>) -> (r: Option<EventData>)
    ensures
        !spec_sshd_valid() ==> r is None,
        spec_sshd_valid() ==> match r {
            Some(ev) => {
                &&& spec_classify_message(
                    spec_sshd_rules(),
                    entry_view(entry_map@),
                    spec_allow_of(ev_type),
                    false,
                    Seq::empty(),
                ) == Some((ev@.event_type, ev@.data))
                &&& ev@.service == Service::Sshd
                &&& ev@.raw_msg == RawView::Structured(entry_view(entry_map@))
                &&& ev@.timestamp == spec_get_or_empty(entry_view(entry_map@), "SYSLOG_TIMESTAMP"@)
            },
            None => spec_classify_message(
                spec_sshd_rules(),
                entry_view(entry_map@),
                spec_allow_of(ev_type),
                false,
                Seq::empty(),
            ) is None,
        },
{
    let timestamp = get_or_empty(&entry_map, "SYSLOG_TIMESTAMP");
    let msg = match entry_get(&entry_map, "MESSAGE") {
        Some(m) => m,
        None => {
            return None;
        },
    };
    
    let table = match sshd_rules() {
        Some(t) => t,
        None => {
            return None;
        },
    };
    let allow = expand_opt(&ev_type);
    let allow_ref = allow.as_ref();
    assert(allow_view(allow_ref) == spec_allow_of(ev_type));
    let seed: Vec<(String, String)> = Vec::new();
    assert(entry_view(seed@) =~= Seq::<(Seq<char>, Seq<char>)>::empty());
    match classify_rules(&table, allow_ref, seed, msg.as_str()) {
        Some(p) => Some(
            EventData {
                timestamp,
                service: Service::Sshd,
                event_type: p.0,
                data: p.1,
                raw_msg: RawMsgType::Structured(entry_map),
            },
        ),
        None => None,
    }
}

/// Classifies one user- or group-account-change journal entry.
pub fn parse_user_change_events(entry_map: Entry, ev_type: Option<Vec<String>>) -> (r: Option<EventData>)
    ensures
        !spec_user_valid() ==> r is None,
        spec_user_valid() ==> match r {
            Some(ev) => {
                &&& spec_classify_message(
                    spec_user_rules(),
                    entry_view(entry_map@),
                    spec_allow_of(ev_type),
                    false,
                    Seq::empty(),
                ) == Some((ev@.event_type, ev@.data))
                &&& ev@.service == Service::UserChange
                &&& ev@.raw_msg == RawView::Structured(entry_view(entry_map@))
                &&& ev@.timestamp == spec_get_or_empty(entry_view(entry_map@), "SYSLOG_TIMESTAMP"@)
            },
            None => spec_classify_message(
                spec_user_rules(),
                entry_view(entry_map@),
                spec_allow_of(ev_type),
                false,
                Seq::empty(),
            ) is None,
        },
{
    let timestamp = get_or_empty(&entry_map, "SYSLOG_TIMESTAMP");
    let msg = match entry_get(&entry_map, "MESSAGE") {
        Some(m) => m,
        None => {
            return None;
        },
    };
    
    let table = match user_rules() {
        Some(t) => t,
        None => {
            return None;
        },
    };
    let allow = expand_opt(&ev_type);
    let allow_ref = allow.as_ref();
    assert(allow_view(allow_ref) == spec_allow_of(ev_type));
    let seed: Vec<(String, String)> = Vec::new();
    assert(entry_view(seed@) =~= Seq::<(Seq<char>, Seq<char>)>::empty());
    match classify_rules(&table, allow_ref, seed, msg.as_str()) {
        Some(p) => Some(
            EventData {
                timestamp,
                service: Service::UserChange,
                event_type: p.0,
                data: p.1,
                raw_msg: RawMsgType::Structured(entry_map),
            },
        ),
        None => None,
    }
}

/// Classifies one firewalld journal entry.
pub fn parse_firewalld_events(entry_map: Entry, ev_type: Option<Vec<String>>) -> (r: Option<EventData>)
    ensures
        !spec_firewalld_valid() ==> r is None,
        spec_firewalld_valid() ==> match r {
            Some(ev) => {
                &&& spec_classify_message(
                    spec_firewalld_rules(),
                    entry_view(entry_map@),
                    spec_allow_of(ev_type),
                    false,
                    Seq::empty(),
                ) == Some((ev@.event_type, ev@.data))
                &&& ev@.service == Service::Firewalld
                &&& ev@.raw_msg == RawView::Structured(entry_view(entry_map@))
                &&& ev@.timestamp == spec_get_or_empty(entry_view(entry_map@), "SYSLOG_TIMESTAMP"@)
            },
            None => spec_classify_message(
                spec_firewalld_rules(),
                entry_view(entry_map@),
                spec_allow_of(ev_type),
                false,
                Seq::empty(),
            ) is None,
        },
{
    let timestamp = get_or_empty(&entry_map, "SYSLOG_TIMESTAMP");
    let msg = match entry_get(&entry_map, "MESSAGE") {
        Some(m) => m,
        None => {
            return None;
        },
    };
    
    let table = match firewalld_rules() {
        Some(t) => t,
        None => {
            return None;
        },
    };
    let allow = expand_opt(&ev_type);
    let allow_ref = allow.as_ref();
    assert(allow_view(allow_ref) == spec_allow_of(ev_type));
    let seed: Vec<(String, String)> = Vec::new();
    assert(entry_view(seed@) =~= Seq::<(Seq<char>, Seq<char>)>::empty());
    match classify_rules(&table, allow_ref, seed, msg.as_str()) {
        Some(p) => Some(
            EventData {
                timestamp,
                service: Service::Firewalld,
                event_type: p.0,
                data: p.1,
                raw_msg: RawMsgType::Structured(entry_map),
            },
        ),
        None => None,
    }
}

/// Classifies one login journal entry.  The display timestamp converts
/// the entry's realtime epoch field through the host's local time zone:
/// it is the failure marker exactly when the field does not render, and
/// fifteen characters of local display when it does.
pub fn parse_login_attempts(entry_map: Entry, ev_type: Option<Vec<String>>) -> (r: Option<EventData>)
    ensures
        !spec_login_valid() ==> r is None,
        spec_login_valid() ==> match r {
            Some(ev) => {
                &&& spec_classify_message(
                    spec_login_rules(),
                    entry_view(entry_map@),
                    spec_allow_of(ev_type),
                    false,
                    Seq::empty(),
                ) == Some((ev@.event_type, ev@.data))
                &&& ev@.service == Service::Login
                &&& ev@.raw_msg == RawView::Structured(entry_view(entry_map@))
                &&& (ev@.timestamp == "invalid"@ <==> !spec_ts_renders(
                    spec_get_or_empty(entry_view(entry_map@), "_SOURCE_REALTIME_TIMESTAMP"@),
                ))
                &&& (spec_ts_renders(
                    spec_get_or_empty(entry_view(entry_map@), "_SOURCE_REALTIME_TIMESTAMP"@),
                ) ==> ev@.timestamp.len() == 15)
            },
            None => spec_classify_message(
                spec_login_rules(),
                entry_view(entry_map@),
                spec_allow_of(ev_type),
                false,
                Seq::empty(),
            ) is None,
        },
{
    let ts_raw = get_or_empty(&entry_map, "_SOURCE_REALTIME_TIMESTAMP");
    let timestamp = format_syslog_timestamp(ts_raw.as_str());
    let msg = match entry_get(&entry_map, "MESSAGE") {
        Some(m) => m,
        None => {
            return None;
        },
    };
    
    let table = match login_rules() {
        Some(t) => t,
        None => {
            return None;
        },
    };
    let allow = expand_opt(&ev_type);
    let allow_ref = allow.as_ref();
    assert(allow_view(allow_ref) == spec_allow_of(ev_type));
    let seed: Vec<(String, String)> = Vec::new();
    assert(entry_view(seed@) =~= Seq::<(Seq<char>, Seq<char>)>::empty());
    match classify_rules(&table, allow_ref, seed, msg.as_str()) {
        Some(p) => Some(
            EventData {
                timestamp,
                service: Service::Login,
                event_type: p.0,
                data: p.1,
                raw_msg: RawMsgType::Structured(entry_map),
            },
        ),
        None => None,
    }
}

/// Classifies one kernel journal entry.  The display timestamp converts
/// the entry's boottime epoch field through the host's local time zone:
/// it is the failure marker exactly when the field does not render, and
/// fifteen characters of local display when it does.
pub fn parse_kernel_events(entry_map: Entry, ev_type: Option<Vec<String>>) -> (r: Option<EventData>)
    ensures
        !spec_kernel_valid() ==> r is None,
        spec_kernel_valid() ==> match r {
            Some(ev) => {
                &&& spec_classify_message(
                    spec_kernel_rules(),
                    entry_view(entry_map@),
                    spec_allow_of(ev_type),
                    false,
                    Seq::empty(),
                ) == Some((ev@.event_type, ev@.data))
                &&& ev@.service == Service::Kernel
                &&& ev@.raw_msg == RawView::Structured(entry_view(entry_map@))
                &&& (ev@.timestamp == "invalid"@ <==> !spec_ts_renders(
                    spec_get_or_empty(entry_view(entry_map@), "_SOURCE_BOOTTIME_TIMESTAMP"@),
                ))
                &&& (spec_ts_renders(
                    spec_get_or_empty(entry_view(entry_map@), "_SOURCE_BOOTTIME_TIMESTAMP"@),
                ) ==> ev@.timestamp.len() == 15)
            },
            None => spec_classify_message(
                spec_kernel_rules(),
                entry_view(entry_map@),
                spec_allow_of(ev_type),
                false,
                Seq::empty(),
            ) is None,
        },
{
    let ts_raw = get_or_empty(&entry_map, "_SOURCE_BOOTTIME_TIMESTAMP");
    let timestamp = format_syslog_timestamp(ts_raw.as_str());
    let msg = match entry_get(&entry_map, "MESSAGE") {
        Some(m) => m,
        None => {
            return None;
        },
    };
    
    let table = match kernel_rules() {
        Some(t) => t,
        None => {
            return None;
        },
    };
    let allow = expand_opt(&ev_type);
    let allow_ref = allow.as_ref();
    assert(allow_view(allow_ref) == spec_allow_of(ev_type));
    let seed: Vec<(String, String)> = Vec::new();
    assert(entry_view(seed@) =~= Seq::<(Seq<char>, Seq<char>)>::empty());
    match classify_rules(&table, allow_ref, seed, msg.as_str()) {
        Some(p) => Some(
            EventData {
                timestamp,
                service: Service::Kernel,
                event_type: p.0,
                data: p.1,
                raw_msg: RawMsgType::Structured(entry_map),
            },
        ),
        None => None,
    }
}

/// Classifies one NetworkManager journal entry.  The display timestamp
/// converts the entry's realtime epoch field through the host's local
/// time zone: it is the failure marker exactly when the field does not
/// render, and fifteen characters of local display when it does.
pub fn parse_network_events(entry_map: Entry, ev_type: Option<Vec<String>>) -> (r: Option<EventData>)
    ensures
        !spec_network_valid() ==> r is None,
        spec_network_valid() ==> match r {
            Some(ev) => {
                &&& spec_classify_message(
                    spec_network_rules(),
                    entry_view(entry_map@),
                    spec_allow_of(ev_type),
                    false,
                    Seq::empty(),
                ) == Some((ev@.event_type, ev@.data))
                &&& ev@.service == Service::NetworkManager
                &&& ev@.raw_msg == RawView::Structured(entry_view(entry_map@))
                &&& (ev@.timestamp == "invalid"@ <==> !spec_ts_renders(
                    spec_get_or_empty(entry_view(entry_map@), "_SOURCE_REALTIME_TIMESTAMP"@),
                ))
                &&& (spec_ts_renders(
                    spec_get_or_empty(entry_view(entry_map@), "_SOURCE_REALTIME_TIMESTAMP"@),
                ) ==> ev@.timestamp.len() == 15)
            },
            None => spec_classify_message(
                spec_network_rules(),
                entry_view(entry_map@),
                spec_allow_of(ev_type),
                false,
                Seq::empty(),
            ) is None,
        },
{
    let ts_raw = get_or_empty(&entry_map, "_SOURCE_REALTIME_TIMESTAMP");
    let timestamp = format_syslog_timestamp(ts_raw.as_str());
    let msg = match entry_get(&entry_map, "MESSAGE") {
        Some(m) => m,
        None => {
            return None;
        },
    };
    
    let table = match network_rules() {
        Some(t) => t,
        None => {
            return None;
        },
    };
    let allow = expand_opt(&ev_type);
    let allow_ref = allow.as_ref();
    assert(allow_view(allow_ref) == spec_allow_of(ev_type));
    let seed: Vec<(String, String)> = Vec::new();
    assert(entry_view(seed@) =~= Seq::<(Seq<char>, Seq<char>)>::empty());
    match classify_rules(&table, allow_ref, seed, msg.as_str()) {
        Some(p) => Some(
            EventData {
                timestamp,
                service: Service::NetworkManager,
                event_type: p.0,
                data: p.1,
                raw_msg: RawMsgType::Structured(entry_map),
            },
        ),
        None => None,
    }
}

/// Classifies one cron journal entry: the message and the syslog
/// timestamp are trimmed, as the cron daemon pads both.
pub fn parse_config_change_events(entry_map: Entry, ev_type: Option<Vec<String>>) -> (r: Option<EventData>)
    ensures
        !spec_cron_valid() ==> r is None,
        spec_cron_valid() ==> match r {
            Some(ev) => {
                &&& spec_classify_message(
                    spec_cron_rules(),
                    entry_view(entry_map@),
                    spec_allow_of(ev_type),
                    true,
                    Seq::empty(),
                ) == Some((ev@.event_type, ev@.data))
                &&& ev@.service == Service::ConfigChange
                &&& ev@.raw_msg == RawView::Structured(entry_view(entry_map@))
                &&& ev@.timestamp == spec_trim(spec_get_or_empty(
                    entry_view(entry_map@),
                    "SYSLOG_TIMESTAMP"@,
                ))
            },
            None => spec_classify_message(
                spec_cron_rules(),
                entry_view(entry_map@),
                spec_allow_of(ev_type),
                true,
                Seq::empty(),
            ) is None,
        },
{
    let ts_raw = get_or_empty(&entry_map, "SYSLOG_TIMESTAMP");
    let timestamp = trim_str(ts_raw.as_str());
    let msg = match entry_get(&entry_map, "MESSAGE") {
        Some(m) => m,
        None => {
            return None;
        },
    };
    let tmsg = trim_str(msg.as_str());
    let table = match cron_rules() {
        Some(t) => t,
        None => {
            return None;
        },
    };
    let allow = expand_opt(&ev_type);
    let allow_ref = allow.as_ref();
    assert(allow_view(allow_ref) == spec_allow_of(ev_type));
    let seed: Vec<(String, String)> = Vec::new();
    assert(entry_view(seed@) =~= Seq::<(Seq<char>, Seq<char>)>::empty());
    match classify_rules(&table, allow_ref, seed, tmsg.as_str()) {
        Some(p) => Some(
            EventData {
                timestamp,
                service: Service::ConfigChange,
                event_type: p.0,
                data: p.1,
                raw_msg: RawMsgType::Structured(entry_map),
            },
        ),
        None => None,
    }
}


/// The field map of the sudo command pre-pass.
pub open spec fn spec_sudo_seed_fields() -> Seq<(Seq<char>, usize)> {
    seq![
        ("invoking_user"@, 1usize),
        ("tty"@, 2usize),
        ("pwd"@, 3usize),
        ("target_user"@, 4usize),
        ("command"@, 5usize),
    ]
}

/// The seed map the sudo class lays classification over: when the trimmed
/// message matches the command-run pattern, its captures are extracted
/// first, whichever rule then wins.
pub open spec fn spec_sudo_seed(m: Seq<char>) -> Seq<(Seq<char>, Seq<char>)> {
    match rx_captures(
        r"(?x)^(\w+)\s+:\s+TTY=(\S+)\s+;\s+PWD=(\S+)\s+;\s+USER=(\S+)\s+;\s+COMMAND=(/usr/bin/su.*)$"@,
        m,
    ) {
        None => Seq::empty(),
        Some(g) => spec_extract(Seq::empty(), spec_sudo_seed_fields(), g),
    }
}

/// Classifies one sudo or su journal entry: the trimmed message runs
/// through the command pre-pass, then through the table.
pub fn parse_sudo_login_attempts(entry_map: Entry, ev_type: Option<Vec<String>>) -> (r: Option<
    EventData,
>)
    ensures
        !spec_sudo_valid() ==> r is None,
        spec_sudo_valid() ==> match r {
            Some(ev) => {
                &&& spec_entry_get(entry_view(entry_map@), "MESSAGE"@) is Some
                &&& ({
                    let m = spec_trim(spec_get_or_empty(entry_view(entry_map@), "MESSAGE"@));
                    spec_classify(
                        spec_sudo_rules(),
                        spec_allow_of(ev_type),
                        spec_sudo_seed(m),
                        m,
                    ) == Some((ev@.event_type, ev@.data))
                })
                &&& ev@.service == Service::Sudo
                &&& ev@.raw_msg == RawView::Structured(entry_view(entry_map@))
                &&& ev@.timestamp == spec_get_or_empty(
                    entry_view(entry_map@),
                    "SYSLOG_TIMESTAMP"@,
                )
            },
            None => spec_entry_get(entry_view(entry_map@), "MESSAGE"@) matches Some(m0)
                ==> spec_classify(
                spec_sudo_rules(),
                spec_allow_of(ev_type),
                spec_sudo_seed(spec_trim(m0)),
                spec_trim(m0),
            ) is None,
        },
{
    let timestamp = get_or_empty(&entry_map, "SYSLOG_TIMESTAMP");
    let msg = match entry_get(&entry_map, "MESSAGE") {
        Some(m) => m,
        None => {
            return None;
        },
    };
    let tmsg = trim_str(msg.as_str());
    let table = match sudo_rules() {
        Some(t) => t,
        None => {
            return None;
        },
    };
    let allow = expand_opt(&ev_type);
    let allow_ref = allow.as_ref();
    assert(allow_view(allow_ref) == spec_allow_of(ev_type));
    let mut sf: Vec<(String, usize)> = Vec::new();
    sf.push(fld("invoking_user", 1));
    sf.push(fld("tty", 2));
    sf.push(fld("pwd", 3));
    sf.push(fld("target_user", 4));
    sf.push(fld("command", 5));
    assert(crate::rules::fields_view(sf@) =~= spec_sudo_seed_fields());
    let mut seed: Vec<(String, String)> = Vec::new();
    assert(entry_view(seed@) =~= Seq::<(Seq<char>, Seq<char>)>::empty());
    assert(rules_view(table@)[0] == spec_sudo_rules()[0]);
    match table[0].pattern.captures(tmsg.as_str()) {
        Some(g) => {
            extract_fields(&mut seed, &sf, &g);
        },
        None => {
        },
    }
    assert(entry_view(seed@) == spec_sudo_seed(tmsg@));
    match classify_rules(&table, allow_ref, seed, tmsg.as_str()) {
        Some(p) => Some(
            EventData {
                timestamp,
                service: Service::Sudo,
                event_type: p.0,
                data: p.1,
                raw_msg: RawMsgType::Structured(entry_map),
            },
        ),
        None => None,
    }
}

/// The first capture group of the winning rule, empty when missing: the
/// flat-file rules carry the record's timestamp there.
pub open spec fn spec_group1(g: Seq<Option<Seq<char>>>) -> Seq<char> {
    if g.len() > 1 && g[1] is Some {
        g[1]->0
    } else {
        Seq::empty()
    }
}

/// Classifies one package-manager log line (the flat-file backend): the
/// timestamp is the winning rule's first capture.
pub fn parse_pkg_events(content: String, ev_type: Option<Vec<String>>) -> (r: Option<EventData>)
    ensures
        !spec_pkg_valid() ==> r is None,
        spec_pkg_valid() ==> match r {
            Some(ev) => {
                &&& spec_classify(
                    spec_pkg_rules(),
                    spec_allow_of(ev_type),
                    Seq::empty(),
                    content@,
                ) == Some((ev@.event_type, ev@.data))
                &&& ev@.service == Service::PkgManager
                &&& ev@.raw_msg == RawView::Plain(content@)
                &&& ev@.timestamp == spec_group1(
                    spec_win_groups(spec_pkg_rules(), spec_allow_of(ev_type), content@),
                )
            },
            None => spec_classify(
                spec_pkg_rules(),
                spec_allow_of(ev_type),
                Seq::empty(),
                content@,
            ) is None,
        },
{
    let table = match pkg_rules() {
        Some(t) => t,
        None => {
            return None;
        },
    };
    let allow = expand_opt(&ev_type);
    let allow_ref = allow.as_ref();
    assert(allow_view(allow_ref) == spec_allow_of(ev_type));
    let seed: Vec<(String, String)> = Vec::new();
    assert(entry_view(seed@) =~= Seq::<(Seq<char>, Seq<char>)>::empty());
    match classify_rules(&table, allow_ref, seed, content.as_str()) {
        Some(p) => {
            let ghost gv = p.2.deep_view();
            let timestamp: String = if p.2.len() > 1 {
                assert(gv[1] == p.2@[1int].deep_view());
                match &p.2[1] {
                    Some(t) => t.clone(),
                    None => String::new(),
                }
            } else {
                String::new()
            };
            Some(
                EventData {
                    timestamp,
                    service: Service::PkgManager,
                    event_type: p.0,
                    data: p.1,
                    raw_msg: RawMsgType::Plain(content),
                },
            )
        },
        None => None,
    }
}

} // verus!
