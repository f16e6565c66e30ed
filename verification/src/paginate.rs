//! The cursor and pagination protocol.
//!
//! A request names a log class, a direction (initial, older, previous), a
//! limit, and optional keyword and event-type filters.  The flat-file
//! backend is addressed by byte offset with a fingerprint-verified manual
//! cursor; the journal backend is addressed by its own opaque tokens.
//! Only events that classify and pass the keyword filter count toward the
//! limit, and a request either fully succeeds with a verifiable cursor or
//! fails outright.

use vstd::prelude::*;

use crate::classify::{allow_view, classify_rules, spec_classify, spec_win_groups};
use crate::cursor::Cursor;
use crate::events::{entry_view, passes_keyword, EventData, EventView, RawMsgType, RawView,
    Service};
use crate::parsers::{expand_opt, spec_allow_of, spec_group1, trim_back, trim_end_str};
use crate::rules::Rule;
use crate::scan::{bytes_to_string, find_nl, lemma_find_nl_bounds, nl, utf8_of};
use crate::tables::{pkg_rules, spec_pkg_rules, spec_pkg_valid};

verus! {

/// Why a pagination request failed.
#[derive(Clone, Copy, Debug, PartialEq, Eq, Structural)]
pub enum PaginateError {
    /// The caller named a log class with no registered configuration.
    UnknownService,
    /// The flat file no longer matches the cursor's fingerprint: it was
    /// rotated, truncated or rewritten underneath the cursor.
    FingerprintMismatch,
    /// The requested direction needs a cursor and none was given.
    MissingCursor,
    /// The cursor's shape belongs to the other backend.
    WrongCursorKind,
    /// The journal no longer knows the stored cursor token.
    CursorNotFound,
}

impl PaginateError {
    /// A short description for display.
    pub fn message(&self) -> (r: String)
        ensures
            r@.len() > 0,
    {
        let s = match self {
            PaginateError::UnknownService => String::from_str("unknown service"),
            PaginateError::FingerprintMismatch => String::from_str("cursor fingerprint mismatch"),
            PaginateError::MissingCursor => String::from_str("cursor required"),
            PaginateError::WrongCursorKind => String::from_str("cursor kind does not fit backend"),
            PaginateError::CursorNotFound => String::from_str("cursor token not found"),
        };
        proof {
            reveal_strlit("unknown service");
            reveal_strlit("cursor fingerprint mismatch");
            reveal_strlit("cursor required");
            reveal_strlit("cursor kind does not fit backend");
            reveal_strlit("cursor token not found");
        }
        s
    }
}

/// The byte content of one line starting at `p`, without its terminator.
pub open spec fn line_at(s: Seq<u8>, p: int) -> Seq<u8> {
    s.subrange(p, find_nl(s, p))
}

/// The start of the line after the one starting at `p` (the byte offset a
/// cursor records once that line is delivered).
pub open spec fn next_start(s: Seq<u8>, p: int) -> int {
    if find_nl(s, p) == s.len() {
        s.len() as int
    } else {
        find_nl(s, p) + 1
    }
}

/// The flat-file event one line of text yields, if any: trailing
/// whitespace is dropped, the package table classifies the text, and the
/// keyword filter is applied to the raw line.
pub open spec fn spec_text_event(
    text: Seq<char>,
    allow: Option<Seq<Seq<char>>>,
    kw: Option<Seq<char>>,
) -> Option<EventView> {
    let c = trim_back(text);
    match spec_classify(spec_pkg_rules(), allow, Seq::empty(), c) {
        None => None,
        Some(p) => if passes_keyword(RawView::Plain(c), kw) {
            Some(
                EventView {
                    timestamp: spec_group1(spec_win_groups(spec_pkg_rules(), allow, c)),
                    service: Service::PkgManager,
                    event_type: p.0,
                    data: p.1,
                    raw_msg: RawView::Plain(c),
                },
            )
        } else {
            None
        },
    }
}

/// The flat-file event one raw byte line yields: its decoded text's event.
pub open spec fn spec_line_event(
    line: Seq<u8>,
    allow: Option<Seq<Seq<char>>>,
    kw: Option<Seq<char>>,
) -> Option<EventView> {
    spec_text_event(utf8_of(line), allow, kw)
}

/// One forward page of the flat file from byte `p`: the surviving events
/// of successive lines until the limit is met, and the byte offset after
/// the last emitted line (`None` when nothing was emitted).
pub open spec fn spec_flat_page(
    s: Seq<u8>,
    p: int,
    limit: int,
    allow: Option<Seq<Seq<char>>>,
    kw: Option<Seq<char>>,
) -> (Seq<EventView>, Option<int>)
    decreases s.len() - p,
    when 0 <= p <= s.len()
    via spec_flat_page_decreases
{
    if p >= s.len() || limit <= 0 {
        (Seq::empty(), None)
    } else {
        let nxt = next_start(s, p);
        match spec_line_event(line_at(s, p), allow, kw) {
            None => spec_flat_page(s, nxt, limit, allow, kw),
            Some(ev) => {
                let rest = spec_flat_page(s, nxt, limit - 1, allow, kw);
                (
                    seq![ev] + rest.0,
                    match rest.1 {
                        Some(q) => Some(q),
                        None => Some(nxt),
                    },
                )
            },
        }
    }
}

#[via_fn]
proof fn spec_flat_page_decreases(
    s: Seq<u8>,
    p: int,
    limit: int,
    allow: Option<Seq<Seq<char>>>,
    kw: Option<Seq<char>>,
) {
    if 0 <= p < s.len() {
        lemma_find_nl_bounds(s, p);
    }
}

/// All surviving flat-file events from byte `p` on, in file order.
pub open spec fn spec_flat_all(
    s: Seq<u8>,
    p: int,
    allow: Option<Seq<Seq<char>>>,
    kw: Option<Seq<char>>,
) -> Seq<EventView>
    decreases s.len() - p,
    when 0 <= p <= s.len()
    via spec_flat_all_decreases
{
    if p >= s.len() {
        Seq::empty()
    } else {
        let rest = spec_flat_all(s, next_start(s, p), allow, kw);
        match spec_line_event(line_at(s, p), allow, kw) {
            None => rest,
            Some(ev) => seq![ev] + rest,
        }
    }
}

#[via_fn]
proof fn spec_flat_all_decreases(
    s: Seq<u8>,
    p: int,
    allow: Option<Seq<Seq<char>>>,
    kw: Option<Seq<char>>,
) {
    if 0 <= p < s.len() {
        lemma_find_nl_bounds(s, p);
    }
}

/// Pagination is gap-free and duplicate-free: a page from byte `p` is
/// exactly the next `limit`-bounded slice of all surviving events from
/// `p`, and when the page returns a cursor, resuming there continues with
/// exactly the remaining events — nothing skipped, nothing repeated.  A
/// page without a cursor means nothing at or after `p` survives.
pub proof fn lemma_pagination_gap_free(
    s: Seq<u8>,
    p: int,
    limit: int,
    allow: Option<Seq<Seq<char>>>,
    kw: Option<Seq<char>>,
)
    requires
        0 <= p <= s.len(),
        0 <= limit,
    ensures
        ({
            let page = spec_flat_page(s, p, limit, allow, kw);
            let all = spec_flat_all(s, p, allow, kw);
            &&& page.0 == if limit <= all.len() {
                all.take(limit)
            } else {
                all
            }
            &&& match page.1 {
                Some(q) => 0 <= q <= s.len() && spec_flat_all(s, q, allow, kw) == all.skip(
                    page.0.len() as int,
                ),
                None => page.0.len() == 0 && (limit <= 0 || all.len() == 0),
            }
        }),
    decreases s.len() - p,
{
    let page = spec_flat_page(s, p, limit, allow, kw);
    let all = spec_flat_all(s, p, allow, kw);
    if p >= s.len() || limit <= 0 {
        if p >= s.len() {
            assert(all.len() == 0);
        }
        assert(page.0 =~= if limit <= all.len() {
            all.take(limit)
        } else {
            all
        });
    } else {
        lemma_find_nl_bounds(s, p);
        let nxt = next_start(s, p);
        let all2 = spec_flat_all(s, nxt, allow, kw);
        match spec_line_event(line_at(s, p), allow, kw) {
            None => {
                lemma_pagination_gap_free(s, nxt, limit, allow, kw);
                assert(all == all2);
            },
            Some(ev) => {
                lemma_pagination_gap_free(s, nxt, limit - 1, allow, kw);
                let rest = spec_flat_page(s, nxt, limit - 1, allow, kw);
                assert(all == seq![ev] + all2);
                assert(all[0] == ev);
                assert(all.skip(1) =~= all2);
                if limit - 1 <= all2.len() {
                    assert(rest.0 == all2.take(limit - 1));
                    assert(page.0 =~= all.take(limit));
                } else {
                    assert(rest.0 == all2);
                    assert(page.0 =~= all);
                }
                match rest.1 {
                    Some(q) => {
                        assert(spec_flat_all(s, q, allow, kw) == all2.skip(rest.0.len() as int));
                        assert(all2.skip(rest.0.len() as int) =~= all.skip(page.0.len() as int));
                    },
                    None => {
                        assert(rest.0.len() == 0);
                        assert(page.1 == Some(nxt));
                        assert(spec_flat_all(s, nxt, allow, kw) =~= all.skip(
                            page.0.len() as int,
                        ));
                    },
                }
            },
        }
    }
}

/// The ghost view of an optional keyword.
pub open spec fn kw_view(kw: &Option<String>) -> Option<Seq<char>> {
    match kw {
        None => None,
        Some(k) => Some(k@),
    }
}

/// The first newline at or after `from`, or the content length.
fn find_newline(content: &[u8], from: usize) -> (r: usize)
    requires
        from <= content@.len(),
    ensures
        r == find_nl(content@, from as int),
        from <= r <= content@.len(),
{
    let n: usize = content.len();
    let mut i: usize = from;
    while i < n
        invariant
            from <= i <= n,
            n == content@.len(),
            find_nl(content@, from as int) == find_nl(content@, i as int),
            forall|j: int| from <= j < i ==> content@[j] != nl(),
        decreases n - i,
    {
        if content[i] == 10u8 {
            proof {
                lemma_find_nl_bounds(content@, i as int);
            }
            return i;
        }
        i += 1;
    }
    proof {
        lemma_find_nl_bounds(content@, i as int);
    }
    n
}

/// Copies the byte range `[from, to)`.
fn copy_bytes(content: &[u8], from: usize, to: usize) -> (r: Vec<u8>)
    requires
        from <= to <= content@.len(),
    ensures
        r@ == content@.subrange(from as int, to as int),
{
    let mut r: Vec<u8> = Vec::new();
    let mut i: usize = from;
    while i < to
        invariant
            from <= i <= to <= content@.len(),
            r@ == content@.subrange(from as int, i as int),
        decreases to - i,
    {
        r.push(content[i]);
        assert(r@ =~= content@.subrange(from as int, i + 1));
        i += 1;
    }
    r
}

/// Classifies and filters one raw flat-file line.
fn flat_line_event(
    line: &Vec<u8>,
    table: &Vec<Rule>,
    allow_ref: Option<&Vec<String>>,
    kw: &Option<String>,
) -> (r: Option<EventData>)
    requires
        crate::rules::rules_view(table@) == spec_pkg_rules(),
    ensures
        match r {
            Some(ev) => spec_line_event(line@, allow_view(allow_ref), kw_view(kw)) == Some(ev@),
            None => spec_line_event(line@, allow_view(allow_ref), kw_view(kw)) is None,
        },
{
    let text = bytes_to_string(line.as_slice());
    text_line_event(text.as_str(), table, allow_ref, kw)
}

/// Classifies and filters one flat-file line already decoded to text.
fn text_line_event(
    text: &str,
    table: &Vec<Rule>,
    allow_ref: Option<&Vec<String>>,
    kw: &Option<String>,
) -> (r: Option<EventData>)
    requires
        crate::rules::rules_view(table@) == spec_pkg_rules(),
    ensures
        match r {
            Some(ev) => spec_text_event(text@, allow_view(allow_ref), kw_view(kw)) == Some(ev@),
            None => spec_text_event(text@, allow_view(allow_ref), kw_view(kw)) is None,
        },
{
    let content = trim_end_str(text);
    let seed: Vec<(String, String)> = Vec::new();
    assert(entry_view(seed@) =~= Seq::<(Seq<char>, Seq<char>)>::empty());
    match classify_rules(table, allow_ref, seed, content.as_str()) {
        Some(p) => {
            let raw = RawMsgType::Plain(content);
            let passes = match kw {
                None => true,
                Some(k) => raw.contains_bytes(k.as_str()),
            };
            if passes {
                let ghost gv = p.2.deep_view();
                let timestamp: String = if p.2.len() > 1 {
                    assert(gv[1] == p.2@[1int].deep_view());
                    match &p.2[1] {
                        Some(t) => t.clone(),
                        None => String::new(),
                    }
                } else {
                    String::new()
                };
                Some(
                    EventData {
                        timestamp,
                        service: Service::PkgManager,
                        event_type: p.0,
                        data: p.1,
                        raw_msg: raw,
                    },
                )
            } else {
                None
            }
        },
        None => None,
    }
}

/// The initial drain of the flat file: reads forward from byte zero,
/// emitting up to `limit` surviving events, and returns the cursor at the
/// end of the last emitted line, carrying that line's timestamp and text
/// as its fingerprint.  An empty page carries no cursor.
pub fn process_manual_events_upto_n(
    content: &[u8],
    limit: usize,
    ev_type: Option<Vec<String>>,
    filter: Option<String>,
) -> (r: (Vec<EventData>, Option<Cursor>))
    ensures
        !spec_pkg_valid() ==> r.0@.len() == 0 && r.1 is None,
        spec_pkg_valid() ==> flat_page_matches(
            content@,
            0,
            limit as int,
            spec_allow_of(ev_type),
            kw_view(&filter),
            r,
        ),
{
    let table = match pkg_rules() {
        Some(t) => t,
        None => {
            return (Vec::new(), None);
        },
    };
    let allow = expand_opt(&ev_type);
    flat_forward(content, 0, limit, &table, allow.as_ref(), &filter)
}

/// How a page result corresponds to the page specification: the events
/// are exactly the specified ones, and the cursor exists exactly when the
/// page is nonempty, pointing after the last emitted line and
/// fingerprinting it.
pub open spec fn flat_page_matches(
    s: Seq<u8>,
    p: int,
    limit: int,
    allow: Option<Seq<Seq<char>>>,
    kw: Option<Seq<char>>,
    r: (Vec<EventData>, Option<Cursor>),
) -> bool {
    let page = spec_flat_page(s, p, limit, allow, kw);
    &&& r.0@.map_values(|e: EventData| e@) == page.0
    &&& match r.1 {
        Some(cur) => {
            &&& page.1 == Some(cur@.offset as int)
            &&& page.0.len() > 0
            &&& page.0.last().raw_msg == RawView::Plain(cur@.data)
            &&& page.0.last().timestamp == cur@.timestamp
        },
        None => page.1 is None,
    }
}

/// The shared forward walk: emits surviving events from byte `start` until
/// the limit is met.
fn flat_forward(
    content: &[u8],
    start: usize,
    limit: usize,
    table: &Vec<Rule>,
    allow_ref: Option<&Vec<String>>,
    filter: &Option<String>,
) -> (r: (Vec<EventData>, Option<Cursor>))
    requires
        start <= content@.len(),
        crate::rules::rules_view(table@) == spec_pkg_rules(),
    ensures
        flat_page_matches(
            content@,
            start as int,
            limit as int,
            allow_view(allow_ref),
            kw_view(filter),
            r,
        ),
{
    let ghost s = content@;
    let ghost a = allow_view(allow_ref);
    let ghost k = kw_view(filter);
    let n: usize = content.len();
    let mut out: Vec<EventData> = Vec::new();
    let mut cur: Option<Cursor> = None;
    let mut i: usize = start;
    let mut count: usize = 0;
    proof {
        assert(out@.map_values(|e: EventData| e@) =~= Seq::<EventView>::empty());
    }
    while i < n && count < limit
        invariant
            start <= i <= n,
            n == s.len(),
            s == content@,
            a == allow_view(allow_ref),
            k == kw_view(filter),
            crate::rules::rules_view(table@) == spec_pkg_rules(),
            count == out@.len(),
            count <= limit,
            flat_loop_inv(s, start as int, i as int, limit as int, a, k, out@, cur),
        decreases n - i,
    {
        let e = find_newline(content, i);
        let line = copy_bytes(content, i, e);
        let nxt: usize = if e == n {
            n
        } else {
            e + 1
        };
        proof {
            lemma_find_nl_bounds(s, i as int);
            assert(line@ == line_at(s, i as int));
            assert(nxt as int == next_start(s, i as int));
        }
        let ghost out_before = out@;
        let ghost i0 = i as int;
        let ghost lc = limit - out_before.len();
        match flat_line_event(&line, table, allow_ref, filter) {
            Some(ev) => {
                let ghost evv = ev@;
                let c = Cursor {
                    timestamp: ev.timestamp.clone(),
                    data: match &ev.raw_msg {
                        RawMsgType::Plain(t) => t.clone(),
                        RawMsgType::Structured(_) => String::new(),
                    },
                    offset: nxt as u64,
                };
                proof {
                    assert(evv.raw_msg == RawView::Plain(c@.data));
                }
                out.push(ev);
                cur = Some(c);
                count += 1;
                proof {
                    let rest = spec_flat_page(s, nxt as int, lc - 1, a, k);
                    assert(spec_flat_page(s, i0, lc, a, k).0 == seq![evv] + rest.0);
                    assert(out@.map_values(|e2: EventData| e2@) =~= out_before.map_values(
                        |e2: EventData| e2@,
                    ).push(evv));
                    assert(out_before.map_values(|e2: EventData| e2@) + (seq![evv] + rest.0)
                        =~= out@.map_values(|e2: EventData| e2@) + rest.0);
                    assert(out@.last() == out@[out@.len() - 1]);
                }
            },
            None => {
                proof {
                    assert(spec_flat_page(s, i0, lc, a, k) == spec_flat_page(
                        s,
                        nxt as int,
                        lc,
                        a,
                        k,
                    ));
                }
            },
        }
        i = nxt;
    }
    proof {
        if i >= n || count >= limit {
            assert(spec_flat_page(s, i as int, limit - count, a, k) == (
                Seq::<EventView>::empty(),
                None::<int>,
            ));
        }
    }
    (out, cur)
}

/// The forward-walk loop invariant: what the full page specification says
/// from `start` equals what was emitted so far plus what the remaining
/// suffix still yields, and the running cursor fingerprints the last
/// emitted line.
pub open spec fn flat_loop_inv(
    s: Seq<u8>,
    start: int,
    i: int,
    limit: int,
    a: Option<Seq<Seq<char>>>,
    k: Option<Seq<char>>,
    out: Seq<EventData>,
    cur: Option<Cursor>,
) -> bool {
    let full = spec_flat_page(s, start, limit, a, k);
    let suffix = spec_flat_page(s, i, limit - out.len(), a, k);
    &&& 0 <= start <= i <= s.len()
    &&& full.0 == out.map_values(|e: EventData| e@) + suffix.0
    &&& full.1 == match suffix.1 {
        Some(q) => Some(q),
        None => match cur {
            Some(c) => Some(c@.offset as int),
            None => None,
        },
    }
    &&& match cur {
        Some(c) => out.len() > 0 && out.last()@.raw_msg == RawView::Plain(c@.data)
            && out.last()@.timestamp == c@.timestamp && 0 <= c@.offset <= s.len(),
        None => out.len() == 0,
    }
}

/// The surviving events of a run of raw byte lines, in run order.
pub open spec fn ev_lines(
    ls: Seq<Seq<u8>>,
    a: Option<Seq<Seq<char>>>,
    k: Option<Seq<char>>,
) -> Seq<EventView>
    decreases ls.len(),
{
    if ls.len() == 0 {
        Seq::empty()
    } else {
        match spec_line_event(ls[0], a, k) {
            None => ev_lines(ls.skip(1), a, k),
            Some(ev) => seq![ev] + ev_lines(ls.skip(1), a, k),
        }
    }
}

/// The surviving events of a run of text lines, in run order.
pub open spec fn ev_texts(
    ls: Seq<Seq<char>>,
    a: Option<Seq<Seq<char>>>,
    k: Option<Seq<char>>,
) -> Seq<EventView>
    decreases ls.len(),
{
    if ls.len() == 0 {
        Seq::empty()
    } else {
        match spec_text_event(ls[0], a, k) {
            None => ev_texts(ls.skip(1), a, k),
            Some(ev) => seq![ev] + ev_texts(ls.skip(1), a, k),
        }
    }
}

/// The first newline seen from an offset shifts with the suffix.
proof fn lemma_find_nl_shift(s: Seq<u8>, p: int, q: int)
    requires
        0 <= p,
        0 <= q,
        p + q <= s.len(),
    ensures
        find_nl(s, p + q) == p + find_nl(s.skip(p), q),
    decreases s.len() - p - q,
{
    if p + q < s.len() {
        assert(s.skip(p)[q] == s[p + q]);
        if s[p + q] != nl() {
            lemma_find_nl_shift(s, p, q + 1);
        }
    }
}

/// The forward event stream is the filtered classification of the line
/// split: walking the file position by position sees exactly the lines.
proof fn lemma_flat_all_lines(
    s: Seq<u8>,
    p: int,
    a: Option<Seq<Seq<char>>>,
    k: Option<Seq<char>>,
)
    requires
        0 <= p <= s.len(),
    ensures
        spec_flat_all(s, p, a, k) == ev_lines(crate::scan::spec_lines(s.skip(p)), a, k),
    decreases s.len() - p,
{
    let u = s.skip(p);
    assert(ev_lines(Seq::<Seq<u8>>::empty(), a, k) == Seq::<EventView>::empty());
    if p >= s.len() {
        assert(u =~= Seq::<u8>::empty());
        assert(crate::scan::spec_lines(u) == Seq::<Seq<u8>>::empty());
    } else {
        lemma_find_nl_bounds(s, p);
        lemma_find_nl_shift(s, p, 0);
        let k0 = find_nl(u, 0);
        assert(find_nl(s, p) == p + k0);
        assert(line_at(s, p) =~= u.take(k0));
        let ls = crate::scan::spec_lines(u);
        if p + k0 == s.len() {
            assert(k0 == u.len());
            assert(ls == seq![u]);
            assert(ls[0] == u);
            assert(ls.skip(1) =~= Seq::<Seq<u8>>::empty());
            assert(line_at(s, p) =~= u);
            assert(spec_line_event(line_at(s, p), a, k) == spec_line_event(u, a, k));
            assert(next_start(s, p) == s.len());
            assert(spec_flat_all(s, s.len() as int, a, k) == Seq::<EventView>::empty());
            match spec_line_event(u, a, k) {
                None => {
                    assert(spec_flat_all(s, p, a, k) =~= ev_lines(ls, a, k));
                },
                Some(ev) => {
                    assert(spec_flat_all(s, p, a, k) == seq![ev] + Seq::<EventView>::empty());
                    assert(ev_lines(ls, a, k) == seq![ev] + Seq::<EventView>::empty());
                },
            }
        } else {
            assert(k0 < u.len());
            assert(ls == seq![u.take(k0)] + crate::scan::spec_lines(u.skip(k0 + 1)));
            assert(ls[0] == u.take(k0));
            assert(ls.skip(1) =~= crate::scan::spec_lines(u.skip(k0 + 1)));
            assert(next_start(s, p) == p + k0 + 1);
            assert(s.skip(p + k0 + 1) =~= u.skip(k0 + 1));
            lemma_flat_all_lines(s, p + k0 + 1, a, k);
            assert(spec_line_event(line_at(s, p), a, k) == spec_line_event(ls[0], a, k)) by {
                assert(line_at(s, p) =~= u.take(k0));
            }
        }
    }
}

/// Classifying decoded text lines equals classifying the byte lines.
proof fn lemma_ev_texts_map(ls: Seq<Seq<u8>>, a: Option<Seq<Seq<char>>>, k: Option<Seq<char>>)
    ensures
        ev_texts(ls.map_values(|l: Seq<u8>| utf8_of(l)), a, k) == ev_lines(ls, a, k),
    decreases ls.len(),
{
    let m = ls.map_values(|l: Seq<u8>| utf8_of(l));
    if ls.len() > 0 {
        assert(m[0] == utf8_of(ls[0]));
        assert(m.skip(1) =~= ls.skip(1).map_values(|l: Seq<u8>| utf8_of(l)));
        lemma_ev_texts_map(ls.skip(1), a, k);
    } else {
        assert(m =~= Seq::<Seq<char>>::empty());
    }
}

/// With a limit at least the line count, a backward page takes every
/// surviving event.
proof fn lemma_prev_page_unlimited(
    ls: Seq<Seq<char>>,
    limit: int,
    a: Option<Seq<Seq<char>>>,
    k: Option<Seq<char>>,
)
    requires
        limit >= ls.len(),
    ensures
        spec_prev_page(ls, limit, a, k) == ev_texts(ls, a, k),
    decreases ls.len(),
{
    if ls.len() > 0 {
        match spec_text_event(ls[0], a, k) {
            None => {
                lemma_prev_page_unlimited(ls.skip(1), limit, a, k);
            },
            Some(_) => {
                lemma_prev_page_unlimited(ls.skip(1), limit - 1, a, k);
            },
        }
    }
}

/// Appending one line appends its events.
proof fn lemma_ev_lines_snoc(
    ls: Seq<Seq<u8>>,
    x: Seq<u8>,
    a: Option<Seq<Seq<char>>>,
    k: Option<Seq<char>>,
)
    ensures
        ev_lines(ls.push(x), a, k) == ev_lines(ls, a, k) + (match spec_line_event(x, a, k) {
            None => Seq::<EventView>::empty(),
            Some(ev) => seq![ev],
        }),
    decreases ls.len(),
{
    let tailev = match spec_line_event(x, a, k) {
        None => Seq::<EventView>::empty(),
        Some(ev) => seq![ev],
    };
    if ls.len() == 0 {
        assert(ls.push(x) =~= seq![x]);
        assert(seq![x][0] == x);
        assert(seq![x].skip(1) =~= Seq::<Seq<u8>>::empty());
        assert(ev_lines(Seq::<Seq<u8>>::empty(), a, k) == Seq::<EventView>::empty());
        assert(ev_lines(ls, a, k) + tailev =~= tailev);
        match spec_line_event(x, a, k) {
            None => {
            },
            Some(ev) => {
                assert(ev_lines(seq![x], a, k) == seq![ev] + Seq::<EventView>::empty());
                assert(seq![ev] + Seq::<EventView>::empty() =~= seq![ev]);
            },
        }
    } else {
        assert(ls.push(x)[0] == ls[0]);
        assert(ls.push(x).skip(1) =~= ls.skip(1).push(x));
        lemma_ev_lines_snoc(ls.skip(1), x, a, k);
        match spec_line_event(ls[0], a, k) {
            None => {
            },
            Some(ev) => {
                assert(seq![ev] + (ev_lines(ls.skip(1), a, k) + tailev) =~= (seq![ev] + ev_lines(
                    ls.skip(1),
                    a,
                    k,
                )) + tailev);
            },
        }
    }
}

/// Reversing the lines reverses their events.
#[verifier::rlimit(50)]
proof fn lemma_ev_lines_reverse(
    ls: Seq<Seq<u8>>,
    a: Option<Seq<Seq<char>>>,
    k: Option<Seq<char>>,
)
    ensures
        ev_lines(ls.reverse(), a, k) == ev_lines(ls, a, k).reverse(),
    decreases ls.len(),
{
    if ls.len() == 0 {
        assert(ls.reverse() =~= ls);
        assert(ev_lines(ls, a, k).reverse() =~= Seq::<EventView>::empty());
    } else {
        let l = ls.drop_last();
        let x = ls.last();
        assert(ls =~= l.push(x));
        assert(ls.reverse() =~= seq![x] + l.reverse());
        lemma_ev_lines_reverse(l, a, k);
        lemma_ev_lines_snoc(l, x, a, k);
        assert(ev_lines(ls, a, k) == ev_lines(l.push(x), a, k));
        let rev = ls.reverse();
        assert(rev[0] == x);
        assert(rev.skip(1) =~= l.reverse());
        match spec_line_event(x, a, k) {
            None => {
                assert(ev_lines(ls, a, k) =~= ev_lines(l, a, k));
                assert(ev_lines(rev, a, k) == ev_lines(l.reverse(), a, k));
            },
            Some(ev) => {
                assert(ev_lines(ls, a, k) == ev_lines(l, a, k) + seq![ev]);
                assert(ev_lines(rev, a, k) == seq![ev] + ev_lines(l.reverse(), a, k));
                assert((ev_lines(l, a, k) + seq![ev]).reverse() =~= seq![ev] + ev_lines(
                    l,
                    a,
                    k,
                ).reverse());
            },
        }
    }
}

/// Backward/forward symmetry: for any prefix boundary, scanning backward
/// and classifying yields exactly the reverse of scanning forward and
/// classifying — the same events, no line lost or duplicated.
pub proof fn lemma_backward_forward_symmetry(
    s: Seq<u8>,
    n: int,
    limit: int,
    a: Option<Seq<Seq<char>>>,
    k: Option<Seq<char>>,
)
    requires
        0 <= n <= s.len(),
        limit >= crate::scan::spec_backward(s, n).len(),
    ensures
        spec_prev_page(crate::scan::spec_backward(s, n), limit, a, k) == spec_flat_all(
            s.take(n),
            0,
            a,
            k,
        ).reverse(),
{
    let pre = s.take(n);
    let ls = crate::scan::spec_lines(pre);
    let back = crate::scan::spec_backward(s, n);
    assert(back == ls.reverse().map_values(|l: Seq<u8>| utf8_of(l)));
    lemma_prev_page_unlimited(back, limit, a, k);
    lemma_ev_texts_map(ls.reverse(), a, k);
    lemma_ev_lines_reverse(ls, a, k);
    lemma_flat_all_lines(pre, 0, a, k);
    assert(pre.skip(0) =~= pre);
}

/// The start of the line containing byte `j`: the nearest position at or
/// before it that begins a line.
pub open spec fn sol(s: Seq<u8>, j: int) -> int
    recommends
        0 <= j <= s.len(),
    decreases j,
{
    if j <= 0 {
        0
    } else if s[j - 1] == nl() {
        j
    } else {
        sol(s, j - 1)
    }
}

/// Whether the flat file still matches a manual cursor: the offset must
/// sit at the end of a line whose trimmed text equals the stored data and
/// whose classification carries the stored timestamp.
pub open spec fn fingerprint_ok(s: Seq<u8>, c: crate::cursor::CursorView) -> bool {
    let o = c.offset as int;
    &&& 1 <= o <= s.len()
    &&& (o == s.len() || s[o - 1] == nl())
    &&& ({
        let e = if s[o - 1] == nl() {
            o - 1
        } else {
            o
        };
        let line = s.subrange(sol(s, e), e);
        &&& trim_back(utf8_of(line)) == c.data
        &&& (spec_line_event(line, None, None) matches Some(ev) && ev.timestamp == c.timestamp)
    })
}

/// Checks the cursor fingerprint against the current file content.
fn check_fingerprint(content: &[u8], cursor: &Cursor, table: &Vec<Rule>) -> (r: bool)
    requires
        crate::rules::rules_view(table@) == spec_pkg_rules(),
    ensures
        r == fingerprint_ok(content@, cursor@),
{
    let ghost s = content@;
    let n: usize = content.len();
    if cursor.offset == 0 || cursor.offset > n as u64 {
        return false;
    }
    let o: usize = cursor.offset as usize;
    if o < n && content[o - 1] != 10u8 {
        return false;
    }
    let e: usize = if content[o - 1] == 10u8 {
        o - 1
    } else {
        o
    };
    let mut j: usize = e;
    while j > 0 && content[j - 1] != 10u8
        invariant
            j <= e <= n,
            n == s.len(),
            s == content@,
            sol(s, e as int) == sol(s, j as int),
        decreases j,
    {
        j -= 1;
    }
    assert(sol(s, j as int) == j as int);
    let line = copy_bytes(content, j, e);
    let text = bytes_to_string(line.as_slice());
    let trimmed = trim_end_str(text.as_str());
    if !(trimmed == cursor.data) {
        return false;
    }
    match flat_line_event(&line, table, None, &None) {
        Some(ev) => ev.timestamp == cursor.timestamp,
        None => false,
    }
}

/// The forward resume (the next, older page): the stored offset must sit
/// right after the line whose fingerprint the cursor carries; on a match
/// the page continues forward from that offset exactly as an initial
/// drain would from byte zero.  A mismatch is a hard error: the file
/// changed underneath the cursor, and silently resuming would skip or
/// duplicate events.
pub fn process_manual_events_next(
    content: &[u8],
    cursor: &Cursor,
    limit: usize,
    ev_type: Option<Vec<String>>,
    filter: Option<String>,
) -> (r: Result<(Vec<EventData>, Option<Cursor>), PaginateError>)
    ensures
        !spec_pkg_valid() ==> r == Err::<(Vec<EventData>, Option<Cursor>), PaginateError>(
            PaginateError::FingerprintMismatch,
        ),
        spec_pkg_valid() ==> match r {
            Ok(page) => fingerprint_ok(content@, cursor@) && flat_page_matches(
                content@,
                cursor@.offset as int,
                limit as int,
                spec_allow_of(ev_type),
                kw_view(&filter),
                page,
            ),
            Err(e) => e == PaginateError::FingerprintMismatch && !fingerprint_ok(
                content@,
                cursor@,
            ),
        },
{
    let table = match pkg_rules() {
        Some(t) => t,
        None => {
            return Err(PaginateError::FingerprintMismatch);
        },
    };
    if !check_fingerprint(content, cursor, &table) {
        return Err(PaginateError::FingerprintMismatch);
    }
    let allow = expand_opt(&ev_type);
    let n: usize = content.len();
    assert(cursor@.offset as int <= n as int);
    let start: usize = cursor.offset as usize;
    assert(start as int == cursor@.offset as int);
    Ok(flat_forward(content, start, limit, &table, allow.as_ref(), &filter))
}

/// One backward page over an already-reconstructed run of lines, most
/// recent first.
pub open spec fn spec_prev_page(
    ls: Seq<Seq<char>>,
    limit: int,
    allow: Option<Seq<Seq<char>>>,
    kw: Option<Seq<char>>,
) -> Seq<EventView>
    decreases ls.len(),
{
    if ls.len() == 0 || limit <= 0 {
        Seq::empty()
    } else {
        match spec_text_event(ls[0], allow, kw) {
            None => spec_prev_page(ls.skip(1), limit, allow, kw),
            Some(ev) => seq![ev] + spec_prev_page(ls.skip(1), limit - 1, allow, kw),
        }
    }
}

/// The backward resume (the previous page): after the fingerprint check
/// the lines before the stored offset are walked most recent first — the
/// fingerprinted line itself comes back first — and up to `limit`
/// surviving events are emitted.  The returned cursor keeps the stored
/// offset and fingerprints the most recent emitted event, as the forward
/// paths do.
pub fn process_manual_events_previous(
    content: &[u8],
    cursor: &Cursor,
    limit: usize,
    ev_type: Option<Vec<String>>,
    filter: Option<String>,
) -> (r: Result<(Vec<EventData>, Option<Cursor>), PaginateError>)
    ensures
        !spec_pkg_valid() ==> r == Err::<(Vec<EventData>, Option<Cursor>), PaginateError>(
            PaginateError::FingerprintMismatch,
        ),
        spec_pkg_valid() ==> match r {
            Ok(page) => {
                &&& fingerprint_ok(content@, cursor@)
                &&& page.0@.map_values(|e: EventData| e@) == spec_prev_page(
                    crate::scan::spec_backward(content@, cursor@.offset as int),
                    limit as int,
                    spec_allow_of(ev_type),
                    kw_view(&filter),
                )
                &&& match page.1 {
                    Some(c2) => page.0@.len() > 0 && c2@.offset == cursor@.offset
                        && page.0@[0]@.raw_msg == RawView::Plain(c2@.data) && page.0@[0]@.timestamp
                        == c2@.timestamp,
                    None => page.0@.len() == 0,
                }
            },
            Err(e) => e == PaginateError::FingerprintMismatch && !fingerprint_ok(
                content@,
                cursor@,
            ),
        },
{
    let table = match pkg_rules() {
        Some(t) => t,
        None => {
            return Err(PaginateError::FingerprintMismatch);
        },
    };
    if !check_fingerprint(content, cursor, &table) {
        return Err(PaginateError::FingerprintMismatch);
    }
    let allow = expand_opt(&ev_type);
    let allow_ref = allow.as_ref();
    let ghost a = allow_view(allow_ref);
    let ghost k = kw_view(&filter);
    let n: usize = content.len();
    assert(cursor@.offset as int <= n as int);
    let offset: usize = cursor.offset as usize;
    assert(offset as int == cursor@.offset as int);
    let lines = crate::scan::read_file_backward(content, offset);
    let ghost lsv = lines@.map_values(|x: String| x@);
    let m = lines.len();
    let mut out: Vec<EventData> = Vec::new();
    let mut first: Option<Cursor> = None;
    let mut count: usize = 0;
    let mut j: usize = 0;
    proof {
        assert(lsv.skip(0) =~= lsv);
        assert(out@.map_values(|e: EventData| e@) =~= Seq::<EventView>::empty());
        assert(spec_prev_page(lsv, limit as int, a, k) == out@.map_values(|e: EventData| e@)
            + spec_prev_page(lsv.skip(0), limit as int, a, k));
    }
    while j < m && count < limit
        invariant
            j <= m,
            m == lines@.len(),
            lsv == lines@.map_values(|x: String| x@),
            a == allow_view(allow_ref),
            k == kw_view(&filter),
            crate::rules::rules_view(table@) == spec_pkg_rules(),
            count == out@.len(),
            count <= limit,
            spec_prev_page(lsv, limit as int, a, k) == out@.map_values(|e: EventData| e@)
                + spec_prev_page(lsv.skip(j as int), limit - count, a, k),
            match first {
                Some(c2) => out@.len() > 0 && c2@.offset == cursor@.offset && out@[0]@.raw_msg
                    == RawView::Plain(c2@.data) && out@[0]@.timestamp == c2@.timestamp,
                None => out@.len() == 0,
            },
        decreases m - j,
    {
        let ghost out_before = out@;
        assert(lsv.skip(j as int)[0] == lines@[j as int]@);
        assert(lsv.skip(j as int).skip(1) =~= lsv.skip(j + 1));
        match text_line_event(lines[j].as_str(), &table, allow_ref, &filter) {
            Some(ev) => {
                if count == 0 {
                    let c2 = Cursor {
                        timestamp: ev.timestamp.clone(),
                        data: match &ev.raw_msg {
                            RawMsgType::Plain(t) => t.clone(),
                            RawMsgType::Structured(_) => String::new(),
                        },
                        offset: cursor.offset,
                    };
                    first = Some(c2);
                }
                out.push(ev);
                count += 1;
                proof {
                    assert(out@.map_values(|e2: EventData| e2@) =~= out_before.map_values(
                        |e2: EventData| e2@,
                    ).push(out@.last()@));
                    assert(out_before.map_values(|e2: EventData| e2@) + (seq![out@.last()@]
                        + spec_prev_page(lsv.skip(j + 1), limit - count, a, k)) =~= out@.map_values(
                        |e2: EventData| e2@,
                    ) + spec_prev_page(lsv.skip(j + 1), limit - count, a, k));
                    assert(out@[0] == if out_before.len() == 0 {
                        out@.last()
                    } else {
                        out_before[0]
                    });
                }
            },
            None => {
            },
        }
        j += 1;
    }
    proof {
        if j >= m {
            assert(lsv.skip(j as int) =~= Seq::<Seq<char>>::empty());
        }
        assert(spec_prev_page(lsv.skip(j as int), limit - count, a, k) =~= Seq::<
            EventView,
        >::empty());
        assert(out@.map_values(|e: EventData| e@) + Seq::<EventView>::empty() =~= out@.map_values(
            |e: EventData| e@,
        ));
    }
    Ok((out, first))
}

} // verus!
