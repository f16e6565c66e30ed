//! Pagination over the indexed journal backend, modelled on a snapshot:
//! a run of records in backend order, each carrying the opaque cursor
//! token the backend mints for it.  Reading is forward from the head, or
//! resumes forward just after a stored token, or walks backward from one;
//! every consumed record advances the returned token, and only events
//! that classify and pass the keyword filter count toward the limit.

use vstd::prelude::*;

use crate::classify::spec_classify;
use crate::events::{entry_view, passes_keyword, spec_entry_get, Entry, EventData, RawView,
    Service};
use crate::paginate::PaginateError;
use crate::parsers::{parse_config_change_events, parse_firewalld_events, parse_kernel_events,
    parse_login_attempts, parse_network_events, parse_sshd_logs, parse_sudo_login_attempts,
    parse_user_change_events, spec_allow_of, spec_classify_message, spec_sudo_seed, spec_trim};
use crate::tables::{spec_cron_rules, spec_cron_valid, spec_firewalld_rules, spec_firewalld_valid,
    spec_kernel_rules, spec_kernel_valid, spec_login_rules, spec_login_valid, spec_network_rules,
    spec_network_valid, spec_sshd_rules, spec_sshd_valid, spec_sudo_rules, spec_sudo_valid,
    spec_user_rules, spec_user_valid};
use crate::text::str_eq;

verus! {

/// One journal record of a snapshot: its fields, and the opaque token the
/// backend hands out at its position.
pub struct JournalRecord {
    pub fields: Entry,
    pub token: String,
}

/// Ghost view of a journal record.
pub struct JRecView {
    pub fields: Seq<(Seq<char>, Seq<char>)>,
    pub token: Seq<char>,
}

impl View for JournalRecord {
    type V = JRecView;

    open spec fn view(&self) -> JRecView {
        JRecView { fields: entry_view(self.fields@), token: self.token@ }
    }
}

/// The ghost view of a snapshot.
pub open spec fn jview(rs: Seq<JournalRecord>) -> Seq<JRecView> {
    rs.map_values(|r: JournalRecord| r@)
}

/// The classification outcome a journal class assigns to a record's
/// fields: each class runs its own table; the flat-file class reads no
/// journal records.
pub open spec fn spec_classify_service(
    service: Service,
    e: Seq<(Seq<char>, Seq<char>)>,
    allow: Option<Seq<Seq<char>>>,
) -> Option<(crate::events::EventType, Seq<(Seq<char>, Seq<char>)>)> {
    match service {
        Service::Sshd => spec_classify_message(spec_sshd_rules(), e, allow, false, Seq::empty()),
        Service::Sudo => match spec_entry_get(e, "MESSAGE"@) {
            None => None,
            Some(m0) => spec_classify(
                spec_sudo_rules(),
                allow,
                spec_sudo_seed(spec_trim(m0)),
                spec_trim(m0),
            ),
        },
        Service::Login => spec_classify_message(spec_login_rules(), e, allow, false, Seq::empty()),
        Service::UserChange => spec_classify_message(
            spec_user_rules(),
            e,
            allow,
            false,
            Seq::empty(),
        ),
        Service::ConfigChange => spec_classify_message(
            spec_cron_rules(),
            e,
            allow,
            true,
            Seq::empty(),
        ),
        Service::NetworkManager => spec_classify_message(
            spec_network_rules(),
            e,
            allow,
            false,
            Seq::empty(),
        ),
        Service::Firewalld => spec_classify_message(
            spec_firewalld_rules(),
            e,
            allow,
            false,
            Seq::empty(),
        ),
        Service::Kernel => spec_classify_message(
            spec_kernel_rules(),
            e,
            allow,
            false,
            Seq::empty(),
        ),
        Service::PkgManager => None,
    }
}

/// Whether the class's rule table compiles.
pub open spec fn spec_service_valid(service: Service) -> bool {
    match service {
        Service::Sshd => spec_sshd_valid(),
        Service::Sudo => spec_sudo_valid(),
        Service::Login => spec_login_valid(),
        Service::UserChange => spec_user_valid(),
        Service::ConfigChange => spec_cron_valid(),
        Service::NetworkManager => spec_network_valid(),
        Service::Firewalld => spec_firewalld_valid(),
        Service::Kernel => spec_kernel_valid(),
        Service::PkgManager => true,
    }
}

/// Classifies one journal record for a class.
pub fn classify_service(service: Service, entry: Entry, ev_type: Option<Vec<String>>) -> (r:
    Option<EventData>)
    ensures
        spec_service_valid(service) ==> match r {
            Some(ev) => {
                &&& spec_classify_service(service, entry_view(entry@), spec_allow_of(ev_type))
                    == Some((ev@.event_type, ev@.data))
                &&& ev@.service == service
                &&& ev@.raw_msg == RawView::Structured(entry_view(entry@))
            },
            None => spec_classify_service(service, entry_view(entry@), spec_allow_of(ev_type))
                is None,
        },
{
    match service {
        Service::Sshd => parse_sshd_logs(entry, ev_type),
        Service::Sudo => parse_sudo_login_attempts(entry, ev_type),
        Service::Login => parse_login_attempts(entry, ev_type),
        Service::UserChange => parse_user_change_events(entry, ev_type),
        Service::ConfigChange => parse_config_change_events(entry, ev_type),
        Service::NetworkManager => parse_network_events(entry, ev_type),
        Service::Firewalld => parse_firewalld_events(entry, ev_type),
        Service::Kernel => parse_kernel_events(entry, ev_type),
        Service::PkgManager => None,
    }
}

/// Whether a record classifies and passes the keyword filter for a class.
pub open spec fn survives(
    service: Service,
    rec: JRecView,
    allow: Option<Seq<Seq<char>>>,
    kw: Option<Seq<char>>,
) -> bool {
    &&& spec_classify_service(service, rec.fields, allow) is Some
    &&& passes_keyword(RawView::Structured(rec.fields), kw)
}

/// One journal page: the surviving records of the run, in order, until
/// the limit is met, and the token of the last consumed record.  Records
/// are consumed one by one; consumption stops once the limit-th survivor
/// is emitted, so later records do not advance the token.
pub open spec fn spec_journal_page(
    rs: Seq<JRecView>,
    service: Service,
    allow: Option<Seq<Seq<char>>>,
    kw: Option<Seq<char>>,
    limit: int,
) -> (Seq<JRecView>, Option<Seq<char>>)
    decreases rs.len(),
{
    if rs.len() == 0 || limit <= 0 {
        (Seq::empty(), None)
    } else if survives(service, rs[0], allow, kw) {
        if limit == 1 {
            (seq![rs[0]], Some(rs[0].token))
        } else {
            let rest = spec_journal_page(rs.skip(1), service, allow, kw, limit - 1);
            (
                seq![rs[0]] + rest.0,
                match rest.1 {
                    Some(t) => Some(t),
                    None => Some(rs[0].token),
                },
            )
        }
    } else {
        let rest = spec_journal_page(rs.skip(1), service, allow, kw, limit);
        (
            rest.0,
            match rest.1 {
                Some(t) => Some(t),
                None => Some(rs[0].token),
            },
        )
    }
}

/// How a journal page result corresponds to its specification: one event
/// per emitted record, in order, each carrying that record's
/// classification and raw fields, and the token of the last consumed
/// record as the next cursor.
pub open spec fn journal_page_matches(
    rs: Seq<JRecView>,
    service: Service,
    allow: Option<Seq<Seq<char>>>,
    kw: Option<Seq<char>>,
    limit: int,
    r: (Vec<EventData>, Option<String>),
) -> bool {
    let page = spec_journal_page(rs, service, allow, kw, limit);
    &&& r.0@.len() == page.0.len()
    &&& (forall|q: int|
        0 <= q < page.0.len() ==> {
            &&& survives(service, #[trigger] page.0[q], allow, kw)
            &&& spec_classify_service(service, page.0[q].fields, allow) == Some(
                (r.0@[q]@.event_type, r.0@[q]@.data),
            )
            &&& r.0@[q]@.raw_msg == RawView::Structured(page.0[q].fields)
            &&& r.0@[q]@.service == service
        })
    &&& match r.1 {
        Some(t) => page.1 == Some(t@),
        None => page.1 is None,
    }
}

/// How a resumed page corresponds to its specification: the events as in
/// `journal_page_matches`, and always a token — the last consumed
/// record's, or the input token back when nothing was consumed, so a
/// caller that stores the returned token never loses its resume point.
pub open spec fn journal_resume_matches(
    rs: Seq<JRecView>,
    service: Service,
    allow: Option<Seq<Seq<char>>>,
    kw: Option<Seq<char>>,
    limit: int,
    fallback: Seq<char>,
    r: (Vec<EventData>, Option<String>),
) -> bool {
    let page = spec_journal_page(rs, service, allow, kw, limit);
    &&& r.0@.len() == page.0.len()
    &&& (forall|q: int|
        0 <= q < page.0.len() ==> {
            &&& survives(service, #[trigger] page.0[q], allow, kw)
            &&& spec_classify_service(service, page.0[q].fields, allow) == Some(
                (r.0@[q]@.event_type, r.0@[q]@.data),
            )
            &&& r.0@[q]@.raw_msg == RawView::Structured(page.0[q].fields)
            &&& r.0@[q]@.service == service
        })
    &&& r.1 matches Some(t) && t@ == (match page.1 {
        Some(t2) => t2,
        None => fallback,
    })
}

/// Copies a structured record.
fn clone_entry(e: &Entry) -> (r: Entry)
    ensures
        r@ == e@,
{
    let n = e.len();
    let mut r: Entry = Vec::new();
    let mut i: usize = 0;
    while i < n
        invariant
            i <= n,
            n == e@.len(),
            r@ == e@.take(i as int),
        decreases n - i,
    {
        r.push((e[i].0.clone(), e[i].1.clone()));
        assert(r@ =~= e@.take(i + 1));
        i += 1;
    }
    assert(e@.take(n as int) =~= e@);
    r
}

/// Copies an optional name list.
pub(crate) fn clone_names(o: &Option<Vec<String>>) -> (r: Option<Vec<String>>)
    ensures
        match r {
            Some(v) => *o matches Some(w) && v@ == w@,
            None => *o is None,
        },
{
    match o {
        None => None,
        Some(v) => {
            let n = v.len();
            let mut r: Vec<String> = Vec::new();
            let mut i: usize = 0;
            while i < n
                invariant
                    i <= n,
                    n == v@.len(),
                    r@ == v@.take(i as int),
                decreases n - i,
            {
                r.push(v[i].clone());
                assert(r@ =~= v@.take(i + 1));
                i += 1;
            }
            assert(v@.take(n as int) =~= v@);
            Some(r)
        },
    }
}

/// The initial journal drain: reads forward from the head of the
/// snapshot, emitting up to `limit` surviving events, and returns the
/// token of the last consumed record.
pub fn process_upto_n_entries(
    records: &Vec<JournalRecord>,
    service: Service,
    limit: usize,
    ev_type: &Option<Vec<String>>,
    filter: &Option<String>,
) -> (r: (Vec<EventData>, Option<String>))
    ensures
        spec_service_valid(service) ==> journal_page_matches(
            jview(records@),
            service,
            spec_allow_of(*ev_type),
            crate::paginate::kw_view(filter),
            limit as int,
            r,
        ),
{
    proof {
        assert(jview(records@).skip(0) =~= jview(records@));
    }
    journal_forward(records, 0, service, limit, ev_type, filter)
}

/// The shared forward walk over a snapshot suffix.
fn journal_forward(
    records: &Vec<JournalRecord>,
    start: usize,
    service: Service,
    limit: usize,
    ev_type: &Option<Vec<String>>,
    filter: &Option<String>,
) -> (r: (Vec<EventData>, Option<String>))
    requires
        start <= records@.len(),
    ensures
        spec_service_valid(service) ==> journal_page_matches(
            jview(records@).skip(start as int),
            service,
            spec_allow_of(*ev_type),
            crate::paginate::kw_view(filter),
            limit as int,
            r,
        ),
{
    let ghost rs = jview(records@).skip(start as int);
    let ghost a = spec_allow_of(*ev_type);
    let ghost k = crate::paginate::kw_view(filter);
    let n = records.len();
    let mut out: Vec<EventData> = Vec::new();
    let ghost mut emitted: Seq<JRecView> = Seq::empty();
    let mut token: Option<String> = None;
    let mut count: usize = 0;
    let mut i: usize = start;
    proof {
        assert(rs.skip(0) =~= rs);
    }
    while i < n && count < limit
        invariant
            start <= i <= n,
            n == records@.len(),
            rs == jview(records@).skip(start as int),
            a == spec_allow_of(*ev_type),
            k == crate::paginate::kw_view(filter),
            count == out@.len(),
            count == emitted.len(),
            count <= limit,
            spec_service_valid(service) ==> journal_inv(
                rs,
                i - start,
                service,
                a,
                k,
                limit as int,
                emitted,
                out@,
                token,
            ),
        decreases n - i,
    {
        let ghost j0 = i - start;
        let ghost rec = rs[j0];
        assert(rs[j0] == records@[i as int]@) by {
            assert(jview(records@)[i as int] == records@[i as int]@);
        }
        let entry = clone_entry(&records[i].fields);
        let names = clone_names(ev_type);
        let ghost out_before = out@;
        let ghost emitted_before = emitted;
        let ghost token_before = token;
        let ev_opt = classify_service(service, entry, names);
        let keep = match (&ev_opt, filter) {
            (Some(ev), Some(kws)) => ev.raw_msg.contains_bytes(kws.as_str()),
            (Some(_), None) => true,
            (None, _) => false,
        };
        if keep {
            let ev = match ev_opt {
                Some(e) => e,
                None => {
                    proof {
                        assert(false);
                    }
                    return (out, token);
                },
            };
            out.push(ev);
            proof {
                emitted = emitted_before.push(rec);
            }
            count += 1;
        }
        token = Some(records[i].token.clone());
        proof {
            if spec_service_valid(service) {
                let lc = limit - out_before.len();
                let tail = rs.skip(j0);
                let tail2 = rs.skip(j0 + 1);
                assert(tail.skip(1) =~= tail2);
                assert(tail[0] == rec);
                assert(tail.len() > 0 && lc > 0);
                let full = spec_journal_page(rs, service, a, k, limit as int);
                let suffix_old = spec_journal_page(tail, service, a, k, lc);
                if keep {
                    assert(survives(service, rec, a, k));
                    if lc == 1 {
                        assert(suffix_old == (seq![rec], Some::<Seq<char>>(rec.token)));
                        assert(spec_journal_page(tail2, service, a, k, 0int) == (
                            Seq::<JRecView>::empty(),
                            None::<Seq<char>>,
                        ));
                        assert(emitted_before + (seq![rec]) =~= emitted);
                        assert(emitted + Seq::<JRecView>::empty() =~= emitted);
                        assert(full.0 == emitted_before + suffix_old.0);
                        assert(emitted_before + seq![rec] =~= (emitted_before + seq![rec])
                            + Seq::<JRecView>::empty());
                    } else {
                        let rest = spec_journal_page(tail2, service, a, k, lc - 1);
                        assert(suffix_old.0 == seq![rec] + rest.0);
                        assert(emitted_before + (seq![rec] + rest.0) =~= (emitted_before + seq![
                            rec,
                        ]) + rest.0);
                        assert(emitted_before.push(rec) =~= emitted_before + seq![rec]);
                    }
                } else {
                    assert(!survives(service, rec, a, k));
                    let rest = spec_journal_page(tail2, service, a, k, lc);
                    assert(suffix_old.0 == rest.0);
                }
            }
        }
        i += 1;
    }
    proof {
        if spec_service_valid(service) {
            assert(rs.skip(i - start).len() == rs.len() - (i - start));
            if i >= n {
                assert(rs.skip(i - start) =~= Seq::<JRecView>::empty());
            }
        }
    }
    (out, token)
}

/// The surviving records of a whole run, in order.
pub open spec fn jsurvivors(
    rs: Seq<JRecView>,
    service: Service,
    allow: Option<Seq<Seq<char>>>,
    kw: Option<Seq<char>>,
) -> Seq<JRecView>
    decreases rs.len(),
{
    if rs.len() == 0 {
        Seq::empty()
    } else if survives(service, rs[0], allow, kw) {
        seq![rs[0]] + jsurvivors(rs.skip(1), service, allow, kw)
    } else {
        jsurvivors(rs.skip(1), service, allow, kw)
    }
}

/// How many records one page consumes: up to and including the record
/// that emits the limit-th surviving event, or the whole run.
pub open spec fn spec_journal_consumed(
    rs: Seq<JRecView>,
    service: Service,
    allow: Option<Seq<Seq<char>>>,
    kw: Option<Seq<char>>,
    limit: int,
) -> int
    decreases rs.len(),
{
    if rs.len() == 0 || limit <= 0 {
        0
    } else if survives(service, rs[0], allow, kw) {
        if limit == 1 {
            1
        } else {
            1 + spec_journal_consumed(rs.skip(1), service, allow, kw, limit - 1)
        }
    } else {
        1 + spec_journal_consumed(rs.skip(1), service, allow, kw, limit)
    }
}

/// Whether every record of the run carries its own token.
pub open spec fn tokens_distinct(rs: Seq<JRecView>) -> bool {
    forall|i: int, j: int|
        0 <= i < j < rs.len() ==> (#[trigger] rs[i]).token != (#[trigger] rs[j]).token
}

/// A page's events and token restated over the consumed prefix: the page
/// emits exactly the survivors of what it consumed, and its token is the
/// last consumed record's.
proof fn lemma_journal_page_consumed(
    rs: Seq<JRecView>,
    service: Service,
    allow: Option<Seq<Seq<char>>>,
    kw: Option<Seq<char>>,
    limit: int,
)
    ensures
        ({
            let page = spec_journal_page(rs, service, allow, kw, limit);
            let c = spec_journal_consumed(rs, service, allow, kw, limit);
            &&& 0 <= c <= rs.len()
            &&& page.0 == jsurvivors(rs.take(c), service, allow, kw)
            &&& page.1 == if c == 0 {
                None::<Seq<char>>
            } else {
                Some(rs[c - 1].token)
            }
            &&& (c < rs.len() ==> page.0.len() >= limit)
        }),
    decreases rs.len(),
{
    let page = spec_journal_page(rs, service, allow, kw, limit);
    let c = spec_journal_consumed(rs, service, allow, kw, limit);
    if rs.len() == 0 || limit <= 0 {
        assert(rs.take(0) =~= Seq::<JRecView>::empty());
        if rs.len() == 0 {
            assert(jsurvivors(rs, service, allow, kw) =~= Seq::<JRecView>::empty());
        }
        assert(page.0 =~= jsurvivors(rs.take(0), service, allow, kw));
    } else {
        lemma_journal_page_consumed(rs.skip(1), service, allow, kw, limit - 1);
        lemma_journal_page_consumed(rs.skip(1), service, allow, kw, limit);
        let sv = jsurvivors(rs, service, allow, kw);
        assert(rs.take(c)[0] == rs[0]);
        assert(rs.take(c).skip(1) =~= rs.skip(1).take(c - 1));
        assert(forall|q: int| 0 <= q < rs.skip(1).len() ==> rs.skip(1)[q] == rs[q + 1]);
        if survives(service, rs[0], allow, kw) {
            if limit == 1 {
                assert(c == 1);
                assert(rs.skip(1).take(0) =~= Seq::<JRecView>::empty());
                assert(jsurvivors(rs.take(1), service, allow, kw) =~= seq![rs[0]]);
            } else {
                let c2 = spec_journal_consumed(rs.skip(1), service, allow, kw, limit - 1);
                assert(c == 1 + c2);
                let rest = spec_journal_page(rs.skip(1), service, allow, kw, limit - 1);
                assert(jsurvivors(rs.take(c), service, allow, kw) == seq![rs[0]] + jsurvivors(
                    rs.skip(1).take(c2),
                    service,
                    allow,
                    kw,
                ));
                if c2 == 0 {
                    assert(rest.1 is None);
                    assert(page.1 == Some(rs[0].token));
                } else {
                    assert(rest.1 == Some(rs.skip(1)[c2 - 1].token));
                    assert(rs.skip(1)[c2 - 1] == rs[c - 1]);
                }
            }
        } else {
            let c2 = spec_journal_consumed(rs.skip(1), service, allow, kw, limit);
            assert(c == 1 + c2);
            assert(jsurvivors(rs.take(c), service, allow, kw) == jsurvivors(
                rs.skip(1).take(c2),
                service,
                allow,
                kw,
            ));
            if c2 == 0 {
                assert(page.1 == Some(rs[0].token));
            } else {
                assert(rs.skip(1)[c2 - 1] == rs[c - 1]);
            }
        }
    }
}

/// Survivors split at any boundary.
#[verifier::rlimit(50)]
proof fn lemma_jsurvivors_concat(
    a: Seq<JRecView>,
    b: Seq<JRecView>,
    service: Service,
    allow: Option<Seq<Seq<char>>>,
    kw: Option<Seq<char>>,
)
    ensures
        jsurvivors(a + b, service, allow, kw) == jsurvivors(a, service, allow, kw) + jsurvivors(
            b,
            service,
            allow,
            kw,
        ),
    decreases a.len(),
{
    if a.len() == 0 {
        assert(a + b =~= b);
        assert(jsurvivors(a, service, allow, kw) + jsurvivors(b, service, allow, kw)
            =~= jsurvivors(b, service, allow, kw));
    } else {
        assert((a + b)[0] == a[0]);
        assert((a + b).skip(1) =~= a.skip(1) + b);
        lemma_jsurvivors_concat(a.skip(1), b, service, allow, kw);
        if survives(service, a[0], allow, kw) {
            assert(seq![a[0]] + (jsurvivors(a.skip(1), service, allow, kw) + jsurvivors(
                b,
                service,
                allow,
                kw,
            )) =~= (seq![a[0]] + jsurvivors(a.skip(1), service, allow, kw)) + jsurvivors(
                b,
                service,
                allow,
                kw,
            ));
        }
    }
}

/// With distinct tokens, a token found in the run names its own index.
proof fn lemma_find_token_distinct(rs: Seq<JRecView>, ix: int)
    requires
        tokens_distinct(rs),
        0 <= ix < rs.len(),
    ensures
        spec_find_token(rs, rs[ix].token) == Some(ix),
    decreases ix,
{
    if ix > 0 {
        assert(rs[0].token != rs[ix].token);
        assert(forall|q: int| 0 <= q < rs.skip(1).len() ==> rs.skip(1)[q] == rs[q + 1]);
        lemma_find_token_distinct(rs.skip(1), ix - 1);
    }
}

/// Journal pagination is gap-free and duplicate-free: each page emits the
/// next contiguous slice of the run's surviving records, and resuming
/// just after the record the returned token names — as the forward
/// resume does — continues with exactly the remaining survivors, as long
/// as the backend's tokens are distinct.  A page without a token means
/// nothing was consumed at all.
#[verifier::rlimit(50)]
pub proof fn lemma_journal_gap_free(
    rs: Seq<JRecView>,
    service: Service,
    allow: Option<Seq<Seq<char>>>,
    kw: Option<Seq<char>>,
    limit: int,
)
    requires
        tokens_distinct(rs),
        limit >= 0,
    ensures
        ({
            let page = spec_journal_page(rs, service, allow, kw, limit);
            let all = jsurvivors(rs, service, allow, kw);
            &&& page.0 == if limit <= all.len() {
                all.take(limit)
            } else {
                all
            }
            &&& match page.1 {
                Some(t) => spec_find_token(rs, t) matches Some(ci) && jsurvivors(
                    rs.skip(ci + 1),
                    service,
                    allow,
                    kw,
                ) == all.skip(page.0.len() as int),
                None => page.0.len() == 0 && (limit == 0 || rs.len() == 0),
            }
        }),
{
    let page = spec_journal_page(rs, service, allow, kw, limit);
    let all = jsurvivors(rs, service, allow, kw);
    lemma_journal_page_consumed(rs, service, allow, kw, limit);
    let c = spec_journal_consumed(rs, service, allow, kw, limit);
    assert(rs =~= rs.take(c) + rs.skip(c));
    lemma_jsurvivors_concat(rs.take(c), rs.skip(c), service, allow, kw);
    assert(all == page.0 + jsurvivors(rs.skip(c), service, allow, kw));
    assert(page.0 =~= all.take(page.0.len() as int));
    assert(jsurvivors(rs.skip(c), service, allow, kw) =~= all.skip(page.0.len() as int));
    lemma_page_len(rs, service, allow, kw, limit);
    if c == 0 {
        lemma_consumed_zero(rs, service, allow, kw, limit);
    } else {
        lemma_find_token_distinct(rs, c - 1);
        assert(rs.skip((c - 1) + 1) =~= rs.skip(c));
        if c == rs.len() {
            assert(rs.skip(c) =~= Seq::<JRecView>::empty());
            assert(jsurvivors(Seq::<JRecView>::empty(), service, allow, kw)
                == Seq::<JRecView>::empty());
            assert(page.0 =~= all);
            if limit <= all.len() {
                assert(page.0.len() == limit);
                assert(page.0 =~= all.take(limit));
            }
        } else {
            assert(page.0.len() >= limit);
            assert(page.0.len() == limit);
            assert(page.0 =~= all.take(limit));
        }
    }
}

/// Nothing is consumed only when the run is empty or the limit is.
proof fn lemma_consumed_zero(
    rs: Seq<JRecView>,
    service: Service,
    allow: Option<Seq<Seq<char>>>,
    kw: Option<Seq<char>>,
    limit: int,
)
    requires
        spec_journal_consumed(rs, service, allow, kw, limit) == 0,
    ensures
        rs.len() == 0 || limit <= 0,
        spec_journal_page(rs, service, allow, kw, limit).0.len() == 0,
{
    if rs.len() > 0 && limit > 0 {
        lemma_journal_page_consumed(rs.skip(1), service, allow, kw, limit - 1);
        lemma_journal_page_consumed(rs.skip(1), service, allow, kw, limit);
        assert(spec_journal_consumed(rs, service, allow, kw, limit) >= 1);
    }
}

/// A page emits at most its limit, and exactly the limit when enough
/// survivors remain.
proof fn lemma_page_len(
    rs: Seq<JRecView>,
    service: Service,
    allow: Option<Seq<Seq<char>>>,
    kw: Option<Seq<char>>,
    limit: int,
)
    requires
        limit >= 0,
    ensures
        spec_journal_page(rs, service, allow, kw, limit).0.len() <= limit,
    decreases rs.len(),
{
    if rs.len() > 0 && limit > 0 {
        lemma_page_len(rs.skip(1), service, allow, kw, limit - 1);
        lemma_page_len(rs.skip(1), service, allow, kw, limit);
    }
}

/// The first index whose record carries the given token.
pub open spec fn spec_find_token(rs: Seq<JRecView>, t: Seq<char>) -> Option<int>
    decreases rs.len(),
{
    if rs.len() == 0 {
        None
    } else if rs[0].token == t {
        Some(0)
    } else {
        crate::cursor::opt_shift(spec_find_token(rs.skip(1), t), 1)
    }
}

/// Finds the record a stored token points at.
fn find_token(records: &Vec<JournalRecord>, cursor: &str) -> (r: Option<usize>)
    ensures
        match r {
            Some(ix) => 0 <= ix < records@.len() && spec_find_token(jview(records@), cursor@)
                == Some(ix as int),
            None => spec_find_token(jview(records@), cursor@) is None,
        },
{
    let ghost rs = jview(records@);
    let n = records.len();
    let mut i: usize = 0;
    proof {
        assert(rs.skip(0) =~= rs);
    }
    while i < n
        invariant
            i <= n,
            n == records@.len(),
            rs == jview(records@),
            spec_find_token(rs, cursor@) == crate::cursor::opt_shift(
                spec_find_token(rs.skip(i as int), cursor@),
                i as int,
            ),
        decreases n - i,
    {
        assert(rs.skip(i as int)[0] == records@[i as int]@);
        if str_eq(records[i].token.as_str(), cursor) {
            assert(spec_find_token(rs.skip(i as int), cursor@) == Some(0int));
            return Some(i);
        }
        assert(rs.skip(i as int).skip(1) =~= rs.skip(i + 1));
        i += 1;
    }
    assert(rs.skip(n as int) =~= Seq::<JRecView>::empty());
    None
}

/// The forward resume (the next, older page): the stored token names the
/// last record already delivered, so reading continues just after it; an
/// unknown token is a hard error.
pub fn process_older_logs(
    records: &Vec<JournalRecord>,
    service: Service,
    cursor: &str,
    limit: usize,
    ev_type: &Option<Vec<String>>,
    filter: &Option<String>,
) -> (r: Result<(Vec<EventData>, Option<String>), PaginateError>)
    ensures
        match r {
            Ok(page) => spec_find_token(jview(records@), cursor@) matches Some(ix) && (
            spec_service_valid(service) ==> journal_resume_matches(
                jview(records@).skip(spec_find_token(jview(records@), cursor@)->0 + 1),
                service,
                spec_allow_of(*ev_type),
                crate::paginate::kw_view(filter),
                limit as int,
                cursor@,
                page,
            )),
            Err(e) => e == PaginateError::CursorNotFound && spec_find_token(
                jview(records@),
                cursor@,
            ) is None,
        },
{
    let n = records.len();
    match find_token(records, cursor) {
        None => Err(PaginateError::CursorNotFound),
        Some(ix) => {
            assert(ix < n);
            let page = journal_forward(records, ix + 1, service, limit, ev_type, filter);
            let token = match page.1 {
                Some(t) => Some(t),
                None => Some(cursor.to_owned()),
            };
            Ok((page.0, token))
        },
    }
}

/// The backward page (previous): from the stored token's position the
/// records before it are walked most recent first, so the last delivered
/// record is not re-delivered; an unknown token is a hard error.
pub fn process_previous_logs(
    records: &Vec<JournalRecord>,
    service: Service,
    cursor: &str,
    limit: usize,
    ev_type: &Option<Vec<String>>,
    filter: &Option<String>,
) -> (r: Result<(Vec<EventData>, Option<String>), PaginateError>)
    ensures
        match r {
            Ok(page) => spec_find_token(jview(records@), cursor@) matches Some(ix) && (
            spec_service_valid(service) ==> journal_resume_matches(
                jview(records@).take(spec_find_token(jview(records@), cursor@)->0).reverse(),
                service,
                spec_allow_of(*ev_type),
                crate::paginate::kw_view(filter),
                limit as int,
                cursor@,
                page,
            )),
            Err(e) => e == PaginateError::CursorNotFound && spec_find_token(
                jview(records@),
                cursor@,
            ) is None,
        },
{
    let ix = match find_token(records, cursor) {
        None => {
            return Err(PaginateError::CursorNotFound);
        },
        Some(ix) => ix,
    };
    let ghost rs = jview(records@);
    let mut rev: Vec<JournalRecord> = Vec::new();
    let mut t: usize = 0;
    while t < ix
        invariant
            t <= ix <= records@.len(),
            rs == jview(records@),
            rev@.len() == t,
            forall|q: int| 0 <= q < t ==> (#[trigger] rev@[q])@ == rs[ix - 1 - q],
        decreases ix - t,
    {
        let src = &records[ix - 1 - t];
        let copy = JournalRecord { fields: clone_entry(&src.fields), token: src.token.clone() };
        proof {
            assert(copy@ == records@[ix - 1 - t]@);
            assert(rs[ix - 1 - t] == records@[ix - 1 - t]@);
        }
        rev.push(copy);
        t += 1;
    }
    proof {
        assert(jview(rev@) =~= rs.take(ix as int).reverse());
        assert(jview(rev@).skip(0) =~= jview(rev@));
    }
    let page = journal_forward(&rev, 0, service, limit, ev_type, filter);
    let token = match page.1 {
        Some(t) => Some(t),
        None => Some(cursor.to_owned()),
    };
    Ok((page.0, token))
}

/// The journal walk invariant: the page of the whole run equals the
/// records emitted so far plus the page of the remaining suffix, and the
/// running token is that of the last consumed record.
pub open spec fn journal_inv(
    rs: Seq<JRecView>,
    j: int,
    service: Service,
    a: Option<Seq<Seq<char>>>,
    k: Option<Seq<char>>,
    limit: int,
    emitted: Seq<JRecView>,
    out: Seq<EventData>,
    token: Option<String>,
) -> bool {
    let full = spec_journal_page(rs, service, a, k, limit);
    let suffix = spec_journal_page(rs.skip(j), service, a, k, limit - emitted.len());
    &&& 0 <= j <= rs.len()
    &&& full.0 == emitted + suffix.0
    &&& full.1 == match suffix.1 {
        Some(t) => Some(t),
        None => match token {
            Some(t) => Some(t@),
            None => None,
        },
    }
    &&& out.len() == emitted.len()
    &&& (forall|q: int|
        0 <= q < emitted.len() ==> {
            &&& survives(service, #[trigger] emitted[q], a, k)
            &&& spec_classify_service(service, emitted[q].fields, a) == Some(
                (out[q]@.event_type, out[q]@.data),
            )
            &&& out[q]@.raw_msg == RawView::Structured(emitted[q].fields)
            &&& out[q]@.service == service
        })
    &&& (j == 0 ==> token is None && emitted.len() == 0)
}

} // verus!
