//! The fixed registry of log classes: each service name maps to its
//! backend, its journal match filters, and (through `Service`) its rule
//! table; and the one entry point that resolves a request against the
//! registry and dispatches it to the right backend.

use vstd::prelude::*;

use crate::cursor::{Cursor, CursorType};
use crate::events::{EventData, Service};
use crate::journal::{journal_page_matches, jview, process_older_logs, process_previous_logs,
    process_upto_n_entries, spec_find_token, spec_service_valid, JournalRecord};
use crate::paginate::{fingerprint_ok, flat_page_matches, kw_view, process_manual_events_next,
    process_manual_events_previous, process_manual_events_upto_n, spec_prev_page, PaginateError};
use crate::parsers::spec_allow_of;
use crate::tables::spec_pkg_valid;
use crate::text::str_eq;

verus! {

/// The direction of one pagination request.
#[derive(Clone, Copy, Debug, PartialEq, Eq, Structural)]
pub enum ProcessLogType {
    ProcessInitialLogs,
    ProcessOlderLogs,
    ProcessPreviousLogs,
}

/// One log class's registry entry: which class it is, whether it reads
/// the flat file instead of the journal, and the journal field filters
/// (OR-combined) the backend applies for it.
pub struct ServiceConfig {
    pub service: Service,
    pub manual: bool,
    pub matches: Vec<(String, String)>,
}

/// The class a service name resolves to, and whether it is flat-file
/// backed.
pub open spec fn spec_lookup_service(name: Seq<char>) -> Option<(Service, bool)> {
    if name == "pkgmanager.events"@ {
        Some((Service::PkgManager, true))
    } else if name == "sshd.events"@ {
        Some((Service::Sshd, false))
    } else if name == "sudo.events"@ {
        Some((Service::Sudo, false))
    } else if name == "login.events"@ {
        Some((Service::Login, false))
    } else if name == "firewalld.events"@ {
        Some((Service::Firewalld, false))
    } else if name == "networkmanager.events"@ {
        Some((Service::NetworkManager, false))
    } else if name == "kernel.events"@ {
        Some((Service::Kernel, false))
    } else if name == "userchange.events"@ {
        Some((Service::UserChange, false))
    } else if name == "configchange.events"@ {
        Some((Service::ConfigChange, false))
    } else {
        None
    }
}

/// The journal field filters (OR-combined) each class applies.
pub open spec fn spec_service_matches(service: Service) -> Seq<(Seq<char>, Seq<char>)> {
    match service {
        Service::PkgManager => Seq::empty(),
        Service::Sshd => seq![
            ("_COMM"@, "sshd"@),
            ("_EXE"@, "/usr/sbin/sshd"@),
            ("_SYSTEMD_UNIT"@, "sshd.service"@),
        ],
        Service::Sudo => seq![("_COMM"@, "su"@), ("_COMM"@, "sudo"@)],
        Service::Login => seq![("SYSLOG_IDENTIFIER"@, "systemd-logind"@)],
        Service::Firewalld => seq![("_SYSTEMD_UNIT"@, "firewalld.service"@)],
        Service::NetworkManager => seq![("_SYSTEMD_UNIT"@, "NetworkManager.service"@)],
        Service::Kernel => seq![("_TRANSPORT"@, "kernel"@)],
        Service::UserChange => seq![
            ("_COMM"@, "useradd"@),
            ("_COMM"@, "groupadd"@),
            ("_COMM"@, "passwd"@),
        ],
        Service::ConfigChange => seq![("_SYSTEMD_UNIT"@, "cronie.service"@)],
    }
}

/// Builds one match pair.
fn mp(field: &str, value: &str) -> (r: (String, String))
    ensures
        r.0@ == field@,
        r.1@ == value@,
{
    (field.to_owned(), value.to_owned())
}

/// Resolves a service name against the registry: the class, the backend
/// kind, and that class's journal match filters.
pub fn lookup_service(name: &str) -> (r: Option<ServiceConfig>)
    ensures
        match r {
            Some(c) => spec_lookup_service(name@) == Some((c.service, c.manual))
                && crate::events::entry_view(c.matches@) == spec_service_matches(c.service),
            None => spec_lookup_service(name@) is None,
        },
{
    if str_eq(name, "pkgmanager.events") {
        let m: Vec<(String, String)> = Vec::new();
        assert(crate::events::entry_view(m@) =~= spec_service_matches(Service::PkgManager));
        Some(ServiceConfig { service: Service::PkgManager, manual: true, matches: m })
    } else if str_eq(name, "sshd.events") {
        let mut m: Vec<(String, String)> = Vec::new();
        m.push(mp("_COMM", "sshd"));
        m.push(mp("_EXE", "/usr/sbin/sshd"));
        m.push(mp("_SYSTEMD_UNIT", "sshd.service"));
        assert(crate::events::entry_view(m@) =~= spec_service_matches(Service::Sshd));
        Some(ServiceConfig { service: Service::Sshd, manual: false, matches: m })
    } else if str_eq(name, "sudo.events") {
        let mut m: Vec<(String, String)> = Vec::new();
        m.push(mp("_COMM", "su"));
        m.push(mp("_COMM", "sudo"));
        assert(crate::events::entry_view(m@) =~= spec_service_matches(Service::Sudo));
        Some(ServiceConfig { service: Service::Sudo, manual: false, matches: m })
    } else if str_eq(name, "login.events") {
        let mut m: Vec<(String, String)> = Vec::new();
        m.push(mp("SYSLOG_IDENTIFIER", "systemd-logind"));
        assert(crate::events::entry_view(m@) =~= spec_service_matches(Service::Login));
        Some(ServiceConfig { service: Service::Login, manual: false, matches: m })
    } else if str_eq(name, "firewalld.events") {
        let mut m: Vec<(String, String)> = Vec::new();
        m.push(mp("_SYSTEMD_UNIT", "firewalld.service"));
        assert(crate::events::entry_view(m@) =~= spec_service_matches(Service::Firewalld));
        Some(ServiceConfig { service: Service::Firewalld, manual: false, matches: m })
    } else if str_eq(name, "networkmanager.events") {
        let mut m: Vec<(String, String)> = Vec::new();
        m.push(mp("_SYSTEMD_UNIT", "NetworkManager.service"));
        assert(crate::events::entry_view(m@) =~= spec_service_matches(Service::NetworkManager));
        Some(ServiceConfig { service: Service::NetworkManager, manual: false, matches: m })
    } else if str_eq(name, "kernel.events") {
        let mut m: Vec<(String, String)> = Vec::new();
        m.push(mp("_TRANSPORT", "kernel"));
        assert(crate::events::entry_view(m@) =~= spec_service_matches(Service::Kernel));
        Some(ServiceConfig { service: Service::Kernel, manual: false, matches: m })
    } else if str_eq(name, "userchange.events") {
        let mut m: Vec<(String, String)> = Vec::new();
        m.push(mp("_COMM", "useradd"));
        m.push(mp("_COMM", "groupadd"));
        m.push(mp("_COMM", "passwd"));
        assert(crate::events::entry_view(m@) =~= spec_service_matches(Service::UserChange));
        Some(ServiceConfig { service: Service::UserChange, manual: false, matches: m })
    } else if str_eq(name, "configchange.events") {
        let mut m: Vec<(String, String)> = Vec::new();
        m.push(mp("_SYSTEMD_UNIT", "cronie.service"));
        assert(crate::events::entry_view(m@) =~= spec_service_matches(Service::ConfigChange));
        Some(ServiceConfig { service: Service::ConfigChange, manual: false, matches: m })
    } else {
        None
    }
}

/// One registry entry is consistent: its name resolves to its own class
/// and backend kind, and it carries that class's match filters.
pub open spec fn registry_entry_ok(e: (String, ServiceConfig)) -> bool {
    &&& spec_lookup_service(e.0@) == Some((e.1.service, e.1.manual))
    &&& crate::events::entry_view(e.1.matches@) == spec_service_matches(e.1.service)
}

/// The nine registered service names, in registry order.
pub open spec fn spec_registry_names() -> Seq<Seq<char>> {
    seq![
        "pkgmanager.events"@,
        "sshd.events"@,
        "sudo.events"@,
        "login.events"@,
        "firewalld.events"@,
        "networkmanager.events"@,
        "kernel.events"@,
        "userchange.events"@,
        "configchange.events"@,
    ]
}

/// The full registry: exactly one entry per log class, under the nine
/// registered names in order, each consistent with the lookup.
pub fn get_service_configs() -> (r: Vec<(String, ServiceConfig)>)
    ensures
        r@.len() == 9,
        forall|i: int| 0 <= i < r@.len() ==> (#[trigger] r@[i]).0@ == spec_registry_names()[i],
        forall|i: int| 0 <= i < r@.len() ==> registry_entry_ok(#[trigger] r@[i]),
{
    proof {
        reveal_strlit("pkgmanager.events");
        reveal_strlit("sshd.events");
        reveal_strlit("sudo.events");
        reveal_strlit("login.events");
        reveal_strlit("firewalld.events");
        reveal_strlit("networkmanager.events");
        reveal_strlit("kernel.events");
        reveal_strlit("userchange.events");
        reveal_strlit("configchange.events");
    }
    let mut r: Vec<(String, ServiceConfig)> = Vec::new();
    reg_entry(&mut r, "pkgmanager.events");
    reg_entry(&mut r, "sshd.events");
    reg_entry(&mut r, "sudo.events");
    reg_entry(&mut r, "login.events");
    reg_entry(&mut r, "firewalld.events");
    reg_entry(&mut r, "networkmanager.events");
    reg_entry(&mut r, "kernel.events");
    reg_entry(&mut r, "userchange.events");
    reg_entry(&mut r, "configchange.events");
    proof {
        assert forall|i: int| 0 <= i < r@.len() implies (#[trigger] r@[i]).0@
            == spec_registry_names()[i] by {
        }
    }
    r
}

/// Appends one registry entry; the name must be registered.
fn reg_entry(r: &mut Vec<(String, ServiceConfig)>, name: &str)
    requires
        spec_lookup_service(name@) is Some,
        forall|q: int| 0 <= q < old(r)@.len() ==> registry_entry_ok(#[trigger] old(r)@[q]),
    ensures
        final(r)@.len() == old(r)@.len() + 1,
        forall|q: int| 0 <= q < old(r)@.len() ==> (#[trigger] final(r)@[q]) == old(r)@[q],
        final(r)@.last().0@ == name@,
        forall|q: int| 0 <= q < final(r)@.len() ==> registry_entry_ok(#[trigger] final(r)@[q]),
{
    match lookup_service(name) {
        Some(c) => {
            r.push((name.to_owned(), c));
            assert forall|q: int| 0 <= q < final(r)@.len() implies registry_entry_ok(
                #[trigger] final(r)@[q],
            ) by {
                if q < old(r)@.len() {
                    assert(final(r)@[q] == old(r)@[q]);
                }
            }
        },
        None => {
            proof {
                assert(false);
            }
        },
    }
}

/// What a request against the registry must return, case by case: an
/// unregistered name fails; a flat-file class runs the manual protocol
/// against the file snapshot with a manual cursor; a journal class runs
/// the token protocol against the journal snapshot.  A cursor of the
/// wrong shape, or a missing one where the direction needs it, is an
/// error.
pub open spec fn handle_matches(
    name: Seq<char>,
    journal: Seq<crate::journal::JRecView>,
    flat: Seq<u8>,
    mode: ProcessLogType,
    cursor: Option<CursorType>,
    limit: int,
    allow: Option<Seq<Seq<char>>>,
    kw: Option<Seq<char>>,
    r: Result<(Vec<EventData>, Option<CursorType>), PaginateError>,
) -> bool {
    match spec_lookup_service(name) {
        None => r == Err::<(Vec<EventData>, Option<CursorType>), PaginateError>(
            PaginateError::UnknownService,
        ),
        Some((svc, true)) => match mode {
            ProcessLogType::ProcessInitialLogs => r matches Ok(p) && manual_result_matches(
                flat,
                0,
                limit,
                allow,
                kw,
                p,
            ),
            ProcessLogType::ProcessOlderLogs => match cursor {
                None => r == Err::<(Vec<EventData>, Option<CursorType>), PaginateError>(
                    PaginateError::MissingCursor,
                ),
                Some(CursorType::Journal(_)) => r == Err::<
                    (Vec<EventData>, Option<CursorType>),
                    PaginateError,
                >(PaginateError::WrongCursorKind),
                Some(CursorType::Manual(c)) => match r {
                    Ok(p) => spec_pkg_valid() ==> fingerprint_ok(flat, c@)
                        && manual_result_matches(flat, c@.offset as int, limit, allow, kw, p),
                    Err(e) => e == PaginateError::FingerprintMismatch && (spec_pkg_valid()
                        ==> !fingerprint_ok(flat, c@)),
                },
            },
            ProcessLogType::ProcessPreviousLogs => match cursor {
                None => r == Err::<(Vec<EventData>, Option<CursorType>), PaginateError>(
                    PaginateError::MissingCursor,
                ),
                Some(CursorType::Journal(_)) => r == Err::<
                    (Vec<EventData>, Option<CursorType>),
                    PaginateError,
                >(PaginateError::WrongCursorKind),
                Some(CursorType::Manual(c)) => match r {
                    Ok(p) => spec_pkg_valid() ==> fingerprint_ok(flat, c@) && (
                    p.0@.map_values(|e: EventData| e@) == spec_prev_page(
                        crate::scan::spec_backward(flat, c@.offset as int),
                        limit,
                        allow,
                        kw,
                    )) && (p.1 is Some ==> p.1->0 is Manual),
                    Err(e) => e == PaginateError::FingerprintMismatch && (spec_pkg_valid()
                        ==> !fingerprint_ok(flat, c@)),
                },
            },
        },
        Some((svc, false)) => match mode {
            ProcessLogType::ProcessInitialLogs => r matches Ok(p) && journal_result_matches(
                journal,
                svc,
                allow,
                kw,
                limit,
                p,
            ),
            ProcessLogType::ProcessOlderLogs => match cursor {
                None => r == Err::<(Vec<EventData>, Option<CursorType>), PaginateError>(
                    PaginateError::MissingCursor,
                ),
                Some(CursorType::Manual(_)) => r == Err::<
                    (Vec<EventData>, Option<CursorType>),
                    PaginateError,
                >(PaginateError::WrongCursorKind),
                Some(CursorType::Journal(t)) => match r {
                    Ok(p) => spec_find_token(journal, t@) matches Some(ix)
                        && journal_resume_result_matches(
                        journal.skip(ix + 1),
                        svc,
                        allow,
                        kw,
                        limit,
                        t@,
                        p,
                    ),
                    Err(e) => e == PaginateError::CursorNotFound && spec_find_token(
                        journal,
                        t@,
                    ) is None,
                },
            },
            ProcessLogType::ProcessPreviousLogs => match cursor {
                None => r == Err::<(Vec<EventData>, Option<CursorType>), PaginateError>(
                    PaginateError::MissingCursor,
                ),
                Some(CursorType::Manual(_)) => r == Err::<
                    (Vec<EventData>, Option<CursorType>),
                    PaginateError,
                >(PaginateError::WrongCursorKind),
                Some(CursorType::Journal(t)) => match r {
                    Ok(p) => spec_find_token(journal, t@) matches Some(ix)
                        && journal_resume_result_matches(
                        journal.take(ix).reverse(),
                        svc,
                        allow,
                        kw,
                        limit,
                        t@,
                        p,
                    ),
                    Err(e) => e == PaginateError::CursorNotFound && spec_find_token(
                        journal,
                        t@,
                    ) is None,
                },
            },
        },
    }
}

/// A manual page wrapped into the tagged cursor shape.
pub open spec fn manual_result_matches(
    flat: Seq<u8>,
    from: int,
    limit: int,
    allow: Option<Seq<Seq<char>>>,
    kw: Option<Seq<char>>,
    p: (Vec<EventData>, Option<CursorType>),
) -> bool {
    &&& (spec_pkg_valid() ==> flat_page_matches(flat, from, limit, allow, kw, (p.0, opt_manual(p.1))))
    &&& (p.1 is Some ==> p.1->0 is Manual)
    &&& (!spec_pkg_valid() ==> p.0@.len() == 0 && p.1 is None)
}

/// A resumed journal page wrapped into the tagged cursor shape.
pub open spec fn journal_resume_result_matches(
    rs: Seq<crate::journal::JRecView>,
    svc: Service,
    allow: Option<Seq<Seq<char>>>,
    kw: Option<Seq<char>>,
    limit: int,
    fallback: Seq<char>,
    p: (Vec<EventData>, Option<CursorType>),
) -> bool {
    &&& (spec_service_valid(svc) ==> crate::journal::journal_resume_matches(
        rs,
        svc,
        allow,
        kw,
        limit,
        fallback,
        (p.0, opt_journal(p.1)),
    ))
    &&& (p.1 is Some ==> p.1->0 is Journal)
}

/// A journal page wrapped into the tagged cursor shape.
pub open spec fn journal_result_matches(
    rs: Seq<crate::journal::JRecView>,
    svc: Service,
    allow: Option<Seq<Seq<char>>>,
    kw: Option<Seq<char>>,
    limit: int,
    p: (Vec<EventData>, Option<CursorType>),
) -> bool {
    &&& (spec_service_valid(svc) ==> journal_page_matches(
        rs,
        svc,
        allow,
        kw,
        limit,
        (p.0, opt_journal(p.1)),
    ))
    &&& (p.1 is Some ==> p.1->0 is Journal)
}

/// Resolves a request against the registry and runs it against the right
/// backend snapshot.
pub fn handle_service_event(
    service_name: &str,
    journal: &Vec<JournalRecord>,
    flat: &[u8],
    mode: ProcessLogType,
    cursor: Option<&CursorType>,
    limit: usize,
    ev_type: &Option<Vec<String>>,
    filter: &Option<String>,
) -> (r: Result<(Vec<EventData>, Option<CursorType>), PaginateError>)
    ensures
        handle_matches(
            service_name@,
            jview(journal@),
            flat@,
            mode,
            match cursor {
                Some(c) => Some(*c),
                None => None,
            },
            limit as int,
            spec_allow_of(*ev_type),
            kw_view(filter),
            r,
        ),
{
    let config = match lookup_service(service_name) {
        Some(c) => c,
        None => {
            return Err(PaginateError::UnknownService);
        },
    };
    if config.manual {
        match mode {
            ProcessLogType::ProcessInitialLogs => {
                let names = crate::journal::clone_names(ev_type);
                let kw = clone_filter(filter);
                let page = process_manual_events_upto_n(flat, limit, names, kw);
                Ok((page.0, wrap_manual(page.1)))
            },
            ProcessLogType::ProcessOlderLogs => match cursor {
                None => Err(PaginateError::MissingCursor),
                Some(CursorType::Journal(_)) => Err(PaginateError::WrongCursorKind),
                Some(CursorType::Manual(c)) => {
                    let names = crate::journal::clone_names(ev_type);
                    let kw = clone_filter(filter);
                    match process_manual_events_next(flat, c, limit, names, kw) {
                        Ok(page) => Ok((page.0, wrap_manual(page.1))),
                        Err(e) => Err(e),
                    }
                },
            },
            ProcessLogType::ProcessPreviousLogs => match cursor {
                None => Err(PaginateError::MissingCursor),
                Some(CursorType::Journal(_)) => Err(PaginateError::WrongCursorKind),
                Some(CursorType::Manual(c)) => {
                    let names = crate::journal::clone_names(ev_type);
                    let kw = clone_filter(filter);
                    match process_manual_events_previous(flat, c, limit, names, kw) {
                        Ok(page) => Ok((page.0, wrap_manual(page.1))),
                        Err(e) => Err(e),
                    }
                },
            },
        }
    } else {
        match mode {
            ProcessLogType::ProcessInitialLogs => {
                let page = process_upto_n_entries(journal, config.service, limit, ev_type, filter);
                Ok((page.0, wrap_journal(page.1)))
            },
            ProcessLogType::ProcessOlderLogs => match cursor {
                None => Err(PaginateError::MissingCursor),
                Some(CursorType::Manual(_)) => Err(PaginateError::WrongCursorKind),
                Some(CursorType::Journal(t)) => match process_older_logs(
                    journal,
                    config.service,
                    t.as_str(),
                    limit,
                    ev_type,
                    filter,
                ) {
                    Ok(page) => Ok((page.0, wrap_journal(page.1))),
                    Err(e) => Err(e),
                },
            },
            ProcessLogType::ProcessPreviousLogs => match cursor {
                None => Err(PaginateError::MissingCursor),
                Some(CursorType::Manual(_)) => Err(PaginateError::WrongCursorKind),
                Some(CursorType::Journal(t)) => match process_previous_logs(
                    journal,
                    config.service,
                    t.as_str(),
                    limit,
                    ev_type,
                    filter,
                ) {
                    Ok(page) => Ok((page.0, wrap_journal(page.1))),
                    Err(e) => Err(e),
                },
            },
        }
    }
}

/// Clones the optional keyword.
fn clone_filter(o: &Option<String>) -> (r: Option<String>)
    ensures
        kw_view(&r) == kw_view(o),
{
    match o {
        None => None,
        Some(k) => Some(k.clone()),
    }
}

/// Tags an optional manual cursor.
fn wrap_manual(o: Option<Cursor>) -> (r: Option<CursorType>)
    ensures
        opt_manual(r) == o,
        r is Some <==> o is Some,
        r is Some ==> r->0 is Manual,
{
    match o {
        Some(c) => Some(CursorType::Manual(c)),
        None => None,
    }
}

/// Tags an optional journal token.
fn wrap_journal(o: Option<String>) -> (r: Option<CursorType>)
    ensures
        opt_journal(r) == o,
        r is Some <==> o is Some,
        r is Some ==> r->0 is Journal,
{
    match o {
        Some(t) => Some(CursorType::Journal(t)),
        None => None,
    }
}

/// The set of journal unit names one live request drains; a request names
/// at most one.
pub struct Journalunits {
    pub journal_units: Vec<String>,
}

impl Journalunits {
    /// A fresh, empty unit list.
    pub fn new() -> (r: Vec<String>)
        ensures
            r@.len() == 0,
    {
        Vec::new()
    }
}

/// A requested batch size.
pub struct ChunkSize {
    pub size: usize,
}

/// The model behind the landing page: the name it greets.
pub struct HelloTemplate {
    pub name: String,
}

/// The manual cursor inside an optional cursor, if that is its shape.
pub open spec fn opt_manual(o: Option<CursorType>) -> Option<Cursor> {
    match o {
        Some(CursorType::Manual(c)) => Some(c),
        _ => None,
    }
}

/// The journal token inside an optional cursor, if that is its shape.
pub open spec fn opt_journal(o: Option<CursorType>) -> Option<String> {
    match o {
        Some(CursorType::Journal(t)) => Some(t),
        _ => None,
    }
}

} // verus!
