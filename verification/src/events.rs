//! The data model: raw records, log classes, fine-grained event kinds and
//! classified events, together with the keyword filter that pagination and
//! live tailing apply to raw records.

use vstd::prelude::*;

use crate::text::{lower_of, spec_contains, str_contains, str_eq, to_lowercase};

verus! {

/// A structured record: one journal entry as an ordered field-name/value map.
pub type Entry = Vec<(String, String)>;

/// The mathematical view of an `Entry`.
pub open spec fn entry_view(e: Seq<(String, String)>) -> Seq<(Seq<char>, Seq<char>)> {
    Seq::new(e.len(), |i: int| (e[i].0@, e[i].1@))
}

/// The value of the first pair carrying `key`, if any.
pub open spec fn spec_entry_get(pairs: Seq<(Seq<char>, Seq<char>)>, key: Seq<char>) -> Option<
    Seq<char>,
>
    decreases pairs.len(),
{
    if pairs.len() == 0 {
        None
    } else if pairs[0].0 == key {
        Some(pairs[0].1)
    } else {
        spec_entry_get(pairs.skip(1), key)
    }
}

/// Looks a field up in a structured record; the first pair with the given
/// name wins.
pub fn entry_get(e: &Entry, key: &str) -> (r: Option<String>)
    ensures
        match r {
            Some(v) => spec_entry_get(entry_view(e@), key@) == Some(v@),
            None => spec_entry_get(entry_view(e@), key@) is None,
        },
{
    let n = e.len();
    let mut i: usize = 0;
    assert(entry_view(e@).skip(0) =~= entry_view(e@));
    while i < n
        invariant
            i <= n,
            n == e@.len(),
            spec_entry_get(entry_view(e@).skip(i as int), key@) == spec_entry_get(
                entry_view(e@),
                key@,
            ),
        decreases n - i,
    {
        assert(entry_view(e@).skip(i as int)[0] == (e@[i as int].0@, e@[i as int].1@));
        if str_eq(e[i].0.as_str(), key) {
            return Some(e[i].1.clone());
        }
        assert(entry_view(e@).skip(i as int).skip(1) =~= entry_view(e@).skip(i + 1));
        i += 1;
    }
    assert(entry_view(e@).skip(i as int) =~= Seq::<(Seq<char>, Seq<char>)>::empty());
    None
}

/// A raw record before classification: a journal field map or one flat-file
/// line.
#[derive(Clone, Debug)]
pub enum RawMsgType {
    Structured(Entry),
    Plain(String),
}

/// Ghost view of a raw record.
pub enum RawView {
    Structured(Seq<(Seq<char>, Seq<char>)>),
    Plain(Seq<char>),
}

impl View for RawMsgType {
    type V = RawView;

    open spec fn view(&self) -> RawView {
        match self {
            RawMsgType::Structured(e) => RawView::Structured(entry_view(e@)),
            RawMsgType::Plain(s) => RawView::Plain(s@),
        }
    }
}

/// The log classes the engine knows.
#[derive(Clone, Copy, Debug, PartialEq, Eq, Hash, Structural)]
pub enum Service {
    Sshd,
    Sudo,
    Login,
    UserChange,
    PkgManager,
    ConfigChange,
    NetworkManager,
    Firewalld,
    Kernel,
}

#[derive(Clone, Copy, Debug, PartialEq, Eq, Hash, Structural)]
pub enum AuthEvent {
    Success,
    Failure,
    SessionOpened,
    SessionClosed,
    ConnectionClosed,
    TooManyAuthFailures,
    IncorrectPassword,
    AuthError,
    AuthFailure,
    NotInSudoers,
    AccountExpired,
    NologinRefused,
    Warning,
    Info,
    Other,
}

#[derive(Clone, Copy, Debug, PartialEq, Eq, Hash, Structural)]
pub enum UserEvent {
    NewUser,
    NewGroup,
    DeleteGroup,
    DeleteUser,
    ModifyUser,
    ModifyGroup,
    PasswdChange,
    Info,
    Other,
}

#[derive(Clone, Copy, Debug, PartialEq, Eq, Hash, Structural)]
pub enum PkgEvent {
    Installed,
    Removed,
    Upgraded,
    Reinstalled,
    Downgraded,
    Other,
}

#[derive(Clone, Copy, Debug, PartialEq, Eq, Hash, Structural)]
pub enum ConfigEvent {
    CmdRun,
    CronReload,
    SessionOpened,
    SessionClosed,
    Failure,
    Info,
    Other,
}

#[derive(Clone, Copy, Debug, PartialEq, Eq, Hash, Structural)]
pub enum NetworkEvent {
    NewConnection,
    ConnectionActivated,
    ConnectionDeactivated,
    DhcpLease,
    IpConfig,
    DeviceAdded,
    DeviceRemoved,
    WifiAssociationSuccess,
    WifiAuthFailure,
    StateChange,
    ConnectionAttempt,
    PolicyChange,
    WifiScan,
    DnsConfig,
    VpnEvent,
    FirewallEvent,
    AgentRequest,
    ConnectivityCheck,
    DispatcherEvent,
    LinkEvent,
    AuditEvent,
    VirtualDeviceEvent,
    SystemdEvent,
    Warning,
    Other,
    Error,
}

#[derive(Clone, Copy, Debug, PartialEq, Eq, Hash, Structural)]
pub enum FirewallEvent {
    ServiceStarted,
    ServiceStopped,
    ConfigReloaded,
    ZoneChanged,
    ServiceModified,
    PortModified,
    RuleApplied,
    IptablesCommand,
    InterfaceBinding,
    CommandFailed,
    OperationStatus,
    ModuleMessage,
    DBusMessage,
    Warning,
    Error,
    Info,
    Other,
}

#[derive(Clone, Copy, Debug, PartialEq, Eq, Hash, Structural)]
pub enum KernelEvent {
    Panic,
    OomKill,
    Segfault,
    UsbError,
    UsbDescriptorError,
    UsbDeviceEvent,
    DiskError,
    FsMount,
    FsError,
    CpuError,
    MemoryError,
    DeviceDetected,
    DriverEvent,
    NetInterface,
    PciDevice,
    AcpiEvent,
    ThermalEvent,
    DmaError,
    AuditEvent,
    KernelTaint,
    FirmwareLoad,
    IrqEvent,
    TaskKilled,
    RcuStall,
    Watchdog,
    BootEvent,
    Emergency,
    Alert,
    Critical,
    Error,
    Warning,
    Notice,
    Info,
    Other,
}

#[derive(Clone, Copy, Debug, PartialEq, Eq, Hash, Structural)]
pub enum SystemEvent {
    Info,
    Warning,
    Error,
    Other,
}

/// The classified kind of an event: one case per log class, each nesting
/// that class's fine-grained kinds.
#[derive(Clone, Copy, Debug, PartialEq, Eq, Hash, Structural)]
pub enum EventType {
    Auth(AuthEvent),
    User(UserEvent),
    Package(PkgEvent),
    Network(NetworkEvent),
    Firewall(FirewallEvent),
    Kernel(KernelEvent),
    Config(ConfigEvent),
    System(SystemEvent),
}

/// A classified event: the typed output of running one raw record through a
/// rule table.
#[derive(Clone, Debug)]
pub struct EventData {
    pub timestamp: String,
    pub service: Service,
    pub event_type: EventType,
    pub data: Vec<(String, String)>,
    pub raw_msg: RawMsgType,
}

/// Ghost view of a classified event.
pub struct EventView {
    pub timestamp: Seq<char>,
    pub service: Service,
    pub event_type: EventType,
    pub data: Seq<(Seq<char>, Seq<char>)>,
    pub raw_msg: RawView,
}

impl View for EventData {
    type V = EventView;

    open spec fn view(&self) -> EventView {
        EventView {
            timestamp: self.timestamp@,
            service: self.service,
            event_type: self.event_type,
            data: entry_view(self.data@),
            raw_msg: self.raw_msg@,
        }
    }
}

/// Whether some field value in the list contains the (already lowered)
/// keyword, case-insensitively.
pub open spec fn any_value_matches(pairs: Seq<(Seq<char>, Seq<char>)>, pat: Seq<char>) -> bool
    decreases pairs.len(),
{
    if pairs.len() == 0 {
        false
    } else {
        spec_contains(lower_of(pairs[0].1), lower_of(pat)) || any_value_matches(
            pairs.skip(1),
            pat,
        )
    }
}

/// Whether a raw record contains the keyword, case-insensitively: a plain
/// line is searched as a whole, a structured record across all field values.
pub open spec fn raw_matches_keyword(raw: RawView, pat: Seq<char>) -> bool {
    match raw {
        RawView::Plain(s) => spec_contains(lower_of(s), lower_of(pat)),
        RawView::Structured(pairs) => any_value_matches(pairs, pat),
    }
}

/// A later-indexed witness still makes `any_value_matches` true.
proof fn lemma_any_value_matches_witness(
    pairs: Seq<(Seq<char>, Seq<char>)>,
    pat: Seq<char>,
    i: int,
)
    requires
        0 <= i < pairs.len(),
        spec_contains(lower_of(pairs[i].1), lower_of(pat)),
    ensures
        any_value_matches(pairs, pat),
    decreases pairs.len(),
{
    if i > 0 {
        assert(pairs.skip(1)[i - 1] == pairs[i]);
        lemma_any_value_matches_witness(pairs.skip(1), pat, i - 1);
    }
}

/// If no field value matches, `any_value_matches` is false.
proof fn lemma_any_value_matches_none(pairs: Seq<(Seq<char>, Seq<char>)>, pat: Seq<char>)
    requires
        forall|i: int|
            0 <= i < pairs.len() ==> !spec_contains(lower_of((#[trigger] pairs[i]).1), lower_of(pat)),
    ensures
        !any_value_matches(pairs, pat),
    decreases pairs.len(),
{
    if pairs.len() > 0 {
        assert forall|i: int|
            0 <= i < pairs.skip(1).len() implies !spec_contains(
            lower_of((#[trigger] pairs.skip(1)[i]).1),
            lower_of(pat),
        ) by {
            assert(pairs.skip(1)[i] == pairs[i + 1]);
        }
        lemma_any_value_matches_none(pairs.skip(1), pat);
    }
}

impl RawMsgType {
    /// Case-insensitive keyword search over the raw record, exactly as the
    /// pagination keyword filter applies it.
    pub fn contains_bytes(&self, pat: &str) -> (r: bool)
        ensures
            r == raw_matches_keyword(self@, pat@),
    {
        let pat_lower = to_lowercase(pat);
        match self {
            RawMsgType::Plain(s) => {
                let s_lower = to_lowercase(s.as_str());
                str_contains(s_lower.as_str(), pat_lower.as_str())
            },
            RawMsgType::Structured(map) => {
                let n = map.len();
                let mut i: usize = 0;
                while i < n
                    invariant
                        i <= n,
                        n == map@.len(),
                        self@ == RawView::Structured(entry_view(map@)),
                        pat_lower@ == lower_of(pat@),
                        forall|j: int|
                            0 <= j < i ==> !spec_contains(
                                lower_of((#[trigger] entry_view(map@)[j]).1),
                                lower_of(pat@),
                            ),
                    decreases n - i,
                {
                    let v_lower = to_lowercase(map[i].1.as_str());
                    assert(entry_view(map@)[i as int].1 == map@[i as int].1@);
                    if str_contains(v_lower.as_str(), pat_lower.as_str()) {
                        proof {
                            lemma_any_value_matches_witness(entry_view(map@), pat@, i as int);
                        }
                        return true;
                    }
                    i += 1;
                }
                proof {
                    lemma_any_value_matches_none(entry_view(map@), pat@);
                }
                false
            },
        }
    }
}

/// Whether an event passes the optional keyword filter: no keyword admits
/// everything.
pub open spec fn passes_keyword(raw: RawView, filter: Option<Seq<char>>) -> bool {
    match filter {
        None => true,
        Some(pat) => raw_matches_keyword(raw, pat),
    }
}

} // verus!
