//! The rule tables, one per log class, as data: name, pattern source,
//! field-extraction map and event kind for every rule, in priority order
//! (the first matching rule wins).  Each table exists twice: as a
//! spec-level sequence, which is what every contract speaks of, and as a
//! builder that compiles the same patterns at run time; the builder's
//! contract ties the two together, and fails exactly when the regex engine
//! rejects one of the fixed pattern sources.

use vstd::prelude::*;

use crate::events::{AuthEvent, ConfigEvent, EventType, FirewallEvent, KernelEvent, NetworkEvent,
    PkgEvent, UserEvent};
use crate::rules::{fld, push_rule, rules_view, rx_valid, Rule, RuleView};

verus! {

/// The ssh daemon table.
pub open spec fn spec_sshd_rules() -> Seq<RuleView> {
    seq![
        RuleView {
            name: "AUTH_SUCCESS"@,
            pattern: r"(?x)^Accepted\s+(\w+)\s+for\s+(\S+)\s+from\s+([0-9A-Fa-f:.]+)\s+port\s+(\d+)(?:\s+ssh\d*)?\s*$"@,
            fields: seq![("user"@, 2usize), ("ip"@, 3usize), ("port"@, 4usize), ("method"@, 1usize)],
            kind: EventType::Auth(AuthEvent::Success),
        },
        RuleView {
            name: "AUTH_FAILURE"@,
            pattern: r"(?x)^Failed\s+(\w+)\s+for\s+(?:invalid\s+user\s+)?(\S+)\s+from\s+([0-9A-Fa-f:.]+)\s+port\s+(\d+)(?:\s+ssh\d*)?\s*$"@,
            fields: seq![("method"@, 1usize), ("user"@, 2usize), ("ip"@, 3usize), ("port"@, 4usize)],
            kind: EventType::Auth(AuthEvent::Failure),
        },
        RuleView {
            name: "SESSION_OPENED"@,
            pattern: r"(?x)^pam_unix\(sshd:session\):\s+session\s+opened(?:\s+for\s+user\s+(\S+))?"@,
            fields: seq![("user"@, 1usize)],
            kind: EventType::Auth(AuthEvent::SessionOpened),
        },
        RuleView {
            name: "SESSION_CLOSED"@,
            pattern: r"(?x)^pam_unix\(sshd:session\):\s+session\s+closed(?:\s+for\s+user\s+(\S+))?"@,
            fields: seq![("user"@, 1usize)],
            kind: EventType::Auth(AuthEvent::SessionClosed),
        },
        RuleView {
            name: "CONNECTION_CLOSED"@,
            pattern: r"(?x)^Connection\s+(?:closed|reset)(?:\s+by(?:\s+authenticating\s+user)?\s+(\S+))?\s+([0-9A-Fa-f:.]+)\s+port\s+(\d+)(?:\s+\[([^\]]+)\])?\s*$"@,
            fields: seq![("user"@, 1usize), ("ip"@, 2usize), ("port"@, 3usize)],
            kind: EventType::Auth(AuthEvent::ConnectionClosed),
        },
        RuleView {
            name: "RECEIVED_DISCONNECT"@,
            pattern: r"(?x)^Received\s+disconnect\s+from\s+([0-9A-Fa-f:.]+)(?:\s+port\s+(\d+))?:\s*(\d+):\s*(.+?)(?:\s+\[preauth\])?\s*$"@,
            fields: seq![("msg"@, 1usize)],
            kind: EventType::Auth(AuthEvent::Other),
        },
        RuleView {
            name: "NEGOTIATION_FAILURE"@,
            pattern: r"(?x)^Unable\s+to\s+negotiate(?:\s+with)?\s+([0-9A-Fa-f:.]+)(?:\s+port\s+(\d+))?:\s*(?:no\s+matching|no\s+matching\s+.*\s+found|no matching .* found).*$"@,
            fields: seq![("msg"@, 1usize)],
            kind: EventType::Auth(AuthEvent::Other),
        },
        RuleView {
            name: "TOO_MANY_AUTH"@,
            pattern: r"(?x)^(?:Disconnecting:|Disconnected:)?\s*Too\s+many\s+authentication\s+failures(?:\s+for\s+(?:invalid\s+user\s+)?(\S+))?\s*(?:\[preauth\])?\s*$"@,
            fields: seq![("user"@, 1usize)],
            kind: EventType::Auth(AuthEvent::TooManyAuthFailures),
        },
        RuleView {
            name: "WARNING"@,
            pattern: r"(?x)^(?:warning:|WARNING:|error:|fatal:)?\s*(.+\S)\s*$"@,
            fields: seq![("msg"@, 1usize)],
            kind: EventType::Auth(AuthEvent::Warning),
        },
        RuleView {
            name: "UNKNOWN"@,
            pattern: r"(?s)^(.*\S.*)$"@,
            fields: seq![("msg"@, 1usize)],
            kind: EventType::Auth(AuthEvent::Other),
        },
        RuleView {
            name: "INVALID_PROTOCOL_ID"@,
            pattern: r"(?x)^kex_exchange_identification:\s*(?:read:\s*)?(Client\s+sent\s+invalid\s+protocol\s+identifier|Connection\s+(?:closed\s+by\s+remote\s+host|reset\s+by\s+peer))\s*$"@,
            fields: seq![("msg"@, 1usize)],
            kind: EventType::Auth(AuthEvent::Other),
        },
        RuleView {
            name: "BAD_PROTOCOL_VERSION"@,
            pattern: r"(?x)^Bad\s+protocol\s+version\s+identification\s+'(.+?)'(?:\s+from\s+([0-9A-Fa-f:.]+))?(?:\s+port\s+(\d+))?\s*$"@,
            fields: seq![("msg"@, 1usize)],
            kind: EventType::Auth(AuthEvent::Other),
        },
        RuleView {
            name: "MAJOR_VERSION_DIFF"@,
            pattern: r"(?x)^Protocol\s+major\s+versions\s+differ\s+for\s+([0-9A-Fa-f:.]+)\s+port\s+(\d+):\s*(\d+)\s*vs\.\s*(\d+)\s*$"@,
            fields: seq![("msg"@, 1usize)],
            kind: EventType::Auth(AuthEvent::Other),
        },
        RuleView {
            name: "BANNER_OR_DISPATCH_ERROR"@,
            pattern: r"(?x)^(?:banner\s+exchange|ssh_dispatch_run_fatal):\s+Connection\s+from\s+([0-9A-Fa-f:.]+)\s+port\s+(\d+):\s*(invalid\s+format|message\s+authentication\s+code\s+incorrect|Connection\s+corrupted)(?:\s+\[preauth\])?\s*$"@,
            fields: seq![("msg"@, 1usize)],
            kind: EventType::Auth(AuthEvent::Other),
        },
        RuleView {
            name: "SOCKET_READ_FAILURE"@,
            pattern: r"(?x)^Read\s+from\s+socket\s+failed:\s+Connection\s+(?:reset|closed)\s+by\s+peer\s*$"@,
            fields: seq![("msg"@, 1usize)],
            kind: EventType::Auth(AuthEvent::Other),
        },
        RuleView {
            name: "UNKNOWN"@,
            pattern: r"(?s)^(.*\S.*)$"@,
            fields: seq![("msg"@, 1usize)],
            kind: EventType::Auth(AuthEvent::Other),
        },
    ]
}

/// Whether every pattern of the ssh daemon table compiles.
pub open spec fn spec_sshd_valid() -> bool {
    &&& rx_valid(r"(?x)^Accepted\s+(\w+)\s+for\s+(\S+)\s+from\s+([0-9A-Fa-f:.]+)\s+port\s+(\d+)(?:\s+ssh\d*)?\s*$"@)
    &&& rx_valid(r"(?x)^Failed\s+(\w+)\s+for\s+(?:invalid\s+user\s+)?(\S+)\s+from\s+([0-9A-Fa-f:.]+)\s+port\s+(\d+)(?:\s+ssh\d*)?\s*$"@)
    &&& rx_valid(r"(?x)^pam_unix\(sshd:session\):\s+session\s+opened(?:\s+for\s+user\s+(\S+))?"@)
    &&& rx_valid(r"(?x)^pam_unix\(sshd:session\):\s+session\s+closed(?:\s+for\s+user\s+(\S+))?"@)
    &&& rx_valid(r"(?x)^Connection\s+(?:closed|reset)(?:\s+by(?:\s+authenticating\s+user)?\s+(\S+))?\s+([0-9A-Fa-f:.]+)\s+port\s+(\d+)(?:\s+\[([^\]]+)\])?\s*$"@)
    &&& rx_valid(r"(?x)^Received\s+disconnect\s+from\s+([0-9A-Fa-f:.]+)(?:\s+port\s+(\d+))?:\s*(\d+):\s*(.+?)(?:\s+\[preauth\])?\s*$"@)
    &&& rx_valid(r"(?x)^Unable\s+to\s+negotiate(?:\s+with)?\s+([0-9A-Fa-f:.]+)(?:\s+port\s+(\d+))?:\s*(?:no\s+matching|no\s+matching\s+.*\s+found|no matching .* found).*$"@)
    &&& rx_valid(r"(?x)^(?:Disconnecting:|Disconnected:)?\s*Too\s+many\s+authentication\s+failures(?:\s+for\s+(?:invalid\s+user\s+)?(\S+))?\s*(?:\[preauth\])?\s*$"@)
    &&& rx_valid(r"(?x)^(?:warning:|WARNING:|error:|fatal:)?\s*(.+\S)\s*$"@)
    &&& rx_valid(r"(?s)^(.*\S.*)$"@)
    &&& rx_valid(r"(?x)^kex_exchange_identification:\s*(?:read:\s*)?(Client\s+sent\s+invalid\s+protocol\s+identifier|Connection\s+(?:closed\s+by\s+remote\s+host|reset\s+by\s+peer))\s*$"@)
    &&& rx_valid(r"(?x)^Bad\s+protocol\s+version\s+identification\s+'(.+?)'(?:\s+from\s+([0-9A-Fa-f:.]+))?(?:\s+port\s+(\d+))?\s*$"@)
    &&& rx_valid(r"(?x)^Protocol\s+major\s+versions\s+differ\s+for\s+([0-9A-Fa-f:.]+)\s+port\s+(\d+):\s*(\d+)\s*vs\.\s*(\d+)\s*$"@)
    &&& rx_valid(r"(?x)^(?:banner\s+exchange|ssh_dispatch_run_fatal):\s+Connection\s+from\s+([0-9A-Fa-f:.]+)\s+port\s+(\d+):\s*(invalid\s+format|message\s+authentication\s+code\s+incorrect|Connection\s+corrupted)(?:\s+\[preauth\])?\s*$"@)
    &&& rx_valid(r"(?x)^Read\s+from\s+socket\s+failed:\s+Connection\s+(?:reset|closed)\s+by\s+peer\s*$"@)
    &&& rx_valid(r"(?s)^(.*\S.*)$"@)
}

/// Builds the ssh daemon table; `None` exactly when some pattern is
/// rejected by the regex engine.
#[verifier::rlimit(50)]
pub fn sshd_rules() -> (r: Option<Vec<Rule>>)
    ensures
        r matches Some(t) ==> rules_view(t@) == spec_sshd_rules(),
        r is Some ==> spec_sshd_valid(),
        r is None ==> !spec_sshd_valid(),
{
    let mut t: Vec<Rule> = Vec::new();
    let mut f: Vec<(String, usize)> = Vec::new();
    f.push(fld("user", 2));
    f.push(fld("ip", 3));
    f.push(fld("port", 4));
    f.push(fld("method", 1));
    if !push_rule(&mut t, "AUTH_SUCCESS", r"(?x)^Accepted\s+(\w+)\s+for\s+(\S+)\s+from\s+([0-9A-Fa-f:.]+)\s+port\s+(\d+)(?:\s+ssh\d*)?\s*$", f, EventType::Auth(AuthEvent::Success)) {
        return None;
    }
    let mut f: Vec<(String, usize)> = Vec::new();
    f.push(fld("method", 1));
    f.push(fld("user", 2));
    f.push(fld("ip", 3));
    f.push(fld("port", 4));
    if !push_rule(&mut t, "AUTH_FAILURE", r"(?x)^Failed\s+(\w+)\s+for\s+(?:invalid\s+user\s+)?(\S+)\s+from\s+([0-9A-Fa-f:.]+)\s+port\s+(\d+)(?:\s+ssh\d*)?\s*$", f, EventType::Auth(AuthEvent::Failure)) {
        return None;
    }
    let mut f: Vec<(String, usize)> = Vec::new();
    f.push(fld("user", 1));
    if !push_rule(&mut t, "SESSION_OPENED", r"(?x)^pam_unix\(sshd:session\):\s+session\s+opened(?:\s+for\s+user\s+(\S+))?", f, EventType::Auth(AuthEvent::SessionOpened)) {
        return None;
    }
    let mut f: Vec<(String, usize)> = Vec::new();
    f.push(fld("user", 1));
    if !push_rule(&mut t, "SESSION_CLOSED", r"(?x)^pam_unix\(sshd:session\):\s+session\s+closed(?:\s+for\s+user\s+(\S+))?", f, EventType::Auth(AuthEvent::SessionClosed)) {
        return None;
    }
    let mut f: Vec<(String, usize)> = Vec::new();
    f.push(fld("user", 1));
    f.push(fld("ip", 2));
    f.push(fld("port", 3));
    if !push_rule(&mut t, "CONNECTION_CLOSED", r"(?x)^Connection\s+(?:closed|reset)(?:\s+by(?:\s+authenticating\s+user)?\s+(\S+))?\s+([0-9A-Fa-f:.]+)\s+port\s+(\d+)(?:\s+\[([^\]]+)\])?\s*$", f, EventType::Auth(AuthEvent::ConnectionClosed)) {
        return None;
    }
    let mut f: Vec<(String, usize)> = Vec::new();
    f.push(fld("msg", 1));
    if !push_rule(&mut t, "RECEIVED_DISCONNECT", r"(?x)^Received\s+disconnect\s+from\s+([0-9A-Fa-f:.]+)(?:\s+port\s+(\d+))?:\s*(\d+):\s*(.+?)(?:\s+\[preauth\])?\s*$", f, EventType::Auth(AuthEvent::Other)) {
        return None;
    }
    let mut f: Vec<(String, usize)> = Vec::new();
    f.push(fld("msg", 1));
    if !push_rule(&mut t, "NEGOTIATION_FAILURE", r"(?x)^Unable\s+to\s+negotiate(?:\s+with)?\s+([0-9A-Fa-f:.]+)(?:\s+port\s+(\d+))?:\s*(?:no\s+matching|no\s+matching\s+.*\s+found|no matching .* found).*$", f, EventType::Auth(AuthEvent::Other)) {
        return None;
    }
    let mut f: Vec<(String, usize)> = Vec::new();
    f.push(fld("user", 1));
    if !push_rule(&mut t, "TOO_MANY_AUTH", r"(?x)^(?:Disconnecting:|Disconnected:)?\s*Too\s+many\s+authentication\s+failures(?:\s+for\s+(?:invalid\s+user\s+)?(\S+))?\s*(?:\[preauth\])?\s*$", f, EventType::Auth(AuthEvent::TooManyAuthFailures)) {
        return None;
    }
    let mut f: Vec<(String, usize)> = Vec::new();
    f.push(fld("msg", 1));
    if !push_rule(&mut t, "WARNING", r"(?x)^(?:warning:|WARNING:|error:|fatal:)?\s*(.+\S)\s*$", f, EventType::Auth(AuthEvent::Warning)) {
        return None;
    }
    let mut f: Vec<(String, usize)> = Vec::new();
    f.push(fld("msg", 1));
    if !push_rule(&mut t, "UNKNOWN", r"(?s)^(.*\S.*)$", f, EventType::Auth(AuthEvent::Other)) {
        return None;
    }
    let mut f: Vec<(String, usize)> = Vec::new();
    f.push(fld("msg", 1));
    if !push_rule(&mut t, "INVALID_PROTOCOL_ID", r"(?x)^kex_exchange_identification:\s*(?:read:\s*)?(Client\s+sent\s+invalid\s+protocol\s+identifier|Connection\s+(?:closed\s+by\s+remote\s+host|reset\s+by\s+peer))\s*$", f, EventType::Auth(AuthEvent::Other)) {
        return None;
    }
    let mut f: Vec<(String, usize)> = Vec::new();
    f.push(fld("msg", 1));
    if !push_rule(&mut t, "BAD_PROTOCOL_VERSION", r"(?x)^Bad\s+protocol\s+version\s+identification\s+'(.+?)'(?:\s+from\s+([0-9A-Fa-f:.]+))?(?:\s+port\s+(\d+))?\s*$", f, EventType::Auth(AuthEvent::Other)) {
        return None;
    }
    let mut f: Vec<(String, usize)> = Vec::new();
    f.push(fld("msg", 1));
    if !push_rule(&mut t, "MAJOR_VERSION_DIFF", r"(?x)^Protocol\s+major\s+versions\s+differ\s+for\s+([0-9A-Fa-f:.]+)\s+port\s+(\d+):\s*(\d+)\s*vs\.\s*(\d+)\s*$", f, EventType::Auth(AuthEvent::Other)) {
        return None;
    }
    let mut f: Vec<(String, usize)> = Vec::new();
    f.push(fld("msg", 1));
    if !push_rule(&mut t, "BANNER_OR_DISPATCH_ERROR", r"(?x)^(?:banner\s+exchange|ssh_dispatch_run_fatal):\s+Connection\s+from\s+([0-9A-Fa-f:.]+)\s+port\s+(\d+):\s*(invalid\s+format|message\s+authentication\s+code\s+incorrect|Connection\s+corrupted)(?:\s+\[preauth\])?\s*$", f, EventType::Auth(AuthEvent::Other)) {
        return None;
    }
    let mut f: Vec<(String, usize)> = Vec::new();
    f.push(fld("msg", 1));
    if !push_rule(&mut t, "SOCKET_READ_FAILURE", r"(?x)^Read\s+from\s+socket\s+failed:\s+Connection\s+(?:reset|closed)\s+by\s+peer\s*$", f, EventType::Auth(AuthEvent::Other)) {
        return None;
    }
    let mut f: Vec<(String, usize)> = Vec::new();
    f.push(fld("msg", 1));
    if !push_rule(&mut t, "UNKNOWN", r"(?s)^(.*\S.*)$", f, EventType::Auth(AuthEvent::Other)) {
        return None;
    }
    proof {
        assert(rules_view(t@) =~= spec_sshd_rules()) by {
            assert forall|i: int| 0 <= i < 16 implies rules_view(t@)[i]
                == spec_sshd_rules()[i] by {
                assert(rules_view(t@)[i].fields =~= spec_sshd_rules()[i].fields);
                assert(rules_view(t@)[i] =~= spec_sshd_rules()[i]);
            }
        }
    }
    Some(t)
}

/// The sudo and su table.
pub open spec fn spec_sudo_rules() -> Seq<RuleView> {
    seq![
        RuleView {
            name: "COMMAND_RUN"@,
            pattern: r"(?x)^(\w+)\s+:\s+TTY=(\S+)\s+;\s+PWD=(\S+)\s+;\s+USER=(\S+)\s+;\s+COMMAND=(/usr/bin/su.*)$"@,
            fields: Seq::empty(),
            kind: EventType::Auth(AuthEvent::Other),
        },
        RuleView {
            name: "SESSION_OPENED_SUDO"@,
            pattern: r"^pam_unix\(sudo:session\): session opened for user (\w+)\(uid=(\d+)\) by (\w+)\(uid=(\d+)\)$"@,
            fields: seq![("target_user"@, 1usize), ("uid"@, 2usize), ("invoking_user"@, 3usize), ("invoking_uid"@, 4usize)],
            kind: EventType::Auth(AuthEvent::SessionOpened),
        },
        RuleView {
            name: "SESSION_OPENED_SU"@,
            pattern: r"^pam_unix\(su:session\): session opened for user (\w+)\(uid=(\d+)\) by (\w+)\(uid=(\d+)\)$"@,
            fields: seq![("target_user"@, 1usize), ("uid"@, 2usize), ("invoking_user"@, 3usize), ("invoking_uid"@, 4usize)],
            kind: EventType::Auth(AuthEvent::SessionOpened),
        },
        RuleView {
            name: "SESSION_CLOSED"@,
            pattern: r"^pam_unix\(sudo:session\):\s+session closed for user (\S+)$"@,
            fields: seq![("target_user"@, 1usize)],
            kind: EventType::Auth(AuthEvent::SessionClosed),
        },
        RuleView {
            name: "AUTH_FAILURE"@,
            pattern: r"^pam_unix\(sudo:auth\): authentication failure; logname=(\S+) uid=(\d+) euid=(\d+) tty=(\S+) ruser=(\S+) rhost=(\S*)\s+user=(\S+)$"@,
            fields: seq![("logname"@, 1usize), ("uid"@, 2usize), ("euid"@, 3usize), ("tty"@, 4usize), ("ruser"@, 5usize), ("rhost"@, 6usize), ("target_user"@, 7usize)],
            kind: EventType::Auth(AuthEvent::Failure),
        },
        RuleView {
            name: "INCORRECT_PASSWORD"@,
            pattern: r"^(\S+)\s+:\s+(\d+)\s+incorrect password attempt ; TTY=(\S+) ; PWD=(\S+) ; USER=(\S+) ; COMMAND=(\S+)$"@,
            fields: seq![("invoking_user"@, 1usize), ("attempts"@, 2usize), ("tty"@, 3usize), ("pwd"@, 4usize), ("target_user"@, 5usize), ("command"@, 6usize)],
            kind: EventType::Auth(AuthEvent::IncorrectPassword),
        },
        RuleView {
            name: "NOT_IN_SUDOERS"@,
            pattern: r"(?x)^\s*(?P<user>\S+)\s+is\s+not\s+in\s+the\s+sudoers\s+file"@,
            fields: seq![("user"@, 1usize)],
            kind: EventType::Auth(AuthEvent::NotInSudoers),
        },
        RuleView {
            name: "AUTH_ERROR"@,
            pattern: r"(?x)pam_unix\(sudo:auth\):\s+(?P<msg>.+?)(?:\s+\[ (?P<user>\w+) \])?\s*$"@,
            fields: seq![("msg"@, 1usize), ("user"@, 2usize)],
            kind: EventType::Auth(AuthEvent::AuthError),
        },
        RuleView {
            name: "SUDO_WARNING"@,
            pattern: r"(?x)^sudo:\s+(?P<msg>.+)$"@,
            fields: seq![("msg"@, 1usize)],
            kind: EventType::Auth(AuthEvent::Warning),
        },
    ]
}

/// Whether every pattern of the sudo and su table compiles.
pub open spec fn spec_sudo_valid() -> bool {
    &&& rx_valid(r"(?x)^(\w+)\s+:\s+TTY=(\S+)\s+;\s+PWD=(\S+)\s+;\s+USER=(\S+)\s+;\s+COMMAND=(/usr/bin/su.*)$"@)
    &&& rx_valid(r"^pam_unix\(sudo:session\): session opened for user (\w+)\(uid=(\d+)\) by (\w+)\(uid=(\d+)\)$"@)
    &&& rx_valid(r"^pam_unix\(su:session\): session opened for user (\w+)\(uid=(\d+)\) by (\w+)\(uid=(\d+)\)$"@)
    &&& rx_valid(r"^pam_unix\(sudo:session\):\s+session closed for user (\S+)$"@)
    &&& rx_valid(r"^pam_unix\(sudo:auth\): authentication failure; logname=(\S+) uid=(\d+) euid=(\d+) tty=(\S+) ruser=(\S+) rhost=(\S*)\s+user=(\S+)$"@)
    &&& rx_valid(r"^(\S+)\s+:\s+(\d+)\s+incorrect password attempt ; TTY=(\S+) ; PWD=(\S+) ; USER=(\S+) ; COMMAND=(\S+)$"@)
    &&& rx_valid(r"(?x)^\s*(?P<user>\S+)\s+is\s+not\s+in\s+the\s+sudoers\s+file"@)
    &&& rx_valid(r"(?x)pam_unix\(sudo:auth\):\s+(?P<msg>.+?)(?:\s+\[ (?P<user>\w+) \])?\s*$"@)
    &&& rx_valid(r"(?x)^sudo:\s+(?P<msg>.+)$"@)
}

/// Builds the sudo and su table; `None` exactly when some pattern is
/// rejected by the regex engine.
pub fn sudo_rules() -> (r: Option<Vec<Rule>>)
    ensures
        r matches Some(t) ==> rules_view(t@) == spec_sudo_rules(),
        r is Some ==> spec_sudo_valid(),
        r is None ==> !spec_sudo_valid(),
{
    let mut t: Vec<Rule> = Vec::new();
    let mut f: Vec<(String, usize)> = Vec::new();
    if !push_rule(&mut t, "COMMAND_RUN", r"(?x)^(\w+)\s+:\s+TTY=(\S+)\s+;\s+PWD=(\S+)\s+;\s+USER=(\S+)\s+;\s+COMMAND=(/usr/bin/su.*)$", f, EventType::Auth(AuthEvent::Other)) {
        return None;
    }
    let mut f: Vec<(String, usize)> = Vec::new();
    f.push(fld("target_user", 1));
    f.push(fld("uid", 2));
    f.push(fld("invoking_user", 3));
    f.push(fld("invoking_uid", 4));
    if !push_rule(&mut t, "SESSION_OPENED_SUDO", r"^pam_unix\(sudo:session\): session opened for user (\w+)\(uid=(\d+)\) by (\w+)\(uid=(\d+)\)$", f, EventType::Auth(AuthEvent::SessionOpened)) {
        return None;
    }
    let mut f: Vec<(String, usize)> = Vec::new();
    f.push(fld("target_user", 1));
    f.push(fld("uid", 2));
    f.push(fld("invoking_user", 3));
    f.push(fld("invoking_uid", 4));
    if !push_rule(&mut t, "SESSION_OPENED_SU", r"^pam_unix\(su:session\): session opened for user (\w+)\(uid=(\d+)\) by (\w+)\(uid=(\d+)\)$", f, EventType::Auth(AuthEvent::SessionOpened)) {
        return None;
    }
    let mut f: Vec<(String, usize)> = Vec::new();
    f.push(fld("target_user", 1));
    if !push_rule(&mut t, "SESSION_CLOSED", r"^pam_unix\(sudo:session\):\s+session closed for user (\S+)$", f, EventType::Auth(AuthEvent::SessionClosed)) {
        return None;
    }
    let mut f: Vec<(String, usize)> = Vec::new();
    f.push(fld("logname", 1));
    f.push(fld("uid", 2));
    f.push(fld("euid", 3));
    f.push(fld("tty", 4));
    f.push(fld("ruser", 5));
    f.push(fld("rhost", 6));
    f.push(fld("target_user", 7));
    if !push_rule(&mut t, "AUTH_FAILURE", r"^pam_unix\(sudo:auth\): authentication failure; logname=(\S+) uid=(\d+) euid=(\d+) tty=(\S+) ruser=(\S+) rhost=(\S*)\s+user=(\S+)$", f, EventType::Auth(AuthEvent::Failure)) {
        return None;
    }
    let mut f: Vec<(String, usize)> = Vec::new();
    f.push(fld("invoking_user", 1));
    f.push(fld("attempts", 2));
    f.push(fld("tty", 3));
    f.push(fld("pwd", 4));
    f.push(fld("target_user", 5));
    f.push(fld("command", 6));
    if !push_rule(&mut t, "INCORRECT_PASSWORD", r"^(\S+)\s+:\s+(\d+)\s+incorrect password attempt ; TTY=(\S+) ; PWD=(\S+) ; USER=(\S+) ; COMMAND=(\S+)$", f, EventType::Auth(AuthEvent::IncorrectPassword)) {
        return None;
    }
    let mut f: Vec<(String, usize)> = Vec::new();
    f.push(fld("user", 1));
    if !push_rule(&mut t, "NOT_IN_SUDOERS", r"(?x)^\s*(?P<user>\S+)\s+is\s+not\s+in\s+the\s+sudoers\s+file", f, EventType::Auth(AuthEvent::NotInSudoers)) {
        return None;
    }
    let mut f: Vec<(String, usize)> = Vec::new();
    f.push(fld("msg", 1));
    f.push(fld("user", 2));
    if !push_rule(&mut t, "AUTH_ERROR", r"(?x)pam_unix\(sudo:auth\):\s+(?P<msg>.+?)(?:\s+\[ (?P<user>\w+) \])?\s*$", f, EventType::Auth(AuthEvent::AuthError)) {
        return None;
    }
    let mut f: Vec<(String, usize)> = Vec::new();
    f.push(fld("msg", 1));
    if !push_rule(&mut t, "SUDO_WARNING", r"(?x)^sudo:\s+(?P<msg>.+)$", f, EventType::Auth(AuthEvent::Warning)) {
        return None;
    }
    proof {
        assert(rules_view(t@) =~= spec_sudo_rules()) by {
            assert forall|i: int| 0 <= i < 9 implies rules_view(t@)[i]
                == spec_sudo_rules()[i] by {
                assert(rules_view(t@)[i].fields =~= spec_sudo_rules()[i].fields);
                assert(rules_view(t@)[i] =~= spec_sudo_rules()[i]);
            }
        }
    }
    Some(t)
}

/// The console and display-manager logins table.
pub open spec fn spec_login_rules() -> Seq<RuleView> {
    seq![
        RuleView {
            name: "AUTH_FAILURE"@,
            pattern: r"^pam_unix\(login:auth\): authentication failure; logname=(\S+) uid=(\d+) euid=(\d+) tty=(\S+) ruser=(\S*) rhost=(\S*)$"@,
            fields: Seq::empty(),
            kind: EventType::Auth(AuthEvent::Failure),
        },
        RuleView {
            name: "AUTH_CHECK_PASS"@,
            pattern: r"^pam_unix\(login:auth\): check pass; user unknown$"@,
            fields: Seq::empty(),
            kind: EventType::Auth(AuthEvent::Other),
        },
        RuleView {
            name: "AUTH_USER_UNKNOWN"@,
            pattern: r"^pam_unix\(login:auth\): user (\S+) unknown$"@,
            fields: Seq::empty(),
            kind: EventType::Auth(AuthEvent::Info),
        },
        RuleView {
            name: "FAILL0CK_USER_UNKNOWN"@,
            pattern: r"^pam_faillock\(login:auth\): User unknown$"@,
            fields: Seq::empty(),
            kind: EventType::Auth(AuthEvent::Other),
        },
        RuleView {
            name: "NOLOGIN_REFUSED"@,
            pattern: r"^pam_nologin\(login:auth\): Refused user (\S+)"@,
            fields: seq![("user"@, 1usize)],
            kind: EventType::Auth(AuthEvent::Info),
        },
        RuleView {
            name: "ACCOUNT_EXPIRED"@,
            pattern: r"^pam_unix\(login:account\): account (\S+) has expired.*$"@,
            fields: Seq::empty(),
            kind: EventType::Auth(AuthEvent::Info),
        },
        RuleView {
            name: "SESSION_OPENED"@,
            pattern: r"^pam_unix\(login:session\): session opened for user (\S+)\(uid=(\d+)\) by LOGIN\(uid=(\d+)\)$"@,
            fields: seq![("user"@, 1usize)],
            kind: EventType::Auth(AuthEvent::SessionOpened),
        },
        RuleView {
            name: "SESSION_CLOSED"@,
            pattern: r"^pam_unix\(login:session\): session closed for user (\S+)$"@,
            fields: seq![("user"@, 1usize)],
            kind: EventType::Auth(AuthEvent::SessionClosed),
        },
        RuleView {
            name: "LOGIN_SUCCESS"@,
            pattern: r"^LOGIN ON (\S+) BY (\S+)$"@,
            fields: seq![("tty"@, 1usize), ("user"@, 2usize)],
            kind: EventType::Auth(AuthEvent::Success),
        },
        RuleView {
            name: "FAILED_LOGIN"@,
            pattern: r"^FAILED LOGIN \d+ (?:FROM (\S+) )?FOR (\S+), (.+)$"@,
            fields: Seq::empty(),
            kind: EventType::Auth(AuthEvent::Failure),
        },
        RuleView {
            name: "FAILED_LOGIN_TTY"@,
            pattern: r"^FAILED LOGIN \d+ ON (\S+) FOR (\S+), (.+)$"@,
            fields: seq![("tty"@, 1usize), ("user"@, 2usize)],
            kind: EventType::Auth(AuthEvent::Failure),
        },
        RuleView {
            name: "TOO_MANY_TRIES"@,
            pattern: r"^TOO MANY LOGIN TRIES \(\d+\) ON (\S+) FOR (\S+)$"@,
            fields: Seq::empty(),
            kind: EventType::Auth(AuthEvent::Other),
        },
    ]
}

/// Whether every pattern of the console and display-manager logins table compiles.
pub open spec fn spec_login_valid() -> bool {
    &&& rx_valid(r"^pam_unix\(login:auth\): authentication failure; logname=(\S+) uid=(\d+) euid=(\d+) tty=(\S+) ruser=(\S*) rhost=(\S*)$"@)
    &&& rx_valid(r"^pam_unix\(login:auth\): check pass; user unknown$"@)
    &&& rx_valid(r"^pam_unix\(login:auth\): user (\S+) unknown$"@)
    &&& rx_valid(r"^pam_faillock\(login:auth\): User unknown$"@)
    &&& rx_valid(r"^pam_nologin\(login:auth\): Refused user (\S+)"@)
    &&& rx_valid(r"^pam_unix\(login:account\): account (\S+) has expired.*$"@)
    &&& rx_valid(r"^pam_unix\(login:session\): session opened for user (\S+)\(uid=(\d+)\) by LOGIN\(uid=(\d+)\)$"@)
    &&& rx_valid(r"^pam_unix\(login:session\): session closed for user (\S+)$"@)
    &&& rx_valid(r"^LOGIN ON (\S+) BY (\S+)$"@)
    &&& rx_valid(r"^FAILED LOGIN \d+ (?:FROM (\S+) )?FOR (\S+), (.+)$"@)
    &&& rx_valid(r"^FAILED LOGIN \d+ ON (\S+) FOR (\S+), (.+)$"@)
    &&& rx_valid(r"^TOO MANY LOGIN TRIES \(\d+\) ON (\S+) FOR (\S+)$"@)
}

/// Builds the console and display-manager logins table; `None` exactly when some pattern is
/// rejected by the regex engine.
#[verifier::rlimit(50)]
pub fn login_rules() -> (r: Option<Vec<Rule>>)
    ensures
        r matches Some(t) ==> rules_view(t@) == spec_login_rules(),
        r is Some ==> spec_login_valid(),
        r is None ==> !spec_login_valid(),
{
    let mut t: Vec<Rule> = Vec::new();
    let mut f: Vec<(String, usize)> = Vec::new();
    if !push_rule(&mut t, "AUTH_FAILURE", r"^pam_unix\(login:auth\): authentication failure; logname=(\S+) uid=(\d+) euid=(\d+) tty=(\S+) ruser=(\S*) rhost=(\S*)$", f, EventType::Auth(AuthEvent::Failure)) {
        return None;
    }
    let mut f: Vec<(String, usize)> = Vec::new();
    if !push_rule(&mut t, "AUTH_CHECK_PASS", r"^pam_unix\(login:auth\): check pass; user unknown$", f, EventType::Auth(AuthEvent::Other)) {
        return None;
    }
    let mut f: Vec<(String, usize)> = Vec::new();
    if !push_rule(&mut t, "AUTH_USER_UNKNOWN", r"^pam_unix\(login:auth\): user (\S+) unknown$", f, EventType::Auth(AuthEvent::Info)) {
        return None;
    }
    let mut f: Vec<(String, usize)> = Vec::new();
    if !push_rule(&mut t, "FAILL0CK_USER_UNKNOWN", r"^pam_faillock\(login:auth\): User unknown$", f, EventType::Auth(AuthEvent::Other)) {
        return None;
    }
    let mut f: Vec<(String, usize)> = Vec::new();
    f.push(fld("user", 1));
    if !push_rule(&mut t, "NOLOGIN_REFUSED", r"^pam_nologin\(login:auth\): Refused user (\S+)", f, EventType::Auth(AuthEvent::Info)) {
        return None;
    }
    let mut f: Vec<(String, usize)> = Vec::new();
    if !push_rule(&mut t, "ACCOUNT_EXPIRED", r"^pam_unix\(login:account\): account (\S+) has expired.*$", f, EventType::Auth(AuthEvent::Info)) {
        return None;
    }
    let mut f: Vec<(String, usize)> = Vec::new();
    f.push(fld("user", 1));
    if !push_rule(&mut t, "SESSION_OPENED", r"^pam_unix\(login:session\): session opened for user (\S+)\(uid=(\d+)\) by LOGIN\(uid=(\d+)\)$", f, EventType::Auth(AuthEvent::SessionOpened)) {
        return None;
    }
    let mut f: Vec<(String, usize)> = Vec::new();
    f.push(fld("user", 1));
    if !push_rule(&mut t, "SESSION_CLOSED", r"^pam_unix\(login:session\): session closed for user (\S+)$", f, EventType::Auth(AuthEvent::SessionClosed)) {
        return None;
    }
    let mut f: Vec<(String, usize)> = Vec::new();
    f.push(fld("tty", 1));
    f.push(fld("user", 2));
    if !push_rule(&mut t, "LOGIN_SUCCESS", r"^LOGIN ON (\S+) BY (\S+)$", f, EventType::Auth(AuthEvent::Success)) {
        return None;
    }
    let mut f: Vec<(String, usize)> = Vec::new();
    if !push_rule(&mut t, "FAILED_LOGIN", r"^FAILED LOGIN \d+ (?:FROM (\S+) )?FOR (\S+), (.+)$", f, EventType::Auth(AuthEvent::Failure)) {
        return None;
    }
    let mut f: Vec<(String, usize)> = Vec::new();
    f.push(fld("tty", 1));
    f.push(fld("user", 2));
    if !push_rule(&mut t, "FAILED_LOGIN_TTY", r"^FAILED LOGIN \d+ ON (\S+) FOR (\S+), (.+)$", f, EventType::Auth(AuthEvent::Failure)) {
        return None;
    }
    let mut f: Vec<(String, usize)> = Vec::new();
    if !push_rule(&mut t, "TOO_MANY_TRIES", r"^TOO MANY LOGIN TRIES \(\d+\) ON (\S+) FOR (\S+)$", f, EventType::Auth(AuthEvent::Other)) {
        return None;
    }
    proof {
        assert(rules_view(t@) =~= spec_login_rules()) by {
            assert forall|i: int| 0 <= i < 12 implies rules_view(t@)[i]
                == spec_login_rules()[i] by {
                assert(rules_view(t@)[i].fields =~= spec_login_rules()[i].fields);
                assert(rules_view(t@)[i] =~= spec_login_rules()[i]);
            }
        }
    }
    Some(t)
}

/// The user and group account changes table.
pub open spec fn spec_user_rules() -> Seq<RuleView> {
    seq![
        RuleView {
            name: "NEW_USER"@,
            pattern: r"^new user: name=(\S+), UID=(\d+), GID=(\d+), home=(\S+), shell=(\S+), from=(\S+)$"@,
            fields: seq![("name"@, 1usize), ("uid"@, 2usize), ("gid"@, 3usize), ("home"@, 4usize), ("shell"@, 5usize), ("pts"@, 6usize)],
            kind: EventType::User(UserEvent::NewUser),
        },
        RuleView {
            name: "NEW_GROUP"@,
            pattern: r"^new group: name=(\S+), GID=(\d+)$"@,
            fields: seq![("name"@, 1usize), ("gid"@, 2usize)],
            kind: EventType::User(UserEvent::NewGroup),
        },
        RuleView {
            name: "GROUP_ADDED_ETC_GROUP"@,
            pattern: r"^group added to /etc/group: name=(\S+), GID=(\d+)$"@,
            fields: seq![("name"@, 1usize), ("gid"@, 2usize)],
            kind: EventType::User(UserEvent::Info),
        },
        RuleView {
            name: "GROUP_ADDED_ETC_GSHADOW"@,
            pattern: r"^group added to /etc/gshadow: name=(\S+)$"@,
            fields: seq![("name"@, 1usize)],
            kind: EventType::User(UserEvent::Info),
        },
        RuleView {
            name: "DELETE_USER"@,
            pattern: r"^delete user: name=(\S+), UID=(\d+), GID=(\d+), home=(\S+), shell=(\S+)$"@,
            fields: seq![("name"@, 1usize), ("uid"@, 2usize), ("gid"@, 3usize), ("home"@, 4usize), ("shell"@, 5usize)],
            kind: EventType::User(UserEvent::DeleteUser),
        },
        RuleView {
            name: "DELETE_USER_HOME"@,
            pattern: r"^delete home directory: (.+)$"@,
            fields: seq![("name"@, 1usize)],
            kind: EventType::User(UserEvent::DeleteGroup),
        },
        RuleView {
            name: "DELETE_USER_MAIL"@,
            pattern: r"^delete mail spool: (.+)$"@,
            fields: seq![("name"@, 1usize)],
            kind: EventType::User(UserEvent::Info),
        },
        RuleView {
            name: "DELETE_GROUP"@,
            pattern: r"^delete group: name=(\S+), GID=(\d+)$"@,
            fields: seq![("name"@, 1usize), ("gid"@, 2usize)],
            kind: EventType::User(UserEvent::DeleteGroup),
        },
        RuleView {
            name: "MODIFY_USER"@,
            pattern: r"^usermod: name=(\S+),.*$"@,
            fields: seq![("name"@, 1usize)],
            kind: EventType::User(UserEvent::ModifyUser),
        },
        RuleView {
            name: "MODIFY_GROUP"@,
            pattern: r"^groupmod: name=(\S+),.*$"@,
            fields: seq![("name"@, 1usize)],
            kind: EventType::User(UserEvent::DeleteGroup),
        },
        RuleView {
            name: "USER_PASSWD_CHANGE"@,
            pattern: r"^passwd\[(\d+)\]: password changed for (\S+)$"@,
            fields: seq![("process_id"@, 1usize), ("user"@, 2usize)],
            kind: EventType::User(UserEvent::Info),
        },
        RuleView {
            name: "USER_SHADOW_UPDATED"@,
            pattern: r"^shadow file updated for user (\S+)$"@,
            fields: seq![("name"@, 1usize)],
            kind: EventType::User(UserEvent::DeleteGroup),
        },
    ]
}

/// Whether every pattern of the user and group account changes table compiles.
pub open spec fn spec_user_valid() -> bool {
    &&& rx_valid(r"^new user: name=(\S+), UID=(\d+), GID=(\d+), home=(\S+), shell=(\S+), from=(\S+)$"@)
    &&& rx_valid(r"^new group: name=(\S+), GID=(\d+)$"@)
    &&& rx_valid(r"^group added to /etc/group: name=(\S+), GID=(\d+)$"@)
    &&& rx_valid(r"^group added to /etc/gshadow: name=(\S+)$"@)
    &&& rx_valid(r"^delete user: name=(\S+), UID=(\d+), GID=(\d+), home=(\S+), shell=(\S+)$"@)
    &&& rx_valid(r"^delete home directory: (.+)$"@)
    &&& rx_valid(r"^delete mail spool: (.+)$"@)
    &&& rx_valid(r"^delete group: name=(\S+), GID=(\d+)$"@)
    &&& rx_valid(r"^usermod: name=(\S+),.*$"@)
    &&& rx_valid(r"^groupmod: name=(\S+),.*$"@)
    &&& rx_valid(r"^passwd\[(\d+)\]: password changed for (\S+)$"@)
    &&& rx_valid(r"^shadow file updated for user (\S+)$"@)
}

/// Builds the user and group account changes table; `None` exactly when some pattern is
/// rejected by the regex engine.
#[verifier::rlimit(50)]
pub fn user_rules() -> (r: Option<Vec<Rule>>)
    ensures
        r matches Some(t) ==> rules_view(t@) == spec_user_rules(),
        r is Some ==> spec_user_valid(),
        r is None ==> !spec_user_valid(),
{
    let mut t: Vec<Rule> = Vec::new();
    let mut f: Vec<(String, usize)> = Vec::new();
    f.push(fld("name", 1));
    f.push(fld("uid", 2));
    f.push(fld("gid", 3));
    f.push(fld("home", 4));
    f.push(fld("shell", 5));
    f.push(fld("pts", 6));
    if !push_rule(&mut t, "NEW_USER", r"^new user: name=(\S+), UID=(\d+), GID=(\d+), home=(\S+), shell=(\S+), from=(\S+)$", f, EventType::User(UserEvent::NewUser)) {
        return None;
    }
    let mut f: Vec<(String, usize)> = Vec::new();
    f.push(fld("name", 1));
    f.push(fld("gid", 2));
    if !push_rule(&mut t, "NEW_GROUP", r"^new group: name=(\S+), GID=(\d+)$", f, EventType::User(UserEvent::NewGroup)) {
        return None;
    }
    let mut f: Vec<(String, usize)> = Vec::new();
    f.push(fld("name", 1));
    f.push(fld("gid", 2));
    if !push_rule(&mut t, "GROUP_ADDED_ETC_GROUP", r"^group added to /etc/group: name=(\S+), GID=(\d+)$", f, EventType::User(UserEvent::Info)) {
        return None;
    }
    let mut f: Vec<(String, usize)> = Vec::new();
    f.push(fld("name", 1));
    if !push_rule(&mut t, "GROUP_ADDED_ETC_GSHADOW", r"^group added to /etc/gshadow: name=(\S+)$", f, EventType::User(UserEvent::Info)) {
        return None;
    }
    let mut f: Vec<(String, usize)> = Vec::new();
    f.push(fld("name", 1));
    f.push(fld("uid", 2));
    f.push(fld("gid", 3));
    f.push(fld("home", 4));
    f.push(fld("shell", 5));
    if !push_rule(&mut t, "DELETE_USER", r"^delete user: name=(\S+), UID=(\d+), GID=(\d+), home=(\S+), shell=(\S+)$", f, EventType::User(UserEvent::DeleteUser)) {
        return None;
    }
    let mut f: Vec<(String, usize)> = Vec::new();
    f.push(fld("name", 1));
    if !push_rule(&mut t, "DELETE_USER_HOME", r"^delete home directory: (.+)$", f, EventType::User(UserEvent::DeleteGroup)) {
        return None;
    }
    let mut f: Vec<(String, usize)> = Vec::new();
    f.push(fld("name", 1));
    if !push_rule(&mut t, "DELETE_USER_MAIL", r"^delete mail spool: (.+)$", f, EventType::User(UserEvent::Info)) {
        return None;
    }
    let mut f: Vec<(String, usize)> = Vec::new();
    f.push(fld("name", 1));
    f.push(fld("gid", 2));
    if !push_rule(&mut t, "DELETE_GROUP", r"^delete group: name=(\S+), GID=(\d+)$", f, EventType::User(UserEvent::DeleteGroup)) {
        return None;
    }
    let mut f: Vec<(String, usize)> = Vec::new();
    f.push(fld("name", 1));
    if !push_rule(&mut t, "MODIFY_USER", r"^usermod: name=(\S+),.*$", f, EventType::User(UserEvent::ModifyUser)) {
        return None;
    }
    let mut f: Vec<(String, usize)> = Vec::new();
    f.push(fld("name", 1));
    if !push_rule(&mut t, "MODIFY_GROUP", r"^groupmod: name=(\S+),.*$", f, EventType::User(UserEvent::DeleteGroup)) {
        return None;
    }
    let mut f: Vec<(String, usize)> = Vec::new();
    f.push(fld("process_id", 1));
    f.push(fld("user", 2));
    if !push_rule(&mut t, "USER_PASSWD_CHANGE", r"^passwd\[(\d+)\]: password changed for (\S+)$", f, EventType::User(UserEvent::Info)) {
        return None;
    }
    let mut f: Vec<(String, usize)> = Vec::new();
    f.push(fld("name", 1));
    if !push_rule(&mut t, "USER_SHADOW_UPDATED", r"^shadow file updated for user (\S+)$", f, EventType::User(UserEvent::DeleteGroup)) {
        return None;
    }
    proof {
        assert(rules_view(t@) =~= spec_user_rules()) by {
            assert forall|i: int| 0 <= i < 12 implies rules_view(t@)[i]
                == spec_user_rules()[i] by {
                assert(rules_view(t@)[i].fields =~= spec_user_rules()[i].fields);
                assert(rules_view(t@)[i] =~= spec_user_rules()[i]);
            }
        }
    }
    Some(t)
}

/// The package manager (flat-file backend) table.
pub open spec fn spec_pkg_rules() -> Seq<RuleView> {
    seq![
        RuleView {
            name: "INSTALLED"@,
            pattern: r"^\[(.+?)\] \[ALPM\] installed (\S+) \(([^)]+)\)$"@,
            fields: seq![("pkg_name"@, 2usize)],
            kind: EventType::Package(PkgEvent::Installed),
        },
        RuleView {
            name: "REMOVED"@,
            pattern: r"^\[(.+?)\] \[ALPM\] removed (\S+) \(([^)]+)\)$"@,
            fields: seq![("pkg_name"@, 2usize)],
            kind: EventType::Package(PkgEvent::Removed),
        },
        RuleView {
            name: "UPGRADED"@,
            pattern: r"^\[(.+?)\] \[ALPM\] upgraded (\S+) \(([^)]+) -> ([^)]+)\)$"@,
            fields: seq![("pkg_name"@, 2usize), ("version_from"@, 3usize), ("version_to"@, 4usize)],
            kind: EventType::Package(PkgEvent::Upgraded),
        },
        RuleView {
            name: "DOWNGRADED"@,
            pattern: r"^\[(.+?)\] \[ALPM\] downgraded (\S+) \(([^)]+) -> ([^)]+)\)$"@,
            fields: seq![("pkg_name"@, 2usize), ("version_from"@, 3usize), ("version_to"@, 4usize)],
            kind: EventType::Package(PkgEvent::Downgraded),
        },
        RuleView {
            name: "REINSTALLED"@,
            pattern: r"^\[(.+?)\] \[ALPM\] reinstalled (\S+) \(([^)]+)\)$"@,
            fields: seq![("pkg_name"@, 2usize), ("version"@, 3usize)],
            kind: EventType::Package(PkgEvent::Reinstalled),
        },
    ]
}

/// Whether every pattern of the package manager (flat-file backend) table compiles.
pub open spec fn spec_pkg_valid() -> bool {
    &&& rx_valid(r"^\[(.+?)\] \[ALPM\] installed (\S+) \(([^)]+)\)$"@)
    &&& rx_valid(r"^\[(.+?)\] \[ALPM\] removed (\S+) \(([^)]+)\)$"@)
    &&& rx_valid(r"^\[(.+?)\] \[ALPM\] upgraded (\S+) \(([^)]+) -> ([^)]+)\)$"@)
    &&& rx_valid(r"^\[(.+?)\] \[ALPM\] downgraded (\S+) \(([^)]+) -> ([^)]+)\)$"@)
    &&& rx_valid(r"^\[(.+?)\] \[ALPM\] reinstalled (\S+) \(([^)]+)\)$"@)
}

/// Builds the package manager (flat-file backend) table; `None` exactly when some pattern is
/// rejected by the regex engine.
pub fn pkg_rules() -> (r: Option<Vec<Rule>>)
    ensures
        r matches Some(t) ==> rules_view(t@) == spec_pkg_rules(),
        r is Some ==> spec_pkg_valid(),
        r is None ==> !spec_pkg_valid(),
{
    let mut t: Vec<Rule> = Vec::new();
    let mut f: Vec<(String, usize)> = Vec::new();
    f.push(fld("pkg_name", 2));
    if !push_rule(&mut t, "INSTALLED", r"^\[(.+?)\] \[ALPM\] installed (\S+) \(([^)]+)\)$", f, EventType::Package(PkgEvent::Installed)) {
        return None;
    }
    let mut f: Vec<(String, usize)> = Vec::new();
    f.push(fld("pkg_name", 2));
    if !push_rule(&mut t, "REMOVED", r"^\[(.+?)\] \[ALPM\] removed (\S+) \(([^)]+)\)$", f, EventType::Package(PkgEvent::Removed)) {
        return None;
    }
    let mut f: Vec<(String, usize)> = Vec::new();
    f.push(fld("pkg_name", 2));
    f.push(fld("version_from", 3));
    f.push(fld("version_to", 4));
    if !push_rule(&mut t, "UPGRADED", r"^\[(.+?)\] \[ALPM\] upgraded (\S+) \(([^)]+) -> ([^)]+)\)$", f, EventType::Package(PkgEvent::Upgraded)) {
        return None;
    }
    let mut f: Vec<(String, usize)> = Vec::new();
    f.push(fld("pkg_name", 2));
    f.push(fld("version_from", 3));
    f.push(fld("version_to", 4));
    if !push_rule(&mut t, "DOWNGRADED", r"^\[(.+?)\] \[ALPM\] downgraded (\S+) \(([^)]+) -> ([^)]+)\)$", f, EventType::Package(PkgEvent::Downgraded)) {
        return None;
    }
    let mut f: Vec<(String, usize)> = Vec::new();
    f.push(fld("pkg_name", 2));
    f.push(fld("version", 3));
    if !push_rule(&mut t, "REINSTALLED", r"^\[(.+?)\] \[ALPM\] reinstalled (\S+) \(([^)]+)\)$", f, EventType::Package(PkgEvent::Reinstalled)) {
        return None;
    }
    proof {
        assert(rules_view(t@) =~= spec_pkg_rules()) by {
            assert forall|i: int| 0 <= i < 5 implies rules_view(t@)[i]
                == spec_pkg_rules()[i] by {
                assert(rules_view(t@)[i].fields =~= spec_pkg_rules()[i].fields);
                assert(rules_view(t@)[i] =~= spec_pkg_rules()[i]);
            }
        }
    }
    Some(t)
}

/// The cron configuration activity table.
pub open spec fn spec_cron_rules() -> Seq<RuleView> {
    seq![
        RuleView {
            name: "CRON_CMD"@,
            pattern: r"^\((\S+)\)\s+CMD\s+\((.+)\)$"@,
            fields: seq![("user"@, 1usize), ("cron_cmd"@, 2usize)],
            kind: EventType::Config(ConfigEvent::CmdRun),
        },
        RuleView {
            name: "CRON_RELOAD"@,
            pattern: r"^\((\S+)\)\s+RELOAD\s+\(crontabs/(\S+)\)$"@,
            fields: seq![("user"@, 1usize), ("cron_reload"@, 2usize)],
            kind: EventType::Config(ConfigEvent::CronReload),
        },
        RuleView {
            name: "CRON_ERROR_BAD_COMMAND"@,
            pattern: r"^\((\S+)\)\s+ERROR\s+\(bad command\)$"@,
            fields: seq![("user"@, 1usize)],
            kind: EventType::Config(ConfigEvent::Info),
        },
        RuleView {
            name: "CRON_ERROR_BAD_MINUTE"@,
            pattern: r"^\((\S+)\)\s+ERROR\s+\(bad minute\)$"@,
            fields: seq![("user"@, 1usize)],
            kind: EventType::Config(ConfigEvent::Info),
        },
        RuleView {
            name: "CRON_ERROR_OTHER"@,
            pattern: r"^\((\S+)\)\s+ERROR\s+\((.+)\)$"@,
            fields: seq![("user"@, 1usize)],
            kind: EventType::Config(ConfigEvent::Info),
        },
        RuleView {
            name: "CRON_DENIED"@,
            pattern: r"^\((\S+)\)\s+AUTH\s+\(crontab denied\)$"@,
            fields: seq![("user"@, 1usize)],
            kind: EventType::Config(ConfigEvent::Failure),
        },
        RuleView {
            name: "CRON_SESSION_OPEN"@,
            pattern: r"^pam_unix\(cron:session\): session opened for user (\S+) by \(uid=(\d+)\)$"@,
            fields: seq![("user"@, 1usize), ("uid"@, 2usize)],
            kind: EventType::Config(ConfigEvent::SessionOpened),
        },
        RuleView {
            name: "CRON_SESSION_CLOSE"@,
            pattern: r"^pam_unix\(cron:session\): session closed for user (\S+)$"@,
            fields: seq![("user"@, 1usize)],
            kind: EventType::Config(ConfigEvent::SessionClosed),
        },
    ]
}

/// Whether every pattern of the cron configuration activity table compiles.
pub open spec fn spec_cron_valid() -> bool {
    &&& rx_valid(r"^\((\S+)\)\s+CMD\s+\((.+)\)$"@)
    &&& rx_valid(r"^\((\S+)\)\s+RELOAD\s+\(crontabs/(\S+)\)$"@)
    &&& rx_valid(r"^\((\S+)\)\s+ERROR\s+\(bad command\)$"@)
    &&& rx_valid(r"^\((\S+)\)\s+ERROR\s+\(bad minute\)$"@)
    &&& rx_valid(r"^\((\S+)\)\s+ERROR\s+\((.+)\)$"@)
    &&& rx_valid(r"^\((\S+)\)\s+AUTH\s+\(crontab denied\)$"@)
    &&& rx_valid(r"^pam_unix\(cron:session\): session opened for user (\S+) by \(uid=(\d+)\)$"@)
    &&& rx_valid(r"^pam_unix\(cron:session\): session closed for user (\S+)$"@)
}

/// Builds the cron configuration activity table; `None` exactly when some pattern is
/// rejected by the regex engine.
pub fn cron_rules() -> (r: Option<Vec<Rule>>)
    ensures
        r matches Some(t) ==> rules_view(t@) == spec_cron_rules(),
        r is Some ==> spec_cron_valid(),
        r is None ==> !spec_cron_valid(),
{
    let mut t: Vec<Rule> = Vec::new();
    let mut f: Vec<(String, usize)> = Vec::new();
    f.push(fld("user", 1));
    f.push(fld("cron_cmd", 2));
    if !push_rule(&mut t, "CRON_CMD", r"^\((\S+)\)\s+CMD\s+\((.+)\)$", f, EventType::Config(ConfigEvent::CmdRun)) {
        return None;
    }
    let mut f: Vec<(String, usize)> = Vec::new();
    f.push(fld("user", 1));
    f.push(fld("cron_reload", 2));
    if !push_rule(&mut t, "CRON_RELOAD", r"^\((\S+)\)\s+RELOAD\s+\(crontabs/(\S+)\)$", f, EventType::Config(ConfigEvent::CronReload)) {
        return None;
    }
    let mut f: Vec<(String, usize)> = Vec::new();
    f.push(fld("user", 1));
    if !push_rule(&mut t, "CRON_ERROR_BAD_COMMAND", r"^\((\S+)\)\s+ERROR\s+\(bad command\)$", f, EventType::Config(ConfigEvent::Info)) {
        return None;
    }
    let mut f: Vec<(String, usize)> = Vec::new();
    f.push(fld("user", 1));
    if !push_rule(&mut t, "CRON_ERROR_BAD_MINUTE", r"^\((\S+)\)\s+ERROR\s+\(bad minute\)$", f, EventType::Config(ConfigEvent::Info)) {
        return None;
    }
    let mut f: Vec<(String, usize)> = Vec::new();
    f.push(fld("user", 1));
    if !push_rule(&mut t, "CRON_ERROR_OTHER", r"^\((\S+)\)\s+ERROR\s+\((.+)\)$", f, EventType::Config(ConfigEvent::Info)) {
        return None;
    }
    let mut f: Vec<(String, usize)> = Vec::new();
    f.push(fld("user", 1));
    if !push_rule(&mut t, "CRON_DENIED", r"^\((\S+)\)\s+AUTH\s+\(crontab denied\)$", f, EventType::Config(ConfigEvent::Failure)) {
        return None;
    }
    let mut f: Vec<(String, usize)> = Vec::new();
    f.push(fld("user", 1));
    f.push(fld("uid", 2));
    if !push_rule(&mut t, "CRON_SESSION_OPEN", r"^pam_unix\(cron:session\): session opened for user (\S+) by \(uid=(\d+)\)$", f, EventType::Config(ConfigEvent::SessionOpened)) {
        return None;
    }
    let mut f: Vec<(String, usize)> = Vec::new();
    f.push(fld("user", 1));
    if !push_rule(&mut t, "CRON_SESSION_CLOSE", r"^pam_unix\(cron:session\): session closed for user (\S+)$", f, EventType::Config(ConfigEvent::SessionClosed)) {
        return None;
    }
    proof {
        assert(rules_view(t@) =~= spec_cron_rules()) by {
            assert forall|i: int| 0 <= i < 8 implies rules_view(t@)[i]
                == spec_cron_rules()[i] by {
                assert(rules_view(t@)[i].fields =~= spec_cron_rules()[i].fields);
                assert(rules_view(t@)[i] =~= spec_cron_rules()[i]);
            }
        }
    }
    Some(t)
}

/// The NetworkManager table.
pub open spec fn spec_network_rules() -> Seq<RuleView> {
    seq![
        RuleView {
            name: "DEVICE_ACTIVATION"@,
            pattern: r"(?x)^<(?P<level>info|warn|error)>\s+\[\s*(?P<ts>\d+\.\d+)\]\s+device\s+\((?P<device>[^)]+)\):\s+Activation:\s+(?P<result>successful|starting\s+connection|failed),?\s+(?P<details>.*?)\.?\s*$"@,
            fields: seq![("device"@, 1usize), ("result"@, 2usize), ("details"@, 3usize)],
            kind: EventType::Network(NetworkEvent::ConnectionActivated),
        },
        RuleView {
            name: "DEVICE_STATE_CHANGE"@,
            pattern: r"(?x)^<(?P<level>info|warn|debug)>\s+\[\s*(?P<ts>\d+\.\d+)\]\s+device\s+\((?P<device>[^)]+)\):\s+state\s+change:\s+(?P<from>\S+)\s+->\s+(?P<to>\S+)\s+\(reason\s+'(?P<reason>[^']*)',?\s*(?:sys-iface-state:\s+'(?P<sys_state>[^']+)'|managed-type:\s+'(?P<mgmt_type>[^']+)')?\)"@,
            fields: seq![("device"@, 1usize), ("from"@, 2usize), ("to"@, 3usize), ("reason"@, 4usize), ("sys_state"@, 5usize), ("mgmt_type"@, 6usize)],
            kind: EventType::Network(NetworkEvent::StateChange),
        },
        RuleView {
            name: "MANAGER_STATE"@,
            pattern: r"(?x)^<(?P<level>info|warn)>\s+\[\s*(?P<ts>\d+\.\d+)\]\s+manager:\s+(?:NetworkManager\s+state\s+is\s+now\s+(?P<state>\S+)|startup\s+complete|NetworkManager\s+\(version\s+(?P<version>[^)]+)\)\s+is\s+(?P<action>starting|stopping))"@,
            fields: seq![("state"@, 1usize), ("version"@, 2usize), ("action"@, 3usize)],
            kind: EventType::Network(NetworkEvent::StateChange),
        },
        RuleView {
            name: "DHCP_EVENT"@,
            pattern: r"(?x)^<(?P<level>info|warn|debug)>\s+\[\s*(?P<ts>\d+\.\d+)\]\s+dhcp(?P<version>[46])?\s+\((?P<iface>[^)]+)\):\s+(?:state\s+changed\s+(?P<from>\S+)\s+->\s+(?P<to>\S+)|option\s+(?P<option>\S+)\s+=>\s+'?(?P<value>[^']+)'?|(?P<msg>.*))"@,
            fields: seq![("version"@, 1usize), ("iface"@, 2usize), ("from"@, 3usize), ("to"@, 4usize), ("option"@, 5usize), ("value"@, 6usize), ("msg"@, 7usize)],
            kind: EventType::Network(NetworkEvent::DhcpLease),
        },
        RuleView {
            name: "DHCP_INIT"@,
            pattern: r"(?x)^<(?P<level>info)>\s+\[\s*(?P<ts>\d+\.\d+)\]\s+dhcp-init:\s+Using\s+DHCP\s+client\s+'(?P<client>[^']+)'"@,
            fields: seq![("client"@, 1usize)],
            kind: EventType::Network(NetworkEvent::DhcpLease),
        },
        RuleView {
            name: "POLICY_SET"@,
            pattern: r"(?x)^<(?P<level>info|warn)>\s+\[\s*(?P<ts>\d+\.\d+)\]\s+policy:\s+set\s+'(?P<connection>[^']+)'\s+\((?P<iface>[^)]+)\)\s+as\s+default\s+for\s+(?P<purpose>IPv4|IPv6|DNS|routing).*?"@,
            fields: seq![("connection"@, 1usize), ("iface"@, 2usize), ("purpose"@, 3usize)],
            kind: EventType::Network(NetworkEvent::PolicyChange),
        },
        RuleView {
            name: "SUPPLICANT_STATE"@,
            pattern: r"(?x)^<(?P<level>info|debug)>\s+\[\s*(?P<ts>\d+\.\d+)\]\s+device\s+\((?P<device>[^)]+)\):\s+supplicant\s+(?:interface|management\s+interface)\s+state:\s+(?P<from>\S+)\s+->\s+(?P<to>\S+)"@,
            fields: seq![("device"@, 1usize), ("from"@, 2usize), ("to"@, 3usize)],
            kind: EventType::Network(NetworkEvent::WifiAssociationSuccess),
        },
        RuleView {
            name: "WIFI_SCAN"@,
            pattern: r"(?x)^<(?P<level>info|debug)>\s+\[\s*(?P<ts>\d+\.\d+)\]\s+device\s+\((?P<device>[^)]+)\):\s+(?:wifi-scan:\s+.*|supplicant\s+interface\s+state:\s+.*scanning.*)"@,
            fields: seq![("device"@, 1usize)],
            kind: EventType::Network(NetworkEvent::WifiScan),
        },
        RuleView {
            name: "PLATFORM_ERROR"@,
            pattern: r"(?x)^<(?P<level>warn|error)>\s+\[\s*(?P<ts>\d+\.\d+)\]\s+platform(?:-linux)?:\s+(?P<operation>do-\S+)\[(?P<details>[^\]]+)\]:\s+(?:failure\s+(?P<errno>\d+)\s+\((?P<error>[^)]+)\)|(?P<msg>.*))"@,
            fields: seq![("operation"@, 1usize), ("details"@, 2usize), ("errno"@, 3usize), ("error"@, 4usize), ("msg"@, 5usize)],
            kind: EventType::Network(NetworkEvent::Warning),
        },
        RuleView {
            name: "SETTINGS_CONNECTION"@,
            pattern: r"(?x)^<(?P<level>info|warn)>\s+\[\s*(?P<ts>\d+\.\d+)\]\s+(?:settings|settings-connection):\s+(?P<msg>.*)"@,
            fields: seq![("msg"@, 1usize)],
            kind: EventType::Network(NetworkEvent::ConnectionAttempt),
        },
        RuleView {
            name: "DNS_CONFIG"@,
            pattern: r"(?x)^<(?P<level>info|warn)>\s+\[\s*(?P<ts>\d+\.\d+)\]\s+dns:\s+(?P<msg>.*)"@,
            fields: seq![("msg"@, 1usize)],
            kind: EventType::Network(NetworkEvent::DnsConfig),
        },
        RuleView {
            name: "VPN_EVENT"@,
            pattern: r"(?x)^<(?P<level>info|warn|error)>\s+\[\s*(?P<ts>\d+\.\d+)\]\s+(?:vpn-connection|vpn):\s+(?P<msg>.*)"@,
            fields: seq![("msg"@, 1usize)],
            kind: EventType::Network(NetworkEvent::VpnEvent),
        },
        RuleView {
            name: "FIREWALL_EVENT"@,
            pattern: r"(?x)^<(?P<level>info|warn)>\s+\[\s*(?P<ts>\d+\.\d+)\]\s+firewall:\s+(?P<msg>.*)"@,
            fields: seq![("msg"@, 1usize)],
            kind: EventType::Network(NetworkEvent::FirewallEvent),
        },
        RuleView {
            name: "AGENT_REQUEST"@,
            pattern: r"(?x)^<(?P<level>info|warn)>\s+\[\s*(?P<ts>\d+\.\d+)\]\s+agent-manager:\s+(?P<msg>.*)"@,
            fields: seq![("msg"@, 1usize)],
            kind: EventType::Network(NetworkEvent::AgentRequest),
        },
        RuleView {
            name: "CONNECTIVITY_CHECK"@,
            pattern: r"(?x)^<(?P<level>info|warn)>\s+\[\s*(?P<ts>\d+\.\d+)\]\s+connectivity:\s+(?P<msg>.*)"@,
            fields: seq![("msg"@, 1usize)],
            kind: EventType::Network(NetworkEvent::ConnectivityCheck),
        },
        RuleView {
            name: "DISPATCHER"@,
            pattern: r"(?x)^<(?P<level>info|warn)>\s+\[\s*(?P<ts>\d+\.\d+)\]\s+dispatcher:\s+(?P<msg>.*)"@,
            fields: seq![("msg"@, 1usize)],
            kind: EventType::Network(NetworkEvent::DispatcherEvent),
        },
        RuleView {
            name: "LINK_EVENT"@,
            pattern: r"(?x)^<(?P<level>info|warn|debug)>\s+\[\s*(?P<ts>\d+\.\d+)\]\s+device\s+\((?P<device>[^)]+)\):\s+(?:link\s+(?P<state>connected|disconnected)|carrier:\s+link\s+(?P<carrier>connected|disconnected))"@,
            fields: seq![("device"@, 1usize), ("state"@, 2usize), ("carrier"@, 3usize)],
            kind: EventType::Network(NetworkEvent::LinkEvent),
        },
        RuleView {
            name: "VIRTUAL_DEVICE"@,
            pattern: r"(?x)^<(?P<level>info|warn)>\s+\[\s*(?P<ts>\d+\.\d+)\]\s+(?:bridge|bond|team|vlan):\s+(?P<msg>.*)"@,
            fields: seq![("msg"@, 1usize)],
            kind: EventType::Network(NetworkEvent::VirtualDeviceEvent),
        },
        RuleView {
            name: "AUDIT"@,
            pattern: r"(?x)^<(?P<level>info|warn)>\s+\[\s*(?P<ts>\d+\.\d+)\]\s+audit:\s+(?P<msg>.*)"@,
            fields: seq![("msg"@, 1usize)],
            kind: EventType::Network(NetworkEvent::AuditEvent),
        },
        RuleView {
            name: "SYSTEMD"@,
            pattern: r"(?x)^<(?P<level>info|warn)>\s+\[\s*(?P<ts>\d+\.\d+)\]\s+systemd:\s+(?P<msg>.*)"@,
            fields: seq![("msg"@, 1usize)],
            kind: EventType::Network(NetworkEvent::SystemdEvent),
        },
        RuleView {
            name: "GENERIC"@,
            pattern: r"(?x)^<(?P<level>info|warn|error|debug)>\s+\[\s*(?P<ts>\d+\.\d+)\]\s+(?P<component>\S+):\s+(?P<msg>.+)$"@,
            fields: seq![("component"@, 1usize), ("msg"@, 2usize)],
            kind: EventType::Network(NetworkEvent::Other),
        },
        RuleView {
            name: "UNKNOWN"@,
            pattern: r"(?s)^(?P<msg>.+)$"@,
            fields: seq![("msg"@, 1usize)],
            kind: EventType::Network(NetworkEvent::Other),
        },
    ]
}

/// Whether every pattern of the NetworkManager table compiles.
pub open spec fn spec_network_valid() -> bool {
    &&& rx_valid(r"(?x)^<(?P<level>info|warn|error)>\s+\[\s*(?P<ts>\d+\.\d+)\]\s+device\s+\((?P<device>[^)]+)\):\s+Activation:\s+(?P<result>successful|starting\s+connection|failed),?\s+(?P<details>.*?)\.?\s*$"@)
    &&& rx_valid(r"(?x)^<(?P<level>info|warn|debug)>\s+\[\s*(?P<ts>\d+\.\d+)\]\s+device\s+\((?P<device>[^)]+)\):\s+state\s+change:\s+(?P<from>\S+)\s+->\s+(?P<to>\S+)\s+\(reason\s+'(?P<reason>[^']*)',?\s*(?:sys-iface-state:\s+'(?P<sys_state>[^']+)'|managed-type:\s+'(?P<mgmt_type>[^']+)')?\)"@)
    &&& rx_valid(r"(?x)^<(?P<level>info|warn)>\s+\[\s*(?P<ts>\d+\.\d+)\]\s+manager:\s+(?:NetworkManager\s+state\s+is\s+now\s+(?P<state>\S+)|startup\s+complete|NetworkManager\s+\(version\s+(?P<version>[^)]+)\)\s+is\s+(?P<action>starting|stopping))"@)
    &&& rx_valid(r"(?x)^<(?P<level>info|warn|debug)>\s+\[\s*(?P<ts>\d+\.\d+)\]\s+dhcp(?P<version>[46])?\s+\((?P<iface>[^)]+)\):\s+(?:state\s+changed\s+(?P<from>\S+)\s+->\s+(?P<to>\S+)|option\s+(?P<option>\S+)\s+=>\s+'?(?P<value>[^']+)'?|(?P<msg>.*))"@)
    &&& rx_valid(r"(?x)^<(?P<level>info)>\s+\[\s*(?P<ts>\d+\.\d+)\]\s+dhcp-init:\s+Using\s+DHCP\s+client\s+'(?P<client>[^']+)'"@)
    &&& rx_valid(r"(?x)^<(?P<level>info|warn)>\s+\[\s*(?P<ts>\d+\.\d+)\]\s+policy:\s+set\s+'(?P<connection>[^']+)'\s+\((?P<iface>[^)]+)\)\s+as\s+default\s+for\s+(?P<purpose>IPv4|IPv6|DNS|routing).*?"@)
    &&& rx_valid(r"(?x)^<(?P<level>info|debug)>\s+\[\s*(?P<ts>\d+\.\d+)\]\s+device\s+\((?P<device>[^)]+)\):\s+supplicant\s+(?:interface|management\s+interface)\s+state:\s+(?P<from>\S+)\s+->\s+(?P<to>\S+)"@)
    &&& rx_valid(r"(?x)^<(?P<level>info|debug)>\s+\[\s*(?P<ts>\d+\.\d+)\]\s+device\s+\((?P<device>[^)]+)\):\s+(?:wifi-scan:\s+.*|supplicant\s+interface\s+state:\s+.*scanning.*)"@)
    &&& rx_valid(r"(?x)^<(?P<level>warn|error)>\s+\[\s*(?P<ts>\d+\.\d+)\]\s+platform(?:-linux)?:\s+(?P<operation>do-\S+)\[(?P<details>[^\]]+)\]:\s+(?:failure\s+(?P<errno>\d+)\s+\((?P<error>[^)]+)\)|(?P<msg>.*))"@)
    &&& rx_valid(r"(?x)^<(?P<level>info|warn)>\s+\[\s*(?P<ts>\d+\.\d+)\]\s+(?:settings|settings-connection):\s+(?P<msg>.*)"@)
    &&& rx_valid(r"(?x)^<(?P<level>info|warn)>\s+\[\s*(?P<ts>\d+\.\d+)\]\s+dns:\s+(?P<msg>.*)"@)
    &&& rx_valid(r"(?x)^<(?P<level>info|warn|error)>\s+\[\s*(?P<ts>\d+\.\d+)\]\s+(?:vpn-connection|vpn):\s+(?P<msg>.*)"@)
    &&& rx_valid(r"(?x)^<(?P<level>info|warn)>\s+\[\s*(?P<ts>\d+\.\d+)\]\s+firewall:\s+(?P<msg>.*)"@)
    &&& rx_valid(r"(?x)^<(?P<level>info|warn)>\s+\[\s*(?P<ts>\d+\.\d+)\]\s+agent-manager:\s+(?P<msg>.*)"@)
    &&& rx_valid(r"(?x)^<(?P<level>info|warn)>\s+\[\s*(?P<ts>\d+\.\d+)\]\s+connectivity:\s+(?P<msg>.*)"@)
    &&& rx_valid(r"(?x)^<(?P<level>info|warn)>\s+\[\s*(?P<ts>\d+\.\d+)\]\s+dispatcher:\s+(?P<msg>.*)"@)
    &&& rx_valid(r"(?x)^<(?P<level>info|warn|debug)>\s+\[\s*(?P<ts>\d+\.\d+)\]\s+device\s+\((?P<device>[^)]+)\):\s+(?:link\s+(?P<state>connected|disconnected)|carrier:\s+link\s+(?P<carrier>connected|disconnected))"@)
    &&& rx_valid(r"(?x)^<(?P<level>info|warn)>\s+\[\s*(?P<ts>\d+\.\d+)\]\s+(?:bridge|bond|team|vlan):\s+(?P<msg>.*)"@)
    &&& rx_valid(r"(?x)^<(?P<level>info|warn)>\s+\[\s*(?P<ts>\d+\.\d+)\]\s+audit:\s+(?P<msg>.*)"@)
    &&& rx_valid(r"(?x)^<(?P<level>info|warn)>\s+\[\s*(?P<ts>\d+\.\d+)\]\s+systemd:\s+(?P<msg>.*)"@)
    &&& rx_valid(r"(?x)^<(?P<level>info|warn|error|debug)>\s+\[\s*(?P<ts>\d+\.\d+)\]\s+(?P<component>\S+):\s+(?P<msg>.+)$"@)
    &&& rx_valid(r"(?s)^(?P<msg>.+)$"@)
}

/// Builds the NetworkManager table; `None` exactly when some pattern is
/// rejected by the regex engine.
#[verifier::rlimit(100)]
pub fn network_rules() -> (r: Option<Vec<Rule>>)
    ensures
        r matches Some(t) ==> rules_view(t@) == spec_network_rules(),
        r is Some ==> spec_network_valid(),
        r is None ==> !spec_network_valid(),
{
    let mut t: Vec<Rule> = Vec::new();
    let mut f: Vec<(String, usize)> = Vec::new();
    f.push(fld("device", 1));
    f.push(fld("result", 2));
    f.push(fld("details", 3));
    if !push_rule(&mut t, "DEVICE_ACTIVATION", r"(?x)^<(?P<level>info|warn|error)>\s+\[\s*(?P<ts>\d+\.\d+)\]\s+device\s+\((?P<device>[^)]+)\):\s+Activation:\s+(?P<result>successful|starting\s+connection|failed),?\s+(?P<details>.*?)\.?\s*$", f, EventType::Network(NetworkEvent::ConnectionActivated)) {
        return None;
    }
    let mut f: Vec<(String, usize)> = Vec::new();
    f.push(fld("device", 1));
    f.push(fld("from", 2));
    f.push(fld("to", 3));
    f.push(fld("reason", 4));
    f.push(fld("sys_state", 5));
    f.push(fld("mgmt_type", 6));
    if !push_rule(&mut t, "DEVICE_STATE_CHANGE", r"(?x)^<(?P<level>info|warn|debug)>\s+\[\s*(?P<ts>\d+\.\d+)\]\s+device\s+\((?P<device>[^)]+)\):\s+state\s+change:\s+(?P<from>\S+)\s+->\s+(?P<to>\S+)\s+\(reason\s+'(?P<reason>[^']*)',?\s*(?:sys-iface-state:\s+'(?P<sys_state>[^']+)'|managed-type:\s+'(?P<mgmt_type>[^']+)')?\)", f, EventType::Network(NetworkEvent::StateChange)) {
        return None;
    }
    let mut f: Vec<(String, usize)> = Vec::new();
    f.push(fld("state", 1));
    f.push(fld("version", 2));
    f.push(fld("action", 3));
    if !push_rule(&mut t, "MANAGER_STATE", r"(?x)^<(?P<level>info|warn)>\s+\[\s*(?P<ts>\d+\.\d+)\]\s+manager:\s+(?:NetworkManager\s+state\s+is\s+now\s+(?P<state>\S+)|startup\s+complete|NetworkManager\s+\(version\s+(?P<version>[^)]+)\)\s+is\s+(?P<action>starting|stopping))", f, EventType::Network(NetworkEvent::StateChange)) {
        return None;
    }
    let mut f: Vec<(String, usize)> = Vec::new();
    f.push(fld("version", 1));
    f.push(fld("iface", 2));
    f.push(fld("from", 3));
    f.push(fld("to", 4));
    f.push(fld("option", 5));
    f.push(fld("value", 6));
    f.push(fld("msg", 7));
    if !push_rule(&mut t, "DHCP_EVENT", r"(?x)^<(?P<level>info|warn|debug)>\s+\[\s*(?P<ts>\d+\.\d+)\]\s+dhcp(?P<version>[46])?\s+\((?P<iface>[^)]+)\):\s+(?:state\s+changed\s+(?P<from>\S+)\s+->\s+(?P<to>\S+)|option\s+(?P<option>\S+)\s+=>\s+'?(?P<value>[^']+)'?|(?P<msg>.*))", f, EventType::Network(NetworkEvent::DhcpLease)) {
        return None;
    }
    let mut f: Vec<(String, usize)> = Vec::new();
    f.push(fld("client", 1));
    if !push_rule(&mut t, "DHCP_INIT", r"(?x)^<(?P<level>info)>\s+\[\s*(?P<ts>\d+\.\d+)\]\s+dhcp-init:\s+Using\s+DHCP\s+client\s+'(?P<client>[^']+)'", f, EventType::Network(NetworkEvent::DhcpLease)) {
        return None;
    }
    let mut f: Vec<(String, usize)> = Vec::new();
    f.push(fld("connection", 1));
    f.push(fld("iface", 2));
    f.push(fld("purpose", 3));
    if !push_rule(&mut t, "POLICY_SET", r"(?x)^<(?P<level>info|warn)>\s+\[\s*(?P<ts>\d+\.\d+)\]\s+policy:\s+set\s+'(?P<connection>[^']+)'\s+\((?P<iface>[^)]+)\)\s+as\s+default\s+for\s+(?P<purpose>IPv4|IPv6|DNS|routing).*?", f, EventType::Network(NetworkEvent::PolicyChange)) {
        return None;
    }
    let mut f: Vec<(String, usize)> = Vec::new();
    f.push(fld("device", 1));
    f.push(fld("from", 2));
    f.push(fld("to", 3));
    if !push_rule(&mut t, "SUPPLICANT_STATE", r"(?x)^<(?P<level>info|debug)>\s+\[\s*(?P<ts>\d+\.\d+)\]\s+device\s+\((?P<device>[^)]+)\):\s+supplicant\s+(?:interface|management\s+interface)\s+state:\s+(?P<from>\S+)\s+->\s+(?P<to>\S+)", f, EventType::Network(NetworkEvent::WifiAssociationSuccess)) {
        return None;
    }
    let mut f: Vec<(String, usize)> = Vec::new();
    f.push(fld("device", 1));
    if !push_rule(&mut t, "WIFI_SCAN", r"(?x)^<(?P<level>info|debug)>\s+\[\s*(?P<ts>\d+\.\d+)\]\s+device\s+\((?P<device>[^)]+)\):\s+(?:wifi-scan:\s+.*|supplicant\s+interface\s+state:\s+.*scanning.*)", f, EventType::Network(NetworkEvent::WifiScan)) {
        return None;
    }
    let mut f: Vec<(String, usize)> = Vec::new();
    f.push(fld("operation", 1));
    f.push(fld("details", 2));
    f.push(fld("errno", 3));
    f.push(fld("error", 4));
    f.push(fld("msg", 5));
    if !push_rule(&mut t, "PLATFORM_ERROR", r"(?x)^<(?P<level>warn|error)>\s+\[\s*(?P<ts>\d+\.\d+)\]\s+platform(?:-linux)?:\s+(?P<operation>do-\S+)\[(?P<details>[^\]]+)\]:\s+(?:failure\s+(?P<errno>\d+)\s+\((?P<error>[^)]+)\)|(?P<msg>.*))", f, EventType::Network(NetworkEvent::Warning)) {
        return None;
    }
    let mut f: Vec<(String, usize)> = Vec::new();
    f.push(fld("msg", 1));
    if !push_rule(&mut t, "SETTINGS_CONNECTION", r"(?x)^<(?P<level>info|warn)>\s+\[\s*(?P<ts>\d+\.\d+)\]\s+(?:settings|settings-connection):\s+(?P<msg>.*)", f, EventType::Network(NetworkEvent::ConnectionAttempt)) {
        return None;
    }
    let mut f: Vec<(String, usize)> = Vec::new();
    f.push(fld("msg", 1));
    if !push_rule(&mut t, "DNS_CONFIG", r"(?x)^<(?P<level>info|warn)>\s+\[\s*(?P<ts>\d+\.\d+)\]\s+dns:\s+(?P<msg>.*)", f, EventType::Network(NetworkEvent::DnsConfig)) {
        return None;
    }
    let mut f: Vec<(String, usize)> = Vec::new();
    f.push(fld("msg", 1));
    if !push_rule(&mut t, "VPN_EVENT", r"(?x)^<(?P<level>info|warn|error)>\s+\[\s*(?P<ts>\d+\.\d+)\]\s+(?:vpn-connection|vpn):\s+(?P<msg>.*)", f, EventType::Network(NetworkEvent::VpnEvent)) {
        return None;
    }
    let mut f: Vec<(String, usize)> = Vec::new();
    f.push(fld("msg", 1));
    if !push_rule(&mut t, "FIREWALL_EVENT", r"(?x)^<(?P<level>info|warn)>\s+\[\s*(?P<ts>\d+\.\d+)\]\s+firewall:\s+(?P<msg>.*)", f, EventType::Network(NetworkEvent::FirewallEvent)) {
        return None;
    }
    let mut f: Vec<(String, usize)> = Vec::new();
    f.push(fld("msg", 1));
    if !push_rule(&mut t, "AGENT_REQUEST", r"(?x)^<(?P<level>info|warn)>\s+\[\s*(?P<ts>\d+\.\d+)\]\s+agent-manager:\s+(?P<msg>.*)", f, EventType::Network(NetworkEvent::AgentRequest)) {
        return None;
    }
    let mut f: Vec<(String, usize)> = Vec::new();
    f.push(fld("msg", 1));
    if !push_rule(&mut t, "CONNECTIVITY_CHECK", r"(?x)^<(?P<level>info|warn)>\s+\[\s*(?P<ts>\d+\.\d+)\]\s+connectivity:\s+(?P<msg>.*)", f, EventType::Network(NetworkEvent::ConnectivityCheck)) {
        return None;
    }
    let mut f: Vec<(String, usize)> = Vec::new();
    f.push(fld("msg", 1));
    if !push_rule(&mut t, "DISPATCHER", r"(?x)^<(?P<level>info|warn)>\s+\[\s*(?P<ts>\d+\.\d+)\]\s+dispatcher:\s+(?P<msg>.*)", f, EventType::Network(NetworkEvent::DispatcherEvent)) {
        return None;
    }
    let mut f: Vec<(String, usize)> = Vec::new();
    f.push(fld("device", 1));
    f.push(fld("state", 2));
    f.push(fld("carrier", 3));
    if !push_rule(&mut t, "LINK_EVENT", r"(?x)^<(?P<level>info|warn|debug)>\s+\[\s*(?P<ts>\d+\.\d+)\]\s+device\s+\((?P<device>[^)]+)\):\s+(?:link\s+(?P<state>connected|disconnected)|carrier:\s+link\s+(?P<carrier>connected|disconnected))", f, EventType::Network(NetworkEvent::LinkEvent)) {
        return None;
    }
    let mut f: Vec<(String, usize)> = Vec::new();
    f.push(fld("msg", 1));
    if !push_rule(&mut t, "VIRTUAL_DEVICE", r"(?x)^<(?P<level>info|warn)>\s+\[\s*(?P<ts>\d+\.\d+)\]\s+(?:bridge|bond|team|vlan):\s+(?P<msg>.*)", f, EventType::Network(NetworkEvent::VirtualDeviceEvent)) {
        return None;
    }
    let mut f: Vec<(String, usize)> = Vec::new();
    f.push(fld("msg", 1));
    if !push_rule(&mut t, "AUDIT", r"(?x)^<(?P<level>info|warn)>\s+\[\s*(?P<ts>\d+\.\d+)\]\s+audit:\s+(?P<msg>.*)", f, EventType::Network(NetworkEvent::AuditEvent)) {
        return None;
    }
    let mut f: Vec<(String, usize)> = Vec::new();
    f.push(fld("msg", 1));
    if !push_rule(&mut t, "SYSTEMD", r"(?x)^<(?P<level>info|warn)>\s+\[\s*(?P<ts>\d+\.\d+)\]\s+systemd:\s+(?P<msg>.*)", f, EventType::Network(NetworkEvent::SystemdEvent)) {
        return None;
    }
    let mut f: Vec<(String, usize)> = Vec::new();
    f.push(fld("component", 1));
    f.push(fld("msg", 2));
    if !push_rule(&mut t, "GENERIC", r"(?x)^<(?P<level>info|warn|error|debug)>\s+\[\s*(?P<ts>\d+\.\d+)\]\s+(?P<component>\S+):\s+(?P<msg>.+)$", f, EventType::Network(NetworkEvent::Other)) {
        return None;
    }
    let mut f: Vec<(String, usize)> = Vec::new();
    f.push(fld("msg", 1));
    if !push_rule(&mut t, "UNKNOWN", r"(?s)^(?P<msg>.+)$", f, EventType::Network(NetworkEvent::Other)) {
        return None;
    }
    proof {
        assert(rules_view(t@) =~= spec_network_rules()) by {
            assert forall|i: int| 0 <= i < 22 implies rules_view(t@)[i]
                == spec_network_rules()[i] by {
                assert(rules_view(t@)[i].fields =~= spec_network_rules()[i].fields);
                assert(rules_view(t@)[i] =~= spec_network_rules()[i]);
            }
        }
    }
    Some(t)
}

/// The firewalld table.
pub open spec fn spec_firewalld_rules() -> Seq<RuleView> {
    seq![
        RuleView {
            name: "SERVICE_STARTED"@,
            pattern: r"(?x)^firewalld\s+(?:is\s+)?running\s*$"@,
            fields: Seq::empty(),
            kind: EventType::Firewall(FirewallEvent::ServiceStarted),
        },
        RuleView {
            name: "SERVICE_STOPPED"@,
            pattern: r"(?x)^firewalld\s+(?:is\s+)?stopped\s*$"@,
            fields: Seq::empty(),
            kind: EventType::Firewall(FirewallEvent::ServiceStopped),
        },
        RuleView {
            name: "CONFIG_RELOADED"@,
            pattern: r"(?x)^(?:firewalld|firewall):\s+(?:Configuration\s+)?reloaded|Reloading\s+firewall\s+rules"@,
            fields: Seq::empty(),
            kind: EventType::Firewall(FirewallEvent::ConfigReloaded),
        },
        RuleView {
            name: "ZONE_CHANGED"@,
            pattern: r"(?x)^(?:Zone|Zone\s+changes)?:\s+(\w+)\s+(?:activated|changed|modified|added|removed)(?:\s+on\s+([a-z0-9\.]+))?\s*$"@,
            fields: seq![("zone"@, 1usize), ("interface"@, 2usize)],
            kind: EventType::Firewall(FirewallEvent::ZoneChanged),
        },
        RuleView {
            name: "SERVICE_MODIFIED"@,
            pattern: r"(?x)^(?:Service|service)\s+(\S+)\s+(?:added|removed|enabled|disabled)(?:\s+in\s+zone\s+(\w+))?\s*$"@,
            fields: seq![("service"@, 1usize), ("zone"@, 2usize)],
            kind: EventType::Firewall(FirewallEvent::ServiceModified),
        },
        RuleView {
            name: "PORT_MODIFIED"@,
            pattern: r"(?x)^(?:Port|port)\s+(\d+)/(\w+)\s+(?:opened|closed|added|removed)(?:\s+in\s+zone\s+(\w+))?\s*$"@,
            fields: seq![("port"@, 1usize), ("protocol"@, 2usize), ("zone"@, 3usize)],
            kind: EventType::Firewall(FirewallEvent::PortModified),
        },
        RuleView {
            name: "RULE_APPLIED"@,
            pattern: r"(?x)^(?:Rule|rule)\s+(?:added|removed|modified|applied)(?::\s+(.+))?\s*$"@,
            fields: seq![("rule"@, 1usize)],
            kind: EventType::Firewall(FirewallEvent::RuleApplied),
        },
        RuleView {
            name: "IPTABLES_COMMAND"@,
            pattern: r"(?x)^(?:WARNING|ERROR):\s+'(?:/usr/sbin/(?:ip6?tables|nft)(?:-restore|-save)?)'\s+(?:failed|succeeded):(.*)$"@,
            fields: seq![("msg"@, 1usize)],
            kind: EventType::Firewall(FirewallEvent::IptablesCommand),
        },
        RuleView {
            name: "INTERFACE_BINDING"@,
            pattern: r"(?x)^(?:Interface|interface)\s+([a-z0-9\.:]+)\s+(?:added|removed|bound|unbound)(?:\s+(?:to|from)\s+zone\s+(\w+))?\s*$"@,
            fields: seq![("interface"@, 1usize), ("zone"@, 2usize)],
            kind: EventType::Firewall(FirewallEvent::InterfaceBinding),
        },
        RuleView {
            name: "COMMAND_FAILED"@,
            pattern: r"(?x)^ERROR:\s+COMMAND_FAILED|ERROR:\s+(.+)"@,
            fields: seq![("msg"@, 1usize)],
            kind: EventType::Firewall(FirewallEvent::CommandFailed),
        },
        RuleView {
            name: "OPERATION_STATUS"@,
            pattern: r"(?x)^(?:reload|restart|reload-and-restart)(?:ed)?\s+(?:completed|failed|successful)(?:\s+(.+))?\s*$"@,
            fields: seq![("msg"@, 1usize)],
            kind: EventType::Firewall(FirewallEvent::OperationStatus),
        },
        RuleView {
            name: "MODULE_MSG"@,
            pattern: r"(?x)^(?:ModuleConnector|Connector)(?:\(([^)]+)\))?\s+(?:MSG:)?\s*(.+?)(?:\s+\[(.+?)\])?\s*$"@,
            fields: seq![("module"@, 1usize), ("msg"@, 2usize), ("details"@, 3usize)],
            kind: EventType::Firewall(FirewallEvent::ModuleMessage),
        },
        RuleView {
            name: "DBUS_MSG"@,
            pattern: r"(?x)^(?:DBus|dbus)\s+(?:error|warning|info)?:?\s*(.+?)(?:\s+\[(.+?)\])?\s*$"@,
            fields: seq![("msg"@, 1usize), ("details"@, 2usize)],
            kind: EventType::Firewall(FirewallEvent::DBusMessage),
        },
        RuleView {
            name: "WARNING"@,
            pattern: r"(?x)^WARNING:\s+(.+\S)\s*$"@,
            fields: seq![("msg"@, 1usize)],
            kind: EventType::Firewall(FirewallEvent::Warning),
        },
        RuleView {
            name: "ERROR"@,
            pattern: r"(?x)^ERROR:\s+(.+\S)\s*$"@,
            fields: seq![("msg"@, 1usize)],
            kind: EventType::Firewall(FirewallEvent::Error),
        },
        RuleView {
            name: "INFO"@,
            pattern: r"(?x)^INFO:\s+(.+\S)\s*$"@,
            fields: seq![("msg"@, 1usize)],
            kind: EventType::Firewall(FirewallEvent::Info),
        },
        RuleView {
            name: "UNKNOWN"@,
            pattern: r"(?s)^(.*\S.*)$"@,
            fields: seq![("msg"@, 1usize)],
            kind: EventType::Firewall(FirewallEvent::Other),
        },
    ]
}

/// Whether every pattern of the firewalld table compiles.
pub open spec fn spec_firewalld_valid() -> bool {
    &&& rx_valid(r"(?x)^firewalld\s+(?:is\s+)?running\s*$"@)
    &&& rx_valid(r"(?x)^firewalld\s+(?:is\s+)?stopped\s*$"@)
    &&& rx_valid(r"(?x)^(?:firewalld|firewall):\s+(?:Configuration\s+)?reloaded|Reloading\s+firewall\s+rules"@)
    &&& rx_valid(r"(?x)^(?:Zone|Zone\s+changes)?:\s+(\w+)\s+(?:activated|changed|modified|added|removed)(?:\s+on\s+([a-z0-9\.]+))?\s*$"@)
    &&& rx_valid(r"(?x)^(?:Service|service)\s+(\S+)\s+(?:added|removed|enabled|disabled)(?:\s+in\s+zone\s+(\w+))?\s*$"@)
    &&& rx_valid(r"(?x)^(?:Port|port)\s+(\d+)/(\w+)\s+(?:opened|closed|added|removed)(?:\s+in\s+zone\s+(\w+))?\s*$"@)
    &&& rx_valid(r"(?x)^(?:Rule|rule)\s+(?:added|removed|modified|applied)(?::\s+(.+))?\s*$"@)
    &&& rx_valid(r"(?x)^(?:WARNING|ERROR):\s+'(?:/usr/sbin/(?:ip6?tables|nft)(?:-restore|-save)?)'\s+(?:failed|succeeded):(.*)$"@)
    &&& rx_valid(r"(?x)^(?:Interface|interface)\s+([a-z0-9\.:]+)\s+(?:added|removed|bound|unbound)(?:\s+(?:to|from)\s+zone\s+(\w+))?\s*$"@)
    &&& rx_valid(r"(?x)^ERROR:\s+COMMAND_FAILED|ERROR:\s+(.+)"@)
    &&& rx_valid(r"(?x)^(?:reload|restart|reload-and-restart)(?:ed)?\s+(?:completed|failed|successful)(?:\s+(.+))?\s*$"@)
    &&& rx_valid(r"(?x)^(?:ModuleConnector|Connector)(?:\(([^)]+)\))?\s+(?:MSG:)?\s*(.+?)(?:\s+\[(.+?)\])?\s*$"@)
    &&& rx_valid(r"(?x)^(?:DBus|dbus)\s+(?:error|warning|info)?:?\s*(.+?)(?:\s+\[(.+?)\])?\s*$"@)
    &&& rx_valid(r"(?x)^WARNING:\s+(.+\S)\s*$"@)
    &&& rx_valid(r"(?x)^ERROR:\s+(.+\S)\s*$"@)
    &&& rx_valid(r"(?x)^INFO:\s+(.+\S)\s*$"@)
    &&& rx_valid(r"(?s)^(.*\S.*)$"@)
}

/// Builds the firewalld table; `None` exactly when some pattern is
/// rejected by the regex engine.
#[verifier::rlimit(50)]
pub fn firewalld_rules() -> (r: Option<Vec<Rule>>)
    ensures
        r matches Some(t) ==> rules_view(t@) == spec_firewalld_rules(),
        r is Some ==> spec_firewalld_valid(),
        r is None ==> !spec_firewalld_valid(),
{
    let mut t: Vec<Rule> = Vec::new();
    let mut f: Vec<(String, usize)> = Vec::new();
    if !push_rule(&mut t, "SERVICE_STARTED", r"(?x)^firewalld\s+(?:is\s+)?running\s*$", f, EventType::Firewall(FirewallEvent::ServiceStarted)) {
        return None;
    }
    let mut f: Vec<(String, usize)> = Vec::new();
    if !push_rule(&mut t, "SERVICE_STOPPED", r"(?x)^firewalld\s+(?:is\s+)?stopped\s*$", f, EventType::Firewall(FirewallEvent::ServiceStopped)) {
        return None;
    }
    let mut f: Vec<(String, usize)> = Vec::new();
    if !push_rule(&mut t, "CONFIG_RELOADED", r"(?x)^(?:firewalld|firewall):\s+(?:Configuration\s+)?reloaded|Reloading\s+firewall\s+rules", f, EventType::Firewall(FirewallEvent::ConfigReloaded)) {
        return None;
    }
    let mut f: Vec<(String, usize)> = Vec::new();
    f.push(fld("zone", 1));
    f.push(fld("interface", 2));
    if !push_rule(&mut t, "ZONE_CHANGED", r"(?x)^(?:Zone|Zone\s+changes)?:\s+(\w+)\s+(?:activated|changed|modified|added|removed)(?:\s+on\s+([a-z0-9\.]+))?\s*$", f, EventType::Firewall(FirewallEvent::ZoneChanged)) {
        return None;
    }
    let mut f: Vec<(String, usize)> = Vec::new();
    f.push(fld("service", 1));
    f.push(fld("zone", 2));
    if !push_rule(&mut t, "SERVICE_MODIFIED", r"(?x)^(?:Service|service)\s+(\S+)\s+(?:added|removed|enabled|disabled)(?:\s+in\s+zone\s+(\w+))?\s*$", f, EventType::Firewall(FirewallEvent::ServiceModified)) {
        return None;
    }
    let mut f: Vec<(String, usize)> = Vec::new();
    f.push(fld("port", 1));
    f.push(fld("protocol", 2));
    f.push(fld("zone", 3));
    if !push_rule(&mut t, "PORT_MODIFIED", r"(?x)^(?:Port|port)\s+(\d+)/(\w+)\s+(?:opened|closed|added|removed)(?:\s+in\s+zone\s+(\w+))?\s*$", f, EventType::Firewall(FirewallEvent::PortModified)) {
        return None;
    }
    let mut f: Vec<(String, usize)> = Vec::new();
    f.push(fld("rule", 1));
    if !push_rule(&mut t, "RULE_APPLIED", r"(?x)^(?:Rule|rule)\s+(?:added|removed|modified|applied)(?::\s+(.+))?\s*$", f, EventType::Firewall(FirewallEvent::RuleApplied)) {
        return None;
    }
    let mut f: Vec<(String, usize)> = Vec::new();
    f.push(fld("msg", 1));
    if !push_rule(&mut t, "IPTABLES_COMMAND", r"(?x)^(?:WARNING|ERROR):\s+'(?:/usr/sbin/(?:ip6?tables|nft)(?:-restore|-save)?)'\s+(?:failed|succeeded):(.*)$", f, EventType::Firewall(FirewallEvent::IptablesCommand)) {
        return None;
    }
    let mut f: Vec<(String, usize)> = Vec::new();
    f.push(fld("interface", 1));
    f.push(fld("zone", 2));
    if !push_rule(&mut t, "INTERFACE_BINDING", r"(?x)^(?:Interface|interface)\s+([a-z0-9\.:]+)\s+(?:added|removed|bound|unbound)(?:\s+(?:to|from)\s+zone\s+(\w+))?\s*$", f, EventType::Firewall(FirewallEvent::InterfaceBinding)) {
        return None;
    }
    let mut f: Vec<(String, usize)> = Vec::new();
    f.push(fld("msg", 1));
    if !push_rule(&mut t, "COMMAND_FAILED", r"(?x)^ERROR:\s+COMMAND_FAILED|ERROR:\s+(.+)", f, EventType::Firewall(FirewallEvent::CommandFailed)) {
        return None;
    }
    let mut f: Vec<(String, usize)> = Vec::new();
    f.push(fld("msg", 1));
    if !push_rule(&mut t, "OPERATION_STATUS", r"(?x)^(?:reload|restart|reload-and-restart)(?:ed)?\s+(?:completed|failed|successful)(?:\s+(.+))?\s*$", f, EventType::Firewall(FirewallEvent::OperationStatus)) {
        return None;
    }
    let mut f: Vec<(String, usize)> = Vec::new();
    f.push(fld("module", 1));
    f.push(fld("msg", 2));
    f.push(fld("details", 3));
    if !push_rule(&mut t, "MODULE_MSG", r"(?x)^(?:ModuleConnector|Connector)(?:\(([^)]+)\))?\s+(?:MSG:)?\s*(.+?)(?:\s+\[(.+?)\])?\s*$", f, EventType::Firewall(FirewallEvent::ModuleMessage)) {
        return None;
    }
    let mut f: Vec<(String, usize)> = Vec::new();
    f.push(fld("msg", 1));
    f.push(fld("details", 2));
    if !push_rule(&mut t, "DBUS_MSG", r"(?x)^(?:DBus|dbus)\s+(?:error|warning|info)?:?\s*(.+?)(?:\s+\[(.+?)\])?\s*$", f, EventType::Firewall(FirewallEvent::DBusMessage)) {
        return None;
    }
    let mut f: Vec<(String, usize)> = Vec::new();
    f.push(fld("msg", 1));
    if !push_rule(&mut t, "WARNING", r"(?x)^WARNING:\s+(.+\S)\s*$", f, EventType::Firewall(FirewallEvent::Warning)) {
        return None;
    }
    let mut f: Vec<(String, usize)> = Vec::new();
    f.push(fld("msg", 1));
    if !push_rule(&mut t, "ERROR", r"(?x)^ERROR:\s+(.+\S)\s*$", f, EventType::Firewall(FirewallEvent::Error)) {
        return None;
    }
    let mut f: Vec<(String, usize)> = Vec::new();
    f.push(fld("msg", 1));
    if !push_rule(&mut t, "INFO", r"(?x)^INFO:\s+(.+\S)\s*$", f, EventType::Firewall(FirewallEvent::Info)) {
        return None;
    }
    let mut f: Vec<(String, usize)> = Vec::new();
    f.push(fld("msg", 1));
    if !push_rule(&mut t, "UNKNOWN", r"(?s)^(.*\S.*)$", f, EventType::Firewall(FirewallEvent::Other)) {
        return None;
    }
    proof {
        assert(rules_view(t@) =~= spec_firewalld_rules()) by {
            assert forall|i: int| 0 <= i < 17 implies rules_view(t@)[i]
                == spec_firewalld_rules()[i] by {
                assert(rules_view(t@)[i].fields =~= spec_firewalld_rules()[i].fields);
                assert(rules_view(t@)[i] =~= spec_firewalld_rules()[i]);
            }
        }
    }
    Some(t)
}

/// The kernel ring buffer table.
pub open spec fn spec_kernel_rules() -> Seq<RuleView> {
    seq![
        RuleView {
            name: "KERNEL_PANIC"@,
            pattern: r"(?x)^(?:Kernel\s+panic|kernel\s+panic)\s*[-:]\s*(.+?)(?:\s+CPU:\s*(\d+))?\s*$"@,
            fields: seq![("msg"@, 1usize), ("cpu"@, 2usize)],
            kind: EventType::Kernel(KernelEvent::Panic),
        },
        RuleView {
            name: "OOM_KILL"@,
            pattern: r"(?x)^(?:Out\s+of\s+memory|OOM\s+killer):\s*(?:Kill(?:ed|ing))?\s+process\s+(\d+)\s+\(([^\)]+)\)(?:\s+score\s+(\d+))?\s*"@,
            fields: seq![("pid"@, 1usize), ("process"@, 2usize), ("score"@, 3usize)],
            kind: EventType::Kernel(KernelEvent::OomKill),
        },
        RuleView {
            name: "SEGFAULT"@,
            pattern: r"(?x)^([^\[]+)\[(\d+)\]:\s+segfault\s+at\s+([0-9a-f]+)\s+ip\s+([0-9a-f]+)\s+sp\s+([0-9a-f]+)\s+error\s+(\d+)(?:\s+in\s+([^\[]+))?\s*"@,
            fields: seq![("process"@, 1usize), ("pid"@, 2usize), ("address"@, 3usize), ("ip"@, 4usize), ("sp"@, 5usize), ("error"@, 6usize), ("binary"@, 7usize)],
            kind: EventType::Kernel(KernelEvent::Segfault),
        },
        RuleView {
            name: "USB_ERROR"@,
            pattern: r"(?x)^usb\s+([\d\-\.]+):\s+(.+?),\s+error\s+(-?\d+)\s*$"@,
            fields: seq![("device"@, 1usize), ("msg"@, 2usize), ("error_code"@, 3usize)],
            kind: EventType::Kernel(KernelEvent::UsbError),
        },
        RuleView {
            name: "USB_DESCRIPTOR_ERROR"@,
            pattern: r"(?x)^usb\s+([\d\-\.]+):\s+device\s+(?:descriptor|not\s+accepting\s+address)\s+(.+?),\s+error\s+(-?\d+)\s*$"@,
            fields: seq![("device"@, 1usize), ("msg"@, 2usize), ("error_code"@, 3usize)],
            kind: EventType::Kernel(KernelEvent::UsbDescriptorError),
        },
        RuleView {
            name: "USB_DEVICE_EVENT"@,
            pattern: r"(?x)^usb\s+([\d\-\.]+):\s+(New\s+USB\s+device\s+found|USB\s+disconnect),\s+(.+?)(?:\s+idVendor=([0-9a-f]+),\s+idProduct=([0-9a-f]+))?\s*$"@,
            fields: seq![("device"@, 1usize), ("event"@, 2usize), ("details"@, 3usize), ("vendor_id"@, 4usize), ("product_id"@, 5usize)],
            kind: EventType::Kernel(KernelEvent::UsbDeviceEvent),
        },
        RuleView {
            name: "DISK_ERROR"@,
            pattern: r"(?x)^(?:end_request|blk_update_request):\s+(?:I/O\s+error|critical\s+(?:medium|target)\s+error),\s+dev\s+(\S+),\s+sector\s+(\d+)(?:\s+op\s+([^\s]+))?\s*"@,
            fields: seq![("device"@, 1usize), ("sector"@, 2usize), ("operation"@, 3usize)],
            kind: EventType::Kernel(KernelEvent::DiskError),
        },
        RuleView {
            name: "FS_MOUNT"@,
            pattern: r"(?x)^(?:EXT[234]|XFS|BTRFS|F2FS|VFAT|NTFS|ZFS)-fs\s+\(([^\)]+)\):\s+(mounted|unmounted|remounted)\s*(.+?)?\s*$"@,
            fields: seq![("device"@, 1usize), ("action"@, 2usize), ("details"@, 3usize)],
            kind: EventType::Kernel(KernelEvent::FsMount),
        },
        RuleView {
            name: "FS_ERROR"@,
            pattern: r"(?x)^(?:EXT[234]|XFS|BTRFS|F2FS|NTFS|ZFS)-fs\s+(?:error|warning)\s+\(device\s+([^\)]+)\):(?:\s+(.+))?\s*$"@,
            fields: seq![("device"@, 1usize), ("msg"@, 2usize)],
            kind: EventType::Kernel(KernelEvent::FsError),
        },
        RuleView {
            name: "CPU_ERROR"@,
            pattern: r"(?x)^(?:CPU|cpu)\s*(\d+)?:?\s+(?:temperature|Machine\s+Check\s+Exception|MCE|hardware\s+error)\s*(.+?)\s*$"@,
            fields: seq![("cpu"@, 1usize), ("msg"@, 2usize)],
            kind: EventType::Kernel(KernelEvent::CpuError),
        },
        RuleView {
            name: "MEMORY_ERROR"@,
            pattern: r"(?x)^(?:EDAC|Memory)\s+(?:error|CE|UE):?\s*(.+?)(?:\s+at\s+address\s+([0-9a-fx]+))?\s*$"@,
            fields: seq![("msg"@, 1usize), ("address"@, 2usize)],
            kind: EventType::Kernel(KernelEvent::MemoryError),
        },
        RuleView {
            name: "DEVICE_DETECTED"@,
            pattern: r"(?x)^(?:Found|Detected|Registered)\s+(?:device|hardware):\s+(.+?)(?:\s+at\s+([0-9a-fx:]+))?\s*$"@,
            fields: seq![("device"@, 1usize), ("location"@, 2usize)],
            kind: EventType::Kernel(KernelEvent::DeviceDetected),
        },
        RuleView {
            name: "DRIVER_EVENT"@,
            pattern: r"(?x)^(?:Loading|Unloading|Loaded|Unloaded)\s+(?:module|driver):\s+([^\s]+)(?:\s+(.+))?\s*$"@,
            fields: seq![("driver"@, 1usize), ("details"@, 2usize)],
            kind: EventType::Kernel(KernelEvent::DriverEvent),
        },
        RuleView {
            name: "NET_INTERFACE"@,
            pattern: r"(?x)^([a-z0-9]+):\s+(?:link\s+(?:up|down)|renamed\s+from\s+([a-z0-9]+)|NIC\s+Link\s+is\s+(?:Up|Down))\s*(?:at\s+(\d+)\s*(?:Mbps|Gbps))?\s*"@,
            fields: seq![("interface"@, 1usize), ("old_name"@, 2usize), ("speed"@, 3usize)],
            kind: EventType::Kernel(KernelEvent::NetInterface),
        },
        RuleView {
            name: "PCI_DEVICE"@,
            pattern: r"(?x)^pci\s+([0-9a-f:\.]+):\s+(.+?)\s*$"@,
            fields: seq![("device"@, 1usize), ("msg"@, 2usize)],
            kind: EventType::Kernel(KernelEvent::PciDevice),
        },
        RuleView {
            name: "ACPI_EVENT"@,
            pattern: r"(?x)^ACPI:?\s+(.+?)(?:\s+\[([^\]]+)\])?\s*$"@,
            fields: seq![("msg"@, 1usize), ("details"@, 2usize)],
            kind: EventType::Kernel(KernelEvent::AcpiEvent),
        },
        RuleView {
            name: "THERMAL_EVENT"@,
            pattern: r"(?x)^(?:thermal|Thermal|Critical\s+temperature):?\s+(?:CPU|cpu|GPU|gpu|zone\s*(\d+))?\s*(.+?)(?:\s+temperature:?\s+([0-9\.]+)(?:\s*°?C)?)?\s*$"@,
            fields: seq![("zone"@, 1usize), ("msg"@, 2usize), ("temperature"@, 3usize)],
            kind: EventType::Kernel(KernelEvent::ThermalEvent),
        },
        RuleView {
            name: "DMA_ERROR"@,
            pattern: r"(?x)^(?:DMA|dma):\s+(.+?)(?:\s+on\s+device\s+([^\s]+))?\s*$"@,
            fields: seq![("msg"@, 1usize), ("device"@, 2usize)],
            kind: EventType::Kernel(KernelEvent::DmaError),
        },
        RuleView {
            name: "AUDIT_EVENT"@,
            pattern: r"(?x)^audit:?\s+type=(\d+)\s+(.+?)\s*$"@,
            fields: seq![("type"@, 1usize), ("msg"@, 2usize)],
            kind: EventType::Kernel(KernelEvent::AuditEvent),
        },
        RuleView {
            name: "KERNEL_TAINT"@,
            pattern: r"(?x)^(?:Kernel\s+tainted:|Loading\s+tainted\s+module)\s+([^\s]+)(?:\s+(.+))?\s*$"@,
            fields: seq![("module"@, 1usize), ("reason"@, 2usize)],
            kind: EventType::Kernel(KernelEvent::KernelTaint),
        },
        RuleView {
            name: "FIRMWARE_LOAD"@,
            pattern: r"(?x)^(?:firmware|Firmware):\s+(?:loading|loaded|failed\s+to\s+load)\s+([^\s]+)(?:\s+for\s+device\s+([^\s]+))?\s*$"@,
            fields: seq![("firmware"@, 1usize), ("device"@, 2usize)],
            kind: EventType::Kernel(KernelEvent::FirmwareLoad),
        },
        RuleView {
            name: "IRQ_EVENT"@,
            pattern: r"(?x)^(?:irq|IRQ)\s+(\d+):?\s+(.+?)\s*$"@,
            fields: seq![("irq"@, 1usize), ("msg"@, 2usize)],
            kind: EventType::Kernel(KernelEvent::IrqEvent),
        },
        RuleView {
            name: "TASK_KILLED"@,
            pattern: r"(?x)^(?:Killed|Killing)\s+process\s+(\d+)\s+\(([^\)]+)\)(?:\s+(.+))?\s*$"@,
            fields: seq![("pid"@, 1usize), ("process"@, 2usize), ("reason"@, 3usize)],
            kind: EventType::Kernel(KernelEvent::TaskKilled),
        },
        RuleView {
            name: "RCU_STALL"@,
            pattern: r"(?x)^(?:rcu_sched|rcu_preempt)\s+(?:detected\s+stalls?|self-detected\s+stall)\s+on\s+CPU[s]?\s+(.+?)\s*$"@,
            fields: seq![("cpus"@, 1usize)],
            kind: EventType::Kernel(KernelEvent::RcuStall),
        },
        RuleView {
            name: "WATCHDOG"@,
            pattern: r"(?x)^(?:watchdog|Watchdog):\s+(.+?)(?:\s+on\s+CPU\s+(\d+))?\s*$"@,
            fields: seq![("msg"@, 1usize), ("cpu"@, 2usize)],
            kind: EventType::Kernel(KernelEvent::Watchdog),
        },
        RuleView {
            name: "BOOT_EVENT"@,
            pattern: r"(?x)^(?:Booting|Starting)\s+(?:kernel|Linux)\s+(?:version\s+)?([^\s]+)?\s*(.+?)?\s*$"@,
            fields: seq![("version"@, 1usize), ("details"@, 2usize)],
            kind: EventType::Kernel(KernelEvent::BootEvent),
        },
        RuleView {
            name: "EMERG"@,
            pattern: r"(?x)^EMERGENCY:?\s+(.+\S)\s*$"@,
            fields: seq![("msg"@, 1usize)],
            kind: EventType::Kernel(KernelEvent::Emergency),
        },
        RuleView {
            name: "ALERT"@,
            pattern: r"(?x)^ALERT:?\s+(.+\S)\s*$"@,
            fields: seq![("msg"@, 1usize)],
            kind: EventType::Kernel(KernelEvent::Alert),
        },
        RuleView {
            name: "CRITICAL"@,
            pattern: r"(?x)^(?:CRITICAL|critical):?\s+(.+\S)\s*$"@,
            fields: seq![("msg"@, 1usize)],
            kind: EventType::Kernel(KernelEvent::Critical),
        },
        RuleView {
            name: "ERROR"@,
            pattern: r"(?x)^(?:ERROR|error):?\s+(.+\S)\s*$"@,
            fields: seq![("msg"@, 1usize)],
            kind: EventType::Kernel(KernelEvent::Error),
        },
        RuleView {
            name: "WARNING"@,
            pattern: r"(?x)^(?:WARNING|warning):?\s+(.+\S)\s*$"@,
            fields: seq![("msg"@, 1usize)],
            kind: EventType::Kernel(KernelEvent::Warning),
        },
        RuleView {
            name: "NOTICE"@,
            pattern: r"(?x)^(?:NOTICE|notice):?\s+(.+\S)\s*$"@,
            fields: seq![("msg"@, 1usize)],
            kind: EventType::Kernel(KernelEvent::Notice),
        },
        RuleView {
            name: "INFO"@,
            pattern: r"(?x)^(?:INFO|info):?\s+(.+\S)\s*$"@,
            fields: seq![("msg"@, 1usize)],
            kind: EventType::Kernel(KernelEvent::Info),
        },
        RuleView {
            name: "UNKNOWN"@,
            pattern: r"(?s)^(.*\S.*)$"@,
            fields: seq![("msg"@, 1usize)],
            kind: EventType::Kernel(KernelEvent::Other),
        },
    ]
}

/// Whether every pattern of the kernel ring buffer table compiles.
pub open spec fn spec_kernel_valid() -> bool {
    &&& rx_valid(r"(?x)^(?:Kernel\s+panic|kernel\s+panic)\s*[-:]\s*(.+?)(?:\s+CPU:\s*(\d+))?\s*$"@)
    &&& rx_valid(r"(?x)^(?:Out\s+of\s+memory|OOM\s+killer):\s*(?:Kill(?:ed|ing))?\s+process\s+(\d+)\s+\(([^\)]+)\)(?:\s+score\s+(\d+))?\s*"@)
    &&& rx_valid(r"(?x)^([^\[]+)\[(\d+)\]:\s+segfault\s+at\s+([0-9a-f]+)\s+ip\s+([0-9a-f]+)\s+sp\s+([0-9a-f]+)\s+error\s+(\d+)(?:\s+in\s+([^\[]+))?\s*"@)
    &&& rx_valid(r"(?x)^usb\s+([\d\-\.]+):\s+(.+?),\s+error\s+(-?\d+)\s*$"@)
    &&& rx_valid(r"(?x)^usb\s+([\d\-\.]+):\s+device\s+(?:descriptor|not\s+accepting\s+address)\s+(.+?),\s+error\s+(-?\d+)\s*$"@)
    &&& rx_valid(r"(?x)^usb\s+([\d\-\.]+):\s+(New\s+USB\s+device\s+found|USB\s+disconnect),\s+(.+?)(?:\s+idVendor=([0-9a-f]+),\s+idProduct=([0-9a-f]+))?\s*$"@)
    &&& rx_valid(r"(?x)^(?:end_request|blk_update_request):\s+(?:I/O\s+error|critical\s+(?:medium|target)\s+error),\s+dev\s+(\S+),\s+sector\s+(\d+)(?:\s+op\s+([^\s]+))?\s*"@)
    &&& rx_valid(r"(?x)^(?:EXT[234]|XFS|BTRFS|F2FS|VFAT|NTFS|ZFS)-fs\s+\(([^\)]+)\):\s+(mounted|unmounted|remounted)\s*(.+?)?\s*$"@)
    &&& rx_valid(r"(?x)^(?:EXT[234]|XFS|BTRFS|F2FS|NTFS|ZFS)-fs\s+(?:error|warning)\s+\(device\s+([^\)]+)\):(?:\s+(.+))?\s*$"@)
    &&& rx_valid(r"(?x)^(?:CPU|cpu)\s*(\d+)?:?\s+(?:temperature|Machine\s+Check\s+Exception|MCE|hardware\s+error)\s*(.+?)\s*$"@)
    &&& rx_valid(r"(?x)^(?:EDAC|Memory)\s+(?:error|CE|UE):?\s*(.+?)(?:\s+at\s+address\s+([0-9a-fx]+))?\s*$"@)
    &&& rx_valid(r"(?x)^(?:Found|Detected|Registered)\s+(?:device|hardware):\s+(.+?)(?:\s+at\s+([0-9a-fx:]+))?\s*$"@)
    &&& rx_valid(r"(?x)^(?:Loading|Unloading|Loaded|Unloaded)\s+(?:module|driver):\s+([^\s]+)(?:\s+(.+))?\s*$"@)
    &&& rx_valid(r"(?x)^([a-z0-9]+):\s+(?:link\s+(?:up|down)|renamed\s+from\s+([a-z0-9]+)|NIC\s+Link\s+is\s+(?:Up|Down))\s*(?:at\s+(\d+)\s*(?:Mbps|Gbps))?\s*"@)
    &&& rx_valid(r"(?x)^pci\s+([0-9a-f:\.]+):\s+(.+?)\s*$"@)
    &&& rx_valid(r"(?x)^ACPI:?\s+(.+?)(?:\s+\[([^\]]+)\])?\s*$"@)
    &&& rx_valid(r"(?x)^(?:thermal|Thermal|Critical\s+temperature):?\s+(?:CPU|cpu|GPU|gpu|zone\s*(\d+))?\s*(.+?)(?:\s+temperature:?\s+([0-9\.]+)(?:\s*°?C)?)?\s*$"@)
    &&& rx_valid(r"(?x)^(?:DMA|dma):\s+(.+?)(?:\s+on\s+device\s+([^\s]+))?\s*$"@)
    &&& rx_valid(r"(?x)^audit:?\s+type=(\d+)\s+(.+?)\s*$"@)
    &&& rx_valid(r"(?x)^(?:Kernel\s+tainted:|Loading\s+tainted\s+module)\s+([^\s]+)(?:\s+(.+))?\s*$"@)
    &&& rx_valid(r"(?x)^(?:firmware|Firmware):\s+(?:loading|loaded|failed\s+to\s+load)\s+([^\s]+)(?:\s+for\s+device\s+([^\s]+))?\s*$"@)
    &&& rx_valid(r"(?x)^(?:irq|IRQ)\s+(\d+):?\s+(.+?)\s*$"@)
    &&& rx_valid(r"(?x)^(?:Killed|Killing)\s+process\s+(\d+)\s+\(([^\)]+)\)(?:\s+(.+))?\s*$"@)
    &&& rx_valid(r"(?x)^(?:rcu_sched|rcu_preempt)\s+(?:detected\s+stalls?|self-detected\s+stall)\s+on\s+CPU[s]?\s+(.+?)\s*$"@)
    &&& rx_valid(r"(?x)^(?:watchdog|Watchdog):\s+(.+?)(?:\s+on\s+CPU\s+(\d+))?\s*$"@)
    &&& rx_valid(r"(?x)^(?:Booting|Starting)\s+(?:kernel|Linux)\s+(?:version\s+)?([^\s]+)?\s*(.+?)?\s*$"@)
    &&& rx_valid(r"(?x)^EMERGENCY:?\s+(.+\S)\s*$"@)
    &&& rx_valid(r"(?x)^ALERT:?\s+(.+\S)\s*$"@)
    &&& rx_valid(r"(?x)^(?:CRITICAL|critical):?\s+(.+\S)\s*$"@)
    &&& rx_valid(r"(?x)^(?:ERROR|error):?\s+(.+\S)\s*$"@)
    &&& rx_valid(r"(?x)^(?:WARNING|warning):?\s+(.+\S)\s*$"@)
    &&& rx_valid(r"(?x)^(?:NOTICE|notice):?\s+(.+\S)\s*$"@)
    &&& rx_valid(r"(?x)^(?:INFO|info):?\s+(.+\S)\s*$"@)
    &&& rx_valid(r"(?s)^(.*\S.*)$"@)
}

/// Builds the kernel ring buffer table; `None` exactly when some pattern is
/// rejected by the regex engine.
#[verifier::rlimit(100)]
pub fn kernel_rules() -> (r: Option<Vec<Rule>>)
    ensures
        r matches Some(t) ==> rules_view(t@) == spec_kernel_rules(),
        r is Some ==> spec_kernel_valid(),
        r is None ==> !spec_kernel_valid(),
{
    let mut t: Vec<Rule> = Vec::new();
    let mut f: Vec<(String, usize)> = Vec::new();
    f.push(fld("msg", 1));
    f.push(fld("cpu", 2));
    if !push_rule(&mut t, "KERNEL_PANIC", r"(?x)^(?:Kernel\s+panic|kernel\s+panic)\s*[-:]\s*(.+?)(?:\s+CPU:\s*(\d+))?\s*$", f, EventType::Kernel(KernelEvent::Panic)) {
        return None;
    }
    let mut f: Vec<(String, usize)> = Vec::new();
    f.push(fld("pid", 1));
    f.push(fld("process", 2));
    f.push(fld("score", 3));
    if !push_rule(&mut t, "OOM_KILL", r"(?x)^(?:Out\s+of\s+memory|OOM\s+killer):\s*(?:Kill(?:ed|ing))?\s+process\s+(\d+)\s+\(([^\)]+)\)(?:\s+score\s+(\d+))?\s*", f, EventType::Kernel(KernelEvent::OomKill)) {
        return None;
    }
    let mut f: Vec<(String, usize)> = Vec::new();
    f.push(fld("process", 1));
    f.push(fld("pid", 2));
    f.push(fld("address", 3));
    f.push(fld("ip", 4));
    f.push(fld("sp", 5));
    f.push(fld("error", 6));
    f.push(fld("binary", 7));
    if !push_rule(&mut t, "SEGFAULT", r"(?x)^([^\[]+)\[(\d+)\]:\s+segfault\s+at\s+([0-9a-f]+)\s+ip\s+([0-9a-f]+)\s+sp\s+([0-9a-f]+)\s+error\s+(\d+)(?:\s+in\s+([^\[]+))?\s*", f, EventType::Kernel(KernelEvent::Segfault)) {
        return None;
    }
    let mut f: Vec<(String, usize)> = Vec::new();
    f.push(fld("device", 1));
    f.push(fld("msg", 2));
    f.push(fld("error_code", 3));
    if !push_rule(&mut t, "USB_ERROR", r"(?x)^usb\s+([\d\-\.]+):\s+(.+?),\s+error\s+(-?\d+)\s*$", f, EventType::Kernel(KernelEvent::UsbError)) {
        return None;
    }
    let mut f: Vec<(String, usize)> = Vec::new();
    f.push(fld("device", 1));
    f.push(fld("msg", 2));
    f.push(fld("error_code", 3));
    if !push_rule(&mut t, "USB_DESCRIPTOR_ERROR", r"(?x)^usb\s+([\d\-\.]+):\s+device\s+(?:descriptor|not\s+accepting\s+address)\s+(.+?),\s+error\s+(-?\d+)\s*$", f, EventType::Kernel(KernelEvent::UsbDescriptorError)) {
        return None;
    }
    let mut f: Vec<(String, usize)> = Vec::new();
    f.push(fld("device", 1));
    f.push(fld("event", 2));
    f.push(fld("details", 3));
    f.push(fld("vendor_id", 4));
    f.push(fld("product_id", 5));
    if !push_rule(&mut t, "USB_DEVICE_EVENT", r"(?x)^usb\s+([\d\-\.]+):\s+(New\s+USB\s+device\s+found|USB\s+disconnect),\s+(.+?)(?:\s+idVendor=([0-9a-f]+),\s+idProduct=([0-9a-f]+))?\s*$", f, EventType::Kernel(KernelEvent::UsbDeviceEvent)) {
        return None;
    }
    let mut f: Vec<(String, usize)> = Vec::new();
    f.push(fld("device", 1));
    f.push(fld("sector", 2));
    f.push(fld("operation", 3));
    if !push_rule(&mut t, "DISK_ERROR", r"(?x)^(?:end_request|blk_update_request):\s+(?:I/O\s+error|critical\s+(?:medium|target)\s+error),\s+dev\s+(\S+),\s+sector\s+(\d+)(?:\s+op\s+([^\s]+))?\s*", f, EventType::Kernel(KernelEvent::DiskError)) {
        return None;
    }
    let mut f: Vec<(String, usize)> = Vec::new();
    f.push(fld("device", 1));
    f.push(fld("action", 2));
    f.push(fld("details", 3));
    if !push_rule(&mut t, "FS_MOUNT", r"(?x)^(?:EXT[234]|XFS|BTRFS|F2FS|VFAT|NTFS|ZFS)-fs\s+\(([^\)]+)\):\s+(mounted|unmounted|remounted)\s*(.+?)?\s*$", f, EventType::Kernel(KernelEvent::FsMount)) {
        return None;
    }
    let mut f: Vec<(String, usize)> = Vec::new();
    f.push(fld("device", 1));
    f.push(fld("msg", 2));
    if !push_rule(&mut t, "FS_ERROR", r"(?x)^(?:EXT[234]|XFS|BTRFS|F2FS|NTFS|ZFS)-fs\s+(?:error|warning)\s+\(device\s+([^\)]+)\):(?:\s+(.+))?\s*$", f, EventType::Kernel(KernelEvent::FsError)) {
        return None;
    }
    let mut f: Vec<(String, usize)> = Vec::new();
    f.push(fld("cpu", 1));
    f.push(fld("msg", 2));
    if !push_rule(&mut t, "CPU_ERROR", r"(?x)^(?:CPU|cpu)\s*(\d+)?:?\s+(?:temperature|Machine\s+Check\s+Exception|MCE|hardware\s+error)\s*(.+?)\s*$", f, EventType::Kernel(KernelEvent::CpuError)) {
        return None;
    }
    let mut f: Vec<(String, usize)> = Vec::new();
    f.push(fld("msg", 1));
    f.push(fld("address", 2));
    if !push_rule(&mut t, "MEMORY_ERROR", r"(?x)^(?:EDAC|Memory)\s+(?:error|CE|UE):?\s*(.+?)(?:\s+at\s+address\s+([0-9a-fx]+))?\s*$", f, EventType::Kernel(KernelEvent::MemoryError)) {
        return None;
    }
    let mut f: Vec<(String, usize)> = Vec::new();
    f.push(fld("device", 1));
    f.push(fld("location", 2));
    if !push_rule(&mut t, "DEVICE_DETECTED", r"(?x)^(?:Found|Detected|Registered)\s+(?:device|hardware):\s+(.+?)(?:\s+at\s+([0-9a-fx:]+))?\s*$", f, EventType::Kernel(KernelEvent::DeviceDetected)) {
        return None;
    }
    let mut f: Vec<(String, usize)> = Vec::new();
    f.push(fld("driver", 1));
    f.push(fld("details", 2));
    if !push_rule(&mut t, "DRIVER_EVENT", r"(?x)^(?:Loading|Unloading|Loaded|Unloaded)\s+(?:module|driver):\s+([^\s]+)(?:\s+(.+))?\s*$", f, EventType::Kernel(KernelEvent::DriverEvent)) {
        return None;
    }
    let mut f: Vec<(String, usize)> = Vec::new();
    f.push(fld("interface", 1));
    f.push(fld("old_name", 2));
    f.push(fld("speed", 3));
    if !push_rule(&mut t, "NET_INTERFACE", r"(?x)^([a-z0-9]+):\s+(?:link\s+(?:up|down)|renamed\s+from\s+([a-z0-9]+)|NIC\s+Link\s+is\s+(?:Up|Down))\s*(?:at\s+(\d+)\s*(?:Mbps|Gbps))?\s*", f, EventType::Kernel(KernelEvent::NetInterface)) {
        return None;
    }
    let mut f: Vec<(String, usize)> = Vec::new();
    f.push(fld("device", 1));
    f.push(fld("msg", 2));
    if !push_rule(&mut t, "PCI_DEVICE", r"(?x)^pci\s+([0-9a-f:\.]+):\s+(.+?)\s*$", f, EventType::Kernel(KernelEvent::PciDevice)) {
        return None;
    }
    let mut f: Vec<(String, usize)> = Vec::new();
    f.push(fld("msg", 1));
    f.push(fld("details", 2));
    if !push_rule(&mut t, "ACPI_EVENT", r"(?x)^ACPI:?\s+(.+?)(?:\s+\[([^\]]+)\])?\s*$", f, EventType::Kernel(KernelEvent::AcpiEvent)) {
        return None;
    }
    let mut f: Vec<(String, usize)> = Vec::new();
    f.push(fld("zone", 1));
    f.push(fld("msg", 2));
    f.push(fld("temperature", 3));
    if !push_rule(&mut t, "THERMAL_EVENT", r"(?x)^(?:thermal|Thermal|Critical\s+temperature):?\s+(?:CPU|cpu|GPU|gpu|zone\s*(\d+))?\s*(.+?)(?:\s+temperature:?\s+([0-9\.]+)(?:\s*°?C)?)?\s*$", f, EventType::Kernel(KernelEvent::ThermalEvent)) {
        return None;
    }
    let mut f: Vec<(String, usize)> = Vec::new();
    f.push(fld("msg", 1));
    f.push(fld("device", 2));
    if !push_rule(&mut t, "DMA_ERROR", r"(?x)^(?:DMA|dma):\s+(.+?)(?:\s+on\s+device\s+([^\s]+))?\s*$", f, EventType::Kernel(KernelEvent::DmaError)) {
        return None;
    }
    let mut f: Vec<(String, usize)> = Vec::new();
    f.push(fld("type", 1));
    f.push(fld("msg", 2));
    if !push_rule(&mut t, "AUDIT_EVENT", r"(?x)^audit:?\s+type=(\d+)\s+(.+?)\s*$", f, EventType::Kernel(KernelEvent::AuditEvent)) {
        return None;
    }
    let mut f: Vec<(String, usize)> = Vec::new();
    f.push(fld("module", 1));
    f.push(fld("reason", 2));
    if !push_rule(&mut t, "KERNEL_TAINT", r"(?x)^(?:Kernel\s+tainted:|Loading\s+tainted\s+module)\s+([^\s]+)(?:\s+(.+))?\s*$", f, EventType::Kernel(KernelEvent::KernelTaint)) {
        return None;
    }
    let mut f: Vec<(String, usize)> = Vec::new();
    f.push(fld("firmware", 1));
    f.push(fld("device", 2));
    if !push_rule(&mut t, "FIRMWARE_LOAD", r"(?x)^(?:firmware|Firmware):\s+(?:loading|loaded|failed\s+to\s+load)\s+([^\s]+)(?:\s+for\s+device\s+([^\s]+))?\s*$", f, EventType::Kernel(KernelEvent::FirmwareLoad)) {
        return None;
    }
    let mut f: Vec<(String, usize)> = Vec::new();
    f.push(fld("irq", 1));
    f.push(fld("msg", 2));
    if !push_rule(&mut t, "IRQ_EVENT", r"(?x)^(?:irq|IRQ)\s+(\d+):?\s+(.+?)\s*$", f, EventType::Kernel(KernelEvent::IrqEvent)) {
        return None;
    }
    let mut f: Vec<(String, usize)> = Vec::new();
    f.push(fld("pid", 1));
    f.push(fld("process", 2));
    f.push(fld("reason", 3));
    if !push_rule(&mut t, "TASK_KILLED", r"(?x)^(?:Killed|Killing)\s+process\s+(\d+)\s+\(([^\)]+)\)(?:\s+(.+))?\s*$", f, EventType::Kernel(KernelEvent::TaskKilled)) {
        return None;
    }
    let mut f: Vec<(String, usize)> = Vec::new();
    f.push(fld("cpus", 1));
    if !push_rule(&mut t, "RCU_STALL", r"(?x)^(?:rcu_sched|rcu_preempt)\s+(?:detected\s+stalls?|self-detected\s+stall)\s+on\s+CPU[s]?\s+(.+?)\s*$", f, EventType::Kernel(KernelEvent::RcuStall)) {
        return None;
    }
    let mut f: Vec<(String, usize)> = Vec::new();
    f.push(fld("msg", 1));
    f.push(fld("cpu", 2));
    if !push_rule(&mut t, "WATCHDOG", r"(?x)^(?:watchdog|Watchdog):\s+(.+?)(?:\s+on\s+CPU\s+(\d+))?\s*$", f, EventType::Kernel(KernelEvent::Watchdog)) {
        return None;
    }
    let mut f: Vec<(String, usize)> = Vec::new();
    f.push(fld("version", 1));
    f.push(fld("details", 2));
    if !push_rule(&mut t, "BOOT_EVENT", r"(?x)^(?:Booting|Starting)\s+(?:kernel|Linux)\s+(?:version\s+)?([^\s]+)?\s*(.+?)?\s*$", f, EventType::Kernel(KernelEvent::BootEvent)) {
        return None;
    }
    let mut f: Vec<(String, usize)> = Vec::new();
    f.push(fld("msg", 1));
    if !push_rule(&mut t, "EMERG", r"(?x)^EMERGENCY:?\s+(.+\S)\s*$", f, EventType::Kernel(KernelEvent::Emergency)) {
        return None;
    }
    let mut f: Vec<(String, usize)> = Vec::new();
    f.push(fld("msg", 1));
    if !push_rule(&mut t, "ALERT", r"(?x)^ALERT:?\s+(.+\S)\s*$", f, EventType::Kernel(KernelEvent::Alert)) {
        return None;
    }
    let mut f: Vec<(String, usize)> = Vec::new();
    f.push(fld("msg", 1));
    if !push_rule(&mut t, "CRITICAL", r"(?x)^(?:CRITICAL|critical):?\s+(.+\S)\s*$", f, EventType::Kernel(KernelEvent::Critical)) {
        return None;
    }
    let mut f: Vec<(String, usize)> = Vec::new();
    f.push(fld("msg", 1));
    if !push_rule(&mut t, "ERROR", r"(?x)^(?:ERROR|error):?\s+(.+\S)\s*$", f, EventType::Kernel(KernelEvent::Error)) {
        return None;
    }
    let mut f: Vec<(String, usize)> = Vec::new();
    f.push(fld("msg", 1));
    if !push_rule(&mut t, "WARNING", r"(?x)^(?:WARNING|warning):?\s+(.+\S)\s*$", f, EventType::Kernel(KernelEvent::Warning)) {
        return None;
    }
    let mut f: Vec<(String, usize)> = Vec::new();
    f.push(fld("msg", 1));
    if !push_rule(&mut t, "NOTICE", r"(?x)^(?:NOTICE|notice):?\s+(.+\S)\s*$", f, EventType::Kernel(KernelEvent::Notice)) {
        return None;
    }
    let mut f: Vec<(String, usize)> = Vec::new();
    f.push(fld("msg", 1));
    if !push_rule(&mut t, "INFO", r"(?x)^(?:INFO|info):?\s+(.+\S)\s*$", f, EventType::Kernel(KernelEvent::Info)) {
        return None;
    }
    let mut f: Vec<(String, usize)> = Vec::new();
    f.push(fld("msg", 1));
    if !push_rule(&mut t, "UNKNOWN", r"(?s)^(.*\S.*)$", f, EventType::Kernel(KernelEvent::Other)) {
        return None;
    }
    proof {
        assert(rules_view(t@) =~= spec_kernel_rules()) by {
            assert forall|i: int| 0 <= i < 34 implies rules_view(t@)[i]
                == spec_kernel_rules()[i] by {
                assert(rules_view(t@)[i].fields =~= spec_kernel_rules()[i].fields);
                assert(rules_view(t@)[i] =~= spec_kernel_rules()[i]);
            }
        }
    }
    Some(t)
}

} // verus!
