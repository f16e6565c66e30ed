//! The fixed lookup from requested event names to the rule names they
//! stand for: the event-type pre-filter expands each requested name through
//! this table before classification.

use vstd::prelude::*;

use crate::text::str_eq;

verus! {

/// The rule names a requested event name expands to; an unknown name
/// expands to nothing.
pub open spec fn spec_regex_names(ev: Seq<char>) -> Seq<Seq<char>> {

    if ev == "Success"@ {
        seq!["AUTH_SUCCESS"@]
    } else if ev == "Failure"@ {
        seq!["AUTH_FAILURE"@]
    } else if ev == "SessionOpened"@ {
        seq!["SESSION_OPENED"@]
    } else if ev == "SessionClosed"@ {
        seq!["SESSION_CLOSED"@]
    } else if ev == "ConnectionClosed"@ {
        seq!["CONNECTION_CLOSED"@]
    } else if ev == "TooManyAuthFailures"@ {
        seq!["TOO_MANY_AUTH"@]
    } else if ev == "Warning"@ {
        seq!["WARNING"@]
    } else if ev == "Info"@ {
        seq!["RECEIVED_DISCONNECT"@, "NEGOTIATION_FAILURE"@]
    } else if ev == "Other"@ {
        seq!["UNKNOWN"@]
    } else if ev == "IncorrectPassword"@ {
        seq!["INCORRECT_PASSWORD"@]
    } else if ev == "AuthError"@ {
        seq!["AUTH_ERROR"@]
    } else if ev == "AuthFailure"@ {
        seq!["AUTH_FAILURE"@]
    } else if ev == "CmdRun"@ {
        seq!["COMMAND_RUN"@]
    } else if ev == "SessionOpenedSudo"@ {
        seq!["SESSION_OPENED_SUDO"@, "SESSION_OPENED_SU"@]
    } else if ev == "SudoWarning"@ {
        seq!["SUDO_WARNING"@]
    } else if ev == "NotInSudoers"@ {
        seq!["NOT_IN_SUDOERS"@]
    } else if ev == "LoginSuccess"@ {
        seq!["LOGIN_SUCCESS"@]
    } else if ev == "FailedLogin"@ {
        seq!["FAILED_LOGIN"@, "FAILED_LOGIN_TTY"@]
    } else if ev == "TooManyTries"@ {
        seq!["TOO_MANY_TRIES"@]
    } else if ev == "AuthCheckPass"@ {
        seq!["AUTH_CHECK_PASS"@]
    } else if ev == "AuthUserUnknown"@ {
        seq!["AUTH_USER_UNKNOWN"@]
    } else if ev == "FaillockUserUnknown"@ {
        seq!["FAILL0CK_USER_UNKNOWN"@]
    } else if ev == "NoLoginRefused"@ {
        seq!["NOLOGIN_REFUSED"@]
    } else if ev == "AccountExpired"@ {
        seq!["ACCOUNT_EXPIRED"@]
    } else if ev == "SessionOpenedLogin"@ {
        seq!["SESSION_OPENED"@]
    } else if ev == "SessionClosedLogin"@ {
        seq!["SESSION_CLOSED"@]
    } else if ev == "NewUser"@ {
        seq!["NEW_USER"@]
    } else if ev == "NewGroup"@ {
        seq!["NEW_GROUP"@]
    } else if ev == "GroupAddedEtcGroup"@ {
        seq!["GROUP_ADDED_ETC_GROUP"@]
    } else if ev == "GroupAddedEtcGshadow"@ {
        seq!["GROUP_ADDED_ETC_GSHADOW"@]
    } else if ev == "DeleteUser"@ {
        seq!["DELETE_USER"@]
    } else if ev == "DeleteUserHome"@ {
        seq!["DELETE_USER_HOME"@]
    } else if ev == "DeleteUserMail"@ {
        seq!["DELETE_USER_MAIL"@]
    } else if ev == "DeleteGroup"@ {
        seq!["DELETE_GROUP"@]
    } else if ev == "ModifyUser"@ {
        seq!["MODIFY_USER"@]
    } else if ev == "ModifyGroup"@ {
        seq!["MODIFY_GROUP"@]
    } else if ev == "PasswdChange"@ {
        seq!["USER_PASSWD_CHANGE"@]
    } else if ev == "ShadowUpdated"@ {
        seq!["USER_SHADOW_UPDATED"@]
    } else if ev == "PkgInstalled"@ {
        seq!["INSTALLED"@]
    } else if ev == "PkgRemoved"@ {
        seq!["REMOVED"@]
    } else if ev == "PkgUpgraded"@ {
        seq!["UPGRADED"@]
    } else if ev == "PkgDowndraded"@ {
        seq!["DOWNGRADED"@]
    } else if ev == "PkgReinstalled"@ {
        seq!["REINSTALLED"@]
    } else if ev == "CronCmd"@ {
        seq!["CRON_CMD"@]
    } else if ev == "CronReload"@ {
        seq!["CRON_RELOAD"@]
    } else if ev == "CronErrorBadCommand"@ {
        seq!["CRON_ERROR_BAD_COMMAND"@]
    } else if ev == "CronErrorBadMinute"@ {
        seq!["CRON_ERROR_BAD_MINUTE"@]
    } else if ev == "CronErrorOther"@ {
        seq!["CRON_ERROR_OTHER"@]
    } else if ev == "CronDenied"@ {
        seq!["CRON_DENIED"@]
    } else if ev == "CronSessionOpen"@ {
        seq!["CRON_SESSION_OPEN"@]
    } else if ev == "CronSessionClose"@ {
        seq!["CRON_SESSION_CLOSE"@]
    } else if ev == "NewConnection"@ {
        seq!["CONNECTION_CLOSED"@]
    } else if ev == "NetworkConnectionActivated"@ {
        seq!["CONNECTION_ACTIVATED"@]
    } else if ev == "NetworkConnectionDeactivated"@ {
        seq!["CONNECTION_DEACTIVATED"@]
    } else if ev == "NetworkDhcpLease"@ {
        seq!["DHCP_LEASE"@]
    } else if ev == "NetworkIpConfig"@ {
        seq!["IP_CONFIG"@]
    } else if ev == "NetworkDeviceAdded"@ {
        seq!["DEVICE_ADDED"@]
    } else if ev == "NetworkDeviceRemoved"@ {
        seq!["DEVICE_REMOVED"@]
    } else if ev == "NetworkWifiAssociationSuccess"@ {
        seq!["WIFI_ASSOC_SUCCESS"@]
    } else if ev == "NetworkWifiAuthFailure"@ {
        seq!["WIFI_AUTH_FAILURE"@]
    } else if ev == "NetworkStateChange"@ {
        seq!["STATE_CHANGE"@]
    } else if ev == "NetworkConnectionAttempt"@ {
        seq!["CONNECTION_ATTEMPT"@]
    } else if ev == "NetworkWarning"@ {
        seq!["WARNING"@]
    } else if ev == "NetworkUnknown"@ {
        seq!["UNKNOWN"@]
    } else if ev == "FirewalldServiceStarted"@ {
        seq!["SERVICE_STARTED"@]
    } else if ev == "FirewalldServiceStopped"@ {
        seq!["SERVICE_STOPPED"@]
    } else if ev == "FirewalldConfigReloaded"@ {
        seq!["CONFIG_RELOADED"@]
    } else if ev == "FirewalldZoneChanged"@ {
        seq!["ZONE_CHANGED"@]
    } else if ev == "FirewalldServiceModified"@ {
        seq!["SERVICE_MODIFIED"@]
    } else if ev == "FirewalldPortModified"@ {
        seq!["PORT_MODIFIED"@]
    } else if ev == "FirewalldRuleApplied"@ {
        seq!["RULE_APPLIED"@]
    } else if ev == "FirewalldIptablesCommand"@ {
        seq!["IPTABLES_COMMAND"@]
    } else if ev == "FirewalldInterfaceBinding"@ {
        seq!["INTERFACE_BINDING"@]
    } else if ev == "FirewalldCommandFailed"@ {
        seq!["COMMAND_FAILED"@]
    } else if ev == "FirewalldOperationStatus"@ {
        seq!["OPERATION_STATUS"@]
    } else if ev == "FirewalldModuleMessage"@ {
        seq!["MODULE_MSG"@]
    } else if ev == "FirewalldDBusMessage"@ {
        seq!["DBUS_MSG"@]
    } else if ev == "FirewalldWarning"@ {
        seq!["WARNING"@]
    } else if ev == "FirewalldError"@ {
        seq!["ERROR"@]
    } else if ev == "FirewalldInfo"@ {
        seq!["INFO"@]
    } else if ev == "FirewalldUnknown"@ {
        seq!["UNKNOWN"@]
    } else {
        Seq::empty()
    }
}

fn names1(a: &str) -> (r: Vec<String>)
    ensures
        r.deep_view() == seq![a@],
{
    let mut v: Vec<String> = Vec::new();
    v.push(a.to_owned());
    proof {
        assert(v.deep_view() =~= seq![a@]);
    }
    v
}

fn names2(a: &str, b: &str) -> (r: Vec<String>)
    ensures
        r.deep_view() == seq![a@, b@],
{
    let mut v: Vec<String> = Vec::new();
    v.push(a.to_owned());
    v.push(b.to_owned());
    proof {
        assert(v.deep_view() =~= seq![a@, b@]);
    }
    v
}

/// Expands one requested event name into the rule names it covers; an
/// unknown name yields the empty list.
#[verifier::rlimit(50)]
pub fn str_to_regex_names(ev: &str) -> (r: Vec<String>)
    ensures
        r.deep_view() == spec_regex_names(ev@),
{
    if str_eq(ev, "Success") {
        names1("AUTH_SUCCESS")
    } else if str_eq(ev, "Failure") {
        names1("AUTH_FAILURE")
    } else if str_eq(ev, "SessionOpened") {
        names1("SESSION_OPENED")
    } else if str_eq(ev, "SessionClosed") {
        names1("SESSION_CLOSED")
    } else if str_eq(ev, "ConnectionClosed") {
        names1("CONNECTION_CLOSED")
    } else if str_eq(ev, "TooManyAuthFailures") {
        names1("TOO_MANY_AUTH")
    } else if str_eq(ev, "Warning") {
        names1("WARNING")
    } else if str_eq(ev, "Info") {
        names2("RECEIVED_DISCONNECT", "NEGOTIATION_FAILURE")
    } else if str_eq(ev, "Other") {
        names1("UNKNOWN")
    } else if str_eq(ev, "IncorrectPassword") {
        names1("INCORRECT_PASSWORD")
    } else if str_eq(ev, "AuthError") {
        names1("AUTH_ERROR")
    } else if str_eq(ev, "AuthFailure") {
        names1("AUTH_FAILURE")
    } else if str_eq(ev, "CmdRun") {
        names1("COMMAND_RUN")
    } else if str_eq(ev, "SessionOpenedSudo") {
        names2("SESSION_OPENED_SUDO", "SESSION_OPENED_SU")
    } else if str_eq(ev, "SudoWarning") {
        names1("SUDO_WARNING")
    } else if str_eq(ev, "NotInSudoers") {
        names1("NOT_IN_SUDOERS")
    } else if str_eq(ev, "LoginSuccess") {
        names1("LOGIN_SUCCESS")
    } else if str_eq(ev, "FailedLogin") {
        names2("FAILED_LOGIN", "FAILED_LOGIN_TTY")
    } else if str_eq(ev, "TooManyTries") {
        names1("TOO_MANY_TRIES")
    } else if str_eq(ev, "AuthCheckPass") {
        names1("AUTH_CHECK_PASS")
    } else if str_eq(ev, "AuthUserUnknown") {
        names1("AUTH_USER_UNKNOWN")
    } else if str_eq(ev, "FaillockUserUnknown") {
        names1("FAILL0CK_USER_UNKNOWN")
    } else if str_eq(ev, "NoLoginRefused") {
        names1("NOLOGIN_REFUSED")
    } else if str_eq(ev, "AccountExpired") {
        names1("ACCOUNT_EXPIRED")
    } else if str_eq(ev, "SessionOpenedLogin") {
        names1("SESSION_OPENED")
    } else if str_eq(ev, "SessionClosedLogin") {
        names1("SESSION_CLOSED")
    } else if str_eq(ev, "NewUser") {
        names1("NEW_USER")
    } else if str_eq(ev, "NewGroup") {
        names1("NEW_GROUP")
    } else if str_eq(ev, "GroupAddedEtcGroup") {
        names1("GROUP_ADDED_ETC_GROUP")
    } else if str_eq(ev, "GroupAddedEtcGshadow") {
        names1("GROUP_ADDED_ETC_GSHADOW")
    } else if str_eq(ev, "DeleteUser") {
        names1("DELETE_USER")
    } else if str_eq(ev, "DeleteUserHome") {
        names1("DELETE_USER_HOME")
    } else if str_eq(ev, "DeleteUserMail") {
        names1("DELETE_USER_MAIL")
    } else if str_eq(ev, "DeleteGroup") {
        names1("DELETE_GROUP")
    } else if str_eq(ev, "ModifyUser") {
        names1("MODIFY_USER")
    } else if str_eq(ev, "ModifyGroup") {
        names1("MODIFY_GROUP")
    } else if str_eq(ev, "PasswdChange") {
        names1("USER_PASSWD_CHANGE")
    } else if str_eq(ev, "ShadowUpdated") {
        names1("USER_SHADOW_UPDATED")
    } else if str_eq(ev, "PkgInstalled") {
        names1("INSTALLED")
    } else if str_eq(ev, "PkgRemoved") {
        names1("REMOVED")
    } else if str_eq(ev, "PkgUpgraded") {
        names1("UPGRADED")
    } else if str_eq(ev, "PkgDowndraded") {
        names1("DOWNGRADED")
    } else if str_eq(ev, "PkgReinstalled") {
        names1("REINSTALLED")
    } else if str_eq(ev, "CronCmd") {
        names1("CRON_CMD")
    } else if str_eq(ev, "CronReload") {
        names1("CRON_RELOAD")
    } else if str_eq(ev, "CronErrorBadCommand") {
        names1("CRON_ERROR_BAD_COMMAND")
    } else if str_eq(ev, "CronErrorBadMinute") {
        names1("CRON_ERROR_BAD_MINUTE")
    } else if str_eq(ev, "CronErrorOther") {
        names1("CRON_ERROR_OTHER")
    } else if str_eq(ev, "CronDenied") {
        names1("CRON_DENIED")
    } else if str_eq(ev, "CronSessionOpen") {
        names1("CRON_SESSION_OPEN")
    } else if str_eq(ev, "CronSessionClose") {
        names1("CRON_SESSION_CLOSE")
    } else if str_eq(ev, "NewConnection") {
        names1("CONNECTION_CLOSED")
    } else if str_eq(ev, "NetworkConnectionActivated") {
        names1("CONNECTION_ACTIVATED")
    } else if str_eq(ev, "NetworkConnectionDeactivated") {
        names1("CONNECTION_DEACTIVATED")
    } else if str_eq(ev, "NetworkDhcpLease") {
        names1("DHCP_LEASE")
    } else if str_eq(ev, "NetworkIpConfig") {
        names1("IP_CONFIG")
    } else if str_eq(ev, "NetworkDeviceAdded") {
        names1("DEVICE_ADDED")
    } else if str_eq(ev, "NetworkDeviceRemoved") {
        names1("DEVICE_REMOVED")
    } else if str_eq(ev, "NetworkWifiAssociationSuccess") {
        names1("WIFI_ASSOC_SUCCESS")
    } else if str_eq(ev, "NetworkWifiAuthFailure") {
        names1("WIFI_AUTH_FAILURE")
    } else if str_eq(ev, "NetworkStateChange") {
        names1("STATE_CHANGE")
    } else if str_eq(ev, "NetworkConnectionAttempt") {
        names1("CONNECTION_ATTEMPT")
    } else if str_eq(ev, "NetworkWarning") {
        names1("WARNING")
    } else if str_eq(ev, "NetworkUnknown") {
        names1("UNKNOWN")
    } else if str_eq(ev, "FirewalldServiceStarted") {
        names1("SERVICE_STARTED")
    } else if str_eq(ev, "FirewalldServiceStopped") {
        names1("SERVICE_STOPPED")
    } else if str_eq(ev, "FirewalldConfigReloaded") {
        names1("CONFIG_RELOADED")
    } else if str_eq(ev, "FirewalldZoneChanged") {
        names1("ZONE_CHANGED")
    } else if str_eq(ev, "FirewalldServiceModified") {
        names1("SERVICE_MODIFIED")
    } else if str_eq(ev, "FirewalldPortModified") {
        names1("PORT_MODIFIED")
    } else if str_eq(ev, "FirewalldRuleApplied") {
        names1("RULE_APPLIED")
    } else if str_eq(ev, "FirewalldIptablesCommand") {
        names1("IPTABLES_COMMAND")
    } else if str_eq(ev, "FirewalldInterfaceBinding") {
        names1("INTERFACE_BINDING")
    } else if str_eq(ev, "FirewalldCommandFailed") {
        names1("COMMAND_FAILED")
    } else if str_eq(ev, "FirewalldOperationStatus") {
        names1("OPERATION_STATUS")
    } else if str_eq(ev, "FirewalldModuleMessage") {
        names1("MODULE_MSG")
    } else if str_eq(ev, "FirewalldDBusMessage") {
        names1("DBUS_MSG")
    } else if str_eq(ev, "FirewalldWarning") {
        names1("WARNING")
    } else if str_eq(ev, "FirewalldError") {
        names1("ERROR")
    } else if str_eq(ev, "FirewalldInfo") {
        names1("INFO")
    } else if str_eq(ev, "FirewalldUnknown") {
        names1("UNKNOWN")
    } else {
        let v: Vec<String> = Vec::new();
        proof {
            assert(v.deep_view() =~= Seq::<Seq<char>>::empty());
        }
        v
    }
}

} // verus!
