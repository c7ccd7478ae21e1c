//! Configuration of the syslog writer and the syslog severity of each level.

use vstd::prelude::*;

use crate::def::{CRITICAL, DEBUG, ERROR, EXCEPTION, INFO, SUCCESS, WARNING};
use crate::filter::check_filter;
use crate::filter::filter_valid;

verus! {

/// The syslog facility that the writer's messages are filed under.
#[derive(Debug, Clone, Copy, PartialEq, Eq, Structural)]
pub enum SyslogFacility {
    Kern,
    User,
    Mail,
    Daemon,
    Auth,
    Syslog,
    Lpr,
    News,
    Uucp,
    Cron,
    AuthPriv,
    Ftp,
    Ntp,
    Audit,
    Alert,
    ClockDaemon,
    Local0,
    Local1,
    Local2,
    Local3,
    Local4,
    Local5,
    Local6,
    Local7,
}

/// Syslog writer settings; the writer formats as RFC 3164 with the
/// facility, hostname, process name and process id held here.
#[derive(Debug)]
pub struct SyslogWriterConfig {
    pub enabled: bool,
    pub level: u8,
    pub domain_filter: Option<String>,
    pub message_filter: Option<String>,
    pub facility: SyslogFacility,
    pub hostname: Option<String>,
    pub process: String,
    pub pid: u32,
    pub debug: u8,
}

impl SyslogWriterConfig {
    pub fn new(level: u8, hostname: Option<String>, pname: &str, pid: u32) -> (r: Self)
        ensures
            r.enabled,
            r.level == level,
            r.domain_filter is None,
            r.message_filter is None,
            r.facility == SyslogFacility::User,
            r.hostname == hostname,
            r.process@ == pname@,
            r.pid == pid,
            r.debug == 0,
    {
        Self {
            enabled: true,
            level,
            domain_filter: None,
            message_filter: None,
            facility: SyslogFacility::User,
            hostname,
            process: pname.to_string(),
            pid,
            debug: 0,
        }
    }

    pub fn duplicate(&self) -> (r: Self)
        ensures
            r == *self,
    {
        Self {
            enabled: self.enabled,
            level: self.level,
            domain_filter: crate::def::clone_opt_string(&self.domain_filter),
            message_filter: crate::def::clone_opt_string(&self.message_filter),
            facility: self.facility,
            hostname: crate::def::clone_opt_string(&self.hostname),
            process: self.process.clone(),
            pid: self.pid,
            debug: self.debug,
        }
    }

    /// Sets the domain filter after checking that it is a valid regular
    /// expression; on refusal nothing changes.
    pub fn set_domain_filter(&mut self, domain_filter: Option<String>) -> (r: Result<
        (),
        regex::Error,
    >)
        ensures
            r is Ok <==> filter_valid(domain_filter),
            r is Ok ==> *final(self) == (Self { domain_filter, ..*old(self) }),
            r is Err ==> *final(self) == *old(self),
    {
        match check_filter(&domain_filter) {
            Ok(()) => {
                self.domain_filter = domain_filter;
                Ok(())
            },
            Err(e) => Err(e),
        }
    }

    /// Sets the message filter after checking that it is a valid regular
    /// expression; on refusal nothing changes.
    pub fn set_message_filter(&mut self, message_filter: Option<String>) -> (r: Result<
        (),
        regex::Error,
    >)
        ensures
            r is Ok <==> filter_valid(message_filter),
            r is Ok ==> *final(self) == (Self { message_filter, ..*old(self) }),
            r is Err ==> *final(self) == *old(self),
    {
        match check_filter(&message_filter) {
            Ok(()) => {
                self.message_filter = message_filter;
                Ok(())
            },
            Err(e) => Err(e),
        }
    }
}

/// Syslog severities that messages are sent with.
#[derive(Debug, Clone, Copy, PartialEq, Eq, Structural)]
pub enum SyslogSeverity {
    Debug,
    Info,
    Notice,
    Warning,
    Error,
    Crit,
    Alert,
}

pub open spec fn syslog_severity_spec(level: u8) -> Option<SyslogSeverity> {
    if level == DEBUG {
        Some(SyslogSeverity::Debug)
    } else if level == INFO {
        Some(SyslogSeverity::Info)
    } else if level == SUCCESS {
        Some(SyslogSeverity::Notice)
    } else if level == WARNING {
        Some(SyslogSeverity::Warning)
    } else if level == ERROR {
        Some(SyslogSeverity::Error)
    } else if level == CRITICAL {
        Some(SyslogSeverity::Crit)
    } else if level == EXCEPTION {
        Some(SyslogSeverity::Alert)
    } else {
        None
    }
}

/// The severity a message of `level` is sent to syslog with; messages of
/// other levels are not sent.
pub fn syslog_severity(level: u8) -> (r: Option<SyslogSeverity>)
    ensures
        r == syslog_severity_spec(level),
{
    if level == DEBUG {
        Some(SyslogSeverity::Debug)
    } else if level == INFO {
        Some(SyslogSeverity::Info)
    } else if level == SUCCESS {
        Some(SyslogSeverity::Notice)
    } else if level == WARNING {
        Some(SyslogSeverity::Warning)
    } else if level == ERROR {
        Some(SyslogSeverity::Error)
    } else if level == CRITICAL {
        Some(SyslogSeverity::Crit)
    } else if level == EXCEPTION {
        Some(SyslogSeverity::Alert)
    } else {
        None
    }
}

} // verus!
