//! The logging front: loggers that send messages of their own domain, and
//! the interface of a logging instance, which sends its own messages and
//! manages its writers.

use vstd::prelude::*;

use crate::config::{ConfigFile, ExtConfig, FileMerge};
use crate::def::{
    level_str_spec, level2str, LevelSyms, LoggingTypeEnum, WriterConfigEnum, WriterTypeEnum,
    CRITICAL, DEBUG, ERROR, EXCEPTION, FATAL, INFO, SUCCESS, TRACE, WARNING,
};
use crate::encryption::{EncryptionMethod, KeyModel};
use crate::error::LoggingError;
use crate::instance::{config_accepted, holds_stored, listed, net_key_error_text, LoggingInstance};
use crate::net::address_with_port;
use crate::queries::server_of;
use crate::text::{push_str, str_eq};

verus! {

#[verifier::external_type_specification]
#[verifier::external_body]
#[verifier::reject_recursive_types(T)]
pub struct ExSender<T>(flume::Sender<T>);

/// Sends an event into the logging channel with `flume::Sender::send`,
/// which fails only when every receiving end is gone; whether it was sent
/// is not stated.
#[verifier::external_body]
fn send_event(tx: &flume::Sender<LoggingTypeEnum>, event: LoggingTypeEnum) -> (sent: bool) {
    tx.send(event).is_ok()
}

/// Another handle on the same channel, from `flume::Sender::clone`.
#[verifier::external_body]
fn share_sender(tx: &flume::Sender<LoggingTypeEnum>) -> (r: flume::Sender<LoggingTypeEnum>) {
    tx.clone()
}

/// The id of the calling thread, from `thread_id::get`, cut to 32 bits.
#[verifier::external_body]
fn current_thread_id() -> (r: u32) {
    thread_id::get() as u32
}

/// Whether `ev` is the event for a message of `level` in `domain` with
/// text `text`. With thread settings it carries the thread name (when
/// `tname`, else an empty name) and the thread id (when `tid`, else 0).
pub open spec fn message_event(
    level: u8,
    domain: Seq<char>,
    text: Seq<char>,
    tname: bool,
    tid: bool,
    thread_name: Seq<char>,
    thread_id: u32,
    ev: LoggingTypeEnum,
) -> bool {
    if tname || tid {
        ev matches LoggingTypeEnum::MessageExt((l, d, m, i, n)) && l == level && d@ == domain && m@
            == text && i == (if tid {
            thread_id
        } else {
            0
        }) && n@ == (if tname {
            thread_name
        } else {
            Seq::empty()
        })
    } else {
        ev matches LoggingTypeEnum::Message((l, d, m)) && l == level && d@ == domain && m@ == text
    }
}

fn build_event(
    level: u8,
    domain: &String,
    text: String,
    tname: bool,
    tid: bool,
    thread_name: &str,
    thread_id: u32,
) -> (ev: LoggingTypeEnum)
    ensures
        message_event(level, domain@, text@, tname, tid, thread_name@, thread_id, ev),
{
    if tname || tid {
        let n = if tname {
            thread_name.to_string()
        } else {
            String::new()
        };
        let i = if tid {
            thread_id
        } else {
            0
        };
        LoggingTypeEnum::MessageExt((level, domain.clone(), text, i, n))
    } else {
        LoggingTypeEnum::Message((level, domain.clone(), text))
    }
}

/// The text of the error of a logger that is not added to an instance.
pub open spec fn unregistered_text() -> Seq<char> {
    "Logger not registered at Logging instance. Call add_logger first."@
}

/// A logger of one domain. Its messages carry the domain in front of their
/// text; it sends them once it is added to a logging instance.
pub struct Logger {
    pub level: u8,
    pub domain: String,
    pub tname: bool,
    pub tid: bool,
    pub tx: Option<flume::Sender<LoggingTypeEnum>>,
    /// The events this logger has handed to its channel and the channel
    /// took, in order.
    pub sent: Ghost<Seq<LoggingTypeEnum>>,
}

/// What a logger's message call gives: the error of an unregistered
/// logger, or, once sent or refused by the channel, success or the send
/// error.
pub open spec fn logger_outcome(lg: Logger, r: Result<(), LoggingError>) -> bool {
    if !lg.registered() {
        r matches Err(LoggingError::ConfigError(m)) && m@ == unregistered_text()
    } else {
        r is Ok || (r matches Err(LoggingError::SendError(m)) && m@
            == "Failed to send message: sending on a closed channel"@)
    }
}

/// Whether logger `b` is `a` after a message call of `level` with
/// `message` from the thread `thread_name` that gave `r`: only the record of
/// sent events changes, by exactly the event of the message (its text is
/// the domain, `: ` and the message) when the call succeeded.
pub open spec fn logger_sent(
    a: Logger,
    b: Logger,
    level: u8,
    message: Seq<char>,
    thread_name: Seq<char>,
    r: Result<(), LoggingError>,
) -> bool {
    &&& b == (Logger { sent: b.sent, ..a })
    &&& logger_outcome(a, r)
    &&& r is Ok ==> {
        &&& b.sent@.len() == a.sent@.len() + 1
        &&& b.sent@.drop_last() == a.sent@
        &&& exists|id: u32| #[trigger]
            message_event(level, a.domain@, a.domain@ + ": "@ + message, a.tname, a.tid, thread_name, id, b.sent@.last())
    }
    &&& r is Err ==> b.sent@ == a.sent@
}

impl Logger {
    /// Whether the logger is added to a logging instance.
    pub open spec fn registered(self) -> bool {
        self.tx is Some
    }

    pub fn new(level: u8, domain: String) -> (r: Self)
        ensures
            r.level == level,
            r.domain == domain,
            !r.tname,
            !r.tid,
            !r.registered(),
            r.sent@.len() == 0,
    {
        Logger { level, domain, tname: false, tid: false, tx: None, sent: Ghost(Seq::empty()) }
    }

    pub fn new_ext(level: u8, domain: String, tname: bool, tid: bool) -> (r: Self)
        ensures
            r.level == level,
            r.domain == domain,
            r.tname == tname,
            r.tid == tid,
            !r.registered(),
            r.sent@.len() == 0,
    {
        Logger { level, domain, tname, tid, tx: None, sent: Ghost(Seq::empty()) }
    }

    /// Connects the logger to a logging channel, or disconnects it.
    pub fn set_tx(&mut self, tx: Option<flume::Sender<LoggingTypeEnum>>)
        ensures
            final(self).registered() == tx is Some,
            final(self).level == old(self).level,
            final(self).domain == old(self).domain,
            final(self).tname == old(self).tname,
            final(self).tid == old(self).tid,
    {
        self.tx = tx;
    }

    pub fn set_level(&mut self, level: u8)
        ensures
            final(self).level == level,
            final(self).domain == old(self).domain,
            final(self).tname == old(self).tname,
            final(self).tid == old(self).tid,
            final(self).registered() == old(self).registered(),
    {
        self.level = level;
    }

    pub fn level(&self) -> (r: u8)
        ensures
            r == self.level,
    {
        self.level
    }

    pub fn set_domain(&mut self, domain: String)
        ensures
            final(self).domain == domain,
            final(self).level == old(self).level,
            final(self).tname == old(self).tname,
            final(self).tid == old(self).tid,
            final(self).registered() == old(self).registered(),
    {
        self.domain = domain;
    }

    /// `Logger(level=<level> domain=<domain>)`.
    pub fn __repr__(&self) -> (r: String)
        ensures
            r@ == "Logger(level="@ + crate::text::dec(self.level as nat) + " domain="@ + self.domain@
                + ")"@,
    {
        let mut r = "Logger(level=".to_string();
        crate::text::push_decimal(&mut r, self.level as u64);
        push_str(&mut r, " domain=");
        push_str(&mut r, self.domain.as_str());
        push_str(&mut r, ")");
        r
    }

    /// The same text as `__repr__`.
    pub fn __str__(&self) -> (r: String)
        ensures
            r@ == "Logger(level="@ + crate::text::dec(self.level as nat) + " domain="@ + self.domain@
                + ")"@,
    {
        self.__repr__()
    }

    /// The event this logger sends for `message` of `level`, from the
    /// thread `thread_name` with id `thread_id`: the text is
    /// `{domain}: {message}`.
    pub fn event(&self, level: u8, message: &str, thread_name: &str, thread_id: u32) -> (ev:
        LoggingTypeEnum)
        ensures
            message_event(
                level,
                self.domain@,
                self.domain@ + ": "@ + message@,
                self.tname,
                self.tid,
                thread_name@,
                thread_id,
                ev,
            ),
    {
        let mut text = self.domain.clone();
        push_str(&mut text, ": ");
        push_str(&mut text, message);
        build_event(level, &self.domain, text, self.tname, self.tid, thread_name, thread_id)
    }

    /// Sends `message` of `level` from the thread named `thread_name`.
    pub fn log(&mut self, level: u8, message: &str, thread_name: &str) -> (r: Result<(), LoggingError>)
        ensures
            logger_sent(*old(self), *final(self), level, message@, thread_name@, r),
    {
        match &self.tx {
            None => Err(
                LoggingError::ConfigError(
                    "Logger not registered at Logging instance. Call add_logger first.".to_string(),
                ),
            ),
            Some(tx) => {
                let id = if self.tid {
                    current_thread_id()
                } else {
                    0
                };
                let ev = self.event(level, message, thread_name, id);
                let ghost gev = ev;
                if send_event(tx, ev) {
                    self.sent = Ghost(self.sent@.push(gev));
                    assert(message_event(
                        level,
                        self.domain@,
                        self.domain@ + ": "@ + message@,
                        self.tname,
                        self.tid,
                        thread_name@,
                        id,
                        self.sent@.last(),
                    ));
                    assert(self.sent@.drop_last() =~= old(self).sent@);
                    Ok(())
                } else {
                    Err(
                        LoggingError::SendError(
                            "Failed to send message: sending on a closed channel".to_string(),
                        ),
                    )
                }
            },
        }
    }

    /// Sends a message of level `TRACE`, when the logger's level lets it pass.
    pub fn trace(&mut self, message: &str, thread_name: &str) -> (r: Result<(), LoggingError>)
        ensures
            old(self).level > TRACE ==> r is Ok && *final(self) == *old(self),
            old(self).level <= TRACE ==> logger_sent(*old(self), *final(self), TRACE, message@, thread_name@, r),
    {
        if self.level <= TRACE {
            self.log(TRACE, message, thread_name)
        } else {
            Ok(())
        }
    }

    /// Sends a message of level `DEBUG`, when the logger's level lets it pass.
    pub fn debug(&mut self, message: &str, thread_name: &str) -> (r: Result<(), LoggingError>)
        ensures
            old(self).level > DEBUG ==> r is Ok && *final(self) == *old(self),
            old(self).level <= DEBUG ==> logger_sent(*old(self), *final(self), DEBUG, message@, thread_name@, r),
    {
        if self.level <= DEBUG {
            self.log(DEBUG, message, thread_name)
        } else {
            Ok(())
        }
    }

    /// Sends a message of level `INFO`, when the logger's level lets it pass.
    pub fn info(&mut self, message: &str, thread_name: &str) -> (r: Result<(), LoggingError>)
        ensures
            old(self).level > INFO ==> r is Ok && *final(self) == *old(self),
            old(self).level <= INFO ==> logger_sent(*old(self), *final(self), INFO, message@, thread_name@, r),
    {
        if self.level <= INFO {
            self.log(INFO, message, thread_name)
        } else {
            Ok(())
        }
    }

    /// Sends a message of level `SUCCESS`, when the logger's level lets it pass.
    pub fn success(&mut self, message: &str, thread_name: &str) -> (r: Result<(), LoggingError>)
        ensures
            old(self).level > SUCCESS ==> r is Ok && *final(self) == *old(self),
            old(self).level <= SUCCESS ==> logger_sent(*old(self), *final(self), SUCCESS, message@, thread_name@, r),
    {
        if self.level <= SUCCESS {
            self.log(SUCCESS, message, thread_name)
        } else {
            Ok(())
        }
    }

    /// Sends a message of level `WARNING`, when the logger's level lets it pass.
    pub fn warning(&mut self, message: &str, thread_name: &str) -> (r: Result<(), LoggingError>)
        ensures
            old(self).level > WARNING ==> r is Ok && *final(self) == *old(self),
            old(self).level <= WARNING ==> logger_sent(*old(self), *final(self), WARNING, message@, thread_name@, r),
    {
        if self.level <= WARNING {
            self.log(WARNING, message, thread_name)
        } else {
            Ok(())
        }
    }

    /// Sends a message of level `ERROR`, when the logger's level lets it pass.
    pub fn error(&mut self, message: &str, thread_name: &str) -> (r: Result<(), LoggingError>)
        ensures
            old(self).level > ERROR ==> r is Ok && *final(self) == *old(self),
            old(self).level <= ERROR ==> logger_sent(*old(self), *final(self), ERROR, message@, thread_name@, r),
    {
        if self.level <= ERROR {
            self.log(ERROR, message, thread_name)
        } else {
            Ok(())
        }
    }

    /// Sends a message of level `CRITICAL`, when the logger's level lets it pass.
    pub fn critical(&mut self, message: &str, thread_name: &str) -> (r: Result<(), LoggingError>)
        ensures
            old(self).level > CRITICAL ==> r is Ok && *final(self) == *old(self),
            old(self).level <= CRITICAL ==> logger_sent(*old(self), *final(self), CRITICAL, message@, thread_name@, r),
    {
        if self.level <= CRITICAL {
            self.log(CRITICAL, message, thread_name)
        } else {
            Ok(())
        }
    }

    /// Sends a message of level `FATAL`, when the logger's level lets it pass.
    pub fn fatal(&mut self, message: &str, thread_name: &str) -> (r: Result<(), LoggingError>)
        ensures
            old(self).level > FATAL ==> r is Ok && *final(self) == *old(self),
            old(self).level <= FATAL ==> logger_sent(*old(self), *final(self), FATAL, message@, thread_name@, r),
    {
        if self.level <= FATAL {
            self.log(FATAL, message, thread_name)
        } else {
            Ok(())
        }
    }

    /// Sends a message of level `EXCEPTION`, when the logger's level lets it pass.
    pub fn exception(&mut self, message: &str, thread_name: &str) -> (r: Result<(), LoggingError>)
        ensures
            old(self).level > EXCEPTION ==> r is Ok && *final(self) == *old(self),
            old(self).level <= EXCEPTION ==> logger_sent(*old(self), *final(self), EXCEPTION, message@, thread_name@, r),
    {
        if self.level <= EXCEPTION {
            self.log(EXCEPTION, message, thread_name)
        } else {
            Ok(())
        }
    }
}

/// What an instance's message call gives once the event was sent or
/// refused by the channel: success, or the send error naming the level.
pub open spec fn logging_outcome(level: u8, r: Result<(), LoggingError>) -> bool {
    r is Ok || (r matches Err(LoggingError::SendError(m)) && m@ == "Failed to send "@
        + level_str_spec(level) + " message: SendError(..)"@)
}

/// Whether interface `b` is `a` after a message call of `level` with
/// `message` from the thread `thread_name` that gave `r`: only the record of
/// sent events changes, by exactly the event of the message in the
/// interface's domain when the call succeeded.
pub open spec fn logging_sent(
    a: Logging,
    b: Logging,
    level: u8,
    message: Seq<char>,
    thread_name: Seq<char>,
    r: Result<(), LoggingError>,
) -> bool {
    &&& b == (Logging { sent: b.sent, ..a })
    &&& logging_outcome(level, r)
    &&& r is Ok ==> {
        &&& b.sent@.len() == a.sent@.len() + 1
        &&& b.sent@.drop_last() == a.sent@
        &&& exists|id: u32| #[trigger]
            message_event(level, a.domain@, message, a.tname, a.tid, thread_name, id, b.sent@.last())
    }
    &&& r is Err ==> b.sent@ == a.sent@
}

/// The interface of a logging instance: its level and domain for its own
/// messages, the instance state with its writers, and the channel to the
/// logging thread.
pub struct Logging {
    pub level: u8,
    pub domain: String,
    pub instance: LoggingInstance,
    pub drop: bool,
    pub config_file: ConfigFile,
    pub tname: bool,
    pub tid: bool,
    /// The domains of the loggers added to this instance, each once.
    pub loggers: Vec<String>,
    pub server_tx: flume::Sender<LoggingTypeEnum>,
    /// The events this interface has handed to the logging channel and the
    /// channel took, in order.
    pub sent: Ghost<Seq<LoggingTypeEnum>>,
}

/// Whether `inst` has the settings of a new logging instance with `level`
/// and `domain` to which the writer configurations `c` were added: those of
/// the last root configuration among them, else `level`, `domain` and the
/// defaults.
pub open spec fn new_settings(level: u8, domain: String, c: Seq<WriterConfigEnum>, inst: LoggingInstance) -> bool {
    match crate::instance::last_root(c) {
        None => {
            &&& inst.level == level
            &&& inst.domain == domain
            &&& inst.hostname is None
            &&& inst.pname@.len() == 0
            &&& inst.pid == 0
            &&& !inst.tname
            &&& !inst.tid
            &&& inst.structured == crate::def::MessageStructEnum::String
            &&& inst.level2sym == LevelSyms::Sym
        },
        Some(rc) => {
            &&& inst.level == rc.level
            &&& inst.domain == rc.domain
            &&& inst.hostname == rc.hostname
            &&& inst.pname == rc.pname
            &&& inst.pid == rc.pid
            &&& inst.tname == rc.tname
            &&& inst.tid == rc.tid
            &&& inst.structured == rc.structured
            &&& inst.level2sym == rc.level2sym
        },
    }
}

/// Whether no domain occurs twice.
pub open spec fn distinct_domains(s: Seq<String>) -> bool {
    forall|i: int, j: int| 0 <= i < j < s.len() ==> s[i]@ != s[j]@
}

/// The domains in `s`.
pub open spec fn has_domain(s: Seq<String>, d: Seq<char>) -> bool {
    exists|i: int| 0 <= i < s.len() && #[trigger] s[i]@ == d
}

fn domain_position(loggers: &Vec<String>, d: &str) -> (r: Option<usize>)
    ensures
        r matches Some(i) ==> i < loggers@.len() && loggers@[i as int]@ == d@,
        r is None ==> forall|j: int| 0 <= j < loggers@.len() ==> loggers@[j]@ != d@,
{
    let mut i: usize = 0;
    while i < loggers.len()
        invariant
            i <= loggers@.len(),
            forall|j: int| 0 <= j < i ==> loggers@[j]@ != d@,
        decreases loggers@.len() - i,
    {
        if str_eq(loggers[i].as_str(), d) {
            return Some(i);
        }
        i = i + 1;
    }
    None
}


/// Whether two interfaces agree in all but their instance.
pub open spec fn same_front(a: Logging, b: Logging) -> bool {
    &&& a.level == b.level
    &&& a.domain == b.domain
    &&& a.drop == b.drop
    &&& a.tname == b.tname
    &&& a.tid == b.tid
    &&& a.loggers == b.loggers
    &&& a.config_file == b.config_file
    &&& a.server_tx == b.server_tx
    &&& a.sent == b.sent
}

/// Adding writer `config` to `a` gave `b` and `r`: its writer under the
/// next id, or, for a network writer with a refused AES key, the error and
/// no change. A root configuration also takes over its settings.
pub open spec fn added(a: LoggingInstance, b: LoggingInstance, config: WriterConfigEnum, r: Result<usize, LoggingError>) -> bool {
    &&& b.wf()
    &&& r is Ok <==> config_accepted(config)
    &&& r matches Err(e) ==> e is InvalidEncryption && b == a
    &&& r matches Ok(wid) ==> {
        &&& wid == a.next_wid()
        &&& b.next_wid() == wid + 1
        &&& holds_stored(b.writer(wid), config, a.auth_key())
        &&& forall|w: usize| w != wid ==> #[trigger] b.writer(w) == a.writer(w)
        &&& match config {
            WriterConfigEnum::Root(rc) => b.level == rc.level && b.domain == rc.domain && b.hostname
                == rc.hostname && b.pname == rc.pname && b.pid == rc.pid && b.tname == rc.tname
                && b.tid == rc.tid && b.structured == rc.structured && b.level2sym == rc.level2sym
                && b.debug == a.debug && b.auth_key() == a.auth_key(),
            _ => b.same_settings(a),
        }
    }
}

/// Switching writer `wid` of `a` on or off gave `b` and `r`.
pub open spec fn switched(a: LoggingInstance, b: LoggingInstance, wid: usize, enabled: bool, r: Result<(), LoggingError>) -> bool {
    &&& b.wf()
    &&& b.next_wid() == a.next_wid()
    &&& b.same_settings(a)
    &&& a.writer(wid) is None ==> (r matches Err(LoggingError::InvalidValue(m)) && m@
        == crate::instance::missing_writer_text(wid)) && b == a
    &&& a.writer(wid) matches Some(c) ==> r is Ok && forall|w: usize| #[trigger]
        b.writer(w) == if w == wid {
            Some(crate::instance::with_enabled(c, enabled))
        } else {
            a.writer(w)
        }
}

/// Switching all writers of kind `typ` of `a` on or off gave `b` and `r`.
pub open spec fn type_switched(a: LoggingInstance, b: LoggingInstance, typ: WriterTypeEnum, enabled: bool, r: Result<(), LoggingError>) -> bool {
    &&& b.wf()
    &&& b.next_wid() == a.next_wid()
    &&& b.same_settings(a)
    &&& (forall|w: usize| !(#[trigger] a.writer(w) matches Some(c) && crate::instance::type_matches(typ, c)))
        ==> (r matches Err(e) && e is InvalidValue) && b == a
    &&& (exists|w: usize| #[trigger] a.writer(w) matches Some(c) && crate::instance::type_matches(typ, c))
        ==> r is Ok && forall|w: usize| #[trigger]
        b.writer(w) == match a.writer(w) {
            Some(c) => if crate::instance::type_matches(typ, c) {
                Some(crate::instance::with_enabled(c, enabled))
            } else {
                Some(c)
            },
            None => None,
        }
}

/// Setting the root writer of `a` to `config` gave `b` and `r`: only a
/// client or server is taken, under id 0.
pub open spec fn root_writer_set(a: LoggingInstance, b: LoggingInstance, config: WriterConfigEnum, r: Result<(), LoggingError>) -> bool {
    &&& b.wf()
    &&& b.next_wid() == a.next_wid()
    &&& b.same_settings(a)
    &&& !(config is Client || config is Server) ==> (r matches Err(LoggingError::InvalidValue(m))
        && m@ == crate::instance::root_writer_kind_text()) && b == a
    &&& (config is Client || config is Server) && !config_accepted(config) ==> (r matches Err(e)
        && e is InvalidEncryption) && b == a
    &&& (config is Client || config is Server) && config_accepted(config) ==> r is Ok
        && holds_stored(b.writer(0), config, a.auth_key()) && forall|w: usize|
        w != 0 ==> #[trigger] b.writer(w) == a.writer(w)
}

/// Setting the key of writer `wid` of `a` gave `b` and `r`.
pub open spec fn encryption_set(a: LoggingInstance, b: LoggingInstance, wid: usize, key: EncryptionMethod, r: Result<(), LoggingError>) -> bool {
    &&& b.wf()
    &&& b.next_wid() == a.next_wid()
    &&& b.same_settings(a)
    &&& a.writer(wid) is None ==> (r matches Err(LoggingError::InvalidValue(m)) && m@
        == crate::instance::missing_writer_text(wid)) && b == a
    &&& a.writer(wid) matches Some(c) ==> (!(c is Client || c is Server) ==> (r matches Err(e)
        && e is InvalidValue) && b == a)
    &&& a.writer(wid) matches Some(c) ==> ((c is Client || c is Server) ==> {
        &&& r is Ok <==> crate::net::key_accepted(key)
        &&& r matches Err(e) ==> (e matches LoggingError::InvalidEncryption(w, k, m) && m@ == net_key_error_text(key) && k@ == key@
            && w@ == if c is Client {
            "ClientWriter"@
        } else {
            "LoggingServer"@
        })
        &&& forall|w: usize| w != wid ==> #[trigger] b.writer(w) == a.writer(w)
        &&& b.writer(wid) matches Some(n) && match (c, n) {
            (WriterConfigEnum::Client(x), WriterConfigEnum::Client(y)) => crate::net::ClientWriterConfig {
                key: x.key,
                ..y
            } == x && (if crate::net::key_accepted(key) {
                crate::net::resolves_to(key, a.auth_key(), y.key)
            } else {
                y.key@ == key@
            }),
            (WriterConfigEnum::Server(x), WriterConfigEnum::Server(y)) => crate::net::ServerConfig {
                key: x.key,
                ..y
            } == x && (if crate::net::key_accepted(key) {
                crate::net::resolves_to(key, a.auth_key(), y.key)
            } else {
                y.key@ == key@
            }),
            _ => false,
        }
    })
}

/// Removing writer `wid` of `a` gave `b` and `r`.
pub open spec fn removed(a: LoggingInstance, b: LoggingInstance, wid: usize, r: Option<WriterConfigEnum>) -> bool {
    &&& b.wf()
    &&& r == a.writer(wid)
    &&& b.writer(wid) is None
    &&& forall|w: usize| w != wid ==> #[trigger] b.writer(w) == a.writer(w)
    &&& b.next_wid() == a.next_wid()
    &&& b.same_settings(a)
}

/// Removing the writers `wids` (all writers for none) of `a` gave `b`.
pub open spec fn removed_all(a: LoggingInstance, b: LoggingInstance, wids: Option<Vec<usize>>) -> bool {
    &&& b.wf()
    &&& b.next_wid() == a.next_wid()
    &&& b.same_settings(a)
    &&& match wids {
        None => forall|w: usize| #[trigger] b.writer(w) is None,
        Some(ws) => forall|w: usize| #[trigger]
            b.writer(w) == if ws@.contains(w) {
                None
            } else {
                a.writer(w)
            },
    }
}

impl Logging {
    pub open spec fn wf(self) -> bool {
        &&& self.instance.wf()
        &&& distinct_domains(self.loggers@)
    }

    /// A logging interface over a new instance with `level` and `domain`,
    /// the writers `configs` added in order, and messages sent into
    /// `server_tx`. The interface takes its level, domain and thread
    /// settings from the instance, which a root configuration among the
    /// writers may have set.
    pub fn new(
        level: u8,
        domain: String,
        configs: Option<Vec<WriterConfigEnum>>,
        server_tx: flume::Sender<LoggingTypeEnum>,
        auth_key: &[u8],
    ) -> (r: Result<Self, LoggingError>)
        requires
            configs matches Some(c) ==> c@.len() < usize::MAX - 1,
        ensures
            r is Ok <==> (configs matches Some(c) ==> forall|i: int|
                0 <= i < c@.len() ==> config_accepted(#[trigger] c@[i])),
            r matches Err(e) ==> e is InvalidEncryption,
            r matches Ok(l) ==> {
                &&& l.wf()
                &&& l.level == l.instance.level
                &&& l.domain == l.instance.domain
                &&& l.tname == l.instance.tname
                &&& l.tid == l.instance.tid
                &&& l.drop
                &&& l.loggers@.len() == 0
                &&& l.server_tx == server_tx
                &&& l.sent@.len() == 0
                &&& l.config_file.path@.len() == 0
                &&& l.config_file.config.configs@.len() == 0
                &&& l.instance.auth_key() == auth_key@
                &&& l.instance.debug == 0
                &&& match configs {
                    None => {
                        &&& l.instance.level == level
                        &&& l.instance.domain == domain
                        &&& l.instance.next_wid() == 1
                        &&& forall|w: usize| #[trigger] l.instance.writer(w) is None
                    },
                    Some(c) => {
                        &&& l.instance.next_wid() == 1 + c@.len()
                        &&& forall|w: usize| #[trigger] l.instance.writer(w) is Some <==> 1 <= w <= c@.len()
                        &&& new_settings(level, domain, c@, l.instance)
                        &&& forall|i: int|
                            0 <= i < c@.len() ==> holds_stored(
                                #[trigger] l.instance.writer((1 + i) as usize),
                                c@[i],
                                auth_key@,
                            )
                    },
                }
            },
    {
        let mut instance = LoggingInstance::new(level, domain, auth_key);
        match configs {
            Some(c) => {
                let ghost fresh = instance;
                let wids = instance.add_writer_configs(c.as_slice())?;
                proof {
                    assert forall|w: usize| #[trigger] instance.writer(w) is Some <==> 1 <= w <= c@.len() by {
                        if 1 <= w <= c@.len() {
                            assert(wids@[w - 1] == w);
                        }
                        if instance.writer(w) is Some && w >= 1 + c@.len() {
                            crate::instance::lemma_lookup_present(instance.writers@, w);
                        }
                        if w == 0 {
                            assert(fresh.writer(0) is None);
                        }
                    }
                    assert forall|i: int| 0 <= i < c@.len() implies holds_stored(
                        #[trigger] instance.writer((1 + i) as usize),
                        c@[i],
                        auth_key@,
                    ) by {
                        assert(wids@[i] == 1 + i);
                    }
                }
            },
            None => {},
        }
        Ok(
            Logging {
                level: instance.level,
                domain: instance.domain.clone(),
                tname: instance.tname,
                tid: instance.tid,
                instance,
                drop: true,
                config_file: ConfigFile::new(),
                loggers: Vec::new(),
                server_tx,
                sent: Ghost(Seq::empty()),
            },
        )
    }

    /// Sets the level of writer `wid`; for the root writer that is the
    /// level of the instance and of this interface.
    pub fn set_level(&mut self, wid: usize, level: u8) -> (r: Result<(), LoggingError>)
        requires
            old(self).wf(),
        ensures
            final(self).wf(),
            old(self).instance.writer(wid) is None ==> (r matches Err(LoggingError::InvalidValue(m))
                && m@ == crate::instance::missing_writer_text(wid)) && final(self).instance
                == old(self).instance && final(self).level == old(self).level,
            old(self).instance.writer(wid) matches Some(c) ==> r is Ok && if c is Root {
                final(self).level == level && final(self).instance.level == level
                    && final(self).instance.same_writers(old(self).instance)
            } else {
                final(self).level == old(self).level && final(self).instance.same_settings(
                    old(self).instance,
                ) && forall|w: usize| #[trigger]
                    final(self).instance.writer(w) == if w == wid {
                        Some(crate::instance::with_level(c, level))
                    } else {
                        old(self).instance.writer(w)
                    }
            },
            final(self).domain == old(self).domain,
            final(self).loggers == old(self).loggers,
    {
        let is_root = match self.instance.get_entry(wid) {
            Some(WriterConfigEnum::Root(_)) => true,
            _ => false,
        };
        let r = self.instance.set_level(wid, level);
        if is_root {
            self.level = level;
        }
        r
    }

    /// Sets the domain of the instance's messages.
    pub fn set_domain(&mut self, domain: &str)
        requires
            old(self).wf(),
        ensures
            final(self).wf(),
            final(self).instance.domain@ == domain@,
            final(self).instance.same_writers(old(self).instance),
            final(self).instance.level == old(self).instance.level,
            final(self).level == old(self).level,
            final(self).domain == old(self).domain,
    {
        self.instance.domain = domain.to_string();
    }

    /// Sets how levels are named in messages.
    pub fn set_level2sym(&mut self, level2sym: &LevelSyms)
        requires
            old(self).wf(),
        ensures
            final(self).wf(),
            final(self).instance.level2sym == *level2sym,
            final(self).instance.same_writers(old(self).instance),
            final(self).instance.domain == old(self).instance.domain,
            final(self).level == old(self).level,
    {
        self.instance.level2sym = *level2sym;
    }

    /// Takes the extended settings; the interface follows the instance's
    /// thread settings.
    pub fn set_ext_config(&mut self, ext_config: &ExtConfig, pname: String, pid: u32)
        requires
            old(self).wf(),
        ensures
            final(self).wf(),
            final(self).instance.structured == ext_config.structured,
            final(self).tname == ext_config.tname,
            final(self).tid == ext_config.tid,
            final(self).instance.tname == ext_config.tname,
            final(self).instance.tid == ext_config.tid,
            !ext_config.hostname ==> final(self).instance.hostname is None,
            final(self).instance.pid == if ext_config.pid {
                pid
            } else {
                0
            },
            final(self).instance.same_writers(old(self).instance),
            final(self).level == old(self).level,
    {
        self.instance.set_ext_config(ext_config, pname, pid);
        self.tname = self.instance.tname;
        self.tid = self.instance.tid;
    }

    /// Connects `logger` to this instance and notes its domain.
    pub fn add_logger(&mut self, logger: &mut Logger)
        requires
            old(self).wf(),
        ensures
            final(self).wf(),
            final(logger).registered(),
            final(logger).domain == old(logger).domain,
            final(logger).level == old(logger).level,
            has_domain(final(self).loggers@, old(logger).domain@),
            forall|d: Seq<char>| #[trigger] has_domain(old(self).loggers@, d) ==> has_domain(final(self).loggers@, d),
            forall|d: Seq<char>| #[trigger] has_domain(final(self).loggers@, d) ==> has_domain(old(self).loggers@, d) || d == old(logger).domain@,
            final(self).instance == old(self).instance,
    {
        logger.set_tx(Some(share_sender(&self.server_tx)));
        match domain_position(&self.loggers, logger.domain.as_str()) {
            Some(i) => {
                assert(self.loggers@[i as int]@ == logger.domain@);
            },
            None => {
                let ghost before = self.loggers@;
                self.loggers.push(logger.domain.clone());
                proof {
                    assert(self.loggers@[before.len() as int]@ == logger.domain@);
                    assert forall|d: Seq<char>| #[trigger] has_domain(before, d) implies has_domain(self.loggers@, d) by {
                        let j = choose|j: int| 0 <= j < before.len() && #[trigger] before[j]@ == d;
                        assert(self.loggers@[j]@ == d);
                    }
                    assert forall|d: Seq<char>| #[trigger] has_domain(self.loggers@, d) implies has_domain(before, d) || d == logger.domain@ by {
                        let j = choose|j: int| 0 <= j < self.loggers@.len() && #[trigger] self.loggers@[j]@ == d;
                        if j < before.len() {
                            assert(before[j]@ == d);
                        }
                    }
                    assert(distinct_domains(self.loggers@)) by {
                        assert forall|x: int, y: int| 0 <= x < y < self.loggers@.len() implies self.loggers@[x]@ != self.loggers@[y]@ by {
                            if y < before.len() {
                                assert(before[x] == self.loggers@[x]);
                                assert(before[y] == self.loggers@[y]);
                            } else {
                                assert(before[x] == self.loggers@[x]);
                            }
                        }
                    }
                }
            },
        }
    }

    /// Disconnects `logger` and forgets its domain.
    pub fn remove_logger(&mut self, logger: &mut Logger)
        requires
            old(self).wf(),
        ensures
            final(self).wf(),
            !final(logger).registered(),
            final(logger).domain == old(logger).domain,
            !has_domain(final(self).loggers@, old(logger).domain@),
            forall|d: Seq<char>| d != old(logger).domain@ ==> (#[trigger] has_domain(final(self).loggers@, d) <==> has_domain(old(self).loggers@, d)),
            final(self).instance == old(self).instance,
    {
        logger.set_tx(None);
        let ghost before = self.loggers@;
        match domain_position(&self.loggers, logger.domain.as_str()) {
            Some(i) => {
                self.loggers.remove(i);
                proof {
                    let k = i as int;
                    assert(self.loggers@ =~= before.remove(k));
                    assert forall|d: Seq<char>| d != logger.domain@ implies (#[trigger] has_domain(self.loggers@, d) <==> has_domain(before, d)) by {
                        if has_domain(before, d) {
                            let j = choose|j: int| 0 <= j < before.len() && #[trigger] before[j]@ == d;
                            if j < k {
                                assert(self.loggers@[j]@ == d);
                            } else {
                                assert(j != k);
                                assert(self.loggers@[j - 1]@ == d);
                            }
                        }
                        if has_domain(self.loggers@, d) {
                            let j = choose|j: int| 0 <= j < self.loggers@.len() && #[trigger] self.loggers@[j]@ == d;
                            if j < k {
                                assert(before[j]@ == d);
                            } else {
                                assert(before[j + 1]@ == d);
                            }
                        }
                    }
                    assert(!has_domain(self.loggers@, logger.domain@)) by {
                        if has_domain(self.loggers@, logger.domain@) {
                            let j = choose|j: int| 0 <= j < self.loggers@.len() && #[trigger] self.loggers@[j]@ == logger.domain@;
                            if j < k {
                                assert(before[j]@ == logger.domain@);
                            } else {
                                assert(before[j + 1]@ == logger.domain@);
                            }
                        }
                    }
                    assert(distinct_domains(self.loggers@)) by {
                        assert forall|x: int, y: int| 0 <= x < y < self.loggers@.len() implies self.loggers@[x]@ != self.loggers@[y]@ by {
                            if y < k {
                            } else if x < k {
                                assert(self.loggers@[y] == before[y + 1]);
                            } else {
                                assert(self.loggers@[x] == before[x + 1]);
                                assert(self.loggers@[y] == before[y + 1]);
                            }
                        }
                    }
                }
            },
            None => {
                assert(!has_domain(self.loggers@, logger.domain@));
            },
        }
    }

    /// Adds writer `config` under the next id and returns the id.
    pub fn add_writer_config(&mut self, config: &WriterConfigEnum) -> (r: Result<usize, LoggingError>)
        requires
            old(self).wf(),
            old(self).instance.next_wid() < usize::MAX,
        ensures
            final(self).wf(),
            added(old(self).instance, final(self).instance, *config, r),
            same_front(*old(self), *final(self)),
    {
        self.instance.add_writer_config(config)
    }

    /// Adds writers one after the other under consecutive ids; on a refused
    /// one, the writers before it stay added.
    pub fn add_writer_configs(&mut self, configs: &[WriterConfigEnum]) -> (r: Result<
        Vec<usize>,
        LoggingError,
    >)
        requires
            old(self).wf(),
            old(self).instance.next_wid() + configs@.len() < usize::MAX,
        ensures
            final(self).wf(),
            same_front(*old(self), *final(self)),
            r matches Err(e) ==> e is InvalidEncryption,
            r is Ok <==> forall|i: int| 0 <= i < configs@.len() ==> config_accepted(
                #[trigger] configs@[i],
            ),
            r matches Ok(wids) ==> {
                &&& wids@.len() == configs@.len()
                &&& forall|i: int|
                    0 <= i < wids@.len() ==> #[trigger] wids@[i] == old(self).instance.next_wid() + i
                &&& forall|i: int|
                    0 <= i < wids@.len() ==> holds_stored(
                        #[trigger] final(self).instance.writer(wids@[i]),
                        configs@[i],
                        old(self).instance.auth_key(),
                    )
                &&& final(self).instance.next_wid() == old(self).instance.next_wid() + configs@.len()
                &&& forall|w: usize|
                    w < old(self).instance.next_wid() ==> #[trigger] final(self).instance.writer(w)
                        == old(self).instance.writer(w)
            },
    {
        self.instance.add_writer_configs(configs)
    }

    /// Removes writer `wid` and returns its configuration.
    pub fn remove_writer(&mut self, wid: usize) -> (r: Option<WriterConfigEnum>)
        requires
            old(self).wf(),
        ensures
            final(self).wf(),
            removed(old(self).instance, final(self).instance, wid, r),
            same_front(*old(self), *final(self)),
    {
        self.instance.remove_writer(wid)
    }

    /// Removes the writers `wids`, or all writers, and returns what was
    /// removed.
    pub fn remove_writers(&mut self, wids: Option<Vec<usize>>) -> (r: Vec<WriterConfigEnum>)
        requires
            old(self).wf(),
        ensures
            final(self).wf(),
            removed_all(old(self).instance, final(self).instance, wids),
            r@ == crate::instance::removed_configs(
                old(self).instance,
                crate::instance::removal_ids(old(self).instance, wids),
            ),
            same_front(*old(self), *final(self)),
    {
        self.instance.remove_writers(wids)
    }

    /// Switches writer `wid` on.
    pub fn enable(&mut self, wid: usize) -> (r: Result<(), LoggingError>)
        requires
            old(self).wf(),
        ensures
            final(self).wf(),
            switched(old(self).instance, final(self).instance, wid, true, r),
            same_front(*old(self), *final(self)),
    {
        self.instance.enable(wid)
    }

    /// Switches writer `wid` off.
    pub fn disable(&mut self, wid: usize) -> (r: Result<(), LoggingError>)
        requires
            old(self).wf(),
        ensures
            final(self).wf(),
            switched(old(self).instance, final(self).instance, wid, false, r),
            same_front(*old(self), *final(self)),
    {
        self.instance.disable(wid)
    }

    /// Switches all writers of kind `typ` on.
    pub fn enable_type(&mut self, typ: &WriterTypeEnum) -> (r: Result<(), LoggingError>)
        requires
            old(self).wf(),
        ensures
            final(self).wf(),
            type_switched(old(self).instance, final(self).instance, *typ, true, r),
            same_front(*old(self), *final(self)),
    {
        self.instance.enable_type(typ)
    }

    /// Switches all writers of kind `typ` off.
    pub fn disable_type(&mut self, typ: &WriterTypeEnum) -> (r: Result<(), LoggingError>)
        requires
            old(self).wf(),
        ensures
            final(self).wf(),
            type_switched(old(self).instance, final(self).instance, *typ, false, r),
            same_front(*old(self), *final(self)),
    {
        self.instance.disable_type(typ)
    }

    /// Sets the root writer, a client or a server.
    pub fn set_root_writer_config(&mut self, config: &WriterConfigEnum) -> (r: Result<(), LoggingError>)
        requires
            old(self).wf(),
        ensures
            final(self).wf(),
            root_writer_set(old(self).instance, final(self).instance, *config, r),
            same_front(*old(self), *final(self)),
    {
        self.instance.set_root_writer_config(config)
    }

    /// Sets the key of network writer `wid`.
    pub fn set_encryption(&mut self, wid: usize, key: EncryptionMethod) -> (r: Result<(), LoggingError>)
        requires
            old(self).wf(),
        ensures
            final(self).wf(),
            encryption_set(old(self).instance, final(self).instance, wid, key, r),
            same_front(*old(self), *final(self)),
    {
        self.instance.set_encryption(wid, key)
    }

    /// Sets the debug level of the instance.
    pub fn set_debug(&mut self, debug: u8)
        requires
            old(self).wf(),
        ensures
            final(self).wf(),
            final(self).instance.debug == debug,
            final(self).instance.writers == old(self).instance.writers,
            final(self).instance.wid == old(self).instance.wid,
            final(self).instance.level == old(self).instance.level,
            final(self).instance.domain == old(self).instance.domain,
            same_front(*old(self), *final(self)),
    {
        self.instance.debug = debug;
    }

    /// Sets the level of the instance and of this interface.
    pub fn set_root_level(&mut self, level: u8)
        requires
            old(self).wf(),
        ensures
            final(self).wf(),
            final(self).level == level,
            final(self).instance.level == level,
            final(self).instance.same_writers(old(self).instance),
            final(self).instance.domain == old(self).instance.domain,
            final(self).domain == old(self).domain,
            final(self).loggers == old(self).loggers,
    {
        self.instance.level = level;
        self.level = level;
    }

    /// The configuration of writer `wid`; the root writer is not listed.
    pub fn get_writer_config(&self, wid: usize) -> (r: Option<WriterConfigEnum>)
        requires
            self.wf(),
        ensures
            r is Some <==> listed(self.instance.writer(wid)),
            r matches Some(c) ==> c.same_as(self.instance.writer(wid)->0),
    {
        self.instance.get_writer_config(wid)
    }

    /// Merges the configuration file `file` into the instance, replacing
    /// writers of the kinds it names (nothing when it was never loaded, with
    /// an empty path, or its path names no file on disk), and keeps it as this interface's configuration file. The interface takes over the instance's level,
    /// domain and thread settings.
    pub fn load_config_file(&mut self, file: ConfigFile) -> (r: Result<(), LoggingError>)
        requires
            old(self).wf(),
            old(self).instance.next_wid() + file.config.configs@.len() < usize::MAX,
        ensures
            final(self).wf(),
            file.path@.len() == 0 ==> r is Ok && final(self).instance == old(self).instance,
            r is Ok ==> final(self).instance == old(self).instance || exists|states: Seq<LoggingInstance>| #[trigger] crate::merge::merge_run(
                old(self).instance,
                file.config,
                FileMerge::MergeReplace,
                states,
            ) && states.last() == final(self).instance,
            (forall|i: int| 0 <= i < file.config.configs@.len() ==> config_accepted(
                #[trigger] file.config.configs@[i],
            )) ==> r is Ok,
            r matches Err(e) ==> e is InvalidEncryption,
            r is Err ==> exists|states: Seq<LoggingInstance>, k: int| #[trigger] crate::merge::merge_run_failed(
                old(self).instance,
                file.config,
                FileMerge::MergeReplace,
                states,
                k,
                final(self).instance,
            ),
            r is Err ==> final(self).level == old(self).level && final(self).domain == old(self).domain
                && final(self).tname == old(self).tname && final(self).tid == old(self).tid
                && final(self).config_file == old(self).config_file,
            r is Ok ==> final(self).level == final(self).instance.level && final(self).domain
                == final(self).instance.domain && final(self).tname == final(self).instance.tname
                && final(self).tid == final(self).instance.tid && final(self).config_file == file,
            final(self).loggers == old(self).loggers,
    {
        file.merge(&mut self.instance, FileMerge::MergeReplace)?;
        self.level = self.instance.level;
        self.domain = self.instance.domain.clone();
        self.tname = self.instance.tname;
        self.tid = self.instance.tid;
        self.config_file = file;
        Ok(())
    }

    /// Applies the contents `f` of a configuration file: the instance takes
    /// its level and domain, a root entry sets them again, and every other
    /// entry adds its writer. A refused writer ends with its error.
    pub fn apply_file_config(&mut self, f: &crate::config::FileConfig) -> (r: Result<(), LoggingError>)
        requires
            old(self).wf(),
            old(self).instance.next_wid() + f.configs@.len() < usize::MAX,
        ensures
            final(self).wf(),
            same_front(*old(self), *final(self)),
            r matches Err(e) ==> e is InvalidEncryption,
            r is Ok <==> forall|i: int| 0 <= i < f.configs@.len() ==> config_accepted(
                #[trigger] f.configs@[i],
            ),
            r is Ok ==> {
                &&& final(self).instance.level == applied_level(*f)
                &&& final(self).instance.domain == applied_domain(*f)
                &&& forall|w: usize| w < old(self).instance.next_wid() ==> #[trigger] final(self).instance.writer(w)
                    == old(self).instance.writer(w)
                &&& forall|i: int| 0 <= i < f.configs@.len() && !(f.configs@[i] is Root) ==> holds_stored(
                    #[trigger] final(self).instance.writer(added_wid(old(self).instance.next_wid(), f.configs@, i)),
                    f.configs@[i],
                    old(self).instance.auth_key(),
                )
                &&& final(self).instance.next_wid() == added_wid(old(self).instance.next_wid(), f.configs@, f.configs@.len() as int)
            },
    {
        self.instance.level = f.level;
        self.instance.domain = f.domain.clone();
        apply_entries(&mut self.instance, f)
    }

    /// The key network writers without a key of their own authenticate
    /// with.
    pub fn get_server_auth_key(&self) -> (r: EncryptionMethod)
        ensures
            r@ == KeyModel::AuthKey(self.instance.auth_key()),
    {
        self.instance.get_auth_key()
    }

    /// The configuration of server writer `wid`, among the listed writers.
    pub fn get_server_config(&self, wid: usize) -> (r: Result<crate::net::ServerConfig, LoggingError>)
        requires
            self.wf(),
        ensures
            !listed(self.instance.writer(wid)) ==> (r matches Err(LoggingError::InvalidValue(m)) && m@
                == "Writer wid="@ + crate::text::dec(wid as nat) + " does not exist"@),
            listed(self.instance.writer(wid)) && crate::queries::server_of(self.instance.writer(wid)) is None
                ==> (r matches Err(LoggingError::InvalidValue(m)) && m@ == crate::queries::no_server_text(wid)),
            crate::queries::server_of(self.instance.writer(wid)) matches Some(x) ==> (r matches Ok(c)
                && c.same_as(x)),
    {
        match self.instance.get_writer_config(wid) {
            None => {
                let mut m = "Writer wid=".to_string();
                crate::text::push_decimal(&mut m, wid as u64);
                push_str(&mut m, " does not exist");
                Err(LoggingError::InvalidValue(m))
            },
            Some(WriterConfigEnum::Server(x)) => Ok(x),
            Some(_) => {
                let mut m = "Writer wid=".to_string();
                crate::text::push_decimal(&mut m, wid as u64);
                push_str(&mut m, " has invalid type");
                Err(LoggingError::InvalidValue(m))
            },
        }
    }

    /// The configurations of the listed writers, by id.
    pub fn get_writer_configs(&self) -> (r: std::collections::HashMap<usize, WriterConfigEnum>)
        requires
            self.wf(),
        ensures
            forall|w: usize| #[trigger] r@.contains_key(w) <==> listed(self.instance.writer(w)),
            forall|w: usize| #[trigger] r@.contains_key(w) ==> r@[w].same_as(self.instance.writer(w)->0),
    {
        self.instance.get_writer_configs()
    }

    /// The configurations of the server writers, by id.
    pub fn get_server_configs(&self) -> (r: std::collections::HashMap<usize, crate::net::ServerConfig>)
        requires
            self.wf(),
        ensures
            forall|w: usize| #[trigger] r@.contains_key(w) <==> server_of(self.instance.writer(w)) is Some,
            forall|w: usize| #[trigger] r@.contains_key(w) ==> r@[w].same_as(server_of(self.instance.writer(w))->0),
    {
        self.instance.get_server_configs()
    }

    /// The `address:port` text of the root writer, when it is a server.
    pub fn get_root_server_address_port(&self) -> (r: Option<String>)
        requires
            self.wf(),
        ensures
            server_of(self.instance.writer(0)) is None ==> r is None,
            server_of(self.instance.writer(0)) matches Some(x) ==> (r matches Some(a) && a@
                == address_with_port(x.address@, x.port)),
    {
        self.instance.get_root_server_address_port()
    }

    /// The `address:port` texts of the server writers, by id.
    pub fn get_server_addresses_ports(&self) -> (r: std::collections::HashMap<usize, String>)
        requires
            self.wf(),
        ensures
            forall|w: usize| #[trigger] r@.contains_key(w) <==> server_of(self.instance.writer(w)) is Some,
            forall|w: usize| #[trigger] r@.contains_key(w) ==> r@[w]@ == address_with_port(
                server_of(self.instance.writer(w))->0.address@,
                server_of(self.instance.writer(w))->0.port,
            ),
    {
        self.instance.get_server_addresses_ports()
    }

    /// The addresses of the server writers, by id.
    pub fn get_server_addresses(&self) -> (r: std::collections::HashMap<usize, String>)
        requires
            self.wf(),
        ensures
            forall|w: usize| #[trigger] r@.contains_key(w) <==> server_of(self.instance.writer(w)) is Some,
            forall|w: usize| #[trigger] r@.contains_key(w) ==> r@[w]@ == server_of(self.instance.writer(w))->0.address@,
    {
        self.instance.get_server_addresses()
    }

    /// The ports of the server writers, by id.
    pub fn get_server_ports(&self) -> (r: std::collections::HashMap<usize, u16>)
        requires
            self.wf(),
        ensures
            forall|w: usize| #[trigger] r@.contains_key(w) <==> server_of(self.instance.writer(w)) is Some,
            forall|w: usize| #[trigger] r@.contains_key(w) ==> r@[w] == server_of(self.instance.writer(w))->0.port,
    {
        self.instance.get_server_ports()
    }

    /// `Logging(level=<level> domain=<domain of the instance>)`.
    pub fn __repr__(&self) -> (r: String)
        ensures
            r@ == "Logging(level="@ + crate::text::dec(self.level as nat) + " domain="@
                + self.instance.domain@ + ")"@,
    {
        let mut r = "Logging(level=".to_string();
        crate::text::push_decimal(&mut r, self.level as u64);
        push_str(&mut r, " domain=");
        push_str(&mut r, self.instance.domain.as_str());
        push_str(&mut r, ")");
        r
    }

    /// The same text as `__repr__`.
    pub fn __str__(&self) -> (r: String)
        ensures
            r@ == "Logging(level="@ + crate::text::dec(self.level as nat) + " domain="@
                + self.instance.domain@ + ")"@,
    {
        self.__repr__()
    }

    /// The contents of a configuration file with the instance's settings
    /// and writers, to be saved at `path`.
    pub fn config_to_save(&self, path: String) -> (r: ConfigFile)
        requires
            self.wf(),
        ensures
            r.path == path,
            r.config.level == self.instance.level,
            r.config.domain == self.instance.domain,
            r.config.hostname == self.instance.hostname,
            r.config.pname == self.instance.pname,
            r.config.pid == self.instance.pid,
            r.config.tname == self.instance.tname,
            r.config.tid == self.instance.tid,
            r.config.structured == self.instance.structured,
            r.config.level2sym == self.instance.level2sym,
            r.config.configs@.len() == crate::merge::listed_configs(self.instance.writers@).len(),
            forall|i: int|
                0 <= i < r.config.configs@.len() ==> #[trigger] r.config.configs@[i].same_as(
                    crate::merge::listed_configs(self.instance.writers@)[i],
                ),
            crate::merge::saved_from(self.instance, r.config),
    {
        ConfigFile::from_instance(path, &self.instance)
    }

    /// The event for the instance's own message of `level`: in the
    /// instance's domain, from the thread `thread_name` with id `thread_id`.
    pub fn event(&self, level: u8, message: &str, thread_name: &str, thread_id: u32) -> (ev:
        LoggingTypeEnum)
        ensures
            message_event(
                level,
                self.domain@,
                message@,
                self.tname,
                self.tid,
                thread_name@,
                thread_id,
                ev,
            ),
    {
        build_event(level, &self.domain, message.to_string(), self.tname, self.tid, thread_name, thread_id)
    }

    /// Sends the instance's own message of `level` from the thread named
    /// `thread_name`.
    fn log(&mut self, level: u8, message: &str, thread_name: &str) -> (r: Result<(), LoggingError>)
        ensures
            logging_sent(*old(self), *final(self), level, message@, thread_name@, r),
    {
        let id = if self.tid {
            current_thread_id()
        } else {
            0
        };
        let ev = self.event(level, message, thread_name, id);
        let ghost gev = ev;
        let sent = send_event(&self.server_tx, ev);
        if sent {
            self.sent = Ghost(self.sent@.push(gev));
            assert(message_event(
                level,
                self.domain@,
                message@,
                self.tname,
                self.tid,
                thread_name@,
                id,
                self.sent@.last(),
            ));
            assert(self.sent@.drop_last() =~= old(self).sent@);
        }
        Self::send_outcome(level, sent)
    }

    /// What sending a message of `level` into the logging channel gives,
    /// by whether the channel took it: `Ok`, or the error that names the
    /// level.
    pub fn send_outcome(level: u8, sent: bool) -> (r: Result<(), LoggingError>)
        ensures
            sent ==> r is Ok,
            !sent ==> (r matches Err(LoggingError::SendError(m)) && m@ == "Failed to send "@
                + level_str_spec(level) + " message: SendError(..)"@),
    {
        if sent {
            Ok(())
        } else {
            let mut m = "Failed to send ".to_string();
            push_str(&mut m, level2str(level));
            push_str(&mut m, " message: SendError(..)");
            Err(LoggingError::SendError(m))
        }
    }

    /// Sends a message of level `TRACE`, when the instance's level lets it
    /// pass.
    pub fn trace(&mut self, message: &str, thread_name: &str) -> (r: Result<(), LoggingError>)
        ensures
            old(self).level > TRACE ==> r is Ok && *final(self) == *old(self),
            old(self).level <= TRACE ==> logging_sent(*old(self), *final(self), TRACE, message@, thread_name@, r),
    {
        if self.level <= TRACE {
            self.log(TRACE, message, thread_name)
        } else {
            Ok(())
        }
    }

    /// Sends a message of level `DEBUG`, when the instance's level lets it
    /// pass.
    pub fn debug(&mut self, message: &str, thread_name: &str) -> (r: Result<(), LoggingError>)
        ensures
            old(self).level > DEBUG ==> r is Ok && *final(self) == *old(self),
            old(self).level <= DEBUG ==> logging_sent(*old(self), *final(self), DEBUG, message@, thread_name@, r),
    {
        if self.level <= DEBUG {
            self.log(DEBUG, message, thread_name)
        } else {
            Ok(())
        }
    }

    /// Sends a message of level `INFO`, when the instance's level lets it
    /// pass.
    pub fn info(&mut self, message: &str, thread_name: &str) -> (r: Result<(), LoggingError>)
        ensures
            old(self).level > INFO ==> r is Ok && *final(self) == *old(self),
            old(self).level <= INFO ==> logging_sent(*old(self), *final(self), INFO, message@, thread_name@, r),
    {
        if self.level <= INFO {
            self.log(INFO, message, thread_name)
        } else {
            Ok(())
        }
    }

    /// Sends a message of level `SUCCESS`, when the instance's level lets it
    /// pass.
    pub fn success(&mut self, message: &str, thread_name: &str) -> (r: Result<(), LoggingError>)
        ensures
            old(self).level > SUCCESS ==> r is Ok && *final(self) == *old(self),
            old(self).level <= SUCCESS ==> logging_sent(*old(self), *final(self), SUCCESS, message@, thread_name@, r),
    {
        if self.level <= SUCCESS {
            self.log(SUCCESS, message, thread_name)
        } else {
            Ok(())
        }
    }

    /// Sends a message of level `WARNING`, when the instance's level lets it
    /// pass.
    pub fn warning(&mut self, message: &str, thread_name: &str) -> (r: Result<(), LoggingError>)
        ensures
            old(self).level > WARNING ==> r is Ok && *final(self) == *old(self),
            old(self).level <= WARNING ==> logging_sent(*old(self), *final(self), WARNING, message@, thread_name@, r),
    {
        if self.level <= WARNING {
            self.log(WARNING, message, thread_name)
        } else {
            Ok(())
        }
    }

    /// Sends a message of level `ERROR`, when the instance's level lets it
    /// pass.
    pub fn error(&mut self, message: &str, thread_name: &str) -> (r: Result<(), LoggingError>)
        ensures
            old(self).level > ERROR ==> r is Ok && *final(self) == *old(self),
            old(self).level <= ERROR ==> logging_sent(*old(self), *final(self), ERROR, message@, thread_name@, r),
    {
        if self.level <= ERROR {
            self.log(ERROR, message, thread_name)
        } else {
            Ok(())
        }
    }

    /// Sends a message of level `CRITICAL`, when the instance's level lets it
    /// pass.
    pub fn critical(&mut self, message: &str, thread_name: &str) -> (r: Result<(), LoggingError>)
        ensures
            old(self).level > CRITICAL ==> r is Ok && *final(self) == *old(self),
            old(self).level <= CRITICAL ==> logging_sent(*old(self), *final(self), CRITICAL, message@, thread_name@, r),
    {
        if self.level <= CRITICAL {
            self.log(CRITICAL, message, thread_name)
        } else {
            Ok(())
        }
    }

    /// Sends a message of level `FATAL`, when the instance's level lets it
    /// pass.
    pub fn fatal(&mut self, message: &str, thread_name: &str) -> (r: Result<(), LoggingError>)
        ensures
            old(self).level > FATAL ==> r is Ok && *final(self) == *old(self),
            old(self).level <= FATAL ==> logging_sent(*old(self), *final(self), FATAL, message@, thread_name@, r),
    {
        if self.level <= FATAL {
            self.log(FATAL, message, thread_name)
        } else {
            Ok(())
        }
    }

    /// Sends a message of level `EXCEPTION`, when the instance's level lets it
    /// pass.
    pub fn exception(&mut self, message: &str, thread_name: &str) -> (r: Result<(), LoggingError>)
        ensures
            old(self).level > EXCEPTION ==> r is Ok && *final(self) == *old(self),
            old(self).level <= EXCEPTION ==> logging_sent(*old(self), *final(self), EXCEPTION, message@, thread_name@, r),
    {
        if self.level <= EXCEPTION {
            self.log(EXCEPTION, message, thread_name)
        } else {
            Ok(())
        }
    }
}


/// Applies the entries of `f` to `inst`, whose level and domain are those
/// of `f`: a root entry sets level and domain, any other adds its writer.
fn apply_entries(inst: &mut LoggingInstance, f: &crate::config::FileConfig) -> (r: Result<(), LoggingError>)
    requires
        old(inst).wf(),
        old(inst).next_wid() + f.configs@.len() < usize::MAX,
        old(inst).level == f.level,
        old(inst).domain == f.domain,
    ensures
        final(inst).wf(),
        final(inst).auth_key() == old(inst).auth_key(),
        final(inst).debug == old(inst).debug,
        r matches Err(e) ==> e is InvalidEncryption,
        r is Ok <==> forall|i: int| 0 <= i < f.configs@.len() ==> config_accepted(
            #[trigger] f.configs@[i],
        ),
        r is Ok ==> {
            &&& final(inst).level == applied_level(*f)
            &&& final(inst).domain == applied_domain(*f)
            &&& forall|w: usize| w < old(inst).next_wid() ==> #[trigger] final(inst).writer(w)
                == old(inst).writer(w)
            &&& forall|i: int| 0 <= i < f.configs@.len() && !(f.configs@[i] is Root) ==> holds_stored(
                #[trigger] final(inst).writer(added_wid(old(inst).next_wid(), f.configs@, i)),
                f.configs@[i],
                old(inst).auth_key(),
            )
            &&& final(inst).next_wid() == added_wid(old(inst).next_wid(), f.configs@, f.configs@.len() as int)
        },
{
    let ghost start = inst.next_wid();
    let ghost key = inst.auth_key();
    let mut i: usize = 0;
    while i < f.configs.len()
        invariant
            inst.wf(),
            i <= f.configs@.len(),
            start == old(inst).next_wid(),
            key == old(inst).auth_key(),
            inst.auth_key() == key,
            inst.debug == old(inst).debug,
            inst.next_wid() == added_wid(start, f.configs@, i as int),
            start + f.configs@.len() < usize::MAX,
            inst.level == applied_level_upto(*f, i as int),
            inst.domain == applied_domain_upto(*f, i as int),
            forall|j: int| 0 <= j < i ==> config_accepted(#[trigger] f.configs@[j]),
            forall|w: usize| w < start ==> #[trigger] inst.writer(w) == old(inst).writer(w),
            forall|j: int| 0 <= j < i && !(f.configs@[j] is Root) ==> holds_stored(
                #[trigger] inst.writer(added_wid(start, f.configs@, j)),
                f.configs@[j],
                key,
            ),
        decreases f.configs@.len() - i,
    {
        proof {
            lemma_added_wid_step(start, f.configs@, i as int);
            lemma_added_wid_bound(start, f.configs@, i as int);
        }
        let ghost before = *inst;
        match &f.configs[i] {
            WriterConfigEnum::Root(rc) => {
                inst.level = rc.level;
                inst.domain = rc.domain.clone();
                proof {
                    assert(inst.writers == before.writers);
                    assert forall|w: usize| w < start implies #[trigger] inst.writer(w) == old(inst).writer(w) by {
                        assert(inst.writer(w) == before.writer(w));
                    }
                    assert forall|j: int| 0 <= j < i + 1 && !(f.configs@[j] is Root) implies holds_stored(
                        #[trigger] inst.writer(added_wid(start, f.configs@, j)),
                        f.configs@[j],
                        key,
                    ) by {
                        assert(inst.writer(added_wid(start, f.configs@, j)) == before.writer(added_wid(start, f.configs@, j)));
                    }
                }
            },
            c => {
                let wid = inst.add_writer_config(c)?;
                proof {
                    assert(start <= wid);
                    assert forall|w: usize| w < start implies #[trigger] inst.writer(w) == old(inst).writer(w) by {
                        assert(w != wid);
                        assert(inst.writer(w) == before.writer(w));
                    }
                    assert forall|j: int| 0 <= j < i + 1 && !(f.configs@[j] is Root) implies holds_stored(
                        #[trigger] inst.writer(added_wid(start, f.configs@, j)),
                        f.configs@[j],
                        key,
                    ) by {
                        if j < i {
                            lemma_added_wid_mono(start, f.configs@, j, i as int);
                        }
                    }
                }
            },
        }
        i = i + 1;
    }
    Ok(())
}

/// The id the `i`-th entry of `configs` gets when the entries are added
/// from id `start` on, root entries taking none.
pub open spec fn added_wid(start: usize, configs: Seq<WriterConfigEnum>, i: int) -> usize
    decreases i,
{
    if i <= 0 {
        start
    } else if configs[i - 1] is Root {
        added_wid(start, configs, i - 1)
    } else {
        (added_wid(start, configs, i - 1) + 1) as usize
    }
}

proof fn lemma_added_wid_step(start: usize, configs: Seq<WriterConfigEnum>, i: int)
    requires
        0 <= i,
    ensures
        added_wid(start, configs, i + 1) == if configs[i] is Root {
            added_wid(start, configs, i)
        } else {
            (added_wid(start, configs, i) + 1) as usize
        },
{
}

proof fn lemma_added_wid_mono(start: usize, configs: Seq<WriterConfigEnum>, j: int, i: int)
    requires
        0 <= j < i,
        !(configs[j] is Root),
        added_wid(start, configs, i) as int <= start + i,
        start + i < usize::MAX,
    ensures
        added_wid(start, configs, j) < added_wid(start, configs, i),
    decreases i - j,
{
    lemma_added_wid_bound(start, configs, i);
    if j < i - 1 {
        lemma_added_wid_bound(start, configs, i - 1);
        lemma_added_wid_mono(start, configs, j, i - 1);
    }
}

proof fn lemma_added_wid_bound(start: usize, configs: Seq<WriterConfigEnum>, i: int)
    requires
        0 <= i,
        start + i < usize::MAX,
    ensures
        start <= added_wid(start, configs, i) <= start + i,
        i > 0 ==> added_wid(start, configs, i - 1) <= added_wid(start, configs, i),
    decreases i,
{
    if i > 0 {
        lemma_added_wid_bound(start, configs, i - 1);
    }
}

/// The level a file's contents leave after the first `i` entries: the
/// file's level, then that of each root entry.
pub open spec fn applied_level_upto(f: crate::config::FileConfig, i: int) -> u8
    decreases i,
{
    if i <= 0 {
        f.level
    } else {
        match f.configs@[i - 1] {
            WriterConfigEnum::Root(rc) => rc.level,
            _ => applied_level_upto(f, i - 1),
        }
    }
}

pub open spec fn applied_domain_upto(f: crate::config::FileConfig, i: int) -> String
    decreases i,
{
    if i <= 0 {
        f.domain
    } else {
        match f.configs@[i - 1] {
            WriterConfigEnum::Root(rc) => rc.domain,
            _ => applied_domain_upto(f, i - 1),
        }
    }
}

/// The level and domain applying a file's contents leaves.
pub open spec fn applied_level(f: crate::config::FileConfig) -> u8 {
    applied_level_upto(f, f.configs@.len() as int)
}

pub open spec fn applied_domain(f: crate::config::FileConfig) -> String {
    applied_domain_upto(f, f.configs@.len() as int)
}

} // verus!
