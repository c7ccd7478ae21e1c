//! Log levels, their names, and the configuration enums shared by all writers.

use vstd::prelude::*;

use crate::callback::CallbackWriterConfig;
use crate::console::ConsoleWriterConfig;
use crate::file::FileWriterConfig;
use crate::net::{ClientWriterConfig, ServerConfig};
use crate::syslog::SyslogWriterConfig;

verus! {

/// Level above every message level: nothing is logged.
pub const NOLOG: u8 = 100;

pub const EXCEPTION: u8 = 60;

pub const CRITICAL: u8 = 50;

pub const FATAL: u8 = CRITICAL;

pub const ERROR: u8 = 40;

pub const WARNING: u8 = 30;

pub const WARN: u8 = WARNING;

pub const SUCCESS: u8 = 25;

pub const INFO: u8 = 20;

pub const DEBUG: u8 = 10;

pub const TRACE: u8 = 5;

/// Lowest level: every message passes.
pub const NOTSET: u8 = 0;

/// The band a level falls into: each named level covers the values up to
/// the next named level.
pub enum LevelBand {
    NotSet,
    Trace,
    Debug,
    Info,
    Success,
    Warning,
    Error,
    Fatal,
    Exception,
    NoLog,
}

pub open spec fn level_band(level: u8) -> LevelBand {
    if level < TRACE {
        LevelBand::NotSet
    } else if level < DEBUG {
        LevelBand::Trace
    } else if level < INFO {
        LevelBand::Debug
    } else if level < SUCCESS {
        LevelBand::Info
    } else if level < WARNING {
        LevelBand::Success
    } else if level < ERROR {
        LevelBand::Warning
    } else if level < FATAL {
        LevelBand::Error
    } else if level < EXCEPTION {
        LevelBand::Fatal
    } else if level < NOLOG {
        LevelBand::Exception
    } else {
        LevelBand::NoLog
    }
}

/// Long name of a level.
pub open spec fn level_str_spec(level: u8) -> Seq<char> {
    match level_band(level) {
        LevelBand::NotSet => "NOTSET"@,
        LevelBand::Trace => "TRACE"@,
        LevelBand::Debug => "DEBUG"@,
        LevelBand::Info => "INFO"@,
        LevelBand::Success => "SUCCESS"@,
        LevelBand::Warning => "WARNING"@,
        LevelBand::Error => "ERROR"@,
        LevelBand::Fatal => "FATAL"@,
        LevelBand::Exception => "EXCEPTION"@,
        LevelBand::NoLog => "NOLOG"@,
    }
}

/// Three-letter name of a level.
pub open spec fn level_short_spec(level: u8) -> Seq<char> {
    match level_band(level) {
        LevelBand::NotSet => "NOT"@,
        LevelBand::Trace => "TRC"@,
        LevelBand::Debug => "DBG"@,
        LevelBand::Info => "INF"@,
        LevelBand::Success => "SCS"@,
        LevelBand::Warning => "WRN"@,
        LevelBand::Error => "ERR"@,
        LevelBand::Fatal => "FTL"@,
        LevelBand::Exception => "EXC"@,
        LevelBand::NoLog => "NOL"@,
    }
}

/// One-character symbol of a level.
pub open spec fn level_sym_spec(level: u8) -> Seq<char> {
    match level_band(level) {
        LevelBand::NotSet => "N"@,
        LevelBand::Trace => "T"@,
        LevelBand::Debug => "D"@,
        LevelBand::Info => "I"@,
        LevelBand::Success => "S"@,
        LevelBand::Warning => "W"@,
        LevelBand::Error => "E"@,
        LevelBand::Fatal => "F"@,
        LevelBand::Exception => "!"@,
        LevelBand::NoLog => "-"@,
    }
}

/// How a level is rendered in a log message.
#[derive(Debug, Clone, Copy, PartialEq, Eq, Structural)]
pub enum LevelSyms {
    Sym,
    Short,
    Str,
}

pub open spec fn level_string_spec(levelsym: LevelSyms, level: u8) -> Seq<char> {
    match levelsym {
        LevelSyms::Sym => level_sym_spec(level),
        LevelSyms::Short => level_short_spec(level),
        LevelSyms::Str => level_str_spec(level),
    }
}

/// Convert log level into string.
pub fn level2str(level: u8) -> (r: &'static str)
    ensures
        r@ == level_str_spec(level),
{
    if level < TRACE {
        "NOTSET"
    } else if level < DEBUG {
        "TRACE"
    } else if level < INFO {
        "DEBUG"
    } else if level < SUCCESS {
        "INFO"
    } else if level < WARNING {
        "SUCCESS"
    } else if level < ERROR {
        "WARNING"
    } else if level < FATAL {
        "ERROR"
    } else if level < EXCEPTION {
        "FATAL"
    } else if level < NOLOG {
        "EXCEPTION"
    } else {
        "NOLOG"
    }
}

/// Convert log level into short string.
pub fn level2short(level: u8) -> (r: &'static str)
    ensures
        r@ == level_short_spec(level),
{
    if level < TRACE {
        "NOT"
    } else if level < DEBUG {
        "TRC"
    } else if level < INFO {
        "DBG"
    } else if level < SUCCESS {
        "INF"
    } else if level < WARNING {
        "SCS"
    } else if level < ERROR {
        "WRN"
    } else if level < FATAL {
        "ERR"
    } else if level < EXCEPTION {
        "FTL"
    } else if level < NOLOG {
        "EXC"
    } else {
        "NOL"
    }
}

/// Convert log level into symbol.
pub fn level2sym(level: u8) -> (r: &'static str)
    ensures
        r@ == level_sym_spec(level),
{
    if level < TRACE {
        "N"
    } else if level < DEBUG {
        "T"
    } else if level < INFO {
        "D"
    } else if level < SUCCESS {
        "I"
    } else if level < WARNING {
        "S"
    } else if level < ERROR {
        "W"
    } else if level < FATAL {
        "E"
    } else if level < EXCEPTION {
        "F"
    } else if level < NOLOG {
        "!"
    } else {
        "-"
    }
}

/// Convert log level into string, short string or symbol depending on `levelsym`.
pub fn level2string(levelsym: &LevelSyms, level: u8) -> (r: &'static str)
    ensures
        r@ == level_string_spec(*levelsym, level),
{
    match levelsym {
        LevelSyms::Sym => level2sym(level),
        LevelSyms::Short => level2short(level),
        LevelSyms::Str => level2str(level),
    }
}

/// How log messages are structured.
#[derive(Debug, Clone, Copy, PartialEq, Eq, Structural)]
pub enum MessageStructEnum {
    String,
    Json,
    Xml,
}

/// Settings of the root writer: the logging instance's own settings.
#[derive(Debug)]
pub struct RootConfig {
    pub level: u8,
    pub domain: String,
    pub hostname: Option<String>,
    pub pname: String,
    /// `pid` is process ID and is logged when greater than 0.
    pub pid: u32,
    /// Add name of thread to log messages if `true`.
    pub tname: bool,
    /// Add ID of thread to log messages if `true`.
    pub tid: bool,
    pub structured: MessageStructEnum,
    pub level2sym: LevelSyms,
}

pub fn clone_opt_string(s: &Option<String>) -> (r: Option<String>)
    ensures
        r == *s,
{
    match s {
        Some(v) => Some(v.clone()),
        None => None,
    }
}

impl RootConfig {
    pub fn duplicate(&self) -> (r: Self)
        ensures
            r == *self,
    {
        RootConfig {
            level: self.level,
            domain: self.domain.clone(),
            hostname: clone_opt_string(&self.hostname),
            pname: self.pname.clone(),
            pid: self.pid,
            tname: self.tname,
            tid: self.tid,
            structured: self.structured,
            level2sym: self.level2sym,
        }
    }
}

impl Default for RootConfig {
    fn default() -> (r: Self)
        ensures
            r.level == NOTSET,
            r.domain@ == "root"@,
            r.hostname is None,
            r.pname@.len() == 0,
            r.pid == 0,
            !r.tname,
            !r.tid,
            r.structured == MessageStructEnum::String,
            r.level2sym == LevelSyms::Sym,
    {
        RootConfig {
            level: NOTSET,
            domain: "root".to_string(),
            hostname: None,
            pname: String::new(),
            pid: 0,
            tname: false,
            tid: false,
            structured: MessageStructEnum::String,
            level2sym: LevelSyms::Sym,
        }
    }
}

/// Selects writers: one kind, or one file / address of a kind, or all of a kind.
#[derive(Debug, Clone, PartialEq, Eq, Hash)]
pub enum WriterTypeEnum {
    Root,
    Console,
    File(String),
    Files,
    Client(String),
    Clients,
    Server(String),
    Servers,
    Callback,
    Syslog,
}

impl WriterTypeEnum {
    pub fn duplicate(&self) -> (r: Self)
        ensures
            r == *self,
    {
        match self {
            WriterTypeEnum::Root => WriterTypeEnum::Root,
            WriterTypeEnum::Console => WriterTypeEnum::Console,
            WriterTypeEnum::File(p) => WriterTypeEnum::File(p.clone()),
            WriterTypeEnum::Files => WriterTypeEnum::Files,
            WriterTypeEnum::Client(a) => WriterTypeEnum::Client(a.clone()),
            WriterTypeEnum::Clients => WriterTypeEnum::Clients,
            WriterTypeEnum::Server(a) => WriterTypeEnum::Server(a.clone()),
            WriterTypeEnum::Servers => WriterTypeEnum::Servers,
            WriterTypeEnum::Callback => WriterTypeEnum::Callback,
            WriterTypeEnum::Syslog => WriterTypeEnum::Syslog,
        }
    }
}

/// The configuration of one writer.
pub enum WriterConfigEnum {
    Root(RootConfig),
    Console(ConsoleWriterConfig),
    File(FileWriterConfig),
    Client(ClientWriterConfig),
    Server(ServerConfig),
    Callback(CallbackWriterConfig),
    Syslog(SyslogWriterConfig),
}

impl WriterConfigEnum {
    /// Whether two configurations agree in every setting, keys of network
    /// writers compared by their bytes.
    pub open spec fn same_as(self, o: Self) -> bool {
        match (self, o) {
            (WriterConfigEnum::Client(a), WriterConfigEnum::Client(b)) => a.same_as(b),
            (WriterConfigEnum::Server(a), WriterConfigEnum::Server(b)) => a.same_as(b),
            _ => self == o,
        }
    }

    pub fn duplicate(&self) -> (r: Self)
        ensures
            r.same_as(*self),
    {
        match self {
            WriterConfigEnum::Root(c) => WriterConfigEnum::Root(c.duplicate()),
            WriterConfigEnum::Console(c) => WriterConfigEnum::Console(c.duplicate()),
            WriterConfigEnum::File(c) => WriterConfigEnum::File(c.duplicate()),
            WriterConfigEnum::Client(c) => WriterConfigEnum::Client(c.duplicate()),
            WriterConfigEnum::Server(c) => WriterConfigEnum::Server(c.duplicate()),
            WriterConfigEnum::Callback(c) => WriterConfigEnum::Callback(c.duplicate()),
            WriterConfigEnum::Syslog(c) => WriterConfigEnum::Syslog(c.duplicate()),
        }
    }

    /// The level of this writer.
    pub open spec fn level_spec(self) -> u8 {
        match self {
            WriterConfigEnum::Root(c) => c.level,
            WriterConfigEnum::Console(c) => c.level,
            WriterConfigEnum::File(c) => c.level,
            WriterConfigEnum::Client(c) => c.level,
            WriterConfigEnum::Server(c) => c.level,
            WriterConfigEnum::Callback(c) => c.level,
            WriterConfigEnum::Syslog(c) => c.level,
        }
    }

    pub fn level(&self) -> (r: u8)
        ensures
            r == self.level_spec(),
    {
        match self {
            WriterConfigEnum::Root(c) => c.level,
            WriterConfigEnum::Console(c) => c.level,
            WriterConfigEnum::File(c) => c.level,
            WriterConfigEnum::Client(c) => c.level,
            WriterConfigEnum::Server(c) => c.level,
            WriterConfigEnum::Callback(c) => c.level,
            WriterConfigEnum::Syslog(c) => c.level,
        }
    }
}

impl From<ConsoleWriterConfig> for WriterConfigEnum {
    fn from(config: ConsoleWriterConfig) -> (r: Self) {
        WriterConfigEnum::Console(config)
    }
}

impl vstd::std_specs::convert::FromSpecImpl<ConsoleWriterConfig> for WriterConfigEnum {
    open spec fn obeys_from_spec() -> bool {
        true
    }

    open spec fn from_spec(config: ConsoleWriterConfig) -> Self {
        WriterConfigEnum::Console(config)
    }
}

impl From<FileWriterConfig> for WriterConfigEnum {
    fn from(config: FileWriterConfig) -> (r: Self) {
        WriterConfigEnum::File(config)
    }
}

impl vstd::std_specs::convert::FromSpecImpl<FileWriterConfig> for WriterConfigEnum {
    open spec fn obeys_from_spec() -> bool {
        true
    }

    open spec fn from_spec(config: FileWriterConfig) -> Self {
        WriterConfigEnum::File(config)
    }
}

impl From<ClientWriterConfig> for WriterConfigEnum {
    fn from(config: ClientWriterConfig) -> (r: Self) {
        WriterConfigEnum::Client(config)
    }
}

impl vstd::std_specs::convert::FromSpecImpl<ClientWriterConfig> for WriterConfigEnum {
    open spec fn obeys_from_spec() -> bool {
        true
    }

    open spec fn from_spec(config: ClientWriterConfig) -> Self {
        WriterConfigEnum::Client(config)
    }
}

impl From<ServerConfig> for WriterConfigEnum {
    fn from(config: ServerConfig) -> (r: Self) {
        WriterConfigEnum::Server(config)
    }
}

impl vstd::std_specs::convert::FromSpecImpl<ServerConfig> for WriterConfigEnum {
    open spec fn obeys_from_spec() -> bool {
        true
    }

    open spec fn from_spec(config: ServerConfig) -> Self {
        WriterConfigEnum::Server(config)
    }
}

impl From<CallbackWriterConfig> for WriterConfigEnum {
    fn from(config: CallbackWriterConfig) -> (r: Self) {
        WriterConfigEnum::Callback(config)
    }
}

impl vstd::std_specs::convert::FromSpecImpl<CallbackWriterConfig> for WriterConfigEnum {
    open spec fn obeys_from_spec() -> bool {
        true
    }

    open spec fn from_spec(config: CallbackWriterConfig) -> Self {
        WriterConfigEnum::Callback(config)
    }
}

impl From<SyslogWriterConfig> for WriterConfigEnum {
    fn from(config: SyslogWriterConfig) -> (r: Self) {
        WriterConfigEnum::Syslog(config)
    }
}

impl vstd::std_specs::convert::FromSpecImpl<SyslogWriterConfig> for WriterConfigEnum {
    open spec fn obeys_from_spec() -> bool {
        true
    }

    open spec fn from_spec(config: SyslogWriterConfig) -> Self {
        WriterConfigEnum::Syslog(config)
    }
}

} // verus!

verus! {

/// What the logging thread receives.
pub enum LoggingTypeEnum {
    /// Level, domain, message.
    Message((u8, String, String)),
    /// Level, domain, message received from a client; the message is
    /// handed on as it is.
    MessageRemote((u8, String, String)),
    /// Level, domain, message, thread id, thread name.
    MessageExt((u8, String, String, u32, String)),
    /// Writer types to synchronize, and how long to wait for each writer.
    Sync((Vec<WriterTypeEnum>, std::time::Duration)),
    Stop,
}

} // verus!
