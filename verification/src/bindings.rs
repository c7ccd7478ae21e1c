//! The binding-level writer configuration: one value that holds the
//! configuration of any writer kind, built from plain arguments.

use vstd::prelude::*;

use crate::console::ConsoleWriterConfig;
use crate::def::WriterConfigEnum;
use crate::encryption::{slice_to_vec, EncryptionMethod};
use crate::error::LoggingError;
use crate::file::{CompressionMethodEnum, FileWriterConfig};
use crate::net::{port_text_valid, ClientWriterConfig, ServerConfig};
use crate::syslog::SyslogWriterConfig;

verus! {

/// The kind of key of a network writer, without the key.
#[derive(Debug, Clone, Copy, PartialEq, Eq, Structural)]
pub enum EncryptionMethodEnum {
    NONE,
    AuthKey,
    AES,
}

impl EncryptionMethodEnum {
    /// The kind of a key.
    pub fn of(key: &EncryptionMethod) -> (r: Self)
        ensures
            r == match *key {
                EncryptionMethod::NONE => EncryptionMethodEnum::NONE,
                EncryptionMethod::AuthKey(_) => EncryptionMethodEnum::AuthKey,
                EncryptionMethod::AES(_) => EncryptionMethodEnum::AES,
            },
    {
        match key {
            EncryptionMethod::NONE => EncryptionMethodEnum::NONE,
            EncryptionMethod::AuthKey(_) => EncryptionMethodEnum::AuthKey,
            EncryptionMethod::AES(_) => EncryptionMethodEnum::AES,
        }
    }
}

/// The key of kind `key_type` with bytes `key`; no key ignores the bytes.
pub fn encryption_from_kind(key_type: EncryptionMethodEnum, key: &[u8]) -> (r: EncryptionMethod)
    ensures
        match key_type {
            EncryptionMethodEnum::NONE => r is NONE,
            EncryptionMethodEnum::AuthKey => r matches EncryptionMethod::AuthKey(k) && k@ == key@,
            EncryptionMethodEnum::AES => r matches EncryptionMethod::AES(k) && k@ == key@,
        },
{
    match key_type {
        EncryptionMethodEnum::AuthKey => EncryptionMethod::AuthKey(slice_to_vec(key)),
        EncryptionMethodEnum::AES => EncryptionMethod::AES(slice_to_vec(key)),
        EncryptionMethodEnum::NONE => EncryptionMethod::NONE,
    }
}

/// The current time, from `std::time::SystemTime::now`.
#[verifier::external_body]
fn system_now() -> (r: std::time::SystemTime) {
    std::time::SystemTime::now()
}

/// `t` moved on by `d`, from `std::time::SystemTime::checked_add`; none
/// where it cannot be represented.
#[verifier::external_body]
fn time_checked_add(t: std::time::SystemTime, d: std::time::Duration) -> (r: Option<
    std::time::SystemTime,
>) {
    t.checked_add(d)
}


/// The configuration of one writer of any kind.
pub struct WriterConfig(pub WriterConfigEnum);

impl WriterConfig {
    /// Configuration of a console writer.
    pub fn new_console(level: u8, colors: bool) -> (r: Box<WriterConfig>)
        ensures
            r.0 matches WriterConfigEnum::Console(c) && c == ConsoleWriterConfig::new_spec(
                level,
                colors,
            ),
    {
        Box::new(WriterConfig(WriterConfigEnum::Console(ConsoleWriterConfig::new(level, colors))))
    }

    /// Configuration of a file writer. A negative `timeout_secs` means no
    /// rotation interval, a negative `time_secs` no rotation time (else the
    /// time that many seconds from now).
    pub fn new_file(
        level: u8,
        path: &str,
        size: u64,
        backlog: u64,
        timeout_secs: i64,
        time_secs: i64,
        compression: CompressionMethodEnum,
    ) -> (r: Result<Box<WriterConfig>, LoggingError>)
        requires
            size <= usize::MAX,
            backlog <= usize::MAX,
        ensures
            ({
                let rot = crate::file::rotating(size as usize, timeout_secs >= 0, time_secs >= 0);
                &&& rot && time_secs < 0 && backlog == 0 ==> (r matches Err(LoggingError::InvalidValue(m))
                    && m@ == crate::file::backlog_missing_text())
                &&& rot && time_secs < 0 && backlog > crate::file::BACKLOG_MAX ==> (r matches Err(
                    LoggingError::InvalidValue(m),
                ) && m@ == crate::file::backlog_too_big_text(backlog as nat))
                &&& (!rot || (0 < backlog && backlog <= crate::file::BACKLOG_MAX)) ==> (r matches Ok(
                    b,
                ) && b.0 matches WriterConfigEnum::File(c) && c.enabled && c.level == level
                    && c.path@ == path@ && c.size == size && c.backlog == backlog && c.timeout == (
                if timeout_secs < 0 {
                    None
                } else {
                    Some(crate::file::seconds(timeout_secs as u64))
                }) && (time_secs < 0 ==> c.time is None) && c.compression == compression
                    && c.domain_filter is None && c.message_filter is None)
            }),
    {
        let timeout = if timeout_secs < 0 {
            None
        } else {
            Some(crate::file::duration_from_secs(timeout_secs as u64))
        };
        let time = if time_secs < 0 {
            None
        } else {
            time_checked_add(system_now(), crate::file::duration_from_secs(time_secs as u64))
        };
        let config = FileWriterConfig::new(
            level,
            path.to_string(),
            size as usize,
            backlog as usize,
            timeout,
            time,
            Some(compression),
        )?;
        Ok(Box::new(WriterConfig(WriterConfigEnum::File(config))))
    }

    /// Configuration of a client writer.
    pub fn new_client(level: u8, address: &str, key_type: EncryptionMethodEnum, key: &[u8]) -> (r:
        Box<WriterConfig>)
        requires
            port_text_valid(address@),
        ensures
            r.0 matches WriterConfigEnum::Client(c) && c.level == level && c.enabled && c.address@
                == address@ && c.port == crate::net::address_port(address@)
                && c.domain_filter is None && c.message_filter is None && c.debug == 0 && match key_type {
                EncryptionMethodEnum::NONE => c.key is NONE,
                EncryptionMethodEnum::AuthKey => c.key matches EncryptionMethod::AuthKey(k) && k@ == key@,
                EncryptionMethodEnum::AES => c.key matches EncryptionMethod::AES(k) && k@ == key@,
            },
    {
        let k = encryption_from_kind(key_type, key);
        Box::new(WriterConfig(WriterConfigEnum::Client(ClientWriterConfig::new(level, address, k))))
    }

    /// Configuration of a logging server.
    pub fn new_server(level: u8, address: &str, key_type: EncryptionMethodEnum, key: &[u8]) -> (r:
        Box<WriterConfig>)
        requires
            port_text_valid(address@),
        ensures
            r.0 matches WriterConfigEnum::Server(c) && c.level == level && c.address@ == (
            if address@.contains(':') {
                crate::text::before_first(address@, ':')
            } else {
                address@
            }) && c.port == crate::net::address_port(address@) && c.port_file is None && match key_type {
                EncryptionMethodEnum::NONE => c.key is NONE,
                EncryptionMethodEnum::AuthKey => c.key matches EncryptionMethod::AuthKey(k) && k@ == key@,
                EncryptionMethodEnum::AES => c.key matches EncryptionMethod::AES(k) && k@ == key@,
            },
    {
        let k = encryption_from_kind(key_type, key);
        Box::new(WriterConfig(WriterConfigEnum::Server(ServerConfig::new(level, address, k))))
    }

    /// Configuration of a syslog writer; an empty host name means none.
    pub fn new_syslog(level: u8, hostname: &str, pname: &str, pid: u32) -> (r: Box<WriterConfig>)
        ensures
            r.0 matches WriterConfigEnum::Syslog(c) && c.level == level && c.enabled && (if hostname@.len()
                == 0 {
                c.hostname is None
            } else {
                c.hostname matches Some(h) && h@ == hostname@
            }) && c.process@ == pname@ && c.pid == pid && c.domain_filter is None
                && c.message_filter is None,
    {
        let h = if hostname.is_empty() {
            None
        } else {
            Some(hostname.to_string())
        };
        Box::new(WriterConfig(WriterConfigEnum::Syslog(SyslogWriterConfig::new(level, h, pname, pid))))
    }
}

} // verus!
