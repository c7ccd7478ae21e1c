//! Configuration of the file writer, and when and how log files are rotated.

use vstd::prelude::*;

use crate::error::LoggingError;
use crate::filter::check_filter;
use crate::filter::filter_valid;
use crate::text::{dec, push_decimal, push_str};

verus! {

/// What reaches the file writer: a message (level, domain, message), a
/// request to confirm that what came before is written, a request to
/// rotate the file, or the end.
#[derive(Debug)]
pub enum FileTypeEnum {
    Message((u8, String, String)),
    Sync,
    Rotate,
    Stop,
}

#[verifier::external_type_specification]
#[verifier::external_body]
pub struct ExSystemTime(std::time::SystemTime);

/// The duration of `secs` seconds.
pub uninterp spec fn seconds(secs: u64) -> std::time::Duration;

/// The duration of `secs` seconds, from `std::time::Duration::from_secs`.
#[verifier::external_body]
pub(crate) fn duration_from_secs(secs: u64) -> (r: std::time::Duration)
    ensures
        r == seconds(secs),
{
    std::time::Duration::from_secs(secs)
}

/// Largest number of backup files of a rotating file writer.
pub const BACKLOG_MAX: usize = 1000;

/// Compression of backup files.
#[derive(Debug, Clone, Copy, PartialEq, Eq, Structural)]
pub enum CompressionMethodEnum {
    Store,
    Deflate,
    Zstd,
    Lzma,
}

impl From<i32> for CompressionMethodEnum {
    fn from(val: i32) -> (r: Self) {
        if val == 1 {
            CompressionMethodEnum::Deflate
        } else if val == 2 {
            CompressionMethodEnum::Zstd
        } else if val == 3 {
            CompressionMethodEnum::Lzma
        } else {
            CompressionMethodEnum::Store
        }
    }
}

impl vstd::std_specs::convert::FromSpecImpl<i32> for CompressionMethodEnum {
    open spec fn obeys_from_spec() -> bool {
        true
    }

    open spec fn from_spec(val: i32) -> Self {
        if val == 1 {
            CompressionMethodEnum::Deflate
        } else if val == 2 {
            CompressionMethodEnum::Zstd
        } else if val == 3 {
            CompressionMethodEnum::Lzma
        } else {
            CompressionMethodEnum::Store
        }
    }
}

#[derive(Debug)]
pub struct FileWriterConfig {
    pub enabled: bool,
    pub level: u8,
    pub domain_filter: Option<String>,
    pub message_filter: Option<String>,
    /// Log file path.
    pub path: String,
    /// Maximum size of log file. 0 means no size limit.
    pub size: usize,
    /// Maximum number of backup files.
    pub backlog: usize,
    /// Maximum log file age.
    pub timeout: Option<std::time::Duration>,
    /// Time when to back up the log file.
    pub time: Option<std::time::SystemTime>,
    /// Compression method for backup files.
    pub compression: CompressionMethodEnum,
}

/// The text of the error for a rotating writer without backlog.
pub open spec fn backlog_missing_text() -> Seq<char> {
    "For rotating file logger backlog depth has to be set!"@
}

/// The text of the error for a backlog above `BACKLOG_MAX`.
pub open spec fn backlog_too_big_text(backlog: nat) -> Seq<char> {
    "For rotating file logger backlog depth "@ + dec(backlog) + " too big! Maximum value is "@
        + dec(BACKLOG_MAX as nat) + "."@
}

/// Whether a file writer with these settings rotates its file.
pub open spec fn rotating(size: usize, timeout_set: bool, time_set: bool) -> bool {
    size > 0 || timeout_set || time_set
}

impl FileWriterConfig {
    /// A file writer configuration. A rotating writer (size limit, maximum
    /// age or backup time) needs a backlog of 1 to `BACKLOG_MAX` files.
    pub fn new(
        level: u8,
        path: String,
        size: usize,
        backlog: usize,
        timeout: Option<std::time::Duration>,
        time: Option<std::time::SystemTime>,
        compression: Option<CompressionMethodEnum>,
    ) -> (r: Result<Self, LoggingError>)
        ensures
            rotating(size, timeout is Some, time is Some) && backlog == 0 ==> (r matches Err(
                LoggingError::InvalidValue(m),
            ) && m@ == backlog_missing_text()),
            rotating(size, timeout is Some, time is Some) && backlog > BACKLOG_MAX ==> (r matches Err(
                LoggingError::InvalidValue(m),
            ) && m@ == backlog_too_big_text(backlog as nat)),
            !rotating(size, timeout is Some, time is Some) || (0 < backlog && backlog <= BACKLOG_MAX)
                ==> r == Ok::<Self, LoggingError>(
                FileWriterConfig {
                    enabled: true,
                    level,
                    domain_filter: None,
                    message_filter: None,
                    path,
                    size,
                    backlog,
                    timeout,
                    time,
                    compression: match compression {
                        Some(c) => c,
                        None => CompressionMethodEnum::Store,
                    },
                },
            ),
    {
        if size > 0 || timeout.is_some() || time.is_some() {
            if backlog == 0 {
                return Err(
                    LoggingError::InvalidValue(
                        "For rotating file logger backlog depth has to be set!".to_string(),
                    ),
                );
            } else if backlog > BACKLOG_MAX {
                let mut m = "For rotating file logger backlog depth ".to_string();
                push_decimal(&mut m, backlog as u64);
                push_str(&mut m, " too big! Maximum value is ");
                push_decimal(&mut m, BACKLOG_MAX as u64);
                push_str(&mut m, ".");
                return Err(LoggingError::InvalidValue(m));
            }
        }
        let compression = match compression {
            Some(c) => c,
            None => CompressionMethodEnum::Store,
        };
        Ok(
            Self {
                enabled: true,
                level,
                domain_filter: None,
                message_filter: None,
                path,
                size,
                backlog,
                timeout,
                time,
                compression,
            },
        )
    }

    pub fn duplicate(&self) -> (r: Self)
        ensures
            r == *self,
    {
        Self {
            enabled: self.enabled,
            level: self.level,
            domain_filter: crate::def::clone_opt_string(&self.domain_filter),
            message_filter: crate::def::clone_opt_string(&self.message_filter),
            path: self.path.clone(),
            size: self.size,
            backlog: self.backlog,
            timeout: self.timeout,
            time: self.time,
            compression: self.compression,
        }
    }

    /// Sets the domain filter after checking that it is a valid regular
    /// expression; on refusal nothing changes.
    pub fn set_domain_filter(&mut self, domain_filter: Option<String>) -> (r: Result<
        (),
        regex::Error,
    >)
        ensures
            r is Ok <==> filter_valid(domain_filter),
            r is Ok ==> *final(self) == (Self { domain_filter, ..*old(self) }),
            r is Err ==> *final(self) == *old(self),
    {
        match check_filter(&domain_filter) {
            Ok(()) => {
                self.domain_filter = domain_filter;
                Ok(())
            },
            Err(e) => Err(e),
        }
    }

    /// Sets the message filter after checking that it is a valid regular
    /// expression; on refusal nothing changes.
    pub fn set_message_filter(&mut self, message_filter: Option<String>) -> (r: Result<
        (),
        regex::Error,
    >)
        ensures
            r is Ok <==> filter_valid(message_filter),
            r is Ok ==> *final(self) == (Self { message_filter, ..*old(self) }),
            r is Err ==> *final(self) == *old(self),
    {
        match check_filter(&message_filter) {
            Ok(()) => {
                self.message_filter = message_filter;
                Ok(())
            },
            Err(e) => Err(e),
        }
    }

    /// Changes the rotation settings; no compression means `Store`.
    pub fn set_rotate(
        &mut self,
        size: usize,
        backlog: usize,
        timeout: Option<std::time::Duration>,
        time: Option<std::time::SystemTime>,
        compression: Option<CompressionMethodEnum>,
    )
        ensures
            *final(self) == (FileWriterConfig {
                size,
                backlog,
                timeout,
                time,
                compression: match compression {
                    Some(c) => c,
                    None => CompressionMethodEnum::Store,
                },
                ..*old(self)
            }),
    {
        self.size = size;
        self.backlog = backlog;
        self.timeout = timeout;
        self.time = time;
        self.compression = match compression {
            Some(c) => c,
            None => CompressionMethodEnum::Store,
        };
    }
}

/// Whether the file is rotated now: only with a backlog, and when a
/// rotation is due or the file has grown beyond its size limit.
pub fn needs_rotation(backlog: usize, rotate_due: bool, max_size: usize, size: usize) -> (r: bool)
    ensures
        r == (backlog > 0 && (rotate_due || (max_size > 0 && size > max_size))),
{
    backlog > 0 && (rotate_due || (max_size > 0 && size > max_size))
}

/// The renames of backup files before a rotation, as pairs of backup
/// numbers (from, to): for a backlog of `b`, backup `b - 2` moves to `b - 1`,
/// then `b - 3` to `b - 2`, and so on down to backup 0 moving to 1.
pub fn rotation_renames(backlog: usize) -> (r: Vec<(usize, usize)>)
    ensures
        backlog == 0 ==> r@.len() == 0,
        backlog > 0 ==> r@.len() == backlog - 1,
        forall|i: int|
            0 <= i < r@.len() ==> #[trigger] r@[i] == ((backlog - i - 2) as usize, (backlog - i
                - 1) as usize),
{
    let mut r: Vec<(usize, usize)> = Vec::new();
    let mut num: usize = 1;
    while num < backlog
        invariant
            1 <= num,
            backlog > 0 ==> num <= backlog,
            backlog == 0 ==> r@.len() == 0,
            backlog > 0 ==> r@.len() == num - 1,
            forall|i: int|
                0 <= i < r@.len() ==> #[trigger] r@[i] == ((backlog - i - 2) as usize, (backlog
                    - i - 1) as usize),
        decreases backlog - num,
    {
        r.push((backlog - num - 1, backlog - num));
        num = num + 1;
    }
    r
}

} // verus!
