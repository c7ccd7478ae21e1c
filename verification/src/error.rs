//! The error type of the library and its numeric codes.

use vstd::prelude::*;

use crate::encryption::EncryptionMethod;
use crate::text::{dec, push_decimal, push_str};

verus! {

pub const EIO: i32 = 5;

pub const EINVAL: i32 = 22;

pub const EFAIL: i32 = 100;

#[derive(Debug)]
pub enum LoggingError {
    Io { kind: String, message: String },
    /// A failure to convert to an UTF-8 string.
    Utf8Error(String),
    SyslogError(String),
    RecvError(String),
    SendError(String),
    SendCmdError(String, String, String),
    RecvAswError(String, String, String),
    InvalidValue(String),
    InvalidEncryption(String, EncryptionMethod, String),
    JoinError(String, String),
    ConfigError(String),
    ArchiveError(String),
}

/// The numeric code of an error.
pub open spec fn error_code(e: LoggingError) -> i32 {
    match e {
        LoggingError::Io { .. } => EIO,
        LoggingError::Utf8Error(_) => EINVAL,
        LoggingError::SyslogError(_) => EFAIL,
        LoggingError::RecvError(_) => EFAIL,
        LoggingError::SendError(_) => EFAIL,
        LoggingError::SendCmdError(_, _, _) => EFAIL,
        LoggingError::RecvAswError(_, _, _) => EFAIL,
        LoggingError::InvalidValue(_) => EINVAL,
        LoggingError::InvalidEncryption(_, _, _) => EINVAL,
        LoggingError::JoinError(_, _) => EFAIL,
        LoggingError::ConfigError(_) => EINVAL,
        LoggingError::ArchiveError(_) => EFAIL,
    }
}

impl LoggingError {
    pub fn as_int(&self) -> (r: i32)
        ensures
            r == error_code(*self),
    {
        match self {
            LoggingError::Io { kind: _, message: _ } => EIO,
            LoggingError::Utf8Error(_) => EINVAL,
            LoggingError::SyslogError(_) => EFAIL,
            LoggingError::RecvError(_) => EFAIL,
            LoggingError::SendError(_) => EFAIL,
            LoggingError::SendCmdError(_, _, _) => EFAIL,
            LoggingError::RecvAswError(_, _, _) => EFAIL,
            LoggingError::InvalidValue(_) => EINVAL,
            LoggingError::InvalidEncryption(_, _, _) => EINVAL,
            LoggingError::JoinError(_, _) => EFAIL,
            LoggingError::ConfigError(_) => EINVAL,
            LoggingError::ArchiveError(_) => EFAIL,
        }
    }
}


/// The debug text of bytes: `[b0, b1, ...]`.
pub open spec fn bytes_debug(b: Seq<u8>) -> Seq<char> {
    "["@ + bytes_list(b) + "]"@
}

pub open spec fn bytes_list(b: Seq<u8>) -> Seq<char>
    decreases b.len(),
{
    if b.len() == 0 {
        Seq::empty()
    } else if b.len() == 1 {
        dec(b[0] as nat)
    } else {
        bytes_list(b.drop_last()) + ", "@ + dec(b.last() as nat)
    }
}

/// The debug text of a key: its kind, and its bytes.
pub open spec fn key_debug(k: EncryptionMethod) -> Seq<char> {
    match k {
        EncryptionMethod::NONE => "NONE"@,
        EncryptionMethod::AuthKey(b) => "AuthKey("@ + bytes_debug(b@) + ")"@,
        EncryptionMethod::AES(b) => "AES("@ + bytes_debug(b@) + ")"@,
    }
}

/// The text of an error.
pub open spec fn error_text(e: LoggingError) -> Seq<char> {
    match e {
        LoggingError::Io { kind, message } => "I/O error ("@ + kind@ + "): "@ + message@,
        LoggingError::Utf8Error(m) => m@,
        LoggingError::SyslogError(m) => m@,
        LoggingError::RecvError(m) => m@,
        LoggingError::SendError(m) => m@,
        LoggingError::SendCmdError(w, c, m) => w@ + ": Failed to send "@ + c@ + " command: "@ + m@,
        LoggingError::RecvAswError(w, c, m) => w@ + ": Failed to receive "@ + c@ + " answer: "@ + m@,
        LoggingError::InvalidValue(m) => m@,
        LoggingError::InvalidEncryption(w, k, m) => w@ + ": Invalid encryption "@ + key_debug(k)
            + ": "@ + m@,
        LoggingError::JoinError(w, m) => w@ + ": "@ + m@,
        LoggingError::ConfigError(m) => m@,
        LoggingError::ArchiveError(m) => m@,
    }
}

fn push_bytes_debug(s: &mut String, b: &[u8])
    ensures
        final(s)@ == old(s)@ + bytes_debug(b@),
{
    push_str(s, "[");
    let ghost head = s@;
    let mut i: usize = 0;
    while i < b.len()
        invariant
            i <= b@.len(),
            s@ == head + bytes_list(b@.subrange(0, i as int)),
        decreases b@.len() - i,
    {
        if i > 0 {
            push_str(s, ", ");
        }
        push_decimal(s, b[i] as u64);
        proof {
            let sub = b@.subrange(0, i + 1);
            assert(sub.drop_last() =~= b@.subrange(0, i as int));
            if i == 0 {
                assert(b@.subrange(0, 0) =~= Seq::<u8>::empty());
            }
        }
        i = i + 1;
        assert(s@ =~= head + bytes_list(b@.subrange(0, i as int)));
    }
    push_str(s, "]");
    assert(b@.subrange(0, i as int) =~= b@);
    assert(s@ =~= old(s)@ + bytes_debug(b@));
}

fn push_key_debug(s: &mut String, k: &EncryptionMethod)
    ensures
        final(s)@ == old(s)@ + key_debug(*k),
{
    match k {
        EncryptionMethod::NONE => push_str(s, "NONE"),
        EncryptionMethod::AuthKey(b) => {
            push_str(s, "AuthKey(");
            push_bytes_debug(s, b.as_slice());
            push_str(s, ")");
        },
        EncryptionMethod::AES(b) => {
            push_str(s, "AES(");
            push_bytes_debug(s, b.as_slice());
            push_str(s, ")");
        },
    }
    assert(final(s)@ =~= old(s)@ + key_debug(*k));
}

impl LoggingError {
    /// The text of the error.
    pub fn to_string(&self) -> (r: String)
        ensures
            r@ == error_text(*self),
    {
        let mut s = String::new();
        match self {
            LoggingError::Io { kind, message } => {
                push_str(&mut s, "I/O error (");
                push_str(&mut s, kind.as_str());
                push_str(&mut s, "): ");
                push_str(&mut s, message.as_str());
            },
            LoggingError::SendCmdError(w, c, m) => {
                push_str(&mut s, w.as_str());
                push_str(&mut s, ": Failed to send ");
                push_str(&mut s, c.as_str());
                push_str(&mut s, " command: ");
                push_str(&mut s, m.as_str());
            },
            LoggingError::RecvAswError(w, c, m) => {
                push_str(&mut s, w.as_str());
                push_str(&mut s, ": Failed to receive ");
                push_str(&mut s, c.as_str());
                push_str(&mut s, " answer: ");
                push_str(&mut s, m.as_str());
            },
            LoggingError::InvalidEncryption(w, k, m) => {
                push_str(&mut s, w.as_str());
                push_str(&mut s, ": Invalid encryption ");
                push_key_debug(&mut s, k);
                push_str(&mut s, ": ");
                push_str(&mut s, m.as_str());
            },
            LoggingError::JoinError(w, m) => {
                push_str(&mut s, w.as_str());
                push_str(&mut s, ": ");
                push_str(&mut s, m.as_str());
            },
            LoggingError::Utf8Error(m) => push_str(&mut s, m.as_str()),
            LoggingError::SyslogError(m) => push_str(&mut s, m.as_str()),
            LoggingError::RecvError(m) => push_str(&mut s, m.as_str()),
            LoggingError::SendError(m) => push_str(&mut s, m.as_str()),
            LoggingError::InvalidValue(m) => push_str(&mut s, m.as_str()),
            LoggingError::ConfigError(m) => push_str(&mut s, m.as_str()),
            LoggingError::ArchiveError(m) => push_str(&mut s, m.as_str()),
        }
        assert(s@ =~= error_text(*self));
        s
    }
}
} // verus!
