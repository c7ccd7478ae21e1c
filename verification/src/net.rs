//! Network writers: client and server settings, addresses, the resolution of
//! their keys, and the port file of a logging server.

use vstd::prelude::*;

use crate::encryption::{
    aes_key_check, aes_key_valid, clone_bytes, key_bytes, method_bytes, method_from_bytes,
    EncryptionMethod,
};
use crate::error::LoggingError;
use crate::filter::check_filter;
use crate::filter::filter_valid;
use crate::text::{
    after_last, before_first, contains_char, dec, parse_u16, parse_u16_spec, push_decimal,
    push_str, text_after_last, text_before_first,
};

verus! {

/// What reaches the client writer: a message (level, domain, message), a
/// request to confirm that what came before is sent, or the end.
#[derive(Debug)]
pub enum ClientTypeEnum {
    Message((u8, String, String)),
    Sync,
    Stop,
}

/// Whether the port part of an address is usable: an address without `:`
/// has none; otherwise the text after the last `:` must be a `u16`.
pub open spec fn port_text_valid(address: Seq<char>) -> bool {
    address.contains(':') ==> parse_u16_spec(after_last(address, ':')) is Some
}

/// The port an address names: the number after its last `:`, or 0.
pub open spec fn address_port(address: Seq<char>) -> u16 {
    if address.contains(':') {
        parse_u16_spec(after_last(address, ':'))->0
    } else {
        0
    }
}

/// `address:port`.
pub open spec fn join_address_port(address: Seq<char>, port: u16) -> Seq<char> {
    address + ":"@ + dec(port as nat)
}

/// The address and port text that a writer is reached at: when the address
/// holds no port, the port is added.
pub open spec fn connect_address(address: Seq<char>, port: u16) -> Seq<char> {
    if address.contains(':') {
        address
    } else {
        join_address_port(address, port)
    }
}

/// `address:port` when the port is set, else the address alone.
pub open spec fn address_with_port(address: Seq<char>, port: u16) -> Seq<char> {
    if port > 0 {
        join_address_port(address, port)
    } else {
        address
    }
}

fn address_with_port_exec(address: &String, port: u16) -> (r: String)
    ensures
        r@ == address_with_port(address@, port),
{
    if port > 0 {
        let mut r = address.clone();
        push_str(&mut r, ":");
        push_decimal(&mut r, port as u64);
        r
    } else {
        address.clone()
    }
}

fn connect_address_exec(address: &String, port: u16) -> (r: String)
    ensures
        r@ == connect_address(address@, port),
{
    if contains_char(address.as_str(), ':') {
        address.clone()
    } else {
        let mut r = address.clone();
        push_str(&mut r, ":");
        push_decimal(&mut r, port as u64);
        r
    }
}

/// Settings of a client writer, which sends messages to a logging server.
#[derive(Debug)]
pub struct ClientWriterConfig {
    /// Only send log messages if enabled is true.
    pub enabled: bool,
    /// Log level for filtering log messages.
    pub level: u8,
    /// Optional filter of log messages by domain.
    pub domain_filter: Option<String>,
    /// Optional filter of log messages by their contents.
    pub message_filter: Option<String>,
    /// Address to connect to and send log messages to.
    pub address: String,
    /// Port.
    pub port: u16,
    /// Key for authentication and message encryption.
    pub key: EncryptionMethod,
    /// Debug level. Only for developers.
    pub debug: u8,
}

impl ClientWriterConfig {
    /// Whether two configurations agree in every setting, keys compared by
    /// their bytes.
    pub open spec fn same_as(self, o: Self) -> bool {
        &&& self.enabled == o.enabled
        &&& self.level == o.level
        &&& self.domain_filter == o.domain_filter
        &&& self.message_filter == o.message_filter
        &&& self.address == o.address
        &&& self.port == o.port
        &&& self.key@ == o.key@
        &&& self.debug == o.debug
    }

    /// A client writer configuration. An address of the form `host:port`
    /// keeps the whole text as address and takes the port from it.
    pub fn new(level: u8, address: &str, key: EncryptionMethod) -> (r: Self)
        requires
            port_text_valid(address@),
        ensures
            r.enabled,
            r.level == level,
            r.domain_filter is None,
            r.message_filter is None,
            r.address@ == address@,
            r.port == address_port(address@),
            r.key == key,
            r.debug == 0,
    {
        let port = if contains_char(address, ':') {
            let p = parse_u16(text_after_last(address, ':').as_str());
            p.unwrap()
        } else {
            0
        };
        Self {
            enabled: true,
            level,
            domain_filter: None,
            message_filter: None,
            address: address.to_string(),
            port,
            key,
            debug: 0,
        }
    }

    pub fn duplicate(&self) -> (r: Self)
        ensures
            r.same_as(*self),
    {
        Self {
            enabled: self.enabled,
            level: self.level,
            domain_filter: crate::def::clone_opt_string(&self.domain_filter),
            message_filter: crate::def::clone_opt_string(&self.message_filter),
            address: self.address.clone(),
            port: self.port,
            key: self.key.duplicate(),
            debug: self.debug,
        }
    }

    /// `address:port` when the port is set, else the address.
    pub fn get_address_port(&self) -> (r: String)
        ensures
            r@ == address_with_port(self.address@, self.port),
    {
        address_with_port_exec(&self.address, self.port)
    }

    /// The address the client connects to.
    pub fn get_address(&self) -> (r: String)
        ensures
            r@ == connect_address(self.address@, self.port),
    {
        connect_address_exec(&self.address, self.port)
    }

    /// Sets the domain filter after checking that it is a valid regular
    /// expression; on refusal nothing changes.
    pub fn set_domain_filter(&mut self, domain_filter: Option<String>) -> (r: Result<
        (),
        regex::Error,
    >)
        ensures
            r is Ok <==> filter_valid(domain_filter),
            r is Ok ==> *final(self) == (Self { domain_filter, ..*old(self) }),
            r is Err ==> *final(self) == *old(self),
    {
        match check_filter(&domain_filter) {
            Ok(()) => {
                self.domain_filter = domain_filter;
                Ok(())
            },
            Err(e) => Err(e),
        }
    }

    /// Sets the message filter after checking that it is a valid regular
    /// expression; on refusal nothing changes.
    pub fn set_message_filter(&mut self, message_filter: Option<String>) -> (r: Result<
        (),
        regex::Error,
    >)
        ensures
            r is Ok <==> filter_valid(message_filter),
            r is Ok ==> *final(self) == (Self { message_filter, ..*old(self) }),
            r is Err ==> *final(self) == *old(self),
    {
        match check_filter(&message_filter) {
            Ok(()) => {
                self.message_filter = message_filter;
                Ok(())
            },
            Err(e) => Err(e),
        }
    }
}

/// Settings of a logging server, which receives messages from clients.
#[derive(Debug)]
pub struct ServerConfig {
    pub level: u8,
    pub address: String,
    pub port: u16,
    pub key: EncryptionMethod,
    pub port_file: Option<String>,
}

impl ServerConfig {
    /// Whether two configurations agree in every setting, keys compared by
    /// their bytes.
    pub open spec fn same_as(self, o: Self) -> bool {
        &&& self.level == o.level
        &&& self.address == o.address
        &&& self.port == o.port
        &&& self.key@ == o.key@
        &&& self.port_file == o.port_file
    }

    /// A server configuration. An address of the form `host:port` is split
    /// into host (the text before the first `:`) and port (the number after
    /// the last `:`); without a port, or with port 0, the operating system
    /// chooses the port.
    pub fn new(level: u8, address: &str, key: EncryptionMethod) -> (r: Self)
        requires
            port_text_valid(address@),
        ensures
            r.level == level,
            r.address@ == if address@.contains(':') {
                before_first(address@, ':')
            } else {
                address@
            },
            r.port == address_port(address@),
            r.key == key,
            r.port_file is None,
    {
        let (host, port) = if contains_char(address, ':') {
            let p = parse_u16(text_after_last(address, ':').as_str());
            (text_before_first(address, ':'), p.unwrap())
        } else {
            (address.to_string(), 0)
        };
        Self { level, address: host, port, key, port_file: None }
    }

    pub fn duplicate(&self) -> (r: Self)
        ensures
            r.same_as(*self),
    {
        Self {
            level: self.level,
            address: self.address.clone(),
            port: self.port,
            key: self.key.duplicate(),
            port_file: crate::def::clone_opt_string(&self.port_file),
        }
    }

    /// `address:port` when the port is set, else the address.
    pub fn get_address_port(&self) -> (r: String)
        ensures
            r@ == address_with_port(self.address@, self.port),
    {
        address_with_port_exec(&self.address, self.port)
    }

    /// The address the server listens on.
    pub fn get_address(&self) -> (r: String)
        ensures
            r@ == connect_address(self.address@, self.port),
    {
        connect_address_exec(&self.address, self.port)
    }
}

/// Whether `r` is what a network writer uses for the configured `key`: no
/// key means the authentication key `auth_key`, any other key stays.
pub open spec fn resolves_to(key: EncryptionMethod, auth_key: Seq<u8>, r: EncryptionMethod) -> bool {
    match key {
        EncryptionMethod::NONE => r@ == crate::encryption::KeyModel::AuthKey(auth_key),
        _ => r@ == key@,
    }
}

pub open spec fn key_accepted(key: EncryptionMethod) -> bool {
    match key {
        EncryptionMethod::AES(k) => aes_key_valid(k@),
        _ => true,
    }
}

/// Resolves the key of a network writer. No key becomes the authentication
/// key `auth_key`; an AES key that `ring` refuses is an error naming
/// `writer`, the key and `ring`'s reason.
pub fn resolve_key(writer: &str, key: EncryptionMethod, auth_key: &[u8]) -> (r: Result<
    EncryptionMethod,
    LoggingError,
>)
    ensures
        r is Ok <==> key_accepted(key),
        r matches Ok(k) ==> resolves_to(key, auth_key@, k),
        r matches Err(e) ==> e matches LoggingError::InvalidEncryption(w, k, m) && w@ == writer@
            && k@ == key@ && m@ == "ring::error::Unspecified"@,
{
    match key {
        EncryptionMethod::NONE => {
            let k = crate::encryption::slice_to_vec(auth_key);
            Ok(EncryptionMethod::AuthKey(k))
        },
        EncryptionMethod::AuthKey(k) => Ok(EncryptionMethod::AuthKey(k)),
        EncryptionMethod::AES(k) => {
            match aes_key_check(k.as_slice()) {
                Ok(()) => Ok(EncryptionMethod::AES(k)),
                Err(reason) => Err(
                    LoggingError::InvalidEncryption(writer.to_string(), EncryptionMethod::AES(k), reason),
                ),
            }
        },
    }
}

/// The bytes of a server's port file: the port in little-endian order, then
/// the server's key method and key.
pub open spec fn port_file_bytes_spec(port: u16, key: EncryptionMethod) -> Seq<u8> {
    seq![(port % 256) as u8, (port / 256) as u8] + method_bytes(key)
}

pub fn port_file_bytes(port: u16, key: &EncryptionMethod) -> (r: Vec<u8>)
    ensures
        r@ == port_file_bytes_spec(port, *key),
{
    let mut r: Vec<u8> = Vec::new();
    r.push((port % 256) as u8);
    r.push((port / 256) as u8);
    let m = key.to_bytes();
    let mut i: usize = 0;
    while i < m.len()
        invariant
            i <= m@.len(),
            m@ == method_bytes(*key),
            r@ == seq![(port % 256) as u8, (port / 256) as u8] + m@.subrange(0, i as int),
        decreases m@.len() - i,
    {
        r.push(m[i]);
        i = i + 1;
        assert(r@ =~= seq![(port % 256) as u8, (port / 256) as u8] + m@.subrange(0, i as int));
    }
    assert(m@.subrange(0, i as int) =~= m@);
    r
}

/// The address of a parent's logging server on the local host.
pub open spec fn local_address(port: u16) -> Seq<char> {
    "127.0.0.1:"@ + dec(port as nat)
}

/// The text of the error for an unknown key method in a port file.
pub open spec fn invalid_method_text(code: u8) -> Seq<char> {
    "Invalid encryption type "@ + dec(code as nat)
}

/// Whether `r` is what reading the port file `b` gives: at least four bytes
/// give the address of the parent's server and its key method and key;
/// fewer bytes mean that there is none; an unknown method is an error.
pub open spec fn port_file_read(b: Seq<u8>, r: Result<Option<(String, EncryptionMethod)>, LoggingError>) -> bool {
    &&& b.len() < 4 ==> r == Ok::<Option<(String, EncryptionMethod)>, LoggingError>(None)
    &&& b.len() >= 4 && b[2] > 2 ==> (r matches Err(LoggingError::InvalidValue(m)) && m@
        == invalid_method_text(b[2]))
    &&& b.len() >= 4 && b[2] <= 2 ==> (r matches Ok(Some((a, k))) && a@ == local_address(
        (b[0] + 256 * b[1]) as u16,
    ) && crate::encryption::method_code(k) == b[2] && (b[2] != 0 ==> key_bytes(k)
        == b.subrange(3, b.len() as int)))
}

/// Reads a parent's port file.
pub fn parse_port_file(b: &[u8]) -> (r: Result<Option<(String, EncryptionMethod)>, LoggingError>)
    ensures
        port_file_read(b@, r),
{
    if b.len() < 4 {
        return Ok(None);
    }
    let port: u16 = (b[0] as u16) + 256 * (b[1] as u16);
    let rest = slice_from(b, 2);
    match method_from_bytes(rest.as_slice()) {
        Ok(m) => {
            assert(rest@.drop_first() =~= b@.subrange(3, b@.len() as int));
            let mut a = "127.0.0.1:".to_string();
            push_decimal(&mut a, port as u64);
            Ok(Some((a, m)))
        },
        Err(code) => {
            let mut t = "Invalid encryption type ".to_string();
            push_decimal(&mut t, code as u64);
            Err(LoggingError::InvalidValue(t))
        },
    }
}

fn slice_from(b: &[u8], start: usize) -> (r: Vec<u8>)
    requires
        start <= b@.len(),
    ensures
        r@ == b@.subrange(start as int, b@.len() as int),
{
    let mut r: Vec<u8> = Vec::new();
    let mut i: usize = start;
    while i < b.len()
        invariant
            start <= i <= b@.len(),
            r@ == b@.subrange(start as int, i as int),
        decreases b@.len() - i,
    {
        r.push(b[i]);
        i = i + 1;
        assert(r@ =~= b@.subrange(start as int, i as int));
    }
    r
}

} // verus!
