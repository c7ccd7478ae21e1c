//! The wire format between client writers and logging servers.
//!
//! Every frame starts with four header bytes: the payload size in
//! little-endian order, the message level and the length of the domain.
//! A plain connection opens with an authentication frame that carries the
//! shared key; an encrypted connection seals domain and message with
//! AES-256-GCM under nonces that both ends advance in step.

use vstd::prelude::*;

use crate::def::LoggingTypeEnum;
use crate::encryption::{
    aes_gcm_open, aes_gcm_seal, aes_key_valid, aes_open, aes_seal, key_bytes, nonce_bytes,
    EncryptionMethod, NonceGenerator,
};
use crate::error::LoggingError;
use crate::message::{remote_message, remote_message_spec};
use crate::text::{dec, push_decimal, push_str, text_bytes, utf8_string};

verus! {

/// Largest payload a server reads in one frame.
pub const FRAME_SIZE_MAX: usize = 4352;

/// Size field that asks a server to stop.
pub const STOP_SERVER_SIZE: usize = 0xffff;

/// Size field that asks a server to close the connection.
pub const CLOSE_CLIENT_SIZE: usize = 0xfffe;

/// The four header bytes: the size in little-endian order (its low 16
/// bits), the level, and the low byte of the domain length.
pub open spec fn header(size: nat, level: u8, domain_len: nat) -> Seq<u8> {
    seq![(size % 256) as u8, ((size / 256) % 256) as u8, level, (domain_len % 256) as u8]
}

/// The frame that authenticates a plain connection: the key length, then
/// the key.
pub open spec fn auth_frame_spec(key: Seq<u8>) -> Seq<u8> {
    header(key.len(), 0, 0) + key
}

/// A plain message frame: header, domain bytes, message bytes.
pub open spec fn message_frame_spec(level: u8, domain: Seq<u8>, message: Seq<u8>) -> Seq<u8> {
    header(message.len(), level, domain.len()) + domain + message
}

/// The additional data sealed frames are bound to.
pub open spec fn seal_aad() -> Seq<u8> {
    vstd::utf8::encode_utf8("FastLoggingRs"@)
}

/// A sealed message frame: the domain sealed under the nonce of counter
/// `c1`, the message under that of `c2`.
pub open spec fn sealed_frame_spec(
    key: Seq<u8>,
    c1: u64,
    c2: u64,
    level: u8,
    domain: Seq<u8>,
    message: Seq<u8>,
) -> Seq<u8> {
    let d = aes_gcm_seal(key, nonce_bytes(c1), seal_aad(), domain);
    let m = aes_gcm_seal(key, nonce_bytes(c2), seal_aad(), message);
    header(m.len(), level, d.len()) + d + m
}

fn push_header(v: &mut Vec<u8>, size: usize, level: u8, domain_len: usize)
    ensures
        final(v)@ == old(v)@ + header(size as nat, level, domain_len as nat),
{
    v.push((size % 256) as u8);
    v.push(((size / 256) % 256) as u8);
    v.push(level);
    v.push((domain_len % 256) as u8);
    assert(final(v)@ =~= old(v)@ + header(size as nat, level, domain_len as nat));
}

fn append_bytes(v: &mut Vec<u8>, b: &[u8])
    ensures
        final(v)@ == old(v)@ + b@,
{
    let mut i: usize = 0;
    while i < b.len()
        invariant
            i <= b@.len(),
            v@ == old(v)@ + b@.subrange(0, i as int),
        decreases b@.len() - i,
    {
        v.push(b[i]);
        i = i + 1;
        assert(v@ =~= old(v)@ + b@.subrange(0, i as int));
    }
    assert(b@.subrange(0, i as int) =~= b@);
}

/// The authentication frame for `key`.
pub fn auth_frame(key: &[u8]) -> (r: Vec<u8>)
    ensures
        r@ == auth_frame_spec(key@),
{
    let mut v: Vec<u8> = Vec::new();
    push_header(&mut v, key.len(), 0, 0);
    append_bytes(&mut v, key);
    assert(v@ =~= auth_frame_spec(key@));
    v
}

/// The plain frame of a message of `level` in `domain`.
pub fn message_frame(level: u8, domain: &str, message: &str) -> (r: Vec<u8>)
    ensures
        r@ == message_frame_spec(
            level,
            vstd::utf8::encode_utf8(domain@),
            vstd::utf8::encode_utf8(message@),
        ),
{
    let d = text_bytes(domain);
    let m = text_bytes(message);
    let mut v: Vec<u8> = Vec::new();
    push_header(&mut v, m.len(), level, d.len());
    append_bytes(&mut v, d.as_slice());
    append_bytes(&mut v, m.as_slice());
    assert(v@ =~= message_frame_spec(level, d@, m@));
    v
}

/// The error `ring` reports for a failed sealing or opening.
pub open spec fn crypto_error(e: LoggingError) -> bool {
    e matches LoggingError::Io { kind, message } && kind@ == "other error"@ && message@
        == "ring::error::Unspecified"@
}

fn crypto_failure() -> (e: LoggingError)
    ensures
        crypto_error(e),
{
    LoggingError::Io {
        kind: "other error".to_string(),
        message: "ring::error::Unspecified".to_string(),
    }
}

/// Whether the two sealed parts of frame `f` open, under the nonces of
/// counters `2 * c0 + 1` and `4 * c0 + 3`, to `domain` and `message`, the
/// sealing of each being 16 bytes longer than what it seals.
pub open spec fn sealed_parts_open(key: Seq<u8>, c0: u64, domain: Seq<u8>, message: Seq<u8>, f: Seq<u8>) -> bool {
    let dl: int = domain.len() + 16int;
    &&& f.len() == 4 + dl + message.len() + 16
    &&& aes_gcm_seal(key, nonce_bytes((2 * c0 + 1) as u64), seal_aad(), domain).len() == dl
    &&& aes_gcm_seal(key, nonce_bytes((4 * c0 + 3) as u64), seal_aad(), message).len()
        == message.len() + 16
    &&& aes_gcm_open(key, nonce_bytes((2 * c0 + 1) as u64), seal_aad(), f.subrange(4, 4 + dl))
        == Some(domain)
    &&& aes_gcm_open(key, nonce_bytes((4 * c0 + 3) as u64), seal_aad(), f.subrange(4 + dl, f.len() as int))
        == Some(message)
}

/// The sending end of a connection to a logging server.
pub struct ClientSession {
    pub key: EncryptionMethod,
    pub nonces: NonceGenerator,
}

impl ClientSession {
    /// A session with a resolved key and a fresh nonce sequence.
    pub fn new(key: EncryptionMethod) -> (r: Self)
        ensures
            r.key@ == key@,
            r.nonces.counter() == 0,
    {
        ClientSession { key, nonces: NonceGenerator::new() }
    }

    /// What the client sends first: the authentication frame on a plain
    /// connection, nothing on an encrypted one.
    pub fn handshake(&self) -> (r: Option<Vec<u8>>)
        ensures
            self.key is AES ==> r is None,
            !(self.key is AES) ==> (r matches Some(f) && f@ == auth_frame_spec(key_bytes(self.key))),
    {
        match &self.key {
            EncryptionMethod::AES(_) => None,
            EncryptionMethod::AuthKey(k) => Some(auth_frame(k.as_slice())),
            EncryptionMethod::NONE => Some(auth_frame(&[])),
        }
    }

    /// The frame for a message. On an encrypted connection domain and
    /// message are sealed with the next two nonces; a key that is not an
    /// AES-256 key, an exhausted nonce sequence or data beyond what one
    /// sealing takes is `ring`'s error.
    pub fn frame(&mut self, level: u8, domain: &str, message: &str) -> (r: Result<
        Vec<u8>,
        LoggingError,
    >)
        ensures
            final(self).key == old(self).key,
            !(old(self).key is AES) ==> final(self).nonces == old(self).nonces && (r matches Ok(f)
                && f@ == message_frame_spec(
                level,
                vstd::utf8::encode_utf8(domain@),
                vstd::utf8::encode_utf8(message@),
            )),
            old(self).key is AES ==> {
                let k = key_bytes(old(self).key);
                let c0 = old(self).nonces.counter();
                let d = vstd::utf8::encode_utf8(domain@);
                let m = vstd::utf8::encode_utf8(message@);
                if aes_key_valid(k) && c0 < 0x7fff_ffff_ffff_ffff && d.len() <= 0xffff_ffff
                    && m.len() <= 0xffff_ffff {
                    &&& final(self).nonces.counter() == 4 * c0 + 3
                    &&& r matches Ok(f) && f@ == sealed_frame_spec(
                        k,
                        (2 * c0 + 1) as u64,
                        (4 * c0 + 3) as u64,
                        level,
                        d,
                        m,
                    ) && sealed_parts_open(k, c0, d, m, f@)
                } else {
                    r matches Err(e) && crypto_error(e)
                }
            },
    {
        match &self.key {
            EncryptionMethod::AES(k) => {
                let d = text_bytes(domain);
                let m = text_bytes(message);
                if k.len() != 32 || d.len() > 0xffff_ffff || m.len() > 0xffff_ffff {
                    return Err(crypto_failure());
                }
                let c0 = self.nonces.last_nonce();
                if c0 >= 0x7fff_ffff_ffff_ffff {
                    return Err(crypto_failure());
                }
                let n1 = match self.nonces.advance() {
                    Some(n) => n,
                    None => {
                        return Err(crypto_failure());
                    },
                };
                let n2 = match self.nonces.advance() {
                    Some(n) => n,
                    None => {
                        return Err(crypto_failure());
                    },
                };
                let aad = text_bytes("FastLoggingRs");
                let sd = aes_seal(k.as_slice(), n1.as_slice(), aad.as_slice(), d.as_slice());
                let sm = aes_seal(k.as_slice(), n2.as_slice(), aad.as_slice(), m.as_slice());
                let mut v: Vec<u8> = Vec::new();
                push_header(&mut v, sm.len(), level, sd.len());
                append_bytes(&mut v, sd.as_slice());
                append_bytes(&mut v, sm.as_slice());
                assert(v@.subrange(4, 4 + sd@.len() as int) =~= sd@);
                assert(v@.subrange(4 + sd@.len() as int, v@.len() as int) =~= sm@);
                assert(v@ =~= sealed_frame_spec(
                    k@,
                    (2 * c0 + 1) as u64,
                    (4 * c0 + 3) as u64,
                    level,
                    d@,
                    m@,
                ));
                Ok(v)
            },
            _ => Ok(message_frame(level, domain, message)),
        }
    }
}


/// The payload size a header announces.
pub open spec fn header_size(h: Seq<u8>) -> nat {
    h[0] as nat + 256 * (h[1] as nat)
}

/// The text of the error for an announced size the server refuses.
pub open spec fn too_big_text(size: nat) -> Seq<char> {
    "Receive size "@ + dec(size) + " is too big"@
}

/// What the server reads after a frame header.
#[derive(Debug, PartialEq, Eq, Structural)]
pub enum HeaderAction {
    /// The authentication key, of this many bytes.
    ReadAuthKey(usize),
    /// The domain, then the message.
    ReadMessage { size: usize, level: u8, domain_len: usize },
    /// Nothing: the peer closes this connection.
    CloseClient,
    /// Nothing: the peer asks the server to stop.
    StopServer,
}

/// The receiving end of a connection, in a logging server.
pub struct ServerSession {
    /// The server's resolved key.
    pub key: EncryptionMethod,
    /// The level from which on messages are handed on.
    pub level: u8,
    /// Whether a plain connection has shown the key.
    pub authenticated: bool,
    pub nonces: NonceGenerator,
}

impl ServerSession {
    /// A new connection: not authenticated, with a fresh nonce sequence.
    pub fn new(key: EncryptionMethod, level: u8) -> (r: Self)
        ensures
            r.key@ == key@,
            r.level == level,
            !r.authenticated,
            r.nonces.counter() == 0,
    {
        ServerSession { key, level, authenticated: false, nonces: NonceGenerator::new() }
    }

    pub open spec fn encrypted(self) -> bool {
        self.key is AES
    }

    /// What a header asks for. A size above [`FRAME_SIZE_MAX`] is refused,
    /// except the two sizes that close the connection or stop the server; an
    /// encrypted connection knows only the stop request.
    pub fn on_header(&self, h: &[u8]) -> (r: Result<HeaderAction, LoggingError>)
        requires
            h@.len() == 4,
        ensures
            header_read(*self, h@, r),
    {
        let size: usize = (h[0] as usize) + 256 * (h[1] as usize);
        let encrypted = match &self.key {
            EncryptionMethod::AES(_) => true,
            _ => false,
        };
        if size > FRAME_SIZE_MAX {
            if size == STOP_SERVER_SIZE {
                Ok(HeaderAction::StopServer)
            } else if size == CLOSE_CLIENT_SIZE && !encrypted {
                Ok(HeaderAction::CloseClient)
            } else {
                let mut m = "Receive size ".to_string();
                push_decimal(&mut m, size as u64);
                push_str(&mut m, " is too big");
                Err(LoggingError::RecvError(m))
            }
        } else if !encrypted && !self.authenticated {
            Ok(HeaderAction::ReadAuthKey(size))
        } else {
            Ok(HeaderAction::ReadMessage { size, level: h[2], domain_len: h[3] as usize })
        }
    }

    /// Checks the key a plain connection shows; the connection is
    /// authenticated when it is the server's key.
    pub fn on_auth_key(&mut self, received: &[u8]) -> (r: Result<(), LoggingError>)
        ensures
            auth_read(*old(self), *final(self), received@, r),
    {
        let same = match &self.key {
            EncryptionMethod::NONE => {
                assert(received@.len() == 0 ==> received@ =~= Seq::<u8>::empty());
                received.len() == 0
            },
            EncryptionMethod::AuthKey(k) => bytes_eq(k.as_slice(), received),
            EncryptionMethod::AES(k) => bytes_eq(k.as_slice(), received),
        };
        if same {
            self.authenticated = true;
            Ok(())
        } else {
            Err(LoggingError::RecvError("Invalid auth key".to_string()))
        }
    }

    /// Takes the domain and message bytes of a message frame from `peer`.
    /// On an encrypted connection both are opened with the next two nonces,
    /// whatever the level; a failed opening is `ring`'s error. A message
    /// from the session's level on is handed on as a remote message whose
    /// text is prefixed with the peer's address; others are dropped. Bytes
    /// that are not UTF-8 are an error.
    pub fn on_message(&mut self, level: u8, domain: &[u8], message: &[u8], peer: &str) -> (r:
        Result<Option<LoggingTypeEnum>, LoggingError>)
        ensures
            message_read(*old(self), *final(self), level, domain@, message@, peer@, r),
    {
        let (d, m) = match &self.key {
            EncryptionMethod::AES(k) => {
                if k.len() != 32 {
                    return Err(crypto_failure());
                }
                let c0 = self.nonces.last_nonce();
                if c0 >= 0x7fff_ffff_ffff_ffff {
                    return Err(crypto_failure());
                }
                let n1 = match self.nonces.advance() {
                    Some(n) => n,
                    None => {
                        return Err(crypto_failure());
                    },
                };
                let n2 = match self.nonces.advance() {
                    Some(n) => n,
                    None => {
                        return Err(crypto_failure());
                    },
                };
                let aad = text_bytes("FastLoggingRs");
                let d = aes_open(k.as_slice(), n1.as_slice(), aad.as_slice(), domain);
                let m = aes_open(k.as_slice(), n2.as_slice(), aad.as_slice(), message);
                match (d, m) {
                    (Some(d), Some(m)) => (d, m),
                    _ => {
                        return Err(crypto_failure());
                    },
                }
            },
            _ => (crate::encryption::slice_to_vec(domain), crate::encryption::slice_to_vec(message)),
        };
        if level < self.level {
            return Ok(None);
        }
        let dt = match utf8_string(d.as_slice()) {
            Some(t) => t,
            None => {
                return Err(utf8_failure());
            },
        };
        let mt = match utf8_string(m.as_slice()) {
            Some(t) => t,
            None => {
                return Err(utf8_failure());
            },
        };
        let text = remote_message(peer, mt.as_str());
        Ok(Some(LoggingTypeEnum::MessageRemote((level, dt, text))))
    }
}

/// Whether `r` is what reading the header `h` on session `s` gives.
pub open spec fn header_read(s: ServerSession, h: Seq<u8>, r: Result<HeaderAction, LoggingError>) -> bool {
    let size = header_size(h);
    if size > FRAME_SIZE_MAX {
        if size == STOP_SERVER_SIZE {
            r == Ok::<HeaderAction, LoggingError>(HeaderAction::StopServer)
        } else if size == CLOSE_CLIENT_SIZE && !s.encrypted() {
            r == Ok::<HeaderAction, LoggingError>(HeaderAction::CloseClient)
        } else {
            r matches Err(LoggingError::RecvError(m)) && m@ == too_big_text(size)
        }
    } else if !s.encrypted() && !s.authenticated {
        r == Ok::<HeaderAction, LoggingError>(HeaderAction::ReadAuthKey(size as usize))
    } else {
        r == Ok::<HeaderAction, LoggingError>(
            HeaderAction::ReadMessage { size: size as usize, level: h[2], domain_len: h[3] as usize },
        )
    }
}

/// Whether session `a` became `b` and gave `r` checking the key bytes
/// `received`: the connection is authenticated when they are the server's
/// key, else the key is refused.
pub open spec fn auth_read(a: ServerSession, b: ServerSession, received: Seq<u8>, r: Result<(), LoggingError>) -> bool {
    &&& b.key == a.key
    &&& b.level == a.level
    &&& b.nonces == a.nonces
    &&& received == key_bytes(a.key) ==> r is Ok && b.authenticated
    &&& received != key_bytes(a.key) ==> (r matches Err(LoggingError::RecvError(m)) && m@
        == "Invalid auth key"@) && b.authenticated == a.authenticated
}

/// Whether session `a` became `b` and gave `r` taking the domain bytes
/// `domain` and message bytes `message` of a frame of `level` from `peer`.
pub open spec fn message_read(
    a: ServerSession,
    b: ServerSession,
    level: u8,
    domain: Seq<u8>,
    message: Seq<u8>,
    peer: Seq<char>,
    r: Result<Option<LoggingTypeEnum>, LoggingError>,
) -> bool {
    &&& b.key == a.key
    &&& b.level == a.level
    &&& b.authenticated == a.authenticated
    &&& !a.encrypted() ==> b.nonces == a.nonces && delivered(
        r,
        level,
        a.level,
        Some(domain),
        Some(message),
        peer,
    )
    &&& a.encrypted() ==> {
        let k = key_bytes(a.key);
        let c0 = a.nonces.counter();
        if aes_key_valid(k) && c0 < 0x7fff_ffff_ffff_ffff {
            &&& b.nonces.counter() == 4 * c0 + 3
            &&& delivered(
                r,
                level,
                a.level,
                aes_gcm_open(k, nonce_bytes((2 * c0 + 1) as u64), seal_aad(), domain),
                aes_gcm_open(k, nonce_bytes((4 * c0 + 3) as u64), seal_aad(), message),
                peer,
            )
        } else {
            r matches Err(e) && crypto_error(e)
        }
    }
}

/// What a server hands on for a message of `level` whose domain and message
/// bytes are `domain` and `message` (none where they could not be opened),
/// on a connection with level `session_level` from `peer`.
pub open spec fn delivered(
    r: Result<Option<LoggingTypeEnum>, LoggingError>,
    level: u8,
    session_level: u8,
    domain: Option<Seq<u8>>,
    message: Option<Seq<u8>>,
    peer: Seq<char>,
) -> bool {
    match (domain, message) {
        (Some(d), Some(m)) => if level < session_level {
            r == Ok::<Option<LoggingTypeEnum>, LoggingError>(None)
        } else if !vstd::utf8::valid_utf8(d) || !vstd::utf8::valid_utf8(m) {
            r matches Err(LoggingError::Utf8Error(t)) && t@ == utf8_error_text()
        } else {
            r matches Ok(Some(LoggingTypeEnum::MessageRemote((l, dt, mt)))) && l == level && dt@
                == vstd::utf8::decode_utf8(d) && mt@ == remote_message_spec(peer, vstd::utf8::decode_utf8(m))
        },
        _ => r matches Err(e) && crypto_error(e),
    }
}

/// The text of the error for bytes that are not UTF-8.
pub open spec fn utf8_error_text() -> Seq<char> {
    "invalid utf-8 data"@
}

fn utf8_failure() -> (e: LoggingError)
    ensures
        e matches LoggingError::Utf8Error(t) && t@ == utf8_error_text(),
{
    LoggingError::Utf8Error("invalid utf-8 data".to_string())
}

/// Whether two byte strings are equal.
pub fn bytes_eq(a: &[u8], b: &[u8]) -> (r: bool)
    ensures
        r == (a@ == b@),
{
    if a.len() != b.len() {
        return false;
    }
    let mut i: usize = 0;
    while i < a.len()
        invariant
            a@.len() == b@.len(),
            i <= a@.len(),
            forall|j: int| 0 <= j < i ==> a@[j] == b@[j],
        decreases a@.len() - i,
    {
        if a[i] != b[i] {
            return false;
        }
        i = i + 1;
    }
    assert(a@ =~= b@);
    true
}


/// Law: a plain frame reads back on the server. The header announces the
/// message length, the level and the domain length; the payload splits into
/// the domain and the message bytes; and a server session that takes them
/// from `peer` hands on the domain and the peer-prefixed message that were
/// sent, once the level reaches the session's level.
pub proof fn law_message_frame_roundtrip(
    level: u8,
    session_level: u8,
    domain: Seq<char>,
    message: Seq<char>,
    peer: Seq<char>,
    r: Result<Option<LoggingTypeEnum>, LoggingError>,
)
    requires
        vstd::utf8::encode_utf8(message).len() <= FRAME_SIZE_MAX,
        vstd::utf8::encode_utf8(domain).len() < 256,
        level >= session_level,
        ({
            let d = vstd::utf8::encode_utf8(domain);
            let f = message_frame_spec(level, d, vstd::utf8::encode_utf8(message));
            delivered(
                r,
                f[2],
                session_level,
                Some(f.subrange(4, 4 + f[3] as int)),
                Some(f.subrange(4 + f[3] as int, 4 + f[3] as int + header_size(f))),
                peer,
            )
        }),
    ensures
        ({
            let d = vstd::utf8::encode_utf8(domain);
            let m = vstd::utf8::encode_utf8(message);
            let f = message_frame_spec(level, d, m);
            &&& f.len() == 4 + d.len() + m.len()
            &&& header_size(f) == m.len()
            &&& f[2] == level
            &&& f[3] == d.len()
        }),
        r matches Ok(Some(LoggingTypeEnum::MessageRemote((l, dt, mt)))) && l == level && dt@
            == domain && mt@ == peer + ": "@ + message,
{
    let d = vstd::utf8::encode_utf8(domain);
    let m = vstd::utf8::encode_utf8(message);
    let f = message_frame_spec(level, d, m);
    assert(f.subrange(4, 4 + d.len() as int) =~= d);
    assert(f.subrange(4 + d.len() as int, 4 + d.len() + m.len() as int) =~= m);
    vstd::utf8::encode_utf8_valid_utf8(domain);
    vstd::utf8::encode_utf8_valid_utf8(message);
    vstd::utf8::encode_utf8_decode_utf8(domain);
    vstd::utf8::encode_utf8_decode_utf8(message);
}

/// Law: a sealed frame reads back on a server session whose nonce sequence
/// is in step with the client's. The header announces the sealed message
/// length, the level and the sealed domain length; opening the two parts
/// with the next two nonces and handing them on gives the domain and the
/// peer-prefixed message that were sent, once the level reaches the
/// session's level.
pub proof fn law_sealed_frame_roundtrip(
    key: Seq<u8>,
    c0: u64,
    level: u8,
    session_level: u8,
    domain: Seq<char>,
    message: Seq<char>,
    f: Seq<u8>,
    peer: Seq<char>,
    r: Result<Option<LoggingTypeEnum>, LoggingError>,
)
    requires
        vstd::utf8::encode_utf8(message).len() + 16 <= FRAME_SIZE_MAX,
        vstd::utf8::encode_utf8(domain).len() + 16 < 256,
        level >= session_level,
        f == sealed_frame_spec(
            key,
            (2 * c0 + 1) as u64,
            (4 * c0 + 3) as u64,
            level,
            vstd::utf8::encode_utf8(domain),
            vstd::utf8::encode_utf8(message),
        ),
        sealed_parts_open(
            key,
            c0,
            vstd::utf8::encode_utf8(domain),
            vstd::utf8::encode_utf8(message),
            f,
        ),
        delivered(
            r,
            f[2],
            session_level,
            aes_gcm_open(
                key,
                nonce_bytes((2 * c0 + 1) as u64),
                seal_aad(),
                f.subrange(4, 4 + f[3] as int),
            ),
            aes_gcm_open(
                key,
                nonce_bytes((4 * c0 + 3) as u64),
                seal_aad(),
                f.subrange(4 + f[3] as int, 4 + f[3] as int + header_size(f)),
            ),
            peer,
        ),
    ensures
        header_size(f) == vstd::utf8::encode_utf8(message).len() + 16,
        f[2] == level,
        f[3] == vstd::utf8::encode_utf8(domain).len() + 16,
        r matches Ok(Some(LoggingTypeEnum::MessageRemote((l, dt, mt)))) && l == level && dt@
            == domain && mt@ == peer + ": "@ + message,
{
    let d = vstd::utf8::encode_utf8(domain);
    let m = vstd::utf8::encode_utf8(message);
    let sd = aes_gcm_seal(key, nonce_bytes((2 * c0 + 1) as u64), seal_aad(), d);
    let sm = aes_gcm_seal(key, nonce_bytes((4 * c0 + 3) as u64), seal_aad(), m);
    assert(f == header(sm.len(), level, sd.len()) + sd + sm);
    assert(sd.len() == d.len() + 16);
    assert(sm.len() == m.len() + 16);
    vstd::utf8::encode_utf8_valid_utf8(domain);
    vstd::utf8::encode_utf8_valid_utf8(message);
    vstd::utf8::encode_utf8_decode_utf8(domain);
    vstd::utf8::encode_utf8_decode_utf8(message);
}


/// The message frame a client writes for a message (level, domain, text).
pub open spec fn frame_of(msg: (u8, Seq<char>, Seq<char>)) -> Seq<u8> {
    message_frame_spec(msg.0, vstd::utf8::encode_utf8(msg.1), vstd::utf8::encode_utf8(msg.2))
}

/// What a server hands on for a message (level, domain, text) from `peer`
/// on a connection with level `session_level`.
pub open spec fn stream_output(
    msg: (u8, Seq<char>, Seq<char>),
    session_level: u8,
    peer: Seq<char>,
    r: Result<Option<LoggingTypeEnum>, LoggingError>,
) -> bool {
    if msg.0 >= session_level {
        r matches Ok(Some(LoggingTypeEnum::MessageRemote((l, dt, mt)))) && l == msg.0 && dt@ == msg.1
            && mt@ == remote_message_spec(peer, msg.2)
    } else {
        r == Ok::<Option<LoggingTypeEnum>, LoggingError>(None)
    }
}

/// Law: on a plain connection the server first reads the key frame; a key
/// other than its own is refused with "Invalid auth key". After its own key,
/// the message frames that follow are read one by one, and each hands on
/// exactly its message, in order, prefixed with the peer's address, from the
/// session's level on, and nothing below it.
pub proof fn law_plain_stream(
    s0: ServerSession,
    key: Seq<u8>,
    h0: Result<HeaderAction, LoggingError>,
    a0: Result<(), LoggingError>,
    msgs: Seq<(u8, Seq<char>, Seq<char>)>,
    peer: Seq<char>,
    states: Seq<ServerSession>,
    heads: Seq<Result<HeaderAction, LoggingError>>,
    outs: Seq<Result<Option<LoggingTypeEnum>, LoggingError>>,
)
    requires
        !s0.encrypted(),
        !s0.authenticated,
        key.len() <= FRAME_SIZE_MAX,
        header_read(s0, auth_frame_spec(key).subrange(0, 4), h0),
        states.len() == msgs.len() + 1,
        auth_read(s0, states[0], key, a0),
        heads.len() == msgs.len(),
        outs.len() == msgs.len(),
        forall|i: int|
            0 <= i < msgs.len() ==> vstd::utf8::encode_utf8(#[trigger] msgs[i].2).len() <= FRAME_SIZE_MAX
                && vstd::utf8::encode_utf8(msgs[i].1).len() < 256,
        a0 is Ok ==> forall|i: int|
            0 <= i < msgs.len() ==> header_read(states[i], frame_of(msgs[i]).subrange(0, 4), #[trigger] heads[i]),
        a0 is Ok ==> forall|i: int|
            0 <= i < msgs.len() ==> message_read(
                states[i],
                states[i + 1],
                msgs[i].0,
                vstd::utf8::encode_utf8(msgs[i].1),
                vstd::utf8::encode_utf8(msgs[i].2),
                peer,
                #[trigger] outs[i],
            ),
    ensures
        h0 == Ok::<HeaderAction, LoggingError>(HeaderAction::ReadAuthKey(key.len() as usize)),
        a0 is Ok <==> key == key_bytes(s0.key),
        a0 is Err ==> (a0 matches Err(LoggingError::RecvError(m)) && m@ == "Invalid auth key"@),
        a0 is Ok ==> forall|i: int|
            0 <= i < msgs.len() ==> {
                &&& heads[i] == Ok::<HeaderAction, LoggingError>(
                    HeaderAction::ReadMessage {
                        size: vstd::utf8::encode_utf8(msgs[i].2).len() as usize,
                        level: msgs[i].0,
                        domain_len: vstd::utf8::encode_utf8(msgs[i].1).len() as usize,
                    },
                )
                &&& stream_output(msgs[i], s0.level, peer, #[trigger] outs[i])
            },
{
    let af = auth_frame_spec(key);
    assert(header_size(af.subrange(0, 4)) == key.len());
    if a0 is Ok {
        assert forall|i: int| 0 <= i <= msgs.len() implies #[trigger] states[i].authenticated
            && !states[i].encrypted() && states[i].level == s0.level by {
            lemma_plain_states(s0, msgs, peer, states, outs, i);
        }
        assert forall|i: int| 0 <= i < msgs.len() implies {
            &&& heads[i] == Ok::<HeaderAction, LoggingError>(
                HeaderAction::ReadMessage {
                    size: vstd::utf8::encode_utf8(msgs[i].2).len() as usize,
                    level: msgs[i].0,
                    domain_len: vstd::utf8::encode_utf8(msgs[i].1).len() as usize,
                },
            )
            &&& stream_output(msgs[i], s0.level, peer, #[trigger] outs[i])
        } by {
            let d = vstd::utf8::encode_utf8(msgs[i].1);
            let m = vstd::utf8::encode_utf8(msgs[i].2);
            let f = frame_of(msgs[i]);
            assert(header_read(states[i], frame_of(msgs[i]).subrange(0, 4), heads[i]));
            assert(states[i].authenticated && !states[i].encrypted() && states[i].level == s0.level);
            assert(f.subrange(0, 4)[3] == d.len());
            assert(header_size(f.subrange(0, 4)) == m.len());
            assert(message_read(states[i], states[i + 1], msgs[i].0, d, m, peer, outs[i]));
            vstd::utf8::encode_utf8_valid_utf8(msgs[i].1);
            vstd::utf8::encode_utf8_valid_utf8(msgs[i].2);
            vstd::utf8::encode_utf8_decode_utf8(msgs[i].1);
            vstd::utf8::encode_utf8_decode_utf8(msgs[i].2);
        }
    }
}

/// Along a plain stream after the key was accepted, the session stays
/// authenticated, plain and at its level.
proof fn lemma_plain_states(
    s0: ServerSession,
    msgs: Seq<(u8, Seq<char>, Seq<char>)>,
    peer: Seq<char>,
    states: Seq<ServerSession>,
    outs: Seq<Result<Option<LoggingTypeEnum>, LoggingError>>,
    i: int,
)
    requires
        !s0.encrypted(),
        states.len() == msgs.len() + 1,
        states[0].authenticated,
        states[0].key == s0.key,
        states[0].level == s0.level,
        0 <= i <= msgs.len(),
        forall|j: int|
            0 <= j < msgs.len() ==> message_read(
                states[j],
                states[j + 1],
                msgs[j].0,
                vstd::utf8::encode_utf8(msgs[j].1),
                vstd::utf8::encode_utf8(msgs[j].2),
                peer,
                #[trigger] outs[j],
            ),
    ensures
        states[i].authenticated && !states[i].encrypted() && states[i].level == s0.level
            && states[i].key == s0.key,
    decreases i,
{
    if i > 0 {
        lemma_plain_states(s0, msgs, peer, states, outs, i - 1);
        let j = i - 1;
        assert(message_read(
            states[j],
            states[j + 1],
            msgs[j].0,
            vstd::utf8::encode_utf8(msgs[j].1),
            vstd::utf8::encode_utf8(msgs[j].2),
            peer,
            outs[j],
        ));
    }
}

} // verus!
