//! Keys of network writers, the nonce sequence of encrypted channels, and
//! AES-256-GCM sealing through `ring`.

use vstd::prelude::*;

verus! {

/// Key for authentication and message encryption of network writers.
#[derive(Debug)]
pub enum EncryptionMethod {
    NONE,
    AuthKey(Vec<u8>),
    AES(Vec<u8>),
}

/// The abstract value of an encryption method: the method and its key bytes.
pub enum KeyModel {
    NONE,
    AuthKey(Seq<u8>),
    AES(Seq<u8>),
}

impl View for EncryptionMethod {
    type V = KeyModel;

    open spec fn view(&self) -> KeyModel {
        match self {
            EncryptionMethod::NONE => KeyModel::NONE,
            EncryptionMethod::AuthKey(k) => KeyModel::AuthKey(k@),
            EncryptionMethod::AES(k) => KeyModel::AES(k@),
        }
    }
}

/// The key bytes of an encryption method (empty for `NONE`).
pub open spec fn key_bytes(m: EncryptionMethod) -> Seq<u8> {
    match m {
        EncryptionMethod::NONE => Seq::empty(),
        EncryptionMethod::AuthKey(k) => k@,
        EncryptionMethod::AES(k) => k@,
    }
}

/// The code of an encryption method in the port file.
pub open spec fn method_code(m: EncryptionMethod) -> u8 {
    match m {
        EncryptionMethod::NONE => 0,
        EncryptionMethod::AuthKey(_) => 1,
        EncryptionMethod::AES(_) => 2,
    }
}

/// The bytes that describe a method in the port file: its code, then its key.
pub open spec fn method_bytes(m: EncryptionMethod) -> Seq<u8> {
    seq![method_code(m)] + key_bytes(m)
}

pub fn clone_bytes(v: &Vec<u8>) -> (r: Vec<u8>)
    ensures
        r@ == v@,
{
    let r = v.clone();
    assert(r@ =~= v@);
    r
}

pub fn slice_to_vec(v: &[u8]) -> (r: Vec<u8>)
    ensures
        r@ == v@,
{
    let mut r: Vec<u8> = Vec::new();
    let mut i: usize = 0;
    while i < v.len()
        invariant
            i <= v@.len(),
            r@ == v@.subrange(0, i as int),
        decreases v@.len() - i,
    {
        r.push(v[i]);
        i = i + 1;
        assert(r@ =~= v@.subrange(0, i as int));
    }
    assert(r@ =~= v@);
    r
}

impl EncryptionMethod {
    pub fn duplicate(&self) -> (r: Self)
        ensures
            r@ == self@,
    {
        match self {
            EncryptionMethod::NONE => EncryptionMethod::NONE,
            EncryptionMethod::AuthKey(k) => EncryptionMethod::AuthKey(clone_bytes(k)),
            EncryptionMethod::AES(k) => EncryptionMethod::AES(clone_bytes(k)),
        }
    }

    pub fn is_encrypted(&self) -> (r: bool)
        ensures
            r == (self is AES),
    {
        match self {
            Self::AES(_) => true,
            _ => false,
        }
    }

    pub fn key(&self) -> (r: Option<&[u8]>)
        ensures
            match r {
                None => *self is NONE,
                Some(k) => !(*self is NONE) && k@ == key_bytes(*self),
            },
    {
        match self {
            Self::NONE => None,
            Self::AuthKey(key) => Some(key.as_slice()),
            Self::AES(key) => Some(key.as_slice()),
        }
    }

    pub fn key_cloned(&self) -> (r: Option<Vec<u8>>)
        ensures
            match r {
                None => *self is NONE,
                Some(k) => !(*self is NONE) && k@ == key_bytes(*self),
            },
    {
        match self {
            Self::NONE => None,
            Self::AuthKey(key) => Some(clone_bytes(key)),
            Self::AES(key) => Some(clone_bytes(key)),
        }
    }

    pub fn len(&self) -> (r: usize)
        ensures
            r == key_bytes(*self).len(),
    {
        match self {
            Self::NONE => 0,
            Self::AuthKey(key) => key.len(),
            Self::AES(key) => key.len(),
        }
    }

    /// The bytes that describe this method in the port file of a logging
    /// server: the method's code (0, 1 or 2), then the key.
    pub fn to_bytes(&self) -> (r: Vec<u8>)
        ensures
            r@ == method_bytes(*self),
    {
        let mut r: Vec<u8> = Vec::new();
        match self {
            Self::NONE => {
                r.push(0);
            },
            Self::AuthKey(key) => {
                r.push(1);
                let mut i: usize = 0;
                while i < key.len()
                    invariant
                        i <= key@.len(),
                        r@ == seq![1u8] + key@.subrange(0, i as int),
                    decreases key@.len() - i,
                {
                    r.push(key[i]);
                    i = i + 1;
                    assert(r@ =~= seq![1u8] + key@.subrange(0, i as int));
                }
                assert(key@.subrange(0, i as int) =~= key@);
            },
            Self::AES(key) => {
                r.push(2);
                let mut i: usize = 0;
                while i < key.len()
                    invariant
                        i <= key@.len(),
                        r@ == seq![2u8] + key@.subrange(0, i as int),
                    decreases key@.len() - i,
                {
                    r.push(key[i]);
                    i = i + 1;
                    assert(r@ =~= seq![2u8] + key@.subrange(0, i as int));
                }
                assert(key@.subrange(0, i as int) =~= key@);
            },
        }
        assert(r@ =~= method_bytes(*self));
        r
    }
}

/// Whether `r` is what reading the method bytes `b` gives: the method whose
/// code is the first byte and, for a method with a key, whose key is the
/// rest; a code other than 0, 1 or 2 is refused with that code.
pub open spec fn method_read(b: Seq<u8>, r: Result<EncryptionMethod, u8>) -> bool {
    match r {
        Ok(m) => b[0] <= 2 && method_code(m) == b[0] && (b[0] != 0 ==> key_bytes(m) == b.drop_first()),
        Err(code) => b[0] > 2 && code == b[0],
    }
}

/// Reads back a method written by `EncryptionMethod::to_bytes`. A code
/// other than 0, 1 or 2 is refused.
pub fn method_from_bytes(b: &[u8]) -> (r: Result<EncryptionMethod, u8>)
    requires
        b@.len() > 0,
    ensures
        method_read(b@, r),
{
    let code = b[0];
    if code == 0 {
        Ok(EncryptionMethod::NONE)
    } else if code == 1 || code == 2 {
        let mut key: Vec<u8> = Vec::new();
        let mut i: usize = 1;
        while i < b.len()
            invariant
                1 <= i <= b@.len(),
                key@ == b@.subrange(1, i as int),
            decreases b@.len() - i,
        {
            key.push(b[i]);
            i = i + 1;
            assert(key@ =~= b@.subrange(1, i as int));
        }
        assert(key@ =~= b@.drop_first());
        if code == 1 {
            Ok(EncryptionMethod::AuthKey(key))
        } else {
            Ok(EncryptionMethod::AES(key))
        }
    } else {
        Err(code)
    }
}

/// Law: a method written by `to_bytes` reads back as the same method.
pub proof fn law_method_bytes_roundtrip(m: EncryptionMethod, r: Result<EncryptionMethod, u8>)
    requires
        method_read(method_bytes(m), r),
    ensures
        r matches Ok(k) && k@ == m@,
{
    let b = method_bytes(m);
    assert(b.drop_first() =~= key_bytes(m));
    let k = r->Ok_0;
    match m {
        EncryptionMethod::NONE => {},
        EncryptionMethod::AuthKey(x) => {
            assert(k->AuthKey_0@ =~= x@);
        },
        EncryptionMethod::AES(x) => {
            assert(k->AES_0@ =~= x@);
        },
    }
}

/// The 12 nonce bytes for a counter value: the counter in little-endian
/// order, then four zero bytes.
pub open spec fn nonce_bytes(n: u64) -> Seq<u8> {
    Seq::new(12, |i: int| if i < 8 { ((n as nat / pow256(i as nat)) % 256) as u8 } else { 0u8 })
}

pub open spec fn pow256(i: nat) -> nat
    decreases i,
{
    if i == 0 {
        1
    } else {
        256 * pow256((i - 1) as nat)
    }
}

/// Nonce sequence of an encrypted channel; both ends advance it in step.
/// The counter starts at 0 and goes through 1, 3, 7, ...: every value is
/// one less than a power of two.
pub struct NonceGenerator {
    last_nonce: u64,
}

/// The counter values of a nonce sequence: all bits below some position set.
pub open spec fn is_counter_value(n: u64) -> bool {
    n & ((n + 1) as u64) == 0
}

impl NonceGenerator {
    #[verifier::type_invariant]
    spec fn counter_form(self) -> bool {
        is_counter_value(self.last_nonce)
    }

    /// The current counter.
    pub closed spec fn counter(self) -> u64 {
        self.last_nonce
    }

    pub fn new() -> (r: Self)
        ensures
            r.counter() == 0,
    {
        assert(is_counter_value(0u64)) by (bit_vector);
        Self { last_nonce: 0 }
    }

    /// The current counter.
    pub fn last_nonce(&self) -> (r: u64)
        ensures
            r == self.counter(),
    {
        self.last_nonce
    }

    /// Moves to the next nonce: the counter `n` becomes `2 * n + 1`, and the
    /// nonce is the new counter in little-endian order followed by four zero
    /// bytes. Fails, leaving the counter unchanged, once the counter is
    /// `u64::MAX`.
    pub fn advance(&mut self) -> (r: Option<Vec<u8>>)
        ensures
            advanced(*old(self), *final(self), r),
    {
        proof {
            use_type_invariant(&*self);
        }
        let last = self.last_nonce;
        if last == u64::MAX {
            return None;
        }
        assert(last <= 0x7fff_ffff_ffff_ffffu64) by (bit_vector)
            requires
                last & ((last + 1) as u64) == 0,
                last != 0xffff_ffff_ffff_ffffu64,
        ;
        let n: u64 = last + (last + 1);
        assert(n & ((n + 1) as u64) == 0) by (bit_vector)
            requires
                last & ((last + 1) as u64) == 0,
                last <= 0x7fff_ffff_ffff_ffffu64,
                n == 2 * last + 1,
        ;
        self.last_nonce = n;
        let mut b: Vec<u8> = Vec::new();
        let mut i: usize = 0;
        let mut rest: u64 = n;
        assert(pow256(0) == 1);
        while i < 8
            invariant
                i <= 8,
                b@.len() == i,
                rest as nat == n as nat / pow256(i as nat),
                forall|j: int| 0 <= j < i ==> b@[j] == ((n as nat / pow256(j as nat)) % 256) as u8,
            decreases 8 - i,
        {
            b.push((rest % 256) as u8);
            proof {
                lemma_div_pow256_step(n as nat, i as nat);
            }
            rest = rest / 256;
            i = i + 1;
        }
        while i < 12
            invariant
                8 <= i <= 12,
                b@.len() == i,
                forall|j: int| 0 <= j < 8 ==> b@[j] == ((n as nat / pow256(j as nat)) % 256) as u8,
                forall|j: int| 8 <= j < i ==> b@[j] == 0u8,
            decreases 12 - i,
        {
            b.push(0);
            i = i + 1;
        }
        assert(b@ =~= nonce_bytes(n));
        Some(b)
    }
}

/// Whether advancing generator `a` gave `b` and the nonce `r`: the counter
/// `n` becomes `2 * n + 1` and the nonce is the new counter's bytes; at
/// `u64::MAX` nothing moves and there is no nonce.
pub open spec fn advanced(a: NonceGenerator, b: NonceGenerator, r: Option<Vec<u8>>) -> bool {
    &&& a.counter() == u64::MAX ==> r is None && b.counter() == a.counter()
    &&& a.counter() < u64::MAX ==> {
        &&& b.counter() == 2 * a.counter() + 1
        &&& r matches Some(x) && x@ == nonce_bytes(b.counter())
    }
}

/// Whether `gs` are the states and `ns` the nonces of a generator advanced
/// `ns.len()` times from a fresh start.
pub open spec fn advance_run(gs: Seq<NonceGenerator>, ns: Seq<Option<Vec<u8>>>) -> bool {
    &&& gs.len() == ns.len() + 1
    &&& gs[0].counter() == 0
    &&& forall|i: int| 0 <= i < ns.len() ==> #[trigger] advanced(gs[i], gs[i + 1], ns[i])
}

/// Law: the two ends of a channel, each starting a fresh generator and
/// advancing it in step, agree on every counter and every nonce.
pub proof fn law_nonce_generators_agree(
    gs: Seq<NonceGenerator>,
    ns: Seq<Option<Vec<u8>>>,
    hs: Seq<NonceGenerator>,
    ms: Seq<Option<Vec<u8>>>,
    i: int,
)
    requires
        advance_run(gs, ns),
        advance_run(hs, ms),
        ns.len() == ms.len(),
        0 <= i < ns.len(),
    ensures
        gs[i + 1].counter() == hs[i + 1].counter(),
        ns[i] is Some <==> ms[i] is Some,
        ns[i] matches Some(x) ==> (ms[i] matches Some(y) && x@ == y@),
    decreases i,
{
    if i > 0 {
        law_nonce_generators_agree(gs, ns, hs, ms, i - 1);
    }
    assert(advanced(gs[i], gs[i + 1], ns[i]));
    assert(advanced(hs[i], hs[i + 1], ms[i]));
}

/// Law: each advance of a generator moves its counter strictly up, so the
/// counters a channel goes through never come back.
pub proof fn law_nonce_counter_increases(before: NonceGenerator, after: NonceGenerator)
    requires
        before.counter() < u64::MAX,
        after.counter() == 2 * before.counter() + 1,
    ensures
        before.counter() < after.counter(),
{
}

/// The byte digits of `a` and `b` from position `i` on agree, so the
/// numbers agree from that position on.
proof fn lemma_digits_agree(a: u64, b: u64, i: nat)
    requires
        i <= 8,
        forall|j: nat| i <= j < 8 ==> #[trigger] ((a as nat / pow256(j)) % 256) == ((b as nat
            / pow256(j)) % 256),
    ensures
        a as nat / pow256(i) == b as nat / pow256(i),
    decreases 8 - i,
{
    if i == 8 {
        assert(pow256(8) == 0x1_0000_0000_0000_0000) by {
            reveal_with_fuel(pow256, 9);
        }
    } else {
        lemma_digits_agree(a, b, i + 1);
        lemma_div_pow256_step(a as nat, i);
        lemma_div_pow256_step(b as nat, i);
        assert(((a as nat / pow256(i)) % 256) == ((b as nat / pow256(i)) % 256));
        let qa = a as nat / pow256(i);
        let qb = b as nat / pow256(i);
        assert(qa == qa % 256 + 256 * (qa / 256)) by (nonlinear_arith);
        assert(qb == qb % 256 + 256 * (qb / 256)) by (nonlinear_arith);
    }
}

/// Law: different counters give different nonces, so with the counters
/// strictly increasing no nonce is used twice on a channel.
pub proof fn law_nonces_never_repeat(a: u64, b: u64)
    requires
        a != b,
    ensures
        nonce_bytes(a) != nonce_bytes(b),
{
    if nonce_bytes(a) == nonce_bytes(b) {
        assert forall|j: nat| 0 <= j < 8 implies #[trigger] ((a as nat / pow256(j)) % 256) == ((b as nat
            / pow256(j)) % 256) by {
            assert(nonce_bytes(a)[j as int] == nonce_bytes(b)[j as int]);
            let x = (a as nat / pow256(j)) % 256;
            let y = (b as nat / pow256(j)) % 256;
            assert(x < 256 && y < 256);
            assert(x as u8 == y as u8);
        }
        lemma_digits_agree(a, b, 0);
        assert(pow256(0) == 1);
    }
}

proof fn lemma_div_pow256_step(n: nat, i: nat)
    ensures
        n / pow256(i) / 256 == n / pow256(i + 1),
        pow256(i) > 0,
{
    lemma_pow256_pos(i);
    assert(pow256(i + 1) == 256 * pow256(i));
    vstd::arithmetic::div_mod::lemma_div_denominator(n as int, pow256(i) as int, 256);
    assert(pow256(i) * 256 == 256 * pow256(i)) by (nonlinear_arith);
}

proof fn lemma_pow256_pos(i: nat)
    ensures
        pow256(i) > 0,
    decreases i,
{
    if i > 0 {
        lemma_pow256_pos((i - 1) as nat);
    }
}

/// What AES-256-GCM sealing of `plaintext` under `key`, `nonce` and
/// additional data `aad` gives: the ciphertext followed by the tag.
pub uninterp spec fn aes_gcm_seal(key: Seq<u8>, nonce: Seq<u8>, aad: Seq<u8>, plaintext: Seq<u8>) -> Seq<u8>;

/// What AES-256-GCM opening of `data` under `key`, `nonce` and additional
/// data `aad` gives: the plaintext, or nothing when the tag does not verify.
pub uninterp spec fn aes_gcm_open(key: Seq<u8>, nonce: Seq<u8>, aad: Seq<u8>, data: Seq<u8>) -> Option<Seq<u8>>;

/// Whether `key` is accepted as an AES-256-GCM key by `ring`.
pub open spec fn aes_key_valid(key: Seq<u8>) -> bool {
    key.len() == 32
}

/// Checks an AES-256-GCM key with `ring::aead::UnboundKey::new`, which
/// accepts exactly keys of the algorithm's key length, 32 bytes; on refusal
/// the text of `ring`'s error, `ring::error::Unspecified`, is handed back.
#[verifier::external_body]
pub(crate) fn aes_key_check(key: &[u8]) -> (r: Result<(), String>)
    ensures
        r is Ok <==> aes_key_valid(key@),
        r matches Err(m) ==> m@ == "ring::error::Unspecified"@,
{
    match ring::aead::UnboundKey::new(&ring::aead::AES_256_GCM, key) {
        Ok(_) => Ok(()),
        Err(e) => Err(e.to_string()),
    }
}

/// Seals `data` with AES-256-GCM through `ring::aead::LessSafeKey::seal_in_place_append_tag`.
/// The result is the named sealing of the arguments; `ring` appends a
/// 16-byte tag to the ciphertext, which has the length of the plaintext, and
/// opening the result with the same key, nonce and additional data gives
/// back the plaintext.
#[verifier::external_body]
pub(crate) fn aes_seal(key: &[u8], nonce: &[u8], aad: &[u8], data: &[u8]) -> (r: Vec<u8>)
    requires
        aes_key_valid(key@),
        nonce@.len() == 12,
        data@.len() <= 0xffff_ffff,
    ensures
        r@ == aes_gcm_seal(key@, nonce@, aad@, data@),
        r@.len() == data@.len() + 16,
        aes_gcm_open(key@, nonce@, aad@, r@) == Some(data@),
{
    let k = ring::aead::LessSafeKey::new(
        ring::aead::UnboundKey::new(&ring::aead::AES_256_GCM, key).unwrap(),
    );
    let n = ring::aead::Nonce::try_assume_unique_for_key(nonce).unwrap();
    let mut v = data.to_vec();
    k.seal_in_place_append_tag(n, ring::aead::Aad::from(aad), &mut v).unwrap();
    v
}

/// Opens `data` with AES-256-GCM through `ring::aead::LessSafeKey::open_in_place`.
/// The result is the named opening of the arguments.
#[verifier::external_body]
pub(crate) fn aes_open(key: &[u8], nonce: &[u8], aad: &[u8], data: &[u8]) -> (r: Option<Vec<u8>>)
    requires
        aes_key_valid(key@),
        nonce@.len() == 12,
    ensures
        match r {
            Some(v) => aes_gcm_open(key@, nonce@, aad@, data@) == Some(v@),
            None => aes_gcm_open(key@, nonce@, aad@, data@) is None,
        },
{
    let k = ring::aead::LessSafeKey::new(
        ring::aead::UnboundKey::new(&ring::aead::AES_256_GCM, key).unwrap(),
    );
    let n = ring::aead::Nonce::try_assume_unique_for_key(nonce).unwrap();
    let mut v = data.to_vec();
    match k.open_in_place(n, ring::aead::Aad::from(aad), &mut v) {
        Ok(plain) => Some(plain.to_vec()),
        Err(_) => None,
    }
}


/// Whether a byte is an ASCII letter or digit.
pub open spec fn is_alphanumeric_byte(b: u8) -> bool {
    (48 <= b <= 57) || (65 <= b <= 90) || (97 <= b <= 122)
}

/// The length of a drawn authentication key.
pub const AUTH_KEY_LEN: usize = 32;

/// One byte drawn by `rand`'s `Alphanumeric` distribution from the thread's
/// generator: an ASCII letter or digit (`A`-`Z`, `a`-`z`, `0`-`9`). Which
/// one is chance.
#[verifier::external_body]
fn random_alphanumeric() -> (r: u8)
    ensures
        is_alphanumeric_byte(r),
{
    rand::Rng::sample(&mut rand::thread_rng(), rand::distributions::Alphanumeric)
}

/// A fresh authentication key: [`AUTH_KEY_LEN`] random ASCII letters and
/// digits.
pub fn random_auth_key() -> (r: Vec<u8>)
    ensures
        r@.len() == AUTH_KEY_LEN,
        forall|i: int| 0 <= i < r@.len() ==> is_alphanumeric_byte(#[trigger] r@[i]),
{
    let mut r: Vec<u8> = Vec::new();
    while r.len() < AUTH_KEY_LEN
        invariant
            r@.len() <= AUTH_KEY_LEN,
            forall|i: int| 0 <= i < r@.len() ==> is_alphanumeric_byte(#[trigger] r@[i]),
        decreases AUTH_KEY_LEN - r@.len(),
    {
        let b = random_alphanumeric();
        r.push(b);
    }
    r
}
} // verus!
