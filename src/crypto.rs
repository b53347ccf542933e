//! Key-rotating authenticated encryption. Every key ever created stays retained
//! for decryption; the newest one seals new messages. Each message gets a nonce
//! of its own: the key's 4-byte nonce prefix followed by the engine's message
//! counter in 8 little-endian bytes.
use crate::codec::{le_bytes, lemma_le_bytes_injective, lemma_le_bytes_len, lemma_radix_8, push_le};
use aes_gcm::aead::{Aead, KeyInit};
use rand_core::RngCore;
use std::collections::BTreeMap;
use vstd::prelude::*;

verus! {

broadcast use vstd::laws_cmp::group_laws_cmp;

/// Largest message that AES-GCM seals: 2^36 bytes.
pub const MAX_PLAINTEXT: u64 = 0x10_0000_0000;

/// Seconds between rotations that a new key is given before it counts as expired.
pub const KEY_ROTATION_INTERVAL: u64 = 86400;

/// Errors of the security subsystems.
#[derive(Debug, Clone, Copy, PartialEq, Eq, Structural)]
pub enum SecurityError {
    EncryptionFailed,
    DecryptionFailed,
    KeyNotFound,
    KeyGenerationFailed,
    InvalidSignature,
    RuleViolation,
    TokenInsufficient,
}

#[derive(Debug, Clone, Copy, PartialEq, Eq, Structural)]
pub enum EncryptionAlgorithm {
    Aes256Gcm,
}

/// A retained key: `value` is the 32-byte AES-256 key, `nonce` the 4-byte prefix of the
/// nonces of the messages sealed under it.
#[derive(Debug)]
pub struct EncryptionKey {
    pub id: u64,
    pub value: Vec<u8>,
    pub nonce: Vec<u8>,
    pub created_at: u64,
    pub expires_at: u64,
}

/// A sealed message: the ciphertext with its tag, the key it was sealed under, and the
/// nonce it was sealed with.
#[derive(Debug)]
pub struct EncryptedData {
    pub ciphertext: Vec<u8>,
    pub key_id: u64,
    pub algorithm: EncryptionAlgorithm,
    pub iv: Vec<u8>,
}

/// What `Aes256Gcm::encrypt` returns for a key, a nonce and a message.
pub uninterp spec fn gcm_seal(key: Seq<u8>, nonce: Seq<u8>, plaintext: Seq<u8>) -> Seq<u8>;

/// What `Aes256Gcm::decrypt` returns for a key, a nonce and a ciphertext.
pub uninterp spec fn gcm_open(key: Seq<u8>, nonce: Seq<u8>, ciphertext: Seq<u8>) -> Option<
    Seq<u8>,
>;

/// Relies on aes_gcm's `Aes256Gcm::encrypt` (trait `aead::Aead`) with a 12-byte nonce and no
/// associated data: it fails only on a message over 2^36 bytes; otherwise it returns the
/// ciphertext followed by the 16-byte tag, a function of key, nonce and message, which
/// `decrypt` under the same key and nonce opens to the message.
#[verifier::external_body]
fn gcm_encrypt(key: &Vec<u8>, nonce: &Vec<u8>, plaintext: &[u8]) -> (r: Option<Vec<u8>>)
    requires
        key@.len() == 32,
        nonce@.len() == 12,
    ensures
        r is Some <==> plaintext@.len() <= MAX_PLAINTEXT,
        r matches Some(c) ==> {
            &&& c@ == gcm_seal(key@, nonce@, plaintext@)
            &&& gcm_open(key@, nonce@, c@) == Some(plaintext@)
            &&& c@.len() == plaintext@.len() + 16
        },
{
    let cipher = aes_gcm::Aes256Gcm::new(aes_gcm::Key::<aes_gcm::Aes256Gcm>::from_slice(key));
    cipher.encrypt(aes_gcm::Nonce::from_slice(nonce), plaintext).ok()
}

/// Relies on aes_gcm's `Aes256Gcm::decrypt` (trait `aead::Aead`) with a 12-byte nonce and no
/// associated data: its result depends on key, nonce and ciphertext alone.
#[verifier::external_body]
fn gcm_decrypt(key: &Vec<u8>, nonce: &Vec<u8>, ciphertext: &Vec<u8>) -> (r: Option<Vec<u8>>)
    requires
        key@.len() == 32,
        nonce@.len() == 12,
    ensures
        match r {
            Some(p) => gcm_open(key@, nonce@, ciphertext@) == Some(p@),
            None => gcm_open(key@, nonce@, ciphertext@) is None,
        },
{
    let cipher = aes_gcm::Aes256Gcm::new(aes_gcm::Key::<aes_gcm::Aes256Gcm>::from_slice(key));
    cipher.decrypt(aes_gcm::Nonce::from_slice(nonce), ciphertext.as_slice()).ok()
}

/// Relies on rand_core's `OsRng::try_fill_bytes`: `n` bytes from the operating system, or
/// nothing when its generator fails.
#[verifier::external_body]
fn random_bytes(n: usize) -> (r: Option<Vec<u8>>)
    requires
        n <= 32,
    ensures
        r matches Some(b) ==> b@.len() == n,
{
    let mut b = vec![0u8; n];
    match rand_core::OsRng.try_fill_bytes(&mut b) {
        Ok(()) => Some(b),
        Err(_) => None,
    }
}

pub struct EncryptionEngine {
    master_key: Vec<u8>,
    key_rotation_interval: u64,
    last_rotation: u64,
    active_keys: BTreeMap<u64, EncryptionKey>,
    current: Option<u64>,
    messages: u64,
}

/// How `decrypt` ends on an engine whose retained keys are `keys`.
pub open spec fn decrypt_outcome(keys: Map<u64, EncryptionKey>, rec: EncryptedData) -> Result<
    Seq<u8>,
    SecurityError,
> {
    if !keys.contains_key(rec.key_id) {
        Err(SecurityError::KeyNotFound)
    } else if rec.iv@.len() != 12 {
        Err(SecurityError::DecryptionFailed)
    } else {
        match gcm_open(keys[rec.key_id].value@, rec.iv@, rec.ciphertext@) {
            Some(p) => Ok(p),
            None => Err(SecurityError::DecryptionFailed),
        }
    }
}

impl EncryptionEngine {
    /// Retained keys by id.
    pub closed spec fn keys(&self) -> Map<u64, EncryptionKey> {
        self.active_keys@
    }

    /// The key that seals new messages: the newest one.
    pub closed spec fn current_key(&self) -> Option<u64> {
        self.current
    }

    /// Messages sealed so far; the next message's nonce ends with this count.
    pub closed spec fn message_count(&self) -> u64 {
        self.messages
    }

    pub closed spec fn master(&self) -> Seq<u8> {
        self.master_key@
    }

    /// Seconds a new key is valid for.
    pub closed spec fn rotation_interval(&self) -> u64 {
        self.key_rotation_interval
    }

    /// Creation time of the newest key, 0 before the first.
    pub closed spec fn last_rotation_time(&self) -> u64 {
        self.last_rotation
    }

    /// Every retained key is filed under its own id with a 32-byte value and a 4-byte nonce
    /// prefix; the key of record is retained and is the newest; without one there are no
    /// keys; the rotation interval is `KEY_ROTATION_INTERVAL`.
    pub open spec fn wf(&self) -> bool {
        &&& forall|id: u64| #[trigger]
            self.keys().contains_key(id) ==> {
                &&& self.keys()[id].id == id
                &&& self.keys()[id].value@.len() == 32
                &&& self.keys()[id].nonce@.len() == 4
            }
        &&& match self.current_key() {
            Some(c) => {
                &&& self.keys().contains_key(c)
                &&& forall|id: u64| #[trigger] self.keys().contains_key(id) ==> id <= c
            },
            None => self.keys().is_empty(),
        }
        &&& self.rotation_interval() == KEY_ROTATION_INTERVAL
    }

    /// The expiry of a key created at `id`: one rotation interval later, capped at the
    /// largest time.
    pub open spec fn expiry_of(id: u64) -> u64 {
        if id <= u64::MAX - KEY_ROTATION_INTERVAL {
            (id + KEY_ROTATION_INTERVAL) as u64
        } else {
            u64::MAX
        }
    }

    /// Key `id` of `post` is the one that a rotation at `id` created.
    pub open spec fn fresh_key(post: Self, id: u64) -> bool {
        &&& post.keys()[id].id == id
        &&& post.keys()[id].created_at == id
        &&& post.keys()[id].expires_at == Self::expiry_of(id)
        &&& post.keys()[id].value@.len() == 32
        &&& post.keys()[id].nonce@.len() == 4
        &&& post.last_rotation_time() == id
    }

    /// The nonce of the next message sealed under key `id`.
    pub open spec fn next_iv(&self, id: u64) -> Seq<u8> {
        self.keys()[id].nonce@ + le_bytes(self.message_count() as nat, 8)
    }

    /// The outcome of `decrypt` on `rec`.
    pub open spec fn decrypt_spec(&self, rec: EncryptedData) -> Result<Seq<u8>, SecurityError> {
        decrypt_outcome(self.keys(), rec)
    }

    /// `post` keeps every key of `pre`, unchanged.
    pub open spec fn retains(post: Self, pre: Self) -> bool {
        forall|id: u64| #[trigger]
            pre.keys().contains_key(id) ==> post.keys().contains_key(id) && post.keys()[id]
                == pre.keys()[id]
    }

    /// `encrypt` took the engine from `pre` to `post` and sealed `data` into `rec`.
    pub open spec fn encrypted(pre: Self, post: Self, data: Seq<u8>, rec: EncryptedData) -> bool {
        &&& pre.current_key() matches Some(id)
        &&& rec.key_id == id
        &&& rec.algorithm == EncryptionAlgorithm::Aes256Gcm
        &&& rec.iv@ == pre.next_iv(id)
        &&& rec.ciphertext@ == gcm_seal(pre.keys()[id].value@, rec.iv@, data)
        &&& gcm_open(pre.keys()[id].value@, rec.iv@, rec.ciphertext@) == Some(data)
        &&& post.keys() == pre.keys()
        &&& post.current_key() == pre.current_key()
        &&& post.message_count() == pre.message_count() + 1
        &&& post.master() == pre.master()
    }

    /// `rotate` took the engine from `pre` to `post` and created key `id`.
    pub open spec fn rotated(pre: Self, post: Self, id: u64) -> bool {
        &&& Self::retains(post, pre)
        &&& !pre.keys().contains_key(id)
        &&& post.keys().dom() == pre.keys().dom().insert(id)
        &&& post.current_key() == Some(id)
        &&& post.message_count() == pre.message_count()
        &&& post.master() == pre.master()
    }

    /// An engine with no keys yet and an all-zero master key.
    pub fn new() -> (r: Self)
        ensures
            r.wf(),
            r.keys().is_empty(),
            r.current_key() is None,
            r.message_count() == 0,
            r.rotation_interval() == KEY_ROTATION_INTERVAL,
            r.last_rotation_time() == 0,
    {
        EncryptionEngine {
            master_key: vec![0u8; 32],
            key_rotation_interval: KEY_ROTATION_INTERVAL,
            last_rotation: 0,
            active_keys: BTreeMap::new(),
            current: None,
            messages: 0,
        }
    }

    /// The id of the key that seals new messages.
    pub fn get_current_key_id(&self) -> (r: Option<u64>)
        ensures
            r == self.current_key(),
    {
        self.current
    }

    /// The id that the next key gets when created at time `now`: `now` itself, unless an
    /// existing key is as new, then one past the newest; none once ids run out.
    pub open spec fn next_key_id(&self, now: u64) -> Option<u64> {
        match self.current_key() {
            None => Some(now),
            Some(c) => if now > c {
                Some(now)
            } else if c < u64::MAX {
                Some((c + 1) as u64)
            } else {
                None
            },
        }
    }

    /// Creates a key from the given material at time `now` and makes it the key of record.
    /// Older keys stay retained.
    pub fn rotate_with(&mut self, key_value: Vec<u8>, nonce_prefix: Vec<u8>, now: u64) -> (r: Result<
        u64,
        SecurityError,
    >)
        requires
            old(self).wf(),
            key_value@.len() == 32,
            nonce_prefix@.len() == 4,
        ensures
            final(self).wf(),
            match r {
                Ok(id) => {
                    &&& old(self).next_key_id(now) == Some(id)
                    &&& Self::rotated(*old(self), *final(self), id)
                    &&& Self::fresh_key(*final(self), id)
                    &&& final(self).keys()[id].value@ == key_value@
                    &&& final(self).keys()[id].nonce@ == nonce_prefix@
                },
                Err(e) => {
                    &&& e == SecurityError::KeyGenerationFailed
                    &&& old(self).next_key_id(now) is None
                    &&& final(self).keys() == old(self).keys()
                    &&& final(self).current_key() == old(self).current_key()
                    &&& final(self).message_count() == old(self).message_count()
                    &&& final(self).master() == old(self).master()
                    &&& final(self).last_rotation_time() == old(self).last_rotation_time()
                },
            },
    {
        let id: u64 = match self.current {
            None => now,
            Some(c) => {
                if now > c {
                    now
                } else if c < u64::MAX {
                    c + 1
                } else {
                    return Err(SecurityError::KeyGenerationFailed);
                }
            },
        };
        let expires_at: u64 = if id <= u64::MAX - self.key_rotation_interval {
            id + self.key_rotation_interval
        } else {
            u64::MAX
        };
        let key = EncryptionKey { id, value: key_value, nonce: nonce_prefix, created_at: id, expires_at };
        let ghost pre = self.active_keys@;
        assert(!pre.contains_key(id));
        self.active_keys.insert(id, key);
        self.current = Some(id);
        self.last_rotation = id;
        assert(self.active_keys@.dom() =~= pre.dom().insert(id));
        Ok(id)
    }

    /// Creates a key of fresh random material at time `now` and makes it the key of record.
    /// Older keys stay retained. Fails, changing nothing, when the random source fails or
    /// key ids have run out.
    pub fn rotate(&mut self, now: u64) -> (r: Result<u64, SecurityError>)
        requires
            old(self).wf(),
        ensures
            final(self).wf(),
            match r {
                Ok(id) => old(self).next_key_id(now) == Some(id) && Self::rotated(
                    *old(self),
                    *final(self),
                    id,
                ) && Self::fresh_key(*final(self), id),
                Err(e) => {
                    &&& e == SecurityError::KeyGenerationFailed
                    &&& final(self).keys() == old(self).keys()
                    &&& final(self).current_key() == old(self).current_key()
                    &&& final(self).message_count() == old(self).message_count()
                    &&& final(self).master() == old(self).master()
                    &&& final(self).last_rotation_time() == old(self).last_rotation_time()
                },
            },
    {
        let value = match random_bytes(32) {
            Some(b) => b,
            None => return Err(SecurityError::KeyGenerationFailed),
        };
        let prefix = match random_bytes(4) {
            Some(b) => b,
            None => return Err(SecurityError::KeyGenerationFailed),
        };
        self.rotate_with(value, prefix, now)
    }

    /// Draws a random master seed and creates the first key at time `now`.
    pub fn initialize(&mut self, now: u64) -> (r: Result<u64, SecurityError>)
        requires
            old(self).wf(),
        ensures
            final(self).wf(),
            match r {
                Ok(id) => {
                    &&& old(self).next_key_id(now) == Some(id)
                    &&& final(self).master().len() == 32
                    &&& Self::retains(*final(self), *old(self))
                    &&& final(self).keys().dom() == old(self).keys().dom().insert(id)
                    &&& final(self).current_key() == Some(id)
                    &&& final(self).message_count() == old(self).message_count()
                    &&& Self::fresh_key(*final(self), id)
                },
                Err(e) => {
                    &&& e == SecurityError::KeyGenerationFailed
                    &&& final(self).keys() == old(self).keys()
                    &&& final(self).current_key() == old(self).current_key()
                    &&& final(self).message_count() == old(self).message_count()
                },
            },
    {
        match random_bytes(32) {
            Some(seed) => {
                self.master_key = seed;
            },
            None => return Err(SecurityError::KeyGenerationFailed),
        }
        self.rotate(now)
    }

    /// Seals `data` under the key of record with a nonce used for no other message.
    pub fn encrypt(&mut self, data: &[u8]) -> (r: Result<EncryptedData, SecurityError>)
        requires
            old(self).wf(),
        ensures
            final(self).wf(),
            match r {
                Ok(rec) => Self::encrypted(*old(self), *final(self), data@, rec),
                Err(e) => {
                    &&& final(self).keys() == old(self).keys()
                    &&& final(self).current_key() == old(self).current_key()
                    &&& final(self).message_count() == old(self).message_count()
                    &&& final(self).master() == old(self).master()
                    &&& (e == SecurityError::KeyNotFound || e == SecurityError::EncryptionFailed)
                    &&& (e == SecurityError::KeyNotFound <==> old(self).current_key() is None)
                    &&& (e == SecurityError::EncryptionFailed <==> old(self).current_key() is Some
                        && (old(self).message_count() == u64::MAX || data@.len()
                        > MAX_PLAINTEXT))
                },
            },
    {
        let id = match self.current {
            Some(c) => c,
            None => return Err(SecurityError::KeyNotFound),
        };
        if self.messages == u64::MAX {
            return Err(SecurityError::EncryptionFailed);
        }
        let key = match self.active_keys.get(&id) {
            Some(k) => k,
            None => return Err(SecurityError::KeyNotFound),
        };
        let mut iv: Vec<u8> = Vec::new();
        let mut i: usize = 0;
        while i < key.nonce.len()
            invariant
                key.nonce@.len() == 4,
                0 <= i <= 4,
                iv@ == key.nonce@.subrange(0, i as int),
            decreases 4 - i,
        {
            iv.push(key.nonce[i]);
            assert(iv@ =~= key.nonce@.subrange(0, i + 1));
            i = i + 1;
        }
        assert(key.nonce@.subrange(0, 4) =~= key.nonce@);
        push_le(&mut iv, self.messages, 8);
        proof {
            lemma_le_bytes_len(self.messages as nat, 8);
        }
        let ciphertext = match gcm_encrypt(&key.value, &iv, data) {
            Some(c) => c,
            None => return Err(SecurityError::EncryptionFailed),
        };
        self.messages = self.messages + 1;
        Ok(EncryptedData { ciphertext, key_id: id, algorithm: EncryptionAlgorithm::Aes256Gcm, iv })
    }

    /// Opens `rec` with the retained key that it names.
    pub fn decrypt(&self, rec: &EncryptedData) -> (r: Result<Vec<u8>, SecurityError>)
        requires
            self.wf(),
        ensures
            match r {
                Ok(p) => self.decrypt_spec(*rec) == Ok::<Seq<u8>, SecurityError>(p@),
                Err(e) => self.decrypt_spec(*rec) == Err::<Seq<u8>, SecurityError>(e),
            },
    {
        let key = match self.active_keys.get(&rec.key_id) {
            Some(k) => k,
            None => return Err(SecurityError::KeyNotFound),
        };
        if rec.iv.len() != 12 {
            return Err(SecurityError::DecryptionFailed);
        }
        match gcm_decrypt(&key.value, &rec.iv, &rec.ciphertext) {
            Some(p) => Ok(p),
            None => Err(SecurityError::DecryptionFailed),
        }
    }

    pub fn key_count(&self) -> (r: usize)
        requires
            self.wf(),
        ensures
            r == self.keys().len(),
    {
        self.active_keys.len()
    }
}

/// Round trip: a record that `encrypt` sealed from `b` decrypts to `b`, on the engine that
/// `encrypt` left and on every later one that retains its keys.
pub proof fn lemma_round_trip(
    pre: EncryptionEngine,
    post: EncryptionEngine,
    later: EncryptionEngine,
    b: Seq<u8>,
    rec: EncryptedData,
)
    requires
        pre.wf(),
        EncryptionEngine::encrypted(pre, post, b, rec),
        EncryptionEngine::retains(later, post),
    ensures
        post.decrypt_spec(rec) == Ok::<Seq<u8>, SecurityError>(b),
        later.decrypt_spec(rec) == Ok::<Seq<u8>, SecurityError>(b),
{
    let id = rec.key_id;
    assert(pre.keys().contains_key(id));
    lemma_le_bytes_len(pre.message_count() as nat, 8);
    assert(later.keys().contains_key(id));
}

/// Key retention: after a rotation, a record sealed before it still decrypts to its message
/// under its original key id, and the next message is sealed under the new key.
pub proof fn lemma_key_retention(
    e0: EncryptionEngine,
    e1: EncryptionEngine,
    e2: EncryptionEngine,
    e3: EncryptionEngine,
    b: Seq<u8>,
    rec: EncryptedData,
    id: u64,
    b2: Seq<u8>,
    rec2: EncryptedData,
)
    requires
        e0.wf(),
        EncryptionEngine::encrypted(e0, e1, b, rec),
        EncryptionEngine::rotated(e1, e2, id),
        EncryptionEngine::encrypted(e2, e3, b2, rec2),
    ensures
        e2.decrypt_spec(rec) == Ok::<Seq<u8>, SecurityError>(b),
        e3.decrypt_spec(rec) == Ok::<Seq<u8>, SecurityError>(b),
        rec2.key_id == id,
        rec.key_id != id,
{
    lemma_round_trip(e0, e1, e2, b, rec);
    lemma_round_trip(e0, e1, e3, b, rec);
    assert(e1.keys().contains_key(rec.key_id));
}

/// Fresh nonce per message: records that two `encrypt` calls return differ in key or in
/// nonce, whatever happened between the calls, as long as the message count did not go back
/// (no operation of the engine lowers it).
pub proof fn lemma_fresh_nonce(
    e0: EncryptionEngine,
    e1: EncryptionEngine,
    e2: EncryptionEngine,
    e3: EncryptionEngine,
    b1: Seq<u8>,
    b2: Seq<u8>,
    r1: EncryptedData,
    r2: EncryptedData,
)
    requires
        e0.wf(),
        e2.wf(),
        EncryptionEngine::encrypted(e0, e1, b1, r1),
        EncryptionEngine::encrypted(e2, e3, b2, r2),
        e1.message_count() <= e2.message_count(),
    ensures
        r1.key_id != r2.key_id || r1.iv@ != r2.iv@,
{
    if r1.key_id == r2.key_id && r1.iv@ == r2.iv@ {
        let m0 = e0.message_count() as nat;
        let m2 = e2.message_count() as nat;
        let id = r1.key_id;
        assert(e0.keys().contains_key(id));
        assert(e2.keys().contains_key(id));
        lemma_le_bytes_len(m0, 8);
        lemma_le_bytes_len(m2, 8);
        assert(r1.iv@.subrange(4, 12) =~= le_bytes(m0, 8));
        assert(r2.iv@.subrange(4, 12) =~= le_bytes(m2, 8));
        lemma_radix_8();
        lemma_le_bytes_injective(m0, m2, 8);
    }
}

} // verus!
