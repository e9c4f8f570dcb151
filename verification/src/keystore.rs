//! The signing key's lifecycle: load-or-generate and persistence.
//!
//! The key pair is created once at process start and never rotated. The
//! persisted form is the 32 secret key bytes themselves, so loading is
//! exactly the inverse of persisting; a stored file of any other length
//! is corrupt and must keep the process from serving requests.

use vstd::prelude::*;

use crate::crypto::ed25519_generate;
use crate::crypto::ed25519_public;
use crate::crypto::ed25519_public_key;

verus! {

/// The gateway's signing key pair, modelled by its 32 secret key bytes.
pub struct KeyPair {
    secret: Vec<u8>,
}

/// The persisted key material exists but cannot be read back as a key.
#[derive(Clone, Copy, PartialEq, Eq, Structural, Debug)]
pub enum KeyLoadError {
    /// The stored bytes are not a well-formed secret key.
    Corrupt,
}

/// What a stored byte string loads to: exactly the 32 secret key bytes
/// that were persisted, and nothing else loads at all.
pub open spec fn loads_to(stored: Seq<u8>, key: Seq<u8>) -> bool {
    stored.len() == 32 && key == stored
}

impl KeyPair {
    /// A key pair is well formed when its secret is 32 bytes long.
    pub open spec fn wf(&self) -> bool {
        self.key().len() == 32
    }

    /// The secret key bytes, as the contracts speak of them.
    pub closed spec fn key(&self) -> Seq<u8> {
        self.secret@
    }

    /// A freshly generated random key pair.
    pub fn new_random() -> (r: KeyPair)
        ensures
            r.wf(),
    {
        KeyPair { secret: ed25519_generate() }
    }

    /// The key pair holding exactly the given 32 secret key bytes.
    pub fn from_secret(secret: Vec<u8>) -> (r: KeyPair)
        requires
            secret@.len() == 32,
        ensures
            r.wf(),
            r.key() == secret@,
    {
        KeyPair { secret }
    }

    /// Whether this pair is well formed, decidable at run time for
    /// callers outside the verified core.
    pub fn is_wf(&self) -> (b: bool)
        ensures
            b == self.wf(),
    {
        self.secret.len() == 32
    }

    /// The secret key bytes, for handing to the signing primitive.
    pub fn secret_bytes(&self) -> (r: &Vec<u8>)
        ensures
            r@ == self.key(),
    {
        &self.secret
    }

    /// The bytes to persist; loading them yields this same key pair.
    pub fn to_persisted(&self) -> (r: Vec<u8>)
        requires
            self.wf(),
        ensures
            r@ == self.key(),
            loads_to(r@, self.key()),
    {
        let mut out: Vec<u8> = Vec::new();
        crate::json::push_all(&mut out, &self.secret);
        out
    }

    /// The public verification key for this pair.
    pub fn public_key(&self) -> (r: Vec<u8>)
        requires
            self.wf(),
        ensures
            r@ == ed25519_public(self.key()),
            r@.len() == 32,
    {
        ed25519_public_key(&self.secret)
    }
}

/// What `KeyStore::initialize` produced: the active key pair, and the
/// bytes to persist when a fresh pair was generated.
pub struct InitializedKey {
    /// The key pair the process will sign with.
    pub key: KeyPair,
    /// `Some` exactly when no key was stored: the bytes to write back.
    pub persist: Option<Vec<u8>>,
}

/// Owns the signing key's lifecycle.
pub struct KeyStore;

impl KeyStore {
    /// Decides the key at process start from what the configured path
    /// held: `stored == None` (no persisted key) generates a fresh pair
    /// and asks for it to be persisted; stored bytes that load yield
    /// exactly the persisted pair; anything else is a corrupt store and
    /// the process must not serve.
    pub fn initialize(stored: Option<Vec<u8>>) -> (r: Result<InitializedKey, KeyLoadError>)
        ensures
            match stored {
                None => {
                    &&& r is Ok
                    &&& r->Ok_0.key.wf()
                    &&& r->Ok_0.persist is Some
                    &&& r->Ok_0.persist->0@ == r->Ok_0.key.key()
                    &&& loads_to(r->Ok_0.persist->0@, r->Ok_0.key.key())
                },
                Some(bytes) => {
                    &&& (r is Ok <==> bytes@.len() == 32)
                    &&& (r is Ok ==> {
                        &&& r->Ok_0.key.wf()
                        &&& loads_to(bytes@, r->Ok_0.key.key())
                        &&& r->Ok_0.persist is None
                    })
                    &&& (r is Err ==> r->Err_0 == KeyLoadError::Corrupt)
                },
            },
    {
        match stored {
            None => {
                let key = KeyPair::new_random();
                let persist = key.to_persisted();
                Ok(InitializedKey { key, persist: Some(persist) })
            },
            Some(bytes) => {
                if bytes.len() == 32 {
                    Ok(InitializedKey { key: KeyPair::from_secret(bytes), persist: None })
                } else {
                    Err(KeyLoadError::Corrupt)
                }
            },
        }
    }
}

/// Key loading is deterministic: one persisted byte string loads to one
/// key, so initializing twice against the same persisted store yields
/// the same key pair both times.
pub proof fn lemma_key_load_idempotent(stored: Seq<u8>, k1: Seq<u8>, k2: Seq<u8>)
    requires
        loads_to(stored, k1),
        loads_to(stored, k2),
    ensures
        k1 == k2,
{
}

/// Persisting round-trips: the persisted form of any well-formed key
/// loads back to exactly that key.
pub proof fn lemma_persist_round_trip(key: Seq<u8>)
    requires
        key.len() == 32,
    ensures
        loads_to(key, key),
{
}

} // verus!
