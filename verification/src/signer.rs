//! Signing a record over its canonical serialization.

use vstd::prelude::*;

use crate::crypto::base64_decode;
use crate::crypto::base64_encode;
use crate::crypto::base64_of;
use crate::crypto::ed25519_public;
use crate::crypto::ed25519_sig;
use crate::crypto::ed25519_sign;
use crate::crypto::ed25519_verifies;
use crate::crypto::ed25519_verify;
use crate::keystore::KeyPair;
use crate::record::canonical_record;
use crate::record::TelemetryRecord;
use crate::record::TelemetryRecordView;

verus! {

/// The accepted record together with the base64 text of the Ed25519
/// signature over its canonical serialization.
pub struct SignedEnvelope {
    pub payload: TelemetryRecord,
    pub signature: Vec<u8>,
}

/// The signature text the signer owes: the base64 of the Ed25519
/// signature over the canonical bytes of the record, under `key`. A
/// deterministic function of the record and the key alone.
pub open spec fn spec_signature(key: Seq<u8>, r: TelemetryRecordView) -> Seq<u8> {
    base64_of(ed25519_sig(key, canonical_record(r)))
}

/// Signs the canonical serialization of `record` and returns the base64
/// signature text. Deterministic: the result is a function of the
/// record's canonical bytes and the key, and the underlying signature
/// verifies under the pair's public key.
pub fn sign_payload(record: &TelemetryRecord, key: &KeyPair) -> (sig: Vec<u8>)
    requires
        key.wf(),
    ensures
        sig@ == spec_signature(key.key(), record@),
        ed25519_verifies(
            ed25519_public(key.key()),
            canonical_record(record@),
            ed25519_sig(key.key(), canonical_record(record@)),
        ),
        ed25519_sig(key.key(), canonical_record(record@)).len() == 64,
{
    let canonical = record.canonical_bytes();
    let raw = ed25519_sign(key.secret_bytes(), &canonical);
    base64_encode(&raw)
}

/// Produces signed envelopes; pure but for the key material it is handed.
pub struct Signer;

impl Signer {
    /// Wraps `record` with its signature text: the envelope carries the
    /// record unchanged, and its signature is `spec_signature` of the
    /// record and the key — the same record and key always yield the
    /// same, verifying signature.
    pub fn sign(record: TelemetryRecord, key: &KeyPair) -> (env: SignedEnvelope)
        requires
            key.wf(),
        ensures
            env.payload == record,
            env.signature@ == spec_signature(key.key(), record@),
            ed25519_verifies(
                ed25519_public(key.key()),
                canonical_record(record@),
                ed25519_sig(key.key(), canonical_record(record@)),
            ),
    {
        let signature = sign_payload(&record, key);
        SignedEnvelope { payload: record, signature }
    }
}

/// Signing then verifying under the pair's own public key succeeds: the
/// result is always `true`. Two signatures of the same record under the
/// same key are the same text, and this shows that both verify.
pub fn signed_record_verifies(record: &TelemetryRecord, key: &KeyPair) -> (ok: bool)
    requires
        key.wf(),
    ensures
        ok,
{
    let signature = sign_payload(record, key);
    let public_key = key.public_key();
    let ok = verify_record(record, &signature, &public_key);
    proof {
        let raw = ed25519_sig(key.key(), canonical_record(record@));
        assert(base64_of(raw) == signature@);
        assert(ok == ed25519_verifies(public_key@, canonical_record(record@), raw));
    }
    ok
}

/// Signing is deterministic in the canonical serialization: under one
/// key, records with the same canonical bytes are owed the same
/// signature text.
pub proof fn lemma_signature_deterministic(
    key: Seq<u8>,
    r1: TelemetryRecordView,
    r2: TelemetryRecordView,
)
    requires
        canonical_record(r1) == canonical_record(r2),
    ensures
        spec_signature(key, r1) == spec_signature(key, r2),
{
}

/// Checks a signature text against a record and a public key: the
/// canonical bytes of `record` are recomputed, the text is base64
/// decoded, and the Ed25519 verification is the verdict. For the base64
/// text of any 64-byte signature, the verdict is exactly Ed25519
/// acceptance of that signature over the record's canonical bytes.
pub fn verify_record(record: &TelemetryRecord, signature: &Vec<u8>, public_key: &Vec<u8>) -> (r:
    bool)
    requires
        public_key@.len() == 32,
    ensures
        forall|sig: Seq<u8>|
            #[trigger] base64_of(sig) == signature@ && sig.len() == 64 ==> r == ed25519_verifies(
                public_key@,
                canonical_record(record@),
                sig,
            ),
{
    let canonical = record.canonical_bytes();
    match base64_decode(signature) {
        Some(raw) => {
            if raw.len() == 64 {
                ed25519_verify(public_key, &canonical, &raw)
            } else {
                false
            }
        },
        None => false,
    }
}

} // verus!
