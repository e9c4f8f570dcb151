//! Trusted boundary to the Ed25519 and base64 implementations.
//!
//! Signing, key derivation, verification and base64 coding are pure
//! functions of their arguments; their results are named by
//! uninterpreted spec functions, and the contracts of the wrappers
//! below are the only facts the rest of the library knows about them.

use vstd::prelude::*;

use ed25519_dalek::Signer;
use ed25519_dalek::Verifier;
use base64::Engine;

verus! {

/// The Ed25519 signature over `msg` by the signing key whose secret
/// bytes are `key` (a deterministic function of both; RFC 8032).
pub uninterp spec fn ed25519_sig(key: Seq<u8>, msg: Seq<u8>) -> Seq<u8>;

/// The public verification key derived from the secret key bytes `key`.
pub uninterp spec fn ed25519_public(key: Seq<u8>) -> Seq<u8>;

/// Whether `sig` is accepted as a signature over `msg` under the public
/// key bytes `public_key`.
pub uninterp spec fn ed25519_verifies(public_key: Seq<u8>, msg: Seq<u8>, sig: Seq<u8>) -> bool;

/// The base64 text (standard alphabet, padded) of `bytes`.
pub uninterp spec fn base64_of(bytes: Seq<u8>) -> Seq<u8>;

/// Relies on `rand::rngs::OsRng` and `ed25519_dalek::SigningKey::generate`,
/// which draws the 32 secret key bytes from the system's entropy source.
/// Nothing is promised of the value beyond its length.
#[verifier::external_body]
pub(crate) fn ed25519_generate() -> (r: Vec<u8>)
    ensures
        r@.len() == 32,
{
    let mut csprng = rand::rngs::OsRng;
    ed25519_dalek::SigningKey::generate(&mut csprng).to_bytes().to_vec()
}

/// Relies on `ed25519_dalek::SigningKey::from_bytes` (total on 32 bytes)
/// and `Signer::sign`: Ed25519 signing is a deterministic function of the
/// secret key and the message, its signature is 64 bytes, and a signature
/// so produced verifies under the derived public key.
#[verifier::external_body]
pub(crate) fn ed25519_sign(key: &Vec<u8>, msg: &Vec<u8>) -> (r: Vec<u8>)
    requires
        key@.len() == 32,
    ensures
        r@ == ed25519_sig(key@, msg@),
        r@.len() == 64,
        ed25519_verifies(ed25519_public(key@), msg@, r@),
{
    let mut secret = [0u8; 32];
    secret.copy_from_slice(key.as_slice());
    let signing_key = ed25519_dalek::SigningKey::from_bytes(&secret);
    signing_key.sign(msg.as_slice()).to_bytes().to_vec()
}

/// Relies on `ed25519_dalek::SigningKey::verifying_key`: the public key
/// is a deterministic function of the secret key bytes, 32 bytes long.
#[verifier::external_body]
pub(crate) fn ed25519_public_key(key: &Vec<u8>) -> (r: Vec<u8>)
    requires
        key@.len() == 32,
    ensures
        r@ == ed25519_public(key@),
        r@.len() == 32,
{
    let mut secret = [0u8; 32];
    secret.copy_from_slice(key.as_slice());
    let signing_key = ed25519_dalek::SigningKey::from_bytes(&secret);
    signing_key.verifying_key().to_bytes().to_vec()
}

/// Relies on `ed25519_dalek::VerifyingKey::from_bytes` and
/// `Verifier::verify`: acceptance is a deterministic function of public
/// key bytes, message and signature; key bytes that are no curve point
/// accept nothing.
#[verifier::external_body]
pub(crate) fn ed25519_verify(public_key: &Vec<u8>, msg: &Vec<u8>, sig: &Vec<u8>) -> (r: bool)
    requires
        public_key@.len() == 32,
        sig@.len() == 64,
    ensures
        r == ed25519_verifies(public_key@, msg@, sig@),
{
    let mut pk = [0u8; 32];
    pk.copy_from_slice(public_key.as_slice());
    let mut sg = [0u8; 64];
    sg.copy_from_slice(sig.as_slice());
    match ed25519_dalek::VerifyingKey::from_bytes(&pk) {
        Ok(vk) => {
            let signature = ed25519_dalek::Signature::from_bytes(&sg);
            vk.verify(msg.as_slice(), &signature).is_ok()
        },
        Err(_) => false,
    }
}

/// Relies on `base64::Engine::encode` with the standard padded engine:
/// the text is a deterministic function of the input bytes, four text
/// bytes for every started group of three input bytes.
#[verifier::external_body]
pub(crate) fn base64_encode(bytes: &Vec<u8>) -> (r: Vec<u8>)
    ensures
        r@ == base64_of(bytes@),
        r@.len() == 4 * ((bytes@.len() + 2) / 3),
{
    base64::engine::general_purpose::STANDARD.encode(bytes.as_slice()).into_bytes()
}

/// Relies on `base64::Engine::decode` with the standard padded engine:
/// decoding is the inverse of encoding, so on the exact encoding of some
/// byte string it returns that byte string.
#[verifier::external_body]
pub(crate) fn base64_decode(text: &Vec<u8>) -> (r: Option<Vec<u8>>)
    ensures
        forall|b: Seq<u8>| #[trigger] base64_of(b) == text@ ==> r is Some && r->0@ == b,
{
    base64::engine::general_purpose::STANDARD.decode(text.as_slice()).ok()
}

} // verus!
