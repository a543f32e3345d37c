use vstd::prelude::*;
use ed25519_dalek::{Signer, Verifier};

verus! {

/// The Ed25519 verifying key (compressed point) derived from a 32-byte secret key.
pub uninterp spec fn ed25519_public_key(secret: Seq<u8>) -> Seq<u8>;

/// Whether 32 bytes decompress to a curve point, i.e. form a usable verifying key.
pub uninterp spec fn ed25519_public_key_valid(public: Seq<u8>) -> bool;

/// The (deterministic) Ed25519 signature of a message under a secret key.
pub uninterp spec fn ed25519_signature(secret: Seq<u8>, msg: Seq<u8>) -> Seq<u8>;

/// Whether a signature over a message is accepted for a verifying key, the key's
/// decompression included.
pub uninterp spec fn ed25519_accepts(public: Seq<u8>, msg: Seq<u8>, sig: Seq<u8>) -> bool;

/// `ed25519_dalek::SigningKey::generate` with the thread-local random generator;
/// returns the secret bytes. Nothing is promised of them.
#[verifier::external_body]
pub(crate) fn generate_signing_key() -> [u8; 32] {
    ed25519_dalek::SigningKey::generate(&mut rand::thread_rng()).to_bytes()
}

/// `SigningKey::verifying_key`: the verifying key is a function of the secret
/// bytes, and it is a valid compressed point (it is the compression of the point
/// computed from the secret).
#[verifier::external_body]
pub(crate) fn public_key_of(secret: &[u8; 32]) -> (pk: [u8; 32])
    ensures
        pk@ == ed25519_public_key(secret@),
        ed25519_public_key_valid(pk@),
{
    ed25519_dalek::SigningKey::from_bytes(secret).verifying_key().to_bytes()
}

/// `VerifyingKey::from_bytes` succeeds exactly on valid keys.
#[verifier::external_body]
pub(crate) fn public_key_is_valid(public: &[u8; 32]) -> (ok: bool)
    ensures
        ok == ed25519_public_key_valid(public@),
{
    ed25519_dalek::VerifyingKey::from_bytes(public).is_ok()
}

/// `Signer::sign` of `SigningKey`: a deterministic function of secret and message;
/// the signature is accepted under the matching verifying key.
#[verifier::external_body]
pub(crate) fn sign_bytes(secret: &[u8; 32], msg: &[u8]) -> (sig: [u8; 64])
    ensures
        sig@ == ed25519_signature(secret@, msg@),
        ed25519_accepts(ed25519_public_key(secret@), msg@, sig@),
{
    ed25519_dalek::SigningKey::from_bytes(secret).sign(msg).to_bytes()
}

/// `Verifier::verify` of `VerifyingKey` (after `VerifyingKey::from_bytes`): whether
/// the signature is accepted; a key that does not decompress accepts nothing.
#[verifier::external_body]
pub(crate) fn verify_bytes(public: &[u8; 32], msg: &[u8], sig: &[u8; 64]) -> (ok: bool)
    ensures
        ok == ed25519_accepts(public@, msg@, sig@),
        !ed25519_public_key_valid(public@) ==> !ok,
{
    match ed25519_dalek::VerifyingKey::from_bytes(public) {
        Ok(vk) => vk.verify(msg, &ed25519_dalek::Signature::from_bytes(sig)).is_ok(),
        Err(_) => false,
    }
}

} // verus!
