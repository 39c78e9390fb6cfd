//! The ed25519 signature scheme, as the workflow relies on it.
//!
//! The arithmetic itself is `ed25519_dalek`'s; this module states, and the
//! rest of the crate reasons from, what that crate promises: signing is a
//! function of the 32-byte secret seed and the message alone, the derived
//! public key is a function of the seed, and a produced signature passes
//! verification under that public key.

use vstd::prelude::*;
use ed25519_dalek::Signer;
use ed25519_dalek::Verifier;

verus! {

/// The 32-byte public key derived from a 32-byte secret seed.
pub uninterp spec fn ed25519_public_key_of(seed: Seq<u8>) -> Seq<u8>;

/// The 64-byte signature over a message under a secret seed.
pub uninterp spec fn ed25519_signature_of(seed: Seq<u8>, message: Seq<u8>) -> Seq<u8>;

/// Whether a signature passes ed25519 verification of a message under a
/// public key.
pub uninterp spec fn ed25519_verifies(public_key: Seq<u8>, message: Seq<u8>, signature: Seq<u8>) -> bool;

/// Relies on `ed25519_dalek::SigningKey::verifying_key`: the verifying key
/// is derived from the secret seed alone and serializes to 32 bytes.
#[verifier::external_body]
pub(crate) fn derive_public_key(seed: &[u8; 32]) -> (r: Vec<u8>)
    ensures
        r@ == ed25519_public_key_of(seed@),
        r@.len() == 32,
{
    ed25519_dalek::SigningKey::from_bytes(seed).verifying_key().to_bytes().to_vec()
}

/// Relies on `ed25519_dalek::Signer::sign` for `SigningKey`: RFC 8032
/// signing is deterministic in the seed and the message, yields 64 bytes,
/// and the produced signature verifies under the derived verifying key.
#[verifier::external_body]
pub(crate) fn sign_bytes(seed: &[u8; 32], message: &[u8]) -> (r: Vec<u8>)
    ensures
        r@ == ed25519_signature_of(seed@, message@),
        r@.len() == 64,
        ed25519_verifies(ed25519_public_key_of(seed@), message@, r@),
{
    ed25519_dalek::SigningKey::from_bytes(seed).sign(message).to_bytes().to_vec()
}

/// Relies on `ed25519_dalek::Verifier::verify` for `VerifyingKey`: it
/// accepts exactly the valid signatures of the message under the key.  A
/// 32-byte string that decodes to no curve point verifies nothing.
#[verifier::external_body]
pub(crate) fn verify_bytes(public_key: &[u8], message: &[u8], signature: &[u8]) -> (r: bool)
    requires
        public_key@.len() == 32,
        signature@.len() == 64,
    ensures
        r == ed25519_verifies(public_key@, message@, signature@),
{
    let pk: [u8; 32] = match public_key.try_into() {
        Ok(a) => a,
        Err(_) => return false,
    };
    let sig: [u8; 64] = match signature.try_into() {
        Ok(a) => a,
        Err(_) => return false,
    };
    match ed25519_dalek::VerifyingKey::from_bytes(&pk) {
        Ok(vk) => vk.verify(message, &ed25519_dalek::Signature::from_bytes(&sig)).is_ok(),
        Err(_) => false,
    }
}

} // verus!
