//! Ed25519 signing and strict verification, and key material.
//!
//! A signing key is its 32-byte seed; the 32-byte public key is derived
//! from it. Signatures are 64 bytes over the exact message handed in.
//! Verification is strict: malleable or otherwise non-canonical
//! signatures are rejected, a wrong-length signature or public key is a
//! verification failure rather than a panic, and only a public key whose
//! bytes do not decode to a curve point reports `InvalidKey`.

use vstd::prelude::*;
use ed25519_dalek::Signer;
use rand::RngCore;
use crate::errors::FabricError;

verus! {

/// The 32-byte Ed25519 public key derived from a 32-byte seed.
pub uninterp spec fn ed25519_public_of(seed: Seq<u8>) -> Seq<u8>;

/// The 64-byte Ed25519 signature over `message` under the key with the
/// given seed. Ed25519 signing is deterministic, so this is a function
/// of seed and message alone.
pub uninterp spec fn ed25519_signature_of(seed: Seq<u8>, message: Seq<u8>) -> Seq<u8>;

/// Whether strict Ed25519 verification accepts `sig` over `message`
/// under the public key `pubkey`.
pub uninterp spec fn ed25519_verifies(pubkey: Seq<u8>, message: Seq<u8>, sig: Seq<u8>) -> bool;

/// Whether 32 public-key bytes decode to a valid curve point.
pub uninterp spec fn ed25519_pubkey_decodable(pubkey: Seq<u8>) -> bool;

/// Relies on `ed25519_dalek::SigningKey::from_bytes` and
/// `SigningKey::verifying_key`: the public key is a function of the seed
/// alone, 32 bytes, and always a decodable curve point.
#[verifier::external_body]
fn derive_public_key(seed: &Vec<u8>) -> (r: Vec<u8>)
    requires
        seed@.len() == 32,
    ensures
        r@ == ed25519_public_of(seed@),
        r@.len() == 32,
        ed25519_pubkey_decodable(r@),
{
    let mut arr = [0u8; 32];
    arr.copy_from_slice(seed.as_slice());
    let signing_key = ed25519_dalek::SigningKey::from_bytes(&arr);
    signing_key.verifying_key().to_bytes().to_vec()
}

/// Relies on `Signer::sign` for `ed25519_dalek::SigningKey`: RFC 8032
/// deterministic signing, a function of seed and message alone, 64
/// bytes; the crate's own strict verification accepts the signature it
/// produced under the derived public key.
#[verifier::external_body]
fn sign_raw(seed: &Vec<u8>, message: &Vec<u8>) -> (r: Vec<u8>)
    requires
        seed@.len() == 32,
    ensures
        r@ == ed25519_signature_of(seed@, message@),
        r@.len() == 64,
        ed25519_verifies(ed25519_public_of(seed@), message@, r@),
{
    let mut arr = [0u8; 32];
    arr.copy_from_slice(seed.as_slice());
    let signing_key = ed25519_dalek::SigningKey::from_bytes(&arr);
    signing_key.sign(message.as_slice()).to_bytes().to_vec()
}

/// Relies on `ed25519_dalek::VerifyingKey::from_bytes` (fails exactly
/// when the bytes decode to no curve point) and
/// `VerifyingKey::verify_strict` (accepts or rejects as a function of
/// key, message and signature alone).
#[verifier::external_body]
fn verify_raw(pubkey: &Vec<u8>, message: &Vec<u8>, sig: &Vec<u8>) -> (r: Result<bool, FabricError>)
    requires
        pubkey@.len() == 32,
        sig@.len() == 64,
    ensures
        ed25519_pubkey_decodable(pubkey@) ==> r is Ok && r->Ok_0 == ed25519_verifies(
            pubkey@,
            message@,
            sig@,
        ),
        !ed25519_pubkey_decodable(pubkey@) ==> r is Err && r->Err_0 == FabricError::InvalidKey,
{
    let mut arr = [0u8; 32];
    arr.copy_from_slice(pubkey.as_slice());
    let vk = match ed25519_dalek::VerifyingKey::from_bytes(&arr) {
        Ok(vk) => vk,
        Err(_) => {
            return Err(FabricError::InvalidKey);
        },
    };
    let signature = match ed25519_dalek::Signature::from_slice(sig.as_slice()) {
        Ok(s) => s,
        Err(_) => {
            return Err(FabricError::InvalidKey);
        },
    };
    Ok(vk.verify_strict(message.as_slice(), &signature).is_ok())
}

/// Relies on `rand::rngs::OsRng` filling the buffer from the operating
/// system's secure random source; nothing is promised of the bytes but
/// their number.
#[verifier::external_body]
pub fn random_bytes(len: usize) -> (r: Vec<u8>)
    ensures
        r@.len() == len,
{
    let mut buf = vec![0u8; len];
    rand::rngs::OsRng.fill_bytes(&mut buf);
    buf
}

/// Sign `message` with the 32-byte signing-key seed `secret_key`.
///
/// The signature is the deterministic Ed25519 signature of the message
/// under that key, and strict verification under the derived public key
/// accepts it. A seed of any other length is rejected as `InvalidKey`.
pub fn sign(secret_key: &Vec<u8>, message: &Vec<u8>) -> (r: Result<Vec<u8>, FabricError>)
    ensures
        secret_key@.len() == 32 ==> {
            &&& r is Ok
            &&& r->Ok_0@ == ed25519_signature_of(secret_key@, message@)
            &&& r->Ok_0@.len() == 64
            &&& ed25519_verifies(ed25519_public_of(secret_key@), message@, r->Ok_0@)
        },
        secret_key@.len() != 32 ==> r is Err && r->Err_0 == FabricError::InvalidKey,
{
    if secret_key.len() != 32 {
        return Err(FabricError::InvalidKey);
    }
    Ok(sign_raw(secret_key, message))
}

/// Strictly verify `signature` over `message` under `public_key`.
///
/// A signature that is not exactly 64 bytes, or a public key that is not
/// exactly 32 bytes, is a verification failure (`Ok(false)`), never a
/// panic. `InvalidKey` is reported only for 32 key bytes that decode to
/// no curve point. Otherwise the outcome is strict Ed25519 verification,
/// a function of key, message and signature alone.
pub fn verify(public_key: &Vec<u8>, message: &Vec<u8>, signature: &Vec<u8>) -> (r: Result<bool, FabricError>)
    ensures
        signature@.len() != 64 ==> r is Ok && r->Ok_0 == false,
        signature@.len() == 64 && public_key@.len() != 32 ==> r is Ok && r->Ok_0 == false,
        signature@.len() == 64 && public_key@.len() == 32 && !ed25519_pubkey_decodable(public_key@)
            ==> r is Err && r->Err_0 == FabricError::InvalidKey,
        signature@.len() == 64 && public_key@.len() == 32 && ed25519_pubkey_decodable(public_key@)
            ==> r is Ok && r->Ok_0 == ed25519_verifies(public_key@, message@, signature@),
{
    if signature.len() != 64 {
        return Ok(false);
    }
    if public_key.len() != 32 {
        return Ok(false);
    }
    verify_raw(public_key, message, signature)
}

/// An Ed25519 keypair: the 32-byte signing-key seed and the 32-byte
/// public key derived from it.
#[derive(Debug)]
pub struct Keypair {
    pub signing_key: Vec<u8>,
    pub verifying_key: Vec<u8>,
}

impl Keypair {
    /// The keys belong together: the public key is the one derived from
    /// the seed.
    pub open spec fn wf(self) -> bool {
        &&& self.signing_key@.len() == 32
        &&& self.verifying_key@ == ed25519_public_of(self.signing_key@)
        &&& self.verifying_key@.len() == 32
        &&& ed25519_pubkey_decodable(self.verifying_key@)
    }

    /// Generate a keypair from a fresh random 32-byte seed.
    pub fn generate() -> (r: Keypair)
        ensures
            r.wf(),
    {
        let seed = random_bytes(32);
        Keypair::from_bytes(&seed)
    }

    /// Build the keypair whose signing key is the given 32-byte seed.
    pub fn from_bytes(seed: &Vec<u8>) -> (r: Keypair)
        requires
            seed@.len() == 32,
        ensures
            r.wf(),
            r.signing_key@ == seed@,
    {
        let mut signing_key: Vec<u8> = Vec::new();
        crate::bytesutil::append_bytes(&mut signing_key, seed);
        let verifying_key = derive_public_key(&signing_key);
        Keypair { signing_key, verifying_key }
    }
}

} // verus!
