//! Authenticated encryption with associated data.
//!
//! Payloads are encrypted with XChaCha20-Poly1305 when the nonce is 24
//! bytes and with ChaCha20-Poly1305 when it is 12 bytes. The ciphertext
//! is as long as the plaintext; the 16-byte Poly1305 tag is returned as
//! a separate value. Decryption authenticates before releasing a single
//! plaintext byte: a wrong tag yields `TamperDetected` and nothing else.

use vstd::prelude::*;
use chacha20poly1305::aead::{Aead, KeyInit, Payload};
use crate::bytesutil::concat2;
use crate::errors::FabricError;

verus! {

/// The longest plaintext the cipher accepts; beyond it the ChaCha20
/// block counter would wrap.
pub const AEAD_MAX_PLAINTEXT: u64 = 274877906880;

/// Ciphertext-with-tag that XChaCha20-Poly1305 produces for
/// `(key, nonce, aad, plaintext)`: a function of those four byte strings
/// alone.
pub uninterp spec fn xchacha_sealed(
    key: Seq<u8>,
    nonce: Seq<u8>,
    aad: Seq<u8>,
    plaintext: Seq<u8>,
) -> Seq<u8>;

/// Ciphertext-with-tag that ChaCha20-Poly1305 (12-byte nonce) produces
/// for `(key, nonce, aad, plaintext)`.
pub uninterp spec fn chacha_sealed(
    key: Seq<u8>,
    nonce: Seq<u8>,
    aad: Seq<u8>,
    plaintext: Seq<u8>,
) -> Seq<u8>;

/// Key and nonce lengths the cipher accepts: a 32-byte key with a
/// 24-byte (XChaCha) or 12-byte (ChaCha) nonce.
pub open spec fn aead_params_ok(key: Seq<u8>, nonce: Seq<u8>) -> bool {
    key.len() == 32 && (nonce.len() == 24 || nonce.len() == 12)
}

/// The ciphertext-with-tag for the cipher variant the nonce length
/// selects.
pub open spec fn aead_sealed(key: Seq<u8>, nonce: Seq<u8>, aad: Seq<u8>, plaintext: Seq<u8>) -> Seq<
    u8,
>
    recommends
        aead_params_ok(key, nonce),
{
    if nonce.len() == 24 {
        xchacha_sealed(key, nonce, aad, plaintext)
    } else {
        chacha_sealed(key, nonce, aad, plaintext)
    }
}

/// Relies on `Aead::encrypt` for `chacha20poly1305::XChaCha20Poly1305`:
/// the result is ciphertext followed by the 16-byte tag, a function of
/// key, nonce, aad and plaintext alone; it fails exactly when the
/// plaintext exceeds the cipher's maximum length.
#[verifier::external_body]
fn xchacha_encrypt_raw(key: &Vec<u8>, nonce: &Vec<u8>, aad: &Vec<u8>, plaintext: &Vec<u8>) -> (r: Result<Vec<u8>, FabricError>)
    requires
        key@.len() == 32,
        nonce@.len() == 24,
    ensures
        r is Ok <==> plaintext@.len() < AEAD_MAX_PLAINTEXT,
        r is Ok ==> r->Ok_0@ == xchacha_sealed(key@, nonce@, aad@, plaintext@) && r->Ok_0@.len()
            == plaintext@.len() + 16,
        r is Err ==> r->Err_0 == FabricError::InvalidParameters,
{
    let cipher = chacha20poly1305::XChaCha20Poly1305::new(chacha20poly1305::Key::from_slice(
        key.as_slice(),
    ));
    let payload = Payload { msg: plaintext.as_slice(), aad: aad.as_slice() };
    cipher.encrypt(chacha20poly1305::XNonce::from_slice(nonce.as_slice()), payload).map_err(
        |_| FabricError::InvalidParameters,
    )
}

/// Relies on `Aead::decrypt` for `chacha20poly1305::XChaCha20Poly1305`:
/// it returns the unique plaintext whose ciphertext-with-tag is `sealed`,
/// and fails when `sealed` is not one the cipher produces under this key,
/// nonce and aad.
#[verifier::external_body]
fn xchacha_decrypt_raw(key: &Vec<u8>, nonce: &Vec<u8>, aad: &Vec<u8>, sealed: &Vec<u8>) -> (r: Result<Vec<u8>, FabricError>)
    requires
        key@.len() == 32,
        nonce@.len() == 24,
    ensures
        forall|pt: Seq<u8>|
            (sealed@ == xchacha_sealed(key@, nonce@, aad@, pt) && pt.len() < AEAD_MAX_PLAINTEXT)
                ==> (r is Ok && r->Ok_0@ == pt),
        r is Ok ==> r->Ok_0@.len() + 16 == sealed@.len() && sealed@ == xchacha_sealed(
            key@,
            nonce@,
            aad@,
            r->Ok_0@,
        ),
        r is Err ==> r->Err_0 == FabricError::TamperDetected,
{
    let cipher = chacha20poly1305::XChaCha20Poly1305::new(chacha20poly1305::Key::from_slice(
        key.as_slice(),
    ));
    let payload = Payload { msg: sealed.as_slice(), aad: aad.as_slice() };
    cipher.decrypt(chacha20poly1305::XNonce::from_slice(nonce.as_slice()), payload).map_err(
        |_| FabricError::TamperDetected,
    )
}

/// Relies on `Aead::encrypt` for `chacha20poly1305::ChaCha20Poly1305`,
/// as `xchacha_encrypt_raw` does for the 24-byte-nonce variant.
#[verifier::external_body]
fn chacha_encrypt_raw(key: &Vec<u8>, nonce: &Vec<u8>, aad: &Vec<u8>, plaintext: &Vec<u8>) -> (r: Result<Vec<u8>, FabricError>)
    requires
        key@.len() == 32,
        nonce@.len() == 12,
    ensures
        r is Ok <==> plaintext@.len() < AEAD_MAX_PLAINTEXT,
        r is Ok ==> r->Ok_0@ == chacha_sealed(key@, nonce@, aad@, plaintext@) && r->Ok_0@.len()
            == plaintext@.len() + 16,
        r is Err ==> r->Err_0 == FabricError::InvalidParameters,
{
    let cipher = chacha20poly1305::ChaCha20Poly1305::new(chacha20poly1305::Key::from_slice(
        key.as_slice(),
    ));
    let payload = Payload { msg: plaintext.as_slice(), aad: aad.as_slice() };
    cipher.encrypt(chacha20poly1305::Nonce::from_slice(nonce.as_slice()), payload).map_err(
        |_| FabricError::InvalidParameters,
    )
}

/// Relies on `Aead::decrypt` for `chacha20poly1305::ChaCha20Poly1305`,
/// as `xchacha_decrypt_raw` does for the 24-byte-nonce variant.
#[verifier::external_body]
fn chacha_decrypt_raw(key: &Vec<u8>, nonce: &Vec<u8>, aad: &Vec<u8>, sealed: &Vec<u8>) -> (r: Result<Vec<u8>, FabricError>)
    requires
        key@.len() == 32,
        nonce@.len() == 12,
    ensures
        forall|pt: Seq<u8>|
            (sealed@ == chacha_sealed(key@, nonce@, aad@, pt) && pt.len() < AEAD_MAX_PLAINTEXT)
                ==> (r is Ok && r->Ok_0@ == pt),
        r is Ok ==> r->Ok_0@.len() + 16 == sealed@.len() && sealed@ == chacha_sealed(
            key@,
            nonce@,
            aad@,
            r->Ok_0@,
        ),
        r is Err ==> r->Err_0 == FabricError::TamperDetected,
{
    let cipher = chacha20poly1305::ChaCha20Poly1305::new(chacha20poly1305::Key::from_slice(
        key.as_slice(),
    ));
    let payload = Payload { msg: sealed.as_slice(), aad: aad.as_slice() };
    cipher.decrypt(chacha20poly1305::Nonce::from_slice(nonce.as_slice()), payload).map_err(
        |_| FabricError::TamperDetected,
    )
}

/// Encrypt `plaintext` under `key` and `nonce`, binding `aad`.
///
/// Returns the ciphertext (as long as the plaintext) and the 16-byte tag.
/// A key that is not 32 bytes, or a nonce that is neither 24 nor 12
/// bytes, is rejected as `InvalidParameters` before any cryptographic
/// work, as is a plaintext beyond the cipher's maximum length.
pub fn encrypt(key: &Vec<u8>, nonce: &Vec<u8>, aad: &Vec<u8>, plaintext: &Vec<u8>) -> (r: Result<(Vec<u8>, Vec<u8>), FabricError>)
    ensures
        r is Ok <==> (aead_params_ok(key@, nonce@) && plaintext@.len() < AEAD_MAX_PLAINTEXT),
        r is Err ==> r->Err_0 == FabricError::InvalidParameters,
        r is Ok ==> {
            &&& r->Ok_0.0@.len() == plaintext@.len()
            &&& r->Ok_0.1@.len() == 16
            &&& r->Ok_0.0@ + r->Ok_0.1@ == aead_sealed(key@, nonce@, aad@, plaintext@)
        },
{
    if key.len() != 32 || (nonce.len() != 24 && nonce.len() != 12) {
        return Err(FabricError::InvalidParameters);
    }
    let sealed = if nonce.len() == 24 {
        xchacha_encrypt_raw(key, nonce, aad, plaintext)
    } else {
        chacha_encrypt_raw(key, nonce, aad, plaintext)
    };
    match sealed {
        Ok(mut boxed) => {
            let ghost whole = boxed@;
            let cut = boxed.len() - 16;
            let tag = boxed.split_off(cut);
            assert(whole =~= boxed@ + tag@);
            Ok((boxed, tag))
        },
        Err(e) => Err(e),
    }
}

/// Decrypt `ciphertext` with `tag` under `key` and `nonce`, checking
/// `aad`.
///
/// The tag is authenticated before any plaintext is released. For every
/// plaintext the cipher can produce, decrypting its ciphertext and tag
/// returns exactly that plaintext; any other ciphertext/tag pair fails
/// with `TamperDetected`, and a returned plaintext is always the exact
/// preimage of what was presented.
pub fn decrypt(key: &Vec<u8>, nonce: &Vec<u8>, aad: &Vec<u8>, ciphertext: &Vec<u8>, tag: &Vec<u8>) -> (r: Result<Vec<u8>, FabricError>)
    ensures
        !aead_params_ok(key@, nonce@) ==> r is Err && r->Err_0 == FabricError::InvalidParameters,
        aead_params_ok(key@, nonce@) ==> {
            &&& forall|pt: Seq<u8>|
                (ciphertext@ + tag@ == aead_sealed(key@, nonce@, aad@, pt) && pt.len()
                    < AEAD_MAX_PLAINTEXT) ==> (r is Ok && r->Ok_0@ == pt)
            &&& (r is Ok ==> ciphertext@ + tag@ == aead_sealed(key@, nonce@, aad@, r->Ok_0@)
                && r->Ok_0@.len() == ciphertext@.len() + tag@.len() - 16)
            &&& (r is Err ==> r->Err_0 == FabricError::TamperDetected)
        },
{
    if key.len() != 32 || (nonce.len() != 24 && nonce.len() != 12) {
        return Err(FabricError::InvalidParameters);
    }
    let sealed = concat2(ciphertext, tag);
    if nonce.len() == 24 {
        xchacha_decrypt_raw(key, nonce, aad, &sealed)
    } else {
        chacha_decrypt_raw(key, nonce, aad, &sealed)
    }
}


} // verus!
