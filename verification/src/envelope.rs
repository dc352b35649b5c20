//! Envelope assembly and disassembly.
//!
//! `assemble` builds an outbound envelope: it draws the next sequence
//! number and a fresh random nonce, canonicalizes the AAD record,
//! encrypts the payload when a key epoch is active, signs
//! `aad || payload`, and derives the message id. `disassemble` validates
//! an inbound envelope in a fixed order — recompute the message id,
//! verify the signature, consult the replay filter, then decrypt — so
//! that replay state is never touched by an envelope whose cheap,
//! stateless checks already failed.

use vstd::prelude::*;
use crate::aead::{aead_params_ok, aead_sealed, decrypt, encrypt, AEAD_MAX_PLAINTEXT};
use crate::bytesutil::{bytes_eq, clone_bytes, concat2};
use crate::codec::{aad_canon, canonicalize, opt_bytes_view, AadModel, AadRecord};
use crate::crypto::{
    ed25519_pubkey_decodable, ed25519_public_of, ed25519_signature_of, ed25519_verifies,
    random_bytes, sign, verify,
};
use crate::errors::FabricError;
use crate::msgid::{derive_message_id, message_id_of};
use crate::replay::ReplayFilter;

verus! {

/// The per-identity sequence counter: hands out 1, 2, 3, ... exactly
/// once each, and refuses to run again once it is exhausted.
#[derive(Debug)]
pub struct SequenceCounter {
    next: u64,
}

impl SequenceCounter {
    /// The sequence number the next call hands out.
    pub closed spec fn next_value(self) -> u64 {
        self.next
    }

    /// Counters start at 1; 0 is never issued.
    pub open spec fn wf(self) -> bool {
        self.next_value() >= 1
    }

    /// A fresh counter, whose first issued number is 1.
    pub fn new() -> (r: SequenceCounter)
        ensures
            r.wf(),
            r.next_value() == 1,
    {
        SequenceCounter { next: 1 }
    }

    /// A counter that resumes at `first`: for deterministic tests and
    /// for identities whose state is restored.
    pub fn starting_at(first: u64) -> (r: SequenceCounter)
        requires
            first >= 1,
        ensures
            r.wf(),
            r.next_value() == first,
    {
        SequenceCounter { next: first }
    }

    /// Hand out the next sequence number, never the same one twice.
    ///
    /// Once the counter space is exhausted it reports
    /// `SequenceExhausted` for good: no further number is ever issued
    /// for this identity.
    pub fn next_seq(&mut self) -> (r: Result<u64, FabricError>)
        requires
            old(self).wf(),
        ensures
            final(self).wf(),
            old(self).next_value() < u64::MAX ==> r is Ok && r->Ok_0 == old(self).next_value()
                && final(self).next_value() == old(self).next_value() + 1,
            old(self).next_value() == u64::MAX ==> r is Err && r->Err_0
                == FabricError::SequenceExhausted
                && final(self).next_value() == old(self).next_value(),
    {
        if self.next == u64::MAX {
            Err(FabricError::SequenceExhausted)
        } else {
            let v = self.next;
            self.next = self.next + 1;
            Ok(v)
        }
    }
}

/// Draw a fresh random nonce of `len` bytes from the secure source.
///
/// Nonces must be unique per key epoch and sender; 24-byte nonces make
/// random collision negligible, which is why the 24-byte cipher variant
/// is the default.
pub fn next_nonce(len: usize) -> (r: Vec<u8>)
    ensures
        r@.len() == len,
{
    random_bytes(len)
}

/// The unit exchanged over the transport.
#[derive(Debug)]
pub struct Envelope {
    /// Ed25519 public key of the sender, 32 bytes.
    pub pubkey: Vec<u8>,
    /// Ed25519 signature over `aad || payload`, 64 bytes.
    pub sig: Vec<u8>,
    /// Per-message nonce, 24 (XChaCha) or 12 (ChaCha) bytes.
    pub nonce: Vec<u8>,
    /// Canonical AAD bytes.
    pub aad: Vec<u8>,
    /// Plaintext, or ciphertext-with-tag when `key_version > 0`.
    pub payload: Vec<u8>,
    /// Per-sender counter, starts at 1.
    pub seq: u64,
    /// Lowercase hex of `BLAKE3(pubkey || LE64(seq) || nonce)`.
    pub msg_id: Vec<u8>,
    /// 0 means no end-to-end encryption; otherwise the key epoch.
    pub key_version: u32,
    /// Routing label, also bound inside the AAD.
    pub topic: Vec<u8>,
}

/// The bytes the envelope signature covers.
pub open spec fn signed_bytes(env: Envelope) -> Seq<u8> {
    env.aad@ + env.payload@
}

/// Whether the envelope's message id equals the one recomputed from
/// `(pubkey, seq, nonce)`.
pub open spec fn msg_id_ok(env: Envelope) -> bool {
    env.msg_id@ == message_id_of(env.pubkey@, env.seq, env.nonce@)
}

/// Whether strict verification accepts the envelope signature under
/// `vk`: the key and signature have their exact lengths, the key
/// decodes, and Ed25519 accepts.
pub open spec fn sig_accepted(env: Envelope, vk: Seq<u8>) -> bool {
    &&& env.sig@.len() == 64
    &&& vk.len() == 32
    &&& ed25519_pubkey_decodable(vk)
    &&& ed25519_verifies(vk, signed_bytes(env), env.sig@)
}

/// Whether verification rejects the envelope signature (as opposed to
/// failing on an undecodable key): a wrong-length signature or key, or
/// a decodable key under which Ed25519 rejects.
pub open spec fn sig_rejected(env: Envelope, vk: Seq<u8>) -> bool {
    ||| env.sig@.len() != 64
    ||| vk.len() != 32
    ||| (ed25519_pubkey_decodable(vk) && !ed25519_verifies(vk, signed_bytes(env), env.sig@))
}

/// The AAD record an assembled envelope carries.
pub open spec fn assemble_model(
    topic: Seq<u8>,
    tenant_id: Option<Seq<u8>>,
    content_type: Option<Seq<u8>>,
    key_version: u32,
) -> AadModel {
    AadModel { topic, tenant_id, content_type, key_version }
}

/// Whether the encryption inputs let the payload be sealed: no key
/// epoch at all, or a 32-byte key with a payload the cipher accepts.
pub open spec fn encryption_inputs_ok(
    key_version: u32,
    key: Option<Vec<u8>>,
    payload: Seq<u8>,
) -> bool {
    key_version == 0 || (key matches Option::Some(k) && k@.len() == 32 && payload.len()
        < AEAD_MAX_PLAINTEXT)
}

/// Build an outbound envelope.
///
/// Draws the next sequence number from `counter` (so two calls issue
/// strictly increasing numbers) and a fresh `nonce_len`-byte random
/// nonce. The AAD record `{topic, tenant_id?, content_type?,
/// key_version}` is canonicalized into the envelope; when `key_version`
/// is positive the payload is sealed under `key` before signing, so the
/// signature covers exactly what travels. Inputs are validated before
/// the counter advances: a failed call never burns a sequence number.
pub fn assemble(
    signing_key: &Vec<u8>,
    counter: &mut SequenceCounter,
    topic: &Vec<u8>,
    tenant_id: &Option<Vec<u8>>,
    content_type: &Option<Vec<u8>>,
    payload: &Vec<u8>,
    key_version: u32,
    key: &Option<Vec<u8>>,
    nonce_len: usize,
) -> (r: Result<Envelope, FabricError>)
    requires
        signing_key@.len() == 32,
        nonce_len == 24 || nonce_len == 12,
        old(counter).wf(),
    ensures
        final(counter).wf(),
        !encryption_inputs_ok(key_version, *key, payload@) ==> r is Err && r->Err_0
            == FabricError::InvalidParameters
            && final(counter).next_value() == old(counter).next_value(),
        encryption_inputs_ok(key_version, *key, payload@) && !assemble_model(
            topic@,
            opt_bytes_view(*tenant_id),
            opt_bytes_view(*content_type),
            key_version,
        ).wf() ==> r is Err && r->Err_0 == FabricError::MalformedAad
            && final(counter).next_value() == old(counter).next_value(),
        encryption_inputs_ok(key_version, *key, payload@) && assemble_model(
            topic@,
            opt_bytes_view(*tenant_id),
            opt_bytes_view(*content_type),
            key_version,
        ).wf() && old(counter).next_value() == u64::MAX ==> r is Err && r->Err_0
            == FabricError::SequenceExhausted
            && final(counter).next_value() == old(counter).next_value(),
        r is Ok <==> (encryption_inputs_ok(key_version, *key, payload@) && assemble_model(
            topic@,
            opt_bytes_view(*tenant_id),
            opt_bytes_view(*content_type),
            key_version,
        ).wf() && old(counter).next_value() < u64::MAX),
        r is Ok ==> {
            let env = r->Ok_0;
            &&& env.seq == old(counter).next_value()
            &&& final(counter).next_value() == old(counter).next_value() + 1
            &&& env.topic@ == topic@
            &&& env.key_version == key_version
            &&& env.pubkey@ == ed25519_public_of(signing_key@)
            &&& env.pubkey@.len() == 32
            &&& env.nonce@.len() == nonce_len
            &&& env.aad@ == aad_canon(
                assemble_model(
                    topic@,
                    opt_bytes_view(*tenant_id),
                    opt_bytes_view(*content_type),
                    key_version,
                ),
            )
            &&& env.payload@ == (if key_version == 0 {
                payload@
            } else {
                aead_sealed(key->Some_0@, env.nonce@, env.aad@, payload@)
            })
            &&& env.sig@ == ed25519_signature_of(signing_key@, signed_bytes(env))
            &&& env.sig@.len() == 64
            &&& ed25519_verifies(env.pubkey@, signed_bytes(env), env.sig@)
            &&& sig_accepted(env, env.pubkey@)
            &&& msg_id_ok(env)
            &&& env.msg_id@.len() == 64
        },
{
    // validate the encryption inputs before anything advances
    let enc_key: Option<&Vec<u8>> = if key_version > 0 {
        match key {
            Option::Some(k) => {
                if k.len() != 32 {
                    return Err(FabricError::InvalidParameters);
                }
                if !((payload.len() as u64) < AEAD_MAX_PLAINTEXT) {
                    return Err(FabricError::InvalidParameters);
                }
                Option::Some(k)
            },
            Option::None => {
                return Err(FabricError::InvalidParameters);
            },
        }
    } else {
        Option::None
    };
    // canonical AAD bytes
    let record = AadRecord {
        topic: clone_bytes(topic),
        tenant_id: match tenant_id {
            Option::Some(t) => Option::Some(clone_bytes(t)),
            Option::None => Option::None,
        },
        content_type: match content_type {
            Option::Some(c) => Option::Some(clone_bytes(c)),
            Option::None => Option::None,
        },
        key_version,
    };
    assert(record@ == assemble_model(
        topic@,
        opt_bytes_view(*tenant_id),
        opt_bytes_view(*content_type),
        key_version,
    ));
    let aad = match canonicalize(&record) {
        Ok(aad) => aad,
        Err(_) => {
            return Err(FabricError::MalformedAad);
        },
    };
    // sequence number and nonce
    let seq = match counter.next_seq() {
        Ok(seq) => seq,
        Err(_) => {
            return Err(FabricError::SequenceExhausted);
        },
    };
    let nonce = random_bytes(nonce_len);
    // seal the payload when a key epoch is active
    let wire_payload: Vec<u8> = match enc_key {
        Option::Some(k) => {
            match encrypt(k, &nonce, &aad, payload) {
                Ok((ct, tag)) => concat2(&ct, &tag),
                Err(_) => {
                    assert(false);
                    return Err(FabricError::InvalidParameters);
                },
            }
        },
        Option::None => clone_bytes(payload),
    };
    // sign aad || payload
    let signed = concat2(&aad, &wire_payload);
    let sig = match sign(signing_key, &signed) {
        Ok(sig) => sig,
        Err(_) => {
            assert(false);
            return Err(FabricError::InvalidKey);
        },
    };
    let pubkey = crate::crypto::Keypair::from_bytes(signing_key).verifying_key;
    let msg_id = derive_message_id(&pubkey, seq, &nonce);
    let env = Envelope {
        pubkey,
        sig,
        nonce,
        aad,
        payload: wire_payload,
        seq,
        msg_id,
        key_version,
        topic: clone_bytes(topic),
    };
    assert(signed_bytes(env) == signed@);
    Ok(env)
}

/// Validate an inbound envelope and return its plaintext payload.
///
/// Checks run in a fixed order, cheapest and stateless first: the
/// message id is recomputed and compared (`MessageIdMismatch`), the
/// signature is strictly verified over `aad || payload` under
/// `verifying_key` (`SignatureInvalid`, or `InvalidKey` for an
/// undecodable key), only then is the replay filter consulted
/// (`ReplayDetected`), and last the payload is opened when
/// `key_version > 0` (`TamperDetected`, or `InvalidParameters` for a
/// missing or ill-sized key or nonce). The replay window therefore
/// never advances on an envelope whose message id or signature is
/// wrong.
pub fn disassemble(
    verifying_key: &Vec<u8>,
    filter: &mut ReplayFilter,
    envelope: &Envelope,
    key: &Option<Vec<u8>>,
) -> (r: Result<Vec<u8>, FabricError>)
    requires
        old(filter).wf(),
    ensures
        final(filter).wf(),
        !msg_id_ok(*envelope) ==> r is Err && r->Err_0 == FabricError::MessageIdMismatch
            && ReplayFilter::unchanged(*old(filter), *final(filter)),
        msg_id_ok(*envelope) && sig_rejected(*envelope, verifying_key@) ==> r is Err && r->Err_0
            == FabricError::SignatureInvalid && ReplayFilter::unchanged(
            *old(filter),
            *final(filter),
        ),
        msg_id_ok(*envelope) && envelope.sig@.len() == 64 && verifying_key@.len() == 32
            && !ed25519_pubkey_decodable(verifying_key@) ==> r is Err && r->Err_0
            == FabricError::InvalidKey && ReplayFilter::unchanged(*old(filter), *final(filter)),
        msg_id_ok(*envelope) && sig_accepted(*envelope, verifying_key@) && !old(filter).accepts(
            envelope.seq,
        ) ==> r is Err && r->Err_0 == FabricError::ReplayDetected && ReplayFilter::unchanged(
            *old(filter),
            *final(filter),
        ),
        msg_id_ok(*envelope) && sig_accepted(*envelope, verifying_key@) && old(filter).accepts(
            envelope.seq,
        ) ==> {
            &&& ReplayFilter::stepped(*old(filter), *final(filter), envelope.seq)
            &&& (envelope.key_version == 0 ==> r is Ok && r->Ok_0@ == envelope.payload@)
            &&& (envelope.key_version > 0 && !(key matches Option::Some(k) && k@.len() == 32)
                ==> r is Err && r->Err_0 == FabricError::InvalidParameters)
            &&& (envelope.key_version > 0 && (key matches Option::Some(k) && k@.len() == 32)
                && !aead_params_ok(key->Some_0@, envelope.nonce@) ==> r is Err && r->Err_0
                == FabricError::InvalidParameters)
            &&& (envelope.key_version > 0 && (key matches Option::Some(k) && k@.len() == 32)
                && aead_params_ok(key->Some_0@, envelope.nonce@) ==> {
                &&& forall|pt: Seq<u8>|
                    (envelope.payload@ == aead_sealed(key->Some_0@, envelope.nonce@, envelope.aad@, pt)
                        && pt.len() < AEAD_MAX_PLAINTEXT) ==> (r is Ok && r->Ok_0@ == pt)
                &&& (r is Ok ==> envelope.payload@ == aead_sealed(
                    key->Some_0@,
                    envelope.nonce@,
                    envelope.aad@,
                    r->Ok_0@,
                ))
                &&& (r is Err ==> r->Err_0 == FabricError::TamperDetected)
            })
        },
{
    // message id first: stateless and cheap
    let computed = derive_message_id(&envelope.pubkey, envelope.seq, &envelope.nonce);
    if !bytes_eq(&computed, &envelope.msg_id) {
        return Err(FabricError::MessageIdMismatch);
    }
    // strict signature verification over aad || payload
    let signed = concat2(&envelope.aad, &envelope.payload);
    match verify(verifying_key, &signed, &envelope.sig) {
        Ok(true) => {},
        Ok(false) => {
            return Err(FabricError::SignatureInvalid);
        },
        Err(_) => {
            return Err(FabricError::InvalidKey);
        },
    }
    // replay protection: the only stateful check
    if !filter.check(envelope.seq) {
        return Err(FabricError::ReplayDetected);
    }
    // open the payload
    if envelope.key_version == 0 {
        return Ok(clone_bytes(&envelope.payload));
    }
    let k = match key {
        Option::Some(k) => k,
        Option::None => {
            return Err(FabricError::InvalidParameters);
        },
    };
    if k.len() != 32 {
        return Err(FabricError::InvalidParameters);
    }
    // split the ciphertext from the 16-byte tag; a payload too short to
    // carry a tag is handed on whole and fails authentication
    let (ciphertext, tag): (Vec<u8>, Vec<u8>) = if envelope.payload.len() >= 16 {
        let mut ct = clone_bytes(&envelope.payload);
        let cut = ct.len() - 16;
        let tag = ct.split_off(cut);
        (ct, tag)
    } else {
        (clone_bytes(&envelope.payload), Vec::new())
    };
    assert(ciphertext@ + tag@ =~= envelope.payload@);
    decrypt(k, &envelope.nonce, &envelope.aad, &ciphertext, &tag)
}

} // verus!
