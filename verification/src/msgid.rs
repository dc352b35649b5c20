//! Deterministic message-id derivation.
//!
//! The message id of an envelope is the lowercase hex encoding of
//! `BLAKE3(pubkey || LE64(seq) || nonce)`: a pure function of the three
//! inputs, recomputable by any receiver.

use vstd::prelude::*;
use crate::bytesutil::append_bytes;
use crate::hexcode::{hex_of, bytes_to_hex};

verus! {

/// The BLAKE3 digest of a byte string. The digest is a pure function of
/// the input bytes; its definition is the hash itself and is not restated
/// here.
pub uninterp spec fn blake3_of(input: Seq<u8>) -> Seq<u8>;

/// Relies on `blake3::hash`: the 32-byte digest depends on the input
/// bytes alone.
#[verifier::external_body]
fn blake3_digest(input: &Vec<u8>) -> (r: Vec<u8>)
    ensures
        r@ == blake3_of(input@),
        r@.len() == 32,
{
    blake3::hash(input.as_slice()).as_bytes().to_vec()
}

/// The exact byte string hashed for a message id.
pub open spec fn message_id_input(pubkey: Seq<u8>, seq: u64, nonce: Seq<u8>) -> Seq<u8> {
    pubkey + vstd::bytes::spec_u64_to_le_bytes(seq) + nonce
}

/// The message id: lowercase hex of the BLAKE3 digest of
/// `pubkey || LE64(seq) || nonce`.
pub open spec fn message_id_of(pubkey: Seq<u8>, seq: u64, nonce: Seq<u8>) -> Seq<u8> {
    hex_of(blake3_of(message_id_input(pubkey, seq, nonce)))
}

/// Derive the message id for `(pubkey, seq, nonce)`.
///
/// The result is pinned to `message_id_of`, a function of the inputs
/// alone: two calls with identical inputs return identical ids.
pub fn derive_message_id(pubkey: &Vec<u8>, seq: u64, nonce: &Vec<u8>) -> (r: Vec<u8>)
    ensures
        r@ == message_id_of(pubkey@, seq, nonce@),
        r@.len() == 64,
{
    let mut input: Vec<u8> = Vec::new();
    append_bytes(&mut input, pubkey);
    let seq_bytes = vstd::bytes::u64_to_le_bytes(seq);
    append_bytes(&mut input, &seq_bytes);
    append_bytes(&mut input, nonce);
    assert(input@ == message_id_input(pubkey@, seq, nonce@));
    let digest = blake3_digest(&input);
    let id = bytes_to_hex(&digest);
    id
}

/// Law: message-id derivation is pure. Whatever two calls of
/// `derive_message_id` return for identical `(pubkey, seq, nonce)` is
/// pinned to `message_id_of` by their contracts, so the two ids are
/// identical.
pub proof fn lemma_message_id_deterministic(
    pubkey: Seq<u8>,
    seq: u64,
    nonce: Seq<u8>,
    id1: Seq<u8>,
    id2: Seq<u8>,
)
    requires
        id1 == message_id_of(pubkey, seq, nonce),
        id2 == message_id_of(pubkey, seq, nonce),
    ensures
        id1 == id2,
{
}

} // verus!
