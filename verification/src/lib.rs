//! SecureFabric message envelope protocol.
//!
//! Authenticated, tamper-evident, replay-resistant message envelopes:
//! canonical AAD encoding, Ed25519 signing, XChaCha20-Poly1305 /
//! ChaCha20-Poly1305 AEAD, BLAKE3 message-id derivation, and a sliding
//! replay-protection window.

mod aead;
mod bytesutil;
mod codec;
mod crypto;
mod envelope;
mod errors;
mod hexcode;
mod msgid;
mod replay;
mod utf8check;

pub use aead::{
    aead_params_ok, aead_sealed, chacha_sealed, decrypt, encrypt, xchacha_sealed,
    AEAD_MAX_PLAINTEXT,
};
pub use codec::{
    aad_canon, aad_decode, canon_field, canon_opt_field, canonicalize, decode as decode_aad,
    lemma_aad_canon_injective, lemma_aad_decode_sound, lemma_aad_round_trip, opt_bytes_view,
    AadModel, AadRecord,
};
pub use crypto::{
    ed25519_pubkey_decodable, ed25519_public_of, ed25519_signature_of, ed25519_verifies,
    random_bytes, sign, verify, Keypair,
};
pub use envelope::{
    assemble, disassemble, encryption_inputs_ok, msg_id_ok, next_nonce, sig_accepted,
    sig_rejected, signed_bytes, Envelope, SequenceCounter,
};
pub use errors::FabricError;
pub use hexcode::{bytes_to_hex, hex_of};
pub use msgid::{
    blake3_of, derive_message_id, lemma_message_id_deterministic, message_id_input, message_id_of,
};
pub use replay::{lemma_accepted_is_remembered, lemma_memory_is_kept, ReplayFilter};
pub use utf8check::is_valid_utf8;
