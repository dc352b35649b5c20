//! Error taxonomy of the envelope protocol.

use vstd::prelude::*;

verus! {

/// Every failure a protocol operation can report.
#[derive(Clone, Copy, Debug, PartialEq, Eq, Structural)]
pub enum FabricError {
    /// Canonical AAD bytes are structurally invalid or not decodable.
    MalformedAad,
    /// A key or nonce has the wrong length for the requested operation.
    InvalidParameters,
    /// Public-key bytes do not decode to a valid curve point.
    InvalidKey,
    /// A signature did not verify over the authenticated bytes.
    SignatureInvalid,
    /// The envelope's message id does not match the recomputed one.
    MessageIdMismatch,
    /// AEAD authentication failed: ciphertext or tag was altered.
    TamperDetected,
    /// A sequence number was already seen or fell outside the window.
    ReplayDetected,
    /// The per-sender sequence counter is exhausted; no more envelopes
    /// may be issued for this identity.
    SequenceExhausted,
}

} // verus!
