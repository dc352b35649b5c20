//! End-to-end envelope scenarios: assembly, validation order, replay.

use securefabric_sdk::{
    assemble, derive_message_id, disassemble, sign, FabricError, Keypair, ReplayFilter,
    SequenceCounter,
};

fn seed(fill: u8) -> Vec<u8> {
    vec![fill; 32]
}

#[test]
fn two_messages_then_replay() {
    // a sender with a fresh counter sends two messages on one topic
    let keypair = Keypair::from_bytes(&seed(7));
    let mut counter = SequenceCounter::new();
    let topic = b"demo.messages".to_vec();
    let none: Option<Vec<u8>> = None;

    let first = assemble(
        &keypair.signing_key,
        &mut counter,
        &topic,
        &none,
        &none,
        &b"first message".to_vec(),
        0,
        &none,
        24,
    )
    .expect("assemble first");
    let second = assemble(
        &keypair.signing_key,
        &mut counter,
        &topic,
        &none,
        &none,
        &b"second message".to_vec(),
        0,
        &none,
        24,
    )
    .expect("assemble second");

    assert_eq!(first.seq, 1);
    assert_eq!(second.seq, 2);
    assert_ne!(first.nonce, second.nonce, "nonces must be fresh");
    assert_ne!(first.msg_id, second.msg_id, "message ids must differ");
    assert_eq!(first.pubkey, keypair.verifying_key);

    // a receiver processing them in order accepts both
    let mut filter = ReplayFilter::new(1024);
    let p1 = disassemble(&keypair.verifying_key, &mut filter, &first, &none)
        .expect("first accepted");
    assert_eq!(p1, b"first message".to_vec());
    let p2 = disassemble(&keypair.verifying_key, &mut filter, &second, &none)
        .expect("second accepted");
    assert_eq!(p2, b"second message".to_vec());

    // replaying the first envelope is rejected
    assert_eq!(
        disassemble(&keypair.verifying_key, &mut filter, &first, &none).unwrap_err(),
        FabricError::ReplayDetected
    );
}

#[test]
fn encrypted_envelope_round_trip() {
    let keypair = Keypair::from_bytes(&seed(9));
    let mut counter = SequenceCounter::new();
    let topic = b"billing.events".to_vec();
    let tenant = Some(b"tenant-42".to_vec());
    let content = Some(b"application/json".to_vec());
    let key = Some(vec![0x11u8; 32]);
    let none: Option<Vec<u8>> = None;
    let plaintext = b"{\"amount\":250}".to_vec();

    let env = assemble(
        &keypair.signing_key,
        &mut counter,
        &topic,
        &tenant,
        &content,
        &plaintext,
        3,
        &key,
        24,
    )
    .expect("assemble encrypted");
    assert_eq!(env.key_version, 3);
    assert_ne!(env.payload, plaintext, "wire payload must be sealed");
    assert_eq!(env.payload.len(), plaintext.len() + 16);

    let mut filter = ReplayFilter::new(64);
    let opened = disassemble(&keypair.verifying_key, &mut filter, &env, &key)
        .expect("receiver opens the payload");
    assert_eq!(opened, plaintext);

    // the wrong key epoch secret fails authentication, releasing nothing
    let wrong_key = Some(vec![0x22u8; 32]);
    let mut filter2 = ReplayFilter::new(64);
    assert_eq!(
        disassemble(&keypair.verifying_key, &mut filter2, &env, &wrong_key).unwrap_err(),
        FabricError::TamperDetected
    );

    // a missing key for a positive epoch is an invalid parameter
    let mut filter3 = ReplayFilter::new(64);
    assert_eq!(
        disassemble(&keypair.verifying_key, &mut filter3, &env, &none).unwrap_err(),
        FabricError::InvalidParameters
    );
}

#[test]
fn validation_order_and_errors() {
    let keypair = Keypair::from_bytes(&seed(3));
    let mut counter = SequenceCounter::new();
    let topic = b"demo.messages".to_vec();
    let none: Option<Vec<u8>> = None;
    let env = assemble(
        &keypair.signing_key,
        &mut counter,
        &topic,
        &none,
        &none,
        &b"payload".to_vec(),
        0,
        &none,
        24,
    )
    .unwrap();

    // a wrong message id is rejected without touching replay state
    let mut filter = ReplayFilter::new(16);
    let mut bad_id = clone_env(&env);
    bad_id.msg_id[0] ^= 0x01;
    assert_eq!(
        disassemble(&keypair.verifying_key, &mut filter, &bad_id, &none).unwrap_err(),
        FabricError::MessageIdMismatch
    );

    // a tampered payload fails the signature, again without replay effects
    let mut bad_payload = clone_env(&env);
    bad_payload.payload[0] ^= 0x01;
    assert_eq!(
        disassemble(&keypair.verifying_key, &mut filter, &bad_payload, &none).unwrap_err(),
        FabricError::SignatureInvalid
    );

    // the untouched envelope still passes: the failures left no trace
    assert!(disassemble(&keypair.verifying_key, &mut filter, &env, &none).is_ok());

    // processing it again is the replay
    assert_eq!(
        disassemble(&keypair.verifying_key, &mut filter, &env, &none).unwrap_err(),
        FabricError::ReplayDetected
    );
}

#[test]
fn tamper_detected_after_valid_signature() {
    // an envelope whose ciphertext was altered and then re-signed passes
    // the signature check and is caught by the cipher's tag
    let keypair = Keypair::from_bytes(&seed(5));
    let mut counter = SequenceCounter::new();
    let topic = b"demo.messages".to_vec();
    let key = Some(vec![0x33u8; 32]);
    let none: Option<Vec<u8>> = None;
    let env = assemble(
        &keypair.signing_key,
        &mut counter,
        &topic,
        &none,
        &none,
        &b"sensitive".to_vec(),
        1,
        &key,
        24,
    )
    .unwrap();

    let mut forged = clone_env(&env);
    forged.payload[2] ^= 0x40;
    let mut signed = forged.aad.clone();
    signed.extend_from_slice(&forged.payload);
    forged.sig = sign(&keypair.signing_key, &signed).unwrap();

    let mut filter = ReplayFilter::new(16);
    assert_eq!(
        disassemble(&keypair.verifying_key, &mut filter, &forged, &key).unwrap_err(),
        FabricError::TamperDetected
    );
}

#[test]
fn sequence_counter_behaviour() {
    let mut counter = SequenceCounter::new();
    assert_eq!(counter.next_seq().unwrap(), 1);
    assert_eq!(counter.next_seq().unwrap(), 2);
    assert_eq!(counter.next_seq().unwrap(), 3);

    // exhaustion is fatal and sticky
    let mut ending = SequenceCounter::starting_at(u64::MAX - 1);
    assert_eq!(ending.next_seq().unwrap(), u64::MAX - 1);
    assert_eq!(ending.next_seq().unwrap_err(), FabricError::SequenceExhausted);
    assert_eq!(ending.next_seq().unwrap_err(), FabricError::SequenceExhausted);
}

#[test]
fn message_id_is_deterministic() {
    let pubkey = vec![0xaau8; 32];
    let nonce = vec![0x01u8; 24];
    let a = derive_message_id(&pubkey, 42, &nonce);
    let b = derive_message_id(&pubkey, 42, &nonce);
    assert_eq!(a, b, "identical inputs give the identical id");
    assert_eq!(a.len(), 64, "64 lowercase hex characters");
    assert!(a.iter().all(|c| matches!(c, b'0'..=b'9' | b'a'..=b'f')));

    // each input is bound: changing any one changes the id
    assert_ne!(a, derive_message_id(&pubkey, 43, &nonce));
    assert_ne!(a, derive_message_id(&vec![0xabu8; 32], 42, &nonce));
    assert_ne!(a, derive_message_id(&pubkey, 42, &vec![0x02u8; 24]));
}

fn clone_env(env: &securefabric_sdk::Envelope) -> securefabric_sdk::Envelope {
    securefabric_sdk::Envelope {
        pubkey: env.pubkey.clone(),
        sig: env.sig.clone(),
        nonce: env.nonce.clone(),
        aad: env.aad.clone(),
        payload: env.payload.clone(),
        seq: env.seq,
        msg_id: env.msg_id.clone(),
        key_version: env.key_version,
        topic: env.topic.clone(),
    }
}
