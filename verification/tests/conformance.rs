//! Conformance tests against published cipher and signature vectors,
//! and the scripted replay-protection sequences.

use securefabric_sdk::{decrypt, encrypt, sign, verify, FabricError, ReplayFilter};

fn hex_decode(s: &str) -> Vec<u8> {
    assert!(s.len() % 2 == 0, "odd hex length");
    let bytes: Vec<u8> = s.as_bytes().to_vec();
    let val = |c: u8| -> u8 {
        match c {
            b'0'..=b'9' => c - b'0',
            b'a'..=b'f' => c - b'a' + 10,
            b'A'..=b'F' => c - b'A' + 10,
            _ => panic!("invalid hex digit"),
        }
    };
    let mut out = Vec::new();
    let mut i = 0;
    while i < bytes.len() {
        out.push(val(bytes[i]) * 16 + val(bytes[i + 1]));
        i += 2;
    }
    out
}

// RFC 8439 section 2.8.2: the ChaCha20-Poly1305 AEAD test vector.
const RFC8439_KEY: &str = "808182838485868788898a8b8c8d8e8f909192939495969798999a9b9c9d9e9f";
const RFC8439_NONCE: &str = "070000004041424344454647";
const RFC8439_AAD: &str = "50515253c0c1c2c3c4c5c6c7";
const RFC8439_PLAINTEXT: &str = "4c616469657320616e642047656e746c656d656e206f662074686520636c6173\
73206f66202739393a204966204920636f756c64206f6666657220796f75206f6e6c79206f6e652074697020666f7220\
746865206675747572652c2073756e73637265656e20776f756c642062652069742e";
const RFC8439_CIPHERTEXT: &str = "d31a8d34648e60db7b86afbc53ef7ec2a4aded51296e08fea9e2b5a736ee62d6\
3dbea45e8ca9671282fafb69da92728b1a71de0a9e060b2905d6a5b67ecd3b3692ddbd7f2d778b8c9803aee328091b58\
fab324e4fad675945585808b4831d7bc3ff4def08e4b7a9de576d26586cec64b6116";
const RFC8439_TAG: &str = "1ae10b594f09e26a7e902ecbd0600691";

#[test]
fn test_encryption_conformance() {
    let key = hex_decode(RFC8439_KEY);
    let nonce = hex_decode(RFC8439_NONCE);
    let aad = hex_decode(RFC8439_AAD);
    let plaintext = hex_decode(RFC8439_PLAINTEXT);
    let expected_ciphertext = hex_decode(RFC8439_CIPHERTEXT);
    let expected_tag = hex_decode(RFC8439_TAG);

    let (ciphertext, tag) = encrypt(&key, &nonce, &aad, &plaintext).expect("encryption failed");
    assert_eq!(ciphertext, expected_ciphertext, "ciphertext mismatch");
    assert_eq!(tag, expected_tag, "tag mismatch");

    let decrypted = decrypt(&key, &nonce, &aad, &ciphertext, &tag).expect("decryption failed");
    assert_eq!(decrypted, plaintext, "plaintext mismatch after round-trip");
}

#[test]
fn test_xchacha_round_trip() {
    // the 24-byte-nonce variant: exact round trip and tag length
    let key = hex_decode(RFC8439_KEY);
    let nonce = hex_decode("404142434445464748494a4b4c4d4e4f5051525354555657");
    let aad = hex_decode(RFC8439_AAD);
    let plaintext = b"attack at dawn".to_vec();

    let (ciphertext, tag) = encrypt(&key, &nonce, &aad, &plaintext).expect("encryption failed");
    assert_eq!(ciphertext.len(), plaintext.len());
    assert_eq!(tag.len(), 16);
    assert_ne!(ciphertext, plaintext, "ciphertext must differ from plaintext");

    let decrypted = decrypt(&key, &nonce, &aad, &ciphertext, &tag).expect("decryption failed");
    assert_eq!(decrypted, plaintext);
}

#[test]
fn test_encryption_rejects_bad_parameters() {
    let key31 = vec![0u8; 31];
    let key = vec![0u8; 32];
    let nonce = vec![0u8; 24];
    let nonce13 = vec![0u8; 13];
    let aad = Vec::new();
    let pt = b"x".to_vec();
    assert_eq!(
        encrypt(&key31, &nonce, &aad, &pt).unwrap_err(),
        FabricError::InvalidParameters
    );
    assert_eq!(
        encrypt(&key, &nonce13, &aad, &pt).unwrap_err(),
        FabricError::InvalidParameters
    );
    assert_eq!(
        decrypt(&key31, &nonce, &aad, &pt, &vec![0u8; 16]).unwrap_err(),
        FabricError::InvalidParameters
    );
    assert_eq!(
        decrypt(&key, &nonce13, &aad, &pt, &vec![0u8; 16]).unwrap_err(),
        FabricError::InvalidParameters
    );
}

// RFC 8032 section 7.1, TEST 1 and TEST 2.
#[test]
fn test_signature_conformance() {
    let cases = [
        (
            "9d61b19deffd5a60ba844af492ec2cc44449c5697b326919703bac031cae7f60",
            "d75a980182b10ab7d54bfed3c964073a0ee172f3daa62325af021a68f707511a",
            "",
            "e5564300c360ac729086e2cc806e828a84877f1eb8e5d974d873e065224901555fb8821590a33bac\
c61e39701cf9b46bd25bf5f0595bbe24655141438e7a100b",
        ),
        (
            "4ccd089b28ff96da9db6c346ec114e0f5b8a319f35aba624da8cf6ed4fb8a6fb",
            "3d4017c3e843895a92b70aa74d1b7ebc9c982ccf2ec4968cc0cd55f12af4660c",
            "72",
            "92a009a9f0d4cab8720e820b5f642540a2b27b5416503f8fb3762223ebdb69da085ac1e43e15996e\
458f3613d0f11d8c387b2eaeb4302aeeb00d291612bb0c00",
        ),
    ];
    for (sk_hex, pk_hex, msg_hex, sig_hex) in cases {
        let secret_key = hex_decode(sk_hex);
        let public_key = hex_decode(pk_hex);
        let message = hex_decode(msg_hex);
        let expected_signature = hex_decode(sig_hex);

        let signature = sign(&secret_key, &message).expect("signature generation failed");
        assert_eq!(signature, expected_signature, "signature mismatch");

        let valid = verify(&public_key, &message, &signature).expect("verification errored");
        assert!(valid, "signature verification failed");
    }
}

#[test]
fn test_signature_rejects_forgery() {
    let secret_key = hex_decode("9d61b19deffd5a60ba844af492ec2cc44449c5697b326919703bac031cae7f60");
    let public_key = hex_decode("d75a980182b10ab7d54bfed3c964073a0ee172f3daa62325af021a68f707511a");
    let message = b"hello fabric".to_vec();
    let signature = sign(&secret_key, &message).unwrap();
    assert!(verify(&public_key, &message, &signature).unwrap());

    // flip one bit anywhere in the signature: verification fails
    for byte in [0usize, 31, 63] {
        let mut bad = signature.clone();
        bad[byte] ^= 0x01;
        assert!(!verify(&public_key, &message, &bad).unwrap_or(false));
    }
    // flip one bit of the message
    let mut bad_msg = message.clone();
    bad_msg[0] ^= 0x80;
    assert!(!verify(&public_key, &bad_msg, &signature).unwrap());
    // structurally invalid signatures and keys fail, never panic
    assert!(!verify(&public_key, &message, &Vec::new()).unwrap());
    assert!(!verify(&public_key, &message, &vec![0u8; 63]).unwrap());
    assert!(!verify(&vec![0u8; 31], &message, &signature).unwrap());
    // a wrong-length secret key is rejected
    assert_eq!(
        sign(&vec![0u8; 16], &message).unwrap_err(),
        FabricError::InvalidKey
    );
}

#[test]
fn undecodable_public_key_reports_invalid_key() {
    // about half of all 32-byte strings decode to no curve point; at
    // least one of these candidates must be such a key
    let message = b"m".to_vec();
    let signature = vec![0u8; 64];
    let mut found = false;
    for i in 0..=255u8 {
        let mut pk = vec![0u8; 32];
        pk[0] = i;
        if verify(&pk, &message, &signature) == Err(FabricError::InvalidKey) {
            found = true;
            break;
        }
    }
    assert!(found, "no undecodable key among the candidates");
}

#[test]
fn test_replay_protection_conformance() {
    // window of 8: 9 falls inside the shifted window, repeats are rejected
    let counters: [u64; 7] = [1, 2, 3, 2, 10, 10, 9];
    let expected = [true, true, true, false, true, false, true];
    let mut filter = ReplayFilter::new(8);
    for (counter, want) in counters.iter().zip(expected.iter()) {
        assert_eq!(filter.check(*counter), *want, "replay decision for {counter}");
    }

    // zero is never accepted
    let mut filter = ReplayFilter::new(8);
    assert!(!filter.check(0));

    // numbers that fall off the window are rejected as too old
    let mut filter = ReplayFilter::new(4);
    assert!(filter.check(10));
    assert!(!filter.check(6), "distance 4 is outside a window of 4");
    assert!(filter.check(7), "distance 3 is inside the window");
    assert!(!filter.check(7), "second time is a replay");
}

#[test]
fn test_tamper_detection_conformance() {
    let key = hex_decode(RFC8439_KEY);
    let nonce = hex_decode(RFC8439_NONCE);
    let aad = hex_decode(RFC8439_AAD);
    let plaintext = b"the tag protects every bit".to_vec();
    let (ciphertext, tag) = encrypt(&key, &nonce, &aad, &plaintext).unwrap();

    // flipping any bit of the ciphertext is detected
    for byte in 0..ciphertext.len() {
        let mut bad = ciphertext.clone();
        bad[byte] ^= 0x01;
        assert_eq!(
            decrypt(&key, &nonce, &aad, &bad, &tag).unwrap_err(),
            FabricError::TamperDetected
        );
    }
    // flipping any bit of the tag is detected
    for byte in 0..tag.len() {
        let mut bad = tag.clone();
        bad[byte] ^= 0x80;
        assert_eq!(
            decrypt(&key, &nonce, &aad, &ciphertext, &bad).unwrap_err(),
            FabricError::TamperDetected
        );
    }
    // altered associated data is detected too
    let mut bad_aad = aad.clone();
    bad_aad[0] ^= 0x01;
    assert_eq!(
        decrypt(&key, &nonce, &bad_aad, &ciphertext, &tag).unwrap_err(),
        FabricError::TamperDetected
    );
    // the untouched pair still decrypts
    assert_eq!(decrypt(&key, &nonce, &aad, &ciphertext, &tag).unwrap(), plaintext);
}
