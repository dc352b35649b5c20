//! Key material: derivation, generation, randomness.

use securefabric_sdk::{random_bytes, Keypair};

fn hex_decode(s: &str) -> Vec<u8> {
    let val = |c: u8| -> u8 {
        match c {
            b'0'..=b'9' => c - b'0',
            b'a'..=b'f' => c - b'a' + 10,
            _ => panic!("invalid hex digit"),
        }
    };
    s.as_bytes().chunks(2).map(|p| val(p[0]) * 16 + val(p[1])).collect()
}

#[test]
fn public_key_matches_published_derivation() {
    // RFC 8032 section 7.1, TEST 1: secret seed and its public key
    let seed = hex_decode("9d61b19deffd5a60ba844af492ec2cc44449c5697b326919703bac031cae7f60");
    let expected_pk = hex_decode("d75a980182b10ab7d54bfed3c964073a0ee172f3daa62325af021a68f707511a");
    let kp = Keypair::from_bytes(&seed);
    assert_eq!(kp.signing_key, seed);
    assert_eq!(kp.verifying_key, expected_pk);

    // derivation is deterministic
    let again = Keypair::from_bytes(&seed);
    assert_eq!(again.verifying_key, kp.verifying_key);
}

#[test]
fn generated_keypairs_are_fresh() {
    let a = Keypair::generate();
    let b = Keypair::generate();
    assert_eq!(a.signing_key.len(), 32);
    assert_eq!(a.verifying_key.len(), 32);
    assert_ne!(a.signing_key, b.signing_key, "seeds must be fresh");
    assert_ne!(a.verifying_key, b.verifying_key);
}

#[test]
fn random_bytes_have_the_asked_length() {
    assert_eq!(random_bytes(0).len(), 0);
    assert_eq!(random_bytes(24).len(), 24);
    assert_eq!(random_bytes(12).len(), 12);
    assert_ne!(random_bytes(32), random_bytes(32), "draws must differ");
}
