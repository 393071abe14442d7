use nacl_core::randombytes;
use nacl_core::secretbox::{self, generate_nonce, seal_open_round_trip, Key};

#[test]
fn encrypt_adds_exactly_tag_overhead() {
    let key = Key::from(&[0x01u8; 32]);
    let nonce = [0x02u8; 24];
    for len in [0usize, 1, 15, 16, 17, 100] {
        let msg = vec![0x5au8; len];
        let c = key.encrypt(&msg, &nonce);
        assert_eq!(c.len(), len + 16);
    }
}

#[test]
fn decrypt_of_encrypt_returns_plaintext() {
    let key = Key::from(&[0x09u8; 32]);
    let nonce = [0x0au8; 24];
    let msgs: [&[u8]; 4] = [b"", b"m", b"sixteen bytes!!!", b"a message that spans more than one block of the stream cipher"];
    for msg in msgs.iter() {
        let c = key.encrypt(msg, &nonce);
        assert_eq!(key.decrypt(&nonce, &c), Some(msg.to_vec()));
    }
}

#[test]
fn round_trip_helper_returns_message() {
    let key = Key::generate();
    let nonce = generate_nonce();
    let r = seal_open_round_trip(&key, b"boxed message", &nonce);
    assert_eq!(r, Some(b"boxed message".to_vec()));
}

#[test]
fn decrypt_rejects_any_flipped_ciphertext_bit() {
    let key = Key::from(&[0x09u8; 32]);
    let nonce = [0x0au8; 24];
    let c = key.encrypt(b"attack at dawn", &nonce);
    for i in 0..c.len() {
        let mut bad = c.clone();
        bad[i] ^= 0x01;
        assert_eq!(key.decrypt(&nonce, &bad), None);
    }
}

#[test]
fn decrypt_rejects_wrong_key_or_nonce() {
    let key = Key::from(&[0x09u8; 32]);
    let nonce = [0x0au8; 24];
    let c = key.encrypt(b"attack at dawn", &nonce);
    let other_key = Key::from(&[0x0bu8; 32]);
    assert_eq!(other_key.decrypt(&nonce, &c), None);
    let other_nonce = [0x0cu8; 24];
    assert_eq!(key.decrypt(&other_nonce, &c), None);
}

#[test]
fn decrypt_rejects_truncated_ciphertext() {
    let key = Key::from(&[0x09u8; 32]);
    let nonce = [0x0au8; 24];
    let c = key.encrypt(b"some message", &nonce);
    assert_eq!(key.decrypt(&nonce, &c[..c.len() - 1]), None);
    assert_eq!(key.decrypt(&nonce, &[]), None);
    assert_eq!(key.decrypt(&nonce, &c[..15]), None);
}

#[test]
fn zero_key_zero_nonce_empty_message_scenario() {
    let key = Key::from(&[0x00u8; 32]);
    let nonce = [0x00u8; 24];
    let c = key.encrypt(b"", &nonce);
    assert_eq!(c.len(), 16);
    assert_eq!(key.decrypt(&nonce, &c), Some(Vec::new()));
    let mut flipped = [0x00u8; 32];
    flipped[0] ^= 0x01;
    let wrong = Key::from(&flipped);
    assert_eq!(wrong.decrypt(&nonce, &c), None);
}

#[test]
fn encryption_is_deterministic_in_its_inputs() {
    let key = Key::from(&[0x21u8; 32]);
    let nonce = [0x07u8; 24];
    assert_eq!(key.encrypt(b"same", &nonce), key.encrypt(b"same", &nonce));
    assert_ne!(key.encrypt(b"same", &nonce), key.encrypt(b"different", &nonce));
}

#[test]
fn cloned_key_opens_what_its_twin_sealed() {
    let key = Key::generate();
    let copy = key.clone();
    let nonce = generate_nonce();
    let c = key.encrypt(b"shared", &nonce);
    assert_eq!(copy.decrypt(&nonce, &c), Some(b"shared".to_vec()));
}

#[test]
fn generated_nonces_have_nonce_length_and_vary() {
    let a = generate_nonce();
    let b = generate_nonce();
    assert_eq!(a.len(), secretbox::NONCEBYTES);
    assert_eq!(b.len(), secretbox::NONCEBYTES);
    assert_ne!(a, b);
}

#[test]
fn generated_keys_vary() {
    let a = Key::generate();
    let b = Key::generate();
    let nonce = [0u8; 24];
    // distinct keys seal the same message differently
    assert_ne!(a.encrypt(b"m", &nonce), b.encrypt(b"m", &nonce));
}

#[test]
fn generated_key_is_32_bytes_and_exportable() {
    let key = Key::generate();
    let bytes = key.as_bytes().to_vec();
    assert_eq!(bytes.len(), 32);
    // a stored key rebuilt from its raw-byte encoding opens the original's boxes
    let rebuilt = Key::from(&bytes);
    let nonce = generate_nonce();
    let c = key.encrypt(b"persisted", &nonce);
    assert_eq!(rebuilt.decrypt(&nonce, &c), Some(b"persisted".to_vec()));
}

#[test]
fn fill_bytes_keeps_length_and_draws_entropy() {
    let mut rng = randombytes::rng();
    let mut buf = vec![0u8; 64];
    rng.fill_bytes(&mut buf);
    assert_eq!(buf.len(), 64);
    // 64 bytes of OS randomness are not all zero
    assert!(buf.iter().any(|&b| b != 0));
}
