use nacl_core::scalarmult::{Keypair, PublicKey, text_round_trip};

fn hex_bytes(s: &str) -> Vec<u8> {
    let chars: Vec<u8> = s.bytes().collect();
    assert!(chars.len() % 2 == 0);
    let mut out = Vec::new();
    for pair in chars.chunks(2) {
        let hi = (pair[0] as char).to_digit(16).unwrap() as u8;
        let lo = (pair[1] as char).to_digit(16).unwrap() as u8;
        out.push(hi * 16 + lo);
    }
    out
}

#[test]
fn known_base_point_multiplication() {
    // Curve25519 Diffie-Hellman test vectors from RFC 7748, section 6.1
    let a = Keypair::from(&hex_bytes(
        "77076d0a7318a57d3c16c17251b26645df4c2f87ebc0992ab177fba51db92c2a",
    ));
    let a_pub = PublicKey::from(&hex_bytes(
        "8520f0098930a754748b7ddcb43ef75a0dbf3a0d26381af4eba4a98eaa9b4e6a",
    ));
    assert!(a.public() == a_pub);
    let b = Keypair::from(&hex_bytes(
        "5dab087e624a8a4b79e17f8b83800ee66f3bb1292618b6fd1c2f8b27ff88e0eb",
    ));
    let b_pub = PublicKey::from(&hex_bytes(
        "de9edb7d7b7dc1b4d35b61c2ece435373f8343c85b78674dadfc7e146f882b4f",
    ));
    assert!(b.public() == b_pub);
}

#[test]
fn known_shared_point() {
    let a = Keypair::from(&hex_bytes(
        "77076d0a7318a57d3c16c17251b26645df4c2f87ebc0992ab177fba51db92c2a",
    ));
    let b = Keypair::from(&hex_bytes(
        "5dab087e624a8a4b79e17f8b83800ee66f3bb1292618b6fd1c2f8b27ff88e0eb",
    ));
    let expected = PublicKey::from(&hex_bytes(
        "4a5d9d5ba4ce2de1728e3bf480350f25e07e21c947d19e3376f09b3c1e161742",
    ));
    assert!(a.ecdh(&b.public()) == expected);
    assert!(b.ecdh(&a.public()) == expected);
}

#[test]
fn ecdh_commutes_for_generated_keypairs() {
    let a = Keypair::generate();
    let b = Keypair::generate();
    assert!(a.ecdh(&b.public()) == b.ecdh(&a.public()));
}

#[test]
fn deserialized_keypair_rederives_public() {
    let sk = [0x11u8; 32];
    let once = Keypair::from(&sk);
    let again = Keypair::from(&sk);
    assert!(once.public() == again.public());
}

#[test]
fn keypair_secret_bytes_round_trip() {
    let kp = Keypair::generate();
    let stored = kp.secret().to_vec();
    assert_eq!(stored.len(), 32);
    let rebuilt = Keypair::from(&stored);
    assert!(rebuilt.public() == kp.public());
    assert!(rebuilt.ecdh(&kp.public()) == kp.ecdh(&rebuilt.public()));
}

#[test]
fn generated_keypairs_differ() {
    let a = Keypair::generate();
    let b = Keypair::generate();
    assert!(!(a.public() == b.public()));
}

#[test]
fn public_key_equality_and_clone() {
    let p = PublicKey::from(&[0xabu8; 32]);
    let q = PublicKey::from(&[0xabu8; 32]);
    let r = PublicKey::from(&[0xacu8; 32]);
    assert!(p == q);
    assert!(p != r);
    assert!(p.clone() == p);
}

#[test]
fn public_key_ordering_is_byte_lexicographic() {
    let mut lo = [0x10u8; 32];
    let mut hi = [0x10u8; 32];
    lo[31] = 0x01;
    hi[0] = 0x11;
    let lo = PublicKey::from(&lo);
    let hi = PublicKey::from(&hi);
    assert!(lo < hi);
    assert!(hi > lo);
    assert!(lo <= lo.clone());
    assert!(!(hi < lo));
}

#[test]
fn text_encoding_round_trips() {
    let p = PublicKey::from(&[0x5eu8; 32]);
    let text = p.to_text();
    let back = PublicKey::parse_text(&text);
    assert!(back == Some(p));
    let generated = Keypair::generate().public();
    assert!(text_round_trip(&generated) == Some(generated.clone()));
}

#[test]
fn text_of_zero_key_is_all_zero_digits() {
    // 32 bytes are 256 bits, held in 52 base-32 digits
    let p = PublicKey::from(&[0u8; 32]);
    let text = p.to_text();
    assert_eq!(text.len(), 52);
    assert!(text.bytes().all(|c| c == b'0'));
    assert!(PublicKey::parse_text(&text) == Some(p));
}

#[test]
fn parse_text_rejects_malformed_input() {
    assert!(PublicKey::parse_text(",").is_none());
    assert!(PublicKey::parse_text("u").is_none());
    // well-formed text naming the wrong number of bytes
    assert!(PublicKey::parse_text("00").is_none());
    assert!(PublicKey::parse_text("").is_none());
}

#[test]
fn raw_byte_encoding_round_trips() {
    let p = PublicKey::from(&[0x3cu8; 32]);
    let bytes = p.as_bytes().to_vec();
    assert_eq!(bytes.len(), 32);
    assert!(PublicKey::from(&bytes) == p);
}
