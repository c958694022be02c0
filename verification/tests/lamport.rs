use sigbench::lamport::{LamportError, LamportOtsScheme, XorShift64, LAMPORT_OTS_SCHEME};

#[test]
fn sign_and_verify_roundtrip() {
    let scheme = LamportOtsScheme;
    let mut rng = XorShift64::new(42);
    let message = b"lamport-roundtrip-test";

    let (public_key, mut secret_key) = scheme.keypair_with_rng(&mut rng);
    let signature = scheme.sign(message, &mut secret_key).expect("sign should succeed");

    let is_valid = scheme.verify(message, &signature, &public_key).expect("verify should succeed");
    assert!(is_valid, "signature must verify");
}

#[test]
fn key_reuse_is_rejected() {
    let scheme = LamportOtsScheme;
    let mut rng = XorShift64::new(42);

    let (_public_key, mut secret_key) = scheme.keypair_with_rng(&mut rng);
    let _first = scheme.sign(b"first", &mut secret_key).expect("first sign should succeed");

    let second = scheme.sign(b"second", &mut secret_key);
    assert!(second.is_err(), "second sign must fail because key is one-time");
}

#[test]
fn verify_rejects_other_message() {
    let scheme = LamportOtsScheme;
    let mut rng = XorShift64::new(42);

    let (public_key, mut secret_key) = scheme.keypair_with_rng(&mut rng);
    let signature = scheme.sign(b"message-a", &mut secret_key).expect("sign should succeed");

    let is_valid =
        scheme.verify(b"message-b", &signature, &public_key).expect("verify should succeed");
    assert!(!is_valid, "different message must not verify");
}

#[test]
fn lib_sign_and_verify_roundtrip() {
    let scheme = LAMPORT_OTS_SCHEME;
    let mut rng = XorShift64::new(42);
    let message = b"lamport-roundtrip-test";

    let (public_key, mut secret_key) = scheme.keypair_with_rng(&mut rng);
    let signature = scheme.sign(message, &mut secret_key).expect("sign should succeed");

    let is_valid = scheme.verify(message, &signature, &public_key).expect("verify should succeed");
    assert!(is_valid, "signature must verify");
}

#[test]
fn lib_key_reuse_is_rejected() {
    let scheme = LAMPORT_OTS_SCHEME;
    let mut rng = XorShift64::new(42);

    let (_public_key, mut secret_key) = scheme.keypair_with_rng(&mut rng);
    let _first = scheme.sign(b"first", &mut secret_key).expect("first sign should succeed");

    let second = scheme.sign(b"second", &mut secret_key);
    assert!(second.is_err(), "second sign must fail because key is one-time");
}

#[test]
fn lib_verify_rejects_other_message() {
    let scheme = LAMPORT_OTS_SCHEME;
    let mut rng = XorShift64::new(42);

    let (public_key, mut secret_key) = scheme.keypair_with_rng(&mut rng);
    let signature = scheme.sign(b"message-a", &mut secret_key).expect("sign should succeed");

    let is_valid =
        scheme.verify(b"message-b", &signature, &public_key).expect("verify should succeed");
    assert!(!is_valid, "different message must not verify");
}

#[test]
fn seeded_scenario_round_trip_reuse_and_tamper() {
    let scheme = LamportOtsScheme;
    let (public_key, mut secret_key) = scheme.keypair_with_seed(42);
    let message = b"lamport-roundtrip-test";

    let signature = scheme.sign(message, &mut secret_key).expect("sign should succeed");
    assert!(scheme.verify(message, &signature, &public_key).expect("verify should succeed"));

    let again = scheme.sign(b"second", &mut secret_key);
    assert!(matches!(again, Err(LamportError::KeyAlreadyUsed)));

    let tampered =
        scheme.verify(b"message-b", &signature, &public_key).expect("verify should succeed");
    assert!(!tampered, "a different message must be rejected");
}

#[test]
fn keypairs_from_equal_seeds_are_interchangeable() {
    let scheme = LamportOtsScheme;
    let (public_key_a, mut secret_key_a) = scheme.keypair_with_seed(7);
    let (public_key_b, mut secret_key_b) = scheme.keypair_with_seed(7);
    let (public_key_c, mut secret_key_c) = scheme.keypair_with_seed(8);

    let message = b"cross-check";
    let signature_a = scheme.sign(message, &mut secret_key_a).expect("sign should succeed");
    // The signature from the first key verifies under the second key's
    // public half, so the two key pairs are element-for-element identical.
    assert!(scheme.verify(message, &signature_a, &public_key_b).expect("verify should succeed"));
    assert!(scheme.verify(message, &signature_a, &public_key_a).expect("verify should succeed"));

    // A key pair from a different seed rejects it.
    assert!(!scheme.verify(message, &signature_a, &public_key_c).expect("verify should succeed"));

    let signature_b = scheme.sign(message, &mut secret_key_b).expect("sign should succeed");
    assert!(scheme.verify(message, &signature_b, &public_key_a).expect("verify should succeed"));

    let signature_c = scheme.sign(message, &mut secret_key_c).expect("sign should succeed");
    assert!(!scheme.verify(message, &signature_c, &public_key_a).expect("verify should succeed"));
}

#[test]
fn key_and_signature_lengths_are_fixed() {
    let scheme = LamportOtsScheme;
    let (public_key, mut secret_key) = scheme.keypair_with_seed(3);
    assert_eq!(public_key.len(), 512);
    assert_eq!(secret_key.len(), 512);
    assert_eq!(public_key.byte_len(), 16384);
    assert_eq!(secret_key.byte_len(), 16384);
    assert!(!public_key.is_empty());
    assert!(!secret_key.is_empty());
    assert!(!secret_key.used());

    let signature = scheme.sign(b"any message at all", &mut secret_key).expect("sign");
    assert_eq!(signature.len(), 256);
    assert_eq!(signature.byte_len(), 8192);
    assert!(!signature.is_empty());
    assert!(secret_key.used());
}

#[test]
fn scheme_facade_reports_fixed_parameters() {
    let scheme = LamportOtsScheme;
    assert_eq!(scheme.algorithm_name(), "Lamport OTS");
    assert_eq!(scheme.backend_name(), "custom-rust-sha2");
    assert_eq!(scheme.param_set_name(), "Lamport-OTS-256");
    assert_eq!(scheme.max_signatures_per_key(), 1);
    let sizes = scheme.sizes();
    assert_eq!(sizes.public_key_bytes, 16384);
    assert_eq!(sizes.secret_key_bytes, 16384);
    assert_eq!(sizes.signature_bytes, 8192);
}

#[test]
fn clock_seeded_keypair_round_trips() {
    let scheme = LamportOtsScheme;
    let (public_key, mut secret_key) = scheme.keypair();
    let message = b"clock-seeded";
    let signature = scheme.sign(message, &mut secret_key).expect("sign should succeed");
    assert!(scheme.verify(message, &signature, &public_key).expect("verify should succeed"));
}

#[test]
fn generator_is_deterministic_and_remaps_zero_seed() {
    let mut a = XorShift64::new(42);
    assert_eq!(a.next_u64(), 0xa95514aaa_u64);
    assert_eq!(a.next_u64(), 0xa00aaafdf80202bf_u64);
    assert_eq!(a.next_u64(), 0x8b13399cd1d1497a_u64);

    let mut zero = XorShift64::new(0);
    let mut remapped = XorShift64::new(0x9e37_79b9_7f4a_7c15);
    assert_eq!(zero.next_u64(), remapped.next_u64());
}

#[test]
fn generator_fills_bytes_little_endian() {
    let mut rng = XorShift64::new(42);
    let mut buf = vec![0u8; 10];
    rng.fill_bytes(&mut buf);
    assert_eq!(buf, vec![170, 74, 81, 149, 10, 0, 0, 0, 191, 2]);
}

#[test]
fn seed_from_str_reads_digest_prefix() {
    // First eight bytes, little-endian, of SHA-256("abc").
    assert_eq!(sigbench::lamport::seed_from_str("abc"), 0xeacf018fbf1678ba_u64);
}
