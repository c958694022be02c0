use core::str::FromStr;
use sigbench::hss::{HssError, HssParamSet, HssScheme, DEFAULT_PARAM_SET_NAME};
use sigbench::lm_ots::{LmOtsParamSet, LmOtsScheme, LMOTS_Q};
use sigbench::lms::LmsParamSet;
use sigbench::xmss::{XmssParamSet, XmssScheme, XmssSecretKey};
use sigbench::xmssmt::{XmssmtParamSet, XmssmtPublicKey, XmssmtScheme, XMSSMT_L1_NAME};

#[test]
fn bench_message_uses_expected_fill_byte() {
    let message = sigbench::dilithium::bench_message(16);
    assert_eq!(message.len(), 16);
    assert!(message.iter().all(|&byte| byte == sigbench::dilithium::BENCH_MESSAGE_BYTE));
}

#[test]
fn lib_bench_message_uses_expected_fill_byte() {
    let msg = sigbench::hss::bench_message(16);
    assert_eq!(msg.len(), 16);
    assert!(msg.iter().all(|&byte| byte == sigbench::hss::BENCH_MESSAGE_BYTE));
}

#[test]
fn signed_message_size_adds_lengths() {
    assert_eq!(sigbench::dilithium::signed_message_size(10, 20), 30);
}

#[test]
fn lib_signed_message_size_adds_lengths() {
    assert_eq!(sigbench::sphincs::signed_message_size(10, 20), 30);
}

#[test]
fn saturating_sizes_cap_at_usize_max() {
    assert_eq!(sigbench::lms::signed_message_size(usize::MAX, 1), usize::MAX);
    assert_eq!(sigbench::lms::signed_message_size(0, 0), 0);
}

#[test]
fn param_set_lookup_works() {
    let found = sigbench::hss::param_set_by_name(DEFAULT_PARAM_SET_NAME)
        .expect("known param set should resolve");
    assert_eq!(found.name(), DEFAULT_PARAM_SET_NAME);
}

#[test]
fn lib_param_set_lookup_works() {
    let found = sigbench::lms::param_set_by_name(sigbench::lms::DEFAULT_PARAM_SET_NAME)
        .expect("known param set should resolve");
    assert_eq!(found.name(), sigbench::lms::DEFAULT_PARAM_SET_NAME);
}

#[test]
fn xmssmt_param_set_lookup_works() {
    let found =
        sigbench::xmssmt::param_set_by_name(XMSSMT_L1_NAME).expect("known param set resolves");
    assert_eq!(found.name(), XMSSMT_L1_NAME);
    assert!(sigbench::xmssmt::param_set_by_name("XMSSMT-L7").is_none());
}

#[test]
fn sign_verify_roundtrip() {
    let scheme =
        HssScheme::from_param_set_name(DEFAULT_PARAM_SET_NAME).expect("param set should resolve");
    let message = b"hss-roundtrip";
    let (public_key, mut secret_key) = scheme.keypair().expect("keypair should succeed");

    let signature = scheme.sign(message, &mut secret_key).expect("sign should succeed");
    let verified = scheme.verify(message, &signature, &public_key).expect("verify should succeed");
    assert!(verified, "signature should verify");
}

#[test]
fn verify_fails_for_other_message() {
    let scheme =
        HssScheme::from_param_set_name(DEFAULT_PARAM_SET_NAME).expect("param set should resolve");
    let (public_key, mut secret_key) = scheme.keypair().expect("keypair should succeed");

    let signature = scheme.sign(b"message-a", &mut secret_key).expect("sign should succeed");
    let verified =
        scheme.verify(b"message-b", &signature, &public_key).expect("verify should succeed");
    assert!(!verified, "different message should fail verification");
}

#[test]
fn hss_seeded_keypair_is_deterministic() {
    let scheme = HssScheme::new(HssParamSet::L1H5W2);
    let (public_a, _secret_a) = scheme.keypair_with_seed(9).expect("keypair should succeed");
    let (public_b, _secret_b) = scheme.keypair_with_seed(9).expect("keypair should succeed");
    assert_eq!(public_a.as_bytes(), public_b.as_bytes());
    assert!(public_a.byte_len() > 0);
}

#[test]
fn hss_rejects_mismatched_parameter_sets() {
    let signer = HssScheme::new(HssParamSet::L1H5W2);
    let other = HssScheme::new(HssParamSet::L2H5W2);
    let (_public, mut secret) = signer.keypair_with_seed(11).expect("keypair should succeed");
    let result = other.sign(b"x", &mut secret);
    assert!(matches!(result, Err(HssError::ParamSetMismatch { .. })));
}

#[test]
fn hss_unknown_param_set_is_reported() {
    let result = HssScheme::from_param_set_name("HSS-SHA256-H5-W2-L9");
    assert!(matches!(result, Err(HssError::UnknownParamSet { .. })));
}

#[test]
fn hss_secret_key_reports_lifetime() {
    let scheme = HssScheme::new(HssParamSet::L1H5W2);
    let (_public, mut secret) = scheme.keypair_with_seed(13).expect("keypair should succeed");
    let before = secret.lifetime().expect("lifetime should be computable");
    let _signature = scheme.sign(b"one", &mut secret).expect("sign should succeed");
    let after = secret.lifetime().expect("lifetime should be computable");
    assert!(after < before, "signing must consume one-time leaves");
}

#[test]
fn hss_sizes_are_consistent() {
    let scheme = HssScheme::new(HssParamSet::L1H5W2);
    let sizes = scheme.sizes().expect("sizes should be measurable");
    assert!(sizes.public_key_bytes > 0);
    assert!(sizes.secret_key_bytes > 0);
    assert!(sizes.signature_bytes > 0);
}

#[test]
fn parse_param_set() {
    assert_eq!(
        LmOtsParamSet::from_str("LMOTS_SHA256_N32_W4").expect("parse"),
        LmOtsParamSet::Sha256N32W4
    );
    assert_eq!(LmOtsParamSet::from_str("w8").expect("parse"), LmOtsParamSet::Sha256N32W8);
}

#[test]
fn parse_param_set_normalizes_and_rejects() {
    assert_eq!(
        LmOtsParamSet::from_str("  lmots-sha256-n32-w1 ").expect("parse"),
        LmOtsParamSet::Sha256N32W1
    );
    assert_eq!(LmOtsParamSet::from_str("SHA256_N32_W2").expect("parse"), LmOtsParamSet::Sha256N32W2);
    assert!(LmOtsParamSet::from_str("w3").is_err());
    assert!(LmOtsParamSet::from_str("").is_err());
}

#[test]
fn lm_ots_facade_reports_fixed_parameters() {
    let scheme = LmOtsScheme::new(LmOtsParamSet::Sha256N32W4);
    assert_eq!(scheme.algorithm_name(), "LM-OTS");
    assert_eq!(scheme.param_set(), LmOtsParamSet::Sha256N32W4);
    assert_eq!(scheme.param_set_name(), "LMOTS_SHA256_N32_W4");
    assert_eq!(scheme.max_signatures_per_key(), 1);
    assert_eq!(LmOtsParamSet::default(), LmOtsParamSet::Sha256N32W4);
    assert_eq!(LMOTS_Q, 0);
}

#[test]
fn lm_ots_seed_material_is_deterministic() {
    // FNV-1a of "abc".
    assert_eq!(sigbench::lm_ots::seed_from_str("abc"), 0xe71fa2190541574b_u64);
    assert_eq!(sigbench::lm_ots::seed_from_str("lm-ots-default-id"), 0x6767ca63147cdb2f_u64);

    let id = sigbench::lm_ots::identifier_from_seed(5);
    let seed_bytes = sigbench::lm_ots::seed_bytes_from_u64(5);
    assert_eq!(id.len(), 16);
    assert_eq!(seed_bytes.len(), 32);
    // Both draw from the same deterministic stream.
    assert_eq!(&seed_bytes[..16], &id[..]);

    let default_id = sigbench::lm_ots::default_identifier();
    assert_eq!(default_id, sigbench::lm_ots::identifier_from_seed(0x6767ca63147cdb2f));
}

#[test]
fn lms_facade_reports_parameters() {
    let scheme = sigbench::lms::LmsScheme::new(LmsParamSet::H10W4);
    assert_eq!(scheme.algorithm_name(), "LMS");
    assert_eq!(scheme.tree_height(), 10);
    assert_eq!(scheme.param_set_name(), "LMS-SHA256-M32-H10+LMOTS-SHA256-N32-W4");
    assert!(sigbench::lms::param_set_by_name("LMS-SHA256-M32-H7").is_none());
    assert!(matches!(
        sigbench::lms::LmsScheme::from_param_set_name("nope"),
        Err(sigbench::lms::LmsError::UnknownParamSet { .. })
    ));
}

#[test]
fn digest_has_expected_size() {
    let digest = sigbench::winternitz::message_digest_hex(b"digest-test");
    assert_eq!(digest.len(), 64);
}

#[test]
fn digest_matches_reference_value() {
    let digest = sigbench::winternitz::message_digest_hex(b"digest-test");
    assert_eq!(digest, "823B17BD9029F7CD6ED1E326ECB21A1AA17849F9837DB8DE831AF2D916FFA038");
}

#[test]
fn xmss_param_sets_parse_and_report_oids() {
    assert_eq!(XmssParamSet::from_str("XMSS-SHA2_10_256").expect("parse"), XmssParamSet::XmssSha2_10_256);
    assert_eq!(XmssParamSet::from_str("XMSS-SHA2_16_256").expect("parse"), XmssParamSet::XmssSha2_16_256);
    assert_eq!(XmssParamSet::from_str("XMSS-SHA2_20_256").expect("parse"), XmssParamSet::XmssSha2_20_256);
    assert!(XmssParamSet::from_str("XMSS-SHA2_24_256").is_err());

    assert_eq!(XmssParamSet::XmssSha2_10_256.oid(), 1);
    assert_eq!(XmssParamSet::XmssSha2_16_256.oid(), 2);
    assert_eq!(XmssParamSet::XmssSha2_20_256.oid(), 3);

    let all = XmssParamSet::all();
    assert_eq!(all.len(), 3);
    assert_eq!(all[0].as_str(), "XMSS-SHA2_10_256");
}

#[test]
fn xmss_reports_exact_sizes_and_lifetimes() {
    let scheme = XmssScheme::new(XmssParamSet::XmssSha2_10_256);
    let sizes = scheme.sizes().expect("sizes must succeed");
    assert_eq!(sizes.public_key_bytes, 68);
    assert_eq!(sizes.secret_key_bytes, 136);
    assert_eq!(sizes.signature_bytes, 2500);
    assert_eq!(scheme.max_signatures_per_key().expect("heights are fixed"), 1024);

    let taller = XmssScheme::new(XmssParamSet::XmssSha2_16_256);
    assert_eq!(taller.sizes().expect("sizes must succeed").signature_bytes, 2692);
    assert_eq!(taller.max_signatures_per_key().expect("heights are fixed"), 65536);
}

#[test]
fn xmss_containers_round_trip_their_bytes() {
    let scheme = XmssScheme::new(XmssParamSet::XmssSha2_10_256);
    assert_eq!(scheme.algorithm_name(), "XMSS");
    assert_eq!(scheme.param_set(), XmssParamSet::XmssSha2_10_256);

    let secret = XmssSecretKey::from_bytes(vec![1, 2, 3], XmssParamSet::XmssSha2_10_256);
    assert_eq!(secret.as_bytes(), &[1, 2, 3]);
    assert_eq!(secret.len(), 3);
    assert!(!secret.is_empty());
    assert_eq!(secret.into_bytes(), vec![1, 2, 3]);
}

#[test]
fn xmssmt_facade_reports_parameters() {
    let scheme = XmssmtScheme::from_param_set_name(XMSSMT_L1_NAME).expect("param set resolves");
    assert_eq!(scheme.algorithm_name(), "XMSSMT");
    assert_eq!(scheme.param_set_name(), XMSSMT_L1_NAME);
    assert_eq!(scheme.signatures_per_key(), 1 << 24);

    let public = XmssmtPublicKey::from_bytes(vec![9; 4], XmssmtParamSet::Level1);
    assert_eq!(scheme.public_key_size(&public), 4);
    assert_eq!(public.as_bytes(), &[9, 9, 9, 9]);

    assert!(matches!(
        XmssmtScheme::from_param_set_name("XMSSMT-L7"),
        Err(sigbench::xmssmt::XmssmtError::UnknownParamSet { .. })
    ));
}
