use operator::attestation::{attest, expiry_from, generate_salt, OperatorIdentity};
use operator::config::{expiry_after, get_rpc_url, EXPIRY_WINDOW_SECS, REGISTRATION_GAS_LIMIT};
use operator::error::{ConfigField, RegistrationError};
use operator::session::{
    classify_receipt, finish_with_receipt, Action, ChainEvent, Phase, ReceiptOutcome,
    ReceiptWatch, RegistrationRun,
};
use operator::topology::{resolve_topology, CoreDeployment, MiddlewareDeployment, NetworkTopology};

const DEV_KEY: &str = "0xac0974bec39a17e36ba4a6b4d238ff944bacb478cbed5efcae784d7bf4f2ff80";
const DEV_ADDRESS: &str = "f39fd6e51aad88f6f4ce6ab8827279cfffb92266";

fn addr(hex_tail: &str) -> [u8; 20] {
    let mut out = [0u8; 20];
    for i in 0..20 {
        out[i] = u8::from_str_radix(&hex_tail[2 * i..2 * i + 2], 16).unwrap();
    }
    out
}

fn error_string_data(reason: &str) -> Vec<u8> {
    let mut data = vec![0x08, 0xc3, 0x79, 0xa0];
    let mut offset = [0u8; 32];
    offset[31] = 0x20;
    data.extend_from_slice(&offset);
    let mut len = [0u8; 32];
    len[31] = reason.len() as u8;
    data.extend_from_slice(&len);
    let mut body = reason.as_bytes().to_vec();
    while body.len() % 32 != 0 {
        body.push(0);
    }
    data.extend_from_slice(&body);
    data
}

fn manifests() -> (CoreDeployment, MiddlewareDeployment) {
    (
        CoreDeployment {
            delegation: Some("0xaaaaaaaaaaaaaaaaaaaaaaaaaaaaaaaaaaaaaa01".to_string()),
            avs_directory: Some("0xaaaaaaaaaaaaaaaaaaaaaaaaaaaaaaaaaaaaaa02".to_string()),
        },
        MiddlewareDeployment {
            service_manager: Some("0xbbbbbbbbbbbbbbbbbbbbbbbbbbbbbbbbbbbbbb01".to_string()),
            stake_registry: Some("0xbbbbbbbbbbbbbbbbbbbbbbbbbbbbbbbbbbbbbb02".to_string()),
        },
    )
}

fn topology() -> NetworkTopology {
    let (core, middleware) = manifests();
    resolve_topology(&core, &middleware).unwrap()
}

fn run() -> RegistrationRun {
    let identity = OperatorIdentity::from_key_text(DEV_KEY).unwrap();
    let (run, action) = RegistrationRun::begin(topology(), identity, [7u8; 32], 1_700_003_600, 30);
    assert!(matches!(action, Action::QueryRegistration { .. }));
    run
}

fn run_at_receipt() -> RegistrationRun {
    let mut r = run();
    r.advance(ChainEvent::RegistrationStatus(Some(false)));
    let a = r.advance(ChainEvent::Digest(Some([9u8; 32])));
    assert!(matches!(a, Action::SendRegistration { .. }));
    let a = r.advance(ChainEvent::Sent(Ok(())));
    assert!(matches!(a, Action::AwaitReceipt { timeout_secs: 30 }));
    r
}

#[test]
fn rpc_url_prefers_configured_endpoint() {
    assert_eq!(get_rpc_url(Some("https://holesky.example:8545")), "https://holesky.example:8545");
    assert_eq!(get_rpc_url(None), "http://ethereum:8545");
}

#[test]
fn expiry_is_one_window_later() {
    assert_eq!(EXPIRY_WINDOW_SECS, 3600);
    assert_eq!(expiry_after(1_700_000_000, 3600), Some(1_700_003_600));
    assert_eq!(expiry_after(0, 0), Some(0));
    assert_eq!(expiry_after(-1, 3600), None);
    assert_eq!(expiry_after(i64::MAX, u64::MAX), None);
    assert_eq!(expiry_from(1_700_000_000).unwrap(), 1_700_003_600);
    assert!(matches!(expiry_from(-5), Err(RegistrationError::Config(ConfigField::Clock))));
}

#[test]
fn topology_matches_manifest_hex() {
    let t = topology();
    assert_eq!(t.delegation.bytes, addr("aaaaaaaaaaaaaaaaaaaaaaaaaaaaaaaaaaaaaa01"));
    assert_eq!(t.avs_directory.bytes, addr("aaaaaaaaaaaaaaaaaaaaaaaaaaaaaaaaaaaaaa02"));
    assert_eq!(t.service_manager.bytes, addr("bbbbbbbbbbbbbbbbbbbbbbbbbbbbbbbbbbbbbb01"));
    assert_eq!(t.stake_registry.bytes, addr("bbbbbbbbbbbbbbbbbbbbbbbbbbbbbbbbbbbbbb02"));
}

#[test]
fn topology_accepts_unprefixed_and_upper_case() {
    let (mut core, middleware) = manifests();
    core.delegation = Some("AAAAAAAAAAAAAAAAAAAAAAAAAAAAAAAAAAAAAA01".to_string());
    core.avs_directory = Some("0XaaaaaaaaaaaaaaaaaaaaaaaaaaaaaaaaaaaaaA02".to_string());
    let t = resolve_topology(&core, &middleware).unwrap();
    assert_eq!(t.delegation.bytes, addr("aaaaaaaaaaaaaaaaaaaaaaaaaaaaaaaaaaaaaa01"));
    assert_eq!(t.avs_directory.bytes, addr("aaaaaaaaaaaaaaaaaaaaaaaaaaaaaaaaaaaaaa02"));
}

#[test]
fn topology_missing_field_is_config_error() {
    let (mut core, middleware) = manifests();
    core.avs_directory = None;
    let r = resolve_topology(&core, &middleware);
    assert!(matches!(r, Err(RegistrationError::Config(ConfigField::AvsDirectory))));

    let (core, mut middleware) = manifests();
    middleware.stake_registry = None;
    let r = resolve_topology(&core, &middleware);
    assert!(matches!(r, Err(RegistrationError::Config(ConfigField::StakeRegistry))));
}

#[test]
fn topology_malformed_field_is_config_error() {
    let (mut core, middleware) = manifests();
    core.delegation = Some("0xaaaaaaaaaaaaaaaaaaaaaaaaaaaaaaaaaaaaaa0".to_string());
    let r = resolve_topology(&core, &middleware);
    assert!(matches!(r, Err(RegistrationError::Config(ConfigField::Delegation))));

    let (core, mut middleware) = manifests();
    middleware.service_manager = Some("0xbbbbbbbbbbbbbbbbbbbbbbbbbbbbbbbbbbbbbbzz".to_string());
    let r = resolve_topology(&core, &middleware);
    assert!(matches!(r, Err(RegistrationError::Config(ConfigField::ServiceManager))));
}

#[test]
fn identity_derives_known_address() {
    let id = OperatorIdentity::from_key_text(DEV_KEY).unwrap();
    assert_eq!(id.address().bytes, addr(DEV_ADDRESS));
    let unprefixed = OperatorIdentity::from_key_text(&DEV_KEY[2..]).unwrap();
    assert_eq!(unprefixed.address().bytes, addr(DEV_ADDRESS));
}

#[test]
fn malformed_keys_are_signing_errors() {
    let zero = "0x0000000000000000000000000000000000000000000000000000000000000000";
    let order = "0xfffffffffffffffffffffffffffffffebaaedce6af48a03bbfd25e8cd0364141";
    let short = "0xac0974bec39a17e36ba4a6b4d238ff944bacb478cbed5efcae784d7bf4f2ff";
    for text in [zero, order, short, "not a key"] {
        assert!(matches!(OperatorIdentity::from_key_text(text), Err(RegistrationError::Signing)));
    }
    let just_below = "0xfffffffffffffffffffffffffffffffebaaedce6af48a03bbfd25e8cd0364140";
    assert!(OperatorIdentity::from_key_text(just_below).is_ok());
}

#[test]
fn signature_recovers_operator_and_binds_digest() {
    let id = OperatorIdentity::from_key_text(DEV_KEY).unwrap();
    let digest = [0x5au8; 32];
    let a = attest(&id, &digest, [1u8; 32], 1_700_003_600).unwrap();
    assert_eq!(a.salt, [1u8; 32]);
    assert_eq!(a.expiry, 1_700_003_600);
    let sig = alloy::primitives::Signature::from_raw(&a.signature).unwrap();
    let recovered = sig
        .recover_address_from_prehash(&alloy::primitives::B256::new(digest))
        .unwrap();
    assert_eq!(recovered.0 .0, addr(DEV_ADDRESS));

    let mut flipped = digest;
    flipped[31] ^= 1;
    let other = sig.recover_address_from_prehash(&alloy::primitives::B256::new(flipped));
    assert!(other.map(|x| x.0 .0 != addr(DEV_ADDRESS)).unwrap_or(true));
}

#[test]
fn signing_is_deterministic() {
    let id = OperatorIdentity::from_key_text(DEV_KEY).unwrap();
    let a = id.sign(&[3u8; 32]).unwrap();
    let b = id.sign(&[3u8; 32]).unwrap();
    assert_eq!(a, b);
    assert!(a[64] == 27 || a[64] == 28);
}

#[test]
fn salts_do_not_collide() {
    let mut seen = std::collections::HashSet::new();
    for _ in 0..1000 {
        assert!(seen.insert(generate_salt().unwrap()));
    }
}

#[test]
fn run_requests_in_order_and_reports_hash() {
    let mut r = run();
    let a = r.advance(ChainEvent::RegistrationStatus(Some(true)));
    assert_eq!(r.already_registered, Some(true));
    match a {
        Action::QueryDigest { salt, expiry, service_manager, .. } => {
            assert_eq!(salt, [7u8; 32]);
            assert_eq!(expiry, 1_700_003_600);
            assert_eq!(service_manager.bytes, addr("bbbbbbbbbbbbbbbbbbbbbbbbbbbbbbbbbbbbbb01"));
        }
        _ => panic!("expected a digest request"),
    }
    let a = r.advance(ChainEvent::Digest(Some([9u8; 32])));
    match a {
        Action::SendRegistration { stake_registry, operator, attestation, gas_limit } => {
            assert_eq!(stake_registry.bytes, addr("bbbbbbbbbbbbbbbbbbbbbbbbbbbbbbbbbbbbbb02"));
            assert_eq!(operator.bytes, addr(DEV_ADDRESS));
            assert_eq!(attestation.salt, [7u8; 32]);
            assert_eq!(gas_limit, REGISTRATION_GAS_LIMIT);
            assert_eq!(gas_limit, 500000);
        }
        _ => panic!("expected the registration transaction"),
    }
    r.advance(ChainEvent::Sent(Ok(())));
    let a = r.advance(ChainEvent::Receipt(ReceiptOutcome::Mined([4u8; 32])));
    assert!(matches!(a, Action::Finish(Ok(h)) if h == [4u8; 32]));
    assert!(matches!(r.phase, Phase::Finished));
    assert!(matches!(r.advance(ChainEvent::Sent(Ok(()))), Action::Stop));
}

#[test]
fn failed_registration_check_is_advisory() {
    let mut r = run();
    let a = r.advance(ChainEvent::RegistrationStatus(None));
    assert!(matches!(a, Action::QueryDigest { .. }));
    assert_eq!(r.already_registered, None);
}

#[test]
fn failed_digest_read_is_chain_query_error() {
    let mut r = run();
    r.advance(ChainEvent::RegistrationStatus(Some(false)));
    let a = r.advance(ChainEvent::Digest(None));
    assert!(matches!(a, Action::Finish(Err(RegistrationError::ChainQuery))));
}

#[test]
fn refused_transaction_is_submission_error() {
    let mut r = run();
    r.advance(ChainEvent::RegistrationStatus(Some(false)));
    r.advance(ChainEvent::Digest(Some([9u8; 32])));
    let a = r.advance(ChainEvent::Sent(Err("nonce too low".to_string())));
    assert!(matches!(a, Action::Finish(Err(RegistrationError::Submission(m))) if m == "nonce too low"));
}

#[test]
fn revert_reason_is_surfaced_verbatim() {
    let mut r = run_at_receipt();
    let watch = ReceiptWatch::Receipt {
        success: false,
        hash: [4u8; 32],
        revert_data: Some(error_string_data("AlreadyRegistered")),
    };
    let a = r.advance(ChainEvent::Receipt(classify_receipt(watch)));
    assert!(matches!(a, Action::Finish(Err(RegistrationError::Revert(Some(reason)))) if reason == "AlreadyRegistered"));
}

#[test]
fn receipt_timeout_is_timeout_error() {
    let mut r = run_at_receipt();
    let a = r.advance(ChainEvent::Receipt(ReceiptOutcome::TimedOut));
    assert!(matches!(a, Action::Finish(Err(RegistrationError::Timeout))));
    assert!(matches!(r.phase, Phase::Finished));
}

#[test]
fn unexpected_event_repeats_pending_request() {
    let mut r = run();
    let a = r.advance(ChainEvent::Receipt(ReceiptOutcome::TimedOut));
    assert!(matches!(a, Action::QueryRegistration { .. }));
    assert!(matches!(r.phase, Phase::CheckingRegistration));
}

#[test]
fn receipt_outcomes_map_to_results() {
    assert!(matches!(finish_with_receipt(ReceiptOutcome::Mined([1u8; 32])), Ok(h) if h == [1u8; 32]));
    assert!(matches!(
        finish_with_receipt(ReceiptOutcome::Reverted(Some("x".to_string()))),
        Err(RegistrationError::Revert(Some(s))) if s == "x"
    ));
    assert!(matches!(
        finish_with_receipt(ReceiptOutcome::Reverted(None)),
        Err(RegistrationError::Revert(None))
    ));
    assert!(matches!(
        finish_with_receipt(ReceiptOutcome::Unavailable("gone".to_string())),
        Err(RegistrationError::ChainQuery)
    ));
    assert!(matches!(finish_with_receipt(ReceiptOutcome::TimedOut), Err(RegistrationError::Timeout)));
}

#[test]
fn receipt_watch_classification() {
    let ok = ReceiptWatch::Receipt { success: true, hash: [2u8; 32], revert_data: None };
    assert!(matches!(classify_receipt(ok), ReceiptOutcome::Mined(h) if h == [2u8; 32]));
    let reverted = ReceiptWatch::Receipt {
        success: false,
        hash: [2u8; 32],
        revert_data: Some(error_string_data("expired")),
    };
    assert!(matches!(classify_receipt(reverted), ReceiptOutcome::Reverted(Some(r)) if r == "expired"));
    let custom = ReceiptWatch::Receipt {
        success: false,
        hash: [2u8; 32],
        revert_data: Some(vec![0x12, 0x34, 0x56, 0x78]),
    };
    assert!(matches!(classify_receipt(custom), ReceiptOutcome::Reverted(None)));
    let bare = ReceiptWatch::Receipt { success: false, hash: [2u8; 32], revert_data: None };
    assert!(matches!(classify_receipt(bare), ReceiptOutcome::Reverted(None)));
    assert!(matches!(
        classify_receipt(ReceiptWatch::Failed("rpc down".to_string())),
        ReceiptOutcome::Unavailable(m) if m == "rpc down"
    ));
    assert!(matches!(classify_receipt(ReceiptWatch::Elapsed), ReceiptOutcome::TimedOut));
}

#[test]
fn receipt_wait_elapsed_is_timeout_error() {
    let mut r = run_at_receipt();
    let a = r.advance(ChainEvent::Receipt(classify_receipt(ReceiptWatch::Elapsed)));
    assert!(matches!(a, Action::Finish(Err(RegistrationError::Timeout))));
}
