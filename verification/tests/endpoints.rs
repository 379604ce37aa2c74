use ceseal::crypto::IdentityKey;
use ceseal::runtime::{GenesisBlock, InitRequest, RuntimeData, StartedSystem};
use ceseal::state::{
    Ceseal, ChainStorage, Counters, InitArgs, Synchronizer,
};
use ceseal::types::{AttestationProvider, SignedContentType};
use sp_core::Pair;

fn args(safe_mode_level: u8) -> InitArgs {
    InitArgs {
        version: "0.1.0".to_string(),
        git_revision: "abc".to_string(),
        safe_mode_level,
        enable_checkpoint: true,
        checkpoint_interval: 300,
        ra_timeout_ms: 8_000,
        ra_max_retries: 1,
        role: 1,
        storage_path: "/data".to_string(),
    }
}

fn synchronizer(next_block_number: u32) -> Synchronizer {
    Synchronizer {
        counters: Counters { next_header_number: next_block_number + 1, next_block_number },
        state_validated: true,
    }
}

fn key() -> IdentityKey {
    IdentityKey::from_seed_slice(b"12345678901234567890123456789012").ok().unwrap()
}

/// A node that was initialised with the given mode and provider, at the block before
/// `next_block_number`.
fn node(
    dev_mode: bool,
    provider: Option<AttestationProvider>,
    next_block_number: u32,
) -> Ceseal<()> {
    let mut c = Ceseal::new(());
    c.init(args(0), vec![0xab, 0xcd], false);
    let request = InitRequest {
        genesis: GenesisBlock { hash: [1; 32], state_root: [2; 32] },
        operator: None,
        attestation_provider: provider,
    };
    let p = c.init_runtime(request, None).ok().unwrap();
    let data = RuntimeData {
        identity_key: key(),
        ecdh_public_key: [4; 32],
        dev_mode,
        trusted_sk: !dev_mode,
    };
    let p = c.init_identity_ready(p, Ok(data)).ok().unwrap();
    let p = c.init_quote_tested(p, Ok(())).ok().unwrap();
    let storage = ChainStorage { root: [2; 32], timestamp_now: 9_000_500 };
    let p = c.init_bridge_opened(p, storage).ok().unwrap();
    c.init_system_started(
        p,
        StartedSystem {
            version: 2,
            cpu_core_num: 8,
            cpu_feature_level: 3,
            synchronizer: synchronizer(next_block_number),
            now_ms: 5_000,
            genesis_block: 0,
            registered: false,
        },
    );
    c
}

fn wrap(content: &[u8], kind: SignedContentType) -> Vec<u8> {
    let mut out = vec![match kind {
        SignedContentType::EndpointInfo => 1,
        SignedContentType::MasterKeyApply => 2,
    }];
    out.extend_from_slice(content);
    out
}

fn verifies(signature: &[u8], message: &[u8]) -> bool {
    let signature = sp_core::sr25519::Signature::try_from(signature).unwrap();
    let public = sp_core::sr25519::Public::from(key().public());
    sp_core::sr25519::Pair::verify(&signature, message, &public)
}

#[test]
fn no_endpoint_is_given_before_one_is_set() {
    let mut c = Ceseal::new(());
    let answer = c.get_endpoint_info(wrap).ok().unwrap();
    assert!(answer.payload.is_none());
    assert!(answer.signature.is_none());
}

#[test]
fn a_set_endpoint_is_signed_and_kept() {
    let mut c = node(false, Some(AttestationProvider::Ias), 1);
    let first = c.set_endpoint("http://a".to_string(), wrap).ok().unwrap();
    let payload = first.payload.as_ref().unwrap();
    assert_eq!(payload.pubkey, key().public());
    assert_eq!(payload.endpoint, Some("http://a".to_string()));
    assert_eq!(payload.signing_time, 5_000);
    let message = wrap(&payload.encode(), SignedContentType::EndpointInfo);
    let signature = first.signature.clone().unwrap();
    assert_eq!(signature.len(), 64);
    assert!(verifies(&signature, &message));
    assert!(!verifies(&signature, &payload.encode()));

    c.system.as_mut().unwrap().now_ms = 6_000;
    let again = c.get_endpoint_info(wrap).ok().unwrap();
    assert_eq!(again.signature, first.signature);
    assert_eq!(again.payload.unwrap().signing_time, 5_000);
    let anew = c.sign_endpoint(wrap).ok().unwrap();
    assert_eq!(anew.payload.unwrap().signing_time, 6_000);
    let kept = c.get_endpoint_info(wrap).ok().unwrap();
    assert_eq!(kept.signature, anew.signature);
}

#[test]
fn an_endpoint_without_signature_is_signed_when_asked_for() {
    let mut c = node(false, None, 1);
    c.endpoint = Some("http://b".to_string());
    let answer = c.get_endpoint_info(wrap).ok().unwrap();
    assert_eq!(answer.payload.unwrap().endpoint, Some("http://b".to_string()));
    assert!(c.signed_endpoint.is_some());
}

#[test]
fn the_endpoint_fits_the_payload() {
    let mut c = node(false, None, 1);
    // 32 bytes of key, 1 of presence, 2 of length, 8 of time
    let longest = "x".repeat(512 - 43);
    assert!(c.set_endpoint(longest, wrap).is_ok());
    let before = c.get_endpoint_info(wrap).ok().unwrap();
    let e = c.set_endpoint("x".repeat(512 - 42), wrap).err().unwrap();
    assert_eq!(e.message(), "Endpoints too large");
    assert_eq!(c.endpoint, Some("x".repeat(512 - 42)));
    assert_eq!(c.get_endpoint_info(wrap).ok().unwrap().signature, before.signature);
}

#[test]
fn an_endpoint_needs_a_system() {
    let mut c = Ceseal::new(());
    let e = c.set_endpoint("http://a".to_string(), wrap).err().unwrap();
    assert_eq!(e.message(), "Runtime not initialized");
    assert_eq!(c.endpoint, Some("http://a".to_string()));
    assert!(c.signed_endpoint.is_none());
}

#[test]
fn the_master_key_is_applied_for() {
    let c = node(false, None, 1);
    let answer = c.get_master_key_apply(wrap).ok().unwrap();
    assert_eq!(answer.payload.pubkey, key().public());
    assert_eq!(answer.payload.ecdh_pubkey, [4; 32]);
    assert_eq!(answer.payload.signing_time, 5_000);
    let message = wrap(&answer.payload.encode(), SignedContentType::MasterKeyApply);
    assert!(verifies(&answer.signature, &message));
    let e = Ceseal::new(()).get_master_key_apply(wrap).err().unwrap();
    assert_eq!(e.message(), "Runtime not initialized");
}
