use ceseal::attestation::ReportStep;
use ceseal::crypto::IdentityKey;
use ceseal::runtime::{GenesisBlock, InitRequest, RuntimeData, StartedSystem, IdentityToInit, RuntimeInfoStep};
use ceseal::state::{
    Ceseal, ChainStorage, Counters, InitArgs, Synchronizer,
};
use ceseal::error::CesealServiceError;
use ceseal::types::{Attestation, AttestationProvider};

fn args(safe_mode_level: u8) -> InitArgs {
    InitArgs {
        version: "0.1.0".to_string(),
        git_revision: "abc".to_string(),
        safe_mode_level,
        enable_checkpoint: true,
        checkpoint_interval: 300,
        ra_timeout_ms: 8_000,
        ra_max_retries: 1,
        role: 1,
        storage_path: "/data".to_string(),
    }
}

fn synchronizer(next_block_number: u32) -> Synchronizer {
    Synchronizer {
        counters: Counters { next_header_number: next_block_number + 1, next_block_number },
        state_validated: true,
    }
}

fn key() -> IdentityKey {
    IdentityKey::from_seed_slice(b"12345678901234567890123456789012").ok().unwrap()
}

/// A node that was initialised with the given mode and provider, at the block before
/// `next_block_number`.
fn node(
    dev_mode: bool,
    provider: Option<AttestationProvider>,
    next_block_number: u32,
) -> Ceseal<()> {
    let mut c = Ceseal::new(());
    c.init(args(0), vec![0xab, 0xcd], false);
    let request = InitRequest {
        genesis: GenesisBlock { hash: [1; 32], state_root: [2; 32] },
        operator: None,
        attestation_provider: provider,
    };
    let p = c.init_runtime(request, None).ok().unwrap();
    let data = RuntimeData {
        identity_key: key(),
        ecdh_public_key: [4; 32],
        dev_mode,
        trusted_sk: !dev_mode,
    };
    let p = c.init_identity_ready(p, Ok(data)).ok().unwrap();
    let p = c.init_quote_tested(p, Ok(())).ok().unwrap();
    let storage = ChainStorage { root: [2; 32], timestamp_now: 9_000_500 };
    let p = c.init_bridge_opened(p, storage).ok().unwrap();
    c.init_system_started(
        p,
        StartedSystem {
            version: 2,
            cpu_core_num: 8,
            cpu_feature_level: 3,
            synchronizer: synchronizer(next_block_number),
            now_ms: 5_000,
            genesis_block: 0,
            registered: false,
        },
    );
    c
}

fn attestation(timestamp: u64) -> Attestation {
    Attestation {
        version: 1,
        provider: "null".to_string(),
        payload: None,
        encoded_report: vec![0],
        timestamp,
    }
}

fn fresh() -> Ceseal<()> {
    let mut c = Ceseal::new(());
    c.init(args(0), vec![0xab, 0xcd], false);
    c
}

fn request(provider: Option<AttestationProvider>) -> InitRequest {
    InitRequest {
        genesis: GenesisBlock { hash: [1; 32], state_root: [2; 32] },
        operator: None,
        attestation_provider: provider,
    }
}

fn data(dev_mode: bool) -> RuntimeData {
    RuntimeData {
        identity_key: key(),
        ecdh_public_key: [4; 32],
        dev_mode,
        trusted_sk: !dev_mode,
    }
}

fn begun() -> IdentityToInit {
    fresh().init_runtime(request(None), None).ok().unwrap()
}

#[test]
fn the_initialised_node_keeps_its_answer() {
    let c = node(false, Some(AttestationProvider::Ias), 1);
    let info = c.runtime_info.as_ref().unwrap();
    assert_eq!(info.genesis_block_hash, [1; 32]);
    assert_eq!(info.public_key, key().public());
    assert_eq!(info.ecdh_public_key, [4; 32]);
    assert_eq!(info.runtime_info.version, 2);
    assert_eq!(info.runtime_info.machine_id, vec![0xab, 0xcd]);
    assert_eq!(info.runtime_info.features, vec![8, 3]);
    assert_eq!(info.runtime_info.operator, None);
    assert_eq!(info.runtime_info.role, 1);
    assert_eq!(info.encoded_runtime_info, info.runtime_info.encode());
    assert!(info.attestation.is_none());
    assert_eq!(c.runtime_state.as_ref().unwrap().pending_messages, 0);
    assert_eq!(c.system.as_ref().unwrap().now_ms, 5_000);
    assert_eq!(c.attestation_provider, Some(AttestationProvider::Ias));
    assert!(c.trusted_sk);
}

#[test]
fn a_runtime_is_initialised_once() {
    let c = node(true, None, 1);
    let e = c.init_runtime(request(None), None).err().unwrap();
    assert_eq!(e.message(), "Runtime already initialized");
}

#[test]
fn a_debug_key_is_made_of_its_seed() {
    let c = fresh();
    let seed = b"12345678901234567890123456789012".to_vec();
    let p = c.init_runtime(request(None), Some(seed)).ok().unwrap();
    assert_eq!(p.debug_key.unwrap().public(), key().public());
    let e = c.init_runtime(request(None), Some(vec![1; 5])).err().unwrap();
    assert_eq!(e.message(), "InvalidSeedLength");
}

#[test]
fn a_failed_identity_is_reported() {
    let mut c = fresh();
    let e = c.init_identity_ready(begun(), Err("UnsealError".to_string())).err().unwrap();
    assert_eq!(e, CesealServiceError::AppError("UnsealError".to_string()));
}

#[test]
fn a_development_node_is_not_attested() {
    let mut c = fresh();
    let p = c.init_runtime(request(Some(AttestationProvider::Ias)), None).ok().unwrap();
    let e = c.init_identity_ready(p, Ok(data(true))).err().unwrap();
    assert_eq!(e.message(), "RA is disallowed when debug_set_key is enabled");
    assert!(c.system.is_none());
}

#[test]
fn a_failed_quote_test_is_reported() {
    let mut c = fresh();
    let p = c.init_identity_ready(begun(), Ok(data(false))).ok().unwrap();
    let e = c.init_quote_tested(p, Err("NoQuote".to_string())).err().unwrap();
    assert_eq!(e.message(), "NoQuote");
}

#[test]
fn the_first_state_has_the_root_of_the_first_block() {
    let mut c = fresh();
    let p = c.init_identity_ready(begun(), Ok(data(false))).ok().unwrap();
    let p = c.init_quote_tested(p, Ok(())).ok().unwrap();
    let storage = ChainStorage { root: [3; 32], timestamp_now: 0 };
    let e = c.init_bridge_opened(p, storage).err().unwrap();
    assert_eq!(e.message(), "state root mismatch");
}

#[test]
fn the_answer_is_asked_for_after_the_initialisation() {
    let mut c = fresh();
    let e = c.get_runtime_info(false, None, 0).err().unwrap();
    assert_eq!(e.message(), "Runtime not initialized");
    let mut c = node(false, None, 1);
    c.runtime_info = None;
    let e = c.get_runtime_info(false, None, 0).err().unwrap();
    assert_eq!(e.message(), "Uninitiated runtime info");
    let e = c.runtime_info_attested(Ok(attestation(1))).err().unwrap();
    assert_eq!(e.message(), "Uninitiated runtime info");
}

#[test]
fn the_report_is_on_the_hash_of_the_registration() {
    let mut c = node(false, None, 1);
    match c.get_runtime_info(false, None, 100).ok().unwrap() {
        RuntimeInfoStep::CreateReport(order) => {
            assert_eq!(
                hex::encode(order.hash),
                "b997797e0ee6115929c3dc13d91007b03a5e48909246f4ca680ac3c5488507c1"
            );
            assert_eq!(order.provider, None);
            assert_eq!(order.timeout_ms, 8_000);
            assert_eq!(order.max_retries, 1);
        }
        other => panic!("unexpected {:?}", other),
    }
}

#[test]
fn the_report_covers_a_new_operator() {
    let mut c = node(false, Some(AttestationProvider::Ias), 1);
    c.runtime_info_attested(Ok(attestation(100))).ok().unwrap();
    match c.get_runtime_info(false, Some([7; 32]), 100).ok().unwrap() {
        RuntimeInfoStep::CreateReport(order) => {
            assert_eq!(
                hex::encode(order.hash),
                "b6da47b3916ee61a90d0de2a903e06d30564c44bab5f8bbca5096f378b7aaa00"
            );
            assert_eq!(order.provider, Some(AttestationProvider::Ias));
        }
        other => panic!("unexpected {:?}", other),
    }
    let kept = c.runtime_info.as_ref().unwrap();
    assert_eq!(kept.runtime_info.operator, Some([7; 32]));
    assert_eq!(kept.encoded_runtime_info, kept.runtime_info.encode());
}

#[test]
fn an_attestation_is_used_for_an_hour() {
    let mut c = node(false, None, 1);
    let first = c.runtime_info_attested(Ok(attestation(1000))).ok().unwrap();
    assert_eq!(first.attestation.as_ref().unwrap().timestamp, 1000);
    match c.get_runtime_info(false, None, 4600).ok().unwrap() {
        RuntimeInfoStep::Ready(again) => {
            assert_eq!(again.attestation.unwrap().timestamp, 1000);
        }
        other => panic!("unexpected {:?}", other),
    }
    assert!(matches!(
        c.get_runtime_info(false, None, 4601),
        Ok(RuntimeInfoStep::CreateReport(_))
    ));
}

#[test]
fn a_refresh_drops_the_attestation() {
    let mut c = node(false, None, 1);
    c.runtime_info_attested(Ok(attestation(1000))).ok().unwrap();
    assert!(matches!(
        c.get_runtime_info(true, None, 1000),
        Ok(RuntimeInfoStep::CreateReport(_))
    ));
    let failed = CesealServiceError::AppError("no report".to_string());
    let e = c.runtime_info_attested(Err(failed)).err().unwrap();
    assert_eq!(e.message(), "no report");
    assert!(c.runtime_info.as_ref().unwrap().attestation.is_none());
}

#[test]
fn a_key_that_may_be_injected_is_not_attested() {
    let mut c = node(false, Some(AttestationProvider::Ias), 1);
    c.trusted_sk = false;
    assert!(matches!(c.get_runtime_info(true, None, 1), Ok(RuntimeInfoStep::Ready(_))));
    c.system.as_mut().unwrap().registered = true;
    assert!(matches!(
        c.get_runtime_info(true, None, 1),
        Ok(RuntimeInfoStep::CreateReport(_))
    ));
    c.runtime_state.as_mut().unwrap().storage_synchronizer.state_validated = false;
    assert!(matches!(c.get_runtime_info(true, None, 1), Ok(RuntimeInfoStep::Ready(_))));
}

#[test]
fn a_node_tries_a_report_as_often_as_it_was_started_to() {
    let mut c = node(false, None, 1);
    let failed = || Err("Timeout".to_string());
    assert!(matches!(
        c.try_report(0, "null".to_string(), failed(), 9),
        ReportStep::Retry { tried: 1, after_secs: 1 }
    ));
    assert!(matches!(
        c.try_report(1, "null".to_string(), failed(), 9),
        ReportStep::Failed(_)
    ));
    c.args.ra_max_retries = 2;
    assert!(matches!(
        c.try_report(1, "null".to_string(), failed(), 9),
        ReportStep::Retry { tried: 2, after_secs: 2 }
    ));
    match c.try_report(2, "null".to_string(), Ok(vec![5]), 9) {
        ReportStep::Created(a) => {
            assert_eq!(a.encoded_report, vec![5]);
            assert_eq!(a.timestamp, 9);
        }
        other => panic!("unexpected {:?}", other),
    }
}
