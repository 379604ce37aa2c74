use ceseal::crypto::IdentityKey;
use ceseal::runtime::{GenesisBlock, InitRequest, RuntimeData, StartedSystem};
use ceseal::state::{
    Ceseal, ChainStorage, Counters, InitArgs, Synchronizer, ExternalServerAction, ExternalServerCmd, ExternalServerStub,
};
use ceseal::error::Error;
use ceseal::types::{AttestationProvider, ExternalServerState};

fn args(safe_mode_level: u8) -> InitArgs {
    InitArgs {
        version: "0.1.0".to_string(),
        git_revision: "abc".to_string(),
        safe_mode_level,
        enable_checkpoint: true,
        checkpoint_interval: 300,
        ra_timeout_ms: 8_000,
        ra_max_retries: 1,
        role: 1,
        storage_path: "/data".to_string(),
    }
}

fn synchronizer(next_block_number: u32) -> Synchronizer {
    Synchronizer {
        counters: Counters { next_header_number: next_block_number + 1, next_block_number },
        state_validated: true,
    }
}

fn key() -> IdentityKey {
    IdentityKey::from_seed_slice(b"12345678901234567890123456789012").ok().unwrap()
}

/// A node that was initialised with the given mode and provider, at the block before
/// `next_block_number`.
fn node(
    dev_mode: bool,
    provider: Option<AttestationProvider>,
    next_block_number: u32,
) -> Ceseal<()> {
    let mut c = Ceseal::new(());
    c.init(args(0), vec![0xab, 0xcd], false);
    let request = InitRequest {
        genesis: GenesisBlock { hash: [1; 32], state_root: [2; 32] },
        operator: None,
        attestation_provider: provider,
    };
    let p = c.init_runtime(request, None).ok().unwrap();
    let data = RuntimeData {
        identity_key: key(),
        ecdh_public_key: [4; 32],
        dev_mode,
        trusted_sk: !dev_mode,
    };
    let p = c.init_identity_ready(p, Ok(data)).ok().unwrap();
    let p = c.init_quote_tested(p, Ok(())).ok().unwrap();
    let storage = ChainStorage { root: [2; 32], timestamp_now: 9_000_500 };
    let p = c.init_bridge_opened(p, storage).ok().unwrap();
    c.init_system_started(
        p,
        StartedSystem {
            version: 2,
            cpu_core_num: 8,
            cpu_feature_level: 3,
            synchronizer: synchronizer(next_block_number),
            now_ms: 5_000,
            genesis_block: 0,
            registered: false,
        },
    );
    c
}

#[test]
fn a_fresh_node_reports_nothing() {
    let c = Ceseal::new(());
    let info = c.get_info(Some(1u8), 2u8);
    assert!(!info.initialized);
    assert_eq!(info.genesis_block_hash, None);
    assert_eq!(info.headernum, 0);
    assert_eq!(info.blocknum, 0);
    assert_eq!(info.state_root, "");
    assert_eq!(info.pending_messages, 0);
    assert_eq!(info.version, "");
    assert_eq!(info.memory_usage, Some(2));
    assert_eq!(info.system, None);
    assert_eq!(info.current_block_time, 0);
    assert_eq!(info.external_server_state, ExternalServerState::Closed);
}

#[test]
fn a_started_node_reports_its_chain() {
    let mut c = node(false, Some(AttestationProvider::Ias), 10);
    c.external_server_started(Ok(ExternalServerStub { handle: 3 })).ok().unwrap();
    c.can_load_chain_state = true;
    let info = c.get_info(Some("system"), ());
    assert!(info.initialized);
    assert_eq!(info.genesis_block_hash, Some("01".repeat(32)));
    assert_eq!(info.headernum, 11);
    assert_eq!(info.blocknum, 10);
    assert_eq!(info.state_root, "02".repeat(32));
    assert_eq!(info.version, "0.1.0");
    assert_eq!(info.git_revision, "abc");
    assert_eq!(info.system, Some("system"));
    assert!(info.can_load_chain_state);
    assert_eq!(info.safe_mode_level, 0);
    assert_eq!(info.external_server_state, ExternalServerState::Serving);
    c.runtime_state.as_mut().unwrap().chain_storage.root = [0x9f; 32];
    assert_eq!(c.get_info(Some(()), ()).state_root, "9f".repeat(32));
}

#[test]
fn the_block_time_depends_on_the_safe_mode() {
    let mut c = node(false, None, 10);
    assert_eq!(c.get_info(Some(()), ()).current_block_time, 5_000);
    c.args.safe_mode_level = 1;
    assert_eq!(c.get_info(Some(()), ()).current_block_time, 9_000_500);
    c.args.safe_mode_level = 2;
    assert_eq!(c.get_info(Some(()), ()).current_block_time, 0);
}

#[test]
fn the_current_block_is_the_one_before_the_next() {
    assert_eq!(node(true, None, 10).current_block().ok().unwrap(), (9, 9_000_500));
    assert_eq!(node(true, None, 0).current_block().ok().unwrap(), (0, 9_000_500));
    let e = Ceseal::new(()).current_block().err().unwrap();
    assert_eq!(e.message(), "Runtime not initialized");
}

#[test]
fn the_parts_of_the_state_are_there_after_the_initialisation() {
    let mut c = node(true, None, 1);
    c.runtime_state().ok().unwrap().pending_messages = 4;
    c.system().ok().unwrap().now_ms = 6;
    assert_eq!(c.runtime_state.as_ref().unwrap().pending_messages, 4);
    assert_eq!(c.system.as_ref().unwrap().now_ms, 6);
    let mut c = Ceseal::new(());
    assert_eq!(c.runtime_state().err().unwrap().message(), "Runtime not initialized");
    assert_eq!(c.system().err().unwrap().message(), "Runtime not initialized");
}

#[test]
fn messages_are_given_after_the_initialisation() {
    assert_eq!(Ceseal::new(()).get_egress_messages(vec![1, 2]), Vec::<i32>::new());
    assert_eq!(node(true, None, 1).get_egress_messages(vec![1, 2]), vec![1, 2]);
}

#[test]
fn a_checkpoint_is_due_after_the_interval() {
    let mut c = node(true, None, 1);
    assert!(!c.maybe_take_checkpoint(299));
    assert!(c.maybe_take_checkpoint(300));
    c.args.enable_checkpoint = false;
    assert!(!c.maybe_take_checkpoint(1000));
}

#[test]
fn proofs_are_admitted_without_own_proofs_only() {
    let mut c = node(true, None, 1);
    c.args.safe_mode_level = 1;
    let e = c.load_storage_proof(vec![vec![1]]).err().unwrap();
    assert_eq!(e.message(), "Can not load storage proof when safe_mode_level < 2");
    c.args.safe_mode_level = 2;
    assert_eq!(c.load_storage_proof(vec![vec![1], vec![2]]).ok().unwrap(), vec![vec![1], vec![2]]);
    c.runtime_state = None;
    let e = c.load_storage_proof(vec![]).err().unwrap();
    assert_eq!(e.message(), "Runtime not initialized");
}

#[test]
fn checkpoints_are_removed_where_they_are_kept() {
    let c = node(true, None, 1);
    assert_eq!(c.stop(true).remove_checkpoints_in, Some("/data".to_string()));
    assert_eq!(c.stop(false).remove_checkpoints_in, None);
}

#[test]
fn a_server_is_started_and_shut_down_once() {
    let mut c = node(true, None, 1);
    let stub = ExternalServerStub { handle: 8 };
    assert_eq!(
        c.operate_external_server(ExternalServerCmd::Start),
        Ok(ExternalServerAction::Start)
    );
    let e = c.external_server_started(Err("port in use".to_string())).err().unwrap();
    assert_eq!(e, Error::Anyhow("port in use".to_string()));
    assert_eq!(c.external_server_stub, None);
    c.external_server_started(Ok(stub)).ok().unwrap();
    assert_eq!(
        c.operate_external_server(ExternalServerCmd::Shutdown),
        Ok(ExternalServerAction::Shutdown(stub))
    );
    assert_eq!(
        c.operate_external_server(ExternalServerCmd::Shutdown),
        Err(Error::ExternalServerAlreadyClosed)
    );
}

#[test]
fn a_node_is_started_with_what_it_is_given() {
    let mut c = Ceseal::new(());
    c.init(args(1), vec![7], true);
    assert_eq!(c.args.safe_mode_level, 1);
    assert_eq!(c.machine_id, vec![7]);
    assert!(c.can_load_chain_state);
    assert!(c.system.is_none());
}

#[test]
fn a_node_takes_over_what_the_chain_is_like() {
    let mut c = node(true, None, 5);
    let storage = ChainStorage { root: [7; 32], timestamp_now: 70 };
    c.refresh(storage, synchronizer(9), 4, 80, true);
    assert_eq!(c.current_block().ok().unwrap(), (8, 70));
    assert_eq!(c.runtime_state.as_ref().unwrap().pending_messages, 4);
    assert_eq!(c.runtime_state.as_ref().unwrap().genesis_block_hash, [1; 32]);
    assert_eq!(c.system.as_ref().unwrap().now_ms, 80);
    assert!(c.system.as_ref().unwrap().registered);
    let mut fresh = Ceseal::new(());
    fresh.refresh(storage, synchronizer(9), 4, 80, true);
    assert!(fresh.runtime_state.is_none());
    assert!(fresh.system.is_none());
}
