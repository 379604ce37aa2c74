use ceseal::crypto::IdentityKey;
use ceseal::runtime::{GenesisBlock, InitRequest, RuntimeData, StartedSystem, RuntimeInfoStep};
use ceseal::state::{
    Ceseal, ChainStorage, Counters, InitArgs, Synchronizer, ExternalServerAction, ExternalServerCmd,
};
use ceseal::blocks::Block;
use ceseal::error::{CesealLockError, Status};
use ceseal::handover_client::AcceptStep;
use ceseal::handover_server::HandoverStep;
use ceseal::service::{CesealSafeBox, RpcService};
use ceseal::types::{
    AttestationProvider, ChallengeHandlerInfo, EchoMessage, EncryptedWorkerKey, SignedContentType,
};

fn args(safe_mode_level: u8) -> InitArgs {
    InitArgs {
        version: "0.1.0".to_string(),
        git_revision: "abc".to_string(),
        safe_mode_level,
        enable_checkpoint: true,
        checkpoint_interval: 300,
        ra_timeout_ms: 8_000,
        ra_max_retries: 1,
        role: 1,
        storage_path: "/data".to_string(),
    }
}

fn synchronizer(next_block_number: u32) -> Synchronizer {
    Synchronizer {
        counters: Counters { next_header_number: next_block_number + 1, next_block_number },
        state_validated: true,
    }
}

fn key() -> IdentityKey {
    IdentityKey::from_seed_slice(b"12345678901234567890123456789012").ok().unwrap()
}

/// A node that was initialised with the given mode and provider, at the block before
/// `next_block_number`.
fn node(
    dev_mode: bool,
    provider: Option<AttestationProvider>,
    next_block_number: u32,
) -> Ceseal<()> {
    let mut c = Ceseal::new(());
    c.init(args(0), vec![0xab, 0xcd], false);
    let request = InitRequest {
        genesis: GenesisBlock { hash: [1; 32], state_root: [2; 32] },
        operator: None,
        attestation_provider: provider,
    };
    let p = c.init_runtime(request, None).ok().unwrap();
    let data = RuntimeData {
        identity_key: key(),
        ecdh_public_key: [4; 32],
        dev_mode,
        trusted_sk: !dev_mode,
    };
    let p = c.init_identity_ready(p, Ok(data)).ok().unwrap();
    let p = c.init_quote_tested(p, Ok(())).ok().unwrap();
    let storage = ChainStorage { root: [2; 32], timestamp_now: 9_000_500 };
    let p = c.init_bridge_opened(p, storage).ok().unwrap();
    c.init_system_started(
        p,
        StartedSystem {
            version: 2,
            cpu_core_num: 8,
            cpu_feature_level: 3,
            synchronizer: synchronizer(next_block_number),
            now_ms: 5_000,
            genesis_block: 0,
            registered: false,
        },
    );
    c
}

const RCU: &str = "RCU in progress, please try again later";
const SAFE_MODE: &str = "This RPC is disabled in safe mode";

fn wrap(content: &[u8], _kind: SignedContentType) -> Vec<u8> {
    content.to_vec()
}

fn internal(text: &str) -> Status {
    Status::internal(text.to_string())
}

fn service(c: Ceseal<()>) -> RpcService<()> {
    RpcService::new_with(CesealSafeBox { ceseal: c })
}

fn plain() -> RpcService<()> {
    service(node(true, None, 8))
}

fn advancing() -> RpcService<()> {
    let mut s = plain();
    s.cestory.ceseal.rcu_dispatching = true;
    s
}

fn safe_mode(level: u8) -> RpcService<()> {
    let mut s = plain();
    s.cestory.ceseal.args.safe_mode_level = level;
    s
}

fn bad() -> String {
    "undecodable".to_string()
}

#[test]
fn the_lock_policy() {
    assert!(plain().lock_ceseal(false, false).is_ok());
    assert_eq!(
        advancing().lock_ceseal(false, true).err(),
        Some(CesealLockError::RcuDispatching)
    );
    assert!(advancing().lock_ceseal(true, false).is_ok());
    assert_eq!(safe_mode(1).lock_ceseal(true, false).err(), Some(CesealLockError::SafeMode));
    assert!(safe_mode(2).lock_ceseal(false, true).is_ok());
    let mut both = advancing();
    both.cestory.ceseal.args.safe_mode_level = 1;
    assert_eq!(both.lock_ceseal(false, false).err(), Some(CesealLockError::RcuDispatching));
    assert!(both.lock_ceseal(true, true).is_ok());
}

#[test]
fn a_locked_node_is_changed_in_place() {
    let mut s = plain();
    s.lock_ceseal(false, false).ok().unwrap().can_load_chain_state = true;
    assert!(s.cestory.ceseal.can_load_chain_state);
}

#[test]
fn a_new_service_has_a_fresh_node() {
    let s: RpcService<u8> = RpcService::new(7);
    assert_eq!(s.cestory.ceseal.platform, 7);
    assert!(s.cestory.ceseal.system.is_none());
    assert_eq!(s.cestory.ceseal.args.safe_mode_level, 0);
}

#[test]
fn requests_that_advancing_stops() {
    assert_eq!(advancing().sync_header(Ok(1), Ok(2)).err(), Some(internal(RCU)));
    let blocks: Vec<Block<u8>> = vec![];
    assert_eq!(advancing().dispatch_blocks(Ok(blocks)).err(), Some(internal(RCU)));
    assert_eq!(advancing().set_endpoint("a".to_string(), wrap).err(), Some(internal(RCU)));
    assert_eq!(advancing().refresh_endpoint_signing_time(wrap).err(), Some(internal(RCU)));
    assert_eq!(
        advancing().operate_external_server(ExternalServerCmd::Start).err(),
        Some(internal(RCU))
    );
    assert_eq!(
        advancing().handover_create_challenge(vec![], [0; 32]).err(),
        Some(internal(RCU))
    );
    assert_eq!(advancing().handover_start(&[], None).err(), Some(internal(RCU)));
    assert_eq!(
        advancing().handover_accept_challenge(vec![], [0; 32], &[]).err(),
        Some(internal(RCU))
    );
    assert_eq!(advancing().handover_receive(&[], None, 9).err(), Some(internal(RCU)));
    assert_eq!(advancing().load_chain_state::<u8>(1, Err(bad())).err(), Some(internal(RCU)));
    assert_eq!(advancing().load_storage_proof(vec![]).err(), Some(internal(RCU)));
    assert_eq!(advancing().take_checkpoint().err(), Some(internal(RCU)));
    assert_eq!(
        advancing()
            .init_runtime::<u8>(Err(bad()), Err(bad()), Err(bad()), None, Err(bad()))
            .err()
            .map(|s| s.message),
        Some(RCU.to_string())
    );
}

#[test]
fn requests_that_advancing_does_not_stop() {
    assert!(advancing().get_info(Some(()), ()).is_ok());
    assert!(matches!(
        advancing().get_runtime_info(false, Ok(None), 1),
        Ok(RuntimeInfoStep::CreateReport(_))
    ));
    assert_eq!(advancing().get_egress_messages(vec![1]), Ok(vec![1]));
    assert!(advancing().get_endpoint_info(wrap).is_ok());
    assert!(advancing().get_master_key_apply(wrap).is_ok());
    assert_eq!(
        advancing().stop(true).ok().unwrap().remove_checkpoints_in,
        Some("/data".to_string())
    );
}

#[test]
fn requests_that_safe_mode_stops() {
    let text = Some(internal(SAFE_MODE));
    assert_eq!(
        safe_mode(1)
            .init_runtime::<u8>(Err(bad()), Err(bad()), Err(bad()), None, Err(bad()))
            .err()
            .map(|s| s.message),
        Some(SAFE_MODE.to_string())
    );
    assert_eq!(safe_mode(1).get_runtime_info(false, Err(bad()), 1).err(), text);
    assert_eq!(safe_mode(1).get_egress_messages(vec![1]).err(), text);
    assert_eq!(safe_mode(1).set_endpoint("a".to_string(), wrap).err(), text);
    assert_eq!(safe_mode(1).refresh_endpoint_signing_time(wrap).err(), text);
    assert_eq!(safe_mode(1).get_endpoint_info(wrap).err(), text);
    assert_eq!(safe_mode(1).get_master_key_apply(wrap).err(), text);
    assert_eq!(safe_mode(1).operate_external_server(ExternalServerCmd::Shutdown).err(), text);
    assert_eq!(safe_mode(1).load_chain_state::<u8>(1, Err(bad())).err(), text);
    assert_eq!(safe_mode(1).take_checkpoint().err(), text);
}

#[test]
fn requests_that_safe_mode_does_not_stop() {
    assert!(safe_mode(1).get_info(Some(()), ()).is_ok());
    assert_eq!(safe_mode(1).sync_header(Ok(1), Ok(2)), Ok((1, 2)));
    let blocks: Vec<Block<u8>> = vec![];
    assert_eq!(safe_mode(1).dispatch_blocks(Ok(blocks)).ok().unwrap().last_block, 7);
    let mut s = safe_mode(1);
    let challenge = s.handover_create_challenge(vec![], [0; 32]).ok().unwrap();
    let text = ChallengeHandlerInfo::decode(&[]).err().unwrap();
    assert_eq!(s.handover_start(&[], None).err(), Some(internal(&text)));
    assert!(matches!(
        s.handover_accept_challenge(vec![], [0; 32], &challenge.encode()),
        Ok(AcceptStep::Done(_))
    ));
    let text = EncryptedWorkerKey::decode(&[]).err().unwrap();
    assert_eq!(s.handover_receive(&[], None, 9).err(), Some(internal(&text)));
    assert_eq!(safe_mode(2).load_storage_proof(vec![vec![1]]), Ok(vec![vec![1]]));
    assert!(safe_mode(2).stop(false).is_ok());
}

#[test]
fn parameters_are_decoded_before_headers_and_blocks_lock() {
    let mut s = advancing();
    assert_eq!(s.sync_header::<u8, u8>(Err(bad()), Ok(1)).err(), Some(internal("undecodable")));
    assert_eq!(
        s.sync_header::<u8, u8>(Ok(1), Err("second".to_string())).err(),
        Some(internal("second"))
    );
    assert_eq!(s.dispatch_blocks::<u8>(Err(bad())).err(), Some(internal("undecodable")));
}

#[test]
fn parameters_are_decoded_after_the_other_locks() {
    let genesis = GenesisBlock { hash: [1; 32], state_root: [2; 32] };
    let mut s = plain();
    let texts = |r: Result<(ceseal::runtime::IdentityToInit, u8), Status>| {
        r.err().map(|s| s.message).unwrap()
    };
    let e = |t: &str| t.to_string();
    assert_eq!(texts(s.init_runtime(Err(e("a")), Err(e("b")), Err(e("c")), None, Err(e("d")))), "a");
    assert_eq!(
        texts(s.init_runtime(Ok(genesis), Err(e("b")), Err(e("c")), None, Err(e("d")))),
        "b"
    );
    assert_eq!(texts(s.init_runtime(Ok(genesis), Ok(1), Err(e("c")), None, Err(e("d")))), "c");
    assert_eq!(texts(s.init_runtime(Ok(genesis), Ok(1), Ok(None), None, Err(e("d")))), "d");
    assert_eq!(
        texts(s.init_runtime(Ok(genesis), Ok(1), Ok(None), None, Ok(None))),
        "Runtime already initialized"
    );
    let mut fresh: RpcService<()> = RpcService::new(());
    let (p, state) = fresh
        .init_runtime(
            Ok(genesis),
            Ok(9u8),
            Ok(Some([3; 32])),
            None,
            Ok(Some(AttestationProvider::Root)),
        )
        .ok()
        .unwrap();
    assert_eq!(state, 9);
    assert_eq!(p.request.operator, Some([3; 32]));
    assert_eq!(p.request.attestation_provider, Some(AttestationProvider::Root));

    assert_eq!(
        s.get_runtime_info(false, Err(bad()), 1).err(),
        Some(internal("undecodable"))
    );
    assert_eq!(s.load_chain_state::<u8>(1, Err(bad())).err(), Some(internal("undecodable")));
    assert_eq!(
        s.load_chain_state(1, Ok(1u8)).err(),
        Some(internal("Can not load chain state"))
    );
    s.cestory.ceseal.can_load_chain_state = true;
    let (p, state) = s.load_chain_state(5, Ok(1u8)).ok().unwrap();
    assert_eq!((p.block, state), (5, 1));
}

#[test]
fn requests_reach_the_node() {
    let mut s = plain();
    let answer = s.set_endpoint("a".to_string(), wrap).ok().unwrap();
    assert_eq!(answer.payload.unwrap().endpoint, Some("a".to_string()));
    assert!(s.refresh_endpoint_signing_time(wrap).is_ok());
    assert!(s.cestory.ceseal.signed_endpoint.is_some());
    assert_eq!(
        s.operate_external_server(ExternalServerCmd::Start),
        Ok(ExternalServerAction::Start)
    );
    assert!(s.operate_external_server(ExternalServerCmd::Shutdown).is_err());
    let challenge = s.handover_create_challenge(vec![], [0; 32]).ok().unwrap();
    let handler = ChallengeHandlerInfo {
        challenge,
        sgx_local_report: vec![],
        ecdh_pubkey: [6; 32],
    };
    assert!(matches!(s.handover_start(&handler.encode(), None), Ok(HandoverStep::EncryptKey(_))));
    assert_eq!(
        s.load_storage_proof(vec![]).err(),
        Some(internal("Can not load storage proof when safe_mode_level < 2"))
    );
}

#[test]
fn a_checkpoint_is_answered_with_its_block() {
    let mut s = plain();
    assert_eq!(s.take_checkpoint(), Ok(()));
    assert_eq!(s.checkpoint_taken(Ok(7)).ok().unwrap().synced_to, 7);
    assert_eq!(
        s.checkpoint_taken(Err("NoSpace".to_string())).err(),
        Some(internal("NoSpace"))
    );
}

#[test]
fn an_echo_comes_back_at_any_time() {
    let sent = EchoMessage { echo_msg: vec![1, 2, 3] };
    assert_eq!(RpcService::<()>::echo(sent).ok().unwrap().echo_msg, vec![1, 2, 3]);
}
