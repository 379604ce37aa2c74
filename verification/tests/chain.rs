use ceseal::crypto::IdentityKey;
use ceseal::runtime::{GenesisBlock, InitRequest, RuntimeData, StartedSystem};
use ceseal::state::{
    Ceseal, ChainStorage, Counters, InitArgs, Synchronizer,
};
use ceseal::blocks::{
    AfterFeed, AfterMessages, Block, DispatchStep, FedBlock, InboundAction,
};
use ceseal::error::CesealServiceError;
use ceseal::types::AttestationProvider;

fn args(safe_mode_level: u8) -> InitArgs {
    InitArgs {
        version: "0.1.0".to_string(),
        git_revision: "abc".to_string(),
        safe_mode_level,
        enable_checkpoint: true,
        checkpoint_interval: 300,
        ra_timeout_ms: 8_000,
        ra_max_retries: 1,
        role: 1,
        storage_path: "/data".to_string(),
    }
}

fn synchronizer(next_block_number: u32) -> Synchronizer {
    Synchronizer {
        counters: Counters { next_header_number: next_block_number + 1, next_block_number },
        state_validated: true,
    }
}

fn key() -> IdentityKey {
    IdentityKey::from_seed_slice(b"12345678901234567890123456789012").ok().unwrap()
}

/// A node that was initialised with the given mode and provider, at the block before
/// `next_block_number`.
fn node(
    dev_mode: bool,
    provider: Option<AttestationProvider>,
    next_block_number: u32,
) -> Ceseal<()> {
    let mut c = Ceseal::new(());
    c.init(args(0), vec![0xab, 0xcd], false);
    let request = InitRequest {
        genesis: GenesisBlock { hash: [1; 32], state_root: [2; 32] },
        operator: None,
        attestation_provider: provider,
    };
    let p = c.init_runtime(request, None).ok().unwrap();
    let data = RuntimeData {
        identity_key: key(),
        ecdh_public_key: [4; 32],
        dev_mode,
        trusted_sk: !dev_mode,
    };
    let p = c.init_identity_ready(p, Ok(data)).ok().unwrap();
    let p = c.init_quote_tested(p, Ok(())).ok().unwrap();
    let storage = ChainStorage { root: [2; 32], timestamp_now: 9_000_500 };
    let p = c.init_bridge_opened(p, storage).ok().unwrap();
    c.init_system_started(
        p,
        StartedSystem {
            version: 2,
            cpu_core_num: 8,
            cpu_feature_level: 3,
            synchronizer: synchronizer(next_block_number),
            now_ms: 5_000,
            genesis_block: 0,
            registered: false,
        },
    );
    c
}

fn blocks(numbers: &[u32]) -> Vec<Block<u32>> {
    numbers.iter().map(|n| Block { number: *n, changes: n * 10 }).collect()
}

fn fed(next: u32) -> FedBlock {
    FedBlock {
        chain_storage: ChainStorage { root: [6; 32], timestamp_now: 77 },
        synchronizer: synchronizer(next),
    }
}

#[test]
fn headers_bar_the_chain_state_even_if_refused() {
    let mut c = Ceseal::new(());
    c.can_load_chain_state = true;
    assert_eq!(c.sync_header().err().unwrap().message(), "Runtime not initialized");
    assert!(!c.can_load_chain_state);
}

#[test]
fn synced_headers_are_answered_with_the_last() {
    let mut c = node(true, None, 5);
    c.sync_header().ok().unwrap();
    let to = c.headers_synced(Ok((9, synchronizer(5)))).ok().unwrap();
    assert_eq!(to.synced_to, 9);
    let e = c.headers_synced(Err("bad justification".to_string())).err().unwrap();
    assert_eq!(e.message(), "bad justification");
}

#[test]
fn blocks_are_fed_in_order_without_the_old_ones() {
    let c = node(true, None, 5);
    let mut d = c.dispatch_blocks(blocks(&[3, 4, 5, 6, 7])).ok().unwrap();
    assert_eq!(d.last_block, 7);
    let mut seen = Vec::new();
    loop {
        match c.dispatch_next(&mut d) {
            DispatchStep::Feed { block, drop_proofs } => {
                assert!(!drop_proofs);
                assert_eq!(block.changes, block.number * 10);
                seen.push(block.number);
            }
            DispatchStep::Done(to) => {
                assert_eq!(to.synced_to, 7);
                break;
            }
        }
    }
    assert_eq!(seen, vec![5, 6, 7]);
}

#[test]
fn old_blocks_alone_are_answered_with_the_current_one() {
    let c = node(true, None, 5);
    let mut d = c.dispatch_blocks(blocks(&[1, 2, 3])).ok().unwrap();
    match c.dispatch_next(&mut d) {
        DispatchStep::Done(to) => assert_eq!(to.synced_to, 4),
        other => panic!("unexpected {:?}", other),
    }
}

#[test]
fn proofs_are_dropped_in_deep_safe_mode() {
    let mut c = node(true, None, 5);
    c.args.safe_mode_level = 2;
    let mut d = c.dispatch_blocks(blocks(&[5])).ok().unwrap();
    assert!(matches!(c.dispatch_next(&mut d), DispatchStep::Feed { drop_proofs: true, .. }));
}

#[test]
fn a_fed_block_moves_the_state() {
    let mut c = node(true, None, 5);
    assert_eq!(
        c.block_fed(5, Ok(fed(6))).ok().unwrap(),
        AfterFeed::HandleMessages { block_number: 5 }
    );
    let state = c.runtime_state.as_ref().unwrap();
    assert_eq!(state.chain_storage.root, [6; 32]);
    assert_eq!(state.storage_synchronizer.counters.next_block_number, 6);
    c.args.safe_mode_level = 1;
    assert_eq!(c.block_fed(6, Ok(fed(7))).ok().unwrap(), AfterFeed::NextBlock);
    let e = c.block_fed(7, Err("state root mismatch".to_string())).err().unwrap();
    assert_eq!(e.message(), "state root mismatch");
    let e = Ceseal::new(()).block_fed(1, Ok(fed(2))).err().unwrap();
    assert_eq!(e.message(), "Runtime not initialized");
}

#[test]
fn each_message_is_processed_before_the_next() {
    let c = node(true, None, 5);
    let actions = c.handle_inbound_messages(4, Some(vec!['a', 'b'])).ok().unwrap();
    let mut it = actions.into_iter();
    assert!(matches!(it.next(), Some(InboundAction::ResetLocalIndex)));
    assert!(matches!(
        it.next(),
        Some(InboundAction::WillProcessBlock { block_number: 4, now_ms: 9_000_500 })
    ));
    assert!(matches!(it.next(), Some(InboundAction::Dispatch('a'))));
    assert!(matches!(it.next(), Some(InboundAction::ProcessMessages)));
    assert!(matches!(it.next(), Some(InboundAction::Dispatch('b'))));
    assert!(matches!(it.next(), Some(InboundAction::ProcessMessages)));
    assert!(matches!(it.next(), Some(InboundAction::DidProcessBlock)));
    assert!(matches!(it.next(), Some(InboundAction::ClearUnhandled)));
    assert!(it.next().is_none());
}

#[test]
fn unreadable_messages_are_reported() {
    let c = node(true, None, 5);
    let e = c.handle_inbound_messages::<u8>(4, None).err().unwrap();
    assert_eq!(e.message(), "Can not get mq messages from storage");
    let e = Ceseal::new(()).handle_inbound_messages(4, Some(vec![1])).err().unwrap();
    assert_eq!(e.message(), "Runtime not initialized");
}

#[test]
fn a_chain_state_is_set_once() {
    let mut c = node(false, Some(AttestationProvider::Ias), 1);
    c.can_load_chain_state = true;
    let p = c.load_chain_state(1200).ok().unwrap();
    assert_eq!(p.public_key, key().public());
    let p = c.chain_state_read(p, false).ok().unwrap();
    let storage = ChainStorage { root: [9; 32], timestamp_now: 3 };
    c.chain_state_assumed(p, storage, Ok(synchronizer(1201))).ok().unwrap();
    assert_eq!(c.system.as_ref().unwrap().genesis_block, 1200);
    assert_eq!(c.runtime_state.as_ref().unwrap().chain_storage.root, [9; 32]);
    assert_eq!(c.current_block().ok().unwrap(), (1200, 3));
    let e = c.load_chain_state(1300).err().unwrap();
    assert_eq!(e.message(), "Can not load chain state");
}

#[test]
fn a_chain_state_is_refused_for_each_reason() {
    let mut c = node(false, None, 1);
    c.can_load_chain_state = true;
    assert_eq!(
        c.load_chain_state(0).err().unwrap().message(),
        "Can not load chain state from block 0"
    );
    let p = c.load_chain_state(4_294_967_295).ok().unwrap();
    assert_eq!(
        c.chain_state_read(p, true).err().unwrap().message(),
        "Failed to load state: the worker is already registered at block 4294967295"
    );
    let p = c.load_chain_state(7).ok().unwrap();
    assert_eq!(
        c.chain_state_read(p, true).err().unwrap().message(),
        "Failed to load state: the worker is already registered at block 7"
    );
    let p = c.chain_state_read(p, false).ok().unwrap();
    let storage = ChainStorage { root: [9; 32], timestamp_now: 3 };
    let e = c.chain_state_assumed(p, storage, Err("inner".to_string())).err().unwrap();
    assert_eq!(e.message(), "Failed to set synchronizer state");
    assert!(c.can_load_chain_state);
    c.runtime_state = None;
    assert_eq!(c.load_chain_state(1).err().unwrap().message(), "Runtime is uninitialized");
    c.system = None;
    assert_eq!(c.load_chain_state(1).err().unwrap().message(), "System is uninitialized");
}

#[test]
fn headers_bar_the_chain_state() {
    let mut c = node(false, None, 1);
    c.can_load_chain_state = true;
    c.sync_header().ok().unwrap();
    assert_eq!(c.load_chain_state(5).err().unwrap().message(), "Can not load chain state");
}

#[test]
fn an_error_in_the_messages_ends_the_dispatch() {
    let c = node(true, None, 5);
    let e = CesealServiceError::AppError("Can not get mq messages from storage".to_string());
    let r = c.messages_handled(Err(e), 1000);
    assert_eq!(r.err().unwrap().message(), "Can not get mq messages from storage");
}

#[test]
fn a_checkpoint_is_tried_where_it_is_due() {
    let mut c = node(true, None, 5);
    assert_eq!(c.messages_handled(Ok(()), 299), Ok(AfterMessages::NextBlock));
    assert_eq!(c.messages_handled(Ok(()), 300), Ok(AfterMessages::TryCheckpoint));
    c.args.enable_checkpoint = false;
    assert_eq!(c.messages_handled(Ok(()), 300), Ok(AfterMessages::NextBlock));
}

#[test]
fn failed_checkpoints_do_not_stop_a_dispatch() {
    let mut c = node(true, None, 5);
    let mut d = c.dispatch_blocks(blocks(&[4, 5, 6, 7])).ok().unwrap();
    let mut step = c.dispatch_next(&mut d);
    let mut seen = Vec::new();
    let to = loop {
        match step {
            DispatchStep::Feed { block, .. } => {
                seen.push(block.number);
                let after = c.block_fed(block.number, Ok(fed(block.number + 1)));
                assert_eq!(after, Ok(AfterFeed::HandleMessages { block_number: block.number }));
                assert_eq!(c.messages_handled(Ok(()), 300), Ok(AfterMessages::TryCheckpoint));
                step = c.checkpoint_tried(Err("NoSpace".to_string()), &mut d);
            }
            DispatchStep::Done(to) => break to,
        }
    };
    assert_eq!(seen, vec![5, 6, 7]);
    assert_eq!(to.synced_to, 7);
}
