use ceseal::crypto::IdentityKey;
use ceseal::runtime::{GenesisBlock, InitRequest, RuntimeData, StartedSystem, RuntimeInfoStep};
use ceseal::state::{
    Ceseal, ChainStorage, Counters, InitArgs, Synchronizer,
};
use ceseal::error::{CesealServiceError, Code, Status};
use ceseal::handover_client::{AcceptStep, LocalReportCreation, ReceiveStep};
use ceseal::handover_server::{
    ClientRuntime, HandoverStep, LocalReportCheck, OwnRuntime, ReportToValidate,
};
use ceseal::types::{
    Attestation, AttestationProvider, ChallengeHandlerInfo, EncryptedKey, EncryptedWorkerKey,
    HandoverChallenge,
};
use parity_scale_codec::Encode;

fn args(safe_mode_level: u8) -> InitArgs {
    InitArgs {
        version: "0.1.0".to_string(),
        git_revision: "abc".to_string(),
        safe_mode_level,
        enable_checkpoint: true,
        checkpoint_interval: 300,
        ra_timeout_ms: 8_000,
        ra_max_retries: 1,
        role: 1,
        storage_path: "/data".to_string(),
    }
}

fn synchronizer(next_block_number: u32) -> Synchronizer {
    Synchronizer {
        counters: Counters { next_header_number: next_block_number + 1, next_block_number },
        state_validated: true,
    }
}

fn key() -> IdentityKey {
    IdentityKey::from_seed_slice(b"12345678901234567890123456789012").ok().unwrap()
}

/// A node that was initialised with the given mode and provider, at the block before
/// `next_block_number`.
fn node(
    dev_mode: bool,
    provider: Option<AttestationProvider>,
    next_block_number: u32,
) -> Ceseal<()> {
    let mut c = Ceseal::new(());
    c.init(args(0), vec![0xab, 0xcd], false);
    let request = InitRequest {
        genesis: GenesisBlock { hash: [1; 32], state_root: [2; 32] },
        operator: None,
        attestation_provider: provider,
    };
    let p = c.init_runtime(request, None).ok().unwrap();
    let data = RuntimeData {
        identity_key: key(),
        ecdh_public_key: [4; 32],
        dev_mode,
        trusted_sk: !dev_mode,
    };
    let p = c.init_identity_ready(p, Ok(data)).ok().unwrap();
    let p = c.init_quote_tested(p, Ok(())).ok().unwrap();
    let storage = ChainStorage { root: [2; 32], timestamp_now: 9_000_500 };
    let p = c.init_bridge_opened(p, storage).ok().unwrap();
    c.init_system_started(
        p,
        StartedSystem {
            version: 2,
            cpu_core_num: 8,
            cpu_feature_level: 3,
            synchronizer: synchronizer(next_block_number),
            now_ms: 5_000,
            genesis_block: 0,
            registered: false,
        },
    );
    c
}

const ENCLAVE: Option<AttestationProvider> = Some(AttestationProvider::Ias);

fn attestation(encoded_report: Vec<u8>) -> Attestation {
    Attestation {
        version: 1,
        provider: "\"ias\"".to_string(),
        payload: None,
        encoded_report,
        timestamp: 50,
    }
}

fn report() -> Attestation {
    attestation(Some((0u8, vec![1u8], vec![2u8], vec![3u8])).encode())
}

fn handler(challenge: &HandoverChallenge) -> ChallengeHandlerInfo {
    ChallengeHandlerInfo {
        challenge: challenge.clone(),
        sgx_local_report: vec![4, 5],
        ecdh_pubkey: [6; 32],
    }
}

fn encrypted() -> EncryptedKey {
    EncryptedKey { ecdh_pubkey: [9; 32], encrypted_key: vec![1, 2, 3, 4], iv: [3; 12] }
}

fn worker_key(dev_mode: bool) -> EncryptedWorkerKey {
    EncryptedWorkerKey { genesis_block_hash: [8; 32], dev_mode, encrypted_key: encrypted() }
}

fn challenged(c: &mut Ceseal<()>) -> HandoverChallenge {
    c.handover_create_challenge(vec![1, 2, 3], [5; 32]).ok().unwrap()
}

fn internal(text: &str) -> Status {
    Status::internal(text.to_string())
}

/// A node in an enclave, past the validation of the client's report.
fn validated() -> (Ceseal<()>, ReportToValidate) {
    let mut c = node(false, ENCLAVE, 8);
    let challenge = challenged(&mut c);
    match c.handover_start(Ok(handler(&challenge)), Some(report())) {
        Ok(HandoverStep::ValidateReport(p)) => (c, p),
        other => panic!("unexpected {:?}", other),
    }
}

#[test]
fn a_challenge_is_for_the_current_block() {
    let mut c = node(false, ENCLAVE, 8);
    let challenge = challenged(&mut c);
    assert_eq!(challenge.block_number, 7);
    assert_eq!(challenge.now, 9_000_500);
    assert!(!challenge.dev_mode);
    assert_eq!(challenge.sgx_target_info, vec![1, 2, 3]);
    assert_eq!(challenge.nonce, [5; 32]);
    let mut c = node(true, None, 8);
    let challenge = challenged(&mut c);
    assert!(challenge.dev_mode);
    assert_eq!(challenge.sgx_target_info, Vec::<u8>::new());
    let e = Ceseal::new(()).handover_create_challenge(vec![], [0; 32]).err().unwrap();
    assert_eq!(e.message(), "Runtime not initialized");
}

#[test]
fn a_challenge_is_accepted_once() {
    let mut c = node(true, None, 8);
    let challenge = challenged(&mut c);
    assert!(c.verify_worker_key_challenge(&challenge));
    assert!(!c.verify_worker_key_challenge(&challenge));
}

#[test]
fn a_wrong_answer_spends_the_challenge() {
    let mut c = node(true, None, 8);
    let challenge = challenged(&mut c);
    let mut other = challenge.clone();
    other.nonce = [6; 32];
    assert!(!c.verify_worker_key_challenge(&other));
    assert!(!c.verify_worker_key_challenge(&challenge));
}

#[test]
fn a_new_challenge_revokes_the_old() {
    let mut c = node(true, None, 8);
    let first = challenged(&mut c);
    c.handover_create_challenge(vec![], [6; 32]).ok().unwrap();
    assert!(!c.verify_worker_key_challenge(&first));
}

#[test]
fn a_development_handover_goes_through() {
    let mut server = node(true, None, 8);
    let mut client = Ceseal::new(());
    let challenge = challenged(&mut server);
    let reply =
        match client.handover_accept_challenge(vec![7; 32], [6; 32], Ok(challenge.clone())) {
            Ok(AcceptStep::Done(reply)) => reply,
            other => panic!("unexpected {:?}", other),
        };
    assert!(reply.attestation.is_none());
    assert_eq!(reply.handler.sgx_local_report, Vec::<u8>::new());
    assert_eq!(client.handover_ecdh_key, Some(vec![7; 32]));
    let p = match server.handover_start(Ok(reply.handler), None) {
        Ok(HandoverStep::EncryptKey(p)) => p,
        other => panic!("unexpected {:?}", other),
    };
    assert_eq!(p.context.handler.ecdh_pubkey, [6; 32]);
    assert_eq!(p.label, "worker_key_handover");
    let sent = match server.handover_key_encrypted(p, Ok(encrypted())) {
        Ok(HandoverStep::Done(sent)) => sent,
        other => panic!("unexpected {:?}", other),
    };
    assert!(sent.attestation.is_none());
    assert_eq!(sent.worker_key.genesis_block_hash, [1; 32]);
    assert!(sent.worker_key.dev_mode);
    let p = match client.handover_receive(Ok(sent.worker_key), None, 60) {
        Ok(ReceiveStep::Decrypt(p)) => p,
        other => panic!("unexpected {:?}", other),
    };
    assert_eq!(p.ecdh_key, vec![7; 32]);
    let save = match client.receive_key_decrypted(p, Ok(vec![1; 64])) {
        Ok(ReceiveStep::Save(save)) => save,
        other => panic!("unexpected {:?}", other),
    };
    assert_eq!(save.genesis_block_hash, [1; 32]);
    assert_eq!(save.secret, vec![1; 64]);
    assert!(!save.trusted);
    assert!(save.dev_mode);
    assert_eq!(client.receive_key_saved(Ok(())), Ok(()));
    assert_eq!(client.handover_ecdh_key, None);
}

#[test]
fn a_handover_needs_a_runtime_and_a_readable_answer() {
    let mut fresh = Ceseal::new(());
    assert_eq!(
        fresh.handover_start(Err("short".to_string()), None).err().unwrap(),
        internal("Runtime not initialized")
    );
    let mut c = node(true, None, 8);
    assert_eq!(
        c.handover_start(Err("short".to_string()), None).err().unwrap(),
        internal("short")
    );
}

#[test]
fn a_development_handover_checks_the_challenge() {
    let mut c = node(true, None, 8);
    let challenge = challenged(&mut c);
    let mut other = challenge.clone();
    other.now = 1;
    let status = c.handover_start(Ok(handler(&other)), None).err().unwrap();
    assert_eq!(status.code, Code::InvalidArgument);
    assert_eq!(status.message, "Invalid challenge");
    let status = c.handover_start(Ok(handler(&challenge)), None).err().unwrap();
    assert_eq!(status.message, "Invalid challenge");
}

#[test]
fn a_challenge_is_in_time_for_150_blocks() {
    for (next, in_time) in [(8, true), (158, true), (159, false), (7, false)] {
        let mut c = node(true, None, 8);
        let challenge = challenged(&mut c);
        c.runtime_state.as_mut().unwrap().storage_synchronizer = synchronizer(next);
        let r = c.handover_start(Ok(handler(&challenge)), None);
        if in_time {
            assert!(matches!(r, Ok(HandoverStep::EncryptKey(_))));
        } else {
            let status = r.err().unwrap();
            assert_eq!(status.code, Code::InvalidArgument);
            assert_eq!(status.message, "Outdated challenge");
        }
    }
}

#[test]
fn an_enclave_demands_a_readable_report() {
    let mut c = node(false, ENCLAVE, 8);
    let challenge = challenged(&mut c);
    assert_eq!(
        c.handover_start(Ok(handler(&challenge)), None).err().unwrap(),
        internal("Client attestation not found")
    );
    assert_eq!(
        c.handover_start(Ok(handler(&challenge)), Some(attestation(vec![7]))).err().unwrap(),
        internal("Decode client attestation failed")
    );
    assert!(c.handover_last_challenge.is_some());
}

#[test]
fn the_client_report_is_held_against_the_answer() {
    let mut c = node(false, ENCLAVE, 8);
    c.runtime_state.as_mut().unwrap().chain_storage.timestamp_now = 9_000;
    let challenge = challenged(&mut c);
    let p = match c.handover_start(Ok(handler(&challenge)), Some(report())) {
        Ok(HandoverStep::ValidateReport(p)) => p,
        other => panic!("unexpected {:?}", other),
    };
    assert_eq!(
        hex::encode(p.payload_hash),
        "02ca7e088d3394f25871e0576ed8a588280e7e3d2ccce2493cb942169240b7ed"
    );
    assert_eq!(p.block_sec, 9);
    assert_eq!(p.report.as_ref().unwrap().raw_signing_cert, vec![3]);
    assert_eq!(
        c.handover_report_validated(p, false).err().unwrap(),
        internal("Invalid client RA report")
    );
    assert!(c.handover_last_challenge.is_some());
}

#[test]
fn an_enclave_handover_goes_through() {
    let (mut c, p) = validated();
    assert_eq!(p.block_sec, 9_000);
    let p = match c.handover_report_validated(p, true) {
        Ok(HandoverStep::VerifyLocalReport(p)) => p,
        other => panic!("unexpected {:?}", other),
    };
    assert!(c.handover_last_challenge.is_none());
    let p = match c.handover_local_report_checked(p, LocalReportCheck::Verified) {
        Ok(HandoverStep::ReadOwnRuntime(p)) => p,
        other => panic!("unexpected {:?}", other),
    };
    let p = match c.handover_own_runtime_read(p, OwnRuntime::AddedAt(10)) {
        Ok(HandoverStep::ReadClientRuntime(p)) => p,
        other => panic!("unexpected {:?}", other),
    };
    assert_eq!(p.report.ra_report, vec![1]);
    let p = match c.handover_client_runtime_read(p, ClientRuntime::AddedAt(11)) {
        Ok(HandoverStep::EncryptKey(p)) => p,
        other => panic!("unexpected {:?}", other),
    };
    c.runtime_state.as_mut().unwrap().genesis_block_hash = [8; 32];
    let p = match c.handover_key_encrypted(p, Ok(encrypted())) {
        Ok(HandoverStep::CreateReport(p)) => p,
        other => panic!("unexpected {:?}", other),
    };
    assert_eq!(
        hex::encode(p.order.hash),
        "14005411088c2b81188af699bb691555764fdd2164f28b4d22b7b879b657241e"
    );
    assert_eq!(p.order.provider, ENCLAVE);
    assert_eq!(p.order.timeout_ms, 8_000);
    assert_eq!(p.order.max_retries, 1);
    match c.handover_key_attested(p, Ok(report())) {
        Ok(HandoverStep::Done(sent)) => {
            assert_eq!(sent.attestation.unwrap().timestamp, 50);
            assert_eq!(sent.worker_key.encrypted_key.iv, [3; 12]);
        }
        other => panic!("unexpected {:?}", other),
    }
}

#[test]
fn each_check_of_the_enclave_can_stop_a_handover() {
    let (mut c, p) = validated();
    c.handover_last_challenge = None;
    let status = c.handover_report_validated(p, true).err().unwrap();
    assert_eq!(status, Status::invalid_argument("Invalid challenge".to_string()));

    for (check, text) in [
        (LocalReportCheck::Undecodable, "Invalid client LA report"),
        (LocalReportCheck::Rejected, "No remote handover"),
    ] {
        let (mut c, p) = validated();
        match c.handover_report_validated(p, true) {
            Ok(HandoverStep::VerifyLocalReport(p)) => {
                let status = c.handover_local_report_checked(p, check).err().unwrap();
                assert_eq!(status, internal(text));
            }
            other => panic!("unexpected {:?}", other),
        }
    }

    let (mut c, mut p) = validated();
    p.context.block_number = 1000;
    match c.handover_report_validated(p, true) {
        Ok(HandoverStep::VerifyLocalReport(p)) => {
            let status =
                c.handover_local_report_checked(p, LocalReportCheck::Verified).err().unwrap();
            assert_eq!(status, Status::invalid_argument("Outdated challenge".to_string()));
        }
        other => panic!("unexpected {:?}", other),
    }

    for (own, text) in [
        (OwnRuntime::Unreadable, "Cannot read server ceseal info"),
        (OwnRuntime::NotOnChain, "Server ceseal not allowed on chain"),
    ] {
        let (c, p) = own_runtime();
        assert_eq!(c.handover_own_runtime_read(p, own).err().unwrap(), internal(text));
    }
    let (c, mut p) = own_runtime();
    p.report = None;
    assert_eq!(
        c.handover_own_runtime_read(p, OwnRuntime::AddedAt(1)).err().unwrap(),
        internal("Client attestation not found")
    );
    let (mut c, p) = own_runtime();
    c.runtime_state = None;
    assert_eq!(
        c.handover_own_runtime_read(p, OwnRuntime::AddedAt(1)).err().unwrap(),
        internal("Runtime not initialized")
    );

    for (client, text) in [
        (ClientRuntime::BadReport, "Invalid client RA report"),
        (ClientRuntime::NotOnChain, "Client ceseal not allowed on chain"),
        (ClientRuntime::AddedAt(10), "No handover for old ceseal"),
        (ClientRuntime::AddedAt(9), "No handover for old ceseal"),
    ] {
        let (c, p) = own_runtime();
        match c.handover_own_runtime_read(p, OwnRuntime::AddedAt(10)) {
            Ok(HandoverStep::ReadClientRuntime(p)) => {
                let status = c.handover_client_runtime_read(p, client).err().unwrap();
                assert_eq!(status, internal(text));
            }
            other => panic!("unexpected {:?}", other),
        }
    }
}

/// A node in an enclave, past the check of the client's local report.
fn own_runtime() -> (Ceseal<()>, ceseal::handover_server::OwnRuntimeToRead) {
    let (mut c, p) = validated();
    match c.handover_report_validated(p, true) {
        Ok(HandoverStep::VerifyLocalReport(p)) => {
            match c.handover_local_report_checked(p, LocalReportCheck::Verified) {
                Ok(HandoverStep::ReadOwnRuntime(p)) => (c, p),
                other => panic!("unexpected {:?}", other),
            }
        }
        other => panic!("unexpected {:?}", other),
    }
}

#[test]
fn failed_work_on_the_key_is_reported() {
    let mut c = node(true, None, 8);
    let challenge = challenged(&mut c);
    match c.handover_start(Ok(handler(&challenge)), None) {
        Ok(HandoverStep::EncryptKey(p)) => {
            assert_eq!(
                c.handover_key_encrypted(p, Err("EcdhError".to_string())).err().unwrap(),
                internal("EcdhError")
            );
        }
        other => panic!("unexpected {:?}", other),
    }
    let (c, p) = own_runtime();
    let p = match c.handover_own_runtime_read(p, OwnRuntime::AddedAt(1)) {
        Ok(HandoverStep::ReadClientRuntime(p)) => p,
        other => panic!("unexpected {:?}", other),
    };
    let p = match c.handover_client_runtime_read(p, ClientRuntime::AddedAt(2)) {
        Ok(HandoverStep::EncryptKey(p)) => p,
        other => panic!("unexpected {:?}", other),
    };
    let p = match c.handover_key_encrypted(p, Ok(encrypted())) {
        Ok(HandoverStep::CreateReport(p)) => p,
        other => panic!("unexpected {:?}", other),
    };
    let failed = CesealServiceError::AppError("no quote".to_string());
    assert_eq!(c.handover_key_attested(p, Err(failed)).err().unwrap(), internal("no quote"));
}

#[test]
fn a_challenge_is_taken_up_in_an_enclave() {
    let mut server = node(false, ENCLAVE, 8);
    let mut client = Ceseal::new(());
    client.init(args(0), vec![], false);
    server.runtime_state.as_mut().unwrap().chain_storage.timestamp_now = 9_000;
    let challenge = challenged(&mut server);
    let p = match client.handover_accept_challenge(vec![7], [6; 32], Ok(challenge)) {
        Ok(AcceptStep::CreateLocalReport(p)) => p,
        other => panic!("unexpected {:?}", other),
    };
    let p = match client
        .accept_local_report_created(p, LocalReportCreation::Created(vec![4, 5]))
    {
        Ok(AcceptStep::CreateReport(p)) => p,
        other => panic!("unexpected {:?}", other),
    };
    assert_eq!(p.order.provider, ENCLAVE);
    assert_eq!(p.order.timeout_ms, 8_000);
    assert_eq!(p.order.max_retries, 1);
    assert_eq!(
        hex::encode(p.order.hash),
        "02ca7e088d3394f25871e0576ed8a588280e7e3d2ccce2493cb942169240b7ed"
    );
    let attested = p.order.hash;
    let reply = match client.accept_handler_attested(p, Ok(report())) {
        Ok(AcceptStep::Done(reply)) => reply,
        other => panic!("unexpected {:?}", other),
    };
    match server.handover_start(Ok(reply.handler), reply.attestation) {
        Ok(HandoverStep::ValidateReport(p)) => assert_eq!(p.payload_hash, attested),
        other => panic!("unexpected {:?}", other),
    }
}

#[test]
fn taking_up_a_challenge_can_fail() {
    let mut server = node(false, ENCLAVE, 8);
    let mut client = Ceseal::new(());
    let r = client.handover_accept_challenge(vec![7], [6; 32], Err("cut off".to_string()));
    assert_eq!(r.err().unwrap(), internal("cut off"));
    assert_eq!(client.handover_ecdh_key, Some(vec![7]));
    for (creation, text) in [
        (LocalReportCreation::BadTargetInfo, "Invalid client sgx target info"),
        (LocalReportCreation::Failed, "Failed to create client LA report"),
    ] {
        let challenge = challenged(&mut server);
        match client.handover_accept_challenge(vec![8], [6; 32], Ok(challenge)) {
            Ok(AcceptStep::CreateLocalReport(p)) => {
                let status = client.accept_local_report_created(p, creation).err().unwrap();
                assert_eq!(status, internal(text));
            }
            other => panic!("unexpected {:?}", other),
        }
    }
    let challenge = challenged(&mut server);
    let p = match client.handover_accept_challenge(vec![8], [6; 32], Ok(challenge)) {
        Ok(AcceptStep::CreateLocalReport(p)) => p,
        other => panic!("unexpected {:?}", other),
    };
    let p = match client.accept_local_report_created(p, LocalReportCreation::Created(vec![4]))
    {
        Ok(AcceptStep::CreateReport(p)) => p,
        other => panic!("unexpected {:?}", other),
    };
    let failed = CesealServiceError::AppError("no quote".to_string());
    assert_eq!(client.accept_handler_attested(p, Err(failed)).err().unwrap(), internal("no quote"));
}

#[test]
fn a_key_from_an_enclave_needs_its_report() {
    let mut client = Ceseal::new(());
    client.handover_ecdh_key = Some(vec![7]);
    assert_eq!(
        client.handover_receive(Err("cut off".to_string()), None, 60).err().unwrap(),
        internal("cut off")
    );
    assert_eq!(
        client.handover_receive(Ok(worker_key(false)), None, 60).err().unwrap(),
        internal("Server attestation not found")
    );
    let r = client.handover_receive(Ok(worker_key(false)), Some(attestation(vec![])), 60);
    assert_eq!(r.err().unwrap(), internal("Decode server attestation failed"));
    for valid in [false, true] {
        let p = match client.handover_receive(Ok(worker_key(false)), Some(report()), 60) {
            Ok(ReceiveStep::ValidateReport(p)) => p,
            other => panic!("unexpected {:?}", other),
        };
        assert_eq!(
            hex::encode(p.worker_key_hash),
            "14005411088c2b81188af699bb691555764fdd2164f28b4d22b7b879b657241e"
        );
        assert_eq!(p.now, 60);
        match client.receive_report_validated(p, valid) {
            Ok(ReceiveStep::Decrypt(p)) => {
                assert!(valid);
                assert_eq!(p.ecdh_key, vec![7]);
            }
            Err(status) => {
                assert!(!valid);
                assert_eq!(status, internal("Invalid server RA report"));
            }
            other => panic!("unexpected {:?}", other),
        }
    }
}

#[test]
fn a_key_is_received_once() {
    let mut client = node(false, None, 8);
    client.handover_ecdh_key = Some(vec![7]);
    assert_eq!(
        client.receive_key_saved(Err("disk full".to_string())),
        Err(internal("disk full"))
    );
    assert!(client.runtime_info.is_some());
    assert_eq!(client.handover_ecdh_key, Some(vec![7]));
    assert_eq!(client.receive_key_saved(Ok(())), Ok(()));
    assert!(client.runtime_info.is_none());
    assert_eq!(
        client.handover_receive(Ok(worker_key(true)), None, 60).err().unwrap(),
        internal("Handover ecdhkey not initialized")
    );
    let r: Result<RuntimeInfoStep, _> = client.get_runtime_info(false, None, 0);
    assert_eq!(r.err().unwrap().message(), "Uninitiated runtime info");
}

#[test]
fn a_failed_decryption_is_reported() {
    let mut client = Ceseal::new(());
    client.handover_ecdh_key = Some(vec![7]);
    let p = match client.handover_receive(Ok(worker_key(true)), None, 60) {
        Ok(ReceiveStep::Decrypt(p)) => p,
        other => panic!("unexpected {:?}", other),
    };
    assert_eq!(
        client.receive_key_decrypted(p, Err("AeadError".to_string())).err().unwrap(),
        internal("AeadError")
    );
}
