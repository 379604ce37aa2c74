use ceseal::encoding::decode_report;
use ceseal::types::{
    ChallengeHandlerInfo, EncryptedKey, EncryptedWorkerKey, HandoverChallenge,
    MasterKeyApplyPayload, WorkerEndpointPayload, WorkerRegistrationInfo,
};
use parity_scale_codec::Encode;

fn challenge(target_info: usize) -> HandoverChallenge {
    HandoverChallenge {
        sgx_target_info: vec![1; target_info],
        block_number: 0x0102_0304,
        now: 0x1122_3344_5566_7788,
        dev_mode: true,
        nonce: [5; 32],
    }
}

#[test]
fn handler_bytes_are_the_fields_in_order() {
    for len in [0, 3, 63, 64, 16383, 16384] {
        let handler = ChallengeHandlerInfo {
            challenge: challenge(len),
            sgx_local_report: vec![4, 5],
            ecdh_pubkey: [6; 32],
        };
        let expected = (
            vec![1u8; len],
            0x0102_0304u32,
            0x1122_3344_5566_7788u64,
            true,
            [5u8; 32],
            vec![4u8, 5],
            [6u8; 32],
        )
            .encode();
        assert_eq!(handler.encode(), expected);
    }
}

#[test]
fn handler_bytes_by_hand() {
    let handler = ChallengeHandlerInfo {
        challenge: HandoverChallenge {
            sgx_target_info: vec![1, 2, 3],
            block_number: 7,
            now: 9000,
            dev_mode: false,
            nonce: [5; 32],
        },
        sgx_local_report: vec![4, 5],
        ecdh_pubkey: [6; 32],
    };
    let mut expected = vec![12, 1, 2, 3, 7, 0, 0, 0, 0x28, 0x23, 0, 0, 0, 0, 0, 0, 0];
    expected.extend([5; 32]);
    expected.extend([8, 4, 5]);
    expected.extend([6; 32]);
    assert_eq!(handler.encode(), expected);
}

#[test]
fn worker_key_bytes_are_the_fields_in_order() {
    let key = EncryptedWorkerKey {
        genesis_block_hash: [8; 32],
        dev_mode: false,
        encrypted_key: EncryptedKey {
            ecdh_pubkey: [9; 32],
            encrypted_key: vec![1, 2, 3, 4],
            iv: [3; 12],
        },
    };
    let expected =
        ([8u8; 32], false, [9u8; 32], vec![1u8, 2, 3, 4], [3u8; 12]).encode();
    assert_eq!(key.encode(), expected);
}

#[test]
fn registration_bytes_are_the_fields_in_order() {
    for operator in [None, Some([7u8; 32])] {
        let info = WorkerRegistrationInfo {
            version: 0x0003_0001,
            machine_id: vec![0xab, 0xcd],
            pubkey: [1; 32],
            ecdh_pubkey: [2; 32],
            genesis_block_hash: [3; 32],
            features: vec![8, 2],
            operator,
            role: 2,
        };
        let expected = (
            0x0003_0001u32,
            vec![0xabu8, 0xcd],
            [1u8; 32],
            [2u8; 32],
            [3u8; 32],
            vec![8u32, 2],
            operator,
            2u8,
        )
            .encode();
        assert_eq!(info.encode(), expected);
    }
}

#[test]
fn endpoint_bytes_are_the_fields_in_order() {
    for endpoint in [None, Some("http://h\u{e9}:8000".to_string())] {
        let payload = WorkerEndpointPayload {
            pubkey: [1; 32],
            endpoint: endpoint.clone(),
            signing_time: 77,
        };
        assert_eq!(payload.encode(), ([1u8; 32], endpoint, 77u64).encode());
    }
}

#[test]
fn master_key_apply_bytes_are_the_fields_in_order() {
    let payload =
        MasterKeyApplyPayload { pubkey: [1; 32], ecdh_pubkey: [2; 32], signing_time: 3 };
    assert_eq!(payload.encode(), ([1u8; 32], [2u8; 32], 3u64).encode());
}

#[test]
fn encodings_tell_messages_apart() {
    let a = WorkerEndpointPayload {
        pubkey: [1; 32],
        endpoint: Some("a".to_string()),
        signing_time: 1,
    };
    let b = WorkerEndpointPayload {
        pubkey: [1; 32],
        endpoint: Some("b".to_string()),
        signing_time: 1,
    };
    let c = WorkerEndpointPayload { pubkey: [1; 32], endpoint: None, signing_time: 1 };
    assert_ne!(a.encode(), b.encode());
    assert_ne!(a.encode(), c.encode());
}

fn refused<T>(r: Result<T, String>) -> bool {
    match r {
        Ok(_) => false,
        Err(text) => !text.is_empty(),
    }
}

#[test]
fn a_challenge_is_read_back() {
    let sent = challenge(100);
    let mut bytes = sent.encode();
    bytes.push(9);
    assert!(HandoverChallenge::decode(&bytes).ok().unwrap() == sent);
    assert!(refused(HandoverChallenge::decode(&bytes[..bytes.len() - 2])));
    // neither true nor false
    let flag = bytes.len() - 1 - 32 - 1;
    bytes[flag] = 2;
    assert!(refused(HandoverChallenge::decode(&bytes)));
}

#[test]
fn an_answer_is_read_back() {
    let sent = ChallengeHandlerInfo {
        challenge: challenge(3),
        sgx_local_report: vec![4; 70],
        ecdh_pubkey: [6; 32],
    };
    let bytes = sent.encode();
    let read = ChallengeHandlerInfo::decode(&bytes).ok().unwrap();
    assert!(read.challenge == sent.challenge);
    assert_eq!(read.sgx_local_report, vec![4; 70]);
    assert_eq!(read.ecdh_pubkey, [6; 32]);
    assert!(refused(ChallengeHandlerInfo::decode(&bytes[1..])));
    assert!(refused(ChallengeHandlerInfo::decode(&bytes[..bytes.len() - 1])));
}

#[test]
fn an_encrypted_identity_is_read_back() {
    let bytes =
        ([8u8; 32], true, [9u8; 32], vec![1u8, 2, 3, 4], [3u8; 12]).encode();
    let read = EncryptedWorkerKey::decode(&bytes).ok().unwrap();
    assert_eq!(read.genesis_block_hash, [8; 32]);
    assert!(read.dev_mode);
    assert_eq!(read.encrypted_key.ecdh_pubkey, [9; 32]);
    assert_eq!(read.encrypted_key.encrypted_key, vec![1, 2, 3, 4]);
    assert_eq!(read.encrypted_key.iv, [3; 12]);
    assert_eq!(read.encode(), bytes);
    assert!(refused(EncryptedWorkerKey::decode(&bytes[..40])));
}

#[test]
fn a_report_is_read_back_whatever_follows() {
    let mut bytes =
        Some((0u8, vec![1u8, 2], vec![3u8; 100], Vec::<u8>::new())).encode();
    bytes.extend([9, 9, 9]);
    let report = decode_report(&bytes).unwrap().unwrap();
    assert_eq!(report.ra_report, vec![1, 2]);
    assert_eq!(report.signature, vec![3; 100]);
    assert_eq!(report.raw_signing_cert, Vec::<u8>::new());
}

#[test]
fn an_absent_report_is_one_zero() {
    assert!(matches!(decode_report(&[0, 5]), Some(None)));
}

#[test]
fn what_is_no_report_is_refused() {
    assert!(decode_report(&[]).is_none());
    assert!(decode_report(&[2, 0]).is_none());
    // another kind of report
    let other = Some((1u8, vec![1u8], vec![2u8], vec![3u8])).encode();
    assert!(decode_report(&other).is_none());
    // cut off
    let whole = Some((0u8, vec![1u8], vec![2u8], vec![3u8])).encode();
    assert!(decode_report(&whole).is_some());
    assert!(decode_report(&whole[..whole.len() - 1]).is_none());
    // a length in a longer form than it needs
    assert!(decode_report(&[1, 0, 1, 0, 0, 0]).is_none());
}

#[test]
fn registrations_with_other_operators_have_other_bytes() {
    let info = |operator: Option<[u8; 32]>| WorkerRegistrationInfo {
        version: 1,
        machine_id: vec![],
        pubkey: [1; 32],
        ecdh_pubkey: [2; 32],
        genesis_block_hash: [3; 32],
        features: vec![],
        operator,
        role: 0,
    };
    assert_ne!(info(None).encode(), info(Some([0; 32])).encode());
    assert_ne!(info(Some([1; 32])).encode(), info(Some([0; 32])).encode());
}
