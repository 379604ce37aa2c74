//! Where each part of a message stands in its encoding.
use crate::encoding::{
    begins_with_challenge, begins_with_handler, begins_with_report, begins_with_worker_key,
    challenge_bytes, challenge_fits, endpoint_bytes, handler_bytes, handler_fits,
    lemma_numbers_len, master_key_apply_bytes, numbers_bytes, registration_bytes,
    registration_fits, report_bytes, report_fits, text_fits, worker_key_bytes, worker_key_fits,
};
use crate::scale::{compact, le32, le64, lemma_le32_value, sized, value32};
use crate::types::{
    AttestationReport, ChallengeHandlerInfo, EncryptedWorkerKey, HandoverChallenge,
    MasterKeyApplyPayload, WorkerEndpointPayload, WorkerRegistrationInfo,
};
use vstd::prelude::*;
use vstd::utf8::encode_utf8;

verus! {

/// A 32-bit number stands in four bytes and a 64-bit number in eight, the least significant first.
pub proof fn law_numbers_are_little_endian(m: u32, n: u64)
    ensures
        le32(m as int).len() == 4,
        value32(le32(m as int)) == m,
        le64(n as int).len() == 8,
        value32(le64(n as int).take(4)) + 4294967296 * value32(le64(n as int).skip(4)) == n,
{
    lemma_le32_value(m as int);
    let (low, high) = (n as int % 4294967296, n as int / 4294967296);
    lemma_le32_value(low);
    lemma_le32_value(high);
    assert(le64(n as int).take(4) =~= le32(low));
    assert(le64(n as int).skip(4) =~= le32(high));
}

/// A compact number has the least of one, two, four or five bytes that it fits in; the two low bits
/// of the first byte tell which, and the rest is the number.
pub proof fn law_compact_numbers(n: u32)
    ensures
        n < 64 ==> compact(n as int).len() == 1 && compact(n as int)[0] == 4 * n,
        64 <= n < 16384 ==> compact(n as int).len() == 2 && compact(n as int)[0] + 256 * compact(
            n as int,
        )[1] == 4 * n + 1,
        16384 <= n < 1073741824 ==> compact(n as int).len() == 4 && value32(compact(n as int)) == 4
            * n + 2,
        1073741824 <= n ==> compact(n as int).len() == 5 && compact(n as int)[0] == 3 && value32(
            compact(n as int).skip(1),
        ) == n,
{
    if 16384 <= n < 1073741824 {
        lemma_le32_value(n * 4 + 2);
    }
    if 1073741824 <= n {
        lemma_le32_value(n as int);
        assert(compact(n as int).skip(1) =~= le32(n as int));
    }
}

/// A byte string stands behind its compact length.
pub proof fn law_sized_bytes_follow_their_length(data: Seq<u8>)
    ensures
        sized(data) == compact(data.len() as int) + data,
{
}

/// A challenge: the target behind its length, then 45 bytes: the block, the time, the mode and the
/// nonce.
pub proof fn law_challenge_layout(c: HandoverChallenge)
    ensures
        challenge_bytes(c@) == sized(c.sgx_target_info@) + challenge_bytes(c@).skip(
            sized(c.sgx_target_info@).len() as int,
        ),
        challenge_bytes(c@).len() == sized(c.sgx_target_info@).len() + 45,
        ({
            let tail = challenge_bytes(c@).skip(sized(c.sgx_target_info@).len() as int);
            &&& tail.subrange(0, 4) == le32(c.block_number as int)
            &&& tail.subrange(4, 12) == le64(c.now as int)
            &&& tail[12] == (if c.dev_mode {
                1u8
            } else {
                0u8
            })
            &&& tail.subrange(13, 45) == c.nonce@
        }),
{
    let front = sized(c.sgx_target_info@);
    let all = challenge_bytes(c@);
    let tail = all.skip(front.len() as int);
    assert(all =~= front + tail);
    assert(tail.subrange(0, 4) =~= le32(c.block_number as int));
    assert(tail.subrange(4, 12) =~= le64(c.now as int));
    assert(tail.subrange(13, 45) =~= c.nonce@);
}

/// An answer: the challenge, the local report behind its length, and the public key at the end.
pub proof fn law_handler_layout(h: ChallengeHandlerInfo)
    ensures
        handler_bytes(h@) == challenge_bytes(h.challenge@) + sized(h.sgx_local_report@)
            + h.ecdh_pubkey@,
{
}

/// An encrypted identity: the first block, the mode, the public key, the encrypted key behind its
/// length, and the initialisation vector at the end.
pub proof fn law_worker_key_layout(w: EncryptedWorkerKey)
    ensures
        worker_key_bytes(w@).subrange(0, 32) == w.genesis_block_hash@,
        worker_key_bytes(w@)[32] == (if w.dev_mode {
            1u8
        } else {
            0u8
        }),
        worker_key_bytes(w@).subrange(33, 65) == w.encrypted_key.ecdh_pubkey@,
        worker_key_bytes(w@).skip(65) == sized(w.encrypted_key.encrypted_key@)
            + w.encrypted_key.iv@,
{
    let all = worker_key_bytes(w@);
    assert(all.subrange(0, 32) =~= w.genesis_block_hash@);
    assert(all.subrange(33, 65) =~= w.encrypted_key.ecdh_pubkey@);
    assert(all.skip(65) =~= sized(w.encrypted_key.encrypted_key@) + w.encrypted_key.iv@);
}

/// A request for the master key: the identity key, the ECDH key and the time.
pub proof fn law_master_key_apply_layout(p: MasterKeyApplyPayload)
    ensures
        master_key_apply_bytes(p@).len() == 72,
        master_key_apply_bytes(p@).subrange(0, 32) == p.pubkey@,
        master_key_apply_bytes(p@).subrange(32, 64) == p.ecdh_pubkey@,
        master_key_apply_bytes(p@).subrange(64, 72) == le64(p.signing_time as int),
{
    let all = master_key_apply_bytes(p@);
    assert(all.subrange(0, 32) =~= p.pubkey@);
    assert(all.subrange(32, 64) =~= p.ecdh_pubkey@);
    assert(all.subrange(64, 72) =~= le64(p.signing_time as int));
}

/// An endpoint: the identity key, whether there is a text, its UTF-8 bytes behind their length, and
/// the time at the end.
pub proof fn law_endpoint_layout(p: WorkerEndpointPayload)
    ensures
        endpoint_bytes(p@).subrange(0, 32) == p.pubkey@,
        p.endpoint is None ==> endpoint_bytes(p@).len() == 41 && endpoint_bytes(p@)[32] == 0
            && endpoint_bytes(p@).skip(33) == le64(p.signing_time as int),
        p.endpoint matches Some(t) ==> endpoint_bytes(p@)[32] == 1 && endpoint_bytes(p@).skip(33)
            == sized(encode_utf8(t@)) + le64(p.signing_time as int),
{
    let all = endpoint_bytes(p@);
    assert(all.subrange(0, 32) =~= p.pubkey@);
    match p.endpoint {
        Some(t) => {
            assert(all.skip(33) =~= sized(encode_utf8(t@)) + le64(p.signing_time as int));
        },
        None => {
            assert(all.skip(33) =~= le64(p.signing_time as int));
        },
    }
}

/// The numbers of a list stand one after the other.
pub proof fn law_numbers_stand_in_order(s: Seq<u32>, i: int)
    requires
        0 <= i < s.len(),
    ensures
        numbers_bytes(s).len() == 4 * s.len(),
        numbers_bytes(s).subrange(4 * i, 4 * i + 4) == le32(s[i] as int),
    decreases s.len(),
{
    lemma_numbers_len(s);
    lemma_numbers_len(s.drop_last());
    if i == s.len() - 1 {
        assert(numbers_bytes(s).subrange(4 * i, 4 * i + 4) =~= le32(s[i] as int));
    } else {
        law_numbers_stand_in_order(s.drop_last(), i);
        assert(numbers_bytes(s).subrange(4 * i, 4 * i + 4) =~= numbers_bytes(
            s.drop_last(),
        ).subrange(4 * i, 4 * i + 4));
    }
}

/// A registration: the version, the machine behind its length, 96 bytes of keys and first block,
/// the features behind their count, then the operator, if there is one, and the role at the end.
pub proof fn law_registration_layout(r: WorkerRegistrationInfo)
    ensures
        ({
            let all = registration_bytes(r@);
            let n = all.len() as int;
            let m = sized(r.machine_id@).len() as int;
            let f = compact(r.features@.len() as int) + numbers_bytes(r.features@);
            &&& n >= 101 + m + f.len()
            &&& all.subrange(0, 4) == le32(r.version as int)
            &&& all.subrange(4, 4 + m) == sized(r.machine_id@)
            &&& all.subrange(4 + m, 36 + m) == r.pubkey@
            &&& all.subrange(36 + m, 68 + m) == r.ecdh_pubkey@
            &&& all.subrange(68 + m, 100 + m) == r.genesis_block_hash@
            &&& all.subrange(100 + m, 100 + m + f.len()) == f
            &&& all[n - 1] == r.role
            &&& r.operator is None ==> n == 102 + m + f.len() && all[n - 2] == 0
            &&& r.operator matches Some(a) ==> n == 134 + m + f.len() && all[n - 34] == 1
                && all.subrange(n - 33, n - 1) == a@
        }),
{
    let all = registration_bytes(r@);
    let n = all.len() as int;
    let m = sized(r.machine_id@).len() as int;
    let f = compact(r.features@.len() as int) + numbers_bytes(r.features@);
    assert(all.subrange(0, 4) =~= le32(r.version as int));
    assert(all.subrange(4, 4 + m) =~= sized(r.machine_id@));
    assert(all.subrange(4 + m, 36 + m) =~= r.pubkey@);
    assert(all.subrange(36 + m, 68 + m) =~= r.ecdh_pubkey@);
    assert(all.subrange(68 + m, 100 + m) =~= r.genesis_block_hash@);
    assert(all.subrange(100 + m, 100 + m + f.len()) =~= f);
    match r.operator {
        Some(a) => {
            assert(all.subrange(n - 33, n - 1) =~= a@);
        },
        None => {},
    }
}

/// A report that is there: two leading bytes, then what was signed, the signature and the
/// certificate, each behind its length; one that is not: a zero.
pub proof fn law_report_layout(r: AttestationReport)
    ensures
        report_bytes(None) == seq![0u8],
        report_bytes(Some(r@)).subrange(0, 2) == seq![1u8, 0u8],
        report_bytes(Some(r@)).skip(2) == sized(r.ra_report@) + sized(r.signature@) + sized(
            r.raw_signing_cert@,
        ),
{
    let all = report_bytes(Some(r@));
    assert(all.subrange(0, 2) =~= seq![1u8, 0u8]);
    assert(all.skip(2) =~= sized(r.ra_report@) + sized(r.signature@) + sized(r.raw_signing_cert@));
}

/// A message can be encoded just where each of its byte strings and lists has a length of at most
/// 32 bits; nothing else is asked of it.
pub proof fn law_lengths_of_32_bits_fit(
    c: HandoverChallenge,
    h: ChallengeHandlerInfo,
    w: EncryptedWorkerKey,
    r: WorkerRegistrationInfo,
    p: WorkerEndpointPayload,
    a: AttestationReport,
)
    ensures
        challenge_fits(c@) <==> c.sgx_target_info@.len() <= u32::MAX,
        handler_fits(h@) <==> h.challenge.sgx_target_info@.len() <= u32::MAX
            && h.sgx_local_report@.len() <= u32::MAX,
        worker_key_fits(w@) <==> w.encrypted_key.encrypted_key@.len() <= u32::MAX,
        registration_fits(r@) <==> r.machine_id@.len() <= u32::MAX && r.features@.len() <= u32::MAX,
        text_fits(p@.endpoint) <==> (p.endpoint matches Some(t) ==> encode_utf8(t@).len()
            <= u32::MAX),
        report_fits(None),
        report_fits(Some(a@)) <==> a.ra_report@.len() <= u32::MAX && a.signature@.len() <= u32::MAX
            && a.raw_signing_cert@.len() <= u32::MAX,
{
}

/// What begins with the encoding of a message reads as that message.
pub proof fn law_messages_begin_with_their_bytes(
    bytes: Seq<u8>,
    c: HandoverChallenge,
    h: ChallengeHandlerInfo,
    w: EncryptedWorkerKey,
    a: AttestationReport,
)
    ensures
        begins_with_challenge(bytes, c@) <==> challenge_fits(c@) && challenge_bytes(
            c@,
        ).is_prefix_of(bytes),
        begins_with_handler(bytes, h@) <==> handler_fits(h@) && handler_bytes(h@).is_prefix_of(
            bytes,
        ),
        begins_with_worker_key(bytes, w@) <==> worker_key_fits(w@) && worker_key_bytes(
            w@,
        ).is_prefix_of(bytes),
        begins_with_report(bytes, Some(a@)) <==> report_fits(Some(a@)) && report_bytes(
            Some(a@),
        ).is_prefix_of(bytes),
        begins_with_report(bytes, None) <==> bytes.len() > 0 && bytes[0] == 0,
{
    if bytes.len() > 0 && bytes[0] == 0 {
        assert(report_bytes(None) =~= bytes.subrange(0, 1));
    }
    if begins_with_report(bytes, None) {
        assert(report_bytes(None)[0] == bytes[0]);
    }
}

} // verus!
