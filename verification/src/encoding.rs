//! The bytes that messages are hashed and signed as.
use crate::scale::{
    begins_with_triple, compact, decode_optional_triple, encode_bool, encode_compact, encode_u32,
    encode_u64, flag, le32, le64, lemma_compact_unique, lemma_le32_value, lemma_le64_injective,
    lemma_sized_unique, lemma_triple_unique, put, put_sized, sized, some_triple, MAX_LEN,
};
use crate::types::{
    report_view, AttestationReport, ChallengeHandlerInfo, ChallengeView, EncryptedKey,
    EncryptedKeyView,
    EncryptedWorkerKey, EndpointPayloadView, HandlerView, HandoverChallenge, MasterKeyApplyPayload,
    MasterKeyApplyView, RegistrationView, ReportView, WorkerEndpointPayload, WorkerKeyView,
    WorkerRegistrationInfo,
};
use vstd::prelude::*;
use vstd::utf8::{encode_utf8, encode_utf8_decode_utf8};

verus! {

/// The encoding of a challenge: its fields in order.
pub open spec fn challenge_bytes(c: ChallengeView) -> Seq<u8> {
    sized(c.sgx_target_info) + le32(c.block_number as int) + le64(c.now as int) + flag(c.dev_mode)
        + c.nonce
}

/// The encoding of the answer to a challenge.
pub open spec fn handler_bytes(h: HandlerView) -> Seq<u8> {
    challenge_bytes(h.challenge) + sized(h.sgx_local_report) + h.ecdh_pubkey
}

/// The byte strings of the challenge have encodable lengths.
pub open spec fn challenge_fits(c: ChallengeView) -> bool {
    c.sgx_target_info.len() <= MAX_LEN
}

/// The byte strings of the answer have encodable lengths.
pub open spec fn handler_fits(h: HandlerView) -> bool {
    challenge_fits(h.challenge) && h.sgx_local_report.len() <= MAX_LEN
}

/// The encoding of an encrypted secret.
pub open spec fn encrypted_key_bytes(k: EncryptedKeyView) -> Seq<u8> {
    k.ecdh_pubkey + sized(k.encrypted_key) + k.iv
}

/// The encoding of an encrypted identity.
pub open spec fn worker_key_bytes(w: WorkerKeyView) -> Seq<u8> {
    w.genesis_block_hash + flag(w.dev_mode) + encrypted_key_bytes(w.encrypted_key)
}

/// The encrypted secret has an encodable length.
pub open spec fn worker_key_fits(w: WorkerKeyView) -> bool {
    w.encrypted_key.encrypted_key.len() <= MAX_LEN
}

/// The bytes of the numbers one after the other.
pub open spec fn numbers_bytes(s: Seq<u32>) -> Seq<u8>
    decreases s.len(),
{
    if s.len() == 0 {
        Seq::empty()
    } else {
        numbers_bytes(s.drop_last()) + le32(s.last() as int)
    }
}

/// The encoding of an optional account.
pub open spec fn account_bytes(a: Option<Seq<u8>>) -> Seq<u8> {
    match a {
        Some(a) => seq![1u8] + a,
        None => seq![0u8],
    }
}

/// The encoding of what a node registers itself with.
pub open spec fn registration_bytes(r: RegistrationView) -> Seq<u8> {
    le32(r.version as int) + sized(r.machine_id) + r.pubkey + r.ecdh_pubkey + r.genesis_block_hash
        + (compact(r.features.len() as int) + numbers_bytes(r.features)) + account_bytes(r.operator)
        + seq![r.role]
}

/// The byte strings and lists of the registration have encodable lengths.
pub open spec fn registration_fits(r: RegistrationView) -> bool {
    r.machine_id.len() <= MAX_LEN && r.features.len() <= MAX_LEN
}

/// The encoding of an optional text: its UTF-8 bytes behind their length.
pub open spec fn text_bytes(t: Option<Seq<char>>) -> Seq<u8> {
    match t {
        Some(t) => seq![1u8] + sized(encode_utf8(t)),
        None => seq![0u8],
    }
}

/// The encoding of an endpoint.
pub open spec fn endpoint_bytes(p: EndpointPayloadView) -> Seq<u8> {
    p.pubkey + text_bytes(p.endpoint) + le64(p.signing_time as int)
}

/// The text has an encodable length.
pub open spec fn text_fits(t: Option<Seq<char>>) -> bool {
    match t {
        Some(t) => encode_utf8(t).len() <= MAX_LEN,
        None => true,
    }
}

/// The encoding of a request for the master key.
pub open spec fn master_key_apply_bytes(p: MasterKeyApplyView) -> Seq<u8> {
    p.pubkey + p.ecdh_pubkey + le64(p.signing_time as int)
}

/// Appends the encoding of a challenge.
fn put_challenge(out: &mut Vec<u8>, c: &HandoverChallenge)
    requires
        challenge_fits(c@),
    ensures
        final(out)@ == old(out)@ + challenge_bytes(c@),
{
    let ghost before = out@;
    put_sized(out, c.sgx_target_info.as_slice());
    put(out, encode_u32(c.block_number).as_slice());
    put(out, encode_u64(c.now).as_slice());
    put(out, encode_bool(c.dev_mode).as_slice());
    put(out, c.nonce.as_slice());
    assert(out@ =~= before + challenge_bytes(c@));
}

impl ChallengeHandlerInfo {
    /// The bytes that an answer is attested as.
    pub fn encode(&self) -> (r: Vec<u8>)
        requires
            handler_fits(self@),
        ensures
            r@ == handler_bytes(self@),
    {
        let mut out: Vec<u8> = Vec::new();
        put_challenge(&mut out, &self.challenge);
        put_sized(&mut out, self.sgx_local_report.as_slice());
        put(&mut out, self.ecdh_pubkey.as_slice());
        assert(out@ =~= handler_bytes(self@));
        out
    }
}

impl EncryptedWorkerKey {
    /// The bytes that an encrypted identity is attested as.
    pub fn encode(&self) -> (r: Vec<u8>)
        requires
            worker_key_fits(self@),
        ensures
            r@ == worker_key_bytes(self@),
    {
        let mut out: Vec<u8> = Vec::new();
        put(&mut out, self.genesis_block_hash.as_slice());
        put(&mut out, encode_bool(self.dev_mode).as_slice());
        put(&mut out, self.encrypted_key.ecdh_pubkey.as_slice());
        put_sized(&mut out, self.encrypted_key.encrypted_key.as_slice());
        put(&mut out, self.encrypted_key.iv.as_slice());
        assert(out@ =~= worker_key_bytes(self@));
        out
    }
}

/// Appends the bytes of the numbers one after the other.
fn put_numbers(out: &mut Vec<u8>, numbers: &Vec<u32>)
    ensures
        final(out)@ == old(out)@ + numbers_bytes(numbers@),
{
    let ghost before = out@;
    let mut i: usize = 0;
    assert(numbers@.take(0) =~= Seq::<u32>::empty());
    assert(out@ =~= before + numbers_bytes(numbers@.take(0)));
    while i < numbers.len()
        invariant
            i <= numbers@.len(),
            out@ == before + numbers_bytes(numbers@.take(i as int)),
        decreases numbers@.len() - i,
    {
        put(out, encode_u32(numbers[i]).as_slice());
        proof {
            let next = numbers@.take(i + 1);
            assert(next.drop_last() =~= numbers@.take(i as int));
            assert(out@ =~= before + numbers_bytes(next));
        }
        i = i + 1;
    }
    assert(numbers@.take(i as int) =~= numbers@);
}

impl WorkerRegistrationInfo {
    /// The bytes that a registration is attested as.
    pub fn encode(&self) -> (r: Vec<u8>)
        requires
            registration_fits(self@),
        ensures
            r@ == registration_bytes(self@),
    {
        let mut out: Vec<u8> = Vec::new();
        put(&mut out, encode_u32(self.version).as_slice());
        put_sized(&mut out, self.machine_id.as_slice());
        put(&mut out, self.pubkey.as_slice());
        put(&mut out, self.ecdh_pubkey.as_slice());
        put(&mut out, self.genesis_block_hash.as_slice());
        let count: u32 = self.features.len() as u32;
        put(&mut out, encode_compact(count).as_slice());
        put_numbers(&mut out, &self.features);
        match &self.operator {
            Some(account) => {
                put(&mut out, encode_bool(true).as_slice());
                put(&mut out, account.as_slice());
            },
            None => {
                put(&mut out, encode_bool(false).as_slice());
            },
        }
        out.push(self.role);
        assert(out@ =~= registration_bytes(self@));
        out
    }
}

impl WorkerEndpointPayload {
    /// The bytes that an endpoint is signed as.
    pub fn encode(&self) -> (r: Vec<u8>)
        requires
            text_fits(self@.endpoint),
        ensures
            r@ == endpoint_bytes(self@),
    {
        let mut out: Vec<u8> = Vec::new();
        put(&mut out, self.pubkey.as_slice());
        match &self.endpoint {
            Some(text) => {
                put(&mut out, encode_bool(true).as_slice());
                put_sized(&mut out, text.as_str().as_bytes());
            },
            None => {
                put(&mut out, encode_bool(false).as_slice());
            },
        }
        put(&mut out, encode_u64(self.signing_time).as_slice());
        assert(out@ =~= endpoint_bytes(self@));
        out
    }
}

impl MasterKeyApplyPayload {
    /// The bytes that a request for the master key is signed as.
    pub fn encode(&self) -> (r: Vec<u8>)
        ensures
            r@ == master_key_apply_bytes(self@),
    {
        let mut out: Vec<u8> = Vec::new();
        put(&mut out, self.pubkey.as_slice());
        put(&mut out, self.ecdh_pubkey.as_slice());
        put(&mut out, encode_u64(self.signing_time).as_slice());
        assert(out@ =~= master_key_apply_bytes(self@));
        out
    }
}

/// `bytes` begin with the encoding of the challenge.
pub open spec fn begins_with_challenge(bytes: Seq<u8>, c: ChallengeView) -> bool {
    challenge_fits(c) && challenge_bytes(c).is_prefix_of(bytes)
}

/// `bytes` begin with the encoding of the answer.
pub open spec fn begins_with_handler(bytes: Seq<u8>, h: HandlerView) -> bool {
    handler_fits(h) && handler_bytes(h).is_prefix_of(bytes)
}

/// `bytes` begin with the encoding of the encrypted identity.
pub open spec fn begins_with_worker_key(bytes: Seq<u8>, w: WorkerKeyView) -> bool {
    worker_key_fits(w) && worker_key_bytes(w).is_prefix_of(bytes)
}

/// What the decoder says of bytes that begin with no challenge.
pub uninterp spec fn challenge_error(bytes: Seq<u8>) -> Seq<char>;

/// What the decoder says of bytes that begin with no answer.
pub uninterp spec fn handler_error(bytes: Seq<u8>) -> Seq<char>;

/// What the decoder says of bytes that begin with no encrypted identity.
pub uninterp spec fn worker_key_error(bytes: Seq<u8>) -> Seq<char>;

/// How a challenge is read: the one that `bytes` begin with, whatever follows, or the decoder's
/// text if there is none.
pub open spec fn challenge_decoded(bytes: Seq<u8>, r: Result<HandoverChallenge, String>) -> bool {
    match r {
        Ok(c) => begins_with_challenge(bytes, c@),
        Err(text) => {
            &&& text@ == challenge_error(bytes)
            &&& forall|c: HandoverChallenge| !#[trigger] begins_with_challenge(bytes, c@)
        },
    }
}

/// How an answer is read: the one that `bytes` begin with, whatever follows, or the decoder's
/// text if there is none.
pub open spec fn handler_decoded(bytes: Seq<u8>, r: Result<ChallengeHandlerInfo, String>) -> bool {
    match r {
        Ok(h) => begins_with_handler(bytes, h@),
        Err(text) => {
            &&& text@ == handler_error(bytes)
            &&& forall|h: ChallengeHandlerInfo| !#[trigger] begins_with_handler(bytes, h@)
        },
    }
}

/// How an encrypted identity is read: the one that `bytes` begin with, whatever follows, or the
/// decoder's text if there is none.
pub open spec fn worker_key_decoded(bytes: Seq<u8>, r: Result<EncryptedWorkerKey, String>) -> bool {
    match r {
        Ok(w) => begins_with_worker_key(bytes, w@),
        Err(text) => {
            &&& text@ == worker_key_error(bytes)
            &&& forall|w: EncryptedWorkerKey| !#[trigger] begins_with_worker_key(bytes, w@)
        },
    }
}

/// `<(Vec<u8>, u32, u64, bool, [u8; 32]) as parity_scale_codec::Decode>::decode` on the start of
/// `bytes`; what follows the value is not looked at. The parts of a challenge come out just where
/// its encoding begins `bytes`; else the text of the error, which depends on the bytes alone.
#[verifier::external_body]
fn decode_challenge_parts(bytes: &[u8]) -> (r: Result<(Vec<u8>, u32, u64, bool, [u8; 32]), String>)
    ensures
        match r {
            Ok(t) => begins_with_challenge(
                bytes@,
                (ChallengeView {
                    sgx_target_info: t.0@,
                    block_number: t.1,
                    now: t.2,
                    dev_mode: t.3,
                    nonce: t.4@,
                }),
            ),
            Err(text) => {
                &&& text@ == challenge_error(bytes@)
                &&& forall|c: HandoverChallenge| !#[trigger] begins_with_challenge(bytes@, c@)
            },
        },
{
    match parity_scale_codec::Decode::decode(&mut &bytes[..]) {
        Ok(parts) => Ok(parts),
        Err(e) => Err(parity_scale_codec::Error::to_string(&e)),
    }
}

/// `<((Vec<u8>, u32, u64, bool, [u8; 32]), Vec<u8>, [u8; 32]) as
/// parity_scale_codec::Decode>::decode` on the start of `bytes`; what follows the value is not
/// looked at. The parts of an answer come out just where its encoding begins `bytes`; else the
/// text of the error, which depends on the bytes alone.
#[verifier::external_body]
fn decode_handler_parts(bytes: &[u8]) -> (r: Result<
    ((Vec<u8>, u32, u64, bool, [u8; 32]), Vec<u8>, [u8; 32]),
    String,
>)
    ensures
        match r {
            Ok(t) => begins_with_handler(
                bytes@,
                (HandlerView {
                    challenge: ChallengeView {
                        sgx_target_info: (t.0).0@,
                        block_number: (t.0).1,
                        now: (t.0).2,
                        dev_mode: (t.0).3,
                        nonce: (t.0).4@,
                    },
                    sgx_local_report: t.1@,
                    ecdh_pubkey: t.2@,
                }),
            ),
            Err(text) => {
                &&& text@ == handler_error(bytes@)
                &&& forall|h: ChallengeHandlerInfo| !#[trigger] begins_with_handler(bytes@, h@)
            },
        },
{
    match parity_scale_codec::Decode::decode(&mut &bytes[..]) {
        Ok(parts) => Ok(parts),
        Err(e) => Err(parity_scale_codec::Error::to_string(&e)),
    }
}

/// `<([u8; 32], bool, [u8; 32], Vec<u8>, [u8; 12]) as parity_scale_codec::Decode>::decode` on the
/// start of `bytes`; what follows the value is not looked at. The parts of an encrypted identity
/// come out just where its encoding begins `bytes`; else the text of the error, which depends on
/// the bytes alone.
#[verifier::external_body]
fn decode_worker_key_parts(bytes: &[u8]) -> (r: Result<
    ([u8; 32], bool, [u8; 32], Vec<u8>, [u8; 12]),
    String,
>)
    ensures
        match r {
            Ok(t) => begins_with_worker_key(
                bytes@,
                (WorkerKeyView {
                    genesis_block_hash: t.0@,
                    dev_mode: t.1,
                    encrypted_key: EncryptedKeyView {
                        ecdh_pubkey: t.2@,
                        encrypted_key: t.3@,
                        iv: t.4@,
                    },
                }),
            ),
            Err(text) => {
                &&& text@ == worker_key_error(bytes@)
                &&& forall|w: EncryptedWorkerKey| !#[trigger] begins_with_worker_key(bytes@, w@)
            },
        },
{
    match parity_scale_codec::Decode::decode(&mut &bytes[..]) {
        Ok(parts) => Ok(parts),
        Err(e) => Err(parity_scale_codec::Error::to_string(&e)),
    }
}

impl HandoverChallenge {
    /// The bytes that a challenge is sent as.
    pub fn encode(&self) -> (r: Vec<u8>)
        requires
            challenge_fits(self@),
        ensures
            r@ == challenge_bytes(self@),
    {
        let mut out: Vec<u8> = Vec::new();
        put_challenge(&mut out, self);
        assert(out@ =~= challenge_bytes(self@));
        out
    }

    /// The challenge that `bytes` begin with.
    pub fn decode(bytes: &[u8]) -> (r: Result<HandoverChallenge, String>)
        ensures
            challenge_decoded(bytes@, r),
    {
        match decode_challenge_parts(bytes) {
            Ok((sgx_target_info, block_number, now, dev_mode, nonce)) => Ok(
                HandoverChallenge { sgx_target_info, block_number, now, dev_mode, nonce },
            ),
            Err(text) => Err(text),
        }
    }
}

impl ChallengeHandlerInfo {
    /// The answer that `bytes` begin with.
    pub fn decode(bytes: &[u8]) -> (r: Result<ChallengeHandlerInfo, String>)
        ensures
            handler_decoded(bytes@, r),
    {
        match decode_handler_parts(bytes) {
            Ok((parts, sgx_local_report, ecdh_pubkey)) => {
                let (sgx_target_info, block_number, now, dev_mode, nonce) = parts;
                let challenge = HandoverChallenge {
                    sgx_target_info,
                    block_number,
                    now,
                    dev_mode,
                    nonce,
                };
                Ok(ChallengeHandlerInfo { challenge, sgx_local_report, ecdh_pubkey })
            },
            Err(text) => Err(text),
        }
    }
}

impl EncryptedWorkerKey {
    /// The encrypted identity that `bytes` begin with.
    pub fn decode(bytes: &[u8]) -> (r: Result<EncryptedWorkerKey, String>)
        ensures
            worker_key_decoded(bytes@, r),
    {
        match decode_worker_key_parts(bytes) {
            Ok((genesis_block_hash, dev_mode, ecdh_pubkey, encrypted_key, iv)) => {
                let encrypted_key = EncryptedKey { ecdh_pubkey, encrypted_key, iv };
                Ok(EncryptedWorkerKey { genesis_block_hash, dev_mode, encrypted_key })
            },
            Err(text) => Err(text),
        }
    }
}

/// The encoding of an optional report; a report is the first kind of its type.
pub open spec fn report_bytes(r: Option<ReportView>) -> Seq<u8> {
    match r {
        Some(r) => some_triple(0, r.ra_report, r.signature, r.raw_signing_cert),
        None => seq![0u8],
    }
}

/// The byte strings of the report have encodable lengths.
pub open spec fn report_fits(r: Option<ReportView>) -> bool {
    match r {
        Some(r) => r.ra_report.len() <= MAX_LEN && r.signature.len() <= MAX_LEN
            && r.raw_signing_cert.len() <= MAX_LEN,
        None => true,
    }
}

/// `bytes` begin with the encoding of `r`.
pub open spec fn begins_with_report(bytes: Seq<u8>, r: Option<ReportView>) -> bool {
    report_fits(r) && report_bytes(r).is_prefix_of(bytes)
}

/// The optional report that `bytes` begin with; `None` if they begin with none.
pub fn decode_report(bytes: &[u8]) -> (r: Option<Option<AttestationReport>>)
    ensures
        match r {
            Some(report) => begins_with_report(bytes@, report_view(report)),
            None => forall|v: Option<ReportView>| !begins_with_report(bytes@, v),
        },
{
    let decoded = decode_optional_triple(bytes);
    match decoded {
        Some(None) => {
            assert(report_bytes(None) =~= bytes@.subrange(0, 1));
            Some(None)
        },
        Some(Some((index, ra_report, signature, raw_signing_cert))) => {
            if index == 0 {
                Some(Some(AttestationReport { ra_report, signature, raw_signing_cert }))
            } else {
                proof {
                    let t = (index, ra_report@, signature@, raw_signing_cert@);
                    let whole = some_triple(t.0, t.1, t.2, t.3);
                    assert(bytes@[0] == whole[0] && bytes@[1] == whole[1]);
                    assert forall|v: Option<ReportView>| !begins_with_report(bytes@, v) by {
                        if begins_with_report(bytes@, v) {
                            assert(report_bytes(v)[0] == bytes@[0]);
                            assert(report_bytes(v)[1] == bytes@[1]);
                        }
                    }
                }
                None
            }
        },
        None => {
            assert forall|v: Option<ReportView>| !begins_with_report(bytes@, v) by {
                match v {
                    Some(r) => {
                        assert(!begins_with_triple(
                            bytes@,
                            0,
                            r.ra_report,
                            r.signature,
                            r.raw_signing_cert,
                        ));
                    },
                    None => {
                        if begins_with_report(bytes@, v) {
                            assert(report_bytes(v)[0] == bytes@[0]);
                        }
                    },
                }
            }
            None
        },
    }
}

/// A report is read back from its encoding, whatever follows: no other value begins the bytes.
pub proof fn law_report_read_back(bytes: Seq<u8>, a: Option<ReportView>, b: Option<ReportView>)
    requires
        begins_with_report(bytes, a),
        begins_with_report(bytes, b),
    ensures
        a == b,
{
    assert(report_bytes(a)[0] == bytes[0]);
    assert(report_bytes(b)[0] == bytes[0]);
    match (a, b) {
        (Some(x), Some(y)) => {
            lemma_triple_unique(
                bytes,
                0,
                x.ra_report,
                x.signature,
                x.raw_signing_cert,
                0,
                y.ra_report,
                y.signature,
                y.raw_signing_cert,
            );
        },
        _ => {},
    }
}

/// Equal byte strings whose fronts have one length are equal part by part.
proof fn lemma_split(a: Seq<u8>, x: Seq<u8>, b: Seq<u8>, y: Seq<u8>)
    requires
        a + x == b + y,
        a.len() == b.len(),
    ensures
        a == b,
        x == y,
{
    assert(a =~= (a + x).take(a.len() as int));
    assert(b =~= (b + y).take(a.len() as int));
    assert(x =~= (a + x).skip(a.len() as int));
    assert(y =~= (b + y).skip(a.len() as int));
}

/// Equal byte strings that begin with sized parts are equal part by part.
proof fn lemma_split_sized(a: Seq<u8>, x: Seq<u8>, b: Seq<u8>, y: Seq<u8>)
    requires
        sized(a) + x == sized(b) + y,
        a.len() <= MAX_LEN,
        b.len() <= MAX_LEN,
    ensures
        a == b,
        x == y,
{
    let all = sized(a) + x;
    assert(sized(a) =~= all.subrange(0, sized(a).len() as int));
    assert(sized(b) =~= (sized(b) + y).subrange(0, sized(b).len() as int));
    lemma_sized_unique(all, a, b);
    lemma_split(sized(a), x, sized(b), y);
}

/// Two challenges with the same encoding are the same challenge.
pub proof fn law_challenge_encoding_injective(a: HandoverChallenge, b: HandoverChallenge)
    requires
        challenge_fits(a@),
        challenge_fits(b@),
        challenge_bytes(a@) == challenge_bytes(b@),
    ensures
        a@ == b@,
{
    lemma_challenge_front(a, Seq::empty(), b, Seq::empty());
}

proof fn lemma_challenge_front(
    p: HandoverChallenge,
    x: Seq<u8>,
    q: HandoverChallenge,
    y: Seq<u8>,
)
    requires
        challenge_fits(p@),
        challenge_fits(q@),
        challenge_bytes(p@) + x == challenge_bytes(q@) + y,
    ensures
        p@ == q@,
        x == y,
{
    let (a, b) = (p@, q@);
    let a1 = challenge_tail(a);
    let b1 = challenge_tail(b);
    assert(challenge_bytes(a) + x =~= sized(a.sgx_target_info) + (a1 + x));
    assert(challenge_bytes(b) + y =~= sized(b.sgx_target_info) + (b1 + y));
    lemma_split_sized(a.sgx_target_info, a1 + x, b.sgx_target_info, b1 + y);
    lemma_split(a1, x, b1, y);
    lemma_challenge_tail(a, b);
}

/// The encoding of a challenge after its first field.
spec fn challenge_tail(c: ChallengeView) -> Seq<u8> {
    le32(c.block_number as int) + (le64(c.now as int) + (flag(c.dev_mode) + c.nonce))
}

proof fn lemma_challenge_tail(a: ChallengeView, b: ChallengeView)
    requires
        challenge_tail(a) == challenge_tail(b),
    ensures
        a.block_number == b.block_number,
        a.now == b.now,
        a.dev_mode == b.dev_mode,
        a.nonce == b.nonce,
{
    let a3 = flag(a.dev_mode) + a.nonce;
    let b3 = flag(b.dev_mode) + b.nonce;
    lemma_split(
        le32(a.block_number as int),
        le64(a.now as int) + a3,
        le32(b.block_number as int),
        le64(b.now as int) + b3,
    );
    lemma_le32_value(a.block_number as int);
    lemma_le32_value(b.block_number as int);
    lemma_split(le64(a.now as int), a3, le64(b.now as int), b3);
    lemma_le64_injective(a.now as int, b.now as int);
    lemma_split(flag(a.dev_mode), a.nonce, flag(b.dev_mode), b.nonce);
    assert(flag(a.dev_mode)[0] == flag(b.dev_mode)[0]);
}

/// Two answers with the same encoding are the same answer, so the hash that a node attests
/// is the hash of one answer only (up to collisions of the hash).
pub proof fn law_handler_encoding_injective(a: ChallengeHandlerInfo, b: ChallengeHandlerInfo)
    requires
        handler_fits(a@),
        handler_fits(b@),
        handler_bytes(a@) == handler_bytes(b@),
    ensures
        a@ == b@,
{
    lemma_handler_front(a, Seq::empty(), b, Seq::empty());
}

proof fn lemma_handler_front(
    a: ChallengeHandlerInfo,
    x: Seq<u8>,
    b: ChallengeHandlerInfo,
    y: Seq<u8>,
)
    requires
        handler_fits(a@),
        handler_fits(b@),
        handler_bytes(a@) + x == handler_bytes(b@) + y,
    ensures
        a@ == b@,
        x == y,
{
    let (a2, b2) = (a@.ecdh_pubkey + x, b@.ecdh_pubkey + y);
    let (a1, b1) = (sized(a@.sgx_local_report) + a2, sized(b@.sgx_local_report) + b2);
    assert(handler_bytes(a@) + x =~= challenge_bytes(a@.challenge) + a1);
    assert(handler_bytes(b@) + y =~= challenge_bytes(b@.challenge) + b1);
    lemma_challenge_front(a.challenge, a1, b.challenge, b1);
    lemma_split_sized(a@.sgx_local_report, a2, b@.sgx_local_report, b2);
    lemma_split(a@.ecdh_pubkey, x, b@.ecdh_pubkey, y);
}

/// Two encrypted identities with the same encoding are the same.
pub proof fn law_worker_key_encoding_injective(a: EncryptedWorkerKey, b: EncryptedWorkerKey)
    requires
        worker_key_fits(a@),
        worker_key_fits(b@),
        worker_key_bytes(a@) == worker_key_bytes(b@),
    ensures
        a@ == b@,
{
    lemma_worker_key_front(a, Seq::empty(), b, Seq::empty());
}

proof fn lemma_worker_key_front(
    a: EncryptedWorkerKey,
    x: Seq<u8>,
    b: EncryptedWorkerKey,
    y: Seq<u8>,
)
    requires
        worker_key_fits(a@),
        worker_key_fits(b@),
        worker_key_bytes(a@) + x == worker_key_bytes(b@) + y,
    ensures
        a@ == b@,
        x == y,
{
    let (p, q) = (a@, b@);
    let (k, l) = (p.encrypted_key, q.encrypted_key);
    let k1 = sized(k.encrypted_key) + (k.iv + x);
    let l1 = sized(l.encrypted_key) + (l.iv + y);
    let p1 = flag(p.dev_mode) + (k.ecdh_pubkey + k1);
    let q1 = flag(q.dev_mode) + (l.ecdh_pubkey + l1);
    assert(worker_key_bytes(p) + x =~= p.genesis_block_hash + p1);
    assert(worker_key_bytes(q) + y =~= q.genesis_block_hash + q1);
    lemma_split(p.genesis_block_hash, p1, q.genesis_block_hash, q1);
    lemma_split(flag(p.dev_mode), k.ecdh_pubkey + k1, flag(q.dev_mode), l.ecdh_pubkey + l1);
    assert(flag(p.dev_mode)[0] == flag(q.dev_mode)[0]);
    lemma_split(k.ecdh_pubkey, k1, l.ecdh_pubkey, l1);
    lemma_split_sized(k.encrypted_key, k.iv + x, l.encrypted_key, l.iv + y);
    lemma_split(k.iv, x, l.iv, y);
}

/// Two requests for the master key with the same encoding are the same.
pub proof fn law_master_key_apply_encoding_injective(
    a: MasterKeyApplyPayload,
    b: MasterKeyApplyPayload,
)
    requires
        master_key_apply_bytes(a@) == master_key_apply_bytes(b@),
    ensures
        a@ == b@,
{
    let (p, q) = (a@, b@);
    let p1 = p.ecdh_pubkey + le64(p.signing_time as int);
    let q1 = q.ecdh_pubkey + le64(q.signing_time as int);
    assert(master_key_apply_bytes(p) =~= p.pubkey + p1);
    assert(master_key_apply_bytes(q) =~= q.pubkey + q1);
    lemma_split(p.pubkey, p1, q.pubkey, q1);
    lemma_split(
        p.ecdh_pubkey,
        le64(p.signing_time as int),
        q.ecdh_pubkey,
        le64(q.signing_time as int),
    );
    lemma_le64_injective(p.signing_time as int, q.signing_time as int);
}

proof fn lemma_begins(front: Seq<u8>, bytes: Seq<u8>)
    requires
        front.is_prefix_of(bytes),
    ensures
        bytes == front + bytes.skip(front.len() as int),
{
    assert(bytes =~= front + bytes.skip(front.len() as int));
}

/// A challenge is read back from its encoding, whatever follows.
pub proof fn law_challenge_read_back(
    c: HandoverChallenge,
    rest: Seq<u8>,
    r: Result<HandoverChallenge, String>,
)
    requires
        challenge_fits(c@),
        challenge_decoded(challenge_bytes(c@) + rest, r),
    ensures
        r matches Ok(d) && d@ == c@,
{
    let bytes = challenge_bytes(c@) + rest;
    assert(challenge_bytes(c@) =~= bytes.subrange(0, challenge_bytes(c@).len() as int));
    assert(begins_with_challenge(bytes, c@));
    let d = r->Ok_0;
    lemma_begins(challenge_bytes(d@), bytes);
    lemma_challenge_front(c, rest, d, bytes.skip(challenge_bytes(d@).len() as int));
}

/// An answer is read back from its encoding, whatever follows.
pub proof fn law_handler_read_back(
    h: ChallengeHandlerInfo,
    rest: Seq<u8>,
    r: Result<ChallengeHandlerInfo, String>,
)
    requires
        handler_fits(h@),
        handler_decoded(handler_bytes(h@) + rest, r),
    ensures
        r matches Ok(d) && d@ == h@,
{
    let bytes = handler_bytes(h@) + rest;
    assert(handler_bytes(h@) =~= bytes.subrange(0, handler_bytes(h@).len() as int));
    assert(begins_with_handler(bytes, h@));
    let d = r->Ok_0;
    lemma_begins(handler_bytes(d@), bytes);
    lemma_handler_front(h, rest, d, bytes.skip(handler_bytes(d@).len() as int));
}

/// An encrypted identity is read back from its encoding, whatever follows.
pub proof fn law_worker_key_read_back(
    w: EncryptedWorkerKey,
    rest: Seq<u8>,
    r: Result<EncryptedWorkerKey, String>,
)
    requires
        worker_key_fits(w@),
        worker_key_decoded(worker_key_bytes(w@) + rest, r),
    ensures
        r matches Ok(d) && d@ == w@,
{
    let bytes = worker_key_bytes(w@) + rest;
    assert(worker_key_bytes(w@) =~= bytes.subrange(0, worker_key_bytes(w@).len() as int));
    assert(begins_with_worker_key(bytes, w@));
    let d = r->Ok_0;
    lemma_begins(worker_key_bytes(d@), bytes);
    lemma_worker_key_front(w, rest, d, bytes.skip(worker_key_bytes(d@).len() as int));
}

/// Two endpoints with the same encoding are the same, so a signed endpoint cannot be taken for
/// another one.
pub proof fn law_endpoint_encoding_injective(a: WorkerEndpointPayload, b: WorkerEndpointPayload)
    requires
        text_fits(a@.endpoint),
        text_fits(b@.endpoint),
        endpoint_bytes(a@) == endpoint_bytes(b@),
    ensures
        a@ == b@,
{
    let (p, q) = (a@, b@);
    let (s, t) = (le64(p.signing_time as int), le64(q.signing_time as int));
    let p1 = text_bytes(p.endpoint) + s;
    let q1 = text_bytes(q.endpoint) + t;
    assert(endpoint_bytes(p) =~= p.pubkey + p1);
    assert(endpoint_bytes(q) =~= q.pubkey + q1);
    lemma_split(p.pubkey, p1, q.pubkey, q1);
    assert(p1[0] == q1[0]);
    match (p.endpoint, q.endpoint) {
        (Some(x), Some(y)) => {
            let (x1, y1) = (sized(encode_utf8(x)) + s, sized(encode_utf8(y)) + t);
            assert(p1 =~= seq![1u8] + x1);
            assert(q1 =~= seq![1u8] + y1);
            lemma_split(seq![1u8], x1, seq![1u8], y1);
            lemma_split_sized(encode_utf8(x), s, encode_utf8(y), t);
            encode_utf8_decode_utf8(x);
            encode_utf8_decode_utf8(y);
        },
        (None, None) => {
            lemma_split(seq![0u8], s, seq![0u8], t);
        },
        _ => {
            assert(text_bytes(p.endpoint)[0] != text_bytes(q.endpoint)[0]);
        },
    }
    lemma_le64_injective(p.signing_time as int, q.signing_time as int);
}

pub proof fn lemma_numbers_len(s: Seq<u32>)
    ensures
        numbers_bytes(s).len() == 4 * s.len(),
    decreases s.len(),
{
    if s.len() > 0 {
        lemma_numbers_len(s.drop_last());
    }
}

/// As many numbers with the same bytes are the same numbers.
proof fn lemma_numbers_injective(s: Seq<u32>, t: Seq<u32>)
    requires
        s.len() == t.len(),
        numbers_bytes(s) == numbers_bytes(t),
    ensures
        s == t,
    decreases s.len(),
{
    if s.len() > 0 {
        lemma_numbers_len(s.drop_last());
        lemma_numbers_len(t.drop_last());
        lemma_split(
            numbers_bytes(s.drop_last()),
            le32(s.last() as int),
            numbers_bytes(t.drop_last()),
            le32(t.last() as int),
        );
        lemma_numbers_injective(s.drop_last(), t.drop_last());
        lemma_le32_value(s.last() as int);
        lemma_le32_value(t.last() as int);
        assert(s =~= s.drop_last().push(s.last()));
        assert(t =~= t.drop_last().push(t.last()));
    }
    assert(s =~= t);
}

/// The encoding of a registration after its machine.
spec fn registration_tail(r: RegistrationView) -> Seq<u8> {
    r.pubkey + (r.ecdh_pubkey + (r.genesis_block_hash + features_tail(r)))
}

/// The encoding of a registration from its features on.
spec fn features_tail(r: RegistrationView) -> Seq<u8> {
    compact(r.features.len() as int) + (numbers_bytes(r.features) + (account_bytes(r.operator)
        + seq![r.role]))
}

proof fn lemma_features_tail(a: WorkerRegistrationInfo, b: WorkerRegistrationInfo)
    requires
        registration_fits(a@),
        registration_fits(b@),
        features_tail(a@) == features_tail(b@),
    ensures
        a@.features == b@.features,
        a@.operator == b@.operator,
        a@.role == b@.role,
{
    let (p, q) = (a@, b@);
    let (m, n) = (p.features.len() as int, q.features.len() as int);
    let all = features_tail(p);
    assert(compact(m) =~= all.subrange(0, compact(m).len() as int));
    assert(compact(n) =~= features_tail(q).subrange(0, compact(n).len() as int));
    lemma_compact_unique(all, m, n);
    let (x, y) = (account_bytes(p.operator), account_bytes(q.operator));
    let (s, t) = (numbers_bytes(p.features), numbers_bytes(q.features));
    lemma_split(compact(m), s + (x + seq![p.role]), compact(n), t + (y + seq![q.role]));
    lemma_numbers_len(p.features);
    lemma_numbers_len(q.features);
    lemma_split(s, x + seq![p.role], t, y + seq![q.role]);
    lemma_numbers_injective(p.features, q.features);
    lemma_split(x, seq![p.role], y, seq![q.role]);
    assert(seq![p.role][0] == seq![q.role][0]);
    match (p.operator, q.operator) {
        (Some(c), Some(d)) => {
            lemma_split(seq![1u8], c, seq![1u8], d);
        },
        (None, None) => {},
        _ => {
            assert(x[0] != y[0]);
        },
    }
}

proof fn lemma_registration_parts(r: RegistrationView)
    ensures
        registration_bytes(r) == le32(r.version as int) + (sized(r.machine_id)
            + registration_tail(r)),
{
    let f = compact(r.features.len() as int) + numbers_bytes(r.features);
    let front = le32(r.version as int) + sized(r.machine_id) + r.pubkey + r.ecdh_pubkey
        + r.genesis_block_hash;
    let back = account_bytes(r.operator) + seq![r.role];
    assert(features_tail(r) =~= f + back);
    assert(registration_bytes(r) =~= front + features_tail(r));
    assert(front + features_tail(r) =~= le32(r.version as int) + (sized(r.machine_id)
        + registration_tail(r)));
}

proof fn lemma_registration_tail(a: WorkerRegistrationInfo, b: WorkerRegistrationInfo)
    requires
        registration_tail(a@) == registration_tail(b@),
    ensures
        a@.pubkey == b@.pubkey,
        a@.ecdh_pubkey == b@.ecdh_pubkey,
        a@.genesis_block_hash == b@.genesis_block_hash,
        features_tail(a@) == features_tail(b@),
{
    let (p, q) = (a@, b@);
    let (p1, q1) = (features_tail(p), features_tail(q));
    let (p2, q2) = (p.genesis_block_hash + p1, q.genesis_block_hash + q1);
    lemma_split(p.pubkey, p.ecdh_pubkey + p2, q.pubkey, q.ecdh_pubkey + q2);
    lemma_split(p.ecdh_pubkey, p2, q.ecdh_pubkey, q2);
    lemma_split(p.genesis_block_hash, p1, q.genesis_block_hash, q1);
}

/// Two registrations with the same encoding are the same, so the hash that a node has attested is
/// the hash of one registration only (up to collisions of the hash).
pub proof fn law_registration_encoding_injective(
    a: WorkerRegistrationInfo,
    b: WorkerRegistrationInfo,
)
    requires
        registration_fits(a@),
        registration_fits(b@),
        registration_bytes(a@) == registration_bytes(b@),
    ensures
        a@ == b@,
{
    let (p, q) = (a@, b@);
    let (p1, q1) = (registration_tail(p), registration_tail(q));
    lemma_registration_parts(p);
    lemma_registration_parts(q);
    lemma_split(
        le32(p.version as int),
        sized(p.machine_id) + p1,
        le32(q.version as int),
        sized(q.machine_id) + q1,
    );
    lemma_le32_value(p.version as int);
    lemma_le32_value(q.version as int);
    lemma_split_sized(p.machine_id, p1, q.machine_id, q1);
    lemma_registration_tail(a, b);
    lemma_features_tail(a, b);
}

} // verus!
