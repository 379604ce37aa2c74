//! What each check of a handover replies, and what it hands on to the next one.
use crate::crypto::blake2_256_of;
use crate::encoding::{begins_with_report, handler_bytes, worker_key_bytes};
use crate::error::{CesealServiceError, Status};
use crate::handover_laws::{goes_on, is_handover, HandoverEvent};
use crate::handover_server::{
    client_runtime_read, handover_opened, key_attested, key_encrypted, local_report_checked,
    own_runtime_read, report_validated, ClientRuntime, ClientRuntimeToRead, HandoverStep,
    KeyToAttest, KeyToEncrypt, LocalReportCheck, LocalReportToVerify, OwnRuntime,
    OwnRuntimeToRead, ReportToValidate,
};
use crate::node_laws::{rejects, replies, same_challenge};
use crate::state::Ceseal;
use crate::types::{
    report_view, Attestation, AttestationProvider, AttestationReport, ChallengeHandlerInfo,
    EncryptedKey, HandoverWorkerKey, ReportView,
};
use vstd::prelude::*;

verus! {

/// The node is in an enclave and not in development mode.
pub open spec fn in_production<P>(c: Ceseal<P>) -> bool {
    !c.dev_mode && c.attestation_provider == Some(AttestationProvider::Ias)
}

/// The challenge is of the current block or of one of the 150 before it.
pub open spec fn is_recent(challenge_block: u32, current_block: u32) -> bool {
    challenge_block <= current_block <= challenge_block + 150
}

/// In a handover, every step speaks of the answer that the handover was opened with: the key is
/// encrypted for the public key in it, under the label of handovers, and in the mode of the node.
pub proof fn law_key_is_encrypted_for_the_client<P>(
    pre: Ceseal<P>,
    handler: ChallengeHandlerInfo,
    attestation: Option<Attestation>,
    states: Seq<Ceseal<P>>,
    steps: Seq<HandoverStep>,
    events: Seq<HandoverEvent>,
    i: int,
)
    requires
        is_handover(pre, handler, attestation, states, steps, events),
        0 <= i < steps.len(),
    ensures
        steps[i] matches HandoverStep::EncryptKey(k) ==> {
            &&& k.context.handler == handler
            &&& k.context.handler.ecdh_pubkey@ == handler.ecdh_pubkey@
            &&& k.label@ == "worker_key_handover"@
            &&& k.context.dev_mode == pre.dev_mode
            &&& k.context.in_sgx <==> pre.attestation_provider == Some(AttestationProvider::Ias)
        },
        steps[i] matches HandoverStep::ValidateReport(p) ==> p.context.handler == handler,
        steps[i] matches HandoverStep::VerifyLocalReport(p) ==> p.context.handler == handler,
        steps[i] matches HandoverStep::ReadOwnRuntime(p) ==> p.context.handler == handler,
        steps[i] matches HandoverStep::ReadClientRuntime(p) ==> p.context.handler == handler,
{
    let n = events.len() as int;
    if 0 < n {
        assert(goes_on(states, steps, events, 0));
    }
    if 1 < n {
        assert(goes_on(states, steps, events, 1));
    }
    if 2 < n {
        assert(goes_on(states, steps, events, 2));
    }
    if 3 < n {
        assert(goes_on(states, steps, events, 3));
    }
    if 4 < n {
        assert(goes_on(states, steps, events, 4));
    }
    if 5 < n {
        assert(goes_on(states, steps, events, 5));
    }
    if 6 < n {
        assert(goes_on(states, steps, events, 6));
    }
}

/// The reply of a handover holds the key as it was encrypted, for the chain and the mode of the
/// node, with the attestation that was created for it, if one was.
pub proof fn law_reply_is_what_was_encrypted<P>(
    c: Ceseal<P>,
    p: KeyToEncrypt,
    key: EncryptedKey,
    r: Result<HandoverStep, Status>,
    attestation: Attestation,
    last: Result<HandoverStep, Status>,
)
    requires
        c.runtime_state is Some,
        key_encrypted(c, p, Ok(key), r),
        r matches Ok(HandoverStep::CreateReport(k)) ==> key_attested(k, Ok(attestation), last),
    ensures
        !p.context.dev_mode && p.context.in_sgx ==> {
            &&& r matches Ok(HandoverStep::CreateReport(k))
            &&& k.order.provider == Some(AttestationProvider::Ias)
            &&& k.order.hash@ == blake2_256_of(worker_key_bytes(k.worker_key@))
            &&& k.order.timeout_ms == c.args.ra_timeout_ms
            &&& k.order.max_retries == c.args.ra_max_retries
            &&& last matches Ok(HandoverStep::Done(reply))
            &&& reply.attestation == Some(attestation)
            &&& holds_key(c, p, key, reply)
        },
        p.context.dev_mode || !p.context.in_sgx ==> {
            &&& r matches Ok(HandoverStep::Done(reply))
            &&& reply.attestation is None
            &&& holds_key(c, p, key, reply)
        },
{
}

/// The reply holds the key as it was encrypted, with the chain of the node and the mode that the
/// handover was opened in.
pub open spec fn holds_key<P>(
    c: Ceseal<P>,
    p: KeyToEncrypt,
    key: EncryptedKey,
    reply: HandoverWorkerKey,
) -> bool {
    &&& reply.worker_key.encrypted_key.encrypted_key@ == key.encrypted_key@
    &&& reply.worker_key.encrypted_key.ecdh_pubkey@ == key.ecdh_pubkey@
    &&& reply.worker_key.encrypted_key.iv@ == key.iv@
    &&& reply.worker_key.dev_mode == p.context.dev_mode
    &&& reply.worker_key.genesis_block_hash@ == c.runtime_state->0.genesis_block_hash@
}

/// A key that could not be encrypted or attested is not sent; the reply tells why.
pub proof fn law_failed_work_on_the_key_is_told<P>(
    c: Ceseal<P>,
    p: KeyToEncrypt,
    outcome: Result<EncryptedKey, String>,
    r: Result<HandoverStep, Status>,
    k: KeyToAttest,
    text: String,
    last: Result<HandoverStep, Status>,
)
    requires
        key_encrypted(c, p, outcome, r),
        key_attested(k, Err(CesealServiceError::AppError(text)), last),
    ensures
        outcome matches Err(t) ==> replies(r, t@),
        outcome is Ok && c.runtime_state is None ==> replies(r, "Runtime not initialized"@),
        outcome is Ok && c.runtime_state is Some ==> r is Ok,
        replies(last, text@),
{
}

/// Opening a handover in production asks for the validation of the client's report: the one in the
/// attestation, on the hash of the answer, at the time of the chain in whole seconds. The challenge
/// is not spent yet, and the block is the one before the next. Each refusal has its reason.
pub proof fn law_opening_in_production<P>(
    pre: Ceseal<P>,
    handler: Result<ChallengeHandlerInfo, String>,
    attestation: Option<Attestation>,
    post: Ceseal<P>,
    r: Result<HandoverStep, Status>,
)
    requires
        in_production(pre),
        handover_opened(pre, handler, attestation, post, r),
    ensures
        post == pre,
        pre.runtime_state is None ==> replies(r, "Runtime not initialized"@),
        pre.runtime_state is Some ==> (handler matches Err(text) ==> replies(r, text@)),
        pre.runtime_state is Some && handler is Ok && attestation is None ==> replies(
            r,
            "Client attestation not found"@,
        ),
        pre.runtime_state matches Some(s) ==> (handler matches Ok(h) ==> (
        attestation matches Some(a) ==> {
            &&& r is Err ==> replies(r, "Decode client attestation failed"@)
            &&& r is Ok <==> exists|v: Option<ReportView>|
                #[trigger] begins_with_report(a.encoded_report@, v)
            &&& r matches Ok(step) ==> {
                let next = s.storage_synchronizer.counters.next_block_number;
                &&& step matches HandoverStep::ValidateReport(p)
                &&& begins_with_report(a.encoded_report@, report_view(p.report))
                &&& p.payload_hash@ == blake2_256_of(handler_bytes(h@))
                &&& 1000 * p.block_sec <= s.chain_storage.timestamp_now < 1000 * p.block_sec + 1000
                &&& p.context.handler == h
                &&& !p.context.dev_mode && p.context.in_sgx
                &&& next > 0 ==> p.context.block_number + 1 == next
                &&& next == 0 ==> p.context.block_number == 0
            }
        })),
{
    if pre.runtime_state is Some && handler is Ok && attestation is Some && r is Ok {
        let bytes = attestation->0.encoded_report@;
        let p = r->Ok_0->ValidateReport_0;
        assert(begins_with_report(bytes, report_view(p.report)));
    }
}

/// Opening a handover outside production spends the challenge, and goes on to the encryption just
/// where it is the expected one and recent.
pub proof fn law_opening_outside_production<P>(
    pre: Ceseal<P>,
    handler: Result<ChallengeHandlerInfo, String>,
    attestation: Option<Attestation>,
    post: Ceseal<P>,
    r: Result<HandoverStep, Status>,
)
    requires
        !in_production(pre),
        handover_opened(pre, handler, attestation, post, r),
    ensures
        pre.runtime_state is None ==> post == pre && replies(r, "Runtime not initialized"@),
        pre.runtime_state is Some ==> (handler matches Err(text) ==> post == pre && replies(
            r,
            text@,
        )),
        pre.runtime_state matches Some(s) ==> (handler matches Ok(h) ==> {
            let next = s.storage_synchronizer.counters.next_block_number;
            let current = if next == 0 {
                0u32
            } else {
                (next - 1) as u32
            };
            &&& post.handover_last_challenge is None
            &&& pre == (Ceseal { handover_last_challenge: pre.handover_last_challenge, ..post })
            &&& !same_challenge(pre.handover_last_challenge, h.challenge) ==> rejects(
                r,
                "Invalid challenge"@,
            )
            &&& same_challenge(pre.handover_last_challenge, h.challenge) && !is_recent(
                h.challenge.block_number,
                current,
            ) ==> rejects(r, "Outdated challenge"@)
            &&& same_challenge(pre.handover_last_challenge, h.challenge) && is_recent(
                h.challenge.block_number,
                current,
            ) ==> (r matches Ok(HandoverStep::EncryptKey(k)) && k.context.handler == h
                && k.context.dev_mode == pre.dev_mode && k.context.block_number == current
                && k.label@ == "worker_key_handover"@)
        }),
{
}

/// A report that is not valid ends the handover with the challenge unspent; a valid one spends it
/// and goes on just where it is the expected one.
pub proof fn law_valid_report_spends_the_challenge<P>(
    pre: Ceseal<P>,
    p: ReportToValidate,
    valid: bool,
    post: Ceseal<P>,
    r: Result<HandoverStep, Status>,
)
    requires
        report_validated(pre, p, valid, post, r),
    ensures
        !valid ==> post == pre && replies(r, "Invalid client RA report"@),
        valid ==> {
            let expected = same_challenge(
                pre.handover_last_challenge,
                p.context.handler.challenge,
            );
            &&& post.handover_last_challenge is None
            &&& pre == (Ceseal { handover_last_challenge: pre.handover_last_challenge, ..post })
            &&& !expected ==> rejects(r, "Invalid challenge"@)
            &&& expected ==> (r matches Ok(HandoverStep::VerifyLocalReport(q)) && q.context
                == p.context && q.report == p.report)
        },
{
}

/// A local report that cannot be read, or was made elsewhere, ends the handover; so does a
/// challenge that is not recent. Else the handover goes on with what it has.
pub proof fn law_local_report_and_age_are_checked(
    p: LocalReportToVerify,
    check: LocalReportCheck,
    r: Result<HandoverStep, Status>,
)
    requires
        local_report_checked(p, check, r),
    ensures
        check == LocalReportCheck::Undecodable ==> replies(r, "Invalid client LA report"@),
        check == LocalReportCheck::Rejected ==> replies(r, "No remote handover"@),
        check == LocalReportCheck::Verified ==> {
            let recent = is_recent(
                p.context.handler.challenge.block_number,
                p.context.block_number,
            );
            &&& !recent ==> rejects(r, "Outdated challenge"@)
            &&& recent ==> (r matches Ok(HandoverStep::ReadOwnRuntime(q)) && q.context == p.context
                && q.report == p.report)
        },
{
}

/// The program of the node has to be on the chain, and the report of the client to be there; each
/// refusal has its reason.
pub proof fn law_own_program_is_on_the_chain<P>(
    c: Ceseal<P>,
    p: OwnRuntimeToRead,
    own: OwnRuntime,
    r: Result<HandoverStep, Status>,
)
    requires
        own_runtime_read(c, p, own, r),
    ensures
        own == OwnRuntime::Unreadable ==> replies(r, "Cannot read server ceseal info"@),
        own != OwnRuntime::Unreadable && c.runtime_state is None ==> replies(
            r,
            "Runtime not initialized"@,
        ),
        own == OwnRuntime::NotOnChain && c.runtime_state is Some ==> replies(
            r,
            "Server ceseal not allowed on chain"@,
        ),
        own is AddedAt && c.runtime_state is Some && p.report is None ==> replies(
            r,
            "Client attestation not found"@,
        ),
        c.runtime_state is Some ==> (own matches OwnRuntime::AddedAt(mine) ==> (
        p.report matches Some(report) ==> (r matches Ok(HandoverStep::ReadClientRuntime(q))
            && q.context == p.context && q.report == report && q.my_added_at == mine))),
{
}

/// The key goes to a program that was added to the chain later than that of the node, and to no
/// other; what is encrypted for is what the client answered with.
pub proof fn law_client_program_is_newer(
    p: ClientRuntimeToRead,
    client: ClientRuntime,
    r: Result<HandoverStep, Status>,
)
    requires
        client_runtime_read(p, client, r),
    ensures
        client == ClientRuntime::BadReport ==> replies(r, "Invalid client RA report"@),
        client == ClientRuntime::NotOnChain ==> replies(r, "Client ceseal not allowed on chain"@),
        client matches ClientRuntime::AddedAt(theirs) ==> {
            &&& theirs <= p.my_added_at ==> replies(r, "No handover for old ceseal"@)
            &&& theirs > p.my_added_at ==> (r matches Ok(HandoverStep::EncryptKey(k)) && k.context
                == p.context && k.context.handler.ecdh_pubkey@ == p.context.handler.ecdh_pubkey@
                && k.label@ == "worker_key_handover"@)
        },
{
}

/// What the decoder finds in the attestation of a client is the report whose parts it encodes.
pub proof fn law_validated_report_is_the_sent_one(
    bytes: Seq<u8>,
    report: AttestationReport,
    found: Option<AttestationReport>,
)
    requires
        begins_with_report(bytes, Some(report@)),
        begins_with_report(bytes, report_view(found)),
    ensures
        found matches Some(f) && f.ra_report@ == report.ra_report@ && f.signature@
            == report.signature@ && f.raw_signing_cert@ == report.raw_signing_cert@,
{
    crate::encoding::law_report_read_back(bytes, Some(report@), report_view(found));
}

} // verus!
