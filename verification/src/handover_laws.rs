//! What holds of a whole handover, from its opening to the reply.
use crate::challenge::{challenge_created, challenge_expected, challenge_in_time};
use crate::crypto::blake2_256_of;
use crate::encoding::{begins_with_report, handler_bytes, law_report_read_back};
use crate::error::{CesealServiceError, Status};
use crate::handover_client::{
    challenge_taken_up, key_received, local_report_created, AcceptStep, HandlerToAttest,
    LocalReportCreation, LocalReportToCreate, ReceiveStep, ServerReportToValidate,
};
use crate::handover_server::{
    client_runtime_read, demands_attestation, handover_opened, key_attested, key_encrypted,
    local_report_checked, own_runtime_read, report_validated, ClientRuntime, HandoverStep,
    KeyToAttest, KeyToEncrypt, LocalReportCheck, OwnRuntime, ReportToValidate,
};
use crate::state::{current_block_of, Ceseal};
use crate::types::{
    report_view, Attestation, ChallengeHandlerInfo, EncryptedKey, EncryptedWorkerKey,
    HandoverChallenge, HandoverWorkerKey, ReportView,
};
use vstd::prelude::*;

verus! {

/// What the platform found between two steps of a handover.
pub enum HandoverEvent {
    ReportValidated(bool),
    LocalReportChecked(LocalReportCheck),
    OwnRuntimeRead(OwnRuntime),
    ClientRuntimeRead(ClientRuntime),
    KeyEncrypted(Result<EncryptedKey, String>),
    KeyAttested(Result<Attestation, CesealServiceError>),
}

/// The node goes from `pre` and `step` to `post` and `next` when the platform finds `event`.
pub open spec fn handover_moves<P>(
    pre: Ceseal<P>,
    step: HandoverStep,
    event: HandoverEvent,
    post: Ceseal<P>,
    next: HandoverStep,
) -> bool {
    let r: Result<HandoverStep, Status> = Ok(next);
    match (step, event) {
        (
            HandoverStep::ValidateReport(p),
            HandoverEvent::ReportValidated(valid),
        ) => report_validated(pre, p, valid, post, r),
        (
            HandoverStep::VerifyLocalReport(p),
            HandoverEvent::LocalReportChecked(check),
        ) => post == pre && local_report_checked(p, check, r),
        (
            HandoverStep::ReadOwnRuntime(p),
            HandoverEvent::OwnRuntimeRead(own),
        ) => post == pre && own_runtime_read(pre, p, own, r),
        (
            HandoverStep::ReadClientRuntime(p),
            HandoverEvent::ClientRuntimeRead(client),
        ) => post == pre && client_runtime_read(p, client, r),
        (
            HandoverStep::EncryptKey(p),
            HandoverEvent::KeyEncrypted(outcome),
        ) => post == pre && key_encrypted(pre, p, outcome, r),
        (
            HandoverStep::CreateReport(p),
            HandoverEvent::KeyAttested(outcome),
        ) => post == pre && key_attested(p, outcome, r),
        _ => false,
    }
}

/// The handover goes on from its step with the number `i`.
pub open spec fn goes_on<P>(
    states: Seq<Ceseal<P>>,
    steps: Seq<HandoverStep>,
    events: Seq<HandoverEvent>,
    i: int,
) -> bool {
    handover_moves(states[i], steps[i], events[i], states[i + 1], steps[i + 1])
}

/// A handover in which no check failed: `states` and `steps` as it goes on, and what the platform
/// found between each two of them.
pub open spec fn is_handover<P>(
    pre: Ceseal<P>,
    handler: ChallengeHandlerInfo,
    attestation: Option<Attestation>,
    states: Seq<Ceseal<P>>,
    steps: Seq<HandoverStep>,
    events: Seq<HandoverEvent>,
) -> bool {
    &&& steps.len() == events.len() + 1
    &&& states.len() == steps.len()
    &&& handover_opened(pre, Ok(handler), attestation, states[0], Ok(steps[0]))
    &&& forall|i: int|
        0 <= i < events.len() ==> #[trigger] goes_on(states, steps, events, i)
}

/// The client passed the checks that an enclave demands: its report was valid for its answer, its
/// local report was made on this machine, and its program was added to the chain later than the
/// program of this node.
pub open spec fn passed_enclave_checks(
    handler: ChallengeHandlerInfo,
    attestation: Option<Attestation>,
    steps: Seq<HandoverStep>,
    events: Seq<HandoverEvent>,
) -> bool {
    &&& events.len() == 6
    &&& attestation matches Some(a) && steps[0] matches HandoverStep::ValidateReport(p)
        && begins_with_report(a.encoded_report@, report_view(p.report)) && p.payload_hash@
        == blake2_256_of(handler_bytes(handler@))
    &&& events[0] == HandoverEvent::ReportValidated(true)
    &&& events[1] == HandoverEvent::LocalReportChecked(LocalReportCheck::Verified)
    &&& events[2] matches HandoverEvent::OwnRuntimeRead(OwnRuntime::AddedAt(mine))
        && events[3] matches HandoverEvent::ClientRuntimeRead(ClientRuntime::AddedAt(theirs))
        && mine < theirs
}

/// A handover ends with a reply only if the client answered the challenge that was given out
/// last, in time, and, where the node demands attestation, passed the checks of the enclave; the
/// reply is then attested. The challenge is spent.
pub proof fn law_reply_needs_all_checks<P>(
    pre: Ceseal<P>,
    handler: ChallengeHandlerInfo,
    attestation: Option<Attestation>,
    states: Seq<Ceseal<P>>,
    steps: Seq<HandoverStep>,
    events: Seq<HandoverEvent>,
    reply: HandoverWorkerKey,
)
    requires
        is_handover(pre, handler, attestation, states, steps, events),
        steps.last() == HandoverStep::Done(reply),
    ensures
        pre.runtime_state matches Some(state) && {
            &&& challenge_expected(pre, handler.challenge@)
            &&& challenge_in_time(handler.challenge.block_number, current_block_of(state).0)
            &&& reply.worker_key.genesis_block_hash == state.genesis_block_hash
        },
        reply.worker_key.dev_mode == pre.dev_mode,
        demands_attestation(pre) ==> passed_enclave_checks(handler, attestation, steps, events)
            && reply.attestation is Some,
        !demands_attestation(pre) ==> reply.attestation is None,
        states.last() == (Ceseal { handover_last_challenge: None, ..pre }),
{
    let n = events.len() as int;
    if demands_attestation(pre) {
        assert(steps[0] is ValidateReport);
        assert(n > 0);
        assert(goes_on(states, steps, events, 0));
        assert(steps[1] is VerifyLocalReport);
        assert(n > 1);
        assert(goes_on(states, steps, events, 1));
        assert(steps[2] is ReadOwnRuntime);
        assert(n > 2);
        assert(goes_on(states, steps, events, 2));
        assert(steps[3] is ReadClientRuntime);
        assert(n > 3);
        assert(goes_on(states, steps, events, 3));
        assert(steps[4] is EncryptKey);
        assert(n > 4);
        assert(goes_on(states, steps, events, 4));
        assert(steps[5] is CreateReport);
        assert(n > 5);
        assert(goes_on(states, steps, events, 5));
        assert(steps[6] is Done);
        if n > 6 {
            assert(goes_on(states, steps, events, 6));
        }
    } else {
        assert(steps[0] is EncryptKey);
        assert(n > 0);
        assert(goes_on(states, steps, events, 0));
        assert(steps[1] is Done);
        if n > 1 {
            assert(goes_on(states, steps, events, 1));
        }
    }
}

/// In development mode, a challenge that one node gives out and another takes up leads to the
/// encryption of the key, if the answer comes back while the challenge is in time and no other
/// challenge was given out or answered since.
pub proof fn law_honest_handover_in_development<P, Q>(
    server: Ceseal<P>,
    sgx_target_info: Vec<u8>,
    nonce: [u8; 32],
    asked: Ceseal<P>,
    challenge: HandoverChallenge,
    client: Ceseal<Q>,
    ecdh_key: Vec<u8>,
    ecdh_pubkey: [u8; 32],
    received: HandoverChallenge,
    taken_up: Ceseal<Q>,
    reply: Result<AcceptStep, Status>,
    later: Ceseal<P>,
    handler: ChallengeHandlerInfo,
    attestation: Option<Attestation>,
    last: Ceseal<P>,
    r: Result<HandoverStep, Status>,
)
    requires
        server.dev_mode,
        challenge_created(server, sgx_target_info, nonce, asked, Ok(challenge)),
        received@ == challenge@,
        challenge_taken_up(client, ecdh_key, ecdh_pubkey, Ok(received), taken_up, reply),
        reply matches Ok(AcceptStep::Done(answer)) ==> handler@ == answer.handler@,
        later.dev_mode,
        later.handover_last_challenge == asked.handover_last_challenge,
        later.runtime_state matches Some(state) && challenge_in_time(
            challenge.block_number,
            current_block_of(state).0,
        ),
        handover_opened(later, Ok(handler), attestation, last, r),
    ensures
        reply matches Ok(AcceptStep::Done(answer)) && answer.attestation is None,
        r matches Ok(HandoverStep::EncryptKey(k)) && k.context.handler == handler,
{
    assert(received.dev_mode == received@.dev_mode);
    assert(handler.challenge@ == challenge@);
    assert(handler.challenge.block_number == handler.challenge@.block_number);
}

/// Where the node demands attestation, the report that a client has created for its answer is
/// held against the very hash that it was created for.
pub proof fn law_answer_is_validated_as_attested<P, Q>(
    client: Ceseal<Q>,
    p: LocalReportToCreate,
    sgx_local_report: Vec<u8>,
    attested: HandlerToAttest,
    server: Ceseal<P>,
    handler: ChallengeHandlerInfo,
    attestation: Option<Attestation>,
    post: Ceseal<P>,
    checked: ReportToValidate,
)
    requires
        local_report_created(
            client,
            p,
            LocalReportCreation::Created(sgx_local_report),
            Ok(AcceptStep::CreateReport(attested)),
        ),
        handler@ == attested.handler@,
        handover_opened(
            server,
            Ok(handler),
            attestation,
            post,
            Ok(HandoverStep::ValidateReport(checked)),
        ),
    ensures
        checked.payload_hash@ == attested.order.hash@,
{
}

/// The report that a node has created for the key it hands over is held against the very hash
/// that it was created for.
pub proof fn law_key_is_validated_as_attested<P, Q>(
    server: Ceseal<P>,
    p: KeyToEncrypt,
    encrypted_key: EncryptedKey,
    attested: KeyToAttest,
    client: Ceseal<Q>,
    worker_key: EncryptedWorkerKey,
    attestation: Option<Attestation>,
    now: u64,
    checked: ServerReportToValidate,
)
    requires
        key_encrypted(server, p, Ok(encrypted_key), Ok(HandoverStep::CreateReport(attested))),
        worker_key@ == attested.worker_key@,
        key_received(
            client,
            Ok(worker_key),
            attestation,
            now,
            Ok(ReceiveStep::ValidateReport(checked)),
        ),
    ensures
        checked.worker_key_hash@ == attested.order.hash@,
{
}

/// Where the node demands attestation, a client that answers the expected challenge in time, with
/// a report that can be read, gets the key once every check of the platform is passed.
pub proof fn law_honest_handover_in_enclave<P>(
    pre: Ceseal<P>,
    handler: ChallengeHandlerInfo,
    attestation: Attestation,
    report: ReportView,
    opened: Ceseal<P>,
    r0: Result<HandoverStep, Status>,
    checked: Ceseal<P>,
    r1: Result<HandoverStep, Status>,
    r2: Result<HandoverStep, Status>,
    mine: u64,
    r3: Result<HandoverStep, Status>,
    theirs: u64,
    r4: Result<HandoverStep, Status>,
    encrypted_key: EncryptedKey,
    r5: Result<HandoverStep, Status>,
    own_attestation: Attestation,
    r6: Result<HandoverStep, Status>,
)
    requires
        demands_attestation(pre),
        pre.runtime_state matches Some(state) && challenge_in_time(
            handler.challenge.block_number,
            current_block_of(state).0,
        ),
        challenge_expected(pre, handler.challenge@),
        begins_with_report(attestation.encoded_report@, Some(report)),
        mine < theirs,
        handover_opened(pre, Ok(handler), Some(attestation), opened, r0),
        r0 matches Ok(HandoverStep::ValidateReport(p)) ==> report_validated(
            opened,
            p,
            true,
            checked,
            r1,
        ),
        r1 matches Ok(HandoverStep::VerifyLocalReport(p)) ==> local_report_checked(
            p,
            LocalReportCheck::Verified,
            r2,
        ),
        r2 matches Ok(HandoverStep::ReadOwnRuntime(p)) ==> own_runtime_read(
            checked,
            p,
            OwnRuntime::AddedAt(mine),
            r3,
        ),
        r3 matches Ok(HandoverStep::ReadClientRuntime(p)) ==> client_runtime_read(
            p,
            ClientRuntime::AddedAt(theirs),
            r4,
        ),
        r4 matches Ok(HandoverStep::EncryptKey(p)) ==> key_encrypted(
            checked,
            p,
            Ok(encrypted_key),
            r5,
        ),
        r5 matches Ok(HandoverStep::CreateReport(p)) ==> key_attested(p, Ok(own_attestation), r6),
    ensures
        r6 matches Ok(HandoverStep::Done(reply)) && reply.worker_key.encrypted_key == encrypted_key
            && reply.attestation == Some(own_attestation),
{
    assert(r0 matches Ok(HandoverStep::ValidateReport(p)) && report_view(p.report) == Some(report))
        by {
        assert(!(forall|v: Option<ReportView>|
            !begins_with_report(attestation.encoded_report@, v)));
        assert(r0 is Ok);
        let p = r0->Ok_0->ValidateReport_0;
        law_report_read_back(attestation.encoded_report@, report_view(p.report), Some(report));
    }
}

} // verus!
