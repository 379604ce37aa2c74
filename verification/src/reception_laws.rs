//! What holds of taking up a challenge and receiving a key, from request to reply.
use crate::crypto::blake2_256_of;
use crate::encoding::{begins_with_report, handler_bytes, worker_key_bytes};
use crate::error::{CesealServiceError, Status};
use crate::handover_client::{
    challenge_taken_up, handler_attested, key_decrypted, key_received, key_saved,
    local_report_created, server_report_validated, AcceptStep, HandlerToAttest, KeyToDecrypt,
    LocalReportCreation, LocalReportToCreate, ReceiveStep, RuntimeDataToSave,
    ServerReportToValidate,
};
use crate::node_laws::replies;
use crate::state::Ceseal;
use crate::types::{
    report_view, Attestation, AttestationProvider, EncryptedWorkerKey, HandoverChallenge,
    ReportView,
};
use vstd::prelude::*;

verus! {

/// The identity that is saved at the end of a reception has the chain and the mode of the key that
/// was received, the secret that it was decrypted to, and no trust. A key from a node outside
/// development mode is never saved as a development key.
pub proof fn law_saved_identity_is_the_received_one<P>(
    c: Ceseal<P>,
    worker_key: EncryptedWorkerKey,
    attestation: Option<Attestation>,
    now: u64,
    received: Result<ReceiveStep, Status>,
    validated: Result<ReceiveStep, Status>,
    p: KeyToDecrypt,
    secret: Vec<u8>,
    data: RuntimeDataToSave,
)
    requires
        key_received(c, Ok(worker_key), attestation, now, received),
        received matches Ok(ReceiveStep::ValidateReport(v)) ==> server_report_validated(
            c,
            v,
            true,
            validated,
        ),
        received == Ok::<ReceiveStep, Status>(ReceiveStep::Decrypt(p)) || (received matches Ok(
            ReceiveStep::ValidateReport(_),
        ) && validated == Ok::<ReceiveStep, Status>(ReceiveStep::Decrypt(p))),
        key_decrypted(p, Ok(secret), Ok(ReceiveStep::Save(data))),
    ensures
        data.dev_mode == worker_key.dev_mode,
        data.genesis_block_hash@ == worker_key.genesis_block_hash@,
        data.secret@ == secret@,
        !data.trusted,
{
}

/// A key that was decrypted is saved whole; one that was not is not, and the reply tells why.
pub proof fn law_decrypted_key_is_saved(
    p: KeyToDecrypt,
    outcome: Result<Vec<u8>, String>,
    r: Result<ReceiveStep, Status>,
)
    requires
        key_decrypted(p, outcome, r),
    ensures
        outcome matches Err(text) ==> replies(r, text@),
        outcome matches Ok(secret) ==> {
            &&& r matches Ok(ReceiveStep::Save(data))
            &&& data.secret@ == secret@
            &&& data.dev_mode == p.worker_key.dev_mode
            &&& data.genesis_block_hash@ == p.worker_key.genesis_block_hash@
            &&& !data.trusted
        },
{
}

/// A received key in development mode is decrypted at once; any other only after the report that
/// came with it was asked to be validated, on the hash of the key and at the given time. What is
/// decrypted is the key as it came, with the secret that the node keeps for it.
pub proof fn law_received_key_goes_its_way<P>(
    c: Ceseal<P>,
    worker_key: Result<EncryptedWorkerKey, String>,
    attestation: Option<Attestation>,
    now: u64,
    r: Result<ReceiveStep, Status>,
)
    requires
        key_received(c, worker_key, attestation, now, r),
    ensures
        worker_key matches Err(text) ==> replies(r, text@),
        worker_key matches Ok(w) ==> {
            &&& w.dev_mode && c.handover_ecdh_key is None ==> replies(
                r,
                "Handover ecdhkey not initialized"@,
            )
            &&& w.dev_mode ==> (c.handover_ecdh_key matches Some(key) ==> (r matches Ok(
                ReceiveStep::Decrypt(d),
            ) && d.worker_key == w && d.ecdh_key@ == key@))
            &&& !w.dev_mode && attestation is None ==> replies(r, "Server attestation not found"@)
            &&& !w.dev_mode ==> (attestation matches Some(a) ==> {
                &&& r is Err ==> replies(r, "Decode server attestation failed"@)
                &&& r is Ok <==> exists|v: Option<ReportView>|
                    #[trigger] begins_with_report(a.encoded_report@, v)
                &&& r matches Ok(step) ==> {
                    &&& step matches ReceiveStep::ValidateReport(p)
                    &&& p.worker_key == w
                    &&& begins_with_report(a.encoded_report@, report_view(p.report))
                    &&& p.worker_key_hash@ == blake2_256_of(worker_key_bytes(w@))
                    &&& p.now == now
                }
            })
        },
{
    if worker_key is Ok && !worker_key->Ok_0.dev_mode && attestation is Some && r is Ok {
        let p = r->Ok_0->ValidateReport_0;
        assert(begins_with_report(attestation->0.encoded_report@, report_view(p.report)));
    }
}

/// A report that is not valid ends the reception; after a valid one the key as it came is decrypted
/// with the secret that the node keeps for it.
pub proof fn law_valid_report_leads_to_decryption<P>(
    c: Ceseal<P>,
    p: ServerReportToValidate,
    valid: bool,
    r: Result<ReceiveStep, Status>,
)
    requires
        server_report_validated(c, p, valid, r),
    ensures
        !valid ==> replies(r, "Invalid server RA report"@),
        valid && c.handover_ecdh_key is None ==> replies(r, "Handover ecdhkey not initialized"@),
        valid ==> (c.handover_ecdh_key matches Some(key) ==> (r matches Ok(ReceiveStep::Decrypt(d))
            && d.worker_key == p.worker_key && d.ecdh_key@ == key@)),
{
}

/// Once the identity is sealed, the kept answer and the secret are gone and nothing else changes; a
/// failure is told and changes nothing.
pub proof fn law_sealing_ends_the_reception<P>(
    pre: Ceseal<P>,
    outcome: Result<(), String>,
    post: Ceseal<P>,
    r: Result<(), Status>,
)
    requires
        key_saved(pre, outcome, post, r),
    ensures
        outcome matches Err(text) ==> post == pre && replies(r, text@),
        outcome is Ok ==> r is Ok && post.runtime_info is None && post.handover_ecdh_key is None,
        pre == (Ceseal {
            runtime_info: pre.runtime_info,
            handover_ecdh_key: pre.handover_ecdh_key,
            ..post
        }),
{
}

/// Taking up a challenge keeps the new secret, whatever becomes of the challenge, and changes
/// nothing else. In the development mode of the challenge the answer is there at once, with the
/// challenge as it came, the public key of the secret, no local report and no attestation; else a
/// local report is asked for, for the challenge as it came.
pub proof fn law_challenge_is_taken_up_with_a_new_secret<P>(
    pre: Ceseal<P>,
    ecdh_key: Vec<u8>,
    ecdh_pubkey: [u8; 32],
    challenge: Result<HandoverChallenge, String>,
    post: Ceseal<P>,
    r: Result<AcceptStep, Status>,
)
    requires
        challenge_taken_up(pre, ecdh_key, ecdh_pubkey, challenge, post, r),
    ensures
        post.handover_ecdh_key matches Some(key) && key@ == ecdh_key@,
        pre == (Ceseal { handover_ecdh_key: pre.handover_ecdh_key, ..post }),
        challenge matches Err(text) ==> replies(r, text@),
        challenge matches Ok(c) ==> {
            &&& c.dev_mode ==> (r matches Ok(AcceptStep::Done(reply)) && reply.handler.challenge
                == c && reply.handler.ecdh_pubkey@ == ecdh_pubkey@
                && reply.handler.sgx_local_report@.len() == 0 && reply.attestation is None)
            &&& !c.dev_mode ==> (r matches Ok(AcceptStep::CreateLocalReport(p)) && p.challenge == c
                && p.ecdh_pubkey@ == ecdh_pubkey@)
        },
{
}

/// The answer to a challenge outside development mode holds the challenge and the public key as
/// they were taken up, the local report as it was made, and the attestation that was created on
/// the hash of just that.
pub proof fn law_answer_holds_what_was_taken_up<P>(
    c: Ceseal<P>,
    p: LocalReportToCreate,
    report: Vec<u8>,
    r: Result<AcceptStep, Status>,
    attestation: Attestation,
    last: Result<AcceptStep, Status>,
)
    requires
        local_report_created(c, p, LocalReportCreation::Created(report), r),
        r matches Ok(AcceptStep::CreateReport(a)) ==> handler_attested(a, Ok(attestation), last),
    ensures
        r matches Ok(AcceptStep::CreateReport(a)) && {
            &&& a.order.provider == Some(AttestationProvider::Ias)
            &&& a.order.hash@ == blake2_256_of(handler_bytes(a.handler@))
            &&& a.order.timeout_ms == c.args.ra_timeout_ms
            &&& a.order.max_retries == c.args.ra_max_retries
            &&& last matches Ok(AcceptStep::Done(reply))
            &&& reply.handler == a.handler
            &&& reply.handler.challenge == p.challenge
            &&& reply.handler.sgx_local_report@ == report@
            &&& reply.handler.ecdh_pubkey@ == p.ecdh_pubkey@
            &&& reply.attestation == Some(attestation)
        },
{
}

/// Each failure on the way of an answer has its reason.
pub proof fn law_answer_stops_for_a_reason<P>(
    c: Ceseal<P>,
    p: LocalReportToCreate,
    bad_target: Result<AcceptStep, Status>,
    failed: Result<AcceptStep, Status>,
    a: HandlerToAttest,
    text: String,
    last: Result<AcceptStep, Status>,
)
    requires
        local_report_created(c, p, LocalReportCreation::BadTargetInfo, bad_target),
        local_report_created(c, p, LocalReportCreation::Failed, failed),
        handler_attested(a, Err(CesealServiceError::AppError(text)), last),
    ensures
        replies(bad_target, "Invalid client sgx target info"@),
        replies(failed, "Failed to create client LA report"@),
        replies(last, text@),
{
}

} // verus!
