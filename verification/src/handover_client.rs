//! The handover of an identity key, on the side that receives it.
//!
//! The checks and the work on the platform take turns. Each method here takes what the platform
//! found and says what is to be done next; the node stays locked all the while.
use crate::attestation::{report_ordered, ReportOrder};
use crate::crypto::{blake2_256, blake2_256_of};
use crate::encoding::{
    begins_with_report, challenge_fits, decode_report, handler_bytes, worker_key_bytes,
    worker_key_fits,
};
use crate::error::{
    from_debug, from_display, internal, internal_err, to_status, CesealServiceError, Status,
};
use crate::runtime::{runtime_info_asked, RuntimeInfoStep};
use crate::scale::MAX_LEN;
use crate::state::Ceseal;
use crate::types::{
    report_view, AccountId, Attestation, AttestationProvider, AttestationReport,
    ChallengeHandlerInfo, EncryptedWorkerKey, H256, HandoverChallenge, HandoverChallengeResponse, ReportView,
};
use vstd::prelude::*;

verus! {

/// A challenge waits for the local report that is made for its author.
#[derive(Debug)]
#[non_exhaustive]
pub struct LocalReportToCreate {
    pub challenge: HandoverChallenge,
    pub ecdh_pubkey: [u8; 32],
}

/// An answer waits for the report that vouches for it.
#[derive(Debug)]
#[non_exhaustive]
pub struct HandlerToAttest {
    pub handler: ChallengeHandlerInfo,
    pub order: ReportOrder,
}

/// What the answer to a challenge goes on with.
#[derive(Debug)]
pub enum AcceptStep {
    CreateLocalReport(LocalReportToCreate),
    CreateReport(HandlerToAttest),
    Done(HandoverChallengeResponse),
}

/// What became of the local report.
#[derive(Debug)]
pub enum LocalReportCreation {
    /// The challenge does not tell for whom to make it.
    BadTargetInfo,
    Failed,
    Created(Vec<u8>),
}

/// The report of the sending node waits to be validated: it has to vouch for `worker_key_hash` at
/// the time `now`, in seconds.
#[derive(Debug)]
#[non_exhaustive]
pub struct ServerReportToValidate {
    pub worker_key: EncryptedWorkerKey,
    pub report: Option<AttestationReport>,
    pub worker_key_hash: H256,
    pub now: u64,
}

/// The received key waits to be decrypted with the secret that was made for it.
#[derive(Debug)]
#[non_exhaustive]
pub struct KeyToDecrypt {
    pub worker_key: EncryptedWorkerKey,
    pub ecdh_key: Vec<u8>,
}

/// The received identity waits to be sealed.
#[derive(Debug)]
#[non_exhaustive]
pub struct RuntimeDataToSave {
    pub genesis_block_hash: H256,
    pub secret: Vec<u8>,
    /// Whether the key is known to be made by a node: it may have been injected.
    pub trusted: bool,
    pub dev_mode: bool,
}

/// What the reception of a key goes on with.
#[derive(Debug)]
pub enum ReceiveStep {
    ValidateReport(ServerReportToValidate),
    Decrypt(KeyToDecrypt),
    Save(RuntimeDataToSave),
}

/// How a challenge is taken up. The secret for the handed over key is replaced before the
/// challenge is looked at.
pub open spec fn challenge_taken_up<P>(
    pre: Ceseal<P>,
    ecdh_key: Vec<u8>,
    ecdh_pubkey: [u8; 32],
    challenge: Result<HandoverChallenge, String>,
    post: Ceseal<P>,
    r: Result<AcceptStep, Status>,
) -> bool {
    &&& post == (Ceseal { handover_ecdh_key: Some(ecdh_key), ..pre })
    &&& match challenge {
        Err(text) => r matches Err(s) && s@ == internal(text@),
        Ok(challenge) => if challenge.dev_mode {
            &&& r matches Ok(AcceptStep::Done(reply))
            &&& reply.handler.challenge == challenge
            &&& reply.handler.sgx_local_report@ == Seq::<u8>::empty()
            &&& reply.handler.ecdh_pubkey == ecdh_pubkey
            &&& reply.attestation is None
        } else {
            r == Ok::<AcceptStep, Status>(
                AcceptStep::CreateLocalReport(LocalReportToCreate { challenge, ecdh_pubkey }),
            )
        },
    }
}

/// What follows once the local report was made, or was not.
pub open spec fn local_report_created<P>(
    c: Ceseal<P>,
    p: LocalReportToCreate,
    creation: LocalReportCreation,
    r: Result<AcceptStep, Status>,
) -> bool {
    match creation {
        LocalReportCreation::BadTargetInfo => r matches Err(s) && s@ == internal(
            "Invalid client sgx target info"@,
        ),
        LocalReportCreation::Failed => r matches Err(s) && s@ == internal(
            "Failed to create client LA report"@,
        ),
        LocalReportCreation::Created(sgx_local_report) => {
            let handler = ChallengeHandlerInfo {
                challenge: p.challenge,
                sgx_local_report,
                ecdh_pubkey: p.ecdh_pubkey,
            };
            &&& r matches Ok(AcceptStep::CreateReport(a))
            &&& a.handler == handler
            &&& report_ordered(
                c.args,
                Some(AttestationProvider::Ias),
                blake2_256_of(handler_bytes(handler@)),
                a.order,
            )
        },
    }
}

/// What follows once the report on the answer was created, or was not.
pub open spec fn handler_attested(
    p: HandlerToAttest,
    outcome: Result<Attestation, CesealServiceError>,
    r: Result<AcceptStep, Status>,
) -> bool {
    match outcome {
        Ok(a) => r == Ok::<AcceptStep, Status>(
            AcceptStep::Done(
                HandoverChallengeResponse { handler: p.handler, attestation: Some(a) },
            ),
        ),
        Err(e) => r matches Err(s) && s@ == internal(e@.text()),
    }
}

/// The key is decrypted with the secret that was made when the challenge was taken up.
pub open spec fn decryption_due<P>(
    c: Ceseal<P>,
    worker_key: EncryptedWorkerKey,
    r: Result<ReceiveStep, Status>,
) -> bool {
    match c.handover_ecdh_key {
        None => r matches Err(s) && s@ == internal("Handover ecdhkey not initialized"@),
        Some(key) => {
            &&& r matches Ok(ReceiveStep::Decrypt(d))
            &&& d.worker_key == worker_key
            &&& d.ecdh_key@ == key@
        },
    }
}

/// How a key is received at the time `now`, with the attestation that came with it.
pub open spec fn key_received<P>(
    c: Ceseal<P>,
    worker_key: Result<EncryptedWorkerKey, String>,
    attestation: Option<Attestation>,
    now: u64,
    r: Result<ReceiveStep, Status>,
) -> bool {
    match worker_key {
        Err(text) => r matches Err(s) && s@ == internal(text@),
        Ok(worker_key) => if worker_key.dev_mode {
            decryption_due(c, worker_key, r)
        } else {
            match attestation {
                None => r matches Err(s) && s@ == internal("Server attestation not found"@),
                Some(a) => {
                    ||| {
                        &&& forall|v: Option<ReportView>| !begins_with_report(a.encoded_report@, v)
                        &&& r matches Err(s)
                        &&& s@ == internal("Decode server attestation failed"@)
                    }
                    ||| {
                        &&& r matches Ok(ReceiveStep::ValidateReport(p))
                        &&& p.worker_key == worker_key
                        &&& begins_with_report(a.encoded_report@, report_view(p.report))
                        &&& p.worker_key_hash@ == blake2_256_of(worker_key_bytes(worker_key@))
                        &&& p.now == now
                    }
                },
            }
        },
    }
}

/// What follows the validation of the sending node's report.
pub open spec fn server_report_validated<P>(
    c: Ceseal<P>,
    p: ServerReportToValidate,
    valid: bool,
    r: Result<ReceiveStep, Status>,
) -> bool {
    if valid {
        decryption_due(c, p.worker_key, r)
    } else {
        r matches Err(s) && s@ == internal("Invalid server RA report"@)
    }
}

/// What follows once the key was decrypted, or was not; a failure is given by its debug form.
pub open spec fn key_decrypted(
    p: KeyToDecrypt,
    outcome: Result<Vec<u8>, String>,
    r: Result<ReceiveStep, Status>,
) -> bool {
    match outcome {
        Err(text) => r matches Err(s) && s@ == internal(text@),
        Ok(secret) => r == Ok::<ReceiveStep, Status>(
            ReceiveStep::Save(
                RuntimeDataToSave {
                    genesis_block_hash: p.worker_key.genesis_block_hash,
                    secret,
                    trusted: false,
                    dev_mode: p.worker_key.dev_mode,
                },
            ),
        ),
    }
}

/// How the reception ends: only when the identity was sealed are the cached answer and the
/// secret for the handed over key forgotten.
pub open spec fn key_saved<P>(
    pre: Ceseal<P>,
    outcome: Result<(), String>,
    post: Ceseal<P>,
    r: Result<(), Status>,
) -> bool {
    match outcome {
        Err(text) => post == pre && (r matches Err(s) && s@ == internal(text@)),
        Ok(_) => r is Ok && post == (Ceseal {
            runtime_info: None,
            handover_ecdh_key: None,
            ..pre
        }),
    }
}

impl<Platform> Ceseal<Platform> {
    /// Takes up a challenge with a fresh key pair, `ecdh_key` and `ecdh_pubkey`, for this
    /// handover alone. The challenge may have been undecodable, with the decoder's text.
    pub fn handover_accept_challenge(
        &mut self,
        ecdh_key: Vec<u8>,
        ecdh_pubkey: [u8; 32],
        challenge: Result<HandoverChallenge, String>,
    ) -> (r: Result<AcceptStep, Status>)
        ensures
            challenge_taken_up(*old(self), ecdh_key, ecdh_pubkey, challenge, *final(self), r),
    {
        self.handover_ecdh_key = Some(ecdh_key);
        let challenge: HandoverChallenge = match challenge {
            Ok(c) => c,
            Err(text) => {
                return Err(from_display(text).into_status());
            },
        };
        if challenge.dev_mode {
            let handler = ChallengeHandlerInfo {
                challenge,
                sgx_local_report: Vec::new(),
                ecdh_pubkey,
            };
            return Ok(AcceptStep::Done(HandoverChallengeResponse { handler, attestation: None }));
        }
        Ok(AcceptStep::CreateLocalReport(LocalReportToCreate { challenge, ecdh_pubkey }))
    }

    /// Goes on with the local report made for the author of the challenge.
    pub fn accept_local_report_created(
        &self,
        p: LocalReportToCreate,
        creation: LocalReportCreation,
    ) -> (r: Result<AcceptStep, Status>)
        requires
            creation matches LocalReportCreation::Created(report) ==> challenge_fits(p.challenge@)
                && report@.len() <= MAX_LEN,
        ensures
            local_report_created(*self, p, creation, r),
    {
        match creation {
            LocalReportCreation::BadTargetInfo => Err(
                internal_err("Invalid client sgx target info"),
            ),
            LocalReportCreation::Failed => Err(internal_err("Failed to create client LA report")),
            LocalReportCreation::Created(sgx_local_report) => {
                let handler = ChallengeHandlerInfo {
                    challenge: p.challenge,
                    sgx_local_report,
                    ecdh_pubkey: p.ecdh_pubkey,
                };
                let handler_hash: H256 = blake2_256(handler.encode().as_slice());
                let order: ReportOrder = self.order_report(
                    Some(AttestationProvider::Ias),
                    handler_hash,
                );
                Ok(AcceptStep::CreateReport(HandlerToAttest { handler, order }))
            },
        }
    }

    /// Ends with the report that vouches for the answer.
    pub fn accept_handler_attested(
        &self,
        p: HandlerToAttest,
        outcome: Result<Attestation, CesealServiceError>,
    ) -> (r: Result<AcceptStep, Status>)
        ensures
            handler_attested(p, outcome, r),
    {
        match outcome {
            Ok(a) => Ok(
                AcceptStep::Done(
                    HandoverChallengeResponse { handler: p.handler, attestation: Some(a) },
                ),
            ),
            Err(e) => Err(e.into_status()),
        }
    }

    /// The key is to be decrypted, if the secret for it is there.
    fn decryption_step(&self, worker_key: EncryptedWorkerKey) -> (r: Result<ReceiveStep, Status>)
        ensures
            decryption_due(*self, worker_key, r),
    {
        match &self.handover_ecdh_key {
            Some(key) => {
                let ecdh_key: Vec<u8> = key.clone();
                assert(ecdh_key@ =~= key@);
                Ok(ReceiveStep::Decrypt(KeyToDecrypt { worker_key, ecdh_key }))
            },
            None => Err(internal_err("Handover ecdhkey not initialized")),
        }
    }

    /// Receives an encrypted key, or one that could not be decoded, with the decoder's text, at
    /// the time `now`, in seconds.
    pub fn handover_receive(
        &self,
        worker_key: Result<EncryptedWorkerKey, String>,
        attestation: Option<Attestation>,
        now: u64,
    ) -> (r: Result<ReceiveStep, Status>)
        requires
            worker_key matches Ok(k) ==> k.dev_mode || worker_key_fits(k@),
        ensures
            key_received(*self, worker_key, attestation, now, r),
    {
        let worker_key: EncryptedWorkerKey = match worker_key {
            Ok(k) => k,
            Err(text) => {
                return Err(to_status(text));
            },
        };
        if worker_key.dev_mode {
            return self.decryption_step(worker_key);
        }
        let worker_key_hash: H256 = blake2_256(worker_key.encode().as_slice());
        let raw: Attestation = match attestation {
            Some(a) => a,
            None => {
                return Err(internal_err("Server attestation not found"));
            },
        };
        match decode_report(raw.encoded_report.as_slice()) {
            Some(report) => Ok(
                ReceiveStep::ValidateReport(
                    ServerReportToValidate { worker_key, report, worker_key_hash, now },
                ),
            ),
            None => Err(internal_err("Decode server attestation failed")),
        }
    }

    /// Goes on after the report of the sending node was held against what it has to vouch for.
    pub fn receive_report_validated(&self, p: ServerReportToValidate, valid: bool) -> (r: Result<
        ReceiveStep,
        Status,
    >)
        ensures
            server_report_validated(*self, p, valid, r),
    {
        if !valid {
            return Err(internal_err("Invalid server RA report"));
        }
        self.decryption_step(p.worker_key)
    }

    /// Goes on with the decrypted sr25519 secret.
    pub fn receive_key_decrypted(
        &self,
        p: KeyToDecrypt,
        outcome: Result<Vec<u8>, String>,
    ) -> (r: Result<ReceiveStep, Status>)
        ensures
            key_decrypted(p, outcome, r),
    {
        match outcome {
            Ok(secret) => Ok(
                ReceiveStep::Save(
                    RuntimeDataToSave {
                        genesis_block_hash: p.worker_key.genesis_block_hash,
                        secret,
                        trusted: false,
                        dev_mode: p.worker_key.dev_mode,
                    },
                ),
            ),
            Err(text) => Err(from_debug(text).into_status()),
        }
    }

    /// Ends after the identity was sealed, or was not.
    pub fn receive_key_saved(&mut self, outcome: Result<(), String>) -> (r: Result<(), Status>)
        ensures
            key_saved(*old(self), outcome, *final(self), r),
    {
        match outcome {
            Ok(_) => {
                self.runtime_info = None;
                self.handover_ecdh_key = None;
                Ok(())
            },
            Err(text) => Err(from_display(text).into_status()),
        }
    }
}

/// After a key was received and sealed, no key can be decrypted before a new challenge is taken
/// up: a received key cannot be sent again.
pub proof fn law_no_second_reception<P>(
    pre: Ceseal<P>,
    post: Ceseal<P>,
    r: Result<(), Status>,
    worker_key: EncryptedWorkerKey,
    again: Result<ReceiveStep, Status>,
)
    requires
        key_saved(pre, Ok(()), post, r),
        decryption_due(post, worker_key, again),
    ensures
        again matches Err(s) && s@ == internal("Handover ecdhkey not initialized"@),
{
}

/// After a key was received and sealed, the answer to the initialisation that was kept for the
/// old key is not given any more.
pub proof fn law_old_answer_is_forgotten<P>(
    pre: Ceseal<P>,
    post: Ceseal<P>,
    r: Result<(), Status>,
    refresh_ra: bool,
    operator: Option<AccountId>,
    now: u64,
    last: Ceseal<P>,
    asked: Result<RuntimeInfoStep, CesealServiceError>,
)
    requires
        key_saved(pre, Ok(()), post, r),
        runtime_info_asked(post, refresh_ra, operator, now, last, asked),
    ensures
        asked is Err,
{
}

/// A key outside development mode is decrypted only after a report that vouches for it was
/// found valid: receiving it never leads to the decryption at once.
pub proof fn law_no_decryption_without_report<P>(
    c: Ceseal<P>,
    worker_key: EncryptedWorkerKey,
    attestation: Option<Attestation>,
    now: u64,
    r: Result<ReceiveStep, Status>,
)
    requires
        key_received(c, Ok(worker_key), attestation, now, r),
        !worker_key.dev_mode,
    ensures
        !(r matches Ok(ReceiveStep::Decrypt(_))),
        r is Ok ==> attestation is Some,
{
}

/// A key in development mode that comes after a challenge was taken up is decrypted with the
/// secret that was made then, and no other.
pub proof fn law_key_meets_its_secret<P>(
    pre: Ceseal<P>,
    ecdh_key: Vec<u8>,
    ecdh_pubkey: [u8; 32],
    challenge: Result<HandoverChallenge, String>,
    post: Ceseal<P>,
    reply: Result<AcceptStep, Status>,
    worker_key: EncryptedWorkerKey,
    attestation: Option<Attestation>,
    now: u64,
    r: Result<ReceiveStep, Status>,
)
    requires
        challenge_taken_up(pre, ecdh_key, ecdh_pubkey, challenge, post, reply),
        worker_key.dev_mode,
        key_received(post, Ok(worker_key), attestation, now, r),
    ensures
        r matches Ok(ReceiveStep::Decrypt(d)) && d.worker_key == worker_key && d.ecdh_key@
            == ecdh_key@,
{
}

/// A received key is never trusted, whatever came with it.
pub proof fn law_received_key_is_not_trusted(
    p: KeyToDecrypt,
    outcome: Result<Vec<u8>, String>,
    data: RuntimeDataToSave,
)
    requires
        key_decrypted(p, outcome, Ok(ReceiveStep::Save(data))),
    ensures
        !data.trusted,
{
}

} // verus!
