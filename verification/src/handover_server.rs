//! The handover of the identity key to another node, on the side that owns the key.
//!
//! The checks and the work on the platform take turns. Each method here takes what the platform
//! found and says what is to be done next; the node stays locked all the while.
use crate::attestation::{report_ordered, ReportOrder};
use crate::challenge::{challenge_expected, challenge_in_time, in_time};
use crate::crypto::{blake2_256, blake2_256_of};
use crate::encoding::{
    begins_with_report, decode_report, handler_bytes, handler_fits, worker_key_bytes,
};
use crate::error::{
    from_debug, from_display, internal, internal_err, invalid_argument, CesealServiceError, Status,
};
use crate::scale::MAX_LEN;
use crate::state::{current_block_of, Ceseal};
use crate::types::{
    report_view, Attestation, AttestationProvider, AttestationReport, BlockNumber,
    ChallengeHandlerInfo, EncryptedKey, EncryptedWorkerKey, H256, HandoverWorkerKey, ReportView,
};
use vstd::prelude::*;

verus! {

/// What a handover was opened with.
#[derive(Debug)]
#[non_exhaustive]
pub struct HandoverContext {
    pub dev_mode: bool,
    pub in_sgx: bool,
    /// The block that was handled last when the handover was opened.
    pub block_number: BlockNumber,
    pub handler: ChallengeHandlerInfo,
}

/// The report of the client waits to be validated: it has to vouch for `payload_hash` at the
/// time `block_sec`, in seconds.
#[derive(Debug)]
#[non_exhaustive]
pub struct ReportToValidate {
    pub context: HandoverContext,
    pub report: Option<AttestationReport>,
    pub payload_hash: H256,
    pub block_sec: u64,
}

/// The local report of the client waits to be verified on this machine.
#[derive(Debug)]
#[non_exhaustive]
pub struct LocalReportToVerify {
    pub context: HandoverContext,
    pub report: Option<AttestationReport>,
}

/// It waits to be found when the program of this node was added to the chain.
#[derive(Debug)]
#[non_exhaustive]
pub struct OwnRuntimeToRead {
    pub context: HandoverContext,
    pub report: Option<AttestationReport>,
}

/// It waits to be found when the program named in the client's report was added to the chain.
#[derive(Debug)]
#[non_exhaustive]
pub struct ClientRuntimeToRead {
    pub context: HandoverContext,
    pub report: AttestationReport,
    /// When the program of this node was added.
    pub my_added_at: u64,
}

/// All checks are passed: the key is to be encrypted for the client, under a key derived with
/// `label`.
#[derive(Debug)]
#[non_exhaustive]
pub struct KeyToEncrypt {
    pub context: HandoverContext,
    pub label: &'static str,
}

/// The encrypted key waits for the report that vouches for it.
#[derive(Debug)]
#[non_exhaustive]
pub struct KeyToAttest {
    pub worker_key: EncryptedWorkerKey,
    pub order: ReportOrder,
}

/// What a handover goes on with.
#[derive(Debug)]
pub enum HandoverStep {
    ValidateReport(ReportToValidate),
    VerifyLocalReport(LocalReportToVerify),
    ReadOwnRuntime(OwnRuntimeToRead),
    ReadClientRuntime(ClientRuntimeToRead),
    EncryptKey(KeyToEncrypt),
    CreateReport(KeyToAttest),
    Done(HandoverWorkerKey),
}

/// What became of the local report of the client.
#[derive(Clone, Copy, Debug, PartialEq, Eq, Structural)]
pub enum LocalReportCheck {
    Undecodable,
    /// It was not made on this machine.
    Rejected,
    Verified,
}

/// When the program of this node was added to the chain.
#[derive(Clone, Copy, Debug, PartialEq, Eq, Structural)]
pub enum OwnRuntime {
    /// The enclave could not report on itself.
    Unreadable,
    NotOnChain,
    AddedAt(u64),
}

/// When the program of the client was added to the chain.
#[derive(Clone, Copy, Debug, PartialEq, Eq, Structural)]
pub enum ClientRuntime {
    /// The report does not tell which program runs.
    BadReport,
    NotOnChain,
    AddedAt(u64),
}

/// The reply is refused with an internal error.
pub open spec fn refused(r: Result<HandoverStep, Status>, message: Seq<char>) -> bool {
    r matches Err(s) && s@ == internal(message)
}

/// The reply is refused because of what was asked.
pub open spec fn rejected(r: Result<HandoverStep, Status>, message: Seq<char>) -> bool {
    r matches Err(s) && s@ == invalid_argument(message)
}

/// The node demands attestation: it is not in development mode and runs in an enclave.
pub open spec fn demands_attestation<P>(c: Ceseal<P>) -> bool {
    !c.dev_mode && c.attestation_provider == Some(AttestationProvider::Ias)
}

/// The key of a handover that is to be encrypted.
pub open spec fn key_to_encrypt(context: HandoverContext) -> KeyToEncrypt {
    KeyToEncrypt { context, label: "worker_key_handover" }
}

/// How a handover is opened with the answer of the client and its attestation.
pub open spec fn handover_opened<P>(
    pre: Ceseal<P>,
    handler: Result<ChallengeHandlerInfo, String>,
    attestation: Option<Attestation>,
    post: Ceseal<P>,
    r: Result<HandoverStep, Status>,
) -> bool {
    match (pre.runtime_state, handler) {
        (None, _) => post == pre && refused(r, "Runtime not initialized"@),
        (Some(_), Err(text)) => post == pre && refused(r, text@),
        (Some(state), Ok(handler)) => {
            let context = HandoverContext {
                dev_mode: pre.dev_mode,
                in_sgx: pre.attestation_provider == Some(AttestationProvider::Ias),
                block_number: current_block_of(state).0,
                handler,
            };
            if demands_attestation(pre) {
                &&& post == pre
                &&& match attestation {
                    None => refused(r, "Client attestation not found"@),
                    Some(a) => {
                        ||| {
                            &&& forall|v: Option<ReportView>|
                                !begins_with_report(a.encoded_report@, v)
                            &&& refused(r, "Decode client attestation failed"@)
                        }
                        ||| {
                            &&& r matches Ok(HandoverStep::ValidateReport(p))
                            &&& p.context == context
                            &&& begins_with_report(a.encoded_report@, report_view(p.report))
                            &&& p.payload_hash@ == blake2_256_of(handler_bytes(handler@))
                            &&& p.block_sec == current_block_of(state).1 / 1000
                        }
                    },
                }
            } else {
                &&& post == (Ceseal { handover_last_challenge: None, ..pre })
                &&& if !challenge_expected(pre, handler.challenge@) {
                    rejected(r, "Invalid challenge"@)
                } else if !challenge_in_time(
                    handler.challenge.block_number,
                    context.block_number,
                ) {
                    rejected(r, "Outdated challenge"@)
                } else {
                    r == Ok::<HandoverStep, Status>(
                        HandoverStep::EncryptKey(key_to_encrypt(context)),
                    )
                }
            }
        },
    }
}

/// What follows the validation of the client's report: the challenge is checked and spent.
pub open spec fn report_validated<P>(
    pre: Ceseal<P>,
    p: ReportToValidate,
    valid: bool,
    post: Ceseal<P>,
    r: Result<HandoverStep, Status>,
) -> bool {
    if !valid {
        post == pre && refused(r, "Invalid client RA report"@)
    } else {
        &&& post == (Ceseal { handover_last_challenge: None, ..pre })
        &&& if !challenge_expected(pre, p.context.handler.challenge@) {
            rejected(r, "Invalid challenge"@)
        } else {
            r == Ok::<HandoverStep, Status>(
                HandoverStep::VerifyLocalReport(
                    LocalReportToVerify { context: p.context, report: p.report },
                ),
            )
        }
    }
}

/// What follows the check of the client's local report: the age of the challenge is checked.
pub open spec fn local_report_checked(
    p: LocalReportToVerify,
    check: LocalReportCheck,
    r: Result<HandoverStep, Status>,
) -> bool {
    match check {
        LocalReportCheck::Undecodable => refused(r, "Invalid client LA report"@),
        LocalReportCheck::Rejected => refused(r, "No remote handover"@),
        LocalReportCheck::Verified => if !challenge_in_time(
            p.context.handler.challenge.block_number,
            p.context.block_number,
        ) {
            rejected(r, "Outdated challenge"@)
        } else {
            r == Ok::<HandoverStep, Status>(
                HandoverStep::ReadOwnRuntime(
                    OwnRuntimeToRead { context: p.context, report: p.report },
                ),
            )
        },
    }
}

/// What follows once it is known when the program of this node was added to the chain.
pub open spec fn own_runtime_read<P>(
    c: Ceseal<P>,
    p: OwnRuntimeToRead,
    own: OwnRuntime,
    r: Result<HandoverStep, Status>,
) -> bool {
    match own {
        OwnRuntime::Unreadable => refused(r, "Cannot read server ceseal info"@),
        _ if c.runtime_state is None => refused(r, "Runtime not initialized"@),
        OwnRuntime::NotOnChain => refused(r, "Server ceseal not allowed on chain"@),
        OwnRuntime::AddedAt(my_added_at) => match p.report {
            None => refused(r, "Client attestation not found"@),
            Some(report) => r == Ok::<HandoverStep, Status>(
                HandoverStep::ReadClientRuntime(
                    ClientRuntimeToRead { context: p.context, report, my_added_at },
                ),
            ),
        },
    }
}

/// What follows once it is known when the program of the client was added to the chain: the key
/// is handed over to a newer program only.
pub open spec fn client_runtime_read(
    p: ClientRuntimeToRead,
    client: ClientRuntime,
    r: Result<HandoverStep, Status>,
) -> bool {
    match client {
        ClientRuntime::BadReport => refused(r, "Invalid client RA report"@),
        ClientRuntime::NotOnChain => refused(r, "Client ceseal not allowed on chain"@),
        ClientRuntime::AddedAt(added_at) => if p.my_added_at >= added_at {
            refused(r, "No handover for old ceseal"@)
        } else {
            r == Ok::<HandoverStep, Status>(
                HandoverStep::EncryptKey(key_to_encrypt(p.context)),
            )
        },
    }
}

/// What follows once the key is encrypted; a failure is given by its text.
pub open spec fn key_encrypted<P>(
    c: Ceseal<P>,
    p: KeyToEncrypt,
    outcome: Result<EncryptedKey, String>,
    r: Result<HandoverStep, Status>,
) -> bool {
    match (outcome, c.runtime_state) {
        (Err(text), _) => refused(r, text@),
        (Ok(_), None) => refused(r, "Runtime not initialized"@),
        (Ok(encrypted_key), Some(state)) => {
            let worker_key = EncryptedWorkerKey {
                genesis_block_hash: state.genesis_block_hash,
                dev_mode: p.context.dev_mode,
                encrypted_key,
            };
            if !p.context.dev_mode && p.context.in_sgx {
                &&& r matches Ok(HandoverStep::CreateReport(k))
                &&& k.worker_key == worker_key
                &&& report_ordered(
                    c.args,
                    Some(AttestationProvider::Ias),
                    blake2_256_of(worker_key_bytes(worker_key@)),
                    k.order,
                )
            } else {
                r == Ok::<HandoverStep, Status>(
                    HandoverStep::Done(HandoverWorkerKey { worker_key, attestation: None }),
                )
            }
        },
    }
}

/// What follows once the report on the encrypted key was created, or was not.
pub open spec fn key_attested(
    p: KeyToAttest,
    outcome: Result<Attestation, CesealServiceError>,
    r: Result<HandoverStep, Status>,
) -> bool {
    match outcome {
        Ok(a) => r == Ok::<HandoverStep, Status>(
            HandoverStep::Done(
                HandoverWorkerKey { worker_key: p.worker_key, attestation: Some(a) },
            ),
        ),
        Err(e) => refused(r, e@.text()),
    }
}

impl<Platform> Ceseal<Platform> {
    /// Opens the handover of the key to the client that answered a challenge with `handler`,
    /// or whose answer could not be decoded, with the decoder's text.
    pub fn handover_start(
        &mut self,
        handler: Result<ChallengeHandlerInfo, String>,
        attestation: Option<Attestation>,
    ) -> (r: Result<HandoverStep, Status>)
        requires
            demands_attestation(*old(self)) && old(self).runtime_state is Some ==> (
            handler matches Ok(h) ==> handler_fits(h@)),
        ensures
            handover_opened(*old(self), handler, attestation, *final(self), r),
    {
        let in_sgx: bool = match self.attestation_provider {
            Some(AttestationProvider::Ias) => true,
            _ => false,
        };
        let dev_mode: bool = self.dev_mode;
        let (block_number, now_ms) = match self.current_block() {
            Ok(b) => b,
            Err(e) => {
                return Err(e.into_status());
            },
        };
        let handler: ChallengeHandlerInfo = match handler {
            Ok(h) => h,
            Err(text) => {
                return Err(from_display(text).into_status());
            },
        };
        if !dev_mode && in_sgx {
            let payload_hash: H256 = blake2_256(handler.encode().as_slice());
            let raw: Attestation = match attestation {
                Some(a) => a,
                None => {
                    return Err(internal_err("Client attestation not found"));
                },
            };
            let report: Option<AttestationReport> = match decode_report(
                raw.encoded_report.as_slice(),
            ) {
                Some(report) => report,
                None => {
                    return Err(internal_err("Decode client attestation failed"));
                },
            };
            let context = HandoverContext { dev_mode, in_sgx, block_number, handler };
            return Ok(
                HandoverStep::ValidateReport(
                    ReportToValidate { context, report, payload_hash, block_sec: now_ms / 1000 },
                ),
            );
        }
        if !self.verify_worker_key_challenge(&handler.challenge) {
            return Err(Status::invalid_argument("Invalid challenge".to_string()));
        }
        if !in_time(handler.challenge.block_number, block_number) {
            return Err(Status::invalid_argument("Outdated challenge".to_string()));
        }
        let context = HandoverContext { dev_mode, in_sgx, block_number, handler };
        Ok(HandoverStep::EncryptKey(KeyToEncrypt { context, label: "worker_key_handover" }))
    }

    /// Goes on after the client's report was held against what it has to vouch for.
    pub fn handover_report_validated(&mut self, p: ReportToValidate, valid: bool) -> (r: Result<
        HandoverStep,
        Status,
    >)
        ensures
            report_validated(*old(self), p, valid, *final(self), r),
    {
        if !valid {
            return Err(internal_err("Invalid client RA report"));
        }
        if !self.verify_worker_key_challenge(&p.context.handler.challenge) {
            return Err(Status::invalid_argument("Invalid challenge".to_string()));
        }
        Ok(
            HandoverStep::VerifyLocalReport(
                LocalReportToVerify { context: p.context, report: p.report },
            ),
        )
    }

    /// Goes on after the local report of the client was verified on this machine.
    pub fn handover_local_report_checked(
        &self,
        p: LocalReportToVerify,
        check: LocalReportCheck,
    ) -> (r: Result<HandoverStep, Status>)
        ensures
            local_report_checked(p, check, r),
    {
        match check {
            LocalReportCheck::Undecodable => Err(internal_err("Invalid client LA report")),
            LocalReportCheck::Rejected => Err(internal_err("No remote handover")),
            LocalReportCheck::Verified => {
                if !in_time(p.context.handler.challenge.block_number, p.context.block_number) {
                    return Err(Status::invalid_argument("Outdated challenge".to_string()));
                }
                Ok(
                    HandoverStep::ReadOwnRuntime(
                        OwnRuntimeToRead { context: p.context, report: p.report },
                    ),
                )
            },
        }
    }

    /// Goes on with when the program of this node was added to the chain.
    pub fn handover_own_runtime_read(&self, p: OwnRuntimeToRead, own: OwnRuntime) -> (r: Result<
        HandoverStep,
        Status,
    >)
        ensures
            own_runtime_read(*self, p, own, r),
    {
        match own {
            OwnRuntime::Unreadable => {
                return Err(internal_err("Cannot read server ceseal info"));
            },
            _ => {},
        }
        if self.runtime_state.is_none() {
            return Err(internal_err("Runtime not initialized"));
        }
        let my_added_at: u64 = match own {
            OwnRuntime::AddedAt(t) => t,
            _ => {
                return Err(internal_err("Server ceseal not allowed on chain"));
            },
        };
        match p.report {
            Some(report) => Ok(
                HandoverStep::ReadClientRuntime(
                    ClientRuntimeToRead { context: p.context, report, my_added_at },
                ),
            ),
            None => Err(internal_err("Client attestation not found")),
        }
    }

    /// Goes on with when the program of the client was added to the chain.
    pub fn handover_client_runtime_read(
        &self,
        p: ClientRuntimeToRead,
        client: ClientRuntime,
    ) -> (r: Result<HandoverStep, Status>)
        ensures
            client_runtime_read(p, client, r),
    {
        match client {
            ClientRuntime::BadReport => Err(internal_err("Invalid client RA report")),
            ClientRuntime::NotOnChain => Err(internal_err("Client ceseal not allowed on chain")),
            ClientRuntime::AddedAt(added_at) => {
                if p.my_added_at >= added_at {
                    return Err(internal_err("No handover for old ceseal"));
                }
                Ok(
                    HandoverStep::EncryptKey(
                        KeyToEncrypt { context: p.context, label: "worker_key_handover" },
                    ),
                )
            },
        }
    }

    /// Goes on with the key encrypted for the client.
    pub fn handover_key_encrypted(
        &self,
        p: KeyToEncrypt,
        outcome: Result<EncryptedKey, String>,
    ) -> (r: Result<HandoverStep, Status>)
        requires
            self.runtime_state is Some ==> (outcome matches Ok(k) ==> k.encrypted_key@.len()
                <= MAX_LEN),
        ensures
            key_encrypted(*self, p, outcome, r),
    {
        let encrypted_key: EncryptedKey = match outcome {
            Ok(k) => k,
            Err(text) => {
                return Err(from_debug(text).into_status());
            },
        };
        let genesis_block_hash: H256 = match &self.runtime_state {
            Some(state) => state.genesis_block_hash,
            None => {
                return Err(internal_err("Runtime not initialized"));
            },
        };
        let worker_key = EncryptedWorkerKey {
            genesis_block_hash,
            dev_mode: p.context.dev_mode,
            encrypted_key,
        };
        if !p.context.dev_mode && p.context.in_sgx {
            let worker_key_hash: H256 = blake2_256(worker_key.encode().as_slice());
            let order: ReportOrder = self.order_report(
                Some(AttestationProvider::Ias),
                worker_key_hash,
            );
            Ok(HandoverStep::CreateReport(KeyToAttest { worker_key, order }))
        } else {
            Ok(HandoverStep::Done(HandoverWorkerKey { worker_key, attestation: None }))
        }
    }

    /// Ends with the report that vouches for the encrypted key.
    pub fn handover_key_attested(
        &self,
        p: KeyToAttest,
        outcome: Result<Attestation, CesealServiceError>,
    ) -> (r: Result<HandoverStep, Status>)
        ensures
            key_attested(p, outcome, r),
    {
        match outcome {
            Ok(a) => Ok(
                HandoverStep::Done(
                    HandoverWorkerKey { worker_key: p.worker_key, attestation: Some(a) },
                ),
            ),
            Err(e) => Err(e.into_status()),
        }
    }
}

} // verus!
