//! The initialisation of the runtime, and the attested answer to it that is given afterwards.
//!
//! The decisions and the work on the platform take turns. Each method here takes what the
//! platform found and says what is to be done next; the node stays locked all the while.
use crate::attestation::{report_ordered, ReportOrder};
use crate::crypto::{
    blake2_256, blake2_256_of, same_bytes, seed_error, sr25519_public_of, IdentityKey,
};
use crate::encoding::{registration_bytes, registration_fits};
use crate::error::{app_err, app_error, from_debug, CesealServiceError};
use crate::scale::MAX_LEN;
use crate::state::{not_initialized, Ceseal, ChainStorage, RuntimeState, Synchronizer, System};
use crate::types::{
    account_view, AccountId, Attestation, AttestationProvider, BlockNumber, H256,
    InitRuntimeResponse, PublicKey, RegistrationView, RuntimeResponseView, WorkerRegistrationInfo,
};
use vstd::prelude::*;

verus! {

/// The block that the chain starts with.
#[derive(Clone, Copy, Debug)]
pub struct GenesisBlock {
    pub hash: H256,
    pub state_root: H256,
}

/// What an initialisation was asked for with.
#[derive(Clone, Copy, Debug)]
pub struct InitRequest {
    pub genesis: GenesisBlock,
    pub operator: Option<AccountId>,
    pub attestation_provider: Option<AttestationProvider>,
}

/// The identity waits to be unsealed or made, or taken from `debug_key`.
#[non_exhaustive]
pub struct IdentityToInit {
    pub request: InitRequest,
    pub debug_key: Option<IdentityKey>,
}

/// The identity of the node, as it is sealed.
pub struct RuntimeData {
    pub identity_key: IdentityKey,
    pub ecdh_public_key: [u8; 32],
    /// The key was set from outside.
    pub dev_mode: bool,
    /// The key was made by this node.
    pub trusted_sk: bool,
}

/// The identity is there; the platform waits to be tested for attestation.
#[non_exhaustive]
pub struct QuoteToTest {
    pub request: InitRequest,
    pub data: RuntimeData,
}

/// The platform passed the test; the light client waits to be started.
#[non_exhaustive]
pub struct BridgeToOpen {
    pub request: InitRequest,
    pub data: RuntimeData,
}

/// The state of the chain was found to be that of the first block; the system waits to be
/// started.
#[non_exhaustive]
pub struct SystemToStart {
    pub request: InitRequest,
    pub data: RuntimeData,
    pub chain_storage: ChainStorage,
}

/// What the platform and the started system report.
#[derive(Clone, Copy, Debug)]
pub struct StartedSystem {
    /// The version of the program.
    pub version: u32,
    pub cpu_core_num: u32,
    pub cpu_feature_level: u32,
    pub synchronizer: Synchronizer,
    pub now_ms: u64,
    pub genesis_block: BlockNumber,
    pub registered: bool,
}

/// How old an attestation may get before it is replaced, in seconds.
pub const MAX_ATTESTATION_AGE: u64 = 3600;

/// The registration of a node that starts.
pub open spec fn started_registration<P>(
    c: Ceseal<P>,
    p: SystemToStart,
    started: StartedSystem,
) -> RegistrationView {
    RegistrationView {
        version: started.version,
        machine_id: c.machine_id@,
        pubkey: p.data.identity_key.public_bytes(),
        ecdh_pubkey: p.data.ecdh_public_key@,
        genesis_block_hash: p.request.genesis.hash@,
        features: seq![started.cpu_core_num, started.cpu_feature_level],
        operator: account_view(p.request.operator),
        role: c.args.role,
    }
}

/// The answer that a node starts with.
pub open spec fn started_response<P>(
    c: Ceseal<P>,
    p: SystemToStart,
    started: StartedSystem,
) -> RuntimeResponseView {
    RuntimeResponseView {
        runtime_info: started_registration(c, p, started),
        encoded_runtime_info: registration_bytes(started_registration(c, p, started)),
        genesis_block_hash: p.request.genesis.hash@,
        public_key: p.data.identity_key.public_bytes(),
        ecdh_public_key: p.data.ecdh_public_key@,
        attestation: None,
    }
}

/// What an answer shows as encoded is the registration in it.
pub open spec fn response_consistent(v: RuntimeResponseView) -> bool {
    v.encoded_runtime_info == registration_bytes(v.runtime_info)
}

/// How an initialisation begins. A key to be set for debugging is given as seed material.
pub open spec fn init_begun<P>(
    c: Ceseal<P>,
    request: InitRequest,
    debug_set_key: Option<Vec<u8>>,
    r: Result<IdentityToInit, CesealServiceError>,
) -> bool {
    match (c.system, debug_set_key) {
        (Some(_), _) => r matches Err(e) && e@ == app_error("Runtime already initialized"@),
        (None, None) => r == Ok::<IdentityToInit, CesealServiceError>(
            IdentityToInit { request, debug_key: None },
        ),
        (None, Some(seed)) => match sr25519_public_of(seed@) {
            Some(public) => {
                &&& r matches Ok(p)
                &&& p.request == request
                &&& p.debug_key matches Some(key)
                &&& key.secret_bytes() == seed@
                &&& key.public_bytes() == public
            },
            None => r matches Err(e) && e@ == app_error(seed_error(seed@.len())),
        },
    }
}

/// What follows once the identity is there, or the debug form of the error that there is none. A
/// node whose key was set from outside must not be attested.
pub open spec fn identity_taken<P>(
    pre: Ceseal<P>,
    p: IdentityToInit,
    outcome: Result<RuntimeData, String>,
    post: Ceseal<P>,
    r: Result<QuoteToTest, CesealServiceError>,
) -> bool {
    match outcome {
        Err(text) => post == pre && (r matches Err(e) && e@ == app_error(text@)),
        Ok(data) => {
            &&& post == (Ceseal {
                dev_mode: data.dev_mode,
                trusted_sk: data.trusted_sk,
                attestation_provider: p.request.attestation_provider,
                ..pre
            })
            &&& if data.dev_mode && p.request.attestation_provider is Some {
                r matches Err(e) && e@ == app_error(
                    "RA is disallowed when debug_set_key is enabled"@,
                )
            } else {
                r == Ok::<QuoteToTest, CesealServiceError>(
                    QuoteToTest { request: p.request, data },
                )
            }
        },
    }
}

/// What follows the test of the platform, with the debug form of an error.
pub open spec fn quote_tested(
    p: QuoteToTest,
    outcome: Result<(), String>,
    r: Result<BridgeToOpen, CesealServiceError>,
) -> bool {
    match outcome {
        Err(text) => r matches Err(e) && e@ == app_error(text@),
        Ok(_) => r == Ok::<BridgeToOpen, CesealServiceError>(
            BridgeToOpen { request: p.request, data: p.data },
        ),
    }
}

/// What follows once the storage was made of the first state, whose root the first block must
/// name.
pub open spec fn bridge_opened(
    p: BridgeToOpen,
    chain_storage: ChainStorage,
    r: Result<SystemToStart, CesealServiceError>,
) -> bool {
    if chain_storage.root@ == p.request.genesis.state_root@ {
        r == Ok::<SystemToStart, CesealServiceError>(
            SystemToStart { request: p.request, data: p.data, chain_storage },
        )
    } else {
        r matches Err(e) && e@ == app_error("state root mismatch"@)
    }
}

/// How the initialisation ends: the node has a runtime and a system, and keeps the answer.
pub open spec fn system_started<P>(
    pre: Ceseal<P>,
    p: SystemToStart,
    started: StartedSystem,
    post: Ceseal<P>,
    r: InitRuntimeResponse,
) -> bool {
    &&& r@ == started_response(pre, p, started)
    &&& post.runtime_info matches Some(kept) && kept@ == r@
    &&& post == (Ceseal {
        runtime_info: post.runtime_info,
        runtime_state: Some(
            RuntimeState {
                pending_messages: 0,
                storage_synchronizer: started.synchronizer,
                chain_storage: p.chain_storage,
                genesis_block_hash: p.request.genesis.hash,
            },
        ),
        system: Some(
            System {
                identity_key: p.data.identity_key,
                ecdh_public_key: p.data.ecdh_public_key,
                now_ms: started.now_ms,
                genesis_block: started.genesis_block,
                registered: started.registered,
            },
        ),
        ..pre
    })
}

impl<Platform> Ceseal<Platform> {
    /// Begins the initialisation, once in the life of a node.
    pub fn init_runtime(&self, request: InitRequest, debug_set_key: Option<Vec<u8>>) -> (r: Result<
        IdentityToInit,
        CesealServiceError,
    >)
        ensures
            init_begun(*self, request, debug_set_key, r),
    {
        if self.system.is_some() {
            return Err(app_err("Runtime already initialized"));
        }
        match debug_set_key {
            Some(raw_key) => match IdentityKey::from_seed_slice(raw_key.as_slice()) {
                Ok(key) => Ok(IdentityToInit { request, debug_key: Some(key) }),
                Err(text) => Err(from_debug(text)),
            },
            None => Ok(IdentityToInit { request, debug_key: None }),
        }
    }

    /// Goes on with the identity, or the debug form of the error that there is none.
    pub fn init_identity_ready(
        &mut self,
        p: IdentityToInit,
        outcome: Result<RuntimeData, String>,
    ) -> (r: Result<QuoteToTest, CesealServiceError>)
        ensures
            identity_taken(*old(self), p, outcome, *final(self), r),
    {
        let data: RuntimeData = match outcome {
            Ok(data) => data,
            Err(text) => {
                return Err(from_debug(text));
            },
        };
        self.dev_mode = data.dev_mode;
        self.trusted_sk = data.trusted_sk;
        self.attestation_provider = p.request.attestation_provider;
        if self.dev_mode && self.attestation_provider.is_some() {
            return Err(app_err("RA is disallowed when debug_set_key is enabled"));
        }
        Ok(QuoteToTest { request: p.request, data })
    }

    /// Goes on after the platform was tested, with the debug form of an error.
    pub fn init_quote_tested(&self, p: QuoteToTest, outcome: Result<(), String>) -> (r: Result<
        BridgeToOpen,
        CesealServiceError,
    >)
        ensures
            quote_tested(p, outcome, r),
    {
        match outcome {
            Ok(_) => Ok(BridgeToOpen { request: p.request, data: p.data }),
            Err(text) => Err(from_debug(text)),
        }
    }

    /// Goes on with the storage made of the first state, whose root the first block must name.
    pub fn init_bridge_opened(&self, p: BridgeToOpen, chain_storage: ChainStorage) -> (r: Result<
        SystemToStart,
        CesealServiceError,
    >)
        ensures
            bridge_opened(p, chain_storage, r),
    {
        if !same_bytes(
            chain_storage.root.as_slice(),
            p.request.genesis.state_root.as_slice(),
        ) {
            return Err(app_err("state root mismatch"));
        }
        Ok(SystemToStart { request: p.request, data: p.data, chain_storage })
    }

    /// Ends the initialisation with what the platform and the started system report.
    pub fn init_system_started(&mut self, p: SystemToStart, started: StartedSystem) -> (r:
        InitRuntimeResponse)
        requires
            old(self).machine_id@.len() <= MAX_LEN,
        ensures
            system_started(*old(self), p, started, *final(self), r),
    {
        let public_key: PublicKey = p.data.identity_key.public();
        let machine_id: Vec<u8> = self.machine_id.clone();
        assert(machine_id@ =~= self.machine_id@);
        let mut features: Vec<u32> = Vec::new();
        features.push(started.cpu_core_num);
        features.push(started.cpu_feature_level);
        assert(features@ =~= seq![started.cpu_core_num, started.cpu_feature_level]);
        let runtime_info = WorkerRegistrationInfo {
            version: started.version,
            machine_id,
            pubkey: public_key,
            ecdh_pubkey: p.data.ecdh_public_key,
            genesis_block_hash: p.request.genesis.hash,
            features,
            operator: p.request.operator,
            role: self.args.role,
        };
        let encoded_runtime_info: Vec<u8> = runtime_info.encode();
        let resp = InitRuntimeResponse {
            runtime_info,
            encoded_runtime_info,
            genesis_block_hash: p.request.genesis.hash,
            public_key,
            ecdh_public_key: p.data.ecdh_public_key,
            attestation: None,
        };
        self.runtime_info = Some(resp.clone());
        self.runtime_state = Some(
            RuntimeState {
                pending_messages: 0,
                storage_synchronizer: started.synchronizer,
                chain_storage: p.chain_storage,
                genesis_block_hash: p.request.genesis.hash,
            },
        );
        self.system = Some(
            System {
                identity_key: p.data.identity_key,
                ecdh_public_key: p.data.ecdh_public_key,
                now_ms: started.now_ms,
                genesis_block: started.genesis_block,
                registered: started.registered,
            },
        );
        resp
    }
}

/// What a request for the attested answer goes on with.
#[derive(Debug)]
pub enum RuntimeInfoStep {
    /// The answer is there.
    Ready(InitRuntimeResponse),
    /// The report on the registration is to be created.
    CreateReport(ReportOrder),
}

/// The identity key of the node is known to be good: the node made it, or the chain knows it.
pub open spec fn key_validated<P>(c: Ceseal<P>) -> bool {
    c.trusted_sk || (c.system matches Some(s) && s.registered)
}

/// The node may be attested. A key that may have been injected is not attested: its owner could
/// pass for a secure worker.
pub open spec fn may_attest<P>(c: Ceseal<P>) -> bool {
    &&& c.runtime_state matches Some(s) && s.storage_synchronizer.state_validated
    &&& key_validated(c) || c.attestation_provider is None
}

/// The answer with another operator in its registration.
pub open spec fn with_operator(v: RuntimeResponseView, operator: Option<Seq<u8>>) ->
    RuntimeResponseView {
    let runtime_info = RegistrationView { operator, ..v.runtime_info };
    RuntimeResponseView {
        runtime_info,
        encoded_runtime_info: registration_bytes(runtime_info),
        ..v
    }
}

/// What is left of the kept answer when it is asked for: a new operator is entered, and an
/// attestation that is not to be used any more is dropped.
pub open spec fn refreshed(
    v: RuntimeResponseView,
    refresh_ra: bool,
    operator: Option<AccountId>,
    now: u64,
) -> RuntimeResponseView {
    let updated = if operator is Some {
        with_operator(v, account_view(operator))
    } else {
        v
    };
    RuntimeResponseView {
        attestation: match v.attestation {
            Some(a) if !refresh_ra && operator is None && now <= a.timestamp
                + MAX_ATTESTATION_AGE => Some(a),
            _ => None,
        },
        ..updated
    }
}

/// How the attested answer is asked for at the time `now`, in seconds.
pub open spec fn runtime_info_asked<P>(
    pre: Ceseal<P>,
    refresh_ra: bool,
    operator: Option<AccountId>,
    now: u64,
    post: Ceseal<P>,
    r: Result<RuntimeInfoStep, CesealServiceError>,
) -> bool {
    if (!pre.trusted_sk && pre.system is None) || pre.runtime_state is None {
        post == pre && (r matches Err(e) && e@ == not_initialized())
    } else {
        match pre.runtime_info {
            None => post == pre && (r matches Err(e) && e@ == app_error(
                "Uninitiated runtime info"@,
            )),
            Some(info) => {
                let kept = refreshed(info@, refresh_ra, operator, now);
                &&& post.runtime_info matches Some(i) && i@ == kept
                &&& post == (Ceseal { runtime_info: post.runtime_info, ..pre })
                &&& if may_attest(pre) && kept.attestation is None {
                    r matches Ok(RuntimeInfoStep::CreateReport(order)) && report_ordered(
                        pre.args,
                        pre.attestation_provider,
                        blake2_256_of(kept.encoded_runtime_info),
                        order,
                    )
                } else {
                    r matches Ok(RuntimeInfoStep::Ready(answer)) && answer@ == kept
                }
            },
        }
    }
}

/// How the attested answer is given once the report was created, or was not.
pub open spec fn runtime_info_given<P>(
    pre: Ceseal<P>,
    outcome: Result<Attestation, CesealServiceError>,
    post: Ceseal<P>,
    r: Result<InitRuntimeResponse, CesealServiceError>,
) -> bool {
    match (outcome, pre.runtime_info) {
        (Err(e), _) => post == pre && r == Err::<InitRuntimeResponse, CesealServiceError>(e),
        (Ok(_), None) => post == pre && (r matches Err(e) && e@ == app_error(
            "Uninitiated runtime info"@,
        )),
        (Ok(a), Some(info)) => {
            &&& r matches Ok(answer) && answer@ == (RuntimeResponseView {
                attestation: Some(a@),
                ..info@
            })
            &&& post.runtime_info matches Some(i) && r matches Ok(answer) && i@ == answer@
            &&& post == (Ceseal { runtime_info: post.runtime_info, ..pre })
        },
    }
}

impl<Platform> Ceseal<Platform> {
    /// Asks for the answer to the initialisation with an attestation that is at most
    /// `MAX_ATTESTATION_AGE` old. An `operator` given here is entered in the registration.
    pub fn get_runtime_info(
        &mut self,
        refresh_ra: bool,
        operator: Option<AccountId>,
        now: u64,
    ) -> (r: Result<RuntimeInfoStep, CesealServiceError>)
        requires
            operator is Some && (old(self).trusted_sk || old(self).system is Some) && old(
                self,
            ).runtime_state is Some ==> (old(self).runtime_info matches Some(i)
                ==> registration_fits(i.runtime_info@)),
        ensures
            runtime_info_asked(*old(self), refresh_ra, operator, now, *final(self), r),
    {
        let validated_identity_key: bool = if self.trusted_sk {
            true
        } else {
            match &self.system {
                Some(s) => s.registered,
                None => {
                    return Err(app_err("Runtime not initialized"));
                },
            }
        };
        let validated_state: bool = match &self.runtime_state {
            Some(s) => s.storage_synchronizer.state_validated,
            None => {
                return Err(app_err("Runtime not initialized"));
            },
        };
        let mut info: InitRuntimeResponse = match self.runtime_info.take() {
            Some(info) => info,
            None => {
                return Err(app_err("Uninitiated runtime info"));
            },
        };
        let reset_operator: bool = operator.is_some();
        if reset_operator {
            info.runtime_info.operator = operator;
            info.encoded_runtime_info = info.runtime_info.encode();
        }
        let expired: bool = match &info.attestation {
            Some(a) => refresh_ra || reset_operator || (now > a.timestamp && now - a.timestamp
                > MAX_ATTESTATION_AGE),
            None => false,
        };
        if expired {
            info.attestation = None;
        }
        let allow_attestation: bool = validated_state && (validated_identity_key
            || self.attestation_provider.is_none());
        let r: RuntimeInfoStep = if allow_attestation && info.attestation.is_none() {
            let hash: H256 = blake2_256(info.encoded_runtime_info.as_slice());
            RuntimeInfoStep::CreateReport(self.order_report(self.attestation_provider, hash))
        } else {
            RuntimeInfoStep::Ready(info.clone())
        };
        self.runtime_info = Some(info);
        Ok(r)
    }

    /// Gives the answer with the attestation that was created for it, which is kept.
    pub fn runtime_info_attested(
        &mut self,
        outcome: Result<Attestation, CesealServiceError>,
    ) -> (r: Result<InitRuntimeResponse, CesealServiceError>)
        ensures
            runtime_info_given(*old(self), outcome, *final(self), r),
    {
        let attestation: Attestation = match outcome {
            Ok(a) => a,
            Err(e) => {
                return Err(e);
            },
        };
        match self.runtime_info.take() {
            Some(info) => {
                let mut info: InitRuntimeResponse = info;
                info.attestation = Some(attestation);
                let answer: InitRuntimeResponse = info.clone();
                self.runtime_info = Some(info);
                Ok(answer)
            },
            None => Err(app_err("Uninitiated runtime info")),
        }
    }
}

/// A report is created only for a validated state, and never with a provider for a key that may
/// have been injected.
pub proof fn law_no_report_for_injected_key<P>(
    pre: Ceseal<P>,
    refresh_ra: bool,
    operator: Option<AccountId>,
    now: u64,
    post: Ceseal<P>,
    order: ReportOrder,
)
    requires
        runtime_info_asked(
            pre,
            refresh_ra,
            operator,
            now,
            post,
            Ok(RuntimeInfoStep::CreateReport(order)),
        ),
    ensures
        pre.runtime_state matches Some(s) && s.storage_synchronizer.state_validated,
        order.provider is Some ==> key_validated(pre),
{
}

/// A report that is created vouches for the registration as it is kept, with the operator that
/// was asked for.
pub proof fn law_report_covers_operator<P>(
    pre: Ceseal<P>,
    refresh_ra: bool,
    operator: AccountId,
    now: u64,
    post: Ceseal<P>,
    order: ReportOrder,
)
    requires
        runtime_info_asked(
            pre,
            refresh_ra,
            Some(operator),
            now,
            post,
            Ok(RuntimeInfoStep::CreateReport(order)),
        ),
    ensures
        post.runtime_info matches Some(i) && i@.runtime_info.operator == Some(operator@)
            && order.hash@ == blake2_256_of(registration_bytes(i@.runtime_info)),
{
}

/// Once an attestation was created, the answer is given from what is kept, without another
/// report, until the attestation is too old, a refresh is asked for or the operator changes.
pub proof fn law_attestation_is_reused<P>(
    a: Ceseal<P>,
    attestation: Attestation,
    b: Ceseal<P>,
    first: InitRuntimeResponse,
    now: u64,
    c: Ceseal<P>,
    r: Result<RuntimeInfoStep, CesealServiceError>,
)
    requires
        runtime_info_given(a, Ok(attestation), b, Ok(first)),
        runtime_info_asked(b, false, None, now, c, r),
        now <= attestation.timestamp + MAX_ATTESTATION_AGE,
        b.trusted_sk || b.system is Some,
        b.runtime_state is Some,
    ensures
        r matches Ok(RuntimeInfoStep::Ready(again)) && again@ == first@,
{
}

/// The kept answer always shows the registration that it holds: the initialisation sets it so,
/// and asking for it or attesting it keeps it so.
pub proof fn law_kept_answer_is_consistent<P>(
    pre: Ceseal<P>,
    refresh_ra: bool,
    operator: Option<AccountId>,
    now: u64,
    between: Ceseal<P>,
    r: Result<RuntimeInfoStep, CesealServiceError>,
    outcome: Result<Attestation, CesealServiceError>,
    post: Ceseal<P>,
    answer: Result<InitRuntimeResponse, CesealServiceError>,
)
    requires
        pre.runtime_info matches Some(i) ==> response_consistent(i@),
        runtime_info_asked(pre, refresh_ra, operator, now, between, r),
        runtime_info_given(between, outcome, post, answer),
    ensures
        between.runtime_info matches Some(i) ==> response_consistent(i@),
        post.runtime_info matches Some(i) ==> response_consistent(i@),
{
}

/// An attestation that is given from what is kept is not too old, and neither a refresh was asked
/// for nor another operator entered.
pub proof fn law_given_attestation_is_fresh<P>(
    pre: Ceseal<P>,
    refresh_ra: bool,
    operator: Option<AccountId>,
    now: u64,
    post: Ceseal<P>,
    answer: InitRuntimeResponse,
)
    requires
        runtime_info_asked(
            pre,
            refresh_ra,
            operator,
            now,
            post,
            Ok(RuntimeInfoStep::Ready(answer)),
        ),
    ensures
        answer@.attestation matches Some(a) ==> now <= a.timestamp + MAX_ATTESTATION_AGE
            && !refresh_ra && operator is None,
{
}

/// A runtime is initialised once: after it was, an initialisation is refused.
pub proof fn law_initialised_once<P>(
    pre: Ceseal<P>,
    p: SystemToStart,
    started: StartedSystem,
    post: Ceseal<P>,
    first: InitRuntimeResponse,
    request: InitRequest,
    debug_set_key: Option<Vec<u8>>,
    again: Result<IdentityToInit, CesealServiceError>,
)
    requires
        system_started(pre, p, started, post, first),
        init_begun(post, request, debug_set_key, again),
    ensures
        again matches Err(e) && e@ == app_error("Runtime already initialized"@),
{
}

/// An initialisation goes on only with a node that is not both in development mode and to be
/// attested.
pub proof fn law_development_node_is_not_attested<P>(
    pre: Ceseal<P>,
    p: IdentityToInit,
    outcome: Result<RuntimeData, String>,
    post: Ceseal<P>,
    next: QuoteToTest,
)
    requires
        identity_taken(pre, p, outcome, post, Ok(next)),
    ensures
        post.dev_mode ==> post.attestation_provider is None,
{
}

/// The answer that a node starts with shows the registration that it holds, and is not attested.
pub proof fn law_started_answer_is_consistent<P>(
    c: Ceseal<P>,
    p: SystemToStart,
    started: StartedSystem,
)
    ensures
        response_consistent(started_response(c, p, started)),
        started_response(c, p, started).attestation is None,
{
}

} // verus!
