//! The requests that a node serves: who may lock the node for what, and how each request begins.
//!
//! A request that needs work on the platform goes on with the methods of the locked node.
use crate::blocks::{dispatch_begun, headers_begun, Block, BlockDispatch};
use crate::chain_state::{load_admitted, StateToRead};
use crate::challenge::challenge_created;
use crate::encoding::{
    challenge_decoded, handler_decoded, registration_fits, text_fits, worker_key_decoded,
};
use crate::endpoint::{
    endpoint_given, endpoint_set, endpoint_signed, master_key_applied, wraps_all,
};
use crate::error::{
    error_message, from_debug, from_display, internal, lock_message, to_status, CesealLockError,
    CesealServiceError, Error, Status,
};
use crate::handover_client::{challenge_taken_up, key_received, AcceptStep, ReceiveStep};
use crate::handover_server::{handover_opened, HandoverStep};
use crate::runtime::{
    init_begun, runtime_info_asked, GenesisBlock, IdentityToInit, InitRequest, RuntimeInfoStep,
};
use crate::state::{
    external_server_operated, fresh_node, info_given, proof_admitted, Ceseal, CesealInfo,
    ExternalServerAction, ExternalServerCmd, StopPlan,
};
use crate::types::{
    text_view, AccountId, Attestation, AttestationProvider, BlockNumber, ChallengeHandlerInfo,
    EchoMessage, EncryptedWorkerKey, GetEndpointResponse, GetMasterKeyApplyResponse,
    HandoverChallenge, SignedContentType, SyncedTo,
};
use vstd::prelude::*;

verus! {

/// The node behind the lock policy of its requests.
pub struct CesealSafeBox<Platform> {
    pub ceseal: Ceseal<Platform>,
}

/// The service that a node offers.
pub struct RpcService<Platform> {
    pub cestory: CesealSafeBox<Platform>,
}

/// Why a request may not lock the node, if it may not: while a copy of the state is being
/// advanced and in safe mode, only requests that allow for it are served.
pub open spec fn lock_refusal<P>(
    c: Ceseal<P>,
    allow_rcu: bool,
    allow_safemode: bool,
) -> Option<CesealLockError> {
    if c.rcu_dispatching && !allow_rcu {
        Some(CesealLockError::RcuDispatching)
    } else if c.args.safe_mode_level > 0 && !allow_safemode {
        Some(CesealLockError::SafeMode)
    } else {
        None
    }
}

impl<Platform> CesealSafeBox<Platform> {
    /// A node that has not been started with anything yet.
    pub fn new(platform: Platform) -> (r: Self)
        ensures
            fresh_node(r.ceseal, platform),
    {
        CesealSafeBox { ceseal: Ceseal::new(platform) }
    }

    /// The node, if the request may have it.
    pub fn lock(&mut self, allow_rcu: bool, allow_safemode: bool) -> (r: Result<
        &mut Ceseal<Platform>,
        CesealLockError,
    >)
        ensures
            match r {
                Ok(c) => {
                    &&& lock_refusal(old(self).ceseal, allow_rcu, allow_safemode) is None
                    &&& *c == old(self).ceseal
                    &&& final(self).ceseal == *final(c)
                },
                Err(e) => {
                    &&& lock_refusal(old(self).ceseal, allow_rcu, allow_safemode) == Some(e)
                    &&& *final(self) == *old(self)
                },
            },
    {
        if !allow_rcu && self.ceseal.rcu_dispatching {
            return Err(CesealLockError::RcuDispatching);
        }
        if !allow_safemode && self.ceseal.args.safe_mode_level > 0 {
            return Err(CesealLockError::SafeMode);
        }
        Ok(&mut self.ceseal)
    }
}

/// The reply is an internal error with the given text.
pub open spec fn fails_with<T>(r: Result<T, Status>, message: Seq<char>) -> bool {
    r matches Err(s) && s@ == internal(message)
}

/// A service error is answered as an internal error with its text.
pub open spec fn answers<T>(inner: Result<T, CesealServiceError>, r: Result<T, Status>) -> bool {
    match inner {
        Ok(v) => r == Ok::<T, Status>(v),
        Err(e) => fails_with(r, e@.text()),
    }
}

/// An error of the node is answered as an internal error with its text.
pub open spec fn answers_error<T>(inner: Result<T, Error>, r: Result<T, Status>) -> bool {
    match inner {
        Ok(v) => r == Ok::<T, Status>(v),
        Err(e) => fails_with(r, error_message(e)),
    }
}

/// The reply to a request for the general report.
pub open spec fn info_served<P, S, M>(
    pre: Ceseal<P>,
    system_info: Option<S>,
    memory_usage: M,
    post: Ceseal<P>,
    r: Result<CesealInfo<S, M>, Status>,
) -> bool {
    &&& post == pre
    &&& r matches Ok(info) && info_given(pre, system_info, memory_usage, info)
}

/// The reply to a request to take headers in.
pub open spec fn headers_served<P, Headers, AuthoritySetChange>(
    pre: Ceseal<P>,
    headers: Result<Headers, String>,
    authority_set_change: Result<AuthoritySetChange, String>,
    post: Ceseal<P>,
    r: Result<(Headers, AuthoritySetChange), Status>,
) -> bool {
    match (headers, authority_set_change) {
        (Err(text), _) => post == pre && fails_with(r, text@),
        (Ok(_), Err(text)) => post == pre && fails_with(r, text@),
        (Ok(headers), Ok(change)) => match lock_refusal(pre, false, true) {
            Some(e) => post == pre && fails_with(r, lock_message(e)),
            None => exists|inner: Result<(), CesealServiceError>|
                {
                    &&& #[trigger] headers_begun(pre, post, inner)
                    &&& match inner {
                        Ok(_) => r == Ok::<(Headers, AuthoritySetChange), Status>(
                            (headers, change),
                        ),
                        Err(e) => fails_with(r, e@.text()),
                    }
                },
        },
    }
}

/// The reply to a request to take blocks in.
pub open spec fn blocks_served<P, Changes>(
    pre: Ceseal<P>,
    blocks: Result<Vec<Block<Changes>>, String>,
    post: Ceseal<P>,
    r: Result<BlockDispatch<Changes>, Status>,
) -> bool {
    &&& post == pre
    &&& match blocks {
        Err(text) => fails_with(r, text@),
        Ok(blocks) => match lock_refusal(pre, false, true) {
            Some(e) => fails_with(r, lock_message(e)),
            None => exists|inner: Result<BlockDispatch<Changes>, CesealServiceError>|
                #[trigger] dispatch_begun(pre, blocks@, inner) && answers(
                    inner,
                    r,
                ),
        },
    }
}

/// The reply to a request to initialise the runtime.
pub open spec fn init_served<P, State>(
    pre: Ceseal<P>,
    genesis_info: Result<GenesisBlock, String>,
    genesis_state: Result<State, String>,
    operator: Result<Option<AccountId>, String>,
    debug_set_key: Option<Vec<u8>>,
    attestation_provider: Result<Option<AttestationProvider>, String>,
    post: Ceseal<P>,
    r: Result<(IdentityToInit, State), Status>,
) -> bool {
    &&& post == pre
    &&& match lock_refusal(pre, false, false) {
        Some(e) => fails_with(r, lock_message(e)),
        None => match (genesis_info, genesis_state, operator, attestation_provider) {
            (Err(text), _, _, _) => fails_with(r, text@),
            (Ok(_), Err(text), _, _) => fails_with(r, text@),
            (Ok(_), Ok(_), Err(text), _) => fails_with(r, text@),
            (Ok(_), Ok(_), Ok(_), Err(text)) => fails_with(r, text@),
            (Ok(genesis), Ok(state), Ok(operator), Ok(provider)) => exists|
                inner: Result<IdentityToInit, CesealServiceError>,
            |
                {
                    &&& #[trigger] init_begun(
                        pre,
                        InitRequest { genesis, operator, attestation_provider: provider },
                        debug_set_key,
                        inner,
                    )
                    &&& match inner {
                        Ok(p) => r == Ok::<(IdentityToInit, State), Status>((p, state)),
                        Err(e) => fails_with(r, e@.text()),
                    }
                },
        },
    }
}

/// The reply to a request for the attested answer.
pub open spec fn runtime_info_served<P>(
    pre: Ceseal<P>,
    force_refresh_ra: bool,
    operator: Result<Option<AccountId>, String>,
    now: u64,
    post: Ceseal<P>,
    r: Result<RuntimeInfoStep, Status>,
) -> bool {
    match lock_refusal(pre, true, false) {
        Some(e) => post == pre && fails_with(r, lock_message(e)),
        None => match operator {
            Err(text) => post == pre && fails_with(r, text@),
            Ok(operator) => exists|inner: Result<RuntimeInfoStep, CesealServiceError>|
                #[trigger] runtime_info_asked(
                    pre,
                    force_refresh_ra,
                    operator,
                    now,
                    post,
                    inner,
                ) && answers(inner, r),
        },
    }
}

/// The reply to a request for the messages to the chain.
pub open spec fn egress_served<P, Group>(
    pre: Ceseal<P>,
    grouped: Vec<Group>,
    post: Ceseal<P>,
    r: Result<Vec<Group>, Status>,
) -> bool {
    &&& post == pre
    &&& match lock_refusal(pre, true, false) {
        Some(e) => fails_with(r, lock_message(e)),
        None => r matches Ok(messages) && messages@ == (
        if pre.runtime_state is Some {
            grouped@
        } else {
            Seq::empty()
        }),
    }
}

/// The reply to a request to set the endpoint.
pub open spec fn set_endpoint_served<P, F>(
    pre: Ceseal<P>,
    endpoint: String,
    wrap: F,
    post: Ceseal<P>,
    r: Result<GetEndpointResponse, Status>,
) -> bool where F: Fn(&[u8], SignedContentType) -> Vec<u8> {
    match lock_refusal(pre, false, false) {
        Some(e) => post == pre && fails_with(r, lock_message(e)),
        None => exists|inner: Result<GetEndpointResponse, CesealServiceError>|
            #[trigger] endpoint_set(pre, endpoint, wrap, post, inner) && answers(inner, r),
    }
}

/// The reply to a request to sign the endpoint anew.
pub open spec fn refresh_served<P, F>(
    pre: Ceseal<P>,
    wrap: F,
    post: Ceseal<P>,
    r: Result<GetEndpointResponse, Status>,
) -> bool where F: Fn(&[u8], SignedContentType) -> Vec<u8> {
    match lock_refusal(pre, false, false) {
        Some(e) => post == pre && fails_with(r, lock_message(e)),
        None => exists|inner: Result<GetEndpointResponse, CesealServiceError>|
            #[trigger] endpoint_signed(pre, wrap, post, inner)
                && answers(inner, r),
    }
}

/// The reply to a request for the endpoint.
pub open spec fn endpoint_served<P, F>(
    pre: Ceseal<P>,
    wrap: F,
    post: Ceseal<P>,
    r: Result<GetEndpointResponse, Status>,
) -> bool where F: Fn(&[u8], SignedContentType) -> Vec<u8> {
    match lock_refusal(pre, true, false) {
        Some(e) => post == pre && fails_with(r, lock_message(e)),
        None => exists|inner: Result<GetEndpointResponse, CesealServiceError>|
            #[trigger] endpoint_given(pre, wrap, post, inner)
                && answers(inner, r),
    }
}

/// The reply to a request for the application for the master key.
pub open spec fn master_key_served<P, F>(
    pre: Ceseal<P>,
    wrap: F,
    post: Ceseal<P>,
    r: Result<GetMasterKeyApplyResponse, Status>,
) -> bool where F: Fn(&[u8], SignedContentType) -> Vec<u8> {
    &&& post == pre
    &&& match lock_refusal(pre, true, false) {
        Some(e) => fails_with(r, lock_message(e)),
        None => exists|inner: Result<GetMasterKeyApplyResponse, CesealServiceError>|
            #[trigger] master_key_applied(pre, wrap, inner) && answers(
                inner,
                r,
            ),
    }
}

/// The reply to a command for the server for outside clients.
pub open spec fn external_server_served<P>(
    pre: Ceseal<P>,
    cmd: ExternalServerCmd,
    post: Ceseal<P>,
    r: Result<ExternalServerAction, Status>,
) -> bool {
    match lock_refusal(pre, false, false) {
        Some(e) => post == pre && fails_with(r, lock_message(e)),
        None => exists|inner: Result<ExternalServerAction, Error>|
            #[trigger] external_server_operated(
                pre,
                cmd,
                post,
                inner,
            ) && answers_error(inner, r),
    }
}

/// The reply to a request for a challenge.
pub open spec fn challenge_served<P>(
    pre: Ceseal<P>,
    sgx_target_info: Vec<u8>,
    nonce: [u8; 32],
    post: Ceseal<P>,
    r: Result<HandoverChallenge, Status>,
) -> bool {
    match lock_refusal(pre, false, true) {
        Some(e) => post == pre && fails_with(r, lock_message(e)),
        None => exists|inner: Result<HandoverChallenge, CesealServiceError>|
            #[trigger] challenge_created(
                pre,
                sgx_target_info,
                nonce,
                post,
                inner,
            ) && answers(inner, r),
    }
}

/// The reply to an answered challenge.
pub open spec fn start_served<P>(
    pre: Ceseal<P>,
    encoded_challenge_handler: Seq<u8>,
    attestation: Option<Attestation>,
    post: Ceseal<P>,
    r: Result<HandoverStep, Status>,
) -> bool {
    match lock_refusal(pre, false, true) {
        Some(e) => post == pre && fails_with(r, lock_message(e)),
        None => exists|handler: Result<ChallengeHandlerInfo, String>|
            #[trigger] handler_decoded(encoded_challenge_handler, handler)
                && handover_opened(
                pre,
                handler,
                attestation,
                post,
                r,
            ),
    }
}

/// The reply to the challenge of another node.
pub open spec fn accept_served<P>(
    pre: Ceseal<P>,
    ecdh_key: Vec<u8>,
    ecdh_pubkey: [u8; 32],
    encoded_challenge: Seq<u8>,
    post: Ceseal<P>,
    r: Result<AcceptStep, Status>,
) -> bool {
    match lock_refusal(pre, false, true) {
        Some(e) => post == pre && fails_with(r, lock_message(e)),
        None => exists|challenge: Result<HandoverChallenge, String>|
            #[trigger] challenge_decoded(encoded_challenge, challenge)
                && challenge_taken_up(
                pre,
                ecdh_key,
                ecdh_pubkey,
                challenge,
                post,
                r,
            ),
    }
}

/// The reply to the encrypted key of another node.
pub open spec fn receive_served<P>(
    pre: Ceseal<P>,
    encoded_worker_key: Seq<u8>,
    attestation: Option<Attestation>,
    now: u64,
    post: Ceseal<P>,
    r: Result<ReceiveStep, Status>,
) -> bool {
    &&& post == pre
    &&& match lock_refusal(pre, false, true) {
        Some(e) => fails_with(r, lock_message(e)),
        None => exists|worker_key: Result<EncryptedWorkerKey, String>|
            #[trigger] worker_key_decoded(encoded_worker_key, worker_key) && key_received(
                pre,
                worker_key,
                attestation,
                now,
                r,
            ),
    }
}

/// The reply to a request to set the state of the chain.
pub open spec fn load_served<P, State>(
    pre: Ceseal<P>,
    block: BlockNumber,
    state: Result<State, String>,
    post: Ceseal<P>,
    r: Result<(StateToRead, State), Status>,
) -> bool {
    &&& post == pre
    &&& match lock_refusal(pre, false, false) {
        Some(e) => fails_with(r, lock_message(e)),
        None => match state {
            Err(text) => fails_with(r, text@),
            Ok(state) => exists|inner: Result<StateToRead, Error>|
                {
                    &&& #[trigger] load_admitted(pre, block, inner)
                    &&& match inner {
                        Ok(p) => r == Ok::<(StateToRead, State), Status>((p, state)),
                        Err(e) => fails_with(r, error_message(e)),
                    }
                },
        },
    }
}

/// The reply to a request to stop.
pub open spec fn stop_served<P>(
    pre: Ceseal<P>,
    remove_checkpoints: bool,
    post: Ceseal<P>,
    r: Result<StopPlan, Status>,
) -> bool {
    &&& post == pre
    &&& r matches Ok(plan) && plan.remove_checkpoints_in == (if remove_checkpoints {
        Some(pre.args.storage_path)
    } else {
        None
    })
}

/// The reply to values of the chain with their proof.
pub open spec fn proof_served<P>(
    pre: Ceseal<P>,
    proof: Vec<Vec<u8>>,
    post: Ceseal<P>,
    r: Result<Vec<Vec<u8>>, Status>,
) -> bool {
    &&& post == pre
    &&& match lock_refusal(pre, false, true) {
        Some(e) => fails_with(r, lock_message(e)),
        None => exists|inner: Result<Vec<Vec<u8>>, CesealServiceError>|
            #[trigger] proof_admitted(pre, proof, inner) && answers(inner, r),
    }
}

/// The reply to a request for a checkpoint.
pub open spec fn checkpoint_served<P>(
    pre: Ceseal<P>,
    post: Ceseal<P>,
    r: Result<(), Status>,
) -> bool {
    &&& post == pre
    &&& match lock_refusal(pre, false, false) {
        Some(e) => fails_with(r, lock_message(e)),
        None => r is Ok,
    }
}

/// The reply to a checkpoint that was taken, or was not, with the debug form of the error.
pub open spec fn checkpoint_answered(
    outcome: Result<BlockNumber, String>,
    r: Result<SyncedTo, Status>,
) -> bool {
    match outcome {
        Ok(synced_to) => r == Ok::<SyncedTo, Status>(SyncedTo { synced_to }),
        Err(text) => fails_with(r, text@),
    }
}

/// The reply to a message that is sent back.
pub open spec fn echoed(request: EchoMessage, r: Result<EchoMessage, Status>) -> bool {
    r == Ok::<EchoMessage, Status>(request)
}

/// The reply to what came of a request.
pub fn answer<T>(inner: Result<T, CesealServiceError>) -> (r: Result<T, Status>)
    ensures
        answers(inner, r),
{
    match inner {
        Ok(v) => Ok(v),
        Err(e) => Err(e.into_status()),
    }
}

impl<Platform> RpcService<Platform> {
    /// The node that the service offers.
    pub open spec fn node(self) -> Ceseal<Platform> {
        self.cestory.ceseal
    }

    /// The service of a given node.
    pub fn new_with(cestory: CesealSafeBox<Platform>) -> (r: RpcService<Platform>)
        ensures
            r.cestory == cestory,
    {
        RpcService { cestory }
    }

    /// The service of a node that has not been started with anything yet.
    pub fn new(platform: Platform) -> (r: RpcService<Platform>)
        ensures
            fresh_node(r.node(), platform),
    {
        RpcService { cestory: CesealSafeBox::new(platform) }
    }

    /// The node, if the request may have it.
    pub fn lock_ceseal(&mut self, allow_rcu: bool, allow_safemode: bool) -> (r: Result<
        &mut Ceseal<Platform>,
        CesealLockError,
    >)
        ensures
            match r {
                Ok(c) => {
                    &&& lock_refusal(old(self).node(), allow_rcu, allow_safemode) is None
                    &&& *c == old(self).node()
                    &&& final(self).node() == *final(c)
                },
                Err(e) => {
                    &&& lock_refusal(old(self).node(), allow_rcu, allow_safemode) == Some(e)
                    &&& *final(self) == *old(self)
                },
            },
    {
        self.cestory.lock(allow_rcu, allow_safemode)
    }

    /// A general report on the node. It is given at any time.
    pub fn get_info<SystemInfo, MemoryUsage>(
        &mut self,
        system_info: Option<SystemInfo>,
        memory_usage: MemoryUsage,
    ) -> (r: Result<CesealInfo<SystemInfo, MemoryUsage>, Status>)
        requires
            old(self).node().system is Some ==> system_info is Some,
        ensures
            *final(self) == *old(self),
            info_served(
                old(self).node(),
                system_info,
                memory_usage,
                final(self).node(),
                r,
            ),
    {
        match self.lock_ceseal(true, true) {
            Ok(ceseal) => Ok(ceseal.get_info(system_info, memory_usage)),
            Err(e) => Err(e.into_status()),
        }
    }

    /// Begins to take headers in. Both parameters may have been undecodable, with the decoder's
    /// text; what was decoded is handed back to be taken in.
    pub fn sync_header<Headers, AuthoritySetChange>(
        &mut self,
        headers: Result<Headers, String>,
        authority_set_change: Result<AuthoritySetChange, String>,
    ) -> (r: Result<(Headers, AuthoritySetChange), Status>)
        ensures
            headers_served(
                old(self).node(),
                headers,
                authority_set_change,
                final(self).node(),
                r,
            ),
    {
        let headers: Headers = match headers {
            Ok(h) => h,
            Err(text) => {
                return Err(to_status(text));
            },
        };
        let change: AuthoritySetChange = match authority_set_change {
            Ok(c) => c,
            Err(text) => {
                return Err(to_status(text));
            },
        };
        match self.lock_ceseal(false, true) {
            Ok(ceseal) => match ceseal.sync_header() {
                Ok(_) => Ok((headers, change)),
                Err(e) => Err(e.into_status()),
            },
            Err(e) => Err(e.into_status()),
        }
    }

    /// Begins to take blocks in, which may have been undecodable, with the decoder's text.
    pub fn dispatch_blocks<Changes>(&mut self, blocks: Result<Vec<Block<Changes>>, String>) -> (r:
        Result<BlockDispatch<Changes>, Status>)
        requires
            blocks is Ok && lock_refusal(old(self).node(), false, true) is None ==> (
            old(self).node().runtime_state matches Some(s)
                ==> s.storage_synchronizer.counters.next_block_number > 0),
        ensures
            *final(self) == *old(self),
            blocks_served(
                old(self).node(),
                blocks,
                final(self).node(),
                r,
            ),
    {
        let blocks: Vec<Block<Changes>> = match blocks {
            Ok(b) => b,
            Err(text) => {
                return Err(to_status(text));
            },
        };
        match self.lock_ceseal(false, true) {
            Ok(ceseal) => answer(ceseal.dispatch_blocks(blocks)),
            Err(e) => Err(e.into_status()),
        }
    }

    /// Begins the initialisation. The node is locked before the parameters are looked at, which
    /// may have been undecodable, with the decoder's text; the first state of the chain is handed
    /// back to be taken in.
    pub fn init_runtime<State>(
        &mut self,
        genesis_info: Result<GenesisBlock, String>,
        genesis_state: Result<State, String>,
        operator: Result<Option<AccountId>, String>,
        debug_set_key: Option<Vec<u8>>,
        attestation_provider: Result<Option<AttestationProvider>, String>,
    ) -> (r: Result<(IdentityToInit, State), Status>)
        ensures
            *final(self) == *old(self),
            init_served(
                old(self).node(),
                genesis_info,
                genesis_state,
                operator,
                debug_set_key,
                attestation_provider,
                final(self).node(),
                r,
            ),
    {
        let ceseal = match self.lock_ceseal(false, false) {
            Ok(c) => c,
            Err(e) => {
                return Err(e.into_status());
            },
        };
        let genesis: GenesisBlock = match genesis_info {
            Ok(g) => g,
            Err(text) => {
                return Err(to_status(text));
            },
        };
        let state: State = match genesis_state {
            Ok(s) => s,
            Err(text) => {
                return Err(to_status(text));
            },
        };
        let operator: Option<AccountId> = match operator {
            Ok(o) => o,
            Err(text) => {
                return Err(to_status(text));
            },
        };
        let attestation_provider: Option<AttestationProvider> = match attestation_provider {
            Ok(p) => p,
            Err(text) => {
                return Err(to_status(text));
            },
        };
        let request = InitRequest { genesis, operator, attestation_provider };
        match ceseal.init_runtime(request, debug_set_key) {
            Ok(p) => Ok((p, state)),
            Err(e) => Err(e.into_status()),
        }
    }

    /// Asks for the attested answer to the initialisation at the time `now`, in seconds.
    pub fn get_runtime_info(
        &mut self,
        force_refresh_ra: bool,
        operator: Result<Option<AccountId>, String>,
        now: u64,
    ) -> (r: Result<RuntimeInfoStep, Status>)
        requires
            operator matches Ok(Some(_)) ==> {
                let c = old(self).node();
                lock_refusal(c, true, false) is None && (c.trusted_sk || c.system is Some)
                    && c.runtime_state is Some ==> (c.runtime_info matches Some(i)
                    ==> registration_fits(i.runtime_info@))
            },
        ensures
            runtime_info_served(
                old(self).node(),
                force_refresh_ra,
                operator,
                now,
                final(self).node(),
                r,
            ),
    {
        match self.lock_ceseal(true, false) {
            Ok(ceseal) => match operator {
                Ok(operator) => answer(ceseal.get_runtime_info(force_refresh_ra, operator, now)),
                Err(text) => Err(to_status(text)),
            },
            Err(e) => Err(e.into_status()),
        }
    }

    /// The messages that wait to be sent to the chain, as `grouped` by their senders.
    pub fn get_egress_messages<Group>(&mut self, grouped: Vec<Group>) -> (r: Result<
        Vec<Group>,
        Status,
    >)
        ensures
            *final(self) == *old(self),
            egress_served(
                old(self).node(),
                grouped,
                final(self).node(),
                r,
            ),
    {
        match self.lock_ceseal(true, false) {
            Ok(ceseal) => Ok(ceseal.get_egress_messages(grouped)),
            Err(e) => Err(e.into_status()),
        }
    }

    /// Sets the endpoint and signs it.
    pub fn set_endpoint<F>(&mut self, endpoint: String, wrap: F) -> (r: Result<
        GetEndpointResponse,
        Status,
    >) where F: Fn(&[u8], SignedContentType) -> Vec<u8>
        requires
            lock_refusal(old(self).node(), false, false) is None && old(self).node().system is Some
                ==> text_fits(Some(endpoint@)) && wraps_all(wrap),
        ensures
            set_endpoint_served(
                old(self).node(),
                endpoint,
                wrap,
                final(self).node(),
                r,
            ),
    {
        match self.lock_ceseal(false, false) {
            Ok(ceseal) => answer(ceseal.set_endpoint(endpoint, wrap)),
            Err(e) => Err(e.into_status()),
        }
    }

    /// Signs the endpoint anew, at the time of the current block.
    pub fn refresh_endpoint_signing_time<F>(&mut self, wrap: F) -> (r: Result<
        GetEndpointResponse,
        Status,
    >) where F: Fn(&[u8], SignedContentType) -> Vec<u8>
        requires
            lock_refusal(old(self).node(), false, false) is None && old(self).node().system is Some
                ==> text_fits(text_view(old(self).node().endpoint)) && wraps_all(wrap),
        ensures
            refresh_served(
                old(self).node(),
                wrap,
                final(self).node(),
                r,
            ),
    {
        match self.lock_ceseal(false, false) {
            Ok(ceseal) => answer(ceseal.sign_endpoint(wrap)),
            Err(e) => Err(e.into_status()),
        }
    }

    /// The signed endpoint.
    pub fn get_endpoint_info<F>(&mut self, wrap: F) -> (r: Result<
        GetEndpointResponse,
        Status,
    >) where F: Fn(&[u8], SignedContentType) -> Vec<u8>
        requires
            lock_refusal(old(self).node(), true, false) is None && old(self).node().system is Some
                && old(self).node().signed_endpoint is None ==> text_fits(
                text_view(old(self).node().endpoint),
            ) && wraps_all(wrap),
        ensures
            endpoint_served(
                old(self).node(),
                wrap,
                final(self).node(),
                r,
            ),
    {
        match self.lock_ceseal(true, false) {
            Ok(ceseal) => answer(ceseal.get_endpoint_info(wrap)),
            Err(e) => Err(e.into_status()),
        }
    }

    /// The signed request of the node for the master key.
    pub fn get_master_key_apply<F>(&mut self, wrap: F) -> (r: Result<
        GetMasterKeyApplyResponse,
        Status,
    >) where F: Fn(&[u8], SignedContentType) -> Vec<u8>
        requires
            lock_refusal(old(self).node(), true, false) is None && old(self).node().system is Some
                ==> wraps_all(wrap),
        ensures
            *final(self) == *old(self),
            master_key_served(
                old(self).node(),
                wrap,
                final(self).node(),
                r,
            ),
    {
        match self.lock_ceseal(true, false) {
            Ok(ceseal) => answer(ceseal.get_master_key_apply(wrap)),
            Err(e) => Err(e.into_status()),
        }
    }

    /// Decides on a command for the server for outside clients.
    pub fn operate_external_server(&mut self, cmd: ExternalServerCmd) -> (r: Result<
        ExternalServerAction,
        Status,
    >)
        ensures
            external_server_served(
                old(self).node(),
                cmd,
                final(self).node(),
                r,
            ),
    {
        match self.lock_ceseal(false, false) {
            Ok(ceseal) => match ceseal.operate_external_server(cmd) {
                Ok(action) => Ok(action),
                Err(e) => Err(e.into_status()),
            },
            Err(e) => Err(e.into_status()),
        }
    }

    /// Sends a message back as it came, without the node.
    pub fn echo(request: EchoMessage) -> (r: Result<EchoMessage, Status>)
        ensures
            echoed(request, r),
    {
        let echo_msg: Vec<u8> = request.echo_msg;
        Ok(EchoMessage { echo_msg })
    }

    /// Gives out a challenge for the current block, which another node is to answer.
    pub fn handover_create_challenge(&mut self, sgx_target_info: Vec<u8>, nonce: [u8; 32]) -> (r:
        Result<HandoverChallenge, Status>)
        ensures
            challenge_served(
                old(self).node(),
                sgx_target_info,
                nonce,
                final(self).node(),
                r,
            ),
    {
        match self.lock_ceseal(false, true) {
            Ok(ceseal) => answer(ceseal.handover_create_challenge(sgx_target_info, nonce)),
            Err(e) => Err(e.into_status()),
        }
    }

    /// Opens the handover of the key to a node that answered a challenge.
    pub fn handover_start(
        &mut self,
        encoded_challenge_handler: &[u8],
        attestation: Option<Attestation>,
    ) -> (r: Result<HandoverStep, Status>)
        ensures
            start_served(
                old(self).node(),
                encoded_challenge_handler@,
                attestation,
                final(self).node(),
                r,
            ),
    {
        match self.lock_ceseal(false, true) {
            Ok(ceseal) => {
                let handler = ChallengeHandlerInfo::decode(encoded_challenge_handler);
                ceseal.handover_start(handler, attestation)
            },
            Err(e) => Err(e.into_status()),
        }
    }

    /// Takes up the challenge of another node with a fresh key pair.
    pub fn handover_accept_challenge(
        &mut self,
        ecdh_key: Vec<u8>,
        ecdh_pubkey: [u8; 32],
        encoded_challenge: &[u8],
    ) -> (r: Result<AcceptStep, Status>)
        ensures
            accept_served(
                old(self).node(),
                ecdh_key,
                ecdh_pubkey,
                encoded_challenge@,
                final(self).node(),
                r,
            ),
    {
        match self.lock_ceseal(false, true) {
            Ok(ceseal) => {
                let challenge = HandoverChallenge::decode(encoded_challenge);
                ceseal.handover_accept_challenge(ecdh_key, ecdh_pubkey, challenge)
            },
            Err(e) => Err(e.into_status()),
        }
    }

    /// Receives the encrypted key of another node at the time `now`, in seconds.
    pub fn handover_receive(
        &mut self,
        encoded_worker_key: &[u8],
        attestation: Option<Attestation>,
        now: u64,
    ) -> (r: Result<ReceiveStep, Status>)
        ensures
            *final(self) == *old(self),
            receive_served(
                old(self).node(),
                encoded_worker_key@,
                attestation,
                now,
                final(self).node(),
                r,
            ),
    {
        match self.lock_ceseal(false, true) {
            Ok(ceseal) => {
                let worker_key = EncryptedWorkerKey::decode(encoded_worker_key);
                ceseal.handover_receive(worker_key, attestation, now)
            },
            Err(e) => Err(e.into_status()),
        }
    }

    /// Begins to set the state of the chain at `block`. The node is locked before the state is
    /// looked at, which may have been undecodable, with the decoder's text; it is handed back to
    /// be read.
    pub fn load_chain_state<State>(
        &mut self,
        block: BlockNumber,
        state: Result<State, String>,
    ) -> (r: Result<(StateToRead, State), Status>)
        ensures
            *final(self) == *old(self),
            load_served(
                old(self).node(),
                block,
                state,
                final(self).node(),
                r,
            ),
    {
        let ceseal = match self.lock_ceseal(false, false) {
            Ok(c) => c,
            Err(e) => {
                return Err(e.into_status());
            },
        };
        let state: State = match state {
            Ok(s) => s,
            Err(text) => {
                return Err(to_status(text));
            },
        };
        match ceseal.load_chain_state(block) {
            Ok(p) => Ok((p, state)),
            Err(e) => Err(from_display(e.message()).into_status()),
        }
    }

    /// What is to be done before the process ends. It is told at any time.
    pub fn stop(&mut self, remove_checkpoints: bool) -> (r: Result<StopPlan, Status>)
        ensures
            *final(self) == *old(self),
            stop_served(
                old(self).node(),
                remove_checkpoints,
                final(self).node(),
                r,
            ),
    {
        match self.lock_ceseal(true, true) {
            Ok(ceseal) => Ok(ceseal.stop(remove_checkpoints)),
            Err(e) => Err(e.into_status()),
        }
    }

    /// Admits values of the chain with their proof, which are handed back to be put into the
    /// storage.
    pub fn load_storage_proof(&mut self, proof: Vec<Vec<u8>>) -> (r: Result<Vec<Vec<u8>>, Status>)
        ensures
            *final(self) == *old(self),
            proof_served(
                old(self).node(),
                proof,
                final(self).node(),
                r,
            ),
    {
        match self.lock_ceseal(false, true) {
            Ok(ceseal) => answer(ceseal.load_storage_proof(proof)),
            Err(e) => Err(e.into_status()),
        }
    }

    /// Whether a checkpoint may be taken now.
    pub fn take_checkpoint(&mut self) -> (r: Result<(), Status>)
        ensures
            *final(self) == *old(self),
            checkpoint_served(
                old(self).node(),
                final(self).node(),
                r,
            ),
    {
        match self.lock_ceseal(false, false) {
            Ok(_) => Ok(()),
            Err(e) => Err(e.into_status()),
        }
    }

    /// Answers with the block of the checkpoint that was taken, or with the debug form of the
    /// error.
    pub fn checkpoint_taken(&self, outcome: Result<BlockNumber, String>) -> (r: Result<
        SyncedTo,
        Status,
    >)
        ensures
            checkpoint_answered(outcome, r),
    {
        match outcome {
            Ok(synced_to) => Ok(SyncedTo { synced_to }),
            Err(text) => Err(from_debug(text).into_status()),
        }
    }
}

/// A request that allows for more is refused less: if the node can be locked, it can be locked
/// with more allowances, and with all of them it can be locked at any time.
pub proof fn law_allowances_only_help<P>(
    c: Ceseal<P>,
    allow_rcu: bool,
    allow_safemode: bool,
    more_rcu: bool,
    more_safemode: bool,
)
    requires
        allow_rcu ==> more_rcu,
        allow_safemode ==> more_safemode,
        lock_refusal(c, allow_rcu, allow_safemode) is None,
    ensures
        lock_refusal(c, more_rcu, more_safemode) is None,
        lock_refusal(c, true, true) is None,
{
}

/// In normal operation, with no copy being advanced, every request may lock the node.
pub proof fn law_normal_operation_refuses_none<P>(
    c: Ceseal<P>,
    allow_rcu: bool,
    allow_safemode: bool,
)
    requires
        !c.rcu_dispatching,
        c.args.safe_mode_level == 0,
    ensures
        lock_refusal(c, allow_rcu, allow_safemode) is None,
{
}

} // verus!
