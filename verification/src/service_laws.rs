//! What holds of every request: who is refused, in which order things are looked at, and that a
//! served request is the operation of the node with the same name.
use crate::blocks::{dispatch_begun, Block, BlockDispatch};
use crate::chain_laws::expected_from;
use crate::chain_state::{load_admitted, StateToRead};
use crate::challenge::challenge_created;
use crate::encoding::{
    challenge_bytes, challenge_decoded, challenge_fits, handler_bytes, handler_decoded,
    handler_fits, law_challenge_read_back, law_handler_read_back, law_worker_key_read_back,
    worker_key_bytes, worker_key_decoded, worker_key_fits,
};
use crate::endpoint::{endpoint_given, endpoint_set, endpoint_signed, master_key_applied};
use crate::endpoint_laws::same_text;
use crate::error::{error_message, CesealServiceError, Error, Status};
use crate::handover_client::{challenge_taken_up, key_received, AcceptStep, ReceiveStep};
use crate::handover_server::{handover_opened, HandoverStep};
use crate::node_laws::replies;
use crate::runtime::{runtime_info_asked, GenesisBlock, IdentityToInit, RuntimeInfoStep};
use crate::runtime_laws::same_operator;
use crate::service::{
    accept_served, blocks_served, challenge_served, checkpoint_answered, checkpoint_served, echoed,
    egress_served, endpoint_served, external_server_served, headers_served, info_served,
    init_served, load_served, master_key_served, proof_served, receive_served, refresh_served,
    runtime_info_served, set_endpoint_served, start_served, stop_served,
};
use crate::state::{
    info_given, Ceseal, CesealInfo, ExternalServerAction, ExternalServerCmd, StopPlan,
};
use crate::types::{
    AccountId, Attestation, AttestationProvider, BlockNumber, ChallengeHandlerInfo, EchoMessage,
    EncryptedWorkerKey, GetEndpointResponse, GetMasterKeyApplyResponse, HandoverChallenge,
    SignedContentType, SyncedTo,
};
use vstd::prelude::*;

verus! {

/// The node serves a request with these allowances: no copy is being advanced, or that is allowed
/// for, and the node is not in safe mode, or that is allowed for.
pub open spec fn serves<P>(c: Ceseal<P>, allow_rcu: bool, allow_safemode: bool) -> bool {
    (!c.rcu_dispatching || allow_rcu) && (c.args.safe_mode_level == 0 || allow_safemode)
}

/// A request that is not served changes nothing, and is told why: that a copy is being advanced
/// comes before safe mode.
pub open spec fn turned_away<P, T>(
    pre: Ceseal<P>,
    allow_rcu: bool,
    post: Ceseal<P>,
    r: Result<T, Status>,
) -> bool {
    &&& post == pre
    &&& if pre.rcu_dispatching && !allow_rcu {
        replies(r, "RCU in progress, please try again later"@)
    } else {
        replies(r, "This RPC is disabled in safe mode"@)
    }
}

/// The reply is what came of the operation, an error by its text.
pub open spec fn told<T>(inner: Result<T, CesealServiceError>, r: Result<T, Status>) -> bool {
    match inner {
        Ok(v) => r == Ok::<T, Status>(v),
        Err(CesealServiceError::AppError(t)) => replies(r, t@),
        Err(CesealServiceError::DecodeError(t)) => replies(r, t@),
        Err(CesealServiceError::Anyhow(t)) => replies(r, t@),
        Err(CesealServiceError::CesealLock(_)) => r is Err,
    }
}

/// The general report is given at any time and changes nothing.
pub proof fn law_info_is_served_always<P, S, M>(
    pre: Ceseal<P>,
    system_info: Option<S>,
    memory_usage: M,
    post: Ceseal<P>,
    r: Result<CesealInfo<S, M>, Status>,
)
    requires
        info_served(pre, system_info, memory_usage, post, r),
    ensures
        post == pre,
        r matches Ok(info) && info_given(pre, system_info, memory_usage, info),
{
}

/// Undecodable headers are told of first, then an undecodable change, then the lock is asked for,
/// with an allowance for safe mode. Headers that are served are handed back as they came.
pub proof fn law_headers_are_served<P, H, A>(
    pre: Ceseal<P>,
    headers: Result<H, String>,
    change: Result<A, String>,
    post: Ceseal<P>,
    r: Result<(H, A), Status>,
)
    requires
        headers_served(pre, headers, change, post, r),
    ensures
        headers matches Err(text) ==> post == pre && replies(r, text@),
        headers is Ok ==> (change matches Err(text) ==> post == pre && replies(r, text@)),
        headers is Ok && change is Ok && !serves(pre, false, true) ==> turned_away(
            pre,
            false,
            post,
            r,
        ),
        headers matches Ok(h) ==> (change matches Ok(a) ==> (serves(pre, false, true) ==> {
            &&& !post.can_load_chain_state
            &&& pre == (Ceseal { can_load_chain_state: pre.can_load_chain_state, ..post })
            &&& pre.runtime_state is None ==> replies(r, "Runtime not initialized"@)
            &&& pre.runtime_state is Some ==> r == Ok::<(H, A), Status>((h, a))
        })),
{
}

/// Undecodable blocks are told of before the lock is asked for, with an allowance for safe mode.
/// Of blocks that are served, those that are still expected are dispatched, in their order.
pub proof fn law_blocks_are_served<P, Changes>(
    pre: Ceseal<P>,
    blocks: Result<Vec<Block<Changes>>, String>,
    post: Ceseal<P>,
    r: Result<BlockDispatch<Changes>, Status>,
)
    requires
        blocks_served(pre, blocks, post, r),
    ensures
        post == pre,
        blocks matches Err(text) ==> replies(r, text@),
        blocks is Ok && !serves(pre, false, true) ==> turned_away(pre, false, post, r),
        blocks is Ok && serves(pre, false, true) && pre.runtime_state is None ==> replies(
            r,
            "Runtime not initialized"@,
        ),
        blocks matches Ok(b) ==> (serves(pre, false, true) ==> (pre.runtime_state matches Some(s)
            ==> {
            let next = s.storage_synchronizer.counters.next_block_number;
            &&& r matches Ok(d)
            &&& d.blocks@ == b@.filter(expected_from(next))
            &&& d.blocks@.len() > 0 ==> d.last_block == d.blocks@[d.blocks@.len() - 1].number
            &&& d.blocks@.len() == 0 ==> d.last_block + 1 == next
        })),
{
    if blocks is Ok && serves(pre, false, true) {
        let b = blocks->Ok_0;
        let inner = choose|inner: Result<BlockDispatch<Changes>, CesealServiceError>|
            #[trigger] dispatch_begun(pre, b@, inner) && crate::service::answers(inner, r);
        crate::chain_laws::law_dispatch_begins_with_what_is_expected(pre, b@, inner);
    }
}

/// The lock for an initialisation, without allowances, is asked for before the parameters are
/// looked at; then they are told of in their order. What is served is begun with just them.
pub proof fn law_initialisation_is_served<P, State>(
    pre: Ceseal<P>,
    genesis_info: Result<GenesisBlock, String>,
    genesis_state: Result<State, String>,
    operator: Result<Option<AccountId>, String>,
    debug_set_key: Option<Vec<u8>>,
    attestation_provider: Result<Option<AttestationProvider>, String>,
    post: Ceseal<P>,
    r: Result<(IdentityToInit, State), Status>,
)
    requires
        init_served(
            pre,
            genesis_info,
            genesis_state,
            operator,
            debug_set_key,
            attestation_provider,
            post,
            r,
        ),
    ensures
        post == pre,
        !serves(pre, false, false) ==> turned_away(pre, false, post, r),
        serves(pre, false, false) ==> {
            &&& genesis_info matches Err(text) ==> replies(r, text@)
            &&& genesis_info is Ok ==> (genesis_state matches Err(text) ==> replies(r, text@))
            &&& genesis_info is Ok && genesis_state is Ok ==> (operator matches Err(text)
                ==> replies(r, text@))
            &&& genesis_info is Ok && genesis_state is Ok && operator is Ok ==> (
            attestation_provider matches Err(text) ==> replies(r, text@))
            &&& genesis_info is Ok && genesis_state is Ok && operator is Ok && attestation_provider
                is Ok && pre.system is Some ==> replies(r, "Runtime already initialized"@)
            &&& genesis_info is Ok && genesis_state is Ok && operator is Ok && attestation_provider
                is Ok && pre.system is None && debug_set_key is None ==> r is Ok
        },
        r matches Ok(begun) ==> {
            &&& genesis_info matches Ok(g) && begun.0.request.genesis.hash@ == g.hash@
                && begun.0.request.genesis.state_root@ == g.state_root@
            &&& operator matches Ok(o) && same_operator(begun.0.request.operator, o)
            &&& attestation_provider matches Ok(a) && begun.0.request.attestation_provider == a
            &&& genesis_state == Ok::<State, String>(begun.1)
            &&& begun.0.debug_key is Some <==> debug_set_key is Some
            &&& debug_set_key matches Some(seed) ==> begun.0.debug_key->0.secret_bytes() == seed@
        },
{
}

/// The lock for the attested answer, with an allowance for advancing, is asked for before the
/// operator is looked at. What is served is the answer of the node for the same refresh, operator
/// and time.
pub proof fn law_attested_answer_is_served<P>(
    pre: Ceseal<P>,
    force_refresh_ra: bool,
    operator: Result<Option<AccountId>, String>,
    now: u64,
    post: Ceseal<P>,
    r: Result<RuntimeInfoStep, Status>,
)
    requires
        runtime_info_served(pre, force_refresh_ra, operator, now, post, r),
    ensures
        !serves(pre, true, false) ==> turned_away(pre, true, post, r),
        serves(pre, true, false) ==> (operator matches Err(text) ==> post == pre && replies(
            r,
            text@,
        )),
        serves(pre, true, false) ==> (operator matches Ok(o) ==> exists|
            inner: Result<RuntimeInfoStep, CesealServiceError>,
        |
            #[trigger] runtime_info_asked(pre, force_refresh_ra, o, now, post, inner) && told(
                inner,
                r,
            )),
        r matches Ok(RuntimeInfoStep::Ready(answer)) ==> (answer.attestation matches Some(a)
            ==> !force_refresh_ra && operator == Ok::<Option<AccountId>, String>(None) && now
            <= a.timestamp + 3600),
        r is Ok ==> (operator matches Ok(Some(a)) ==> (post.runtime_info matches Some(kept)
            && same_operator(kept.runtime_info.operator, Some(a)))),
{
    if serves(pre, true, false) && operator is Ok {
        let o = operator->Ok_0;
        let inner = choose|inner: Result<RuntimeInfoStep, CesealServiceError>|
            #[trigger] runtime_info_asked(pre, force_refresh_ra, o, now, post, inner)
                && crate::service::answers(inner, r);
        assert(told(inner, r));
        crate::runtime_laws::law_attested_answer_is_asked_for(
            pre,
            force_refresh_ra,
            o,
            now,
            post,
            inner,
        );
    }
}

/// The messages to the chain are given with an allowance for advancing, all in their order once
/// there is a runtime.
pub proof fn law_messages_are_served<P, Group>(
    pre: Ceseal<P>,
    grouped: Vec<Group>,
    post: Ceseal<P>,
    r: Result<Vec<Group>, Status>,
)
    requires
        egress_served(pre, grouped, post, r),
    ensures
        post == pre,
        !serves(pre, true, false) ==> turned_away(pre, true, post, r),
        serves(pre, true, false) ==> {
            &&& r matches Ok(messages)
            &&& pre.runtime_state is Some ==> messages@ == grouped@
            &&& pre.runtime_state is None ==> messages@.len() == 0
        },
{
}

/// An endpoint is set without allowances; what is served sets and signs just that endpoint.
pub proof fn law_endpoint_setting_is_served<P, F>(
    pre: Ceseal<P>,
    endpoint: String,
    wrap: F,
    post: Ceseal<P>,
    r: Result<GetEndpointResponse, Status>,
) where F: Fn(&[u8], SignedContentType) -> Vec<u8>
    requires
        set_endpoint_served(pre, endpoint, wrap, post, r),
    ensures
        !serves(pre, false, false) ==> turned_away(pre, false, post, r),
        serves(pre, false, false) ==> (post.endpoint matches Some(t) && t@ == endpoint@),
        serves(pre, false, false) ==> exists|inner: Result<GetEndpointResponse, CesealServiceError>|
            #[trigger] endpoint_set(pre, endpoint, wrap, post, inner) && told(
                inner,
                r,
            ),
        r matches Ok(answer) ==> (answer.payload matches Some(p) && (p.endpoint matches Some(t)
            && t@ == endpoint@) && p.signing_time == pre.system->0.now_ms),
{
    if serves(pre, false, false) {
        let inner = choose|inner: Result<GetEndpointResponse, CesealServiceError>|
            #[trigger] endpoint_set(pre, endpoint, wrap, post, inner)
                && crate::service::answers(inner, r);
        assert(told(inner, r));
    }
}

/// The endpoint is signed anew without allowances, as it is set and at the time of the block.
pub proof fn law_new_signature_is_served<P, F>(
    pre: Ceseal<P>,
    wrap: F,
    post: Ceseal<P>,
    r: Result<GetEndpointResponse, Status>,
) where F: Fn(&[u8], SignedContentType) -> Vec<u8>
    requires
        refresh_served(pre, wrap, post, r),
    ensures
        !serves(pre, false, false) ==> turned_away(pre, false, post, r),
        serves(pre, false, false) ==> exists|inner: Result<GetEndpointResponse, CesealServiceError>|
            #[trigger] endpoint_signed(pre, wrap, post, inner) && told(inner, r),
        r matches Ok(answer) ==> (answer.payload matches Some(p) && same_text(
            p.endpoint,
            pre.endpoint,
        ) && p.signing_time == pre.system->0.now_ms),
{
    if serves(pre, false, false) {
        let inner = choose|inner: Result<GetEndpointResponse, CesealServiceError>|
            #[trigger] endpoint_signed(pre, wrap, post, inner) && crate::service::answers(inner, r);
        assert(told(inner, r));
    }
}

/// The endpoint is given with an allowance for advancing.
pub proof fn law_endpoint_is_served<P, F>(
    pre: Ceseal<P>,
    wrap: F,
    post: Ceseal<P>,
    r: Result<GetEndpointResponse, Status>,
) where F: Fn(&[u8], SignedContentType) -> Vec<u8>
    requires
        endpoint_served(pre, wrap, post, r),
    ensures
        !serves(pre, true, false) ==> turned_away(pre, true, post, r),
        serves(pre, true, false) ==> exists|inner: Result<GetEndpointResponse, CesealServiceError>|
            #[trigger] endpoint_given(pre, wrap, post, inner) && told(inner, r),
{
    if serves(pre, true, false) {
        let inner = choose|inner: Result<GetEndpointResponse, CesealServiceError>|
            #[trigger] endpoint_given(pre, wrap, post, inner) && crate::service::answers(inner, r);
        assert(told(inner, r));
    }
}

/// The application for the master key is given with an allowance for advancing, and changes
/// nothing; it names the node and the whole time of its block.
pub proof fn law_application_is_served<P, F>(
    pre: Ceseal<P>,
    wrap: F,
    post: Ceseal<P>,
    r: Result<GetMasterKeyApplyResponse, Status>,
) where F: Fn(&[u8], SignedContentType) -> Vec<u8>
    requires
        master_key_served(pre, wrap, post, r),
    ensures
        post == pre,
        !serves(pre, true, false) ==> turned_away(pre, true, post, r),
        serves(pre, true, false) ==> exists|
            inner: Result<GetMasterKeyApplyResponse, CesealServiceError>,
        |
            #[trigger] master_key_applied(pre, wrap, inner) && told(inner, r),
        r matches Ok(answer) ==> (pre.system matches Some(s) && answer.payload.signing_time
            == s.now_ms && answer.payload.pubkey@ == s.identity_key.public_bytes()
            && answer.payload.ecdh_pubkey@ == s.ecdh_public_key@),
{
    if serves(pre, true, false) {
        let inner = choose|inner: Result<GetMasterKeyApplyResponse, CesealServiceError>|
            #[trigger] master_key_applied(pre, wrap, inner) && crate::service::answers(inner, r);
        assert(told(inner, r));
    }
}

/// Commands for the server for outside clients are taken without allowances; a shutdown takes the
/// server that runs, and is refused where none does.
pub proof fn law_server_commands_are_served<P>(
    pre: Ceseal<P>,
    cmd: ExternalServerCmd,
    post: Ceseal<P>,
    r: Result<ExternalServerAction, Status>,
)
    requires
        external_server_served(pre, cmd, post, r),
    ensures
        !serves(pre, false, false) ==> turned_away(pre, false, post, r),
        serves(pre, false, false) && cmd == ExternalServerCmd::Start ==> post == pre && r == Ok::<
            ExternalServerAction,
            Status,
        >(ExternalServerAction::Start),
        serves(pre, false, false) && cmd == ExternalServerCmd::Shutdown ==> {
            &&& post.external_server_stub is None
            &&& pre == (Ceseal { external_server_stub: pre.external_server_stub, ..post })
            &&& pre.external_server_stub is None ==> replies(r, "External server already closed"@)
            &&& pre.external_server_stub matches Some(stub) ==> r == Ok::<
                ExternalServerAction,
                Status,
            >(ExternalServerAction::Shutdown(stub))
        },
{
}

/// A message comes back as it was sent.
pub proof fn law_echo_is_the_message(request: EchoMessage, r: Result<EchoMessage, Status>)
    requires
        echoed(request, r),
    ensures
        r matches Ok(reply) && reply.echo_msg@ == request.echo_msg@,
{
}

/// A challenge is given out with an allowance for safe mode, with the nonce and the target that it
/// is made of.
pub proof fn law_challenge_is_served<P>(
    pre: Ceseal<P>,
    sgx_target_info: Vec<u8>,
    nonce: [u8; 32],
    post: Ceseal<P>,
    r: Result<HandoverChallenge, Status>,
)
    requires
        challenge_served(pre, sgx_target_info, nonce, post, r),
    ensures
        !serves(pre, false, true) ==> turned_away(pre, false, post, r),
        serves(pre, false, true) ==> exists|inner: Result<HandoverChallenge, CesealServiceError>|
            #[trigger] challenge_created(pre, sgx_target_info, nonce, post, inner) && told(
                inner,
                r,
            ),
        r matches Ok(challenge) ==> challenge.nonce@ == nonce@ && challenge.dev_mode
            == pre.dev_mode,
{
    if serves(pre, false, true) {
        let inner = choose|inner: Result<HandoverChallenge, CesealServiceError>|
            #[trigger] challenge_created(pre, sgx_target_info, nonce, post, inner)
                && crate::service::answers(inner, r);
        assert(told(inner, r));
    }
}

/// A handover is opened with an allowance for safe mode, with the answer whose encoding was sent,
/// whatever follows it.
pub proof fn law_sent_answer_opens_the_handover<P>(
    pre: Ceseal<P>,
    handler: ChallengeHandlerInfo,
    rest: Seq<u8>,
    attestation: Option<Attestation>,
    post: Ceseal<P>,
    r: Result<HandoverStep, Status>,
)
    requires
        handler_fits(handler@),
        start_served(pre, handler_bytes(handler@) + rest, attestation, post, r),
    ensures
        !serves(pre, false, true) ==> turned_away(pre, false, post, r),
        serves(pre, false, true) ==> exists|read: ChallengeHandlerInfo|
            {
                &&& read.ecdh_pubkey@ == handler.ecdh_pubkey@
                &&& read.sgx_local_report@ == handler.sgx_local_report@
                &&& read.challenge.nonce@ == handler.challenge.nonce@
                &&& read.challenge.block_number == handler.challenge.block_number
                &&& read.challenge.now == handler.challenge.now
                &&& read.challenge.dev_mode == handler.challenge.dev_mode
                &&& read.challenge.sgx_target_info@ == handler.challenge.sgx_target_info@
                &&& #[trigger] handover_opened(pre, Ok(read), attestation, post, r)
            },
{
    if serves(pre, false, true) {
        let bytes = handler_bytes(handler@) + rest;
        let decoded = choose|h: Result<ChallengeHandlerInfo, String>|
            #[trigger] handler_decoded(bytes, h) && handover_opened(
                pre,
                h,
                attestation,
                post,
                r,
            );
        law_handler_read_back(handler, rest, decoded);
        let read = decoded->Ok_0;
        assert(read@.challenge == handler@.challenge);
        assert(handover_opened(pre, Ok(read), attestation, post, r));
    }
}

/// A challenge of another node is taken up with an allowance for safe mode, with the key pair that
/// is given and the challenge whose encoding was sent, whatever follows it.
pub proof fn law_sent_challenge_is_taken_up<P>(
    pre: Ceseal<P>,
    ecdh_key: Vec<u8>,
    ecdh_pubkey: [u8; 32],
    challenge: HandoverChallenge,
    rest: Seq<u8>,
    post: Ceseal<P>,
    r: Result<AcceptStep, Status>,
)
    requires
        challenge_fits(challenge@),
        accept_served(pre, ecdh_key, ecdh_pubkey, challenge_bytes(challenge@) + rest, post, r),
    ensures
        !serves(pre, false, true) ==> turned_away(pre, false, post, r),
        serves(pre, false, true) ==> exists|read: HandoverChallenge|
            {
                &&& read.nonce@ == challenge.nonce@
                &&& read.block_number == challenge.block_number
                &&& read.now == challenge.now
                &&& read.dev_mode == challenge.dev_mode
                &&& read.sgx_target_info@ == challenge.sgx_target_info@
                &&& #[trigger] challenge_taken_up(pre, ecdh_key, ecdh_pubkey, Ok(read), post, r)
            },
{
    if serves(pre, false, true) {
        let bytes = challenge_bytes(challenge@) + rest;
        let decoded = choose|c: Result<HandoverChallenge, String>|
            #[trigger] challenge_decoded(bytes, c) && challenge_taken_up(
                pre,
                ecdh_key,
                ecdh_pubkey,
                c,
                post,
                r,
            );
        law_challenge_read_back(challenge, rest, decoded);
        let read = decoded->Ok_0;
        assert(challenge_taken_up(pre, ecdh_key, ecdh_pubkey, Ok(read), post, r));
    }
}

/// A key is received with an allowance for safe mode: the one whose encoding was sent, whatever
/// follows it. Receiving it changes nothing yet.
pub proof fn law_sent_key_is_received<P>(
    pre: Ceseal<P>,
    key: EncryptedWorkerKey,
    rest: Seq<u8>,
    attestation: Option<Attestation>,
    now: u64,
    post: Ceseal<P>,
    r: Result<ReceiveStep, Status>,
)
    requires
        worker_key_fits(key@),
        receive_served(pre, worker_key_bytes(key@) + rest, attestation, now, post, r),
    ensures
        post == pre,
        !serves(pre, false, true) ==> turned_away(pre, false, post, r),
        serves(pre, false, true) ==> exists|read: EncryptedWorkerKey|
            {
                &&& read.dev_mode == key.dev_mode
                &&& read.genesis_block_hash@ == key.genesis_block_hash@
                &&& read.encrypted_key.ecdh_pubkey@ == key.encrypted_key.ecdh_pubkey@
                &&& read.encrypted_key.encrypted_key@ == key.encrypted_key.encrypted_key@
                &&& read.encrypted_key.iv@ == key.encrypted_key.iv@
                &&& #[trigger] key_received(pre, Ok(read), attestation, now, r)
            },
{
    if serves(pre, false, true) {
        let bytes = worker_key_bytes(key@) + rest;
        let decoded = choose|w: Result<EncryptedWorkerKey, String>|
            #[trigger] worker_key_decoded(bytes, w) && key_received(pre, w, attestation, now, r);
        law_worker_key_read_back(key, rest, decoded);
        let read = decoded->Ok_0;
        assert(read@.encrypted_key == key@.encrypted_key);
        assert(key_received(pre, Ok(read), attestation, now, r));
    }
}

/// What cannot be decoded is told of, after the lock was asked for, and opens and receives nothing.
pub proof fn law_undecodable_messages_are_told_of<P>(
    pre: Ceseal<P>,
    bytes: Seq<u8>,
    attestation: Option<Attestation>,
    now: u64,
    started: Ceseal<P>,
    r: Result<HandoverStep, Status>,
    received: Ceseal<P>,
    s: Result<ReceiveStep, Status>,
)
    requires
        start_served(pre, bytes, attestation, started, r),
        receive_served(pre, bytes, attestation, now, received, s),
        forall|h: ChallengeHandlerInfo|
            !#[trigger] crate::encoding::begins_with_handler(bytes, h@),
        forall|w: EncryptedWorkerKey|
            !#[trigger] crate::encoding::begins_with_worker_key(bytes, w@),
    ensures
        started == pre && r is Err,
        received == pre && s is Err,
        serves(pre, false, true) && pre.runtime_state is Some ==> replies(
            r,
            crate::encoding::handler_error(bytes),
        ),
        serves(pre, false, true) ==> replies(s, crate::encoding::worker_key_error(bytes)),
{
}

/// The state of the chain is set without allowances; the lock is asked for before the state is
/// looked at, which is handed back as it came.
pub proof fn law_chain_state_is_served<P, State>(
    pre: Ceseal<P>,
    block: BlockNumber,
    state: Result<State, String>,
    post: Ceseal<P>,
    r: Result<(StateToRead, State), Status>,
)
    requires
        load_served(pre, block, state, post, r),
    ensures
        post == pre,
        !serves(pre, false, false) ==> turned_away(pre, false, post, r),
        serves(pre, false, false) ==> (state matches Err(text) ==> replies(r, text@)),
        serves(pre, false, false) && state is Ok ==> {
            &&& !pre.can_load_chain_state ==> replies(r, "Can not load chain state"@)
            &&& r is Ok <==> pre.can_load_chain_state && block > 0 && pre.system is Some
                && pre.runtime_state is Some
        },
        r matches Ok(begun) ==> {
            &&& begun.0.block == block
            &&& begun.0.public_key@ == pre.system->0.identity_key.public_bytes()
            &&& state == Ok::<State, String>(begun.1)
        },
{
    if serves(pre, false, false) && state is Ok {
        let inner = choose|inner: Result<StateToRead, Error>|
            {
                &&& #[trigger] load_admitted(pre, block, inner)
                &&& match inner {
                    Ok(p) => r == Ok::<(StateToRead, State), Status>((p, state->Ok_0)),
                    Err(e) => crate::service::fails_with(r, error_message(e)),
                }
            };
        crate::chain_laws::law_state_is_set_for_a_reason(pre, block, inner);
    }
}

/// A stop is served at any time; checkpoints are removed where the node keeps them, and only if
/// that was asked for.
pub proof fn law_stop_is_served_always<P>(
    pre: Ceseal<P>,
    remove_checkpoints: bool,
    post: Ceseal<P>,
    r: Result<StopPlan, Status>,
)
    requires
        stop_served(pre, remove_checkpoints, post, r),
    ensures
        post == pre,
        r matches Ok(plan) && if remove_checkpoints {
            plan.remove_checkpoints_in matches Some(path) && path@ == pre.args.storage_path@
        } else {
            plan.remove_checkpoints_in is None
        },
{
}

/// Values with their proof are taken with an allowance for safe mode, which they need: from its
/// second level on they are admitted as they came.
pub proof fn law_proofs_are_served<P>(
    pre: Ceseal<P>,
    offered: Vec<Vec<u8>>,
    post: Ceseal<P>,
    r: Result<Vec<Vec<u8>>, Status>,
)
    requires
        proof_served(pre, offered, post, r),
    ensures
        post == pre,
        !serves(pre, false, true) ==> turned_away(pre, false, post, r),
        r is Ok <==> serves(pre, false, true) && pre.args.safe_mode_level >= 2 && pre.runtime_state
            is Some,
        r matches Ok(admitted) ==> admitted == offered,
        serves(pre, false, true) && pre.args.safe_mode_level < 2 ==> replies(
            r,
            "Can not load storage proof when safe_mode_level < 2"@,
        ),
        serves(pre, false, true) && pre.args.safe_mode_level >= 2 && pre.runtime_state is None
            ==> replies(r, "Runtime not initialized"@),
{
}

/// A checkpoint is taken without allowances, and answered with its block, or with why there is
/// none.
pub proof fn law_checkpoint_is_served<P>(
    pre: Ceseal<P>,
    post: Ceseal<P>,
    r: Result<(), Status>,
    outcome: Result<BlockNumber, String>,
    answer: Result<SyncedTo, Status>,
)
    requires
        checkpoint_served(pre, post, r),
        checkpoint_answered(outcome, answer),
    ensures
        post == pre,
        r is Ok <==> serves(pre, false, false),
        !serves(pre, false, false) ==> turned_away(pre, false, post, r),
        outcome matches Ok(block) ==> (answer matches Ok(to) && to.synced_to == block),
        outcome matches Err(text) ==> replies(answer, text@),
{
}

} // verus!
