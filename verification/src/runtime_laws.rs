//! What holds of an initialisation and of the attested answer to it, from request to reply.
use crate::crypto::{blake2_256_of, sr25519_public_of};
use crate::encoding::registration_bytes;
use crate::error::CesealServiceError;
use crate::node_laws::says;
use crate::runtime::{
    bridge_opened, identity_taken, init_begun, quote_tested, runtime_info_asked,
    runtime_info_given, system_started, BridgeToOpen, IdentityToInit, InitRequest, QuoteToTest,
    RuntimeData, RuntimeInfoStep, StartedSystem, SystemToStart,
};
use crate::state::{Ceseal, ChainStorage};
use crate::types::{
    AccountId, Attestation, InitRuntimeResponse, WorkerRegistrationInfo,
};
use vstd::prelude::*;

verus! {

/// Both name the same operator, or none.
pub open spec fn same_operator(a: Option<AccountId>, b: Option<AccountId>) -> bool {
    match (a, b) {
        (Some(x), Some(y)) => x@ == y@,
        (None, None) => true,
        _ => false,
    }
}

/// The registrations agree in every part but the operator.
pub open spec fn same_but_operator(
    a: WorkerRegistrationInfo,
    b: WorkerRegistrationInfo,
) -> bool {
    &&& a.version == b.version
    &&& a.machine_id@ == b.machine_id@
    &&& a.pubkey@ == b.pubkey@
    &&& a.ecdh_pubkey@ == b.ecdh_pubkey@
    &&& a.genesis_block_hash@ == b.genesis_block_hash@
    &&& a.features@ == b.features@
    &&& a.role == b.role
}

/// The attestations agree in every part.
pub open spec fn same_attestation(a: Attestation, b: Attestation) -> bool {
    &&& a.version == b.version
    &&& a.provider@ == b.provider@
    &&& a.encoded_report@ == b.encoded_report@
    &&& a.timestamp == b.timestamp
    &&& match (a.payload, b.payload) {
        (Some(x), Some(y)) => x@ == y@,
        (None, None) => true,
        _ => false,
    }
}

/// The answers agree in every part but the registration, its encoding and the attestation.
pub open spec fn same_node(a: InitRuntimeResponse, b: InitRuntimeResponse) -> bool {
    &&& a.genesis_block_hash@ == b.genesis_block_hash@
    &&& a.public_key@ == b.public_key@
    &&& a.ecdh_public_key@ == b.ecdh_public_key@
}

/// The answers agree in every part.
pub open spec fn same_answer(a: InitRuntimeResponse, b: InitRuntimeResponse) -> bool {
    &&& same_node(a, b)
    &&& same_but_operator(a.runtime_info, b.runtime_info)
    &&& same_operator(a.runtime_info.operator, b.runtime_info.operator)
    &&& a.encoded_runtime_info@ == b.encoded_runtime_info@
    &&& match (a.attestation, b.attestation) {
        (Some(x), Some(y)) => same_attestation(x, y),
        (None, None) => true,
        _ => false,
    }
}

/// The answer to an initialisation, and the one that is kept, registers the node under the
/// operator that was asked for, with its keys, its machine, its role, the first block of its chain
/// and what the platform reports; the encoding shows that registration, and nothing is attested.
/// The node has the identity that was unsealed or made, the mode and the trust that come with it,
/// and the provider that was asked for.
pub proof fn law_initialisation_answers_what_was_asked<P>(
    fresh: Ceseal<P>,
    request: InitRequest,
    debug_set_key: Option<Vec<u8>>,
    p1: IdentityToInit,
    data: RuntimeData,
    identified: Ceseal<P>,
    p2: QuoteToTest,
    p3: BridgeToOpen,
    chain_storage: ChainStorage,
    p4: SystemToStart,
    started: StartedSystem,
    done: Ceseal<P>,
    r: InitRuntimeResponse,
)
    requires
        init_begun(fresh, request, debug_set_key, Ok(p1)),
        identity_taken(fresh, p1, Ok(data), identified, Ok(p2)),
        quote_tested(p2, Ok(()), Ok(p3)),
        bridge_opened(p3, chain_storage, Ok(p4)),
        system_started(identified, p4, started, done, r),
    ensures
        same_operator(r.runtime_info.operator, request.operator),
        r.runtime_info.version == started.version,
        r.runtime_info.machine_id@ == fresh.machine_id@,
        r.runtime_info.pubkey@ == data.identity_key.public_bytes(),
        r.runtime_info.ecdh_pubkey@ == data.ecdh_public_key@,
        r.runtime_info.genesis_block_hash@ == request.genesis.hash@,
        r.runtime_info.features@ == seq![started.cpu_core_num, started.cpu_feature_level],
        r.runtime_info.role == fresh.args.role,
        r.encoded_runtime_info@ == registration_bytes(r.runtime_info@),
        r.genesis_block_hash@ == request.genesis.hash@,
        r.public_key@ == data.identity_key.public_bytes(),
        r.ecdh_public_key@ == data.ecdh_public_key@,
        r.attestation is None,
        done.runtime_info matches Some(kept) && same_answer(kept, r),
        done.runtime_state matches Some(s) && {
            &&& s.pending_messages == 0
            &&& s.storage_synchronizer == started.synchronizer
            &&& s.chain_storage == chain_storage
            &&& s.genesis_block_hash@ == request.genesis.hash@
        },
        done.system matches Some(s) && {
            &&& s.identity_key == data.identity_key
            &&& s.ecdh_public_key@ == data.ecdh_public_key@
            &&& s.now_ms == started.now_ms
            &&& s.genesis_block == started.genesis_block
            &&& s.registered == started.registered
        },
        done.dev_mode == data.dev_mode,
        done.trusted_sk == data.trusted_sk,
        done.attestation_provider == request.attestation_provider,
        chain_storage.root@ == request.genesis.state_root@,
        fresh.system is None,
        fresh == (Ceseal {
            runtime_info: fresh.runtime_info,
            runtime_state: fresh.runtime_state,
            system: fresh.system,
            dev_mode: fresh.dev_mode,
            trusted_sk: fresh.trusted_sk,
            attestation_provider: fresh.attestation_provider,
            ..done
        }),
{
}

/// An initialisation begins just where there is no system and the seed of a key for debugging, if
/// one is given, is accepted; what was asked for goes on as it came, and the key is that of the
/// seed.
pub proof fn law_initialisation_begins_once_with_a_good_key<P>(
    c: Ceseal<P>,
    request: InitRequest,
    debug_set_key: Option<Vec<u8>>,
    r: Result<IdentityToInit, CesealServiceError>,
)
    requires
        init_begun(c, request, debug_set_key, r),
    ensures
        c.system is Some ==> says(r, "Runtime already initialized"@),
        r is Ok <==> c.system is None && (debug_set_key matches Some(seed) ==> sr25519_public_of(
            seed@,
        ) is Some),
        r matches Ok(p) ==> {
            &&& p.request == request
            &&& p.debug_key is Some <==> debug_set_key is Some
            &&& debug_set_key matches Some(seed) ==> (p.debug_key matches Some(key)
                && key.secret_bytes() == seed@ && sr25519_public_of(seed@) == Some(
                key.public_bytes(),
            ))
        },
        c.system is None && r is Err ==> (debug_set_key matches Some(seed) && if seed@.len() == 64 {
            says(r, "InvalidSeed"@)
        } else {
            says(r, "InvalidSeedLength"@)
        }),
{
}

/// Each refusal on the way of an initialisation has its reason, and only an identity that is there
/// changes the node: it brings its mode, its trust and the provider that was asked for, even where
/// a key set from outside must not be attested.
pub proof fn law_initialisation_stops_for_a_reason<P>(
    pre: Ceseal<P>,
    p: IdentityToInit,
    outcome: Result<RuntimeData, String>,
    post: Ceseal<P>,
    r: Result<QuoteToTest, CesealServiceError>,
    tested: QuoteToTest,
    quote: Result<(), String>,
    s: Result<BridgeToOpen, CesealServiceError>,
    opened: BridgeToOpen,
    chain_storage: ChainStorage,
    t: Result<SystemToStart, CesealServiceError>,
)
    requires
        identity_taken(pre, p, outcome, post, r),
        quote_tested(tested, quote, s),
        bridge_opened(opened, chain_storage, t),
    ensures
        outcome matches Err(text) ==> says(r, text@) && post == pre,
        outcome matches Ok(data) ==> {
            &&& post.dev_mode == data.dev_mode
            &&& post.trusted_sk == data.trusted_sk
            &&& post.attestation_provider == p.request.attestation_provider
            &&& pre == (Ceseal {
                dev_mode: pre.dev_mode,
                trusted_sk: pre.trusted_sk,
                attestation_provider: pre.attestation_provider,
                ..post
            })
            &&& data.dev_mode && p.request.attestation_provider is Some ==> says(
                r,
                "RA is disallowed when debug_set_key is enabled"@,
            )
            &&& !(data.dev_mode && p.request.attestation_provider is Some) ==> (r matches Ok(q)
                && q.request == p.request && q.data == data)
        },
        quote matches Err(text) ==> says(s, text@),
        quote is Ok ==> (s matches Ok(q) && q.request == tested.request && q.data == tested.data),
        chain_storage.root@ != opened.request.genesis.state_root@ ==> says(
            t,
            "state root mismatch"@,
        ),
        chain_storage.root@ == opened.request.genesis.state_root@ ==> (t matches Ok(q) && q.request
            == opened.request && q.data == opened.data && q.chain_storage == chain_storage),
{
}

/// Asking for the attested answer keeps the registration but for an operator that is given, keeps
/// an attestation just where it is at most an hour old, no refresh was asked for and no operator
/// given, and asks for a report just where none is kept and the node may be attested: its state is
/// validated, and its key is its own or known to the chain, or nobody attests it. The report is on
/// the encoding that is kept.
pub proof fn law_attested_answer_is_asked_for<P>(
    pre: Ceseal<P>,
    refresh_ra: bool,
    operator: Option<AccountId>,
    now: u64,
    post: Ceseal<P>,
    r: Result<RuntimeInfoStep, CesealServiceError>,
)
    requires
        runtime_info_asked(pre, refresh_ra, operator, now, post, r),
    ensures
        pre == (Ceseal { runtime_info: pre.runtime_info, ..post }),
        (!pre.trusted_sk && pre.system is None) || pre.runtime_state is None ==> post == pre
            && says(r, "Runtime not initialized"@),
        (pre.trusted_sk || pre.system is Some) && pre.runtime_state is Some && pre.runtime_info
            is None ==> post == pre && says(r, "Uninitiated runtime info"@),
        (pre.trusted_sk || pre.system is Some) && pre.runtime_state is Some ==> (
        pre.runtime_info matches Some(info) ==> {
            &&& r is Ok
            &&& post.runtime_info matches Some(kept)
            &&& same_node(kept, info)
            &&& same_but_operator(kept.runtime_info, info.runtime_info)
            &&& operator is None ==> same_operator(
                kept.runtime_info.operator,
                info.runtime_info.operator,
            ) && kept.encoded_runtime_info@ == info.encoded_runtime_info@
            &&& operator is Some ==> same_operator(kept.runtime_info.operator, operator)
                && kept.encoded_runtime_info@ == registration_bytes(kept.runtime_info@)
            &&& kept.attestation is Some <==> !refresh_ra && operator is None && (
            info.attestation matches Some(a) && now <= a.timestamp + 3600)
            &&& kept.attestation matches Some(b) ==> same_attestation(b, info.attestation->0)
            &&& (r matches Ok(RuntimeInfoStep::CreateReport(_))) <==> kept.attestation is None
                && pre.runtime_state->0.storage_synchronizer.state_validated && (pre.trusted_sk
                || pre.attestation_provider is None || pre.system->0.registered)
            &&& r matches Ok(RuntimeInfoStep::CreateReport(order)) ==> {
                &&& order.provider == pre.attestation_provider
                &&& order.hash@ == blake2_256_of(kept.encoded_runtime_info@)
                &&& order.timeout_ms == pre.args.ra_timeout_ms
                &&& order.max_retries == pre.args.ra_max_retries
            }
            &&& r matches Ok(RuntimeInfoStep::Ready(answer)) ==> same_answer(answer, kept)
        }),
{
}

/// The attested answer is the kept one with the attestation that was created, which is kept with
/// it; a failed creation is told and leaves what is kept.
pub proof fn law_attested_answer_is_given<P>(
    pre: Ceseal<P>,
    outcome: Result<Attestation, CesealServiceError>,
    post: Ceseal<P>,
    r: Result<InitRuntimeResponse, CesealServiceError>,
)
    requires
        runtime_info_given(pre, outcome, post, r),
    ensures
        pre == (Ceseal { runtime_info: pre.runtime_info, ..post }),
        outcome matches Err(e) ==> post == pre && r == Err::<
            InitRuntimeResponse,
            CesealServiceError,
        >(e),
        outcome is Ok && pre.runtime_info is None ==> post == pre && says(
            r,
            "Uninitiated runtime info"@,
        ),
        outcome matches Ok(a) ==> (pre.runtime_info matches Some(info) ==> {
            &&& r matches Ok(answer)
            &&& answer.attestation matches Some(b)
            &&& same_attestation(b, a)
            &&& same_node(answer, info)
            &&& same_but_operator(answer.runtime_info, info.runtime_info)
            &&& same_operator(answer.runtime_info.operator, info.runtime_info.operator)
            &&& answer.encoded_runtime_info@ == info.encoded_runtime_info@
            &&& post.runtime_info matches Some(kept)
            &&& same_answer(kept, answer)
        }),
{
}

} // verus!
