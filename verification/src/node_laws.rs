//! What holds of a node as a whole: how it starts, what it reports, and what its errors tell.
use crate::attestation::{
    backoff, report_ordered, report_step, report_tried, ReportOrder, ReportStep,
};
use crate::challenge::{
    challenge_checked, challenge_created, challenge_in_time, challenge_made,
};
use crate::crypto::hex_text;
use crate::error::{
    error_message, internal, invalid_argument, lock_message, CesealLockError, CesealServiceError,
    Code, Error, Status,
};
use crate::service::lock_refusal;
use crate::state::{
    checkpoint_due, current_block_of, egress_given, external_server_operated,
    external_server_start_noted, fresh_node, info_given, node_refreshed, node_started,
    proof_admitted, stop_planned, Ceseal, CesealInfo, ChainStorage, ExternalServerAction,
    ExternalServerCmd, ExternalServerStub, InitArgs, RuntimeState, StopPlan, Synchronizer,
};
use crate::types::{
    AttestationProvider, BlockNumber, ExternalServerState, HandoverChallenge,
};
use vstd::arithmetic::power2::{lemma2_to64, lemma_pow2_strictly_increases, lemma_pow2_unfold, pow2};
use vstd::prelude::*;

verus! {

/// The request fails with an application error of the given text.
pub open spec fn says<T>(r: Result<T, CesealServiceError>, text: Seq<char>) -> bool {
    r matches Err(CesealServiceError::AppError(t)) && t@ == text
}

/// The reply is an internal error with the given text.
pub open spec fn replies<T>(r: Result<T, Status>, text: Seq<char>) -> bool {
    r matches Err(s) && s.code == Code::Internal && s.message@ == text
}

/// The reply rejects what was asked, with the given text.
pub open spec fn rejects<T>(r: Result<T, Status>, text: Seq<char>) -> bool {
    r matches Err(s) && s.code == Code::InvalidArgument && s.message@ == text
}

/// A service error is displayed with the text it was made of, and nothing else.
pub proof fn law_service_error_tells_its_text(e: CesealServiceError)
    ensures
        match e {
            CesealServiceError::CesealLock(CesealLockError::RcuDispatching) => e@.text()
                == "RCU in progress, please try again later"@,
            CesealServiceError::CesealLock(CesealLockError::SafeMode) => e@.text()
                == "This RPC is disabled in safe mode"@,
            CesealServiceError::DecodeError(t) => e@.text() == t@,
            CesealServiceError::AppError(t) => e@.text() == t@,
            CesealServiceError::Anyhow(t) => e@.text() == t@,
        },
{
}

/// An error of the node is told with its text, and a closed server with a text of its own.
pub proof fn law_node_error_tells_its_text(text: String)
    ensures
        error_message(Error::Anyhow(text)) == text@,
        error_message(Error::ExternalServerAlreadyClosed) == "External server already closed"@,
{
}

/// Only what rejects an argument has the code for it; both keep the text.
pub proof fn law_status_codes(s: Status, text: Seq<char>)
    ensures
        s@ == internal(text) <==> s.code == Code::Internal && s.message@ == text,
        s@ == invalid_argument(text) <==> s.code == Code::InvalidArgument && s.message@ == text,
{
}

/// A lock is refused while a copy of the state is being advanced, unless the request allows for
/// it; else in safe mode, unless the request allows for that; else it is given.
pub proof fn law_lock_refusals<P>(c: Ceseal<P>, allow_rcu: bool, allow_safemode: bool)
    ensures
        c.rcu_dispatching && !allow_rcu ==> (lock_refusal(c, allow_rcu, allow_safemode) matches Some(
            e,
        ) && lock_message(e) == "RCU in progress, please try again later"@),
        !(c.rcu_dispatching && !allow_rcu) && c.args.safe_mode_level != 0 && !allow_safemode ==> (
        lock_refusal(c, allow_rcu, allow_safemode) matches Some(e) && lock_message(e)
            == "This RPC is disabled in safe mode"@),
        !(c.rcu_dispatching && !allow_rcu) && !(c.args.safe_mode_level != 0 && !allow_safemode)
            ==> lock_refusal(c, allow_rcu, allow_safemode) is None,
{
}

/// A fresh node has its platform and nothing else, and any request may lock it.
pub proof fn law_fresh_node_has_nothing<P>(
    c: Ceseal<P>,
    platform: P,
    allow_rcu: bool,
    allow_safemode: bool,
)
    requires
        fresh_node(c, platform),
    ensures
        c.platform == platform,
        c.runtime_state is None && c.system is None && c.runtime_info is None,
        c.endpoint is None && c.signed_endpoint is None && c.attestation_provider is None,
        c.handover_ecdh_key is None && c.handover_last_challenge is None,
        c.external_server_stub is None,
        !c.dev_mode && !c.trusted_sk && !c.can_load_chain_state,
        c.machine_id@.len() == 0,
        !c.args.enable_checkpoint && c.args.ra_max_retries == 0 && c.args.ra_timeout_ms == 0,
        lock_refusal(c, allow_rcu, allow_safemode) is None,
{
}

/// Starting a node sets its arguments, its machine and whether the state of the chain may be set,
/// and nothing else.
pub proof fn law_node_is_started_as_given<P>(
    pre: Ceseal<P>,
    args: InitArgs,
    machine_id: Vec<u8>,
    can_load_chain_state: bool,
    post: Ceseal<P>,
)
    requires
        node_started(pre, args, machine_id, can_load_chain_state, post),
    ensures
        post.args == args,
        post.machine_id@ == machine_id@,
        post.can_load_chain_state == can_load_chain_state,
        pre == (Ceseal {
            args: pre.args,
            machine_id: pre.machine_id,
            can_load_chain_state: pre.can_load_chain_state,
            ..post
        }),
{
}

/// What a node takes over of its surroundings is what it holds afterwards; its keys, its genesis
/// and everything else stay.
pub proof fn law_refreshed_node_follows<P>(
    pre: Ceseal<P>,
    chain_storage: ChainStorage,
    storage_synchronizer: Synchronizer,
    pending_messages: u64,
    now_ms: u64,
    registered: bool,
    post: Ceseal<P>,
)
    requires
        node_refreshed(
            pre,
            chain_storage,
            storage_synchronizer,
            pending_messages,
            now_ms,
            registered,
            post,
        ),
    ensures
        match (pre.runtime_state, post.runtime_state) {
            (Some(s), Some(t)) => t.chain_storage == chain_storage && t.storage_synchronizer
                == storage_synchronizer && t.pending_messages == pending_messages
                && t.genesis_block_hash@ == s.genesis_block_hash@,
            (None, None) => true,
            _ => false,
        },
        match (pre.system, post.system) {
            (Some(s), Some(t)) => t.now_ms == now_ms && t.registered == registered
                && t.identity_key == s.identity_key && t.ecdh_public_key@ == s.ecdh_public_key@
                && t.genesis_block == s.genesis_block,
            (None, None) => true,
            _ => false,
        },
        pre == (Ceseal { runtime_state: pre.runtime_state, system: pre.system, ..post }),
{
}

/// The current block is the one before the one that is expected next, at the time of the chain.
pub proof fn law_current_block_precedes_the_next(s: RuntimeState)
    ensures
        s.storage_synchronizer.counters.next_block_number > 0 ==> current_block_of(s).0 + 1
            == s.storage_synchronizer.counters.next_block_number,
        s.storage_synchronizer.counters.next_block_number == 0 ==> current_block_of(s).0 == 0,
        current_block_of(s).1 == s.chain_storage.timestamp_now,
{
}

/// The report shows the state of the chain just where there is one, the block time of the kind
/// that the safe mode calls for, and what the node holds.
pub proof fn law_report_shows_the_node<P, S, M>(
    c: Ceseal<P>,
    system_info: Option<S>,
    memory_usage: M,
    info: CesealInfo<S, M>,
)
    requires
        c.system is Some ==> system_info is Some,
        info_given(c, system_info, memory_usage, info),
    ensures
        info.initialized <==> c.runtime_state is Some,
        match c.runtime_state {
            Some(s) => {
                &&& info.genesis_block_hash matches Some(t) && t@ == hex_text(s.genesis_block_hash@)
                &&& info.state_root@ == hex_text(s.chain_storage.root@)
                &&& info.headernum == s.storage_synchronizer.counters.next_header_number
                &&& info.blocknum == s.storage_synchronizer.counters.next_block_number
                &&& info.pending_messages == s.pending_messages
            },
            None => info.genesis_block_hash is None && info.state_root@.len() == 0
                && info.headernum == 0 && info.blocknum == 0 && info.pending_messages == 0,
        },
        info.system is Some <==> c.system is Some,
        c.system is Some ==> info.system == system_info,
        info.memory_usage == Some(memory_usage),
        info.dev_mode == c.dev_mode,
        info.version@ == c.args.version@,
        info.git_revision@ == c.args.git_revision@,
        info.can_load_chain_state == c.can_load_chain_state,
        info.safe_mode_level == c.args.safe_mode_level,
        c.args.safe_mode_level == 0 ==> info.current_block_time == (match c.system {
            Some(s) => s.now_ms,
            None => 0,
        }),
        c.args.safe_mode_level == 1 ==> info.current_block_time == (match c.runtime_state {
            Some(s) => s.chain_storage.timestamp_now,
            None => 0,
        }),
        c.args.safe_mode_level > 1 ==> info.current_block_time == 0,
        info.external_server_state == ExternalServerState::Serving <==> c.external_server_stub
            is Some,
{
}

/// The number that a lower-case hexadecimal digit stands for.
pub open spec fn hex_value(c: char) -> int {
    if '0' <= c && c <= '9' {
        c as int - '0' as int
    } else if 'a' <= c && c <= 'f' {
        c as int - 'a' as int + 10
    } else {
        -1
    }
}

/// Hexadecimal text spells each byte in two digits, the high half first.
pub proof fn law_hex_text_spells_the_bytes(data: Seq<u8>, i: int)
    requires
        0 <= i < data.len(),
    ensures
        hex_text(data).len() == 2 * data.len(),
        0 <= hex_value(hex_text(data)[2 * i]) < 16,
        0 <= hex_value(hex_text(data)[2 * i + 1]) < 16,
        16 * hex_value(hex_text(data)[2 * i]) + hex_value(hex_text(data)[2 * i + 1])
            == data[i] as int,
{
}

/// All messages that wait are given, in their order, once there is a runtime, and none before.
pub proof fn law_waiting_messages_are_given<P, Group>(
    c: Ceseal<P>,
    grouped: Vec<Group>,
    r: Vec<Group>,
)
    requires
        egress_given(c, grouped, r),
    ensures
        c.runtime_state is Some ==> r@ == grouped@,
        c.runtime_state is None ==> r@.len() == 0,
{
}

/// A checkpoint is due from the interval on, and never where checkpoints are not taken.
pub proof fn law_checkpoint_is_due_from_the_interval_on<P>(c: Ceseal<P>, elapsed_secs: u64)
    ensures
        !c.args.enable_checkpoint ==> !checkpoint_due(c, elapsed_secs),
        c.args.enable_checkpoint ==> (checkpoint_due(c, elapsed_secs) <==> elapsed_secs
            >= c.args.checkpoint_interval),
{
}

/// Values with their proof are admitted as they came, from the second level of safe mode on, once
/// there is a runtime; each refusal has its reason.
pub proof fn law_proofs_are_admitted_whole<P>(
    c: Ceseal<P>,
    offered: Vec<Vec<u8>>,
    r: Result<Vec<Vec<u8>>, CesealServiceError>,
)
    requires
        proof_admitted(c, offered, r),
    ensures
        r is Ok <==> c.args.safe_mode_level >= 2 && c.runtime_state is Some,
        r matches Ok(admitted) ==> admitted == offered,
        c.args.safe_mode_level < 2 ==> says(
            r,
            "Can not load storage proof when safe_mode_level < 2"@,
        ),
        c.args.safe_mode_level >= 2 && c.runtime_state is None ==> says(
            r,
            "Runtime not initialized"@,
        ),
{
}

/// Checkpoints are removed where the node keeps them, and only if that was asked for.
pub proof fn law_stop_removes_own_checkpoints_only<P>(
    c: Ceseal<P>,
    remove_checkpoints: bool,
    r: StopPlan,
)
    requires
        stop_planned(c, remove_checkpoints, r),
    ensures
        remove_checkpoints ==> (r.remove_checkpoints_in matches Some(path) && path@
            == c.args.storage_path@),
        !remove_checkpoints ==> r.remove_checkpoints_in is None,
{
}

/// A server that was started is the one that the next shutdown stops; a further shutdown finds
/// none. Nothing but the server changes.
pub proof fn law_started_server_is_shut_down_once<P>(
    a: Ceseal<P>,
    stub: ExternalServerStub,
    b: Ceseal<P>,
    started: Result<(), Error>,
    c: Ceseal<P>,
    first: Result<ExternalServerAction, Error>,
    d: Ceseal<P>,
    second: Result<ExternalServerAction, Error>,
)
    requires
        external_server_start_noted(a, Ok(stub), b, started),
        external_server_operated(b, ExternalServerCmd::Shutdown, c, first),
        external_server_operated(c, ExternalServerCmd::Shutdown, d, second),
    ensures
        started is Ok,
        first == Ok::<ExternalServerAction, Error>(ExternalServerAction::Shutdown(stub)),
        second == Err::<ExternalServerAction, Error>(Error::ExternalServerAlreadyClosed),
        c.external_server_stub is None,
        a == (Ceseal { external_server_stub: a.external_server_stub, ..b }),
        a == (Ceseal { external_server_stub: a.external_server_stub, ..c }),
        d == c,
{
}

/// A start is always asked for, and one that failed changes nothing and tells its reason.
pub proof fn law_failed_start_changes_nothing<P>(
    a: Ceseal<P>,
    b: Ceseal<P>,
    asked: Result<ExternalServerAction, Error>,
    text: String,
    c: Ceseal<P>,
    r: Result<(), Error>,
)
    requires
        external_server_operated(a, ExternalServerCmd::Start, b, asked),
        external_server_start_noted(b, Err(text), c, r),
    ensures
        asked == Ok::<ExternalServerAction, Error>(ExternalServerAction::Start),
        b == a,
        c == a,
        r matches Err(e) && error_message(e) == text@,
{
}

/// A report that was created becomes an attestation of it, at the time it was created; a failed
/// try is repeated after 1, 2, 4 and from then on 8 seconds; after the last one its error is told.
pub proof fn law_each_try_has_its_follow_up(
    tried: u32,
    max_retries: u32,
    provider: Seq<char>,
    outcome: Result<Seq<u8>, Seq<char>>,
    now: u64,
    step: ReportStep,
)
    requires
        step@ == report_step(tried as nat, max_retries as nat, provider, outcome, now),
    ensures
        outcome matches Ok(report) ==> {
            &&& step matches ReportStep::Created(a)
            &&& a.version == 1
            &&& a.provider@ == provider
            &&& a.payload is None
            &&& a.encoded_report@ == report
            &&& a.timestamp == now
        },
        outcome is Err && tried < max_retries ==> {
            &&& step matches ReportStep::Retry { tried: next, after_secs }
            &&& next == tried + 1
            &&& tried == 0 ==> after_secs == 1
            &&& tried == 1 ==> after_secs == 2
            &&& tried == 2 ==> after_secs == 4
            &&& tried >= 3 ==> after_secs == 8
        },
        outcome matches Err(text) ==> (tried >= max_retries ==> (step matches ReportStep::Failed(
            CesealServiceError::AppError(t),
        ) && t@ == "Failed to create attestation report: "@ + text)),
{
    lemma2_to64();
    if tried > 3 {
        lemma_pow2_strictly_increases(3, tried as nat);
    }
}

/// A node gives up a report after as many further tries as it was started with, and tells the error
/// of the last one; before that it tries again, and a success is taken at once.
pub proof fn law_node_tries_as_often_as_started<P>(
    c: Ceseal<P>,
    tried: u32,
    provider: String,
    outcome: Result<Vec<u8>, String>,
    now: u64,
    r: ReportStep,
)
    requires
        report_tried(c, tried, provider, outcome, now, r),
    ensures
        outcome matches Ok(report) ==> (r matches ReportStep::Created(a) && a.encoded_report@
            == report@ && a.provider@ == provider@ && a.timestamp == now),
        outcome is Err && tried < c.args.ra_max_retries ==> (r matches ReportStep::Retry {
            tried: next,
            ..
        } && next == tried + 1),
        outcome matches Err(text) ==> (tried >= c.args.ra_max_retries ==> (
        r matches ReportStep::Failed(CesealServiceError::AppError(t)) && t@
            == "Failed to create attestation report: "@ + text@)),
{
}

/// Each pause is twice the one before, until it is eight seconds long.
pub proof fn law_pauses_double(tried: nat)
    ensures
        backoff(0) == 1,
        backoff(tried + 1) == (if backoff(tried) < 8 {
            2 * backoff(tried)
        } else {
            8
        }),
{
    lemma2_to64();
    lemma_pow2_unfold(tried + 1);
    if tried > 3 {
        lemma_pow2_strictly_increases(3, tried);
    }
    if tried == 1 {
        assert(pow2(1) == 2);
    }
    if tried == 2 {
        assert(pow2(2) == 4);
    }
}

/// A report is ordered from the given provider on the given hash, with the limits that the node
/// was started with.
pub proof fn law_report_is_ordered_as_started(
    args: InitArgs,
    provider: Option<AttestationProvider>,
    hash: Seq<u8>,
    order: ReportOrder,
)
    requires
        report_ordered(args, provider, hash, order),
    ensures
        order.provider == provider,
        order.hash@ == hash,
        order.timeout_ms == args.ra_timeout_ms,
        order.max_retries == args.ra_max_retries,
{
}

/// A challenge can be answered from its own block on and for 150 blocks after it.
pub proof fn law_challenge_lasts_150_blocks(height: BlockNumber, now: BlockNumber)
    ensures
        challenge_in_time(height, now) <==> height <= now <= height + 150,
{
}

/// A challenge for a given block and time says just that, in the mode of the node, with the nonce
/// and, outside development mode, the target it was made with. It is the one that is expected.
pub proof fn law_made_challenge_says_what_it_was_made_of<P>(
    pre: Ceseal<P>,
    block_number: BlockNumber,
    now: u64,
    sgx_target_info: Vec<u8>,
    nonce: [u8; 32],
    post: Ceseal<P>,
    r: HandoverChallenge,
)
    requires
        challenge_made(pre, block_number, now, sgx_target_info, nonce, post, r),
    ensures
        r.block_number == block_number,
        r.now == now,
        r.nonce@ == nonce@,
        r.dev_mode == pre.dev_mode,
        pre.dev_mode ==> r.sgx_target_info@.len() == 0,
        !pre.dev_mode ==> r.sgx_target_info@ == sgx_target_info@,
        same_challenge(post.handover_last_challenge, r),
        pre == (Ceseal { handover_last_challenge: pre.handover_last_challenge, ..post }),
{
}

/// The expected challenge agrees with the given one in every part.
pub open spec fn same_challenge(
    expected: Option<HandoverChallenge>,
    challenge: HandoverChallenge,
) -> bool {
    &&& expected matches Some(last)
    &&& last.sgx_target_info@ == challenge.sgx_target_info@
    &&& last.block_number == challenge.block_number
    &&& last.now == challenge.now
    &&& last.dev_mode == challenge.dev_mode
    &&& last.nonce@ == challenge.nonce@
}

/// A challenge that a node gives out is of the block before the one it expects next and of the
/// time of its chain; without a runtime none is given out.
pub proof fn law_given_out_challenge_is_of_the_current_block<P>(
    pre: Ceseal<P>,
    sgx_target_info: Vec<u8>,
    nonce: [u8; 32],
    post: Ceseal<P>,
    r: Result<HandoverChallenge, CesealServiceError>,
)
    requires
        challenge_created(pre, sgx_target_info, nonce, post, r),
    ensures
        pre.runtime_state is None ==> post == pre && says(r, "Runtime not initialized"@),
        pre.runtime_state matches Some(s) ==> {
            let next = s.storage_synchronizer.counters.next_block_number;
            &&& r matches Ok(challenge)
            &&& next > 0 ==> challenge.block_number + 1 == next
            &&& next == 0 ==> challenge.block_number == 0
            &&& challenge.now == s.chain_storage.timestamp_now
            &&& challenge.dev_mode == pre.dev_mode
            &&& challenge.nonce@ == nonce@
            &&& pre.dev_mode ==> challenge.sgx_target_info@.len() == 0
            &&& !pre.dev_mode ==> challenge.sgx_target_info@ == sgx_target_info@
            &&& same_challenge(post.handover_last_challenge, challenge)
            &&& pre == (Ceseal { handover_last_challenge: pre.handover_last_challenge, ..post })
        },
{
}

/// A challenge is accepted just where it agrees with the expected one in every part; checking it
/// spends the expected one and changes nothing else.
pub proof fn law_accepted_challenge_is_the_expected_one<P>(
    pre: Ceseal<P>,
    challenge: HandoverChallenge,
    post: Ceseal<P>,
    accepted: bool,
)
    requires
        challenge_checked(pre, challenge, post, accepted),
    ensures
        accepted <==> same_challenge(pre.handover_last_challenge, challenge),
        post.handover_last_challenge is None,
        pre == (Ceseal { handover_last_challenge: pre.handover_last_challenge, ..post }),
{
}

} // verus!
