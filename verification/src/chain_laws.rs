//! What holds of following the chain: which blocks are taken in, what is answered, and what is
//! done for the messages in them.
use crate::blocks::{
    block_taken_in, dispatch_begun, dispatch_continued, headers_begun, headers_taken,
    law_dispatch_reaches_the_end, messages_done, messages_planned, not_behind, round_at, AfterFeed,
    AfterMessages, Block, BlockDispatch, DispatchStep, FedBlock, InboundAction, Round,
};
use crate::chain_state::{
    decimal, load_admitted, state_assumed, state_read, StateToAssume, StateToRead,
};
use crate::error::{error_message, CesealServiceError, Error};
use crate::node_laws::says;
use crate::state::{Ceseal, ChainStorage, Synchronizer};
use crate::types::{BlockNumber, SyncedTo};
use vstd::prelude::*;

verus! {

/// The block is one that the node still expects.
pub open spec fn expected_from<Changes>(next: BlockNumber) -> spec_fn(Block<Changes>) -> bool {
    |b: Block<Changes>| b.number as int >= next as int
}

/// A dispatch in which every block is taken in and its messages are handled is answered with the
/// number of the block that it fed last; if it fed none, with that of the block before the one
/// that is expected next. What it feeds are the blocks of the batch that are still expected, in
/// their order, and their proofs are dropped from the second level of safe mode on.
pub proof fn law_answer_is_the_block_fed_last<P, Changes>(
    blocks: Seq<Block<Changes>>,
    begun: BlockDispatch<Changes>,
    nodes: Seq<Ceseal<P>>,
    left: Seq<BlockDispatch<Changes>>,
    steps: Seq<DispatchStep<Changes>>,
    rounds: Seq<Round<P>>,
)
    requires
        nodes.len() == left.len() == steps.len() == rounds.len() + 1,
        rounds.len() == begun.blocks@.len(),
        dispatch_begun(nodes[0], blocks, Ok(begun)),
        dispatch_continued(nodes[0], begun, left[0], steps[0]),
        forall|i: int|
            0 <= i < rounds.len() ==> #[trigger] round_at(nodes, left, steps, rounds, i),
    ensures
        steps.last() is Done,
        rounds.len() > 0 ==> {
            &&& steps[rounds.len() - 1] matches DispatchStep::Feed { block, .. }
            &&& steps.last() matches DispatchStep::Done(to)
            &&& to.synced_to == block.number
        },
        rounds.len() == 0 ==> (nodes[0].runtime_state matches Some(s)
            && steps.last() matches DispatchStep::Done(to) && to.synced_to + 1
            == s.storage_synchronizer.counters.next_block_number),
        nodes[0].runtime_state matches Some(s) && {
            let fresh = blocks.filter(
                expected_from(s.storage_synchronizer.counters.next_block_number),
            );
            &&& rounds.len() == fresh.len()
            &&& forall|i: int|
                0 <= i < fresh.len() ==> ((#[trigger] steps[i]) matches DispatchStep::Feed {
                    block,
                    drop_proofs,
                } && block == fresh[i] && drop_proofs == (nodes[0].args.safe_mode_level >= 2))
        },
{
    law_dispatch_reaches_the_end(blocks, begun, nodes, left, steps, rounds);
    let next = nodes[0].runtime_state->0.storage_synchronizer.counters.next_block_number;
    assert(not_behind::<Changes>(next) =~= expected_from::<Changes>(next));
}

/// A dispatch begins with the blocks of the batch that are still expected, all of them, in their
/// order, and already knows its answer: the number of the last of them.
pub proof fn law_dispatch_begins_with_what_is_expected<P, Changes>(
    c: Ceseal<P>,
    blocks: Seq<Block<Changes>>,
    r: Result<BlockDispatch<Changes>, CesealServiceError>,
)
    requires
        dispatch_begun(c, blocks, r),
    ensures
        c.runtime_state is None ==> says(r, "Runtime not initialized"@),
        c.runtime_state matches Some(s) ==> {
            let next = s.storage_synchronizer.counters.next_block_number;
            &&& r matches Ok(d)
            &&& d.blocks@ == blocks.filter(expected_from(next))
            &&& d.blocks@.len() > 0 ==> d.last_block == d.blocks@[d.blocks@.len() - 1].number
            &&& d.blocks@.len() == 0 ==> d.last_block + 1 == next
        },
{
    if c.runtime_state is Some {
        let next = c.runtime_state->0.storage_synchronizer.counters.next_block_number;
        assert(not_behind::<Changes>(next) =~= expected_from::<Changes>(next));
    }
}

/// The next step of a dispatch takes its first block off and feeds it; without blocks it ends with
/// the answer that was known from the beginning.
pub proof fn law_dispatch_takes_one_block_at_a_time<P, Changes>(
    c: Ceseal<P>,
    pre: BlockDispatch<Changes>,
    post: BlockDispatch<Changes>,
    step: DispatchStep<Changes>,
)
    requires
        dispatch_continued(c, pre, post, step),
    ensures
        post.last_block == pre.last_block,
        pre.blocks@.len() == 0 ==> post.blocks@.len() == 0 && (step matches DispatchStep::Done(to)
            && to.synced_to == pre.last_block),
        pre.blocks@.len() > 0 ==> {
            &&& step matches DispatchStep::Feed { block, drop_proofs }
            &&& pre.blocks@ == seq![block] + post.blocks@
            &&& drop_proofs <==> c.args.safe_mode_level >= 2
        },
{
    if pre.blocks@.len() > 0 {
        assert(pre.blocks@ =~= seq![pre.blocks@[0]] + post.blocks@);
    }
}

/// A block that was taken in sets the storage and the synchroniser as they are then and nothing
/// else; its messages are handled in normal operation only. A failed intake changes nothing.
pub proof fn law_block_moves_the_chain_only<P>(
    pre: Ceseal<P>,
    number: BlockNumber,
    outcome: Result<FedBlock, String>,
    post: Ceseal<P>,
    r: Result<AfterFeed, CesealServiceError>,
)
    requires
        block_taken_in(pre, number, outcome, post, r),
    ensures
        pre == (Ceseal { runtime_state: pre.runtime_state, ..post }),
        pre.runtime_state is None ==> post == pre && says(r, "Runtime not initialized"@),
        pre.runtime_state is Some ==> (outcome matches Err(text) ==> post == pre && says(r, text@)),
        pre.runtime_state matches Some(s) ==> (outcome matches Ok(fed) ==> {
            &&& post.runtime_state matches Some(t)
            &&& t.chain_storage == fed.chain_storage
            &&& t.storage_synchronizer == fed.synchronizer
            &&& t.pending_messages == s.pending_messages
            &&& t.genesis_block_hash@ == s.genesis_block_hash@
            &&& pre.args.safe_mode_level == 0 ==> (r matches Ok(AfterFeed::HandleMessages {
                block_number,
            }) && block_number == number)
            &&& pre.args.safe_mode_level > 0 ==> r == Ok::<AfterFeed, CesealServiceError>(
                AfterFeed::NextBlock,
            )
        }),
{
}

/// After the messages of a block, a checkpoint is tried from the interval on where checkpoints are
/// taken; an error is told as it is.
pub proof fn law_checkpoint_follows_the_messages<P>(
    c: Ceseal<P>,
    outcome: Result<(), CesealServiceError>,
    elapsed_secs: u64,
    r: Result<AfterMessages, CesealServiceError>,
)
    requires
        messages_done(c, outcome, elapsed_secs, r),
    ensures
        outcome matches Err(e) ==> r == Err::<AfterMessages, CesealServiceError>(e),
        outcome is Ok ==> r is Ok,
        outcome is Ok ==> (r == Ok::<AfterMessages, CesealServiceError>(AfterMessages::TryCheckpoint)
            <==> c.args.enable_checkpoint && elapsed_secs >= c.args.checkpoint_interval),
{
}

/// Taking headers in bars the state of the chain from being set, whatever comes of it, and changes
/// nothing else; it needs a runtime.
pub proof fn law_headers_bar_the_state<P>(
    pre: Ceseal<P>,
    post: Ceseal<P>,
    r: Result<(), CesealServiceError>,
)
    requires
        headers_begun(pre, post, r),
    ensures
        !post.can_load_chain_state,
        pre == (Ceseal { can_load_chain_state: pre.can_load_chain_state, ..post }),
        pre.runtime_state is Some ==> r is Ok,
        pre.runtime_state is None ==> says(r, "Runtime not initialized"@),
{
}

/// Headers that were taken in are answered with the number of the last one and move the
/// synchroniser only; a refusal is told and changes nothing.
pub proof fn law_headers_move_the_synchroniser_only<P>(
    pre: Ceseal<P>,
    outcome: Result<(BlockNumber, Synchronizer), String>,
    post: Ceseal<P>,
    r: Result<SyncedTo, CesealServiceError>,
)
    requires
        headers_taken(pre, outcome, post, r),
    ensures
        pre == (Ceseal { runtime_state: pre.runtime_state, ..post }),
        pre.runtime_state is None ==> post == pre && says(r, "Runtime not initialized"@),
        pre.runtime_state is Some ==> (outcome matches Err(text) ==> post == pre && says(r, text@)),
        pre.runtime_state matches Some(s) ==> (outcome matches Ok(o) ==> {
            &&& r matches Ok(to)
            &&& to.synced_to == o.0
            &&& post.runtime_state matches Some(t)
            &&& t.storage_synchronizer == o.1
            &&& t.chain_storage == s.chain_storage
            &&& t.pending_messages == s.pending_messages
            &&& t.genesis_block_hash@ == s.genesis_block_hash@
        }),
{
}

/// The messages of a block are dispatched in their order, each processed before the next one,
/// after the system was told of the block and the time of the chain, and before it is told of the
/// end and the rest is dropped.
pub proof fn law_messages_are_handled_one_by_one<P, Message>(
    c: Ceseal<P>,
    block_number: BlockNumber,
    messages: Option<Vec<Message>>,
    r: Result<Vec<InboundAction<Message>>, CesealServiceError>,
)
    requires
        messages_planned(c, block_number, messages, r),
    ensures
        c.runtime_state is None || c.system is None ==> says(r, "Runtime not initialized"@),
        c.runtime_state is Some && c.system is Some && messages is None ==> says(
            r,
            "Can not get mq messages from storage"@,
        ),
        c.runtime_state matches Some(s) ==> (c.system is Some ==> (messages matches Some(m) ==> {
            let n = m@.len() as int;
            &&& r matches Ok(a)
            &&& a@.len() == 2 * n + 4
            &&& a@[0] is ResetLocalIndex
            &&& a@[1] matches InboundAction::WillProcessBlock { block_number: b, now_ms }
            &&& b == block_number
            &&& now_ms == s.chain_storage.timestamp_now
            &&& forall|i: int|
                #![trigger m@[i]]
                0 <= i < n ==> a@[2 + 2 * i] == InboundAction::Dispatch(m@[i])
                    && a@[3 + 2 * i] is ProcessMessages
            &&& a@[2 * n + 2] is DidProcessBlock
            &&& a@[2 * n + 3] is ClearUnhandled
        })),
{
}

/// The state of a block may be set just where that is still allowed, the block is not the first
/// one, and the node has a system and a runtime; each refusal has its reason. The state is read
/// for the identity key of the node.
pub proof fn law_state_is_set_for_a_reason<P>(
    c: Ceseal<P>,
    block: BlockNumber,
    r: Result<StateToRead, Error>,
)
    requires
        load_admitted(c, block, r),
    ensures
        r is Ok <==> c.can_load_chain_state && block > 0 && c.system is Some && c.runtime_state
            is Some,
        r matches Ok(p) ==> p.block == block && p.public_key@
            == c.system->0.identity_key.public_bytes(),
        !c.can_load_chain_state ==> fails_as(r, "Can not load chain state"@),
        c.can_load_chain_state && block == 0 ==> fails_as(
            r,
            "Can not load chain state from block 0"@,
        ),
        c.can_load_chain_state && block > 0 && c.system is None ==> fails_as(
            r,
            "System is uninitialized"@,
        ),
        c.can_load_chain_state && block > 0 && c.system is Some && c.runtime_state is None
            ==> fails_as(r, "Runtime is uninitialized"@),
{
}

/// The request fails with an error of a lower layer with the given text.
pub open spec fn fails_as<T>(r: Result<T, Error>, text: Seq<char>) -> bool {
    r matches Err(e) && error_message(e) == text
}

/// The number that a decimal text stands for.
pub open spec fn decimal_value(text: Seq<char>) -> int
    decreases text.len(),
{
    if text.len() == 0 {
        0
    } else {
        10 * decimal_value(text.drop_last()) + (text.last() as int - '0' as int)
    }
}

/// The decimal text of a number has digits only, no leading zero, and stands for the number.
pub proof fn law_decimal_text_stands_for_the_number(n: nat)
    ensures
        decimal_value(decimal(n)) == n,
        decimal(n).len() > 0,
        forall|i: int| 0 <= i < decimal(n).len() ==> '0' <= #[trigger] decimal(n)[i] && decimal(
            n,
        )[i] <= '9',
        decimal(n).len() > 1 ==> decimal(n)[0] != '0',
    decreases n,
{
    if n >= 10 {
        law_decimal_text_stands_for_the_number(n / 10);
        assert(decimal(n).drop_last() =~= decimal(n / 10));
        if decimal(n / 10).len() == 1 {
            assert(decimal(n / 10).drop_last() =~= Seq::<char>::empty());
            reveal_with_fuel(decimal_value, 2);
            assert(decimal_value(decimal(n / 10)) == decimal(n / 10)[0] as int - '0' as int);
        }
    } else {
        assert(decimal(n).drop_last() =~= Seq::<char>::empty());
        reveal_with_fuel(decimal_value, 2);
    }
}

/// A state that knows the worker is refused with its block in the reason; any other goes on, with
/// its block.
pub proof fn law_registered_worker_bars_the_state(
    p: StateToRead,
    worker_registered: bool,
    r: Result<StateToAssume, Error>,
)
    requires
        state_read(p, worker_registered, r),
    ensures
        worker_registered ==> fails_as(
            r,
            "Failed to load state: the worker is already registered at block "@ + decimal(
                p.block as nat,
            ),
        ),
        !worker_registered ==> (r matches Ok(q) && q.block == p.block),
{
}

/// Setting the state takes over the storage and the synchroniser, starts the system from the
/// block, and bars a second time; nothing else changes. A failure changes nothing.
pub proof fn law_set_state_is_what_was_read<P>(
    pre: Ceseal<P>,
    p: StateToAssume,
    chain_storage: ChainStorage,
    outcome: Result<Synchronizer, String>,
    post: Ceseal<P>,
    r: Result<(), Error>,
)
    requires
        state_assumed(pre, p, chain_storage, outcome, post, r),
    ensures
        r is Ok <==> pre.system is Some && pre.runtime_state is Some && outcome is Ok,
        r is Err ==> post == pre,
        pre.system is None ==> fails_as(r, "System is uninitialized"@),
        pre.system is Some && pre.runtime_state is None ==> fails_as(
            r,
            "Runtime is uninitialized"@,
        ),
        pre.system is Some && pre.runtime_state is Some && outcome is Err ==> fails_as(
            r,
            "Failed to set synchronizer state"@,
        ),
        r is Ok ==> {
            let (s, t) = (pre.runtime_state->0, post.runtime_state->0);
            let (x, y) = (pre.system->0, post.system->0);
            &&& post.runtime_state is Some && post.system is Some
            &&& t.chain_storage == chain_storage
            &&& Ok::<Synchronizer, String>(t.storage_synchronizer) == outcome
            &&& t.pending_messages == s.pending_messages
            &&& t.genesis_block_hash@ == s.genesis_block_hash@
            &&& y.genesis_block == p.block
            &&& y.identity_key == x.identity_key
            &&& y.ecdh_public_key@ == x.ecdh_public_key@
            &&& y.now_ms == x.now_ms
            &&& y.registered == x.registered
            &&& !post.can_load_chain_state
            &&& pre == (Ceseal {
                runtime_state: pre.runtime_state,
                system: pre.system,
                can_load_chain_state: pre.can_load_chain_state,
                ..post
            })
        },
{
}

} // verus!
