//! Following the chain: headers, blocks and the messages in them.
//!
//! The decisions and the work on the storage of the chain take turns. Each method here takes what
//! became of the work and says what is to be done next; the node stays locked all the while.
use crate::error::{app_err, app_error, from_display, CesealServiceError};
use crate::state::{checkpoint_due, not_initialized, Ceseal, ChainStorage, Counters, RuntimeState, Synchronizer};
use crate::types::{BlockNumber, SyncedTo};
use vstd::prelude::*;

verus! {

/// A block with its changes of the storage.
#[derive(Debug)]
pub struct Block<Changes> {
    pub number: BlockNumber,
    pub changes: Changes,
}

/// The blocks that are still to be taken in, and the number that is answered at the end.
#[derive(Debug)]
#[non_exhaustive]
pub struct BlockDispatch<Changes> {
    /// What is left, in order.
    pub blocks: Vec<Block<Changes>>,
    pub last_block: BlockNumber,
}

/// What a step of the dispatch goes on with.
#[derive(Debug)]
pub enum DispatchStep<Changes> {
    /// The block is to be taken in; its proofs are dropped if `drop_proofs`.
    Feed { block: Block<Changes>, drop_proofs: bool },
    /// All blocks were taken in.
    Done(SyncedTo),
}

/// What follows a block that was taken in.
#[derive(Clone, Copy, Debug, PartialEq, Eq, Structural)]
pub enum AfterFeed {
    /// The next block follows at once.
    NextBlock,
    /// The queues are to be purged and the messages of the block handled.
    HandleMessages { block_number: BlockNumber },
}

/// What follows the messages of a block.
#[derive(Clone, Copy, Debug, PartialEq, Eq, Structural)]
pub enum AfterMessages {
    /// The next block follows at once.
    NextBlock,
    /// A checkpoint is to be tried before the next block.
    TryCheckpoint,
}

/// What the storage is like after a block was taken in.
#[derive(Clone, Copy, Debug)]
pub struct FedBlock {
    pub chain_storage: ChainStorage,
    pub synchronizer: Synchronizer,
}

/// What is done for the messages of a block, one after the other.
#[derive(Debug)]
pub enum InboundAction<Message> {
    ResetLocalIndex,
    WillProcessBlock { block_number: BlockNumber, now_ms: u64 },
    Dispatch(Message),
    ProcessMessages,
    DidProcessBlock,
    /// What nobody took is dropped.
    ClearUnhandled,
}

/// What is done for the messages of a block: after the system was told of the block, each message
/// is dispatched and processed before the next one.
pub open spec fn inbound_actions<Message>(
    block_number: BlockNumber,
    now_ms: u64,
    messages: Seq<Message>,
) -> Seq<InboundAction<Message>> {
    seq![
        InboundAction::ResetLocalIndex,
        InboundAction::WillProcessBlock { block_number, now_ms },
    ] + message_actions(messages) + seq![
        InboundAction::DidProcessBlock,
        InboundAction::ClearUnhandled,
    ]
}

/// Each message is dispatched and processed.
pub open spec fn message_actions<Message>(messages: Seq<Message>) -> Seq<InboundAction<Message>> {
    Seq::new(
        2 * messages.len(),
        |i: int|
            if i % 2 == 0 {
                InboundAction::Dispatch(messages[i / 2])
            } else {
                InboundAction::ProcessMessages
            },
    )
}

/// The block is not behind the one that is expected next.
pub open spec fn not_behind<Changes>(next: BlockNumber) -> spec_fn(Block<Changes>) -> bool {
    |b: Block<Changes>| b.number >= next
}

/// The number that is answered when the given blocks are taken in: that of the last of them, or
/// that of the block before the one that is expected next.
pub open spec fn last_number<Changes>(blocks: Seq<Block<Changes>>, next: BlockNumber) -> int {
    if blocks.len() > 0 {
        blocks.last().number as int
    } else {
        next - 1
    }
}

/// How taking headers in begins. From now on the state of the chain cannot be set from outside,
/// even if the headers turn out not to be taken.
pub open spec fn headers_begun<P>(
    pre: Ceseal<P>,
    post: Ceseal<P>,
    r: Result<(), CesealServiceError>,
) -> bool {
    &&& post == (Ceseal { can_load_chain_state: false, ..pre })
    &&& match r {
        Ok(_) => pre.runtime_state is Some,
        Err(e) => pre.runtime_state is None && e@ == not_initialized(),
    }
}

/// How taking headers in ends: the number of the last one and what the synchroniser is like, or
/// the text of the error.
pub open spec fn headers_taken<P>(
    pre: Ceseal<P>,
    outcome: Result<(BlockNumber, Synchronizer), String>,
    post: Ceseal<P>,
    r: Result<SyncedTo, CesealServiceError>,
) -> bool {
    match (pre.runtime_state, outcome) {
        (None, _) => post == pre && (r matches Err(e) && e@ == not_initialized()),
        (Some(_), Err(text)) => post == pre && (r matches Err(e) && e@ == app_error(text@)),
        (Some(s), Ok((last_header, synchronizer))) => {
            &&& r == Ok::<SyncedTo, CesealServiceError>(SyncedTo { synced_to: last_header })
            &&& post == (Ceseal {
                runtime_state: Some(RuntimeState { storage_synchronizer: synchronizer, ..s }),
                ..pre
            })
        },
    }
}

/// What is to be done for the messages of a block, which may have been unreadable.
pub open spec fn messages_planned<P, Message>(
    c: Ceseal<P>,
    block_number: BlockNumber,
    messages: Option<Vec<Message>>,
    r: Result<Vec<InboundAction<Message>>, CesealServiceError>,
) -> bool {
    match (c.runtime_state, c.system, messages) {
        (Some(s), Some(_), Some(messages)) => r matches Ok(actions) && actions@ == inbound_actions(
            block_number,
            s.chain_storage.timestamp_now,
            messages@,
        ),
        (Some(_), Some(_), None) => r matches Err(e) && e@ == app_error(
            "Can not get mq messages from storage"@,
        ),
        _ => r matches Err(e) && e@ == not_initialized(),
    }
}

/// How a dispatch begins: what is behind is left out, and the rest keeps its order.
pub open spec fn dispatch_begun<P, Changes>(
    c: Ceseal<P>,
    blocks: Seq<Block<Changes>>,
    r: Result<BlockDispatch<Changes>, CesealServiceError>,
) -> bool {
    match c.runtime_state {
        None => r matches Err(e) && e@ == not_initialized(),
        Some(s) => {
            let next = s.storage_synchronizer.counters.next_block_number;
            let kept = blocks.filter(not_behind(next));
            &&& r matches Ok(d)
            &&& d.blocks@ == kept
            &&& d.last_block == last_number(kept, next)
        },
    }
}

/// How a dispatch goes on: the first block that is left is taken in, until none is left.
pub open spec fn dispatch_continued<P, Changes>(
    c: Ceseal<P>,
    pre: BlockDispatch<Changes>,
    post: BlockDispatch<Changes>,
    step: DispatchStep<Changes>,
) -> bool {
    &&& post.last_block == pre.last_block
    &&& if pre.blocks@.len() == 0 {
        &&& post.blocks@ == pre.blocks@
        &&& step == DispatchStep::<Changes>::Done(SyncedTo { synced_to: pre.last_block })
    } else {
        &&& post.blocks@ == pre.blocks@.drop_first()
        &&& step == (DispatchStep::Feed {
            block: pre.blocks@[0],
            drop_proofs: c.args.safe_mode_level > 1,
        })
    }
}

/// What follows the intake of a block, or the text of the error that stopped it.
pub open spec fn block_taken_in<P>(
    pre: Ceseal<P>,
    number: BlockNumber,
    outcome: Result<FedBlock, String>,
    post: Ceseal<P>,
    r: Result<AfterFeed, CesealServiceError>,
) -> bool {
    match (pre.runtime_state, outcome) {
        (None, _) => post == pre && (r matches Err(e) && e@ == not_initialized()),
        (Some(_), Err(text)) => post == pre && (r matches Err(e) && e@ == app_error(text@)),
        (Some(s), Ok(fed)) => {
            &&& post == (Ceseal {
                runtime_state: Some(
                    RuntimeState {
                        chain_storage: fed.chain_storage,
                        storage_synchronizer: fed.synchronizer,
                        ..s
                    },
                ),
                ..pre
            })
            &&& r == Ok::<AfterFeed, CesealServiceError>(
                if pre.args.safe_mode_level > 0 {
                    AfterFeed::NextBlock
                } else {
                    AfterFeed::HandleMessages { block_number: number }
                },
            )
        },
    }
}

/// What follows the messages of a block, `elapsed_secs` after the last checkpoint: an error in
/// their handling ends the dispatch; else a checkpoint is tried where it is due.
pub open spec fn messages_done<P>(
    c: Ceseal<P>,
    outcome: Result<(), CesealServiceError>,
    elapsed_secs: u64,
    r: Result<AfterMessages, CesealServiceError>,
) -> bool {
    match outcome {
        Err(e) => r == Err::<AfterMessages, CesealServiceError>(e),
        Ok(_) => r == Ok::<AfterMessages, CesealServiceError>(
            if checkpoint_due(c, elapsed_secs) {
                AfterMessages::TryCheckpoint
            } else {
                AfterMessages::NextBlock
            },
        ),
    }
}

/// What follows a checkpoint that was tried between two blocks: the dispatch goes on, whatever
/// came of it.
pub open spec fn checkpoint_done<P, Changes>(
    c: Ceseal<P>,
    outcome: Result<BlockNumber, String>,
    pre: BlockDispatch<Changes>,
    post: BlockDispatch<Changes>,
    step: DispatchStep<Changes>,
) -> bool {
    dispatch_continued(c, pre, post, step)
}

impl<Platform> Ceseal<Platform> {
    /// Begins to take headers in.
    pub fn sync_header(&mut self) -> (r: Result<(), CesealServiceError>)
        ensures
            headers_begun(*old(self), *final(self), r),
    {
        self.can_load_chain_state = false;
        match &self.runtime_state {
            Some(_) => Ok(()),
            None => Err(app_err("Runtime not initialized")),
        }
    }

    /// Ends taking headers in: the number of the last one and what the synchroniser is like, or
    /// the text of the error.
    pub fn headers_synced(&mut self, outcome: Result<(BlockNumber, Synchronizer), String>) -> (r:
        Result<SyncedTo, CesealServiceError>)
        ensures
            headers_taken(*old(self), outcome, *final(self), r),
    {
        let state: &mut RuntimeState = match self.runtime_state() {
            Ok(s) => s,
            Err(e) => {
                return Err(e);
            },
        };
        match outcome {
            Ok((last_header, synchronizer)) => {
                state.storage_synchronizer = synchronizer;
                Ok(SyncedTo { synced_to: last_header })
            },
            Err(text) => Err(from_display(text)),
        }
    }

    /// Begins to take blocks in. The first block is taken in with the initialisation, so the
    /// next one that is expected has a predecessor.
    pub fn dispatch_blocks<Changes>(&self, blocks: Vec<Block<Changes>>) -> (r: Result<
        BlockDispatch<Changes>,
        CesealServiceError,
    >)
        requires
            self.runtime_state matches Some(s)
                ==> s.storage_synchronizer.counters.next_block_number > 0,
        ensures
            dispatch_begun(*self, blocks@, r),
    {
        let counters: Counters = match &self.runtime_state {
            Some(s) => s.storage_synchronizer.counters,
            None => {
                return Err(app_err("Runtime not initialized"));
            },
        };
        let next: BlockNumber = counters.next_block_number;
        let ghost all = blocks@;
        let ghost pred = not_behind::<Changes>(next);
        let mut kept: Vec<Block<Changes>> = Vec::new();
        proof {
            reveal(Seq::filter);
        }
        for block in it: blocks
            invariant
                it.seq() == all,
                pred == not_behind::<Changes>(next),
                kept@ == all.take(it.index() as int).filter(pred),
        {
            proof {
                reveal(Seq::filter);
                assert(all.take(it.index() as int + 1).drop_last() =~= all.take(
                    it.index() as int,
                ));
            }
            if block.number >= next {
                kept.push(block);
            }
        }
        assert(all.take(all.len() as int) =~= all);
        let last_block: BlockNumber = if kept.len() > 0 {
            kept[kept.len() - 1].number
        } else {
            next - 1
        };
        Ok(BlockDispatch { blocks: kept, last_block })
    }

    /// The next block of the dispatch that is to be taken in.
    pub fn dispatch_next<Changes>(&self, dispatch: &mut BlockDispatch<Changes>) -> (r: DispatchStep<
        Changes,
    >)
        ensures
            dispatch_continued(*self, *old(dispatch), *final(dispatch), r),
    {
        if dispatch.blocks.len() == 0 {
            return DispatchStep::Done(SyncedTo { synced_to: dispatch.last_block });
        }
        let ghost before = dispatch.blocks@;
        let block: Block<Changes> = dispatch.blocks.remove(0);
        assert(dispatch.blocks@ =~= before.drop_first());
        DispatchStep::Feed { block, drop_proofs: self.args.safe_mode_level > 1 }
    }

    /// Goes on after the block with the given number was taken in, or was not.
    pub fn block_fed(&mut self, number: BlockNumber, outcome: Result<FedBlock, String>) -> (r:
        Result<AfterFeed, CesealServiceError>)
        ensures
            block_taken_in(*old(self), number, outcome, *final(self), r),
    {
        let safe_mode_level: u8 = self.args.safe_mode_level;
        let state: &mut RuntimeState = match self.runtime_state() {
            Ok(s) => s,
            Err(e) => {
                return Err(e);
            },
        };
        match outcome {
            Ok(fed) => {
                state.chain_storage = fed.chain_storage;
                state.storage_synchronizer = fed.synchronizer;
            },
            Err(text) => {
                return Err(from_display(text));
            },
        }
        if safe_mode_level > 0 {
            return Ok(AfterFeed::NextBlock);
        }
        Ok(AfterFeed::HandleMessages { block_number: number })
    }

    /// What is to be done for the messages of a block, which may have been unreadable.
    pub fn handle_inbound_messages<Message>(
        &self,
        block_number: BlockNumber,
        messages: Option<Vec<Message>>,
    ) -> (r: Result<Vec<InboundAction<Message>>, CesealServiceError>)
        ensures
            messages_planned(*self, block_number, messages, r),
    {
        let now_ms: u64 = match &self.runtime_state {
            Some(s) => s.chain_storage.timestamp_now,
            None => {
                return Err(app_err("Runtime not initialized"));
            },
        };
        if self.system.is_none() {
            return Err(app_err("Runtime not initialized"));
        }
        let messages: Vec<Message> = match messages {
            Some(m) => m,
            None => {
                return Err(app_err("Can not get mq messages from storage"));
            },
        };
        let ghost all = messages@;
        let ghost front = seq![
            InboundAction::<Message>::ResetLocalIndex,
            InboundAction::<Message>::WillProcessBlock { block_number, now_ms },
        ];
        let mut actions: Vec<InboundAction<Message>> = Vec::new();
        actions.push(InboundAction::ResetLocalIndex);
        actions.push(InboundAction::WillProcessBlock { block_number, now_ms });
        assert(actions@ =~= front + message_actions(all.take(0)));
        for message in it: messages
            invariant
                it.seq() == all,
                actions@ == front + message_actions(all.take(it.index() as int)),
        {
            let ghost i = it.index() as int;
            let ghost before = actions@;
            actions.push(InboundAction::Dispatch(message));
            actions.push(InboundAction::ProcessMessages);
            proof {
                assert(message_actions(all.take(i + 1)) =~= message_actions(all.take(i)).push(
                    InboundAction::Dispatch(all[i]),
                ).push(InboundAction::ProcessMessages));
                assert(actions@ =~= front + message_actions(all.take(i + 1)));
            }
        }
        assert(all.take(all.len() as int) =~= all);
        actions.push(InboundAction::DidProcessBlock);
        actions.push(InboundAction::ClearUnhandled);
        assert(actions@ =~= inbound_actions(block_number, now_ms, all));
        Ok(actions)
    }

    /// Goes on after the messages of a block were handled, or were not, `elapsed_secs` after the
    /// last checkpoint.
    pub fn messages_handled(
        &self,
        outcome: Result<(), CesealServiceError>,
        elapsed_secs: u64,
    ) -> (r: Result<AfterMessages, CesealServiceError>)
        ensures
            messages_done(*self, outcome, elapsed_secs, r),
    {
        match outcome {
            Ok(_) => if self.maybe_take_checkpoint(elapsed_secs) {
                Ok(AfterMessages::TryCheckpoint)
            } else {
                Ok(AfterMessages::NextBlock)
            },
            Err(e) => Err(e),
        }
    }

    /// Goes on with the dispatch after a checkpoint was taken, or was not, with the debug form of
    /// the error.
    pub fn checkpoint_tried<Changes>(
        &self,
        outcome: Result<BlockNumber, String>,
        dispatch: &mut BlockDispatch<Changes>,
    ) -> (r: DispatchStep<Changes>)
        ensures
            checkpoint_done(*self, outcome, *old(dispatch), *final(dispatch), r),
    {
        self.dispatch_next(dispatch)
    }
}

/// A batch of blocks that were all taken in before is answered with the number of the last block
/// that was taken in, and takes nothing in.
pub proof fn law_old_blocks_are_skipped<P, Changes>(
    c: Ceseal<P>,
    blocks: Seq<Block<Changes>>,
    d: BlockDispatch<Changes>,
    d2: BlockDispatch<Changes>,
    step: DispatchStep<Changes>,
)
    requires
        dispatch_begun(c, blocks, Ok(d)),
        c.runtime_state matches Some(s) && forall|i: int|
            0 <= i < blocks.len() ==> (#[trigger] blocks[i]).number
                < s.storage_synchronizer.counters.next_block_number,
        dispatch_continued(c, d, d2, step),
    ensures
        c.runtime_state matches Some(s) && step matches DispatchStep::Done(to) && to.synced_to
            == s.storage_synchronizer.counters.next_block_number - 1,
{
    let next = c.runtime_state->0.storage_synchronizer.counters.next_block_number;
    let pred = not_behind::<Changes>(next);
    let kept = blocks.filter(pred);
    if kept.len() > 0 {
        blocks.lemma_filter_contains_rev(pred, kept[0]);
        blocks.lemma_filter_pred(pred, 0);
    }
}

/// What came of one block of a dispatch that was taken in and whose messages were handled.
pub struct Round<P> {
    pub fed: FedBlock,
    pub after_feed: Result<AfterFeed, CesealServiceError>,
    /// The node before the messages of the block were handled.
    pub between: Ceseal<P>,
    pub elapsed_secs: u64,
    pub after_messages: Result<AfterMessages, CesealServiceError>,
    /// What came of the checkpoint, where one was tried.
    pub checkpoint: Result<BlockNumber, String>,
}

/// The node goes from `pre` to `post` over the block with the given number, and from there on to
/// `step`. The block is taken in and its messages are handled; handling them keeps what the node
/// was started with, and its runtime.
pub open spec fn round_made<P, Changes>(
    pre: Ceseal<P>,
    number: BlockNumber,
    round: Round<P>,
    post: Ceseal<P>,
    left: BlockDispatch<Changes>,
    left_after: BlockDispatch<Changes>,
    step: DispatchStep<Changes>,
) -> bool {
    &&& block_taken_in(pre, number, Ok(round.fed), round.between, round.after_feed)
    &&& match round.after_feed {
        Ok(AfterFeed::NextBlock) => {
            &&& post == round.between
            &&& dispatch_continued(post, left, left_after, step)
        },
        Ok(AfterFeed::HandleMessages { .. }) => {
            &&& post.args == round.between.args
            &&& post.runtime_state is Some
            &&& messages_done(post, Ok(()), round.elapsed_secs, round.after_messages)
            &&& match round.after_messages {
                Ok(AfterMessages::NextBlock) => dispatch_continued(post, left, left_after, step),
                Ok(AfterMessages::TryCheckpoint) => checkpoint_done(
                    post,
                    round.checkpoint,
                    left,
                    left_after,
                    step,
                ),
                Err(_) => true,
            }
        },
        Err(_) => true,
    }
}

/// The step with the number `i`, if it feeds a block, is followed by the round of that block.
pub open spec fn round_at<P, Changes>(
    nodes: Seq<Ceseal<P>>,
    left: Seq<BlockDispatch<Changes>>,
    steps: Seq<DispatchStep<Changes>>,
    rounds: Seq<Round<P>>,
    i: int,
) -> bool {
    steps[i] matches DispatchStep::Feed { block, .. } ==> round_made(
        nodes[i],
        block.number,
        rounds[i],
        nodes[i + 1],
        left[i],
        left[i + 1],
        steps[i + 1],
    )
}

/// A dispatch in which every block is taken in and its messages are handled feeds the blocks that
/// are not behind, each once and in the order in which they came, and is answered with the number
/// of the last of them. No outcome of a checkpoint stops it: the checkpoints of the rounds are
/// arbitrary.
pub proof fn law_dispatch_reaches_the_end<P, Changes>(
    blocks: Seq<Block<Changes>>,
    begun: BlockDispatch<Changes>,
    nodes: Seq<Ceseal<P>>,
    left: Seq<BlockDispatch<Changes>>,
    steps: Seq<DispatchStep<Changes>>,
    rounds: Seq<Round<P>>,
)
    requires
        nodes.len() == left.len() == steps.len() == rounds.len() + 1,
        rounds.len() == begun.blocks@.len(),
        dispatch_begun(nodes[0], blocks, Ok(begun)),
        dispatch_continued(nodes[0], begun, left[0], steps[0]),
        forall|i: int|
            0 <= i < rounds.len() ==> #[trigger] round_at(nodes, left, steps, rounds, i),
    ensures
        nodes[0].runtime_state matches Some(s) && {
            let next = s.storage_synchronizer.counters.next_block_number;
            let kept = blocks.filter(not_behind(next));
            &&& rounds.len() == kept.len()
            &&& forall|i: int|
                0 <= i < kept.len() ==> (#[trigger] steps[i]) == (DispatchStep::Feed {
                    block: kept[i],
                    drop_proofs: nodes[0].args.safe_mode_level > 1,
                })
            &&& steps.last() matches DispatchStep::Done(to) && to.synced_to == last_number(
                kept,
                next,
            )
        },
{
    let kept = begun.blocks@;
    let n = kept.len() as int;
    assert forall|i: int| 0 <= i < n implies (#[trigger] steps[i]) == (DispatchStep::Feed {
        block: kept[i],
        drop_proofs: nodes[0].args.safe_mode_level > 1,
    }) by {
        lemma_rounds(begun, nodes, left, steps, rounds, i);
    }
    lemma_rounds(begun, nodes, left, steps, rounds, n);
}

proof fn lemma_rounds<P, Changes>(
    begun: BlockDispatch<Changes>,
    nodes: Seq<Ceseal<P>>,
    left: Seq<BlockDispatch<Changes>>,
    steps: Seq<DispatchStep<Changes>>,
    rounds: Seq<Round<P>>,
    n: int,
)
    requires
        nodes.len() == left.len() == steps.len() == rounds.len() + 1,
        rounds.len() == begun.blocks@.len(),
        nodes[0].runtime_state is Some,
        dispatch_continued(nodes[0], begun, left[0], steps[0]),
        forall|i: int|
            0 <= i < rounds.len() ==> #[trigger] round_at(nodes, left, steps, rounds, i),
        0 <= n <= rounds.len(),
    ensures
        nodes[n].runtime_state is Some,
        nodes[n].args == nodes[0].args,
        left[n].last_block == begun.last_block,
        n < rounds.len() ==> {
            &&& left[n].blocks@ == begun.blocks@.skip(n + 1)
            &&& steps[n] == (DispatchStep::Feed {
                block: begun.blocks@[n],
                drop_proofs: nodes[0].args.safe_mode_level > 1,
            })
        },
        n == rounds.len() ==> steps[n] == DispatchStep::<Changes>::Done(
            SyncedTo { synced_to: begun.last_block },
        ),
    decreases n,
{
    let kept = begun.blocks@;
    if n == 0 {
        assert(kept.len() > 0 ==> kept.drop_first() =~= kept.skip(1));
    } else {
        lemma_rounds(begun, nodes, left, steps, rounds, n - 1);
        assert(round_at(nodes, left, steps, rounds, n - 1));
        let before = left[n - 1].blocks@;
        assert(before.len() == kept.len() - n);
        if before.len() > 0 {
            assert(before[0] == kept[n]);
            assert(before.drop_first() =~= kept.skip(n + 1));
        }
    }
}

/// An error in the handling of the messages of a block is the answer to the dispatch.
pub proof fn law_message_error_ends_the_dispatch<P>(
    c: Ceseal<P>,
    e: CesealServiceError,
    elapsed_secs: u64,
    r: Result<AfterMessages, CesealServiceError>,
)
    requires
        messages_done(c, Err(e), elapsed_secs, r),
    ensures
        r == Err::<AfterMessages, CesealServiceError>(e),
{
}

/// A failed checkpoint is followed by what follows one that was taken.
pub proof fn law_failed_checkpoint_changes_nothing<P, Changes>(
    c: Ceseal<P>,
    taken: BlockNumber,
    error: String,
    pre: BlockDispatch<Changes>,
    post: BlockDispatch<Changes>,
    step: DispatchStep<Changes>,
    post_failed: BlockDispatch<Changes>,
    step_failed: DispatchStep<Changes>,
)
    requires
        checkpoint_done(c, Ok(taken), pre, post, step),
        checkpoint_done(c, Err(error), pre, post_failed, step_failed),
    ensures
        step_failed == step,
        post_failed.blocks@ == post.blocks@,
        post_failed.last_block == post.last_block,
{
}

} // verus!
