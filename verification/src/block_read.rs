//! Reading what an L2 block says: its block information and its system configuration.
//!
//! The block is fetched first; then it is handed out to be read.

use crate::block_query::{
    assembled_block, law_query_finds_the_block, BlockQuery, BlockQueryView, BlockTurn, KnownBlocks,
};
use crate::config::{ChainGenesis, RollupConfig};
use crate::oracle::{
    OracleProviderError, ProviderAction, ProviderActionView, ProviderEvent, ProviderEventView,
};
use crate::primitives::B256;
use crate::transaction::{BlockView, OpBlock};
use vstd::prelude::*;

verus! {

/// What is read out of the block.
#[derive(Clone, Copy, Debug, PartialEq, Eq)]
pub enum ReadTarget {
    /// The L2 block information, given the genesis of the rollup.
    BlockInfo(ChainGenesis),
    /// The system configuration, given the configuration of the rollup.
    SystemConfig(RollupConfig),
}

/// What the query asks its caller to do next. `V` is what is read.
#[derive(Debug, PartialEq, Eq)]
pub enum BlockReadAction<V, X> {
    /// Perform an action of the query for the block.
    Provider(ProviderAction<OpBlock, X>),
    /// Read the L2 block information out of the block.
    DeriveBlockInfo { block: OpBlock, genesis: ChainGenesis },
    /// Read the system configuration out of the block.
    DeriveSystemConfig { block: OpBlock, config: RollupConfig },
    /// The query is over.
    Done(Result<V, OracleProviderError<X>>),
}

/// The contents of a [`BlockReadAction`].
#[verifier::ext_equal]
pub enum BlockReadActionView<V, X> {
    Provider(ProviderActionView<BlockView, X>),
    DeriveBlockInfo { block: BlockView, genesis: ChainGenesis },
    DeriveSystemConfig { block: BlockView, config: RollupConfig },
    Done(Result<V, OracleProviderError<X>>),
}

impl<V, X> View for BlockReadAction<V, X> {
    type V = BlockReadActionView<V, X>;

    open spec fn view(&self) -> BlockReadActionView<V, X> {
        match *self {
            BlockReadAction::Provider(action) => BlockReadActionView::Provider(action@),
            BlockReadAction::DeriveBlockInfo { block, genesis } => {
                BlockReadActionView::DeriveBlockInfo { block: block@, genesis }
            },
            BlockReadAction::DeriveSystemConfig { block, config } => {
                BlockReadActionView::DeriveSystemConfig { block: block@, config }
            },
            BlockReadAction::Done(result) => BlockReadActionView::Done(result),
        }
    }
}

/// What came of the last action.
#[derive(Debug, PartialEq, Eq)]
pub enum BlockReadEvent<V, X> {
    Provider(ProviderEvent<X>),
    Derived(Result<V, X>),
}

/// The contents of a [`BlockReadEvent`].
#[verifier::ext_equal]
pub enum BlockReadEventView<V, X> {
    Provider(ProviderEventView<X>),
    Derived(Result<V, X>),
}

impl<V, X> View for BlockReadEvent<V, X> {
    type V = BlockReadEventView<V, X>;

    open spec fn view(&self) -> BlockReadEventView<V, X> {
        match *self {
            BlockReadEvent::Provider(event) => BlockReadEventView::Provider(event@),
            BlockReadEvent::Derived(result) => BlockReadEventView::Derived(result),
        }
    }
}

/// Where the query stands.
#[derive(Debug, PartialEq, Eq)]
pub enum BlockReadStage {
    /// The block is being fetched.
    Fetch(BlockQuery),
    /// The block is being read.
    Derive,
    /// The query is over.
    Finished,
}

/// The contents of a [`BlockReadStage`].
#[verifier::ext_equal]
pub enum BlockReadStageView {
    Fetch(BlockQueryView),
    Derive,
    Finished,
}

impl View for BlockReadStage {
    type V = BlockReadStageView;

    open spec fn view(&self) -> BlockReadStageView {
        match *self {
            BlockReadStage::Fetch(query) => BlockReadStageView::Fetch(query@),
            BlockReadStage::Derive => BlockReadStageView::Derive,
            BlockReadStage::Finished => BlockReadStageView::Finished,
        }
    }
}

/// A query for what the block with a number says.
#[derive(Debug, PartialEq, Eq)]
pub struct BlockRead {
    pub target: ReadTarget,
    pub stage: BlockReadStage,
}

/// The contents of a [`BlockRead`].
#[verifier::ext_equal]
pub struct BlockReadView {
    pub target: ReadTarget,
    pub stage: BlockReadStageView,
}

impl View for BlockRead {
    type V = BlockReadView;

    open spec fn view(&self) -> BlockReadView {
        BlockReadView { target: self.target, stage: self.stage@ }
    }
}

/// A state of the query together with the action that it hands out.
pub type BlockReadTurn<V, X> = (BlockReadView, BlockReadActionView<V, X>);

impl ReadTarget {
    /// The block is handed out to be read.
    pub open spec fn hand_out<V, X>(self, block: BlockView) -> BlockReadActionView<V, X> {
        match self {
            ReadTarget::BlockInfo(genesis) => BlockReadActionView::DeriveBlockInfo { block, genesis },
            ReadTarget::SystemConfig(config) => BlockReadActionView::DeriveSystemConfig {
                block,
                config,
            },
        }
    }

    /// The error of a block that could not be read.
    pub open spec fn error<X>(self, error: X) -> OracleProviderError<X> {
        match self {
            ReadTarget::BlockInfo(_) => OracleProviderError::BlockInfo(error),
            ReadTarget::SystemConfig(_) => OracleProviderError::OpBlockConversion(error),
        }
    }
}

impl BlockReadView {
    /// The same query at another stage.
    pub open spec fn at(self, stage: BlockReadStageView) -> BlockReadView {
        BlockReadView { stage, ..self }
    }

    /// Whether the query waits for this event.
    pub open spec fn accepts<V, X>(self, event: BlockReadEventView<V, X>) -> bool {
        match self.stage {
            BlockReadStageView::Fetch(query) => event matches BlockReadEventView::Provider(e)
                && query.accepts(e),
            BlockReadStageView::Derive => event is Derived,
            BlockReadStageView::Finished => false,
        }
    }

    /// The query ends with this result.
    pub open spec fn finish<V, X>(self, result: Result<V, OracleProviderError<X>>) -> BlockReadTurn<
        V,
        X,
    > {
        (self.at(BlockReadStageView::Finished), BlockReadActionView::Done(result))
    }

    /// The query follows the one for the block; a block that is found is handed out to be read, and
    /// an error is handed on.
    pub open spec fn follow<V, X>(self, turn: BlockTurn<X>) -> BlockReadTurn<V, X> {
        match turn.1 {
            ProviderActionView::Done(Ok(block)) => (
                self.at(BlockReadStageView::Derive),
                self.target.hand_out(block),
            ),
            ProviderActionView::Done(Err(e)) => self.finish(Err(e)),
            _ => (
                self.at(BlockReadStageView::Fetch(turn.0)),
                BlockReadActionView::Provider(turn.1),
            ),
        }
    }

    /// The step of a query that is told what came of its last action.
    pub open spec fn next<V, X>(self, event: BlockReadEventView<V, X>) -> BlockReadTurn<V, X> {
        match (self.stage, event) {
            (BlockReadStageView::Fetch(query), BlockReadEventView::Provider(event)) => {
                self.follow(query.next(event))
            },
            (BlockReadStageView::Derive, BlockReadEventView::Derived(Ok(value))) => self.finish(
                Ok(value),
            ),
            (BlockReadStageView::Derive, BlockReadEventView::Derived(Err(e))) => self.finish(
                Err(self.target.error(e)),
            ),
            _ => vstd::pervasive::arbitrary(),
        }
    }

    /// The beginning of the query: the query for the block begins.
    pub open spec fn start<V, X>(
        target: ReadTarget,
        config: RollupConfig,
        chain_id: Option<u64>,
        safe_head: Seq<u8>,
        block_number: u64,
    ) -> BlockReadTurn<V, X> {
        BlockReadView { target, stage: BlockReadStageView::Finished }.follow(
            BlockQueryView::start::<X>(config, chain_id, safe_head, block_number),
        )
    }
}

impl BlockRead {
    /// Begins to read the block with this number.
    pub fn start<V, X>(
        target: ReadTarget,
        config: &RollupConfig,
        chain_id: Option<u64>,
        safe_head: B256,
        block_number: u64,
    ) -> (r: (BlockRead, BlockReadAction<V, X>))
        ensures
            (r.0@, r.1@) == BlockReadView::start::<V, X>(
                target,
                *config,
                chain_id,
                safe_head@,
                block_number,
            ),
    {
        let (query, action) = BlockQuery::start(config, chain_id, safe_head, block_number);
        let mut read = BlockRead { target, stage: BlockReadStage::Finished };
        let action = read.follow(query, action);
        (read, action)
    }

    fn follow<V, X>(&mut self, query: BlockQuery, action: ProviderAction<OpBlock, X>) -> (r:
        BlockReadAction<V, X>)
        requires
            old(self)@.stage is Finished,
        ensures
            (final(self)@, r@) == old(self)@.follow::<V, X>((query@, action@)),
    {
        match action {
            ProviderAction::Done(Ok(block)) => {
                self.stage = BlockReadStage::Derive;
                match self.target {
                    ReadTarget::BlockInfo(genesis) => BlockReadAction::DeriveBlockInfo {
                        block,
                        genesis,
                    },
                    ReadTarget::SystemConfig(config) => BlockReadAction::DeriveSystemConfig {
                        block,
                        config,
                    },
                }
            },
            ProviderAction::Done(Err(e)) => BlockReadAction::Done(Err(e)),
            action => {
                self.stage = BlockReadStage::Fetch(query);
                BlockReadAction::Provider(action)
            },
        }
    }

    /// Takes what came of the last action and gives the next one.
    pub fn step<V, X>(&mut self, event: BlockReadEvent<V, X>) -> (action: BlockReadAction<V, X>)
        requires
            old(self)@.accepts(event@),
        ensures
            (final(self)@, action@) == old(self)@.next(event@),
    {
        let mut stage = BlockReadStage::Finished;
        std::mem::swap(&mut stage, &mut self.stage);
        match (stage, event) {
            (BlockReadStage::Fetch(query), BlockReadEvent::Provider(event)) => {
                let mut query = query;
                let action = query.step(event);
                self.follow(query, action)
            },
            (BlockReadStage::Derive, BlockReadEvent::Derived(Ok(value))) => BlockReadAction::Done(
                Ok(value),
            ),
            (BlockReadStage::Derive, BlockReadEvent::Derived(Err(e))) => BlockReadAction::Done(
                Err(
                    match self.target {
                        ReadTarget::BlockInfo(_) => OracleProviderError::BlockInfo(e),
                        ReadTarget::SystemConfig(_) => OracleProviderError::OpBlockConversion(e),
                    },
                ),
            ),
            _ => vstd::pervasive::unreached(),
        }
    }
}

/// The query after at most this many replies, up to where the block is handed out or the query ends.
pub open spec fn fetched<V, X>(
    blocks: KnownBlocks<X>,
    turn: BlockReadTurn<V, X>,
    replies: nat,
) -> BlockReadTurn<V, X>
    decreases replies,
{
    if replies == 0 {
        turn
    } else {
        match turn.1 {
            BlockReadActionView::Provider(action) => fetched(
                blocks,
                turn.0.next(BlockReadEventView::Provider(blocks.reply(action))),
                (replies - 1) as nat,
            ),
            _ => turn,
        }
    }
}

/// What is read is read out of the block with the number asked for: a query on a known chain hands
/// out that block, or ends with the error of a block whose transactions do not decode.
pub proof fn law_the_block_asked_for_is_read<V, X>(
    blocks: KnownBlocks<X>,
    target: ReadTarget,
    config: RollupConfig,
    chain_id: Option<u64>,
    block_number: u64,
)
    requires
        blocks.chain.well_formed(),
        0 <= blocks.chain.place(block_number) < blocks.chain.headers.len(),
    ensures
        ({
            let header = blocks.chain.headers[blocks.chain.place(block_number)];
            let (_, action) = fetched::<V, X>(
                blocks,
                BlockReadView::start::<V, X>(
                    target,
                    config,
                    chain_id,
                    blocks.chain.hashes.last(),
                    block_number,
                ),
                3 * blocks.chain.headers.len() + 2,
            );
            &&& header.number == block_number
            &&& action == (match assembled_block::<X>(
                config,
                header,
                (blocks.items)(header.transactions_root),
            ) {
                Ok(block) => target.hand_out::<V, X>(block),
                Err(e) => BlockReadActionView::Done(Err(e)),
            })
        }),
{
    law_query_finds_the_block(blocks, config, chain_id, block_number);
    let read = BlockReadView { target, stage: BlockReadStageView::Finished };
    let turn = BlockQueryView::start::<X>(config, chain_id, blocks.chain.hashes.last(), block_number);
    lemma_read_follows_query::<V, X>(blocks, read, turn, 3 * blocks.chain.headers.len() + 2);
}

/// A block that was handed out gives what was read out of it, or the error of its kind.
pub proof fn law_reading_decides_the_result<V, X>(read: BlockReadView, derived: Result<V, X>)
    requires
        read.stage is Derive,
    ensures
        read.next(BlockReadEventView::Derived(derived)).1 == BlockReadActionView::<V, X>::Done(
            match (derived, read.target) {
                (Ok(value), _) => Ok(value),
                (Err(e), ReadTarget::BlockInfo(_)) => Err(OracleProviderError::BlockInfo(e)),
                (Err(e), ReadTarget::SystemConfig(_)) => Err(
                    OracleProviderError::OpBlockConversion(e),
                ),
            },
        ),
{
}

proof fn lemma_read_follows_query<V, X>(
    blocks: KnownBlocks<X>,
    read: BlockReadView,
    turn: BlockTurn<X>,
    replies: nat,
)
    requires
        blocks.run(turn, replies).1 is Done,
    ensures
        fetched::<V, X>(blocks, read.follow(turn), replies).1 == read.follow::<V, X>(
            blocks.run(turn, replies),
        ).1,
    decreases replies,
{
    if !(turn.1 is Done) {
        let next = turn.0.next(blocks.reply(turn.1));
        let following = read.follow::<V, X>(turn);
        assert(following.0.next(BlockReadEventView::<V, X>::Provider(blocks.reply(turn.1)))
            == following.0.follow::<V, X>(next));
        assert(following.0.follow::<V, X>(next) == read.follow::<V, X>(next));
        lemma_read_follows_query::<V, X>(blocks, read, next, (replies - 1) as nat);
    }
}

/// A query begins with the one for the block asked for.
pub proof fn law_reading_begins_with_the_block<V, X>(
    target: ReadTarget,
    config: RollupConfig,
    chain_id: Option<u64>,
    safe_head: Seq<u8>,
    block_number: u64,
)
    ensures
        ({
            let (read, action) = BlockReadView::start::<V, X>(
                target,
                config,
                chain_id,
                safe_head,
                block_number,
            );
            let (query, first) = BlockQueryView::start::<X>(
                config,
                chain_id,
                safe_head,
                block_number,
            );
            &&& read.target == target
            &&& read.stage == BlockReadStageView::Fetch(query)
            &&& action == BlockReadActionView::<V, X>::Provider(first)
        }),
{
}

/// While the block is fetched, the actions of the query for it are handed out as they are, and its
/// error is the result. A block that has come is handed out whole, together with the genesis of the
/// rollup if its information is to be read, or with the configuration if that is.
pub proof fn law_fetched_block_is_handed_out<V, X>(
    read: BlockReadView,
    query: BlockQueryView,
    event: ProviderEventView<X>,
)
    requires
        read.stage == BlockReadStageView::Fetch(query),
        query.accepts(event),
    ensures
        read.accepts(BlockReadEventView::<V, X>::Provider(event)),
        ({
            let (going, step) = query.next(event);
            let (next, action) = read.next(BlockReadEventView::<V, X>::Provider(event));
            &&& step matches ProviderActionView::Done(Ok(block)) ==> {
                &&& read.target matches ReadTarget::BlockInfo(genesis) ==> action == (
                BlockReadActionView::<V, X>::DeriveBlockInfo { block, genesis })
                &&& read.target matches ReadTarget::SystemConfig(config) ==> action == (
                BlockReadActionView::<V, X>::DeriveSystemConfig { block, config })
                &&& forall|reply: BlockReadEventView<V, X>|
                    #[trigger] next.accepts(reply) <==> reply is Derived
            }
            &&& step matches ProviderActionView::Done(Err(e)) ==> {
                &&& action == BlockReadActionView::<V, X>::Done(Err(e))
                &&& forall|reply: BlockReadEventView<V, X>| !(#[trigger] next.accepts(reply))
            }
            &&& !(step is Done) ==> action == BlockReadActionView::<V, X>::Provider(step)
                && next.stage == BlockReadStageView::Fetch(going)
            &&& next.target == read.target
        }),
{
}

/// What was read, or the error of reading, ends the query.
pub proof fn law_reading_ends_the_query<V, X>(read: BlockReadView, derived: Result<V, X>)
    requires
        read.stage is Derive,
    ensures
        read.accepts(BlockReadEventView::Derived(derived)),
        forall|reply: BlockReadEventView<V, X>|
            !(#[trigger] read.next(BlockReadEventView::Derived(derived)).0.accepts(reply)),
{
}

/// The contents of an action and of an event are what they hold, each as it is.
pub proof fn law_contents_of_actions_and_events<V, X>(
    action: BlockReadAction<V, X>,
    event: BlockReadEvent<V, X>,
)
    ensures
        action matches BlockReadAction::Provider(inner) ==> action@ == BlockReadActionView::<
            V,
            X,
        >::Provider(inner@),
        action matches BlockReadAction::DeriveBlockInfo { block, genesis } ==> action@ == (
        BlockReadActionView::<V, X>::DeriveBlockInfo { block: block@, genesis }),
        action matches BlockReadAction::DeriveSystemConfig { block, config } ==> action@ == (
        BlockReadActionView::<V, X>::DeriveSystemConfig { block: block@, config }),
        action matches BlockReadAction::Done(result) ==> action@ == BlockReadActionView::Done(result),
        event matches BlockReadEvent::Provider(inner) ==> event@ == BlockReadEventView::<
            V,
            X,
        >::Provider(inner@),
        event matches BlockReadEvent::Derived(result) ==> event@ == BlockReadEventView::Derived(
            result,
        ),
{
}

/// No step changes what is read out of the block.
pub proof fn law_reading_keeps_its_target<V, X>(read: BlockReadView, event: BlockReadEventView<V, X>)
    requires
        read.accepts(event),
    ensures
        read.next(event).0.target == read.target,
{
}

} // verus!
