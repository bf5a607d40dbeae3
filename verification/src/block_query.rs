//! Fetching an L2 block with its transactions.

use crate::config::{canyon, RollupConfig};
use crate::header::{hash_slow, header_hash, result_view, Header, HeaderView};
use crate::oracle::{
    hash_hint, hint_with, HintType, OracleProviderError, ProviderAction, ProviderActionView,
    ProviderEvent, ProviderEventView,
};
use crate::primitives::{bytes_of, B256};
use crate::transaction::{
    collect, decode_trie_transactions, decoded_tx_2718, law_collect,
    law_each_transaction_is_decoded_in_its_form, trie_outcomes, BlockView, OpBlock, Withdrawal,
};
use crate::walk::{
    law_walk_finds_the_header, law_walk_waits_for_what_it_asked, HeaderWalk, KnownChain, WalkTurn,
    WalkView,
};
use op_alloy_consensus::OpTxEnvelope;
use vstd::prelude::*;

verus! {

/// Where fetching a block stands.
#[derive(Debug, PartialEq, Eq)]
pub enum BlockStage {
    /// The header is being looked for.
    Header(HeaderWalk),
    /// The hint for the transactions is being sent.
    Hint { header: Header },
    /// The transactions trie is being walked.
    Trie { header: Header },
    /// The query is over.
    Finished,
}

/// The contents of a [`BlockStage`].
#[verifier::ext_equal]
pub enum BlockStageView {
    Header(WalkView),
    Hint { header: HeaderView },
    Trie { header: HeaderView },
    Finished,
}

impl View for BlockStage {
    type V = BlockStageView;

    open spec fn view(&self) -> BlockStageView {
        match *self {
            BlockStage::Header(walk) => BlockStageView::Header(walk@),
            BlockStage::Hint { header } => BlockStageView::Hint { header: header@ },
            BlockStage::Trie { header } => BlockStageView::Trie { header: header@ },
            BlockStage::Finished => BlockStageView::Finished,
        }
    }
}

/// A query for the block with a number.
#[derive(Debug, PartialEq, Eq)]
pub struct BlockQuery {
    pub config: RollupConfig,
    pub chain_id: Option<u64>,
    pub stage: BlockStage,
}

/// The contents of a [`BlockQuery`].
#[verifier::ext_equal]
pub struct BlockQueryView {
    pub config: RollupConfig,
    pub chain_id: Option<u64>,
    pub stage: BlockStageView,
}

impl View for BlockQuery {
    type V = BlockQueryView;

    open spec fn view(&self) -> BlockQueryView {
        BlockQueryView { config: self.config, chain_id: self.chain_id, stage: self.stage@ }
    }
}

/// A state of the query together with the action that it hands out.
pub type BlockTurn<X> = (BlockQueryView, ProviderActionView<BlockView, X>);

/// The block with this header and these transactions; from Canyon on it has an empty list of
/// withdrawals.
pub open spec fn block_with(
    config: RollupConfig,
    header: HeaderView,
    transactions: Seq<OpTxEnvelope>,
) -> BlockView {
    BlockView {
        header,
        transactions,
        withdrawals: if config.active(canyon(), header.timestamp) {
            Some(Seq::empty())
        } else {
            None
        },
    }
}

/// Makes the block with this header and these transactions.
pub fn make_block(config: &RollupConfig, header: Header, transactions: Vec<OpTxEnvelope>) -> (r: OpBlock)
    ensures
        r@ == block_with(*config, header@, transactions@),
{
    let none: Vec<Withdrawal> = Vec::new();
    let withdrawals = if config.is_canyon_active(header.timestamp) {
        Some(none)
    } else {
        None
    };
    OpBlock { header, transactions, withdrawals }
}

/// The block with this header whose transactions trie holds the items: each item is decoded.
pub open spec fn assembled_block<X>(config: RollupConfig, header: HeaderView, items: Seq<Seq<u8>>) -> Result<
    BlockView,
    OracleProviderError<X>,
> {
    match collect(trie_outcomes(items)) {
        Ok(transactions) => Ok(block_with(config, header, transactions)),
        Err(e) => Err(OracleProviderError::Rlp(e)),
    }
}

/// Assembles the block with this header from the items of its transactions trie.
pub fn assemble_block<X>(config: &RollupConfig, header: Header, items: &Vec<Vec<u8>>) -> (r: Result<
    OpBlock,
    OracleProviderError<X>,
>)
    ensures
        result_view(r) == assembled_block::<X>(*config, header@, bytes_of(items@)),
{
    match decode_trie_transactions(items) {
        Ok(transactions) => Ok(make_block(config, header, transactions)),
        Err(e) => Err(OracleProviderError::Rlp(e)),
    }
}

impl BlockQueryView {
    /// The same query at another stage.
    pub open spec fn at(self, stage: BlockStageView) -> BlockQueryView {
        BlockQueryView { stage, ..self }
    }

    /// Whether the query waits for this event.
    pub open spec fn accepts<X>(self, event: ProviderEventView<X>) -> bool {
        match self.stage {
            BlockStageView::Header(walk) => walk.accepts(event),
            BlockStageView::Hint { .. } => event is HintSent,
            BlockStageView::Trie { .. } => event is TrieItems,
            BlockStageView::Finished => false,
        }
    }

    /// The query ends with this result.
    pub open spec fn finish<X>(self, result: Result<BlockView, OracleProviderError<X>>) -> BlockTurn<X> {
        (self.at(BlockStageView::Finished), ProviderActionView::Done(result))
    }

    /// The query follows the walk to the header; then the host is told of the hash of the header, so
    /// that it prepares the transactions.
    pub open spec fn follow<X>(self, turn: WalkTurn<X>) -> BlockTurn<X> {
        match turn.1 {
            ProviderActionView::Done(Ok(header)) => (
                self.at(BlockStageView::Hint { header }),
                ProviderActionView::SendHint(
                    hint_with(HintType::L2Transactions, header_hash(header), self.chain_id),
                ),
            ),
            ProviderActionView::Done(Err(e)) => self.finish(Err(e)),
            ProviderActionView::SendHint(hint) => (
                self.at(BlockStageView::Header(turn.0)),
                ProviderActionView::SendHint(hint),
            ),
            ProviderActionView::GetPreimage(hash) => (
                self.at(BlockStageView::Header(turn.0)),
                ProviderActionView::GetPreimage(hash),
            ),
            ProviderActionView::HistoryLookup { header, block_number } => (
                self.at(BlockStageView::Header(turn.0)),
                ProviderActionView::HistoryLookup { header, block_number },
            ),
            ProviderActionView::WalkTrie(root) => (
                self.at(BlockStageView::Header(turn.0)),
                ProviderActionView::WalkTrie(root),
            ),
        }
    }

    /// The step of a query that is told what came of its last action.
    pub open spec fn next<X>(self, event: ProviderEventView<X>) -> BlockTurn<X> {
        match (self.stage, event) {
            (BlockStageView::Header(walk), _) => self.follow(walk.next(event)),
            (BlockStageView::Hint { header }, ProviderEventView::HintSent(Ok(_))) => (
                self.at(BlockStageView::Trie { header }),
                ProviderActionView::WalkTrie(header.transactions_root),
            ),
            (BlockStageView::Hint { .. }, ProviderEventView::HintSent(Err(e))) => self.finish(
                Err(OracleProviderError::Preimage(e)),
            ),
            (BlockStageView::Trie { header }, ProviderEventView::TrieItems(Ok(items))) => {
                self.finish(assembled_block::<X>(self.config, header, items))
            },
            (BlockStageView::Trie { .. }, ProviderEventView::TrieItems(Err(e))) => self.finish(
                Err(OracleProviderError::TrieWalker(e)),
            ),
            _ => vstd::pervasive::arbitrary(),
        }
    }

    /// The beginning of the query: the walk to the header begins.
    pub open spec fn start<X>(
        config: RollupConfig,
        chain_id: Option<u64>,
        safe_head: Seq<u8>,
        block_number: u64,
    ) -> BlockTurn<X> {
        BlockQueryView { config, chain_id, stage: BlockStageView::Finished }.follow(
            WalkView::start::<X>(config, chain_id, safe_head, block_number),
        )
    }
}

impl BlockQuery {
    /// Begins to fetch the block with this number.
    pub fn start<X>(
        config: &RollupConfig,
        chain_id: Option<u64>,
        safe_head: B256,
        block_number: u64,
    ) -> (r: (BlockQuery, ProviderAction<OpBlock, X>))
        ensures
            (r.0@, r.1@) == BlockQueryView::start::<X>(*config, chain_id, safe_head@, block_number),
    {
        let (walk, action) = HeaderWalk::start(config, chain_id, safe_head, block_number);
        let mut query = BlockQuery { config: *config, chain_id, stage: BlockStage::Finished };
        let action = query.follow(walk, action);
        (query, action)
    }

    fn follow<X>(&mut self, walk: HeaderWalk, action: ProviderAction<Header, X>) -> (r: ProviderAction<
        OpBlock,
        X,
    >)
        requires
            old(self)@.stage is Finished,
        ensures
            (final(self)@, r@) == old(self)@.follow::<X>((walk@, action@)),
    {
        match action {
            ProviderAction::Done(Ok(header)) => {
                let hash = hash_slow(&header);
                let hint = hash_hint(HintType::L2Transactions, &hash, self.chain_id);
                self.stage = BlockStage::Hint { header };
                ProviderAction::SendHint(hint)
            },
            ProviderAction::Done(Err(e)) => ProviderAction::Done(Err(e)),
            ProviderAction::SendHint(hint) => {
                self.stage = BlockStage::Header(walk);
                ProviderAction::SendHint(hint)
            },
            ProviderAction::GetPreimage(hash) => {
                self.stage = BlockStage::Header(walk);
                ProviderAction::GetPreimage(hash)
            },
            ProviderAction::HistoryLookup { header, block_number } => {
                self.stage = BlockStage::Header(walk);
                ProviderAction::HistoryLookup { header, block_number }
            },
            ProviderAction::WalkTrie(root) => {
                self.stage = BlockStage::Header(walk);
                ProviderAction::WalkTrie(root)
            },
        }
    }

    /// Takes what came of the last action and gives the next one.
    pub fn step<X>(&mut self, event: ProviderEvent<X>) -> (action: ProviderAction<OpBlock, X>)
        requires
            old(self)@.accepts(event@),
        ensures
            (final(self)@, action@) == old(self)@.next(event@),
    {
        let mut stage = BlockStage::Finished;
        std::mem::swap(&mut stage, &mut self.stage);
        match (stage, event) {
            (BlockStage::Header(walk), event) => {
                let mut walk = walk;
                let action = walk.step(event);
                self.follow(walk, action)
            },
            (BlockStage::Hint { header }, ProviderEvent::HintSent(Ok(_))) => {
                let root = header.transactions_root;
                self.stage = BlockStage::Trie { header };
                ProviderAction::WalkTrie(root)
            },
            (BlockStage::Hint { .. }, ProviderEvent::HintSent(Err(e))) => ProviderAction::Done(
                Err(OracleProviderError::Preimage(e)),
            ),
            (BlockStage::Trie { header }, ProviderEvent::TrieItems(Ok(items))) => {
                ProviderAction::Done(assemble_block(&self.config, header, &items))
            },
            (BlockStage::Trie { .. }, ProviderEvent::TrieItems(Err(e))) => ProviderAction::Done(
                Err(OracleProviderError::TrieWalker(e)),
            ),
            _ => vstd::pervasive::unreached(),
        }
    }
}

/// A block is assembled exactly if every item of its transactions trie decodes. It then has the
/// header that was looked for and one transaction per item, in their order, and a list of
/// withdrawals, an empty one, exactly from Canyon on.
pub proof fn law_block_holds_the_trie<X>(config: RollupConfig, header: HeaderView, items: Seq<Seq<u8>>)
    ensures
        assembled_block::<X>(config, header, items) is Ok <==> forall|i: int|
            0 <= i < items.len() ==> decoded_tx_2718(#[trigger] items[i]) is Ok,
        assembled_block::<X>(config, header, items) matches Ok(block) ==> {
            &&& block.header == header
            &&& block.transactions.len() == items.len()
            &&& forall|i: int|
                0 <= i < items.len() ==> decoded_tx_2718(items[i]) == Ok::<_, alloy_rlp::Error>(
                    #[trigger] block.transactions[i],
                )
            &&& block.withdrawals is Some <==> config.active(canyon(), header.timestamp)
            &&& block.withdrawals matches Some(withdrawals) ==> withdrawals.len() == 0
        },
{
    let outcomes = trie_outcomes(items);
    law_collect(outcomes);
    assert forall|i: int| 0 <= i < items.len() implies #[trigger] outcomes[i] == decoded_tx_2718(
        items[i],
    ) by {}
    if assembled_block::<X>(config, header, items) is Ok {
        assert forall|i: int| 0 <= i < items.len() implies decoded_tx_2718(#[trigger] items[i]) is Ok by {
            assert(outcomes[i] is Ok);
        }
    }
}

/// Once the header is found, the host is told of its hash, then the trie with its transactions root
/// is walked, and the block is what comes of both.
pub proof fn law_block_comes_from_the_header<X>(
    query: BlockQueryView,
    walk: WalkView,
    event: ProviderEventView<X>,
    header: HeaderView,
    items: Seq<Seq<u8>>,
)
    requires
        query.stage == BlockStageView::Header(walk),
        walk.accepts(event),
        walk.next(event).1 == ProviderActionView::<HeaderView, X>::Done(Ok(header)),
    ensures
        ({
            let (hinting, hint) = query.next(event);
            let (walking, root) = hinting.next(ProviderEventView::<X>::HintSent(Ok(())));
            let (_, done) = walking.next(ProviderEventView::<X>::TrieItems(Ok(items)));
            &&& hint == ProviderActionView::<BlockView, X>::SendHint(
                hint_with(HintType::L2Transactions, header_hash(header), query.chain_id),
            )
            &&& root == ProviderActionView::<BlockView, X>::WalkTrie(header.transactions_root)
            &&& done == ProviderActionView::<BlockView, X>::Done(
                assembled_block::<X>(query.config, header, items),
            )
        }),
{
}

/// A chain whose transactions tries can be walked.
pub struct KnownBlocks<X> {
    /// The headers, with the oracle and the history contract.
    pub chain: KnownChain<X>,
    /// The items of the trie with a root.
    pub items: spec_fn(Seq<u8>) -> Seq<Seq<u8>>,
}

impl<X> KnownBlocks<X> {
    /// What comes of an action.
    pub open spec fn reply(self, action: ProviderActionView<BlockView, X>) -> ProviderEventView<X> {
        match action {
            ProviderActionView::SendHint(_) => ProviderEventView::HintSent(Ok(())),
            ProviderActionView::GetPreimage(hash) => ProviderEventView::Preimage(
                Ok((self.chain.preimage)(hash)),
            ),
            ProviderActionView::HistoryLookup { header, block_number } => {
                ProviderEventView::History((self.chain.lookup)(header, block_number))
            },
            ProviderActionView::WalkTrie(root) => ProviderEventView::TrieItems(
                Ok((self.items)(root)),
            ),
            ProviderActionView::Done(_) => vstd::pervasive::arbitrary(),
        }
    }

    /// The query after at most this many replies.
    pub open spec fn run(self, turn: BlockTurn<X>, replies: nat) -> BlockTurn<X>
        decreases replies,
    {
        if turn.1 is Done || replies == 0 {
            turn
        } else {
            self.run(turn.0.next(self.reply(turn.1)), (replies - 1) as nat)
        }
    }
}

/// A query for a block of the chain ends with the block whose header has the number looked for and
/// whose transactions are those of its trie, whatever the history contract gives.
pub proof fn law_query_finds_the_block<X>(
    blocks: KnownBlocks<X>,
    config: RollupConfig,
    chain_id: Option<u64>,
    block_number: u64,
)
    requires
        blocks.chain.well_formed(),
        0 <= blocks.chain.place(block_number) < blocks.chain.headers.len(),
    ensures
        ({
            let header = blocks.chain.headers[blocks.chain.place(block_number)];
            &&& header.number == block_number
            &&& blocks.run(
                BlockQueryView::start::<X>(
                    config,
                    chain_id,
                    blocks.chain.hashes.last(),
                    block_number,
                ),
                3 * blocks.chain.headers.len() + 2,
            ).1 == ProviderActionView::<BlockView, X>::Done(
                assembled_block::<X>(config, header, (blocks.items)(header.transactions_root)),
            )
        }),
{
    let replies = 3 * blocks.chain.headers.len();
    let query = BlockQueryView { config, chain_id, stage: BlockStageView::Finished };
    let turn = WalkView::start::<X>(config, chain_id, blocks.chain.hashes.last(), block_number);
    law_walk_finds_the_header(blocks.chain, config, chain_id, block_number, replies);
    lemma_query_follows_walk(
        blocks,
        query,
        turn,
        blocks.chain.headers[blocks.chain.place(block_number)],
        replies,
    );
}

proof fn lemma_query_follows_walk<X>(
    blocks: KnownBlocks<X>,
    query: BlockQueryView,
    turn: WalkTurn<X>,
    header: HeaderView,
    replies: nat,
)
    requires
        KnownChain::coherent(turn),
        blocks.chain.run(turn, replies).1 == ProviderActionView::<HeaderView, X>::Done(Ok(header)),
    ensures
        blocks.run(query.follow(turn), replies + 2).1 == ProviderActionView::<BlockView, X>::Done(
            assembled_block::<X>(query.config, header, (blocks.items)(header.transactions_root)),
        ),
    decreases replies,
{
    if turn.1 is Done {
        reveal_with_fuel(KnownBlocks::run, 3);
    } else {
        let reply = blocks.chain.reply(turn.1);
        let following = query.follow(turn);
        assert(blocks.reply(following.1) == reply);
        let next = turn.0.next(reply);
        assert(KnownChain::coherent(next));
        assert(following.0.next(reply) == following.0.follow(next));
        assert(following.0.follow(next) == query.follow(next));
        lemma_query_follows_walk(blocks, query, next, header, (replies - 1) as nat);
    }
}

/// A block whose trie holds an item that does not decode is not assembled: the error is that of the
/// first such item.
pub proof fn law_first_broken_item_is_the_error<X>(
    config: RollupConfig,
    header: HeaderView,
    items: Seq<Seq<u8>>,
    broken: int,
    error: alloy_rlp::Error,
)
    requires
        0 <= broken < items.len(),
        forall|i: int| 0 <= i < broken ==> decoded_tx_2718(#[trigger] items[i]) is Ok,
        decoded_tx_2718(items[broken]) == Err::<OpTxEnvelope, _>(error),
    ensures
        assembled_block::<X>(config, header, items) == Err::<BlockView, _>(
            OracleProviderError::<X>::Rlp(error),
        ),
{
    let outcomes = trie_outcomes(items);
    law_each_transaction_is_decoded_in_its_form(items);
    law_collect(outcomes);
    assert(!(outcomes[broken] is Ok));
    let e = collect(outcomes)->Err_0;
    let i = choose|i: int|
        0 <= i < outcomes.len() && (#[trigger] outcomes[i]) == Err::<OpTxEnvelope, _>(e)
            && forall|j: int| 0 <= j < i ==> (#[trigger] outcomes[j]) is Ok;
    if i < broken {
        assert(decoded_tx_2718(items[i]) is Ok);
    } else if broken < i {
        assert(outcomes[broken] is Ok);
    }
}

/// A query for a block begins with the walk from the safe head, for the number asked for.
pub proof fn law_query_begins_with_the_walk<X>(
    config: RollupConfig,
    chain_id: Option<u64>,
    safe_head: Seq<u8>,
    block_number: u64,
)
    ensures
        ({
            let (query, action) = BlockQueryView::start::<X>(
                config,
                chain_id,
                safe_head,
                block_number,
            );
            let (walk, _) = WalkView::start::<X>(config, chain_id, safe_head, block_number);
            &&& query.config == config
            &&& query.chain_id == chain_id
            &&& query.stage == BlockStageView::Header(walk)
            &&& action == ProviderActionView::<BlockView, X>::SendHint(
                hint_with(HintType::L2BlockHeader, safe_head, chain_id),
            )
        }),
{
}

/// While the header is looked for, the query hands out the actions of the walk as they are; an
/// error of the walk ends it.
pub proof fn law_query_hands_out_the_walk<X>(
    query: BlockQueryView,
    walk: WalkView,
    event: ProviderEventView<X>,
)
    requires
        query.stage == BlockStageView::Header(walk),
        walk.accepts(event),
    ensures
        query.accepts(event),
        ({
            let (going, step) = walk.next(event);
            let (next, action) = query.next(event);
            &&& step matches ProviderActionView::SendHint(hint) ==> action
                == ProviderActionView::<BlockView, X>::SendHint(hint)
            &&& step matches ProviderActionView::GetPreimage(hash) ==> action
                == ProviderActionView::<BlockView, X>::GetPreimage(hash)
            &&& step matches ProviderActionView::HistoryLookup { header, block_number } ==> action == (
            ProviderActionView::<BlockView, X>::HistoryLookup { header, block_number })
            &&& step matches ProviderActionView::Done(Err(e)) ==> action == ProviderActionView::<
                BlockView,
                X,
            >::Done(Err(e)) && next.stage is Finished
            &&& !(step is Done) ==> next.stage == BlockStageView::Header(going)
            &&& next.config == query.config
            &&& next.chain_id == query.chain_id
        }),
{
}

/// A query whose header was found ends with the error of the oracle if the hint for its
/// transactions fails, and with that of the walker if their trie cannot be walked.
pub proof fn law_query_hands_errors_on<X>(query: BlockQueryView, header: HeaderView, error: X)
    ensures
        ({
            let unsent = ProviderEventView::<X>::HintSent(Err(error));
            let unwalked = ProviderEventView::<X>::TrieItems(Err(error));
            &&& query.stage == (BlockStageView::Hint { header }) ==> query.accepts(unsent)
                && query.next(unsent).1 == ProviderActionView::<BlockView, X>::Done(
                Err(OracleProviderError::Preimage(error)),
            )
            &&& query.stage == (BlockStageView::Trie { header }) ==> query.accepts(unwalked)
                && query.next(unwalked).1 == ProviderActionView::<BlockView, X>::Done(
                Err(OracleProviderError::TrieWalker(error)),
            )
        }),
{
}

/// The query waits for what it has asked for, and for nothing once it is over.
pub proof fn law_query_waits_for_what_it_asked<X>(query: BlockQueryView, event: ProviderEventView<X>)
    requires
        query.accepts(event),
    ensures
        ({
            let (going, action) = query.next(event);
            &&& action is SendHint ==> forall|reply: ProviderEventView<X>|
                #[trigger] going.accepts(reply) <==> reply is HintSent
            &&& action is GetPreimage ==> forall|reply: ProviderEventView<X>|
                #[trigger] going.accepts(reply) <==> reply is Preimage
            &&& action is HistoryLookup ==> forall|reply: ProviderEventView<X>|
                #[trigger] going.accepts(reply) <==> reply is History
            &&& action is WalkTrie ==> forall|reply: ProviderEventView<X>|
                #[trigger] going.accepts(reply) <==> reply is TrieItems
            &&& action is Done ==> forall|reply: ProviderEventView<X>|
                !(#[trigger] going.accepts(reply))
        }),
{
    if let BlockStageView::Header(walk) = query.stage {
        law_walk_waits_for_what_it_asked(walk, event);
    }
}

/// No step changes the configuration and the chain ID of a query.
pub proof fn law_query_keeps_its_configuration<X>(query: BlockQueryView, event: ProviderEventView<X>)
    requires
        query.accepts(event),
    ensures
        query.next(event).0.config == query.config,
        query.next(event).0.chain_id == query.chain_id,
{
}

} // verus!
