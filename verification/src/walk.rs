//! The walk back from the L2 safe head to the header with a block number.

use crate::config::{isthmus, RollupConfig};
use crate::header::{decoded_header, Header, HeaderView};
use crate::oracle::{
    header_step, header_turn, hint_with, HintType, OracleProviderError, PreimageQuery, PreimageQueryView,
    PreimageStage, ProviderAction, ProviderActionView, ProviderEvent, ProviderEventView,
};
use crate::primitives::B256;
use vstd::prelude::*;

verus! {

/// Where the walk back from the safe head stands.
#[derive(Debug, PartialEq, Eq)]
pub enum WalkStage {
    /// A header is being fetched.
    Fetch(PreimageQuery),
    /// The history contract is being consulted as of the header.
    Lookup { header: Header },
    /// The walk is over.
    Finished,
}

/// The contents of a [`WalkStage`].
#[verifier::ext_equal]
pub enum WalkStageView {
    Fetch(PreimageQueryView),
    Lookup { header: HeaderView },
    Finished,
}

impl View for WalkStage {
    type V = WalkStageView;

    open spec fn view(&self) -> WalkStageView {
        match *self {
            WalkStage::Fetch(query) => WalkStageView::Fetch(query@),
            WalkStage::Lookup { header } => WalkStageView::Lookup { header: header@ },
            WalkStage::Finished => WalkStageView::Finished,
        }
    }
}

/// The walk back from the safe head to the header with a block number.
#[derive(Debug, PartialEq, Eq)]
pub struct HeaderWalk {
    pub config: RollupConfig,
    pub chain_id: Option<u64>,
    /// The number that is looked for.
    pub block_number: u64,
    /// Whether the header of the safe head is still to come.
    pub at_head: bool,
    /// Whether the history contract has failed, so that every header is visited.
    pub linear_fallback: bool,
    pub stage: WalkStage,
}

/// The contents of a [`HeaderWalk`].
#[verifier::ext_equal]
pub struct WalkView {
    pub config: RollupConfig,
    pub chain_id: Option<u64>,
    pub block_number: u64,
    pub at_head: bool,
    pub linear_fallback: bool,
    pub stage: WalkStageView,
}

impl View for HeaderWalk {
    type V = WalkView;

    open spec fn view(&self) -> WalkView {
        WalkView {
            config: self.config,
            chain_id: self.chain_id,
            block_number: self.block_number,
            at_head: self.at_head,
            linear_fallback: self.linear_fallback,
            stage: self.stage@,
        }
    }
}

/// A state of the walk together with the action that it hands out.
pub type WalkTurn<X> = (WalkView, ProviderActionView<HeaderView, X>);

impl WalkView {
    /// The same walk at another stage.
    pub open spec fn at(self, stage: WalkStageView) -> WalkView {
        WalkView { stage, ..self }
    }

    /// Whether the walk waits for this event.
    pub open spec fn accepts<X>(self, event: ProviderEventView<X>) -> bool {
        match self.stage {
            WalkStageView::Fetch(query) => query.accepts(event),
            WalkStageView::Lookup { .. } => event is History,
            WalkStageView::Finished => false,
        }
    }

    /// The walk ends with this result.
    pub open spec fn finish<X>(self, result: Result<HeaderView, OracleProviderError<X>>) -> WalkTurn<X> {
        (self.at(WalkStageView::Finished), ProviderActionView::Done(result))
    }

    /// The walk goes on to the header with this hash.
    pub open spec fn fetch<X>(self, hash: Seq<u8>) -> WalkTurn<X> {
        let (query, action) = PreimageQueryView::start::<HeaderView, X>(
            HintType::L2BlockHeader,
            hash,
            self.chain_id,
        );
        (self.at(WalkStageView::Fetch(query)), action)
    }

    /// From a header past the number looked for, the walk leaps by the history contract, if Isthmus
    /// is active and the contract has not failed; otherwise it goes on to the parent. Any other
    /// header is the result.
    pub open spec fn walk_from<X>(self, header: HeaderView) -> WalkTurn<X> {
        if header.number <= self.block_number {
            self.finish(Ok(header))
        } else if self.config.active(isthmus(), header.timestamp) && !self.linear_fallback {
            (
                self.at(WalkStageView::Lookup { header }),
                ProviderActionView::HistoryLookup { header, block_number: self.block_number },
            )
        } else {
            self.fetch(header.parent_hash)
        }
    }

    /// A number past the safe head is an error, which is found as soon as its header has come.
    pub open spec fn arrived<X>(self, header: HeaderView) -> WalkTurn<X> {
        if self.at_head && self.block_number > header.number {
            self.finish(
                Err(OracleProviderError::BlockNumberPastHead(self.block_number, header.number)),
            )
        } else {
            WalkView { at_head: false, ..self }.walk_from(header)
        }
    }

    /// The step of a walk that is told what came of its last action.
    pub open spec fn next<X>(self, event: ProviderEventView<X>) -> WalkTurn<X> {
        match (self.stage, event) {
            (WalkStageView::Fetch(query), _) => {
                let (query, action) = header_turn(query.next(event));
                match action {
                    ProviderActionView::Done(Ok(header)) => self.arrived(header),
                    ProviderActionView::Done(Err(e)) => self.finish(Err(e)),
                    _ => (self.at(WalkStageView::Fetch(query)), action),
                }
            },
            (WalkStageView::Lookup { .. }, ProviderEventView::History(Ok(hash))) => self.fetch(hash),
            (WalkStageView::Lookup { header }, ProviderEventView::History(Err(_))) => WalkView {
                linear_fallback: true,
                ..self
            }.walk_from(header),
            _ => vstd::pervasive::arbitrary(),
        }
    }

    /// The beginning of the walk: the header of the safe head is fetched.
    pub open spec fn start<X>(
        config: RollupConfig,
        chain_id: Option<u64>,
        safe_head: Seq<u8>,
        block_number: u64,
    ) -> WalkTurn<X> {
        WalkView {
            config,
            chain_id,
            block_number,
            at_head: true,
            linear_fallback: false,
            stage: WalkStageView::Finished,
        }.fetch(safe_head)
    }
}

impl HeaderWalk {
    /// Begins to walk back from the safe head to the header with this number.
    pub fn start<X>(
        config: &RollupConfig,
        chain_id: Option<u64>,
        safe_head: B256,
        block_number: u64,
    ) -> (r: (HeaderWalk, ProviderAction<Header, X>))
        ensures
            (r.0@, r.1@) == WalkView::start::<X>(*config, chain_id, safe_head@, block_number),
    {
        let mut walk = HeaderWalk {
            config: *config,
            chain_id,
            block_number,
            at_head: true,
            linear_fallback: false,
            stage: WalkStage::Finished,
        };
        let action = walk.fetch(safe_head);
        (walk, action)
    }

    fn fetch<X>(&mut self, hash: B256) -> (action: ProviderAction<Header, X>)
        ensures
            (final(self)@, action@) == old(self)@.fetch::<X>(hash@),
    {
        let (query, action) = PreimageQuery::start(HintType::L2BlockHeader, hash, self.chain_id);
        self.stage = WalkStage::Fetch(query);
        action
    }

    /// Goes on from a header: it is the result, or the walk leaps or goes on to the parent.
    pub fn walk_from<X>(&mut self, header: Header) -> (action: ProviderAction<Header, X>)
        ensures
            (final(self)@, action@) == old(self)@.walk_from::<X>(header@),
    {
        if header.number <= self.block_number {
            self.stage = WalkStage::Finished;
            ProviderAction::Done(Ok(header))
        } else if self.config.is_isthmus_active(header.timestamp) && !self.linear_fallback {
            let block_number: u64 = self.block_number;
            self.stage = WalkStage::Lookup { header: header.copy() };
            ProviderAction::HistoryLookup { header, block_number }
        } else {
            self.fetch(header.parent_hash)
        }
    }

    /// Takes a header that has come. If it is that of the safe head, a number past it is refused.
    pub fn arrived<X>(&mut self, header: Header) -> (action: ProviderAction<Header, X>)
        ensures
            (final(self)@, action@) == old(self)@.arrived::<X>(header@),
    {
        if self.at_head && self.block_number > header.number {
            self.stage = WalkStage::Finished;
            ProviderAction::Done(
                Err(OracleProviderError::BlockNumberPastHead(self.block_number, header.number)),
            )
        } else {
            self.at_head = false;
            self.walk_from(header)
        }
    }

    /// Takes what came of the last action and gives the next one.
    pub fn step<X>(&mut self, event: ProviderEvent<X>) -> (action: ProviderAction<Header, X>)
        requires
            old(self)@.accepts(event@),
        ensures
            (final(self)@, action@) == old(self)@.next(event@),
    {
        let mut stage = WalkStage::Finished;
        std::mem::swap(&mut stage, &mut self.stage);
        match stage {
            WalkStage::Fetch(query) => {
                let mut query = query;
                match header_step(&mut query, event) {
                    ProviderAction::Done(Ok(header)) => self.arrived(header),
                    ProviderAction::Done(Err(e)) => ProviderAction::Done(Err(e)),
                    action => {
                        self.stage = WalkStage::Fetch(query);
                        action
                    },
                }
            },
            WalkStage::Lookup { header } => match event {
                ProviderEvent::History(Ok(hash)) => self.fetch(hash),
                _ => {
                    self.linear_fallback = true;
                    self.walk_from(header)
                },
            },
            WalkStage::Finished => vstd::pervasive::unreached(),
        }
    }
}

/// A chain of headers together with an oracle and a history contract that know it.
pub struct KnownChain<X> {
    /// The hash of each header.
    pub hashes: Seq<Seq<u8>>,
    /// The headers, from the oldest on.
    pub headers: Seq<HeaderView>,
    /// What the oracle gives for a hash.
    pub preimage: spec_fn(Seq<u8>) -> Seq<u8>,
    /// What the history contract as of a header gives for a block number.
    pub lookup: spec_fn(HeaderView, u64) -> Result<Seq<u8>, X>,
}

impl<X> KnownChain<X> {
    /// The place in the chain of the header with this number.
    pub open spec fn place(self, number: u64) -> int {
        number - self.headers[0].number
    }

    /// Whether the headers form a chain: each is one past its parent. The oracle gives the encoding
    /// of each header. The history contract may fail, but where it gives a hash, it is that of the
    /// block asked for or of one between that block and the header.
    pub open spec fn well_formed(self) -> bool {
        &&& self.headers.len() > 0
        &&& self.headers.len() == self.hashes.len()
        &&& forall|i: int|
            0 <= i < self.headers.len() ==> (#[trigger] self.headers[i]).number
                == self.headers[0].number + i
        &&& forall|i: int|
            0 < i < self.headers.len() ==> (#[trigger] self.headers[i]).parent_hash
                == self.hashes[i - 1]
        &&& forall|i: int|
            0 <= i < self.headers.len() ==> decoded_header(
                (self.preimage)(#[trigger] self.hashes[i]),
            ) == Ok::<HeaderView, alloy_rlp::Error>(self.headers[i])
        &&& forall|i: int, number: u64|
            0 <= self.place(number) < i < self.headers.len() ==> match #[trigger] (self.lookup)(
                self.headers[i],
                number,
            ) {
                Ok(hash) => exists|j: int|
                    self.place(number) <= j < i && hash == #[trigger] self.hashes[j],
                Err(_) => true,
            }
    }

    /// What comes of an action.
    pub open spec fn reply(self, action: ProviderActionView<HeaderView, X>) -> ProviderEventView<X> {
        match action {
            ProviderActionView::SendHint(_) => ProviderEventView::HintSent(Ok(())),
            ProviderActionView::GetPreimage(hash) => ProviderEventView::Preimage(
                Ok((self.preimage)(hash)),
            ),
            ProviderActionView::HistoryLookup { header, block_number } => {
                ProviderEventView::History((self.lookup)(header, block_number))
            },
            _ => vstd::pervasive::arbitrary(),
        }
    }

    /// Whether the action of a turn is the one that its stage waits on.
    pub open spec fn coherent(turn: WalkTurn<X>) -> bool {
        match turn.0.stage {
            WalkStageView::Fetch(query) => match query.stage {
                PreimageStage::Hint => turn.1 is SendHint,
                PreimageStage::Preimage => turn.1 is GetPreimage,
                PreimageStage::Finished => false,
            },
            WalkStageView::Lookup { .. } => turn.1 is HistoryLookup,
            WalkStageView::Finished => turn.1 is Done,
        }
    }

    /// The walk after at most this many replies.
    pub open spec fn run(self, turn: WalkTurn<X>, replies: nat) -> WalkTurn<X>
        decreases replies,
    {
        if turn.1 is Done || replies == 0 {
            turn
        } else {
            self.run(turn.0.next(self.reply(turn.1)), (replies - 1) as nat)
        }
    }
}

/// The walk back from the head of a chain ends with the header of the number looked for, whatever
/// the history contract gives. At most three replies per block are needed, and two for the head.
pub proof fn law_walk_finds_the_header<X>(
    chain: KnownChain<X>,
    config: RollupConfig,
    chain_id: Option<u64>,
    block_number: u64,
    replies: nat,
)
    requires
        chain.well_formed(),
        0 <= chain.place(block_number) < chain.headers.len(),
        replies >= 3 * chain.headers.len(),
    ensures
        chain.run(
            WalkView::start::<X>(config, chain_id, chain.hashes.last(), block_number),
            replies,
        ).1 == ProviderActionView::<HeaderView, X>::Done(
            Ok(chain.headers[chain.place(block_number)]),
        ),
        chain.headers[chain.place(block_number)].number == block_number,
{
    let head = chain.headers.len() - 1;
    let walk = WalkView {
        config,
        chain_id,
        block_number,
        at_head: true,
        linear_fallback: false,
        stage: WalkStageView::Finished,
    };
    lemma_fetch(chain, walk, head, replies);
}

/// A number past the head of the chain is refused, as soon as the header of the head has come.
pub proof fn law_walk_refuses_what_is_past_the_head<X>(
    chain: KnownChain<X>,
    config: RollupConfig,
    chain_id: Option<u64>,
    block_number: u64,
)
    requires
        chain.well_formed(),
        block_number > chain.headers.last().number,
    ensures
        chain.run(
            WalkView::start::<X>(config, chain_id, chain.hashes.last(), block_number),
            2,
        ).1 == ProviderActionView::<HeaderView, X>::Done(
            Err(
                OracleProviderError::BlockNumberPastHead(
                    block_number,
                    chain.headers.last().number,
                ),
            ),
        ),
{
    reveal_with_fuel(KnownChain::run, 3);
    assert(chain.hashes[chain.hashes.len() - 1] == chain.hashes.last());
}

/// Whatever the oracle gives, the number of the header that a walk ends with is at most the one
/// looked for.
pub proof fn law_walk_never_overshoots<X>(
    walk: WalkView,
    event: ProviderEventView<X>,
    header: HeaderView,
)
    requires
        walk.accepts(event),
        walk.next(event).1 == ProviderActionView::<HeaderView, X>::Done(Ok(header)),
    ensures
        header.number <= walk.block_number,
{
}

/// Once the history contract has failed, it is not consulted again.
pub proof fn law_fallback_is_final<X>(walk: WalkView, event: ProviderEventView<X>)
    requires
        walk.accepts(event),
        walk.linear_fallback || (walk.stage is Lookup && event matches ProviderEventView::History(
            Err(_),
        )),
        walk.linear_fallback ==> !(walk.stage is Lookup),
    ensures
        walk.next(event).0.linear_fallback,
        !(walk.next(event).0.stage is Lookup),
        !(walk.next(event).1 is HistoryLookup),
{
}

proof fn lemma_fetch<X>(chain: KnownChain<X>, walk: WalkView, j: int, replies: nat)
    requires
        chain.well_formed(),
        0 <= chain.place(walk.block_number) <= j < chain.headers.len(),
        replies >= 2 + 3 * (j - chain.place(walk.block_number)),
    ensures
        chain.run(walk.fetch::<X>(chain.hashes[j]), replies).1 == ProviderActionView::<
            HeaderView,
            X,
        >::Done(Ok(chain.headers[chain.place(walk.block_number)])),
    decreases j, 1int,
{
    let header = chain.headers[j];
    let hash = chain.hashes[j];
    let first = walk.fetch::<X>(hash);
    let second = first.0.next(chain.reply(first.1));
    let third = second.0.next(chain.reply(second.1));
    reveal_with_fuel(KnownChain::run, 3);
    assert(decoded_header((chain.preimage)(hash)) == Ok::<HeaderView, alloy_rlp::Error>(header));
    let going = WalkView { at_head: false, ..second.0 };
    assert(third == going.walk_from::<X>(header));
    lemma_walk_from(chain, going, j, (replies - 2) as nat);
}

proof fn lemma_walk_from<X>(chain: KnownChain<X>, walk: WalkView, i: int, replies: nat)
    requires
        chain.well_formed(),
        0 <= chain.place(walk.block_number) <= i < chain.headers.len(),
        replies >= 3 * (i - chain.place(walk.block_number)),
    ensures
        chain.run(walk.walk_from::<X>(chain.headers[i]), replies).1 == ProviderActionView::<
            HeaderView,
            X,
        >::Done(Ok(chain.headers[chain.place(walk.block_number)])),
    decreases i, 0int,
{
    let header = chain.headers[i];
    let place = chain.place(walk.block_number);
    let turn = walk.walk_from::<X>(header);
    if header.number > walk.block_number {
        assert(header.parent_hash == chain.hashes[i - 1]);
        if walk.config.active(isthmus(), header.timestamp) && !walk.linear_fallback {
            reveal_with_fuel(KnownChain::run, 2);
            let found = (chain.lookup)(header, walk.block_number);
            match found {
                Ok(hash) => {
                    let j = choose|j: int| place <= j < i && hash == #[trigger] chain.hashes[j];
                    lemma_fetch(chain, turn.0, j, (replies - 1) as nat);
                },
                Err(_) => {
                    let linear = WalkView { linear_fallback: true, ..turn.0 };
                    lemma_fetch(chain, linear, i - 1, (replies - 1) as nat);
                },
            }
        } else {
            lemma_fetch(chain, walk, i - 1, replies);
        }
    }
}

/// The walk begins by telling the host of the hash of the safe head, and asks the oracle for the
/// header with that hash.
pub proof fn law_walk_begins_at_the_safe_head<X>(
    config: RollupConfig,
    chain_id: Option<u64>,
    safe_head: Seq<u8>,
    block_number: u64,
)
    ensures
        ({
            let (walk, first) = WalkView::start::<X>(config, chain_id, safe_head, block_number);
            let sent = ProviderEventView::<X>::HintSent(Ok(()));
            let (reading, second) = walk.next(sent);
            &&& first == ProviderActionView::<HeaderView, X>::SendHint(
                hint_with(HintType::L2BlockHeader, safe_head, chain_id),
            )
            &&& walk.accepts(sent)
            &&& second == ProviderActionView::<HeaderView, X>::GetPreimage(safe_head)
            &&& walk.block_number == block_number && reading.block_number == block_number
            &&& walk.config == config && reading.config == config
            &&& walk.chain_id == chain_id && reading.chain_id == chain_id
            &&& walk.at_head && reading.at_head
            &&& !walk.linear_fallback && !reading.linear_fallback
            &&& forall|reply: ProviderEventView<X>|
                #[trigger] reading.accepts(reply) <==> reply is Preimage
        }),
{
}

/// A header that has come is the result if its number is at most the one looked for, unless it is
/// that of the safe head and its number is less. From any other header the walk goes on: by the
/// history contract as of that header if Isthmus is active at it and the contract has not failed,
/// otherwise to its parent.
pub proof fn law_walk_goes_on_from_each_header<X>(walk: WalkView, bytes: Seq<u8>, header: HeaderView)
    requires
        walk.stage matches WalkStageView::Fetch(query) && query.stage is Preimage,
        decoded_header(bytes) == Ok::<HeaderView, alloy_rlp::Error>(header),
    ensures
        ({
            let (going, action) = walk.next(ProviderEventView::<X>::Preimage(Ok(bytes)));
            let past_head = walk.at_head && walk.block_number > header.number;
            &&& past_head ==> action == ProviderActionView::<HeaderView, X>::Done(
                Err(OracleProviderError::BlockNumberPastHead(walk.block_number, header.number)),
            )
            &&& !past_head && header.number <= walk.block_number ==> action == ProviderActionView::<
                HeaderView,
                X,
            >::Done(Ok(header))
            &&& header.number > walk.block_number ==> if walk.config.active(
                isthmus(),
                header.timestamp,
            ) && !walk.linear_fallback {
                &&& action == (ProviderActionView::<HeaderView, X>::HistoryLookup {
                    header,
                    block_number: walk.block_number,
                })
                &&& going.stage == (WalkStageView::Lookup { header })
            } else {
                &&& action == ProviderActionView::<HeaderView, X>::SendHint(
                    hint_with(HintType::L2BlockHeader, header.parent_hash, walk.chain_id),
                )
                &&& going.next(ProviderEventView::<X>::HintSent(Ok(()))).1 == ProviderActionView::<
                    HeaderView,
                    X,
                >::GetPreimage(header.parent_hash)
            }
            &&& action is Done <==> going.stage is Finished
            &&& !(action is Done) ==> !going.at_head
            &&& going.block_number == walk.block_number
            &&& going.config == walk.config
            &&& going.chain_id == walk.chain_id
            &&& going.linear_fallback == walk.linear_fallback
        }),
{
}

/// What the history contract gives is fetched next. If it fails, the walk goes on to the parent of
/// the header that it was consulted from.
pub proof fn law_walk_follows_the_history<X>(
    walk: WalkView,
    header: HeaderView,
    hash: Seq<u8>,
    error: X,
)
    requires
        walk.stage == (WalkStageView::Lookup { header }),
        header.number > walk.block_number,
    ensures
        walk.next(ProviderEventView::<X>::History(Ok(hash))).1 == ProviderActionView::<
            HeaderView,
            X,
        >::SendHint(hint_with(HintType::L2BlockHeader, hash, walk.chain_id)),
        walk.next(ProviderEventView::<X>::History(Ok(hash))).0.next(
            ProviderEventView::<X>::HintSent(Ok(())),
        ).1 == ProviderActionView::<HeaderView, X>::GetPreimage(hash),
        walk.next(ProviderEventView::<X>::History(Err(error))).1 == ProviderActionView::<
            HeaderView,
            X,
        >::SendHint(hint_with(HintType::L2BlockHeader, header.parent_hash, walk.chain_id)),
        walk.next(ProviderEventView::<X>::History(Err(error))).0.next(
            ProviderEventView::<X>::HintSent(Ok(())),
        ).1 == ProviderActionView::<HeaderView, X>::GetPreimage(header.parent_hash),
        walk.next(ProviderEventView::<X>::History(Err(error))).0.linear_fallback,
        walk.next(ProviderEventView::<X>::History(Ok(hash))).0.linear_fallback
            == walk.linear_fallback,
{
}

/// The walk ends with the error of the oracle if a hint or a preimage fails, and with that of the
/// decoder if a header does not decode.
pub proof fn law_walk_hands_errors_on<X>(
    walk: WalkView,
    query: PreimageQueryView,
    bytes: Seq<u8>,
    error: X,
)
    requires
        walk.stage == WalkStageView::Fetch(query),
    ensures
        query.stage is Hint ==> walk.next(ProviderEventView::<X>::HintSent(Err(error))).1
            == ProviderActionView::<HeaderView, X>::Done(Err(OracleProviderError::Preimage(error))),
        query.stage is Preimage ==> walk.next(ProviderEventView::<X>::Preimage(Err(error))).1
            == ProviderActionView::<HeaderView, X>::Done(Err(OracleProviderError::Preimage(error))),
        query.stage is Preimage ==> (decoded_header(bytes) matches Err(e) ==> walk.next(
            ProviderEventView::<X>::Preimage(Ok(bytes)),
        ).1 == ProviderActionView::<HeaderView, X>::Done(Err(OracleProviderError::Rlp(e)))),
{
}

/// The walk waits for what it has asked for, and for nothing once it is over.
pub proof fn law_walk_waits_for_what_it_asked<X>(walk: WalkView, event: ProviderEventView<X>)
    requires
        walk.accepts(event),
    ensures
        ({
            let (going, action) = walk.next(event);
            &&& action is SendHint ==> forall|reply: ProviderEventView<X>|
                #[trigger] going.accepts(reply) <==> reply is HintSent
            &&& action is GetPreimage ==> forall|reply: ProviderEventView<X>|
                #[trigger] going.accepts(reply) <==> reply is Preimage
            &&& action is HistoryLookup ==> forall|reply: ProviderEventView<X>|
                #[trigger] going.accepts(reply) <==> reply is History
            &&& action is Done ==> forall|reply: ProviderEventView<X>|
                !(#[trigger] going.accepts(reply))
            &&& !(action is WalkTrie)
        }),
{
}

/// No step changes what the walk looks for, and under which configuration and chain ID. The history
/// contract is given up only when it fails, and that is not taken back.
pub proof fn law_walk_keeps_what_it_looks_for<X>(walk: WalkView, event: ProviderEventView<X>)
    requires
        walk.accepts(event),
    ensures
        ({
            let (going, action) = walk.next(event);
            &&& going.block_number == walk.block_number
            &&& going.config == walk.config
            &&& going.chain_id == walk.chain_id
            &&& going.linear_fallback <==> (walk.linear_fallback || (event is History
                && event->History_0 is Err))
            &&& event is HintSent ==> going.at_head == walk.at_head
            &&& event is History ==> going.at_head == walk.at_head
        }),
{
}

} // verus!
