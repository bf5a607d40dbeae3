//! Where the derivation starts from.
//!
//! The starting point is found in a sequence of steps. Each step hands out one [`SyncAction`] that
//! the caller performs with the chain providers, and takes back the [`SyncEvent`] that came of it.

use crate::config::{granite, RollupConfig};
use crate::driver::{TipCursor, TipView};
use crate::header::{SealedHeader, SealedView};
use crate::primitives::{BlockInfo, L2BlockInfo, ZERO_HASH};
use vstd::prelude::*;

verus! {

/// What a pipeline cursor is made from: it is created with the channel timeout at the origin, and
/// then advanced to the tip at that origin.
#[derive(Clone, Debug, PartialEq, Eq)]
pub struct CursorStart {
    pub channel_timeout: u64,
    pub origin: BlockInfo,
    pub tip: TipCursor,
}

/// The contents of a [`CursorStart`].
#[verifier::ext_equal]
pub struct CursorStartView {
    pub channel_timeout: u64,
    pub origin: BlockInfo,
    pub tip: TipView,
}

impl View for CursorStart {
    type V = CursorStartView;

    open spec fn view(&self) -> CursorStartView {
        CursorStartView {
            channel_timeout: self.channel_timeout,
            origin: self.origin,
            tip: self.tip@,
        }
    }
}

/// What the search asks its caller to do next.
#[derive(Debug, PartialEq, Eq)]
pub enum SyncAction<X> {
    /// Fetch the information of the L2 block with this number.
    FetchL2(u64),
    /// Fetch the information of the L1 block with this number.
    FetchL1(u64),
    /// The search is over.
    Done(Result<CursorStart, X>),
}

/// The contents of a [`SyncAction`].
#[verifier::ext_equal]
pub enum SyncActionView<X> {
    FetchL2(u64),
    FetchL1(u64),
    Done(Result<CursorStartView, X>),
}

impl<X> View for SyncAction<X> {
    type V = SyncActionView<X>;

    open spec fn view(&self) -> SyncActionView<X> {
        match *self {
            SyncAction::FetchL2(number) => SyncActionView::FetchL2(number),
            SyncAction::FetchL1(number) => SyncActionView::FetchL1(number),
            SyncAction::Done(Ok(start)) => SyncActionView::Done(Ok(start@)),
            SyncAction::Done(Err(e)) => SyncActionView::Done(Err(e)),
        }
    }
}

/// What came of the last action.
#[derive(Debug, PartialEq, Eq)]
pub enum SyncEvent<X> {
    L2(Result<L2BlockInfo, X>),
    L1(Result<BlockInfo, X>),
}

/// Where the search stands.
#[derive(Debug, PartialEq, Eq)]
pub enum SyncStage {
    /// Waits for the information of the safe head.
    SafeHead { header: SealedHeader },
    /// Waits for the L1 origin of the safe head.
    Origin { header: SealedHeader, head: L2BlockInfo },
    /// Waits for the L1 block that the derivation starts from.
    Start { header: SealedHeader, head: L2BlockInfo },
    /// The search is over.
    Finished,
}

/// The contents of a [`SyncStage`].
#[verifier::ext_equal]
pub enum SyncStageView {
    SafeHead { header: SealedView },
    Origin { header: SealedView, head: L2BlockInfo },
    Start { header: SealedView, head: L2BlockInfo },
    Finished,
}

impl View for SyncStage {
    type V = SyncStageView;

    open spec fn view(&self) -> SyncStageView {
        match *self {
            SyncStage::SafeHead { header } => SyncStageView::SafeHead { header: header@ },
            SyncStage::Origin { header, head } => SyncStageView::Origin { header: header@, head },
            SyncStage::Start { header, head } => SyncStageView::Start { header: header@, head },
            SyncStage::Finished => SyncStageView::Finished,
        }
    }
}

/// The number of the L1 block that the derivation starts from: the channel timeout before the L1
/// origin, so that the full channel is captured, but never before the genesis.
pub open spec fn start_number(config: RollupConfig, head: L2BlockInfo, l1_origin: BlockInfo) -> u64 {
    let timeout = config.channel_timeout_at(head.block_info.timestamp);
    let walked_back = l1_origin.number - timeout;
    if walked_back < config.genesis.l1.number {
        config.genesis.l1.number
    } else {
        walked_back as u64
    }
}

/// The tip that the cursor starts at: the safe head, with an output root that is not known yet.
pub open spec fn first_tip(header: SealedView, head: L2BlockInfo) -> TipView {
    TipView { head, header, output_root: ZERO_HASH }
}

/// A stage of the search together with the action that it hands out.
pub type SyncTurn<X> = (SyncStageView, SyncActionView<X>);

impl SyncStageView {
    /// The beginning of the search: the information of the safe head is fetched.
    pub open spec fn start<X>(header: SealedView) -> SyncTurn<X> {
        (SyncStageView::SafeHead { header }, SyncActionView::FetchL2(header.header.number))
    }

    /// Whether the search waits for this event.
    pub open spec fn accepts<X>(self, event: SyncEvent<X>) -> bool {
        match self {
            SyncStageView::SafeHead { .. } => event is L2,
            SyncStageView::Origin { .. } => event is L1,
            SyncStageView::Start { .. } => event is L1,
            SyncStageView::Finished => false,
        }
    }

    /// The step of a search that is told what came of its last action. Any failure ends the search.
    pub open spec fn next<X>(self, config: RollupConfig, event: SyncEvent<X>) -> SyncTurn<X> {
        match (self, event) {
            (SyncStageView::SafeHead { header }, SyncEvent::L2(Ok(head))) => (
                SyncStageView::Origin { header, head },
                SyncActionView::FetchL1(head.l1_origin.number),
            ),
            (SyncStageView::Origin { header, head }, SyncEvent::L1(Ok(l1_origin))) => (
                SyncStageView::Start { header, head },
                SyncActionView::FetchL1(start_number(config, head, l1_origin)),
            ),
            (SyncStageView::Start { header, head }, SyncEvent::L1(Ok(origin))) => (
                SyncStageView::Finished,
                SyncActionView::Done(
                    Ok(
                        CursorStartView {
                            channel_timeout: config.channel_timeout_at(head.block_info.timestamp),
                            origin,
                            tip: first_tip(header, head),
                        },
                    ),
                ),
            ),
            (_, SyncEvent::L2(Err(e))) => (
                SyncStageView::Finished,
                SyncActionView::Done(Err(e)),
            ),
            (_, SyncEvent::L1(Err(e))) => (
                SyncStageView::Finished,
                SyncActionView::Done(Err(e)),
            ),
            _ => vstd::pervasive::arbitrary(),
        }
    }
}

/// Begins to search for the starting point of the derivation on top of the safe head.
pub fn new_oracle_pipeline_cursor<X>(safe_header: SealedHeader) -> (r: (SyncStage, SyncAction<X>))
    ensures
        (r.0@, r.1@) == SyncStageView::start::<X>(safe_header@),
{
    let number: u64 = safe_header.header.number;
    (SyncStage::SafeHead { header: safe_header }, SyncAction::FetchL2(number))
}

/// The number of the L1 block that the derivation starts from.
pub fn l1_start_number(config: &RollupConfig, head: &L2BlockInfo, l1_origin: &BlockInfo) -> (r: u64)
    ensures
        r == start_number(*config, *head, *l1_origin),
{
    let timeout: u64 = config.channel_timeout(head.block_info.timestamp);
    let walked_back: u64 = if l1_origin.number < timeout {
        0
    } else {
        l1_origin.number - timeout
    };
    if walked_back < config.genesis.l1.number {
        config.genesis.l1.number
    } else {
        walked_back
    }
}

impl SyncStage {
    /// Takes what came of the last action and gives the next one.
    pub fn step<X>(&mut self, config: &RollupConfig, event: SyncEvent<X>) -> (action: SyncAction<X>)
        requires
            old(self)@.accepts(event),
        ensures
            (final(self)@, action@) == old(self)@.next(*config, event),
    {
        let mut stage = SyncStage::Finished;
        std::mem::swap(&mut stage, self);
        match (stage, event) {
            (SyncStage::SafeHead { header }, SyncEvent::L2(Ok(head))) => {
                *self = SyncStage::Origin { header, head };
                SyncAction::FetchL1(head.l1_origin.number)
            },
            (SyncStage::Origin { header, head }, SyncEvent::L1(Ok(l1_origin))) => {
                let number: u64 = l1_start_number(config, &head, &l1_origin);
                *self = SyncStage::Start { header, head };
                SyncAction::FetchL1(number)
            },
            (SyncStage::Start { header, head }, SyncEvent::L1(Ok(origin))) => {
                let channel_timeout: u64 = config.channel_timeout(head.block_info.timestamp);
                let tip = TipCursor::new(head, header, ZERO_HASH);
                SyncAction::Done(Ok(CursorStart { channel_timeout, origin, tip }))
            },
            (_, SyncEvent::L2(Err(e))) => SyncAction::Done(Err(e)),
            (_, SyncEvent::L1(Err(e))) => SyncAction::Done(Err(e)),
            _ => vstd::pervasive::unreached(),
        }
    }
}

/// The derivation starts at or after the L1 genesis, and, from an L1 origin that is not before the
/// genesis, at most the channel timeout before that origin: by the whole timeout unless that would
/// be before the genesis.
pub proof fn law_start_captures_the_channel(
    config: RollupConfig,
    head: L2BlockInfo,
    l1_origin: BlockInfo,
)
    requires
        l1_origin.number >= config.genesis.l1.number,
    ensures
        ({
            let start = start_number(config, head, l1_origin);
            let timeout = config.channel_timeout_at(head.block_info.timestamp);
            &&& config.genesis.l1.number <= start <= l1_origin.number
            &&& l1_origin.number - start <= timeout
            &&& start > config.genesis.l1.number ==> l1_origin.number - start == timeout
        }),
{
}

/// A search in which nothing fails asks for the safe head, for its L1 origin and for the L1 block to
/// start from, in this order, and its result holds what came of it.
pub proof fn law_search_starts_at_the_safe_head<X>(
    config: RollupConfig,
    header: SealedView,
    head: L2BlockInfo,
    l1_origin: BlockInfo,
    origin: BlockInfo,
)
    ensures
        ({
            let (s1, first) = SyncStageView::start::<X>(header);
            let (s2, second) = s1.next(config, SyncEvent::<X>::L2(Ok(head)));
            let (s3, third) = s2.next(config, SyncEvent::<X>::L1(Ok(l1_origin)));
            let (_, done) = s3.next(config, SyncEvent::<X>::L1(Ok(origin)));
            &&& first == SyncActionView::<X>::FetchL2(header.header.number)
            &&& second == SyncActionView::<X>::FetchL1(head.l1_origin.number)
            &&& third == SyncActionView::<X>::FetchL1(start_number(config, head, l1_origin))
            &&& done == SyncActionView::<X>::Done(
                Ok(
                    CursorStartView {
                        channel_timeout: config.channel_timeout_at(head.block_info.timestamp),
                        origin,
                        tip: first_tip(header, head),
                    },
                ),
            )
        }),
{
}

/// The derivation starts at the later of two L1 blocks: the genesis, and the block that lies the
/// channel timeout before the L1 origin. The timeout is that of the safe head's timestamp.
pub proof fn law_start_is_the_later_block(
    config: RollupConfig,
    head: L2BlockInfo,
    l1_origin: BlockInfo,
)
    ensures
        ({
            let start = start_number(config, head, l1_origin);
            let time = head.block_info.timestamp;
            let timeout = if config.active(granite(), time) {
                config.granite_channel_timeout
            } else {
                config.channel_timeout
            };
            &&& start >= config.genesis.l1.number
            &&& start >= l1_origin.number - timeout
            &&& start == config.genesis.l1.number || start == l1_origin.number - timeout
        }),
{
}

/// The cursor starts with the channel timeout of the safe head's timestamp and at the L1 block that
/// was found, and its tip is the safe head with the header that the search began with. The output
/// root of the tip is not known yet: all of its bytes are zero.
pub proof fn law_cursor_starts_on_the_safe_head<X>(
    config: RollupConfig,
    header: SealedView,
    head: L2BlockInfo,
    origin: BlockInfo,
)
    ensures
        ({
            let found = SyncStageView::Start { header, head };
            let (done, action) = found.next(config, SyncEvent::<X>::L1(Ok(origin)));
            let time = head.block_info.timestamp;
            &&& action matches SyncActionView::Done(Ok(start))
            &&& config.active(granite(), time) ==> start.channel_timeout
                == config.granite_channel_timeout
            &&& !config.active(granite(), time) ==> start.channel_timeout == config.channel_timeout
            &&& start.origin == origin
            &&& start.tip.head == head
            &&& start.tip.header == header
            &&& forall|i: int| 0 <= i < 32 ==> #[trigger] start.tip.output_root@[i] == 0
            &&& done is Finished
        }),
{
}

/// Whatever fails first is the result of the search.
pub proof fn law_search_ends_with_the_first_error<X>(
    stage: SyncStageView,
    config: RollupConfig,
    error: X,
)
    ensures
        stage is SafeHead ==> stage.accepts(SyncEvent::L2(Err(error))) && stage.next(
            config,
            SyncEvent::L2(Err(error)),
        ) == (SyncStageView::Finished, SyncActionView::<X>::Done(Err(error))),
        stage is Origin || stage is Start ==> stage.accepts(SyncEvent::L1(Err(error))) && stage.next(
            config,
            SyncEvent::L1(Err(error)),
        ) == (SyncStageView::Finished, SyncActionView::<X>::Done(Err(error))),
{
}

/// The search waits for what it has asked for, and for nothing once it is over.
pub proof fn law_search_waits_for_what_it_asked<X>(
    stage: SyncStageView,
    config: RollupConfig,
    event: SyncEvent<X>,
    header: SealedView,
)
    requires
        stage.accepts(event),
    ensures
        forall|reply: SyncEvent<X>|
            #[trigger] SyncStageView::start::<X>(header).0.accepts(reply) <==> reply is L2,
        ({
            let (next, action) = stage.next(config, event);
            &&& action is FetchL2 ==> forall|reply: SyncEvent<X>|
                #[trigger] next.accepts(reply) <==> reply is L2
            &&& action is FetchL1 ==> forall|reply: SyncEvent<X>|
                #[trigger] next.accepts(reply) <==> reply is L1
            &&& action is Done ==> forall|reply: SyncEvent<X>| !(#[trigger] next.accepts(reply))
        }),
{
}

/// The contents of an action are what it holds, as it is.
pub proof fn law_contents_of_actions<X>(action: SyncAction<X>, number: u64, error: X)
    ensures
        action == SyncAction::<X>::FetchL2(number) ==> action@ == SyncActionView::<X>::FetchL2(number),
        action == SyncAction::<X>::FetchL1(number) ==> action@ == SyncActionView::<X>::FetchL1(number),
        action == SyncAction::<X>::Done(Err(error)) ==> action@ == SyncActionView::<X>::Done(
            Err(error),
        ),
        action matches SyncAction::Done(Ok(start)) ==> {
            &&& action@ matches SyncActionView::Done(Ok(view))
            &&& view.channel_timeout == start.channel_timeout
            &&& view.origin == start.origin
            &&& view.tip.head == start.tip.l2_safe_head
            &&& view.tip.header == start.tip.l2_safe_head_header@
            &&& view.tip.output_root == start.tip.l2_safe_head_output_root
        },
{
}

} // verus!
