//! What holds of the runs of the driver.

use crate::config::{holocene, interop, RollupConfig};
use crate::driver::{
    Action, ActionView, Driver, DriverView, Event, EventView, OutcomeView, StageView, TipView,
};
use crate::errors::{DriverError, PipelineError, PipelineErrorKind};
use crate::primitives::{bytes_of, BlockInfo, L2BlockInfo, B256};
use crate::transaction::{
    collect, decoded_tx, law_collect, law_each_transaction_is_decoded_in_its_form,
    law_stripped_transactions_start_with_the_deposit_type, network_outcomes, AttributesView, BlockView,
};
use op_alloy_consensus::OpTxEnvelope;
use vstd::prelude::*;

verus! {

impl<R> DriverView<R> {
    /// Whether a block is being derived only on a tip below the target.
    pub open spec fn below_target(self) -> bool {
        self.target matches Some(n) ==> match self.stage {
            StageView::Payload { tip } => tip.number() < n,
            StageView::Execution { tip, .. } => tip.number() < n,
            StageView::Flush { tip, .. } => tip.number() < n,
            _ => true,
        }
    }

    /// The state after a sequence of events.
    pub open spec fn after<X, E, F>(
        self,
        config: RollupConfig,
        events: Seq<EventView<R, X, E, F>>,
    ) -> DriverView<R>
        decreases events.len(),
    {
        if events.len() == 0 {
            self
        } else {
            self.after(config, events.drop_last()).next(config, events.last()).0
        }
    }

    /// Whether each of a sequence of events is one that the driver waits for when it comes.
    pub open spec fn accepts_all<X, E, F>(
        self,
        config: RollupConfig,
        events: Seq<EventView<R, X, E, F>>,
    ) -> bool
        decreases events.len(),
    {
        events.len() == 0 || {
            &&& self.accepts_all(config, events.drop_last())
            &&& self.after(config, events.drop_last()).accepts(events.last())
        }
    }
}

/// Whether the event says that the L1 data is exhausted.
pub open spec fn is_end_of_source<R, X, E, F>(event: EventView<R, X, E, F>) -> bool {
    event == EventView::<R, X, E, F>::Payload(
        Err(PipelineErrorKind::Critical(PipelineError::EndOfSource)),
    )
}

/// A run succeeds only on a tip at or past its target, and its result is that tip.
pub proof fn law_success_is_a_tip_at_the_target<R, X, E, F>(
    driver: DriverView<R>,
    config: RollupConfig,
    event: EventView<R, X, E, F>,
    head: L2BlockInfo,
    root: B256,
)
    requires
        driver.accepts(event),
        driver.next(config, event).1 == ActionView::<X, E, F>::Finish(Ok((head, root))),
    ensures
        event matches EventView::Tip(tip) && tip.head == head && tip.output_root == root,
        driver.target matches Some(n) && head.block_info.number >= n,
{
}

/// A tip at or past the target always ends the run with success.
pub proof fn law_tip_at_the_target_succeeds<R, X, E, F>(
    driver: DriverView<R>,
    config: RollupConfig,
    tip: TipView,
    n: u64,
)
    requires
        driver.stage is Tip,
        driver.target == Some(n),
        tip.number() >= n,
    ensures
        driver.next::<X, E, F>(config, EventView::Tip(tip)).1 == ActionView::<X, E, F>::Finish(
            Ok((tip.head, tip.output_root)),
        ),
{
}

/// Every step keeps deriving below the target, and the target changes only when the L1 data is
/// exhausted: then it is the tip, which is below the target before.
pub proof fn law_target_is_only_lowered<R, X, E, F>(
    driver: DriverView<R>,
    config: RollupConfig,
    event: EventView<R, X, E, F>,
)
    requires
        driver.accepts(event),
        driver.below_target(),
    ensures
        driver.next(config, event).0.below_target(),
        driver.next(config, event).0.target != driver.target ==> is_end_of_source(event)
            && driver.stage is Payload && driver.next(config, event).0.target == Some(
            driver.stage->Payload_tip.number(),
        ),
        driver.target matches Some(n) ==> driver.next(config, event).0.target matches Some(m) && m
            <= n,
{
}

/// A run in which the L1 data is never exhausted keeps its target, so that success means that the
/// safe head has reached it.
pub proof fn law_run_reaches_its_target<R, X, E, F>(
    driver: DriverView<R>,
    config: RollupConfig,
    events: Seq<EventView<R, X, E, F>>,
    last: EventView<R, X, E, F>,
    head: L2BlockInfo,
    root: B256,
)
    requires
        driver.accepts_all(config, events.push(last)),
        forall|i: int| 0 <= i < events.len() ==> !is_end_of_source(#[trigger] events[i]),
        driver.after(config, events).next(config, last).1 == ActionView::<X, E, F>::Finish(
            Ok((head, root)),
        ),
    ensures
        driver.target matches Some(n) && head.block_info.number >= n,
{
    assert(events.push(last).drop_last() =~= events);
    lemma_run_keeps_target(driver, config, events);
    law_success_is_a_tip_at_the_target(driver.after(config, events), config, last, head, root);
}

proof fn lemma_run_keeps_target<R, X, E, F>(
    driver: DriverView<R>,
    config: RollupConfig,
    events: Seq<EventView<R, X, E, F>>,
)
    requires
        driver.accepts_all(config, events),
        forall|i: int| 0 <= i < events.len() ==> !is_end_of_source(#[trigger] events[i]),
    ensures
        driver.after(config, events).target == driver.target,
    decreases events.len(),
{
    if events.len() > 0 {
        lemma_run_keeps_target(driver, config, events.drop_last());
        assert(!is_end_of_source(events[events.len() - 1]));
    }
}

/// When the L1 data is exhausted outside interop mode, the run halts gracefully: the tip is read
/// once more and is the result, whether or not there was a target.
pub proof fn law_exhausted_source_halts_with_the_tip<R, X, E, F>(
    driver: DriverView<R>,
    config: RollupConfig,
    tip: TipView,
)
    requires
        driver.stage == (StageView::<R>::Payload { tip }),
        !config.active(interop(), tip.number()),
    ensures
        ({
            let (halting, action) = driver.next::<X, E, F>(
                config,
                EventView::Payload(Err(PipelineErrorKind::Critical(PipelineError::EndOfSource))),
            );
            &&& action == ActionView::<X, E, F>::ReadTip
            &&& halting.next::<X, E, F>(config, EventView::Tip(tip)).1 == ActionView::<
                X,
                E,
                F,
            >::Finish(Ok((tip.head, tip.output_root)))
        }),
{
}

/// In interop mode the exhaustion of the L1 data is the caller's to handle: the run ends with it.
pub proof fn law_exhausted_source_is_an_error_in_interop<R, X, E, F>(
    driver: DriverView<R>,
    config: RollupConfig,
    tip: TipView,
)
    requires
        driver.stage == (StageView::<R>::Payload { tip }),
        config.active(interop(), tip.number()),
    ensures
        driver.next::<X, E, F>(
            config,
            EventView::Payload(Err(PipelineErrorKind::Critical(PipelineError::EndOfSource))),
        ).1 == ActionView::<X, E, F>::Finish(
            Err(DriverError::Pipeline(PipelineErrorKind::Critical(PipelineError::EndOfSource))),
        ),
{
}

/// A temporary error of the pipeline is retried: target and artifacts are as they were, the tip is
/// read, and the next payload is asked for on it unless it has reached the target.
pub proof fn law_temporary_error_is_retried<R, X, E, F>(
    driver: DriverView<R>,
    config: RollupConfig,
    error: PipelineError<X>,
    tip: TipView,
)
    requires
        driver.stage is Payload,
        driver.target matches Some(n) ==> tip.number() < n,
    ensures
        ({
            let (retrying, action) = driver.next::<X, E, F>(
                config,
                EventView::Payload(Err(PipelineErrorKind::Temporary(error))),
            );
            &&& action == ActionView::<X, E, F>::ReadTip
            &&& retrying == driver.at(StageView::Tip)
            &&& retrying.next::<X, E, F>(config, EventView::Tip(tip)).1 == ActionView::<
                X,
                E,
                F,
            >::ProducePayload(tip.head)
        }),
{
}

/// An error that asks for a reset has the pipeline reset to the tip, and then the derivation goes
/// on: target and artifacts are as they were, the tip is read, and the next payload is asked for on
/// it unless it has reached the target. If the reset fails, the run ends with its error.
pub proof fn law_derivation_goes_on_after_a_reset<R, X, E, F>(
    driver: DriverView<R>,
    config: RollupConfig,
    before: TipView,
    error: X,
    tip: TipView,
    failure: PipelineErrorKind<X>,
)
    requires
        driver.stage == (StageView::<R>::Payload { tip: before }),
        driver.target matches Some(n) ==> tip.number() < n,
    ensures
        ({
            let (resetting, reset) = driver.next::<X, E, F>(
                config,
                EventView::Payload(Err(PipelineErrorKind::Reset(error))),
            );
            let (going, read) = resetting.next::<X, E, F>(config, EventView::PipelineReset(Ok(())));
            &&& reset == ActionView::<X, E, F>::ResetPipeline(before.head)
            &&& read == ActionView::<X, E, F>::ReadTip
            &&& going == driver.at(StageView::Tip)
            &&& going.next::<X, E, F>(config, EventView::Tip(tip)).1 == ActionView::<
                X,
                E,
                F,
            >::ProducePayload(tip.head)
            &&& resetting.next::<X, E, F>(config, EventView::PipelineReset(Err(failure))).1
                == ActionView::<X, E, F>::Finish(Err(DriverError::Pipeline(failure)))
        }),
{
}

/// An error in producing a payload ends the run only if it is critical.
pub proof fn law_only_critical_payload_errors_end_the_run<R, X, E, F>(
    driver: DriverView<R>,
    config: RollupConfig,
    error: PipelineErrorKind<X>,
)
    requires
        driver.stage is Payload,
        driver.next::<X, E, F>(config, EventView::Payload(Err(error))).1 is Finish,
    ensures
        error is Critical,
        driver.next::<X, E, F>(config, EventView::Payload(Err(error))).1 == ActionView::<
            X,
            E,
            F,
        >::Finish(Err(DriverError::Pipeline(error))),
{
}

/// Before Holocene a payload that fails leaves no trace: the run is back at its top with the same
/// target and the same artifacts.
pub proof fn law_failed_payload_is_discarded<R, X, E, F>(
    driver: DriverView<R>,
    config: RollupConfig,
    tip: TipView,
    attributes: AttributesView,
    error: E,
)
    requires
        driver.stage == (StageView::<R>::Execution { tip, attributes, deposits_only: false }),
        !config.active(holocene(), attributes.timestamp),
    ensures
        driver.next::<X, E, F>(config, EventView::Executed(Err(error))) == (
            driver.at(StageView::Tip),
            ActionView::<X, E, F>::ReadTip,
        ),
{
}

/// From Holocene on a payload that fails has its channel flushed and is executed once more on the
/// same tip, the same but for its transactions, of which only the deposits are left. If that fails
/// too, the run ends with the error of the second attempt.
pub proof fn law_failed_payload_is_retried_once_with_deposits<R, X, E, F>(
    driver: DriverView<R>,
    config: RollupConfig,
    tip: TipView,
    attributes: AttributesView,
    first: E,
    second: E,
)
    requires
        driver.stage == (StageView::<R>::Execution { tip, attributes, deposits_only: false }),
        config.active(holocene(), attributes.timestamp),
    ensures
        ({
            let (flushing, flush) = driver.next::<X, E, F>(config, EventView::Executed(Err(first)));
            let (retrying, retry) = flushing.next::<X, E, F>(config, EventView::Flushed(Ok(())));
            &&& flush == ActionView::<X, E, F>::FlushChannel
            &&& retry == (ActionView::<X, E, F>::Execute {
                safe_head: tip.header,
                attributes: attributes.deposits_only(),
            })
            &&& retrying.next::<X, E, F>(config, EventView::Executed(Err(second))).1
                == ActionView::<X, E, F>::Finish(Err(DriverError::Executor(second)))
        }),
{
}

/// A payload that executes, and whose transactions decode, advances the cursor: the pipeline's
/// origin, and a tip made of the block's information, of its header as executed and of the output
/// root. Once that is done, its outcome and its transactions are the artifacts.
pub proof fn law_executed_payload_advances_the_cursor<R, X, E, F>(
    driver: DriverView<R>,
    config: RollupConfig,
    tip: TipView,
    attributes: AttributesView,
    deposits_only: bool,
    outcome: OutcomeView<R>,
    origin: BlockInfo,
    info: L2BlockInfo,
    output_root: B256,
)
    requires
        driver.stage == (StageView::<R>::Execution { tip, attributes, deposits_only }),
        collect(network_outcomes(attributes.tx_list())) is Ok,
    ensures
        ({
            let (s1, read_origin) = driver.next::<X, E, F>(config, EventView::Executed(Ok(outcome)));
            let (s2, derive) = s1.next::<X, E, F>(config, EventView::Origin(Some(origin)));
            let (s3, compute) = s2.next::<X, E, F>(config, EventView::BlockInfoRead(Ok(info)));
            let (s4, advance) = s3.next::<X, E, F>(config, EventView::OutputRoot(Ok(output_root)));
            let (s5, top) = s4.next::<X, E, F>(config, EventView::Advanced);
            &&& read_origin == ActionView::<X, E, F>::ReadOrigin
            &&& derive == ActionView::<X, E, F>::DeriveBlockInfo(
                BlockView {
                    header: outcome.header.header,
                    transactions: collect(network_outcomes(attributes.tx_list()))->Ok_0,
                    withdrawals: None,
                },
            )
            &&& compute == ActionView::<X, E, F>::ComputeOutputRoot
            &&& advance == (ActionView::<X, E, F>::AdvanceCursor {
                origin,
                tip: TipView { head: info, header: outcome.header, output_root },
            })
            &&& top == ActionView::<X, E, F>::ReadTip
            &&& s5 == (DriverView {
                target: driver.target,
                stage: StageView::Tip,
                artifacts: Some((outcome, attributes.tx_list())),
            })
        }),
{
}

/// A payload is asked for the tip and executed, as it came, on the header of the tip.
pub proof fn law_payload_is_executed_on_the_tip<R, X, E, F>(
    driver: DriverView<R>,
    config: RollupConfig,
    tip: TipView,
    attributes: AttributesView,
)
    requires
        driver.stage is Tip,
        driver.target matches Some(n) ==> tip.number() < n,
    ensures
        ({
            let (deriving, first) = driver.next::<X, E, F>(config, EventView::Tip(tip));
            let (_, second) = deriving.next::<X, E, F>(config, EventView::Payload(Ok(attributes)));
            &&& first == ActionView::<X, E, F>::ProducePayload(tip.head)
            &&& second == (ActionView::<X, E, F>::Execute { safe_head: tip.header, attributes })
        }),
{
}

/// The artifacts change only when the cursor has advanced.
pub proof fn law_artifacts_change_only_with_the_cursor<R, X, E, F>(
    driver: DriverView<R>,
    config: RollupConfig,
    event: EventView<R, X, E, F>,
)
    requires
        driver.accepts(event),
    ensures
        driver.next(config, event).0.artifacts != driver.artifacts ==> driver.stage is Advance
            && event is Advanced,
{
}

/// What the collaborators of the driver give for one block, when nothing fails.
#[verifier::ext_equal]
pub struct Round<R> {
    pub attributes: AttributesView,
    pub outcome: OutcomeView<R>,
    pub origin: BlockInfo,
    pub info: L2BlockInfo,
    pub output_root: B256,
}

impl<R> Round<R> {
    /// The tip after the round.
    pub open spec fn tip(self) -> TipView {
        TipView { head: self.info, header: self.outcome.header, output_root: self.output_root }
    }

    /// The events of the round, on top of a tip.
    pub open spec fn events<X, E, F>(self, tip: TipView) -> Seq<EventView<R, X, E, F>> {
        seq![
            EventView::Tip(tip),
            EventView::Payload(Ok(self.attributes)),
            EventView::Executed(Ok(self.outcome)),
            EventView::Origin(Some(self.origin)),
            EventView::BlockInfoRead(Ok(self.info)),
            EventView::OutputRoot(Ok(self.output_root)),
            EventView::Advanced,
        ]
    }
}

impl<R> DriverView<R> {
    /// The driver and the tip after a sequence of rounds that begins on top of a tip.
    pub open spec fn derive<X, E, F>(self, config: RollupConfig, tip: TipView, rounds: Seq<Round<R>>) -> (
        DriverView<R>,
        TipView,
    )
        decreases rounds.len(),
    {
        if rounds.len() == 0 {
            (self, tip)
        } else {
            let (driver, last) = self.derive::<X, E, F>(config, tip, rounds.drop_last());
            (
                driver.after(config, rounds.last().events::<X, E, F>(last)),
                rounds.last().tip(),
            )
        }
    }
}

/// If the rounds succeed, each of them one block past the one before it, then a run succeeds as
/// soon as they have reached the target: with the tip at that very block. Its artifacts are those
/// of the last round.
pub proof fn law_successful_rounds_reach_the_target<R, X, E, F>(
    driver: DriverView<R>,
    config: RollupConfig,
    tip: TipView,
    rounds: Seq<Round<R>>,
    n: u64,
)
    requires
        driver.stage is Tip,
        driver.target == Some(n),
        tip.number() + rounds.len() == n,
        forall|i: int|
            0 <= i < rounds.len() ==> (#[trigger] rounds[i]).tip().number() == tip.number() + i + 1,
        forall|i: int|
            0 <= i < rounds.len() ==> collect(
                network_outcomes((#[trigger] rounds[i]).attributes.tx_list()),
            ) is Ok,
    ensures
        ({
            let (reached, last) = driver.derive::<X, E, F>(config, tip, rounds);
            &&& last.number() == n
            &&& last == (if rounds.len() == 0 {
                tip
            } else {
                rounds.last().tip()
            })
            &&& reached.next::<X, E, F>(config, EventView::Tip(last)).1 == ActionView::<
                X,
                E,
                F,
            >::Finish(Ok((last.head, last.output_root)))
            &&& reached.artifacts == (if rounds.len() == 0 {
                driver.artifacts
            } else {
                Some((rounds.last().outcome, rounds.last().attributes.tx_list()))
            })
        }),
{
    lemma_rounds::<R, X, E, F>(driver, config, tip, rounds, n);
    if rounds.len() > 0 {
        assert(rounds[rounds.len() - 1] == rounds.last());
    }
}

proof fn lemma_rounds<R, X, E, F>(
    driver: DriverView<R>,
    config: RollupConfig,
    tip: TipView,
    rounds: Seq<Round<R>>,
    n: u64,
)
    requires
        driver.stage is Tip,
        driver.target == Some(n),
        tip.number() + rounds.len() <= n,
        forall|i: int|
            0 <= i < rounds.len() ==> (#[trigger] rounds[i]).tip().number() == tip.number() + i + 1,
        forall|i: int|
            0 <= i < rounds.len() ==> collect(
                network_outcomes((#[trigger] rounds[i]).attributes.tx_list()),
            ) is Ok,
    ensures
        ({
            let (reached, last) = driver.derive::<X, E, F>(config, tip, rounds);
            &&& last == (if rounds.len() == 0 {
                tip
            } else {
                rounds.last().tip()
            })
            &&& last.number() == tip.number() + rounds.len()
            &&& reached == (if rounds.len() == 0 {
                driver
            } else {
                DriverView {
                    target: Some(n),
                    stage: StageView::Tip,
                    artifacts: Some((rounds.last().outcome, rounds.last().attributes.tx_list())),
                }
            })
        }),
    decreases rounds.len(),
{
    if rounds.len() > 0 {
        let shorter = rounds.drop_last();
        assert forall|i: int| 0 <= i < shorter.len() implies shorter[i] == #[trigger] rounds[i] by {}
        lemma_rounds::<R, X, E, F>(driver, config, tip, shorter, n);
        assert(rounds[rounds.len() - 1] == rounds.last());
        let (before, last) = driver.derive::<X, E, F>(config, tip, shorter);
        lemma_round::<R, X, E, F>(before, config, last, rounds.last());
    }
}

proof fn lemma_round<R, X, E, F>(
    driver: DriverView<R>,
    config: RollupConfig,
    tip: TipView,
    round: Round<R>,
)
    requires
        driver.stage is Tip,
        driver.target matches Some(n) ==> tip.number() < n,
        collect(network_outcomes(round.attributes.tx_list())) is Ok,
    ensures
        driver.after(config, round.events::<X, E, F>(tip)) == (DriverView {
            target: driver.target,
            stage: StageView::Tip,
            artifacts: Some((round.outcome, round.attributes.tx_list())),
        }),
{
    let events = round.events::<X, E, F>(tip);
    assert(events.drop_last() =~= events.take(6));
    assert(events.take(6).drop_last() =~= events.take(5));
    assert(events.take(5).drop_last() =~= events.take(4));
    assert(events.take(4).drop_last() =~= events.take(3));
    assert(events.take(3).drop_last() =~= events.take(2));
    assert(events.take(2).drop_last() =~= events.take(1));
    assert(events.take(1).drop_last() =~= events.take(0));
    reveal_with_fuel(DriverView::after, 8);
}

/// A tip is judged by the number of its block: at or past the target it is the result, below the
/// target, or without one, the payload after it is asked for.
pub proof fn law_tip_is_judged_by_its_number<R, X, E, F>(
    driver: DriverView<R>,
    config: RollupConfig,
    tip: TipView,
)
    requires
        driver.stage is Tip,
    ensures
        ({
            let (next, action) = driver.next::<X, E, F>(config, EventView::Tip(tip));
            let number = tip.head.block_info.number;
            let reached = driver.target matches Some(n) && number >= n;
            &&& reached ==> action == ActionView::<X, E, F>::Finish(Ok((tip.head, tip.output_root)))
            &&& reached ==> next.stage is Idle
            &&& !reached ==> action == ActionView::<X, E, F>::ProducePayload(tip.head)
            &&& !reached ==> next.stage == (StageView::<R>::Payload { tip })
            &&& next.target == driver.target
        }),
{
}

/// When the L1 data is exhausted, the number of the tip is the target. Whether interop is active is
/// asked for that number: if it is, the run ends with the error, otherwise the tip is read again.
pub proof fn law_exhausted_source_makes_the_tip_the_target<R, X, E, F>(
    driver: DriverView<R>,
    config: RollupConfig,
    tip: TipView,
)
    requires
        driver.stage == (StageView::<R>::Payload { tip }),
    ensures
        ({
            let exhausted = PipelineErrorKind::Critical(PipelineError::EndOfSource);
            let (next, action) = driver.next::<X, E, F>(config, EventView::Payload(Err(exhausted)));
            let number = tip.head.block_info.number;
            &&& next.target == Some(number)
            &&& config.active(interop(), number) ==> next.stage is Idle && action == ActionView::<
                X,
                E,
                F,
            >::Finish(Err(DriverError::Pipeline(exhausted)))
            &&& !config.active(interop(), number) ==> next.stage is Tip && action == ActionView::<
                X,
                E,
                F,
            >::ReadTip
        }),
{
}

/// The second attempt of a payload that failed from Holocene on is made with what is left of the
/// transactions that start with 0x7E, in their order; everything else in the attributes is as in the
/// first attempt.
pub proof fn law_second_attempt_holds_deposits_only<R, X, E, F>(
    driver: DriverView<R>,
    config: RollupConfig,
    tip: TipView,
    attributes: AttributesView,
    txs: Seq<Seq<u8>>,
    error: E,
)
    requires
        driver.stage == (StageView::<R>::Execution { tip, attributes, deposits_only: false }),
        config.active(holocene(), attributes.timestamp),
        attributes.transactions == Some(txs),
    ensures
        ({
            let (flushing, _) = driver.next::<X, E, F>(config, EventView::Executed(Err(error)));
            let (retrying, retry) = flushing.next::<X, E, F>(config, EventView::Flushed(Ok(())));
            &&& retry matches ActionView::Execute { safe_head, attributes: stripped }
            &&& safe_head == tip.header
            &&& stripped == (AttributesView { transactions: stripped.transactions, ..attributes })
            &&& stripped.transactions matches Some(kept)
            &&& forall|i: int|
                0 <= i < kept.len() ==> (#[trigger] kept[i]).len() > 0 && kept[i][0] == 0x7E
                    && txs.contains(kept[i])
            &&& forall|i: int|
                0 <= i < txs.len() && (#[trigger] txs[i]).len() > 0 && txs[i][0] == 0x7E
                    ==> kept.contains(txs[i])
            &&& retrying.target == driver.target
            &&& retrying.artifacts == driver.artifacts
        }),
{
    law_stripped_transactions_start_with_the_deposit_type(txs);
}

/// An executed payload whose transactions do not all decode ends the run with the error of the
/// first that does not; nothing of it becomes the artifacts.
pub proof fn law_undecodable_transaction_ends_the_run<R, X, E, F>(
    driver: DriverView<R>,
    config: RollupConfig,
    tip: TipView,
    attributes: AttributesView,
    deposits_only: bool,
    outcome: OutcomeView<R>,
    txs: Seq<Seq<u8>>,
    broken: int,
    error: alloy_rlp::Error,
)
    requires
        driver.stage == (StageView::<R>::Execution { tip, attributes, deposits_only }),
        attributes.transactions == Some(txs),
        0 <= broken < txs.len(),
        forall|i: int| 0 <= i < broken ==> decoded_tx(#[trigger] txs[i]) is Ok,
        decoded_tx(txs[broken]) == Err::<OpTxEnvelope, _>(error),
    ensures
        ({
            let (next, action) = driver.next::<X, E, F>(config, EventView::Executed(Ok(outcome)));
            &&& action == ActionView::<X, E, F>::Finish(Err(DriverError::Rlp(error)))
            &&& next.stage is Idle
            &&& next.artifacts == driver.artifacts
        }),
{
    let outcomes = network_outcomes(txs);
    law_each_transaction_is_decoded_in_its_form(txs);
    law_collect(outcomes);
    assert(!(outcomes[broken] is Ok));
    let e = collect(outcomes)->Err_0;
    let i = choose|i: int|
        0 <= i < outcomes.len() && (#[trigger] outcomes[i]) == Err::<OpTxEnvelope, _>(e)
            && forall|j: int| 0 <= j < i ==> (#[trigger] outcomes[j]) is Ok;
    if i < broken {
        assert(decoded_tx(txs[i]) is Ok);
    } else if broken < i {
        assert(outcomes[broken] is Ok);
    }
}

/// The block of an executed payload, out of which its information is read, has the header as
/// executed and one transaction for each of the payload, decoded and in their order. The artifacts
/// hold the same transactions as they came.
pub proof fn law_block_of_an_executed_payload_holds_its_transactions<R, X, E, F>(
    driver: DriverView<R>,
    config: RollupConfig,
    tip: TipView,
    attributes: AttributesView,
    deposits_only: bool,
    outcome: OutcomeView<R>,
    txs: Seq<Seq<u8>>,
    origin: BlockInfo,
    info: L2BlockInfo,
    output_root: B256,
)
    requires
        driver.stage == (StageView::<R>::Execution { tip, attributes, deposits_only }),
        attributes.transactions == Some(txs) || (attributes.transactions is None && txs.len() == 0),
        forall|i: int| 0 <= i < txs.len() ==> decoded_tx(#[trigger] txs[i]) is Ok,
    ensures
        ({
            let (s1, _) = driver.next::<X, E, F>(config, EventView::Executed(Ok(outcome)));
            let (s2, derive) = s1.next::<X, E, F>(config, EventView::Origin(Some(origin)));
            let (s3, _) = s2.next::<X, E, F>(config, EventView::BlockInfoRead(Ok(info)));
            let (s4, _) = s3.next::<X, E, F>(config, EventView::OutputRoot(Ok(output_root)));
            let (s5, _) = s4.next::<X, E, F>(config, EventView::Advanced);
            &&& derive matches ActionView::DeriveBlockInfo(block)
            &&& block.header == outcome.header.header
            &&& block.transactions.len() == txs.len()
            &&& forall|i: int|
                0 <= i < txs.len() ==> decoded_tx(txs[i]) == Ok::<OpTxEnvelope, alloy_rlp::Error>(
                    #[trigger] block.transactions[i],
                )
            &&& block.withdrawals is None
            &&& s5.artifacts == Some((outcome, txs))
        }),
{
    let outcomes = network_outcomes(txs);
    law_each_transaction_is_decoded_in_its_form(txs);
    law_collect(outcomes);
    assert forall|i: int| 0 <= i < outcomes.len() implies (#[trigger] outcomes[i]) is Ok by {
        assert(decoded_tx(txs[i]) is Ok);
    }
    assert(attributes.tx_list() =~= txs);
}

/// A failure after the execution ends the run with its error: that of flushing the channel, a
/// missing L1 origin, that of reading the block information and that of the output root. It leaves
/// the artifacts and the target as they were.
pub proof fn law_later_failures_end_the_run<R, X, E, F>(
    driver: DriverView<R>,
    config: RollupConfig,
    unflushed: PipelineErrorKind<X>,
    unread: F,
    uncomputed: E,
)
    ensures
        driver.stage is Flush ==> driver.next::<X, E, F>(
            config,
            EventView::Flushed(Err(unflushed)),
        ) == (
            driver.at(StageView::Idle),
            ActionView::<X, E, F>::Finish(Err(DriverError::Pipeline(unflushed))),
        ),
        driver.stage is Origin ==> driver.next::<X, E, F>(config, EventView::Origin(None)) == (
            driver.at(StageView::Idle),
            ActionView::<X, E, F>::Finish(
                Err(
                    DriverError::Pipeline(PipelineErrorKind::Critical(PipelineError::MissingOrigin)),
                ),
            ),
        ),
        driver.stage is Info ==> driver.next::<X, E, F>(
            config,
            EventView::BlockInfoRead(Err(unread)),
        ) == (
            driver.at(StageView::Idle),
            ActionView::<X, E, F>::Finish(Err(DriverError::BlockConversion(unread))),
        ),
        driver.stage is Root ==> driver.next::<X, E, F>(
            config,
            EventView::OutputRoot(Err(uncomputed)),
        ) == (
            driver.at(StageView::Idle),
            ActionView::<X, E, F>::Finish(Err(DriverError::Executor(uncomputed))),
        ),
        driver.at(StageView::Idle).target == driver.target,
        driver.at(StageView::Idle).artifacts == driver.artifacts,
        driver.at(StageView::Idle).stage is Idle,
{
}

/// The driver waits for what it has asked for, and for nothing once the run is over.
pub proof fn law_driver_waits_for_what_it_asked<R, X, E, F>(
    driver: DriverView<R>,
    config: RollupConfig,
    event: EventView<R, X, E, F>,
)
    requires
        driver.accepts(event),
    ensures
        ({
            let (next, action) = driver.next(config, event);
            forall|reply: EventView<R, X, E, F>| #[trigger]
                next.accepts(reply) <==> match action {
                    ActionView::ReadTip => reply is Tip,
                    ActionView::ProducePayload(_) => reply is Payload,
                    ActionView::Execute { .. } => reply is Executed,
                    ActionView::ResetPipeline(_) => reply is PipelineReset,
                    ActionView::FlushChannel => reply is Flushed,
                    ActionView::ReadOrigin => reply is Origin,
                    ActionView::DeriveBlockInfo(_) => reply is BlockInfoRead,
                    ActionView::ComputeOutputRoot => reply is OutputRoot,
                    ActionView::AdvanceCursor { .. } => reply is Advanced,
                    ActionView::Finish(_) => false,
                }
        }),
{
}

/// A payload that has come is in its first attempt, on the tip that it was asked for; one whose
/// channel has been flushed is in its second. Both are executed on the header of that tip.
pub proof fn law_attempts_are_counted<R, X, E, F>(
    driver: DriverView<R>,
    config: RollupConfig,
    tip: TipView,
    attributes: AttributesView,
    error: E,
)
    requires
        driver.stage == (StageView::<R>::Payload { tip }),
    ensures
        ({
            let (first, execute) = driver.next::<X, E, F>(config, EventView::Payload(Ok(attributes)));
            let (flushing, _) = first.next::<X, E, F>(config, EventView::Executed(Err(error)));
            let (second, retry) = flushing.next::<X, E, F>(config, EventView::Flushed(Ok(())));
            &&& first.stage == (StageView::<R>::Execution { tip, attributes, deposits_only: false })
            &&& execute == (ActionView::<X, E, F>::Execute { safe_head: tip.header, attributes })
            &&& first.target == driver.target
            &&& first.artifacts == driver.artifacts
            &&& config.active(holocene(), attributes.timestamp) ==> {
                &&& retry matches ActionView::Execute { safe_head, attributes: stripped }
                &&& safe_head == tip.header
                &&& second.stage == (StageView::<R>::Execution {
                    tip,
                    attributes: stripped,
                    deposits_only: true,
                })
            }
        }),
{
}

/// Steps and starts of a run leave the collaborators of the driver as they are.
pub proof fn law_same_parts_are_the_same<C, V, D, R>(a: Driver<C, V, D, R>, b: Driver<C, V, D, R>)
    requires
        a.same_parts(b),
    ensures
        a.cursor == b.cursor,
        a.executor == b.executor,
        a.pipeline == b.pipeline,
{
}

/// The contents of an action are what it holds, each as it is.
pub proof fn law_contents_of_actions<X, E, F>(action: Action<X, E, F>)
    ensures
        match action {
            Action::ReadTip => action@ is ReadTip,
            Action::ProducePayload(head) => action@ == ActionView::<X, E, F>::ProducePayload(head),
            Action::Execute { safe_head, attributes } => action@ == (ActionView::<X, E, F>::Execute {
                safe_head: safe_head@,
                attributes: attributes@,
            }),
            Action::ResetPipeline(head) => action@ == ActionView::<X, E, F>::ResetPipeline(head),
            Action::FlushChannel => action@ is FlushChannel,
            Action::ReadOrigin => action@ is ReadOrigin,
            Action::DeriveBlockInfo(block) => action@ == ActionView::<X, E, F>::DeriveBlockInfo(
                block@,
            ),
            Action::ComputeOutputRoot => action@ is ComputeOutputRoot,
            Action::AdvanceCursor { origin, tip } => {
                &&& action@ matches ActionView::AdvanceCursor { origin: at, tip: view }
                &&& at == origin
                &&& view.head == tip.l2_safe_head
                &&& view.header == tip.l2_safe_head_header@
                &&& view.output_root == tip.l2_safe_head_output_root
            },
            Action::Finish(result) => action@ == ActionView::Finish(result),
        },
{
}

/// The contents of an event are what came of the action, as it came.
pub proof fn law_contents_of_events<R, X, E, F>(event: Event<R, X, E, F>)
    ensures
        match event {
            Event::Tip(tip) => event@ matches EventView::Tip(view) && view.head == tip.l2_safe_head
                && view.header == tip.l2_safe_head_header@ && view.output_root
                == tip.l2_safe_head_output_root,
            Event::Payload(Ok(attributes)) => event@ == EventView::<R, X, E, F>::Payload(
                Ok(attributes@),
            ),
            Event::Payload(Err(e)) => event@ == EventView::<R, X, E, F>::Payload(Err(e)),
            Event::PipelineReset(result) => event@ == EventView::<R, X, E, F>::PipelineReset(result),
            Event::Executed(Ok(outcome)) => event@ matches EventView::Executed(Ok(view))
                && view.header == outcome.header@ && view.execution_result
                == outcome.execution_result,
            Event::Executed(Err(e)) => event@ == EventView::<R, X, E, F>::Executed(Err(e)),
            Event::Flushed(result) => event@ == EventView::<R, X, E, F>::Flushed(result),
            Event::Origin(origin) => event@ == EventView::<R, X, E, F>::Origin(origin),
            Event::BlockInfoRead(result) => event@ == EventView::<R, X, E, F>::BlockInfoRead(result),
            Event::OutputRoot(result) => event@ == EventView::<R, X, E, F>::OutputRoot(result),
            Event::Advanced => event@ is Advanced,
        },
{
}

/// The artifacts of a driver are the outcome and the transactions that it holds, and its target is
/// the one that is set.
pub proof fn law_artifacts_of_a_driver<C, V, D, R>(driver: Driver<C, V, D, R>)
    ensures
        driver@.target == driver.target,
        driver@.stage == driver.stage@,
        driver.safe_head_artifacts is None <==> driver@.artifacts is None,
        driver.safe_head_artifacts matches Some((outcome, txs)) ==> {
            &&& driver@.artifacts matches Some((view, raw))
            &&& view.header == outcome.header@
            &&& view.execution_result == outcome.execution_result
            &&& raw == bytes_of(txs@)
        },
{
}

/// Every critical error in producing a payload, but for the exhaustion of the L1 data, ends the run
/// with it. It leaves the target and the artifacts as they were.
pub proof fn law_critical_payload_errors_end_the_run<R, X, E, F>(
    driver: DriverView<R>,
    config: RollupConfig,
    error: PipelineError<X>,
)
    requires
        driver.stage is Payload,
        !(error is EndOfSource),
    ensures
        ({
            let critical = PipelineErrorKind::Critical(error);
            let (next, action) = driver.next::<X, E, F>(config, EventView::Payload(Err(critical)));
            &&& action == ActionView::<X, E, F>::Finish(Err(DriverError::Pipeline(critical)))
            &&& next.stage is Idle
            &&& next.target == driver.target
            &&& next.artifacts == driver.artifacts
        }),
{
}

/// A second attempt that fails ends the run with its error, whatever forks are active.
pub proof fn law_failed_second_attempt_ends_the_run<R, X, E, F>(
    driver: DriverView<R>,
    config: RollupConfig,
    tip: TipView,
    attributes: AttributesView,
    error: E,
)
    requires
        driver.stage == (StageView::<R>::Execution { tip, attributes, deposits_only: true }),
    ensures
        ({
            let (next, action) = driver.next::<X, E, F>(config, EventView::Executed(Err(error)));
            &&& action == ActionView::<X, E, F>::Finish(Err(DriverError::Executor(error)))
            &&& next.stage is Idle
            &&& next.target == driver.target
            &&& next.artifacts == driver.artifacts
        }),
{
}

} // verus!
