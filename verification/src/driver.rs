//! The driver: derives L2 blocks from the pipeline and executes them until a target is reached.
//!
//! A run is a sequence of steps. Each step hands out one [`Action`] that the caller performs with
//! the cursor, the pipeline or the executor, and takes back the [`Event`] that came of it.

use crate::config::{holocene, interop, RollupConfig};
use crate::errors::{DriverError, PipelineError, PipelineErrorKind};
use crate::header::{result_view, SealedHeader, SealedView};
use crate::primitives::{bytes_of, BlockInfo, L2BlockInfo, B256};
use crate::transaction::{
    collect, decode_transactions, network_outcomes, tx_result, AttributesView, BlockView, OpBlock,
    OpPayloadAttributes,
};
use op_alloy_consensus::OpTxEnvelope;
use vstd::prelude::*;

verus! {

/// The tip of the derivation: the L2 safe head, its header and its output root.
#[derive(Clone, Debug, PartialEq, Eq)]
pub struct TipCursor {
    pub l2_safe_head: L2BlockInfo,
    pub l2_safe_head_header: SealedHeader,
    pub l2_safe_head_output_root: B256,
}

/// The contents of a [`TipCursor`].
#[verifier::ext_equal]
pub struct TipView {
    pub head: L2BlockInfo,
    pub header: SealedView,
    pub output_root: B256,
}

impl View for TipCursor {
    type V = TipView;

    open spec fn view(&self) -> TipView {
        TipView {
            head: self.l2_safe_head,
            header: self.l2_safe_head_header@,
            output_root: self.l2_safe_head_output_root,
        }
    }
}

impl TipView {
    /// The number of the L2 safe head.
    pub open spec fn number(self) -> u64 {
        self.head.block_info.number
    }
}

impl TipCursor {
    /// A tip made of its three parts.
    pub fn new(
        l2_safe_head: L2BlockInfo,
        l2_safe_head_header: SealedHeader,
        l2_safe_head_output_root: B256,
    ) -> (r: TipCursor)
        ensures
            r@ == (TipView {
                head: l2_safe_head,
                header: l2_safe_head_header@,
                output_root: l2_safe_head_output_root,
            }),
    {
        TipCursor { l2_safe_head, l2_safe_head_header, l2_safe_head_output_root }
    }
}

/// What executing a payload produced: the sealed header and the execution result.
#[derive(Clone, Debug, PartialEq, Eq)]
pub struct BlockBuildingOutcome<R> {
    pub header: SealedHeader,
    pub execution_result: R,
}

/// The contents of a [`BlockBuildingOutcome`].
#[verifier::ext_equal]
pub struct OutcomeView<R> {
    pub header: SealedView,
    pub execution_result: R,
}

impl<R> View for BlockBuildingOutcome<R> {
    type V = OutcomeView<R>;

    open spec fn view(&self) -> OutcomeView<R> {
        OutcomeView { header: self.header@, execution_result: self.execution_result }
    }
}

/// What the driver asks its caller to do next.
#[derive(Debug, PartialEq, Eq)]
pub enum Action<X, E, F> {
    /// Read the tip of the cursor.
    ReadTip,
    /// Produce the payload attributes of the block after the given safe head.
    ProducePayload(L2BlockInfo),
    /// Set the safe head of the executor, then execute the payload.
    Execute { safe_head: SealedHeader, attributes: OpPayloadAttributes },
    /// Reset the pipeline to the given safe head.
    ResetPipeline(L2BlockInfo),
    /// Signal the pipeline to flush its channel.
    FlushChannel,
    /// Read the L1 origin of the pipeline.
    ReadOrigin,
    /// Read the L2 block information out of the block.
    DeriveBlockInfo(OpBlock),
    /// Compute the output root of the executed block.
    ComputeOutputRoot,
    /// Advance the cursor to the tip.
    AdvanceCursor { origin: BlockInfo, tip: TipCursor },
    /// The run is over.
    Finish(Result<(L2BlockInfo, B256), DriverError<X, E, F>>),
}

/// The contents of an [`Action`].
#[verifier::ext_equal]
pub enum ActionView<X, E, F> {
    ReadTip,
    ProducePayload(L2BlockInfo),
    Execute { safe_head: SealedView, attributes: AttributesView },
    ResetPipeline(L2BlockInfo),
    FlushChannel,
    ReadOrigin,
    DeriveBlockInfo(BlockView),
    ComputeOutputRoot,
    AdvanceCursor { origin: BlockInfo, tip: TipView },
    Finish(Result<(L2BlockInfo, B256), DriverError<X, E, F>>),
}

impl<X, E, F> View for Action<X, E, F> {
    type V = ActionView<X, E, F>;

    open spec fn view(&self) -> ActionView<X, E, F> {
        match *self {
            Action::ReadTip => ActionView::ReadTip,
            Action::ProducePayload(head) => ActionView::ProducePayload(head),
            Action::Execute { safe_head, attributes } => ActionView::Execute {
                safe_head: safe_head@,
                attributes: attributes@,
            },
            Action::ResetPipeline(head) => ActionView::ResetPipeline(head),
            Action::FlushChannel => ActionView::FlushChannel,
            Action::ReadOrigin => ActionView::ReadOrigin,
            Action::DeriveBlockInfo(block) => ActionView::DeriveBlockInfo(block@),
            Action::ComputeOutputRoot => ActionView::ComputeOutputRoot,
            Action::AdvanceCursor { origin, tip } => ActionView::AdvanceCursor { origin, tip: tip@ },
            Action::Finish(result) => ActionView::Finish(result),
        }
    }
}

/// What came of the last action.
#[derive(Debug, PartialEq, Eq)]
pub enum Event<R, X, E, F> {
    Tip(TipCursor),
    Payload(Result<OpPayloadAttributes, PipelineErrorKind<X>>),
    PipelineReset(Result<(), PipelineErrorKind<X>>),
    Executed(Result<BlockBuildingOutcome<R>, E>),
    Flushed(Result<(), PipelineErrorKind<X>>),
    Origin(Option<BlockInfo>),
    BlockInfoRead(Result<L2BlockInfo, F>),
    OutputRoot(Result<B256, E>),
    Advanced,
}

/// The contents of an [`Event`].
#[verifier::ext_equal]
pub enum EventView<R, X, E, F> {
    Tip(TipView),
    Payload(Result<AttributesView, PipelineErrorKind<X>>),
    PipelineReset(Result<(), PipelineErrorKind<X>>),
    Executed(Result<OutcomeView<R>, E>),
    Flushed(Result<(), PipelineErrorKind<X>>),
    Origin(Option<BlockInfo>),
    BlockInfoRead(Result<L2BlockInfo, F>),
    OutputRoot(Result<B256, E>),
    Advanced,
}

impl<R, X, E, F> View for Event<R, X, E, F> {
    type V = EventView<R, X, E, F>;

    open spec fn view(&self) -> EventView<R, X, E, F> {
        match *self {
            Event::Tip(tip) => EventView::Tip(tip@),
            Event::Payload(Ok(attributes)) => EventView::Payload(Ok(attributes@)),
            Event::Payload(Err(e)) => EventView::Payload(Err(e)),
            Event::PipelineReset(result) => EventView::PipelineReset(result),
            Event::Executed(Ok(outcome)) => EventView::Executed(Ok(outcome@)),
            Event::Executed(Err(e)) => EventView::Executed(Err(e)),
            Event::Flushed(result) => EventView::Flushed(result),
            Event::Origin(origin) => EventView::Origin(origin),
            Event::BlockInfoRead(result) => EventView::BlockInfoRead(result),
            Event::OutputRoot(result) => EventView::OutputRoot(result),
            Event::Advanced => EventView::Advanced,
        }
    }
}

/// Where a run stands, together with what it still needs.
#[derive(Debug, PartialEq, Eq)]
pub enum Stage<R> {
    /// No run is under way.
    Idle,
    /// Waits for the tip.
    Tip,
    /// Waits for the payload attributes of the block after the tip.
    Payload { tip: TipCursor },
    /// Waits for the pipeline to have been reset.
    Reset,
    /// Waits for the outcome of the payload; `deposits_only` marks the second attempt.
    Execution { tip: TipCursor, attributes: OpPayloadAttributes, deposits_only: bool },
    /// Waits for the pipeline to have flushed the channel of a payload that failed.
    Flush { tip: TipCursor, attributes: OpPayloadAttributes },
    /// Waits for the L1 origin.
    Origin { outcome: BlockBuildingOutcome<R>, transactions: Vec<Vec<u8>>, block: OpBlock },
    /// Waits for the L2 block information.
    Info { outcome: BlockBuildingOutcome<R>, transactions: Vec<Vec<u8>>, origin: BlockInfo },
    /// Waits for the output root.
    Root {
        outcome: BlockBuildingOutcome<R>,
        transactions: Vec<Vec<u8>>,
        origin: BlockInfo,
        info: L2BlockInfo,
    },
    /// Waits for the cursor to have advanced.
    Advance { outcome: BlockBuildingOutcome<R>, transactions: Vec<Vec<u8>> },
}

/// The contents of a [`Stage`].
#[verifier::ext_equal]
pub enum StageView<R> {
    Idle,
    Tip,
    Payload { tip: TipView },
    Reset,
    Execution { tip: TipView, attributes: AttributesView, deposits_only: bool },
    Flush { tip: TipView, attributes: AttributesView },
    Origin { outcome: OutcomeView<R>, transactions: Seq<Seq<u8>>, block: BlockView },
    Info { outcome: OutcomeView<R>, transactions: Seq<Seq<u8>>, origin: BlockInfo },
    Root {
        outcome: OutcomeView<R>,
        transactions: Seq<Seq<u8>>,
        origin: BlockInfo,
        info: L2BlockInfo,
    },
    Advance { outcome: OutcomeView<R>, transactions: Seq<Seq<u8>> },
}

impl<R> View for Stage<R> {
    type V = StageView<R>;

    open spec fn view(&self) -> StageView<R> {
        match *self {
            Stage::Idle => StageView::Idle,
            Stage::Tip => StageView::Tip,
            Stage::Payload { tip } => StageView::Payload { tip: tip@ },
            Stage::Reset => StageView::Reset,
            Stage::Execution { tip, attributes, deposits_only } => StageView::Execution {
                tip: tip@,
                attributes: attributes@,
                deposits_only,
            },
            Stage::Flush { tip, attributes } => StageView::Flush { tip: tip@, attributes: attributes@ },
            Stage::Origin { outcome, transactions, block } => StageView::Origin {
                outcome: outcome@,
                transactions: bytes_of(transactions@),
                block: block@,
            },
            Stage::Info { outcome, transactions, origin } => StageView::Info {
                outcome: outcome@,
                transactions: bytes_of(transactions@),
                origin,
            },
            Stage::Root { outcome, transactions, origin, info } => StageView::Root {
                outcome: outcome@,
                transactions: bytes_of(transactions@),
                origin,
                info,
            },
            Stage::Advance { outcome, transactions } => StageView::Advance {
                outcome: outcome@,
                transactions: bytes_of(transactions@),
            },
        }
    }
}

/// The state of a driver: the target in force, the stage of the run and the artifacts of the
/// block that was derived last.
#[verifier::ext_equal]
pub struct DriverView<R> {
    pub target: Option<u64>,
    pub stage: StageView<R>,
    pub artifacts: Option<(OutcomeView<R>, Seq<Seq<u8>>)>,
}

/// A state of the driver together with the action that it hands out.
pub type Turn<R, X, E, F> = (DriverView<R>, ActionView<X, E, F>);

impl<R> DriverView<R> {
    /// The same driver at another stage.
    pub open spec fn at(self, stage: StageView<R>) -> DriverView<R> {
        DriverView { stage, ..self }
    }

    /// Whether the driver waits for this event.
    pub open spec fn accepts<X, E, F>(self, event: EventView<R, X, E, F>) -> bool {
        match self.stage {
            StageView::Idle => false,
            StageView::Tip => event is Tip,
            StageView::Payload { .. } => event is Payload,
            StageView::Reset => event is PipelineReset,
            StageView::Execution { .. } => event is Executed,
            StageView::Flush { .. } => event is Flushed,
            StageView::Origin { .. } => event is Origin,
            StageView::Info { .. } => event is BlockInfoRead,
            StageView::Root { .. } => event is OutputRoot,
            StageView::Advance { .. } => event is Advanced,
        }
    }

    /// The run ends with this result.
    pub open spec fn finish<X, E, F>(
        self,
        result: Result<(L2BlockInfo, B256), DriverError<X, E, F>>,
    ) -> Turn<R, X, E, F> {
        (self.at(StageView::Idle), ActionView::Finish(result))
    }

    /// The run goes back to its top: the tip is read again.
    pub open spec fn again<X, E, F>(self) -> Turn<R, X, E, F> {
        (self.at(StageView::Tip), ActionView::ReadTip)
    }

    /// The payload is executed on top of the tip.
    pub open spec fn execute<X, E, F>(
        self,
        tip: TipView,
        attributes: AttributesView,
        deposits_only: bool,
    ) -> Turn<R, X, E, F> {
        (
            self.at(StageView::Execution { tip, attributes, deposits_only }),
            ActionView::Execute { safe_head: tip.header, attributes },
        )
    }

    /// A tip at or past the target ends the run with that tip; below it, or without a target, the
    /// next payload is produced.
    pub open spec fn after_tip<X, E, F>(self, tip: TipView) -> Turn<R, X, E, F> {
        if self.target matches Some(n) && tip.number() >= n {
            self.finish(Ok((tip.head, tip.output_root)))
        } else {
            (self.at(StageView::Payload { tip }), ActionView::ProducePayload(tip.head))
        }
    }

    /// When the L1 data is exhausted, the tip becomes the target. In interop mode, which is judged
    /// by the number of the tip, the error goes to the caller; otherwise the run goes back to its
    /// top, where it halts.
    pub open spec fn after_end_of_source<X, E, F>(self, config: RollupConfig, tip: TipView) -> Turn<
        R,
        X,
        E,
        F,
    > {
        let halting = DriverView { target: Some(tip.number()), ..self };
        if config.active(interop(), tip.number()) {
            halting.finish(
                Err(
                    DriverError::Pipeline(
                        PipelineErrorKind::Critical(PipelineError::EndOfSource),
                    ),
                ),
            )
        } else {
            halting.again()
        }
    }

    /// Payload attributes are executed. After a temporary error the run goes back to its top, so
    /// that the payload is asked for again; after one that asks for a reset, the pipeline is reset
    /// to the tip first. Any critical error other than the end of the source ends the run.
    pub open spec fn after_payload<X, E, F>(
        self,
        config: RollupConfig,
        tip: TipView,
        payload: Result<AttributesView, PipelineErrorKind<X>>,
    ) -> Turn<R, X, E, F> {
        match payload {
            Ok(attributes) => self.execute(tip, attributes, false),
            Err(PipelineErrorKind::Critical(PipelineError::EndOfSource)) => {
                self.after_end_of_source(config, tip)
            },
            Err(PipelineErrorKind::Temporary(_)) => self.again(),
            Err(PipelineErrorKind::Reset(_)) => (
                self.at(StageView::Reset),
                ActionView::ResetPipeline(tip.head),
            ),
            Err(e) => self.finish(Err(DriverError::Pipeline(e))),
        }
    }

    /// The block of an executed payload holds its header and its decoded transactions; a
    /// transaction that does not decode ends the run.
    pub open spec fn after_decoding<X, E, F>(
        self,
        transactions: Seq<Seq<u8>>,
        outcome: OutcomeView<R>,
        decoded: Result<Seq<OpTxEnvelope>, alloy_rlp::Error>,
    ) -> Turn<R, X, E, F> {
        match decoded {
            Err(e) => self.finish(Err(DriverError::Rlp(e))),
            Ok(decoded) => (
                self.at(
                    StageView::Origin {
                        outcome,
                        transactions,
                        block: BlockView {
                            header: outcome.header.header,
                            transactions: decoded,
                            withdrawals: None,
                        },
                    },
                ),
                ActionView::ReadOrigin,
            ),
        }
    }

    /// The transactions of an executed payload are decoded, all or none.
    pub open spec fn after_success<X, E, F>(
        self,
        attributes: AttributesView,
        outcome: OutcomeView<R>,
    ) -> Turn<R, X, E, F> {
        self.after_decoding(
            attributes.tx_list(),
            outcome,
            collect(network_outcomes(attributes.tx_list())),
        )
    }

    /// A payload that fails is discarded before Holocene; from Holocene on its channel is flushed
    /// and it is tried once more with its deposits only. If that fails too, the run ends.
    pub open spec fn after_execution<X, E, F>(
        self,
        config: RollupConfig,
        tip: TipView,
        attributes: AttributesView,
        deposits_only: bool,
        executed: Result<OutcomeView<R>, E>,
    ) -> Turn<R, X, E, F> {
        match executed {
            Ok(outcome) => self.after_success(attributes, outcome),
            Err(e) => if deposits_only {
                self.finish(Err(DriverError::Executor(e)))
            } else if config.active(holocene(), attributes.timestamp) {
                (self.at(StageView::Flush { tip, attributes }), ActionView::FlushChannel)
            } else {
                self.again()
            },
        }
    }

    /// The step of a driver that is told what came of its last action.
    pub open spec fn next<X, E, F>(
        self,
        config: RollupConfig,
        event: EventView<R, X, E, F>,
    ) -> Turn<R, X, E, F> {
        match (self.stage, event) {
            (StageView::Tip, EventView::Tip(tip)) => self.after_tip(tip),
            (StageView::Payload { tip }, EventView::Payload(payload)) => {
                self.after_payload(config, tip, payload)
            },
            (StageView::Reset, EventView::PipelineReset(result)) => match result {
                Ok(_) => self.again(),
                Err(e) => self.finish(Err(DriverError::Pipeline(e))),
            },
            (
                StageView::Execution { tip, attributes, deposits_only },
                EventView::Executed(executed),
            ) => self.after_execution(config, tip, attributes, deposits_only, executed),
            (StageView::Flush { tip, attributes }, EventView::Flushed(flushed)) => match flushed {
                Ok(_) => self.execute(tip, attributes.deposits_only(), true),
                Err(e) => self.finish(Err(DriverError::Pipeline(e))),
            },
            (StageView::Origin { outcome, transactions, block }, EventView::Origin(origin)) => {
                match origin {
                    Some(origin) => (
                        self.at(StageView::Info { outcome, transactions, origin }),
                        ActionView::DeriveBlockInfo(block),
                    ),
                    None => self.finish(
                        Err(
                            DriverError::Pipeline(
                                PipelineErrorKind::Critical(PipelineError::MissingOrigin),
                            ),
                        ),
                    ),
                }
            },
            (
                StageView::Info { outcome, transactions, origin },
                EventView::BlockInfoRead(read),
            ) => match read {
                Ok(info) => (
                    self.at(StageView::Root { outcome, transactions, origin, info }),
                    ActionView::ComputeOutputRoot,
                ),
                Err(e) => self.finish(Err(DriverError::BlockConversion(e))),
            },
            (
                StageView::Root { outcome, transactions, origin, info },
                EventView::OutputRoot(root),
            ) => match root {
                Ok(output_root) => (
                    self.at(StageView::Advance { outcome, transactions }),
                    ActionView::AdvanceCursor {
                        origin,
                        tip: TipView { head: info, header: outcome.header, output_root },
                    },
                ),
                Err(e) => self.finish(Err(DriverError::Executor(e))),
            },
            (StageView::Advance { outcome, transactions }, EventView::Advanced) => DriverView {
                artifacts: Some((outcome, transactions)),
                ..self
            }.again(),
            _ => vstd::pervasive::arbitrary(),
        }
    }
}

/// The driver of the derivation pipeline.
#[derive(Debug)]
pub struct Driver<C, E, D, R> {
    /// The cursor that tracks the derivation.
    pub cursor: C,
    /// The block executor.
    pub executor: E,
    /// The derivation pipeline.
    pub pipeline: D,
    /// The outcome and the raw transactions of the block that was derived last.
    pub safe_head_artifacts: Option<(BlockBuildingOutcome<R>, Vec<Vec<u8>>)>,
    /// The block number at which the run under way ends.
    pub target: Option<u64>,
    /// Where the run under way stands.
    pub stage: Stage<R>,
}

/// The contents of the artifacts of a block.
pub open spec fn artifacts_view<R>(
    artifacts: Option<(BlockBuildingOutcome<R>, Vec<Vec<u8>>)>,
) -> Option<(OutcomeView<R>, Seq<Seq<u8>>)> {
    match artifacts {
        Some((outcome, transactions)) => Some((outcome@, bytes_of(transactions@))),
        None => None,
    }
}

impl<C, E, D, R> View for Driver<C, E, D, R> {
    type V = DriverView<R>;

    open spec fn view(&self) -> DriverView<R> {
        DriverView {
            target: self.target,
            stage: self.stage@,
            artifacts: artifacts_view(self.safe_head_artifacts),
        }
    }
}

impl<C, D, V, R> Driver<C, V, D, R> {
    /// Whether the collaborators of two drivers are the same.
    pub open spec fn same_parts(self, other: Self) -> bool {
        self.cursor == other.cursor && self.executor == other.executor && self.pipeline
            == other.pipeline
    }

    /// A driver without artifacts and without a run under way.
    pub fn new(cursor: C, executor: V, pipeline: D) -> (r: Self)
        ensures
            r.cursor == cursor,
            r.executor == executor,
            r.pipeline == pipeline,
            r.safe_head_artifacts is None,
            r@ == (DriverView::<R> { target: None, stage: StageView::Idle, artifacts: None }),
    {
        Driver {
            cursor,
            executor,
            pipeline,
            safe_head_artifacts: None,
            target: None,
            stage: Stage::Idle,
        }
    }

    /// Starts a run that derives blocks until the safe head reaches `target`, or until the L1 data
    /// is exhausted if there is none. The first action is to read the tip.
    pub fn advance_to_target<X, E, F>(&mut self, target: Option<u64>) -> (action: Action<X, E, F>)
        ensures
            final(self)@ == (DriverView {
                target,
                stage: StageView::Tip,
                artifacts: old(self)@.artifacts,
            }),
            action@ == ActionView::<X, E, F>::ReadTip,
            final(self).same_parts(*old(self)),
            final(self).safe_head_artifacts == old(self).safe_head_artifacts,
    {
        self.target = target;
        self.stage = Stage::Tip;
        Action::ReadTip
    }

    /// Takes what came of the last action and gives the next one.
    pub fn step<X, E, F>(&mut self, config: &RollupConfig, event: Event<R, X, E, F>) -> (action: Action<
        X,
        E,
        F,
    >)
        requires
            old(self)@.accepts(event@),
        ensures
            (final(self)@, action@) == old(self)@.next(*config, event@),
            final(self).same_parts(*old(self)),
    {
        let mut stage = Stage::Idle;
        std::mem::swap(&mut stage, &mut self.stage);
        match (stage, event) {
            (Stage::Tip, Event::Tip(tip)) => self.on_tip(tip),
            (Stage::Payload { tip }, Event::Payload(payload)) => self.on_payload(config, tip, payload),
            (Stage::Reset, Event::PipelineReset(result)) => match result {
                Ok(_) => {
                    self.stage = Stage::Tip;
                    Action::ReadTip
                },
                Err(e) => Action::Finish(Err(DriverError::Pipeline(e))),
            },
            (Stage::Execution { tip, attributes, deposits_only }, Event::Executed(executed)) => {
                match executed {
                    Ok(outcome) => self.on_success(attributes, outcome),
                    Err(e) => if deposits_only {
                        Action::Finish(Err(DriverError::Executor(e)))
                    } else if config.is_holocene_active(attributes.timestamp) {
                        self.stage = Stage::Flush { tip, attributes };
                        Action::FlushChannel
                    } else {
                        self.stage = Stage::Tip;
                        Action::ReadTip
                    },
                }
            },
            (Stage::Flush { tip, attributes }, Event::Flushed(flushed)) => match flushed {
                Ok(_) => {
                    let mut attributes = attributes;
                    attributes.strip_to_deposits();
                    self.execute(tip, attributes, true)
                },
                Err(e) => Action::Finish(Err(DriverError::Pipeline(e))),
            },
            (Stage::Origin { outcome, transactions, block }, Event::Origin(origin)) => match origin {
                Some(origin) => {
                    self.stage = Stage::Info { outcome, transactions, origin };
                    Action::DeriveBlockInfo(block)
                },
                None => Action::Finish(
                    Err(DriverError::Pipeline(PipelineError::MissingOrigin.crit())),
                ),
            },
            (Stage::Info { outcome, transactions, origin }, Event::BlockInfoRead(read)) => {
                match read {
                    Ok(info) => {
                        self.stage = Stage::Root { outcome, transactions, origin, info };
                        Action::ComputeOutputRoot
                    },
                    Err(e) => Action::Finish(Err(DriverError::BlockConversion(e))),
                }
            },
            (Stage::Root { outcome, transactions, origin, info }, Event::OutputRoot(root)) => {
                match root {
                    Ok(output_root) => {
                        let tip = TipCursor::new(info, outcome.header.copy(), output_root);
                        self.stage = Stage::Advance { outcome, transactions };
                        Action::AdvanceCursor { origin, tip }
                    },
                    Err(e) => Action::Finish(Err(DriverError::Executor(e))),
                }
            },
            (Stage::Advance { outcome, transactions }, Event::Advanced) => {
                self.safe_head_artifacts = Some((outcome, transactions));
                self.stage = Stage::Tip;
                Action::ReadTip
            },
            _ => vstd::pervasive::unreached(),
        }
    }

    fn execute<X, E, F>(
        &mut self,
        tip: TipCursor,
        attributes: OpPayloadAttributes,
        deposits_only: bool,
    ) -> (action: Action<X, E, F>)
        ensures
            (final(self)@, action@) == old(self)@.execute::<X, E, F>(tip@, attributes@, deposits_only),
            final(self).same_parts(*old(self)),
    {
        let safe_head = tip.l2_safe_head_header.copy();
        let payload = attributes.copy();
        self.stage = Stage::Execution { tip, attributes, deposits_only };
        Action::Execute { safe_head, attributes: payload }
    }

    fn on_tip<X, E, F>(&mut self, tip: TipCursor) -> (action: Action<X, E, F>)
        requires
            old(self)@.stage is Idle,
        ensures
            (final(self)@, action@) == old(self)@.after_tip::<X, E, F>(tip@),
            final(self).same_parts(*old(self)),
    {
        let head = tip.l2_safe_head;
        if let Some(n) = self.target {
            if head.block_info.number >= n {
                return Action::Finish(Ok((head, tip.l2_safe_head_output_root)));
            }
        }
        self.stage = Stage::Payload { tip };
        Action::ProducePayload(head)
    }

    fn on_payload<X, E, F>(
        &mut self,
        config: &RollupConfig,
        tip: TipCursor,
        payload: Result<OpPayloadAttributes, PipelineErrorKind<X>>,
    ) -> (action: Action<X, E, F>)
        requires
            old(self)@.stage is Idle,
        ensures
            (final(self)@, action@) == old(self)@.after_payload::<X, E, F>(
                *config,
                tip@,
                result_view(payload),
            ),
            final(self).same_parts(*old(self)),
    {
        match payload {
            Ok(attributes) => self.execute(tip, attributes, false),
            Err(PipelineErrorKind::Critical(PipelineError::EndOfSource)) => {
                let number = tip.l2_safe_head.block_info.number;
                self.target = Some(number);
                if config.is_interop_active(number) {
                    Action::Finish(Err(DriverError::Pipeline(PipelineError::EndOfSource.crit())))
                } else {
                    self.stage = Stage::Tip;
                    Action::ReadTip
                }
            },
            Err(PipelineErrorKind::Temporary(_)) => {
                self.stage = Stage::Tip;
                Action::ReadTip
            },
            Err(PipelineErrorKind::Reset(_)) => {
                self.stage = Stage::Reset;
                Action::ResetPipeline(tip.l2_safe_head)
            },
            Err(e) => Action::Finish(Err(DriverError::Pipeline(e))),
        }
    }

    fn on_success<X, E, F>(
        &mut self,
        attributes: OpPayloadAttributes,
        outcome: BlockBuildingOutcome<R>,
    ) -> (action: Action<X, E, F>)
        requires
            old(self)@.stage is Idle,
        ensures
            (final(self)@, action@) == old(self)@.after_success::<X, E, F>(attributes@, outcome@),
            final(self).same_parts(*old(self)),
    {
        let transactions = match attributes.transactions {
            Some(txs) => txs,
            None => Vec::new(),
        };
        assert(bytes_of(transactions@) =~= attributes@.tx_list());
        let decoded = decode_transactions(&transactions);
        self.on_decoded(transactions, outcome, decoded)
    }

    /// Takes the transactions of an executed payload, raw and decoded.
    pub fn on_decoded<X, E, F>(
        &mut self,
        transactions: Vec<Vec<u8>>,
        outcome: BlockBuildingOutcome<R>,
        decoded: Result<Vec<OpTxEnvelope>, alloy_rlp::Error>,
    ) -> (action: Action<X, E, F>)
        ensures
            (final(self)@, action@) == old(self)@.after_decoding::<X, E, F>(
                bytes_of(transactions@),
                outcome@,
                tx_result(decoded),
            ),
            final(self).same_parts(*old(self)),
    {
        match decoded {
            Ok(decoded) => {
                let block = OpBlock {
                    header: outcome.header.header.copy(),
                    transactions: decoded,
                    withdrawals: None,
                };
                self.stage = Stage::Origin { outcome, transactions, block };
                Action::ReadOrigin
            },
            Err(e) => {
                self.stage = Stage::Idle;
                Action::Finish(Err(DriverError::Rlp(e)))
            },
        }
    }
}

} // verus!
