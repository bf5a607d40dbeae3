//! The stage of the derivation pipeline that reads batches out of channels.
//!
//! Reading a batch is a sequence of steps. Each step hands out one [`ReadAction`] that the caller
//! performs with the previous stage or with the batch reader, and takes back the [`ReadEvent`] that
//! came of it.

use crate::config::{
    fjord, law_fork_is_active_from_its_time, RollupConfig, MAX_RLP_BYTES_PER_CHANNEL_BEDROCK, MAX_RLP_BYTES_PER_CHANNEL_FJORD,
};
use crate::errors::{PipelineError, PipelineErrorKind};
use crate::primitives::BlockInfo;
use vstd::prelude::*;

verus! {

/// What the stage asks its caller to do next.
#[derive(Debug, PartialEq, Eq)]
pub enum ReadAction<B, X> {
    /// Pull the next channel out of the previous stage.
    NextData,
    /// Read the L1 origin of the previous stage.
    ReadOrigin,
    /// Make a batch reader for the channel that decompresses at most this many bytes.
    Open { channel: Vec<u8>, max_rlp_bytes: usize },
    /// Let the batch reader decompress its channel.
    Decompress,
    /// Let the batch reader read the next batch.
    ReadBatch,
    /// Reading is over.
    Done(Result<B, PipelineErrorKind<X>>),
}

/// The contents of a [`ReadAction`].
#[verifier::ext_equal]
pub enum ReadActionView<B, X> {
    NextData,
    ReadOrigin,
    Open { channel: Seq<u8>, max_rlp_bytes: nat },
    Decompress,
    ReadBatch,
    Done(Result<B, PipelineErrorKind<X>>),
}

impl<B, X> View for ReadAction<B, X> {
    type V = ReadActionView<B, X>;

    open spec fn view(&self) -> ReadActionView<B, X> {
        match *self {
            ReadAction::NextData => ReadActionView::NextData,
            ReadAction::ReadOrigin => ReadActionView::ReadOrigin,
            ReadAction::Open { channel, max_rlp_bytes } => ReadActionView::Open {
                channel: channel@,
                max_rlp_bytes: max_rlp_bytes as nat,
            },
            ReadAction::Decompress => ReadActionView::Decompress,
            ReadAction::ReadBatch => ReadActionView::ReadBatch,
            ReadAction::Done(result) => ReadActionView::Done(result),
        }
    }
}

/// What came of the last action.
#[derive(Debug, PartialEq, Eq)]
pub enum ReadEvent<R, B, X> {
    Data(Result<Option<Vec<u8>>, PipelineErrorKind<X>>),
    Origin(Option<BlockInfo>),
    Opened(R),
    Decompressed(bool),
    Batch(Option<B>),
}

/// The contents of a [`ReadEvent`].
#[verifier::ext_equal]
pub enum ReadEventView<R, B, X> {
    Data(Result<Option<Seq<u8>>, PipelineErrorKind<X>>),
    Origin(Option<BlockInfo>),
    Opened(R),
    Decompressed(bool),
    Batch(Option<B>),
}

impl<R, B, X> View for ReadEvent<R, B, X> {
    type V = ReadEventView<R, B, X>;

    open spec fn view(&self) -> ReadEventView<R, B, X> {
        match *self {
            ReadEvent::Data(Ok(Some(channel))) => ReadEventView::Data(Ok(Some(channel@))),
            ReadEvent::Data(Ok(None)) => ReadEventView::Data(Ok(None)),
            ReadEvent::Data(Err(e)) => ReadEventView::Data(Err(e)),
            ReadEvent::Origin(origin) => ReadEventView::Origin(origin),
            ReadEvent::Opened(reader) => ReadEventView::Opened(reader),
            ReadEvent::Decompressed(success) => ReadEventView::Decompressed(success),
            ReadEvent::Batch(batch) => ReadEventView::Batch(batch),
        }
    }
}

/// Where reading a batch stands.
#[derive(Debug, PartialEq, Eq)]
pub enum ReadStage {
    /// Nothing is being read.
    Idle,
    /// Waits for a channel.
    Data,
    /// Waits for the L1 origin.
    Origin { channel: Vec<u8> },
    /// Waits for the batch reader.
    Open,
    /// Waits for the channel to be decompressed.
    Decompress,
    /// Waits for the batch.
    Batch,
}

/// The contents of a [`ReadStage`].
#[verifier::ext_equal]
pub enum ReadStageView {
    Idle,
    Data,
    Origin { channel: Seq<u8> },
    Open,
    Decompress,
    Batch,
}

impl View for ReadStage {
    type V = ReadStageView;

    open spec fn view(&self) -> ReadStageView {
        match *self {
            ReadStage::Idle => ReadStageView::Idle,
            ReadStage::Data => ReadStageView::Data,
            ReadStage::Origin { channel } => ReadStageView::Origin { channel: channel@ },
            ReadStage::Open => ReadStageView::Open,
            ReadStage::Decompress => ReadStageView::Decompress,
            ReadStage::Batch => ReadStageView::Batch,
        }
    }
}

/// The number of bytes that a channel may decompress to: more from Fjord on.
pub open spec fn max_rlp_bytes(config: RollupConfig, origin: BlockInfo) -> nat {
    if config.active(fjord(), origin.timestamp) {
        MAX_RLP_BYTES_PER_CHANNEL_FJORD as nat
    } else {
        MAX_RLP_BYTES_PER_CHANNEL_BEDROCK as nat
    }
}

/// The state of the stage: its batch reader and where reading stands.
#[verifier::ext_equal]
pub struct ReaderView<R> {
    pub reader: Option<R>,
    pub stage: ReadStageView,
}

/// A state of the stage together with the action that it hands out.
pub type ReadTurn<R, B, X> = (ReaderView<R>, ReadActionView<B, X>);

impl<R> ReaderView<R> {
    /// The same batch reader at another stage.
    pub open spec fn at(self, stage: ReadStageView) -> ReaderView<R> {
        ReaderView { stage, ..self }
    }

    /// Reading fails with this error; the batch reader is dropped.
    pub open spec fn fail<B, X>(self, error: PipelineErrorKind<X>) -> ReadTurn<R, B, X> {
        (
            ReaderView { reader: None, stage: ReadStageView::Idle },
            ReadActionView::Done(Err(error)),
        )
    }

    /// The beginning: a batch reader that is there is used, otherwise a channel is pulled.
    pub open spec fn start<B, X>(self) -> ReadTurn<R, B, X> {
        if self.reader is Some {
            (self.at(ReadStageView::Decompress), ReadActionView::Decompress)
        } else {
            (self.at(ReadStageView::Data), ReadActionView::NextData)
        }
    }

    /// Whether the stage waits for this event.
    pub open spec fn accepts<B, X>(self, event: ReadEventView<R, B, X>) -> bool {
        match self.stage {
            ReadStageView::Idle => false,
            ReadStageView::Data => event is Data,
            ReadStageView::Origin { .. } => event is Origin,
            ReadStageView::Open => event is Opened,
            ReadStageView::Decompress => event is Decompressed,
            ReadStageView::Batch => event is Batch,
        }
    }

    /// The step of a stage that is told what came of its last action.
    pub open spec fn next<B, X>(self, config: RollupConfig, event: ReadEventView<R, B, X>) -> ReadTurn<
        R,
        B,
        X,
    > {
        match (self.stage, event) {
            (ReadStageView::Data, ReadEventView::Data(Ok(Some(channel)))) => (
                self.at(ReadStageView::Origin { channel }),
                ReadActionView::ReadOrigin,
            ),
            (ReadStageView::Data, ReadEventView::Data(Ok(None))) => self.fail(
                PipelineErrorKind::Temporary(PipelineError::ChannelReaderEmpty),
            ),
            (ReadStageView::Data, ReadEventView::Data(Err(e))) => self.fail(e),
            (ReadStageView::Origin { channel }, ReadEventView::Origin(Some(origin))) => (
                self.at(ReadStageView::Open),
                ReadActionView::Open { channel, max_rlp_bytes: max_rlp_bytes(config, origin) },
            ),
            (ReadStageView::Origin { .. }, ReadEventView::Origin(None)) => self.fail(
                PipelineErrorKind::Critical(PipelineError::MissingOrigin),
            ),
            (ReadStageView::Open, ReadEventView::Opened(reader)) => (
                ReaderView { reader: Some(reader), stage: ReadStageView::Decompress },
                ReadActionView::Decompress,
            ),
            (ReadStageView::Decompress, ReadEventView::Decompressed(success)) => if success {
                (self.at(ReadStageView::Batch), ReadActionView::ReadBatch)
            } else {
                self.fail(PipelineErrorKind::Temporary(PipelineError::NotEnoughData))
            },
            (ReadStageView::Batch, ReadEventView::Batch(Some(batch))) => (
                self.at(ReadStageView::Idle),
                ReadActionView::Done(Ok(batch)),
            ),
            (ReadStageView::Batch, ReadEventView::Batch(None)) => self.fail(
                PipelineErrorKind::Temporary(PipelineError::NotEnoughData),
            ),
            _ => vstd::pervasive::arbitrary(),
        }
    }

    /// Whether there is a batch reader exactly when reading has got to it.
    pub open spec fn well_formed(self) -> bool {
        match self.stage {
            ReadStageView::Idle => true,
            ReadStageView::Data => self.reader is None,
            ReadStageView::Origin { .. } => self.reader is None,
            ReadStageView::Open => self.reader is None,
            ReadStageView::Decompress => self.reader is Some,
            ReadStageView::Batch => self.reader is Some,
        }
    }
}

/// What the pipeline is told from outside.
///
/// `S` holds what a reset or an activation carries.
#[derive(Clone, Copy, Debug, PartialEq, Eq)]
pub enum Signal<S> {
    /// The pipeline starts anew.
    Reset(S),
    /// A hardfork is activated.
    Activation(S),
    /// The channel in progress is dropped.
    FlushChannel,
    /// A block is handed to the pipeline.
    ProvideBlock(BlockInfo),
}

/// The stage that reads batches out of channels.
///
/// `P` is the previous stage and `R` the batch reader, which decompresses a channel and decodes the
/// batches in it.
#[derive(Debug)]
pub struct ChannelReader<P, R> {
    /// The previous stage.
    pub prev: P,
    /// The batch reader.
    pub next_batch: Option<R>,
    /// The rollup configuration.
    pub cfg: RollupConfig,
    /// Where reading a batch stands.
    pub stage: ReadStage,
}

impl<P, R> View for ChannelReader<P, R> {
    type V = ReaderView<R>;

    open spec fn view(&self) -> ReaderView<R> {
        ReaderView { reader: self.next_batch, stage: self.stage@ }
    }
}

impl<P, R> ChannelReader<P, R> {
    /// Whether the previous stage and the configuration are the same.
    pub open spec fn same_parts(self, other: Self) -> bool {
        self.prev == other.prev && self.cfg == other.cfg
    }

    /// A stage without a batch reader.
    pub fn new(prev: P, cfg: RollupConfig) -> (r: Self)
        ensures
            r.prev == prev,
            r.cfg == cfg,
            r@ == (ReaderView::<R> { reader: None, stage: ReadStageView::Idle }),
    {
        ChannelReader { prev, next_batch: None, cfg, stage: ReadStage::Idle }
    }

    /// Drops the batch reader, so that reading goes on with the next channel from a fresh start.
    pub fn next_channel(&mut self)
        ensures
            final(self).same_parts(*old(self)),
            final(self)@ == (ReaderView::<R> { reader: None, stage: ReadStageView::Idle }),
    {
        self.next_batch = None;
        self.stage = ReadStage::Idle;
    }

    /// Flushes the channel of an invalid span batch.
    pub fn flush(&mut self)
        ensures
            final(self).same_parts(*old(self)),
            final(self)@ == (ReaderView::<R> { reader: None, stage: ReadStageView::Idle }),
    {
        self.next_channel();
    }

    /// Takes a signal. The one to flush the channel drops the batch reader and goes no further; any
    /// other is to be forwarded to the previous stage, and [`Self::signal_forwarded`] follows.
    pub fn signal<S>(&mut self, signal: Signal<S>) -> (forward: Option<Signal<S>>)
        ensures
            final(self).same_parts(*old(self)),
            signal is FlushChannel ==> forward is None && final(self)@ == (ReaderView::<R> {
                reader: None,
                stage: ReadStageView::Idle,
            }),
            !(signal is FlushChannel) ==> forward == Some(signal) && final(self)@ == old(self)@,
    {
        match signal {
            Signal::FlushChannel => {
                self.next_channel();
                None
            },
            other => Some(other),
        }
    }

    /// Takes what came of forwarding a signal: the batch reader is dropped if the previous stage
    /// took the signal; its error is handed on.
    pub fn signal_forwarded<X>(&mut self, result: Result<(), PipelineErrorKind<X>>) -> (r: Result<
        (),
        PipelineErrorKind<X>,
    >)
        ensures
            r == result,
            final(self).same_parts(*old(self)),
            final(self)@ == (if result is Ok {
                ReaderView::<R> { reader: None, stage: ReadStageView::Idle }
            } else {
                old(self)@
            }),
    {
        if result.is_ok() {
            self.next_channel();
        }
        result
    }

    /// Begins to read the next batch.
    pub fn next_batch<B, X>(&mut self) -> (action: ReadAction<B, X>)
        ensures
            final(self).same_parts(*old(self)),
            (final(self)@, action@) == old(self)@.start::<B, X>(),
    {
        match &self.next_batch {
            Some(_) => {
                self.stage = ReadStage::Decompress;
                ReadAction::Decompress
            },
            None => {
                self.stage = ReadStage::Data;
                ReadAction::NextData
            },
        }
    }

    fn fail<B, X>(&mut self, error: PipelineErrorKind<X>) -> (action: ReadAction<B, X>)
        ensures
            final(self).same_parts(*old(self)),
            (final(self)@, action@) == old(self)@.fail::<B, X>(error),
    {
        self.next_channel();
        ReadAction::Done(Err(error))
    }

    /// Takes what came of the last action and gives the next one.
    pub fn step<B, X>(&mut self, event: ReadEvent<R, B, X>) -> (action: ReadAction<B, X>)
        requires
            old(self)@.accepts(event@),
        ensures
            final(self).same_parts(*old(self)),
            (final(self)@, action@) == old(self)@.next(old(self).cfg, event@),
    {
        let mut stage = ReadStage::Idle;
        std::mem::swap(&mut stage, &mut self.stage);
        match (stage, event) {
            (ReadStage::Data, ReadEvent::Data(Ok(Some(channel)))) => {
                self.stage = ReadStage::Origin { channel };
                ReadAction::ReadOrigin
            },
            (ReadStage::Data, ReadEvent::Data(Ok(None))) => self.fail(
                PipelineError::ChannelReaderEmpty.temp(),
            ),
            (ReadStage::Data, ReadEvent::Data(Err(e))) => self.fail(e),
            (ReadStage::Origin { channel }, ReadEvent::Origin(Some(origin))) => {
                let max_rlp_bytes: u64 = if self.cfg.is_fjord_active(origin.timestamp) {
                    MAX_RLP_BYTES_PER_CHANNEL_FJORD
                } else {
                    MAX_RLP_BYTES_PER_CHANNEL_BEDROCK
                };
                self.stage = ReadStage::Open;
                ReadAction::Open { channel, max_rlp_bytes: max_rlp_bytes as usize }
            },
            (ReadStage::Origin { .. }, ReadEvent::Origin(None)) => self.fail(
                PipelineError::MissingOrigin.crit(),
            ),
            (ReadStage::Open, ReadEvent::Opened(reader)) => {
                self.next_batch = Some(reader);
                self.stage = ReadStage::Decompress;
                ReadAction::Decompress
            },
            (ReadStage::Decompress, ReadEvent::Decompressed(success)) => if success {
                self.stage = ReadStage::Batch;
                ReadAction::ReadBatch
            } else {
                self.fail(PipelineError::NotEnoughData.temp())
            },
            (ReadStage::Batch, ReadEvent::Batch(Some(batch))) => ReadAction::Done(Ok(batch)),
            (ReadStage::Batch, ReadEvent::Batch(None)) => self.fail(
                PipelineError::NotEnoughData.temp(),
            ),
            _ => vstd::pervasive::unreached(),
        }
    }
}

/// Every step keeps the stage well formed, and reading leaves a batch reader behind exactly if it
/// gives a batch.
pub proof fn law_reader_is_kept_only_on_success<R, B, X>(
    stage: ReaderView<R>,
    config: RollupConfig,
    event: ReadEventView<R, B, X>,
)
    requires
        stage.well_formed(),
        stage.accepts(event),
    ensures
        stage.start::<B, X>().0.well_formed(),
        stage.next(config, event).0.well_formed(),
        stage.next(config, event).1 matches ReadActionView::Done(result) ==> (result is Ok
            <==> stage.next(config, event).0.reader is Some),
{
}

/// A batch reader that was left behind is read on: no channel is pulled, and the batch comes from
/// it as it is.
pub proof fn law_reader_is_read_on<R, B, X>(stage: ReaderView<R>, config: RollupConfig, batch: B)
    requires
        stage.reader is Some,
    ensures
        ({
            let (decompressing, first) = stage.start::<B, X>();
            let (reading, second) = decompressing.next::<B, X>(
                config,
                ReadEventView::Decompressed(true),
            );
            let (done, third) = reading.next::<B, X>(config, ReadEventView::Batch(Some(batch)));
            &&& first == ReadActionView::<B, X>::Decompress
            &&& second == ReadActionView::<B, X>::ReadBatch
            &&& third == ReadActionView::<B, X>::Done(Ok(batch))
            &&& done.reader == stage.reader
        }),
{
}

/// A channel that was pulled is opened as it is, with the limit of the fork that is active at the
/// L1 origin.
pub proof fn law_channel_is_opened_within_its_limit<R, B, X>(
    stage: ReaderView<R>,
    config: RollupConfig,
    channel: Seq<u8>,
    origin: BlockInfo,
)
    requires
        stage.reader is None,
    ensures
        ({
            let (pulling, first) = stage.start::<B, X>();
            let (placing, second) = pulling.next::<B, X>(
                config,
                ReadEventView::Data(Ok(Some(channel))),
            );
            let (_, third) = placing.next::<B, X>(config, ReadEventView::Origin(Some(origin)));
            &&& first == ReadActionView::<B, X>::NextData
            &&& second == ReadActionView::<B, X>::ReadOrigin
            &&& third == (ReadActionView::<B, X>::Open {
                channel,
                max_rlp_bytes: max_rlp_bytes(config, origin),
            })
        }),
{
}

/// A channel may decompress to 100,000,000 bytes if Fjord, or a hardfork after it, is active at the
/// timestamp of the L1 origin, and to 10,000,000 bytes before that. All of the channel is opened.
pub proof fn law_limit_of_a_channel_changes_at_fjord<R, B, X>(
    stage: ReaderView<R>,
    config: RollupConfig,
    channel: Seq<u8>,
    origin: BlockInfo,
)
    requires
        stage.stage == (ReadStageView::Origin { channel }),
    ensures
        ({
            let placed = ReadEventView::<R, B, X>::Origin(Some(origin));
            let (opening, action) = stage.next(config, placed);
            let from_fjord_on = config.active(fjord(), origin.timestamp);
            &&& stage.accepts(placed)
            &&& from_fjord_on ==> action == (ReadActionView::<B, X>::Open {
                channel,
                max_rlp_bytes: 100_000_000,
            })
            &&& !from_fjord_on ==> action == (ReadActionView::<B, X>::Open {
                channel,
                max_rlp_bytes: 10_000_000,
            })
            &&& (config.hardforks.fjord_time matches Some(time) && time <= origin.timestamp)
                ==> from_fjord_on
            &&& opening.stage is Open
            &&& opening.reader == stage.reader
        }),
{
    law_fork_is_active_from_its_time(config, origin.timestamp);
}

/// A batch reader that was opened is kept, decompresses its channel and reads the batch, which is
/// the result as it came.
pub proof fn law_opened_reader_gives_its_batch<R, B, X>(
    stage: ReaderView<R>,
    config: RollupConfig,
    reader: R,
    batch: B,
)
    requires
        stage.stage is Open,
    ensures
        ({
            let opened = ReadEventView::<R, B, X>::Opened(reader);
            let (s1, first) = stage.next(config, opened);
            let decompressed = ReadEventView::<R, B, X>::Decompressed(true);
            let (s2, second) = s1.next(config, decompressed);
            let read = ReadEventView::<R, B, X>::Batch(Some(batch));
            let (s3, third) = s2.next(config, read);
            &&& stage.accepts(opened)
            &&& first == ReadActionView::<B, X>::Decompress
            &&& s1.reader == Some(reader)
            &&& s1.accepts(decompressed)
            &&& second == ReadActionView::<B, X>::ReadBatch
            &&& s2.reader == Some(reader)
            &&& s2.accepts(read)
            &&& third == ReadActionView::<B, X>::Done(Ok(batch))
            &&& s3.reader == Some(reader)
            &&& s3.stage is Idle
        }),
{
}

/// Reading fails with the error that the previous stage gives, for the time being if there is no
/// channel or if its data does not suffice, and for good if there is no L1 origin. Whatever fails,
/// the batch reader is dropped, so that the next batch comes from the next channel.
pub proof fn law_failure_drops_the_reader<R, B, X>(
    stage: ReaderView<R>,
    config: RollupConfig,
    event: ReadEventView<R, B, X>,
)
    requires
        stage.accepts(event),
    ensures
        ({
            let (after, action) = stage.next(config, event);
            let failed = ReadActionView::<B, X>::Done(
                Err(
                    match event {
                        ReadEventView::Data(Err(e)) => e,
                        ReadEventView::Data(_) => PipelineErrorKind::Temporary(
                            PipelineError::ChannelReaderEmpty,
                        ),
                        ReadEventView::Origin(_) => PipelineErrorKind::Critical(
                            PipelineError::MissingOrigin,
                        ),
                        _ => PipelineErrorKind::Temporary(PipelineError::NotEnoughData),
                    },
                ),
            );
            let fails = match event {
                ReadEventView::Data(data) => data is Err || data->Ok_0 is None,
                ReadEventView::Origin(origin) => origin is None,
                ReadEventView::Opened(_) => false,
                ReadEventView::Decompressed(success) => !success,
                ReadEventView::Batch(batch) => batch is None,
            };
            &&& fails ==> action == failed && after.reader is None && after.stage is Idle
            &&& !fails ==> !(action matches ReadActionView::Done(Err(_)))
            &&& fails ==> after.start::<B, X>().1 == ReadActionView::<B, X>::NextData
        }),
{
}

/// The stage waits for what it has asked for, and for nothing once reading is over.
pub proof fn law_stage_waits_for_what_it_asked<R, B, X>(
    stage: ReaderView<R>,
    config: RollupConfig,
    event: ReadEventView<R, B, X>,
)
    ensures
        stage.reader is None ==> forall|reply: ReadEventView<R, B, X>|
            #[trigger] stage.start::<B, X>().0.accepts(reply) <==> reply is Data,
        stage.reader is Some ==> forall|reply: ReadEventView<R, B, X>|
            #[trigger] stage.start::<B, X>().0.accepts(reply) <==> reply is Decompressed,
        stage.accepts(event) ==> {
            let (next, action) = stage.next(config, event);
            &&& action is ReadOrigin ==> forall|reply: ReadEventView<R, B, X>|
                #[trigger] next.accepts(reply) <==> reply is Origin
            &&& action is Open ==> forall|reply: ReadEventView<R, B, X>|
                #[trigger] next.accepts(reply) <==> reply is Opened
            &&& action is Decompress ==> forall|reply: ReadEventView<R, B, X>|
                #[trigger] next.accepts(reply) <==> reply is Decompressed
            &&& action is ReadBatch ==> forall|reply: ReadEventView<R, B, X>|
                #[trigger] next.accepts(reply) <==> reply is Batch
            &&& action is Done ==> forall|reply: ReadEventView<R, B, X>|
                !(#[trigger] next.accepts(reply))
            &&& !(action is NextData)
        },
{
}

/// Reading leaves the previous stage and the configuration as they are.
pub proof fn law_same_parts_are_the_same<P, R>(a: ChannelReader<P, R>, b: ChannelReader<P, R>)
    requires
        a.same_parts(b),
    ensures
        a.prev == b.prev,
        a.cfg == b.cfg,
{
}

/// The contents of an action and of an event are what they hold, each as it is.
pub proof fn law_contents_of_actions_and_events<R, B, X>(
    action: ReadAction<B, X>,
    event: ReadEvent<R, B, X>,
)
    ensures
        action is NextData ==> action@ is NextData,
        action is ReadOrigin ==> action@ is ReadOrigin,
        action matches ReadAction::Open { channel, max_rlp_bytes } ==> action@ == (ReadActionView::<
            B,
            X,
        >::Open { channel: channel@, max_rlp_bytes: max_rlp_bytes as nat }),
        action is Decompress ==> action@ is Decompress,
        action is ReadBatch ==> action@ is ReadBatch,
        action matches ReadAction::Done(result) ==> action@ == ReadActionView::<B, X>::Done(result),
        event matches ReadEvent::Data(Ok(Some(channel))) ==> event@ == ReadEventView::<R, B, X>::Data(
            Ok(Some(channel@)),
        ),
        event matches ReadEvent::Data(Ok(None)) ==> event@ == ReadEventView::<R, B, X>::Data(
            Ok(None),
        ),
        event matches ReadEvent::Data(Err(e)) ==> event@ == ReadEventView::<R, B, X>::Data(Err(e)),
        event matches ReadEvent::Origin(origin) ==> event@ == ReadEventView::<R, B, X>::Origin(
            origin,
        ),
        event matches ReadEvent::Opened(reader) ==> event@ == ReadEventView::<R, B, X>::Opened(
            reader,
        ),
        event matches ReadEvent::Decompressed(success) ==> event@ == ReadEventView::<
            R,
            B,
            X,
        >::Decompressed(success),
        event matches ReadEvent::Batch(batch) ==> event@ == ReadEventView::<R, B, X>::Batch(batch),
{
}

/// The state of the stage is its batch reader and where reading stands.
pub proof fn law_state_of_the_stage<P, R>(stage: ChannelReader<P, R>)
    ensures
        stage@.reader == stage.next_batch,
        stage@.stage is Idle <==> stage.stage is Idle,
        stage@.stage is Data <==> stage.stage is Data,
        stage.stage matches ReadStage::Origin { channel } ==> stage@.stage == (
        ReadStageView::Origin { channel: channel@ }),
        stage@.stage is Open <==> stage.stage is Open,
        stage@.stage is Decompress <==> stage.stage is Decompress,
        stage@.stage is Batch <==> stage.stage is Batch,
{
}

} // verus!
