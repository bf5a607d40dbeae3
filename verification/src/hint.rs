//! The hint protocol between the client program and the host.
//!
//! A hint travels as a 4-byte big-endian length followed by its bytes; the host answers with a
//! single byte once it has routed the hint. Both ends are sequences of steps: each step hands out
//! one [`ChannelAction`] that the caller performs on the channel or the router, and takes back the
//! [`ChannelEvent`] that came of it.

use crate::primitives::{
    be_bytes, be_value, byte_range, law_be_value_reads_be_bytes, lemma_be_bytes_len,
    lemma_be_bytes_mod, u32_from_be_bytes, u32_to_be_bytes,
};
use vstd::prelude::*;

verus! {

/// What one end of the hint channel asks its caller to do next.
#[derive(Debug, PartialEq, Eq)]
pub enum ChannelAction<E> {
    /// Write all of the bytes.
    Write(Vec<u8>),
    /// Read exactly this many bytes.
    ReadExact(usize),
    /// Route the hint to where its preimages are prepared.
    Route(Vec<u8>),
    /// The exchange is over.
    Done(Result<(), E>),
}

/// The contents of a [`ChannelAction`].
#[verifier::ext_equal]
pub enum ChannelActionView<E> {
    Write(Seq<u8>),
    ReadExact(nat),
    Route(Seq<u8>),
    Done(Result<(), E>),
}

impl<E> View for ChannelAction<E> {
    type V = ChannelActionView<E>;

    open spec fn view(&self) -> ChannelActionView<E> {
        match *self {
            ChannelAction::Write(bytes) => ChannelActionView::Write(bytes@),
            ChannelAction::ReadExact(n) => ChannelActionView::ReadExact(n as nat),
            ChannelAction::Route(hint) => ChannelActionView::Route(hint@),
            ChannelAction::Done(result) => ChannelActionView::Done(result),
        }
    }
}

/// What came of the last action.
#[derive(Debug, PartialEq, Eq)]
pub enum ChannelEvent<E> {
    Written(Result<(), E>),
    Read(Result<Vec<u8>, E>),
    Routed(Result<(), E>),
}

/// The contents of a [`ChannelEvent`].
#[verifier::ext_equal]
pub enum ChannelEventView<E> {
    Written(Result<(), E>),
    Read(Result<Seq<u8>, E>),
    Routed(Result<(), E>),
}

impl<E> View for ChannelEvent<E> {
    type V = ChannelEventView<E>;

    open spec fn view(&self) -> ChannelEventView<E> {
        match *self {
            ChannelEvent::Written(result) => ChannelEventView::Written(result),
            ChannelEvent::Read(Ok(bytes)) => ChannelEventView::Read(Ok(bytes@)),
            ChannelEvent::Read(Err(e)) => ChannelEventView::Read(Err(e)),
            ChannelEvent::Routed(result) => ChannelEventView::Routed(result),
        }
    }
}

/// The bytes that carry a hint: its length in four big-endian bytes, then the hint.
pub open spec fn frame(hint: Seq<u8>) -> Seq<u8> {
    be_bytes(hint.len(), 4) + hint
}

/// The acknowledgement of a hint.
pub open spec fn acknowledgement() -> Seq<u8> {
    seq![0u8]
}

/// Where writing a hint stands.
#[derive(Debug, PartialEq, Eq)]
pub enum WriteStage {
    /// Waits for the length to be written.
    Prefix { hint: Vec<u8> },
    /// Waits for the hint to be written.
    Payload,
    /// Waits for the acknowledgement.
    Acknowledgement,
    /// The exchange is over.
    Done,
}

/// The contents of a [`WriteStage`].
#[verifier::ext_equal]
pub enum WriteStageView {
    Prefix { hint: Seq<u8> },
    Payload,
    Acknowledgement,
    Done,
}

impl View for WriteStage {
    type V = WriteStageView;

    open spec fn view(&self) -> WriteStageView {
        match *self {
            WriteStage::Prefix { hint } => WriteStageView::Prefix { hint: hint@ },
            WriteStage::Payload => WriteStageView::Payload,
            WriteStage::Acknowledgement => WriteStageView::Acknowledgement,
            WriteStage::Done => WriteStageView::Done,
        }
    }
}

impl WriteStageView {
    /// The beginning of writing a hint: its length is written.
    pub open spec fn start<E>(hint: Seq<u8>) -> (WriteStageView, ChannelActionView<E>) {
        (WriteStageView::Prefix { hint }, ChannelActionView::Write(be_bytes(hint.len(), 4)))
    }

    /// Whether the writer waits for this event.
    pub open spec fn accepts<E>(self, event: ChannelEventView<E>) -> bool {
        match self {
            WriteStageView::Prefix { .. } => event is Written,
            WriteStageView::Payload => event is Written,
            WriteStageView::Acknowledgement => event matches ChannelEventView::Read(read) && (read
                matches Ok(bytes) ==> bytes.len() == acknowledgement().len()),
            WriteStageView::Done => false,
        }
    }

    /// After its length the hint is written, then its acknowledgement is read; the first failure
    /// ends the exchange.
    pub open spec fn next<E>(self, event: ChannelEventView<E>) -> (WriteStageView, ChannelActionView<E>) {
        match (self, event) {
            (WriteStageView::Prefix { hint }, ChannelEventView::Written(Ok(_))) => (
                WriteStageView::Payload,
                ChannelActionView::Write(hint),
            ),
            (WriteStageView::Payload, ChannelEventView::Written(Ok(_))) => (
                WriteStageView::Acknowledgement,
                ChannelActionView::ReadExact(acknowledgement().len()),
            ),
            (WriteStageView::Acknowledgement, ChannelEventView::Read(Ok(_))) => (
                WriteStageView::Done,
                ChannelActionView::Done(Ok(())),
            ),
            (_, ChannelEventView::Written(Err(e))) => (
                WriteStageView::Done,
                ChannelActionView::Done(Err(e)),
            ),
            (_, ChannelEventView::Read(Err(e))) => (
                WriteStageView::Done,
                ChannelActionView::Done(Err(e)),
            ),
            _ => vstd::pervasive::arbitrary(),
        }
    }
}

/// The client's end of the hint channel.
#[derive(Debug, Clone, Copy)]
pub struct HintWriter<C> {
    pub channel: C,
}

impl<C> HintWriter<C> {
    /// A writer on the channel.
    pub fn new(channel: C) -> (r: Self)
        ensures
            r.channel == channel,
    {
        HintWriter { channel }
    }

    /// Begins to write a hint.
    pub fn write<E>(&self, hint: &[u8]) -> (r: (WriteStage, ChannelAction<E>))
        ensures
            (r.0@, r.1@) == WriteStageView::start::<E>(hint@),
    {
        let length: u32 = (hint.len() as u64 % 0x1_0000_0000) as u32;
        let prefix = vstd::slice::slice_to_vec(u32_to_be_bytes(length).as_slice());
        proof {
            assert(byte_range(4) == 0x1_0000_0000) by {
                reveal_with_fuel(byte_range, 5);
            }
            lemma_be_bytes_mod(hint@.len(), 4);
        }
        let stage = WriteStage::Prefix { hint: vstd::slice::slice_to_vec(hint) };
        (stage, ChannelAction::Write(prefix))
    }
}

impl WriteStage {
    /// Takes what came of the last action and gives the next one.
    pub fn step<E>(&mut self, event: ChannelEvent<E>) -> (action: ChannelAction<E>)
        requires
            old(self)@.accepts(event@),
        ensures
            (final(self)@, action@) == old(self)@.next(event@),
    {
        let mut stage = WriteStage::Done;
        std::mem::swap(&mut stage, self);
        match (stage, event) {
            (WriteStage::Prefix { hint }, ChannelEvent::Written(Ok(_))) => {
                *self = WriteStage::Payload;
                ChannelAction::Write(hint)
            },
            (WriteStage::Payload, ChannelEvent::Written(Ok(_))) => {
                *self = WriteStage::Acknowledgement;
                ChannelAction::ReadExact(1)
            },
            (WriteStage::Acknowledgement, ChannelEvent::Read(Ok(_))) => ChannelAction::Done(Ok(())),
            (_, ChannelEvent::Written(Err(e))) => ChannelAction::Done(Err(e)),
            (_, ChannelEvent::Read(Err(e))) => ChannelAction::Done(Err(e)),
            _ => vstd::pervasive::unreached(),
        }
    }
}

/// Where reading a hint stands.
#[derive(Debug, PartialEq, Eq)]
pub enum ReadStage<E> {
    /// Waits for the length.
    Length,
    /// Waits for the hint of this length.
    Payload { length: u32 },
    /// Waits for the hint to be routed.
    Route,
    /// Waits for the acknowledgement to be written; holds what routing gave.
    Acknowledgement { routed: Result<(), E> },
    /// The exchange is over.
    Done,
}

impl<E> ReadStage<E> {
    /// Whether the reader waits for this event.
    pub open spec fn accepts(self, event: ChannelEventView<E>) -> bool {
        match self {
            ReadStage::Length => event matches ChannelEventView::Read(read) && (read matches Ok(bytes)
                ==> bytes.len() == 4),
            ReadStage::Payload { length } => event matches ChannelEventView::Read(read) && (read
                matches Ok(bytes) ==> bytes.len() == length),
            ReadStage::Route => event is Routed,
            ReadStage::Acknowledgement { .. } => event is Written,
            ReadStage::Done => false,
        }
    }

    /// The length is read, then the hint of that length, which is routed. Whatever routing gives,
    /// the acknowledgement is written, and only then the outcome of routing is the result. A
    /// channel failure ends the exchange.
    pub open spec fn next(self, event: ChannelEventView<E>) -> (ReadStage<E>, ChannelActionView<E>) {
        match (self, event) {
            (ReadStage::Length, ChannelEventView::Read(Ok(bytes))) => (
                ReadStage::Payload { length: be_value(bytes) as u32 },
                ChannelActionView::ReadExact(be_value(bytes)),
            ),
            (ReadStage::Payload { .. }, ChannelEventView::Read(Ok(hint))) => (
                ReadStage::Route,
                ChannelActionView::Route(hint),
            ),
            (ReadStage::Route, ChannelEventView::Routed(routed)) => (
                ReadStage::Acknowledgement { routed },
                ChannelActionView::Write(acknowledgement()),
            ),
            (ReadStage::Acknowledgement { routed }, ChannelEventView::Written(Ok(_))) => (
                ReadStage::Done,
                ChannelActionView::Done(routed),
            ),
            (_, ChannelEventView::Written(Err(e))) => (
                ReadStage::Done,
                ChannelActionView::Done(Err(e)),
            ),
            (_, ChannelEventView::Read(Err(e))) => (
                ReadStage::Done,
                ChannelActionView::Done(Err(e)),
            ),
            _ => vstd::pervasive::arbitrary(),
        }
    }

    /// Takes what came of the last action and gives the next one.
    pub fn step(&mut self, event: ChannelEvent<E>) -> (action: ChannelAction<E>)
        requires
            old(self).accepts(event@),
        ensures
            (*final(self), action@) == old(self).next(event@),
    {
        let mut stage = ReadStage::Done;
        std::mem::swap(&mut stage, self);
        match (stage, event) {
            (ReadStage::Length, ChannelEvent::Read(Ok(bytes))) => {
                let length = u32_from_be_bytes([bytes[0], bytes[1], bytes[2], bytes[3]]);
                assert(bytes@ =~= [bytes@[0], bytes@[1], bytes@[2], bytes@[3]]@);
                *self = ReadStage::Payload { length };
                ChannelAction::ReadExact(length as usize)
            },
            (ReadStage::Payload { .. }, ChannelEvent::Read(Ok(hint))) => {
                *self = ReadStage::Route;
                ChannelAction::Route(hint)
            },
            (ReadStage::Route, ChannelEvent::Routed(routed)) => {
                *self = ReadStage::Acknowledgement { routed };
                let mut ack: Vec<u8> = Vec::new();
                ack.push(0);
                assert(ack@ =~= acknowledgement());
                ChannelAction::Write(ack)
            },
            (ReadStage::Acknowledgement { routed }, ChannelEvent::Written(Ok(_))) => {
                ChannelAction::Done(routed)
            },
            (_, ChannelEvent::Written(Err(e))) => ChannelAction::Done(Err(e)),
            (_, ChannelEvent::Read(Err(e))) => ChannelAction::Done(Err(e)),
            _ => vstd::pervasive::unreached(),
        }
    }
}

/// The host's end of the hint channel.
#[derive(Debug, Clone, Copy)]
pub struct HintReader<C> {
    pub channel: C,
}

impl<C> HintReader<C> {
    /// A reader on the channel.
    pub fn new(channel: C) -> (r: Self)
        ensures
            r.channel == channel,
    {
        HintReader { channel }
    }

    /// Begins to read the next hint: its length comes first.
    pub fn next_hint<E>(&self) -> (r: (ReadStage<E>, ChannelAction<E>))
        ensures
            r.0 == ReadStage::<E>::Length,
            r.1@ == ChannelActionView::<E>::ReadExact(4),
    {
        (ReadStage::Length, ChannelAction::ReadExact(4))
    }
}

/// The two writes of a hint make up its frame.
pub proof fn law_writer_writes_the_frame<E>(hint: Seq<u8>)
    ensures
        ({
            let (first, prefix) = WriteStageView::start::<E>(hint);
            let (_, payload) = first.next(ChannelEventView::<E>::Written(Ok(())));
            &&& prefix matches ChannelActionView::Write(a)
            &&& payload matches ChannelActionView::Write(b)
            &&& a + b == frame(hint)
        }),
{
}

/// A reader that is handed the frame of a hint, in the two pieces that it asks for, routes that
/// hint. The length of the hint must fit in four bytes.
pub proof fn law_reader_routes_what_was_written<E>(hint: Seq<u8>)
    requires
        hint.len() < byte_range(4),
    ensures
        ({
            let prefix = ChannelEventView::<E>::Read(Ok(frame(hint).take(4)));
            let payload = ChannelEventView::<E>::Read(Ok(frame(hint).skip(4)));
            let (second, wants) = ReadStage::<E>::Length.next(prefix);
            &&& ReadStage::<E>::Length.accepts(prefix)
            &&& wants == ChannelActionView::<E>::ReadExact(hint.len())
            &&& second.accepts(payload)
            &&& second.next(payload) == (ReadStage::<E>::Route, ChannelActionView::<E>::Route(hint))
        }),
{
    lemma_be_bytes_len(hint.len(), 4);
    law_be_value_reads_be_bytes(hint.len(), 4);
    assert(byte_range(4) == 0x1_0000_0000) by {
        reveal_with_fuel(byte_range, 5);
    }
    assert(frame(hint).take(4) =~= be_bytes(hint.len(), 4));
    assert(frame(hint).skip(4) =~= hint);
}

/// A routed hint is acknowledged, whether routing succeeded or not, with exactly the bytes that
/// the writer waits for; then the reader reports what routing gave and the writer succeeds.
pub proof fn law_every_routed_hint_is_acknowledged<E>(routed: Result<(), E>)
    ensures
        ({
            let (waiting, ack) = ReadStage::<E>::Route.next(ChannelEventView::Routed(routed));
            &&& ack matches ChannelActionView::Write(bytes)
            &&& waiting.next(ChannelEventView::Written(Ok(()))) == (
                ReadStage::<E>::Done,
                ChannelActionView::Done(routed),
            )
            &&& WriteStageView::Acknowledgement.accepts(ChannelEventView::<E>::Read(Ok(bytes)))
            &&& WriteStageView::Acknowledgement.next(ChannelEventView::<E>::Read(Ok(bytes))).1
                == ChannelActionView::<E>::Done(Ok(()))
        }),
{
}

/// A frame is the hint with four bytes in front of it, which hold its length, cut off to what they
/// can hold.
pub proof fn law_frame_is_length_and_hint(hint: Seq<u8>)
    ensures
        frame(hint).len() == 4 + hint.len(),
        frame(hint).skip(4) == hint,
        be_value(frame(hint).take(4)) == hint.len() % 0x1_0000_0000,
{
    let length = hint.len() % 0x1_0000_0000;
    lemma_be_bytes_len(hint.len(), 4);
    assert(byte_range(4) == 0x1_0000_0000) by {
        reveal_with_fuel(byte_range, 5);
    }
    lemma_be_bytes_mod(hint.len(), 4);
    law_be_value_reads_be_bytes(length, 4);
    assert(frame(hint).take(4) =~= be_bytes(hint.len(), 4));
    assert(frame(hint).skip(4) =~= hint);
}

/// A writer writes four bytes that hold the length of the hint, then all of the hint, then reads a
/// single byte, and is done whatever that byte is.
pub proof fn law_writer_writes_length_and_hint<E>(hint: Seq<u8>, ack: u8)
    ensures
        ({
            let written = ChannelEventView::<E>::Written(Ok(()));
            let (first, prefix) = WriteStageView::start::<E>(hint);
            let (second, payload) = first.next(written);
            let (third, wants) = second.next(written);
            let read = ChannelEventView::<E>::Read(Ok(seq![ack]));
            let (done, result) = third.next(read);
            &&& prefix matches ChannelActionView::Write(length)
            &&& length.len() == 4
            &&& be_value(length) == hint.len() % 0x1_0000_0000
            &&& first.accepts(written)
            &&& payload == ChannelActionView::<E>::Write(hint)
            &&& second.accepts(written)
            &&& wants == ChannelActionView::<E>::ReadExact(1)
            &&& third.accepts(read)
            &&& result == ChannelActionView::<E>::Done(Ok(()))
            &&& forall|event: ChannelEventView<E>| !(#[trigger] done.accepts(event))
        }),
{
    law_frame_is_length_and_hint(hint);
    lemma_be_bytes_len(hint.len(), 4);
    assert(frame(hint).take(4) =~= be_bytes(hint.len(), 4));
}

/// A reader asks for as many bytes as the four that it has read say, the highest first, routes
/// whatever they are, and acknowledges the hint with a single zero byte once it has been routed.
pub proof fn law_reader_routes_as_many_bytes_as_announced<E>(
    prefix: Seq<u8>,
    hint: Seq<u8>,
    routed: Result<(), E>,
)
    requires
        prefix.len() == 4,
        hint.len() == ((prefix[0] * 256 + prefix[1]) * 256 + prefix[2]) * 256 + prefix[3],
    ensures
        ({
            let announced = ChannelEventView::<E>::Read(Ok(prefix));
            let (second, wants) = ReadStage::<E>::Length.next(announced);
            let payload = ChannelEventView::<E>::Read(Ok(hint));
            let (third, route) = second.next(payload);
            let reply = ChannelEventView::<E>::Routed(routed);
            let (fourth, ack) = third.next(reply);
            let written = ChannelEventView::<E>::Written(Ok(()));
            let (done, result) = fourth.next(written);
            &&& ReadStage::<E>::Length.accepts(announced)
            &&& wants == ChannelActionView::<E>::ReadExact(hint.len())
            &&& second.accepts(payload)
            &&& route == ChannelActionView::<E>::Route(hint)
            &&& third.accepts(reply)
            &&& ack == ChannelActionView::<E>::Write(seq![0u8])
            &&& fourth.accepts(written)
            &&& result == ChannelActionView::<E>::Done(routed)
            &&& done is Done
        }),
{
    reveal_with_fuel(be_value, 5);
    assert(prefix.drop_last() =~= seq![prefix[0], prefix[1], prefix[2]]);
    assert(prefix.drop_last().drop_last() =~= seq![prefix[0], prefix[1]]);
    assert(prefix.drop_last().drop_last().drop_last() =~= seq![prefix[0]]);
}

/// Whatever fails first on the channel is the result of the exchange, on both of its ends.
pub proof fn law_channel_failure_ends_the_exchange<E>(
    writer: WriteStageView,
    reader: ReadStage<E>,
    error: E,
)
    ensures
        ({
            let unwritten = ChannelEventView::<E>::Written(Err(error));
            let unread = ChannelEventView::<E>::Read(Err(error));
            let failed = ChannelActionView::<E>::Done(Err(error));
            &&& writer is Prefix || writer is Payload ==> writer.accepts(unwritten) && writer.next(
                unwritten,
            ) == (WriteStageView::Done, failed)
            &&& writer is Acknowledgement ==> writer.accepts(unread) && writer.next(unread) == (
                WriteStageView::Done,
                failed,
            )
            &&& reader is Length || reader is Payload ==> reader.accepts(unread) && reader.next(
                unread,
            ) == (ReadStage::<E>::Done, failed)
            &&& reader is Acknowledgement ==> reader.accepts(unwritten) && reader.next(unwritten) == (
                ReadStage::<E>::Done,
                failed,
            )
        }),
{
}

/// The contents of an action and of an event are what they hold, each as it is.
pub proof fn law_contents_of_actions_and_events<E>(action: ChannelAction<E>, event: ChannelEvent<E>)
    ensures
        action matches ChannelAction::Write(bytes) ==> action@ == ChannelActionView::<E>::Write(
            bytes@,
        ),
        action matches ChannelAction::ReadExact(n) ==> action@ == ChannelActionView::<E>::ReadExact(
            n as nat,
        ),
        action matches ChannelAction::Route(hint) ==> action@ == ChannelActionView::<E>::Route(hint@),
        action matches ChannelAction::Done(result) ==> action@ == ChannelActionView::Done(result),
        event matches ChannelEvent::Written(result) ==> event@ == ChannelEventView::Written(result),
        event matches ChannelEvent::Read(Ok(bytes)) ==> event@ == ChannelEventView::<E>::Read(
            Ok(bytes@),
        ),
        event matches ChannelEvent::Read(Err(e)) ==> event@ == ChannelEventView::Read(Err(e)),
        event matches ChannelEvent::Routed(result) ==> event@ == ChannelEventView::Routed(result),
{
}

} // verus!
