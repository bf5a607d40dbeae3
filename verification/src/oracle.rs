//! Queries to the preimage oracle.
//!
//! Every query is a sequence of steps. Each step hands out one [`ProviderAction`] that the caller
//! performs with the oracle or the tries behind it, and takes back the [`ProviderEvent`] that came
//! of it.

use crate::header::{decode_header, decoded_header, result_view, Header, HeaderView};
use crate::primitives::{
    append_slice, be_bytes, be_value, byte_range, bytes_of, law_be_value_reads_be_bytes,
    lemma_be_bytes_len, u64_to_be_bytes, B256,
};
use vstd::prelude::*;

verus! {

/// What the host is asked to prepare.
#[derive(Clone, Copy, Debug, PartialEq, Eq)]
pub enum HintType {
    L2BlockHeader,
    L2Transactions,
    L2Code,
    L2StateNode,
    L2AccountProof,
    L2AccountStorageProof,
    L2PayloadWitness,
}

/// A request to the host to prepare preimages.
#[derive(Clone, Debug, PartialEq, Eq)]
pub struct Hint {
    pub hint_type: HintType,
    pub data: Vec<u8>,
}

/// The contents of a [`Hint`].
#[verifier::ext_equal]
pub struct HintView {
    pub hint_type: HintType,
    pub data: Seq<u8>,
}

impl View for Hint {
    type V = HintView;

    open spec fn view(&self) -> HintView {
        HintView { hint_type: self.hint_type, data: self.data@ }
    }
}

/// What goes wrong while the chain is queried.
///
/// `X` is the error of the oracle and of the tries behind it.
#[derive(Debug, PartialEq, Eq)]
pub enum OracleProviderError<X> {
    /// The block is past the safe head: the number asked for, then that of the safe head.
    BlockNumberPastHead(u64, u64),
    /// The oracle failed.
    Preimage(X),
    /// The transactions trie could not be walked.
    TrieWalker(X),
    /// The block does not hold the L2 block information.
    BlockInfo(X),
    /// The block does not hold the system configuration.
    OpBlockConversion(X),
    /// A preimage does not decode.
    Rlp(alloy_rlp::Error),
    /// The payload attributes could not be serialised, for the reason given.
    Serde(String),
}

/// What a query asks its caller to do next.
#[derive(Debug, PartialEq, Eq)]
pub enum ProviderAction<T, X> {
    /// Send the hint to the host.
    SendHint(Hint),
    /// Read the Keccak-256 preimage of the hash from the oracle.
    GetPreimage(B256),
    /// Look up the hash of the block with this number, or of a block on the way to it, in the
    /// EIP-2935 history contract as of the header.
    HistoryLookup { header: Header, block_number: u64 },
    /// Read the items of the ordered trie with this root, in their order.
    WalkTrie(B256),
    /// The query is over.
    Done(Result<T, OracleProviderError<X>>),
}

/// The contents of a [`ProviderAction`].
#[verifier::ext_equal]
pub enum ProviderActionView<T, X> {
    SendHint(HintView),
    GetPreimage(Seq<u8>),
    HistoryLookup { header: HeaderView, block_number: u64 },
    WalkTrie(Seq<u8>),
    Done(Result<T, OracleProviderError<X>>),
}

impl<T: View, X> View for ProviderAction<T, X> {
    type V = ProviderActionView<T::V, X>;

    open spec fn view(&self) -> ProviderActionView<T::V, X> {
        match *self {
            ProviderAction::SendHint(hint) => ProviderActionView::SendHint(hint@),
            ProviderAction::GetPreimage(hash) => ProviderActionView::GetPreimage(hash@),
            ProviderAction::HistoryLookup { header, block_number } => {
                ProviderActionView::HistoryLookup { header: header@, block_number }
            },
            ProviderAction::WalkTrie(root) => ProviderActionView::WalkTrie(root@),
            ProviderAction::Done(result) => ProviderActionView::Done(result_view(result)),
        }
    }
}

/// What came of the last action.
#[derive(Debug, PartialEq, Eq)]
pub enum ProviderEvent<X> {
    HintSent(Result<(), X>),
    Preimage(Result<Vec<u8>, X>),
    History(Result<B256, X>),
    TrieItems(Result<Vec<Vec<u8>>, X>),
}

/// The contents of a [`ProviderEvent`].
#[verifier::ext_equal]
pub enum ProviderEventView<X> {
    HintSent(Result<(), X>),
    Preimage(Result<Seq<u8>, X>),
    History(Result<Seq<u8>, X>),
    TrieItems(Result<Seq<Seq<u8>>, X>),
}

impl<X> View for ProviderEvent<X> {
    type V = ProviderEventView<X>;

    open spec fn view(&self) -> ProviderEventView<X> {
        match *self {
            ProviderEvent::HintSent(result) => ProviderEventView::HintSent(result),
            ProviderEvent::Preimage(Ok(bytes)) => ProviderEventView::Preimage(Ok(bytes@)),
            ProviderEvent::Preimage(Err(e)) => ProviderEventView::Preimage(Err(e)),
            ProviderEvent::History(Ok(hash)) => ProviderEventView::History(Ok(hash@)),
            ProviderEvent::History(Err(e)) => ProviderEventView::History(Err(e)),
            ProviderEvent::TrieItems(Ok(items)) => ProviderEventView::TrieItems(
                Ok(bytes_of(items@)),
            ),
            ProviderEvent::TrieItems(Err(e)) => ProviderEventView::TrieItems(Err(e)),
        }
    }
}

/// What every hint ends with: the chain ID in eight big-endian bytes, if one is set.
pub open spec fn chain_suffix(chain_id: Option<u64>) -> Seq<u8> {
    match chain_id {
        Some(id) => be_bytes(id as nat, 8),
        None => Seq::empty(),
    }
}

/// A hint with this data.
pub open spec fn hint_with(hint_type: HintType, data: Seq<u8>, chain_id: Option<u64>) -> HintView {
    HintView { hint_type, data: data + chain_suffix(chain_id) }
}

/// A hint with this data.
pub fn make_hint(hint_type: HintType, data: Vec<u8>, chain_id: Option<u64>) -> (r: Hint)
    ensures
        r@ == hint_with(hint_type, data@, chain_id),
{
    let mut data = data;
    if let Some(id) = chain_id {
        append_slice(&mut data, u64_to_be_bytes(id).as_slice());
    } else {
        assert(data@ + chain_suffix(chain_id) =~= data@);
    }
    Hint { hint_type, data }
}

/// A hint whose data is a hash.
pub fn hash_hint(hint_type: HintType, hash: &B256, chain_id: Option<u64>) -> (r: Hint)
    ensures
        r@ == hint_with(hint_type, hash@, chain_id),
{
    make_hint(hint_type, vstd::slice::slice_to_vec(hash.as_slice()), chain_id)
}

/// Where the reading of a preimage stands.
#[derive(Clone, Copy, Debug, PartialEq, Eq)]
pub enum PreimageStage {
    /// The hint is being sent.
    Hint,
    /// The preimage is being read.
    Preimage,
    /// The query is over.
    Finished,
}

/// Reading a preimage that the host is told of first.
#[derive(Clone, Copy, Debug, PartialEq, Eq)]
pub struct PreimageQuery {
    /// The hash whose preimage is read.
    pub hash: B256,
    pub stage: PreimageStage,
}

/// The contents of a [`PreimageQuery`].
#[verifier::ext_equal]
pub struct PreimageQueryView {
    pub hash: Seq<u8>,
    pub stage: PreimageStage,
}

impl View for PreimageQuery {
    type V = PreimageQueryView;

    open spec fn view(&self) -> PreimageQueryView {
        PreimageQueryView { hash: self.hash@, stage: self.stage }
    }
}

impl PreimageQueryView {
    /// The beginning of the query: the hint is sent.
    pub open spec fn start<T, X>(hint_type: HintType, hash: Seq<u8>, chain_id: Option<u64>) -> (
        PreimageQueryView,
        ProviderActionView<T, X>,
    ) {
        (
            PreimageQueryView { hash, stage: PreimageStage::Hint },
            ProviderActionView::SendHint(hint_with(hint_type, hash, chain_id)),
        )
    }

    /// Whether the query waits for this event.
    pub open spec fn accepts<X>(self, event: ProviderEventView<X>) -> bool {
        match self.stage {
            PreimageStage::Hint => event is HintSent,
            PreimageStage::Preimage => event is Preimage,
            PreimageStage::Finished => false,
        }
    }

    /// The query ends with this result.
    pub open spec fn finish<X>(self, result: Result<Seq<u8>, OracleProviderError<X>>) -> (
        PreimageQueryView,
        ProviderActionView<Seq<u8>, X>,
    ) {
        (
            PreimageQueryView { stage: PreimageStage::Finished, ..self },
            ProviderActionView::Done(result),
        )
    }

    /// After the hint the preimage is read; what the oracle gives is the result.
    pub open spec fn next<X>(self, event: ProviderEventView<X>) -> (
        PreimageQueryView,
        ProviderActionView<Seq<u8>, X>,
    ) {
        match event {
            ProviderEventView::HintSent(Ok(_)) => (
                PreimageQueryView { stage: PreimageStage::Preimage, ..self },
                ProviderActionView::GetPreimage(self.hash),
            ),
            ProviderEventView::HintSent(Err(e)) => self.finish(
                Err(OracleProviderError::Preimage(e)),
            ),
            ProviderEventView::Preimage(Ok(bytes)) => self.finish(Ok(bytes)),
            ProviderEventView::Preimage(Err(e)) => self.finish(
                Err(OracleProviderError::Preimage(e)),
            ),
            _ => vstd::pervasive::arbitrary(),
        }
    }
}

impl PreimageQuery {
    /// Begins the query: the hint is sent.
    pub fn start<T: View, X>(hint_type: HintType, hash: B256, chain_id: Option<u64>) -> (r: (
        PreimageQuery,
        ProviderAction<T, X>,
    ))
        ensures
            (r.0@, r.1@) == PreimageQueryView::start::<T::V, X>(hint_type, hash@, chain_id),
    {
        (
            PreimageQuery { hash, stage: PreimageStage::Hint },
            ProviderAction::SendHint(hash_hint(hint_type, &hash, chain_id)),
        )
    }

    /// Takes what came of the last action and gives the next one.
    pub fn step<X>(&mut self, event: ProviderEvent<X>) -> (action: ProviderAction<Vec<u8>, X>)
        requires
            old(self)@.accepts(event@),
        ensures
            (final(self)@, action@) == old(self)@.next(event@),
    {
        self.stage = PreimageStage::Finished;
        match event {
            ProviderEvent::HintSent(Ok(_)) => {
                self.stage = PreimageStage::Preimage;
                ProviderAction::GetPreimage(self.hash)
            },
            ProviderEvent::HintSent(Err(e)) => ProviderAction::Done(
                Err(OracleProviderError::Preimage(e)),
            ),
            ProviderEvent::Preimage(Ok(bytes)) => ProviderAction::Done(Ok(bytes)),
            ProviderEvent::Preimage(Err(e)) => ProviderAction::Done(
                Err(OracleProviderError::Preimage(e)),
            ),
            _ => vstd::pervasive::unreached(),
        }
    }
}

/// The header that a preimage holds.
pub open spec fn header_in<X>(bytes: Seq<u8>) -> Result<HeaderView, OracleProviderError<X>> {
    match decoded_header(bytes) {
        Ok(header) => Ok(header),
        Err(e) => Err(OracleProviderError::Rlp(e)),
    }
}

/// Decodes the header that a preimage holds.
pub fn header_from_preimage<X>(bytes: &Vec<u8>) -> (r: Result<Header, OracleProviderError<X>>)
    ensures
        result_view(r) == header_in::<X>(bytes@),
{
    match decode_header(bytes) {
        Ok(header) => Ok(header),
        Err(e) => Err(OracleProviderError::Rlp(e)),
    }
}

/// A query for a header: the turn of the query for its preimage, with the header decoded at the
/// end.
pub open spec fn header_turn<X>(turn: (PreimageQueryView, ProviderActionView<Seq<u8>, X>)) -> (
    PreimageQueryView,
    ProviderActionView<HeaderView, X>,
) {
    (
        turn.0,
        match turn.1 {
            ProviderActionView::GetPreimage(hash) => ProviderActionView::GetPreimage(hash),
            ProviderActionView::Done(Ok(bytes)) => ProviderActionView::Done(header_in::<X>(bytes)),
            ProviderActionView::Done(Err(e)) => ProviderActionView::Done(Err(e)),
            _ => vstd::pervasive::arbitrary(),
        },
    )
}

/// Takes what came of the last action of a query for a header and gives the next one.
pub fn header_step<X>(query: &mut PreimageQuery, event: ProviderEvent<X>) -> (action: ProviderAction<
    Header,
    X,
>)
    requires
        old(query)@.accepts(event@),
    ensures
        (final(query)@, action@) == header_turn(old(query)@.next(event@)),
{
    match query.step(event) {
        ProviderAction::GetPreimage(hash) => ProviderAction::GetPreimage(hash),
        ProviderAction::Done(Ok(bytes)) => ProviderAction::Done(header_from_preimage(&bytes)),
        ProviderAction::Done(Err(e)) => ProviderAction::Done(Err(e)),
        _ => vstd::pervasive::unreached(),
    }
}

/// What a query for a trie node asks its caller to do next. `N` is a decoded node.
#[derive(Debug, PartialEq, Eq)]
pub enum NodeAction<N, X> {
    /// Read the Keccak-256 preimage of the hash from the oracle.
    GetPreimage(B256),
    /// Decode a trie node from the bytes.
    DecodeNode(Vec<u8>),
    /// The query is over.
    Done(Result<N, OracleProviderError<X>>),
}

/// The contents of a [`NodeAction`].
#[verifier::ext_equal]
pub enum NodeActionView<N, X> {
    GetPreimage(Seq<u8>),
    DecodeNode(Seq<u8>),
    Done(Result<N, OracleProviderError<X>>),
}

impl<N, X> View for NodeAction<N, X> {
    type V = NodeActionView<N, X>;

    open spec fn view(&self) -> NodeActionView<N, X> {
        match *self {
            NodeAction::GetPreimage(hash) => NodeActionView::GetPreimage(hash@),
            NodeAction::DecodeNode(bytes) => NodeActionView::DecodeNode(bytes@),
            NodeAction::Done(result) => NodeActionView::Done(result),
        }
    }
}

/// What came of the last action.
#[derive(Debug, PartialEq, Eq)]
pub enum NodeEvent<N, X> {
    Preimage(Result<Vec<u8>, X>),
    Decoded(Result<N, alloy_rlp::Error>),
}

/// The contents of a [`NodeEvent`].
#[verifier::ext_equal]
pub enum NodeEventView<N, X> {
    Preimage(Result<Seq<u8>, X>),
    Decoded(Result<N, alloy_rlp::Error>),
}

impl<N, X> View for NodeEvent<N, X> {
    type V = NodeEventView<N, X>;

    open spec fn view(&self) -> NodeEventView<N, X> {
        match *self {
            NodeEvent::Preimage(result) => NodeEventView::Preimage(result_view(result)),
            NodeEvent::Decoded(result) => NodeEventView::Decoded(result),
        }
    }
}

/// Where a query for a trie node stands. No hint is sent: the host has been told of the node before.
#[derive(Clone, Copy, Debug, PartialEq, Eq)]
pub enum NodeQuery {
    /// Waits for the preimage.
    Preimage,
    /// Waits for the node.
    Decode,
    /// The query is over.
    Finished,
}

impl NodeQuery {
    /// Whether the query waits for this event.
    pub open spec fn accepts<N, X>(self, event: NodeEventView<N, X>) -> bool {
        match self {
            NodeQuery::Preimage => event is Preimage,
            NodeQuery::Decode => event is Decoded,
            NodeQuery::Finished => false,
        }
    }

    /// The preimage is decoded, and what that gives is the result.
    pub open spec fn next<N, X>(self, event: NodeEventView<N, X>) -> (NodeQuery, NodeActionView<N, X>) {
        match event {
            NodeEventView::Preimage(Ok(bytes)) => (
                NodeQuery::Decode,
                NodeActionView::DecodeNode(bytes),
            ),
            NodeEventView::Preimage(Err(e)) => (
                NodeQuery::Finished,
                NodeActionView::Done(Err(OracleProviderError::Preimage(e))),
            ),
            NodeEventView::Decoded(Ok(node)) => (
                NodeQuery::Finished,
                NodeActionView::Done(Ok(node)),
            ),
            NodeEventView::Decoded(Err(e)) => (
                NodeQuery::Finished,
                NodeActionView::Done(Err(OracleProviderError::Rlp(e))),
            ),
        }
    }

    /// Takes what came of the last action and gives the next one.
    pub fn step<N, X>(&mut self, event: NodeEvent<N, X>) -> (action: NodeAction<N, X>)
        requires
            old(self).accepts(event@),
        ensures
            (*final(self), action@) == old(self).next(event@),
    {
        match event {
            NodeEvent::Preimage(Ok(bytes)) => {
                *self = NodeQuery::Decode;
                NodeAction::DecodeNode(bytes)
            },
            NodeEvent::Preimage(Err(e)) => {
                *self = NodeQuery::Finished;
                NodeAction::Done(Err(OracleProviderError::Preimage(e)))
            },
            NodeEvent::Decoded(result) => {
                *self = NodeQuery::Finished;
                NodeAction::Done(
                    match result {
                        Ok(node) => Ok(node),
                        Err(e) => Err(OracleProviderError::Rlp(e)),
                    },
                )
            },
        }
    }
}

/// A hint holds all of its data, and behind it the chain ID in eight big-endian bytes, if one is
/// set, and nothing else.
pub proof fn law_hint_holds_its_data(hint_type: HintType, data: Seq<u8>, chain_id: Option<u64>)
    ensures
        ({
            let hint = hint_with(hint_type, data, chain_id);
            &&& hint.hint_type == hint_type
            &&& hint.data.take(data.len() as int) == data
            &&& chain_id is None ==> hint.data == data
            &&& chain_id matches Some(id) ==> hint.data.len() == data.len() + 8 && be_value(
                hint.data.skip(data.len() as int),
            ) == id
        }),
{
    let hint = hint_with(hint_type, data, chain_id);
    assert(hint.data.take(data.len() as int) =~= data);
    match chain_id {
        Some(id) => {
            lemma_be_bytes_len(id as nat, 8);
            assert(byte_range(8) == 0x1_0000_0000_0000_0000) by {
                reveal_with_fuel(byte_range, 9);
            }
            law_be_value_reads_be_bytes(id as nat, 8);
            assert(hint.data.skip(data.len() as int) =~= be_bytes(id as nat, 8));
        },
        None => {
            assert(hint.data =~= data);
        },
    }
}

/// Reading a preimage tells the host of the hash first, then asks the oracle for the preimage of
/// that same hash, and ends with all that the oracle gives for it.
pub proof fn law_preimage_is_hinted_read_and_handed_on<X>(
    hint_type: HintType,
    hash: Seq<u8>,
    chain_id: Option<u64>,
    bytes: Seq<u8>,
)
    ensures
        ({
            let (hinting, first) = PreimageQueryView::start::<Seq<u8>, X>(hint_type, hash, chain_id);
            let sent = ProviderEventView::<X>::HintSent(Ok(()));
            let (reading, second) = hinting.next(sent);
            let read = ProviderEventView::<X>::Preimage(Ok(bytes));
            let (done, third) = reading.next(read);
            &&& first matches ProviderActionView::SendHint(hint)
            &&& hint.hint_type == hint_type
            &&& hint.data.take(hash.len() as int) == hash
            &&& hint.data.len() == hash.len() + (if chain_id is Some {
                8int
            } else {
                0
            })
            &&& hinting.accepts(sent)
            &&& second == ProviderActionView::<Seq<u8>, X>::GetPreimage(hash)
            &&& reading.accepts(read)
            &&& third == ProviderActionView::<Seq<u8>, X>::Done(Ok(bytes))
            &&& forall|event: ProviderEventView<X>| !(#[trigger] done.accepts(event))
        }),
{
    law_hint_holds_its_data(hint_type, hash, chain_id);
}

/// Reading a preimage ends with the error of the oracle if the hint or the preimage fails.
pub proof fn law_preimage_query_hands_errors_on<X>(query: PreimageQueryView, error: X)
    ensures
        ({
            let unsent = ProviderEventView::<X>::HintSent(Err(error));
            let unread = ProviderEventView::<X>::Preimage(Err(error));
            let failed = ProviderActionView::<Seq<u8>, X>::Done(
                Err(OracleProviderError::Preimage(error)),
            );
            &&& query.stage is Hint ==> query.accepts(unsent)
            &&& query.stage is Preimage ==> query.accepts(unread)
            &&& query.accepts(unsent) ==> query.next(unsent).1 == failed
            &&& query.accepts(unread) ==> query.next(unread).1 == failed
        }),
{
}

/// A query for a header asks for the preimage as it is asked for, and ends with the header that all
/// of the preimage decodes to, with the error of the decoder, or with that of the oracle.
pub proof fn law_header_is_decoded_from_the_preimage<X>(
    query: PreimageQueryView,
    bytes: Seq<u8>,
    error: X,
)
    ensures
        query.stage is Hint ==> header_turn(query.next(ProviderEventView::<X>::HintSent(Ok(())))).1
            == ProviderActionView::<HeaderView, X>::GetPreimage(query.hash),
        query.stage is Hint ==> header_turn(
            query.next(ProviderEventView::<X>::HintSent(Err(error))),
        ).1 == ProviderActionView::<HeaderView, X>::Done(Err(OracleProviderError::Preimage(error))),
        query.stage is Preimage ==> header_turn(
            query.next(ProviderEventView::<X>::Preimage(Err(error))),
        ).1 == ProviderActionView::<HeaderView, X>::Done(Err(OracleProviderError::Preimage(error))),
        query.stage is Preimage ==> (decoded_header(bytes) matches Ok(header) ==> header_turn(
            query.next(ProviderEventView::<X>::Preimage(Ok(bytes))),
        ).1 == ProviderActionView::<HeaderView, X>::Done(Ok(header))),
        query.stage is Preimage ==> (decoded_header(bytes) matches Err(e) ==> header_turn(
            query.next(ProviderEventView::<X>::Preimage(Ok(bytes))),
        ).1 == ProviderActionView::<HeaderView, X>::Done(Err(OracleProviderError::Rlp(e)))),
        forall|event: ProviderEventView<X>|
            header_turn(#[trigger] query.next(event)).0 == query.next(event).0,
{
}

/// A trie node is decoded from all of the preimage that the oracle gives, whatever its length, and
/// the node that comes of it is the result. After the result the query waits for nothing.
pub proof fn law_node_is_decoded_from_the_whole_preimage<N, X>(bytes: Seq<u8>, node: N)
    ensures
        ({
            let read = NodeEventView::<N, X>::Preimage(Ok(bytes));
            let (decoding, first) = NodeQuery::Preimage.next(read);
            let decoded = NodeEventView::<N, X>::Decoded(Ok(node));
            let (done, second) = decoding.next(decoded);
            &&& NodeQuery::Preimage.accepts(read)
            &&& first == NodeActionView::<N, X>::DecodeNode(bytes)
            &&& decoding.accepts(decoded)
            &&& second == NodeActionView::<N, X>::Done(Ok(node))
            &&& forall|event: NodeEventView<N, X>| !(#[trigger] done.accepts(event))
        }),
{
}

/// A trie node that cannot be had ends the query with the error of the oracle, and one that does
/// not decode with that of the decoder.
pub proof fn law_node_query_hands_errors_on<N, X>(bytes: Seq<u8>, error: X, rlp: alloy_rlp::Error)
    ensures
        ({
            let unread = NodeEventView::<N, X>::Preimage(Err(error));
            let (decoding, _) = NodeQuery::Preimage.next(
                NodeEventView::<N, X>::Preimage(Ok(bytes)),
            );
            let undecoded = NodeEventView::<N, X>::Decoded(Err(rlp));
            &&& NodeQuery::Preimage.accepts(unread)
            &&& NodeQuery::Preimage.next(unread) == (
                NodeQuery::Finished,
                NodeActionView::<N, X>::Done(Err(OracleProviderError::Preimage(error))),
            )
            &&& decoding.accepts(undecoded)
            &&& decoding.next(undecoded) == (
                NodeQuery::Finished,
                NodeActionView::<N, X>::Done(Err(OracleProviderError::Rlp(rlp))),
            )
        }),
{
}

/// The contents of a hint and of an action are what they hold, each as it is.
pub proof fn law_contents_of_hints_and_actions<T: View, N, X>(
    hint: Hint,
    action: ProviderAction<T, X>,
    node: NodeAction<N, X>,
)
    ensures
        hint@.hint_type == hint.hint_type,
        hint@.data == hint.data@,
        action matches ProviderAction::SendHint(hint) ==> action@ == ProviderActionView::<
            T::V,
            X,
        >::SendHint(hint@),
        action matches ProviderAction::GetPreimage(hash) ==> action@ == ProviderActionView::<
            T::V,
            X,
        >::GetPreimage(hash@),
        action matches ProviderAction::HistoryLookup { header, block_number } ==> action@ == (
        ProviderActionView::<T::V, X>::HistoryLookup { header: header@, block_number }),
        action matches ProviderAction::WalkTrie(root) ==> action@ == ProviderActionView::<
            T::V,
            X,
        >::WalkTrie(root@),
        action matches ProviderAction::Done(Ok(value)) ==> action@ == ProviderActionView::<
            T::V,
            X,
        >::Done(Ok(value@)),
        action matches ProviderAction::Done(Err(e)) ==> action@ == ProviderActionView::<
            T::V,
            X,
        >::Done(Err(e)),
        node matches NodeAction::GetPreimage(hash) ==> node@ == NodeActionView::<N, X>::GetPreimage(
            hash@,
        ),
        node matches NodeAction::DecodeNode(bytes) ==> node@ == NodeActionView::<N, X>::DecodeNode(
            bytes@,
        ),
        node matches NodeAction::Done(result) ==> node@ == NodeActionView::<N, X>::Done(result),
{
}

/// The contents of an event are what came of the action, as it came.
pub proof fn law_contents_of_events<N, X>(event: ProviderEvent<X>, node: NodeEvent<N, X>)
    ensures
        event matches ProviderEvent::HintSent(result) ==> event@ == ProviderEventView::HintSent(
            result,
        ),
        event matches ProviderEvent::Preimage(Ok(bytes)) ==> event@ == ProviderEventView::<
            X,
        >::Preimage(Ok(bytes@)),
        event matches ProviderEvent::Preimage(Err(e)) ==> event@ == ProviderEventView::Preimage(
            Err(e),
        ),
        event matches ProviderEvent::History(Ok(hash)) ==> event@ == ProviderEventView::<X>::History(
            Ok(hash@),
        ),
        event matches ProviderEvent::History(Err(e)) ==> event@ == ProviderEventView::History(Err(e)),
        event matches ProviderEvent::TrieItems(Ok(items)) ==> event@ == ProviderEventView::<
            X,
        >::TrieItems(Ok(bytes_of(items@))),
        event matches ProviderEvent::TrieItems(Err(e)) ==> event@ == ProviderEventView::TrieItems(
            Err(e),
        ),
        node matches NodeEvent::Preimage(Ok(bytes)) ==> node@ == NodeEventView::<N, X>::Preimage(
            Ok(bytes@),
        ),
        node matches NodeEvent::Preimage(Err(e)) ==> node@ == NodeEventView::<N, X>::Preimage(Err(e)),
        node matches NodeEvent::Decoded(result) ==> node@ == NodeEventView::<N, X>::Decoded(result),
{
}

} // verus!
