//! Transactions, the payload attributes that carry them and the blocks that hold them.

use crate::header::{Header, HeaderView};
use crate::primitives::{bytes_of, copy_all, copy_bytes, opt_bytes, Address, B256};
use alloy_eips::eip2718::Decodable2718;
use alloy_eips::eip4895::Withdrawal as AlloyWithdrawal;
use alloy_primitives::FixedBytes;
use alloy_rlp::Decodable;
use op_alloy_consensus::OpTxEnvelope;
use op_alloy_rpc_types_engine::OpPayloadAttributes as EngineAttributes;
use vstd::prelude::*;

verus! {

/// A decoded transaction, carried as it comes.
#[verifier::external_type_specification]
#[verifier::external_body]
pub struct ExOpTxEnvelope(OpTxEnvelope);

/// The type byte of a deposit transaction.
pub const DEPOSIT_TX_TYPE: u8 = 0x7E;

/// A validator withdrawal.
#[derive(Clone, Copy, Debug, PartialEq, Eq)]
pub struct Withdrawal {
    pub index: u64,
    pub validator_index: u64,
    pub address: Address,
    pub amount: u64,
}

/// The attributes that an L2 block is built from.
#[derive(Clone, Debug, PartialEq, Eq)]
pub struct OpPayloadAttributes {
    pub timestamp: u64,
    pub prev_randao: B256,
    pub suggested_fee_recipient: Address,
    pub withdrawals: Option<Vec<Withdrawal>>,
    pub parent_beacon_block_root: Option<B256>,
    pub transactions: Option<Vec<Vec<u8>>>,
    pub no_tx_pool: Option<bool>,
    pub gas_limit: Option<u64>,
    pub eip_1559_params: Option<[u8; 8]>,
    pub min_base_fee: Option<u64>,
}

/// The contents of [`OpPayloadAttributes`].
#[verifier::ext_equal]
pub struct AttributesView {
    pub timestamp: u64,
    pub prev_randao: Seq<u8>,
    pub suggested_fee_recipient: Seq<u8>,
    pub withdrawals: Option<Seq<Withdrawal>>,
    pub parent_beacon_block_root: Option<Seq<u8>>,
    pub transactions: Option<Seq<Seq<u8>>>,
    pub no_tx_pool: Option<bool>,
    pub gas_limit: Option<u64>,
    pub eip_1559_params: Option<[u8; 8]>,
    pub min_base_fee: Option<u64>,
}

/// The bytes of an optional list of byte strings.
pub open spec fn opt_bytes_of(items: Option<Vec<Vec<u8>>>) -> Option<Seq<Seq<u8>>> {
    match items {
        Some(txs) => Some(bytes_of(txs@)),
        None => None,
    }
}

/// The members of an optional list of withdrawals.
pub open spec fn opt_withdrawals(withdrawals: Option<Vec<Withdrawal>>) -> Option<Seq<Withdrawal>> {
    match withdrawals {
        Some(w) => Some(w@),
        None => None,
    }
}

impl View for OpPayloadAttributes {
    type V = AttributesView;

    open spec fn view(&self) -> AttributesView {
        AttributesView {
            timestamp: self.timestamp,
            prev_randao: self.prev_randao@,
            suggested_fee_recipient: self.suggested_fee_recipient@,
            withdrawals: opt_withdrawals(self.withdrawals),
            parent_beacon_block_root: opt_bytes(self.parent_beacon_block_root),
            transactions: opt_bytes_of(self.transactions),
            no_tx_pool: self.no_tx_pool,
            gas_limit: self.gas_limit,
            eip_1559_params: self.eip_1559_params,
            min_base_fee: self.min_base_fee,
        }
    }
}

impl AttributesView {
    /// The transactions, none if the field is absent.
    pub open spec fn tx_list(self) -> Seq<Seq<u8>> {
        match self.transactions {
            Some(txs) => txs,
            None => Seq::empty(),
        }
    }

    /// The same attributes with the deposit transactions only.
    pub open spec fn deposits_only(self) -> AttributesView {
        AttributesView {
            transactions: match self.transactions {
                Some(txs) => Some(deposits(txs)),
                None => None,
            },
            ..self
        }
    }
}

/// Whether a raw transaction is a deposit: its first byte is the deposit type.
pub open spec fn is_deposit(tx: Seq<u8>) -> bool {
    tx.len() > 0 && tx[0] == DEPOSIT_TX_TYPE
}

/// The deposits among raw transactions, in their order.
pub open spec fn deposits(txs: Seq<Seq<u8>>) -> Seq<Seq<u8>> {
    txs.filter(|tx: Seq<u8>| is_deposit(tx))
}

impl OpPayloadAttributes {
    /// A copy of the attributes.
    pub fn copy(&self) -> (r: OpPayloadAttributes)
        ensures
            r@ == self@,
    {
        let withdrawals = match &self.withdrawals {
            Some(w) => Some(vstd::slice::slice_to_vec(w.as_slice())),
            None => None,
        };
        let transactions = match &self.transactions {
            Some(txs) => Some(copy_all(txs)),
            None => None,
        };
        OpPayloadAttributes {
            timestamp: self.timestamp,
            prev_randao: self.prev_randao,
            suggested_fee_recipient: self.suggested_fee_recipient,
            withdrawals,
            parent_beacon_block_root: self.parent_beacon_block_root,
            transactions,
            no_tx_pool: self.no_tx_pool,
            gas_limit: self.gas_limit,
            eip_1559_params: self.eip_1559_params,
            min_base_fee: self.min_base_fee,
        }
    }

    /// Strips every transaction that is not a deposit.
    pub fn strip_to_deposits(&mut self)
        ensures
            final(self)@ == old(self)@.deposits_only(),
    {
        match self.transactions.take() {
            Some(txs) => {
                self.transactions = Some(retain_deposits(&txs));
            },
            None => {},
        }
    }
}

/// The name of the outcome of serialising payload attributes: their JSON form, or what went wrong.
pub uninterp spec fn attributes_json(attributes: AttributesView) -> Result<Seq<u8>, Seq<char>>;

/// The bytes of the outcome of serialising, or the characters of what went wrong.
pub open spec fn json_view(r: Result<Vec<u8>, String>) -> Result<Seq<u8>, Seq<char>> {
    match r {
        Ok(bytes) => Ok(bytes@),
        Err(e) => Err(e@),
    }
}

/// The JSON form of payload attributes, by `serde_json::to_vec` of the
/// `op_alloy_rpc_types_engine::OpPayloadAttributes` with the same fields; an error comes as its text.
///
/// Claimed of the outside function: the outcome is a function of the contents of the attributes.
#[verifier::external_body]
pub(crate) fn encode_attributes(attributes: OpPayloadAttributes) -> (r: Result<Vec<u8>, String>)
    ensures
        json_view(r) == attributes_json(attributes@),
{
    let OpPayloadAttributes { timestamp, prev_randao, suggested_fee_recipient, withdrawals, parent_beacon_block_root, transactions, no_tx_pool, gas_limit, eip_1559_params, min_base_fee } = attributes;
    let mut r = EngineAttributes {
        transactions: transactions.map(|all| all.into_iter().map(Into::into).collect()),
        no_tx_pool, gas_limit, eip_1559_params: eip_1559_params.map(FixedBytes), min_base_fee, ..Default::default()
    };
    let p = &mut r.payload_attributes;
    p.timestamp = timestamp;
    p.prev_randao = FixedBytes(prev_randao);
    p.suggested_fee_recipient = suggested_fee_recipient.into();
    p.withdrawals = withdrawals.map(|all| all.into_iter().map(|Withdrawal { index, validator_index, address, amount }|
        AlloyWithdrawal { index, validator_index, address: address.into(), amount }
    ).collect());
    p.parent_beacon_block_root = parent_beacon_block_root.map(FixedBytes);
    serde_json::to_vec(&r).map_err(|e| e.to_string())
}

/// The deposits among raw transactions, in their order.
pub fn retain_deposits(txs: &Vec<Vec<u8>>) -> (r: Vec<Vec<u8>>)
    ensures
        bytes_of(r@) == deposits(bytes_of(txs@)),
        forall|i: int| 0 <= i < r@.len() ==> (#[trigger] r@[i])@.len() > 0 && r@[i]@[0] == 0x7E,
{
    let mut r: Vec<Vec<u8>> = Vec::new();
    let ghost all = bytes_of(txs@);
    let ghost keep = |tx: Seq<u8>| is_deposit(tx);
    proof {
        reveal(Seq::filter);
        assert(bytes_of(r@) =~= all.take(0).filter(keep));
    }
    for i in 0..txs.len()
        invariant
            all == bytes_of(txs@),
            keep == (|tx: Seq<u8>| is_deposit(tx)),
            bytes_of(r@) == all.take(i as int).filter(keep),
            forall|j: int| 0 <= j < r@.len() ==> (#[trigger] r@[j])@.len() > 0 && r@[j]@[0] == 0x7E,
    {
        let ghost before = r@;
        proof {
            reveal(Seq::filter);
            assert(all.take(i + 1).drop_last() =~= all.take(i as int));
            assert(all.take(i + 1).last() == txs@[i as int]@);
        }
        if txs[i].len() > 0 && txs[i][0] == DEPOSIT_TX_TYPE {
            r.push(copy_bytes(&txs[i]));
            assert(bytes_of(r@) =~= bytes_of(before).push(txs@[i as int]@));
        }
    }
    assert(all.take(txs@.len() as int) =~= all);
    r
}

/// Stripping to deposits keeps deposits only, and a second time changes nothing.
pub proof fn law_deposits_are_deposits(txs: Seq<Seq<u8>>)
    ensures
        forall|i: int| 0 <= i < deposits(txs).len() ==> is_deposit(#[trigger] deposits(txs)[i]),
        deposits(deposits(txs)) == deposits(txs),
        (forall|i: int| 0 <= i < txs.len() ==> is_deposit(#[trigger] txs[i])) ==> deposits(txs) == txs,
    decreases txs.len(),
{
    reveal(Seq::filter);
    let keep = |tx: Seq<u8>| is_deposit(tx);
    if txs.len() > 0 {
        let shorter = txs.drop_last();
        law_deposits_are_deposits(shorter);
        if is_deposit(txs.last()) {
            let kept = deposits(txs);
            assert(kept == deposits(shorter).push(txs.last()));
            assert(kept.drop_last() =~= deposits(shorter));
            assert(kept.last() == txs.last());
        }
        if forall|i: int| 0 <= i < txs.len() ==> is_deposit(#[trigger] txs[i]) {
            assert(is_deposit(txs[txs.len() - 1]));
            assert forall|i: int| 0 <= i < shorter.len() implies is_deposit(#[trigger] shorter[i]) by {
                assert(shorter[i] == txs[i]);
            }
            assert(deposits(txs) =~= txs);
        }
    } else {
        assert(deposits(txs) =~= txs);
    }
}

/// The values of a list of outcomes, or the first error among them.
pub open spec fn collect<T, E>(outcomes: Seq<Result<T, E>>) -> Result<Seq<T>, E>
    decreases outcomes.len(),
{
    if outcomes.len() == 0 {
        Ok(Seq::empty())
    } else {
        match (collect(outcomes.drop_last()), outcomes.last()) {
            (Err(e), _) => Err(e),
            (Ok(_), Err(e)) => Err(e),
            (Ok(values), Ok(value)) => Ok(values.push(value)),
        }
    }
}

/// Collecting succeeds exactly if every outcome is a success, and then keeps every value at its
/// place; otherwise it gives the first error.
pub proof fn law_collect<T, E>(outcomes: Seq<Result<T, E>>)
    ensures
        collect(outcomes) is Ok <==> forall|i: int|
            0 <= i < outcomes.len() ==> (#[trigger] outcomes[i]) is Ok,
        collect(outcomes) matches Ok(values) ==> values.len() == outcomes.len() && forall|i: int|
            0 <= i < values.len() ==> outcomes[i] == Ok::<T, E>(#[trigger] values[i]),
        collect(outcomes) matches Err(e) ==> exists|i: int|
            0 <= i < outcomes.len() && (#[trigger] outcomes[i]) == Err::<T, E>(e) && forall|j: int|
                0 <= j < i ==> (#[trigger] outcomes[j]) is Ok,
    decreases outcomes.len(),
{
    if outcomes.len() > 0 {
        let shorter = outcomes.drop_last();
        law_collect(shorter);
        assert forall|i: int| 0 <= i < shorter.len() implies shorter[i] == #[trigger] outcomes[i] by {}
        match collect(shorter) {
            Err(e) => {
                let i = choose|i: int|
                    0 <= i < shorter.len() && (#[trigger] shorter[i]) == Err::<T, E>(e)
                        && forall|j: int| 0 <= j < i ==> (#[trigger] shorter[j]) is Ok;
                assert(outcomes[i] == Err::<T, E>(e));
                assert forall|j: int| 0 <= j < i implies (#[trigger] outcomes[j]) is Ok by {
                    assert(shorter[j] is Ok);
                }
            },
            Ok(values) => {
                let last = outcomes.len() - 1;
                assert forall|j: int| 0 <= j < last implies (#[trigger] outcomes[j]) is Ok by {
                    assert(shorter[j] is Ok);
                }
                assert(outcomes[last] == outcomes.last());
                if let Ok(value) = outcomes.last() {
                    assert forall|i: int| 0 <= i < values.push(value).len() implies outcomes[i] == Ok::<
                        T,
                        E,
                    >(#[trigger] values.push(value)[i]) by {
                        if i < last {
                            assert(shorter[i] == Ok::<T, E>(values[i]));
                        }
                    }
                }
            },
        }
    }
}

/// The first error stays the first error when more outcomes follow.
proof fn lemma_collect_stops<T, E>(outcomes: Seq<Result<T, E>>, n: int)
    requires
        0 <= n <= outcomes.len(),
        collect(outcomes.take(n)) is Err,
    ensures
        collect(outcomes) == collect(outcomes.take(n)),
    decreases outcomes.len() - n,
{
    if n < outcomes.len() {
        assert(outcomes.take(n + 1).drop_last() =~= outcomes.take(n));
        lemma_collect_stops(outcomes, n + 1);
    } else {
        assert(outcomes.take(n) =~= outcomes);
    }
}

/// The name of the outcome of decoding a transaction in its network form.
pub uninterp spec fn decoded_tx(bytes: Seq<u8>) -> Result<OpTxEnvelope, alloy_rlp::Error>;

/// The name of the outcome of decoding a transaction in its EIP-2718 form.
pub uninterp spec fn decoded_tx_2718(bytes: Seq<u8>) -> Result<OpTxEnvelope, alloy_rlp::Error>;

/// Decodes a transaction from the start of `bytes`, by the `alloy_rlp::Decodable` impl of
/// `op_alloy_consensus::OpTxEnvelope`.
///
/// Claimed of the outside function: the outcome, error included, is a function of the bytes.
#[verifier::external_body]
pub(crate) fn decode_tx(bytes: &Vec<u8>) -> (r: Result<OpTxEnvelope, alloy_rlp::Error>)
    ensures
        r == decoded_tx(bytes@),
{
    OpTxEnvelope::decode(&mut bytes.as_slice())
}

/// Decodes a transaction from the start of `bytes`, by the `alloy_eips::Decodable2718` impl of
/// `op_alloy_consensus::OpTxEnvelope`, and turns the error into an RLP error as its `From` does.
///
/// Claimed of the outside function: the outcome, error included, is a function of the bytes.
#[verifier::external_body]
pub(crate) fn decode_tx_2718(bytes: &Vec<u8>) -> (r: Result<OpTxEnvelope, alloy_rlp::Error>)
    ensures
        r == decoded_tx_2718(bytes@),
{
    OpTxEnvelope::decode_2718(&mut bytes.as_slice()).map_err(Into::into)
}

/// How a transaction is encoded.
#[derive(Clone, Copy, Debug, PartialEq, Eq)]
pub enum TxForm {
    /// As in a payload: its network form.
    Network,
    /// As in a leaf of a transactions trie: its EIP-2718 form.
    Typed,
}

impl TxForm {
    /// What decoding a transaction in this form gives.
    pub open spec fn decoded(self, bytes: Seq<u8>) -> Result<OpTxEnvelope, alloy_rlp::Error> {
        match self {
            TxForm::Network => decoded_tx(bytes),
            TxForm::Typed => decoded_tx_2718(bytes),
        }
    }

    /// What decoding each raw transaction in this form gives.
    pub open spec fn outcomes(self, txs: Seq<Seq<u8>>) -> Seq<
        Result<OpTxEnvelope, alloy_rlp::Error>,
    > {
        txs.map_values(|tx: Seq<u8>| self.decoded(tx))
    }

    /// Decodes a transaction in this form from the start of `bytes`.
    fn decode(self, bytes: &Vec<u8>) -> (r: Result<OpTxEnvelope, alloy_rlp::Error>)
        ensures
            r == self.decoded(bytes@),
    {
        match self {
            TxForm::Network => decode_tx(bytes),
            TxForm::Typed => decode_tx_2718(bytes),
        }
    }

    /// Decodes raw transactions in this form, stopping at the first that does not decode.
    fn decode_all(self, txs: &Vec<Vec<u8>>) -> (r: Result<Vec<OpTxEnvelope>, alloy_rlp::Error>)
        ensures
            tx_result(r) == collect(self.outcomes(bytes_of(txs@))),
    {
        let mut decoded: Vec<OpTxEnvelope> = Vec::new();
        let ghost outcomes = self.outcomes(bytes_of(txs@));
        assert(outcomes.take(0) =~= Seq::empty());
        for i in 0..txs.len()
            invariant
                outcomes == self.outcomes(bytes_of(txs@)),
                collect(outcomes.take(i as int)) == Ok::<_, alloy_rlp::Error>(decoded@),
        {
            assert(outcomes.take(i + 1).drop_last() =~= outcomes.take(i as int));
            match self.decode(&txs[i]) {
                Ok(tx) => decoded.push(tx),
                Err(e) => {
                    proof {
                        lemma_collect_stops(outcomes, i + 1);
                    }
                    return Err(e);
                },
            }
        }
        assert(outcomes.take(txs@.len() as int) =~= outcomes);
        Ok(decoded)
    }
}

/// What decoding each raw transaction in its network form gives.
pub open spec fn network_outcomes(txs: Seq<Seq<u8>>) -> Seq<Result<OpTxEnvelope, alloy_rlp::Error>> {
    TxForm::Network.outcomes(txs)
}

/// What decoding each raw transaction in its EIP-2718 form gives.
pub open spec fn trie_outcomes(txs: Seq<Seq<u8>>) -> Seq<Result<OpTxEnvelope, alloy_rlp::Error>> {
    TxForm::Typed.outcomes(txs)
}

/// The view of a list of decoded transactions, or of the error.
pub open spec fn tx_result(r: Result<Vec<OpTxEnvelope>, alloy_rlp::Error>) -> Result<
    Seq<OpTxEnvelope>,
    alloy_rlp::Error,
> {
    match r {
        Ok(txs) => Ok(txs@),
        Err(e) => Err(e),
    }
}

/// Decodes the raw transactions of a payload, stopping at the first that does not decode.
pub fn decode_transactions(txs: &Vec<Vec<u8>>) -> (r: Result<Vec<OpTxEnvelope>, alloy_rlp::Error>)
    ensures
        tx_result(r) == collect(network_outcomes(bytes_of(txs@))),
{
    TxForm::Network.decode_all(txs)
}

/// Decodes the leaves of a transactions trie, stopping at the first that does not decode.
pub fn decode_trie_transactions(txs: &Vec<Vec<u8>>) -> (r: Result<
    Vec<OpTxEnvelope>,
    alloy_rlp::Error,
>)
    ensures
        tx_result(r) == collect(trie_outcomes(bytes_of(txs@))),
{
    TxForm::Typed.decode_all(txs)
}

/// A block: its header, its transactions and, from Canyon on, its withdrawals.
///
/// An L2 block has no ommers.
#[derive(Clone, Debug, PartialEq, Eq)]
pub struct OpBlock {
    pub header: Header,
    pub transactions: Vec<OpTxEnvelope>,
    pub withdrawals: Option<Vec<Withdrawal>>,
}

/// The contents of an [`OpBlock`].
#[verifier::ext_equal]
pub struct BlockView {
    pub header: HeaderView,
    pub transactions: Seq<OpTxEnvelope>,
    pub withdrawals: Option<Seq<Withdrawal>>,
}

impl View for OpBlock {
    type V = BlockView;

    open spec fn view(&self) -> BlockView {
        BlockView {
            header: self.header@,
            transactions: self.transactions@,
            withdrawals: opt_withdrawals(self.withdrawals),
        }
    }
}

/// Stripping is decided for each transaction by itself, by its first byte: one that starts with
/// 0x7E stays, any other goes, and what stays keeps its order.
pub proof fn law_stripping_keeps_what_starts_with_the_deposit_type(
    before: Seq<Seq<u8>>,
    after: Seq<Seq<u8>>,
    tx: Seq<u8>,
)
    ensures
        deposits(Seq::empty()) == Seq::<Seq<u8>>::empty(),
        deposits(before + after) == deposits(before) + deposits(after),
        tx.len() > 0 && tx[0] == 0x7E ==> deposits(seq![tx]) == seq![tx],
        tx.len() == 0 || tx[0] != 0x7E ==> deposits(seq![tx]) == Seq::<Seq<u8>>::empty(),
    decreases after.len(),
{
    reveal(Seq::filter);
    let keep = |tx: Seq<u8>| is_deposit(tx);
    let none = Seq::<Seq<u8>>::empty();
    assert(deposits(none) =~= none);
    assert(seq![tx].drop_last() =~= none);
    assert(seq![tx].last() == tx);
    assert(deposits(seq![tx]) == if is_deposit(tx) {
        deposits(none).push(tx)
    } else {
        deposits(none)
    });
    assert(none.push(tx) =~= seq![tx]);
    if after.len() == 0 {
        assert(before + after =~= before);
        assert(deposits(before) + deposits(after) =~= deposits(before)) by {
            assert(after =~= none);
        }
    } else {
        let shorter = after.drop_last();
        law_stripping_keeps_what_starts_with_the_deposit_type(before, shorter, tx);
        assert((before + after).drop_last() =~= before + shorter);
        assert((before + after).last() == after.last());
        assert(deposits(before + after) =~= deposits(before) + deposits(after));
    }
}

/// Every transaction that stripping keeps starts with 0x7E and is one of those that were there; and
/// each that was there and starts with 0x7E is kept as often as it was there.
pub proof fn law_stripped_transactions_start_with_the_deposit_type(txs: Seq<Seq<u8>>)
    ensures
        forall|i: int|
            0 <= i < deposits(txs).len() ==> (#[trigger] deposits(txs)[i]).len() > 0
                && deposits(txs)[i][0] == 0x7E && txs.contains(deposits(txs)[i]),
        forall|i: int|
            0 <= i < txs.len() && (#[trigger] txs[i]).len() > 0 && txs[i][0] == 0x7E
                ==> deposits(txs).contains(txs[i]),
        forall|tx: Seq<u8>|
            tx.len() > 0 && tx[0] == 0x7E ==> deposits(txs).to_multiset().count(tx)
                == #[trigger] txs.to_multiset().count(tx),
    decreases txs.len(),
{
    broadcast use vstd::seq_lib::group_to_multiset_ensures;

    reveal(Seq::filter);
    let keep = |tx: Seq<u8>| is_deposit(tx);
    if txs.len() > 0 {
        let shorter = txs.drop_last();
        let last = txs.last();
        law_stripped_transactions_start_with_the_deposit_type(shorter);
        assert(shorter.push(last) =~= txs);
        assert(txs[txs.len() - 1] == last);
        let kept = deposits(txs);
        if is_deposit(last) {
            assert(kept == deposits(shorter).push(last));
            assert(kept[kept.len() - 1] == last);
        } else {
            assert(kept == deposits(shorter));
        }
        assert forall|i: int| 0 <= i < kept.len() implies (#[trigger] kept[i]).len() > 0 && kept[i][0]
            == 0x7E && txs.contains(kept[i]) by {
            if i < deposits(shorter).len() {
                assert(kept[i] == deposits(shorter)[i]);
                let j = choose|j: int| 0 <= j < shorter.len() && shorter[j] == kept[i];
                assert(txs[j] == kept[i]);
            }
        }
        assert forall|i: int|
            0 <= i < txs.len() && (#[trigger] txs[i]).len() > 0 && txs[i][0]
                == 0x7E implies kept.contains(txs[i]) by {
            if i < shorter.len() {
                assert(shorter[i] == txs[i]);
                let j = choose|j: int|
                    0 <= j < deposits(shorter).len() && deposits(shorter)[j] == txs[i];
                assert(kept[j] == txs[i]);
            }
        }
    }
}

/// Attributes that are stripped keep everything but their transactions; attributes without
/// transactions stay without.
pub proof fn law_stripping_changes_the_transactions_only(attributes: AttributesView)
    ensures
        ({
            let stripped = attributes.deposits_only();
            &&& stripped.timestamp == attributes.timestamp
            &&& stripped.prev_randao == attributes.prev_randao
            &&& stripped.suggested_fee_recipient == attributes.suggested_fee_recipient
            &&& stripped.withdrawals == attributes.withdrawals
            &&& stripped.parent_beacon_block_root == attributes.parent_beacon_block_root
            &&& stripped.no_tx_pool == attributes.no_tx_pool
            &&& stripped.gas_limit == attributes.gas_limit
            &&& stripped.eip_1559_params == attributes.eip_1559_params
            &&& stripped.min_base_fee == attributes.min_base_fee
            &&& attributes.transactions is None ==> stripped.transactions is None
            &&& attributes.transactions matches Some(txs) ==> stripped.transactions == Some(
                deposits(txs),
            )
        }),
{
}

/// The transactions of attributes are those that they hold, and none if they hold no list.
pub proof fn law_transactions_of_attributes(attributes: AttributesView, txs: Seq<Seq<u8>>)
    ensures
        attributes.transactions == Some(txs) ==> attributes.tx_list() == txs,
        attributes.transactions is None ==> attributes.tx_list().len() == 0,
{
}

/// Each raw transaction is decoded by itself and from all of its bytes: those of a payload in their
/// network form, the leaves of a trie in their EIP-2718 form.
pub proof fn law_each_transaction_is_decoded_in_its_form(txs: Seq<Seq<u8>>)
    ensures
        network_outcomes(txs).len() == txs.len(),
        trie_outcomes(txs).len() == txs.len(),
        forall|i: int|
            0 <= i < txs.len() ==> #[trigger] network_outcomes(txs)[i] == decoded_tx(txs[i]),
        forall|i: int|
            0 <= i < txs.len() ==> #[trigger] trie_outcomes(txs)[i] == decoded_tx_2718(txs[i]),
{
}

/// The contents of payload attributes and of a block are their fields, each as it is.
pub proof fn law_contents_of_attributes_and_blocks(attributes: OpPayloadAttributes, block: OpBlock)
    ensures
        attributes@.timestamp == attributes.timestamp,
        attributes@.prev_randao == attributes.prev_randao@,
        attributes@.suggested_fee_recipient == attributes.suggested_fee_recipient@,
        attributes@.withdrawals is Some <==> attributes.withdrawals is Some,
        attributes.withdrawals matches Some(w) ==> attributes@.withdrawals == Some(w@),
        attributes@.parent_beacon_block_root == opt_bytes(attributes.parent_beacon_block_root),
        attributes@.transactions is Some <==> attributes.transactions is Some,
        attributes.transactions matches Some(txs) ==> attributes@.transactions == Some(
            bytes_of(txs@),
        ),
        attributes@.no_tx_pool == attributes.no_tx_pool,
        attributes@.gas_limit == attributes.gas_limit,
        attributes@.eip_1559_params == attributes.eip_1559_params,
        attributes@.min_base_fee == attributes.min_base_fee,
        block@.header == block.header@,
        block@.transactions == block.transactions@,
        block@.withdrawals is Some <==> block.withdrawals is Some,
        block.withdrawals matches Some(w) ==> block@.withdrawals == Some(w@),
{
}

/// The contents of what decoding or serialising gave are those of its value, or its error.
pub proof fn law_contents_of_what_was_decoded(
    decoded: Result<Vec<OpTxEnvelope>, alloy_rlp::Error>,
    json: Result<Vec<u8>, String>,
)
    ensures
        decoded matches Ok(txs) ==> tx_result(decoded) == Ok::<_, alloy_rlp::Error>(txs@),
        decoded matches Err(e) ==> tx_result(decoded) == Err::<Seq<OpTxEnvelope>, _>(e),
        json matches Ok(bytes) ==> json_view(json) == Ok::<_, Seq<char>>(bytes@),
        json matches Err(e) ==> json_view(json) == Err::<Seq<u8>, _>(e@),
{
}

} // verus!
