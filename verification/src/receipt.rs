//! Transaction receipts, their logs and the commitments to them.

use crate::config::{canyon, regolith, RollupConfig};
use crate::primitives::{bytes_of, keccak256_digest, Address, Bloom, B256};
use alloy_consensus::{Receipt as AlloyReceipt, ReceiptWithBloom};
use alloy_eips::eip2718::Encodable2718;
use alloy_primitives::{FixedBytes, Log as AlloyLog};
use op_alloy_consensus::{OpDepositReceipt, OpReceiptEnvelope as AlloyEnvelope};
use vstd::prelude::*;

verus! {

/// The root hash of an empty trie.
pub const EMPTY_ROOT_HASH: B256 = [
    0x56, 0xe8, 0x1f, 0x17, 0x1b, 0xcc, 0x55, 0xa6, 0xff, 0x83, 0x45, 0xe6, 0x92, 0xc0, 0xf8, 0x6e,
    0x5b, 0x48, 0xe0, 0x1b, 0x99, 0x6c, 0xad, 0xc0, 0x01, 0x62, 0x2f, 0xb5, 0xe3, 0x63, 0xb4, 0x21,
];

/// A log that a contract emitted.
#[derive(Clone, Debug, PartialEq, Eq)]
pub struct Log {
    pub address: Address,
    pub topics: Vec<B256>,
    pub data: Vec<u8>,
}

/// The contents of a [`Log`].
#[verifier::ext_equal]
pub struct LogView {
    pub address: Seq<u8>,
    pub topics: Seq<Seq<u8>>,
    pub data: Seq<u8>,
}

impl View for Log {
    type V = LogView;

    open spec fn view(&self) -> LogView {
        LogView {
            address: self.address@,
            topics: self.topics@.map_values(|topic: B256| topic@),
            data: self.data@,
        }
    }
}

/// The outcome of a transaction: whether it succeeded or, before EIP-658, the state root after it.
#[derive(Clone, Copy, Debug, PartialEq, Eq)]
pub enum ReceiptStatus {
    Eip658(bool),
    PostState(B256),
}

/// The type of the transaction that a receipt is for, with what only a deposit has.
#[derive(Clone, Copy, Debug, PartialEq, Eq)]
pub enum ReceiptKind {
    Legacy,
    Eip2930,
    Eip1559,
    Eip7702,
    Deposit { deposit_nonce: Option<u64>, deposit_receipt_version: Option<u64> },
}

/// What every receipt holds, whatever the type of its transaction.
#[derive(Clone, Debug, PartialEq, Eq)]
pub struct Receipt {
    pub status: ReceiptStatus,
    pub cumulative_gas_used: u64,
    pub logs: Vec<Log>,
    pub logs_bloom: Bloom,
}

/// The contents of a [`Receipt`].
#[verifier::ext_equal]
pub struct ReceiptView {
    pub status: ReceiptStatus,
    pub cumulative_gas_used: u64,
    pub logs: Seq<LogView>,
    pub logs_bloom: Seq<u8>,
}

impl View for Receipt {
    type V = ReceiptView;

    open spec fn view(&self) -> ReceiptView {
        ReceiptView {
            status: self.status,
            cumulative_gas_used: self.cumulative_gas_used,
            logs: self.logs@.map_values(|log: Log| log@),
            logs_bloom: self.logs_bloom@,
        }
    }
}

/// A receipt together with the type of its transaction.
#[derive(Clone, Debug, PartialEq, Eq)]
pub struct OpReceiptEnvelope {
    pub kind: ReceiptKind,
    pub receipt: Receipt,
}

/// The contents of an [`OpReceiptEnvelope`].
#[verifier::ext_equal]
pub struct EnvelopeView {
    pub kind: ReceiptKind,
    pub receipt: ReceiptView,
}

impl View for OpReceiptEnvelope {
    type V = EnvelopeView;

    open spec fn view(&self) -> EnvelopeView {
        EnvelopeView { kind: self.kind, receipt: self.receipt@ }
    }
}

/// The contents of a list of receipts.
pub open spec fn envelopes(receipts: Seq<OpReceiptEnvelope>) -> Seq<EnvelopeView> {
    receipts.map_values(|receipt: OpReceiptEnvelope| receipt@)
}

/// The name of the EIP-2718 encoding of a receipt.
pub uninterp spec fn receipt_encoding(kind: ReceiptKind, receipt: ReceiptView) -> Seq<u8>;

/// The name of the root hash of the trie that maps each position of a list to the item there.
pub uninterp spec fn ordered_trie_root(items: Seq<Seq<u8>>) -> Seq<u8>;

/// The place among 2048 bits that two bytes of a digest point to: the lowest eleven bits of their
/// big-endian value.
pub open spec fn bit_place(digest: Seq<u8>, i: int) -> int {
    (256 * digest[i] + digest[i + 1]) % 2048
}

/// Whether an item sets this bit: each of the first three pairs of bytes of its digest sets one.
pub open spec fn item_sets(item: Seq<u8>, bit: int) -> bool {
    let digest = keccak256_digest(item);
    bit == bit_place(digest, 0) || bit == bit_place(digest, 2) || bit == bit_place(digest, 4)
}

/// Whether a log sets this bit: its items are its address and its topics.
pub open spec fn log_sets(log: LogView, bit: int) -> bool {
    item_sets(log.address, bit) || exists|j: int|
        0 <= j < log.topics.len() && item_sets(#[trigger] log.topics[j], bit)
}

/// A power of two if one of the logs sets the bit, otherwise nothing.
pub open spec fn bit_value(logs: Seq<LogView>, bit: int, value: int) -> int {
    if exists|i: int| 0 <= i < logs.len() && log_sets(#[trigger] logs[i], bit) {
        value
    } else {
        0
    }
}

/// The byte of the filter that holds eight bits from this one on, the lowest first.
pub open spec fn bloom_byte(logs: Seq<LogView>, bit: int) -> u8 {
    (bit_value(logs, bit, 1) + bit_value(logs, bit + 1, 2) + bit_value(logs, bit + 2, 4)
        + bit_value(logs, bit + 3, 8) + bit_value(logs, bit + 4, 16) + bit_value(logs, bit + 5, 32)
        + bit_value(logs, bit + 6, 64) + bit_value(logs, bit + 7, 128)) as u8
}

/// The bloom filter of a list of logs: its 2048 bits, with the byte of the highest ones first.
pub open spec fn bloom_of_logs(logs: Seq<LogView>) -> Seq<u8> {
    Seq::new(256, |k: int| bloom_byte(logs, 8 * (255 - k)))
}

/// The EIP-2718 encoding of a receipt, by the `alloy_eips::Encodable2718` impl of
/// `op_alloy_consensus::OpReceiptEnvelope`.
///
/// Claimed of the outside function: the encoding is a function of the contents of the receipt and
/// of the type of its transaction.
#[verifier::external_body]
pub(crate) fn encode_receipt(
    kind: ReceiptKind,
    status: ReceiptStatus,
    cumulative_gas_used: u64,
    logs: &Vec<Log>,
    logs_bloom: Bloom,
) -> (r: Vec<u8>)
    ensures
        r@ == receipt_encoding(
            kind,
            ReceiptView {
                status,
                cumulative_gas_used,
                logs: logs@.map_values(|log: Log| log@),
                logs_bloom: logs_bloom@,
            },
        ),
{
    let r = ReceiptWithBloom::new(AlloyReceipt {
        status: match status {
            ReceiptStatus::Eip658(success) => success.into(),
            ReceiptStatus::PostState(root) => FixedBytes(root).into()
        },
        cumulative_gas_used,
        logs: logs.iter().map(|l| AlloyLog::new_unchecked(l.address.into(), l.topics.iter().map(Into::into).collect(), l.data.clone().into())).collect()
    }, logs_bloom.into());
    match kind {
        ReceiptKind::Legacy => AlloyEnvelope::Legacy(r),
        ReceiptKind::Eip2930 => AlloyEnvelope::Eip2930(r),
        ReceiptKind::Eip1559 => AlloyEnvelope::Eip1559(r),
        ReceiptKind::Eip7702 => AlloyEnvelope::Eip7702(r),
        ReceiptKind::Deposit { deposit_nonce, deposit_receipt_version } => AlloyEnvelope::Deposit(r.map_receipt(|inner| OpDepositReceipt { inner, deposit_nonce, deposit_receipt_version }))
    }.encoded_2718()
}

/// The root hash of the trie that maps the RLP encoding of each position of a list to the item
/// there, by `alloy_trie::root::ordered_trie_root_encoded`.
///
/// Claimed of the outside function: the root is a function of the items, and that of no items is
/// the root hash of the empty trie.
#[verifier::external_body]
pub(crate) fn ordered_root(items: &Vec<Vec<u8>>) -> (r: B256)
    ensures
        r@ == ordered_trie_root(bytes_of(items@)),
        items@.len() == 0 ==> r@ == EMPTY_ROOT_HASH@,
{
    alloy_trie::root::ordered_trie_root_encoded(items).0
}

/// The bloom filter of a list of logs, by `alloy_primitives::logs_bloom`.
///
/// Claimed of the outside function: exactly those of the 2048 bits are set that the first three
/// pairs of bytes of the digests of the addresses and of the topics point to.
#[verifier::external_body]
pub(crate) fn logs_bloom(logs: &Vec<&Log>) -> (r: Bloom)
    ensures
        r@ == bloom_of_logs(logs@.map_values(|log: &Log| log@)),
{
    let logs: Vec<AlloyLog> = logs.iter().map(|l| AlloyLog::new_unchecked(l.address.into(), l.topics.iter().map(Into::into).collect(), l.data.clone().into())).collect();
    alloy_primitives::logs_bloom(&logs).into()
}

/// The logs of a list of receipts, in their order.
pub open spec fn all_logs(receipts: Seq<EnvelopeView>) -> Seq<LogView>
    decreases receipts.len(),
{
    if receipts.len() == 0 {
        Seq::empty()
    } else {
        all_logs(receipts.drop_last()) + receipts.last().receipt.logs
    }
}

/// The logs of a list of receipts, in their order.
pub fn flatten_logs<'a>(receipts: &'a [OpReceiptEnvelope]) -> (logs: Vec<&'a Log>)
    ensures
        logs@.map_values(|log: &Log| log@) == all_logs(envelopes(receipts@)),
{
    let mut logs: Vec<&Log> = Vec::new();
    let ghost views = envelopes(receipts@);
    let ghost see = |log: &Log| log@;
    assert(logs@.map_values(see) =~= all_logs(views.take(0)));
    for i in 0..receipts.len()
        invariant
            views == envelopes(receipts@),
            see == (|log: &Log| log@),
            logs@.map_values(see) == all_logs(views.take(i as int)),
    {
        let receipt = &receipts[i].receipt;
        let ghost before = all_logs(views.take(i as int));
        assert(before + receipt@.logs.take(0) =~= before);
        for j in 0..receipt.logs.len()
            invariant
                see == (|log: &Log| log@),
                logs@.map_values(see) == before + receipt@.logs.take(j as int),
        {
            let ghost pushed = logs@;
            logs.push(&receipt.logs[j]);
            assert(logs@.map_values(see) =~= pushed.map_values(see).push(receipt.logs@[j as int]@));
            assert(logs@.map_values(see) =~= before + receipt@.logs.take(j + 1));
        }
        proof {
            assert(receipt@.logs.take(receipt.logs@.len() as int) =~= receipt@.logs);
            assert(views.take(i + 1).drop_last() =~= views.take(i as int));
        }
    }
    assert(views.take(receipts@.len() as int) =~= views);
    logs
}

/// The bloom filter of the logs of a list of receipts.
pub fn compute_logs_bloom(receipts: &[OpReceiptEnvelope]) -> (r: Bloom)
    ensures
        r@ == bloom_of_logs(all_logs(envelopes(receipts@))),
{
    logs_bloom(&flatten_logs(receipts))
}

/// The type of a receipt without its deposit nonce.
pub open spec fn without_nonce(kind: ReceiptKind) -> ReceiptKind {
    match kind {
        ReceiptKind::Deposit { deposit_receipt_version, .. } => ReceiptKind::Deposit {
            deposit_nonce: None,
            deposit_receipt_version,
        },
        _ => kind,
    }
}

/// Takes the deposit nonce out of the type of a receipt.
pub fn strip_nonce(kind: ReceiptKind) -> (r: ReceiptKind)
    ensures
        r == without_nonce(kind),
{
    match kind {
        ReceiptKind::Deposit { deposit_receipt_version, .. } => ReceiptKind::Deposit {
            deposit_nonce: None,
            deposit_receipt_version,
        },
        other => other,
    }
}

/// Whether the deposit nonce is left out of the receipts root: from Regolith until Canyon.
pub open spec fn strips_nonce(config: RollupConfig, timestamp: u64) -> bool {
    config.active(regolith(), timestamp) && !config.active(canyon(), timestamp)
}

/// The encodings that the receipts root commits to.
pub open spec fn committed_receipts(receipts: Seq<EnvelopeView>, strip: bool) -> Seq<Seq<u8>> {
    receipts.map_values(
        |r: EnvelopeView|
            receipt_encoding(
                if strip {
                    without_nonce(r.kind)
                } else {
                    r.kind
                },
                r.receipt,
            ),
    )
}

/// The receipts root of a list of receipts.
pub open spec fn receipts_root(
    receipts: Seq<EnvelopeView>,
    config: RollupConfig,
    timestamp: u64,
) -> Seq<u8> {
    ordered_trie_root(committed_receipts(receipts, strips_nonce(config, timestamp)))
}

/// The encodings of receipts, without the deposit nonces if `strip` is set.
pub fn encode_receipts(receipts: &[OpReceiptEnvelope], strip: bool) -> (r: Vec<Vec<u8>>)
    ensures
        bytes_of(r@) == committed_receipts(envelopes(receipts@), strip),
{
    let mut r: Vec<Vec<u8>> = Vec::new();
    for i in 0..receipts.len()
        invariant
            r@.len() == i,
            forall|j: int|
                0 <= j < i ==> (#[trigger] r@[j])@ == committed_receipts(
                    envelopes(receipts@),
                    strip,
                )[j],
    {
        let kind = if strip {
            strip_nonce(receipts[i].kind)
        } else {
            receipts[i].kind
        };
        let receipt = &receipts[i].receipt;
        r.push(
            encode_receipt(
                kind,
                receipt.status,
                receipt.cumulative_gas_used,
                &receipt.logs,
                receipt.logs_bloom,
            ),
        );
    }
    assert(bytes_of(r@) =~= committed_receipts(envelopes(receipts@), strip));
    r
}

/// The root hash of the receipts of a block with this timestamp.
///
/// From Regolith until Canyon the deposit nonce is left out of the encoding.
pub fn compute_receipts_root(
    receipts: &[OpReceiptEnvelope],
    config: &RollupConfig,
    timestamp: u64,
) -> (r: B256)
    ensures
        r@ == receipts_root(envelopes(receipts@), *config, timestamp),
        receipts@.len() == 0 ==> r@ == EMPTY_ROOT_HASH@,
{
    let strip = config.is_regolith_active(timestamp) && !config.is_canyon_active(timestamp);
    let encoded = encode_receipts(receipts, strip);
    assert(encoded@.len() == bytes_of(encoded@).len());
    ordered_root(&encoded)
}

/// The bloom filter of no logs is all zeros.
pub proof fn law_bloom_of_no_logs_is_zero()
    ensures
        bloom_of_logs(Seq::empty()) == Seq::new(256, |i: int| 0u8),
{
    assert(bloom_of_logs(Seq::empty()) =~= Seq::new(256, |i: int| 0u8));
}

/// The bloom filter of logs depends on their addresses and topics, not on their data.
pub proof fn law_bloom_ignores_data(a: Seq<LogView>, b: Seq<LogView>)
    requires
        a.len() == b.len(),
        forall|i: int|
            0 <= i < a.len() ==> (#[trigger] a[i]).address == b[i].address && a[i].topics
                == b[i].topics,
    ensures
        bloom_of_logs(a) == bloom_of_logs(b),
{
    assert forall|bit: int, value: int| #[trigger] bit_value(a, bit, value) == bit_value(b, bit, value) by {
        if exists|i: int| 0 <= i < a.len() && log_sets(#[trigger] a[i], bit) {
            let i = choose|i: int| 0 <= i < a.len() && log_sets(#[trigger] a[i], bit);
            assert(log_sets(b[i], bit));
        }
        if exists|i: int| 0 <= i < b.len() && log_sets(#[trigger] b[i], bit) {
            let i = choose|i: int| 0 <= i < b.len() && log_sets(#[trigger] b[i], bit);
            assert(a[i].address == b[i].address);
            assert(log_sets(a[i], bit));
        }
    }
    assert(bloom_of_logs(a) =~= bloom_of_logs(b));
}

/// From Regolith until Canyon the deposit nonces have no part in the receipts root.
pub proof fn law_receipts_root_ignores_nonces(
    a: Seq<EnvelopeView>,
    b: Seq<EnvelopeView>,
    config: RollupConfig,
    timestamp: u64,
)
    requires
        strips_nonce(config, timestamp),
        a.len() == b.len(),
        forall|i: int|
            0 <= i < a.len() ==> without_nonce((#[trigger] a[i]).kind) == without_nonce(b[i].kind)
                && a[i].receipt == b[i].receipt,
    ensures
        receipts_root(a, config, timestamp) == receipts_root(b, config, timestamp),
{
    assert(committed_receipts(a, true) =~= committed_receipts(b, true));
}

/// Outside of that window the receipts root commits to the receipts as they are.
pub proof fn law_receipts_root_commits_to_nonces(
    receipts: Seq<EnvelopeView>,
    config: RollupConfig,
    timestamp: u64,
)
    requires
        !config.active(regolith(), timestamp) || config.active(canyon(), timestamp),
    ensures
        receipts_root(receipts, config, timestamp) == ordered_trie_root(
            receipts.map_values(|r: EnvelopeView| receipt_encoding(r.kind, r.receipt)),
        ),
{
    assert(committed_receipts(receipts, false) =~= receipts.map_values(
        |r: EnvelopeView| receipt_encoding(r.kind, r.receipt),
    ));
}

/// The logs of a list of receipts are those of each receipt, all of them and in their order.
pub proof fn law_logs_are_those_of_each_receipt(
    before: Seq<EnvelopeView>,
    after: Seq<EnvelopeView>,
    receipt: EnvelopeView,
)
    ensures
        all_logs(Seq::empty()) == Seq::<LogView>::empty(),
        all_logs(seq![receipt]) == receipt.receipt.logs,
        all_logs(before + after) == all_logs(before) + all_logs(after),
    decreases after.len(),
{
    reveal_with_fuel(all_logs, 2);
    assert(seq![receipt].drop_last() =~= Seq::empty());
    assert(all_logs(seq![receipt]) =~= receipt.receipt.logs);
    if after.len() == 0 {
        assert(before + after =~= before);
        assert(all_logs(before) + all_logs(after) =~= all_logs(before));
    } else {
        let shorter = after.drop_last();
        law_logs_are_those_of_each_receipt(before, shorter, receipt);
        assert((before + after).drop_last() =~= before + shorter);
        assert((before + after).last() == after.last());
        assert(all_logs(before + after) =~= all_logs(before) + all_logs(after));
    }
}

/// The contents of a list of receipts are those of each receipt, at its place.
pub proof fn law_receipts_keep_their_contents(receipts: Seq<OpReceiptEnvelope>)
    ensures
        envelopes(receipts).len() == receipts.len(),
        forall|i: int|
            0 <= i < receipts.len() ==> {
                let view = #[trigger] envelopes(receipts)[i];
                let receipt = receipts[i].receipt;
                &&& view.kind == receipts[i].kind
                &&& view.receipt.status == receipt.status
                &&& view.receipt.cumulative_gas_used == receipt.cumulative_gas_used
                &&& view.receipt.logs_bloom == receipt.logs_bloom@
                &&& view.receipt.logs.len() == receipt.logs@.len()
                &&& forall|j: int|
                    0 <= j < receipt.logs@.len() ==> {
                        let log = #[trigger] view.receipt.logs[j];
                        &&& log.address == receipt.logs@[j].address@
                        &&& log.data == receipt.logs@[j].data@
                        &&& log.topics.len() == receipt.logs@[j].topics@.len()
                        &&& forall|k: int|
                            0 <= k < log.topics.len() ==> #[trigger] log.topics[k]
                                == receipt.logs@[j].topics@[k]@
                    }
            },
{
}

/// Whether two types of receipts differ in the deposit nonce only, and the second has none.
pub open spec fn differ_in_nonce(kind: ReceiptKind, stripped: ReceiptKind) -> bool {
    match (kind, stripped) {
        (
            ReceiptKind::Deposit { deposit_receipt_version: before, .. },
            ReceiptKind::Deposit { deposit_nonce, deposit_receipt_version: after },
        ) => deposit_nonce is None && before == after,
        (ReceiptKind::Deposit { .. }, _) => false,
        _ => kind == stripped,
    }
}

/// Taking the nonce out of the type of a receipt takes out nothing else, and out of a deposit only.
pub proof fn law_only_the_nonce_is_taken_out(kind: ReceiptKind)
    ensures
        kind is Deposit <==> without_nonce(kind) is Deposit,
        kind matches ReceiptKind::Deposit { deposit_receipt_version, .. } ==> without_nonce(kind) == (
        ReceiptKind::Deposit { deposit_nonce: None, deposit_receipt_version }),
        !(kind is Deposit) ==> without_nonce(kind) == kind,
{
}

/// The receipts root commits to one encoding per receipt, in their order. Each is that of the whole
/// receipt, with its type as it is before Regolith and from Canyon on, and without its deposit
/// nonce in between.
pub proof fn law_receipts_root_commits_to_every_receipt(
    receipts: Seq<EnvelopeView>,
    config: RollupConfig,
    timestamp: u64,
    kinds: Seq<ReceiptKind>,
    encodings: Seq<Seq<u8>>,
)
    requires
        kinds.len() == receipts.len(),
        encodings.len() == receipts.len(),
        forall|i: int|
            0 <= i < receipts.len() ==> if config.active(regolith(), timestamp) && !config.active(
                canyon(),
                timestamp,
            ) {
                differ_in_nonce((#[trigger] receipts[i]).kind, kinds[i])
            } else {
                kinds[i] == receipts[i].kind
            },
        forall|i: int|
            0 <= i < receipts.len() ==> #[trigger] encodings[i] == receipt_encoding(
                kinds[i],
                receipts[i].receipt,
            ),
    ensures
        receipts_root(receipts, config, timestamp) == ordered_trie_root(encodings),
{
    let committed = committed_receipts(receipts, strips_nonce(config, timestamp));
    assert forall|i: int| 0 <= i < receipts.len() implies #[trigger] committed[i] == encodings[i] by {
        let kind = receipts[i].kind;
        assert(encodings[i] == receipt_encoding(kinds[i], receipts[i].receipt));
        if strips_nonce(config, timestamp) {
            assert(differ_in_nonce(kind, kinds[i]));
            assert(kinds[i] == without_nonce(kind));
        }
    }
    assert(committed =~= encodings);
}

} // verus!
