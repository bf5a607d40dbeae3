//! Assembly of the header of an executed block, and of its output root.

use crate::config::{
    canyon, ecotone, holocene, isthmus, jovian, law_activation_is_monotone, BaseFeeParams,
    RollupConfig,
};
use crate::header::{header_hash, result_view, Header, HeaderView, SealedHeader, SealedView};
use crate::primitives::{
    append_slice, be_bytes, be_value, byte_range, keccak256, keccak256_digest,
    law_be_value_reads_be_bytes, lemma_be_bytes_len, saturate, u32_to_be_bytes, u64_to_be_bytes,
    Address, Bloom, B256, U256,
};
use crate::receipt::{
    all_logs, bloom_of_logs, compute_logs_bloom, compute_receipts_root, envelopes, ordered_root,
    ordered_trie_root, receipts_root, EnvelopeView, OpReceiptEnvelope, EMPTY_ROOT_HASH,
};
use crate::transaction::{AttributesView, OpPayloadAttributes};
use vstd::prelude::*;

verus! {

/// The hash of an empty list of ommers.
pub const EMPTY_OMMER_ROOT_HASH: B256 = [
    0x1d, 0xcc, 0x4d, 0xe8, 0xde, 0xc7, 0x5d, 0x7a, 0xab, 0x85, 0xb5, 0x67, 0xb6, 0xcc, 0xd4, 0x1a,
    0xd3, 0x12, 0x45, 0x1b, 0x94, 0x8a, 0x74, 0x13, 0xf0, 0xa1, 0x42, 0xfd, 0x40, 0xd4, 0x93, 0x47,
];

/// The hash of an empty list of requests: the SHA-256 digest of nothing.
pub const EMPTY_REQUESTS_HASH: B256 = [
    0xe3, 0xb0, 0xc4, 0x42, 0x98, 0xfc, 0x1c, 0x14, 0x9a, 0xfb, 0xf4, 0xc8, 0x99, 0x6f, 0xb9, 0x24,
    0x27, 0xae, 0x41, 0xe4, 0x64, 0x9b, 0x93, 0x4c, 0xa4, 0x95, 0x99, 0x1b, 0x78, 0x52, 0xb8, 0x55,
];

/// The address of the L2 to L1 message passer.
pub const L2_TO_L1_MESSAGE_PASSER: Address = [
    0x42, 0, 0, 0, 0, 0, 0, 0, 0, 0, 0, 0, 0, 0, 0, 0, 0, 0, 0, 0x16,
];

/// The first byte of the extra data of a header from Holocene on.
pub const HOLOCENE_EXTRA_DATA_VERSION: u8 = 0;

/// The first byte of the extra data of a header from Jovian on.
pub const JOVIAN_EXTRA_DATA_VERSION: u8 = 1;

/// What went wrong while reading the state trie.
#[derive(Debug, PartialEq, Eq)]
pub enum TrieDBError<X> {
    /// The trie holds no such account.
    MissingAccountInfo,
    /// Any other error of the trie.
    Other(X),
}

/// Why the base fee parameters do not fit the extra data.
#[derive(Clone, Copy, Debug, PartialEq, Eq)]
pub enum EIP1559ParamError {
    /// The denominator does not fit in four bytes.
    DenominatorOverflow,
    /// The elasticity does not fit in four bytes.
    ElasticityOverflow,
}

/// What went wrong while building a block.
#[derive(Debug, PartialEq, Eq)]
pub enum ExecutorError<X> {
    /// The attributes hold no gas limit.
    MissingGasLimit,
    /// The attributes hold no base fee parameters.
    MissingEIP1559Params,
    /// The attributes hold no minimum base fee.
    MissingMinBaseFee,
    /// The base fee parameters cannot be encoded.
    InvalidExtraData(EIP1559ParamError),
    /// The state trie could not be read.
    TrieDB(TrieDBError<X>),
    /// No safe head was set, so that there is nothing to build on.
    MissingExecutor,
    /// Any other error of the execution.
    Other(X),
}

/// The part of the block environment that the header takes over.
#[derive(Clone, Copy, Debug, PartialEq, Eq)]
pub struct BlockEnv {
    pub number: U256,
    pub timestamp: U256,
    pub basefee: u64,
}

/// What executing the transactions of a block gave.
#[derive(Clone, Debug, PartialEq, Eq)]
pub struct BlockExecutionResult {
    pub receipts: Vec<OpReceiptEnvelope>,
    pub gas_used: u64,
}

/// The eight bytes of base fee parameters that the extra data holds: those of the payload or, if
/// they are all zero, the denominator and the elasticity of the chain in four bytes each.
pub open spec fn base_fee_bytes(params: [u8; 8], canyon_params: BaseFeeParams) -> Result<
    Seq<u8>,
    EIP1559ParamError,
> {
    if params@ != Seq::new(8, |i: int| 0u8) {
        Ok(params@)
    } else if canyon_params.max_change_denominator > u32::MAX {
        Err(EIP1559ParamError::DenominatorOverflow)
    } else if canyon_params.elasticity_multiplier > u32::MAX {
        Err(EIP1559ParamError::ElasticityOverflow)
    } else {
        Ok(
            be_bytes(canyon_params.max_change_denominator as nat, 4) + be_bytes(
                canyon_params.elasticity_multiplier as nat,
                4,
            ),
        )
    }
}

/// The extra data of the header: empty before Holocene, then a version byte and the base fee
/// parameters, and from Jovian on the minimum base fee after them.
pub open spec fn extra_data<X>(config: RollupConfig, attrs: AttributesView, timestamp: u64) -> Result<
    Seq<u8>,
    ExecutorError<X>,
> {
    if !config.active(holocene(), timestamp) {
        Ok(Seq::empty())
    } else if attrs.eip_1559_params is None {
        Err(ExecutorError::MissingEIP1559Params)
    } else if config.active(jovian(), timestamp) && attrs.min_base_fee is None {
        Err(ExecutorError::MissingMinBaseFee)
    } else {
        match base_fee_bytes(attrs.eip_1559_params->0, config.canyon_base_fee_params) {
            Err(e) => Err(ExecutorError::InvalidExtraData(e)),
            Ok(params) => if config.active(jovian(), timestamp) {
                Ok(
                    seq![JOVIAN_EXTRA_DATA_VERSION] + params + be_bytes(
                        attrs.min_base_fee->0 as nat,
                        8,
                    ),
                )
            } else {
                Ok(seq![HOLOCENE_EXTRA_DATA_VERSION] + params)
            },
        }
    }
}

/// The view of a byte string, or of the error.
pub open spec fn bytes_result<E>(r: Result<Vec<u8>, E>) -> Result<Seq<u8>, E> {
    match r {
        Ok(bytes) => Ok(bytes@),
        Err(e) => Err(e),
    }
}

fn encode_base_fee_params(params: [u8; 8], canyon_params: BaseFeeParams) -> (r: Result<
    Vec<u8>,
    EIP1559ParamError,
>)
    ensures
        bytes_result(r) == base_fee_bytes(params, canyon_params),
{
    let mut r: Vec<u8> = Vec::new();
    let mut zero = true;
    for i in 0..8usize
        invariant
            zero <==> forall|j: int| 0 <= j < i ==> params@[j] == 0,
    {
        if params[i] != 0 {
            zero = false;
        }
    }
    if !zero {
        append_slice(&mut r, params.as_slice());
        proof {
            let j = choose|j: int| 0 <= j < 8 && params@[j] != 0;
            assert(Seq::new(8, |i: int| 0u8)[j] == 0);
            assert(r@ =~= params@);
        }
        return Ok(r);
    }
    assert(params@ =~= Seq::new(8, |i: int| 0u8));
    if canyon_params.max_change_denominator > u32::MAX as u128 {
        return Err(EIP1559ParamError::DenominatorOverflow);
    }
    if canyon_params.elasticity_multiplier > u32::MAX as u128 {
        return Err(EIP1559ParamError::ElasticityOverflow);
    }
    let denominator: u32 = canyon_params.max_change_denominator as u32;
    let elasticity: u32 = canyon_params.elasticity_multiplier as u32;
    append_slice(&mut r, u32_to_be_bytes(denominator).as_slice());
    append_slice(&mut r, u32_to_be_bytes(elasticity).as_slice());
    assert(r@ =~= be_bytes(denominator as nat, 4) + be_bytes(elasticity as nat, 4));
    Ok(r)
}

/// Encodes the extra data of the header of a block with this timestamp.
pub fn encode_extra_data<X>(config: &RollupConfig, attrs: &OpPayloadAttributes, timestamp: u64) -> (r:
    Result<Vec<u8>, ExecutorError<X>>)
    ensures
        bytes_result(r) == extra_data::<X>(*config, attrs@, timestamp),
{
    let mut r: Vec<u8> = Vec::new();
    if !config.is_holocene_active(timestamp) {
        return Ok(r);
    }
    let params = match attrs.eip_1559_params {
        Some(params) => params,
        None => {
            return Err(ExecutorError::MissingEIP1559Params);
        },
    };
    let jovian_active = config.is_jovian_active(timestamp);
    let min_base_fee: u64 = match attrs.min_base_fee {
        Some(fee) => fee,
        None => if jovian_active {
            return Err(ExecutorError::MissingMinBaseFee);
        } else {
            0
        },
    };
    let encoded = match encode_base_fee_params(params, config.canyon_base_fee_params) {
        Ok(encoded) => encoded,
        Err(e) => {
            return Err(ExecutorError::InvalidExtraData(e));
        },
    };
    if jovian_active {
        r.push(JOVIAN_EXTRA_DATA_VERSION);
        append_slice(&mut r, encoded.as_slice());
        append_slice(&mut r, u64_to_be_bytes(min_base_fee).as_slice());
        assert(r@ =~= seq![JOVIAN_EXTRA_DATA_VERSION] + encoded@ + be_bytes(min_base_fee as nat, 8));
    } else {
        r.push(HOLOCENE_EXTRA_DATA_VERSION);
        append_slice(&mut r, encoded.as_slice());
        assert(r@ =~= seq![HOLOCENE_EXTRA_DATA_VERSION] + encoded@);
    }
    Ok(r)
}

/// The commitments of a header to the state, the transactions and the receipts of its block.
#[derive(Clone, Copy, Debug, PartialEq, Eq)]
pub struct BlockRoots {
    pub state_root: B256,
    pub transactions_root: B256,
    pub receipts_root: B256,
    pub logs_bloom: Bloom,
}

/// The contents of [`BlockRoots`].
#[verifier::ext_equal]
pub struct BlockRootsView {
    pub state_root: Seq<u8>,
    pub transactions_root: Seq<u8>,
    pub receipts_root: Seq<u8>,
    pub logs_bloom: Seq<u8>,
}

impl View for BlockRoots {
    type V = BlockRootsView;

    open spec fn view(&self) -> BlockRootsView {
        BlockRootsView {
            state_root: self.state_root@,
            transactions_root: self.transactions_root@,
            receipts_root: self.receipts_root@,
            logs_bloom: self.logs_bloom@,
        }
    }
}

/// What a header is assembled from besides the attributes and the roots.
#[verifier::ext_equal]
pub struct SealInput {
    pub parent_hash: Seq<u8>,
    pub number: nat,
    pub timestamp: nat,
    pub basefee: u64,
    pub gas_used: u64,
}

impl SealInput {
    /// The input that these values stand for.
    pub open spec fn of(parent_hash: B256, env: BlockEnv, gas_used: u64) -> SealInput {
        SealInput {
            parent_hash: parent_hash@,
            number: env.number.value(),
            timestamp: env.timestamp.value(),
            basefee: env.basefee,
            gas_used,
        }
    }

    /// The timestamp of the header.
    pub open spec fn time(self) -> u64 {
        saturate(self.timestamp) as u64
    }
}

/// The withdrawals root: from Isthmus on the storage root of the message passer, from Canyon on
/// the empty root, before that none.
pub open spec fn withdrawals_root(
    config: RollupConfig,
    timestamp: u64,
    message_passer: Seq<u8>,
) -> Option<Seq<u8>> {
    if config.active(isthmus(), timestamp) {
        Some(message_passer)
    } else if config.active(canyon(), timestamp) {
        Some(EMPTY_ROOT_HASH@)
    } else {
        None
    }
}

/// The header of a block whose attributes hold a gas limit.
pub open spec fn assembled_header(
    config: RollupConfig,
    attrs: AttributesView,
    input: SealInput,
    roots: BlockRootsView,
    message_passer: Seq<u8>,
    extra: Seq<u8>,
) -> HeaderView {
    let timestamp = input.time();
    HeaderView {
        parent_hash: input.parent_hash,
        ommers_hash: EMPTY_OMMER_ROOT_HASH@,
        beneficiary: attrs.suggested_fee_recipient,
        state_root: roots.state_root,
        transactions_root: roots.transactions_root,
        receipts_root: roots.receipts_root,
        logs_bloom: roots.logs_bloom,
        difficulty: 0,
        number: saturate(input.number) as u64,
        gas_limit: attrs.gas_limit->0,
        gas_used: input.gas_used,
        timestamp,
        extra_data: extra,
        mix_hash: attrs.prev_randao,
        nonce: Seq::new(8, |i: int| 0u8),
        base_fee_per_gas: Some(input.basefee),
        withdrawals_root: withdrawals_root(config, timestamp, message_passer),
        blob_gas_used: if config.active(ecotone(), timestamp) {
            Some(0)
        } else {
            None
        },
        excess_blob_gas: if config.active(ecotone(), timestamp) {
            Some(0)
        } else {
            None
        },
        parent_beacon_block_root: attrs.parent_beacon_block_root,
        requests_hash: if config.active(isthmus(), timestamp) {
            Some(EMPTY_REQUESTS_HASH@)
        } else {
            None
        },
    }
}

/// The header of a block with these roots, or the first of the errors in this order: from Isthmus
/// on the storage root of the message passer, the extra data, the gas limit.
pub open spec fn header_with_roots<X>(
    config: RollupConfig,
    attrs: AttributesView,
    input: SealInput,
    roots: BlockRootsView,
    message_passer: Option<Result<B256, TrieDBError<X>>>,
) -> Result<HeaderView, ExecutorError<X>> {
    if config.active(isthmus(), input.time()) && message_passer is Some && message_passer->0 is Err {
        Err(ExecutorError::TrieDB(message_passer->0->Err_0))
    } else {
        match extra_data::<X>(config, attrs, input.time()) {
            Err(e) => Err(e),
            Ok(extra) => if attrs.gas_limit is None {
                Err(ExecutorError::MissingGasLimit)
            } else {
                Ok(
                    assembled_header(
                        config,
                        attrs,
                        input,
                        roots,
                        message_passer->0->Ok_0@,
                        extra,
                    ),
                )
            },
        }
    }
}

/// Assembles the header of a block with these roots.
///
/// `message_passer` is the storage root of the message passer, which is needed from Isthmus on.
pub fn assemble_header<X>(
    config: &RollupConfig,
    attrs: &OpPayloadAttributes,
    parent_hash: B256,
    env: &BlockEnv,
    gas_used: u64,
    roots: &BlockRoots,
    message_passer: Option<Result<B256, TrieDBError<X>>>,
) -> (r: Result<Header, ExecutorError<X>>)
    requires
        config.active(isthmus(), saturate(env.timestamp.value()) as u64) ==> message_passer is Some,
    ensures
        result_view(r) == header_with_roots(
            *config,
            attrs@,
            SealInput::of(parent_hash, *env, gas_used),
            roots@,
            message_passer,
        ),
        r matches Ok(header) ==> {
            &&& header.parent_hash == parent_hash
            &&& header.beneficiary == attrs.suggested_fee_recipient
            &&& header.state_root == roots.state_root
            &&& header.transactions_root == roots.transactions_root
            &&& header.receipts_root == roots.receipts_root
            &&& header.logs_bloom == roots.logs_bloom
            &&& header.mix_hash == attrs.prev_randao
            &&& Some(header.gas_limit) == attrs.gas_limit
            &&& header.gas_used == gas_used
            &&& header.base_fee_per_gas == Some(env.basefee)
            &&& header.parent_beacon_block_root == attrs.parent_beacon_block_root
        },
{
    let timestamp: u64 = env.timestamp.saturating_to_u64();
    let isthmus_active = config.is_isthmus_active(timestamp);
    let withdrawals_root = if isthmus_active {
        match message_passer {
            Some(Ok(root)) => Some(root),
            Some(Err(e)) => {
                return Err(ExecutorError::TrieDB(e));
            },
            None => vstd::pervasive::unreached(),
        }
    } else if config.is_canyon_active(timestamp) {
        Some(EMPTY_ROOT_HASH)
    } else {
        None
    };
    let blob_gas: Option<u64> = if config.is_ecotone_active(timestamp) {
        Some(0)
    } else {
        None
    };
    let extra = match encode_extra_data(config, attrs, timestamp) {
        Ok(extra) => extra,
        Err(e) => {
            return Err(e);
        },
    };
    let requests_hash = if isthmus_active {
        Some(EMPTY_REQUESTS_HASH)
    } else {
        None
    };
    let gas_limit: u64 = match attrs.gas_limit {
        Some(limit) => limit,
        None => {
            return Err(ExecutorError::MissingGasLimit);
        },
    };
    let header = Header {
        parent_hash,
        ommers_hash: EMPTY_OMMER_ROOT_HASH,
        beneficiary: attrs.suggested_fee_recipient,
        state_root: roots.state_root,
        transactions_root: roots.transactions_root,
        receipts_root: roots.receipts_root,
        logs_bloom: roots.logs_bloom,
        difficulty: U256::zero(),
        number: env.number.saturating_to_u64(),
        gas_limit,
        gas_used,
        timestamp,
        extra_data: extra,
        mix_hash: attrs.prev_randao,
        nonce: [0; 8],
        base_fee_per_gas: Some(env.basefee),
        withdrawals_root,
        blob_gas_used: blob_gas,
        excess_blob_gas: blob_gas,
        parent_beacon_block_root: attrs.parent_beacon_block_root,
        requests_hash,
    };
    assert(header@.nonce =~= Seq::new(8, |i: int| 0u8));
    Ok(header)
}

/// The roots of an executed block.
pub open spec fn executed_roots(
    config: RollupConfig,
    attrs: AttributesView,
    receipts: Seq<EnvelopeView>,
    timestamp: u64,
    state_root: Seq<u8>,
) -> BlockRootsView {
    BlockRootsView {
        state_root,
        transactions_root: ordered_trie_root(attrs.tx_list()),
        receipts_root: receipts_root(receipts, config, timestamp),
        logs_bloom: bloom_of_logs(all_logs(receipts)),
    }
}

/// The header of an executed block; the state root comes first among the errors.
pub open spec fn sealed<X>(
    config: RollupConfig,
    attrs: AttributesView,
    input: SealInput,
    receipts: Seq<EnvelopeView>,
    state_root: Result<B256, TrieDBError<X>>,
    message_passer: Option<Result<B256, TrieDBError<X>>>,
) -> Result<HeaderView, ExecutorError<X>> {
    match state_root {
        Err(e) => Err(ExecutorError::TrieDB(e)),
        Ok(state_root) => header_with_roots(
            config,
            attrs,
            input,
            executed_roots(config, attrs, receipts, input.time(), state_root@),
            message_passer,
        ),
    }
}

/// Where the storage root of the message passer comes from.
#[derive(Clone, Copy, Debug, PartialEq, Eq)]
pub enum MessagePasserRoot {
    /// It is known already.
    Cached(B256),
    /// The account at this address is to be read from the trie as of this block.
    Fetch { address: Address, block_number: u64 },
}

/// The storage root of the message passer as of a block is taken from the cache; otherwise its
/// account is read from the trie.
pub open spec fn message_passer_root(cached: Option<B256>, block_number: u64) -> MessagePasserRoot {
    match cached {
        Some(root) => MessagePasserRoot::Cached(root),
        None => MessagePasserRoot::Fetch { address: L2_TO_L1_MESSAGE_PASSER, block_number },
    }
}

/// Looks for the storage root of the message passer in the cache first.
pub fn message_passer_account(cached: Option<B256>, block_number: u64) -> (r: MessagePasserRoot)
    ensures
        r == message_passer_root(cached, block_number),
{
    match cached {
        Some(root) => MessagePasserRoot::Cached(root),
        None => MessagePasserRoot::Fetch { address: L2_TO_L1_MESSAGE_PASSER, block_number },
    }
}

/// The storage root of the account that was read from the trie; a trie without it is an error.
pub fn fetched_storage_root<X>(fetched: Result<Option<B256>, TrieDBError<X>>) -> (r: Result<
    B256,
    TrieDBError<X>,
>)
    ensures
        r == (match fetched {
            Ok(Some(root)) => Ok(root),
            Ok(None) => Err(TrieDBError::MissingAccountInfo),
            Err(e) => Err(e),
        }),
{
    match fetched {
        Ok(Some(root)) => Ok(root),
        Ok(None) => Err(TrieDBError::MissingAccountInfo),
        Err(e) => Err(e),
    }
}

/// The bytes that the output root is the digest of: the version, which is zero, the state root, the
/// storage root of the message passer and the hash of the block.
pub open spec fn output_preimage(state_root: Seq<u8>, storage_root: Seq<u8>, block_hash: Seq<u8>) -> Seq<u8> {
    Seq::new(32, |i: int| 0u8) + state_root + storage_root + block_hash
}

/// Encodes the bytes that the output root is the digest of.
pub fn encode_output(state_root: &B256, storage_root: &B256, block_hash: &B256) -> (r: Vec<u8>)
    ensures
        r@ == output_preimage(state_root@, storage_root@, block_hash@),
        r@.len() == 128,
        r@.take(32) == Seq::new(32, |i: int| 0u8),
        r@.subrange(32, 64) == state_root@,
        r@.subrange(64, 96) == storage_root@,
        r@.skip(96) == block_hash@,
{
    let version: [u8; 32] = [0; 32];
    let mut r: Vec<u8> = Vec::new();
    append_slice(&mut r, version.as_slice());
    append_slice(&mut r, state_root.as_slice());
    append_slice(&mut r, storage_root.as_slice());
    append_slice(&mut r, block_hash.as_slice());
    assert(version@ =~= Seq::new(32, |i: int| 0u8));
    assert(r@ =~= output_preimage(state_root@, storage_root@, block_hash@));
    assert(r@.take(32) =~= version@);
    assert(r@.subrange(32, 64) =~= state_root@);
    assert(r@.subrange(64, 96) =~= storage_root@);
    assert(r@.skip(96) =~= block_hash@);
    r
}

/// The builder of the block that follows a header.
///
/// `P` provides the nodes of the state trie, `H` sends the hints for them and `V` makes the virtual
/// machine.
#[derive(Clone, Debug, PartialEq, Eq)]
pub struct StatelessL2Builder<P, H, V> {
    pub config: RollupConfig,
    pub evm_factory: V,
    pub provider: P,
    pub hinter: H,
    pub parent_header: SealedHeader,
}

impl<P, H, V> StatelessL2Builder<P, H, V> {
    /// A builder on top of the header.
    pub fn new(
        config: RollupConfig,
        evm_factory: V,
        provider: P,
        hinter: H,
        parent_header: SealedHeader,
    ) -> (r: Self)
        ensures
            r == (StatelessL2Builder { config, evm_factory, provider, hinter, parent_header }),
    {
        StatelessL2Builder { config, evm_factory, provider, hinter, parent_header }
    }

    /// Where sealing a block in this environment takes the storage root of the message passer from:
    /// from Isthmus on it needs that of the block itself, before that none.
    pub fn seal_lookup(&self, env: &BlockEnv, cached: Option<B256>) -> (r: Option<MessagePasserRoot>)
        ensures
            r == (if self.config.active(isthmus(), saturate(env.timestamp.value()) as u64) {
                Some(message_passer_root(cached, saturate(env.number.value()) as u64))
            } else {
                None
            }),
    {
        if self.config.is_isthmus_active(env.timestamp.saturating_to_u64()) {
            Some(message_passer_account(cached, env.number.saturating_to_u64()))
        } else {
            None
        }
    }

    /// Where the output root takes the storage root of the message passer from: it needs that of
    /// the block that the builder stands on.
    pub fn output_root_lookup(&self, cached: Option<B256>) -> (r: MessagePasserRoot)
        ensures
            r == message_passer_root(cached, self.parent_header@.header.number),
    {
        message_passer_account(cached, self.parent_header.header.number)
    }

    /// Seals the block that was executed from the attributes in the environment.
    ///
    /// `state_root` is what the trie gave for the state after the execution. `message_passer` is
    /// what it gave for the storage root of the message passer, where [`Self::seal_lookup`]
    /// asks for it.
    pub fn seal_block<X>(
        &self,
        attrs: &OpPayloadAttributes,
        parent_hash: B256,
        env: &BlockEnv,
        executed: &BlockExecutionResult,
        state_root: Result<B256, TrieDBError<X>>,
        message_passer: Option<Result<B256, TrieDBError<X>>>,
    ) -> (r: Result<SealedHeader, ExecutorError<X>>)
        requires
            state_root is Ok ==> attrs.transactions is Some,
            state_root is Ok && self.config.active(isthmus(), saturate(env.timestamp.value()) as u64)
                ==> message_passer is Some,
        ensures
            match sealed(
                self.config,
                attrs@,
                SealInput::of(parent_hash, *env, executed.gas_used),
                envelopes(executed.receipts@),
                state_root,
                message_passer,
            ) {
                Ok(header) => r matches Ok(sealed_header) && sealed_header@ == (SealedView {
                    header,
                    hash: header_hash(header),
                }),
                Err(e) => r == Err::<SealedHeader, _>(e),
            },
    {
        let state_root = match state_root {
            Ok(root) => root,
            Err(e) => {
                return Err(ExecutorError::TrieDB(e));
            },
        };
        let transactions = match &attrs.transactions {
            Some(txs) => txs,
            None => vstd::pervasive::unreached(),
        };
        let receipts = executed.receipts.as_slice();
        let roots = BlockRoots {
            state_root,
            transactions_root: ordered_root(transactions),
            receipts_root: compute_receipts_root(
                receipts,
                &self.config,
                env.timestamp.saturating_to_u64(),
            ),
            logs_bloom: compute_logs_bloom(receipts),
        };
        match assemble_header(
            &self.config,
            attrs,
            parent_hash,
            env,
            executed.gas_used,
            &roots,
            message_passer,
        ) {
            Ok(header) => Ok(SealedHeader::seal_slow(header)),
            Err(e) => Err(e),
        }
    }

    /// The output root of the block that the builder stands on, given the storage root of the
    /// message passer as of that block: the Keccak-256 digest of the version, the state root, the
    /// storage root and the hash of the block.
    pub fn compute_output_root<X>(&self, storage_root: Result<B256, TrieDBError<X>>) -> (r: Result<
        B256,
        ExecutorError<X>,
    >)
        ensures
            match storage_root {
                Ok(storage_root) => r matches Ok(root) && root@ == keccak256_digest(
                    output_preimage(
                        self.parent_header@.header.state_root,
                        storage_root@,
                        self.parent_header@.hash,
                    ),
                ),
                Err(e) => r == Err::<B256, _>(ExecutorError::TrieDB(e)),
            },
    {
        match storage_root {
            Ok(storage_root) => Ok(
                keccak256(
                    &encode_output(
                        &self.parent_header.header.state_root,
                        &storage_root,
                        &self.parent_header.hash,
                    ),
                ),
            ),
            Err(e) => Err(ExecutorError::TrieDB(e)),
        }
    }
}

/// Which optional fields a sealed header holds is decided by the fork that is active at its
/// timestamp.
pub proof fn law_fork_decides_header_fields<X>(
    config: RollupConfig,
    attrs: AttributesView,
    input: SealInput,
    receipts: Seq<EnvelopeView>,
    state_root: Result<B256, TrieDBError<X>>,
    message_passer: Option<Result<B256, TrieDBError<X>>>,
)
    requires
        sealed(config, attrs, input, receipts, state_root, message_passer) is Ok,
    ensures
        ({
            let header = sealed(config, attrs, input, receipts, state_root, message_passer)->Ok_0;
            let timestamp = header.timestamp;
            &&& header.withdrawals_root is Some <==> config.active(canyon(), timestamp)
            &&& header.blob_gas_used is Some <==> config.active(ecotone(), timestamp)
            &&& header.excess_blob_gas is Some <==> config.active(ecotone(), timestamp)
            &&& header.requests_hash is Some <==> config.active(isthmus(), timestamp)
            &&& header.extra_data.len() == (if config.active(jovian(), timestamp) {
                17int
            } else if config.active(holocene(), timestamp) {
                9
            } else {
                0
            })
        }),
{
    let timestamp = input.time();
    if config.active(isthmus(), timestamp) {
        law_activation_is_monotone(config, canyon(), isthmus(), timestamp, timestamp);
    }
    law_extra_data_layout::<X>(config, attrs, timestamp);
}

/// From Holocene on the extra data starts with the version and holds the denominator and then the
/// elasticity in four bytes each; from Jovian on the minimum base fee follows in eight bytes. They
/// are those of the payload or, if those are all zero, the parameters of the chain.
pub proof fn law_extra_data_layout<X>(config: RollupConfig, attrs: AttributesView, timestamp: u64)
    requires
        extra_data::<X>(config, attrs, timestamp) is Ok,
    ensures
        ({
            let extra = extra_data::<X>(config, attrs, timestamp)->Ok_0;
            let params = attrs.eip_1559_params->0@;
            &&& !config.active(holocene(), timestamp) ==> extra.len() == 0
            &&& config.active(holocene(), timestamp) ==> {
                &&& extra[0] == (if config.active(jovian(), timestamp) {
                    1u8
                } else {
                    0
                })
                &&& params != Seq::new(8, |i: int| 0u8) ==> extra.subrange(1, 9) == params
                &&& params == Seq::new(8, |i: int| 0u8) ==> {
                    &&& be_value(extra.subrange(1, 5))
                        == config.canyon_base_fee_params.max_change_denominator
                    &&& be_value(extra.subrange(5, 9))
                        == config.canyon_base_fee_params.elasticity_multiplier
                }
            }
            &&& config.active(holocene(), timestamp) && !config.active(jovian(), timestamp)
                ==> extra.len() == 9
            &&& config.active(jovian(), timestamp) ==> extra.len() == 17 && be_value(
                extra.subrange(9, 17),
            ) == attrs.min_base_fee->0
        }),
{
    if config.active(jovian(), timestamp) {
        law_activation_is_monotone(config, holocene(), jovian(), timestamp, timestamp);
    }
    if config.active(holocene(), timestamp) {
        let extra = extra_data::<X>(config, attrs, timestamp)->Ok_0;
        let params = base_fee_bytes(attrs.eip_1559_params->0, config.canyon_base_fee_params)->Ok_0;
        let d = config.canyon_base_fee_params.max_change_denominator as nat;
        let e = config.canyon_base_fee_params.elasticity_multiplier as nat;
        lemma_be_bytes_len(d, 4);
        lemma_be_bytes_len(e, 4);
        assert(params.len() == 8);
        assert(extra.subrange(1, 9) =~= params);
        assert(extra.subrange(1, 5) =~= params.subrange(0, 4));
        assert(extra.subrange(5, 9) =~= params.subrange(4, 8));
        assert(byte_range(4) == 0x1_0000_0000) by {
            reveal_with_fuel(byte_range, 5);
        }
        if attrs.eip_1559_params->0@ == Seq::new(8, |i: int| 0u8) {
            assert(params.subrange(0, 4) =~= be_bytes(d, 4));
            assert(params.subrange(4, 8) =~= be_bytes(e, 4));
            law_be_value_reads_be_bytes(d, 4);
            law_be_value_reads_be_bytes(e, 4);
        }
        if config.active(jovian(), timestamp) {
            let fee = attrs.min_base_fee->0 as nat;
            lemma_be_bytes_len(fee, 8);
            assert(byte_range(8) == 0x1_0000_0000_0000_0000) by {
                reveal_with_fuel(byte_range, 9);
            }
            law_be_value_reads_be_bytes(fee, 8);
            assert(extra.subrange(9, 17) =~= be_bytes(fee, 8));
        }
    }
}

/// The bytes that an output root is the digest of determine the three parts of it.
pub proof fn law_output_preimage_determines_parts(
    state_a: B256,
    storage_a: B256,
    block_a: B256,
    state_b: B256,
    storage_b: B256,
    block_b: B256,
)
    requires
        output_preimage(state_a@, storage_a@, block_a@) == output_preimage(
            state_b@,
            storage_b@,
            block_b@,
        ),
    ensures
        state_a@ == state_b@,
        storage_a@ == storage_b@,
        block_a@ == block_b@,
        output_preimage(state_a@, storage_a@, block_a@).len() == 128,
{
    let a = output_preimage(state_a@, storage_a@, block_a@);
    let b = output_preimage(state_b@, storage_b@, block_b@);
    assert(a.subrange(32, 64) =~= state_a@);
    assert(a.subrange(64, 96) =~= storage_a@);
    assert(a.subrange(96, 128) =~= block_a@);
    assert(b.subrange(32, 64) =~= state_b@);
    assert(b.subrange(64, 96) =~= storage_b@);
    assert(b.subrange(96, 128) =~= block_b@);
}

/// Whether eight bytes of base fee parameters are all zero, so that those of the chain stand in.
pub open spec fn all_zero(params: Seq<u8>) -> bool {
    forall|i: int| 0 <= i < params.len() ==> #[trigger] params[i] == 0
}

/// The extra data fails exactly in these cases: from Holocene on without base fee parameters, then
/// from Jovian on without a minimum base fee, and then where the parameters of the chain stand in
/// for those of the payload and one of them does not fit in four bytes, the denominator first.
/// Before Holocene it never fails.
pub proof fn law_extra_data_fails_for_what_is_missing<X>(
    config: RollupConfig,
    attrs: AttributesView,
    timestamp: u64,
)
    ensures
        ({
            let extra = extra_data::<X>(config, attrs, timestamp);
            let chain = config.canyon_base_fee_params;
            let needs_params = config.active(holocene(), timestamp);
            let needs_fee = config.active(jovian(), timestamp);
            let complete = attrs.eip_1559_params is Some && (needs_fee ==> attrs.min_base_fee is Some);
            let falls_back = complete && all_zero(attrs.eip_1559_params->0@);
            &&& !needs_params ==> extra is Ok
            &&& needs_params ==> {
                &&& extra == Err::<Seq<u8>, _>(ExecutorError::<X>::MissingEIP1559Params)
                    <==> attrs.eip_1559_params is None
                &&& extra == Err::<Seq<u8>, _>(ExecutorError::<X>::MissingMinBaseFee)
                    <==> attrs.eip_1559_params is Some && !complete
                &&& extra == Err::<Seq<u8>, _>(
                    ExecutorError::<X>::InvalidExtraData(EIP1559ParamError::DenominatorOverflow),
                ) <==> falls_back && chain.max_change_denominator > 0xffff_ffff
                &&& extra == Err::<Seq<u8>, _>(
                    ExecutorError::<X>::InvalidExtraData(EIP1559ParamError::ElasticityOverflow),
                ) <==> falls_back && chain.max_change_denominator <= 0xffff_ffff
                    && chain.elasticity_multiplier > 0xffff_ffff
                &&& extra is Ok <==> complete && (falls_back ==> chain.max_change_denominator
                    <= 0xffff_ffff && chain.elasticity_multiplier <= 0xffff_ffff)
            }
        }),
{
    let params = attrs.eip_1559_params->0@;
    let zeros = Seq::new(8, |i: int| 0u8);
    if attrs.eip_1559_params is Some {
        if all_zero(params) {
            assert(params =~= zeros);
        } else {
            let i = choose|i: int| 0 <= i < params.len() && params[i] != 0;
            assert(zeros[i] == 0);
        }
    }
}

/// A sealed header takes its fields unchanged from where they come from, whatever forks are active:
/// the beneficiary, the mix hash, the gas limit and the parent beacon block root from the
/// attributes; the number, the timestamp and the base fee from the environment; the parent hash,
/// the gas used and the state root as they were given. It has no ommers, no difficulty and a nonce
/// of zeros.
pub proof fn law_sealed_header_takes_its_fields_over<X>(
    config: RollupConfig,
    attrs: AttributesView,
    parent_hash: B256,
    env: BlockEnv,
    gas_used: u64,
    receipts: Seq<EnvelopeView>,
    state_root: Result<B256, TrieDBError<X>>,
    message_passer: Option<Result<B256, TrieDBError<X>>>,
)
    requires
        sealed(
            config,
            attrs,
            SealInput::of(parent_hash, env, gas_used),
            receipts,
            state_root,
            message_passer,
        ) is Ok,
    ensures
        ({
            let header = sealed(
                config,
                attrs,
                SealInput::of(parent_hash, env, gas_used),
                receipts,
                state_root,
                message_passer,
            )->Ok_0;
            &&& header.parent_hash == parent_hash@
            &&& header.beneficiary == attrs.suggested_fee_recipient
            &&& Ok::<Seq<u8>, TrieDBError<X>>(header.state_root) == result_bytes(state_root)
            &&& header.mix_hash == attrs.prev_randao
            &&& Some(header.gas_limit) == attrs.gas_limit
            &&& header.gas_used == gas_used
            &&& header.base_fee_per_gas == Some(env.basefee)
            &&& header.parent_beacon_block_root == attrs.parent_beacon_block_root
            &&& env.number.value() <= u64::MAX ==> header.number == env.number.value()
            &&& env.number.value() > u64::MAX ==> header.number == u64::MAX
            &&& env.timestamp.value() <= u64::MAX ==> header.timestamp == env.timestamp.value()
            &&& env.timestamp.value() > u64::MAX ==> header.timestamp == u64::MAX
            &&& header.ommers_hash == EMPTY_OMMER_ROOT_HASH@
            &&& header.difficulty == 0
            &&& header.nonce.len() == 8
            &&& all_zero(header.nonce)
        }),
{
}

/// The bytes of a hash, or the error in place of it.
pub open spec fn result_bytes<E>(r: Result<B256, E>) -> Result<Seq<u8>, E> {
    match r {
        Ok(hash) => Ok(hash@),
        Err(e) => Err(e),
    }
}

/// A sealed header commits to every transaction of the payload, to every receipt and to all of
/// their logs.
pub proof fn law_sealed_header_commits_to_the_block<X>(
    config: RollupConfig,
    attrs: AttributesView,
    input: SealInput,
    receipts: Seq<EnvelopeView>,
    state_root: Result<B256, TrieDBError<X>>,
    message_passer: Option<Result<B256, TrieDBError<X>>>,
    txs: Seq<Seq<u8>>,
)
    requires
        attrs.transactions == Some(txs),
        sealed(config, attrs, input, receipts, state_root, message_passer) is Ok,
    ensures
        ({
            let header = sealed(config, attrs, input, receipts, state_root, message_passer)->Ok_0;
            &&& header.transactions_root == ordered_trie_root(txs)
            &&& header.receipts_root == receipts_root(receipts, config, header.timestamp)
            &&& header.logs_bloom == bloom_of_logs(all_logs(receipts))
        }),
{
}

/// The withdrawals root of a sealed header is the storage root of the message passer from Isthmus
/// on, the root of an empty trie from Canyon until then, and absent before. The requests are none
/// from Isthmus on, and the blob gas, used and in excess, is zero from Ecotone on.
pub proof fn law_fork_decides_what_header_fields_hold<X>(
    config: RollupConfig,
    attrs: AttributesView,
    input: SealInput,
    receipts: Seq<EnvelopeView>,
    state_root: Result<B256, TrieDBError<X>>,
    storage_root: B256,
)
    requires
        sealed(config, attrs, input, receipts, state_root, Some(Ok(storage_root))) is Ok,
    ensures
        ({
            let header = sealed(
                config,
                attrs,
                input,
                receipts,
                state_root,
                Some(Ok(storage_root)),
            )->Ok_0;
            let time = header.timestamp;
            &&& config.active(isthmus(), time) ==> header.withdrawals_root == Some(storage_root@)
            &&& config.active(isthmus(), time) ==> header.requests_hash == Some(EMPTY_REQUESTS_HASH@)
            &&& !config.active(isthmus(), time) ==> header.requests_hash is None
            &&& config.active(canyon(), time) && !config.active(isthmus(), time)
                ==> header.withdrawals_root == Some(EMPTY_ROOT_HASH@)
            &&& !config.active(canyon(), time) ==> header.withdrawals_root is None
            &&& config.active(ecotone(), time) ==> header.blob_gas_used == Some(0u64)
                && header.excess_blob_gas == Some(0u64)
            &&& !config.active(ecotone(), time) ==> header.blob_gas_used is None
                && header.excess_blob_gas is None
            &&& extra_data::<X>(config, attrs, time) == Ok::<_, ExecutorError<X>>(header.extra_data)
        }),
{
    let timestamp = input.time();
    if config.active(isthmus(), timestamp) {
        law_activation_is_monotone(config, canyon(), isthmus(), timestamp, timestamp);
    }
}

/// Before Isthmus a sealed header does not depend on the storage root of the message passer.
pub proof fn law_message_passer_has_no_part_before_isthmus<X>(
    config: RollupConfig,
    attrs: AttributesView,
    input: SealInput,
    receipts: Seq<EnvelopeView>,
    state_root: Result<B256, TrieDBError<X>>,
    a: Option<Result<B256, TrieDBError<X>>>,
    b: Option<Result<B256, TrieDBError<X>>>,
)
    requires
        !config.active(isthmus(), saturate(input.timestamp) as u64),
    ensures
        sealed(config, attrs, input, receipts, state_root, a) == sealed(
            config,
            attrs,
            input,
            receipts,
            state_root,
            b,
        ),
{
}

/// Sealing a block fails with the first of these errors, and otherwise succeeds: that of the state
/// root; from Isthmus on that of the storage root of the message passer; that of the extra data; a
/// missing gas limit.
pub proof fn law_sealing_fails_with_the_first_error<X>(
    config: RollupConfig,
    attrs: AttributesView,
    input: SealInput,
    receipts: Seq<EnvelopeView>,
    state_root: Result<B256, TrieDBError<X>>,
    message_passer: Result<B256, TrieDBError<X>>,
)
    ensures
        ({
            let header = sealed(config, attrs, input, receipts, state_root, Some(message_passer));
            let time = saturate(input.timestamp) as u64;
            let extra = extra_data::<X>(config, attrs, time);
            &&& state_root matches Err(e) ==> header == Err::<HeaderView, _>(ExecutorError::TrieDB(e))
            &&& state_root is Ok && config.active(isthmus(), time) ==> (message_passer matches Err(e)
                ==> header == Err::<HeaderView, _>(ExecutorError::TrieDB(e)))
            &&& state_root is Ok && (config.active(isthmus(), time) ==> message_passer is Ok) ==> {
                &&& extra matches Err(e) ==> header == Err::<HeaderView, _>(e)
                &&& extra is Ok && attrs.gas_limit is None ==> header == Err::<HeaderView, _>(
                    ExecutorError::<X>::MissingGasLimit,
                )
                &&& extra is Ok && attrs.gas_limit is Some ==> header is Ok
            }
        }),
{
}

/// The storage root of the message passer is looked up only if it is not in the cache, and then it
/// is that of the account 0x42..16 as of the block asked for.
pub proof fn law_message_passer_is_looked_up_as_of_the_block(cached: B256, block_number: u64)
    ensures
        message_passer_root(Some(cached), block_number) == MessagePasserRoot::Cached(cached),
        message_passer_root(None, block_number) matches MessagePasserRoot::Fetch {
            address,
            block_number: number,
        } && number == block_number && address@[0] == 0x42 && address@[19] == 0x16 && forall|i: int|
            0 < i < 19 ==> #[trigger] address@[i] == 0,
{
}

/// The bytes that an output root is the digest of are, in this order: 32 zeros, which are the
/// version, the state root, the storage root of the message passer and the hash of the block.
pub proof fn law_output_preimage_layout(state_root: B256, storage_root: B256, block_hash: B256)
    ensures
        ({
            let bytes = output_preimage(state_root@, storage_root@, block_hash@);
            &&& bytes.len() == 128
            &&& forall|i: int| 0 <= i < 32 ==> #[trigger] bytes[i] == 0
            &&& forall|i: int| 32 <= i < 64 ==> #[trigger] bytes[i] == state_root@[i - 32]
            &&& forall|i: int| 64 <= i < 96 ==> #[trigger] bytes[i] == storage_root@[i - 64]
            &&& forall|i: int| 96 <= i < 128 ==> #[trigger] bytes[i] == block_hash@[i - 96]
        }),
{
}

/// A header with given roots takes the roots over unchanged.
pub proof fn law_header_takes_the_roots_over<X>(
    config: RollupConfig,
    attrs: AttributesView,
    input: SealInput,
    roots: BlockRootsView,
    message_passer: Option<Result<B256, TrieDBError<X>>>,
)
    requires
        header_with_roots(config, attrs, input, roots, message_passer) is Ok,
    ensures
        ({
            let header = header_with_roots(config, attrs, input, roots, message_passer)->Ok_0;
            &&& header.state_root == roots.state_root
            &&& header.transactions_root == roots.transactions_root
            &&& header.receipts_root == roots.receipts_root
            &&& header.logs_bloom == roots.logs_bloom
        }),
{
}

/// The contents of roots are the roots, and those of an outcome its bytes or its error.
pub proof fn law_contents_of_roots<E>(roots: BlockRoots, r: Result<Vec<u8>, E>)
    ensures
        roots@.state_root == roots.state_root@,
        roots@.transactions_root == roots.transactions_root@,
        roots@.receipts_root == roots.receipts_root@,
        roots@.logs_bloom == roots.logs_bloom@,
        r matches Ok(bytes) ==> bytes_result(r) == Ok::<_, E>(bytes@),
        r matches Err(e) ==> bytes_result(r) == Err::<Seq<u8>, _>(e),
{
}

} // verus!
