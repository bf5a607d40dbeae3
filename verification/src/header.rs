//! Block headers.

use crate::primitives::{copy_bytes, opt_bytes, Address, Bloom, B256, U256};
use alloy_consensus::Header as AlloyHeader;
use alloy_primitives::{FixedBytes, U256 as AlloyU256};
use alloy_rlp::Decodable;
use vstd::prelude::*;

verus! {

/// The error of an RLP decoder, carried as it comes.
#[verifier::external_type_specification]
#[verifier::external_body]
pub struct ExRlpError(alloy_rlp::Error);

/// The header of a block.
#[derive(Clone, Debug, PartialEq, Eq)]
pub struct Header {
    pub parent_hash: B256,
    pub ommers_hash: B256,
    pub beneficiary: Address,
    pub state_root: B256,
    pub transactions_root: B256,
    pub receipts_root: B256,
    pub logs_bloom: Bloom,
    pub difficulty: U256,
    pub number: u64,
    pub gas_limit: u64,
    pub gas_used: u64,
    pub timestamp: u64,
    pub extra_data: Vec<u8>,
    pub mix_hash: B256,
    pub nonce: [u8; 8],
    pub base_fee_per_gas: Option<u64>,
    pub withdrawals_root: Option<B256>,
    pub blob_gas_used: Option<u64>,
    pub excess_blob_gas: Option<u64>,
    pub parent_beacon_block_root: Option<B256>,
    pub requests_hash: Option<B256>,
}

/// The contents of a [`Header`].
#[verifier::ext_equal]
pub struct HeaderView {
    pub parent_hash: Seq<u8>,
    pub ommers_hash: Seq<u8>,
    pub beneficiary: Seq<u8>,
    pub state_root: Seq<u8>,
    pub transactions_root: Seq<u8>,
    pub receipts_root: Seq<u8>,
    pub logs_bloom: Seq<u8>,
    pub difficulty: nat,
    pub number: u64,
    pub gas_limit: u64,
    pub gas_used: u64,
    pub timestamp: u64,
    pub extra_data: Seq<u8>,
    pub mix_hash: Seq<u8>,
    pub nonce: Seq<u8>,
    pub base_fee_per_gas: Option<u64>,
    pub withdrawals_root: Option<Seq<u8>>,
    pub blob_gas_used: Option<u64>,
    pub excess_blob_gas: Option<u64>,
    pub parent_beacon_block_root: Option<Seq<u8>>,
    pub requests_hash: Option<Seq<u8>>,
}

impl View for Header {
    type V = HeaderView;

    open spec fn view(&self) -> HeaderView {
        HeaderView {
            parent_hash: self.parent_hash@,
            ommers_hash: self.ommers_hash@,
            beneficiary: self.beneficiary@,
            state_root: self.state_root@,
            transactions_root: self.transactions_root@,
            receipts_root: self.receipts_root@,
            logs_bloom: self.logs_bloom@,
            difficulty: self.difficulty.value(),
            number: self.number,
            gas_limit: self.gas_limit,
            gas_used: self.gas_used,
            timestamp: self.timestamp,
            extra_data: self.extra_data@,
            mix_hash: self.mix_hash@,
            nonce: self.nonce@,
            base_fee_per_gas: self.base_fee_per_gas,
            withdrawals_root: opt_bytes(self.withdrawals_root),
            blob_gas_used: self.blob_gas_used,
            excess_blob_gas: self.excess_blob_gas,
            parent_beacon_block_root: opt_bytes(self.parent_beacon_block_root),
            requests_hash: opt_bytes(self.requests_hash),
        }
    }
}

/// The name of the hash of a header.
pub uninterp spec fn header_hash(header: HeaderView) -> Seq<u8>;

/// The name of the outcome of decoding a header from the start of a byte string.
pub uninterp spec fn decoded_header(bytes: Seq<u8>) -> Result<HeaderView, alloy_rlp::Error>;

/// The view of the outcome of a decoder.
pub open spec fn result_view<T: View, E>(result: Result<T, E>) -> Result<T::V, E> {
    match result {
        Ok(value) => Ok(value@),
        Err(e) => Err(e),
    }
}

impl Header {
    /// A copy of the header.
    pub fn copy(&self) -> (r: Header)
        ensures
            r@ == self@,
    {
        Header {
            parent_hash: self.parent_hash,
            ommers_hash: self.ommers_hash,
            beneficiary: self.beneficiary,
            state_root: self.state_root,
            transactions_root: self.transactions_root,
            receipts_root: self.receipts_root,
            logs_bloom: self.logs_bloom,
            difficulty: self.difficulty,
            number: self.number,
            gas_limit: self.gas_limit,
            gas_used: self.gas_used,
            timestamp: self.timestamp,
            extra_data: copy_bytes(&self.extra_data),
            mix_hash: self.mix_hash,
            nonce: self.nonce,
            base_fee_per_gas: self.base_fee_per_gas,
            withdrawals_root: self.withdrawals_root,
            blob_gas_used: self.blob_gas_used,
            excess_blob_gas: self.excess_blob_gas,
            parent_beacon_block_root: self.parent_beacon_block_root,
            requests_hash: self.requests_hash,
        }
    }
}

/// The hash of a header, by `alloy_consensus::Header::hash_slow`: the Keccak-256 digest of the
/// RLP encoding of the header.
///
/// Claimed of the outside function: the hash is a function of the contents of the header.
#[verifier::external_body]
pub(crate) fn hash_slow(h: &Header) -> (r: B256)
    ensures
        r@ == header_hash(h@),
{
    AlloyHeader {
        parent_hash: FixedBytes(h.parent_hash), ommers_hash: FixedBytes(h.ommers_hash),
        beneficiary: h.beneficiary.into(), state_root: FixedBytes(h.state_root),
        transactions_root: FixedBytes(h.transactions_root), receipts_root: FixedBytes(h.receipts_root),
        logs_bloom: h.logs_bloom.into(), difficulty: AlloyU256::from_limbs(h.difficulty.limbs),
        number: h.number, gas_limit: h.gas_limit, gas_used: h.gas_used, timestamp: h.timestamp,
        extra_data: h.extra_data.clone().into(), mix_hash: FixedBytes(h.mix_hash), nonce: FixedBytes(h.nonce),
        base_fee_per_gas: h.base_fee_per_gas, withdrawals_root: h.withdrawals_root.map(FixedBytes),
        blob_gas_used: h.blob_gas_used, excess_blob_gas: h.excess_blob_gas,
        parent_beacon_block_root: h.parent_beacon_block_root.map(FixedBytes),
        requests_hash: h.requests_hash.map(FixedBytes),
    }.hash_slow().0
}

/// Decodes a header from the start of `bytes`, by the `alloy_rlp::Decodable` impl of
/// `alloy_consensus::Header`; what follows the header is not looked at.
///
/// Claimed of the outside function: the outcome, error included, is a function of the bytes.
#[verifier::external_body]
pub(crate) fn decode_header(bytes: &Vec<u8>) -> (r: Result<Header, alloy_rlp::Error>)
    ensures
        result_view(r) == decoded_header(bytes@),
{
    let h = AlloyHeader::decode(&mut bytes.as_slice())?;
    let AlloyHeader { number, gas_limit, gas_used, timestamp, base_fee_per_gas, blob_gas_used, excess_blob_gas, .. } = h;
    Ok(Header {
        parent_hash: h.parent_hash.0, ommers_hash: h.ommers_hash.0, beneficiary: h.beneficiary.into(),
        state_root: h.state_root.0, transactions_root: h.transactions_root.0,
        receipts_root: h.receipts_root.0, logs_bloom: h.logs_bloom.into(),
        difficulty: U256 { limbs: h.difficulty.into_limbs() }, number, gas_limit, gas_used, timestamp,
        extra_data: h.extra_data.into(), mix_hash: h.mix_hash.0, nonce: h.nonce.0,
        base_fee_per_gas, withdrawals_root: h.withdrawals_root.map(Into::into),
        blob_gas_used, excess_blob_gas,
        parent_beacon_block_root: h.parent_beacon_block_root.map(Into::into),
        requests_hash: h.requests_hash.map(Into::into),
    })
}

/// A header together with its hash.
#[derive(Clone, Debug, PartialEq, Eq)]
pub struct SealedHeader {
    pub header: Header,
    pub hash: B256,
}

/// The contents of a [`SealedHeader`].
#[verifier::ext_equal]
pub struct SealedView {
    pub header: HeaderView,
    pub hash: Seq<u8>,
}

impl View for SealedHeader {
    type V = SealedView;

    open spec fn view(&self) -> SealedView {
        SealedView { header: self.header@, hash: self.hash@ }
    }
}

impl SealedHeader {
    /// Seals a header with its hash.
    pub fn seal_slow(header: Header) -> (r: SealedHeader)
        ensures
            r@.header == header@,
            r@.hash == header_hash(header@),
    {
        let hash = hash_slow(&header);
        SealedHeader { header, hash }
    }

    /// A copy of the sealed header.
    pub fn copy(&self) -> (r: SealedHeader)
        ensures
            r@ == self@,
    {
        SealedHeader { header: self.header.copy(), hash: self.hash }
    }
}

/// The contents of a header are its fields, each as it is.
pub proof fn law_contents_of_a_header(header: Header, sealed: SealedHeader)
    ensures
        header@.parent_hash == header.parent_hash@,
        header@.ommers_hash == header.ommers_hash@,
        header@.beneficiary == header.beneficiary@,
        header@.state_root == header.state_root@,
        header@.transactions_root == header.transactions_root@,
        header@.receipts_root == header.receipts_root@,
        header@.logs_bloom == header.logs_bloom@,
        header@.difficulty == header.difficulty.value(),
        header@.number == header.number,
        header@.gas_limit == header.gas_limit,
        header@.gas_used == header.gas_used,
        header@.timestamp == header.timestamp,
        header@.extra_data == header.extra_data@,
        header@.mix_hash == header.mix_hash@,
        header@.nonce == header.nonce@,
        header@.base_fee_per_gas == header.base_fee_per_gas,
        header@.withdrawals_root == opt_bytes(header.withdrawals_root),
        header@.blob_gas_used == header.blob_gas_used,
        header@.excess_blob_gas == header.excess_blob_gas,
        header@.parent_beacon_block_root == opt_bytes(header.parent_beacon_block_root),
        header@.requests_hash == opt_bytes(header.requests_hash),
        sealed@.header == sealed.header@,
        sealed@.hash == sealed.hash@,
{
}

/// The contents of an outcome are those of its value, or its error as it is.
pub proof fn law_contents_of_an_outcome<T: View, E>(value: T, error: E)
    ensures
        result_view(Ok::<T, E>(value)) == Ok::<T::V, E>(value@),
        result_view(Err::<T, E>(error)) == Err::<T::V, E>(error),
{
}

} // verus!
