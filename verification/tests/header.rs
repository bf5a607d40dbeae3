//! Headers against those of alloy.

use alloy_consensus::Header as AlloyHeader;
use alloy_primitives::{Bytes, FixedBytes};
use alloy_rlp::Encodable;
use kona::header::{Header, SealedHeader};
use kona::oracle::header_from_preimage;
use kona::primitives::{U256, ZERO_HASH};

fn full() -> Header {
    Header {
        parent_hash: [1; 32],
        ommers_hash: [2; 32],
        beneficiary: [3; 20],
        state_root: [4; 32],
        transactions_root: [5; 32],
        receipts_root: [6; 32],
        logs_bloom: [7; 256],
        difficulty: U256 { limbs: [8, 9, 10, 11] },
        number: 12,
        gas_limit: 13,
        gas_used: 14,
        timestamp: 15,
        extra_data: vec![16, 17],
        mix_hash: [18; 32],
        nonce: [19; 8],
        base_fee_per_gas: Some(20),
        withdrawals_root: Some([21; 32]),
        blob_gas_used: Some(22),
        excess_blob_gas: Some(23),
        parent_beacon_block_root: Some([24; 32]),
        requests_hash: Some([25; 32]),
    }
}

fn bare() -> Header {
    Header {
        extra_data: vec![],
        base_fee_per_gas: None,
        withdrawals_root: None,
        blob_gas_used: None,
        excess_blob_gas: None,
        parent_beacon_block_root: None,
        requests_hash: None,
        ..full()
    }
}

fn alloy(h: &Header) -> AlloyHeader {
    AlloyHeader {
        parent_hash: FixedBytes(h.parent_hash),
        ommers_hash: FixedBytes(h.ommers_hash),
        beneficiary: h.beneficiary.into(),
        state_root: FixedBytes(h.state_root),
        transactions_root: FixedBytes(h.transactions_root),
        receipts_root: FixedBytes(h.receipts_root),
        logs_bloom: h.logs_bloom.into(),
        difficulty: alloy_primitives::U256::from_limbs(h.difficulty.limbs),
        number: h.number,
        gas_limit: h.gas_limit,
        gas_used: h.gas_used,
        timestamp: h.timestamp,
        extra_data: Bytes::from(h.extra_data.clone()),
        mix_hash: FixedBytes(h.mix_hash),
        nonce: FixedBytes(h.nonce),
        base_fee_per_gas: h.base_fee_per_gas,
        withdrawals_root: h.withdrawals_root.map(FixedBytes),
        blob_gas_used: h.blob_gas_used,
        excess_blob_gas: h.excess_blob_gas,
        parent_beacon_block_root: h.parent_beacon_block_root.map(FixedBytes),
        requests_hash: h.requests_hash.map(FixedBytes),
    }
}

fn encoded(h: &Header) -> Vec<u8> {
    let mut out = Vec::new();
    alloy(h).encode(&mut out);
    out
}

#[test]
fn seal_is_the_digest_of_the_encoding() {
    for h in [full(), bare()] {
        let sealed = SealedHeader::seal_slow(h.clone());
        assert_eq!(sealed.header, h);
        assert_eq!(sealed.hash, alloy(&h).hash_slow().0);
        assert_eq!(sealed.hash, alloy_primitives::keccak256(encoded(&h)).0);
        assert_eq!(sealed.copy(), sealed);
        assert_ne!(sealed.hash, ZERO_HASH);
    }
}

#[test]
fn preimage_decodes_to_the_header() {
    for h in [full(), bare()] {
        assert_eq!(header_from_preimage::<()>(&encoded(&h)), Ok(h));
    }
}

#[test]
fn what_follows_the_header_is_not_looked_at() {
    let mut bytes = encoded(&full());
    bytes.push(0xff);
    assert_eq!(header_from_preimage::<()>(&bytes), Ok(full()));
}

#[test]
fn broken_preimage_is_an_rlp_error() {
    let bytes = encoded(&full());
    assert!(matches!(
        header_from_preimage::<()>(&bytes[..bytes.len() - 1].to_vec()),
        Err(kona::oracle::OracleProviderError::Rlp(alloy_rlp::Error::InputTooShort))
    ));
    assert!(matches!(
        header_from_preimage::<()>(&vec![0x80]),
        Err(kona::oracle::OracleProviderError::Rlp(alloy_rlp::Error::UnexpectedString))
    ));
}

#[test]
fn copy_holds_the_same_fields() {
    assert_eq!(full().copy(), full());
    assert_eq!(bare().copy(), bare());
}
