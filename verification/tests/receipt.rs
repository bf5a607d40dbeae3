//! Receipts against those of op-alloy.

use alloy_consensus::{Eip658Value, ReceiptWithBloom};
use alloy_eips::eip2718::Encodable2718;
use alloy_primitives::{Bytes, FixedBytes};
use kona::config::{BaseFeeParams, ChainGenesis, HardForkConfig, RollupConfig};
use kona::primitives::{BlockNumHash, ZERO_HASH};
use kona::receipt::{
    compute_logs_bloom, compute_receipts_root, encode_receipts, flatten_logs, strip_nonce, Log,
    OpReceiptEnvelope, Receipt, ReceiptKind, ReceiptStatus, EMPTY_ROOT_HASH,
};
use op_alloy_consensus::{OpDepositReceipt, OpReceiptEnvelope as AlloyEnvelope};

fn config(regolith_time: Option<u64>, canyon_time: Option<u64>) -> RollupConfig {
    let genesis = BlockNumHash { number: 0, hash: ZERO_HASH };
    RollupConfig {
        genesis: ChainGenesis { l1: genesis, l2: genesis },
        hardforks: HardForkConfig {
            regolith_time,
            canyon_time,
            delta_time: None,
            ecotone_time: None,
            fjord_time: None,
            granite_time: None,
            holocene_time: None,
            isthmus_time: None,
            jovian_time: None,
            interop_time: None,
        },
        channel_timeout: 300,
        granite_channel_timeout: 50,
        canyon_base_fee_params: BaseFeeParams {
            max_change_denominator: 250,
            elasticity_multiplier: 6,
        },
    }
}

fn log(n: u8) -> Log {
    Log { address: [n; 20], topics: vec![[n; 32], [n + 1; 32]], data: vec![n, 0, n] }
}

fn envelope(kind: ReceiptKind, status: ReceiptStatus, logs: Vec<Log>) -> OpReceiptEnvelope {
    OpReceiptEnvelope {
        kind,
        receipt: Receipt { status, cumulative_gas_used: 21_000, logs, logs_bloom: [0x11; 256] },
    }
}

fn deposit(deposit_nonce: Option<u64>) -> OpReceiptEnvelope {
    envelope(
        ReceiptKind::Deposit { deposit_nonce, deposit_receipt_version: Some(1) },
        ReceiptStatus::Eip658(true),
        vec![log(5)],
    )
}

fn all_kinds() -> Vec<OpReceiptEnvelope> {
    vec![
        deposit(Some(9)),
        envelope(ReceiptKind::Legacy, ReceiptStatus::PostState([3; 32]), vec![]),
        envelope(ReceiptKind::Eip2930, ReceiptStatus::Eip658(false), vec![log(1)]),
        envelope(ReceiptKind::Eip1559, ReceiptStatus::Eip658(true), vec![log(2), log(3)]),
        envelope(ReceiptKind::Eip7702, ReceiptStatus::Eip658(true), vec![log(4)]),
    ]
}

fn alloy_log(l: &Log) -> alloy_primitives::Log {
    alloy_primitives::Log::new_unchecked(
        l.address.into(),
        l.topics.iter().map(|t| FixedBytes(*t)).collect(),
        Bytes::from(l.data.clone()),
    )
}

fn alloy(r: &OpReceiptEnvelope) -> AlloyEnvelope {
    let inner = alloy_consensus::Receipt {
        status: match r.receipt.status {
            ReceiptStatus::Eip658(s) => Eip658Value::Eip658(s),
            ReceiptStatus::PostState(root) => Eip658Value::PostState(FixedBytes(root)),
        },
        cumulative_gas_used: r.receipt.cumulative_gas_used,
        logs: r.receipt.logs.iter().map(alloy_log).collect(),
    };
    let logs_bloom = r.receipt.logs_bloom.into();
    let plain = ReceiptWithBloom { receipt: inner.clone(), logs_bloom };
    match r.kind {
        ReceiptKind::Legacy => AlloyEnvelope::Legacy(plain),
        ReceiptKind::Eip2930 => AlloyEnvelope::Eip2930(plain),
        ReceiptKind::Eip1559 => AlloyEnvelope::Eip1559(plain),
        ReceiptKind::Eip7702 => AlloyEnvelope::Eip7702(plain),
        ReceiptKind::Deposit { deposit_nonce, deposit_receipt_version } => {
            AlloyEnvelope::Deposit(ReceiptWithBloom {
                receipt: OpDepositReceipt { inner, deposit_nonce, deposit_receipt_version },
                logs_bloom,
            })
        }
    }
}

fn alloy_root(receipts: &[OpReceiptEnvelope]) -> [u8; 32] {
    alloy_trie::root::ordered_trie_root_with_encoder(receipts, |r, buf| {
        alloy(r).encode_2718(buf)
    })
    .0
}

#[test]
fn encoding_is_that_of_op_alloy() {
    let expected: Vec<Vec<u8>> = all_kinds().iter().map(|r| alloy(r).encoded_2718()).collect();
    assert_eq!(encode_receipts(&all_kinds(), false), expected);
    assert_eq!(expected[0][0], 0x7e);
    assert_eq!(expected[2][0], 0x01);
    assert_eq!(expected[3][0], 0x02);
    assert_eq!(expected[4][0], 0x04);
}

#[test]
fn stripping_leaves_out_the_deposit_nonce_only() {
    let mut expected: Vec<Vec<u8>> = all_kinds().iter().map(|r| alloy(r).encoded_2718()).collect();
    expected[0] = alloy(&deposit(None)).encoded_2718();
    assert_eq!(encode_receipts(&all_kinds(), true), expected);
}

#[test]
fn root_strips_the_nonce_from_regolith_until_canyon() {
    let with = vec![deposit(Some(9)), deposit(Some(10))];
    let without = vec![deposit(None), deposit(None)];
    assert_ne!(alloy_root(&with), alloy_root(&without));

    let bedrock = config(None, None);
    assert_eq!(compute_receipts_root(&with, &bedrock, 100), alloy_root(&with));

    let window = config(Some(10), Some(20));
    assert_eq!(compute_receipts_root(&with, &window, 9), alloy_root(&with));
    assert_eq!(compute_receipts_root(&with, &window, 10), alloy_root(&without));
    assert_eq!(compute_receipts_root(&with, &window, 19), alloy_root(&without));
    assert_eq!(compute_receipts_root(&with, &window, 20), alloy_root(&with));
    assert_eq!(
        compute_receipts_root(&with, &window, 15),
        compute_receipts_root(&without, &window, 15)
    );
}

#[test]
fn root_of_many_receipts() {
    let many: Vec<OpReceiptEnvelope> = (0..200).map(|i| deposit(Some(i))).collect();
    assert_eq!(compute_receipts_root(&many, &config(None, Some(0)), 0), alloy_root(&many));
}

#[test]
fn root_of_no_receipts_is_the_empty_root() {
    assert_eq!(EMPTY_ROOT_HASH, alloy_trie::EMPTY_ROOT_HASH.0);
    assert_eq!(compute_receipts_root(&[], &config(None, None), 0), EMPTY_ROOT_HASH);
}

#[test]
fn bloom_is_that_of_all_logs() {
    let logs: Vec<alloy_primitives::Log> =
        all_kinds().iter().flat_map(|r| r.receipt.logs.iter().map(alloy_log)).collect();
    assert_eq!(logs.len(), 5);
    let bloom = compute_logs_bloom(&all_kinds());
    assert_eq!(bloom, *alloy_primitives::logs_bloom(&logs).0);
    assert_ne!(bloom, [0; 256]);
}

#[test]
fn bloom_of_no_logs_is_zero() {
    assert_eq!(compute_logs_bloom(&[]), [0; 256]);
    let silent = envelope(ReceiptKind::Legacy, ReceiptStatus::Eip658(true), vec![]);
    assert_eq!(compute_logs_bloom(&[silent]), [0; 256]);
}

#[test]
fn logs_are_flattened_in_their_order() {
    let receipts = all_kinds();
    let flat: Vec<u8> = flatten_logs(&receipts).iter().map(|l| l.address[0]).collect();
    assert_eq!(flat, [5, 1, 2, 3, 4]);
}

#[test]
fn only_a_deposit_has_a_nonce_to_strip() {
    assert_eq!(
        strip_nonce(ReceiptKind::Deposit {
            deposit_nonce: Some(3),
            deposit_receipt_version: Some(1)
        }),
        ReceiptKind::Deposit { deposit_nonce: None, deposit_receipt_version: Some(1) }
    );
    assert_eq!(strip_nonce(ReceiptKind::Eip1559), ReceiptKind::Eip1559);
}

#[test]
fn bloom_sets_three_bits_per_address_and_topic() {
    let receipts = all_kinds();
    let mut expected = [0u8; 256];
    for log in flatten_logs(&receipts) {
        let mut items: Vec<&[u8]> = vec![&log.address];
        items.extend(log.topics.iter().map(|topic| &topic[..]));
        for item in items {
            let digest = alloy_primitives::keccak256(item);
            for i in [0, 2, 4] {
                let bit = (256 * digest[i] as usize + digest[i + 1] as usize) % 2048;
                expected[255 - bit / 8] |= 1 << (bit % 8);
            }
        }
    }
    assert_eq!(compute_logs_bloom(&receipts), expected);
}

#[test]
fn bloom_ignores_the_data() {
    let with = |data: Vec<u8>| {
        let logs = vec![Log { data, ..log(7) }];
        compute_logs_bloom(&[envelope(ReceiptKind::Legacy, ReceiptStatus::Eip658(true), logs)])
    };
    assert_eq!(with(vec![]), with(vec![1, 2, 3]));
}
