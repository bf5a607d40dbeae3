//! Sealing blocks and output roots.

use alloy_eips::eip1559::BaseFeeParams as AlloyParams;
use alloy_primitives::{keccak256, B64};
use kona::assemble::{
    assemble_header, encode_extra_data, encode_output, fetched_storage_root,
    message_passer_account, BlockEnv, BlockExecutionResult, BlockRoots, EIP1559ParamError,
    ExecutorError, MessagePasserRoot, StatelessL2Builder, TrieDBError, EMPTY_OMMER_ROOT_HASH,
    EMPTY_REQUESTS_HASH, L2_TO_L1_MESSAGE_PASSER,
};
use kona::config::{BaseFeeParams, ChainGenesis, HardForkConfig, RollupConfig};
use kona::header::{Header, SealedHeader};
use kona::primitives::{BlockNumHash, U256, ZERO_HASH};
use kona::receipt::{
    compute_receipts_root, Log, OpReceiptEnvelope, Receipt, ReceiptKind, ReceiptStatus,
    EMPTY_ROOT_HASH,
};
use kona::transaction::OpPayloadAttributes;
use op_alloy_consensus::{encode_holocene_extra_data, encode_jovian_extra_data};

fn forks() -> HardForkConfig {
    HardForkConfig {
        regolith_time: None,
        canyon_time: None,
        delta_time: None,
        ecotone_time: None,
        fjord_time: None,
        granite_time: None,
        holocene_time: None,
        isthmus_time: None,
        jovian_time: None,
        interop_time: None,
    }
}

fn config(hardforks: HardForkConfig) -> RollupConfig {
    let genesis = BlockNumHash { number: 0, hash: ZERO_HASH };
    RollupConfig {
        genesis: ChainGenesis { l1: genesis, l2: genesis },
        hardforks,
        channel_timeout: 300,
        granite_channel_timeout: 50,
        canyon_base_fee_params: BaseFeeParams {
            max_change_denominator: 250,
            elasticity_multiplier: 6,
        },
    }
}

fn parent() -> SealedHeader {
    SealedHeader::seal_slow(Header {
        parent_hash: ZERO_HASH,
        ommers_hash: EMPTY_OMMER_ROOT_HASH,
        beneficiary: [0; 20],
        state_root: [0xaa; 32],
        transactions_root: EMPTY_ROOT_HASH,
        receipts_root: EMPTY_ROOT_HASH,
        logs_bloom: [0; 256],
        difficulty: U256::zero(),
        number: 41,
        gas_limit: 30_000_000,
        gas_used: 0,
        timestamp: 98,
        extra_data: vec![],
        mix_hash: ZERO_HASH,
        nonce: [0; 8],
        base_fee_per_gas: Some(7),
        withdrawals_root: None,
        blob_gas_used: None,
        excess_blob_gas: None,
        parent_beacon_block_root: None,
        requests_hash: None,
    })
}

fn builder(hardforks: HardForkConfig) -> StatelessL2Builder<(), (), ()> {
    StatelessL2Builder::new(config(hardforks), (), (), (), parent())
}

fn attributes() -> OpPayloadAttributes {
    OpPayloadAttributes {
        timestamp: 100,
        prev_randao: [1; 32],
        suggested_fee_recipient: [2; 20],
        withdrawals: None,
        parent_beacon_block_root: Some([3; 32]),
        transactions: Some(vec![vec![0x7e, 1], vec![0x02, 2]]),
        no_tx_pool: None,
        gas_limit: Some(25_000_000),
        eip_1559_params: Some([0, 0, 0, 50, 0, 0, 0, 4]),
        min_base_fee: Some(0x0102_0304_0506_0708),
    }
}

fn env() -> BlockEnv {
    BlockEnv { number: U256::from_u64(42), timestamp: U256::from_u64(100), basefee: 11 }
}

fn executed() -> BlockExecutionResult {
    BlockExecutionResult {
        receipts: vec![OpReceiptEnvelope {
            kind: ReceiptKind::Eip1559,
            receipt: Receipt {
                status: ReceiptStatus::Eip658(true),
                cumulative_gas_used: 50_000,
                logs: vec![Log { address: [9; 20], topics: vec![[8; 32]], data: vec![7] }],
                logs_bloom: [6; 256],
            },
        }],
        gas_used: 50_000,
    }
}

type Root = Result<[u8; 32], TrieDBError<&'static str>>;

fn seal(
    b: &StatelessL2Builder<(), (), ()>,
    attrs: &OpPayloadAttributes,
    state_root: Root,
    message_passer: Option<Root>,
) -> Result<SealedHeader, ExecutorError<&'static str>> {
    b.seal_block(attrs, [0xbb; 32], &env(), &executed(), state_root, message_passer)
}

#[test]
fn constants_are_those_of_alloy() {
    assert_eq!(EMPTY_OMMER_ROOT_HASH, alloy_consensus::EMPTY_OMMER_ROOT_HASH.0);
    assert_eq!(EMPTY_REQUESTS_HASH, alloy_eips::eip7685::EMPTY_REQUESTS_HASH.0);
    assert_eq!(
        alloy_primitives::Address::from(L2_TO_L1_MESSAGE_PASSER).to_string(),
        "0x4200000000000000000000000000000000000016"
    );
}

#[test]
fn bedrock_header() {
    let b = builder(forks());
    assert_eq!(b.seal_lookup(&env(), None), None);
    let sealed = seal(&b, &attributes(), Ok([0xcc; 32]), None).unwrap();
    let h = &sealed.header;
    assert_eq!(sealed.hash, SealedHeader::seal_slow(h.clone()).hash);
    assert_eq!(h.parent_hash, [0xbb; 32]);
    assert_eq!(h.ommers_hash, EMPTY_OMMER_ROOT_HASH);
    assert_eq!(h.beneficiary, [2; 20]);
    assert_eq!(h.state_root, [0xcc; 32]);
    let txs = attributes().transactions.unwrap();
    assert_eq!(h.transactions_root, alloy_trie::root::ordered_trie_root_encoded(&txs).0);
    assert_eq!(h.receipts_root, compute_receipts_root(&executed().receipts, &b.config, 100));
    let log = alloy_primitives::Log::new_unchecked(
        [9; 20].into(),
        vec![[8; 32].into()],
        vec![7].into(),
    );
    assert_eq!(h.logs_bloom, *alloy_primitives::logs_bloom([&log]).0);
    assert_eq!(h.difficulty, U256::zero());
    assert_eq!((h.number, h.gas_limit, h.gas_used, h.timestamp), (42, 25_000_000, 50_000, 100));
    assert_eq!(h.extra_data, Vec::<u8>::new());
    assert_eq!(h.mix_hash, [1; 32]);
    assert_eq!(h.nonce, [0; 8]);
    assert_eq!(h.base_fee_per_gas, Some(11));
    assert_eq!(h.withdrawals_root, None);
    assert_eq!((h.blob_gas_used, h.excess_blob_gas), (None, None));
    assert_eq!(h.parent_beacon_block_root, Some([3; 32]));
    assert_eq!(h.requests_hash, None);
}

#[test]
fn canyon_header_has_the_empty_withdrawals_root() {
    let b = builder(HardForkConfig { canyon_time: Some(100), ..forks() });
    let h = seal(&b, &attributes(), Ok([0xcc; 32]), None).unwrap().header;
    assert_eq!(h.withdrawals_root, Some(EMPTY_ROOT_HASH));
    assert_eq!(h.blob_gas_used, None);
}

#[test]
fn ecotone_header_has_blob_fields() {
    let b = builder(HardForkConfig { ecotone_time: Some(100), ..forks() });
    let h = seal(&b, &attributes(), Ok([0xcc; 32]), None).unwrap().header;
    assert_eq!((h.blob_gas_used, h.excess_blob_gas), (Some(0), Some(0)));
    assert_eq!(h.extra_data, Vec::<u8>::new());
}

#[test]
fn holocene_header_has_base_fee_params() {
    let b = builder(HardForkConfig { holocene_time: Some(100), ..forks() });
    let h = seal(&b, &attributes(), Ok([0xcc; 32]), None).unwrap().header;
    assert_eq!(h.extra_data, [0, 0, 0, 0, 50, 0, 0, 0, 4]);
    assert_eq!(h.requests_hash, None);
}

#[test]
fn isthmus_header_commits_to_the_message_passer() {
    let b = builder(HardForkConfig { isthmus_time: Some(100), ..forks() });
    assert_eq!(
        b.seal_lookup(&env(), None),
        Some(MessagePasserRoot::Fetch { address: L2_TO_L1_MESSAGE_PASSER, block_number: 42 })
    );
    assert_eq!(b.seal_lookup(&env(), Some([4; 32])), Some(MessagePasserRoot::Cached([4; 32])));
    let h = seal(&b, &attributes(), Ok([0xcc; 32]), Some(Ok([0xdd; 32]))).unwrap().header;
    assert_eq!(h.withdrawals_root, Some([0xdd; 32]));
    assert_eq!(h.requests_hash, Some(EMPTY_REQUESTS_HASH));
}

#[test]
fn jovian_header_has_the_minimum_base_fee() {
    let b = builder(HardForkConfig { jovian_time: Some(100), ..forks() });
    let h = seal(&b, &attributes(), Ok([0xcc; 32]), Some(Ok([0xdd; 32]))).unwrap().header;
    assert_eq!(h.extra_data, [1, 0, 0, 0, 50, 0, 0, 0, 4, 1, 2, 3, 4, 5, 6, 7, 8]);
}

#[test]
fn numbers_saturate() {
    let b = builder(forks());
    let huge = BlockEnv {
        number: U256 { limbs: [1, 1, 0, 0] },
        timestamp: U256 { limbs: [1, 0, 0, 1] },
        basefee: 0,
    };
    let h = b
        .seal_block::<()>(&attributes(), ZERO_HASH, &huge, &executed(), Ok(ZERO_HASH), None)
        .unwrap()
        .header;
    assert_eq!((h.number, h.timestamp), (u64::MAX, u64::MAX));
}

#[test]
fn errors_come_in_their_order() {
    let b = builder(HardForkConfig { jovian_time: Some(100), ..forks() });
    let mut attrs = attributes();
    attrs.gas_limit = None;
    attrs.min_base_fee = None;
    attrs.eip_1559_params = None;
    assert_eq!(
        seal(&b, &attrs, Err(TrieDBError::Other("state")), None),
        Err(ExecutorError::TrieDB(TrieDBError::Other("state")))
    );
    assert_eq!(
        seal(&b, &attrs, Ok(ZERO_HASH), Some(Err(TrieDBError::MissingAccountInfo))),
        Err(ExecutorError::TrieDB(TrieDBError::MissingAccountInfo))
    );
    let passer = || Some(Ok(ZERO_HASH));
    assert_eq!(
        seal(&b, &attrs, Ok(ZERO_HASH), passer()),
        Err(ExecutorError::MissingEIP1559Params)
    );
    attrs.eip_1559_params = Some([0; 8]);
    assert_eq!(seal(&b, &attrs, Ok(ZERO_HASH), passer()), Err(ExecutorError::MissingMinBaseFee));
    attrs.min_base_fee = Some(1);
    assert_eq!(seal(&b, &attrs, Ok(ZERO_HASH), passer()), Err(ExecutorError::MissingGasLimit));
    attrs.gas_limit = Some(1);
    assert!(seal(&b, &attrs, Ok(ZERO_HASH), passer()).is_ok());
}

#[test]
fn minimum_base_fee_is_not_needed_before_jovian() {
    let b = builder(HardForkConfig { holocene_time: Some(100), ..forks() });
    let attrs = OpPayloadAttributes { min_base_fee: None, ..attributes() };
    assert!(seal(&b, &attrs, Ok(ZERO_HASH), None).is_ok());
    let attrs = OpPayloadAttributes { eip_1559_params: None, ..attributes() };
    assert_eq!(
        seal(&b, &attrs, Ok(ZERO_HASH), None),
        Err(ExecutorError::MissingEIP1559Params)
    );
}

#[test]
fn zero_params_stand_for_those_of_the_chain() {
    let holocene = config(HardForkConfig { holocene_time: Some(0), ..forks() });
    let attrs = OpPayloadAttributes { eip_1559_params: Some([0; 8]), ..attributes() };
    assert_eq!(
        encode_extra_data::<()>(&holocene, &attrs, 0),
        Ok(vec![0, 0, 0, 0, 250, 0, 0, 0, 6])
    );
}

#[test]
fn extra_data_is_that_of_op_alloy() {
    let chain = AlloyParams { max_change_denominator: 250, elasticity_multiplier: 6 };
    for params in [[0u8; 8], [1; 8], [0, 0, 0, 0, 0, 0, 0, 1], [0xff; 8]] {
        let attrs = OpPayloadAttributes { eip_1559_params: Some(params), ..attributes() };
        let holocene = config(HardForkConfig { holocene_time: Some(0), ..forks() });
        assert_eq!(
            encode_extra_data::<()>(&holocene, &attrs, 0).unwrap(),
            encode_holocene_extra_data(B64::from(params), chain).unwrap()
        );
        let jovian = config(HardForkConfig { jovian_time: Some(0), ..forks() });
        assert_eq!(
            encode_extra_data::<()>(&jovian, &attrs, 0).unwrap(),
            encode_jovian_extra_data(B64::from(params), chain, 0x0102_0304_0506_0708).unwrap()
        );
    }
}

#[test]
fn chain_params_must_fit() {
    let mut c = config(HardForkConfig { holocene_time: Some(0), ..forks() });
    let zero = OpPayloadAttributes { eip_1559_params: Some([0; 8]), ..attributes() };
    c.canyon_base_fee_params.elasticity_multiplier = 1 << 32;
    assert_eq!(
        encode_extra_data::<()>(&c, &zero, 0),
        Err(ExecutorError::InvalidExtraData(EIP1559ParamError::ElasticityOverflow))
    );
    c.canyon_base_fee_params.max_change_denominator = 1 << 32;
    assert_eq!(
        encode_extra_data::<()>(&c, &zero, 0),
        Err(ExecutorError::InvalidExtraData(EIP1559ParamError::DenominatorOverflow))
    );
    assert!(encode_extra_data::<()>(&c, &attributes(), 0).is_ok());
}

#[test]
fn message_passer_is_looked_for_in_the_cache_first() {
    assert_eq!(message_passer_account(Some([1; 32]), 5), MessagePasserRoot::Cached([1; 32]));
    assert_eq!(
        message_passer_account(None, 5),
        MessagePasserRoot::Fetch { address: L2_TO_L1_MESSAGE_PASSER, block_number: 5 }
    );
    assert_eq!(fetched_storage_root::<()>(Ok(Some([2; 32]))), Ok([2; 32]));
    assert_eq!(fetched_storage_root::<()>(Ok(None)), Err(TrieDBError::MissingAccountInfo));
    assert_eq!(
        fetched_storage_root(Err(TrieDBError::Other("gone"))),
        Err(TrieDBError::Other("gone"))
    );
    assert_eq!(
        fetched_storage_root::<()>(Err(TrieDBError::MissingAccountInfo)),
        Err(TrieDBError::MissingAccountInfo)
    );
}

#[test]
fn output_root_is_the_digest_of_its_parts() {
    let b = builder(forks());
    assert_eq!(
        b.output_root_lookup(None),
        MessagePasserRoot::Fetch { address: L2_TO_L1_MESSAGE_PASSER, block_number: 41 }
    );
    let mut raw = vec![0u8; 32];
    raw.extend_from_slice(&[0xaa; 32]);
    raw.extend_from_slice(&[0xee; 32]);
    raw.extend_from_slice(&parent().hash);
    assert_eq!(encode_output(&[0xaa; 32], &[0xee; 32], &parent().hash), raw);
    assert_eq!(b.compute_output_root::<()>(Ok([0xee; 32])), Ok(keccak256(&raw).0));
    assert_eq!(
        b.compute_output_root(Err(TrieDBError::Other("trie"))),
        Err(ExecutorError::TrieDB(TrieDBError::Other("trie")))
    );
}

#[test]
fn header_takes_its_roots_over() {
    let roots = BlockRoots {
        state_root: [1; 32],
        transactions_root: [2; 32],
        receipts_root: [3; 32],
        logs_bloom: [4; 256],
    };
    let isthmus = config(HardForkConfig { isthmus_time: Some(0), ..forks() });
    let h = assemble_header::<()>(
        &isthmus,
        &attributes(),
        [5; 32],
        &env(),
        6,
        &roots,
        Some(Ok([7; 32])),
    )
    .unwrap();
    assert_eq!((h.state_root, h.transactions_root), ([1; 32], [2; 32]));
    assert_eq!((h.receipts_root, h.logs_bloom), ([3; 32], [4; 256]));
    assert_eq!((h.parent_hash, h.gas_used), ([5; 32], 6));
    assert_eq!(h.withdrawals_root, Some([7; 32]));
}

#[test]
fn output_parts_do_not_mix() {
    let (a, b, c) = ([1; 32], [2; 32], [3; 32]);
    let output = encode_output(&a, &b, &c);
    assert_eq!(output.len(), 128);
    assert_ne!(output, encode_output(&b, &a, &c));
    assert_ne!(output, encode_output(&a, &c, &b));
}
