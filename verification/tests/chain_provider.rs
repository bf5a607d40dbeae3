//! The chain provider, played against a chain that is kept in memory.

use alloy_consensus::Header as AlloyHeader;
use alloy_eips::eip2718::Encodable2718;
use alloy_eips::eip4895::Withdrawal as AlloyWithdrawal;
use alloy_primitives::{Address, FixedBytes, Sealable, TxKind};
use alloy_rlp::Encodable;
use kona::block_query::{assemble_block, make_block};
use kona::block_read::{BlockRead, BlockReadAction, BlockReadEvent};
use kona::chain_provider::OracleL2ChainProvider;
use kona::config::{BaseFeeParams, ChainGenesis, HardForkConfig, RollupConfig};
use kona::header::Header;
use kona::oracle::{
    header_from_preimage, header_step, Hint, HintType, NodeAction, NodeEvent, OracleProviderError,
    PreimageStage, ProviderAction, ProviderEvent,
};
use kona::primitives::{BlockInfo, BlockNumHash, L2BlockInfo, U256, ZERO_HASH};
use kona::transaction::{OpBlock, OpPayloadAttributes, Withdrawal};
use kona::walk::HeaderWalk;
use op_alloy_consensus::{OpTxEnvelope, TxDeposit};
use op_alloy_rpc_types_engine::OpPayloadAttributes as EngineAttributes;

type Provider = OracleL2ChainProvider<(), ()>;
type Fault = OracleProviderError<&'static str>;

fn forks() -> HardForkConfig {
    HardForkConfig {
        regolith_time: None,
        canyon_time: None,
        delta_time: None,
        ecotone_time: None,
        fjord_time: None,
        granite_time: None,
        holocene_time: None,
        isthmus_time: None,
        jovian_time: None,
        interop_time: None,
    }
}

fn config(hardforks: HardForkConfig) -> RollupConfig {
    let genesis = BlockNumHash { number: 0, hash: ZERO_HASH };
    RollupConfig {
        genesis: ChainGenesis { l1: genesis, l2: genesis },
        hardforks,
        channel_timeout: 300,
        granite_channel_timeout: 50,
        canyon_base_fee_params: BaseFeeParams {
            max_change_denominator: 250,
            elasticity_multiplier: 6,
        },
    }
}

/// The encodings and the hashes of the headers with numbers `100..100 + n`. The timestamp of each
/// is its number, and its transactions root is filled with the last byte of its number.
fn chain(n: u64) -> (Vec<Vec<u8>>, Vec<[u8; 32]>) {
    let mut encodings = Vec::new();
    let mut hashes: Vec<[u8; 32]> = Vec::new();
    for i in 0..n {
        let header = AlloyHeader {
            parent_hash: FixedBytes(hashes.last().copied().unwrap_or(ZERO_HASH)),
            number: 100 + i,
            timestamp: 100 + i,
            transactions_root: FixedBytes([(100 + i) as u8; 32]),
            ..Default::default()
        };
        let mut bytes = Vec::new();
        header.encode(&mut bytes);
        encodings.push(bytes);
        hashes.push(header.hash_slow().0);
    }
    (encodings, hashes)
}

/// The host: it answers from the chain, and looks up history as `lookup` says.
struct Host<'a> {
    encodings: Vec<Vec<u8>>,
    hashes: Vec<[u8; 32]>,
    items: Vec<Vec<u8>>,
    lookup: &'a dyn Fn(u64, u64) -> Result<u64, &'static str>,
    hints: Vec<Hint>,
    lookups: usize,
}

impl<'a> Host<'a> {
    fn new(n: u64, lookup: &'a dyn Fn(u64, u64) -> Result<u64, &'static str>) -> Host<'a> {
        let (encodings, hashes) = chain(n);
        Host { encodings, hashes, items: vec![], lookup, hints: vec![], lookups: 0 }
    }

    fn reply<T>(
        &mut self,
        action: ProviderAction<T, &'static str>,
    ) -> Result<ProviderEvent<&'static str>, Result<T, Fault>> {
        match action {
            ProviderAction::SendHint(hint) => {
                self.hints.push(hint);
                Ok(ProviderEvent::HintSent(Ok(())))
            }
            ProviderAction::GetPreimage(hash) => {
                let place = self.hashes.iter().position(|h| *h == hash);
                Ok(ProviderEvent::Preimage(match place {
                    Some(i) => Ok(self.encodings[i].clone()),
                    None => Err("unknown hash"),
                }))
            }
            ProviderAction::HistoryLookup { header, block_number } => {
                self.lookups += 1;
                Ok(ProviderEvent::History(
                    (self.lookup)(header.number, block_number)
                        .map(|number| self.hashes[(number - 100) as usize]),
                ))
            }
            ProviderAction::WalkTrie(root) => {
                assert_eq!(self.hints.last().unwrap().hint_type, HintType::L2Transactions);
                self.items.push(root.to_vec());
                let leaves = self.items[..self.items.len() - 1].to_vec();
                Ok(ProviderEvent::TrieItems(Ok(leaves)))
            }
            ProviderAction::Done(result) => Err(result),
        }
    }
}

fn provider(host: &Host, hardforks: HardForkConfig) -> Provider {
    OracleL2ChainProvider::new(*host.hashes.last().unwrap(), config(hardforks), ())
}

fn find_header(host: &mut Host, p: &Provider, number: u64) -> Result<Header, Fault> {
    let (mut walk, mut action) = p.header_by_number(number, None);
    loop {
        match host.reply(action) {
            Ok(event) => action = walk.step(event),
            Err(result) => return result,
        }
    }
}

fn find_block(host: &mut Host, p: &Provider, number: u64) -> Result<OpBlock, Fault> {
    let (mut query, mut action) = p.block_by_number(number, None);
    loop {
        match host.reply(action) {
            Ok(event) => action = query.step(event),
            Err(result) => return result,
        }
    }
}

fn never(_: u64, _: u64) -> Result<u64, &'static str> {
    panic!("the history contract is not consulted")
}

fn deposit(value: u64) -> OpTxEnvelope {
    OpTxEnvelope::Deposit(
        TxDeposit {
            to: TxKind::Call(Address::with_last_byte(2)),
            value: alloy_primitives::U256::from(value),
            ..Default::default()
        }
        .seal_slow(),
    )
}

#[test]
fn setters_change_one_field_each() {
    let mut p: OracleL2ChainProvider<&str, u8> =
        OracleL2ChainProvider::new([1; 32], config(forks()), "oracle");
    assert_eq!((p.l2_head, p.oracle, p.cursor, p.chain_id), ([1; 32], "oracle", None, None));
    p.set_chain_id(Some(10));
    p.set_cursor(3);
    assert_eq!((p.l2_head, p.oracle, p.cursor, p.chain_id), ([1; 32], "oracle", Some(3), Some(10)));
}

#[test]
fn safe_head_is_that_of_the_cursor() {
    let mut p: OracleL2ChainProvider<(), ()> =
        OracleL2ChainProvider::new([1; 32], config(forks()), ());
    assert_eq!(p.l2_safe_head::<()>(None), Ok([1; 32]));
    p.set_cursor(());
    let head = L2BlockInfo {
        block_info: BlockInfo {
            hash: [2; 32],
            number: 5,
            parent_hash: ZERO_HASH,
            timestamp: 0,
        },
        l1_origin: BlockNumHash { number: 0, hash: ZERO_HASH },
        seq_num: 0,
    };
    assert_eq!(p.l2_safe_head::<()>(Some(head)), Ok([2; 32]));
}

#[test]
fn linear_walk_visits_every_header() {
    let mut host = Host::new(10, &never);
    let p = provider(&host, forks());
    let header = find_header(&mut host, &p, 104).unwrap();
    assert_eq!(header, header_from_preimage::<()>(&host.encodings[4]).unwrap());
    assert_eq!(header.number, 104);
    assert_eq!(host.hints.len(), 6);
    for (hint, hash) in host.hints.iter().zip(host.hashes.iter().rev()) {
        assert_eq!(*hint, Hint { hint_type: HintType::L2BlockHeader, data: hash.to_vec() });
    }
}

#[test]
fn safe_head_itself_is_found_at_once() {
    let mut host = Host::new(10, &never);
    let p = provider(&host, HardForkConfig { isthmus_time: Some(0), ..forks() });
    assert_eq!(find_header(&mut host, &p, 109).unwrap().number, 109);
    assert_eq!(host.hints.len(), 1);
}

#[test]
fn history_contract_leaps() {
    let mut host = Host::new(50, &|_, number| Ok(number));
    let p = provider(&host, HardForkConfig { isthmus_time: Some(0), ..forks() });
    assert_eq!(find_header(&mut host, &p, 101).unwrap().number, 101);
    assert_eq!((host.hints.len(), host.lookups), (2, 1));

    let mut host = Host::new(50, &|from, number| Ok(number.max(from - 10)));
    assert_eq!(find_header(&mut host, &p, 115).unwrap().number, 115);
    assert_eq!((host.hints.len(), host.lookups), (5, 4));
}

#[test]
fn history_contract_is_given_up_once_it_fails() {
    let mut host = Host::new(10, &|_, _| Err("not in the trie"));
    let p = provider(&host, HardForkConfig { isthmus_time: Some(0), ..forks() });
    assert_eq!(find_header(&mut host, &p, 103).unwrap().number, 103);
    assert_eq!((host.hints.len(), host.lookups), (7, 1));
}

#[test]
fn walk_is_linear_before_isthmus() {
    let mut host = Host::new(10, &|_, number| Ok(number.max(106)));
    let p = provider(&host, HardForkConfig { isthmus_time: Some(107), ..forks() });
    assert_eq!(find_header(&mut host, &p, 102).unwrap().number, 102);
    assert_eq!((host.hints.len(), host.lookups), (6, 1));
}

#[test]
fn number_past_the_head_is_refused() {
    let mut host = Host::new(10, &never);
    let p = provider(&host, forks());
    assert_eq!(
        find_header(&mut host, &p, 110),
        Err(OracleProviderError::BlockNumberPastHead(110, 109))
    );
    assert_eq!(host.hints.len(), 1);
}

#[test]
fn broken_oracle_ends_the_walk() {
    let mut host = Host::new(10, &never);
    let p = provider(&host, forks());
    assert_eq!(
        find_header(&mut host, &p, 99),
        Err(OracleProviderError::Preimage("unknown hash"))
    );

    let (mut walk, _) = p.header_by_number::<&str>(105, None);
    assert!(matches!(
        walk.step(ProviderEvent::HintSent(Err("no host"))),
        ProviderAction::Done(Err(OracleProviderError::Preimage("no host")))
    ));

    host.encodings[9] = vec![0xc0];
    assert!(matches!(find_header(&mut host, &p, 105), Err(OracleProviderError::Rlp(_))));
}

#[test]
fn block_holds_the_transactions_of_its_trie() {
    let mut host = Host::new(10, &never);
    host.items = vec![deposit(1).encoded_2718(), deposit(2).encoded_2718()];
    let mut p = provider(&host, HardForkConfig { canyon_time: Some(105), ..forks() });
    p.set_chain_id(Some(0x0a));
    let block = find_block(&mut host, &p, 105).unwrap();
    assert_eq!(block.header.number, 105);
    assert_eq!(block.transactions, [deposit(1), deposit(2)]);
    assert_eq!(block.withdrawals, Some(vec![]));
    assert_eq!(host.items[2], [105; 32]);
    let mut data = host.hashes[5].to_vec();
    data.extend_from_slice(&[0, 0, 0, 0, 0, 0, 0, 0x0a]);
    assert_eq!(
        *host.hints.last().unwrap(),
        Hint { hint_type: HintType::L2Transactions, data }
    );
}

#[test]
fn block_has_no_withdrawals_before_canyon() {
    let mut host = Host::new(10, &never);
    let p = provider(&host, HardForkConfig { canyon_time: Some(106), ..forks() });
    let block = find_block(&mut host, &p, 105).unwrap();
    assert_eq!((block.transactions.len(), block.withdrawals), (0, None));
}

#[test]
fn block_errors() {
    let mut host = Host::new(10, &never);
    let p = provider(&host, forks());
    assert_eq!(
        find_block(&mut host, &p, 200),
        Err(OracleProviderError::BlockNumberPastHead(200, 109))
    );
    host.items = vec![deposit(1).encoded_2718(), vec![0x7e]];
    assert_eq!(
        find_block(&mut host, &p, 105),
        Err(OracleProviderError::Rlp(alloy_rlp::Error::InputTooShort))
    );

    let header = header_from_preimage::<&str>(&host.encodings[9]).unwrap();
    let (mut query, mut action) = p.block_by_number::<&str>(109, None);
    for _ in 0..2 {
        action = query.step(host.reply(action).unwrap());
    }
    assert!(matches!(action, ProviderAction::SendHint(_)));
    assert!(matches!(
        query.step::<&str>(ProviderEvent::HintSent(Ok(()))),
        ProviderAction::WalkTrie(_)
    ));
    assert_eq!(
        query.step(ProviderEvent::TrieItems(Err("no node"))),
        ProviderAction::Done(Err(OracleProviderError::TrieWalker("no node")))
    );

    let (mut query, mut action) = p.block_by_number::<&str>(109, None);
    for _ in 0..2 {
        action = query.step(host.reply(action).unwrap());
    }
    assert_eq!(
        query.step(ProviderEvent::HintSent(Err("no host"))),
        ProviderAction::Done(Err(OracleProviderError::Preimage("no host")))
    );
    assert!(assemble_block::<()>(&p.rollup_config, header, &vec![]).is_ok());
}

#[test]
fn header_by_hash_hints_reads_and_decodes() {
    let host = Host::new(3, &never);
    let p = provider(&host, forks());
    let (mut query, action) = p.header_by_hash::<&str>(host.hashes[1]);
    assert_eq!(
        action,
        ProviderAction::SendHint(Hint {
            hint_type: HintType::L2BlockHeader,
            data: host.hashes[1].to_vec(),
        })
    );
    assert_eq!(
        header_step::<&str>(&mut query, ProviderEvent::HintSent(Ok(()))),
        ProviderAction::GetPreimage(host.hashes[1])
    );
    match header_step::<&str>(&mut query, ProviderEvent::Preimage(Ok(host.encodings[1].clone()))) {
        ProviderAction::Done(Ok(header)) => assert_eq!(header.number, 101),
        other => panic!("{other:?}"),
    }
}

#[test]
fn bytecode_is_hinted_and_read() {
    let mut p: Provider = OracleL2ChainProvider::new(ZERO_HASH, config(forks()), ());
    p.set_chain_id(Some(1));
    let (mut query, action) = p.bytecode_by_hash::<&str>([9; 32]);
    let mut data = vec![9; 32];
    data.extend_from_slice(&[0, 0, 0, 0, 0, 0, 0, 1]);
    assert_eq!(action, ProviderAction::SendHint(Hint { hint_type: HintType::L2Code, data }));
    assert_eq!(
        query.step::<&str>(ProviderEvent::HintSent(Ok(()))),
        ProviderAction::GetPreimage([9; 32])
    );
    assert_eq!(
        query.step::<&str>(ProviderEvent::Preimage(Ok(vec![0x60, 0x00]))),
        ProviderAction::Done(Ok(vec![0x60, 0x00]))
    );
    assert_eq!(query.stage, PreimageStage::Finished);
}

#[test]
fn preimage_query_ends_with_the_first_fault() {
    let p: Provider = OracleL2ChainProvider::new(ZERO_HASH, config(forks()), ());
    let (mut query, _) = p.bytecode_by_hash::<&str>([9; 32]);
    assert_eq!(query.stage, PreimageStage::Hint);
    assert_eq!(
        query.step::<&str>(ProviderEvent::HintSent(Err("closed"))),
        ProviderAction::Done(Err(OracleProviderError::Preimage("closed")))
    );
    assert_eq!(query.stage, PreimageStage::Finished);

    let (mut query, _) = p.bytecode_by_hash::<&str>([9; 32]);
    query.step::<&str>(ProviderEvent::HintSent(Ok(())));
    assert_eq!(query.stage, PreimageStage::Preimage);
    assert_eq!(
        query.step::<&str>(ProviderEvent::Preimage(Err("missing"))),
        ProviderAction::Done(Err(OracleProviderError::Preimage("missing")))
    );
    assert_eq!(query.stage, PreimageStage::Finished);
}

#[test]
fn trie_node_is_read_without_a_hint() {
    let p: Provider = OracleL2ChainProvider::new(ZERO_HASH, config(forks()), ());
    let start = || p.trie_node_by_hash::<u8, &str>([9; 32]);
    let (mut query, action) = start();
    assert_eq!(action, NodeAction::GetPreimage([9; 32]));
    assert_eq!(
        query.step::<u8, &str>(NodeEvent::Preimage(Ok(vec![0xc0]))),
        NodeAction::DecodeNode(vec![0xc0])
    );
    assert_eq!(query.step::<u8, &str>(NodeEvent::Decoded(Ok(4))), NodeAction::Done(Ok(4)));

    let (mut query, _) = start();
    assert_eq!(
        query.step::<u8, &str>(NodeEvent::Preimage(Err("missing"))),
        NodeAction::Done(Err(OracleProviderError::Preimage("missing")))
    );

    let (mut query, _) = start();
    query.step::<u8, &str>(NodeEvent::Preimage(Ok(vec![])));
    assert_eq!(
        query.step::<u8, &str>(NodeEvent::Decoded(Err(alloy_rlp::Error::Overflow))),
        NodeAction::Done(Err(OracleProviderError::Rlp(alloy_rlp::Error::Overflow)))
    );
}

/// Runs a query for what a block says until the block is handed out or the query ends.
fn fetch<V>(
    host: &mut Host,
    read: &mut BlockRead,
    mut action: BlockReadAction<V, &'static str>,
) -> BlockReadAction<V, &'static str> {
    loop {
        match action {
            BlockReadAction::Provider(inner) => {
                let event = host.reply(inner).unwrap();
                action = read.step(BlockReadEvent::Provider(event));
            }
            other => return other,
        }
    }
}

#[test]
fn block_information_is_read_out_of_the_block_asked_for() {
    let mut host = Host::new(10, &never);
    host.items = vec![deposit(3).encoded_2718()];
    let p = provider(&host, forks());
    let info = L2BlockInfo {
        block_info: BlockInfo { hash: [1; 32], number: 105, parent_hash: ZERO_HASH, timestamp: 0 },
        l1_origin: BlockNumHash { number: 0, hash: ZERO_HASH },
        seq_num: 0,
    };
    for derived in [Ok(info), Err("no deposit")] {
        host.items = vec![deposit(3).encoded_2718()];
        let (mut read, action) = p.l2_block_info_by_number(105, None);
        match fetch(&mut host, &mut read, action) {
            BlockReadAction::DeriveBlockInfo { block, genesis } => {
                assert_eq!(block.header.number, 105);
                assert_eq!(block.transactions, [deposit(3)]);
                assert_eq!(genesis, p.rollup_config.genesis);
            }
            other => panic!("{other:?}"),
        }
        assert_eq!(
            read.step(BlockReadEvent::Derived(derived)),
            BlockReadAction::Done(derived.map_err(OracleProviderError::BlockInfo))
        );
    }
}

#[test]
fn system_configuration_is_read_out_of_the_block_asked_for() {
    let mut host = Host::new(10, &never);
    let p = provider(&host, forks());
    let other_config = config(HardForkConfig { canyon_time: Some(1), ..forks() });
    for derived in [Ok(7u8), Err("no deposit")] {
        host.items = vec![];
        let (mut read, action) = p.system_config_by_number::<u8, &str>(103, other_config, None);
        match fetch(&mut host, &mut read, action) {
            BlockReadAction::DeriveSystemConfig { block, config } => {
                assert_eq!((block.header.number, block.withdrawals), (103, None));
                assert_eq!(config, other_config);
            }
            other => panic!("{other:?}"),
        }
        assert_eq!(
            read.step(BlockReadEvent::Derived(derived)),
            BlockReadAction::Done(derived.map_err(OracleProviderError::OpBlockConversion))
        );
    }
}

#[test]
fn block_that_is_not_found_is_not_read() {
    let mut host = Host::new(10, &never);
    let p = provider(&host, forks());
    let (mut read, action) = p.l2_block_info_by_number(200, None);
    assert_eq!(
        fetch(&mut host, &mut read, action),
        BlockReadAction::Done(Err(OracleProviderError::BlockNumberPastHead(200, 109)))
    );
}

#[test]
fn hints_concatenate_their_parts() {
    let mut p: Provider = OracleL2ChainProvider::new(ZERO_HASH, config(forks()), ());
    assert_eq!(
        p.hint_trie_node([1; 32]),
        Hint { hint_type: HintType::L2StateNode, data: vec![1; 32] }
    );
    p.set_chain_id(Some(0x0102));
    let suffix = [0, 0, 0, 0, 0, 0, 1, 2];
    let number = [0, 0, 0, 0, 0, 0, 0x30, 0x39];

    let account = p.hint_account_proof([7; 20], 12345);
    assert_eq!(account.hint_type, HintType::L2AccountProof);
    assert_eq!(account.data, [&number[..], &[7; 20], &suffix].concat());

    let slot = U256 { limbs: [0x0a, 0, 0, 0x0b00_0000_0000_0000] };
    let mut slot_bytes = [0u8; 32];
    slot_bytes[0] = 0x0b;
    slot_bytes[31] = 0x0a;
    let storage = p.hint_storage_proof([7; 20], slot, 12345);
    assert_eq!(storage.hint_type, HintType::L2AccountStorageProof);
    assert_eq!(storage.data, [&number[..], &[7; 20], &slot_bytes, &suffix].concat());
}

fn plain_attributes() -> OpPayloadAttributes {
    OpPayloadAttributes {
        timestamp: 0x64,
        prev_randao: [2; 32],
        suggested_fee_recipient: [3; 20],
        withdrawals: None,
        parent_beacon_block_root: None,
        transactions: None,
        no_tx_pool: None,
        gas_limit: None,
        eip_1559_params: None,
        min_base_fee: None,
    }
}

/// What the hint for the witness holds between the parent hash and the chain ID.
fn witness_json(attributes: &OpPayloadAttributes) -> String {
    let mut p: Provider = OracleL2ChainProvider::new(ZERO_HASH, config(forks()), ());
    p.set_chain_id(Some(0x0102));
    let hint = p.hint_execution_witness::<()>([8; 32], attributes).unwrap();
    assert_eq!(hint.hint_type, HintType::L2PayloadWitness);
    let (parent_hash, rest) = hint.data.split_at(32);
    let (json, suffix) = rest.split_at(rest.len() - 8);
    assert_eq!(parent_hash, [8; 32]);
    assert_eq!(suffix, [0, 0, 0, 0, 0, 0, 1, 2]);
    String::from_utf8(json.to_vec()).unwrap()
}

#[test]
fn execution_witness_leaves_out_what_is_absent() {
    let hash = "02".repeat(32);
    let address = "03".repeat(20);
    assert_eq!(
        witness_json(&plain_attributes()),
        format!(
            "{{\"timestamp\":\"0x64\",\"prevRandao\":\"0x{hash}\",\
             \"suggestedFeeRecipient\":\"0x{address}\"}}"
        )
    );
}

#[test]
fn execution_witness_holds_every_attribute() {
    let attributes = OpPayloadAttributes {
        withdrawals: Some(vec![Withdrawal {
            index: 1,
            validator_index: 2,
            address: [4; 20],
            amount: 3,
        }]),
        parent_beacon_block_root: Some([5; 32]),
        transactions: Some(vec![vec![0x7e, 1], vec![]]),
        no_tx_pool: Some(true),
        gas_limit: Some(30_000_000),
        eip_1559_params: Some([0, 0, 0, 0xfa, 0, 0, 0, 6]),
        min_base_fee: Some(7),
        ..plain_attributes()
    };
    let json = witness_json(&attributes);
    for part in [
        "\"timestamp\":\"0x64\"",
        "\"withdrawals\":[{\"index\":\"0x1\",\"validatorIndex\":\"0x2\",\
         \"address\":\"0x0404040404040404040404040404040404040404\",\"amount\":\"0x3\"}]",
        "\"parentBeaconBlockRoot\":\"0x0505",
        "\"transactions\":[\"0x7e01\",\"0x\"]",
        "\"noTxPool\":true",
        "\"gasLimit\":\"0x1c9c380\"",
        "\"eip1559Params\":\"0x000000fa00000006\"",
        "\"minBaseFee\":7",
    ] {
        assert!(json.contains(part), "{part} in {json}");
    }

    let mut engine = EngineAttributes {
        transactions: Some(vec![vec![0x7e, 1].into(), vec![].into()]),
        no_tx_pool: Some(true),
        gas_limit: Some(30_000_000),
        eip_1559_params: Some(FixedBytes([0, 0, 0, 0xfa, 0, 0, 0, 6])),
        min_base_fee: Some(7),
        ..Default::default()
    };
    engine.payload_attributes.timestamp = 0x64;
    engine.payload_attributes.prev_randao = FixedBytes([2; 32]);
    engine.payload_attributes.suggested_fee_recipient = Address::repeat_byte(3);
    engine.payload_attributes.withdrawals = Some(vec![AlloyWithdrawal {
        index: 1,
        validator_index: 2,
        address: Address::repeat_byte(4),
        amount: 3,
    }]);
    engine.payload_attributes.parent_beacon_block_root = Some(FixedBytes([5; 32]));
    assert_eq!(serde_json::from_str::<EngineAttributes>(&json).unwrap(), engine);
    assert_eq!(json, serde_json::to_string(&engine).unwrap());
}

#[test]
fn witness_is_hinted_by_the_form_of_its_attributes() {
    let mut p: Provider = OracleL2ChainProvider::new(ZERO_HASH, config(forks()), ());
    assert_eq!(
        p.witness_hint::<()>([8; 32], Ok(b"{}".to_vec())).unwrap().data,
        [&[8; 32][..], b"{}"].concat()
    );
    p.set_chain_id(Some(0x0102));
    assert_eq!(
        p.witness_hint::<()>([8; 32], Ok(b"{}".to_vec())),
        Ok(Hint {
            hint_type: HintType::L2PayloadWitness,
            data: [&[8; 32][..], b"{}", &[0, 0, 0, 0, 0, 0, 1, 2]].concat(),
        })
    );
    assert_eq!(
        p.witness_hint::<()>([8; 32], Err("not a number".to_string())),
        Err(OracleProviderError::Serde("not a number".to_string()))
    );
}

#[test]
fn walk_goes_on_from_a_header() {
    let host = Host::new(4, &never);
    let header = |i: usize| header_from_preimage::<()>(&host.encodings[i]).unwrap();
    let isthmus = config(HardForkConfig { isthmus_time: Some(102), ..forks() });
    let start = |number| HeaderWalk::start::<&str>(&isthmus, None, ZERO_HASH, number).0;

    assert_eq!(
        start(105).arrived::<&str>(header(3)),
        ProviderAction::Done(Err(OracleProviderError::BlockNumberPastHead(105, 103)))
    );
    assert_eq!(
        start(101).arrived::<&str>(header(3)),
        ProviderAction::HistoryLookup { header: header(3), block_number: 101 }
    );
    assert_eq!(
        start(100).walk_from::<&str>(header(1)),
        ProviderAction::SendHint(Hint {
            hint_type: HintType::L2BlockHeader,
            data: host.hashes[0].to_vec(),
        })
    );
    assert_eq!(start(101).walk_from::<&str>(header(1)), ProviderAction::Done(Ok(header(1))));
    assert_eq!(start(101).walk_from::<&str>(header(0)), ProviderAction::Done(Ok(header(0))));
}

#[test]
fn block_is_made_of_its_parts() {
    let host = Host::new(1, &never);
    let header = header_from_preimage::<()>(&host.encodings[0]).unwrap();
    let canyon = config(HardForkConfig { canyon_time: Some(100), ..forks() });
    let block = make_block(&canyon, header.clone(), vec![deposit(4)]);
    assert_eq!(
        block,
        OpBlock { header, transactions: vec![deposit(4)], withdrawals: Some(vec![]) }
    );
}
