//! The starting point of the derivation.

use kona::config::{BaseFeeParams, ChainGenesis, HardForkConfig, RollupConfig};
use kona::driver::TipCursor;
use kona::header::{Header, SealedHeader};
use kona::primitives::{BlockInfo, BlockNumHash, L2BlockInfo, U256, ZERO_HASH};
use kona::sync::{
    l1_start_number, new_oracle_pipeline_cursor, CursorStart, SyncAction, SyncEvent, SyncStage,
};

fn config(genesis_l1: u64) -> RollupConfig {
    RollupConfig {
        genesis: ChainGenesis {
            l1: BlockNumHash { number: genesis_l1, hash: ZERO_HASH },
            l2: BlockNumHash { number: 0, hash: ZERO_HASH },
        },
        hardforks: HardForkConfig {
            regolith_time: None,
            canyon_time: None,
            delta_time: None,
            ecotone_time: None,
            fjord_time: None,
            granite_time: Some(1000),
            holocene_time: None,
            isthmus_time: None,
            jovian_time: None,
            interop_time: None,
        },
        channel_timeout: 300,
        granite_channel_timeout: 50,
        canyon_base_fee_params: BaseFeeParams {
            max_change_denominator: 250,
            elasticity_multiplier: 6,
        },
    }
}

fn block(number: u64, timestamp: u64) -> BlockInfo {
    BlockInfo { hash: [number as u8; 32], number, parent_hash: ZERO_HASH, timestamp }
}

fn head(number: u64, timestamp: u64, l1: u64) -> L2BlockInfo {
    L2BlockInfo {
        block_info: block(number, timestamp),
        l1_origin: BlockNumHash { number: l1, hash: ZERO_HASH },
        seq_num: 0,
    }
}

fn header(number: u64) -> SealedHeader {
    SealedHeader::seal_slow(Header {
        parent_hash: ZERO_HASH,
        ommers_hash: ZERO_HASH,
        beneficiary: [0; 20],
        state_root: ZERO_HASH,
        transactions_root: ZERO_HASH,
        receipts_root: ZERO_HASH,
        logs_bloom: [0; 256],
        difficulty: U256::zero(),
        number,
        gas_limit: 0,
        gas_used: 0,
        timestamp: 0,
        extra_data: vec![],
        mix_hash: ZERO_HASH,
        nonce: [0; 8],
        base_fee_per_gas: None,
        withdrawals_root: None,
        blob_gas_used: None,
        excess_blob_gas: None,
        parent_beacon_block_root: None,
        requests_hash: None,
    })
}

#[test]
fn start_is_the_timeout_before_the_origin() {
    let c = config(10);
    assert_eq!(l1_start_number(&c, &head(5, 0, 1000), &block(1000, 0)), 700);
    assert_eq!(l1_start_number(&c, &head(5, 1000, 1000), &block(1000, 0)), 950);
}

#[test]
fn start_is_never_before_the_genesis() {
    let c = config(10);
    assert_eq!(l1_start_number(&c, &head(5, 0, 310), &block(310, 0)), 10);
    assert_eq!(l1_start_number(&c, &head(5, 0, 309), &block(309, 0)), 10);
    assert_eq!(l1_start_number(&c, &head(5, 0, 20), &block(20, 0)), 10);
    assert_eq!(l1_start_number(&config(0), &head(5, 0, 20), &block(20, 0)), 0);
}

#[test]
fn search_ends_with_the_cursor_start() {
    let c = config(10);
    let safe = header(5);
    let (mut stage, action) = new_oracle_pipeline_cursor::<&str>(safe.clone());
    assert_eq!(action, SyncAction::FetchL2(5));
    let info = head(5, 0, 400);
    assert_eq!(stage.step::<&str>(&c, SyncEvent::L2(Ok(info))), SyncAction::FetchL1(400));
    assert_eq!(stage.step::<&str>(&c, SyncEvent::L1(Ok(block(400, 7)))), SyncAction::FetchL1(100));
    assert_eq!(
        stage.step::<&str>(&c, SyncEvent::L1(Ok(block(100, 3)))),
        SyncAction::Done(Ok(CursorStart {
            channel_timeout: 300,
            origin: block(100, 3),
            tip: TipCursor::new(info, safe, ZERO_HASH),
        }))
    );
    assert_eq!(stage, SyncStage::Finished);
}

#[test]
fn any_failure_ends_the_search() {
    let c = config(10);
    let start = || new_oracle_pipeline_cursor::<&str>(header(5)).0;

    let mut stage = start();
    assert_eq!(stage.step(&c, SyncEvent::L2(Err("l2"))), SyncAction::Done(Err("l2")));

    let mut stage = start();
    stage.step::<&str>(&c, SyncEvent::L2(Ok(head(5, 0, 400))));
    assert_eq!(stage.step(&c, SyncEvent::L1(Err("l1"))), SyncAction::Done(Err("l1")));

    let mut stage = start();
    stage.step::<&str>(&c, SyncEvent::L2(Ok(head(5, 0, 400))));
    stage.step::<&str>(&c, SyncEvent::L1(Ok(block(400, 0))));
    assert_eq!(stage.step(&c, SyncEvent::L1(Err("start"))), SyncAction::Done(Err("start")));
}
