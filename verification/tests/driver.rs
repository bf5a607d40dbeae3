//! Runs of the driver against a scripted pipeline and executor.

use alloy_eips::eip2718::Encodable2718;
use alloy_primitives::{Address, Sealable, TxKind};
use kona::config::{BaseFeeParams, ChainGenesis, HardForkConfig, RollupConfig};
use kona::driver::{Action, BlockBuildingOutcome, Driver, Event, TipCursor};
use kona::errors::{DriverError, PipelineError, PipelineErrorKind};
use kona::header::{Header, SealedHeader};
use kona::primitives::{BlockInfo, BlockNumHash, L2BlockInfo, U256, ZERO_HASH};
use kona::transaction::OpPayloadAttributes;
use op_alloy_consensus::{OpTxEnvelope, TxDeposit};

type Failure = DriverError<&'static str, &'static str, &'static str>;
type Act = Action<&'static str, &'static str, &'static str>;
type Ev = Event<u32, &'static str, &'static str, &'static str>;

fn forks() -> HardForkConfig {
    HardForkConfig {
        regolith_time: None,
        canyon_time: None,
        delta_time: None,
        ecotone_time: None,
        fjord_time: None,
        granite_time: None,
        holocene_time: None,
        isthmus_time: None,
        jovian_time: None,
        interop_time: None,
    }
}

fn config(hardforks: HardForkConfig) -> RollupConfig {
    let genesis = BlockNumHash { number: 0, hash: ZERO_HASH };
    RollupConfig {
        genesis: ChainGenesis { l1: genesis, l2: genesis },
        hardforks,
        channel_timeout: 300,
        granite_channel_timeout: 50,
        canyon_base_fee_params: BaseFeeParams {
            max_change_denominator: 250,
            elasticity_multiplier: 6,
        },
    }
}

fn header(number: u64) -> SealedHeader {
    SealedHeader::seal_slow(Header {
        parent_hash: ZERO_HASH,
        ommers_hash: ZERO_HASH,
        beneficiary: [0; 20],
        state_root: ZERO_HASH,
        transactions_root: ZERO_HASH,
        receipts_root: ZERO_HASH,
        logs_bloom: [0; 256],
        difficulty: U256::zero(),
        number,
        gas_limit: 0,
        gas_used: 0,
        timestamp: 2 * number,
        extra_data: vec![],
        mix_hash: ZERO_HASH,
        nonce: [0; 8],
        base_fee_per_gas: None,
        withdrawals_root: None,
        blob_gas_used: None,
        excess_blob_gas: None,
        parent_beacon_block_root: None,
        requests_hash: None,
    })
}

fn head(number: u64) -> L2BlockInfo {
    L2BlockInfo {
        block_info: BlockInfo {
            hash: header(number).hash,
            number,
            parent_hash: ZERO_HASH,
            timestamp: 2 * number,
        },
        l1_origin: BlockNumHash { number: 1, hash: ZERO_HASH },
        seq_num: number,
    }
}

fn root(number: u64) -> [u8; 32] {
    [number as u8; 32]
}

fn tip(number: u64) -> TipCursor {
    TipCursor::new(head(number), header(number), root(number))
}

fn origin() -> BlockInfo {
    BlockInfo { hash: [0x11; 32], number: 11, parent_hash: ZERO_HASH, timestamp: 5 }
}

fn deposit(value: u64) -> OpTxEnvelope {
    OpTxEnvelope::Deposit(
        TxDeposit {
            to: TxKind::Call(Address::with_last_byte(2)),
            value: alloy_primitives::U256::from(value),
            ..Default::default()
        }
        .seal_slow(),
    )
}

fn attributes(number: u64, transactions: Option<Vec<Vec<u8>>>) -> OpPayloadAttributes {
    OpPayloadAttributes {
        timestamp: 2 * number,
        prev_randao: ZERO_HASH,
        suggested_fee_recipient: [0; 20],
        withdrawals: None,
        parent_beacon_block_root: None,
        transactions,
        no_tx_pool: None,
        gas_limit: None,
        eip_1559_params: None,
        min_base_fee: None,
    }
}

fn outcome(number: u64) -> BlockBuildingOutcome<u32> {
    BlockBuildingOutcome { header: header(number), execution_result: 21_000 }
}

fn end_of_source() -> PipelineErrorKind<&'static str> {
    PipelineError::EndOfSource.crit()
}

fn driver() -> Driver<u8, u8, u8, u32> {
    Driver::new(1, 2, 3)
}

/// A world in which block `n` holds the deposit `n`, and in which the L1 data suffices up to
/// `last`. `fails` says which payloads do not execute, by their block and their transactions.
struct World {
    config: RollupConfig,
    tip: u64,
    last: u64,
    extra: Option<Vec<u8>>,
    fails: fn(u64, usize) -> bool,
    hiccups: Vec<PipelineErrorKind<&'static str>>,
    resets: usize,
    flushes: usize,
    executions: Vec<usize>,
}

impl World {
    fn new(hardforks: HardForkConfig, tip: u64, last: u64) -> World {
        World {
            config: config(hardforks),
            tip,
            last,
            extra: None,
            fails: |_, _| false,
            hiccups: vec![],
            resets: 0,
            flushes: 0,
            executions: vec![],
        }
    }

    fn run(
        &mut self,
        driver: &mut Driver<u8, u8, u8, u32>,
        target: Option<u64>,
    ) -> Result<(L2BlockInfo, [u8; 32]), Failure> {
        let mut action: Act = driver.advance_to_target(target);
        let mut building = 0;
        for _ in 0..200 {
            let event: Ev = match action {
                Action::ReadTip => Event::Tip(tip(self.tip)),
                Action::ProducePayload(from) => {
                    assert_eq!(from, head(self.tip));
                    building = self.tip + 1;
                    Event::Payload(if let Some(error) = self.hiccups.pop() {
                        Err(error)
                    } else if building > self.last {
                        Err(end_of_source())
                    } else {
                        let mut txs = vec![deposit(building).encoded_2718()];
                        txs.extend(self.extra.clone());
                        Ok(attributes(building, Some(txs)))
                    })
                }
                Action::Execute { safe_head, attributes } => {
                    assert_eq!(safe_head, header(self.tip));
                    let n = attributes.transactions.as_ref().unwrap().len();
                    self.executions.push(n);
                    Event::Executed(if (self.fails)(building, n) {
                        Err("execution failed")
                    } else {
                        Ok(outcome(building))
                    })
                }
                Action::ResetPipeline(to) => {
                    assert_eq!(to, head(self.tip));
                    self.resets += 1;
                    Event::PipelineReset(Ok(()))
                }
                Action::FlushChannel => {
                    self.flushes += 1;
                    Event::Flushed(Ok(()))
                }
                Action::ReadOrigin => Event::Origin(Some(origin())),
                Action::DeriveBlockInfo(block) => {
                    assert_eq!(block.header, header(building).header);
                    assert_eq!(block.transactions[0], deposit(building));
                    assert_eq!(block.withdrawals, None);
                    Event::BlockInfoRead(Ok(head(building)))
                }
                Action::ComputeOutputRoot => Event::OutputRoot(Ok(root(building))),
                Action::AdvanceCursor { origin: at, tip: to } => {
                    assert_eq!(at, origin());
                    assert_eq!(to, tip(building));
                    self.tip = building;
                    Event::Advanced
                }
                Action::Finish(result) => return result,
            };
            action = driver.step(&self.config, event);
        }
        panic!("the run does not end")
    }
}

#[test]
fn new_driver_has_no_artifacts() {
    let d = driver();
    assert_eq!((d.cursor, d.executor, d.pipeline), (1, 2, 3));
    assert!(d.safe_head_artifacts.is_none());
}

#[test]
fn run_stops_at_its_target() {
    let mut d = driver();
    let mut world = World::new(forks(), 5, 100);
    assert_eq!(world.run(&mut d, Some(8)), Ok((head(8), root(8))));
    assert_eq!(world.tip, 8);
    assert_eq!(
        d.safe_head_artifacts,
        Some((outcome(8), vec![deposit(8).encoded_2718()]))
    );
    assert_eq!((d.cursor, d.executor, d.pipeline), (1, 2, 3));
}

#[test]
fn target_that_is_reached_derives_nothing() {
    let mut d = driver();
    let mut world = World::new(forks(), 5, 100);
    assert_eq!(world.run(&mut d, Some(5)), Ok((head(5), root(5))));
    assert_eq!(world.run(&mut d, Some(2)), Ok((head(5), root(5))));
    assert!(world.executions.is_empty());
    assert!(d.safe_head_artifacts.is_none());
}

#[test]
fn exhausted_source_halts_with_the_safe_head() {
    let mut world = World::new(forks(), 5, 7);
    assert_eq!(world.run(&mut driver(), Some(100)), Ok((head(7), root(7))));
}

#[test]
fn run_without_a_target_goes_on_until_the_source_is_exhausted() {
    let mut world = World::new(forks(), 5, 9);
    assert_eq!(world.run(&mut driver(), None), Ok((head(9), root(9))));
    assert_eq!(world.executions.len(), 4);
}

#[test]
fn exhausted_source_is_an_error_in_interop() {
    let mut world = World::new(HardForkConfig { interop_time: Some(6), ..forks() }, 5, 7);
    assert_eq!(
        world.run(&mut driver(), Some(100)),
        Err(DriverError::Pipeline(end_of_source()))
    );
    assert_eq!(world.tip, 7);
    let mut world = World::new(HardForkConfig { interop_time: Some(6), ..forks() }, 5, 7);
    assert_eq!(world.run(&mut driver(), None), Err(DriverError::Pipeline(end_of_source())));
    let mut early = World::new(HardForkConfig { interop_time: Some(8), ..forks() }, 5, 7);
    assert_eq!(early.run(&mut driver(), Some(100)), Ok((head(7), root(7))));
}

#[test]
fn failed_payload_is_tried_again_with_deposits_from_holocene_on() {
    let mut d = driver();
    let mut world = World::new(HardForkConfig { holocene_time: Some(0), ..forks() }, 5, 100);
    world.extra = Some(vec![0x02, 0xff]);
    world.fails = |_, transactions| transactions > 1;
    assert_eq!(world.run(&mut d, Some(6)), Ok((head(6), root(6))));
    assert_eq!(world.flushes, 1);
    assert_eq!(world.executions, [2, 1]);
    assert_eq!(d.safe_head_artifacts, Some((outcome(6), vec![deposit(6).encoded_2718()])));
}

#[test]
fn failed_deposits_end_the_run() {
    let mut d = driver();
    let mut world = World::new(HardForkConfig { holocene_time: Some(0), ..forks() }, 5, 100);
    world.fails = |_, _| true;
    assert_eq!(world.run(&mut d, Some(6)), Err(DriverError::Executor("execution failed")));
    assert_eq!((world.flushes, world.executions.len(), world.tip), (1, 2, 5));
    assert!(d.safe_head_artifacts.is_none());
}

#[test]
fn failed_payload_is_discarded_before_holocene() {
    let mut d = driver();
    let c = config(HardForkConfig { holocene_time: Some(13), ..forks() });
    let _: Act = d.advance_to_target(Some(6));
    let _: Act = d.step(&c, Event::<u32, _, _, &str>::Tip(tip(5)));
    let _: Act = d.step(&c, Event::<u32, &str, &str, &str>::Payload(Ok(attributes(6, None))));
    let next: Act = d.step(&c, Event::Executed(Err("execution failed")));
    assert_eq!(next, Action::ReadTip);
    assert!(d.safe_head_artifacts.is_none());

    let _: Act = d.step(&c, Event::<u32, _, _, &str>::Tip(tip(6)));
    let _: Act = d.advance_to_target(Some(9));
    let _: Act = d.step(&c, Event::<u32, _, _, &str>::Tip(tip(6)));
    let _: Act = d.step(&c, Event::<u32, &str, &str, &str>::Payload(Ok(attributes(7, None))));
    let next: Act = d.step(&c, Event::Executed(Err("execution failed")));
    assert_eq!(next, Action::FlushChannel);
}

/// A driver that waits for what comes of the action after these events.
fn after(c: &RollupConfig, events: Vec<Ev>) -> (Driver<u8, u8, u8, u32>, Act) {
    let mut d = driver();
    let mut action: Act = d.advance_to_target(Some(100));
    for event in events {
        action = d.step(c, event);
    }
    (d, action)
}

fn executing() -> Vec<Ev> {
    vec![
        Event::Tip(tip(5)),
        Event::Payload(Ok(attributes(6, None))),
        Event::Executed(Ok(outcome(6))),
    ]
}

#[test]
fn critical_pipeline_errors_end_the_run() {
    let c = config(HardForkConfig { holocene_time: Some(0), ..forks() });
    for error in [|| PipelineError::Other("bug").crit(), || PipelineError::MissingOrigin.crit()] {
        let (_, action) = after(&c, vec![Event::Tip(tip(5)), Event::Payload(Err(error()))]);
        assert_eq!(action, Action::Finish(Err(DriverError::Pipeline(error()))));
    }
    let (_, action) = after(
        &c,
        vec![
            Event::Tip(tip(5)),
            Event::Payload(Ok(attributes(6, None))),
            Event::Executed(Err("execution failed")),
            Event::Flushed(Err(PipelineError::Other("stuck").crit())),
        ],
    );
    assert_eq!(
        action,
        Action::Finish(Err(DriverError::Pipeline(PipelineError::Other("stuck").crit())))
    );
}

#[test]
fn broken_transaction_ends_the_run() {
    let c = config(forks());
    let (_, action) = after(
        &c,
        vec![
            Event::Tip(tip(5)),
            Event::Payload(Ok(attributes(6, Some(vec![deposit(1).encoded_2718(), vec![]])))),
            Event::Executed(Ok(outcome(6))),
        ],
    );
    assert_eq!(
        action,
        Action::Finish(Err(DriverError::Rlp(alloy_rlp::Error::InputTooShort)))
    );
}

#[test]
fn missing_origin_ends_the_run() {
    let mut events = executing();
    events.push(Event::Origin(None));
    let (_, action) = after(&config(forks()), events);
    assert_eq!(
        action,
        Action::Finish(Err(DriverError::Pipeline(PipelineError::MissingOrigin.crit())))
    );
}

#[test]
fn block_without_information_ends_the_run() {
    let mut events = executing();
    events.push(Event::Origin(Some(origin())));
    events.push(Event::BlockInfoRead(Err("no deposit")));
    let (_, action) = after(&config(forks()), events);
    assert_eq!(action, Action::Finish(Err(DriverError::BlockConversion("no deposit"))));
}

#[test]
fn missing_output_root_ends_the_run() {
    let mut events = executing();
    events.push(Event::Origin(Some(origin())));
    events.push(Event::BlockInfoRead(Ok(head(6))));
    events.push(Event::OutputRoot(Err("no account")));
    let (_, action) = after(&config(forks()), events);
    assert_eq!(action, Action::Finish(Err(DriverError::Executor("no account"))));
}

#[test]
fn absent_transactions_are_none() {
    let mut events = executing();
    events.push(Event::Origin(Some(origin())));
    events.push(Event::BlockInfoRead(Ok(head(6))));
    events.push(Event::OutputRoot(Ok(root(6))));
    events.push(Event::Advanced);
    let (d, action) = after(&config(forks()), events);
    assert_eq!(action, Action::ReadTip);
    assert_eq!(d.safe_head_artifacts, Some((outcome(6), vec![])));
}

#[test]
fn decoded_transactions_make_the_block() {
    let mut d = driver();
    let raw = vec![vec![1, 2], vec![3]];
    let action: Act = d.on_decoded(raw.clone(), outcome(6), Ok(vec![deposit(1), deposit(2)]));
    assert_eq!(action, Action::ReadOrigin);
    let c = config(forks());
    match d.step::<&str, &str, &str>(&c, Event::Origin(Some(origin()))) {
        Action::DeriveBlockInfo(block) => {
            assert_eq!(block.header, header(6).header);
            assert_eq!(block.transactions, [deposit(1), deposit(2)]);
        }
        other => panic!("{other:?}"),
    }
    let action: Act = d.on_decoded(raw, outcome(6), Err(alloy_rlp::Error::Overflow));
    assert_eq!(action, Action::Finish(Err(DriverError::Rlp(alloy_rlp::Error::Overflow))));
}

#[test]
fn temporary_pipeline_errors_are_retried() {
    let c = config(forks());
    for error in [
        || PipelineError::Eof.temp(),
        || PipelineError::NotEnoughData.temp(),
        || PipelineError::EndOfSource.temp(),
    ] {
        let (mut d, action) = after(&c, vec![Event::Tip(tip(5)), Event::Payload(Err(error()))]);
        assert_eq!(action, Action::ReadTip);
        assert_eq!(d.target, Some(100));
        let action: Act = d.step(&c, Event::<u32, _, _, &str>::Tip(tip(5)));
        assert_eq!(action, Action::ProducePayload(head(5)));
    }
}

#[test]
fn derivation_goes_on_after_a_reset() {
    let c = config(forks());
    let events = || vec![Event::Tip(tip(5)), Event::Payload(Err(PipelineErrorKind::Reset("reorg")))];
    let (mut d, action) = after(&c, events());
    assert_eq!(action, Action::ResetPipeline(head(5)));
    let action: Act = d.step(&c, Event::<u32, _, &str, &str>::PipelineReset(Ok(())));
    assert_eq!(action, Action::ReadTip);
    assert_eq!(d.target, Some(100));
    assert!(d.safe_head_artifacts.is_none());
    let action: Act = d.step(&c, Event::<u32, _, _, &str>::Tip(tip(5)));
    assert_eq!(action, Action::ProducePayload(head(5)));

    let (mut d, _) = after(&c, events());
    let failed = PipelineError::Other("no block").crit();
    let action: Act = d.step(&c, Event::<u32, _, &str, &str>::PipelineReset(Err(failed)));
    assert_eq!(
        action,
        Action::Finish(Err(DriverError::Pipeline(PipelineError::Other("no block").crit())))
    );
}

#[test]
fn run_survives_temporary_and_reset_errors() {
    let mut d = driver();
    let mut world = World::new(forks(), 5, 100);
    world.hiccups = vec![
        PipelineErrorKind::Reset("reorg"),
        PipelineError::Eof.temp(),
        PipelineError::NotEnoughData.temp(),
    ];
    assert_eq!(world.run(&mut d, Some(7)), Ok((head(7), root(7))));
    assert!(world.hiccups.is_empty());
    assert_eq!(world.resets, 1);
}
