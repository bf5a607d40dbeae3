//! The stage that reads batches, with a mock of the previous stage and of the batch reader.

use kona::channel_reader::{ChannelReader, ReadAction, ReadEvent, ReadStage, Signal};
use kona::config::{
    BaseFeeParams, ChainGenesis, HardForkConfig, RollupConfig, MAX_RLP_BYTES_PER_CHANNEL_BEDROCK,
    MAX_RLP_BYTES_PER_CHANNEL_FJORD,
};
use kona::errors::{PipelineError, PipelineErrorKind};
use kona::primitives::{BlockInfo, BlockNumHash, ZERO_HASH};

type Pulled = Result<Option<Vec<u8>>, PipelineErrorKind<()>>;

/// The previous stage: what it has left to give, its origin, and whether it was reset.
struct Mock {
    data: Vec<Pulled>,
    origin: Option<BlockInfo>,
    reset: bool,
}

impl Mock {
    fn new(data: Vec<Pulled>) -> Mock {
        let origin = BlockInfo {
            hash: ZERO_HASH,
            number: 0,
            parent_hash: ZERO_HASH,
            timestamp: 0,
        };
        Mock { data, origin: Some(origin), reset: false }
    }
}

/// A batch reader for channels that are a length followed by that many one-byte batches.
#[derive(Debug, PartialEq)]
struct Batches {
    channel: Vec<u8>,
    max_rlp_bytes: usize,
    decompressed: Option<Vec<u8>>,
}

impl Batches {
    fn new(channel: Vec<u8>, max_rlp_bytes: usize) -> Batches {
        Batches { channel, max_rlp_bytes, decompressed: None }
    }

    fn decompress(&mut self) -> bool {
        if self.decompressed.is_none() {
            match self.channel.split_first() {
                Some((n, rest)) if *n as usize == rest.len() => {
                    self.decompressed = Some(rest.to_vec());
                }
                _ => return false,
            }
        }
        true
    }

    fn next_batch(&mut self) -> Option<u8> {
        let left = self.decompressed.as_mut()?;
        if left.is_empty() {
            None
        } else {
            Some(left.remove(0))
        }
    }
}

fn forks() -> HardForkConfig {
    HardForkConfig {
        regolith_time: None,
        canyon_time: None,
        delta_time: None,
        ecotone_time: None,
        fjord_time: None,
        granite_time: None,
        holocene_time: None,
        isthmus_time: None,
        jovian_time: None,
        interop_time: None,
    }
}

fn config(hardforks: HardForkConfig) -> RollupConfig {
    let genesis = BlockNumHash { number: 0, hash: ZERO_HASH };
    RollupConfig {
        genesis: ChainGenesis { l1: genesis, l2: genesis },
        hardforks,
        channel_timeout: 300,
        granite_channel_timeout: 50,
        canyon_base_fee_params: BaseFeeParams {
            max_change_denominator: 250,
            elasticity_multiplier: 6,
        },
    }
}

fn batch_data() -> Vec<u8> {
    vec![3, 10, 20, 30]
}

fn next_batch(reader: &mut ChannelReader<Mock, Batches>) -> Result<u8, PipelineErrorKind<()>> {
    let mut action = reader.next_batch();
    loop {
        let event = match action {
            ReadAction::NextData => ReadEvent::Data(reader.prev.data.remove(0)),
            ReadAction::ReadOrigin => ReadEvent::Origin(reader.prev.origin),
            ReadAction::Open { channel, max_rlp_bytes } => {
                ReadEvent::Opened(Batches::new(channel, max_rlp_bytes))
            }
            ReadAction::Decompress => {
                ReadEvent::Decompressed(reader.next_batch.as_mut().unwrap().decompress())
            }
            ReadAction::ReadBatch => {
                ReadEvent::Batch(reader.next_batch.as_mut().unwrap().next_batch())
            }
            ReadAction::Done(result) => return result,
        };
        action = reader.step(event);
    }
}

fn signal(reader: &mut ChannelReader<Mock, Batches>, s: Signal<()>) -> Result<(), PipelineErrorKind<()>> {
    match reader.signal(s) {
        None => Ok(()),
        Some(forwarded) => {
            reader.prev.reset = matches!(forwarded, Signal::Reset(_));
            reader.signal_forwarded(Ok(()))
        }
    }
}

#[test]
fn test_flush_channel_reader() {
    let mock = Mock::new(vec![Ok(Some(batch_data()))]);
    let mut reader = ChannelReader::new(mock, config(forks()));
    reader.next_batch =
        Some(Batches::new(batch_data(), MAX_RLP_BYTES_PER_CHANNEL_FJORD as usize));
    signal(&mut reader, Signal::FlushChannel).unwrap();
    assert!(reader.next_batch.is_none());
    assert!(!reader.prev.reset);
}

#[test]
fn test_reset_channel_reader() {
    let mock = Mock::new(vec![Ok(None)]);
    let mut reader = ChannelReader::new(mock, config(forks()));
    reader.next_batch =
        Some(Batches::new(vec![0x00, 0x01, 0x02], MAX_RLP_BYTES_PER_CHANNEL_FJORD as usize));
    assert!(!reader.prev.reset);
    signal(&mut reader, Signal::Reset(())).unwrap();
    assert!(reader.next_batch.is_none());
    assert!(reader.prev.reset);
}

#[test]
fn test_next_batch_batch_reader_set_fails() {
    let mock = Mock::new(vec![Err(PipelineError::Eof.temp())]);
    let mut reader = ChannelReader::new(mock, config(forks()));
    assert_eq!(next_batch(&mut reader), Err(PipelineError::Eof.temp()));
    assert!(reader.next_batch.is_none());
}

#[test]
fn test_next_batch_batch_reader_no_data() {
    let mock = Mock::new(vec![Ok(None)]);
    let mut reader = ChannelReader::new(mock, config(forks()));
    assert!(matches!(
        next_batch(&mut reader).unwrap_err(),
        PipelineErrorKind::Temporary(PipelineError::ChannelReaderEmpty)
    ));
    assert!(reader.next_batch.is_none());
}

#[test]
fn test_next_batch_batch_reader_not_enough_data() {
    let mut second = batch_data();
    let first = second.split_off(second.len() / 2);
    let mock = Mock::new(vec![Ok(Some(first)), Ok(Some(second))]);
    let mut reader = ChannelReader::new(mock, config(forks()));
    assert_eq!(next_batch(&mut reader), Err(PipelineError::NotEnoughData.temp()));
    assert!(reader.next_batch.is_none());
}

#[test]
fn test_next_batch_succeeds() {
    let mock = Mock::new(vec![Ok(Some(batch_data()))]);
    let mut reader = ChannelReader::new(mock, config(forks()));
    assert_eq!(next_batch(&mut reader), Ok(10));
    assert!(reader.next_batch.is_some());
}

#[test]
fn test_flush_post_holocene() {
    let holocene = config(HardForkConfig { holocene_time: Some(0), ..forks() });
    let mock = Mock::new(vec![Ok(Some(batch_data()))]);
    let mut reader = ChannelReader::new(mock, holocene);
    assert_eq!(next_batch(&mut reader), Ok(10));
    assert!(reader.next_batch.is_some());
    reader.flush();
    assert!(reader.next_batch.is_none());
}

#[test]
fn channel_is_read_to_its_end() {
    let mock = Mock::new(vec![Ok(Some(batch_data())), Ok(Some(vec![1, 40]))]);
    let mut reader = ChannelReader::new(mock, config(forks()));
    assert_eq!(next_batch(&mut reader), Ok(10));
    assert_eq!(next_batch(&mut reader), Ok(20));
    assert_eq!(next_batch(&mut reader), Ok(30));
    assert_eq!(reader.prev.data.len(), 1);
    assert_eq!(next_batch(&mut reader), Err(PipelineError::NotEnoughData.temp()));
    assert!(reader.next_batch.is_none());
    assert_eq!(next_batch(&mut reader), Ok(40));
}

#[test]
fn missing_origin_is_critical() {
    let mut mock = Mock::new(vec![Ok(Some(batch_data()))]);
    mock.origin = None;
    let mut reader = ChannelReader::new(mock, config(forks()));
    assert_eq!(next_batch(&mut reader), Err(PipelineError::MissingOrigin.crit()));
    assert!(reader.next_batch.is_none());
}

#[test]
fn limit_depends_on_fjord_at_the_origin() {
    for (time, limit) in [
        (9, MAX_RLP_BYTES_PER_CHANNEL_BEDROCK),
        (10, MAX_RLP_BYTES_PER_CHANNEL_FJORD),
        (11, MAX_RLP_BYTES_PER_CHANNEL_FJORD),
    ] {
        let mut mock = Mock::new(vec![Ok(Some(batch_data()))]);
        mock.origin = mock.origin.map(|o| BlockInfo { timestamp: time, ..o });
        let fjord = config(HardForkConfig { fjord_time: Some(10), ..forks() });
        let mut reader = ChannelReader::new(mock, fjord);
        assert_eq!(next_batch(&mut reader), Ok(10));
        let opened = reader.next_batch.as_ref().unwrap();
        assert_eq!(opened.max_rlp_bytes, limit as usize);
        assert_eq!(opened.channel, batch_data());
    }
}

#[test]
fn refused_signal_keeps_the_reader() {
    let mut reader: ChannelReader<Mock, Batches> =
        ChannelReader::new(Mock::new(vec![]), config(forks()));
    reader.next_batch = Some(Batches::new(batch_data(), 1));
    assert_eq!(reader.signal(Signal::Activation(5)), Some(Signal::Activation(5)));
    let refused = reader.signal_forwarded(Err(PipelineError::Other(()).crit()));
    assert_eq!(refused, Err(PipelineError::Other(()).crit()));
    assert!(reader.next_batch.is_some());
    reader.next_channel();
    assert!(reader.next_batch.is_none());
    assert_eq!(reader.stage, ReadStage::Idle);
}
