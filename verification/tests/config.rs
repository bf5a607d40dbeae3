//! Hardfork activation.

use kona::config::{
    BaseFeeParams, ChainGenesis, HardForkConfig, RollupConfig, MAX_RLP_BYTES_PER_CHANNEL_BEDROCK,
    MAX_RLP_BYTES_PER_CHANNEL_FJORD,
};
use kona::primitives::{BlockNumHash, ZERO_HASH};

fn no_forks() -> HardForkConfig {
    HardForkConfig {
        regolith_time: None,
        canyon_time: None,
        delta_time: None,
        ecotone_time: None,
        fjord_time: None,
        granite_time: None,
        holocene_time: None,
        isthmus_time: None,
        jovian_time: None,
        interop_time: None,
    }
}

fn config(hardforks: HardForkConfig) -> RollupConfig {
    let genesis = BlockNumHash { number: 0, hash: ZERO_HASH };
    RollupConfig {
        genesis: ChainGenesis { l1: genesis, l2: genesis },
        hardforks,
        channel_timeout: 300,
        granite_channel_timeout: 50,
        canyon_base_fee_params: BaseFeeParams {
            max_change_denominator: 250,
            elasticity_multiplier: 6,
        },
    }
}

fn active(c: &RollupConfig, t: u64) -> [bool; 10] {
    [
        c.is_regolith_active(t),
        c.is_canyon_active(t),
        c.is_delta_active(t),
        c.is_ecotone_active(t),
        c.is_fjord_active(t),
        c.is_granite_active(t),
        c.is_holocene_active(t),
        c.is_isthmus_active(t),
        c.is_jovian_active(t),
        c.is_interop_active(t),
    ]
}

#[test]
fn no_fork_is_active_without_times() {
    assert_eq!(active(&config(no_forks()), u64::MAX), [false; 10]);
}

#[test]
fn fork_is_active_from_its_time_on() {
    let c = config(HardForkConfig { fjord_time: Some(10), ..no_forks() });
    assert_eq!(active(&c, 9), [false; 10]);
    let mut expected = [false; 10];
    expected[..5].fill(true);
    assert_eq!(active(&c, 10), expected);
    assert_eq!(active(&c, 11), expected);
}

#[test]
fn later_fork_activates_the_earlier_ones() {
    let c = config(HardForkConfig { interop_time: Some(0), canyon_time: Some(100), ..no_forks() });
    assert_eq!(active(&c, 0), [true; 10]);
    let c = config(HardForkConfig { regolith_time: Some(0), ..no_forks() });
    assert!(c.is_regolith_active(0));
    assert!(!c.is_canyon_active(0));
}

#[test]
fn channel_timeout_changes_with_granite() {
    let c = config(HardForkConfig { granite_time: Some(10), ..no_forks() });
    assert_eq!(c.channel_timeout(9), 300);
    assert_eq!(c.channel_timeout(10), 50);
    let c = config(HardForkConfig { holocene_time: Some(5), ..no_forks() });
    assert_eq!(c.channel_timeout(5), 50);
}

#[test]
fn channel_limits() {
    assert_eq!(MAX_RLP_BYTES_PER_CHANNEL_BEDROCK, 10_000_000);
    assert_eq!(MAX_RLP_BYTES_PER_CHANNEL_FJORD, 100_000_000);
}
