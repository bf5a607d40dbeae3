//! The rollup configuration and the activation of the hardforks.

use crate::primitives::BlockNumHash;
use vstd::prelude::*;

verus! {

/// The largest decompressed size of a channel before the Fjord hardfork, in bytes.
pub const MAX_RLP_BYTES_PER_CHANNEL_BEDROCK: u64 = 10_000_000;

/// The largest decompressed size of a channel from the Fjord hardfork on, in bytes.
pub const MAX_RLP_BYTES_PER_CHANNEL_FJORD: u64 = 100_000_000;

/// The activation times of the hardforks, in the order in which they are scheduled.
///
/// `None` stands for a hardfork without an activation time of its own.
#[derive(Clone, Copy, Debug, PartialEq, Eq)]
pub struct HardForkConfig {
    pub regolith_time: Option<u64>,
    pub canyon_time: Option<u64>,
    pub delta_time: Option<u64>,
    pub ecotone_time: Option<u64>,
    pub fjord_time: Option<u64>,
    pub granite_time: Option<u64>,
    pub holocene_time: Option<u64>,
    pub isthmus_time: Option<u64>,
    pub jovian_time: Option<u64>,
    pub interop_time: Option<u64>,
}

/// The L1 and L2 blocks that the rollup starts from.
#[derive(Clone, Copy, Debug, PartialEq, Eq)]
pub struct ChainGenesis {
    pub l1: BlockNumHash,
    pub l2: BlockNumHash,
}

/// The parameters of the base fee formula.
#[derive(Clone, Copy, Debug, PartialEq, Eq)]
pub struct BaseFeeParams {
    pub max_change_denominator: u128,
    pub elasticity_multiplier: u128,
}

/// The configuration of a rollup.
#[derive(Clone, Copy, Debug, PartialEq, Eq)]
pub struct RollupConfig {
    pub genesis: ChainGenesis,
    pub hardforks: HardForkConfig,
    /// The number of L1 blocks after which a channel times out, before Granite.
    pub channel_timeout: u64,
    /// The number of L1 blocks after which a channel times out, from Granite on.
    pub granite_channel_timeout: u64,
    /// The base fee parameters from Canyon on.
    pub canyon_base_fee_params: BaseFeeParams,
}

/// Whether an activation time is set and has come.
pub open spec fn has_come(time: Option<u64>, timestamp: u64) -> bool {
    time matches Some(t) && t <= timestamp
}

fn reached(time: Option<u64>, timestamp: u64) -> (r: bool)
    ensures
        r == has_come(time, timestamp),
{
    match time {
        Some(t) => t <= timestamp,
        None => false,
    }
}

impl HardForkConfig {
    /// The activation times in the order of the hardforks.
    pub open spec fn schedule(self) -> Seq<Option<u64>> {
        seq![
            self.regolith_time,
            self.canyon_time,
            self.delta_time,
            self.ecotone_time,
            self.fjord_time,
            self.granite_time,
            self.holocene_time,
            self.isthmus_time,
            self.jovian_time,
            self.interop_time,
        ]
    }

    /// Whether the hardfork at place `fork` of the schedule is active: its own activation time,
    /// or that of a later hardfork, has come.
    pub open spec fn active_from(self, fork: int, timestamp: u64) -> bool {
        exists|i: int| fork <= i < 10 && has_come(#[trigger] self.schedule()[i], timestamp)
    }
}

/// The place of each hardfork in the schedule.
pub open spec fn regolith() -> int { 0 }
pub open spec fn canyon() -> int { 1 }
pub open spec fn delta() -> int { 2 }
pub open spec fn ecotone() -> int { 3 }
pub open spec fn fjord() -> int { 4 }
pub open spec fn granite() -> int { 5 }
pub open spec fn holocene() -> int { 6 }
pub open spec fn isthmus() -> int { 7 }
pub open spec fn jovian() -> int { 8 }
pub open spec fn interop() -> int { 9 }

/// A hardfork is active if and only if its own time has come or the next hardfork is active.
proof fn lemma_active_step(forks: HardForkConfig, fork: int, timestamp: u64)
    requires
        0 <= fork < 10,
    ensures
        forks.active_from(fork, timestamp) == (has_come(forks.schedule()[fork], timestamp)
            || forks.active_from(fork + 1, timestamp)),
        !forks.active_from(10, timestamp),
{
}

impl RollupConfig {
    /// Whether the hardfork at place `fork` of the schedule is active at `timestamp`.
    pub open spec fn active(self, fork: int, timestamp: u64) -> bool {
        self.hardforks.active_from(fork, timestamp)
    }

    /// Whether Regolith is active at `timestamp`.
    pub fn is_regolith_active(&self, timestamp: u64) -> (r: bool)
        ensures
            r == self.active(regolith(), timestamp),
    {
        proof {
            lemma_active_step(self.hardforks, regolith(), timestamp);
        }
        reached(self.hardforks.regolith_time, timestamp) || self.is_canyon_active(timestamp)
    }

    /// Whether Canyon is active at `timestamp`.
    pub fn is_canyon_active(&self, timestamp: u64) -> (r: bool)
        ensures
            r == self.active(canyon(), timestamp),
    {
        proof {
            lemma_active_step(self.hardforks, canyon(), timestamp);
        }
        reached(self.hardforks.canyon_time, timestamp) || self.is_delta_active(timestamp)
    }

    /// Whether Delta is active at `timestamp`.
    pub fn is_delta_active(&self, timestamp: u64) -> (r: bool)
        ensures
            r == self.active(delta(), timestamp),
    {
        proof {
            lemma_active_step(self.hardforks, delta(), timestamp);
        }
        reached(self.hardforks.delta_time, timestamp) || self.is_ecotone_active(timestamp)
    }

    /// Whether Ecotone is active at `timestamp`.
    pub fn is_ecotone_active(&self, timestamp: u64) -> (r: bool)
        ensures
            r == self.active(ecotone(), timestamp),
    {
        proof {
            lemma_active_step(self.hardforks, ecotone(), timestamp);
        }
        reached(self.hardforks.ecotone_time, timestamp) || self.is_fjord_active(timestamp)
    }

    /// Whether Fjord is active at `timestamp`.
    pub fn is_fjord_active(&self, timestamp: u64) -> (r: bool)
        ensures
            r == self.active(fjord(), timestamp),
    {
        proof {
            lemma_active_step(self.hardforks, fjord(), timestamp);
        }
        reached(self.hardforks.fjord_time, timestamp) || self.is_granite_active(timestamp)
    }

    /// Whether Granite is active at `timestamp`.
    pub fn is_granite_active(&self, timestamp: u64) -> (r: bool)
        ensures
            r == self.active(granite(), timestamp),
    {
        proof {
            lemma_active_step(self.hardforks, granite(), timestamp);
        }
        reached(self.hardforks.granite_time, timestamp) || self.is_holocene_active(timestamp)
    }

    /// Whether Holocene is active at `timestamp`.
    pub fn is_holocene_active(&self, timestamp: u64) -> (r: bool)
        ensures
            r == self.active(holocene(), timestamp),
    {
        proof {
            lemma_active_step(self.hardforks, holocene(), timestamp);
        }
        reached(self.hardforks.holocene_time, timestamp) || self.is_isthmus_active(timestamp)
    }

    /// Whether Isthmus is active at `timestamp`.
    pub fn is_isthmus_active(&self, timestamp: u64) -> (r: bool)
        ensures
            r == self.active(isthmus(), timestamp),
    {
        proof {
            lemma_active_step(self.hardforks, isthmus(), timestamp);
        }
        reached(self.hardforks.isthmus_time, timestamp) || self.is_jovian_active(timestamp)
    }

    /// Whether Jovian is active at `timestamp`.
    pub fn is_jovian_active(&self, timestamp: u64) -> (r: bool)
        ensures
            r == self.active(jovian(), timestamp),
    {
        proof {
            lemma_active_step(self.hardforks, jovian(), timestamp);
        }
        reached(self.hardforks.jovian_time, timestamp) || self.is_interop_active(timestamp)
    }

    /// Whether Interop is active at `timestamp`.
    pub fn is_interop_active(&self, timestamp: u64) -> (r: bool)
        ensures
            r == self.active(interop(), timestamp),
    {
        proof {
            lemma_active_step(self.hardforks, interop(), timestamp);
        }
        reached(self.hardforks.interop_time, timestamp)
    }

    /// The channel timeout in force at `timestamp`.
    pub open spec fn channel_timeout_at(self, timestamp: u64) -> u64 {
        if self.active(granite(), timestamp) {
            self.granite_channel_timeout
        } else {
            self.channel_timeout
        }
    }

    /// The number of L1 blocks after which a channel times out, as of `timestamp`.
    pub fn channel_timeout(&self, timestamp: u64) -> (r: u64)
        ensures
            r == self.channel_timeout_at(timestamp),
    {
        if self.is_granite_active(timestamp) {
            self.granite_channel_timeout
        } else {
            self.channel_timeout
        }
    }
}

/// A hardfork stays active, and with it every earlier one is active.
pub proof fn law_activation_is_monotone(
    config: RollupConfig,
    earlier: int,
    later: int,
    before: u64,
    after: u64,
)
    requires
        0 <= earlier <= later < 10,
        before <= after,
        config.active(later, before),
    ensures
        config.active(earlier, after),
{
    let i = choose|i: int|
        later <= i < 10 && has_come(#[trigger] config.hardforks.schedule()[i], before);
    assert(has_come(config.hardforks.schedule()[i], after));
}

/// A hardfork is active from its own activation time on, or as soon as the hardfork after it is.
pub proof fn law_fork_is_active_from_its_time(config: RollupConfig, timestamp: u64)
    ensures
        config.active(regolith(), timestamp) <==> (config.hardforks.regolith_time matches Some(time) && time <= timestamp)
            || config.active(canyon(), timestamp),
        config.active(canyon(), timestamp) <==> (config.hardforks.canyon_time matches Some(time) && time <= timestamp)
            || config.active(delta(), timestamp),
        config.active(delta(), timestamp) <==> (config.hardforks.delta_time matches Some(time) && time <= timestamp)
            || config.active(ecotone(), timestamp),
        config.active(ecotone(), timestamp) <==> (config.hardforks.ecotone_time matches Some(time) && time <= timestamp)
            || config.active(fjord(), timestamp),
        config.active(fjord(), timestamp) <==> (config.hardforks.fjord_time matches Some(time) && time <= timestamp)
            || config.active(granite(), timestamp),
        config.active(granite(), timestamp) <==> (config.hardforks.granite_time matches Some(time) && time <= timestamp)
            || config.active(holocene(), timestamp),
        config.active(holocene(), timestamp) <==> (config.hardforks.holocene_time matches Some(time) && time <= timestamp)
            || config.active(isthmus(), timestamp),
        config.active(isthmus(), timestamp) <==> (config.hardforks.isthmus_time matches Some(time) && time <= timestamp)
            || config.active(jovian(), timestamp),
        config.active(jovian(), timestamp) <==> (config.hardforks.jovian_time matches Some(time) && time <= timestamp)
            || config.active(interop(), timestamp),
        config.active(interop(), timestamp) <==> (config.hardforks.interop_time matches Some(time) && time <= timestamp),
{
    lemma_active_step(config.hardforks, regolith(), timestamp);
    lemma_active_step(config.hardforks, canyon(), timestamp);
    lemma_active_step(config.hardforks, delta(), timestamp);
    lemma_active_step(config.hardforks, ecotone(), timestamp);
    lemma_active_step(config.hardforks, fjord(), timestamp);
    lemma_active_step(config.hardforks, granite(), timestamp);
    lemma_active_step(config.hardforks, holocene(), timestamp);
    lemma_active_step(config.hardforks, isthmus(), timestamp);
    lemma_active_step(config.hardforks, jovian(), timestamp);
    lemma_active_step(config.hardforks, interop(), timestamp);
}

/// A channel times out after the number of blocks that is set for Granite as soon as Granite, or a
/// hardfork after it, is active, and after the other one before that.
pub proof fn law_channel_timeout_changes_at_granite(config: RollupConfig, timestamp: u64)
    ensures
        config.active(granite(), timestamp) ==> config.channel_timeout_at(timestamp)
            == config.granite_channel_timeout,
        !config.active(granite(), timestamp) ==> config.channel_timeout_at(timestamp)
            == config.channel_timeout,
        config.hardforks.granite_time matches Some(time) && time <= timestamp
            ==> config.channel_timeout_at(timestamp) == config.granite_channel_timeout,
{
    law_fork_is_active_from_its_time(config, timestamp);
}

} // verus!
