//! The rollup configuration: the genesis descriptor and the hard forks, each
//! active from a timestamp on.

use vstd::prelude::*;
use crate::primitives::BlockNumHash;

verus! {

/// The activation time of each hard fork; `None` where none is scheduled.
#[derive(Clone, Copy, Debug, PartialEq, Eq)]
pub struct HardForkConfig {
    pub regolith_time: Option<u64>,
    pub canyon_time: Option<u64>,
    pub delta_time: Option<u64>,
    pub ecotone_time: Option<u64>,
    pub fjord_time: Option<u64>,
    pub granite_time: Option<u64>,
    pub holocene_time: Option<u64>,
    pub pectra_blob_schedule_time: Option<u64>,
    pub isthmus_time: Option<u64>,
    pub jovian_time: Option<u64>,
    pub interop_time: Option<u64>,
}

/// Whether an activation time is scheduled and `timestamp` has reached it.
pub open spec fn reached(time: Option<u64>, timestamp: u64) -> bool {
    time matches Some(t) && timestamp >= t
}

impl HardForkConfig {
    /// Interop is active once its own time is reached.
    pub open spec fn interop_active(&self, timestamp: u64) -> bool {
        reached(self.interop_time, timestamp)
    }

    /// A fork is active once its own time is reached, or once the fork after
    /// it is active.
    pub open spec fn jovian_active(&self, timestamp: u64) -> bool {
        reached(self.jovian_time, timestamp) || self.interop_active(timestamp)
    }

    pub open spec fn isthmus_active(&self, timestamp: u64) -> bool {
        reached(self.isthmus_time, timestamp) || self.jovian_active(timestamp)
    }

    pub open spec fn holocene_active(&self, timestamp: u64) -> bool {
        reached(self.holocene_time, timestamp) || self.isthmus_active(timestamp)
    }

    pub open spec fn granite_active(&self, timestamp: u64) -> bool {
        reached(self.granite_time, timestamp) || self.holocene_active(timestamp)
    }

    pub open spec fn fjord_active(&self, timestamp: u64) -> bool {
        reached(self.fjord_time, timestamp) || self.granite_active(timestamp)
    }

    pub open spec fn ecotone_active(&self, timestamp: u64) -> bool {
        reached(self.ecotone_time, timestamp) || self.fjord_active(timestamp)
    }

    pub open spec fn delta_active(&self, timestamp: u64) -> bool {
        reached(self.delta_time, timestamp) || self.ecotone_active(timestamp)
    }

    pub open spec fn canyon_active(&self, timestamp: u64) -> bool {
        reached(self.canyon_time, timestamp) || self.delta_active(timestamp)
    }
}

/// `kona_genesis::RollupConfig::is_canyon_active`, on a configuration that
/// holds these hard fork times: true when the Canyon time, or that of any fork
/// from Delta to Interop, is scheduled and reached.
#[verifier::external_body]
fn canyon_active_at(hardforks: &HardForkConfig, timestamp: u64) -> (active: bool)
    ensures
        active == hardforks.canyon_active(timestamp),
{
    let HardForkConfig {
        regolith_time, canyon_time, delta_time, ecotone_time, fjord_time, granite_time,
        holocene_time, pectra_blob_schedule_time, isthmus_time, jovian_time, interop_time,
    } = *hardforks;
    let hardforks = kona_genesis::HardForkConfig {
        regolith_time, canyon_time, delta_time, ecotone_time, fjord_time, granite_time,
        holocene_time, pectra_blob_schedule_time, isthmus_time, jovian_time, interop_time,
    };
    kona_genesis::RollupConfig { hardforks, ..Default::default() }.is_canyon_active(timestamp)
}

/// `kona_genesis::RollupConfig::is_ecotone_active`, on a configuration that
/// holds these hard fork times: true when the Ecotone time, or that of any fork
/// from Fjord to Interop, is scheduled and reached.
#[verifier::external_body]
fn ecotone_active_at(hardforks: &HardForkConfig, timestamp: u64) -> (active: bool)
    ensures
        active == hardforks.ecotone_active(timestamp),
{
    let HardForkConfig {
        regolith_time, canyon_time, delta_time, ecotone_time, fjord_time, granite_time,
        holocene_time, pectra_blob_schedule_time, isthmus_time, jovian_time, interop_time,
    } = *hardforks;
    let hardforks = kona_genesis::HardForkConfig {
        regolith_time, canyon_time, delta_time, ecotone_time, fjord_time, granite_time,
        holocene_time, pectra_blob_schedule_time, isthmus_time, jovian_time, interop_time,
    };
    kona_genesis::RollupConfig { hardforks, ..Default::default() }.is_ecotone_active(timestamp)
}

/// `kona_genesis::RollupConfig::is_holocene_active`, on a configuration that
/// holds these hard fork times: true when the Holocene time, or that of Isthmus,
/// Jovian or Interop, is scheduled and reached.
#[verifier::external_body]
fn holocene_active_at(hardforks: &HardForkConfig, timestamp: u64) -> (active: bool)
    ensures
        active == hardforks.holocene_active(timestamp),
{
    let HardForkConfig {
        regolith_time, canyon_time, delta_time, ecotone_time, fjord_time, granite_time,
        holocene_time, pectra_blob_schedule_time, isthmus_time, jovian_time, interop_time,
    } = *hardforks;
    let hardforks = kona_genesis::HardForkConfig {
        regolith_time, canyon_time, delta_time, ecotone_time, fjord_time, granite_time,
        holocene_time, pectra_blob_schedule_time, isthmus_time, jovian_time, interop_time,
    };
    kona_genesis::RollupConfig { hardforks, ..Default::default() }.is_holocene_active(timestamp)
}

/// `kona_genesis::RollupConfig::is_isthmus_active`, on a configuration that
/// holds these hard fork times: true when the Isthmus time, or that of Jovian
/// or Interop, is scheduled and reached.
#[verifier::external_body]
fn isthmus_active_at(hardforks: &HardForkConfig, timestamp: u64) -> (active: bool)
    ensures
        active == hardforks.isthmus_active(timestamp),
{
    let HardForkConfig {
        regolith_time, canyon_time, delta_time, ecotone_time, fjord_time, granite_time,
        holocene_time, pectra_blob_schedule_time, isthmus_time, jovian_time, interop_time,
    } = *hardforks;
    let hardforks = kona_genesis::HardForkConfig {
        regolith_time, canyon_time, delta_time, ecotone_time, fjord_time, granite_time,
        holocene_time, pectra_blob_schedule_time, isthmus_time, jovian_time, interop_time,
    };
    kona_genesis::RollupConfig { hardforks, ..Default::default() }.is_isthmus_active(timestamp)
}

/// `kona_genesis::RollupConfig::is_interop_active`, on a configuration that
/// holds these hard fork times: true when the Interop time is scheduled and
/// reached.
#[verifier::external_body]
fn interop_active_at(hardforks: &HardForkConfig, timestamp: u64) -> (active: bool)
    ensures
        active == hardforks.interop_active(timestamp),
{
    let HardForkConfig {
        regolith_time, canyon_time, delta_time, ecotone_time, fjord_time, granite_time,
        holocene_time, pectra_blob_schedule_time, isthmus_time, jovian_time, interop_time,
    } = *hardforks;
    let hardforks = kona_genesis::HardForkConfig {
        regolith_time, canyon_time, delta_time, ecotone_time, fjord_time, granite_time,
        holocene_time, pectra_blob_schedule_time, isthmus_time, jovian_time, interop_time,
    };
    kona_genesis::RollupConfig { hardforks, ..Default::default() }.is_interop_active(timestamp)
}

/// The genesis of the chain: the L1 block and the L2 block it starts from.
#[derive(Clone, Copy, Debug, PartialEq, Eq)]
pub struct ChainGenesis {
    /// The L1 genesis block.
    pub l1: BlockNumHash,
    /// The L2 genesis block.
    pub l2: BlockNumHash,
    /// The timestamp of the L2 genesis block.
    pub l2_time: u64,
}

/// What the node reads of the rollup's configuration.
#[derive(Clone, Copy, Debug, PartialEq, Eq)]
pub struct RollupConfig {
    /// The genesis of the chain.
    pub genesis: ChainGenesis,
    /// The hard fork schedule.
    pub hardforks: HardForkConfig,
}

impl RollupConfig {
    /// Whether Canyon is active at `timestamp`.
    pub fn is_canyon_active(&self, timestamp: u64) -> (active: bool)
        ensures
            active == self.hardforks.canyon_active(timestamp),
    {
        canyon_active_at(&self.hardforks, timestamp)
    }

    /// Whether Ecotone is active at `timestamp`.
    pub fn is_ecotone_active(&self, timestamp: u64) -> (active: bool)
        ensures
            active == self.hardforks.ecotone_active(timestamp),
    {
        ecotone_active_at(&self.hardforks, timestamp)
    }

    /// Whether Holocene is active at `timestamp`.
    pub fn is_holocene_active(&self, timestamp: u64) -> (active: bool)
        ensures
            active == self.hardforks.holocene_active(timestamp),
    {
        holocene_active_at(&self.hardforks, timestamp)
    }

    /// Whether Isthmus is active at `timestamp`.
    pub fn is_isthmus_active(&self, timestamp: u64) -> (active: bool)
        ensures
            active == self.hardforks.isthmus_active(timestamp),
    {
        isthmus_active_at(&self.hardforks, timestamp)
    }

    /// Whether Interop is active at `timestamp`.
    pub fn is_interop_active(&self, timestamp: u64) -> (active: bool)
        ensures
            active == self.hardforks.interop_active(timestamp),
    {
        interop_active_at(&self.hardforks, timestamp)
    }
}

} // verus!
