//! The versions of the engine's methods, each chosen by the hard forks that are
//! active at a payload's timestamp.

use vstd::prelude::*;
use crate::config::{HardForkConfig, RollupConfig};

verus! {

/// The version of the forkchoice update method.
#[derive(Clone, Copy, Debug, PartialEq, Eq)]
pub enum EngineForkchoiceVersion {
    /// Before Canyon.
    V1,
    /// From Canyon on.
    V2,
    /// From Ecotone on.
    V3,
}

impl EngineForkchoiceVersion {
    /// The place of the version among the versions, oldest first.
    pub open spec fn rank(&self) -> nat {
        match self {
            EngineForkchoiceVersion::V1 => 1,
            EngineForkchoiceVersion::V2 => 2,
            EngineForkchoiceVersion::V3 => 3,
        }
    }

    /// The version is not older than the forks active at `timestamp` demand:
    /// Ecotone demands the third, Canyon the second.
    pub open spec fn admissible(&self, hardforks: HardForkConfig, timestamp: u64) -> bool {
        &&& hardforks.ecotone_active(timestamp) ==> self.rank() >= 3
        &&& hardforks.canyon_active(timestamp) ==> self.rank() >= 2
    }

    /// The version for a payload at `timestamp`.
    pub open spec fn select(hardforks: HardForkConfig, timestamp: u64) -> EngineForkchoiceVersion {
        if hardforks.ecotone_active(timestamp) {
            EngineForkchoiceVersion::V3
        } else if hardforks.canyon_active(timestamp) {
            EngineForkchoiceVersion::V2
        } else {
            EngineForkchoiceVersion::V1
        }
    }

    /// Chooses the version for a payload at `timestamp`.
    pub fn from_cfg(cfg: &RollupConfig, timestamp: u64) -> (version: EngineForkchoiceVersion)
        ensures
            version == Self::select(cfg.hardforks, timestamp),
    {
        if cfg.is_ecotone_active(timestamp) {
            EngineForkchoiceVersion::V3
        } else if cfg.is_canyon_active(timestamp) {
            EngineForkchoiceVersion::V2
        } else {
            EngineForkchoiceVersion::V1
        }
    }

    /// The version chosen is the oldest that the active forks admit.
    pub proof fn lemma_select_is_least_admissible(
        hardforks: HardForkConfig,
        timestamp: u64,
        other: EngineForkchoiceVersion,
    )
        ensures
            Self::select(hardforks, timestamp).admissible(hardforks, timestamp),
            other.admissible(hardforks, timestamp) ==> Self::select(hardforks, timestamp).rank()
                <= other.rank(),
    {
    }
}

/// The version of the method that fetches a built payload.
#[derive(Clone, Copy, Debug, PartialEq, Eq)]
pub enum EngineGetPayloadVersion {
    /// Before Ecotone.
    V2,
    /// From Ecotone on.
    V3,
    /// From Isthmus on.
    V4,
}

impl EngineGetPayloadVersion {
    /// The place of the version among the versions, oldest first.
    pub open spec fn rank(&self) -> nat {
        match self {
            EngineGetPayloadVersion::V2 => 2,
            EngineGetPayloadVersion::V3 => 3,
            EngineGetPayloadVersion::V4 => 4,
        }
    }

    /// The version is not older than the forks active at `timestamp` demand:
    /// Isthmus demands the fourth, Ecotone the third.
    pub open spec fn admissible(&self, hardforks: HardForkConfig, timestamp: u64) -> bool {
        &&& hardforks.isthmus_active(timestamp) ==> self.rank() >= 4
        &&& hardforks.ecotone_active(timestamp) ==> self.rank() >= 3
    }

    /// The version for a payload at `timestamp`.
    pub open spec fn select(hardforks: HardForkConfig, timestamp: u64) -> EngineGetPayloadVersion {
        if hardforks.isthmus_active(timestamp) {
            EngineGetPayloadVersion::V4
        } else if hardforks.ecotone_active(timestamp) {
            EngineGetPayloadVersion::V3
        } else {
            EngineGetPayloadVersion::V2
        }
    }

    /// Chooses the version for a payload at `timestamp`.
    pub fn from_cfg(cfg: &RollupConfig, timestamp: u64) -> (version: EngineGetPayloadVersion)
        ensures
            version == Self::select(cfg.hardforks, timestamp),
    {
        if cfg.is_isthmus_active(timestamp) {
            EngineGetPayloadVersion::V4
        } else if cfg.is_ecotone_active(timestamp) {
            EngineGetPayloadVersion::V3
        } else {
            EngineGetPayloadVersion::V2
        }
    }

    /// The version chosen is the oldest that the active forks admit.
    pub proof fn lemma_select_is_least_admissible(
        hardforks: HardForkConfig,
        timestamp: u64,
        other: EngineGetPayloadVersion,
    )
        ensures
            Self::select(hardforks, timestamp).admissible(hardforks, timestamp),
            other.admissible(hardforks, timestamp) ==> Self::select(hardforks, timestamp).rank()
                <= other.rank(),
    {
    }
}

/// The version of an execution payload, and of the method that imports it.
#[derive(Clone, Copy, Debug, PartialEq, Eq)]
pub enum EngineNewPayloadVersion {
    V1,
    V2,
    V3,
    V4,
}

impl EngineNewPayloadVersion {
    /// The place of the version among the versions, oldest first.
    pub open spec fn rank(&self) -> nat {
        match self {
            EngineNewPayloadVersion::V1 => 1,
            EngineNewPayloadVersion::V2 => 2,
            EngineNewPayloadVersion::V3 => 3,
            EngineNewPayloadVersion::V4 => 4,
        }
    }

    /// Whether the import method of this version takes the parent beacon
    /// block root: the third and the fourth do.
    pub open spec fn spec_takes_parent_beacon_block_root(&self) -> bool {
        self.rank() >= 3
    }

    /// Tells whether the import method of this version takes the parent
    /// beacon block root.
    pub fn takes_parent_beacon_block_root(&self) -> (takes: bool)
        ensures
            takes == self.spec_takes_parent_beacon_block_root(),
    {
        match self {
            EngineNewPayloadVersion::V1 => false,
            EngineNewPayloadVersion::V2 => false,
            EngineNewPayloadVersion::V3 => true,
            EngineNewPayloadVersion::V4 => true,
        }
    }
}

} // verus!
