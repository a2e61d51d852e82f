//! Block references and the identifiers that travel with them.

use vstd::prelude::*;

verus! {

/// A 32-byte hash.
#[derive(Clone, Copy, Debug, PartialEq, Eq)]
pub struct Hash256(pub [u8; 32]);

impl Hash256 {
    /// Whether every byte of the hash is zero.
    pub open spec fn spec_is_zero(&self) -> bool {
        forall|i: int| 0 <= i < 32 ==> self.0[i] == 0u8
    }

    /// The hash whose bytes are all zero.
    pub fn zero() -> (h: Hash256)
        ensures
            h.spec_is_zero(),
    {
        Hash256([0u8; 32])
    }

    /// Tells whether every byte of the hash is zero.
    pub fn is_zero(&self) -> (r: bool)
        ensures
            r == self.spec_is_zero(),
    {
        let mut i: usize = 0;
        while i < 32
            invariant
                i <= 32,
                forall|j: int| 0 <= j < i ==> self.0[j] == 0u8,
            decreases 32 - i,
        {
            if self.0[i] != 0 {
                return false;
            }
            i += 1;
        }
        true
    }
}

/// A block number together with the hash of that block.
#[derive(Clone, Copy, Debug, PartialEq, Eq)]
pub struct BlockNumHash {
    /// The block number.
    pub number: u64,
    /// The block hash.
    pub hash: Hash256,
}

/// The header fields by which a block is known.
#[derive(Clone, Copy, Debug, PartialEq, Eq)]
pub struct BlockInfo {
    /// The block hash.
    pub hash: Hash256,
    /// The block number.
    pub number: u64,
    /// The hash of the parent block.
    pub parent_hash: Hash256,
    /// The block timestamp.
    pub timestamp: u64,
}

impl BlockInfo {
    /// A block reference from its four fields.
    pub fn new(hash: Hash256, number: u64, parent_hash: Hash256, timestamp: u64) -> (b: BlockInfo)
        ensures
            b == (BlockInfo { hash, number, parent_hash, timestamp }),
    {
        BlockInfo { hash, number, parent_hash, timestamp }
    }
}

/// A reference to an L2 block: its header fields, the L1 block it was derived
/// from, and its place among the L2 blocks of that L1 origin.
#[derive(Clone, Copy, Debug, PartialEq, Eq)]
pub struct L2BlockInfo {
    /// The header fields of the L2 block.
    pub block_info: BlockInfo,
    /// The L1 origin of the block.
    pub l1_origin: BlockNumHash,
    /// The sequence number of the block within its L1 origin.
    pub seq_num: u64,
}

impl L2BlockInfo {
    /// A reference to an L2 block from its parts.
    pub fn new(block_info: BlockInfo, l1_origin: BlockNumHash, seq_num: u64) -> (b: L2BlockInfo)
        ensures
            b == (L2BlockInfo { block_info, l1_origin, seq_num }),
    {
        L2BlockInfo { block_info, l1_origin, seq_num }
    }
}

/// The identifier by which the engine addresses a build in progress.
#[derive(Clone, Copy, Debug, PartialEq, Eq)]
pub struct PayloadId(pub u64);

} // verus!
