//! The engine state: the heads of the L2 chain at each level of commitment.

use vstd::prelude::*;
use crate::primitives::{Hash256, L2BlockInfo};

verus! {

/// The three hashes that a forkchoice update hands to the engine.
#[derive(Clone, Copy, Debug, PartialEq, Eq)]
pub struct ForkchoiceState {
    /// The hash of the head of the canonical chain.
    pub head_block_hash: Hash256,
    /// The hash of the safe block.
    pub safe_block_hash: Hash256,
    /// The hash of the finalized block.
    pub finalized_block_hash: Hash256,
}

/// The heads of the L2 chain, from the least to the most committed.
#[derive(Clone, Copy, Debug, PartialEq, Eq)]
pub struct EngineState {
    /// The most recent block known, whether derived or not.
    pub unsafe_head: L2BlockInfo,
    /// The most recent unsafe block whose cross-chain dependencies are known.
    pub cross_unsafe_head: L2BlockInfo,
    /// The most recent block derived from L1.
    pub local_safe_head: L2BlockInfo,
    /// The most recent derived block whose cross-chain dependencies are safe.
    pub safe_head: L2BlockInfo,
    /// The most recent block derived from finalized L1 data.
    pub finalized_head: L2BlockInfo,
}

impl EngineState {
    /// The heads stand in order of commitment: by block number, no head is
    /// ahead of a less committed one.
    pub open spec fn well_ordered(&self) -> bool {
        &&& self.unsafe_head.block_info.number >= self.cross_unsafe_head.block_info.number
        &&& self.cross_unsafe_head.block_info.number >= self.local_safe_head.block_info.number
        &&& self.local_safe_head.block_info.number >= self.safe_head.block_info.number
        &&& self.safe_head.block_info.number >= self.finalized_head.block_info.number
    }

    /// The finalized head is ahead of the unsafe head. No build starts from
    /// such a state.
    pub open spec fn finalized_ahead_of_unsafe(&self) -> bool {
        self.unsafe_head.block_info.number < self.finalized_head.block_info.number
    }

    /// The forkchoice that the state stands for: the hashes of the unsafe, the
    /// safe and the finalized head.
    pub open spec fn forkchoice(&self) -> ForkchoiceState {
        ForkchoiceState {
            head_block_hash: self.unsafe_head.block_info.hash,
            safe_block_hash: self.safe_head.block_info.hash,
            finalized_block_hash: self.finalized_head.block_info.hash,
        }
    }

    /// The state after `block` was imported: the unsafe and the cross-unsafe
    /// head are the block; if it was derived, the local-safe and the safe head
    /// are too. The finalized head stays.
    pub open spec fn with_imported(&self, block: L2BlockInfo, derived: bool) -> EngineState {
        EngineState {
            unsafe_head: block,
            cross_unsafe_head: block,
            local_safe_head: if derived { block } else { self.local_safe_head },
            safe_head: if derived { block } else { self.safe_head },
            finalized_head: self.finalized_head,
        }
    }

    /// A state whose five heads are all `head`.
    pub fn new(head: L2BlockInfo) -> (s: EngineState)
        ensures
            s == (EngineState {
                unsafe_head: head,
                cross_unsafe_head: head,
                local_safe_head: head,
                safe_head: head,
                finalized_head: head,
            }),
            s.well_ordered(),
    {
        EngineState {
            unsafe_head: head,
            cross_unsafe_head: head,
            local_safe_head: head,
            safe_head: head,
            finalized_head: head,
        }
    }

    /// The unsafe head.
    pub fn unsafe_head(&self) -> (head: L2BlockInfo)
        ensures
            head == self.unsafe_head,
    {
        self.unsafe_head
    }

    /// The cross-unsafe head.
    pub fn cross_unsafe_head(&self) -> (head: L2BlockInfo)
        ensures
            head == self.cross_unsafe_head,
    {
        self.cross_unsafe_head
    }

    /// The local-safe head.
    pub fn local_safe_head(&self) -> (head: L2BlockInfo)
        ensures
            head == self.local_safe_head,
    {
        self.local_safe_head
    }

    /// The safe head.
    pub fn safe_head(&self) -> (head: L2BlockInfo)
        ensures
            head == self.safe_head,
    {
        self.safe_head
    }

    /// The finalized head.
    pub fn finalized_head(&self) -> (head: L2BlockInfo)
        ensures
            head == self.finalized_head,
    {
        self.finalized_head
    }

    /// Sets the unsafe head and leaves the others.
    pub fn set_unsafe_head(&mut self, head: L2BlockInfo)
        ensures
            *final(self) == (EngineState { unsafe_head: head, ..*old(self) }),
    {
        self.unsafe_head = head;
    }

    /// Sets the cross-unsafe head and leaves the others.
    pub fn set_cross_unsafe_head(&mut self, head: L2BlockInfo)
        ensures
            *final(self) == (EngineState { cross_unsafe_head: head, ..*old(self) }),
    {
        self.cross_unsafe_head = head;
    }

    /// Sets the local-safe head and leaves the others.
    pub fn set_local_safe_head(&mut self, head: L2BlockInfo)
        ensures
            *final(self) == (EngineState { local_safe_head: head, ..*old(self) }),
    {
        self.local_safe_head = head;
    }

    /// Sets the safe head and leaves the others.
    pub fn set_safe_head(&mut self, head: L2BlockInfo)
        ensures
            *final(self) == (EngineState { safe_head: head, ..*old(self) }),
    {
        self.safe_head = head;
    }

    /// Sets the finalized head and leaves the others.
    pub fn set_finalized_head(&mut self, head: L2BlockInfo)
        ensures
            *final(self) == (EngineState { finalized_head: head, ..*old(self) }),
    {
        self.finalized_head = head;
    }

    /// Snapshots the forkchoice of the state.
    pub fn create_forkchoice_state(&self) -> (forkchoice: ForkchoiceState)
        ensures
            forkchoice == self.forkchoice(),
    {
        ForkchoiceState {
            head_block_hash: self.unsafe_head.block_info.hash,
            safe_block_hash: self.safe_head.block_info.hash,
            finalized_block_hash: self.finalized_head.block_info.hash,
        }
    }

    /// Records an imported block: the unsafe and the cross-unsafe head move to
    /// it, and with `derived` the local-safe and the safe head as well.
    pub fn import(&mut self, block: L2BlockInfo, derived: bool)
        ensures
            *final(self) == old(self).with_imported(block, derived),
    {
        self.set_unsafe_head(block);
        self.set_cross_unsafe_head(block);
        if derived {
            self.set_local_safe_head(block);
            self.set_safe_head(block);
        }
    }

    /// Importing a block keeps the heads in order, where the block is not
    /// behind the most committed head that stays: the finalized head if the
    /// block was derived, the local-safe head if not.
    pub proof fn lemma_import_keeps_order(self, block: L2BlockInfo, derived: bool)
        requires
            self.well_ordered(),
            derived ==> block.block_info.number >= self.finalized_head.block_info.number,
            !derived ==> block.block_info.number >= self.local_safe_head.block_info.number,
        ensures
            self.with_imported(block, derived).well_ordered(),
    {
    }
}

} // verus!
