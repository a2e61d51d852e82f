//! What the execution engine answers, as far as the node reads it.

use vstd::prelude::*;
use crate::config::ChainGenesis;
use crate::primitives::{BlockInfo, BlockNumHash, Hash256, L2BlockInfo, PayloadId};
use crate::versions::EngineNewPayloadVersion;
use kona_protocol::FromBlockError;
use op_alloy_rpc_types_engine::{OpExecutionPayload, OpExecutionPayloadEnvelope};

verus! {

/// `op_alloy_rpc_types_engine::OpExecutionPayloadEnvelope`: an execution
/// payload with its parent beacon block root, carried as the engine gave it.
#[verifier::external_type_specification]
#[verifier::external_body]
pub struct ExOpExecutionPayloadEnvelope(OpExecutionPayloadEnvelope);

/// `kona_protocol::FromBlockError`: why a payload holds no L2 block of the
/// chain.
#[verifier::external_type_specification]
#[verifier::external_body]
pub struct ExFromBlockError(FromBlockError);

/// The engine's verdict on a payload or on a forkchoice.
#[derive(Clone, Debug, PartialEq, Eq)]
pub enum PayloadStatus {
    /// The payload is valid.
    Valid,
    /// The payload is invalid, for the reason given.
    Invalid { validation_error: String },
    /// The engine is syncing and cannot tell yet.
    Syncing,
    /// The payload is well formed, and not part of the canonical chain.
    Accepted,
}

/// The answer to a forkchoice update.
#[derive(Clone, Debug, PartialEq, Eq)]
pub struct ForkchoiceUpdated {
    /// The verdict on the forkchoice.
    pub payload_status: PayloadStatus,
    /// The build that the engine started, if it started one.
    pub payload_id: Option<PayloadId>,
}

/// A payload as the engine built it, with the version it has.
#[derive(Debug, PartialEq, Eq)]
pub struct PayloadEnvelope {
    /// The version of the execution payload.
    pub version: EngineNewPayloadVersion,
    /// The payload and its parent beacon block root.
    pub envelope: OpExecutionPayloadEnvelope,
}

/// The version of the execution payload in `envelope`: which of the four
/// variants of `op_alloy_rpc_types_engine::OpExecutionPayload` it is.
pub uninterp spec fn payload_version_of(envelope: OpExecutionPayloadEnvelope) -> EngineNewPayloadVersion;

/// The reference to the L2 block that the execution payload in `envelope`
/// holds, on the chain that starts from `genesis`, or the reason why it holds
/// none: what `kona_protocol::L2BlockInfo::from_payload_and_genesis` makes of
/// the payload.
pub uninterp spec fn block_of_payload(
    envelope: OpExecutionPayloadEnvelope,
    parent_beacon_block_root: Option<Hash256>,
    genesis: ChainGenesis,
) -> Result<L2BlockInfo, FromBlockError>;

/// A block reference from its bare fields: the hash, number, parent hash and
/// timestamp of the block, the number and hash of its L1 origin, and its
/// sequence number.
pub open spec fn block_from_fields(
    fields: (([u8; 32], u64, [u8; 32], u64), (u64, [u8; 32]), u64),
) -> L2BlockInfo {
    L2BlockInfo {
        block_info: BlockInfo {
            hash: Hash256(fields.0.0),
            number: fields.0.1,
            parent_hash: Hash256(fields.0.2),
            timestamp: fields.0.3,
        },
        l1_origin: BlockNumHash { number: fields.1.0, hash: Hash256(fields.1.1) },
        seq_num: fields.2,
    }
}

/// Tells the variants of `op_alloy_rpc_types_engine::OpExecutionPayload`
/// apart: the version is that of the variant.
#[verifier::external_body]
fn payload_version(envelope: &OpExecutionPayloadEnvelope) -> (version: EngineNewPayloadVersion)
    ensures
        version == payload_version_of(*envelope),
{
    match &envelope.execution_payload {
        OpExecutionPayload::V1(_) => EngineNewPayloadVersion::V1,
        OpExecutionPayload::V2(_) => EngineNewPayloadVersion::V2,
        OpExecutionPayload::V3(_) => EngineNewPayloadVersion::V3,
        OpExecutionPayload::V4(_) => EngineNewPayloadVersion::V4,
    }
}

/// `kona_protocol::L2BlockInfo::from_payload_and_genesis`, on the execution
/// payload of `envelope`: the reference to the block that the payload holds,
/// or the reason why the payload holds no L2 block of the chain. The
/// reference comes as its bare fields. The result depends on the payload,
/// the root and the genesis alone.
#[verifier::external_body]
fn read_block(
    envelope: &OpExecutionPayloadEnvelope,
    parent_beacon_block_root: Option<Hash256>,
    genesis: &ChainGenesis,
) -> (read: Result<(([u8; 32], u64, [u8; 32], u64), (u64, [u8; 32]), u64), FromBlockError>)
    ensures
        block_of_payload(*envelope, parent_beacon_block_root, *genesis) == match read {
            Ok(fields) => Ok::<L2BlockInfo, FromBlockError>(block_from_fields(fields)),
            Err(reason) => Err(reason),
        },
{
    let l1 = (genesis.l1.number, genesis.l1.hash.0.into()).into();
    let l2 = (genesis.l2.number, genesis.l2.hash.0.into()).into();
    let genesis = kona_genesis::ChainGenesis { l1, l2, l2_time: genesis.l2_time, system_config: None };
    let root = parent_beacon_block_root.map(|root| root.0.into());
    let payload = envelope.execution_payload.clone();
    let block = kona_protocol::L2BlockInfo::from_payload_and_genesis(payload, root, &genesis)?;
    let (b, o) = (block.block_info, block.l1_origin);
    Ok(((b.hash.0, b.number, b.parent_hash.0, b.timestamp), (o.number, o.hash.0), block.seq_num))
}

impl PayloadEnvelope {
    /// The payload and its version belong together.
    pub open spec fn wf(&self) -> bool {
        self.version == payload_version_of(self.envelope)
    }

    /// The payload with its version.
    pub fn new(envelope: OpExecutionPayloadEnvelope) -> (payload: PayloadEnvelope)
        ensures
            payload == (PayloadEnvelope { version: payload_version_of(envelope), envelope }),
            payload.wf(),
    {
        let version = payload_version(&envelope);
        PayloadEnvelope { version, envelope }
    }

    /// Tells whether the payload and its version belong together.
    pub fn is_wf(&self) -> (ok: bool)
        ensures
            ok == self.wf(),
    {
        match (self.version, payload_version(&self.envelope)) {
            (EngineNewPayloadVersion::V1, EngineNewPayloadVersion::V1) => true,
            (EngineNewPayloadVersion::V2, EngineNewPayloadVersion::V2) => true,
            (EngineNewPayloadVersion::V3, EngineNewPayloadVersion::V3) => true,
            (EngineNewPayloadVersion::V4, EngineNewPayloadVersion::V4) => true,
            _ => false,
        }
    }

    /// The reference to the block that the payload holds, as it stands on the
    /// chain that starts from `genesis`.
    pub fn block_info(&self, parent_beacon_block_root: Option<Hash256>, genesis: &ChainGenesis) -> (block:
        Result<L2BlockInfo, FromBlockError>)
        ensures
            block == block_of_payload(self.envelope, parent_beacon_block_root, *genesis),
    {
        match read_block(&self.envelope, parent_beacon_block_root, genesis) {
            Ok(((hash, number, parent_hash, timestamp), (origin_number, origin_hash), seq_num)) => Ok(
                L2BlockInfo::new(
                    BlockInfo::new(Hash256(hash), number, Hash256(parent_hash), timestamp),
                    BlockNumHash { number: origin_number, hash: Hash256(origin_hash) },
                    seq_num,
                ),
            ),
            Err(reason) => Err(reason),
        }
    }
}

} // verus!
