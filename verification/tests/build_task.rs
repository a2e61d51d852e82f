use alloy_rpc_types_engine::{ExecutionPayloadV1, ExecutionPayloadV2, ExecutionPayloadV3};
use op_alloy_rpc_types_engine::{OpExecutionPayload, OpExecutionPayloadEnvelope};
use rollup_node::attributes::{
    Address, OpAttributesWithParent, OpPayloadAttributes, PayloadAttributes, DEPOSIT_TX_TYPE,
};
use rollup_node::build_task::{
    BuildPhase, BuildTask, BuildTaskError, BuildTimings, EngineAction, EngineEvent,
    EngineTaskError, ImportVerdict,
};
use rollup_node::config::{ChainGenesis, HardForkConfig, RollupConfig};
use rollup_node::engine_api::{ForkchoiceUpdated, PayloadEnvelope, PayloadStatus};
use rollup_node::engine_state::{EngineState, ForkchoiceState};
use rollup_node::forkchoice::ForkchoiceTaskError;
use rollup_node::derivation::Signal;
use rollup_node::primitives::{BlockInfo, BlockNumHash, Hash256, L2BlockInfo, PayloadId};
use rollup_node::versions::{
    EngineForkchoiceVersion, EngineGetPayloadVersion, EngineNewPayloadVersion,
};

const GENESIS_NUMBER: u64 = 7;
const PAYLOAD_TIME: u64 = 1_000;

fn hash(byte: u8) -> Hash256 {
    Hash256([byte; 32])
}

fn block(number: u64, byte: u8) -> L2BlockInfo {
    L2BlockInfo {
        block_info: BlockInfo {
            hash: hash(byte),
            number,
            parent_hash: hash(byte.wrapping_sub(1)),
            timestamp: 2 * number,
        },
        l1_origin: BlockNumHash { number: 1, hash: hash(0xA1) },
        seq_num: 0,
    }
}

fn no_forks() -> HardForkConfig {
    HardForkConfig {
        regolith_time: None,
        canyon_time: None,
        delta_time: None,
        ecotone_time: None,
        fjord_time: None,
        granite_time: None,
        holocene_time: None,
        pectra_blob_schedule_time: None,
        isthmus_time: None,
        jovian_time: None,
        interop_time: None,
    }
}

fn ecotone() -> HardForkConfig {
    HardForkConfig { canyon_time: Some(0), ecotone_time: Some(0), ..no_forks() }
}

fn holocene() -> HardForkConfig {
    HardForkConfig { holocene_time: Some(0), ..ecotone() }
}

/// The execution payload that the engine hands out in these tests: an empty
/// block with the number of the genesis block.
fn execution_payload() -> OpExecutionPayload {
    let v1 = ExecutionPayloadV1 {
        parent_hash: Default::default(),
        fee_recipient: Default::default(),
        state_root: Default::default(),
        receipts_root: Default::default(),
        logs_bloom: Default::default(),
        prev_randao: Default::default(),
        block_number: GENESIS_NUMBER,
        gas_limit: 30_000_000,
        gas_used: 0,
        timestamp: PAYLOAD_TIME,
        extra_data: Default::default(),
        base_fee_per_gas: Default::default(),
        block_hash: Default::default(),
        transactions: vec![],
    };
    OpExecutionPayload::V3(ExecutionPayloadV3 {
        payload_inner: ExecutionPayloadV2 { payload_inner: v1, withdrawals: vec![] },
        blob_gas_used: 0,
        excess_blob_gas: 0,
    })
}

fn beacon_root() -> Hash256 {
    hash(0xBB)
}

fn outside_envelope() -> OpExecutionPayloadEnvelope {
    OpExecutionPayloadEnvelope {
        parent_beacon_block_root: Some(beacon_root().0.into()),
        execution_payload: execution_payload(),
    }
}

/// The hash of the block in `execution_payload`, as the outside crate sees it:
/// a block that is not the genesis block and has no transactions is refused
/// with its hash.
fn payload_block_hash() -> Hash256 {
    let mut genesis = kona_genesis::ChainGenesis::default();
    genesis.l2.number = GENESIS_NUMBER + 1;
    let root = Some(beacon_root().0.into());
    match kona_protocol::L2BlockInfo::from_payload_and_genesis(execution_payload(), root, &genesis) {
        Err(kona_protocol::FromBlockError::MissingL1InfoDeposit(hash)) => Hash256(hash.0),
        other => panic!("the payload was not refused for its missing deposit: {:?}", other),
    }
}

fn l1_genesis() -> BlockNumHash {
    BlockNumHash { number: 3, hash: hash(0x11) }
}

/// A configuration whose genesis block is the block of `execution_payload`.
fn config(hardforks: HardForkConfig) -> RollupConfig {
    RollupConfig {
        genesis: ChainGenesis {
            l1: l1_genesis(),
            l2: BlockNumHash { number: GENESIS_NUMBER, hash: payload_block_hash() },
            l2_time: PAYLOAD_TIME,
        },
        hardforks,
    }
}

/// A configuration in which `execution_payload` holds no block of the chain.
fn foreign_config(hardforks: HardForkConfig) -> RollupConfig {
    RollupConfig {
        genesis: ChainGenesis {
            l1: l1_genesis(),
            l2: BlockNumHash { number: GENESIS_NUMBER, hash: hash(0xEE) },
            l2_time: PAYLOAD_TIME,
        },
        hardforks,
    }
}

fn built_block() -> L2BlockInfo {
    L2BlockInfo {
        block_info: BlockInfo {
            hash: payload_block_hash(),
            number: GENESIS_NUMBER,
            parent_hash: Hash256([0u8; 32]),
            timestamp: PAYLOAD_TIME,
        },
        l1_origin: l1_genesis(),
        seq_num: 0,
    }
}

fn deposit(tag: u8) -> Vec<u8> {
    vec![DEPOSIT_TX_TYPE, tag]
}

fn user_tx(tag: u8) -> Vec<u8> {
    vec![0x02, tag]
}

fn attributes(transactions: Option<Vec<Vec<u8>>>) -> OpAttributesWithParent {
    OpAttributesWithParent {
        inner: OpPayloadAttributes {
            payload_attributes: PayloadAttributes {
                timestamp: PAYLOAD_TIME,
                prev_randao: hash(0x33),
                suggested_fee_recipient: Address([0x44; 20]),
                withdrawals: Some(vec![]),
                parent_beacon_block_root: Some(beacon_root()),
            },
            transactions,
            no_tx_pool: Some(true),
            gas_limit: Some(30_000_000),
            eip_1559_params: None,
        },
        parent: block(6, 0x66),
        derived_from: None,
        is_last_in_span: false,
    }
}

fn mixed_attributes() -> OpAttributesWithParent {
    attributes(Some(vec![deposit(1), user_tx(2), deposit(3)]))
}

fn engine_state() -> EngineState {
    let mut state = EngineState::new(block(2, 0x22));
    state.set_unsafe_head(block(6, 0x66));
    state.set_cross_unsafe_head(block(5, 0x55));
    state.set_local_safe_head(block(4, 0x44));
    state.set_safe_head(block(3, 0x33));
    state
}

fn valid(payload_id: Option<PayloadId>) -> EngineEvent {
    EngineEvent::ForkchoiceUpdated(Ok(ForkchoiceUpdated {
        payload_status: PayloadStatus::Valid,
        payload_id,
    }))
}

fn invalid(reason: &str) -> PayloadStatus {
    PayloadStatus::Invalid { validation_error: reason.to_string() }
}

fn fetched() -> EngineEvent {
    EngineEvent::PayloadFetched(Ok(PayloadEnvelope::new(outside_envelope())))
}

fn failed(error: BuildTaskError) -> EngineAction {
    EngineAction::Finish(Err(EngineTaskError::Build(error)))
}

/// Runs the task up to the import of the payload, and checks each request
/// on the way.
fn run_to_import(task: &mut BuildTask, state: &mut EngineState) {
    assert!(task.is_awaiting(&EngineEvent::Start));
    let action = task.execute(state, EngineEvent::Start, 0);
    assert!(matches!(action, EngineAction::StartBuild { .. }));
    let action = task.execute(state, valid(Some(PayloadId(0xABCD))), 0);
    assert!(matches!(action, EngineAction::GetPayload { payload_id: PayloadId(0xABCD), .. }));
    let action = task.execute(state, fetched(), 0);
    assert_eq!(action, EngineAction::NewPayload { version: EngineNewPayloadVersion::V3 });
}

#[test]
fn happy_path_build_ecotone() {
    let mut state = engine_state();
    let before = state;
    let mut task = BuildTask::new(config(ecotone()), mixed_attributes(), true, true);

    let action = task.execute(&mut state, EngineEvent::Start, 0);
    assert_eq!(
        action,
        EngineAction::StartBuild {
            version: EngineForkchoiceVersion::V3,
            forkchoice: ForkchoiceState {
                head_block_hash: hash(0x66),
                safe_block_hash: hash(0x33),
                finalized_block_hash: hash(0x22),
            },
        }
    );
    assert_eq!(task.phase, BuildPhase::StartingBuild);

    let action = task.execute(&mut state, valid(Some(PayloadId(0xABCD))), 0);
    assert_eq!(
        action,
        EngineAction::GetPayload {
            version: EngineGetPayloadVersion::V3,
            payload_id: PayloadId(0xABCD),
        }
    );

    let action = task.execute(&mut state, fetched(), 0);
    assert_eq!(action, EngineAction::NewPayload { version: EngineNewPayloadVersion::V3 });
    assert_eq!(state, before);

    let action = task.execute(&mut state, EngineEvent::PayloadImported(Ok(PayloadStatus::Valid)), 0);
    let new = built_block();
    assert_eq!(state.unsafe_head(), new);
    assert_eq!(state.cross_unsafe_head(), new);
    assert_eq!(state.local_safe_head(), new);
    assert_eq!(state.safe_head(), new);
    assert_eq!(state.finalized_head(), before.finalized_head());
    assert_eq!(
        action,
        EngineAction::Canonicalize {
            forkchoice: ForkchoiceState {
                head_block_hash: new.block_info.hash,
                safe_block_hash: new.block_info.hash,
                finalized_block_hash: hash(0x22),
            },
        }
    );

    let action = task.execute(&mut state, valid(None), 0);
    assert_eq!(
        action,
        EngineAction::SendPayload { envelope: PayloadEnvelope::new(outside_envelope()) }
    );

    let action = task.execute(&mut state, EngineEvent::PayloadSent(true), 0);
    assert_eq!(action, EngineAction::Finish(Ok(())));
    assert_eq!(task.phase, BuildPhase::Finished);
    assert!(!task.is_reattempt);
}

#[test]
fn sequencer_build_moves_the_unsafe_heads_only() {
    let mut state = engine_state();
    let before = state;
    let mut task = BuildTask::new(config(ecotone()), mixed_attributes(), false, false);
    run_to_import(&mut task, &mut state);

    let action = task.execute(&mut state, EngineEvent::PayloadImported(Ok(PayloadStatus::Syncing)), 0);
    let new = built_block();
    assert_eq!(state.unsafe_head(), new);
    assert_eq!(state.cross_unsafe_head(), new);
    assert_eq!(state.local_safe_head(), before.local_safe_head());
    assert_eq!(state.safe_head(), before.safe_head());
    assert_eq!(state.finalized_head(), before.finalized_head());
    assert_eq!(
        action,
        EngineAction::Canonicalize {
            forkchoice: ForkchoiceState {
                head_block_hash: new.block_info.hash,
                safe_block_hash: hash(0x33),
                finalized_block_hash: hash(0x22),
            },
        }
    );

    // No channel takes the payload: the task ends once the block is canonical.
    let action = task.execute(&mut state, valid(None), 0);
    assert_eq!(action, EngineAction::Finish(Ok(())));
}

#[test]
fn el_syncing() {
    let mut state = engine_state();
    let before = state;
    let mut task = BuildTask::new(config(ecotone()), mixed_attributes(), true, true);
    task.execute(&mut state, EngineEvent::Start, 0);
    let action = task.execute(
        &mut state,
        EngineEvent::ForkchoiceUpdated(Ok(ForkchoiceUpdated {
            payload_status: PayloadStatus::Syncing,
            payload_id: None,
        })),
        0,
    );
    assert_eq!(action, failed(BuildTaskError::EngineSyncing));
    assert_eq!(state, before);
    assert_eq!(task.phase, BuildPhase::Finished);
}

#[test]
fn holocene_deposits_only_fallback() {
    let mut state = engine_state();
    let before = state;
    let mut task = BuildTask::new(config(holocene()), mixed_attributes(), true, true);
    run_to_import(&mut task, &mut state);

    // The payload is invalid: the task opens again with the deposits alone.
    let action = task.execute(&mut state, EngineEvent::PayloadImported(Ok(invalid("bad tx"))), 0);
    assert_eq!(
        action,
        EngineAction::StartBuild {
            version: EngineForkchoiceVersion::V3,
            forkchoice: ForkchoiceState {
                head_block_hash: hash(0x66),
                safe_block_hash: hash(0x33),
                finalized_block_hash: hash(0x22),
            },
        }
    );
    assert!(task.is_reattempt);
    assert_eq!(task.attributes, attributes(Some(vec![deposit(1), deposit(3)])));
    assert_eq!(state, before);

    let action = task.execute(&mut state, valid(Some(PayloadId(0xABCE))), 0);
    assert_eq!(
        action,
        EngineAction::GetPayload {
            version: EngineGetPayloadVersion::V3,
            payload_id: PayloadId(0xABCE),
        }
    );
    task.execute(&mut state, fetched(), 0);
    let action = task.execute(&mut state, EngineEvent::PayloadImported(Ok(PayloadStatus::Valid)), 0);
    assert!(matches!(action, EngineAction::Canonicalize { .. }));
    assert_eq!(state.unsafe_head(), built_block());
    assert_eq!(state.safe_head(), built_block());

    let action = task.execute(&mut state, valid(None), 0);
    assert!(matches!(action, EngineAction::SendPayload { .. }));
    let action = task.execute(&mut state, EngineEvent::PayloadSent(true), 0);
    assert_eq!(action, failed(BuildTaskError::HoloceneInvalidFlush));
}

#[test]
fn pre_holocene_invalid_payload() {
    let mut state = engine_state();
    let before = state;
    let mut task = BuildTask::new(config(ecotone()), mixed_attributes(), true, true);
    run_to_import(&mut task, &mut state);
    let action = task.execute(&mut state, EngineEvent::PayloadImported(Ok(invalid("bad tx"))), 0);
    assert_eq!(action, failed(BuildTaskError::NewPayloadFailed("bad tx".to_string())));
    assert_eq!(state, before);
    assert!(!task.is_reattempt);
}

#[test]
fn finalized_ahead_of_unsafe_stops_the_task_at_once() {
    let mut state = engine_state();
    state.set_finalized_head(block(9, 0x99));
    let before = state;
    let mut task = BuildTask::new(config(ecotone()), mixed_attributes(), true, true);
    let action = task.execute(&mut state, EngineEvent::Start, 0);
    assert_eq!(action, failed(BuildTaskError::FinalizedAheadOfUnsafe(6, 9)));
    assert_eq!(state, before);
    assert!(!task.is_awaiting(&EngineEvent::Start));
}

#[test]
fn equal_unsafe_and_finalized_heads_start_a_build() {
    let mut state = EngineState::new(block(6, 0x66));
    let mut task = BuildTask::new(config(no_forks()), mixed_attributes(), true, true);
    let action = task.execute(&mut state, EngineEvent::Start, 0);
    assert_eq!(
        action,
        EngineAction::StartBuild {
            version: EngineForkchoiceVersion::V1,
            forkchoice: ForkchoiceState {
                head_block_hash: hash(0x66),
                safe_block_hash: hash(0x66),
                finalized_block_hash: hash(0x66),
            },
        }
    );
}

#[test]
fn forkchoice_update_that_never_arrived() {
    let mut state = engine_state();
    let mut task = BuildTask::new(config(ecotone()), mixed_attributes(), true, true);
    task.execute(&mut state, EngineEvent::Start, 0);
    let action = task.execute(&mut state, EngineEvent::ForkchoiceUpdated(Err("timeout".to_string())), 0);
    assert_eq!(action, failed(BuildTaskError::ForkchoiceUpdateFailed("timeout".to_string())));
}

#[test]
fn start_build_reads_every_status() {
    let update = |payload_status, payload_id| Ok(ForkchoiceUpdated { payload_status, payload_id });
    assert_eq!(
        BuildTask::start_build(update(PayloadStatus::Valid, Some(PayloadId(5)))),
        Ok(PayloadId(5))
    );
    assert_eq!(
        BuildTask::start_build(update(PayloadStatus::Valid, None)),
        Err(BuildTaskError::MissingPayloadId)
    );
    assert_eq!(
        BuildTask::start_build(update(invalid("bad head"), Some(PayloadId(5)))),
        Err(BuildTaskError::ForkchoiceUpdateFailed("bad head".to_string()))
    );
    assert_eq!(
        BuildTask::start_build(update(PayloadStatus::Syncing, Some(PayloadId(5)))),
        Err(BuildTaskError::EngineSyncing)
    );
    assert_eq!(
        BuildTask::start_build(update(PayloadStatus::Accepted, Some(PayloadId(5)))),
        Err(BuildTaskError::UnexpectedPayloadStatus(PayloadStatus::Accepted))
    );
    assert_eq!(
        BuildTask::start_build(Err("refused".to_string())),
        Err(BuildTaskError::ForkchoiceUpdateFailed("refused".to_string()))
    );
}

#[test]
fn payload_that_could_not_be_fetched() {
    let mut state = engine_state();
    let before = state;
    let mut task = BuildTask::new(config(ecotone()), mixed_attributes(), true, true);
    task.execute(&mut state, EngineEvent::Start, 0);
    task.execute(&mut state, valid(Some(PayloadId(1))), 0);
    let action = task.execute(&mut state, EngineEvent::PayloadFetched(Err("unknown payload".to_string())), 0);
    assert_eq!(action, failed(BuildTaskError::GetPayloadFailed("unknown payload".to_string())));
    assert_eq!(state, before);
}

#[test]
fn import_that_never_arrived() {
    let mut state = engine_state();
    let mut task = BuildTask::new(config(holocene()), mixed_attributes(), true, true);
    run_to_import(&mut task, &mut state);
    let action = task.execute(&mut state, EngineEvent::PayloadImported(Err("timeout".to_string())), 0);
    assert_eq!(action, failed(BuildTaskError::NewPayloadFailed("timeout".to_string())));
}

#[test]
fn accepted_is_no_answer_to_an_import() {
    let mut state = engine_state();
    let before = state;
    let mut task = BuildTask::new(config(holocene()), mixed_attributes(), true, true);
    run_to_import(&mut task, &mut state);
    let action = task.execute(&mut state, EngineEvent::PayloadImported(Ok(PayloadStatus::Accepted)), 0);
    assert_eq!(action, failed(BuildTaskError::UnexpectedPayloadStatus(PayloadStatus::Accepted)));
    assert_eq!(state, before);
}

#[test]
fn invalid_payload_of_deposits_only_is_beyond_repair() {
    let mut state = engine_state();
    let before = state;
    let only_deposits = attributes(Some(vec![deposit(1), deposit(2)]));
    let mut task = BuildTask::new(config(holocene()), only_deposits, true, true);
    run_to_import(&mut task, &mut state);
    let action = task.execute(&mut state, EngineEvent::PayloadImported(Ok(invalid("bad deposit"))), 0);
    assert_eq!(action, failed(BuildTaskError::DepositOnlyPayloadFailed));
    assert_eq!(state, before);
}

#[test]
fn failure_of_the_second_attempt() {
    let mut state = engine_state();
    let before = state;
    let mut task = BuildTask::new(config(holocene()), mixed_attributes(), true, true);
    run_to_import(&mut task, &mut state);
    let action = task.execute(&mut state, EngineEvent::PayloadImported(Ok(invalid("bad tx"))), 0);
    assert!(matches!(action, EngineAction::StartBuild { .. }));
    // The second attempt meets a syncing engine.
    let action = task.execute(
        &mut state,
        EngineEvent::ForkchoiceUpdated(Ok(ForkchoiceUpdated {
            payload_status: PayloadStatus::Syncing,
            payload_id: None,
        })),
        0,
    );
    assert_eq!(action, failed(BuildTaskError::DepositOnlyPayloadReattemptFailed));
    assert_eq!(state, before);
}

#[test]
fn second_attempt_whose_payload_is_invalid_too() {
    let mut state = engine_state();
    let mut task = BuildTask::new(config(holocene()), mixed_attributes(), true, true);
    run_to_import(&mut task, &mut state);
    task.execute(&mut state, EngineEvent::PayloadImported(Ok(invalid("bad tx"))), 0);
    task.execute(&mut state, valid(Some(PayloadId(2))), 0);
    task.execute(&mut state, fetched(), 0);
    let action = task.execute(&mut state, EngineEvent::PayloadImported(Ok(invalid("bad deposit"))), 0);
    assert_eq!(action, failed(BuildTaskError::DepositOnlyPayloadReattemptFailed));
}

#[test]
fn payload_that_holds_no_block_of_the_chain() {
    let mut state = engine_state();
    let before = state;
    let mut task = BuildTask::new(foreign_config(ecotone()), mixed_attributes(), true, true);
    run_to_import(&mut task, &mut state);
    let action = task.execute(&mut state, EngineEvent::PayloadImported(Ok(PayloadStatus::Valid)), 0);
    assert_eq!(
        action,
        failed(BuildTaskError::FromBlock(kona_protocol::FromBlockError::InvalidGenesisHash))
    );
    assert_eq!(state, before);
}

#[test]
fn block_that_could_not_be_made_canonical() {
    let mut state = engine_state();
    let mut task = BuildTask::new(config(ecotone()), mixed_attributes(), true, true);
    run_to_import(&mut task, &mut state);
    task.execute(&mut state, EngineEvent::PayloadImported(Ok(PayloadStatus::Valid)), 0);
    let imported = state;
    let action = task.execute(
        &mut state,
        EngineEvent::ForkchoiceUpdated(Ok(ForkchoiceUpdated {
            payload_status: invalid("unknown head"),
            payload_id: None,
        })),
        0,
    );
    assert_eq!(
        action,
        EngineAction::Finish(Err(EngineTaskError::Forkchoice(
            ForkchoiceTaskError::ForkchoiceUpdateFailed("unknown head".to_string())
        )))
    );
    // The heads stay where the import put them.
    assert_eq!(state, imported);
    assert_eq!(state.unsafe_head(), built_block());
}

#[test]
fn closed_payload_channel() {
    let mut state = engine_state();
    let mut task = BuildTask::new(config(ecotone()), mixed_attributes(), true, true);
    run_to_import(&mut task, &mut state);
    task.execute(&mut state, EngineEvent::PayloadImported(Ok(PayloadStatus::Valid)), 0);
    task.execute(&mut state, valid(None), 0);
    let action = task.execute(&mut state, EngineEvent::PayloadSent(false), 0);
    assert_eq!(action, failed(BuildTaskError::MpscSend));
}

#[test]
fn import_verdict_for_every_answer() {
    let mixed = BuildTask::new(config(holocene()), mixed_attributes(), true, true);
    let early = BuildTask::new(config(ecotone()), mixed_attributes(), true, true);
    let none = BuildTask::new(config(ecotone()), attributes(None), true, true);
    assert_eq!(mixed.import_verdict(Ok(PayloadStatus::Valid)), ImportVerdict::Imported);
    assert_eq!(mixed.import_verdict(Ok(PayloadStatus::Syncing)), ImportVerdict::Imported);
    assert_eq!(mixed.import_verdict(Ok(invalid("x"))), ImportVerdict::Reattempt);
    assert_eq!(
        early.import_verdict(Ok(invalid("x"))),
        ImportVerdict::Failed(BuildTaskError::NewPayloadFailed("x".to_string()))
    );
    assert_eq!(
        none.import_verdict(Ok(invalid("x"))),
        ImportVerdict::Failed(BuildTaskError::DepositOnlyPayloadFailed)
    );
    assert_eq!(
        mixed.import_verdict(Err("lost".to_string())),
        ImportVerdict::Failed(BuildTaskError::NewPayloadFailed("lost".to_string()))
    );
}

#[test]
fn task_waits_for_the_answer_to_its_last_request() {
    let mut state = engine_state();
    let mut task = BuildTask::new(config(ecotone()), mixed_attributes(), true, true);
    assert!(task.is_awaiting(&EngineEvent::Start));
    assert!(!task.is_awaiting(&valid(None)));
    task.execute(&mut state, EngineEvent::Start, 0);
    assert!(task.is_awaiting(&valid(None)));
    assert!(!task.is_awaiting(&fetched()));
    assert!(!task.is_awaiting(&EngineEvent::PayloadSent(true)));
    task.execute(&mut state, valid(Some(PayloadId(1))), 0);
    assert!(task.is_awaiting(&fetched()));
    assert!(!task.is_awaiting(&EngineEvent::PayloadImported(Ok(PayloadStatus::Valid))));
}

#[test]
fn payload_of_each_version_is_imported_by_its_own_method() {
    let envelope = PayloadEnvelope::new(outside_envelope());
    assert_eq!(envelope.version, EngineNewPayloadVersion::V3);
    assert_eq!(envelope.envelope, outside_envelope());
    let v1 = match execution_payload() {
        OpExecutionPayload::V3(v3) => v3.payload_inner.payload_inner,
        _ => unreachable!(),
    };
    let envelope = PayloadEnvelope::new(OpExecutionPayloadEnvelope {
        parent_beacon_block_root: None,
        execution_payload: OpExecutionPayload::V1(v1.clone()),
    });
    assert_eq!(envelope.version, EngineNewPayloadVersion::V1);
    let envelope = PayloadEnvelope::new(OpExecutionPayloadEnvelope {
        parent_beacon_block_root: None,
        execution_payload: OpExecutionPayload::V2(ExecutionPayloadV2 {
            payload_inner: v1,
            withdrawals: vec![],
        }),
    });
    assert_eq!(envelope.version, EngineNewPayloadVersion::V2);
}

#[test]
fn block_of_a_payload_is_read_against_the_genesis() {
    let envelope = PayloadEnvelope::new(outside_envelope());
    let cfg = config(ecotone());
    assert_eq!(envelope.block_info(Some(beacon_root()), &cfg.genesis), Ok(built_block()));
    // Another parent beacon block root makes another block.
    assert_eq!(
        envelope.block_info(Some(hash(0xBC)), &cfg.genesis),
        Err(kona_protocol::FromBlockError::InvalidGenesisHash)
    );
    // A block that is not the genesis block must begin with a deposit.
    let mut later = cfg.genesis;
    later.l2.number = GENESIS_NUMBER + 1;
    assert!(matches!(
        envelope.block_info(Some(beacon_root()), &later),
        Err(kona_protocol::FromBlockError::MissingL1InfoDeposit(_))
    ));
}

#[test]
fn timings_follow_the_clock() {
    let mut state = engine_state();
    let mut task = BuildTask::new(config(ecotone()), mixed_attributes(), true, false);
    assert_eq!(task.timings, BuildTimings::new());
    task.execute(&mut state, EngineEvent::Start, 100);
    assert_eq!(
        task.timings,
        BuildTimings { requested_at: 100, fcu_duration: None, block_import_duration: None }
    );
    task.execute(&mut state, valid(Some(PayloadId(1))), 130);
    assert_eq!(
        task.timings,
        BuildTimings { requested_at: 130, fcu_duration: Some(30), block_import_duration: None }
    );
    task.execute(&mut state, fetched(), 150);
    assert_eq!(
        task.timings,
        BuildTimings { requested_at: 130, fcu_duration: Some(30), block_import_duration: None }
    );
    task.execute(&mut state, EngineEvent::PayloadImported(Ok(PayloadStatus::Valid)), 200);
    assert_eq!(
        task.timings,
        BuildTimings { requested_at: 200, fcu_duration: Some(30), block_import_duration: Some(70) }
    );
    task.execute(&mut state, valid(None), 260);
    assert_eq!(
        task.timings,
        BuildTimings { requested_at: 200, fcu_duration: Some(30), block_import_duration: Some(70) }
    );
}

#[test]
fn clock_that_went_back_measures_nothing() {
    let mut state = engine_state();
    let mut task = BuildTask::new(config(ecotone()), mixed_attributes(), true, false);
    task.execute(&mut state, EngineEvent::Start, 100);
    task.execute(&mut state, valid(Some(PayloadId(1))), 90);
    assert_eq!(task.timings.fcu_duration, Some(0));
}

#[test]
fn second_attempt_starts_the_clock_anew() {
    let mut state = engine_state();
    let mut task = BuildTask::new(config(holocene()), mixed_attributes(), true, false);
    task.execute(&mut state, EngineEvent::Start, 10);
    task.execute(&mut state, valid(Some(PayloadId(1))), 20);
    task.execute(&mut state, fetched(), 30);
    task.execute(&mut state, EngineEvent::PayloadImported(Ok(invalid("bad tx"))), 40);
    assert_eq!(
        task.timings,
        BuildTimings { requested_at: 40, fcu_duration: None, block_import_duration: None }
    );
}

#[test]
fn commit_moves_the_heads_to_the_block_it_is_given() {
    let mut state = engine_state();
    let before = state;
    let mut task = BuildTask::new(config(ecotone()), mixed_attributes(), false, true);
    let envelope = PayloadEnvelope::new(outside_envelope());
    let action = task.commit(&mut state, envelope, Ok(block(8, 0x88)));
    assert_eq!(state.unsafe_head(), block(8, 0x88));
    assert_eq!(state.cross_unsafe_head(), block(8, 0x88));
    assert_eq!(state.local_safe_head(), before.local_safe_head());
    assert_eq!(state.safe_head(), before.safe_head());
    assert_eq!(state.finalized_head(), before.finalized_head());
    assert_eq!(
        action,
        EngineAction::Canonicalize {
            forkchoice: ForkchoiceState {
                head_block_hash: hash(0x88),
                safe_block_hash: hash(0x33),
                finalized_block_hash: hash(0x22),
            },
        }
    );
    assert_eq!(
        task.phase,
        BuildPhase::Canonicalizing {
            envelope: PayloadEnvelope::new(outside_envelope()),
            block: block(8, 0x88),
        }
    );
}

#[test]
fn commit_of_a_payload_without_a_block_fails_the_task() {
    let mut state = engine_state();
    let before = state;
    let mut task = BuildTask::new(config(ecotone()), mixed_attributes(), true, true);
    let envelope = PayloadEnvelope::new(outside_envelope());
    let reason = || kona_protocol::FromBlockError::InvalidGenesisHash;
    let action = task.commit(&mut state, envelope, Err(reason()));
    assert_eq!(action, failed(BuildTaskError::FromBlock(reason())));
    assert_eq!(state, before);
    assert_eq!(task.phase, BuildPhase::Finished);
}

#[test]
fn import_hands_back_the_payload_and_its_block_and_leaves_the_heads() {
    let mut state = engine_state();
    let before = state;
    for status in [PayloadStatus::Valid, PayloadStatus::Syncing] {
        let mut task = BuildTask::new(config(holocene()), mixed_attributes(), true, true);
        let envelope = PayloadEnvelope::new(outside_envelope());
        let outcome = task.fetch_and_import_payload(&mut state, envelope, Ok(status));
        assert_eq!(outcome, Ok((PayloadEnvelope::new(outside_envelope()), built_block())));
        assert_eq!(state, before);
        assert_eq!(task, BuildTask::new(config(holocene()), mixed_attributes(), true, true));
    }
}

#[test]
fn import_of_a_payload_without_a_block_fails_and_leaves_the_heads() {
    let mut state = engine_state();
    let before = state;
    let mut task = BuildTask::new(foreign_config(holocene()), mixed_attributes(), true, true);
    let envelope = PayloadEnvelope::new(outside_envelope());
    let outcome = task.fetch_and_import_payload(&mut state, envelope, Ok(PayloadStatus::Valid));
    assert_eq!(
        outcome,
        Err(failed(BuildTaskError::FromBlock(kona_protocol::FromBlockError::InvalidGenesisHash)))
    );
    assert_eq!(state, before);
    assert_eq!(task.phase, BuildPhase::Finished);
}

#[test]
fn invalid_import_opens_the_second_attempt_and_leaves_the_heads() {
    let mut state = engine_state();
    let before = state;
    let mut task = BuildTask::new(config(holocene()), mixed_attributes(), true, true);
    let envelope = PayloadEnvelope::new(outside_envelope());
    let outcome = task.fetch_and_import_payload(&mut state, envelope, Ok(invalid("bad tx")));
    assert!(matches!(outcome, Err(EngineAction::StartBuild { .. })));
    assert_eq!(state, before);
    assert!(task.is_reattempt);
    assert_eq!(task.phase, BuildPhase::StartingBuild);
    assert_eq!(task.attributes, attributes(Some(vec![deposit(1), deposit(3)])));

    let mut early = BuildTask::new(config(ecotone()), mixed_attributes(), true, true);
    let envelope = PayloadEnvelope::new(outside_envelope());
    let outcome = early.fetch_and_import_payload(&mut state, envelope, Ok(invalid("bad tx")));
    assert_eq!(outcome, Err(failed(BuildTaskError::NewPayloadFailed("bad tx".to_string()))));
    assert_eq!(state, before);
}

#[test]
fn flush_is_signalled_for_the_signal_to_flush_alone() {
    let flush = Err(EngineTaskError::Build(BuildTaskError::HoloceneInvalidFlush));
    assert_eq!(BuildTask::upstream_signal(&flush), Some(Signal::FlushChannel));
    assert_eq!(BuildTask::upstream_signal(&Ok(())), None);
    for error in [
        BuildTaskError::DepositOnlyPayloadReattemptFailed,
        BuildTaskError::DepositOnlyPayloadFailed,
        BuildTaskError::EngineSyncing,
        BuildTaskError::NewPayloadFailed("bad tx".to_string()),
        BuildTaskError::MpscSend,
    ] {
        assert_eq!(BuildTask::upstream_signal(&Err(EngineTaskError::Build(error))), None);
    }
    assert_eq!(
        BuildTask::upstream_signal(&Err(EngineTaskError::Forkchoice(
            ForkchoiceTaskError::EngineSyncing
        ))),
        None
    );
}

#[test]
fn payload_under_another_version_is_out_of_order() {
    let own = PayloadEnvelope::new(outside_envelope());
    assert!(own.is_wf());
    let other =
        PayloadEnvelope { version: EngineNewPayloadVersion::V4, envelope: outside_envelope() };
    assert!(!other.is_wf());
    assert!(EngineEvent::PayloadFetched(Ok(own)).is_wf());
    assert!(!EngineEvent::PayloadFetched(Ok(other)).is_wf());
    assert!(EngineEvent::PayloadFetched(Err("lost".to_string())).is_wf());
    assert!(EngineEvent::Start.is_wf());
}

#[test]
fn task_stays_in_order_through_a_run() {
    let mut state = engine_state();
    let mut task = BuildTask::new(config(holocene()), mixed_attributes(), true, true);
    assert!(task.is_wf());
    run_to_import(&mut task, &mut state);
    assert!(task.is_wf());
    task.execute(&mut state, EngineEvent::PayloadImported(Ok(invalid("bad tx"))), 0);
    assert!(task.is_wf());
    // A second attempt that holds more than deposits is out of order.
    task.attributes = mixed_attributes();
    assert!(!task.is_wf());
}
