use rollup_node::engine_api::{ForkchoiceUpdated, PayloadStatus};
use rollup_node::engine_state::{EngineState, ForkchoiceState};
use rollup_node::forkchoice::{ForkchoiceTask, ForkchoiceTaskError};
use rollup_node::primitives::{BlockInfo, BlockNumHash, Hash256, L2BlockInfo, PayloadId};

fn block(number: u64, byte: u8) -> L2BlockInfo {
    L2BlockInfo {
        block_info: BlockInfo {
            hash: Hash256([byte; 32]),
            number,
            parent_hash: Hash256([byte.wrapping_sub(1); 32]),
            timestamp: 2 * number,
        },
        l1_origin: BlockNumHash { number: 1, hash: Hash256([0xA1; 32]) },
        seq_num: 0,
    }
}

fn state() -> EngineState {
    let mut state = EngineState::new(block(1, 0x01));
    state.set_unsafe_head(block(5, 0x05));
    state.set_safe_head(block(2, 0x02));
    state
}

fn answer(payload_status: PayloadStatus) -> Result<ForkchoiceUpdated, String> {
    Ok(ForkchoiceUpdated { payload_status, payload_id: None })
}

#[test]
fn task_sends_the_heads_as_they_stand() {
    assert_eq!(
        ForkchoiceTask::new().request(&state()),
        ForkchoiceState {
            head_block_hash: Hash256([0x05; 32]),
            safe_block_hash: Hash256([0x02; 32]),
            finalized_block_hash: Hash256([0x01; 32]),
        }
    );
}

#[test]
fn valid_forkchoice_is_success() {
    assert_eq!(ForkchoiceTask::new().complete(answer(PayloadStatus::Valid)), Ok(()));
    // A valid forkchoice needs no build.
    let with_id = Ok(ForkchoiceUpdated {
        payload_status: PayloadStatus::Valid,
        payload_id: Some(PayloadId(1)),
    });
    assert_eq!(ForkchoiceTask::new().complete(with_id), Ok(()));
}

#[test]
fn syncing_engine_fails_the_task_for_now() {
    assert_eq!(
        ForkchoiceTask::new().complete(answer(PayloadStatus::Syncing)),
        Err(ForkchoiceTaskError::EngineSyncing)
    );
}

#[test]
fn invalid_forkchoice_fails_the_task() {
    let invalid = PayloadStatus::Invalid { validation_error: "unknown head".to_string() };
    assert_eq!(
        ForkchoiceTask::new().complete(answer(invalid)),
        Err(ForkchoiceTaskError::ForkchoiceUpdateFailed("unknown head".to_string()))
    );
}

#[test]
fn accepted_is_no_answer_to_a_forkchoice_update() {
    assert_eq!(
        ForkchoiceTask::new().complete(answer(PayloadStatus::Accepted)),
        Err(ForkchoiceTaskError::UnexpectedPayloadStatus(PayloadStatus::Accepted))
    );
}

#[test]
fn update_that_never_arrived_fails_the_task() {
    assert_eq!(
        ForkchoiceTask::new().complete(Err("connection reset".to_string())),
        Err(ForkchoiceTaskError::ForkchoiceUpdateFailed("connection reset".to_string()))
    );
}

#[test]
fn second_run_is_the_first_run_again() {
    let state = state();
    let task = ForkchoiceTask::new();
    let first = (task.request(&state), task.complete(answer(PayloadStatus::Valid)));
    let second = (task.request(&state), task.complete(answer(PayloadStatus::Valid)));
    assert_eq!(first, second);
    assert_eq!(state, self::state());
}
