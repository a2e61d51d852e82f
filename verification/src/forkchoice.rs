//! The forkchoice task: one forkchoice update without attributes, which makes
//! the heads of the engine state canonical.

use vstd::prelude::*;
use crate::engine_api::{ForkchoiceUpdated, PayloadStatus};
use crate::engine_state::{EngineState, ForkchoiceState};

verus! {

/// Why a forkchoice task failed.
#[derive(Debug, PartialEq, Eq)]
pub enum ForkchoiceTaskError {
    /// The update did not reach the engine, or the engine found the
    /// forkchoice invalid. The reason is the engine's or the transport's.
    ForkchoiceUpdateFailed(String),
    /// The engine is syncing. The update may be tried again later.
    EngineSyncing,
    /// The engine answered with a status that no forkchoice update has.
    UnexpectedPayloadStatus(PayloadStatus),
}

/// What the engine, or the transport to it, answered to a forkchoice update.
pub type ForkchoiceResponse = Result<ForkchoiceUpdated, String>;

/// The task that makes a freshly imported block canonical.
#[derive(Clone, Copy, Debug, PartialEq, Eq)]
pub struct ForkchoiceTask {}

impl ForkchoiceTask {
    /// The outcome of the task for an answer of the engine: a valid
    /// forkchoice is success, a syncing engine a failure that passes, and
    /// everything else a failure of this attempt.
    pub open spec fn outcome(response: ForkchoiceResponse) -> Result<(), ForkchoiceTaskError> {
        match response {
            Err(reason) => Err(ForkchoiceTaskError::ForkchoiceUpdateFailed(reason)),
            Ok(update) => match update.payload_status {
                PayloadStatus::Valid => Ok(()),
                PayloadStatus::Invalid { validation_error } => Err(
                    ForkchoiceTaskError::ForkchoiceUpdateFailed(validation_error),
                ),
                PayloadStatus::Syncing => Err(ForkchoiceTaskError::EngineSyncing),
                PayloadStatus::Accepted => Err(
                    ForkchoiceTaskError::UnexpectedPayloadStatus(PayloadStatus::Accepted),
                ),
            },
        }
    }

    /// One run of the task from `state` with the engine answering `response`:
    /// the state after it, the forkchoice it sent, and its outcome.
    pub open spec fn run(state: EngineState, response: ForkchoiceResponse) -> (
        EngineState,
        ForkchoiceState,
        Result<(), ForkchoiceTaskError>,
    ) {
        (state, state.forkchoice(), Self::outcome(response))
    }

    /// A forkchoice task.
    pub fn new() -> (task: ForkchoiceTask) {
        ForkchoiceTask {  }
    }

    /// The forkchoice to send: that of the heads as they stand.
    pub fn request(&self, state: &EngineState) -> (forkchoice: ForkchoiceState)
        ensures
            forkchoice == state.forkchoice(),
    {
        state.create_forkchoice_state()
    }

    /// Ends the task with the engine's answer.
    pub fn complete(&self, response: ForkchoiceResponse) -> (outcome: Result<(), ForkchoiceTaskError>)
        ensures
            outcome == Self::outcome(response),
    {
        match response {
            Err(reason) => Err(ForkchoiceTaskError::ForkchoiceUpdateFailed(reason)),
            Ok(update) => match update.payload_status {
                PayloadStatus::Valid => Ok(()),
                PayloadStatus::Invalid { validation_error } => Err(
                    ForkchoiceTaskError::ForkchoiceUpdateFailed(validation_error),
                ),
                PayloadStatus::Syncing => Err(ForkchoiceTaskError::EngineSyncing),
                PayloadStatus::Accepted => Err(
                    ForkchoiceTaskError::UnexpectedPayloadStatus(PayloadStatus::Accepted),
                ),
            },
        }
    }

    /// Running the task a second time, from the state the first run left and
    /// with the same answer of the engine, sends the same forkchoice, leaves
    /// the same state and has the same outcome as the first run.
    pub proof fn lemma_run_is_idempotent(state: EngineState, response: ForkchoiceResponse)
        ensures
            Self::run(Self::run(state, response).0, response) == Self::run(state, response),
            Self::run(state, response).0 == state,
    {
    }
}

} // verus!
