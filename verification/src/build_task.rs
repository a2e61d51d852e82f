//! The build task: it has the engine build the block that payload attributes
//! describe, imports the block and makes it canonical.
//!
//! The task never talks to the engine itself. It is a machine that is handed
//! what happened ([`EngineEvent`]) and answers with what is to be done next
//! ([`EngineAction`]); whoever runs it performs the action and comes back with
//! the event that the action led to.

use vstd::prelude::*;
use crate::attributes::{lemma_as_deposits_only_is_idempotent, OpAttributesWithParent};
use crate::config::RollupConfig;
use crate::derivation::Signal;
use crate::engine_api::{block_of_payload, payload_version_of, PayloadEnvelope, PayloadStatus};
use crate::engine_state::{EngineState, ForkchoiceState};
use crate::forkchoice::{ForkchoiceResponse, ForkchoiceTask, ForkchoiceTaskError};
use crate::primitives::{L2BlockInfo, PayloadId};
use crate::versions::{EngineForkchoiceVersion, EngineGetPayloadVersion, EngineNewPayloadVersion};
use kona_protocol::FromBlockError;

verus! {

/// Why a build task failed.
#[derive(Debug, PartialEq)]
pub enum BuildTaskError {
    /// The finalized head is ahead of the unsafe head; the numbers are those
    /// of the unsafe and of the finalized head.
    FinalizedAheadOfUnsafe(u64, u64),
    /// The forkchoice update that starts the build did not reach the engine,
    /// or the engine found it invalid.
    ForkchoiceUpdateFailed(String),
    /// The engine is syncing. The attributes may be tried again later.
    EngineSyncing,
    /// The engine found the forkchoice valid and started no build.
    MissingPayloadId,
    /// The engine answered with a status that the request cannot have.
    UnexpectedPayloadStatus(PayloadStatus),
    /// The payload could not be fetched.
    GetPayloadFailed(String),
    /// The payload did not reach the engine, or the engine found it invalid.
    NewPayloadFailed(String),
    /// The engine found a payload invalid that holds deposits only.
    DepositOnlyPayloadFailed,
    /// The second attempt, with deposits only, failed.
    DepositOnlyPayloadReattemptFailed,
    /// The payload was invalid and the block of its deposits was imported in
    /// its place: what derivation has buffered must be flushed.
    HoloceneInvalidFlush,
    /// The payload that the engine built holds no L2 block of this chain.
    FromBlock(FromBlockError),
    /// The channel that takes the built payloads is closed.
    MpscSend,
}

/// Why a task on the engine failed.
#[derive(Debug, PartialEq)]
pub enum EngineTaskError {
    /// The build failed.
    Build(BuildTaskError),
    /// The block was imported and could not be made canonical.
    Forkchoice(ForkchoiceTaskError),
}

/// What happened since the build task last answered.
#[derive(Debug, PartialEq)]
pub enum EngineEvent {
    /// Nothing yet: the task is to begin.
    Start,
    /// The engine answered a forkchoice update, or the update failed.
    ForkchoiceUpdated(ForkchoiceResponse),
    /// The engine handed out the payload it built, or the fetch failed.
    PayloadFetched(Result<PayloadEnvelope, String>),
    /// The engine answered the import of the payload, or the import failed.
    PayloadImported(Result<PayloadStatus, String>),
    /// The payload was handed to the channel (`true`), or the channel is
    /// closed (`false`).
    PayloadSent(bool),
}

impl EngineEvent {
    /// The event is in order: a payload that was fetched has its own
    /// version.
    pub open spec fn wf(&self) -> bool {
        self matches EngineEvent::PayloadFetched(Ok(envelope)) ==> envelope.wf()
    }

    /// Tells whether the event is in order.
    pub fn is_wf(&self) -> (ok: bool)
        ensures
            ok == self.wf(),
    {
        match self {
            EngineEvent::PayloadFetched(Ok(envelope)) => envelope.is_wf(),
            _ => true,
        }
    }
}

/// What is to be done next for the build task.
#[derive(Debug, PartialEq)]
#[allow(inconsistent_fields)]
pub enum EngineAction {
    /// Send a forkchoice update of this version, with this forkchoice and the
    /// attributes of the task.
    StartBuild { version: EngineForkchoiceVersion, forkchoice: ForkchoiceState },
    /// Fetch the payload of this build with the method of this version.
    GetPayload { version: EngineGetPayloadVersion, payload_id: PayloadId },
    /// Import the payload that was fetched with the method of this version.
    NewPayload { version: EngineNewPayloadVersion },
    /// Send a forkchoice update without attributes, with this forkchoice.
    Canonicalize { forkchoice: ForkchoiceState },
    /// Hand this payload to the channel that takes the built payloads.
    SendPayload { envelope: PayloadEnvelope },
    /// Nothing more: the task has ended, with this outcome.
    Finish(Result<(), EngineTaskError>),
}

/// How far a build task has come.
#[derive(Debug, PartialEq)]
pub enum BuildPhase {
    /// The task has not begun.
    Ready,
    /// The forkchoice update with the attributes is under way.
    StartingBuild,
    /// The fetch of the payload is under way.
    FetchingPayload,
    /// The import of this payload is under way.
    ImportingPayload { envelope: PayloadEnvelope },
    /// This block was imported, and the forkchoice update that makes it
    /// canonical is under way.
    Canonicalizing { envelope: PayloadEnvelope, block: L2BlockInfo },
    /// The payload is on its way to the channel.
    SendingPayload,
    /// The task has ended.
    Finished,
}

/// What the answer to the import of a payload means for the task.
#[derive(Debug, PartialEq)]
pub enum ImportVerdict {
    /// The block counts as imported.
    Imported,
    /// The payload is invalid, and the build is tried once more with the
    /// deposits alone.
    Reattempt,
    /// The import failed.
    Failed(BuildTaskError),
}

/// How long the engine took over the two parts of a build, by a clock that
/// whoever runs the task reads at each step. The unit is that of the clock.
#[derive(Clone, Copy, Debug, PartialEq, Eq)]
pub struct BuildTimings {
    /// The reading of the clock at the request whose answer is awaited.
    pub requested_at: u64,
    /// How long the forkchoice update that started the build took.
    pub fcu_duration: Option<u64>,
    /// How long the fetch and the import of the payload took together.
    pub block_import_duration: Option<u64>,
}

impl BuildTimings {
    /// The time from the reading `from` to the reading `to`, and none where
    /// the clock went back.
    pub open spec fn elapsed(from: u64, to: u64) -> u64 {
        if to >= from {
            (to - from) as u64
        } else {
            0
        }
    }

    /// The timings once a step at the reading `now` has led to `phase`. An
    /// attempt that opens starts the clock anew. The fetch is asked for when
    /// the forkchoice update is answered, which gives the duration of the
    /// update and starts the clock of the import; the block counts as
    /// imported when the import is answered, which gives the duration of
    /// fetch and import together. Any other step leaves the timings.
    pub open spec fn after(&self, phase: BuildPhase, now: u64) -> BuildTimings {
        match phase {
            BuildPhase::StartingBuild => BuildTimings {
                requested_at: now,
                fcu_duration: None,
                block_import_duration: None,
            },
            BuildPhase::FetchingPayload => BuildTimings {
                requested_at: now,
                fcu_duration: Some(Self::elapsed(self.requested_at, now)),
                block_import_duration: self.block_import_duration,
            },
            BuildPhase::Canonicalizing { .. } => BuildTimings {
                requested_at: now,
                fcu_duration: self.fcu_duration,
                block_import_duration: Some(Self::elapsed(self.requested_at, now)),
            },
            _ => *self,
        }
    }

    /// Timings with nothing measured yet.
    pub fn new() -> (timings: BuildTimings)
        ensures
            timings == (BuildTimings {
                requested_at: 0,
                fcu_duration: None,
                block_import_duration: None,
            }),
    {
        BuildTimings { requested_at: 0, fcu_duration: None, block_import_duration: None }
    }

    /// Records that a step at the reading `now` has led to `phase`.
    pub fn record(&mut self, phase: &BuildPhase, now: u64)
        ensures
            *final(self) == old(self).after(*phase, now),
    {
        let elapsed: u64 = if now >= self.requested_at {
            now - self.requested_at
        } else {
            0
        };
        match phase {
            BuildPhase::StartingBuild => {
                self.requested_at = now;
                self.fcu_duration = None;
                self.block_import_duration = None;
            },
            BuildPhase::FetchingPayload => {
                self.requested_at = now;
                self.fcu_duration = Some(elapsed);
            },
            BuildPhase::Canonicalizing { .. } => {
                self.requested_at = now;
                self.block_import_duration = Some(elapsed);
            },
            _ => {},
        }
    }
}

/// A task that builds one block and imports it.
#[derive(Debug, PartialEq)]
pub struct BuildTask {
    /// The configuration of the rollup.
    pub cfg: RollupConfig,
    /// The attributes of the block to build.
    pub attributes: OpAttributesWithParent,
    /// Whether the attributes were derived from L1, or made by a sequencer.
    pub is_attributes_derived: bool,
    /// Whether a channel takes the payload once it is built and canonical.
    pub sends_payload: bool,
    /// How far the task has come.
    pub phase: BuildPhase,
    /// Whether this is the second attempt, with deposits only.
    pub is_reattempt: bool,
    /// How long the engine took, as far as that is known.
    pub timings: BuildTimings,
}

impl BuildTask {
    /// The task is in order: a second attempt holds deposits only, and a
    /// payload that the task holds has its own version.
    pub open spec fn wf(&self) -> bool {
        &&& self.is_reattempt ==> self.attributes@.is_deposits_only()
        &&& match self.phase {
            BuildPhase::ImportingPayload { envelope } => envelope.wf(),
            BuildPhase::Canonicalizing { envelope, .. } => envelope.wf(),
            _ => true,
        }
    }

    /// `event` is what the task waits for.
    pub open spec fn awaits(&self, event: EngineEvent) -> bool {
        match (self.phase, event) {
            (BuildPhase::Ready, EngineEvent::Start) => true,
            (BuildPhase::StartingBuild, EngineEvent::ForkchoiceUpdated(_)) => true,
            (BuildPhase::FetchingPayload, EngineEvent::PayloadFetched(_)) => true,
            (BuildPhase::ImportingPayload { .. }, EngineEvent::PayloadImported(_)) => true,
            (BuildPhase::Canonicalizing { .. }, EngineEvent::ForkchoiceUpdated(_)) => true,
            (BuildPhase::SendingPayload, EngineEvent::PayloadSent(_)) => true,
            _ => false,
        }
    }

    /// The error that the task ends with where `error` stops it: `error`
    /// itself, or, in the second attempt, that the second attempt failed.
    pub open spec fn failure(&self, error: EngineTaskError) -> EngineTaskError {
        if self.is_reattempt {
            EngineTaskError::Build(BuildTaskError::DepositOnlyPayloadReattemptFailed)
        } else {
            error
        }
    }

    /// The outcome of a task that ran to its end: success, or, after a second
    /// attempt, the signal to flush.
    pub open spec fn completion(&self) -> Result<(), EngineTaskError> {
        if self.is_reattempt {
            Err(EngineTaskError::Build(BuildTaskError::HoloceneInvalidFlush))
        } else {
            Ok(())
        }
    }

    /// The forkchoice that starts the build: that of `state`, with the parent
    /// of the attributes as its head.
    pub open spec fn build_forkchoice(&self, state: EngineState) -> ForkchoiceState {
        ForkchoiceState { head_block_hash: self.attributes@.parent.block_info.hash, ..state.forkchoice() }
    }

    /// How an attempt opens from `state`: with the end of the task, where the
    /// finalized head is ahead of the unsafe head, and else with the
    /// forkchoice update that starts the build.
    pub open spec fn opening(&self, state: EngineState) -> (BuildPhase, EngineAction) {
        if state.finalized_ahead_of_unsafe() {
            (
                BuildPhase::Finished,
                EngineAction::Finish(
                    Err(
                        self.failure(
                            EngineTaskError::Build(
                                BuildTaskError::FinalizedAheadOfUnsafe(
                                    state.unsafe_head.block_info.number,
                                    state.finalized_head.block_info.number,
                                ),
                            ),
                        ),
                    ),
                ),
            )
        } else {
            (
                BuildPhase::StartingBuild,
                EngineAction::StartBuild {
                    version: EngineForkchoiceVersion::select(self.cfg.hardforks, self.attributes@.timestamp),
                    forkchoice: self.build_forkchoice(state),
                },
            )
        }
    }

    /// What the answer to the forkchoice update with attributes yields: the
    /// build that a valid forkchoice started, or the reason why none is there.
    pub open spec fn build_started(response: ForkchoiceResponse) -> Result<PayloadId, BuildTaskError> {
        match response {
            Err(reason) => Err(BuildTaskError::ForkchoiceUpdateFailed(reason)),
            Ok(update) => match update.payload_status {
                PayloadStatus::Valid => match update.payload_id {
                    Some(payload_id) => Ok(payload_id),
                    None => Err(BuildTaskError::MissingPayloadId),
                },
                PayloadStatus::Invalid { validation_error } => Err(
                    BuildTaskError::ForkchoiceUpdateFailed(validation_error),
                ),
                PayloadStatus::Syncing => Err(BuildTaskError::EngineSyncing),
                PayloadStatus::Accepted => Err(
                    BuildTaskError::UnexpectedPayloadStatus(PayloadStatus::Accepted),
                ),
            },
        }
    }

    /// What the answer to the import means. A valid payload is imported, and
    /// so is one that a syncing engine took. An invalid payload of deposits
    /// only is beyond repair; another one is tried again with its deposits
    /// alone from Holocene on, and fails the task before.
    pub open spec fn import_verdict_of(&self, imported: Result<PayloadStatus, String>) -> ImportVerdict {
        match imported {
            Err(reason) => ImportVerdict::Failed(BuildTaskError::NewPayloadFailed(reason)),
            Ok(PayloadStatus::Valid) => ImportVerdict::Imported,
            Ok(PayloadStatus::Syncing) => ImportVerdict::Imported,
            Ok(PayloadStatus::Invalid { validation_error }) => {
                if self.attributes@.is_deposits_only() {
                    ImportVerdict::Failed(BuildTaskError::DepositOnlyPayloadFailed)
                } else if self.cfg.hardforks.holocene_active(self.attributes@.timestamp) {
                    ImportVerdict::Reattempt
                } else {
                    ImportVerdict::Failed(BuildTaskError::NewPayloadFailed(validation_error))
                }
            },
            Ok(PayloadStatus::Accepted) => ImportVerdict::Failed(
                BuildTaskError::UnexpectedPayloadStatus(PayloadStatus::Accepted),
            ),
        }
    }

    /// `other` differs from `self` in its phase at most.
    pub open spec fn same_attempt(&self, other: BuildTask) -> bool {
        &&& other.cfg == self.cfg
        &&& other.attributes == self.attributes
        &&& other.is_attributes_derived == self.is_attributes_derived
        &&& other.sends_payload == self.sends_payload
        &&& other.is_reattempt == self.is_reattempt
    }

    /// `other` is the second attempt of `self`: the same attributes, with the
    /// deposits alone among the transactions of its attributes.
    pub open spec fn reattempted_as(&self, other: BuildTask) -> bool {
        &&& other.cfg == self.cfg
        &&& other.attributes@ == self.attributes@.as_deposits_only()
        &&& other.is_attributes_derived == self.is_attributes_derived
        &&& other.sends_payload == self.sends_payload
        &&& other.is_reattempt
    }

    /// The task ends in `after` with `error`, or with what stands for it in
    /// a second attempt.
    pub open spec fn fails_with(&self, error: EngineTaskError, after: BuildTask, action: EngineAction) -> bool {
        &&& self.same_attempt(after)
        &&& after.phase == BuildPhase::Finished
        &&& action == EngineAction::Finish(Err(self.failure(error)))
    }

    /// The task ends in `after` as one that ran to its end.
    pub open spec fn completes(&self, after: BuildTask, action: EngineAction) -> bool {
        &&& self.same_attempt(after)
        &&& after.phase == BuildPhase::Finished
        &&& action == EngineAction::Finish(self.completion())
    }

    /// The step that commits the payload `envelope`, read as `block`. If the
    /// payload holds a block, the heads of the engine state move to it and
    /// the forkchoice update that makes it canonical is next; if it holds
    /// none, the task fails and the engine state stays.
    pub open spec fn commits(
        &self,
        envelope: PayloadEnvelope,
        block: Result<L2BlockInfo, FromBlockError>,
        state: EngineState,
        after: BuildTask,
        state_after: EngineState,
        action: EngineAction,
    ) -> bool {
        match block {
            Ok(block) => {
                &&& self.same_attempt(after)
                &&& after.phase == (BuildPhase::Canonicalizing { envelope, block })
                &&& state_after == state.with_imported(block, self.is_attributes_derived)
                &&& action == (EngineAction::Canonicalize { forkchoice: state_after.forkchoice() })
            },
            Err(reason) => {
                &&& state_after == state
                &&& self.fails_with(
                    EngineTaskError::Build(BuildTaskError::FromBlock(reason)),
                    after,
                    action,
                )
            },
        }
    }

    /// The block that the import of `envelope` brings in: the block that the
    /// payload holds, where the answer counts the block as imported and the
    /// payload holds one.
    pub open spec fn imported_block(
        &self,
        envelope: PayloadEnvelope,
        imported: Result<PayloadStatus, String>,
    ) -> Option<L2BlockInfo> {
        match self.import_verdict_of(imported) {
            ImportVerdict::Imported => match block_of_payload(
                envelope.envelope,
                self.attributes@.parent_beacon_block_root,
                self.cfg.genesis,
            ) {
                Ok(block) => Some(block),
                Err(_) => None,
            },
            _ => None,
        }
    }

    /// The step that the answer to the import of `envelope` makes.
    ///
    /// Where the block counts as imported, the payload is read as a block
    /// and committed. Where a second attempt is due, the task opens again
    /// with the deposits alone. Else the task fails.
    pub open spec fn import_step(
        &self,
        envelope: PayloadEnvelope,
        state: EngineState,
        imported: Result<PayloadStatus, String>,
        after: BuildTask,
        state_after: EngineState,
        action: EngineAction,
    ) -> bool {
        match self.import_verdict_of(imported) {
            ImportVerdict::Imported => self.commits(
                envelope,
                block_of_payload(
                    envelope.envelope,
                    self.attributes@.parent_beacon_block_root,
                    self.cfg.genesis,
                ),
                state,
                after,
                state_after,
                action,
            ),
            ImportVerdict::Reattempt => {
                &&& state_after == state
                &&& self.reattempted_as(after)
                &&& (after.phase, action) == after.opening(state)
            },
            ImportVerdict::Failed(error) => {
                &&& state_after == state
                &&& self.fails_with(EngineTaskError::Build(error), after, action)
            },
        }
    }

    /// One step of the task: from the task `self` and the engine state
    /// `state`, `event` leads to the task `after`, the engine state
    /// `state_after`, and `action` as what is to be done next.
    ///
    /// The engine state changes in one step only: where the import of the
    /// payload is answered and the block counts as imported.
    pub open spec fn step(
        &self,
        state: EngineState,
        event: EngineEvent,
        after: BuildTask,
        state_after: EngineState,
        action: EngineAction,
    ) -> bool {
        match (self.phase, event) {
            (BuildPhase::Ready, EngineEvent::Start) => {
                &&& state_after == state
                &&& self.same_attempt(after)
                &&& (after.phase, action) == self.opening(state)
            },
            (BuildPhase::StartingBuild, EngineEvent::ForkchoiceUpdated(response)) => {
                &&& state_after == state
                &&& match Self::build_started(response) {
                    Ok(payload_id) => {
                        &&& self.same_attempt(after)
                        &&& after.phase == BuildPhase::FetchingPayload
                        &&& action == (EngineAction::GetPayload {
                            version: EngineGetPayloadVersion::select(
                                self.cfg.hardforks,
                                self.attributes@.timestamp,
                            ),
                            payload_id,
                        })
                    },
                    Err(error) => self.fails_with(EngineTaskError::Build(error), after, action),
                }
            },
            (BuildPhase::FetchingPayload, EngineEvent::PayloadFetched(fetched)) => {
                &&& state_after == state
                &&& match fetched {
                    Ok(envelope) => {
                        &&& self.same_attempt(after)
                        &&& after.phase == (BuildPhase::ImportingPayload { envelope })
                        &&& action == (EngineAction::NewPayload { version: envelope.version })
                    },
                    Err(reason) => self.fails_with(
                        EngineTaskError::Build(BuildTaskError::GetPayloadFailed(reason)),
                        after,
                        action,
                    ),
                }
            },
            (BuildPhase::ImportingPayload { envelope }, EngineEvent::PayloadImported(imported)) => {
                self.import_step(envelope, state, imported, after, state_after, action)
            },
            (BuildPhase::Canonicalizing { envelope, block }, EngineEvent::ForkchoiceUpdated(response)) => {
                &&& state_after == state
                &&& match ForkchoiceTask::outcome(response) {
                    Ok(_) => {
                        if self.sends_payload {
                            &&& self.same_attempt(after)
                            &&& after.phase == BuildPhase::SendingPayload
                            &&& action == (EngineAction::SendPayload { envelope })
                        } else {
                            self.completes(after, action)
                        }
                    },
                    Err(error) => self.fails_with(EngineTaskError::Forkchoice(error), after, action),
                }
            },
            (BuildPhase::SendingPayload, EngineEvent::PayloadSent(sent)) => {
                &&& state_after == state
                &&& if sent {
                    self.completes(after, action)
                } else {
                    self.fails_with(EngineTaskError::Build(BuildTaskError::MpscSend), after, action)
                }
            },
            _ => false,
        }
    }

    /// One step of the task at the reading `now` of the clock: the step that
    /// `event` makes, with the timings brought up to date.
    pub open spec fn step_at(
        &self,
        state: EngineState,
        event: EngineEvent,
        now: u64,
        after: BuildTask,
        state_after: EngineState,
        action: EngineAction,
    ) -> bool {
        &&& self.step(state, event, after, state_after, action)
        &&& after.timings == self.timings.after(after.phase, now)
    }

    /// The engine state changes in one step only, the one that imports the
    /// block. A step that ends the task in failure has left the state as it
    /// was, and so has every step that asks the engine for anything but to
    /// make the block canonical.
    pub proof fn lemma_only_an_import_moves_the_heads(
        self,
        state: EngineState,
        event: EngineEvent,
        after: BuildTask,
        state_after: EngineState,
        action: EngineAction,
    )
        requires
            self.step(state, event, after, state_after, action),
        ensures
            !(action is Canonicalize) ==> state_after == state,
            action is Canonicalize ==> {
                &&& self.phase is ImportingPayload
                &&& after.phase matches BuildPhase::Canonicalizing { block, .. }
                &&& state_after == state.with_imported(block, self.is_attributes_derived)
            },
    {
    }

    /// A step that imports a block keeps the heads in order, where they
    /// were in order and the block is not behind the most committed head
    /// that stays in place: the finalized head if the attributes were
    /// derived, the local-safe head if not.
    pub proof fn lemma_import_keeps_heads_in_order(
        self,
        state: EngineState,
        event: EngineEvent,
        after: BuildTask,
        state_after: EngineState,
        action: EngineAction,
    )
        requires
            self.step(state, event, after, state_after, action),
            state.well_ordered(),
            after.phase matches BuildPhase::Canonicalizing { block, .. } ==> {
                if self.is_attributes_derived {
                    block.block_info.number >= state.finalized_head.block_info.number
                } else {
                    block.block_info.number >= state.local_safe_head.block_info.number
                }
            },
        ensures
            state_after.well_ordered(),
    {
    }

    /// The version of each request is the one that the hard forks call for
    /// at the timestamp of the attributes: for the forkchoice update and for
    /// the fetch the oldest version that the active forks admit, for the
    /// import the version of the payload that was fetched.
    pub proof fn lemma_versions_follow_the_forks(
        self,
        state: EngineState,
        event: EngineEvent,
        after: BuildTask,
        state_after: EngineState,
        action: EngineAction,
    )
        requires
            self.step(state, event, after, state_after, action),
        ensures
            action matches EngineAction::StartBuild { version, .. } ==> {
                &&& version.admissible(self.cfg.hardforks, self.attributes@.timestamp)
                &&& forall|other: EngineForkchoiceVersion|
                    other.admissible(self.cfg.hardforks, self.attributes@.timestamp) ==> version.rank()
                        <= #[trigger] other.rank()
            },
            action matches EngineAction::GetPayload { version, .. } ==> {
                &&& version.admissible(self.cfg.hardforks, self.attributes@.timestamp)
                &&& forall|other: EngineGetPayloadVersion|
                    other.admissible(self.cfg.hardforks, self.attributes@.timestamp) ==> version.rank()
                        <= #[trigger] other.rank()
            },
            action matches EngineAction::NewPayload { version } ==> {
                &&& event matches EngineEvent::PayloadFetched(Ok(envelope))
                &&& version == envelope.version
                &&& envelope.wf() ==> version == payload_version_of(envelope.envelope)
            },
    {
    }

    /// The requests of a task come in one order: the forkchoice update that
    /// starts the build, the fetch, the import, the move of the heads with
    /// the forkchoice update that makes the block canonical, and the sending
    /// of the payload. Each is asked for in answer to the one before it.
    pub proof fn lemma_requests_come_in_order(
        self,
        state: EngineState,
        event: EngineEvent,
        after: BuildTask,
        state_after: EngineState,
        action: EngineAction,
    )
        requires
            self.step(state, event, after, state_after, action),
        ensures
            action is StartBuild ==> (self.phase is Ready || self.phase is ImportingPayload)
                && after.phase is StartingBuild,
            action is GetPayload ==> self.phase is StartingBuild && after.phase is FetchingPayload,
            action is NewPayload ==> self.phase is FetchingPayload && after.phase is ImportingPayload,
            action is Canonicalize ==> self.phase is ImportingPayload && after.phase is Canonicalizing,
            action is SendPayload ==> self.phase is Canonicalizing && after.phase is SendingPayload
                && self.sends_payload,
            action is Finish <==> after.phase is Finished,
    {
    }

    /// A second attempt is made at most once: a task in its second attempt
    /// never opens another, and ends either with the signal to flush or with
    /// the failure of the second attempt.
    pub proof fn lemma_second_attempt_is_the_last(
        self,
        state: EngineState,
        event: EngineEvent,
        after: BuildTask,
        state_after: EngineState,
        action: EngineAction,
    )
        requires
            self.wf(),
            self.is_reattempt,
            self.step(state, event, after, state_after, action),
        ensures
            after.attributes == self.attributes,
            after.is_reattempt,
            action matches EngineAction::Finish(outcome) ==> {
                ||| outcome == Err::<(), EngineTaskError>(
                    EngineTaskError::Build(BuildTaskError::HoloceneInvalidFlush),
                )
                ||| outcome == Err::<(), EngineTaskError>(
                    EngineTaskError::Build(BuildTaskError::DepositOnlyPayloadReattemptFailed),
                )
            },
    {
    }

    /// A run of the task: each step leads from one task and engine state to
    /// the next, with the event that made it and the action it answered.
    pub open spec fn is_run(
        tasks: Seq<BuildTask>,
        states: Seq<EngineState>,
        events: Seq<EngineEvent>,
        actions: Seq<EngineAction>,
    ) -> bool {
        &&& tasks.len() == events.len() + 1
        &&& states.len() == events.len() + 1
        &&& actions.len() == events.len()
        &&& forall|i: int|
            0 <= i < events.len() ==> (#[trigger] tasks[i]).step(
                states[i],
                events[i],
                tasks[i + 1],
                states[i + 1],
                actions[i],
            )
    }

    /// A run that ends in success has gone one way: the forkchoice update
    /// that starts the build, the fetch, the import, the forkchoice update
    /// that makes the block canonical and, where a channel takes the
    /// payload, its sending, in that order and each once. The engine state
    /// stayed as it was up to the import, and from the import on it is the
    /// state it was with the block imported; the forkchoice that was made
    /// canonical is that of the state after the import.
    pub proof fn lemma_successful_run(
        tasks: Seq<BuildTask>,
        states: Seq<EngineState>,
        events: Seq<EngineEvent>,
        actions: Seq<EngineAction>,
    )
        requires
            Self::is_run(tasks, states, events, actions),
            events.len() > 0,
            tasks[0].phase is Ready,
            !tasks[0].is_reattempt,
            actions.last() == EngineAction::Finish(Ok(())),
        ensures
            events.len() == if tasks[0].sends_payload {
                6int
            } else {
                5int
            },
            actions[0] is StartBuild,
            actions[1] is GetPayload,
            actions[2] is NewPayload,
            actions[3] matches EngineAction::Canonicalize { forkchoice } && forkchoice
                == states.last().forkchoice(),
            tasks[0].sends_payload ==> actions[4] is SendPayload,
            states[1] == states[0] && states[2] == states[0] && states[3] == states[0],
            tasks[4].phase matches BuildPhase::Canonicalizing { block, .. } && states.last()
                == states[0].with_imported(block, tasks[0].is_attributes_derived),
    {
        let n = events.len() as int;
        assert(tasks[0].step(states[0], events[0], tasks[1], states[1], actions[0]));
        if n == 1 {
            assert(actions.last() == actions[0]);
        }
        assert(n >= 2);
        assert(tasks[1].step(states[1], events[1], tasks[2], states[2], actions[1]));
        if n == 2 {
            assert(actions.last() == actions[1]);
        }
        assert(n >= 3);
        assert(tasks[2].step(states[2], events[2], tasks[3], states[3], actions[2]));
        if n == 3 {
            assert(actions.last() == actions[2]);
        }
        assert(n >= 4);
        assert(tasks[3].step(states[3], events[3], tasks[4], states[4], actions[3]));
        if n == 4 {
            assert(actions.last() == actions[3]);
        }
        assert(n >= 5);
        assert(tasks[4].step(states[4], events[4], tasks[5], states[5], actions[4]));
        if n == 5 {
            assert(actions.last() == actions[4]);
        } else {
            assert(tasks[5].step(states[5], events[5], tasks[6], states[6], actions[5]));
            if n == 6 {
                assert(actions.last() == actions[5]);
            } else {
                assert(tasks[6].step(states[6], events[6], tasks[7], states[7], actions[6]));
            }
        }
    }

    /// A run that ends with the signal to flush has made two attempts. The
    /// first came as far as the import, where the engine found the payload
    /// invalid, with Holocene active and attributes that held more than
    /// deposits. The second ran to its end with the deposits alone. The
    /// engine state stayed as it was up to the import of the second attempt,
    /// and from then on it is the state it was with that block imported.
    pub proof fn lemma_flushed_run(
        tasks: Seq<BuildTask>,
        states: Seq<EngineState>,
        events: Seq<EngineEvent>,
        actions: Seq<EngineAction>,
    )
        requires
            Self::is_run(tasks, states, events, actions),
            events.len() > 0,
            tasks[0].phase is Ready,
            !tasks[0].is_reattempt,
            actions.last() == EngineAction::Finish(
                Err(EngineTaskError::Build(BuildTaskError::HoloceneInvalidFlush)),
            ),
        ensures
            events.len() == if tasks[0].sends_payload {
                9int
            } else {
                8int
            },
            events[3] matches EngineEvent::PayloadImported(Ok(PayloadStatus::Invalid { .. })),
            tasks[0].cfg.hardforks.holocene_active(tasks[0].attributes@.timestamp),
            !tasks[0].attributes@.is_deposits_only(),
            actions[3] is StartBuild,
            actions[4] is GetPayload,
            actions[5] is NewPayload,
            actions[6] is Canonicalize,
            tasks[0].sends_payload ==> actions[7] is SendPayload,
            tasks.last().attributes@ == tasks[0].attributes@.as_deposits_only(),
            forall|i: int| 0 <= i <= 6 ==> #[trigger] states[i] == states[0],
            tasks[7].phase matches BuildPhase::Canonicalizing { block, .. } && states.last()
                == states[0].with_imported(block, tasks[0].is_attributes_derived),
    {
        let n = events.len() as int;
        lemma_as_deposits_only_is_idempotent(tasks[0].attributes@);
        assert(tasks[0].step(states[0], events[0], tasks[1], states[1], actions[0]));
        if n == 1 {
            assert(actions.last() == actions[0]);
        }
        assert(n >= 2);
        assert(tasks[1].step(states[1], events[1], tasks[2], states[2], actions[1]));
        if n == 2 {
            assert(actions.last() == actions[1]);
        }
        assert(n >= 3);
        assert(tasks[2].step(states[2], events[2], tasks[3], states[3], actions[2]));
        if n == 3 {
            assert(actions.last() == actions[2]);
        }
        assert(n >= 4);
        assert(tasks[3].step(states[3], events[3], tasks[4], states[4], actions[3]));
        if n == 4 {
            assert(actions.last() == actions[3]);
        }
        assert(n >= 5);
        assert(tasks[4].step(states[4], events[4], tasks[5], states[5], actions[4]));
        if n == 5 {
            assert(actions.last() == actions[4]);
        }
        assert(n >= 6);
        assert(tasks[5].step(states[5], events[5], tasks[6], states[6], actions[5]));
        if n == 6 {
            assert(actions.last() == actions[5]);
        }
        assert(n >= 7);
        assert(tasks[6].step(states[6], events[6], tasks[7], states[7], actions[6]));
        if n == 7 {
            assert(actions.last() == actions[6]);
        }
        assert(n >= 8);
        assert(tasks[7].step(states[7], events[7], tasks[8], states[8], actions[7]));
        if n == 8 {
            assert(actions.last() == actions[7]);
        } else {
            assert(tasks[8].step(states[8], events[8], tasks[9], states[9], actions[8]));
            if n == 9 {
                assert(actions.last() == actions[8]);
            } else {
                assert(tasks[9].step(states[9], events[9], tasks[10], states[10], actions[9]));
            }
        }
    }

    /// What derivation is to be told once a task has ended with `outcome`:
    /// to drop the batches it has buffered, where the outcome is the signal
    /// to flush, and nothing where it is any other.
    pub open spec fn upstream_signal_of(outcome: Result<(), EngineTaskError>) -> Option<Signal> {
        match outcome {
            Err(EngineTaskError::Build(BuildTaskError::HoloceneInvalidFlush)) => Some(
                Signal::FlushChannel,
            ),
            _ => None,
        }
    }

    /// The version that a payload is imported with is the payload's own:
    /// the task that waits for the answer to the import holds the payload,
    /// and the version asked for is that of the payload it holds.
    pub proof fn lemma_import_version_is_the_payloads(
        self,
        state: EngineState,
        event: EngineEvent,
        after: BuildTask,
        state_after: EngineState,
        action: EngineAction,
    )
        requires
            event.wf(),
            self.step(state, event, after, state_after, action),
        ensures
            action matches EngineAction::NewPayload { version } ==> {
                &&& after.phase matches BuildPhase::ImportingPayload { envelope }
                &&& version == payload_version_of(envelope.envelope)
            },
    {
    }

    /// Derivation is told to flush for a second attempt that ran to its
    /// end, and for nothing else: not where the second attempt failed, and
    /// not where the task ended in its first attempt, whether in success or
    /// in failure.
    pub proof fn lemma_flush_follows_a_completed_second_attempt(
        self,
        state: EngineState,
        event: EngineEvent,
        after: BuildTask,
        state_after: EngineState,
        action: EngineAction,
    )
        requires
            self.step(state, event, after, state_after, action),
        ensures
            action matches EngineAction::Finish(outcome) ==> (Self::upstream_signal_of(outcome)
                == Some(Signal::FlushChannel) <==> self.is_reattempt && action == EngineAction::Finish(
                self.completion(),
            )),
    {
    }

    /// A run has one outcome, and with it at most one signal to derivation:
    /// the action that ends the task is the last of the run.
    pub proof fn lemma_one_outcome_per_run(
        tasks: Seq<BuildTask>,
        states: Seq<EngineState>,
        events: Seq<EngineEvent>,
        actions: Seq<EngineAction>,
        i: int,
    )
        requires
            Self::is_run(tasks, states, events, actions),
            0 <= i < events.len(),
            actions[i] is Finish,
        ensures
            i == events.len() - 1,
    {
        assert(tasks[i].step(states[i], events[i], tasks[i + 1], states[i + 1], actions[i]));
        if i + 1 < events.len() {
            assert(tasks[i + 1].step(
                states[i + 1],
                events[i + 1],
                tasks[i + 2],
                states[i + 2],
                actions[i + 1],
            ));
        }
    }

    /// A task that has not begun.
    pub fn new(
        cfg: RollupConfig,
        attributes: OpAttributesWithParent,
        is_attributes_derived: bool,
        sends_payload: bool,
    ) -> (task: BuildTask)
        ensures
            task == (BuildTask {
                cfg,
                attributes,
                is_attributes_derived,
                sends_payload,
                phase: BuildPhase::Ready,
                is_reattempt: false,
                timings: BuildTimings {
                    requested_at: 0,
                    fcu_duration: None,
                    block_import_duration: None,
                },
            }),
            task.wf(),
    {
        BuildTask {
            cfg,
            attributes,
            is_attributes_derived,
            sends_payload,
            phase: BuildPhase::Ready,
            is_reattempt: false,
            timings: BuildTimings::new(),
        }
    }

    /// Tells whether `event` is what the task waits for.
    pub fn is_awaiting(&self, event: &EngineEvent) -> (awaited: bool)
        ensures
            awaited == self.awaits(*event),
    {
        match (&self.phase, event) {
            (BuildPhase::Ready, EngineEvent::Start) => true,
            (BuildPhase::StartingBuild, EngineEvent::ForkchoiceUpdated(_)) => true,
            (BuildPhase::FetchingPayload, EngineEvent::PayloadFetched(_)) => true,
            (BuildPhase::ImportingPayload { .. }, EngineEvent::PayloadImported(_)) => true,
            (BuildPhase::Canonicalizing { .. }, EngineEvent::ForkchoiceUpdated(_)) => true,
            (BuildPhase::SendingPayload, EngineEvent::PayloadSent(_)) => true,
            _ => false,
        }
    }

    /// Tells what derivation is to be told once a task has ended with
    /// `outcome`.
    pub fn upstream_signal(outcome: &Result<(), EngineTaskError>) -> (signal: Option<Signal>)
        ensures
            signal == Self::upstream_signal_of(*outcome),
    {
        match outcome {
            Err(EngineTaskError::Build(BuildTaskError::HoloceneInvalidFlush)) => Some(
                Signal::FlushChannel,
            ),
            _ => None,
        }
    }

    /// Tells whether the task is in order.
    pub fn is_wf(&self) -> (ok: bool)
        ensures
            ok == self.wf(),
    {
        let deposits = !self.is_reattempt || self.attributes.is_deposits_only();
        let payload = match &self.phase {
            BuildPhase::ImportingPayload { envelope } => envelope.is_wf(),
            BuildPhase::Canonicalizing { envelope, .. } => envelope.is_wf(),
            _ => true,
        };
        deposits && payload
    }

    /// Ends the task with `error`, or with what stands for it in a second
    /// attempt.
    fn fail(&mut self, error: EngineTaskError) -> (action: EngineAction)
        ensures
            old(self).fails_with(error, *final(self), action),
            final(self).timings == old(self).timings,
    {
        self.phase = BuildPhase::Finished;
        if self.is_reattempt {
            EngineAction::Finish(
                Err(EngineTaskError::Build(BuildTaskError::DepositOnlyPayloadReattemptFailed)),
            )
        } else {
            EngineAction::Finish(Err(error))
        }
    }

    /// Ends the task as one that ran to its end.
    fn complete(&mut self) -> (action: EngineAction)
        ensures
            old(self).completes(*final(self), action),
            final(self).timings == old(self).timings,
    {
        self.phase = BuildPhase::Finished;
        if self.is_reattempt {
            EngineAction::Finish(Err(EngineTaskError::Build(BuildTaskError::HoloceneInvalidFlush)))
        } else {
            EngineAction::Finish(Ok(()))
        }
    }

    /// Opens an attempt: checks the heads, and asks for the forkchoice update
    /// that starts the build.
    fn open(&mut self, state: &EngineState) -> (action: EngineAction)
        ensures
            old(self).same_attempt(*final(self)),
            (final(self).phase, action) == old(self).opening(*state),
            final(self).timings == old(self).timings,
    {
        if state.unsafe_head().block_info.number < state.finalized_head().block_info.number {
            self.fail(
                EngineTaskError::Build(
                    BuildTaskError::FinalizedAheadOfUnsafe(
                        state.unsafe_head().block_info.number,
                        state.finalized_head().block_info.number,
                    ),
                ),
            )
        } else {
            let mut forkchoice = state.create_forkchoice_state();
            forkchoice.head_block_hash = self.attributes.parent.block_info.hash;
            let version = EngineForkchoiceVersion::from_cfg(&self.cfg, self.attributes.timestamp());
            self.phase = BuildPhase::StartingBuild;
            EngineAction::StartBuild { version, forkchoice }
        }
    }

    /// Reads the answer to the forkchoice update that starts the build: the
    /// build that the engine started, or the reason why none is there.
    pub fn start_build(response: ForkchoiceResponse) -> (started: Result<PayloadId, BuildTaskError>)
        ensures
            started == Self::build_started(response),
    {
        match response {
            Err(reason) => Err(BuildTaskError::ForkchoiceUpdateFailed(reason)),
            Ok(update) => match update.payload_status {
                PayloadStatus::Valid => match update.payload_id {
                    Some(payload_id) => Ok(payload_id),
                    None => Err(BuildTaskError::MissingPayloadId),
                },
                PayloadStatus::Invalid { validation_error } => Err(
                    BuildTaskError::ForkchoiceUpdateFailed(validation_error),
                ),
                PayloadStatus::Syncing => Err(BuildTaskError::EngineSyncing),
                PayloadStatus::Accepted => Err(
                    BuildTaskError::UnexpectedPayloadStatus(PayloadStatus::Accepted),
                ),
            },
        }
    }

    /// Reads the answer to the import of the payload.
    pub fn import_verdict(&self, imported: Result<PayloadStatus, String>) -> (verdict: ImportVerdict)
        ensures
            verdict == self.import_verdict_of(imported),
    {
        match imported {
            Err(reason) => ImportVerdict::Failed(BuildTaskError::NewPayloadFailed(reason)),
            Ok(PayloadStatus::Valid) => ImportVerdict::Imported,
            Ok(PayloadStatus::Syncing) => ImportVerdict::Imported,
            Ok(PayloadStatus::Invalid { validation_error }) => {
                if self.attributes.is_deposits_only() {
                    ImportVerdict::Failed(BuildTaskError::DepositOnlyPayloadFailed)
                } else if self.cfg.is_holocene_active(self.attributes.timestamp()) {
                    ImportVerdict::Reattempt
                } else {
                    ImportVerdict::Failed(BuildTaskError::NewPayloadFailed(validation_error))
                }
            },
            Ok(PayloadStatus::Accepted) => ImportVerdict::Failed(
                BuildTaskError::UnexpectedPayloadStatus(PayloadStatus::Accepted),
            ),
        }
    }

    /// Commits the payload `envelope`, read as `block`: moves the heads of
    /// `state` to the block and asks for the forkchoice update that makes it
    /// canonical, or fails the task where the payload holds no block.
    pub fn commit(
        &mut self,
        state: &mut EngineState,
        envelope: PayloadEnvelope,
        block: Result<L2BlockInfo, FromBlockError>,
    ) -> (action: EngineAction)
        ensures
            final(self).timings == old(self).timings,
            old(self).commits(envelope, block, *old(state), *final(self), *final(state), action),
    {
        match block {
            Ok(block) => {
                state.import(block, self.is_attributes_derived);
                let forkchoice = ForkchoiceTask::new().request(state);
                self.phase = BuildPhase::Canonicalizing { envelope, block };
                EngineAction::Canonicalize { forkchoice }
            },
            Err(reason) => self.fail(EngineTaskError::Build(BuildTaskError::FromBlock(reason))),
        }
    }

    /// Takes the answer to the import of `envelope`. Where the block counts
    /// as imported and the payload holds one, the payload comes back with
    /// its block; the task and the engine state are as they were, and the
    /// commit is the caller's. Else what comes back is what to do next: the
    /// forkchoice update of a second attempt, which the task has opened with
    /// the deposits alone, or the end of the task in failure. The engine
    /// state stays as it is either way.
    pub fn fetch_and_import_payload(
        &mut self,
        state: &mut EngineState,
        envelope: PayloadEnvelope,
        imported: Result<PayloadStatus, String>,
    ) -> (outcome: Result<(PayloadEnvelope, L2BlockInfo), EngineAction>)
        requires
            old(self).wf(),
        ensures
            final(self).wf(),
            final(self).timings == old(self).timings,
            *final(state) == *old(state),
            match outcome {
                Ok((kept, block)) => {
                    &&& old(self).imported_block(envelope, imported) == Some(block)
                    &&& kept == envelope
                    &&& *final(self) == *old(self)
                },
                Err(action) => {
                    &&& old(self).imported_block(envelope, imported) is None
                    &&& old(self).import_step(
                        envelope,
                        *old(state),
                        imported,
                        *final(self),
                        *final(state),
                        action,
                    )
                },
            },
    {
        match self.import_verdict(imported) {
            ImportVerdict::Imported => {
                let root = self.attributes.inner.payload_attributes.parent_beacon_block_root;
                match envelope.block_info(root, &self.cfg.genesis) {
                    Ok(block) => Ok((envelope, block)),
                    Err(reason) => Err(
                        self.fail(EngineTaskError::Build(BuildTaskError::FromBlock(reason))),
                    ),
                }
            },
            ImportVerdict::Reattempt => {
                self.attributes = self.attributes.as_deposits_only();
                self.is_reattempt = true;
                Err(self.open(state))
            },
            ImportVerdict::Failed(error) => Err(self.fail(EngineTaskError::Build(error))),
        }
    }

    /// Takes one step: `event` is what the last action led to, `now` is what
    /// the clock shows, and the result is what is to be done next.
    pub fn execute(&mut self, state: &mut EngineState, event: EngineEvent, now: u64) -> (action:
        EngineAction)
        requires
            old(self).wf(),
            event.wf(),
            old(self).awaits(event),
        ensures
            final(self).wf(),
            old(self).step_at(*old(state), event, now, *final(self), *final(state), action),
    {
        let action = self.decide(state, event);
        self.timings.record(&self.phase, now);
        action
    }

    /// Takes the step that `event` makes, and leaves the timings.
    fn decide(&mut self, state: &mut EngineState, event: EngineEvent) -> (action: EngineAction)
        requires
            old(self).wf(),
            event.wf(),
            old(self).awaits(event),
        ensures
            final(self).wf(),
            final(self).timings == old(self).timings,
            old(self).step(*old(state), event, *final(self), *final(state), action),
    {
        let mut phase = BuildPhase::Finished;
        core::mem::swap(&mut self.phase, &mut phase);
        match (phase, event) {
            (BuildPhase::Ready, EngineEvent::Start) => self.open(state),
            (BuildPhase::StartingBuild, EngineEvent::ForkchoiceUpdated(response)) => {
                match Self::start_build(response) {
                    Ok(payload_id) => {
                        let version = EngineGetPayloadVersion::from_cfg(&self.cfg, self.attributes.timestamp());
                        self.phase = BuildPhase::FetchingPayload;
                        EngineAction::GetPayload { version, payload_id }
                    },
                    Err(error) => self.fail(EngineTaskError::Build(error)),
                }
            },
            (BuildPhase::FetchingPayload, EngineEvent::PayloadFetched(fetched)) => {
                match fetched {
                    Ok(envelope) => {
                        let version = envelope.version;
                        self.phase = BuildPhase::ImportingPayload { envelope };
                        EngineAction::NewPayload { version }
                    },
                    Err(reason) => self.fail(
                        EngineTaskError::Build(BuildTaskError::GetPayloadFailed(reason)),
                    ),
                }
            },
            (BuildPhase::ImportingPayload { envelope }, EngineEvent::PayloadImported(imported)) => {
                match self.fetch_and_import_payload(state, envelope, imported) {
                    Ok((envelope, block)) => self.commit(state, envelope, Ok(block)),
                    Err(action) => action,
                }
            },
            (BuildPhase::Canonicalizing { envelope, block }, EngineEvent::ForkchoiceUpdated(response)) => {
                match ForkchoiceTask::new().complete(response) {
                    Ok(_) => {
                        if self.sends_payload {
                            self.phase = BuildPhase::SendingPayload;
                            EngineAction::SendPayload { envelope }
                        } else {
                            self.complete()
                        }
                    },
                    Err(error) => self.fail(EngineTaskError::Forkchoice(error)),
                }
            },
            (BuildPhase::SendingPayload, EngineEvent::PayloadSent(sent)) => {
                if sent {
                    self.complete()
                } else {
                    self.fail(EngineTaskError::Build(BuildTaskError::MpscSend))
                }
            },
            _ => {
                proof {
                    assert(false);
                }
                EngineAction::Finish(Ok(()))
            },
        }
    }
}

} // verus!
