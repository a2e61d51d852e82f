//! The derivation state: it steps a derivation pipeline until the pipeline
//! yields payload attributes, and reacts to what the pipeline reports on the
//! way.
//!
//! The state never touches the pipeline itself. It is handed what happened
//! ([`DerivationEvent`]) and answers with what is to be done next
//! ([`DerivationStep`]); whoever runs it performs the action on the pipeline
//! and on the channels, and comes back with the event that the action led to.

use vstd::prelude::*;
use crate::attributes::OpAttributesWithParent;
use crate::config::RollupConfig;
use crate::primitives::{BlockInfo, Hash256, L2BlockInfo};
use kona_derive::{PipelineError, PipelineErrorKind, ResetError, StepResult};
use kona_genesis::SystemConfig;

verus! {

/// `kona_genesis::SystemConfig`: the system configuration of the rollup at
/// one block, carried from the pipeline back to the pipeline.
#[verifier::external_type_specification]
#[verifier::external_body]
pub struct ExSystemConfig(SystemConfig);

/// `kona_derive::PipelineErrorKind`: an error of the pipeline, carried to
/// whoever runs derivation.
#[verifier::external_type_specification]
#[verifier::external_body]
pub struct ExPipelineErrorKind(PipelineErrorKind);

/// `kona_derive::PipelineError`: the error under a temporary or a critical
/// error of the pipeline.
#[verifier::external_type_specification]
#[verifier::external_body]
pub struct ExPipelineError(PipelineError);

/// `kona_derive::ResetError`: the error under a reset of the pipeline.
#[verifier::external_type_specification]
#[verifier::external_body]
pub struct ExResetError(ResetError);

/// `kona_derive::StepResult`: what a step of the pipeline returns.
#[verifier::external_type_specification]
#[verifier::external_body]
pub struct ExStepResult(StepResult);

/// A message that wakes derivation.
#[derive(Clone, Copy, Debug, PartialEq, Eq)]
pub enum InboundDerivationMessage {
    /// New data may be there to derive from.
    NewDataAvailable,
    /// The engine has moved its safe head.
    SafeHeadUpdated,
}

/// Why derivation stopped.
#[derive(Debug, PartialEq)]
pub enum DerivationError {
    /// The pipeline failed.
    Pipeline(PipelineErrorKind),
    /// The pipeline has no L1 origin where it must have one.
    MissingOrigin,
    /// The pipeline waits for more data.
    Yield,
    /// A channel that derivation sends on is closed.
    Sender,
    /// The channel that brings the signals is closed.
    SignalReceiveFailed,
    /// The L2 safe head cannot be read.
    L2SafeHeadReceiveFailed,
}

/// A signal to the derivation pipeline.
#[derive(Debug, PartialEq)]
pub enum Signal {
    /// Reset the pipeline to this safe head and L1 origin.
    Reset {
        l2_safe_head: L2BlockInfo,
        l1_origin: BlockInfo,
        system_config: Option<SystemConfig>,
    },
    /// A hard fork activates at this safe head and L1 origin.
    Activation {
        l2_safe_head: L2BlockInfo,
        l1_origin: BlockInfo,
        system_config: Option<SystemConfig>,
    },
    /// Drop the batches that are buffered.
    FlushChannel,
    /// Take this L1 block as the next to derive from.
    ProvideBlock(BlockInfo),
}

/// An observation that derivation publishes.
#[derive(Clone, Copy, Debug, PartialEq, Eq)]
pub enum Metric {
    /// The number of the L1 block that the pipeline derives from.
    L1Origin(u64),
    /// One more reorganisation of L1 was seen.
    L1Reorg,
    /// One more failure of the pipeline that nothing repairs.
    CriticalError,
}

/// Which error of the pipeline it is.
#[derive(Clone, Copy, Debug, PartialEq, Eq)]
pub enum PipelineErrorTag {
    Eof,
    NotEnoughData,
    ChannelProviderEmpty,
    ChannelAlreadyBuilt,
    ChannelNotFound,
    ChannelReaderEmpty,
    BatchQueueEmpty,
    MissingOrigin,
    MissingL1Data,
    InvalidBatchType,
    InvalidBatchValidity,
    SystemConfigUpdate,
    AttributesBuilder,
    BadEncoding,
    EndOfSource,
    Provider,
    UnsupportedSignal,
}

/// The reason for which the pipeline asks to be reset.
#[derive(Clone, Copy, Debug, PartialEq, Eq)]
pub enum ResetKind {
    /// A batch has a bad parent hash: the hash expected, and the one found.
    BadParentHash(Hash256, Hash256),
    /// A batch has a bad timestamp: the one expected, and the one found.
    BadTimestamp(u64, u64),
    /// The L1 origin does not match: the number expected, and the one found.
    L1OriginMismatch(u64, u64),
    /// L1 was reorganised: the hash that was expected, and the one found.
    ReorgDetected { expected: Hash256, new: Hash256 },
    /// The attributes could not be built.
    AttributesBuilder,
    /// Holocene activates.
    HoloceneActivation,
    /// The next L1 block is not the one expected: the hash expected, and
    /// the one found.
    NextL1BlockHashMismatch(Hash256, Hash256),
}

/// How a step of the pipeline failed.
#[derive(Debug, PartialEq)]
pub enum StepFailure {
    /// More data or more time may mend the failure.
    Temporary(PipelineErrorTag),
    /// Nothing repairs the failure.
    Critical(PipelineErrorKind),
    /// The pipeline must be reset.
    Reset(ResetKind),
}

/// What a step of the pipeline led to.
#[derive(Debug, PartialEq)]
pub enum StepOutcome {
    /// Attributes were prepared.
    PreparedAttributes,
    /// The pipeline moved on to the next L1 origin.
    AdvancedOrigin,
    /// The pipeline could not move on to the next L1 origin.
    OriginAdvanceErr(StepFailure),
    /// The step failed.
    StepFailed(StepFailure),
}

/// A `kona_derive::StepResult`, variant by variant.
#[derive(Debug, PartialEq)]
pub enum StepParts {
    PreparedAttributes,
    AdvancedOrigin,
    OriginAdvanceErr(PipelineErrorKind),
    StepFailed(PipelineErrorKind),
}

/// A `kona_derive::PipelineErrorKind`, variant by variant. A critical error
/// is kept whole.
#[derive(Debug, PartialEq)]
pub enum KindParts {
    Temporary(PipelineError),
    Critical(PipelineErrorKind),
    Reset(ResetError),
}

/// Which variant of `kona_derive::StepResult` a result is, with the error
/// that the variant holds.
pub uninterp spec fn step_parts_of(result: StepResult) -> StepParts;

/// Which variant of `kona_derive::PipelineErrorKind` an error is, with the
/// error that the variant holds.
pub uninterp spec fn kind_parts_of(kind: PipelineErrorKind) -> KindParts;

/// Which variant of `kona_derive::PipelineError` an error is.
pub uninterp spec fn error_tag_of(error: PipelineError) -> PipelineErrorTag;

/// Which variant of `kona_derive::ResetError` an error is, with the hashes
/// or numbers that the variant holds.
pub uninterp spec fn reset_kind_of(error: ResetError) -> ResetKind;

/// Tells the variants of `kona_derive::StepResult` apart, one for one, and
/// hands on the error of a variant that holds one.
#[verifier::external_body]
fn step_parts(result: StepResult) -> (parts: StepParts)
    ensures
        parts == step_parts_of(result),
{
    match result {
        StepResult::PreparedAttributes => StepParts::PreparedAttributes,
        StepResult::AdvancedOrigin => StepParts::AdvancedOrigin,
        StepResult::OriginAdvanceErr(kind) => StepParts::OriginAdvanceErr(kind),
        StepResult::StepFailed(kind) => StepParts::StepFailed(kind),
    }
}

/// Tells the variants of `kona_derive::PipelineErrorKind` apart, one for
/// one: the error under a temporary one or a reset is handed on, a critical
/// error is handed on whole.
#[verifier::external_body]
fn kind_parts(kind: PipelineErrorKind) -> (parts: KindParts)
    ensures
        parts == kind_parts_of(kind),
{
    match kind {
        PipelineErrorKind::Temporary(error) => KindParts::Temporary(error),
        PipelineErrorKind::Critical(_) => KindParts::Critical(kind),
        PipelineErrorKind::Reset(error) => KindParts::Reset(error),
    }
}

/// Tells the variants of `kona_derive::PipelineError` apart, one for one.
/// What a variant holds is let go.
#[verifier::external_body]
fn error_tag(error: PipelineError) -> (tag: PipelineErrorTag)
    ensures
        tag == error_tag_of(error),
{
    match error {
        PipelineError::Eof => PipelineErrorTag::Eof, PipelineError::NotEnoughData => PipelineErrorTag::NotEnoughData,
        PipelineError::ChannelProviderEmpty => PipelineErrorTag::ChannelProviderEmpty, PipelineError::ChannelAlreadyBuilt => PipelineErrorTag::ChannelAlreadyBuilt,
        PipelineError::ChannelNotFound => PipelineErrorTag::ChannelNotFound, PipelineError::ChannelReaderEmpty => PipelineErrorTag::ChannelReaderEmpty,
        PipelineError::BatchQueueEmpty => PipelineErrorTag::BatchQueueEmpty, PipelineError::MissingOrigin => PipelineErrorTag::MissingOrigin,
        PipelineError::MissingL1Data => PipelineErrorTag::MissingL1Data, PipelineError::InvalidBatchType => PipelineErrorTag::InvalidBatchType,
        PipelineError::InvalidBatchValidity => PipelineErrorTag::InvalidBatchValidity, PipelineError::SystemConfigUpdate(_) => PipelineErrorTag::SystemConfigUpdate,
        PipelineError::AttributesBuilder(_) => PipelineErrorTag::AttributesBuilder, PipelineError::BadEncoding(_) => PipelineErrorTag::BadEncoding,
        PipelineError::EndOfSource => PipelineErrorTag::EndOfSource, PipelineError::Provider(_) => PipelineErrorTag::Provider,
        PipelineError::UnsupportedSignal => PipelineErrorTag::UnsupportedSignal,
    }
}

/// Tells the variants of `kona_derive::ResetError` apart, one for one, with
/// the hashes and numbers they hold. The error under a failure to build
/// attributes is let go.
#[verifier::external_body]
fn reset_kind(error: ResetError) -> (kind: ResetKind)
    ensures
        kind == reset_kind_of(error),
{
    match error {
        ResetError::BadParentHash(a, b) => ResetKind::BadParentHash(Hash256(a.0), Hash256(b.0)),
        ResetError::BadTimestamp(a, b) => ResetKind::BadTimestamp(a, b),
        ResetError::L1OriginMismatch(a, b) => ResetKind::L1OriginMismatch(a, b),
        ResetError::ReorgDetected(a, b) => ResetKind::ReorgDetected { expected: Hash256(a.0), new: Hash256(b.0) },
        ResetError::AttributesBuilder(_) => ResetKind::AttributesBuilder,
        ResetError::HoloceneActivation => ResetKind::HoloceneActivation,
        ResetError::NextL1BlockHashMismatch(a, b) => ResetKind::NextL1BlockHashMismatch(Hash256(a.0), Hash256(b.0)),
    }
}

impl StepFailure {
    /// The failure that an error of the pipeline is.
    pub open spec fn of(kind: PipelineErrorKind) -> StepFailure {
        match kind_parts_of(kind) {
            KindParts::Temporary(error) => StepFailure::Temporary(error_tag_of(error)),
            KindParts::Critical(kind) => StepFailure::Critical(kind),
            KindParts::Reset(error) => StepFailure::Reset(reset_kind_of(error)),
        }
    }

    /// Reads an error of the pipeline.
    pub fn from_error_kind(kind: PipelineErrorKind) -> (failure: StepFailure)
        ensures
            failure == Self::of(kind),
    {
        match kind_parts(kind) {
            KindParts::Temporary(error) => StepFailure::Temporary(error_tag(error)),
            KindParts::Critical(kind) => StepFailure::Critical(kind),
            KindParts::Reset(error) => StepFailure::Reset(reset_kind(error)),
        }
    }
}

impl StepOutcome {
    /// The outcome that the result of a step is.
    pub open spec fn of(result: StepResult) -> StepOutcome {
        match step_parts_of(result) {
            StepParts::PreparedAttributes => StepOutcome::PreparedAttributes,
            StepParts::AdvancedOrigin => StepOutcome::AdvancedOrigin,
            StepParts::OriginAdvanceErr(kind) => StepOutcome::OriginAdvanceErr(StepFailure::of(kind)),
            StepParts::StepFailed(kind) => StepOutcome::StepFailed(StepFailure::of(kind)),
        }
    }

    /// Reads what a step of the pipeline returned.
    pub fn from_step_result(result: StepResult) -> (outcome: StepOutcome)
        ensures
            outcome == Self::of(result),
    {
        match step_parts(result) {
            StepParts::PreparedAttributes => StepOutcome::PreparedAttributes,
            StepParts::AdvancedOrigin => StepOutcome::AdvancedOrigin,
            StepParts::OriginAdvanceErr(kind) => StepOutcome::OriginAdvanceErr(
                StepFailure::from_error_kind(kind),
            ),
            StepParts::StepFailed(kind) => StepOutcome::StepFailed(StepFailure::from_error_kind(kind)),
        }
    }
}

/// What happened on the pipeline since derivation last answered.
#[derive(Debug, PartialEq)]
pub enum PipelineEvent {
    /// The pipeline was stepped with the safe head `l2_safe_head`; `origin`
    /// is its L1 origin after the step.
    Stepped { l2_safe_head: L2BlockInfo, outcome: StepOutcome, origin: Option<BlockInfo> },
    /// The system configuration was fetched, or could not be; `origin` is
    /// the L1 origin of the pipeline after that.
    SystemConfigFetched {
        fetched: Result<SystemConfig, PipelineErrorKind>,
        origin: Option<BlockInfo>,
    },
    /// The pipeline took the signal, or refused it.
    Signalled(Result<(), PipelineErrorKind>),
    /// The request for a reset was handed to its channel (`true`), or the
    /// channel is closed (`false`).
    ResetRequested(bool),
    /// The pipeline was asked for the attributes it has ready.
    Next(Option<OpAttributesWithParent>),
}

/// What is to be done on the pipeline next.
#[derive(Debug, PartialEq)]
pub enum PipelineRequest {
    /// Read the latest L2 safe head and step the pipeline with it.
    Step,
    /// Fetch the system configuration at this L2 block number.
    FetchSystemConfig { number: u64 },
    /// Hand this signal to the pipeline.
    Signal(Signal),
    /// Ask the engine for a reset, on the channel for such requests.
    RequestReset,
    /// Ask the pipeline for the attributes it has ready.
    TakeNext,
}

/// How far the production of the next attributes has come.
#[derive(Debug, PartialEq)]
pub enum Production {
    /// It goes on with this request.
    Request(PipelineRequest),
    /// The pipeline yielded these attributes.
    Attributes(OpAttributesWithParent),
    /// Nothing more can be done for now.
    Yield,
    /// Derivation cannot go on.
    Fatal(DerivationError),
}

/// One answer of [`DerivationState::produce_next_attributes`].
#[derive(Debug, PartialEq)]
pub struct Produced {
    /// What to publish, if anything.
    pub metric: Option<Metric>,
    /// How far the production has come.
    pub production: Production,
}

/// What happened since derivation last answered.
#[derive(Debug, PartialEq)]
pub enum DerivationEvent {
    /// A message arrived. With it comes what the surroundings show at that
    /// moment: whether the engine has finished its sync, whether the L2 safe
    /// head has changed since it was last marked as seen (`None` where the
    /// safe head cannot be read any more), and the L2 safe head.
    Message {
        msg: InboundDerivationMessage,
        el_sync_complete: bool,
        safe_head_changed: Option<bool>,
        engine_safe_head: L2BlockInfo,
    },
    /// Something happened on the pipeline.
    Pipeline(PipelineEvent),
    /// The attributes were handed to their channel (`true`), or the channel
    /// is closed (`false`).
    AttributesSent(bool),
}

/// What derivation is to do next.
#[derive(Debug, PartialEq)]
pub enum DerivationAction {
    /// Do this on the pipeline.
    Pipeline(PipelineRequest),
    /// Mark the L2 safe head as seen, then hand these attributes to the
    /// channel that takes them.
    Publish(OpAttributesWithParent),
    /// Nothing more: the message is dealt with, with this outcome.
    Done(Result<(), DerivationError>),
}

/// One answer of [`DerivationState::process`].
#[derive(Debug, PartialEq)]
pub struct DerivationStep {
    /// What to publish, if anything.
    pub metric: Option<Metric>,
    /// What to do next.
    pub action: DerivationAction,
}

/// What derivation is in the middle of.
#[derive(Clone, Copy, Debug, PartialEq, Eq)]
pub enum DerivationPhase {
    /// Nothing: derivation waits for a message.
    Resting,
    /// A step of the pipeline.
    Stepping,
    /// The fetch of the system configuration at `l2_safe_head`, after the
    /// pipeline asked to be reset for the reason `reset`.
    FetchingSystemConfig { l2_safe_head: L2BlockInfo, reset: ResetKind },
    /// The handing of the activation signal to the pipeline.
    Signalling,
    /// The sending of the request for a reset.
    RequestingReset,
    /// The question to the pipeline for its ready attributes.
    TakingNext,
    /// The sending of the attributes.
    Publishing,
}

/// The state of derivation.
#[derive(Clone, Copy, Debug, PartialEq, Eq)]
pub struct DerivationState {
    /// The configuration of the rollup that the pipeline derives.
    pub cfg: RollupConfig,
    /// Whether derivation is idle: the pipeline has yielded, and waits for
    /// more data.
    pub derivation_idle: bool,
    /// Whether derivation waits for a signal. Until the signal comes no
    /// message makes it step.
    pub waiting_for_signal: bool,
    /// What derivation is in the middle of.
    pub phase: DerivationPhase,
}

impl DerivationState {
    /// `event` is what the production of attributes waits for.
    pub open spec fn awaits_pipeline(&self, event: PipelineEvent) -> bool {
        match (self.phase, event) {
            (DerivationPhase::Stepping, PipelineEvent::Stepped { .. }) => true,
            (DerivationPhase::FetchingSystemConfig { .. }, PipelineEvent::SystemConfigFetched { .. }) => true,
            (DerivationPhase::Signalling, PipelineEvent::Signalled(_)) => true,
            (DerivationPhase::RequestingReset, PipelineEvent::ResetRequested(_)) => true,
            (DerivationPhase::TakingNext, PipelineEvent::Next(_)) => true,
            _ => false,
        }
    }

    /// `event` is what derivation waits for.
    pub open spec fn awaits(&self, event: DerivationEvent) -> bool {
        match event {
            DerivationEvent::Message { .. } => self.phase == DerivationPhase::Resting,
            DerivationEvent::Pipeline(event) => self.awaits_pipeline(event),
            DerivationEvent::AttributesSent(_) => self.phase == DerivationPhase::Publishing,
        }
    }

    /// The state but for its phase, which is `phase`.
    pub open spec fn at(&self, phase: DerivationPhase) -> DerivationState {
        DerivationState { phase, ..*self }
    }

    /// The state once derivation has asked for a reset: it waits for the
    /// signal, and rests.
    pub open spec fn awaiting_signal(&self) -> DerivationState {
        DerivationState { waiting_for_signal: true, phase: DerivationPhase::Resting, ..*self }
    }

    /// The metric that a signal makes derivation publish: the L1 origin of a
    /// reset.
    pub open spec fn signal_metric(signal: Signal) -> Option<Metric> {
        match signal {
            Signal::Reset { l1_origin, .. } => Some(Metric::L1Origin(l1_origin.number)),
            _ => None,
        }
    }

    /// The metric that a reset of the pipeline makes derivation publish: a
    /// reorganisation of L1 is counted.
    pub open spec fn reset_metric(reset: ResetKind) -> Option<Metric> {
        match reset {
            ResetKind::ReorgDetected { .. } => Some(Metric::L1Reorg),
            _ => None,
        }
    }

    /// The production ends in `after` without attributes, because the
    /// pipeline has no L1 origin.
    pub open spec fn lacks_origin(&self, after: DerivationState, produced: Produced) -> bool {
        &&& after == self.at(DerivationPhase::Resting)
        &&& produced == (Produced {
            metric: None,
            production: Production::Fatal(DerivationError::MissingOrigin),
        })
    }

    /// What a failed step at the safe head `l2_safe_head` leads to, whether
    /// the step itself failed or the advance of the origin. With not enough
    /// data yet the pipeline is stepped again; any other temporary failure
    /// yields. A reset begins with the fetch of the system configuration at
    /// the safe head. A critical failure is counted and ends derivation.
    pub open spec fn fails_step(
        &self,
        l2_safe_head: L2BlockInfo,
        failure: StepFailure,
        after: DerivationState,
        produced: Produced,
    ) -> bool {
        match failure {
            StepFailure::Temporary(PipelineErrorTag::NotEnoughData) => {
                &&& after == self.at(DerivationPhase::Stepping)
                &&& produced == (Produced {
                    metric: None,
                    production: Production::Request(PipelineRequest::Step),
                })
            },
            StepFailure::Temporary(_) => {
                &&& after == self.at(DerivationPhase::Resting)
                &&& produced == (Produced { metric: None, production: Production::Yield })
            },
            StepFailure::Reset(reset) => {
                &&& after == self.at(DerivationPhase::FetchingSystemConfig { l2_safe_head, reset })
                &&& produced == (Produced {
                    metric: None,
                    production: Production::Request(
                        PipelineRequest::FetchSystemConfig { number: l2_safe_head.block_info.number },
                    ),
                })
            },
            StepFailure::Critical(kind) => {
                &&& after == self.at(DerivationPhase::Resting)
                &&& produced == (Produced {
                    metric: Some(Metric::CriticalError),
                    production: Production::Fatal(DerivationError::Pipeline(kind)),
                })
            },
        }
    }

    /// One step of the production of attributes: from the state `self`,
    /// `event` leads to the state `after` and to the answer `produced`.
    pub open spec fn produces(&self, event: PipelineEvent, after: DerivationState, produced: Produced) -> bool {
        match (self.phase, event) {
            (DerivationPhase::Stepping, PipelineEvent::Stepped { l2_safe_head, outcome, origin }) => {
                match outcome {
                    StepOutcome::PreparedAttributes => {
                        &&& after == self.at(DerivationPhase::TakingNext)
                        &&& produced == (Produced {
                            metric: None,
                            production: Production::Request(PipelineRequest::TakeNext),
                        })
                    },
                    StepOutcome::AdvancedOrigin => match origin {
                        Some(origin) => {
                            &&& after == self.at(DerivationPhase::TakingNext)
                            &&& produced == (Produced {
                                metric: Some(Metric::L1Origin(origin.number)),
                                production: Production::Request(PipelineRequest::TakeNext),
                            })
                        },
                        None => self.lacks_origin(after, produced),
                    },
                    StepOutcome::OriginAdvanceErr(failure) => self.fails_step(
                        l2_safe_head,
                        failure,
                        after,
                        produced,
                    ),
                    StepOutcome::StepFailed(failure) => self.fails_step(
                        l2_safe_head,
                        failure,
                        after,
                        produced,
                    ),
                }
            },
            (
                DerivationPhase::FetchingSystemConfig { l2_safe_head, reset },
                PipelineEvent::SystemConfigFetched { fetched, origin },
            ) => {
                match fetched {
                    Err(kind) => {
                        &&& after == self.at(DerivationPhase::Resting)
                        &&& produced == (Produced {
                            metric: None,
                            production: Production::Fatal(DerivationError::Pipeline(kind)),
                        })
                    },
                    Ok(system_config) => {
                        if reset == ResetKind::HoloceneActivation {
                            match origin {
                                Some(l1_origin) => {
                                    &&& after == self.at(DerivationPhase::Signalling)
                                    &&& produced == (Produced {
                                        metric: None,
                                        production: Production::Request(
                                            PipelineRequest::Signal(
                                                Signal::Activation {
                                                    l2_safe_head,
                                                    l1_origin,
                                                    system_config: Some(system_config),
                                                },
                                            ),
                                        ),
                                    })
                                },
                                None => self.lacks_origin(after, produced),
                            }
                        } else if self.cfg.hardforks.interop_active(l2_safe_head.block_info.timestamp) {
                            &&& after == self.awaiting_signal()
                            &&& produced == (Produced {
                                metric: Self::reset_metric(reset),
                                production: Production::Yield,
                            })
                        } else {
                            &&& after == self.at(DerivationPhase::RequestingReset)
                            &&& produced == (Produced {
                                metric: Self::reset_metric(reset),
                                production: Production::Request(PipelineRequest::RequestReset),
                            })
                        }
                    },
                }
            },
            (DerivationPhase::Signalling, PipelineEvent::Signalled(taken)) => {
                match taken {
                    Ok(_) => {
                        &&& after == self.at(DerivationPhase::TakingNext)
                        &&& produced == (Produced {
                            metric: None,
                            production: Production::Request(PipelineRequest::TakeNext),
                        })
                    },
                    Err(kind) => {
                        &&& after == self.at(DerivationPhase::Resting)
                        &&& produced == (Produced {
                            metric: None,
                            production: Production::Fatal(DerivationError::Pipeline(kind)),
                        })
                    },
                }
            },
            (DerivationPhase::RequestingReset, PipelineEvent::ResetRequested(sent)) => {
                if sent {
                    &&& after == self.awaiting_signal()
                    &&& produced == (Produced { metric: None, production: Production::Yield })
                } else {
                    &&& after == self.at(DerivationPhase::Resting)
                    &&& produced == (Produced {
                        metric: None,
                        production: Production::Fatal(DerivationError::Sender),
                    })
                }
            },
            (DerivationPhase::TakingNext, PipelineEvent::Next(next)) => {
                match next {
                    Some(attributes) => {
                        &&& after == self.at(DerivationPhase::Resting)
                        &&& produced == (Produced {
                            metric: None,
                            production: Production::Attributes(attributes),
                        })
                    },
                    None => {
                        &&& after == self.at(DerivationPhase::Stepping)
                        &&& produced == (Produced {
                            metric: None,
                            production: Production::Request(PipelineRequest::Step),
                        })
                    },
                }
            },
            _ => false,
        }
    }

    /// Whether a message finds derivation ready to step, and if not, how the
    /// message ends. Derivation does not step before the engine has finished
    /// its sync, nor while it waits for a signal, nor in the middle of its
    /// work on a safe head that has not changed, nor before the engine has
    /// a safe head at all.
    pub open spec fn admits(
        &self,
        msg: InboundDerivationMessage,
        el_sync_complete: bool,
        safe_head_changed: Option<bool>,
        engine_safe_head: L2BlockInfo,
    ) -> Result<bool, DerivationError> {
        if !el_sync_complete {
            Ok(false)
        } else if self.waiting_for_signal {
            Ok(false)
        } else if !(self.derivation_idle || msg == InboundDerivationMessage::SafeHeadUpdated)
            && safe_head_changed != Some(true) {
            match safe_head_changed {
                None => Err(DerivationError::L2SafeHeadReceiveFailed),
                Some(_) => Ok(false),
            }
        } else {
            Ok(!engine_safe_head.block_info.hash.spec_is_zero())
        }
    }

    /// One step of derivation: from the state `self`, `event` leads to the
    /// state `after` and to the answer `step`.
    pub open spec fn steps(&self, event: DerivationEvent, after: DerivationState, step: DerivationStep) -> bool {
        match event {
            DerivationEvent::Message { msg, el_sync_complete, safe_head_changed, engine_safe_head } => {
                &&& self.phase == DerivationPhase::Resting
                &&& step.metric == None::<Metric>
                &&& match self.admits(msg, el_sync_complete, safe_head_changed, engine_safe_head) {
                    Ok(true) => {
                        &&& after == self.at(DerivationPhase::Stepping)
                        &&& step.action == DerivationAction::Pipeline(PipelineRequest::Step)
                    },
                    Ok(false) => after == *self && step.action == DerivationAction::Done(Ok(())),
                    Err(error) => after == *self && step.action == DerivationAction::Done(Err(error)),
                }
            },
            DerivationEvent::Pipeline(event) => {
                exists|between: DerivationState, produced: Produced|
                    {
                        &&& #[trigger] self.produces(event, between, produced)
                        &&& step.metric == produced.metric
                        &&& match produced.production {
                            Production::Request(request) => {
                                &&& after == between
                                &&& step.action == DerivationAction::Pipeline(request)
                            },
                            Production::Attributes(attributes) => {
                                &&& after == (DerivationState {
                                    derivation_idle: false,
                                    phase: DerivationPhase::Publishing,
                                    ..between
                                })
                                &&& step.action == DerivationAction::Publish(attributes)
                            },
                            Production::Yield => {
                                &&& after == (DerivationState { derivation_idle: true, ..between })
                                &&& step.action == DerivationAction::Done(Ok(()))
                            },
                            Production::Fatal(error) => {
                                &&& after == between
                                &&& step.action == DerivationAction::Done(Err(error))
                            },
                        }
                    }
            },
            DerivationEvent::AttributesSent(sent) => {
                &&& self.phase == DerivationPhase::Publishing
                &&& after == self.at(DerivationPhase::Resting)
                &&& step.metric == None::<Metric>
                &&& step.action == DerivationAction::Done(
                    if sent {
                        Ok(())
                    } else {
                        Err(DerivationError::Sender)
                    },
                )
            },
        }
    }

    /// A state of derivation that rests: idle, and waiting for no signal.
    pub fn new(cfg: RollupConfig) -> (state: DerivationState)
        ensures
            state == (DerivationState {
                cfg,
                derivation_idle: true,
                waiting_for_signal: false,
                phase: DerivationPhase::Resting,
            }),
    {
        DerivationState {
            cfg,
            derivation_idle: true,
            waiting_for_signal: false,
            phase: DerivationPhase::Resting,
        }
    }

    /// Takes a signal that is to be handed to the pipeline, and tells what
    /// to publish for it. The state stays as it is: whether the pipeline
    /// takes the signal does not matter to derivation.
    pub fn signal(&self, signal: &Signal) -> (metric: Option<Metric>)
        ensures
            metric == Self::signal_metric(*signal),
    {
        match signal {
            Signal::Reset { l1_origin, .. } => Some(Metric::L1Origin(l1_origin.number)),
            _ => None,
        }
    }

    /// Tells whether `event` is what derivation waits for.
    pub fn is_awaiting(&self, event: &DerivationEvent) -> (awaited: bool)
        ensures
            awaited == self.awaits(*event),
    {
        match event {
            DerivationEvent::Message { .. } => matches!(self.phase, DerivationPhase::Resting),
            DerivationEvent::Pipeline(event) => match (&self.phase, event) {
                (DerivationPhase::Stepping, PipelineEvent::Stepped { .. }) => true,
                (DerivationPhase::FetchingSystemConfig { .. }, PipelineEvent::SystemConfigFetched { .. }) => true,
                (DerivationPhase::Signalling, PipelineEvent::Signalled(_)) => true,
                (DerivationPhase::RequestingReset, PipelineEvent::ResetRequested(_)) => true,
                (DerivationPhase::TakingNext, PipelineEvent::Next(_)) => true,
                _ => false,
            },
            DerivationEvent::AttributesSent(_) => matches!(self.phase, DerivationPhase::Publishing),
        }
    }

    /// Ends the production because the pipeline has no L1 origin.
    fn fail_without_origin(&mut self) -> (produced: Produced)
        ensures
            old(self).lacks_origin(*final(self), produced),
    {
        self.phase = DerivationPhase::Resting;
        Produced {
            metric: None,
            production: Production::Fatal(DerivationError::MissingOrigin),
        }
    }

    /// Takes a failed step at the safe head `l2_safe_head`.
    fn fail_step(&mut self, l2_safe_head: L2BlockInfo, failure: StepFailure) -> (produced: Produced)
        requires
            old(self).phase == DerivationPhase::Stepping,
        ensures
            old(self).fails_step(l2_safe_head, failure, *final(self), produced),
    {
        match failure {
            StepFailure::Temporary(tag) => {
                if matches!(tag, PipelineErrorTag::NotEnoughData) {
                    Produced { metric: None, production: Production::Request(PipelineRequest::Step) }
                } else {
                    self.phase = DerivationPhase::Resting;
                    Produced { metric: None, production: Production::Yield }
                }
            },
            StepFailure::Reset(reset) => {
                self.phase = DerivationPhase::FetchingSystemConfig { l2_safe_head, reset };
                Produced {
                    metric: None,
                    production: Production::Request(
                        PipelineRequest::FetchSystemConfig { number: l2_safe_head.block_info.number },
                    ),
                }
            },
            StepFailure::Critical(kind) => {
                self.phase = DerivationPhase::Resting;
                Produced {
                    metric: Some(Metric::CriticalError),
                    production: Production::Fatal(DerivationError::Pipeline(kind)),
                }
            },
        }
    }

    /// Takes one step towards the next attributes: `event` is what the last
    /// request led to on the pipeline.
    pub fn produce_next_attributes(&mut self, event: PipelineEvent) -> (produced: Produced)
        requires
            old(self).awaits_pipeline(event),
        ensures
            old(self).produces(event, *final(self), produced),
    {
        match (self.phase, event) {
            (DerivationPhase::Stepping, PipelineEvent::Stepped { l2_safe_head, outcome, origin }) => {
                match outcome {
                    StepOutcome::PreparedAttributes => {
                        self.phase = DerivationPhase::TakingNext;
                        Produced { metric: None, production: Production::Request(PipelineRequest::TakeNext) }
                    },
                    StepOutcome::AdvancedOrigin => match origin {
                        Some(origin) => {
                            self.phase = DerivationPhase::TakingNext;
                            Produced {
                                metric: Some(Metric::L1Origin(origin.number)),
                                production: Production::Request(PipelineRequest::TakeNext),
                            }
                        },
                        None => self.fail_without_origin(),
                    },
                    StepOutcome::OriginAdvanceErr(failure) => self.fail_step(l2_safe_head, failure),
                    StepOutcome::StepFailed(failure) => self.fail_step(l2_safe_head, failure),
                }
            },
            (
                DerivationPhase::FetchingSystemConfig { l2_safe_head, reset },
                PipelineEvent::SystemConfigFetched { fetched, origin },
            ) => {
                match fetched {
                    Err(kind) => {
                        self.phase = DerivationPhase::Resting;
                        Produced { metric: None, production: Production::Fatal(DerivationError::Pipeline(kind)) }
                    },
                    Ok(system_config) => {
                        if matches!(reset, ResetKind::HoloceneActivation) {
                            match origin {
                                Some(l1_origin) => {
                                    self.phase = DerivationPhase::Signalling;
                                    Produced {
                                        metric: None,
                                        production: Production::Request(
                                            PipelineRequest::Signal(
                                                Signal::Activation {
                                                    l2_safe_head,
                                                    l1_origin,
                                                    system_config: Some(system_config),
                                                },
                                            ),
                                        ),
                                    }
                                },
                                None => self.fail_without_origin(),
                            }
                        } else {
                            let metric = match reset {
                                ResetKind::ReorgDetected { .. } => Some(Metric::L1Reorg),
                                _ => None,
                            };
                            if self.cfg.is_interop_active(l2_safe_head.block_info.timestamp) {
                                self.waiting_for_signal = true;
                                self.phase = DerivationPhase::Resting;
                                Produced { metric, production: Production::Yield }
                            } else {
                                self.phase = DerivationPhase::RequestingReset;
                                Produced { metric, production: Production::Request(PipelineRequest::RequestReset) }
                            }
                        }
                    },
                }
            },
            (DerivationPhase::Signalling, PipelineEvent::Signalled(taken)) => {
                match taken {
                    Ok(_) => {
                        self.phase = DerivationPhase::TakingNext;
                        Produced { metric: None, production: Production::Request(PipelineRequest::TakeNext) }
                    },
                    Err(kind) => {
                        self.phase = DerivationPhase::Resting;
                        Produced { metric: None, production: Production::Fatal(DerivationError::Pipeline(kind)) }
                    },
                }
            },
            (DerivationPhase::RequestingReset, PipelineEvent::ResetRequested(sent)) => {
                self.phase = DerivationPhase::Resting;
                if sent {
                    self.waiting_for_signal = true;
                    Produced { metric: None, production: Production::Yield }
                } else {
                    Produced { metric: None, production: Production::Fatal(DerivationError::Sender) }
                }
            },
            (DerivationPhase::TakingNext, PipelineEvent::Next(next)) => {
                match next {
                    Some(attributes) => {
                        self.phase = DerivationPhase::Resting;
                        Produced { metric: None, production: Production::Attributes(attributes) }
                    },
                    None => {
                        self.phase = DerivationPhase::Stepping;
                        Produced { metric: None, production: Production::Request(PipelineRequest::Step) }
                    },
                }
            },
            _ => {
                proof {
                    assert(false);
                }
                Produced { metric: None, production: Production::Yield }
            },
        }
    }

    /// Tells whether a message finds derivation ready to step, and if not,
    /// how the message ends.
    pub fn is_admitting(
        &self,
        msg: InboundDerivationMessage,
        el_sync_complete: bool,
        safe_head_changed: Option<bool>,
        engine_safe_head: &L2BlockInfo,
    ) -> (admitted: Result<bool, DerivationError>)
        ensures
            admitted == self.admits(msg, el_sync_complete, safe_head_changed, *engine_safe_head),
    {
        if !el_sync_complete {
            return Ok(false);
        } else if self.waiting_for_signal {
            return Ok(false);
        }
        if !(self.derivation_idle || matches!(msg, InboundDerivationMessage::SafeHeadUpdated)) {
            match safe_head_changed {
                Some(true) => {},
                Some(false) => {
                    return Ok(false);
                },
                None => {
                    return Err(DerivationError::L2SafeHeadReceiveFailed);
                },
            }
        }
        Ok(!engine_safe_head.block_info.hash.is_zero())
    }

    /// Takes one step: `event` is a message, or what the last action led to,
    /// and the result is what is to be done next.
    pub fn process(&mut self, event: DerivationEvent) -> (step: DerivationStep)
        requires
            old(self).awaits(event),
        ensures
            old(self).steps(event, *final(self), step),
    {
        match event {
            DerivationEvent::Message { msg, el_sync_complete, safe_head_changed, engine_safe_head } => {
                match self.is_admitting(msg, el_sync_complete, safe_head_changed, &engine_safe_head) {
                    Ok(true) => {
                        self.phase = DerivationPhase::Stepping;
                        DerivationStep { metric: None, action: DerivationAction::Pipeline(PipelineRequest::Step) }
                    },
                    Ok(false) => DerivationStep { metric: None, action: DerivationAction::Done(Ok(())) },
                    Err(error) => DerivationStep { metric: None, action: DerivationAction::Done(Err(error)) },
                }
            },
            DerivationEvent::Pipeline(event) => {
                let ghost before = *self;
                let produced = self.produce_next_attributes(event);
                let ghost between = *self;
                let ghost answer = produced;
                let metric = produced.metric;
                let action = match produced.production {
                    Production::Request(request) => DerivationAction::Pipeline(request),
                    Production::Attributes(attributes) => {
                        self.derivation_idle = false;
                        self.phase = DerivationPhase::Publishing;
                        DerivationAction::Publish(attributes)
                    },
                    Production::Yield => {
                        self.derivation_idle = true;
                        DerivationAction::Done(Ok(()))
                    },
                    Production::Fatal(error) => DerivationAction::Done(Err(error)),
                };
                assert(before.produces(event, between, answer));
                DerivationStep { metric, action }
            },
            DerivationEvent::AttributesSent(sent) => {
                self.phase = DerivationPhase::Resting;
                if sent {
                    DerivationStep { metric: None, action: DerivationAction::Done(Ok(())) }
                } else {
                    DerivationStep { metric: None, action: DerivationAction::Done(Err(DerivationError::Sender)) }
                }
            },
        }
    }
}

} // verus!
