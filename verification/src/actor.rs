//! The derivation actor: it owns the derivation state and decides, for
//! whatever wakes it, what derivation does about it.

use vstd::prelude::*;
use crate::attributes::OpAttributesWithParent;
use crate::derivation::{
    DerivationAction, DerivationError, DerivationEvent, DerivationPhase, DerivationState,
    DerivationStep, InboundDerivationMessage, Metric, PipelineEvent, PipelineRequest, Signal,
};
use crate::primitives::L2BlockInfo;

verus! {

/// How many items each channel of the actor holds before a sender waits.
pub const CHANNEL_CAPACITY: usize = 16;

/// The places that the actor listens to, in the order in which it serves
/// them.
#[derive(Clone, Copy, Debug, PartialEq, Eq)]
pub enum Source {
    /// The token that cancels the actor.
    Cancellation,
    /// The channel that brings signals for the pipeline.
    Signals,
    /// The L1 head.
    L1Head,
    /// The L2 safe head of the engine.
    SafeHead,
    /// The notice that the engine has finished its sync.
    ElSync,
}

/// Which of the places have something for the actor.
#[derive(Clone, Copy, Debug, PartialEq, Eq)]
pub struct Readiness {
    pub cancellation: bool,
    pub signals: bool,
    pub l1_head: bool,
    pub safe_head: bool,
    pub el_sync: bool,
}

impl Source {
    /// The place of the source in the order of service, first served first.
    pub open spec fn rank(&self) -> nat {
        match self {
            Source::Cancellation => 1,
            Source::Signals => 2,
            Source::L1Head => 3,
            Source::SafeHead => 4,
            Source::ElSync => 5,
        }
    }
}

impl Readiness {
    /// The source has something for the actor, and the actor listens to it.
    /// It listens to the notice of the engine's sync until that has come.
    pub open spec fn offers(&self, source: Source, el_sync_complete: bool) -> bool {
        match source {
            Source::Cancellation => self.cancellation,
            Source::Signals => self.signals,
            Source::L1Head => self.l1_head,
            Source::SafeHead => self.safe_head,
            Source::ElSync => self.el_sync && !el_sync_complete,
        }
    }

    /// The source that the actor serves: the first in the order of service
    /// that offers something.
    pub open spec fn first(&self, el_sync_complete: bool) -> Option<Source> {
        if self.cancellation {
            Some(Source::Cancellation)
        } else if self.signals {
            Some(Source::Signals)
        } else if self.l1_head {
            Some(Source::L1Head)
        } else if self.safe_head {
            Some(Source::SafeHead)
        } else if self.el_sync && !el_sync_complete {
            Some(Source::ElSync)
        } else {
            None
        }
    }

    /// Picks the source to serve.
    pub fn select(&self, el_sync_complete: bool) -> (source: Option<Source>)
        ensures
            source == self.first(el_sync_complete),
    {
        if self.cancellation {
            Some(Source::Cancellation)
        } else if self.signals {
            Some(Source::Signals)
        } else if self.l1_head {
            Some(Source::L1Head)
        } else if self.safe_head {
            Some(Source::SafeHead)
        } else if self.el_sync && !el_sync_complete {
            Some(Source::ElSync)
        } else {
            None
        }
    }

    /// The source served offers something, and no source that offers
    /// something comes before it; none is served only where none offers
    /// anything.
    pub proof fn lemma_first_has_priority(self, el_sync_complete: bool, other: Source)
        ensures
            match self.first(el_sync_complete) {
                Some(source) => {
                    &&& self.offers(source, el_sync_complete)
                    &&& self.offers(other, el_sync_complete) ==> source.rank() <= other.rank()
                },
                None => !self.offers(other, el_sync_complete),
            },
    {
    }
}

/// What the surroundings of the actor show at one moment.
#[derive(Clone, Copy, Debug, PartialEq, Eq)]
pub struct Surroundings {
    /// Whether the engine has finished its sync.
    pub el_sync_complete: bool,
    /// Whether the L2 safe head has changed since it was last marked as
    /// seen; `None` where it cannot be read any more.
    pub safe_head_changed: Option<bool>,
    /// The L2 safe head of the engine.
    pub engine_safe_head: L2BlockInfo,
}

/// What woke the actor, or what its last action led to.
#[derive(Debug, PartialEq)]
pub enum ActorEvent {
    /// The actor was cancelled.
    Cancelled,
    /// The channel of signals gave a signal, or is closed (`None`).
    SignalReceived(Option<Signal>),
    /// The L1 head changed, or its watch is closed (`open` is `false`).
    L1HeadChanged { open: bool, surroundings: Surroundings },
    /// The L2 safe head changed.
    SafeHeadChanged { surroundings: Surroundings },
    /// The engine finished its sync.
    ElSyncCompleted { surroundings: Surroundings },
    /// Something happened on the pipeline.
    Pipeline(PipelineEvent),
    /// The attributes were handed to their channel (`true`), or the channel
    /// is closed (`false`).
    AttributesSent(bool),
}

/// What the actor is to do next.
#[derive(Debug, PartialEq)]
pub enum ActorAction {
    /// Wait for the next thing to wake the actor.
    Wait,
    /// Hand this signal to the pipeline; whether the pipeline takes it or
    /// not, wait then for the next thing to wake the actor.
    ForwardSignal(Signal),
    /// Do this on the pipeline.
    Pipeline(PipelineRequest),
    /// Mark the L2 safe head as seen, then hand these attributes to the
    /// channel that takes them.
    Publish(OpAttributesWithParent),
    /// Stop, with this outcome.
    Exit(Result<(), DerivationError>),
}

/// One answer of [`DerivationActor::start`].
#[derive(Debug, PartialEq)]
pub struct ActorStep {
    /// What to publish, if anything.
    pub metric: Option<Metric>,
    /// What to do next.
    pub action: ActorAction,
}

/// The actor that runs derivation.
#[derive(Clone, Copy, Debug, PartialEq, Eq)]
pub struct DerivationActor {
    /// The state of derivation.
    pub state: DerivationState,
}

impl DerivationActor {
    /// `event` is what the actor waits for: something that wakes it while
    /// derivation rests, or what derivation waits for in the middle of its
    /// work.
    pub open spec fn awaits(&self, event: ActorEvent) -> bool {
        match event {
            ActorEvent::Pipeline(event) => self.state.awaits(DerivationEvent::Pipeline(event)),
            ActorEvent::AttributesSent(sent) => self.state.awaits(DerivationEvent::AttributesSent(sent)),
            _ => self.state.phase == DerivationPhase::Resting,
        }
    }

    /// What an event means for derivation, where it means anything: a
    /// message with the surroundings of the moment, or what happened in the
    /// middle of its work.
    pub open spec fn derivation_event(event: ActorEvent) -> Option<DerivationEvent> {
        match event {
            ActorEvent::L1HeadChanged { open: true, surroundings } => Some(
                Self::message(InboundDerivationMessage::NewDataAvailable, surroundings),
            ),
            ActorEvent::SafeHeadChanged { surroundings } => Some(
                Self::message(InboundDerivationMessage::SafeHeadUpdated, surroundings),
            ),
            ActorEvent::ElSyncCompleted { surroundings } => Some(
                Self::message(InboundDerivationMessage::NewDataAvailable, surroundings),
            ),
            ActorEvent::Pipeline(event) => Some(DerivationEvent::Pipeline(event)),
            ActorEvent::AttributesSent(sent) => Some(DerivationEvent::AttributesSent(sent)),
            _ => None,
        }
    }

    /// The message `msg` with what the surroundings show.
    pub open spec fn message(msg: InboundDerivationMessage, surroundings: Surroundings) -> DerivationEvent {
        DerivationEvent::Message {
            msg,
            el_sync_complete: surroundings.el_sync_complete,
            safe_head_changed: surroundings.safe_head_changed,
            engine_safe_head: surroundings.engine_safe_head,
        }
    }

    /// What the actor does about an answer of derivation: it goes on with
    /// the work, waits again once a message is dealt with, and stops where
    /// derivation cannot go on.
    pub open spec fn action_for(action: DerivationAction) -> ActorAction {
        match action {
            DerivationAction::Pipeline(request) => ActorAction::Pipeline(request),
            DerivationAction::Publish(attributes) => ActorAction::Publish(attributes),
            DerivationAction::Done(Ok(_)) => ActorAction::Wait,
            DerivationAction::Done(Err(error)) => ActorAction::Exit(Err(error)),
        }
    }

    /// One step of the actor: from the actor `self`, `event` leads to the
    /// actor `after` and to the answer `step`.
    pub open spec fn steps(&self, event: ActorEvent, after: DerivationActor, step: ActorStep) -> bool {
        match event {
            ActorEvent::Cancelled => {
                &&& after == *self
                &&& step == (ActorStep { metric: None, action: ActorAction::Exit(Ok(())) })
            },
            ActorEvent::SignalReceived(None) => {
                &&& after == *self
                &&& step == (ActorStep {
                    metric: None,
                    action: ActorAction::Exit(Err(DerivationError::SignalReceiveFailed)),
                })
            },
            ActorEvent::SignalReceived(Some(signal)) => {
                &&& after.state == (DerivationState { waiting_for_signal: false, ..self.state })
                &&& step == (ActorStep {
                    metric: DerivationState::signal_metric(signal),
                    action: ActorAction::ForwardSignal(signal),
                })
            },
            ActorEvent::L1HeadChanged { open: false, .. } => {
                &&& after == *self
                &&& step == (ActorStep { metric: None, action: ActorAction::Exit(Ok(())) })
            },
            _ => {
                &&& Self::derivation_event(event) matches Some(event)
                &&& exists|answer: DerivationStep|
                    {
                        &&& #[trigger] self.state.steps(event, after.state, answer)
                        &&& step == (ActorStep {
                            metric: answer.metric,
                            action: Self::action_for(answer.action),
                        })
                    }
            },
        }
    }

    /// The attributes that an event brings from the pipeline, if it brings
    /// any.
    pub open spec fn yielded_by(event: ActorEvent) -> Option<OpAttributesWithParent> {
        match event {
            ActorEvent::Pipeline(PipelineEvent::Next(Some(attributes))) => Some(attributes),
            _ => None,
        }
    }

    /// The attributes that an answer of the actor sends out, if it sends
    /// any.
    pub open spec fn published_by(step: ActorStep) -> Option<OpAttributesWithParent> {
        match step.action {
            ActorAction::Publish(attributes) => Some(attributes),
            _ => None,
        }
    }

    /// A run of the actor: each event is one that the actor waits for, and
    /// leads from one actor to the next with the answer beside it.
    pub open spec fn is_run(
        actors: Seq<DerivationActor>,
        events: Seq<ActorEvent>,
        steps: Seq<ActorStep>,
    ) -> bool {
        &&& actors.len() == events.len() + 1
        &&& steps.len() == events.len()
        &&& forall|i: int|
            0 <= i < events.len() ==> {
                &&& (#[trigger] actors[i]).awaits(events[i])
                &&& actors[i].steps(events[i], actors[i + 1], steps[i])
            }
    }

    /// The actor sends out the attributes that the pipeline yields, and no
    /// others: a step publishes attributes exactly when its event brought
    /// them from the pipeline, and then those.
    pub proof fn lemma_publishes_what_the_pipeline_yields(
        self,
        event: ActorEvent,
        after: DerivationActor,
        step: ActorStep,
    )
        requires
            self.steps(event, after, step),
        ensures
            Self::published_by(step) == Self::yielded_by(event),
    {
    }

    /// Over a run of the actor, the attributes leave in the order in which
    /// the pipeline yielded them, each once: the attributes that the steps
    /// publish are, step by step, those that the events brought.
    pub proof fn lemma_attributes_leave_in_order(
        actors: Seq<DerivationActor>,
        events: Seq<ActorEvent>,
        steps: Seq<ActorStep>,
    )
        requires
            Self::is_run(actors, events, steps),
        ensures
            steps.map_values(|step: ActorStep| Self::published_by(step)) == events.map_values(
                |event: ActorEvent| Self::yielded_by(event),
            ),
    {
        let published = steps.map_values(|step: ActorStep| Self::published_by(step));
        let yielded = events.map_values(|event: ActorEvent| Self::yielded_by(event));
        assert forall|i: int| 0 <= i < published.len() implies published[i] == yielded[i] by {
            assert(actors[i].awaits(events[i]));
            actors[i].lemma_publishes_what_the_pipeline_yields(events[i], actors[i + 1], steps[i]);
        }
        assert(published =~= yielded);
    }

    /// Once the engine has finished its sync, a change of the L1 head makes
    /// an idle actor that waits for no signal step the pipeline, provided
    /// the engine has a safe head; attributes that the pipeline then
    /// prepares and yields are published. While the actor waits for a
    /// signal, the same change of the L1 head does nothing.
    pub proof fn lemma_prepared_attributes_are_published(
        self,
        surroundings: Surroundings,
        l2_safe_head: L2BlockInfo,
        origin: Option<crate::primitives::BlockInfo>,
        attributes: OpAttributesWithParent,
        woken: DerivationActor,
        first: ActorStep,
        stepped: DerivationActor,
        second: ActorStep,
        taken: DerivationActor,
        third: ActorStep,
    )
        requires
            self.state.phase == DerivationPhase::Resting,
            self.state.derivation_idle,
            surroundings.el_sync_complete,
            !surroundings.engine_safe_head.block_info.hash.spec_is_zero(),
            self.steps(ActorEvent::L1HeadChanged { open: true, surroundings }, woken, first),
            !self.state.waiting_for_signal ==> {
                &&& woken.steps(
                    ActorEvent::Pipeline(
                        PipelineEvent::Stepped {
                            l2_safe_head,
                            outcome: crate::derivation::StepOutcome::PreparedAttributes,
                            origin,
                        },
                    ),
                    stepped,
                    second,
                )
                &&& stepped.steps(ActorEvent::Pipeline(PipelineEvent::Next(Some(attributes))), taken, third)
            },
        ensures
            self.state.waiting_for_signal ==> woken == self && first.action == ActorAction::Wait,
            !self.state.waiting_for_signal ==> {
                &&& first.action == ActorAction::Pipeline(PipelineRequest::Step)
                &&& second.action == ActorAction::Pipeline(PipelineRequest::TakeNext)
                &&& third.action == ActorAction::Publish(attributes)
                &&& !taken.state.derivation_idle
            },
    {
    }

    /// While the actor waits for a signal no message makes it step; the
    /// signal, when it comes, ends the wait.
    pub proof fn lemma_waits_until_signalled(
        self,
        event: ActorEvent,
        after: DerivationActor,
        step: ActorStep,
    )
        requires
            self.state.phase == DerivationPhase::Resting,
            self.state.waiting_for_signal,
            self.steps(event, after, step),
        ensures
            event matches ActorEvent::SignalReceived(Some(signal)) ==> {
                &&& !after.state.waiting_for_signal
                &&& step.action == ActorAction::ForwardSignal(signal)
            },
            !(event matches ActorEvent::SignalReceived(Some(_))) ==> {
                &&& after == self
                &&& (step.action == ActorAction::Wait || step.action is Exit)
            },
    {
    }

    /// An actor that runs derivation from `state`.
    pub fn new(state: DerivationState) -> (actor: DerivationActor)
        ensures
            actor.state == state,
    {
        DerivationActor { state }
    }

    /// An actor that runs derivation from `state`.
    pub fn build(state: DerivationState) -> (actor: DerivationActor)
        ensures
            actor.state == state,
    {
        Self::new(state)
    }

    /// Tells whether `event` is what the actor waits for.
    pub fn is_awaiting(&self, event: &ActorEvent) -> (awaited: bool)
        ensures
            awaited == self.awaits(*event),
    {
        match event {
            ActorEvent::Pipeline(event) => match (&self.state.phase, event) {
                (DerivationPhase::Stepping, PipelineEvent::Stepped { .. }) => true,
                (DerivationPhase::FetchingSystemConfig { .. }, PipelineEvent::SystemConfigFetched { .. }) => true,
                (DerivationPhase::Signalling, PipelineEvent::Signalled(_)) => true,
                (DerivationPhase::RequestingReset, PipelineEvent::ResetRequested(_)) => true,
                (DerivationPhase::TakingNext, PipelineEvent::Next(_)) => true,
                _ => false,
            },
            ActorEvent::AttributesSent(_) => matches!(self.state.phase, DerivationPhase::Publishing),
            _ => matches!(self.state.phase, DerivationPhase::Resting),
        }
    }

    /// Lets derivation take `event`, and turns its answer into the actor's.
    fn derive(&mut self, event: DerivationEvent) -> (step: ActorStep)
        requires
            old(self).state.awaits(event),
        ensures
            exists|answer: DerivationStep|
                {
                    &&& #[trigger] old(self).state.steps(event, final(self).state, answer)
                    &&& step == (ActorStep { metric: answer.metric, action: Self::action_for(answer.action) })
                },
    {
        let answer = self.state.process(event);
        let ghost given = answer;
        let metric = answer.metric;
        let action = match answer.action {
            DerivationAction::Pipeline(request) => ActorAction::Pipeline(request),
            DerivationAction::Publish(attributes) => ActorAction::Publish(attributes),
            DerivationAction::Done(Ok(_)) => ActorAction::Wait,
            DerivationAction::Done(Err(error)) => ActorAction::Exit(Err(error)),
        };
        assert(old(self).state.steps(event, self.state, given));
        ActorStep { metric, action }
    }

    /// Takes one step: `event` is what woke the actor, or what its last
    /// action led to, and the result is what the actor is to do next.
    pub fn start(&mut self, event: ActorEvent) -> (step: ActorStep)
        requires
            old(self).awaits(event),
        ensures
            old(self).steps(event, *final(self), step),
    {
        match event {
            ActorEvent::Cancelled => ActorStep { metric: None, action: ActorAction::Exit(Ok(())) },
            ActorEvent::SignalReceived(None) => ActorStep {
                metric: None,
                action: ActorAction::Exit(Err(DerivationError::SignalReceiveFailed)),
            },
            ActorEvent::SignalReceived(Some(signal)) => {
                let metric = self.state.signal(&signal);
                self.state.waiting_for_signal = false;
                ActorStep { metric, action: ActorAction::ForwardSignal(signal) }
            },
            ActorEvent::L1HeadChanged { open, surroundings } => {
                if open {
                    self.derive(
                        DerivationEvent::Message {
                            msg: InboundDerivationMessage::NewDataAvailable,
                            el_sync_complete: surroundings.el_sync_complete,
                            safe_head_changed: surroundings.safe_head_changed,
                            engine_safe_head: surroundings.engine_safe_head,
                        },
                    )
                } else {
                    ActorStep { metric: None, action: ActorAction::Exit(Ok(())) }
                }
            },
            ActorEvent::SafeHeadChanged { surroundings } => self.derive(
                DerivationEvent::Message {
                    msg: InboundDerivationMessage::SafeHeadUpdated,
                    el_sync_complete: surroundings.el_sync_complete,
                    safe_head_changed: surroundings.safe_head_changed,
                    engine_safe_head: surroundings.engine_safe_head,
                },
            ),
            ActorEvent::ElSyncCompleted { surroundings } => self.derive(
                DerivationEvent::Message {
                    msg: InboundDerivationMessage::NewDataAvailable,
                    el_sync_complete: surroundings.el_sync_complete,
                    safe_head_changed: surroundings.safe_head_changed,
                    engine_safe_head: surroundings.engine_safe_head,
                },
            ),
            ActorEvent::Pipeline(event) => self.derive(DerivationEvent::Pipeline(event)),
            ActorEvent::AttributesSent(sent) => self.derive(DerivationEvent::AttributesSent(sent)),
        }
    }
}

} // verus!
