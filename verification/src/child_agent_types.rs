//! Requests, results and activity of child agents.

use vstd::prelude::*;
use vstd::string::*;
use crate::agent_continuation::error::{agrees, AgentContinuationError};
use crate::agent_continuation::ids::{
    fresh_uuid_v7, is_uuid_v7, AgentAttemptId, AgentContinuationId, AgentPromptId, Sha256Digest,
};
use crate::agent_continuation::record::AgentCheckpoint;
use crate::agent_registry::UsageTotals;
use crate::budget::BudgetUsage;
use crate::provider_types::clone_text;
use crate::runtime_types::RunStatus;
use crate::text::opt_chars;

verus! {

/// The digest of what a child runs under: model, policy, tools and workspace.
#[derive(Clone, Copy, Debug)]
pub struct ChildAgentCompatibilityIdentity {
    digest: Sha256Digest,
}

impl ChildAgentCompatibilityIdentity {
    pub closed spec fn wrapped(self) -> Sha256Digest {
        self.digest
    }

    pub fn new(digest: Sha256Digest) -> (r: Self)
        ensures
            r.wrapped() == digest,
    {
        ChildAgentCompatibilityIdentity { digest }
    }

    pub fn digest(self) -> (r: Sha256Digest)
        ensures
            r == self.wrapped(),
    {
        self.digest
    }
}

/// What a child loop needs to go on from a checkpoint whose digest was verified.
#[derive(Debug)]
pub struct ChildAgentContinuationStart {
    continuation_id: AgentContinuationId,
    attempt_id: AgentAttemptId,
    prompt_id: AgentPromptId,
    checkpoint: AgentCheckpoint,
    compatibility: ChildAgentCompatibilityIdentity,
}

impl ChildAgentContinuationStart {
    pub closed spec fn continuation(&self) -> AgentContinuationId {
        self.continuation_id
    }

    pub closed spec fn attempt(&self) -> AgentAttemptId {
        self.attempt_id
    }

    pub closed spec fn prompt(&self) -> AgentPromptId {
        self.prompt_id
    }

    pub closed spec fn saved(&self) -> AgentCheckpoint {
        self.checkpoint
    }

    pub closed spec fn identity(&self) -> ChildAgentCompatibilityIdentity {
        self.compatibility
    }

    /// Refuses a checkpoint whose digest does not match.
    pub fn new(
        continuation_id: AgentContinuationId,
        attempt_id: AgentAttemptId,
        prompt_id: AgentPromptId,
        checkpoint: AgentCheckpoint,
        compatibility: ChildAgentCompatibilityIdentity,
    ) -> (r: Result<Self, AgentContinuationError>)
        ensures
            agrees(r, checkpoint@.digest_error()),
            r matches Ok(start) ==> start.continuation() == continuation_id && start.attempt()
                == attempt_id && start.prompt() == prompt_id && start.saved() == checkpoint
                && start.identity() == compatibility,
    {
        match checkpoint.verify_digest() {
            Ok(_) => {},
            Err(e) => {
                return Err(e);
            },
        }
        Ok(
            ChildAgentContinuationStart {
                continuation_id,
                attempt_id,
                prompt_id,
                checkpoint,
                compatibility,
            },
        )
    }

    pub fn continuation_id(&self) -> (r: &AgentContinuationId)
        ensures
            *r == self.continuation(),
    {
        &self.continuation_id
    }

    pub fn attempt_id(&self) -> (r: &AgentAttemptId)
        ensures
            *r == self.attempt(),
    {
        &self.attempt_id
    }

    pub fn prompt_id(&self) -> (r: &AgentPromptId)
        ensures
            *r == self.prompt(),
    {
        &self.prompt_id
    }

    pub fn checkpoint(&self) -> (r: &AgentCheckpoint)
        ensures
            *r == self.saved(),
    {
        &self.checkpoint
    }

    pub fn compatibility(&self) -> (r: ChildAgentCompatibilityIdentity)
        ensures
            r == self.identity(),
    {
        self.compatibility
    }
}

/// The kind of a child agent: the general role, another built-in role by its
/// name, or a custom agent by its name.
#[derive(Debug)]
pub enum SubagentType {
    General,
    Role(String),
    Custom(String),
}

impl SubagentType {
    pub fn duplicate(&self) -> (r: Self)
        ensures
            r == *self,
    {
        match self {
            SubagentType::General => SubagentType::General,
            SubagentType::Role(name) => SubagentType::Role(name.clone()),
            SubagentType::Custom(name) => SubagentType::Custom(name.clone()),
        }
    }
}

/// A request to run a child agent.
#[derive(Debug)]
pub struct ChildAgentRequest {
    pub prompt: String,
    pub subagent_type: SubagentType,
    pub model: Option<String>,
    pub depth: u32,
    pub emit_deltas: bool,
    pub allowed_tools: Option<Vec<String>>,
    pub tool_policy_label: Option<String>,
    /// The child takes part in a workflow.
    pub workflow_ipc: bool,
    pub continuation: Option<ChildAgentContinuationStart>,
}

impl ChildAgentRequest {
    /// A fresh request, outside any workflow, with no tool ceiling of its own.
    pub fn new(
        prompt: String,
        subagent_type: SubagentType,
        model: Option<String>,
        depth: u32,
        emit_deltas: bool,
    ) -> (r: Self)
        ensures
            r == (ChildAgentRequest {
                prompt,
                subagent_type,
                model,
                depth,
                emit_deltas,
                allowed_tools: None,
                tool_policy_label: None,
                workflow_ipc: false,
                continuation: None,
            }),
    {
        ChildAgentRequest {
            prompt,
            subagent_type,
            model,
            depth,
            emit_deltas,
            allowed_tools: None,
            tool_policy_label: None,
            workflow_ipc: false,
            continuation: None,
        }
    }
}

/// How a child agent ended. The receipt says what budget it consumed, where its
/// loop owns a budget.
#[derive(Debug)]
pub struct ChildAgentResult {
    pub status: RunStatus,
    pub final_message: Option<String>,
    pub error: Option<String>,
    pub budget_usage: Option<BudgetUsage>,
}

pub ghost struct ChildAgentResultView {
    pub status: RunStatus,
    pub final_message: Option<Seq<char>>,
    pub error: Option<Seq<char>>,
    pub budget_usage: Option<BudgetUsage>,
}

impl View for ChildAgentResult {
    type V = ChildAgentResultView;

    open spec fn view(&self) -> ChildAgentResultView {
        ChildAgentResultView {
            status: self.status,
            final_message: opt_chars(self.final_message),
            error: opt_chars(self.error),
            budget_usage: self.budget_usage,
        }
    }
}

/// A failure without a receipt.
pub open spec fn failure(error: Seq<char>) -> ChildAgentResultView {
    ChildAgentResultView {
        status: RunStatus::Failed,
        final_message: None,
        error: Some(error),
        budget_usage: None,
    }
}

impl ChildAgentResult {
    pub fn failed(error: String) -> (r: Self)
        ensures
            r@ == failure(error@),
    {
        ChildAgentResult {
            status: RunStatus::Failed,
            final_message: None,
            error: Some(error),
            budget_usage: None,
        }
    }
}

/// Something that a child agent does.
#[derive(Debug)]
#[allow(inconsistent_fields)]
pub enum ChildAgentActivity {
    TurnStarted { turn: u32 },
    ToolStarted { call_id: String, name: String, target: Option<String> },
    ToolCompleted { call_id: String, name: String, status: RunStatus },
    Streaming,
    Usage(UsageTotals),
}

/// Who owns a child's activity stream.
#[derive(Debug)]
#[allow(inconsistent_fields)]
pub enum SubagentActivityOwner {
    Generation { operation_id: String },
    DetachedTask { task_id: String, task_revision: u64, authority_digest: Sha256Digest },
}

impl SubagentActivityOwner {
    pub fn duplicate(&self) -> (r: Self)
        ensures
            r == *self,
    {
        match self {
            SubagentActivityOwner::Generation { operation_id } => SubagentActivityOwner::Generation {
                operation_id: operation_id.clone(),
            },
            SubagentActivityOwner::DetachedTask { task_id, task_revision, authority_digest } => {
                SubagentActivityOwner::DetachedTask {
                    task_id: task_id.clone(),
                    task_revision: *task_revision,
                    authority_digest: *authority_digest,
                }
            },
        }
    }
}

#[derive(Clone, Copy, Debug, PartialEq, Eq, Structural)]
pub enum SurfaceSubagentPhase {
    Thinking,
}

#[derive(Clone, Copy, Debug, PartialEq, Eq, Structural)]
pub enum SurfaceToolTerminalStatus {
    Success,
    Failed,
    Cancelled,
}

#[derive(Clone, Copy, Debug, PartialEq, Eq, Structural)]
pub enum SurfaceSubagentTerminalStatus {
    Completed,
    Failed,
    Cancelled,
}

/// The batch of children that one was started in.
#[derive(Debug)]
pub struct SubagentBatch {
    pub batch_id: String,
    pub batch_size: u32,
}

impl SubagentBatch {
    pub fn duplicate(&self) -> (r: Self)
        ensures
            r == *self,
    {
        SubagentBatch { batch_id: self.batch_id.clone(), batch_size: self.batch_size }
    }
}

#[derive(Debug)]
#[allow(inconsistent_fields)]
pub enum SubagentActivityPayload {
    Started { description: String, batch: Option<SubagentBatch> },
    ChildThreadBound { thread_id: String },
    PhaseChanged { phase: SurfaceSubagentPhase, turn: Option<u32> },
    ToolStarted { call_id: String, name: String, target: Option<String> },
    ToolCompleted {
        call_id: String,
        status: SurfaceToolTerminalStatus,
        summary: Option<String>,
    },
    Usage { totals: UsageTotals },
    CheckpointPublished { checkpoint_revision: u64 },
    Completed {
        status: SurfaceSubagentTerminalStatus,
        output: Option<String>,
        error: Option<String>,
        usage: Option<UsageTotals>,
    },
}

impl SubagentActivityPayload {
    pub fn duplicate(&self) -> (r: Self)
        ensures
            r == *self,
    {
        match self {
            SubagentActivityPayload::Started { description, batch } => {
                SubagentActivityPayload::Started {
                    description: description.clone(),
                    batch: match batch {
                        Some(batch) => Some(batch.duplicate()),
                        None => None,
                    },
                }
            },
            SubagentActivityPayload::ChildThreadBound { thread_id } => {
                SubagentActivityPayload::ChildThreadBound { thread_id: thread_id.clone() }
            },
            SubagentActivityPayload::PhaseChanged { phase, turn } => {
                SubagentActivityPayload::PhaseChanged { phase: *phase, turn: *turn }
            },
            SubagentActivityPayload::ToolStarted { call_id, name, target } => {
                SubagentActivityPayload::ToolStarted {
                    call_id: call_id.clone(),
                    name: name.clone(),
                    target: clone_text(target),
                }
            },
            SubagentActivityPayload::ToolCompleted { call_id, status, summary } => {
                SubagentActivityPayload::ToolCompleted {
                    call_id: call_id.clone(),
                    status: *status,
                    summary: clone_text(summary),
                }
            },
            SubagentActivityPayload::Usage { totals } => SubagentActivityPayload::Usage {
                totals: *totals,
            },
            SubagentActivityPayload::CheckpointPublished { checkpoint_revision } => {
                SubagentActivityPayload::CheckpointPublished {
                    checkpoint_revision: *checkpoint_revision,
                }
            },
            SubagentActivityPayload::Completed { status, output, error, usage } => {
                SubagentActivityPayload::Completed {
                    status: *status,
                    output: clone_text(output),
                    error: clone_text(error),
                    usage: *usage,
                }
            },
        }
    }
}

/// One event of a child's activity stream. Its digest covers all of these
/// fields and is computed where they are serialized.
#[derive(Debug)]
pub struct SubagentActivityEvent {
    pub schema_version: u16,
    /// Assigned before the first delivery and kept by every retry.
    pub surface_commit_id: String,
    pub task_id: String,
    pub subagent_id: String,
    pub attempt_id: AgentAttemptId,
    pub source_sequence: u64,
    pub occurred_at: i64,
    pub owner: SubagentActivityOwner,
    pub payload: SubagentActivityPayload,
}

pub const SUBAGENT_ACTIVITY_SCHEMA_VERSION: u16 = 1;

impl SubagentActivityEvent {
    /// An event under a fresh commit identity.
    pub fn new(
        identity: &SubagentActivityIdentity,
        source_sequence: u64,
        occurred_at: i64,
        payload: SubagentActivityPayload,
    ) -> (r: Self)
        ensures
            is_uuid_v7(r.surface_commit_id@),
            r == (SubagentActivityEvent {
                surface_commit_id: r.surface_commit_id,
                ..identity.event(source_sequence, occurred_at, payload)
            }),
    {
        let surface_commit_id = fresh_uuid_v7();
        Self::with_commit_id(surface_commit_id, identity, source_sequence, occurred_at, payload)
    }

    pub fn with_commit_id(
        surface_commit_id: String,
        identity: &SubagentActivityIdentity,
        source_sequence: u64,
        occurred_at: i64,
        payload: SubagentActivityPayload,
    ) -> (r: Self)
        ensures
            r == (SubagentActivityEvent {
                surface_commit_id,
                ..identity.event(source_sequence, occurred_at, payload)
            }),
    {
        SubagentActivityEvent {
            schema_version: SUBAGENT_ACTIVITY_SCHEMA_VERSION,
            surface_commit_id,
            task_id: identity.task_id.clone(),
            subagent_id: identity.subagent_id.clone(),
            attempt_id: identity.attempt_id.duplicate(),
            source_sequence,
            occurred_at,
            owner: identity.owner.duplicate(),
            payload,
        }
    }

    pub fn duplicate(&self) -> (r: Self)
        ensures
            r == *self,
    {
        SubagentActivityEvent {
            schema_version: self.schema_version,
            surface_commit_id: self.surface_commit_id.clone(),
            task_id: self.task_id.clone(),
            subagent_id: self.subagent_id.clone(),
            attempt_id: self.attempt_id.duplicate(),
            source_sequence: self.source_sequence,
            occurred_at: self.occurred_at,
            owner: self.owner.duplicate(),
            payload: self.payload.duplicate(),
        }
    }
}

/// Whose activity a stream tells.
#[derive(Debug)]
pub struct SubagentActivityIdentity {
    pub task_id: String,
    pub subagent_id: String,
    pub attempt_id: AgentAttemptId,
    pub owner: SubagentActivityOwner,
}

impl SubagentActivityIdentity {
    /// The event of this stream with the given facts, its commit identity aside.
    pub open spec fn event(
        &self,
        source_sequence: u64,
        occurred_at: i64,
        payload: SubagentActivityPayload,
    ) -> SubagentActivityEvent {
        SubagentActivityEvent {
            schema_version: SUBAGENT_ACTIVITY_SCHEMA_VERSION,
            surface_commit_id: self.task_id,
            task_id: self.task_id,
            subagent_id: self.subagent_id,
            attempt_id: self.attempt_id,
            source_sequence,
            occurred_at,
            owner: self.owner,
            payload,
        }
    }
}

/// What the digest of an event covers, in this order.
#[derive(Debug)]
pub struct ActivityDigestInput<'a> {
    pub schema_version: u16,
    pub surface_commit_id: &'a String,
    pub task_id: &'a String,
    pub subagent_id: &'a String,
    pub attempt_id: &'a AgentAttemptId,
    pub source_sequence: u64,
    pub occurred_at: i64,
    pub owner: &'a SubagentActivityOwner,
    pub payload: &'a SubagentActivityPayload,
}

/// What the digest of an event is taken of: all that the event says.
pub fn activity_digest_input(event: &SubagentActivityEvent) -> (r: ActivityDigestInput<'_>)
    ensures
        covers(r, *event),
{
    ActivityDigestInput {
        schema_version: event.schema_version,
        surface_commit_id: &event.surface_commit_id,
        task_id: &event.task_id,
        subagent_id: &event.subagent_id,
        attempt_id: &event.attempt_id,
        source_sequence: event.source_sequence,
        occurred_at: event.occurred_at,
        owner: &event.owner,
        payload: &event.payload,
    }
}

/// An input holds every field of an event.
pub open spec fn covers(input: ActivityDigestInput<'_>, event: SubagentActivityEvent) -> bool {
    &&& input.schema_version == event.schema_version
    &&& *input.surface_commit_id == event.surface_commit_id
    &&& *input.task_id == event.task_id
    &&& *input.subagent_id == event.subagent_id
    &&& *input.attempt_id == event.attempt_id
    &&& input.source_sequence == event.source_sequence
    &&& input.occurred_at == event.occurred_at
    &&& *input.owner == event.owner
    &&& *input.payload == event.payload
}

/// The digest leaves nothing out: events with the same input are the same.
pub proof fn digests_cover_the_whole_event(
    input: ActivityDigestInput<'_>,
    one: SubagentActivityEvent,
    other: SubagentActivityEvent,
)
    requires
        covers(input, one),
        covers(input, other),
    ensures
        one == other,
{
}

/// An event with the digest of its fields, as it is delivered.
#[derive(Debug)]
pub struct SealedActivityEvent {
    pub event: SubagentActivityEvent,
    pub digest: Sha256Digest,
}

impl SealedActivityEvent {
    /// The digest is the one that was made anew of the event.
    pub open spec fn verifies(self, computed: Sha256Digest) -> bool {
        self.digest == computed
    }

    /// Seals an event with the digest of its fields.
    pub fn seal(event: SubagentActivityEvent, digest: Sha256Digest) -> (r: Self)
        ensures
            r == (SealedActivityEvent { event, digest }),
            r.verifies(digest),
    {
        SealedActivityEvent { event, digest }
    }

    /// Whether the event still has the digest that was made anew of its fields.
    pub fn verify_digest(&self, computed: Sha256Digest) -> (r: bool)
        ensures
            r == self.verifies(computed),
    {
        self.digest.same(&computed)
    }
}

/// How long a streaming activity holds further ones back, in milliseconds.
pub const STREAMING_ACTIVITY_INTERVAL_MS: u64 = 250;

/// A streaming activity at `now` comes too soon after the last one.
pub open spec fn throttled(last: Option<u64>, now: u64) -> bool {
    match last {
        Some(last) => now < last || now - last < STREAMING_ACTIVITY_INTERVAL_MS,
        None => false,
    }
}

/// Lets streaming activities through at a limited rate.
#[derive(Clone, Copy, Debug, PartialEq, Eq, Structural)]
pub struct StreamingThrottle {
    pub last: Option<u64>,
}

impl StreamingThrottle {
    pub fn new() -> (r: Self)
        ensures
            r.last is None,
    {
        StreamingThrottle { last: None }
    }

    /// Whether an activity is to be emitted now. Only streaming activities are
    /// held back, and only an emitted one restarts the interval.
    pub fn lets_through(&mut self, activity: &ChildAgentActivity, now_ms: u64) -> (r: bool)
        ensures
            r == (!(activity is Streaming) || !throttled(old(self).last, now_ms)),
            final(self).last == (if activity is Streaming && r {
                Some(now_ms)
            } else {
                old(self).last
            }),
    {
        match activity {
            ChildAgentActivity::Streaming => {
                if let Some(last) = self.last {
                    if now_ms < last || now_ms - last < STREAMING_ACTIVITY_INTERVAL_MS {
                        return false;
                    }
                }
                self.last = Some(now_ms);
                true
            },
            _ => true,
        }
    }
}

/// The terminal status that a tool's run status shows.
pub open spec fn tool_terminal_status(status: RunStatus) -> SurfaceToolTerminalStatus {
    match status {
        RunStatus::Success => SurfaceToolTerminalStatus::Success,
        RunStatus::Cancelled => SurfaceToolTerminalStatus::Cancelled,
        _ => SurfaceToolTerminalStatus::Failed,
    }
}

/// The payload that tells an activity.
pub open spec fn activity_payload(activity: ChildAgentActivity) -> SubagentActivityPayload {
    match activity {
        ChildAgentActivity::TurnStarted { turn } => SubagentActivityPayload::PhaseChanged {
            phase: SurfaceSubagentPhase::Thinking,
            turn: Some(turn),
        },
        ChildAgentActivity::Streaming => SubagentActivityPayload::PhaseChanged {
            phase: SurfaceSubagentPhase::Thinking,
            turn: None,
        },
        ChildAgentActivity::ToolStarted { call_id, name, target } => {
            SubagentActivityPayload::ToolStarted { call_id, name, target }
        },
        ChildAgentActivity::ToolCompleted { call_id, name, status } => {
            SubagentActivityPayload::ToolCompleted {
                call_id,
                status: tool_terminal_status(status),
                summary: None,
            }
        },
        ChildAgentActivity::Usage(totals) => SubagentActivityPayload::Usage { totals },
    }
}

/// Numbers the events of one stream and keeps an undelivered one, so that a
/// retry delivers the very same event.
#[derive(Debug)]
pub struct ChildAgentActivityEmitter {
    pub identity: SubagentActivityIdentity,
    pub next_sequence: u64,
    pub pending: Option<SubagentActivityEvent>,
    pub throttle: StreamingThrottle,
}

/// Why an event did not get through.
#[derive(Debug)]
pub enum ActivityDeliveryError<E> {
    Sink(E),
    SequenceOverflow,
}

impl<E> ActivityDeliveryError<E> {
    /// The message of a failure that is not the sink's.
    pub fn own_message(&self) -> (r: Option<&'static str>)
        ensures
            match *self {
                ActivityDeliveryError::Sink(_) => r is None,
                ActivityDeliveryError::SequenceOverflow => r matches Some(m) && m@
                    == "child activity source sequence overflow"@,
            },
    {
        match self {
            ActivityDeliveryError::Sink(_) => None,
            ActivityDeliveryError::SequenceOverflow => Some(
                "child activity source sequence overflow",
            ),
        }
    }
}

impl ChildAgentActivityEmitter {
    pub fn new(identity: SubagentActivityIdentity) -> (r: Self)
        ensures
            r.identity == identity,
            r.next_sequence == 1,
            r.pending is None,
            r.throttle.last is None,
    {
        ChildAgentActivityEmitter {
            identity,
            next_sequence: 1,
            pending: None,
            throttle: StreamingThrottle::new(),
        }
    }

    /// The event to deliver next: the undelivered one where there is one,
    /// otherwise a new one with the payload.
    pub fn publish_payload(&mut self, payload: SubagentActivityPayload, occurred_at: i64) -> (r:
        SubagentActivityEvent)
        ensures
            handed_out(*old(self), payload, occurred_at, r),
            *final(self) == (ChildAgentActivityEmitter { pending: Some(r), ..*old(self) }),
    {
        let pending = self.pending.take();
        let event = match pending {
            Some(event) => event,
            None => SubagentActivityEvent::new(
                &self.identity,
                self.next_sequence,
                occurred_at,
                payload,
            ),
        };
        let delivery = event.duplicate();
        self.pending = Some(event);
        delivery
    }

    /// Takes note of what came of a delivery. After a failure the event stays,
    /// and its number is not used for another.
    pub fn delivered<E>(&mut self, result: Result<(), E>) -> (r: Result<
        (),
        ActivityDeliveryError<E>,
    >)
        ensures
            match result {
                Err(e) => r == Err::<(), _>(ActivityDeliveryError::Sink(e)) && *final(self) == *old(
                    self,
                ),
                Ok(_) => if old(self).next_sequence == u64::MAX {
                    r == Err::<(), _>(ActivityDeliveryError::<E>::SequenceOverflow) && *final(self)
                        == *old(self)
                } else {
                    r is Ok && *final(self) == (ChildAgentActivityEmitter {
                        next_sequence: (old(self).next_sequence + 1) as u64,
                        pending: None,
                        ..*old(self)
                    })
                },
            },
    {
        match result {
            Err(e) => Err(ActivityDeliveryError::Sink(e)),
            Ok(_) => {
                if self.next_sequence == u64::MAX {
                    return Err(ActivityDeliveryError::SequenceOverflow);
                }
                self.next_sequence = self.next_sequence + 1;
                self.pending = None;
                Ok(())
            },
        }
    }

    pub fn payload_for(activity: ChildAgentActivity) -> (r: SubagentActivityPayload)
        ensures
            r == activity_payload(activity),
    {
        match activity {
            ChildAgentActivity::TurnStarted { turn } => SubagentActivityPayload::PhaseChanged {
                phase: SurfaceSubagentPhase::Thinking,
                turn: Some(turn),
            },
            ChildAgentActivity::Streaming => SubagentActivityPayload::PhaseChanged {
                phase: SurfaceSubagentPhase::Thinking,
                turn: None,
            },
            ChildAgentActivity::ToolStarted { call_id, name, target } => {
                SubagentActivityPayload::ToolStarted { call_id, name, target }
            },
            ChildAgentActivity::ToolCompleted { call_id, name: _, status } => {
                SubagentActivityPayload::ToolCompleted {
                    call_id,
                    status: match status {
                        RunStatus::Success => SurfaceToolTerminalStatus::Success,
                        RunStatus::Cancelled => SurfaceToolTerminalStatus::Cancelled,
                        RunStatus::Failed => SurfaceToolTerminalStatus::Failed,
                        RunStatus::ApprovalRequired => SurfaceToolTerminalStatus::Failed,
                        RunStatus::VerificationFailed => SurfaceToolTerminalStatus::Failed,
                    },
                    summary: None,
                }
            },
            ChildAgentActivity::Usage(totals) => SubagentActivityPayload::Usage { totals },
        }
    }

    /// The event that tells an activity, unless the activity is held back.
    pub fn publish_activity(
        &mut self,
        activity: ChildAgentActivity,
        now_ms: u64,
        occurred_at: i64,
    ) -> (r: Option<SubagentActivityEvent>)
        ensures
            match r {
                None => activity is Streaming && throttled(old(self).throttle.last, now_ms)
                    && *final(self) == *old(self),
                Some(event) => {
                    &&& !(activity is Streaming && throttled(old(self).throttle.last, now_ms))
                    &&& final(self).throttle.last == (if activity is Streaming {
                        Some(now_ms)
                    } else {
                        old(self).throttle.last
                    })
                    &&& *final(self) == (ChildAgentActivityEmitter {
                        pending: Some(event),
                        throttle: final(self).throttle,
                        ..*old(self)
                    })
                    &&& handed_out(*old(self), activity_payload(activity), occurred_at, event)
                },
            },
    {
        if !self.throttle.lets_through(&activity, now_ms) {
            return None;
        }
        Some(self.publish_payload(Self::payload_for(activity), occurred_at))
    }
}

/// What an emitter keeps: an undelivered event bears the number that comes next.
pub open spec fn in_step(emitter: ChildAgentActivityEmitter) -> bool {
    emitter.pending is Some ==> emitter.pending->0.source_sequence == emitter.next_sequence
}

/// `event` is what an emitter hands out for a payload: the undelivered event
/// where there is one, otherwise a new one.
pub open spec fn handed_out(
    emitter: ChildAgentActivityEmitter,
    payload: SubagentActivityPayload,
    occurred_at: i64,
    event: SubagentActivityEvent,
) -> bool {
    match emitter.pending {
        Some(pending) => event == pending,
        None => is_uuid_v7(event.surface_commit_id@) && event == (SubagentActivityEvent {
            surface_commit_id: event.surface_commit_id,
            ..emitter.identity.event(emitter.next_sequence, occurred_at, payload)
        }),
    }
}

/// Numbers follow each other without gaps: every event that an emitter in step
/// hands out bears its next number, and a delivery moves that number on by one.
pub proof fn numbers_are_gapless(
    before: ChildAgentActivityEmitter,
    payload: SubagentActivityPayload,
    occurred_at: i64,
    sent: SubagentActivityEvent,
    delivered: ChildAgentActivityEmitter,
)
    requires
        in_step(before),
        before.next_sequence < u64::MAX,
        handed_out(before, payload, occurred_at, sent),
        delivered == (ChildAgentActivityEmitter {
            next_sequence: (before.next_sequence + 1) as u64,
            pending: None,
            ..before
        }),
    ensures
        sent.source_sequence == before.next_sequence,
        in_step(ChildAgentActivityEmitter { pending: Some(sent), ..before }),
        in_step(delivered),
        delivered.next_sequence == sent.source_sequence + 1,
{
}

/// An event that was not delivered is handed out again as it was, whatever
/// payload comes next: a retry bears the same identity, number, time and
/// payload, and so the same digest, however that is made of an event.
pub proof fn undelivered_events_are_repeated(
    before: ChildAgentActivityEmitter,
    payload: SubagentActivityPayload,
    occurred_at: i64,
    sent: SubagentActivityEvent,
    later_payload: SubagentActivityPayload,
    later: i64,
    resent: SubagentActivityEvent,
    digest_of: spec_fn(SubagentActivityEvent) -> Sha256Digest,
)
    requires
        handed_out(before, payload, occurred_at, sent),
        handed_out(
            ChildAgentActivityEmitter { pending: Some(sent), ..before },
            later_payload,
            later,
            resent,
        ),
    ensures
        resent == sent,
        digest_of(resent) == digest_of(sent),
{
}

/// An event that was sealed with its digest verifies, and one that was sealed
/// with another does not.
pub proof fn sealed_events_verify(
    event: SubagentActivityEvent,
    digest: Sha256Digest,
    digest_of: spec_fn(SubagentActivityEvent) -> Sha256Digest,
)
    ensures
        (SealedActivityEvent { event, digest }).verifies(digest_of(event)) <==> digest
            == digest_of(event),
{
}

/// A failure is a failure: it has its error, and neither a message nor a receipt.
pub proof fn failures_carry_their_error(error: Seq<char>)
    ensures
        failure(error).status == RunStatus::Failed,
        failure(error).error == Some(error),
        failure(error).final_message is None,
        failure(error).budget_usage is None,
{
}

/// An activity is shown as what it is: a call by its own identity, its end by its
/// own status, a turn by its number, and usage by its totals.
pub proof fn activities_are_shown_as_they_are(activity: ChildAgentActivity)
    ensures
        activity matches ChildAgentActivity::TurnStarted { turn } ==> (activity_payload(activity)
            matches SubagentActivityPayload::PhaseChanged { turn: shown, .. } && shown == Some(
            turn,
        )),
        activity is Streaming ==> (activity_payload(activity)
            matches SubagentActivityPayload::PhaseChanged { turn: shown, .. } && shown is None),
        activity matches ChildAgentActivity::ToolStarted { call_id, name, target }
            ==> activity_payload(activity) == (SubagentActivityPayload::ToolStarted {
            call_id,
            name,
            target,
        }),
        activity matches ChildAgentActivity::ToolCompleted { call_id, status, .. } ==> (
        activity_payload(activity) matches SubagentActivityPayload::ToolCompleted {
            call_id: shown,
            status: ended,
            ..
        } && shown == call_id && (ended == SurfaceToolTerminalStatus::Success <==> status
            == RunStatus::Success) && (ended == SurfaceToolTerminalStatus::Cancelled <==> status
            == RunStatus::Cancelled)),
        activity matches ChildAgentActivity::Usage(totals) ==> activity_payload(activity) == (
        SubagentActivityPayload::Usage { totals }),
{
}

/// Streaming is reported at most once per interval of a quarter of a second, and
/// always again after it.
pub proof fn streaming_is_reported_once_per_interval(last: u64, now: u64)
    ensures
        !throttled(None, now),
        now >= last + 250 ==> !throttled(Some(last), now),
        now < last + 250 ==> throttled(Some(last), now),
{
}

/// An event belongs to the stream of its child: it carries the child's identity,
/// the next number, the time, and what it is about; what was not delivered is
/// handed out again instead.
pub proof fn events_belong_to_their_stream(
    emitter: ChildAgentActivityEmitter,
    payload: SubagentActivityPayload,
    occurred_at: i64,
    event: SubagentActivityEvent,
)
    requires
        handed_out(emitter, payload, occurred_at, event),
    ensures
        emitter.pending matches Some(pending) ==> event == pending,
        emitter.pending is None ==> {
            &&& event.task_id == emitter.identity.task_id
            &&& event.subagent_id == emitter.identity.subagent_id
            &&& event.attempt_id == emitter.identity.attempt_id
            &&& event.owner == emitter.identity.owner
            &&& event.source_sequence == emitter.next_sequence
            &&& event.occurred_at == occurred_at
            &&& event.payload == payload
            &&& event.schema_version == SUBAGENT_ACTIVITY_SCHEMA_VERSION
        },
{
}

} // verus!
