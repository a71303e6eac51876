//! Continuation records and the facts derived from them.

use vstd::prelude::*;
use crate::agent_continuation::error::{
    agrees, AgentContinuationError, AgentContinuationErrorView,
};
use crate::agent_continuation::ids::{
    AgentAttemptId, AgentCheckpointId, AgentContinuationId, AgentPromptId, ContinuationRevision,
    Sha256Digest,
};
use crate::agent_continuation::snapshot::{ChildConversationSnapshot, SnapshotView};
use crate::agent_continuation::status::{AttemptState, ContinuationStatus};
use crate::budget::BudgetUsage;
use crate::conversation::{boundary_view, ToolBoundary, ToolBoundaryView};
use crate::text::{clone_opt_text, opt_chars, same_opt_text};

verus! {

/// Schema version of continuation records.
pub const AGENT_CONTINUATION_SCHEMA_VERSION: u32 = 1;

/// Isolation policy of a child agent.
#[derive(Clone, Copy, Debug, PartialEq, Eq, Structural)]
pub enum SubagentIsolation {
    /// The child works in the parent's working directory.
    Shared,
    /// The child works in a worktree of its own.
    Worktree,
}

/// A worktree that a child agent may be resumed in.
#[derive(Debug)]
pub struct WorktreeBinding {
    pub repo_root: String,
    pub path: String,
}

pub ghost struct WorktreeView {
    pub repo_root: Seq<char>,
    pub path: Seq<char>,
}

impl View for WorktreeBinding {
    type V = WorktreeView;

    open spec fn view(&self) -> WorktreeView {
        WorktreeView { repo_root: self.repo_root@, path: self.path@ }
    }
}

pub open spec fn worktree_view(worktree: Option<WorktreeBinding>) -> Option<WorktreeView> {
    match worktree {
        Some(w) => Some(w@),
        None => None,
    }
}

pub fn clone_worktree(worktree: &Option<WorktreeBinding>) -> (r: Option<WorktreeBinding>)
    ensures
        worktree_view(r) == worktree_view(*worktree),
{
    match worktree {
        Some(w) => Some(WorktreeBinding { repo_root: w.repo_root.clone(), path: w.path.clone() }),
        None => None,
    }
}

pub fn same_worktree(a: &Option<WorktreeBinding>, b: &Option<WorktreeBinding>) -> (r: bool)
    ensures
        r == (worktree_view(*a) == worktree_view(*b)),
{
    match (a, b) {
        (Some(x), Some(y)) => x.repo_root == y.repo_root && x.path == y.path,
        (None, None) => true,
        _ => false,
    }
}

/// The text of an optional attempt identity.
pub open spec fn attempt_text(id: Option<AgentAttemptId>) -> Option<Seq<char>> {
    match id {
        Some(a) => Some(a@),
        None => None,
    }
}

/// Execution and lease metadata of one attempt.
#[derive(Debug)]
pub struct AgentAttemptRecord {
    pub attempt_id: AgentAttemptId,
    /// Attempt whose checkpoint seeded this attempt, when resuming.
    pub resumed_from_attempt_id: Option<AgentAttemptId>,
    /// Current runtime owner of the lease.
    pub owner_id: Option<String>,
    /// Monotonic lease fencing epoch.
    pub lease_epoch: u64,
    /// Lease expiry in Unix milliseconds.
    pub lease_expires_at_ms: Option<i64>,
    pub state: AttemptState,
    /// Idempotency identity of the accepted prompt.
    pub prompt_id: AgentPromptId,
    pub started_at_ms: Option<i64>,
    pub completed_at_ms: Option<i64>,
}

pub ghost struct AttemptView {
    pub attempt_id: Seq<char>,
    pub resumed_from_attempt_id: Option<Seq<char>>,
    pub owner_id: Option<Seq<char>>,
    pub lease_epoch: u64,
    pub lease_expires_at_ms: Option<i64>,
    pub state: AttemptState,
    pub prompt_id: Seq<char>,
    pub started_at_ms: Option<i64>,
    pub completed_at_ms: Option<i64>,
}

impl View for AgentAttemptRecord {
    type V = AttemptView;

    open spec fn view(&self) -> AttemptView {
        AttemptView {
            attempt_id: self.attempt_id@,
            resumed_from_attempt_id: attempt_text(self.resumed_from_attempt_id),
            owner_id: opt_chars(self.owner_id),
            lease_epoch: self.lease_epoch,
            lease_expires_at_ms: self.lease_expires_at_ms,
            state: self.state,
            prompt_id: self.prompt_id@,
            started_at_ms: self.started_at_ms,
            completed_at_ms: self.completed_at_ms,
        }
    }
}

impl AgentAttemptRecord {
    pub fn duplicate(&self) -> (r: Self)
        ensures
            r@ == self@,
    {
        AgentAttemptRecord {
            attempt_id: self.attempt_id.duplicate(),
            resumed_from_attempt_id: match &self.resumed_from_attempt_id {
                Some(id) => Some(id.duplicate()),
                None => None,
            },
            owner_id: clone_opt_text(&self.owner_id),
            lease_epoch: self.lease_epoch,
            lease_expires_at_ms: self.lease_expires_at_ms,
            state: self.state,
            prompt_id: self.prompt_id.duplicate(),
            started_at_ms: self.started_at_ms,
            completed_at_ms: self.completed_at_ms,
        }
    }

    fn same(&self, other: &Self) -> (r: bool)
        ensures
            r == (self@ == other@),
    {
        let same_origin = match (
            &self.resumed_from_attempt_id,
            &other.resumed_from_attempt_id,
        ) {
            (Some(a), Some(b)) => a.same(b),
            (None, None) => true,
            _ => false,
        };
        same_origin && self.attempt_id.same(&other.attempt_id) && same_opt_text(
            &self.owner_id,
            &other.owner_id,
        ) && self.lease_epoch == other.lease_epoch && self.lease_expires_at_ms
            == other.lease_expires_at_ms && self.state == other.state && self.prompt_id.same(
            &other.prompt_id,
        ) && self.started_at_ms == other.started_at_ms && self.completed_at_ms
            == other.completed_at_ms
    }
}

/// The latest safe checkpoint of a child conversation.
#[derive(Debug)]
pub struct AgentCheckpoint {
    pub checkpoint_id: AgentCheckpointId,
    /// Attempt that produced this checkpoint.
    pub attempt_id: AgentAttemptId,
    /// Sequence within the continuation.
    pub sequence: u64,
    pub conversation: ChildConversationSnapshot,
    /// Number of completed child turns.
    pub turn: u32,
    /// Cumulative budget consumed through this checkpoint.
    pub usage: BudgetUsage,
    /// Latest settled tool boundary relevant to safe recovery.
    pub last_tool_boundary: Option<ToolBoundary>,
    pub created_at_ms: i64,
    /// Recorded SHA-256 digest of the canonical payload.
    pub digest: Sha256Digest,
    /// SHA-256 digest computed over the canonical payload of this value; absent
    /// where the payload could not be serialized.
    pub payload_digest: Option<Sha256Digest>,
}

pub ghost struct CheckpointView {
    pub checkpoint_id: Seq<char>,
    pub attempt_id: Seq<char>,
    pub sequence: u64,
    pub conversation: SnapshotView,
    pub turn: u32,
    pub usage: BudgetUsage,
    pub last_tool_boundary: Option<ToolBoundaryView>,
    pub created_at_ms: i64,
    pub digest: Sha256Digest,
    pub payload_digest: Option<Sha256Digest>,
}

impl View for AgentCheckpoint {
    type V = CheckpointView;

    open spec fn view(&self) -> CheckpointView {
        CheckpointView {
            checkpoint_id: self.checkpoint_id@,
            attempt_id: self.attempt_id@,
            sequence: self.sequence,
            conversation: self.conversation@,
            turn: self.turn,
            usage: self.usage,
            last_tool_boundary: boundary_view(self.last_tool_boundary),
            created_at_ms: self.created_at_ms,
            digest: self.digest,
            payload_digest: self.payload_digest,
        }
    }
}

pub open spec fn checkpoint_view(checkpoint: Option<AgentCheckpoint>) -> Option<CheckpointView> {
    match checkpoint {
        Some(c) => Some(c@),
        None => None,
    }
}

impl CheckpointView {
    /// Why the recorded digest is not that of the payload.
    pub open spec fn digest_error(self) -> Option<AgentContinuationErrorView> {
        match self.payload_digest {
            None => Some(
                AgentContinuationErrorView::Persistence {
                    message: "failed to serialize checkpoint digest payload"@,
                },
            ),
            Some(computed) => if computed == self.digest {
                None
            } else {
                Some(AgentContinuationErrorView::DigestMismatch)
            },
        }
    }

    /// Unknown side effects stand at the checkpoint's boundary.
    pub open spec fn boundary_unsafe(self) -> bool {
        self.last_tool_boundary is Some && self.last_tool_boundary->0 is Indeterminate
    }
}

pub fn clone_boundary(boundary: &Option<ToolBoundary>) -> (r: Option<ToolBoundary>)
    ensures
        r == *boundary,
{
    match boundary {
        Some(b) => Some(b.duplicate()),
        None => None,
    }
}

pub fn same_boundary(a: &Option<ToolBoundary>, b: &Option<ToolBoundary>) -> (r: bool)
    ensures
        r == (boundary_view(*a) == boundary_view(*b)),
{
    match (a, b) {
        (Some(x), Some(y)) => x.same(y),
        (None, None) => true,
        _ => false,
    }
}

impl AgentCheckpoint {
    /// The digest of the canonical payload.
    pub fn computed_digest(&self) -> (r: Result<Sha256Digest, AgentContinuationError>)
        ensures
            match r {
                Ok(digest) => self@.payload_digest == Some(digest),
                Err(e) => self@.payload_digest is None && e@ == (
                AgentContinuationErrorView::Persistence {
                    message: "failed to serialize checkpoint digest payload"@,
                }),
            },
    {
        match self.payload_digest {
            Some(digest) => Ok(digest),
            None => Err(
                AgentContinuationError::Persistence {
                    message: "failed to serialize checkpoint digest payload".to_owned(),
                },
            ),
        }
    }

    /// Verifies that the recorded digest matches the canonical payload.
    pub fn verify_digest(&self) -> (r: Result<(), AgentContinuationError>)
        ensures
            agrees(r, self@.digest_error()),
    {
        match self.computed_digest() {
            Ok(computed) => {
                if !computed.same(&self.digest) {
                    return Err(AgentContinuationError::DigestMismatch);
                }
                Ok(())
            },
            Err(e) => Err(e),
        }
    }

    pub fn duplicate(&self) -> (r: Self)
        ensures
            r@ == self@,
    {
        AgentCheckpoint {
            checkpoint_id: self.checkpoint_id.duplicate(),
            attempt_id: self.attempt_id.duplicate(),
            sequence: self.sequence,
            conversation: self.conversation.duplicate(),
            turn: self.turn,
            usage: self.usage,
            last_tool_boundary: clone_boundary(&self.last_tool_boundary),
            created_at_ms: self.created_at_ms,
            digest: self.digest,
            payload_digest: self.payload_digest,
        }
    }

    pub fn same(&self, other: &Self) -> (r: bool)
        ensures
            r == (self@ == other@),
    {
        let same_payload_digest = match (&self.payload_digest, &other.payload_digest) {
            (Some(a), Some(b)) => a.same(b),
            (None, None) => true,
            _ => false,
        };
        same_payload_digest && self.checkpoint_id.same(&other.checkpoint_id)
            && self.attempt_id.same(&other.attempt_id) && self.sequence == other.sequence
            && self.conversation.same(&other.conversation) && self.turn == other.turn
            && self.usage == other.usage && same_boundary(
            &self.last_tool_boundary,
            &other.last_tool_boundary,
        ) && self.created_at_ms == other.created_at_ms && self.digest.same(&other.digest)
    }
}

pub fn clone_checkpoint(checkpoint: &Option<AgentCheckpoint>) -> (r: Option<AgentCheckpoint>)
    ensures
        checkpoint_view(r) == checkpoint_view(*checkpoint),
{
    match checkpoint {
        Some(c) => Some(c.duplicate()),
        None => None,
    }
}

/// Terminal outcome of the latest attempt.
#[derive(Debug)]
#[allow(inconsistent_fields)]
pub enum AgentTerminal {
    Completed { result: Option<String> },
    Failed { error: String },
    Cancelled { reason: Option<String> },
    /// The external side-effect outcome is unknown.
    Indeterminate { reason: String },
}

#[allow(inconsistent_fields)]
pub ghost enum TerminalView {
    Completed { result: Option<Seq<char>> },
    Failed { error: Seq<char> },
    Cancelled { reason: Option<Seq<char>> },
    Indeterminate { reason: Seq<char> },
}

impl View for AgentTerminal {
    type V = TerminalView;

    open spec fn view(&self) -> TerminalView {
        match *self {
            AgentTerminal::Completed { result } => TerminalView::Completed {
                result: opt_chars(result),
            },
            AgentTerminal::Failed { error } => TerminalView::Failed { error: error@ },
            AgentTerminal::Cancelled { reason } => TerminalView::Cancelled {
                reason: opt_chars(reason),
            },
            AgentTerminal::Indeterminate { reason } => TerminalView::Indeterminate {
                reason: reason@,
            },
        }
    }
}

pub open spec fn terminal_view(terminal: Option<AgentTerminal>) -> Option<TerminalView> {
    match terminal {
        Some(t) => Some(t@),
        None => None,
    }
}

/// The continuation status that a terminal outcome leads to.
pub open spec fn status_of_terminal(terminal: TerminalView) -> ContinuationStatus {
    match terminal {
        TerminalView::Completed { .. } => ContinuationStatus::Completed,
        TerminalView::Failed { .. } => ContinuationStatus::Failed,
        TerminalView::Cancelled { .. } => ContinuationStatus::Cancelled,
        TerminalView::Indeterminate { .. } => ContinuationStatus::Indeterminate,
    }
}

pub fn terminal_status(terminal: &AgentTerminal) -> (r: ContinuationStatus)
    ensures
        r == status_of_terminal(terminal@),
{
    match terminal {
        AgentTerminal::Completed { .. } => ContinuationStatus::Completed,
        AgentTerminal::Failed { .. } => ContinuationStatus::Failed,
        AgentTerminal::Cancelled { .. } => ContinuationStatus::Cancelled,
        AgentTerminal::Indeterminate { .. } => ContinuationStatus::Indeterminate,
    }
}

impl AgentTerminal {
    pub fn duplicate(&self) -> (r: Self)
        ensures
            r == *self,
    {
        match self {
            AgentTerminal::Completed { result } => AgentTerminal::Completed {
                result: clone_opt_text(result),
            },
            AgentTerminal::Failed { error } => AgentTerminal::Failed { error: error.clone() },
            AgentTerminal::Cancelled { reason } => AgentTerminal::Cancelled {
                reason: clone_opt_text(reason),
            },
            AgentTerminal::Indeterminate { reason } => AgentTerminal::Indeterminate {
                reason: reason.clone(),
            },
        }
    }

    pub fn same(&self, other: &Self) -> (r: bool)
        ensures
            r == (self@ == other@),
    {
        match (self, other) {
            (
                AgentTerminal::Completed { result: a },
                AgentTerminal::Completed { result: b },
            ) => same_opt_text(a, b),
            (AgentTerminal::Failed { error: a }, AgentTerminal::Failed { error: b }) => *a == *b,
            (
                AgentTerminal::Cancelled { reason: a },
                AgentTerminal::Cancelled { reason: b },
            ) => same_opt_text(a, b),
            (
                AgentTerminal::Indeterminate { reason: a },
                AgentTerminal::Indeterminate { reason: b },
            ) => *a == *b,
            _ => false,
        }
    }
}

pub fn clone_terminal(terminal: &Option<AgentTerminal>) -> (r: Option<AgentTerminal>)
    ensures
        r == *terminal,
{
    match terminal {
        Some(t) => Some(t.duplicate()),
        None => None,
    }
}

pub fn same_terminal(a: &Option<AgentTerminal>, b: &Option<AgentTerminal>) -> (r: bool)
    ensures
        r == (terminal_view(*a) == terminal_view(*b)),
{
    match (a, b) {
        (Some(x), Some(y)) => x.same(y),
        (None, None) => true,
        _ => false,
    }
}

/// The durable metadata of one continuation lineage.
#[derive(Debug)]
pub struct AgentContinuationRecord {
    pub schema_version: u32,
    pub continuation_id: AgentContinuationId,
    /// Parent session that exclusively owns this lineage.
    pub parent_session_id: String,
    /// Parent task, when the lineage was launched from another task.
    pub parent_task_id: Option<String>,
    /// Task that first created the lineage.
    pub source_task_id: String,
    /// Task associated with the current attempt.
    pub latest_task_id: String,
    pub subagent_type: String,
    pub model: Option<String>,
    pub isolation: SubagentIsolation,
    pub effective_cwd: String,
    pub worktree: Option<WorktreeBinding>,
    /// Digest of agent, model, policy, tools and workspace identity.
    pub compatibility_hash: Sha256Digest,
    /// Compare-and-swap revision of all durable mutations.
    pub revision: ContinuationRevision,
    pub status: ContinuationStatus,
    pub current_attempt: AgentAttemptRecord,
    /// Latest safe checkpoint.
    pub checkpoint: Option<AgentCheckpoint>,
    /// Tool invocation admitted after the latest checkpoint and not yet covered
    /// by a newer one.
    pub active_tool_boundary: Option<ToolBoundary>,
    pub terminal: Option<AgentTerminal>,
    pub created_at_ms: i64,
    pub updated_at_ms: i64,
}

pub ghost struct RecordView {
    pub schema_version: u32,
    pub continuation_id: Seq<char>,
    pub parent_session_id: Seq<char>,
    pub parent_task_id: Option<Seq<char>>,
    pub source_task_id: Seq<char>,
    pub latest_task_id: Seq<char>,
    pub subagent_type: Seq<char>,
    pub model: Option<Seq<char>>,
    pub isolation: SubagentIsolation,
    pub effective_cwd: Seq<char>,
    pub worktree: Option<WorktreeView>,
    pub compatibility_hash: Sha256Digest,
    pub revision: ContinuationRevision,
    pub status: ContinuationStatus,
    pub current_attempt: AttemptView,
    pub checkpoint: Option<CheckpointView>,
    pub active_tool_boundary: Option<ToolBoundaryView>,
    pub terminal: Option<TerminalView>,
    pub created_at_ms: i64,
    pub updated_at_ms: i64,
}

impl View for AgentContinuationRecord {
    type V = RecordView;

    open spec fn view(&self) -> RecordView {
        RecordView {
            schema_version: self.schema_version,
            continuation_id: self.continuation_id@,
            parent_session_id: self.parent_session_id@,
            parent_task_id: opt_chars(self.parent_task_id),
            source_task_id: self.source_task_id@,
            latest_task_id: self.latest_task_id@,
            subagent_type: self.subagent_type@,
            model: opt_chars(self.model),
            isolation: self.isolation,
            effective_cwd: self.effective_cwd@,
            worktree: worktree_view(self.worktree),
            compatibility_hash: self.compatibility_hash,
            revision: self.revision,
            status: self.status,
            current_attempt: self.current_attempt@,
            checkpoint: checkpoint_view(self.checkpoint),
            active_tool_boundary: boundary_view(self.active_tool_boundary),
            terminal: terminal_view(self.terminal),
            created_at_ms: self.created_at_ms,
            updated_at_ms: self.updated_at_ms,
        }
    }
}

impl AgentContinuationRecord {
    pub fn duplicate(&self) -> (r: Self)
        ensures
            r@ == self@,
    {
        AgentContinuationRecord {
            schema_version: self.schema_version,
            continuation_id: self.continuation_id.duplicate(),
            parent_session_id: self.parent_session_id.clone(),
            parent_task_id: clone_opt_text(&self.parent_task_id),
            source_task_id: self.source_task_id.clone(),
            latest_task_id: self.latest_task_id.clone(),
            subagent_type: self.subagent_type.clone(),
            model: clone_opt_text(&self.model),
            isolation: self.isolation,
            effective_cwd: self.effective_cwd.clone(),
            worktree: clone_worktree(&self.worktree),
            compatibility_hash: self.compatibility_hash,
            revision: self.revision,
            status: self.status,
            current_attempt: self.current_attempt.duplicate(),
            checkpoint: clone_checkpoint(&self.checkpoint),
            active_tool_boundary: clone_boundary(&self.active_tool_boundary),
            terminal: clone_terminal(&self.terminal),
            created_at_ms: self.created_at_ms,
            updated_at_ms: self.updated_at_ms,
        }
    }

    pub fn same(&self, other: &Self) -> (r: bool)
        ensures
            r == (self@ == other@),
    {
        let same_checkpoint = match (&self.checkpoint, &other.checkpoint) {
            (Some(a), Some(b)) => a.same(b),
            (None, None) => true,
            _ => false,
        };
        same_checkpoint && self.schema_version == other.schema_version
            && self.continuation_id.same(&other.continuation_id) && self.parent_session_id
            == other.parent_session_id && same_opt_text(
            &self.parent_task_id,
            &other.parent_task_id,
        ) && self.source_task_id == other.source_task_id && self.latest_task_id
            == other.latest_task_id && self.subagent_type == other.subagent_type && same_opt_text(
            &self.model,
            &other.model,
        ) && self.isolation == other.isolation && self.effective_cwd == other.effective_cwd
            && same_worktree(&self.worktree, &other.worktree) && self.compatibility_hash.same(
            &other.compatibility_hash,
        ) && self.revision == other.revision && self.status == other.status
            && self.current_attempt.same(&other.current_attempt) && same_boundary(
            &self.active_tool_boundary,
            &other.active_tool_boundary,
        ) && same_terminal(&self.terminal, &other.terminal) && self.created_at_ms
            == other.created_at_ms && self.updated_at_ms == other.updated_at_ms
    }
}

/// Compatibility and workspace identity that stays fixed across attempts.
#[derive(Debug)]
pub struct ContinuationCompatibility {
    pub subagent_type: String,
    pub model: Option<String>,
    pub isolation: SubagentIsolation,
    pub effective_cwd: String,
    pub worktree: Option<WorktreeBinding>,
    pub compatibility_hash: Sha256Digest,
}

pub ghost struct CompatibilityView {
    pub subagent_type: Seq<char>,
    pub model: Option<Seq<char>>,
    pub isolation: SubagentIsolation,
    pub effective_cwd: Seq<char>,
    pub worktree: Option<WorktreeView>,
    pub compatibility_hash: Sha256Digest,
}

impl View for ContinuationCompatibility {
    type V = CompatibilityView;

    open spec fn view(&self) -> CompatibilityView {
        CompatibilityView {
            subagent_type: self.subagent_type@,
            model: opt_chars(self.model),
            isolation: self.isolation,
            effective_cwd: self.effective_cwd@,
            worktree: worktree_view(self.worktree),
            compatibility_hash: self.compatibility_hash,
        }
    }
}

impl RecordView {
    /// The compatibility identity of the lineage.
    pub open spec fn compatibility(self) -> CompatibilityView {
        CompatibilityView {
            subagent_type: self.subagent_type,
            model: self.model,
            isolation: self.isolation,
            effective_cwd: self.effective_cwd,
            worktree: self.worktree,
            compatibility_hash: self.compatibility_hash,
        }
    }
}

/// A request for a new lineage.
#[derive(Debug)]
pub struct CreateContinuationInput {
    /// Identity chosen by the caller; mostly unset.
    pub continuation_id: Option<AgentContinuationId>,
    pub parent_task_id: Option<String>,
    pub task_id: String,
    pub prompt_id: AgentPromptId,
    pub compatibility: ContinuationCompatibility,
}

/// A request for a new attempt on an existing lineage.
#[derive(Debug)]
pub struct ResumeContinuationInput {
    /// Continuation UUIDv7 or task selector.
    pub selector: String,
    pub parent_task_id: Option<String>,
    pub task_id: String,
    pub prompt_id: AgentPromptId,
    pub compatibility: ContinuationCompatibility,
}

/// Startup facts for a child-agent launcher.
#[derive(Debug)]
pub struct PreparedContinuation {
    pub continuation_id: AgentContinuationId,
    pub attempt_id: AgentAttemptId,
    pub prompt_id: AgentPromptId,
    pub compatibility: ContinuationCompatibility,
    pub checkpoint: Option<AgentCheckpoint>,
    pub revision: ContinuationRevision,
    pub source_task_id: String,
    pub latest_task_id: String,
    pub parent_task_id: Option<String>,
    pub terminal: Option<AgentTerminal>,
}

pub ghost struct PreparedView {
    pub continuation_id: Seq<char>,
    pub attempt_id: Seq<char>,
    pub prompt_id: Seq<char>,
    pub compatibility: CompatibilityView,
    pub checkpoint: Option<CheckpointView>,
    pub revision: ContinuationRevision,
    pub source_task_id: Seq<char>,
    pub latest_task_id: Seq<char>,
    pub parent_task_id: Option<Seq<char>>,
    pub terminal: Option<TerminalView>,
}

impl View for PreparedContinuation {
    type V = PreparedView;

    open spec fn view(&self) -> PreparedView {
        PreparedView {
            continuation_id: self.continuation_id@,
            attempt_id: self.attempt_id@,
            prompt_id: self.prompt_id@,
            compatibility: self.compatibility@,
            checkpoint: checkpoint_view(self.checkpoint),
            revision: self.revision,
            source_task_id: self.source_task_id@,
            latest_task_id: self.latest_task_id@,
            parent_task_id: opt_chars(self.parent_task_id),
            terminal: terminal_view(self.terminal),
        }
    }
}

/// The startup facts of a record.
pub open spec fn prepared_of(record: RecordView) -> PreparedView {
    PreparedView {
        continuation_id: record.continuation_id,
        attempt_id: record.current_attempt.attempt_id,
        prompt_id: record.current_attempt.prompt_id,
        compatibility: record.compatibility(),
        checkpoint: record.checkpoint,
        revision: record.revision,
        source_task_id: record.source_task_id,
        latest_task_id: record.latest_task_id,
        parent_task_id: record.parent_task_id,
        terminal: record.terminal,
    }
}

impl PreparedContinuation {
    pub fn from_record(record: &AgentContinuationRecord) -> (r: Self)
        ensures
            r@ == prepared_of(record@),
    {
        PreparedContinuation {
            continuation_id: record.continuation_id.duplicate(),
            attempt_id: record.current_attempt.attempt_id.duplicate(),
            prompt_id: record.current_attempt.prompt_id.duplicate(),
            compatibility: ContinuationCompatibility {
                subagent_type: record.subagent_type.clone(),
                model: clone_opt_text(&record.model),
                isolation: record.isolation,
                effective_cwd: record.effective_cwd.clone(),
                worktree: clone_worktree(&record.worktree),
                compatibility_hash: record.compatibility_hash,
            },
            checkpoint: clone_checkpoint(&record.checkpoint),
            revision: record.revision,
            source_task_id: record.source_task_id.clone(),
            latest_task_id: record.latest_task_id.clone(),
            parent_task_id: clone_opt_text(&record.parent_task_id),
            terminal: clone_terminal(&record.terminal),
        }
    }
}

/// Authority to execute one attempt.
#[derive(Debug)]
pub struct ContinuationLease {
    pub continuation_id: AgentContinuationId,
    pub attempt_id: AgentAttemptId,
    pub owner_id: String,
    /// Monotonic lease fencing epoch.
    pub lease_epoch: u64,
    pub expires_at_ms: i64,
    /// Revision committed by acquisition and expected by the first write.
    pub revision: ContinuationRevision,
}

pub ghost struct LeaseView {
    pub continuation_id: Seq<char>,
    pub attempt_id: Seq<char>,
    pub owner_id: Seq<char>,
    pub lease_epoch: u64,
    pub expires_at_ms: i64,
    pub revision: ContinuationRevision,
}

impl View for ContinuationLease {
    type V = LeaseView;

    open spec fn view(&self) -> LeaseView {
        LeaseView {
            continuation_id: self.continuation_id@,
            attempt_id: self.attempt_id@,
            owner_id: self.owner_id@,
            lease_epoch: self.lease_epoch,
            expires_at_ms: self.expires_at_ms,
            revision: self.revision,
        }
    }
}

/// Compound stale-writer fence of a continuation mutation.
#[derive(Debug)]
pub struct ContinuationFence {
    pub continuation_id: AgentContinuationId,
    pub attempt_id: AgentAttemptId,
    pub lease_epoch: u64,
    pub expected_revision: ContinuationRevision,
}

pub ghost struct FenceView {
    pub continuation_id: Seq<char>,
    pub attempt_id: Seq<char>,
    pub lease_epoch: u64,
    pub expected_revision: ContinuationRevision,
}

impl View for ContinuationFence {
    type V = FenceView;

    open spec fn view(&self) -> FenceView {
        FenceView {
            continuation_id: self.continuation_id@,
            attempt_id: self.attempt_id@,
            lease_epoch: self.lease_epoch,
            expected_revision: self.expected_revision,
        }
    }
}

impl LeaseView {
    pub open spec fn fence(self, expected_revision: ContinuationRevision) -> FenceView {
        FenceView {
            continuation_id: self.continuation_id,
            attempt_id: self.attempt_id,
            lease_epoch: self.lease_epoch,
            expected_revision,
        }
    }
}

impl ContinuationLease {
    /// The identity, epoch and revision fence of a commit.
    pub fn fence(&self, expected_revision: ContinuationRevision) -> (r: ContinuationFence)
        ensures
            r@ == self@.fence(expected_revision),
    {
        ContinuationFence {
            continuation_id: self.continuation_id.duplicate(),
            attempt_id: self.attempt_id.duplicate(),
            lease_epoch: self.lease_epoch,
            expected_revision,
        }
    }
}

/// Which component of a fence does not match a record, if any.
pub open spec fn fence_error(fence: FenceView, record: RecordView) -> Option<
    AgentContinuationErrorView,
> {
    if fence.continuation_id != record.continuation_id {
        Some(
            AgentContinuationErrorView::ContinuationMismatch {
                expected: fence.continuation_id,
                actual: record.continuation_id,
            },
        )
    } else if fence.attempt_id != record.current_attempt.attempt_id {
        Some(
            AgentContinuationErrorView::AttemptMismatch {
                expected: fence.attempt_id,
                actual: record.current_attempt.attempt_id,
            },
        )
    } else if fence.lease_epoch != record.current_attempt.lease_epoch {
        Some(
            AgentContinuationErrorView::LeaseEpochMismatch {
                expected: fence.lease_epoch,
                actual: record.current_attempt.lease_epoch,
            },
        )
    } else if fence.expected_revision != record.revision {
        Some(
            AgentContinuationErrorView::RevisionConflict {
                expected: fence.expected_revision,
                actual: record.revision,
            },
        )
    } else {
        None
    }
}

impl ContinuationFence {
    /// Validates identity, lease epoch and revision against a record.
    pub fn validate(&self, record: &AgentContinuationRecord) -> (r: Result<
        (),
        AgentContinuationError,
    >)
        ensures
            agrees(r, fence_error(self@, record@)),
    {
        if !self.continuation_id.same(&record.continuation_id) {
            return Err(
                AgentContinuationError::ContinuationMismatch {
                    expected: self.continuation_id.duplicate(),
                    actual: record.continuation_id.duplicate(),
                },
            );
        }
        if !self.attempt_id.same(&record.current_attempt.attempt_id) {
            return Err(
                AgentContinuationError::AttemptMismatch {
                    expected: self.attempt_id.duplicate(),
                    actual: record.current_attempt.attempt_id.duplicate(),
                },
            );
        }
        if self.lease_epoch != record.current_attempt.lease_epoch {
            return Err(
                AgentContinuationError::LeaseEpochMismatch {
                    expected: self.lease_epoch,
                    actual: record.current_attempt.lease_epoch,
                },
            );
        }
        if self.expected_revision != record.revision {
            return Err(
                AgentContinuationError::RevisionConflict {
                    expected: self.expected_revision,
                    actual: record.revision,
                },
            );
        }
        Ok(())
    }
}

/// Unknown external side effects block automatic replay.
pub open spec fn indeterminate(record: RecordView) -> bool {
    ||| record.status == ContinuationStatus::Indeterminate
    ||| record.active_tool_boundary is Some && record.active_tool_boundary->0 is Indeterminate
    ||| record.checkpoint is Some && record.checkpoint->0.boundary_unsafe()
}

/// A runtime owner holds an unexpired lease.
pub open spec fn live_owner(record: RecordView, now_ms: i64) -> bool {
    &&& record.current_attempt.owner_id is Some
    &&& record.current_attempt.lease_expires_at_ms is Some
    &&& record.current_attempt.lease_expires_at_ms->0 > now_ms
}

/// The states from which a lineage may be resumed.
pub open spec fn resumable_status(status: ContinuationStatus) -> bool {
    ||| status == ContinuationStatus::Checkpointed
    ||| status == ContinuationStatus::Suspended
    ||| status == ContinuationStatus::Completed
    ||| status == ContinuationStatus::Failed
    ||| status == ContinuationStatus::Cancelled
}

pub fn is_resumable_status(status: ContinuationStatus) -> (r: bool)
    ensures
        r == resumable_status(status),
{
    match status {
        ContinuationStatus::Checkpointed => true,
        ContinuationStatus::Suspended => true,
        ContinuationStatus::Completed => true,
        ContinuationStatus::Failed => true,
        ContinuationStatus::Cancelled => true,
        _ => false,
    }
}

fn boundary_is_indeterminate(boundary: &Option<ToolBoundary>) -> (r: bool)
    ensures
        r == (boundary_view(*boundary) is Some && boundary_view(*boundary)->0 is Indeterminate),
{
    match boundary {
        Some(b) => b.is_indeterminate(),
        None => false,
    }
}

pub fn record_is_indeterminate(record: &AgentContinuationRecord) -> (r: bool)
    ensures
        r == indeterminate(record@),
{
    if record.status == ContinuationStatus::Indeterminate {
        return true;
    }
    if boundary_is_indeterminate(&record.active_tool_boundary) {
        return true;
    }
    match &record.checkpoint {
        Some(checkpoint) => boundary_is_indeterminate(&checkpoint.last_tool_boundary),
        None => false,
    }
}

pub fn record_has_live_owner(record: &AgentContinuationRecord, now_ms: i64) -> (r: bool)
    ensures
        r == live_owner(record@, now_ms),
{
    match (&record.current_attempt.owner_id, record.current_attempt.lease_expires_at_ms) {
        (Some(_), Some(expires_at_ms)) => expires_at_ms > now_ms,
        _ => false,
    }
}

pub fn ensure_checkpoint_boundary_safe(checkpoint: &AgentCheckpoint) -> (r: Result<
    (),
    AgentContinuationError,
>)
    ensures
        agrees(
            r,
            if checkpoint@.boundary_unsafe() {
                Some(AgentContinuationErrorView::Indeterminate)
            } else {
                None
            },
        ),
{
    if boundary_is_indeterminate(&checkpoint.last_tool_boundary) {
        return Err(AgentContinuationError::Indeterminate);
    }
    Ok(())
}

/// Continuation state as tasks and surfaces see it.
#[derive(Debug)]
pub struct ContinuationProjection {
    pub continuation_id: AgentContinuationId,
    pub attempt_id: AgentAttemptId,
    pub checkpoint_id: Option<AgentCheckpointId>,
    pub revision: ContinuationRevision,
    pub status: ContinuationStatus,
    pub attempt_state: AttemptState,
    pub latest_task_id: String,
    pub checkpoint_sequence: Option<u64>,
    pub turn: Option<u32>,
    /// Whether an explicit resume may safely create a new attempt.
    pub resumable: bool,
    /// Whether unknown external side effects block automatic replay.
    pub indeterminate: bool,
    pub lease_epoch: u64,
    pub lease_expires_at_ms: Option<i64>,
    pub updated_at_ms: i64,
}

pub ghost struct ProjectionView {
    pub continuation_id: Seq<char>,
    pub attempt_id: Seq<char>,
    pub checkpoint_id: Option<Seq<char>>,
    pub revision: ContinuationRevision,
    pub status: ContinuationStatus,
    pub attempt_state: AttemptState,
    pub latest_task_id: Seq<char>,
    pub checkpoint_sequence: Option<u64>,
    pub turn: Option<u32>,
    pub resumable: bool,
    pub indeterminate: bool,
    pub lease_epoch: u64,
    pub lease_expires_at_ms: Option<i64>,
    pub updated_at_ms: i64,
}

pub open spec fn checkpoint_id_text(id: Option<AgentCheckpointId>) -> Option<Seq<char>> {
    match id {
        Some(c) => Some(c@),
        None => None,
    }
}

impl View for ContinuationProjection {
    type V = ProjectionView;

    open spec fn view(&self) -> ProjectionView {
        ProjectionView {
            continuation_id: self.continuation_id@,
            attempt_id: self.attempt_id@,
            checkpoint_id: checkpoint_id_text(self.checkpoint_id),
            revision: self.revision,
            status: self.status,
            attempt_state: self.attempt_state,
            latest_task_id: self.latest_task_id@,
            checkpoint_sequence: self.checkpoint_sequence,
            turn: self.turn,
            resumable: self.resumable,
            indeterminate: self.indeterminate,
            lease_epoch: self.lease_epoch,
            lease_expires_at_ms: self.lease_expires_at_ms,
            updated_at_ms: self.updated_at_ms,
        }
    }
}

/// The projection of a record at a point in time.
pub open spec fn projection_of(record: RecordView, now_ms: i64) -> ProjectionView {
    ProjectionView {
        continuation_id: record.continuation_id,
        attempt_id: record.current_attempt.attempt_id,
        checkpoint_id: match record.checkpoint {
            Some(c) => Some(c.checkpoint_id),
            None => None,
        },
        revision: record.revision,
        status: record.status,
        attempt_state: record.current_attempt.state,
        latest_task_id: record.latest_task_id,
        checkpoint_sequence: match record.checkpoint {
            Some(c) => Some(c.sequence),
            None => None,
        },
        turn: match record.checkpoint {
            Some(c) => Some(c.turn),
            None => None,
        },
        resumable: !indeterminate(record) && record.checkpoint is Some && resumable_status(
            record.status,
        ) && !live_owner(record, now_ms),
        indeterminate: indeterminate(record),
        lease_epoch: record.current_attempt.lease_epoch,
        lease_expires_at_ms: record.current_attempt.lease_expires_at_ms,
        updated_at_ms: record.updated_at_ms,
    }
}

impl ContinuationProjection {
    pub fn from_record(record: &AgentContinuationRecord, now_ms: i64) -> (r: Self)
        ensures
            r@ == projection_of(record@, now_ms),
    {
        let indeterminate = record_is_indeterminate(record);
        let (checkpoint_id, checkpoint_sequence, turn) = match &record.checkpoint {
            Some(c) => (Some(c.checkpoint_id.duplicate()), Some(c.sequence), Some(c.turn)),
            None => (None, None, None),
        };
        ContinuationProjection {
            continuation_id: record.continuation_id.duplicate(),
            attempt_id: record.current_attempt.attempt_id.duplicate(),
            checkpoint_id,
            revision: record.revision,
            status: record.status,
            attempt_state: record.current_attempt.state,
            latest_task_id: record.latest_task_id.clone(),
            checkpoint_sequence,
            turn,
            resumable: !indeterminate && record.checkpoint.is_some() && is_resumable_status(
                record.status,
            ) && !record_has_live_owner(record, now_ms),
            indeterminate,
            lease_epoch: record.current_attempt.lease_epoch,
            lease_expires_at_ms: record.current_attempt.lease_expires_at_ms,
            updated_at_ms: record.updated_at_ms,
        }
    }
}

/// What is resumable has a safe checkpoint, no unknown side effects and no live
/// owner.
pub proof fn resumable_projections_are_safe(record: RecordView, now_ms: i64)
    requires
        projection_of(record, now_ms).resumable,
    ensures
        !projection_of(record, now_ms).indeterminate,
        record.checkpoint is Some,
        !record.checkpoint->0.boundary_unsafe(),
        !live_owner(record, now_ms),
{
}

/// A projection shows its record: the identities, the revision and both states as
/// they are, the checkpoint's identity, number and turn where there is one, and the
/// lease. It can be resumed exactly when a safe checkpoint is there, nothing is
/// unknown, the last attempt is over or at rest, and nobody's lease lives.
pub proof fn projections_show_their_record(record: RecordView, now_ms: i64)
    ensures
        ({
            let shown = projection_of(record, now_ms);
            &&& shown.continuation_id == record.continuation_id
            &&& shown.attempt_id == record.current_attempt.attempt_id
            &&& shown.latest_task_id == record.latest_task_id
            &&& shown.revision == record.revision
            &&& shown.status == record.status
            &&& shown.attempt_state == record.current_attempt.state
            &&& shown.updated_at_ms == record.updated_at_ms
            &&& shown.lease_epoch == record.current_attempt.lease_epoch
            &&& shown.lease_expires_at_ms == record.current_attempt.lease_expires_at_ms
            &&& match record.checkpoint {
                Some(c) => shown.checkpoint_id == Some(c.checkpoint_id)
                    && shown.checkpoint_sequence == Some(c.sequence) && shown.turn == Some(c.turn),
                None => shown.checkpoint_id is None && shown.checkpoint_sequence is None
                    && shown.turn is None,
            }
            &&& record.status == ContinuationStatus::Indeterminate ==> shown.indeterminate
            &&& (record.active_tool_boundary matches Some(b) && b is Indeterminate)
                ==> shown.indeterminate
            &&& (record.checkpoint matches Some(c) && c.boundary_unsafe()) ==> shown.indeterminate
            &&& shown.indeterminate ==> record.status == ContinuationStatus::Indeterminate || (
            record.active_tool_boundary matches Some(b) && b is Indeterminate) || (
            record.checkpoint matches Some(c) && c.boundary_unsafe())
            &&& shown.resumable <==> {
                &&& record.checkpoint is Some
                &&& !shown.indeterminate
                &&& record.status != ContinuationStatus::Created
                &&& record.status != ContinuationStatus::Running
                &&& record.status != ContinuationStatus::Resuming
                &&& record.current_attempt.owner_id is None || (
                record.current_attempt.lease_expires_at_ms matches Some(end) ==> end <= now_ms)
            }
        }),
{
}

/// A prepared attempt names the attempt, its prompt and its tasks as the record does,
/// and hands out the record's revision, checkpoint and end.
pub proof fn prepared_attempts_name_their_record(record: RecordView)
    ensures
        ({
            let prepared = prepared_of(record);
            &&& prepared.continuation_id == record.continuation_id
            &&& prepared.attempt_id == record.current_attempt.attempt_id
            &&& prepared.prompt_id == record.current_attempt.prompt_id
            &&& prepared.revision == record.revision
            &&& prepared.checkpoint == record.checkpoint
            &&& prepared.terminal == record.terminal
            &&& prepared.source_task_id == record.source_task_id
            &&& prepared.latest_task_id == record.latest_task_id
            &&& prepared.parent_task_id == record.parent_task_id
            &&& prepared.compatibility.subagent_type == record.subagent_type
            &&& prepared.compatibility.model == record.model
            &&& prepared.compatibility.isolation == record.isolation
            &&& prepared.compatibility.effective_cwd == record.effective_cwd
            &&& prepared.compatibility.worktree == record.worktree
            &&& prepared.compatibility.compatibility_hash == record.compatibility_hash
        }),
{
}

} // verus!
