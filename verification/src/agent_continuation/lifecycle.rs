//! The life of a continuation: what its operations come to, told by the fields of
//! its record.
//!
//! A lineage is created once, acquired by one owner at a time, checkpointed in
//! steps of one, and ended once per attempt; an owner that let its lease expire is
//! taken off; and a settled or suspended lineage is resumed from its checkpoint.

use vstd::prelude::*;
use crate::agent_continuation::changes::{
    acquire_changed, checkpoint_changed, committed, prepared_terminal_changed, reconcile_changed,
    reconciled, renew_changed, resume_changed, terminal_changed, tool_boundary_changed,
};
use crate::agent_continuation::coordinator::{
    acquire_outcome, checkpoint_outcome, create_outcome, holds, resume_outcome, store_commit,
    terminal_outcome, tool_boundary_outcome, CreateView,
};
use crate::agent_continuation::error::AgentContinuationErrorView;
use crate::agent_continuation::ids::ContinuationRevision;
use crate::agent_continuation::record::{
    projection_of, CheckpointView, CompatibilityView, LeaseView, PreparedView, RecordView,
    SubagentIsolation, TerminalView,
};
use crate::agent_continuation::snapshot::CHILD_CONVERSATION_SNAPSHOT_SCHEMA_VERSION;
use crate::agent_continuation::status::{AttemptState, ContinuationStatus};
use crate::agent_continuation::store::AgentContinuationStore;
use crate::agent_continuation::validation::{contents_error, lease_of, record_error, WorkspaceFacts};
use crate::conversation::ToolBoundaryView;
use crate::text::blank;

verus! {

/// A store holds a valid record, which may still be written at this time.
pub open spec fn writable(
    store: AgentContinuationStore,
    id: Seq<char>,
    record: RecordView,
    now_ms: i64,
) -> bool {
    &&& holds(store, id, record)
    &&& record_error(record, Some(id), Some(store.parent())) is None
    &&& record.updated_at_ms <= now_ms
    &&& record.revision.value < u64::MAX
}

/// The lease is the current one of the record, its owner's, and not expired.
pub open spec fn leased(record: RecordView, lease: LeaseView, now_ms: i64) -> bool {
    &&& lease.continuation_id == record.continuation_id
    &&& lease.attempt_id == record.current_attempt.attempt_id
    &&& lease.lease_epoch == record.current_attempt.lease_epoch
    &&& record.current_attempt.owner_id == Some(lease.owner_id)
    &&& record.current_attempt.lease_expires_at_ms matches Some(expires_at_ms) && now_ms
        < expires_at_ms
    &&& record.current_attempt.state == AttemptState::Running
}

/// The checkpoint is complete: its digest is that of its payload, its conversation
/// has the supported form, and no side effect is unknown where it was taken.
pub open spec fn intact(checkpoint: CheckpointView) -> bool {
    &&& checkpoint.payload_digest == Some(checkpoint.digest)
    &&& checkpoint.conversation.schema_version == CHILD_CONVERSATION_SNAPSHOT_SCHEMA_VERSION
    &&& checkpoint.last_tool_boundary matches Some(boundary) ==> !(boundary is Indeterminate)
}

/// Nothing of a record changed that stays fixed for its whole lineage.
pub open spec fn same_lineage(before: RecordView, after: RecordView) -> bool {
    &&& after.continuation_id == before.continuation_id
    &&& after.parent_session_id == before.parent_session_id
    &&& after.parent_task_id == before.parent_task_id
    &&& after.source_task_id == before.source_task_id
    &&& after.subagent_type == before.subagent_type
    &&& after.model == before.model
    &&& after.isolation == before.isolation
    &&& after.effective_cwd == before.effective_cwd
    &&& after.worktree == before.worktree
    &&& after.compatibility_hash == before.compatibility_hash
    &&& after.schema_version == before.schema_version
    &&& after.created_at_ms == before.created_at_ms
}

/// Checkpoints count up by one: under a live lease an intact checkpoint of the
/// current attempt with a new identity is committed exactly if its sequence is the
/// one behind that of the last checkpoint, or zero where there is none. It then is
/// the checkpoint of the record, and covers any active tool.
pub proof fn checkpoints_count_up_by_one(
    store: AgentContinuationStore,
    record: RecordView,
    lease: LeaseView,
    checkpoint: CheckpointView,
    now_ms: i64,
)
    requires
        writable(store, lease.continuation_id, record, now_ms),
        leased(record, lease, now_ms),
        intact(checkpoint),
        checkpoint.attempt_id == record.current_attempt.attempt_id,
        record.checkpoint matches Some(last) ==> last.checkpoint_id != checkpoint.checkpoint_id,
    ensures
        ({
            let outcome = checkpoint_outcome(store, lease, record.revision, checkpoint, now_ms);
            &&& outcome is Ok <==> {
                &&& record.checkpoint matches Some(last) ==> checkpoint.sequence == last.sequence
                    + 1
                &&& record.checkpoint is None ==> checkpoint.sequence == 0
            }
            &&& outcome matches Ok((next, written)) ==> {
                &&& written
                &&& next.checkpoint == Some(checkpoint)
                &&& next.status == ContinuationStatus::Checkpointed
                &&& next.active_tool_boundary is None
                &&& next.terminal is None
                &&& next.current_attempt == record.current_attempt
                &&& next.latest_task_id == record.latest_task_id
                &&& next.revision.value == record.revision.value + 1
                &&& next.updated_at_ms == now_ms
                &&& same_lineage(record, next)
                &&& projection_of(next, now_ms).checkpoint_sequence == Some(checkpoint.sequence)
                &&& projection_of(next, now_ms).checkpoint_id == Some(checkpoint.checkpoint_id)
                &&& projection_of(next, now_ms).turn == Some(checkpoint.turn)
            }
        }),
{
}

/// A checkpoint whose payload is not what its digest says, or that was taken where
/// side effects are unknown, is never committed.
pub proof fn broken_checkpoints_are_refused(
    store: AgentContinuationStore,
    lease: LeaseView,
    expected: ContinuationRevision,
    checkpoint: CheckpointView,
    now_ms: i64,
)
    requires
        checkpoint.payload_digest != Some(checkpoint.digest) || (
        checkpoint.last_tool_boundary matches Some(boundary) && boundary is Indeterminate),
    ensures
        checkpoint_outcome(store, lease, expected, checkpoint, now_ms) is Err,
{
}

/// A prepared attempt is acquired by whoever holds its startup facts: it runs, the
/// epoch is one higher, and the lease is the new owner's for thirty seconds.
pub proof fn prepared_attempts_are_acquired(
    store: AgentContinuationStore,
    record: RecordView,
    prepared: PreparedView,
    owner_id: Seq<char>,
    now_ms: i64,
)
    requires
        writable(store, prepared.continuation_id, record, now_ms),
        record.current_attempt.state == AttemptState::Prepared,
        record.current_attempt.lease_epoch < u64::MAX,
        prepared.attempt_id == record.current_attempt.attempt_id,
        prepared.prompt_id == record.current_attempt.prompt_id,
        prepared.compatibility == record.compatibility(),
        prepared.latest_task_id == record.latest_task_id,
        prepared.parent_task_id == record.parent_task_id,
        prepared.revision == record.revision,
        now_ms + 30_000 <= i64::MAX,
    ensures
        ({
            let outcome = acquire_outcome(store, prepared, owner_id, now_ms);
            &&& outcome matches Ok((next, written)) && {
                &&& written
                &&& next.status == ContinuationStatus::Running
                &&& next.current_attempt.state == AttemptState::Running
                &&& next.current_attempt.owner_id == Some(owner_id)
                &&& next.current_attempt.lease_epoch == record.current_attempt.lease_epoch + 1
                &&& next.current_attempt.lease_expires_at_ms == Some((now_ms + 30_000) as i64)
                &&& next.current_attempt.started_at_ms == Some(now_ms)
                &&& next.current_attempt.attempt_id == record.current_attempt.attempt_id
                &&& next.current_attempt.prompt_id == record.current_attempt.prompt_id
                &&& next.current_attempt.resumed_from_attempt_id
                    == record.current_attempt.resumed_from_attempt_id
                &&& next.checkpoint == record.checkpoint
                &&& next.terminal is None
                &&& next.revision.value == record.revision.value + 1
                &&& next.updated_at_ms == now_ms
                &&& same_lineage(record, next)
                &&& lease_of(next) matches Some(lease) && leased(next, lease, now_ms)
                    && lease.revision == next.revision && lease.expires_at_ms == now_ms + 30_000
            }
        }),
{
}

/// An attempt is not acquired with the startup facts of another one, nor of the
/// same one at another time.
pub proof fn foreign_startup_facts_acquire_nothing(
    store: AgentContinuationStore,
    record: RecordView,
    prepared: PreparedView,
    owner_id: Seq<char>,
    now_ms: i64,
)
    requires
        holds(store, prepared.continuation_id, record),
        ({
            ||| prepared.attempt_id != record.current_attempt.attempt_id
            ||| prepared.prompt_id != record.current_attempt.prompt_id
            ||| prepared.compatibility != record.compatibility()
            ||| prepared.latest_task_id != record.latest_task_id
            ||| prepared.parent_task_id != record.parent_task_id
            ||| record.current_attempt.state == AttemptState::Suspended
            ||| record.current_attempt.state == AttemptState::Terminal
            ||| prepared.revision != record.revision && record.current_attempt.state
                != AttemptState::Running
        }),
    ensures
        acquire_outcome(store, prepared, owner_id, now_ms) is Err,
{
}

/// The owner of a live lease ends its attempt: the outcome is recorded, names the
/// status, and leaves neither an owner nor an active tool. The checkpoint stays.
pub proof fn owners_end_their_attempt(
    store: AgentContinuationStore,
    record: RecordView,
    lease: LeaseView,
    terminal: TerminalView,
    now_ms: i64,
)
    requires
        writable(store, lease.continuation_id, record, now_ms),
        leased(record, lease, now_ms),
        record.current_attempt.started_at_ms matches Some(started) && started <= now_ms,
    ensures
        ({
            let outcome = terminal_outcome(store, lease, record.revision, terminal, now_ms);
            &&& outcome matches Ok((next, written)) && {
                &&& written
                &&& ended_with(next, terminal)
                &&& next.current_attempt.completed_at_ms == Some(now_ms)
                &&& next.current_attempt.attempt_id == record.current_attempt.attempt_id
                &&& next.current_attempt.lease_epoch == record.current_attempt.lease_epoch
                &&& next.checkpoint == record.checkpoint
                &&& next.revision.value == record.revision.value + 1
                &&& next.updated_at_ms == now_ms
                &&& same_lineage(record, next)
            }
        }),
{
}

/// A record of an ended attempt: the outcome, and the status of the same name.
pub open spec fn ended_with(record: RecordView, terminal: TerminalView) -> bool {
    &&& record.terminal == Some(terminal)
    &&& record.status == ContinuationStatus::Completed <==> terminal is Completed
    &&& record.status == ContinuationStatus::Failed <==> terminal is Failed
    &&& record.status == ContinuationStatus::Cancelled <==> terminal is Cancelled
    &&& record.status == ContinuationStatus::Indeterminate <==> terminal is Indeterminate
    &&& record.current_attempt.state == AttemptState::Terminal
    &&& record.current_attempt.owner_id is None
    &&& record.current_attempt.lease_expires_at_ms is None
    &&& record.active_tool_boundary is None
}

/// An attempt that could not start is ended as failed or cancelled. It cannot have
/// completed, and a first attempt has had no side effects.
pub proof fn unstarted_attempts_end_too(
    store: AgentContinuationStore,
    record: RecordView,
    prepared: PreparedView,
    terminal: TerminalView,
    now_ms: i64,
)
    requires
        writable(store, prepared.continuation_id, record, now_ms),
        record.current_attempt.state == AttemptState::Prepared,
        record.current_attempt.started_at_ms is None,
        prepared.attempt_id == record.current_attempt.attempt_id,
        prepared.prompt_id == record.current_attempt.prompt_id,
        prepared.compatibility == record.compatibility(),
        prepared.latest_task_id == record.latest_task_id,
        prepared.parent_task_id == record.parent_task_id,
        prepared.revision == record.revision,
    ensures
        ({
            let outcome = store_commit(
                store,
                prepared.continuation_id,
                prepared.revision,
                prepared_terminal_changed(record, prepared, terminal, now_ms),
            );
            &&& terminal is Failed || terminal is Cancelled ==> outcome is Ok
            &&& terminal is Completed ==> outcome is Err
            &&& terminal is Indeterminate && record.status == ContinuationStatus::Created
                ==> outcome is Err
            &&& outcome matches Ok((next, _)) ==> ended_with(next, terminal) && next.checkpoint
                == record.checkpoint && next.revision.value == record.revision.value + 1
                && same_lineage(record, next)
        }),
{
}

/// The owner of a live lease renews it, for thirty seconds from now. Nothing else
/// changes.
pub proof fn owners_renew_their_lease(
    store: AgentContinuationStore,
    record: RecordView,
    lease: LeaseView,
    now_ms: i64,
)
    requires
        writable(store, lease.continuation_id, record, now_ms),
        leased(record, lease, now_ms),
        now_ms + 30_000 <= i64::MAX,
    ensures
        ({
            let outcome = store_commit(
                store,
                lease.continuation_id,
                record.revision,
                renew_changed(record, lease, record.revision, now_ms),
            );
            &&& outcome matches Ok((next, written)) && {
                &&& written
                &&& next.current_attempt.lease_expires_at_ms == Some((now_ms + 30_000) as i64)
                &&& leased(next, lease, now_ms)
                &&& next.status == record.status
                &&& next.checkpoint == record.checkpoint
                &&& next.active_tool_boundary == record.active_tool_boundary
                &&& next.latest_task_id == record.latest_task_id
                &&& next.revision.value == record.revision.value + 1
                &&& next.updated_at_ms == now_ms
                &&& same_lineage(record, next)
            }
        }),
{
}

/// The owner of a live lease announces a tool before it invokes it, and the record
/// holds that until a checkpoint covers it.
pub proof fn owners_announce_their_tools(
    store: AgentContinuationStore,
    record: RecordView,
    lease: LeaseView,
    boundary: ToolBoundaryView,
    now_ms: i64,
)
    requires
        writable(store, lease.continuation_id, record, now_ms),
        leased(record, lease, now_ms),
        record.active_tool_boundary != Some(boundary),
    ensures
        ({
            let outcome = tool_boundary_outcome(store, lease, record.revision, boundary, now_ms);
            &&& outcome matches Ok((next, written)) && {
                &&& written
                &&& next.active_tool_boundary == Some(boundary)
                &&& next.status == record.status
                &&& next.current_attempt == record.current_attempt
                &&& next.checkpoint == record.checkpoint
                &&& next.terminal is None
                &&& next.revision.value == record.revision.value + 1
                &&& next.updated_at_ms == now_ms
                &&& same_lineage(record, next)
                &&& projection_of(next, now_ms).indeterminate <== boundary is Indeterminate
            }
        }),
{
}

/// What an expired owner leaves: nothing is touched while the lease lives or where
/// no attempt runs. Behind a checkpoint with no unknown side effects the lineage is
/// suspended and may be resumed; otherwise it is indeterminate and may not. Either
/// way its owner is gone, and its checkpoint stays. (The clock must not be behind
/// the record's own times.)
pub proof fn expired_leases_are_taken_back(record: RecordView, now_ms: i64)
    requires
        record_error(record, Some(record.continuation_id), Some(record.parent_session_id)) is None,
        record.updated_at_ms <= now_ms,
        record.current_attempt.started_at_ms matches Some(started) ==> started <= now_ms,
        record.revision.value < u64::MAX,
    ensures
        ({
            let expired = record.current_attempt.state == AttemptState::Running
                && record.current_attempt.lease_expires_at_ms is Some
                && record.current_attempt.lease_expires_at_ms->0 <= now_ms;
            let safe = record.status == ContinuationStatus::Checkpointed && !(
            record.active_tool_boundary is Some && record.active_tool_boundary->0 is Indeterminate);
            let outcome = reconciled(record, now_ms);
            &&& outcome matches Ok((next, changed)) && {
                &&& changed == expired
                &&& !expired ==> next == record
                &&& expired ==> {
                    &&& next.current_attempt.owner_id is None
                    &&& next.current_attempt.lease_expires_at_ms is None
                    &&& next.checkpoint == record.checkpoint
                    &&& next.revision.value == record.revision.value + 1
                    &&& next.updated_at_ms == now_ms
                    &&& same_lineage(record, next)
                }
                &&& expired && safe ==> next.status == ContinuationStatus::Suspended
                    && next.current_attempt.state == AttemptState::Suspended
                    && next.terminal is None
                &&& expired && !safe ==> next.status == ContinuationStatus::Indeterminate
                    && next.current_attempt.state == AttemptState::Terminal && (
                next.terminal matches Some(terminal) && terminal is Indeterminate)
                    && !projection_of(next, now_ms).resumable && projection_of(
                    next,
                    now_ms,
                ).indeterminate
                &&& expired && safe && intact(record.checkpoint->0) ==> projection_of(
                    next,
                    now_ms,
                ).resumable
            }
        }),
{
    reveal(reconciled);
}

/// The request names the same agent in the same, existing workspace as the record.
pub open spec fn matches_record(
    record: RecordView,
    request: CreateView,
    facts: WorkspaceFacts,
) -> bool {
    &&& request.parent_task_id == record.parent_task_id
    &&& request.compatibility.subagent_type == record.subagent_type
    &&& request.compatibility.model == record.model
    &&& request.compatibility.isolation == record.isolation
    &&& request.compatibility.worktree == record.worktree
    &&& request.compatibility.compatibility_hash == record.compatibility_hash
    &&& facts.cwd_unchanged
    &&& names_a_workspace(request.compatibility, facts)
}

/// The agent and its workspace are named and exist.
pub open spec fn names_a_workspace(compatibility: CompatibilityView, facts: WorkspaceFacts) -> bool {
    &&& !blank(compatibility.subagent_type)
    &&& !blank(compatibility.effective_cwd)
    &&& compatibility.model matches Some(model) ==> !blank(model)
    &&& facts.cwd_is_dir
    &&& compatibility.isolation == SubagentIsolation::Shared ==> compatibility.worktree is None
    &&& compatibility.isolation == SubagentIsolation::Worktree ==> facts.worktree_is_cwd
        && facts.worktree_is_dir && (compatibility.worktree matches Some(worktree) && !blank(
        worktree.repo_root,
    ) && !blank(worktree.path))
}

/// A lineage is resumed exactly if it stands on an intact checkpoint, no side
/// effect is unknown, nobody owns it, and it is not already on its way; and by a
/// request for the same agent in the same workspace. The new attempt waits for its
/// lease, carries the new prompt and task, and starts from that checkpoint.
pub proof fn lineages_resume_from_their_checkpoint(
    store: AgentContinuationStore,
    record: RecordView,
    id: Seq<char>,
    attempt_id: Seq<char>,
    request: CreateView,
    facts: WorkspaceFacts,
    now_ms: i64,
)
    requires
        writable(store, id, record, now_ms),
        record.current_attempt.prompt_id != request.prompt_id,
        request.task_id.len() > 0,
        record.checkpoint matches Some(checkpoint) ==> checkpoint.attempt_id != attempt_id,
    ensures
        ({
            let outcome = resume_outcome(store, id, attempt_id, request, facts, now_ms);
            &&& outcome is Ok <==> {
                &&& matches_record(record, request, facts)
                &&& record.checkpoint matches Some(checkpoint) && intact(checkpoint)
                &&& record.active_tool_boundary matches Some(boundary) ==> !(
                boundary is Indeterminate)
                &&& record.current_attempt.lease_expires_at_ms matches Some(expires_at_ms)
                    ==> expires_at_ms <= now_ms
                &&& {
                    ||| record.status == ContinuationStatus::Checkpointed
                    ||| record.status == ContinuationStatus::Suspended
                    ||| record.status == ContinuationStatus::Completed
                    ||| record.status == ContinuationStatus::Failed
                    ||| record.status == ContinuationStatus::Cancelled
                }
            }
            &&& outcome matches Ok((next, written)) ==> {
                &&& written
                &&& next.status == ContinuationStatus::Resuming
                &&& next.current_attempt.state == AttemptState::Prepared
                &&& next.current_attempt.attempt_id == attempt_id
                &&& next.current_attempt.prompt_id == request.prompt_id
                &&& next.current_attempt.resumed_from_attempt_id == Some(
                    record.checkpoint->0.attempt_id,
                )
                &&& next.current_attempt.lease_epoch == record.current_attempt.lease_epoch
                &&& next.current_attempt.owner_id is None
                &&& next.current_attempt.started_at_ms is None
                &&& next.latest_task_id == request.task_id
                &&& next.checkpoint == record.checkpoint
                &&& next.terminal is None
                &&& next.active_tool_boundary is None
                &&& next.revision.value == record.revision.value + 1
                &&& next.updated_at_ms == now_ms
                &&& same_lineage(record, next)
            }
        }),
{
}

/// A lineage that is not there yet is created exactly by a request that names its
/// tasks, its agent and its workspace. It waits for its first lease, belongs to the
/// session of the store, and has no checkpoint.
pub proof fn new_lineages_start_blank(
    store: AgentContinuationStore,
    id: Seq<char>,
    attempt_id: Seq<char>,
    request: CreateView,
    facts: WorkspaceFacts,
    now_ms: i64,
)
    requires
        store.indexed(id) is None,
        store.parent().len() > 0,
    ensures
        ({
            let outcome = create_outcome(store, id, attempt_id, request, facts, now_ms);
            &&& outcome is Ok <==> {
                &&& !blank(request.task_id)
                &&& request.parent_task_id matches Some(task) ==> !blank(task)
                &&& names_a_workspace(request.compatibility, facts)
            }
            &&& outcome matches Ok((record, written)) ==> {
                &&& written
                &&& record.continuation_id == id
                &&& record.parent_session_id == store.parent()
                &&& record.parent_task_id == request.parent_task_id
                &&& record.source_task_id == request.task_id
                &&& record.latest_task_id == request.task_id
                &&& record.compatibility() == request.compatibility
                &&& record.subagent_type == request.compatibility.subagent_type
                &&& record.effective_cwd == request.compatibility.effective_cwd
                &&& record.status == ContinuationStatus::Created
                &&& record.current_attempt.state == AttemptState::Prepared
                &&& record.current_attempt.attempt_id == attempt_id
                &&& record.current_attempt.prompt_id == request.prompt_id
                &&& record.current_attempt.resumed_from_attempt_id is None
                &&& record.current_attempt.owner_id is None
                &&& record.current_attempt.lease_epoch == 0
                &&& record.checkpoint is None
                &&& record.terminal is None
                &&& record.active_tool_boundary is None
                &&& record.revision.value == 0
                &&& record.created_at_ms == now_ms
                &&& record.updated_at_ms == now_ms
                &&& record_error(record, Some(id), Some(store.parent())) is None
            }
        }),
{
}

/// What every valid record says: who runs it, what it stands on, and how it ended
/// agree with its status.
pub proof fn valid_records_agree_with_their_status(record: RecordView)
    requires
        contents_error(record) is None,
    ensures
        ({
            let attempt = record.current_attempt;
            &&& record.status == ContinuationStatus::Created || record.status
                == ContinuationStatus::Resuming <==> attempt.state == AttemptState::Prepared
            &&& record.status == ContinuationStatus::Running || record.status
                == ContinuationStatus::Checkpointed <==> attempt.state == AttemptState::Running
            &&& record.status == ContinuationStatus::Suspended <==> attempt.state
                == AttemptState::Suspended
            &&& record.status == ContinuationStatus::Completed <==> (
            record.terminal matches Some(terminal) && terminal is Completed)
            &&& record.status == ContinuationStatus::Failed <==> (
            record.terminal matches Some(terminal) && terminal is Failed)
            &&& record.status == ContinuationStatus::Cancelled <==> (
            record.terminal matches Some(terminal) && terminal is Cancelled)
            &&& record.status == ContinuationStatus::Indeterminate <==> (
            record.terminal matches Some(terminal) && terminal is Indeterminate)
            &&& record.status == ContinuationStatus::Checkpointed || record.status
                == ContinuationStatus::Suspended || record.status == ContinuationStatus::Resuming
                ==> record.checkpoint is Some
            &&& record.status == ContinuationStatus::Created ==> record.checkpoint is None
            &&& attempt.state == AttemptState::Running ==> attempt.owner_id is Some
                && attempt.lease_expires_at_ms is Some && attempt.started_at_ms is Some
            &&& attempt.state == AttemptState::Prepared || attempt.state == AttemptState::Terminal
                ==> attempt.owner_id is None && attempt.lease_expires_at_ms is None
            &&& attempt.state == AttemptState::Terminal <==> attempt.completed_at_ms is Some
            &&& attempt.started_at_ms is Some && attempt.completed_at_ms is Some
                ==> attempt.started_at_ms->0 <= attempt.completed_at_ms->0
            &&& attempt.resumed_from_attempt_id != Some(attempt.attempt_id)
            &&& record.checkpoint matches Some(checkpoint) ==> checkpoint.payload_digest == Some(
                checkpoint.digest,
            ) && checkpoint.conversation.schema_version
                == CHILD_CONVERSATION_SNAPSHOT_SCHEMA_VERSION && (checkpoint.attempt_id
                == attempt.attempt_id || attempt.resumed_from_attempt_id == Some(
                checkpoint.attempt_id,
            ))
            &&& record.isolation == SubagentIsolation::Worktree <==> record.worktree is Some
            &&& record.created_at_ms <= record.updated_at_ms
            &&& record.parent_session_id.len() > 0
            &&& record.source_task_id.len() > 0
            &&& record.latest_task_id.len() > 0
            &&& record.subagent_type.len() > 0
            &&& record.effective_cwd.len() > 0
        }),
{
}

/// A change of a record, and when it is made.
pub ghost struct LineageStep {
    pub now_ms: i64,
    pub change: LineageChange,
}

#[allow(inconsistent_fields)]
pub ghost enum LineageChange {
    Resume {
        parent_task_id: Option<Seq<char>>,
        task_id: Seq<char>,
        prompt_id: Seq<char>,
        attempt_id: Seq<char>,
        compatibility: CompatibilityView,
        facts: WorkspaceFacts,
    },
    Acquire { prepared: PreparedView, owner_id: Seq<char> },
    Renew { lease: LeaseView },
    Checkpoint { lease: LeaseView, checkpoint: CheckpointView },
    ToolBoundary { lease: LeaseView, boundary: ToolBoundaryView },
    End { lease: LeaseView, terminal: TerminalView },
    EndUnstarted { prepared: PreparedView, terminal: TerminalView },
    Reconcile,
}

/// The record that a committed change leaves.
pub open spec fn stepped(record: RecordView, step: LineageStep) -> Result<
    RecordView,
    AgentContinuationErrorView,
> {
    let (revision, now_ms) = (record.revision, step.now_ms);
    committed(
        record,
        record.continuation_id,
        record.parent_session_id,
        revision,
        match step.change {
            LineageChange::Resume {
                parent_task_id,
                task_id,
                prompt_id,
                attempt_id,
                compatibility,
                facts,
            } => resume_changed(
                record,
                parent_task_id,
                task_id,
                prompt_id,
                attempt_id,
                compatibility,
                facts,
                now_ms,
            ),
            LineageChange::Acquire { prepared, owner_id } => acquire_changed(
                record,
                prepared,
                owner_id,
                now_ms,
            ),
            LineageChange::Renew { lease } => renew_changed(record, lease, revision, now_ms),
            LineageChange::Checkpoint { lease, checkpoint } => checkpoint_changed(
                record,
                lease,
                revision,
                checkpoint,
                now_ms,
            ),
            LineageChange::ToolBoundary { lease, boundary } => tool_boundary_changed(
                record,
                lease,
                revision,
                boundary,
                now_ms,
            ),
            LineageChange::End { lease, terminal } => terminal_changed(
                record,
                lease,
                revision,
                terminal,
                now_ms,
            ),
            LineageChange::EndUnstarted { prepared, terminal } => prepared_terminal_changed(
                record,
                prepared,
                terminal,
                now_ms,
            ),
            LineageChange::Reconcile => reconcile_changed(record, now_ms),
        },
    )
}

/// The records of a lineage from its creation on, and the changes between them.
pub open spec fn is_lineage(records: Seq<RecordView>, steps: Seq<LineageStep>) -> bool {
    &&& records.len() == steps.len() + 1
    &&& records[0].revision.value == 0
    &&& records[0].checkpoint is None
    &&& records[0].current_attempt.lease_epoch == 0
    &&& forall|k: int|
        0 <= k < steps.len() ==> stepped(#[trigger] records[k], steps[k]) == Ok::<
            RecordView,
            AgentContinuationErrorView,
        >(records[k + 1])
}

/// How many of the changes commit a checkpoint.
pub open spec fn checkpoints_in(steps: Seq<LineageStep>) -> nat
    decreases steps.len(),
{
    if steps.len() == 0 {
        0
    } else {
        checkpoints_in(steps.drop_last()) + (if steps.last().change is Checkpoint {
            1nat
        } else {
            0
        })
    }
}

/// How many of the changes acquire an attempt.
pub open spec fn acquisitions_in(steps: Seq<LineageStep>) -> nat
    decreases steps.len(),
{
    if steps.len() == 0 {
        0
    } else {
        acquisitions_in(steps.drop_last()) + (if steps.last().change is Acquire {
            1nat
        } else {
            0
        })
    }
}

/// Whatever happens to a lineage, its checkpoints are numbered 0, 1, 2 and so on
/// without a gap, across all its attempts: the number of the last one says how many
/// were committed. In the same way the epoch counts its acquisitions and the
/// revision its changes, and it stays the lineage that was created.
pub proof fn lineages_number_their_checkpoints(records: Seq<RecordView>, steps: Seq<LineageStep>)
    requires
        is_lineage(records, steps),
    ensures
        records.last().checkpoint matches Some(checkpoint) ==> checkpoint.sequence + 1
            == checkpoints_in(steps),
        records.last().checkpoint is None ==> checkpoints_in(steps) == 0,
        records.last().current_attempt.lease_epoch == acquisitions_in(steps),
        records.last().revision.value == steps.len(),
        same_lineage(records[0], records.last()),
    decreases steps.len(),
{
    let n = steps.len() as int;
    if n > 0 {
        let (earlier, past) = (records.drop_last(), steps.drop_last());
        assert forall|k: int| 0 <= k < past.len() implies stepped(#[trigger] earlier[k], past[k])
            == Ok::<RecordView, AgentContinuationErrorView>(earlier[k + 1]) by {
            assert(stepped(records[k], steps[k]) == Ok::<RecordView, AgentContinuationErrorView>(
                records[k + 1],
            ));
        }
        lineages_number_their_checkpoints(earlier, past);
        assert(earlier.last() == records[n - 1]);
        assert(stepped(records[n - 1], steps[n - 1]) == Ok::<
            RecordView,
            AgentContinuationErrorView,
        >(records[n]));
    }
}

} // verus!
