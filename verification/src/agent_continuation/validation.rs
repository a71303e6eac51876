//! The invariants of continuation records and the checks on requests.

use vstd::prelude::*;
use crate::agent_continuation::error::{
    agrees, corrupt, corrupt_record, AgentContinuationError, AgentContinuationErrorView,
};
use crate::agent_continuation::ids::AgentContinuationId;
use crate::agent_continuation::record::{
    ensure_checkpoint_boundary_safe, indeterminate, is_resumable_status, live_owner,
    record_is_indeterminate, resumable_status, same_worktree, AgentCheckpoint,
    AgentContinuationRecord, AgentTerminal, AttemptView, CheckpointView, CompatibilityView,
    ContinuationCompatibility, ContinuationLease, LeaseView, PreparedContinuation, PreparedView,
    RecordView, SubagentIsolation, TerminalView, AGENT_CONTINUATION_SCHEMA_VERSION,
};
use crate::agent_continuation::snapshot::CHILD_CONVERSATION_SNAPSHOT_SCHEMA_VERSION;
use crate::agent_continuation::status::{AttemptState, ContinuationStatus};
use crate::text::{blank, is_blank, opt_chars, same_opt_text};

verus! {

/// The first failure of two.
pub open spec fn first(
    a: Option<AgentContinuationErrorView>,
    b: Option<AgentContinuationErrorView>,
) -> Option<AgentContinuationErrorView> {
    if a is Some {
        a
    } else {
        b
    }
}

/// The failure `e` where `bad` holds.
pub open spec fn fault_if(bad: bool, e: AgentContinuationErrorView) -> Option<
    AgentContinuationErrorView,
> {
    if bad {
        Some(e)
    } else {
        None
    }
}

pub open spec fn parent_error(expected: Seq<char>, actual: Seq<char>) -> Option<
    AgentContinuationErrorView,
> {
    fault_if(expected != actual, AgentContinuationErrorView::ParentMismatch { expected, actual })
}

pub fn ensure_parent_matches(expected: &str, actual: &str) -> (r: Result<
    (),
    AgentContinuationError,
>)
    ensures
        agrees(r, parent_error(expected@, actual@)),
{
    if !crate::text::text_is(expected, actual) {
        return Err(
            AgentContinuationError::ParentMismatch {
                expected: expected.to_owned(),
                actual: actual.to_owned(),
            },
        );
    }
    Ok(())
}

/// The attempt state that a continuation status goes with.
pub open spec fn attempt_state_for(status: ContinuationStatus) -> AttemptState {
    match status {
        ContinuationStatus::Created | ContinuationStatus::Resuming => AttemptState::Prepared,
        ContinuationStatus::Running | ContinuationStatus::Checkpointed => AttemptState::Running,
        ContinuationStatus::Suspended => AttemptState::Suspended,
        ContinuationStatus::Completed
        | ContinuationStatus::Failed
        | ContinuationStatus::Cancelled
        | ContinuationStatus::Indeterminate => AttemptState::Terminal,
    }
}

/// A settled status has the terminal outcome of its kind, every other status
/// has none.
pub open spec fn terminal_matches(status: ContinuationStatus, terminal: Option<TerminalView>) -> bool {
    match status {
        ContinuationStatus::Completed => terminal is Some && terminal->0 is Completed,
        ContinuationStatus::Failed => terminal is Some && terminal->0 is Failed,
        ContinuationStatus::Cancelled => terminal is Some && terminal->0 is Cancelled,
        ContinuationStatus::Indeterminate => terminal is Some && terminal->0 is Indeterminate,
        _ => terminal is None,
    }
}

/// The statuses that stand on a safe checkpoint.
pub open spec fn needs_checkpoint(status: ContinuationStatus) -> bool {
    ||| status == ContinuationStatus::Checkpointed
    ||| status == ContinuationStatus::Suspended
    ||| status == ContinuationStatus::Resuming
}

/// What is wrong between the status and the rest of a record.
pub open spec fn status_structure_error(record: RecordView) -> Option<AgentContinuationErrorView> {
    first(
        fault_if(
            record.current_attempt.state != attempt_state_for(record.status),
            corrupt("continuation status does not match current attempt state"@),
        ),
        first(
            fault_if(
                !terminal_matches(record.status, record.terminal),
                corrupt("continuation terminal outcome does not match status"@),
            ),
            first(
                fault_if(
                    needs_checkpoint(record.status) && record.checkpoint is None,
                    corrupt("continuation status requires a safe checkpoint"@),
                ),
                first(
                    fault_if(
                        record.status == ContinuationStatus::Created && record.checkpoint is Some,
                        corrupt("created continuation must not contain a checkpoint"@),
                    ),
                    fault_if(
                        record.current_attempt.state == AttemptState::Terminal
                            && record.active_tool_boundary is Some,
                        corrupt("terminal continuation retains an active tool boundary"@),
                    ),
                ),
            ),
        ),
    )
}

/// A required text of the record is empty.
pub open spec fn has_empty_binding(record: RecordView) -> bool {
    ||| record.parent_session_id.len() == 0
    ||| record.source_task_id.len() == 0
    ||| record.latest_task_id.len() == 0
    ||| record.subagent_type.len() == 0
    ||| record.effective_cwd.len() == 0
    ||| record.parent_task_id is Some && record.parent_task_id->0.len() == 0
}

/// What is wrong with an attempt on its own.
pub open spec fn attempt_error(attempt: AttemptView) -> Option<AgentContinuationErrorView> {
    first(
        fault_if(
            attempt.resumed_from_attempt_id == Some(attempt.attempt_id),
            corrupt("continuation attempt resumes from itself"@),
        ),
        first(
            fault_if(
                attempt.completed_at_ms is Some != (attempt.state == AttemptState::Terminal),
                corrupt("continuation attempt completion does not match its state"@),
            ),
            first(
                fault_if(
                    attempt.owner_id is Some != attempt.lease_expires_at_ms is Some,
                    corrupt("continuation lease owner and expiry must be present together"@),
                ),
                first(
                    fault_if(
                        (attempt.state == AttemptState::Prepared || attempt.state
                            == AttemptState::Terminal) && attempt.owner_id is Some,
                        corrupt("inactive continuation attempt retains a lease owner"@),
                    ),
                    first(
                        fault_if(
                            attempt.state == AttemptState::Running && attempt.owner_id is None,
                            corrupt("running continuation attempt has no lease owner"@),
                        ),
                        first(
                            fault_if(
                                (attempt.state == AttemptState::Running || attempt.state
                                    == AttemptState::Suspended) && attempt.started_at_ms is None,
                                corrupt("active continuation attempt has no start time"@),
                            ),
                            fault_if(
                                attempt.started_at_ms is Some && attempt.completed_at_ms is Some
                                    && attempt.completed_at_ms->0 < attempt.started_at_ms->0,
                                corrupt("continuation attempt completes before it starts"@),
                            ),
                        ),
                    ),
                ),
            ),
        ),
    )
}

/// What is wrong with a checkpoint in its record.
pub open spec fn checkpoint_error(checkpoint: CheckpointView, attempt: AttemptView) -> Option<
    AgentContinuationErrorView,
> {
    first(
        fault_if(
            checkpoint.conversation.schema_version != CHILD_CONVERSATION_SNAPSHOT_SCHEMA_VERSION,
            AgentContinuationErrorView::UnsupportedSchemaVersion {
                found: checkpoint.conversation.schema_version,
            },
        ),
        first(
            fault_if(
                checkpoint.attempt_id != attempt.attempt_id && attempt.resumed_from_attempt_id
                    != Some(checkpoint.attempt_id),
                AgentContinuationErrorView::AttemptMismatch {
                    expected: attempt.attempt_id,
                    actual: checkpoint.attempt_id,
                },
            ),
            checkpoint.digest_error(),
        ),
    )
}

/// What is wrong with a record, the first fault in a fixed order.
pub open spec fn record_error(
    record: RecordView,
    expected_id: Option<Seq<char>>,
    expected_parent: Option<Seq<char>>,
) -> Option<AgentContinuationErrorView> {
    first(
        fault_if(
            record.schema_version != AGENT_CONTINUATION_SCHEMA_VERSION,
            AgentContinuationErrorView::UnsupportedSchemaVersion { found: record.schema_version },
        ),
        first(
            fault_if(
                expected_id is Some && expected_id->0 != record.continuation_id,
                AgentContinuationErrorView::ContinuationMismatch {
                    expected: expected_id->0,
                    actual: record.continuation_id,
                },
            ),
            first(
                if expected_parent is Some {
                    parent_error(expected_parent->0, record.parent_session_id)
                } else {
                    None
                },
                contents_error(record),
            ),
        ),
    )
}

/// What is wrong inside a record, whoever it belongs to.
pub open spec fn contents_error(record: RecordView) -> Option<AgentContinuationErrorView> {
    first(
        fault_if(
            has_empty_binding(record),
            corrupt("continuation record contains an empty required binding"@),
        ),
        first(
            fault_if(
                record.created_at_ms > record.updated_at_ms,
                corrupt("continuation update time predates creation time"@),
            ),
            first(
                attempt_error(record.current_attempt),
                first(
                    fault_if(
                        record.isolation == SubagentIsolation::Shared && record.worktree is Some,
                        corrupt("non-worktree continuation has a worktree binding"@),
                    ),
                    first(
                        fault_if(
                            record.isolation == SubagentIsolation::Worktree
                                && record.worktree is None,
                            corrupt("worktree continuation is missing its binding"@),
                        ),
                        first(
                            status_structure_error(record),
                            match record.checkpoint {
                                Some(checkpoint) => checkpoint_error(
                                    checkpoint,
                                    record.current_attempt,
                                ),
                                None => None,
                            },
                        ),
                    ),
                ),
            ),
        ),
    )
}

pub fn validate_status_structure(record: &AgentContinuationRecord) -> (r: Result<
    (),
    AgentContinuationError,
>)
    ensures
        agrees(r, status_structure_error(record@)),
{
    let expected_state = match record.status {
        ContinuationStatus::Created | ContinuationStatus::Resuming => AttemptState::Prepared,
        ContinuationStatus::Running | ContinuationStatus::Checkpointed => AttemptState::Running,
        ContinuationStatus::Suspended => AttemptState::Suspended,
        ContinuationStatus::Completed
        | ContinuationStatus::Failed
        | ContinuationStatus::Cancelled
        | ContinuationStatus::Indeterminate => AttemptState::Terminal,
    };
    if record.current_attempt.state != expected_state {
        return Err(corrupt_record("continuation status does not match current attempt state"));
    }
    let terminal_valid = match (record.status, &record.terminal) {
        (ContinuationStatus::Completed, Some(AgentTerminal::Completed { .. })) => true,
        (ContinuationStatus::Failed, Some(AgentTerminal::Failed { .. })) => true,
        (ContinuationStatus::Cancelled, Some(AgentTerminal::Cancelled { .. })) => true,
        (ContinuationStatus::Indeterminate, Some(AgentTerminal::Indeterminate { .. })) => true,
        (ContinuationStatus::Created, None) => true,
        (ContinuationStatus::Running, None) => true,
        (ContinuationStatus::Checkpointed, None) => true,
        (ContinuationStatus::Suspended, None) => true,
        (ContinuationStatus::Resuming, None) => true,
        _ => false,
    };
    if !terminal_valid {
        return Err(corrupt_record("continuation terminal outcome does not match status"));
    }
    if (record.status == ContinuationStatus::Checkpointed || record.status
        == ContinuationStatus::Suspended || record.status == ContinuationStatus::Resuming)
        && record.checkpoint.is_none() {
        return Err(corrupt_record("continuation status requires a safe checkpoint"));
    }
    if record.status == ContinuationStatus::Created && record.checkpoint.is_some() {
        return Err(corrupt_record("created continuation must not contain a checkpoint"));
    }
    if record.current_attempt.state == AttemptState::Terminal
        && record.active_tool_boundary.is_some() {
        return Err(corrupt_record("terminal continuation retains an active tool boundary"));
    }
    Ok(())
}

/// The characters of an optional identity.
pub open spec fn id_text(id: Option<&AgentContinuationId>) -> Option<Seq<char>> {
    match id {
        Some(i) => Some(i@),
        None => None,
    }
}

/// The characters of an optional text.
pub open spec fn str_text(s: Option<&str>) -> Option<Seq<char>> {
    match s {
        Some(t) => Some(t@),
        None => None,
    }
}

/// Checks every invariant of a record and reports the first that fails.
pub fn validate_record(
    record: &AgentContinuationRecord,
    expected_continuation_id: Option<&AgentContinuationId>,
    expected_parent_session_id: Option<&str>,
) -> (r: Result<(), AgentContinuationError>)
    ensures
        agrees(
            r,
            record_error(
                record@,
                id_text(expected_continuation_id),
                str_text(expected_parent_session_id),
            ),
        ),
{
    if record.schema_version != AGENT_CONTINUATION_SCHEMA_VERSION {
        return Err(
            AgentContinuationError::UnsupportedSchemaVersion { found: record.schema_version },
        );
    }
    if let Some(expected) = expected_continuation_id {
        if !expected.same(&record.continuation_id) {
            return Err(
                AgentContinuationError::ContinuationMismatch {
                    expected: expected.duplicate(),
                    actual: record.continuation_id.duplicate(),
                },
            );
        }
    }
    if let Some(expected) = expected_parent_session_id {
        match ensure_parent_matches(expected, record.parent_session_id.as_str()) {
            Ok(_) => {},
            Err(e) => {
                return Err(e);
            },
        }
    }
    let parent_task_empty = match &record.parent_task_id {
        Some(task_id) => task_id.as_str().is_empty(),
        None => false,
    };
    if record.parent_session_id.as_str().is_empty() || record.source_task_id.as_str().is_empty()
        || record.latest_task_id.as_str().is_empty() || record.subagent_type.as_str().is_empty()
        || record.effective_cwd.as_str().is_empty() || parent_task_empty {
        return Err(corrupt_record("continuation record contains an empty required binding"));
    }
    if record.created_at_ms > record.updated_at_ms {
        return Err(corrupt_record("continuation update time predates creation time"));
    }
    let attempt = &record.current_attempt;
    if let Some(origin) = &attempt.resumed_from_attempt_id {
        if origin.same(&attempt.attempt_id) {
            return Err(corrupt_record("continuation attempt resumes from itself"));
        }
    }
    if attempt.completed_at_ms.is_some() != (attempt.state == AttemptState::Terminal) {
        return Err(corrupt_record("continuation attempt completion does not match its state"));
    }
    if attempt.owner_id.is_some() != attempt.lease_expires_at_ms.is_some() {
        return Err(corrupt_record("continuation lease owner and expiry must be present together"));
    }
    if (attempt.state == AttemptState::Prepared || attempt.state == AttemptState::Terminal)
        && attempt.owner_id.is_some() {
        return Err(corrupt_record("inactive continuation attempt retains a lease owner"));
    }
    if attempt.state == AttemptState::Running && attempt.owner_id.is_none() {
        return Err(corrupt_record("running continuation attempt has no lease owner"));
    }
    if (attempt.state == AttemptState::Running || attempt.state == AttemptState::Suspended)
        && attempt.started_at_ms.is_none() {
        return Err(corrupt_record("active continuation attempt has no start time"));
    }
    if let (Some(started_at_ms), Some(completed_at_ms)) = (
        attempt.started_at_ms,
        attempt.completed_at_ms,
    ) {
        if completed_at_ms < started_at_ms {
            return Err(corrupt_record("continuation attempt completes before it starts"));
        }
    }
    match record.isolation {
        SubagentIsolation::Shared => {
            if record.worktree.is_some() {
                return Err(corrupt_record("non-worktree continuation has a worktree binding"));
            }
        },
        SubagentIsolation::Worktree => {
            if record.worktree.is_none() {
                return Err(corrupt_record("worktree continuation is missing its binding"));
            }
        },
    }
    match validate_status_structure(record) {
        Ok(_) => {},
        Err(e) => {
            return Err(e);
        },
    }
    if let Some(checkpoint) = &record.checkpoint {
        if checkpoint.conversation.schema_version != CHILD_CONVERSATION_SNAPSHOT_SCHEMA_VERSION {
            return Err(
                AgentContinuationError::UnsupportedSchemaVersion {
                    found: checkpoint.conversation.schema_version,
                },
            );
        }
        let matches_current = checkpoint.attempt_id.same(&attempt.attempt_id);
        let matches_origin = match &attempt.resumed_from_attempt_id {
            Some(origin) => origin.same(&checkpoint.attempt_id),
            None => false,
        };
        if !matches_current && !matches_origin {
            return Err(
                AgentContinuationError::AttemptMismatch {
                    expected: attempt.attempt_id.duplicate(),
                    actual: checkpoint.attempt_id.duplicate(),
                },
            );
        }
        return checkpoint.verify_digest();
    }
    Ok(())
}

/// A task binding is blank.
pub open spec fn blank_binding(parent_task_id: Option<Seq<char>>, task_id: Seq<char>) -> bool {
    blank(task_id) || (parent_task_id is Some && blank(parent_task_id->0))
}

pub open spec fn task_binding_error(parent_task_id: Option<Seq<char>>, task_id: Seq<char>) -> Option<
    AgentContinuationErrorView,
> {
    fault_if(
        blank_binding(parent_task_id, task_id),
        corrupt("continuation request contains an empty task binding"@),
    )
}

pub fn validate_task_binding(parent_task_id: &Option<String>, task_id: &str) -> (r: Result<
    (),
    AgentContinuationError,
>)
    ensures
        agrees(r, task_binding_error(opt_chars(*parent_task_id), task_id@)),
{
    let parent_blank = match parent_task_id {
        Some(id) => is_blank(id.as_str()),
        None => false,
    };
    if is_blank(task_id) || parent_blank {
        return Err(corrupt_record("continuation request contains an empty task binding"));
    }
    Ok(())
}

/// What the file system and the path rules of the platform say about the
/// workspace of a request.
#[derive(Clone, Copy, Debug, PartialEq, Eq, Structural)]
pub struct WorkspaceFacts {
    /// The effective working directory is a directory.
    pub cwd_is_dir: bool,
    /// The worktree path is a directory.
    pub worktree_is_dir: bool,
    /// The worktree path and the effective working directory are the same path.
    pub worktree_is_cwd: bool,
    /// The effective working directory and the recorded one are the same path.
    pub cwd_unchanged: bool,
}

/// The compatibility identity names everything it must and its workspace
/// exists.
pub open spec fn compatibility_well_shaped(
    compatibility: CompatibilityView,
    facts: WorkspaceFacts,
) -> bool {
    &&& !blank(compatibility.subagent_type)
    &&& !blank(compatibility.effective_cwd)
    &&& compatibility.model is Some ==> !blank(compatibility.model->0)
    &&& facts.cwd_is_dir
    &&& match compatibility.isolation {
        SubagentIsolation::Shared => compatibility.worktree is None,
        SubagentIsolation::Worktree => {
            &&& compatibility.worktree is Some
            &&& !blank(compatibility.worktree->0.repo_root)
            &&& !blank(compatibility.worktree->0.path)
            &&& facts.worktree_is_cwd
            &&& facts.worktree_is_dir
        },
    }
}

pub open spec fn compatibility_shape_error(
    compatibility: CompatibilityView,
    facts: WorkspaceFacts,
) -> Option<AgentContinuationErrorView> {
    fault_if(
        !compatibility_well_shaped(compatibility, facts),
        AgentContinuationErrorView::CompatibilityMismatch,
    )
}

pub fn validate_compatibility_shape(
    compatibility: &ContinuationCompatibility,
    facts: WorkspaceFacts,
) -> (r: Result<(), AgentContinuationError>)
    ensures
        agrees(r, compatibility_shape_error(compatibility@, facts)),
{
    let model_blank = match &compatibility.model {
        Some(model) => is_blank(model.as_str()),
        None => false,
    };
    if is_blank(compatibility.subagent_type.as_str()) || is_blank(
        compatibility.effective_cwd.as_str(),
    ) || model_blank {
        return Err(AgentContinuationError::CompatibilityMismatch);
    }
    if !facts.cwd_is_dir {
        return Err(AgentContinuationError::CompatibilityMismatch);
    }
    match (compatibility.isolation, &compatibility.worktree) {
        (SubagentIsolation::Shared, None) => Ok(()),
        (SubagentIsolation::Worktree, Some(worktree)) => {
            if !is_blank(worktree.repo_root.as_str()) && !is_blank(worktree.path.as_str())
                && facts.worktree_is_cwd && facts.worktree_is_dir {
                Ok(())
            } else {
                Err(AgentContinuationError::CompatibilityMismatch)
            }
        },
        _ => Err(AgentContinuationError::CompatibilityMismatch),
    }
}

/// A task binding as errors show it.
pub open spec fn binding_label(task_id: Option<Seq<char>>) -> Seq<char> {
    match task_id {
        Some(id) => id,
        None => "<none>"@,
    }
}

pub fn task_binding_label(task_id: &Option<String>) -> (r: String)
    ensures
        r@ == binding_label(opt_chars(*task_id)),
{
    match task_id {
        Some(id) => id.clone(),
        None => "<none>".to_owned(),
    }
}

/// The request runs the same agent in the same workspace as the record.
pub open spec fn same_runtime(
    record: RecordView,
    compatibility: CompatibilityView,
    facts: WorkspaceFacts,
) -> bool {
    &&& record.subagent_type == compatibility.subagent_type
    &&& record.model == compatibility.model
    &&& record.isolation == compatibility.isolation
    &&& facts.cwd_unchanged
    &&& record.worktree == compatibility.worktree
    &&& record.compatibility_hash == compatibility.compatibility_hash
}

/// The failure of a checkpoint that must be intact and safe.
pub open spec fn unsafe_checkpoint_error(checkpoint: CheckpointView) -> Option<
    AgentContinuationErrorView,
> {
    first(
        checkpoint.digest_error(),
        fault_if(checkpoint.boundary_unsafe(), AgentContinuationErrorView::Indeterminate),
    )
}

/// Why a resume request does not fit a record.
pub open spec fn resume_request_error(
    record: RecordView,
    parent_task_id: Option<Seq<char>>,
    compatibility: CompatibilityView,
    facts: WorkspaceFacts,
) -> Option<AgentContinuationErrorView> {
    first(
        fault_if(
            record.parent_task_id != parent_task_id,
            AgentContinuationErrorView::TaskBindingMismatch {
                expected: binding_label(record.parent_task_id),
                actual: binding_label(parent_task_id),
            },
        ),
        first(
            fault_if(
                !same_runtime(record, compatibility, facts),
                AgentContinuationErrorView::CompatibilityMismatch,
            ),
            first(
                compatibility_shape_error(compatibility, facts),
                first(
                    match record.checkpoint {
                        Some(checkpoint) => unsafe_checkpoint_error(checkpoint),
                        None => None,
                    },
                    fault_if(indeterminate(record), AgentContinuationErrorView::Indeterminate),
                ),
            ),
        ),
    )
}

pub fn validate_resume_request(
    record: &AgentContinuationRecord,
    parent_task_id: &Option<String>,
    compatibility: &ContinuationCompatibility,
    facts: WorkspaceFacts,
) -> (r: Result<(), AgentContinuationError>)
    ensures
        agrees(
            r,
            resume_request_error(record@, opt_chars(*parent_task_id), compatibility@, facts),
        ),
{
    if !same_opt_text(&record.parent_task_id, parent_task_id) {
        return Err(
            AgentContinuationError::TaskBindingMismatch {
                expected: task_binding_label(&record.parent_task_id),
                actual: task_binding_label(parent_task_id),
            },
        );
    }
    if record.subagent_type != compatibility.subagent_type || !same_opt_text(
        &record.model,
        &compatibility.model,
    ) || record.isolation != compatibility.isolation || !facts.cwd_unchanged || !same_worktree(
        &record.worktree,
        &compatibility.worktree,
    ) || !record.compatibility_hash.same(&compatibility.compatibility_hash) {
        return Err(AgentContinuationError::CompatibilityMismatch);
    }
    match validate_compatibility_shape(compatibility, facts) {
        Ok(_) => {},
        Err(e) => {
            return Err(e);
        },
    }
    if let Some(checkpoint) = &record.checkpoint {
        match checkpoint.verify_digest() {
            Ok(_) => {},
            Err(e) => {
                return Err(e);
            },
        }
        match ensure_checkpoint_boundary_safe(checkpoint) {
            Ok(_) => {},
            Err(e) => {
                return Err(e);
            },
        }
    }
    if record_is_indeterminate(record) {
        return Err(AgentContinuationError::Indeterminate);
    }
    Ok(())
}

/// Why startup facts do not belong to a record.
pub open spec fn prepared_identity_error(record: RecordView, prepared: PreparedView) -> Option<
    AgentContinuationErrorView,
> {
    first(
        fault_if(
            record.continuation_id != prepared.continuation_id,
            AgentContinuationErrorView::ContinuationMismatch {
                expected: prepared.continuation_id,
                actual: record.continuation_id,
            },
        ),
        first(
            fault_if(
                record.current_attempt.attempt_id != prepared.attempt_id,
                AgentContinuationErrorView::AttemptMismatch {
                    expected: prepared.attempt_id,
                    actual: record.current_attempt.attempt_id,
                },
            ),
            fault_if(
                record.current_attempt.prompt_id != prepared.prompt_id || record.compatibility()
                    != prepared.compatibility || record.latest_task_id != prepared.latest_task_id
                    || record.parent_task_id != prepared.parent_task_id,
                AgentContinuationErrorView::CompatibilityMismatch,
            ),
        ),
    )
}

pub fn validate_prepared_identity(
    record: &AgentContinuationRecord,
    prepared: &PreparedContinuation,
) -> (r: Result<(), AgentContinuationError>)
    ensures
        agrees(r, prepared_identity_error(record@, prepared@)),
{
    if !record.continuation_id.same(&prepared.continuation_id) {
        return Err(
            AgentContinuationError::ContinuationMismatch {
                expected: prepared.continuation_id.duplicate(),
                actual: record.continuation_id.duplicate(),
            },
        );
    }
    if !record.current_attempt.attempt_id.same(&prepared.attempt_id) {
        return Err(
            AgentContinuationError::AttemptMismatch {
                expected: prepared.attempt_id.duplicate(),
                actual: record.current_attempt.attempt_id.duplicate(),
            },
        );
    }
    if !record.current_attempt.prompt_id.same(&prepared.prompt_id) || record.subagent_type
        != prepared.compatibility.subagent_type || !same_opt_text(
        &record.model,
        &prepared.compatibility.model,
    ) || record.isolation != prepared.compatibility.isolation || record.effective_cwd
        != prepared.compatibility.effective_cwd || !same_worktree(
        &record.worktree,
        &prepared.compatibility.worktree,
    ) || !record.compatibility_hash.same(&prepared.compatibility.compatibility_hash)
        || record.latest_task_id != prepared.latest_task_id || !same_opt_text(
        &record.parent_task_id,
        &prepared.parent_task_id,
    ) {
        return Err(AgentContinuationError::CompatibilityMismatch);
    }
    Ok(())
}

/// Why a lineage cannot be resumed.
pub open spec fn resumability_error(record: RecordView) -> Option<AgentContinuationErrorView> {
    first(
        fault_if(indeterminate(record), AgentContinuationErrorView::Indeterminate),
        first(
            fault_if(
                !resumable_status(record.status),
                AgentContinuationErrorView::NotResumable { status: record.status },
            ),
            match record.checkpoint {
                None => Some(AgentContinuationErrorView::CheckpointMissing),
                Some(checkpoint) => unsafe_checkpoint_error(checkpoint),
            },
        ),
    )
}

/// The safe checkpoint that a lineage may be resumed from.
pub fn ensure_record_resumable(record: &AgentContinuationRecord) -> (r: Result<
    &AgentCheckpoint,
    AgentContinuationError,
>)
    ensures
        agrees(r, resumability_error(record@)),
        r matches Ok(checkpoint) ==> record@.checkpoint == Some(checkpoint@),
{
    if record_is_indeterminate(record) {
        return Err(AgentContinuationError::Indeterminate);
    }
    if !is_resumable_status(record.status) {
        return Err(AgentContinuationError::NotResumable { status: record.status });
    }
    match &record.checkpoint {
        None => Err(AgentContinuationError::CheckpointMissing),
        Some(checkpoint) => {
            match checkpoint.verify_digest() {
                Ok(_) => {},
                Err(e) => {
                    return Err(e);
                },
            }
            match ensure_checkpoint_boundary_safe(checkpoint) {
                Ok(_) => {},
                Err(e) => {
                    return Err(e);
                },
            }
            Ok(checkpoint)
        },
    }
}

/// The lease of a record is held by somebody.
pub open spec fn lease_held(record: RecordView) -> AgentContinuationErrorView {
    AgentContinuationErrorView::LeaseHeld {
        owner_id: record.current_attempt.owner_id->0,
        expires_at_ms: record.current_attempt.lease_expires_at_ms->0,
    }
}

pub fn reject_live_owner(record: &AgentContinuationRecord, now_ms: i64) -> (r: Result<
    (),
    AgentContinuationError,
>)
    ensures
        agrees(r, fault_if(live_owner(record@, now_ms), lease_held(record@))),
{
    if let (Some(owner_id), Some(expires_at_ms)) = (
        &record.current_attempt.owner_id,
        record.current_attempt.lease_expires_at_ms,
    ) {
        if expires_at_ms > now_ms {
            return Err(
                AgentContinuationError::LeaseHeld { owner_id: owner_id.clone(), expires_at_ms },
            );
        }
    }
    Ok(())
}

pub fn reject_live_owner_for_other(
    record: &AgentContinuationRecord,
    owner_id: &str,
    now_ms: i64,
) -> (r: Result<(), AgentContinuationError>)
    ensures
        agrees(
            r,
            fault_if(
                live_owner(record@, now_ms) && record@.current_attempt.owner_id != Some(owner_id@),
                lease_held(record@),
            ),
        ),
{
    if let (Some(current_owner_id), Some(expires_at_ms)) = (
        &record.current_attempt.owner_id,
        record.current_attempt.lease_expires_at_ms,
    ) {
        if !crate::text::text_is(current_owner_id.as_str(), owner_id) && expires_at_ms > now_ms {
            return Err(
                AgentContinuationError::LeaseHeld {
                    owner_id: current_owner_id.clone(),
                    expires_at_ms,
                },
            );
        }
    }
    Ok(())
}

/// Why `owner_id` does not hold the live lease of a record.
pub open spec fn live_lease_error(record: RecordView, owner_id: Seq<char>, now_ms: i64) -> Option<
    AgentContinuationErrorView,
> {
    if live_owner(record, now_ms) {
        fault_if(record.current_attempt.owner_id != Some(owner_id), lease_held(record))
    } else {
        Some(AgentContinuationErrorView::LeaseExpired)
    }
}

pub fn validate_live_lease(
    record: &AgentContinuationRecord,
    lease: &ContinuationLease,
    now_ms: i64,
) -> (r: Result<(), AgentContinuationError>)
    ensures
        agrees(r, live_lease_error(record@, lease@.owner_id, now_ms)),
{
    match reject_live_owner_for_other(record, lease.owner_id.as_str(), now_ms) {
        Ok(_) => {},
        Err(e) => {
            return Err(e);
        },
    }
    let owned = match &record.current_attempt.owner_id {
        Some(owner_id) => *owner_id == lease.owner_id,
        None => false,
    };
    let expired = match record.current_attempt.lease_expires_at_ms {
        Some(expires_at_ms) => expires_at_ms <= now_ms,
        None => true,
    };
    if !owned || expired {
        return Err(AgentContinuationError::LeaseExpired);
    }
    Ok(())
}

/// The lease that a record grants, where it grants one.
pub open spec fn lease_of(record: RecordView) -> Option<LeaseView> {
    if record.current_attempt.owner_id is Some && record.current_attempt.lease_expires_at_ms
        is Some {
        Some(
            LeaseView {
                continuation_id: record.continuation_id,
                attempt_id: record.current_attempt.attempt_id,
                owner_id: record.current_attempt.owner_id->0,
                lease_epoch: record.current_attempt.lease_epoch,
                expires_at_ms: record.current_attempt.lease_expires_at_ms->0,
                revision: record.revision,
            },
        )
    } else {
        None
    }
}

pub fn lease_from_record(record: &AgentContinuationRecord) -> (r: Result<
    ContinuationLease,
    AgentContinuationError,
>)
    ensures
        match r {
            Ok(lease) => lease_of(record@) == Some(lease@),
            Err(e) => lease_of(record@) is None && e@ == AgentContinuationErrorView::LeaseExpired,
        },
{
    match (&record.current_attempt.owner_id, record.current_attempt.lease_expires_at_ms) {
        (Some(owner_id), Some(expires_at_ms)) => Ok(
            ContinuationLease {
                continuation_id: record.continuation_id.duplicate(),
                attempt_id: record.current_attempt.attempt_id.duplicate(),
                owner_id: owner_id.clone(),
                lease_epoch: record.current_attempt.lease_epoch,
                expires_at_ms,
                revision: record.revision,
            },
        ),
        _ => Err(AgentContinuationError::LeaseExpired),
    }
}

/// The lease that `owner_id` already holds on a running attempt.
pub fn existing_owner_lease(record: &AgentContinuationRecord, owner_id: &str, now_ms: i64) -> (r:
    Result<ContinuationLease, AgentContinuationError>)
    ensures
        agrees(r, live_lease_error(record@, owner_id@, now_ms)),
        r matches Ok(lease) ==> lease_of(record@) == Some(lease@),
{
    match reject_live_owner_for_other(record, owner_id, now_ms) {
        Ok(_) => {},
        Err(e) => {
            return Err(e);
        },
    }
    let owned = match &record.current_attempt.owner_id {
        Some(current) => crate::text::text_is(current.as_str(), owner_id),
        None => false,
    };
    let expired = match record.current_attempt.lease_expires_at_ms {
        Some(expires_at_ms) => expires_at_ms <= now_ms,
        None => true,
    };
    if !owned || expired {
        return Err(AgentContinuationError::LeaseExpired);
    }
    lease_from_record(record)
}

/// A valid record of a running attempt has an owner with a lease, and a valid
/// record of a prepared or settled attempt has none.
pub proof fn valid_records_have_one_owner(record: RecordView)
    requires
        contents_error(record) is None,
    ensures
        record.current_attempt.state == AttemptState::Running ==> lease_of(record) is Some,
        record.current_attempt.state == AttemptState::Prepared || record.current_attempt.state
            == AttemptState::Terminal ==> record.current_attempt.owner_id is None,
{
}

/// A valid record is settled exactly when it holds a terminal outcome, which is
/// the outcome its status names.
pub proof fn valid_records_settle_once(record: RecordView)
    requires
        contents_error(record) is None,
    ensures
        record.terminal is Some <==> record.current_attempt.state == AttemptState::Terminal,
        record.terminal is Some ==> record.status
            == crate::agent_continuation::record::status_of_terminal(record.terminal->0),
{
}

/// A resume request is accepted exactly when it names the same parent task and
/// describes the same child in the same place, and nothing about the record is
/// unknown.
pub proof fn requests_must_fit_their_record(
    record: RecordView,
    parent_task_id: Option<Seq<char>>,
    compatibility: CompatibilityView,
    facts: WorkspaceFacts,
)
    ensures
        resume_request_error(record, parent_task_id, compatibility, facts) is None <==> {
            &&& record.parent_task_id == parent_task_id
            &&& record.subagent_type == compatibility.subagent_type
            &&& record.model == compatibility.model
            &&& record.isolation == compatibility.isolation
            &&& record.worktree == compatibility.worktree
            &&& record.compatibility_hash == compatibility.compatibility_hash
            &&& facts.cwd_unchanged
            &&& facts.cwd_is_dir
            &&& !blank(compatibility.subagent_type)
            &&& !blank(compatibility.effective_cwd)
            &&& compatibility.model matches Some(model) ==> !blank(model)
            &&& compatibility.isolation == SubagentIsolation::Shared
                ==> compatibility.worktree is None
            &&& compatibility.isolation == SubagentIsolation::Worktree ==> {
                &&& compatibility.worktree is Some
                &&& !blank(compatibility.worktree->0.repo_root)
                &&& !blank(compatibility.worktree->0.path)
                &&& facts.worktree_is_cwd
                &&& facts.worktree_is_dir
            }
            &&& record.status != ContinuationStatus::Indeterminate
            &&& record.active_tool_boundary matches Some(b) ==> !(b is Indeterminate)
            &&& record.checkpoint matches Some(c) ==> c.payload_digest == Some(c.digest) && (
            c.last_tool_boundary matches Some(b) ==> !(b is Indeterminate))
        },
        record.parent_task_id != parent_task_id ==> (resume_request_error(
            record,
            parent_task_id,
            compatibility,
            facts,
        ) matches Some(e) && e is TaskBindingMismatch),
{
}

/// A record can be resumed exactly when its attempt is over or at rest with an intact
/// checkpoint and nothing about it is unknown.
pub proof fn only_safe_records_are_resumed(record: RecordView)
    ensures
        resumability_error(record) is None <==> {
            &&& record.status == ContinuationStatus::Checkpointed || record.status
                == ContinuationStatus::Suspended || record.status == ContinuationStatus::Completed
                || record.status == ContinuationStatus::Failed || record.status
                == ContinuationStatus::Cancelled
            &&& record.active_tool_boundary matches Some(b) ==> !(b is Indeterminate)
            &&& record.checkpoint matches Some(c) && c.payload_digest == Some(c.digest) && (
            c.last_tool_boundary matches Some(b) ==> !(b is Indeterminate))
        },
        record.status == ContinuationStatus::Indeterminate ==> resumability_error(record) == Some(
            AgentContinuationErrorView::Indeterminate,
        ),
{
}

/// A prepared attempt is recognized by everything that names it.
pub proof fn prepared_attempts_are_recognized(record: RecordView, prepared: PreparedView)
    ensures
        prepared_identity_error(record, prepared) is None <==> {
            &&& record.continuation_id == prepared.continuation_id
            &&& record.current_attempt.attempt_id == prepared.attempt_id
            &&& record.current_attempt.prompt_id == prepared.prompt_id
            &&& record.latest_task_id == prepared.latest_task_id
            &&& record.parent_task_id == prepared.parent_task_id
            &&& record.subagent_type == prepared.compatibility.subagent_type
            &&& record.model == prepared.compatibility.model
            &&& record.isolation == prepared.compatibility.isolation
            &&& record.effective_cwd == prepared.compatibility.effective_cwd
            &&& record.worktree == prepared.compatibility.worktree
            &&& record.compatibility_hash == prepared.compatibility.compatibility_hash
        },
{
}

/// A lease is good for its owner until it expires; others are told who holds it and
/// until when, and after its end nobody holds it.
pub proof fn leases_are_good_for_their_owner(record: RecordView, owner_id: Seq<char>, now_ms: i64)
    ensures
        ({
            let attempt = record.current_attempt;
            let error = live_lease_error(record, owner_id, now_ms);
            &&& attempt.owner_id is None ==> error == Some(
                AgentContinuationErrorView::LeaseExpired,
            )
            &&& attempt.lease_expires_at_ms matches Some(end) ==> (end <= now_ms ==> error == Some(
                AgentContinuationErrorView::LeaseExpired,
            ))
            &&& attempt.lease_expires_at_ms matches Some(end) ==> (now_ms < end ==> (
            attempt.owner_id matches Some(owner) ==> error == (if owner == owner_id {
                None
            } else {
                Some(
                    AgentContinuationErrorView::LeaseHeld { owner_id: owner, expires_at_ms: end },
                )
            })))
            &&& lease_of(record) matches Some(lease) ==> {
                &&& lease.continuation_id == record.continuation_id
                &&& lease.attempt_id == attempt.attempt_id
                &&& attempt.owner_id == Some(lease.owner_id)
                &&& attempt.lease_expires_at_ms == Some(lease.expires_at_ms)
                &&& lease.lease_epoch == attempt.lease_epoch
                &&& lease.revision == record.revision
            }
            &&& lease_of(record) is None <==> attempt.owner_id is None
                || attempt.lease_expires_at_ms is None
        }),
{
}

/// A record whose parts agree is accepted, under its own identity and session only.
pub proof fn sound_records_are_accepted(record: RecordView, id: Seq<char>, parent: Seq<char>)
    requires
        ({
            let attempt = record.current_attempt;
            &&& record.schema_version == AGENT_CONTINUATION_SCHEMA_VERSION
            &&& record.parent_session_id.len() > 0
            &&& record.source_task_id.len() > 0
            &&& record.latest_task_id.len() > 0
            &&& record.subagent_type.len() > 0
            &&& record.effective_cwd.len() > 0
            &&& record.parent_task_id matches Some(task) ==> task.len() > 0
            &&& record.created_at_ms <= record.updated_at_ms
            &&& record.isolation == SubagentIsolation::Worktree <==> record.worktree is Some
            &&& attempt.resumed_from_attempt_id != Some(attempt.attempt_id)
            &&& attempt.owner_id is Some <==> attempt.lease_expires_at_ms is Some
            &&& record.checkpoint matches Some(c) ==> c.conversation.schema_version
                == CHILD_CONVERSATION_SNAPSHOT_SCHEMA_VERSION && c.payload_digest == Some(c.digest)
                && (c.attempt_id == attempt.attempt_id || attempt.resumed_from_attempt_id == Some(
                c.attempt_id,
            ))
        }),
    ensures
        ({
            let attempt = record.current_attempt;
            let prepared = attempt.state == AttemptState::Prepared && attempt.owner_id is None
                && attempt.completed_at_ms is None && record.terminal is None;
            let running = attempt.state == AttemptState::Running && attempt.owner_id is Some
                && attempt.started_at_ms is Some && attempt.completed_at_ms is None
                && record.terminal is None;
            let suspended = attempt.state == AttemptState::Suspended && attempt.started_at_ms is Some
                && attempt.completed_at_ms is None && record.terminal is None;
            let ended = attempt.state == AttemptState::Terminal && attempt.owner_id is None
                && attempt.completed_at_ms is Some && (attempt.started_at_ms matches Some(start)
                ==> start <= attempt.completed_at_ms->0) && record.active_tool_boundary is None;
            let sound = match record.status {
                ContinuationStatus::Created => prepared && record.checkpoint is None,
                ContinuationStatus::Resuming => prepared && record.checkpoint is Some,
                ContinuationStatus::Running => running,
                ContinuationStatus::Checkpointed => running && record.checkpoint is Some,
                ContinuationStatus::Suspended => suspended && record.checkpoint is Some,
                ContinuationStatus::Completed => ended && (record.terminal matches Some(t)
                    && t is Completed),
                ContinuationStatus::Failed => ended && (record.terminal matches Some(t)
                    && t is Failed),
                ContinuationStatus::Cancelled => ended && (record.terminal matches Some(t)
                    && t is Cancelled),
                ContinuationStatus::Indeterminate => ended && (record.terminal matches Some(t)
                    && t is Indeterminate),
            };
            &&& sound ==> record_error(record, None, None) is None
            &&& !sound ==> record_error(record, None, None) is Some
            &&& sound ==> (record_error(record, Some(id), Some(parent)) is None <==> id
                == record.continuation_id && parent == record.parent_session_id)
            &&& id != record.continuation_id ==> record_error(record, Some(id), Some(parent))
                == Some(
                AgentContinuationErrorView::ContinuationMismatch {
                    expected: id,
                    actual: record.continuation_id,
                },
            )
            &&& id == record.continuation_id && parent != record.parent_session_id
                ==> record_error(record, Some(id), Some(parent)) == Some(
                AgentContinuationErrorView::ParentMismatch {
                    expected: parent,
                    actual: record.parent_session_id,
                },
            )
        }),
{
}

} // verus!
