//! The mutations of continuation records.
//!
//! Every mutation is a function from a record to the changed record or an
//! error. `mutate_validated_record` runs one between two validations and
//! advances the revision by one.

use vstd::prelude::*;
use crate::agent_continuation::error::{
    corrupt, corrupt_record, AgentContinuationError, AgentContinuationErrorView,
};
use crate::agent_continuation::ids::{
    AgentAttemptId, AgentContinuationId, AgentPromptId, ContinuationRevision,
};
use crate::agent_continuation::record::{
    fence_error, indeterminate, live_owner, record_has_live_owner, status_of_terminal,
    terminal_status, AgentAttemptRecord, AgentCheckpoint, AgentContinuationRecord, AgentTerminal,
    AttemptView, CheckpointView, CompatibilityView, ContinuationCompatibility, ContinuationLease,
    LeaseView, PreparedContinuation, PreparedView, RecordView, TerminalView,
};
use crate::agent_continuation::status::{continuation_edge, AttemptState, ContinuationStatus};
use crate::agent_continuation::validation::{
    ensure_record_resumable, first, lease_held, live_lease_error, prepared_identity_error,
    record_error, reject_live_owner, resumability_error, resume_request_error,
    validate_live_lease, validate_prepared_identity, validate_record, validate_resume_request,
    fault_if, WorkspaceFacts,
};
use crate::conversation::{ToolBoundary, ToolBoundaryView};
use crate::text::opt_chars;

verus! {

/// Lifetime of an execution lease in milliseconds.
pub const CONTINUATION_LEASE_DURATION_MS: i64 = 30_000;

/// What a mutation came to.
pub open spec fn outcome(r: Result<AgentContinuationRecord, AgentContinuationError>) -> Result<
    RecordView,
    AgentContinuationErrorView,
> {
    match r {
        Ok(record) => Ok(record@),
        Err(e) => Err(e@),
    }
}

/// Why a mutation may not start: the record is invalid or its revision is not
/// the expected one.
pub open spec fn admission_error(
    record: RecordView,
    id: Seq<char>,
    parent: Seq<char>,
    expected: ContinuationRevision,
) -> Option<AgentContinuationErrorView> {
    first(
        record_error(record, Some(id), Some(parent)),
        fault_if(
            record.revision != expected,
            AgentContinuationErrorView::RevisionConflict { expected, actual: record.revision },
        ),
    )
}

/// What is committed after an admitted mutation came to `changed`.
pub open spec fn committed(
    record: RecordView,
    id: Seq<char>,
    parent: Seq<char>,
    expected: ContinuationRevision,
    changed: Result<RecordView, AgentContinuationErrorView>,
) -> Result<RecordView, AgentContinuationErrorView> {
    match changed {
        Err(e) => Err(e),
        Ok(next) => {
            let advanced = RecordView {
                revision: ContinuationRevision { value: (expected.value + 1) as u64 },
                ..next
            };
            if next.revision != expected {
                Err(corrupt("continuation mutation must not modify the store-owned revision"@))
            } else if next.updated_at_ms < record.updated_at_ms {
                Err(corrupt("continuation mutation moved the update time backwards"@))
            } else if expected.value == u64::MAX {
                Err(AgentContinuationErrorView::RevisionExhausted)
            } else {
                match record_error(advanced, Some(id), Some(parent)) {
                    Some(e) => Err(e),
                    None => Ok(advanced),
                }
            }
        },
    }
}

/// Runs a mutation on a valid record with the expected revision and commits its
/// result if that is valid again.
pub fn mutate_validated_record<
    F: FnOnce(AgentContinuationRecord) -> Result<AgentContinuationRecord, AgentContinuationError>,
>(
    record: AgentContinuationRecord,
    continuation_id: &AgentContinuationId,
    parent_session_id: &str,
    expected_revision: ContinuationRevision,
    mutate: F,
) -> (r: Result<AgentContinuationRecord, AgentContinuationError>)
    requires
        mutate.requires((record,)),
    ensures
        match admission_error(record@, continuation_id@, parent_session_id@, expected_revision) {
            Some(e) => outcome(r) == Err::<RecordView, AgentContinuationErrorView>(e),
            None => exists|changed: Result<AgentContinuationRecord, AgentContinuationError>| #[trigger]
                mutate.ensures((record,), changed) && outcome(r) == committed(
                    record@,
                    continuation_id@,
                    parent_session_id@,
                    expected_revision,
                    outcome(changed),
                ),
        },
{
    match validate_record(&record, Some(continuation_id), Some(parent_session_id)) {
        Ok(_) => {},
        Err(e) => {
            return Err(e);
        },
    }
    if record.revision != expected_revision {
        return Err(
            AgentContinuationError::RevisionConflict {
                expected: expected_revision,
                actual: record.revision,
            },
        );
    }
    let previous_updated_at_ms: i64 = record.updated_at_ms;
    let ghost before = record;
    let changed = mutate(record);
    let ghost result = changed;
    assert(mutate.ensures((before,), result));
    match changed {
        Err(e) => Err(e),
        Ok(next) => {
            let mut next = next;
            if next.revision != expected_revision {
                return Err(
                    corrupt_record(
                        "continuation mutation must not modify the store-owned revision",
                    ),
                );
            }
            if next.updated_at_ms < previous_updated_at_ms {
                return Err(
                    corrupt_record("continuation mutation moved the update time backwards"),
                );
            }
            match expected_revision.next() {
                Ok(revision) => {
                    next.revision = revision;
                },
                Err(e) => {
                    return Err(e);
                },
            }
            match validate_record(&next, Some(continuation_id), Some(parent_session_id)) {
                Ok(_) => Ok(next),
                Err(e) => Err(e),
            }
        },
    }
}

/// When a lease granted now expires.
pub open spec fn lease_expiry(now_ms: i64) -> i64 {
    if now_ms + CONTINUATION_LEASE_DURATION_MS > i64::MAX {
        i64::MAX
    } else {
        (now_ms + CONTINUATION_LEASE_DURATION_MS) as i64
    }
}

pub fn lease_expires_at(now_ms: i64) -> (r: i64)
    ensures
        r == lease_expiry(now_ms),
{
    if now_ms > i64::MAX - CONTINUATION_LEASE_DURATION_MS {
        i64::MAX
    } else {
        now_ms + CONTINUATION_LEASE_DURATION_MS
    }
}

/// A new attempt that waits for a lease.
pub open spec fn fresh_attempt(
    attempt_id: Seq<char>,
    resumed_from: Option<Seq<char>>,
    lease_epoch: u64,
    prompt_id: Seq<char>,
) -> AttemptView {
    AttemptView {
        attempt_id,
        resumed_from_attempt_id: resumed_from,
        owner_id: None,
        lease_epoch,
        lease_expires_at_ms: None,
        state: AttemptState::Prepared,
        prompt_id,
        started_at_ms: None,
        completed_at_ms: None,
    }
}

/// A lineage resumed from its safe checkpoint by a new attempt.
pub open spec fn resume_changed(
    record: RecordView,
    parent_task_id: Option<Seq<char>>,
    task_id: Seq<char>,
    prompt_id: Seq<char>,
    attempt_id: Seq<char>,
    compatibility: CompatibilityView,
    facts: WorkspaceFacts,
    now_ms: i64,
) -> Result<RecordView, AgentContinuationErrorView> {
    match first(
        resume_request_error(record, parent_task_id, compatibility, facts),
        first(fault_if(live_owner(record, now_ms), lease_held(record)), resumability_error(record)),
    ) {
        Some(e) => Err(e),
        None => Ok(
            RecordView {
                status: ContinuationStatus::Resuming,
                current_attempt: fresh_attempt(
                    attempt_id,
                    Some(record.checkpoint->0.attempt_id),
                    record.current_attempt.lease_epoch,
                    prompt_id,
                ),
                latest_task_id: task_id,
                active_tool_boundary: None,
                terminal: None,
                updated_at_ms: now_ms,
                ..record
            },
        ),
    }
}

pub fn resume_change(
    record: AgentContinuationRecord,
    parent_task_id: &Option<String>,
    task_id: &String,
    prompt_id: &AgentPromptId,
    attempt_id: &AgentAttemptId,
    compatibility: &ContinuationCompatibility,
    facts: WorkspaceFacts,
    now_ms: i64,
) -> (r: Result<AgentContinuationRecord, AgentContinuationError>)
    ensures
        outcome(r) == resume_changed(
            record@,
            opt_chars(*parent_task_id),
            task_id@,
            prompt_id@,
            attempt_id@,
            compatibility@,
            facts,
            now_ms,
        ),
{
    match validate_resume_request(&record, parent_task_id, compatibility, facts) {
        Ok(_) => {},
        Err(e) => {
            return Err(e);
        },
    }
    match reject_live_owner(&record, now_ms) {
        Ok(_) => {},
        Err(e) => {
            return Err(e);
        },
    }
    let resumed_from = match ensure_record_resumable(&record) {
        Ok(checkpoint) => checkpoint.attempt_id.duplicate(),
        Err(e) => {
            return Err(e);
        },
    };
    let mut record = record;
    if record.status == ContinuationStatus::Checkpointed {
        match record.status.transition_to(ContinuationStatus::Suspended) {
            Ok(_) => {},
            Err(e) => {
                return Err(e);
            },
        }
    }
    match record.status.transition_to(ContinuationStatus::Resuming) {
        Ok(_) => {},
        Err(e) => {
            return Err(e);
        },
    }
    record.current_attempt =
    AgentAttemptRecord {
        attempt_id: attempt_id.duplicate(),
        resumed_from_attempt_id: Some(resumed_from),
        owner_id: None,
        lease_epoch: record.current_attempt.lease_epoch,
        lease_expires_at_ms: None,
        state: AttemptState::Prepared,
        prompt_id: prompt_id.duplicate(),
        started_at_ms: None,
        completed_at_ms: None,
    };
    record.latest_task_id = task_id.clone();
    record.active_tool_boundary = None;
    record.terminal = None;
    record.updated_at_ms = now_ms;
    Ok(record)
}

/// A prepared attempt that got its lease.
pub open spec fn acquire_changed(
    record: RecordView,
    prepared: PreparedView,
    owner_id: Seq<char>,
    now_ms: i64,
) -> Result<RecordView, AgentContinuationErrorView> {
    match first(
        prepared_identity_error(record, prepared),
        first(
            fault_if(
                record.current_attempt.state != AttemptState::Prepared || !(record.status
                    == ContinuationStatus::Created || record.status
                    == ContinuationStatus::Resuming),
                AgentContinuationErrorView::NotResumable { status: record.status },
            ),
            fault_if(
                record.current_attempt.lease_epoch == u64::MAX,
                corrupt("continuation lease epoch is exhausted"@),
            ),
        ),
    ) {
        Some(e) => Err(e),
        None => Ok(
            RecordView {
                status: ContinuationStatus::Running,
                current_attempt: AttemptView {
                    state: AttemptState::Running,
                    lease_epoch: (record.current_attempt.lease_epoch + 1) as u64,
                    owner_id: Some(owner_id),
                    lease_expires_at_ms: Some(lease_expiry(now_ms)),
                    started_at_ms: Some(now_ms),
                    ..record.current_attempt
                },
                updated_at_ms: now_ms,
                ..record
            },
        ),
    }
}

pub fn acquire_change(
    record: AgentContinuationRecord,
    prepared: &PreparedContinuation,
    owner_id: &String,
    now_ms: i64,
) -> (r: Result<AgentContinuationRecord, AgentContinuationError>)
    ensures
        outcome(r) == acquire_changed(record@, prepared@, owner_id@, now_ms),
{
    match validate_prepared_identity(&record, prepared) {
        Ok(_) => {},
        Err(e) => {
            return Err(e);
        },
    }
    if record.current_attempt.state != AttemptState::Prepared {
        return Err(AgentContinuationError::NotResumable { status: record.status });
    }
    if record.status != ContinuationStatus::Created && record.status
        != ContinuationStatus::Resuming {
        return Err(AgentContinuationError::NotResumable { status: record.status });
    }
    let mut record = record;
    match record.status.transition_to(ContinuationStatus::Running) {
        Ok(_) => {},
        Err(e) => {
            return Err(e);
        },
    }
    match record.current_attempt.state.transition_to(AttemptState::Running) {
        Ok(_) => {},
        Err(e) => {
            return Err(e);
        },
    }
    if record.current_attempt.lease_epoch == u64::MAX {
        return Err(corrupt_record("continuation lease epoch is exhausted"));
    }
    record.current_attempt.lease_epoch = record.current_attempt.lease_epoch + 1;
    record.current_attempt.owner_id = Some(owner_id.clone());
    record.current_attempt.lease_expires_at_ms = Some(lease_expires_at(now_ms));
    record.current_attempt.started_at_ms = Some(now_ms);
    record.updated_at_ms = now_ms;
    Ok(record)
}

/// A settled record: terminal attempt without owner or active tool.
pub open spec fn settled(record: RecordView, terminal: TerminalView, now_ms: i64) -> RecordView {
    RecordView {
        status: status_of_terminal(terminal),
        current_attempt: AttemptView {
            state: AttemptState::Terminal,
            owner_id: None,
            lease_expires_at_ms: None,
            completed_at_ms: Some(now_ms),
            ..record.current_attempt
        },
        active_tool_boundary: None,
        terminal: Some(terminal),
        updated_at_ms: now_ms,
        ..record
    }
}

/// A prepared attempt that could not start.
pub open spec fn prepared_terminal_changed(
    record: RecordView,
    prepared: PreparedView,
    terminal: TerminalView,
    now_ms: i64,
) -> Result<RecordView, AgentContinuationErrorView> {
    match first(
        prepared_identity_error(record, prepared),
        first(
            fault_if(
                record.current_attempt.state != AttemptState::Prepared || !(record.status
                    == ContinuationStatus::Created || record.status
                    == ContinuationStatus::Resuming),
                AgentContinuationErrorView::NotResumable { status: record.status },
            ),
            fault_if(
                !continuation_edge(record.status, status_of_terminal(terminal)),
                AgentContinuationErrorView::InvalidTransition {
                    from: record.status,
                    to: status_of_terminal(terminal),
                },
            ),
        ),
    ) {
        Some(e) => Err(e),
        None => Ok(
            RecordView {
                current_attempt: AttemptView {
                    state: AttemptState::Terminal,
                    completed_at_ms: Some(now_ms),
                    ..record.current_attempt
                },
                status: status_of_terminal(terminal),
                active_tool_boundary: None,
                terminal: Some(terminal),
                updated_at_ms: now_ms,
                ..record
            },
        ),
    }
}

pub fn prepared_terminal_change(
    record: AgentContinuationRecord,
    prepared: &PreparedContinuation,
    terminal: AgentTerminal,
    now_ms: i64,
) -> (r: Result<AgentContinuationRecord, AgentContinuationError>)
    ensures
        outcome(r) == prepared_terminal_changed(record@, prepared@, terminal@, now_ms),
{
    match validate_prepared_identity(&record, prepared) {
        Ok(_) => {},
        Err(e) => {
            return Err(e);
        },
    }
    if record.current_attempt.state != AttemptState::Prepared || (record.status
        != ContinuationStatus::Created && record.status != ContinuationStatus::Resuming) {
        return Err(AgentContinuationError::NotResumable { status: record.status });
    }
    let next_status = terminal_status(&terminal);
    let mut record = record;
    match record.status.transition_to(next_status) {
        Ok(_) => {},
        Err(e) => {
            return Err(e);
        },
    }
    match record.current_attempt.state.transition_to(AttemptState::Terminal) {
        Ok(_) => {},
        Err(e) => {
            return Err(e);
        },
    }
    record.current_attempt.completed_at_ms = Some(now_ms);
    record.active_tool_boundary = None;
    record.terminal = Some(terminal);
    record.updated_at_ms = now_ms;
    Ok(record)
}

/// Why a write under a lease is refused: the fence is stale or the lease is not
/// live.
pub open spec fn lease_write_error(
    record: RecordView,
    lease: LeaseView,
    expected: ContinuationRevision,
    now_ms: i64,
) -> Option<AgentContinuationErrorView> {
    first(
        fence_error(lease.fence(expected), record),
        live_lease_error(record, lease.owner_id, now_ms),
    )
}

/// The attempt is not executing.
pub open spec fn not_executing_error(record: RecordView) -> Option<AgentContinuationErrorView> {
    fault_if(
        record.current_attempt.state != AttemptState::Running || !(record.status
            == ContinuationStatus::Running || record.status == ContinuationStatus::Checkpointed),
        AgentContinuationErrorView::NotResumable { status: record.status },
    )
}

fn check_lease_write(
    record: &AgentContinuationRecord,
    lease: &ContinuationLease,
    expected_revision: ContinuationRevision,
    now_ms: i64,
) -> (r: Result<(), AgentContinuationError>)
    ensures
        crate::agent_continuation::error::agrees(
            r,
            lease_write_error(record@, lease@, expected_revision, now_ms),
        ),
{
    let fence = lease.fence(expected_revision);
    match fence.validate(record) {
        Ok(_) => {},
        Err(e) => {
            return Err(e);
        },
    }
    validate_live_lease(record, lease, now_ms)
}

fn check_executing(record: &AgentContinuationRecord) -> (r: Result<(), AgentContinuationError>)
    ensures
        crate::agent_continuation::error::agrees(r, not_executing_error(record@)),
{
    if record.current_attempt.state != AttemptState::Running || (record.status
        != ContinuationStatus::Running && record.status != ContinuationStatus::Checkpointed) {
        return Err(AgentContinuationError::NotResumable { status: record.status });
    }
    Ok(())
}

/// A lease with a later expiry.
pub open spec fn renew_changed(
    record: RecordView,
    lease: LeaseView,
    expected: ContinuationRevision,
    now_ms: i64,
) -> Result<RecordView, AgentContinuationErrorView> {
    match first(
        lease_write_error(record, lease, expected, now_ms),
        not_executing_error(record),
    ) {
        Some(e) => Err(e),
        None => Ok(
            RecordView {
                current_attempt: AttemptView {
                    lease_expires_at_ms: Some(lease_expiry(now_ms)),
                    ..record.current_attempt
                },
                updated_at_ms: now_ms,
                ..record
            },
        ),
    }
}

pub fn renew_change(
    record: AgentContinuationRecord,
    lease: &ContinuationLease,
    expected_revision: ContinuationRevision,
    now_ms: i64,
) -> (r: Result<AgentContinuationRecord, AgentContinuationError>)
    ensures
        outcome(r) == renew_changed(record@, lease@, expected_revision, now_ms),
{
    match check_lease_write(&record, lease, expected_revision, now_ms) {
        Ok(_) => {},
        Err(e) => {
            return Err(e);
        },
    }
    match check_executing(&record) {
        Ok(_) => {},
        Err(e) => {
            return Err(e);
        },
    }
    let mut record = record;
    record.current_attempt.lease_expires_at_ms = Some(lease_expires_at(now_ms));
    record.updated_at_ms = now_ms;
    Ok(record)
}

/// Why a checkpoint is not the next one of the current attempt.
pub open spec fn checkpoint_order_error(record: RecordView, checkpoint: CheckpointView) -> Option<
    AgentContinuationErrorView,
> {
    first(
        fault_if(
            checkpoint.attempt_id != record.current_attempt.attempt_id,
            AgentContinuationErrorView::AttemptMismatch {
                expected: record.current_attempt.attempt_id,
                actual: checkpoint.attempt_id,
            },
        ),
        first(
            fault_if(
                record.checkpoint is Some && record.checkpoint->0.sequence == u64::MAX,
                corrupt("continuation checkpoint sequence is exhausted"@),
            ),
            fault_if(
                checkpoint.sequence != (match record.checkpoint {
                    Some(previous) => previous.sequence + 1,
                    None => 0,
                }),
                corrupt("continuation checkpoint sequence is not the next value"@),
            ),
        ),
    )
}

/// A record with its next safe checkpoint, which covers any active tool.
pub open spec fn checkpoint_changed(
    record: RecordView,
    lease: LeaseView,
    expected: ContinuationRevision,
    checkpoint: CheckpointView,
    now_ms: i64,
) -> Result<RecordView, AgentContinuationErrorView> {
    match first(
        lease_write_error(record, lease, expected, now_ms),
        first(checkpoint_order_error(record, checkpoint), not_executing_error(record)),
    ) {
        Some(e) => Err(e),
        None => Ok(
            RecordView {
                status: ContinuationStatus::Checkpointed,
                checkpoint: Some(checkpoint),
                active_tool_boundary: None,
                updated_at_ms: now_ms,
                ..record
            },
        ),
    }
}

pub fn checkpoint_change(
    record: AgentContinuationRecord,
    lease: &ContinuationLease,
    expected_revision: ContinuationRevision,
    checkpoint: AgentCheckpoint,
    now_ms: i64,
) -> (r: Result<AgentContinuationRecord, AgentContinuationError>)
    ensures
        outcome(r) == checkpoint_changed(
            record@,
            lease@,
            expected_revision,
            checkpoint@,
            now_ms,
        ),
{
    match check_lease_write(&record, lease, expected_revision, now_ms) {
        Ok(_) => {},
        Err(e) => {
            return Err(e);
        },
    }
    if !checkpoint.attempt_id.same(&record.current_attempt.attempt_id) {
        return Err(
            AgentContinuationError::AttemptMismatch {
                expected: record.current_attempt.attempt_id.duplicate(),
                actual: checkpoint.attempt_id.duplicate(),
            },
        );
    }
    let expected_sequence: u64 = match &record.checkpoint {
        Some(previous) => {
            if previous.sequence == u64::MAX {
                return Err(corrupt_record("continuation checkpoint sequence is exhausted"));
            }
            previous.sequence + 1
        },
        None => 0,
    };
    if checkpoint.sequence != expected_sequence {
        return Err(corrupt_record("continuation checkpoint sequence is not the next value"));
    }
    match check_executing(&record) {
        Ok(_) => {},
        Err(e) => {
            return Err(e);
        },
    }
    let mut record = record;
    if record.status == ContinuationStatus::Running {
        match record.status.transition_to(ContinuationStatus::Checkpointed) {
            Ok(_) => {},
            Err(e) => {
                return Err(e);
            },
        }
    }
    record.checkpoint = Some(checkpoint);
    record.active_tool_boundary = None;
    record.updated_at_ms = now_ms;
    Ok(record)
}

/// A record whose executing attempt ended.
pub open spec fn terminal_changed(
    record: RecordView,
    lease: LeaseView,
    expected: ContinuationRevision,
    terminal: TerminalView,
    now_ms: i64,
) -> Result<RecordView, AgentContinuationErrorView> {
    match first(
        lease_write_error(record, lease, expected, now_ms),
        not_executing_error(record),
    ) {
        Some(e) => Err(e),
        None => Ok(settled(record, terminal, now_ms)),
    }
}

pub fn terminal_change(
    record: AgentContinuationRecord,
    lease: &ContinuationLease,
    expected_revision: ContinuationRevision,
    terminal: AgentTerminal,
    now_ms: i64,
) -> (r: Result<AgentContinuationRecord, AgentContinuationError>)
    ensures
        outcome(r) == terminal_changed(record@, lease@, expected_revision, terminal@, now_ms),
{
    match check_lease_write(&record, lease, expected_revision, now_ms) {
        Ok(_) => {},
        Err(e) => {
            return Err(e);
        },
    }
    match check_executing(&record) {
        Ok(_) => {},
        Err(e) => {
            return Err(e);
        },
    }
    let next_status = terminal_status(&terminal);
    let mut record = record;
    match record.status.transition_to(next_status) {
        Ok(_) => {},
        Err(e) => {
            return Err(e);
        },
    }
    match record.current_attempt.state.transition_to(AttemptState::Terminal) {
        Ok(_) => {},
        Err(e) => {
            return Err(e);
        },
    }
    record.current_attempt.owner_id = None;
    record.current_attempt.lease_expires_at_ms = None;
    record.current_attempt.completed_at_ms = Some(now_ms);
    record.active_tool_boundary = None;
    record.terminal = Some(terminal);
    record.updated_at_ms = now_ms;
    Ok(record)
}

/// A record whose attempt is about to invoke a tool.
pub open spec fn tool_boundary_changed(
    record: RecordView,
    lease: LeaseView,
    expected: ContinuationRevision,
    boundary: ToolBoundaryView,
    now_ms: i64,
) -> Result<RecordView, AgentContinuationErrorView> {
    match first(
        lease_write_error(record, lease, expected, now_ms),
        fault_if(
            record.current_attempt.state != AttemptState::Running,
            AgentContinuationErrorView::NotResumable { status: record.status },
        ),
    ) {
        Some(e) => Err(e),
        None => Ok(
            RecordView {
                active_tool_boundary: Some(boundary),
                updated_at_ms: now_ms,
                ..record
            },
        ),
    }
}

pub fn tool_boundary_change(
    record: AgentContinuationRecord,
    lease: &ContinuationLease,
    expected_revision: ContinuationRevision,
    boundary: ToolBoundary,
    now_ms: i64,
) -> (r: Result<AgentContinuationRecord, AgentContinuationError>)
    ensures
        outcome(r) == tool_boundary_changed(
            record@,
            lease@,
            expected_revision,
            boundary@,
            now_ms,
        ),
{
    match check_lease_write(&record, lease, expected_revision, now_ms) {
        Ok(_) => {},
        Err(e) => {
            return Err(e);
        },
    }
    if record.current_attempt.state != AttemptState::Running {
        return Err(AgentContinuationError::NotResumable { status: record.status });
    }
    let mut record = record;
    record.active_tool_boundary = Some(boundary);
    record.updated_at_ms = now_ms;
    Ok(record)
}

/// The attempt runs but its owner's lease is over.
pub open spec fn expired_owner(record: RecordView, now_ms: i64) -> bool {
    &&& record.current_attempt.state == AttemptState::Running
    &&& record.current_attempt.owner_id is Some
    &&& record.current_attempt.lease_expires_at_ms is Some ==>
        record.current_attempt.lease_expires_at_ms->0 <= now_ms
}

/// Execution stopped where it can be taken up again.
pub open spec fn stopped_safely(record: RecordView) -> bool {
    &&& record.checkpoint is Some
    &&& record.status == ContinuationStatus::Checkpointed
    &&& !(record.active_tool_boundary is Some && record.active_tool_boundary->0 is Indeterminate)
}

pub open spec fn orphan_reason() -> Seq<char> {
    "continuation owner expired without a safe checkpoint; inspect external state before retrying"@
}

/// A record without its expired owner: suspended where it stopped safely,
/// indeterminate otherwise.
pub open spec fn reconcile_changed(record: RecordView, now_ms: i64) -> Result<
    RecordView,
    AgentContinuationErrorView,
> {
    let orphaned = RecordView {
        current_attempt: AttemptView {
            owner_id: None,
            lease_expires_at_ms: None,
            ..record.current_attempt
        },
        updated_at_ms: now_ms,
        ..record
    };
    if record.current_attempt.state != AttemptState::Running || live_owner(record, now_ms) {
        Ok(record)
    } else if stopped_safely(record) {
        Ok(
            RecordView {
                status: ContinuationStatus::Suspended,
                current_attempt: AttemptView {
                    state: AttemptState::Suspended,
                    ..orphaned.current_attempt
                },
                ..orphaned
            },
        )
    } else if !continuation_edge(record.status, ContinuationStatus::Indeterminate) {
        Err(
            AgentContinuationErrorView::InvalidTransition {
                from: record.status,
                to: ContinuationStatus::Indeterminate,
            },
        )
    } else {
        Ok(settled(record, TerminalView::Indeterminate { reason: orphan_reason() }, now_ms))
    }
}

pub fn reconcile_change(record: AgentContinuationRecord, now_ms: i64) -> (r: Result<
    AgentContinuationRecord,
    AgentContinuationError,
>)
    ensures
        outcome(r) == reconcile_changed(record@, now_ms),
{
    if record.current_attempt.state != AttemptState::Running || record_has_live_owner(
        &record,
        now_ms,
    ) {
        return Ok(record);
    }
    let tool_unknown = match &record.active_tool_boundary {
        Some(boundary) => boundary.is_indeterminate(),
        None => false,
    };
    let mut record = record;
    record.current_attempt.owner_id = None;
    record.current_attempt.lease_expires_at_ms = None;
    record.updated_at_ms = now_ms;
    if record.checkpoint.is_some() && record.status == ContinuationStatus::Checkpointed
        && !tool_unknown {
        match record.status.transition_to(ContinuationStatus::Suspended) {
            Ok(_) => {},
            Err(e) => {
                return Err(e);
            },
        }
        match record.current_attempt.state.transition_to(AttemptState::Suspended) {
            Ok(_) => {},
            Err(e) => {
                return Err(e);
            },
        }
    } else {
        match record.status.transition_to(ContinuationStatus::Indeterminate) {
            Ok(_) => {},
            Err(e) => {
                return Err(e);
            },
        }
        match record.current_attempt.state.transition_to(AttemptState::Terminal) {
            Ok(_) => {},
            Err(e) => {
                return Err(e);
            },
        }
        record.current_attempt.completed_at_ms = Some(now_ms);
        record.active_tool_boundary = None;
        record.terminal =
        Some(
            AgentTerminal::Indeterminate {
                reason:
                    "continuation owner expired without a safe checkpoint; inspect external state before retrying".to_owned(),
            },
        );
    }
    Ok(record)
}

/// What reconciliation makes of a record, and whether it changed it.
#[verifier::opaque]
pub open spec fn reconciled(record: RecordView, now_ms: i64) -> Result<
    (RecordView, bool),
    AgentContinuationErrorView,
> {
    if !expired_owner(record, now_ms) {
        Ok((record, false))
    } else {
        match admission_error(
            record,
            record.continuation_id,
            record.parent_session_id,
            record.revision,
        ) {
            Some(e) => Err(e),
            None => match committed(
                record,
                record.continuation_id,
                record.parent_session_id,
                record.revision,
                reconcile_changed(record, now_ms),
            ) {
                Err(e) => Err(e),
                Ok(next) => Ok((next, true)),
            },
        }
    }
}

/// Takes the lease from an owner that let it expire.
pub fn reconcile_expired_record(record: AgentContinuationRecord, now_ms: i64) -> (r: Result<
    (AgentContinuationRecord, bool),
    AgentContinuationError,
>)
    ensures
        match r {
            Ok((next, changed)) => reconciled(record@, now_ms) == Ok::<
                (RecordView, bool),
                AgentContinuationErrorView,
            >((next@, changed)),
            Err(e) => reconciled(record@, now_ms) == Err::<
                (RecordView, bool),
                AgentContinuationErrorView,
            >(e@),
        },
{
    proof {
        reveal(reconciled);
    }
    let expired = record.current_attempt.state == AttemptState::Running
        && record.current_attempt.owner_id.is_some() && match record.current_attempt.lease_expires_at_ms {
        Some(expires_at_ms) => expires_at_ms <= now_ms,
        None => true,
    };
    if !expired {
        return Ok((record, false));
    }
    let continuation_id = record.continuation_id.duplicate();
    let parent_session_id = record.parent_session_id.clone();
    let expected_revision = record.revision;
    let mutate = |record: AgentContinuationRecord| -> (changed: Result<
        AgentContinuationRecord,
        AgentContinuationError,
    >)
        ensures
            outcome(changed) == reconcile_changed(record@, now_ms),
        { reconcile_change(record, now_ms) };
    match mutate_validated_record(
        record,
        &continuation_id,
        parent_session_id.as_str(),
        expected_revision,
        mutate,
    ) {
        Ok(next) => Ok((next, true)),
        Err(e) => Err(e),
    }
}

/// A commit advances the revision by exactly one, never moves the update time
/// back, and leaves a valid record of the same lineage and parent.
pub proof fn commits_advance_the_revision(
    record: RecordView,
    id: Seq<char>,
    parent: Seq<char>,
    expected: ContinuationRevision,
    changed: Result<RecordView, AgentContinuationErrorView>,
)
    requires
        committed(record, id, parent, expected, changed) is Ok,
    ensures
        ({
            let next = committed(record, id, parent, expected, changed)->Ok_0;
            &&& next.revision.value == expected.value + 1
            &&& next.updated_at_ms >= record.updated_at_ms
            &&& next.continuation_id == id
            &&& next.parent_session_id == parent
            &&& record_error(next, Some(id), Some(parent)) is None
        }),
{
}

/// A writer whose fence is stale in any component is refused, whatever it
/// writes.
pub proof fn stale_writers_are_refused(
    record: RecordView,
    lease: LeaseView,
    expected: ContinuationRevision,
    checkpoint: CheckpointView,
    terminal: TerminalView,
    boundary: ToolBoundaryView,
    now_ms: i64,
)
    requires
        lease.continuation_id != record.continuation_id || lease.attempt_id
            != record.current_attempt.attempt_id || lease.lease_epoch
            != record.current_attempt.lease_epoch || expected != record.revision,
    ensures
        renew_changed(record, lease, expected, now_ms) is Err,
        checkpoint_changed(record, lease, expected, checkpoint, now_ms) is Err,
        terminal_changed(record, lease, expected, terminal, now_ms) is Err,
        tool_boundary_changed(record, lease, expected, boundary, now_ms) is Err,
{
}

/// Nobody but the owner of a live lease writes under it.
pub proof fn only_the_live_owner_writes(
    record: RecordView,
    lease: LeaseView,
    expected: ContinuationRevision,
    checkpoint: CheckpointView,
    terminal: TerminalView,
    boundary: ToolBoundaryView,
    now_ms: i64,
)
    requires
        !live_owner(record, now_ms) || record.current_attempt.owner_id != Some(lease.owner_id),
    ensures
        renew_changed(record, lease, expected, now_ms) is Err,
        checkpoint_changed(record, lease, expected, checkpoint, now_ms) is Err,
        terminal_changed(record, lease, expected, terminal, now_ms) is Err,
        tool_boundary_changed(record, lease, expected, boundary, now_ms) is Err,
{
}

/// A safe checkpoint clears an indeterminate tool boundary.
pub proof fn safe_checkpoints_clear_indeterminate_tools(
    record: RecordView,
    lease: LeaseView,
    expected: ContinuationRevision,
    checkpoint: CheckpointView,
    now_ms: i64,
)
    requires
        checkpoint_changed(record, lease, expected, checkpoint, now_ms) is Ok,
        !checkpoint.boundary_unsafe(),
    ensures
        !indeterminate(checkpoint_changed(record, lease, expected, checkpoint, now_ms)->Ok_0),
{
}

/// An expired owner of a valid record is reconciled: to a suspended lineage
/// where execution stopped at a safe checkpoint, and otherwise to an
/// indeterminate one, so that external work is never replayed. Either way no
/// owner is left. (The clock must not be behind the record's own times.)
pub proof fn expired_owners_are_reconciled(record: RecordView, now_ms: i64)
    requires
        record_error(record, Some(record.continuation_id), Some(record.parent_session_id)) is None,
        expired_owner(record, now_ms),
        record.updated_at_ms <= now_ms,
        record.current_attempt.started_at_ms->0 <= now_ms,
        record.revision.value < u64::MAX,
    ensures
        ({
            let outcome = reconciled(record, now_ms);
            &&& outcome is Ok
            &&& outcome->Ok_0.1
            &&& outcome->Ok_0.0.current_attempt.owner_id is None
            &&& outcome->Ok_0.0.status == (if stopped_safely(record) {
                ContinuationStatus::Suspended
            } else {
                ContinuationStatus::Indeterminate
            })
            &&& outcome->Ok_0.0.revision.value == record.revision.value + 1
        }),
{
    reveal(reconciled);
}

/// Reconciling again changes nothing more.
pub proof fn reconciliation_is_idempotent(record: RecordView, now_ms: i64, later_ms: i64)
    requires
        reconciled(record, now_ms) is Ok,
        reconciled(record, now_ms)->Ok_0.1,
    ensures
        reconciled(reconciled(record, now_ms)->Ok_0.0, later_ms) == Ok::<
            (RecordView, bool),
            AgentContinuationErrorView,
        >((reconciled(record, now_ms)->Ok_0.0, false)),
{
    reveal(reconciled);
}

/// A renewal keeps the identity of the lease: the owner, the epoch and the
/// attempt stay, only the expiry moves.
pub proof fn renewal_keeps_the_lease_identity(
    record: RecordView,
    lease: LeaseView,
    expected: ContinuationRevision,
    now_ms: i64,
)
    requires
        renew_changed(record, lease, expected, now_ms) is Ok,
    ensures
        ({
            let next = renew_changed(record, lease, expected, now_ms)->Ok_0;
            &&& next.current_attempt.attempt_id == lease.attempt_id
            &&& next.current_attempt.owner_id == Some(lease.owner_id)
            &&& next.current_attempt.lease_epoch == lease.lease_epoch
            &&& next.current_attempt.lease_expires_at_ms == Some(lease_expiry(now_ms))
            &&& next.status == record.status
            &&& next.checkpoint == record.checkpoint
        }),
{
}

/// Each acquisition fences off every earlier lease: its epoch is higher.
pub proof fn acquisition_raises_the_epoch(
    record: RecordView,
    prepared: PreparedView,
    owner_id: Seq<char>,
    now_ms: i64,
)
    requires
        acquire_changed(record, prepared, owner_id, now_ms) is Ok,
    ensures
        acquire_changed(record, prepared, owner_id, now_ms)->Ok_0.current_attempt.lease_epoch
            == record.current_attempt.lease_epoch + 1,
{
}

/// A new attempt keeps the lineage: its checkpoint, its compatibility identity
/// and its lease epoch stay, and it is seeded by the attempt of the checkpoint.
pub proof fn resumption_keeps_the_lineage(
    record: RecordView,
    parent_task_id: Option<Seq<char>>,
    task_id: Seq<char>,
    prompt_id: Seq<char>,
    attempt_id: Seq<char>,
    compatibility: CompatibilityView,
    facts: WorkspaceFacts,
    now_ms: i64,
)
    requires
        resume_changed(
            record,
            parent_task_id,
            task_id,
            prompt_id,
            attempt_id,
            compatibility,
            facts,
            now_ms,
        ) is Ok,
    ensures
        ({
            let next = resume_changed(
                record,
                parent_task_id,
                task_id,
                prompt_id,
                attempt_id,
                compatibility,
                facts,
                now_ms,
            )->Ok_0;
            &&& next.checkpoint == record.checkpoint
            &&& next.compatibility() == record.compatibility()
            &&& next.current_attempt.lease_epoch == record.current_attempt.lease_epoch
            &&& next.current_attempt.resumed_from_attempt_id == Some(
                record.checkpoint->0.attempt_id,
            )
            &&& !indeterminate(next)
            &&& next.source_task_id == record.source_task_id
        }),
{
}

} // verus!
