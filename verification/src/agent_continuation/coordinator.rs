//! Creation, resumption and settlement of child continuations.
//!
//! Every operation works on the store first. The projection that it hands out
//! is what the task registry is to install afterwards; a failure to do so does
//! not take the committed record back.

use vstd::prelude::*;
use vstd::string::*;
use crate::agent_continuation::changes::{
    acquire_change, acquire_changed, checkpoint_change, checkpoint_changed, committed, outcome,
    prepared_terminal_change, prepared_terminal_changed, renew_change, renew_changed,
    resume_change, resume_changed, terminal_change, terminal_changed, tool_boundary_change,
    tool_boundary_changed, fresh_attempt,
};
use crate::agent_continuation::error::{
    agrees, corrupt, corrupt_record, AgentContinuationError, AgentContinuationErrorView,
};
use crate::agent_continuation::ids::{
    is_uuid_v7, fresh_uuid_v7, AgentAttemptId, AgentContinuationId, ContinuationRevision,
};
use crate::agent_continuation::record::{
    ensure_checkpoint_boundary_safe, prepared_of, projection_of, same_worktree, AgentAttemptRecord,
    AgentCheckpoint, AgentContinuationRecord, AgentTerminal, CheckpointView, CompatibilityView,
    ContinuationLease, ContinuationProjection, CreateContinuationInput, LeaseView,
    PreparedContinuation, PreparedView, RecordView, ResumeContinuationInput, TerminalView,
    AGENT_CONTINUATION_SCHEMA_VERSION,
};
use crate::agent_continuation::status::{AttemptState, ContinuationStatus};
use crate::agent_continuation::store::AgentContinuationStore;
use crate::agent_continuation::validation::{
    compatibility_shape_error, ensure_record_resumable, existing_owner_lease, fault_if, first,
    lease_from_record, lease_held, lease_of, live_lease_error, prepared_identity_error,
    reject_live_owner, resumability_error, resume_request_error, task_binding_error,
    unsafe_checkpoint_error, validate_compatibility_shape, validate_prepared_identity,
    validate_resume_request, validate_task_binding, WorkspaceFacts,
};
use crate::conversation::{ToolBoundary, ToolBoundaryView};
use crate::text::{
    decimal, decimal_of, is_blank, opt_chars, plus, plus3, same_opt_text, trim, trimmed, blank,
};

verus! {

/// What the task registry knows about a selector that is no identity.
#[derive(Debug)]
pub enum TaskLookup {
    Found(AgentContinuationId),
    Missing,
    Failed(String),
}

/// The identity that a selector stands for: itself where it is one, otherwise
/// what the task registry found.
pub open spec fn selected(selector: Seq<char>, lookup: TaskLookup) -> Result<
    Seq<char>,
    AgentContinuationErrorView,
> {
    if trimmed(selector).len() == 0 {
        Err(AgentContinuationErrorView::NotFound)
    } else if is_uuid_v7(trimmed(selector)) {
        Ok(trimmed(selector))
    } else {
        match lookup {
            TaskLookup::Found(id) => Ok(id@),
            TaskLookup::Missing => Err(AgentContinuationErrorView::NotFound),
            TaskLookup::Failed(message) => Err(
                AgentContinuationErrorView::Persistence {
                    message: "failed to resolve continuation task projection: "@ + message@,
                },
            ),
        }
    }
}

/// Resolves a UUIDv7 continuation directly and any other selector through the
/// task registry.
pub fn resolve_selector(selector: &str, lookup: &TaskLookup) -> (r: Result<
    AgentContinuationId,
    AgentContinuationError,
>)
    ensures
        match r {
            Ok(id) => selected(selector@, *lookup) == Ok::<Seq<char>, AgentContinuationErrorView>(
                id@,
            ),
            Err(e) => selected(selector@, *lookup) == Err::<Seq<char>, AgentContinuationErrorView>(
                e@,
            ),
        },
{
    let text = trim(selector);
    if text.as_str().is_empty() {
        return Err(AgentContinuationError::NotFound);
    }
    if let Ok(id) = AgentContinuationId::parse(text) {
        return Ok(id);
    }
    match lookup {
        TaskLookup::Found(id) => Ok(id.duplicate()),
        TaskLookup::Missing => Err(AgentContinuationError::NotFound),
        TaskLookup::Failed(message) => Err(
            AgentContinuationError::Persistence {
                message: plus(
                    "failed to resolve continuation task projection: ",
                    message.as_str(),
                ),
            },
        ),
    }
}

/// The failure to install a projection after its record was committed.
pub fn projection_install_error(message: &str) -> (r: AgentContinuationError)
    ensures
        r@ == (AgentContinuationErrorView::Persistence {
            message: "continuation record committed but task projection update failed: "@
                + message@,
        }),
{
    AgentContinuationError::Persistence {
        message: plus(
            "continuation record committed but task projection update failed: ",
            message,
        ),
    }
}

/// The failure to open the continuation store of a task registry.
pub fn store_open_error(message: &str) -> (r: AgentContinuationError)
    ensures
        r@ == (AgentContinuationErrorView::Persistence {
            message: "failed to open continuation store: "@ + message@,
        }),
{
    AgentContinuationError::Persistence {
        message: plus("failed to open continuation store: ", message),
    }
}

/// A request for a new lineage, without its identity.
pub ghost struct CreateView {
    pub parent_task_id: Option<Seq<char>>,
    pub task_id: Seq<char>,
    pub prompt_id: Seq<char>,
    pub compatibility: CompatibilityView,
}

pub open spec fn create_view(input: CreateContinuationInput) -> CreateView {
    CreateView {
        parent_task_id: opt_chars(input.parent_task_id),
        task_id: input.task_id@,
        prompt_id: input.prompt_id@,
        compatibility: input.compatibility@,
    }
}

/// The record of a new lineage.
pub open spec fn created_record(
    parent: Seq<char>,
    id: Seq<char>,
    attempt_id: Seq<char>,
    input: CreateView,
    now_ms: i64,
) -> RecordView {
    RecordView {
        schema_version: AGENT_CONTINUATION_SCHEMA_VERSION,
        continuation_id: id,
        parent_session_id: parent,
        parent_task_id: input.parent_task_id,
        source_task_id: input.task_id,
        latest_task_id: input.task_id,
        subagent_type: input.compatibility.subagent_type,
        model: input.compatibility.model,
        isolation: input.compatibility.isolation,
        effective_cwd: input.compatibility.effective_cwd,
        worktree: input.compatibility.worktree,
        compatibility_hash: input.compatibility.compatibility_hash,
        revision: ContinuationRevision { value: 0 },
        status: ContinuationStatus::Created,
        current_attempt: fresh_attempt(attempt_id, None, 0, input.prompt_id),
        checkpoint: None,
        active_tool_boundary: None,
        terminal: None,
        created_at_ms: now_ms,
        updated_at_ms: now_ms,
    }
}

/// The record was created by the very same request.
pub open spec fn same_request(record: RecordView, input: CreateView) -> bool {
    &&& record.parent_task_id == input.parent_task_id
    &&& record.source_task_id == input.task_id
    &&& record.latest_task_id == input.task_id
    &&& record.current_attempt.prompt_id == input.prompt_id
    &&& record.compatibility() == input.compatibility
}

/// What an operation comes to: a record and whether it was written, or an
/// error.
pub type Settlement = Result<(RecordView, bool), AgentContinuationErrorView>;

/// What creating a lineage comes to.
pub open spec fn create_outcome(
    store: AgentContinuationStore,
    id: Seq<char>,
    attempt_id: Seq<char>,
    input: CreateView,
    facts: WorkspaceFacts,
    now_ms: i64,
) -> Settlement {
    let record = created_record(store.parent(), id, attempt_id, input, now_ms);
    match first(
        task_binding_error(input.parent_task_id, input.task_id),
        first(compatibility_shape_error(input.compatibility, facts), store.load_error(id)),
    ) {
        Some(e) => Err(e),
        None => if store.indexed(id) is Some {
            if same_request(store.stored(id)->0, input) {
                Ok((store.stored(id)->0, false))
            } else {
                Err(AgentContinuationErrorView::AlreadyExists { continuation_id: id })
            }
        } else {
            match store.creation_error(record) {
                Some(e) => Err(e),
                None => Ok((record, true)),
            }
        },
    }
}

/// What a mutation in the store comes to.
pub open spec fn store_commit(
    store: AgentContinuationStore,
    id: Seq<char>,
    expected: ContinuationRevision,
    changed: Result<RecordView, AgentContinuationErrorView>,
) -> Settlement {
    match store.mutation_error(id, expected) {
        Some(e) => Err(e),
        None => match committed(store.stored(id)->0, id, store.parent(), expected, changed) {
            Err(e) => Err(e),
            Ok(record) => Ok((record, true)),
        },
    }
}

/// What is found under an identity, or why nothing is.
pub open spec fn found_error(store: AgentContinuationStore, id: Seq<char>) -> Option<
    AgentContinuationErrorView,
> {
    match store.indexed(id) {
        None => Some(AgentContinuationErrorView::NotFound),
        Some(_) => store.load_error(id),
    }
}

pub open spec fn resume_outcome(
    store: AgentContinuationStore,
    id: Seq<char>,
    attempt_id: Seq<char>,
    input: CreateView,
    facts: WorkspaceFacts,
    now_ms: i64,
) -> Settlement {
    let record = store.stored(id)->0;
    match first(
        found_error(store, id),
        resume_request_error(record, input.parent_task_id, input.compatibility, facts),
    ) {
        Some(e) => Err(e),
        None => if record.current_attempt.prompt_id == input.prompt_id {
            Ok((record, false))
        } else {
            match first(
                fault_if(
                    crate::agent_continuation::record::live_owner(record, now_ms),
                    lease_held(record),
                ),
                resumability_error(record),
            ) {
                Some(e) => Err(e),
                None => store_commit(
                    store,
                    id,
                    record.revision,
                    resume_changed(
                        record,
                        input.parent_task_id,
                        input.task_id,
                        input.prompt_id,
                        attempt_id,
                        input.compatibility,
                        facts,
                        now_ms,
                    ),
                ),
            }
        },
    }
}

pub open spec fn acquire_outcome(
    store: AgentContinuationStore,
    prepared: PreparedView,
    owner_id: Seq<char>,
    now_ms: i64,
) -> Settlement {
    let id = prepared.continuation_id;
    let record = store.stored(id)->0;
    match first(found_error(store, id), prepared_identity_error(record, prepared)) {
        Some(e) => Err(e),
        None => if record.current_attempt.state == AttemptState::Running {
            match live_lease_error(record, owner_id, now_ms) {
                Some(e) => Err(e),
                None => Ok((record, false)),
            }
        } else {
            store_commit(
                store,
                id,
                prepared.revision,
                acquire_changed(record, prepared, owner_id, now_ms),
            )
        },
    }
}

pub open spec fn checkpoint_outcome(
    store: AgentContinuationStore,
    lease: LeaseView,
    expected: ContinuationRevision,
    checkpoint: CheckpointView,
    now_ms: i64,
) -> Settlement {
    let id = lease.continuation_id;
    let record = store.stored(id)->0;
    let retried = record.checkpoint is Some && record.checkpoint->0.checkpoint_id
        == checkpoint.checkpoint_id;
    match first(unsafe_checkpoint_error(checkpoint), found_error(store, id)) {
        Some(e) => Err(e),
        None => if retried && record.checkpoint->0 != checkpoint {
            Err(corrupt("checkpoint retry reuses an identity with different content"@))
        } else if retried && record.current_attempt.attempt_id == lease.attempt_id
            && record.checkpoint->0.attempt_id == lease.attempt_id {
            Ok((record, false))
        } else {
            store_commit(
                store,
                id,
                expected,
                checkpoint_changed(record, lease, expected, checkpoint, now_ms),
            )
        },
    }
}

pub open spec fn terminal_outcome(
    store: AgentContinuationStore,
    lease: LeaseView,
    expected: ContinuationRevision,
    terminal: TerminalView,
    now_ms: i64,
) -> Settlement {
    let id = lease.continuation_id;
    let record = store.stored(id)->0;
    match found_error(store, id) {
        Some(e) => Err(e),
        None => if record.current_attempt.attempt_id == lease.attempt_id
            && record.current_attempt.state == AttemptState::Terminal {
            if record.terminal == Some(terminal) {
                Ok((record, false))
            } else {
                Err(corrupt("terminal retry conflicts with the committed terminal outcome"@))
            }
        } else {
            store_commit(
                store,
                id,
                expected,
                terminal_changed(record, lease, expected, terminal, now_ms),
            )
        },
    }
}

pub open spec fn tool_boundary_outcome(
    store: AgentContinuationStore,
    lease: LeaseView,
    expected: ContinuationRevision,
    boundary: ToolBoundaryView,
    now_ms: i64,
) -> Settlement {
    let id = lease.continuation_id;
    let record = store.stored(id)->0;
    match found_error(store, id) {
        Some(e) => Err(e),
        None => if record.current_attempt.attempt_id == lease.attempt_id
            && record.active_tool_boundary == Some(boundary) {
            Ok((record, false))
        } else {
            store_commit(
                store,
                id,
                expected,
                tool_boundary_changed(record, lease, expected, boundary, now_ms),
            )
        },
    }
}

/// The store follows a settlement: only a written record changes it.
pub open spec fn follows(
    new: AgentContinuationStore,
    old: AgentContinuationStore,
    id: Seq<char>,
    settlement: Settlement,
) -> bool {
    match settlement {
        Ok((record, true)) => new.updated_from(&old, id, record),
        _ => new.same_contents(&old),
    }
}

/// The error of a settlement.
pub open spec fn settlement_error(settlement: Settlement) -> Option<AgentContinuationErrorView> {
    match settlement {
        Ok(_) => None,
        Err(e) => Some(e),
    }
}

/// The projection of the settled record, or the settlement's error.
pub open spec fn projects(
    r: Result<ContinuationProjection, AgentContinuationError>,
    settlement: Settlement,
    now_ms: i64,
) -> bool {
    &&& agrees(r, settlement_error(settlement))
    &&& r matches Ok(projection) ==> projection@ == projection_of(settlement->Ok_0.0, now_ms)
}

/// A creation of the lineage `id` with the attempt `attempt_id` settled as it
/// should.
pub open spec fn creates(
    old: AgentContinuationStore,
    new: AgentContinuationStore,
    id: Seq<char>,
    attempt_id: Seq<char>,
    request: CreateView,
    facts: WorkspaceFacts,
    now_ms: i64,
    r: Result<(PreparedContinuation, ContinuationProjection), AgentContinuationError>,
) -> bool {
    let settlement = create_outcome(old, id, attempt_id, request, facts, now_ms);
    &&& agrees(r, settlement_error(settlement))
    &&& match settlement {
        Ok((record, true)) => new.created_from(&old, record),
        _ => new.same_contents(&old),
    }
    &&& match r {
        Ok((prepared, projection)) => {
            &&& prepared@ == prepared_of(settlement->Ok_0.0)
            &&& projection@ == projection_of(settlement->Ok_0.0, now_ms)
        },
        Err(_) => true,
    }
}

/// A resumption by the attempt `attempt_id` settled as it should.
pub open spec fn resumes(
    old: AgentContinuationStore,
    new: AgentContinuationStore,
    id: Seq<char>,
    attempt_id: Seq<char>,
    request: CreateView,
    facts: WorkspaceFacts,
    now_ms: i64,
    r: Result<(PreparedContinuation, ContinuationProjection), AgentContinuationError>,
) -> bool {
    let settlement = resume_outcome(old, id, attempt_id, request, facts, now_ms);
    &&& agrees(r, settlement_error(settlement))
    &&& follows(new, old, id, settlement)
    &&& match r {
        Ok((prepared, projection)) => {
            &&& prepared@ == prepared_of(settlement->Ok_0.0)
            &&& projection@ == projection_of(settlement->Ok_0.0, now_ms)
        },
        Err(_) => true,
    }
}

/// Coordinates child continuations for one runtime owner.
pub struct ChildAgentCoordinator {
    pub store: AgentContinuationStore,
    pub owner_id: String,
}

impl ChildAgentCoordinator {
    pub open spec fn owner(&self) -> Seq<char> {
        self.owner_id@
    }

    /// A coordinator whose owner identity is that of a process and a new UUID.
    pub fn new(store: AgentContinuationStore, process_id: u32) -> (r: Result<
        Self,
        AgentContinuationError,
    >)
        ensures
            match r {
                Ok(c) => c.store == store && exists|id: Seq<char>| #[trigger]
                    is_uuid_v7(id) && c.owner() == "continuation:"@ + decimal_of(process_id as nat)
                        + ":"@ + id,
                Err(_) => false,
            },
    {
        let id = fresh_uuid_v7();
        let mut owner_id = plus3("continuation:", decimal(process_id as u64).as_str(), ":");
        owner_id.append(id.as_str());
        proof {
            reveal_strlit("continuation:");
            assert(owner_id@[0] == 'c');
            assert(is_uuid_v7(id@));
            assert(!blank(owner_id@)) by {
                assert(!crate::text::white_space(owner_id@[0]));
            }
        }
        Self::with_owner_id(store, owner_id)
    }

    /// A coordinator with an explicit owner identity, which must not be blank.
    pub fn with_owner_id(store: AgentContinuationStore, owner_id: String) -> (r: Result<
        Self,
        AgentContinuationError,
    >)
        ensures
            agrees(r, fault_if(blank(owner_id@), corrupt("continuation owner id is empty"@))),
            r matches Ok(c) ==> c.store == store && c.owner() == owner_id@,
    {
        if is_blank(owner_id.as_str()) {
            return Err(corrupt_record("continuation owner id is empty"));
        }
        Ok(ChildAgentCoordinator { store, owner_id })
    }

    pub fn owner_id(&self) -> (r: &str)
        ensures
            r@ == self.owner(),
    {
        self.owner_id.as_str()
    }

    /// Loads a record that must exist.
    fn load(&self, id: &AgentContinuationId) -> (r: Result<
        AgentContinuationRecord,
        AgentContinuationError,
    >)
        requires
            self.store.wf(),
        ensures
            agrees(r, found_error(self.store, id@)),
            r matches Ok(record) ==> self.store.stored(id@) == Some(record@),
    {
        match self.store.load_record(id) {
            Ok(Some(record)) => Ok(record),
            Ok(None) => Err(AgentContinuationError::NotFound),
            Err(e) => Err(e),
        }
    }

    /// Creates a lineage, or finds the one that the same request created
    /// before. Without an identity in the request a new one is chosen.
    pub fn create(
        &mut self,
        input: CreateContinuationInput,
        facts: WorkspaceFacts,
        now_ms: i64,
    ) -> (r: Result<(PreparedContinuation, ContinuationProjection), AgentContinuationError>)
        requires
            old(self).store.wf(),
        ensures
            final(self).store.wf(),
            final(self).owner() == old(self).owner(),
            exists|id: Seq<char>, attempt_id: Seq<char>|
                {
                    &&& is_uuid_v7(attempt_id)
                    &&& match input.continuation_id {
                        Some(asked) => id == asked@,
                        None => is_uuid_v7(id),
                    }
                    &&& #[trigger] creates(
                        old(self).store,
                        final(self).store,
                        id,
                        attempt_id,
                        create_view(input),
                        facts,
                        now_ms,
                        r,
                    )
                },
    {
        let ghost view = create_view(input);
        let ghost asked = input.continuation_id;
        let attempt_id = AgentAttemptId::new();
        let ghost attempt = attempt_id@;
        let continuation_id = match input.continuation_id {
            Some(id) => id,
            None => AgentContinuationId::new(),
        };
        let ghost id = continuation_id@;
        let request = CreateContinuationInput {
            continuation_id: None,
            parent_task_id: input.parent_task_id,
            task_id: input.task_id,
            prompt_id: input.prompt_id,
            compatibility: input.compatibility,
        };
        let r = self.create_lineage(continuation_id, attempt_id, request, facts, now_ms);
        assert(is_uuid_v7(attempt));
        assert(match asked {
            Some(asked) => id == asked@,
            None => is_uuid_v7(id),
        });
        assert(creates(old(self).store, self.store, id, attempt, view, facts, now_ms, r));
        r
    }

    /// Creates the lineage `continuation_id` with the attempt `attempt_id`, or
    /// finds the one that the same request created before. The identity in the
    /// request itself is not looked at.
    pub fn create_lineage(
        &mut self,
        continuation_id: AgentContinuationId,
        attempt_id: AgentAttemptId,
        input: CreateContinuationInput,
        facts: WorkspaceFacts,
        now_ms: i64,
    ) -> (r: Result<(PreparedContinuation, ContinuationProjection), AgentContinuationError>)
        requires
            old(self).store.wf(),
        ensures
            final(self).store.wf(),
            final(self).owner() == old(self).owner(),
            creates(
                old(self).store,
                final(self).store,
                continuation_id@,
                attempt_id@,
                create_view(input),
                facts,
                now_ms,
                r,
            ),
    {
        let ghost view = create_view(input);
        let ghost attempt = attempt_id@;
        let ghost id = continuation_id@;
        match validate_task_binding(&input.parent_task_id, input.task_id.as_str()) {
            Ok(_) => {},
            Err(e) => {
                return Err(e);
            },
        }
        match validate_compatibility_shape(&input.compatibility, facts) {
            Ok(_) => {},
            Err(e) => {
                return Err(e);
            },
        }
        match self.store.load_record(&continuation_id) {
            Err(e) => {
                return Err(e);
            },
            Ok(Some(record)) => {
                let compatibility = &input.compatibility;
                let same = same_opt_text(&record.parent_task_id, &input.parent_task_id)
                    && record.source_task_id == input.task_id && record.latest_task_id
                    == input.task_id && record.current_attempt.prompt_id.same(&input.prompt_id)
                    && record.subagent_type == compatibility.subagent_type && same_opt_text(
                    &record.model,
                    &compatibility.model,
                ) && record.isolation == compatibility.isolation && record.effective_cwd
                    == compatibility.effective_cwd && same_worktree(
                    &record.worktree,
                    &compatibility.worktree,
                ) && record.compatibility_hash.same(&compatibility.compatibility_hash);
                if same {
                    let prepared = PreparedContinuation::from_record(&record);
                    let projection = ContinuationProjection::from_record(&record, now_ms);
                    return Ok((prepared, projection));
                }
                return Err(AgentContinuationError::AlreadyExists { continuation_id });
            },
            Ok(None) => {},
        }
        let record = AgentContinuationRecord {
            schema_version: AGENT_CONTINUATION_SCHEMA_VERSION,
            continuation_id,
            parent_session_id: self.store.parent_session_id().to_owned(),
            parent_task_id: input.parent_task_id,
            source_task_id: input.task_id.clone(),
            latest_task_id: input.task_id,
            subagent_type: input.compatibility.subagent_type,
            model: input.compatibility.model,
            isolation: input.compatibility.isolation,
            effective_cwd: input.compatibility.effective_cwd,
            worktree: input.compatibility.worktree,
            compatibility_hash: input.compatibility.compatibility_hash,
            revision: ContinuationRevision::zero(),
            status: ContinuationStatus::Created,
            current_attempt: AgentAttemptRecord {
                attempt_id,
                resumed_from_attempt_id: None,
                owner_id: None,
                lease_epoch: 0,
                lease_expires_at_ms: None,
                state: AttemptState::Prepared,
                prompt_id: input.prompt_id,
                started_at_ms: None,
                completed_at_ms: None,
            },
            checkpoint: None,
            active_tool_boundary: None,
            terminal: None,
            created_at_ms: now_ms,
            updated_at_ms: now_ms,
        };
        assert(record@ == created_record(old(self).store.parent(), id, attempt, view, now_ms));
        match self.store.create_record(record) {
            Err(e) => Err(e),
            Ok(record) => {
                let prepared = PreparedContinuation::from_record(&record);
                let projection = ContinuationProjection::from_record(&record, now_ms);
                Ok((prepared, projection))
            },
        }
    }

    /// Why the startup facts behind a selector cannot be handed out.
    pub open spec fn prepared_error(
        store: AgentContinuationStore,
        id: Seq<char>,
        facts: WorkspaceFacts,
    ) -> Option<AgentContinuationErrorView> {
        first(
            found_error(store, id),
            first(
                compatibility_shape_error(store.stored(id)->0.compatibility(), facts),
                match store.stored(id)->0.checkpoint {
                    Some(checkpoint) => unsafe_checkpoint_error(checkpoint),
                    None => None,
                },
            ),
        )
    }

    /// The startup facts of an existing lineage, validated. Nothing is written.
    pub fn prepared(&self, selector: &str, lookup: &TaskLookup, facts: WorkspaceFacts) -> (r: Result<
        PreparedContinuation,
        AgentContinuationError,
    >)
        requires
            self.store.wf(),
        ensures
            match selected(selector@, *lookup) {
                Err(e) => agrees(r, Some(e)),
                Ok(id) => {
                    &&& agrees(r, Self::prepared_error(self.store, id, facts))
                    &&& r matches Ok(prepared) ==> prepared@ == prepared_of(
                        self.store.stored(id)->0,
                    )
                },
            },
    {
        let id = match resolve_selector(selector, lookup) {
            Ok(id) => id,
            Err(e) => {
                return Err(e);
            },
        };
        let record = match self.load(&id) {
            Ok(record) => record,
            Err(e) => {
                return Err(e);
            },
        };
        let prepared = PreparedContinuation::from_record(&record);
        match validate_compatibility_shape(&prepared.compatibility, facts) {
            Ok(_) => {},
            Err(e) => {
                return Err(e);
            },
        }
        if let Some(checkpoint) = &prepared.checkpoint {
            match checkpoint.verify_digest() {
                Ok(_) => {},
                Err(e) => {
                    return Err(e);
                },
            }
            match ensure_checkpoint_boundary_safe(checkpoint) {
                Ok(_) => {},
                Err(e) => {
                    return Err(e);
                },
            }
        }
        Ok(prepared)
    }

    /// The projection of an existing lineage. Nothing is written.
    pub fn projection(&self, selector: &str, lookup: &TaskLookup, now_ms: i64) -> (r: Result<
        ContinuationProjection,
        AgentContinuationError,
    >)
        requires
            self.store.wf(),
        ensures
            match selected(selector@, *lookup) {
                Err(e) => agrees(r, Some(e)),
                Ok(id) => {
                    &&& agrees(r, found_error(self.store, id))
                    &&& r matches Ok(projection) ==> projection@ == projection_of(
                        self.store.stored(id)->0,
                        now_ms,
                    )
                },
            },
    {
        let id = match resolve_selector(selector, lookup) {
            Ok(id) => id,
            Err(e) => {
                return Err(e);
            },
        };
        match self.load(&id) {
            Ok(record) => Ok(ContinuationProjection::from_record(&record, now_ms)),
            Err(e) => Err(e),
        }
    }

    /// Prepares a new attempt of an existing lineage, or finds the one that the
    /// same prompt prepared before.
    pub fn prepare_resume(
        &mut self,
        input: ResumeContinuationInput,
        lookup: &TaskLookup,
        facts: WorkspaceFacts,
        now_ms: i64,
    ) -> (r: Result<(PreparedContinuation, ContinuationProjection), AgentContinuationError>)
        requires
            old(self).store.wf(),
        ensures
            final(self).store.wf(),
            final(self).owner() == old(self).owner(),
            ({
                let request = resume_view(input);
                match first(
                    task_binding_error(request.parent_task_id, request.task_id),
                    compatibility_shape_error(request.compatibility, facts),
                ) {
                    Some(e) => agrees(r, Some(e)) && final(self).store.same_contents(
                        &old(self).store,
                    ),
                    None => match selected(input.selector@, *lookup) {
                        Err(e) => agrees(r, Some(e)) && final(self).store.same_contents(
                            &old(self).store,
                        ),
                        Ok(id) => exists|attempt_id: Seq<char>|
                            is_uuid_v7(attempt_id) && #[trigger] resumes(
                                old(self).store,
                                final(self).store,
                                id,
                                attempt_id,
                                request,
                                facts,
                                now_ms,
                                r,
                            ),
                    },
                }
            }),
    {
        match validate_task_binding(&input.parent_task_id, input.task_id.as_str()) {
            Ok(_) => {},
            Err(e) => {
                return Err(e);
            },
        }
        match validate_compatibility_shape(&input.compatibility, facts) {
            Ok(_) => {},
            Err(e) => {
                return Err(e);
            },
        }
        let id = match resolve_selector(input.selector.as_str(), lookup) {
            Ok(id) => id,
            Err(e) => {
                return Err(e);
            },
        };
        let attempt_id = AgentAttemptId::new();
        let ghost attempt = attempt_id@;
        let r = self.resume_lineage(&id, attempt_id, input, facts, now_ms);
        assert(is_uuid_v7(attempt));
        assert(resumes(
            old(self).store,
            self.store,
            id@,
            attempt,
            resume_view(input),
            facts,
            now_ms,
            r,
        ));
        assert(selected(input.selector@, *lookup)->Ok_0 == id@);
        r
    }

    /// Resumes the lineage `id` with the attempt `attempt_id`, or finds the
    /// attempt that the same request prepared before.
    pub fn resume_lineage(
        &mut self,
        id: &AgentContinuationId,
        attempt_id: AgentAttemptId,
        input: ResumeContinuationInput,
        facts: WorkspaceFacts,
        now_ms: i64,
    ) -> (r: Result<(PreparedContinuation, ContinuationProjection), AgentContinuationError>)
        requires
            old(self).store.wf(),
        ensures
            final(self).store.wf(),
            final(self).owner() == old(self).owner(),
            resumes(
                old(self).store,
                final(self).store,
                id@,
                attempt_id@,
                resume_view(input),
                facts,
                now_ms,
                r,
            ),
    {
        let record = match self.load(id) {
            Ok(record) => record,
            Err(e) => {
                return Err(e);
            },
        };
        match validate_resume_request(
            &record,
            &input.parent_task_id,
            &input.compatibility,
            facts,
        ) {
            Ok(_) => {},
            Err(e) => {
                return Err(e);
            },
        }
        if record.current_attempt.prompt_id.same(&input.prompt_id) {
            let prepared = PreparedContinuation::from_record(&record);
            let projection = ContinuationProjection::from_record(&record, now_ms);
            return Ok((prepared, projection));
        }
        match reject_live_owner(&record, now_ms) {
            Ok(_) => {},
            Err(e) => {
                return Err(e);
            },
        }
        match ensure_record_resumable(&record) {
            Ok(_) => {},
            Err(e) => {
                return Err(e);
            },
        }
        let expected_revision = record.revision;
        let mutate = |record: AgentContinuationRecord| -> (changed: Result<
            AgentContinuationRecord,
            AgentContinuationError,
        >)
            ensures
                outcome(changed) == resume_changed(
                    record@,
                    opt_chars(input.parent_task_id),
                    input.task_id@,
                    input.prompt_id@,
                    attempt_id@,
                    input.compatibility@,
                    facts,
                    now_ms,
                ),
            {
                resume_change(
                    record,
                    &input.parent_task_id,
                    &input.task_id,
                    &input.prompt_id,
                    &attempt_id,
                    &input.compatibility,
                    facts,
                    now_ms,
                )
            };
        match self.store.mutate_record(id, expected_revision, mutate) {
            Err(e) => Err(e),
            Ok(record) => {
                let prepared = PreparedContinuation::from_record(&record);
                let projection = ContinuationProjection::from_record(&record, now_ms);
                Ok((prepared, projection))
            },
        }
    }

    /// Acquires a prepared attempt for this owner, or hands out the lease that
    /// the owner still holds on it.
    pub fn acquire(&mut self, prepared: &PreparedContinuation, now_ms: i64) -> (r: Result<
        (ContinuationLease, ContinuationProjection),
        AgentContinuationError,
    >)
        requires
            old(self).store.wf(),
        ensures
            final(self).store.wf(),
            final(self).owner() == old(self).owner(),
            ({
                let settlement = acquire_outcome(
                    old(self).store,
                    prepared@,
                    old(self).owner(),
                    now_ms,
                );
                &&& agrees(r, settlement_error(settlement))
                &&& follows(
                    final(self).store,
                    old(self).store,
                    prepared@.continuation_id,
                    settlement,
                )
                &&& match r {
                    Ok((lease, projection)) => {
                        &&& lease_of(settlement->Ok_0.0) == Some(lease@)
                        &&& projection@ == projection_of(settlement->Ok_0.0, now_ms)
                    },
                    Err(_) => true,
                }
            }),
    {
        let record = match self.load(&prepared.continuation_id) {
            Ok(record) => record,
            Err(e) => {
                return Err(e);
            },
        };
        match validate_prepared_identity(&record, prepared) {
            Ok(_) => {},
            Err(e) => {
                return Err(e);
            },
        }
        if record.current_attempt.state == AttemptState::Running {
            match existing_owner_lease(&record, self.owner_id.as_str(), now_ms) {
                Ok(lease) => {
                    let projection = ContinuationProjection::from_record(&record, now_ms);
                    return Ok((lease, projection));
                },
                Err(e) => {
                    return Err(e);
                },
            }
        }
        let owner_id = self.owner_id.clone();
        let mutate = |record: AgentContinuationRecord| -> (changed: Result<
            AgentContinuationRecord,
            AgentContinuationError,
        >)
            ensures
                outcome(changed) == acquire_changed(record@, prepared@, owner_id@, now_ms),
            { acquire_change(record, prepared, &owner_id, now_ms) };
        match self.store.mutate_record(&prepared.continuation_id, prepared.revision, mutate) {
            Err(e) => Err(e),
            Ok(record) => match lease_from_record(&record) {
                Ok(lease) => {
                    let projection = ContinuationProjection::from_record(&record, now_ms);
                    Ok((lease, projection))
                },
                Err(e) => Err(e),
            },
        }
    }

    /// Settles a prepared attempt that could not start.
    pub fn commit_prepared_terminal(
        &mut self,
        prepared: &PreparedContinuation,
        terminal: AgentTerminal,
        now_ms: i64,
    ) -> (r: Result<ContinuationProjection, AgentContinuationError>)
        requires
            old(self).store.wf(),
        ensures
            final(self).store.wf(),
            final(self).owner() == old(self).owner(),
            ({
                let id = prepared@.continuation_id;
                let settlement = store_commit(
                    old(self).store,
                    id,
                    prepared@.revision,
                    prepared_terminal_changed(
                        old(self).store.stored(id)->0,
                        prepared@,
                        terminal@,
                        now_ms,
                    ),
                );
                projects(r, settlement, now_ms) && follows(
                    final(self).store,
                    old(self).store,
                    id,
                    settlement,
                )
            }),
    {
        let terminal = &terminal;
        let mutate = |record: AgentContinuationRecord| -> (changed: Result<
            AgentContinuationRecord,
            AgentContinuationError,
        >)
            ensures
                outcome(changed) == prepared_terminal_changed(
                    record@,
                    prepared@,
                    terminal@,
                    now_ms,
                ),
            { prepared_terminal_change(record, prepared, terminal.duplicate(), now_ms) };
        match self.store.mutate_record(&prepared.continuation_id, prepared.revision, mutate) {
            Err(e) => Err(e),
            Ok(record) => Ok(ContinuationProjection::from_record(&record, now_ms)),
        }
    }

    /// Renews a live lease. The projection carries the revision of the owner's
    /// next write.
    pub fn renew(
        &mut self,
        lease: &ContinuationLease,
        expected_revision: ContinuationRevision,
        now_ms: i64,
    ) -> (r: Result<ContinuationProjection, AgentContinuationError>)
        requires
            old(self).store.wf(),
        ensures
            final(self).store.wf(),
            final(self).owner() == old(self).owner(),
            ({
                let id = lease@.continuation_id;
                let settlement = store_commit(
                    old(self).store,
                    id,
                    expected_revision,
                    renew_changed(
                        old(self).store.stored(id)->0,
                        lease@,
                        expected_revision,
                        now_ms,
                    ),
                );
                projects(r, settlement, now_ms) && follows(
                    final(self).store,
                    old(self).store,
                    id,
                    settlement,
                )
            }),
    {
        let mutate = |record: AgentContinuationRecord| -> (changed: Result<
            AgentContinuationRecord,
            AgentContinuationError,
        >)
            ensures
                outcome(changed) == renew_changed(record@, lease@, expected_revision, now_ms),
            { renew_change(record, lease, expected_revision, now_ms) };
        match self.store.mutate_record(&lease.continuation_id, expected_revision, mutate) {
            Err(e) => Err(e),
            Ok(record) => Ok(ContinuationProjection::from_record(&record, now_ms)),
        }
    }

    /// Commits the next checkpoint under a live lease. Committing the same
    /// checkpoint again changes nothing.
    pub fn commit_checkpoint(
        &mut self,
        lease: &ContinuationLease,
        expected_revision: ContinuationRevision,
        checkpoint: AgentCheckpoint,
        now_ms: i64,
    ) -> (r: Result<ContinuationProjection, AgentContinuationError>)
        requires
            old(self).store.wf(),
        ensures
            final(self).store.wf(),
            final(self).owner() == old(self).owner(),
            ({
                let settlement = checkpoint_outcome(
                    old(self).store,
                    lease@,
                    expected_revision,
                    checkpoint@,
                    now_ms,
                );
                projects(r, settlement, now_ms) && follows(
                    final(self).store,
                    old(self).store,
                    lease@.continuation_id,
                    settlement,
                )
            }),
    {
        match checkpoint.verify_digest() {
            Ok(_) => {},
            Err(e) => {
                return Err(e);
            },
        }
        match ensure_checkpoint_boundary_safe(&checkpoint) {
            Ok(_) => {},
            Err(e) => {
                return Err(e);
            },
        }
        let current = match self.load(&lease.continuation_id) {
            Ok(record) => record,
            Err(e) => {
                return Err(e);
            },
        };
        if let Some(existing) = &current.checkpoint {
            if existing.checkpoint_id.same(&checkpoint.checkpoint_id) {
                if !existing.same(&checkpoint) {
                    return Err(
                        corrupt_record(
                            "checkpoint retry reuses an identity with different content",
                        ),
                    );
                }
                if current.current_attempt.attempt_id.same(&lease.attempt_id)
                    && existing.attempt_id.same(&lease.attempt_id) {
                    return Ok(ContinuationProjection::from_record(&current, now_ms));
                }
            }
        }
        let checkpoint = &checkpoint;
        let mutate = |record: AgentContinuationRecord| -> (changed: Result<
            AgentContinuationRecord,
            AgentContinuationError,
        >)
            ensures
                outcome(changed) == checkpoint_changed(
                    record@,
                    lease@,
                    expected_revision,
                    checkpoint@,
                    now_ms,
                ),
            {
                checkpoint_change(
                    record,
                    lease,
                    expected_revision,
                    checkpoint.duplicate(),
                    now_ms,
                )
            };
        match self.store.mutate_record(&lease.continuation_id, expected_revision, mutate) {
            Err(e) => Err(e),
            Ok(record) => Ok(ContinuationProjection::from_record(&record, now_ms)),
        }
    }

    /// Commits a terminal outcome under a live lease. Committing the same
    /// outcome again changes nothing.
    pub fn commit_terminal(
        &mut self,
        lease: &ContinuationLease,
        expected_revision: ContinuationRevision,
        terminal: AgentTerminal,
        now_ms: i64,
    ) -> (r: Result<ContinuationProjection, AgentContinuationError>)
        requires
            old(self).store.wf(),
        ensures
            final(self).store.wf(),
            final(self).owner() == old(self).owner(),
            ({
                let settlement = terminal_outcome(
                    old(self).store,
                    lease@,
                    expected_revision,
                    terminal@,
                    now_ms,
                );
                projects(r, settlement, now_ms) && follows(
                    final(self).store,
                    old(self).store,
                    lease@.continuation_id,
                    settlement,
                )
            }),
    {
        let current = match self.load(&lease.continuation_id) {
            Ok(record) => record,
            Err(e) => {
                return Err(e);
            },
        };
        if current.current_attempt.attempt_id.same(&lease.attempt_id)
            && current.current_attempt.state == AttemptState::Terminal {
            let same = match &current.terminal {
                Some(existing) => existing.same(&terminal),
                None => false,
            };
            if !same {
                return Err(
                    corrupt_record("terminal retry conflicts with the committed terminal outcome"),
                );
            }
            return Ok(ContinuationProjection::from_record(&current, now_ms));
        }
        let terminal = &terminal;
        let mutate = |record: AgentContinuationRecord| -> (changed: Result<
            AgentContinuationRecord,
            AgentContinuationError,
        >)
            ensures
                outcome(changed) == terminal_changed(
                    record@,
                    lease@,
                    expected_revision,
                    terminal@,
                    now_ms,
                ),
            { terminal_change(record, lease, expected_revision, terminal.duplicate(), now_ms) };
        match self.store.mutate_record(&lease.continuation_id, expected_revision, mutate) {
            Err(e) => Err(e),
            Ok(record) => Ok(ContinuationProjection::from_record(&record, now_ms)),
        }
    }

    /// Persists the replay disposition before a tool is invoked, under the same
    /// fence as checkpoints and terminals.
    pub fn commit_tool_boundary(
        &mut self,
        lease: &ContinuationLease,
        expected_revision: ContinuationRevision,
        boundary: ToolBoundary,
        now_ms: i64,
    ) -> (r: Result<ContinuationProjection, AgentContinuationError>)
        requires
            old(self).store.wf(),
        ensures
            final(self).store.wf(),
            final(self).owner() == old(self).owner(),
            ({
                let settlement = tool_boundary_outcome(
                    old(self).store,
                    lease@,
                    expected_revision,
                    boundary@,
                    now_ms,
                );
                projects(r, settlement, now_ms) && follows(
                    final(self).store,
                    old(self).store,
                    lease@.continuation_id,
                    settlement,
                )
            }),
    {
        let current = match self.load(&lease.continuation_id) {
            Ok(record) => record,
            Err(e) => {
                return Err(e);
            },
        };
        let active = match &current.active_tool_boundary {
            Some(existing) => existing.same(&boundary),
            None => false,
        };
        if current.current_attempt.attempt_id.same(&lease.attempt_id) && active {
            return Ok(ContinuationProjection::from_record(&current, now_ms));
        }
        let boundary = &boundary;
        let mutate = |record: AgentContinuationRecord| -> (changed: Result<
            AgentContinuationRecord,
            AgentContinuationError,
        >)
            ensures
                outcome(changed) == tool_boundary_changed(
                    record@,
                    lease@,
                    expected_revision,
                    boundary@,
                    now_ms,
                ),
            {
                tool_boundary_change(record, lease, expected_revision, boundary.duplicate(), now_ms)
            };
        match self.store.mutate_record(&lease.continuation_id, expected_revision, mutate) {
            Err(e) => Err(e),
            Ok(record) => Ok(ContinuationProjection::from_record(&record, now_ms)),
        }
    }
}

/// A resume request, without its selector.
pub open spec fn resume_view(input: ResumeContinuationInput) -> CreateView {
    CreateView {
        parent_task_id: opt_chars(input.parent_task_id),
        task_id: input.task_id@,
        prompt_id: input.prompt_id@,
        compatibility: input.compatibility@,
    }
}

/// The store holds `record` under `id` for its own session.
pub open spec fn holds(store: AgentContinuationStore, id: Seq<char>, record: RecordView) -> bool {
    &&& store.indexed(id) == Some(store.parent())
    &&& store.stored(id) == Some(record)
}

/// Creating a lineage twice with the same request is creating it once: the
/// second request finds the record and writes nothing.
pub proof fn creation_is_idempotent(
    before: AgentContinuationStore,
    after: AgentContinuationStore,
    id: Seq<char>,
    attempt_id: Seq<char>,
    other_attempt_id: Seq<char>,
    input: CreateView,
    facts: WorkspaceFacts,
    now_ms: i64,
    later_ms: i64,
)
    requires
        create_outcome(before, id, attempt_id, input, facts, now_ms) matches Ok((record, true))
            && holds(after, id, record),
        after.parent() == before.parent(),
    ensures
        create_outcome(after, id, other_attempt_id, input, facts, later_ms) == Ok::<
            (RecordView, bool),
            AgentContinuationErrorView,
        >((create_outcome(before, id, attempt_id, input, facts, now_ms)->Ok_0.0, false)),
{
}

/// Repeating a resume request finds the attempt that it prepared and prepares
/// no other.
pub proof fn resumption_is_idempotent(
    before: AgentContinuationStore,
    after: AgentContinuationStore,
    id: Seq<char>,
    attempt_id: Seq<char>,
    other_attempt_id: Seq<char>,
    input: CreateView,
    facts: WorkspaceFacts,
    now_ms: i64,
    later_ms: i64,
)
    requires
        resume_outcome(before, id, attempt_id, input, facts, now_ms) matches Ok((record, true))
            && holds(after, id, record),
        after.parent() == before.parent(),
    ensures
        resume_outcome(after, id, other_attempt_id, input, facts, later_ms) == Ok::<
            (RecordView, bool),
            AgentContinuationErrorView,
        >((resume_outcome(before, id, attempt_id, input, facts, now_ms)->Ok_0.0, false)),
{
}

/// While its lease lives, an owner that acquires an attempt again gets the same
/// lease and writes nothing.
pub proof fn acquisition_is_idempotent(
    before: AgentContinuationStore,
    after: AgentContinuationStore,
    prepared: PreparedView,
    owner_id: Seq<char>,
    now_ms: i64,
    later_ms: i64,
)
    requires
        acquire_outcome(before, prepared, owner_id, now_ms) matches Ok((record, true)) && holds(
            after,
            prepared.continuation_id,
            record,
        ),
        after.parent() == before.parent(),
        later_ms < crate::agent_continuation::changes::lease_expiry(now_ms),
    ensures
        acquire_outcome(after, prepared, owner_id, later_ms) == Ok::<
            (RecordView, bool),
            AgentContinuationErrorView,
        >((acquire_outcome(before, prepared, owner_id, now_ms)->Ok_0.0, false)),
{
}

/// While its lease lives, an attempt has one owner: everybody else is told who
/// holds it.
pub proof fn live_leases_exclude_others(
    before: AgentContinuationStore,
    after: AgentContinuationStore,
    prepared: PreparedView,
    owner_id: Seq<char>,
    other: Seq<char>,
    now_ms: i64,
    later_ms: i64,
)
    requires
        acquire_outcome(before, prepared, owner_id, now_ms) matches Ok((record, true)) && holds(
            after,
            prepared.continuation_id,
            record,
        ),
        after.parent() == before.parent(),
        later_ms < crate::agent_continuation::changes::lease_expiry(now_ms),
        other != owner_id,
    ensures
        acquire_outcome(after, prepared, other, later_ms) == Err::<
            (RecordView, bool),
            AgentContinuationErrorView,
        >(
            AgentContinuationErrorView::LeaseHeld {
                owner_id,
                expires_at_ms: crate::agent_continuation::changes::lease_expiry(now_ms),
            },
        ),
{
}

/// Committing the same checkpoint again, with any revision, finds it committed
/// and writes nothing.
pub proof fn checkpoint_commits_are_idempotent(
    before: AgentContinuationStore,
    after: AgentContinuationStore,
    lease: LeaseView,
    expected: ContinuationRevision,
    again: ContinuationRevision,
    checkpoint: CheckpointView,
    now_ms: i64,
    later_ms: i64,
)
    requires
        checkpoint_outcome(before, lease, expected, checkpoint, now_ms) matches Ok((record, true))
            && holds(after, lease.continuation_id, record),
        after.parent() == before.parent(),
    ensures
        checkpoint_outcome(after, lease, again, checkpoint, later_ms) == Ok::<
            (RecordView, bool),
            AgentContinuationErrorView,
        >((checkpoint_outcome(before, lease, expected, checkpoint, now_ms)->Ok_0.0, false)),
{
}

/// Committing the same terminal outcome again, with any revision, finds it
/// committed and writes nothing; a different outcome is refused.
pub proof fn terminal_commits_are_final(
    before: AgentContinuationStore,
    after: AgentContinuationStore,
    lease: LeaseView,
    expected: ContinuationRevision,
    again: ContinuationRevision,
    terminal: TerminalView,
    other: TerminalView,
    now_ms: i64,
    later_ms: i64,
)
    requires
        terminal_outcome(before, lease, expected, terminal, now_ms) matches Ok((record, true))
            && holds(after, lease.continuation_id, record),
        after.parent() == before.parent(),
        other != terminal,
    ensures
        terminal_outcome(after, lease, again, terminal, later_ms) == Ok::<
            (RecordView, bool),
            AgentContinuationErrorView,
        >((terminal_outcome(before, lease, expected, terminal, now_ms)->Ok_0.0, false)),
        terminal_outcome(after, lease, again, other, later_ms) == Err::<
            (RecordView, bool),
            AgentContinuationErrorView,
        >(corrupt("terminal retry conflicts with the committed terminal outcome"@)),
{
}

/// A selector that is an identity selects it, whatever the tasks say; any other goes
/// by the tasks, and selects nothing where they know none. A blank one selects
/// nothing.
pub proof fn selectors_go_by_identity_or_task(selector: Seq<char>, lookup: TaskLookup)
    ensures
        ({
            let id = trimmed(selector);
            let r = selected(selector, lookup);
            &&& id.len() == 0 ==> r == Err::<Seq<char>, AgentContinuationErrorView>(
                AgentContinuationErrorView::NotFound,
            )
            &&& id.len() > 0 && is_uuid_v7(id) ==> r == Ok::<
                Seq<char>,
                AgentContinuationErrorView,
            >(id)
            &&& id.len() > 0 && !is_uuid_v7(id) ==> {
                &&& lookup matches TaskLookup::Found(found) ==> r == Ok::<
                    Seq<char>,
                    AgentContinuationErrorView,
                >(found@)
                &&& lookup is Missing ==> r == Err::<Seq<char>, AgentContinuationErrorView>(
                    AgentContinuationErrorView::NotFound,
                )
                &&& lookup is Failed ==> r is Err && r->Err_0 is Persistence
            }
        }),
{
}

/// A settled request answers with its record's projection, and a refused one with its
/// error.
pub proof fn answers_show_the_settled_record(
    r: Result<ContinuationProjection, AgentContinuationError>,
    settlement: Settlement,
    now_ms: i64,
)
    requires
        projects(r, settlement, now_ms),
    ensures
        match settlement {
            Ok((record, _)) => {
                &&& r matches Ok(shown) && shown@.continuation_id == record.continuation_id
                    && shown@.attempt_id == record.current_attempt.attempt_id && shown@.revision
                    == record.revision && shown@.status == record.status && shown@.attempt_state
                    == record.current_attempt.state && shown@.lease_epoch
                    == record.current_attempt.lease_epoch
            },
            Err(e) => r matches Err(error) && error@ == e,
        },
{
}

/// Whatever is asked of a lineage, the other lineages keep their records, and a
/// refused or repeated request writes nothing at all.
pub proof fn requests_write_their_own_lineage(
    before: AgentContinuationStore,
    after: AgentContinuationStore,
    id: Seq<char>,
    other: Seq<char>,
    settlement: Settlement,
)
    requires
        follows(after, before, id, settlement),
        other != id,
    ensures
        after.parent() == before.parent(),
        after.indexed(id) == before.indexed(id),
        after.indexed(other) == before.indexed(other),
        after.stored(other) == before.stored(other),
        after.stored(id) == match settlement {
            Ok((record, true)) => Some(record),
            _ => before.stored(id),
        },
{
}

/// A lineage that is not there is not found, by whatever request.
pub proof fn absent_lineages_are_not_found(
    store: AgentContinuationStore,
    attempt_id: Seq<char>,
    input: CreateView,
    facts: WorkspaceFacts,
    prepared: PreparedView,
    owner_id: Seq<char>,
    lease: LeaseView,
    expected: ContinuationRevision,
    checkpoint: CheckpointView,
    terminal: TerminalView,
    boundary: ToolBoundaryView,
    now_ms: i64,
    id: Seq<char>,
)
    requires
        store.indexed(id) is None,
        prepared.continuation_id == id,
        lease.continuation_id == id,
    ensures
        resume_outcome(store, id, attempt_id, input, facts, now_ms) == Err::<
            (RecordView, bool),
            AgentContinuationErrorView,
        >(AgentContinuationErrorView::NotFound),
        acquire_outcome(store, prepared, owner_id, now_ms) == Err::<
            (RecordView, bool),
            AgentContinuationErrorView,
        >(AgentContinuationErrorView::NotFound),
        unsafe_checkpoint_error(checkpoint) is None ==> checkpoint_outcome(
            store,
            lease,
            expected,
            checkpoint,
            now_ms,
        ) == Err::<(RecordView, bool), AgentContinuationErrorView>(
            AgentContinuationErrorView::NotFound,
        ),
        terminal_outcome(store, lease, expected, terminal, now_ms) == Err::<
            (RecordView, bool),
            AgentContinuationErrorView,
        >(AgentContinuationErrorView::NotFound),
        tool_boundary_outcome(store, lease, expected, boundary, now_ms) == Err::<
            (RecordView, bool),
            AgentContinuationErrorView,
        >(AgentContinuationErrorView::NotFound),
{
}

/// An identity that is taken serves only the request that took it: one that differs
/// in a task, the prompt or the compatibility is refused, and the same one gets the
/// record as it is.
pub proof fn taken_identities_serve_their_own_request(
    store: AgentContinuationStore,
    id: Seq<char>,
    attempt_id: Seq<char>,
    input: CreateView,
    facts: WorkspaceFacts,
    now_ms: i64,
    record: RecordView,
)
    requires
        store.indexed(id) is Some,
        store.stored(id) == Some(record),
        store.load_error(id) is None,
        task_binding_error(input.parent_task_id, input.task_id) is None,
        compatibility_shape_error(input.compatibility, facts) is None,
    ensures
        create_outcome(store, id, attempt_id, input, facts, now_ms) == (if record.parent_task_id
            == input.parent_task_id && record.source_task_id == input.task_id
            && record.latest_task_id == input.task_id && record.current_attempt.prompt_id
            == input.prompt_id && record.subagent_type == input.compatibility.subagent_type
            && record.model == input.compatibility.model && record.isolation
            == input.compatibility.isolation && record.effective_cwd
            == input.compatibility.effective_cwd && record.worktree == input.compatibility.worktree
            && record.compatibility_hash == input.compatibility.compatibility_hash {
            Ok::<(RecordView, bool), AgentContinuationErrorView>((record, false))
        } else {
            Err(AgentContinuationErrorView::AlreadyExists { continuation_id: id })
        }),
{
}

/// A checkpoint's identity is used for one content only, and a tool boundary that is
/// already announced is not announced again.
pub proof fn repeated_commits_must_agree(
    store: AgentContinuationStore,
    lease: LeaseView,
    expected: ContinuationRevision,
    checkpoint: CheckpointView,
    boundary: ToolBoundaryView,
    now_ms: i64,
    record: RecordView,
)
    requires
        store.indexed(lease.continuation_id) is Some,
        store.stored(lease.continuation_id) == Some(record),
        store.load_error(lease.continuation_id) is None,
    ensures
        unsafe_checkpoint_error(checkpoint) is None && record.checkpoint is Some
            && record.checkpoint->0.checkpoint_id == checkpoint.checkpoint_id
            && record.checkpoint->0 != checkpoint ==> checkpoint_outcome(
            store,
            lease,
            expected,
            checkpoint,
            now_ms,
        ) is Err,
        record.current_attempt.attempt_id == lease.attempt_id && record.active_tool_boundary
            == Some(boundary) ==> tool_boundary_outcome(store, lease, expected, boundary, now_ms)
            == Ok::<(RecordView, bool), AgentContinuationErrorView>((record, false)),
{
}

} // verus!
