//! Lifecycle states of continuations and attempts.

use vstd::prelude::*;
use crate::agent_continuation::error::AgentContinuationError;

verus! {

/// Lifecycle state of a durable child-agent continuation.
#[derive(Clone, Copy, Debug, PartialEq, Eq, Structural)]
pub enum ContinuationStatus {
    /// The lineage exists but has not acquired an execution lease.
    Created,
    /// The current attempt is executing.
    Running,
    /// A safe checkpoint has been committed while execution may continue.
    Checkpointed,
    /// Execution stopped at a safe checkpoint and awaits explicit resumption.
    Suspended,
    /// A new attempt is being prepared from a safe checkpoint.
    Resuming,
    /// The latest attempt completed successfully.
    Completed,
    /// The latest attempt failed with a known terminal outcome.
    Failed,
    /// The latest attempt was cancelled.
    Cancelled,
    /// An external side effect may have started without a trustworthy terminal
    /// result.
    Indeterminate,
}

/// Lifecycle state of one execution attempt.
#[derive(Clone, Copy, Debug, PartialEq, Eq, Structural)]
pub enum AttemptState {
    /// The attempt is durable but does not yet hold an execution lease.
    Prepared,
    /// The attempt currently owns execution.
    Running,
    /// The attempt stopped at a safe checkpoint.
    Suspended,
    /// The attempt has a durable terminal outcome.
    Terminal,
}

/// The edges of the continuation lifecycle.
pub open spec fn continuation_edge(from: ContinuationStatus, to: ContinuationStatus) -> bool {
    match from {
        ContinuationStatus::Created => {
            ||| to == ContinuationStatus::Running
            ||| to == ContinuationStatus::Failed
            ||| to == ContinuationStatus::Cancelled
        },
        ContinuationStatus::Running => {
            ||| to == ContinuationStatus::Checkpointed
            ||| to == ContinuationStatus::Completed
            ||| to == ContinuationStatus::Failed
            ||| to == ContinuationStatus::Cancelled
            ||| to == ContinuationStatus::Indeterminate
        },
        ContinuationStatus::Checkpointed => {
            ||| to == ContinuationStatus::Running
            ||| to == ContinuationStatus::Suspended
            ||| to == ContinuationStatus::Completed
            ||| to == ContinuationStatus::Failed
            ||| to == ContinuationStatus::Cancelled
            ||| to == ContinuationStatus::Indeterminate
        },
        ContinuationStatus::Suspended => {
            ||| to == ContinuationStatus::Resuming
            ||| to == ContinuationStatus::Cancelled
        },
        ContinuationStatus::Resuming => {
            ||| to == ContinuationStatus::Running
            ||| to == ContinuationStatus::Failed
            ||| to == ContinuationStatus::Cancelled
            ||| to == ContinuationStatus::Indeterminate
        },
        ContinuationStatus::Completed => to == ContinuationStatus::Resuming,
        ContinuationStatus::Failed => to == ContinuationStatus::Resuming,
        ContinuationStatus::Cancelled => to == ContinuationStatus::Resuming,
        ContinuationStatus::Indeterminate => false,
    }
}

/// The edges of the attempt lifecycle.
pub open spec fn attempt_edge(from: AttemptState, to: AttemptState) -> bool {
    match from {
        AttemptState::Prepared => to == AttemptState::Running || to == AttemptState::Terminal,
        AttemptState::Running => to == AttemptState::Suspended || to == AttemptState::Terminal,
        AttemptState::Suspended => to == AttemptState::Running || to == AttemptState::Terminal,
        AttemptState::Terminal => false,
    }
}

impl ContinuationStatus {
    /// Follows an edge of the lifecycle and rejects everything else, leaving
    /// the state as it was.
    pub fn transition_to(&mut self, next: Self) -> (r: Result<(), AgentContinuationError>)
        ensures
            continuation_edge(*old(self), next) ==> r is Ok && *final(self) == next,
            !continuation_edge(*old(self), next) ==> *final(self) == *old(self) && r == Err::<
                (),
                AgentContinuationError,
            >(AgentContinuationError::InvalidTransition { from: *old(self), to: next }),
    {
        let allowed = match (*self, next) {
            (ContinuationStatus::Created, ContinuationStatus::Running) => true,
            (ContinuationStatus::Created, ContinuationStatus::Failed) => true,
            (ContinuationStatus::Created, ContinuationStatus::Cancelled) => true,
            (ContinuationStatus::Running, ContinuationStatus::Checkpointed) => true,
            (ContinuationStatus::Running, ContinuationStatus::Completed) => true,
            (ContinuationStatus::Running, ContinuationStatus::Failed) => true,
            (ContinuationStatus::Running, ContinuationStatus::Cancelled) => true,
            (ContinuationStatus::Running, ContinuationStatus::Indeterminate) => true,
            (ContinuationStatus::Checkpointed, ContinuationStatus::Running) => true,
            (ContinuationStatus::Checkpointed, ContinuationStatus::Suspended) => true,
            (ContinuationStatus::Checkpointed, ContinuationStatus::Completed) => true,
            (ContinuationStatus::Checkpointed, ContinuationStatus::Failed) => true,
            (ContinuationStatus::Checkpointed, ContinuationStatus::Cancelled) => true,
            (ContinuationStatus::Checkpointed, ContinuationStatus::Indeterminate) => true,
            (ContinuationStatus::Suspended, ContinuationStatus::Resuming) => true,
            (ContinuationStatus::Suspended, ContinuationStatus::Cancelled) => true,
            (ContinuationStatus::Resuming, ContinuationStatus::Running) => true,
            (ContinuationStatus::Resuming, ContinuationStatus::Failed) => true,
            (ContinuationStatus::Resuming, ContinuationStatus::Cancelled) => true,
            (ContinuationStatus::Resuming, ContinuationStatus::Indeterminate) => true,
            (ContinuationStatus::Completed, ContinuationStatus::Resuming) => true,
            (ContinuationStatus::Failed, ContinuationStatus::Resuming) => true,
            (ContinuationStatus::Cancelled, ContinuationStatus::Resuming) => true,
            _ => false,
        };
        if !allowed {
            return Err(AgentContinuationError::InvalidTransition { from: *self, to: next });
        }
        *self = next;
        Ok(())
    }

    pub open spec fn text(self) -> Seq<char> {
        match self {
            ContinuationStatus::Created => "created"@,
            ContinuationStatus::Running => "running"@,
            ContinuationStatus::Checkpointed => "checkpointed"@,
            ContinuationStatus::Suspended => "suspended"@,
            ContinuationStatus::Resuming => "resuming"@,
            ContinuationStatus::Completed => "completed"@,
            ContinuationStatus::Failed => "failed"@,
            ContinuationStatus::Cancelled => "cancelled"@,
            ContinuationStatus::Indeterminate => "indeterminate"@,
        }
    }

    pub fn as_str(self) -> (r: &'static str)
        ensures
            r@ == self.text(),
    {
        match self {
            ContinuationStatus::Created => "created",
            ContinuationStatus::Running => "running",
            ContinuationStatus::Checkpointed => "checkpointed",
            ContinuationStatus::Suspended => "suspended",
            ContinuationStatus::Resuming => "resuming",
            ContinuationStatus::Completed => "completed",
            ContinuationStatus::Failed => "failed",
            ContinuationStatus::Cancelled => "cancelled",
            ContinuationStatus::Indeterminate => "indeterminate",
        }
    }
}

impl AttemptState {
    /// Follows an edge of the attempt lifecycle and rejects everything else,
    /// leaving the state as it was.
    pub fn transition_to(&mut self, next: Self) -> (r: Result<(), AgentContinuationError>)
        ensures
            attempt_edge(*old(self), next) ==> r is Ok && *final(self) == next,
            !attempt_edge(*old(self), next) ==> *final(self) == *old(self) && r == Err::<
                (),
                AgentContinuationError,
            >(AgentContinuationError::InvalidAttemptTransition { from: *old(self), to: next }),
    {
        let allowed = match (*self, next) {
            (AttemptState::Prepared, AttemptState::Running) => true,
            (AttemptState::Prepared, AttemptState::Terminal) => true,
            (AttemptState::Running, AttemptState::Suspended) => true,
            (AttemptState::Running, AttemptState::Terminal) => true,
            (AttemptState::Suspended, AttemptState::Running) => true,
            (AttemptState::Suspended, AttemptState::Terminal) => true,
            _ => false,
        };
        if !allowed {
            return Err(AgentContinuationError::InvalidAttemptTransition { from: *self, to: next });
        }
        *self = next;
        Ok(())
    }

    pub open spec fn text(self) -> Seq<char> {
        match self {
            AttemptState::Prepared => "prepared"@,
            AttemptState::Running => "running"@,
            AttemptState::Suspended => "suspended"@,
            AttemptState::Terminal => "terminal"@,
        }
    }

    pub fn as_str(self) -> (r: &'static str)
        ensures
            r@ == self.text(),
    {
        match self {
            AttemptState::Prepared => "prepared",
            AttemptState::Running => "running",
            AttemptState::Suspended => "suspended",
            AttemptState::Terminal => "terminal",
        }
    }
}

/// An indeterminate continuation stays indeterminate, and a terminal attempt
/// stays terminal: no edge leads out of either.
pub proof fn final_states_have_no_way_out(status: ContinuationStatus, state: AttemptState)
    ensures
        !continuation_edge(ContinuationStatus::Indeterminate, status),
        !attempt_edge(AttemptState::Terminal, state),
{
}

/// A settled lineage runs again only through `Resuming`.
pub proof fn settled_lineages_resume_first(from: ContinuationStatus, to: ContinuationStatus)
    requires
        from == ContinuationStatus::Completed || from == ContinuationStatus::Failed || from
            == ContinuationStatus::Cancelled,
        continuation_edge(from, to),
    ensures
        to == ContinuationStatus::Resuming,
{
}

/// No state has an edge to itself.
pub proof fn no_idle_edges(status: ContinuationStatus, state: AttemptState)
    ensures
        !continuation_edge(status, status),
        !attempt_edge(state, state),
{
}

/// How a lineage comes into each state: only what was created, checkpointed or
/// resumed runs; only a running attempt is checkpointed or completes; only a
/// checkpoint is suspended; and nothing becomes new again.
pub proof fn states_are_entered_from_their_own(from: ContinuationStatus)
    ensures
        !continuation_edge(from, ContinuationStatus::Created),
        continuation_edge(from, ContinuationStatus::Running) <==> from
            == ContinuationStatus::Created || from == ContinuationStatus::Checkpointed || from
            == ContinuationStatus::Resuming,
        continuation_edge(from, ContinuationStatus::Checkpointed) <==> from
            == ContinuationStatus::Running,
        continuation_edge(from, ContinuationStatus::Suspended) <==> from
            == ContinuationStatus::Checkpointed,
        continuation_edge(from, ContinuationStatus::Resuming) <==> from
            == ContinuationStatus::Suspended || from == ContinuationStatus::Completed || from
            == ContinuationStatus::Failed || from == ContinuationStatus::Cancelled,
        continuation_edge(from, ContinuationStatus::Completed) <==> from
            == ContinuationStatus::Running || from == ContinuationStatus::Checkpointed,
        continuation_edge(from, ContinuationStatus::Failed) <==> from
            == ContinuationStatus::Created || from == ContinuationStatus::Running || from
            == ContinuationStatus::Checkpointed || from == ContinuationStatus::Resuming,
        continuation_edge(from, ContinuationStatus::Cancelled) <==> from
            == ContinuationStatus::Created || from == ContinuationStatus::Running || from
            == ContinuationStatus::Checkpointed || from == ContinuationStatus::Suspended || from
            == ContinuationStatus::Resuming,
        continuation_edge(from, ContinuationStatus::Indeterminate) <==> from
            == ContinuationStatus::Running || from == ContinuationStatus::Checkpointed || from
            == ContinuationStatus::Resuming,
{
}

/// An attempt may end from every state but the end; it is suspended only while it
/// runs, and is never prepared twice.
pub proof fn attempts_end_once(from: AttemptState)
    ensures
        attempt_edge(from, AttemptState::Terminal) <==> from != AttemptState::Terminal,
        attempt_edge(from, AttemptState::Running) <==> from == AttemptState::Prepared || from
            == AttemptState::Suspended,
        attempt_edge(from, AttemptState::Suspended) <==> from == AttemptState::Running,
        !attempt_edge(from, AttemptState::Prepared),
{
}

/// No two states have the same name.
pub proof fn states_have_their_own_names(
    a: ContinuationStatus,
    b: ContinuationStatus,
    c: AttemptState,
    d: AttemptState,
)
    ensures
        a.text() == b.text() ==> a == b,
        c.text() == d.text() ==> c == d,
{
    reveal_strlit("created");
    reveal_strlit("running");
    reveal_strlit("checkpointed");
    reveal_strlit("suspended");
    reveal_strlit("resuming");
    reveal_strlit("completed");
    reveal_strlit("failed");
    reveal_strlit("cancelled");
    reveal_strlit("indeterminate");
    reveal_strlit("prepared");
    reveal_strlit("terminal");
    if a.text() == b.text() {
        assert(a.text().len() == b.text().len());
        assert(a.text()[0] == b.text()[0]);
        assert(a.text()[1] == b.text()[1]);
        assert(a.text()[2] == b.text()[2]);
    }
    if c.text() == d.text() {
        assert(c.text()[0] == d.text()[0]);
    }
}

} // verus!
