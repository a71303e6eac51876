//! Executing a thread turn and committing what came of it.
//!
//! Both ask for one thing at a time and are told what came of it.

use vstd::prelude::*;
use vstd::string::*;
use crate::agent_registry::UsageTotals;
use crate::budget::OperationTerminal;
use crate::provider_types::{clone_text, totals_sum};
use crate::runtime_types::RunStatus;
use crate::text::{plus3, text_is};

verus! {

/// Background workflows that outlive the turn that started them.
#[derive(Debug)]
pub struct RuntimeBackgroundWorkflows<T> {
    workflows: Vec<T>,
}

impl<T> View for RuntimeBackgroundWorkflows<T> {
    type V = Seq<T>;

    closed spec fn view(&self) -> Seq<T> {
        self.workflows@
    }
}

impl<T> Default for RuntimeBackgroundWorkflows<T> {
    fn default() -> (r: Self)
        ensures
            r@.len() == 0,
    {
        RuntimeBackgroundWorkflows { workflows: Vec::new() }
    }
}

impl<T> RuntimeBackgroundWorkflows<T> {
    pub fn is_empty(&self) -> (r: bool)
        ensures
            r == (self@.len() == 0),
    {
        self.workflows.len() == 0
    }

    pub fn len(&self) -> (r: usize)
        ensures
            r == self@.len(),
    {
        self.workflows.len()
    }

    pub fn from_vec(workflows: Vec<T>) -> (r: Self)
        ensures
            r@ == workflows@,
    {
        RuntimeBackgroundWorkflows { workflows }
    }

    pub fn into_inner(self) -> (r: Vec<T>)
        ensures
            r@ == self@,
    {
        self.workflows
    }
}

/// What was used between two readings.
pub open spec fn usage_delta(before: UsageTotals, after: UsageTotals) -> UsageTotals {
    UsageTotals {
        input_tokens: less(after.input_tokens, before.input_tokens),
        output_tokens: less(after.output_tokens, before.output_tokens),
        cache_tokens: less(after.cache_tokens, before.cache_tokens),
        cost_usd_micros: less(after.cost_usd_micros, before.cost_usd_micros),
    }
}

/// The difference of two numbers, at least zero.
pub open spec fn less(a: u64, b: u64) -> u64 {
    if a >= b {
        (a - b) as u64
    } else {
        0
    }
}

fn saturating_difference(a: u64, b: u64) -> (r: u64)
    ensures
        r == less(a, b),
{
    if a >= b {
        a - b
    } else {
        0
    }
}

pub fn task_usage_delta(before: UsageTotals, after: UsageTotals) -> (r: UsageTotals)
    ensures
        r == usage_delta(before, after),
{
    UsageTotals {
        input_tokens: saturating_difference(after.input_tokens, before.input_tokens),
        output_tokens: saturating_difference(after.output_tokens, before.output_tokens),
        cache_tokens: saturating_difference(after.cache_tokens, before.cache_tokens),
        cost_usd_micros: saturating_difference(after.cost_usd_micros, before.cost_usd_micros),
    }
}

pub fn add_task_usage(base: UsageTotals, delta: UsageTotals) -> (r: UsageTotals)
    ensures
        r == totals_sum(base, delta),
{
    UsageTotals {
        input_tokens: crate::budget::saturating_sum_u64(base.input_tokens, delta.input_tokens),
        output_tokens: crate::budget::saturating_sum_u64(base.output_tokens, delta.output_tokens),
        cache_tokens: crate::budget::saturating_sum_u64(base.cache_tokens, delta.cache_tokens),
        cost_usd_micros: crate::budget::saturating_sum_u64(
            base.cost_usd_micros,
            delta.cost_usd_micros,
        ),
    }
}

/// What a task used before a turn and what the turn added: where nothing was
/// counted down and nothing overflows, the task has used exactly that.
pub proof fn task_usage_adds_up(before: UsageTotals, after: UsageTotals, base: UsageTotals)
    requires
        before.input_tokens <= after.input_tokens,
        before.output_tokens <= after.output_tokens,
        before.cache_tokens <= after.cache_tokens,
        before.cost_usd_micros <= after.cost_usd_micros,
        base.input_tokens + (after.input_tokens - before.input_tokens) <= u64::MAX,
        base.output_tokens + (after.output_tokens - before.output_tokens) <= u64::MAX,
        base.cache_tokens + (after.cache_tokens - before.cache_tokens) <= u64::MAX,
        base.cost_usd_micros + (after.cost_usd_micros - before.cost_usd_micros) <= u64::MAX,
    ensures
        ({
            let used = totals_sum(base, usage_delta(before, after));
            &&& used.input_tokens == base.input_tokens + after.input_tokens - before.input_tokens
            &&& used.output_tokens == base.output_tokens + after.output_tokens
                - before.output_tokens
            &&& used.cache_tokens == base.cache_tokens + after.cache_tokens - before.cache_tokens
            &&& used.cost_usd_micros == base.cost_usd_micros + after.cost_usd_micros
                - before.cost_usd_micros
        }),
{
}

/// What is counted from nothing is the whole: a turn that starts a task's count
/// leaves exactly its own usage.
pub proof fn first_turns_count_in_full(after: UsageTotals)
    ensures
        totals_sum(UsageTotals::zero_spec(), usage_delta(UsageTotals::zero_spec(), after)) == after,
{
}

/// The task of the main session that a turn works for.
#[derive(Debug)]
pub struct ThreadTurnMainSessionTask {
    pub id: String,
    pub usage_before: UsageTotals,
    pub task_usage_before: UsageTotals,
}

/// How the task of the main session is closed.
#[derive(Debug)]
#[allow(inconsistent_fields)]
pub enum MainSessionTerminalUpdate {
    Completed { result: String },
    Stopped { reason: String },
    Failed { error: String },
}

/// The update that a turn with the given end calls for.
pub open spec fn closes_task(
    update: MainSessionTerminalUpdate,
    status: RunStatus,
    error: Option<String>,
) -> bool {
    match status {
        RunStatus::Success => update matches MainSessionTerminalUpdate::Completed { result }
            && result@ == status.text(),
        RunStatus::Cancelled => update matches MainSessionTerminalUpdate::Stopped { reason }
            && reason@ == status.text(),
        _ => update matches MainSessionTerminalUpdate::Failed { error: e } && e@ == (match error {
            Some(error) => error@,
            None => status.text(),
        }),
    }
}

impl ThreadTurnMainSessionTask {
    /// The task that a request names, with what it had used before.
    pub fn from_request(
        main_session_task_id: &Option<String>,
        usage_before: UsageTotals,
        task_usage: Option<UsageTotals>,
    ) -> (r: Option<Self>)
        ensures
            match *main_session_task_id {
                Some(id) => r == Some(
                    ThreadTurnMainSessionTask {
                        id,
                        usage_before,
                        task_usage_before: match task_usage {
                            Some(usage) => usage,
                            None => UsageTotals::zero_spec(),
                        },
                    },
                ),
                None => r is None,
            },
    {
        match main_session_task_id {
            Some(id) => Some(
                ThreadTurnMainSessionTask {
                    id: id.clone(),
                    usage_before,
                    task_usage_before: match task_usage {
                        Some(usage) => usage,
                        None => UsageTotals::zero(),
                    },
                },
            ),
            None => None,
        }
    }

    /// Closes the task and says what it has used.
    pub fn finish(&self, status: RunStatus, error: &Option<String>, usage: UsageTotals) -> (r: (
        MainSessionTerminalUpdate,
        UsageTotals,
    ))
        ensures
            closes_task(r.0, status, *error),
            r.1 == totals_sum(self.task_usage_before, usage_delta(self.usage_before, usage)),
    {
        let usage = add_task_usage(
            self.task_usage_before,
            task_usage_delta(self.usage_before, usage),
        );
        let update = match status {
            RunStatus::Success => MainSessionTerminalUpdate::Completed {
                result: status.as_str().to_owned(),
            },
            RunStatus::Cancelled => MainSessionTerminalUpdate::Stopped {
                reason: status.as_str().to_owned(),
            },
            _ => MainSessionTerminalUpdate::Failed {
                error: match error {
                    Some(error) => error.clone(),
                    None => status.as_str().to_owned(),
                },
            },
        };
        (update, usage)
    }

    /// The place of the task among the known ones, or the error that it is
    /// unknown.
    pub fn find_current(&self, task_ids: &Vec<String>) -> (r: Result<usize, TurnError>)
        ensures
            match r {
                Ok(i) => i < task_ids@.len() && task_ids@[i as int]@ == self.id@ && forall|j: int|
                    0 <= j < i ==> (#[trigger] task_ids@[j])@ != self.id@,
                Err(e) => e.kind == TurnErrorKind::NotFound && e.message@ == "main-session task '"@
                    + self.id@ + "' not found"@ && forall|j: int|
                    0 <= j < task_ids@.len() ==> (#[trigger] task_ids@[j])@ != self.id@,
            },
    {
        let mut i: usize = 0;
        while i < task_ids.len()
            invariant
                i <= task_ids.len(),
                forall|j: int| 0 <= j < i ==> (#[trigger] task_ids@[j])@ != self.id@,
            decreases task_ids.len() - i,
        {
            if text_is(task_ids[i].as_str(), self.id.as_str()) {
                return Ok(i);
            }
            i += 1;
        }
        Err(
            TurnError {
                kind: TurnErrorKind::NotFound,
                message: plus3("main-session task '", self.id.as_str(), "' not found"),
            },
        )
    }
}

#[derive(Clone, Copy, Debug, PartialEq, Eq, Structural)]
pub enum TurnErrorKind {
    NotFound,
    Other,
}

#[derive(Debug)]
pub struct TurnError {
    pub kind: TurnErrorKind,
    pub message: String,
}

impl TurnError {
    pub fn duplicate(&self) -> (r: Self)
        ensures
            r == *self,
    {
        TurnError { kind: self.kind, message: self.message.clone() }
    }
}

/// Why a turn ended, where that is known.
#[derive(Debug)]
pub enum TurnEndReason {
    Unclassified,
    Classified(String),
}

/// What a verifier found.
#[derive(Debug)]
pub struct VerificationResult {
    pub success: bool,
    pub detail: String,
}

/// The result of the agent loop of a turn.
#[derive(Debug)]
pub struct TurnLoopResult {
    pub status: RunStatus,
    pub reason: TurnEndReason,
    pub error: Option<String>,
    pub terminal: OperationTerminal,
}

/// A turn that ran to its end and is to be committed.
#[derive(Debug)]
pub struct ThreadTurnCompletion {
    pub status: RunStatus,
    pub end_reason: TurnEndReason,
    pub error: Option<String>,
    /// The typed terminal counts where there is one.
    pub terminal: Option<OperationTerminal>,
    pub verification: Option<VerificationResult>,
}

/// What executing a turn came to.
#[derive(Debug)]
pub enum PreparedThreadTurnOutcome {
    Completed(ThreadTurnCompletion),
    ProviderSuspended,
}

/// What an execution waits for.
#[derive(Clone, Copy, Debug, PartialEq, Eq, Structural)]
pub enum ExecutionPhase {
    /// The task is shown as it is.
    EmittingTask,
    /// The task is closed because it could not be shown.
    ClosingUnshownTask,
    Looping,
    FinishingLifecycle,
    ObservingWorkflows,
    AnnouncingVerification,
    Verifying,
    ReportingVerification,
    /// The task is closed and shown because the turn failed.
    ClosingTask,
    Done,
}

/// The execution of a prepared turn.
#[derive(Debug)]
pub struct PreparedThreadTurn {
    pub has_task: bool,
    pub waits_for_workflows: bool,
    pub verifier: Option<String>,
    pub result: Option<TurnLoopResult>,
    pub verification: Option<VerificationResult>,
    pub error: Option<TurnError>,
    pub phase: ExecutionPhase,
}

/// What an execution asks for.
#[derive(Debug)]
#[allow(inconsistent_fields)]
pub enum ExecutionAction {
    EmitTask,
    /// Close the task with a failure, and show it if `emit`.
    FailTask { error: String, emit: bool },
    RunLoop,
    FinishLifecycle { status: RunStatus },
    ObserveWorkflows,
    EmitVerificationStarted { command: String },
    RunVerifier { command: String },
    EmitVerificationCompleted,
    Return { result: Result<PreparedThreadTurnOutcome, TurnError> },
}

/// What came of what an execution asked for.
#[derive(Debug)]
#[allow(inconsistent_fields)]
pub enum ExecutionEvent {
    Done,
    Suspended,
    Looped { result: TurnLoopResult },
    Verified { result: VerificationResult },
    Failed { error: TurnError },
}

/// The status of a turn after its verification.
pub open spec fn verified_status(status: RunStatus, verification: Option<VerificationResult>) -> RunStatus {
    match verification {
        Some(result) => if result.success {
            RunStatus::Success
        } else {
            RunStatus::VerificationFailed
        },
        None => status,
    }
}

/// What a turn with the given loop result and verification completes as. A
/// status that the verifier changed is no longer described by the loop's own
/// reason.
pub open spec fn completion_of(
    result: TurnLoopResult,
    verification: Option<VerificationResult>,
) -> ThreadTurnCompletion {
    let status = verified_status(result.status, verification);
    ThreadTurnCompletion {
        status,
        end_reason: if status != result.status {
            TurnEndReason::Unclassified
        } else {
            result.reason
        },
        error: result.error,
        terminal: Some(result.terminal),
        verification,
    }
}

impl PreparedThreadTurn {
    pub open spec fn at(self, phase: ExecutionPhase) -> Self {
        PreparedThreadTurn { phase, ..self }
    }

    /// The execution ends with an error, after the task was closed.
    pub open spec fn fail(self, error: TurnError) -> (Self, ExecutionAction) {
        if self.has_task {
            (
                PreparedThreadTurn {
                    error: Some(error),
                    phase: ExecutionPhase::ClosingTask,
                    ..self
                },
                ExecutionAction::FailTask { error: error.message, emit: true },
            )
        } else {
            (
                self.at(ExecutionPhase::Done),
                ExecutionAction::Return { result: Err(error) },
            )
        }
    }

    pub open spec fn complete(self) -> (Self, ExecutionAction) {
        (
            PreparedThreadTurn {
                result: None,
                verification: None,
                phase: ExecutionPhase::Done,
                ..self
            },
            ExecutionAction::Return {
                result: Ok(
                    PreparedThreadTurnOutcome::Completed(
                        completion_of(self.result->0, self.verification),
                    ),
                ),
            },
        )
    }

    /// A successful turn is verified, where there is a verifier.
    pub open spec fn verify(self) -> (Self, ExecutionAction) {
        match self.verifier {
            Some(command) => if self.result->0.status == RunStatus::Success {
                (
                    self.at(ExecutionPhase::AnnouncingVerification),
                    ExecutionAction::EmitVerificationStarted { command },
                )
            } else {
                self.complete()
            },
            None => self.complete(),
        }
    }

    /// What follows an event.
    pub open spec fn after(self, event: ExecutionEvent) -> (Self, ExecutionAction) {
        match event {
            ExecutionEvent::Suspended => (
                self.at(ExecutionPhase::Done),
                ExecutionAction::Return { result: Ok(PreparedThreadTurnOutcome::ProviderSuspended) },
            ),
            ExecutionEvent::Looped { result } => (
                PreparedThreadTurn {
                    result: Some(result),
                    phase: ExecutionPhase::FinishingLifecycle,
                    ..self
                },
                ExecutionAction::FinishLifecycle { status: result.status },
            ),
            ExecutionEvent::Verified { result } => (
                PreparedThreadTurn {
                    verification: Some(result),
                    phase: ExecutionPhase::ReportingVerification,
                    ..self
                },
                ExecutionAction::EmitVerificationCompleted,
            ),
            ExecutionEvent::Done => match self.phase {
                ExecutionPhase::EmittingTask => (
                    self.at(ExecutionPhase::Looping),
                    ExecutionAction::RunLoop,
                ),
                ExecutionPhase::FinishingLifecycle => if self.waits_for_workflows {
                    (
                        self.at(ExecutionPhase::ObservingWorkflows),
                        ExecutionAction::ObserveWorkflows,
                    )
                } else {
                    self.verify()
                },
                ExecutionPhase::ObservingWorkflows => self.verify(),
                ExecutionPhase::AnnouncingVerification => (
                    self.at(ExecutionPhase::Verifying),
                    ExecutionAction::RunVerifier { command: self.verifier->0 },
                ),
                ExecutionPhase::ReportingVerification => self.complete(),
                _ => (
                    PreparedThreadTurn { error: None, phase: ExecutionPhase::Done, ..self },
                    ExecutionAction::Return { result: Err(self.error->0) },
                ),
            },
            ExecutionEvent::Failed { error } => match self.phase {
                ExecutionPhase::EmittingTask => (
                    PreparedThreadTurn {
                        error: Some(error),
                        phase: ExecutionPhase::ClosingUnshownTask,
                        ..self
                    },
                    ExecutionAction::FailTask { error: error.message, emit: false },
                ),
                ExecutionPhase::ClosingUnshownTask => (
                    self.at(ExecutionPhase::Done),
                    ExecutionAction::Return { result: Err(error) },
                ),
                ExecutionPhase::ClosingTask => (
                    self.at(ExecutionPhase::Done),
                    ExecutionAction::Return { result: Err(error) },
                ),
                _ => self.fail(error),
            },
        }
    }

    /// An event answers what was asked for.
    pub open spec fn expects(self, event: ExecutionEvent) -> bool {
        match event {
            ExecutionEvent::Suspended => self.phase == ExecutionPhase::Looping,
            ExecutionEvent::Looped { .. } => self.phase == ExecutionPhase::Looping,
            ExecutionEvent::Verified { .. } => self.phase == ExecutionPhase::Verifying,
            ExecutionEvent::Done => self.phase != ExecutionPhase::Looping && self.phase
                != ExecutionPhase::Verifying && self.phase != ExecutionPhase::Done,
            ExecutionEvent::Failed { .. } => self.phase != ExecutionPhase::FinishingLifecycle
                && self.phase != ExecutionPhase::Verifying && self.phase != ExecutionPhase::Done,
        }
    }

    /// What every execution keeps.
    pub open spec fn wf(self) -> bool {
        &&& self.phase == ExecutionPhase::FinishingLifecycle || self.phase
            == ExecutionPhase::ObservingWorkflows || self.verifying() ==> self.result is Some
        &&& self.verifying() ==> self.verifier is Some && self.result->0.status
            == RunStatus::Success
        &&& self.phase == ExecutionPhase::ReportingVerification ==> self.verification is Some
        &&& self.phase != ExecutionPhase::ReportingVerification && self.phase
            != ExecutionPhase::ClosingTask && self.phase != ExecutionPhase::Done
            ==> self.verification is None
        &&& self.phase == ExecutionPhase::ClosingTask || self.phase
            == ExecutionPhase::ClosingUnshownTask ==> self.error is Some && self.has_task
        &&& self.phase == ExecutionPhase::EmittingTask ==> self.has_task
    }

    pub open spec fn verifying(self) -> bool {
        self.phase == ExecutionPhase::AnnouncingVerification || self.phase
            == ExecutionPhase::Verifying || self.phase == ExecutionPhase::ReportingVerification
    }

    /// Begins an execution: a turn that works for a task shows it first.
    pub fn start(has_task: bool, waits_for_workflows: bool, verifier: Option<String>) -> (r: (
        Self,
        ExecutionAction,
    ))
        ensures
            r.0 == (PreparedThreadTurn {
                has_task,
                waits_for_workflows,
                verifier,
                result: None,
                verification: None,
                error: None,
                phase: if has_task {
                    ExecutionPhase::EmittingTask
                } else {
                    ExecutionPhase::Looping
                },
            }),
            r.1 == (if has_task {
                ExecutionAction::EmitTask
            } else {
                ExecutionAction::RunLoop
            }),
            r.0.wf(),
    {
        let phase = if has_task {
            ExecutionPhase::EmittingTask
        } else {
            ExecutionPhase::Looping
        };
        let action = if has_task {
            ExecutionAction::EmitTask
        } else {
            ExecutionAction::RunLoop
        };
        (
            PreparedThreadTurn {
                has_task,
                waits_for_workflows,
                verifier,
                result: None,
                verification: None,
                error: None,
                phase,
            },
            action,
        )
    }

    fn end_in_failure(self, error: TurnError) -> (r: (Self, ExecutionAction))
        ensures
            r == self.fail(error),
    {
        if self.has_task {
            let message = error.message.clone();
            (
                PreparedThreadTurn {
                    error: Some(error),
                    phase: ExecutionPhase::ClosingTask,
                    ..self
                },
                ExecutionAction::FailTask { error: message, emit: true },
            )
        } else {
            (
                PreparedThreadTurn { phase: ExecutionPhase::Done, ..self },
                ExecutionAction::Return { result: Err(error) },
            )
        }
    }

    fn end_in_completion(self) -> (r: (Self, ExecutionAction))
        requires
            self.result is Some,
        ensures
            r == self.complete(),
    {
        let result = match self.result {
            Some(result) => result,
            None => vstd::pervasive::unreached(),
        };
        let (status, changed) = match &self.verification {
            Some(verification) => if verification.success {
                (RunStatus::Success, result.status != RunStatus::Success)
            } else {
                (
                    RunStatus::VerificationFailed,
                    result.status != RunStatus::VerificationFailed,
                )
            },
            None => (result.status, false),
        };
        let end_reason = if changed {
            TurnEndReason::Unclassified
        } else {
            result.reason
        };
        let completion = ThreadTurnCompletion {
            status,
            end_reason,
            error: result.error,
            terminal: Some(result.terminal),
            verification: self.verification,
        };
        (
            PreparedThreadTurn {
                has_task: self.has_task,
                waits_for_workflows: self.waits_for_workflows,
                verifier: self.verifier,
                result: None,
                verification: None,
                error: self.error,
                phase: ExecutionPhase::Done,
            },
            ExecutionAction::Return {
                result: Ok(PreparedThreadTurnOutcome::Completed(completion)),
            },
        )
    }

    /// Asks for the verifier if the turn succeeded and there is one.
    fn run_verifier_if_needed(self) -> (r: (Self, ExecutionAction))
        requires
            self.result is Some,
        ensures
            r == self.verify(),
    {
        let succeeded = match &self.result {
            Some(result) => result.status == RunStatus::Success,
            None => false,
        };
        if succeeded {
            let command = clone_text(&self.verifier);
            if let Some(command) = command {
                return (
                    PreparedThreadTurn { phase: ExecutionPhase::AnnouncingVerification, ..self },
                    ExecutionAction::EmitVerificationStarted { command },
                );
            }
        }
        self.end_in_completion()
    }

    fn after_done(self) -> (r: (Self, ExecutionAction))
        requires
            self.wf(),
            self.expects(ExecutionEvent::Done),
        ensures
            r == self.after(ExecutionEvent::Done),
    {
        match self.phase {
            ExecutionPhase::EmittingTask => (
                PreparedThreadTurn { phase: ExecutionPhase::Looping, ..self },
                ExecutionAction::RunLoop,
            ),
            ExecutionPhase::FinishingLifecycle => {
                if self.waits_for_workflows {
                    return (
                        PreparedThreadTurn { phase: ExecutionPhase::ObservingWorkflows, ..self },
                        ExecutionAction::ObserveWorkflows,
                    );
                }
                self.run_verifier_if_needed()
            },
            ExecutionPhase::ObservingWorkflows => self.run_verifier_if_needed(),
            ExecutionPhase::AnnouncingVerification => {
                let command = match clone_text(&self.verifier) {
                    Some(command) => command,
                    None => vstd::pervasive::unreached(),
                };
                (
                    PreparedThreadTurn { phase: ExecutionPhase::Verifying, ..self },
                    ExecutionAction::RunVerifier { command },
                )
            },
            ExecutionPhase::ReportingVerification => self.end_in_completion(),
            _ => {
                let error = match self.error {
                    Some(error) => error,
                    None => vstd::pervasive::unreached(),
                };
                (
                    PreparedThreadTurn { error: None, phase: ExecutionPhase::Done, ..self },
                    ExecutionAction::Return { result: Err(error) },
                )
            },
        }
    }

    /// Moves on after an event.
    pub fn execute(self, event: ExecutionEvent) -> (r: (Self, ExecutionAction))
        requires
            self.wf(),
            self.expects(event),
        ensures
            r == self.after(event),
            r.0.wf(),
    {
        match event {
            ExecutionEvent::Suspended => (
                PreparedThreadTurn { phase: ExecutionPhase::Done, ..self },
                ExecutionAction::Return { result: Ok(PreparedThreadTurnOutcome::ProviderSuspended) },
            ),
            ExecutionEvent::Looped { result } => {
                let status = result.status;
                (
                    PreparedThreadTurn {
                        result: Some(result),
                        phase: ExecutionPhase::FinishingLifecycle,
                        ..self
                    },
                    ExecutionAction::FinishLifecycle { status },
                )
            },
            ExecutionEvent::Verified { result } => (
                PreparedThreadTurn {
                    verification: Some(result),
                    phase: ExecutionPhase::ReportingVerification,
                    ..self
                },
                ExecutionAction::EmitVerificationCompleted,
            ),
            ExecutionEvent::Done => self.after_done(),
            ExecutionEvent::Failed { error } => match self.phase {
                ExecutionPhase::EmittingTask => {
                    let message = error.message.clone();
                    (
                        PreparedThreadTurn {
                            error: Some(error),
                            phase: ExecutionPhase::ClosingUnshownTask,
                            ..self
                        },
                        ExecutionAction::FailTask { error: message, emit: false },
                    )
                },
                ExecutionPhase::ClosingUnshownTask => (
                    PreparedThreadTurn { phase: ExecutionPhase::Done, ..self },
                    ExecutionAction::Return { result: Err(error) },
                ),
                ExecutionPhase::ClosingTask => (
                    PreparedThreadTurn { phase: ExecutionPhase::Done, ..self },
                    ExecutionAction::Return { result: Err(error) },
                ),
                _ => self.end_in_failure(error),
            },
        }
    }
}

/// The verifier runs after a success only, and only a failed verification
/// changes the status.
pub proof fn only_successes_are_verified(turn: PreparedThreadTurn, event: ExecutionEvent)
    requires
        turn.wf(),
        turn.expects(event),
    ensures
        turn.after(event).1 is RunVerifier ==> turn.result->0.status == RunStatus::Success,
        turn.after(event).1 matches ExecutionAction::Return {
            result: Ok(PreparedThreadTurnOutcome::Completed(completion)),
        } ==> (completion.status == turn.result->0.status || (turn.result->0.status
            == RunStatus::Success && completion.status == RunStatus::VerificationFailed
            && !completion.verification->0.success)),
{
}

/// A task is closed before its turn fails: no error of a turn that works for a
/// task is returned but after an attempt to close it.
pub proof fn failed_turns_close_their_task(turn: PreparedThreadTurn, event: ExecutionEvent)
    requires
        turn.wf(),
        turn.expects(event),
        turn.has_task,
        turn.after(event).1 matches ExecutionAction::Return { result } && result is Err,
    ensures
        turn.phase == ExecutionPhase::ClosingTask || turn.phase
            == ExecutionPhase::ClosingUnshownTask,
{
}

/// What a commit waits for.
#[derive(Clone, Copy, Debug, PartialEq, Eq, Structural)]
pub enum CommitPhase {
    WritingTranscript,
    ClosingTask,
    ListingTasks,
    ReportingSession,
    CheckingMemory,
    StoringMemory,
    Done,
}

/// The commit of a completed turn.
#[derive(Debug)]
pub struct ThreadTurnCommit {
    pub completion: ThreadTurnCompletion,
    pub has_task: bool,
    pub emits_session_completed: bool,
    /// The transcript took the end of the turn.
    pub transcript_committed: bool,
    pub phase: CommitPhase,
}

/// How the end of a session is reported.
#[derive(Clone, Copy, Debug, PartialEq, Eq, Structural)]
pub enum SessionCompletedForm {
    /// By the status, with the verification.
    VerifiedStatus,
    /// By the typed terminal, with the verification.
    Terminal,
    /// By the status alone.
    Status,
}

/// What a commit asks for.
#[derive(Debug)]
#[allow(inconsistent_fields)]
pub enum CommitAction {
    /// End the transcript with the status and the error of the completion.
    CompleteWithStatus,
    /// End the transcript with the terminal of the completion.
    CompleteWithTerminal,
    /// Close the task with the status and the error of the completion, and show
    /// it.
    FinishTask,
    EmitAllTasks,
    EmitSessionCompleted { form: SessionCompletedForm },
    /// Find out whether the turn may be remembered.
    CheckMemory { transcript_committed: bool },
    EnqueueMemory,
    FinishMemory,
    Return { result: Result<RunStatus, TurnError> },
}

/// What came of what a commit asked for.
#[derive(Debug)]
#[allow(inconsistent_fields)]
pub enum CommitEvent {
    /// The transcript was ended, durably or not.
    TranscriptEnded { committed: bool },
    Done,
    MemoryChecked { eligible: bool },
    Failed { error: TurnError },
}

impl ThreadTurnCommit {
    /// Statuses that have no typed terminal of their own, unless the budget
    /// stopped the turn.
    pub open spec fn untyped(self) -> bool {
        self.completion.terminal is Some && (self.completion.status == RunStatus::ApprovalRequired
            || self.completion.status == RunStatus::VerificationFailed)
            && !(self.completion.terminal->0 is Stopped)
    }

    pub open spec fn at(self, phase: CommitPhase) -> Self {
        ThreadTurnCommit { phase, ..self }
    }

    pub open spec fn succeed(self) -> (Self, CommitAction) {
        (
            self.at(CommitPhase::Done),
            CommitAction::Return { result: Ok(self.completion.status) },
        )
    }

    /// Once the session is reported: a turn with a typed end may be remembered.
    pub open spec fn remember(self) -> (Self, CommitAction) {
        if self.untyped() {
            self.succeed()
        } else {
            (
                self.at(CommitPhase::CheckingMemory),
                CommitAction::CheckMemory { transcript_committed: self.transcript_committed },
            )
        }
    }

    pub open spec fn form(self) -> SessionCompletedForm {
        if self.untyped() {
            SessionCompletedForm::VerifiedStatus
        } else if self.completion.terminal is Some {
            SessionCompletedForm::Terminal
        } else {
            SessionCompletedForm::Status
        }
    }

    pub open spec fn report(self) -> (Self, CommitAction) {
        if self.emits_session_completed {
            (
                self.at(CommitPhase::ReportingSession),
                CommitAction::EmitSessionCompleted { form: self.form() },
            )
        } else {
            self.remember()
        }
    }

    /// What follows an event.
    pub open spec fn after(self, event: CommitEvent) -> (Self, CommitAction) {
        match event {
            CommitEvent::TranscriptEnded { committed } => {
                let ended = ThreadTurnCommit { transcript_committed: committed, ..self };
                if self.has_task {
                    (ended.at(CommitPhase::ClosingTask), CommitAction::FinishTask)
                } else {
                    ended.report()
                }
            },
            CommitEvent::MemoryChecked { eligible } => (
                self.at(CommitPhase::StoringMemory),
                if eligible {
                    CommitAction::EnqueueMemory
                } else {
                    CommitAction::FinishMemory
                },
            ),
            CommitEvent::Done => match self.phase {
                CommitPhase::ClosingTask => (
                    self.at(CommitPhase::ListingTasks),
                    CommitAction::EmitAllTasks,
                ),
                CommitPhase::ListingTasks => self.report(),
                CommitPhase::ReportingSession => self.remember(),
                _ => self.succeed(),
            },
            CommitEvent::Failed { error } => match self.phase {
                CommitPhase::StoringMemory => self.succeed(),
                _ => (
                    self.at(CommitPhase::Done),
                    CommitAction::Return { result: Err(error) },
                ),
            },
        }
    }

    /// An event answers what was asked for.
    pub open spec fn expects(self, event: CommitEvent) -> bool {
        match event {
            CommitEvent::TranscriptEnded { .. } => self.phase == CommitPhase::WritingTranscript,
            CommitEvent::MemoryChecked { .. } => self.phase == CommitPhase::CheckingMemory,
            _ => self.phase == CommitPhase::ClosingTask || self.phase == CommitPhase::ListingTasks
                || self.phase == CommitPhase::ReportingSession || self.phase
                == CommitPhase::StoringMemory,
        }
    }

    fn has_untyped_end(&self) -> (r: bool)
        ensures
            r == self.untyped(),
    {
        let listed = match self.completion.status {
            RunStatus::ApprovalRequired => true,
            RunStatus::VerificationFailed => true,
            _ => false,
        };
        match &self.completion.terminal {
            Some(OperationTerminal::Stopped { .. }) => false,
            Some(OperationTerminal::Completed { .. }) => listed,
            None => false,
        }
    }

    /// Begins the commit of a completed turn with its transcript. A budget stop,
    /// like every other typed terminal, ends the transcript itself.
    pub fn start(
        completion: ThreadTurnCompletion,
        has_task: bool,
        emits_session_completed: bool,
    ) -> (r: (Self, CommitAction))
        ensures
            r.0 == (ThreadTurnCommit {
                completion,
                has_task,
                emits_session_completed,
                transcript_committed: false,
                phase: CommitPhase::WritingTranscript,
            }),
            r.1 == (if r.0.untyped() || completion.terminal is None {
                CommitAction::CompleteWithStatus
            } else {
                CommitAction::CompleteWithTerminal
            }),
    {
        let commit = ThreadTurnCommit {
            completion,
            has_task,
            emits_session_completed,
            transcript_committed: false,
            phase: CommitPhase::WritingTranscript,
        };
        let by_status = commit.has_untyped_end() || commit.completion.terminal.is_none();
        let action = if by_status {
            CommitAction::CompleteWithStatus
        } else {
            CommitAction::CompleteWithTerminal
        };
        (commit, action)
    }

    fn end(self) -> (r: (Self, CommitAction))
        ensures
            r == self.succeed(),
    {
        let status = self.completion.status;
        (
            ThreadTurnCommit { phase: CommitPhase::Done, ..self },
            CommitAction::Return { result: Ok(status) },
        )
    }

    fn after_report(self) -> (r: (Self, CommitAction))
        ensures
            r == self.remember(),
    {
        if self.has_untyped_end() {
            return self.end();
        }
        let transcript_committed = self.transcript_committed;
        (
            ThreadTurnCommit { phase: CommitPhase::CheckingMemory, ..self },
            CommitAction::CheckMemory { transcript_committed },
        )
    }

    fn report_session(self) -> (r: (Self, CommitAction))
        ensures
            r == self.report(),
    {
        if !self.emits_session_completed {
            return self.after_report();
        }
        let form = if self.has_untyped_end() {
            SessionCompletedForm::VerifiedStatus
        } else if self.completion.terminal.is_some() {
            SessionCompletedForm::Terminal
        } else {
            SessionCompletedForm::Status
        };
        (
            ThreadTurnCommit { phase: CommitPhase::ReportingSession, ..self },
            CommitAction::EmitSessionCompleted { form },
        )
    }

    /// Moves on after an event.
    pub fn commit(self, event: CommitEvent) -> (r: (Self, CommitAction))
        requires
            self.expects(event),
        ensures
            r == self.after(event),
    {
        match event {
            CommitEvent::TranscriptEnded { committed } => {
                let ended = ThreadTurnCommit { transcript_committed: committed, ..self };
                if ended.has_task {
                    (
                        ThreadTurnCommit { phase: CommitPhase::ClosingTask, ..ended },
                        CommitAction::FinishTask,
                    )
                } else {
                    ended.report_session()
                }
            },
            CommitEvent::MemoryChecked { eligible } => (
                ThreadTurnCommit { phase: CommitPhase::StoringMemory, ..self },
                if eligible {
                    CommitAction::EnqueueMemory
                } else {
                    CommitAction::FinishMemory
                },
            ),
            CommitEvent::Done => match self.phase {
                CommitPhase::ClosingTask => (
                    ThreadTurnCommit { phase: CommitPhase::ListingTasks, ..self },
                    CommitAction::EmitAllTasks,
                ),
                CommitPhase::ListingTasks => self.report_session(),
                CommitPhase::ReportingSession => self.after_report(),
                _ => self.end(),
            },
            CommitEvent::Failed { error } => match self.phase {
                CommitPhase::StoringMemory => self.end(),
                _ => (
                    ThreadTurnCommit { phase: CommitPhase::Done, ..self },
                    CommitAction::Return { result: Err(error) },
                ),
            },
        }
    }
}

/// Where a phase stands in the order of a commit.
pub open spec fn commit_rank(phase: CommitPhase) -> nat {
    match phase {
        CommitPhase::WritingTranscript => 0,
        CommitPhase::ClosingTask => 1,
        CommitPhase::ListingTasks => 2,
        CommitPhase::ReportingSession => 3,
        CommitPhase::CheckingMemory => 4,
        CommitPhase::StoringMemory => 5,
        CommitPhase::Done => 6,
    }
}

/// A commit moves through its steps in one order and does each at most once:
/// the transcript, the task, the session, the memory.
pub proof fn commits_move_on(commit: ThreadTurnCommit, event: CommitEvent)
    requires
        commit.expects(event),
    ensures
        commit_rank(commit.phase) < commit_rank(commit.after(event).0.phase),
{
}

/// A turn that waits for approval or failed its verification is not remembered,
/// unless the budget stopped it.
pub proof fn unfinished_turns_are_not_remembered(commit: ThreadTurnCommit, event: CommitEvent)
    requires
        commit.expects(event),
        commit.untyped(),
        commit.phase != CommitPhase::CheckingMemory,
    ensures
        !(commit.after(event).1 is CheckMemory),
        !(commit.after(event).1 is EnqueueMemory),
{
}

/// A commit that succeeds reports the status of the completion.
pub proof fn commits_report_the_status(commit: ThreadTurnCommit, event: CommitEvent)
    requires
        commit.expects(event),
    ensures
        commit.after(event).1 matches CommitAction::Return { result: Ok(status) } ==> status
            == commit.completion.status,
        commit.after(event).0.completion == commit.completion,
{
}

/// What a committed turn is handed out as.
#[derive(Debug)]
#[allow(inconsistent_fields)]
pub enum ThreadTurnOutcome<T, S> {
    Completed {
        status: RunStatus,
        end_reason: TurnEndReason,
        background_workflows: RuntimeBackgroundWorkflows<T>,
        terminal: Option<OperationTerminal>,
        verification: Option<VerificationResult>,
    },
    ProviderSuspended { suspension: S, background_workflows: RuntimeBackgroundWorkflows<T> },
}

impl ThreadTurnCommit {
    /// What a turn is handed out as once its commit returned. A failed commit
    /// hands nothing out.
    pub fn into_outcome<T, S>(
        self,
        committed: Result<RunStatus, TurnError>,
        background_workflows: RuntimeBackgroundWorkflows<T>,
    ) -> (r: Result<ThreadTurnOutcome<T, S>, TurnError>)
        ensures
            r == (match committed {
                Ok(status) => Ok::<ThreadTurnOutcome<T, S>, TurnError>(
                    ThreadTurnOutcome::Completed {
                        status,
                        end_reason: self.completion.end_reason,
                        background_workflows,
                        terminal: self.completion.terminal,
                        verification: self.completion.verification,
                    },
                ),
                Err(error) => Err::<ThreadTurnOutcome<T, S>, TurnError>(error),
            }),
    {
        match committed {
            Ok(status) => Ok(
                ThreadTurnOutcome::Completed {
                    status,
                    end_reason: self.completion.end_reason,
                    background_workflows,
                    terminal: self.completion.terminal,
                    verification: self.completion.verification,
                },
            ),
            Err(error) => Err(error),
        }
    }
}

impl<T, S> ThreadTurnOutcome<T, S> {
    /// The workflows that go on in the background.
    pub open spec fn workflows(self) -> RuntimeBackgroundWorkflows<T> {
        match self {
            ThreadTurnOutcome::Completed { background_workflows, .. } => background_workflows,
            ThreadTurnOutcome::ProviderSuspended { background_workflows, .. } =>
                background_workflows,
        }
    }

    /// The status of a turn for a caller that cannot take it up again, and the
    /// workflows that such a caller has to join.
    pub fn into_completed(self) -> (r: (RuntimeBackgroundWorkflows<T>, Result<RunStatus, String>))
        ensures
            r.0 == self.workflows(),
            match self {
                ThreadTurnOutcome::Completed { status, .. } => r.1 == Ok::<RunStatus, String>(
                    status,
                ),
                ThreadTurnOutcome::ProviderSuspended { .. } => r.1 matches Err(e) && e@
                    == "provider turn suspended without a suspension-aware caller"@,
            },
    {
        match self {
            ThreadTurnOutcome::Completed { status, background_workflows, .. } => (
                background_workflows,
                Ok(status),
            ),
            ThreadTurnOutcome::ProviderSuspended { background_workflows, .. } => (
                background_workflows,
                Err("provider turn suspended without a suspension-aware caller".to_owned()),
            ),
        }
    }
}

/// A task is closed as its turn ended: as completed exactly after a success, as
/// stopped exactly after a cancellation, and otherwise as failed, with the error
/// of the turn where there is one.
pub proof fn tasks_are_closed_as_their_turn(
    update: MainSessionTerminalUpdate,
    status: RunStatus,
    error: Option<String>,
)
    requires
        closes_task(update, status, error),
    ensures
        update is Completed <==> status == RunStatus::Success,
        update is Stopped <==> status == RunStatus::Cancelled,
        update is Failed <==> status == RunStatus::Failed || status == RunStatus::ApprovalRequired
            || status == RunStatus::VerificationFailed,
        update matches MainSessionTerminalUpdate::Failed { error: shown } ==> (
        error matches Some(text) ==> shown@ == text@),
{
}

/// What a turn used is what the totals grew by, and nothing where they did not
/// grow.
pub proof fn usage_deltas_are_growth(before: UsageTotals, after: UsageTotals)
    ensures
        ({
            let delta = usage_delta(before, after);
            &&& before.input_tokens <= after.input_tokens ==> before.input_tokens
                + delta.input_tokens == after.input_tokens
            &&& before.output_tokens <= after.output_tokens ==> before.output_tokens
                + delta.output_tokens == after.output_tokens
            &&& before.cache_tokens <= after.cache_tokens ==> before.cache_tokens
                + delta.cache_tokens == after.cache_tokens
            &&& before.cost_usd_micros <= after.cost_usd_micros ==> before.cost_usd_micros
                + delta.cost_usd_micros == after.cost_usd_micros
            &&& before.input_tokens > after.input_tokens ==> delta.input_tokens == 0
            &&& before.output_tokens > after.output_tokens ==> delta.output_tokens == 0
            &&& before.cache_tokens > after.cache_tokens ==> delta.cache_tokens == 0
            &&& before.cost_usd_micros > after.cost_usd_micros ==> delta.cost_usd_micros == 0
        }),
{
}

/// A completed turn has the status of its loop, unless a verifier found against
/// it; and the error and the terminal of its loop in any case.
pub proof fn turns_complete_as_their_loop(turn: PreparedThreadTurn, event: ExecutionEvent)
    requires
        turn.wf(),
        turn.expects(event),
    ensures
        turn.after(event).1 matches ExecutionAction::Return {
            result: Ok(PreparedThreadTurnOutcome::Completed(completion)),
        } ==> {
            let looped = turn.result->0;
            &&& turn.result is Some
            &&& event is Done
            &&& completion.error == looped.error
            &&& completion.terminal == Some(looped.terminal)
            &&& completion.verification == turn.verification
            &&& turn.verification is None ==> completion.status == looped.status
                && completion.end_reason == looped.reason
            &&& turn.verification matches Some(found) ==> (found.success ==> completion.status
                == RunStatus::Success && completion.end_reason == looped.reason) && (
            !found.success ==> completion.status == RunStatus::VerificationFailed
                && completion.end_reason == TurnEndReason::Unclassified)
        },
        event matches ExecutionEvent::Looped { result } ==> turn.after(event).0.result == Some(
            result,
        ) && turn.after(event).1 == (ExecutionAction::FinishLifecycle { status: result.status }),
        event is Suspended <==> (turn.after(event).1 matches ExecutionAction::Return {
            result: Ok(PreparedThreadTurnOutcome::ProviderSuspended),
        }),
{
}

/// A successful loop is verified exactly if there is a verifier, with its command,
/// and nothing else is; workflows are waited for first where that is asked.
pub proof fn successful_loops_are_verified(turn: PreparedThreadTurn)
    requires
        turn.wf(),
    ensures
        turn.phase == ExecutionPhase::EmittingTask ==> turn.after(ExecutionEvent::Done).1
            == ExecutionAction::RunLoop,
        turn.phase == ExecutionPhase::FinishingLifecycle && turn.waits_for_workflows ==> turn.after(
            ExecutionEvent::Done,
        ).1 == ExecutionAction::ObserveWorkflows,
        turn.phase == ExecutionPhase::ObservingWorkflows || (turn.phase
            == ExecutionPhase::FinishingLifecycle && !turn.waits_for_workflows) ==> {
            let (next, action) = turn.after(ExecutionEvent::Done);
            &&& turn.verifier matches Some(command) ==> (turn.result->0.status
                == RunStatus::Success ==> action == (ExecutionAction::EmitVerificationStarted {
                command,
            }) && next.after(ExecutionEvent::Done).1 == (ExecutionAction::RunVerifier { command }))
            &&& turn.verifier is None || turn.result->0.status != RunStatus::Success ==> (
            action matches ExecutionAction::Return {
                result: Ok(PreparedThreadTurnOutcome::Completed(_)),
            })
        },
{
}

/// A turn that fails gives back the error that it failed with. A task that was
/// begun is closed with it first, and shown where it was shown before.
pub proof fn failures_are_handed_back(turn: PreparedThreadTurn, error: TurnError)
    requires
        turn.wf(),
        turn.expects((ExecutionEvent::Failed { error })),
    ensures
        ({
            let (next, action) = turn.after(ExecutionEvent::Failed { error });
            &&& action == (ExecutionAction::Return { result: Err(error) }) || (action == (
            ExecutionAction::FailTask {
                error: error.message,
                emit: turn.phase != ExecutionPhase::EmittingTask,
            }) && next.after(ExecutionEvent::Done).1 == (ExecutionAction::Return {
                result: Err(error),
            }))
            &&& turn.has_task && turn.phase != ExecutionPhase::ClosingTask && turn.phase
                != ExecutionPhase::ClosingUnshownTask ==> action is FailTask
            &&& !turn.has_task ==> action is Return
        }),
{
}

/// A turn has no typed end exactly if it waits for an approval or failed its
/// verification although its operation was not stopped.
pub proof fn untyped_ends_are_unfinished_turns(commit: ThreadTurnCommit)
    ensures
        commit.untyped() <==> {
            &&& commit.completion.status == RunStatus::ApprovalRequired || commit.completion.status
                == RunStatus::VerificationFailed
            &&& commit.completion.terminal matches Some(terminal) && terminal is Completed
        },
        commit.form() == SessionCompletedForm::VerifiedStatus <==> commit.untyped(),
        commit.form() == SessionCompletedForm::Status <==> commit.completion.terminal is None,
{
}

/// The end of a turn is committed in its order: after the transcript the task is
/// closed and all tasks are shown, where there is one; then the session is
/// reported, where that is asked; and last the turn is remembered, if it may be.
/// What fails on the way is handed back, but for the remembering.
pub proof fn ends_are_committed_in_order(commit: ThreadTurnCommit, event: CommitEvent)
    requires
        commit.expects(event),
    ensures
        ({
            let (next, action) = commit.after(event);
            &&& event matches CommitEvent::TranscriptEnded { committed } ==> {
                &&& next.transcript_committed == committed
                &&& commit.has_task <==> action == CommitAction::FinishTask
                &&& !commit.has_task && commit.emits_session_completed ==> action
                    is EmitSessionCompleted
            }
            &&& commit.phase == CommitPhase::ClosingTask && event is Done ==> action
                == CommitAction::EmitAllTasks
            &&& commit.phase == CommitPhase::ListingTasks && event is Done
                && commit.emits_session_completed ==> action == (
            CommitAction::EmitSessionCompleted { form: commit.form() })
            &&& commit.phase == CommitPhase::ReportingSession && event is Done
                && !commit.untyped() ==> action == (CommitAction::CheckMemory {
                transcript_committed: commit.transcript_committed,
            })
            &&& event matches CommitEvent::MemoryChecked { eligible } ==> (eligible <==> action
                == CommitAction::EnqueueMemory) && (!eligible <==> action
                == CommitAction::FinishMemory)
            &&& event matches CommitEvent::Failed { error } ==> (commit.phase
                != CommitPhase::StoringMemory ==> action == (CommitAction::Return {
                result: Err(error),
            }))
            &&& commit.phase == CommitPhase::StoringMemory ==> action == (CommitAction::Return {
                result: Ok(commit.completion.status),
            })
            &&& action is EmitSessionCompleted ==> commit.emits_session_completed
            &&& !(event is TranscriptEnded) ==> next.transcript_committed
                == commit.transcript_committed
        }),
{
}

/// An execution waits for what it asked for last, and for nothing once it has
/// returned. Its setting does not change on the way.
pub proof fn executions_wait_for_what_they_asked(turn: PreparedThreadTurn, event: ExecutionEvent)
    requires
        turn.wf(),
        turn.expects(event),
    ensures
        ({
            let (next, action) = turn.after(event);
            &&& match action {
                ExecutionAction::EmitTask => next.phase == ExecutionPhase::EmittingTask,
                ExecutionAction::FailTask { error, emit } => next.phase == (if emit {
                    ExecutionPhase::ClosingTask
                } else {
                    ExecutionPhase::ClosingUnshownTask
                }) && (next.error matches Some(kept) && kept.message == error),
                ExecutionAction::RunLoop => next.phase == ExecutionPhase::Looping,
                ExecutionAction::FinishLifecycle { .. } => next.phase
                    == ExecutionPhase::FinishingLifecycle,
                ExecutionAction::ObserveWorkflows => next.phase
                    == ExecutionPhase::ObservingWorkflows,
                ExecutionAction::EmitVerificationStarted { command } => next.phase
                    == ExecutionPhase::AnnouncingVerification && next.verifier == Some(command),
                ExecutionAction::RunVerifier { command } => next.phase == ExecutionPhase::Verifying
                    && next.verifier == Some(command),
                ExecutionAction::EmitVerificationCompleted => next.phase
                    == ExecutionPhase::ReportingVerification,
                ExecutionAction::Return { .. } => next.phase == ExecutionPhase::Done,
            }
            &&& next.has_task == turn.has_task
            &&& next.verifier == turn.verifier
            &&& next.waits_for_workflows == turn.waits_for_workflows
            &&& action is ObserveWorkflows ==> turn.waits_for_workflows
            &&& turn.phase == ExecutionPhase::FinishingLifecycle && event is Done
                && turn.waits_for_workflows ==> action is ObserveWorkflows
            &&& turn.phase == ExecutionPhase::EmittingTask && event is Done ==> action is RunLoop
            &&& turn.phase == ExecutionPhase::AnnouncingVerification && event is Done
                ==> action is RunVerifier
            &&& event matches ExecutionEvent::Looped { result } ==> next.result == Some(result)
                && action == (ExecutionAction::FinishLifecycle { status: result.status })
            &&& event matches ExecutionEvent::Verified { result } ==> next.verification == Some(
                result,
            ) && action is EmitVerificationCompleted
        }),
{
}

/// A commit waits for what it asked for last, and for nothing once it has returned.
/// What it commits does not change on the way.
pub proof fn commits_wait_for_what_they_asked(commit: ThreadTurnCommit, event: CommitEvent)
    requires
        commit.expects(event),
    ensures
        ({
            let (next, action) = commit.after(event);
            &&& match action {
                CommitAction::CompleteWithStatus | CommitAction::CompleteWithTerminal => false,
                CommitAction::FinishTask => next.phase == CommitPhase::ClosingTask,
                CommitAction::EmitAllTasks => next.phase == CommitPhase::ListingTasks,
                CommitAction::EmitSessionCompleted { .. } => next.phase
                    == CommitPhase::ReportingSession,
                CommitAction::CheckMemory { .. } => next.phase == CommitPhase::CheckingMemory,
                CommitAction::EnqueueMemory | CommitAction::FinishMemory => next.phase
                    == CommitPhase::StoringMemory,
                CommitAction::Return { .. } => next.phase == CommitPhase::Done,
            }
            &&& next.completion == commit.completion
            &&& next.has_task == commit.has_task
            &&& next.emits_session_completed == commit.emits_session_completed
        }),
{
}

} // verus!
