//! Compacting a conversation: when it happens, what it reports, and in which
//! order its steps run.

use vstd::prelude::*;
use vstd::string::*;
use crate::provider_types::{first_error, provider_error, ProviderResponse};
use crate::text::plus3;

verus! {

/// What sets a compaction off.
#[derive(Clone, Copy, Debug, PartialEq, Eq, Structural)]
pub enum RuntimeCompactionTrigger {
    SoftLimit,
    HardLimit,
    PromptTooLong,
}

/// How a conversation was made shorter.
#[derive(Clone, Copy, Debug, PartialEq, Eq, Structural)]
pub enum RuntimeCompactionStrategy {
    LocalTruncation,
    RemoteSummary,
}

#[derive(Clone, Copy, Debug, PartialEq, Eq, Structural)]
pub enum RuntimeCompactionReason {
    ApproachingContextLimit,
    ExceededContextLimit,
    PromptTooLongRecovery,
}

impl RuntimeCompactionTrigger {
    pub open spec fn why(self) -> RuntimeCompactionReason {
        match self {
            RuntimeCompactionTrigger::SoftLimit => RuntimeCompactionReason::ApproachingContextLimit,
            RuntimeCompactionTrigger::HardLimit => RuntimeCompactionReason::ExceededContextLimit,
            RuntimeCompactionTrigger::PromptTooLong => RuntimeCompactionReason::PromptTooLongRecovery,
        }
    }

    pub fn reason(self) -> (r: RuntimeCompactionReason)
        ensures
            r == self.why(),
    {
        match self {
            RuntimeCompactionTrigger::SoftLimit => RuntimeCompactionReason::ApproachingContextLimit,
            RuntimeCompactionTrigger::HardLimit => RuntimeCompactionReason::ExceededContextLimit,
            RuntimeCompactionTrigger::PromptTooLong => RuntimeCompactionReason::PromptTooLongRecovery,
        }
    }
}

impl RuntimeCompactionReason {
    pub open spec fn status(self) -> Seq<char> {
        match self {
            RuntimeCompactionReason::ApproachingContextLimit => "compacted context near token limit"@,
            RuntimeCompactionReason::ExceededContextLimit => "compacted context at token limit"@,
            RuntimeCompactionReason::PromptTooLongRecovery => "compacted context after prompt-too-long"@,
        }
    }

    pub fn status_text(&self) -> (r: &'static str)
        ensures
            r@ == self.status(),
    {
        match self {
            RuntimeCompactionReason::ApproachingContextLimit => "compacted context near token limit",
            RuntimeCompactionReason::ExceededContextLimit => "compacted context at token limit",
            RuntimeCompactionReason::PromptTooLongRecovery => "compacted context after prompt-too-long",
        }
    }

    pub open spec fn text(self) -> Seq<char> {
        match self {
            RuntimeCompactionReason::ApproachingContextLimit => "approaching_context_limit"@,
            RuntimeCompactionReason::ExceededContextLimit => "exceeded_context_limit"@,
            RuntimeCompactionReason::PromptTooLongRecovery => "prompt_too_long_recovery"@,
        }
    }

    pub fn as_str(&self) -> (r: &'static str)
        ensures
            r@ == self.text(),
    {
        match self {
            RuntimeCompactionReason::ApproachingContextLimit => "approaching_context_limit",
            RuntimeCompactionReason::ExceededContextLimit => "exceeded_context_limit",
            RuntimeCompactionReason::PromptTooLongRecovery => "prompt_too_long_recovery",
        }
    }
}

/// What a compaction did, with the summary that it made where it made one.
#[derive(Debug)]
pub enum CompactionKind {
    LocalTruncation,
    RemoteSummary(String),
}

impl RuntimeCompactionStrategy {
    pub open spec fn of_kind(kind: CompactionKind) -> Self {
        match kind {
            CompactionKind::LocalTruncation => RuntimeCompactionStrategy::LocalTruncation,
            CompactionKind::RemoteSummary(_) => RuntimeCompactionStrategy::RemoteSummary,
        }
    }

    pub fn from_compaction_kind(kind: &CompactionKind) -> (r: Self)
        ensures
            r == Self::of_kind(*kind),
    {
        match kind {
            CompactionKind::LocalTruncation => RuntimeCompactionStrategy::LocalTruncation,
            CompactionKind::RemoteSummary(_) => RuntimeCompactionStrategy::RemoteSummary,
        }
    }

    pub open spec fn text(self) -> Seq<char> {
        match self {
            RuntimeCompactionStrategy::LocalTruncation => "local_truncation"@,
            RuntimeCompactionStrategy::RemoteSummary => "remote_summary"@,
        }
    }

    pub fn as_str(&self) -> (r: &'static str)
        ensures
            r@ == self.text(),
    {
        match self {
            RuntimeCompactionStrategy::LocalTruncation => "local_truncation",
            RuntimeCompactionStrategy::RemoteSummary => "remote_summary",
        }
    }
}

#[derive(Clone, Copy, Debug)]
pub struct RuntimeCompactionDetails {
    pub trigger: RuntimeCompactionTrigger,
    pub reason: RuntimeCompactionReason,
    pub strategy: RuntimeCompactionStrategy,
    pub before_messages: usize,
    pub after_messages: usize,
    pub collapsed_messages: usize,
    pub status_text: &'static str,
}

/// Whether a prompt that was too long has been retried already.
#[derive(Clone, Copy, Debug, PartialEq, Eq, Structural)]
pub struct RuntimeCompactionRetryState {
    pub prompt_too_long_retried: bool,
}

impl RuntimeCompactionRetryState {
    pub fn new() -> (r: Self)
        ensures
            !r.prompt_too_long_retried,
    {
        RuntimeCompactionRetryState { prompt_too_long_retried: false }
    }

    pub fn record_prompt_too_long_retry(&mut self)
        ensures
            final(self).prompt_too_long_retried,
    {
        self.prompt_too_long_retried = true;
    }

    pub fn has_prompt_too_long_retry(&self) -> (r: bool)
        ensures
            r == self.prompt_too_long_retried,
    {
        self.prompt_too_long_retried
    }

    pub fn reset(&mut self)
        ensures
            !final(self).prompt_too_long_retried,
    {
        self.prompt_too_long_retried = false;
    }
}

/// The compaction state of one interactive turn.
#[derive(Clone, Copy, Debug, PartialEq, Eq, Structural)]
pub struct TuiAgentTurnCompactionState {
    pub retry: RuntimeCompactionRetryState,
}

impl TuiAgentTurnCompactionState {
    /// The state of a turn in which nothing was retried yet.
    pub open spec fn fresh() -> Self {
        TuiAgentTurnCompactionState {
            retry: RuntimeCompactionRetryState { prompt_too_long_retried: false },
        }
    }

    pub fn new() -> (r: Self)
        ensures
            r == Self::fresh(),
    {
        TuiAgentTurnCompactionState { retry: RuntimeCompactionRetryState::new() }
    }
}

impl Default for TuiAgentTurnCompactionState {
    fn default() -> (r: Self)
        ensures
            r == TuiAgentTurnCompactionState::fresh(),
    {
        TuiAgentTurnCompactionState::new()
    }
}

/// How full the context is.
#[derive(Clone, Copy, Debug, PartialEq, Eq, Structural)]
pub struct ContextPressure {
    pub wire_tokens: usize,
    pub effective_limit: usize,
    pub soft_limit: usize,
    pub should_soft_compact: bool,
    pub should_hard_compact: bool,
}

#[derive(Clone, Copy, Debug, PartialEq, Eq, Structural)]
pub struct TuiAgentTurnCompactionOutcome {
    pub used_tokens: usize,
    pub limit_tokens: usize,
    pub compacted: bool,
}

impl TuiAgentTurnCompactionOutcome {
    /// What a turn reports, given the pressure after it was compacted or left
    /// alone.
    pub fn from_pressure(pressure: ContextPressure, compacted: bool) -> (r: Self)
        ensures
            r.used_tokens == pressure.wire_tokens,
            r.limit_tokens == pressure.soft_limit,
            r.compacted == compacted,
    {
        TuiAgentTurnCompactionOutcome {
            used_tokens: pressure.wire_tokens,
            limit_tokens: pressure.soft_limit,
            compacted,
        }
    }
}

/// What an interactive turn does about a provider's response.
#[derive(Debug)]
pub enum TuiAgentProviderErrorAction {
    NoError,
    RetryAfterCompaction,
    SurfaceError(String),
}

#[derive(Clone, Copy, Debug, PartialEq, Eq, Structural)]
pub enum RuntimeCompactionRetryDecision {
    CompactAndRetry { trigger: RuntimeCompactionTrigger, reason: RuntimeCompactionReason },
    SurfaceError,
}

#[derive(Clone, Copy, Debug, PartialEq, Eq, Structural)]
pub struct RuntimeCompactionOutcome {
    pub trigger: RuntimeCompactionTrigger,
    pub before_messages: usize,
    pub after_messages: usize,
    pub strategy: RuntimeCompactionStrategy,
}

/// What the details of an outcome are.
pub open spec fn details_of(d: RuntimeCompactionDetails, outcome: RuntimeCompactionOutcome) -> bool {
    &&& d.trigger == outcome.trigger
    &&& d.reason == outcome.trigger.why()
    &&& d.strategy == outcome.strategy
    &&& d.before_messages == outcome.before_messages
    &&& d.after_messages == outcome.after_messages
    &&& d.collapsed_messages == (if outcome.before_messages > outcome.after_messages {
        outcome.before_messages - outcome.after_messages
    } else {
        0
    })
    &&& d.status_text@ == outcome.trigger.why().status()
}

impl RuntimeCompactionOutcome {
    pub fn trigger(&self) -> (r: RuntimeCompactionTrigger)
        ensures
            r == self.trigger,
    {
        self.trigger
    }

    pub fn before_messages(&self) -> (r: usize)
        ensures
            r == self.before_messages,
    {
        self.before_messages
    }

    pub fn after_messages(&self) -> (r: usize)
        ensures
            r == self.after_messages,
    {
        self.after_messages
    }

    pub fn strategy(&self) -> (r: RuntimeCompactionStrategy)
        ensures
            r == self.strategy,
    {
        self.strategy
    }

    pub fn reason(&self) -> (r: RuntimeCompactionReason)
        ensures
            r == self.trigger.why(),
    {
        self.trigger.reason()
    }

    pub fn details(&self) -> (r: RuntimeCompactionDetails)
        ensures
            details_of(r, *self),
    {
        let reason = self.reason();
        RuntimeCompactionDetails {
            trigger: self.trigger,
            reason,
            strategy: self.strategy,
            before_messages: self.before_messages,
            after_messages: self.after_messages,
            collapsed_messages: if self.before_messages > self.after_messages {
                self.before_messages - self.after_messages
            } else {
                0
            },
            status_text: reason.status_text(),
        }
    }

    /// Every compaction of a visible run is persisted.
    pub fn should_persist_summary_state(&self, emit_deltas: bool) -> (r: bool)
        ensures
            r == emit_deltas,
    {
        emit_deltas
    }
}

pub struct RuntimeCompactionPolicy;

impl RuntimeCompactionPolicy {
    pub open spec fn pressure_trigger(pressure: ContextPressure) -> Option<
        RuntimeCompactionTrigger,
    > {
        if !pressure.should_soft_compact {
            None
        } else if pressure.should_hard_compact {
            Some(RuntimeCompactionTrigger::HardLimit)
        } else {
            Some(RuntimeCompactionTrigger::SoftLimit)
        }
    }

    /// The soft line sets compaction off. The hard ceiling, which is never below
    /// it, only refines the label.
    pub fn decide_for_pressure(pressure: ContextPressure) -> (r: Option<RuntimeCompactionTrigger>)
        ensures
            r == Self::pressure_trigger(pressure),
    {
        if !pressure.should_soft_compact {
            return None;
        }
        if pressure.should_hard_compact {
            Some(RuntimeCompactionTrigger::HardLimit)
        } else {
            Some(RuntimeCompactionTrigger::SoftLimit)
        }
    }

    pub open spec fn retry_decision(
        prompt_too_long: bool,
        retry_state: RuntimeCompactionRetryState,
    ) -> RuntimeCompactionRetryDecision {
        if prompt_too_long && !retry_state.prompt_too_long_retried {
            RuntimeCompactionRetryDecision::CompactAndRetry {
                trigger: RuntimeCompactionTrigger::PromptTooLong,
                reason: RuntimeCompactionReason::PromptTooLongRecovery,
            }
        } else {
            RuntimeCompactionRetryDecision::SurfaceError
        }
    }

    /// A prompt that was too long is compacted and retried once. Whether the
    /// error says so is decided by the provider that raised it.
    pub fn decide_for_provider_error(
        prompt_too_long: bool,
        retry_state: &RuntimeCompactionRetryState,
    ) -> (r: RuntimeCompactionRetryDecision)
        ensures
            r == Self::retry_decision(prompt_too_long, *retry_state),
    {
        if prompt_too_long && !retry_state.prompt_too_long_retried {
            RuntimeCompactionRetryDecision::CompactAndRetry {
                trigger: RuntimeCompactionTrigger::PromptTooLong,
                reason: RuntimeCompactionReason::PromptTooLongRecovery,
            }
        } else {
            RuntimeCompactionRetryDecision::SurfaceError
        }
    }
}

/// A compaction under way.
#[derive(Clone, Copy, Debug, PartialEq, Eq, Structural)]
pub struct RuntimeCompactionTask {
    pub trigger: RuntimeCompactionTrigger,
    pub before_messages: usize,
}

impl RuntimeCompactionTask {
    pub fn start(trigger: RuntimeCompactionTrigger, before_messages: usize) -> (r: Self)
        ensures
            r.trigger == trigger,
            r.before_messages == before_messages,
    {
        RuntimeCompactionTask { trigger, before_messages }
    }

    pub open spec fn outcome(
        self,
        after_messages: usize,
        kind: CompactionKind,
    ) -> RuntimeCompactionOutcome {
        RuntimeCompactionOutcome {
            trigger: self.trigger,
            before_messages: self.before_messages,
            after_messages,
            strategy: RuntimeCompactionStrategy::of_kind(kind),
        }
    }

    pub fn finish(&self, after_messages: usize, kind: &CompactionKind) -> (r:
        RuntimeCompactionOutcome)
        ensures
            r == self.outcome(after_messages, *kind),
    {
        RuntimeCompactionOutcome {
            trigger: self.trigger,
            before_messages: self.before_messages,
            after_messages,
            strategy: RuntimeCompactionStrategy::from_compaction_kind(kind),
        }
    }

    pub fn trigger(&self) -> (r: RuntimeCompactionTrigger)
        ensures
            r == self.trigger,
    {
        self.trigger
    }

    pub fn before_messages(&self) -> (r: usize)
        ensures
            r == self.before_messages,
    {
        self.before_messages
    }
}

/// What an interactive turn is to do next about a provider's response.
#[derive(Debug)]
pub enum TuiProviderErrorStep {
    /// Nothing more: this is the action.
    Act(TuiAgentProviderErrorAction),
    /// Compact first, then confirm the retry.
    Compact { trigger: RuntimeCompactionTrigger },
}

/// Reads the first error of a response and decides about it. The retry counts
/// as taken only once the compaction succeeded.
pub fn handle_tui_agent_provider_error(
    state: &mut TuiAgentTurnCompactionState,
    response: &ProviderResponse,
    prompt_too_long: bool,
) -> (r: TuiProviderErrorStep)
    ensures
        match first_error(response.steps@) {
            None => r == TuiProviderErrorStep::Act(TuiAgentProviderErrorAction::NoError) && !final(state).retry.prompt_too_long_retried,
            Some(error) => match RuntimeCompactionPolicy::retry_decision(
                prompt_too_long,
                old(state).retry,
            ) {
                RuntimeCompactionRetryDecision::CompactAndRetry { trigger, .. } => r == (
                TuiProviderErrorStep::Compact { trigger }) && *final(state) == *old(state),
                RuntimeCompactionRetryDecision::SurfaceError => r == TuiProviderErrorStep::Act(
                    TuiAgentProviderErrorAction::SurfaceError(error),
                ) && !final(state).retry.prompt_too_long_retried,
            },
        },
{
    let error = match provider_error(response) {
        Some(error) => error,
        None => {
            state.retry.reset();
            return TuiProviderErrorStep::Act(TuiAgentProviderErrorAction::NoError);
        },
    };
    match RuntimeCompactionPolicy::decide_for_provider_error(prompt_too_long, &state.retry) {
        RuntimeCompactionRetryDecision::CompactAndRetry { trigger, .. } => {
            TuiProviderErrorStep::Compact { trigger }
        },
        RuntimeCompactionRetryDecision::SurfaceError => {
            state.retry.reset();
            TuiProviderErrorStep::Act(TuiAgentProviderErrorAction::SurfaceError(error))
        },
    }
}

/// Takes the retry after the compaction, or passes its failure on.
pub fn confirm_tui_retry<E>(
    state: &mut TuiAgentTurnCompactionState,
    compacted: Result<(), E>,
) -> (r: Result<TuiAgentProviderErrorAction, E>)
    ensures
        match compacted {
            Ok(_) => r == Ok::<_, E>(TuiAgentProviderErrorAction::RetryAfterCompaction) && final(state).retry.prompt_too_long_retried,
            Err(e) => r == Err::<TuiAgentProviderErrorAction, E>(e) && *final(state) == *old(state),
        },
{
    match compacted {
        Ok(_) => {
            state.retry.record_prompt_too_long_retry();
            Ok(TuiAgentProviderErrorAction::RetryAfterCompaction)
        },
        Err(e) => Err(e),
    }
}

/// A prompt that is too long a second time in a row is not retried again.
pub proof fn retries_once(prompt_too_long: bool, state: RuntimeCompactionRetryState)
    requires
        state.prompt_too_long_retried,
    ensures
        RuntimeCompactionPolicy::retry_decision(prompt_too_long, state)
            == RuntimeCompactionRetryDecision::SurfaceError,
{
}

/// No compaction happens below the soft line, and one always does above it.
pub proof fn the_soft_line_decides(pressure: ContextPressure)
    ensures
        RuntimeCompactionPolicy::pressure_trigger(pressure) is Some
            <==> pressure.should_soft_compact,
{
}

/// The hooks that run around a compaction.
#[derive(Clone, Copy, Debug, PartialEq, Eq, Structural)]
pub enum CompactionHook {
    OnBudgetWarning,
    PreCompact,
    PostCompact,
}

impl CompactionHook {
    pub open spec fn text(self) -> Seq<char> {
        match self {
            CompactionHook::OnBudgetWarning => "on_budget_warning"@,
            CompactionHook::PreCompact => "pre_compact"@,
            CompactionHook::PostCompact => "post_compact"@,
        }
    }

    pub fn as_str(self) -> (r: &'static str)
        ensures
            r@ == self.text(),
    {
        match self {
            CompactionHook::OnBudgetWarning => "on_budget_warning",
            CompactionHook::PreCompact => "pre_compact",
            CompactionHook::PostCompact => "post_compact",
        }
    }
}

/// How far a compaction has come: what was last asked for.
#[derive(Clone, Copy, Debug, PartialEq, Eq, Structural)]
pub enum CompactionPhase {
    Started,
    BudgetHook,
    HookContext,
    BudgetHookError,
    PreHook,
    PreHookError,
    Compacting,
    Recording,
    Summarizing,
    PostHook,
    PostHookError,
    Completed,
    Finished,
    Failed,
}

/// A compaction and its surroundings.
#[derive(Clone, Copy, Debug, PartialEq, Eq, Structural)]
pub struct RuntimeCompactionStep {
    /// Hooks run around an automatic compaction, not around a retry.
    pub with_hooks: bool,
    /// A hidden run emits no events, runs no compaction hooks and persists
    /// nothing.
    pub emit_deltas: bool,
    pub has_history: bool,
    /// The messages that the hooks are told of.
    pub hook_messages: usize,
    pub task: RuntimeCompactionTask,
    pub outcome: Option<RuntimeCompactionOutcome>,
    pub phase: CompactionPhase,
}

/// What a compaction asks for next.
#[derive(Debug)]
#[allow(inconsistent_fields)]
pub enum CompactionAction {
    EmitStarted { reason: RuntimeCompactionReason, before_messages: usize },
    RunHook { hook: CompactionHook, before_messages: usize, after_messages: Option<usize> },
    /// Put what the hook injected into the conversation.
    InjectHookContext,
    EmitError { message: String },
    Compact,
    AppendCompaction { before_messages: usize, after_messages: usize },
    /// Store the summary that the compaction made.
    AppendSummary { before_messages: usize, after_messages: usize },
    EmitCompacted { details: RuntimeCompactionDetails },
    Finish,
    Fail { error: String },
}

/// What came of the last request.
#[derive(Debug)]
pub enum CompactionEvent {
    Done,
    /// A hook ran, and says whether it injected anything.
    HookRan { injected: bool },
    HookFailed { error: String },
    /// The hook's context is in the conversation, which now has so many
    /// messages.
    Injected { messages: usize },
    Compacted { after_messages: usize, kind: CompactionKind },
    /// Output or persistence failed.
    Failed { error: String },
}

/// An action without the texts that belong to it.
#[allow(inconsistent_fields)]
pub ghost enum CompactionActionView {
    EmitStarted { reason: RuntimeCompactionReason, before_messages: usize },
    RunHook { hook: CompactionHook, before_messages: usize, after_messages: Option<usize> },
    InjectHookContext,
    EmitError { message: Seq<char> },
    Compact,
    AppendCompaction { before_messages: usize, after_messages: usize },
    AppendSummary { before_messages: usize, after_messages: usize },
    EmitCompacted { outcome: RuntimeCompactionOutcome },
    Finish,
    Fail { error: Seq<char> },
}

/// An action is the one that is described.
pub open spec fn is_action(action: CompactionAction, view: CompactionActionView) -> bool {
    match view {
        CompactionActionView::EmitStarted { reason, before_messages } => action == (
        CompactionAction::EmitStarted { reason, before_messages }),
        CompactionActionView::RunHook { hook, before_messages, after_messages } => action == (
        CompactionAction::RunHook { hook, before_messages, after_messages }),
        CompactionActionView::InjectHookContext => action == CompactionAction::InjectHookContext,
        CompactionActionView::EmitError { message } => action matches CompactionAction::EmitError {
            message: m,
        } && m@ == message,
        CompactionActionView::Compact => action == CompactionAction::Compact,
        CompactionActionView::AppendCompaction { before_messages, after_messages } => action == (
        CompactionAction::AppendCompaction { before_messages, after_messages }),
        CompactionActionView::AppendSummary { before_messages, after_messages } => action == (
        CompactionAction::AppendSummary { before_messages, after_messages }),
        CompactionActionView::EmitCompacted {
            outcome,
        } => action matches CompactionAction::EmitCompacted { details } && details_of(
            details,
            outcome,
        ),
        CompactionActionView::Finish => action == CompactionAction::Finish,
        CompactionActionView::Fail { error } => action matches CompactionAction::Fail { error: e }
            && e@ == error,
    }
}

impl RuntimeCompactionStep {
    pub open spec fn at(self, phase: CompactionPhase) -> Self {
        RuntimeCompactionStep { phase, ..self }
    }

    pub open spec fn finished(self) -> (Self, CompactionActionView) {
        (self.at(CompactionPhase::Finished), CompactionActionView::Finish)
    }

    /// The last event, where events are emitted.
    pub open spec fn completed(self) -> (Self, CompactionActionView) {
        if self.emit_deltas && self.outcome is Some {
            (
                self.at(CompactionPhase::Completed),
                CompactionActionView::EmitCompacted { outcome: self.outcome->0 },
            )
        } else {
            self.finished()
        }
    }

    /// What follows once the result is persisted.
    pub open spec fn persisted(self) -> (Self, CompactionActionView) {
        if self.with_hooks && self.emit_deltas && self.outcome is Some {
            (
                self.at(CompactionPhase::PostHook),
                CompactionActionView::RunHook {
                    hook: CompactionHook::PostCompact,
                    before_messages: self.hook_messages,
                    after_messages: Some(self.outcome->0.after_messages),
                },
            )
        } else {
            self.completed()
        }
    }

    /// What follows a compaction.
    pub open spec fn compacted(self, after_messages: usize, kind: CompactionKind) -> (
        Self,
        CompactionActionView,
    ) {
        let outcome = self.task.outcome(after_messages, kind);
        let step = RuntimeCompactionStep { outcome: Some(outcome), ..self };
        if self.emit_deltas && self.has_history {
            (
                step.at(CompactionPhase::Recording),
                CompactionActionView::AppendCompaction {
                    before_messages: outcome.before_messages,
                    after_messages: outcome.after_messages,
                },
            )
        } else {
            step.persisted()
        }
    }

    /// What follows once the compaction is on record: a summary is stored too.
    pub open spec fn recorded(self) -> (Self, CompactionActionView) {
        match self.outcome {
            Some(outcome) => if outcome.strategy == RuntimeCompactionStrategy::RemoteSummary {
                (
                    self.at(CompactionPhase::Summarizing),
                    CompactionActionView::AppendSummary {
                        before_messages: outcome.before_messages,
                        after_messages: outcome.after_messages,
                    },
                )
            } else {
                self.persisted()
            },
            None => self.persisted(),
        }
    }

    pub open spec fn compact(self) -> (Self, CompactionActionView) {
        (self.at(CompactionPhase::Compacting), CompactionActionView::Compact)
    }

    /// What follows the budget hook.
    pub open spec fn warned(self) -> (Self, CompactionActionView) {
        if self.emit_deltas {
            (
                self.at(CompactionPhase::PreHook),
                CompactionActionView::RunHook {
                    hook: CompactionHook::PreCompact,
                    before_messages: self.hook_messages,
                    after_messages: None,
                },
            )
        } else {
            self.compact()
        }
    }

    /// What follows once the start is announced.
    pub open spec fn announced(self) -> (Self, CompactionActionView) {
        if self.with_hooks {
            (
                self.at(CompactionPhase::BudgetHook),
                CompactionActionView::RunHook {
                    hook: CompactionHook::OnBudgetWarning,
                    before_messages: self.hook_messages,
                    after_messages: None,
                },
            )
        } else {
            self.compact()
        }
    }

    pub open spec fn hook_error(self, phase: CompactionPhase, hook: CompactionHook, error: Seq<char>) -> (
        Self,
        CompactionActionView,
    ) {
        (
            self.at(phase),
            CompactionActionView::EmitError {
                message: hook.text() + " hook failed: "@ + error,
            },
        )
    }

    pub open spec fn failed(self, error: Seq<char>) -> (Self, CompactionActionView) {
        (self.at(CompactionPhase::Failed), CompactionActionView::Fail { error })
    }

    /// An event is an answer to what was last asked for.
    pub open spec fn expects(self, event: CompactionEvent) -> bool {
        match event {
            CompactionEvent::Done => self.phase == CompactionPhase::Started || self.phase
                == CompactionPhase::BudgetHookError || self.phase == CompactionPhase::PreHookError
                || self.phase == CompactionPhase::Recording || self.phase
                == CompactionPhase::Summarizing || self.phase == CompactionPhase::PostHookError
                || self.phase == CompactionPhase::Completed,
            CompactionEvent::HookRan { .. } => self.phase == CompactionPhase::BudgetHook
                || self.phase == CompactionPhase::PreHook || self.phase
                == CompactionPhase::PostHook,
            CompactionEvent::HookFailed { .. } => self.phase == CompactionPhase::BudgetHook
                || self.phase == CompactionPhase::PreHook || self.phase
                == CompactionPhase::PostHook,
            CompactionEvent::Injected { .. } => self.phase == CompactionPhase::HookContext,
            CompactionEvent::Compacted { .. } => self.phase == CompactionPhase::Compacting,
            CompactionEvent::Failed { .. } => self.phase != CompactionPhase::Finished && self.phase
                != CompactionPhase::Failed,
        }
    }

    /// What follows an event.
    pub open spec fn after(self, event: CompactionEvent) -> (Self, CompactionActionView) {
        match event {
            CompactionEvent::Failed { error } => self.failed(error@),
            CompactionEvent::Injected { messages } => RuntimeCompactionStep {
                task: RuntimeCompactionTask { before_messages: messages, ..self.task },
                ..self
            }.warned(),
            CompactionEvent::Compacted { after_messages, kind } => self.compacted(
                after_messages,
                kind,
            ),
            CompactionEvent::HookRan { injected } => match self.phase {
                CompactionPhase::BudgetHook => if injected {
                    (self.at(CompactionPhase::HookContext), CompactionActionView::InjectHookContext)
                } else {
                    self.warned()
                },
                CompactionPhase::PreHook => self.compact(),
                _ => self.completed(),
            },
            CompactionEvent::HookFailed { error } => match self.phase {
                CompactionPhase::BudgetHook => if self.emit_deltas {
                    self.hook_error(
                        CompactionPhase::BudgetHookError,
                        CompactionHook::OnBudgetWarning,
                        error@,
                    )
                } else {
                    self.warned()
                },
                CompactionPhase::PreHook => self.hook_error(
                    CompactionPhase::PreHookError,
                    CompactionHook::PreCompact,
                    error@,
                ),
                _ => self.hook_error(
                    CompactionPhase::PostHookError,
                    CompactionHook::PostCompact,
                    error@,
                ),
            },
            CompactionEvent::Done => match self.phase {
                CompactionPhase::Started => self.announced(),
                CompactionPhase::BudgetHookError => self.warned(),
                CompactionPhase::PreHookError => self.compact(),
                CompactionPhase::Recording => self.recorded(),
                CompactionPhase::Summarizing => self.persisted(),
                CompactionPhase::PostHookError => self.completed(),
                _ => self.finished(),
            },
        }
    }

    /// A compaction that has not begun.
    pub open spec fn initial(
        trigger: RuntimeCompactionTrigger,
        with_hooks: bool,
        emit_deltas: bool,
        has_history: bool,
        messages: usize,
    ) -> Self {
        RuntimeCompactionStep {
            with_hooks,
            emit_deltas,
            has_history,
            hook_messages: messages,
            task: RuntimeCompactionTask { trigger, before_messages: messages },
            outcome: None,
            phase: CompactionPhase::Started,
        }
    }

    /// How a compaction begins.
    pub open spec fn opening(self) -> (Self, CompactionActionView) {
        if self.emit_deltas {
            (
                self,
                CompactionActionView::EmitStarted {
                    reason: self.task.trigger.why(),
                    before_messages: self.task.before_messages,
                },
            )
        } else {
            self.announced()
        }
    }

    /// Begins a compaction that pressure or a provider's error asked for.
    pub fn start(
        trigger: RuntimeCompactionTrigger,
        with_hooks: bool,
        emit_deltas: bool,
        has_history: bool,
        messages: usize,
    ) -> (r: (Self, CompactionAction))
        ensures
            ({
                let (step, view) = Self::initial(
                    trigger,
                    with_hooks,
                    emit_deltas,
                    has_history,
                    messages,
                ).opening();
                r.0 == step && is_action(r.1, view)
            }),
    {
        let step = RuntimeCompactionStep {
            with_hooks,
            emit_deltas,
            has_history,
            hook_messages: messages,
            task: RuntimeCompactionTask::start(trigger, messages),
            outcome: None,
            phase: CompactionPhase::Started,
        };
        if emit_deltas {
            return (
                step,
                CompactionAction::EmitStarted {
                    reason: trigger.reason(),
                    before_messages: messages,
                },
            );
        }
        step.after_announcement()
    }

    fn after_announcement(self) -> (r: (Self, CompactionAction))
        ensures
            r.0 == self.announced().0,
            is_action(r.1, self.announced().1),
    {
        if self.with_hooks {
            (
                RuntimeCompactionStep { phase: CompactionPhase::BudgetHook, ..self },
                CompactionAction::RunHook {
                    hook: CompactionHook::OnBudgetWarning,
                    before_messages: self.hook_messages,
                    after_messages: None,
                },
            )
        } else {
            (
                RuntimeCompactionStep { phase: CompactionPhase::Compacting, ..self },
                CompactionAction::Compact,
            )
        }
    }

    fn after_warning(self) -> (r: (Self, CompactionAction))
        ensures
            r.0 == self.warned().0,
            is_action(r.1, self.warned().1),
    {
        if self.emit_deltas {
            (
                RuntimeCompactionStep { phase: CompactionPhase::PreHook, ..self },
                CompactionAction::RunHook {
                    hook: CompactionHook::PreCompact,
                    before_messages: self.hook_messages,
                    after_messages: None,
                },
            )
        } else {
            (
                RuntimeCompactionStep { phase: CompactionPhase::Compacting, ..self },
                CompactionAction::Compact,
            )
        }
    }

    fn after_compaction(self, after_messages: usize, kind: &CompactionKind) -> (r: (
        Self,
        CompactionAction,
    ))
        ensures
            r.0 == self.compacted(after_messages, *kind).0,
            is_action(r.1, self.compacted(after_messages, *kind).1),
    {
        let outcome = self.task.finish(after_messages, kind);
        let step = RuntimeCompactionStep { outcome: Some(outcome), ..self };
        if outcome.should_persist_summary_state(self.emit_deltas) && self.has_history {
            (
                RuntimeCompactionStep { phase: CompactionPhase::Recording, ..step },
                CompactionAction::AppendCompaction {
                    before_messages: outcome.before_messages,
                    after_messages: outcome.after_messages,
                },
            )
        } else {
            step.after_persistence()
        }
    }

    fn after_recording(self) -> (r: (Self, CompactionAction))
        ensures
            r.0 == self.recorded().0,
            is_action(r.1, self.recorded().1),
    {
        if let Some(outcome) = self.outcome {
            if outcome.strategy == RuntimeCompactionStrategy::RemoteSummary {
                return (
                    RuntimeCompactionStep { phase: CompactionPhase::Summarizing, ..self },
                    CompactionAction::AppendSummary {
                        before_messages: outcome.before_messages,
                        after_messages: outcome.after_messages,
                    },
                );
            }
        }
        self.after_persistence()
    }

    fn after_persistence(self) -> (r: (Self, CompactionAction))
        ensures
            r.0 == self.persisted().0,
            is_action(r.1, self.persisted().1),
    {
        if self.with_hooks && self.emit_deltas {
            if let Some(outcome) = self.outcome {
                return (
                    RuntimeCompactionStep { phase: CompactionPhase::PostHook, ..self },
                    CompactionAction::RunHook {
                        hook: CompactionHook::PostCompact,
                        before_messages: self.hook_messages,
                        after_messages: Some(outcome.after_messages),
                    },
                );
            }
        }
        self.after_post_hook()
    }

    fn after_post_hook(self) -> (r: (Self, CompactionAction))
        ensures
            r.0 == self.completed().0,
            is_action(r.1, self.completed().1),
    {
        if self.emit_deltas {
            if let Some(outcome) = self.outcome {
                return (
                    RuntimeCompactionStep { phase: CompactionPhase::Completed, ..self },
                    CompactionAction::EmitCompacted { details: outcome.details() },
                );
            }
        }
        (
            RuntimeCompactionStep { phase: CompactionPhase::Finished, ..self },
            CompactionAction::Finish,
        )
    }

    /// Moves on after an event.
    pub fn next(self, event: CompactionEvent) -> (r: (Self, CompactionAction))
        requires
            self.expects(event),
        ensures
            r.0 == self.after(event).0,
            is_action(r.1, self.after(event).1),
    {
        match event {
            CompactionEvent::Failed { error } => (
                RuntimeCompactionStep { phase: CompactionPhase::Failed, ..self },
                CompactionAction::Fail { error },
            ),
            CompactionEvent::Injected { messages } => {
                let step = RuntimeCompactionStep {
                    task: RuntimeCompactionTask { before_messages: messages, ..self.task },
                    ..self
                };
                step.after_warning()
            },
            CompactionEvent::Compacted { after_messages, kind } => self.after_compaction(
                after_messages,
                &kind,
            ),
            CompactionEvent::HookRan { injected } => match self.phase {
                CompactionPhase::BudgetHook => if injected {
                    (
                        RuntimeCompactionStep { phase: CompactionPhase::HookContext, ..self },
                        CompactionAction::InjectHookContext,
                    )
                } else {
                    self.after_warning()
                },
                CompactionPhase::PreHook => (
                    RuntimeCompactionStep { phase: CompactionPhase::Compacting, ..self },
                    CompactionAction::Compact,
                ),
                _ => self.after_post_hook(),
            },
            CompactionEvent::HookFailed { error } => match self.phase {
                CompactionPhase::BudgetHook => if self.emit_deltas {
                    self.report_hook(
                        CompactionPhase::BudgetHookError,
                        CompactionHook::OnBudgetWarning,
                        &error,
                    )
                } else {
                    self.after_warning()
                },
                CompactionPhase::PreHook => self.report_hook(
                    CompactionPhase::PreHookError,
                    CompactionHook::PreCompact,
                    &error,
                ),
                _ => self.report_hook(
                    CompactionPhase::PostHookError,
                    CompactionHook::PostCompact,
                    &error,
                ),
            },
            CompactionEvent::Done => match self.phase {
                CompactionPhase::Started => self.after_announcement(),
                CompactionPhase::BudgetHookError => self.after_warning(),
                CompactionPhase::PreHookError => (
                    RuntimeCompactionStep { phase: CompactionPhase::Compacting, ..self },
                    CompactionAction::Compact,
                ),
                CompactionPhase::Recording => self.after_recording(),
                CompactionPhase::Summarizing => self.after_persistence(),
                CompactionPhase::PostHookError => self.after_post_hook(),
                _ => (
                    RuntimeCompactionStep { phase: CompactionPhase::Finished, ..self },
                    CompactionAction::Finish,
                ),
            },
        }
    }

    fn report_hook(self, phase: CompactionPhase, hook: CompactionHook, error: &String) -> (r: (
        Self,
        CompactionAction,
    ))
        ensures
            r.0 == self.hook_error(phase, hook, error@).0,
            is_action(r.1, self.hook_error(phase, hook, error@).1),
    {
        (
            RuntimeCompactionStep { phase, ..self },
            CompactionAction::EmitError {
                message: plus3(hook.as_str(), " hook failed: ", error.as_str()),
            },
        )
    }
}

/// Where a phase stands in the order of a compaction.
pub open spec fn phase_rank(phase: CompactionPhase) -> nat {
    match phase {
        CompactionPhase::Started => 0,
        CompactionPhase::BudgetHook => 1,
        CompactionPhase::HookContext => 2,
        CompactionPhase::BudgetHookError => 2,
        CompactionPhase::PreHook => 3,
        CompactionPhase::PreHookError => 4,
        CompactionPhase::Compacting => 5,
        CompactionPhase::Recording => 6,
        CompactionPhase::Summarizing => 7,
        CompactionPhase::PostHook => 8,
        CompactionPhase::PostHookError => 9,
        CompactionPhase::Completed => 10,
        CompactionPhase::Finished => 11,
        CompactionPhase::Failed => 12,
    }
}

/// Every event moves a compaction on, so that it ends after few of them.
pub proof fn compaction_moves_on(step: RuntimeCompactionStep, event: CompactionEvent)
    requires
        step.expects(event),
    ensures
        phase_rank(step.phase) < phase_rank(step.after(event).0.phase),
{
}

/// The actions of a compaction that answers the given events, the first one
/// included.
pub open spec fn actions_of(
    step: RuntimeCompactionStep,
    action: CompactionActionView,
    events: Seq<CompactionEvent>,
) -> Seq<CompactionActionView>
    decreases events.len(),
{
    if events.len() == 0 || !step.expects(events[0]) {
        seq![action]
    } else {
        seq![action] + actions_of(
            step.after(events[0]).0,
            step.after(events[0]).1,
            events.skip(1),
        )
    }
}

/// What has been asked for when a phase is reached.
spec fn groundwork(step: RuntimeCompactionStep, past: Seq<CompactionActionView>) -> bool {
    let rank = phase_rank(step.phase);
    &&& rank > 5 && rank < 12 ==> step.outcome is Some
    &&& 6 <= rank < 12 && step.emit_deltas && step.has_history ==> exists|j: int|
        0 <= j < past.len() && #[trigger] past[j] is AppendCompaction
    &&& 8 <= rank < 12 && step.emit_deltas && step.with_hooks ==> exists|j: int|
        0 <= j < past.len() && runs_post_hook(#[trigger] past[j])
}

/// The hook after the compaction is asked for.
pub open spec fn runs_post_hook(action: CompactionActionView) -> bool {
    action matches CompactionActionView::RunHook { hook, .. } && hook == CompactionHook::PostCompact
}

proof fn groundwork_is_kept(
    step: RuntimeCompactionStep,
    past: Seq<CompactionActionView>,
    event: CompactionEvent,
)
    requires
        groundwork(step, past),
        step.expects(event),
    ensures
        groundwork(step.after(event).0, past.push(step.after(event).1)),
        step.after(event).0.emit_deltas == step.emit_deltas,
        step.after(event).0.has_history == step.has_history,
        step.after(event).0.with_hooks == step.with_hooks,
{
    let (after, action) = step.after(event);
    let now = past.push(action);
    assert(now.last() == action);
    assert forall|j: int| 0 <= j < past.len() implies now[j] == past[j] by {}
    if exists|j: int| 0 <= j < past.len() && #[trigger] past[j] is AppendCompaction {
        let j = choose|j: int| 0 <= j < past.len() && #[trigger] past[j] is AppendCompaction;
        assert(now[j] is AppendCompaction);
    }
    if exists|j: int| 0 <= j < past.len() && runs_post_hook(#[trigger] past[j]) {
        let j = choose|j: int| 0 <= j < past.len() && runs_post_hook(#[trigger] past[j]);
        assert(runs_post_hook(now[j]));
    }
    assert(now[past.len() as int] == action);
}

proof fn completion_is_grounded(
    step: RuntimeCompactionStep,
    past: Seq<CompactionActionView>,
    action: CompactionActionView,
    events: Seq<CompactionEvent>,
    i: int,
)
    requires
        groundwork(step, past.push(action)),
        action is EmitCompacted ==> step.phase == CompactionPhase::Completed,
        0 <= i < actions_of(step, action, events).len(),
        actions_of(step, action, events)[i] is EmitCompacted,
    ensures
        ({
            let all = past + actions_of(step, action, events);
            let at = past.len() + i;
            &&& step.emit_deltas && step.has_history ==> exists|j: int|
                0 <= j < at && #[trigger] all[j] is AppendCompaction
            &&& step.emit_deltas && step.with_hooks ==> exists|j: int|
                0 <= j < at && runs_post_hook(#[trigger] all[j])
        }),
    decreases events.len(),
{
    let all = past + actions_of(step, action, events);
    let now = past.push(action);
    let at = past.len() + i;
    if i == 0 {
        assert(actions_of(step, action, events)[0] == action);
        if step.emit_deltas && step.has_history {
            let j = choose|j: int| 0 <= j < now.len() && #[trigger] now[j] is AppendCompaction;
            assert(j < past.len());
            assert(all[j] == now[j]);
        }
        if step.emit_deltas && step.with_hooks {
            let j = choose|j: int| 0 <= j < now.len() && runs_post_hook(#[trigger] now[j]);
            assert(j < past.len());
            assert(all[j] == now[j]);
        }
    } else {
        let (after, next) = step.after(events[0]);
        groundwork_is_kept(step, now, events[0]);
        let rest = actions_of(after, next, events.skip(1));
        assert(actions_of(step, action, events) == seq![action] + rest);
        assert((seq![action] + rest)[i] == rest[i - 1]);
        completion_is_grounded(after, now, next, events.skip(1), i - 1);
        assert(now + rest =~= all);
    }
}

/// The event that reports a compaction as complete comes after the compaction
/// is on record and after the hook that follows it, where there are any.
pub proof fn completion_is_reported_last(
    step: RuntimeCompactionStep,
    events: Seq<CompactionEvent>,
    i: int,
)
    requires
        step.phase == CompactionPhase::Started,
        step.outcome is None,
        0 <= i < actions_of(step.opening().0, step.opening().1, events).len(),
        actions_of(step.opening().0, step.opening().1, events)[i] is EmitCompacted,
    ensures
        ({
            let actions = actions_of(step.opening().0, step.opening().1, events);
            &&& step.emit_deltas && step.has_history ==> exists|j: int|
                0 <= j < i && #[trigger] actions[j] is AppendCompaction
            &&& step.emit_deltas && step.with_hooks ==> exists|j: int|
                0 <= j < i && runs_post_hook(#[trigger] actions[j])
        }),
{
    let (opened, action) = step.opening();
    let actions = actions_of(opened, action, events);
    completion_is_grounded(opened, Seq::empty(), action, events, i);
    assert(Seq::<CompactionActionView>::empty() + actions =~= actions);
}

/// A hidden compaction emits, persists and reports nothing.
pub proof fn hidden_compactions_stay_silent(step: RuntimeCompactionStep, event: CompactionEvent)
    requires
        step.expects(event),
        !step.emit_deltas,
    ensures
        !(step.after(event).1 is AppendCompaction),
        step.phase != CompactionPhase::Recording ==> !(step.after(event).1 is AppendSummary),
        !(step.after(event).1 is EmitCompacted),
        !(step.after(event).1 is EmitStarted),
        step.phase == CompactionPhase::BudgetHook ==> !(step.after(event).1 is EmitError),
        !(step.opening().1 is EmitStarted),
{
}

/// Pressure asks for a compaction exactly from the soft line on, and names the
/// hard line once that is crossed too; the reason is the one of its trigger.
pub proof fn triggers_name_the_line(pressure: ContextPressure)
    ensures
        RuntimeCompactionPolicy::pressure_trigger(pressure) is None
            <==> !pressure.should_soft_compact,
        RuntimeCompactionPolicy::pressure_trigger(pressure) == Some(
            RuntimeCompactionTrigger::HardLimit,
        ) <==> pressure.should_soft_compact && pressure.should_hard_compact,
        RuntimeCompactionPolicy::pressure_trigger(pressure) == Some(
            RuntimeCompactionTrigger::SoftLimit,
        ) <==> pressure.should_soft_compact && !pressure.should_hard_compact,
        RuntimeCompactionTrigger::SoftLimit.why()
            == RuntimeCompactionReason::ApproachingContextLimit,
        RuntimeCompactionTrigger::HardLimit.why() == RuntimeCompactionReason::ExceededContextLimit,
        RuntimeCompactionTrigger::PromptTooLong.why()
            == RuntimeCompactionReason::PromptTooLongRecovery,
{
}

/// An error is compacted away and retried exactly if the prompt was too long and
/// this was not tried yet; any other error is shown.
pub proof fn only_long_prompts_are_retried(
    prompt_too_long: bool,
    state: RuntimeCompactionRetryState,
)
    ensures
        RuntimeCompactionPolicy::retry_decision(prompt_too_long, state) is CompactAndRetry
            <==> prompt_too_long && !state.prompt_too_long_retried,
        RuntimeCompactionPolicy::retry_decision(prompt_too_long, state)
            matches RuntimeCompactionRetryDecision::CompactAndRetry { trigger, reason }
            ==> trigger == RuntimeCompactionTrigger::PromptTooLong && reason
            == RuntimeCompactionReason::PromptTooLongRecovery,
{
}

/// The details of a compaction say what it was and how many messages it took away.
pub proof fn details_tell_what_was_collapsed(
    details: RuntimeCompactionDetails,
    outcome: RuntimeCompactionOutcome,
)
    requires
        details_of(details, outcome),
        outcome.after_messages <= outcome.before_messages,
    ensures
        details.after_messages + details.collapsed_messages == details.before_messages,
        details.before_messages == outcome.before_messages,
        details.after_messages == outcome.after_messages,
        details.trigger == outcome.trigger,
        details.strategy == outcome.strategy,
        details.reason == RuntimeCompactionReason::PromptTooLongRecovery <==> outcome.trigger
            == RuntimeCompactionTrigger::PromptTooLong,
        details.reason == RuntimeCompactionReason::ExceededContextLimit <==> outcome.trigger
            == RuntimeCompactionTrigger::HardLimit,
{
}

/// What a compaction came to is what it was told: the messages before and after,
/// and whether they were summarized or cut. It is stored first where it is to be
/// stored, and a summary is stored exactly if one was made.
pub proof fn compactions_record_what_they_did(
    step: RuntimeCompactionStep,
    after_messages: usize,
    kind: CompactionKind,
)
    requires
        step.phase == CompactionPhase::Compacting,
    ensures
        ({
            let (next, action) = step.after(CompactionEvent::Compacted { after_messages, kind });
            &&& next.outcome matches Some(outcome) && outcome.before_messages
                == step.task.before_messages && outcome.after_messages == after_messages
                && outcome.trigger == step.task.trigger && (outcome.strategy
                == RuntimeCompactionStrategy::RemoteSummary <==> kind is RemoteSummary)
            &&& step.emit_deltas && step.has_history ==> {
                let (stored, more) = next.after(CompactionEvent::Done);
                &&& action == (CompactionActionView::AppendCompaction {
                    before_messages: step.task.before_messages,
                    after_messages,
                })
                &&& kind is RemoteSummary <==> more == (CompactionActionView::AppendSummary {
                    before_messages: step.task.before_messages,
                    after_messages,
                })
                &&& stored.outcome == next.outcome
            }
            &&& !(step.emit_deltas && step.has_history) ==> !(action is AppendCompaction) && !(
            action is AppendSummary)
        }),
{
}

/// Hooks do not decide: whether they run well or fail, the compaction goes on, and
/// a failure is shown where anything is. Only a failure to write ends it, with that
/// error.
pub proof fn hooks_do_not_stop_a_compaction(step: RuntimeCompactionStep, event: CompactionEvent)
    requires
        step.expects(event),
    ensures
        step.after(event).1 is Fail <==> event is Failed,
        event matches CompactionEvent::Failed { error } ==> step.after(event).1 == (
        CompactionActionView::Fail { error: error@ }),
        event is HookFailed && step.emit_deltas ==> step.after(event).1 is EmitError,
        step.phase == CompactionPhase::BudgetHook && (event is HookFailed || event == (
        CompactionEvent::HookRan { injected: false })) && !step.emit_deltas ==> step.after(event).1
            == CompactionActionView::Compact,
        step.phase == CompactionPhase::PreHook && event is HookRan ==> step.after(event).1
            == CompactionActionView::Compact,
        step.phase == CompactionPhase::PreHookError && event is Done ==> step.after(event).1
            == CompactionActionView::Compact,
        step.after(event).1 is Finish ==> step.phase == CompactionPhase::Completed || step.phase
            == CompactionPhase::Compacting || step.phase == CompactionPhase::Recording || step.phase
            == CompactionPhase::Summarizing || step.phase == CompactionPhase::PostHook || step.phase
            == CompactionPhase::PostHookError,
        step.after(event).1 matches CompactionActionView::EmitCompacted { outcome }
            ==> step.after(event).0.outcome == Some(outcome),
{
}

/// The hooks of a compaction run in their order: the warning first, then the one
/// before it, and the one after it once there is something to tell; without hooks
/// none runs.
pub proof fn hooks_run_in_their_order(step: RuntimeCompactionStep, event: CompactionEvent)
    requires
        step.expects(event),
    ensures
        step.after(event).1 matches CompactionActionView::RunHook {
            hook,
            before_messages,
            after_messages,
        } ==> {
            &&& before_messages == step.hook_messages
            &&& hook == CompactionHook::OnBudgetWarning ==> step.phase
                == CompactionPhase::Started && step.with_hooks && after_messages is None
            &&& hook == CompactionHook::PreCompact ==> step.emit_deltas && after_messages is None
                && (step.phase == CompactionPhase::BudgetHook || step.phase
                == CompactionPhase::BudgetHookError || step.phase == CompactionPhase::HookContext)
            &&& hook == CompactionHook::PostCompact ==> step.emit_deltas && step.with_hooks && (
            step.after(event).0.outcome matches Some(outcome) && after_messages == Some(
                outcome.after_messages,
            ))
        },
        step.phase == CompactionPhase::Started && event is Done && step.with_hooks ==> (
        step.after(event).1 matches CompactionActionView::RunHook { hook, .. } && hook
            == CompactionHook::OnBudgetWarning),
        step.phase == CompactionPhase::Started && event is Done && !step.with_hooks ==> step.after(
            event,
        ).1 == CompactionActionView::Compact,
        event matches CompactionEvent::Injected { messages } ==> step.after(
            event,
        ).0.task.before_messages == messages,
        !(event is Injected) ==> step.after(event).0.task == step.task,
{
}

/// A compaction waits for what it asked for last, and for nothing once it has
/// finished or failed. Its setting does not change on the way.
pub proof fn compactions_wait_for_what_they_asked(
    step: RuntimeCompactionStep,
    event: CompactionEvent,
)
    requires
        step.expects(event),
    ensures
        ({
            let (next, action) = step.after(event);
            &&& match action {
                CompactionActionView::EmitStarted { .. } => false,
                CompactionActionView::RunHook { hook, .. } => next.phase == (match hook {
                    CompactionHook::OnBudgetWarning => CompactionPhase::BudgetHook,
                    CompactionHook::PreCompact => CompactionPhase::PreHook,
                    CompactionHook::PostCompact => CompactionPhase::PostHook,
                }),
                CompactionActionView::InjectHookContext => next.phase
                    == CompactionPhase::HookContext,
                CompactionActionView::EmitError { .. } => next.phase == (match step.phase {
                    CompactionPhase::BudgetHook => CompactionPhase::BudgetHookError,
                    CompactionPhase::PreHook => CompactionPhase::PreHookError,
                    _ => CompactionPhase::PostHookError,
                }),
                CompactionActionView::Compact => next.phase == CompactionPhase::Compacting,
                CompactionActionView::AppendCompaction { .. } => next.phase
                    == CompactionPhase::Recording,
                CompactionActionView::AppendSummary { .. } => next.phase
                    == CompactionPhase::Summarizing,
                CompactionActionView::EmitCompacted { outcome } => next.phase
                    == CompactionPhase::Completed && next.outcome == Some(outcome),
                CompactionActionView::Finish => next.phase == CompactionPhase::Finished,
                CompactionActionView::Fail { .. } => next.phase == CompactionPhase::Failed,
            }
            &&& next.with_hooks == step.with_hooks
            &&& next.emit_deltas == step.emit_deltas
            &&& next.has_history == step.has_history
            &&& next.hook_messages == step.hook_messages
            &&& !(event is Compacted) ==> next.outcome == step.outcome
            &&& event is Failed <==> action is Fail
            &&& event is Compacted && step.emit_deltas && step.has_history
                ==> action is AppendCompaction
            &&& action is AppendCompaction || action is AppendSummary ==> step.phase
                == CompactionPhase::Compacting || step.phase == CompactionPhase::Recording
            &&& step.phase == CompactionPhase::Recording && event is Done ==> (action
                is AppendSummary <==> (step.outcome matches Some(outcome) && outcome.strategy
                == RuntimeCompactionStrategy::RemoteSummary))
            &&& step.phase == CompactionPhase::Completed && event is Done ==> action is Finish
        }),
{
}

} // verus!
