use orca_runtime::compaction::{
    confirm_tui_retry, handle_tui_agent_provider_error, CompactionAction, CompactionEvent,
    CompactionHook, CompactionKind, ContextPressure, RuntimeCompactionPolicy,
    RuntimeCompactionReason, RuntimeCompactionRetryDecision, RuntimeCompactionRetryState,
    RuntimeCompactionStep, RuntimeCompactionStrategy, RuntimeCompactionTask,
    RuntimeCompactionTrigger, TuiAgentProviderErrorAction, TuiAgentTurnCompactionOutcome,
    TuiAgentTurnCompactionState, TuiProviderErrorStep,
};
use orca_runtime::provider_types::{ProviderResponse, ProviderStep};

fn pressure(wire_tokens: usize, soft: bool, hard: bool) -> ContextPressure {
    ContextPressure {
        wire_tokens,
        effective_limit: 20,
        soft_limit: 10,
        should_soft_compact: soft,
        should_hard_compact: hard,
    }
}

#[test]
fn compaction_policy_maps_pressure_to_trigger() {
    let below = pressure(8, false, false);
    let soft = pressure(12, true, false);
    let hard = pressure(24, true, true);

    assert_eq!(RuntimeCompactionPolicy::decide_for_pressure(below), None);
    assert_eq!(
        RuntimeCompactionPolicy::decide_for_pressure(soft),
        Some(RuntimeCompactionTrigger::SoftLimit)
    );
    assert_eq!(
        RuntimeCompactionPolicy::decide_for_pressure(hard),
        Some(RuntimeCompactionTrigger::HardLimit)
    );
}

#[test]
fn compaction_task_records_trigger_and_message_counts() {
    let task = RuntimeCompactionTask::start(RuntimeCompactionTrigger::PromptTooLong, 11);

    assert_eq!(task.trigger(), RuntimeCompactionTrigger::PromptTooLong);
    assert_eq!(task.before_messages(), 11);

    let outcome = task.finish(4, &CompactionKind::LocalTruncation);

    assert_eq!(outcome.trigger(), RuntimeCompactionTrigger::PromptTooLong);
    assert_eq!(outcome.before_messages(), 11);
    assert_eq!(outcome.after_messages(), 4);
    assert_eq!(
        outcome.strategy(),
        RuntimeCompactionStrategy::LocalTruncation
    );
    assert!(outcome.should_persist_summary_state(true));
    assert!(!outcome.should_persist_summary_state(false));
}

#[test]
fn compaction_outcome_records_remote_summary_strategy() {
    let task = RuntimeCompactionTask::start(RuntimeCompactionTrigger::HardLimit, 9);
    let outcome = task.finish(3, &CompactionKind::RemoteSummary("summary".to_string()));

    assert_eq!(outcome.trigger(), RuntimeCompactionTrigger::HardLimit);
    assert_eq!(outcome.before_messages(), 9);
    assert_eq!(outcome.after_messages(), 3);
    assert_eq!(outcome.strategy(), RuntimeCompactionStrategy::RemoteSummary);
}

#[test]
fn compaction_outcome_exposes_reason_and_details() {
    let task = RuntimeCompactionTask::start(RuntimeCompactionTrigger::PromptTooLong, 12);
    let outcome = task.finish(5, &CompactionKind::RemoteSummary("summary".to_string()));

    assert_eq!(
        outcome.reason(),
        RuntimeCompactionReason::PromptTooLongRecovery
    );

    let details = outcome.details();
    assert_eq!(details.trigger, RuntimeCompactionTrigger::PromptTooLong);
    assert_eq!(
        details.reason,
        RuntimeCompactionReason::PromptTooLongRecovery
    );
    assert_eq!(details.strategy, RuntimeCompactionStrategy::RemoteSummary);
    assert_eq!(details.before_messages, 12);
    assert_eq!(details.after_messages, 5);
    assert_eq!(details.collapsed_messages, 7);
    assert_eq!(
        details.status_text,
        "compacted context after prompt-too-long"
    );
}

#[test]
fn compaction_policy_decides_prompt_too_long_retry_once() {
    let mut retry_state = RuntimeCompactionRetryState::new();
    let decision = RuntimeCompactionPolicy::decide_for_provider_error(true, &retry_state);

    assert_eq!(
        decision,
        RuntimeCompactionRetryDecision::CompactAndRetry {
            trigger: RuntimeCompactionTrigger::PromptTooLong,
            reason: RuntimeCompactionReason::PromptTooLongRecovery,
        }
    );

    retry_state.record_prompt_too_long_retry();
    let decision = RuntimeCompactionPolicy::decide_for_provider_error(true, &retry_state);

    assert_eq!(decision, RuntimeCompactionRetryDecision::SurfaceError);
}

#[test]
fn compaction_policy_surfaces_non_context_errors() {
    let retry_state = RuntimeCompactionRetryState::new();
    let decision = RuntimeCompactionPolicy::decide_for_provider_error(false, &retry_state);

    assert_eq!(decision, RuntimeCompactionRetryDecision::SurfaceError);
}

#[test]
fn compaction_step_emits_started_before_compacted_event() {
    let (step, action) = RuntimeCompactionStep::start(
        RuntimeCompactionTrigger::PromptTooLong,
        false,
        true,
        false,
        41,
    );
    match action {
        CompactionAction::EmitStarted {
            reason,
            before_messages,
        } => {
            assert_eq!(reason.as_str(), "prompt_too_long_recovery");
            assert_eq!(before_messages, 41);
        }
        other => panic!("unexpected {:?}", other),
    }
    let (step, action) = step.next(CompactionEvent::Done);
    assert!(matches!(action, CompactionAction::Compact));
    let (step, action) = step.next(CompactionEvent::Compacted {
        after_messages: 6,
        kind: CompactionKind::RemoteSummary("summary".to_string()),
    });
    match action {
        CompactionAction::EmitCompacted { details } => {
            assert_eq!(details.before_messages, 41);
            assert_eq!(details.after_messages, 6);
            assert_eq!(details.reason.as_str(), "prompt_too_long_recovery");
            assert_eq!(details.strategy.as_str(), "remote_summary");
        }
        other => panic!("unexpected {:?}", other),
    }
    let (_, action) = step.next(CompactionEvent::Done);
    assert!(matches!(action, CompactionAction::Finish));
}

#[test]
fn automatic_compaction_completes_after_persistence_and_post_hook() {
    let (mut step, mut action) =
        RuntimeCompactionStep::start(RuntimeCompactionTrigger::SoftLimit, true, true, true, 41);
    let mut seen = Vec::new();
    loop {
        let (name, event) = match action {
            CompactionAction::EmitStarted { .. } => ("started", CompactionEvent::Done),
            CompactionAction::RunHook { hook, .. } => (
                hook.as_str(),
                CompactionEvent::HookRan { injected: false },
            ),
            CompactionAction::Compact => (
                "compact",
                CompactionEvent::Compacted {
                    after_messages: 6,
                    kind: CompactionKind::RemoteSummary("summary".to_string()),
                },
            ),
            CompactionAction::AppendCompaction { .. } => ("collapsed", CompactionEvent::Done),
            CompactionAction::AppendSummary { .. } => ("summary", CompactionEvent::Done),
            CompactionAction::EmitCompacted { .. } => ("compacted", CompactionEvent::Done),
            CompactionAction::Finish => break,
            other => panic!("unexpected {:?}", other),
        };
        seen.push(name);
        let next = step.next(event);
        step = next.0;
        action = next.1;
    }
    assert_eq!(
        seen,
        vec![
            "started",
            "on_budget_warning",
            "pre_compact",
            "compact",
            "collapsed",
            "summary",
            "post_compact",
            "compacted",
        ]
    );
}

#[test]
fn hook_failures_are_reported_and_do_not_stop_a_compaction() {
    let (step, _) =
        RuntimeCompactionStep::start(RuntimeCompactionTrigger::HardLimit, true, true, false, 9);
    let (step, action) = step.next(CompactionEvent::Done);
    assert!(matches!(
        action,
        CompactionAction::RunHook {
            hook: CompactionHook::OnBudgetWarning,
            before_messages: 9,
            after_messages: None
        }
    ));
    let (step, action) = step.next(CompactionEvent::HookFailed {
        error: "exit 1".to_string(),
    });
    assert!(matches!(
        action,
        CompactionAction::EmitError { ref message }
            if message == "on_budget_warning hook failed: exit 1"
    ));
    let (step, action) = step.next(CompactionEvent::Done);
    assert!(matches!(action, CompactionAction::RunHook { .. }));
    let (_, action) = step.next(CompactionEvent::Failed {
        error: "disk full".to_string(),
    });
    assert!(matches!(action, CompactionAction::Fail { ref error } if error == "disk full"));
}

#[test]
fn injected_context_counts_towards_the_compacted_messages() {
    let (step, action) =
        RuntimeCompactionStep::start(RuntimeCompactionTrigger::SoftLimit, true, false, true, 9);
    assert!(matches!(action, CompactionAction::RunHook { .. }));
    let (step, action) = step.next(CompactionEvent::HookRan { injected: true });
    assert!(matches!(action, CompactionAction::InjectHookContext));
    let (step, action) = step.next(CompactionEvent::Injected { messages: 10 });
    assert!(matches!(action, CompactionAction::Compact));
    let (step, action) = step.next(CompactionEvent::Compacted {
        after_messages: 4,
        kind: CompactionKind::LocalTruncation,
    });
    assert!(matches!(action, CompactionAction::Finish));
    assert_eq!(step.outcome.unwrap().before_messages, 10);
    assert_eq!(step.hook_messages, 9);
}

fn response(steps: Vec<ProviderStep>) -> ProviderResponse {
    ProviderResponse {
        steps,
        assistant_content: None,
        assistant_reasoning: None,
        tool_calls: vec![],
        usage: None,
    }
}

#[test]
fn interactive_turns_retry_a_long_prompt_once() {
    let mut state = TuiAgentTurnCompactionState::new();
    let long = response(vec![
        ProviderStep::MessageDelta("x".to_string()),
        ProviderStep::Error("prompt_too_long".to_string()),
        ProviderStep::Error("second".to_string()),
    ]);
    let step = handle_tui_agent_provider_error(&mut state, &long, true);
    assert!(matches!(
        step,
        TuiProviderErrorStep::Compact {
            trigger: RuntimeCompactionTrigger::PromptTooLong
        }
    ));
    assert!(confirm_tui_retry(&mut state, Err::<(), &str>("failed")).is_err());
    assert!(!state.retry.has_prompt_too_long_retry());
    assert!(matches!(
        confirm_tui_retry(&mut state, Ok::<(), &str>(())),
        Ok(TuiAgentProviderErrorAction::RetryAfterCompaction)
    ));
    let step = handle_tui_agent_provider_error(&mut state, &long, true);
    assert!(matches!(
        step,
        TuiProviderErrorStep::Act(TuiAgentProviderErrorAction::SurfaceError(ref error))
            if error == "prompt_too_long"
    ));
    assert!(!state.retry.has_prompt_too_long_retry());
    let step = handle_tui_agent_provider_error(&mut state, &response(vec![]), false);
    assert!(matches!(
        step,
        TuiProviderErrorStep::Act(TuiAgentProviderErrorAction::NoError)
    ));
    let outcome = TuiAgentTurnCompactionOutcome::from_pressure(pressure(7, false, false), true);
    assert_eq!(outcome.used_tokens, 7);
    assert_eq!(outcome.limit_tokens, 10);
    assert!(outcome.compacted);
}

#[test]
fn fresh_turns_have_retried_nothing() {
    assert_eq!(
        TuiAgentTurnCompactionState::new(),
        TuiAgentTurnCompactionState::default()
    );
    assert!(!TuiAgentTurnCompactionState::default()
        .retry
        .has_prompt_too_long_retry());
}
