use orca_runtime::agent_continuation::ids::{AgentAttemptId, Sha256Digest};
use orca_runtime::agent_continuation::snapshot::{FragmentCatalog, FragmentEntry};
use orca_runtime::agent_registry::UsageTotals;
use orca_runtime::approval_resolution::ActionKind;
use orca_runtime::budget::BudgetSpec;
use orca_runtime::budget_controller::BudgetController;
use orca_runtime::child_agent_entrypoints::{
    child_agent_outcome, prepare_child_agent_request, role_tool_ceiling, AgentDefinition,
    RoleDescriptor,
};
use orca_runtime::child_agent_loop_runner::{
    ChildAgentLoop, ChildLoopAction, ChildLoopEvent, ChildLoopStep,
};
use orca_runtime::child_agent_loop_setup::{
    advance_child_agent_turn, advance_child_agent_turn_with_limit, prepare_child_agent_loop,
    try_prepare_child_agent_loop, ChildAgentLoopSetup, ChildAgentTurnBudget, RestoreInputs,
};
use orca_runtime::child_agent_provider_turn::{
    after_post_model_hook, after_pre_model_hook, confirm_child_retry,
    handle_child_agent_provider_error, ChildAgentProviderErrorDecision, ChildAgentProviderTurn,
    ChildProviderErrorStep,
};
use orca_runtime::child_agent_response_folding::{
    fold_child_agent_provider_response, fold_child_agent_tool_result,
    fold_child_agent_tool_result_and_close_siblings, ChildAgentProviderResponseFold,
    ChildAgentToolExecution, ChildAgentToolResultFold,
};
use orca_runtime::child_agent_types::{
    activity_digest_input, ActivityDeliveryError, ChildAgentActivity, ChildAgentActivityEmitter,
    ChildAgentRequest, ChildAgentResult, SealedActivityEvent, StreamingThrottle, SubagentActivityIdentity, SubagentActivityOwner,
    SubagentActivityPayload, SubagentType, SurfaceSubagentPhase, SurfaceToolTerminalStatus,
};
use orca_runtime::conversation::{Message, RawToolCall};
use orca_runtime::provider_types::{
    child_agent_tool_requests, CostTracker, ProviderResponse, ProviderStep, ToolRequest,
    ToolResult, Usage,
};
use orca_runtime::runtime_types::{
    run_status_from_tool_status, RunStatus, ToolInvocationStarted, ToolResultKind, ToolStatus,
    ToolTerminal, ToolTerminalSource,
};

fn request(prompt: &str) -> ChildAgentRequest {
    ChildAgentRequest::new(prompt.to_string(), SubagentType::General, None, 2, false)
}

fn setup() -> ChildAgentLoopSetup {
    prepare_child_agent_loop(&request("inspect repo"), "system".to_string())
}

fn usage(input: u64, output: u64, cache: u64, cost: u64) -> Usage {
    Usage {
        input_tokens: input,
        output_tokens: output,
        cache_tokens: cache,
        cost_usd_micros: cost,
    }
}

fn response(steps: Vec<ProviderStep>, usage: Option<Usage>) -> ProviderResponse {
    ProviderResponse {
        steps,
        assistant_content: None,
        assistant_reasoning: None,
        tool_calls: vec![],
        usage,
    }
}

fn tool_request(id: &str, name: &str, target: &str) -> ToolRequest {
    ToolRequest {
        id: id.to_string(),
        name: name.to_string(),
        action: ActionKind::Shell,
        target: Some(target.to_string()),
        raw_arguments: None,
    }
}

fn tool_result(id: &str, status: ToolStatus, error: Option<&str>, content: &str) -> ToolResult {
    ToolResult {
        id: id.to_string(),
        terminal: ToolTerminal {
            status,
            kind: if error.is_some() {
                ToolResultKind::Error
            } else {
                ToolResultKind::Output
            },
            source: ToolTerminalSource::Observed,
            started: ToolInvocationStarted::Yes,
        },
        error: error.map(|error| error.to_string()),
        content: content.to_string(),
    }
}

fn tracker() -> CostTracker {
    CostTracker::new(None)
}

#[test]
fn prepare_child_agent_loop_builds_provider_conversation_and_policy() {
    let setup = setup();
    assert_eq!(setup.conversation.messages.len(), 2);
    assert!(matches!(
        setup.conversation.messages.first(),
        Some(Message::System { .. })
    ));
    assert!(matches!(
        setup.conversation.messages.get(1),
        Some(Message::User { content, .. }) if content == "inspect repo"
    ));
    assert_eq!(setup.turn, 0);
    assert!(!setup.compaction_retry.has_prompt_too_long_retry());
}

#[test]
fn a_plain_ceiling_stops_after_its_last_turn() {
    let mut setup = setup();
    assert!(matches!(
        advance_child_agent_turn_with_limit(&mut setup, 1),
        ChildAgentTurnBudget::Continue
    ));
    assert_eq!(setup.turn, 1);
    match advance_child_agent_turn_with_limit(&mut setup, 1) {
        ChildAgentTurnBudget::Stop(result) => assert_eq!(
            result.error.as_deref(),
            Some("budget stopped: child turn budget exhausted")
        ),
        ChildAgentTurnBudget::Continue => panic!("the ceiling was reached"),
    }
    assert_eq!(setup.turn, 2);
}

#[test]
fn advance_child_agent_turn_stops_when_lease_is_exhausted() {
    let mut setup = setup();
    let one = BudgetSpec {
        max_turns: Some(1),
        ..BudgetSpec::unlimited()
    };
    let mut controller = BudgetController::new(one);
    let mut lease = controller.child_lease(one, 0).expect("child lease");

    assert!(matches!(
        advance_child_agent_turn(&mut setup, &mut lease),
        ChildAgentTurnBudget::Continue
    ));
    assert_eq!(setup.turn, 1);

    match advance_child_agent_turn(&mut setup, &mut lease) {
        ChildAgentTurnBudget::Stop(result) => {
            assert_eq!(result.status, RunStatus::Failed);
            assert!(result
                .error
                .as_deref()
                .is_some_and(|error| error.contains("budget stopped")));
            assert_eq!(
                result.error.as_deref(),
                Some("budget stopped: child turn_budget (turns=1, tool_calls=0)")
            );
        }
        ChildAgentTurnBudget::Continue => panic!("turn beyond lease should stop"),
    }
    assert_eq!(setup.turn, 2);
    assert_eq!(lease.finish().turns, 1);
}

#[test]
fn advance_child_agent_turn_uses_child_config_budget() {
    let mut setup = setup();
    let mut controller = BudgetController::new(BudgetSpec::unlimited());
    let mut lease = controller
        .child_lease(BudgetSpec::unlimited(), 0)
        .expect("child lease");

    assert!(matches!(
        advance_child_agent_turn(&mut setup, &mut lease),
        ChildAgentTurnBudget::Continue
    ));

    assert_eq!(setup.turn, 1);
}

#[test]
fn run_child_agent_provider_turn_returns_child_failure_for_model_hook_errors() {
    match after_pre_model_hook(Err("pre-failed".to_string())) {
        Some(ChildAgentProviderTurn::Fail { result, usage }) => {
            assert!(usage.is_none());
            assert_eq!(result.status, RunStatus::Failed);
            assert_eq!(
                result.error.as_deref(),
                Some("pre_model_call hook failed: pre-failed")
            );
        }
        _ => panic!("pre hook failure should fail the child"),
    }
    assert!(after_pre_model_hook(Ok(())).is_none());

    let answered = response(vec![], Some(usage(120, 30, 10, 9)));
    match after_post_model_hook(answered, Err("post-failed".to_string())) {
        ChildAgentProviderTurn::Fail {
            result,
            usage: spent,
        } => {
            assert_eq!(spent, Some(usage(120, 30, 10, 9)));
            assert_eq!(result.status, RunStatus::Failed);
            assert!(result
                .error
                .as_deref()
                .unwrap_or_default()
                .contains("post_model_call hook failed"));
        }
        ChildAgentProviderTurn::Response(_) => panic!("post hook failure should fail the child"),
    }
}

#[test]
fn handle_child_agent_provider_error_retries_prompt_too_long_once() {
    let mut setup = setup();
    let failing = response(
        vec![ProviderStep::Error("prompt_too_long".to_string())],
        None,
    );

    assert!(matches!(
        handle_child_agent_provider_error(&mut setup, &failing, true),
        ChildProviderErrorStep::Compact { .. }
    ));
    assert!(!setup.compaction_retry.has_prompt_too_long_retry());
    assert!(matches!(
        confirm_child_retry(&mut setup),
        ChildAgentProviderErrorDecision::RetryAfterCompaction
    ));
    assert!(setup.compaction_retry.has_prompt_too_long_retry());

    match handle_child_agent_provider_error(&mut setup, &failing, true) {
        ChildProviderErrorStep::Fail(result) => {
            assert_eq!(result.status, RunStatus::Failed);
            assert_eq!(result.error.as_deref(), Some("prompt_too_long"));
        }
        _ => panic!("repeated prompt-too-long should not retry"),
    }
    assert!(matches!(
        handle_child_agent_provider_error(&mut setup, &response(vec![], None), false),
        ChildProviderErrorStep::NoError
    ));
    assert!(!setup.compaction_retry.has_prompt_too_long_retry());
}

fn start(tracker: CostTracker, budget: BudgetSpec) -> (ChildAgentLoop, ChildLoopStep) {
    ChildAgentLoop::start(setup(), None, budget, tracker)
}

/// Answers the compaction before a model call with the same conversation.
fn skip_compaction(child: &mut ChildAgentLoop) -> ChildLoopStep {
    let conversation = std::mem::replace(
        &mut child.setup.conversation,
        orca_runtime::conversation::Conversation::new(),
    );
    child.next(ChildLoopEvent::Compacted { conversation })
}

fn model_turn(response: ProviderResponse) -> ChildLoopEvent {
    ChildLoopEvent::ModelTurn {
        model: "flash".to_string(),
        turn: ChildAgentProviderTurn::Response(response),
        prompt_too_long: false,
    }
}

#[test]
fn child_agent_provider_error_records_usage_before_failure() {
    let (mut child, _) = start(tracker(), BudgetSpec::unlimited());
    skip_compaction(&mut child);
    let step = child.next(model_turn(response(
        vec![ProviderStep::Error("quota exhausted".to_string())],
        Some(usage(120, 30, 10, 0)),
    )));
    assert!(matches!(
        step.action,
        ChildLoopAction::Finish {
            result: ChildAgentResult {
                status: RunStatus::Failed,
                ..
            }
        }
    ));
    let totals = child.tracker.totals();
    assert_eq!(totals.input_tokens, 120);
    assert_eq!(totals.output_tokens, 30);
    assert_eq!(totals.cache_tokens, 10);
}

#[test]
fn observed_child_agent_provider_error_emits_cumulative_usage() {
    let mut spent = tracker();
    spent.add_usage(usage(5, 2, 1, 0));
    let (mut child, _) = start(spent, BudgetSpec::unlimited());
    skip_compaction(&mut child);
    let step = child.next(model_turn(response(
        vec![ProviderStep::Error("quota exhausted".to_string())],
        Some(usage(120, 30, 10, 0)),
    )));
    assert!(matches!(step.action, ChildLoopAction::Finish { .. }));
    let totals = child.tracker.totals();
    assert_eq!(step.activities.len(), 1);
    assert!(matches!(
        step.activities[0],
        ChildAgentActivity::Usage(reported) if reported == totals
    ));
    assert_eq!(totals.input_tokens, 125);
    assert_eq!(totals.output_tokens, 32);
    assert_eq!(totals.cache_tokens, 11);
}

#[test]
fn fold_child_agent_provider_response_records_usage_and_terminal_assistant() {
    let mut setup = setup();
    let mut tracker = tracker();
    let answer = ProviderResponse {
        steps: vec![ProviderStep::MessageDelta("done".to_string())],
        assistant_content: Some("done".to_string()),
        assistant_reasoning: Some("reasoned".to_string()),
        tool_calls: vec![],
        usage: Some(usage(120, 30, 10, 0)),
    };
    assert!(matches!(
        handle_child_agent_provider_error(&mut setup, &answer, false),
        ChildProviderErrorStep::NoError
    ));
    match fold_child_agent_provider_response(&mut setup, &answer, &mut tracker) {
        ChildAgentProviderResponseFold::Complete(result) => {
            assert_eq!(result.status, RunStatus::Success);
            assert_eq!(result.final_message.as_deref(), Some("done"));
        }
        ChildAgentProviderResponseFold::ContinueToTools => {
            panic!("terminal response should complete child run")
        }
    }
    let totals = tracker.totals();
    assert_eq!(totals.input_tokens, 120);
    assert_eq!(totals.output_tokens, 30);
    assert_eq!(totals.cache_tokens, 10);
    assert!(matches!(
        setup.conversation.messages.last(),
        Some(Message::Assistant {
            content: Some(content),
            reasoning_content: Some(reasoning),
            tool_calls,
            ..
        }) if content == "done" && reasoning == "reasoned" && tool_calls.is_empty()
    ));
}

fn raw_call(id: &str, name: &str, arguments: &str) -> RawToolCall {
    RawToolCall {
        id: id.to_string(),
        function_name: name.to_string(),
        arguments: arguments.to_string(),
    }
}

#[test]
fn fold_child_agent_provider_response_records_assistant_before_tools() {
    let mut setup = setup();
    let answer = ProviderResponse {
        steps: vec![],
        assistant_content: Some("I need a tool".to_string()),
        assistant_reasoning: None,
        tool_calls: vec![raw_call("tool-1", "bash", "{\"command\":\"echo hi\"}")],
        usage: None,
    };

    let fold = fold_child_agent_provider_response(&mut setup, &answer, &mut tracker());

    assert!(matches!(
        fold,
        ChildAgentProviderResponseFold::ContinueToTools
    ));
    assert!(matches!(
        setup.conversation.messages.last(),
        Some(Message::Assistant {
            content: Some(content),
            tool_calls,
            ..
        }) if content == "I need a tool" && tool_calls.len() == 1
    ));
}

#[test]
fn child_agent_tool_requests_extracts_only_provider_tool_calls() {
    let first = tool_request("tool-1", "bash", "echo one");
    let second = tool_request("tool-2", "read_file", "Cargo.toml");
    let answer = ProviderResponse {
        steps: vec![
            ProviderStep::MessageDelta("before".to_string()),
            ProviderStep::ToolCall(first.duplicate()),
            ProviderStep::Error("ignored here".to_string()),
            ProviderStep::ToolCall(second.duplicate()),
        ],
        assistant_content: Some("tool please".to_string()),
        assistant_reasoning: None,
        tool_calls: vec![],
        usage: None,
    };

    let requests = child_agent_tool_requests(&answer);

    assert_eq!(requests.len(), 2);
    assert_eq!(requests[0].id, first.id);
    assert_eq!(requests[1].id, second.id);
}

fn asks_for(id: &str, target: &str) -> ProviderResponse {
    ProviderResponse {
        steps: vec![ProviderStep::ToolCall(tool_request(id, "bash", target))],
        assistant_content: None,
        assistant_reasoning: None,
        tool_calls: vec![raw_call(id, "bash", "{}")],
        usage: None,
    }
}

fn says(text: &str) -> ProviderResponse {
    ProviderResponse {
        steps: vec![ProviderStep::MessageDelta(text.to_string())],
        assistant_content: Some(text.to_string()),
        assistant_reasoning: None,
        tool_calls: vec![],
        usage: None,
    }
}

#[test]
fn run_child_agent_loop_with_tool_executor_runs_tools_until_provider_completes() {
    let (mut child, mut step) = start(tracker(), BudgetSpec::unlimited());
    let mut calls = 0;
    let mut tool_count = 0;
    let result = loop {
        step = match step.action {
            ChildLoopAction::CompactIfNeeded => skip_compaction(&mut child),
            ChildLoopAction::CallModel => {
                calls += 1;
                child.next(model_turn(if calls == 1 {
                    asks_for("tool-1", "echo child")
                } else {
                    says("Mock completed after tool execution.")
                }))
            }
            ChildLoopAction::ExecuteTool { request } => {
                tool_count += 1;
                assert_eq!(request.name, "bash");
                assert_eq!(request.target.as_deref(), Some("echo child"));
                child.next(ChildLoopEvent::ToolExecuted {
                    execution: ChildAgentToolExecution {
                        should_stop: false,
                        result: tool_result(
                            &request.id,
                            ToolStatus::Completed,
                            None,
                            "child tool ran",
                        ),
                        child_cost: None,
                    },
                })
            }
            ChildLoopAction::Finish { result } => break result,
            other => panic!("unexpected {:?}", other),
        };
    };

    assert_eq!(result.status, RunStatus::Success);
    assert_eq!(
        result.final_message.as_deref(),
        Some("Mock completed after tool execution.")
    );
    assert_eq!(tool_count, 1);
    let budget_usage = result
        .budget_usage
        .expect("child loop returns an exact budget receipt");
    assert_eq!(budget_usage.turns, 2);
    assert_eq!(budget_usage.tool_calls, 1);
}

#[test]
fn observed_child_agent_stops_at_local_budget_after_emitting_exact_usage() {
    let budget = BudgetSpec {
        max_cost_usd_micros: Some(1),
        ..BudgetSpec::unlimited()
    };
    let (mut child, step) = start(tracker(), budget);
    assert!(matches!(
        step.activities[0],
        ChildAgentActivity::TurnStarted { turn: 1 }
    ));
    skip_compaction(&mut child);
    let mut answer = asks_for("tool-1", "echo child");
    answer.usage = Some(usage(120, 30, 10, 57));
    let step = child.next(model_turn(answer));
    let result = match step.action {
        ChildLoopAction::Finish { result } => result,
        other => panic!("budget-exhausted child must not go on: {:?}", other),
    };

    assert_eq!(result.status, RunStatus::Failed);
    assert!(result
        .error
        .as_deref()
        .is_some_and(|error| error.contains("budget stopped")));
    assert_eq!(
        result.error.as_deref(),
        Some("budget stopped: estimated cost $0.000057 exceeded limit $0.000001")
    );
    let totals = child.tracker.totals();
    assert_eq!(totals.input_tokens, 120);
    assert_eq!(totals.output_tokens, 30);
    assert_eq!(totals.cache_tokens, 10);
    let budget_usage = result
        .budget_usage
        .expect("budget-stopped child still returns its consumed receipt");
    assert_eq!(budget_usage.turns, 1);
    assert_eq!(
        budget_usage.cost_usd_micros, totals.cost_usd_micros,
        "the lease receipt includes provider spend"
    );
    let usage_events = step
        .activities
        .iter()
        .filter_map(|activity| match activity {
            ChildAgentActivity::Usage(usage) => Some(*usage),
            _ => None,
        })
        .collect::<Vec<_>>();
    assert_eq!(usage_events, vec![totals]);
}

#[test]
fn responses_are_not_taken_up_over_cost() {
    let budget = BudgetSpec {
        max_cost_usd_micros: Some(10),
        ..BudgetSpec::unlimited()
    };
    let mut spent = tracker();
    spent.add_usage(usage(1, 1, 1, 11));
    let (mut child, _) = start(spent, budget);
    skip_compaction(&mut child);
    let messages = child.setup.conversation.messages.len();
    let mut answer = asks_for("tool-1", "echo child");
    answer.usage = Some(usage(120, 30, 10, 57));
    let step = child.next(model_turn(answer));
    assert!(step.activities.is_empty());
    match step.action {
        ChildLoopAction::Finish { result } => assert_eq!(
            result.error.as_deref(),
            Some("budget stopped: estimated cost $0.000011 exceeded limit $0.000010")
        ),
        other => panic!("the child is over its cost: {:?}", other),
    }
    assert_eq!(child.setup.conversation.messages.len(), messages);
    assert_eq!(child.tracker.totals().cost_usd_micros, 11);
}

#[test]
fn a_parents_lease_bounds_the_turns_of_a_child() {
    let mut controller = BudgetController::new(BudgetSpec {
        max_turns: Some(1),
        ..BudgetSpec::unlimited()
    });
    let lease = controller
        .child_lease(BudgetSpec::unlimited(), 0)
        .expect("lease");
    let (mut child, _) = ChildAgentLoop::start(
        setup(),
        Some(lease),
        BudgetSpec::unlimited(),
        tracker(),
    );
    skip_compaction(&mut child);
    let step = child.next(model_turn(asks_for("tool-1", "pwd")));
    assert!(matches!(step.action, ChildLoopAction::ExecuteTool { .. }));
    let step = child.next(ChildLoopEvent::ToolExecuted {
        execution: ChildAgentToolExecution {
            should_stop: false,
            result: tool_result("tool-1", ToolStatus::Completed, None, "/"),
            child_cost: None,
        },
    });
    match step.action {
        ChildLoopAction::Finish { result } => {
            assert_eq!(
                result.error.as_deref(),
                Some("budget stopped: child turn_budget (turns=1, tool_calls=0)")
            );
            let receipt = result.budget_usage.unwrap();
            assert_eq!(receipt.turns, 1);
            assert_eq!(receipt.tool_calls, 1);
        }
        other => panic!("unexpected {:?}", other),
    }
}

#[test]
fn a_long_prompt_is_compacted_and_retried_once() {
    let (mut child, _) = start(tracker(), BudgetSpec::unlimited());
    let long = || ChildLoopEvent::ModelTurn {
        model: "flash".to_string(),
        turn: ChildAgentProviderTurn::Response(response(
            vec![ProviderStep::Error("prompt_too_long".to_string())],
            None,
        )),
        prompt_too_long: true,
    };
    skip_compaction(&mut child);
    let step = child.next(long());
    assert!(matches!(step.action, ChildLoopAction::Compact { .. }));
    let step = skip_compaction(&mut child);
    assert!(matches!(step.action, ChildLoopAction::CompactIfNeeded));
    assert_eq!(child.setup.turn, 2);
    skip_compaction(&mut child);
    let step = child.next(long());
    match step.action {
        ChildLoopAction::Finish { result } => {
            assert_eq!(result.error.as_deref(), Some("prompt_too_long"))
        }
        other => panic!("unexpected {:?}", other),
    }
}

#[test]
fn failed_compactions_end_the_loop() {
    let (mut child, _) = start(tracker(), BudgetSpec::unlimited());
    let step = child.next(ChildLoopEvent::Failed {
        error: "disk full".to_string(),
    });
    match step.action {
        ChildLoopAction::Fail { error } => {
            let result = child_agent_outcome(Err(error));
            assert_eq!(result.status, RunStatus::Failed);
            assert_eq!(result.error.as_deref(), Some("disk full"));
        }
        other => panic!("unexpected {:?}", other),
    }
}

#[test]
fn fold_child_agent_tool_result_merges_cost_and_records_model_context() {
    let mut setup = setup();
    let request = tool_request("tool-1", "bash", "echo hi");
    let mut nested = CostTracker::new(Some("pro".to_string()));
    nested.add_usage(usage(10, 5, 0, 3));
    let mut tracker = tracker();

    let fold = fold_child_agent_tool_result(
        &mut setup,
        &request,
        false,
        tool_result("tool-1", ToolStatus::Completed, None, "hello from tool"),
        Some(nested),
        &mut tracker,
    );

    assert!(matches!(fold, ChildAgentToolResultFold::Continue));
    assert_eq!(
        tracker.totals(),
        UsageTotals {
            input_tokens: 10,
            output_tokens: 5,
            cache_tokens: 0,
            cost_usd_micros: 3,
        }
    );
    assert!(matches!(
        setup.conversation.messages.last(),
        Some(Message::Tool {
            tool_call_id,
            content,
            ..
        }) if tool_call_id == "tool-1" && content.contains("hello from tool")
    ));
}

#[test]
fn fold_child_agent_tool_result_turns_stop_into_failed_child_result() {
    let mut setup = setup();
    let request = tool_request("tool-1", "bash", "exit 1");

    let fold = fold_child_agent_tool_result(
        &mut setup,
        &request,
        true,
        tool_result(
            "tool-1",
            ToolStatus::Failed,
            Some("tool failed"),
            "error: tool failed",
        ),
        None,
        &mut tracker(),
    );

    match fold {
        ChildAgentToolResultFold::Stop(result) => {
            assert_eq!(result.status, RunStatus::Failed);
            assert_eq!(result.error.as_deref(), Some("tool failed"));
        }
        ChildAgentToolResultFold::Continue => panic!("should_stop should stop child execution"),
    }
    assert!(matches!(
        setup.conversation.messages.last(),
        Some(Message::Tool {
            tool_call_id,
            content,
            ..
        }) if tool_call_id == "tool-1" && content.contains("tool failed")
    ));
}

#[test]
fn fold_child_agent_tool_result_preserves_cancelled_child_result() {
    let mut setup = setup();
    let request = tool_request("tool-1", "bash", "sleep 30");

    let fold = fold_child_agent_tool_result(
        &mut setup,
        &request,
        true,
        tool_result(
            "tool-1",
            ToolStatus::Cancelled,
            Some("turn interrupted"),
            "turn interrupted",
        ),
        None,
        &mut tracker(),
    );

    match fold {
        ChildAgentToolResultFold::Stop(result) => {
            assert_eq!(result.status, RunStatus::Cancelled);
            assert_eq!(result.error.as_deref(), Some("turn interrupted"));
        }
        ChildAgentToolResultFold::Continue => panic!("should_stop should stop child execution"),
    }
}

#[test]
fn stopping_child_tool_result_closes_three_call_sibling_boundary() {
    let mut setup = setup();
    let tool_requests = ["tool-1", "tool-2", "tool-3"]
        .into_iter()
        .map(|id| tool_request(id, "bash", &format!("echo {}", id)))
        .collect::<Vec<_>>();
    let raw_calls = tool_requests
        .iter()
        .map(|request| raw_call(&request.id, &request.name, ""))
        .collect();
    setup
        .conversation
        .add_assistant(Some("run tools".to_string()), None, raw_calls);

    let fold = fold_child_agent_tool_result_and_close_siblings(
        &mut setup,
        &tool_requests,
        0,
        ChildAgentToolExecution {
            should_stop: true,
            result: tool_result(
                "tool-1",
                ToolStatus::Cancelled,
                Some("turn interrupted"),
                "turn interrupted",
            ),
            child_cost: None,
        },
        &mut tracker(),
    );

    assert!(matches!(
        fold,
        ChildAgentToolResultFold::Stop(ChildAgentResult {
            status: RunStatus::Cancelled,
            ..
        })
    ));
    let terminal_messages = setup
        .conversation
        .messages
        .iter()
        .filter_map(|message| match message {
            Message::Tool {
                tool_call_id,
                terminal: Some(terminal),
                ..
            } => Some((tool_call_id.as_str(), terminal)),
            _ => None,
        })
        .collect::<Vec<_>>();
    assert_eq!(terminal_messages.len(), 3);
    for (index, (tool_call_id, terminal)) in terminal_messages.iter().enumerate() {
        assert_eq!(*tool_call_id, tool_requests[index].id);
        assert_eq!(terminal.status, ToolStatus::Cancelled);
        assert_eq!(
            terminal.started,
            if index == 0 {
                ToolInvocationStarted::Yes
            } else {
                ToolInvocationStarted::No
            }
        );
    }
    assert!(!orca_runtime::conversation::conversation_has_open_tool_calls(
        &setup.conversation
    ));
}

#[test]
fn run_child_agent_preserves_cost_tracker_on_loop_error() {
    let (mut child, _) = start(tracker(), BudgetSpec::unlimited());
    skip_compaction(&mut child);
    let answer = response(
        vec![ProviderStep::Error("prompt is too long".to_string())],
        Some(usage(7, 3, 2, 0)),
    );
    let step = child.next(ChildLoopEvent::ModelTurn {
        model: "model".to_string(),
        turn: ChildAgentProviderTurn::Response(answer),
        prompt_too_long: true,
    });
    assert!(matches!(step.action, ChildLoopAction::Compact { .. }));
    let step = child.next(ChildLoopEvent::Failed {
        error: "child loop failed".to_string(),
    });
    let error = match step.action {
        ChildLoopAction::Fail { error } => error,
        other => panic!("a failed compaction ends the loop: {:?}", other),
    };
    let result = child_agent_outcome(Err(error));
    assert_eq!(result.status, RunStatus::Failed);
    assert_eq!(result.error.as_deref(), Some("child loop failed"));
    let tracker_debug = format!("{:?}", child.tracker);
    assert!(tracker_debug.contains("input_tokens: 7"));
    assert!(tracker_debug.contains("output_tokens: 3"));
    assert_eq!(child.tracker.totals().cache_tokens, 2);
}

#[test]
fn child_agent_tool_terminal_status_preserves_cancelled_and_unknown_outcomes() {
    assert_eq!(
        run_status_from_tool_status(ToolStatus::Cancelled),
        RunStatus::Cancelled
    );
    assert_eq!(
        run_status_from_tool_status(ToolStatus::Indeterminate),
        RunStatus::Failed
    );
}

fn emitter() -> ChildAgentActivityEmitter {
    ChildAgentActivityEmitter::new(SubagentActivityIdentity {
        task_id: "task-1".to_string(),
        subagent_id: "subagent-1".to_string(),
        attempt_id: AgentAttemptId::new(),
        owner: SubagentActivityOwner::DetachedTask {
            task_id: "task-1".to_string(),
            task_revision: 1,
            authority_digest: Sha256Digest::new([1; 32]),
        },
    })
}

fn started() -> SubagentActivityPayload {
    SubagentActivityPayload::Started {
        description: "inspect repository".to_string(),
        batch: None,
    }
}

#[test]
fn typed_emitter_retries_the_same_stable_event_after_sink_failure() {
    let mut emitter = emitter();
    let first = emitter.publish_payload(started(), 10);
    assert!(matches!(
        emitter.delivered(Err("injected delivery failure")),
        Err(ActivityDeliveryError::Sink("injected delivery failure"))
    ));
    let second = emitter.publish_payload(started(), 20);
    emitter.delivered(Ok::<(), &str>(())).unwrap();
    let third = emitter.publish_payload(
        SubagentActivityPayload::PhaseChanged {
            phase: SurfaceSubagentPhase::Thinking,
            turn: Some(1),
        },
        30,
    );
    emitter.delivered(Ok::<(), &str>(())).unwrap();

    assert_eq!(first.source_sequence, 1);
    assert_eq!(first.surface_commit_id, second.surface_commit_id);
    assert_eq!(first.occurred_at, second.occurred_at);
    assert_eq!(second.source_sequence, 1);
    assert_eq!(third.source_sequence, 2);
    assert_ne!(third.surface_commit_id, first.surface_commit_id);
    assert_eq!(first.surface_commit_id.len(), 36);
    let input = activity_digest_input(&first);
    assert_eq!(input.source_sequence, 1);
    assert_eq!(input.occurred_at, 10);
    assert_eq!(input.surface_commit_id, &first.surface_commit_id);
    let sealed = SealedActivityEvent::seal(first, Sha256Digest::new([1; 32]));
    assert!(sealed.verify_digest(Sha256Digest::new([1; 32])));
    assert!(!sealed.verify_digest(Sha256Digest::new([2; 32])));
    assert_eq!(sealed.event.source_sequence, 1);
}

#[test]
fn exhausted_sequences_are_reported() {
    let mut emitter = emitter();
    emitter.next_sequence = u64::MAX;
    emitter.publish_payload(started(), 0);
    let error = emitter.delivered(Ok::<(), &str>(())).unwrap_err();
    assert_eq!(
        error.own_message(),
        Some("child activity source sequence overflow")
    );
    assert!(emitter.pending.is_some());
}

#[test]
fn streaming_is_throttled() {
    let mut throttle = StreamingThrottle::new();
    let streaming = ChildAgentActivity::Streaming;
    assert!(throttle.lets_through(&streaming, 1_000));
    assert!(!throttle.lets_through(&streaming, 1_249));
    assert!(throttle.lets_through(&ChildAgentActivity::TurnStarted { turn: 1 }, 1_249));
    assert!(throttle.lets_through(&streaming, 1_250));
    let mut emitter = emitter();
    assert!(emitter
        .publish_activity(ChildAgentActivity::Streaming, 0, 0)
        .is_some());
    emitter.delivered(Ok::<(), &str>(())).unwrap();
    assert!(emitter
        .publish_activity(ChildAgentActivity::Streaming, 249, 0)
        .is_none());
}

#[test]
fn completed_tools_show_their_status() {
    let shown = |status| match ChildAgentActivityEmitter::payload_for(
        ChildAgentActivity::ToolCompleted {
            call_id: "c".to_string(),
            name: "bash".to_string(),
            status,
        },
    ) {
        SubagentActivityPayload::ToolCompleted { status, .. } => status,
        other => panic!("unexpected {:?}", other),
    };
    assert_eq!(shown(RunStatus::Success), SurfaceToolTerminalStatus::Success);
    assert_eq!(
        shown(RunStatus::Cancelled),
        SurfaceToolTerminalStatus::Cancelled
    );
    assert_eq!(
        shown(RunStatus::ApprovalRequired),
        SurfaceToolTerminalStatus::Failed
    );
}

fn texts(list: &[&str]) -> Vec<String> {
    list.iter().map(|text| text.to_string()).collect()
}

fn role(tools: &[&str]) -> Option<RoleDescriptor> {
    Some(RoleDescriptor {
        tools: texts(tools),
    })
}

#[test]
fn role_ceilings_are_only_narrowed() {
    let mut narrowed = request("go");
    narrowed.allowed_tools = Some(texts(&["grep", "write"]));
    let prepared =
        prepare_child_agent_request(narrowed, &None, "general", &role(&["bash", "grep"])).unwrap();
    assert_eq!(prepared.allowed_tools, Some(texts(&["grep"])));
    assert_eq!(
        prepared.tool_policy_label.as_deref(),
        Some("role 'general' tool policy")
    );

    let mut workflow = request("go");
    workflow.workflow_ipc = true;
    workflow.tool_policy_label = Some("mine".to_string());
    let prepared =
        prepare_child_agent_request(workflow, &None, "general", &role(&["bash"])).unwrap();
    let allowed = prepared.allowed_tools.unwrap();
    assert_eq!(allowed.len(), 8);
    assert_eq!(allowed[1], "workflow_send_message");
    assert_eq!(prepared.tool_policy_label.as_deref(), Some("mine"));
    assert!(role_tool_ceiling(&None).is_empty());
}

fn custom(name: &str) -> ChildAgentRequest {
    ChildAgentRequest::new(
        "go".to_string(),
        SubagentType::Custom(name.to_string()),
        Some("requested".to_string()),
        1,
        false,
    )
}

#[test]
fn custom_agents_need_their_frozen_definition() {
    let definition = |fault: Option<&str>| {
        Some(AgentDefinition {
            name: "inspector".to_string(),
            allowed_tools: texts(&["grep", "bash"]),
            model: Some("pro".to_string()),
            fault: fault.map(|fault| fault.to_string()),
        })
    };
    let refused = |request, definition: Option<AgentDefinition>| {
        prepare_child_agent_request(request, &definition, "custom", &None)
            .unwrap_err()
            .error
            .unwrap()
    };
    assert_eq!(
        refused(custom("inspector"), None),
        "custom agent requires a matching frozen definition"
    );
    assert_eq!(
        refused(custom("other"), definition(None)),
        "custom agent requires a matching frozen definition"
    );
    assert_eq!(
        refused(custom("inspector"), definition(Some("no tools"))),
        "no tools"
    );
    let mut request = custom("inspector");
    request.allowed_tools = Some(texts(&["bash"]));
    let prepared =
        prepare_child_agent_request(request, &definition(None), "custom", &None).unwrap();
    assert_eq!(prepared.allowed_tools, Some(texts(&["bash"])));
    assert_eq!(prepared.model.as_deref(), Some("pro"));
    assert_eq!(
        prepared.tool_policy_label.as_deref(),
        Some("custom agent 'inspector'")
    );
}

#[test]
fn fresh_requests_need_no_checkpoint() {
    let entry = |id: &str| FragmentEntry {
        id: id.to_string(),
        max_tokens: 1,
    };
    let inputs = RestoreInputs {
        normalized: vec![],
        repair: ToolTerminal {
            status: ToolStatus::Indeterminate,
            kind: ToolResultKind::Indeterminate,
            source: ToolTerminalSource::Repaired,
            started: ToolInvocationStarted::Unknown,
        },
        catalog: FragmentCatalog {
            runtime: entry("runtime"),
            mode: entry("mode"),
            goal: entry("goal"),
            plan: entry("plan"),
            skill: entry("skill"),
            memory: entry("memory"),
        },
    };
    let setup =
        try_prepare_child_agent_loop(&request("inspect repo"), "system".to_string(), &inputs)
            .unwrap();
    assert_eq!(setup.turn, 0);
    assert_eq!(setup.restored_next_turn, None);
    assert_eq!(setup.conversation.messages.len(), 2);
}
