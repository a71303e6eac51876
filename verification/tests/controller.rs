use std::sync::atomic::Ordering;
use std::sync::Arc;

use orca_runtime::agent_continuation::canonical_json::JsonValue;
use orca_runtime::agent_continuation::ids::{AgentAttemptId, Sha256Digest};
use orca_runtime::agent_controller::{
    child_thread_bound, observe, pinned_child_context, publish_surface_terminal,
    settle_operation, AgentLaunch, AgentRunMode, EventType, LaunchAction, LaunchError,
    LaunchErrorKind, LaunchEvent, OperationOutcome, ThreadSnapshot,
};
use orca_runtime::agent_loop::{
    execute_child_agent_loop, finalize_agent_loop, journals_durably, AgentLoopOutcome,
    AgentLoopResult,
};
use orca_runtime::agent_registry::UsageTotals;
use orca_runtime::budget::{BudgetUsage, OperationTerminal, StopReason};
use orca_runtime::child_agent_types::{
    ChildAgentActivity, ChildAgentActivityEmitter, SubagentActivityEvent,
    SubagentActivityIdentity, SubagentActivityOwner, SubagentActivityPayload, SubagentBatch,
    SurfaceSubagentTerminalStatus,
};
use orca_runtime::command::config::{HistoryMode, OutputFormat};
use orca_runtime::controller::headless::{
    continuation_hint, fail_closed_headless_answer, headless_answer_matches,
    headless_chunk_contains_session_started, headless_operation_exit_code,
    headless_operation_status, notification_text, settle_headless_answer, AnswerPoll, HeadlessInteractionCheckpoint,
    HeadlessInteractionHandler, HeadlessInteractionTransport, HeadlessRelay,
    HostedEventRelayWriter, RelayAction, RelayError, RelayErrorKind, RelayEvent, SurfaceAllowDeny,
    SurfaceClientInteractionAnswer, SurfaceFailureClass, SurfaceInteractionRequest,
    SurfaceMcpElicitationDecision, SurfaceOperationTerminal, SurfacePermissionClientDecision,
    SurfaceUserInputDecision,
};
use orca_runtime::controller::turn::{
    add_task_usage, task_usage_delta, CommitAction, CommitEvent, ExecutionAction, ExecutionEvent,
    MainSessionTerminalUpdate, PreparedThreadTurn, PreparedThreadTurnOutcome,
    RuntimeBackgroundWorkflows, SessionCompletedForm, ThreadTurnCommit, ThreadTurnCompletion,
    ThreadTurnMainSessionTask, ThreadTurnOutcome, TurnEndReason, TurnError, TurnErrorKind,
    TurnLoopResult, VerificationResult,
};
use orca_runtime::controller::turn_request::{
    drain_terminal_notifications, plan_turn, run_prompt, AgentToolPolicyContext,
    ControllerRunOptions, ThreadTurnContext, ThreadTurnPromptPlacement, ThreadTurnRequest,
    ThreadTurnToolMode,
};
use orca_runtime::conversation::{Conversation, Message};
use orca_runtime::runtime_types::RunStatus;

#[test]
fn agent_tool_policy_context_groups_child_tool_policy() {
    let allowed_tools = vec!["read".to_string(), "edit".to_string()];
    let context = AgentToolPolicyContext::new(
        Some(allowed_tools.clone()),
        Some("review-only".to_string()),
    );

    assert_eq!(
        context.allowed_tools().as_ref().unwrap().as_slice(),
        allowed_tools.as_slice()
    );
    assert_eq!(context.label().as_deref(), Some("review-only"));
}

#[test]
fn tool_modes_select_policies() {
    assert!(!ThreadTurnToolMode::Standard.policy().goal_mode);
    assert!(ThreadTurnToolMode::Goal.policy().goal_mode);
    assert!(ThreadTurnToolMode::Goal.policy().allowed_tools.is_none());
}

fn turn_request(prompt: &str) -> ThreadTurnRequest {
    ThreadTurnRequest::new("turn".to_string(), prompt.to_string())
}

#[test]
fn existing_turn_request_does_not_append_user_prompt_again() {
    let count = |conversation: &Conversation| {
        conversation
            .messages
            .iter()
            .filter(|message| {
                matches!(message, Message::User { content, .. } if content == "original prompt")
            })
            .count()
    };
    let mut conversation = Conversation::new();
    ThreadTurnContext::prepare(
        None,
        "/here".to_string(),
        &turn_request("original prompt"),
        0,
        &mut conversation,
        Ok::<(), String>(()),
    )
    .unwrap();
    assert_eq!(count(&conversation), 1);
    let request = turn_request("original prompt").with_existing_turn_prompt();
    let context = ThreadTurnContext::prepare(
        None,
        "/here".to_string(),
        &request,
        3,
        &mut conversation,
        Ok::<(), String>(()),
    )
    .unwrap();
    assert_eq!(context.cwd(), "/here");
    assert_eq!(context.prompt(), "original prompt");
    assert_eq!(context.memory_start, 3);
    assert_eq!(count(&conversation), 1);
    assert_eq!(conversation.messages.len(), 1);
    let plan = plan_turn(&request, true, &HistoryMode::Record);
    assert!(plan.existing_turn && !plan.waits_for_memory && plan.recalls_memory);
    assert!(!plan_turn(&request, true, &HistoryMode::Disabled).recalls_memory);
}

#[test]
fn hosted_turn_does_not_commit_user_prompt_when_history_append_fails() {
    let mut conversation = Conversation::new();
    let refused = ThreadTurnContext::prepare(
        Some("/repo".to_string()),
        "/here".to_string(),
        &turn_request("must not enter model context"),
        0,
        &mut conversation,
        Err("disk full".to_string()),
    );
    assert_eq!(refused.unwrap_err(), "disk full");
    assert!(conversation.messages.is_empty());
}

#[test]
fn prompts_are_placed_as_asked() {
    let place = |placement| {
        let mut conversation = Conversation::new();
        let request = turn_request("hello")
            .with_prompt_placement(placement)
            .with_images(vec!["image".to_string()]);
        ThreadTurnContext::prepare(
            None,
            "/".to_string(),
            &request,
            0,
            &mut conversation,
            Ok::<(), String>(()),
        )
        .unwrap();
        conversation.messages.pop().unwrap()
    };
    assert!(matches!(
        place(ThreadTurnPromptPlacement::BacktrackableUser),
        Message::User { pinned: false, ref images, .. } if images.len() == 1
    ));
    assert!(matches!(
        place(ThreadTurnPromptPlacement::PinnedUser),
        Message::User { pinned: true, .. }
    ));
    assert!(matches!(
        place(ThreadTurnPromptPlacement::PinnedSystem),
        Message::System { pinned: true, ref content } if content == "hello"
    ));
}

#[test]
fn requests_are_built_step_by_step() {
    let request = turn_request("p")
        .with_turn_id("other".to_string())
        .with_options(ControllerRunOptions::for_run_config(OutputFormat::Text))
        .with_tool_mode(ThreadTurnToolMode::Goal)
        .with_goal_turn_origin("user".to_string())
        .with_main_session_task_id("task".to_string())
        .with_root_task_id("root".to_string())
        .with_session_completed_event(false)
        .with_deferred_cancel_terminal(true);
    assert_eq!(request.turn_id(), "other");
    assert_eq!(request.prompt(), "p");
    assert!(!request.options().wait_for_background_workflows);
    assert_eq!(request.tool_mode(), ThreadTurnToolMode::Goal);
    assert_eq!(request.goal_turn_origin().as_deref(), Some("user"));
    assert_eq!(request.main_session_task_id().as_deref(), Some("task"));
    assert_eq!(request.root_task_id().as_deref(), Some("root"));
    assert!(!request.emit_session_completed());
    assert!(request.defer_cancel_terminal);
    assert!(request.images().is_empty());
    let waiting = request.with_wait_for_background_workflows(true);
    assert!(waiting.options.wait_for_background_workflows);
    assert!(ControllerRunOptions::default().wait_for_background_workflows);
    assert!(
        ControllerRunOptions::for_run_config(OutputFormat::Jsonl).wait_for_background_workflows
    );
}

#[test]
fn terminal_completions_are_told_in_order() {
    let mut conversation = Conversation::new();
    drain_terminal_notifications(
        &mut conversation,
        &vec!["one".to_string(), "two".to_string()],
    );
    assert_eq!(conversation.messages.len(), 2);
    assert!(matches!(
        &conversation.messages[1],
        Message::System { content, pinned: true } if content == "two"
    ));
}

#[test]
fn headless_prompts_are_trimmed() {
    assert_eq!(run_prompt("  do it \n"), "do it");
    assert_eq!(run_prompt(" \t\n"), "(empty prompt)");
    assert_eq!(run_prompt(""), "(empty prompt)");
}

fn totals(n: u64) -> UsageTotals {
    UsageTotals {
        input_tokens: n,
        output_tokens: n + 1,
        cache_tokens: n + 2,
        cost_usd_micros: n + 3,
    }
}

#[test]
fn task_usage_is_counted_from_the_start_of_the_turn() {
    let delta = task_usage_delta(totals(10), totals(14));
    assert_eq!(delta.input_tokens, 4);
    assert_eq!(delta.cost_usd_micros, 4);
    assert_eq!(task_usage_delta(totals(14), totals(10)).output_tokens, 0);
    assert_eq!(add_task_usage(totals(1), delta).input_tokens, 5);

    let task = ThreadTurnMainSessionTask::from_request(
        &Some("task".to_string()),
        totals(10),
        Some(totals(100)),
    )
    .unwrap();
    let (update, usage) = task.finish(RunStatus::Failed, &None, totals(12));
    assert!(matches!(
        update,
        MainSessionTerminalUpdate::Failed { ref error } if error == "failed"
    ));
    assert_eq!(usage.input_tokens, 102);
    let (update, _) = task.finish(RunStatus::Cancelled, &Some("x".to_string()), totals(12));
    assert!(matches!(
        update,
        MainSessionTerminalUpdate::Stopped { ref reason } if reason == "cancelled"
    ));
    let (update, _) = task.finish(RunStatus::Success, &None, totals(12));
    assert!(matches!(
        update,
        MainSessionTerminalUpdate::Completed { ref result } if result == "success"
    ));
    let known = vec!["other".to_string(), "task".to_string()];
    assert_eq!(task.find_current(&known).unwrap(), 1);
    let error = task.find_current(&vec![]).unwrap_err();
    assert_eq!(error.kind, TurnErrorKind::NotFound);
    assert_eq!(error.message, "main-session task 'task' not found");
}

#[test]
fn background_workflows_are_counted() {
    let workflows = RuntimeBackgroundWorkflows::from_vec(vec!["a", "b"]);
    assert_eq!(workflows.len(), 2);
    assert!(!workflows.is_empty());
    assert_eq!(workflows.into_inner(), vec!["a", "b"]);
    let none: RuntimeBackgroundWorkflows<&str> = RuntimeBackgroundWorkflows::default();
    assert!(none.is_empty());
}

fn terminal() -> OperationTerminal {
    OperationTerminal::Completed {
        usage: BudgetUsage::zero(),
    }
}

fn looped(status: RunStatus) -> ExecutionEvent {
    ExecutionEvent::Looped {
        result: TurnLoopResult {
            status,
            reason: TurnEndReason::Classified("assistant finished".to_string()),
            error: None,
            terminal: terminal(),
        },
    }
}

fn check_command() -> Option<String> {
    Some("cargo test".to_string())
}

#[test]
fn a_failed_verification_changes_the_status_and_its_reason() {
    let (turn, action) = PreparedThreadTurn::start(false, false, check_command());
    assert!(matches!(action, ExecutionAction::RunLoop));
    let (turn, action) = turn.execute(looped(RunStatus::Success));
    assert!(matches!(
        action,
        ExecutionAction::FinishLifecycle {
            status: RunStatus::Success
        }
    ));
    let (turn, action) = turn.execute(ExecutionEvent::Done);
    assert!(matches!(
        action,
        ExecutionAction::EmitVerificationStarted { ref command } if command == "cargo test"
    ));
    let (turn, action) = turn.execute(ExecutionEvent::Done);
    assert!(matches!(action, ExecutionAction::RunVerifier { .. }));
    let (turn, action) = turn.execute(ExecutionEvent::Verified {
        result: VerificationResult {
            success: false,
            detail: "1 failed".to_string(),
        },
    });
    assert!(matches!(action, ExecutionAction::EmitVerificationCompleted));
    let (_, action) = turn.execute(ExecutionEvent::Done);
    match action {
        ExecutionAction::Return {
            result: Ok(PreparedThreadTurnOutcome::Completed(completion)),
        } => {
            assert_eq!(completion.status, RunStatus::VerificationFailed);
            assert!(matches!(completion.end_reason, TurnEndReason::Unclassified));
            assert!(!completion.verification.unwrap().success);
        }
        other => panic!("unexpected {:?}", other),
    }
}

#[test]
fn only_successful_turns_are_verified() {
    let (turn, _) = PreparedThreadTurn::start(false, true, check_command());
    let (turn, _) = turn.execute(looped(RunStatus::Cancelled));
    let (turn, action) = turn.execute(ExecutionEvent::Done);
    assert!(matches!(action, ExecutionAction::ObserveWorkflows));
    let (_, action) = turn.execute(ExecutionEvent::Done);
    match action {
        ExecutionAction::Return {
            result: Ok(PreparedThreadTurnOutcome::Completed(completion)),
        } => {
            assert_eq!(completion.status, RunStatus::Cancelled);
            assert!(completion.verification.is_none());
            assert!(matches!(
                completion.end_reason,
                TurnEndReason::Classified(_)
            ));
        }
        other => panic!("unexpected {:?}", other),
    }
}

fn broken(message: &str) -> TurnError {
    TurnError {
        kind: TurnErrorKind::Other,
        message: message.to_string(),
    }
}

#[test]
fn failing_turns_close_their_task_first() {
    let (turn, action) = PreparedThreadTurn::start(true, false, None);
    assert!(matches!(action, ExecutionAction::EmitTask));
    let (turn, _) = turn.execute(ExecutionEvent::Done);
    let (turn, action) = turn.execute(ExecutionEvent::Failed {
        error: broken("provider gone"),
    });
    assert!(matches!(
        action,
        ExecutionAction::FailTask { ref error, emit: true } if error == "provider gone"
    ));
    let (_, action) = turn.execute(ExecutionEvent::Done);
    assert!(matches!(
        action,
        ExecutionAction::Return { result: Err(ref e) } if e.message == "provider gone"
    ));

    let (turn, _) = PreparedThreadTurn::start(true, false, None);
    let (turn, action) = turn.execute(ExecutionEvent::Failed {
        error: broken("sink closed"),
    });
    assert!(matches!(
        action,
        ExecutionAction::FailTask { emit: false, .. }
    ));
    let (_, action) = turn.execute(ExecutionEvent::Failed {
        error: broken("registry closed"),
    });
    assert!(matches!(
        action,
        ExecutionAction::Return { result: Err(ref e) } if e.message == "registry closed"
    ));
}

#[test]
fn suspended_turns_are_handed_out() {
    let (turn, _) = PreparedThreadTurn::start(false, false, None);
    let (_, action) = turn.execute(ExecutionEvent::Suspended);
    assert!(matches!(
        action,
        ExecutionAction::Return {
            result: Ok(PreparedThreadTurnOutcome::ProviderSuspended)
        }
    ));
    let suspended: ThreadTurnOutcome<&str, u8> = ThreadTurnOutcome::ProviderSuspended {
        suspension: 7,
        background_workflows: RuntimeBackgroundWorkflows::from_vec(vec!["a"]),
    };
    let (workflows, status) = suspended.into_completed();
    assert_eq!(workflows.into_inner(), vec!["a"]);
    assert_eq!(
        status.unwrap_err(),
        "provider turn suspended without a suspension-aware caller"
    );
}

fn completion(status: RunStatus, terminal: Option<OperationTerminal>) -> ThreadTurnCompletion {
    ThreadTurnCompletion {
        status,
        end_reason: TurnEndReason::Unclassified,
        error: None,
        terminal,
        verification: None,
    }
}

#[test]
fn committed_turns_keep_what_they_ended_with() {
    let mut ended = completion(
        RunStatus::Success,
        Some(OperationTerminal::Completed {
            usage: BudgetUsage::zero(),
        }),
    );
    ended.end_reason = TurnEndReason::Classified("done".to_string());
    ended.verification = Some(VerificationResult {
        success: true,
        detail: "ok".to_string(),
    });
    let (commit, _) = ThreadTurnCommit::start(ended, false, true);
    let workflows = RuntimeBackgroundWorkflows::from_vec(vec!["a"]);
    let outcome: Result<ThreadTurnOutcome<&str, u8>, TurnError> =
        commit.into_outcome(Ok(RunStatus::Success), workflows);
    match outcome.unwrap() {
        ThreadTurnOutcome::Completed {
            status,
            end_reason,
            background_workflows,
            terminal,
            verification,
        } => {
            assert_eq!(status, RunStatus::Success);
            assert!(matches!(end_reason, TurnEndReason::Classified(ref e) if e == "done"));
            assert_eq!(background_workflows.len(), 1);
            assert!(matches!(terminal, Some(OperationTerminal::Completed { .. })));
            assert_eq!(verification.unwrap().detail, "ok");
        }
        ThreadTurnOutcome::ProviderSuspended { .. } => panic!("the turn was completed"),
    }
    let (commit, _) = ThreadTurnCommit::start(completion(RunStatus::Failed, None), false, true);
    let workflows: RuntimeBackgroundWorkflows<&str> = RuntimeBackgroundWorkflows::from_vec(vec![]);
    let outcome: Result<ThreadTurnOutcome<&str, u8>, TurnError> =
        commit.into_outcome(Err(broken("output closed")), workflows);
    assert!(matches!(outcome, Err(e) if e.message == "output closed"));
}

#[test]
fn verification_failed_turn_does_not_record_automatic_memory() {
    let (turn, _) = PreparedThreadTurn::start(false, false, Some("exit 9".to_string()));
    let (turn, _) = turn.execute(looped(RunStatus::Success));
    let (turn, action) = turn.execute(ExecutionEvent::Done);
    assert!(matches!(
        action,
        ExecutionAction::EmitVerificationStarted { ref command } if command == "exit 9"
    ));
    let (turn, _) = turn.execute(ExecutionEvent::Done);
    let (turn, _) = turn.execute(ExecutionEvent::Verified {
        result: VerificationResult {
            success: false,
            detail: "exit status 9".to_string(),
        },
    });
    let completion = match turn.execute(ExecutionEvent::Done).1 {
        ExecutionAction::Return {
            result: Ok(PreparedThreadTurnOutcome::Completed(completion)),
        } => completion,
        _ => panic!("a verified turn is completed"),
    };
    assert_eq!(completion.status, RunStatus::VerificationFailed);
    let (commit, action) = ThreadTurnCommit::start(completion, false, true);
    assert!(matches!(action, CommitAction::CompleteWithStatus));
    let (commit, action) = commit.commit(CommitEvent::TranscriptEnded { committed: true });
    assert!(matches!(
        action,
        CommitAction::EmitSessionCompleted {
            form: SessionCompletedForm::VerifiedStatus
        }
    ));
    let (_, action) = commit.commit(CommitEvent::Done);
    assert!(matches!(
        action,
        CommitAction::Return {
            result: Ok(RunStatus::VerificationFailed)
        }
    ));
}

#[test]
fn budget_stops_are_committed_by_their_terminal() {
    let stopped = OperationTerminal::Stopped {
        reason: StopReason::TurnBudget { max_turns: 1 },
        usage: BudgetUsage::zero(),
        checkpoint_id: "cp".to_string(),
        resumable: true,
    };
    let (commit, action) = ThreadTurnCommit::start(
        completion(RunStatus::VerificationFailed, Some(stopped)),
        true,
        true,
    );
    assert!(matches!(action, CommitAction::CompleteWithTerminal));
    let (commit, action) = commit.commit(CommitEvent::TranscriptEnded { committed: false });
    assert!(matches!(action, CommitAction::FinishTask));
    let (commit, action) = commit.commit(CommitEvent::Done);
    assert!(matches!(action, CommitAction::EmitAllTasks));
    let (commit, action) = commit.commit(CommitEvent::Done);
    assert!(matches!(
        action,
        CommitAction::EmitSessionCompleted {
            form: SessionCompletedForm::Terminal
        }
    ));
    let (commit, action) = commit.commit(CommitEvent::Done);
    assert!(matches!(
        action,
        CommitAction::CheckMemory {
            transcript_committed: false
        }
    ));
    let (commit, action) = commit.commit(CommitEvent::MemoryChecked { eligible: true });
    assert!(matches!(action, CommitAction::EnqueueMemory));
    let (_, action) = commit.commit(CommitEvent::Failed {
        error: broken("extraction failed"),
    });
    assert!(matches!(
        action,
        CommitAction::Return {
            result: Ok(RunStatus::VerificationFailed)
        }
    ));
}

#[test]
fn failed_commits_pass_their_error_on() {
    let (commit, action) =
        ThreadTurnCommit::start(completion(RunStatus::Success, None), true, false);
    assert!(matches!(action, CommitAction::CompleteWithStatus));
    let (commit, _) = commit.commit(CommitEvent::TranscriptEnded { committed: true });
    let (_, action) = commit.commit(CommitEvent::Failed {
        error: broken("sink closed"),
    });
    assert!(matches!(
        action,
        CommitAction::Return { result: Err(ref e) } if e.message == "sink closed"
    ));
}

fn checkpoint(request: SurfaceInteractionRequest) -> HeadlessInteractionCheckpoint {
    HeadlessInteractionCheckpoint {
        selector: "question".to_string(),
        request,
    }
}

#[test]
fn unanswered_questions_grant_nothing() {
    assert!(matches!(
        fail_closed_headless_answer(&checkpoint(SurfaceInteractionRequest::ToolApproval)),
        Ok(SurfaceClientInteractionAnswer::ToolApproval {
            decision: SurfaceAllowDeny::Deny
        })
    ));
    let asked = checkpoint(SurfaceInteractionRequest::PermissionRequest {
        permissions: "net".to_string(),
    });
    match fail_closed_headless_answer(&asked) {
        Ok(SurfaceClientInteractionAnswer::PermissionRequest {
            decision:
                SurfacePermissionClientDecision::Deny {
                    permissions,
                    strict_auto_review: false,
                    ..
                },
        }) => assert_eq!(permissions, "net"),
        other => panic!("unexpected {:?}", other),
    }
    assert!(matches!(
        fail_closed_headless_answer(&checkpoint(SurfaceInteractionRequest::UserInput)),
        Ok(SurfaceClientInteractionAnswer::UserInput {
            decision: SurfaceUserInputDecision::Cancel
        })
    ));
    assert!(matches!(
        fail_closed_headless_answer(&checkpoint(SurfaceInteractionRequest::McpElicitation)),
        Ok(SurfaceClientInteractionAnswer::McpElicitation {
            decision: SurfaceMcpElicitationDecision::Decline
        })
    ));
    let error =
        fail_closed_headless_answer(&checkpoint(SurfaceInteractionRequest::BackgroundApproval))
            .unwrap_err();
    assert_eq!(error.kind, RelayErrorKind::InvalidData);
    assert_eq!(
        error.message,
        "Headless transport does not accept background approvals"
    );
}

fn approve() -> SurfaceClientInteractionAnswer {
    SurfaceClientInteractionAnswer::ToolApproval {
        decision: SurfaceAllowDeny::Allow,
    }
}

struct Approver;

impl HeadlessInteractionHandler for Approver {
    fn handle(
        &self,
        _checkpoint: &HeadlessInteractionCheckpoint,
    ) -> Result<SurfaceClientInteractionAnswer, String> {
        Ok(approve())
    }
}

#[test]
fn answers_must_fit_their_question() {
    let approval = checkpoint(SurfaceInteractionRequest::ToolApproval);
    let input = checkpoint(SurfaceInteractionRequest::UserInput);
    assert!(headless_answer_matches(&approval, &approve()));
    assert!(!headless_answer_matches(&input, &approve()));
    let transport = HeadlessInteractionTransport::new(Approver);
    assert_eq!(transport.timeout_ms, 30_000);
    let transport = transport.with_timeout(5);
    assert_eq!(transport.timeout_ms, 5);
    assert!(!transport.callback_in_flight.load(Ordering::Acquire));
    assert!(!transport.callback_unavailable.load(Ordering::Acquire));
    let shared = transport.clone().with_timeout(9);
    shared.callback_unavailable.store(true, Ordering::Release);
    assert!(transport.callback_unavailable.load(Ordering::Acquire));
    assert!(Arc::ptr_eq(&transport.handler, &shared.handler));
    assert!(Arc::ptr_eq(
        &transport.callback_in_flight,
        &shared.callback_in_flight
    ));
    assert_eq!(transport.timeout_ms, 5);
    assert!(matches!(
        transport.answer(&approval),
        Ok(SurfaceClientInteractionAnswer::ToolApproval {
            decision: SurfaceAllowDeny::Allow
        })
    ));
    assert!(matches!(
        transport.answer(&input),
        Ok(SurfaceClientInteractionAnswer::UserInput {
            decision: SurfaceUserInputDecision::Cancel
        })
    ));
}

#[test]
fn failed_handlers_grant_nothing() {
    let settle = |request| {
        settle_headless_answer(&checkpoint(request), Err("handler failed".to_string()))
    };
    assert!(matches!(
        settle(SurfaceInteractionRequest::ToolApproval),
        Ok(SurfaceClientInteractionAnswer::ToolApproval {
            decision: SurfaceAllowDeny::Deny
        })
    ));
    assert!(matches!(
        settle(SurfaceInteractionRequest::BackgroundApproval),
        Err(RelayError {
            kind: RelayErrorKind::InvalidData,
            ..
        })
    ));
    assert!(matches!(
        settle_headless_answer(
            &checkpoint(SurfaceInteractionRequest::ToolApproval),
            Ok(approve())
        ),
        Ok(SurfaceClientInteractionAnswer::ToolApproval {
            decision: SurfaceAllowDeny::Allow
        })
    ));
}

#[test]
fn handlers_that_were_given_up_are_not_asked_by_later_runs() {
    let ask = |relay: HeadlessRelay, callback_unavailable, callback_in_flight| {
        relay
            .drain_headless_events(RelayEvent::Interaction {
                checkpoint: Some(checkpoint(SurfaceInteractionRequest::UserInput)),
                callback_unavailable,
                callback_in_flight,
            })
            .1
    };
    let start = |callback_unavailable| HeadlessRelay::start(true, callback_unavailable, false).0;
    assert!(matches!(
        ask(start(false), false, false),
        RelayAction::SpawnCallback { .. }
    ));
    for declined in [
        ask(start(true), false, false),
        ask(start(false), true, false),
        ask(start(false), false, true),
    ] {
        assert!(matches!(
            declined,
            RelayAction::Respond {
                answer: SurfaceClientInteractionAnswer::UserInput {
                    decision: SurfaceUserInputDecision::Cancel
                },
                ..
            }
        ));
    }
}

#[test]
fn session_starts_are_found_by_line() {
    let found = |text: &str| headless_chunk_contains_session_started(&text.as_bytes().to_vec());
    assert!(found("{\"type\":\"session.started\"}\n"));
    assert!(found(
        "{\"type\":\"other\"}\r\n\n  {\"a\":1, \"type\" : \"session.started\"}"
    ));
    assert!(!found("{\"type\":\"session.completed\"}\n"));
    assert!(!found("session.started\n"));
    assert!(!found(""));
    assert!(!headless_chunk_contains_session_started(&vec![0xff, 0xfe]));
}

fn started() -> Vec<u8> {
    b"{\"type\":\"session.started\"}\n".to_vec()
}

#[test]
fn the_session_start_is_relayed_first() {
    let (relay, action) = HeadlessRelay::start(false, false, true);
    assert!(matches!(action, RelayAction::ReceiveChunk));
    let (relay, action) = relay.drain_headless_events(RelayEvent::Chunk {
        bytes: Some(b"{\"type\":\"early\"}\n".to_vec()),
    });
    assert!(matches!(
        action,
        RelayAction::Acknowledge { result: Ok(()) }
    ));
    let (relay, action) = relay.drain_headless_events(RelayEvent::Done);
    assert!(matches!(action, RelayAction::ReceiveChunk));
    let (relay, action) = relay.drain_headless_events(RelayEvent::Chunk {
        bytes: Some(started()),
    });
    assert!(matches!(action, RelayAction::Write { ref bytes } if *bytes == started()));
    let (relay, action) = relay.drain_headless_events(RelayEvent::Done);
    match action {
        RelayAction::WriteAll { chunks } => {
            assert_eq!(chunks, vec![b"{\"type\":\"early\"}\n".to_vec()])
        }
        other => panic!("unexpected {:?}", other),
    }
    let (relay, action) = relay.drain_headless_events(RelayEvent::Done);
    assert!(matches!(action, RelayAction::Acknowledge { .. }));
    let (relay, action) = relay.drain_headless_events(RelayEvent::Done);
    assert!(matches!(action, RelayAction::PollTerminal));
    let (_, action) = relay.drain_headless_events(RelayEvent::Terminal {
        terminal: Some(SurfaceOperationTerminal::Succeeded),
    });
    assert!(matches!(
        action,
        RelayAction::Return {
            result: Ok(SurfaceOperationTerminal::Succeeded)
        }
    ));
}

#[test]
fn headless_controller_propagates_borrowed_writer_failure() {
    let (relay, _) = HeadlessRelay::start(false, false, true);
    let (relay, action) = relay.drain_headless_events(RelayEvent::Chunk {
        bytes: Some(b"{\"type\":\"session.started\"}\n".to_vec()),
    });
    assert!(matches!(action, RelayAction::Write { .. }));
    let (relay, action) = relay.drain_headless_events(RelayEvent::Failed {
        error: RelayError {
            kind: RelayErrorKind::BrokenPipe,
            message: "borrowed writer disconnected".to_string(),
        },
    });
    assert!(matches!(
        action,
        RelayAction::Acknowledge { result: Err(ref e) } if e.message == "borrowed writer disconnected"
    ));
    let (_, action) = relay.drain_headless_events(RelayEvent::Done);
    assert!(matches!(
        action,
        RelayAction::Return { result: Err(ref e) }
            if e.kind == RelayErrorKind::BrokenPipe && e.message == "borrowed writer disconnected"
    ));
}

#[test]
fn slow_callbacks_are_not_asked_again() {
    let question = || RelayEvent::Interaction {
        checkpoint: Some(checkpoint(SurfaceInteractionRequest::ToolApproval)),
        callback_unavailable: false,
        callback_in_flight: false,
    };
    let (relay, action) = HeadlessRelay::start(true, false, false);
    assert!(matches!(action, RelayAction::PollInteraction));
    let (relay, action) = relay.drain_headless_events(question());
    assert!(matches!(action, RelayAction::SpawnCallback { .. }));
    let (relay, action) = relay.drain_headless_events(RelayEvent::Answer {
        poll: AnswerPoll::Waiting { expired: false },
    });
    assert!(matches!(action, RelayAction::ReceiveChunk));
    let (relay, action) = relay.drain_headless_events(RelayEvent::Chunk { bytes: None });
    assert!(matches!(action, RelayAction::PollTerminal));
    let (relay, action) = relay.drain_headless_events(RelayEvent::Terminal { terminal: None });
    assert!(matches!(action, RelayAction::PollAnswer));
    let (relay, action) = relay.drain_headless_events(RelayEvent::Answer {
        poll: AnswerPoll::Waiting { expired: true },
    });
    assert!(matches!(
        action,
        RelayAction::Respond {
            answer: SurfaceClientInteractionAnswer::ToolApproval {
                decision: SurfaceAllowDeny::Deny
            },
            ..
        }
    ));
    assert!(relay.callback_unavailable);
    let (relay, _) = relay.drain_headless_events(RelayEvent::Done);
    let (relay, _) = relay.drain_headless_events(RelayEvent::Chunk { bytes: None });
    let (relay, action) = relay.drain_headless_events(RelayEvent::Terminal { terminal: None });
    assert!(matches!(action, RelayAction::PollInteraction));
    let (_, action) = relay.drain_headless_events(question());
    assert!(matches!(
        action,
        RelayAction::Respond {
            answer: SurfaceClientInteractionAnswer::ToolApproval {
                decision: SurfaceAllowDeny::Deny
            },
            ..
        }
    ));
}

#[test]
fn fitting_answers_are_passed_on() {
    let ask = |poll| {
        let (relay, _) = HeadlessRelay::start(true, false, false);
        let (relay, _) = relay.drain_headless_events(RelayEvent::Interaction {
            checkpoint: Some(checkpoint(SurfaceInteractionRequest::ToolApproval)),
            callback_unavailable: false,
            callback_in_flight: false,
        });
        relay.drain_headless_events(RelayEvent::Answer { poll }).1
    };
    assert!(matches!(
        ask(AnswerPoll::Answered(approve())),
        RelayAction::Respond {
            answer: SurfaceClientInteractionAnswer::ToolApproval {
                decision: SurfaceAllowDeny::Allow
            },
            ..
        }
    ));
    assert!(matches!(
        ask(AnswerPoll::Broken),
        RelayAction::Respond {
            answer: SurfaceClientInteractionAnswer::ToolApproval {
                decision: SurfaceAllowDeny::Deny
            },
            ..
        }
    ));
    assert!(matches!(
        ask(AnswerPoll::Answered(
            SurfaceClientInteractionAnswer::UserInput {
                decision: SurfaceUserInputDecision::Submit("x".to_string())
            }
        )),
        RelayAction::Respond {
            answer: SurfaceClientInteractionAnswer::ToolApproval {
                decision: SurfaceAllowDeny::Deny
            },
            ..
        }
    ));
}

#[test]
fn relay_writers_send_what_was_written() {
    let mut writer = HostedEventRelayWriter::new();
    assert!(writer.take_chunk().is_none());
    assert_eq!(writer.write(&vec![1, 2]), 2);
    assert_eq!(writer.write(&vec![3]), 1);
    assert_eq!(writer.take_chunk(), Some(vec![1, 2, 3]));
    assert!(writer.take_chunk().is_none());
    assert!(HostedEventRelayWriter::flush_result(true, Some(Ok(()))).is_ok());
    assert_eq!(
        HostedEventRelayWriter::flush_result(false, None)
            .unwrap_err()
            .message,
        "hosted event relay disconnected"
    );
    assert_eq!(
        HostedEventRelayWriter::flush_result(true, None)
            .unwrap_err()
            .message,
        "hosted event relay acknowledgement closed"
    );
}

#[test]
fn terminals_have_statuses_and_exit_codes() {
    let failed = |class| SurfaceOperationTerminal::Failed { class };
    assert_eq!(
        headless_operation_status(failed(SurfaceFailureClass::LegacyApprovalRequired)),
        RunStatus::ApprovalRequired
    );
    assert_eq!(
        headless_operation_status(failed(SurfaceFailureClass::Verification)),
        RunStatus::VerificationFailed
    );
    assert_eq!(
        headless_operation_status(SurfaceOperationTerminal::BudgetExhausted),
        RunStatus::Failed
    );
    assert_eq!(
        headless_operation_exit_code(SurfaceOperationTerminal::BudgetExhausted, 1),
        4
    );
    assert_eq!(
        headless_operation_exit_code(SurfaceOperationTerminal::Cancelled, 130),
        130
    );
    let session = Some("s-1".to_string());
    assert_eq!(
        continuation_hint(OutputFormat::Text, RunStatus::Failed, &session).as_deref(),
        Some("To continue this session, run: orca exec resume s-1")
    );
    assert!(continuation_hint(OutputFormat::Jsonl, RunStatus::Failed, &session).is_none());
    assert!(continuation_hint(OutputFormat::Text, RunStatus::Success, &session).is_none());
    assert_eq!(notification_text(RunStatus::Success), "Session success");
}

fn publish(
    emitter: &mut ChildAgentActivityEmitter,
    events: &mut Vec<SubagentActivityEvent>,
    payload: SubagentActivityPayload,
) {
    events.push(emitter.publish_payload(payload, 1));
    emitter.delivered(Ok::<(), ()>(())).unwrap();
}

fn object(members: Vec<(&str, JsonValue)>) -> JsonValue {
    JsonValue::Object(
        members
            .into_iter()
            .map(|(name, value)| (name.to_string(), value))
            .collect(),
    )
}

fn number(text: &str) -> JsonValue {
    JsonValue::Number(text.to_string())
}

fn text(text: &str) -> JsonValue {
    JsonValue::Text(text.to_string())
}

#[test]
fn threaded_sync_surface_publisher_emits_ordered_child_facts_through_parent_ingress() {
    let mut emitter = ChildAgentActivityEmitter::new(SubagentActivityIdentity {
        task_id: "threaded-sync-task".to_string(),
        subagent_id: "threaded-sync-child".to_string(),
        attempt_id: AgentAttemptId::new(),
        owner: SubagentActivityOwner::DetachedTask {
            task_id: "threaded-sync-task".to_string(),
            task_revision: 1,
            authority_digest: Sha256Digest::new([3; 32]),
        },
    });
    let mut events = Vec::new();
    publish(
        &mut emitter,
        &mut events,
        SubagentActivityPayload::Started {
            description: "inspect the threaded child".to_string(),
            batch: Some(SubagentBatch {
                batch_id: "batch-threaded".to_string(),
                batch_size: 1,
            }),
        },
    );
    let observed = [
        (
            EventType::TurnStarted,
            object(vec![("turn", number("2"))]),
            0,
        ),
        (
            EventType::ToolCallRequested,
            object(vec![
                ("id", text("child-tool-1")),
                ("name", text("shell")),
                ("target", text("pwd")),
            ]),
            0,
        ),
        (
            EventType::UsageUpdated,
            object(vec![
                ("input_tokens", number("11")),
                ("output_tokens", number("13")),
                ("cache_tokens", number("17")),
            ]),
            21,
        ),
    ];
    for (event_type, payload, cost) in observed {
        let activity = observe(event_type, &payload, cost).unwrap().unwrap();
        let event = emitter.publish_activity(activity, 0, 1).unwrap();
        emitter.delivered(Ok::<(), ()>(())).unwrap();
        events.push(event);
    }
    let usage = UsageTotals {
        input_tokens: 11,
        output_tokens: 13,
        cache_tokens: 17,
        cost_usd_micros: 21,
    };
    publish(
        &mut emitter,
        &mut events,
        publish_surface_terminal(
            RunStatus::Success,
            Some("child completed".to_string()),
            None,
            usage,
        ),
    );

    assert_eq!(events.len(), 5);
    assert!(matches!(
        events[0].payload,
        SubagentActivityPayload::Started { .. }
    ));
    assert!(matches!(
        events[1].payload,
        SubagentActivityPayload::PhaseChanged { turn: Some(2), .. }
    ));
    assert!(matches!(
        events[2].payload,
        SubagentActivityPayload::ToolStarted { ref name, .. } if name == "shell"
    ));
    assert!(matches!(
        events[3].payload,
        SubagentActivityPayload::Usage { ref totals } if totals.input_tokens == 11
    ));
    assert!(matches!(
        events[4].payload,
        SubagentActivityPayload::Completed {
            status: SurfaceSubagentTerminalStatus::Completed,
            ..
        }
    ));
    assert_eq!(
        events
            .iter()
            .filter(|event| matches!(event.payload, SubagentActivityPayload::Completed { .. }))
            .count(),
        1
    );
    assert_eq!(
        events
            .iter()
            .map(|event| event.source_sequence)
            .collect::<Vec<_>>(),
        vec![1, 2, 3, 4, 5]
    );
}

#[test]
fn malformed_events_of_a_child_are_refused() {
    let error = observe(
        EventType::ToolCallCompleted,
        &object(vec![("id", number("1")), ("name", text("bash"))]),
        0,
    )
    .unwrap_err();
    assert_eq!(error.kind, LaunchErrorKind::InvalidData);
    assert_eq!(
        error.message,
        "threaded child event ToolCallCompleted is missing string field 'id'"
    );
    let completed = |status: JsonValue| {
        match observe(
            EventType::ToolCallCompleted,
            &object(vec![
                ("id", text("1")),
                ("name", text("bash")),
                ("status", status),
            ]),
            0,
        )
        .unwrap()
        {
            Some(ChildAgentActivity::ToolCompleted { status, .. }) => status,
            other => panic!("unexpected {:?}", other),
        }
    };
    assert_eq!(completed(text("completed")), RunStatus::Success);
    assert_eq!(completed(text("cancelled")), RunStatus::Cancelled);
    assert_eq!(completed(JsonValue::Null), RunStatus::Failed);
    let turn = |value: &str| {
        match observe(
            EventType::TurnStarted,
            &object(vec![("turn", number(value))]),
            0,
        )
        .unwrap()
        {
            Some(ChildAgentActivity::TurnStarted { turn }) => turn,
            other => panic!("unexpected {:?}", other),
        }
    };
    assert_eq!(turn("4294967298"), 2);
    assert_eq!(turn("18446744073709551615"), u32::MAX);
    assert_eq!(turn("18446744073709551616"), 0);
    assert_eq!(turn("2.5"), 0);
    assert_eq!(turn("-1"), 0);
    assert!(observe(EventType::Other, &JsonValue::Null, 0)
        .unwrap()
        .is_none());
}

#[test]
fn thread_identities_are_uuids() {
    let id = "67e55044-10b1-426f-9247-bb680e5fe0c8".to_string();
    assert!(matches!(
        child_thread_bound(id.clone(), Ok(())),
        Ok(SubagentActivityPayload::ChildThreadBound { ref thread_id }) if *thread_id == id
    ));
    let refused = child_thread_bound(id, Err("not a thread".to_string())).unwrap_err();
    assert_eq!(refused.message, "not a thread");
    let refused = child_thread_bound("nonsense".to_string(), Ok(())).unwrap_err();
    assert_eq!(refused.kind, LaunchErrorKind::InvalidData);
    assert!(refused
        .message
        .starts_with("child runtime returned invalid thread id: "));
    assert!(refused.message.len() > "child runtime returned invalid thread id: ".len());
}

fn failed(message: &str) -> LaunchEvent {
    LaunchEvent::Failed {
        error: LaunchError {
            kind: LaunchErrorKind::InvalidData,
            message: message.to_string(),
        },
    }
}

fn refusal(action: LaunchAction) -> (LaunchErrorKind, String) {
    match action {
        LaunchAction::Return { result: Err(e) } => (e.kind, e.message),
        other => panic!("unexpected {:?}", other),
    }
}

#[test]
fn launches_stop_at_the_greatest_depth() {
    let (launch, action) = AgentLaunch::start(3, 3, AgentRunMode::Sync, true, None);
    assert!(matches!(action, LaunchAction::PublishStarted));
    let (launch, action) = launch.next(LaunchEvent::Done);
    assert!(matches!(
        action,
        LaunchAction::PublishFailure { ref message } if message == "agent max depth 3 reached"
    ));
    let (_, action) = launch.next(failed("surface gone"));
    assert_eq!(
        refusal(action),
        (
            LaunchErrorKind::PermissionDenied,
            "agent max depth 3 reached; surface terminal commit failed: surface gone; \
             Inspect external state before retrying"
                .to_string()
        )
    );
    let (_, action) = AgentLaunch::start(
        0,
        3,
        AgentRunMode::Sync,
        false,
        Some("unknown".to_string()),
    );
    assert_eq!(
        refusal(action),
        (
            LaunchErrorKind::Other,
            "invalid delegated child model: unknown".to_string()
        )
    );
}

fn running(mode: AgentRunMode, on_surface: bool) -> AgentLaunch {
    let (launch, action) = AgentLaunch::start(0, 3, mode, on_surface, None);
    let (launch, action) = if on_surface {
        launch.next(LaunchEvent::Done)
    } else {
        (launch, action)
    };
    assert!(matches!(action, LaunchAction::StartThread { depth: 1 }));
    let (launch, action) = launch.next(LaunchEvent::ThreadStarted {
        thread_id: "thread".to_string(),
    });
    assert!(matches!(action, LaunchAction::PinContext));
    launch
}

#[test]
fn background_launches_return_while_the_agent_runs() {
    let launch = running(AgentRunMode::Async, false);
    let (launch, action) = launch.next(LaunchEvent::Done);
    assert!(matches!(action, LaunchAction::StartTurn));
    let (launch, action) = launch.next(LaunchEvent::Done);
    assert!(matches!(action, LaunchAction::SpawnWatcher));
    let (_, action) = launch.next(LaunchEvent::Done);
    match action {
        LaunchAction::Return { result: Ok(result) } => {
            assert!(result.running);
            assert_eq!(result.thread_id, "thread");
            assert_eq!(result.status, RunStatus::Success);
        }
        other => panic!("unexpected {:?}", other),
    }
}

#[test]
fn failed_launches_wind_up() {
    let launch = running(AgentRunMode::Async, true);
    let (launch, action) = launch.next(LaunchEvent::Done);
    assert!(matches!(action, LaunchAction::BindThread { .. }));
    let (launch, _) = launch.next(LaunchEvent::Done);
    let (launch, _) = launch.next(LaunchEvent::Done);
    let (launch, action) = launch.next(failed("no threads left"));
    assert!(matches!(action, LaunchAction::InterruptChild));
    let (launch, action) = launch.next(LaunchEvent::Done);
    assert!(matches!(
        action,
        LaunchAction::PublishFailure { ref message }
            if message == "failed to watch agent: no threads left"
    ));
    let (launch, action) = launch.next(LaunchEvent::Done);
    assert!(matches!(action, LaunchAction::ShutdownChild));
    let (_, action) = launch.next(LaunchEvent::Done);
    assert_eq!(
        refusal(action),
        (
            LaunchErrorKind::Other,
            "failed to watch agent: no threads left".to_string()
        )
    );

    let launch = running(AgentRunMode::Sync, true);
    let (launch, action) = launch.next(failed("pin failed"));
    assert!(matches!(action, LaunchAction::ShutdownChild));
    let (launch, action) = launch.next(failed("already down"));
    assert!(matches!(action, LaunchAction::PublishFailure { .. }));
    let (_, action) = launch.next(LaunchEvent::Done);
    assert_eq!(
        refusal(action),
        (LaunchErrorKind::Other, "pin failed".to_string())
    );

    let launch = running(AgentRunMode::Sync, true);
    let (launch, _) = launch.next(LaunchEvent::Done);
    let (launch, _) = launch.next(failed("bad id"));
    let (launch, _) = launch.next(LaunchEvent::Done);
    let (_, action) = launch.next(LaunchEvent::Done);
    assert_eq!(
        refusal(action),
        (LaunchErrorKind::InvalidData, "bad id".to_string())
    );
}

#[test]
fn ended_operations_are_reported() {
    let settle = |outcome, cancelled, snapshot: Option<ThreadSnapshot>| {
        let result = settle_operation("thread".to_string(), outcome, cancelled, &snapshot);
        (result.status, result.error, result.final_message)
    };
    let snapshot = |error: Option<&str>| {
        let mut conversation = Conversation::new();
        conversation.add_assistant(Some("first".to_string()), None, vec![]);
        conversation.add_assistant(None, None, vec![]);
        conversation.add_user("later".to_string());
        Some(ThreadSnapshot {
            usage: totals(1),
            messages: conversation.messages,
            completion_error: error.map(|error| error.to_string()),
        })
    };
    assert_eq!(
        settle(
            OperationOutcome::Completed(RunStatus::Success),
            false,
            snapshot(None)
        ),
        (RunStatus::Success, None, Some("first".to_string()))
    );
    assert_eq!(
        settle(OperationOutcome::Completed(RunStatus::Success), true, None),
        (
            RunStatus::Cancelled,
            Some("agent cancelled".to_string()),
            None
        )
    );
    assert_eq!(
        settle(
            OperationOutcome::Completed(RunStatus::Failed),
            false,
            snapshot(Some("quota"))
        )
        .1
        .as_deref(),
        Some("quota")
    );
    assert_eq!(
        settle(OperationOutcome::Completed(RunStatus::Failed), false, None)
            .1
            .as_deref(),
        Some("failed")
    );
    assert_eq!(
        settle(
            OperationOutcome::Panicked {
                message: "boom".to_string()
            },
            false,
            None
        ),
        (RunStatus::Failed, Some("boom".to_string()), None)
    );
    assert_eq!(
        settle(
            OperationOutcome::Completed(RunStatus::ApprovalRequired),
            false,
            None
        )
        .1
        .as_deref(),
        Some("agent requires permission")
    );
    assert!(pinned_child_context(" Stay focused.").ends_with("in this thread. Stay focused."));
}

fn loop_result(status: RunStatus, terminal: OperationTerminal) -> AgentLoopOutcome {
    AgentLoopOutcome::Completed(AgentLoopResult {
        status,
        final_message: Some("done".to_string()),
        error: None,
        terminal,
    })
}

#[test]
fn loops_commit_their_exact_usage() {
    let used = BudgetUsage {
        turns: 3,
        tool_calls: 2,
        cost_usd_micros: 9,
        wall_time_ms: 4,
    };
    let (outcome, commit) =
        finalize_agent_loop(loop_result(RunStatus::Success, terminal()), used);
    assert!(commit);
    let child = execute_child_agent_loop(outcome).unwrap();
    assert_eq!(child.budget_usage, Some(used));
    assert_eq!(child.final_message.as_deref(), Some("done"));

    let (_, commit) =
        finalize_agent_loop(loop_result(RunStatus::ApprovalRequired, terminal()), used);
    assert!(!commit);
    assert_eq!(
        execute_child_agent_loop(AgentLoopOutcome::Suspended).unwrap_err(),
        "child agent provider suspension is not supported"
    );
    assert!(journals_durably(&HistoryMode::Record));
    assert!(!journals_durably(&HistoryMode::Disabled));
}
