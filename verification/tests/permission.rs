use orca_runtime::agent_continuation::ids::{AgentAttemptId, Sha256Digest};
use orca_runtime::child_permission::{
    detached_mailbox_key, ChildPermissionFacts, ChildPermissionIdentity,
    DetachedPermissionExchange, DetachedPermissionRecord, DetachedSubagentBinding, ExchangeAction,
    ExchangeEvent, PermissionErrorKind, PermissionGrantScope, PermissionResponseDecision,
    RuntimePermissionContext, RuntimePermissionRequest, RuntimePermissionResponse,
    SurfacePermissionOrigin,
};

fn request() -> RuntimePermissionRequest {
    RuntimePermissionRequest {
        id: "child-tool-7".to_string(),
        reason: Some("network access".to_string()),
        permissions: "{\"network\":{\"domains\":{\"example.test\":\"allow\"}}}".to_string(),
        context: RuntimePermissionContext::Foreground {
            origin: SurfacePermissionOrigin::CommandExec,
        },
    }
}

fn facts(revision: u64) -> ChildPermissionFacts {
    ChildPermissionFacts {
        revision: Some(revision),
        revision_valid: true,
        request_id_valid: true,
    }
}

fn identity(task: &str, agent: &str) -> ChildPermissionIdentity {
    ChildPermissionIdentity::new(task.to_string(), agent.to_string(), "turn-1".to_string())
}

#[test]
fn child_handler_rewrites_foreground_context_to_exact_child_owner() {
    let scoped = identity("task-42", "agent-42")
        .scoped_request(&request(), facts(3))
        .unwrap();
    assert_eq!(scoped.id, "child-tool-7");
    match scoped.context {
        RuntimePermissionContext::Child {
            task_id,
            task_revision,
            agent_id,
            agent_revision,
            activity_id,
            turn_id,
            tool_call_id,
            origin,
        } => {
            assert_eq!(task_id, "task-42");
            assert_eq!(task_revision, 1);
            assert_eq!(agent_id, "agent-42");
            assert_eq!(agent_revision, 3);
            assert_eq!(activity_id, "child-tool-7");
            assert_eq!(turn_id, "turn-1");
            assert_eq!(tool_call_id, "child-tool-7");
            assert_eq!(origin, SurfacePermissionOrigin::ChildAgent);
        }
        other => panic!("child request was not scoped: {:?}", other),
    }
}

#[test]
fn child_handler_denies_when_identity_is_incomplete_without_calling_parent() {
    let incomplete = ChildPermissionIdentity {
        task_id: None,
        task_revision_floor: Some(1),
        agent_id: Some("agent-42".to_string()),
        turn_id: Some("turn-1".to_string()),
    };
    let error = incomplete.scoped_request(&request(), facts(1)).unwrap_err();
    assert_eq!(error.kind, PermissionErrorKind::PermissionDenied);
    assert!(error
        .message
        .contains("child permission identity is incomplete"));

    let whole = identity("task", "agent");
    let mut no_revision = facts(1);
    no_revision.revision = None;
    assert!(whole.scoped_request(&request(), no_revision).is_err());
    let mut bad_revision = facts(0);
    bad_revision.revision_valid = false;
    assert!(whole.scoped_request(&request(), bad_revision).is_err());
    let mut unnamed = request();
    unnamed.id = String::new();
    assert!(whole.scoped_request(&unnamed, facts(1)).is_err());
}

fn binding(attempt_id: &AgentAttemptId) -> DetachedSubagentBinding {
    DetachedSubagentBinding {
        task_id: "task".to_string(),
        subagent_id: "agent".to_string(),
        attempt_id: attempt_id.duplicate(),
        task_revision: 1,
        authority_digest: Sha256Digest::new([3; 32]),
        permission_response_public_key: vec![9; 32],
    }
}

fn allow() -> RuntimePermissionResponse {
    RuntimePermissionResponse {
        decision: PermissionResponseDecision::Allow,
        scope: PermissionGrantScope::Turn,
        permissions: "{}".to_string(),
        strict_auto_review: false,
    }
}

fn record(attempt_id: &AgentAttemptId, answered: bool) -> DetachedPermissionRecord {
    let request = identity("task", "agent")
        .scoped_request(&request(), facts(1))
        .unwrap();
    DetachedPermissionRecord {
        key: detached_mailbox_key(&binding(attempt_id), "child-tool-7"),
        interaction_id: "interaction".to_string(),
        request,
        attempt_id: attempt_id.duplicate(),
        authority_digest: Sha256Digest::new([3; 32]),
        permission_response_public_key: vec![9; 32],
        request_digest: "request-digest".to_string(),
        response: if answered { Some(allow()) } else { None },
        response_digest: if answered {
            Some("response-digest".to_string())
        } else {
            None
        },
        signature_verified: answered,
    }
}

fn read(record: Option<DetachedPermissionRecord>) -> ExchangeEvent {
    ExchangeEvent::Record {
        record: Ok(record),
        interaction_id: Ok("interaction".to_string()),
    }
}

fn look(cancelled: bool, expired: bool) -> ExchangeEvent {
    ExchangeEvent::Observed { cancelled, expired }
}

/// An exchange whose request is in the mailbox.
fn enqueued(attempt_id: &AgentAttemptId) -> DetachedPermissionExchange {
    let (exchange, action) = DetachedPermissionExchange::start(
        &identity("task", "agent"),
        facts(1),
        binding(attempt_id),
        &request(),
    )
    .unwrap();
    assert!(matches!(action, ExchangeAction::Enqueue));
    let (exchange, action) = exchange.next(ExchangeEvent::Enqueued {
        result: Ok(detached_mailbox_key(&binding(attempt_id), "child-tool-7")),
    });
    assert!(matches!(action, ExchangeAction::Observe));
    exchange
}

fn refused(action: ExchangeAction) -> (PermissionErrorKind, String) {
    match action {
        ExchangeAction::Return { result: Err(e) } => (e.kind, e.message),
        other => panic!("unexpected {:?}", other),
    }
}

#[test]
fn detached_cancel_persists_terminal_deny() {
    let attempt = AgentAttemptId::new();
    let (exchange, action) = enqueued(&attempt).next(look(true, false));
    assert!(matches!(action, ExchangeAction::ReadRecord));
    let (exchange, action) = exchange.next(read(Some(record(&attempt, false))));
    match action {
        ExchangeAction::Resolve {
            request_digest,
            response,
        } => {
            assert_eq!(request_digest, "request-digest");
            assert_eq!(response.decision, PermissionResponseDecision::Deny);
            assert_eq!(response.scope, PermissionGrantScope::Turn);
        }
        other => panic!("unexpected {:?}", other),
    }
    let (_, action) = exchange.next(ExchangeEvent::Resolved { result: Ok(()) });
    assert_eq!(
        refused(action),
        (
            PermissionErrorKind::Interrupted,
            "detached permission request was cancelled".to_string()
        )
    );
}

#[test]
fn detached_timeout_persists_terminal_deny() {
    let attempt = AgentAttemptId::new();
    let (exchange, _) = enqueued(&attempt).next(look(false, true));
    let (exchange, action) = exchange.next(read(Some(record(&attempt, false))));
    assert!(matches!(action, ExchangeAction::Resolve { .. }));
    let (_, action) = exchange.next(ExchangeEvent::Resolved { result: Ok(()) });
    assert_eq!(refused(action).0, PermissionErrorKind::TimedOut);
}

#[test]
fn detached_cancel_acknowledges_a_response_that_won_the_race() {
    let attempt = AgentAttemptId::new();
    let (exchange, _) = enqueued(&attempt).next(look(true, false));
    let (exchange, action) = exchange.next(read(Some(record(&attempt, true))));
    assert!(matches!(
        action,
        ExchangeAction::Acknowledge { ref request_digest, ref response_digest }
            if request_digest == "request-digest" && response_digest == "response-digest"
    ));
    let (_, action) = exchange.next(ExchangeEvent::Acknowledged { result: Ok(()) });
    assert_eq!(refused(action).0, PermissionErrorKind::Interrupted);
}

#[test]
fn signed_answers_are_acknowledged_and_used() {
    let attempt = AgentAttemptId::new();
    let (exchange, action) = enqueued(&attempt).next(look(false, false));
    assert!(matches!(action, ExchangeAction::ReadRecord));
    let (exchange, action) = exchange.next(read(Some(record(&attempt, false))));
    assert!(matches!(action, ExchangeAction::Sleep { millis: 50 }));
    let (exchange, _) = exchange.next(ExchangeEvent::Slept);
    let (exchange, _) = exchange.next(look(false, false));
    let (exchange, action) = exchange.next(read(Some(record(&attempt, true))));
    assert!(matches!(action, ExchangeAction::Observe));
    let (exchange, action) = exchange.next(look(false, false));
    assert!(matches!(action, ExchangeAction::Acknowledge { .. }));
    let (exchange, action) = exchange.next(ExchangeEvent::Acknowledged { result: Ok(()) });
    assert!(matches!(action, ExchangeAction::Observe));
    let (_, action) = exchange.next(look(false, true));
    match action {
        ExchangeAction::Return { result: Ok(response) } => {
            assert_eq!(response.decision, PermissionResponseDecision::Allow)
        }
        other => panic!("unexpected {:?}", other),
    }
}

/// Reads one record and confirms it, and hands out what follows.
fn confirm(attempt: &AgentAttemptId, answer: DetachedPermissionRecord) -> ExchangeAction {
    let (exchange, _) = enqueued(attempt).next(look(false, false));
    let (exchange, action) = exchange.next(read(Some(answer)));
    match action {
        ExchangeAction::Observe => exchange.next(look(false, false)).1,
        other => other,
    }
}

#[test]
fn forged_answers_are_refused() {
    let attempt = AgentAttemptId::new();
    let owner = "detached permission response owner does not match the admitted child";
    let mut forged = record(&attempt, true);
    forged.signature_verified = false;
    assert_eq!(
        refused(confirm(&attempt, forged)),
        (
            PermissionErrorKind::PermissionDenied,
            "detached permission response failed actor signature verification".to_string()
        )
    );
    let mut forged = record(&attempt, true);
    forged.permission_response_public_key = vec![8; 32];
    assert_eq!(refused(confirm(&attempt, forged)).1, owner);
    let mut forged = record(&attempt, true);
    forged.interaction_id = "other".to_string();
    assert_eq!(refused(confirm(&attempt, forged)).1, owner);
    let mut forged = record(&attempt, true);
    forged.request.reason = Some("different capability request".to_string());
    assert_eq!(refused(confirm(&attempt, forged)).1, owner);
    let mut forged = record(&attempt, true);
    forged.attempt_id = AgentAttemptId::new();
    assert_eq!(refused(confirm(&attempt, forged)).1, owner);
    let mut undigested = record(&attempt, true);
    undigested.response_digest = None;
    assert_eq!(
        refused(confirm(&attempt, undigested)),
        (
            PermissionErrorKind::InvalidData,
            "detached permission response is missing its digest".to_string()
        )
    );
}

#[test]
fn missing_records_and_broken_mailboxes_end_the_exchange() {
    let attempt = AgentAttemptId::new();
    let (exchange, _) = enqueued(&attempt).next(look(false, false));
    let (_, action) = exchange.next(read(None));
    assert_eq!(
        refused(action),
        (
            PermissionErrorKind::NotFound,
            "detached permission request disappeared".to_string()
        )
    );
    let (exchange, _) = enqueued(&attempt).next(look(false, false));
    let (_, action) = exchange.next(ExchangeEvent::Record {
        record: Err("io".to_string()),
        interaction_id: Ok("interaction".to_string()),
    });
    assert_eq!(
        refused(action),
        (PermissionErrorKind::Other, "io".to_string())
    );
}

#[test]
fn failed_denials_are_reported() {
    let attempt = AgentAttemptId::new();
    let cancelled = || {
        let (exchange, _) = enqueued(&attempt).next(look(true, false));
        exchange
    };
    let (_, action) = cancelled().next(read(None));
    assert_eq!(
        refused(action).1,
        "detached permission request was cancelled"
    );
    let mut stranger = record(&attempt, false);
    stranger.authority_digest = Sha256Digest::new([4; 32]);
    let (_, action) = cancelled().next(read(Some(stranger)));
    assert_eq!(
        refused(action).1,
        "detached permission request was cancelled; failed to persist terminal denial: \
         detached permission terminal denial owner does not match the admitted child"
    );
    let (exchange, _) = cancelled().next(read(Some(record(&attempt, false))));
    let (exchange, action) = exchange.next(ExchangeEvent::Resolved {
        result: Err("already resolved".to_string()),
    });
    assert!(matches!(action, ExchangeAction::ReadRecord));
    let (exchange, action) = exchange.next(read(Some(record(&attempt, true))));
    assert!(matches!(action, ExchangeAction::Acknowledge { .. }));
    let (_, action) = exchange.next(ExchangeEvent::Acknowledged {
        result: Err("gone".to_string()),
    });
    assert_eq!(
        refused(action).1,
        "detached permission request was cancelled; failed to persist terminal denial: gone"
    );
    let (exchange, _) = cancelled().next(read(Some(record(&attempt, false))));
    let (exchange, _) = exchange.next(ExchangeEvent::Resolved {
        result: Err("locked".to_string()),
    });
    let (_, action) = exchange.next(read(Some(record(&attempt, false))));
    assert_eq!(
        refused(action).1,
        "detached permission request was cancelled; failed to persist terminal denial: locked"
    );
}
