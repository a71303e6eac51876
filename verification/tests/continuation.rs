use orca_runtime::agent_continuation::canonical_json::{
    canonical_json_bytes, continuation_compatibility_payload, ExternalToolIdentity, JsonValue,
    McpToolIdentity,
};
use orca_runtime::agent_continuation::coordinator::{
    resolve_selector, ChildAgentCoordinator, TaskLookup,
};
use orca_runtime::agent_continuation::error::{
    AgentContinuationError, AgentContinuationErrorCode,
};
use orca_runtime::agent_continuation::ids::{
    AgentAttemptId, AgentCheckpointId, AgentContinuationId, AgentPromptId, ContinuationIdKind,
    ContinuationRevision, Sha256Digest,
};
use orca_runtime::agent_continuation::persistence::{
    check_record_bytes, check_record_schema, continuation_record_file, decide_creation,
    ensure_index_mapping, index_from_bytes, index_of_entries, index_to_bytes,
    indexed_continuations, locate_indexed_parent, validate_index, CreationStep, RecordFile,
};
use orca_runtime::agent_continuation::record::{
    AgentCheckpoint, AgentContinuationRecord, AgentTerminal, ContinuationCompatibility,
    ContinuationLease, CreateContinuationInput, PreparedContinuation, ResumeContinuationInput,
    SubagentIsolation,
};
use orca_runtime::agent_continuation::snapshot::{
    non_system_history, ChildConversationSnapshot, FragmentCatalog, FragmentEntry,
};
use orca_runtime::agent_continuation::status::ContinuationStatus;
use orca_runtime::agent_continuation::store::AgentContinuationStore;
use orca_runtime::agent_continuation::validation::WorkspaceFacts;
use orca_runtime::budget::BudgetUsage;
use orca_runtime::conversation::{
    conversation_has_open_tool_calls, try_last_settled_tool_boundary, Conversation, Message,
    RawToolCall, ToolBoundary,
};
use orca_runtime::runtime_types::{
    ToolInvocationStarted, ToolResultKind, ToolStatus, ToolTerminal, ToolTerminalSource,
};
use orca_runtime::text_map::TextMap;

const NOW: i64 = 1_700_000_000_000;

fn facts() -> WorkspaceFacts {
    WorkspaceFacts {
        cwd_is_dir: true,
        worktree_is_dir: true,
        worktree_is_cwd: true,
        cwd_unchanged: true,
    }
}

fn entry(id: &str) -> FragmentEntry {
    FragmentEntry {
        id: id.to_string(),
        max_tokens: 100,
    }
}

fn catalog() -> FragmentCatalog {
    FragmentCatalog {
        runtime: entry("runtime"),
        mode: entry("mode"),
        goal: entry("goal"),
        plan: entry("plan"),
        skill: entry("skill"),
        memory: entry("memory"),
    }
}

fn repair() -> ToolTerminal {
    ToolTerminal {
        status: ToolStatus::Indeterminate,
        kind: ToolResultKind::Indeterminate,
        source: ToolTerminalSource::Repaired,
        started: ToolInvocationStarted::Unknown,
    }
}

fn observed() -> ToolTerminal {
    ToolTerminal {
        status: ToolStatus::Completed,
        kind: ToolResultKind::Output,
        source: ToolTerminalSource::Observed,
        started: ToolInvocationStarted::Yes,
    }
}

fn compatibility() -> ContinuationCompatibility {
    ContinuationCompatibility {
        subagent_type: "general".to_string(),
        model: Some("test-model".to_string()),
        isolation: SubagentIsolation::Shared,
        effective_cwd: "/work".to_string(),
        worktree: None,
        compatibility_hash: Sha256Digest::new([7; 32]),
    }
}

fn prepared_continuation(
    session: &str,
) -> (
    ChildAgentCoordinator,
    PreparedContinuation,
    ContinuationLease,
) {
    let store = AgentContinuationStore::new(session.to_string());
    let mut coordinator =
        ChildAgentCoordinator::with_owner_id(store, "test-owner".to_string()).expect("coordinator");
    let (prepared, _) = coordinator
        .create(
            CreateContinuationInput {
                continuation_id: None,
                parent_task_id: None,
                task_id: "task-1".to_string(),
                prompt_id: AgentPromptId::new(),
                compatibility: compatibility(),
            },
            facts(),
            NOW,
        )
        .expect("prepare continuation");
    let (lease, _) = coordinator
        .acquire(&prepared, NOW)
        .expect("acquire continuation");
    (coordinator, prepared, lease)
}

fn checkpoint(attempt_id: AgentAttemptId, sequence: u64, turn: u32) -> AgentCheckpoint {
    let conversation = Conversation::new();
    let normalized = non_system_history(&conversation);
    let (conversation, last_tool_boundary) = ChildConversationSnapshot::try_capture_safe(
        &conversation,
        &normalized,
        repair(),
        &catalog(),
        turn + 1,
    )
    .expect("capture checkpoint");
    AgentCheckpoint {
        checkpoint_id: AgentCheckpointId::new(),
        attempt_id,
        sequence,
        conversation,
        turn,
        usage: BudgetUsage::zero(),
        last_tool_boundary,
        created_at_ms: NOW,
        digest: Sha256Digest::new([5; 32]),
        payload_digest: Some(Sha256Digest::new([5; 32])),
    }
}

#[test]
fn safe_checkpoint_clears_indeterminate_active_tool_boundary() {
    let (mut coordinator, _prepared, lease) = prepared_continuation("continuation-tool-boundary");
    let projection = coordinator
        .commit_tool_boundary(
            &lease,
            lease.revision,
            ToolBoundary::Indeterminate {
                tool_call_id: Some("tool-1".to_string()),
                reason: "external side effect may have started".to_string(),
            },
            NOW,
        )
        .expect("persist tool boundary");
    assert!(projection.indeterminate);

    let projection = coordinator
        .commit_checkpoint(
            &lease,
            projection.revision,
            checkpoint(lease.attempt_id.duplicate(), 0, 0),
            NOW,
        )
        .expect("commit safe checkpoint");
    assert!(!projection.indeterminate);
    assert!(projection.checkpoint_id.is_some());
}

fn expire(
    coordinator: &mut ChildAgentCoordinator,
    prepared: &PreparedContinuation,
    revision: ContinuationRevision,
) {
    coordinator
        .store
        .mutate_record(
            &prepared.continuation_id,
            revision,
            |mut record: AgentContinuationRecord| {
                record.current_attempt.lease_expires_at_ms = Some(0);
                Ok(record)
            },
        )
        .expect("expire owner");
}

#[test]
fn expired_owner_without_checkpoint_reconciles_indeterminate() {
    let (mut coordinator, prepared, _lease) = prepared_continuation("continuation-orphan-unsafe");
    let record = coordinator
        .store
        .load_record(&prepared.continuation_id)
        .expect("load record")
        .expect("continuation record");
    expire(&mut coordinator, &prepared, record.revision);

    let projection = coordinator
        .store
        .reconcile_expired_owners(NOW)
        .expect("reconcile owner")
        .into_iter()
        .find(|projection| projection.continuation_id.same(&prepared.continuation_id))
        .expect("projection");
    assert!(projection.indeterminate);
    assert!(!projection.resumable);
    assert_eq!(projection.status, ContinuationStatus::Indeterminate);
}

#[test]
fn expired_owner_with_checkpoint_reconciles_suspended_and_resumable() {
    let (mut coordinator, prepared, lease) = prepared_continuation("continuation-orphan-safe");
    let projection = coordinator
        .commit_checkpoint(
            &lease,
            lease.revision,
            checkpoint(lease.attempt_id.duplicate(), 0, 0),
            NOW,
        )
        .expect("checkpoint");
    expire(&mut coordinator, &prepared, projection.revision);

    let projection = coordinator
        .store
        .reconcile_expired_owners(NOW)
        .expect("reconcile owner")
        .into_iter()
        .find(|projection| projection.continuation_id.same(&prepared.continuation_id))
        .expect("projection");
    assert_eq!(projection.status, ContinuationStatus::Suspended);
    assert!(projection.resumable);
    assert!(!projection.indeterminate);
}

#[test]
fn renewed_owner_can_commit_with_the_original_lease_identity() {
    let (mut coordinator, _prepared, lease) = prepared_continuation("continuation-renewed-owner");
    let renewed = coordinator
        .renew(&lease, lease.revision, NOW)
        .expect("renew continuation lease");

    let projection = coordinator
        .commit_tool_boundary(
            &lease,
            renewed.revision,
            ToolBoundary::SafeToRetry {
                tool_call_id: Some("tool-after-renew".to_string()),
            },
            NOW,
        )
        .expect("commit with renewed owner fence");

    assert_eq!(projection.revision.get(), renewed.revision.get() + 1);
}

#[test]
fn stale_revisions_are_refused() {
    let (mut coordinator, _prepared, lease) = prepared_continuation("continuation-stale");
    coordinator.renew(&lease, lease.revision, NOW).expect("renew");
    let error = coordinator
        .renew(&lease, lease.revision, NOW)
        .expect_err("stale revision");
    assert!(matches!(
        error,
        AgentContinuationError::RevisionConflict { .. }
    ));
}

#[test]
fn terminals_are_idempotent_and_final() {
    let (mut coordinator, _prepared, lease) = prepared_continuation("continuation-terminal");
    let done = || AgentTerminal::Completed {
        result: Some("done".to_string()),
    };
    let first = coordinator
        .commit_terminal(&lease, lease.revision, done(), NOW)
        .expect("terminal");
    let again = coordinator
        .commit_terminal(&lease, lease.revision, done(), NOW)
        .expect("same terminal again");
    assert_eq!(first.revision.get(), again.revision.get());
    assert_eq!(again.status, ContinuationStatus::Completed);
    let other = AgentTerminal::Completed { result: None };
    assert!(coordinator
        .commit_terminal(&lease, first.revision, other, NOW)
        .is_err());
}

#[test]
fn suspended_continuations_can_be_resumed_by_identity_and_by_task() {
    let (mut coordinator, prepared, lease) = prepared_continuation("continuation-resume");
    let projection = coordinator
        .commit_checkpoint(
            &lease,
            lease.revision,
            checkpoint(lease.attempt_id.duplicate(), 0, 0),
            NOW,
        )
        .expect("checkpoint");
    expire(&mut coordinator, &prepared, projection.revision);
    coordinator
        .store
        .reconcile_expired_owners(NOW)
        .expect("reconcile");
    let (resumed, projection) = coordinator
        .prepare_resume(
            ResumeContinuationInput {
                selector: "task-1".to_string(),
                parent_task_id: None,
                task_id: "task-2".to_string(),
                prompt_id: AgentPromptId::new(),
                compatibility: compatibility(),
            },
            &TaskLookup::Found(prepared.continuation_id.duplicate()),
            facts(),
            NOW,
        )
        .expect("resume");
    assert!(resumed.continuation_id.same(&prepared.continuation_id));
    assert!(!resumed.attempt_id.same(&prepared.attempt_id));
    assert!(resumed.checkpoint.is_some());
    assert_eq!(resumed.latest_task_id, "task-2");
    assert_eq!(projection.latest_task_id, "task-2");

    let mut changed = compatibility();
    changed.compatibility_hash = Sha256Digest::new([8; 32]);
    let refused = coordinator.prepare_resume(
        ResumeContinuationInput {
            selector: prepared.continuation_id.as_str().to_string(),
            parent_task_id: None,
            task_id: "task-3".to_string(),
            prompt_id: AgentPromptId::new(),
            compatibility: changed,
        },
        &TaskLookup::Missing,
        facts(),
        NOW,
    );
    assert!(refused.is_err());
}

#[test]
fn identities_are_version_seven_uuids() {
    let id = AgentContinuationId::new();
    let parsed = AgentContinuationId::parse(id.as_str().to_string()).expect("own identity");
    assert!(parsed.same(&id));
    assert!(!AgentContinuationId::new().same(&id));
    assert!(matches!(
        AgentAttemptId::parse("not-a-uuid".to_string()),
        Err(AgentContinuationError::InvalidUuid {
            kind: ContinuationIdKind::Attempt
        })
    ));
    assert!(matches!(
        AgentPromptId::parse("67e55044-10b1-426f-9247-bb680e5fe0c8".to_string()),
        Err(AgentContinuationError::WrongUuidVersion {
            kind: ContinuationIdKind::Prompt,
            found: 4
        })
    ));
}

#[test]
fn selectors_name_a_continuation_or_a_task() {
    let id = AgentContinuationId::new();
    let direct = resolve_selector(id.as_str(), &TaskLookup::Missing).expect("by identity");
    assert!(direct.same(&id));
    let by_task =
        resolve_selector("task-9", &TaskLookup::Found(id.duplicate())).expect("by task");
    assert!(by_task.same(&id));
    assert!(resolve_selector("task-9", &TaskLookup::Missing).is_err());
    assert!(resolve_selector("task-9", &TaskLookup::Failed("broken".to_string())).is_err());
}

#[test]
fn digests_must_match() {
    let (mut coordinator, _prepared, lease) = prepared_continuation("continuation-digest");
    let mut damaged = checkpoint(lease.attempt_id.duplicate(), 0, 0);
    damaged.payload_digest = Some(Sha256Digest::new([6; 32]));
    let error = coordinator
        .commit_checkpoint(&lease, lease.revision, damaged, NOW)
        .expect_err("damaged checkpoint");
    assert!(matches!(error, AgentContinuationError::DigestMismatch));
}

#[test]
fn errors_have_codes_and_texts() {
    let error = AgentContinuationError::CorruptRecord {
        message: "bad".to_string(),
    };
    assert_eq!(error.code(), AgentContinuationErrorCode::CorruptRecord);
    assert!(error.to_text().contains("bad"));
    assert!(!error.contract_code().is_empty());
}

#[test]
fn conversations_round_trip_through_a_snapshot() {
    let mut conversation = Conversation::new();
    conversation.add_system("old system".to_string());
    conversation.add_user("question".to_string());
    conversation.add_assistant(Some("answer".to_string()), None, vec![]);
    let normalized = non_system_history(&conversation);
    let snapshot = ChildConversationSnapshot::capture_unchecked(
        &conversation,
        &normalized,
        repair(),
        &catalog(),
        4,
    );
    let mut target = Conversation::new();
    target.add_system("new system".to_string());
    let messages = snapshot.restorable_messages();
    let next = snapshot
        .restore_into(&mut target, &messages, repair(), &catalog())
        .expect("restore");
    assert_eq!(next, 4);
    assert_eq!(target.messages.len(), 3);
    assert!(matches!(
        &target.messages[0],
        Message::System { content, .. } if content == "new system"
    ));
    assert!(matches!(
        &target.messages[2],
        Message::Assistant { content: Some(content), .. } if content == "answer"
    ));
}

#[test]
fn open_calls_are_indeterminate_until_answered() {
    let mut conversation = Conversation::new();
    conversation.add_assistant(
        None,
        None,
        vec![RawToolCall {
            id: "call".to_string(),
            function_name: "bash".to_string(),
            arguments: "{}".to_string(),
        }],
    );
    assert!(conversation_has_open_tool_calls(&conversation));
    assert!(matches!(
        try_last_settled_tool_boundary(&conversation),
        Err(AgentContinuationError::Indeterminate)
    ));
    conversation.add_tool_result("call".to_string(), "ok".to_string(), Some(observed()));
    assert!(!conversation_has_open_tool_calls(&conversation));
    assert!(matches!(
        try_last_settled_tool_boundary(&conversation),
        Ok(Some(ToolBoundary::Completed { tool_call_id: Some(id) })) if id == "call"
    ));
}

fn text(value: &str) -> JsonValue {
    JsonValue::Text(value.to_string())
}

#[test]
fn canonical_json_sorts_members_and_escapes_text() {
    let value = JsonValue::Object(vec![
        ("b".to_string(), JsonValue::Number("2".to_string())),
        (
            "a".to_string(),
            JsonValue::Array(vec![JsonValue::Null, JsonValue::Bool(true), text("x\"y")]),
        ),
    ]);
    assert_eq!(
        String::from_utf8(canonical_json_bytes(&value)).unwrap(),
        r#"{"a":[null,true,"x\"y"],"b":2}"#
    );
}

#[test]
fn json_texts_are_escaped() {
    let written = |value: &str| String::from_utf8(canonical_json_bytes(&text(value))).unwrap();
    assert_eq!(written(""), "\"\"");
    assert_eq!(written("\"\\/"), "\"\\\"\\\\/\"");
    assert_eq!(
        written("\u{8}\t\n\u{c}\r"),
        "\"\\b\\t\\n\\f\\r\""
    );
    assert_eq!(
        written("\u{0}\u{b}\u{1f}\u{7f}"),
        "\"\\u0000\\u000b\\u001f\u{7f}\""
    );
    assert_eq!(written("\u{e9}\u{1f600}"), "\"\u{e9}\u{1f600}\"");
}

#[test]
fn compatibility_payloads_ignore_the_order_of_tools() {
    let tool = |name: &str| McpToolIdentity {
        server: "server".to_string(),
        schema_name: name.to_string(),
        name: name.to_string(),
        tool: text(name),
    };
    let payload = |tools: Vec<McpToolIdentity>| {
        continuation_compatibility_payload(
            &text("general"),
            &None,
            &text("none"),
            "/work",
            &None,
            &JsonValue::Null,
            &tools,
            &vec![],
        )
    };
    let forward = payload(vec![tool("one"), tool("two")]);
    let backward = payload(vec![tool("two"), tool("one")]);
    assert_eq!(forward, backward);
    assert_ne!(forward, payload(vec![tool("one")]));
}

#[test]
fn compatibility_payloads_list_what_counts_of_external_tools() {
    let tool = |name: &str, command: &str| ExternalToolIdentity {
        name: name.to_string(),
        action_kind: text("shell"),
        command: text(command),
        description: JsonValue::Null,
        schema: JsonValue::Object(vec![]),
    };
    let payload = |tools: Vec<ExternalToolIdentity>| {
        String::from_utf8(continuation_compatibility_payload(
            &text("general"),
            &None,
            &text("none"),
            "/work",
            &None,
            &JsonValue::Null,
            &vec![],
            &tools,
        ))
        .unwrap()
    };
    let listed = concat_tools(
        r#"{"action_kind":"shell","command":"a","description":null,"name":"z","schema":{}}"#,
        r#"{"action_kind":"shell","command":"b","description":null,"name":"y","schema":{}}"#,
    );
    assert_eq!(payload(vec![tool("y", "b"), tool("z", "a")]), listed);
    assert_eq!(payload(vec![tool("z", "a"), tool("y", "b")]), listed);

    let plain = payload(vec![tool("z", "a")]);
    let mut changed = tool("z", "a");
    changed.name = "y".to_string();
    assert_ne!(payload(vec![changed]), plain);
    let mut changed = tool("z", "a");
    changed.action_kind = text("read");
    assert_ne!(payload(vec![changed]), plain);
    let mut changed = tool("z", "a");
    changed.command = text("b");
    assert_ne!(payload(vec![changed]), plain);
    let mut changed = tool("z", "a");
    changed.description = text("about");
    assert_ne!(payload(vec![changed]), plain);
    let mut changed = tool("z", "a");
    changed.schema = JsonValue::Null;
    assert_ne!(payload(vec![changed]), plain);
}

fn concat_tools(first: &str, second: &str) -> String {
    format!(
        "{{\"delegation\":null,\"effective_cwd\":\"/work\",\"external_tools\":[{first},{second}],\
         \"isolation\":\"none\",\"mcp_tools\":[],\"model\":null,\"schema_version\":1,\
         \"subagent_type\":\"general\",\"worktree\":null}}"
    )
}

#[test]
fn creating_the_same_record_twice_is_harmless() {
    let store = AgentContinuationStore::new("continuation-persist".to_string());
    let mut coordinator =
        ChildAgentCoordinator::with_owner_id(store, "test-owner".to_string()).expect("coordinator");
    let (prepared, _) = coordinator
        .create(
            CreateContinuationInput {
                continuation_id: None,
                parent_task_id: None,
                task_id: "task-1".to_string(),
                prompt_id: AgentPromptId::new(),
                compatibility: compatibility(),
            },
            facts(),
            NOW,
        )
        .expect("prepare continuation");
    let record = coordinator
        .store
        .load_record(&prepared.continuation_id)
        .unwrap()
        .unwrap();
    let session = "continuation-persist".to_string();
    assert!(matches!(
        decide_creation(&session, &record, &None, &RecordFile::Missing),
        Ok(CreationStep::WriteRecordAndIndex)
    ));
    assert!(matches!(
        decide_creation(
            &session,
            &record,
            &Some(session.clone()),
            &RecordFile::Present(record.duplicate())
        ),
        Ok(CreationStep::ReturnExisting)
    ));
    assert!(matches!(
        decide_creation(
            &session,
            &record,
            &None,
            &RecordFile::Present(record.duplicate())
        ),
        Ok(CreationStep::IndexExisting)
    ));
    assert!(decide_creation(&session, &record, &None, &RecordFile::NotRegular).is_err());
    assert!(continuation_record_file(&prepared.continuation_id)
        .contains(prepared.continuation_id.as_str()));
    assert!(check_record_schema(None).is_err());
}

#[test]
fn an_index_lists_the_continuations_of_a_session_in_order() {
    let first = "01890a5d-ac96-774b-bcce-b302099a8057";
    let second = "01890a5d-ac96-774b-bcce-b302099a8058";
    let third = "01890a5d-ac96-774b-bcce-b302099a8059";
    let mut index: TextMap<String, String> = TextMap::new();
    index.insert(third.to_string(), "mine".to_string());
    index.insert(second.to_string(), "other".to_string());
    index.insert(first.to_string(), "mine".to_string());
    assert!(validate_index(&index).is_ok());
    let listed = indexed_continuations(&index, "mine").unwrap();
    let listed: Vec<&str> = listed.iter().map(|id| id.as_str()).collect();
    assert_eq!(listed, vec![first, third]);
    assert!(indexed_continuations(&index, "nobody").unwrap().is_empty());

    let id = AgentContinuationId::parse(second.to_string()).unwrap();
    assert!(ensure_index_mapping(&index, &id, "other").is_ok());
    assert!(matches!(
        ensure_index_mapping(&index, &id, "mine"),
        Err(AgentContinuationError::ParentMismatch { .. })
    ));

    index.insert("no identity".to_string(), "mine".to_string());
    assert_eq!(
        indexed_continuations(&index, "mine").unwrap_err().to_text(),
        "continuation record is corrupt: continuation index contains an invalid identity"
    );
    assert_eq!(indexed_continuations(&index, "other").unwrap().len(), 1);
    assert!(validate_index(&index).is_err());
}

#[test]
fn stores_read_back_what_they_hold_and_keep_sessions_apart() {
    let store = AgentContinuationStore::new("mine".to_string());
    let mut coordinator = ChildAgentCoordinator::new(store, 1).unwrap();
    let (prepared, _) = coordinator
        .create(
            CreateContinuationInput {
                continuation_id: None,
                parent_task_id: None,
                task_id: "task".to_string(),
                prompt_id: AgentPromptId::new(),
                compatibility: compatibility(),
            },
            facts(),
            NOW,
        )
        .unwrap();
    let id = prepared.continuation_id;
    let record = coordinator.store.load_record(&id).unwrap().unwrap();
    assert_eq!(record.latest_task_id, "task");

    let mut foreign = AgentContinuationStore::new("theirs".to_string());
    foreign
        .cache_record(&id, "mine".to_string(), record.duplicate())
        .unwrap();
    assert!(matches!(
        foreign.load_record(&id),
        Err(AgentContinuationError::ParentMismatch { .. })
    ));
    let mut again = record.duplicate();
    again.parent_session_id = "theirs".to_string();
    assert!(matches!(
        foreign.create_record(again),
        Err(AgentContinuationError::ParentMismatch { .. })
    ));
    assert!(matches!(
        coordinator.store.create_record(record),
        Err(AgentContinuationError::AlreadyExists { .. })
    ));
}

#[test]
fn indexes_are_read_out_of_their_bytes() {
    let id = "01890a5d-ac96-774b-bcce-b302099a8057";
    let read = |text: &str| index_from_bytes(&text.as_bytes().to_vec());
    let refused = |text: &str| match read(text) {
        Ok(_) => panic!("the index is refused"),
        Err(e) => e.to_text(),
    };
    let index = read(&format!("{{\"{id}\": \"mine\"}}")).unwrap();
    assert_eq!(index.len(), 1);
    let parsed = AgentContinuationId::parse(id.to_string()).unwrap();
    assert_eq!(
        locate_indexed_parent(&index, &parsed).as_deref(),
        Some("mine")
    );
    assert_eq!(read("{}").unwrap().len(), 0);

    let invalid_json = "continuation record is corrupt: continuation index is not valid JSON";
    assert_eq!(refused("not json"), invalid_json);
    assert_eq!(refused(&format!("{{\"{id}\": 1}}")), invalid_json);
    assert_eq!(refused("[]"), invalid_json);
    let invalid_entry =
        "continuation record is corrupt: continuation index contains an invalid entry";
    assert_eq!(refused("{\"no identity\": \"mine\"}"), invalid_entry);
    assert_eq!(refused(&format!("{{\"{id}\": \"\"}}")), invalid_entry);

    let decoded = Some(vec![(id.to_string(), "mine".to_string())]);
    assert_eq!(index_of_entries(decoded).unwrap().len(), 1);
    assert!(index_of_entries(None).is_err());
}

#[test]
fn written_indexes_are_read_back() {
    let first = "01890a5d-ac96-774b-bcce-b302099a8057";
    let second = "01890a5d-ac96-774b-bcce-b302099a8058";
    let mut index: TextMap<String, String> = TextMap::new();
    index.insert(second.to_string(), "a \"quoted\" \u{e9}\n".to_string());
    index.insert(first.to_string(), "mine".to_string());
    let bytes = index_to_bytes(&index);
    let reread = match index_from_bytes(&bytes) {
        Ok(index) => index,
        Err(e) => panic!("{}", e.to_text()),
    };
    assert_eq!(reread.len(), 2);
    for place in 0..index.len() {
        let (id, parent) = index.entry(place);
        assert_eq!(reread.get(id), Some(parent));
    }
}

#[test]
fn record_files_are_checked_before_they_are_decoded() {
    let check = |text: &str| check_record_bytes(&text.as_bytes().to_vec());
    assert!(check("{\"schema_version\": 1, \"other\": null}").is_ok());
    assert!(matches!(
        check("{\"schema_version\": 2}"),
        Err(AgentContinuationError::UnsupportedSchemaVersion { found: 2 })
    ));
    for text in [
        "{}",
        "[1]",
        "{\"schema_version\": \"1\"}",
        "{\"schema_version\": -1}",
        "{\"schema_version\": 4294967296}",
    ] {
        assert_eq!(
            check(text).unwrap_err().to_text(),
            "continuation record is corrupt: continuation record has no valid schema version"
        );
    }
    assert_eq!(
        check("{").unwrap_err().to_text(),
        "continuation record is corrupt: continuation record is not valid JSON"
    );
}

#[test]
fn lineages_bear_the_identities_they_are_given() {
    let store = AgentContinuationStore::new("mine".to_string());
    let mut coordinator = ChildAgentCoordinator::new(store, 1).unwrap();
    let id = "01890a5d-ac96-774b-bcce-b302099a8057";
    let attempt = "01890a5d-ac96-774b-bcce-b302099a8058";
    let (prepared, projection) = coordinator
        .create_lineage(
            AgentContinuationId::parse(id.to_string()).unwrap(),
            AgentAttemptId::parse(attempt.to_string()).unwrap(),
            CreateContinuationInput {
                continuation_id: None,
                parent_task_id: None,
                task_id: "task".to_string(),
                prompt_id: AgentPromptId::new(),
                compatibility: compatibility(),
            },
            facts(),
            NOW,
        )
        .unwrap();
    assert_eq!(prepared.continuation_id.as_str(), id);
    assert_eq!(prepared.attempt_id.as_str(), attempt);
    assert_eq!(projection.updated_at_ms, NOW);
}

#[test]
fn reconciliation_leaves_other_sessions_alone() {
    let mut theirs = ChildAgentCoordinator::new(
        AgentContinuationStore::new("theirs".to_string()),
        1,
    )
    .unwrap();
    let (prepared, _) = theirs
        .create(
            CreateContinuationInput {
                continuation_id: None,
                parent_task_id: None,
                task_id: "task".to_string(),
                prompt_id: AgentPromptId::new(),
                compatibility: compatibility(),
            },
            facts(),
            NOW,
        )
        .unwrap();
    theirs.acquire(&prepared, NOW).unwrap();
    let id = prepared.continuation_id;
    let running = theirs.store.load_record(&id).unwrap().unwrap();
    let mut mine = AgentContinuationStore::new("mine".to_string());
    mine.cache_record(&id, "theirs".to_string(), running).unwrap();
    let projections = mine.reconcile_expired_owners(NOW + 1_000_000).unwrap();
    assert!(projections.is_empty());
    assert!(matches!(
        mine.load_record(&id),
        Err(AgentContinuationError::ParentMismatch { .. })
    ));
    let projections = theirs
        .store
        .reconcile_expired_owners(NOW + 1_000_000)
        .unwrap();
    assert_eq!(projections.len(), 1);
    assert_eq!(projections[0].status, ContinuationStatus::Indeterminate);
}
