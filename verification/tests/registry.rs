use orca_runtime::agent_registry::{
    AgentActivity, AgentEvent, AgentEventEnvelope, AgentRegistry, AgentRegistryError, AgentStatus,
    JournalLine, UsageTotals,
};

fn event(sequence: u64, event_id: &str, event: AgentEvent) -> AgentEventEnvelope {
    AgentEventEnvelope {
        event_id: event_id.to_string(),
        root_thread_id: "root".to_string(),
        agent_id: "agent".to_string(),
        thread_id: "thread".to_string(),
        attempt_id: "attempt".to_string(),
        source_sequence: sequence,
        occurred_at_ms: sequence as i64,
        payload_digest: format!("digest-{}", event_id),
        event,
    }
}

fn spawned() -> AgentEvent {
    AgentEvent::Spawned {
        batch_id: "batch".to_string(),
        batch_size: 1,
        parent_thread_id: "root".to_string(),
        description: "inspect".to_string(),
    }
}

fn completed() -> AgentEvent {
    AgentEvent::Completed {
        result: Some("ok".to_string()),
        usage: UsageTotals::zero(),
    }
}

fn line(event: AgentEventEnvelope, fault: Option<&str>) -> JournalLine {
    JournalLine {
        text: format!("line {}", event.source_sequence),
        decoded: Ok((event, fault.map(|fault| fault.to_string()))),
    }
}

#[test]
fn registry_reduces_one_ordered_event_stream() {
    let mut registry = AgentRegistry::in_memory();
    registry.append(event(1, "spawn", spawned()), None).unwrap();
    registry.append(event(2, "done", completed()), None).unwrap();

    let snapshot = registry.snapshot("root");
    assert_eq!(snapshot.revision, 2);
    assert_eq!(snapshot.agents[0].status, AgentStatus::Completed);
    assert_eq!(snapshot.agents[0].result.as_deref(), Some("ok"));
}

#[test]
fn poison_record_is_dead_lettered_and_does_not_block_later_frames() {
    let poison = event(
        2,
        "poison",
        AgentEvent::Activity {
            activity: AgentActivity::Thinking,
            turn: Some(1),
            usage: None,
        },
    );
    let lines = vec![
        line(event(1, "spawn", spawned()), None),
        line(poison, Some("agent event digest mismatch")),
        line(event(3, "done", completed()), None),
    ];

    let (registry, letters) = AgentRegistry::open(&lines);

    assert_eq!(
        registry.snapshot("root").agents[0].status,
        AgentStatus::Completed
    );
    assert_eq!(letters.len(), 1);
    assert_eq!(letters[0].line, 2);
    assert_eq!(letters[0].reason, "agent event digest mismatch");
}

#[test]
fn undecodable_lines_become_dead_letters_and_blank_ones_do_not() {
    let lines = vec![
        JournalLine {
            text: "  ".to_string(),
            decoded: Err("unused".to_string()),
        },
        JournalLine {
            text: "{".to_string(),
            decoded: Err("EOF while parsing".to_string()),
        },
        line(event(1, "spawn", spawned()), None),
    ];
    let (registry, letters) = AgentRegistry::open(&lines);
    assert_eq!(letters.len(), 1);
    assert_eq!(letters[0].line, 2);
    assert_eq!(registry.snapshot("root").agents.len(), 1);
    assert_eq!(registry.roots(), vec!["root".to_string()]);
}

#[test]
fn gaps_and_conflicts_are_refused() {
    let mut registry = AgentRegistry::in_memory();
    let gap = registry
        .append(event(2, "spawn", spawned()), None)
        .unwrap_err();
    assert_eq!(
        gap.to_text(),
        "agent event sequence gap: expected 1, observed 2"
    );
    registry.append(event(1, "spawn", spawned()), None).unwrap();
    registry.append(event(1, "spawn", spawned()), None).unwrap();
    assert_eq!(registry.snapshot("root").revision, 1);

    let mut conflicting = event(1, "spawn", spawned());
    conflicting.payload_digest = "other".to_string();
    let conflict = registry.append(conflicting, None).unwrap_err();
    assert_eq!(
        conflict.to_text(),
        "agent event id was reused with a conflicting digest"
    );

    let twice = registry
        .append(event(2, "spawn-again", spawned()), None)
        .unwrap_err();
    assert_eq!(twice.to_text(), "agent identity already exists");

    let mut moved = event(2, "moved", completed());
    moved.thread_id = "elsewhere".to_string();
    let moved = registry.append(moved, None).unwrap_err();
    assert_eq!(moved.to_text(), "agent event thread identity changed");

    let mut unknown = event(1, "unknown", completed());
    unknown.agent_id = "nobody".to_string();
    let unknown = registry.append(unknown, None).unwrap_err();
    assert_eq!(unknown.to_text(), "agent does not exist");

    let invalid = registry
        .append(event(2, "bad", completed()), Some("bad envelope".to_string()))
        .unwrap_err();
    assert!(matches!(
        invalid,
        AgentRegistryError::InvalidEnvelope { ref reason } if reason == "bad envelope"
    ));
}

#[test]
fn snapshots_are_ordered_by_creation_and_name() {
    let mut registry = AgentRegistry::in_memory();
    for (id, at) in [("zed", 5i64), ("amy", 9), ("bob", 5)] {
        let mut spawn = event(1, id, spawned());
        spawn.agent_id = id.to_string();
        spawn.occurred_at_ms = at;
        registry.append(spawn, None).unwrap();
    }
    let order = registry
        .snapshot("root")
        .agents
        .iter()
        .map(|agent| agent.agent_id.clone())
        .collect::<Vec<_>>();
    assert_eq!(order, vec!["bob", "zed", "amy"]);
    assert!(registry.snapshot("other").agents.is_empty());
}

#[test]
fn activity_and_permission_events_update_the_summary() {
    let mut registry = AgentRegistry::in_memory();
    registry.append(event(1, "spawn", spawned()), None).unwrap();
    registry
        .append(
            event(
                2,
                "tool",
                AgentEvent::Activity {
                    activity: AgentActivity::Tool {
                        name: "bash".to_string(),
                    },
                    turn: Some(3),
                    usage: None,
                },
            ),
            None,
        )
        .unwrap();
    let agent = &registry.snapshot("root").agents[0];
    assert_eq!(agent.status, AgentStatus::Running);
    assert_eq!(agent.turn, Some(3));
    registry
        .append(
            event(
                3,
                "ask",
                AgentEvent::PermissionRequested {
                    description: "network".to_string(),
                },
            ),
            None,
        )
        .unwrap();
    let agent = &registry.snapshot("root").agents[0];
    assert_eq!(agent.status, AgentStatus::WaitingPermission);
    assert_eq!(agent.updated_at_ms, 3);
}

#[test]
fn reopened_journals_give_the_registry_back() {
    let mut registry = AgentRegistry::in_memory();
    registry.append(event(1, "spawn", spawned()), None).unwrap();
    registry.append(event(2, "done", completed()), None).unwrap();
    let (reopened, letters) = AgentRegistry::open(&vec![
        line(event(1, "spawn", spawned()), None),
        line(event(2, "done", completed()), None),
    ]);
    assert!(letters.is_empty());
    let (before, after) = (registry.snapshot("root"), reopened.snapshot("root"));
    assert_eq!(after.revision, before.revision);
    assert_eq!(after.agents.len(), 1);
    assert_eq!(after.agents[0].status, before.agents[0].status);
    assert_eq!(after.agents[0].result, before.agents[0].result);
    assert_eq!(after.agents[0].updated_at_ms, 2);
}
