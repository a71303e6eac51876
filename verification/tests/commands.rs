use orca_runtime::agent_controller::delegated_config;
use orca_runtime::approval_resolution::{
    can_prompt, resolve_interactive, ActionKind, ApprovalDecision, ApprovalRequest,
};
use orca_runtime::budget::BudgetSpec;
use orca_runtime::command::config::{
    assemble_run_config, ApprovalMode, ConfigOverrides, DesktopNotifications, FileConfig,
    HistoryMode, OutputFormat, ProviderKind, RunConfigRequest,
};
use orca_runtime::command::exec::{
    check_history_flags, plan_exec, resolve_history_mode, resolve_prompt, ExecCommandRequest,
};
use orca_runtime::command::launch::{
    check_public_key, decode_public_key, plan_protocol, plan_worker, prepare_interactive,
    resolve_worker_api_key_from_reader, validate_protocol_request, validate_worktree_pair,
    InteractiveLaunchRequest, ProtocolLaunchRequest, ProtocolMode, SubagentWorkerLaunchRequest,
};

fn file() -> FileConfig<()> {
    FileConfig {
        mode: None,
        budget: BudgetSpec::unlimited(),
        reasoning_effort: None,
        api_key: None,
        base_url: None,
        vim_mode: false,
        vim_insert_escape: None,
        update_check: true,
        desktop_notifications: false,
        terminal_notifications: false,
        auto_memory: false,
        carried: (),
    }
}

fn no_overrides() -> ConfigOverrides {
    ConfigOverrides {
        model: None,
        mode: None,
        api_key: None,
        base_url: None,
        reasoning_effort: None,
    }
}

fn request(version: &str) -> RunConfigRequest {
    RunConfigRequest::new(version.to_string(), "/workspace".to_string())
}

#[test]
fn every_mode_is_carried() {
    for mode in [
        ApprovalMode::Suggest,
        ApprovalMode::AutoEdit,
        ApprovalMode::FullAuto,
        ApprovalMode::Plan,
    ] {
        let file = FileConfig {
            mode: Some(mode),
            ..file()
        };
        let config = assemble_run_config(request("0.3.4"), file, Ok(())).unwrap();
        assert_eq!(config.approval_mode, mode);
    }
}

#[test]
fn notifications_are_configured_by_default() {
    assert_eq!(
        DesktopNotifications::default(),
        DesktopNotifications::FromConfig
    );
}

#[test]
fn missing_file_mode_defaults_to_auto_edit() {
    let config = assemble_run_config(request("0.3.4"), file(), Ok("model")).unwrap();
    assert_eq!(config.approval_mode, ApprovalMode::AutoEdit);
    assert_eq!(config.model, "model");
}

#[test]
fn assembles_shared_run_config_without_losing_launch_fields() {
    let file = FileConfig {
        mode: Some(ApprovalMode::Plan),
        vim_insert_escape: Some("jj".to_string()),
        update_check: false,
        desktop_notifications: true,
        auto_memory: true,
        ..file()
    };
    let request = RunConfigRequest {
        app_version: "9.8.7".to_string(),
        config_cwd: "/config-root".to_string(),
        runtime_cwd: Some("/runtime-root".to_string()),
        prompt: "inspect".to_string(),
        output_format: OutputFormat::Jsonl,
        provider: ProviderKind::Mock,
        verifier: Some("cargo test".to_string()),
        history_mode: HistoryMode::Resume("latest".to_string()),
        show_session_picker: true,
        budget: BudgetSpec {
            max_cost_usd_micros: Some(2_500_000),
            ..BudgetSpec::unlimited()
        },
        overrides: no_overrides(),
        desktop_notifications: DesktopNotifications::FromConfig,
    };

    let config = assemble_run_config(request, file, Ok(())).unwrap();

    assert_eq!(config.app_version, "9.8.7");
    assert_eq!(config.cwd, Some("/runtime-root".to_string()));
    assert_eq!(config.prompt, "inspect");
    assert_eq!(config.output_format, OutputFormat::Jsonl);
    assert_eq!(config.approval_mode, ApprovalMode::Plan);
    assert_eq!(config.provider, ProviderKind::Mock);
    assert_eq!(config.verifier.as_deref(), Some("cargo test"));
    assert!(matches!(
        config.history_mode,
        HistoryMode::Resume(ref selector) if selector == "latest"
    ));
    assert!(config.show_session_picker);
    assert_eq!(config.budget.max_cost_usd_micros, Some(2_500_000));
    assert!(!config.update_check);
    assert_eq!(config.vim_insert_escape.as_deref(), Some("jj"));
    assert!(config.desktop_notifications);
    assert!(config.auto_memory);
}

#[test]
fn delegated_configurations_start_afresh() {
    let config = assemble_run_config(
        RunConfigRequest {
            prompt: "inspect".to_string(),
            history_mode: HistoryMode::Disabled,
            ..request("0.3.4")
        },
        file(),
        Ok("model"),
    )
    .unwrap();
    let child = delegated_config(config, Some("delegated"));
    assert_eq!(child.prompt, "");
    assert!(matches!(child.history_mode, HistoryMode::Record));
    assert_eq!(child.model, "delegated");
    assert_eq!(child.app_version, "0.3.4");
    assert_eq!(delegated_config(child, None).model, "delegated");
}

#[test]
fn cli_budget_overrides_file_budget_dimension_wise() {
    let file = FileConfig {
        budget: BudgetSpec {
            max_turns: Some(16),
            max_cost_usd_micros: Some(1_000_000),
            ..BudgetSpec::unlimited()
        },
        ..file()
    };
    let request = RunConfigRequest {
        budget: BudgetSpec {
            max_turns: Some(8),
            ..BudgetSpec::unlimited()
        },
        ..request("0.3.0")
    };

    let config = assemble_run_config(request, file, Ok(())).unwrap();
    assert_eq!(config.budget.max_turns, Some(8));
    assert_eq!(config.budget.max_cost_usd_micros, Some(1_000_000));
    assert_eq!(config.budget.max_tool_calls, None);
}

#[test]
fn zero_budget_dimension_is_rejected_with_clear_error() {
    let request = RunConfigRequest {
        budget: BudgetSpec {
            max_turns: Some(0),
            ..BudgetSpec::unlimited()
        },
        ..request("0.3.0")
    };

    let error = assemble_run_config(request, file(), Ok(()))
        .expect_err("zero max_turns must be rejected");
    assert!(error.contains("max_turns"));
}

#[test]
fn launch_can_disable_desktop_notifications_without_changing_file_config() {
    let file = FileConfig {
        desktop_notifications: true,
        ..file()
    };
    let request = RunConfigRequest {
        desktop_notifications: DesktopNotifications::Disabled,
        ..request("0.2.55")
    };

    let config = assemble_run_config(request, file, Ok(())).unwrap();

    assert!(!config.desktop_notifications);
}

#[test]
fn a_bad_model_is_refused_before_the_budget() {
    let mut request = request("0.3.0");
    request.budget.max_turns = Some(0);
    let error =
        assemble_run_config::<(), ()>(request, file(), Err("unknown model".to_string())).unwrap_err();
    assert_eq!(error, "unknown model");
}

#[test]
fn resolves_argument_prompt_without_reading_terminal_stdin() {
    assert_eq!(
        resolve_prompt(
            vec!["inspect".into(), "repo".into()],
            true,
            Ok(String::new())
        )
        .unwrap(),
        "inspect repo"
    );
}

#[test]
fn resolves_dash_and_omitted_prompts_from_piped_stdin() {
    assert_eq!(
        resolve_prompt(vec!["-".into()], false, Ok("from pipe\n".to_string())).unwrap(),
        "from pipe\n"
    );
    assert_eq!(
        resolve_prompt(Vec::new(), false, Ok("from pipe".to_string())).unwrap(),
        "from pipe"
    );
}

#[test]
fn appends_nonempty_piped_stdin_to_argument_prompt() {
    assert_eq!(
        resolve_prompt(vec!["review".into()], false, Ok("context".to_string())).unwrap(),
        "review\n\n<stdin>\ncontext\n</stdin>"
    );
}

#[test]
fn rejects_missing_or_empty_piped_prompt() {
    assert_eq!(
        resolve_prompt(Vec::new(), true, Ok(String::new())).unwrap_err(),
        "No prompt provided. Either specify one as an argument or pipe the prompt into stdin."
    );
    assert_eq!(
        resolve_prompt(Vec::new(), false, Ok("  \n".to_string())).unwrap_err(),
        "No prompt provided via stdin."
    );
}

#[test]
fn unreadable_stdin_is_reported_only_where_it_is_read() {
    let broken = || Err("pipe closed".to_string());
    assert_eq!(
        resolve_prompt(vec!["-".into()], false, broken()).unwrap_err(),
        "failed to read stdin: pipe closed"
    );
    assert_eq!(
        resolve_prompt(vec!["go".into()], true, broken()).unwrap(),
        "go"
    );
    assert_eq!(
        resolve_prompt(vec!["go".into()], false, Ok(" \n".to_string())).unwrap(),
        "go"
    );
    assert_eq!(
        resolve_prompt(vec!["go".into()], false, Ok("a\n".to_string())).unwrap(),
        "go\n\n<stdin>\na\n</stdin>"
    );
}

fn exec_request() -> ExecCommandRequest {
    ExecCommandRequest {
        app_version: "1".to_string(),
        output_format: OutputFormat::Text,
        cwd: None,
        approval_mode: None,
        model: None,
        api_key: None,
        base_url: None,
        verifier: None,
        max_turns: None,
        max_tool_calls: None,
        max_cost_usd_micros: None,
        max_wall_time_secs: None,
        resume: None,
        resume_at: None,
        fork: None,
        continue_latest: false,
        no_history: false,
        save_history: false,
        provider: ProviderKind::Mock,
        prompt: vec!["go".to_string()],
    }
}

#[test]
fn conflicting_history_flags_are_refused() {
    let refuse = |change: fn(&mut ExecCommandRequest)| {
        let mut request = exec_request();
        change(&mut request);
        check_history_flags(&request).unwrap_err()
    };
    assert_eq!(
        refuse(|r| {
            r.no_history = true;
            r.continue_latest = true;
        }),
        "--resume/--fork/--continue cannot be combined with --no-history"
    );
    assert_eq!(
        refuse(|r| {
            r.no_history = true;
            r.save_history = true;
        }),
        "--save-history cannot be combined with --no-history"
    );
    assert_eq!(
        refuse(|r| {
            r.fork = Some("a".to_string());
            r.continue_latest = true;
        }),
        "--resume, --fork, and --continue are mutually exclusive"
    );
    assert_eq!(
        refuse(|r| {
            r.fork = Some("a".to_string());
            r.resume_at = Some("b".to_string());
        }),
        "--resume-at cannot be combined with --fork"
    );
    assert_eq!(
        refuse(|r| {
            r.resume_at = Some("b".to_string());
        }),
        "--resume-at requires --resume, --continue, or the resume subcommand"
    );
    assert!(check_history_flags(&exec_request()).is_ok());
}

#[test]
fn history_modes_follow_the_flags() {
    let at = resolve_history_mode(
        None,
        None,
        true,
        Some("msg".to_string()),
        HistoryMode::Record,
    );
    assert!(matches!(
        at,
        HistoryMode::ResumeAt { ref selector, ref resume_at }
            if selector == "latest" && resume_at == "msg"
    ));
    let fork = resolve_history_mode(
        Some("a".to_string()),
        Some("b".to_string()),
        false,
        None,
        HistoryMode::Record,
    );
    assert!(matches!(fork, HistoryMode::Fork(ref s) if s == "b"));
    let none = resolve_history_mode(None, None, false, None, HistoryMode::Disabled);
    assert!(matches!(none, HistoryMode::Disabled));
}

#[test]
fn exec_plans_carry_limits_and_history() {
    let mut request = exec_request();
    request.output_format = OutputFormat::Jsonl;
    request.max_wall_time_secs = Some(3);
    request.max_turns = Some(9);
    let config = plan_exec(request, true, Ok(String::new()), "/here".to_string()).unwrap();
    assert_eq!(config.budget.max_wall_time_ms, Some(3_000));
    assert_eq!(config.budget.max_turns, Some(9));
    assert_eq!(config.config_cwd, "/here");
    assert_eq!(config.runtime_cwd, None);
    assert!(matches!(config.history_mode, HistoryMode::Disabled));

    let mut kept = exec_request();
    kept.output_format = OutputFormat::Jsonl;
    kept.save_history = true;
    kept.max_wall_time_secs = Some(u64::MAX);
    let config = plan_exec(kept, true, Ok(String::new()), "/here".to_string()).unwrap();
    assert!(matches!(config.history_mode, HistoryMode::Record));
    assert_eq!(config.budget.max_wall_time_ms, Some(u64::MAX));
}

fn protocol_request() -> ProtocolLaunchRequest {
    ProtocolLaunchRequest {
        app_version: "0.2.55".to_string(),
        mode: ProtocolMode::Server,
        has_command: false,
        prompt: Vec::new(),
        cwd: None,
        provider: ProviderKind::Mock,
        model: None,
        api_key: None,
        base_url: None,
    }
}

#[test]
fn protocol_launch_rejects_subcommands_and_prompts() {
    let request = ProtocolLaunchRequest {
        has_command: true,
        ..protocol_request()
    };
    assert_eq!(
        validate_protocol_request(&request).unwrap_err(),
        "--mode=server cannot be combined with a subcommand or prompt"
    );
}

#[test]
fn protocol_plans_are_machine_readable_and_quiet() {
    let refused = ProtocolLaunchRequest {
        mode: ProtocolMode::Acp,
        prompt: vec!["hi".to_string()],
        ..protocol_request()
    };
    assert_eq!(
        plan_protocol(refused, "/here".to_string()).unwrap_err(),
        "--mode=acp cannot be combined with a subcommand or prompt"
    );
    let config = plan_protocol(protocol_request(), "/here".to_string()).unwrap();
    assert_eq!(config.output_format, OutputFormat::Jsonl);
    assert_eq!(config.desktop_notifications, DesktopNotifications::Disabled);
    assert_eq!(config.runtime_cwd.as_deref(), Some("/here"));
}

fn interactive_request() -> InteractiveLaunchRequest {
    InteractiveLaunchRequest {
        app_version: "0.2.55".to_string(),
        resume: None,
        fork: None,
        continue_latest: false,
        session_picker: false,
        cwd: None,
        model: None,
        mode: None,
        api_key: None,
        base_url: None,
        provider: ProviderKind::Mock,
        prompt: Vec::new(),
    }
}

#[test]
fn interactive_launch_rejects_multiple_resume_selectors() {
    let request = InteractiveLaunchRequest {
        resume: Some("one".to_string()),
        fork: Some("two".to_string()),
        ..interactive_request()
    };
    assert_eq!(
        prepare_interactive(request, "/here".to_string()).unwrap_err(),
        "--resume, --fork, and --continue are mutually exclusive"
    );
}

#[test]
fn interactive_launch_preserves_requested_cwd() {
    let request = InteractiveLaunchRequest {
        cwd: Some("/requested".to_string()),
        api_key: Some("test-key".to_string()),
        prompt: vec!["hello".to_string()],
        ..interactive_request()
    };
    let config = prepare_interactive(request, "/here".to_string()).expect("interactive config");
    assert_eq!(config.runtime_cwd.as_deref(), Some("/requested"));
    let config = assemble_run_config(config, file(), Ok(())).unwrap();
    assert_eq!(config.cwd.as_deref(), Some("/requested"));
}

#[test]
fn interactive_launch_passes_a_bad_mode_on() {
    let request = InteractiveLaunchRequest {
        mode: Some(Err("unknown mode".to_string())),
        ..interactive_request()
    };
    assert_eq!(
        prepare_interactive(request, "/here".to_string()).unwrap_err(),
        "unknown mode"
    );
}

#[test]
fn subagent_worker_requires_complete_worktree_identity() {
    assert!(validate_worktree_pair(Some("repo".to_string()), None).is_err());
    assert!(validate_worktree_pair(None, Some("tree".to_string())).is_err());
    assert!(validate_worktree_pair(None, None).unwrap().is_none());
}

#[test]
fn worker_credentials_are_bounded() {
    let key = |n: usize| Ok("k".repeat(n));
    assert_eq!(
        resolve_worker_api_key_from_reader(None, true, key(65_536))
            .unwrap()
            .map(|key| key.len()),
        Some(65_536)
    );
    assert_eq!(
        resolve_worker_api_key_from_reader(None, true, key(65_537)).unwrap_err(),
        "worker credential from stdin exceeds 64 KiB"
    );
    assert_eq!(
        resolve_worker_api_key_from_reader(None, true, Ok("\u{e9}".repeat(32_769))).unwrap_err(),
        "worker credential from stdin exceeds 64 KiB"
    );
    assert_eq!(
        resolve_worker_api_key_from_reader(Some("a".to_string()), true, key(1)).unwrap_err(),
        "--api-key and --api-key-stdin cannot be used together"
    );
    assert_eq!(
        resolve_worker_api_key_from_reader(None, true, Err("closed".to_string())).unwrap_err(),
        "failed to read worker credential from stdin: closed"
    );
    assert_eq!(
        resolve_worker_api_key_from_reader(Some("a".to_string()), false, key(1)).unwrap(),
        Some("a".to_string())
    );
}

#[test]
fn permission_keys_are_base64_of_32_bytes() {
    let text = "AAECAwQFBgcICQoLDA0ODxAREhMUFRYXGBkaGxwdHh8=";
    let key = decode_public_key(text).unwrap();
    assert_eq!(key, (0u8..32).collect::<Vec<_>>());
    assert_eq!(
        decode_public_key("AAEC").unwrap_err(),
        "invalid detached permission response public key"
    );
    assert!(decode_public_key("not base64!").is_err());
    assert!(check_public_key(None).is_err());
    assert!(check_public_key(Some(vec![0; 33])).is_err());
    assert!(check_public_key(Some(vec![7; 32])).is_ok());
}

fn worker() -> SubagentWorkerLaunchRequest<&'static str> {
    SubagentWorkerLaunchRequest {
        app_version: "1".to_string(),
        cwd: "/repo".to_string(),
        child_cwd: "/repo/child".to_string(),
        provider: ProviderKind::Mock,
        model: None,
        api_key: Some("key".to_string()),
        api_key_stdin: false,
        base_url: None,
        session_id: "session".to_string(),
        agent_id: "agent".to_string(),
        subagent_depth: 2,
        request: Ok("request"),
        worktree_repo_root: None,
        worktree_path: None,
        permission_response_public_key: "AAECAwQFBgcICQoLDA0ODxAREhMUFRYXGBkaGxwdHh8=".to_string(),
    }
}

#[test]
fn worker_plans_report_the_first_error() {
    let nothing = || Ok(String::new());
    let plan = plan_worker(worker(), nothing()).unwrap();
    assert_eq!(plan.request, "request");
    assert_eq!(plan.child_depth, 2);
    assert_eq!(plan.config.overrides.api_key.as_deref(), Some("key"));
    assert!(matches!(plan.config.history_mode, HistoryMode::Disabled));

    let mut bad = worker();
    bad.request = Err("expected value".to_string());
    bad.permission_response_public_key = "AAEC".to_string();
    assert_eq!(
        plan_worker(bad, nothing()).unwrap_err(),
        "invalid subagent worker request JSON: expected value"
    );
    let mut bad = worker();
    bad.permission_response_public_key = "AAEC".to_string();
    bad.worktree_path = Some("/tree".to_string());
    assert_eq!(
        plan_worker(bad, nothing()).unwrap_err(),
        "invalid detached permission response public key"
    );
    let mut bad = worker();
    bad.worktree_path = Some("/tree".to_string());
    assert_eq!(
        plan_worker(bad, nothing()).unwrap_err(),
        "--worktree-repo-root and --worktree-path must be provided together"
    );
}

fn approval() -> ApprovalRequest {
    ApprovalRequest {
        id: "approval-1".to_string(),
        action: ActionKind::Write,
        description: "edit tracked.txt".to_string(),
        tool: Some("edit".to_string()),
        target: Some("tracked.txt".to_string()),
        preview: None,
    }
}

#[test]
fn jsonl_mode_denies_interactive_approval_without_prompting() {
    assert!(!can_prompt(OutputFormat::Jsonl));
    let resolution = resolve_interactive(
        OutputFormat::Jsonl,
        &approval(),
        Err::<bool, String>("nobody was asked".to_string()),
    )
    .expect("approval resolution");

    assert_eq!(resolution.id, "approval-1");
    assert_eq!(resolution.decision, ApprovalDecision::Deny);
    assert_eq!(
        resolution.reason,
        "interactive confirmation unavailable in jsonl mode"
    );
}

#[test]
fn text_mode_follows_the_user() {
    let ask = |answer: Result<bool, String>| {
        resolve_interactive(OutputFormat::Text, &approval(), answer)
    };
    let yes = ask(Ok(true)).unwrap();
    assert_eq!(yes.decision, ApprovalDecision::Allow);
    assert_eq!(yes.reason, "user approved");
    let no = ask(Ok(false)).unwrap();
    assert_eq!(no.decision, ApprovalDecision::Deny);
    assert_eq!(no.reason, "user denied");
    assert_eq!(ask(Err("closed".to_string())).unwrap_err(), "closed");
}
