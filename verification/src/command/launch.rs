//! Launching the interactive session, the protocol servers and detached
//! subagent workers.

use vstd::prelude::*;
use vstd::string::*;
use base64::Engine;
use crate::agent_continuation::ids::opt_bytes;
use crate::budget::BudgetSpec;
use crate::command::config::{
    ApprovalMode, ConfigOverrides, DesktopNotifications, HistoryMode, OutputFormat, ProviderKind,
    RunConfigRequest,
};
use crate::command::exec::{
    more_than_one, resolve_history_mode, selected_history, several_selectors, HistoryView,
};
use crate::text::{join, joined, opt_chars, plus, plus3};

verus! {

/// The largest worker credential in bytes.
pub const MAX_WORKER_API_KEY_BYTES: usize = 65536;

#[derive(Clone, Copy, Debug, PartialEq, Eq, Structural)]
pub enum ProtocolMode {
    Server,
    Acp,
}

#[derive(Debug)]
pub struct ProtocolLaunchRequest {
    pub app_version: String,
    pub mode: ProtocolMode,
    pub has_command: bool,
    pub prompt: Vec<String>,
    pub cwd: Option<String>,
    pub provider: ProviderKind,
    pub model: Option<String>,
    pub api_key: Option<String>,
    pub base_url: Option<String>,
}

/// A request for the interactive session. The approval mode is what parsing the
/// mode argument gave, where there was one.
#[derive(Debug)]
pub struct InteractiveLaunchRequest {
    pub app_version: String,
    pub resume: Option<String>,
    pub fork: Option<String>,
    pub continue_latest: bool,
    pub session_picker: bool,
    pub cwd: Option<String>,
    pub model: Option<String>,
    pub mode: Option<Result<ApprovalMode, String>>,
    pub api_key: Option<String>,
    pub base_url: Option<String>,
    pub provider: ProviderKind,
    pub prompt: Vec<String>,
}

/// The configuration request of a launch in one directory.
pub open spec fn launch_config(
    config: RunConfigRequest,
    app_version: String,
    cwd: String,
    provider: ProviderKind,
    output_format: OutputFormat,
    overrides: ConfigOverrides,
) -> bool {
    &&& config.app_version == app_version
    &&& config.config_cwd == cwd
    &&& config.runtime_cwd == Some(cwd)
    &&& config.output_format == output_format
    &&& config.provider == provider
    &&& config.verifier is None
    &&& config.budget == BudgetSpec::unlimited_spec()
    &&& config.overrides == overrides
}

pub open spec fn effective_cwd(cwd: Option<String>, current_dir: String) -> String {
    match cwd {
        Some(cwd) => cwd,
        None => current_dir,
    }
}

/// The configuration request of the interactive session, or why it cannot
/// start.
pub fn prepare_interactive(request: InteractiveLaunchRequest, current_dir: String) -> (r: Result<
    RunConfigRequest,
    String,
>)
    ensures
        if several_selectors(request.resume is Some, request.fork is Some, request.continue_latest) {
            r matches Err(e) && e@ == "--resume, --fork, and --continue are mutually exclusive"@
        } else if request.mode is Some && request.mode->0 is Err {
            r == Err::<RunConfigRequest, String>(request.mode->0->Err_0)
        } else {
            r matches Ok(config) && {
                &&& launch_config(
                    config,
                    request.app_version,
                    effective_cwd(request.cwd, current_dir),
                    request.provider,
                    OutputFormat::Text,
                    (ConfigOverrides {
                        model: request.model,
                        mode: match request.mode {
                            Some(Ok(mode)) => Some(mode),
                            _ => None,
                        },
                        api_key: request.api_key,
                        base_url: request.base_url,
                        reasoning_effort: None,
                    }),
                )
                &&& config.prompt@ == joined(request.prompt@, " "@)
                &&& config.history_mode@ == selected_history(
                    request.resume,
                    request.fork,
                    request.continue_latest,
                    None,
                    HistoryView::Record,
                )
                &&& config.show_session_picker == request.session_picker
                &&& config.desktop_notifications == DesktopNotifications::FromConfig
            }
        },
{
    if more_than_one(request.resume.is_some(), request.fork.is_some(), request.continue_latest) {
        return Err("--resume, --fork, and --continue are mutually exclusive".to_owned());
    }
    let cwd = match request.cwd {
        Some(cwd) => cwd,
        None => current_dir,
    };
    let mode = match request.mode {
        Some(Ok(mode)) => Some(mode),
        Some(Err(e)) => {
            return Err(e);
        },
        None => None,
    };
    let history_mode = resolve_history_mode(
        request.resume,
        request.fork,
        request.continue_latest,
        None,
        HistoryMode::Record,
    );
    let mut config = RunConfigRequest::new(request.app_version, cwd.clone());
    config.runtime_cwd = Some(cwd);
    config.prompt = join(&request.prompt, " ");
    config.output_format = OutputFormat::Text;
    config.provider = request.provider;
    config.history_mode = history_mode;
    config.show_session_picker = request.session_picker;
    config.overrides =
    ConfigOverrides {
        model: request.model,
        mode,
        api_key: request.api_key,
        base_url: request.base_url,
        reasoning_effort: None,
    };
    Ok(config)
}

/// The name of a protocol mode on the command line.
pub open spec fn mode_name(mode: ProtocolMode) -> Seq<char> {
    match mode {
        ProtocolMode::Server => "server"@,
        ProtocolMode::Acp => "acp"@,
    }
}

/// A protocol server takes neither a subcommand nor a prompt.
pub fn validate_protocol_request(request: &ProtocolLaunchRequest) -> (r: Result<(), String>)
    ensures
        match r {
            Ok(_) => !request.has_command && request.prompt@.len() == 0,
            Err(e) => (request.has_command || request.prompt@.len() > 0) && e@ == "--mode="@
                + mode_name(request.mode) + " cannot be combined with a subcommand or prompt"@,
        },
{
    if request.has_command || request.prompt.len() > 0 {
        let mode = match request.mode {
            ProtocolMode::Server => "server",
            ProtocolMode::Acp => "acp",
        };
        return Err(
            plus3("--mode=", mode, " cannot be combined with a subcommand or prompt"),
        );
    }
    Ok(())
}

/// The configuration request of a protocol server, or why it cannot start.
pub fn plan_protocol(request: ProtocolLaunchRequest, current_dir: String) -> (r: Result<
    RunConfigRequest,
    String,
>)
    ensures
        if request.has_command || request.prompt@.len() > 0 {
            r matches Err(e) && e@ == "--mode="@ + mode_name(request.mode)
                + " cannot be combined with a subcommand or prompt"@
        } else {
            r matches Ok(config) && {
                &&& launch_config(
                    config,
                    request.app_version,
                    effective_cwd(request.cwd, current_dir),
                    request.provider,
                    OutputFormat::Jsonl,
                    (ConfigOverrides {
                        model: request.model,
                        mode: None,
                        api_key: request.api_key,
                        base_url: request.base_url,
                        reasoning_effort: None,
                    }),
                )
                &&& config.prompt@.len() == 0
                &&& config.history_mode is Record
                &&& !config.show_session_picker
                &&& config.desktop_notifications == DesktopNotifications::Disabled
            }
        },
{
    match validate_protocol_request(&request) {
        Ok(_) => {},
        Err(e) => {
            return Err(e);
        },
    }
    let cwd = match request.cwd {
        Some(cwd) => cwd,
        None => current_dir,
    };
    let mut config = RunConfigRequest::new(request.app_version, cwd.clone());
    config.runtime_cwd = Some(cwd);
    config.output_format = OutputFormat::Jsonl;
    config.provider = request.provider;
    config.history_mode = HistoryMode::Record;
    config.desktop_notifications = DesktopNotifications::Disabled;
    config.overrides =
    ConfigOverrides {
        model: request.model,
        mode: None,
        api_key: request.api_key,
        base_url: request.base_url,
        reasoning_effort: None,
    };
    Ok(config)
}

/// A worktree that a detached worker runs in.
#[derive(Debug)]
pub struct AsyncSubagentWorktree {
    pub repo_root: String,
    pub path: String,
}

/// A worktree is given by both of its paths or not at all.
pub fn validate_worktree_pair(repo_root: Option<String>, path: Option<String>) -> (r: Result<
    Option<AsyncSubagentWorktree>,
    String,
>)
    ensures
        match (repo_root, path) {
            (Some(repo_root), Some(path)) => r == Ok::<Option<AsyncSubagentWorktree>, String>(
                Some(AsyncSubagentWorktree { repo_root, path }),
            ),
            (None, None) => r == Ok::<Option<AsyncSubagentWorktree>, String>(None),
            _ => r matches Err(e) && e@
                == "--worktree-repo-root and --worktree-path must be provided together"@,
        },
{
    match (repo_root, path) {
        (Some(repo_root), Some(path)) => Ok(Some(AsyncSubagentWorktree { repo_root, path })),
        (None, None) => Ok(None),
        _ => Err(
            "--worktree-repo-root and --worktree-path must be provided together".to_owned(),
        ),
    }
}

/// The credential that a worker uses, or why it has none. `read` is what reading
/// at most one byte more than the limit gave, an error by its text.
pub open spec fn worker_api_key(
    api_key_arg: Option<String>,
    api_key_stdin: bool,
    read: Result<String, String>,
) -> Result<Option<Seq<char>>, Seq<char>> {
    if !api_key_stdin {
        Ok(opt_chars(api_key_arg))
    } else if api_key_arg is Some {
        Err("--api-key and --api-key-stdin cannot be used together"@)
    } else {
        match read {
            Err(e) => Err("failed to read worker credential from stdin: "@ + e@),
            Ok(key) => if vstd::utf8::encode_utf8(key@).len() > MAX_WORKER_API_KEY_BYTES {
                Err("worker credential from stdin exceeds 64 KiB"@)
            } else {
                Ok(Some(key@))
            },
        }
    }
}

pub fn resolve_worker_api_key_from_reader(
    api_key_arg: Option<String>,
    api_key_stdin: bool,
    read: Result<String, String>,
) -> (r: Result<Option<String>, String>)
    ensures
        match r {
            Ok(key) => worker_api_key(api_key_arg, api_key_stdin, read) == Ok::<
                Option<Seq<char>>,
                Seq<char>,
            >(opt_chars(key)),
            Err(e) => worker_api_key(api_key_arg, api_key_stdin, read) == Err::<
                Option<Seq<char>>,
                Seq<char>,
            >(e@),
        },
{
    if !api_key_stdin {
        return Ok(api_key_arg);
    }
    if api_key_arg.is_some() {
        return Err("--api-key and --api-key-stdin cannot be used together".to_owned());
    }
    let api_key = match read {
        Ok(key) => key,
        Err(e) => {
            return Err(plus("failed to read worker credential from stdin: ", e.as_str()));
        },
    };
    if api_key.as_str().as_bytes().len() > MAX_WORKER_API_KEY_BYTES {
        return Err("worker credential from stdin exceeds 64 KiB".to_owned());
    }
    Ok(Some(api_key))
}

/// The bytes that a text encodes in standard base64, where it encodes any.
pub uninterp spec fn base64_decoded(text: Seq<char>) -> Option<Seq<u8>>;

/// Calls `decode` of `base64::engine::general_purpose::STANDARD` on the text's
/// bytes. What it gives depends on the text alone; the reason for which a text
/// is refused is dropped.
#[verifier::external_body]
fn decode_base64(text: &str) -> (r: Option<Vec<u8>>)
    ensures
        opt_bytes(r) == base64_decoded(text@),
{
    base64::engine::general_purpose::STANDARD.decode(text.as_bytes()).ok()
}

/// The key that decoded bytes are: exactly 32 of them.
pub open spec fn public_key_of(decoded: Option<Seq<u8>>) -> Option<Seq<u8>> {
    match decoded {
        Some(bytes) => if bytes.len() == 32 {
            Some(bytes)
        } else {
            None
        },
        None => None,
    }
}

/// Takes decoded bytes as a key.
pub fn check_public_key(decoded: Option<Vec<u8>>) -> (r: Result<Vec<u8>, String>)
    ensures
        match r {
            Ok(key) => public_key_of(opt_bytes(decoded)) == Some(key@),
            Err(e) => public_key_of(opt_bytes(decoded)) is None && e@
                == "invalid detached permission response public key"@,
        },
{
    match decoded {
        Some(bytes) => if bytes.len() == 32 {
            Ok(bytes)
        } else {
            Err("invalid detached permission response public key".to_owned())
        },
        None => Err("invalid detached permission response public key".to_owned()),
    }
}

/// The key with which a worker checks permission responses, from its text.
pub fn decode_public_key(text: &str) -> (r: Result<Vec<u8>, String>)
    ensures
        match r {
            Ok(key) => public_key_of(base64_decoded(text@)) == Some(key@),
            Err(e) => public_key_of(base64_decoded(text@)) is None && e@
                == "invalid detached permission response public key"@,
        },
{
    let decoded = decode_base64(text);
    check_public_key(decoded)
}

/// A request to run a detached subagent. `request` is what parsing the
/// subagent's own request gave, an error by its text.
#[derive(Debug)]
pub struct SubagentWorkerLaunchRequest<R> {
    pub app_version: String,
    pub cwd: String,
    pub child_cwd: String,
    pub provider: ProviderKind,
    pub model: Option<String>,
    pub api_key: Option<String>,
    pub api_key_stdin: bool,
    pub base_url: Option<String>,
    pub session_id: String,
    pub agent_id: String,
    pub subagent_depth: u32,
    pub request: Result<R, String>,
    pub worktree_repo_root: Option<String>,
    pub worktree_path: Option<String>,
    pub permission_response_public_key: String,
}

/// What a detached subagent runs with.
#[derive(Debug)]
pub struct SubagentWorkerPlan<R> {
    pub config: RunConfigRequest,
    pub cwd: String,
    pub child_cwd: String,
    pub task_session_id: String,
    pub agent_id: String,
    pub request: R,
    pub child_depth: u32,
    pub worktree: Option<AsyncSubagentWorktree>,
    pub permission_response_public_key: Vec<u8>,
}

/// The first thing that is wrong with a worker's request, where the text of its
/// key decodes as given.
pub open spec fn worker_error<R>(
    request: SubagentWorkerLaunchRequest<R>,
    read: Result<String, String>,
    decoded: Option<Seq<u8>>,
) -> Option<Seq<char>> {
    if request.request is Err {
        Some("invalid subagent worker request JSON: "@ + request.request->Err_0@)
    } else {
        match worker_api_key(request.api_key, request.api_key_stdin, read) {
            Err(e) => Some(e),
            Ok(_) => if public_key_of(decoded) is None {
                Some("invalid detached permission response public key"@)
            } else if request.worktree_repo_root is Some != request.worktree_path is Some {
                Some("--worktree-repo-root and --worktree-path must be provided together"@)
            } else {
                None
            },
        }
    }
}

/// The plan that follows from a worker's request.
pub open spec fn worker_plan<R>(
    plan: SubagentWorkerPlan<R>,
    request: SubagentWorkerLaunchRequest<R>,
    read: Result<String, String>,
    decoded: Option<Seq<u8>>,
) -> bool {
    let config = plan.config;
    &&& config.app_version == request.app_version
    &&& config.config_cwd == request.cwd
    &&& config.runtime_cwd == Some(request.cwd)
    &&& config.prompt@.len() == 0
    &&& config.output_format == OutputFormat::Jsonl
    &&& config.provider == request.provider
    &&& config.verifier is None
    &&& config.history_mode is Disabled
    &&& !config.show_session_picker
    &&& config.budget == BudgetSpec::unlimited_spec()
    &&& config.desktop_notifications == DesktopNotifications::Disabled
    &&& config.overrides.model == request.model
    &&& config.overrides.mode is None
    &&& worker_api_key(request.api_key, request.api_key_stdin, read) == Ok::<
        Option<Seq<char>>,
        Seq<char>,
    >(opt_chars(config.overrides.api_key))
    &&& config.overrides.base_url == request.base_url
    &&& config.overrides.reasoning_effort is None
    &&& plan.cwd == request.cwd
    &&& plan.child_cwd == request.child_cwd
    &&& plan.task_session_id == request.session_id
    &&& plan.agent_id == request.agent_id
    &&& request.request == Ok::<R, String>(plan.request)
    &&& plan.child_depth == request.subagent_depth
    &&& match plan.worktree {
        Some(tree) => request.worktree_repo_root == Some(tree.repo_root) && request.worktree_path
            == Some(tree.path),
        None => request.worktree_repo_root is None && request.worktree_path is None,
    }
    &&& public_key_of(decoded) == Some(plan.permission_response_public_key@)
}

/// The plan of a detached subagent, or the message that it ends with. `read` is
/// what reading the credential gave.
pub fn plan_worker<R>(request: SubagentWorkerLaunchRequest<R>, read: Result<String, String>) -> (r:
    Result<SubagentWorkerPlan<R>, String>)
    ensures
        match r {
            Ok(plan) => worker_error(
                request,
                read,
                base64_decoded(request.permission_response_public_key@),
            ) is None && worker_plan(
                plan,
                request,
                read,
                base64_decoded(request.permission_response_public_key@),
            ),
            Err(e) => worker_error(
                request,
                read,
                base64_decoded(request.permission_response_public_key@),
            ) == Some(e@),
        },
{
    let decoded = decode_base64(request.permission_response_public_key.as_str());
    plan_decoded_worker(request, read, decoded)
}

/// The plan of a detached subagent whose key decoded as given.
pub fn plan_decoded_worker<R>(
    request: SubagentWorkerLaunchRequest<R>,
    read: Result<String, String>,
    decoded: Option<Vec<u8>>,
) -> (r: Result<SubagentWorkerPlan<R>, String>)
    ensures
        match r {
            Ok(plan) => worker_error(request, read, opt_bytes(decoded)) is None && worker_plan(
                plan,
                request,
                read,
                opt_bytes(decoded),
            ),
            Err(e) => worker_error(request, read, opt_bytes(decoded)) == Some(e@),
        },
{
    let subagent_request = match request.request {
        Ok(subagent_request) => subagent_request,
        Err(e) => {
            return Err(plus("invalid subagent worker request JSON: ", e.as_str()));
        },
    };
    let api_key = match resolve_worker_api_key_from_reader(
        request.api_key,
        request.api_key_stdin,
        read,
    ) {
        Ok(api_key) => api_key,
        Err(e) => {
            return Err(e);
        },
    };
    let key = match check_public_key(decoded) {
        Ok(key) => key,
        Err(e) => {
            return Err(e);
        },
    };
    let worktree = match validate_worktree_pair(
        request.worktree_repo_root,
        request.worktree_path,
    ) {
        Ok(worktree) => worktree,
        Err(e) => {
            return Err(e);
        },
    };
    let mut config = RunConfigRequest::new(request.app_version, request.cwd.clone());
    config.runtime_cwd = Some(request.cwd.clone());
    config.output_format = OutputFormat::Jsonl;
    config.provider = request.provider;
    config.history_mode = HistoryMode::Disabled;
    config.desktop_notifications = DesktopNotifications::Disabled;
    config.overrides =
    ConfigOverrides {
        model: request.model,
        mode: None,
        api_key,
        base_url: request.base_url,
        reasoning_effort: None,
    };
    Ok(
        SubagentWorkerPlan {
            config,
            cwd: request.cwd,
            child_cwd: request.child_cwd,
            task_session_id: request.session_id,
            agent_id: request.agent_id,
            request: subagent_request,
            child_depth: request.subagent_depth,
            worktree,
            permission_response_public_key: key,
        },
    )
}

/// The credential of a worker comes from its argument, or from standard input
/// where that is asked for; never from both, and never of more than 64 KiB.
pub proof fn credentials_have_one_source(
    api_key_arg: Option<String>,
    api_key_stdin: bool,
    read: Result<String, String>,
)
    ensures
        ({
            let key = worker_api_key(api_key_arg, api_key_stdin, read);
            &&& !api_key_stdin ==> key == Ok::<Option<Seq<char>>, Seq<char>>(opt_chars(api_key_arg))
            &&& api_key_stdin ==> (key is Ok <==> api_key_arg is None && (read matches Ok(text)
                && vstd::utf8::encode_utf8(text@).len() <= 65536))
            &&& api_key_stdin && key is Ok ==> key == Ok::<Option<Seq<char>>, Seq<char>>(
                Some(read->Ok_0@),
            )
        }),
{
}

/// A worker is launched exactly if its request parses, its credential is there,
/// its public key has 32 bytes, and its worktree is given as a whole or not at
/// all.
pub proof fn workers_need_a_whole_request<R>(
    request: SubagentWorkerLaunchRequest<R>,
    read: Result<String, String>,
    decoded: Option<Seq<u8>>,
)
    ensures
        worker_error(request, read, decoded) is None <==> {
            &&& request.request is Ok
            &&& worker_api_key(request.api_key, request.api_key_stdin, read) is Ok
            &&& decoded matches Some(bytes) && bytes.len() == 32
            &&& request.worktree_repo_root is Some <==> request.worktree_path is Some
        },
        public_key_of(decoded) matches Some(key) ==> decoded == Some(key) && key.len() == 32,
{
}

/// A worker works for the session, the agent and the depth that its request
/// names, where its request says, and keeps no history of its own.
pub proof fn workers_do_what_they_are_launched_for<R>(
    plan: SubagentWorkerPlan<R>,
    request: SubagentWorkerLaunchRequest<R>,
    read: Result<String, String>,
    decoded: Option<Seq<u8>>,
)
    requires
        worker_plan(plan, request, read, decoded),
    ensures
        plan.task_session_id == request.session_id,
        plan.agent_id == request.agent_id,
        plan.child_depth == request.subagent_depth,
        plan.cwd == request.cwd,
        plan.child_cwd == request.child_cwd,
        Ok::<R, String>(plan.request) == request.request,
        plan.worktree matches Some(tree) ==> Some(tree.repo_root) == request.worktree_repo_root
            && Some(tree.path) == request.worktree_path,
        plan.worktree is None ==> request.worktree_path is None,
        Some(plan.permission_response_public_key@) == decoded,
        plan.config.history_mode is Disabled,
        plan.config.output_format == OutputFormat::Jsonl,
        plan.config.provider == request.provider,
        plan.config.overrides.model == request.model,
        plan.config.overrides.base_url == request.base_url,
        plan.config.prompt@.len() == 0,
        plan.config.budget.max_turns is None && plan.config.budget.max_tool_calls is None
            && plan.config.budget.max_cost_usd_micros is None
            && plan.config.budget.max_wall_time_ms is None,
        plan.config.desktop_notifications == DesktopNotifications::Disabled,
        plan.config.app_version == request.app_version,
        plan.config.config_cwd == request.cwd,
        plan.config.runtime_cwd == Some(request.cwd),
        plan.config.verifier is None,
        !plan.config.show_session_picker,
        plan.config.overrides.mode is None,
        plan.config.overrides.reasoning_effort is None,
{
}

/// A launch is configured for one directory, in which it also runs, with what was
/// asked for; it has no verifier and no limits of its own.
pub proof fn launches_run_where_they_are_configured(
    config: RunConfigRequest,
    app_version: String,
    given: Option<String>,
    current_dir: String,
    provider: ProviderKind,
    output_format: OutputFormat,
    overrides: ConfigOverrides,
)
    requires
        launch_config(
            config,
            app_version,
            effective_cwd(given, current_dir),
            provider,
            output_format,
            overrides,
        ),
    ensures
        config.runtime_cwd == Some(config.config_cwd),
        given matches Some(cwd) ==> config.config_cwd == cwd,
        given is None ==> config.config_cwd == current_dir,
        config.app_version == app_version,
        config.provider == provider,
        config.output_format == output_format,
        config.overrides == overrides,
        config.verifier is None,
        config.budget.max_turns is None,
        config.budget.max_tool_calls is None,
        config.budget.max_cost_usd_micros is None,
        config.budget.max_wall_time_ms is None,
{
}

} // verus!
