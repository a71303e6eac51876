//! Assembling a run configuration from a request and the configuration file.

use vstd::prelude::*;
use crate::budget::BudgetSpec;

verus! {

/// Whether desktop notifications are as configured or off.
#[derive(Clone, Copy, Debug, PartialEq, Eq, Structural)]
pub enum DesktopNotifications {
    FromConfig,
    Disabled,
}

impl Default for DesktopNotifications {
    fn default() -> (r: Self)
        ensures
            r == DesktopNotifications::FromConfig,
    {
        DesktopNotifications::FromConfig
    }
}

#[derive(Clone, Copy, Debug, PartialEq, Eq, Structural)]
pub enum OutputFormat {
    Text,
    Jsonl,
}

#[derive(Clone, Copy, Debug, PartialEq, Eq, Structural)]
pub enum ProviderKind {
    DeepSeek,
    Mock,
}

/// How much a run may do without asking.
#[derive(Clone, Copy, Debug, PartialEq, Eq, Structural)]
pub enum ApprovalMode {
    Suggest,
    AutoEdit,
    FullAuto,
    Plan,
}

/// What happens to the history of a run.
#[derive(Debug)]
#[allow(inconsistent_fields)]
pub enum HistoryMode {
    Record,
    Disabled,
    Resume(String),
    ResumeAt { selector: String, resume_at: String },
    Fork(String),
}

/// What the command line sets over the configuration file.
#[derive(Debug)]
pub struct ConfigOverrides {
    pub model: Option<String>,
    pub mode: Option<ApprovalMode>,
    pub api_key: Option<String>,
    pub base_url: Option<String>,
    pub reasoning_effort: Option<String>,
}

/// A request for a run configuration. Paths are texts.
#[derive(Debug)]
pub struct RunConfigRequest {
    pub app_version: String,
    pub config_cwd: String,
    pub runtime_cwd: Option<String>,
    pub prompt: String,
    pub output_format: OutputFormat,
    pub provider: ProviderKind,
    pub verifier: Option<String>,
    pub history_mode: HistoryMode,
    pub show_session_picker: bool,
    pub budget: BudgetSpec,
    pub overrides: ConfigOverrides,
    pub desktop_notifications: DesktopNotifications,
}

impl RunConfigRequest {
    /// A request with everything at its default.
    pub fn new(app_version: String, config_cwd: String) -> (r: Self)
        ensures
            r.app_version == app_version,
            r.config_cwd == config_cwd,
            r.runtime_cwd is None,
            r.prompt@ == Seq::<char>::empty(),
            r.output_format == OutputFormat::Text,
            r.provider == ProviderKind::DeepSeek,
            r.verifier is None,
            r.history_mode is Record,
            !r.show_session_picker,
            r.budget == BudgetSpec::unlimited_spec(),
            r.overrides == (ConfigOverrides {
                model: None,
                mode: None,
                api_key: None,
                base_url: None,
                reasoning_effort: None,
            }),
            r.desktop_notifications == DesktopNotifications::FromConfig,
    {
        RunConfigRequest {
            app_version,
            config_cwd,
            runtime_cwd: None,
            prompt: String::new(),
            output_format: OutputFormat::Text,
            provider: ProviderKind::DeepSeek,
            verifier: None,
            history_mode: HistoryMode::Record,
            show_session_picker: false,
            budget: BudgetSpec::unlimited(),
            overrides: ConfigOverrides {
                model: None,
                mode: None,
                api_key: None,
                base_url: None,
                reasoning_effort: None,
            },
            desktop_notifications: DesktopNotifications::FromConfig,
        }
    }
}

/// The configuration file, as far as its values are looked at. What is only
/// carried along is in `carried`, already normalized.
#[derive(Debug)]
pub struct FileConfig<P> {
    pub mode: Option<ApprovalMode>,
    pub budget: BudgetSpec,
    pub reasoning_effort: Option<String>,
    pub api_key: Option<String>,
    pub base_url: Option<String>,
    pub vim_mode: bool,
    pub vim_insert_escape: Option<String>,
    pub update_check: bool,
    pub desktop_notifications: bool,
    pub terminal_notifications: bool,
    pub auto_memory: bool,
    pub carried: P,
}

/// The configuration of a run.
#[derive(Debug)]
pub struct RunConfig<M, P> {
    pub app_version: String,
    pub prompt: String,
    pub cwd: Option<String>,
    pub output_format: OutputFormat,
    pub approval_mode: ApprovalMode,
    pub provider: ProviderKind,
    pub verifier: Option<String>,
    pub model: M,
    pub reasoning_effort: Option<String>,
    pub api_key: Option<String>,
    pub base_url: Option<String>,
    pub history_mode: HistoryMode,
    pub show_session_picker: bool,
    pub active_permission_profile: Option<String>,
    pub runtime_workspace_roots: Option<Vec<String>>,
    pub additional_working_directories: Vec<String>,
    pub budget: BudgetSpec,
    pub vim_mode: bool,
    pub vim_insert_escape: Option<String>,
    pub update_check: bool,
    pub desktop_notifications: bool,
    pub terminal_notifications: bool,
    pub auto_memory: bool,
    pub carried: P,
}

/// The budget of the request, with the file's limits in the dimensions that the
/// request leaves open.
pub open spec fn effective_budget(request: BudgetSpec, file: BudgetSpec) -> BudgetSpec {
    BudgetSpec {
        max_turns: if request.max_turns is Some {
            request.max_turns
        } else {
            file.max_turns
        },
        max_tool_calls: if request.max_tool_calls is Some {
            request.max_tool_calls
        } else {
            file.max_tool_calls
        },
        max_cost_usd_micros: if request.max_cost_usd_micros is Some {
            request.max_cost_usd_micros
        } else {
            file.max_cost_usd_micros
        },
        max_wall_time_ms: if request.max_wall_time_ms is Some {
            request.max_wall_time_ms
        } else {
            file.max_wall_time_ms
        },
    }
}

/// A configuration is the one that a request and a file make.
pub open spec fn assembled<M, P>(
    config: RunConfig<M, P>,
    request: RunConfigRequest,
    file: FileConfig<P>,
    model: M,
) -> bool {
    &&& config.app_version == request.app_version
    &&& config.prompt == request.prompt
    &&& config.cwd == request.runtime_cwd
    &&& config.output_format == request.output_format
    &&& config.approval_mode == (match file.mode {
        Some(mode) => mode,
        None => ApprovalMode::AutoEdit,
    })
    &&& config.provider == request.provider
    &&& config.verifier == request.verifier
    &&& config.model == model
    &&& config.reasoning_effort == file.reasoning_effort
    &&& config.api_key == file.api_key
    &&& config.base_url == file.base_url
    &&& config.history_mode == request.history_mode
    &&& config.show_session_picker == request.show_session_picker
    &&& config.active_permission_profile is None
    &&& config.runtime_workspace_roots is None
    &&& config.additional_working_directories@.len() == 0
    &&& config.budget == effective_budget(request.budget, file.budget)
    &&& config.vim_mode == file.vim_mode
    &&& config.vim_insert_escape == file.vim_insert_escape
    &&& config.update_check == file.update_check
    &&& config.desktop_notifications == (match request.desktop_notifications {
        DesktopNotifications::FromConfig => file.desktop_notifications,
        DesktopNotifications::Disabled => false,
    })
    &&& config.terminal_notifications == file.terminal_notifications
    &&& config.auto_memory == file.auto_memory
    &&& config.carried == file.carried
}

/// Assembles a run configuration. `model` is what parsing the file's model
/// selection gave. Limits on the command line take precedence over those of the
/// file in each dimension, and a limit of zero is refused.
pub fn assemble_run_config<M, P>(
    request: RunConfigRequest,
    file: FileConfig<P>,
    model: Result<M, String>,
) -> (r: Result<RunConfig<M, P>, String>)
    ensures
        match model {
            Err(e) => r == Err::<RunConfig<M, P>, String>(e),
            Ok(m) => {
                let budget = effective_budget(request.budget, file.budget);
                match r {
                    Ok(config) => budget.valid() && assembled(config, request, file, m),
                    Err(e) => !budget.valid() && e@ == budget.zero_dimension()->0
                        + " must be greater than zero"@,
                }
            },
        },
{
    let model = match model {
        Ok(model) => model,
        Err(e) => {
            return Err(e);
        },
    };
    let desktop_notifications = match request.desktop_notifications {
        DesktopNotifications::FromConfig => file.desktop_notifications,
        DesktopNotifications::Disabled => false,
    };
    let mut budget = request.budget;
    if budget.max_turns.is_none() {
        budget.max_turns = file.budget.max_turns;
    }
    if budget.max_tool_calls.is_none() {
        budget.max_tool_calls = file.budget.max_tool_calls;
    }
    if budget.max_cost_usd_micros.is_none() {
        budget.max_cost_usd_micros = file.budget.max_cost_usd_micros;
    }
    if budget.max_wall_time_ms.is_none() {
        budget.max_wall_time_ms = file.budget.max_wall_time_ms;
    }
    match budget.validate() {
        Ok(_) => {},
        Err(e) => {
            return Err(e);
        },
    }
    let approval_mode = match file.mode {
        Some(mode) => mode,
        None => ApprovalMode::AutoEdit,
    };
    Ok(
        RunConfig {
            app_version: request.app_version,
            prompt: request.prompt,
            cwd: request.runtime_cwd,
            output_format: request.output_format,
            approval_mode,
            provider: request.provider,
            verifier: request.verifier,
            model,
            reasoning_effort: file.reasoning_effort,
            api_key: file.api_key,
            base_url: file.base_url,
            history_mode: request.history_mode,
            show_session_picker: request.show_session_picker,
            active_permission_profile: None,
            runtime_workspace_roots: None,
            additional_working_directories: Vec::new(),
            budget,
            vim_mode: file.vim_mode,
            vim_insert_escape: file.vim_insert_escape,
            update_check: file.update_check,
            desktop_notifications,
            terminal_notifications: file.terminal_notifications,
            auto_memory: file.auto_memory,
            carried: file.carried,
        },
    )
}

/// A limit on the command line holds whatever the file says, and the file's
/// limits apply where the command line sets none.
pub proof fn command_line_limits_take_precedence(request: BudgetSpec, file: BudgetSpec)
    ensures
        request.max_turns is Some ==> effective_budget(request, file).max_turns
            == request.max_turns,
        request.max_tool_calls is Some ==> effective_budget(request, file).max_tool_calls
            == request.max_tool_calls,
        request.max_cost_usd_micros is Some ==> effective_budget(request, file).max_cost_usd_micros
            == request.max_cost_usd_micros,
        request.max_wall_time_ms is Some ==> effective_budget(request, file).max_wall_time_ms
            == request.max_wall_time_ms,
        effective_budget(BudgetSpec::unlimited_spec(), file) == file,
        effective_budget(request, BudgetSpec::unlimited_spec()) == request,
{
}

/// A run takes what it does from its request and how it does it from the
/// configuration: nothing of either is lost, and only what neither says has a
/// default.
pub proof fn settings_come_from_their_source<M, P>(
    config: RunConfig<M, P>,
    request: RunConfigRequest,
    file: FileConfig<P>,
    model: M,
)
    requires
        assembled(config, request, file, model),
    ensures
        config.prompt == request.prompt,
        config.cwd == request.runtime_cwd,
        config.output_format == request.output_format,
        config.provider == request.provider,
        config.verifier == request.verifier,
        config.history_mode == request.history_mode,
        config.show_session_picker == request.show_session_picker,
        config.app_version == request.app_version,
        config.model == model,
        config.api_key == file.api_key,
        config.base_url == file.base_url,
        config.reasoning_effort == file.reasoning_effort,
        config.vim_mode == file.vim_mode,
        config.vim_insert_escape == file.vim_insert_escape,
        config.update_check == file.update_check,
        config.auto_memory == file.auto_memory,
        config.terminal_notifications == file.terminal_notifications,
        config.carried == file.carried,
        file.mode matches Some(mode) ==> config.approval_mode == mode,
        file.mode is None ==> config.approval_mode == ApprovalMode::AutoEdit,
        config.desktop_notifications ==> file.desktop_notifications
            && request.desktop_notifications == DesktopNotifications::FromConfig,
        request.desktop_notifications == DesktopNotifications::FromConfig
            ==> config.desktop_notifications == file.desktop_notifications,
        request.budget.max_turns is None ==> config.budget.max_turns == file.budget.max_turns,
        request.budget.max_turns is Some ==> config.budget.max_turns == request.budget.max_turns,
        request.budget.max_tool_calls is None ==> config.budget.max_tool_calls
            == file.budget.max_tool_calls,
        request.budget.max_cost_usd_micros is None ==> config.budget.max_cost_usd_micros
            == file.budget.max_cost_usd_micros,
        request.budget.max_wall_time_ms is None ==> config.budget.max_wall_time_ms
            == file.budget.max_wall_time_ms,
{
}

} // verus!
