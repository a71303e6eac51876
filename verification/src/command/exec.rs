//! The `exec` command: its flags, its prompt and its history mode.

use vstd::prelude::*;
use vstd::string::*;
use crate::budget::BudgetSpec;
use crate::command::config::{
    ApprovalMode, ConfigOverrides, DesktopNotifications, HistoryMode, OutputFormat, ProviderKind,
    RunConfigRequest,
};
use crate::text::{blank, characters, is_blank, join, joined, plus, plus3, text_is};

verus! {

/// A request to execute one prompt. The cost limit is in USD micros.
#[derive(Debug)]
pub struct ExecCommandRequest {
    pub app_version: String,
    pub output_format: OutputFormat,
    pub cwd: Option<String>,
    pub approval_mode: Option<ApprovalMode>,
    pub model: Option<String>,
    pub api_key: Option<String>,
    pub base_url: Option<String>,
    pub verifier: Option<String>,
    pub max_turns: Option<u32>,
    pub max_tool_calls: Option<u32>,
    pub max_cost_usd_micros: Option<u64>,
    pub max_wall_time_secs: Option<u64>,
    pub resume: Option<String>,
    pub resume_at: Option<String>,
    pub fork: Option<String>,
    pub continue_latest: bool,
    pub no_history: bool,
    pub save_history: bool,
    pub provider: ProviderKind,
    pub prompt: Vec<String>,
}

/// Two of the three ways to pick a session are used at once.
pub open spec fn several_selectors(resume: bool, fork: bool, continue_latest: bool) -> bool {
    (resume && fork) || (resume && continue_latest) || (fork && continue_latest)
}

/// What is wrong with the history flags.
pub open spec fn history_flags_error(request: ExecCommandRequest) -> Option<Seq<char>> {
    if request.no_history && (request.resume is Some || request.fork is Some
        || request.continue_latest) {
        Some("--resume/--fork/--continue cannot be combined with --no-history"@)
    } else if request.no_history && request.save_history {
        Some("--save-history cannot be combined with --no-history"@)
    } else if several_selectors(
        request.resume is Some,
        request.fork is Some,
        request.continue_latest,
    ) {
        Some("--resume, --fork, and --continue are mutually exclusive"@)
    } else if request.resume_at is Some && request.fork is Some {
        Some("--resume-at cannot be combined with --fork"@)
    } else if request.resume_at is Some && request.resume is None && !request.continue_latest {
        Some("--resume-at requires --resume, --continue, or the resume subcommand"@)
    } else {
        None
    }
}

pub fn check_history_flags(request: &ExecCommandRequest) -> (r: Result<(), String>)
    ensures
        match r {
            Ok(_) => history_flags_error(*request) is None,
            Err(e) => history_flags_error(*request) == Some(e@),
        },
{
    if request.no_history && (request.resume.is_some() || request.fork.is_some()
        || request.continue_latest) {
        return Err(
            "--resume/--fork/--continue cannot be combined with --no-history".to_owned(),
        );
    }
    if request.no_history && request.save_history {
        return Err("--save-history cannot be combined with --no-history".to_owned());
    }
    if more_than_one(request.resume.is_some(), request.fork.is_some(), request.continue_latest) {
        return Err("--resume, --fork, and --continue are mutually exclusive".to_owned());
    }
    if request.resume_at.is_some() && request.fork.is_some() {
        return Err("--resume-at cannot be combined with --fork".to_owned());
    }
    if request.resume_at.is_some() && request.resume.is_none() && !request.continue_latest {
        return Err(
            "--resume-at requires --resume, --continue, or the resume subcommand".to_owned(),
        );
    }
    Ok(())
}

/// Whether more than one of three flags is set.
pub fn more_than_one(a: bool, b: bool, c: bool) -> (r: bool)
    ensures
        r == several_selectors(a, b, c),
{
    (a && b) || (a && c) || (b && c)
}

/// The prompt consists of a lone dash: it is to come from stdin.
pub open spec fn forces_stdin(args: Seq<String>) -> bool {
    args.len() == 1 && args[0]@ == "-"@
}

/// A prompt followed by what was piped in.
pub open spec fn with_stdin_context(prompt: Seq<char>, stdin_text: Seq<char>) -> Seq<char> {
    prompt + "\n\n<stdin>\n"@ + stdin_text + (if stdin_text.len() > 0 && stdin_text.last() == '\n' {
        Seq::empty()
    } else {
        "\n"@
    }) + "</stdin>"@
}

/// The prompt that the arguments and stdin make, or why there is none.
pub open spec fn prompt_of(
    args: Seq<String>,
    stdin_is_terminal: bool,
    stdin: Result<String, String>,
) -> Result<Seq<char>, Seq<char>> {
    if forces_stdin(args) || args.len() == 0 {
        if stdin_is_terminal {
            Err(
                "No prompt provided. Either specify one as an argument or pipe the prompt into stdin."@,
            )
        } else {
            match stdin {
                Err(e) => Err("failed to read stdin: "@ + e@),
                Ok(text) => if blank(text@) {
                    Err("No prompt provided via stdin."@)
                } else {
                    Ok(text@)
                },
            }
        }
    } else if stdin_is_terminal {
        Ok(joined(args, " "@))
    } else {
        match stdin {
            Err(e) => Err("failed to read stdin: "@ + e@),
            Ok(text) => if blank(text@) {
                Ok(joined(args, " "@))
            } else {
                Ok(with_stdin_context(joined(args, " "@), text@))
            },
        }
    }
}

fn ends_with_newline(text: &str) -> (r: bool)
    ensures
        r == (text@.len() > 0 && text@.last() == '\n'),
{
    let v = characters(text);
    v.len() > 0 && v[v.len() - 1] == '\n'
}

pub fn prompt_with_stdin_context(prompt: &str, stdin_text: &str) -> (r: String)
    ensures
        r@ == with_stdin_context(prompt@, stdin_text@),
{
    let mut combined = plus3(prompt, "\n\n<stdin>\n", stdin_text);
    if !ends_with_newline(stdin_text) {
        combined.append("\n");
    } else {
        proof {
            assert(combined@ =~= combined@ + Seq::<char>::empty());
        }
    }
    combined.append("</stdin>");
    combined
}

/// The prompt of a command. `stdin` is what reading stdin gave, an error by its
/// text; it counts only where stdin is no terminal.
pub fn resolve_prompt(
    prompt_args: Vec<String>,
    stdin_is_terminal: bool,
    stdin: Result<String, String>,
) -> (r: Result<String, String>)
    ensures
        match r {
            Ok(prompt) => prompt_of(prompt_args@, stdin_is_terminal, stdin) == Ok::<
                Seq<char>,
                Seq<char>,
            >(prompt@),
            Err(e) => prompt_of(prompt_args@, stdin_is_terminal, stdin) == Err::<
                Seq<char>,
                Seq<char>,
            >(e@),
        },
{
    let force_stdin = prompt_args.len() == 1 && text_is(prompt_args[0].as_str(), "-");
    let has_prompt = prompt_args.len() > 0 && !force_stdin;
    if !has_prompt {
        if stdin_is_terminal {
            return Err(
                "No prompt provided. Either specify one as an argument or pipe the prompt into stdin.".to_owned(),
            );
        }
        let stdin_text = match stdin {
            Ok(text) => text,
            Err(e) => {
                return Err(plus("failed to read stdin: ", e.as_str()));
            },
        };
        if is_blank(stdin_text.as_str()) {
            return Err("No prompt provided via stdin.".to_owned());
        }
        return Ok(stdin_text);
    }
    let prompt = join(&prompt_args, " ");
    if stdin_is_terminal {
        return Ok(prompt);
    }
    let stdin_text = match stdin {
        Ok(text) => text,
        Err(e) => {
            return Err(plus("failed to read stdin: ", e.as_str()));
        },
    };
    if is_blank(stdin_text.as_str()) {
        Ok(prompt)
    } else {
        Ok(prompt_with_stdin_context(prompt.as_str(), stdin_text.as_str()))
    }
}

/// What a history mode says.
#[allow(inconsistent_fields)]
pub ghost enum HistoryView {
    Record,
    Disabled,
    Resume(Seq<char>),
    ResumeAt { selector: Seq<char>, resume_at: Seq<char> },
    Fork(Seq<char>),
}

impl View for HistoryMode {
    type V = HistoryView;

    open spec fn view(&self) -> HistoryView {
        match *self {
            HistoryMode::Record => HistoryView::Record,
            HistoryMode::Disabled => HistoryView::Disabled,
            HistoryMode::Resume(s) => HistoryView::Resume(s@),
            HistoryMode::ResumeAt { selector, resume_at } => HistoryView::ResumeAt {
                selector: selector@,
                resume_at: resume_at@,
            },
            HistoryMode::Fork(s) => HistoryView::Fork(s@),
        }
    }
}

/// The session that is resumed: the one named, or the latest.
pub open spec fn resumed_session(resume: Option<String>, continue_latest: bool) -> Option<Seq<char>> {
    match resume {
        Some(s) => Some(s@),
        None => if continue_latest {
            Some("latest"@)
        } else {
            None
        },
    }
}

/// The history mode that the flags select: a fork first, a resumption next, the
/// fallback otherwise.
pub open spec fn selected_history(
    resume: Option<String>,
    fork: Option<String>,
    continue_latest: bool,
    resume_at: Option<String>,
    fallback: HistoryView,
) -> HistoryView {
    match fork {
        Some(selector) => HistoryView::Fork(selector@),
        None => match (resumed_session(resume, continue_latest), resume_at) {
            (None, _) => fallback,
            (Some(selector), Some(at)) => HistoryView::ResumeAt { selector, resume_at: at@ },
            (Some(selector), None) => HistoryView::Resume(selector),
        },
    }
}

pub fn resolve_history_mode(
    resume: Option<String>,
    fork: Option<String>,
    continue_latest: bool,
    resume_at: Option<String>,
    fallback: HistoryMode,
) -> (r: HistoryMode)
    ensures
        r@ == selected_history(resume, fork, continue_latest, resume_at, fallback@),
{
    if let Some(selector) = fork {
        return HistoryMode::Fork(selector);
    }
    let selector = match resume {
        Some(selector) => Some(selector),
        None => if continue_latest {
            Some("latest".to_owned())
        } else {
            None
        },
    };
    match (selector, resume_at) {
        (None, _) => fallback,
        (Some(selector), Some(resume_at)) => HistoryMode::ResumeAt { selector, resume_at },
        (Some(selector), None) => HistoryMode::Resume(selector),
    }
}

/// Seconds as milliseconds, at most the largest `u64`.
pub open spec fn saturated_millis(secs: u64) -> u64 {
    if secs * 1000 > u64::MAX {
        u64::MAX
    } else {
        (secs * 1000) as u64
    }
}

fn to_millis(secs: u64) -> (r: u64)
    ensures
        r == saturated_millis(secs),
{
    if secs > u64::MAX / 1000 {
        u64::MAX
    } else {
        secs * 1000
    }
}

/// The budget that the command line sets.
pub open spec fn requested_budget(request: ExecCommandRequest) -> BudgetSpec {
    BudgetSpec {
        max_turns: request.max_turns,
        max_tool_calls: request.max_tool_calls,
        max_cost_usd_micros: request.max_cost_usd_micros,
        max_wall_time_ms: match request.max_wall_time_secs {
            Some(secs) => Some(saturated_millis(secs)),
            None => None,
        },
    }
}

/// Runs keep no history when told so, and machine-readable runs only when asked
/// to.
pub open spec fn fallback_history(request: ExecCommandRequest) -> HistoryView {
    if request.no_history || (request.output_format == OutputFormat::Jsonl
        && !request.save_history) {
        HistoryView::Disabled
    } else {
        HistoryView::Record
    }
}

/// The configuration request of an `exec` command, or the message that it ends
/// with. `current_dir` is the directory that the process runs in.
pub fn plan_exec(
    request: ExecCommandRequest,
    stdin_is_terminal: bool,
    stdin: Result<String, String>,
    current_dir: String,
) -> (r: Result<RunConfigRequest, String>)
    ensures
        match history_flags_error(request) {
            Some(message) => r matches Err(e) && e@ == message,
            None => match prompt_of(request.prompt@, stdin_is_terminal, stdin) {
                Err(message) => r matches Err(e) && e@ == message,
                Ok(prompt) => r matches Ok(config) && {
                    &&& config.app_version == request.app_version
                    &&& config.config_cwd == (match request.cwd {
                        Some(cwd) => cwd,
                        None => current_dir,
                    })
                    &&& config.runtime_cwd == request.cwd
                    &&& config.prompt@ == prompt
                    &&& config.output_format == request.output_format
                    &&& config.provider == request.provider
                    &&& config.verifier == request.verifier
                    &&& config.history_mode@ == selected_history(
                        request.resume,
                        request.fork,
                        request.continue_latest,
                        request.resume_at,
                        fallback_history(request),
                    )
                    &&& !config.show_session_picker
                    &&& config.budget == requested_budget(request)
                    &&& config.overrides == (ConfigOverrides {
                        model: request.model,
                        mode: request.approval_mode,
                        api_key: request.api_key,
                        base_url: request.base_url,
                        reasoning_effort: None,
                    })
                    &&& config.desktop_notifications == DesktopNotifications::FromConfig
                },
            },
        },
{
    match check_history_flags(&request) {
        Ok(_) => {},
        Err(e) => {
            return Err(e);
        },
    }
    let prompt = match resolve_prompt(request.prompt, stdin_is_terminal, stdin) {
        Ok(prompt) => prompt,
        Err(e) => {
            return Err(e);
        },
    };
    let config_cwd = match &request.cwd {
        Some(cwd) => cwd.clone(),
        None => current_dir,
    };
    let fallback = if request.no_history || (request.output_format == OutputFormat::Jsonl
        && !request.save_history) {
        HistoryMode::Disabled
    } else {
        HistoryMode::Record
    };
    let history_mode = resolve_history_mode(
        request.resume,
        request.fork,
        request.continue_latest,
        request.resume_at,
        fallback,
    );
    let mut config = RunConfigRequest::new(request.app_version, config_cwd);
    config.runtime_cwd = request.cwd;
    config.prompt = prompt;
    config.output_format = request.output_format;
    config.provider = request.provider;
    config.verifier = request.verifier;
    config.history_mode = history_mode;
    config.budget =
    BudgetSpec {
        max_turns: request.max_turns,
        max_tool_calls: request.max_tool_calls,
        max_cost_usd_micros: request.max_cost_usd_micros,
        max_wall_time_ms: match request.max_wall_time_secs {
            Some(secs) => Some(to_millis(secs)),
            None => None,
        },
    };
    config.overrides =
    ConfigOverrides {
        model: request.model,
        mode: request.approval_mode,
        api_key: request.api_key,
        base_url: request.base_url,
        reasoning_effort: None,
    };
    Ok(config)
}

/// A run that may not keep history selects no session.
pub proof fn no_history_selects_no_session(request: ExecCommandRequest)
    requires
        history_flags_error(request) is None,
        request.no_history,
    ensures
        selected_history(
            request.resume,
            request.fork,
            request.continue_latest,
            request.resume_at,
            fallback_history(request),
        ) == HistoryView::Disabled,
{
}

/// The flags fit together exactly if at most one of them selects a session, none
/// does without history, history is not asked for and forbidden at once, and a
/// place to resume at goes with a session to resume.
pub proof fn flags_select_at_most_one_session(request: ExecCommandRequest)
    ensures
        ({
            let resumes = request.resume is Some;
            let forks = request.fork is Some;
            let continues = request.continue_latest;
            history_flags_error(request) is None <==> {
                &&& !(resumes && forks)
                &&& !(resumes && continues)
                &&& !(forks && continues)
                &&& request.no_history ==> !resumes && !forks && !continues
                    && !request.save_history
                &&& request.resume_at is Some ==> (resumes || continues) && !forks
            }
        }),
{
}

/// The session that was selected is the one that is used: a fork of the one to be
/// forked, the one to be resumed, at its place where one is given, or the latest
/// one to be continued. Without any, it is the fallback.
pub proof fn selected_sessions_are_used(
    resume: Option<String>,
    fork: Option<String>,
    continue_latest: bool,
    resume_at: Option<String>,
    fallback: HistoryView,
)
    ensures
        ({
            let history = selected_history(resume, fork, continue_latest, resume_at, fallback);
            &&& fork matches Some(selector) ==> history == HistoryView::Fork(selector@)
            &&& fork is None ==> (resume matches Some(selector) ==> (resume_at is None ==> history
                == HistoryView::Resume(selector@)) && (resume_at matches Some(at) ==> history == (
            HistoryView::ResumeAt { selector: selector@, resume_at: at@ })))
            &&& fork is None && resume is None && continue_latest ==> (resume_at is None ==> history
                == HistoryView::Resume("latest"@)) && (resume_at matches Some(at) ==> history == (
            HistoryView::ResumeAt { selector: "latest"@, resume_at: at@ }))
            &&& fork is None && resume is None && !continue_latest ==> history == fallback
        }),
{
}

/// Without a selected session a run is recorded, unless history is forbidden or
/// the output is for machines and nobody asks for it.
pub proof fn runs_are_recorded_by_default(request: ExecCommandRequest)
    ensures
        fallback_history(request) == HistoryView::Disabled <==> request.no_history || (
        request.output_format == OutputFormat::Jsonl && !request.save_history),
        fallback_history(request) == HistoryView::Record <==> !request.no_history && (
        request.output_format == OutputFormat::Text || request.save_history),
{
}

/// The limits of a run are those of its command line; its wall time is given in
/// seconds.
pub proof fn command_line_limits_are_kept(request: ExecCommandRequest)
    ensures
        ({
            let budget = requested_budget(request);
            &&& budget.max_turns == request.max_turns
            &&& budget.max_tool_calls == request.max_tool_calls
            &&& budget.max_cost_usd_micros == request.max_cost_usd_micros
            &&& budget.max_wall_time_ms is Some <==> request.max_wall_time_secs is Some
            &&& request.max_wall_time_secs matches Some(secs) ==> (secs * 1000 <= u64::MAX
                ==> budget.max_wall_time_ms->0 == secs * 1000) && (secs * 1000 > u64::MAX
                ==> budget.max_wall_time_ms->0 == u64::MAX)
        }),
{
}

/// The prompt is what the arguments say, or standard input where there are none
/// or the only one is a dash; piped text goes along with the arguments. A prompt
/// is never empty for want of input: that is an error.
pub proof fn prompts_come_from_arguments_or_input(
    args: Seq<String>,
    stdin_is_terminal: bool,
    stdin: Result<String, String>,
)
    ensures
        ({
            let prompt = prompt_of(args, stdin_is_terminal, stdin);
            let from_input = args.len() == 0 || (args.len() == 1 && args[0]@ == "-"@);
            &&& from_input && stdin_is_terminal ==> prompt is Err
            &&& from_input && !stdin_is_terminal ==> (stdin matches Ok(text) ==> (blank(text@)
                ==> prompt is Err) && (!blank(text@) ==> prompt == Ok::<Seq<char>, Seq<char>>(
                text@,
            )))
            &&& !stdin_is_terminal && stdin is Err ==> prompt is Err
            &&& !from_input && (stdin_is_terminal || (stdin matches Ok(text) && blank(text@)))
                ==> prompt == Ok::<Seq<char>, Seq<char>>(joined(args, " "@))
            &&& !from_input && !stdin_is_terminal ==> (stdin matches Ok(text) ==> (!blank(text@)
                ==> (prompt matches Ok(all) && joined(args, " "@).is_prefix_of(all)
                && all.len() > joined(args, " "@).len() + text@.len())))
        }),
{
    if let Ok(text) = stdin {
        let shown = joined(args, " "@);
        let all = with_stdin_context(shown, text@);
        reveal_strlit("\n\n<stdin>\n");
        assert(shown.is_prefix_of(all)) by {
            assert(all.take(shown.len() as int) =~= shown);
        }
    }
}

} // verus!
