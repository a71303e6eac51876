//! Statuses shared by runs, tools and child agents.

use vstd::prelude::*;

verus! {

/// How a run ended.
#[derive(Clone, Copy, Debug, PartialEq, Eq, Structural)]
pub enum RunStatus {
    Success,
    Failed,
    Cancelled,
    ApprovalRequired,
    VerificationFailed,
}

impl RunStatus {
    pub open spec fn text(self) -> Seq<char> {
        match self {
            RunStatus::Success => "success"@,
            RunStatus::Failed => "failed"@,
            RunStatus::Cancelled => "cancelled"@,
            RunStatus::ApprovalRequired => "approval_required"@,
            RunStatus::VerificationFailed => "verification_failed"@,
        }
    }

    pub fn as_str(self) -> (r: &'static str)
        ensures
            r@ == self.text(),
    {
        match self {
            RunStatus::Success => "success",
            RunStatus::Failed => "failed",
            RunStatus::Cancelled => "cancelled",
            RunStatus::ApprovalRequired => "approval_required",
            RunStatus::VerificationFailed => "verification_failed",
        }
    }
}

/// How a tool invocation ended.
#[derive(Clone, Copy, Debug, PartialEq, Eq, Structural)]
pub enum ToolStatus {
    Completed,
    Failed,
    Cancelled,
    Indeterminate,
}

/// What a tool result holds.
#[derive(Clone, Copy, Debug, PartialEq, Eq, Structural)]
pub enum ToolResultKind {
    Output,
    Error,
    Indeterminate,
}

/// Where the terminal facts of a tool invocation come from.
#[derive(Clone, Copy, Debug, PartialEq, Eq, Structural)]
pub enum ToolTerminalSource {
    Observed,
    Repaired,
}

/// Whether a tool invocation had started.
#[derive(Clone, Copy, Debug, PartialEq, Eq, Structural)]
pub enum ToolInvocationStarted {
    Yes,
    No,
    Unknown,
}

/// The terminal facts of a tool invocation.
#[derive(Clone, Copy, Debug, PartialEq, Eq, Structural)]
pub struct ToolTerminal {
    pub status: ToolStatus,
    pub kind: ToolResultKind,
    pub source: ToolTerminalSource,
    pub started: ToolInvocationStarted,
}

impl ToolTerminal {
    /// The outcome was observed and is known.
    pub open spec fn trustworthy(self) -> bool {
        &&& self.status != ToolStatus::Indeterminate
        &&& self.kind != ToolResultKind::Indeterminate
        &&& self.source == ToolTerminalSource::Observed
    }
}

/// The run status that a stopping tool gives its run.
pub open spec fn tool_run_status(status: ToolStatus) -> RunStatus {
    match status {
        ToolStatus::Completed => RunStatus::Success,
        ToolStatus::Cancelled => RunStatus::Cancelled,
        ToolStatus::Failed => RunStatus::Failed,
        ToolStatus::Indeterminate => RunStatus::Failed,
    }
}

pub fn run_status_from_tool_status(status: ToolStatus) -> (r: RunStatus)
    ensures
        r == tool_run_status(status),
{
    match status {
        ToolStatus::Completed => RunStatus::Success,
        ToolStatus::Cancelled => RunStatus::Cancelled,
        ToolStatus::Failed => RunStatus::Failed,
        ToolStatus::Indeterminate => RunStatus::Failed,
    }
}

/// A tool that completed counts as a success, one that was cancelled as cancelled,
/// and one that failed or whose effect is unknown as failed.
pub proof fn unknown_outcomes_are_failures(status: ToolStatus)
    ensures
        tool_run_status(status) == RunStatus::Success <==> status == ToolStatus::Completed,
        tool_run_status(status) == RunStatus::Cancelled <==> status == ToolStatus::Cancelled,
        tool_run_status(status) == RunStatus::Failed <==> status == ToolStatus::Failed || status
            == ToolStatus::Indeterminate,
{
}

/// An outcome is trusted exactly when it was observed and nothing about it is
/// unknown.
pub proof fn only_observed_outcomes_are_trusted(terminal: ToolTerminal)
    ensures
        terminal.source == ToolTerminalSource::Repaired ==> !terminal.trustworthy(),
        terminal.status == ToolStatus::Indeterminate ==> !terminal.trustworthy(),
        terminal.kind == ToolResultKind::Indeterminate ==> !terminal.trustworthy(),
        terminal.source == ToolTerminalSource::Observed && terminal.status
            != ToolStatus::Indeterminate && terminal.kind != ToolResultKind::Indeterminate
            ==> terminal.trustworthy(),
{
}

/// No two ends of a run have the same name.
pub proof fn ends_have_their_own_names(a: RunStatus, b: RunStatus)
    ensures
        a.text() == b.text() ==> a == b,
{
    reveal_strlit("success");
    reveal_strlit("failed");
    reveal_strlit("cancelled");
    reveal_strlit("approval_required");
    reveal_strlit("verification_failed");
    if a.text() == b.text() {
        assert(a.text()[0] == b.text()[0]);
    }
}

} // verus!
