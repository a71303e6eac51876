//! How an agent loop ends: what its journal is told and what its parent gets.

use vstd::prelude::*;
use vstd::string::*;
use crate::budget::{BudgetUsage, OperationTerminal};
use crate::child_agent_types::{ChildAgentResult, ChildAgentResultView};
use crate::command::config::HistoryMode;
use crate::runtime_types::RunStatus;
use crate::text::opt_chars;

verus! {

/// The result of an agent loop.
#[derive(Debug)]
pub struct AgentLoopResult {
    pub status: RunStatus,
    pub final_message: Option<String>,
    pub error: Option<String>,
    pub terminal: OperationTerminal,
}

/// How an agent loop returned: completed, or suspended at its provider.
#[derive(Debug)]
pub enum AgentLoopOutcome {
    Completed(AgentLoopResult),
    Suspended,
}

/// Whether the journal of an operation is kept with the session: every history
/// mode that is backed by one keeps it.
pub fn journals_durably(history_mode: &HistoryMode) -> (r: bool)
    ensures
        r == !(history_mode is Disabled),
{
    match history_mode {
        HistoryMode::Disabled => false,
        _ => true,
    }
}

/// A terminal with the usage of the controller, where it reports completion. A
/// stop keeps the usage that it was recorded with.
pub open spec fn finalized(terminal: OperationTerminal, usage: BudgetUsage) -> OperationTerminal {
    match terminal {
        OperationTerminal::Completed { .. } => OperationTerminal::Completed { usage },
        OperationTerminal::Stopped { .. } => terminal,
    }
}

/// A loop that waits for approval may go on and has no terminal yet. Any other
/// completed loop commits its terminal.
pub open spec fn commits_terminal(outcome: AgentLoopOutcome) -> bool {
    outcome matches AgentLoopOutcome::Completed(result) && result.status
        != RunStatus::ApprovalRequired
}

/// Finalizes an outcome, and says whether its terminal is to be committed.
pub fn finalize_agent_loop(outcome: AgentLoopOutcome, usage: BudgetUsage) -> (r: (
    AgentLoopOutcome,
    bool,
))
    ensures
        r.1 == commits_terminal(outcome),
        !r.1 ==> r.0 == outcome,
        r.1 ==> r.0 == AgentLoopOutcome::Completed(
            AgentLoopResult {
                terminal: finalized(outcome->Completed_0.terminal, usage),
                ..outcome->Completed_0
            },
        ),
{
    match outcome {
        AgentLoopOutcome::Suspended => (AgentLoopOutcome::Suspended, false),
        AgentLoopOutcome::Completed(result) => {
            if result.status == RunStatus::ApprovalRequired {
                return (AgentLoopOutcome::Completed(result), false);
            }
            let terminal = match result.terminal {
                OperationTerminal::Completed { .. } => OperationTerminal::Completed { usage },
                OperationTerminal::Stopped { reason, usage, checkpoint_id, resumable } => {
                    OperationTerminal::Stopped { reason, usage, checkpoint_id, resumable }
                },
            };
            (
                AgentLoopOutcome::Completed(
                    AgentLoopResult {
                        status: result.status,
                        final_message: result.final_message,
                        error: result.error,
                        terminal,
                    },
                ),
                true,
            )
        },
    }
}

/// What a child's loop hands to its parent: its result with the receipt of what
/// it consumed. A child cannot be suspended.
pub fn execute_child_agent_loop(outcome: AgentLoopOutcome) -> (r: Result<ChildAgentResult, String>)
    ensures
        match outcome {
            AgentLoopOutcome::Suspended => r matches Err(e) && e@
                == "child agent provider suspension is not supported"@,
            AgentLoopOutcome::Completed(result) => r matches Ok(child) && child@ == (
            ChildAgentResultView {
                status: result.status,
                final_message: opt_chars(result.final_message),
                error: opt_chars(result.error),
                budget_usage: Some(result.terminal.usage_spec()),
            }),
        },
{
    match outcome {
        AgentLoopOutcome::Suspended => Err(
            "child agent provider suspension is not supported".to_owned(),
        ),
        AgentLoopOutcome::Completed(result) => {
            let usage = result.terminal.usage();
            Ok(
                ChildAgentResult {
                    status: result.status,
                    final_message: result.final_message,
                    error: result.error,
                    budget_usage: Some(usage),
                },
            )
        },
    }
}

/// A completed loop that is not waiting for approval reports exactly what its
/// controller counted.
pub proof fn receipts_are_exact(terminal: OperationTerminal, usage: BudgetUsage)
    ensures
        terminal is Completed ==> finalized(terminal, usage).usage_spec() == usage,
        terminal is Stopped ==> finalized(terminal, usage) == terminal,
{
}

/// A terminal is committed exactly for a loop that came to its end: not while its
/// provider is suspended, and not while it waits for an approval.
pub proof fn unfinished_loops_commit_nothing(outcome: AgentLoopOutcome)
    ensures
        outcome is Suspended ==> !commits_terminal(outcome),
        outcome matches AgentLoopOutcome::Completed(result) ==> (commits_terminal(outcome)
            <==> result.status == RunStatus::Success || result.status == RunStatus::Failed
            || result.status == RunStatus::Cancelled || result.status
            == RunStatus::VerificationFailed),
{
}

} // verus!
