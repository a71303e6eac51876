//! Resolving an approval request by asking the user.

use vstd::prelude::*;
use vstd::string::*;
use crate::command::config::OutputFormat;

verus! {

#[derive(Clone, Copy, Debug, PartialEq, Eq, Structural)]
pub enum ActionKind {
    Read,
    Write,
    Shell,
    Network,
    Agent,
}

/// An action that needs approval.
#[derive(Debug)]
pub struct ApprovalRequest {
    pub id: String,
    pub action: ActionKind,
    pub description: String,
    pub tool: Option<String>,
    pub target: Option<String>,
    pub preview: Option<String>,
}

#[derive(Clone, Copy, Debug, PartialEq, Eq, Structural)]
pub enum ApprovalDecision {
    Allow,
    Deny,
}

#[derive(Debug)]
pub struct ApprovalResolution {
    pub id: String,
    pub decision: ApprovalDecision,
    pub reason: String,
}

/// Whether the user can be asked at all: machine-readable output leaves no room
/// for a question.
pub fn can_prompt(output_format: OutputFormat) -> (r: bool)
    ensures
        r == (output_format != OutputFormat::Jsonl),
{
    match output_format {
        OutputFormat::Text => true,
        OutputFormat::Jsonl => false,
    }
}

/// The resolution of a request. `prompted` is what asking the user gave; it
/// counts only where the user can be asked.
pub fn resolve_interactive<E>(
    output_format: OutputFormat,
    approval: &ApprovalRequest,
    prompted: Result<bool, E>,
) -> (r: Result<ApprovalResolution, E>)
    ensures
        output_format == OutputFormat::Jsonl ==> (r matches Ok(resolution) && resolution.id
            == approval.id && resolution.decision == ApprovalDecision::Deny && resolution.reason@
            == "interactive confirmation unavailable in jsonl mode"@),
        output_format != OutputFormat::Jsonl ==> match prompted {
            Ok(true) => r matches Ok(resolution) && resolution.id == approval.id
                && resolution.decision == ApprovalDecision::Allow && resolution.reason@
                == "user approved"@,
            Ok(false) => r matches Ok(resolution) && resolution.id == approval.id
                && resolution.decision == ApprovalDecision::Deny && resolution.reason@
                == "user denied"@,
            Err(e) => r == Err::<ApprovalResolution, E>(e),
        },
{
    if !can_prompt(output_format) {
        return Ok(
            ApprovalResolution {
                id: approval.id.clone(),
                decision: ApprovalDecision::Deny,
                reason: "interactive confirmation unavailable in jsonl mode".to_owned(),
            },
        );
    }
    match prompted {
        Ok(allowed) => Ok(
            ApprovalResolution {
                id: approval.id.clone(),
                decision: if allowed {
                    ApprovalDecision::Allow
                } else {
                    ApprovalDecision::Deny
                },
                reason: if allowed {
                    "user approved".to_owned()
                } else {
                    "user denied".to_owned()
                },
            },
        ),
        Err(e) => Err(e),
    }
}

} // verus!
