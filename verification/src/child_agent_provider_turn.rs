//! One model call of a child agent: the hooks around it and the errors of the
//! provider.

use vstd::prelude::*;
use vstd::string::*;
use crate::child_agent_loop_setup::ChildAgentLoopSetup;
use crate::child_agent_types::{failure, ChildAgentResult};
use crate::compaction::{
    RuntimeCompactionPolicy, RuntimeCompactionRetryDecision, RuntimeCompactionTrigger,
};
use crate::provider_types::{first_error, provider_error, ProviderResponse, Usage};
use crate::text::plus;

verus! {

/// What a child does about a provider's error.
#[derive(Debug)]
pub enum ChildAgentProviderErrorDecision {
    RetryAfterCompaction,
    Fail(ChildAgentResult),
}

/// What a model call came to.
#[derive(Debug)]
pub enum ChildAgentProviderTurn {
    Response(ProviderResponse),
    Fail { result: ChildAgentResult, usage: Option<Usage> },
}

/// Ends the turn if the hook before the model call failed, before anything was
/// spent.
pub fn after_pre_model_hook(hook: Result<(), String>) -> (r: Option<ChildAgentProviderTurn>)
    ensures
        match hook {
            Ok(_) => r is None,
            Err(e) => r matches Some(ChildAgentProviderTurn::Fail { result, usage }) && result@
                == failure("pre_model_call hook failed: "@ + e@) && usage is None,
        },
{
    match hook {
        Ok(_) => None,
        Err(e) => Some(
            ChildAgentProviderTurn::Fail {
                result: ChildAgentResult::failed(plus("pre_model_call hook failed: ", e.as_str())),
                usage: None,
            },
        ),
    }
}

/// What the turn came to, given the hook after the model call. If that hook
/// failed, what the call used is still reported.
pub fn after_post_model_hook(response: ProviderResponse, hook: Result<(), String>) -> (r:
    ChildAgentProviderTurn)
    ensures
        match hook {
            Ok(_) => r == ChildAgentProviderTurn::Response(response),
            Err(e) => r matches ChildAgentProviderTurn::Fail { result, usage } && result@
                == failure("post_model_call hook failed: "@ + e@) && usage == response.usage,
        },
{
    match hook {
        Ok(_) => ChildAgentProviderTurn::Response(response),
        Err(e) => ChildAgentProviderTurn::Fail {
            result: ChildAgentResult::failed(plus("post_model_call hook failed: ", e.as_str())),
            usage: response.usage,
        },
    }
}

/// What is to be done about a response.
#[derive(Debug)]
pub enum ChildProviderErrorStep {
    NoError,
    /// Compact first, then confirm the retry.
    Compact { trigger: RuntimeCompactionTrigger },
    Fail(ChildAgentResult),
}

/// Reads the first error of a response and decides about it. A response without
/// an error allows the next prompt that is too long to be retried again.
pub fn handle_child_agent_provider_error(
    setup: &mut ChildAgentLoopSetup,
    response: &ProviderResponse,
    prompt_too_long: bool,
) -> (r: ChildProviderErrorStep)
    ensures
        final(setup).conversation == old(setup).conversation,
        final(setup).restored_next_turn == old(setup).restored_next_turn,
        final(setup).turn == old(setup).turn,
        final(setup).compaction_retry.prompt_too_long_retried == (first_error(response.steps@) is Some
            && old(setup).compaction_retry.prompt_too_long_retried),
        match first_error(response.steps@) {
            None => r == ChildProviderErrorStep::NoError,
            Some(error) => match RuntimeCompactionPolicy::retry_decision(
                prompt_too_long,
                old(setup).compaction_retry,
            ) {
                RuntimeCompactionRetryDecision::CompactAndRetry { trigger, .. } => r == (
                ChildProviderErrorStep::Compact { trigger }),
                RuntimeCompactionRetryDecision::SurfaceError => r
                    matches ChildProviderErrorStep::Fail(result) && result@ == failure(error@),
            },
        },
{
    let error = match provider_error(response) {
        Some(error) => error,
        None => {
            setup.compaction_retry.reset();
            return ChildProviderErrorStep::NoError;
        },
    };
    match RuntimeCompactionPolicy::decide_for_provider_error(
        prompt_too_long,
        &setup.compaction_retry,
    ) {
        RuntimeCompactionRetryDecision::CompactAndRetry { trigger, .. } => {
            ChildProviderErrorStep::Compact { trigger }
        },
        RuntimeCompactionRetryDecision::SurfaceError => ChildProviderErrorStep::Fail(
            ChildAgentResult::failed(error),
        ),
    }
}

/// Takes the retry after a compaction.
pub fn confirm_child_retry(setup: &mut ChildAgentLoopSetup) -> (r: ChildAgentProviderErrorDecision)
    ensures
        r == ChildAgentProviderErrorDecision::RetryAfterCompaction,
        final(setup).conversation == old(setup).conversation,
        final(setup).restored_next_turn == old(setup).restored_next_turn,
        final(setup).turn == old(setup).turn,
        final(setup).compaction_retry.prompt_too_long_retried,
{
    setup.compaction_retry.record_prompt_too_long_retry();
    ChildAgentProviderErrorDecision::RetryAfterCompaction
}

} // verus!
