//! Taking a provider's response and tool results into a child's conversation.

use vstd::prelude::*;
use vstd::string::*;
use crate::agent_registry::UsageTotals;
use crate::child_agent_loop_setup::ChildAgentLoopSetup;
use crate::child_agent_types::{ChildAgentResult, ChildAgentResultView};
use crate::conversation::{
    call_views, clone_calls, unanswered, Conversation, ConversationView, MessageView,
};
use crate::provider_types::{
    clone_text, never_started, totals_sum, totals_with, CostTracker, ProviderResponse, ToolRequest,
    ToolResult, Usage,
};
use crate::runtime_types::{run_status_from_tool_status, tool_run_status, RunStatus, ToolTerminal};
use crate::text::opt_chars;

verus! {

/// What a provider's response leads to.
#[derive(Debug)]
pub enum ChildAgentProviderResponseFold {
    Complete(ChildAgentResult),
    ContinueToTools,
}

/// What a tool result leads to.
#[derive(Debug)]
pub enum ChildAgentToolResultFold {
    Continue,
    Stop(ChildAgentResult),
}

/// What executing a tool gave.
#[derive(Debug)]
pub struct ChildAgentToolExecution {
    pub should_stop: bool,
    pub result: ToolResult,
    pub child_cost: Option<CostTracker>,
}

/// Totals after a call whose usage was reported, where it was.
pub open spec fn totals_after(totals: UsageTotals, usage: Option<Usage>) -> UsageTotals {
    match usage {
        Some(usage) => if usage.empty() {
            totals
        } else {
            totals_with(totals, usage)
        },
        None => totals,
    }
}

/// The assistant message that records a response.
pub open spec fn assistant_message(response: ProviderResponse) -> MessageView {
    MessageView::Assistant {
        content: opt_chars(response.assistant_content),
        reasoning_content: opt_chars(response.assistant_reasoning),
        tool_calls: call_views(response.tool_calls@),
        pinned: false,
    }
}

/// A conversation with a message added.
pub open spec fn with_message(conversation: ConversationView, message: MessageView) -> ConversationView {
    ConversationView { messages: conversation.messages.push(message), ..conversation }
}

/// The result of a child that has nothing more to do.
pub open spec fn completion(response: ProviderResponse) -> ChildAgentResultView {
    ChildAgentResultView {
        status: RunStatus::Success,
        final_message: opt_chars(response.assistant_content),
        error: None,
        budget_usage: None,
    }
}

/// Counts what a response used and records it. A response without tool calls
/// completes the child.
pub fn fold_child_agent_provider_response(
    setup: &mut ChildAgentLoopSetup,
    response: &ProviderResponse,
    child_cost_tracker: &mut CostTracker,
) -> (r: ChildAgentProviderResponseFold)
    ensures
        final(setup).conversation@ == with_message(
            old(setup).conversation@,
            assistant_message(*response),
        ),
        final(setup).restored_next_turn == old(setup).restored_next_turn,
        final(setup).turn == old(setup).turn,
        final(setup).compaction_retry == old(setup).compaction_retry,
        *final(child_cost_tracker) == (CostTracker {
            totals: totals_after(old(child_cost_tracker).totals, response.usage),
            ..*old(child_cost_tracker)
        }),
        if response.tool_calls@.len() == 0 {
            r matches ChildAgentProviderResponseFold::Complete(result) && result@ == completion(
                *response,
            )
        } else {
            r == ChildAgentProviderResponseFold::ContinueToTools
        },
{
    if let Some(usage) = response.usage {
        if !usage.is_empty() {
            child_cost_tracker.add_usage(usage);
        }
    }
    setup.conversation.add_assistant(
        clone_text(&response.assistant_content),
        clone_text(&response.assistant_reasoning),
        clone_calls(&response.tool_calls),
    );
    if response.tool_calls.len() == 0 {
        return ChildAgentProviderResponseFold::Complete(
            ChildAgentResult {
                status: RunStatus::Success,
                final_message: clone_text(&response.assistant_content),
                error: None,
                budget_usage: None,
            },
        );
    }
    ChildAgentProviderResponseFold::ContinueToTools
}

/// The message that records a tool result.
pub open spec fn tool_message(id: Seq<char>, content: Seq<char>, terminal: ToolTerminal) -> MessageView {
    MessageView::Tool { tool_call_id: id, content, terminal: Some(terminal), pinned: false }
}

pub open spec fn result_message(result: ToolResult) -> MessageView {
    tool_message(result.id@, result.content@, result.terminal)
}

/// Totals after a nested agent was paid for, where there was one.
pub open spec fn totals_merged(totals: UsageTotals, child_cost: Option<CostTracker>) -> UsageTotals {
    match child_cost {
        Some(cost) => totals_sum(totals, cost.totals),
        None => totals,
    }
}

/// The result of a child that a tool stopped.
pub open spec fn tool_stop(result: ToolResult) -> ChildAgentResultView {
    ChildAgentResultView {
        status: tool_run_status(result.terminal.status),
        final_message: None,
        error: opt_chars(result.error),
        budget_usage: None,
    }
}

/// Counts what a tool's own agents used and records its result, which must be
/// that of the request.
pub fn fold_child_agent_tool_result(
    setup: &mut ChildAgentLoopSetup,
    tool_request: &ToolRequest,
    should_stop: bool,
    result: ToolResult,
    child_cost: Option<CostTracker>,
    child_cost_tracker: &mut CostTracker,
) -> (r: ChildAgentToolResultFold)
    requires
        tool_request.id@ == result.id@,
    ensures
        final(setup).conversation@ == with_message(
            old(setup).conversation@,
            result_message(result),
        ),
        final(setup).restored_next_turn == old(setup).restored_next_turn,
        final(setup).turn == old(setup).turn,
        final(setup).compaction_retry == old(setup).compaction_retry,
        *final(child_cost_tracker) == (CostTracker {
            totals: totals_merged(old(child_cost_tracker).totals, child_cost),
            ..*old(child_cost_tracker)
        }),
        if should_stop {
            r matches ChildAgentToolResultFold::Stop(stop) && stop@ == tool_stop(result)
        } else {
            r == ChildAgentToolResultFold::Continue
        },
{
    if let Some(cost) = child_cost {
        child_cost_tracker.merge(&cost);
    }
    setup.conversation.add_tool_result(result.id, result.content, Some(result.terminal));
    if should_stop {
        return ChildAgentToolResultFold::Stop(
            ChildAgentResult {
                status: run_status_from_tool_status(result.terminal.status),
                final_message: None,
                error: result.error,
                budget_usage: None,
            },
        );
    }
    ChildAgentToolResultFold::Continue
}

/// The text of a call that was never started because of an earlier one.
pub open spec fn sibling_text() -> Seq<char> {
    "an earlier sibling ended the child tool turn"@
}

/// The messages that close calls which were never started.
pub open spec fn closing_messages(siblings: Seq<ToolRequest>, reason: Seq<char>) -> Seq<MessageView> {
    siblings.map_values(|sibling: ToolRequest| tool_message(sibling.id@, reason, never_started()))
}

/// Closes the calls from `from` on as never started.
pub fn close_unstarted(
    conversation: &mut Conversation,
    requests: &Vec<ToolRequest>,
    from: usize,
    reason: &str,
)
    requires
        from <= requests@.len(),
    ensures
        final(conversation)@ == (ConversationView {
            messages: old(conversation)@.messages + closing_messages(
                requests@.skip(from as int),
                reason@,
            ),
            ..old(conversation)@
        }),
{
    let mut i: usize = from;
    let ghost before = conversation@;
    let ghost siblings = requests@.skip(from as int);
    assert(siblings.take(0) =~= Seq::<ToolRequest>::empty());
    assert(conversation@.messages =~= before.messages + closing_messages(siblings.take(0), reason@));
    while i < requests.len()
        invariant
            from <= i <= requests.len(),
            siblings == requests@.skip(from as int),
            conversation@ == (ConversationView {
                messages: before.messages + closing_messages(
                    siblings.take(i - from),
                    reason@,
                ),
                ..before
            }),
        decreases requests.len() - i,
    {
        let result = ToolResult::cancelled_before_start(&requests[i], reason);
        conversation.add_tool_result(result.id, result.content, Some(result.terminal));
        proof {
            let k = i - from;
            assert(siblings.take(k + 1) =~= siblings.take(k).push(siblings[k]));
            assert(siblings[k] == requests@[i as int]);
            assert(closing_messages(siblings.take(k + 1), reason@) =~= closing_messages(
                siblings.take(k),
                reason@,
            ).push(tool_message(siblings[k].id@, reason@, never_started())));
            assert(conversation@.messages =~= before.messages + closing_messages(
                siblings.take(k + 1),
                reason@,
            ));
        }
        i += 1;
    }
    assert(siblings.take(siblings.len() as int) =~= siblings);
}

/// Records the result of one of several calls. If it stops the child, the calls
/// behind it are closed as never started.
pub fn fold_child_agent_tool_result_and_close_siblings(
    setup: &mut ChildAgentLoopSetup,
    requests: &Vec<ToolRequest>,
    index: usize,
    execution: ChildAgentToolExecution,
    child_cost_tracker: &mut CostTracker,
) -> (r: ChildAgentToolResultFold)
    requires
        index < requests@.len(),
        requests@[index as int].id@ == execution.result.id@,
    ensures
        final(setup).conversation@ == recorded_result(
            old(setup).conversation@,
            requests@,
            index as int,
            execution,
        ),
        final(setup).restored_next_turn == old(setup).restored_next_turn,
        final(setup).turn == old(setup).turn,
        final(setup).compaction_retry == old(setup).compaction_retry,
        *final(child_cost_tracker) == (CostTracker {
            totals: totals_merged(old(child_cost_tracker).totals, execution.child_cost),
            ..*old(child_cost_tracker)
        }),
        if execution.should_stop {
            r matches ChildAgentToolResultFold::Stop(stop) && stop@ == tool_stop(execution.result)
        } else {
            r == ChildAgentToolResultFold::Continue
        },
{
    let count: usize = requests.len();
    assert(index < count);
    let fold = fold_child_agent_tool_result(
        setup,
        &requests[index],
        execution.should_stop,
        execution.result,
        execution.child_cost,
        child_cost_tracker,
    );
    if execution.should_stop {
        close_unstarted(
            &mut setup.conversation,
            requests,
            index + 1,
            "an earlier sibling ended the child tool turn",
        );
    }
    fold
}

/// A conversation after the result of one of several calls.
pub open spec fn recorded_result(
    conversation: ConversationView,
    requests: Seq<ToolRequest>,
    index: int,
    execution: ChildAgentToolExecution,
) -> ConversationView {
    let answered = with_message(conversation, result_message(execution.result));
    if execution.should_stop {
        ConversationView {
            messages: answered.messages + closing_messages(
                requests.skip(index + 1),
                sibling_text(),
            ),
            ..answered
        }
    } else {
        answered
    }
}

proof fn closing_answers(messages: Seq<MessageView>, siblings: Seq<ToolRequest>, reason: Seq<char>)
    ensures
        forall|id: Seq<char>| #[trigger]
            unanswered(messages + closing_messages(siblings, reason)).contains(id) ==> unanswered(
                messages,
            ).contains(id) && !(exists|k: int|
                0 <= k < siblings.len() && (#[trigger] siblings[k]).id@ == id),
    decreases siblings.len(),
{
    let closed = messages + closing_messages(siblings, reason);
    if siblings.len() == 0 {
        assert(closed =~= messages);
    } else {
        let front = siblings.drop_last();
        closing_answers(messages, front, reason);
        assert(closed.drop_last() =~= messages + closing_messages(front, reason));
        assert(closed.last() == tool_message(siblings.last().id@, reason, never_started()));
        assert forall|id: Seq<char>| #[trigger] unanswered(closed).contains(id) implies unanswered(
            messages,
        ).contains(id) && !(exists|k: int|
            0 <= k < siblings.len() && (#[trigger] siblings[k]).id@ == id) by {
            assert(unanswered(closed.drop_last()).contains(id));
            if exists|k: int| 0 <= k < siblings.len() && (#[trigger] siblings[k]).id@ == id {
                let k = choose|k: int| 0 <= k < siblings.len() && (#[trigger] siblings[k]).id@
                    == id;
                if k < front.len() {
                    assert(front[k].id@ == id);
                }
            }
        }
    }
}

/// A tool that stops the child leaves no call of its turn unanswered: the calls
/// before it were answered, it is, and those behind it are closed.
pub proof fn stopping_settles_the_turn(
    conversation: ConversationView,
    requests: Seq<ToolRequest>,
    index: int,
    execution: ChildAgentToolExecution,
)
    requires
        0 <= index < requests.len(),
        requests[index].id@ == execution.result.id@,
        execution.should_stop,
        forall|id: Seq<char>| #[trigger]
            unanswered(conversation.messages).contains(id) ==> exists|k: int|
                index <= k < requests.len() && (#[trigger] requests[k]).id@ == id,
    ensures
        unanswered(recorded_result(conversation, requests, index, execution).messages)
            =~= Set::<Seq<char>>::empty(),
{
    let answered = with_message(conversation, result_message(execution.result));
    let siblings = requests.skip(index + 1);
    closing_answers(answered.messages, siblings, sibling_text());
    let all = recorded_result(conversation, requests, index, execution).messages;
    assert(answered.messages.drop_last() =~= conversation.messages);
    assert forall|id: Seq<char>| !(#[trigger] unanswered(all).contains(id)) by {
        if unanswered(all).contains(id) {
            assert(unanswered(answered.messages).contains(id));
            assert(unanswered(conversation.messages).contains(id));
            let k = choose|k: int|
                index <= k < requests.len() && (#[trigger] requests[k]).id@ == id;
            if k > index {
                assert(siblings[k - index - 1].id@ == id);
            }
        }
    }
}

/// The result of a tool is recorded behind what was said before, under its own call
/// and with what it gave. Where it ends the turn, every later call is recorded as
/// cancelled before it started, in order; otherwise nothing more is recorded.
pub proof fn results_are_recorded_as_they_came(
    conversation: ConversationView,
    requests: Seq<ToolRequest>,
    index: int,
    execution: ChildAgentToolExecution,
    k: int,
)
    requires
        0 <= index < requests.len(),
        index < k < requests.len(),
    ensures
        ({
            let after = recorded_result(conversation, requests, index, execution);
            let n = conversation.messages.len() as int;
            &&& after.messages.len() == n + 1 + (if execution.should_stop {
                requests.len() - index - 1
            } else {
                0
            })
            &&& after.messages.take(n) == conversation.messages
            &&& after.messages[n] == (MessageView::Tool {
                tool_call_id: execution.result.id@,
                content: execution.result.content@,
                terminal: Some(execution.result.terminal),
                pinned: false,
            })
            &&& execution.should_stop ==> {
                let closed = after.messages[n + k - index];
                &&& closed is Tool
                &&& closed->Tool_tool_call_id == requests[k].id@
                &&& closed->Tool_terminal is Some
                &&& closed->Tool_terminal->0.status
                    == crate::runtime_types::ToolStatus::Cancelled
                &&& closed->Tool_terminal->0.started
                    == crate::runtime_types::ToolInvocationStarted::No
            }
            &&& after.rolling_summary == conversation.rolling_summary
            &&& after.summary == conversation.summary
            &&& after.internal_context == conversation.internal_context
        }),
{
    let after = recorded_result(conversation, requests, index, execution);
    let n = conversation.messages.len() as int;
    assert(after.messages.take(n) =~= conversation.messages);
    if execution.should_stop {
        assert(requests.skip(index + 1)[k - index - 1] == requests[k]);
    }
}

/// A child that answers without asking for a tool succeeds with its answer; one that
/// a tool stops ends without an answer, with the tool's error, and succeeds only if
/// the tool did.
pub proof fn children_end_with_their_answer_or_error(response: ProviderResponse, result: ToolResult)
    ensures
        completion(response).status == RunStatus::Success,
        completion(response).final_message == opt_chars(response.assistant_content),
        completion(response).error is None,
        tool_stop(result).final_message is None,
        tool_stop(result).error == opt_chars(result.error),
        tool_stop(result).status == RunStatus::Success <==> result.terminal.status
            == crate::runtime_types::ToolStatus::Completed,
        tool_stop(result).status == RunStatus::Cancelled <==> result.terminal.status
            == crate::runtime_types::ToolStatus::Cancelled,
{
}

/// An answer is recorded with its text, its reasoning and its calls.
pub proof fn answers_are_recorded_whole(conversation: ConversationView, response: ProviderResponse)
    ensures
        ({
            let after = with_message(conversation, assistant_message(response));
            &&& after.messages.len() == conversation.messages.len() + 1
            &&& after.messages.drop_last() == conversation.messages
            &&& after.messages.last() is Assistant
            &&& after.messages.last()->Assistant_content == opt_chars(response.assistant_content)
            &&& after.messages.last()->Assistant_reasoning_content == opt_chars(
                response.assistant_reasoning,
            )
            &&& after.messages.last()->Assistant_tool_calls == call_views(response.tool_calls@)
            &&& after.summary == conversation.summary
            &&& after.internal_context == conversation.internal_context
        }),
{
    assert(with_message(conversation, assistant_message(response)).messages.drop_last()
        =~= conversation.messages);
}

} // verus!
