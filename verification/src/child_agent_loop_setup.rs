//! Preparing a child's conversation, fresh or from a checkpoint, and counting
//! its turns.

use vstd::prelude::*;
use vstd::string::*;
use crate::agent_continuation::error::{
    agrees, corrupt, corrupt_record, AgentContinuationError, AgentContinuationErrorView,
};
use crate::agent_continuation::ids::{AgentAttemptId, AgentContinuationId, AgentPromptId};
use crate::agent_continuation::record::AgentCheckpoint;
use crate::agent_continuation::snapshot::{restore_error, restored, FragmentCatalog};
use crate::budget::BudgetStop;
use crate::budget_controller::BudgetLease;
use crate::child_agent_types::{
    failure, ChildAgentContinuationStart, ChildAgentRequest, ChildAgentResult,
};
use crate::compaction::RuntimeCompactionRetryState;
use crate::conversation::{
    empty_conversation, message_views, Conversation, ConversationView, Message, MessageView,
};
use crate::runtime_types::ToolTerminal;
use crate::text::{decimal, decimal_of, plus, plus3};

verus! {

/// What a child loop works on.
#[derive(Debug)]
pub struct ChildAgentLoopSetup {
    pub conversation: Conversation,
    /// The turn from which a continuation goes on, where the loop is one.
    pub restored_next_turn: Option<u32>,
    pub turn: u32,
    pub compaction_retry: RuntimeCompactionRetryState,
}

/// What a checkpoint needs from outside to be restored: its messages after
/// tool-boundary normalization, the terminal of a repaired call, and the
/// fragments that may be restored.
#[derive(Debug)]
pub struct RestoreInputs {
    pub normalized: Vec<Message>,
    pub repair: ToolTerminal,
    pub catalog: FragmentCatalog,
}

pub open spec fn system_message(text: Seq<char>) -> MessageView {
    MessageView::System { content: text, pinned: false }
}

pub open spec fn user_message(text: Seq<char>) -> MessageView {
    MessageView::User { content: text, images: Seq::empty(), pinned: false }
}

/// A conversation with nothing but a system prompt.
pub open spec fn system_conversation(system_prompt: Seq<char>) -> ConversationView {
    ConversationView {
        messages: seq![system_message(system_prompt)],
        ..empty_conversation()
    }
}

/// A conversation with a user message added.
pub open spec fn asked(conversation: ConversationView, prompt: Seq<char>) -> ConversationView {
    ConversationView {
        messages: conversation.messages.push(user_message(prompt)),
        ..conversation
    }
}

fn prepare_child_agent_system_conversation(system_prompt: String) -> (r: Conversation)
    ensures
        r@ == system_conversation(system_prompt@),
{
    let mut conversation = Conversation::new();
    conversation.add_system(system_prompt);
    assert(conversation@.messages =~= seq![system_message(system_prompt@)]);
    conversation
}

/// A fresh conversation: the system prompt and the request's prompt.
fn prepare_fresh_child_agent_conversation(system_prompt: String, prompt: String) -> (r:
    Conversation)
    ensures
        r@ == asked(system_conversation(system_prompt@), prompt@),
{
    let mut conversation = prepare_child_agent_system_conversation(system_prompt);
    conversation.add_user(prompt);
    conversation
}

/// The setup of a fresh child loop, at turn zero.
pub fn prepare_child_agent_loop(request: &ChildAgentRequest, system_prompt: String) -> (r:
    ChildAgentLoopSetup)
    ensures
        r.conversation@ == asked(system_conversation(system_prompt@), request.prompt@),
        r.restored_next_turn is None,
        r.turn == 0,
        !r.compaction_retry.prompt_too_long_retried,
{
    ChildAgentLoopSetup {
        conversation: prepare_fresh_child_agent_conversation(
            system_prompt,
            request.prompt.clone(),
        ),
        restored_next_turn: None,
        turn: 0,
        compaction_retry: RuntimeCompactionRetryState::new(),
    }
}

/// Why a checkpoint cannot be gone on from.
pub open spec fn resume_error(checkpoint: AgentCheckpoint, target: ConversationView) -> Option<
    AgentContinuationErrorView,
> {
    if checkpoint@.digest_error() is Some {
        checkpoint@.digest_error()
    } else if checkpoint.turn == u32::MAX {
        Some(corrupt("child continuation turn cursor is exhausted"@))
    } else if checkpoint.conversation.next_turn != checkpoint.turn + 1 {
        Some(corrupt("child continuation next turn does not follow checkpoint turn"@))
    } else {
        restore_error(checkpoint.conversation@, target)
    }
}

/// Restores a checkpoint into a conversation that holds the system prompt only,
/// and hands out the next turn. The identities and the digest are checked once
/// more. The checkpoint may come from the attempt itself or from the one that it
/// resumes, so that their identities need not agree.
fn restore_child_agent_continuation(
    conversation: &mut Conversation,
    start: &ChildAgentContinuationStart,
    inputs: &RestoreInputs,
) -> (r: Result<u32, AgentContinuationError>)
    ensures
        agrees(r, resume_error(start.saved(), old(conversation)@)),
        r matches Ok(next_turn) ==> next_turn == start.saved().turn + 1 && final(conversation)@
            == restored(
            start.saved().conversation@,
            old(conversation)@,
            message_views(inputs.normalized@),
            inputs.repair,
            inputs.catalog,
        ),
        r is Err ==> *final(conversation) == *old(conversation),
{
    match AgentContinuationId::parse(start.continuation_id().as_str().to_owned()) {
        Ok(_) => {},
        Err(e) => {
            return Err(e);
        },
    }
    match AgentAttemptId::parse(start.attempt_id().as_str().to_owned()) {
        Ok(_) => {},
        Err(e) => {
            return Err(e);
        },
    }
    match AgentPromptId::parse(start.prompt_id().as_str().to_owned()) {
        Ok(_) => {},
        Err(e) => {
            return Err(e);
        },
    }
    match AgentAttemptId::parse(start.checkpoint().attempt_id.as_str().to_owned()) {
        Ok(_) => {},
        Err(e) => {
            return Err(e);
        },
    }
    match start.checkpoint().verify_digest() {
        Ok(_) => {},
        Err(e) => {
            return Err(e);
        },
    }
    let turn: u32 = start.checkpoint().turn;
    if turn == u32::MAX {
        return Err(corrupt_record("child continuation turn cursor is exhausted"));
    }
    if start.checkpoint().conversation.next_turn != turn + 1 {
        return Err(
            corrupt_record("child continuation next turn does not follow checkpoint turn"),
        );
    }
    start.checkpoint().conversation.restore_into(
        conversation,
        &inputs.normalized,
        inputs.repair,
        &inputs.catalog,
    )
}

/// The conversation with which a continuation goes on.
pub open spec fn resumed_conversation(
    checkpoint: AgentCheckpoint,
    system_prompt: Seq<char>,
    prompt: Seq<char>,
    inputs: RestoreInputs,
) -> ConversationView {
    asked(
        restored(
            checkpoint.conversation@,
            system_conversation(system_prompt),
            message_views(inputs.normalized@),
            inputs.repair,
            inputs.catalog,
        ),
        prompt,
    )
}

/// The setup of a child loop. A fresh request starts at turn zero. A
/// continuation restores its checkpoint below the current system prompt, takes
/// the new prompt, and goes on at the checkpoint's turn, or fails without a
/// setup.
pub fn try_prepare_child_agent_loop(
    request: &ChildAgentRequest,
    system_prompt: String,
    inputs: &RestoreInputs,
) -> (r: Result<ChildAgentLoopSetup, AgentContinuationError>)
    ensures
        match request.continuation {
            None => r matches Ok(setup) && setup.conversation@ == asked(
                system_conversation(system_prompt@),
                request.prompt@,
            ) && setup.restored_next_turn is None && setup.turn == 0
                && !setup.compaction_retry.prompt_too_long_retried,
            Some(start) => {
                &&& agrees(r, resume_error(start.saved(), system_conversation(system_prompt@)))
                &&& r matches Ok(setup) ==> {
                    &&& setup.conversation@ == resumed_conversation(
                        start.saved(),
                        system_prompt@,
                        request.prompt@,
                        *inputs,
                    )
                    &&& setup.turn == start.saved().turn
                    &&& setup.restored_next_turn == Some((start.saved().turn + 1) as u32)
                    &&& !setup.compaction_retry.prompt_too_long_retried
                }
            },
        },
{
    let start = match &request.continuation {
        Some(start) => start,
        None => {
            return Ok(prepare_child_agent_loop(request, system_prompt));
        },
    };
    let mut conversation = prepare_child_agent_system_conversation(system_prompt);
    let next_turn: u32 = match restore_child_agent_continuation(&mut conversation, start, inputs) {
        Ok(next_turn) => next_turn,
        Err(e) => {
            return Err(e);
        },
    };
    conversation.add_user(request.prompt.clone());
    if next_turn == 0 {
        return Err(corrupt_record("child continuation next turn must be at least one"));
    }
    Ok(
        ChildAgentLoopSetup {
            conversation,
            restored_next_turn: Some(next_turn),
            turn: next_turn - 1,
            compaction_retry: RuntimeCompactionRetryState::new(),
        },
    )
}

/// What became of an attempt to take a turn.
#[derive(Debug)]
pub enum ChildAgentTurnBudget {
    Continue,
    Stop(ChildAgentResult),
}

/// The message of a child that its budget stopped.
pub open spec fn budget_stop_text(stop: BudgetStop) -> Seq<char> {
    "budget stopped: child "@ + stop.reason.name() + " (turns="@ + decimal_of(
        stop.usage.turns as nat,
    ) + ", tool_calls="@ + decimal_of(stop.usage.tool_calls as nat) + ")"@
}

pub fn budget_stop_result(stop: &BudgetStop) -> (r: ChildAgentResult)
    ensures
        r@ == failure(budget_stop_text(*stop)),
{
    let turns = decimal(stop.usage.turns as u64);
    let tool_calls = decimal(stop.usage.tool_calls as u64);
    let head = plus("budget stopped: child ", stop.reason.as_str());
    let counted = plus3(head.as_str(), " (turns=", turns.as_str());
    let mut text = plus3(counted.as_str(), ", tool_calls=", tool_calls.as_str());
    text.append(")");
    ChildAgentResult::failed(text)
}

/// The turn after this one.
pub open spec fn next_turn(turn: u32) -> u32 {
    if turn < u32::MAX {
        (turn + 1) as u32
    } else {
        turn
    }
}

/// Takes one turn under the child's lease, which is bounded by what the parent
/// has left, so that a child never spends more than was reserved for it.
pub fn advance_child_agent_turn(setup: &mut ChildAgentLoopSetup, lease: &mut BudgetLease) -> (r:
    ChildAgentTurnBudget)
    ensures
        *final(setup) == (ChildAgentLoopSetup { turn: next_turn(old(setup).turn), ..*old(setup) }),
        final(lease).spec_view() == old(lease).spec_view(),
        match old(lease).stop() {
            Some(stop) => r matches ChildAgentTurnBudget::Stop(result) && result@ == failure(
                budget_stop_text(stop),
            ) && final(lease).usage_view() == old(lease).usage_view(),
            None => r == ChildAgentTurnBudget::Continue && final(lease).usage_view()
                == turn_taken(old(lease).usage_view()),
        },
{
    setup.turn = if setup.turn < u32::MAX {
        setup.turn + 1
    } else {
        setup.turn
    };
    match lease.admit_turn() {
        Ok(_) => ChildAgentTurnBudget::Continue,
        Err(stop) => ChildAgentTurnBudget::Stop(budget_stop_result(&stop)),
    }
}

/// Takes one turn under a plain ceiling, without a lease.
pub fn advance_child_agent_turn_with_limit(setup: &mut ChildAgentLoopSetup, max_turns: u32) -> (r:
    ChildAgentTurnBudget)
    ensures
        *final(setup) == (ChildAgentLoopSetup { turn: next_turn(old(setup).turn), ..*old(setup) }),
        if next_turn(old(setup).turn) > max_turns {
            r matches ChildAgentTurnBudget::Stop(result) && result@ == failure(
                "budget stopped: child turn budget exhausted"@,
            )
        } else {
            r == ChildAgentTurnBudget::Continue
        },
{
    setup.turn = if setup.turn < u32::MAX {
        setup.turn + 1
    } else {
        setup.turn
    };
    if setup.turn > max_turns {
        return ChildAgentTurnBudget::Stop(
            ChildAgentResult::failed("budget stopped: child turn budget exhausted".to_owned()),
        );
    }
    ChildAgentTurnBudget::Continue
}

/// Usage after one more turn.
pub open spec fn turn_taken(usage: crate::budget::BudgetUsage) -> crate::budget::BudgetUsage {
    crate::budget::BudgetUsage {
        turns: crate::budget::saturated_u32(usage.turns, 1),
        ..usage
    }
}

/// Going on from a checkpoint, the first turn that is taken is the one that the
/// checkpoint announced.
pub proof fn continuations_resume_at_the_announced_turn(
    checkpoint: AgentCheckpoint,
    target: ConversationView,
)
    requires
        resume_error(checkpoint, target) is None,
    ensures
        next_turn(checkpoint.turn) == checkpoint.conversation.next_turn,
{
}

/// A fresh child sees two messages, its system prompt and its task; nothing is
/// summarized and nothing else stands in its context.
pub proof fn fresh_children_see_their_prompt_and_task(system_prompt: Seq<char>, prompt: Seq<char>)
    ensures
        ({
            let fresh = asked(system_conversation(system_prompt), prompt);
            &&& fresh.messages.len() == 2
            &&& fresh.messages[0] == (MessageView::System { content: system_prompt, pinned: false })
            &&& fresh.messages[1] == (MessageView::User {
                content: prompt,
                images: Seq::empty(),
                pinned: false,
            })
            &&& fresh.rolling_summary is None
            &&& fresh.summary.baseline is None
            &&& fresh.summary.deltas.len() == 0
            &&& fresh.internal_context.len() == 0
        }),
{
}

/// A continued child sees the new system prompt first, then the history of its
/// checkpoint with every message in its place, then its new task; the summaries are
/// those of the checkpoint.
pub proof fn continued_children_see_their_history(
    checkpoint: AgentCheckpoint,
    system_prompt: Seq<char>,
    prompt: Seq<char>,
    inputs: RestoreInputs,
    i: int,
)
    requires
        0 <= i < inputs.normalized@.len(),
    ensures
        ({
            let back = resumed_conversation(checkpoint, system_prompt, prompt, inputs);
            let history = message_views(inputs.normalized@);
            &&& back.messages.len() == history.len() + 2
            &&& back.messages[0] == (MessageView::System { content: system_prompt, pinned: false })
            &&& !(history[i] is Tool) ==> back.messages[i + 1] == history[i]
            &&& history[i] is Tool ==> back.messages[i + 1] is Tool
                && back.messages[i + 1]->Tool_tool_call_id == history[i]->Tool_tool_call_id
                && back.messages[i + 1]->Tool_content == history[i]->Tool_content && (
            history[i]->Tool_terminal is Some ==> back.messages[i + 1] == history[i])
            &&& back.messages.last() == (MessageView::User {
                content: prompt,
                images: Seq::empty(),
                pinned: false,
            })
            &&& back.rolling_summary == checkpoint.conversation@.rolling_summary
            &&& back.summary == checkpoint.conversation@.summary
        }),
{
}

/// A checkpoint is continued exactly when its digest is that of its payload, its
/// conversation has the supported form and goes on with the turn behind the
/// checkpoint's.
pub proof fn checkpoints_are_continued_where_they_stopped(
    checkpoint: AgentCheckpoint,
    system_prompt: Seq<char>,
)
    ensures
        resume_error(checkpoint, system_conversation(system_prompt)) is None <==> {
            &&& checkpoint@.payload_digest == Some(checkpoint@.digest)
            &&& checkpoint.conversation@.schema_version
                == crate::agent_continuation::snapshot::CHILD_CONVERSATION_SNAPSHOT_SCHEMA_VERSION
            &&& checkpoint.conversation.next_turn == checkpoint.turn + 1
        },
{
}

/// A turn counts one up, in the cursor and in the usage, and nothing else of the
/// usage changes. (Counters stop at their largest value.)
pub proof fn turns_count_up_by_one(turn: u32, usage: crate::budget::BudgetUsage)
    ensures
        turn < u32::MAX ==> next_turn(turn) == turn + 1,
        usage.turns < u32::MAX ==> turn_taken(usage).turns == usage.turns + 1,
        turn_taken(usage).tool_calls == usage.tool_calls,
        turn_taken(usage).cost_usd_micros == usage.cost_usd_micros,
        turn_taken(usage).wall_time_ms == usage.wall_time_ms,
{
}

} // verus!
