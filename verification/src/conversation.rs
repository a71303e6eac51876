//! Conversations, their tool boundaries and their durable snapshots.

use vstd::prelude::*;
use vstd::hash_set::StringHashSet;
use crate::agent_continuation::error::{
    corrupt, AgentContinuationError, AgentContinuationErrorView,
};
use crate::runtime_types::{ToolResultKind, ToolStatus, ToolTerminal, ToolTerminalSource};
use crate::text::{clone_opt_text, clone_texts, opt_chars, plus3, texts};

verus! {

/// A tool call as the provider wrote it.
#[derive(Debug)]
pub struct RawToolCall {
    pub id: String,
    pub function_name: String,
    pub arguments: String,
}

/// One message of a conversation. Images are held by reference.
#[derive(Debug)]
#[allow(inconsistent_fields)]
pub enum Message {
    System { content: String, pinned: bool },
    User { content: String, images: Vec<String>, pinned: bool },
    Assistant {
        content: Option<String>,
        reasoning_content: Option<String>,
        tool_calls: Vec<RawToolCall>,
        pinned: bool,
    },
    Tool { tool_call_id: String, content: String, terminal: Option<ToolTerminal>, pinned: bool },
}

/// What a raw tool call says.
pub ghost struct RawToolCallView {
    pub id: Seq<char>,
    pub function_name: Seq<char>,
    pub arguments: Seq<char>,
}

/// What a message says.
#[allow(inconsistent_fields)]
pub ghost enum MessageView {
    System { content: Seq<char>, pinned: bool },
    User { content: Seq<char>, images: Seq<Seq<char>>, pinned: bool },
    Assistant {
        content: Option<Seq<char>>,
        reasoning_content: Option<Seq<char>>,
        tool_calls: Seq<RawToolCallView>,
        pinned: bool,
    },
    Tool {
        tool_call_id: Seq<char>,
        content: Seq<char>,
        terminal: Option<ToolTerminal>,
        pinned: bool,
    },
}

impl View for RawToolCall {
    type V = RawToolCallView;

    open spec fn view(&self) -> RawToolCallView {
        RawToolCallView {
            id: self.id@,
            function_name: self.function_name@,
            arguments: self.arguments@,
        }
    }
}

/// What a list of tool calls says.
pub open spec fn call_views(calls: Seq<RawToolCall>) -> Seq<RawToolCallView> {
    calls.map_values(|c: RawToolCall| c@)
}

impl View for Message {
    type V = MessageView;

    open spec fn view(&self) -> MessageView {
        match *self {
            Message::System { content, pinned } => MessageView::System {
                content: content@,
                pinned,
            },
            Message::User { content, images, pinned } => MessageView::User {
                content: content@,
                images: texts(images@),
                pinned,
            },
            Message::Assistant { content, reasoning_content, tool_calls, pinned } =>
                MessageView::Assistant {
                content: opt_chars(content),
                reasoning_content: opt_chars(reasoning_content),
                tool_calls: call_views(tool_calls@),
                pinned,
            },
            Message::Tool { tool_call_id, content, terminal, pinned } => MessageView::Tool {
                tool_call_id: tool_call_id@,
                content: content@,
                terminal,
                pinned,
            },
        }
    }
}

/// What a list of messages says.
pub open spec fn message_views(messages: Seq<Message>) -> Seq<MessageView> {
    messages.map_values(|m: Message| m@)
}

pub fn clone_calls(calls: &Vec<RawToolCall>) -> (r: Vec<RawToolCall>)
    ensures
        call_views(r@) == call_views(calls@),
        r@ == calls@,
{
    let mut r: Vec<RawToolCall> = Vec::new();
    let mut i: usize = 0;
    while i < calls.len()
        invariant
            i <= calls.len(),
            r@ == calls@.take(i as int),
        decreases calls.len() - i,
    {
        r.push(
            RawToolCall {
                id: calls[i].id.clone(),
                function_name: calls[i].function_name.clone(),
                arguments: calls[i].arguments.clone(),
            },
        );
        assert(calls@.take(i + 1) == calls@.take(i as int).push(calls@[i as int]));
        i += 1;
    }
    assert(calls@.take(calls@.len() as int) == calls@);
    r
}

impl Message {
    pub fn duplicate(&self) -> (r: Message)
        ensures
            r@ == self@,
    {
        match self {
            Message::System { content, pinned } => Message::System {
                content: content.clone(),
                pinned: *pinned,
            },
            Message::User { content, images, pinned } => Message::User {
                content: content.clone(),
                images: clone_texts(images),
                pinned: *pinned,
            },
            Message::Assistant { content, reasoning_content, tool_calls, pinned } =>
                Message::Assistant {
                content: clone_opt_text(content),
                reasoning_content: clone_opt_text(reasoning_content),
                tool_calls: clone_calls(tool_calls),
                pinned: *pinned,
            },
            Message::Tool { tool_call_id, content, terminal, pinned } => Message::Tool {
                tool_call_id: tool_call_id.clone(),
                content: content.clone(),
                terminal: *terminal,
                pinned: *pinned,
            },
        }
    }
}

/// Tool calls that wait for their result, and the latest settled call since
/// the last message without tools.
pub ghost struct ToolWalk {
    pub open: Set<Seq<char>>,
    pub last: Option<Seq<char>>,
}

pub open spec fn repeats_text(id: Seq<char>) -> Seq<char> {
    "child conversation repeats open tool call '"@ + id + "'"@
}

pub open spec fn unopened_text(id: Seq<char>) -> Seq<char> {
    "child conversation has a tool result without open call '"@ + id + "'"@
}

/// The open calls after the assistant asked for `calls`. No call may be open
/// twice.
pub open spec fn opened(open: Set<Seq<char>>, calls: Seq<RawToolCallView>) -> Result<
    Set<Seq<char>>,
    AgentContinuationErrorView,
>
    decreases calls.len(),
{
    if calls.len() == 0 {
        Ok(open)
    } else {
        match opened(open, calls.drop_last()) {
            Err(e) => Err(e),
            Ok(now) => if now.contains(calls.last().id) {
                Err(corrupt(repeats_text(calls.last().id)))
            } else {
                Ok(now.insert(calls.last().id))
            },
        }
    }
}

/// One message further. A tool result must close an open call with a
/// trustworthy terminal.
pub open spec fn walk_message(walk: ToolWalk, message: MessageView) -> Result<
    ToolWalk,
    AgentContinuationErrorView,
> {
    match message {
        MessageView::Assistant { tool_calls, .. } => match opened(walk.open, tool_calls) {
            Err(e) => Err(e),
            Ok(open) => Ok(
                ToolWalk {
                    open,
                    last: if tool_calls.len() == 0 {
                        None
                    } else {
                        walk.last
                    },
                },
            ),
        },
        MessageView::Tool { tool_call_id, terminal, .. } => if !walk.open.contains(tool_call_id) {
            Err(corrupt(unopened_text(tool_call_id)))
        } else if terminal is None || !terminal->0.trustworthy() {
            Err(AgentContinuationErrorView::Indeterminate)
        } else {
            Ok(ToolWalk { open: walk.open.remove(tool_call_id), last: Some(tool_call_id) })
        },
        MessageView::User { .. } => Ok(ToolWalk { last: None, ..walk }),
        MessageView::System { .. } => Ok(walk),
    }
}

/// The walk through all messages, up to the first failure.
pub open spec fn walked(messages: Seq<MessageView>) -> Result<ToolWalk, AgentContinuationErrorView>
    decreases messages.len(),
{
    if messages.len() == 0 {
        Ok(ToolWalk { open: Set::empty(), last: None })
    } else {
        match walked(messages.drop_last()) {
            Err(e) => Err(e),
            Ok(walk) => walk_message(walk, messages.last()),
        }
    }
}

/// The latest settled tool call of a conversation that may be checkpointed:
/// every call has a trustworthy terminal.
pub open spec fn settled_boundary(messages: Seq<MessageView>) -> Result<
    Option<Seq<char>>,
    AgentContinuationErrorView,
> {
    match walked(messages) {
        Err(e) => Err(e),
        Ok(walk) => if walk.open =~= Set::empty() {
            Ok(walk.last)
        } else {
            Err(AgentContinuationErrorView::Indeterminate)
        },
    }
}

proof fn walk_keeps_failure(messages: Seq<MessageView>, n: int)
    requires
        0 <= n <= messages.len(),
        walked(messages.take(n)) is Err,
    ensures
        walked(messages) == walked(messages.take(n)),
    decreases messages.len() - n,
{
    if n == messages.len() {
        assert(messages.take(n) == messages);
    } else {
        assert(messages.take(n + 1).drop_last() == messages.take(n));
        walk_keeps_failure(messages, n + 1);
    }
}

proof fn opened_keeps_failure(open: Set<Seq<char>>, calls: Seq<RawToolCallView>, n: int)
    requires
        0 <= n <= calls.len(),
        opened(open, calls.take(n)) is Err,
    ensures
        opened(open, calls) == opened(open, calls.take(n)),
    decreases calls.len() - n,
{
    if n == calls.len() {
        assert(calls.take(n) == calls);
    } else {
        assert(calls.take(n + 1).drop_last() == calls.take(n));
        opened_keeps_failure(open, calls, n + 1);
    }
}

fn open_calls(open: &mut StringHashSet, calls: &Vec<RawToolCall>) -> (r: Result<
    (),
    AgentContinuationError,
>)
    ensures
        match r {
            Ok(_) => opened(old(open)@, call_views(calls@)) == Ok::<
                Set<Seq<char>>,
                AgentContinuationErrorView,
            >(final(open)@),
            Err(e) => opened(old(open)@, call_views(calls@)) == Err::<
                Set<Seq<char>>,
                AgentContinuationErrorView,
            >(e@),
        },
{
    let ghost start = open@;
    let ghost all = call_views(calls@);
    let mut i: usize = 0;
    while i < calls.len()
        invariant
            i <= calls.len(),
            all == call_views(calls@),
            start == old(open)@,
            opened(start, all.take(i as int)) == Ok::<Set<Seq<char>>, AgentContinuationErrorView>(
                open@,
            ),
        decreases calls.len() - i,
    {
        proof {
            assert(all.take(i + 1).drop_last() == all.take(i as int));
            assert(all.take(i + 1).last() == calls@[i as int]@);
        }
        if !open.insert(calls[i].id.clone()) {
            proof {
                opened_keeps_failure(start, all, i + 1);
            }
            return Err(
                AgentContinuationError::CorruptRecord {
                    message: plus3(
                        "child conversation repeats open tool call '",
                        calls[i].id.as_str(),
                        "'",
                    ),
                },
            );
        }
        i += 1;
    }
    assert(all.take(all.len() as int) == all);
    Ok(())
}

/// Replay disposition at a tool boundary.
#[derive(Debug)]
#[allow(inconsistent_fields)]
pub enum ToolBoundary {
    /// A trustworthy terminal tool result is present and must be retained.
    Completed { tool_call_id: Option<String> },
    /// The tool did not start or explicitly permits safe retry.
    SafeToRetry { tool_call_id: Option<String> },
    /// Replay is allowed only with the same stable idempotency key.
    IdempotentWithKey { tool_call_id: String, idempotency_key: String },
    /// The tool may have started without a trustworthy terminal result.
    Indeterminate { tool_call_id: Option<String>, reason: String },
}

/// What a tool boundary says.
#[allow(inconsistent_fields)]
pub ghost enum ToolBoundaryView {
    Completed { tool_call_id: Option<Seq<char>> },
    SafeToRetry { tool_call_id: Option<Seq<char>> },
    IdempotentWithKey { tool_call_id: Seq<char>, idempotency_key: Seq<char> },
    Indeterminate { tool_call_id: Option<Seq<char>>, reason: Seq<char> },
}

impl View for ToolBoundary {
    type V = ToolBoundaryView;

    open spec fn view(&self) -> ToolBoundaryView {
        match *self {
            ToolBoundary::Completed { tool_call_id } => ToolBoundaryView::Completed {
                tool_call_id: opt_chars(tool_call_id),
            },
            ToolBoundary::SafeToRetry { tool_call_id } => ToolBoundaryView::SafeToRetry {
                tool_call_id: opt_chars(tool_call_id),
            },
            ToolBoundary::IdempotentWithKey { tool_call_id, idempotency_key } =>
                ToolBoundaryView::IdempotentWithKey {
                tool_call_id: tool_call_id@,
                idempotency_key: idempotency_key@,
            },
            ToolBoundary::Indeterminate { tool_call_id, reason } =>
                ToolBoundaryView::Indeterminate {
                tool_call_id: opt_chars(tool_call_id),
                reason: reason@,
            },
        }
    }
}

impl ToolBoundary {
    pub fn duplicate(&self) -> (r: Self)
        ensures
            r == *self,
    {
        match self {
            ToolBoundary::Completed { tool_call_id } => ToolBoundary::Completed {
                tool_call_id: clone_opt_text(tool_call_id),
            },
            ToolBoundary::SafeToRetry { tool_call_id } => ToolBoundary::SafeToRetry {
                tool_call_id: clone_opt_text(tool_call_id),
            },
            ToolBoundary::IdempotentWithKey { tool_call_id, idempotency_key } =>
                ToolBoundary::IdempotentWithKey {
                tool_call_id: tool_call_id.clone(),
                idempotency_key: idempotency_key.clone(),
            },
            ToolBoundary::Indeterminate { tool_call_id, reason } => ToolBoundary::Indeterminate {
                tool_call_id: clone_opt_text(tool_call_id),
                reason: reason.clone(),
            },
        }
    }

    pub fn same(&self, other: &Self) -> (r: bool)
        ensures
            r == (self@ == other@),
    {
        match (self, other) {
            (
                ToolBoundary::Completed { tool_call_id: a },
                ToolBoundary::Completed { tool_call_id: b },
            ) => crate::text::same_opt_text(a, b),
            (
                ToolBoundary::SafeToRetry { tool_call_id: a },
                ToolBoundary::SafeToRetry { tool_call_id: b },
            ) => crate::text::same_opt_text(a, b),
            (
                ToolBoundary::IdempotentWithKey { tool_call_id: a, idempotency_key: k },
                ToolBoundary::IdempotentWithKey { tool_call_id: b, idempotency_key: l },
            ) => *a == *b && *k == *l,
            (
                ToolBoundary::Indeterminate { tool_call_id: a, reason: k },
                ToolBoundary::Indeterminate { tool_call_id: b, reason: l },
            ) => crate::text::same_opt_text(a, b) && *k == *l,
            _ => false,
        }
    }

    pub fn is_indeterminate(&self) -> (r: bool)
        ensures
            r == (self is Indeterminate),
    {
        match self {
            ToolBoundary::Indeterminate { .. } => true,
            _ => false,
        }
    }
}

/// A summary of what was compacted away.
#[derive(Debug)]
pub struct SummaryState {
    pub baseline: Option<String>,
    pub deltas: Vec<String>,
}

/// What a summary says.
pub ghost struct SummaryStateView {
    pub baseline: Option<Seq<char>>,
    pub deltas: Seq<Seq<char>>,
}

impl View for SummaryState {
    type V = SummaryStateView;

    open spec fn view(&self) -> SummaryStateView {
        SummaryStateView { baseline: opt_chars(self.baseline), deltas: texts(self.deltas@) }
    }
}

impl SummaryState {
    pub fn empty() -> (r: Self)
        ensures
            r@.baseline is None,
            r@.deltas.len() == 0,
    {
        SummaryState { baseline: None, deltas: Vec::new() }
    }

    pub fn is_empty(&self) -> (r: bool)
        ensures
            r == (self@.baseline is None && self@.deltas.len() == 0),
    {
        self.baseline.is_none() && self.deltas.len() == 0
    }

    pub fn duplicate(&self) -> (r: Self)
        ensures
            r@ == self@,
    {
        SummaryState {
            baseline: clone_opt_text(&self.baseline),
            deltas: clone_texts(&self.deltas),
        }
    }
}

/// What a context fragment is about.
#[derive(Clone, Copy, Debug, PartialEq, Eq, Structural)]
pub enum InternalContextKind {
    Runtime,
    Goal,
    Plan,
    Skill,
    Memory,
}

/// Who put a context fragment in.
#[derive(Clone, Copy, Debug, PartialEq, Eq, Structural)]
pub enum InternalContextOrigin {
    System,
    GoalRuntime,
    Model,
    User,
}

/// A bounded piece of context that is no message.
#[derive(Debug)]
pub struct InternalContextFragment {
    pub id: String,
    pub kind: InternalContextKind,
    pub origin: InternalContextOrigin,
    pub content: String,
    pub max_tokens: usize,
}

/// What a context fragment says.
pub ghost struct InternalContextFragmentView {
    pub id: Seq<char>,
    pub kind: InternalContextKind,
    pub origin: InternalContextOrigin,
    pub content: Seq<char>,
    pub max_tokens: usize,
}

impl View for InternalContextFragment {
    type V = InternalContextFragmentView;

    open spec fn view(&self) -> InternalContextFragmentView {
        InternalContextFragmentView {
            id: self.id@,
            kind: self.kind,
            origin: self.origin,
            content: self.content@,
            max_tokens: self.max_tokens,
        }
    }
}

/// What a list of fragments says.
pub open spec fn fragment_views(fragments: Seq<InternalContextFragment>) -> Seq<
    InternalContextFragmentView,
> {
    fragments.map_values(|f: InternalContextFragment| f@)
}

/// A conversation of an agent.
#[derive(Debug)]
pub struct Conversation {
    pub messages: Vec<Message>,
    pub rolling_summary: Option<String>,
    pub summary: SummaryState,
    pub internal_context: Vec<InternalContextFragment>,
}

/// What a conversation says.
pub ghost struct ConversationView {
    pub messages: Seq<MessageView>,
    pub rolling_summary: Option<Seq<char>>,
    pub summary: SummaryStateView,
    pub internal_context: Seq<InternalContextFragmentView>,
}

impl View for Conversation {
    type V = ConversationView;

    open spec fn view(&self) -> ConversationView {
        ConversationView {
            messages: message_views(self.messages@),
            rolling_summary: opt_chars(self.rolling_summary),
            summary: self.summary@,
            internal_context: fragment_views(self.internal_context@),
        }
    }
}

/// A conversation with nothing said.
pub open spec fn empty_conversation() -> ConversationView {
    ConversationView {
        messages: Seq::empty(),
        rolling_summary: None,
        summary: SummaryStateView { baseline: None, deltas: Seq::empty() },
        internal_context: Seq::empty(),
    }
}

impl Conversation {
    pub fn new() -> (r: Self)
        ensures
            r@ == empty_conversation(),
    {
        let r = Conversation {
            messages: Vec::new(),
            rolling_summary: None,
            summary: SummaryState::empty(),
            internal_context: Vec::new(),
        };
        assert(r@.messages == empty_conversation().messages);
        assert(r@.internal_context == empty_conversation().internal_context);
        assert(r@.summary.deltas == Seq::<Seq<char>>::empty());
        r
    }

    /// Appends a message.
    pub fn add(&mut self, message: Message)
        ensures
            final(self)@ == (ConversationView {
                messages: old(self)@.messages.push(message@),
                ..old(self)@
            }),
    {
        let ghost before = self.messages@;
        self.messages.push(message);
        assert(message_views(self.messages@) == message_views(before).push(message@));
    }

    pub fn add_system(&mut self, content: String)
        ensures
            final(self)@ == (ConversationView {
                messages: old(self)@.messages.push(
                    MessageView::System { content: content@, pinned: false },
                ),
                ..old(self)@
            }),
    {
        self.add(Message::System { content, pinned: false });
    }

    pub fn add_user(&mut self, content: String)
        ensures
            final(self)@ == (ConversationView {
                messages: old(self)@.messages.push(
                    MessageView::User { content: content@, images: Seq::empty(), pinned: false },
                ),
                ..old(self)@
            }),
    {
        let message = Message::User { content, images: Vec::new(), pinned: false };
        assert(message@->User_images == Seq::<Seq<char>>::empty());
        self.add(message);
    }

    pub fn add_assistant(
        &mut self,
        content: Option<String>,
        reasoning_content: Option<String>,
        tool_calls: Vec<RawToolCall>,
    )
        ensures
            final(self)@ == (ConversationView {
                messages: old(self)@.messages.push(
                    MessageView::Assistant {
                        content: opt_chars(content),
                        reasoning_content: opt_chars(reasoning_content),
                        tool_calls: call_views(tool_calls@),
                        pinned: false,
                    },
                ),
                ..old(self)@
            }),
    {
        self.add(Message::Assistant { content, reasoning_content, tool_calls, pinned: false });
    }

    pub fn add_tool_result(&mut self, tool_call_id: String, content: String, terminal: Option<
        ToolTerminal,
    >)
        ensures
            final(self)@ == (ConversationView {
                messages: old(self)@.messages.push(
                    MessageView::Tool {
                        tool_call_id: tool_call_id@,
                        content: content@,
                        terminal,
                        pinned: false,
                    },
                ),
                ..old(self)@
            }),
    {
        self.add(Message::Tool { tool_call_id, content, terminal, pinned: false });
    }
}

/// The boundary that `try_last_settled_tool_boundary` reports for a call id.
pub open spec fn completed_boundary(last: Option<Seq<char>>) -> Option<ToolBoundaryView> {
    match last {
        Some(id) => Some(ToolBoundaryView::Completed { tool_call_id: Some(id) }),
        None => None,
    }
}

/// What an optional boundary says.
pub open spec fn boundary_view(boundary: Option<ToolBoundary>) -> Option<ToolBoundaryView> {
    match boundary {
        Some(b) => Some(b@),
        None => None,
    }
}

/// Validates a conversation as a checkpoint-safe boundary and returns the
/// latest trustworthy terminal tool identity. Open calls, repaired terminals
/// and indeterminate outcomes fail closed.
pub fn try_last_settled_tool_boundary(conversation: &Conversation) -> (r: Result<
    Option<ToolBoundary>,
    AgentContinuationError,
>)
    ensures
        match r {
            Ok(boundary) => settled_boundary(conversation@.messages) is Ok && boundary_view(
                boundary,
            ) == completed_boundary(settled_boundary(conversation@.messages)->Ok_0),
            Err(e) => settled_boundary(conversation@.messages) == Err::<
                Option<Seq<char>>,
                AgentContinuationErrorView,
            >(e@),
        },
{
    let mut open = StringHashSet::new();
    let mut last: Option<String> = None;
    let messages = &conversation.messages;
    let ghost all = message_views(messages@);
    let mut i: usize = 0;
    assert(all.take(0) == Seq::<MessageView>::empty());
    while i < messages.len()
        invariant
            i <= messages.len(),
            all == message_views(messages@),
            all == conversation@.messages,
            walked(all.take(i as int)) == Ok::<ToolWalk, AgentContinuationErrorView>(
                ToolWalk { open: open@, last: opt_chars(last) },
            ),
        decreases messages.len() - i,
    {
        proof {
            assert(all.take(i + 1).drop_last() == all.take(i as int));
            assert(all.take(i + 1).last() == messages@[i as int]@);
        }
        match &messages[i] {
            Message::Assistant { tool_calls, .. } => {
                match open_calls(&mut open, tool_calls) {
                    Ok(_) => {},
                    Err(e) => {
                        proof {
                            walk_keeps_failure(all, i + 1);
                        }
                        return Err(e);
                    },
                }
                if tool_calls.len() == 0 {
                    last = None;
                }
            },
            Message::Tool { tool_call_id, terminal, .. } => {
                if !open.remove(tool_call_id.as_str()) {
                    proof {
                        walk_keeps_failure(all, i + 1);
                    }
                    return Err(
                        AgentContinuationError::CorruptRecord {
                            message: plus3(
                                "child conversation has a tool result without open call '",
                                tool_call_id.as_str(),
                                "'",
                            ),
                        },
                    );
                }
                let settled = match terminal {
                    Some(t) => t.status != ToolStatus::Indeterminate && t.kind
                        != ToolResultKind::Indeterminate && t.source
                        == ToolTerminalSource::Observed,
                    None => false,
                };
                if !settled {
                    proof {
                        walk_keeps_failure(all, i + 1);
                    }
                    return Err(AgentContinuationError::Indeterminate);
                }
                last = Some(tool_call_id.clone());
            },
            Message::User { .. } => {
                last = None;
            },
            Message::System { .. } => {},
        }
        i += 1;
    }
    assert(all.take(all.len() as int) == all);
    if !open.is_empty() {
        return Err(AgentContinuationError::Indeterminate);
    }
    match last {
        Some(id) => Ok(Some(ToolBoundary::Completed { tool_call_id: Some(id) })),
        None => Ok(None),
    }
}

/// The calls without a terminal result, whether or not it can be trusted.
pub open spec fn unanswered(messages: Seq<MessageView>) -> Set<Seq<char>>
    decreases messages.len(),
{
    if messages.len() == 0 {
        Set::empty()
    } else {
        let before = unanswered(messages.drop_last());
        match messages.last() {
            MessageView::Assistant { tool_calls, .. } => before.union(
                call_ids(tool_calls),
            ),
            MessageView::Tool { tool_call_id, terminal, .. } => if terminal is Some {
                before.remove(tool_call_id)
            } else {
                before
            },
            _ => before,
        }
    }
}

/// The identities of the calls.
pub open spec fn call_ids(calls: Seq<RawToolCallView>) -> Set<Seq<char>> {
    Set::new(|id: Seq<char>| exists|k: int| 0 <= k < calls.len() && (#[trigger] calls[k]).id == id)
}

pub fn conversation_has_open_tool_calls(conversation: &Conversation) -> (r: bool)
    ensures
        r == !(unanswered(conversation@.messages) =~= Set::empty()),
{
    let mut open = StringHashSet::new();
    let messages = &conversation.messages;
    let ghost all = message_views(messages@);
    let mut i: usize = 0;
    assert(all.take(0) == Seq::<MessageView>::empty());
    while i < messages.len()
        invariant
            i <= messages.len(),
            all == message_views(messages@),
            open@ == unanswered(all.take(i as int)),
        decreases messages.len() - i,
    {
        proof {
            assert(all.take(i + 1).drop_last() == all.take(i as int));
            assert(all.take(i + 1).last() == messages@[i as int]@);
        }
        match &messages[i] {
            Message::Assistant { tool_calls, .. } => {
                let ghost start = open@;
                let ghost calls = call_views(tool_calls@);
                let mut k: usize = 0;
                assert(call_ids(calls.take(0)) =~= Set::<Seq<char>>::empty());
                while k < tool_calls.len()
                    invariant
                        k <= tool_calls.len(),
                        calls == call_views(tool_calls@),
                        open@ =~= start.union(call_ids(calls.take(k as int))),
                    decreases tool_calls.len() - k,
                {
                    open.insert(tool_calls[k].id.clone());
                    proof {
                        assert(calls[k as int].id == tool_calls@[k as int].id@);
                        assert forall|id: Seq<char>| #[trigger]
                            call_ids(calls.take(k + 1)).contains(id) == call_ids(
                                calls.take(k as int),
                            ).insert(calls[k as int].id).contains(id) by {
                            if call_ids(calls.take(k as int)).contains(id) {
                                let j = choose|j: int|
                                    0 <= j < k && (#[trigger] calls.take(k as int)[j]).id == id;
                                assert(calls.take(k + 1)[j].id == id);
                            }
                            if call_ids(calls.take(k + 1)).contains(id) {
                                let j = choose|j: int|
                                    0 <= j < k + 1 && (#[trigger] calls.take(k + 1)[j]).id == id;
                                if j < k {
                                    assert(calls.take(k as int)[j].id == id);
                                }
                            }
                            if id == calls[k as int].id {
                                assert(calls.take(k + 1)[k as int].id == id);
                            }
                        }
                    }
                    k += 1;
                }
                assert(calls.take(calls.len() as int) == calls);
            },
            Message::Tool { tool_call_id, terminal, .. } => {
                if terminal.is_some() {
                    open.remove(tool_call_id.as_str());
                }
            },
            Message::System { .. } => {},
            Message::User { .. } => {},
        }
        i += 1;
    }
    assert(all.take(all.len() as int) == all);
    !open.is_empty()
}

/// A conversation that may be checkpointed has no unanswered call.
pub proof fn settled_conversations_are_answered(messages: Seq<MessageView>)
    requires
        settled_boundary(messages) is Ok,
    ensures
        unanswered(messages) =~= Set::<Seq<char>>::empty(),
{
    walk_tracks_unanswered(messages);
}

proof fn walk_tracks_unanswered(messages: Seq<MessageView>)
    requires
        walked(messages) is Ok,
    ensures
        walked(messages)->Ok_0.open =~= unanswered(messages),
    decreases messages.len(),
{
    if messages.len() > 0 {
        walk_tracks_unanswered(messages.drop_last());
        if let MessageView::Assistant { tool_calls, .. } = messages.last() {
            opened_adds_calls(unanswered(messages.drop_last()), tool_calls);
        }
    }
}

proof fn opened_adds_calls(open: Set<Seq<char>>, calls: Seq<RawToolCallView>)
    requires
        opened(open, calls) is Ok,
    ensures
        opened(open, calls)->Ok_0 =~= open.union(call_ids(calls)),
    decreases calls.len(),
{
    if calls.len() > 0 {
        let front = calls.drop_last();
        opened_adds_calls(open, front);
        assert forall|id: Seq<char>| #[trigger]
            call_ids(calls).contains(id) == call_ids(front).insert(calls.last().id).contains(id) by {
            if call_ids(front).contains(id) {
                let j = choose|j: int| 0 <= j < front.len() && (#[trigger] front[j]).id == id;
                assert(calls[j].id == id);
            }
            if call_ids(calls).contains(id) {
                let j = choose|j: int| 0 <= j < calls.len() && (#[trigger] calls[j]).id == id;
                if j < front.len() {
                    assert(front[j].id == id);
                }
            }
            if id == calls.last().id {
                assert(calls[calls.len() - 1].id == id);
            }
        }
    }
}

/// A call waits for its answer from the message that makes it to the one that ends
/// it; no other message opens or closes any.
pub proof fn calls_wait_for_their_answer(messages: Seq<MessageView>, message: MessageView)
    ensures
        ({
            let before = unanswered(messages);
            let after = unanswered(messages.push(message));
            &&& unanswered(Seq::<MessageView>::empty()) == Set::<Seq<char>>::empty()
            &&& message matches MessageView::Assistant { tool_calls, .. } ==> forall|id: Seq<char>|
                #[trigger]
                after.contains(id) <==> before.contains(id) || exists|k: int|
                    0 <= k < tool_calls.len() && (#[trigger] tool_calls[k]).id == id
            &&& message matches MessageView::Tool { tool_call_id, terminal: Some(_), .. }
                ==> forall|id: Seq<char>| #[trigger]
                after.contains(id) <==> before.contains(id) && id != tool_call_id
            &&& message is User || message is System || (message matches MessageView::Tool {
                terminal: None,
                ..
            }) ==> after == before
        }),
{
    assert(messages.push(message).drop_last() =~= messages);
}

/// What may be checkpointed rests on answers that can be trusted: each result was
/// observed, and none is of unknown effect.
pub proof fn settled_answers_can_be_trusted(messages: Seq<MessageView>, i: int)
    requires
        walked(messages) is Ok,
        0 <= i < messages.len(),
        messages[i] is Tool,
    ensures
        messages[i] matches MessageView::Tool { terminal: Some(terminal), .. } && terminal.status
            != ToolStatus::Indeterminate && terminal.kind != ToolResultKind::Indeterminate
            && terminal.source == ToolTerminalSource::Observed,
    decreases messages.len(),
{
    if i < messages.len() - 1 {
        assert(messages.drop_last()[i] == messages[i]);
        settled_answers_can_be_trusted(messages.drop_last(), i);
    }
}

/// The boundary of a settled conversation is its last answered call, until the
/// user or a plain answer of the assistant moves on; it is not settled with a call
/// left open.
pub proof fn boundaries_name_the_last_answer(messages: Seq<MessageView>, message: MessageView)
    requires
        walked(messages) is Ok,
    ensures
        ({
            let walk = walked(messages)->Ok_0;
            let next = walked(messages.push(message));
            &&& message matches MessageView::Tool { tool_call_id, terminal: Some(terminal), .. }
                ==> (walk.open.contains(tool_call_id) && terminal.trustworthy() ==> (
            next matches Ok(on) && on.last == Some(tool_call_id) && !on.open.contains(
                tool_call_id,
            )))
            &&& message matches MessageView::Tool { tool_call_id, .. } ==> (!walk.open.contains(
                tool_call_id,
            ) ==> next is Err)
            &&& message is User ==> (next matches Ok(on) && on.last is None && on.open
                == walk.open)
            &&& message is System ==> (next matches Ok(on) && on == walk)
            &&& message matches MessageView::Assistant { tool_calls, .. } ==> (tool_calls.len() == 0
                ==> (next matches Ok(on) && on.last is None && on.open == walk.open))
            &&& settled_boundary(messages) is Ok <==> walk.open =~= Set::<Seq<char>>::empty()
            &&& settled_boundary(messages) matches Ok(last) ==> last == walk.last
        }),
{
    assert(messages.push(message).drop_last() =~= messages);
}

/// How a settled history goes on: a system prompt leaves it as it is; a user's
/// message or an answer without calls begins anew; a call leaves it open until the
/// call's own answer settles it, if that can be trusted. An answer that nobody asked
/// for is refused.
pub proof fn settled_histories_go_on(
    messages: Seq<MessageView>,
    next: MessageView,
    asks: MessageView,
    answer: MessageView,
)
    requires
        settled_boundary(messages) is Ok,
        asks is Assistant,
        asks->Assistant_tool_calls.len() == 1,
        answer is Tool,
    ensures
        next is System ==> settled_boundary(messages.push(next)) == settled_boundary(messages),
        next is User ==> settled_boundary(messages.push(next)) == Ok::<
            Option<Seq<char>>,
            AgentContinuationErrorView,
        >(None),
        next is Assistant && next->Assistant_tool_calls.len() == 0 ==> settled_boundary(
            messages.push(next),
        ) == Ok::<Option<Seq<char>>, AgentContinuationErrorView>(None),
        next is Tool ==> settled_boundary(messages.push(next)) is Err,
        settled_boundary(messages.push(asks)) == Err::<
            Option<Seq<char>>,
            AgentContinuationErrorView,
        >(AgentContinuationErrorView::Indeterminate),
        ({
            let r = settled_boundary(messages.push(asks).push(answer));
            let id = asks->Assistant_tool_calls[0].id;
            &&& answer->Tool_tool_call_id != id ==> r is Err
            &&& answer->Tool_tool_call_id == id && answer->Tool_terminal is None ==> r is Err
            &&& answer->Tool_tool_call_id == id ==> (answer->Tool_terminal matches Some(terminal)
                ==> r == (if terminal.trustworthy() {
                Ok::<Option<Seq<char>>, AgentContinuationErrorView>(Some(id))
            } else {
                Err(AgentContinuationErrorView::Indeterminate)
            }))
        }),
{
    let calls = asks->Assistant_tool_calls;
    let id = calls[0].id;
    let walk = walked(messages)->Ok_0;
    assert(walk.open =~= Set::empty());
    assert(messages.push(next).drop_last() =~= messages);
    assert(messages.push(asks).drop_last() =~= messages);
    assert(messages.push(asks).push(answer).drop_last() =~= messages.push(asks));
    assert(calls.drop_last().len() == 0);
    assert(opened(walk.open, calls.drop_last()) == Ok::<
        Set<Seq<char>>,
        AgentContinuationErrorView,
    >(walk.open));
    assert(calls.last() == calls[0]);
    let open = walk.open.insert(id);
    assert(open.contains(id));
    assert(open.remove(id) =~= Set::empty());
    assert(!(open =~= Set::<Seq<char>>::empty()));
}

} // verus!
