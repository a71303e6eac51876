//! Durable snapshots of child conversations.

use vstd::prelude::*;
use vstd::hash_set::StringHashSet;
use crate::agent_continuation::error::{
    corrupt, corrupt_record, AgentContinuationError, AgentContinuationErrorView,
};
use crate::conversation::{
    boundary_view, call_ids, call_views, clone_calls, completed_boundary, fragment_views,
    message_views, settled_boundary, try_last_settled_tool_boundary, Conversation,
    ConversationView, InternalContextFragment, InternalContextFragmentView, InternalContextKind,
    InternalContextOrigin, Message, MessageView, RawToolCall, SummaryState, SummaryStateView,
    ToolBoundary,
};
use crate::runtime_types::ToolTerminal;
use crate::text::{clone_opt_text, clone_texts, opt_chars, same_opt_text, texts};

verus! {

/// Schema version of child conversation snapshots.
pub const CHILD_CONVERSATION_SNAPSHOT_SCHEMA_VERSION: u32 = 1;

/// A persisted child message. System prompts are never persisted.
#[derive(Debug)]
#[allow(inconsistent_fields)]
pub enum StoredChildMessage {
    User { content: String, images: Vec<String>, pinned: bool },
    Assistant {
        content: Option<String>,
        reasoning_content: Option<String>,
        tool_calls: Vec<RawToolCall>,
        pinned: bool,
    },
    Tool { tool_call_id: String, content: String, terminal: Option<ToolTerminal>, pinned: bool },
}

impl View for StoredChildMessage {
    type V = MessageView;

    open spec fn view(&self) -> MessageView {
        match *self {
            StoredChildMessage::User { content, images, pinned } => MessageView::User {
                content: content@,
                images: texts(images@),
                pinned,
            },
            StoredChildMessage::Assistant { content, reasoning_content, tool_calls, pinned } =>
                MessageView::Assistant {
                content: opt_chars(content),
                reasoning_content: opt_chars(reasoning_content),
                tool_calls: call_views(tool_calls@),
                pinned,
            },
            StoredChildMessage::Tool { tool_call_id, content, terminal, pinned } =>
                MessageView::Tool {
                tool_call_id: tool_call_id@,
                content: content@,
                terminal,
                pinned,
            },
        }
    }
}

/// What a list of stored messages says.
pub open spec fn stored_views(messages: Seq<StoredChildMessage>) -> Seq<MessageView> {
    messages.map_values(|m: StoredChildMessage| m@)
}

impl StoredChildMessage {
    /// The stored form of a message that is no system prompt.
    pub fn from_message(message: &Message) -> (r: Self)
        requires
            !(message is System),
        ensures
            r@ == message@,
    {
        match message {
            Message::User { content, images, pinned } => StoredChildMessage::User {
                content: content.clone(),
                images: clone_texts(images),
                pinned: *pinned,
            },
            Message::Assistant { content, reasoning_content, tool_calls, pinned } =>
                StoredChildMessage::Assistant {
                content: clone_opt_text(content),
                reasoning_content: clone_opt_text(reasoning_content),
                tool_calls: clone_calls(tool_calls),
                pinned: *pinned,
            },
            Message::Tool { tool_call_id, content, terminal, pinned } => StoredChildMessage::Tool {
                tool_call_id: tool_call_id.clone(),
                content: content.clone(),
                terminal: *terminal,
                pinned: *pinned,
            },
            Message::System { .. } => vstd::pervasive::unreached(),
        }
    }

    pub fn to_message(&self) -> (r: Message)
        ensures
            r@ == self@,
            !(r is System),
    {
        match self {
            StoredChildMessage::User { content, images, pinned } => Message::User {
                content: content.clone(),
                images: clone_texts(images),
                pinned: *pinned,
            },
            StoredChildMessage::Assistant { content, reasoning_content, tool_calls, pinned } =>
                Message::Assistant {
                content: clone_opt_text(content),
                reasoning_content: clone_opt_text(reasoning_content),
                tool_calls: clone_calls(tool_calls),
                pinned: *pinned,
            },
            StoredChildMessage::Tool { tool_call_id, content, terminal, pinned } => Message::Tool {
                tool_call_id: tool_call_id.clone(),
                content: content.clone(),
                terminal: *terminal,
                pinned: *pinned,
            },
        }
    }
}

/// The summary of a child conversation, as stored.
#[derive(Debug)]
pub struct StoredChildSummaryState {
    pub baseline: Option<String>,
    pub deltas: Vec<String>,
}

impl View for StoredChildSummaryState {
    type V = SummaryStateView;

    open spec fn view(&self) -> SummaryStateView {
        SummaryStateView { baseline: opt_chars(self.baseline), deltas: texts(self.deltas@) }
    }
}

impl StoredChildSummaryState {
    pub fn from_summary(summary: &SummaryState) -> (r: Self)
        ensures
            r@ == summary@,
    {
        StoredChildSummaryState {
            baseline: clone_opt_text(&summary.baseline),
            deltas: clone_texts(&summary.deltas),
        }
    }

    pub fn to_summary(&self) -> (r: SummaryState)
        ensures
            r@ == self@,
    {
        SummaryState {
            baseline: clone_opt_text(&self.baseline),
            deltas: clone_texts(&self.deltas),
        }
    }
}

/// The context fragments that a child continuation may persist.
#[derive(Clone, Copy, Debug, PartialEq, Eq, Structural)]
pub enum FragmentSlot {
    Runtime,
    Mode,
    Goal,
    Plan,
    Skill,
    Memory,
}

/// A persisted context fragment.
#[derive(Debug)]
pub enum StoredChildInternalContextFragment {
    Runtime { content: String },
    Mode { content: String },
    Goal { content: String },
    Plan { content: String },
    Skill { content: String },
    Memory { content: String },
}

/// What a persisted context fragment says.
pub ghost struct StoredFragmentView {
    pub slot: FragmentSlot,
    pub content: Seq<char>,
}

impl View for StoredChildInternalContextFragment {
    type V = StoredFragmentView;

    open spec fn view(&self) -> StoredFragmentView {
        match *self {
            StoredChildInternalContextFragment::Runtime { content } => StoredFragmentView {
                slot: FragmentSlot::Runtime,
                content: content@,
            },
            StoredChildInternalContextFragment::Mode { content } => StoredFragmentView {
                slot: FragmentSlot::Mode,
                content: content@,
            },
            StoredChildInternalContextFragment::Goal { content } => StoredFragmentView {
                slot: FragmentSlot::Goal,
                content: content@,
            },
            StoredChildInternalContextFragment::Plan { content } => StoredFragmentView {
                slot: FragmentSlot::Plan,
                content: content@,
            },
            StoredChildInternalContextFragment::Skill { content } => StoredFragmentView {
                slot: FragmentSlot::Skill,
                content: content@,
            },
            StoredChildInternalContextFragment::Memory { content } => StoredFragmentView {
                slot: FragmentSlot::Memory,
                content: content@,
            },
        }
    }
}

/// What a list of persisted fragments says.
pub open spec fn stored_fragment_views(list: Seq<StoredChildInternalContextFragment>) -> Seq<
    StoredFragmentView,
> {
    list.map_values(|f: StoredChildInternalContextFragment| f@)
}

/// The identity and size limit of one kind of fragment.
#[derive(Debug)]
pub struct FragmentEntry {
    pub id: String,
    pub max_tokens: usize,
}

/// The identities and size limits of the fragments that may be persisted.
#[derive(Debug)]
pub struct FragmentCatalog {
    pub runtime: FragmentEntry,
    pub mode: FragmentEntry,
    pub goal: FragmentEntry,
    pub plan: FragmentEntry,
    pub skill: FragmentEntry,
    pub memory: FragmentEntry,
}

impl FragmentCatalog {
    pub open spec fn entry(self, slot: FragmentSlot) -> FragmentEntry {
        match slot {
            FragmentSlot::Runtime => self.runtime,
            FragmentSlot::Mode => self.mode,
            FragmentSlot::Goal => self.goal,
            FragmentSlot::Plan => self.plan,
            FragmentSlot::Skill => self.skill,
            FragmentSlot::Memory => self.memory,
        }
    }

    /// No two kinds of fragment have the same identity.
    pub open spec fn distinct(self) -> bool {
        forall|a: FragmentSlot, b: FragmentSlot|
            a != b ==> (#[trigger] self.entry(a)).id@ != (#[trigger] self.entry(b)).id@
    }

    /// The kind of fragment that an identity belongs to.
    pub open spec fn slot_of(self, id: Seq<char>) -> Option<FragmentSlot> {
        if id == self.runtime.id@ {
            Some(FragmentSlot::Runtime)
        } else if id == self.mode.id@ {
            Some(FragmentSlot::Mode)
        } else if id == self.goal.id@ {
            Some(FragmentSlot::Goal)
        } else if id == self.plan.id@ {
            Some(FragmentSlot::Plan)
        } else if id == self.skill.id@ {
            Some(FragmentSlot::Skill)
        } else if id == self.memory.id@ {
            Some(FragmentSlot::Memory)
        } else {
            None
        }
    }
}

pub open spec fn slot_kind(slot: FragmentSlot) -> InternalContextKind {
    match slot {
        FragmentSlot::Runtime => InternalContextKind::Runtime,
        FragmentSlot::Mode => InternalContextKind::Runtime,
        FragmentSlot::Goal => InternalContextKind::Goal,
        FragmentSlot::Plan => InternalContextKind::Plan,
        FragmentSlot::Skill => InternalContextKind::Skill,
        FragmentSlot::Memory => InternalContextKind::Memory,
    }
}

pub open spec fn slot_origin(slot: FragmentSlot) -> InternalContextOrigin {
    match slot {
        FragmentSlot::Runtime => InternalContextOrigin::System,
        FragmentSlot::Mode => InternalContextOrigin::System,
        FragmentSlot::Goal => InternalContextOrigin::GoalRuntime,
        FragmentSlot::Plan => InternalContextOrigin::Model,
        FragmentSlot::Skill => InternalContextOrigin::User,
        FragmentSlot::Memory => InternalContextOrigin::System,
    }
}

/// The fragment that a persisted fragment restores.
pub open spec fn restored_fragment(
    stored: StoredFragmentView,
    catalog: FragmentCatalog,
) -> InternalContextFragmentView {
    InternalContextFragmentView {
        id: catalog.entry(stored.slot).id@,
        kind: slot_kind(stored.slot),
        origin: slot_origin(stored.slot),
        content: stored.content,
        max_tokens: catalog.entry(stored.slot).max_tokens,
    }
}

/// The persisted form of a fragment, where it has one.
pub open spec fn persisted_fragment(
    fragment: InternalContextFragmentView,
    catalog: FragmentCatalog,
) -> Option<StoredFragmentView> {
    match catalog.slot_of(fragment.id) {
        Some(slot) => Some(StoredFragmentView { slot, content: fragment.content }),
        None => None,
    }
}

impl StoredChildInternalContextFragment {
    pub fn from_fragment(fragment: &InternalContextFragment, catalog: &FragmentCatalog) -> (r:
        Option<Self>)
        ensures
            match r {
                Some(stored) => persisted_fragment(fragment@, *catalog) == Some(stored@),
                None => persisted_fragment(fragment@, *catalog) is None,
            },
    {
        let content = fragment.content.clone();
        if fragment.id == catalog.runtime.id {
            Some(StoredChildInternalContextFragment::Runtime { content })
        } else if fragment.id == catalog.mode.id {
            Some(StoredChildInternalContextFragment::Mode { content })
        } else if fragment.id == catalog.goal.id {
            Some(StoredChildInternalContextFragment::Goal { content })
        } else if fragment.id == catalog.plan.id {
            Some(StoredChildInternalContextFragment::Plan { content })
        } else if fragment.id == catalog.skill.id {
            Some(StoredChildInternalContextFragment::Skill { content })
        } else if fragment.id == catalog.memory.id {
            Some(StoredChildInternalContextFragment::Memory { content })
        } else {
            None
        }
    }

    pub fn to_fragment(&self, catalog: &FragmentCatalog) -> (r: InternalContextFragment)
        ensures
            r@ == restored_fragment(self@, *catalog),
    {
        match self {
            StoredChildInternalContextFragment::Runtime { content } => InternalContextFragment {
                id: catalog.runtime.id.clone(),
                kind: InternalContextKind::Runtime,
                origin: InternalContextOrigin::System,
                content: content.clone(),
                max_tokens: catalog.runtime.max_tokens,
            },
            StoredChildInternalContextFragment::Mode { content } => InternalContextFragment {
                id: catalog.mode.id.clone(),
                kind: InternalContextKind::Runtime,
                origin: InternalContextOrigin::System,
                content: content.clone(),
                max_tokens: catalog.mode.max_tokens,
            },
            StoredChildInternalContextFragment::Goal { content } => InternalContextFragment {
                id: catalog.goal.id.clone(),
                kind: InternalContextKind::Goal,
                origin: InternalContextOrigin::GoalRuntime,
                content: content.clone(),
                max_tokens: catalog.goal.max_tokens,
            },
            StoredChildInternalContextFragment::Plan { content } => InternalContextFragment {
                id: catalog.plan.id.clone(),
                kind: InternalContextKind::Plan,
                origin: InternalContextOrigin::Model,
                content: content.clone(),
                max_tokens: catalog.plan.max_tokens,
            },
            StoredChildInternalContextFragment::Skill { content } => InternalContextFragment {
                id: catalog.skill.id.clone(),
                kind: InternalContextKind::Skill,
                origin: InternalContextOrigin::User,
                content: content.clone(),
                max_tokens: catalog.skill.max_tokens,
            },
            StoredChildInternalContextFragment::Memory { content } => InternalContextFragment {
                id: catalog.memory.id.clone(),
                kind: InternalContextKind::Memory,
                origin: InternalContextOrigin::System,
                content: content.clone(),
                max_tokens: catalog.memory.max_tokens,
            },
        }
    }
}

/// A fragment that was persisted and restored is persisted as the same again.
pub proof fn fragments_round_trip(stored: StoredFragmentView, catalog: FragmentCatalog)
    requires
        catalog.distinct(),
    ensures
        persisted_fragment(restored_fragment(stored, catalog), catalog) == Some(stored),
{
    let slot = stored.slot;
    assert(catalog.entry(FragmentSlot::Runtime) == catalog.runtime);
    assert(catalog.entry(FragmentSlot::Mode) == catalog.mode);
    assert(catalog.entry(FragmentSlot::Goal) == catalog.goal);
    assert(catalog.entry(FragmentSlot::Plan) == catalog.plan);
    assert(catalog.entry(FragmentSlot::Skill) == catalog.skill);
    assert(catalog.entry(FragmentSlot::Memory) == catalog.memory);
    assert(catalog.slot_of(catalog.entry(slot).id@) == Some(slot));
}

/// The messages that are no system prompts, in order.
pub open spec fn non_system(messages: Seq<MessageView>) -> Seq<MessageView>
    decreases messages.len(),
{
    if messages.len() == 0 {
        Seq::empty()
    } else {
        let front = non_system(messages.drop_last());
        if messages.last() is System {
            front
        } else {
            front.push(messages.last())
        }
    }
}

/// No message is a system prompt.
pub open spec fn without_system(messages: Seq<MessageView>) -> bool {
    forall|i: int| 0 <= i < messages.len() ==> !(#[trigger] messages[i] is System)
}

/// The history of a conversation that a snapshot starts from.
pub fn non_system_history(conversation: &Conversation) -> (r: Vec<Message>)
    ensures
        message_views(r@) == non_system(conversation@.messages),
        without_system(message_views(r@)),
{
    let messages = &conversation.messages;
    let ghost all = message_views(messages@);
    let mut r: Vec<Message> = Vec::new();
    let mut i: usize = 0;
    assert(all.take(0) == Seq::<MessageView>::empty());
    assert(message_views(r@) == Seq::<MessageView>::empty());
    while i < messages.len()
        invariant
            i <= messages.len(),
            all == message_views(messages@),
            message_views(r@) == non_system(all.take(i as int)),
            without_system(message_views(r@)),
        decreases messages.len() - i,
    {
        proof {
            assert(all.take(i + 1).drop_last() == all.take(i as int));
            assert(all.take(i + 1).last() == messages@[i as int]@);
        }
        let is_system = match &messages[i] {
            Message::System { .. } => true,
            _ => false,
        };
        if !is_system {
            let ghost before = r@;
            let copy = messages[i].duplicate();
            assert(!(copy@ is System));
            r.push(copy);
            assert(message_views(r@) == message_views(before).push(messages@[i as int]@));
        }
        i += 1;
    }
    assert(all.take(all.len() as int) == all);
    r
}

/// Some assistant message asked for the call.
pub open spec fn asked(messages: Seq<MessageView>, id: Seq<char>) -> bool {
    exists|i: int|
        0 <= i < messages.len() && (#[trigger] messages[i] is Assistant) && call_ids(
            messages[i]->Assistant_tool_calls,
        ).contains(id)
}

/// A tool result without a terminal gets `repair` where its call was asked for.
pub open spec fn repaired_message(
    message: MessageView,
    messages: Seq<MessageView>,
    repair: ToolTerminal,
) -> MessageView {
    match message {
        MessageView::Tool { tool_call_id, content, terminal, pinned } => MessageView::Tool {
            tool_call_id,
            content,
            terminal: if terminal is None && asked(messages, tool_call_id) {
                Some(repair)
            } else {
                terminal
            },
            pinned,
        },
        _ => message,
    }
}

/// All messages, repaired.
pub open spec fn repaired(messages: Seq<MessageView>, repair: ToolTerminal) -> Seq<MessageView> {
    Seq::new(messages.len(), |i: int| repaired_message(messages[i], messages, repair))
}

fn asked_calls(messages: &Vec<Message>) -> (r: StringHashSet)
    ensures
        forall|id: Seq<char>| #[trigger]
            r@.contains(id) <==> asked(message_views(messages@), id),
{
    let mut ids = StringHashSet::new();
    let ghost all = message_views(messages@);
    let mut i: usize = 0;
    while i < messages.len()
        invariant
            i <= messages.len(),
            all == message_views(messages@),
            forall|id: Seq<char>| #[trigger] ids@.contains(id) <==> asked(all.take(i as int), id),
        decreases messages.len() - i,
    {
        let ghost before = ids@;
        assert(all[i as int] == messages@[i as int]@);
        match &messages[i] {
            Message::Assistant { tool_calls, .. } => {
                let ghost calls = call_views(tool_calls@);
                let mut k: usize = 0;
                while k < tool_calls.len()
                    invariant
                        k <= tool_calls.len(),
                        calls == call_views(tool_calls@),
                        forall|id: Seq<char>| #[trigger]
                            ids@.contains(id) <==> before.contains(id) || exists|j: int|
                                0 <= j < k && (#[trigger] calls[j]).id == id,
                    decreases tool_calls.len() - k,
                {
                    let ghost prior = ids@;
                    ids.insert(tool_calls[k].id.clone());
                    proof {
                        assert(calls[k as int].id == tool_calls@[k as int].id@);
                        assert forall|id: Seq<char>| #[trigger]
                            ids@.contains(id) <==> before.contains(id) || exists|j: int|
                                0 <= j < k + 1 && (#[trigger] calls[j]).id == id by {
                            if prior.contains(id) && !before.contains(id) {
                                let j = choose|j: int| 0 <= j < k && (#[trigger] calls[j]).id == id;
                                assert(0 <= j < k + 1 && calls[j].id == id);
                            }
                        }
                    }
                    k += 1;
                }
                proof {
                    assert forall|id: Seq<char>| #[trigger]
                        ids@.contains(id) <==> asked(all.take(i + 1), id) by {
                        lemma_asked_grows(all, i as int, id);
                        assert(call_ids(calls).contains(id) <==> exists|j: int|
                            0 <= j < calls.len() && (#[trigger] calls[j]).id == id);
                        assert(all[i as int]->Assistant_tool_calls == calls);
                    }
                }
            },
            _ => {
                proof {
                    assert forall|id: Seq<char>| #[trigger]
                        ids@.contains(id) <==> asked(all.take(i + 1), id) by {
                        lemma_asked_grows(all, i as int, id);
                    }
                }
            },
        }
        i += 1;
    }
    assert(all.take(all.len() as int) == all);
    ids
}

proof fn lemma_asked_grows(messages: Seq<MessageView>, i: int, id: Seq<char>)
    requires
        0 <= i < messages.len(),
    ensures
        asked(messages.take(i + 1), id) <==> asked(messages.take(i), id) || (messages[i] is Assistant
            && call_ids(messages[i]->Assistant_tool_calls).contains(id)),
{
    let short = messages.take(i);
    let long = messages.take(i + 1);
    if asked(short, id) {
        let j = choose|j: int|
            0 <= j < short.len() && (#[trigger] short[j] is Assistant) && call_ids(
                short[j]->Assistant_tool_calls,
            ).contains(id);
        assert(long[j] is Assistant);
    }
    if asked(long, id) {
        let j = choose|j: int|
            0 <= j < long.len() && (#[trigger] long[j] is Assistant) && call_ids(
                long[j]->Assistant_tool_calls,
            ).contains(id);
        if j < i {
            assert(short[j] is Assistant);
        }
    }
    assert(long[i] == messages[i]);
}

/// Gives every tool result whose call was asked for a terminal: its own, or
/// else `repair`.
pub fn repair_missing_tool_terminals(messages: &Vec<Message>, repair: ToolTerminal) -> (r: Vec<
    Message,
>)
    ensures
        message_views(r@) == repaired(message_views(messages@), repair),
{
    let ids = asked_calls(messages);
    let ghost all = message_views(messages@);
    let mut r: Vec<Message> = Vec::new();
    let mut i: usize = 0;
    while i < messages.len()
        invariant
            i <= messages.len(),
            all == message_views(messages@),
            forall|id: Seq<char>| #[trigger] ids@.contains(id) <==> asked(all, id),
            message_views(r@) =~= repaired(all, repair).take(i as int),
        decreases messages.len() - i,
    {
        let copy = match &messages[i] {
            Message::Tool { tool_call_id, content, terminal, pinned } => {
                let mut outcome = *terminal;
                if outcome.is_none() && ids.contains(tool_call_id.as_str()) {
                    outcome = Some(repair);
                }
                Message::Tool {
                    tool_call_id: tool_call_id.clone(),
                    content: content.clone(),
                    terminal: outcome,
                    pinned: *pinned,
                }
            },
            other => other.duplicate(),
        };
        let ghost before = r@;
        assert(all[i as int] == messages@[i as int]@);
        assert(copy@ == repaired(all, repair)[i as int]);
        r.push(copy);
        assert(message_views(r@) =~= message_views(before).push(copy@));
        i += 1;
    }
    assert(repaired(all, repair).take(all.len() as int) == repaired(all, repair));
    r
}

/// A snapshot of one child conversation.
#[derive(Debug)]
pub struct ChildConversationSnapshot {
    pub schema_version: u32,
    /// Normalized conversation history without system prompts.
    pub messages: Vec<StoredChildMessage>,
    /// Latest rolling summary used by context compaction.
    pub rolling_summary: Option<String>,
    /// Baseline and delta summary state.
    pub summary: StoredChildSummaryState,
    /// Bounded child-loop context fragments.
    pub internal_context: Vec<StoredChildInternalContextFragment>,
    /// Turn cursor to use for the next child-loop iteration.
    pub next_turn: u32,
}

/// What a snapshot says.
pub ghost struct SnapshotView {
    pub schema_version: u32,
    pub messages: Seq<MessageView>,
    pub rolling_summary: Option<Seq<char>>,
    pub summary: SummaryStateView,
    pub internal_context: Seq<StoredFragmentView>,
    pub next_turn: u32,
}

impl View for ChildConversationSnapshot {
    type V = SnapshotView;

    open spec fn view(&self) -> SnapshotView {
        SnapshotView {
            schema_version: self.schema_version,
            messages: stored_views(self.messages@),
            rolling_summary: opt_chars(self.rolling_summary),
            summary: self.summary@,
            internal_context: stored_fragment_views(self.internal_context@),
            next_turn: self.next_turn,
        }
    }
}

/// The fragments that may be persisted, in order.
pub open spec fn persisted_fragments(
    fragments: Seq<InternalContextFragmentView>,
    catalog: FragmentCatalog,
) -> Seq<StoredFragmentView>
    decreases fragments.len(),
{
    if fragments.len() == 0 {
        Seq::empty()
    } else {
        let front = persisted_fragments(fragments.drop_last(), catalog);
        match persisted_fragment(fragments.last(), catalog) {
            Some(stored) => front.push(stored),
            None => front,
        }
    }
}

/// The snapshot of a conversation whose history was normalized to `normalized`.
pub open spec fn captured(
    conversation: ConversationView,
    normalized: Seq<MessageView>,
    repair: ToolTerminal,
    catalog: FragmentCatalog,
    next_turn: u32,
) -> SnapshotView {
    SnapshotView {
        schema_version: CHILD_CONVERSATION_SNAPSHOT_SCHEMA_VERSION,
        messages: repaired(normalized, repair),
        rolling_summary: conversation.rolling_summary,
        summary: conversation.summary,
        internal_context: persisted_fragments(conversation.internal_context, catalog),
        next_turn,
    }
}

/// Where the fragment with an identity stands first.
pub open spec fn fragment_at(
    fragments: Seq<InternalContextFragmentView>,
    id: Seq<char>,
    i: int,
) -> bool {
    0 <= i < fragments.len() && fragments[i].id == id && forall|j: int|
        0 <= j < i ==> (#[trigger] fragments[j]).id != id
}

/// The fragments after `fragment` took the place of the one with its identity,
/// or was added where there was none.
pub open spec fn replaced(
    fragments: Seq<InternalContextFragmentView>,
    fragment: InternalContextFragmentView,
) -> Seq<InternalContextFragmentView> {
    if exists|i: int| fragment_at(fragments, fragment.id, i) {
        fragments.update(choose|i: int| fragment_at(fragments, fragment.id, i), fragment)
    } else {
        fragments.push(fragment)
    }
}

/// The fragments after all of `stored` were restored.
pub open spec fn restored_fragments(
    fragments: Seq<InternalContextFragmentView>,
    stored: Seq<StoredFragmentView>,
    catalog: FragmentCatalog,
) -> Seq<InternalContextFragmentView>
    decreases stored.len(),
{
    if stored.len() == 0 {
        fragments
    } else {
        replaced(
            restored_fragments(fragments, stored.drop_last(), catalog),
            restored_fragment(stored.last(), catalog),
        )
    }
}

fn replace_fragment(
    fragments: &mut Vec<InternalContextFragment>,
    fragment: InternalContextFragment,
)
    ensures
        fragment_views(final(fragments)@) == replaced(
            fragment_views(old(fragments)@),
            fragment@,
        ),
{
    let ghost before = fragment_views(fragments@);
    let mut i: usize = 0;
    while i < fragments.len()
        invariant
            i <= fragments.len(),
            fragments@ == old(fragments)@,
            before == fragment_views(fragments@),
            forall|j: int| 0 <= j < i ==> (#[trigger] before[j]).id != fragment@.id,
        decreases fragments.len() - i,
    {
        assert(before[i as int] == fragments@[i as int]@);
        if fragments[i].id == fragment.id {
            proof {
                assert(fragment_at(before, fragment@.id, i as int));
                let k = choose|k: int| fragment_at(before, fragment@.id, k);
                assert(fragment_at(before, fragment@.id, k));
                if k < i {
                    assert(before[k].id != fragment@.id);
                }
                if i < k {
                    assert(before[i as int].id != fragment@.id);
                }
            }
            fragments.set(i, fragment);
            assert(fragment_views(fragments@) =~= before.update(i as int, fragment@));
            return;
        }
        i += 1;
    }
    proof {
        assert forall|k: int| !fragment_at(before, fragment@.id, k) by {
            if 0 <= k < before.len() {
                assert(before[k].id != fragment@.id);
            }
        }
    }
    fragments.push(fragment);
    assert(fragment_views(fragments@) =~= before.push(fragment@));
}

/// A conversation that holds fresh system prompts and nothing else.
pub open spec fn only_system_prompts(conversation: ConversationView) -> bool {
    &&& forall|i: int|
        0 <= i < conversation.messages.len() ==> (#[trigger] conversation.messages[i] is System)
    &&& conversation.internal_context.len() == 0
    &&& conversation.rolling_summary is None
    &&& conversation.summary.baseline is None
    &&& conversation.summary.deltas.len() == 0
}

/// Why a snapshot cannot be restored into a conversation.
pub open spec fn restore_error(snapshot: SnapshotView, target: ConversationView) -> Option<
    AgentContinuationErrorView,
> {
    if snapshot.schema_version != CHILD_CONVERSATION_SNAPSHOT_SCHEMA_VERSION {
        Some(
            AgentContinuationErrorView::UnsupportedSchemaVersion {
                found: snapshot.schema_version,
            },
        )
    } else if !only_system_prompts(target) {
        Some(
            corrupt(
                "child conversation restore target must contain only fresh system messages"@,
            ),
        )
    } else {
        None
    }
}

/// The conversation after a snapshot was restored whose messages were
/// normalized to `normalized`.
pub open spec fn restored(
    snapshot: SnapshotView,
    target: ConversationView,
    normalized: Seq<MessageView>,
    repair: ToolTerminal,
    catalog: FragmentCatalog,
) -> ConversationView {
    ConversationView {
        messages: target.messages + repaired(normalized, repair),
        rolling_summary: snapshot.rolling_summary,
        summary: snapshot.summary,
        internal_context: restored_fragments(
            target.internal_context,
            snapshot.internal_context,
            catalog,
        ),
    }
}

impl ChildConversationSnapshot {
    /// Captures a conversation. `normalized` is its history without system
    /// prompts after tool-boundary normalization; `repair` is the terminal of a
    /// tool result that lacks one.
    pub fn capture_unchecked(
        conversation: &Conversation,
        normalized: &Vec<Message>,
        repair: ToolTerminal,
        catalog: &FragmentCatalog,
        next_turn: u32,
    ) -> (r: Self)
        requires
            without_system(message_views(normalized@)),
        ensures
            r@ == captured(
                conversation@,
                message_views(normalized@),
                repair,
                *catalog,
                next_turn,
            ),
    {
        let source = repair_missing_tool_terminals(normalized, repair);
        let ghost views = message_views(source@);
        let mut messages: Vec<StoredChildMessage> = Vec::new();
        let mut i: usize = 0;
        while i < source.len()
            invariant
                i <= source.len(),
                views == message_views(source@),
                views == repaired(message_views(normalized@), repair),
                views.len() == message_views(normalized@).len(),
                views.len() == source@.len(),
                without_system(message_views(normalized@)),
                stored_views(messages@) =~= views.take(i as int),
            decreases source.len() - i,
        {
            proof {
                assert(views[i as int] == source@[i as int]@);
                assert(!(message_views(normalized@)[i as int] is System));
            }
            let ghost before = messages@;
            let stored = StoredChildMessage::from_message(&source[i]);
            messages.push(stored);
            assert(stored_views(messages@) =~= stored_views(before).push(stored@));
            i += 1;
        }
        assert(views.take(views.len() as int) == views);
        let fragments = &conversation.internal_context;
        let ghost all = fragment_views(fragments@);
        let mut internal_context: Vec<StoredChildInternalContextFragment> = Vec::new();
        let mut k: usize = 0;
        assert(all.take(0) == Seq::<InternalContextFragmentView>::empty());
        assert(stored_fragment_views(internal_context@) =~= Seq::<StoredFragmentView>::empty());
        while k < fragments.len()
            invariant
                k <= fragments.len(),
                all == fragment_views(fragments@),
                stored_fragment_views(internal_context@) =~= persisted_fragments(
                    all.take(k as int),
                    *catalog,
                ),
            decreases fragments.len() - k,
        {
            proof {
                assert(all.take(k + 1).drop_last() == all.take(k as int));
                assert(all.take(k + 1).last() == fragments@[k as int]@);
            }
            let ghost before = internal_context@;
            match StoredChildInternalContextFragment::from_fragment(&fragments[k], catalog) {
                Some(stored) => {
                    internal_context.push(stored);
                    assert(stored_fragment_views(internal_context@) =~= stored_fragment_views(
                        before,
                    ).push(stored@));
                },
                None => {},
            }
            k += 1;
        }
        assert(all.take(all.len() as int) == all);
        ChildConversationSnapshot {
            schema_version: CHILD_CONVERSATION_SNAPSHOT_SCHEMA_VERSION,
            messages,
            rolling_summary: clone_opt_text(&conversation.rolling_summary),
            summary: StoredChildSummaryState::from_summary(&conversation.summary),
            internal_context,
            next_turn,
        }
    }

    /// Captures only a conversation whose tool calls all have trustworthy
    /// terminals, together with its latest settled tool boundary. It fails
    /// closed before a repair could make an unsafe boundary look resumable.
    pub fn try_capture_safe(
        conversation: &Conversation,
        normalized: &Vec<Message>,
        repair: ToolTerminal,
        catalog: &FragmentCatalog,
        next_turn: u32,
    ) -> (r: Result<(Self, Option<ToolBoundary>), AgentContinuationError>)
        requires
            without_system(message_views(normalized@)),
        ensures
            match r {
                Ok((snapshot, boundary)) => {
                    &&& settled_boundary(conversation@.messages) is Ok
                    &&& boundary_view(boundary) == completed_boundary(
                        settled_boundary(conversation@.messages)->Ok_0,
                    )
                    &&& snapshot@ == captured(
                        conversation@,
                        message_views(normalized@),
                        repair,
                        *catalog,
                        next_turn,
                    )
                },
                Err(e) => settled_boundary(conversation@.messages) == Err::<
                    Option<Seq<char>>,
                    AgentContinuationErrorView,
                >(e@),
            },
    {
        let boundary = match try_last_settled_tool_boundary(conversation) {
            Ok(boundary) => boundary,
            Err(e) => {
                return Err(e);
            },
        };
        Ok(
            (
                Self::capture_unchecked(conversation, normalized, repair, catalog, next_turn),
                boundary,
            ),
        )
    }

    /// The messages of the snapshot, ready for normalization.
    pub fn restorable_messages(&self) -> (r: Vec<Message>)
        ensures
            message_views(r@) == self@.messages,
            without_system(message_views(r@)),
    {
        let mut r: Vec<Message> = Vec::new();
        let mut i: usize = 0;
        while i < self.messages.len()
            invariant
                i <= self.messages.len(),
                message_views(r@) =~= stored_views(self.messages@).take(i as int),
                without_system(message_views(r@)),
            decreases self.messages.len() - i,
        {
            let ghost before = r@;
            let message = self.messages[i].to_message();
            r.push(message);
            assert(message_views(r@) =~= message_views(before).push(message@));
            i += 1;
        }
        r
    }

    /// Restores this snapshot into a conversation that holds fresh system
    /// prompts only, and hands out the next turn. A refused restore leaves the
    /// conversation as it was.
    pub fn restore_into(
        &self,
        conversation: &mut Conversation,
        normalized: &Vec<Message>,
        repair: ToolTerminal,
        catalog: &FragmentCatalog,
    ) -> (r: Result<u32, AgentContinuationError>)
        ensures
            match r {
                Ok(next_turn) => {
                    &&& restore_error(self@, old(conversation)@) is None
                    &&& next_turn == self@.next_turn
                    &&& final(conversation)@ == restored(
                        self@,
                        old(conversation)@,
                        message_views(normalized@),
                        repair,
                        *catalog,
                    )
                },
                Err(e) => {
                    &&& restore_error(self@, old(conversation)@) == Some(e@)
                    &&& *final(conversation) == *old(conversation)
                },
            },
    {
        if self.schema_version != CHILD_CONVERSATION_SNAPSHOT_SCHEMA_VERSION {
            return Err(
                AgentContinuationError::UnsupportedSchemaVersion { found: self.schema_version },
            );
        }
        let mut only_system = true;
        let ghost target = conversation@;
        let mut i: usize = 0;
        while i < conversation.messages.len()
            invariant
                i <= conversation.messages.len(),
                *conversation == *old(conversation),
                target == conversation@,
                only_system == (forall|j: int|
                    0 <= j < i ==> (#[trigger] target.messages[j] is System)),
            decreases conversation.messages.len() - i,
        {
            assert(target.messages[i as int] == conversation.messages@[i as int]@);
            match &conversation.messages[i] {
                Message::System { .. } => {},
                _ => {
                    only_system = false;
                },
            }
            i += 1;
        }
        if !only_system || conversation.internal_context.len() != 0
            || conversation.rolling_summary.is_some() || !conversation.summary.is_empty() {
            return Err(
                corrupt_record(
                    "child conversation restore target must contain only fresh system messages",
                ),
            );
        }
        let mut restored_messages = repair_missing_tool_terminals(normalized, repair);
        let ghost added = message_views(restored_messages@);
        let ghost kept = conversation.messages@;
        let ghost extra = restored_messages@;
        conversation.messages.append(&mut restored_messages);
        assert(message_views(conversation.messages@) =~= message_views(kept) + added);
        conversation.rolling_summary = clone_opt_text(&self.rolling_summary);
        conversation.summary = self.summary.to_summary();
        let ghost stored = stored_fragment_views(self.internal_context@);
        let ghost first = fragment_views(conversation.internal_context@);
        let ghost steady = (
            conversation.messages@,
            conversation.rolling_summary,
            conversation.summary,
        );
        let mut k: usize = 0;
        assert(stored.take(0) == Seq::<StoredFragmentView>::empty());
        while k < self.internal_context.len()
            invariant
                k <= self.internal_context.len(),
                stored == stored_fragment_views(self.internal_context@),
                fragment_views(conversation.internal_context@) == restored_fragments(
                    first,
                    stored.take(k as int),
                    *catalog,
                ),
                steady == (
                    conversation.messages@,
                    conversation.rolling_summary,
                    conversation.summary,
                ),
            decreases self.internal_context.len() - k,
        {
            proof {
                assert(stored.take(k + 1).drop_last() == stored.take(k as int));
                assert(stored.take(k + 1).last() == self.internal_context@[k as int]@);
            }
            let fragment = self.internal_context[k].to_fragment(catalog);
            replace_fragment(&mut conversation.internal_context, fragment);
            k += 1;
        }
        assert(stored.take(stored.len() as int) == stored);
        Ok(self.next_turn)
    }
}

fn same_texts(a: &Vec<String>, b: &Vec<String>) -> (r: bool)
    ensures
        r == (texts(a@) == texts(b@)),
{
    if a.len() != b.len() {
        assert(texts(a@).len() != texts(b@).len());
        return false;
    }
    let mut i: usize = 0;
    while i < a.len()
        invariant
            i <= a.len(),
            a.len() == b.len(),
            forall|j: int| 0 <= j < i ==> texts(a@)[j] == texts(b@)[j],
        decreases a.len() - i,
    {
        if a[i] != b[i] {
            assert(texts(a@)[i as int] != texts(b@)[i as int]);
            return false;
        }
        i += 1;
    }
    assert(texts(a@) =~= texts(b@));
    true
}

fn same_calls(a: &Vec<RawToolCall>, b: &Vec<RawToolCall>) -> (r: bool)
    ensures
        r == (call_views(a@) == call_views(b@)),
{
    if a.len() != b.len() {
        assert(call_views(a@).len() != call_views(b@).len());
        return false;
    }
    let mut i: usize = 0;
    while i < a.len()
        invariant
            i <= a.len(),
            a.len() == b.len(),
            forall|j: int| 0 <= j < i ==> call_views(a@)[j] == call_views(b@)[j],
        decreases a.len() - i,
    {
        if a[i].id != b[i].id || a[i].function_name != b[i].function_name || a[i].arguments
            != b[i].arguments {
            assert(call_views(a@)[i as int] != call_views(b@)[i as int]);
            return false;
        }
        i += 1;
    }
    assert(call_views(a@) =~= call_views(b@));
    true
}

impl StoredChildMessage {
    fn same(&self, other: &Self) -> (r: bool)
        ensures
            r == (self@ == other@),
    {
        match (self, other) {
            (
                StoredChildMessage::User { content: a, images: b, pinned: c },
                StoredChildMessage::User { content: x, images: y, pinned: z },
            ) => *a == *x && same_texts(b, y) && *c == *z,
            (
                StoredChildMessage::Assistant {
                    content: a,
                    reasoning_content: b,
                    tool_calls: c,
                    pinned: d,
                },
                StoredChildMessage::Assistant {
                    content: w,
                    reasoning_content: x,
                    tool_calls: y,
                    pinned: z,
                },
            ) => same_opt_text(a, w) && same_opt_text(b, x) && same_calls(c, y) && *d == *z,
            (
                StoredChildMessage::Tool { tool_call_id: a, content: b, terminal: c, pinned: d },
                StoredChildMessage::Tool { tool_call_id: w, content: x, terminal: y, pinned: z },
            ) => *a == *w && *b == *x && *c == *y && *d == *z,
            _ => false,
        }
    }

    fn duplicate(&self) -> (r: Self)
        ensures
            r@ == self@,
    {
        Self::from_message(&self.to_message())
    }
}

impl StoredChildInternalContextFragment {
    fn slot(&self) -> (r: (FragmentSlot, &String))
        ensures
            r.0 == self@.slot,
            r.1@ == self@.content,
    {
        match self {
            StoredChildInternalContextFragment::Runtime { content } => (
                FragmentSlot::Runtime,
                content,
            ),
            StoredChildInternalContextFragment::Mode { content } => (FragmentSlot::Mode, content),
            StoredChildInternalContextFragment::Goal { content } => (FragmentSlot::Goal, content),
            StoredChildInternalContextFragment::Plan { content } => (FragmentSlot::Plan, content),
            StoredChildInternalContextFragment::Skill { content } => (FragmentSlot::Skill, content),
            StoredChildInternalContextFragment::Memory { content } => (
                FragmentSlot::Memory,
                content,
            ),
        }
    }

    fn duplicate(&self) -> (r: Self)
        ensures
            r@ == self@,
    {
        let (slot, content) = self.slot();
        let content = content.clone();
        match slot {
            FragmentSlot::Runtime => StoredChildInternalContextFragment::Runtime { content },
            FragmentSlot::Mode => StoredChildInternalContextFragment::Mode { content },
            FragmentSlot::Goal => StoredChildInternalContextFragment::Goal { content },
            FragmentSlot::Plan => StoredChildInternalContextFragment::Plan { content },
            FragmentSlot::Skill => StoredChildInternalContextFragment::Skill { content },
            FragmentSlot::Memory => StoredChildInternalContextFragment::Memory { content },
        }
    }
}

impl ChildConversationSnapshot {
    pub fn duplicate(&self) -> (r: Self)
        ensures
            r@ == self@,
    {
        let mut messages: Vec<StoredChildMessage> = Vec::new();
        let mut i: usize = 0;
        while i < self.messages.len()
            invariant
                i <= self.messages.len(),
                stored_views(messages@) =~= stored_views(self.messages@).take(i as int),
            decreases self.messages.len() - i,
        {
            let ghost before = messages@;
            let copy = self.messages[i].duplicate();
            messages.push(copy);
            assert(stored_views(messages@) =~= stored_views(before).push(copy@));
            i += 1;
        }
        let mut internal_context: Vec<StoredChildInternalContextFragment> = Vec::new();
        let mut k: usize = 0;
        while k < self.internal_context.len()
            invariant
                k <= self.internal_context.len(),
                stored_fragment_views(internal_context@) =~= stored_fragment_views(
                    self.internal_context@,
                ).take(k as int),
            decreases self.internal_context.len() - k,
        {
            let ghost before = internal_context@;
            let copy = self.internal_context[k].duplicate();
            internal_context.push(copy);
            assert(stored_fragment_views(internal_context@) =~= stored_fragment_views(before).push(
                copy@,
            ));
            k += 1;
        }
        assert(stored_views(messages@) =~= stored_views(self.messages@));
        assert(stored_fragment_views(internal_context@) =~= stored_fragment_views(
            self.internal_context@,
        ));
        ChildConversationSnapshot {
            schema_version: self.schema_version,
            messages,
            rolling_summary: clone_opt_text(&self.rolling_summary),
            summary: StoredChildSummaryState {
                baseline: clone_opt_text(&self.summary.baseline),
                deltas: clone_texts(&self.summary.deltas),
            },
            internal_context,
            next_turn: self.next_turn,
        }
    }

    /// Whether two snapshots say the same.
    pub fn same(&self, other: &Self) -> (r: bool)
        ensures
            r == (self@ == other@),
    {
        if self.schema_version != other.schema_version || !same_opt_text(
            &self.rolling_summary,
            &other.rolling_summary,
        ) || !same_opt_text(&self.summary.baseline, &other.summary.baseline) || !same_texts(
            &self.summary.deltas,
            &other.summary.deltas,
        ) || self.next_turn != other.next_turn {
            return false;
        }
        if self.messages.len() != other.messages.len() {
            assert(self@.messages.len() != other@.messages.len());
            return false;
        }
        if self.internal_context.len() != other.internal_context.len() {
            assert(self@.internal_context.len() != other@.internal_context.len());
            return false;
        }
        let mut i: usize = 0;
        while i < self.messages.len()
            invariant
                i <= self.messages.len(),
                self.messages.len() == other.messages.len(),
                forall|j: int| 0 <= j < i ==> self@.messages[j] == other@.messages[j],
            decreases self.messages.len() - i,
        {
            if !self.messages[i].same(&other.messages[i]) {
                assert(self@.messages[i as int] != other@.messages[i as int]);
                return false;
            }
            i += 1;
        }
        assert(self@.messages =~= other@.messages);
        let mut k: usize = 0;
        while k < self.internal_context.len()
            invariant
                k <= self.internal_context.len(),
                self.internal_context.len() == other.internal_context.len(),
                forall|j: int|
                    0 <= j < k ==> self@.internal_context[j] == other@.internal_context[j],
            decreases self.internal_context.len() - k,
        {
            let (a, x) = self.internal_context[k].slot();
            let (b, y) = other.internal_context[k].slot();
            if a != b || *x != *y {
                assert(self@.internal_context[k as int] != other@.internal_context[k as int]);
                return false;
            }
            k += 1;
        }
        assert(self@.internal_context =~= other@.internal_context);
        true
    }
}

/// Every tool result has a terminal.
pub open spec fn terminals_present(messages: Seq<MessageView>) -> bool {
    forall|i: int|
        0 <= i < messages.len() && (#[trigger] messages[i] is Tool)
            ==> messages[i]->Tool_terminal is Some
}

/// Where no terminal is missing there is nothing to repair.
pub proof fn complete_history_needs_no_repair(messages: Seq<MessageView>, repair: ToolTerminal)
    requires
        terminals_present(messages),
    ensures
        repaired(messages, repair) == messages,
{
    assert forall|i: int| 0 <= i < messages.len() implies repaired(messages, repair)[i]
        == messages[i] by {
        assert(messages[i] is Tool ==> messages[i]->Tool_terminal is Some);
    }
    assert(repaired(messages, repair) =~= messages);
}

/// Repairing twice changes nothing more.
pub proof fn repair_is_idempotent(messages: Seq<MessageView>, repair: ToolTerminal)
    ensures
        repaired(repaired(messages, repair), repair) == repaired(messages, repair),
{
    let once = repaired(messages, repair);
    assert forall|id: Seq<char>| asked(once, id) == asked(messages, id) by {
        if asked(messages, id) {
            let j = choose|j: int|
                0 <= j < messages.len() && (#[trigger] messages[j] is Assistant) && call_ids(
                    messages[j]->Assistant_tool_calls,
                ).contains(id);
            assert(once[j] is Assistant && once[j] == messages[j]);
        }
        if asked(once, id) {
            let j = choose|j: int|
                0 <= j < once.len() && (#[trigger] once[j] is Assistant) && call_ids(
                    once[j]->Assistant_tool_calls,
                ).contains(id);
            assert(messages[j] is Assistant && once[j] == messages[j]);
        }
    }
    assert forall|i: int| 0 <= i < messages.len() implies repaired(once, repair)[i] == once[i] by {
        if messages[i] is Tool {
            assert(asked(once, messages[i]->Tool_tool_call_id) == asked(
                messages,
                messages[i]->Tool_tool_call_id,
            ));
        }
    }
    assert(repaired(once, repair) =~= once);
}

/// What was captured with complete terminals comes back on restoration: after
/// the fresh system prompts stands the history, and the summaries and the turn
/// cursor are those of the captured conversation.
pub proof fn capture_and_restore_round_trip(
    conversation: ConversationView,
    normalized: Seq<MessageView>,
    target: ConversationView,
    repair: ToolTerminal,
    catalog: FragmentCatalog,
    next_turn: u32,
)
    requires
        terminals_present(normalized),
        only_system_prompts(target),
    ensures
        ({
            let snapshot = captured(conversation, normalized, repair, catalog, next_turn);
            let back = restored(snapshot, target, snapshot.messages, repair, catalog);
            &&& restore_error(snapshot, target) is None
            &&& snapshot.next_turn == next_turn
            &&& back.messages == target.messages + normalized
            &&& back.rolling_summary == conversation.rolling_summary
            &&& back.summary == conversation.summary
        }),
{
    complete_history_needs_no_repair(normalized, repair);
}

/// What was said by anybody but the system is kept, in order; nothing else is.
pub proof fn histories_leave_out_the_system(a: Seq<MessageView>, b: Seq<MessageView>)
    ensures
        without_system(non_system(a)),
        without_system(a) ==> non_system(a) == a,
        (forall|i: int| 0 <= i < a.len() ==> (#[trigger] a[i] is System)) ==> non_system(a).len()
            == 0,
        non_system(a + b) == non_system(a) + non_system(b),
    decreases a.len() + b.len(),
{
    if b.len() > 0 {
        assert((a + b).drop_last() =~= a + b.drop_last());
        assert((a + b).last() == b.last());
        histories_leave_out_the_system(a, b.drop_last());
        assert(non_system(a + b) =~= non_system(a) + non_system(b));
    } else {
        assert(a + b =~= a);
        assert(non_system(a) + non_system(b) =~= non_system(a));
        if a.len() > 0 {
            histories_leave_out_the_system(a.drop_last(), b);
            assert(without_system(a) ==> without_system(a.drop_last()));
            assert(without_system(a) ==> a.drop_last().push(a.last()) =~= a);
            assert(forall|i: int| 0 <= i < a.len() - 1 ==> a.drop_last()[i] == a[i]);
        }
    }
}

/// A repair gives a missing outcome to a tool's answer whose call is in the history,
/// and changes nothing else: no message is added, moved or reworded, and an outcome
/// that is there stays.
pub proof fn repairs_add_missing_outcomes_only(
    messages: Seq<MessageView>,
    repair: ToolTerminal,
    i: int,
)
    requires
        0 <= i < messages.len(),
    ensures
        ({
            let after = repaired(messages, repair);
            &&& after.len() == messages.len()
            &&& !(messages[i] is Tool) ==> after[i] == messages[i]
            &&& messages[i] is Tool ==> {
                &&& after[i] is Tool
                &&& after[i]->Tool_tool_call_id == messages[i]->Tool_tool_call_id
                &&& after[i]->Tool_content == messages[i]->Tool_content
                &&& after[i]->Tool_pinned == messages[i]->Tool_pinned
                &&& messages[i]->Tool_terminal is Some ==> after[i] == messages[i]
                &&& messages[i]->Tool_terminal is None ==> (if asked(
                    messages,
                    messages[i]->Tool_tool_call_id,
                ) {
                    after[i]->Tool_terminal == Some(repair)
                } else {
                    after[i] == messages[i]
                })
            }
        }),
{
}

/// A snapshot is restored exactly when its form is supported and the conversation is
/// fresh: system prompts alone, with no summary and no context.
pub proof fn snapshots_are_restored_into_fresh_conversations(
    snapshot: SnapshotView,
    target: ConversationView,
)
    ensures
        restore_error(snapshot, target) is None <==> {
            &&& snapshot.schema_version == CHILD_CONVERSATION_SNAPSHOT_SCHEMA_VERSION
            &&& forall|i: int|
                0 <= i < target.messages.len() ==> (#[trigger] target.messages[i] is System)
            &&& target.internal_context.len() == 0
            &&& target.rolling_summary is None
            &&& target.summary.baseline is None
            &&& target.summary.deltas.len() == 0
        },
        snapshot.schema_version != CHILD_CONVERSATION_SNAPSHOT_SCHEMA_VERSION ==> restore_error(
            snapshot,
            target,
        ) == Some(
            AgentContinuationErrorView::UnsupportedSchemaVersion {
                found: snapshot.schema_version,
            },
        ),
{
}

/// A context fragment that the catalog names is kept with its content and comes back
/// with the catalog's identity and limit; one that it does not name is left out.
pub proof fn catalogued_fragments_are_kept(
    fragment: InternalContextFragmentView,
    catalog: FragmentCatalog,
    slot: FragmentSlot,
)
    requires
        catalog.distinct(),
    ensures
        fragment.id == catalog.entry(slot).id@ ==> persisted_fragment(fragment, catalog) == Some(
            StoredFragmentView { slot, content: fragment.content },
        ),
        persisted_fragment(fragment, catalog) matches Some(kept) ==> kept.content
            == fragment.content && fragment.id == catalog.entry(kept.slot).id@,
        ({
            let back = restored_fragment(
                StoredFragmentView { slot, content: fragment.content },
                catalog,
            );
            &&& back.id == catalog.entry(slot).id@
            &&& back.content == fragment.content
            &&& back.max_tokens == catalog.entry(slot).max_tokens
        }),
{
    assert(catalog.slot_of(fragment.id) matches Some(found) ==> fragment.id == catalog.entry(
        found,
    ).id@);
}

/// Fragments are kept in order, each on its own.
pub proof fn fragments_are_kept_in_order(
    a: Seq<InternalContextFragmentView>,
    b: Seq<InternalContextFragmentView>,
    catalog: FragmentCatalog,
)
    ensures
        persisted_fragments(a + b, catalog) == persisted_fragments(a, catalog)
            + persisted_fragments(b, catalog),
        a.len() == 1 ==> persisted_fragments(a, catalog) == (match persisted_fragment(
            a[0],
            catalog,
        ) {
            Some(kept) => seq![kept],
            None => Seq::empty(),
        }),
    decreases b.len(),
{
    if b.len() > 0 {
        assert((a + b).drop_last() =~= a + b.drop_last());
        fragments_are_kept_in_order(a, b.drop_last(), catalog);
        assert(persisted_fragments(a + b, catalog) =~= persisted_fragments(a, catalog)
            + persisted_fragments(b, catalog));
    } else {
        assert(a + b =~= a);
        assert(persisted_fragments(a + b, catalog) =~= persisted_fragments(a, catalog)
            + persisted_fragments(b, catalog));
    }
    if a.len() == 1 {
        assert(a.drop_last().len() == 0);
        assert(persisted_fragments(a.drop_last(), catalog) =~= Seq::empty());
        assert(Seq::<StoredFragmentView>::empty().push(
            persisted_fragment(a[0], catalog)->0,
        ) =~= seq![persisted_fragment(a[0], catalog)->0]);
    }
}

/// A restored fragment takes the place of the first one with its identity, or comes
/// last; every other fragment keeps its place.
pub proof fn fragments_take_their_own_place(
    fragments: Seq<InternalContextFragmentView>,
    fragment: InternalContextFragmentView,
    i: int,
)
    requires
        0 <= i < fragments.len(),
    ensures
        fragments[i].id != fragment.id ==> replaced(fragments, fragment)[i] == fragments[i],
        fragments[i].id == fragment.id && (forall|j: int|
            0 <= j < i ==> (#[trigger] fragments[j]).id != fragment.id) ==> replaced(
            fragments,
            fragment,
        )[i] == fragment && replaced(fragments, fragment).len() == fragments.len(),
        (forall|j: int| 0 <= j < fragments.len() ==> (#[trigger] fragments[j]).id != fragment.id)
            ==> replaced(fragments, fragment) == fragments.push(fragment),
{
    if fragments[i].id == fragment.id && (forall|j: int|
        0 <= j < i ==> (#[trigger] fragments[j]).id != fragment.id) {
        assert(fragment_at(fragments, fragment.id, i));
    }
}

} // verus!
