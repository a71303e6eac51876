//! What a thread turn is asked to do, and how its prompt gets into the
//! conversation.

use vstd::prelude::*;
use vstd::string::*;
use crate::command::config::{HistoryMode, OutputFormat};
use crate::conversation::{Conversation, ConversationView, Message, MessageView};
use crate::text::{clone_texts, is_blank, blank, texts, trim, trimmed};

verus! {

/// How a run treats its background workflows.
#[derive(Clone, Copy, Debug, PartialEq, Eq, Structural)]
pub struct ControllerRunOptions {
    pub wait_for_background_workflows: bool,
}

impl Default for ControllerRunOptions {
    fn default() -> (r: Self)
        ensures
            r.wait_for_background_workflows,
    {
        ControllerRunOptions { wait_for_background_workflows: true }
    }
}

impl ControllerRunOptions {
    /// Machine-readable runs wait for their background workflows.
    pub fn for_run_config(output_format: OutputFormat) -> (r: Self)
        ensures
            r.wait_for_background_workflows == (output_format == OutputFormat::Jsonl),
    {
        ControllerRunOptions {
            wait_for_background_workflows: match output_format {
                OutputFormat::Jsonl => true,
                OutputFormat::Text => false,
            },
        }
    }
}

/// Where the prompt of a turn goes.
#[derive(Clone, Copy, Debug, PartialEq, Eq, Structural)]
pub enum ThreadTurnPromptPlacement {
    BacktrackableUser,
    PinnedUser,
    PinnedSystem,
    /// The prompt is in the conversation already.
    ExistingTurn,
}

#[derive(Clone, Copy, Debug, PartialEq, Eq, Structural)]
pub enum ThreadTurnToolMode {
    Standard,
    Goal,
}

/// Which tools an agent may use, and under which label.
#[derive(Debug)]
pub struct AgentToolPolicyContext {
    pub allowed_tools: Option<Vec<String>>,
    pub label: Option<String>,
    pub goal_mode: bool,
}

impl AgentToolPolicyContext {
    pub fn new(allowed_tools: Option<Vec<String>>, label: Option<String>) -> (r: Self)
        ensures
            r.allowed_tools == allowed_tools,
            r.label == label,
            !r.goal_mode,
    {
        AgentToolPolicyContext { allowed_tools, label, goal_mode: false }
    }

    pub fn unrestricted() -> (r: Self)
        ensures
            r.allowed_tools is None,
            r.label is None,
            !r.goal_mode,
    {
        AgentToolPolicyContext { allowed_tools: None, label: None, goal_mode: false }
    }

    pub fn for_goal() -> (r: Self)
        ensures
            r.allowed_tools is None,
            r.label is None,
            r.goal_mode,
    {
        AgentToolPolicyContext { allowed_tools: None, label: None, goal_mode: true }
    }

    pub fn allowed_tools(&self) -> (r: &Option<Vec<String>>)
        ensures
            *r == self.allowed_tools,
    {
        &self.allowed_tools
    }

    pub fn label(&self) -> (r: &Option<String>)
        ensures
            *r == self.label,
    {
        &self.label
    }
}

impl ThreadTurnToolMode {
    pub fn policy(self) -> (r: AgentToolPolicyContext)
        ensures
            r.allowed_tools is None,
            r.label is None,
            r.goal_mode == (self == ThreadTurnToolMode::Goal),
    {
        match self {
            ThreadTurnToolMode::Standard => AgentToolPolicyContext::unrestricted(),
            ThreadTurnToolMode::Goal => AgentToolPolicyContext::for_goal(),
        }
    }
}

/// A request for one turn of a thread, as far as it is plain data.
#[derive(Debug)]
pub struct ThreadTurnRequest {
    pub turn_id: String,
    pub prompt: String,
    pub images: Vec<String>,
    pub prompt_placement: ThreadTurnPromptPlacement,
    pub tool_mode: ThreadTurnToolMode,
    pub goal_turn_origin: Option<String>,
    pub main_session_task_id: Option<String>,
    pub root_task_id: Option<String>,
    pub options: ControllerRunOptions,
    pub emit_session_completed: bool,
    pub defer_cancel_terminal: bool,
}

impl ThreadTurnRequest {
    /// A request whose prompt is a user message that can be taken back, with the
    /// standard tools, that reports the end of its session.
    pub fn new(turn_id: String, prompt: String) -> (r: Self)
        ensures
            r.turn_id == turn_id,
            r.prompt == prompt,
            r.images@.len() == 0,
            r.prompt_placement == ThreadTurnPromptPlacement::BacktrackableUser,
            r.tool_mode == ThreadTurnToolMode::Standard,
            r.goal_turn_origin is None,
            r.main_session_task_id is None,
            r.root_task_id is None,
            r.options.wait_for_background_workflows,
            r.emit_session_completed,
            !r.defer_cancel_terminal,
    {
        ThreadTurnRequest {
            turn_id,
            prompt,
            images: Vec::new(),
            prompt_placement: ThreadTurnPromptPlacement::BacktrackableUser,
            tool_mode: ThreadTurnToolMode::Standard,
            goal_turn_origin: None,
            main_session_task_id: None,
            root_task_id: None,
            options: ControllerRunOptions { wait_for_background_workflows: true },
            emit_session_completed: true,
            defer_cancel_terminal: false,
        }
    }

    pub fn prompt(&self) -> (r: &str)
        ensures
            r@ == self.prompt@,
    {
        self.prompt.as_str()
    }

    pub fn turn_id(&self) -> (r: &str)
        ensures
            r@ == self.turn_id@,
    {
        self.turn_id.as_str()
    }

    pub fn images(&self) -> (r: &Vec<String>)
        ensures
            *r == self.images,
    {
        &self.images
    }

    pub fn with_turn_id(self, turn_id: String) -> (r: Self)
        ensures
            r == (ThreadTurnRequest { turn_id, ..self }),
    {
        ThreadTurnRequest { turn_id, ..self }
    }

    pub fn with_images(self, images: Vec<String>) -> (r: Self)
        ensures
            r == (ThreadTurnRequest { images, ..self }),
    {
        ThreadTurnRequest { images, ..self }
    }

    pub fn options(&self) -> (r: ControllerRunOptions)
        ensures
            r == self.options,
    {
        self.options
    }

    pub fn with_options(self, options: ControllerRunOptions) -> (r: Self)
        ensures
            r == (ThreadTurnRequest { options, ..self }),
    {
        ThreadTurnRequest { options, ..self }
    }

    pub fn prompt_placement(&self) -> (r: ThreadTurnPromptPlacement)
        ensures
            r == self.prompt_placement,
    {
        self.prompt_placement
    }

    pub fn with_prompt_placement(self, placement: ThreadTurnPromptPlacement) -> (r: Self)
        ensures
            r == (ThreadTurnRequest { prompt_placement: placement, ..self }),
    {
        ThreadTurnRequest { prompt_placement: placement, ..self }
    }

    pub fn tool_mode(&self) -> (r: ThreadTurnToolMode)
        ensures
            r == self.tool_mode,
    {
        self.tool_mode
    }

    pub fn with_tool_mode(self, tool_mode: ThreadTurnToolMode) -> (r: Self)
        ensures
            r == (ThreadTurnRequest { tool_mode, ..self }),
    {
        ThreadTurnRequest { tool_mode, ..self }
    }

    pub fn goal_turn_origin(&self) -> (r: &Option<String>)
        ensures
            *r == self.goal_turn_origin,
    {
        &self.goal_turn_origin
    }

    pub fn with_goal_turn_origin(self, origin: String) -> (r: Self)
        ensures
            r == (ThreadTurnRequest { goal_turn_origin: Some(origin), ..self }),
    {
        ThreadTurnRequest { goal_turn_origin: Some(origin), ..self }
    }

    pub fn main_session_task_id(&self) -> (r: &Option<String>)
        ensures
            *r == self.main_session_task_id,
    {
        &self.main_session_task_id
    }

    pub fn with_main_session_task_id(self, task_id: String) -> (r: Self)
        ensures
            r == (ThreadTurnRequest { main_session_task_id: Some(task_id), ..self }),
    {
        ThreadTurnRequest { main_session_task_id: Some(task_id), ..self }
    }

    pub fn root_task_id(&self) -> (r: &Option<String>)
        ensures
            *r == self.root_task_id,
    {
        &self.root_task_id
    }

    pub fn with_root_task_id(self, root_task_id: String) -> (r: Self)
        ensures
            r == (ThreadTurnRequest { root_task_id: Some(root_task_id), ..self }),
    {
        ThreadTurnRequest { root_task_id: Some(root_task_id), ..self }
    }

    pub fn with_wait_for_background_workflows(self, wait: bool) -> (r: Self)
        ensures
            r == (ThreadTurnRequest {
                options: ControllerRunOptions { wait_for_background_workflows: wait },
                ..self
            }),
    {
        ThreadTurnRequest {
            options: ControllerRunOptions { wait_for_background_workflows: wait },
            ..self
        }
    }

    pub fn emit_session_completed(&self) -> (r: bool)
        ensures
            r == self.emit_session_completed,
    {
        self.emit_session_completed
    }

    pub fn with_session_completed_event(self, emit: bool) -> (r: Self)
        ensures
            r == (ThreadTurnRequest { emit_session_completed: emit, ..self }),
    {
        ThreadTurnRequest { emit_session_completed: emit, ..self }
    }

    /// The prompt is in the conversation already, as it is for a continuation.
    pub fn with_existing_turn_prompt(self) -> (r: Self)
        ensures
            r == (ThreadTurnRequest {
                prompt_placement: ThreadTurnPromptPlacement::ExistingTurn,
                ..self
            }),
    {
        ThreadTurnRequest { prompt_placement: ThreadTurnPromptPlacement::ExistingTurn, ..self }
    }

    pub fn with_deferred_cancel_terminal(self, defer: bool) -> (r: Self)
        ensures
            r == (ThreadTurnRequest { defer_cancel_terminal: defer, ..self }),
    {
        ThreadTurnRequest { defer_cancel_terminal: defer, ..self }
    }
}

/// The message that a request adds to the conversation.
pub open spec fn prompt_message(request: ThreadTurnRequest) -> Option<MessageView> {
    match request.prompt_placement {
        ThreadTurnPromptPlacement::BacktrackableUser => Some(
            MessageView::User {
                content: request.prompt@,
                images: texts(request.images@),
                pinned: false,
            },
        ),
        ThreadTurnPromptPlacement::PinnedUser => Some(
            MessageView::User {
                content: request.prompt@,
                images: texts(request.images@),
                pinned: true,
            },
        ),
        ThreadTurnPromptPlacement::PinnedSystem => Some(
            MessageView::System { content: request.prompt@, pinned: true },
        ),
        ThreadTurnPromptPlacement::ExistingTurn => None,
    }
}

/// The message that a request adds to the conversation and its history.
pub fn message_of(request: &ThreadTurnRequest) -> (r: Option<Message>)
    ensures
        match r {
            Some(message) => prompt_message(*request) == Some(message@),
            None => prompt_message(*request) is None,
        },
{
    match request.prompt_placement {
        ThreadTurnPromptPlacement::BacktrackableUser => Some(
            Message::User {
                content: request.prompt.clone(),
                images: clone_texts(&request.images),
                pinned: false,
            },
        ),
        ThreadTurnPromptPlacement::PinnedUser => Some(
            Message::User {
                content: request.prompt.clone(),
                images: clone_texts(&request.images),
                pinned: true,
            },
        ),
        ThreadTurnPromptPlacement::PinnedSystem => Some(
            Message::System { content: request.prompt.clone(), pinned: true },
        ),
        ThreadTurnPromptPlacement::ExistingTurn => None,
    }
}

/// What a turn does before its prompt is placed.
#[derive(Clone, Copy, Debug, PartialEq, Eq, Structural)]
pub struct ThreadTurnPreparation {
    /// Wait until earlier memories are stored.
    pub waits_for_memory: bool,
    /// The memory turn goes on from an earlier one.
    pub existing_turn: bool,
    /// Memories may be recalled.
    pub recalls_memory: bool,
    /// The skills that the prompt names are looked up anew.
    pub replaces_skills: bool,
}

pub fn plan_turn(request: &ThreadTurnRequest, auto_memory: bool, history_mode: &HistoryMode) -> (r:
    ThreadTurnPreparation)
    ensures
        ({
            let existing = request.prompt_placement == ThreadTurnPromptPlacement::ExistingTurn;
            r == (ThreadTurnPreparation {
                waits_for_memory: !existing,
                existing_turn: existing,
                recalls_memory: auto_memory && !(history_mode is Disabled),
                replaces_skills: !existing,
            })
        }),
{
    let existing = match request.prompt_placement {
        ThreadTurnPromptPlacement::ExistingTurn => true,
        _ => false,
    };
    let disabled = match history_mode {
        HistoryMode::Disabled => true,
        _ => false,
    };
    ThreadTurnPreparation {
        waits_for_memory: !existing,
        existing_turn: existing,
        recalls_memory: auto_memory && !disabled,
        replaces_skills: !existing,
    }
}

/// A turn whose prompt is in place.
#[derive(Debug)]
pub struct ThreadTurnContext {
    pub cwd: String,
    pub prompt: String,
    pub memory_start: usize,
}

impl ThreadTurnContext {
    /// Places the prompt of a request. `appended` is what writing the message
    /// to the history gave; a message that is not in the history does not get
    /// into the conversation either.
    pub fn prepare<E>(
        cwd: Option<String>,
        current_dir: String,
        request: &ThreadTurnRequest,
        memory_start: usize,
        conversation: &mut Conversation,
        appended: Result<(), E>,
    ) -> (r: Result<Self, E>)
        ensures
            match (prompt_message(*request), appended) {
                (Some(_), Err(e)) => r == Err::<Self, E>(e) && *final(conversation) == *old(
                    conversation,
                ),
                (Some(message), Ok(_)) => r is Ok && final(conversation)@ == (ConversationView {
                    messages: old(conversation)@.messages.push(message),
                    ..old(conversation)@
                }),
                (None, _) => r is Ok && *final(conversation) == *old(conversation),
            },
            r matches Ok(context) ==> context.memory_start == memory_start && context.prompt
                == request.prompt && context.cwd == (match cwd {
                Some(cwd) => cwd,
                None => current_dir,
            }),
    {
        if let Some(message) = message_of(request) {
            match appended {
                Ok(_) => {},
                Err(e) => {
                    return Err(e);
                },
            }
            conversation.add(message);
        }
        let cwd = match cwd {
            Some(cwd) => cwd,
            None => current_dir,
        };
        Ok(ThreadTurnContext { cwd, prompt: request.prompt.clone(), memory_start })
    }

    pub fn cwd(&self) -> (r: &str)
        ensures
            r@ == self.cwd@,
    {
        self.cwd.as_str()
    }

    pub fn prompt(&self) -> (r: &str)
        ensures
            r@ == self.prompt@,
    {
        self.prompt.as_str()
    }
}

/// The messages that tell of terminals which finished.
pub open spec fn notices(notifications: Seq<String>) -> Seq<MessageView> {
    notifications.map_values(
        |text: String| MessageView::System { content: text@, pinned: true },
    )
}

/// Tells the conversation of terminals that finished since the last turn, in
/// order.
pub fn drain_terminal_notifications(conversation: &mut Conversation, notifications: &Vec<String>)
    ensures
        final(conversation)@ == (ConversationView {
            messages: old(conversation)@.messages + notices(notifications@),
            ..old(conversation)@
        }),
{
    let ghost before = conversation@;
    let mut i: usize = 0;
    assert(notices(notifications@.take(0)) =~= Seq::<MessageView>::empty());
    assert(conversation@.messages =~= before.messages + notices(notifications@.take(0)));
    while i < notifications.len()
        invariant
            i <= notifications.len(),
            conversation@ == (ConversationView {
                messages: before.messages + notices(notifications@.take(i as int)),
                ..before
            }),
        decreases notifications.len() - i,
    {
        conversation.add(Message::System { content: notifications[i].clone(), pinned: true });
        proof {
            assert(notices(notifications@.take(i + 1)) =~= notices(
                notifications@.take(i as int),
            ).push(MessageView::System { content: notifications@[i as int]@, pinned: true }));
            assert(conversation@.messages =~= before.messages + notices(
                notifications@.take(i + 1),
            ));
        }
        i += 1;
    }
    assert(notifications@.take(i as int) =~= notifications@);
}

/// The prompt of a headless run, without white space around it.
pub open spec fn headless_prompt(prompt: Seq<char>) -> Seq<char> {
    if blank(prompt) {
        "(empty prompt)"@
    } else {
        trimmed(prompt)
    }
}

pub fn run_prompt(prompt: &str) -> (r: String)
    ensures
        r@ == headless_prompt(prompt@),
{
    if is_blank(prompt) {
        "(empty prompt)".to_owned()
    } else {
        trim(prompt)
    }
}

/// A prompt becomes a message of the user, pinned or not, or of the system, as it
/// is to be placed; one that is in the conversation already is not added again.
pub proof fn prompts_are_placed_as_asked(request: ThreadTurnRequest)
    ensures
        prompt_message(request) is None <==> request.prompt_placement
            == ThreadTurnPromptPlacement::ExistingTurn,
        prompt_message(request) matches Some(MessageView::User { content, images, pinned })
            ==> content == request.prompt@ && images == texts(request.images@) && (pinned
            <==> request.prompt_placement == ThreadTurnPromptPlacement::PinnedUser),
        request.prompt_placement == ThreadTurnPromptPlacement::PinnedSystem ==> (prompt_message(
            request,
        ) matches Some(MessageView::System { content, pinned }) && content == request.prompt@
            && pinned),
        request.prompt_placement == ThreadTurnPromptPlacement::BacktrackableUser || request
            .prompt_placement == ThreadTurnPromptPlacement::PinnedUser ==> (prompt_message(
            request,
        ) matches Some(message) && message is User),
{
}

/// Notices are told by the system, pinned, one message each and in order.
pub proof fn notices_are_told_in_order(notifications: Seq<String>, i: int)
    requires
        0 <= i < notifications.len(),
    ensures
        notices(notifications).len() == notifications.len(),
        notices(notifications)[i] == (MessageView::System {
            content: notifications[i]@,
            pinned: true,
        }),
{
}

/// A prompt with something in it is used without the blank text around it; one
/// without anything is named as empty. No run goes without a prompt.
pub proof fn no_run_goes_without_a_prompt(prompt: Seq<char>)
    ensures
        !blank(headless_prompt(prompt)),
        !blank(prompt) ==> headless_prompt(prompt) == trimmed(prompt),
        blank(prompt) ==> headless_prompt(prompt) == "(empty prompt)"@,
{
    reveal_strlit("(empty prompt)");
    crate::text::blank_means_trimmed_to_nothing(prompt);
    let ends = crate::text::trimming_takes_blank_ends(prompt);
    if blank(prompt) {
        assert(!crate::text::white_space("(empty prompt)"@[0]));
    } else {
        assert(!crate::text::white_space(trimmed(prompt)[0]));
    }
}

} // verus!
