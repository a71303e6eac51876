//! Launching an agent as a child thread, and reading what came of it.

use vstd::prelude::*;
use vstd::string::*;
use crate::agent_continuation::canonical_json::JsonValue;
use crate::agent_continuation::ids::{parse_uuid, parse_uuid_result};
use crate::agent_registry::UsageTotals;
use crate::child_agent_types::{
    ChildAgentActivity, SubagentActivityPayload, SurfaceSubagentTerminalStatus,
};
use crate::command::config::{HistoryMode, RunConfig};
use crate::conversation::{message_views, Message, MessageView};
use crate::provider_types::clone_text;
use crate::runtime_types::RunStatus;
use crate::text::{characters, decimal, decimal_of, opt_chars, plus, plus3, text_is};

verus! {

#[derive(Clone, Copy, Debug, PartialEq, Eq, Structural)]
pub enum AgentRunMode {
    Sync,
    Async,
}

/// What launching an agent came to.
#[derive(Debug)]
pub struct AgentLaunchResult {
    pub thread_id: String,
    pub status: RunStatus,
    pub final_message: Option<String>,
    pub error: Option<String>,
    pub usage: UsageTotals,
    pub running: bool,
}

pub ghost struct AgentLaunchResultView {
    pub thread_id: Seq<char>,
    pub status: RunStatus,
    pub final_message: Option<Seq<char>>,
    pub error: Option<Seq<char>>,
    pub usage: UsageTotals,
    pub running: bool,
}

impl View for AgentLaunchResult {
    type V = AgentLaunchResultView;

    open spec fn view(&self) -> AgentLaunchResultView {
        AgentLaunchResultView {
            thread_id: self.thread_id@,
            status: self.status,
            final_message: opt_chars(self.final_message),
            error: opt_chars(self.error),
            usage: self.usage,
            running: self.running,
        }
    }
}

/// How the operation of a child thread ended.
#[derive(Debug)]
#[allow(inconsistent_fields)]
pub enum OperationOutcome {
    Completed(RunStatus),
    Stopped,
    Backgrounded { task_id: String },
    ExecutionFailed { message: String },
    Panicked { message: String },
}

/// What a child thread looks like at its end.
#[derive(Debug)]
pub struct ThreadSnapshot {
    pub usage: UsageTotals,
    pub messages: Vec<Message>,
    pub completion_error: Option<String>,
}

/// What the assistant said last.
pub open spec fn last_said(messages: Seq<MessageView>) -> Option<Seq<char>>
    decreases messages.len(),
{
    if messages.len() == 0 {
        None
    } else {
        match messages.last() {
            MessageView::Assistant { content, .. } => if content is Some {
                content
            } else {
                last_said(messages.drop_last())
            },
            _ => last_said(messages.drop_last()),
        }
    }
}

fn final_message(messages: &Vec<Message>) -> (r: Option<String>)
    ensures
        opt_chars(r) == last_said(message_views(messages@)),
{
    let ghost all = message_views(messages@);
    let mut i: usize = messages.len();
    assert(all.take(i as int) =~= all);
    while i > 0
        invariant
            i <= messages.len(),
            all == message_views(messages@),
            last_said(all) == last_said(all.take(i as int)),
        decreases i,
    {
        i -= 1;
        assert(all.take(i + 1).drop_last() =~= all.take(i as int));
        assert(all.take(i + 1).last() == messages@[i as int]@);
        if let Message::Assistant { content, .. } = &messages[i] {
            if let Some(text) = content {
                return Some(text.clone());
            }
        }
    }
    None
}

/// The status and the error of an operation that ended.
pub open spec fn settled_status(
    outcome: OperationOutcome,
    cancellation_requested: bool,
    completion_error: Option<Seq<char>>,
) -> (RunStatus, Option<Seq<char>>) {
    if cancellation_requested || outcome is Stopped {
        (RunStatus::Cancelled, Some("agent cancelled"@))
    } else {
        match outcome {
            OperationOutcome::Completed(RunStatus::Success) => (RunStatus::Success, None),
            OperationOutcome::Completed(RunStatus::Cancelled) => (
                RunStatus::Cancelled,
                Some("agent cancelled"@),
            ),
            OperationOutcome::Completed(RunStatus::ApprovalRequired) => (
                RunStatus::ApprovalRequired,
                Some("agent requires permission"@),
            ),
            OperationOutcome::Completed(status) => (
                status,
                Some(
                    match completion_error {
                        Some(error) => error,
                        None => status.text(),
                    },
                ),
            ),
            OperationOutcome::Stopped => (RunStatus::Cancelled, Some("agent cancelled"@)),
            OperationOutcome::Backgrounded { .. } => (RunStatus::Success, None),
            OperationOutcome::ExecutionFailed { message } => (RunStatus::Failed, Some(message@)),
            OperationOutcome::Panicked { message } => (RunStatus::Failed, Some(message@)),
        }
    }
}

/// What an ended operation is reported as.
pub open spec fn settled(
    thread_id: Seq<char>,
    outcome: OperationOutcome,
    cancellation_requested: bool,
    snapshot: Option<ThreadSnapshot>,
) -> AgentLaunchResultView {
    let (status, error) = settled_status(
        outcome,
        cancellation_requested,
        match snapshot {
            Some(snapshot) => opt_chars(snapshot.completion_error),
            None => None,
        },
    );
    AgentLaunchResultView {
        thread_id,
        status,
        final_message: match snapshot {
            Some(snapshot) => last_said(message_views(snapshot.messages@)),
            None => None,
        },
        error,
        usage: match snapshot {
            Some(snapshot) => snapshot.usage,
            None => UsageTotals::zero_spec(),
        },
        running: false,
    }
}

/// Reports an ended operation. A cancellation that was asked for counts more
/// than how the operation ended.
pub fn settle_operation(
    thread_id: String,
    outcome: OperationOutcome,
    cancellation_requested: bool,
    snapshot: &Option<ThreadSnapshot>,
) -> (r: AgentLaunchResult)
    ensures
        r@ == settled(thread_id@, outcome, cancellation_requested, *snapshot),
{
    let usage = match snapshot {
        Some(snapshot) => snapshot.usage,
        None => UsageTotals::zero(),
    };
    let final_message = match snapshot {
        Some(snapshot) => final_message(&snapshot.messages),
        None => None,
    };
    let stopped = match &outcome {
        OperationOutcome::Stopped => true,
        _ => false,
    };
    let (status, error) = if cancellation_requested || stopped {
        (RunStatus::Cancelled, Some("agent cancelled".to_owned()))
    } else {
        match outcome {
            OperationOutcome::Completed(status) => match status {
                RunStatus::Success => (RunStatus::Success, None),
                RunStatus::Cancelled => (RunStatus::Cancelled, Some("agent cancelled".to_owned())),
                RunStatus::ApprovalRequired => (
                    RunStatus::ApprovalRequired,
                    Some("agent requires permission".to_owned()),
                ),
                _ => {
                    let reported = match snapshot {
                        Some(snapshot) => clone_text(&snapshot.completion_error),
                        None => None,
                    };
                    let reason = match reported {
                        Some(reason) => reason,
                        None => status.as_str().to_owned(),
                    };
                    (status, Some(reason))
                },
            },
            OperationOutcome::Stopped => (
                RunStatus::Cancelled,
                Some("agent cancelled".to_owned()),
            ),
            OperationOutcome::Backgrounded { .. } => (RunStatus::Success, None),
            OperationOutcome::ExecutionFailed { message } => (RunStatus::Failed, Some(message)),
            OperationOutcome::Panicked { message } => (RunStatus::Failed, Some(message)),
        }
    };
    AgentLaunchResult { thread_id, status, final_message, error, usage, running: false }
}

/// Only a successful operation is reported without an error, unless it runs on
/// in the background.
pub proof fn errors_explain_failures(
    outcome: OperationOutcome,
    cancellation_requested: bool,
    completion_error: Option<Seq<char>>,
)
    ensures
        ({
            let (status, error) = settled_status(outcome, cancellation_requested, completion_error);
            status == RunStatus::Success <==> error is None
        }),
{
}

/// The surface status that a run status shows as.
pub open spec fn surface_status(status: RunStatus) -> SurfaceSubagentTerminalStatus {
    match status {
        RunStatus::Success => SurfaceSubagentTerminalStatus::Completed,
        RunStatus::Cancelled => SurfaceSubagentTerminalStatus::Cancelled,
        _ => SurfaceSubagentTerminalStatus::Failed,
    }
}

/// The payload that reports the end of a child.
pub fn publish_surface_terminal(
    status: RunStatus,
    output: Option<String>,
    error: Option<String>,
    usage: UsageTotals,
) -> (r: SubagentActivityPayload)
    ensures
        r == (SubagentActivityPayload::Completed {
            status: surface_status(status),
            output,
            error,
            usage: Some(usage),
        }),
{
    SubagentActivityPayload::Completed {
        status: match status {
            RunStatus::Success => SurfaceSubagentTerminalStatus::Completed,
            RunStatus::Cancelled => SurfaceSubagentTerminalStatus::Cancelled,
            RunStatus::Failed => SurfaceSubagentTerminalStatus::Failed,
            RunStatus::ApprovalRequired => SurfaceSubagentTerminalStatus::Failed,
            RunStatus::VerificationFailed => SurfaceSubagentTerminalStatus::Failed,
        },
        output,
        error,
        usage: Some(usage),
    }
}

#[derive(Clone, Copy, Debug, PartialEq, Eq, Structural)]
pub enum LaunchErrorKind {
    PermissionDenied,
    InvalidData,
    Other,
}

#[derive(Debug)]
pub struct LaunchError {
    pub kind: LaunchErrorKind,
    pub message: String,
}

pub ghost struct LaunchErrorView {
    pub kind: LaunchErrorKind,
    pub message: Seq<char>,
}

impl View for LaunchError {
    type V = LaunchErrorView;

    open spec fn view(&self) -> LaunchErrorView {
        LaunchErrorView { kind: self.kind, message: self.message@ }
    }
}

/// What is wrong with a thread identity: it is no UUID, or the surface does not
/// take it.
pub open spec fn binding_error(
    parsed: Result<Seq<u8>, Seq<char>>,
    surface: Result<(), String>,
) -> Option<LaunchErrorView> {
    match parsed {
        Err(e) => Some(
            LaunchErrorView {
                kind: LaunchErrorKind::InvalidData,
                message: "child runtime returned invalid thread id: "@ + e,
            },
        ),
        Ok(_) => match surface {
            Err(e) => Some(LaunchErrorView { kind: LaunchErrorKind::InvalidData, message: e@ }),
            Ok(_) => None,
        },
    }
}

/// The payload that binds a child's thread, given what parsing its identity
/// gave.
pub fn bind_parsed_thread(
    thread_id: String,
    parsed: Result<Vec<u8>, String>,
    surface: Result<(), String>,
) -> (r: Result<SubagentActivityPayload, LaunchError>)
    ensures
        ({
            let named = match parsed {
                Ok(bytes) => Ok::<Seq<u8>, Seq<char>>(bytes@),
                Err(e) => Err::<Seq<u8>, Seq<char>>(e@),
            };
            match r {
                Ok(payload) => binding_error(named, surface) is None && payload == (
                SubagentActivityPayload::ChildThreadBound { thread_id }),
                Err(e) => binding_error(named, surface) == Some(e@),
            }
        }),
{
    match parsed {
        Err(e) => Err(
            LaunchError {
                kind: LaunchErrorKind::InvalidData,
                message: plus("child runtime returned invalid thread id: ", e.as_str()),
            },
        ),
        Ok(_) => match surface {
            Err(e) => Err(LaunchError { kind: LaunchErrorKind::InvalidData, message: e }),
            Ok(_) => Ok(SubagentActivityPayload::ChildThreadBound { thread_id }),
        },
    }
}

/// The payload that binds a child's thread. `surface` is what the surface says
/// of the identity.
pub fn child_thread_bound(thread_id: String, surface: Result<(), String>) -> (r: Result<
    SubagentActivityPayload,
    LaunchError,
>)
    ensures
        match r {
            Ok(payload) => binding_error(parse_uuid_result(thread_id@), surface) is None && payload
                == (SubagentActivityPayload::ChildThreadBound { thread_id }),
            Err(e) => binding_error(parse_uuid_result(thread_id@), surface) == Some(e@),
        },
{
    let parsed = parse_uuid(thread_id.as_str());
    bind_parsed_thread(thread_id, parsed, surface)
}

/// The events of a child thread that are mirrored, and all others.
#[derive(Clone, Copy, Debug, PartialEq, Eq, Structural)]
pub enum EventType {
    TurnStarted,
    AssistantReasoningDelta,
    AssistantMessageDelta,
    ToolCallRequested,
    ToolCallCompleted,
    UsageUpdated,
    Other,
}

impl EventType {
    pub open spec fn name(self) -> Seq<char> {
        match self {
            EventType::TurnStarted => "TurnStarted"@,
            EventType::AssistantReasoningDelta => "AssistantReasoningDelta"@,
            EventType::AssistantMessageDelta => "AssistantMessageDelta"@,
            EventType::ToolCallRequested => "ToolCallRequested"@,
            EventType::ToolCallCompleted => "ToolCallCompleted"@,
            EventType::UsageUpdated => "UsageUpdated"@,
            EventType::Other => "Other"@,
        }
    }

    pub fn as_str(self) -> (r: &'static str)
        ensures
            r@ == self.name(),
    {
        match self {
            EventType::TurnStarted => "TurnStarted",
            EventType::AssistantReasoningDelta => "AssistantReasoningDelta",
            EventType::AssistantMessageDelta => "AssistantMessageDelta",
            EventType::ToolCallRequested => "ToolCallRequested",
            EventType::ToolCallCompleted => "ToolCallCompleted",
            EventType::UsageUpdated => "UsageUpdated",
            EventType::Other => "Other",
        }
    }
}

/// The index of the first member with a name, or the number of members.
pub open spec fn member_index(members: Seq<(String, JsonValue)>, name: Seq<char>) -> int
    decreases members.len(),
{
    if members.len() == 0 || members[0].0@ == name {
        0
    } else {
        1 + member_index(members.skip(1), name)
    }
}

/// The text member of an object.
pub open spec fn text_member(payload: JsonValue, name: Seq<char>) -> Option<String> {
    match payload {
        JsonValue::Object(members) => {
            let at = member_index(members@, name);
            if 0 <= at < members@.len() {
                match members@[at].1 {
                    JsonValue::Text(text) => Some(text),
                    _ => None,
                }
            } else {
                None
            }
        },
        _ => None,
    }
}

/// The number member of an object, where it is a natural number of 64 bits.
pub open spec fn natural_member(payload: JsonValue, name: Seq<char>) -> Option<u64> {
    match payload {
        JsonValue::Object(members) => {
            let at = member_index(members@, name);
            if 0 <= at < members@.len() {
                match members@[at].1 {
                    JsonValue::Number(text) => natural(text@),
                    _ => None,
                }
            } else {
                None
            }
        },
        _ => None,
    }
}

/// The characters are decimal digits.
pub open spec fn all_digits(text: Seq<char>) -> bool {
    forall|i: int| 0 <= i < text.len() ==> '0' <= #[trigger] text[i] <= '9'
}

/// The number that digits write.
pub open spec fn digits_value(text: Seq<char>) -> nat
    decreases text.len(),
{
    if text.len() == 0 {
        0
    } else {
        digits_value(text.drop_last()) * 10 + (text.last() as nat - '0' as nat) as nat
    }
}

/// The natural number of 64 bits that a text writes.
pub open spec fn natural(text: Seq<char>) -> Option<u64> {
    if text.len() > 0 && all_digits(text) && digits_value(text) <= u64::MAX {
        Some(digits_value(text) as u64)
    } else {
        None
    }
}

proof fn digits_value_grows(text: Seq<char>, n: int)
    requires
        0 <= n <= text.len(),
        all_digits(text),
    ensures
        digits_value(text.take(n)) <= digits_value(text),
    decreases text.len() - n,
{
    if n < text.len() {
        digits_value_grows(text, n + 1);
        assert(text.take(n + 1).drop_last() =~= text.take(n));
        assert('0' <= text[n] <= '9');
    } else {
        assert(text.take(n) =~= text);
    }
}

fn parse_natural(text: &str) -> (r: Option<u64>)
    ensures
        r == natural(text@),
{
    let v = characters(text);
    if v.len() == 0 {
        return None;
    }
    let mut i: usize = 0;
    while i < v.len()
        invariant
            i <= v.len(),
            v@ == text@,
            all_digits(text@.take(i as int)),
        decreases v.len() - i,
    {
        let c = v[i];
        if c < '0' || c > '9' {
            assert(!('0' <= text@[i as int] <= '9'));
            return None;
        }
        assert(text@.take(i + 1) =~= text@.take(i as int).push(text@[i as int]));
        i += 1;
    }
    assert(text@.take(i as int) =~= text@);
    let mut value: u64 = 0;
    let mut k: usize = 0;
    assert(text@.take(0) =~= Seq::<char>::empty());
    while k < v.len()
        invariant
            k <= v.len(),
            v@ == text@,
            all_digits(text@),
            text@.len() > 0,
            value == digits_value(text@.take(k as int)),
        decreases v.len() - k,
    {
        let c = v[k];
        assert('0' <= text@[k as int] <= '9');
        let digit: u64 = (c as u32 - '0' as u32) as u64;
        assert(text@.take(k + 1).drop_last() =~= text@.take(k as int));
        assert(text@.take(k + 1).last() == c);
        proof {
            digits_value_grows(text@, k + 1);
            assert(digits_value(text@.take(k + 1)) == value * 10 + digit);
        }
        if value > (u64::MAX - digit) / 10 {
            assert(value * 10 + digit > u64::MAX);
            return None;
        }
        value = value * 10 + digit;
        k += 1;
    }
    assert(text@.take(k as int) =~= text@);
    Some(value)
}

fn find_member(members: &Vec<(String, JsonValue)>, name: &str) -> (r: usize)
    ensures
        r == member_index(members@, name@),
        r <= members@.len(),
{
    let mut i: usize = 0;
    assert(members@.skip(0) =~= members@);
    while i < members.len()
        invariant
            i <= members.len(),
            member_index(members@, name@) == i + member_index(members@.skip(i as int), name@),
        decreases members.len() - i,
    {
        assert(members@.skip(i as int)[0] == members@[i as int]);
        if text_is(members[i].0.as_str(), name) {
            return i;
        }
        assert(members@.skip(i as int).skip(1) =~= members@.skip(i + 1));
        i += 1;
    }
    i
}

fn read_text(payload: &JsonValue, name: &str) -> (r: Option<String>)
    ensures
        r == text_member(*payload, name@),
{
    match payload {
        JsonValue::Object(members) => {
            let at: usize = find_member(members, name);
            if at < members.len() {
                match &members[at].1 {
                    JsonValue::Text(text) => Some(text.clone()),
                    _ => None,
                }
            } else {
                None
            }
        },
        _ => None,
    }
}

fn read_natural(payload: &JsonValue, name: &str) -> (r: Option<u64>)
    ensures
        r == natural_member(*payload, name@),
{
    match payload {
        JsonValue::Object(members) => {
            let at: usize = find_member(members, name);
            if at < members.len() {
                match &members[at].1 {
                    JsonValue::Number(text) => parse_natural(text.as_str()),
                    _ => None,
                }
            } else {
                None
            }
        },
        _ => None,
    }
}

pub open spec fn or_zero(n: Option<u64>) -> u64 {
    match n {
        Some(n) => n,
        None => 0,
    }
}

fn unwrap_or_zero(n: Option<u64>) -> (r: u64)
    ensures
        r == or_zero(n),
{
    match n {
        Some(n) => n,
        None => 0,
    }
}

/// What the status of a completed tool call means.
pub open spec fn call_status(status: Option<String>) -> RunStatus {
    match status {
        Some(status) => if status@ == "completed"@ {
            RunStatus::Success
        } else if status@ == "cancelled"@ {
            RunStatus::Cancelled
        } else {
            RunStatus::Failed
        },
        None => RunStatus::Failed,
    }
}

pub open spec fn missing_field(event_type: EventType, field: Seq<char>) -> Seq<char> {
    "threaded child event "@ + event_type.name() + " is missing string field '"@ + field + "'"@
}

/// The activity that an event of a child thread shows. `cost_usd_micros` is the
/// cost that the event reports.
pub open spec fn observed_activity(
    event_type: EventType,
    payload: JsonValue,
    cost_usd_micros: u64,
) -> Result<Option<ChildAgentActivity>, Seq<char>> {
    match event_type {
        EventType::TurnStarted => Ok(
            Some(
                ChildAgentActivity::TurnStarted {
                    turn: (or_zero(natural_member(payload, "turn"@)) % 4294967296) as u32,
                },
            ),
        ),
        EventType::AssistantReasoningDelta => Ok(Some(ChildAgentActivity::Streaming)),
        EventType::AssistantMessageDelta => Ok(Some(ChildAgentActivity::Streaming)),
        EventType::ToolCallRequested => match (
            text_member(payload, "id"@),
            text_member(payload, "name"@),
        ) {
            (None, _) => Err(missing_field(event_type, "id"@)),
            (_, None) => Err(missing_field(event_type, "name"@)),
            (Some(call_id), Some(name)) => Ok(
                Some(
                    ChildAgentActivity::ToolStarted {
                        call_id,
                        name,
                        target: text_member(payload, "target"@),
                    },
                ),
            ),
        },
        EventType::ToolCallCompleted => match (
            text_member(payload, "id"@),
            text_member(payload, "name"@),
        ) {
            (None, _) => Err(missing_field(event_type, "id"@)),
            (_, None) => Err(missing_field(event_type, "name"@)),
            (Some(call_id), Some(name)) => Ok(
                Some(
                    ChildAgentActivity::ToolCompleted {
                        call_id,
                        name,
                        status: call_status(text_member(payload, "status"@)),
                    },
                ),
            ),
        },
        EventType::UsageUpdated => Ok(
            Some(
                ChildAgentActivity::Usage(
                    UsageTotals {
                        input_tokens: or_zero(natural_member(payload, "input_tokens"@)),
                        output_tokens: or_zero(natural_member(payload, "output_tokens"@)),
                        cache_tokens: or_zero(natural_member(payload, "cache_tokens"@)),
                        cost_usd_micros,
                    },
                ),
            ),
        ),
        EventType::Other => Ok(None),
    }
}

fn missing_field_error(event_type: EventType, field: &str) -> (r: LaunchError)
    ensures
        r@ == (LaunchErrorView {
            kind: LaunchErrorKind::InvalidData,
            message: missing_field(event_type, field@),
        }),
{
    let head = plus("threaded child event ", event_type.as_str());
    let named = plus3(head.as_str(), " is missing string field '", field);
    LaunchError { kind: LaunchErrorKind::InvalidData, message: plus(named.as_str(), "'") }
}

/// Reads the activity off an event of a child thread.
pub fn observe(event_type: EventType, payload: &JsonValue, cost_usd_micros: u64) -> (r: Result<
    Option<ChildAgentActivity>,
    LaunchError,
>)
    ensures
        match r {
            Ok(activity) => observed_activity(event_type, *payload, cost_usd_micros) == Ok::<
                Option<ChildAgentActivity>,
                Seq<char>,
            >(activity),
            Err(e) => e.kind == LaunchErrorKind::InvalidData && observed_activity(
                event_type,
                *payload,
                cost_usd_micros,
            ) == Err::<Option<ChildAgentActivity>, Seq<char>>(e.message@),
        },
{
    match event_type {
        EventType::TurnStarted => {
            let turn: u64 = unwrap_or_zero(read_natural(payload, "turn"));
            Ok(Some(ChildAgentActivity::TurnStarted { turn: (turn % 4294967296) as u32 }))
        },
        EventType::AssistantReasoningDelta => Ok(Some(ChildAgentActivity::Streaming)),
        EventType::AssistantMessageDelta => Ok(Some(ChildAgentActivity::Streaming)),
        EventType::ToolCallRequested => {
            let call_id = match read_text(payload, "id") {
                Some(call_id) => call_id,
                None => {
                    return Err(missing_field_error(event_type, "id"));
                },
            };
            let name = match read_text(payload, "name") {
                Some(name) => name,
                None => {
                    return Err(missing_field_error(event_type, "name"));
                },
            };
            let target = read_text(payload, "target");
            Ok(Some(ChildAgentActivity::ToolStarted { call_id, name, target }))
        },
        EventType::ToolCallCompleted => {
            let call_id = match read_text(payload, "id") {
                Some(call_id) => call_id,
                None => {
                    return Err(missing_field_error(event_type, "id"));
                },
            };
            let name = match read_text(payload, "name") {
                Some(name) => name,
                None => {
                    return Err(missing_field_error(event_type, "name"));
                },
            };
            let status = match read_text(payload, "status") {
                Some(status) => if text_is(status.as_str(), "completed") {
                    RunStatus::Success
                } else if text_is(status.as_str(), "cancelled") {
                    RunStatus::Cancelled
                } else {
                    RunStatus::Failed
                },
                None => RunStatus::Failed,
            };
            Ok(Some(ChildAgentActivity::ToolCompleted { call_id, name, status }))
        },
        EventType::UsageUpdated => Ok(
            Some(
                ChildAgentActivity::Usage(
                    UsageTotals {
                        input_tokens: unwrap_or_zero(read_natural(payload, "input_tokens")),
                        output_tokens: unwrap_or_zero(read_natural(payload, "output_tokens")),
                        cache_tokens: unwrap_or_zero(read_natural(payload, "cache_tokens")),
                        cost_usd_micros,
                    },
                ),
            ),
        ),
        EventType::Other => Ok(None),
    }
}

/// The configuration of a child's thread. It records its own history, starts
/// without a prompt, and has the delegated model where one was given.
pub fn delegated_config<M, P>(config: RunConfig<M, P>, model: Option<M>) -> (r: RunConfig<M, P>)
    ensures
        r.prompt@.len() == 0,
        r == (RunConfig {
            history_mode: HistoryMode::Record,
            prompt: r.prompt,
            model: match model {
                Some(model) => model,
                None => config.model,
            },
            ..config
        }),
{
    let mut config = config;
    config.history_mode = HistoryMode::Record;
    config.prompt = String::new();
    if let Some(model) = model {
        config.model = model;
    }
    config
}

/// The context that a child thread is given before its first turn.
pub open spec fn child_context(suffix: Seq<char>) -> Seq<char> {
    "You are a delegated child agent. Work only on this delegated task and keep all tool activity in this thread."@
        + suffix
}

pub fn pinned_child_context(suffix: &str) -> (r: String)
    ensures
        r@ == child_context(suffix@),
{
    plus(
        "You are a delegated child agent. Work only on this delegated task and keep all tool activity in this thread.",
        suffix,
    )
}

/// What a launch waits for.
#[derive(Clone, Copy, Debug, PartialEq, Eq, Structural)]
pub enum LaunchPhase {
    /// The start of the child on the surface.
    Announcing,
    StartingThread,
    PinningContext,
    BindingThread,
    StartingTurn,
    SpawningWatcher,
    Settling,
    /// After a failure: the turn is interrupted,
    Interrupting,
    /// the end of the child goes on the surface,
    Reporting,
    /// and its thread is shut down.
    ShuttingDown,
    Done,
}

/// The launch of one agent.
#[derive(Debug)]
pub struct AgentLaunch {
    pub depth: u32,
    pub max_depth: u32,
    pub mode: AgentRunMode,
    /// The child is mirrored on its parent's surface.
    pub on_surface: bool,
    /// What parsing the delegated model gave, where one was given.
    pub model_error: Option<String>,
    pub thread_id: String,
    /// The child's thread runs.
    pub child_running: bool,
    /// The end of the child was put on the surface.
    pub reported: bool,
    /// Why the launch fails.
    pub error: Option<LaunchError>,
    /// It fails because the thread could not be put on the surface.
    pub binding_failed: bool,
    /// Why the end could not be put on the surface.
    pub commit_error: Option<String>,
    pub phase: LaunchPhase,
}

/// What a launch asks for.
#[derive(Debug)]
#[allow(inconsistent_fields)]
pub enum LaunchAction {
    PublishStarted,
    StartThread { depth: u32 },
    PinContext,
    BindThread { thread_id: String },
    StartTurn,
    SpawnWatcher,
    SettleTurn,
    InterruptChild,
    PublishFailure { message: String },
    ShutdownChild,
    Return { result: Result<AgentLaunchResult, LaunchError> },
}

/// What came of what a launch asked for.
#[derive(Debug)]
#[allow(inconsistent_fields)]
pub enum LaunchEvent {
    Done,
    ThreadStarted { thread_id: String },
    Settled { result: AgentLaunchResult },
    Failed { error: LaunchError },
}

#[allow(inconsistent_fields)]
pub ghost enum LaunchActionView {
    PublishStarted,
    StartThread { depth: u32 },
    PinContext,
    BindThread { thread_id: Seq<char> },
    StartTurn,
    SpawnWatcher,
    SettleTurn,
    InterruptChild,
    PublishFailure { message: Seq<char> },
    ShutdownChild,
    Launched { result: AgentLaunchResultView },
    Refused { error: LaunchErrorView },
}

impl View for LaunchAction {
    type V = LaunchActionView;

    open spec fn view(&self) -> LaunchActionView {
        match *self {
            LaunchAction::PublishStarted => LaunchActionView::PublishStarted,
            LaunchAction::StartThread { depth } => LaunchActionView::StartThread { depth },
            LaunchAction::PinContext => LaunchActionView::PinContext,
            LaunchAction::BindThread { thread_id } => LaunchActionView::BindThread {
                thread_id: thread_id@,
            },
            LaunchAction::StartTurn => LaunchActionView::StartTurn,
            LaunchAction::SpawnWatcher => LaunchActionView::SpawnWatcher,
            LaunchAction::SettleTurn => LaunchActionView::SettleTurn,
            LaunchAction::InterruptChild => LaunchActionView::InterruptChild,
            LaunchAction::PublishFailure { message } => LaunchActionView::PublishFailure {
                message: message@,
            },
            LaunchAction::ShutdownChild => LaunchActionView::ShutdownChild,
            LaunchAction::Return { result } => match result {
                Ok(result) => LaunchActionView::Launched { result: result@ },
                Err(e) => LaunchActionView::Refused { error: e@ },
            },
        }
    }
}

/// What a launch stands for.
pub ghost struct AgentLaunchView {
    pub depth: u32,
    pub max_depth: u32,
    pub mode: AgentRunMode,
    pub on_surface: bool,
    pub model_error: Option<Seq<char>>,
    pub thread_id: Seq<char>,
    pub child_running: bool,
    pub reported: bool,
    pub error: Option<LaunchErrorView>,
    pub binding_failed: bool,
    pub commit_error: Option<Seq<char>>,
    pub phase: LaunchPhase,
}

impl View for AgentLaunch {
    type V = AgentLaunchView;

    open spec fn view(&self) -> AgentLaunchView {
        AgentLaunchView {
            depth: self.depth,
            max_depth: self.max_depth,
            mode: self.mode,
            on_surface: self.on_surface,
            model_error: opt_chars(self.model_error),
            thread_id: self.thread_id@,
            child_running: self.child_running,
            reported: self.reported,
            error: match self.error {
                Some(e) => Some(e@),
                None => None,
            },
            binding_failed: self.binding_failed,
            commit_error: opt_chars(self.commit_error),
            phase: self.phase,
        }
    }
}

/// The result of a launch that runs on.
pub open spec fn running_result(thread_id: Seq<char>) -> AgentLaunchResultView {
    AgentLaunchResultView {
        thread_id,
        status: RunStatus::Success,
        final_message: None,
        error: None,
        usage: UsageTotals::zero_spec(),
        running: true,
    }
}

pub open spec fn other_error(message: Seq<char>) -> LaunchErrorView {
    LaunchErrorView { kind: LaunchErrorKind::Other, message }
}

impl AgentLaunchView {
    pub open spec fn at(self, phase: LaunchPhase) -> Self {
        AgentLaunchView { phase, ..self }
    }

    pub open spec fn failing(self, error: LaunchErrorView) -> Self {
        AgentLaunchView { error: Some(error), ..self }
    }

    /// The error that the caller gets, with what went wrong when the end of the
    /// child was reported.
    pub open spec fn refusal(self) -> LaunchErrorView {
        match self.commit_error {
            None => self.error->0,
            Some(e) => LaunchErrorView {
                kind: if self.binding_failed {
                    LaunchErrorKind::Other
                } else {
                    self.error->0.kind
                },
                message: self.error->0.message + "; surface terminal commit failed: "@ + e
                    + "; Inspect external state before retrying"@,
            },
        }
    }

    pub open spec fn refuse(self) -> (Self, LaunchActionView) {
        (self.at(LaunchPhase::Done), LaunchActionView::Refused { error: self.refusal() })
    }

    pub open spec fn shut_down(self) -> (Self, LaunchActionView) {
        (self.at(LaunchPhase::ShuttingDown), LaunchActionView::ShutdownChild)
    }

    /// Once a failure is reported, the thread is shut down if it runs.
    pub open spec fn after_report(self) -> (Self, LaunchActionView) {
        if self.child_running {
            self.shut_down()
        } else {
            self.refuse()
        }
    }

    /// A failure goes on the surface, where the child is on one.
    pub open spec fn report(self) -> (Self, LaunchActionView) {
        if self.on_surface {
            (
                AgentLaunchView { reported: true, phase: LaunchPhase::Reporting, ..self },
                LaunchActionView::PublishFailure { message: self.error->0.message },
            )
        } else {
            self.after_report()
        }
    }

    /// What follows once the child is announced: the depth and the model are
    /// checked before anything is started.
    pub open spec fn announced(self) -> (Self, LaunchActionView) {
        if self.depth >= self.max_depth {
            self.failing(
                LaunchErrorView {
                    kind: LaunchErrorKind::PermissionDenied,
                    message: "agent max depth "@ + decimal_of(self.max_depth as nat)
                        + " reached"@,
                },
            ).report()
        } else {
            match self.model_error {
                Some(e) => self.failing(
                    other_error("invalid delegated child model: "@ + e),
                ).report(),
                None => (
                    self.at(LaunchPhase::StartingThread),
                    LaunchActionView::StartThread { depth: (self.depth + 1) as u32 },
                ),
            }
        }
    }

    pub open spec fn start_turn(self) -> (Self, LaunchActionView) {
        (self.at(LaunchPhase::StartingTurn), LaunchActionView::StartTurn)
    }

    pub open spec fn after_done(self) -> (Self, LaunchActionView) {
        match self.phase {
            LaunchPhase::Announcing => self.announced(),
            LaunchPhase::PinningContext => if self.on_surface {
                (
                    self.at(LaunchPhase::BindingThread),
                    LaunchActionView::BindThread { thread_id: self.thread_id },
                )
            } else {
                self.start_turn()
            },
            LaunchPhase::BindingThread => self.start_turn(),
            LaunchPhase::StartingTurn => match self.mode {
                AgentRunMode::Async => (
                    self.at(LaunchPhase::SpawningWatcher),
                    LaunchActionView::SpawnWatcher,
                ),
                AgentRunMode::Sync => (
                    self.at(LaunchPhase::Settling),
                    LaunchActionView::SettleTurn,
                ),
            },
            LaunchPhase::SpawningWatcher => (
                self.at(LaunchPhase::Done),
                LaunchActionView::Launched { result: running_result(self.thread_id) },
            ),
            LaunchPhase::Interrupting => self.report(),
            LaunchPhase::Reporting => self.after_report(),
            _ => {
                let stopped = AgentLaunchView { child_running: false, ..self };
                if self.on_surface && !self.reported {
                    stopped.report()
                } else {
                    stopped.refuse()
                }
            },
        }
    }

    pub open spec fn after_failure(self, error: LaunchErrorView) -> (Self, LaunchActionView) {
        match self.phase {
            LaunchPhase::Announcing => self.failing(error).refuse(),
            LaunchPhase::StartingThread => self.failing(other_error(error.message)).report(),
            LaunchPhase::PinningContext => self.failing(other_error(error.message)).shut_down(),
            LaunchPhase::BindingThread => AgentLaunchView {
                binding_failed: true,
                ..self.failing(error)
            }.report(),
            LaunchPhase::StartingTurn => self.failing(other_error(error.message)).report(),
            LaunchPhase::SpawningWatcher => (
                self.failing(other_error("failed to watch agent: "@ + error.message)).at(
                    LaunchPhase::Interrupting,
                ),
                LaunchActionView::InterruptChild,
            ),
            LaunchPhase::Reporting => AgentLaunchView {
                commit_error: Some(error.message),
                ..self
            }.after_report(),
            _ => self.after_done(),
        }
    }

    /// What follows an event.
    pub open spec fn after(self, event: LaunchEvent) -> (Self, LaunchActionView) {
        match event {
            LaunchEvent::Done => self.after_done(),
            LaunchEvent::Failed { error } => self.after_failure(error@),
            LaunchEvent::ThreadStarted { thread_id } => (
                AgentLaunchView {
                    thread_id: thread_id@,
                    child_running: true,
                    phase: LaunchPhase::PinningContext,
                    ..self
                },
                LaunchActionView::PinContext,
            ),
            LaunchEvent::Settled { result } => (
                self.at(LaunchPhase::Done),
                LaunchActionView::Launched { result: result@ },
            ),
        }
    }

    /// An event answers what was asked for.
    pub open spec fn expects(self, event: LaunchEvent) -> bool {
        match event {
            LaunchEvent::Done => self.phase != LaunchPhase::StartingThread && self.phase
                != LaunchPhase::Settling && self.phase != LaunchPhase::Done,
            LaunchEvent::Failed { .. } => self.phase != LaunchPhase::Settling && self.phase
                != LaunchPhase::Done,
            LaunchEvent::ThreadStarted { .. } => self.phase == LaunchPhase::StartingThread,
            LaunchEvent::Settled { .. } => self.phase == LaunchPhase::Settling,
        }
    }

    /// The launch has failed and is being wound up.
    pub open spec fn winding_up(self) -> bool {
        self.phase == LaunchPhase::Interrupting || self.phase == LaunchPhase::Reporting
            || self.phase == LaunchPhase::ShuttingDown
    }

    /// What every launch keeps: there is an error exactly while it is wound up,
    /// a failure is reported on the surface only, and a thread runs once it was
    /// started until it is shut down.
    pub open spec fn wf(self) -> bool {
        &&& self.winding_up() ==> self.error is Some
        &&& !self.winding_up() && self.phase != LaunchPhase::Done ==> !self.reported
        &&& self.phase == LaunchPhase::Interrupting ==> !self.reported
        &&& self.reported ==> self.on_surface
        &&& self.phase == LaunchPhase::Reporting ==> self.reported
        &&& self.phase == LaunchPhase::Announcing || self.phase == LaunchPhase::StartingThread
            ==> !self.child_running
        &&& self.phase == LaunchPhase::Announcing ==> self.commit_error is None
    }

    /// A launch before its first request.
    pub open spec fn initial(
        depth: u32,
        max_depth: u32,
        mode: AgentRunMode,
        on_surface: bool,
        model_error: Option<Seq<char>>,
    ) -> Self {
        AgentLaunchView {
            depth,
            max_depth,
            mode,
            on_surface,
            model_error,
            thread_id: Seq::empty(),
            child_running: false,
            reported: false,
            error: None,
            binding_failed: false,
            commit_error: None,
            phase: LaunchPhase::Announcing,
        }
    }

    /// How a launch begins.
    pub open spec fn opening(self) -> (Self, LaunchActionView) {
        if self.on_surface {
            (self, LaunchActionView::PublishStarted)
        } else {
            self.announced()
        }
    }
}

impl AgentLaunch {
    /// Begins a launch. `depth` is that of the parent.
    pub fn start(
        depth: u32,
        max_depth: u32,
        mode: AgentRunMode,
        on_surface: bool,
        model_error: Option<String>,
    ) -> (r: (Self, LaunchAction))
        ensures
            (r.0@, r.1@) == AgentLaunchView::initial(
                depth,
                max_depth,
                mode,
                on_surface,
                opt_chars(model_error),
            ).opening(),
            r.0@.wf(),
    {
        let launch = AgentLaunch {
            depth,
            max_depth,
            mode,
            on_surface,
            model_error,
            thread_id: String::new(),
            child_running: false,
            reported: false,
            error: None,
            binding_failed: false,
            commit_error: None,
            phase: LaunchPhase::Announcing,
        };
        assert(launch.thread_id@ =~= Seq::<char>::empty());
        if on_surface {
            return (launch, LaunchAction::PublishStarted);
        }
        launch.go_on()
    }

    fn go_on(self) -> (r: (Self, LaunchAction))
        ensures
            (r.0@, r.1@) == self@.announced(),
    {
        if self.depth >= self.max_depth {
            let depth = decimal(self.max_depth as u64);
            let message = plus3("agent max depth ", depth.as_str(), " reached");
            return self.fail(
                LaunchError { kind: LaunchErrorKind::PermissionDenied, message },
            ).put_on_surface();
        }
        let model_error = clone_text(&self.model_error);
        match model_error {
            Some(e) => {
                let message = plus("invalid delegated child model: ", e.as_str());
                self.fail(
                    LaunchError { kind: LaunchErrorKind::Other, message },
                ).put_on_surface()
            },
            None => {
                let depth: u32 = self.depth + 1;
                (
                    AgentLaunch { phase: LaunchPhase::StartingThread, ..self },
                    LaunchAction::StartThread { depth },
                )
            },
        }
    }

    fn fail(self, error: LaunchError) -> (r: Self)
        ensures
            r@ == self@.failing(error@),
    {
        AgentLaunch { error: Some(error), ..self }
    }

    fn give_up(self) -> (r: (Self, LaunchAction))
        requires
            self@.error is Some,
        ensures
            (r.0@, r.1@) == self@.refuse(),
    {
        let error = match &self.error {
            Some(error) => match &self.commit_error {
                None => LaunchError { kind: error.kind, message: error.message.clone() },
                Some(e) => {
                    let head = plus3(
                        error.message.as_str(),
                        "; surface terminal commit failed: ",
                        e.as_str(),
                    );
                    LaunchError {
                        kind: if self.binding_failed {
                            LaunchErrorKind::Other
                        } else {
                            error.kind
                        },
                        message: plus(
                            head.as_str(),
                            "; Inspect external state before retrying",
                        ),
                    }
                },
            },
            None => vstd::pervasive::unreached(),
        };
        (
            AgentLaunch { phase: LaunchPhase::Done, ..self },
            LaunchAction::Return { result: Err(error) },
        )
    }

    fn stop_child(self) -> (r: (Self, LaunchAction))
        ensures
            (r.0@, r.1@) == self@.shut_down(),
    {
        (
            AgentLaunch { phase: LaunchPhase::ShuttingDown, ..self },
            LaunchAction::ShutdownChild,
        )
    }

    fn wind_up(self) -> (r: (Self, LaunchAction))
        requires
            self@.error is Some,
        ensures
            (r.0@, r.1@) == self@.after_report(),
    {
        if self.child_running {
            self.stop_child()
        } else {
            self.give_up()
        }
    }

    fn put_on_surface(self) -> (r: (Self, LaunchAction))
        requires
            self@.error is Some,
        ensures
            (r.0@, r.1@) == self@.report(),
    {
        if self.on_surface {
            let message = match &self.error {
                Some(error) => error.message.clone(),
                None => vstd::pervasive::unreached(),
            };
            (
                AgentLaunch { reported: true, phase: LaunchPhase::Reporting, ..self },
                LaunchAction::PublishFailure { message },
            )
        } else {
            self.wind_up()
        }
    }

    fn begin_turn(self) -> (r: (Self, LaunchAction))
        ensures
            (r.0@, r.1@) == self@.start_turn(),
    {
        (AgentLaunch { phase: LaunchPhase::StartingTurn, ..self }, LaunchAction::StartTurn)
    }

    fn proceed(self) -> (r: (Self, LaunchAction))
        requires
            self@.wf(),
            self.phase != LaunchPhase::StartingThread,
            self.phase != LaunchPhase::Settling,
            self.phase != LaunchPhase::Done,
        ensures
            (r.0@, r.1@) == self@.after_done(),
    {
        match self.phase {
            LaunchPhase::Announcing => self.go_on(),
            LaunchPhase::PinningContext => if self.on_surface {
                let thread_id = self.thread_id.clone();
                (
                    AgentLaunch { phase: LaunchPhase::BindingThread, ..self },
                    LaunchAction::BindThread { thread_id },
                )
            } else {
                self.begin_turn()
            },
            LaunchPhase::BindingThread => self.begin_turn(),
            LaunchPhase::StartingTurn => match self.mode {
                AgentRunMode::Async => (
                    AgentLaunch { phase: LaunchPhase::SpawningWatcher, ..self },
                    LaunchAction::SpawnWatcher,
                ),
                AgentRunMode::Sync => (
                    AgentLaunch { phase: LaunchPhase::Settling, ..self },
                    LaunchAction::SettleTurn,
                ),
            },
            LaunchPhase::SpawningWatcher => {
                let result = AgentLaunchResult {
                    thread_id: self.thread_id.clone(),
                    status: RunStatus::Success,
                    final_message: None,
                    error: None,
                    usage: UsageTotals::zero(),
                    running: true,
                };
                (
                    AgentLaunch { phase: LaunchPhase::Done, ..self },
                    LaunchAction::Return { result: Ok(result) },
                )
            },
            LaunchPhase::Interrupting => self.put_on_surface(),
            LaunchPhase::Reporting => self.wind_up(),
            _ => {
                let pending = self.on_surface && !self.reported;
                let stopped = AgentLaunch { child_running: false, ..self };
                if pending {
                    stopped.put_on_surface()
                } else {
                    stopped.give_up()
                }
            },
        }
    }

    fn recover(self, error: LaunchError) -> (r: (Self, LaunchAction))
        requires
            self@.wf(),
            self.phase != LaunchPhase::Settling,
            self.phase != LaunchPhase::Done,
        ensures
            (r.0@, r.1@) == self@.after_failure(error@),
    {
        match self.phase {
            LaunchPhase::Announcing => self.fail(error).give_up(),
            LaunchPhase::StartingThread => self.fail(
                LaunchError { kind: LaunchErrorKind::Other, message: error.message },
            ).put_on_surface(),
            LaunchPhase::PinningContext => self.fail(
                LaunchError { kind: LaunchErrorKind::Other, message: error.message },
            ).stop_child(),
            LaunchPhase::BindingThread => {
                let failed = AgentLaunch { binding_failed: true, ..self.fail(error) };
                failed.put_on_surface()
            },
            LaunchPhase::StartingTurn => self.fail(
                LaunchError { kind: LaunchErrorKind::Other, message: error.message },
            ).put_on_surface(),
            LaunchPhase::SpawningWatcher => {
                let message = plus("failed to watch agent: ", error.message.as_str());
                let failed = self.fail(LaunchError { kind: LaunchErrorKind::Other, message });
                (
                    AgentLaunch { phase: LaunchPhase::Interrupting, ..failed },
                    LaunchAction::InterruptChild,
                )
            },
            LaunchPhase::Reporting => {
                let failed = AgentLaunch { commit_error: Some(error.message), ..self };
                failed.wind_up()
            },
            _ => self.proceed(),
        }
    }

    /// Moves on after an event.
    pub fn next(self, event: LaunchEvent) -> (r: (Self, LaunchAction))
        requires
            self@.wf(),
            self@.expects(event),
        ensures
            (r.0@, r.1@) == self@.after(event),
            r.0@.wf(),
    {
        match event {
            LaunchEvent::Done => self.proceed(),
            LaunchEvent::Failed { error } => self.recover(error),
            LaunchEvent::ThreadStarted { thread_id } => (
                AgentLaunch {
                    thread_id,
                    child_running: true,
                    phase: LaunchPhase::PinningContext,
                    ..self
                },
                LaunchAction::PinContext,
            ),
            LaunchEvent::Settled { result } => (
                AgentLaunch { phase: LaunchPhase::Done, ..self },
                LaunchAction::Return { result: Ok(result) },
            ),
        }
    }
}

/// A launch that fails leaves no thread behind.
pub proof fn failed_launches_leave_no_thread(launch: AgentLaunchView, event: LaunchEvent)
    requires
        launch.wf(),
        launch.expects(event),
        launch.after(event).1 is Refused,
    ensures
        !launch.after(event).0.child_running,
{
}

/// A child that was announced on the surface and fails is reported there before
/// the failure is returned.
pub proof fn announced_failures_are_reported(launch: AgentLaunchView, event: LaunchEvent)
    requires
        launch.wf(),
        launch.expects(event),
        launch.on_surface,
        launch.phase != LaunchPhase::Announcing || event is Done,
        launch.after(event).1 is Refused,
    ensures
        launch.after(event).0.reported,
{
}

/// The end of a child goes on the surface once.
pub proof fn failures_are_reported_once(launch: AgentLaunchView, event: LaunchEvent)
    requires
        launch.wf(),
        launch.expects(event),
        launch.after(event).1 is PublishFailure,
    ensures
        !launch.reported,
        launch.after(event).0.reported,
{
}

/// No agent is started below the greatest depth.
pub proof fn depth_is_bounded(launch: AgentLaunchView)
    requires
        launch.announced().1 is StartThread,
    ensures
        launch.announced().1->depth <= launch.max_depth,
        launch.announced().1->depth == launch.depth + 1,
{
}

/// An agent has succeeded exactly if its turn did or went on in the background,
/// and nobody cancelled it; it is cancelled exactly if somebody did or it was
/// stopped; it failed where its turn failed, could not run or panicked. Each
/// failure carries its own message.
pub proof fn agents_settle_as_their_turn(
    outcome: OperationOutcome,
    cancellation_requested: bool,
    completion_error: Option<Seq<char>>,
)
    ensures
        ({
            let (status, error) = settled_status(outcome, cancellation_requested, completion_error);
            &&& status == RunStatus::Success <==> !cancellation_requested && (outcome
                == OperationOutcome::Completed(RunStatus::Success) || outcome is Backgrounded)
            &&& status == RunStatus::Cancelled <==> cancellation_requested || outcome is Stopped
                || outcome == OperationOutcome::Completed(RunStatus::Cancelled)
            &&& status == RunStatus::ApprovalRequired <==> !cancellation_requested && outcome
                == OperationOutcome::Completed(RunStatus::ApprovalRequired)
            &&& status == RunStatus::VerificationFailed <==> !cancellation_requested && outcome
                == OperationOutcome::Completed(RunStatus::VerificationFailed)
            &&& status == RunStatus::Failed <==> !cancellation_requested && (outcome
                == OperationOutcome::Completed(RunStatus::Failed) || outcome is ExecutionFailed
                || outcome is Panicked)
            &&& !cancellation_requested ==> (
            outcome matches OperationOutcome::ExecutionFailed { message } ==> error == Some(
                message@,
            ))
            &&& !cancellation_requested ==> (outcome matches OperationOutcome::Panicked { message }
                ==> error == Some(message@))
            &&& !cancellation_requested && (outcome == OperationOutcome::Completed(
                RunStatus::Failed,
            ) || outcome == OperationOutcome::Completed(RunStatus::VerificationFailed)) ==> (
            completion_error is Some ==> error == completion_error)
        }),
{
}

/// The message of an agent is the last thing that it said: the last text of an
/// assistant's message, whatever came behind it without one.
pub proof fn the_last_text_is_the_answer(messages: Seq<MessageView>, i: int)
    requires
        0 <= i < messages.len(),
        messages[i] is Assistant,
        messages[i]->Assistant_content is Some,
        forall|j: int|
            i < j < messages.len() ==> !((#[trigger] messages[j]) is Assistant
                && messages[j]->Assistant_content is Some),
    ensures
        last_said(messages) == messages[i]->Assistant_content,
    decreases messages.len(),
{
    if i < messages.len() - 1 {
        let last = messages[messages.len() - 1];
        assert(!(last is Assistant && last->Assistant_content is Some));
        let front = messages.drop_last();
        assert(front[i] == messages[i]);
        assert forall|j: int| i < j < front.len() implies !((#[trigger] front[j]) is Assistant
            && front[j]->Assistant_content is Some) by {
            assert(front[j] == messages[j]);
        }
        the_last_text_is_the_answer(front, i);
    }
}

/// A settled agent is reported with its thread, its usage and its last text, and
/// no longer runs.
pub proof fn settled_agents_report_their_thread(
    thread_id: Seq<char>,
    outcome: OperationOutcome,
    cancellation_requested: bool,
    snapshot: Option<ThreadSnapshot>,
)
    ensures
        ({
            let result = settled(thread_id, outcome, cancellation_requested, snapshot);
            &&& result.thread_id == thread_id
            &&& !result.running
            &&& snapshot matches Some(taken) ==> result.usage == taken.usage
                && result.final_message == last_said(message_views(taken.messages@))
            &&& snapshot is None ==> result.usage.input_tokens == 0 && result.usage.output_tokens
                == 0 && result.usage.cost_usd_micros == 0 && result.final_message is None
            &&& (result.status, result.error) == settled_status(
                outcome,
                cancellation_requested,
                match snapshot {
                    Some(taken) => opt_chars(taken.completion_error),
                    None => None,
                },
            )
        }),
{
}

/// The surface shows an agent as completed exactly if it succeeded and as
/// cancelled exactly if it was; every other end is a failure there.
pub proof fn surfaces_show_failures_as_failures(status: RunStatus)
    ensures
        surface_status(status) == SurfaceSubagentTerminalStatus::Completed <==> status
            == RunStatus::Success,
        surface_status(status) == SurfaceSubagentTerminalStatus::Cancelled <==> status
            == RunStatus::Cancelled,
        surface_status(status) == SurfaceSubagentTerminalStatus::Failed <==> status
            == RunStatus::Failed || status == RunStatus::ApprovalRequired || status
            == RunStatus::VerificationFailed,
{
}

/// Decimal digits are read from the left: each further one counts tenfold what
/// came before and adds itself.
pub proof fn digits_are_read_in_order(text: Seq<char>, digit: char)
    requires
        '0' <= digit <= '9',
    ensures
        digits_value(Seq::<char>::empty()) == 0,
        digits_value(text.push(digit)) == 10 * digits_value(text) + (digit as int - '0' as int),
        natural(Seq::<char>::empty()) is None,
        natural(text) matches Some(n) ==> n == digits_value(text),
{
    assert(text.push(digit).drop_last() =~= text);
}

/// The member that is read is the first of its name.
pub proof fn the_first_member_is_read(members: Seq<(String, JsonValue)>, name: Seq<char>, i: int)
    requires
        0 <= i < members.len(),
        members[i].0@ == name,
        forall|j: int| 0 <= j < i ==> (#[trigger] members[j]).0@ != name,
    ensures
        member_index(members, name) == i,
    decreases members.len(),
{
    if i > 0 {
        assert(members[0].0@ != name);
        assert(members.skip(1)[i - 1] == members[i]);
        assert forall|j: int| 0 <= j < i - 1 implies (#[trigger] members.skip(1)[j]).0@ != name by {
            assert(members.skip(1)[j] == members[j + 1]);
        }
        the_first_member_is_read(members.skip(1), name, i - 1);
    }
}

/// An event of a child becomes an activity of its kind, with what its payload
/// says: a turn, a call by its identity and name, the end of a call, or usage.
/// Whatever streams is streaming, and other events are none.
pub proof fn events_become_activities_of_their_kind(
    event_type: EventType,
    payload: JsonValue,
    cost_usd_micros: u64,
)
    ensures
        ({
            let observed = observed_activity(event_type, payload, cost_usd_micros);
            &&& observed matches Ok(activity) ==> {
                &&& event_type == EventType::Other <==> activity is None
                &&& activity matches Some(ChildAgentActivity::TurnStarted { turn }) ==> event_type
                    == EventType::TurnStarted && (natural_member(payload, "turn"@) matches Some(n)
                    ==> (n <= u32::MAX ==> turn == n))
                &&& activity matches Some(ChildAgentActivity::ToolStarted {
                    call_id,
                    name,
                    target,
                }) ==> event_type == EventType::ToolCallRequested && text_member(payload, "id"@)
                    == Some(call_id) && text_member(payload, "name"@) == Some(name) && text_member(
                    payload,
                    "target"@,
                ) == target
                &&& activity matches Some(ChildAgentActivity::ToolCompleted {
                    call_id,
                    name,
                    status,
                }) ==> event_type == EventType::ToolCallCompleted && text_member(payload, "id"@)
                    == Some(call_id) && text_member(payload, "name"@) == Some(name) && (status
                    == RunStatus::Success <==> (text_member(payload, "status"@) matches Some(text)
                    && text@ == "completed"@)) && (text_member(payload, "status"@) is None
                    ==> status == RunStatus::Failed)
                &&& activity matches Some(ChildAgentActivity::Usage(totals)) ==> event_type
                    == EventType::UsageUpdated && totals.cost_usd_micros == cost_usd_micros && (
                natural_member(payload, "input_tokens"@) matches Some(n) ==> totals.input_tokens
                    == n) && (natural_member(payload, "output_tokens"@) matches Some(n)
                    ==> totals.output_tokens == n) && (natural_member(
                    payload,
                    "cache_tokens"@,
                ) matches Some(n) ==> totals.cache_tokens == n)
                &&& activity == Some(ChildAgentActivity::Streaming) <==> event_type
                    == EventType::AssistantReasoningDelta || event_type
                    == EventType::AssistantMessageDelta
            }
            &&& observed is Err <==> (event_type == EventType::ToolCallRequested || event_type
                == EventType::ToolCallCompleted) && (text_member(payload, "id"@) is None
                || text_member(payload, "name"@) is None)
        }),
{
}

/// A launch within its depth and with a model that parses starts the child one
/// level deeper, pins its context, puts its thread on the surface where there is
/// one, starts its turn, and then waits for it or leaves it to a watcher.
pub proof fn launches_go_step_by_step(launch: AgentLaunchView, thread_id: String)
    requires
        launch.wf(),
    ensures
        launch.phase == LaunchPhase::Announcing && launch.depth < launch.max_depth
            && launch.model_error is None ==> launch.after(LaunchEvent::Done).1 == (
        LaunchActionView::StartThread { depth: (launch.depth + 1) as u32 }),
        launch.phase == LaunchPhase::Announcing && (launch.depth >= launch.max_depth
            || launch.model_error is Some) ==> !(launch.after(LaunchEvent::Done).1 is StartThread),
        ({
            let (next, action) = launch.after(LaunchEvent::ThreadStarted { thread_id });
            &&& action == LaunchActionView::PinContext
            &&& next.thread_id == thread_id@
            &&& next.child_running
            &&& next.phase == LaunchPhase::PinningContext
        }),
        launch.phase == LaunchPhase::PinningContext && launch.on_surface ==> launch.after(
            LaunchEvent::Done,
        ).1 == (LaunchActionView::BindThread { thread_id: launch.thread_id }),
        launch.phase == LaunchPhase::PinningContext && !launch.on_surface ==> launch.after(
            LaunchEvent::Done,
        ).1 == LaunchActionView::StartTurn,
        launch.phase == LaunchPhase::BindingThread ==> launch.after(LaunchEvent::Done).1
            == LaunchActionView::StartTurn,
        launch.phase == LaunchPhase::StartingTurn && launch.mode == AgentRunMode::Sync
            ==> launch.after(LaunchEvent::Done).1 == LaunchActionView::SettleTurn,
        launch.phase == LaunchPhase::StartingTurn && launch.mode == AgentRunMode::Async
            ==> launch.after(LaunchEvent::Done).1 == LaunchActionView::SpawnWatcher,
        launch.phase == LaunchPhase::SpawningWatcher ==> (launch.after(
            LaunchEvent::Done,
        ).1 matches LaunchActionView::Launched { result } && result.running && result.thread_id
            == launch.thread_id && result.error is None && result.final_message is None),
{
}

/// A launch that fails says so with the error that it failed of, and a settled one
/// with the result that it settled with. No launch succeeds after a failure.
pub proof fn launches_return_what_happened(launch: AgentLaunchView, event: LaunchEvent)
    requires
        launch.wf(),
        launch.expects(event),
    ensures
        event matches LaunchEvent::Settled { result } ==> launch.after(event).1 == (
        LaunchActionView::Launched { result: result@ }),
        launch.after(event).1 is Launched ==> event is Settled || launch.phase
            == LaunchPhase::SpawningWatcher && event is Done,
        launch.phase == LaunchPhase::Announcing ==> (event matches LaunchEvent::Failed { error }
            ==> (launch.after(event).1 matches LaunchActionView::Refused { error: shown } && shown
            == error@)),
        event matches LaunchEvent::Failed { error } ==> (launch.phase
            == LaunchPhase::StartingThread || launch.phase == LaunchPhase::PinningContext
            || launch.phase == LaunchPhase::BindingThread || launch.phase
            == LaunchPhase::StartingTurn ==> (launch.after(event).0.error matches Some(kept)
            && kept.message == error@.message)),
        launch.after(event).1 matches LaunchActionView::Refused { error } ==> (
        launch.after(event).0.commit_error is None ==> launch.after(event).0.error == Some(error)),
        launch.after(event).1 matches LaunchActionView::PublishFailure { message } ==> (
        launch.after(event).0.error matches Some(kept) && kept.message == message),
        launch.winding_up() && launch.child_running && (launch.after(event).1 is Refused) ==> launch.phase
            == LaunchPhase::ShuttingDown,
{
}

/// A launch waits for what it asked for last, and for nothing once it has returned.
/// Its setting does not change on the way.
pub proof fn launches_wait_for_what_they_asked(launch: AgentLaunchView, event: LaunchEvent)
    requires
        launch.wf(),
        launch.expects(event),
    ensures
        ({
            let (next, action) = launch.after(event);
            &&& match action {
                LaunchActionView::PublishStarted => false,
                LaunchActionView::StartThread { .. } => next.phase == LaunchPhase::StartingThread,
                LaunchActionView::PinContext => next.phase == LaunchPhase::PinningContext,
                LaunchActionView::BindThread { .. } => next.phase == LaunchPhase::BindingThread,
                LaunchActionView::StartTurn => next.phase == LaunchPhase::StartingTurn,
                LaunchActionView::SpawnWatcher => next.phase == LaunchPhase::SpawningWatcher,
                LaunchActionView::SettleTurn => next.phase == LaunchPhase::Settling,
                LaunchActionView::InterruptChild => next.phase == LaunchPhase::Interrupting,
                LaunchActionView::PublishFailure { .. } => next.phase == LaunchPhase::Reporting
                    && next.reported && launch.on_surface,
                LaunchActionView::ShutdownChild => next.phase == LaunchPhase::ShuttingDown,
                LaunchActionView::Launched { .. } => next.phase == LaunchPhase::Done,
                LaunchActionView::Refused { .. } => next.phase == LaunchPhase::Done,
            }
            &&& next.depth == launch.depth
            &&& next.max_depth == launch.max_depth
            &&& next.mode == launch.mode
            &&& next.on_surface == launch.on_surface
            &&& !(event is ThreadStarted) ==> next.thread_id == launch.thread_id
            &&& launch.reported ==> next.reported && !(action is PublishFailure)
        }),
{
}

/// A launch that fails is wound up in order: a child that cannot be watched is
/// interrupted, the failure is shown once where the child is on a surface, a thread
/// that runs is shut down, and only then is the launch refused.
pub proof fn failed_launches_are_wound_up(launch: AgentLaunchView, event: LaunchEvent)
    requires
        launch.wf(),
        launch.expects(event),
    ensures
        ({
            let (next, action) = launch.after(event);
            &&& launch.phase == LaunchPhase::SpawningWatcher && event is Failed ==> action
                == LaunchActionView::InterruptChild
            &&& launch.phase == LaunchPhase::Interrupting ==> (if launch.on_surface {
                action is PublishFailure
            } else if launch.child_running {
                action is ShutdownChild
            } else {
                action is Refused
            })
            &&& launch.phase == LaunchPhase::Reporting ==> (if launch.child_running {
                action is ShutdownChild
            } else {
                action is Refused
            })
            &&& launch.phase == LaunchPhase::PinningContext && event is Failed ==> action
                == LaunchActionView::ShutdownChild
            &&& launch.phase == LaunchPhase::ShuttingDown ==> !next.child_running && (
            if launch.on_surface && !launch.reported {
                action is PublishFailure
            } else {
                action is Refused
            })
            &&& (launch.phase == LaunchPhase::BindingThread || launch.phase
                == LaunchPhase::StartingTurn) && event is Failed && launch.on_surface
                ==> action is PublishFailure
            &&& launch.phase == LaunchPhase::StartingThread && event is Failed ==> (
            if launch.on_surface {
                action is PublishFailure
            } else {
                action is Refused
            })
            &&& action is Refused ==> !next.child_running || launch.phase
                == LaunchPhase::Announcing
        }),
{
}

/// A launch opens with nothing started and nothing wrong. On a surface the child is
/// announced first; elsewhere the thread starts at once, one level below its parent,
/// unless the depth or the model forbids it.
pub proof fn launches_open_with_their_announcement(
    depth: u32,
    max_depth: u32,
    mode: AgentRunMode,
    on_surface: bool,
    model_error: Option<Seq<char>>,
)
    ensures
        ({
            let (first, action) = AgentLaunchView::initial(
                depth,
                max_depth,
                mode,
                on_surface,
                model_error,
            ).opening();
            &&& first.wf()
            &&& !first.child_running
            &&& first.mode == mode
            &&& first.depth == depth
            &&& on_surface ==> action == LaunchActionView::PublishStarted && first.phase
                == LaunchPhase::Announcing && first.error is None
            &&& !on_surface && depth < max_depth && model_error is None ==> action == (
            LaunchActionView::StartThread { depth: (depth + 1) as u32 }) && first.phase
                == LaunchPhase::StartingThread && first.error is None
            &&& !on_surface && (depth >= max_depth || model_error is Some) ==> action is Refused
                && first.phase == LaunchPhase::Done && first.error is Some
        }),
{
}

} // verus!
