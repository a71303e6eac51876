//! Running headless: relaying events, answering interactions, and the end of
//! the operation.

use std::sync::atomic::AtomicBool;
use std::sync::Arc;
use vstd::prelude::*;
use vstd::string::*;
use vstd::utf8::{decode_utf8, valid_utf8};
use crate::command::config::OutputFormat;
use crate::runtime_types::RunStatus;
use crate::text::{characters, opt_chars, plus, text_is};

verus! {

/// How long a headless callback may take, in milliseconds, unless set otherwise.
pub const DEFAULT_HEADLESS_INTERACTION_TIMEOUT_MS: u64 = 30000;

/// A question to the client.
#[derive(Debug)]
#[allow(inconsistent_fields)]
pub enum SurfaceInteractionRequest {
    ToolApproval,
    PermissionRequest { permissions: String },
    UserInput,
    McpElicitation,
    BackgroundApproval,
}

/// A question and the selector by which it is answered.
#[derive(Debug)]
pub struct HeadlessInteractionCheckpoint {
    pub selector: String,
    pub request: SurfaceInteractionRequest,
}

impl HeadlessInteractionCheckpoint {
    pub fn duplicate(&self) -> (r: Self)
        ensures
            r == *self,
    {
        HeadlessInteractionCheckpoint {
            selector: self.selector.clone(),
            request: match &self.request {
                SurfaceInteractionRequest::ToolApproval => SurfaceInteractionRequest::ToolApproval,
                SurfaceInteractionRequest::PermissionRequest { permissions } => {
                    SurfaceInteractionRequest::PermissionRequest {
                        permissions: permissions.clone(),
                    }
                },
                SurfaceInteractionRequest::UserInput => SurfaceInteractionRequest::UserInput,
                SurfaceInteractionRequest::McpElicitation => {
                    SurfaceInteractionRequest::McpElicitation
                },
                SurfaceInteractionRequest::BackgroundApproval => {
                    SurfaceInteractionRequest::BackgroundApproval
                },
            },
        }
    }
}

#[derive(Clone, Copy, Debug, PartialEq, Eq, Structural)]
pub enum SurfaceAllowDeny {
    Allow,
    Deny,
}

#[derive(Clone, Copy, Debug, PartialEq, Eq, Structural)]
pub enum SurfaceGrantScope {
    Turn,
    Session,
}

#[derive(Debug)]
#[allow(inconsistent_fields)]
pub enum SurfacePermissionClientDecision {
    Allow { scope: SurfaceGrantScope, permissions: String, strict_auto_review: bool },
    Deny { scope: SurfaceGrantScope, permissions: String, strict_auto_review: bool },
}

#[derive(Debug)]
pub enum SurfaceUserInputDecision {
    Submit(String),
    Cancel,
}

#[derive(Debug)]
pub enum SurfaceMcpElicitationDecision {
    Accept(String),
    Decline,
}

/// The client's answer.
#[derive(Debug)]
#[allow(inconsistent_fields)]
pub enum SurfaceClientInteractionAnswer {
    ToolApproval { decision: SurfaceAllowDeny },
    PermissionRequest { decision: SurfacePermissionClientDecision },
    UserInput { decision: SurfaceUserInputDecision },
    McpElicitation { decision: SurfaceMcpElicitationDecision },
}

/// Answers the questions of a headless run.
pub trait HeadlessInteractionHandler {
    fn handle(&self, checkpoint: &HeadlessInteractionCheckpoint) -> Result<
        SurfaceClientInteractionAnswer,
        String,
    >;
}

/// A handler, the time that it may take, and what is known of its callbacks.
/// Clones share all but the time, so that what one run learns of the handler
/// holds in every other.
#[derive(Debug)]
pub struct HeadlessInteractionTransport<H> {
    pub handler: Arc<H>,
    pub timeout_ms: u64,
    /// A callback runs.
    pub callback_in_flight: Arc<AtomicBool>,
    /// A callback took too long and the handler is not asked again.
    pub callback_unavailable: Arc<AtomicBool>,
}

impl<H> Clone for HeadlessInteractionTransport<H> {
    fn clone(&self) -> (r: Self)
        ensures
            r == *self,
    {
        HeadlessInteractionTransport {
            handler: self.handler.clone(),
            timeout_ms: self.timeout_ms,
            callback_in_flight: self.callback_in_flight.clone(),
            callback_unavailable: self.callback_unavailable.clone(),
        }
    }
}

impl<H: HeadlessInteractionHandler> HeadlessInteractionTransport<H> {
    /// A transport whose handler was not asked yet: both flags are made unset.
    pub fn new(handler: H) -> (r: Self)
        ensures
            *r.handler == handler,
            r.timeout_ms == DEFAULT_HEADLESS_INTERACTION_TIMEOUT_MS,
            call_ensures(AtomicBool::new, (false,), *r.callback_in_flight),
            call_ensures(AtomicBool::new, (false,), *r.callback_unavailable),
    {
        let callback_in_flight = AtomicBool::new(false);
        let callback_unavailable = AtomicBool::new(false);
        HeadlessInteractionTransport {
            handler: Arc::new(handler),
            timeout_ms: DEFAULT_HEADLESS_INTERACTION_TIMEOUT_MS,
            callback_in_flight: Arc::new(callback_in_flight),
            callback_unavailable: Arc::new(callback_unavailable),
        }
    }

    /// The same transport with another time: the handler and both flags are
    /// those of this one.
    pub fn with_timeout(self, timeout_ms: u64) -> (r: Self)
        ensures
            r == (HeadlessInteractionTransport { timeout_ms, ..self }),
    {
        HeadlessInteractionTransport { timeout_ms, ..self }
    }

    /// Asks the handler the question, and gives its answer if that fits;
    /// otherwise the answer that grants nothing.
    pub fn answer(&self, checkpoint: &HeadlessInteractionCheckpoint) -> (r: Result<
        SurfaceClientInteractionAnswer,
        RelayError,
    >)
        ensures
            exists|handled: Result<SurfaceClientInteractionAnswer, String>|
                call_ensures(H::handle, (&*self.handler, checkpoint), handled)
                    && #[trigger] settles(checkpoint.request, handled, r),
    {
        let handled = self.handler.handle(checkpoint);
        settle_headless_answer(checkpoint, handled)
    }
}

/// What a question is answered with once the handler came back: the answer of
/// the handler if it fits, otherwise the one that grants nothing. A question
/// that has no such answer is refused.
pub open spec fn settles(
    request: SurfaceInteractionRequest,
    handled: Result<SurfaceClientInteractionAnswer, String>,
    r: Result<SurfaceClientInteractionAnswer, RelayError>,
) -> bool {
    if handled matches Ok(answer) && answers(request, answer) {
        r matches Ok(answer) && handled == Ok::<SurfaceClientInteractionAnswer, String>(answer)
    } else {
        match closed_answer(request) {
            Some(closed) => r == Ok::<SurfaceClientInteractionAnswer, RelayError>(closed),
            None => r matches Err(e) && background_refused(e),
        }
    }
}

/// Takes what the handler came back with.
pub fn settle_headless_answer(
    checkpoint: &HeadlessInteractionCheckpoint,
    handled: Result<SurfaceClientInteractionAnswer, String>,
) -> (r: Result<SurfaceClientInteractionAnswer, RelayError>)
    ensures
        settles(checkpoint.request, handled, r),
{
    match handled {
        Ok(answer) => if headless_answer_matches(checkpoint, &answer) {
            Ok(answer)
        } else {
            fail_closed_headless_answer(checkpoint)
        },
        Err(_) => fail_closed_headless_answer(checkpoint),
    }
}

/// An answer is of the kind that the question asks for.
pub open spec fn answers(
    request: SurfaceInteractionRequest,
    answer: SurfaceClientInteractionAnswer,
) -> bool {
    match request {
        SurfaceInteractionRequest::ToolApproval => answer is ToolApproval,
        SurfaceInteractionRequest::PermissionRequest { .. } => answer is PermissionRequest,
        SurfaceInteractionRequest::UserInput => answer is UserInput,
        SurfaceInteractionRequest::McpElicitation => answer is McpElicitation,
        SurfaceInteractionRequest::BackgroundApproval => false,
    }
}

pub fn headless_answer_matches(
    checkpoint: &HeadlessInteractionCheckpoint,
    answer: &SurfaceClientInteractionAnswer,
) -> (r: bool)
    ensures
        r == answers(checkpoint.request, *answer),
{
    match (&checkpoint.request, answer) {
        (
            SurfaceInteractionRequest::ToolApproval,
            SurfaceClientInteractionAnswer::ToolApproval { .. },
        ) => true,
        (
            SurfaceInteractionRequest::PermissionRequest { .. },
            SurfaceClientInteractionAnswer::PermissionRequest { .. },
        ) => true,
        (
            SurfaceInteractionRequest::UserInput,
            SurfaceClientInteractionAnswer::UserInput { .. },
        ) => true,
        (
            SurfaceInteractionRequest::McpElicitation,
            SurfaceClientInteractionAnswer::McpElicitation { .. },
        ) => true,
        _ => false,
    }
}

#[derive(Clone, Copy, Debug, PartialEq, Eq, Structural)]
pub enum RelayErrorKind {
    BrokenPipe,
    InvalidData,
    Other,
}

/// An error as it travels between the relay and the writer of events.
#[derive(Debug)]
pub struct RelayError {
    pub kind: RelayErrorKind,
    pub message: String,
}

impl RelayError {
    pub fn duplicate(&self) -> (r: Self)
        ensures
            r == *self,
    {
        RelayError { kind: self.kind, message: self.message.clone() }
    }
}

pub open spec fn background_refused(e: RelayError) -> bool {
    e.kind == RelayErrorKind::InvalidData && e.message@
        == "Headless transport does not accept background approvals"@
}

/// The answer that grants nothing.
pub open spec fn closed_answer(request: SurfaceInteractionRequest) -> Option<
    SurfaceClientInteractionAnswer,
> {
    match request {
        SurfaceInteractionRequest::ToolApproval => Some(
            SurfaceClientInteractionAnswer::ToolApproval { decision: SurfaceAllowDeny::Deny },
        ),
        SurfaceInteractionRequest::PermissionRequest { permissions } => Some(
            SurfaceClientInteractionAnswer::PermissionRequest {
                decision: SurfacePermissionClientDecision::Deny {
                    scope: SurfaceGrantScope::Turn,
                    permissions,
                    strict_auto_review: false,
                },
            },
        ),
        SurfaceInteractionRequest::UserInput => Some(
            SurfaceClientInteractionAnswer::UserInput {
                decision: SurfaceUserInputDecision::Cancel,
            },
        ),
        SurfaceInteractionRequest::McpElicitation => Some(
            SurfaceClientInteractionAnswer::McpElicitation {
                decision: SurfaceMcpElicitationDecision::Decline,
            },
        ),
        SurfaceInteractionRequest::BackgroundApproval => None,
    }
}

pub fn fail_closed_headless_answer(checkpoint: &HeadlessInteractionCheckpoint) -> (r: Result<
    SurfaceClientInteractionAnswer,
    RelayError,
>)
    ensures
        match r {
            Ok(answer) => closed_answer(checkpoint.request) == Some(answer),
            Err(e) => closed_answer(checkpoint.request) is None && background_refused(e),
        },
{
    match &checkpoint.request {
        SurfaceInteractionRequest::ToolApproval => Ok(
            SurfaceClientInteractionAnswer::ToolApproval { decision: SurfaceAllowDeny::Deny },
        ),
        SurfaceInteractionRequest::PermissionRequest { permissions } => Ok(
            SurfaceClientInteractionAnswer::PermissionRequest {
                decision: SurfacePermissionClientDecision::Deny {
                    scope: SurfaceGrantScope::Turn,
                    permissions: permissions.clone(),
                    strict_auto_review: false,
                },
            },
        ),
        SurfaceInteractionRequest::UserInput => Ok(
            SurfaceClientInteractionAnswer::UserInput {
                decision: SurfaceUserInputDecision::Cancel,
            },
        ),
        SurfaceInteractionRequest::McpElicitation => Ok(
            SurfaceClientInteractionAnswer::McpElicitation {
                decision: SurfaceMcpElicitationDecision::Decline,
            },
        ),
        SurfaceInteractionRequest::BackgroundApproval => Err(
            RelayError {
                kind: RelayErrorKind::InvalidData,
                message: "Headless transport does not accept background approvals".to_owned(),
            },
        ),
    }
}

/// The answer that grants nothing is always one that the question takes.
pub proof fn closed_answers_fit(request: SurfaceInteractionRequest)
    ensures
        closed_answer(request) matches Some(answer) ==> answers(request, answer),
        closed_answer(request) is None <==> request is BackgroundApproval,
{
}

/// Gathers the bytes of events until they are flushed as one chunk.
#[derive(Debug)]
pub struct HostedEventRelayWriter {
    pub buffer: Vec<u8>,
}

impl HostedEventRelayWriter {
    pub fn new() -> (r: Self)
        ensures
            r.buffer@.len() == 0,
    {
        HostedEventRelayWriter { buffer: Vec::new() }
    }

    pub fn write(&mut self, bytes: &Vec<u8>) -> (r: usize)
        ensures
            final(self).buffer@ == old(self).buffer@ + bytes@,
            r == bytes@.len(),
    {
        let ghost before = self.buffer@;
        let mut i: usize = 0;
        while i < bytes.len()
            invariant
                i <= bytes.len(),
                self.buffer@ == before + bytes@.take(i as int),
            decreases bytes.len() - i,
        {
            self.buffer.push(bytes[i]);
            assert(self.buffer@ =~= before + bytes@.take(i + 1));
            i += 1;
        }
        assert(bytes@.take(i as int) =~= bytes@);
        bytes.len()
    }

    /// The chunk to send, where anything was written.
    pub fn take_chunk(&mut self) -> (r: Option<Vec<u8>>)
        ensures
            final(self).buffer@.len() == 0,
            match r {
                Some(chunk) => old(self).buffer@.len() > 0 && chunk@ == old(self).buffer@,
                None => old(self).buffer@.len() == 0,
            },
    {
        if self.buffer.len() == 0 {
            return None;
        }
        let mut chunk: Vec<u8> = Vec::new();
        let ghost before = self.buffer@;
        chunk.append(&mut self.buffer);
        assert(chunk@ =~= before);
        Some(chunk)
    }

    /// What a flush comes to: whether the chunk was sent, and what the relay
    /// acknowledged.
    pub fn flush_result(sent: bool, acknowledged: Option<Result<(), RelayError>>) -> (r: Result<
        (),
        RelayError,
    >)
        ensures
            if !sent {
                r matches Err(e) && e.kind == RelayErrorKind::BrokenPipe && e.message@
                    == "hosted event relay disconnected"@
            } else {
                match acknowledged {
                    None => r matches Err(e) && e.kind == RelayErrorKind::BrokenPipe && e.message@
                        == "hosted event relay acknowledgement closed"@,
                    Some(result) => r == result,
                }
            },
    {
        if !sent {
            return Err(
                RelayError {
                    kind: RelayErrorKind::BrokenPipe,
                    message: "hosted event relay disconnected".to_owned(),
                },
            );
        }
        match acknowledged {
            None => Err(
                RelayError {
                    kind: RelayErrorKind::BrokenPipe,
                    message: "hosted event relay acknowledgement closed".to_owned(),
                },
            ),
            Some(result) => result,
        }
    }
}

/// Calls `std::str::from_utf8` and copies the text. It succeeds exactly on
/// valid UTF-8, and the text is what the bytes encode.
#[verifier::external_body]
fn utf8_text(bytes: &Vec<u8>) -> (r: Option<String>)
    ensures
        match r {
            Some(text) => valid_utf8(bytes@) && text@ == decode_utf8(bytes@),
            None => !valid_utf8(bytes@),
        },
{
    std::str::from_utf8(bytes).ok().map(|text| text.to_owned())
}

/// The text of a member of the JSON object that a line holds, where it holds one
/// with a text there.
pub uninterp spec fn member_text(line: Seq<char>, member: Seq<char>) -> Option<Seq<char>>;

/// Calls `serde_json::from_str` and picks the text of a member of the value. The
/// result depends on the line and the member's name alone.
#[verifier::external_body]
fn decode_member(line: &str, member: &str) -> (r: Option<String>)
    ensures
        opt_chars(r) == member_text(line@, member@),
{
    let event: serde_json::Value = serde_json::from_str(line).ok()?;
    event[member].as_str().map(|text| text.to_owned())
}

/// The place of the first line feed, or the length of the text.
pub open spec fn line_feed(text: Seq<char>) -> nat
    decreases text.len(),
{
    if text.len() == 0 || text[0] == '\n' {
        0
    } else {
        1 + line_feed(text.skip(1))
    }
}

/// A line that ended with a line feed, without the carriage return before it.
pub open spec fn without_return(line: Seq<char>) -> Seq<char> {
    if line.len() > 0 && line.last() == '\r' {
        line.drop_last()
    } else {
        line
    }
}

/// The lines of a text. Each ends with a line feed, with or without a carriage
/// return before it, or with the text.
pub open spec fn lines_of(text: Seq<char>) -> Seq<Seq<char>>
    decreases text.len(),
{
    let at = line_feed(text);
    if text.len() == 0 {
        Seq::empty()
    } else if at >= text.len() {
        seq![text]
    } else {
        seq![without_return(text.take(at as int))] + lines_of(text.skip(at as int + 1))
    }
}

proof fn line_feed_bound(text: Seq<char>)
    ensures
        line_feed(text) <= text.len(),
        line_feed(text) < text.len() ==> text[line_feed(text) as int] == '\n',
        forall|i: int| 0 <= i < line_feed(text) ==> #[trigger] text[i] != '\n',
    decreases text.len(),
{
    if text.len() > 0 && text[0] != '\n' {
        line_feed_bound(text.skip(1));
        assert forall|i: int| 0 <= i < line_feed(text) implies #[trigger] text[i] != '\n' by {
            if i > 0 {
                assert(text[i] == text.skip(1)[i - 1]);
            }
        }
    }
}

proof fn line_feed_is(text: Seq<char>, at: int)
    requires
        0 <= at <= text.len(),
        forall|i: int| 0 <= i < at ==> #[trigger] text[i] != '\n',
        at < text.len() ==> text[at] == '\n',
    ensures
        line_feed(text) == at,
    decreases text.len(),
{
    if at > 0 {
        assert(text[0] != '\n');
        assert forall|i: int| 0 <= i < at - 1 implies #[trigger] text.skip(1)[i] != '\n' by {
            assert(text[i + 1] != '\n');
        }
        line_feed_is(text.skip(1), at - 1);
    }
}

/// A line reports that the session started.
pub open spec fn starts_session(line: Seq<char>) -> bool {
    member_text(line, "type"@) == Some("session.started"@)
}

/// Some line of a chunk reports that the session started.
pub open spec fn chunk_starts_session(bytes: Seq<u8>) -> bool {
    valid_utf8(bytes) && exists|i: int|
        0 <= i < lines_of(decode_utf8(bytes)).len() && starts_session(
            #[trigger] lines_of(decode_utf8(bytes))[i],
        )
}

/// Whether the type of an event is that of a started session.
pub fn is_session_started(event_type: &Option<String>) -> (r: bool)
    ensures
        r == (opt_chars(*event_type) == Some("session.started"@)),
{
    match event_type {
        Some(text) => text_is(text.as_str(), "session.started"),
        None => false,
    }
}

fn text_starts_session(text: &str) -> (r: bool)
    ensures
        r == (exists|i: int|
            0 <= i < lines_of(text@).len() && starts_session(#[trigger] lines_of(text@)[i])),
{
    let v = characters(text);
    let mut from: usize = 0;
    assert(text@.skip(0) =~= text@);
    while from < v.len()
        invariant
            from <= v.len(),
            v@ == text@,
            (exists|i: int|
                0 <= i < lines_of(text@).len() && starts_session(#[trigger] lines_of(text@)[i]))
                == (exists|i: int|
                0 <= i < lines_of(text@.skip(from as int)).len() && starts_session(
                    #[trigger] lines_of(text@.skip(from as int))[i],
                )),
        decreases v.len() - from,
    {
        let ghost rest = text@.skip(from as int);
        let ghost lines = lines_of(rest);
        let mut at: usize = from;
        while at < v.len() && v[at] != '\n'
            invariant
                from <= at <= v.len(),
                v@ == text@,
                rest == text@.skip(from as int),
                forall|i: int| 0 <= i < at - from ==> #[trigger] rest[i] != '\n',
            decreases v.len() - at,
        {
            assert(rest[at - from] == v@[at as int]);
            at += 1;
        }
        proof {
            if at < v@.len() {
                assert(rest[at - from] == v@[at as int]);
            }
            line_feed_is(rest, at - from);
        }
        if at == v.len() {
            let line = text.substring_char(from, at);
            assert(line@ =~= rest);
            let found = is_session_started(&decode_member(line, "type"));
            proof {
                assert(lines == seq![rest]);
                if found {
                    assert(starts_session(lines[0]));
                } else {
                    assert forall|i: int| 0 <= i < lines.len() implies !starts_session(
                        #[trigger] lines[i],
                    ) by {}
                }
            }
            return found;
        }
        let mut to: usize = at;
        if to > from && v[to - 1] == '\r' {
            to -= 1;
        }
        let line = text.substring_char(from, to);
        let ghost after = text@.skip(at + 1);
        proof {
            assert(rest.take(at - from) =~= v@.subrange(from as int, at as int));
            assert(line@ =~= without_return(rest.take(at - from)));
            assert(rest.skip(at - from + 1) =~= after);
            assert(lines == seq![line@] + lines_of(after));
            assert(lines[0] == line@);
        }
        if is_session_started(&decode_member(line, "type")) {
            assert(starts_session(lines[0]));
            return true;
        }
        proof {
            let more = lines_of(after);
            if exists|i: int| 0 <= i < lines.len() && starts_session(#[trigger] lines[i]) {
                let i = choose|i: int| 0 <= i < lines.len() && starts_session(#[trigger] lines[i]);
                assert(i > 0);
                assert(more[i - 1] == lines[i]);
            }
            if exists|i: int| 0 <= i < more.len() && starts_session(#[trigger] more[i]) {
                let i = choose|i: int| 0 <= i < more.len() && starts_session(#[trigger] more[i]);
                assert(lines[i + 1] == more[i]);
            }
        }
        from = at + 1;
    }
    assert(text@.skip(from as int) =~= Seq::<char>::empty());
    false
}

/// Whether a chunk reports that the session started.
pub fn headless_chunk_contains_session_started(bytes: &Vec<u8>) -> (r: bool)
    ensures
        r == chunk_starts_session(bytes@),
{
    match utf8_text(bytes) {
        Some(text) => text_starts_session(text.as_str()),
        None => false,
    }
}

/// How an operation ended, as the surface shows it.
#[derive(Clone, Copy, Debug, PartialEq, Eq, Structural)]
pub enum SurfaceFailureClass {
    LegacyApprovalRequired,
    Verification,
    Runtime,
}

#[derive(Clone, Copy, Debug, PartialEq, Eq, Structural)]
pub enum SurfaceOperationTerminal {
    Succeeded,
    Cancelled,
    Failed { class: SurfaceFailureClass },
    BudgetExhausted,
    Interrupted,
}

pub open spec fn terminal_status(terminal: SurfaceOperationTerminal) -> RunStatus {
    match terminal {
        SurfaceOperationTerminal::Succeeded => RunStatus::Success,
        SurfaceOperationTerminal::Cancelled => RunStatus::Cancelled,
        SurfaceOperationTerminal::Failed { class } => match class {
            SurfaceFailureClass::LegacyApprovalRequired => RunStatus::ApprovalRequired,
            SurfaceFailureClass::Verification => RunStatus::VerificationFailed,
            SurfaceFailureClass::Runtime => RunStatus::Failed,
        },
        SurfaceOperationTerminal::BudgetExhausted => RunStatus::Failed,
        SurfaceOperationTerminal::Interrupted => RunStatus::Failed,
    }
}

pub fn headless_operation_status(terminal: SurfaceOperationTerminal) -> (r: RunStatus)
    ensures
        r == terminal_status(terminal),
        r == RunStatus::Success <==> terminal is Succeeded,
        r == RunStatus::Cancelled <==> terminal is Cancelled,
{
    match terminal {
        SurfaceOperationTerminal::Succeeded => RunStatus::Success,
        SurfaceOperationTerminal::Cancelled => RunStatus::Cancelled,
        SurfaceOperationTerminal::Failed { class } => match class {
            SurfaceFailureClass::LegacyApprovalRequired => RunStatus::ApprovalRequired,
            SurfaceFailureClass::Verification => RunStatus::VerificationFailed,
            SurfaceFailureClass::Runtime => RunStatus::Failed,
        },
        SurfaceOperationTerminal::BudgetExhausted => RunStatus::Failed,
        SurfaceOperationTerminal::Interrupted => RunStatus::Failed,
    }
}

/// The exit code of a run. An exhausted budget has its own; any other end has
/// that of its status.
pub fn headless_operation_exit_code(
    terminal: SurfaceOperationTerminal,
    status_exit_code: i32,
) -> (r: i32)
    ensures
        r == (if terminal == SurfaceOperationTerminal::BudgetExhausted {
            4
        } else {
            status_exit_code as int
        }),
{
    match terminal {
        SurfaceOperationTerminal::BudgetExhausted => 4,
        _ => status_exit_code,
    }
}

/// What a run says when it ends: how to go on, unless it succeeded.
pub fn continuation_hint(
    output_format: OutputFormat,
    status: RunStatus,
    session_id: &Option<String>,
) -> (r: Option<String>)
    ensures
        if output_format == OutputFormat::Text && status != RunStatus::Success
            && session_id is Some {
            r matches Some(hint) && hint@
                == "To continue this session, run: orca exec resume "@ + session_id->0@
        } else {
            r is None
        },
{
    match output_format {
        OutputFormat::Jsonl => None,
        OutputFormat::Text => {
            if status == RunStatus::Success {
                return None;
            }
            match session_id {
                Some(id) => Some(
                    plus("To continue this session, run: orca exec resume ", id.as_str()),
                ),
                None => None,
            }
        },
    }
}

/// What a desktop notification says of a run that ended.
pub fn notification_text(status: RunStatus) -> (r: String)
    ensures
        r@ == "Session "@ + status.text(),
{
    plus("Session ", status.as_str())
}

/// What a relay waits for.
#[derive(Clone, Copy, Debug, PartialEq, Eq, Structural)]
pub enum RelayPhase {
    PollingInteraction,
    /// The answer that grants nothing, before anybody was asked.
    Declining,
    PollingAnswer,
    Responding,
    Receiving,
    AcknowledgingBuffered,
    Writing,
    WritingBuffered,
    Acknowledging,
    AcknowledgingFailure,
    PollingTerminal,
    Done,
}

/// The relay of a headless run.
#[derive(Debug)]
pub struct HeadlessRelay {
    /// There is somebody to ask.
    pub interactive: bool,
    /// A callback took too long, in this run or before it, and the handler is
    /// not asked again. The transport is marked with it.
    pub callback_unavailable: bool,
    /// The question that waits for its answer.
    pub pending: Option<HeadlessInteractionCheckpoint>,
    /// The start of the session has been written, or need not come first.
    pub session_started_written: bool,
    /// What came before the start of the session.
    pub before_session_started: Vec<Vec<u8>>,
    pub error: Option<RelayError>,
    pub phase: RelayPhase,
}

/// What a relay asks for.
#[derive(Debug)]
#[allow(inconsistent_fields)]
pub enum RelayAction {
    PollInteraction,
    /// Ask in the background.
    SpawnCallback { checkpoint: HeadlessInteractionCheckpoint },
    PollAnswer,
    Respond { checkpoint: HeadlessInteractionCheckpoint, answer: SurfaceClientInteractionAnswer },
    ReceiveChunk,
    Write { bytes: Vec<u8> },
    WriteAll { chunks: Vec<Vec<u8>> },
    Acknowledge { result: Result<(), RelayError> },
    PollTerminal,
    Return { result: Result<SurfaceOperationTerminal, RelayError> },
}

/// What came of a callback.
#[derive(Debug)]
pub enum AnswerPoll {
    Answered(SurfaceClientInteractionAnswer),
    /// The callback failed or went away.
    Broken,
    Waiting { expired: bool },
}

/// What came of what a relay asked for.
#[derive(Debug)]
#[allow(inconsistent_fields)]
pub enum RelayEvent {
    /// The next question, if any, and the flags of the transport: whether a
    /// callback was given up, in this run or in another, and whether one still
    /// runs.
    Interaction {
        checkpoint: Option<HeadlessInteractionCheckpoint>,
        callback_unavailable: bool,
        callback_in_flight: bool,
    },
    Answer { poll: AnswerPoll },
    Chunk { bytes: Option<Vec<u8>> },
    Done,
    Terminal { terminal: Option<SurfaceOperationTerminal> },
    Failed { error: RelayError },
}

/// The start of a session comes first, or need not.
pub open spec fn to_write(relay: HeadlessRelay, bytes: Seq<u8>) -> bool {
    relay.session_started_written || chunk_starts_session(bytes)
}

impl HeadlessRelay {
    pub open spec fn at(self, phase: RelayPhase) -> Self {
        HeadlessRelay { phase, ..self }
    }

    /// One round begins: questions first, where there is somebody to ask.
    pub open spec fn round(self) -> (RelayPhase, RelayAction) {
        if !self.interactive {
            (RelayPhase::Receiving, RelayAction::ReceiveChunk)
        } else if self.pending is Some {
            (RelayPhase::PollingAnswer, RelayAction::PollAnswer)
        } else {
            (RelayPhase::PollingInteraction, RelayAction::PollInteraction)
        }
    }

    /// An event answers what was asked for.
    pub open spec fn expects(self, event: RelayEvent) -> bool {
        match event {
            RelayEvent::Interaction { .. } => self.phase == RelayPhase::PollingInteraction,
            RelayEvent::Answer { .. } => self.phase == RelayPhase::PollingAnswer,
            RelayEvent::Chunk { .. } => self.phase == RelayPhase::Receiving,
            RelayEvent::Done => self.phase == RelayPhase::Declining || self.phase
                == RelayPhase::Responding || self.phase == RelayPhase::AcknowledgingBuffered
                || self.phase == RelayPhase::Writing || self.phase == RelayPhase::WritingBuffered
                || self.phase == RelayPhase::Acknowledging || self.phase
                == RelayPhase::AcknowledgingFailure,
            RelayEvent::Terminal { .. } => self.phase == RelayPhase::PollingTerminal,
            RelayEvent::Failed { .. } => self.phase == RelayPhase::PollingInteraction || self.phase
                == RelayPhase::Declining || self.phase == RelayPhase::Responding || self.phase
                == RelayPhase::Writing || self.phase == RelayPhase::WritingBuffered || self.phase
                == RelayPhase::PollingTerminal,
        }
    }

    /// What every relay keeps.
    pub open spec fn wf(self) -> bool {
        &&& self.phase == RelayPhase::PollingAnswer ==> self.pending is Some
        &&& self.phase == RelayPhase::AcknowledgingFailure ==> self.error is Some
        &&& self.pending is Some ==> self.interactive
        &&& self.phase == RelayPhase::PollingInteraction ==> self.interactive
        &&& self.phase == RelayPhase::PollingInteraction || self.phase == RelayPhase::Declining
            || self.phase == RelayPhase::Responding ==> self.pending is None
    }

    /// What one round begins with.
    pub open spec fn begins_round(before: Self, after: Self, action: RelayAction) -> bool {
        let (phase, asked) = before.round();
        after == before.at(phase) && action == asked
    }

    pub open spec fn ends_with(before: Self, after: Self, action: RelayAction, result: Result<
        SurfaceOperationTerminal,
        RelayError,
    >) -> bool {
        after == before.at(RelayPhase::Done) && action == (RelayAction::Return { result })
    }

    /// A question is answered with what grants nothing, or cannot be answered
    /// at all.
    pub open spec fn declines(
        before: Self,
        after: Self,
        action: RelayAction,
        checkpoint: HeadlessInteractionCheckpoint,
        phase: RelayPhase,
    ) -> bool {
        match closed_answer(checkpoint.request) {
            Some(answer) => after == before.at(phase) && action == (RelayAction::Respond {
                checkpoint,
                answer,
            }),
            None => after == before.at(RelayPhase::Done) && (
            action matches RelayAction::Return { result: Err(e) } && background_refused(e)),
        }
    }

    /// A question came, or none.
    pub open spec fn after_interaction(
        before: Self,
        checkpoint: Option<HeadlessInteractionCheckpoint>,
        callback_unavailable: bool,
        callback_in_flight: bool,
        after: Self,
        action: RelayAction,
    ) -> bool {
        match checkpoint {
            None => after == before.at(RelayPhase::Receiving) && action
                == RelayAction::ReceiveChunk,
            Some(checkpoint) => if before.callback_unavailable || callback_unavailable
                || callback_in_flight {
                Self::declines(before, after, action, checkpoint, RelayPhase::Declining)
            } else {
                after == (HeadlessRelay {
                    pending: Some(checkpoint),
                    phase: RelayPhase::PollingAnswer,
                    ..before
                }) && action == (RelayAction::SpawnCallback { checkpoint })
            },
        }
    }

    /// The callback was looked at.
    pub open spec fn after_answer(
        before: Self,
        poll: AnswerPoll,
        after: Self,
        action: RelayAction,
    ) -> bool {
        let checkpoint = before.pending->0;
        let settled = HeadlessRelay { pending: None, ..before };
        match poll {
            AnswerPoll::Waiting { expired } => if expired {
                Self::declines(
                    (HeadlessRelay { callback_unavailable: true, ..settled }),
                    after,
                    action,
                    checkpoint,
                    RelayPhase::Responding,
                )
            } else {
                after == before.at(RelayPhase::Receiving) && action == RelayAction::ReceiveChunk
            },
            AnswerPoll::Broken => Self::declines(
                settled,
                after,
                action,
                checkpoint,
                RelayPhase::Responding,
            ),
            AnswerPoll::Answered(answer) => if answers(checkpoint.request, answer) {
                after == settled.at(RelayPhase::Responding) && action == (RelayAction::Respond {
                    checkpoint,
                    answer,
                })
            } else {
                Self::declines(settled, after, action, checkpoint, RelayPhase::Responding)
            },
        }
    }

    /// A chunk came, or none.
    pub open spec fn after_chunk(
        before: Self,
        bytes: Option<Vec<u8>>,
        after: Self,
        action: RelayAction,
    ) -> bool {
        match bytes {
            None => after == before.at(RelayPhase::PollingTerminal) && action
                == RelayAction::PollTerminal,
            Some(bytes) => if to_write(before, bytes@) {
                after == before.at(RelayPhase::Writing) && action == (RelayAction::Write { bytes })
            } else {
                &&& after.before_session_started@ == before.before_session_started@.push(bytes)
                &&& after == (HeadlessRelay {
                    before_session_started: after.before_session_started,
                    phase: RelayPhase::AcknowledgingBuffered,
                    ..before
                })
                &&& action == (RelayAction::Acknowledge { result: Ok(()) })
            },
        }
    }

    /// What was asked for is done.
    pub open spec fn after_done(before: Self, after: Self, action: RelayAction) -> bool {
        match before.phase {
            RelayPhase::Writing => if before.session_started_written {
                after == before.at(RelayPhase::Acknowledging) && action == (
                RelayAction::Acknowledge { result: Ok(()) })
            } else {
                &&& after.before_session_started@.len() == 0
                &&& after == (HeadlessRelay {
                    session_started_written: true,
                    before_session_started: after.before_session_started,
                    phase: RelayPhase::WritingBuffered,
                    ..before
                })
                &&& action == (RelayAction::WriteAll { chunks: before.before_session_started })
            },
            RelayPhase::WritingBuffered => after == before.at(RelayPhase::Acknowledging) && action
                == (RelayAction::Acknowledge { result: Ok(()) }),
            RelayPhase::Acknowledging => after == before.at(RelayPhase::PollingTerminal) && action
                == RelayAction::PollTerminal,
            RelayPhase::AcknowledgingFailure => {
                &&& after == (HeadlessRelay { error: None, phase: RelayPhase::Done, ..before })
                &&& action == (RelayAction::Return { result: Err(before.error->0) })
            },
            RelayPhase::AcknowledgingBuffered => Self::begins_round(before, after, action),
            _ => after == before.at(RelayPhase::Receiving) && action == RelayAction::ReceiveChunk,
        }
    }

    /// What follows an event. A failed write is acknowledged as such before it
    /// ends the relay; any other failure ends it at once.
    pub open spec fn follows(before: Self, event: RelayEvent, after: Self, action: RelayAction) -> bool {
        match event {
            RelayEvent::Interaction { checkpoint, callback_unavailable, callback_in_flight } =>
                Self::after_interaction(
                before,
                checkpoint,
                callback_unavailable,
                callback_in_flight,
                after,
                action,
            ),
            RelayEvent::Answer { poll } => Self::after_answer(before, poll, after, action),
            RelayEvent::Chunk { bytes } => Self::after_chunk(before, bytes, after, action),
            RelayEvent::Done => Self::after_done(before, after, action),
            RelayEvent::Terminal { terminal } => match terminal {
                Some(terminal) => Self::ends_with(before, after, action, Ok(terminal)),
                None => Self::begins_round(before, after, action),
            },
            RelayEvent::Failed { error } => if before.phase == RelayPhase::Writing {
                after == (HeadlessRelay {
                    error: Some(error),
                    phase: RelayPhase::AcknowledgingFailure,
                    ..before
                }) && action == (RelayAction::Acknowledge { result: Err(error) })
            } else {
                Self::ends_with(before, after, action, Err(error))
            },
        }
    }

    /// A relay that has done nothing yet, and its first action.
    pub open spec fn started(relay: Self, action: RelayAction) -> bool {
        &&& relay.pending is None
        &&& relay.before_session_started@.len() == 0
        &&& relay.error is None
        &&& relay.phase == (if relay.interactive {
            RelayPhase::PollingInteraction
        } else {
            RelayPhase::Receiving
        })
        &&& action == (if relay.interactive {
            RelayAction::PollInteraction
        } else {
            RelayAction::ReceiveChunk
        })
    }

    /// Begins a relay, on a transport whose callback may have been given up
    /// before. If the start of the session must come first, what comes before it
    /// is held back.
    pub fn start(
        interactive: bool,
        callback_unavailable: bool,
        preserve_session_boundary: bool,
    ) -> (r: (Self, RelayAction))
        ensures
            Self::started(r.0, r.1),
            r.0.interactive == interactive,
            r.0.callback_unavailable == callback_unavailable,
            r.0.session_started_written == !preserve_session_boundary,
            r.0.wf(),
    {
        let relay = HeadlessRelay {
            interactive,
            callback_unavailable,
            pending: None,
            session_started_written: !preserve_session_boundary,
            before_session_started: Vec::new(),
            error: None,
            phase: RelayPhase::Receiving,
        };
        relay.next_round()
    }

    fn next_round(self) -> (r: (Self, RelayAction))
        ensures
            Self::begins_round(self, r.0, r.1),
    {
        if !self.interactive {
            return (
                HeadlessRelay { phase: RelayPhase::Receiving, ..self },
                RelayAction::ReceiveChunk,
            );
        }
        if self.pending.is_some() {
            (
                HeadlessRelay { phase: RelayPhase::PollingAnswer, ..self },
                RelayAction::PollAnswer,
            )
        } else {
            (
                HeadlessRelay { phase: RelayPhase::PollingInteraction, ..self },
                RelayAction::PollInteraction,
            )
        }
    }

    fn decline(self, checkpoint: HeadlessInteractionCheckpoint, phase: RelayPhase) -> (r: (
        Self,
        RelayAction,
    ))
        ensures
            Self::declines(self, r.0, r.1, checkpoint, phase),
    {
        match fail_closed_headless_answer(&checkpoint) {
            Ok(answer) => (
                HeadlessRelay { phase, ..self },
                RelayAction::Respond { checkpoint, answer },
            ),
            Err(e) => (
                HeadlessRelay { phase: RelayPhase::Done, ..self },
                RelayAction::Return { result: Err(e) },
            ),
        }
    }

    fn take_interaction(
        self,
        checkpoint: Option<HeadlessInteractionCheckpoint>,
        callback_unavailable: bool,
        callback_in_flight: bool,
    ) -> (r: (Self, RelayAction))
        ensures
            Self::after_interaction(
                self,
                checkpoint,
                callback_unavailable,
                callback_in_flight,
                r.0,
                r.1,
            ),
    {
        match checkpoint {
            None => (
                HeadlessRelay { phase: RelayPhase::Receiving, ..self },
                RelayAction::ReceiveChunk,
            ),
            Some(checkpoint) => {
                if self.callback_unavailable || callback_unavailable || callback_in_flight {
                    return self.decline(checkpoint, RelayPhase::Declining);
                }
                let asked = checkpoint.duplicate();
                (
                    HeadlessRelay {
                        pending: Some(checkpoint),
                        phase: RelayPhase::PollingAnswer,
                        ..self
                    },
                    RelayAction::SpawnCallback { checkpoint: asked },
                )
            },
        }
    }

    fn take_answer(self, poll: AnswerPoll) -> (r: (Self, RelayAction))
        requires
            self.pending is Some,
        ensures
            Self::after_answer(self, poll, r.0, r.1),
    {
        let mut this = self;
        if let AnswerPoll::Waiting { expired: false } = &poll {
            this.phase = RelayPhase::Receiving;
            return (this, RelayAction::ReceiveChunk);
        }
        let checkpoint = match this.pending {
            Some(checkpoint) => checkpoint,
            None => vstd::pervasive::unreached(),
        };
        this.pending = None;
        match poll {
            AnswerPoll::Waiting { .. } => {
                this.callback_unavailable = true;
                this.decline(checkpoint, RelayPhase::Responding)
            },
            AnswerPoll::Broken => this.decline(checkpoint, RelayPhase::Responding),
            AnswerPoll::Answered(answer) => {
                if headless_answer_matches(&checkpoint, &answer) {
                    this.phase = RelayPhase::Responding;
                    (this, RelayAction::Respond { checkpoint, answer })
                } else {
                    this.decline(checkpoint, RelayPhase::Responding)
                }
            },
        }
    }

    fn take_chunk(self, bytes: Option<Vec<u8>>) -> (r: (Self, RelayAction))
        ensures
            Self::after_chunk(self, bytes, r.0, r.1),
    {
        let bytes = match bytes {
            None => {
                return (
                    HeadlessRelay { phase: RelayPhase::PollingTerminal, ..self },
                    RelayAction::PollTerminal,
                );
            },
            Some(bytes) => bytes,
        };
        if !self.session_started_written && !headless_chunk_contains_session_started(&bytes) {
            let mut this = self;
            this.before_session_started.push(bytes);
            this.phase = RelayPhase::AcknowledgingBuffered;
            return (this, RelayAction::Acknowledge { result: Ok(()) });
        }
        (HeadlessRelay { phase: RelayPhase::Writing, ..self }, RelayAction::Write { bytes })
    }

    fn proceed(self) -> (r: (Self, RelayAction))
        requires
            self.wf(),
        ensures
            Self::after_done(self, r.0, r.1),
    {
        match self.phase {
            RelayPhase::Writing => {
                if self.session_started_written {
                    return (
                        HeadlessRelay { phase: RelayPhase::Acknowledging, ..self },
                        RelayAction::Acknowledge { result: Ok(()) },
                    );
                }
                let chunks = self.before_session_started;
                (
                    HeadlessRelay {
                        interactive: self.interactive,
                        callback_unavailable: self.callback_unavailable,
                        pending: self.pending,
                        session_started_written: true,
                        before_session_started: Vec::new(),
                        error: self.error,
                        phase: RelayPhase::WritingBuffered,
                    },
                    RelayAction::WriteAll { chunks },
                )
            },
            RelayPhase::WritingBuffered => (
                HeadlessRelay { phase: RelayPhase::Acknowledging, ..self },
                RelayAction::Acknowledge { result: Ok(()) },
            ),
            RelayPhase::Acknowledging => (
                HeadlessRelay { phase: RelayPhase::PollingTerminal, ..self },
                RelayAction::PollTerminal,
            ),
            RelayPhase::AcknowledgingFailure => {
                let error = match self.error {
                    Some(error) => error,
                    None => vstd::pervasive::unreached(),
                };
                (
                    HeadlessRelay { error: None, phase: RelayPhase::Done, ..self },
                    RelayAction::Return { result: Err(error) },
                )
            },
            RelayPhase::AcknowledgingBuffered => self.next_round(),
            _ => (
                HeadlessRelay { phase: RelayPhase::Receiving, ..self },
                RelayAction::ReceiveChunk,
            ),
        }
    }

    /// Moves on after an event.
    pub fn drain_headless_events(self, event: RelayEvent) -> (r: (Self, RelayAction))
        requires
            self.wf(),
            self.expects(event),
        ensures
            Self::follows(self, event, r.0, r.1),
            r.0.wf(),
    {
        match event {
            RelayEvent::Interaction { checkpoint, callback_unavailable, callback_in_flight } =>
                self.take_interaction(checkpoint, callback_unavailable, callback_in_flight),
            RelayEvent::Answer { poll } => self.take_answer(poll),
            RelayEvent::Chunk { bytes } => self.take_chunk(bytes),
            RelayEvent::Done => self.proceed(),
            RelayEvent::Terminal { terminal } => match terminal {
                Some(terminal) => (
                    HeadlessRelay { phase: RelayPhase::Done, ..self },
                    RelayAction::Return { result: Ok(terminal) },
                ),
                None => self.next_round(),
            },
            RelayEvent::Failed { error } => match self.phase {
                RelayPhase::Writing => {
                    let reported = error.duplicate();
                    (
                        HeadlessRelay {
                            error: Some(error),
                            phase: RelayPhase::AcknowledgingFailure,
                            ..self
                        },
                        RelayAction::Acknowledge { result: Err(reported) },
                    )
                },
                _ => (
                    HeadlessRelay { phase: RelayPhase::Done, ..self },
                    RelayAction::Return { result: Err(error) },
                ),
            },
        }
    }
}

/// Where the start of the session must come first, nothing else is written
/// before it.
pub proof fn the_session_start_is_written_first(
    before: HeadlessRelay,
    event: RelayEvent,
    after: HeadlessRelay,
    action: RelayAction,
)
    requires
        HeadlessRelay::follows(before, event, after, action),
        before.expects(event),
        !before.session_started_written,
    ensures
        action matches RelayAction::Write { bytes } ==> chunk_starts_session(bytes@),
        action is WriteAll ==> before.phase == RelayPhase::Writing,
        after.session_started_written ==> before.phase == RelayPhase::Writing && event is Done,
{
}

/// What is held back is kept in order until it is written as a whole, right
/// behind the start of the session.
pub proof fn held_back_chunks_are_kept(
    before: HeadlessRelay,
    event: RelayEvent,
    after: HeadlessRelay,
    action: RelayAction,
)
    requires
        HeadlessRelay::follows(before, event, after, action),
        before.expects(event),
    ensures
        match action {
            RelayAction::WriteAll { chunks } => chunks == before.before_session_started
                && after.before_session_started@.len() == 0,
            _ => after.before_session_started@ == before.before_session_started@ || (
            event matches RelayEvent::Chunk { bytes: Some(bytes) }
                && after.before_session_started@ == before.before_session_started@.push(bytes)),
        },
{
}

/// A client is answered in kind: every response fits its question.
pub proof fn responses_fit_their_question(
    before: HeadlessRelay,
    event: RelayEvent,
    after: HeadlessRelay,
    action: RelayAction,
)
    requires
        HeadlessRelay::follows(before, event, after, action),
        before.expects(event),
    ensures
        action matches RelayAction::Respond { checkpoint, answer } ==> answers(
            checkpoint.request,
            answer,
        ),
{
}

/// A handler whose callback was given up is never asked again, whether this run
/// gave it up, an earlier one did, or another one does meanwhile; and a callback
/// that runs out of time is given up.
pub proof fn unavailable_callbacks_stay_so(
    before: HeadlessRelay,
    event: RelayEvent,
    after: HeadlessRelay,
    action: RelayAction,
)
    requires
        HeadlessRelay::follows(before, event, after, action),
        before.expects(event),
    ensures
        before.callback_unavailable ==> after.callback_unavailable && !(action is SpawnCallback),
        event matches RelayEvent::Interaction { callback_unavailable: true, .. } ==> !(
        action is SpawnCallback),
        event matches RelayEvent::Interaction { callback_in_flight: true, .. } ==> !(
        action is SpawnCallback),
        event matches RelayEvent::Answer { poll: AnswerPoll::Waiting { expired: true } }
            ==> after.callback_unavailable,
{
}

/// The states and the actions of a relay that answers `events`, the first of
/// each included.
pub open spec fn is_run(
    relays: Seq<HeadlessRelay>,
    actions: Seq<RelayAction>,
    events: Seq<RelayEvent>,
) -> bool {
    &&& relays.len() == events.len() + 1
    &&& actions.len() == events.len() + 1
    &&& forall|k: int|
        0 <= k < events.len() ==> {
            &&& (#[trigger] relays[k]).expects(events[k])
            &&& HeadlessRelay::follows(relays[k], events[k], relays[k + 1], actions[k + 1])
        }
}

/// The chunks that came, in order.
pub open spec fn received(events: Seq<RelayEvent>) -> Seq<Vec<u8>>
    decreases events.len(),
{
    if events.len() == 0 {
        Seq::empty()
    } else {
        match events.last() {
            RelayEvent::Chunk { bytes: Some(bytes) } => received(events.drop_last()).push(bytes),
            _ => received(events.drop_last()),
        }
    }
}

/// The chunks that were asked to be written, in order.
pub open spec fn written(actions: Seq<RelayAction>) -> Seq<Vec<u8>>
    decreases actions.len(),
{
    if actions.len() == 0 {
        Seq::empty()
    } else {
        match actions.last() {
            RelayAction::Write { bytes } => written(actions.drop_last()).push(bytes),
            RelayAction::WriteAll { chunks } => written(actions.drop_last()) + chunks@,
            _ => written(actions.drop_last()),
        }
    }
}

/// The place of the first chunk that starts the session, or the number of chunks
/// where none does.
pub open spec fn session_start(chunks: Seq<Vec<u8>>) -> nat
    decreases chunks.len(),
{
    if chunks.len() == 0 {
        0
    } else {
        let earlier = session_start(chunks.drop_last());
        if earlier < chunks.len() - 1 || chunk_starts_session(chunks.last()@) {
            earlier
        } else {
            chunks.len()
        }
    }
}

/// The chunk that starts the session, the chunks that came before it, and those
/// that came after it.
pub open spec fn session_first(chunks: Seq<Vec<u8>>) -> Seq<Vec<u8>> {
    let start = session_start(chunks) as int;
    seq![chunks[start]] + chunks.take(start) + chunks.skip(start + 1)
}

/// What a relay that holds back what comes before the session has written of
/// what it received.
pub open spec fn boundary_kept(
    relay: HeadlessRelay,
    chunks: Seq<Vec<u8>>,
    output: Seq<Vec<u8>>,
) -> bool {
    if relay.session_started_written {
        session_start(chunks) < chunks.len() && output == session_first(chunks)
    } else if session_start(chunks) < chunks.len() {
        session_start(chunks) == chunks.len() - 1 && output == seq![chunks.last()]
    } else {
        output.len() == 0
    }
}

/// What a relay keeps between its steps where the session comes first.
spec fn boundary_invariant(
    relay: HeadlessRelay,
    chunks: Seq<Vec<u8>>,
    output: Seq<Vec<u8>>,
) -> bool {
    &&& boundary_kept(relay, chunks, output)
    &&& !relay.session_started_written && session_start(chunks) < chunks.len() ==> {
        &&& relay.before_session_started@ == chunks.drop_last()
        &&& relay.phase == RelayPhase::Writing || relay.phase == RelayPhase::AcknowledgingFailure
            || relay.phase == RelayPhase::Done
    }
    &&& !relay.session_started_written && session_start(chunks) == chunks.len() ==> {
        &&& relay.before_session_started@ == chunks
        &&& relay.phase != RelayPhase::Writing
    }
}

proof fn session_start_is_a_place(chunks: Seq<Vec<u8>>)
    ensures
        session_start(chunks) <= chunks.len(),
    decreases chunks.len(),
{
    if chunks.len() > 0 {
        session_start_is_a_place(chunks.drop_last());
    }
}

proof fn the_boundary_is_kept(
    before: HeadlessRelay,
    event: RelayEvent,
    after: HeadlessRelay,
    action: RelayAction,
    events: Seq<RelayEvent>,
    actions: Seq<RelayAction>,
)
    requires
        HeadlessRelay::follows(before, event, after, action),
        before.expects(event),
        boundary_invariant(before, received(events), written(actions)),
    ensures
        boundary_invariant(after, received(events.push(event)), written(actions.push(action))),
{
    let (chunks, output) = (received(events), written(actions));
    assert(events.push(event).drop_last() =~= events);
    assert(actions.push(action).drop_last() =~= actions);
    session_start_is_a_place(chunks);
    match event {
        RelayEvent::Chunk { bytes: Some(bytes) } => {
            let more = chunks.push(bytes);
            assert(received(events.push(event)) == more);
            assert(more.drop_last() =~= chunks);
            assert(more.last() == bytes);
            if before.session_started_written {
                let start = session_start(chunks) as int;
                assert(session_start(more) == start);
                assert(more.take(start) =~= chunks.take(start));
                assert(more.skip(start + 1) =~= chunks.skip(start + 1).push(bytes));
                assert(session_first(more) =~= session_first(chunks).push(bytes));
            } else {
                assert(session_start(chunks) == chunks.len());
                assert(output =~= Seq::<Vec<u8>>::empty());
                if chunk_starts_session(bytes@) {
                    assert(output.push(bytes) =~= seq![more.last()]);
                }
            }
        },
        RelayEvent::Done => {
            assert(received(events.push(event)) == chunks);
            if before.phase == RelayPhase::Writing && !before.session_started_written {
                let start = session_start(chunks) as int;
                assert(chunks.take(start) =~= chunks.drop_last());
                assert(chunks.skip(start + 1) =~= Seq::<Vec<u8>>::empty());
                assert(output + before.before_session_started@ =~= session_first(chunks));
            }
        },
        _ => {
            assert(received(events.push(event)) == chunks);
        },
    }
}

proof fn a_run_keeps_the_boundary(
    relays: Seq<HeadlessRelay>,
    actions: Seq<RelayAction>,
    events: Seq<RelayEvent>,
)
    requires
        is_run(relays, actions, events),
        !relays[0].session_started_written,
        relays[0].before_session_started@.len() == 0,
        relays[0].phase == RelayPhase::PollingInteraction || relays[0].phase
            == RelayPhase::Receiving,
        !(actions[0] is Write) && !(actions[0] is WriteAll),
    ensures
        boundary_invariant(relays.last(), received(events), written(actions)),
    decreases events.len(),
{
    let n = events.len() as int;
    if n == 0 {
        assert(written(actions.drop_last()) =~= Seq::<Vec<u8>>::empty());
        assert(actions.last() == actions[0]);
        assert(written(actions) =~= Seq::<Vec<u8>>::empty());
        assert(received(events) =~= Seq::<Vec<u8>>::empty());
        assert(relays[0].before_session_started@ =~= received(events));
    } else {
        let (earlier, done, past) = (relays.drop_last(), actions.drop_last(), events.drop_last());
        assert forall|k: int| 0 <= k < past.len() implies {
            &&& (#[trigger] earlier[k]).expects(past[k])
            &&& HeadlessRelay::follows(earlier[k], past[k], earlier[k + 1], done[k + 1])
        } by {
            assert(relays[k].expects(events[k]));
        }
        a_run_keeps_the_boundary(earlier, done, past);
        assert(relays[n - 1].expects(events[n - 1]));
        assert(earlier.last() == relays[n - 1]);
        the_boundary_is_kept(
            relays[n - 1],
            events[n - 1],
            relays[n],
            actions[n],
            past,
            done,
        );
        assert(past.push(events[n - 1]) =~= events);
        assert(done.push(actions[n]) =~= actions);
    }
}

/// A relay that must begin with the session writes the chunk that starts it,
/// then the chunks that it held back, then the later ones: each once and in the
/// order in which they came. Before the session starts it writes nothing.
pub proof fn runs_write_the_session_first(
    relays: Seq<HeadlessRelay>,
    actions: Seq<RelayAction>,
    events: Seq<RelayEvent>,
)
    requires
        is_run(relays, actions, events),
        HeadlessRelay::started(relays[0], actions[0]),
        !relays[0].session_started_written,
    ensures
        boundary_kept(relays.last(), received(events), written(actions)),
{
    a_run_keeps_the_boundary(relays, actions, events);
}

/// Any other relay writes every chunk once, as they come.
pub proof fn runs_write_what_they_receive(
    relays: Seq<HeadlessRelay>,
    actions: Seq<RelayAction>,
    events: Seq<RelayEvent>,
)
    requires
        is_run(relays, actions, events),
        HeadlessRelay::started(relays[0], actions[0]),
        relays[0].session_started_written,
    ensures
        relays.last().session_started_written,
        written(actions) == received(events),
    decreases events.len(),
{
    let n = events.len() as int;
    if n == 0 {
        assert(written(actions.drop_last()) =~= Seq::<Vec<u8>>::empty());
        assert(actions.last() == actions[0]);
        assert(written(actions) =~= received(events));
    } else {
        let (earlier, done, past) = (relays.drop_last(), actions.drop_last(), events.drop_last());
        assert forall|k: int| 0 <= k < past.len() implies {
            &&& (#[trigger] earlier[k]).expects(past[k])
            &&& HeadlessRelay::follows(earlier[k], past[k], earlier[k + 1], done[k + 1])
        } by {
            assert(relays[k].expects(events[k]));
        }
        runs_write_what_they_receive(earlier, done, past);
        assert(earlier.last() == relays[n - 1]);
        assert(relays[n - 1].expects(events[n - 1]));
    }
}

/// A run is reported as a success exactly if its operation succeeded, and as
/// cancelled exactly if it was cancelled. Every other end is reported as a
/// failure: as a missing approval or a failed verification exactly if that is
/// what it failed of, and as a plain failure otherwise.
pub proof fn every_end_has_its_own_status(terminal: SurfaceOperationTerminal)
    ensures
        terminal_status(terminal) == RunStatus::Success <==> terminal is Succeeded,
        terminal_status(terminal) == RunStatus::Cancelled <==> terminal is Cancelled,
        terminal_status(terminal) == RunStatus::ApprovalRequired <==> (
        terminal matches SurfaceOperationTerminal::Failed { class } && class
            == SurfaceFailureClass::LegacyApprovalRequired),
        terminal_status(terminal) == RunStatus::VerificationFailed <==> (
        terminal matches SurfaceOperationTerminal::Failed { class } && class
            == SurfaceFailureClass::Verification),
        terminal_status(terminal) == RunStatus::Failed <==> terminal is BudgetExhausted
            || terminal is Interrupted || (
        terminal matches SurfaceOperationTerminal::Failed { class } && class
            == SurfaceFailureClass::Runtime),
{
}

/// The answer that grants nothing: a tool is denied, permissions are denied for
/// this turn and name what was asked for, an input is cancelled, and an
/// elicitation is declined.
pub proof fn closed_answers_grant_nothing(request: SurfaceInteractionRequest)
    ensures
        request is ToolApproval ==> (
        closed_answer(request) matches Some(SurfaceClientInteractionAnswer::ToolApproval {
            decision,
        }) && decision != SurfaceAllowDeny::Allow),
        request is UserInput ==> (
        closed_answer(request) matches Some(SurfaceClientInteractionAnswer::UserInput { decision })
            && !(decision is Submit)),
        request is McpElicitation ==> (
        closed_answer(request) matches Some(SurfaceClientInteractionAnswer::McpElicitation {
            decision,
        }) && !(decision is Accept)),
        request is PermissionRequest ==> (
        closed_answer(request) matches Some(SurfaceClientInteractionAnswer::PermissionRequest {
            decision: SurfacePermissionClientDecision::Deny {
                scope,
                permissions,
                strict_auto_review,
            },
        }) && scope != SurfaceGrantScope::Session && permissions
            == request->PermissionRequest_permissions && !strict_auto_review),
        closed_answer(request) is None <==> request is BackgroundApproval,
{
}

/// Each kind of question takes one kind of answer, each kind of answer goes with
/// one kind of question, and approvals in the background take none.
pub proof fn questions_take_answers_of_their_kind(
    request: SurfaceInteractionRequest,
    answer: SurfaceClientInteractionAnswer,
)
    ensures
        answers(request, answer) <==> {
            ||| request is ToolApproval && answer is ToolApproval
            ||| request is PermissionRequest && answer is PermissionRequest
            ||| request is UserInput && answer is UserInput
            ||| request is McpElicitation && answer is McpElicitation
        },
{
}

/// The answer allows, submits or accepts something.
pub open spec fn grants(answer: SurfaceClientInteractionAnswer) -> bool {
    match answer {
        SurfaceClientInteractionAnswer::ToolApproval { decision } => decision
            == SurfaceAllowDeny::Allow,
        SurfaceClientInteractionAnswer::PermissionRequest { decision } => decision is Allow,
        SurfaceClientInteractionAnswer::UserInput { decision } => decision is Submit,
        SurfaceClientInteractionAnswer::McpElicitation { decision } => decision is Accept,
    }
}

/// Nothing is granted but by the handler: a question that is settled with a grant
/// is settled with the very answer that the handler gave. An answer of the kind
/// asked for is never replaced, and any other is never passed on.
pub proof fn only_the_handler_grants(
    request: SurfaceInteractionRequest,
    handled: Result<SurfaceClientInteractionAnswer, String>,
    r: Result<SurfaceClientInteractionAnswer, RelayError>,
)
    requires
        settles(request, handled, r),
    ensures
        r matches Ok(answer) ==> answers(request, answer),
        r matches Ok(answer) ==> (grants(answer) ==> handled == Ok::<
            SurfaceClientInteractionAnswer,
            String,
        >(answer)),
        handled matches Ok(answer) ==> (answers(request, answer) ==> r == Ok::<
            SurfaceClientInteractionAnswer,
            RelayError,
        >(answer)),
        handled is Err && !(request is BackgroundApproval) ==> r is Ok && !grants(r->Ok_0),
        r is Err <==> request is BackgroundApproval,
{
}

/// In a run, too, nothing is granted but by the answer of a callback, and it is
/// granted to the question that was put to it.
pub proof fn relayed_grants_come_from_the_callback(
    before: HeadlessRelay,
    event: RelayEvent,
    after: HeadlessRelay,
    action: RelayAction,
)
    requires
        HeadlessRelay::follows(before, event, after, action),
        before.expects(event),
        before.wf(),
    ensures
        action matches RelayAction::Respond { checkpoint, answer } ==> {
            &&& grants(answer) ==> event == (RelayEvent::Answer {
                poll: AnswerPoll::Answered(answer),
            })
            &&& event is Answer ==> before.pending == Some(checkpoint)
            &&& event is Answer || (event matches RelayEvent::Interaction { checkpoint: asked, .. }
                && asked == Some(checkpoint))
            &&& after.pending is None
        },
{
}

/// A question is put to the handler, or answered at once where there is nobody to
/// put it to; a question that was put is kept until it is answered; and a fitting
/// answer is passed on as it came.
pub proof fn questions_are_not_lost(
    before: HeadlessRelay,
    event: RelayEvent,
    after: HeadlessRelay,
    action: RelayAction,
)
    requires
        HeadlessRelay::follows(before, event, after, action),
        before.expects(event),
        before.wf(),
    ensures
        event matches RelayEvent::Interaction {
            checkpoint: Some(checkpoint),
            callback_unavailable: false,
            callback_in_flight: false,
        } ==> (!before.callback_unavailable ==> action == (RelayAction::SpawnCallback {
            checkpoint,
        }) && after.pending == Some(checkpoint)),
        event matches RelayEvent::Interaction { checkpoint: Some(checkpoint), .. } ==> (!(
        checkpoint.request is BackgroundApproval) ==> action == (RelayAction::SpawnCallback {
            checkpoint,
        }) || (action is Respond && action->Respond_checkpoint == checkpoint && !grants(
            action->answer,
        ))),
        event matches RelayEvent::Answer { poll: AnswerPoll::Answered(answer) } ==> (answers(
            before.pending->0.request,
            answer,
        ) ==> action == (RelayAction::Respond { checkpoint: before.pending->0, answer })),
        before.pending is Some && !(action is Respond) && !(action is Return) ==> after.pending
            == before.pending,
        action is SpawnCallback ==> event is Interaction,
{
}

/// A run ends with what its operation ended with, and reports no end that was not
/// reported to it. It ends with an error only where something failed, and then
/// with that error; the one question that has no answer is the exception.
pub proof fn runs_end_as_their_operation(
    before: HeadlessRelay,
    event: RelayEvent,
    after: HeadlessRelay,
    action: RelayAction,
)
    requires
        HeadlessRelay::follows(before, event, after, action),
        before.expects(event),
        before.wf(),
    ensures
        event matches RelayEvent::Terminal { terminal: Some(terminal) } ==> action == (
        RelayAction::Return { result: Ok(terminal) }),
        action matches RelayAction::Return { result: Ok(terminal) } ==> event == (
        RelayEvent::Terminal { terminal: Some(terminal) }),
        action matches RelayAction::Return { result: Err(e) } ==> {
            ||| event == (RelayEvent::Failed { error: e })
            ||| before.error == Some(e)
            ||| background_refused(e)
        },
        event matches RelayEvent::Failed { error } ==> action == (RelayAction::Return {
            result: Err(error),
        }) || (action == (RelayAction::Acknowledge { result: Err(error) }) && after.error == Some(
            error,
        ) && after.phase == RelayPhase::AcknowledgingFailure),
        before.phase == RelayPhase::AcknowledgingFailure ==> action == (RelayAction::Return {
            result: Err(before.error->0),
        }),
        action is Return <==> after.phase == RelayPhase::Done,
{
}

/// Every chunk is acknowledged: as written once it was, as failed where its
/// writing failed, and at once where it is held back.
pub proof fn chunks_are_acknowledged(
    before: HeadlessRelay,
    event: RelayEvent,
    after: HeadlessRelay,
    action: RelayAction,
)
    requires
        HeadlessRelay::follows(before, event, after, action),
        before.expects(event),
        before.wf(),
    ensures
        event matches RelayEvent::Chunk { bytes: Some(bytes) } ==> action == (RelayAction::Write {
            bytes,
        }) || (action == (RelayAction::Acknowledge { result: Ok(()) })
            && after.before_session_started@ == before.before_session_started@.push(bytes)),
        event matches RelayEvent::Chunk { bytes: Some(bytes) } ==> (before.session_started_written
            || chunk_starts_session(bytes@) ==> action == (RelayAction::Write { bytes })),
        event is Done && before.phase == RelayPhase::Writing ==> action == (
        RelayAction::Acknowledge { result: Ok(()) }) || action == (RelayAction::WriteAll {
            chunks: before.before_session_started,
        }),
        event is Done && before.phase == RelayPhase::WritingBuffered ==> action == (
        RelayAction::Acknowledge { result: Ok(()) }),
        event is Failed && before.phase == RelayPhase::Writing ==> action
            matches RelayAction::Acknowledge { result: Err(_) },
        action is Acknowledge ==> event is Chunk || event is Done || event is Failed,
{
}

/// The first line of a text ends at its first line feed, and the others are those
/// of what comes behind it.
pub proof fn lines_end_at_line_feeds(line: Seq<char>, rest: Seq<char>)
    requires
        !line.contains('\n'),
    ensures
        lines_of(line + seq!['\n'] + rest).len() == 1 + lines_of(rest).len(),
        lines_of(line + seq!['\n'] + rest).skip(1) == lines_of(rest),
        line.len() > 0 && line.last() == '\r' ==> lines_of(line + seq!['\n'] + rest)[0]
            == line.drop_last(),
        !(line.len() > 0 && line.last() == '\r') ==> lines_of(line + seq!['\n'] + rest)[0] == line,
        line.len() > 0 ==> lines_of(line) == seq![line],
{
    let text = line + seq!['\n'] + rest;
    assert forall|i: int| 0 <= i < line.len() implies #[trigger] text[i] != '\n' by {
        assert(line.contains(line[i]));
    }
    line_feed_is(text, line.len() as int);
    assert(text.take(line.len() as int) =~= line);
    assert(text.skip(line.len() as int + 1) =~= rest);
    assert(lines_of(text).skip(1) =~= lines_of(rest));
    assert forall|i: int| 0 <= i < line.len() implies #[trigger] line[i] != '\n' by {
        assert(line.contains(line[i]));
    }
    line_feed_is(line, line.len() as int);
}

/// A relay goes round: behind a written chunk it looks for the end of the operation,
/// and where there is none yet it waits for the pending answer, looks for the next
/// question or reads the next chunk. What it waits for is what it asked for last.
pub proof fn relays_go_round(
    before: HeadlessRelay,
    event: RelayEvent,
    after: HeadlessRelay,
    action: RelayAction,
)
    requires
        HeadlessRelay::follows(before, event, after, action),
        before.wf(),
        before.expects(event),
    ensures
        after.interactive == before.interactive,
        event is Done && before.phase == RelayPhase::Acknowledging ==> action
            == RelayAction::PollTerminal,
        event matches RelayEvent::Chunk { bytes } ==> (bytes is None <==> action
            == RelayAction::PollTerminal),
        event matches RelayEvent::Terminal { terminal } ==> match terminal {
            Some(end) => action == (RelayAction::Return { result: Ok(end) }),
            None => action == (if before.pending is Some {
                RelayAction::PollAnswer
            } else if before.interactive {
                RelayAction::PollInteraction
            } else {
                RelayAction::ReceiveChunk
            }),
        },
        event is Done && before.phase == RelayPhase::AcknowledgingBuffered ==> action == (
        if before.pending is Some {
            RelayAction::PollAnswer
        } else if before.interactive {
            RelayAction::PollInteraction
        } else {
            RelayAction::ReceiveChunk
        }),
        event is Done && (before.phase == RelayPhase::Declining || before.phase
            == RelayPhase::Responding) ==> action == RelayAction::ReceiveChunk,
        event is Done && before.phase == RelayPhase::AcknowledgingFailure ==> action == (
        RelayAction::Return { result: Err(before.error->0) }),
        event matches RelayEvent::Failed { error } ==> (if before.phase == RelayPhase::Writing {
            action == (RelayAction::Acknowledge { result: Err(error) }) && after.error == Some(
                error,
            )
        } else {
            action == (RelayAction::Return { result: Err(error) })
        }),
        match action {
            RelayAction::PollInteraction => after.phase == RelayPhase::PollingInteraction,
            RelayAction::SpawnCallback { checkpoint } => after.phase == RelayPhase::PollingAnswer
                && after.pending == Some(checkpoint),
            RelayAction::PollAnswer => after.phase == RelayPhase::PollingAnswer && after.pending
                == before.pending,
            RelayAction::Respond { .. } => (after.phase == RelayPhase::Declining || after.phase
                == RelayPhase::Responding) && after.pending is None,
            RelayAction::ReceiveChunk => after.phase == RelayPhase::Receiving,
            RelayAction::Write { .. } => after.phase == RelayPhase::Writing,
            RelayAction::WriteAll { .. } => after.phase == RelayPhase::WritingBuffered,
            RelayAction::Acknowledge { result } => if result is Err {
                after.phase == RelayPhase::AcknowledgingFailure
            } else {
                after.phase == RelayPhase::Acknowledging || after.phase
                    == RelayPhase::AcknowledgingBuffered
            },
            RelayAction::PollTerminal => after.phase == RelayPhase::PollingTerminal,
            RelayAction::Return { .. } => after.phase == RelayPhase::Done,
        },
{
}

} // verus!
