//! Permission requests of child agents.
//!
//! A child never uses the permission context that a model or its parent put
//! into a request. The context is replaced by the child's own identity before
//! the request goes anywhere, and a child without a complete identity is
//! refused. A detached child exchanges requests and signed responses with the
//! runtime through a mailbox that it could write itself, so that every record
//! is checked before anything of it is believed.

use vstd::prelude::*;
use vstd::string::*;
use crate::agent_continuation::ids::{AgentAttemptId, Sha256Digest};
use crate::provider_types::clone_text;
use crate::text::{opt_chars, plus3, same_opt_text};

verus! {

#[derive(Clone, Copy, Debug, PartialEq, Eq, Structural)]
pub enum PermissionErrorKind {
    PermissionDenied,
    Interrupted,
    TimedOut,
    NotFound,
    InvalidData,
    Other,
}

#[derive(Debug)]
pub struct PermissionError {
    pub kind: PermissionErrorKind,
    pub message: String,
}

pub ghost struct PermissionErrorView {
    pub kind: PermissionErrorKind,
    pub message: Seq<char>,
}

impl View for PermissionError {
    type V = PermissionErrorView;

    open spec fn view(&self) -> PermissionErrorView {
        PermissionErrorView { kind: self.kind, message: self.message@ }
    }
}

/// Where a permission request comes from.
#[derive(Clone, Copy, Debug, PartialEq, Eq, Structural)]
pub enum SurfacePermissionOrigin {
    CommandExec,
    ChildAgent,
}

/// On whose behalf permissions are requested.
#[derive(Debug)]
#[allow(inconsistent_fields)]
pub enum RuntimePermissionContext {
    Foreground { origin: SurfacePermissionOrigin },
    Child {
        task_id: String,
        task_revision: u64,
        agent_id: String,
        agent_revision: u64,
        activity_id: String,
        turn_id: String,
        tool_call_id: String,
        origin: SurfacePermissionOrigin,
    },
}

#[allow(inconsistent_fields)]
pub ghost enum RuntimePermissionContextView {
    Foreground { origin: SurfacePermissionOrigin },
    Child {
        task_id: Seq<char>,
        task_revision: u64,
        agent_id: Seq<char>,
        agent_revision: u64,
        activity_id: Seq<char>,
        turn_id: Seq<char>,
        tool_call_id: Seq<char>,
        origin: SurfacePermissionOrigin,
    },
}

impl View for RuntimePermissionContext {
    type V = RuntimePermissionContextView;

    open spec fn view(&self) -> RuntimePermissionContextView {
        match *self {
            RuntimePermissionContext::Foreground { origin } => {
                RuntimePermissionContextView::Foreground { origin }
            },
            RuntimePermissionContext::Child {
                task_id,
                task_revision,
                agent_id,
                agent_revision,
                activity_id,
                turn_id,
                tool_call_id,
                origin,
            } => RuntimePermissionContextView::Child {
                task_id: task_id@,
                task_revision,
                agent_id: agent_id@,
                agent_revision,
                activity_id: activity_id@,
                turn_id: turn_id@,
                tool_call_id: tool_call_id@,
                origin,
            },
        }
    }
}

impl RuntimePermissionContext {
    pub fn same(&self, other: &Self) -> (r: bool)
        ensures
            r == (self@ == other@),
    {
        match (self, other) {
            (
                RuntimePermissionContext::Foreground { origin: a },
                RuntimePermissionContext::Foreground { origin: b },
            ) => *a == *b,
            (
                RuntimePermissionContext::Child {
                    task_id,
                    task_revision,
                    agent_id,
                    agent_revision,
                    activity_id,
                    turn_id,
                    tool_call_id,
                    origin,
                },
                RuntimePermissionContext::Child {
                    task_id: other_task_id,
                    task_revision: other_task_revision,
                    agent_id: other_agent_id,
                    agent_revision: other_agent_revision,
                    activity_id: other_activity_id,
                    turn_id: other_turn_id,
                    tool_call_id: other_tool_call_id,
                    origin: other_origin,
                },
            ) => *task_id == *other_task_id && *task_revision == *other_task_revision && *agent_id
                == *other_agent_id && *agent_revision == *other_agent_revision && *activity_id
                == *other_activity_id && *turn_id == *other_turn_id && *tool_call_id
                == *other_tool_call_id && *origin == *other_origin,
            _ => false,
        }
    }
}

/// A request for permissions, which are in their canonical serialized form.
#[derive(Debug)]
pub struct RuntimePermissionRequest {
    pub id: String,
    pub reason: Option<String>,
    pub permissions: String,
    pub context: RuntimePermissionContext,
}

pub ghost struct RuntimePermissionRequestView {
    pub id: Seq<char>,
    pub reason: Option<Seq<char>>,
    pub permissions: Seq<char>,
    pub context: RuntimePermissionContextView,
}

impl View for RuntimePermissionRequest {
    type V = RuntimePermissionRequestView;

    open spec fn view(&self) -> RuntimePermissionRequestView {
        RuntimePermissionRequestView {
            id: self.id@,
            reason: opt_chars(self.reason),
            permissions: self.permissions@,
            context: self.context@,
        }
    }
}

impl RuntimePermissionRequest {
    pub fn same(&self, other: &Self) -> (r: bool)
        ensures
            r == (self@ == other@),
    {
        self.id == other.id && same_opt_text(&self.reason, &other.reason) && self.permissions
            == other.permissions && self.context.same(&other.context)
    }
}

#[derive(Clone, Copy, Debug, PartialEq, Eq, Structural)]
pub enum PermissionResponseDecision {
    Allow,
    Deny,
}

#[derive(Clone, Copy, Debug, PartialEq, Eq, Structural)]
pub enum PermissionGrantScope {
    Turn,
    Session,
}

/// A response to a permission request.
#[derive(Debug)]
pub struct RuntimePermissionResponse {
    pub decision: PermissionResponseDecision,
    pub scope: PermissionGrantScope,
    /// The granted permissions in their serialized form, none where empty.
    pub permissions: String,
    pub strict_auto_review: bool,
}

/// The owner of one child attempt, as far as it is known.
#[derive(Debug)]
pub struct ChildPermissionIdentity {
    pub task_id: Option<String>,
    pub task_revision_floor: Option<u64>,
    pub agent_id: Option<String>,
    pub turn_id: Option<String>,
}

/// What is known at the time of a request: the child's activity cursor, where
/// there is one, and whether it and the request's identity are valid.
#[derive(Clone, Copy, Debug, PartialEq, Eq, Structural)]
pub struct ChildPermissionFacts {
    pub revision: Option<u64>,
    pub revision_valid: bool,
    pub request_id_valid: bool,
}

impl ChildPermissionIdentity {
    /// The identity of a child at its first task revision.
    pub fn new(task_id: String, agent_id: String, turn_id: String) -> (r: Self)
        ensures
            r == (ChildPermissionIdentity {
                task_id: Some(task_id),
                task_revision_floor: Some(1),
                agent_id: Some(agent_id),
                turn_id: Some(turn_id),
            }),
    {
        Self::new_with_task_revision(task_id, 1, agent_id, turn_id)
    }

    pub fn new_with_task_revision(
        task_id: String,
        task_revision: u64,
        agent_id: String,
        turn_id: String,
    ) -> (r: Self)
        ensures
            r == (ChildPermissionIdentity {
                task_id: Some(task_id),
                task_revision_floor: Some(task_revision),
                agent_id: Some(agent_id),
                turn_id: Some(turn_id),
            }),
    {
        ChildPermissionIdentity {
            task_id: Some(task_id),
            task_revision_floor: Some(task_revision),
            agent_id: Some(agent_id),
            turn_id: Some(turn_id),
        }
    }

    /// The context of a request with the given identity, or none where anything
    /// is missing.
    pub open spec fn context(&self, request_id: String, facts: ChildPermissionFacts) -> Option<
        RuntimePermissionContext,
    > {
        if self.task_id is Some && self.task_revision_floor is Some && self.agent_id is Some
            && self.turn_id is Some && facts.revision is Some && request_id@.len() > 0
            && facts.revision_valid && facts.request_id_valid {
            Some(
                RuntimePermissionContext::Child {
                    task_id: self.task_id->0,
                    task_revision: self.task_revision_floor->0,
                    agent_id: self.agent_id->0,
                    agent_revision: facts.revision->0,
                    activity_id: request_id,
                    turn_id: self.turn_id->0,
                    tool_call_id: request_id,
                    origin: SurfacePermissionOrigin::ChildAgent,
                },
            )
        } else {
            None
        }
    }

    pub fn context_for(&self, request_id: &String, facts: ChildPermissionFacts) -> (r: Result<
        RuntimePermissionContext,
        PermissionError,
    >)
        ensures
            match r {
                Ok(context) => self.context(*request_id, facts) == Some(context),
                Err(e) => self.context(*request_id, facts) is None && e@
                    == missing_identity_error(),
            },
    {
        match (
            &self.task_id,
            &self.task_revision_floor,
            &self.agent_id,
            &self.turn_id,
            facts.revision,
        ) {
            (Some(task_id), Some(task_revision), Some(agent_id), Some(turn_id), Some(revision)) => {
                if request_id.as_str().unicode_len() == 0 {
                    return Err(missing_identity());
                }
                if !facts.revision_valid || !facts.request_id_valid {
                    return Err(missing_identity());
                }
                Ok(
                    RuntimePermissionContext::Child {
                        task_id: task_id.clone(),
                        task_revision: *task_revision,
                        agent_id: agent_id.clone(),
                        agent_revision: revision,
                        activity_id: request_id.clone(),
                        turn_id: turn_id.clone(),
                        tool_call_id: request_id.clone(),
                        origin: SurfacePermissionOrigin::ChildAgent,
                    },
                )
            },
            _ => Err(missing_identity()),
        }
    }

    /// A request under the child's own identity, whatever context it came with.
    pub fn scoped_request(&self, request: &RuntimePermissionRequest, facts: ChildPermissionFacts) -> (r:
        Result<RuntimePermissionRequest, PermissionError>)
        ensures
            match r {
                Ok(scoped) => self.context(request.id, facts) is Some && scoped == (
                RuntimePermissionRequest {
                    context: self.context(request.id, facts)->0,
                    ..*request
                }),
                Err(e) => self.context(request.id, facts) is None && e@
                    == missing_identity_error(),
            },
    {
        match self.context_for(&request.id, facts) {
            Ok(context) => Ok(
                RuntimePermissionRequest {
                    id: request.id.clone(),
                    reason: clone_text(&request.reason),
                    permissions: request.permissions.clone(),
                    context,
                },
            ),
            Err(e) => Err(e),
        }
    }
}

pub open spec fn missing_identity_error() -> PermissionErrorView {
    PermissionErrorView {
        kind: PermissionErrorKind::PermissionDenied,
        message: "child permission identity is incomplete; refusing permission request"@,
    }
}

pub fn missing_identity() -> (r: PermissionError)
    ensures
        r@ == missing_identity_error(),
{
    PermissionError {
        kind: PermissionErrorKind::PermissionDenied,
        message: "child permission identity is incomplete; refusing permission request".to_owned(),
    }
}

/// What a detached child was admitted as.
#[derive(Debug)]
pub struct DetachedSubagentBinding {
    pub task_id: String,
    pub subagent_id: String,
    pub attempt_id: AgentAttemptId,
    pub task_revision: u64,
    pub authority_digest: Sha256Digest,
    pub permission_response_public_key: Vec<u8>,
}

/// A record of the mailbox.
#[derive(Debug)]
pub struct DetachedPermissionRecord {
    pub key: String,
    pub interaction_id: String,
    pub request: RuntimePermissionRequest,
    pub attempt_id: AgentAttemptId,
    pub authority_digest: Sha256Digest,
    pub permission_response_public_key: Vec<u8>,
    pub request_digest: String,
    pub response: Option<RuntimePermissionResponse>,
    pub response_digest: Option<String>,
    /// Whether the response's signature verifies with the key of the binding.
    pub signature_verified: bool,
}

/// The key under which a child's request is kept.
pub open spec fn mailbox_key(binding: DetachedSubagentBinding, request_id: Seq<char>) -> Seq<char> {
    binding.task_id@ + ":"@ + binding.attempt_id@ + ":"@ + request_id
}

pub fn detached_mailbox_key(binding: &DetachedSubagentBinding, request_id: &str) -> (r: String)
    ensures
        r@ == mailbox_key(*binding, request_id@),
{
    let head = plus3(binding.task_id.as_str(), ":", binding.attempt_id.as_str());
    plus3(head.as_str(), ":", request_id)
}

/// A context names the bound child and one of its tool calls.
pub open spec fn owned_call(
    context: RuntimePermissionContextView,
    binding: DetachedSubagentBinding,
    request_id: Seq<char>,
) -> bool {
    context matches RuntimePermissionContextView::Child {
        task_id,
        task_revision,
        agent_id,
        tool_call_id,
        origin,
        ..
    } && task_id == binding.task_id@ && task_revision == binding.task_revision && agent_id
        == binding.subagent_id@ && tool_call_id == request_id && origin
        == SurfacePermissionOrigin::ChildAgent
}

/// A context names the bound child.
pub open spec fn owned_child(
    context: RuntimePermissionContextView,
    binding: DetachedSubagentBinding,
) -> bool {
    context matches RuntimePermissionContextView::Child { task_id, agent_id, origin, .. }
        && task_id == binding.task_id@ && agent_id == binding.subagent_id@ && origin
        == SurfacePermissionOrigin::ChildAgent
}

fn owns_call(context: &RuntimePermissionContext, binding: &DetachedSubagentBinding, request_id: &String) -> (r:
    bool)
    ensures
        r == owned_call(context@, *binding, request_id@),
{
    match context {
        RuntimePermissionContext::Child {
            task_id,
            task_revision,
            agent_id,
            tool_call_id,
            origin,
            ..
        } => *task_id == binding.task_id && *task_revision == binding.task_revision && *agent_id
            == binding.subagent_id && *tool_call_id == *request_id && *origin
            == SurfacePermissionOrigin::ChildAgent,
        RuntimePermissionContext::Foreground { .. } => false,
    }
}

fn owns_child(context: &RuntimePermissionContext, binding: &DetachedSubagentBinding) -> (r: bool)
    ensures
        r == owned_child(context@, *binding),
{
    match context {
        RuntimePermissionContext::Child { task_id, agent_id, origin, .. } => *task_id
            == binding.task_id && *agent_id == binding.subagent_id && *origin
            == SurfacePermissionOrigin::ChildAgent,
        RuntimePermissionContext::Foreground { .. } => false,
    }
}

fn same_bytes(a: &Vec<u8>, b: &Vec<u8>) -> (r: bool)
    ensures
        r == (a@ == b@),
{
    if a.len() != b.len() {
        return false;
    }
    let mut i: usize = 0;
    while i < a.len()
        invariant
            i <= a.len(),
            a@.len() == b@.len(),
            forall|j: int| 0 <= j < i ==> a@[j] == b@[j],
        decreases a.len() - i,
    {
        if a[i] != b[i] {
            return false;
        }
        i += 1;
    }
    assert(a@ =~= b@);
    true
}

/// A record is the one that the child put into the mailbox: same owner, key,
/// interaction, request, attempt, authority and verification key.
pub open spec fn record_is_ours(
    record: DetachedPermissionRecord,
    binding: DetachedSubagentBinding,
    request: RuntimePermissionRequestView,
    key: Seq<char>,
    interaction_id: Seq<char>,
) -> bool {
    &&& owned_call(record.request.context@, binding, request.id)
    &&& record.key@ == key
    &&& record.key@ == mailbox_key(binding, request.id)
    &&& record.interaction_id@ == interaction_id
    &&& record.request@ == request
    &&& record.attempt_id@ == binding.attempt_id@
    &&& record.authority_digest == binding.authority_digest
    &&& record.permission_response_public_key@ == binding.permission_response_public_key@
}

fn check_ours(
    record: &DetachedPermissionRecord,
    binding: &DetachedSubagentBinding,
    request: &RuntimePermissionRequest,
    key: &String,
    interaction_id: &String,
) -> (r: bool)
    ensures
        r == record_is_ours(*record, *binding, request@, key@, interaction_id@),
{
    let expected_key = detached_mailbox_key(binding, request.id.as_str());
    owns_call(&record.request.context, binding, &request.id) && record.key == *key && record.key
        == expected_key && record.interaction_id == *interaction_id && record.request.same(request)
        && record.attempt_id.same(&binding.attempt_id) && record.authority_digest.same(
        &binding.authority_digest,
    ) && same_bytes(
        &record.permission_response_public_key,
        &binding.permission_response_public_key,
    )
}

/// A record may be closed by the bound child.
pub open spec fn deniable(
    record: DetachedPermissionRecord,
    binding: DetachedSubagentBinding,
    key: Seq<char>,
) -> bool {
    &&& owned_child(record.request.context@, binding)
    &&& record.key@ == key
    &&& record.key@ == mailbox_key(binding, record.request.id@)
    &&& record.attempt_id@ == binding.attempt_id@
    &&& record.authority_digest == binding.authority_digest
}

fn check_deniable(
    record: &DetachedPermissionRecord,
    binding: &DetachedSubagentBinding,
    key: &String,
) -> (r: bool)
    ensures
        r == deniable(*record, *binding, key@),
{
    let expected_key = detached_mailbox_key(binding, record.request.id.as_str());
    owns_child(&record.request.context, binding) && record.key == *key && record.key
        == expected_key && record.attempt_id.same(&binding.attempt_id)
        && record.authority_digest.same(&binding.authority_digest)
}

/// How long a detached child waits for a response, in milliseconds.
pub const DETACHED_PERMISSION_TIMEOUT_MS: u64 = 600000;

/// Why an exchange ends without an answer.
#[derive(Clone, Copy, Debug, PartialEq, Eq, Structural)]
pub enum DenialCause {
    Cancelled,
    Expired,
}

impl DenialCause {
    pub open spec fn error_kind(self) -> PermissionErrorKind {
        match self {
            DenialCause::Cancelled => PermissionErrorKind::Interrupted,
            DenialCause::Expired => PermissionErrorKind::TimedOut,
        }
    }

    pub fn kind(self) -> (r: PermissionErrorKind)
        ensures
            r == self.error_kind(),
    {
        match self {
            DenialCause::Cancelled => PermissionErrorKind::Interrupted,
            DenialCause::Expired => PermissionErrorKind::TimedOut,
        }
    }

    pub open spec fn text(self) -> Seq<char> {
        match self {
            DenialCause::Cancelled => "detached permission request was cancelled"@,
            DenialCause::Expired => "detached permission request timed out waiting for the runtime actor"@,
        }
    }

    pub fn message(self) -> (r: &'static str)
        ensures
            r@ == self.text(),
    {
        match self {
            DenialCause::Cancelled => "detached permission request was cancelled",
            DenialCause::Expired => "detached permission request timed out waiting for the runtime actor",
        }
    }
}

/// What an exchange waits for.
#[derive(Clone, Copy, Debug, PartialEq, Eq, Structural)]
pub enum ExchangePhase {
    Enqueuing,
    /// Whether to go on waiting.
    Watching,
    Reading,
    /// Whether an answer may still be taken.
    Confirming,
    Acknowledging,
    /// Whether an acknowledged answer may still be used.
    Settling,
    Sleeping,
    DenialReading,
    DenialResolving,
    DenialRereading,
    DenialAcknowledging,
    Done,
}

/// The wait for one permission response of a detached child.
#[derive(Debug)]
pub struct DetachedPermissionExchange {
    pub binding: DetachedSubagentBinding,
    pub request: RuntimePermissionRequest,
    pub key: String,
    /// The interaction that the mailbox must name.
    pub interaction_id: String,
    pub record: Option<DetachedPermissionRecord>,
    pub cause: DenialCause,
    /// Why a denial could not be stored at once.
    pub fault: String,
    pub phase: ExchangePhase,
}

/// What an exchange asks for.
#[derive(Debug)]
#[allow(inconsistent_fields)]
pub enum ExchangeAction {
    /// Put the request into the mailbox.
    Enqueue,
    /// Look whether the child is cancelled and whether its time is up.
    Observe,
    /// Read the record of the key.
    ReadRecord,
    Acknowledge { request_digest: String, response_digest: String },
    /// Answer the request oneself.
    Resolve { request_digest: String, response: RuntimePermissionResponse },
    Sleep { millis: u64 },
    Return { result: Result<RuntimePermissionResponse, PermissionError> },
}

/// What came of what an exchange asked for.
#[derive(Debug)]
#[allow(inconsistent_fields)]
pub enum ExchangeEvent {
    Enqueued { result: Result<String, String> },
    Observed { cancelled: bool, expired: bool },
    /// The record, and the interaction that belongs to the binding and the
    /// request.
    Record {
        record: Result<Option<DetachedPermissionRecord>, String>,
        interaction_id: Result<String, String>,
    },
    Acknowledged { result: Result<(), String> },
    Resolved { result: Result<(), String> },
    Slept,
}

#[allow(inconsistent_fields)]
pub ghost enum ExchangeActionView {
    Enqueue,
    Observe,
    ReadRecord,
    Acknowledge { request_digest: String, response_digest: String },
    Deny { request_digest: String },
    Sleep { millis: u64 },
    Allowed { response: RuntimePermissionResponse },
    Refused { error: PermissionErrorView },
}

/// A response that grants nothing.
pub open spec fn is_denial(response: RuntimePermissionResponse) -> bool {
    &&& response.decision == PermissionResponseDecision::Deny
    &&& response.scope == PermissionGrantScope::Turn
    &&& response.permissions@.len() == 0
    &&& !response.strict_auto_review
}

/// An action is the one that is described.
pub open spec fn is_exchange_action(action: ExchangeAction, view: ExchangeActionView) -> bool {
    match view {
        ExchangeActionView::Enqueue => action == ExchangeAction::Enqueue,
        ExchangeActionView::Observe => action == ExchangeAction::Observe,
        ExchangeActionView::ReadRecord => action == ExchangeAction::ReadRecord,
        ExchangeActionView::Acknowledge { request_digest, response_digest } => action == (
        ExchangeAction::Acknowledge { request_digest, response_digest }),
        ExchangeActionView::Deny { request_digest } => action matches ExchangeAction::Resolve {
            request_digest: d,
            response,
        } && d == request_digest && is_denial(response),
        ExchangeActionView::Sleep { millis } => action == (ExchangeAction::Sleep { millis }),
        ExchangeActionView::Allowed { response } => action == (ExchangeAction::Return {
            result: Ok(response),
        }),
        ExchangeActionView::Refused { error } => action matches ExchangeAction::Return {
            result: Err(e),
        } && e@ == error,
    }
}

impl DetachedPermissionExchange {
    pub open spec fn at(self, phase: ExchangePhase) -> Self {
        DetachedPermissionExchange { phase, ..self }
    }

    pub open spec fn refuse(self, kind: PermissionErrorKind, message: Seq<char>) -> (
        Self,
        ExchangeActionView,
    ) {
        (
            self.at(ExchangePhase::Done),
            ExchangeActionView::Refused { error: PermissionErrorView { kind, message } },
        )
    }

    /// The exchange ends without an answer. First the request is closed, so that
    /// nobody is asked again on its behalf.
    pub open spec fn deny(self, cause: DenialCause) -> (Self, ExchangeActionView) {
        (
            DetachedPermissionExchange { cause, phase: ExchangePhase::DenialReading, ..self },
            ExchangeActionView::ReadRecord,
        )
    }

    /// The end of an exchange whose request could be closed, or could not for
    /// the given reason.
    pub open spec fn denied(self, fault: Option<Seq<char>>) -> (Self, ExchangeActionView) {
        self.refuse(
            self.cause.error_kind(),
            match fault {
                None => self.cause.text(),
                Some(fault) => self.cause.text()
                    + "; failed to persist terminal denial: "@ + fault,
            },
        )
    }

    pub open spec fn after_enqueue(self, result: Result<String, String>) -> (
        Self,
        ExchangeActionView,
    ) {
        match result {
            Ok(key) => (
                DetachedPermissionExchange { key, phase: ExchangePhase::Watching, ..self },
                ExchangeActionView::Observe,
            ),
            Err(e) => self.refuse(PermissionErrorKind::Other, e@),
        }
    }

    pub open spec fn after_read(
        self,
        record: Result<Option<DetachedPermissionRecord>, String>,
        interaction_id: Result<String, String>,
    ) -> (Self, ExchangeActionView) {
        match record {
            Err(e) => self.refuse(PermissionErrorKind::Other, e@),
            Ok(None) => self.refuse(
                PermissionErrorKind::NotFound,
                "detached permission request disappeared"@,
            ),
            Ok(Some(record)) => match interaction_id {
                Err(e) => self.refuse(PermissionErrorKind::Other, e@),
                Ok(interaction_id) => if !record_is_ours(
                    record,
                    self.binding,
                    self.request@,
                    self.key@,
                    interaction_id@,
                ) {
                    self.refuse(
                        PermissionErrorKind::PermissionDenied,
                        "detached permission response owner does not match the admitted child"@,
                    )
                } else if record.response is Some {
                    (
                        DetachedPermissionExchange {
                            record: Some(record),
                            interaction_id,
                            phase: ExchangePhase::Confirming,
                            ..self
                        },
                        ExchangeActionView::Observe,
                    )
                } else {
                    (self.at(ExchangePhase::Sleeping), ExchangeActionView::Sleep { millis: 50 })
                },
            },
        }
    }

    pub open spec fn after_observation(self, cancelled: bool, expired: bool) -> (
        Self,
        ExchangeActionView,
    ) {
        if cancelled {
            self.deny(DenialCause::Cancelled)
        } else if self.phase == ExchangePhase::Settling {
            (
                self.at(ExchangePhase::Done),
                ExchangeActionView::Allowed { response: self.record->0.response->0 },
            )
        } else if expired {
            self.deny(DenialCause::Expired)
        } else if self.phase == ExchangePhase::Watching {
            (self.at(ExchangePhase::Reading), ExchangeActionView::ReadRecord)
        } else if !self.record->0.signature_verified {
            self.refuse(
                PermissionErrorKind::PermissionDenied,
                "detached permission response failed actor signature verification"@,
            )
        } else {
            match self.record->0.response_digest {
                None => self.refuse(
                    PermissionErrorKind::InvalidData,
                    "detached permission response is missing its digest"@,
                ),
                Some(response_digest) => (
                    self.at(ExchangePhase::Acknowledging),
                    ExchangeActionView::Acknowledge {
                        request_digest: self.record->0.request_digest,
                        response_digest,
                    },
                ),
            }
        }
    }

    pub open spec fn after_denial_read(
        self,
        record: Result<Option<DetachedPermissionRecord>, String>,
    ) -> (Self, ExchangeActionView) {
        match record {
            Err(e) => self.denied(Some(e@)),
            Ok(None) => self.denied(None),
            Ok(Some(record)) => if !deniable(record, self.binding, self.key@) {
                self.denied(
                    Some(
                        "detached permission terminal denial owner does not match the admitted child"@,
                    ),
                )
            } else {
                match record.response_digest {
                    Some(response_digest) => (
                        self.at(ExchangePhase::DenialAcknowledging),
                        ExchangeActionView::Acknowledge {
                            request_digest: record.request_digest,
                            response_digest,
                        },
                    ),
                    None => if record.response is Some {
                        self.denied(Some("detached permission response is missing its digest"@))
                    } else {
                        (
                            DetachedPermissionExchange {
                                record: Some(record),
                                phase: ExchangePhase::DenialResolving,
                                ..self
                            },
                            ExchangeActionView::Deny { request_digest: record.request_digest },
                        )
                    },
                }
            },
        }
    }

    /// The denial was refused: an answer that came first is acknowledged, so
    /// that it cannot be used later.
    pub open spec fn after_denial_reread(
        self,
        record: Result<Option<DetachedPermissionRecord>, String>,
    ) -> (Self, ExchangeActionView) {
        match record {
            Err(e) => self.denied(Some(e@)),
            Ok(None) => self.denied(None),
            Ok(Some(latest)) => if latest.request_digest@ != self.record->0.request_digest@
                || latest.response_digest is None || latest.response is None {
                self.denied(Some(self.fault@))
            } else {
                (
                    self.at(ExchangePhase::DenialAcknowledging),
                    ExchangeActionView::Acknowledge {
                        request_digest: latest.request_digest,
                        response_digest: latest.response_digest->0,
                    },
                )
            },
        }
    }

    /// What follows an event.
    pub open spec fn after(self, event: ExchangeEvent) -> (Self, ExchangeActionView) {
        match event {
            ExchangeEvent::Enqueued { result } => self.after_enqueue(result),
            ExchangeEvent::Observed { cancelled, expired } => self.after_observation(
                cancelled,
                expired,
            ),
            ExchangeEvent::Record { record, interaction_id } => match self.phase {
                ExchangePhase::DenialReading => self.after_denial_read(record),
                ExchangePhase::DenialRereading => self.after_denial_reread(record),
                _ => self.after_read(record, interaction_id),
            },
            ExchangeEvent::Acknowledged { result } => match self.phase {
                ExchangePhase::DenialAcknowledging => match result {
                    Ok(_) => self.denied(None),
                    Err(e) => self.denied(Some(e@)),
                },
                _ => match result {
                    Ok(_) => (self.at(ExchangePhase::Settling), ExchangeActionView::Observe),
                    Err(e) => self.refuse(PermissionErrorKind::Other, e@),
                },
            },
            ExchangeEvent::Resolved { result } => match result {
                Ok(_) => self.denied(None),
                Err(fault) => (
                    DetachedPermissionExchange {
                        fault,
                        phase: ExchangePhase::DenialRereading,
                        ..self
                    },
                    ExchangeActionView::ReadRecord,
                ),
            },
            ExchangeEvent::Slept => (
                self.at(ExchangePhase::Watching),
                ExchangeActionView::Observe,
            ),
        }
    }

    /// An event answers what was asked for.
    pub open spec fn expects(self, event: ExchangeEvent) -> bool {
        match event {
            ExchangeEvent::Enqueued { .. } => self.phase == ExchangePhase::Enqueuing,
            ExchangeEvent::Observed { .. } => self.phase == ExchangePhase::Watching || self.phase
                == ExchangePhase::Confirming || self.phase == ExchangePhase::Settling,
            ExchangeEvent::Record { .. } => self.phase == ExchangePhase::Reading || self.phase
                == ExchangePhase::DenialReading || self.phase == ExchangePhase::DenialRereading,
            ExchangeEvent::Acknowledged { .. } => self.phase == ExchangePhase::Acknowledging
                || self.phase == ExchangePhase::DenialAcknowledging,
            ExchangeEvent::Resolved { .. } => self.phase == ExchangePhase::DenialResolving,
            ExchangeEvent::Slept => self.phase == ExchangePhase::Sleeping,
        }
    }

    /// What every exchange keeps: an answer that is taken up is on a record of
    /// this very request, and one that is acknowledged was signed by the
    /// runtime.
    pub open spec fn wf(self) -> bool {
        &&& self.phase == ExchangePhase::Confirming || self.phase == ExchangePhase::Acknowledging
            || self.phase == ExchangePhase::Settling ==> self.record is Some
            && self.record->0.response is Some && record_is_ours(
            self.record->0,
            self.binding,
            self.request@,
            self.key@,
            self.interaction_id@,
        )
        &&& self.phase == ExchangePhase::Acknowledging || self.phase == ExchangePhase::Settling
            ==> self.record->0.signature_verified && self.record->0.response_digest is Some
        &&& self.phase == ExchangePhase::DenialResolving || self.phase
            == ExchangePhase::DenialRereading ==> self.record is Some
    }

    /// Scopes a request to the child and begins the exchange.
    pub fn start(
        identity: &ChildPermissionIdentity,
        facts: ChildPermissionFacts,
        binding: DetachedSubagentBinding,
        request: &RuntimePermissionRequest,
    ) -> (r: Result<(Self, ExchangeAction), PermissionError>)
        ensures
            match r {
                Ok((exchange, action)) => {
                    &&& identity.context(request.id, facts) is Some
                    &&& exchange.binding == binding
                    &&& exchange.request == (RuntimePermissionRequest {
                        context: identity.context(request.id, facts)->0,
                        ..*request
                    })
                    &&& exchange.phase == ExchangePhase::Enqueuing
                    &&& exchange.wf()
                    &&& action == ExchangeAction::Enqueue
                },
                Err(e) => identity.context(request.id, facts) is None && e@
                    == missing_identity_error(),
            },
    {
        match identity.scoped_request(request, facts) {
            Ok(scoped) => Ok(
                (
                    DetachedPermissionExchange {
                        binding,
                        request: scoped,
                        key: String::new(),
                        interaction_id: String::new(),
                        record: None,
                        cause: DenialCause::Cancelled,
                        fault: String::new(),
                        phase: ExchangePhase::Enqueuing,
                    },
                    ExchangeAction::Enqueue,
                ),
            ),
            Err(e) => Err(e),
        }
    }

    fn end(self, kind: PermissionErrorKind, message: String) -> (r: (Self, ExchangeAction))
        ensures
            r.0 == self.refuse(kind, message@).0,
            is_exchange_action(r.1, self.refuse(kind, message@).1),
    {
        (
            DetachedPermissionExchange { phase: ExchangePhase::Done, ..self },
            ExchangeAction::Return { result: Err(PermissionError { kind, message }) },
        )
    }

    fn begin_denial(self, cause: DenialCause) -> (r: (Self, ExchangeAction))
        ensures
            r.0 == self.deny(cause).0,
            is_exchange_action(r.1, self.deny(cause).1),
    {
        (
            DetachedPermissionExchange { cause, phase: ExchangePhase::DenialReading, ..self },
            ExchangeAction::ReadRecord,
        )
    }

    fn end_denial(self) -> (r: (Self, ExchangeAction))
        ensures
            r.0 == self.denied(None).0,
            is_exchange_action(r.1, self.denied(None).1),
    {
        let cause = self.cause;
        self.end(cause.kind(), cause.message().to_owned())
    }

    fn end_failed_denial(self, fault: &str) -> (r: (Self, ExchangeAction))
        ensures
            r.0 == self.denied(Some(fault@)).0,
            is_exchange_action(r.1, self.denied(Some(fault@)).1),
    {
        let cause = self.cause;
        let message = plus3(
            cause.message(),
            "; failed to persist terminal denial: ",
            fault,
        );
        self.end(cause.kind(), message)
    }

    fn take_record(
        self,
        record: Result<Option<DetachedPermissionRecord>, String>,
        interaction_id: Result<String, String>,
    ) -> (r: (Self, ExchangeAction))
        ensures
            r.0 == self.after_read(record, interaction_id).0,
            is_exchange_action(r.1, self.after_read(record, interaction_id).1),
    {
        let record = match record {
            Err(e) => {
                return self.end(PermissionErrorKind::Other, e);
            },
            Ok(None) => {
                return self.end(
                    PermissionErrorKind::NotFound,
                    "detached permission request disappeared".to_owned(),
                );
            },
            Ok(Some(record)) => record,
        };
        let interaction_id = match interaction_id {
            Err(e) => {
                return self.end(PermissionErrorKind::Other, e);
            },
            Ok(interaction_id) => interaction_id,
        };
        if !check_ours(&record, &self.binding, &self.request, &self.key, &interaction_id) {
            return self.end(
                PermissionErrorKind::PermissionDenied,
                "detached permission response owner does not match the admitted child".to_owned(),
            );
        }
        if record.response.is_some() {
            (
                DetachedPermissionExchange {
                    record: Some(record),
                    interaction_id,
                    phase: ExchangePhase::Confirming,
                    ..self
                },
                ExchangeAction::Observe,
            )
        } else {
            (
                DetachedPermissionExchange { phase: ExchangePhase::Sleeping, ..self },
                ExchangeAction::Sleep { millis: 50 },
            )
        }
    }

    fn take_observation(self, cancelled: bool, expired: bool) -> (r: (Self, ExchangeAction))
        requires
            self.wf(),
            self.expects((ExchangeEvent::Observed { cancelled, expired })),
        ensures
            r.0 == self.after_observation(cancelled, expired).0,
            is_exchange_action(r.1, self.after_observation(cancelled, expired).1),
    {
        if cancelled {
            return self.begin_denial(DenialCause::Cancelled);
        }
        match self.phase {
            ExchangePhase::Settling => {
                let response = match &self.record {
                    Some(record) => match &record.response {
                        Some(response) => RuntimePermissionResponse {
                            decision: response.decision,
                            scope: response.scope,
                            permissions: response.permissions.clone(),
                            strict_auto_review: response.strict_auto_review,
                        },
                        None => vstd::pervasive::unreached(),
                    },
                    None => vstd::pervasive::unreached(),
                };
                (
                    DetachedPermissionExchange { phase: ExchangePhase::Done, ..self },
                    ExchangeAction::Return { result: Ok(response) },
                )
            },
            ExchangePhase::Watching => {
                if expired {
                    return self.begin_denial(DenialCause::Expired);
                }
                (
                    DetachedPermissionExchange { phase: ExchangePhase::Reading, ..self },
                    ExchangeAction::ReadRecord,
                )
            },
            _ => {
                if expired {
                    return self.begin_denial(DenialCause::Expired);
                }
                let (verified, request_digest, response_digest) = match &self.record {
                    Some(record) => (
                        record.signature_verified,
                        record.request_digest.clone(),
                        clone_text(&record.response_digest),
                    ),
                    None => vstd::pervasive::unreached(),
                };
                if !verified {
                    return self.end(
                        PermissionErrorKind::PermissionDenied,
                        "detached permission response failed actor signature verification".to_owned(),
                    );
                }
                match response_digest {
                    None => self.end(
                        PermissionErrorKind::InvalidData,
                        "detached permission response is missing its digest".to_owned(),
                    ),
                    Some(response_digest) => (
                        DetachedPermissionExchange { phase: ExchangePhase::Acknowledging, ..self },
                        ExchangeAction::Acknowledge { request_digest, response_digest },
                    ),
                }
            },
        }
    }

    fn close_record(self, record: Result<Option<DetachedPermissionRecord>, String>) -> (r: (
        Self,
        ExchangeAction,
    ))
        ensures
            r.0 == self.after_denial_read(record).0,
            is_exchange_action(r.1, self.after_denial_read(record).1),
    {
        let record = match record {
            Err(e) => {
                return self.end_failed_denial(e.as_str());
            },
            Ok(None) => {
                return self.end_denial();
            },
            Ok(Some(record)) => record,
        };
        if !check_deniable(&record, &self.binding, &self.key) {
            return self.end_failed_denial(
                "detached permission terminal denial owner does not match the admitted child",
            );
        }
        if let Some(response_digest) = record.response_digest {
            return (
                DetachedPermissionExchange { phase: ExchangePhase::DenialAcknowledging, ..self },
                ExchangeAction::Acknowledge {
                    request_digest: record.request_digest,
                    response_digest,
                },
            );
        }
        if record.response.is_some() {
            return self.end_failed_denial("detached permission response is missing its digest");
        }
        let request_digest = record.request_digest.clone();
        (
            DetachedPermissionExchange {
                record: Some(record),
                phase: ExchangePhase::DenialResolving,
                ..self
            },
            ExchangeAction::Resolve { request_digest, response: terminal_denial() },
        )
    }

    fn close_raced_record(self, record: Result<Option<DetachedPermissionRecord>, String>) -> (r: (
        Self,
        ExchangeAction,
    ))
        requires
            self.record is Some,
        ensures
            r.0 == self.after_denial_reread(record).0,
            is_exchange_action(r.1, self.after_denial_reread(record).1),
    {
        let latest = match record {
            Err(e) => {
                return self.end_failed_denial(e.as_str());
            },
            Ok(None) => {
                return self.end_denial();
            },
            Ok(Some(latest)) => latest,
        };
        let same_request = match &self.record {
            Some(record) => latest.request_digest == record.request_digest,
            None => vstd::pervasive::unreached(),
        };
        let fault = self.fault.clone();
        if !same_request || latest.response.is_none() {
            return self.end_failed_denial(fault.as_str());
        }
        match latest.response_digest {
            None => self.end_failed_denial(fault.as_str()),
            Some(response_digest) => (
                DetachedPermissionExchange { phase: ExchangePhase::DenialAcknowledging, ..self },
                ExchangeAction::Acknowledge {
                    request_digest: latest.request_digest,
                    response_digest,
                },
            ),
        }
    }

    /// Moves on after an event.
    pub fn next(self, event: ExchangeEvent) -> (r: (Self, ExchangeAction))
        requires
            self.wf(),
            self.expects(event),
        ensures
            r.0 == self.after(event).0,
            is_exchange_action(r.1, self.after(event).1),
            r.0.wf(),
    {
        match event {
            ExchangeEvent::Enqueued { result } => match result {
                Ok(key) => (
                    DetachedPermissionExchange { key, phase: ExchangePhase::Watching, ..self },
                    ExchangeAction::Observe,
                ),
                Err(e) => self.end(PermissionErrorKind::Other, e),
            },
            ExchangeEvent::Observed { cancelled, expired } => self.take_observation(
                cancelled,
                expired,
            ),
            ExchangeEvent::Record { record, interaction_id } => match self.phase {
                ExchangePhase::DenialReading => self.close_record(record),
                ExchangePhase::DenialRereading => self.close_raced_record(record),
                _ => self.take_record(record, interaction_id),
            },
            ExchangeEvent::Acknowledged { result } => match self.phase {
                ExchangePhase::DenialAcknowledging => match result {
                    Ok(_) => self.end_denial(),
                    Err(e) => self.end_failed_denial(e.as_str()),
                },
                _ => match result {
                    Ok(_) => (
                        DetachedPermissionExchange { phase: ExchangePhase::Settling, ..self },
                        ExchangeAction::Observe,
                    ),
                    Err(e) => self.end(PermissionErrorKind::Other, e),
                },
            },
            ExchangeEvent::Resolved { result } => match result {
                Ok(_) => self.end_denial(),
                Err(fault) => (
                    DetachedPermissionExchange {
                        fault,
                        phase: ExchangePhase::DenialRereading,
                        ..self
                    },
                    ExchangeAction::ReadRecord,
                ),
            },
            ExchangeEvent::Slept => (
                DetachedPermissionExchange { phase: ExchangePhase::Watching, ..self },
                ExchangeAction::Observe,
            ),
        }
    }
}

/// The response with which a child closes its own request.
pub fn terminal_denial() -> (r: RuntimePermissionResponse)
    ensures
        is_denial(r),
{
    RuntimePermissionResponse {
        decision: PermissionResponseDecision::Deny,
        scope: PermissionGrantScope::Turn,
        permissions: String::new(),
        strict_auto_review: false,
    }
}

/// A child gets an answer only from a record of its own request whose response
/// the runtime signed.
pub proof fn answers_are_signed_and_ours(exchange: DetachedPermissionExchange, event: ExchangeEvent)
    requires
        exchange.wf(),
        exchange.expects(event),
        exchange.after(event).1 is Allowed,
    ensures
        exchange.record is Some,
        exchange.record->0.signature_verified,
        record_is_ours(
            exchange.record->0,
            exchange.binding,
            exchange.request@,
            exchange.key@,
            exchange.interaction_id@,
        ),
        exchange.after(event).1 == (ExchangeActionView::Allowed {
            response: exchange.record->0.response->0,
        }),
{
}

/// A cancelled child gets no answer, and closes its request before it says so.
pub proof fn cancellation_yields_no_answer(exchange: DetachedPermissionExchange, expired: bool)
    ensures
        exchange.after(ExchangeEvent::Observed { cancelled: true, expired }).1
            == ExchangeActionView::ReadRecord,
        exchange.after(ExchangeEvent::Observed { cancelled: true, expired }).0.phase
            == ExchangePhase::DenialReading,
{
}

/// The exchange ends without an answer.
pub open spec fn ends_in_denial(phase: ExchangePhase) -> bool {
    phase == ExchangePhase::DenialReading || phase == ExchangePhase::DenialResolving || phase
        == ExchangePhase::DenialRereading || phase == ExchangePhase::DenialAcknowledging
}

/// Once an exchange ends without an answer, none is taken any more: every
/// outcome is the refusal that it began with.
pub proof fn denials_are_final(exchange: DetachedPermissionExchange, event: ExchangeEvent)
    requires
        exchange.expects(event),
        ends_in_denial(exchange.phase),
    ensures
        !(exchange.after(event).1 is Allowed),
        exchange.after(event).0.cause == exchange.cause,
        ends_in_denial(exchange.after(event).0.phase) || (exchange.after(event).0.phase
            == ExchangePhase::Done && exchange.after(event).1 is Refused
            && exchange.after(event).1->error.kind == exchange.cause.error_kind()),
{
}

/// A request goes out under the child's own identity and no other: its task, its
/// agent, its turn, and the call that it is made for. It goes out exactly if that
/// identity is complete.
pub proof fn requests_carry_the_childs_identity(
    identity: ChildPermissionIdentity,
    request_id: String,
    facts: ChildPermissionFacts,
)
    ensures
        identity.context(request_id, facts) is Some <==> {
            &&& identity.task_id is Some
            &&& identity.task_revision_floor is Some
            &&& identity.agent_id is Some
            &&& identity.turn_id is Some
            &&& facts.revision is Some
            &&& facts.revision_valid
            &&& facts.request_id_valid
            &&& request_id@.len() > 0
        },
        identity.context(request_id, facts) matches Some(context) ==> (
        context matches RuntimePermissionContext::Child {
            task_id,
            task_revision,
            agent_id,
            agent_revision,
            activity_id,
            turn_id,
            tool_call_id,
            origin,
        } && Some(task_id) == identity.task_id && Some(task_revision)
            == identity.task_revision_floor && Some(agent_id) == identity.agent_id && Some(
            agent_revision,
        ) == facts.revision && activity_id == request_id && Some(turn_id) == identity.turn_id
            && tool_call_id == request_id && origin == SurfacePermissionOrigin::ChildAgent),
{
}

/// A record is the child's own exactly if it holds the very request, under its
/// key, for its task, agent, attempt and call, and names the authority and the key
/// that its answers are signed with.
pub proof fn own_records_name_the_whole_binding(
    record: DetachedPermissionRecord,
    binding: DetachedSubagentBinding,
    request: RuntimePermissionRequestView,
    key: Seq<char>,
    interaction_id: Seq<char>,
)
    ensures
        record_is_ours(record, binding, request, key, interaction_id) <==> {
            &&& record.request@ == request
            &&& record.key@ == key
            &&& key == binding.task_id@ + ":"@ + binding.attempt_id@ + ":"@ + request.id
            &&& record.interaction_id@ == interaction_id
            &&& record.attempt_id@ == binding.attempt_id@
            &&& record.authority_digest == binding.authority_digest
            &&& record.permission_response_public_key@ == binding.permission_response_public_key@
            &&& request.context matches RuntimePermissionContextView::Child {
                task_id,
                task_revision,
                agent_id,
                tool_call_id,
                origin,
                ..
            } && task_id == binding.task_id@ && task_revision == binding.task_revision
                && agent_id == binding.subagent_id@ && tool_call_id == request.id && origin
                == SurfacePermissionOrigin::ChildAgent
        },
{
}

/// The answer with which a child closes its own request allows nothing.
pub proof fn own_denials_allow_nothing(response: RuntimePermissionResponse)
    requires
        is_denial(response),
    ensures
        response.decision != PermissionResponseDecision::Allow,
        response.scope != PermissionGrantScope::Session,
        response.permissions@ == Seq::<char>::empty(),
        !response.strict_auto_review,
{
    assert(response.permissions@ =~= Seq::<char>::empty());
}

/// A child that is neither cancelled nor out of time waits for its own record,
/// takes the answer that stands in it once its signature verifies, acknowledges
/// that answer, and only then uses it.
pub proof fn signed_answers_are_taken(
    exchange: DetachedPermissionExchange,
    record: DetachedPermissionRecord,
    interaction_id: String,
)
    ensures
        exchange.phase == ExchangePhase::Watching ==> exchange.after(
            ExchangeEvent::Observed { cancelled: false, expired: false },
        ).1 == ExchangeActionView::ReadRecord,
        exchange.phase == ExchangePhase::Reading && record_is_ours(
            record,
            exchange.binding,
            exchange.request@,
            exchange.key@,
            interaction_id@,
        ) ==> {
            let (next, action) = exchange.after(
                ExchangeEvent::Record { record: Ok(Some(record)), interaction_id: Ok(interaction_id) },
            );
            &&& record.response is Some ==> action == ExchangeActionView::Observe && next.phase
                == ExchangePhase::Confirming && next.record == Some(record)
            &&& record.response is None ==> action is Sleep && next.phase
                == ExchangePhase::Sleeping
        },
        exchange.phase == ExchangePhase::Confirming && exchange.record == Some(record)
            && record.signature_verified && record.response_digest is Some ==> {
            let (next, action) = exchange.after(
                ExchangeEvent::Observed { cancelled: false, expired: false },
            );
            &&& action == (ExchangeActionView::Acknowledge {
                request_digest: record.request_digest,
                response_digest: record.response_digest->0,
            })
            &&& next.phase == ExchangePhase::Acknowledging
            &&& next.record == Some(record)
        },
        exchange.phase == ExchangePhase::Acknowledging ==> exchange.after(
            ExchangeEvent::Acknowledged { result: Ok(()) },
        ).0.phase == ExchangePhase::Settling && exchange.after(
            ExchangeEvent::Acknowledged { result: Ok(()) },
        ).0.record == exchange.record,
        exchange.phase == ExchangePhase::Settling && exchange.record == Some(record)
            && record.response is Some ==> exchange.after(
            ExchangeEvent::Observed { cancelled: false, expired: false },
        ).1 == (ExchangeActionView::Allowed { response: record.response->0 }),
        exchange.phase == ExchangePhase::Sleeping ==> exchange.after(ExchangeEvent::Slept).1
            == ExchangeActionView::Observe && exchange.after(ExchangeEvent::Slept).0.phase
            == ExchangePhase::Watching,
{
}

/// A record that is not the child's own, an answer that is not signed, and a
/// record that went away end the exchange without an answer; so does a failure to
/// reach the mailbox.
pub proof fn doubtful_answers_are_refused(
    exchange: DetachedPermissionExchange,
    event: ExchangeEvent,
)
    requires
        exchange.expects(event),
    ensures
        exchange.phase == ExchangePhase::Reading ==> (event matches ExchangeEvent::Record {
            record: Ok(Some(record)),
            interaction_id: Ok(interaction_id),
        } ==> (!record_is_ours(
            record,
            exchange.binding,
            exchange.request@,
            exchange.key@,
            interaction_id@,
        ) ==> (exchange.after(event).1 matches ExchangeActionView::Refused { error } && error.kind
            == PermissionErrorKind::PermissionDenied))),
        exchange.phase == ExchangePhase::Reading ==> (event matches ExchangeEvent::Record {
            record: Ok(None),
            ..
        } ==> (exchange.after(event).1 matches ExchangeActionView::Refused { error }
            && error.kind == PermissionErrorKind::NotFound)),
        exchange.phase == ExchangePhase::Reading ==> (event matches ExchangeEvent::Record {
            record: Err(e),
            ..
        } ==> (exchange.after(event).1 matches ExchangeActionView::Refused { error }
            && error.message == e@)),
        exchange.phase == ExchangePhase::Confirming && event == (ExchangeEvent::Observed {
            cancelled: false,
            expired: false,
        }) && !exchange.record->0.signature_verified ==> (
        exchange.after(event).1 matches ExchangeActionView::Refused { error } && error.kind
            == PermissionErrorKind::PermissionDenied),
        event matches ExchangeEvent::Enqueued { result: Err(e) } ==> (
        exchange.after(event).1 matches ExchangeActionView::Refused { error } && error.message
            == e@),
        event matches ExchangeEvent::Enqueued { result: Ok(key) } ==> exchange.after(event).1
            == ExchangeActionView::Observe && exchange.after(event).0.key == key,
        exchange.after(event).1 is Allowed ==> exchange.phase == ExchangePhase::Settling,
{
}

/// A child that is cancelled is told that it was interrupted, and one that waited
/// too long that its time is up. Before that it closes its request, with a denial
/// where nobody answered yet, and by acknowledging the answer where somebody did.
pub proof fn abandoned_requests_are_closed(
    exchange: DetachedPermissionExchange,
    record: DetachedPermissionRecord,
    interaction_id: Result<String, String>,
)
    ensures
        exchange.phase == ExchangePhase::Watching || exchange.phase == ExchangePhase::Confirming
            ==> {
            let expired = exchange.after(
                ExchangeEvent::Observed { cancelled: false, expired: true },
            ).0;
            &&& expired.phase == ExchangePhase::DenialReading
            &&& expired.cause == DenialCause::Expired
        },
        exchange.after(ExchangeEvent::Observed { cancelled: true, expired: false }).0.cause
            == DenialCause::Cancelled,
        exchange.phase == ExchangePhase::DenialReading && deniable(
            record,
            exchange.binding,
            exchange.key@,
        ) ==> {
            let (next, action) = exchange.after(
                ExchangeEvent::Record { record: Ok(Some(record)), interaction_id },
            );
            &&& record.response is None && record.response_digest is None ==> action == (
            ExchangeActionView::Deny { request_digest: record.request_digest })
            &&& record.response_digest matches Some(digest) ==> action == (
            ExchangeActionView::Acknowledge {
                request_digest: record.request_digest,
                response_digest: digest,
            })
        },
        exchange.cause.error_kind() == PermissionErrorKind::Interrupted <==> exchange.cause
            == DenialCause::Cancelled,
        exchange.cause.error_kind() == PermissionErrorKind::TimedOut <==> exchange.cause
            == DenialCause::Expired,
{
}

/// An exchange waits for what it asked for last, and for nothing once it has
/// returned. Whom it is for and what it asks do not change on the way.
pub proof fn exchanges_wait_for_what_they_asked(
    exchange: DetachedPermissionExchange,
    event: ExchangeEvent,
)
    ensures
        ({
            let (next, action) = exchange.after(event);
            &&& match action {
                ExchangeActionView::Enqueue => false,
                ExchangeActionView::Observe => next.phase == ExchangePhase::Watching || next.phase
                    == ExchangePhase::Confirming || next.phase == ExchangePhase::Settling,
                ExchangeActionView::ReadRecord => next.phase == ExchangePhase::Reading
                    || next.phase == ExchangePhase::DenialReading || next.phase
                    == ExchangePhase::DenialRereading,
                ExchangeActionView::Acknowledge { .. } => next.phase
                    == ExchangePhase::Acknowledging || next.phase
                    == ExchangePhase::DenialAcknowledging,
                ExchangeActionView::Deny { .. } => next.phase == ExchangePhase::DenialResolving,
                ExchangeActionView::Sleep { .. } => next.phase == ExchangePhase::Sleeping,
                ExchangeActionView::Allowed { .. } => next.phase == ExchangePhase::Done,
                ExchangeActionView::Refused { .. } => next.phase == ExchangePhase::Done,
            }
            &&& next.binding == exchange.binding
            &&& next.request == exchange.request
            &&& !(event is Enqueued) ==> next.key == exchange.key
            &&& event is Slept ==> next.phase == ExchangePhase::Watching
            &&& event matches ExchangeEvent::Enqueued { result } ==> (result matches Ok(key)
                ==> next.phase == ExchangePhase::Watching && next.key == key)
            &&& event matches ExchangeEvent::Acknowledged { result } ==> (result is Ok
                && exchange.phase == ExchangePhase::Acknowledging ==> next.phase
                == ExchangePhase::Settling)
            &&& event matches ExchangeEvent::Observed { cancelled, expired } ==> (!cancelled
                && !expired && exchange.phase == ExchangePhase::Watching ==> next.phase
                == ExchangePhase::Reading && action is ReadRecord)
            &&& event matches ExchangeEvent::Resolved { result } ==> (if result is Ok {
                action is Refused
            } else {
                next.phase == ExchangePhase::DenialRereading
            })
        }),
{
}

/// Once an exchange denies, nothing is allowed any more: it goes on to close its
/// request and ends with the refusal of its cause.
pub proof fn denials_stay_denials(exchange: DetachedPermissionExchange, event: ExchangeEvent)
    requires
        exchange.phase == ExchangePhase::DenialReading || exchange.phase
            == ExchangePhase::DenialResolving || exchange.phase == ExchangePhase::DenialRereading
            || exchange.phase == ExchangePhase::DenialAcknowledging,
        !(event is Observed),
        !(event is Slept),
        !(event is Enqueued),
    ensures
        ({
            let (next, action) = exchange.after(event);
            &&& !(action is Allowed)
            &&& event is Record && exchange.phase == ExchangePhase::DenialReading || event is Record
                && exchange.phase == ExchangePhase::DenialRereading || event is Resolved
                || event is Acknowledged && exchange.phase == ExchangePhase::DenialAcknowledging
                ==> (action matches ExchangeActionView::Refused { error } ==> error.kind
                == exchange.cause.error_kind())
            &&& event is Resolved || exchange.phase == ExchangePhase::DenialReading || exchange.phase
                == ExchangePhase::DenialAcknowledging && event is Acknowledged ==> next.cause
                == exchange.cause
        }),
{
}

} // verus!
