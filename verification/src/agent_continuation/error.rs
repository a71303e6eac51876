//! Errors of continuation validation, fencing and persistence.

use vstd::prelude::*;
use vstd::string::*;
use crate::agent_continuation::ids::{
    AgentAttemptId, AgentContinuationId, ContinuationIdKind, ContinuationRevision,
};
use crate::agent_continuation::status::{AttemptState, ContinuationStatus};
use crate::text::{decimal, decimal_of, plus, plus3};

verus! {

/// Machine-readable category of a continuation failure.
#[derive(Clone, Copy, Debug, PartialEq, Eq, Structural)]
pub enum AgentContinuationErrorCode {
    NotFound,
    AlreadyExists,
    InvalidUuid,
    WrongUuidVersion,
    InvalidTransition,
    InvalidAttemptTransition,
    ContinuationMismatch,
    AttemptMismatch,
    RevisionConflict,
    RevisionExhausted,
    LeaseEpochMismatch,
    LeaseExpired,
    LeaseHeld,
    ParentMismatch,
    TaskBindingMismatch,
    CompatibilityMismatch,
    CheckpointMissing,
    Indeterminate,
    NotResumable,
    UnsupportedSchemaVersion,
    CorruptRecord,
    DigestMismatch,
    Persistence,
}

/// A continuation failure.
#[derive(Debug)]
#[allow(inconsistent_fields)]
pub enum AgentContinuationError {
    /// The requested continuation or compatibility selector does not exist.
    NotFound,
    /// A caller attempted to create an existing continuation identity.
    AlreadyExists { continuation_id: AgentContinuationId },
    /// An identity is not parseable as a UUID.
    InvalidUuid { kind: ContinuationIdKind },
    /// An identity uses a UUID version other than 7.
    WrongUuidVersion { kind: ContinuationIdKind, found: usize },
    /// A continuation lifecycle transition is forbidden.
    InvalidTransition { from: ContinuationStatus, to: ContinuationStatus },
    /// An attempt lifecycle transition is forbidden.
    InvalidAttemptTransition { from: AttemptState, to: AttemptState },
    /// The continuation component of a commit fence is stale or wrong.
    ContinuationMismatch { expected: AgentContinuationId, actual: AgentContinuationId },
    /// The attempt component of a commit fence is stale or wrong.
    AttemptMismatch { expected: AgentAttemptId, actual: AgentAttemptId },
    /// The revision component of a commit fence is stale.
    RevisionConflict { expected: ContinuationRevision, actual: ContinuationRevision },
    /// The revision counter reached its maximum value.
    RevisionExhausted,
    /// The lease epoch component of a commit fence is stale.
    LeaseEpochMismatch { expected: u64, actual: u64 },
    /// The lease expired before the attempted operation.
    LeaseExpired,
    /// Another runtime owner still holds the lease.
    LeaseHeld { owner_id: String, expires_at_ms: i64 },
    /// The selected continuation belongs to another parent session.
    ParentMismatch { expected: String, actual: String },
    /// The selected continuation is bound to another task lineage.
    TaskBindingMismatch { expected: String, actual: String },
    /// The child runtime identity does not match the durable compatibility
    /// digest.
    CompatibilityMismatch,
    /// A safe checkpoint is required but absent.
    CheckpointMissing,
    /// Unknown external side effects prohibit automatic continuation.
    Indeterminate,
    /// No safe checkpoint or terminal state permits resumption.
    NotResumable { status: ContinuationStatus },
    /// The record schema cannot be decoded by this runtime.
    UnsupportedSchemaVersion { found: u32 },
    /// The record is structurally invalid or violates durable invariants.
    CorruptRecord { message: String },
    /// The checkpoint payload failed digest verification.
    DigestMismatch,
    /// Durable storage failed.
    Persistence { message: String },
}

/// What a continuation failure says, with texts as characters.
#[allow(inconsistent_fields)]
pub ghost enum AgentContinuationErrorView {
    NotFound,
    AlreadyExists { continuation_id: Seq<char> },
    InvalidUuid { kind: ContinuationIdKind },
    WrongUuidVersion { kind: ContinuationIdKind, found: usize },
    InvalidTransition { from: ContinuationStatus, to: ContinuationStatus },
    InvalidAttemptTransition { from: AttemptState, to: AttemptState },
    ContinuationMismatch { expected: Seq<char>, actual: Seq<char> },
    AttemptMismatch { expected: Seq<char>, actual: Seq<char> },
    RevisionConflict { expected: ContinuationRevision, actual: ContinuationRevision },
    RevisionExhausted,
    LeaseEpochMismatch { expected: u64, actual: u64 },
    LeaseExpired,
    LeaseHeld { owner_id: Seq<char>, expires_at_ms: i64 },
    ParentMismatch { expected: Seq<char>, actual: Seq<char> },
    TaskBindingMismatch { expected: Seq<char>, actual: Seq<char> },
    CompatibilityMismatch,
    CheckpointMissing,
    Indeterminate,
    NotResumable { status: ContinuationStatus },
    UnsupportedSchemaVersion { found: u32 },
    CorruptRecord { message: Seq<char> },
    DigestMismatch,
    Persistence { message: Seq<char> },
}

impl View for AgentContinuationError {
    type V = AgentContinuationErrorView;

    open spec fn view(&self) -> AgentContinuationErrorView {
        match *self {
            AgentContinuationError::NotFound => AgentContinuationErrorView::NotFound,
            AgentContinuationError::AlreadyExists { continuation_id } =>
                AgentContinuationErrorView::AlreadyExists { continuation_id: continuation_id@ },
            AgentContinuationError::InvalidUuid { kind } =>
                AgentContinuationErrorView::InvalidUuid { kind },
            AgentContinuationError::WrongUuidVersion { kind, found } =>
                AgentContinuationErrorView::WrongUuidVersion { kind, found },
            AgentContinuationError::InvalidTransition { from, to } =>
                AgentContinuationErrorView::InvalidTransition { from, to },
            AgentContinuationError::InvalidAttemptTransition { from, to } =>
                AgentContinuationErrorView::InvalidAttemptTransition { from, to },
            AgentContinuationError::ContinuationMismatch { expected, actual } =>
                AgentContinuationErrorView::ContinuationMismatch {
                expected: expected@,
                actual: actual@,
            },
            AgentContinuationError::AttemptMismatch { expected, actual } =>
                AgentContinuationErrorView::AttemptMismatch {
                expected: expected@,
                actual: actual@,
            },
            AgentContinuationError::RevisionConflict { expected, actual } =>
                AgentContinuationErrorView::RevisionConflict { expected, actual },
            AgentContinuationError::RevisionExhausted =>
                AgentContinuationErrorView::RevisionExhausted,
            AgentContinuationError::LeaseEpochMismatch { expected, actual } =>
                AgentContinuationErrorView::LeaseEpochMismatch { expected, actual },
            AgentContinuationError::LeaseExpired => AgentContinuationErrorView::LeaseExpired,
            AgentContinuationError::LeaseHeld { owner_id, expires_at_ms } =>
                AgentContinuationErrorView::LeaseHeld { owner_id: owner_id@, expires_at_ms },
            AgentContinuationError::ParentMismatch { expected, actual } =>
                AgentContinuationErrorView::ParentMismatch {
                expected: expected@,
                actual: actual@,
            },
            AgentContinuationError::TaskBindingMismatch { expected, actual } =>
                AgentContinuationErrorView::TaskBindingMismatch {
                expected: expected@,
                actual: actual@,
            },
            AgentContinuationError::CompatibilityMismatch =>
                AgentContinuationErrorView::CompatibilityMismatch,
            AgentContinuationError::CheckpointMissing =>
                AgentContinuationErrorView::CheckpointMissing,
            AgentContinuationError::Indeterminate => AgentContinuationErrorView::Indeterminate,
            AgentContinuationError::NotResumable { status } =>
                AgentContinuationErrorView::NotResumable { status },
            AgentContinuationError::UnsupportedSchemaVersion { found } =>
                AgentContinuationErrorView::UnsupportedSchemaVersion { found },
            AgentContinuationError::CorruptRecord { message } =>
                AgentContinuationErrorView::CorruptRecord { message: message@ },
            AgentContinuationError::DigestMismatch => AgentContinuationErrorView::DigestMismatch,
            AgentContinuationError::Persistence { message } =>
                AgentContinuationErrorView::Persistence { message: message@ },
        }
    }
}

/// A corrupt-record failure with the given message.
pub open spec fn corrupt(message: Seq<char>) -> AgentContinuationErrorView {
    AgentContinuationErrorView::CorruptRecord { message }
}

/// The result is the failure `error`, or success where there is none.
pub open spec fn agrees<T>(
    r: Result<T, AgentContinuationError>,
    error: Option<AgentContinuationErrorView>,
) -> bool {
    match r {
        Ok(_) => error is None,
        Err(e) => error == Some(e@),
    }
}

pub fn corrupt_record(message: &str) -> (r: AgentContinuationError)
    ensures
        r@ == corrupt(message@),
{
    AgentContinuationError::CorruptRecord { message: message.to_owned() }
}

pub fn persistence_error(message: &str) -> (r: AgentContinuationError)
    ensures
        r@ == (AgentContinuationErrorView::Persistence { message: message@ }),
{
    AgentContinuationError::Persistence { message: message.to_owned() }
}

/// A persistence failure of a named operation, with the kind of I/O error.
pub fn persistence_io_error(operation: &str, error_kind: &str) -> (r: AgentContinuationError)
    ensures
        r@ == (AgentContinuationErrorView::Persistence {
            message: "failed to "@ + operation@ + " ("@ + error_kind@ + ")"@,
        }),
{
    let mut message = plus3("failed to ", operation, " (");
    message.append(error_kind);
    message.append(")");
    AgentContinuationError::Persistence { message }
}

/// An `i64` in decimal.
pub open spec fn signed_decimal_of(n: i64) -> Seq<char> {
    if n < 0 {
        "-"@ + decimal_of((-n) as nat)
    } else {
        decimal_of(n as nat)
    }
}

pub fn signed_decimal(n: i64) -> (s: String)
    ensures
        s@ == signed_decimal_of(n),
{
    if n < 0 {
        let magnitude: u64 = if n == i64::MIN {
            9_223_372_036_854_775_808
        } else {
            (-n) as u64
        };
        plus("-", decimal(magnitude).as_str())
    } else {
        decimal(n as u64)
    }
}

/// `prefix`, `expected`, ", found " and `actual`.
pub open spec fn mismatch_text(prefix: Seq<char>, expected: Seq<char>, actual: Seq<char>) -> Seq<
    char,
> {
    prefix + expected + ", found "@ + actual
}

fn mismatch(prefix: &str, expected: &str, actual: &str) -> (s: String)
    ensures
        s@ == mismatch_text(prefix@, expected@, actual@),
{
    let mut s = plus3(prefix, expected, ", found ");
    s.append(actual);
    s
}

impl AgentContinuationErrorView {
    /// The machine-readable category.
    pub open spec fn category(self) -> AgentContinuationErrorCode {
        match self {
            AgentContinuationErrorView::NotFound => AgentContinuationErrorCode::NotFound,
            AgentContinuationErrorView::AlreadyExists { .. } =>
                AgentContinuationErrorCode::AlreadyExists,
            AgentContinuationErrorView::InvalidUuid { .. } =>
                AgentContinuationErrorCode::InvalidUuid,
            AgentContinuationErrorView::WrongUuidVersion { .. } =>
                AgentContinuationErrorCode::WrongUuidVersion,
            AgentContinuationErrorView::InvalidTransition { .. } =>
                AgentContinuationErrorCode::InvalidTransition,
            AgentContinuationErrorView::InvalidAttemptTransition { .. } =>
                AgentContinuationErrorCode::InvalidAttemptTransition,
            AgentContinuationErrorView::ContinuationMismatch { .. } =>
                AgentContinuationErrorCode::ContinuationMismatch,
            AgentContinuationErrorView::AttemptMismatch { .. } =>
                AgentContinuationErrorCode::AttemptMismatch,
            AgentContinuationErrorView::RevisionConflict { .. } =>
                AgentContinuationErrorCode::RevisionConflict,
            AgentContinuationErrorView::RevisionExhausted =>
                AgentContinuationErrorCode::RevisionExhausted,
            AgentContinuationErrorView::LeaseEpochMismatch { .. } =>
                AgentContinuationErrorCode::LeaseEpochMismatch,
            AgentContinuationErrorView::LeaseExpired => AgentContinuationErrorCode::LeaseExpired,
            AgentContinuationErrorView::LeaseHeld { .. } => AgentContinuationErrorCode::LeaseHeld,
            AgentContinuationErrorView::ParentMismatch { .. } =>
                AgentContinuationErrorCode::ParentMismatch,
            AgentContinuationErrorView::TaskBindingMismatch { .. } =>
                AgentContinuationErrorCode::TaskBindingMismatch,
            AgentContinuationErrorView::CompatibilityMismatch =>
                AgentContinuationErrorCode::CompatibilityMismatch,
            AgentContinuationErrorView::CheckpointMissing =>
                AgentContinuationErrorCode::CheckpointMissing,
            AgentContinuationErrorView::Indeterminate => AgentContinuationErrorCode::Indeterminate,
            AgentContinuationErrorView::NotResumable { .. } =>
                AgentContinuationErrorCode::NotResumable,
            AgentContinuationErrorView::UnsupportedSchemaVersion { .. } =>
                AgentContinuationErrorCode::UnsupportedSchemaVersion,
            AgentContinuationErrorView::CorruptRecord { .. } =>
                AgentContinuationErrorCode::CorruptRecord,
            AgentContinuationErrorView::DigestMismatch =>
                AgentContinuationErrorCode::DigestMismatch,
            AgentContinuationErrorView::Persistence { .. } =>
                AgentContinuationErrorCode::Persistence,
        }
    }

    /// The external code: fence and corruption details are grouped.
    pub open spec fn contract(self) -> Seq<char> {
        match self {
            AgentContinuationErrorView::NotFound
            | AgentContinuationErrorView::InvalidUuid { .. }
            | AgentContinuationErrorView::WrongUuidVersion { .. } => "continuation_not_found"@,
            AgentContinuationErrorView::ParentMismatch { .. } => "continuation_parent_mismatch"@,
            AgentContinuationErrorView::LeaseHeld { .. } => "continuation_active"@,
            AgentContinuationErrorView::TaskBindingMismatch { .. }
            | AgentContinuationErrorView::CompatibilityMismatch => "continuation_incompatible"@,
            AgentContinuationErrorView::CheckpointMissing
            | AgentContinuationErrorView::NotResumable { .. } =>
                "continuation_checkpoint_missing"@,
            AgentContinuationErrorView::UnsupportedSchemaVersion { .. }
            | AgentContinuationErrorView::CorruptRecord { .. }
            | AgentContinuationErrorView::DigestMismatch => "continuation_checkpoint_corrupt"@,
            AgentContinuationErrorView::Indeterminate => "continuation_indeterminate"@,
            AgentContinuationErrorView::RevisionConflict { .. }
            | AgentContinuationErrorView::ContinuationMismatch { .. }
            | AgentContinuationErrorView::AttemptMismatch { .. }
            | AgentContinuationErrorView::LeaseEpochMismatch { .. }
            | AgentContinuationErrorView::LeaseExpired => "continuation_revision_conflict"@,
            AgentContinuationErrorView::AlreadyExists { .. } => "continuation_already_exists"@,
            AgentContinuationErrorView::InvalidTransition { .. }
            | AgentContinuationErrorView::InvalidAttemptTransition { .. }
            | AgentContinuationErrorView::RevisionExhausted
            | AgentContinuationErrorView::Persistence { .. } => "continuation_persistence_error"@,
        }
    }

    /// The text shown to people.
    pub open spec fn message(self) -> Seq<char> {
        match self {
            AgentContinuationErrorView::NotFound => "continuation was not found"@,
            AgentContinuationErrorView::AlreadyExists { continuation_id } => "continuation "@
                + continuation_id + " already exists"@,
            AgentContinuationErrorView::InvalidUuid { kind } => kind.text()
                + " is not a valid UUID"@,
            AgentContinuationErrorView::WrongUuidVersion { kind, found } => kind.text()
                + " must be UUIDv7; found UUID version "@ + decimal_of(found as nat),
            AgentContinuationErrorView::InvalidTransition { from, to } =>
                "invalid continuation transition from "@ + from.text() + " to "@ + to.text(),
            AgentContinuationErrorView::InvalidAttemptTransition { from, to } =>
                "invalid attempt transition from "@ + from.text() + " to "@ + to.text(),
            AgentContinuationErrorView::ContinuationMismatch { expected, actual } =>
                mismatch_text("continuation fence mismatch: expected "@, expected, actual),
            AgentContinuationErrorView::AttemptMismatch { expected, actual } => mismatch_text(
                "attempt fence mismatch: expected "@,
                expected,
                actual,
            ),
            AgentContinuationErrorView::RevisionConflict { expected, actual } => mismatch_text(
                "continuation revision conflict: expected "@,
                decimal_of(expected.value as nat),
                decimal_of(actual.value as nat),
            ),
            AgentContinuationErrorView::RevisionExhausted => "continuation revision is exhausted"@,
            AgentContinuationErrorView::LeaseEpochMismatch { expected, actual } => mismatch_text(
                "continuation lease epoch mismatch: expected "@,
                decimal_of(expected as nat),
                decimal_of(actual as nat),
            ),
            AgentContinuationErrorView::LeaseExpired => "continuation lease has expired"@,
            AgentContinuationErrorView::LeaseHeld { owner_id, expires_at_ms } =>
                "continuation lease is held by "@ + owner_id + " until "@ + signed_decimal_of(
                expires_at_ms,
            ),
            AgentContinuationErrorView::ParentMismatch { expected, actual } => mismatch_text(
                "continuation parent mismatch: expected "@,
                expected,
                actual,
            ),
            AgentContinuationErrorView::TaskBindingMismatch { expected, actual } => mismatch_text(
                "continuation task binding mismatch: expected "@,
                expected,
                actual,
            ),
            AgentContinuationErrorView::CompatibilityMismatch =>
                "continuation context is incompatible with the checkpoint"@,
            AgentContinuationErrorView::CheckpointMissing => "continuation has no safe checkpoint"@,
            AgentContinuationErrorView::Indeterminate =>
                "continuation has indeterminate external side effects and cannot be resumed"@,
            AgentContinuationErrorView::NotResumable { status } =>
                "continuation is not resumable from status "@ + status.text(),
            AgentContinuationErrorView::UnsupportedSchemaVersion { found } =>
                "unsupported continuation schema version "@ + decimal_of(found as nat),
            AgentContinuationErrorView::CorruptRecord { message } =>
                "continuation record is corrupt: "@ + message,
            AgentContinuationErrorView::DigestMismatch => "continuation checkpoint digest mismatch"@,
            AgentContinuationErrorView::Persistence { message } =>
                "continuation persistence failed: "@ + message,
        }
    }
}

impl AgentContinuationError {
    /// The machine-readable category of this error.
    pub fn code(&self) -> (r: AgentContinuationErrorCode)
        ensures
            r == self@.category(),
    {
        match self {
            AgentContinuationError::NotFound => AgentContinuationErrorCode::NotFound,
            AgentContinuationError::AlreadyExists { .. } =>
                AgentContinuationErrorCode::AlreadyExists,
            AgentContinuationError::InvalidUuid { .. } => AgentContinuationErrorCode::InvalidUuid,
            AgentContinuationError::WrongUuidVersion { .. } =>
                AgentContinuationErrorCode::WrongUuidVersion,
            AgentContinuationError::InvalidTransition { .. } =>
                AgentContinuationErrorCode::InvalidTransition,
            AgentContinuationError::InvalidAttemptTransition { .. } =>
                AgentContinuationErrorCode::InvalidAttemptTransition,
            AgentContinuationError::ContinuationMismatch { .. } =>
                AgentContinuationErrorCode::ContinuationMismatch,
            AgentContinuationError::AttemptMismatch { .. } =>
                AgentContinuationErrorCode::AttemptMismatch,
            AgentContinuationError::RevisionConflict { .. } =>
                AgentContinuationErrorCode::RevisionConflict,
            AgentContinuationError::RevisionExhausted =>
                AgentContinuationErrorCode::RevisionExhausted,
            AgentContinuationError::LeaseEpochMismatch { .. } =>
                AgentContinuationErrorCode::LeaseEpochMismatch,
            AgentContinuationError::LeaseExpired => AgentContinuationErrorCode::LeaseExpired,
            AgentContinuationError::LeaseHeld { .. } => AgentContinuationErrorCode::LeaseHeld,
            AgentContinuationError::ParentMismatch { .. } =>
                AgentContinuationErrorCode::ParentMismatch,
            AgentContinuationError::TaskBindingMismatch { .. } =>
                AgentContinuationErrorCode::TaskBindingMismatch,
            AgentContinuationError::CompatibilityMismatch =>
                AgentContinuationErrorCode::CompatibilityMismatch,
            AgentContinuationError::CheckpointMissing =>
                AgentContinuationErrorCode::CheckpointMissing,
            AgentContinuationError::Indeterminate => AgentContinuationErrorCode::Indeterminate,
            AgentContinuationError::NotResumable { .. } => AgentContinuationErrorCode::NotResumable,
            AgentContinuationError::UnsupportedSchemaVersion { .. } =>
                AgentContinuationErrorCode::UnsupportedSchemaVersion,
            AgentContinuationError::CorruptRecord { .. } =>
                AgentContinuationErrorCode::CorruptRecord,
            AgentContinuationError::DigestMismatch => AgentContinuationErrorCode::DigestMismatch,
            AgentContinuationError::Persistence { .. } => AgentContinuationErrorCode::Persistence,
        }
    }

    /// The stable external error code.
    pub fn contract_code(&self) -> (r: &'static str)
        ensures
            r@ == self@.contract(),
    {
        match self {
            AgentContinuationError::NotFound => "continuation_not_found",
            AgentContinuationError::ParentMismatch { .. } => "continuation_parent_mismatch",
            AgentContinuationError::LeaseHeld { .. } => "continuation_active",
            AgentContinuationError::TaskBindingMismatch { .. }
            | AgentContinuationError::CompatibilityMismatch => "continuation_incompatible",
            AgentContinuationError::CheckpointMissing
            | AgentContinuationError::NotResumable { .. } => "continuation_checkpoint_missing",
            AgentContinuationError::UnsupportedSchemaVersion { .. }
            | AgentContinuationError::CorruptRecord { .. }
            | AgentContinuationError::DigestMismatch => "continuation_checkpoint_corrupt",
            AgentContinuationError::Indeterminate => "continuation_indeterminate",
            AgentContinuationError::RevisionConflict { .. }
            | AgentContinuationError::ContinuationMismatch { .. }
            | AgentContinuationError::AttemptMismatch { .. }
            | AgentContinuationError::LeaseEpochMismatch { .. }
            | AgentContinuationError::LeaseExpired => "continuation_revision_conflict",
            AgentContinuationError::AlreadyExists { .. } => "continuation_already_exists",
            AgentContinuationError::InvalidUuid { .. }
            | AgentContinuationError::WrongUuidVersion { .. } => "continuation_not_found",
            AgentContinuationError::InvalidTransition { .. }
            | AgentContinuationError::InvalidAttemptTransition { .. }
            | AgentContinuationError::RevisionExhausted
            | AgentContinuationError::Persistence { .. } => "continuation_persistence_error",
        }
    }

    /// The text of the error.
    pub fn to_text(&self) -> (s: String)
        ensures
            s@ == self@.message(),
    {
        match self {
            AgentContinuationError::NotFound => "continuation was not found".to_owned(),
            AgentContinuationError::AlreadyExists { continuation_id } => plus3(
                "continuation ",
                continuation_id.as_str(),
                " already exists",
            ),
            AgentContinuationError::InvalidUuid { kind } => plus(
                kind.label(),
                " is not a valid UUID",
            ),
            AgentContinuationError::WrongUuidVersion { kind, found } => plus3(
                kind.label(),
                " must be UUIDv7; found UUID version ",
                decimal(*found as u64).as_str(),
            ),
            AgentContinuationError::InvalidTransition { from, to } => {
                let mut s = plus3(
                    "invalid continuation transition from ",
                    from.as_str(),
                    " to ",
                );
                s.append(to.as_str());
                s
            },
            AgentContinuationError::InvalidAttemptTransition { from, to } => {
                let mut s = plus3("invalid attempt transition from ", from.as_str(), " to ");
                s.append(to.as_str());
                s
            },
            AgentContinuationError::ContinuationMismatch { expected, actual } => mismatch(
                "continuation fence mismatch: expected ",
                expected.as_str(),
                actual.as_str(),
            ),
            AgentContinuationError::AttemptMismatch { expected, actual } => mismatch(
                "attempt fence mismatch: expected ",
                expected.as_str(),
                actual.as_str(),
            ),
            AgentContinuationError::RevisionConflict { expected, actual } => mismatch(
                "continuation revision conflict: expected ",
                decimal(expected.get()).as_str(),
                decimal(actual.get()).as_str(),
            ),
            AgentContinuationError::RevisionExhausted =>
                "continuation revision is exhausted".to_owned(),
            AgentContinuationError::LeaseEpochMismatch { expected, actual } => mismatch(
                "continuation lease epoch mismatch: expected ",
                decimal(*expected).as_str(),
                decimal(*actual).as_str(),
            ),
            AgentContinuationError::LeaseExpired => "continuation lease has expired".to_owned(),
            AgentContinuationError::LeaseHeld { owner_id, expires_at_ms } => {
                let mut s = plus3("continuation lease is held by ", owner_id.as_str(), " until ");
                s.append(signed_decimal(*expires_at_ms).as_str());
                s
            },
            AgentContinuationError::ParentMismatch { expected, actual } => mismatch(
                "continuation parent mismatch: expected ",
                expected.as_str(),
                actual.as_str(),
            ),
            AgentContinuationError::TaskBindingMismatch { expected, actual } => mismatch(
                "continuation task binding mismatch: expected ",
                expected.as_str(),
                actual.as_str(),
            ),
            AgentContinuationError::CompatibilityMismatch =>
                "continuation context is incompatible with the checkpoint".to_owned(),
            AgentContinuationError::CheckpointMissing =>
                "continuation has no safe checkpoint".to_owned(),
            AgentContinuationError::Indeterminate =>
                "continuation has indeterminate external side effects and cannot be resumed".to_owned(),
            AgentContinuationError::NotResumable { status } => plus(
                "continuation is not resumable from status ",
                status.as_str(),
            ),
            AgentContinuationError::UnsupportedSchemaVersion { found } => plus(
                "unsupported continuation schema version ",
                decimal(*found as u64).as_str(),
            ),
            AgentContinuationError::CorruptRecord { message } => plus(
                "continuation record is corrupt: ",
                message.as_str(),
            ),
            AgentContinuationError::DigestMismatch =>
                "continuation checkpoint digest mismatch".to_owned(),
            AgentContinuationError::Persistence { message } => plus(
                "continuation persistence failed: ",
                message.as_str(),
            ),
        }
    }
}

/// The external code depends on the category alone.
pub proof fn contract_code_follows_category(
    a: AgentContinuationErrorView,
    b: AgentContinuationErrorView,
)
    requires
        a.category() == b.category(),
    ensures
        a.contract() == b.contract(),
{
}

/// Callers tell errors apart by their code: one for what is not there, for another
/// session's, for what is in use, for what does not fit, for a missing or a broken
/// checkpoint, for unknown side effects and for a lost race.
pub proof fn codes_tell_callers_what_to_do(e: AgentContinuationErrorView)
    ensures
        e is NotFound || e is InvalidUuid || e is WrongUuidVersion ==> e.contract()
            == "continuation_not_found"@,
        e is ParentMismatch ==> e.contract() == "continuation_parent_mismatch"@,
        e is LeaseHeld ==> e.contract() == "continuation_active"@,
        e is TaskBindingMismatch || e is CompatibilityMismatch ==> e.contract()
            == "continuation_incompatible"@,
        e is CheckpointMissing || e is NotResumable ==> e.contract()
            == "continuation_checkpoint_missing"@,
        e is UnsupportedSchemaVersion || e is CorruptRecord || e is DigestMismatch ==> e.contract()
            == "continuation_checkpoint_corrupt"@,
        e is Indeterminate ==> e.contract() == "continuation_indeterminate"@,
        e is RevisionConflict || e is ContinuationMismatch || e is AttemptMismatch
            || e is LeaseEpochMismatch || e is LeaseExpired ==> e.contract()
            == "continuation_revision_conflict"@,
        e is AlreadyExists ==> e.contract() == "continuation_already_exists"@,
        e is InvalidTransition || e is InvalidAttemptTransition || e is RevisionExhausted
            || e is Persistence ==> e.contract() == "continuation_persistence_error"@,
{
}

/// The categories are as many as the errors: each stands for one.
pub proof fn categories_stand_for_one_error(e: AgentContinuationErrorView)
    ensures
        e is NotFound <==> e.category() == AgentContinuationErrorCode::NotFound,
        e is AlreadyExists <==> e.category() == AgentContinuationErrorCode::AlreadyExists,
        e is InvalidUuid <==> e.category() == AgentContinuationErrorCode::InvalidUuid,
        e is WrongUuidVersion <==> e.category() == AgentContinuationErrorCode::WrongUuidVersion,
        e is InvalidTransition <==> e.category() == AgentContinuationErrorCode::InvalidTransition,
        e is InvalidAttemptTransition <==> e.category()
            == AgentContinuationErrorCode::InvalidAttemptTransition,
        e is ContinuationMismatch <==> e.category()
            == AgentContinuationErrorCode::ContinuationMismatch,
        e is AttemptMismatch <==> e.category() == AgentContinuationErrorCode::AttemptMismatch,
        e is RevisionConflict <==> e.category() == AgentContinuationErrorCode::RevisionConflict,
        e is RevisionExhausted <==> e.category() == AgentContinuationErrorCode::RevisionExhausted,
        e is LeaseEpochMismatch <==> e.category()
            == AgentContinuationErrorCode::LeaseEpochMismatch,
        e is LeaseExpired <==> e.category() == AgentContinuationErrorCode::LeaseExpired,
        e is LeaseHeld <==> e.category() == AgentContinuationErrorCode::LeaseHeld,
        e is ParentMismatch <==> e.category() == AgentContinuationErrorCode::ParentMismatch,
        e is TaskBindingMismatch <==> e.category()
            == AgentContinuationErrorCode::TaskBindingMismatch,
        e is CompatibilityMismatch <==> e.category()
            == AgentContinuationErrorCode::CompatibilityMismatch,
        e is CheckpointMissing <==> e.category() == AgentContinuationErrorCode::CheckpointMissing,
        e is Indeterminate <==> e.category() == AgentContinuationErrorCode::Indeterminate,
        e is NotResumable <==> e.category() == AgentContinuationErrorCode::NotResumable,
        e is UnsupportedSchemaVersion <==> e.category()
            == AgentContinuationErrorCode::UnsupportedSchemaVersion,
        e is CorruptRecord <==> e.category() == AgentContinuationErrorCode::CorruptRecord,
        e is DigestMismatch <==> e.category() == AgentContinuationErrorCode::DigestMismatch,
        e is Persistence <==> e.category() == AgentContinuationErrorCode::Persistence,
{
}

/// A mismatch is told with what was expected first and what was found behind it, and
/// a held lease with its owner and its end.
pub proof fn mismatches_tell_both_sides(e: AgentContinuationErrorView)
    ensures
        e matches AgentContinuationErrorView::ContinuationMismatch { expected, actual }
            ==> e.message() == "continuation fence mismatch: expected "@ + expected + ", found "@
            + actual,
        e matches AgentContinuationErrorView::AttemptMismatch { expected, actual } ==> e.message()
            == "attempt fence mismatch: expected "@ + expected + ", found "@ + actual,
        e matches AgentContinuationErrorView::RevisionConflict { expected, actual } ==> e.message()
            == "continuation revision conflict: expected "@ + decimal_of(expected.value as nat)
            + ", found "@ + decimal_of(actual.value as nat),
        e matches AgentContinuationErrorView::LeaseEpochMismatch { expected, actual }
            ==> e.message() == "continuation lease epoch mismatch: expected "@ + decimal_of(
            expected as nat,
        ) + ", found "@ + decimal_of(actual as nat),
        e matches AgentContinuationErrorView::ParentMismatch { expected, actual } ==> e.message()
            == "continuation parent mismatch: expected "@ + expected + ", found "@ + actual,
        e matches AgentContinuationErrorView::TaskBindingMismatch { expected, actual }
            ==> e.message() == "continuation task binding mismatch: expected "@ + expected
            + ", found "@ + actual,
        e matches AgentContinuationErrorView::LeaseHeld { owner_id, expires_at_ms }
            ==> e.message() == "continuation lease is held by "@ + owner_id + " until "@ + (
        if expires_at_ms < 0 {
            "-"@ + decimal_of((-expires_at_ms) as nat)
        } else {
            decimal_of(expires_at_ms as nat)
        }),
        e matches AgentContinuationErrorView::InvalidTransition { from, to } ==> e.message()
            == "invalid continuation transition from "@ + from.text() + " to "@ + to.text(),
{
}

} // verus!
