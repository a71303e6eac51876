//! UUIDv7 identities, revisions and digests of continuation records.

use vstd::prelude::*;
use crate::agent_continuation::error::{AgentContinuationError, AgentContinuationErrorView};
use crate::text::text_precedes;

verus! {

/// The sixteen bytes of the UUID that `text` denotes, or the message that says
/// why it denotes none.
pub uninterp spec fn parse_uuid_result(text: Seq<char>) -> Result<Seq<u8>, Seq<char>>;

/// The bytes of the UUID that `text` denotes, where it denotes one.
pub open spec fn parsed_uuid(text: Seq<char>) -> Option<Seq<u8>> {
    match parse_uuid_result(text) {
        Ok(bytes) => Some(bytes),
        Err(_) => None,
    }
}

/// The bytes of an optional byte string.
pub open spec fn opt_bytes(o: Option<Vec<u8>>) -> Option<Seq<u8>> {
    match o {
        Some(v) => Some(v@),
        None => None,
    }
}

/// Calls `uuid::Uuid::parse_str` and hands out the UUID's bytes, or the text of
/// the error. The result depends on the text alone, and a UUID has sixteen
/// bytes.
#[verifier::external_body]
pub(crate) fn parse_uuid(text: &str) -> (r: Result<Vec<u8>, String>)
    ensures
        match r {
            Ok(bytes) => parse_uuid_result(text@) == Ok::<Seq<u8>, Seq<char>>(bytes@)
                && bytes@.len() == 16,
            Err(e) => parse_uuid_result(text@) == Err::<Seq<u8>, Seq<char>>(e@),
        },
{
    match uuid::Uuid::parse_str(text) {
        Ok(parsed) => Ok(parsed.as_bytes().to_vec()),
        Err(error) => Err(error.to_string()),
    }
}

/// The bytes of a UUID, where the text denotes one.
fn uuid_bytes(text: &str) -> (r: Option<Vec<u8>>)
    ensures
        opt_bytes(r) == parsed_uuid(text@),
        r is Some ==> r->0@.len() == 16,
{
    match parse_uuid(text) {
        Ok(bytes) => Some(bytes),
        Err(_) => None,
    }
}

/// Calls `uuid::Uuid::now_v7` and writes the UUID with hyphens. Whatever the
/// clock and the random bits are, the text parses as a UUID of version 7.
#[verifier::external_body]
pub(crate) fn fresh_uuid_v7() -> (r: String)
    ensures
        parsed_uuid(r@) is Some,
        version_of(parsed_uuid(r@)->0) == 7,
{
    uuid::Uuid::now_v7().hyphenated().to_string()
}

/// The version number in the upper half of the seventh byte of a UUID.
pub open spec fn version_of(bytes: Seq<u8>) -> int {
    bytes[6] as int / 16
}

/// The text is a UUID of version 7.
pub open spec fn is_uuid_v7(text: Seq<char>) -> bool {
    parsed_uuid(text) is Some && version_of(parsed_uuid(text)->0) == 7
}

/// What is wrong with an identity whose text parsed to `parsed`.
pub open spec fn identity_error(kind: ContinuationIdKind, parsed: Option<Seq<u8>>) -> Option<
    AgentContinuationErrorView,
> {
    match parsed {
        None => Some(AgentContinuationErrorView::InvalidUuid { kind }),
        Some(bytes) => if version_of(bytes) == 7 {
            None
        } else {
            Some(
                AgentContinuationErrorView::WrongUuidVersion {
                    kind,
                    found: version_of(bytes) as usize,
                },
            )
        },
    }
}

/// Accepts the bytes of a version 7 UUID and nothing else.
pub fn check_identity(kind: ContinuationIdKind, parsed: &Option<Vec<u8>>) -> (r: Result<
    (),
    AgentContinuationError,
>)
    requires
        parsed is Some ==> parsed->0@.len() == 16,
    ensures
        match r {
            Ok(_) => identity_error(kind, opt_bytes(*parsed)) is None,
            Err(e) => identity_error(kind, opt_bytes(*parsed)) == Some(e@),
        },
{
    match parsed {
        None => Err(AgentContinuationError::InvalidUuid { kind }),
        Some(bytes) => {
            let found: usize = (bytes[6] / 16) as usize;
            if found != 7 {
                return Err(AgentContinuationError::WrongUuidVersion { kind, found });
            }
            Ok(())
        },
    }
}

/// The category of an identity, for validation errors.
#[derive(Clone, Copy, Debug, PartialEq, Eq, Structural)]
pub enum ContinuationIdKind {
    Continuation,
    Attempt,
    Checkpoint,
    Prompt,
}

impl ContinuationIdKind {
    pub open spec fn text(self) -> Seq<char> {
        match self {
            ContinuationIdKind::Continuation => "continuation id"@,
            ContinuationIdKind::Attempt => "attempt id"@,
            ContinuationIdKind::Checkpoint => "checkpoint id"@,
            ContinuationIdKind::Prompt => "prompt id"@,
        }
    }

    pub fn label(self) -> (r: &'static str)
        ensures
            r@ == self.text(),
    {
        match self {
            ContinuationIdKind::Continuation => "continuation id",
            ContinuationIdKind::Attempt => "attempt id",
            ContinuationIdKind::Checkpoint => "checkpoint id",
            ContinuationIdKind::Prompt => "prompt id",
        }
    }
}

/// Stable UUIDv7 identity of an agent continuation.
#[derive(Debug)]
pub struct AgentContinuationId {
    value: String,
}

impl View for AgentContinuationId {
    type V = Seq<char>;

    closed spec fn view(&self) -> Seq<char> {
        self.value@
    }
}

impl AgentContinuationId {
    #[verifier::type_invariant]
    spec fn well_formed(self) -> bool {
        is_uuid_v7(self.value@)
    }

    /// A new agent continuation identity.
    pub fn new() -> (r: Self)
        ensures
            is_uuid_v7(r@),
    {
        AgentContinuationId { value: fresh_uuid_v7() }
    }

    /// Parses an agent continuation identity and rejects UUIDs of other versions.
    pub fn parse(value: String) -> (r: Result<Self, AgentContinuationError>)
        ensures
            match r {
                Ok(id) => identity_error(ContinuationIdKind::Continuation, parsed_uuid(value@)) is None
                    && id@ == value@,
                Err(e) => identity_error(ContinuationIdKind::Continuation, parsed_uuid(value@)) == Some(
                    e@,
                ),
            },
    {
        let parsed = uuid_bytes(value.as_str());
        match check_identity(ContinuationIdKind::Continuation, &parsed) {
            Ok(_) => Ok(AgentContinuationId { value }),
            Err(e) => Err(e),
        }
    }

    /// The text of the identity, always that of a version 7 UUID.
    pub fn as_str(&self) -> (r: &str)
        ensures
            r@ == self@,
            is_uuid_v7(self@),
    {
        proof {
            use_type_invariant(self);
        }
        self.value.as_str()
    }

    pub fn duplicate(&self) -> (r: Self)
        ensures
            r == *self,
    {
        proof {
            use_type_invariant(self);
        }
        AgentContinuationId { value: self.value.clone() }
    }

    pub fn same(&self, other: &Self) -> (r: bool)
        ensures
            r == (self@ == other@),
    {
        self.value == other.value
    }
}

/// Stable UUIDv7 identity of an agent attempt.
#[derive(Debug)]
pub struct AgentAttemptId {
    value: String,
}

impl View for AgentAttemptId {
    type V = Seq<char>;

    closed spec fn view(&self) -> Seq<char> {
        self.value@
    }
}

impl AgentAttemptId {
    #[verifier::type_invariant]
    spec fn well_formed(self) -> bool {
        is_uuid_v7(self.value@)
    }

    /// A new agent attempt identity.
    pub fn new() -> (r: Self)
        ensures
            is_uuid_v7(r@),
    {
        AgentAttemptId { value: fresh_uuid_v7() }
    }

    /// Parses an agent attempt identity and rejects UUIDs of other versions.
    pub fn parse(value: String) -> (r: Result<Self, AgentContinuationError>)
        ensures
            match r {
                Ok(id) => identity_error(ContinuationIdKind::Attempt, parsed_uuid(value@)) is None
                    && id@ == value@,
                Err(e) => identity_error(ContinuationIdKind::Attempt, parsed_uuid(value@)) == Some(
                    e@,
                ),
            },
    {
        let parsed = uuid_bytes(value.as_str());
        match check_identity(ContinuationIdKind::Attempt, &parsed) {
            Ok(_) => Ok(AgentAttemptId { value }),
            Err(e) => Err(e),
        }
    }

    /// The text of the identity, always that of a version 7 UUID.
    pub fn as_str(&self) -> (r: &str)
        ensures
            r@ == self@,
            is_uuid_v7(self@),
    {
        proof {
            use_type_invariant(self);
        }
        self.value.as_str()
    }

    pub fn duplicate(&self) -> (r: Self)
        ensures
            r == *self,
    {
        proof {
            use_type_invariant(self);
        }
        AgentAttemptId { value: self.value.clone() }
    }

    pub fn same(&self, other: &Self) -> (r: bool)
        ensures
            r == (self@ == other@),
    {
        self.value == other.value
    }
}

/// Stable UUIDv7 identity of an agent checkpoint.
#[derive(Debug)]
pub struct AgentCheckpointId {
    value: String,
}

impl View for AgentCheckpointId {
    type V = Seq<char>;

    closed spec fn view(&self) -> Seq<char> {
        self.value@
    }
}

impl AgentCheckpointId {
    #[verifier::type_invariant]
    spec fn well_formed(self) -> bool {
        is_uuid_v7(self.value@)
    }

    /// A new agent checkpoint identity.
    pub fn new() -> (r: Self)
        ensures
            is_uuid_v7(r@),
    {
        AgentCheckpointId { value: fresh_uuid_v7() }
    }

    /// Parses an agent checkpoint identity and rejects UUIDs of other versions.
    pub fn parse(value: String) -> (r: Result<Self, AgentContinuationError>)
        ensures
            match r {
                Ok(id) => identity_error(ContinuationIdKind::Checkpoint, parsed_uuid(value@)) is None
                    && id@ == value@,
                Err(e) => identity_error(ContinuationIdKind::Checkpoint, parsed_uuid(value@)) == Some(
                    e@,
                ),
            },
    {
        let parsed = uuid_bytes(value.as_str());
        match check_identity(ContinuationIdKind::Checkpoint, &parsed) {
            Ok(_) => Ok(AgentCheckpointId { value }),
            Err(e) => Err(e),
        }
    }

    /// The text of the identity, always that of a version 7 UUID.
    pub fn as_str(&self) -> (r: &str)
        ensures
            r@ == self@,
            is_uuid_v7(self@),
    {
        proof {
            use_type_invariant(self);
        }
        self.value.as_str()
    }

    pub fn duplicate(&self) -> (r: Self)
        ensures
            r == *self,
    {
        proof {
            use_type_invariant(self);
        }
        AgentCheckpointId { value: self.value.clone() }
    }

    pub fn same(&self, other: &Self) -> (r: bool)
        ensures
            r == (self@ == other@),
    {
        self.value == other.value
    }
}

/// Stable UUIDv7 identity of an agent prompt.
#[derive(Debug)]
pub struct AgentPromptId {
    value: String,
}

impl View for AgentPromptId {
    type V = Seq<char>;

    closed spec fn view(&self) -> Seq<char> {
        self.value@
    }
}

impl AgentPromptId {
    #[verifier::type_invariant]
    spec fn well_formed(self) -> bool {
        is_uuid_v7(self.value@)
    }

    /// A new agent prompt identity.
    pub fn new() -> (r: Self)
        ensures
            is_uuid_v7(r@),
    {
        AgentPromptId { value: fresh_uuid_v7() }
    }

    /// Parses an agent prompt identity and rejects UUIDs of other versions.
    pub fn parse(value: String) -> (r: Result<Self, AgentContinuationError>)
        ensures
            match r {
                Ok(id) => identity_error(ContinuationIdKind::Prompt, parsed_uuid(value@)) is None
                    && id@ == value@,
                Err(e) => identity_error(ContinuationIdKind::Prompt, parsed_uuid(value@)) == Some(
                    e@,
                ),
            },
    {
        let parsed = uuid_bytes(value.as_str());
        match check_identity(ContinuationIdKind::Prompt, &parsed) {
            Ok(_) => Ok(AgentPromptId { value }),
            Err(e) => Err(e),
        }
    }

    /// The text of the identity, always that of a version 7 UUID.
    pub fn as_str(&self) -> (r: &str)
        ensures
            r@ == self@,
            is_uuid_v7(self@),
    {
        proof {
            use_type_invariant(self);
        }
        self.value.as_str()
    }

    pub fn duplicate(&self) -> (r: Self)
        ensures
            r == *self,
    {
        proof {
            use_type_invariant(self);
        }
        AgentPromptId { value: self.value.clone() }
    }

    pub fn same(&self, other: &Self) -> (r: bool)
        ensures
            r == (self@ == other@),
    {
        self.value == other.value
    }
}

impl AgentContinuationId {
    /// Whether this identity is ordered before `other`, by text.
    pub fn before(&self, other: &Self) -> (r: bool)
        ensures
            r == crate::text::precedes(self@, other@),
    {
        text_precedes(self.value.as_str(), other.value.as_str())
    }
}

/// Monotonic compare-and-swap revision of one continuation record.
#[derive(Clone, Copy, Debug, PartialEq, Eq, Structural)]
pub struct ContinuationRevision {
    pub value: u64,
}

impl ContinuationRevision {
    /// The revision before the first committed mutation.
    pub fn zero() -> (r: Self)
        ensures
            r.value == 0,
    {
        ContinuationRevision { value: 0 }
    }

    pub fn from_u64(value: u64) -> (r: Self)
        ensures
            r.value == value,
    {
        ContinuationRevision { value }
    }

    pub fn get(self) -> (r: u64)
        ensures
            r == self.value,
    {
        self.value
    }

    /// The successor revision; fails when the counter is exhausted.
    pub fn next(self) -> (r: Result<Self, AgentContinuationError>)
        ensures
            match r {
                Ok(n) => n.value == self.value + 1,
                Err(e) => self.value == u64::MAX && e == AgentContinuationError::RevisionExhausted,
            },
    {
        if self.value == u64::MAX {
            return Err(AgentContinuationError::RevisionExhausted);
        }
        Ok(ContinuationRevision { value: self.value + 1 })
    }
}

/// A SHA-256 digest.
#[derive(Clone, Copy, Debug)]
pub struct Sha256Digest {
    pub bytes: [u8; 32],
}

impl Sha256Digest {
    pub fn new(bytes: [u8; 32]) -> (r: Self)
        ensures
            r.bytes == bytes,
    {
        Sha256Digest { bytes }
    }

    pub fn same(&self, other: &Self) -> (r: bool)
        ensures
            r == (*self == *other),
    {
        let mut i: usize = 0;
        while i < 32
            invariant
                i <= 32,
                forall|j: int| 0 <= j < i ==> self.bytes@[j] == other.bytes@[j],
            decreases 32 - i,
        {
            if self.bytes[i] != other.bytes[i] {
                return false;
            }
            i += 1;
        }
        assert(self.bytes =~= other.bytes);
        true
    }
}

/// An identity is accepted exactly when it is a UUID whose seventh byte begins with
/// a seven; otherwise the error says what the identity was meant for and which
/// version was found.
pub proof fn identities_are_version_seven(kind: ContinuationIdKind, bytes: Seq<u8>)
    requires
        bytes.len() == 16,
    ensures
        identity_error(kind, None) == Some(AgentContinuationErrorView::InvalidUuid { kind }),
        identity_error(kind, Some(bytes)) is None <==> 0x70 <= bytes[6] <= 0x7f,
        identity_error(kind, Some(bytes)) matches Some(e) ==> (
        e matches AgentContinuationErrorView::WrongUuidVersion { kind: named, found } && named
            == kind && 16 * found <= bytes[6] < 16 * found + 16),
{
}

} // verus!
