//! The registry of child agents, reduced from one ordered event stream.
//!
//! Events of one attempt carry gapless sequence numbers. An event identity is
//! applied once; a record that cannot be applied is put aside as a dead letter
//! and does not block the events behind it.

use vstd::prelude::*;
use vstd::string::*;
use crate::budget::{saturated_u64, saturating_sum_u64};
use crate::text::{
    clone_opt_text, decimal, decimal_of, is_blank, plus3, precedes, precedes_total,
    precedes_transitive, text_precedes, blank,
};
use crate::text_map::{key_at, TextMap, TextKey};

verus! {

/// Token and cost totals.
#[derive(Clone, Copy, Debug, PartialEq, Eq, Structural)]
pub struct UsageTotals {
    pub input_tokens: u64,
    pub output_tokens: u64,
    pub cache_tokens: u64,
    pub cost_usd_micros: u64,
}

impl UsageTotals {
    pub open spec fn zero_spec() -> UsageTotals {
        UsageTotals { input_tokens: 0, output_tokens: 0, cache_tokens: 0, cost_usd_micros: 0 }
    }

    pub fn zero() -> (r: UsageTotals)
        ensures
            r == Self::zero_spec(),
    {
        UsageTotals { input_tokens: 0, output_tokens: 0, cache_tokens: 0, cost_usd_micros: 0 }
    }
}

/// Where an agent stands.
#[derive(Clone, Copy, Debug, PartialEq, Eq, Structural)]
pub enum AgentStatus {
    Queued,
    Running,
    WaitingPermission,
    Completed,
    Failed,
    Cancelled,
    Corrupt,
}

/// What an agent does.
#[derive(Debug)]
pub enum AgentActivity {
    Thinking,
    Tool { name: String },
    WaitingPermission { description: String },
}

impl AgentActivity {
    pub fn duplicate(&self) -> (r: Self)
        ensures
            r == *self,
    {
        match self {
            AgentActivity::Thinking => AgentActivity::Thinking,
            AgentActivity::Tool { name } => AgentActivity::Tool { name: name.clone() },
            AgentActivity::WaitingPermission { description } => AgentActivity::WaitingPermission {
                description: description.clone(),
            },
        }
    }
}

/// What happened to an agent.
#[derive(Debug)]
#[allow(inconsistent_fields)]
pub enum AgentEvent {
    Spawned { batch_id: String, batch_size: u32, parent_thread_id: String, description: String },
    Activity { activity: AgentActivity, turn: Option<u32>, usage: Option<UsageTotals> },
    OutputDelta,
    PermissionRequested { description: String },
    Completed { result: Option<String>, usage: UsageTotals },
    Failed { reason: String, usage: UsageTotals },
    Cancelled { reason: String, usage: UsageTotals },
    Corrupt { reason: String },
}

/// An event with its identity and its place in the stream of an attempt.
#[derive(Debug)]
pub struct AgentEventEnvelope {
    pub event_id: String,
    pub root_thread_id: String,
    pub agent_id: String,
    pub thread_id: String,
    pub attempt_id: String,
    pub source_sequence: u64,
    pub occurred_at_ms: i64,
    pub payload_digest: String,
    pub event: AgentEvent,
}

/// What the registry knows of an agent.
#[derive(Debug)]
pub struct AgentSummary {
    pub root_thread_id: String,
    pub batch_id: String,
    pub batch_size: u32,
    pub agent_id: String,
    pub thread_id: String,
    pub parent_thread_id: String,
    pub description: String,
    pub status: AgentStatus,
    pub activity: Option<AgentActivity>,
    pub turn: Option<u32>,
    pub usage: UsageTotals,
    pub result: Option<String>,
    pub error: Option<String>,
    pub created_at_ms: i64,
    pub updated_at_ms: i64,
}

impl AgentSummary {
    pub fn duplicate(&self) -> (r: Self)
        ensures
            r == *self,
    {
        AgentSummary {
            root_thread_id: self.root_thread_id.clone(),
            batch_id: self.batch_id.clone(),
            batch_size: self.batch_size,
            agent_id: self.agent_id.clone(),
            thread_id: self.thread_id.clone(),
            parent_thread_id: self.parent_thread_id.clone(),
            description: self.description.clone(),
            status: self.status,
            activity: match &self.activity {
                Some(a) => Some(a.duplicate()),
                None => None,
            },
            turn: self.turn,
            usage: self.usage,
            result: clone_opt_text(&self.result),
            error: clone_opt_text(&self.error),
            created_at_ms: self.created_at_ms,
            updated_at_ms: self.updated_at_ms,
        }
    }
}

/// Why an event is refused.
#[derive(Debug)]
pub enum AgentRegistryError {
    /// The envelope failed its own validation.
    InvalidEnvelope { reason: String },
    /// The event identity was used before with another digest.
    ConflictingDigest,
    /// The sequence number is not the next one.
    SequenceGap { expected: u64, observed: u64 },
    /// The agent was spawned before.
    IdentityExists,
    /// No such agent was spawned.
    UnknownAgent,
    /// The event names another thread than the agent's.
    ThreadIdentityChanged,
}

/// The kind of an I/O error.
#[derive(Clone, Copy, Debug, PartialEq, Eq, Structural)]
pub enum RegistryErrorKind {
    InvalidData,
    AlreadyExists,
    NotFound,
}

impl AgentRegistryError {
    pub open spec fn kind_spec(self) -> RegistryErrorKind {
        match self {
            AgentRegistryError::IdentityExists => RegistryErrorKind::AlreadyExists,
            AgentRegistryError::UnknownAgent => RegistryErrorKind::NotFound,
            _ => RegistryErrorKind::InvalidData,
        }
    }

    pub fn kind(&self) -> (r: RegistryErrorKind)
        ensures
            r == self.kind_spec(),
    {
        match self {
            AgentRegistryError::IdentityExists => RegistryErrorKind::AlreadyExists,
            AgentRegistryError::UnknownAgent => RegistryErrorKind::NotFound,
            _ => RegistryErrorKind::InvalidData,
        }
    }

    pub open spec fn message(self) -> Seq<char> {
        match self {
            AgentRegistryError::InvalidEnvelope { reason } => reason@,
            AgentRegistryError::ConflictingDigest =>
                "agent event id was reused with a conflicting digest"@,
            AgentRegistryError::SequenceGap { expected, observed } =>
                "agent event sequence gap: expected "@ + decimal_of(expected as nat) + ", observed "@
                + decimal_of(observed as nat),
            AgentRegistryError::IdentityExists => "agent identity already exists"@,
            AgentRegistryError::UnknownAgent => "agent does not exist"@,
            AgentRegistryError::ThreadIdentityChanged => "agent event thread identity changed"@,
        }
    }

    pub fn to_text(&self) -> (s: String)
        ensures
            s@ == self.message(),
    {
        match self {
            AgentRegistryError::InvalidEnvelope { reason } => reason.clone(),
            AgentRegistryError::ConflictingDigest =>
                "agent event id was reused with a conflicting digest".to_owned(),
            AgentRegistryError::SequenceGap { expected, observed } => {
                let mut s = plus3(
                    "agent event sequence gap: expected ",
                    decimal(*expected).as_str(),
                    ", observed ",
                );
                s.append(decimal(*observed).as_str());
                s
            },
            AgentRegistryError::IdentityExists => "agent identity already exists".to_owned(),
            AgentRegistryError::UnknownAgent => "agent does not exist".to_owned(),
            AgentRegistryError::ThreadIdentityChanged =>
                "agent event thread identity changed".to_owned(),
        }
    }
}

/// What the registry holds.
pub ghost struct RegistryView {
    pub revision: u64,
    /// Agents by root thread and agent identity.
    pub agents: Map<(Seq<char>, Seq<char>), AgentSummary>,
    /// Latest sequence number by root thread, agent and attempt.
    pub attempts: Map<(Seq<char>, Seq<char>, Seq<char>), u64>,
    /// Digests of applied events by event identity.
    pub digests: Map<Seq<char>, String>,
}

pub open spec fn agent_key(event: AgentEventEnvelope) -> (Seq<char>, Seq<char>) {
    (event.root_thread_id@, event.agent_id@)
}

pub open spec fn attempt_key(event: AgentEventEnvelope) -> (Seq<char>, Seq<char>, Seq<char>) {
    (event.root_thread_id@, event.agent_id@, event.attempt_id@)
}

impl RegistryView {
    /// The sequence number that an event must carry.
    pub open spec fn next_sequence(self, event: AgentEventEnvelope) -> u64 {
        saturated_u64(
            if self.attempts.dom().contains(attempt_key(event)) {
                self.attempts[attempt_key(event)]
            } else {
                0
            },
            1,
        )
    }

    /// The event identity is known.
    pub open spec fn known(self, event: AgentEventEnvelope) -> bool {
        self.digests.dom().contains(event.event_id@)
    }

    /// The event is known under the same digest.
    pub open spec fn duplicate(self, event: AgentEventEnvelope) -> bool {
        self.known(event) && self.digests[event.event_id@]@ == event.payload_digest@
    }

    /// The event is accounted for: its sequence number, its digest, one more
    /// revision.
    pub open spec fn accounted(self, event: AgentEventEnvelope) -> RegistryView {
        RegistryView {
            revision: saturated_u64(self.revision, 1),
            attempts: self.attempts.insert(attempt_key(event), event.source_sequence),
            digests: self.digests.insert(event.event_id@, event.payload_digest),
            ..self
        }
    }

    pub open spec fn with_agent(self, event: AgentEventEnvelope, agent: AgentSummary) -> RegistryView {
        RegistryView { agents: self.agents.insert(agent_key(event), agent), ..self }
    }
}

/// A newly spawned agent.
pub open spec fn spawned(event: AgentEventEnvelope) -> AgentSummary {
    AgentSummary {
        root_thread_id: event.root_thread_id,
        batch_id: event.event->Spawned_batch_id,
        batch_size: event.event->Spawned_batch_size,
        agent_id: event.agent_id,
        thread_id: event.thread_id,
        parent_thread_id: event.event->Spawned_parent_thread_id,
        description: event.event->Spawned_description,
        status: AgentStatus::Queued,
        activity: None,
        turn: None,
        usage: UsageTotals::zero_spec(),
        result: None,
        error: None,
        created_at_ms: event.occurred_at_ms,
        updated_at_ms: event.occurred_at_ms,
    }
}

/// An agent after an event that is no spawn.
pub open spec fn progressed(agent: AgentSummary, event: AgentEventEnvelope) -> AgentSummary {
    let touched = AgentSummary { updated_at_ms: event.occurred_at_ms, ..agent };
    match event.event {
        AgentEvent::Spawned { .. } => agent,
        AgentEvent::Activity { activity, turn, usage } => AgentSummary {
            status: AgentStatus::Running,
            activity: Some(activity),
            turn: if turn is Some {
                turn
            } else {
                agent.turn
            },
            usage: match usage {
                Some(u) => u,
                None => agent.usage,
            },
            ..touched
        },
        AgentEvent::OutputDelta => touched,
        AgentEvent::PermissionRequested { description } => AgentSummary {
            status: AgentStatus::WaitingPermission,
            activity: Some(AgentActivity::WaitingPermission { description }),
            ..touched
        },
        AgentEvent::Completed { result, usage } => AgentSummary {
            status: AgentStatus::Completed,
            result,
            usage,
            ..touched
        },
        AgentEvent::Failed { reason, usage } => AgentSummary {
            status: AgentStatus::Failed,
            error: Some(reason),
            usage,
            ..touched
        },
        AgentEvent::Cancelled { reason, usage } => AgentSummary {
            status: AgentStatus::Cancelled,
            error: Some(reason),
            usage,
            ..touched
        },
        AgentEvent::Corrupt { reason } => AgentSummary {
            status: AgentStatus::Corrupt,
            error: Some(reason),
            ..touched
        },
    }
}

/// What applying an event comes to.
pub open spec fn applied(state: RegistryView, event: AgentEventEnvelope) -> Result<
    RegistryView,
    AgentRegistryError,
> {
    if state.known(event) {
        if state.duplicate(event) {
            Ok(state)
        } else {
            Err(AgentRegistryError::ConflictingDigest)
        }
    } else if event.source_sequence != state.next_sequence(event) {
        Err(
            AgentRegistryError::SequenceGap {
                expected: state.next_sequence(event),
                observed: event.source_sequence,
            },
        )
    } else if event.event is Spawned {
        if state.agents.dom().contains(agent_key(event)) {
            Err(AgentRegistryError::IdentityExists)
        } else {
            Ok(state.with_agent(event, spawned(event)).accounted(event))
        }
    } else if !state.agents.dom().contains(agent_key(event)) {
        Err(AgentRegistryError::UnknownAgent)
    } else if state.agents[agent_key(event)].thread_id@ != event.thread_id@ {
        Err(AgentRegistryError::ThreadIdentityChanged)
    } else {
        Ok(
            state.with_agent(event, progressed(state.agents[agent_key(event)], event)).accounted(
                event,
            ),
        )
    }
}

/// What is left of an event that could not be applied: where it has the next
/// sequence number it is accounted for, and its agent is marked corrupt.
pub open spec fn dead_lettered(
    state: RegistryView,
    event: AgentEventEnvelope,
    reason: String,
) -> RegistryView {
    if event.source_sequence != state.next_sequence(event) {
        state
    } else if state.agents.dom().contains(agent_key(event)) {
        state.with_agent(
            event,
            AgentSummary {
                status: AgentStatus::Corrupt,
                error: Some(reason),
                updated_at_ms: event.occurred_at_ms,
                ..state.agents[agent_key(event)]
            },
        ).accounted(event)
    } else {
        state.accounted(event)
    }
}

/// The registry of agents.
pub struct AgentRegistry {
    revision: u64,
    agents: TextMap<(String, String), AgentSummary>,
    attempts: TextMap<(String, String, String), u64>,
    event_digests: TextMap<String, String>,
}

impl View for AgentRegistry {
    type V = RegistryView;

    closed spec fn view(&self) -> RegistryView {
        RegistryView {
            revision: self.revision,
            agents: self.agents@,
            attempts: self.attempts@,
            digests: self.event_digests@,
        }
    }
}

/// Every agent stands under its own root thread and identity.
pub open spec fn agents_keyed(state: RegistryView) -> bool {
    forall|key: (Seq<char>, Seq<char>)| #[trigger]
        state.agents.dom().contains(key) ==> state.agents[key].root_thread_id@ == key.0
            && state.agents[key].agent_id@ == key.1
}

/// A line of the event journal: its text and what decoding it gave. A decoded
/// event comes with what its own validation found wrong, if anything.
#[derive(Debug)]
pub struct JournalLine {
    pub text: String,
    pub decoded: Result<(AgentEventEnvelope, Option<String>), String>,
}

/// A journal line that was put aside.
#[derive(Debug)]
pub struct DeadLetter {
    pub line: u64,
    pub reason: String,
}

/// The state after a decoded event was replayed, and why it was put aside, if
/// it was.
pub open spec fn replayed_event(
    state: RegistryView,
    event: AgentEventEnvelope,
    fault: Option<String>,
    letter: Option<String>,
    after: RegistryView,
) -> bool {
    match fault {
        Some(reason) => letter is Some && letter->0@ == reason@ && after == dead_lettered(
            state,
            event,
            letter->0,
        ),
        None => match applied(state, event) {
            Ok(next) => letter is None && after == next,
            Err(e) => letter is Some && letter->0@ == e.message() && after == dead_lettered(
                state,
                event,
                letter->0,
            ),
        },
    }
}

/// The same for any line: blank lines are skipped, lines that do not decode are
/// put aside.
pub open spec fn replayed(
    state: RegistryView,
    line: JournalLine,
    letter: Option<String>,
    after: RegistryView,
) -> bool {
    if blank(line.text@) {
        letter is None && after == state
    } else {
        match line.decoded {
            Err(reason) => letter is Some && letter->0@ == reason@ && after == state,
            Ok((event, fault)) => replayed_event(state, event, fault, letter, after),
        }
    }
}

impl AgentRegistry {
    pub closed spec fn wf(&self) -> bool {
        &&& self.agents.wf()
        &&& self.attempts.wf()
        &&& self.event_digests.wf()
        &&& agents_keyed(self@)
    }

    /// A registry without agents.
    pub fn in_memory() -> (r: Self)
        ensures
            r.wf(),
            r@.revision == 0,
            r@.agents == Map::<(Seq<char>, Seq<char>), AgentSummary>::empty(),
            r@.attempts == Map::<(Seq<char>, Seq<char>, Seq<char>), u64>::empty(),
            r@.digests == Map::<Seq<char>, String>::empty(),
    {
        AgentRegistry {
            revision: 0,
            agents: TextMap::new(),
            attempts: TextMap::new(),
            event_digests: TextMap::new(),
        }
    }

    fn expected_sequence(&self, event: &AgentEventEnvelope) -> (r: u64)
        requires
            self.wf(),
        ensures
            r == self@.next_sequence(*event),
    {
        let key = (
            event.root_thread_id.clone(),
            event.agent_id.clone(),
            event.attempt_id.clone(),
        );
        let latest: u64 = match self.attempts.get(&key) {
            Some(sequence) => *sequence,
            None => 0,
        };
        saturating_sum_u64(latest, 1)
    }

    /// Checks that an event carries the next sequence number of its attempt.
    pub fn validate_next_sequence(&self, event: &AgentEventEnvelope) -> (r: Result<
        (),
        AgentRegistryError,
    >)
        requires
            self.wf(),
        ensures
            match r {
                Ok(_) => event.source_sequence == self@.next_sequence(*event),
                Err(e) => event.source_sequence != self@.next_sequence(*event) && e
                    == (AgentRegistryError::SequenceGap {
                    expected: self@.next_sequence(*event),
                    observed: event.source_sequence,
                }),
            },
    {
        let expected: u64 = self.expected_sequence(event);
        if event.source_sequence != expected {
            return Err(
                AgentRegistryError::SequenceGap { expected, observed: event.source_sequence },
            );
        }
        Ok(())
    }

    /// The agent that an event is about.
    fn require_agent(&self, event: &AgentEventEnvelope) -> (r: Result<
        AgentSummary,
        AgentRegistryError,
    >)
        requires
            self.wf(),
        ensures
            match r {
                Ok(agent) => self@.agents.dom().contains(agent_key(*event)) && agent
                    == self@.agents[agent_key(*event)] && agent.thread_id@ == event.thread_id@,
                Err(e) => if self@.agents.dom().contains(agent_key(*event)) {
                    self@.agents[agent_key(*event)].thread_id@ != event.thread_id@ && e
                        == AgentRegistryError::ThreadIdentityChanged
                } else {
                    e == AgentRegistryError::UnknownAgent
                },
            },
    {
        let key = (event.root_thread_id.clone(), event.agent_id.clone());
        match self.agents.get(&key) {
            None => Err(AgentRegistryError::UnknownAgent),
            Some(agent) => {
                if agent.root_thread_id != event.root_thread_id || agent.thread_id
                    != event.thread_id {
                    assert(self@.agents.dom().contains(agent_key(*event)));
                    return Err(AgentRegistryError::ThreadIdentityChanged);
                }
                Ok(agent.duplicate())
            },
        }
    }

    fn account(&mut self, event: &AgentEventEnvelope)
        requires
            old(self).wf(),
        ensures
            final(self).wf(),
            final(self)@ == old(self)@.accounted(*event),
    {
        self.attempts.insert(
            (event.root_thread_id.clone(), event.agent_id.clone(), event.attempt_id.clone()),
            event.source_sequence,
        );
        self.event_digests.insert(event.event_id.clone(), event.payload_digest.clone());
        self.revision = saturating_sum_u64(self.revision, 1);
    }

    fn put_agent(&mut self, event: &AgentEventEnvelope, agent: AgentSummary)
        requires
            old(self).wf(),
            agent.root_thread_id@ == event.root_thread_id@,
            agent.agent_id@ == event.agent_id@,
        ensures
            final(self).wf(),
            final(self)@ == old(self)@.with_agent(*event, agent),
    {
        self.agents.insert((event.root_thread_id.clone(), event.agent_id.clone()), agent);
    }

    /// Applies an event. A refused event changes nothing.
    pub fn apply_event(&mut self, event: &AgentEventEnvelope) -> (r: Result<(), AgentRegistryError>)
        requires
            old(self).wf(),
        ensures
            final(self).wf(),
            match r {
                Ok(_) => applied(old(self)@, *event) == Ok::<RegistryView, AgentRegistryError>(
                    final(self)@,
                ),
                Err(e) => applied(old(self)@, *event) == Err::<RegistryView, AgentRegistryError>(e)
                    && *final(self) == *old(self),
            },
    {
        if let Some(existing) = self.event_digests.get(&event.event_id) {
            return if *existing == event.payload_digest {
                Ok(())
            } else {
                Err(AgentRegistryError::ConflictingDigest)
            };
        }
        match self.validate_next_sequence(event) {
            Ok(_) => {},
            Err(e) => {
                return Err(e);
            },
        }
        if let AgentEvent::Spawned { batch_id, batch_size, parent_thread_id, description } =
            &event.event {
            let key = (event.root_thread_id.clone(), event.agent_id.clone());
            if self.agents.contains(&key) {
                return Err(AgentRegistryError::IdentityExists);
            }
            let agent = AgentSummary {
                root_thread_id: event.root_thread_id.clone(),
                batch_id: batch_id.clone(),
                batch_size: *batch_size,
                agent_id: event.agent_id.clone(),
                thread_id: event.thread_id.clone(),
                parent_thread_id: parent_thread_id.clone(),
                description: description.clone(),
                status: AgentStatus::Queued,
                activity: None,
                turn: None,
                usage: UsageTotals::zero(),
                result: None,
                error: None,
                created_at_ms: event.occurred_at_ms,
                updated_at_ms: event.occurred_at_ms,
            };
            self.put_agent(event, agent);
            self.account(event);
            return Ok(());
        }
        let mut agent = match self.require_agent(event) {
            Ok(agent) => agent,
            Err(e) => {
                return Err(e);
            },
        };
        match &event.event {
            AgentEvent::Spawned { .. } => {},
            AgentEvent::Activity { activity, turn, usage } => {
                agent.status = AgentStatus::Running;
                agent.activity = Some(activity.duplicate());
                if turn.is_some() {
                    agent.turn = *turn;
                }
                if let Some(usage) = usage {
                    agent.usage = *usage;
                }
                agent.updated_at_ms = event.occurred_at_ms;
            },
            AgentEvent::OutputDelta => {
                agent.updated_at_ms = event.occurred_at_ms;
            },
            AgentEvent::PermissionRequested { description } => {
                agent.status = AgentStatus::WaitingPermission;
                agent.activity =
                Some(AgentActivity::WaitingPermission { description: description.clone() });
                agent.updated_at_ms = event.occurred_at_ms;
            },
            AgentEvent::Completed { result, usage } => {
                agent.status = AgentStatus::Completed;
                agent.result = clone_opt_text(result);
                agent.usage = *usage;
                agent.updated_at_ms = event.occurred_at_ms;
            },
            AgentEvent::Failed { reason, usage } => {
                agent.status = AgentStatus::Failed;
                agent.error = Some(reason.clone());
                agent.usage = *usage;
                agent.updated_at_ms = event.occurred_at_ms;
            },
            AgentEvent::Cancelled { reason, usage } => {
                agent.status = AgentStatus::Cancelled;
                agent.error = Some(reason.clone());
                agent.usage = *usage;
                agent.updated_at_ms = event.occurred_at_ms;
            },
            AgentEvent::Corrupt { reason } => {
                agent.status = AgentStatus::Corrupt;
                agent.error = Some(reason.clone());
                agent.updated_at_ms = event.occurred_at_ms;
            },
        }
        self.put_agent(event, agent);
        self.account(event);
        Ok(())
    }

    /// Takes a dead letter's place in the stream, so that the events behind it
    /// can be applied.
    pub fn consume_dead_letter(&mut self, event: &AgentEventEnvelope, reason: &String)
        requires
            old(self).wf(),
        ensures
            final(self).wf(),
            final(self)@ == dead_lettered(old(self)@, *event, *reason),
    {
        let expected: u64 = self.expected_sequence(event);
        if event.source_sequence != expected {
            return;
        }
        let key = (event.root_thread_id.clone(), event.agent_id.clone());
        let found = match self.agents.get(&key) {
            Some(agent) => Some(agent.duplicate()),
            None => None,
        };
        if let Some(agent) = found {
            let mut agent = agent;
            agent.status = AgentStatus::Corrupt;
            agent.error = Some(reason.clone());
            agent.updated_at_ms = event.occurred_at_ms;
            self.put_agent(event, agent);
        }
        self.account(event);
    }

    /// Whether a validated event is new and must be journaled before it is
    /// applied. A duplicate is not journaled again.
    pub fn screen(&self, event: &AgentEventEnvelope, fault: &Option<String>) -> (r: Result<
        bool,
        AgentRegistryError,
    >)
        requires
            self.wf(),
        ensures
            match fault {
                Some(reason) => r == Err::<bool, AgentRegistryError>(
                    AgentRegistryError::InvalidEnvelope { reason: *reason },
                ),
                None => if self@.known(*event) {
                    if self@.duplicate(*event) {
                        r == Ok::<bool, AgentRegistryError>(false)
                    } else {
                        r == Err::<bool, AgentRegistryError>(AgentRegistryError::ConflictingDigest)
                    }
                } else if event.source_sequence != self@.next_sequence(*event) {
                    r == Err::<bool, AgentRegistryError>(
                        AgentRegistryError::SequenceGap {
                            expected: self@.next_sequence(*event),
                            observed: event.source_sequence,
                        },
                    )
                } else {
                    r == Ok::<bool, AgentRegistryError>(true)
                },
            },
    {
        if let Some(reason) = fault {
            return Err(AgentRegistryError::InvalidEnvelope { reason: reason.clone() });
        }
        if let Some(existing) = self.event_digests.get(&event.event_id) {
            return if *existing == event.payload_digest {
                Ok(false)
            } else {
                Err(AgentRegistryError::ConflictingDigest)
            };
        }
        match self.validate_next_sequence(event) {
            Ok(_) => Ok(true),
            Err(e) => Err(e),
        }
    }

    /// Validates and applies an event. `fault` is what the event's own
    /// validation found wrong.
    pub fn append(&mut self, event: AgentEventEnvelope, fault: Option<String>) -> (r: Result<
        (),
        AgentRegistryError,
    >)
        requires
            old(self).wf(),
        ensures
            final(self).wf(),
            match fault {
                Some(reason) => r == Err::<(), AgentRegistryError>(
                    AgentRegistryError::InvalidEnvelope { reason },
                ) && *final(self) == *old(self),
                None => match r {
                    Ok(_) => applied(old(self)@, event) == Ok::<RegistryView, AgentRegistryError>(
                        final(self)@,
                    ),
                    Err(e) => applied(old(self)@, event) == Err::<
                        RegistryView,
                        AgentRegistryError,
                    >(e) && *final(self) == *old(self),
                },
            },
    {
        match self.screen(&event, &fault) {
            Err(e) => Err(e),
            Ok(false) => Ok(()),
            Ok(true) => self.apply_event(&event),
        }
    }

    /// Replays one journal line and says why it was put aside, if it was.
    pub fn replay(&mut self, line: &JournalLine) -> (letter: Option<String>)
        requires
            old(self).wf(),
        ensures
            final(self).wf(),
            replayed(old(self)@, *line, letter, final(self)@),
    {
        if is_blank(line.text.as_str()) {
            return None;
        }
        match &line.decoded {
            Err(reason) => Some(reason.clone()),
            Ok((event, fault)) => {
                let reason = match fault {
                    Some(reason) => reason.clone(),
                    None => match self.apply_event(event) {
                        Ok(_) => {
                            return None;
                        },
                        Err(e) => e.to_text(),
                    },
                };
                self.consume_dead_letter(event, &reason);
                Some(reason)
            },
        }
    }

    /// Rebuilds a registry from its journal. The dead letters are numbered by
    /// line, starting with one.
    pub fn open(lines: &Vec<JournalLine>) -> (r: (Self, Vec<DeadLetter>))
        ensures
            r.0.wf(),
            exists|states: Seq<RegistryView>, letters: Seq<Option<String>>| #[trigger]
                replay_of(lines@, states, letters) && r.0@ == states[lines@.len() as int]
                    && r.1@ == numbered(letters),
    {
        let mut registry = AgentRegistry::in_memory();
        let mut dead: Vec<DeadLetter> = Vec::new();
        let ghost mut states: Seq<RegistryView> = seq![registry@];
        let ghost mut letters: Seq<Option<String>> = Seq::empty();
        let mut i: usize = 0;
        while i < lines.len()
            invariant
                i <= lines.len(),
                registry.wf(),
                states.len() == i + 1,
                letters.len() == i,
                states[0] == empty_registry(),
                states[i as int] == registry@,
                forall|k: int|
                    0 <= k < i ==> replayed(
                        #[trigger] states[k],
                        lines@[k],
                        letters[k],
                        states[k + 1],
                    ),
                dead@ == numbered(letters),
            decreases lines.len() - i,
        {
            let ghost before = registry@;
            let letter = registry.replay(&lines[i]);
            proof {
                let old_states = states;
                let old_letters = letters;
                states = states.push(registry@);
                letters = letters.push(letter);
                assert forall|k: int| 0 <= k < i + 1 implies replayed(
                    #[trigger] states[k],
                    lines@[k],
                    letters[k],
                    states[k + 1],
                ) by {
                    if k < i {
                        assert(states[k] == old_states[k] && states[k + 1] == old_states[k + 1]
                            && letters[k] == old_letters[k]);
                    }
                }
                assert(letters.drop_last() =~= old_letters);
            }
            if let Some(reason) = letter {
                dead.push(DeadLetter { line: i as u64 + 1, reason });
            }
            i += 1;
        }
        assert(replay_of(lines@, states, letters));
        (registry, dead)
    }
}

/// Agents of one root thread as a snapshot lists them.
#[derive(Debug)]
pub struct AgentRegistrySnapshot {
    pub revision: u64,
    pub agents: Vec<AgentSummary>,
}

/// `a` is listed before `b`: created earlier, or at the same time with the
/// smaller identity.
pub open spec fn listed_before(a: AgentSummary, b: AgentSummary) -> bool {
    a.created_at_ms < b.created_at_ms || (a.created_at_ms == b.created_at_ms && precedes(
        a.agent_id@,
        b.agent_id@,
    ))
}

/// Every agent is listed before all later ones.
pub open spec fn in_listing_order(list: Seq<AgentSummary>) -> bool {
    forall|i: int, j: int|
        0 <= i < j < list.len() ==> listed_before(#[trigger] list[i], #[trigger] list[j])
}

/// `list` holds exactly the agents of a root thread, in listing order.
pub open spec fn lists_root(state: RegistryView, root: Seq<char>, list: Seq<AgentSummary>) -> bool {
    &&& in_listing_order(list)
    &&& forall|i: int|
        0 <= i < list.len() ==> (#[trigger] list[i]).root_thread_id@ == root
            && state.agents.dom().contains((root, list[i].agent_id@)) && state.agents[(
            root,
            list[i].agent_id@,
        )] == list[i]
    &&& forall|id: Seq<char>| #[trigger]
        state.agents.dom().contains((root, id)) ==> exists|i: int|
            0 <= i < list.len() && (#[trigger] list[i]).agent_id@ == id
}

/// Puts an agent at its place in a list that does not hold its identity yet.
fn insert_listed(list: &mut Vec<AgentSummary>, agent: AgentSummary)
    requires
        in_listing_order(old(list)@),
        forall|i: int|
            0 <= i < old(list)@.len() ==> (#[trigger] old(list)@[i]).agent_id@ != agent.agent_id@,
    ensures
        in_listing_order(final(list)@),
        final(list)@.len() == old(list)@.len() + 1,
        forall|x: AgentSummary| #[trigger]
            final(list)@.contains(x) <==> old(list)@.contains(x) || x == agent,
{
    let ghost before = list@;
    let mut p: usize = 0;
    while p < list.len() && (list[p].created_at_ms < agent.created_at_ms || (list[p].created_at_ms
        == agent.created_at_ms && text_precedes(
        list[p].agent_id.as_str(),
        agent.agent_id.as_str(),
    )))
        invariant
            p <= list.len(),
            list@ == before,
            forall|i: int| 0 <= i < p ==> listed_before(#[trigger] before[i], agent),
        decreases list.len() - p,
    {
        p += 1;
    }
    let ghost new = agent;
    list.insert(p, agent);
    proof {
        let after = list@;
        assert forall|j: int| p <= j < before.len() implies listed_before(
            new,
            #[trigger] before[j],
        ) by {
            precedes_total(new.agent_id@, before[p as int].agent_id@);
            if j > p {
                assert(listed_before(before[p as int], before[j]));
                if before[p as int].created_at_ms == before[j].created_at_ms && new.created_at_ms
                    == before[j].created_at_ms {
                    precedes_transitive(
                        new.agent_id@,
                        before[p as int].agent_id@,
                        before[j].agent_id@,
                    );
                }
            }
        }
        assert forall|i: int, j: int| 0 <= i < j < after.len() implies listed_before(
            #[trigger] after[i],
            #[trigger] after[j],
        ) by {
            let x = if i < p {
                i
            } else {
                i - 1
            };
            let y = if j < p {
                j
            } else {
                j - 1
            };
            if i == p {
                assert(after[j] == before[y]);
            } else if j == p {
                assert(after[i] == before[x]);
            } else {
                assert(after[i] == before[x] && after[j] == before[y]);
            }
        }
        assert forall|x: AgentSummary| #[trigger]
            after.contains(x) <==> before.contains(x) || x == new by {
            if before.contains(x) {
                let j = choose|j: int| 0 <= j < before.len() && before[j] == x;
                if j < p {
                    assert(after[j] == x);
                } else {
                    assert(after[j + 1] == x);
                }
            }
            if x == new {
                assert(after[p as int] == x);
            }
            if after.contains(x) {
                let j = choose|j: int| 0 <= j < after.len() && after[j] == x;
                if j < p {
                    assert(before[j] == x);
                } else if j > p {
                    assert(before[j - 1] == x);
                }
            }
        }
    }
}

impl AgentRegistry {
    /// The agents of one root thread, in listing order.
    pub fn snapshot(&self, root_thread_id: &str) -> (r: AgentRegistrySnapshot)
        requires
            self.wf(),
        ensures
            r.revision == self@.revision,
            lists_root(self@, root_thread_id@, r.agents@),
    {
        let root = root_thread_id.to_owned();
        let mut list: Vec<AgentSummary> = Vec::new();
        let ghost entries = self.agents.listing();
        let mut n: usize = 0;
        while n < self.agents.len()
            invariant
                self.wf(),
                root@ == root_thread_id@,
                entries == self.agents.listing(),
                n <= entries.len(),
                in_listing_order(list@),
                forall|x: AgentSummary| #[trigger]
                    list@.contains(x) <==> listed_so_far(entries, n as int, root@, x),
            decreases entries.len() - n,
        {
            let entry = self.agents.entry(n);
            let ghost key = (entry.0.0@, entry.0.1@);
            let ghost before = list@;
            assert(self@.agents.dom().contains(key) && self@.agents[key] == entry.1);
            if entry.1.root_thread_id == root {
                proof {
                    assert forall|i: int| 0 <= i < list@.len() implies (
                    #[trigger] list@[i]).agent_id@ != entry.1.agent_id@ by {
                        assert(list@.contains(list@[i]));
                        assert(listed_so_far(entries, n as int, root@, list@[i]));
                        let k = choose|k: int|
                            0 <= k < n && (#[trigger] entries[k]).1 == list@[i];
                        self.agents.listed_is_mapped(k);
                        assert(self@.agents.dom().contains(
                            (entries[k].0.0@, entries[k].0.1@),
                        ));
                        assert(entries[k].0.text() != entries[n as int].0.text());
                    }
                }
                insert_listed(&mut list, entry.1.duplicate());
            }
            proof {
                assert forall|x: AgentSummary| #[trigger]
                    list@.contains(x) <==> listed_so_far(entries, n + 1, root@, x) by {
                    assert(before.contains(x) <==> listed_so_far(entries, n as int, root@, x));
                    if listed_so_far(entries, n as int, root@, x) {
                        let k = choose|k: int| 0 <= k < n && (#[trigger] entries[k]).1 == x;
                        assert(0 <= k < n + 1 && entries[k].1 == x);
                    }
                    if listed_so_far(entries, n + 1, root@, x) {
                        let k = choose|k: int| 0 <= k < n + 1 && (#[trigger] entries[k]).1 == x;
                        if k < n {
                            assert(listed_so_far(entries, n as int, root@, x));
                        }
                    }
                    if x == entry.1 {
                        assert(entries[n as int].1 == x);
                    }
                }
            }
            n += 1;
        }
        proof {
            assert forall|i: int| 0 <= i < list@.len() implies (#[trigger] list@[i]).root_thread_id@
                == root_thread_id@ && self@.agents.dom().contains(
                (root_thread_id@, list@[i].agent_id@),
            ) && self@.agents[(root_thread_id@, list@[i].agent_id@)] == list@[i] by {
                assert(list@.contains(list@[i]));
                let k = choose|k: int|
                    0 <= k < n && (#[trigger] entries[k]).1 == list@[i];
                self.agents.listed_is_mapped(k);
                assert(self@.agents.dom().contains((entries[k].0.0@, entries[k].0.1@)));
            }
            assert forall|id: Seq<char>| #[trigger]
                self@.agents.dom().contains((root_thread_id@, id)) implies exists|i: int|
                0 <= i < list@.len() && (#[trigger] list@[i]).agent_id@ == id by {
                let key = (root_thread_id@, id);
                self.agents.key_is_listed(key);
                let k = choose|k: int| #[trigger]
                    key_at(entries, key, k) && entries[k].1 == self.agents@[key];
                assert(entries[k].1.root_thread_id@ == root_thread_id@);
                assert(listed_so_far(entries, n as int, root@, entries[k].1));
                assert(list@.contains(entries[k].1));
                let i = choose|i: int| 0 <= i < list@.len() && list@[i] == entries[k].1;
                assert(list@[i].agent_id@ == id);
            }
        }
        AgentRegistrySnapshot { revision: self.revision, agents: list }
    }

    /// The root threads that have agents, each one once.
    pub fn roots(&self) -> (r: Vec<String>)
        requires
            self.wf(),
        ensures
            forall|root: Seq<char>| #[trigger]
                crate::text::holds_text(r@, root) <==> has_root(self@, root),
            forall|i: int, j: int|
                0 <= i < j < r@.len() ==> (#[trigger] r@[i])@ != (#[trigger] r@[j])@,
    {
        let mut list: Vec<String> = Vec::new();
        let ghost entries = self.agents.listing();
        let mut n: usize = 0;
        while n < self.agents.len()
            invariant
                self.wf(),
                entries == self.agents.listing(),
                n <= entries.len(),
                forall|i: int, j: int|
                    0 <= i < j < list@.len() ==> (#[trigger] list@[i])@ != (#[trigger] list@[j])@,
                forall|k: int|
                    0 <= k < n ==> crate::text::holds_text(
                        list@,
                        (#[trigger] entries[k]).1.root_thread_id@,
                    ),
                forall|i: int|
                    0 <= i < list@.len() ==> has_root(self@, (#[trigger] list@[i])@),
            decreases entries.len() - n,
        {
            let entry = self.agents.entry(n);
            let ghost key = (entry.0.0@, entry.0.1@);
            let ghost before = list@;
            assert(self@.agents.dom().contains(key) && self@.agents[key] == entry.1);
            assert(entry.1.root_thread_id@ == key.0);
            if !crate::text::contains_text(&list, &entry.1.root_thread_id) {
                list.push(entry.1.root_thread_id.clone());
                proof {
                    assert forall|i: int, j: int| 0 <= i < j < list@.len() implies (
                    #[trigger] list@[i])@ != (#[trigger] list@[j])@ by {
                        if j == before.len() {
                            assert(before[i]@ != entry.1.root_thread_id@);
                        } else {
                            assert(before[i] == list@[i] && before[j] == list@[j]);
                        }
                    }
                    assert forall|i: int| 0 <= i < list@.len() implies has_root(
                        self@,
                        (#[trigger] list@[i])@,
                    ) by {
                        if i < before.len() {
                            assert(before[i] == list@[i]);
                        } else {
                            assert(self@.agents.dom().contains((list@[i]@, key.1)));
                        }
                    }
                    assert(list@[before.len() as int]@ == entry.1.root_thread_id@);
                    assert forall|k: int| 0 <= k < n + 1 implies crate::text::holds_text(
                        list@,
                        (#[trigger] entries[k]).1.root_thread_id@,
                    ) by {
                        if k < n {
                            let t = entries[k].1.root_thread_id@;
                            let i = choose|i: int|
                                0 <= i < before.len() && (#[trigger] before[i])@ == t;
                            assert(list@[i]@ == t);
                        }
                    }
                }
            }
            n += 1;
        }
        proof {
            assert forall|root: Seq<char>| #[trigger]
                crate::text::holds_text(list@, root) <==> has_root(self@, root) by {
                if has_root(self@, root) {
                    let id = choose|id: Seq<char>| #[trigger]
                        self@.agents.dom().contains((root, id));
                    self.agents.key_is_listed((root, id));
                    let k = choose|k: int| #[trigger]
                        key_at(entries, (root, id), k) && entries[k].1 == self.agents@[(root, id)];
                    assert(entries[k].1.root_thread_id@ == root);
                }
                if crate::text::holds_text(list@, root) {
                    let i = choose|i: int| 0 <= i < list@.len() && (#[trigger] list@[i])@ == root;
                    assert(has_root(self@, list@[i]@));
                }
            }
        }
        list
    }
}

/// The root thread has an agent.
pub open spec fn has_root(state: RegistryView, root: Seq<char>) -> bool {
    exists|id: Seq<char>| #[trigger] state.agents.dom().contains((root, id))
}

/// One of the first `n` entries is an agent of the root thread.
pub open spec fn listed_so_far(
    entries: Seq<((String, String), AgentSummary)>,
    n: int,
    root: Seq<char>,
    agent: AgentSummary,
) -> bool {
    agent.root_thread_id@ == root && exists|k: int| 0 <= k < n && (#[trigger] entries[k]).1 == agent
}

/// A registry without agents.
pub open spec fn empty_registry() -> RegistryView {
    RegistryView {
        revision: 0,
        agents: Map::empty(),
        attempts: Map::empty(),
        digests: Map::empty(),
    }
}

/// `states` are the states between the lines of a journal, and `letters` what
/// was put aside at each line.
pub open spec fn replay_of(
    lines: Seq<JournalLine>,
    states: Seq<RegistryView>,
    letters: Seq<Option<String>>,
) -> bool {
    &&& states.len() == lines.len() + 1
    &&& letters.len() == lines.len()
    &&& states[0] == empty_registry()
    &&& forall|k: int|
        0 <= k < lines.len() ==> replayed(#[trigger] states[k], lines[k], letters[k], states[k + 1])
}

/// The dead letters with their line numbers.
pub open spec fn numbered(letters: Seq<Option<String>>) -> Seq<DeadLetter>
    decreases letters.len(),
{
    if letters.len() == 0 {
        Seq::empty()
    } else {
        let front = numbered(letters.drop_last());
        match letters.last() {
            Some(reason) => front.push(DeadLetter { line: letters.len() as u64, reason }),
            None => front,
        }
    }
}

/// Applying an event twice is applying it once.
pub proof fn events_are_applied_once(state: RegistryView, event: AgentEventEnvelope)
    requires
        applied(state, event) is Ok,
    ensures
        applied(applied(state, event)->Ok_0, event) == applied(state, event),
{
}

/// An event identity cannot be reused for another payload.
pub proof fn identities_are_not_reused(
    state: RegistryView,
    event: AgentEventEnvelope,
    other: AgentEventEnvelope,
)
    requires
        applied(state, event) is Ok,
        other.event_id@ == event.event_id@,
        other.payload_digest@ != event.payload_digest@,
    ensures
        applied(applied(state, event)->Ok_0, other) == Err::<RegistryView, AgentRegistryError>(
            AgentRegistryError::ConflictingDigest,
        ),
{
}

/// A new event follows its predecessor without a gap and makes one revision.
pub proof fn streams_are_gapless(state: RegistryView, event: AgentEventEnvelope)
    requires
        applied(state, event) is Ok,
        !state.known(event),
    ensures
        event.source_sequence == state.next_sequence(event),
        applied(state, event)->Ok_0.attempts[attempt_key(event)] == event.source_sequence,
        applied(state, event)->Ok_0.revision == saturated_u64(state.revision, 1),
{
}

/// A dead letter does not block the events behind it: the next sequence number
/// is the one after it.
pub proof fn dead_letters_do_not_block(
    state: RegistryView,
    event: AgentEventEnvelope,
    reason: String,
    next: AgentEventEnvelope,
)
    requires
        event.source_sequence == state.next_sequence(event),
        attempt_key(next) == attempt_key(event),
    ensures
        dead_lettered(state, event, reason).next_sequence(next) == saturated_u64(
            event.source_sequence,
            1,
        ),
{
}

/// A journal of accepted events rebuilds the registry that accepted them, and
/// none of its lines is put aside.
pub proof fn journals_rebuild_the_registry(
    lines: Seq<JournalLine>,
    history: Seq<RegistryView>,
    states: Seq<RegistryView>,
    letters: Seq<Option<String>>,
)
    requires
        history.len() == lines.len() + 1,
        forall|i: int| 0 <= i < lines.len() ==> accepted(history, #[trigger] lines[i], i),
        replay_of(lines, states, letters),
        history[0] == empty_registry(),
    ensures
        states == history,
        forall|i: int| 0 <= i < letters.len() ==> #[trigger] letters[i] is None,
{
    assert forall|i: int| 0 <= i <= lines.len() implies #[trigger] states[i] == history[i] by {
        accepted_lines_are_replayed(lines, history, states, letters, i);
    }
    assert forall|i: int| 0 <= i < letters.len() implies #[trigger] letters[i] is None by {
        accepted_lines_are_replayed(lines, history, states, letters, i);
        assert(accepted(history, lines[i], i));
        assert(replayed(states[i], lines[i], letters[i], states[i + 1]));
    }
    assert(states =~= history);
}

/// The line holds an event that the registry accepted in its `i`th state.
pub open spec fn accepted(history: Seq<RegistryView>, line: JournalLine, i: int) -> bool {
    &&& !blank(line.text@)
    &&& line.decoded matches Ok((event, None)) && applied(history[i], event) == Ok::<
        RegistryView,
        AgentRegistryError,
    >(history[i + 1])
}

proof fn accepted_lines_are_replayed(
    lines: Seq<JournalLine>,
    history: Seq<RegistryView>,
    states: Seq<RegistryView>,
    letters: Seq<Option<String>>,
    i: int,
)
    requires
        history.len() == lines.len() + 1,
        forall|i: int| 0 <= i < lines.len() ==> accepted(history, #[trigger] lines[i], i),
        replay_of(lines, states, letters),
        history[0] == empty_registry(),
        0 <= i <= lines.len(),
    ensures
        states[i] == history[i],
    decreases i,
{
    if i > 0 {
        accepted_lines_are_replayed(lines, history, states, letters, i - 1);
        assert(accepted(history, lines[i - 1], i - 1));
        assert(replayed(states[i - 1], lines[i - 1], letters[i - 1], states[i]));
    }
}

/// An event touches no agent but its own, and never changes who an agent is.
pub proof fn agents_keep_their_identity(
    state: RegistryView,
    event: AgentEventEnvelope,
    key: (Seq<char>, Seq<char>),
)
    requires
        applied(state, event) is Ok,
        state.agents.dom().contains(key),
    ensures
        ({
            let before = state.agents[key];
            let after = applied(state, event)->Ok_0.agents[key];
            &&& applied(state, event)->Ok_0.agents.dom().contains(key)
            &&& key != agent_key(event) ==> after == before
            &&& after.root_thread_id == before.root_thread_id
            &&& after.agent_id == before.agent_id
            &&& after.thread_id == before.thread_id
            &&& after.parent_thread_id == before.parent_thread_id
            &&& after.batch_id == before.batch_id
            &&& after.created_at_ms == before.created_at_ms
        }),
{
}

/// An accepted event gives its agent the status that the event names: a spawned
/// agent is queued, one with an activity runs, one that asks for permission waits
/// for it, and one that completed, failed, was cancelled or is corrupt is just
/// that. Output alone leaves the status as it was.
pub proof fn events_name_the_status(state: RegistryView, event: AgentEventEnvelope)
    requires
        applied(state, event) is Ok,
        !state.digests.dom().contains(event.event_id@),
    ensures
        ({
            let key = (event.root_thread_id@, event.agent_id@);
            let agents = applied(state, event)->Ok_0.agents;
            let status = agents[key].status;
            &&& agents.dom() == state.agents.dom().insert(key)
            &&& event.event is Spawned ==> status == AgentStatus::Queued
            &&& event.event is Activity ==> status == AgentStatus::Running
            &&& event.event is PermissionRequested ==> status == AgentStatus::WaitingPermission
            &&& event.event is Completed ==> status == AgentStatus::Completed
            &&& event.event is Failed ==> status == AgentStatus::Failed
            &&& event.event is Cancelled ==> status == AgentStatus::Cancelled
            &&& event.event is Corrupt ==> status == AgentStatus::Corrupt
            &&& event.event is OutputDelta ==> state.agents.dom().contains(key) && status
                == state.agents[key].status
        }),
{
    let key = (event.root_thread_id@, event.agent_id@);
    assert(applied(state, event)->Ok_0.agents.dom() =~= state.agents.dom().insert(key));
}

/// The result, the error, the usage, the turn and the activity of an agent change
/// with the events that carry them, and to what these carry; every accepted event
/// moves the time of the last change.
pub proof fn events_change_what_they_carry(state: RegistryView, event: AgentEventEnvelope)
    requires
        applied(state, event) is Ok,
        !state.digests.dom().contains(event.event_id@),
        !(event.event is Spawned),
    ensures
        ({
            let key = (event.root_thread_id@, event.agent_id@);
            let before = state.agents[key];
            let after = applied(state, event)->Ok_0.agents[key];
            &&& state.agents.dom().contains(key)
            &&& after.updated_at_ms == event.occurred_at_ms
            &&& after.description == before.description
            &&& after.batch_size == before.batch_size
            &&& after.result == (match event.event {
                AgentEvent::Completed { result, .. } => result,
                _ => before.result,
            })
            &&& event.event matches AgentEvent::Failed { reason, .. } ==> after.error == Some(
                reason,
            )
            &&& event.event matches AgentEvent::Cancelled { reason, .. } ==> after.error == Some(
                reason,
            )
            &&& event.event matches AgentEvent::Corrupt { reason } ==> after.error == Some(reason)
            &&& !(event.event is Failed || event.event is Cancelled || event.event is Corrupt)
                ==> after.error == before.error
            &&& event.event matches AgentEvent::Completed { usage, .. } ==> after.usage == usage
            &&& event.event matches AgentEvent::Failed { usage, .. } ==> after.usage == usage
            &&& event.event matches AgentEvent::Cancelled { usage, .. } ==> after.usage == usage
            &&& event.event matches AgentEvent::Activity { usage: Some(usage), .. }
                ==> after.usage == usage
            &&& event.event matches AgentEvent::Activity { usage: None, .. } ==> after.usage
                == before.usage
            &&& event.event is OutputDelta || event.event is PermissionRequested
                || event.event is Corrupt ==> after.usage == before.usage
            &&& event.event matches AgentEvent::Activity { turn: Some(turn), .. } ==> after.turn
                == Some(turn)
            &&& event.event matches AgentEvent::Activity { turn: None, .. } ==> after.turn
                == before.turn
            &&& !(event.event is Activity) ==> after.turn == before.turn
            &&& event.event matches AgentEvent::Activity { activity, .. } ==> after.activity
                == Some(activity)
            &&& event.event matches AgentEvent::PermissionRequested { description }
                ==> after.activity == Some(AgentActivity::WaitingPermission { description })
            &&& !(event.event is Activity || event.event is PermissionRequested)
                ==> after.activity == before.activity
        }),
{
}

/// A spawned agent is who its event says, was created when the event happened,
/// and has done nothing yet.
pub proof fn spawned_agents_start_blank(state: RegistryView, event: AgentEventEnvelope)
    requires
        applied(state, event) is Ok,
        !state.digests.dom().contains(event.event_id@),
    ensures
        event.event matches AgentEvent::Spawned {
            batch_id,
            batch_size,
            parent_thread_id,
            description,
        } ==> {
            let key = (event.root_thread_id@, event.agent_id@);
            let agent = applied(state, event)->Ok_0.agents[key];
            &&& !state.agents.dom().contains(key)
            &&& agent.root_thread_id == event.root_thread_id
            &&& agent.agent_id == event.agent_id
            &&& agent.thread_id == event.thread_id
            &&& agent.batch_id == batch_id
            &&& agent.batch_size == batch_size
            &&& agent.parent_thread_id == parent_thread_id
            &&& agent.description == description
            &&& agent.activity is None
            &&& agent.turn is None
            &&& agent.result is None
            &&& agent.error is None
            &&& agent.usage.input_tokens == 0
            &&& agent.usage.output_tokens == 0
            &&& agent.usage.cache_tokens == 0
            &&& agent.usage.cost_usd_micros == 0
            &&& agent.created_at_ms == event.occurred_at_ms
            &&& agent.updated_at_ms == event.occurred_at_ms
        },
{
}

/// A new event is accepted exactly if it carries the number behind the last one
/// of its attempt, starting with one, and either spawns an agent that is not there
/// or is about one that is there, on its own thread. (Numbers stop at the largest
/// one.)
pub proof fn events_are_accepted_in_order(state: RegistryView, event: AgentEventEnvelope)
    requires
        !state.digests.dom().contains(event.event_id@),
    ensures
        ({
            let attempt = (event.root_thread_id@, event.agent_id@, event.attempt_id@);
            let key = (event.root_thread_id@, event.agent_id@);
            let last: int = if state.attempts.dom().contains(attempt) {
                state.attempts[attempt] as int
            } else {
                0
            };
            &&& applied(state, event) is Ok <==> {
                &&& event.source_sequence == last + 1 || (last == u64::MAX
                    && event.source_sequence == u64::MAX)
                &&& event.event is Spawned <==> !state.agents.dom().contains(key)
                &&& state.agents.dom().contains(key) ==> state.agents[key].thread_id@
                    == event.thread_id@
            }
            &&& applied(state, event) matches Ok(next) ==> {
                &&& next.attempts == state.attempts.insert(attempt, event.source_sequence)
                &&& next.digests == state.digests.insert(event.event_id@, event.payload_digest)
                &&& state.revision < u64::MAX ==> next.revision == state.revision + 1
            }
        }),
{
}

/// An event that is known already changes nothing at all.
pub proof fn known_events_change_nothing(state: RegistryView, event: AgentEventEnvelope)
    requires
        state.digests.dom().contains(event.event_id@),
    ensures
        applied(state, event) is Ok <==> state.digests[event.event_id@]@ == event.payload_digest@,
        applied(state, event) matches Ok(next) ==> next == state,
{
}

/// A dead letter marks its agent corrupt, says why, and touches no other agent; it
/// spawns none. Out of order it changes nothing.
pub proof fn dead_letters_corrupt_their_agent(
    state: RegistryView,
    event: AgentEventEnvelope,
    reason: String,
    key: (Seq<char>, Seq<char>),
)
    ensures
        ({
            let attempt = (event.root_thread_id@, event.agent_id@, event.attempt_id@);
            let last: int = if state.attempts.dom().contains(attempt) {
                state.attempts[attempt] as int
            } else {
                0
            };
            let after = dead_lettered(state, event, reason);
            &&& after.agents.dom() == state.agents.dom()
            &&& event.source_sequence != last + 1 && last < u64::MAX ==> after == state
            &&& event.source_sequence == last + 1 ==> {
                &&& after.attempts == state.attempts.insert(attempt, event.source_sequence)
                &&& after.digests == state.digests.insert(event.event_id@, event.payload_digest)
                &&& state.revision < u64::MAX ==> after.revision == state.revision + 1
                &&& state.agents.dom().contains(key) && key == (
                    event.root_thread_id@,
                    event.agent_id@,
                ) ==> {
                    &&& after.agents[key].status == AgentStatus::Corrupt
                    &&& after.agents[key].error == Some(reason)
                    &&& after.agents[key].updated_at_ms == event.occurred_at_ms
                    &&& after.agents[key].result == state.agents[key].result
                    &&& after.agents[key].usage == state.agents[key].usage
                }
            }
            &&& state.agents.dom().contains(key) && key != (event.root_thread_id@, event.agent_id@)
                ==> after.agents[key] == state.agents[key]
        }),
{
    assert(dead_lettered(state, event, reason).agents.dom() =~= state.agents.dom());
}

/// Along a journal an agent completes, fails or is cancelled only by an event of
/// that kind about itself.
pub proof fn agents_end_by_their_own_events(
    state: RegistryView,
    line: JournalLine,
    letter: Option<String>,
    after: RegistryView,
    key: (Seq<char>, Seq<char>),
)
    requires
        replayed(state, line, letter, after),
        after.agents.dom().contains(key),
        !state.agents.dom().contains(key) || after.agents[key].status != state.agents[key].status,
    ensures
        line.decoded matches Ok((event, fault)) && key == (event.root_thread_id@, event.agent_id@)
            && {
            let status = after.agents[key].status;
            &&& status == AgentStatus::Queued ==> event.event is Spawned
            &&& status == AgentStatus::Running ==> event.event is Activity
            &&& status == AgentStatus::WaitingPermission ==> event.event is PermissionRequested
            &&& status == AgentStatus::Completed ==> event.event is Completed
            &&& status == AgentStatus::Failed ==> event.event is Failed
            &&& status == AgentStatus::Cancelled ==> event.event is Cancelled
            &&& status == AgentStatus::Corrupt ==> event.event is Corrupt || letter is Some
            &&& status != AgentStatus::Corrupt ==> fault is None && letter is None
        },
{
}

/// A line that is put aside spawns no agent and leaves every agent but its own as
/// it was; one that is blank or does not decode changes nothing.
pub proof fn lines_put_aside_spawn_nobody(
    state: RegistryView,
    line: JournalLine,
    letter: Option<String>,
    after: RegistryView,
)
    requires
        replayed(state, line, letter, after),
    ensures
        letter is Some ==> after.agents.dom() == state.agents.dom(),
        blank(line.text@) ==> letter is None && after == state,
        !blank(line.text@) && line.decoded is Err ==> letter is Some && after == state,
        !blank(line.text@) ==> (line.decoded matches Ok((_, Some(fault))) ==> letter is Some
            && letter->0@ == fault@),
{
    if let Ok((event, _)) = line.decoded {
        if letter is Some {
            assert(dead_lettered(state, event, letter->0).agents.dom() =~= state.agents.dom());
        }
    }
}

/// A snapshot lists each agent of its root once, the oldest first, as the registry
/// holds it.
pub proof fn snapshots_list_the_oldest_first(
    state: RegistryView,
    root: Seq<char>,
    list: Seq<AgentSummary>,
    i: int,
    j: int,
)
    requires
        lists_root(state, root, list),
        0 <= i < j < list.len(),
    ensures
        list[i].created_at_ms <= list[j].created_at_ms,
        list[i].agent_id@ != list[j].agent_id@,
        list[i].created_at_ms == list[j].created_at_ms ==> precedes(
            list[i].agent_id@,
            list[j].agent_id@,
        ),
        list[i] == state.agents[(root, list[i].agent_id@)],
        list[i].root_thread_id@ == root,
{
    assert(listed_before(list[i], list[j]));
    if list[i].agent_id@ == list[j].agent_id@ {
        assert(list[i] == list[j]);
        crate::text::precedes_irreflexive(list[i].agent_id@);
    }
}

/// Each refusal names its cause, and the first that holds is named: an identity used
/// with another digest, a number that is not the next one, an agent spawned twice, an
/// agent never spawned, a thread that is not the agent's.
pub proof fn refusals_name_their_cause(state: RegistryView, event: AgentEventEnvelope)
    ensures
        ({
            let attempt = (event.root_thread_id@, event.agent_id@, event.attempt_id@);
            let key = (event.root_thread_id@, event.agent_id@);
            let last: int = if state.attempts.dom().contains(attempt) {
                state.attempts[attempt] as int
            } else {
                0
            };
            let used = state.digests.dom().contains(event.event_id@);
            let exists = state.agents.dom().contains(key);
            let refused = applied(state, event);
            &&& used && state.digests[event.event_id@]@ != event.payload_digest@ ==> refused
                == Err::<RegistryView, AgentRegistryError>(AgentRegistryError::ConflictingDigest)
            &&& !used && last < u64::MAX && event.source_sequence != last + 1 ==> refused == Err::<
                RegistryView,
                AgentRegistryError,
            >(
                AgentRegistryError::SequenceGap {
                    expected: (last + 1) as u64,
                    observed: event.source_sequence,
                },
            )
            &&& !used && event.source_sequence == last + 1 && event.event is Spawned && exists
                ==> refused == Err::<RegistryView, AgentRegistryError>(
                AgentRegistryError::IdentityExists,
            )
            &&& !used && event.source_sequence == last + 1 && !(event.event is Spawned) && !exists
                ==> refused == Err::<RegistryView, AgentRegistryError>(
                AgentRegistryError::UnknownAgent,
            )
            &&& !used && event.source_sequence == last + 1 && !(event.event is Spawned) && exists
                && state.agents[key].thread_id@ != event.thread_id@ ==> refused == Err::<
                RegistryView,
                AgentRegistryError,
            >(AgentRegistryError::ThreadIdentityChanged)
        }),
{
}

/// An identity that exists and one that does not are told apart from bad data, and a
/// gap tells both numbers.
pub proof fn errors_tell_what_is_wrong(error: AgentRegistryError)
    ensures
        error.kind_spec() == RegistryErrorKind::AlreadyExists <==> error is IdentityExists,
        error.kind_spec() == RegistryErrorKind::NotFound <==> error is UnknownAgent,
        error matches AgentRegistryError::InvalidEnvelope { reason } ==> error.message()
            == reason@,
        error matches AgentRegistryError::SequenceGap { expected, observed } ==> error.message()
            == "agent event sequence gap: expected "@ + decimal_of(expected as nat)
            + ", observed "@ + decimal_of(observed as nat),
{
}

/// A replayed event leaves a letter exactly where it is faulty or refused. The letter
/// holds the fault or the refusal's message, and the agent of the event shows the
/// same text as its error.
pub proof fn letters_tell_why(
    state: RegistryView,
    event: AgentEventEnvelope,
    fault: Option<String>,
    letter: Option<String>,
    after: RegistryView,
)
    requires
        replayed_event(state, event, fault, letter, after),
    ensures
        ({
            let attempt = (event.root_thread_id@, event.agent_id@, event.attempt_id@);
            let key = (event.root_thread_id@, event.agent_id@);
            let last: int = if state.attempts.dom().contains(attempt) {
                state.attempts[attempt] as int
            } else {
                0
            };
            let used = state.digests.dom().contains(event.event_id@);
            let exists = state.agents.dom().contains(key);
            &&& letter is None ==> fault is None && applied(state, event) == Ok::<
                RegistryView,
                AgentRegistryError,
            >(after)
            &&& letter is Some ==> fault is Some || applied(state, event) is Err
            &&& fault matches Some(reason) ==> letter is Some && letter->0@ == reason@
            &&& fault is None && used ==> (letter is Some <==> state.digests[event.event_id@]@
                != event.payload_digest@)
            &&& fault is None && letter is Some && used ==> letter->0@
                == "agent event id was reused with a conflicting digest"@
            &&& fault is None && !used && event.source_sequence == last + 1 && event.event is Spawned
                && exists ==> letter is Some && letter->0@ == "agent identity already exists"@
            &&& fault is None && !used && event.source_sequence == last + 1 && !(event.event
                is Spawned) && !exists ==> letter is Some && letter->0@ == "agent does not exist"@
            &&& fault is None && !used && event.source_sequence == last + 1 && !(event.event
                is Spawned) && exists && state.agents[key].thread_id@ != event.thread_id@
                ==> letter is Some && letter->0@ == "agent event thread identity changed"@
            &&& letter is Some && event.source_sequence == last + 1 && exists
                ==> after.agents[key].error == letter && after.agents[key].status
                == AgentStatus::Corrupt
            &&& letter is Some && event.source_sequence != last + 1 && last < u64::MAX ==> after
                == state
        }),
{
}

} // verus!
