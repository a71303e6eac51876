//! Session-scoped storage of continuation records.
//!
//! The store is an index from continuation identities to parent sessions and
//! the records themselves.

use vstd::prelude::*;
use crate::agent_continuation::changes::{
    admission_error, committed, mutate_validated_record, outcome, reconcile_expired_record,
    reconciled,
};
use crate::agent_continuation::error::{
    agrees, corrupt, corrupt_record, AgentContinuationError, AgentContinuationErrorView,
};
use crate::agent_continuation::ids::{AgentContinuationId, ContinuationRevision};
use crate::agent_continuation::record::{
    projection_of, AgentContinuationRecord, ContinuationProjection, RecordView,
};
use crate::agent_continuation::validation::{
    ensure_parent_matches, fault_if, first, parent_error, record_error, validate_record,
};
use crate::text::{precedes, precedes_irreflexive, precedes_total, precedes_transitive};
use crate::text_map::{key_at, TextMap};

verus! {

/// An entry of the index: the session that a continuation belongs to.
struct IndexedParent {
    continuation_id: AgentContinuationId,
    parent_session_id: String,
}

/// The continuation records that one parent session may reach.
pub struct AgentContinuationStore {
    parent_session_id: String,
    index: TextMap<String, IndexedParent>,
    records: TextMap<String, AgentContinuationRecord>,
}

impl AgentContinuationStore {
    pub closed spec fn wf(&self) -> bool {
        &&& self.index.wf()
        &&& self.records.wf()
        &&& forall|id: Seq<char>| #[trigger]
            self.index@.dom().contains(id) ==> self.index@[id].continuation_id@ == id
    }

    /// The session whose continuations this store may access.
    pub closed spec fn parent(&self) -> Seq<char> {
        self.parent_session_id@
    }

    /// The parent session that the index gives for an identity.
    pub closed spec fn indexed(&self, id: Seq<char>) -> Option<Seq<char>> {
        if self.index@.dom().contains(id) {
            Some(self.index@[id].parent_session_id@)
        } else {
            None
        }
    }

    /// The record stored for an identity.
    pub closed spec fn stored(&self, id: Seq<char>) -> Option<RecordView> {
        if self.records@.dom().contains(id) {
            Some(self.records@[id]@)
        } else {
            None
        }
    }

    /// What is wrong with an indexed identity of this session.
    pub open spec fn entry_error(&self, id: Seq<char>) -> Option<AgentContinuationErrorView> {
        match self.stored(id) {
            None => Some(corrupt("continuation index points to a missing record"@)),
            Some(record) => record_error(record, Some(id), Some(self.parent())),
        }
    }

    /// The index and the records are those of `other`.
    pub open spec fn same_contents(&self, other: &Self) -> bool {
        &&& self.parent() == other.parent()
        &&& forall|id: Seq<char>| #[trigger] self.indexed(id) == other.indexed(id)
        &&& forall|id: Seq<char>| #[trigger] self.stored(id) == other.stored(id)
    }

    /// An empty store.
    pub fn new(parent_session_id: String) -> (r: Self)
        ensures
            r.wf(),
            r.parent() == parent_session_id@,
            forall|id: Seq<char>| #[trigger] r.indexed(id) is None,
            forall|id: Seq<char>| #[trigger] r.stored(id) is None,
    {
        AgentContinuationStore { parent_session_id, index: TextMap::new(), records: TextMap::new() }
    }

    pub fn parent_session_id(&self) -> (r: &str)
        ensures
            r@ == self.parent(),
    {
        self.parent_session_id.as_str()
    }

    /// Why a record cannot be created.
    pub open spec fn creation_error(&self, record: RecordView) -> Option<
        AgentContinuationErrorView,
    > {
        first(
            fault_if(
                record.revision.value != 0,
                corrupt("new continuation revision must be zero"@),
            ),
            first(
                record_error(record, Some(record.continuation_id), Some(self.parent())),
                match self.indexed(record.continuation_id) {
                    None => None,
                    Some(actual) => first(
                        parent_error(self.parent(), actual),
                        Some(
                            AgentContinuationErrorView::AlreadyExists {
                                continuation_id: record.continuation_id,
                            },
                        ),
                    ),
                },
            ),
        )
    }

    /// `record` was added to `old` under this session, and nothing else changed.
    pub open spec fn created_from(&self, old: &Self, record: RecordView) -> bool {
        &&& self.parent() == old.parent()
        &&& forall|id: Seq<char>| #[trigger]
            self.indexed(id) == (if id == record.continuation_id {
                Some(old.parent())
            } else {
                old.indexed(id)
            })
        &&& forall|id: Seq<char>| #[trigger]
            self.stored(id) == (if id == record.continuation_id {
                Some(record)
            } else {
                old.stored(id)
            })
    }

    /// Creates one new revision-zero continuation after validating all
    /// invariants.
    pub fn create_record(&mut self, record: AgentContinuationRecord) -> (r: Result<
        AgentContinuationRecord,
        AgentContinuationError,
    >)
        requires
            old(self).wf(),
        ensures
            final(self).wf(),
            final(self).parent() == old(self).parent(),
            agrees(r, old(self).creation_error(record@)),
            match r {
                Ok(created) => created@ == record@ && final(self).created_from(
                    old(self),
                    record@,
                ),
                Err(_) => *final(self) == *old(self),
            },
    {
        if record.revision.value != 0 {
            return Err(corrupt_record("new continuation revision must be zero"));
        }
        match validate_record(
            &record,
            Some(&record.continuation_id),
            Some(self.parent_session_id.as_str()),
        ) {
            Ok(_) => {},
            Err(e) => {
                return Err(e);
            },
        }
        let key = record.continuation_id.as_str().to_owned();
        if let Some(actual) = self.index.get(&key) {
            match ensure_parent_matches(
                self.parent_session_id.as_str(),
                actual.parent_session_id.as_str(),
            ) {
                Ok(_) => {},
                Err(e) => {
                    return Err(e);
                },
            }
            return Err(
                AgentContinuationError::AlreadyExists { continuation_id: record.continuation_id },
            );
        }
        self.index.insert(
            key.clone(),
            IndexedParent {
                continuation_id: record.continuation_id.duplicate(),
                parent_session_id: self.parent_session_id.clone(),
            },
        );
        self.records.insert(key, record.duplicate());
        Ok(record)
    }

    /// Takes over a record that was read for an indexed identity, after
    /// validating it. An earlier one for the same identity is replaced.
    pub fn cache_record(
        &mut self,
        continuation_id: &AgentContinuationId,
        parent_session_id: String,
        record: AgentContinuationRecord,
    ) -> (r: Result<(), AgentContinuationError>)
        requires
            old(self).wf(),
        ensures
            final(self).wf(),
            final(self).parent() == old(self).parent(),
            agrees(
                r,
                record_error(record@, Some(continuation_id@), Some(parent_session_id@)),
            ),
            match r {
                Ok(_) => {
                    &&& forall|id: Seq<char>| #[trigger]
                        final(self).indexed(id) == (if id == continuation_id@ {
                            Some(parent_session_id@)
                        } else {
                            old(self).indexed(id)
                        })
                    &&& forall|id: Seq<char>| #[trigger]
                        final(self).stored(id) == (if id == continuation_id@ {
                            Some(record@)
                        } else {
                            old(self).stored(id)
                        })
                },
                Err(_) => *final(self) == *old(self),
            },
    {
        match validate_record(&record, Some(continuation_id), Some(parent_session_id.as_str())) {
            Ok(_) => {},
            Err(e) => {
                return Err(e);
            },
        }
        let key = continuation_id.as_str().to_owned();
        self.index.insert(
            key.clone(),
            IndexedParent { continuation_id: continuation_id.duplicate(), parent_session_id },
        );
        self.records.insert(key, record);
        Ok(())
    }

    /// What loading an identity comes to.
    pub open spec fn load_error(&self, id: Seq<char>) -> Option<AgentContinuationErrorView> {
        match self.indexed(id) {
            None => None,
            Some(actual) => first(parent_error(self.parent(), actual), self.entry_error(id)),
        }
    }

    /// Loads one continuation strictly through the index.
    pub fn load_record(&self, continuation_id: &AgentContinuationId) -> (r: Result<
        Option<AgentContinuationRecord>,
        AgentContinuationError,
    >)
        requires
            self.wf(),
        ensures
            agrees(r, self.load_error(continuation_id@)),
            match r {
                Ok(Some(record)) => self.indexed(continuation_id@) == Some(self.parent())
                    && self.stored(continuation_id@) == Some(record@),
                Ok(None) => self.indexed(continuation_id@) is None,
                Err(_) => true,
            },
    {
        let key = continuation_id.as_str().to_owned();
        match self.index.get(&key) {
            None => Ok(None),
            Some(actual) => {
                match ensure_parent_matches(
                self.parent_session_id.as_str(),
                actual.parent_session_id.as_str(),
            ) {
                    Ok(_) => {},
                    Err(e) => {
                        return Err(e);
                    },
                }
                match self.records.get(&key) {
                    None => Err(corrupt_record("continuation index points to a missing record")),
                    Some(record) => {
                        match validate_record(
                            record,
                            Some(continuation_id),
                            Some(actual.parent_session_id.as_str()),
                        ) {
                            Ok(_) => Ok(Some(record.duplicate())),
                            Err(e) => Err(e),
                        }
                    },
                }
            },
        }
    }

    /// Why a mutation cannot be admitted.
    pub open spec fn mutation_error(&self, id: Seq<char>, expected: ContinuationRevision) -> Option<
        AgentContinuationErrorView,
    > {
        match self.indexed(id) {
            None => Some(corrupt("continuation index entry is missing"@)),
            Some(actual) => first(
                parent_error(self.parent(), actual),
                match self.stored(id) {
                    None => Some(corrupt("continuation index points to a missing record"@)),
                    Some(record) => admission_error(record, id, self.parent(), expected),
                },
            ),
        }
    }

    /// Only the record of `id` differs from `old`, and it is `record`.
    pub open spec fn updated_from(&self, old: &Self, id: Seq<char>, record: RecordView) -> bool {
        &&& self.parent() == old.parent()
        &&& forall|x: Seq<char>| #[trigger] self.indexed(x) == old.indexed(x)
        &&& forall|x: Seq<char>| #[trigger]
            self.stored(x) == (if x == id {
                Some(record)
            } else {
                old.stored(x)
            })
    }

    /// Mutates one current record and advances its revision once. A refused
    /// mutation changes nothing.
    pub fn mutate_record<
        F: FnOnce(AgentContinuationRecord) -> Result<
            AgentContinuationRecord,
            AgentContinuationError,
        >,
    >(
        &mut self,
        continuation_id: &AgentContinuationId,
        expected_revision: ContinuationRevision,
        mutate: F,
    ) -> (r: Result<AgentContinuationRecord, AgentContinuationError>)
        requires
            old(self).wf(),
            forall|record: AgentContinuationRecord| #[trigger] mutate.requires((record,)),
        ensures
            final(self).wf(),
            match old(self).mutation_error(continuation_id@, expected_revision) {
                Some(e) => outcome(r) == Err::<RecordView, AgentContinuationErrorView>(e)
                    && *final(self) == *old(self),
                None => {
                    &&& exists|
                        record: AgentContinuationRecord,
                        changed: Result<AgentContinuationRecord, AgentContinuationError>,
                    | #[trigger]
                        mutate.ensures((record,), changed) && Some(record@) == old(self).stored(
                            continuation_id@,
                        ) && outcome(r) == committed(
                            record@,
                            continuation_id@,
                            old(self).parent(),
                            expected_revision,
                            outcome(changed),
                        )
                    &&& match r {
                        Ok(next) => final(self).updated_from(old(self), continuation_id@, next@),
                        Err(_) => *final(self) == *old(self),
                    }
                },
            },
    {
        let key = continuation_id.as_str().to_owned();
        let current = match self.index.get(&key) {
            None => {
                return Err(corrupt_record("continuation index entry is missing"));
            },
            Some(actual) => {
                match ensure_parent_matches(
                self.parent_session_id.as_str(),
                actual.parent_session_id.as_str(),
            ) {
                    Ok(_) => {},
                    Err(e) => {
                        return Err(e);
                    },
                }
                match self.records.get(&key) {
                    None => {
                        return Err(
                            corrupt_record("continuation index points to a missing record"),
                        );
                    },
                    Some(record) => record.duplicate(),
                }
            },
        };
        match mutate_validated_record(
            current,
            continuation_id,
            self.parent_session_id.as_str(),
            expected_revision,
            mutate,
        ) {
            Ok(next) => {
                self.records.insert(key, next.duplicate());
                Ok(next)
            },
            Err(e) => Err(e),
        }
    }

    /// `list` holds exactly the records of this session, ordered by identity.
    #[verifier::opaque]
    pub open spec fn lists_all(&self, list: Seq<AgentContinuationRecord>) -> bool {
        &&& ordered_by_identity(list)
        &&& forall|i: int|
            0 <= i < list.len() ==> self.indexed((#[trigger] list[i])@.continuation_id) == Some(
                self.parent(),
            ) && self.stored(list[i]@.continuation_id) == Some(list[i]@)
        &&& forall|id: Seq<char>| #[trigger]
            self.indexed(id) == Some(self.parent()) ==> exists|i: int|
                0 <= i < list.len() && (#[trigger] list[i])@.continuation_id == id
    }

    /// Lists all records indexed to this store's session. It fails when one of
    /// them is missing or invalid.
    pub fn list_parent_records(&self) -> (r: Result<
        Vec<AgentContinuationRecord>,
        AgentContinuationError,
    >)
        requires
            self.wf(),
        ensures
            match r {
                Ok(list) => {
                    &&& self.lists_all(list@)
                    &&& forall|id: Seq<char>| #[trigger]
                        self.indexed(id) == Some(self.parent()) ==> self.entry_error(id) is None
                },
                Err(e) => exists|id: Seq<char>| #[trigger]
                    self.indexed(id) == Some(self.parent()) && self.entry_error(id) == Some(e@),
            },
    {
        let mut list: Vec<AgentContinuationRecord> = Vec::new();
        let mut n: usize = 0;
        while n < self.index.len()
            invariant
                self.wf(),
                n <= self.index.listing().len(),
                ordered_by_identity(list@),
                forall|i: int|
                    0 <= i < list.len() ==> self.indexed((#[trigger] list@[i])@.continuation_id)
                        == Some(self.parent()) && self.stored(list@[i]@.continuation_id) == Some(
                        list@[i]@,
                    ) && self.entry_error(list@[i]@.continuation_id) is None,
                forall|i: int|
                    0 <= i < list.len() ==> seen(
                        self.index.listing(),
                        n as int,
                        (#[trigger] list@[i])@.continuation_id,
                    ),
                forall|k: int|
                    0 <= k < n && (#[trigger] self.index.listing()[k]).1.parent_session_id@ == self.parent()
                        ==> exists|i: int|
                        0 <= i < list.len() && (#[trigger] list@[i])@.continuation_id
                            == self.index.listing()[k].0@,
            decreases self.index.listing().len() - n,
        {
            let entry = self.index.entry(n);
            let ghost listing = self.index.listing();
            let ghost id = entry.0@;
            proof {
                assert(self.indexed(id) == Some(entry.1.parent_session_id@));
            }
            if entry.1.parent_session_id == self.parent_session_id {
                match self.records.get(&entry.0) {
                    None => {
                        assert(self.stored(id) is None);
                        return Err(
                            corrupt_record("continuation index points to a missing record"),
                        );
                    },
                    Some(record) => {
                        let checked = validate_record(
                            record,
                            Some(&entry.1.continuation_id),
                            Some(entry.1.parent_session_id.as_str()),
                        );
                        match checked {
                            Ok(_) => {},
                            Err(e) => {
                                return Err(e);
                            },
                        }
                        let ghost before = list@;
                        proof {
                            assert forall|i: int| 0 <= i < before.len() implies (
                            #[trigger] before[i])@.continuation_id != id by {
                                assert(seen(listing, n as int, before[i]@.continuation_id));
                                let k = choose|k: int|
                                    0 <= k < n && (#[trigger] listing[k]).0@
                                        == before[i]@.continuation_id;
                                assert(listing[k].0@ != listing[n as int].0@);
                            }
                        }
                        insert_ordered(&mut list, record.duplicate());
                        proof {
                            let p = choose|p: int| #[trigger]
                                inserted_at(before, list@, p) && list@[p]@ == record@;
                            lemma_inserted_members(before, list@, p);
                            assert(seen(listing, n + 1, id)) by {
                                assert(listing[n as int].0@ == id);
                            }
                            assert forall|i: int| 0 <= i < list@.len() implies seen(
                                listing,
                                n + 1,
                                (#[trigger] list@[i])@.continuation_id,
                            ) by {
                                if i != p {
                                    let j = if i < p {
                                        i
                                    } else {
                                        i - 1
                                    };
                                    assert(list@[i] == before[j]);
                                    assert(seen(listing, n as int, before[j]@.continuation_id));
                                    let k = choose|k: int|
                                        0 <= k < n && (#[trigger] listing[k]).0@
                                            == before[j]@.continuation_id;
                                    assert(0 <= k < n + 1 && listing[k].0@
                                        == list@[i]@.continuation_id);
                                }
                            }
                            assert forall|k: int|
                                0 <= k < n + 1 && (#[trigger] listing[k]).1.parent_session_id@
                                    == self.parent() implies exists|i: int|
                                0 <= i < list.len() && (#[trigger] list@[i])@.continuation_id
                                    == listing[k].0@ by {
                                if k < n {
                                    let j = choose|j: int|
                                        0 <= j < before.len() && (
                                        #[trigger] before[j])@.continuation_id == listing[k].0@;
                                    let i = if j < p {
                                        j
                                    } else {
                                        j + 1
                                    };
                                    assert(list@[i] == before[j]);
                                } else {
                                    assert(list@[p]@.continuation_id == listing[k].0@);
                                }
                            }
                        }
                    },
                }
            } else {
                proof {
                    assert forall|i: int| 0 <= i < list@.len() implies seen(
                        listing,
                        n + 1,
                        (#[trigger] list@[i])@.continuation_id,
                    ) by {
                        assert(seen(listing, n as int, list@[i]@.continuation_id));
                        let k = choose|k: int|
                            0 <= k < n && (#[trigger] listing[k]).0@ == list@[i]@.continuation_id;
                        assert(0 <= k < n + 1 && listing[k].0@ == list@[i]@.continuation_id);
                    }
                }
            }
            n += 1;
        }
        proof {
            reveal(AgentContinuationStore::lists_all);
            let listing = self.index.listing();
            assert forall|id: Seq<char>| #[trigger]
                self.indexed(id) == Some(self.parent()) implies (exists|i: int|
                0 <= i < list.len() && (#[trigger] list@[i])@.continuation_id == id)
                && self.entry_error(id) is None by {
                self.index.key_is_listed(id);
                let k = choose|k: int| #[trigger]
                    key_at(listing, id, k) && listing[k].1 == self.index@[id];
                assert(listing[k].1.parent_session_id@ == self.parent());
                let i = choose|i: int|
                    0 <= i < list.len() && (#[trigger] list@[i])@.continuation_id
                        == listing[k].0@;
                assert(list@[i]@.continuation_id == id);
            }
        }
        Ok(list)
    }

    /// The record of `id` is as before or reconciled.
    pub open spec fn reconciled_from(&self, old: &Self, now_ms: i64, id: Seq<char>) -> bool {
        ||| self.stored(id) == old.stored(id)
        ||| old.stored(id) is Some && reconciled(old.stored(id)->0, now_ms) is Ok && self.stored(id)
            == Some(reconciled(old.stored(id)->0, now_ms)->Ok_0.0)
    }

    /// Reconciles expired execution owners: a safe checkpoint becomes
    /// suspended, an attempt without a trustworthy checkpoint indeterminate.
    /// The projections are those of all records of the session after that, in
    /// the order of their identities.
    pub fn reconcile_expired_owners(&mut self, now_ms: i64) -> (r: Result<
        Vec<ContinuationProjection>,
        AgentContinuationError,
    >)
        requires
            old(self).wf(),
        ensures
            final(self).wf(),
            final(self).parent() == old(self).parent(),
            forall|id: Seq<char>| #[trigger] final(self).indexed(id) == old(self).indexed(id),
            forall|id: Seq<char>| #[trigger]
                final(self).reconciled_from(old(self), now_ms, id),
            forall|id: Seq<char>|
                old(self).indexed(id) != Some(old(self).parent()) ==>
                    #[trigger] final(self).stored(id) == old(self).stored(id),
            match r {
                Ok(projections) => exists|list: Seq<AgentContinuationRecord>| #[trigger]
                    old(self).lists_all(list) && projections@.len() == list.len() && (forall|i: int|
                        0 <= i < list.len() ==> reconciled((#[trigger] list[i])@, now_ms) is Ok
                            && projections@[i]@ == projection_of(
                            reconciled(list[i]@, now_ms)->Ok_0.0,
                            now_ms,
                        ) && final(self).stored(list[i]@.continuation_id) == Some(
                            reconciled(list[i]@, now_ms)->Ok_0.0,
                        )),
                Err(e) => {
                    ||| exists|id: Seq<char>| #[trigger]
                        old(self).indexed(id) == Some(old(self).parent()) && old(self).entry_error(
                            id,
                        ) == Some(e@)
                    ||| exists|id: Seq<char>| #[trigger]
                        old(self).indexed(id) == Some(old(self).parent()) && old(self).stored(id)
                            is Some && reconciled(old(self).stored(id)->0, now_ms) == Err::<
                            (RecordView, bool),
                            AgentContinuationErrorView,
                        >(e@)
                },
            },
    {
        let list = match self.list_parent_records() {
            Ok(list) => list,
            Err(e) => {
                return Err(e);
            },
        };
        let mut projections: Vec<ContinuationProjection> = Vec::new();
        proof {
            assert(ordered_by_identity(list@)) by {
                reveal(AgentContinuationStore::lists_all);
            }
            assert forall|j: int| 0 <= j < list.len() implies old(self).indexed(
                (#[trigger] list@[j])@.continuation_id,
            ) == Some(old(self).parent()) && self.stored(list@[j]@.continuation_id) == Some(
                list@[j]@,
            ) by {
                reveal(AgentContinuationStore::lists_all);
            }
        }
        let mut i: usize = 0;
        while i < list.len()
            invariant
                i <= list.len(),
                self.wf(),
                old(self).lists_all(list@),
                ordered_by_identity(list@),
                forall|j: int|
                    0 <= j < list.len() ==> old(self).indexed(
                        (#[trigger] list@[j])@.continuation_id,
                    ) == Some(old(self).parent()) && old(self).stored(list@[j]@.continuation_id)
                        == Some(list@[j]@),
                self.parent() == old(self).parent(),
                projections@.len() == i,
                forall|id: Seq<char>| #[trigger] self.indexed(id) == old(self).indexed(id),
                forall|id: Seq<char>| #[trigger] self.reconciled_from(old(self), now_ms, id),
                forall|id: Seq<char>|
                    old(self).indexed(id) != Some(old(self).parent()) ==> #[trigger] self.stored(
                        id,
                    ) == old(self).stored(id),
                forall|j: int|
                    0 <= j < i ==> reconciled((#[trigger] list@[j])@, now_ms) is Ok
                        && projections@[j]@ == projection_of(
                        reconciled(list@[j]@, now_ms)->Ok_0.0,
                        now_ms,
                    ) && self.stored(list@[j]@.continuation_id) == Some(
                        reconciled(list@[j]@, now_ms)->Ok_0.0,
                    ),
                forall|j: int|
                    i <= j < list.len() ==> self.stored((#[trigger] list@[j])@.continuation_id)
                        == Some(list@[j]@),
            decreases list.len() - i,
        {
            let ghost id = list@[i as int]@.continuation_id;
            assert(old(self).indexed(id) == Some(old(self).parent()));
            let (record, changed) = match reconcile_expired_record(list[i].duplicate(), now_ms) {
                Ok(pair) => pair,
                Err(e) => {
                    return Err(e);
                },
            };
            proof {
                crate::agent_continuation::store::reconciliation_keeps_identity(
                    list@[i as int]@,
                    now_ms,
                );
                assert forall|j: int| 0 <= j < list.len() && j != i implies (
                #[trigger] list@[j])@.continuation_id != id by {
                    precedes_irreflexive(id);
                    if j < i {
                        assert(precedes(list@[j]@.continuation_id, list@[i as int]@.continuation_id));
                    } else {
                        assert(precedes(list@[i as int]@.continuation_id, list@[j]@.continuation_id));
                    }
                }
            }
            let ghost before = *self;
            if changed {
                let key = record.continuation_id.as_str().to_owned();
                self.records.insert(key, record.duplicate());
            }
            proof {
                assert forall|x: Seq<char>| #[trigger] self.stored(x) == (if x == id {
                    Some(record@)
                } else {
                    before.stored(x)
                }) by {}
                assert forall|x: Seq<char>| #[trigger]
                    self.indexed(x) == before.indexed(x) by {}
                assert forall|x: Seq<char>| #[trigger]
                    self.reconciled_from(old(self), now_ms, x) by {
                    assert(before.reconciled_from(old(self), now_ms, x));
                }
            }
            projections.push(ContinuationProjection::from_record(&record, now_ms));
            i += 1;
        }
        Ok(projections)
    }
}

/// Reconciliation keeps the identity of a record.
pub proof fn reconciliation_keeps_identity(record: RecordView, now_ms: i64)
    ensures
        reconciled(record, now_ms) is Ok ==> reconciled(record, now_ms)->Ok_0.0.continuation_id
            == record.continuation_id,
        reconciled(record, now_ms) is Ok && !reconciled(record, now_ms)->Ok_0.1 ==> reconciled(
            record,
            now_ms,
        )->Ok_0.0 == record,
{
    reveal(reconciled);
}

/// A record that was created is what is loaded under its identity from then on;
/// what is loaded under any other identity stays.
pub proof fn created_records_are_read_back(
    before: AgentContinuationStore,
    after: AgentContinuationStore,
    record: RecordView,
    other: Seq<char>,
)
    requires
        before.creation_error(record) is None,
        after.created_from(&before, record),
        other != record.continuation_id,
    ensures
        after.load_error(record.continuation_id) is None,
        after.indexed(record.continuation_id) == Some(after.parent()),
        after.stored(record.continuation_id) == Some(record),
        after.load_error(other) == before.load_error(other),
        after.indexed(other) == before.indexed(other),
        after.stored(other) == before.stored(other),
{
}

/// A record that was committed is what is loaded under its identity from then
/// on, and the next mutation must expect its revision.
pub proof fn committed_records_are_read_back(
    before: AgentContinuationStore,
    after: AgentContinuationStore,
    record: RecordView,
    id: Seq<char>,
    expected: ContinuationRevision,
    changed: Result<RecordView, AgentContinuationErrorView>,
    next: RecordView,
)
    requires
        before.mutation_error(id, expected) is None,
        before.stored(id) == Some(record),
        committed(record, id, before.parent(), expected, changed) == Ok::<
            RecordView,
            AgentContinuationErrorView,
        >(next),
        after.updated_from(&before, id, next),
    ensures
        after.load_error(id) is None,
        after.indexed(id) == Some(after.parent()),
        after.stored(id) == Some(next),
        after.mutation_error(id, next.revision) is None,
        after.mutation_error(id, expected) == Some(
            AgentContinuationErrorView::RevisionConflict { expected, actual: next.revision },
        ),
{
}

/// A session reaches its own continuations only: what is indexed to another one
/// is neither loaded nor changed nor created anew.
pub proof fn sessions_are_separate(
    store: AgentContinuationStore,
    id: Seq<char>,
    owner: Seq<char>,
    expected: ContinuationRevision,
    record: RecordView,
)
    requires
        store.indexed(id) == Some(owner),
        owner != store.parent(),
        record.continuation_id == id,
    ensures
        store.load_error(id) == Some(
            AgentContinuationErrorView::ParentMismatch { expected: store.parent(), actual: owner },
        ),
        store.mutation_error(id, expected) == store.load_error(id),
        store.creation_error(record) is Some,
{
}

/// Every record comes before all later ones.
pub open spec fn ordered_by_identity(list: Seq<AgentContinuationRecord>) -> bool {
    forall|i: int, j: int|
        0 <= i < j < list.len() ==> precedes(
            (#[trigger] list[i])@.continuation_id,
            (#[trigger] list[j])@.continuation_id,
        )
}

/// The identity is among the first `n` keys.
spec fn seen(listing: Seq<(String, IndexedParent)>, n: int, id: Seq<char>) -> bool {
    exists|k: int| 0 <= k < n && (#[trigger] listing[k]).0@ == id
}

/// `after` is `before` with one more element at `p`.
pub open spec fn inserted_at<T>(before: Seq<T>, after: Seq<T>, p: int) -> bool {
    &&& 0 <= p < after.len()
    &&& after.len() == before.len() + 1
    &&& forall|i: int| 0 <= i < p ==> #[trigger] after[i] == before[i]
    &&& forall|i: int| p < i < after.len() ==> #[trigger] after[i] == before[i - 1]
}

proof fn lemma_inserted_members<T>(before: Seq<T>, after: Seq<T>, p: int)
    requires
        inserted_at(before, after, p),
    ensures
        forall|j: int| 0 <= j < p ==> after[j] == #[trigger] before[j],
        forall|j: int| p <= j < before.len() ==> after[j + 1] == #[trigger] before[j],
{
    assert forall|j: int| p <= j < before.len() implies after[j + 1] == #[trigger] before[j] by {
        assert(after[j + 1] == before[j + 1 - 1]);
    }
}

/// Puts a record at its place in an ordered list that does not hold its
/// identity yet.
fn insert_ordered(list: &mut Vec<AgentContinuationRecord>, record: AgentContinuationRecord)
    requires
        ordered_by_identity(old(list)@),
        forall|i: int|
            0 <= i < old(list)@.len() ==> (#[trigger] old(list)@[i])@.continuation_id
                != record@.continuation_id,
    ensures
        ordered_by_identity(final(list)@),
        exists|p: int| #[trigger]
            inserted_at(old(list)@, final(list)@, p) && final(list)@[p] == record,
{
    let ghost before = list@;
    let mut p: usize = 0;
    while p < list.len() && list[p].continuation_id.before(&record.continuation_id)
        invariant
            p <= list.len(),
            list@ == before,
            forall|i: int|
                0 <= i < p ==> precedes(
                    (#[trigger] before[i])@.continuation_id,
                    record@.continuation_id,
                ),
        decreases list.len() - p,
    {
        p += 1;
    }
    let ghost rec = record;
    list.insert(p, record);
    proof {
        let after = list@;
        assert(inserted_at(before, after, p as int) && after[p as int] == rec);
        assert forall|j: int| p <= j < before.len() implies precedes(
            rec@.continuation_id,
            (#[trigger] before[j])@.continuation_id,
        ) by {
            precedes_total(rec@.continuation_id, before[p as int]@.continuation_id);
            if j > p {
                precedes_transitive(
                    rec@.continuation_id,
                    before[p as int]@.continuation_id,
                    before[j]@.continuation_id,
                );
            }
        }
        assert forall|i: int, j: int| 0 <= i < j < after.len() implies precedes(
            (#[trigger] after[i])@.continuation_id,
            (#[trigger] after[j])@.continuation_id,
        ) by {
            let x = if i < p {
                i
            } else {
                i - 1
            };
            let y = if j < p {
                j
            } else {
                j - 1
            };
            if i == p {
                assert(after[j] == before[y]);
            } else if j == p {
                assert(after[i] == before[x]);
            } else {
                assert(after[i] == before[x] && after[j] == before[y]);
            }
        }
    }
}

} // verus!
