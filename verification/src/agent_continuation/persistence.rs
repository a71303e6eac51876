//! Decisions about the files of a persistent continuation store.
//!
//! A persistent store keeps one index file and one file per record. Reading,
//! writing and locking the files is up to the caller; what to do with what was
//! read is decided here.

use vstd::prelude::*;
use crate::agent_continuation::error::{
    agrees, corrupt, corrupt_record, AgentContinuationError, AgentContinuationErrorView,
};
use crate::agent_continuation::ids::{is_uuid_v7, AgentContinuationId};
use crate::agent_continuation::record::{
    AgentContinuationRecord, RecordView, AGENT_CONTINUATION_SCHEMA_VERSION,
};
use crate::agent_continuation::validation::{
    ensure_parent_matches, fault_if, first, parent_error, record_error, validate_record,
};
use crate::text::{opt_chars, plus, precedes, precedes_total, precedes_transitive, text_is};
use crate::text_map::{key_at, TextMap};

verus! {

/// What stands at the path of a record.
#[derive(Debug)]
pub enum RecordFile {
    Missing,
    NotRegular,
    Present(AgentContinuationRecord),
}

/// What is left to do so that a record is created.
#[derive(Clone, Copy, Debug, PartialEq, Eq, Structural)]
pub enum CreationStep {
    /// The same record exists already: hand it out.
    ReturnExisting,
    /// The same record exists but is not indexed: add it to the index.
    IndexExisting,
    /// Write the record, and after that the index.
    WriteRecordAndIndex,
}

/// What to do to create a record in a persistent store.
pub open spec fn creation_step(
    parent: Seq<char>,
    record: RecordView,
    indexed_parent: Option<Seq<char>>,
    file: RecordFile,
) -> Result<CreationStep, AgentContinuationErrorView> {
    match first(
        fault_if(record.revision.value != 0, corrupt("new continuation revision must be zero"@)),
        record_error(record, Some(record.continuation_id), Some(parent)),
    ) {
        Some(e) => Err(e),
        None => match indexed_parent {
            Some(actual) => match parent_error(parent, actual) {
                Some(e) => Err(e),
                None => match file {
                    RecordFile::Present(existing) => if existing@ == record {
                        Ok(CreationStep::ReturnExisting)
                    } else {
                        Err(
                            AgentContinuationErrorView::AlreadyExists {
                                continuation_id: record.continuation_id,
                            },
                        )
                    },
                    _ => Err(corrupt("continuation index points to a missing record"@)),
                },
            },
            None => match file {
                RecordFile::Present(existing) => if existing@ == record {
                    Ok(CreationStep::IndexExisting)
                } else {
                    Err(
                        corrupt(
                            "unindexed continuation record conflicts with requested creation"@,
                        ),
                    )
                },
                RecordFile::NotRegular => Err(
                    corrupt("unindexed continuation path is not a regular file"@),
                ),
                RecordFile::Missing => Ok(CreationStep::WriteRecordAndIndex),
            },
        },
    }
}

/// Decides how a record is created, given what the index and the record's path
/// hold. Creating the same record again is no error; a different one under the
/// same identity is.
pub fn decide_creation(
    parent_session_id: &str,
    record: &AgentContinuationRecord,
    indexed_parent: &Option<String>,
    file: &RecordFile,
) -> (r: Result<CreationStep, AgentContinuationError>)
    ensures
        match r {
            Ok(step) => creation_step(parent_session_id@, record@, opt_chars(*indexed_parent), *file)
                == Ok::<CreationStep, AgentContinuationErrorView>(step),
            Err(e) => creation_step(parent_session_id@, record@, opt_chars(*indexed_parent), *file)
                == Err::<CreationStep, AgentContinuationErrorView>(e@),
        },
{
    if record.revision.value != 0 {
        return Err(corrupt_record("new continuation revision must be zero"));
    }
    match validate_record(record, Some(&record.continuation_id), Some(parent_session_id)) {
        Ok(_) => {},
        Err(e) => {
            return Err(e);
        },
    }
    match indexed_parent {
        Some(actual) => {
            match ensure_parent_matches(parent_session_id, actual.as_str()) {
                Ok(_) => {},
                Err(e) => {
                    return Err(e);
                },
            }
            match file {
                RecordFile::Present(existing) => {
                    if !existing.same(record) {
                        return Err(
                            AgentContinuationError::AlreadyExists {
                                continuation_id: record.continuation_id.duplicate(),
                            },
                        );
                    }
                    Ok(CreationStep::ReturnExisting)
                },
                _ => Err(corrupt_record("continuation index points to a missing record")),
            }
        },
        None => match file {
            RecordFile::Present(existing) => {
                if !existing.same(record) {
                    return Err(
                        corrupt_record(
                            "unindexed continuation record conflicts with requested creation",
                        ),
                    );
                }
                Ok(CreationStep::IndexExisting)
            },
            RecordFile::NotRegular => Err(
                corrupt_record("unindexed continuation path is not a regular file"),
            ),
            RecordFile::Missing => Ok(CreationStep::WriteRecordAndIndex),
        },
    }
}

/// An index entry names an identity and a session.
pub open spec fn entry_valid(id: Seq<char>, parent: Seq<char>) -> bool {
    parent.len() > 0 && is_uuid_v7(id)
}

/// Rejects an index with an entry that names no identity or no session.
pub fn validate_index(index: &TextMap<String, String>) -> (r: Result<(), AgentContinuationError>)
    requires
        index.wf(),
    ensures
        agrees(
            r,
            fault_if(
                exists|id: Seq<char>| #[trigger]
                    index@.dom().contains(id) && !entry_valid(id, index@[id]@),
                corrupt("continuation index contains an invalid entry"@),
            ),
        ),
{
    let mut i: usize = 0;
    while i < index.len()
        invariant
            index.wf(),
            i <= index.listing().len(),
            forall|k: int|
                0 <= k < i ==> entry_valid(
                    (#[trigger] index.listing()[k]).0@,
                    index.listing()[k].1@,
                ),
        decreases index.listing().len() - i,
    {
        let entry = index.entry(i);
        let parsed = AgentContinuationId::parse(entry.0.clone());
        if entry.1.as_str().is_empty() || parsed.is_err() {
            assert(index@.dom().contains(entry.0@) && !entry_valid(entry.0@, index@[entry.0@]@));
            return Err(corrupt_record("continuation index contains an invalid entry"));
        }
        i += 1;
    }
    proof {
        assert forall|id: Seq<char>| #[trigger] index@.dom().contains(id) implies entry_valid(
            id,
            index@[id]@,
        ) by {
            index.key_is_listed(id);
            let k = choose|k: int| #[trigger]
                key_at(index.listing(), id, k) && index.listing()[k].1 == index@[id];
            assert(index.listing()[k].0@ == id);
        }
    }
    Ok(())
}

/// The texts that a map holds.
pub open spec fn texts(index: Map<Seq<char>, String>) -> Map<Seq<char>, Seq<char>> {
    index.map_values(|text: String| text@)
}

/// The map that pairs make, a later pair in place of an earlier one.
pub open spec fn mapped(pairs: Seq<(String, String)>) -> Map<Seq<char>, Seq<char>>
    decreases pairs.len(),
{
    if pairs.len() == 0 {
        Map::empty()
    } else {
        mapped(pairs.drop_last()).insert(pairs.last().0@, pairs.last().1@)
    }
}

/// The entries of the JSON object of texts that the bytes hold, where they hold
/// one.
pub uninterp spec fn index_entries(bytes: Seq<u8>) -> Option<Map<Seq<char>, Seq<char>>>;

/// Calls `serde_json::from_slice` for a map of texts and hands out its pairs.
/// The result depends on the bytes alone; the reason for which bytes are refused
/// is dropped.
#[verifier::external_body]
fn decode_index(bytes: &Vec<u8>) -> (r: Option<Vec<(String, String)>>)
    ensures
        match r {
            Some(pairs) => index_entries(bytes@) == Some(mapped(pairs@)),
            None => index_entries(bytes@) is None,
        },
{
    let entries: std::collections::BTreeMap<String, String> = serde_json::from_slice(bytes).ok()?;
    Some(entries.into_iter().collect())
}

/// Calls `serde_json::to_vec_pretty` on the map that the pairs make. Decoding
/// the bytes gives that map back; writing texts into memory does not fail.
#[verifier::external_body]
fn encode_index(pairs: Vec<(String, String)>) -> (r: Vec<u8>)
    ensures
        index_entries(r@) == Some(mapped(pairs@)),
{
    let entries: std::collections::BTreeMap<String, String> = pairs.into_iter().collect();
    serde_json::to_vec_pretty(&entries).unwrap_or_default()
}

/// Every entry names an identity and a session.
pub open spec fn entries_valid(entries: Map<Seq<char>, Seq<char>>) -> bool {
    forall|id: Seq<char>| #[trigger]
        entries.dom().contains(id) ==> entry_valid(id, entries[id])
}

/// What decoded entries make of an index.
pub open spec fn indexes(
    entries: Option<Map<Seq<char>, Seq<char>>>,
    r: Result<TextMap<String, String>, AgentContinuationError>,
) -> bool {
    match entries {
        None => r matches Err(e) && e@ == corrupt("continuation index is not valid JSON"@),
        Some(entries) => if entries_valid(entries) {
            r matches Ok(index) && index.wf() && texts(index@) == entries
        } else {
            r matches Err(e) && e@ == corrupt("continuation index contains an invalid entry"@)
        },
    }
}

/// Builds the index from what its bytes were decoded to, and validates it.
pub fn index_of_entries(decoded: Option<Vec<(String, String)>>) -> (r: Result<
    TextMap<String, String>,
    AgentContinuationError,
>)
    ensures
        indexes(
            match decoded {
                Some(pairs) => Some(mapped(pairs@)),
                None => None,
            },
            r,
        ),
{
    let pairs = match decoded {
        Some(pairs) => pairs,
        None => {
            return Err(corrupt_record("continuation index is not valid JSON"));
        },
    };
    let mut index: TextMap<String, String> = TextMap::new();
    let mut i: usize = 0;
    assert(texts(index@) =~= mapped(pairs@.take(0)));
    while i < pairs.len()
        invariant
            index.wf(),
            i <= pairs@.len(),
            texts(index@) == mapped(pairs@.take(i as int)),
        decreases pairs@.len() - i,
    {
        let ghost before = index@;
        let pair = &pairs[i];
        index.insert(pair.0.clone(), pair.1.clone());
        proof {
            assert(pairs@.take(i + 1).drop_last() =~= pairs@.take(i as int));
            assert(pairs@.take(i + 1).last() == pairs@[i as int]);
            assert(texts(index@) =~= texts(before).insert(
                pairs@[i as int].0@,
                pairs@[i as int].1@,
            ));
        }
        i += 1;
    }
    assert(pairs@.take(pairs@.len() as int) =~= pairs@);
    let ghost entries = texts(index@);
    assert(entries.dom() =~= index@.dom());
    match validate_index(&index) {
        Ok(_) => {
            assert forall|id: Seq<char>| #[trigger] entries.dom().contains(id) implies entry_valid(
                id,
                entries[id],
            ) by {
                assert(index@.dom().contains(id));
            }
            Ok(index)
        },
        Err(e) => {
            assert(!entries_valid(entries)) by {
                let id = choose|id: Seq<char>| #[trigger]
                    index@.dom().contains(id) && !entry_valid(id, index@[id]@);
                assert(entries.dom().contains(id) && !entry_valid(id, entries[id]));
            }
            Err(e)
        },
    }
}

/// Reads the index out of the bytes of its file.
pub fn index_from_bytes(bytes: &Vec<u8>) -> (r: Result<
    TextMap<String, String>,
    AgentContinuationError,
>)
    ensures
        indexes(index_entries(bytes@), r),
{
    index_of_entries(decode_index(bytes))
}

/// Writes the index as the bytes of its file. Reading them gives its entries
/// back.
pub fn index_to_bytes(index: &TextMap<String, String>) -> (r: Vec<u8>)
    requires
        index.wf(),
    ensures
        index_entries(r@) == Some(texts(index@)),
{
    let mut pairs: Vec<(String, String)> = Vec::new();
    let ghost listing = index.listing();
    let mut n: usize = 0;
    while n < index.len()
        invariant
            index.wf(),
            listing == index.listing(),
            n <= listing.len(),
            pairs@ == listing.take(n as int),
        decreases listing.len() - n,
    {
        let entry = index.entry(n);
        pairs.push((entry.0.clone(), entry.1.clone()));
        assert(pairs@ =~= listing.take(n + 1));
        n += 1;
    }
    proof {
        assert(pairs@ =~= listing);
        listed_pairs_are_mapped(index, listing.len() as int);
        assert(listing.take(listing.len() as int) =~= listing);
        assert(mapped(listing) =~= texts(index@)) by {
            assert forall|id: Seq<char>| #[trigger] index@.dom().contains(id) implies mapped(
                listing,
            ).dom().contains(id) && mapped(listing)[id] == index@[id]@ by {
                index.key_is_listed(id);
                let k = choose|k: int| #[trigger]
                    key_at(listing, id, k) && listing[k].1 == index@[id];
                assert(0 <= k < listing.len() && listing[k].0@ == id);
            }
        }
    }
    encode_index(pairs)
}

/// The first `n` pairs of a listing make a map of just these entries.
proof fn listed_pairs_are_mapped(index: &TextMap<String, String>, n: int)
    requires
        index.wf(),
        0 <= n <= index.listing().len(),
    ensures
        forall|k: int|
            0 <= k < n ==> mapped(index.listing().take(n)).dom().contains(
                (#[trigger] index.listing()[k]).0@,
            ) && mapped(index.listing().take(n))[index.listing()[k].0@] == index.listing()[k].1@,
        forall|id: Seq<char>| #[trigger]
            mapped(index.listing().take(n)).dom().contains(id) ==> index@.dom().contains(id)
                && mapped(index.listing().take(n))[id] == index@[id]@,
    decreases n,
{
    let listing = index.listing();
    if n > 0 {
        listed_pairs_are_mapped(index, n - 1);
        index.listed_is_mapped(n - 1);
        assert(listing.take(n).drop_last() =~= listing.take(n - 1));
        assert(listing.take(n).last() == listing[n - 1]);
        assert forall|k: int| 0 <= k < n implies mapped(listing.take(n)).dom().contains(
            (#[trigger] listing[k]).0@,
        ) && mapped(listing.take(n))[listing[k].0@] == listing[k].1@ by {
            if k < n - 1 {
                assert(listing[k].0@ != listing[n - 1].0@);
            }
        }
        assert forall|id: Seq<char>| #[trigger]
            mapped(listing.take(n)).dom().contains(id) implies index@.dom().contains(id)
            && mapped(listing.take(n))[id] == index@[id]@ by {
            if id != listing[n - 1].0@ {
                assert(mapped(listing.take(n - 1)).dom().contains(id));
            }
        }
    } else {
        assert(listing.take(n) =~= Seq::<(String, String)>::empty());
    }
}

/// The session that the index gives for an identity.
pub fn locate_indexed_parent(index: &TextMap<String, String>, continuation_id: &AgentContinuationId) -> (r:
    Option<String>)
    requires
        index.wf(),
    ensures
        opt_chars(r) == (if index@.dom().contains(continuation_id@) {
            Some(index@[continuation_id@]@)
        } else {
            None
        }),
{
    match index.get(&continuation_id.as_str().to_owned()) {
        Some(parent) => Some(parent.clone()),
        None => None,
    }
}

/// Checks that an identity is still indexed to the session it was found under.
pub fn ensure_index_mapping(
    index: &TextMap<String, String>,
    continuation_id: &AgentContinuationId,
    expected_parent_session_id: &str,
) -> (r: Result<(), AgentContinuationError>)
    requires
        index.wf(),
    ensures
        agrees(
            r,
            if index@.dom().contains(continuation_id@) {
                parent_error(expected_parent_session_id@, index@[continuation_id@]@)
            } else {
                Some(corrupt("continuation index entry disappeared"@))
            },
        ),
{
    match index.get(&continuation_id.as_str().to_owned()) {
        Some(parent) => ensure_parent_matches(expected_parent_session_id, parent.as_str()),
        None => Err(corrupt_record("continuation index entry disappeared")),
    }
}

/// The index gives an identity to a session.
pub open spec fn belongs(index: Map<Seq<char>, String>, parent: Seq<char>, id: Seq<char>) -> bool {
    index.dom().contains(id) && index[id]@ == parent
}

/// `list` is in the order of its texts, without repetition.
pub open spec fn identities_ordered(list: Seq<AgentContinuationId>) -> bool {
    forall|i: int, j: int|
        0 <= i < j < list.len() ==> precedes((#[trigger] list[i])@, (#[trigger] list[j])@)
}

/// `list` holds `id`.
pub open spec fn lists_identity(list: Seq<AgentContinuationId>, id: Seq<char>) -> bool {
    exists|i: int| 0 <= i < list.len() && (#[trigger] list[i])@ == id
}

/// Puts an identity at its place in an ordered list that does not hold it yet.
fn insert_identity(list: &mut Vec<AgentContinuationId>, id: AgentContinuationId)
    requires
        identities_ordered(old(list)@),
        !lists_identity(old(list)@, id@),
    ensures
        identities_ordered(final(list)@),
        forall|x: Seq<char>| #[trigger]
            lists_identity(final(list)@, x) <==> x == id@ || lists_identity(old(list)@, x),
{
    let ghost before = list@;
    let mut p: usize = 0;
    while p < list.len() && list[p].before(&id)
        invariant
            p <= list.len(),
            list@ == before,
            forall|i: int| 0 <= i < p ==> precedes((#[trigger] before[i])@, id@),
        decreases list.len() - p,
    {
        p += 1;
    }
    let ghost put = id;
    list.insert(p, id);
    proof {
        let after = list@;
        assert(after =~= before.insert(p as int, put));
        assert forall|j: int| p <= j < before.len() implies precedes(
            put@,
            (#[trigger] before[j])@,
        ) by {
            assert(before[p as int]@ != put@);
            precedes_total(put@, before[p as int]@);
            if j > p {
                precedes_transitive(put@, before[p as int]@, before[j]@);
            }
        }
        assert forall|i: int, j: int| 0 <= i < j < after.len() implies precedes(
            (#[trigger] after[i])@,
            (#[trigger] after[j])@,
        ) by {
            if i != p {
                assert(after[i] == before[if i < p { i } else { i - 1 }]);
            }
            if j != p {
                assert(after[j] == before[if j < p { j } else { j - 1 }]);
            }
        }
        assert forall|x: Seq<char>| #[trigger] lists_identity(after, x) <==> x == put@
            || lists_identity(before, x) by {
            if lists_identity(after, x) {
                let i = choose|i: int| 0 <= i < after.len() && (#[trigger] after[i])@ == x;
                if i != p {
                    assert(after[i] == before[if i < p { i } else { i - 1 }]);
                }
            }
            if lists_identity(before, x) {
                let i = choose|i: int| 0 <= i < before.len() && (#[trigger] before[i])@ == x;
                assert(after[if i < p { i } else { i + 1 }] == before[i]);
            }
            assert(after[p as int] == put);
        }
    }
}

/// The identities of a session's records, in order. It fails if the index gives
/// the session something that is no identity.
pub fn indexed_continuations(index: &TextMap<String, String>, parent_session_id: &str) -> (r: Result<
    Vec<AgentContinuationId>,
    AgentContinuationError,
>)
    requires
        index.wf(),
    ensures
        match r {
            Ok(list) => {
                &&& identities_ordered(list@)
                &&& forall|id: Seq<char>| #[trigger]
                    lists_identity(list@, id) <==> belongs(index@, parent_session_id@, id)
                &&& forall|id: Seq<char>| #[trigger]
                    belongs(index@, parent_session_id@, id) ==> is_uuid_v7(id)
            },
            Err(e) => {
                &&& e@ == corrupt("continuation index contains an invalid identity"@)
                &&& exists|id: Seq<char>| #[trigger]
                    belongs(index@, parent_session_id@, id) && !is_uuid_v7(id)
            },
        },
{
    let mut list: Vec<AgentContinuationId> = Vec::new();
    let mut n: usize = 0;
    let ghost listing = index.listing();
    while n < index.len()
        invariant
            index.wf(),
            listing == index.listing(),
            n <= listing.len(),
            identities_ordered(list@),
            forall|id: Seq<char>| #[trigger]
                lists_identity(list@, id) <==> exists|k: int|
                    0 <= k < n && #[trigger] key_at(listing, id, k) && listing[k].1@
                        == parent_session_id@,
            forall|id: Seq<char>| #[trigger] lists_identity(list@, id) ==> is_uuid_v7(id),
        decreases listing.len() - n,
    {
        let entry = index.entry(n);
        let ghost before = list@;
        assert(key_at(listing, entry.0@, n as int));
        if text_is(entry.1.as_str(), parent_session_id) {
            match AgentContinuationId::parse(entry.0.clone()) {
                Err(_) => {
                    assert(belongs(index@, parent_session_id@, entry.0@));
                    return Err(corrupt_record("continuation index contains an invalid identity"));
                },
                Ok(id) => {
                    assert(!lists_identity(before, id@)) by {
                        if lists_identity(before, id@) {
                            let k = choose|k: int|
                                0 <= k < n && #[trigger] key_at(listing, id@, k) && listing[k].1@
                                    == parent_session_id@;
                            assert(listing[k].0@ != listing[n as int].0@);
                        }
                    }
                    insert_identity(&mut list, id);
                },
            }
        }
        proof {
            assert forall|id: Seq<char>| #[trigger] lists_identity(list@, id) <==> exists|k: int|
                0 <= k < n + 1 && #[trigger] key_at(listing, id, k) && listing[k].1@
                    == parent_session_id@ by {
                if lists_identity(before, id) {
                    let k = choose|k: int|
                        0 <= k < n && #[trigger] key_at(listing, id, k) && listing[k].1@
                            == parent_session_id@;
                    assert(0 <= k < n + 1 && key_at(listing, id, k));
                }
                if exists|k: int|
                    0 <= k < n + 1 && #[trigger] key_at(listing, id, k) && listing[k].1@
                        == parent_session_id@ {
                    let k = choose|k: int|
                        0 <= k < n + 1 && #[trigger] key_at(listing, id, k) && listing[k].1@
                            == parent_session_id@;
                    if k < n {
                        assert(0 <= k < n && key_at(listing, id, k));
                        assert(lists_identity(before, id));
                    }
                }
            }
        }
        n += 1;
    }
    proof {
        assert forall|id: Seq<char>| #[trigger] lists_identity(list@, id) <==> belongs(
            index@,
            parent_session_id@,
            id,
        ) by {
            if belongs(index@, parent_session_id@, id) {
                index.key_is_listed(id);
                let k = choose|k: int| #[trigger]
                    key_at(listing, id, k) && listing[k].1 == index@[id];
                assert(0 <= k < n && key_at(listing, id, k));
            }
            if lists_identity(list@, id) {
                let k = choose|k: int|
                    0 <= k < n && #[trigger] key_at(listing, id, k) && listing[k].1@
                        == parent_session_id@;
                index.listed_is_mapped(k);
            }
        }
        assert forall|id: Seq<char>| #[trigger]
            belongs(index@, parent_session_id@, id) implies is_uuid_v7(id) by {
            assert(lists_identity(list@, id));
        }
    }
    Ok(list)
}

/// Checks the schema version of a stored record before it is decoded. `found`
/// is the number under `schema_version`, where there is one.
pub fn check_record_schema(found: Option<u64>) -> (r: Result<(), AgentContinuationError>)
    ensures
        agrees(
            r,
            match found {
                Some(version) => if version > u32::MAX {
                    Some(corrupt("continuation record has no valid schema version"@))
                } else {
                    fault_if(
                        version != AGENT_CONTINUATION_SCHEMA_VERSION,
                        AgentContinuationErrorView::UnsupportedSchemaVersion {
                            found: version as u32,
                        },
                    )
                },
                None => Some(corrupt("continuation record has no valid schema version"@)),
            },
        ),
{
    match found {
        Some(version) => {
            if version > 0xffff_ffff {
                return Err(corrupt_record("continuation record has no valid schema version"));
            }
            let version = version as u32;
            if version != AGENT_CONTINUATION_SCHEMA_VERSION {
                return Err(AgentContinuationError::UnsupportedSchemaVersion { found: version });
            }
            Ok(())
        },
        None => Err(corrupt_record("continuation record has no valid schema version")),
    }
}

/// The number that a member of the JSON value in the bytes is, where it is one;
/// nothing where the bytes hold no JSON value.
pub uninterp spec fn member_number(bytes: Seq<u8>, member: Seq<char>) -> Option<Option<u64>>;

/// Calls `serde_json::from_slice` for any JSON value and picks the number under a
/// member. The result depends on the bytes and the member's name alone; the
/// reason for which bytes are refused is dropped.
#[verifier::external_body]
fn decode_number(bytes: &Vec<u8>, member: &str) -> (r: Option<Option<u64>>)
    ensures
        r == member_number(bytes@, member@),
{
    let value: serde_json::Value = serde_json::from_slice(bytes).ok()?;
    Some(value.get(member).and_then(serde_json::Value::as_u64))
}

/// Why the record in a file is not decoded, given what was found of its schema
/// version.
pub open spec fn schema_error(decoded: Option<Option<u64>>) -> Option<AgentContinuationErrorView> {
    match decoded {
        None => Some(corrupt("continuation record is not valid JSON"@)),
        Some(None) => Some(corrupt("continuation record has no valid schema version"@)),
        Some(Some(version)) => if version > u32::MAX {
            Some(corrupt("continuation record has no valid schema version"@))
        } else {
            fault_if(
                version != AGENT_CONTINUATION_SCHEMA_VERSION,
                AgentContinuationErrorView::UnsupportedSchemaVersion { found: version as u32 },
            )
        },
    }
}

/// Checks what was found of a record's schema version.
pub fn check_decoded_schema(decoded: Option<Option<u64>>) -> (r: Result<
    (),
    AgentContinuationError,
>)
    ensures
        agrees(r, schema_error(decoded)),
{
    match decoded {
        None => Err(corrupt_record("continuation record is not valid JSON")),
        Some(found) => check_record_schema(found),
    }
}

/// Checks the bytes of a record's file before the record is decoded.
pub fn check_record_bytes(bytes: &Vec<u8>) -> (r: Result<(), AgentContinuationError>)
    ensures
        agrees(r, schema_error(member_number(bytes@, "schema_version"@))),
{
    check_decoded_schema(decode_number(bytes, "schema_version"))
}

/// The file name of the continuation index.
pub fn continuation_index_file() -> (r: &'static str)
    ensures
        r@ == "continuation-index.json"@,
{
    "continuation-index.json"
}

/// The file name of the lock on the continuation index.
pub fn continuation_index_lock_file() -> (r: &'static str)
    ensures
        r@ == "continuation-index.lock"@,
{
    "continuation-index.lock"
}

/// The file name of a session's lock, inside the session's directory.
pub fn session_lock_file() -> (r: &'static str)
    ensures
        r@ == "tasks.lock"@,
{
    "tasks.lock"
}

/// The file name of a record, inside the session's `continuations` directory.
pub fn continuation_record_file(continuation_id: &AgentContinuationId) -> (r: String)
    ensures
        r@ == continuation_id@ + ".json"@,
{
    plus(continuation_id.as_str(), ".json")
}

/// Records of different continuations never share a file.
pub proof fn record_files_are_distinct(a: Seq<char>, b: Seq<char>)
    requires
        a + ".json"@ == b + ".json"@,
    ensures
        a == b,
{
    let x = a + ".json"@;
    let y = b + ".json"@;
    assert(x.len() == a.len() + ".json"@.len());
    assert(y.len() == b.len() + ".json"@.len());
    assert(a.len() == b.len());
    assert(x.take(a.len() as int) =~= a);
    assert(y.take(a.len() as int) =~= b);
}

/// A record is written only where nothing is: neither the index nor the directory
/// knows its identity. The same record is handed out or indexed again; a different
/// one is never overwritten.
pub proof fn records_are_written_once(
    parent: Seq<char>,
    record: RecordView,
    indexed_parent: Option<Seq<char>>,
    file: RecordFile,
)
    ensures
        ({
            let step = creation_step(parent, record, indexed_parent, file);
            let found = file matches RecordFile::Present(existing) && existing@ == record;
            &&& step == Ok::<CreationStep, AgentContinuationErrorView>(
                CreationStep::WriteRecordAndIndex,
            ) ==> indexed_parent is None && file is Missing
            &&& step == Ok::<CreationStep, AgentContinuationErrorView>(CreationStep::IndexExisting)
                ==> indexed_parent is None && found
            &&& step == Ok::<CreationStep, AgentContinuationErrorView>(CreationStep::ReturnExisting)
                ==> indexed_parent == Some(parent) && found
            &&& step is Ok ==> record.revision.value == 0 && record.parent_session_id == parent
            &&& record.revision.value == 0 && record_error(
                record,
                Some(record.continuation_id),
                Some(parent),
            ) is None ==> {
                &&& indexed_parent is None && file is Missing ==> step == Ok::<
                    CreationStep,
                    AgentContinuationErrorView,
                >(CreationStep::WriteRecordAndIndex)
                &&& indexed_parent is None && found ==> step == Ok::<
                    CreationStep,
                    AgentContinuationErrorView,
                >(CreationStep::IndexExisting)
                &&& indexed_parent == Some(parent) && found ==> step == Ok::<
                    CreationStep,
                    AgentContinuationErrorView,
                >(CreationStep::ReturnExisting)
                &&& indexed_parent == Some(parent) && file is Present && !found ==> step == Err::<
                    CreationStep,
                    AgentContinuationErrorView,
                >(
                    AgentContinuationErrorView::AlreadyExists {
                        continuation_id: record.continuation_id,
                    },
                )
                &&& indexed_parent matches Some(actual) ==> (actual != parent ==> step == Err::<
                    CreationStep,
                    AgentContinuationErrorView,
                >(AgentContinuationErrorView::ParentMismatch { expected: parent, actual }))
            }
        }),
{
}

/// An index is taken as a whole: every entry must name an identity and a session,
/// and then each identity belongs to the session that the file names for it.
pub proof fn indexes_are_taken_whole(
    entries: Map<Seq<char>, Seq<char>>,
    r: Result<TextMap<String, String>, AgentContinuationError>,
    id: Seq<char>,
)
    requires
        indexes(Some(entries), r),
        entries.dom().contains(id),
    ensures
        r is Ok ==> r->Ok_0@.dom().contains(id) && r->Ok_0@[id]@ == entries[id] && is_uuid_v7(id)
            && entries[id].len() > 0,
        !is_uuid_v7(id) || entries[id].len() == 0 ==> r is Err,
        r is Err ==> exists|bad: Seq<char>| #[trigger]
            entries.dom().contains(bad) && (!is_uuid_v7(bad) || entries[bad].len() == 0),
{
    if let Ok(index) = r {
        assert(texts(index@).dom().contains(id));
        assert(texts(index@)[id] == entries[id]);
    }
}

/// Only the supported version of a record is read.
pub proof fn only_the_supported_version_is_read(decoded: Option<Option<u64>>)
    ensures
        schema_error(decoded) is None <==> decoded == Some(
            Some(AGENT_CONTINUATION_SCHEMA_VERSION as u64),
        ),
        decoded matches Some(Some(found)) ==> (found != AGENT_CONTINUATION_SCHEMA_VERSION && found
            <= u32::MAX ==> schema_error(decoded) == Some(
            AgentContinuationErrorView::UnsupportedSchemaVersion { found: found as u32 },
        )),
{
}

} // verus!
