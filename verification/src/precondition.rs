//! Which records a commit locks, and whether its preconditions hold.
use vstd::prelude::*;

use crate::failure;
use crate::failure::{
    AdapterFailureKind, FailureCause, PostgresStateError, StateFailure, StateStoreOperation,
};
use crate::ids::{FilesystemId, InodeId};
use crate::key;
use crate::key::{insert_sorted, RecordKey};
use crate::key_codec;
use crate::numeric;
use crate::numeric::{decode_u64, NumericCodecError};
use crate::record;
use crate::record::{InodeRecord, StateRecord};
use crate::request::{
    mutation_key, CommitConflict, CommitConflictKind, CommitOutcome, CommitRequest,
    CommittedMutation, ContentBase, MutationMismatch, Precondition, StateChange,
};
use crate::statement;
use crate::statement::{query, PostgresQuery, StatementView};
use crate::table;
use crate::table::{RecordTable, Records};
use crate::transition;

verus! {

/// A failure of a commit that no database error caused.
pub open spec fn commit_failure(
    kind: AdapterFailureKind,
    context: &'static str,
    cause: FailureCause<Seq<u8>, Seq<char>>,
) -> StateFailure {
    failure::plain_failure(StateStoreOperation::Commit, kind, context, cause)
}

/// Persisted state that a commit read is corrupt.
pub fn corruption(context: &'static str, cause: FailureCause) -> (result: PostgresStateError)
    ensures
        result@ == commit_failure(AdapterFailureKind::Corruption, context, cause@),
{
    PostgresStateError::new(
        StateStoreOperation::Commit,
        AdapterFailureKind::Corruption,
        context,
        cause,
    )
}

/// A commit broke one of the adapter's own rules.
pub fn internal(context: &'static str, cause: FailureCause) -> (result: PostgresStateError)
    ensures
        result@ == commit_failure(AdapterFailureKind::Internal, context, cause@),
{
    PostgresStateError::new(
        StateStoreOperation::Commit,
        AdapterFailureKind::Internal,
        context,
        cause,
    )
}

/// The corruption of a number that is not canonical.
pub open spec fn number_corruption(field: &'static str, text: Seq<char>) -> StateFailure {
    commit_failure(
        AdapterFailureKind::Corruption,
        "",
        FailureCause::Numeric(NumericCodecError { field, value: text }),
    )
}

/// Reads a persisted number.
pub fn decode_number(field: &'static str, text: &String) -> (result: Result<
    u64,
    PostgresStateError,
>)
    ensures
        match result {
            Ok(value) => numeric::parses(text@) && value == numeric::parsed(text@),
            Err(error) => !numeric::parses(text@) && error@ == number_corruption(field, text@),
        },
{
    match decode_u64(field, text.as_str()) {
        Ok(value) => Ok(value),
        Err(error) => Err(corruption("", FailureCause::Numeric(error))),
    }
}

/// How a stored mutation relates to a request under the same identity.
#[derive(Clone, Copy, Debug, PartialEq, Eq, Structural)]
pub enum MutationReplay {
    /// The same mutation.
    Exact,
    /// Another mutation, which differs in this way.
    Mismatch(MutationMismatch),
    /// No mutation at all.
    Absent,
}

/// What a stored ledger record answers to a request.
pub open spec fn ledger_answer(
    stored: StateRecord<Seq<u8>, Seq<char>>,
    replay: MutationReplay,
) -> Result<CommitOutcome<Seq<u8>>, StateFailure> {
    match stored {
        StateRecord::Mutation(stored) => match replay {
            MutationReplay::Exact => Ok(
                CommitOutcome::AlreadyCommitted(
                    CommittedMutation {
                        revision: stored.committed_revision,
                        result: stored.result,
                    },
                ),
            ),
            MutationReplay::Mismatch(mismatch) => Ok(CommitOutcome::MutationMismatch(mismatch)),
            MutationReplay::Absent => Err(
                commit_failure(
                    AdapterFailureKind::Corruption,
                    "present mutation record classified as absent",
                    FailureCause::Plain,
                ),
            ),
        },
        _ => Err(
            commit_failure(
                AdapterFailureKind::Corruption,
                "mutation key decoded as another record family",
                FailureCause::Plain,
            ),
        ),
    }
}

/// An outcome or failure meets what contracts say of it.
pub open spec fn answers(
    result: Result<CommitOutcome, PostgresStateError>,
    expected: Result<CommitOutcome<Seq<u8>>, StateFailure>,
) -> bool {
    match (result, expected) {
        (Ok(outcome), Ok(view)) => outcome@ == view,
        (Err(error), Err(view)) => error@ == view,
        _ => false,
    }
}

/// Answers a request from the record that the ledger holds for it, given how
/// the record relates to the request.
pub fn classify_ledger_record(stored: &StateRecord, replay: MutationReplay) -> (result: Result<
    CommitOutcome,
    PostgresStateError,
>)
    ensures
        answers(result, ledger_answer(stored@, replay)),
{
    match stored {
        StateRecord::Mutation(stored) => match replay {
            MutationReplay::Exact => Ok(
                CommitOutcome::AlreadyCommitted(
                    CommittedMutation {
                        revision: stored.committed_revision,
                        result: stored.result.copied(),
                    },
                ),
            ),
            MutationReplay::Mismatch(mismatch) => Ok(CommitOutcome::MutationMismatch(mismatch)),
            MutationReplay::Absent => Err(
                corruption("present mutation record classified as absent", FailureCause::Plain),
            ),
        },
        _ => Err(
            corruption("mutation key decoded as another record family", FailureCause::Plain),
        ),
    }
}

/// A change needs a record besides those it touches.
pub open spec fn leans_on(
    filesystem_id: FilesystemId,
    change: transition::Change,
    key: RecordKey<Seq<u8>>,
) -> bool {
    match change {
        StateChange::Insert { record: StateRecord::DirectoryEntry(entry), .. } => entry_leans_on(
            filesystem_id,
            entry,
            key,
        ),
        StateChange::Replace { record: StateRecord::DirectoryEntry(entry), .. } => entry_leans_on(
            filesystem_id,
            entry,
            key,
        ),
        StateChange::Delete(RecordKey::DirectoryEntry(_, parent, _)) => key
            == RecordKey::<Seq<u8>>::Filesystem(filesystem_id) || key == RecordKey::<
            Seq<u8>,
        >::Inode(filesystem_id, parent),
        _ => false,
    }
}

/// A written entry needs the filesystem header, its parent and its child.
pub open spec fn entry_leans_on(
    filesystem_id: FilesystemId,
    entry: record::DirectoryEntryRecord<Seq<u8>>,
    key: RecordKey<Seq<u8>>,
) -> bool {
    ||| key == RecordKey::<Seq<u8>>::Filesystem(filesystem_id)
    ||| key == RecordKey::<Seq<u8>>::Inode(filesystem_id, entry.parent_inode_id)
    ||| key == RecordKey::<Seq<u8>>::Inode(filesystem_id, entry.child_inode_id)
}

/// The record that a precondition reads, if it reads one.
pub open spec fn precondition_key(
    filesystem_id: FilesystemId,
    precondition: Precondition<Seq<u8>>,
) -> Option<RecordKey<Seq<u8>>> {
    match precondition {
        Precondition::RecordAbsent(key) => Some(key),
        Precondition::RecordRevision { key, .. } => Some(key),
        Precondition::InodeGeneration { inode_id, .. } => Some(
            RecordKey::Inode(filesystem_id, inode_id),
        ),
        Precondition::DataGeneration { inode_id, .. } => Some(
            RecordKey::Inode(filesystem_id, inode_id),
        ),
        Precondition::DirectoryGeneration { inode_id, .. } => Some(
            RecordKey::Inode(filesystem_id, inode_id),
        ),
        Precondition::ContentBase { inode_id, .. } => Some(
            RecordKey::Inode(filesystem_id, inode_id),
        ),
        Precondition::LinkCount { inode_id, .. } => Some(RecordKey::Inode(filesystem_id, inode_id)),
        Precondition::OpenPinCount { .. } => None,
        Precondition::ExactFence(_) => None,
        Precondition::FilesystemPolicyGeneration { .. } => Some(
            RecordKey::Filesystem(filesystem_id),
        ),
    }
}

/// A change needs a record.
pub open spec fn change_needs(
    filesystem_id: FilesystemId,
    change: transition::Change,
    key: RecordKey<Seq<u8>>,
) -> bool {
    key_codec::touches(filesystem_id, change, key) || leans_on(filesystem_id, change, key)
}

/// One of the first changes needs a record.
pub open spec fn changes_need(
    filesystem_id: FilesystemId,
    changes: Seq<transition::Change>,
    count: int,
    key: RecordKey<Seq<u8>>,
) -> bool {
    exists|i: int| 0 <= i < count && change_needs(filesystem_id, #[trigger] changes[i], key)
}

/// One of the first preconditions needs a record.
pub open spec fn preconditions_need(
    filesystem_id: FilesystemId,
    preconditions: Seq<Precondition<Seq<u8>>>,
    count: int,
    key: RecordKey<Seq<u8>>,
) -> bool {
    exists|i: int|
        0 <= i < count && precondition_key(filesystem_id, #[trigger] preconditions[i]) == Some(key)
}

/// A record that the commit protocol itself guards.
pub open spec fn guarded(request: CommitRequest, key: RecordKey<Seq<u8>>) -> bool {
    key == request.ledger_key() || key == RecordKey::<Seq<u8>>::WriterLease(
        request.filesystem_id,
        request.fence.scope,
    )
}

/// A record that a commit locks before it decides.
pub open spec fn locks(request: CommitRequest, key: RecordKey<Seq<u8>>) -> bool {
    &&& !guarded(request, key)
    &&& changes_need(
        request.filesystem_id,
        request.change_seq(),
        request.change_seq().len() as int,
        key,
    ) || preconditions_need(
        request.filesystem_id,
        request.precondition_seq(),
        request.precondition_seq().len() as int,
        key,
    )
}

fn is_guarded(request: &CommitRequest, key: &RecordKey) -> (result: bool)
    ensures
        result == guarded(*request, key@),
{
    key.same(&mutation_key(request)) || key.same(
        &RecordKey::WriterLease(request.filesystem_id, request.fence.scope),
    )
}

/// Adds a record to the locked ones unless the protocol guards it.
fn add_key(request: &CommitRequest, keys: &mut Vec<RecordKey>, added: RecordKey)
    requires
        key::strictly_sorted(key::key_views(old(keys)@)),
    ensures
        key::strictly_sorted(key::key_views(final(keys)@)),
        forall|k: RecordKey<Seq<u8>>| #[trigger]
            key::key_views(final(keys)@).to_set().contains(k) <==> (key::key_views(
                old(keys)@,
            ).to_set().contains(k) || (k == added@ && !guarded(*request, k))),
{
    if !is_guarded(request, &added) {
        insert_sorted(keys, added);
    }
}

fn add_entry_keys(
    request: &CommitRequest,
    keys: &mut Vec<RecordKey>,
    entry: &record::DirectoryEntryRecord,
)
    requires
        key::strictly_sorted(key::key_views(old(keys)@)),
    ensures
        key::strictly_sorted(key::key_views(final(keys)@)),
        forall|k: RecordKey<Seq<u8>>| #[trigger]
            key::key_views(final(keys)@).to_set().contains(k) <==> (key::key_views(
                old(keys)@,
            ).to_set().contains(k) || (entry_leans_on(request.filesystem_id, entry@, k) && !guarded(
                *request,
                k,
            ))),
{
    let filesystem_id = request.filesystem_id;
    add_key(request, keys, RecordKey::Filesystem(filesystem_id));
    add_key(request, keys, RecordKey::Inode(filesystem_id, entry.parent_inode_id));
    add_key(request, keys, RecordKey::Inode(filesystem_id, entry.child_inode_id));
}

fn add_change_keys(request: &CommitRequest, keys: &mut Vec<RecordKey>, change: &StateChange)
    requires
        key::strictly_sorted(key::key_views(old(keys)@)),
    ensures
        key::strictly_sorted(key::key_views(final(keys)@)),
        forall|k: RecordKey<Seq<u8>>| #[trigger]
            key::key_views(final(keys)@).to_set().contains(k) <==> (key::key_views(
                old(keys)@,
            ).to_set().contains(k) || (change_needs(request.filesystem_id, change@, k) && !guarded(
                *request,
                k,
            ))),
{
    let filesystem_id = request.filesystem_id;
    add_key(request, keys, change.primary_key(filesystem_id));
    match change.secondary_key(filesystem_id) {
        Some(secondary) => {
            add_key(request, keys, secondary);
        },
        None => {},
    }
    match change {
        StateChange::Insert { record: StateRecord::DirectoryEntry(entry), .. } => {
            add_entry_keys(request, keys, entry);
        },
        StateChange::Replace { record: StateRecord::DirectoryEntry(entry), .. } => {
            add_entry_keys(request, keys, entry);
        },
        StateChange::Delete(RecordKey::DirectoryEntry(_, parent, _)) => {
            add_key(request, keys, RecordKey::Filesystem(filesystem_id));
            add_key(request, keys, RecordKey::Inode(filesystem_id, *parent));
        },
        _ => {},
    }
}

fn key_of_precondition(filesystem_id: FilesystemId, precondition: &Precondition) -> (result: Option<
    RecordKey,
>)
    ensures
        match result {
            Some(key) => precondition_key(filesystem_id, precondition@) == Some(key@),
            None => precondition_key(filesystem_id, precondition@) is None,
        },
{
    match precondition {
        Precondition::RecordAbsent(key) => Some(key.copied()),
        Precondition::RecordRevision { key, .. } => Some(key.copied()),
        Precondition::InodeGeneration { inode_id, .. } => Some(
            RecordKey::Inode(filesystem_id, *inode_id),
        ),
        Precondition::DataGeneration { inode_id, .. } => Some(
            RecordKey::Inode(filesystem_id, *inode_id),
        ),
        Precondition::DirectoryGeneration { inode_id, .. } => Some(
            RecordKey::Inode(filesystem_id, *inode_id),
        ),
        Precondition::ContentBase { inode_id, .. } => Some(
            RecordKey::Inode(filesystem_id, *inode_id),
        ),
        Precondition::LinkCount { inode_id, .. } => Some(
            RecordKey::Inode(filesystem_id, *inode_id),
        ),
        Precondition::OpenPinCount { .. } => None,
        Precondition::ExactFence(_) => None,
        Precondition::FilesystemPolicyGeneration { .. } => Some(
            RecordKey::Filesystem(filesystem_id),
        ),
    }
}

/// The records that a commit locks, in key order, each once.
pub fn lock_keys(request: &CommitRequest) -> (result: Vec<RecordKey>)
    ensures
        key::strictly_sorted(key::key_views(result@)),
        forall|k: RecordKey<Seq<u8>>| #[trigger]
            key::key_views(result@).contains(k) <==> locks(*request, k),
{
    let filesystem_id = request.filesystem_id;
    let ghost changes = request.change_seq();
    let ghost preconditions = request.precondition_seq();
    let mut keys: Vec<RecordKey> = Vec::new();
    let mut index: usize = 0;
    while index < request.changes.len()
        invariant
            index <= changes.len(),
            filesystem_id == request.filesystem_id,
            changes == request.change_seq(),
            changes.len() == request.changes@.len(),
            key::strictly_sorted(key::key_views(keys@)),
            forall|k: RecordKey<Seq<u8>>| #[trigger]
                key::key_views(keys@).to_set().contains(k) <==> (!guarded(*request, k)
                    && changes_need(filesystem_id, changes, index as int, k)),
        decreases changes.len() - index,
    {
        let ghost before = key::key_views(keys@).to_set();
        assert(changes[index as int] == request.changes@[index as int]@);
        add_change_keys(request, &mut keys, &request.changes[index]);
        proof {
            let at = index as int;
            let after = key::key_views(keys@).to_set();
            assert forall|k: RecordKey<Seq<u8>>| #[trigger] after.contains(k) <==> (!guarded(
                *request,
                k,
            ) && changes_need(filesystem_id, changes, at + 1, k)) by {
                assert(before.contains(k) <==> (!guarded(*request, k) && changes_need(
                    filesystem_id,
                    changes,
                    at,
                    k,
                )));
                if changes_need(filesystem_id, changes, at, k) {
                    let i = choose|i: int|
                        0 <= i < at && change_needs(filesystem_id, #[trigger] changes[i], k);
                    assert(change_needs(filesystem_id, changes[i], k));
                }
                if change_needs(filesystem_id, changes[at], k) {
                    assert(changes_need(filesystem_id, changes, at + 1, k));
                }
            }
        }
        index = index + 1;
    }
    let mut position: usize = 0;
    while position < request.preconditions.len()
        invariant
            position <= preconditions.len(),
            index == changes.len(),
            filesystem_id == request.filesystem_id,
            changes == request.change_seq(),
            preconditions == request.precondition_seq(),
            preconditions.len() == request.preconditions@.len(),
            key::strictly_sorted(key::key_views(keys@)),
            forall|k: RecordKey<Seq<u8>>| #[trigger]
                key::key_views(keys@).to_set().contains(k) <==> (!guarded(*request, k) && (
                changes_need(filesystem_id, changes, index as int, k) || preconditions_need(
                    filesystem_id,
                    preconditions,
                    position as int,
                    k,
                ))),
        decreases preconditions.len() - position,
    {
        let ghost before = key::key_views(keys@).to_set();
        assert(preconditions[position as int] == request.preconditions@[position as int]@);
        match key_of_precondition(filesystem_id, &request.preconditions[position]) {
            Some(key) => {
                add_key(request, &mut keys, key);
            },
            None => {},
        }
        proof {
            let at = position as int;
            let after = key::key_views(keys@).to_set();
            assert forall|k: RecordKey<Seq<u8>>| #[trigger] after.contains(k) <==> (!guarded(
                *request,
                k,
            ) && (changes_need(filesystem_id, changes, index as int, k) || preconditions_need(
                filesystem_id,
                preconditions,
                at + 1,
                k,
            ))) by {
                assert(before.contains(k) <==> (!guarded(*request, k) && (changes_need(
                    filesystem_id,
                    changes,
                    index as int,
                    k,
                ) || preconditions_need(filesystem_id, preconditions, at, k))));
                if preconditions_need(filesystem_id, preconditions, at, k) {
                    let i = choose|i: int|
                        0 <= i < at && precondition_key(
                            filesystem_id,
                            #[trigger] preconditions[i],
                        ) == Some(k);
                    assert(precondition_key(filesystem_id, preconditions[i]) == Some(k));
                }
                if precondition_key(filesystem_id, preconditions[at]) == Some(k) {
                    assert(preconditions_need(filesystem_id, preconditions, at + 1, k));
                }
            }
        }
        position = position + 1;
    }
    proof {
        let all = key::key_views(keys@);
        assert forall|k: RecordKey<Seq<u8>>| #[trigger] all.contains(k) <==> locks(*request, k) by {
            assert(all.to_set().contains(k) == all.contains(k));
        }
    }
    keys
}

/// The content that an inode has.
pub open spec fn content_base(inode: InodeRecord<Seq<u8>, Seq<char>>) -> Option<ContentBase> {
    match inode.data {
        record::InodeData::RegularFile { content_file_id, data_generation, .. } => Some(
            ContentBase { file_id: content_file_id, generation: data_generation },
        ),
        _ => None,
    }
}

/// An inode is there and meets a condition, or the conflict of one that does
/// not.
pub open spec fn unless(
    holds: bool,
    kind: CommitConflictKind<Seq<u8>>,
) -> Option<CommitConflictKind<Seq<u8>>> {
    if holds {
        None
    } else {
        Some(kind)
    }
}

/// The conflict of a precondition that no query answers.
pub open spec fn precondition_conflict(
    request: CommitRequest,
    records: Records,
    precondition: Precondition<Seq<u8>>,
) -> Option<CommitConflictKind<Seq<u8>>> {
    let filesystem_id = request.filesystem_id;
    match precondition {
        Precondition::RecordAbsent(key) => unless(
            table::present(records, key) is None,
            CommitConflictKind::RecordPresent(key),
        ),
        Precondition::RecordRevision { key, expected } => match table::present(records, key) {
            None => Some(CommitConflictKind::RecordMissing(key)),
            Some(stored) => unless(
                record::record_revision(stored) == expected,
                CommitConflictKind::RecordRevision {
                    key,
                    expected,
                    actual: record::record_revision(stored),
                },
            ),
        },
        Precondition::InodeGeneration { inode_id, expected } => unless(
            match table::inode_at(records, filesystem_id, inode_id) {
                Some(inode) => inode.inode_generation == expected,
                None => false,
            },
            CommitConflictKind::InodeGeneration,
        ),
        Precondition::DataGeneration { inode_id, expected } => unless(
            match table::inode_at(records, filesystem_id, inode_id) {
                Some(inode) => record::data_generation(inode) == expected,
                None => false,
            },
            CommitConflictKind::DataGeneration,
        ),
        Precondition::DirectoryGeneration { inode_id, expected } => unless(
            match table::inode_at(records, filesystem_id, inode_id) {
                Some(inode) => record::directory_generation(inode) == Some(expected),
                None => false,
            },
            CommitConflictKind::DirectoryGeneration,
        ),
        Precondition::ContentBase { inode_id, expected } => unless(
            match table::inode_at(records, filesystem_id, inode_id) {
                Some(inode) => content_base(inode) == Some(expected),
                None => false,
            },
            CommitConflictKind::ContentBase,
        ),
        Precondition::LinkCount { inode_id, expected } => unless(
            match table::inode_at(records, filesystem_id, inode_id) {
                Some(inode) => inode.link_count == expected,
                None => false,
            },
            CommitConflictKind::LinkCount,
        ),
        Precondition::OpenPinCount { .. } => None,
        Precondition::FilesystemPolicyGeneration { expected } => unless(
            match transition::header(records, filesystem_id) {
                Some(filesystem) => filesystem.policy_generation == expected,
                None => false,
            },
            CommitConflictKind::FilesystemPolicyGeneration,
        ),
        Precondition::ExactFence(fence) => unless(
            fence == request.fence,
            CommitConflictKind::ExactFence,
        ),
    }
}

fn content_base_of(inode: &InodeRecord) -> (result: Option<ContentBase>)
    ensures
        result == content_base(inode@),
{
    match &inode.data {
        record::InodeData::RegularFile { content_file_id, data_generation, .. } => Some(
            ContentBase { file_id: *content_file_id, generation: *data_generation },
        ),
        _ => None,
    }
}

fn conflict_unless(holds: bool, kind: CommitConflictKind) -> (result: Option<CommitConflictKind>)
    ensures
        match result {
            Some(conflict) => unless(holds, kind@) == Some(conflict@),
            None => unless(holds, kind@) is None,
        },
{
    if holds {
        None
    } else {
        Some(kind)
    }
}

fn conflict_of(request: &CommitRequest, records: &RecordTable, precondition: &Precondition) -> (result:
    Option<CommitConflictKind>)
    ensures
        match result {
            Some(conflict) => precondition_conflict(*request, records@, precondition@) == Some(
                conflict@,
            ),
            None => precondition_conflict(*request, records@, precondition@) is None,
        },
{
    let filesystem_id = request.filesystem_id;
    match precondition {
        Precondition::RecordAbsent(key) => conflict_unless(
            records.get(key).is_none(),
            CommitConflictKind::RecordPresent(key.copied()),
        ),
        Precondition::RecordRevision { key, expected } => match records.get(key) {
            None => Some(CommitConflictKind::RecordMissing(key.copied())),
            Some(stored) => {
                let actual = stored.revision();
                conflict_unless(
                    actual == *expected,
                    CommitConflictKind::RecordRevision {
                        key: key.copied(),
                        expected: *expected,
                        actual,
                    },
                )
            },
        },
        Precondition::InodeGeneration { inode_id, expected } => conflict_unless(
            match records.inode(filesystem_id, *inode_id) {
                Some(inode) => inode.inode_generation == *expected,
                None => false,
            },
            CommitConflictKind::InodeGeneration,
        ),
        Precondition::DataGeneration { inode_id, expected } => conflict_unless(
            match records.inode(filesystem_id, *inode_id) {
                Some(inode) => inode.data_generation() == *expected,
                None => false,
            },
            CommitConflictKind::DataGeneration,
        ),
        Precondition::DirectoryGeneration { inode_id, expected } => conflict_unless(
            match records.inode(filesystem_id, *inode_id) {
                Some(inode) => match inode.directory_generation() {
                    Some(generation) => generation == *expected,
                    None => false,
                },
                None => false,
            },
            CommitConflictKind::DirectoryGeneration,
        ),
        Precondition::ContentBase { inode_id, expected } => conflict_unless(
            match records.inode(filesystem_id, *inode_id) {
                Some(inode) => match content_base_of(inode) {
                    Some(base) => base == *expected,
                    None => false,
                },
                None => false,
            },
            CommitConflictKind::ContentBase,
        ),
        Precondition::LinkCount { inode_id, expected } => conflict_unless(
            match records.inode(filesystem_id, *inode_id) {
                Some(inode) => inode.link_count == *expected,
                None => false,
            },
            CommitConflictKind::LinkCount,
        ),
        Precondition::OpenPinCount { .. } => None,
        Precondition::FilesystemPolicyGeneration { expected } => conflict_unless(
            match records.get(&RecordKey::Filesystem(filesystem_id)) {
                Some(StateRecord::Filesystem(filesystem)) => filesystem.policy_generation
                    == *expected,
                _ => false,
            },
            CommitConflictKind::FilesystemPolicyGeneration,
        ),
        Precondition::ExactFence(fence) => conflict_unless(
            *fence == request.fence,
            CommitConflictKind::ExactFence,
        ),
    }
}

/// How far preconditions have been evaluated.
#[derive(Clone, Debug, PartialEq, Eq)]
pub enum PreconditionProgress<B = Vec<u8>> {
    /// All hold.
    Hold,
    /// The first that does not hold.
    Conflict(CommitConflict<B>),
    /// The precondition at an index needs the number of pins of an inode.
    CountPins {
        /// Index of the precondition.
        index: usize,
        /// Inode whose pins count.
        inode_id: InodeId,
    },
}

impl View for PreconditionProgress<Vec<u8>> {
    type V = PreconditionProgress<Seq<u8>>;

    open spec fn view(&self) -> PreconditionProgress<Seq<u8>> {
        match self {
            PreconditionProgress::Hold => PreconditionProgress::Hold,
            PreconditionProgress::Conflict(conflict) => PreconditionProgress::Conflict(conflict@),
            PreconditionProgress::CountPins { index, inode_id } => PreconditionProgress::CountPins {
                index: *index,
                inode_id: *inode_id,
            },
        }
    }
}

/// The first precondition from an index on that does not hold, or that needs
/// a count of pins.
pub open spec fn first_conflict(
    request: CommitRequest,
    records: Records,
    start: int,
) -> PreconditionProgress<Seq<u8>>
    decreases request.precondition_seq().len() - start,
{
    let preconditions = request.precondition_seq();
    if start >= preconditions.len() {
        PreconditionProgress::Hold
    } else {
        match preconditions[start] {
            Precondition::OpenPinCount { inode_id, .. } => PreconditionProgress::CountPins {
                index: start as usize,
                inode_id,
            },
            other => match precondition_conflict(request, records, other) {
                Some(kind) => PreconditionProgress::Conflict(
                    CommitConflict { precondition_index: start as usize, kind },
                ),
                None => first_conflict(request, records, start + 1),
            },
        }
    }
}

/// Evaluates preconditions in order, from an index on.
pub fn evaluate_preconditions(request: &CommitRequest, records: &RecordTable, start: usize) -> (result:
    PreconditionProgress)
    ensures
        result@ == first_conflict(*request, records@, start as int),
{
    let ghost preconditions = request.precondition_seq();
    let mut index: usize = start;
    while index < request.preconditions.len()
        invariant
            preconditions == request.precondition_seq(),
            preconditions.len() == request.preconditions@.len(),
            first_conflict(*request, records@, start as int) == first_conflict(
                *request,
                records@,
                index as int,
            ),
        decreases preconditions.len() - index,
    {
        let precondition = &request.preconditions[index];
        assert(preconditions[index as int] == precondition@);
        match precondition {
            Precondition::OpenPinCount { inode_id, .. } => {
                return PreconditionProgress::CountPins { index, inode_id: *inode_id };
            },
            _ => {},
        }
        match conflict_of(request, records, precondition) {
            Some(kind) => {
                return PreconditionProgress::Conflict(
                    CommitConflict { precondition_index: index, kind },
                );
            },
            None => {},
        }
        index = index + 1;
    }
    PreconditionProgress::Hold
}

/// Text that counts the pins of an inode.
pub const COUNT_PINS_SQL: &'static str =
    "SELECT pg_catalog.count(*)::numeric(20, 0)::text FROM \"public\".\"w9pt_fs_state_open_pins\" WHERE \"filesystem_id\" = $1 AND \"inode_id\" = $2";

/// The statement that counts the pins of an inode.
pub open spec fn count_pins(filesystem_id: FilesystemId, inode_id: InodeId) -> StatementView {
    statement::text_only(COUNT_PINS_SQL@).with_id(filesystem_id.value).with_id(inode_id.value)
}

/// The statement that counts the pins of an inode.
pub fn count_pins_statement(filesystem_id: FilesystemId, inode_id: InodeId) -> (result: PostgresQuery)
    ensures
        result@ == count_pins(filesystem_id, inode_id),
{
    query(COUNT_PINS_SQL).bind_id(filesystem_id.value).bind_id(inode_id.value)
}

/// How far preconditions hold once the pins that the one at an index asked for
/// have been counted.
pub open spec fn pin_progress(
    request: CommitRequest,
    records: Records,
    index: int,
    count: u64,
) -> PreconditionProgress<Seq<u8>> {
    match request.precondition_seq()[index] {
        Precondition::OpenPinCount { expected, .. } => if count == expected {
            first_conflict(request, records, index + 1)
        } else {
            PreconditionProgress::Conflict(
                CommitConflict {
                    precondition_index: index as usize,
                    kind: CommitConflictKind::OpenPinCount,
                },
            )
        },
        _ => first_conflict(request, records, index + 1),
    }
}

/// What a count of pins says of the precondition at an index.
pub open spec fn pin_answer(
    request: CommitRequest,
    records: Records,
    index: int,
    count: Seq<char>,
) -> Result<PreconditionProgress<Seq<u8>>, StateFailure> {
    if !numeric::parses(count) {
        Err(number_corruption("open_pin_count", count))
    } else {
        Ok(pin_progress(request, records, index, numeric::parsed(count)))
    }
}

/// Goes on after the pins that the precondition at an index asked for have
/// been counted.
pub fn resume_preconditions(
    request: &CommitRequest,
    records: &RecordTable,
    index: usize,
    count: u64,
) -> (result: PreconditionProgress)
    requires
        index < request.preconditions@.len(),
    ensures
        result@ == pin_progress(*request, records@, index as int, count),
{
    let length: usize = request.preconditions.len();
    assert(index < length);
    assert(request.precondition_seq()[index as int] == request.preconditions@[index as int]@);
    match &request.preconditions[index] {
        Precondition::OpenPinCount { expected, .. } => {
            if count != *expected {
                return PreconditionProgress::Conflict(
                    CommitConflict {
                        precondition_index: index,
                        kind: CommitConflictKind::OpenPinCount,
                    },
                );
            }
        },
        _ => {},
    }
    evaluate_preconditions(request, records, index + 1)
}

/// Where all preconditions from an index on hold, none of them conflicts and
/// none counts pins; where one conflicts, all before it hold.
pub proof fn law_first_conflict(request: CommitRequest, records: Records, start: int, index: int)
    requires
        0 <= start <= index < request.precondition_seq().len(),
        request.precondition_seq().len() <= usize::MAX,
    ensures
        match first_conflict(request, records, start) {
            PreconditionProgress::Hold => precondition_conflict(
                request,
                records,
                request.precondition_seq()[index],
            ) is None,
            PreconditionProgress::Conflict(conflict) => index < conflict.precondition_index
                ==> precondition_conflict(request, records, request.precondition_seq()[index])
                is None,
            PreconditionProgress::CountPins { index: stop, .. } => index < stop
                ==> precondition_conflict(request, records, request.precondition_seq()[index])
                is None,
        },
    decreases request.precondition_seq().len() - start,
{
    if start < index {
        law_first_conflict(request, records, start + 1, index);
    } else if start + 1 < request.precondition_seq().len() {
        lemma_conflict_index(request, records, start + 1);
    }
}

proof fn lemma_conflict_index(request: CommitRequest, records: Records, start: int)
    requires
        0 <= start <= request.precondition_seq().len(),
        request.precondition_seq().len() <= usize::MAX,
    ensures
        match first_conflict(request, records, start) {
            PreconditionProgress::Hold => true,
            PreconditionProgress::Conflict(conflict) => start <= conflict.precondition_index
                < request.precondition_seq().len(),
            PreconditionProgress::CountPins { index, .. } => start <= index
                < request.precondition_seq().len(),
        },
    decreases request.precondition_seq().len() - start,
{
    if start < request.precondition_seq().len() {
        lemma_conflict_index(request, records, start + 1);
    }
}

/// Every record that a change touches is locked first, unless the protocol
/// itself guards it.
pub proof fn law_touched_records_are_locked(
    request: CommitRequest,
    index: int,
    key: RecordKey<Seq<u8>>,
)
    requires
        0 <= index < request.change_seq().len(),
        key_codec::touches(request.filesystem_id, request.change_seq()[index], key),
        !guarded(request, key),
    ensures
        locks(request, key),
{
    assert(change_needs(request.filesystem_id, request.change_seq()[index], key));
}

} // verus!
