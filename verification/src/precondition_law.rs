//! What the evaluation of preconditions says of the stored fields.
use vstd::prelude::*;

use crate::bytes;
use crate::commit;
use crate::commit::CommitAttempt;
use crate::ids::{FilesystemId, InodeId, RecordRevision};
use crate::key::RecordKey;
use crate::precondition;
use crate::precondition::PreconditionProgress;
use crate::record::{DirectoryEntryRecord, InodeData, StateRecord};
use crate::request::{CommitConflictKind, CommitRequest, Precondition, StateChange};
use crate::statement::ValueView;
use crate::table::Records;
use crate::transition;

verus! {

/// Exactly this record is known to stand under a key.
pub open spec fn stands(
    records: Records,
    key: RecordKey<Seq<u8>>,
    stored: StateRecord<Seq<u8>, Seq<char>>,
) -> bool {
    records.dom().contains(key) && records[key] == Some(stored)
}

/// A stored record carries this revision.
pub open spec fn carries_revision(
    stored: StateRecord<Seq<u8>, Seq<char>>,
    revision: RecordRevision,
) -> bool {
    match stored {
        StateRecord::Filesystem(r) => r.record_revision == revision,
        StateRecord::Inode(r) => r.revision == revision,
        StateRecord::ContentMetadata(r) => r.revision == revision,
        StateRecord::DirectoryEntry(r) => r.revision == revision,
        StateRecord::Open(r) => r.revision == revision,
        StateRecord::OpenPin(r) => r.revision == revision,
        StateRecord::Orphan(r) => r.revision == revision,
        StateRecord::Lock(r) => r.revision == revision,
        StateRecord::Xattr(r) => r.revision == revision,
        StateRecord::XattrStaging(r) => r.revision == revision,
        StateRecord::Mutation(r) => r.revision == revision,
        StateRecord::WriterLease(r) => r.revision == revision,
    }
}

/// The stored fields are exactly those that a precondition demands. One on open
/// pins demands nothing of the records.
pub open spec fn fields_agree(
    request: CommitRequest,
    records: Records,
    precondition: Precondition<Seq<u8>>,
) -> bool {
    let filesystem_id = request.filesystem_id;
    match precondition {
        Precondition::RecordAbsent(key) => !(records.dom().contains(key) && records[key] is Some),
        Precondition::RecordRevision { key, expected } => exists|stored: StateRecord<
            Seq<u8>,
            Seq<char>,
        >| #[trigger]
            stands(records, key, stored) && carries_revision(stored, expected),
        Precondition::InodeGeneration { inode_id, expected } => {
            let key = RecordKey::Inode(filesystem_id, inode_id);
            &&& records.dom().contains(key)
            &&& records[key] matches Some(StateRecord::Inode(inode))
            &&& inode.inode_generation.value == expected.value
        },
        Precondition::DataGeneration { inode_id, expected } => {
            let key = RecordKey::Inode(filesystem_id, inode_id);
            &&& records.dom().contains(key)
            &&& records[key] matches Some(StateRecord::Inode(inode))
            &&& match inode.data {
                InodeData::RegularFile { data_generation, .. } => expected == Some(data_generation),
                _ => expected is None,
            }
        },
        Precondition::DirectoryGeneration { inode_id, expected } => {
            let key = RecordKey::Inode(filesystem_id, inode_id);
            &&& records.dom().contains(key)
            &&& records[key] matches Some(StateRecord::Inode(inode))
            &&& inode.data matches InodeData::Directory { generation, .. }
            &&& generation.value == expected.value
        },
        Precondition::ContentBase { inode_id, expected } => {
            let key = RecordKey::Inode(filesystem_id, inode_id);
            &&& records.dom().contains(key)
            &&& records[key] matches Some(StateRecord::Inode(inode))
            &&& inode.data matches InodeData::RegularFile { content_file_id, data_generation, .. }
            &&& content_file_id.value == expected.file_id.value
            &&& data_generation == expected.generation
        },
        Precondition::LinkCount { inode_id, expected } => {
            let key = RecordKey::Inode(filesystem_id, inode_id);
            &&& records.dom().contains(key)
            &&& records[key] matches Some(StateRecord::Inode(inode))
            &&& inode.link_count == expected
        },
        Precondition::OpenPinCount { .. } => true,
        Precondition::FilesystemPolicyGeneration { expected } => {
            let key = RecordKey::Filesystem(filesystem_id);
            &&& records.dom().contains(key)
            &&& records[key] matches Some(StateRecord::Filesystem(header))
            &&& header.policy_generation == expected
        },
        Precondition::ExactFence(fence) => {
            &&& fence.scope.value == request.fence.scope.value
            &&& fence.holder.value == request.fence.holder.value
            &&& fence.lease_id.value == request.fence.lease_id.value
            &&& fence.fencing_token.value == request.fence.fencing_token.value
        },
    }
}

/// A conflict tells of exactly this precondition why it does not hold.
pub open spec fn tells(
    records: Records,
    precondition: Precondition<Seq<u8>>,
    kind: CommitConflictKind<Seq<u8>>,
) -> bool {
    match precondition {
        Precondition::RecordAbsent(key) => kind == CommitConflictKind::<Seq<u8>>::RecordPresent(
            key,
        ),
        Precondition::RecordRevision { key, expected } => match kind {
            CommitConflictKind::RecordMissing(missing) => {
                &&& missing == key
                &&& !(records.dom().contains(key) && records[key] is Some)
            },
            CommitConflictKind::RecordRevision { key: named, expected: demanded, actual } => {
                &&& named == key
                &&& demanded == expected
                &&& actual != expected
                &&& records.dom().contains(key)
                &&& records[key] matches Some(stored)
                &&& carries_revision(stored, actual)
            },
            _ => false,
        },
        Precondition::InodeGeneration { .. } => kind is InodeGeneration,
        Precondition::DataGeneration { .. } => kind is DataGeneration,
        Precondition::DirectoryGeneration { .. } => kind is DirectoryGeneration,
        Precondition::ContentBase { .. } => kind is ContentBase,
        Precondition::LinkCount { .. } => kind is LinkCount,
        Precondition::OpenPinCount { .. } => kind is OpenPinCount,
        Precondition::FilesystemPolicyGeneration { .. } => kind is FilesystemPolicyGeneration,
        Precondition::ExactFence(_) => kind is ExactFence,
    }
}

proof fn lemma_fields_agree(
    request: CommitRequest,
    records: Records,
    precondition: Precondition<Seq<u8>>,
)
    ensures
        match precondition::precondition_conflict(request, records, precondition) {
            None => fields_agree(request, records, precondition),
            Some(kind) => !fields_agree(request, records, precondition) && tells(
                records,
                precondition,
                kind,
            ),
        },
{
    match precondition {
        Precondition::RecordRevision { key, expected } => {
            if records.dom().contains(key) && records[key] is Some {
                let stored = records[key]->0;
                assert(stands(records, key, stored));
                assert forall|other: StateRecord<Seq<u8>, Seq<char>>| #[trigger]
                    stands(records, key, other) implies other == stored by {}
            }
        },
        _ => {},
    }
}

/// Preconditions hold exactly where the stored fields are those that they
/// demand, and the first that does not is the one a conflict names.
///
/// Where all from an index on hold, each of them agrees with the stored fields
/// and none asks for pins. Where one conflicts, every one before it agrees, the
/// named one does not, and the conflict is the one of its own kind. Where one
/// asks for pins, every one before it agrees, and it asks for the pins of its
/// own inode.
pub proof fn law_preconditions_hold_on_the_stored_fields(
    request: CommitRequest,
    records: Records,
    start: int,
    index: int,
)
    requires
        0 <= start <= index < request.precondition_seq().len(),
        request.precondition_seq().len() <= usize::MAX,
    ensures
        ({
            let demanded = request.precondition_seq();
            match precondition::first_conflict(request, records, start) {
                PreconditionProgress::Hold => {
                    &&& fields_agree(request, records, demanded[index])
                    &&& !(demanded[index] is OpenPinCount)
                },
                PreconditionProgress::Conflict(conflict) => {
                    let at = conflict.precondition_index as int;
                    &&& start <= at < demanded.len()
                    &&& !fields_agree(request, records, demanded[at])
                    &&& tells(records, demanded[at], conflict.kind)
                    &&& index < at ==> fields_agree(request, records, demanded[index])
                        && !(demanded[index] is OpenPinCount)
                },
                PreconditionProgress::CountPins { index: at, inode_id } => {
                    &&& start <= at < demanded.len()
                    &&& demanded[at as int] matches Precondition::OpenPinCount {
                        inode_id: named,
                        ..
                    }
                    &&& named == inode_id
                    &&& index < at ==> fields_agree(request, records, demanded[index])
                        && !(demanded[index] is OpenPinCount)
                },
            }
        }),
    decreases request.precondition_seq().len() - start,
{
    lemma_fields_agree(request, records, request.precondition_seq()[start]);
    if start < index {
        law_preconditions_hold_on_the_stored_fields(request, records, start + 1, index);
    } else if start + 1 < request.precondition_seq().len() {
        law_preconditions_hold_on_the_stored_fields(request, records, start + 1, start + 1);
    }
}

/// A count of pins answers the precondition that asked for it: with the
/// demanded number the evaluation goes on behind it, with any other it ends
/// there in a conflict about pins.
pub proof fn law_counted_pins_are_exact(
    request: CommitRequest,
    records: Records,
    index: int,
    count: u64,
)
    requires
        0 <= index < request.precondition_seq().len(),
        request.precondition_seq().len() <= usize::MAX,
        request.precondition_seq()[index] is OpenPinCount,
    ensures
        ({
            let expected = request.precondition_seq()[index]->OpenPinCount_expected;
            let progress = precondition::pin_progress(request, records, index, count);
            &&& count == expected ==> progress == precondition::first_conflict(
                request,
                records,
                index + 1,
            )
            &&& count != expected ==> {
                &&& progress matches PreconditionProgress::Conflict(conflict)
                &&& conflict.precondition_index == index
                &&& conflict.kind is OpenPinCount
            }
        }),
{
}

/// Pins are counted where they stand: among the pins of the request's filesystem
/// and of the inode that the precondition names.
pub proof fn law_pins_are_counted_of_the_named_inode(
    filesystem_id: FilesystemId,
    inode_id: InodeId,
)
    ensures
        precondition::count_pins(filesystem_id, inode_id).sql
            == "SELECT pg_catalog.count(*)::numeric(20, 0)::text FROM \"public\".\"w9pt_fs_state_open_pins\" WHERE \"filesystem_id\" = $1 AND \"inode_id\" = $2"@,
        precondition::count_pins(filesystem_id, inode_id).values == seq![
            ValueView::Bytes(Some(bytes::id_bytes(filesystem_id.value))),
            ValueView::Bytes(Some(bytes::id_bytes(inode_id.value))),
        ],
{
}

/// Whatever an attempt writes, the records that it locked and read agree field
/// by field with every precondition of its request.
pub proof fn law_written_on_agreed_fields(attempt: CommitAttempt, index: int)
    requires
        attempt.well_formed(),
        commit::has_started_writing(attempt.phase),
        0 <= index < attempt.request.precondition_seq().len(),
    ensures
        fields_agree(
            attempt.request,
            attempt.records@,
            attempt.request.precondition_seq()[index],
        ),
{
    commit::law_preconditions_hold_before_writes(attempt, index);
    lemma_fields_agree(
        attempt.request,
        attempt.records@,
        attempt.request.precondition_seq()[index],
    );
}

/// A written directory entry reads its parent, its child and the header.
pub open spec fn entry_reads(
    filesystem_id: FilesystemId,
    entry: DirectoryEntryRecord<Seq<u8>>,
    key: RecordKey<Seq<u8>>,
) -> bool {
    match key {
        RecordKey::Filesystem(f) => f == filesystem_id,
        RecordKey::Inode(f, inode_id) => f == filesystem_id && (inode_id == entry.parent_inode_id
            || inode_id == entry.child_inode_id),
        _ => false,
    }
}

/// A change writes the record under a key, or reads it to check what it
/// writes.
pub open spec fn reads_or_writes(
    filesystem_id: FilesystemId,
    change: transition::Change,
    key: RecordKey<Seq<u8>>,
) -> bool {
    match change {
        StateChange::Insert { key: named, record } => named == key || (record matches
            StateRecord::DirectoryEntry(entry) && entry_reads(filesystem_id, entry, key)),
        StateChange::Replace { key: named, record } => named == key || (record matches
            StateRecord::DirectoryEntry(entry) && entry_reads(filesystem_id, entry, key)),
        StateChange::Delete(named) => named == key || (named matches RecordKey::DirectoryEntry(
            _,
            parent,
            _,
        ) && match key {
            RecordKey::Filesystem(f) => f == filesystem_id,
            RecordKey::Inode(f, inode_id) => f == filesystem_id && inode_id == parent,
            _ => false,
        }),
        StateChange::AdvanceDirectoryCookie { .. } => key == RecordKey::<Seq<u8>>::Filesystem(
            filesystem_id,
        ),
        StateChange::AdvanceQidPath { .. } => key == RecordKey::<Seq<u8>>::Filesystem(
            filesystem_id,
        ),
        StateChange::BumpFilesystemPolicyGeneration => key == RecordKey::<Seq<u8>>::Filesystem(
            filesystem_id,
        ),
        StateChange::BumpInodeGeneration(inode_id) => key == RecordKey::<Seq<u8>>::Inode(
            filesystem_id,
            inode_id,
        ),
        StateChange::BumpDirectoryGeneration(inode_id) => key == RecordKey::<Seq<u8>>::Inode(
            filesystem_id,
            inode_id,
        ),
        StateChange::AdjustLinkCount { inode_id, .. } => key == RecordKey::<Seq<u8>>::Inode(
            filesystem_id,
            inode_id,
        ),
        StateChange::AdjustOpenPinCount { inode_id, .. } => key == RecordKey::<Seq<u8>>::Orphan(
            filesystem_id,
            inode_id,
        ),
        StateChange::BumpLockGeneration { inode_id, lock_id } => key == RecordKey::<Seq<u8>>::Lock(
            filesystem_id,
            inode_id,
            lock_id,
        ),
        StateChange::PublishContent(publication) => key == RecordKey::<Seq<u8>>::Inode(
            filesystem_id,
            publication.inode_id,
        ),
        StateChange::RewrapContentMetadata(rewrap) => key == RecordKey::<
            Seq<u8>,
        >::ContentMetadata(filesystem_id, rewrap.content_file_id),
        StateChange::PublishXattrStaging(publication) => {
            ||| key == RecordKey::<Seq<u8>>::XattrStaging(filesystem_id, publication.staging_id)
            ||| key == RecordKey::<Seq<u8>>::Xattr(
                filesystem_id,
                publication.inode_id,
                publication.name,
            )
        },
    }
}

/// A precondition speaks of the record under a key.
pub open spec fn speaks_of(
    filesystem_id: FilesystemId,
    precondition: Precondition<Seq<u8>>,
    key: RecordKey<Seq<u8>>,
) -> bool {
    match precondition {
        Precondition::RecordAbsent(named) => named == key,
        Precondition::RecordRevision { key: named, .. } => named == key,
        Precondition::InodeGeneration { inode_id, .. } => key == RecordKey::<Seq<u8>>::Inode(
            filesystem_id,
            inode_id,
        ),
        Precondition::DataGeneration { inode_id, .. } => key == RecordKey::<Seq<u8>>::Inode(
            filesystem_id,
            inode_id,
        ),
        Precondition::DirectoryGeneration { inode_id, .. } => key == RecordKey::<Seq<u8>>::Inode(
            filesystem_id,
            inode_id,
        ),
        Precondition::ContentBase { inode_id, .. } => key == RecordKey::<Seq<u8>>::Inode(
            filesystem_id,
            inode_id,
        ),
        Precondition::LinkCount { inode_id, .. } => key == RecordKey::<Seq<u8>>::Inode(
            filesystem_id,
            inode_id,
        ),
        Precondition::OpenPinCount { .. } => false,
        Precondition::FilesystemPolicyGeneration { .. } => key == RecordKey::<
            Seq<u8>,
        >::Filesystem(filesystem_id),
        Precondition::ExactFence(_) => false,
    }
}

/// The record is the request's own ledger entry or the lease of its fence,
/// which are locked before all others.
pub open spec fn is_own_guard(request: CommitRequest, key: RecordKey<Seq<u8>>) -> bool {
    match key {
        RecordKey::Mutation(f, mutation_id) => f == request.filesystem_id && mutation_id
            == request.mutation.mutation_id,
        RecordKey::WriterLease(f, scope) => f == request.filesystem_id && scope
            == request.fence.scope,
        _ => false,
    }
}

/// A request locks exactly the records that one of its changes reads or writes
/// or that one of its preconditions speaks of, without its own ledger entry and
/// the lease of its fence.
pub proof fn law_locked_records_are_those_needed(request: CommitRequest, key: RecordKey<Seq<u8>>)
    ensures
        precondition::locks(request, key) <==> {
            &&& !is_own_guard(request, key)
            &&& {
                ||| exists|i: int|
                    0 <= i < request.change_seq().len() && reads_or_writes(
                        request.filesystem_id,
                        #[trigger] request.change_seq()[i],
                        key,
                    )
                ||| exists|i: int|
                    0 <= i < request.precondition_seq().len() && speaks_of(
                        request.filesystem_id,
                        #[trigger] request.precondition_seq()[i],
                        key,
                    )
            }
        },
{
    let filesystem_id = request.filesystem_id;
    let changes = request.change_seq();
    let preconditions = request.precondition_seq();
    assert(precondition::guarded(request, key) == is_own_guard(request, key));
    assert forall|i: int| 0 <= i < changes.len() implies reads_or_writes(
        filesystem_id,
        #[trigger] changes[i],
        key,
    ) == precondition::change_needs(filesystem_id, changes[i], key) by {
        match changes[i] {
            StateChange::Insert { record: StateRecord::DirectoryEntry(entry), .. } => {
                assert(entry_reads(filesystem_id, entry, key) == precondition::entry_leans_on(
                    filesystem_id,
                    entry,
                    key,
                ));
            },
            StateChange::Replace { record: StateRecord::DirectoryEntry(entry), .. } => {
                assert(entry_reads(filesystem_id, entry, key) == precondition::entry_leans_on(
                    filesystem_id,
                    entry,
                    key,
                ));
            },
            _ => {},
        }
    }
    assert forall|i: int| 0 <= i < preconditions.len() implies speaks_of(
        filesystem_id,
        #[trigger] preconditions[i],
        key,
    ) == (precondition::precondition_key(filesystem_id, preconditions[i]) == Some(key)) by {}
}

} // verus!
