//! What a request touches, what it is charged and what a retained mutation
//! answers to it.
use vstd::prelude::*;

use crate::commit;
use crate::estimate;
use crate::ids::FilesystemId;
use crate::key;
use crate::key::RecordKey;
use crate::key_codec;
use crate::lease::{
    AcquireLeaseOutcome, LeaseOperationOutcome, LeaseRejection, LeaseRequest, RenewLeaseOutcome,
};
use crate::lease_attempt;
use crate::limits::StateLimits;
use crate::precondition;
use crate::precondition::MutationReplay;
use crate::publish;
use crate::record::{InodeData, StateRecord};
use crate::request::{
    CommitOutcome, CommitRequest, MalformedCommit, Precondition, StateChange,
};

verus! {

/// A change writes, moves or removes the record under a key.
pub open spec fn alters(
    filesystem_id: FilesystemId,
    change: StateChange<Seq<u8>, Seq<char>>,
    target: RecordKey<Seq<u8>>,
) -> bool {
    ||| change matches StateChange::Insert { key, .. } && key == target
    ||| change matches StateChange::Replace { key, .. } && key == target
    ||| change matches StateChange::Delete(key) && key == target
    ||| target == RecordKey::<Seq<u8>>::Filesystem(filesystem_id) && (change
        is AdvanceDirectoryCookie || change is AdvanceQidPath || change
        is BumpFilesystemPolicyGeneration)
    ||| change matches StateChange::BumpInodeGeneration(inode) && target == RecordKey::<
        Seq<u8>,
    >::Inode(filesystem_id, inode)
    ||| change matches StateChange::BumpDirectoryGeneration(inode) && target == RecordKey::<
        Seq<u8>,
    >::Inode(filesystem_id, inode)
    ||| change matches StateChange::AdjustLinkCount { inode_id, .. } && target == RecordKey::<
        Seq<u8>,
    >::Inode(filesystem_id, inode_id)
    ||| change matches StateChange::PublishContent(publication) && target == RecordKey::<
        Seq<u8>,
    >::Inode(filesystem_id, publication.inode_id)
    ||| change matches StateChange::AdjustOpenPinCount { inode_id, .. } && target == RecordKey::<
        Seq<u8>,
    >::Orphan(filesystem_id, inode_id)
    ||| change matches StateChange::BumpLockGeneration { inode_id, lock_id } && target
        == RecordKey::<Seq<u8>>::Lock(filesystem_id, inode_id, lock_id)
    ||| change matches StateChange::RewrapContentMetadata(rewrap) && target == RecordKey::<
        Seq<u8>,
    >::ContentMetadata(filesystem_id, rewrap.content_file_id)
    ||| change matches StateChange::PublishXattrStaging(publication) && (target == RecordKey::<
        Seq<u8>,
    >::XattrStaging(filesystem_id, publication.staging_id) || target == RecordKey::Xattr(
        filesystem_id,
        publication.inode_id,
        publication.name,
    ))
}

/// A change touches exactly the records that it alters.
pub proof fn law_changes_touch_what_they_alter(
    filesystem_id: FilesystemId,
    change: StateChange<Seq<u8>, Seq<char>>,
    target: RecordKey<Seq<u8>>,
)
    ensures
        key_codec::touches(filesystem_id, change, target) <==> alters(
            filesystem_id,
            change,
            target,
        ),
{
}

/// The keys that a commit announces are in key order, each once, and they are
/// the key of its ledger record and those of the records that one of its
/// changes alters.
pub proof fn law_commits_announce_what_they_alter(
    request: CommitRequest,
    keys: Seq<RecordKey<Seq<u8>>>,
)
    requires
        publish::announces(request, keys),
    ensures
        forall|i: int, j: int|
            0 <= i < j < keys.len() ==> key::key_lt(#[trigger] keys[i], #[trigger] keys[j]),
        keys.contains(RecordKey::Mutation(request.filesystem_id, request.mutation.mutation_id)),
        forall|i: int, target: RecordKey<Seq<u8>>|
            0 <= i < request.changes.len() && #[trigger] alters(
                request.filesystem_id,
                request.changes@[i]@,
                target,
            ) ==> keys.contains(target),
        forall|target: RecordKey<Seq<u8>>| #[trigger]
            keys.contains(target) ==> target == RecordKey::<Seq<u8>>::Mutation(
                request.filesystem_id,
                request.mutation.mutation_id,
            ) || exists|i: int|
                0 <= i < request.changes.len() && alters(
                    request.filesystem_id,
                    (#[trigger] request.changes@[i])@,
                    target,
                ),
{
    let changes = request.change_seq();
    assert(publish::announced(request, request.ledger_key()));
    assert forall|i: int, target: RecordKey<Seq<u8>>|
        0 <= i < request.changes.len() && #[trigger] alters(
            request.filesystem_id,
            request.changes@[i]@,
            target,
        ) implies keys.contains(target) by {
        assert(changes[i] == request.changes@[i]@);
        law_changes_touch_what_they_alter(request.filesystem_id, changes[i], target);
        assert(publish::announced(request, target));
    }
    assert forall|target: RecordKey<Seq<u8>>| #[trigger] keys.contains(target) && target
        != request.ledger_key() implies exists|i: int|
        0 <= i < request.changes.len() && alters(
            request.filesystem_id,
            (#[trigger] request.changes@[i])@,
            target,
        ) by {
        assert(publish::announced(request, target));
        let i: int = choose|i: int|
            0 <= i < changes.len() && key_codec::touches(
                request.filesystem_id,
                #[trigger] changes[i],
                target,
            );
        assert(changes[i] == request.changes@[i]@);
        law_changes_touch_what_they_alter(request.filesystem_id, changes[i], target);
    }
}

/// A change is about a filesystem record.
pub open spec fn about_filesystem(change: StateChange<Seq<u8>, Seq<char>>) -> bool {
    match change {
        StateChange::Insert { key, .. } => key is Filesystem,
        StateChange::Replace { key, .. } => key is Filesystem,
        StateChange::Delete(key) => key is Filesystem,
        StateChange::AdvanceDirectoryCookie { .. } => true,
        StateChange::AdvanceQidPath { .. } => true,
        StateChange::BumpFilesystemPolicyGeneration => true,
        _ => false,
    }
}

/// Two changes that cannot stand in one request: both alter one record, or
/// both are about a filesystem record and they are not one allocation from
/// each of its two counters.
pub open spec fn clash(
    filesystem_id: FilesystemId,
    first: StateChange<Seq<u8>, Seq<char>>,
    second: StateChange<Seq<u8>, Seq<char>>,
) -> bool {
    if about_filesystem(first) && about_filesystem(second) {
        !(first is AdvanceDirectoryCookie && second is AdvanceQidPath) && !(first is AdvanceQidPath
            && second is AdvanceDirectoryCookie)
    } else {
        exists|target: RecordKey<Seq<u8>>|
            alters(filesystem_id, first, target) && #[trigger] alters(
                filesystem_id,
                second,
                target,
            )
    }
}

/// A request targets each record once exactly where no two of its changes
/// clash.
pub proof fn law_changes_target_records_once(
    filesystem_id: FilesystemId,
    changes: Seq<StateChange<Seq<u8>, Seq<char>>>,
)
    ensures
        key_codec::targets_once(filesystem_id, changes) <==> forall|i: int, j: int|
            0 <= i < j < changes.len() ==> !clash(
                filesystem_id,
                #[trigger] changes[i],
                #[trigger] changes[j],
            ),
{
    if key_codec::targets_once(filesystem_id, changes) {
        assert forall|i: int, j: int| 0 <= i < j < changes.len() implies !clash(
            filesystem_id,
            #[trigger] changes[i],
            #[trigger] changes[j],
        ) by {
            if clash(filesystem_id, changes[i], changes[j]) {
                lemma_clash_is_found(filesystem_id, changes, i, j);
            }
        }
    }
    if forall|i: int, j: int|
        0 <= i < j < changes.len() ==> !clash(
            filesystem_id,
            #[trigger] changes[i],
            #[trigger] changes[j],
        ) {
        assert forall|j: int| 0 <= j < changes.len() implies #[trigger] key_codec::duplicate_target(
            filesystem_id,
            changes,
            j,
        ) is None by {
            if key_codec::duplicate_target(filesystem_id, changes, j) is Some {
                let i: int = lemma_found_clashes(filesystem_id, changes, j);
                assert(clash(filesystem_id, changes[i], changes[j]));
            }
        }
    }
}

proof fn lemma_clash_is_found(
    filesystem_id: FilesystemId,
    changes: Seq<StateChange<Seq<u8>, Seq<char>>>,
    i: int,
    j: int,
)
    requires
        0 <= i < j < changes.len(),
        clash(filesystem_id, changes[i], changes[j]),
    ensures
        key_codec::duplicate_target(filesystem_id, changes, j) is Some,
{
    if about_filesystem(changes[i]) && about_filesystem(changes[j]) {
        assert(key_codec::filesystem_before(filesystem_id, changes, j));
        if key_codec::is_allocation(changes[j]) && key_codec::is_allocation(changes[i]) {
            assert(key_codec::allocated_before(changes, j));
        }
    } else {
        let target = choose|target: RecordKey<Seq<u8>>|
            alters(filesystem_id, changes[i], target) && #[trigger] alters(
                filesystem_id,
                changes[j],
                target,
            );
        law_changes_touch_what_they_alter(filesystem_id, changes[i], target);
        law_changes_touch_what_they_alter(filesystem_id, changes[j], target);
        assert(key_codec::touched_before(filesystem_id, changes, j, target));
    }
}

proof fn lemma_found_clashes(
    filesystem_id: FilesystemId,
    changes: Seq<StateChange<Seq<u8>, Seq<char>>>,
    j: int,
) -> (i: int)
    requires
        0 <= j < changes.len(),
        key_codec::duplicate_target(filesystem_id, changes, j) is Some,
    ensures
        0 <= i < j,
        clash(filesystem_id, changes[i], changes[j]),
{
    let target = key_codec::duplicate_target(filesystem_id, changes, j)->0;
    if key_codec::allocated_before(changes, j) {
        if changes[j] is AdvanceDirectoryCookie {
            choose|i: int| 0 <= i < j && #[trigger] changes[i] is AdvanceDirectoryCookie
        } else {
            choose|i: int| 0 <= i < j && #[trigger] changes[i] is AdvanceQidPath
        }
    } else if about_filesystem(changes[j]) {
        if key_codec::is_allocation(changes[j]) {
            choose|i: int|
                0 <= i < j && about_filesystem(#[trigger] changes[i]) && !key_codec::is_allocation(
                    changes[i],
                )
        } else {
            choose|i: int| 0 <= i < j && about_filesystem(#[trigger] changes[i])
        }
    } else {
        let i: int = choose|i: int|
            0 <= i < j && key_codec::touches(filesystem_id, #[trigger] changes[i], target);
        law_changes_touch_what_they_alter(filesystem_id, changes[i], target);
        law_changes_touch_what_they_alter(filesystem_id, changes[j], target);
        i
    }
}

proof fn lemma_change_totals_add(
    first: Seq<StateChange<Seq<u8>, Seq<char>>>,
    second: Seq<StateChange<Seq<u8>, Seq<char>>>,
)
    ensures
        estimate::change_total(first + second) == estimate::change_total(first)
            + estimate::change_total(second),
    decreases second.len(),
{
    if second.len() == 0 {
        assert(first + second == first);
    } else {
        assert((first + second).drop_last() == first + second.drop_last());
        lemma_change_totals_add(first, second.drop_last());
    }
}

proof fn lemma_precondition_totals_add(
    first: Seq<Precondition<Seq<u8>>>,
    second: Seq<Precondition<Seq<u8>>>,
)
    ensures
        estimate::precondition_total(first + second) == estimate::precondition_total(first)
            + estimate::precondition_total(second),
    decreases second.len(),
{
    if second.len() == 0 {
        assert(first + second == first);
    } else {
        assert((first + second).drop_last() == first + second.drop_last());
        lemma_precondition_totals_add(first, second.drop_last());
    }
}

/// A request that holds the preconditions, the changes and the result of two
/// requests one after the other is charged what both are charged, less the
/// fixed part of one.
pub proof fn law_charges_add_up(first: CommitRequest, second: CommitRequest, both: CommitRequest)
    requires
        both.precondition_seq() == first.precondition_seq() + second.precondition_seq(),
        both.change_seq() == first.change_seq() + second.change_seq(),
        both.terminal_result@.bytes == first.terminal_result@.bytes
            + second.terminal_result@.bytes,
    ensures
        estimate::request_bytes(both) + 256 == estimate::request_bytes(first)
            + estimate::request_bytes(second),
{
    lemma_precondition_totals_add(first.precondition_seq(), second.precondition_seq());
    lemma_change_totals_add(first.change_seq(), second.change_seq());
}

/// Bytes of the name in a key.
pub open spec fn name_len(key: RecordKey<Seq<u8>>) -> nat {
    match key {
        RecordKey::DirectoryEntry(_, _, name) => name.bytes.len(),
        RecordKey::Xattr(_, _, name) => name.bytes.len(),
        _ => 0,
    }
}

/// Each byte of a name is charged: two keys differ in their charge as their
/// names do in length, and so does what a change or a precondition about them
/// is charged.
pub proof fn law_names_are_charged(
    left: RecordKey<Seq<u8>>,
    right: RecordKey<Seq<u8>>,
    record: StateRecord<Seq<u8>, Seq<char>>,
)
    ensures
        estimate::key_bytes(left) - estimate::key_bytes(right) == name_len(left) - name_len(right),
        estimate::key_bytes(left) == 64 + name_len(left),
        estimate::change_bytes(StateChange::Delete(left)) == 64 + estimate::key_bytes(left),
        estimate::change_bytes(StateChange::Insert { key: left, record }) == estimate::change_bytes(
            StateChange::Delete(left),
        ) + estimate::record_bytes(record),
        estimate::change_bytes(StateChange::Replace { key: left, record })
            == estimate::change_bytes(StateChange::Insert { key: left, record }),
        estimate::precondition_bytes(Precondition::RecordAbsent(left)) == estimate::change_bytes(
            StateChange::Delete(left),
        ),
{
}

/// What a change that carries no record is charged: the bytes of each value of
/// free length that it carries, over a fixed part.
pub proof fn law_values_of_changes_are_charged(change: StateChange<Seq<u8>, Seq<char>>)
    ensures
        match change {
            StateChange::PublishContent(publication) => {
                let bare = estimate::change_bytes(change) - estimate::text_bytes(
                    publication.content.manifest_key.text,
                );
                match (publication.attributes.owner, publication.attributes.group) {
                    (Some(owner), Some(group)) => bare == 512 + owner.bytes.len()
                        + group.bytes.len(),
                    (Some(owner), None) => bare == 512 + owner.bytes.len(),
                    (None, Some(group)) => bare == 512 + group.bytes.len(),
                    (None, None) => bare == 512,
                }
            },
            StateChange::PublishXattrStaging(publication) => estimate::change_bytes(change) == 192
                + publication.name.bytes.len(),
            StateChange::Insert { .. } => true,
            StateChange::Replace { .. } => true,
            StateChange::Delete(_) => true,
            _ => estimate::change_bytes(change) == 128,
        },
{
}

/// A retained mutation answers with its own revision and its own result, and
/// only where the replay is exact; one that differs is answered with how it
/// differs; and a record of another family answers nothing.
pub proof fn law_retained_mutations_answer(
    stored: StateRecord<Seq<u8>, Seq<char>>,
    replay: MutationReplay,
)
    ensures
        match precondition::ledger_answer(stored, replay) {
            Ok(CommitOutcome::AlreadyCommitted(committed)) => {
                &&& replay is Exact
                &&& stored matches StateRecord::Mutation(record) && committed.revision
                    == record.committed_revision && committed.result == record.result
            },
            Ok(CommitOutcome::MutationMismatch(mismatch)) => stored is Mutation && replay
                == MutationReplay::Mismatch(mismatch),
            Ok(_) => false,
            Err(_) => !(stored is Mutation) || replay is Absent,
        },
{
}

/// A lease of no ticks, or of more than the limit, is rejected for its
/// duration; nothing else is rejected by the limits, and a release never is.
pub proof fn law_durations_are_bounded(request: LeaseRequest, limits: StateLimits)
    ensures
        match request {
            LeaseRequest::Acquire(asked) => if asked.duration == 0 || asked.duration
                > limits.values.max_lease_duration_ticks {
                lease_attempt::limit_rejection(request, limits) == Some(
                    LeaseOperationOutcome::Acquire(
                        AcquireLeaseOutcome::Rejected(LeaseRejection::InvalidDuration),
                    ),
                )
            } else {
                lease_attempt::limit_rejection(request, limits) is None
            },
            LeaseRequest::Renew(asked) => if asked.duration == 0 || asked.duration
                > limits.values.max_lease_duration_ticks {
                lease_attempt::limit_rejection(request, limits) == Some(
                    LeaseOperationOutcome::Renew(
                        RenewLeaseOutcome::Rejected(LeaseRejection::InvalidDuration),
                    ),
                )
            } else {
                lease_attempt::limit_rejection(request, limits) is None
            },
            LeaseRequest::Release(_) => lease_attempt::limit_rejection(request, limits) is None,
        },
{
}

/// What a record is charged: the bytes of each value of free length that it
/// carries, over the fixed part of its family.
pub proof fn law_values_of_records_are_charged(record: StateRecord<Seq<u8>, Seq<char>>)
    ensures
        match record {
            StateRecord::Inode(inode) => {
                let bare = estimate::record_bytes(record) - inode.owner.bytes.len()
                    - inode.group.bytes.len();
                match inode.data {
                    InodeData::RegularFile { content: Some(content), .. } => bare == 256
                        + estimate::text_bytes(content.manifest_key.text),
                    InodeData::Symlink { target } => bare == 256 + target.bytes.len(),
                    _ => bare == 256,
                }
            },
            StateRecord::ContentMetadata(metadata) => match metadata.wrapped_key_bytes {
                Some(wrapped) => estimate::record_bytes(record) == 160
                    + metadata.policy_bytes.len() + wrapped.len(),
                None => estimate::record_bytes(record) == 160 + metadata.policy_bytes.len(),
            },
            StateRecord::DirectoryEntry(entry) => estimate::record_bytes(record) == 96
                + entry.name.bytes.len(),
            StateRecord::Xattr(xattr) => estimate::record_bytes(record) == 96
                + xattr.name.bytes.len() + xattr.value.bytes.len(),
            StateRecord::XattrStaging(staging) => estimate::record_bytes(record) == 112
                + staging.name.bytes.len() + staging.bytes.bytes.len(),
            StateRecord::Mutation(mutation) => estimate::record_bytes(record) == 256
                + mutation.result.bytes.len(),
            _ => estimate::record_bytes(record) == 128,
        },
{
}

/// A request is refused before any attempt exactly where the rules of requests
/// refuse it, and then for that, or where two of its changes clash.
pub proof fn law_clashing_requests_are_not_attempted(
    request: CommitRequest,
    preflight: Option<MalformedCommit<Seq<u8>>>,
    outcome: Option<CommitOutcome<Seq<u8>>>,
)
    requires
        commit::admission(request, preflight, outcome),
    ensures
        preflight matches Some(error) ==> outcome == Some(CommitOutcome::MalformedRequest(error)),
        preflight is None ==> (outcome is None <==> forall|i: int, j: int|
            0 <= i < j < request.change_seq().len() ==> !clash(
                request.filesystem_id,
                #[trigger] request.change_seq()[i],
                #[trigger] request.change_seq()[j],
            )),
        preflight is None && outcome is Some ==> (outcome->0 matches
            CommitOutcome::MalformedRequest(MalformedCommit::DuplicateChangeTarget(_))),
{
    law_changes_target_records_once(request.filesystem_id, request.change_seq());
}

} // verus!
