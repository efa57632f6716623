//! The inodes and open handles whose relations a commit must leave intact.
use vstd::prelude::*;

use crate::key::RecordKey;
use crate::record::{InodeData, StateRecord};
use crate::request::{CommitRequest, StateChange};
use crate::table;
use crate::table::{RecordTable, Records};
use crate::transition;

verus! {

/// Numbers stand in strictly increasing order.
pub open spec fn increasing(numbers: Seq<u128>) -> bool {
    forall|i: int, j: int| 0 <= i < j < numbers.len() ==> numbers[i] < numbers[j]
}

/// Inserts a number into a strictly increasing vector, unless it is there.
pub fn insert_number(numbers: &mut Vec<u128>, number: u128)
    requires
        increasing(old(numbers)@),
    ensures
        increasing(final(numbers)@),
        forall|n: u128| #[trigger]
            final(numbers)@.contains(n) <==> (old(numbers)@.contains(n) || n == number),
{
    let ghost before = numbers@;
    let mut index: usize = 0;
    while index < numbers.len() && numbers[index] < number
        invariant
            index <= numbers@.len(),
            numbers@ == before,
            forall|i: int| 0 <= i < index ==> before[i] < number,
        decreases numbers@.len() - index,
    {
        index = index + 1;
    }
    if index < numbers.len() && numbers[index] == number {
        assert(before[index as int] == number);
        return;
    }
    numbers.insert(index, number);
    proof {
        let after = numbers@;
        let at = index as int;
        assert(after == before.insert(at, number));
        assert forall|n: u128| #[trigger] after.contains(n) <==> (before.contains(n) || n
            == number) by {
            if before.contains(n) {
                let i = choose|i: int| 0 <= i < before.len() && before[i] == n;
                if i < at {
                    assert(after[i] == n);
                } else {
                    assert(after[i + 1] == n);
                }
            }
            if after.contains(n) {
                let i = choose|i: int| 0 <= i < after.len() && after[i] == n;
                if i < at {
                    assert(before[i] == n);
                } else if i > at {
                    assert(before[i - 1] == n);
                }
            }
            assert(after[at] == number);
        }
    }
}

/// A record refers to an inode.
pub open spec fn record_refers(record: StateRecord<Seq<u8>, Seq<char>>, id: u128) -> bool {
    match record {
        StateRecord::Filesystem(r) => r.root_inode_id.value == id,
        StateRecord::Inode(r) => r.inode_id.value == id || match r.data {
            InodeData::Directory { parent_inode_id, .. } => parent_inode_id.value == id,
            _ => false,
        },
        StateRecord::ContentMetadata(r) => r.owner_inode_id.value == id,
        StateRecord::DirectoryEntry(r) => r.parent_inode_id.value == id || r.child_inode_id.value
            == id,
        StateRecord::Open(r) => r.inode_id.value == id,
        StateRecord::OpenPin(r) => r.inode_id.value == id,
        StateRecord::Orphan(r) => r.inode_id.value == id,
        StateRecord::Lock(r) => r.inode_id.value == id,
        StateRecord::Xattr(r) => r.inode_id.value == id,
        StateRecord::XattrStaging(r) => r.inode_id.value == id,
        StateRecord::Mutation(_) => false,
        StateRecord::WriterLease(_) => false,
    }
}

/// The inode that a key names.
pub open spec fn key_inode(key: RecordKey<Seq<u8>>) -> Option<u128> {
    match key {
        RecordKey::Inode(_, inode_id) => Some(inode_id.value),
        RecordKey::Orphan(_, inode_id) => Some(inode_id.value),
        RecordKey::OpenPin(_, inode_id, _) => Some(inode_id.value),
        RecordKey::Lock(_, inode_id, _) => Some(inode_id.value),
        RecordKey::Xattr(_, inode_id, _) => Some(inode_id.value),
        _ => None,
    }
}

/// A change concerns an inode.
pub open spec fn concerns_inode(records: Records, change: transition::Change, id: u128) -> bool {
    match change {
        StateChange::Insert { record, .. } => record_refers(record, id),
        StateChange::Replace { record, .. } => record_refers(record, id),
        StateChange::Delete(key) => key_inode(key) == Some(id) || match table::present(
            records,
            key,
        ) {
            Some(record) => record_refers(record, id),
            None => false,
        },
        StateChange::BumpInodeGeneration(inode_id) => inode_id.value == id,
        StateChange::BumpDirectoryGeneration(inode_id) => inode_id.value == id,
        StateChange::AdjustLinkCount { inode_id, .. } => inode_id.value == id,
        StateChange::AdjustOpenPinCount { inode_id, .. } => inode_id.value == id,
        StateChange::BumpLockGeneration { inode_id, .. } => inode_id.value == id,
        StateChange::PublishContent(publication) => publication.inode_id.value == id,
        StateChange::RewrapContentMetadata(_) => false,
        StateChange::PublishXattrStaging(publication) => publication.inode_id.value == id,
        StateChange::AdvanceDirectoryCookie { .. } => false,
        StateChange::AdvanceQidPath { .. } => false,
        StateChange::BumpFilesystemPolicyGeneration => false,
    }
}

/// One of the first changes concerns an inode.
pub open spec fn inode_targeted(
    records: Records,
    changes: Seq<transition::Change>,
    count: int,
    id: u128,
) -> bool {
    exists|i: int| 0 <= i < count && concerns_inode(records, #[trigger] changes[i], id)
}

/// The open handle that a record names.
pub open spec fn record_open(record: StateRecord<Seq<u8>, Seq<char>>) -> Option<u128> {
    match record {
        StateRecord::Open(r) => Some(r.open_id.value),
        StateRecord::OpenPin(r) => Some(r.open_id.value),
        StateRecord::Lock(r) => Some(r.owner.open_id.value),
        _ => None,
    }
}

/// A change concerns an open handle.
pub open spec fn concerns_open(records: Records, change: transition::Change, id: u128) -> bool {
    match change {
        StateChange::Insert { record, .. } => record_open(record) == Some(id),
        StateChange::Replace { record, .. } => record_open(record) == Some(id),
        StateChange::Delete(key) => (match key {
            RecordKey::Open(_, open_id) => open_id.value == id,
            RecordKey::OpenPin(_, _, open_id) => open_id.value == id,
            _ => false,
        }) || match table::present(records, key) {
            Some(record) => record_open(record) == Some(id),
            None => false,
        },
        _ => false,
    }
}

/// One of the first changes concerns an open handle.
pub open spec fn open_targeted(
    records: Records,
    changes: Seq<transition::Change>,
    count: int,
    id: u128,
) -> bool {
    exists|i: int| 0 <= i < count && concerns_open(records, #[trigger] changes[i], id)
}

fn collect_record_inodes(record: &StateRecord, inodes: &mut Vec<u128>)
    requires
        increasing(old(inodes)@),
    ensures
        increasing(final(inodes)@),
        forall|n: u128| #[trigger]
            final(inodes)@.contains(n) <==> (old(inodes)@.contains(n) || record_refers(record@, n)),
{
    match record {
        StateRecord::Filesystem(r) => insert_number(inodes, r.root_inode_id.value),
        StateRecord::Inode(r) => {
            insert_number(inodes, r.inode_id.value);
            match &r.data {
                InodeData::Directory { parent_inode_id, .. } => insert_number(
                    inodes,
                    parent_inode_id.value,
                ),
                _ => {},
            }
        },
        StateRecord::ContentMetadata(r) => insert_number(inodes, r.owner_inode_id.value),
        StateRecord::DirectoryEntry(r) => {
            insert_number(inodes, r.parent_inode_id.value);
            insert_number(inodes, r.child_inode_id.value);
        },
        StateRecord::Open(r) => insert_number(inodes, r.inode_id.value),
        StateRecord::OpenPin(r) => insert_number(inodes, r.inode_id.value),
        StateRecord::Orphan(r) => insert_number(inodes, r.inode_id.value),
        StateRecord::Lock(r) => insert_number(inodes, r.inode_id.value),
        StateRecord::Xattr(r) => insert_number(inodes, r.inode_id.value),
        StateRecord::XattrStaging(r) => insert_number(inodes, r.inode_id.value),
        StateRecord::Mutation(_) => {},
        StateRecord::WriterLease(_) => {},
    }
}

fn collect_key_inode(key: &RecordKey, inodes: &mut Vec<u128>)
    requires
        increasing(old(inodes)@),
    ensures
        increasing(final(inodes)@),
        forall|n: u128| #[trigger]
            final(inodes)@.contains(n) <==> (old(inodes)@.contains(n) || key_inode(key@) == Some(
                n,
            )),
{
    match key {
        RecordKey::Inode(_, inode_id) => insert_number(inodes, inode_id.value),
        RecordKey::Orphan(_, inode_id) => insert_number(inodes, inode_id.value),
        RecordKey::OpenPin(_, inode_id, _) => insert_number(inodes, inode_id.value),
        RecordKey::Lock(_, inode_id, _) => insert_number(inodes, inode_id.value),
        RecordKey::Xattr(_, inode_id, _) => insert_number(inodes, inode_id.value),
        _ => {},
    }
}

fn collect_change_inodes(records: &RecordTable, change: &StateChange, inodes: &mut Vec<u128>)
    requires
        increasing(old(inodes)@),
    ensures
        increasing(final(inodes)@),
        forall|n: u128| #[trigger]
            final(inodes)@.contains(n) <==> (old(inodes)@.contains(n) || concerns_inode(
                records@,
                change@,
                n,
            )),
{
    match change {
        StateChange::Insert { record, .. } => collect_record_inodes(record, inodes),
        StateChange::Replace { record, .. } => collect_record_inodes(record, inodes),
        StateChange::Delete(key) => {
            match records.get(key) {
                Some(record) => collect_record_inodes(record, inodes),
                None => {},
            }
            collect_key_inode(key, inodes);
        },
        StateChange::BumpInodeGeneration(inode_id) => insert_number(inodes, inode_id.value),
        StateChange::BumpDirectoryGeneration(inode_id) => insert_number(inodes, inode_id.value),
        StateChange::AdjustLinkCount { inode_id, .. } => insert_number(inodes, inode_id.value),
        StateChange::AdjustOpenPinCount { inode_id, .. } => insert_number(inodes, inode_id.value),
        StateChange::BumpLockGeneration { inode_id, .. } => insert_number(inodes, inode_id.value),
        StateChange::PublishContent(publication) => insert_number(
            inodes,
            publication.inode_id.value,
        ),
        StateChange::RewrapContentMetadata(_) => {},
        StateChange::PublishXattrStaging(publication) => insert_number(
            inodes,
            publication.inode_id.value,
        ),
        StateChange::AdvanceDirectoryCookie { .. } => {},
        StateChange::AdvanceQidPath { .. } => {},
        StateChange::BumpFilesystemPolicyGeneration => {},
    }
}

/// The inodes whose relations a commit may have touched, in order, each once.
pub fn targeted_inode_ids(request: &CommitRequest, previous: &RecordTable) -> (result: Vec<u128>)
    ensures
        increasing(result@),
        forall|n: u128| #[trigger]
            result@.contains(n) <==> inode_targeted(
                previous@,
                request.change_seq(),
                request.change_seq().len() as int,
                n,
            ),
{
    let ghost changes = request.change_seq();
    let mut inodes: Vec<u128> = Vec::new();
    let mut index: usize = 0;
    while index < request.changes.len()
        invariant
            index <= changes.len(),
            changes == request.change_seq(),
            changes.len() == request.changes@.len(),
            increasing(inodes@),
            forall|n: u128| #[trigger]
                inodes@.contains(n) <==> inode_targeted(previous@, changes, index as int, n),
        decreases changes.len() - index,
    {
        let ghost at = index as int;
        let ghost before = inodes@;
        assert(changes[at] == request.changes@[at]@);
        collect_change_inodes(previous, &request.changes[index], &mut inodes);
        proof {
            assert forall|n: u128| #[trigger] inodes@.contains(n) <==> inode_targeted(
                previous@,
                changes,
                at + 1,
                n,
            ) by {
                assert(before.contains(n) <==> inode_targeted(previous@, changes, at, n));
                if inode_targeted(previous@, changes, at, n) {
                    let i = choose|i: int|
                        0 <= i < at && concerns_inode(previous@, #[trigger] changes[i], n);
                    assert(concerns_inode(previous@, changes[i], n));
                }
                if concerns_inode(previous@, changes[at], n) {
                    assert(inode_targeted(previous@, changes, at + 1, n));
                }
            }
        }
        index = index + 1;
    }
    inodes
}

fn collect_record_opens(record: &StateRecord, opens: &mut Vec<u128>)
    requires
        increasing(old(opens)@),
    ensures
        increasing(final(opens)@),
        forall|n: u128| #[trigger]
            final(opens)@.contains(n) <==> (old(opens)@.contains(n) || record_open(record@) == Some(
                n,
            )),
{
    match record {
        StateRecord::Open(r) => insert_number(opens, r.open_id.value),
        StateRecord::OpenPin(r) => insert_number(opens, r.open_id.value),
        StateRecord::Lock(r) => insert_number(opens, r.owner.open_id.value),
        _ => {},
    }
}

fn collect_change_opens(records: &RecordTable, change: &StateChange, opens: &mut Vec<u128>)
    requires
        increasing(old(opens)@),
    ensures
        increasing(final(opens)@),
        forall|n: u128| #[trigger]
            final(opens)@.contains(n) <==> (old(opens)@.contains(n) || concerns_open(
                records@,
                change@,
                n,
            )),
{
    match change {
        StateChange::Insert { record, .. } => collect_record_opens(record, opens),
        StateChange::Replace { record, .. } => collect_record_opens(record, opens),
        StateChange::Delete(key) => {
            match records.get(key) {
                Some(record) => collect_record_opens(record, opens),
                None => {},
            }
            match key {
                RecordKey::Open(_, open_id) => insert_number(opens, open_id.value),
                RecordKey::OpenPin(_, _, open_id) => insert_number(opens, open_id.value),
                _ => {},
            }
        },
        _ => {},
    }
}

/// The open handles whose dependents a commit may have touched, in order,
/// each once.
pub fn targeted_open_ids(request: &CommitRequest, previous: &RecordTable) -> (result: Vec<u128>)
    ensures
        increasing(result@),
        forall|n: u128| #[trigger]
            result@.contains(n) <==> open_targeted(
                previous@,
                request.change_seq(),
                request.change_seq().len() as int,
                n,
            ),
{
    let ghost changes = request.change_seq();
    let mut opens: Vec<u128> = Vec::new();
    let mut index: usize = 0;
    while index < request.changes.len()
        invariant
            index <= changes.len(),
            changes == request.change_seq(),
            changes.len() == request.changes@.len(),
            increasing(opens@),
            forall|n: u128| #[trigger]
                opens@.contains(n) <==> open_targeted(previous@, changes, index as int, n),
        decreases changes.len() - index,
    {
        let ghost at = index as int;
        let ghost before = opens@;
        assert(changes[at] == request.changes@[at]@);
        collect_change_opens(previous, &request.changes[index], &mut opens);
        proof {
            assert forall|n: u128| #[trigger] opens@.contains(n) <==> open_targeted(
                previous@,
                changes,
                at + 1,
                n,
            ) by {
                assert(before.contains(n) <==> open_targeted(previous@, changes, at, n));
                if open_targeted(previous@, changes, at, n) {
                    let i = choose|i: int|
                        0 <= i < at && concerns_open(previous@, #[trigger] changes[i], n);
                    assert(concerns_open(previous@, changes[i], n));
                }
                if concerns_open(previous@, changes[at], n) {
                    assert(open_targeted(previous@, changes, at + 1, n));
                }
            }
        }
        index = index + 1;
    }
    opens
}

} // verus!
