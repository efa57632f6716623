//! Size estimates that bound one transaction.
use vstd::prelude::*;

use crate::key::RecordKey;
use crate::record::{InodeData, StateRecord};
use crate::request::{CommitRequest, Precondition, StateChange};

verus! {

/// Bytes of a text.
pub open spec fn text_bytes(text: Seq<char>) -> nat {
    vstd::utf8::encode_utf8(text).len()
}

/// Bytes charged for a key.
pub open spec fn key_bytes(key: RecordKey<Seq<u8>>) -> nat {
    match key {
        RecordKey::DirectoryEntry(_, _, name) => 64 + name.bytes.len(),
        RecordKey::Xattr(_, _, name) => 64 + name.bytes.len(),
        _ => 64,
    }
}

/// Bytes of an optional value.
pub open spec fn optional_len(value: Option<Seq<u8>>) -> nat {
    match value {
        Some(bytes) => bytes.len(),
        None => 0,
    }
}

/// Bytes charged for the kind-specific data of an inode.
pub open spec fn data_bytes(data: InodeData<Seq<u8>, Seq<char>>) -> nat {
    match data {
        InodeData::RegularFile { content: Some(content), .. } => text_bytes(
            content.manifest_key.text,
        ),
        InodeData::Symlink { target } => target.bytes.len(),
        _ => 0,
    }
}

/// Bytes charged for a record.
pub open spec fn record_bytes(record: StateRecord<Seq<u8>, Seq<char>>) -> nat {
    match record {
        StateRecord::Filesystem(_) => 128,
        StateRecord::Inode(r) => 256 + r.owner.bytes.len() + r.group.bytes.len() + data_bytes(
            r.data,
        ),
        StateRecord::ContentMetadata(r) => 160 + r.policy_bytes.len() + optional_len(
            r.wrapped_key_bytes,
        ),
        StateRecord::DirectoryEntry(r) => 96 + r.name.bytes.len(),
        StateRecord::Open(_) => 128,
        StateRecord::OpenPin(_) => 128,
        StateRecord::Orphan(_) => 128,
        StateRecord::Lock(_) => 128,
        StateRecord::Xattr(r) => 96 + r.name.bytes.len() + r.value.bytes.len(),
        StateRecord::XattrStaging(r) => 112 + r.name.bytes.len() + r.bytes.bytes.len(),
        StateRecord::Mutation(r) => 256 + r.result.bytes.len(),
        StateRecord::WriterLease(_) => 128,
    }
}

/// Bytes charged for a precondition.
pub open spec fn precondition_bytes(precondition: Precondition<Seq<u8>>) -> nat {
    match precondition {
        Precondition::RecordAbsent(key) => 64 + key_bytes(key),
        Precondition::RecordRevision { key, .. } => 64 + key_bytes(key),
        _ => 128,
    }
}

/// Bytes charged for a change.
pub open spec fn change_bytes(change: StateChange<Seq<u8>, Seq<char>>) -> nat {
    match change {
        StateChange::Insert { key, record } => 64 + key_bytes(key) + record_bytes(record),
        StateChange::Replace { key, record } => 64 + key_bytes(key) + record_bytes(record),
        StateChange::Delete(key) => 64 + key_bytes(key),
        StateChange::PublishContent(publication) => 512 + text_bytes(
            publication.content.manifest_key.text,
        ) + (match publication.attributes.owner {
            Some(owner) => owner.bytes.len(),
            None => 0,
        }) + (match publication.attributes.group {
            Some(group) => group.bytes.len(),
            None => 0,
        }),
        StateChange::PublishXattrStaging(publication) => 192 + publication.name.bytes.len(),
        _ => 128,
    }
}

/// Bytes charged for preconditions.
pub open spec fn precondition_total(preconditions: Seq<Precondition<Seq<u8>>>) -> nat
    decreases preconditions.len(),
{
    if preconditions.len() == 0 {
        0
    } else {
        precondition_total(preconditions.drop_last()) + precondition_bytes(preconditions.last())
    }
}

/// Bytes charged for changes.
pub open spec fn change_total(changes: Seq<StateChange<Seq<u8>, Seq<char>>>) -> nat
    decreases changes.len(),
{
    if changes.len() == 0 {
        0
    } else {
        change_total(changes.drop_last()) + change_bytes(changes.last())
    }
}

/// Bytes charged for a request.
pub open spec fn request_bytes(request: CommitRequest) -> nat {
    256 + request.terminal_result@.bytes.len() + precondition_total(request.precondition_seq())
        + change_total(request.change_seq())
}

/// A size, if it fits the machine.
pub open spec fn fitting(size: nat) -> Option<usize> {
    if size <= usize::MAX {
        Some(size as usize)
    } else {
        None
    }
}

fn sum(left: Option<usize>, right: Option<usize>) -> (result: Option<usize>)
    ensures
        result == (match (left, right) {
            (Some(left), Some(right)) => fitting((left + right) as nat),
            _ => None,
        }),
{
    match (left, right) {
        (Some(left), Some(right)) => left.checked_add(right),
        _ => None,
    }
}

fn text_size(text: &str) -> (result: usize)
    ensures
        result == text_bytes(text@),
{
    text.as_bytes().len()
}

/// Estimates a key.
pub fn estimate_key(key: &RecordKey) -> (result: Option<usize>)
    ensures
        result == fitting(key_bytes(key@)),
{
    match key {
        RecordKey::DirectoryEntry(_, _, name) => name.bytes.len().checked_add(64),
        RecordKey::Xattr(_, _, name) => name.bytes.len().checked_add(64),
        _ => Some(64),
    }
}

fn estimate_data(data: &InodeData) -> (result: usize)
    ensures
        result == data_bytes(data@),
{
    match data {
        InodeData::RegularFile { content: Some(content), .. } => text_size(
            content.manifest_key.text.as_str(),
        ),
        InodeData::Symlink { target } => target.bytes.len(),
        _ => 0,
    }
}

fn add3(first: usize, second: usize, third: usize) -> (result: Option<usize>)
    ensures
        result == fitting((first + second + third) as nat),
{
    match first.checked_add(second) {
        Some(total) => total.checked_add(third),
        None => None,
    }
}

/// Estimates a record.
pub fn estimate_record(record: &StateRecord) -> (result: Option<usize>)
    ensures
        result == fitting(record_bytes(record@)),
{
    match record {
        StateRecord::Filesystem(_) => Some(128),
        StateRecord::Inode(r) => {
            let data: usize = estimate_data(&r.data);
            match add3(r.owner.bytes.len(), r.group.bytes.len(), data) {
                Some(total) => total.checked_add(256),
                None => None,
            }
        },
        StateRecord::ContentMetadata(r) => {
            let wrapped: usize = match &r.wrapped_key_bytes {
                Some(bytes) => bytes.len(),
                None => 0,
            };
            add3(160, r.policy_bytes.len(), wrapped)
        },
        StateRecord::DirectoryEntry(r) => r.name.bytes.len().checked_add(96),
        StateRecord::Open(_)
        | StateRecord::OpenPin(_)
        | StateRecord::Orphan(_)
        | StateRecord::Lock(_) => Some(128),
        StateRecord::Xattr(r) => add3(96, r.name.bytes.len(), r.value.bytes.len()),
        StateRecord::XattrStaging(r) => add3(112, r.name.bytes.len(), r.bytes.bytes.len()),
        StateRecord::Mutation(r) => r.result.bytes.len().checked_add(256),
        StateRecord::WriterLease(_) => Some(128),
    }
}

fn estimate_precondition(precondition: &Precondition) -> (result: Option<usize>)
    ensures
        result == fitting(precondition_bytes(precondition@)),
{
    match precondition {
        Precondition::RecordAbsent(key) => sum(Some(64), estimate_key(key)),
        Precondition::RecordRevision { key, .. } => sum(Some(64), estimate_key(key)),
        _ => Some(128),
    }
}

fn estimate_change(change: &StateChange) -> (result: Option<usize>)
    ensures
        result == fitting(change_bytes(change@)),
{
    match change {
        StateChange::Insert { key, record } => sum(
            sum(Some(64), estimate_key(key)),
            estimate_record(record),
        ),
        StateChange::Replace { key, record } => sum(
            sum(Some(64), estimate_key(key)),
            estimate_record(record),
        ),
        StateChange::Delete(key) => sum(Some(64), estimate_key(key)),
        StateChange::PublishContent(publication) => {
            let manifest: usize = text_size(publication.content.manifest_key.text.as_str());
            let owner: usize = match &publication.attributes.owner {
                Some(owner) => owner.bytes.len(),
                None => 0,
            };
            let group: usize = match &publication.attributes.group {
                Some(group) => group.bytes.len(),
                None => 0,
            };
            match add3(manifest, owner, group) {
                Some(total) => total.checked_add(512),
                None => None,
            }
        },
        StateChange::PublishXattrStaging(publication) => publication.name.bytes.len().checked_add(
            192,
        ),
        _ => Some(128),
    }
}

/// Estimates the bytes that one request writes, if the number fits.
pub fn estimate_transaction_bytes(request: &CommitRequest) -> (result: Option<usize>)
    ensures
        result == fitting(request_bytes(*request)),
{
    let ghost preconditions = request.precondition_seq();
    let ghost changes = request.change_seq();
    let mut total: Option<usize> = request.terminal_result.bytes.len().checked_add(256);
    let mut index: usize = 0;
    while index < request.preconditions.len()
        invariant
            index <= preconditions.len(),
            preconditions == request.precondition_seq(),
            preconditions.len() == request.preconditions@.len(),
            total == fitting(
                256 + request.terminal_result@.bytes.len() + precondition_total(
                    preconditions.take(index as int),
                ),
            ),
        decreases preconditions.len() - index,
    {
        let size = estimate_precondition(&request.preconditions[index]);
        proof {
            let next = preconditions.take(index + 1);
            assert(next.drop_last() =~= preconditions.take(index as int));
            assert(next.last() == request.preconditions@[index as int]@);
        }
        total = sum(total, size);
        index = index + 1;
    }
    assert(preconditions.take(index as int) =~= preconditions);
    let mut position: usize = 0;
    while position < request.changes.len()
        invariant
            position <= changes.len(),
            changes == request.change_seq(),
            changes.len() == request.changes@.len(),
            total == fitting(
                256 + request.terminal_result@.bytes.len() + precondition_total(preconditions)
                    + change_total(changes.take(position as int)),
            ),
        decreases changes.len() - position,
    {
        let size = estimate_change(&request.changes[position]);
        proof {
            let next = changes.take(position + 1);
            assert(next.drop_last() =~= changes.take(position as int));
            assert(next.last() == request.changes@[position as int]@);
        }
        total = sum(total, size);
        position = position + 1;
    }
    assert(changes.take(position as int) =~= changes);
    total
}

} // verus!
